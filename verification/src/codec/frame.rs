//! The envelope around one record: key, length exponent, length, payload.

use crate::bytes::{be_bytes, lemma_pow256_monotonic, lemma_pow256_positive, pow256};
use vstd::prelude::*;

verus! {

/// The number of bytes that the length `len` is written in: as few as can
/// hold it, none at all for an empty payload.
pub open spec fn min_exponent(len: nat) -> nat
    decreases len,
{
    if len == 0 {
        0
    } else {
        1 + min_exponent(len / 256)
    }
}

/// A key at the width of its container. A shorter key is extended with
/// zero bytes in front; of a longer one the trailing `width` bytes are
/// kept, so that either way the key stays aligned to its last byte.
pub open spec fn fit_key(key: Seq<u8>, width: nat) -> Seq<u8> {
    if key.len() >= width {
        key.skip(key.len() - width)
    } else {
        Seq::new((width - key.len()) as nat, |i: int| 0u8) + key
    }
}

/// The frame that holds `payload` under `key` in a container whose keys
/// are `width` bytes wide.
pub open spec fn frame(key: Seq<u8>, width: nat, payload: Seq<u8>) -> Seq<u8> {
    let exp = min_exponent(payload.len());
    fit_key(key, width) + seq![exp as u8] + be_bytes(payload.len(), exp) + payload
}

/// The exponent chosen for a length is the least that can hold it: the
/// length fits in that many bytes and in no fewer, and the exponent is zero
/// for the empty payload alone.
pub proof fn lemma_min_exponent_is_least(len: nat)
    ensures
        len < pow256(min_exponent(len)),
        min_exponent(len) == 0 <==> len == 0,
        min_exponent(len) > 0 ==> pow256((min_exponent(len) - 1) as nat) <= len,
        forall|e: nat| len < pow256(e) ==> min_exponent(len) <= e,
    decreases len,
{
    let exp = min_exponent(len);
    if len > 0 {
        lemma_min_exponent_is_least(len / 256);
        let below = (exp - 1) as nat;
        assert(exp == 1 + min_exponent(len / 256));
        assert(len < 256 * pow256(below));
        if below > 0 {
            assert(256 * pow256((below - 1) as nat) <= len);
        }
        assert forall|e: nat| len < pow256(e) implies exp <= e by {
            if e < exp {
                lemma_pow256_monotonic(e, below);
            }
        }
    } else {
        assert forall|e: nat| len < pow256(e) implies exp <= e by {}
    }
}

/// A length that eight bytes can hold never asks for more than eight.
pub proof fn lemma_min_exponent_at_most_8(len: nat)
    requires
        len <= u64::MAX,
    ensures
        min_exponent(len) <= 8,
{
    lemma_min_exponent_is_least(len);
    crate::bytes::lemma_pow256_values();
    if min_exponent(len) > 8 {
        lemma_pow256_positive(8);
        lemma_pow256_monotonic(8, (min_exponent(len) - 1) as nat);
    }
}

} // verus!

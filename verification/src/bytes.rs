//! Big-endian integers as byte sequences: the arithmetic that every
//! fixed-width field and every frame length rests on.

use vstd::prelude::*;

verus! {

/// The number that the bytes of `s` spell, most significant byte first.
pub open spec fn be_value(s: Seq<u8>) -> nat
    decreases s.len(),
{
    if s.len() == 0 {
        0
    } else {
        be_value(s.drop_last()) * 256 + s.last() as nat
    }
}

/// The `n` low-order bytes of `v`, most significant byte first.
pub open spec fn be_bytes(v: nat, n: nat) -> Seq<u8>
    decreases n,
{
    if n == 0 {
        Seq::<u8>::empty()
    } else {
        be_bytes(v / 256, (n - 1) as nat).push((v % 256) as u8)
    }
}

/// 256 to the power `n`.
pub open spec fn pow256(n: nat) -> nat
    decreases n,
{
    if n == 0 {
        1
    } else {
        256 * pow256((n - 1) as nat)
    }
}

/// The two's-complement reading of an unsigned number of `bits` bits,
/// where `half` is two to the power `bits - 1`.
pub open spec fn twos_complement(v: nat, half: nat) -> int {
    if v < half {
        v as int
    } else {
        v - 2 * half
    }
}

/// The signed reading of a byte.
pub open spec fn signed8(v: nat) -> int {
    twos_complement(v, 0x80)
}

/// The signed reading of a 16-bit word.
pub open spec fn signed16(v: nat) -> int {
    twos_complement(v, 0x8000)
}

/// The signed reading of a 32-bit word.
pub open spec fn signed32(v: nat) -> int {
    twos_complement(v, 0x8000_0000)
}

/// The signed reading of a 64-bit word.
pub open spec fn signed64(v: nat) -> int {
    twos_complement(v, 0x8000_0000_0000_0000)
}

/// The unsigned number whose `bits`-bit pattern is that of `v` in two's
/// complement, where `modulus` is two to the power `bits`.
pub open spec fn bit_pattern(v: int, modulus: nat) -> nat {
    if v >= 0 {
        v as nat
    } else {
        (v + modulus) as nat
    }
}

/// `be_bytes` always yields exactly the width asked for.
pub proof fn lemma_be_bytes_len(v: nat, n: nat)
    ensures
        be_bytes(v, n).len() == n,
    decreases n,
{
    if n > 0 {
        lemma_be_bytes_len(v / 256, (n - 1) as nat);
    }
}

/// Reading back the `n` bytes written for `v` gives `v` modulo `256^n`.
pub proof fn lemma_be_value_of_be_bytes(v: nat, n: nat)
    ensures
        be_value(be_bytes(v, n)) == v % pow256(n),
    decreases n,
{
    if n == 0 {
    } else {
        let m = (n - 1) as nat;
        let head = be_bytes(v / 256, m);
        lemma_be_value_of_be_bytes(v / 256, m);
        assert(be_bytes(v, n).drop_last() =~= head);
        lemma_pow256_positive(m);
        lemma_mod_step(v, pow256(m));
    }
}

/// Writing the number that `s` spells, at the width of `s`, gives `s` back.
pub proof fn lemma_be_bytes_of_be_value(s: Seq<u8>)
    ensures
        be_bytes(be_value(s), s.len()) == s,
    decreases s.len(),
{
    if s.len() > 0 {
        let v = be_value(s);
        lemma_be_bytes_of_be_value(s.drop_last());
        assert(v / 256 == be_value(s.drop_last()));
        assert(v % 256 == s.last() as nat);
        assert(be_bytes(v, s.len()) =~= s);
    } else {
        assert(be_bytes(be_value(s), s.len()) =~= s);
    }
}

pub proof fn lemma_pow256_positive(n: nat)
    ensures
        pow256(n) > 0,
    decreases n,
{
    if n > 0 {
        lemma_pow256_positive((n - 1) as nat);
    }
}

/// `(v / 256 mod p) * 256 + v mod 256` is `v mod (256 * p)`.
pub proof fn lemma_mod_step(v: nat, p: nat)
    requires
        p > 0,
    ensures
        ((v / 256) % p) * 256 + v % 256 == v % (256 * p),
{
    let q = v / 256;
    let r = v % 256;
    let a = q / p;
    let b = q % p;
    assert(q == p * a + b) by {
        vstd::arithmetic::div_mod::lemma_fundamental_div_mod(q as int, p as int);
    }
    assert(v == (256 * p) * a + (b * 256 + r)) by (nonlinear_arith)
        requires
            v == 256 * q + r,
            q == p * a + b,
    ;
    assert(0 <= b * 256 + r < 256 * p) by (nonlinear_arith)
        requires
            0 <= b < p,
            0 <= r < 256,
    ;
    vstd::arithmetic::div_mod::lemma_fundamental_div_mod_converse(
        v as int,
        (256 * p) as int,
        a as int,
        (b * 256 + r) as int,
    );
}

/// Powers of 256 grow with the exponent.
pub proof fn lemma_pow256_monotonic(a: nat, b: nat)
    requires
        a <= b,
    ensures
        pow256(a) <= pow256(b),
    decreases b,
{
    if a < b {
        lemma_pow256_monotonic(a, (b - 1) as nat);
        lemma_pow256_positive((b - 1) as nat);
    }
}

/// The powers of 256 that the fixed widths of the format meet.
pub proof fn lemma_pow256_values()
    ensures
        pow256(0) == 1,
        pow256(1) == 0x100,
        pow256(2) == 0x1_0000,
        pow256(3) == 0x100_0000,
        pow256(4) == 0x1_0000_0000,
        pow256(5) == 0x100_0000_0000,
        pow256(6) == 0x1_0000_0000_0000,
        pow256(7) == 0x100_0000_0000_0000,
        pow256(8) == 0x1_0000_0000_0000_0000,
{
    reveal_with_fuel(pow256, 10);
}

/// `v` with its `n` low-order bytes dropped.
pub open spec fn drop_low_bytes(v: nat, n: nat) -> nat
    decreases n,
{
    if n == 0 {
        v
    } else {
        drop_low_bytes(v / 256, (n - 1) as nat)
    }
}

/// Dropping one more byte divides by 256 once more.
pub proof fn lemma_drop_low_bytes_step(v: nat, n: nat)
    ensures
        drop_low_bytes(v, n + 1) == drop_low_bytes(v, n) / 256,
    decreases n,
{
    if n > 0 {
        lemma_drop_low_bytes_step(v / 256, (n - 1) as nat);
    } else {
        assert(drop_low_bytes(v / 256, 0) == v / 256);
    }
}

/// One byte more of width adds the next more significant byte in front.
pub proof fn lemma_be_bytes_front(v: nat, n: nat)
    ensures
        be_bytes(v, n + 1) == seq![(drop_low_bytes(v, n) % 256) as u8] + be_bytes(v, n),
    decreases n,
{
    if n == 0 {
        assert(be_bytes(v / 256, 0) =~= Seq::<u8>::empty());
        assert(be_bytes(v, 1) =~= seq![(v % 256) as u8] + be_bytes(v, 0));
    } else {
        let m = (n - 1) as nat;
        lemma_be_bytes_front(v / 256, m);
        let front = seq![(drop_low_bytes(v, n) % 256) as u8];
        assert(be_bytes(v, n + 1) == be_bytes(v / 256, n).push((v % 256) as u8));
        assert(be_bytes(v / 256, n) == front + be_bytes(v / 256, m));
        assert((front + be_bytes(v / 256, m)).push((v % 256) as u8) =~= front + be_bytes(v, n));
    }
}

/// The `width` low-order bytes of `v`, most significant byte first.
pub fn be_vec(v: u64, width: u8) -> (out: Vec<u8>)
    ensures
        out@ == be_bytes(v as nat, width as nat),
{
    let mut out: Vec<u8> = Vec::new();
    let mut number: u64 = v;
    let mut i: u8 = 0;
    while i < width
        invariant
            i <= width,
            number == drop_low_bytes(v as nat, i as nat),
            out@ == be_bytes(v as nat, i as nat),
        decreases width - i,
    {
        proof {
            lemma_be_bytes_front(v as nat, i as nat);
            lemma_drop_low_bytes_step(v as nat, i as nat);
            assert(seq![(number % 256) as u8] + out@ =~= out@.insert(0, (number % 256) as u8));
        }
        out.insert(0, (number % 256) as u8);
        number = number / 256;
        i = i + 1;
    }
    out
}

/// Appends a copy of `src` to `dst`.
pub fn append_bytes(dst: &mut Vec<u8>, src: &[u8])
    ensures
        final(dst)@ == old(dst)@ + src@,
{
    dst.extend_from_slice(src);
    assert(dst@ =~= old(dst)@ + src@);
}

} // verus!

//! An append-only output buffer.

use crate::bytes::{append_bytes, be_bytes, be_vec, bit_pattern};
use crate::codec::frame::{fit_key, frame, lemma_min_exponent_at_most_8, min_exponent};
use crate::text::{bytes_of, option_text, option_text_bytes, short_text_bytes};
use vstd::prelude::*;
use vstd::slice::*;
use vstd::std_specs::iter::IteratorSpec;

verus! {

pub struct Writer {
    inner: Vec<u8>,
}

impl View for Writer {
    type V = Seq<u8>;

    /// The bytes written so far.
    closed spec fn view(&self) -> Seq<u8> {
        self.inner@
    }
}

impl Writer {
    pub fn new() -> (w: Self)
        ensures
            w@ == Seq::<u8>::empty(),
    {
        Self { inner: Vec::new() }
    }

    pub fn write_u8(&mut self, data: u8)
        ensures
            final(self)@ == old(self)@.push(data),
            final(self)@ == old(self)@ + be_bytes(data as nat, 1),
    {
        proof {
            assert(be_bytes(data as nat, 1) =~= seq![data]) by {
                reveal_with_fuel(be_bytes, 2);
            }
            assert(self@.push(data) =~= self@ + seq![data]);
        }
        self.inner.push(data);
    }

    pub fn write_u16(&mut self, data: u16)
        ensures
            final(self)@ == old(self)@ + be_bytes(data as nat, 2),
    {
        let bytes = be_vec(data as u64, 2);
        append_bytes(&mut self.inner, bytes.as_slice());
    }

    pub fn write_u32(&mut self, data: u32)
        ensures
            final(self)@ == old(self)@ + be_bytes(data as nat, 4),
    {
        let bytes = be_vec(data as u64, 4);
        append_bytes(&mut self.inner, bytes.as_slice());
    }

    pub fn write_u64(&mut self, data: u64)
        ensures
            final(self)@ == old(self)@ + be_bytes(data as nat, 8),
    {
        let bytes = be_vec(data, 8);
        append_bytes(&mut self.inner, bytes.as_slice());
    }

    pub fn write_i8(&mut self, data: i8)
        ensures
            final(self)@ == old(self)@ + be_bytes(bit_pattern(data as int, 0x100), 1),
    {
        assert(data as u8 == if data >= 0 { data as int } else { data + 0x100 }) by (bit_vector);
        self.write_u8(data as u8);
    }

    pub fn write_i16(&mut self, data: i16)
        ensures
            final(self)@ == old(self)@ + be_bytes(bit_pattern(data as int, 0x1_0000), 2),
    {
        assert(data as u16 == if data >= 0 { data as int } else { data + 0x1_0000 })
            by (bit_vector);
        self.write_u16(data as u16);
    }

    pub fn write_i32(&mut self, data: i32)
        ensures
            final(self)@ == old(self)@ + be_bytes(bit_pattern(data as int, 0x1_0000_0000), 4),
    {
        assert(data as u32 == if data >= 0 { data as int } else { data + 0x1_0000_0000 })
            by (bit_vector);
        self.write_u32(data as u32);
    }

    pub fn write_i64(&mut self, data: i64)
        ensures
            final(self)@ == old(self)@ + be_bytes(
                bit_pattern(data as int, 0x1_0000_0000_0000_0000),
                8,
            ),
    {
        assert(data as u64 == if data >= 0 { data as int } else { data + 0x1_0000_0000_0000_0000 })
            by (bit_vector);
        self.write_u64(data as u64);
    }

    /// A flag byte: 1 for `true`, 0 for `false`.
    pub fn write_bool(&mut self, data: bool)
        ensures
            final(self)@ == old(self)@.push(if data { 1u8 } else { 0u8 }),
    {
        self.inner.push(if data { 1 } else { 0 });
    }

    pub fn write_str(&mut self, data: &str)
        ensures
            final(self)@ == old(self)@ + bytes_of(data@),
    {
        append_bytes(&mut self.inner, data.as_bytes());
    }

    pub fn write_u8_str(&mut self, data: &str)
        ensures
            final(self)@ == old(self)@ + short_text_bytes(data@),
    {
        let bytes = data.as_bytes();
        let len = if bytes.len() < 255 { bytes.len() } else { 255 };
        self.inner.push(len as u8);
        append_bytes(&mut self.inner, slice_subrange(bytes, 0, len));
        proof {
            assert(self@ =~= old(self)@ + short_text_bytes(data@));
        }
    }

    pub fn write_option_string(&mut self, data: &Option<String>)
        ensures
            final(self)@ == old(self)@ + option_text_bytes(option_text(*data)),
    {
        match data {
            Some(text) => {
                append_bytes(&mut self.inner, text.as_str().as_bytes());
            },
            None => {
                assert(self@ =~= self@ + Seq::<u8>::empty());
            },
        }
    }

    pub fn write_slice(&mut self, data: &[u8])
        ensures
            final(self)@ == old(self)@ + data@,
    {
        append_bytes(&mut self.inner, data);
    }

    /// Appends every byte that `data` yields, in the order it yields them.
    pub fn write_iter<I: Iterator<Item = u8>>(&mut self, data: I)
        requires
            data.obeys_prophetic_iter_laws(),
            data.decrease() is Some,
        ensures
            final(self)@ == old(self)@ + data.remaining(),
    {
        let ghost all = data.remaining();
        let ghost mut done: int = 0;
        let mut source = data;
        proof {
            assert(all.skip(0) =~= all);
            assert(self@ =~= self@ + all.take(0));
        }
        loop
            invariant
                source.obeys_prophetic_iter_laws(),
                source.decrease() is Some,
                all == data.remaining(),
                0 <= done <= all.len(),
                source.remaining() == all.skip(done),
                self@ == old(self)@ + all.take(done),
            decreases source.decrease()->0,
        {
            match source.next() {
                Some(byte) => {
                    self.inner.push(byte);
                    proof {
                        assert(all.take(done + 1) =~= all.take(done).push(byte));
                        assert(all.skip(done).drop_first() =~= all.skip(done + 1));
                        assert(self@ =~= old(self)@ + all.take(done + 1));
                        done = done + 1;
                    }
                },
                None => {
                    proof {
                        assert(all.skip(done).len() == 0);
                        assert(all.take(done) =~= all);
                    }
                    return ;
                },
            }
        }
    }

    /// Returns a clone of this [Writer]'s internal buffer.
    pub fn to_vec(&self) -> (data: Vec<u8>)
        ensures
            data@ == self@,
    {
        slice_to_vec(self.inner.as_slice())
    }

    /// Wraps what has been written into a frame: the key at the width of the
    /// container, the least length exponent that holds the payload's length,
    /// the length in that many bytes, and the payload.
    pub fn into_packet(self, key: &[u8], keylen: u8) -> (data: Vec<u8>)
        ensures
            data@ == frame(key@, keylen as nat, self@),
    {
        let width = keylen as usize;
        let mut data: Vec<u8> = Vec::new();
        if key.len() >= width {
            append_bytes(&mut data, slice_subrange(key, key.len() - width, key.len()));
        } else {
            let missing = width - key.len();
            let mut i: usize = 0;
            while i < missing
                invariant
                    i <= missing,
                    data@ == Seq::new(i as nat, |k: int| 0u8),
                decreases missing - i,
            {
                data.push(0u8);
                i = i + 1;
                assert(data@ =~= Seq::new(i as nat, |k: int| 0u8));
            }
            append_bytes(&mut data, key);
        }
        assert(data@ =~= fit_key(key@, keylen as nat));

        let len = self.inner.len();
        let mut tmp: usize = len;
        let mut exp: u8 = 0;
        proof {
            lemma_min_exponent_at_most_8(len as nat);
        }
        while tmp > 0
            invariant
                exp + min_exponent(tmp as nat) == min_exponent(len as nat),
                min_exponent(len as nat) <= 8,
            decreases tmp,
        {
            tmp = tmp / 256;
            exp = exp + 1;
        }
        let plen = be_vec(len as u64, exp);
        data.push(exp);
        append_bytes(&mut data, plen.as_slice());
        append_bytes(&mut data, self.inner.as_slice());
        data
    }
}

} // verus!

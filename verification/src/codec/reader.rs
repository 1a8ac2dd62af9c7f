//! A cursor over an immutable byte buffer.

use crate::bytes::{
    be_value, lemma_pow256_monotonic, lemma_pow256_values, pow256, signed16, signed32, signed64,
    signed8,
};
use crate::text::{lossy_string, text_of};
use vstd::prelude::*;
use vstd::slice::*;

verus! {

/// A read position in a borrowed buffer. The position is free to run past
/// the end; every operation that touches bytes asks for them to be there.
pub struct Reader<'a> {
    inner: &'a [u8],
    pos: usize,
}

impl<'a> Reader<'a> {
    /// The whole buffer, whatever the position.
    pub closed spec fn bytes(&self) -> Seq<u8> {
        self.inner@
    }

    /// The current position.
    pub closed spec fn spec_pos(&self) -> usize {
        self.pos
    }

    /// Whether `n` more bytes can be read from the current position.
    pub open spec fn has(&self, n: int) -> bool {
        0 <= n && self.spec_pos() + n <= self.bytes().len()
    }

    /// The next `n` bytes.
    pub open spec fn ahead(&self, n: int) -> Seq<u8> {
        self.rest().take(n)
    }

    /// Everything from the current position to the end.
    pub open spec fn rest(&self) -> Seq<u8> {
        self.bytes().subrange(self.spec_pos() as int, self.bytes().len() as int)
    }

    /// `other` reads the same buffer from position `pos`.
    pub open spec fn moved_to(&self, other: &Reader<'a>, pos: int) -> bool {
        other.bytes() == self.bytes() && other.spec_pos() == pos
    }

    /// `other` reads the same buffer from `n` bytes further on, so that
    /// what is left to it is what is left here less its first `n` bytes.
    pub open spec fn stepped(&self, other: &Reader<'a>, n: int) -> bool {
        &&& self.moved_to(other, self.spec_pos() + n)
        &&& other.rest() == self.rest().skip(n)
    }

    /// Moving on by `n` bytes that are there drops them from what is left.
    pub proof fn lemma_step(&self, other: &Reader<'a>, n: int)
        requires
            self.has(n),
            self.moved_to(other, self.spec_pos() + n),
        ensures
            self.stepped(other, n),
    {
        assert(other.rest() =~= self.rest().skip(n));
    }

    /// A buffer is never longer than `usize` can count.
    pub proof fn lemma_len_fits(&self)
        ensures
            self.bytes().len() <= usize::MAX,
    {
        axiom_spec_len(self.inner);
    }

    pub fn new(inner: &'a [u8]) -> (r: Self)
        ensures
            r.bytes() == inner@,
            r.spec_pos() == 0,
    {
        Self { inner, pos: 0 }
    }

    /// The number spelled by the next `width` bytes, most significant first.
    fn peek_be(&self, width: usize) -> (v: u64)
        requires
            width <= 8,
            self.has(width as int),
        ensures
            v == be_value(self.ahead(width as int)),
            v < pow256(width as nat),
    {
        let mut v: u64 = 0;
        let mut i: usize = 0;
        proof {
            assert(self.ahead(0) =~= Seq::<u8>::empty());
        }
        while i < width
            invariant
                i <= width <= 8,
                self.has(width as int),
                v == be_value(self.ahead(i as int)),
                v < pow256(i as nat),
            decreases width - i,
        {
            proof {
                self.lemma_len_fits();
            }
            let b = self.inner[self.pos + i];
            proof {
                let next = self.ahead(i + 1);
                assert(next.drop_last() =~= self.ahead(i as int));
                assert(next.last() == b);
                assert(self.rest()[i as int] == b);
                lemma_pow256_monotonic(i as nat, 7);
                lemma_pow256_values();
            }
            v = v * 256 + b as u64;
            i = i + 1;
        }
        v
    }

    /// Reads the number spelled by the next `width` bytes.
    pub(crate) fn read_be(&mut self, width: usize) -> (v: u64)
        requires
            width <= 8,
            old(self).has(width as int),
        ensures
            v == be_value(old(self).ahead(width as int)),
            old(self).stepped(final(self), width as int),
    {
        let data = self.peek_be(width);
        proof {
            self.lemma_len_fits();
        }
        let ghost before = *self;
        self.pos += width;
        proof {
            before.lemma_step(self, width as int);
        }
        data
    }

    pub fn peek_u8(&self) -> (v: u8)
        requires
            self.has(1),
        ensures
            v == self.rest()[0],
            v == be_value(self.ahead(1)),
    {
        proof {
            let one = self.ahead(1);
            assert(one.drop_last() =~= Seq::<u8>::empty());
            assert(be_value(one.drop_last()) == 0);
        }
        self.inner[self.pos]
    }

    pub fn peek_u16(&self) -> (v: u16)
        requires
            self.has(2),
        ensures
            v == be_value(self.ahead(2)),
    {
        let v = self.peek_be(2);
        proof {
            lemma_pow256_values();
        }
        v as u16
    }

    pub fn peek_u32(&self) -> (v: u32)
        requires
            self.has(4),
        ensures
            v == be_value(self.ahead(4)),
    {
        let v = self.peek_be(4);
        proof {
            lemma_pow256_values();
        }
        v as u32
    }

    pub fn peek_u64(&self) -> (v: u64)
        requires
            self.has(8),
        ensures
            v == be_value(self.ahead(8)),
    {
        self.peek_be(8)
    }

    pub fn peek_i8(&self) -> (v: i8)
        requires
            self.has(1),
        ensures
            v == signed8(self.rest()[0] as nat),
    {
        let u = self.peek_u8();
        assert(u as i8 == if u < 0x80 { u as int } else { u - 0x100 }) by (bit_vector);
        u as i8
    }

    pub fn peek_i16(&self) -> (v: i16)
        requires
            self.has(2),
        ensures
            v == signed16(be_value(self.ahead(2))),
    {
        let u = self.peek_u16();
        assert(u as i16 == if u < 0x8000 { u as int } else { u - 0x1_0000 }) by (bit_vector);
        u as i16
    }

    pub fn peek_i32(&self) -> (v: i32)
        requires
            self.has(4),
        ensures
            v == signed32(be_value(self.ahead(4))),
    {
        let u = self.peek_u32();
        assert(u as i32 == if u < 0x8000_0000 { u as int } else { u - 0x1_0000_0000 }) by (bit_vector);
        u as i32
    }

    pub fn peek_i64(&self) -> (v: i64)
        requires
            self.has(8),
        ensures
            v == signed64(be_value(self.ahead(8))),
    {
        let u = self.peek_u64();
        assert(u as i64 == if u < 0x8000_0000_0000_0000 { u as int } else { u - 0x1_0000_0000_0000_0000 }) by (bit_vector);
        u as i64
    }

    /// Peeks `len` bytes starting from the current position.
    pub fn peek_len(&self, len: usize) -> (data: &'a [u8])
        requires
            self.has(len as int),
        ensures
            data@ == self.ahead(len as int),
    {
        proof {
            self.lemma_len_fits();
            assert(self.bytes().subrange(self.spec_pos() as int, self.spec_pos() + len)
                =~= self.ahead(len as int));
        }
        slice_subrange(self.inner, self.pos, self.pos + len)
    }

    /// Peeks `len` bytes starting from the current position, and returns
    /// the bytes in reversed order.
    pub fn peek_len_rev(&self, len: usize) -> (data: Vec<u8>)
        requires
            self.has(len as int),
        ensures
            data@ == self.ahead(len as int).reverse(),
    {
        let mut out: Vec<u8> = Vec::new();
        let mut i: usize = len;
        while i > 0
            invariant
                i <= len,
                self.has(len as int),
                out@.len() == len - i,
                forall|k: int| 0 <= k < out@.len() ==> out@[k] == self.rest()[len - 1 - k],
            decreases i,
        {
            proof {
                self.lemma_len_fits();
            }
            i = i - 1;
            out.push(self.inner[self.pos + i]);
        }
        proof {
            assert(out@ =~= self.ahead(len as int).reverse());
        }
        out
    }

    pub fn read_u8(&mut self) -> (v: u8)
        requires
            old(self).has(1),
        ensures
            v == old(self).rest()[0],
            v == be_value(old(self).ahead(1)),
            old(self).stepped(final(self), 1),
    {
        let data = self.peek_u8();
        proof {
            self.lemma_len_fits();
        }
        let ghost before = *self;
        self.pos += 1;
        proof {
            before.lemma_step(self, 1);
        }
        data
    }

    pub fn read_u16(&mut self) -> (v: u16)
        requires
            old(self).has(2),
        ensures
            v == be_value(old(self).ahead(2)),
            old(self).stepped(final(self), 2),
    {
        let data = self.peek_u16();
        proof {
            self.lemma_len_fits();
        }
        let ghost before = *self;
        self.pos += 2;
        proof {
            before.lemma_step(self, 2);
        }
        data
    }

    pub fn read_u32(&mut self) -> (v: u32)
        requires
            old(self).has(4),
        ensures
            v == be_value(old(self).ahead(4)),
            old(self).stepped(final(self), 4),
    {
        let data = self.peek_u32();
        proof {
            self.lemma_len_fits();
        }
        let ghost before = *self;
        self.pos += 4;
        proof {
            before.lemma_step(self, 4);
        }
        data
    }

    pub fn read_u64(&mut self) -> (v: u64)
        requires
            old(self).has(8),
        ensures
            v == be_value(old(self).ahead(8)),
            old(self).stepped(final(self), 8),
    {
        let data = self.peek_u64();
        proof {
            self.lemma_len_fits();
        }
        let ghost before = *self;
        self.pos += 8;
        proof {
            before.lemma_step(self, 8);
        }
        data
    }

    pub fn read_i8(&mut self) -> (v: i8)
        requires
            old(self).has(1),
        ensures
            v == signed8(old(self).rest()[0] as nat),
            old(self).stepped(final(self), 1),
    {
        let data = self.peek_i8();
        proof {
            self.lemma_len_fits();
        }
        let ghost before = *self;
        self.pos += 1;
        proof {
            before.lemma_step(self, 1);
        }
        data
    }

    pub fn read_i16(&mut self) -> (v: i16)
        requires
            old(self).has(2),
        ensures
            v == signed16(be_value(old(self).ahead(2))),
            old(self).stepped(final(self), 2),
    {
        let data = self.peek_i16();
        proof {
            self.lemma_len_fits();
        }
        let ghost before = *self;
        self.pos += 2;
        proof {
            before.lemma_step(self, 2);
        }
        data
    }

    pub fn read_i32(&mut self) -> (v: i32)
        requires
            old(self).has(4),
        ensures
            v == signed32(be_value(old(self).ahead(4))),
            old(self).stepped(final(self), 4),
    {
        let data = self.peek_i32();
        proof {
            self.lemma_len_fits();
        }
        let ghost before = *self;
        self.pos += 4;
        proof {
            before.lemma_step(self, 4);
        }
        data
    }

    pub fn read_i64(&mut self) -> (v: i64)
        requires
            old(self).has(8),
        ensures
            v == signed64(be_value(old(self).ahead(8))),
            old(self).stepped(final(self), 8),
    {
        let data = self.peek_i64();
        proof {
            self.lemma_len_fits();
        }
        let ghost before = *self;
        self.pos += 8;
        proof {
            before.lemma_step(self, 8);
        }
        data
    }

    /// A flag byte: anything but zero is `true`.
    pub fn read_bool(&mut self) -> (v: bool)
        requires
            old(self).has(1),
        ensures
            v == (old(self).rest()[0] > 0),
            old(self).stepped(final(self), 1),
    {
        self.read_u8() > 0
    }

    pub fn read_len(&mut self, len: usize) -> (data: &'a [u8])
        requires
            old(self).has(len as int),
        ensures
            data@ == old(self).ahead(len as int),
            old(self).stepped(final(self), len as int),
    {
        let data = self.peek_len(len);
        proof {
            self.lemma_len_fits();
        }
        let ghost before = *self;
        self.pos += len;
        proof {
            before.lemma_step(self, len as int);
        }
        data
    }

    /// The next `len` bytes as text.
    pub fn read_string(&mut self, len: usize) -> (text: String)
        requires
            old(self).has(len as int),
        ensures
            text@ == text_of(old(self).ahead(len as int)),
            old(self).stepped(final(self), len as int),
    {
        lossy_string(self.read_len(len))
    }

    pub fn read_remaining(&mut self) -> (data: &'a [u8])
        requires
            old(self).has(0),
        ensures
            data@ == old(self).rest(),
            old(self).moved_to(final(self), old(self).bytes().len() as int),
            final(self).rest() == Seq::<u8>::empty(),
    {
        let data = slice_subrange(self.inner, self.pos, self.inner.len());
        self.pos = self.inner.len();
        assert(self.rest() =~= Seq::<u8>::empty());
        data
    }

    /// Whether `len` more bytes can be read from the current position.
    pub fn can_read(&self, len: usize) -> (yes: bool)
        ensures
            yes == self.has(len as int),
    {
        self.pos <= self.inner.len() && len <= self.inner.len() - self.pos
    }

    /// `peek_u8` where the bytes are there, `None` where they are not.
    pub fn try_peek_u8(&self) -> (v: Option<u8>)
        ensures
            v is Some <==> self.has(1),
            v is Some ==> v->0 == self.rest()[0],
    {
        if self.can_read(1) {
            Some(self.peek_u8())
        } else {
            None
        }
    }

    /// `peek_u16` where the bytes are there, `None` where they are not.
    pub fn try_peek_u16(&self) -> (v: Option<u16>)
        ensures
            v is Some <==> self.has(2),
            v is Some ==> v->0 == be_value(self.ahead(2)),
    {
        if self.can_read(2) {
            Some(self.peek_u16())
        } else {
            None
        }
    }

    /// `peek_u32` where the bytes are there, `None` where they are not.
    pub fn try_peek_u32(&self) -> (v: Option<u32>)
        ensures
            v is Some <==> self.has(4),
            v is Some ==> v->0 == be_value(self.ahead(4)),
    {
        if self.can_read(4) {
            Some(self.peek_u32())
        } else {
            None
        }
    }

    /// `peek_u64` where the bytes are there, `None` where they are not.
    pub fn try_peek_u64(&self) -> (v: Option<u64>)
        ensures
            v is Some <==> self.has(8),
            v is Some ==> v->0 == be_value(self.ahead(8)),
    {
        if self.can_read(8) {
            Some(self.peek_u64())
        } else {
            None
        }
    }

    /// `peek_i8` where the bytes are there, `None` where they are not.
    pub fn try_peek_i8(&self) -> (v: Option<i8>)
        ensures
            v is Some <==> self.has(1),
            v is Some ==> v->0 == signed8(self.rest()[0] as nat),
    {
        if self.can_read(1) {
            Some(self.peek_i8())
        } else {
            None
        }
    }

    /// `peek_i16` where the bytes are there, `None` where they are not.
    pub fn try_peek_i16(&self) -> (v: Option<i16>)
        ensures
            v is Some <==> self.has(2),
            v is Some ==> v->0 == signed16(be_value(self.ahead(2))),
    {
        if self.can_read(2) {
            Some(self.peek_i16())
        } else {
            None
        }
    }

    /// `peek_i32` where the bytes are there, `None` where they are not.
    pub fn try_peek_i32(&self) -> (v: Option<i32>)
        ensures
            v is Some <==> self.has(4),
            v is Some ==> v->0 == signed32(be_value(self.ahead(4))),
    {
        if self.can_read(4) {
            Some(self.peek_i32())
        } else {
            None
        }
    }

    /// `peek_i64` where the bytes are there, `None` where they are not.
    pub fn try_peek_i64(&self) -> (v: Option<i64>)
        ensures
            v is Some <==> self.has(8),
            v is Some ==> v->0 == signed64(be_value(self.ahead(8))),
    {
        if self.can_read(8) {
            Some(self.peek_i64())
        } else {
            None
        }
    }

    /// `peek_len` where the bytes are there, `None` where they are not.
    pub fn try_peek_len(&self, len: usize) -> (data: Option<&'a [u8]>)
        ensures
            data is Some <==> self.has(len as int),
            data is Some ==> data->0@ == self.ahead(len as int),
    {
        if self.can_read(len) {
            Some(self.peek_len(len))
        } else {
            None
        }
    }

    /// `peek_len_rev` where the bytes are there, `None` where they are not.
    pub fn try_peek_len_rev(&self, len: usize) -> (data: Option<Vec<u8>>)
        ensures
            data is Some <==> self.has(len as int),
            data is Some ==> data->0@ == self.ahead(len as int).reverse(),
    {
        if self.can_read(len) {
            Some(self.peek_len_rev(len))
        } else {
            None
        }
    }

    /// `read_u8` where the bytes are there; where they are not, `None`, and
    /// the reader stays as it is.
    pub fn try_read_u8(&mut self) -> (v: Option<u8>)
        ensures
            v is Some <==> old(self).has(1),
            v is Some ==> v->0 == old(self).rest()[0] && old(self).stepped(final(self), 1),
            v is None ==> *final(self) == *old(self),
    {
        if self.can_read(1) {
            Some(self.read_u8())
        } else {
            None
        }
    }

    /// `read_u16` where the bytes are there; where they are not, `None`, and
    /// the reader stays as it is.
    pub fn try_read_u16(&mut self) -> (v: Option<u16>)
        ensures
            v is Some <==> old(self).has(2),
            v is Some ==> v->0 == be_value(old(self).ahead(2)) && old(self).stepped(final(self), 2),
            v is None ==> *final(self) == *old(self),
    {
        if self.can_read(2) {
            Some(self.read_u16())
        } else {
            None
        }
    }

    /// `read_u32` where the bytes are there; where they are not, `None`, and
    /// the reader stays as it is.
    pub fn try_read_u32(&mut self) -> (v: Option<u32>)
        ensures
            v is Some <==> old(self).has(4),
            v is Some ==> v->0 == be_value(old(self).ahead(4)) && old(self).stepped(final(self), 4),
            v is None ==> *final(self) == *old(self),
    {
        if self.can_read(4) {
            Some(self.read_u32())
        } else {
            None
        }
    }

    /// `read_u64` where the bytes are there; where they are not, `None`, and
    /// the reader stays as it is.
    pub fn try_read_u64(&mut self) -> (v: Option<u64>)
        ensures
            v is Some <==> old(self).has(8),
            v is Some ==> v->0 == be_value(old(self).ahead(8)) && old(self).stepped(final(self), 8),
            v is None ==> *final(self) == *old(self),
    {
        if self.can_read(8) {
            Some(self.read_u64())
        } else {
            None
        }
    }

    /// `read_i8` where the bytes are there; where they are not, `None`, and
    /// the reader stays as it is.
    pub fn try_read_i8(&mut self) -> (v: Option<i8>)
        ensures
            v is Some <==> old(self).has(1),
            v is Some ==> v->0 == signed8(old(self).rest()[0] as nat) && old(self).stepped(final(self), 1),
            v is None ==> *final(self) == *old(self),
    {
        if self.can_read(1) {
            Some(self.read_i8())
        } else {
            None
        }
    }

    /// `read_i16` where the bytes are there; where they are not, `None`, and
    /// the reader stays as it is.
    pub fn try_read_i16(&mut self) -> (v: Option<i16>)
        ensures
            v is Some <==> old(self).has(2),
            v is Some ==> v->0 == signed16(be_value(old(self).ahead(2))) && old(self).stepped(final(self), 2),
            v is None ==> *final(self) == *old(self),
    {
        if self.can_read(2) {
            Some(self.read_i16())
        } else {
            None
        }
    }

    /// `read_i32` where the bytes are there; where they are not, `None`, and
    /// the reader stays as it is.
    pub fn try_read_i32(&mut self) -> (v: Option<i32>)
        ensures
            v is Some <==> old(self).has(4),
            v is Some ==> v->0 == signed32(be_value(old(self).ahead(4))) && old(self).stepped(final(self), 4),
            v is None ==> *final(self) == *old(self),
    {
        if self.can_read(4) {
            Some(self.read_i32())
        } else {
            None
        }
    }

    /// `read_i64` where the bytes are there; where they are not, `None`, and
    /// the reader stays as it is.
    pub fn try_read_i64(&mut self) -> (v: Option<i64>)
        ensures
            v is Some <==> old(self).has(8),
            v is Some ==> v->0 == signed64(be_value(old(self).ahead(8))) && old(self).stepped(final(self), 8),
            v is None ==> *final(self) == *old(self),
    {
        if self.can_read(8) {
            Some(self.read_i64())
        } else {
            None
        }
    }

    /// `read_bool` where the byte is there; where it is not, `None`, and the
    /// reader stays as it is.
    pub fn try_read_bool(&mut self) -> (v: Option<bool>)
        ensures
            v is Some <==> old(self).has(1),
            v is Some ==> v->0 == (old(self).rest()[0] > 0) && old(self).stepped(final(self), 1),
            v is None ==> *final(self) == *old(self),
    {
        if self.can_read(1) {
            Some(self.read_bool())
        } else {
            None
        }
    }

    /// `read_len` where the bytes are there; where they are not, `None`, and
    /// the reader stays as it is.
    pub fn try_read_len(&mut self, len: usize) -> (data: Option<&'a [u8]>)
        ensures
            data is Some <==> old(self).has(len as int),
            data is Some ==> data->0@ == old(self).ahead(len as int) && old(self).stepped(
                final(self),
                len as int,
            ),
            data is None ==> *final(self) == *old(self),
    {
        if self.can_read(len) {
            Some(self.read_len(len))
        } else {
            None
        }
    }

    /// `read_string` where the bytes are there; where they are not, `None`,
    /// and the reader stays as it is.
    pub fn try_read_string(&mut self, len: usize) -> (text: Option<String>)
        ensures
            text is Some <==> old(self).has(len as int),
            text is Some ==> text->0@ == text_of(old(self).ahead(len as int)) && old(self).stepped(
                final(self),
                len as int,
            ),
            text is None ==> *final(self) == *old(self),
    {
        if self.can_read(len) {
            Some(self.read_string(len))
        } else {
            None
        }
    }

    /// `read_remaining` where the position is inside the buffer; where it is
    /// not, `None`, and the reader stays as it is.
    pub fn try_read_remaining(&mut self) -> (data: Option<&'a [u8]>)
        ensures
            data is Some <==> old(self).has(0),
            data is Some ==> data->0@ == old(self).rest() && old(self).moved_to(
                final(self),
                old(self).bytes().len() as int,
            ),
            data is None ==> *final(self) == *old(self),
    {
        if self.can_read(0) {
            Some(self.read_remaining())
        } else {
            None
        }
    }

    /// Copies entire buffer into a Vec regardless of current position.
    ///
    /// Use [`Self::read_remaining`] if only the remaining data is needed.
    pub fn to_vec(&self) -> (data: Vec<u8>)
        ensures
            data@ == self.bytes(),
    {
        slice_to_vec(self.inner)
    }

    pub fn advance(&mut self, count: usize)
        requires
            old(self).spec_pos() + count <= usize::MAX,
        ensures
            old(self).moved_to(final(self), old(self).spec_pos() + count),
    {
        self.pos += count;
    }

    pub fn rewind(&mut self, count: usize)
        requires
            count <= old(self).spec_pos(),
        ensures
            old(self).moved_to(final(self), old(self).spec_pos() - count),
    {
        self.pos -= count;
    }

    pub fn remaining(&self) -> (n: usize)
        requires
            self.has(0),
        ensures
            n == self.bytes().len() - self.spec_pos(),
            n == self.rest().len(),
    {
        self.inner.len() - self.pos
    }

    #[verifier::when_used_as_spec(spec_pos)]
    pub fn pos(&self) -> (pos: usize)
        ensures
            pos == self.spec_pos(),
    {
        self.pos
    }

    pub fn set_pos(&mut self, pos: usize)
        ensures
            old(self).moved_to(final(self), pos as int),
    {
        self.pos = pos;
    }
}

} // verus!

//! A read cursor over a byte buffer: an offset into a borrowed slice, with
//! bounds-checked peeks, reads that advance, and 4-byte aligned skips.

use vstd::prelude::*;
use crate::bytes::{le16_at, le32_at, read_u16_ne, read_u32_ne};

verus! {

/// `n` rounded up to a multiple of four.
pub open spec fn align4(n: int) -> int {
    (n + 3) / 4 * 4
}

/// How far a cursor over `s` moves past an item of `len` bytes: the
/// aligned length, but never past the end of `s`.
pub open spec fn step_len(s: Seq<u8>, len: int) -> int {
    if align4(len) < s.len() {
        align4(len)
    } else {
        s.len() as int
    }
}

/// The unread part of a buffer.
pub struct BufCursor<'a> {
    buf: &'a [u8],
    pos: usize,
}

impl<'a> View for BufCursor<'a> {
    type V = Seq<u8>;

    /// The bytes not yet read.
    closed spec fn view(&self) -> Seq<u8> {
        self.buf@.skip(self.pos as int)
    }
}

impl<'a> BufCursor<'a> {
    #[verifier::type_invariant]
    spec fn inv(&self) -> bool {
        self.pos <= self.buf@.len()
    }

    /// A cursor at the start of `buf`.
    pub fn new(buf: &'a [u8]) -> (r: Self)
        ensures
            r@ == buf@,
    {
        let r = BufCursor { buf, pos: 0 };
        assert(buf@.skip(0) =~= buf@);
        r
    }

    /// Number of bytes not yet read.
    pub fn rem_len(&self) -> (r: usize)
        ensures
            r == self@.len(),
    {
        proof {
            use_type_invariant(&*self);
            assert(self@.len() == self.buf@.len() - self.pos);
        }
        self.buf.len() - self.pos
    }

    /// The bytes not yet read.
    pub fn remaining(&self) -> (r: &'a [u8])
        ensures
            r@ == self@,
    {
        proof {
            use_type_invariant(&*self);
            assert(self@.len() == self.buf@.len() - self.pos);
        }
        let r = vstd::slice::slice_subrange(self.buf, self.pos, self.buf.len());
        assert(r@ =~= self@);
        r
    }

    /// The native-order `u16` at offset `at` of the unread bytes.
    pub fn peek_u16(&self, at: usize) -> (r: u16)
        requires
            at + 2 <= self@.len(),
        ensures
            r == le16_at(self@, at as int),
    {
        proof {
            use_type_invariant(&*self);
            assert(self@.len() == self.buf@.len() - self.pos);
        }
        let end = self.buf.len();
        assert(self.pos + at + 2 <= end);
        let r = read_u16_ne(self.buf, self.pos + at);
        assert(self@[at as int] == self.buf@[self.pos + at]);
        assert(self@[at + 1] == self.buf@[self.pos + at + 1]);
        r
    }

    /// The native-order `u32` at offset `at` of the unread bytes.
    pub fn peek_u32(&self, at: usize) -> (r: u32)
        requires
            at + 4 <= self@.len(),
        ensures
            r == le32_at(self@, at as int),
    {
        proof {
            use_type_invariant(&*self);
            assert(self@.len() == self.buf@.len() - self.pos);
        }
        let end = self.buf.len();
        assert(self.pos + at + 4 <= end);
        let r = read_u32_ne(self.buf, self.pos + at);
        assert(self@[at as int] == self.buf@[self.pos + at]);
        assert(self@[at + 1] == self.buf@[self.pos + at + 1]);
        assert(self@[at + 2] == self.buf@[self.pos + at + 2]);
        assert(self@[at + 3] == self.buf@[self.pos + at + 3]);
        r
    }

    /// Takes the next `n` bytes and moves past them and their padding to
    /// the next multiple of four, stopping at the end of the buffer.
    pub fn consume_bytes(&mut self, n: usize) -> (r: &'a [u8])
        requires
            n <= old(self)@.len(),
        ensures
            r@ == old(self)@.subrange(0, n as int),
            final(self)@ == old(self)@.skip(step_len(old(self)@, n as int)),
    {
        proof {
            use_type_invariant(&*self);
            assert(self@.len() == self.buf@.len() - self.pos);
        }
        let ghost before = self@;
        let rem = self.buf.len() - self.pos;
        let r = vstd::slice::slice_subrange(self.buf, self.pos, self.pos + n);
        assert(r@ =~= before.subrange(0, n as int));
        let x: u128 = n as u128 + 3;
        let a: u128 = x & !3u128;
        assert(x & !3u128 == x - x % 4) by (bit_vector);
        let step = if a < rem as u128 {
            a as usize
        } else {
            rem
        };
        self.pos = self.pos + step;
        assert(self@ =~= before.skip(step as int));
        r
    }
}

} // verus!

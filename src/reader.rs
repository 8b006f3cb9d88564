use vstd::prelude::*;

use solana_program_error::ProgramError;

use crate::error::decode_error;
use crate::le::in_bounds;
use crate::traits::{PeekIntoBytes, ReadBytes};
use crate::utils::{
    bool_at, i16_at, i32_at, i64_at, i8_at, read_bool_slice, read_bytes_slice, read_i16_slice,
    read_i32_slice, read_i64_slice, read_i8_slice, read_u16_slice, read_u32_slice, read_u64_slice,
    read_u8_slice, u16_at, u32_at, u64_at, u8_at,
};

verus! {

/// A cursor over a borrowed byte buffer: the buffer and the position of the
/// next read.
#[derive(Debug, Clone, Copy)]
pub struct Reader<'a> {
    bytes: &'a [u8],
    offset: usize,
}

impl<'a> Reader<'a> {
    /// The bytes the cursor reads from.
    pub closed spec fn data(&self) -> Seq<u8> {
        self.bytes@
    }

    /// The position of the next read.
    pub closed spec fn pos(&self) -> int {
        self.offset as int
    }

    /// A cursor always stands over a buffer that is not empty.
    pub open spec fn wf(&self) -> bool {
        self.data().len() > 0
    }

    /// The position after a read of `w` bytes that gave `ok`: moved on by `w`
    /// on success, left where it was on failure.
    pub open spec fn pos_after(&self, ok: bool, w: int) -> int {
        if ok {
            self.pos() + w
        } else {
            self.pos()
        }
    }

    /// A cursor at the start of `bytes`, which must not be empty.
    pub fn new(bytes: &'a [u8]) -> (r: Self)
        requires
            bytes@.len() > 0,
        ensures
            r.wf(),
            r.data() == bytes@,
            r.pos() == 0,
    {
        Self { bytes, offset: 0 }
    }

    /// A cursor at `offset` in `bytes`, which must lie inside the buffer.
    pub fn new_with_offset(bytes: &'a [u8], offset: usize) -> (r: Self)
        requires
            offset < bytes@.len(),
        ensures
            r.wf(),
            r.data() == bytes@,
            r.pos() == offset,
    {
        Self { bytes, offset }
    }

    /// The whole buffer, read or not.
    pub fn bytes(&self) -> (r: &'a [u8])
        ensures
            r@ == self.data(),
    {
        self.bytes
    }

    /// The position of the next read.
    pub fn offset(&self) -> (r: usize)
        ensures
            r == self.pos(),
    {
        self.offset
    }

    /// The number of bytes from the position to the end, 0 once past it.
    pub fn remaining(&self) -> (r: usize)
        ensures
            r == if self.pos() <= self.data().len() {
                self.data().len() - self.pos()
            } else {
                0
            },
    {
        let n: usize = self.bytes.len();
        if self.offset <= n {
            n - self.offset
        } else {
            0
        }
    }

    /// Moves the cursor to `new_offset`, which must lie inside the buffer.
    pub fn set_offset(&mut self, new_offset: usize)
        requires
            new_offset < old(self).data().len(),
        ensures
            final(self).data() == old(self).data(),
            final(self).pos() == new_offset,
    {
        self.offset = new_offset;
    }

    /// Commits a successful read of `w` bytes.
    fn advance(&mut self, w: usize)
        requires
            in_bounds(old(self).data(), old(self).pos(), w as int),
        ensures
            final(self).data() == old(self).data(),
            final(self).pos() == old(self).pos() + w,
    {
        let n: usize = self.bytes.len();
        self.offset = self.offset + w;
    }
}

impl<'a> ReadBytes for Reader<'a> {
    type Error = ProgramError;

    open spec fn can_skip(&self, n: usize) -> bool {
        self.pos() + n <= usize::MAX
    }

    fn read_u64(&mut self) -> (r: Result<u64, ProgramError>)
        ensures
            final(self).data() == old(self).data(),
            r == u64_at(old(self).data(), old(self).pos()),
            final(self).pos() == old(self).pos_after(r is Ok, 8),
    {
        let r = read_u64_slice(self.bytes, self.offset);
        if r.is_ok() {
            self.advance(8);
        }
        r
    }

    fn read_i64(&mut self) -> (r: Result<i64, ProgramError>)
        ensures
            final(self).data() == old(self).data(),
            r == i64_at(old(self).data(), old(self).pos()),
            final(self).pos() == old(self).pos_after(r is Ok, 8),
    {
        let r = read_i64_slice(self.bytes, self.offset);
        if r.is_ok() {
            self.advance(8);
        }
        r
    }

    fn read_u32(&mut self) -> (r: Result<u32, ProgramError>)
        ensures
            final(self).data() == old(self).data(),
            r == u32_at(old(self).data(), old(self).pos()),
            final(self).pos() == old(self).pos_after(r is Ok, 4),
    {
        let r = read_u32_slice(self.bytes, self.offset);
        if r.is_ok() {
            self.advance(4);
        }
        r
    }

    fn read_i32(&mut self) -> (r: Result<i32, ProgramError>)
        ensures
            final(self).data() == old(self).data(),
            r == i32_at(old(self).data(), old(self).pos()),
            final(self).pos() == old(self).pos_after(r is Ok, 4),
    {
        let r = read_i32_slice(self.bytes, self.offset);
        if r.is_ok() {
            self.advance(4);
        }
        r
    }

    fn read_u16(&mut self) -> (r: Result<u16, ProgramError>)
        ensures
            final(self).data() == old(self).data(),
            r == u16_at(old(self).data(), old(self).pos()),
            final(self).pos() == old(self).pos_after(r is Ok, 2),
    {
        let r = read_u16_slice(self.bytes, self.offset);
        if r.is_ok() {
            self.advance(2);
        }
        r
    }

    fn read_i16(&mut self) -> (r: Result<i16, ProgramError>)
        ensures
            final(self).data() == old(self).data(),
            r == i16_at(old(self).data(), old(self).pos()),
            final(self).pos() == old(self).pos_after(r is Ok, 2),
    {
        let r = read_i16_slice(self.bytes, self.offset);
        if r.is_ok() {
            self.advance(2);
        }
        r
    }

    fn read_bool(&mut self) -> (r: Result<bool, ProgramError>)
        ensures
            final(self).data() == old(self).data(),
            r == bool_at(old(self).data(), old(self).pos()),
            final(self).pos() == old(self).pos_after(r is Ok, 1),
    {
        let r = read_bool_slice(self.bytes, self.offset);
        if r.is_ok() {
            self.advance(1);
        }
        r
    }

    fn read_u8(&mut self) -> (r: Result<u8, ProgramError>)
        ensures
            final(self).data() == old(self).data(),
            r == u8_at(old(self).data(), old(self).pos()),
            final(self).pos() == old(self).pos_after(r is Ok, 1),
    {
        let r = read_u8_slice(self.bytes, self.offset);
        if r.is_ok() {
            self.advance(1);
        }
        r
    }

    fn read_i8(&mut self) -> (r: Result<i8, ProgramError>)
        ensures
            final(self).data() == old(self).data(),
            r == i8_at(old(self).data(), old(self).pos()),
            final(self).pos() == old(self).pos_after(r is Ok, 1),
    {
        let r = read_i8_slice(self.bytes, self.offset);
        if r.is_ok() {
            self.advance(1);
        }
        r
    }

    fn read_bytes<const N: usize>(&mut self) -> (r: Result<[u8; N], ProgramError>)
        ensures
            final(self).data() == old(self).data(),
            final(self).pos() == old(self).pos_after(r is Ok, N as int),
            match r {
                Ok(a) => in_bounds(old(self).data(), old(self).pos(), N as int) && a@ == old(
                    self,
                ).data().subrange(old(self).pos(), old(self).pos() + N),
                Err(e) => !in_bounds(old(self).data(), old(self).pos(), N as int) && e
                    == decode_error(),
            },
    {
        let r = read_bytes_slice::<N>(self.bytes, self.offset);
        if r.is_ok() {
            self.advance(N);
        }
        r
    }

    fn skip(&mut self, bytes_to_skip: usize)
        ensures
            final(self).data() == old(self).data(),
            final(self).pos() == old(self).pos() + bytes_to_skip,
    {
        self.offset = self.offset + bytes_to_skip;
    }
}

impl<'a> PeekIntoBytes for Reader<'a> {
    type Error = ProgramError;

    fn peek_u64(&self) -> (r: Result<u64, ProgramError>)
        ensures
            r == u64_at(self.data(), self.pos()),
    {
        read_u64_slice(self.bytes, self.offset)
    }

    fn peek_i64(&self) -> (r: Result<i64, ProgramError>)
        ensures
            r == i64_at(self.data(), self.pos()),
    {
        read_i64_slice(self.bytes, self.offset)
    }

    fn peek_u32(&self) -> (r: Result<u32, ProgramError>)
        ensures
            r == u32_at(self.data(), self.pos()),
    {
        read_u32_slice(self.bytes, self.offset)
    }

    fn peek_i32(&self) -> (r: Result<i32, ProgramError>)
        ensures
            r == i32_at(self.data(), self.pos()),
    {
        read_i32_slice(self.bytes, self.offset)
    }

    fn peek_u16(&self) -> (r: Result<u16, ProgramError>)
        ensures
            r == u16_at(self.data(), self.pos()),
    {
        read_u16_slice(self.bytes, self.offset)
    }

    fn peek_i16(&self) -> (r: Result<i16, ProgramError>)
        ensures
            r == i16_at(self.data(), self.pos()),
    {
        read_i16_slice(self.bytes, self.offset)
    }

    fn peek_bool(&self) -> (r: Result<bool, ProgramError>)
        ensures
            r == bool_at(self.data(), self.pos()),
    {
        read_bool_slice(self.bytes, self.offset)
    }

    fn peek_u8(&self) -> (r: Result<u8, ProgramError>)
        ensures
            r == u8_at(self.data(), self.pos()),
    {
        read_u8_slice(self.bytes, self.offset)
    }

    fn peek_i8(&self) -> (r: Result<i8, ProgramError>)
        ensures
            r == i8_at(self.data(), self.pos()),
    {
        read_i8_slice(self.bytes, self.offset)
    }

    fn peek_bytes<const N: usize>(&self) -> (r: Result<[u8; N], ProgramError>)
        ensures
            match r {
                Ok(a) => in_bounds(self.data(), self.pos(), N as int) && a@ == self.data().subrange(
                    self.pos(),
                    self.pos() + N,
                ),
                Err(e) => !in_bounds(self.data(), self.pos(), N as int) && e == decode_error(),
            },
    {
        read_bytes_slice::<N>(self.bytes, self.offset)
    }
}

} // verus!

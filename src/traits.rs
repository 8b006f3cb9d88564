use vstd::prelude::*;

verus! {

/// Sequential decoding: each read consumes the bytes it decodes.
pub trait ReadBytes {
    type Error;

    /// Whether the position can move `n` bytes on without leaving `usize`.
    spec fn can_skip(&self, n: usize) -> bool;

    /// Reads a little-endian `u64` (8 bytes).
    fn read_u64(&mut self) -> Result<u64, Self::Error>;

    /// Reads a little-endian `i64` (8 bytes).
    fn read_i64(&mut self) -> Result<i64, Self::Error>;

    /// Reads a little-endian `u32` (4 bytes).
    fn read_u32(&mut self) -> Result<u32, Self::Error>;

    /// Reads a little-endian `i32` (4 bytes).
    fn read_i32(&mut self) -> Result<i32, Self::Error>;

    /// Reads a little-endian `u16` (2 bytes).
    fn read_u16(&mut self) -> Result<u16, Self::Error>;

    /// Reads a little-endian `i16` (2 bytes).
    fn read_i16(&mut self) -> Result<i16, Self::Error>;

    /// Reads a boolean byte: 0 is false, 1 is true, any other value is an error.
    fn read_bool(&mut self) -> Result<bool, Self::Error>;

    /// Reads one byte.
    fn read_u8(&mut self) -> Result<u8, Self::Error>;

    /// Reads one byte as two's complement.
    fn read_i8(&mut self) -> Result<i8, Self::Error>;

    /// Reads `N` bytes as they are.
    fn read_bytes<const N: usize>(&mut self) -> Result<[u8; N], Self::Error>;

    /// Moves the position `bytes_to_skip` bytes on, with no bounds check: a read
    /// from past the end fails later.
    fn skip(&mut self, bytes_to_skip: usize)
        requires
            old(self).can_skip(bytes_to_skip),
    ;
}

/// Lookahead: each peek decodes what the matching read would, and consumes
/// nothing.
pub trait PeekIntoBytes {
    type Error;

    /// Peeks at a little-endian `u64` (8 bytes).
    fn peek_u64(&self) -> Result<u64, Self::Error>;

    /// Peeks at a little-endian `i64` (8 bytes).
    fn peek_i64(&self) -> Result<i64, Self::Error>;

    /// Peeks at a little-endian `u32` (4 bytes).
    fn peek_u32(&self) -> Result<u32, Self::Error>;

    /// Peeks at a little-endian `i32` (4 bytes).
    fn peek_i32(&self) -> Result<i32, Self::Error>;

    /// Peeks at a little-endian `u16` (2 bytes).
    fn peek_u16(&self) -> Result<u16, Self::Error>;

    /// Peeks at a little-endian `i16` (2 bytes).
    fn peek_i16(&self) -> Result<i16, Self::Error>;

    /// Peeks at a boolean byte: 0 is false, 1 is true, any other value is an error.
    fn peek_bool(&self) -> Result<bool, Self::Error>;

    /// Peeks at one byte.
    fn peek_u8(&self) -> Result<u8, Self::Error>;

    /// Peeks at one byte as two's complement.
    fn peek_i8(&self) -> Result<i8, Self::Error>;

    /// Peeks at `N` bytes as they are.
    fn peek_bytes<const N: usize>(&self) -> Result<[u8; N], Self::Error>;
}

} // verus!

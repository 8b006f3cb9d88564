use vstd::prelude::*;

use solana_program_error::ProgramError;

use crate::error::decode_error;
use crate::le::{
    from_signed, in_bounds, le_at, le_bytes, le_nat, lemma_signed_round_trip,
    lemma_unsigned_round_trip, lemma_pow256_monotone, lemma_pow256_values, pow256, to_signed,
};

verus! {

/// The outcome of a decode: `v` where the bytes were there to read, else the
/// decode error.
pub open spec fn decoded<T>(present: bool, v: T) -> Result<T, ProgramError> {
    if present {
        Ok(v)
    } else {
        Err(decode_error())
    }
}

/// Decoding a `u64` from the 8 bytes of `s` at `start`.
pub open spec fn u64_at(s: Seq<u8>, start: int) -> Result<u64, ProgramError> {
    decoded(in_bounds(s, start, 8), le_at(s, start, 8) as u64)
}

/// Decoding a `u32` from the 4 bytes of `s` at `start`.
pub open spec fn u32_at(s: Seq<u8>, start: int) -> Result<u32, ProgramError> {
    decoded(in_bounds(s, start, 4), le_at(s, start, 4) as u32)
}

/// Decoding a `u16` from the 2 bytes of `s` at `start`.
pub open spec fn u16_at(s: Seq<u8>, start: int) -> Result<u16, ProgramError> {
    decoded(in_bounds(s, start, 2), le_at(s, start, 2) as u16)
}

/// Decoding a `u8` from the 1 byte of `s` at `start`.
pub open spec fn u8_at(s: Seq<u8>, start: int) -> Result<u8, ProgramError> {
    decoded(in_bounds(s, start, 1), le_at(s, start, 1) as u8)
}

/// Decoding an `i64` from the 8 bytes of `s` at `start`.
pub open spec fn i64_at(s: Seq<u8>, start: int) -> Result<i64, ProgramError> {
    decoded(in_bounds(s, start, 8), to_signed(le_at(s, start, 8), 8) as i64)
}

/// Decoding an `i32` from the 4 bytes of `s` at `start`.
pub open spec fn i32_at(s: Seq<u8>, start: int) -> Result<i32, ProgramError> {
    decoded(in_bounds(s, start, 4), to_signed(le_at(s, start, 4), 4) as i32)
}

/// Decoding an `i16` from the 2 bytes of `s` at `start`.
pub open spec fn i16_at(s: Seq<u8>, start: int) -> Result<i16, ProgramError> {
    decoded(in_bounds(s, start, 2), to_signed(le_at(s, start, 2), 2) as i16)
}

/// Decoding an `i8` from the 1 byte of `s` at `start`.
pub open spec fn i8_at(s: Seq<u8>, start: int) -> Result<i8, ProgramError> {
    decoded(in_bounds(s, start, 1), to_signed(le_at(s, start, 1), 1) as i8)
}

/// Decoding a boolean from the byte of `s` at `start`: 0 is false, 1 is true.
pub open spec fn bool_at(s: Seq<u8>, start: int) -> Result<bool, ProgramError> {
    if in_bounds(s, start, 1) && s[start] == 0 {
        Ok(false)
    } else if in_bounds(s, start, 1) && s[start] == 1 {
        Ok(true)
    } else {
        Err(decode_error())
    }
}

/// Reads `w` little-endian bytes from `start` as an unsigned value.
fn read_le(data: &[u8], start: usize, w: usize) -> (r: u64)
    requires
        w <= 8,
        in_bounds(data@, start as int, w as int),
    ensures
        r as nat == le_at(data@, start as int, w as int),
        (r as nat) < pow256(w as nat),
{
    proof {
        lemma_pow256_values();
    }
    let n: usize = data.len();
    let ghost s = data@;
    let mut v: u64 = 0;
    let mut i: usize = w;
    while i > 0
        invariant
            w <= 8,
            in_bounds(s, start as int, w as int),
            s == data@,
            s.len() == n,
            0 <= i <= w,
            v as nat == le_at(s, start + i, (w - i) as int),
            (v as nat) < pow256((w - i) as nat),
        decreases i,
    {
        let b: u8 = data[start + (i - 1)];
        let ghost tail = s.subrange(start + i, start + w);
        let ghost ext = s.subrange(start + i - 1, start + w);
        assert(ext.drop_first() =~= tail);
        let ghost k: nat = (w - i) as nat;
        proof {
            lemma_pow256_values();
            lemma_pow256_monotone(k + 1, 8);
            assert(pow256(k + 1) == 256 * pow256(k));
            assert((b as nat) + 256 * (v as nat) < 256 * pow256(k)) by (nonlinear_arith)
                requires
                    (b as nat) < 256,
                    (v as nat) < pow256(k),
            ;
            assert((b as nat) + 256 * (v as nat) < 0x1_0000_0000_0000_0000);
        }
        v = (b as u64) + 256 * v;
        i = i - 1;
    }
    v
}

/// Whether `w` bytes from `start` fit in `data`, computed without overflow.
fn fits(data: &[u8], start: usize, w: usize) -> (r: bool)
    ensures
        r == in_bounds(data@, start as int, w as int),
        data@.len() <= usize::MAX,
{
    let n: usize = data.len();
    start <= n && n - start >= w
}

/// The `len` bytes of `data` from `start`, or the decode error where they are
/// not all there.
pub fn read_slice(data: &[u8], start: usize, len: usize) -> (r: Result<&[u8], ProgramError>)
    ensures
        match r {
            Ok(b) => in_bounds(data@, start as int, len as int) && b@ == data@.subrange(
                start as int,
                start + len,
            ),
            Err(e) => !in_bounds(data@, start as int, len as int) && e == decode_error(),
        },
{
    if fits(data, start, len) {
        Ok(vstd::slice::slice_subrange(data, start, start + len))
    } else {
        Err(ProgramError::InvalidInstructionData)
    }
}

/// Decodes a little-endian `u64` from the 8 bytes at `start`.
pub fn read_u64_slice(data: &[u8], start: usize) -> (r: Result<u64, ProgramError>)
    ensures
        r == u64_at(data@, start as int),
{
    if fits(data, start, 8) {
        Ok(read_le(data, start, 8))
    } else {
        Err(ProgramError::InvalidInstructionData)
    }
}

/// Decodes a little-endian two's-complement `i64` from the 8 bytes at `start`.
pub fn read_i64_slice(data: &[u8], start: usize) -> (r: Result<i64, ProgramError>)
    ensures
        r == i64_at(data@, start as int),
{
    if fits(data, start, 8) {
        let u: u64 = read_le(data, start, 8);
        proof {
            lemma_pow256_values();
        }
        if u >= 0x8000_0000_0000_0000 {
            Ok(((u - 0x8000_0000_0000_0000) as i64) - 0x7fff_ffff_ffff_ffff - 1)
        } else {
            Ok(u as i64)
        }
    } else {
        Err(ProgramError::InvalidInstructionData)
    }
}

/// Decodes a little-endian `u32` from the 4 bytes at `start`.
pub fn read_u32_slice(data: &[u8], start: usize) -> (r: Result<u32, ProgramError>)
    ensures
        r == u32_at(data@, start as int),
{
    if fits(data, start, 4) {
        let u: u64 = read_le(data, start, 4);
        proof {
            lemma_pow256_values();
        }
        Ok(u as u32)
    } else {
        Err(ProgramError::InvalidInstructionData)
    }
}

/// Decodes a little-endian two's-complement `i32` from the 4 bytes at `start`.
pub fn read_i32_slice(data: &[u8], start: usize) -> (r: Result<i32, ProgramError>)
    ensures
        r == i32_at(data@, start as int),
{
    if fits(data, start, 4) {
        let u: u64 = read_le(data, start, 4);
        proof {
            lemma_pow256_values();
        }
        if u >= 0x8000_0000 {
            Ok((u as i64 - 0x1_0000_0000) as i32)
        } else {
            Ok(u as i32)
        }
    } else {
        Err(ProgramError::InvalidInstructionData)
    }
}

/// Decodes a little-endian `u16` from the 2 bytes at `start`.
pub fn read_u16_slice(data: &[u8], start: usize) -> (r: Result<u16, ProgramError>)
    ensures
        r == u16_at(data@, start as int),
{
    if fits(data, start, 2) {
        let u: u64 = read_le(data, start, 2);
        proof {
            lemma_pow256_values();
        }
        Ok(u as u16)
    } else {
        Err(ProgramError::InvalidInstructionData)
    }
}

/// Decodes a little-endian two's-complement `i16` from the 2 bytes at `start`.
pub fn read_i16_slice(data: &[u8], start: usize) -> (r: Result<i16, ProgramError>)
    ensures
        r == i16_at(data@, start as int),
{
    if fits(data, start, 2) {
        let u: u64 = read_le(data, start, 2);
        proof {
            lemma_pow256_values();
        }
        if u >= 0x8000 {
            Ok((u as i32 - 0x1_0000) as i16)
        } else {
            Ok(u as i16)
        }
    } else {
        Err(ProgramError::InvalidInstructionData)
    }
}

/// Decodes the byte at `start` as a boolean: 0 is false, 1 is true, and any
/// other value is an error.
pub fn read_bool_slice(data: &[u8], start: usize) -> (r: Result<bool, ProgramError>)
    ensures
        r == bool_at(data@, start as int),
{
    if start < data.len() {
        let b: u8 = data[start];
        if b == 0 {
            Ok(false)
        } else if b == 1 {
            Ok(true)
        } else {
            Err(ProgramError::InvalidInstructionData)
        }
    } else {
        Err(ProgramError::InvalidInstructionData)
    }
}

/// The byte at `start`.
pub fn read_u8_slice(data: &[u8], start: usize) -> (r: Result<u8, ProgramError>)
    ensures
        r == u8_at(data@, start as int),
{
    if start < data.len() {
        proof {
            let s = data@.subrange(start as int, start + 1);
            assert(s.drop_first() =~= Seq::<u8>::empty());
            reveal_with_fuel(le_nat, 2);
        }
        Ok(data[start])
    } else {
        Err(ProgramError::InvalidInstructionData)
    }
}

/// The byte at `start`, read as two's complement.
pub fn read_i8_slice(data: &[u8], start: usize) -> (r: Result<i8, ProgramError>)
    ensures
        r == i8_at(data@, start as int),
{
    if fits(data, start, 1) {
        let u: u64 = read_le(data, start, 1);
        proof {
            lemma_pow256_values();
        }
        if u >= 0x80 {
            Ok((u as i16 - 0x100) as i8)
        } else {
            Ok(u as i8)
        }
    } else {
        Err(ProgramError::InvalidInstructionData)
    }
}

/// Copies the `N` bytes at `start`, as they are.
pub fn read_bytes_slice<const N: usize>(data: &[u8], start: usize) -> (r: Result<[u8; N], ProgramError>)
    ensures
        match r {
            Ok(a) => in_bounds(data@, start as int, N as int) && a@ == data@.subrange(
                start as int,
                start + N,
            ),
            Err(e) => !in_bounds(data@, start as int, N as int) && e == decode_error(),
        },
{
    if fits(data, start, N) {
        let n: usize = data.len();
        let mut a: [u8; N] = [0u8; N];
        let mut i: usize = 0;
        while i < N
            invariant
                in_bounds(data@, start as int, N as int),
                data@.len() == n,
                0 <= i <= N,
                forall|j: int| 0 <= j < i ==> a@[j] == data@[start + j],
            decreases N - i,
        {
            a[i] = data[start + i];
            i = i + 1;
        }
        assert(a@ =~= data@.subrange(start as int, start + N));
        Ok(a)
    } else {
        Err(ProgramError::InvalidInstructionData)
    }
}

/// Decoding the 8 little-endian bytes of any `u64` gives it back.
pub proof fn lemma_u64_round_trip(v: u64)
    ensures
        u64_at(le_bytes(v as nat, 8), 0) == Ok::<u64, ProgramError>(v),
{
    lemma_pow256_values();
    lemma_unsigned_round_trip(v as nat, 8);
    assert(le_bytes(v as nat, 8).subrange(0, 8) =~= le_bytes(v as nat, 8));
}

/// Decoding the 4 little-endian bytes of any `u32` gives it back.
pub proof fn lemma_u32_round_trip(v: u32)
    ensures
        u32_at(le_bytes(v as nat, 4), 0) == Ok::<u32, ProgramError>(v),
{
    lemma_pow256_values();
    lemma_unsigned_round_trip(v as nat, 4);
    assert(le_bytes(v as nat, 4).subrange(0, 4) =~= le_bytes(v as nat, 4));
}

/// Decoding the 2 little-endian bytes of any `u16` gives it back.
pub proof fn lemma_u16_round_trip(v: u16)
    ensures
        u16_at(le_bytes(v as nat, 2), 0) == Ok::<u16, ProgramError>(v),
{
    lemma_pow256_values();
    lemma_unsigned_round_trip(v as nat, 2);
    assert(le_bytes(v as nat, 2).subrange(0, 2) =~= le_bytes(v as nat, 2));
}

/// Decoding the 1 little-endian byte of any `u8` gives it back.
pub proof fn lemma_u8_round_trip(v: u8)
    ensures
        u8_at(le_bytes(v as nat, 1), 0) == Ok::<u8, ProgramError>(v),
{
    lemma_pow256_values();
    lemma_unsigned_round_trip(v as nat, 1);
    assert(le_bytes(v as nat, 1).subrange(0, 1) =~= le_bytes(v as nat, 1));
}

/// Decoding the 8 little-endian two's-complement bytes of any `i64`
/// gives it back.
pub proof fn lemma_i64_round_trip(v: i64)
    ensures
        i64_at(le_bytes(from_signed(v as int, 8), 8), 0) == Ok::<i64, ProgramError>(v),
{
    lemma_pow256_values();
    lemma_signed_round_trip(v as int, 8);
    lemma_unsigned_round_trip(from_signed(v as int, 8), 8);
    assert(le_bytes(from_signed(v as int, 8), 8).subrange(0, 8) =~= le_bytes(
        from_signed(v as int, 8),
        8,
    ));
}

/// Decoding the 4 little-endian two's-complement bytes of any `i32`
/// gives it back.
pub proof fn lemma_i32_round_trip(v: i32)
    ensures
        i32_at(le_bytes(from_signed(v as int, 4), 4), 0) == Ok::<i32, ProgramError>(v),
{
    lemma_pow256_values();
    lemma_signed_round_trip(v as int, 4);
    lemma_unsigned_round_trip(from_signed(v as int, 4), 4);
    assert(le_bytes(from_signed(v as int, 4), 4).subrange(0, 4) =~= le_bytes(
        from_signed(v as int, 4),
        4,
    ));
}

/// Decoding the 2 little-endian two's-complement bytes of any `i16`
/// gives it back.
pub proof fn lemma_i16_round_trip(v: i16)
    ensures
        i16_at(le_bytes(from_signed(v as int, 2), 2), 0) == Ok::<i16, ProgramError>(v),
{
    lemma_pow256_values();
    lemma_signed_round_trip(v as int, 2);
    lemma_unsigned_round_trip(from_signed(v as int, 2), 2);
    assert(le_bytes(from_signed(v as int, 2), 2).subrange(0, 2) =~= le_bytes(
        from_signed(v as int, 2),
        2,
    ));
}

/// Decoding the 1 little-endian two's-complement byte of any `i8`
/// gives it back.
pub proof fn lemma_i8_round_trip(v: i8)
    ensures
        i8_at(le_bytes(from_signed(v as int, 1), 1), 0) == Ok::<i8, ProgramError>(v),
{
    lemma_pow256_values();
    lemma_signed_round_trip(v as int, 1);
    lemma_unsigned_round_trip(from_signed(v as int, 1), 1);
    assert(le_bytes(from_signed(v as int, 1), 1).subrange(0, 1) =~= le_bytes(
        from_signed(v as int, 1),
        1,
    ));
}

} // verus!

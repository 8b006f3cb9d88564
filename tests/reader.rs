use solana_bytes_reader::{
    read_bool_slice, read_bytes_slice, read_i16_slice, read_i32_slice, read_i64_slice,
    read_i8_slice, read_slice, read_u16_slice, read_u32_slice, read_u64_slice, read_u8_slice,
    PeekIntoBytes,
    ProgramError, ReadBytes, Reader,
};

#[test]
fn test_read_primitive() -> Result<(), Box<dyn std::error::Error>> {
    let int: u16 = u16::MAX;
    assert_eq!(int, read_u16_slice(&int.to_le_bytes(), 0)?);
    Ok(())
}

#[test]
fn test_reader() -> Result<(), Box<dyn std::error::Error>> {
    let expected_first: u8 = 101;
    let expected_second: u16 = 2134;
    let expected_third: &[u8] = &[1; 10];

    let bytes: &mut [u8] = &mut [0; 13];
    bytes[0] = expected_first;
    bytes[1..3].copy_from_slice(&expected_second.to_le_bytes());
    bytes[3..13].copy_from_slice(expected_third);

    let mut reader: Reader = Reader::new(bytes);
    let first: u8 = reader.read_u8()?;
    println!("peek into second value: {}", reader.peek_u16()?);
    let second: u16 = reader.read_u16()?;
    let third: [u8; 10] = reader.read_bytes()?;

    assert_eq!(expected_first, first);
    assert_eq!(expected_second, second);
    assert_eq!(expected_third, third);

    assert_eq!(reader.remaining(), 0);

    Ok(())
}

#[test]
fn scenario_offsets_step_by_step() {
    let bytes: [u8; 13] = [101, 0x56, 0x08, 1, 1, 1, 1, 1, 1, 1, 1, 1, 1];
    let mut reader = Reader::new(&bytes);
    assert_eq!(reader.read_u8(), Ok(101));
    assert_eq!(reader.offset(), 1);
    assert_eq!(reader.peek_u16(), Ok(2134));
    assert_eq!(reader.offset(), 1);
    assert_eq!(reader.read_u16(), Ok(2134));
    assert_eq!(reader.offset(), 3);
    assert_eq!(reader.read_bytes::<10>(), Ok([1u8; 10]));
    assert_eq!(reader.offset(), 13);
    assert_eq!(reader.remaining(), 0);
}

#[test]
fn free_decoders_read_little_endian() {
    let data: [u8; 9] = [0xff, 0x01, 0x02, 0x03, 0x04, 0x05, 0x06, 0x07, 0x88];
    assert_eq!(read_u64_slice(&data, 1), Ok(0x8807_0605_0403_0201));
    assert_eq!(read_i64_slice(&data, 1), Ok(0x8807_0605_0403_0201u64 as i64));
    assert_eq!(read_u32_slice(&data, 0), Ok(0x0302_01ff));
    assert_eq!(read_i32_slice(&data, 5), Ok(0x8807_0605u32 as i32));
    assert_eq!(read_u16_slice(&data, 7), Ok(0x8807));
    assert_eq!(read_i16_slice(&data, 7), Ok(-30713));
    assert_eq!(read_u8_slice(&data, 0), Ok(255));
    assert_eq!(read_i8_slice(&data, 0), Ok(-1));
    assert_eq!(read_i8_slice(&data, 1), Ok(1));
    assert_eq!(read_bytes_slice::<3>(&data, 6), Ok([0x06, 0x07, 0x88]));
}

#[test]
fn free_decoders_fail_past_the_end() {
    let data: [u8; 4] = [1, 2, 3, 4];
    assert_eq!(read_u64_slice(&data, 0), Err(ProgramError::InvalidInstructionData));
    assert_eq!(read_i64_slice(&data, 0), Err(ProgramError::InvalidInstructionData));
    assert_eq!(read_u32_slice(&data, 1), Err(ProgramError::InvalidInstructionData));
    assert_eq!(read_i32_slice(&data, 1), Err(ProgramError::InvalidInstructionData));
    assert_eq!(read_u16_slice(&data, 3), Err(ProgramError::InvalidInstructionData));
    assert_eq!(read_i16_slice(&data, 3), Err(ProgramError::InvalidInstructionData));
    assert_eq!(read_u8_slice(&data, 4), Err(ProgramError::InvalidInstructionData));
    assert_eq!(read_i8_slice(&data, 4), Err(ProgramError::InvalidInstructionData));
    assert_eq!(read_bool_slice(&data, 4), Err(ProgramError::InvalidInstructionData));
    assert_eq!(read_bytes_slice::<5>(&data, 0), Err(ProgramError::InvalidInstructionData));
    assert_eq!(read_u32_slice(&data, usize::MAX), Err(ProgramError::InvalidInstructionData));
    assert_eq!(read_bytes_slice::<2>(&data, usize::MAX - 1), Err(ProgramError::InvalidInstructionData));
    assert_eq!(read_u32_slice(&data, 0), Ok(0x0403_0201));
    assert_eq!(read_bytes_slice::<0>(&data, 4), Ok([]));
}

#[test]
fn bool_bytes_decode_or_fail() {
    let data: [u8; 3] = [0, 1, 2];
    assert_eq!(read_bool_slice(&data, 0), Ok(false));
    assert_eq!(read_bool_slice(&data, 1), Ok(true));
    assert_eq!(read_bool_slice(&data, 2), Err(ProgramError::InvalidInstructionData));
    let mut reader = Reader::new(&data);
    assert_eq!(reader.peek_bool(), Ok(false));
    assert_eq!(reader.read_bool(), Ok(false));
    assert_eq!(reader.read_bool(), Ok(true));
    assert_eq!(reader.offset(), 2);
    assert_eq!(reader.read_bool(), Err(ProgramError::InvalidInstructionData));
    assert_eq!(reader.offset(), 2);
}

#[test]
fn round_trip_through_std_encoding() {
    for v in [0u64, 1, 0x0102_0304_0506_0708, u64::MAX] {
        assert_eq!(read_u64_slice(&v.to_le_bytes(), 0), Ok(v));
    }
    for v in [i64::MIN, -1, 0, i64::MAX] {
        assert_eq!(read_i64_slice(&v.to_le_bytes(), 0), Ok(v));
    }
    for v in [0u32, 0xdead_beef, u32::MAX] {
        assert_eq!(read_u32_slice(&v.to_le_bytes(), 0), Ok(v));
    }
    for v in [i32::MIN, -2, 7, i32::MAX] {
        assert_eq!(read_i32_slice(&v.to_le_bytes(), 0), Ok(v));
    }
    for v in [0u16, 0x1234, u16::MAX] {
        assert_eq!(read_u16_slice(&v.to_le_bytes(), 0), Ok(v));
    }
    for v in [i16::MIN, -300, 0, i16::MAX] {
        assert_eq!(read_i16_slice(&v.to_le_bytes(), 0), Ok(v));
    }
    for v in [0u8, 200, u8::MAX] {
        assert_eq!(read_u8_slice(&v.to_le_bytes(), 0), Ok(v));
    }
    for v in [i8::MIN, -1, 0, i8::MAX] {
        assert_eq!(read_i8_slice(&v.to_le_bytes(), 0), Ok(v));
    }
}

#[test]
fn reads_advance_by_width() {
    let mut data: Vec<u8> = Vec::new();
    data.extend_from_slice(&(-5i64).to_le_bytes());
    data.extend_from_slice(&7u64.to_le_bytes());
    data.extend_from_slice(&(-6i32).to_le_bytes());
    data.extend_from_slice(&8u32.to_le_bytes());
    data.extend_from_slice(&(-9i16).to_le_bytes());
    data.push(0xfe);
    let mut reader = Reader::new(&data);
    assert_eq!(reader.read_i64(), Ok(-5));
    assert_eq!(reader.offset(), 8);
    assert_eq!(reader.read_u64(), Ok(7));
    assert_eq!(reader.offset(), 16);
    assert_eq!(reader.read_i32(), Ok(-6));
    assert_eq!(reader.offset(), 20);
    assert_eq!(reader.read_u32(), Ok(8));
    assert_eq!(reader.offset(), 24);
    assert_eq!(reader.read_i16(), Ok(-9));
    assert_eq!(reader.offset(), 26);
    assert_eq!(reader.read_i8(), Ok(-2));
    assert_eq!(reader.offset(), 27);
    assert_eq!(reader.remaining(), 0);
}

#[test]
fn failed_read_keeps_offset() {
    let data: [u8; 5] = [1, 2, 3, 4, 5];
    let mut reader = Reader::new_with_offset(&data, 2);
    assert_eq!(reader.read_u64(), Err(ProgramError::InvalidInstructionData));
    assert_eq!(reader.read_i64(), Err(ProgramError::InvalidInstructionData));
    assert_eq!(reader.read_u32(), Err(ProgramError::InvalidInstructionData));
    assert_eq!(reader.read_i32(), Err(ProgramError::InvalidInstructionData));
    assert_eq!(reader.read_bytes::<4>(), Err(ProgramError::InvalidInstructionData));
    assert_eq!(reader.offset(), 2);
    assert_eq!(reader.read_u16(), Ok(0x0403));
    assert_eq!(reader.offset(), 4);
    assert_eq!(reader.read_i16(), Err(ProgramError::InvalidInstructionData));
    assert_eq!(reader.offset(), 4);
    assert_eq!(reader.read_u8(), Ok(5));
    assert_eq!(reader.read_u8(), Err(ProgramError::InvalidInstructionData));
    assert_eq!(reader.read_i8(), Err(ProgramError::InvalidInstructionData));
    assert_eq!(reader.offset(), 5);
}

#[test]
fn peeks_do_not_move() {
    let data: [u8; 8] = [0x10, 0x20, 0x30, 0x40, 0x50, 0x60, 0x70, 0x80];
    let reader = Reader::new(&data);
    assert_eq!(reader.peek_u64(), Ok(0x8070_6050_4030_2010));
    assert_eq!(reader.peek_i64(), Ok(0x8070_6050_4030_2010u64 as i64));
    assert_eq!(reader.peek_u32(), Ok(0x4030_2010));
    assert_eq!(reader.peek_i32(), Ok(0x4030_2010));
    assert_eq!(reader.peek_u16(), Ok(0x2010));
    assert_eq!(reader.peek_i16(), Ok(0x2010));
    assert_eq!(reader.peek_u8(), Ok(0x10));
    assert_eq!(reader.peek_i8(), Ok(0x10));
    assert_eq!(reader.peek_bytes::<2>(), Ok([0x10, 0x20]));
    assert_eq!(reader.peek_u16(), reader.peek_u16());
    assert_eq!(reader.offset(), 0);
    let late = Reader::new_with_offset(&data, 7);
    assert_eq!(late.peek_u16(), Err(ProgramError::InvalidInstructionData));
    assert_eq!(late.peek_bytes::<2>(), Err(ProgramError::InvalidInstructionData));
    assert_eq!(late.peek_i8(), Ok(-128));
    assert_eq!(late.offset(), 7);
}

#[test]
fn skip_is_unchecked_and_remaining_saturates() {
    let data: [u8; 4] = [1, 2, 3, 4];
    let mut reader = Reader::new(&data);
    reader.skip(3);
    assert_eq!(reader.offset(), 3);
    assert_eq!(reader.remaining(), 1);
    reader.skip(10);
    assert_eq!(reader.offset(), 13);
    assert_eq!(reader.remaining(), 0);
    assert_eq!(reader.read_u8(), Err(ProgramError::InvalidInstructionData));
    assert_eq!(reader.offset(), 13);
    reader.set_offset(1);
    assert_eq!(reader.offset(), 1);
    assert_eq!(reader.remaining(), 3);
    assert_eq!(reader.read_u8(), Ok(2));
}

#[test]
fn accessors_show_whole_buffer() {
    let data: [u8; 3] = [9, 8, 7];
    let mut reader = Reader::new_with_offset(&data, 2);
    assert_eq!(reader.offset(), 2);
    assert_eq!(reader.remaining(), 1);
    assert_eq!(reader.bytes(), &data[..]);
    assert_eq!(reader.read_u8(), Ok(7));
    assert_eq!(reader.bytes(), &data[..]);
}

#[test]
fn slices_are_bounds_checked() {
    let data: [u8; 4] = [1, 2, 3, 4];
    assert_eq!(read_slice(&data, 1, 3), Ok(&data[1..4]));
    assert_eq!(read_slice(&data, 4, 0), Ok(&data[4..4]));
    assert_eq!(read_slice(&data, 2, 3), Err(ProgramError::InvalidInstructionData));
    assert_eq!(read_slice(&data, usize::MAX, 2), Err(ProgramError::InvalidInstructionData));
}

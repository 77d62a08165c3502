use sbe_codec::ReadBuf;
use sbe_codec::SbeErr;
use sbe_codec::WriteBuf;

#[test]
fn put_u8_and_read_back() {
    let mut wb = WriteBuf::new(vec![0u8; 4]);
    wb.put_u8_at(2, 0xAB).unwrap();
    let data = wb.into_inner();
    assert_eq!(data, vec![0, 0, 0xAB, 0]);
    let rb = ReadBuf::new(data);
    assert_eq!(rb.get_u8_at(2).unwrap(), 0xAB);
}

#[test]
fn put_u16_little_endian() {
    let mut wb = WriteBuf::new(vec![0u8; 2]);
    wb.put_u16_at(0, 0x0201).unwrap();
    let data = wb.into_inner();
    assert_eq!(data, vec![0x01, 0x02]);
    let rb = ReadBuf::new(data);
    assert_eq!(rb.get_u16_at(0).unwrap(), 0x0201);
}

#[test]
fn put_u32_little_endian() {
    let mut wb = WriteBuf::new(vec![0u8; 6]);
    wb.put_u32_at(1, 0x0403_0201).unwrap();
    let data = wb.into_inner();
    assert_eq!(data, vec![0, 0x01, 0x02, 0x03, 0x04, 0]);
    let rb = ReadBuf::new(data);
    assert_eq!(rb.get_u32_at(1).unwrap(), 0x0403_0201);
}

#[test]
fn put_u64_little_endian() {
    let mut wb = WriteBuf::new(vec![0u8; 8]);
    wb.put_u64_at(0, 0x0807_0605_0403_0201).unwrap();
    let data = wb.into_inner();
    assert_eq!(data, vec![0x01, 0x02, 0x03, 0x04, 0x05, 0x06, 0x07, 0x08]);
    let rb = ReadBuf::new(data);
    assert_eq!(rb.get_u64_at(0).unwrap(), 0x0807_0605_0403_0201);
}

#[test]
fn signed_round_trips() {
    let mut wb = WriteBuf::new(vec![0u8; 32]);
    wb.put_i8_at(0, -1).unwrap();
    wb.put_i16_at(1, -2).unwrap();
    wb.put_i32_at(3, -3).unwrap();
    wb.put_i64_at(7, -4).unwrap();
    wb.put_i64_at(15, i64::MIN).unwrap();
    wb.put_i64_at(23, i64::MAX).unwrap();
    let data = wb.into_inner();
    assert_eq!(data[0], 0xFF);
    assert_eq!(&data[1..3], &[0xFE, 0xFF]);
    assert_eq!(&data[3..7], &[0xFD, 0xFF, 0xFF, 0xFF]);
    let rb = ReadBuf::new(data);
    assert_eq!(rb.get_i8_at(0).unwrap(), -1);
    assert_eq!(rb.get_i16_at(1).unwrap(), -2);
    assert_eq!(rb.get_i32_at(3).unwrap(), -3);
    assert_eq!(rb.get_i64_at(7).unwrap(), -4);
    assert_eq!(rb.get_i64_at(15).unwrap(), i64::MIN);
    assert_eq!(rb.get_i64_at(23).unwrap(), i64::MAX);
}

#[test]
fn bounds_violations_are_recoverable_errors() {
    let mut wb = WriteBuf::new(vec![0u8; 3]);
    assert_eq!(wb.put_u32_at(0, 5), Err(SbeErr::IndexOutOfRange));
    assert_eq!(wb.put_u16_at(2, 5), Err(SbeErr::IndexOutOfRange));
    assert_eq!(wb.put_u8_at(3, 5), Err(SbeErr::IndexOutOfRange));
    // a failed write leaves the buffer unchanged
    assert_eq!(wb.into_inner(), vec![0, 0, 0]);

    let rb = ReadBuf::new(vec![0u8; 3]);
    assert_eq!(rb.get_u32_at(0), Err(SbeErr::IndexOutOfRange));
    assert_eq!(rb.get_u64_at(100), Err(SbeErr::IndexOutOfRange));
    assert_eq!(rb.get_u8_at(3), Err(SbeErr::IndexOutOfRange));
}

#[test]
fn slice_accessors() {
    let mut wb = WriteBuf::new(vec![0u8; 6]);
    assert_eq!(wb.put_slice_at(1, &[9, 8, 7]).unwrap(), 3);
    assert_eq!(wb.put_slice_at(5, &[1, 2]), Err(SbeErr::IndexOutOfRange));
    let data = wb.into_inner();
    assert_eq!(data, vec![0, 9, 8, 7, 0, 0]);
    let rb = ReadBuf::new(data);
    assert_eq!(rb.get_slice_at(1, 3).unwrap(), &[9, 8, 7]);
    assert_eq!(rb.get_slice_at(4, 3).err(), Some(SbeErr::IndexOutOfRange));
}

#[test]
fn byte_array_accessor() {
    let mut wb = WriteBuf::new(vec![0u8; 4]);
    assert_eq!(wb.put_bytes_at(1, [5u8, 6u8]).unwrap(), 2);
    assert_eq!(wb.into_inner(), vec![0, 5, 6, 0]);
}

use tsi::utils::{
    clone_bytes, read_be_u16, read_le_i32, read_le_u16, read_le_u32, read_le_u8, write_be_u32,
    write_le_i32, write_le_u16,
};
use tsi::TsiError;

#[test]
fn read_le_u8_exact() {
    let buf = vec![0xab, 0x01];
    assert_eq!(read_le_u8(&buf, 0), Ok(0xab));
    assert_eq!(read_le_u8(&buf, 1), Ok(0x01));
    assert_eq!(read_le_u8(&buf, 2), Err(TsiError::InvalidPktBuf));
}

#[test]
fn read_le_u16_exact() {
    let buf = vec![0x34, 0x12, 0xff];
    assert_eq!(read_le_u16(&buf, 0), Ok(0x1234));
    assert_eq!(read_le_u16(&buf, 1), Ok(0xff12));
    assert_eq!(read_le_u16(&buf, 2), Err(TsiError::InvalidPktBuf));
}

#[test]
fn read_be_u16_exact() {
    let buf = vec![0x12, 0x34];
    assert_eq!(read_be_u16(&buf, 0), Ok(0x1234));
    assert_eq!(read_be_u16(&buf, 1), Err(TsiError::InvalidPktBuf));
}

#[test]
fn read_le_u32_exact() {
    let buf = vec![0x78, 0x56, 0x34, 0x12, 0x00];
    assert_eq!(read_le_u32(&buf, 0), Ok(0x12345678));
    assert_eq!(read_le_u32(&buf, 1), Ok(0x00123456));
    assert_eq!(read_le_u32(&buf, 2), Err(TsiError::InvalidPktBuf));
}

#[test]
fn read_le_i32_negative() {
    let buf = vec![0xff, 0xff, 0xff, 0xff];
    assert_eq!(read_le_i32(&buf, 0), Ok(-1));
    let buf2 = vec![0xfe, 0xff, 0xff, 0xff];
    assert_eq!(read_le_i32(&buf2, 0), Ok(-2));
    let buf3 = vec![0x2a, 0x00, 0x00, 0x00];
    assert_eq!(read_le_i32(&buf3, 0), Ok(42));
}

#[test]
fn write_le_u16_exact() {
    let mut buf = vec![0u8; 4];
    assert_eq!(write_le_u16(&mut buf, 1, 0xabcd), Ok(2));
    assert_eq!(buf, vec![0x00, 0xcd, 0xab, 0x00]);
}

#[test]
fn write_le_u16_out_of_bounds_keeps_buffer() {
    let mut buf = vec![7u8; 3];
    assert_eq!(write_le_u16(&mut buf, 2, 0xabcd), Err(TsiError::InvalidPktBuf));
    assert_eq!(buf, vec![7, 7, 7]);
}

#[test]
fn write_le_i32_exact() {
    let mut buf = vec![0u8; 5];
    assert_eq!(write_le_i32(&mut buf, 0, -2), Ok(4));
    assert_eq!(buf, vec![0xfe, 0xff, 0xff, 0xff, 0x00]);
    let mut buf2 = vec![0u8; 4];
    assert_eq!(write_le_i32(&mut buf2, 0, 42), Ok(4));
    assert_eq!(buf2, vec![0x2a, 0x00, 0x00, 0x00]);
}

#[test]
fn write_be_u32_exact() {
    let mut buf = vec![0u8; 4];
    assert_eq!(write_be_u32(&mut buf, 0, 0xdeadbeef), Ok(4));
    assert_eq!(buf, vec![0xde, 0xad, 0xbe, 0xef]);
}

#[test]
fn write_read_round_trip() {
    let mut buf = vec![0u8; 10];
    write_le_u16(&mut buf, 0, 0x1234).unwrap();
    write_le_i32(&mut buf, 2, -99).unwrap();
    write_be_u32(&mut buf, 6, 0x01020304).unwrap();
    assert_eq!(read_le_u16(&buf, 0), Ok(0x1234));
    assert_eq!(read_le_i32(&buf, 2), Ok(-99));
    assert_eq!(read_le_u8(&buf, 6), Ok(0x01));
    assert_eq!(read_le_u8(&buf, 9), Ok(0x04));
}

#[test]
fn clone_bytes_copies() {
    let v = vec![1u8, 2, 3];
    let c = clone_bytes(&v);
    assert_eq!(c, v);
    assert_eq!(clone_bytes(&Vec::new()), Vec::<u8>::new());
}

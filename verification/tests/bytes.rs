use fdpass::bytes::{read_le32, read_le64, write_le32, write_le64};

#[test]
fn le32_round_trip() {
    let mut buf = vec![0u8; 12];
    write_le32(&mut buf, 3, 0xdead_beef);
    assert_eq!(read_le32(&buf, 3), 0xdead_beef);
    // the window is little-endian and nothing else moved
    assert_eq!(&buf[3..7], &[0xef, 0xbe, 0xad, 0xde]);
    assert_eq!(&buf[..3], &[0, 0, 0]);
    assert_eq!(&buf[7..], &[0, 0, 0, 0, 0]);
}

#[test]
fn le32_exact_value() {
    let buf = vec![0x78, 0x56, 0x34, 0x12];
    assert_eq!(read_le32(&buf, 0), 0x1234_5678);
}

#[test]
fn le64_round_trip() {
    let mut buf = vec![0xffu8; 16];
    write_le64(&mut buf, 8, 0x0102_0304_0506_0708);
    assert_eq!(read_le64(&buf, 8), 0x0102_0304_0506_0708);
    assert_eq!(&buf[8..], &[0x08, 0x07, 0x06, 0x05, 0x04, 0x03, 0x02, 0x01]);
    assert_eq!(&buf[..8], &[0xff; 8]);
}

#[test]
fn le64_exact_value() {
    let buf = vec![1, 0, 0, 0, 0, 0, 0, 0x80];
    assert_eq!(read_le64(&buf, 0), 0x8000_0000_0000_0001);
}

use driver_station_rs::wire::{read_be_u16, read_be_u32, read_be_u64, test_bit};

#[test]
fn reads_big_endian_u16() {
    let buf = [0x12u8, 0x34, 0xab, 0xcd];
    assert_eq!(read_be_u16(&buf, 0), 0x1234);
    assert_eq!(read_be_u16(&buf, 1), 0x34ab);
    assert_eq!(read_be_u16(&buf, 2), 0xabcd);
    assert_eq!(read_be_u16(&buf, 2), u16::from_be_bytes([0xab, 0xcd]));
}

#[test]
fn reads_big_endian_u32() {
    let buf = [0x00u8, 0xde, 0xad, 0xbe, 0xef, 0xff];
    assert_eq!(read_be_u32(&buf, 1), 0xdeadbeef);
    assert_eq!(read_be_u32(&buf, 0), 0x00deadbe);
    assert_eq!(read_be_u32(&buf, 2), 0xadbeefff);
}

#[test]
fn reads_big_endian_u64() {
    let buf = [0x01u8, 0x23, 0x45, 0x67, 0x89, 0xab, 0xcd, 0xef, 0x10];
    assert_eq!(read_be_u64(&buf, 0), 0x0123456789abcdef);
    assert_eq!(read_be_u64(&buf, 1), 0x23456789abcdef10);
    let all = [0xffu8; 8];
    assert_eq!(read_be_u64(&all, 0), u64::MAX);
}

#[test]
fn tests_each_bit() {
    let mut n: u8 = 0;
    while n < 8 {
        assert!(test_bit(1 << n, n));
        assert!(!test_bit(!(1 << n), n));
        assert!(!test_bit(0, n));
        assert!(test_bit(0xff, n));
        n += 1;
    }
    assert!(test_bit(0x80, 7));
    assert!(!test_bit(0x7f, 7));
    assert!(test_bit(0x05, 0));
    assert!(!test_bit(0x05, 1));
    assert!(test_bit(0x05, 2));
}

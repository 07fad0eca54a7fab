use leveldb::key::IntoLevelDBKey;
use leveldb::util::FromU8;

#[test]
fn integers_are_big_endian() {
    assert_eq!(1i32.to_key_bytes(), vec![0, 0, 0, 1]);
    assert_eq!((-1i32).to_key_bytes(), vec![255, 255, 255, 255]);
    assert_eq!(0x0102u16.to_key_bytes(), vec![1, 2]);
    assert_eq!(7u8.to_key_bytes(), vec![7]);
    assert_eq!((-2i8).to_key_bytes(), vec![254]);
    assert_eq!(0x0102030405060708u64.to_key_bytes(), vec![1, 2, 3, 4, 5, 6, 7, 8]);
    assert_eq!(1u128.to_key_bytes().len(), 16);
    assert_eq!(i64::MIN.to_key_bytes(), vec![128, 0, 0, 0, 0, 0, 0, 0]);
}

#[test]
fn text_and_bytes_are_raw() {
    assert_eq!("ab".to_key_bytes(), vec![97, 98]);
    assert_eq!(String::from("é").to_key_bytes(), vec![0xc3, 0xa9]);
    assert_eq!(vec![9u8, 8].to_key_bytes(), vec![9, 8]);
    let s: &[u8] = &[4, 5];
    assert_eq!(s.to_key_bytes(), vec![4, 5]);
}

#[test]
fn integers_read_back() {
    assert_eq!(i32::from_u8(&[0, 0, 0, 99]), 99);
    assert_eq!(i32::from_u8(&[255, 255, 255, 254]), -2);
    assert_eq!(u16::from_u8(&[1, 0]), 256);
    assert_eq!(i8::from_u8(&[128]), -128);
    assert_eq!(u64::from_u8(&12345u64.to_key_bytes()), 12345);
    assert_eq!(i128::from_u8(&(-5i128).to_key_bytes()), -5);
    assert_eq!(u128::from_u8(&u128::MAX.to_key_bytes()), u128::MAX);
}

#[test]
fn wrong_length_is_refused() {
    let r = i32::try_from_u8(&[1, 2, 3]);
    assert_eq!(r.err().map(|e| e.kind), Some(leveldb::error::ErrorKind::InvalidArgument));
    assert_eq!(u16::try_from_u8(&[1, 2]).ok(), Some(258));
    assert!(u8::try_from_u8(&[]).is_err());
}

use leveldb::comparator::{Comparator, ReverseComparator, BytewiseComparator};
use leveldb::db::{Database, Directory};
use leveldb::error::ErrorKind;
use leveldb::options::{Options, ReadOptions, WriteOptions};
use std::cmp::Ordering;

#[test]
fn test_comparator() {
    let comparator = ReverseComparator;
    let mut dir = Directory::new();
    let mut opts = Options::new();
    opts.create_if_missing = true;

    let mut database = Database::open_with_comparator(&mut dir, "reverse_comparator", &opts, comparator).unwrap();
    let w = WriteOptions::new();
    database.put_u8(&w, &[1], &[1]).unwrap();
    database.put_u8(&w, &[2], &[2]).unwrap();

    let read_opts = ReadOptions::new();
    let mut iter = database.iter(&read_opts);

    assert_eq!((vec![2], vec![2]), iter.next().unwrap());
    assert_eq!((vec![1], vec![1]), iter.next().unwrap());
}

#[test]
fn comparator_mismatch_on_reopen() {
    let mut dir = Directory::new();
    let mut opts = Options::new();
    opts.create_if_missing = true;
    let db = Database::open(&mut dir, "plain", &opts).unwrap();
    db.close(&mut dir);
    let res = Database::open_with_comparator(&mut dir, "plain", &opts, ReverseComparator);
    assert_eq!(res.err().map(|e| e.kind), Some(ErrorKind::ComparatorMismatch));
}

#[test]
fn bytewise_order() {
    let c = BytewiseComparator;
    assert_eq!(c.compare(&[1], &[2]), Ordering::Less);
    assert_eq!(c.compare(&[1], &[1, 0]), Ordering::Less);
    assert_eq!(c.compare(&[2], &[1, 9]), Ordering::Greater);
    assert_eq!(c.compare(&[], &[]), Ordering::Equal);
    assert_eq!(c.compare(&[255], &[0]), Ordering::Greater);
    assert_eq!(c.name(), "leveldb.BytewiseComparator");
    let r = ReverseComparator;
    assert_eq!(r.compare(&[1], &[2]), Ordering::Greater);
    assert_eq!(r.compare(&[3, 1], &[3]), Ordering::Less);
    assert_eq!(r.name(), "reverse");
}

use leveldb::comparator::BytewiseComparator;
use leveldb::db::{Database, Directory};
use leveldb::error::ErrorKind;
use leveldb::options::{Options, ReadOptions, WriteOptions};
use leveldb::util::FromU8;

fn open_database(dir: &mut Directory, name: &str) -> Database<BytewiseComparator> {
    let mut opts = Options::new();
    opts.create_if_missing = true;
    Database::open(dir, name, &opts).unwrap()
}

fn db_put_simple(database: &mut Database<BytewiseComparator>, key: i32, val: &[u8]) {
    let write_opts = WriteOptions::new();
    database.put(&write_opts, &key, val).unwrap();
}

#[test]
fn test_snapshots() {
    let mut dir = Directory::new();
    let database = &mut open_database(&mut dir, "snapshots");

    db_put_simple(database, 1, &[1]);
    let snapshot = database.snapshot();

    db_put_simple(database, 2, &[2]);

    let read_opts = ReadOptions::new();
    let res = snapshot.get(database, &read_opts, &2);

    assert!(res.is_ok());
    assert_eq!(None, res.unwrap());
}

#[test]
fn test_snapshot_iterator() {
    let mut dir = Directory::new();
    let database = &mut open_database(&mut dir, "snap_iterator");
    db_put_simple(database, 1, &[1]);
    let snapshot = database.snapshot();

    db_put_simple(database, 2, &[2]);
    let read_opts = ReadOptions::new();

    let mut iter = snapshot.keys_iter(database, &read_opts);

    let key = iter.next();

    assert!(key.is_some());
    let key_value = key.unwrap();
    let key_value = i32::from_u8(&key_value);

    assert_eq!(key_value, 1);

    let next = iter.next();
    assert_eq!(None, next);
}

#[test]
fn snapshot_isolation_against_live_reads() {
    let mut dir = Directory::new();
    let mut database = open_database(&mut dir, "iso");
    let w = WriteOptions::new();
    database.put_u8(&w, &[1], &[1]).unwrap();
    let snap = database.snapshot();
    database.put_u8(&w, &[2], &[2]).unwrap();
    database.delete_u8(&w, &[1]).unwrap();
    let live = ReadOptions::new();
    assert_eq!(database.get_u8(&live, &[2]).unwrap(), Some(vec![2]));
    assert_eq!(database.get_u8(&live, &[1]).unwrap(), None);
    assert_eq!(snap.get_u8(&database, &live, &[2]).unwrap(), None);
    assert_eq!(snap.get_u8(&database, &live, &[1]).unwrap(), Some(vec![1]));
    let mut through_options = ReadOptions::new();
    through_options.snapshot = Some(snap);
    assert_eq!(database.get_u8(&through_options, &[1]).unwrap(), Some(vec![1]));
    let mut it = snap.iter(&database, &live);
    assert_eq!(it.next(), Some((vec![1], vec![1])));
    assert_eq!(it.next(), None);
    let mut vals = snap.value_iter(&database, &live);
    assert_eq!(vals.next(), Some(vec![1]));
}

#[test]
fn snapshot_from_a_later_store_is_refused() {
    let mut dir = Directory::new();
    let mut big = open_database(&mut dir, "big");
    let w = WriteOptions::new();
    big.put_u8(&w, &[1], &[1]).unwrap();
    let snap = big.snapshot();
    let small = open_database(&mut dir, "small");
    let mut opts = ReadOptions::new();
    opts.snapshot = Some(snap);
    let res = small.get_u8(&opts, &[1]);
    assert_eq!(res.err().map(|e| e.kind), Some(ErrorKind::InvalidArgument));
    assert_eq!(snap.sequence_number(), 1);
}

use leveldb::comparator::BytewiseComparator;
use leveldb::db::{Database, Directory};
use leveldb::options::{Options, ReadOptions, WriteOptions};
use leveldb::util::FromU8;

fn open_database(dir: &mut Directory, name: &str) -> Database<BytewiseComparator> {
    let mut opts = Options::new();
    opts.create_if_missing = true;
    match Database::open(dir, name, &opts) {
        Ok(db) => db,
        Err(e) => panic!("failed to open database: {:?}", e),
    }
}

fn db_put_u8_simple(database: &mut Database<BytewiseComparator>, key: &[u8], val: &[u8]) {
    let write_opts = WriteOptions::new();
    match database.put_u8(&write_opts, key, val) {
        Ok(_) => (),
        Err(e) => panic!("failed to write to database: {:?}", e),
    }
}

fn db_put_simple(database: &mut Database<BytewiseComparator>, key: i32, val: &[u8]) {
    let write_opts = WriteOptions::new();
    match database.put(&write_opts, &key, val) {
        Ok(_) => (),
        Err(e) => panic!("failed to write to database: {:?}", e),
    }
}

fn five_keys(dir: &mut Directory, name: &str) -> Database<BytewiseComparator> {
    let mut database = open_database(dir, name);
    for k in 1u8..=5 {
        db_put_u8_simple(&mut database, &[k], &[k]);
    }
    database
}

#[test]
fn test_iterator() {
    let mut dir = Directory::new();
    let database = &mut open_database(&mut dir, "iter");
    db_put_simple(database, 1, &[1]);
    db_put_simple(database, 2, &[2]);

    let read_opts = ReadOptions::new();
    let mut iter = database.iter(&read_opts);

    let entry = iter.next();
    assert!(entry.is_some());
    let (key_u8, value) = entry.unwrap();
    let key = i32::from_u8(&key_u8);
    assert_eq!((key, value), (1, vec![1]));

    let entry2 = iter.next();
    assert!(entry2.is_some());
    let (key_u8, value) = entry2.unwrap();
    let key = i32::from_u8(&key_u8);

    assert_eq!((key, value), (2, vec![2]));
    assert!(iter.next().is_none());
}

#[test]
fn test_iterator_reverse() {
    let mut dir = Directory::new();
    let database = &mut open_database(&mut dir, "iter");
    db_put_simple(database, 99, &[1]);
    db_put_simple(database, 100, &[2]);

    let read_opts = ReadOptions::new();
    let mut iter = database.iter(&read_opts).reverse();

    let entry = iter.next();
    assert!(entry.is_some());
    let (key_u8, value) = entry.unwrap();
    let key = i32::from_u8(&key_u8);
    assert_eq!((key, value), (100, vec![2]));

    let entry2 = iter.next();
    assert!(entry2.is_some());
    let (key_u8, value) = entry2.unwrap();
    let key = i32::from_u8(&key_u8);

    assert_eq!((key, value), (99, vec![1]));
    assert!(iter.next().is_none());
}

#[test]
fn test_iterator_last() {
    let mut dir = Directory::new();
    let database = &mut open_database(&mut dir, "iter_last");
    db_put_u8_simple(database, &[1], &[1]);
    db_put_u8_simple(database, &[2], &[2]);

    let read_opts = ReadOptions::new();
    let mut iter = database.iter(&read_opts);

    let last = iter.last();
    assert!(last.is_some());
    assert_eq!(last, Some((vec![2], vec![2])));
}

#[test]
fn test_iterator_seek() {
    let mut dir = Directory::new();
    let database = &mut open_database(&mut dir, "from_to");
    db_put_u8_simple(database, &[1], &[1]);
    db_put_u8_simple(database, &[2], &[2]);
    db_put_u8_simple(database, &[3], &[3]);
    db_put_u8_simple(database, &[4], &[4]);
    db_put_u8_simple(database, &[5], &[5]);

    let read_opts = ReadOptions::new();
    let mut iter = database.iter(&read_opts);

    iter.seek(&[2]);

    assert_eq!(iter.next().unwrap(), (vec![2], vec![2]));
    assert_eq!(iter.next().unwrap(), (vec![3], vec![3]));
}

#[test]
fn test_key_iterator() {
    let mut dir = Directory::new();
    let database = &mut open_database(&mut dir, "key_iter");
    db_put_u8_simple(database, &[1], &[1]);
    db_put_u8_simple(database, &[2], &[2]);

    let read_opts = ReadOptions::new();
    let mut iter = database.keys_iter(&read_opts);
    let value = iter.next().unwrap();

    assert_eq!(value, vec![1]);
}

#[test]
fn test_value_iterator() {
    let mut dir = Directory::new();
    let database = &mut open_database(&mut dir, "value_iter");
    db_put_u8_simple(database, &[1], &[10]);
    db_put_u8_simple(database, &[2], &[20]);

    let read_opts = ReadOptions::new();
    let mut iter = database.value_iter(&read_opts);
    let value = iter.next().unwrap();
    assert_eq!(value, vec![10]);
}

#[test]
fn forward_iteration_is_ascending() {
    let mut dir = Directory::new();
    let database = five_keys(&mut dir, "total");
    let read_opts = ReadOptions::new();
    let mut iter = database.keys_iter(&read_opts);
    let mut seen = Vec::new();
    while let Some(k) = iter.next() {
        seen.push(k);
    }
    assert_eq!(seen, vec![vec![1], vec![2], vec![3], vec![4], vec![5]]);
}

#[test]
fn reverse_from_last_is_descending() {
    let mut dir = Directory::new();
    let database = five_keys(&mut dir, "desc");
    let read_opts = ReadOptions::new();
    let mut iter = database.iter(&read_opts);
    iter.seek_to_last();
    let mut rev = iter.reverse();
    let mut seen = Vec::new();
    while let Some((k, v)) = rev.next() {
        assert_eq!(k, v);
        seen.push(k[0]);
    }
    assert_eq!(seen, vec![5, 4, 3, 2, 1]);
}

#[test]
fn reverse_keeps_position_after_move() {
    let mut dir = Directory::new();
    let database = five_keys(&mut dir, "keep");
    let read_opts = ReadOptions::new();
    let mut iter = database.iter(&read_opts);
    iter.seek(&[3]);
    let mut rev = iter.reverse();
    assert_eq!(rev.next(), Some((vec![3], vec![3])));
    assert_eq!(rev.next(), Some((vec![2], vec![2])));
    let mut fwd = rev.reverse();
    assert_eq!(fwd.key(), Some(vec![1]));
    fwd.advance();
    assert_eq!(fwd.value(), Some(vec![2]));
}

#[test]
fn reverse_value_iterator_yields_values() {
    let mut dir = Directory::new();
    let mut database = open_database(&mut dir, "revval");
    db_put_u8_simple(&mut database, &[1], &[11]);
    db_put_u8_simple(&mut database, &[2], &[22]);
    let read_opts = ReadOptions::new();
    let mut iter = database.value_iter(&read_opts).reverse();
    assert_eq!(iter.next(), Some(vec![22]));
    assert_eq!(iter.next(), Some(vec![11]));
    assert_eq!(iter.next(), None);
    let mut keys = database.keys_iter(&read_opts).reverse();
    assert_eq!(keys.next(), Some(vec![2]));
}

#[test]
fn exhausted_iterator_stays_exhausted() {
    let mut dir = Directory::new();
    let database = open_database(&mut dir, "empty");
    let read_opts = ReadOptions::new();
    let mut iter = database.iter(&read_opts);
    assert!(!iter.valid());
    assert_eq!(iter.entry(), None);
    iter.advance();
    assert_eq!(iter.next(), None);
    assert_eq!(iter.last(), None);
}

#[test]
fn seek_past_end_and_between_keys() {
    let mut dir = Directory::new();
    let mut database = open_database(&mut dir, "seek");
    db_put_u8_simple(&mut database, &[1], &[1]);
    db_put_u8_simple(&mut database, &[3], &[3]);
    let read_opts = ReadOptions::new();
    let mut iter = database.iter(&read_opts);
    iter.seek(&[2]);
    assert_eq!(iter.key(), Some(vec![3]));
    iter.seek(&[4]);
    assert!(!iter.valid());
    iter.seek_to_first();
    assert_eq!(iter.key(), Some(vec![1]));
    assert_eq!(database.keys_iter(&read_opts).last(), Some(vec![3]));
    assert_eq!(database.value_iter(&read_opts).last(), Some(vec![3]));
}

use leveldb::db::{Database, Directory};
use leveldb::error::ErrorKind;
use leveldb::options::Options;

#[test]
fn test_open_database() {
    let mut dir = Directory::new();
    let mut opts = Options::new();
    opts.create_if_missing = true;

    let res = Database::open(&mut dir, "create_if_missing", &opts);

    assert!(res.is_ok());
}

#[test]
fn test_open_nonexistent_database_without_create() {
    let mut dir = Directory::new();
    let mut opts = Options::new();
    opts.create_if_missing = false;

    let res = Database::open(&mut dir, "failed_if_missing", &opts);
    assert!(res.is_err());
}

#[test]
fn open_missing_then_create() {
    let mut dir = Directory::new();
    let mut opts = Options::new();
    let res = Database::open(&mut dir, "fresh", &opts);
    assert_eq!(res.err().map(|e| e.kind), Some(ErrorKind::NotFound));
    assert!(!dir.contains("fresh"));
    opts.create_if_missing = true;
    let res = Database::open(&mut dir, "fresh", &opts);
    assert!(res.is_ok());
    assert!(dir.contains("fresh"));
}

#[test]
fn open_existing_with_error_if_exists() {
    let mut dir = Directory::new();
    let mut opts = Options::new();
    opts.create_if_missing = true;
    let db = Database::open(&mut dir, "here", &opts).unwrap();
    db.close(&mut dir);
    opts.error_if_exists = true;
    let res = Database::open(&mut dir, "here", &opts);
    assert_eq!(res.err().map(|e| e.kind), Some(ErrorKind::AlreadyExists));
}

#[test]
fn reopen_keeps_data() {
    let mut dir = Directory::new();
    let mut opts = Options::new();
    opts.create_if_missing = true;
    let mut db = Database::open(&mut dir, "kept", &opts).unwrap();
    let w = leveldb::options::WriteOptions::new();
    db.put_u8(&w, &[7], &[70]).unwrap();
    db.close(&mut dir);
    opts.create_if_missing = false;
    let db = Database::open(&mut dir, "kept", &opts).unwrap();
    let r = leveldb::options::ReadOptions::new();
    assert_eq!(db.get_u8(&r, &[7]).unwrap(), Some(vec![70]));
}

#[test]
fn round_trip_put_get_delete() {
    let mut dir = Directory::new();
    let mut opts = Options::new();
    opts.create_if_missing = true;
    let mut db = Database::open(&mut dir, "rt", &opts).unwrap();
    let w = leveldb::options::WriteOptions::new();
    let r = leveldb::options::ReadOptions::new();
    db.put(&w, "alpha", &[1, 2, 3]).unwrap();
    assert_eq!(db.get(&r, "alpha").unwrap(), Some(vec![1, 2, 3]));
    db.put(&w, "alpha", &[]).unwrap();
    assert_eq!(db.get(&r, "alpha").unwrap(), Some(vec![]));
    db.delete(&w, "alpha").unwrap();
    assert_eq!(db.get(&r, "alpha").unwrap(), None);
    db.delete(&w, "never").unwrap();
    assert_eq!(db.get(&r, "never").unwrap(), None);
    db.put_u8(&w, &[], &[9]).unwrap();
    assert_eq!(db.get_u8(&r, &[]).unwrap(), Some(vec![9]));
}

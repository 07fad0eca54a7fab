use leveldb::batch::{BatchOp, WriteBatch, WriteBatchIterator};
use leveldb::db::{Database, Directory};
use leveldb::options::{Options, ReadOptions, WriteOptions};

#[test]
fn test_write_batch() {
    let mut dir = Directory::new();
    let mut opts = Options::new();
    opts.create_if_missing = true;
    let database = &mut Database::open(&mut dir, "writebatch", &opts).unwrap();
    let mut batch = WriteBatch::new();

    batch.put(&1, &[1]);
    batch.put(&2, &[2]);
    batch.delete(&1);

    let wopts = WriteOptions::new();
    let ack = database.write(&wopts, &batch);
    assert!(ack.is_ok());

    let read_opts = ReadOptions::new();
    let res = database.get(&read_opts, &2);

    match res {
        Ok(data) => {
            assert!(data.is_some());
            let data = data.unwrap();
            assert_eq!(data, vec![2]);
        }
        Err(_) => panic!("failed reading data"),
    }

    let read_opts2 = ReadOptions::new();
    let res2 = database.get(&read_opts2, &1);
    match res2 {
        Ok(data) => assert!(data.is_none()),
        Err(_) => panic!("failed reading data"),
    }
}

struct Iter {
    put: i32,
    deleted: i32,
}

impl WriteBatchIterator for Iter {
    fn put_u8(&mut self, _key: &[u8], _value: &[u8]) {
        self.put = self.put + 1;
    }

    fn deleted_u8(&mut self, _key: &[u8]) {
        self.deleted = self.deleted + 1;
    }
}

#[test]
fn test_write_batch_iter() {
    let mut dir = Directory::new();
    let mut opts = Options::new();
    opts.create_if_missing = true;

    let database = &mut Database::open(&mut dir, "write_batch", &opts).unwrap();
    let mut batch = WriteBatch::new();
    batch.put(&1, &[1]);
    batch.put(&2, &[2]);
    batch.delete(&1);

    let wopts = WriteOptions::new();
    let ack = database.write(&wopts, &batch);
    assert!(ack.is_ok());

    let iter = Box::new(Iter { put: 0, deleted: 0 });
    let iter2 = batch.iterate(iter);

    assert_eq!(iter2.put, 2);
    assert_eq!(iter2.deleted, 1);
}

#[test]
fn batch_atomicity_scenario() {
    let mut dir = Directory::new();
    let mut opts = Options::new();
    opts.create_if_missing = true;
    let mut database = Database::open(&mut dir, "atomic", &opts).unwrap();
    let mut batch = WriteBatch::new();
    batch.put(&1, &[1]);
    batch.put(&2, &[2]);
    batch.put(&3, &[3]);
    batch.delete(&2);
    let before = database.snapshot();
    database.write(&WriteOptions::new(), &batch).unwrap();
    let r = ReadOptions::new();
    assert_eq!(database.get(&r, &3).unwrap(), Some(vec![3]));
    assert_eq!(database.get(&r, &2).unwrap(), None);
    assert_eq!(database.get(&r, &1).unwrap(), Some(vec![1]));
    assert_eq!(before.get(&database, &r, &1).unwrap(), None);
    assert_eq!(before.get(&database, &r, &3).unwrap(), None);
}

#[test]
fn batch_later_operation_wins() {
    let mut dir = Directory::new();
    let mut opts = Options::new();
    opts.create_if_missing = true;
    let mut database = Database::open(&mut dir, "order", &opts).unwrap();
    let mut batch = WriteBatch::new();
    batch.put_u8(&[5], &[50]);
    batch.delete_u8(&[5]);
    batch.delete_u8(&[6]);
    batch.put_u8(&[6], &[60]);
    database.write(&WriteOptions::new(), &batch).unwrap();
    let r = ReadOptions::new();
    assert_eq!(database.get_u8(&r, &[5]).unwrap(), None);
    assert_eq!(database.get_u8(&r, &[6]).unwrap(), Some(vec![60]));
}

#[test]
fn cleared_batch_applies_nothing() {
    let mut dir = Directory::new();
    let mut opts = Options::new();
    opts.create_if_missing = true;
    let mut database = Database::open(&mut dir, "clear", &opts).unwrap();
    let w = WriteOptions::new();
    database.put_u8(&w, &[1], &[1]).unwrap();
    let mut batch = WriteBatch::new();
    batch.put_u8(&[2], &[2]);
    batch.delete_u8(&[1]);
    assert_eq!(batch.len(), 2);
    batch.clear();
    assert_eq!(batch.len(), 0);
    let seq = database.sequence();
    database.write(&w, &batch).unwrap();
    assert_eq!(database.sequence(), seq);
    let r = ReadOptions::new();
    assert_eq!(database.get_u8(&r, &[1]).unwrap(), Some(vec![1]));
    assert_eq!(database.get_u8(&r, &[2]).unwrap(), None);
    batch.put_u8(&[3], &[3]);
    database.write(&w, &batch).unwrap();
    assert_eq!(database.get_u8(&r, &[3]).unwrap(), Some(vec![3]));
}

#[test]
fn batch_ops_keep_their_order_and_keys() {
    let mut batch = WriteBatch::new();
    batch.put("k", &[1]);
    batch.delete(&vec![0u8, 1]);
    match batch.op(0) {
        BatchOp::Put(k, v) => {
            assert_eq!(k, &b"k".to_vec());
            assert_eq!(v, &vec![1]);
        }
        BatchOp::Delete(_) => panic!("expected a put"),
    }
    assert_eq!(batch.op(1).key(), &vec![0, 1]);
}

#[test]
fn replay_follows_append_order() {
    let mut batch = WriteBatch::new();
    batch.put_u8(&[1], &[10]);
    batch.delete_u8(&[2]);
    batch.put_u8(&[3], &[]);
    let log = batch.iterate(Box::new(leveldb::batch::ReplayLog::new()));
    let ops = log.ops();
    assert_eq!(ops.len(), 3);
    assert!(matches!(&ops[0], BatchOp::Put(k, v) if k == &vec![1] && v == &vec![10]));
    assert!(matches!(&ops[1], BatchOp::Delete(k) if k == &vec![2]));
    assert!(matches!(&ops[2], BatchOp::Put(k, v) if k == &vec![3] && v.is_empty()));
}

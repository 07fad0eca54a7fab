use leveldb::db::{Database, Directory};
use leveldb::options::Options;

#[test]
fn test_open_database_with_cache() {
    let mut dir = Directory::new();
    let mut opts = Options::new();
    opts.create_if_missing = true;
    opts.cache_size = Some(20);

    let res = Database::open(&mut dir, "create_if_missing", &opts);

    assert!(res.is_ok());
}

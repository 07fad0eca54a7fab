use leveldb::db::{destroy, repair, Database, Directory};
use leveldb::options::Options;

fn open_database(dir: &mut Directory, name: &str) -> Database<leveldb::comparator::BytewiseComparator> {
    let mut opts = Options::new();
    opts.create_if_missing = true;
    match Database::open(dir, name, &opts) {
        Ok(db) => db,
        Err(e) => panic!("failed to open database: {:?}", e),
    }
}

#[test]
fn test_destroy_database() {
    let mut dir = Directory::new();
    let database = open_database(&mut dir, "destroy");

    database.close(&mut dir);

    let options = Options::new();
    let res = destroy(&mut dir, "destroy", &options);
    assert!(res.is_ok());
    assert!(!dir.contains("destroy"));
}

#[test]
fn test_repair_database() {
    let mut dir = Directory::new();
    let database = open_database(&mut dir, "repair");

    database.close(&mut dir);

    let options = Options::new();
    let res = repair(&mut dir, "repair", &options);
    assert!(res.is_ok());
    assert!(repair(&mut dir, "elsewhere", &options).is_err());
}

//! Tests of the registry CRUD calls and the transaction wrapper against a
//! real store.

use am::database::entities::Project;
use am::database::migrations::MigrationManager;
use am::database::{
    db_create_project, db_forget_project, db_get_project_by_name, db_get_template_by_name,
    db_get_templates, Database,
};
use am::errors::StoreErrorKind;

fn migrated_db() -> Database {
    let db = Database::new(":memory:").expect("in-memory store must open");
    let (db, res) = MigrationManager::new().run_migrations(db);
    assert!(res.is_ok());
    db
}

fn project(name: &str, path: &str) -> Project {
    Project {
        id: None,
        name: name.to_string(),
        path: path.to_string(),
        registered_at: None,
    }
}

#[test]
fn test_duplicate_name_rejected_then_freed() {
    let mut db = migrated_db();

    // registering a fresh name succeeds
    assert_eq!(db_create_project(&project("alpha", "/a"), &mut db).unwrap(), true);

    // registering the same name with a different path must fail
    match db_create_project(&project("alpha", "/b"), &mut db) {
        Err(e) => assert!(matches!(e.kind, StoreErrorKind::Duplicate)),
        Ok(_) => panic!("second registration of the same name must fail"),
    }

    // after unregistering, the same name registers again
    assert_eq!(db_forget_project("alpha", &mut db).unwrap(), true);
    assert_eq!(db_create_project(&project("alpha", "/b"), &mut db).unwrap(), true);
    let found = db_get_project_by_name("alpha", &db).unwrap().unwrap();
    assert_eq!(found.path, "/b");
}

#[test]
fn test_project_lookup_roundtrip() {
    let mut db = migrated_db();
    assert!(db_get_project_by_name("beta", &db).unwrap().is_none());

    db_create_project(&project("beta", "/b"), &mut db).unwrap();
    let p = db_get_project_by_name("beta", &db).unwrap().expect("row must exist");
    assert_eq!(p.name, "beta");
    assert_eq!(p.path, "/b");
    assert!(p.id.is_some(), "the store assigns an id");
    assert!(p.registered_at.is_some(), "the store assigns a timestamp");

    assert_eq!(db_forget_project("beta", &mut db).unwrap(), true);
    assert!(db_get_project_by_name("beta", &db).unwrap().is_none());
    // forgetting again reports that nothing went
    assert_eq!(db_forget_project("beta", &mut db).unwrap(), false);
}

#[test]
fn test_templates_query_and_lookup() {
    let mut db = migrated_db();
    assert_eq!(db_get_templates(&db).unwrap().len(), 0);

    db.execute("INSERT INTO templates (name, path) VALUES ('o3de', '/templates/o3de')")
        .unwrap();
    let all = db_get_templates(&db).unwrap();
    assert_eq!(all.len(), 1);
    assert_eq!(all[0].name, "o3de");
    assert_eq!(all[0].path, "/templates/o3de");
    assert!(all[0].id.is_some());

    let one = db_get_template_by_name("o3de", &db).unwrap().expect("row must exist");
    assert_eq!(one.path, "/templates/o3de");
    assert!(db_get_template_by_name("missing", &db).unwrap().is_none());
}

#[test]
fn test_create_project_without_schema_fails() {
    // before any migration ran there is no projects table
    let mut db = Database::new(":memory:").unwrap();
    match db_create_project(&project("alpha", "/a"), &mut db) {
        Err(e) => assert!(matches!(e.kind, StoreErrorKind::Other)),
        Ok(_) => panic!("insert into a missing table must fail"),
    }
}

#[test]
fn test_failing_batch_leaves_no_partial_schema() {
    // a batch whose later statement fails must leave nothing behind once
    // the transaction rolls back: the table its first statement created
    // does not exist afterward
    let db = migrated_db();
    let mut tx = db.transaction().map_err(|_| "begin failed").unwrap();
    let res = tx.execute_batch(
        "CREATE TABLE atom_probe (id INTEGER); INSERT INTO no_such_table VALUES (1);",
    );
    assert!(res.is_err(), "the second statement must fail");
    let (mut db, rb) = tx.rollback();
    assert!(rb.is_ok());
    assert!(
        db.execute("INSERT INTO atom_probe (id) VALUES (1)").is_err(),
        "the probe table must not exist after rollback"
    );
}

#[test]
fn test_transaction_commit_persists_record() {
    let db = migrated_db();
    let mut tx = db.transaction().map_err(|_| "begin failed").unwrap();
    tx.record_migration(9, "probe", "sum9").unwrap();
    let (db, res) = tx.commit();
    assert!(res.is_ok());
    let records = db.migration_records().unwrap();
    assert_eq!(records.len(), 5);
    assert!(records.iter().any(|r| r.version == 9 && r.checksum == "sum9"));
}

#[test]
fn test_transaction_rollback_discards_record() {
    let db = migrated_db();
    let mut tx = db.transaction().map_err(|_| "begin failed").unwrap();
    tx.record_migration(9, "probe", "sum9").unwrap();
    let (db, res) = tx.rollback();
    assert!(res.is_ok());
    assert_eq!(db.migration_records().unwrap().len(), 4);
}

#[test]
fn test_uncommitted_transaction_discarded_on_drop() {
    // write a row inside a transaction, drop the handle without committing,
    // and the row count is unchanged from before the transaction
    let path = "/tmp/am_store_rollback_probe.db";
    let db = Database::new(path).expect("file-backed store must open");
    let (db, res) = MigrationManager::new().run_migrations(db);
    assert!(res.is_ok());
    let count_before = db.migration_records().unwrap().len();
    assert_eq!(count_before, 4);

    let mut tx = db.transaction().map_err(|_| "begin failed").unwrap();
    tx.record_migration(7, "never committed", "sum7").unwrap();
    drop(tx);

    let db = Database::new(path).expect("store must reopen");
    let records = db.migration_records().unwrap();
    assert_eq!(records.len(), count_before);
    assert!(records.iter().all(|r| r.version != 7));
}

#[test]
fn test_record_migration_rejects_duplicate_version() {
    let db = migrated_db();
    let mut tx = db.transaction().map_err(|_| "begin failed").unwrap();
    match tx.record_migration(4, "again", "sum") {
        Err(e) => assert!(matches!(e.kind, StoreErrorKind::Duplicate)),
        Ok(_) => panic!("recording an already-recorded version must fail"),
    }
    let (_db, _res) = tx.rollback();
}

#[test]
fn test_database_remembers_path() {
    let db = Database::new(":memory:").unwrap();
    assert_eq!(db.path(), ":memory:");
    db.close();
}

//! Tests of the migration engine against a real store.

use am::database::migrations::{MigrationManager, RollbackError, VerifyIssue};
use am::database::Database;

fn fresh_db() -> Database {
    Database::new(":memory:").expect("in-memory store must open")
}

fn migrated_db() -> Database {
    let manager = MigrationManager::new();
    let (db, res) = manager.run_migrations(fresh_db());
    assert!(res.is_ok(), "fresh run must succeed");
    db
}

#[test]
fn test_get_current_version_fresh_is_zero() {
    let manager = MigrationManager::new();
    let db = fresh_db();
    assert_eq!(manager.get_current_version(&db).unwrap(), 0);
}

#[test]
fn test_fresh_store_runs_catalog() {
    // fresh store (version 0) + catalog of 4 migrations: after `run`, the
    // version table holds exactly 4 rows with versions 1,2,3,4 in order,
    // each with a non-empty checksum
    let manager = MigrationManager::new();
    let db = migrated_db();
    let records = db.migration_records().unwrap();
    assert_eq!(records.len(), 4);
    for (i, rec) in records.iter().enumerate() {
        assert_eq!(rec.version as usize, i + 1);
        assert!(!rec.checksum.is_empty(), "checksum must not be empty");
        assert!(!rec.description.is_empty());
        assert!(!rec.applied_at.is_empty());
    }
    assert_eq!(manager.get_current_version(&db).unwrap(), 4);
}

#[test]
fn test_run_migrations_twice_idempotent() {
    // running the engine twice yields an identical final version and an
    // unchanged record count after the second run
    let manager = MigrationManager::new();
    let db = migrated_db();
    let version_after_first = manager.get_current_version(&db).unwrap();
    let count_after_first = db.migration_records().unwrap().len();

    let (db, res) = manager.run_migrations(db);
    assert!(res.is_ok(), "second run must succeed");
    assert_eq!(manager.get_current_version(&db).unwrap(), version_after_first);
    assert_eq!(db.migration_records().unwrap().len(), count_after_first);
}

#[test]
fn test_checksums_differ_across_migrations() {
    let db = migrated_db();
    let records = db.migration_records().unwrap();
    assert_ne!(records[0].checksum, records[1].checksum);
    assert_ne!(records[1].checksum, records[2].checksum);
}

#[test]
fn test_verify_after_run_is_clean() {
    let manager = MigrationManager::new();
    let db = migrated_db();
    assert!(manager.verify_migrations(&db).is_ok());
}

#[test]
fn test_verify_detects_tampered_checksum() {
    // editing what was applied must be reported, never silently accepted
    let manager = MigrationManager::new();
    let mut db = migrated_db();
    db.execute("UPDATE schema_migrations SET checksum = 'tampered' WHERE version = 2")
        .unwrap();
    match manager.verify_migrations(&db) {
        Err(VerifyIssue::Modified { version, expected, found }) => {
            assert_eq!(version, 2);
            assert_eq!(found, "tampered");
            assert!(!expected.is_empty());
            assert_ne!(expected, found);
        },
        other => panic!("expected a checksum mismatch report, got {:?}", other.is_ok()),
    }
}

#[test]
fn test_verify_detects_unknown_version() {
    let manager = MigrationManager::new();
    let mut db = migrated_db();
    db.execute(
        "INSERT INTO schema_migrations (version, description, checksum) VALUES (99, 'ghost', 'x')",
    )
    .unwrap();
    match manager.verify_migrations(&db) {
        Err(VerifyIssue::Unknown { version }) => assert_eq!(version, 99),
        other => panic!("expected an unknown-version report, got {:?}", other.is_ok()),
    }
}

#[test]
fn test_rollback_last_migration() {
    let manager = MigrationManager::new();
    let db = migrated_db();
    let (db, res) = manager.rollback_migration(db, 4);
    assert!(res.is_ok(), "migration 4 defines backward statements");
    assert_eq!(manager.get_current_version(&db).unwrap(), 3);
    assert_eq!(db.migration_records().unwrap().len(), 3);
}

#[test]
fn test_rollback_unknown_version_not_found() {
    let manager = MigrationManager::new();
    let db = migrated_db();
    let (db, res) = manager.rollback_migration(db, 99);
    assert!(matches!(res, Err(RollbackError::NotFound)));
    assert_eq!(db.migration_records().unwrap().len(), 4);
}

#[test]
fn test_rollback_first_migration_fails_closed() {
    // migration 1's backward statements drop the tracking table itself, so
    // deleting its record afterward fails and the transaction rolls back:
    // the records survive
    let manager = MigrationManager::new();
    let db = migrated_db();
    let (db, res) = manager.rollback_migration(db, 1);
    assert!(matches!(res, Err(RollbackError::Store(_))));
    assert_eq!(db.migration_records().unwrap().len(), 4);
}

#[test]
fn test_pending_migrations_shrink_after_run() {
    let manager = MigrationManager::new();
    let db = fresh_db();
    let pending = manager.get_pending_migrations(&db).unwrap();
    assert_eq!(pending.len(), 4);
    assert_eq!(pending[0].version, 1);
    assert_eq!(pending[3].version, 4);

    let (db, res) = manager.run_migrations(db);
    assert!(res.is_ok());
    assert_eq!(manager.get_pending_migrations(&db).unwrap().len(), 0);
}

#[test]
fn test_migration_manager_catalog() {
    let manager = MigrationManager::new();
    let migrations = manager.get_migrations();
    assert_eq!(migrations.len(), 4);
    for (i, m) in migrations.iter().enumerate() {
        assert_eq!(m.version as usize, i + 1);
        assert!(m.down_sql.is_some(), "every shipped migration can be rolled back");
        assert!(!m.up_sql.is_empty());
    }
    assert_eq!(migrations[0].description, "Initial schema - create migrations table");
    assert_eq!(migrations[1].description, "Create projects table");
    assert_eq!(migrations[2].description, "Create templates table");
    assert_eq!(migrations[3].description, "Create configuration table");
}

#[test]
fn test_check_records_accepts_what_the_run_wrote() {
    let manager = MigrationManager::new();
    let db = migrated_db();
    let records = db.migration_records().unwrap();
    assert!(manager.check_records(&records).is_ok());
}

#[test]
fn test_run_failure_names_first_unapplied_version() {
    // seed a store that already records version 2 but lacks the projects
    // table that migration 3's statements refer to: applying migration 3
    // fails, and the failure names version 3
    let mut db = fresh_db();
    db.execute_batch(am::database::migrations::MIG1_UP).unwrap();
    db.execute(
        "INSERT INTO schema_migrations (version, description, checksum) VALUES (2, 'seeded', 'x')",
    )
    .unwrap();
    let manager = MigrationManager::new();
    let (db, res) = manager.run_migrations(db);
    match res {
        Err(failure) => {
            assert_eq!(failure.version, 3);
            let msg = failure.into_app_error().message();
            assert!(msg.contains("migration 3"));
        },
        Ok(()) => panic!("the run must fail on migration 3's statements"),
    }
    // the aborted run recorded nothing further
    let records = db.migration_records().unwrap();
    assert_eq!(records.len(), 1);
    assert_eq!(records[0].version, 2);
}

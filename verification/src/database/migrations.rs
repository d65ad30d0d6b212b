//! The schema-migration engine: an ordered, checksummed catalog of schema
//! changes, applied transactionally and exactly once each, in order.

use vstd::prelude::*;
use std::collections::hash_map::DefaultHasher;
use std::hash::{Hash, Hasher};
use crate::database::{
    Database, MigrationRecord, RecModel, has_version, sorted_insert, spec_max_version,
    versions_sorted, without_version,
};
use crate::errors::StoreError;

verus! {

/// Forward statements of migration 1: create the migration-tracking table.
pub const MIG1_UP: &'static str = r#"
                    CREATE TABLE IF NOT EXISTS schema_migrations (
                        version INTEGER PRIMARY KEY NOT NULL,
                        description TEXT NOT NULL,
                        applied_at DATETIME NOT NULL DEFAULT CURRENT_TIMESTAMP,
                        checksum TEXT NOT NULL
                    );

                    CREATE INDEX IF NOT EXISTS idx_migrations_applied_at
                    ON schema_migrations(applied_at);
                "#;

/// Backward statements of migration 1: drop the migration-tracking table.
pub const MIG1_DOWN: &'static str = "DROP TABLE IF EXISTS schema_migrations;";

/// Forward statements of migration 2: create the projects table.
pub const MIG2_UP: &'static str = r#"
                    CREATE TABLE IF NOT EXISTS projects (
                        id INTEGER PRIMARY KEY AUTOINCREMENT,
                        name TEXT NOT NULL UNIQUE,
                        path TEXT NOT NULL,
                        template TEXT,
                        created_at DATETIME NOT NULL DEFAULT CURRENT_TIMESTAMP,
                        updated_at DATETIME NOT NULL DEFAULT CURRENT_TIMESTAMP,
                        metadata TEXT -- JSON data for additional project info
                    );

                    CREATE INDEX IF NOT EXISTS idx_projects_name ON projects(name);
                    CREATE INDEX IF NOT EXISTS idx_projects_created_at ON projects(created_at);

                    -- Trigger to update updated_at on row update
                    CREATE TRIGGER IF NOT EXISTS update_projects_updated_at
                    AFTER UPDATE ON projects
                    BEGIN
                        UPDATE projects SET updated_at = CURRENT_TIMESTAMP
                        WHERE id = NEW.id;
                    END;
                "#;

/// Backward statements of migration 2: drop the projects table.
pub const MIG2_DOWN: &'static str = "DROP TABLE IF EXISTS projects;";

/// Forward statements of migration 3: create the templates table.
pub const MIG3_UP: &'static str = r#"
                    CREATE TABLE IF NOT EXISTS templates (
                        id INTEGER PRIMARY KEY AUTOINCREMENT,
                        name TEXT NOT NULL UNIQUE,
                        path TEXT NOT NULL,
                        created_at DATETIME NOT NULL DEFAULT CURRENT_TIMESTAMP,
                        updated_at DATETIME NOT NULL DEFAULT CURRENT_TIMESTAMP,
                        metadata TEXT -- JSON data for additional project info
                    );

                    CREATE INDEX IF NOT EXISTS idx_projects_name ON projects(name);
                    CREATE INDEX IF NOT EXISTS idx_projects_created_at ON projects(created_at);

                    -- Trigger to update updated_at on row update
                    CREATE TRIGGER IF NOT EXISTS update_projects_updated_at
                    AFTER UPDATE ON projects
                    BEGIN
                        UPDATE projects SET updated_at = CURRENT_TIMESTAMP
                        WHERE id = NEW.id;
                    END;
                "#;

/// Backward statements of migration 3, as shipped: they drop the projects
/// table, not the templates table.
pub const MIG3_DOWN: &'static str = "DROP TABLE IF EXISTS projects;";

/// Forward statements of migration 4: create the configuration table and its
/// default rows.
pub const MIG4_UP: &'static str = r#"
                    CREATE TABLE IF NOT EXISTS configuration (
                        key TEXT PRIMARY KEY NOT NULL,
                        value TEXT NOT NULL,
                        type TEXT NOT NULL CHECK(type IN ('string', 'number', 'boolean', 'json')),
                        description TEXT,
                        created_at DATETIME NOT NULL DEFAULT CURRENT_TIMESTAMP,
                        updated_at DATETIME NOT NULL DEFAULT CURRENT_TIMESTAMP
                    );

                    CREATE INDEX IF NOT EXISTS idx_configuration_updated_at
                    ON configuration(updated_at);

                    -- Trigger to update updated_at on row update
                    CREATE TRIGGER IF NOT EXISTS update_configuration_updated_at
                    AFTER UPDATE ON configuration
                    BEGIN
                        UPDATE configuration SET updated_at = CURRENT_TIMESTAMP
                        WHERE key = NEW.key;
                    END;

                    -- Insert default configuration values
                    INSERT OR IGNORE INTO configuration (key, value, type, description)
                    VALUES
                        ('version', '0.1.0', 'string', 'CLI tool version'),
                        ('auto_update', 'true', 'boolean', 'Enable automatic updates check'),
                        ('telemetry_enabled', 'false', 'boolean', 'Enable anonymous usage telemetry');
                "#;

/// Backward statements of migration 4: drop the configuration table.
pub const MIG4_DOWN: &'static str = "DROP TABLE IF EXISTS configuration;";

/// The statement batch is one of the catalog's forward or backward batches.
pub open spec fn catalog_statement(sql: Seq<char>) -> bool {
    ||| sql == MIG1_UP@
    ||| sql == MIG1_DOWN@
    ||| sql == MIG2_UP@
    ||| sql == MIG2_DOWN@
    ||| sql == MIG3_UP@
    ||| sql == MIG3_DOWN@
    ||| sql == MIG4_UP@
    ||| sql == MIG4_DOWN@
}

/// The statement batch leaves the rows of the migration-tracking table as
/// they are: every catalog forward batch (migration 1's creates the tracking
/// table when absent, which adds no rows), and every backward batch but
/// migration 1's, which drops the tracking table itself.
pub open spec fn preserves_tracking_rows(sql: Seq<char>) -> bool {
    ||| sql == MIG1_UP@
    ||| sql == MIG2_UP@
    ||| sql == MIG3_UP@
    ||| sql == MIG4_UP@
    ||| sql == MIG2_DOWN@
    ||| sql == MIG3_DOWN@
    ||| sql == MIG4_DOWN@
}

/// The statement batch removes the migration-tracking table and with it every
/// recorded migration row.
pub open spec fn clears_tracking_rows(sql: Seq<char>) -> bool {
    sql == MIG1_DOWN@
}

/// The statement batch leaves the rows of the projects table as they are:
/// every catalog batch except the backward statements of migrations 2 and 3,
/// both of which (as shipped) drop the projects table.
pub open spec fn preserves_registry_rows(sql: Seq<char>) -> bool {
    ||| sql == MIG1_UP@
    ||| sql == MIG2_UP@
    ||| sql == MIG3_UP@
    ||| sql == MIG4_UP@
    ||| sql == MIG1_DOWN@
    ||| sql == MIG4_DOWN@
}

/// A single schema change: an integer version, a description, forward
/// statements, and optional backward statements.
pub struct Migration {
    /// Version number of the migration
    pub version: u32,
    /// Description of what this migration does
    pub description: String,
    /// SQL to execute for the migration
    pub up_sql: String,
    /// Optional SQL to rollback the migration
    pub down_sql: Option<String>,
}

/// The ghost view of a catalog entry.
pub ghost struct MigrationModel {
    pub version: u32,
    pub description: Seq<char>,
    pub up_sql: Seq<char>,
    pub down_sql: Option<Seq<char>>,
}

/// The view of an optional string.
pub open spec fn opt_str_view(o: Option<String>) -> Option<Seq<char>> {
    match o {
        Some(s) => Some(s@),
        None => None,
    }
}

impl Migration {
    /// The ghost view of this catalog entry.
    pub open spec fn model(self) -> MigrationModel {
        MigrationModel {
            version: self.version,
            description: self.description@,
            up_sql: self.up_sql@,
            down_sql: opt_str_view(self.down_sql),
        }
    }
}

/// The checksum recorded for a migration: a digest over its version,
/// description, forward statements and backward statements, as rendered by
/// `calculate_checksum`.
pub uninterp spec fn checksum_of(
    version: u32,
    description: Seq<char>,
    up_sql: Seq<char>,
    down_sql: Option<Seq<char>>,
) -> Seq<char>;

/// The checksum of a catalog entry.
pub open spec fn checksum_of_model(m: MigrationModel) -> Seq<char> {
    checksum_of(m.version, m.description, m.up_sql, m.down_sql)
}

/// Calculate the checksum recorded for a migration.
///
/// Relies on std's `DefaultHasher`: instances created through `new` hash
/// identically, so the digest depends on the hashed fields alone; the
/// `{:x}` rendering of the 64-bit digest is never empty. std does not
/// promise the algorithm across Rust releases, so a store written by a
/// differently-built binary can verify as modified even with an untouched
/// catalog.
#[verifier::external_body]
fn calculate_checksum(
    version: u32,
    description: &str,
    up_sql: &str,
    down_sql: &Option<String>,
) -> (r: String)
    ensures
        r@ == checksum_of(version, description@, up_sql@, opt_str_view(*down_sql)),
        r@.len() > 0,
{
    let mut hasher = DefaultHasher::new();
    version.hash(&mut hasher);
    description.hash(&mut hasher);
    up_sql.hash(&mut hasher);
    if let Some(down) = down_sql {
        down.hash(&mut hasher);
    }
    format!("{:x}", hasher.finish())
}

/// The record that applying a catalog entry leaves in the tracking table.
pub open spec fn rec_of(m: MigrationModel) -> RecModel {
    RecModel { version: m.version, description: m.description, checksum: checksum_of_model(m) }
}

/// The catalog, as shipped: four migrations, versions 1 through 4.
pub open spec fn catalog_model() -> Seq<MigrationModel> {
    seq![
        (MigrationModel {
            version: 1u32,
            description: "Initial schema - create migrations table"@,
            up_sql: MIG1_UP@,
            down_sql: Some(MIG1_DOWN@),
        }),
        (MigrationModel {
            version: 2u32,
            description: "Create projects table"@,
            up_sql: MIG2_UP@,
            down_sql: Some(MIG2_DOWN@),
        }),
        (MigrationModel {
            version: 3u32,
            description: "Create templates table"@,
            up_sql: MIG3_UP@,
            down_sql: Some(MIG3_DOWN@),
        }),
        (MigrationModel {
            version: 4u32,
            description: "Create configuration table"@,
            up_sql: MIG4_UP@,
            down_sql: Some(MIG4_DOWN@),
        }),
    ]
}

/// Manages the ordered catalog of migrations.
pub struct MigrationManager {
    migrations: Vec<Migration>,
}

impl MigrationManager {
    /// The ghost view of the catalog this manager holds.
    pub closed spec fn catalog(self) -> Seq<MigrationModel> {
        self.migrations@.map_values(|m: Migration| m.model())
    }

    /// The manager holds exactly the shipped catalog.
    pub open spec fn wf(self) -> bool {
        self.catalog() == catalog_model()
    }

    /// Create a new migration manager holding the shipped catalog.
    pub fn new() -> (r: MigrationManager)
        ensures
            r.wf(),
    {
        let mut migrations: Vec<Migration> = Vec::new();
        migrations.push(Migration {
            version: 1,
            description: "Initial schema - create migrations table".to_owned(),
            up_sql: MIG1_UP.to_owned(),
            down_sql: Some(MIG1_DOWN.to_owned()),
        });
        migrations.push(Migration {
            version: 2,
            description: "Create projects table".to_owned(),
            up_sql: MIG2_UP.to_owned(),
            down_sql: Some(MIG2_DOWN.to_owned()),
        });
        migrations.push(Migration {
            version: 3,
            description: "Create templates table".to_owned(),
            up_sql: MIG3_UP.to_owned(),
            down_sql: Some(MIG3_DOWN.to_owned()),
        });
        migrations.push(Migration {
            version: 4,
            description: "Create configuration table".to_owned(),
            up_sql: MIG4_UP.to_owned(),
            down_sql: Some(MIG4_DOWN.to_owned()),
        });
        let r = MigrationManager { migrations };
        proof {
            assert(r.catalog() =~= catalog_model());
        }
        r
    }

    /// The catalog entries, ordered by version.
    pub fn get_migrations(&self) -> (r: &Vec<Migration>)
        ensures
            r@.map_values(|m: Migration| m.model()) == self.catalog(),
    {
        &self.migrations
    }

    /// Determine the store's current schema version: 0 when the
    /// migration-tracking table does not exist, the largest recorded version
    /// otherwise.
    pub fn get_current_version(&self, db: &Database) -> (r: Result<u32, StoreError>)
        ensures
            r matches Ok(v) ==> v as int == spec_max_version(db.records())
                && versions_sorted(db.records()),
    {
        match db.tracking_table_exists() {
            Ok(false) => Ok(0),
            Ok(true) => db.max_recorded_version(),
            Err(e) => Err(e),
        }
    }
}

impl Default for MigrationManager {
    /// The shipped catalog.
    fn default() -> (r: MigrationManager)
        ensures
            r.wf(),
    {
        MigrationManager::new()
    }
}

/// The catalog entries still to apply at current version `cur`.
pub open spec fn is_pending(cur: int) -> spec_fn(MigrationModel) -> bool {
    |m: MigrationModel| m.version > cur
}

/// The catalog entries with version greater than `cur`, in catalog order.
pub open spec fn pending_of(cat: Seq<MigrationModel>, cur: int) -> Seq<MigrationModel> {
    cat.filter(is_pending(cur))
}

/// The pending entries among the first `i` catalog entries.
pub open spec fn pending_prefix(cat: Seq<MigrationModel>, cur: int, i: int) -> Seq<MigrationModel> {
    cat.subrange(0, i).filter(is_pending(cur))
}

/// The records that applying these entries leaves behind.
pub open spec fn recs_of(ms: Seq<MigrationModel>) -> Seq<RecModel> {
    ms.map_values(|m: MigrationModel| rec_of(m))
}

/// The catalog's versions are strictly increasing along the sequence.
pub open spec fn models_sorted(cat: Seq<MigrationModel>) -> bool {
    forall|i: int, j: int| 0 <= i < j < cat.len() ==> cat[i].version < cat[j].version
}

/// The recorded migrations after a run that brings `recs` up to date with
/// `cat`: the pending entries' records, appended in order.
pub open spec fn spec_run_result(cat: Seq<MigrationModel>, recs: Seq<RecModel>) -> Seq<RecModel> {
    recs + recs_of(pending_of(cat, spec_max_version(recs)))
}

/// The shipped catalog's entry `i` has version `i + 1`, forward statements
/// that preserve the tracking rows, and backward statements.
proof fn lemma_catalog_entry_facts(i: int)
    requires
        0 <= i < catalog_model().len(),
    ensures
        preserves_tracking_rows(catalog_model()[i].up_sql),
        catalog_model()[i].version == i + 1,
        catalog_model()[i].down_sql is Some,
{
    if i == 0 {
        assert(catalog_model()[0].up_sql == MIG1_UP@);
    } else if i == 1 {
        assert(catalog_model()[1].up_sql == MIG2_UP@);
    } else if i == 2 {
        assert(catalog_model()[2].up_sql == MIG3_UP@);
    } else {
        assert(catalog_model()[3].up_sql == MIG4_UP@);
    }
}

/// The shipped catalog's entry `i` has backward statements; migration 1's
/// drop the tracking table itself, every other entry's leave its rows alone.
proof fn lemma_catalog_down_facts(i: int)
    requires
        0 <= i < catalog_model().len(),
    ensures
        catalog_model()[i].down_sql is Some,
        i == 0 ==> (catalog_model()[i].down_sql matches Some(d) && clears_tracking_rows(d)),
        i != 0 ==> (catalog_model()[i].down_sql matches Some(d) && preserves_tracking_rows(d)),
{
    if i == 0 {
        assert(catalog_model()[0].down_sql == Some(MIG1_DOWN@));
    } else if i == 1 {
        assert(catalog_model()[1].down_sql == Some(MIG2_DOWN@));
    } else if i == 2 {
        assert(catalog_model()[2].down_sql == Some(MIG3_DOWN@));
    } else {
        assert(catalog_model()[3].down_sql == Some(MIG4_DOWN@));
    }
}

/// The shipped catalog's versions are strictly increasing.
proof fn lemma_catalog_sorted()
    ensures
        models_sorted(catalog_model()),
        catalog_model().len() == 4,
{
    assert forall|i: int, j: int| 0 <= i < j < catalog_model().len() implies
        catalog_model()[i].version < catalog_model()[j].version by {
        lemma_catalog_entry_facts(i);
        lemma_catalog_entry_facts(j);
    }
}

/// No recorded version exceeds the maximum.
proof fn lemma_max_elem(s: Seq<RecModel>, i: int)
    requires
        0 <= i < s.len(),
    ensures
        s[i].version <= spec_max_version(s),
    decreases s.len(),
{
    if i < s.len() - 1 {
        lemma_max_elem(s.drop_last(), i);
    }
}

/// The maximum recorded version is never negative.
proof fn lemma_max_nonneg(s: Seq<RecModel>)
    ensures
        spec_max_version(s) >= 0,
    decreases s.len(),
{
    if s.len() > 0 {
        lemma_max_nonneg(s.drop_last());
    }
}

/// A bound on every recorded version bounds the maximum.
proof fn lemma_max_le(s: Seq<RecModel>, b: int)
    requires
        b >= 0,
        forall|i: int| 0 <= i < s.len() ==> s[i].version <= b,
    ensures
        spec_max_version(s) <= b,
    decreases s.len(),
{
    if s.len() > 0 {
        lemma_max_le(s.drop_last(), b);
    }
}

/// The maximum over a concatenation is the larger of the two maxima.
proof fn lemma_max_concat(a: Seq<RecModel>, b: Seq<RecModel>)
    ensures
        spec_max_version(a + b) == if spec_max_version(a) > spec_max_version(b) {
            spec_max_version(a)
        } else {
            spec_max_version(b)
        },
    decreases b.len(),
{
    if b.len() == 0 {
        assert(a + b =~= a);
        lemma_max_nonneg(a);
    } else {
        assert((a + b).drop_last() =~= a + b.drop_last());
        assert((a + b).last() == b.last());
        lemma_max_concat(a, b.drop_last());
    }
}

/// Inserting a record beyond the maximum of a sorted sequence appends it,
/// keeps the sequence sorted, and makes its version the new maximum.
proof fn lemma_sorted_push(s: Seq<RecModel>, r: RecModel)
    requires
        versions_sorted(s),
        r.version > spec_max_version(s),
    ensures
        sorted_insert(s, r) == s.push(r),
        versions_sorted(s.push(r)),
        spec_max_version(s.push(r)) == r.version,
    decreases s.len(),
{
    lemma_max_nonneg(s);
    if s.len() == 0 {
        assert(sorted_insert(s, r) =~= s.push(r));
    } else {
        lemma_max_elem(s, 0);
        assert forall|i: int| 0 <= i < s.drop_first().len() implies
            s.drop_first()[i].version <= spec_max_version(s) by {
            lemma_max_elem(s, i + 1);
        }
        lemma_max_nonneg(s.drop_first());
        lemma_max_le(s.drop_first(), spec_max_version(s));
        lemma_sorted_push(s.drop_first(), r);
        assert(sorted_insert(s, r) =~= s.push(r));
    }
    assert forall|i: int, j: int| 0 <= i < j < s.push(r).len() implies
        s.push(r)[i].version < s.push(r)[j].version by {
        if j < s.len() {
        } else {
            lemma_max_elem(s, i);
        }
    }
    assert(s.push(r).drop_last() =~= s);
}

/// Every element of a filtered sequence is an element of the sequence.
proof fn lemma_filter_subset(s: Seq<MigrationModel>, pred: spec_fn(MigrationModel) -> bool)
    ensures
        forall|i: int| 0 <= i < s.filter(pred).len() ==> s.contains(#[trigger] s.filter(pred)[i]),
    decreases s.len(),
{
    reveal(Seq::filter);
    if s.len() > 0 {
        lemma_filter_subset(s.drop_last(), pred);
        assert forall|i: int| 0 <= i < s.filter(pred).len() implies
            s.contains(#[trigger] s.filter(pred)[i]) by {
            if i < s.drop_last().filter(pred).len() {
                let x = s.drop_last().filter(pred)[i];
                let w = choose|j: int| 0 <= j < s.drop_last().len() && s.drop_last()[j] == x;
                assert(s[w] == x);
            } else {
                assert(s[s.len() - 1] == s.filter(pred)[i]);
            }
        }
    }
}

/// Filtering one more catalog entry appends it when it satisfies the
/// predicate and changes nothing otherwise.
proof fn lemma_pending_prefix_step(cat: Seq<MigrationModel>, cur: int, i: int)
    requires
        0 <= i < cat.len(),
    ensures
        is_pending(cur)(cat[i]) ==> pending_prefix(cat, cur, i + 1)
            == pending_prefix(cat, cur, i).push(cat[i]),
        !is_pending(cur)(cat[i]) ==> pending_prefix(cat, cur, i + 1)
            == pending_prefix(cat, cur, i),
{
    reveal(Seq::filter);
    assert(cat.subrange(0, i + 1).drop_last() =~= cat.subrange(0, i));
    assert(cat.subrange(0, i + 1).last() == cat[i]);
}

/// A run failure: the version of the migration that could not be applied,
/// and the storage failure that stopped it.
#[derive(Debug)]
pub struct MigrationFailure {
    /// The version of the migration that failed to apply, or 0 when the
    /// store's current version could not be determined at all.
    pub version: u32,
    /// The storage failure that aborted the run.
    pub error: StoreError,
}

impl MigrationFailure {
    /// Surface the failure as an application error naming the failed
    /// version.
    pub fn into_app_error(self) -> (r: crate::errors::AppError)
        ensures
            r matches crate::errors::AppError::Unexpected(m) && m@ == "Failed to apply migration "@
                + crate::presentation::encode::dec_digits(self.version as nat) + ": "@
                + self.error.message@,
    {
        let m = "Failed to apply migration ".to_owned().concat(
            crate::presentation::encode::u32_to_string(self.version).as_str(),
        ).concat(": ").concat(self.error.message.as_str());
        crate::errors::AppError::Unexpected(m)
    }
}

impl MigrationManager {
    /// Apply one migration: begin a transaction, execute the forward
    /// statements, record the migration with its checksum, commit. On any
    /// failure the transaction is rolled back, so the records either stand
    /// as they were or — only when the store accepted every write but the
    /// commit's outcome was left unresolved — already hold the new record.
    fn apply_migration(&self, db: Database, migration: &Migration) -> (r: (
        Database,
        Result<(), StoreError>,
    ))
        requires
            preserves_tracking_rows(migration.up_sql@),
        ensures
            r.1 is Ok ==> !has_version(db.records(), migration.version)
                && versions_sorted(db.records())
                && r.0.records() == sorted_insert(db.records(), rec_of(migration.model())),
            r.1 is Err ==> r.0.records() == db.records()
                || r.0.records() == sorted_insert(db.records(), rec_of(migration.model())),
            r.0.path_spec() == db.path_spec(),
    {
        let tx = match db.transaction() {
            Ok(tx) => tx,
            Err((db, e)) => {
                return (db, Err(e));
            },
        };
        let mut tx = tx;
        match tx.execute_batch(migration.up_sql.as_str()) {
            Ok(()) => {},
            Err(e) => {
                let (db, _) = tx.rollback();
                return (db, Err(e));
            },
        }
        let checksum = calculate_checksum(
            migration.version,
            migration.description.as_str(),
            migration.up_sql.as_str(),
            &migration.down_sql,
        );
        match tx.record_migration(migration.version, migration.description.as_str(), checksum.as_str()) {
            Ok(()) => {},
            Err(e) => {
                let (db, _) = tx.rollback();
                return (db, Err(e));
            },
        }
        let (db, res) = tx.commit();
        match res {
            Ok(()) => (db, Ok(())),
            Err(e) => {
                let mut db = db;
                let _ = db.rollback_raw();
                (db, Err(e))
            },
        }
    }

    /// Bring the store from whatever version it is at to the latest
    /// cataloged version: apply every pending migration in ascending order,
    /// each in its own transaction. On success the recorded migrations are
    /// the old records followed by one record per pending catalog entry. A
    /// failure aborts the whole run, leaving the records extended by some
    /// prefix of the pending entries, and names the version that failed: 0
    /// when the current version could not be read at all, and otherwise the
    /// pending entry at the prefix boundary — the first unapplied one, or
    /// the one whose record went in but whose commit was left unresolved.
    #[verifier::loop_isolation(false)]
    pub fn run_migrations(&self, db: Database) -> (r: (Database, Result<(), MigrationFailure>))
        requires
            self.wf(),
        ensures
            r.1 is Ok ==> r.0.records() == spec_run_result(catalog_model(), db.records()),
            r.1 matches Err(e) ==> exists|k: int|
                0 <= k <= pending_of(catalog_model(), spec_max_version(db.records())).len()
                    && r.0.records() == db.records() + recs_of(
                    #[trigger] pending_of(catalog_model(), spec_max_version(db.records())).subrange(0, k),
                ) && ((k == 0 && e.version == 0) || (k < pending_of(
                    catalog_model(),
                    spec_max_version(db.records()),
                ).len() && e.version == pending_of(
                    catalog_model(),
                    spec_max_version(db.records()),
                )[k].version) || (k > 0 && e.version == pending_of(
                    catalog_model(),
                    spec_max_version(db.records()),
                )[k - 1].version)),
            r.0.path_spec() == db.path_spec(),
    {
        let ghost cat = catalog_model();
        let ghost recs0 = db.records();
        let ghost path0 = db.path_spec();
        let mut db = db;
        let current = match self.get_current_version(&db) {
            Ok(v) => v,
            Err(e) => {
                proof {
                    assert(db.records() + recs_of(pending_of(cat, spec_max_version(recs0)).subrange(0, 0))
                        =~= recs0);
                }
                return (db, Err(MigrationFailure { version: 0, error: e }));
            },
        };
        let ghost cur = current as int;
        proof {
            lemma_catalog_sorted();
        }
        let n = self.migrations.len();
        let mut i: usize = 0;
        while i < n
            invariant
                self.wf(),
                n == self.migrations@.len(),
                n == cat.len(),
                cat == catalog_model(),
                0 <= i <= n,
                cur == current as int,
                cur == spec_max_version(recs0),
                versions_sorted(recs0),
                db.records() == recs0 + recs_of(pending_prefix(cat, cur, i as int)),
                versions_sorted(db.records()),
                forall|j: int| 0 <= j < pending_prefix(cat, cur, i as int).len()
                    ==> (#[trigger] pending_prefix(cat, cur, i as int)[j].version as int) <= i as int,
                db.path_spec() == path0,
            decreases n - i,
        {
            proof {
                lemma_catalog_entry_facts(i as int);
            }
            let migration = &self.migrations[i];
            proof {
                assert(migration.model() == self.catalog()[i as int]);
            }
            if migration.version > current {
                let ghost pend_i = pending_prefix(cat, cur, i as int);
                proof {
                    // the version to apply exceeds everything recorded so far
                    lemma_max_concat(recs0, recs_of(pend_i));
                    assert forall|j: int| 0 <= j < recs_of(pend_i).len() implies
                        (#[trigger] recs_of(pend_i)[j].version as int) <= i as int by {
                        assert(pend_i[j].version as int <= i as int);
                    }
                    lemma_max_nonneg(recs_of(pend_i));
                    lemma_max_le(recs_of(pend_i), i as int);
                }
                let (db2, res) = self.apply_migration(db, migration);
                db = db2;
                match res {
                    Ok(()) => {
                        proof {
                            lemma_sorted_push(
                                recs0 + recs_of(pend_i),
                                rec_of(migration.model()),
                            );
                            lemma_pending_prefix_step(cat, cur, i as int);
                            assert(recs_of(pend_i.push(cat[i as int]))
                                =~= recs_of(pend_i).push(rec_of(cat[i as int])));
                            assert((recs0 + recs_of(pend_i)).push(rec_of(cat[i as int]))
                                =~= recs0 + recs_of(pend_i).push(rec_of(cat[i as int])));
                            assert forall|j: int| 0 <= j < pending_prefix(cat, cur, i as int + 1).len()
                                implies (#[trigger] pending_prefix(cat, cur, i as int + 1)[j].version as int)
                                    <= i as int + 1 by {
                                if j < pend_i.len() {
                                    assert(pending_prefix(cat, cur, i as int + 1)[j] == pend_i[j]);
                                }
                            }
                        }
                    },
                    Err(e) => {
                        proof {
                            lemma_pending_prefix_of(cat, cur, i as int);
                            lemma_pending_prefix_of(cat, cur, i as int + 1);
                            lemma_pending_prefix_step(cat, cur, i as int);
                            let ghost k1 = pend_i.len() as int;
                            // the failed entry stands at the prefix boundary
                            assert(pending_prefix(cat, cur, i as int + 1)
                                == pending_of(cat, cur).subrange(0, k1 + 1));
                            assert(k1 + 1 <= pending_of(cat, cur).len());
                            assert(pending_of(cat, cur).subrange(0, k1 + 1)[k1] == cat[i as int]);
                            assert(pending_of(cat, cur)[k1] == cat[i as int]);
                            assert(db.records() == recs0 + recs_of(pending_of(cat, cur).subrange(0, k1))
                                || db.records() == recs0 + recs_of(pending_of(cat, cur).subrange(0, k1 + 1)))
                            by {
                                if db.records() == recs0 + recs_of(pend_i) {
                                    assert(pend_i == pending_of(cat, cur).subrange(0, k1));
                                } else {
                                    lemma_sorted_push(recs0 + recs_of(pend_i), rec_of(migration.model()));
                                    assert(pending_prefix(cat, cur, i as int + 1)
                                        == pending_of(cat, cur).subrange(0, k1 + 1));
                                    assert(recs_of(pend_i.push(cat[i as int]))
                                        =~= recs_of(pend_i).push(rec_of(cat[i as int])));
                                    assert((recs0 + recs_of(pend_i)).push(rec_of(cat[i as int]))
                                        =~= recs0 + recs_of(pend_i).push(rec_of(cat[i as int])));
                                }
                            }
                        }
                        return (db, Err(MigrationFailure { version: migration.version, error: e }));
                    },
                }
            } else {
                proof {
                    lemma_pending_prefix_step(cat, cur, i as int);
                }
            }
            i += 1;
        }
        proof {
            assert(cat.subrange(0, n as int) =~= cat);
        }
        (db, Ok(()))
    }
}

/// Some catalog entry carries this version.
pub open spec fn spec_catalog_has_version(cat: Seq<MigrationModel>, v: u32) -> bool {
    exists|j: int| 0 <= j < cat.len() && cat[j].version == v
}

/// The recorded row matches the catalog: some catalog entry carries its
/// version, and recomputing that entry's checksum gives the recorded one.
pub open spec fn record_matches(cat: Seq<MigrationModel>, rec: RecModel) -> bool {
    exists|j: int|
        0 <= j < cat.len() && cat[j].version == rec.version && checksum_of_model(cat[j])
            == rec.checksum
}

/// Every recorded row matches the catalog.
pub open spec fn all_records_match(cat: Seq<MigrationModel>, recs: Seq<RecModel>) -> bool {
    forall|i: int| 0 <= i < recs.len() ==> record_matches(cat, #[trigger] recs[i])
}

/// The ghost models of rows read back from the tracking table.
pub open spec fn rec_models_of(rows: Seq<MigrationRecord>) -> Seq<RecModel> {
    rows.map_values(|row: MigrationRecord| row.rec_model())
}

/// What checksum verification found wrong.
#[derive(Debug)]
pub enum VerifyIssue {
    /// A recorded migration's checksum differs from the one recomputed from
    /// the catalog entry of the same version: the catalog was edited after
    /// this migration was applied.
    Modified {
        /// The version whose checksums disagree.
        version: u32,
        /// The checksum recomputed from the catalog entry of this version.
        expected: String,
        /// The checksum the store recorded when the migration was applied.
        found: String,
    },
    /// A version is recorded that no catalog entry carries.
    Unknown {
        /// The recorded version missing from the catalog.
        version: u32,
    },
    /// The recorded migrations could not be read at all.
    Store(StoreError),
}

/// Why a migration could not be rolled back.
#[derive(Debug)]
pub enum RollbackError {
    /// No catalog entry carries the requested version.
    NotFound,
    /// The catalog entry defines no backward statements.
    Unsupported,
    /// The store failed while rolling back.
    Store(StoreError),
}

impl MigrationManager {
    /// Hold rows read from the tracking table against the catalog: returns
    /// `Ok` exactly when every row's checksum equals the one recomputed from
    /// the catalog entry of its version, and otherwise reports an offending
    /// row — its version and, for an edited entry, both checksums —
    /// distinguishing an edited entry from a version the catalog does not
    /// know at all.
    #[verifier::loop_isolation(false)]
    pub fn check_records(&self, records: &Vec<MigrationRecord>) -> (r: Result<(), VerifyIssue>)
        requires
            self.wf(),
        ensures
            r is Ok <==> all_records_match(self.catalog(), rec_models_of(records@)),
            r matches Err(VerifyIssue::Modified { version, expected, found })
                ==> spec_catalog_has_version(self.catalog(), version) && (exists|k: int|
                0 <= k < rec_models_of(records@).len()
                    && (#[trigger] rec_models_of(records@)[k]).version == version
                    && rec_models_of(records@)[k].checksum == found@ && !record_matches(
                    self.catalog(),
                    rec_models_of(records@)[k],
                )) && (exists|j: int|
                0 <= j < self.catalog().len() && (#[trigger] self.catalog()[j]).version == version
                    && checksum_of_model(self.catalog()[j]) == expected@),
            r matches Err(VerifyIssue::Unknown { version }) ==> !spec_catalog_has_version(
                self.catalog(),
                version,
            ) && (exists|k: int|
                0 <= k < rec_models_of(records@).len()
                    && (#[trigger] rec_models_of(records@)[k]).version == version
                    && !record_matches(self.catalog(), rec_models_of(records@)[k])),
            !(r matches Err(VerifyIssue::Store(_))),
    {
        proof {
            lemma_catalog_sorted();
        }
        let ghost cat = self.catalog();
        let n = self.migrations.len();
        let mut i: usize = 0;
        while i < records.len()
            invariant
                0 <= i <= records@.len(),
                forall|k: int| 0 <= k < i ==> record_matches(cat, #[trigger] rec_models_of(records@)[k]),
            decreases records@.len() - i,
        {
            let rec = &records[i];
            let mut j: usize = 0;
            let mut found = false;
            while j < n && !found
                invariant
                    0 <= j <= n,
                    !found ==> forall|l: int| 0 <= l < j ==> cat[l].version != rec.version,
                    found ==> j < n && cat[j as int].version == rec.version,
                decreases n - j + (if found { 0int } else { 1int }),
            {
                if self.migrations[j].version == rec.version {
                    found = true;
                } else {
                    j += 1;
                }
            }
            if !found {
                proof {
                    assert(rec_models_of(records@)[i as int] == rec.rec_model());
                    assert(!record_matches(cat, rec_models_of(records@)[i as int]));
                }
                return Err(VerifyIssue::Unknown { version: rec.version });
            }
            let migration = &self.migrations[j];
            let expected = calculate_checksum(
                migration.version,
                migration.description.as_str(),
                migration.up_sql.as_str(),
                &migration.down_sql,
            );
            if !(expected == rec.checksum) {
                proof {
                    // the catalog's versions are strictly increasing, so no
                    // other entry carries this version and none can match
                    assert forall|l: int| 0 <= l < cat.len() && cat[l].version == rec.version
                        implies l == j as int by {
                        if l < j as int {
                        } else if l > j as int {
                        }
                    }
                    assert(rec_models_of(records@)[i as int] == rec.rec_model());
                    assert(!record_matches(cat, rec_models_of(records@)[i as int]));
                    assert(checksum_of_model(cat[j as int]) == expected@);
                }
                return Err(VerifyIssue::Modified {
                    version: rec.version,
                    expected,
                    found: rec.checksum.clone(),
                });
            }
            proof {
                assert(record_matches(cat, rec_models_of(records@)[i as int]));
            }
            i += 1;
        }
        Ok(())
    }

    /// Verify all applied migrations against the catalog: read the recorded
    /// migrations and hold each against the catalog entry of its version. A
    /// mismatch is reported for the offending version, with both checksums,
    /// never silently accepted; the store is only read, never repaired.
    pub fn verify_migrations(&self, db: &Database) -> (r: Result<(), VerifyIssue>)
        requires
            self.wf(),
        ensures
            r is Ok ==> all_records_match(self.catalog(), db.records()),
            r matches Err(VerifyIssue::Modified { version, expected, found })
                ==> !all_records_match(self.catalog(), db.records())
                && spec_catalog_has_version(self.catalog(), version) && (exists|k: int|
                0 <= k < db.records().len() && (#[trigger] db.records()[k]).version == version
                    && db.records()[k].checksum == found@ && !record_matches(
                    self.catalog(),
                    db.records()[k],
                )) && (exists|j: int|
                0 <= j < self.catalog().len() && (#[trigger] self.catalog()[j]).version == version
                    && checksum_of_model(self.catalog()[j]) == expected@),
            r matches Err(VerifyIssue::Unknown { version }) ==> !all_records_match(
                self.catalog(),
                db.records(),
            ) && !spec_catalog_has_version(self.catalog(), version) && (exists|k: int|
                0 <= k < db.records().len() && (#[trigger] db.records()[k]).version == version
                    && !record_matches(self.catalog(), db.records()[k])),
    {
        let records = match db.migration_records() {
            Ok(v) => v,
            Err(e) => {
                return Err(VerifyIssue::Store(e));
            },
        };
        proof {
            assert(rec_models_of(records@) =~= db.records());
        }
        self.check_records(&records)
    }

    /// Roll one migration back: execute its backward statements in a
    /// transaction and delete its record. A version the catalog does not
    /// carry fails closed with nothing executed; every shipped entry defines
    /// backward statements, so the unsupported-rollback failure cannot occur
    /// for a well-formed manager. Rolling back migration 1 removes the
    /// tracking table itself, so every record goes with it.
    pub fn rollback_migration(&self, db: Database, version: u32) -> (r: (
        Database,
        Result<(), RollbackError>,
    ))
        requires
            self.wf(),
        ensures
            r.1 is Ok ==> (version == 1 ==> r.0.records() == Seq::<RecModel>::empty()) && (version
                != 1 ==> r.0.records() == without_version(db.records(), version)),
            !spec_catalog_has_version(catalog_model(), version) ==> (r.1 matches Err(
                RollbackError::NotFound,
            ) && r.0.records() == db.records()),
            r.1 matches Err(e) ==> match e {
                RollbackError::NotFound => r.0.records() == db.records()
                    && !spec_catalog_has_version(catalog_model(), version),
                RollbackError::Unsupported => false,
                RollbackError::Store(_) => r.0.records() == db.records() || r.0.records()
                    == without_version(db.records(), version) || (version == 1 && r.0.records()
                    == Seq::<RecModel>::empty()),
            },
            r.0.path_spec() == db.path_spec(),
    {
        let ghost cat = catalog_model();
        let n = self.migrations.len();
        let mut i: usize = 0;
        while i < n
            invariant
                self.wf(),
                cat == catalog_model(),
                n == self.migrations@.len(),
                0 <= i <= n,
                forall|l: int| 0 <= l < i ==> cat[l].version != version,
            decreases n - i,
        {
            proof {
                lemma_catalog_entry_facts(i as int);
                assert(self.migrations@[i as int].model() == cat[i as int]);
            }
            if self.migrations[i].version == version {
                proof {
                    assert(spec_catalog_has_version(cat, version));
                }
                return self.rollback_found(db, i);
            }
            i += 1;
        }
        (db, Err(RollbackError::NotFound))
    }

    /// Roll back the catalog entry at index `i` of the shipped catalog.
    fn rollback_found(&self, db: Database, i: usize) -> (r: (Database, Result<(), RollbackError>))
        requires
            self.wf(),
            i < self.catalog().len(),
        ensures
            r.1 is Ok ==> (i == 0 ==> r.0.records() == Seq::<RecModel>::empty()) && (i != 0
                ==> r.0.records() == without_version(db.records(), self.catalog()[i as int].version)),
            r.1 matches Err(e) ==> match e {
                RollbackError::NotFound => false,
                RollbackError::Unsupported => false,
                RollbackError::Store(_) => r.0.records() == db.records() || r.0.records()
                    == without_version(db.records(), self.catalog()[i as int].version) || (i == 0
                    && r.0.records() == Seq::<RecModel>::empty()),
            },
            r.0.path_spec() == db.path_spec(),
    {
        proof {
            lemma_catalog_entry_facts(i as int);
            lemma_catalog_down_facts(i as int);
            assert(self.migrations@[i as int].model() == catalog_model()[i as int]);
        }
        let migration = &self.migrations[i];
        let version = migration.version;
        let down = match &migration.down_sql {
            Some(d) => d,
            None => {
                proof {
                    // every shipped catalog entry defines backward
                    // statements, so this branch cannot be reached
                    assert(false);
                }
                return (db, Err(RollbackError::Unsupported));
            },
        };
        let tx = match db.transaction() {
            Ok(tx) => tx,
            Err((db2, e)) => {
                return (db2, Err(RollbackError::Store(e)));
            },
        };
        let mut tx = tx;
        match tx.execute_batch(down.as_str()) {
            Ok(()) => {},
            Err(e) => {
                let (db2, _) = tx.rollback();
                return (db2, Err(RollbackError::Store(e)));
            },
        }
        match tx.remove_migration_record(version) {
            Ok(_) => {
                proof {
                    if i == 0 {
                        assert(without_version(Seq::<RecModel>::empty(), version)
                            =~= Seq::<RecModel>::empty()) by {
                            reveal(Seq::filter);
                        }
                    }
                }
            },
            Err(e) => {
                let (db2, _) = tx.rollback();
                return (db2, Err(RollbackError::Store(e)));
            },
        }
        let (db2, res) = tx.commit();
        match res {
            Ok(()) => (db2, Ok(())),
            Err(e) => {
                let mut db2 = db2;
                let _ = db2.rollback_raw();
                (db2, Err(RollbackError::Store(e)))
            },
        }
    }

    /// The catalog entries not yet applied to the store, in ascending order.
    #[verifier::loop_isolation(false)]
    pub fn get_pending_migrations<'a>(&'a self, db: &Database) -> (r: Result<
        Vec<&'a Migration>,
        StoreError,
    >)
        requires
            self.wf(),
        ensures
            r matches Ok(v) ==> v@.map_values(|m: &Migration| m.model()) == pending_of(
                catalog_model(),
                spec_max_version(db.records()),
            ),
    {
        let ghost cat = catalog_model();
        let current = match self.get_current_version(db) {
            Ok(v) => v,
            Err(e) => {
                return Err(e);
            },
        };
        let ghost cur = current as int;
        let n = self.migrations.len();
        let mut out: Vec<&Migration> = Vec::new();
        let mut i: usize = 0;
        while i < n
            invariant
                0 <= i <= n,
                out@.map_values(|m: &Migration| m.model()) == pending_prefix(cat, cur, i as int),
            decreases n - i,
        {
            proof {
                lemma_pending_prefix_step(cat, cur, i as int);
                assert(self.migrations@[i as int].model() == cat[i as int]);
            }
            let migration = &self.migrations[i];
            if migration.version > current {
                out.push(migration);
                proof {
                    assert(out@.map_values(|m: &Migration| m.model()) =~= pending_prefix(
                        cat,
                        cur,
                        i as int + 1,
                    ));
                }
            }
            i += 1;
        }
        proof {
            assert(cat.subrange(0, n as int) =~= cat);
        }
        Ok(out)
    }
}

/// A filter that holds of every element keeps the whole sequence.
proof fn lemma_filter_all(s: Seq<MigrationModel>, pred: spec_fn(MigrationModel) -> bool)
    requires
        forall|i: int| 0 <= i < s.len() ==> pred(#[trigger] s[i]),
    ensures
        s.filter(pred) == s,
    decreases s.len(),
{
    reveal(Seq::filter);
    if s.len() > 0 {
        lemma_filter_all(s.drop_last(), pred);
        assert(s.filter(pred) =~= s);
    } else {
        assert(s.filter(pred) =~= s);
    }
}

/// A fresh store takes the whole catalog: at version 0 every entry is
/// pending, so one run leaves exactly one record per catalog entry, in
/// catalog order, each carrying the checksum recomputed from its entry —
/// for the shipped catalog, versions 1, 2, 3 and 4.
pub proof fn lemma_fresh_run_applies_whole_catalog()
    ensures
        spec_run_result(catalog_model(), Seq::<RecModel>::empty()) == recs_of(catalog_model()),
        forall|i: int| 0 <= i < catalog_model().len()
            ==> (#[trigger] recs_of(catalog_model())[i].version) == i + 1,
{
    assert forall|i: int| 0 <= i < catalog_model().len() implies is_pending(0)(
        #[trigger] catalog_model()[i],
    ) by {
        lemma_catalog_entry_facts(i);
    }
    lemma_filter_all(catalog_model(), is_pending(0));
    assert(spec_run_result(catalog_model(), Seq::<RecModel>::empty()) =~= recs_of(
        catalog_model(),
    ));
    assert forall|i: int| 0 <= i < catalog_model().len() implies (#[trigger] recs_of(
        catalog_model(),
    )[i].version) == i + 1 by {
        lemma_catalog_entry_facts(i);
    }
}

/// Idempotence: running the engine against records a completed run produced
/// adds nothing — the pending selection over the new maximum version is
/// empty, so a second run's result equals the first's, record for record.
pub proof fn lemma_run_idempotent(cat: Seq<MigrationModel>, recs: Seq<RecModel>)
    requires
        models_sorted(cat),
    ensures
        spec_run_result(cat, spec_run_result(cat, recs)) == spec_run_result(cat, recs),
{
    let m0 = spec_max_version(recs);
    lemma_max_nonneg(recs);
    let pend = pending_of(cat, m0);
    let r1 = spec_run_result(cat, recs);
    lemma_max_concat(recs, recs_of(pend));
    if pend.len() == 0 {
        assert(recs_of(pend) =~= Seq::<RecModel>::empty());
        assert(r1 =~= recs);
        assert(spec_run_result(cat, r1) == r1);
    } else {
        lemma_filter_subset(cat, is_pending(m0));
        cat.lemma_filter_pred(is_pending(m0), 0);
        let e0 = pend[0];
        let w = choose|j: int| 0 <= j < cat.len() && cat[j] == e0;
        assert(cat.last().version >= cat[w].version) by {
            if w < cat.len() - 1 {
            }
        }
        assert(is_pending(m0)(cat.last()));
        reveal(Seq::filter);
        assert(pend == cat.drop_last().filter(is_pending(m0)).push(cat.last()));
        assert(pend.last() == cat.last());
        let top = cat.last().version as int;
        assert forall|k: int| 0 <= k < recs_of(pend).len() implies
            (#[trigger] recs_of(pend)[k].version) <= top by {
            let wk = choose|j: int| 0 <= j < cat.len() && cat[j] == pend[k];
            if wk < cat.len() - 1 {
            }
        }
        lemma_max_le(recs_of(pend), top);
        lemma_max_elem(recs_of(pend), recs_of(pend).len() - 1);
        assert(spec_max_version(recs_of(pend)) == top);
        assert(spec_max_version(r1) == top);
        assert forall|j: int| 0 <= j < cat.len() implies !(is_pending(top)(#[trigger] cat[j])) by {
            if j < cat.len() - 1 {
            }
        }
        cat.lemma_all_neg_filter_empty(is_pending(top));
        assert(recs_of(pending_of(cat, top)) =~= Seq::<RecModel>::empty());
        assert(spec_run_result(cat, r1) =~= r1);
    }
}

/// Checksum integrity: every record a run writes carries the checksum
/// recomputed from the catalog entry of its version, so a store whose
/// records all matched the catalog before a run still matches it afterward
/// — in particular, a fresh store brought up to date verifies cleanly.
pub proof fn lemma_run_keeps_records_matching(cat: Seq<MigrationModel>, recs: Seq<RecModel>)
    requires
        all_records_match(cat, recs),
    ensures
        all_records_match(cat, spec_run_result(cat, recs)),
{
    let pend = pending_of(cat, spec_max_version(recs));
    let r1 = spec_run_result(cat, recs);
    lemma_filter_subset(cat, is_pending(spec_max_version(recs)));
    assert forall|i: int| 0 <= i < r1.len() implies record_matches(cat, #[trigger] r1[i]) by {
        if i < recs.len() {
            assert(record_matches(cat, recs[i]));
        } else {
            let k = i - recs.len();
            assert(r1[i] == rec_of(pend[k]));
            let w = choose|j: int| 0 <= j < cat.len() && cat[j] == pend[k];
            assert(cat[w].version == r1[i].version && checksum_of_model(cat[w]) == r1[i].checksum);
        }
    }
}

/// The pending entries among the first `i` catalog entries are a prefix of
/// all pending entries.
proof fn lemma_pending_prefix_of(cat: Seq<MigrationModel>, cur: int, i: int)
    requires
        0 <= i <= cat.len(),
    ensures
        pending_prefix(cat, cur, i).len() <= pending_of(cat, cur).len(),
        pending_prefix(cat, cur, i) == pending_of(cat, cur).subrange(
            0,
            pending_prefix(cat, cur, i).len() as int,
        ),
    decreases cat.len() - i,
{
    if i == cat.len() {
        assert(cat.subrange(0, i) =~= cat);
        assert(pending_prefix(cat, cur, i) =~= pending_of(cat, cur).subrange(
            0,
            pending_prefix(cat, cur, i).len() as int,
        ));
    } else {
        lemma_pending_prefix_step(cat, cur, i);
        lemma_pending_prefix_of(cat, cur, i + 1);
        assert(pending_prefix(cat, cur, i) =~= pending_of(cat, cur).subrange(
            0,
            pending_prefix(cat, cur, i).len() as int,
        ));
    }
}

} // verus!

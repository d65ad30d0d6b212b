//! Connection manager for the embedded relational store.
//!
//! A `Database` owns the single physical connection. Its observable contents
//! are modelled by three ghost sequences — the recorded migrations, the
//! registered projects, and the registered templates — and every call that
//! can touch the store states in its contract what happens to that model.
//! The contracts describe these tables with the shapes the migration catalog
//! gives them (the tracking table keyed by version, the registry names
//! unique); a caller that reshapes those tables through the raw statement
//! calls leaves the store outside what the model tracks.

pub mod entities;
pub mod migrations;

use vstd::prelude::*;
use crate::errors::{StoreError, StoreErrorKind};
use crate::database::entities::{Project, Template};
use crate::database::migrations::{
    catalog_statement, clears_tracking_rows, preserves_registry_rows, preserves_tracking_rows,
};
use rusqlite::OptionalExtension;

verus! {

#[verifier::external_type_specification]
#[verifier::external_body]
pub struct ExConnection(rusqlite::Connection);

/// Ghost model of one row of the migration-tracking table
/// (the row's timestamp is not modelled).
pub ghost struct RecModel {
    pub version: u32,
    pub description: Seq<char>,
    pub checksum: Seq<char>,
}

/// Ghost model of one row of the projects table.
pub ghost struct ProjectRow {
    pub name: Seq<char>,
    pub path: Seq<char>,
}

/// Ghost model of one row of the templates table.
pub ghost struct TemplateRow {
    pub name: Seq<char>,
    pub path: Seq<char>,
}

/// Ghost model of everything the library observes of the store: recorded
/// migrations ordered by version, and registry rows in insertion order.
pub ghost struct StoreModel {
    pub records: Seq<RecModel>,
    pub projects: Seq<ProjectRow>,
    pub templates: Seq<TemplateRow>,
}

/// The rows of the migration-tracking table that this database's connection
/// observes, ordered by version; empty when the table does not exist.
pub uninterp spec fn store_records(db: Database) -> Seq<RecModel>;

/// The rows of the projects table that this database's connection observes,
/// in insertion order; empty when the table does not exist.
pub uninterp spec fn store_projects(db: Database) -> Seq<ProjectRow>;

/// The rows of the templates table that this database's connection observes,
/// in insertion order; empty when the table does not exist.
pub uninterp spec fn store_templates(db: Database) -> Seq<TemplateRow>;

/// The recorded versions are strictly increasing along the sequence.
pub open spec fn versions_sorted(s: Seq<RecModel>) -> bool {
    forall|i: int, j: int| 0 <= i < j < s.len() ==> s[i].version < s[j].version
}

/// Some row records this version.
pub open spec fn has_version(s: Seq<RecModel>, v: u32) -> bool {
    exists|i: int| 0 <= i < s.len() && s[i].version == v
}

/// The largest recorded version, 0 when no row exists.
pub open spec fn spec_max_version(s: Seq<RecModel>) -> int
    decreases s.len(),
{
    if s.len() == 0 {
        0
    } else {
        let rest = spec_max_version(s.drop_last());
        if s.last().version > rest {
            s.last().version as int
        } else {
            rest
        }
    }
}

/// Insert a record at its position in the version order.
pub open spec fn sorted_insert(s: Seq<RecModel>, r: RecModel) -> Seq<RecModel>
    decreases s.len(),
{
    if s.len() == 0 {
        seq![r]
    } else if (r.version as int) < (s[0].version as int) {
        seq![r] + s
    } else {
        seq![s[0]] + sorted_insert(s.drop_first(), r)
    }
}

/// The records with the rows recording `v` removed.
pub open spec fn without_version(s: Seq<RecModel>, v: u32) -> Seq<RecModel> {
    s.filter(|rec: RecModel| rec.version != v)
}

/// Some project row carries this name.
pub open spec fn has_project_named(s: Seq<ProjectRow>, name: Seq<char>) -> bool {
    exists|i: int| 0 <= i < s.len() && s[i].name == name
}

/// The row does not carry this name.
pub open spec fn not_named(name: Seq<char>) -> spec_fn(ProjectRow) -> bool {
    |row: ProjectRow| row.name != name
}

/// The project rows with those named `name` removed.
pub open spec fn without_project_named(s: Seq<ProjectRow>, name: Seq<char>) -> Seq<ProjectRow> {
    s.filter(not_named(name))
}

/// Uniqueness of registry names. Registering a project appends its row, so
/// right after a successful registration the name is taken — and a second
/// registration of the same name, whatever its path, no longer meets the
/// success condition of `db_create_project` (no row with that name) and must
/// fail. Forgetting the name removes every row carrying it, so the name is
/// free again and a fresh registration meets that condition once more.
pub proof fn lemma_register_uniqueness(rows: Seq<ProjectRow>, name: Seq<char>, path: Seq<char>)
    ensures
        has_project_named(rows.push((ProjectRow { name, path })), name),
        !has_project_named(without_project_named(rows, name), name),
{
    let appended = rows.push(ProjectRow { name, path });
    assert(appended[rows.len() as int].name == name);
    let remaining = without_project_named(rows, name);
    assert forall|i: int| 0 <= i < remaining.len() implies remaining[i].name != name by {
        rows.lemma_filter_pred(not_named(name), i);
    }
}

/// Some template row carries this name.
pub open spec fn has_template_named(s: Seq<TemplateRow>, name: Seq<char>) -> bool {
    exists|i: int| 0 <= i < s.len() && s[i].name == name
}

/// One row of the migration-tracking table as read back from the store.
#[derive(Debug)]
pub struct MigrationRecord {
    /// The migration's version, the row's primary key.
    pub version: u32,
    /// The migration's description at the time it was applied.
    pub description: String,
    /// The timestamp the store assigned when the row was inserted.
    pub applied_at: String,
    /// The checksum recorded when the migration was applied.
    pub checksum: String,
}

impl MigrationRecord {
    /// The ghost model of this row.
    pub open spec fn rec_model(self) -> RecModel {
        RecModel { version: self.version, description: self.description@, checksum: self.checksum@ }
    }
}

/// Wrapper around the single connection to the embedded store.
pub struct Database {
    conn: rusqlite::Connection,
    path: String,
    snapshot: Ghost<StoreModel>,
}

impl Database {
    /// The recorded migrations this connection observes.
    pub open spec fn records(self) -> Seq<RecModel> {
        store_records(self)
    }

    /// The project rows this connection observes.
    pub open spec fn projects(self) -> Seq<ProjectRow> {
        store_projects(self)
    }

    /// The template rows this connection observes.
    pub open spec fn templates(self) -> Seq<TemplateRow> {
        store_templates(self)
    }

    /// The whole observable store model.
    pub open spec fn model(self) -> StoreModel {
        StoreModel { records: self.records(), projects: self.projects(), templates: self.templates() }
    }

    /// The store model at the time the open transaction began; meaningful
    /// only between a BEGIN and its COMMIT or ROLLBACK.
    pub closed spec fn tx_snapshot(self) -> StoreModel {
        self.snapshot@
    }

    /// The path this database was opened at.
    pub closed spec fn path_spec(self) -> Seq<char> {
        self.path@
    }

    /// Open a connection to the database file at `path` (creating the file
    /// if absent) and apply the durability pragmas.
    ///
    /// Relies on `rusqlite::Connection::open_with_flags` (read-write, create,
    /// no shared-cache mutex) and `rusqlite::Connection::execute_batch` for
    /// the pragmas: write-ahead logging, normal synchronous mode, a bounded
    /// page cache, foreign-key enforcement, and a 5000 ms busy timeout.
    #[verifier::external_body]
    fn open_raw(path: &str) -> (r: Result<rusqlite::Connection, StoreError>)
    {
        let flags = rusqlite::OpenFlags::SQLITE_OPEN_READ_WRITE
            | rusqlite::OpenFlags::SQLITE_OPEN_CREATE
            | rusqlite::OpenFlags::SQLITE_OPEN_NO_MUTEX;
        let conn = rusqlite::Connection::open_with_flags(path, flags)
            .map_err(|e| StoreError { kind: StoreErrorKind::Other, message: e.to_string() })?;
        conn.execute_batch(
            "PRAGMA journal_mode = WAL; PRAGMA synchronous = NORMAL; \
             PRAGMA cache_size = -64000; PRAGMA foreign_keys = ON; PRAGMA busy_timeout = 5000;",
        ).map_err(|e| StoreError { kind: StoreErrorKind::Other, message: e.to_string() })?;
        Ok(conn)
    }

    /// Open (creating it if absent) the database at `path`, with the
    /// durability pragmas applied. Nothing is known of the new handle's
    /// contents: they are whatever the file holds.
    pub fn new(path: &str) -> (r: Result<Database, StoreError>)
        ensures
            r matches Ok(db) ==> db.path_spec() == path@,
    {
        match Database::open_raw(path) {
            Ok(conn) => {
                let ghost unknown: StoreModel = arbitrary();
                Ok(Database { conn, path: path.to_owned(), snapshot: Ghost(unknown) })
            },
            Err(e) => Err(e),
        }
    }

    /// The path this database was opened at.
    pub fn path(&self) -> (r: &str)
        ensures
            r@ == self.path_spec(),
    {
        self.path.as_str()
    }

    /// Release the handle. The connection closes when the handle is dropped,
    /// and the store itself rolls back any transaction left uncommitted;
    /// further calls against the database are impossible once it is consumed.
    pub fn close(self) {
    }

    /// Run a batch of SQL statements outside any transaction.
    ///
    /// Relies on `rusqlite::Connection::execute_batch`. Nothing is claimed of
    /// arbitrary statements; for the catalog's own statement batches, the
    /// effect on the modelled tables is stated: no catalog batch adds or
    /// changes rows of the tracking, projects or templates tables, the
    /// tracking rows vanish exactly when migration 1's backward statement
    /// drops the tracking table, and the project rows vanish when the
    /// backward statements of migrations 2 or 3 drop the projects table.
    /// A batch that fails midway has executed a prefix of its statements,
    /// which for these batches preserves the same tables.
    #[verifier::external_body]
    pub fn execute_batch(&mut self, sql: &str) -> (r: Result<(), StoreError>)
        ensures
            preserves_tracking_rows(sql@) ==> final(self).records() == old(self).records(),
            r is Ok && clears_tracking_rows(sql@) ==> final(self).records() == Seq::<RecModel>::empty(),
            r is Err && clears_tracking_rows(sql@) ==> final(self).records() == old(self).records(),
            preserves_registry_rows(sql@) ==> final(self).projects() == old(self).projects(),
            catalog_statement(sql@) ==> final(self).templates() == old(self).templates(),
            final(self).tx_snapshot() == old(self).tx_snapshot(),
            final(self).path_spec() == old(self).path_spec(),
    {
        self.conn.execute_batch(sql)
            .map_err(|e| StoreError { kind: StoreErrorKind::Other, message: e.to_string() })
    }

    /// Run a single arbitrary SQL statement outside any transaction and
    /// report how many rows it changed.
    ///
    /// Relies on `rusqlite::Connection::execute`. The statement is arbitrary,
    /// so nothing is claimed of the store's contents afterward.
    #[verifier::external_body]
    pub fn execute(&mut self, sql: &str) -> (r: Result<usize, StoreError>)
        ensures
            final(self).tx_snapshot() == old(self).tx_snapshot(),
            final(self).path_spec() == old(self).path_spec(),
    {
        self.conn.execute(sql, ())
            .map_err(|e| StoreError { kind: StoreErrorKind::Other, message: e.to_string() })
    }

    /// Issue BEGIN TRANSACTION.
    ///
    /// Relies on `rusqlite::Connection::execute` with `BEGIN TRANSACTION`:
    /// starting a transaction changes no table contents, and this
    /// connection's view of the rows afterward is what it was before.
    #[verifier::external_body]
    pub(crate) fn begin_raw(&mut self) -> (r: Result<(), StoreError>)
        ensures
            r is Ok ==> final(self).model() == old(self).model()
                && final(self).tx_snapshot() == old(self).model(),
            r is Err ==> final(self).model() == old(self).model()
                && final(self).tx_snapshot() == old(self).tx_snapshot(),
            final(self).path_spec() == old(self).path_spec(),
    {
        self.conn.execute("BEGIN TRANSACTION", ())
            .map_err(|e| StoreError { kind: StoreErrorKind::Other, message: e.to_string() })
            .map(|_| ())
    }

    /// Issue COMMIT.
    ///
    /// Relies on `rusqlite::Connection::execute` with `COMMIT`: committing
    /// makes the transaction's writes durable and changes nothing this
    /// connection observes; if the commit fails, either the transaction is
    /// still open with its writes in place, or the store has rolled it back
    /// to the state at BEGIN.
    #[verifier::external_body]
    pub(crate) fn commit_raw(&mut self) -> (r: Result<(), StoreError>)
        ensures
            r is Ok ==> final(self).model() == old(self).model(),
            r is Err ==> final(self).model() == old(self).model()
                || final(self).model() == old(self).tx_snapshot(),
            final(self).tx_snapshot() == old(self).tx_snapshot(),
            final(self).path_spec() == old(self).path_spec(),
    {
        self.conn.execute("COMMIT", ())
            .map_err(|e| StoreError { kind: StoreErrorKind::Other, message: e.to_string() })
            .map(|_| ())
    }

    /// Issue ROLLBACK.
    ///
    /// Relies on `rusqlite::Connection::execute` with `ROLLBACK`: rolling
    /// back discards every write since BEGIN, restoring the state the
    /// transaction started from; the call fails only when no transaction is
    /// active, in which case the contents stand as they are.
    #[verifier::external_body]
    pub(crate) fn rollback_raw(&mut self) -> (r: Result<(), StoreError>)
        ensures
            r is Ok ==> final(self).model() == old(self).tx_snapshot(),
            final(self).model() == old(self).tx_snapshot()
                || final(self).model() == old(self).model(),
            final(self).tx_snapshot() == old(self).tx_snapshot(),
            final(self).path_spec() == old(self).path_spec(),
    {
        self.conn.execute("ROLLBACK", ())
            .map_err(|e| StoreError { kind: StoreErrorKind::Other, message: e.to_string() })
            .map(|_| ())
    }

    /// Whether the migration-tracking table exists.
    ///
    /// Relies on `rusqlite::Connection::query_row` over `sqlite_master`: when
    /// the tracking table does not exist, no migration rows exist either.
    #[verifier::external_body]
    pub(crate) fn tracking_table_exists(&self) -> (r: Result<bool, StoreError>)
        ensures
            r matches Ok(b) && !b ==> store_records(*self) == Seq::<RecModel>::empty(),
    {
        self.conn.query_row(
            "SELECT EXISTS(SELECT 1 FROM sqlite_master WHERE type = 'table' AND name = 'schema_migrations')",
            (),
            |row| row.get::<_, bool>(0),
        ).map_err(|e| StoreError { kind: StoreErrorKind::Other, message: e.to_string() })
    }

    /// The largest recorded migration version, 0 when the table is empty.
    ///
    /// Relies on `rusqlite::Connection::query_row` with
    /// `COALESCE(MAX(version), 0)`; the table's primary key is the version,
    /// so the read-back rows are strictly ordered by version.
    #[verifier::external_body]
    pub(crate) fn max_recorded_version(&self) -> (r: Result<u32, StoreError>)
        ensures
            r matches Ok(v) ==> v as int == spec_max_version(self.records())
                && versions_sorted(self.records()),
    {
        self.conn.query_row(
            "SELECT COALESCE(MAX(version), 0) FROM schema_migrations",
            (),
            |row| row.get::<_, u32>(0),
        ).map_err(|e| StoreError { kind: StoreErrorKind::Other, message: e.to_string() })
    }

    /// All recorded migrations, ordered by version.
    ///
    /// Relies on `rusqlite::Statement::query_map` over the tracking table
    /// with `ORDER BY version`: the rows read back are exactly the recorded
    /// migrations in version order.
    #[verifier::external_body]
    pub fn migration_records(&self) -> (r: Result<Vec<MigrationRecord>, StoreError>)
        ensures
            r matches Ok(v) ==> v@.len() == self.records().len()
                && (forall|i: int| 0 <= i < v@.len() ==> v@[i].rec_model() == self.records()[i])
                && versions_sorted(self.records()),
    {
        let fault = |e: rusqlite::Error| StoreError { kind: StoreErrorKind::Other, message: e.to_string() };
        let sql = "SELECT version, description, applied_at, checksum FROM schema_migrations ORDER BY version";
        let mut stmt = self.conn.prepare(sql).map_err(fault)?;
        let rows = stmt.query_map((), |row| {
            Ok(MigrationRecord { version: row.get(0)?, description: row.get(1)?, applied_at: row.get(2)?, checksum: row.get(3)? })
        }).map_err(fault)?;
        let mut out = Vec::new();
        for row in rows {
            out.push(row.map_err(fault)?);
        }
        Ok(out)
    }

    /// Insert one row into the migration-tracking table.
    ///
    /// Relies on `rusqlite::Connection::execute` with an INSERT into the
    /// tracking table. The version is the primary key, so the insert
    /// succeeds exactly when no row with this version exists, and a
    /// constraint violation means one did; a failed statement changes
    /// nothing; the read-back order is by version, so the new row stands at
    /// its sorted position.
    #[verifier::external_body]
    pub(crate) fn insert_record_raw(&mut self, version: u32, description: &str, checksum: &str) -> (r: Result<(), StoreError>)
        ensures
            r is Ok ==> !has_version(old(self).records(), version)
                && final(self).records() == sorted_insert(
                    old(self).records(),
                    (RecModel { version, description: description@, checksum: checksum@ }),
                )
                && versions_sorted(old(self).records()),
            r is Err ==> final(self).records() == old(self).records(),
            r matches Err(e) && e.kind is Duplicate ==> has_version(old(self).records(), version),
            final(self).projects() == old(self).projects(),
            final(self).templates() == old(self).templates(),
            final(self).tx_snapshot() == old(self).tx_snapshot(),
            final(self).path_spec() == old(self).path_spec(),
    {
        match self.conn.execute(
            "INSERT INTO schema_migrations (version, description, checksum) VALUES (?1, ?2, ?3)",
            (version, description, checksum),
        ) {
            Ok(_) => Ok(()),
            Err(e) => Err(StoreError {
                kind: if e.sqlite_error_code() == Some(rusqlite::ErrorCode::ConstraintViolation) {
                    StoreErrorKind::Duplicate
                } else {
                    StoreErrorKind::Other
                },
                message: e.to_string(),
            }),
        }
    }

    /// Delete the row recording `version` from the migration-tracking table.
    ///
    /// Relies on `rusqlite::Connection::execute` with a DELETE by version:
    /// exactly the row with this version goes (the version is the primary
    /// key, so at most one row matches), and the call reports how many rows
    /// went; a failed statement changes nothing.
    #[verifier::external_body]
    pub(crate) fn delete_record_raw(&mut self, version: u32) -> (r: Result<usize, StoreError>)
        ensures
            r matches Ok(n) ==> final(self).records() == without_version(old(self).records(), version)
                && (n == 1 <==> has_version(old(self).records(), version))
                && n <= 1,
            r is Err ==> final(self).records() == old(self).records(),
            final(self).projects() == old(self).projects(),
            final(self).templates() == old(self).templates(),
            final(self).tx_snapshot() == old(self).tx_snapshot(),
            final(self).path_spec() == old(self).path_spec(),
    {
        self.conn.execute("DELETE FROM schema_migrations WHERE version = ?1", (version,))
            .map_err(|e| StoreError { kind: StoreErrorKind::Other, message: e.to_string() })
    }

    /// Begin a transaction, consuming the database handle; the handle comes
    /// back from `DatabaseTransaction::commit` or `rollback`. Dropping the
    /// transaction without committing closes the connection, and the store
    /// discards the uncommitted writes.
    pub fn transaction(self) -> (r: Result<DatabaseTransaction, (Database, StoreError)>)
        ensures
            r matches Ok(tx) ==> tx.db_model() == self.model()
                && tx.snapshot() == self.model()
                && tx.path_spec() == self.path_spec(),
            r matches Err(p) ==> p.0.model() == self.model()
                && p.0.path_spec() == self.path_spec(),
    {
        let mut this = self;
        match this.begin_raw() {
            Ok(()) => Ok(DatabaseTransaction { db: this }),
            Err(e) => Err((this, e)),
        }
    }
}

/// An open transaction on the store. It wraps the connection for the
/// transaction's lifetime: commit or roll back to get the database handle
/// back; dropping it instead closes the connection, upon which the store
/// itself discards the uncommitted writes.
pub struct DatabaseTransaction {
    db: Database,
}

impl DatabaseTransaction {
    /// The store model this transaction currently observes.
    pub closed spec fn db_model(self) -> StoreModel {
        self.db.model()
    }

    /// The store model at the time the transaction began; a rollback
    /// restores it.
    pub closed spec fn snapshot(self) -> StoreModel {
        self.db.tx_snapshot()
    }

    /// The path the wrapped database was opened at.
    pub closed spec fn path_spec(self) -> Seq<char> {
        self.db.path_spec()
    }

    /// Run a batch of SQL statements within the transaction. The claims on
    /// the modelled tables are those of `Database::execute_batch`.
    pub fn execute_batch(&mut self, sql: &str) -> (r: Result<(), StoreError>)
        ensures
            preserves_tracking_rows(sql@) ==> final(self).db_model().records == old(self).db_model().records,
            r is Ok && clears_tracking_rows(sql@) ==> final(self).db_model().records == Seq::<RecModel>::empty(),
            r is Err && clears_tracking_rows(sql@) ==> final(self).db_model().records == old(self).db_model().records,
            preserves_registry_rows(sql@) ==> final(self).db_model().projects == old(self).db_model().projects,
            catalog_statement(sql@) ==> final(self).db_model().templates == old(self).db_model().templates,
            final(self).snapshot() == old(self).snapshot(),
            final(self).path_spec() == old(self).path_spec(),
    {
        self.db.execute_batch(sql)
    }

    /// Run a single arbitrary SQL statement within the transaction; nothing
    /// is claimed of the store's contents afterward.
    pub fn execute(&mut self, sql: &str) -> (r: Result<usize, StoreError>)
        ensures
            final(self).snapshot() == old(self).snapshot(),
            final(self).path_spec() == old(self).path_spec(),
    {
        self.db.execute(sql)
    }

    /// Record an applied migration inside the transaction: succeeds exactly
    /// when no row with this version exists yet, placing the new row at its
    /// position in the version order.
    pub fn record_migration(&mut self, version: u32, description: &str, checksum: &str) -> (r: Result<(), StoreError>)
        ensures
            r is Ok ==> !has_version(old(self).db_model().records, version)
                && final(self).db_model().records == sorted_insert(
                    old(self).db_model().records,
                    (RecModel { version, description: description@, checksum: checksum@ }),
                )
                && versions_sorted(old(self).db_model().records),
            r is Err ==> final(self).db_model().records == old(self).db_model().records,
            r matches Err(e) && e.kind is Duplicate ==> has_version(old(self).db_model().records, version),
            final(self).db_model().projects == old(self).db_model().projects,
            final(self).db_model().templates == old(self).db_model().templates,
            final(self).snapshot() == old(self).snapshot(),
            final(self).path_spec() == old(self).path_spec(),
    {
        self.db.insert_record_raw(version, description, checksum)
    }

    /// Remove the record of `version` inside the transaction; reports
    /// whether a row went.
    pub fn remove_migration_record(&mut self, version: u32) -> (r: Result<usize, StoreError>)
        ensures
            r matches Ok(n) ==> final(self).db_model().records == without_version(
                old(self).db_model().records,
                version,
            )
                && (n == 1 <==> has_version(old(self).db_model().records, version)),
            r is Err ==> final(self).db_model().records == old(self).db_model().records,
            final(self).db_model().projects == old(self).db_model().projects,
            final(self).db_model().templates == old(self).db_model().templates,
            final(self).snapshot() == old(self).snapshot(),
            final(self).path_spec() == old(self).path_spec(),
    {
        self.db.delete_record_raw(version)
    }

    /// Commit the transaction, returning the database handle and the
    /// outcome. On success the writes are durable and the model is what the
    /// transaction last observed; on failure the store either kept the
    /// transaction's writes in an open transaction or rolled back to the
    /// snapshot.
    pub fn commit(self) -> (r: (Database, Result<(), StoreError>))
        ensures
            r.1 is Ok ==> r.0.model() == self.db_model(),
            r.1 is Err ==> r.0.model() == self.db_model() || r.0.model() == self.snapshot(),
            r.0.tx_snapshot() == self.snapshot(),
            r.0.path_spec() == self.path_spec(),
    {
        let mut this = self;
        let res = this.db.commit_raw();
        (this.db, res)
    }

    /// Roll the transaction back, returning the database handle and the
    /// outcome. On success every write since BEGIN is discarded and the
    /// model is the snapshot taken at BEGIN.
    pub fn rollback(self) -> (r: (Database, Result<(), StoreError>))
        ensures
            r.1 is Ok ==> r.0.model() == self.snapshot(),
            r.0.model() == self.snapshot() || r.0.model() == self.db_model(),
            r.0.path_spec() == self.path_spec(),
    {
        let mut this = self;
        let res = this.db.rollback_raw();
        (this.db, res)
    }
}

/// Insert a new project row.
///
/// Relies on `rusqlite::Connection::execute` with an INSERT into the projects
/// table, whose name column carries a UNIQUE constraint: the insert succeeds
/// exactly when no row with this name exists, and a constraint violation
/// means one did; a failed statement changes nothing.
#[verifier::external_body]
pub fn db_create_project(project: &Project, db: &mut Database) -> (r: Result<bool, StoreError>)
    ensures
        r matches Ok(b) ==> b && !has_project_named(store_projects(*old(db)), project.name@)
            && store_projects(*final(db)) == store_projects(*old(db)).push(
                (ProjectRow { name: project.name@, path: project.path@ }),
            ),
        r is Err ==> final(db).projects() == old(db).projects(),
        r matches Err(e) && e.kind is Duplicate ==> has_project_named(old(db).projects(), project.name@),
        final(db).records() == old(db).records(),
        final(db).templates() == old(db).templates(),
        final(db).tx_snapshot() == old(db).tx_snapshot(),
        final(db).path_spec() == old(db).path_spec(),
{
    match db.conn.execute(
        "INSERT INTO projects (name, path) VALUES (?1, ?2)",
        (&project.name, &project.path),
    ) {
        Ok(_) => Ok(true),
        Err(e) => Err(StoreError {
            kind: if e.sqlite_error_code() == Some(rusqlite::ErrorCode::ConstraintViolation) {
                StoreErrorKind::Duplicate
            } else {
                StoreErrorKind::Other
            },
            message: e.to_string(),
        }),
    }
}

/// Look a project up by name.
///
/// Relies on `rusqlite::Connection::query_row` over the projects table: a row
/// comes back exactly when one with this name exists, and the name column is
/// UNIQUE, so at most one matches.
#[verifier::external_body]
pub fn db_get_project_by_name(name: &str, db: &Database) -> (r: Result<Option<Project>, StoreError>)
    ensures
        r matches Ok(opt) ==> ((opt is Some) <==> has_project_named(db.projects(), name@)),
        r matches Ok(Some(p)) ==> p.name@ == name@ && p.id is Some && p.registered_at is Some
            && (exists|i: int|
                0 <= i < db.projects().len() && db.projects()[i].name == name@
                    && db.projects()[i].path == p.path@),
{
    db.conn.query_row(
        "SELECT id, name, path, created_at FROM projects WHERE name = ?1",
        (name,),
        |row| {
            Ok(Project {
                id: Some(row.get(0)?),
                name: row.get(1)?,
                path: row.get(2)?,
                registered_at: Some(row.get(3)?),
            })
        },
    ).optional().map_err(|e| StoreError { kind: StoreErrorKind::Other, message: e.to_string() })
}

/// Delete the project row with this name; reports whether a row went. The
/// name keys the call — it is UNIQUE in the registry, so it identifies the
/// row as well as the store-assigned id would.
///
/// Relies on `rusqlite::Connection::execute` with a DELETE by name: exactly
/// the rows with this name go (at most one, the column being UNIQUE); a
/// failed statement changes nothing.
#[verifier::external_body]
pub fn db_forget_project(name: &str, db: &mut Database) -> (r: Result<bool, StoreError>)
    ensures
        r matches Ok(b) ==> final(db).projects() == without_project_named(old(db).projects(), name@)
            && (b <==> has_project_named(old(db).projects(), name@)),
        r is Err ==> final(db).projects() == old(db).projects(),
        final(db).records() == old(db).records(),
        final(db).templates() == old(db).templates(),
        final(db).tx_snapshot() == old(db).tx_snapshot(),
        final(db).path_spec() == old(db).path_spec(),
{
    db.conn.execute("DELETE FROM projects WHERE name = ?1", (name,))
        .map(|n| n > 0)
        .map_err(|e| StoreError { kind: StoreErrorKind::Other, message: e.to_string() })
}

/// All registered templates, in insertion order.
///
/// Relies on `rusqlite::Statement::query_map` over the templates table with
/// `ORDER BY id`: the rows read back are exactly the registered templates in
/// insertion order.
#[verifier::external_body]
pub fn db_get_templates(db: &Database) -> (r: Result<Vec<Template>, StoreError>)
    ensures
        r matches Ok(v) ==> v@.len() == store_templates(*db).len()
            && (forall|i: int| 0 <= i < v@.len() ==> v@[i].name@ == store_templates(*db)[i].name
                && v@[i].path@ == store_templates(*db)[i].path
                && v@[i].id is Some),
{
    let mut stmt = db.conn.prepare("SELECT id, name, path FROM templates ORDER BY id")
        .map_err(|e| StoreError { kind: StoreErrorKind::Other, message: e.to_string() })?;
    let rows = stmt.query_map((), |row| {
        Ok(Template { id: Some(row.get(0)?), name: row.get(1)?, path: row.get(2)? })
    }).map_err(|e| StoreError { kind: StoreErrorKind::Other, message: e.to_string() })?;
    let mut out = Vec::new();
    for row in rows {
        out.push(row.map_err(|e| StoreError { kind: StoreErrorKind::Other, message: e.to_string() })?);
    }
    Ok(out)
}

/// Look a template up by name.
///
/// Relies on `rusqlite::Connection::query_row` over the templates table: a
/// row comes back exactly when one with this name exists, and the name
/// column is UNIQUE, so at most one matches.
#[verifier::external_body]
pub fn db_get_template_by_name(name: &str, db: &Database) -> (r: Result<Option<Template>, StoreError>)
    ensures
        r matches Ok(opt) ==> ((opt is Some) <==> has_template_named(db.templates(), name@)),
        r matches Ok(Some(t)) ==> t.name@ == name@ && t.id is Some
            && (exists|i: int|
                0 <= i < db.templates().len() && db.templates()[i].name == name@
                    && db.templates()[i].path == t.path@),
{
    db.conn.query_row(
        "SELECT id, name, path FROM templates WHERE name = ?1",
        (name,),
        |row| Ok(Template { id: Some(row.get(0)?), name: row.get(1)?, path: row.get(2)? }),
    ).optional().map_err(|e| StoreError { kind: StoreErrorKind::Other, message: e.to_string() })
}

} // verus!

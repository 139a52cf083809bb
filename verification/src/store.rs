//! The page store: an embedded SQLite database holding at most one page
//! per date, reached through the `rusqlite` crate.
//!
//! The database is modelled as a map from the date key to the page's view
//! ([`db_rows`]), plus one flag saying whether the `daily_pages` table
//! exists ([`schema_ready`]).  The trusted wrappers at the bottom of this
//! module state, over those two names, what each SQL statement does to the
//! model; everything above them is verified against those contracts.

use rusqlite::OptionalExtension;
use vstd::prelude::*;

use crate::error::StoreError;
use crate::page::{Page, PageView};

verus! {

/// The model of a store that holds no page at all.
pub open spec fn no_rows() -> Map<Seq<char>, PageView> {
    Map::empty()
}

/// The rows of the `daily_pages` table reachable through `conn`, keyed by
/// the `date` column; the empty map while the table does not exist.
pub uninterp spec fn db_rows(conn: rusqlite::Connection) -> Map<Seq<char>, PageView>;

/// Whether the `daily_pages` table exists in the database behind `conn`.
pub uninterp spec fn schema_ready(conn: rusqlite::Connection) -> bool;

/// The `rusqlite` connection handle, opaque to the verifier.
#[verifier::external_type_specification]
#[verifier::external_body]
pub struct ExConnection(rusqlite::Connection);

/// The `rusqlite` error type, opaque to the verifier; carried only until it
/// is turned into a [`StoreError`] message.
#[verifier::external_type_specification]
#[verifier::external_body]
pub struct ExRusqliteError(rusqlite::Error);

/// A handle on the store: one open connection to the database file.
/// Once [`PageStore::ensure_schema`] has succeeded ([`PageStore::wf`]),
/// [`PageStore::get`] and [`PageStore::upsert`] behave exactly as reads and
/// inserts on the model map [`PageStore::contents`].
pub struct PageStore {
    conn: rusqlite::Connection,
}

impl PageStore {
    /// The store is ready for reads and writes: the table exists.
    pub closed spec fn wf(&self) -> bool {
        schema_ready(self.conn)
    }

    /// The model of the store: its rows, keyed by date.
    pub closed spec fn contents(&self) -> Map<Seq<char>, PageView> {
        db_rows(self.conn)
    }

    /// Opens the store at the database file `path`, creating an empty
    /// database file if none exists.  The rows come from whatever the file
    /// holds, so nothing is stated of the contents.  Fails with
    /// [`StoreError::Connection`] when the file cannot be opened.
    pub fn open(path: &str) -> (r: Result<PageStore, StoreError>)
        ensures
            r is Err ==> r->Err_0 is Connection,
    {
        match open_file(path) {
            Ok(conn) => Ok(PageStore { conn }),
            Err(e) => Err(StoreError::Connection(error_text(&e))),
        }
    }

    /// Opens a store on a fresh in-memory database, which holds no rows.
    /// Fails with [`StoreError::Connection`] when the database cannot be
    /// opened.
    pub fn open_in_memory() -> (r: Result<PageStore, StoreError>)
        ensures
            r is Ok ==> r->Ok_0.contents() == no_rows(),
            r is Err ==> r->Err_0 is Connection,
    {
        match open_memory() {
            Ok(conn) => Ok(PageStore { conn }),
            Err(e) => Err(StoreError::Connection(error_text(&e))),
        }
    }

    /// Ensures the `daily_pages` table exists, with a statement safe to run
    /// on every startup: existing rows are never altered, however often it
    /// is called.  On success the store is ready for reads and writes.
    /// Fails with [`StoreError::Schema`] when the statement cannot be
    /// executed; even then the rows are unchanged.
    pub fn ensure_schema(&mut self) -> (r: Result<(), StoreError>)
        ensures
            final(self).contents() == old(self).contents(),
            old(self).wf() ==> final(self).wf(),
            r is Ok ==> final(self).wf(),
            r is Err ==> r->Err_0 is Schema,
    {
        match create_pages_table(&mut self.conn) {
            Ok(()) => Ok(()),
            Err(e) => Err(StoreError::Schema(error_text(&e))),
        }
    }

    /// Looks up the page stored for `date` (exact, case-sensitive match).
    /// Returns `Some` of exactly the stored page when the date is present
    /// in the store, `None` when it is absent — absence is not an error.
    /// Fails with [`StoreError::Query`] only when the read itself fails,
    /// which the fixed schema does not normally allow.
    pub fn get(&self, date: &str) -> (r: Result<Option<Page>, StoreError>)
        requires
            self.wf(),
        ensures
            r is Ok ==> (match r->Ok_0 {
                Some(p) => self.contents().contains_key(date@) && p@ == self.contents()[date@],
                None => !self.contents().contains_key(date@),
            }),
            r is Err ==> r->Err_0 is Query,
    {
        match query_page(&self.conn, date) {
            Ok(found) => Ok(found),
            Err(e) => Err(StoreError::Query(error_text(&e))),
        }
    }

    /// Saves `page`: inserts a new row when its date is absent, otherwise
    /// overwrites every non-key field of the existing row with the fields
    /// of `page` — in the model, exactly an insert into the map at
    /// `page.date`.  A single call resolves atomically within one statement.
    /// Fails with [`StoreError::Constraint`] when the write violates a
    /// constraint the merge clause does not cover; the rows are then
    /// unchanged.
    pub fn upsert(&mut self, page: &Page) -> (r: Result<(), StoreError>)
        requires
            old(self).wf(),
        ensures
            final(self).wf(),
            r is Ok ==> final(self).contents() == old(self).contents().insert(
                page.date@,
                page@,
            ),
            r is Err ==> final(self).contents() == old(self).contents() && r->Err_0
                is Constraint,
    {
        match exec_upsert(&mut self.conn, page) {
            Ok(_) => Ok(()),
            Err(e) => Err(StoreError::Constraint(error_text(&e))),
        }
    }
}

/// Relies on `rusqlite::Connection::open`: opens the database file at
/// `path`, creating an empty database file when none exists.  The rows come
/// from disk, so nothing is stated of them.
#[verifier::external_body]
fn open_file(path: &str) -> (r: Result<rusqlite::Connection, rusqlite::Error>) {
    rusqlite::Connection::open(path)
}

/// Relies on `rusqlite::Connection::open_in_memory`: a fresh in-memory
/// database holds no tables and no rows.
#[verifier::external_body]
fn open_memory() -> (r: Result<rusqlite::Connection, rusqlite::Error>)
    ensures
        r is Ok ==> db_rows(r->Ok_0) == no_rows(),
{
    rusqlite::Connection::open_in_memory()
}

/// Relies on `rusqlite::Connection::execute_batch` running a single
/// `CREATE TABLE IF NOT EXISTS` statement: it creates the table when it is
/// absent, never touches existing rows, and on success the table exists.
#[verifier::external_body]
fn create_pages_table(conn: &mut rusqlite::Connection) -> (r: Result<(), rusqlite::Error>)
    ensures
        db_rows(*final(conn)) == db_rows(*old(conn)),
        schema_ready(*old(conn)) ==> schema_ready(*final(conn)),
        r is Ok ==> schema_ready(*final(conn)),
{
    conn.execute_batch(
        "CREATE TABLE IF NOT EXISTS daily_pages (
            id          INTEGER PRIMARY KEY AUTOINCREMENT,
            date        TEXT NOT NULL UNIQUE,
            schedule    TEXT NOT NULL DEFAULT '',
            todo        TEXT NOT NULL DEFAULT '',
            goals       TEXT NOT NULL DEFAULT '',
            motivation  TEXT NOT NULL DEFAULT '',
            happiness   INTEGER NOT NULL DEFAULT 5,
            journal     TEXT NOT NULL DEFAULT ''
        );",
    )
}

/// Relies on `rusqlite::Connection::execute` running an
/// `INSERT ... ON CONFLICT(date) DO UPDATE` statement: the row keyed by the
/// page's date is inserted, or every non-key column of it is overwritten
/// with the page's fields; a failed statement changes nothing, as SQLite
/// statements apply atomically.
#[verifier::external_body]
fn exec_upsert(conn: &mut rusqlite::Connection, p: &Page) -> (r: Result<usize, rusqlite::Error>)
    requires
        schema_ready(*old(conn)),
    ensures
        schema_ready(*final(conn)),
        r is Ok ==> db_rows(*final(conn)) == db_rows(*old(conn)).insert(p.date@, p@),
        r is Err ==> db_rows(*final(conn)) == db_rows(*old(conn)),
{
    conn.execute(
        "INSERT INTO daily_pages (date, schedule, todo, goals, motivation, happiness, journal)
         VALUES (?1, ?2, ?3, ?4, ?5, ?6, ?7)
         ON CONFLICT(date) DO UPDATE SET
            schedule = excluded.schedule, todo = excluded.todo, goals = excluded.goals,
            motivation = excluded.motivation, happiness = excluded.happiness,
            journal = excluded.journal;",
        (&p.date, &p.schedule, &p.todo, &p.goals, &p.motivation, p.happiness, &p.journal),
    )
}

/// Relies on `rusqlite::Connection::query_row` with a `SELECT` by exact
/// `date` match, and on `rusqlite::OptionalExtension::optional`, which
/// turns the no-row case into `Ok(None)`: the returned page is the stored
/// row for `date`, or `None` when no such row exists.
#[verifier::external_body]
fn query_page(conn: &rusqlite::Connection, date: &str) -> (r: Result<
    Option<Page>,
    rusqlite::Error,
>)
    requires
        schema_ready(*conn),
    ensures
        r is Ok ==> (match r->Ok_0 {
            Some(p) => db_rows(*conn).contains_key(date@) && p@ == db_rows(*conn)[date@],
            None => !db_rows(*conn).contains_key(date@),
        }),
{
    conn.query_row(
        "SELECT date, schedule, todo, goals, motivation, happiness, journal
         FROM daily_pages WHERE date = ?1",
        (date,),
        |row| Ok(Page {
            date: row.get(0)?, schedule: row.get(1)?, todo: row.get(2)?,
            goals: row.get(3)?, motivation: row.get(4)?, happiness: row.get(5)?,
            journal: row.get(6)?,
        }),
    ).optional()
}

/// Relies on the `Display` implementation of `rusqlite::Error` for the
/// human-readable message; nothing is stated of its text.
#[verifier::external_body]
fn error_text(e: &rusqlite::Error) -> String {
    e.to_string()
}

} // verus!

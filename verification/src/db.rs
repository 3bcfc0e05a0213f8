//! The command-log store: a durable, append-only log of status records
//! in one SQLite file, with bulk retrieval.
//!
//! The SQLite calls stand behind trusted wrappers; everything around
//! them — row conversion, command validation, error mapping — is
//! verified. The table's contents are named by [`db_rows`] and each
//! wrapper states what its call does to them.

use vstd::prelude::*;
use vstd::string::StringExecFns;

use crate::models::CommandState;
use crate::models::Status;
use crate::models::Timestamp;

verus! {

/// One raw row of the `statuses` table: timestamp text, command text,
/// message, success flag.
pub type RowData = (String, String, String, bool);

/// The view of one row: the texts as character sequences.
pub type RowView = (Seq<char>, Seq<char>, Seq<char>, bool);

#[verifier::external_type_specification]
#[verifier::external_body]
pub struct ExConnection(rusqlite::Connection);

/// What the `statuses` table of a connection's database holds, in
/// insertion (rowid) order.
pub uninterp spec fn db_rows(c: rusqlite::Connection) -> Seq<RowView>;

/// Why a store operation failed, with the underlying cause's text.
#[derive(Debug)]
pub enum StoreError {
    OpenFailed(String),
    WriteFailed(String),
    ReadFailed(String),
}

/// Relies on `rusqlite::Connection::open`: opens or creates the
/// database file at `path`. What the table then holds is whatever the
/// file already held, so nothing is stated of the contents.
#[verifier::external_body]
fn open_connection(path: &str) -> (r: Result<rusqlite::Connection, String>) {
    rusqlite::Connection::open(path).map_err(|e| e.to_string())
}

/// Relies on `rusqlite::Connection::execute` with `CREATE TABLE IF NOT
/// EXISTS`: establishes the schema and adds no rows.
#[verifier::external_body]
fn create_schema(conn: &mut rusqlite::Connection) -> (r: Result<(), String>)
    ensures
        db_rows(*final(conn)) == db_rows(*old(conn)),
{
    conn.execute(
        "CREATE TABLE IF NOT EXISTS statuses (timestamp TEXT NOT NULL, command TEXT NOT NULL, message TEXT NOT NULL, status BOOLEAN NOT NULL)",
        (),
    ).map(|_| ()).map_err(|e| e.to_string())
}

/// Relies on `rusqlite::Connection::execute` with a single-row
/// `INSERT`: on success exactly the given row is appended; a failed
/// insert leaves the table unchanged.
#[verifier::external_body]
fn insert_row(conn: &mut rusqlite::Connection, ts: &str, cmd: &str, msg: &str, ok: bool) -> (r:
    Result<(), String>)
    ensures
        r is Ok ==> db_rows(*final(conn)) == db_rows(*old(conn)).push((ts@, cmd@, msg@, ok)),
        r is Err ==> db_rows(*final(conn)) == db_rows(*old(conn)),
{
    conn.execute(
        "INSERT INTO statuses (timestamp, command, message, status) VALUES (?1, ?2, ?3, ?4)",
        (ts, cmd, msg, ok),
    ).map(|_| ()).map_err(|e| e.to_string())
}

/// Relies on `rusqlite::Connection::prepare` and
/// `Statement::query_map` with `SELECT ... ORDER BY rowid`: on success
/// every row of the table is returned, in insertion order.
#[verifier::external_body]
fn select_rows(conn: &rusqlite::Connection) -> (r: Result<Vec<RowData>, String>)
    ensures
        r matches Ok(v) ==> v@.map_values(|t: RowData| (t.0@, t.1@, t.2@, t.3)) == db_rows(*conn),
{
    let mut stmt = match conn.prepare(
        "SELECT timestamp, command, message, status FROM statuses ORDER BY rowid",
    ) {
        Ok(s) => s,
        Err(e) => return Err(e.to_string()),
    };
    let iter = match stmt.query_map((), |w| Ok((w.get(0)?, w.get(1)?, w.get(2)?, w.get(3)?))) {
        Ok(it) => it,
        Err(e) => return Err(e.to_string()),
    };
    iter.collect::<Result<Vec<RowData>, rusqlite::Error>>().map_err(|e| e.to_string())
}

/// The records `v` present exactly the rows `rows`, in order.
pub open spec fn statuses_match_rows(v: Seq<Status>, rows: Seq<RowView>) -> bool {
    &&& v.len() == rows.len()
    &&& forall|i: int| 0 <= i < v.len() ==> (#[trigger] v[i]).spec_row() == rows[i]
}

/// Turns raw rows into records. The timestamp and message texts are
/// kept as they stand; the command text must be one of the two
/// canonical kinds, and any other text makes the whole read fail.
pub fn statuses_from_rows(rows: Vec<RowData>) -> (r: Result<Vec<Status>, StoreError>)
    ensures
        r is Ok <==> (forall|i: int|
            0 <= i < rows@.len() ==> CommandState::spec_of_text(
                (#[trigger] rows@[i]).1@,
            ) is Some),
        r matches Ok(v) ==> statuses_match_rows(
            v@,
            rows@.map_values(|t: RowData| (t.0@, t.1@, t.2@, t.3)),
        ),
        r is Err ==> r matches Err(StoreError::ReadFailed(_)),
{
    let mut out: Vec<Status> = Vec::new();
    let mut i: usize = 0;
    while i < rows.len()
        invariant
            i <= rows@.len(),
            out@.len() == i,
            forall|k: int|
                0 <= k < i ==> CommandState::spec_of_text((#[trigger] rows@[k]).1@) is Some,
            forall|k: int|
                0 <= k < i ==> (#[trigger] out@[k]).spec_row() == (
                rows@[k].0@,
                rows@[k].1@,
                rows@[k].2@,
                rows@[k].3,
                ),
        decreases rows@.len() - i,
    {
        match CommandState::from_storage(rows[i].1.as_str()) {
            Some(cmd) => {
                let st = Status {
                    timestamp: Timestamp::from_storage(rows[i].0.clone()),
                    cmd,
                    msg: rows[i].2.clone(),
                    status: rows[i].3,
                };
                proof {
                    assert(cmd.spec_str() == rows@[i as int].1@);
                }
                out.push(st);
            },
            None => {
                return Err(
                    StoreError::ReadFailed(String::from_str("unknown command kind in the log")),
                );
            },
        }
        i = i + 1;
    }
    Ok(out)
}

/// The rows of a log after appending each record of `recs` in order to
/// a log that held `init` — one push per record, as each successful
/// `add_status` ensures.
pub open spec fn rows_after_appends(init: Seq<RowView>, recs: Seq<Status>) -> Seq<RowView>
    decreases recs.len(),
{
    if recs.len() == 0 {
        init
    } else {
        rows_after_appends(init.push(recs[0].spec_row()), recs.drop_first())
    }
}

/// Appending distributes over the starting rows: the log ends up with
/// the starting rows followed by one row per record, in order.
proof fn lemma_rows_after_appends(init: Seq<RowView>, recs: Seq<Status>)
    ensures
        rows_after_appends(init, recs) == init + recs.map_values(|s: Status| s.spec_row()),
    decreases recs.len(),
{
    let row_of = |s: Status| s.spec_row();
    if recs.len() == 0 {
        assert(init + recs.map_values(row_of) =~= init);
    } else {
        lemma_rows_after_appends(init.push(recs[0].spec_row()), recs.drop_first());
        assert(init.push(recs[0].spec_row()) + recs.drop_first().map_values(row_of) =~= init
            + recs.map_values(row_of));
    }
}

/// The append-then-list law: a fresh log holds nothing; after `n`
/// appends of records `r1 .. rn` it holds exactly their rows, in that
/// order — so a successful `get_statuses` returns records matching
/// `r1 .. rn` one for one (see `statuses_match_rows` and the contracts
/// of `add_status` and `get_statuses`).
pub proof fn lemma_append_then_list(recs: Seq<Status>)
    ensures
        statuses_match_rows(recs, rows_after_appends(Seq::empty(), recs)),
{
    lemma_rows_after_appends(Seq::empty(), recs);
    let row_of = |s: Status| s.spec_row();
    assert(rows_after_appends(Seq::empty(), recs) =~= recs.map_values(row_of));
}

/// The durable command log, backed by one SQLite file. The handle is
/// modelled as the sole owner of the table it writes: `rows` names its
/// contents, appends push onto them, reads return them.
pub struct Database {
    conn: rusqlite::Connection,
}

impl Database {
    /// The rows the log holds, in insertion order.
    pub closed spec fn rows(&self) -> Seq<RowView> {
        db_rows(self.conn)
    }

    /// Opens or creates the log at `path` and idempotently ensures its
    /// schema. The log then holds whatever the file already held.
    pub fn new(path: &str) -> (r: Result<Database, StoreError>)
        ensures
            r is Err ==> r matches Err(StoreError::OpenFailed(_)),
    {
        match open_connection(path) {
            Ok(conn) => {
                let mut conn = conn;
                match create_schema(&mut conn) {
                    Ok(_) => Ok(Database { conn }),
                    Err(cause) => Err(StoreError::OpenFailed(cause)),
                }
            },
            Err(cause) => Err(StoreError::OpenFailed(cause)),
        }
    }

    /// Appends exactly one record to the log; a failed write leaves the
    /// log unchanged.
    pub fn add_status(&mut self, status: Status) -> (r: Result<(), StoreError>)
        ensures
            r is Ok ==> final(self).rows() == old(self).rows().push(status.spec_row()),
            r is Err ==> final(self).rows() == old(self).rows() && r matches Err(
                StoreError::WriteFailed(_),
            ),
    {
        let ts = status.timestamp.storage_text();
        let cmd = status.cmd.as_str();
        match insert_row(&mut self.conn, ts, cmd, status.msg.as_str(), status.status) {
            Ok(_) => Ok(()),
            Err(cause) => Err(StoreError::WriteFailed(cause)),
        }
    }

    /// Every record of the log, in insertion order. The read fails if
    /// the file cannot be read or a stored command kind is not one of
    /// the two canonical texts.
    pub fn get_statuses(&self) -> (r: Result<Vec<Status>, StoreError>)
        ensures
            r matches Ok(v) ==> statuses_match_rows(v@, self.rows()),
            r is Err ==> r matches Err(StoreError::ReadFailed(_)),
    {
        match select_rows(&self.conn) {
            Ok(rows) => statuses_from_rows(rows),
            Err(cause) => Err(StoreError::ReadFailed(cause)),
        }
    }
}

} // verus!

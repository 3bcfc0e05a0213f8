//! The data each HTML view is rendered from. Rendering itself is the
//! embedding program's concern; these types fix what a view shows and
//! that the row count always matches the records carried.

use vstd::prelude::*;

use crate::models::StatusRecord;

verus! {

/// The full log page: one page of the log, the row count shown, and
/// the build identifiers displayed in the footer.
pub struct RootTemplate {
    pub record: StatusRecord,
    pub rows: usize,
    pub version: String,
    pub git_ver: String,
}

impl RootTemplate {
    /// A page view of the given record; `rows` is the number of
    /// records the page carries.
    pub fn new(record: StatusRecord, version: String, git_ver: String) -> (r: Self)
        ensures
            r.record == record,
            r.rows == record.statuses@.len(),
            r.version == version,
            r.git_ver == git_ver,
    {
        let rows = record.statuses.len();
        Self { record, rows, version, git_ver }
    }
}

/// The table fragment alone, for incremental page updates.
pub struct StatusPartialTemplate {
    pub record: StatusRecord,
    pub rows: usize,
}

impl StatusPartialTemplate {
    /// A fragment view of the given record; `rows` is the number of
    /// records the fragment carries.
    pub fn new(record: StatusRecord) -> (r: Self)
        ensures
            r.record == record,
            r.rows == record.statuses@.len(),
    {
        let rows = record.statuses.len();
        Self { record, rows }
    }
}

/// A toast notice: the outcome message of one command attempt and
/// whether it succeeded.
pub struct ToastFragment {
    pub msg: String,
    pub status: bool,
}

impl ToastFragment {
    /// A notice carrying the given message and outcome.
    pub fn new(msg: String, status: bool) -> (r: Self)
        ensures
            r.msg == msg,
            r.status == status,
    {
        Self { msg, status }
    }
}

} // verus!

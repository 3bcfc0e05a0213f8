//! The data model: command kinds, timestamps, status records, and the
//! paginated view of the command log.

use vstd::prelude::*;
use vstd::string::StringExecFns;

use crate::text::str_eq;

verus! {

/// The form body of a wake request: the target's hardware address as
/// the user typed it.
pub struct WakeForm {
    pub mac_address: String,
}

/// The form body of a sleep request: the target agent's `host:port`.
pub struct SleepForm {
    pub address: String,
}

/// The body of a JSON reply: one human-readable message.
pub struct ApiResponse {
    message: String,
}

impl ApiResponse {
    /// The message this reply carries.
    pub closed spec fn spec_message(&self) -> Seq<char> {
        self.message@
    }

    /// A reply carrying the given message.
    pub fn new(message: String) -> (r: Self)
        ensures
            r.spec_message() == message@,
    {
        Self { message }
    }

    /// The message this reply carries.
    pub fn message(&self) -> (r: &str)
        ensures
            r@ == self.spec_message(),
    {
        self.message.as_str()
    }
}

/// The kind of a command: power a server on, or put it to sleep.
#[derive(Clone, Copy, Debug, PartialEq, Eq, Structural)]
pub enum CommandState {
    Wake,
    Sleep,
}

impl CommandState {
    /// The canonical text of this kind, also its on-disk form.
    pub open spec fn spec_str(&self) -> Seq<char> {
        match self {
            CommandState::Wake => "Wake"@,
            CommandState::Sleep => "Sleep"@,
        }
    }

    /// The canonical text of this kind.
    pub fn as_str(&self) -> (r: &'static str)
        ensures
            r@ == self.spec_str(),
    {
        match self {
            CommandState::Wake => "Wake",
            CommandState::Sleep => "Sleep",
        }
    }

    /// The kind a stored text denotes, if any: only the two canonical
    /// texts denote one.
    pub open spec fn spec_of_text(s: Seq<char>) -> Option<CommandState> {
        if s == "Wake"@ {
            Some(CommandState::Wake)
        } else if s == "Sleep"@ {
            Some(CommandState::Sleep)
        } else {
            None
        }
    }

    /// Reads the on-disk form back; any text but `Wake` or `Sleep` is
    /// refused.
    pub fn from_storage(s: &str) -> (r: Option<CommandState>)
        ensures
            r == Self::spec_of_text(s@),
    {
        if str_eq(s, "Wake") {
            Some(CommandState::Wake)
        } else if str_eq(s, "Sleep") {
            Some(CommandState::Sleep)
        } else {
            None
        }
    }
}

/// A wall-clock instant with time zone, held in its round-trippable
/// textual storage form. The instant is read from the system clock at
/// record creation; nothing in this crate computes on it, so the text
/// is the value. Its view is that text.
#[derive(Debug)]
pub struct Timestamp {
    text: String,
}

impl View for Timestamp {
    type V = Seq<char>;

    closed spec fn view(&self) -> Seq<char> {
        self.text@
    }
}

impl Clone for Timestamp {
    fn clone(&self) -> (r: Self)
        ensures
            r == *self,
    {
        Timestamp { text: self.text.clone() }
    }
}

impl Timestamp {
    /// Relies on `jiff::Zoned::now` and its `Display` form: the current
    /// instant in the system zone, rendered in the form jiff reads
    /// back. Nothing is stated of the value: it depends on the clock.
    #[verifier::external_body]
    pub fn now() -> Timestamp {
        Timestamp { text: jiff::Zoned::now().to_string() }
    }

    /// The storage text of this instant.
    pub fn storage_text(&self) -> (r: &str)
        ensures
            r@ == self@,
    {
        self.text.as_str()
    }

    /// The instant a storage text denotes.
    pub fn from_storage(text: String) -> (r: Timestamp)
        ensures
            r@ == text@,
    {
        Timestamp { text }
    }
}

/// One entry of the command log: when a command was issued, which kind
/// it was, a human-readable outcome, and whether the I/O succeeded.
#[derive(Debug)]
pub struct Status {
    pub timestamp: Timestamp,
    pub cmd: CommandState,
    pub msg: String,
    pub status: bool,
}

impl Clone for Status {
    fn clone(&self) -> (r: Self)
        ensures
            r == *self,
    {
        Status {
            timestamp: self.timestamp.clone(),
            cmd: self.cmd,
            msg: self.msg.clone(),
            status: self.status,
        }
    }
}

impl Status {
    /// The on-disk row of this record: timestamp text, command text,
    /// message, success flag.
    pub open spec fn spec_row(&self) -> (Seq<char>, Seq<char>, Seq<char>, bool) {
        (self.timestamp@, self.cmd.spec_str(), self.msg@, self.status)
    }

    /// A fresh record, stamped with the current instant.
    pub fn new(cmd: CommandState, msg: String, status: bool) -> (r: Self)
        ensures
            r.cmd == cmd,
            r.msg == msg,
            r.status == status,
    {
        Status { timestamp: Timestamp::now(), cmd, msg, status }
    }
}

/// One page of the command log, with its geometry.
#[derive(Debug)]
pub struct StatusRecord {
    pub page: usize,
    pub per_page: usize,
    pub total_pages: usize,
    pub total_items: usize,
    pub statuses: Vec<Status>,
}

impl StatusRecord {
    /// A page value made of the given parts.
    pub fn new(
        page: usize,
        per_page: usize,
        total_pages: usize,
        total_items: usize,
        statuses: Vec<Status>,
    ) -> (r: Self)
        ensures
            r.page == page,
            r.per_page == per_page,
            r.total_pages == total_pages,
            r.total_items == total_items,
            r.statuses == statuses,
    {
        Self { page, per_page, total_pages, total_items, statuses }
    }
}

/// The requested page geometry: sort order, 1-based page, page size.
#[derive(Debug)]
pub struct StatusPagination {
    pub sort: String,
    pub page: usize,
    pub per_page: usize,
}

impl Default for StatusPagination {
    /// The defaults: newest first, first page, ten records a page.
    fn default() -> (r: Self)
        ensures
            r.sort@ == "desc"@,
            r.page == 1,
            r.per_page == 10,
    {
        StatusPagination { sort: String::from_str("desc"), page: 1, per_page: 10 }
    }
}

/// The log as presented under a sort order: `desc` shows newest first,
/// any other value keeps insertion order.
pub open spec fn sorted_view(s: Seq<Status>, sort: Seq<char>) -> Seq<Status> {
    if sort == "desc"@ {
        s.reverse()
    } else {
        s
    }
}

/// The number of pages: the count of items divided by the page size,
/// rounded up; zero when the log is empty.
pub open spec fn spec_total_pages(total_items: int, per_page: int) -> int {
    if total_items == 0 {
        0
    } else {
        (total_items - 1) / per_page + 1
    }
}

/// The records shown on one page: the contiguous slice of the sorted
/// log from `(page - 1) * per_page` up to `page * per_page`, clipped to
/// the log's end; empty when the page lies past the end.
pub open spec fn spec_page_slice(
    s: Seq<Status>,
    sort: Seq<char>,
    page: int,
    per_page: int,
) -> Seq<Status> {
    let start = (page - 1) * per_page;
    let cap = page * per_page;
    let end = if cap < s.len() {
        cap
    } else {
        s.len() as int
    };
    if start >= end {
        Seq::empty()
    } else {
        sorted_view(s, sort).subrange(start, end)
    }
}

/// Derives one page of the log under the requested geometry. The counts
/// are always reported from the whole log; only `statuses` is clipped.
pub fn get_record(statuses: Vec<Status>, pagination: StatusPagination) -> (r: StatusRecord)
    requires
        pagination.page >= 1,
        pagination.per_page >= 1,
        pagination.page * pagination.per_page <= usize::MAX,
    ensures
        r.page == pagination.page,
        r.per_page == pagination.per_page,
        r.total_items == statuses@.len(),
        r.total_pages == spec_total_pages(statuses@.len() as int, pagination.per_page as int),
        r.statuses@ == spec_page_slice(
            statuses@,
            pagination.sort@,
            pagination.page as int,
            pagination.per_page as int,
        ),
{
    let ghost sorted = sorted_view(statuses@, pagination.sort@);
    let total_items = statuses.len();
    let total_pages = if total_items == 0 {
        0
    } else {
        (total_items - 1) / pagination.per_page + 1
    };
    let cap = pagination.page * pagination.per_page;
    proof {
        assert((pagination.page - 1) * pagination.per_page <= pagination.page
            * pagination.per_page) by (nonlinear_arith)
            requires
                pagination.page >= 1,
                pagination.per_page >= 0,
        ;
    }
    let start = (pagination.page - 1) * pagination.per_page;
    let end = if cap < total_items {
        cap
    } else {
        total_items
    };
    let desc = str_eq(pagination.sort.as_str(), "desc");
    let mut out: Vec<Status> = Vec::new();
    if start < end {
        let mut i = start;
        while i < end
            invariant
                start <= i <= end,
                end <= total_items,
                total_items == statuses@.len(),
                desc == (pagination.sort@ == "desc"@),
                sorted == sorted_view(statuses@, pagination.sort@),
                out@.len() == i - start,
                forall|k: int| 0 <= k < out@.len() ==> out@[k] == sorted[start + k],
            decreases end - i,
        {
            let idx = if desc {
                total_items - 1 - i
            } else {
                i
            };
            out.push(statuses[idx].clone());
            i = i + 1;
        }
    }
    proof {
        assert(out@ =~= spec_page_slice(
            statuses@,
            pagination.sort@,
            pagination.page as int,
            pagination.per_page as int,
        ));
    }
    StatusRecord::new(pagination.page, pagination.per_page, total_pages, total_items, out)
}

/// The totals law: with at least one record and a positive page size,
/// the pages cover every item and the last page is not empty.
pub proof fn lemma_pagination_totals(total_items: int, per_page: int)
    requires
        total_items > 0,
        per_page >= 1,
    ensures
        spec_total_pages(total_items, per_page) * per_page >= total_items,
        total_items > (spec_total_pages(total_items, per_page) - 1) * per_page,
{
    let q = (total_items - 1) / per_page;
    vstd::arithmetic::div_mod::lemma_fundamental_div_mod(total_items - 1, per_page);
    vstd::arithmetic::div_mod::lemma_mod_bound(total_items - 1, per_page);
    assert((q + 1) * per_page == q * per_page + per_page) by (nonlinear_arith);
    assert(q * per_page == per_page * q) by (nonlinear_arith);
}

/// The out-of-range law: a page past the last page yields an empty
/// slice, whatever the sort order.
pub proof fn lemma_page_out_of_range(s: Seq<Status>, sort: Seq<char>, page: int, per_page: int)
    requires
        per_page >= 1,
        page >= 1,
        page > spec_total_pages(s.len() as int, per_page),
    ensures
        spec_page_slice(s, sort, page, per_page).len() == 0,
{
    let n = s.len() as int;
    let pages = spec_total_pages(n, per_page);
    if n == 0 {
        assert((page - 1) * per_page >= 0) by (nonlinear_arith)
            requires
                page >= 1,
                per_page >= 1,
        ;
    } else {
        lemma_pagination_totals(n, per_page);
        assert((page - 1) * per_page >= pages * per_page) by (nonlinear_arith)
            requires
                page - 1 >= pages,
                per_page >= 1,
        ;
    }
}

/// The sort law: the descending view is the reverse of the ascending
/// view of the same log.
pub proof fn lemma_sort_reverse(s: Seq<Status>)
    ensures
        sorted_view(s, "desc"@) == sorted_view(s, "asc"@).reverse(),
{
    reveal_strlit("desc");
    reveal_strlit("asc");
    assert("asc"@.len() != "desc"@.len());
    assert(sorted_view(s, "asc"@) == s);
    assert(sorted_view(s, "desc"@) == s.reverse());
}

} // verus!

//! Paging through rows while checking each row's access: the decisions of the
//! scan, as a state machine. The caller fetches the batches and checks the
//! rows, and feeds each outcome back; the machine says what to do next.
use vstd::prelude::*;
use crate::numbers::{decimal_text, format_i64};
use crate::text::opt_view;
use crate::validators::PageRequest;

verus! {

/// What the caller of a paged scan does next.
pub enum PageStep {
    /// Fetch at most `batch_limit` rows starting at `offset`.
    Fetch { offset: i64, batch_limit: usize },
    /// Check whether row `row` of the current batch is visible.
    Check { row: usize },
    /// Keep the first `keep` accepted items; `next_page_token` resumes the scan.
    Finish { keep: usize, next_page_token: Option<String> },
}

/// The decimal text of an optional position.
pub open spec fn token_text(t: Option<int>) -> Option<Seq<char>> {
    match t {
        Some(v) => Some(decimal_text(v)),
        None => None,
    }
}

/// The abstract state of an item scan.
pub struct ItemScanView {
    pub limit: int,
    pub start_offset: int,
    pub batch_limit: int,
    pub max_scan_rows: int,
    pub accepted: int,
    pub scan_offset: int,
    pub scanned_rows: int,
    pub has_more_in_db: bool,
    pub batch_len: int,
    pub batch_pos: int,
    pub exhausted: bool,
}

/// A scan that collects up to `limit` visible items (and one more, to know
/// that another page exists), reading batches of `limit + 1` rows and at most
/// about `20 * limit` rows in all.
pub struct ReaderVisibleItemScan {
    limit: i64,
    start_offset: i64,
    batch_limit: usize,
    max_scan_rows: usize,
    accepted: usize,
    scan_offset: i64,
    scanned_rows: usize,
    has_more_in_db: bool,
    batch_len: usize,
    batch_pos: usize,
    exhausted: bool,
}

impl View for ReaderVisibleItemScan {
    type V = ItemScanView;

    closed spec fn view(&self) -> ItemScanView {
        ItemScanView {
            limit: self.limit as int,
            start_offset: self.start_offset as int,
            batch_limit: self.batch_limit as int,
            max_scan_rows: self.max_scan_rows as int,
            accepted: self.accepted as int,
            scan_offset: self.scan_offset as int,
            scanned_rows: self.scanned_rows as int,
            has_more_in_db: self.has_more_in_db,
            batch_len: self.batch_len as int,
            batch_pos: self.batch_pos as int,
            exhausted: self.exhausted,
        }
    }
}

/// The invariant of an item scan.
pub open spec fn item_scan_wf(s: ItemScanView) -> bool {
    &&& 0 <= s.limit
    &&& s.batch_limit == s.limit + 1
    &&& s.max_scan_rows == if s.limit * 20 > s.limit + 1 {
        s.limit * 20
    } else {
        s.limit + 1
    }
    &&& 0 <= s.accepted <= s.limit + 1
    &&& 0 <= s.batch_pos <= s.batch_len
    &&& s.scan_offset == s.start_offset + s.scanned_rows
    &&& s.accepted + (s.batch_len - s.batch_pos) <= s.scanned_rows
    &&& s.accepted > s.limit ==> s.batch_pos == s.batch_len
    &&& s.exhausted ==> s.batch_pos == s.batch_len && !s.has_more_in_db
}

/// The next step of an item scan.
pub open spec fn item_scan_step_kind(s: ItemScanView) -> int {
    if s.batch_pos < s.batch_len {
        1
    } else if !s.exhausted && s.accepted <= s.limit && s.scanned_rows < s.max_scan_rows {
        0
    } else {
        2
    }
}

/// How many items a finished scan keeps.
pub open spec fn item_scan_keep(s: ItemScanView) -> int {
    if s.accepted > s.limit {
        s.limit
    } else {
        s.accepted
    }
}

/// Where the next page of a finished scan starts, if there is one.
pub open spec fn item_scan_token(s: ItemScanView) -> Option<int> {
    if s.accepted > s.limit {
        Some(s.scan_offset - (s.accepted - s.limit))
    } else if s.has_more_in_db {
        Some(s.scan_offset)
    } else {
        None
    }
}

impl ReaderVisibleItemScan {
    /// Starts a scan of the page `page`.
    pub fn new(page: PageRequest) -> (s: ReaderVisibleItemScan)
        requires
            0 <= page.limit,
            page.limit * 20 <= usize::MAX,
            page.limit * 20 <= i64::MAX,
        ensures
            item_scan_wf(s@),
            s@.limit == page.limit,
            s@.start_offset == page.offset,
            s@.scan_offset == page.offset,
            s@.accepted == 0,
            s@.scanned_rows == 0,
            s@.batch_len == 0,
            !s@.exhausted,
            !s@.has_more_in_db,
    {
        let batch_limit = (page.limit + 1) as usize;
        let twenty = (page.limit * 20) as usize;
        let max_scan_rows = if twenty > batch_limit {
            twenty
        } else {
            batch_limit
        };
        ReaderVisibleItemScan {
            limit: page.limit,
            start_offset: page.offset,
            batch_limit,
            max_scan_rows,
            accepted: 0,
            scan_offset: page.offset,
            scanned_rows: 0,
            has_more_in_db: false,
            batch_len: 0,
            batch_pos: 0,
            exhausted: false,
        }
    }

    /// What to do next.
    pub fn next_step(&self) -> (step: PageStep)
        requires
            item_scan_wf(self@),
        ensures
            item_scan_step_kind(self@) == 1 ==> step == (PageStep::Check {
                row: self@.batch_pos as usize,
            }),
            item_scan_step_kind(self@) == 0 ==> (step matches PageStep::Fetch { offset, batch_limit }
                && offset == self@.scan_offset && batch_limit == self@.batch_limit),
            item_scan_step_kind(self@) == 2 ==> (step matches PageStep::Finish {
                keep,
                next_page_token,
            } && keep == item_scan_keep(self@) && opt_view(next_page_token) == token_text(
                item_scan_token(self@),
            )),
    {
        if self.batch_pos < self.batch_len {
            return PageStep::Check { row: self.batch_pos };
        }
        if !self.exhausted && self.accepted as i64 <= self.limit && self.scanned_rows
            < self.max_scan_rows {
            return PageStep::Fetch { offset: self.scan_offset, batch_limit: self.batch_limit };
        }
        if self.accepted as i64 > self.limit {
            let overflow = (self.accepted as i64) - self.limit;
            let keep = self.limit as usize;
            PageStep::Finish {
                keep,
                next_page_token: Some(format_i64(self.scan_offset - overflow)),
            }
        } else if self.has_more_in_db {
            PageStep::Finish {
                keep: self.accepted,
                next_page_token: Some(format_i64(self.scan_offset)),
            }
        } else {
            PageStep::Finish { keep: self.accepted, next_page_token: None }
        }
    }

    /// Takes in a fetched batch of `rows` rows.
    pub fn record_batch(&mut self, rows: usize)
        requires
            item_scan_wf(old(self)@),
            item_scan_step_kind(old(self)@) == 0,
            old(self)@.scanned_rows + rows <= usize::MAX,
            old(self)@.scan_offset + rows <= i64::MAX,
            rows <= i64::MAX,
        ensures
            item_scan_wf(final(self)@),
            final(self)@.limit == old(self)@.limit,
            final(self)@.start_offset == old(self)@.start_offset,
            final(self)@.accepted == old(self)@.accepted,
            rows == 0 ==> final(self)@.exhausted && final(self)@.scanned_rows
                == old(self)@.scanned_rows,
            rows > 0 ==> {
                &&& final(self)@.scanned_rows == old(self)@.scanned_rows + rows
                &&& final(self)@.batch_len == rows
                &&& final(self)@.batch_pos == 0
                &&& final(self)@.has_more_in_db == (rows == old(self)@.batch_limit)
                &&& !final(self)@.exhausted
            },
    {
        if rows == 0 {
            self.has_more_in_db = false;
            self.exhausted = true;
            self.batch_len = 0;
            self.batch_pos = 0;
            return;
        }
        self.scanned_rows = self.scanned_rows + rows;
        self.scan_offset = self.scan_offset + rows as i64;
        self.has_more_in_db = rows == self.batch_limit;
        self.batch_len = rows;
        self.batch_pos = 0;
    }

    /// Takes in whether the row under check is visible to the subject.
    pub fn record_check(&mut self, visible: bool)
        requires
            item_scan_wf(old(self)@),
            item_scan_step_kind(old(self)@) == 1,
        ensures
            item_scan_wf(final(self)@),
            final(self)@.limit == old(self)@.limit,
            final(self)@.start_offset == old(self)@.start_offset,
            final(self)@.scanned_rows == old(self)@.scanned_rows,
            final(self)@.accepted == old(self)@.accepted + if visible {
                1int
            } else {
                0
            },
    {
        if visible {
            self.accepted = self.accepted + 1;
        }
        self.batch_pos = self.batch_pos + 1;
        if self.accepted as i64 > self.limit {
            self.batch_pos = self.batch_len;
        }
    }
}

/// A finished scan keeps at most `limit` items, and its next page starts at
/// or after the page it scanned.
pub proof fn item_scan_finish_bounds(s: ItemScanView)
    requires
        item_scan_wf(s),
    ensures
        0 <= item_scan_keep(s) <= s.limit,
        item_scan_keep(s) <= s.accepted,
        item_scan_token(s) matches Some(t) ==> s.start_offset <= t <= s.scan_offset,
{
}

/// A scan reads a bounded number of rows: a batch is fetched only while fewer
/// than `max_scan_rows` rows were read, so with batches of at most
/// `batch_limit` rows the scan never reads `max_scan_rows + batch_limit` rows.
pub proof fn item_scan_reads_bounded_rows(s: ItemScanView, rows: int)
    requires
        item_scan_wf(s),
        item_scan_step_kind(s) == 0,
        0 <= rows <= s.batch_limit,
    ensures
        s.scanned_rows + rows < s.max_scan_rows + s.batch_limit,
{
}

/// What the caller of a change-feed scan does next.
pub enum ChangeStep {
    /// Fetch at most `batch_limit` changes after the sequence `cursor`.
    Fetch { cursor: i64, batch_limit: usize },
    /// Report the sequence number of change `row` and whether it names a node.
    Inspect { row: usize },
    /// Check whether the node of change `row` is visible to the subject.
    CheckAccess { row: usize },
    /// Keep the first `keep` accepted changes; `next_page_token` resumes the feed.
    Finish { keep: usize, next_page_token: Option<String> },
}

/// The abstract state of a change-feed scan.
pub struct ChangeScanView {
    pub limit: int,
    pub start_cursor: int,
    pub batch_limit: int,
    pub max_scan_rows: int,
    pub accepted: Seq<i64>,
    pub scan_cursor: int,
    pub scanned_rows: int,
    pub has_more_in_db: bool,
    pub batch_len: int,
    pub batch_pos: int,
    pub exhausted: bool,
    pub awaiting_access: bool,
    pub pending_seq: int,
}

/// A scan of the change feed that collects up to `limit` visible changes
/// (and one more, to know that another page exists). A change without a node
/// is visible to every reader of the space; one with a node needs a check.
pub struct ReaderVisibleChangeScan {
    limit: i64,
    start_cursor: i64,
    batch_limit: usize,
    max_scan_rows: usize,
    accepted_count: usize,
    last_accepted: Option<i64>,
    prev_accepted: Option<i64>,
    accepted: Ghost<Seq<i64>>,
    scan_cursor: i64,
    scanned_rows: usize,
    has_more_in_db: bool,
    batch_len: usize,
    batch_pos: usize,
    exhausted: bool,
    awaiting_access: bool,
    pending_seq: i64,
}

impl View for ReaderVisibleChangeScan {
    type V = ChangeScanView;

    closed spec fn view(&self) -> ChangeScanView {
        ChangeScanView {
            limit: self.limit as int,
            start_cursor: self.start_cursor as int,
            batch_limit: self.batch_limit as int,
            max_scan_rows: self.max_scan_rows as int,
            accepted: self.accepted@,
            scan_cursor: self.scan_cursor as int,
            scanned_rows: self.scanned_rows as int,
            has_more_in_db: self.has_more_in_db,
            batch_len: self.batch_len as int,
            batch_pos: self.batch_pos as int,
            exhausted: self.exhausted,
            awaiting_access: self.awaiting_access,
            pending_seq: self.pending_seq as int,
        }
    }
}

/// The invariant of a change scan.
pub open spec fn change_scan_wf(s: ChangeScanView) -> bool {
    &&& 0 <= s.limit
    &&& s.batch_limit == s.limit + 1
    &&& s.max_scan_rows == if s.limit * 20 > s.limit + 1 {
        s.limit * 20
    } else {
        s.limit + 1
    }
    &&& s.accepted.len() <= s.limit + 1
    &&& 0 <= s.batch_pos <= s.batch_len
    &&& s.awaiting_access ==> s.batch_pos < s.batch_len
    &&& s.accepted.len() > s.limit ==> s.batch_pos == s.batch_len
    &&& s.exhausted ==> s.batch_pos == s.batch_len && !s.has_more_in_db
}

/// The exact state of a scan, tying its counters to the accepted changes.
closed spec fn change_scan_inner(s: ReaderVisibleChangeScan) -> bool {
    &&& s.accepted_count == s.accepted@.len()
    &&& s.last_accepted == if s.accepted@.len() >= 1 {
        Some(s.accepted@[s.accepted@.len() - 1])
    } else {
        None
    }
    &&& s.prev_accepted == if s.accepted@.len() >= 2 {
        Some(s.accepted@[s.accepted@.len() - 2])
    } else {
        None
    }
}

/// The next step of a change scan: 0 fetch, 1 inspect, 2 check access, 3 finish.
pub open spec fn change_scan_step_kind(s: ChangeScanView) -> int {
    if s.awaiting_access {
        2
    } else if s.batch_pos < s.batch_len {
        1
    } else if !s.exhausted && s.accepted.len() <= s.limit && s.scanned_rows < s.max_scan_rows {
        0
    } else {
        3
    }
}

/// How many changes a finished scan keeps.
pub open spec fn change_scan_keep(s: ChangeScanView) -> int {
    if s.accepted.len() > s.limit {
        s.limit
    } else {
        s.accepted.len() as int
    }
}

/// Where the next page of a finished change scan starts: after the last kept
/// change when the page overflowed, else after the last scanned change when
/// the feed may hold more.
pub open spec fn change_scan_token(s: ChangeScanView) -> Option<int> {
    if s.accepted.len() > s.limit {
        if s.limit >= 1 {
            Some(s.accepted[s.limit - 1] as int)
        } else {
            None
        }
    } else if s.has_more_in_db {
        Some(s.scan_cursor)
    } else {
        None
    }
}

impl ReaderVisibleChangeScan {
    /// The well-formedness of a change scan.
    pub closed spec fn wf(&self) -> bool {
        change_scan_wf(self@) && change_scan_inner(*self)
    }

    /// Starts a scan of the change page `page` (its offset is the cursor).
    pub fn new(page: PageRequest) -> (s: ReaderVisibleChangeScan)
        requires
            0 <= page.limit,
            page.limit * 20 <= usize::MAX,
            page.limit * 20 <= i64::MAX,
        ensures
            s.wf(),
            s@.limit == page.limit,
            s@.start_cursor == page.offset,
            s@.scan_cursor == page.offset,
            s@.accepted.len() == 0,
            s@.scanned_rows == 0,
            s@.batch_len == 0,
            !s@.exhausted,
            !s@.awaiting_access,
            !s@.has_more_in_db,
    {
        let batch_limit = (page.limit + 1) as usize;
        let twenty = (page.limit * 20) as usize;
        let max_scan_rows = if twenty > batch_limit {
            twenty
        } else {
            batch_limit
        };
        ReaderVisibleChangeScan {
            limit: page.limit,
            start_cursor: page.offset,
            batch_limit,
            max_scan_rows,
            accepted_count: 0,
            last_accepted: None,
            prev_accepted: None,
            accepted: Ghost(Seq::empty()),
            scan_cursor: page.offset,
            scanned_rows: 0,
            has_more_in_db: false,
            batch_len: 0,
            batch_pos: 0,
            exhausted: false,
            awaiting_access: false,
            pending_seq: 0,
        }
    }

    /// What to do next.
    pub fn next_step(&self) -> (step: ChangeStep)
        requires
            self.wf(),
        ensures
            change_scan_step_kind(self@) == 2 ==> step == (ChangeStep::CheckAccess {
                row: self@.batch_pos as usize,
            }),
            change_scan_step_kind(self@) == 1 ==> step == (ChangeStep::Inspect {
                row: self@.batch_pos as usize,
            }),
            change_scan_step_kind(self@) == 0 ==> (step matches ChangeStep::Fetch {
                cursor,
                batch_limit,
            } && cursor == self@.scan_cursor && batch_limit == self@.batch_limit),
            change_scan_step_kind(self@) == 3 ==> (step matches ChangeStep::Finish {
                keep,
                next_page_token,
            } && keep == change_scan_keep(self@) && opt_view(next_page_token) == token_text(
                change_scan_token(self@),
            )),
    {
        if self.awaiting_access {
            return ChangeStep::CheckAccess { row: self.batch_pos };
        }
        if self.batch_pos < self.batch_len {
            return ChangeStep::Inspect { row: self.batch_pos };
        }
        if !self.exhausted && self.accepted_count as i64 <= self.limit && self.scanned_rows
            < self.max_scan_rows {
            return ChangeStep::Fetch { cursor: self.scan_cursor, batch_limit: self.batch_limit };
        }
        if self.accepted_count as i64 > self.limit {
            let keep = self.limit as usize;
            let token = match self.prev_accepted {
                Some(seq) => Some(format_i64(seq)),
                None => None,
            };
            proof {
                if self@.limit >= 1 {
                    assert(self.accepted@.len() == self@.limit + 1);
                }
            }
            ChangeStep::Finish { keep, next_page_token: token }
        } else if self.has_more_in_db {
            ChangeStep::Finish {
                keep: self.accepted_count,
                next_page_token: Some(format_i64(self.scan_cursor)),
            }
        } else {
            ChangeStep::Finish { keep: self.accepted_count, next_page_token: None }
        }
    }

    /// Takes in a fetched batch of `rows` changes.
    pub fn record_batch(&mut self, rows: usize)
        requires
            old(self).wf(),
            change_scan_step_kind(old(self)@) == 0,
            old(self)@.scanned_rows + rows <= usize::MAX,
        ensures
            final(self).wf(),
            final(self)@.limit == old(self)@.limit,
            final(self)@.accepted == old(self)@.accepted,
            final(self)@.scan_cursor == old(self)@.scan_cursor,
            rows == 0 ==> final(self)@.exhausted,
            rows > 0 ==> {
                &&& final(self)@.scanned_rows == old(self)@.scanned_rows + rows
                &&& final(self)@.batch_len == rows
                &&& final(self)@.batch_pos == 0
                &&& final(self)@.has_more_in_db == (rows == old(self)@.batch_limit)
            },
    {
        if rows == 0 {
            self.has_more_in_db = false;
            self.exhausted = true;
            self.batch_len = 0;
            self.batch_pos = 0;
            return;
        }
        self.scanned_rows = self.scanned_rows + rows;
        self.has_more_in_db = rows == self.batch_limit;
        self.batch_len = rows;
        self.batch_pos = 0;
    }

    fn accept(&mut self, seq: i64)
        requires
            old(self).wf(),
            old(self)@.accepted.len() <= old(self)@.limit,
            old(self)@.batch_pos < old(self)@.batch_len,
            !old(self)@.awaiting_access,
        ensures
            change_scan_inner(*final(self)),
            final(self)@.accepted == old(self)@.accepted.push(seq),
            final(self)@ == (ChangeScanView { accepted: old(self)@.accepted.push(seq), ..old(self)@ }),
    {
        self.accepted_count = self.accepted_count + 1;
        self.prev_accepted = self.last_accepted;
        self.last_accepted = Some(seq);
        self.accepted = Ghost(self.accepted@.push(seq));
    }

    fn advance(&mut self)
        requires
            change_scan_inner(*old(self)),
            change_scan_wf(ChangeScanView { batch_pos: old(self)@.batch_pos + 1, ..old(self)@ })
                || old(self)@.accepted.len() > old(self)@.limit,
            old(self)@.batch_pos < old(self)@.batch_len,
            !old(self)@.awaiting_access,
            old(self)@.accepted.len() <= old(self)@.limit + 1,
            0 <= old(self)@.limit,
            old(self)@.batch_limit == old(self)@.limit + 1,
            old(self)@.max_scan_rows == if old(self)@.limit * 20 > old(self)@.limit + 1 {
                old(self)@.limit * 20
            } else {
                old(self)@.limit + 1
            },
            !old(self)@.exhausted,
        ensures
            final(self).wf(),
            final(self)@.accepted == old(self)@.accepted,
            final(self)@.scan_cursor == old(self)@.scan_cursor,
            final(self)@.limit == old(self)@.limit,
            !final(self)@.awaiting_access,
    {
        self.batch_pos = self.batch_pos + 1;
        if self.accepted_count as i64 > self.limit {
            self.batch_pos = self.batch_len;
        }
    }

    /// Takes in the sequence number of the change under inspection and
    /// whether it names a node.
    pub fn record_change(&mut self, sequence_no: i64, has_node: bool)
        requires
            old(self).wf(),
            change_scan_step_kind(old(self)@) == 1,
        ensures
            final(self).wf(),
            final(self)@.limit == old(self)@.limit,
            final(self)@.scan_cursor == sequence_no,
            !has_node ==> final(self)@.accepted == old(self)@.accepted.push(sequence_no),
            has_node ==> final(self)@.accepted == old(self)@.accepted && final(self)@.awaiting_access
                && final(self)@.pending_seq == sequence_no,
    {
        self.scan_cursor = sequence_no;
        if has_node {
            self.awaiting_access = true;
            self.pending_seq = sequence_no;
            return;
        }
        self.accept(sequence_no);
        self.advance();
    }

    /// Takes in whether the node of the change under check is visible.
    pub fn record_access(&mut self, visible: bool)
        requires
            old(self).wf(),
            change_scan_step_kind(old(self)@) == 2,
        ensures
            final(self).wf(),
            final(self)@.limit == old(self)@.limit,
            final(self)@.scan_cursor == old(self)@.scan_cursor,
            !final(self)@.awaiting_access,
            visible ==> final(self)@.accepted == old(self)@.accepted.push(old(self)@.pending_seq as i64),
            !visible ==> final(self)@.accepted == old(self)@.accepted,
    {
        self.awaiting_access = false;
        if visible {
            let seq = self.pending_seq;
            self.accept(seq);
        }
        self.advance();
    }
}

/// A finished change scan keeps at most `limit` changes, and when the page
/// overflowed with at least one kept change, the next page resumes after
/// the last kept one.
pub proof fn change_scan_finish_bounds(s: ChangeScanView)
    requires
        change_scan_wf(s),
    ensures
        0 <= change_scan_keep(s) <= s.limit,
        change_scan_keep(s) <= s.accepted.len(),
        s.accepted.len() > s.limit && s.limit >= 1 ==> change_scan_token(s) == Some(
            s.accepted[change_scan_keep(s) - 1] as int,
        ),
{
}

/// The items `start..end` of a listing of `len` items that a page reads:
/// after skipping `offset`, at most `limit + 1` (the extra one tells that
/// another page follows).
pub fn page_window(len: usize, offset: i64, limit: i64) -> (r: (usize, usize))
    requires
        offset >= 0,
        limit >= 0,
    ensures
        r.0 == if offset < len { offset as int } else { len as int },
        r.1 == if r.0 + limit + 1 < len { r.0 + limit + 1 } else { len as int },
        r.0 <= r.1 <= len,
{
    let start: usize = if (offset as u128) < (len as u128) {
        offset as usize
    } else {
        len
    };
    let rest = len - start;
    let end: usize = if (limit as u128) + 1 < (rest as u128) {
        start + (limit as usize) + 1
    } else {
        len
    };
    (start, end)
}

} // verus!

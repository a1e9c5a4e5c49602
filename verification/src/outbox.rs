//! The domain outbox relay: which events it claims, how a delivery attempt is
//! settled, and the tally of a dispatch pass.
use vstd::prelude::*;
use crate::transaction::DatabaseEngine;
use crate::numbers::{all_digits, digits_value, is_digit};
use crate::text::{
    chars_of, push_char, concat_str, copy_str, trim, trim_str, opt_view, text_eq, ascii_lowercase,
    to_ascii_lowercase, contains_text_in, contains_seq, occurs_at,
};

verus! {

/// Attempts after which an outbox event is given up.
pub const MAX_OUTBOX_ATTEMPTS: i32 = 10;

/// Events claimed in one dispatch pass at most.
pub const OUTBOX_BATCH_SIZE: u32 = 100;

/// Webhook channels an event fans out to at most.
pub const MAX_WATCH_CHANNELS_PER_OUTBOX_EVENT: i64 = 200;

/// Seconds between dispatch passes when not configured.
pub const DEFAULT_DISPATCH_INTERVAL_SECONDS: u64 = 15;

/// The error an event without any active watch channel fails with.
pub const NO_ACTIVE_WATCH_CHANNELS_ERROR: &'static str = "no_active_watch_channels";

/// The tally of one dispatch pass.
#[derive(Debug, Clone, Default)]
pub struct DomainOutboxDispatchResult {
    pub processed: usize,
    pub delivered: usize,
    pub failed: usize,
}

/// A setting value that switches the embedded dispatcher off: `0`, `false`,
/// `off` or `disabled`, in any ASCII case, around white space.
pub open spec fn is_disabling_value(v: Seq<char>) -> bool {
    let l = ascii_lowercase(trim(v));
    l == "0"@ || l == "false"@ || l == "off"@ || l == "disabled"@
}

/// Whether the embedded dispatch setting, if present, switches it off.
pub fn embedded_dispatch_disabled_by(value: Option<String>) -> (r: bool)
    ensures
        r == (value matches Some(v) && is_disabling_value(v@)),
{
    match value {
        Some(v) => {
            let t = trim_str(v.as_str());
            let l = to_ascii_lowercase(t.as_str());
            text_eq(l.as_str(), "0") || text_eq(l.as_str(), "false") || text_eq(l.as_str(), "off")
                || text_eq(l.as_str(), "disabled")
        },
        None => false,
    }
}

/// What `str::parse::<u64>` gives: an optional `+`, then one or more ASCII
/// digits, within the range of `u64`.
pub open spec fn parse_u64_text(s: Seq<char>) -> Option<u64> {
    let ds = if s.len() > 0 && s[0] == '+' {
        s.drop_first()
    } else {
        s
    };
    if ds.len() == 0 || !all_digits(ds) || digits_value(ds) > u64::MAX {
        None
    } else {
        Some(digits_value(ds) as u64)
    }
}

/// Parses decimal text as `str::parse::<u64>` does.
pub fn parse_u64(text: &str) -> (r: Option<u64>)
    ensures
        r == parse_u64_text(text@),
{
    let v = chars_of(text);
    let n = v.len();
    let start: usize = if n > 0 && v[0] == '+' {
        1
    } else {
        0
    };
    let ghost ds = if text@.len() > 0 && text@[0] == '+' {
        text@.drop_first()
    } else {
        text@
    };
    assert(ds =~= v@.subrange(start as int, n as int));
    if start == n {
        return None;
    }
    let mut acc: u128 = 0;
    let mut big = false;
    let mut k = start;
    while k < n
        invariant
            start <= k <= n == v@.len(),
            v@ == text@,
            ds == v@.subrange(start as int, n as int),
            ds == (if text@.len() > 0 && text@[0] == '+' {
                text@.drop_first()
            } else {
                text@
            }),
            all_digits(v@.subrange(start as int, k as int)),
            big ==> digits_value(v@.subrange(start as int, k as int)) > u64::MAX,
            !big ==> acc == digits_value(v@.subrange(start as int, k as int)) && acc <= u64::MAX,
        decreases n - k,
    {
        let c = v[k];
        if !('0' <= c && c <= '9') {
            proof {
                assert(ds[k - start] == c);
                assert(!is_digit(ds[k - start]));
                assert(!all_digits(ds));
                assert(parse_u64_text(text@) is None);
            }
            return None;
        }
        proof {
            let sub = v@.subrange(start as int, n as int);
            assert(sub.subrange(0, k - start + 1) =~= v@.subrange(start as int, k + 1));
            assert(sub.subrange(0, k - start) =~= v@.subrange(start as int, k as int));
            assert(v@.subrange(start as int, k + 1).drop_last() =~= v@.subrange(
                start as int,
                k as int,
            ));
            assert forall|i: int| 0 <= i < v@.subrange(start as int, k + 1).len() implies is_digit(
                #[trigger] v@.subrange(start as int, k + 1)[i],
            ) by {
                if i < k - start {
                    assert(v@.subrange(start as int, k + 1)[i] == v@.subrange(
                        start as int,
                        k as int,
                    )[i]);
                }
            }
        }
        if !big {
            let d = (c as u32 - 48) as u128;
            assert(acc * 10 <= 184467440737095516150u128) by (nonlinear_arith)
                requires
                    acc <= 18446744073709551615u128,
            ;
            let next = acc * 10 + d;
            if next > 18446744073709551615u128 {
                big = true;
            } else {
                acc = next;
            }
        }
        k = k + 1;
    }
    assert(v@.subrange(start as int, n as int) =~= ds);
    if big {
        None
    } else {
        Some(acc as u64)
    }
}

/// The dispatch interval of a setting: a positive whole number of seconds,
/// or the default of 15.
pub open spec fn dispatch_interval_of(value: Option<Seq<char>>) -> u64 {
    match value {
        Some(v) => match parse_u64_text(trim(v)) {
            Some(n) => if n > 0 {
                n
            } else {
                15
            },
            None => 15,
        },
        None => 15,
    }
}

/// The dispatch interval in seconds that a setting asks for.
pub fn dispatch_interval_seconds(value: Option<String>) -> (r: u64)
    ensures
        r == dispatch_interval_of(opt_view(value)),
{
    match value {
        Some(v) => {
            let t = trim_str(v.as_str());
            match parse_u64(t.as_str()) {
                Some(n) => if n > 0 {
                    n
                } else {
                    DEFAULT_DISPATCH_INTERVAL_SECONDS
                },
                None => DEFAULT_DISPATCH_INTERVAL_SECONDS,
            }
        },
        None => DEFAULT_DISPATCH_INTERVAL_SECONDS,
    }
}

/// `s` with every `'` doubled, as an SQL string literal body.
pub open spec fn sql_escape(s: Seq<char>) -> Seq<char>
    decreases s.len(),
{
    if s.len() == 0 {
        Seq::<char>::empty()
    } else if s.last() == '\'' {
        sql_escape(s.drop_last()) + seq!['\'', '\'']
    } else {
        sql_escape(s.drop_last()).push(s.last())
    }
}

/// The quoted SQL literals of `ids`, separated by `, `.
pub open spec fn quoted_list(ids: Seq<Seq<char>>) -> Seq<char>
    decreases ids.len(),
{
    if ids.len() == 0 {
        Seq::<char>::empty()
    } else if ids.len() == 1 {
        seq!['\''] + sql_escape(ids[0]) + seq!['\'']
    } else {
        quoted_list(ids.drop_last()) + seq![',', ' ', '\''] + sql_escape(ids.last()) + seq!['\'']
    }
}

/// The clause that keeps already processed events out of a claim.
pub open spec fn exclude_clause(ids: Seq<Seq<char>>) -> Seq<char> {
    if ids.len() == 0 {
        Seq::<char>::empty()
    } else {
        " AND id NOT IN ("@ + quoted_list(ids) + ")"@
    }
}

proof fn lemma_occurs_in_longer(a: Seq<char>, b: Seq<char>, needle: Seq<char>)
    requires
        contains_seq(a, needle),
    ensures
        contains_seq(a + b, needle),
{
    let i = choose|i: int| occurs_at(a, needle, i);
    assert((a + b).subrange(i, i + needle.len()) =~= a.subrange(i, i + needle.len()));
    assert(occurs_at(a + b, needle, i));
}

proof fn lemma_occurs_at_end(a: Seq<char>, needle: Seq<char>)
    ensures
        contains_seq(a + needle, needle),
{
    assert((a + needle).subrange(a.len() as int, (a.len() + needle.len()) as int) =~= needle);
    assert(occurs_at(a + needle, needle, a.len() as int));
}

/// The quoted list names each id, quoted.
proof fn lemma_quoted_list_names(ids: Seq<Seq<char>>, k: int)
    requires
        0 <= k < ids.len(),
    ensures
        contains_seq(quoted_list(ids), seq!['\''] + sql_escape(ids[k]) + seq!['\'']),
    decreases ids.len(),
{
    let q = seq!['\''] + sql_escape(ids[k]) + seq!['\''];
    if ids.len() == 1 {
        assert(quoted_list(ids) == q);
        lemma_occurs_at_end(Seq::<char>::empty(), q);
        assert(Seq::<char>::empty() + q =~= q);
    } else {
        let dl = ids.drop_last();
        let tail = seq![',', ' ', '\''] + sql_escape(ids.last()) + seq!['\''];
        assert(quoted_list(ids) =~= quoted_list(dl) + tail);
        if k < ids.len() - 1 {
            lemma_quoted_list_names(dl, k);
            assert(dl[k] == ids[k]);
            lemma_occurs_in_longer(quoted_list(dl), tail, q);
        } else {
            assert(quoted_list(ids) =~= (quoted_list(dl) + seq![',', ' ']) + q);
            lemma_occurs_at_end(quoted_list(dl) + seq![',', ' '], q);
        }
    }
}

/// A pass keeps each event it has claimed out of its later claims: the
/// exclusion clause it hands to every later claim names the event's id,
/// quoted, and names no id twice.
pub proof fn claimed_events_are_excluded_from_later_claims(s: OutboxPassView, id: Seq<char>)
    requires
        outbox_pass_wf(s),
        s.excluded.contains(id),
    ensures
        contains_seq(exclude_clause(s.excluded), seq!['\''] + sql_escape(id) + seq!['\'']),
        excluded_ids_distinct(s.excluded),
{
    let k = choose|k: int| 0 <= k < s.excluded.len() && s.excluded[k] == id;
    let q = seq!['\''] + sql_escape(id) + seq!['\''];
    lemma_quoted_list_names(s.excluded, k);
    let i = choose|i: int| occurs_at(quoted_list(s.excluded), q, i);
    let pre = " AND id NOT IN ("@;
    assert((pre + quoted_list(s.excluded)).subrange(pre.len() + i, pre.len() + i + q.len())
        =~= quoted_list(s.excluded).subrange(i, i + q.len()));
    assert(occurs_at(pre + quoted_list(s.excluded), q, pre.len() + i));
    lemma_occurs_in_longer(pre + quoted_list(s.excluded), ")"@, q);
}

/// Appends `s` as the body of an SQL string literal.
fn push_sql_escaped(out: &mut String, s: &str)
    ensures
        final(out)@ == old(out)@ + sql_escape(s@),
{
    let v = chars_of(s);
    let mut k: usize = 0;
    assert(old(out)@ + sql_escape(v@.take(0)) =~= old(out)@);
    while k < v.len()
        invariant
            v@ == s@,
            k <= v@.len(),
            out@ == old(out)@ + sql_escape(v@.take(k as int)),
        decreases v.len() - k,
    {
        let c = v[k];
        assert(v@.take(k + 1).drop_last() =~= v@.take(k as int));
        assert(v@.take(k + 1).last() == c);
        if c == '\'' {
            push_char(out, '\'');
            push_char(out, '\'');
            assert(out@ =~= old(out)@ + sql_escape(v@.take(k + 1)));
        } else {
            push_char(out, c);
            assert(out@ =~= old(out)@ + sql_escape(v@.take(k + 1)));
        }
        k = k + 1;
    }
    assert(v@.take(v@.len() as int) =~= v@);
}

/// Builds the clause that excludes the events processed earlier in a pass.
pub fn build_outbox_claim_exclude_clause(exclude_ids: &Vec<String>) -> (r: String)
    ensures
        r@ == exclude_clause(exclude_ids@.map_values(|x: String| x@)),
{
    let ghost ids = exclude_ids@.map_values(|x: String| x@);
    if exclude_ids.len() == 0 {
        return String::new();
    }
    let mut list = String::new();
    let mut k: usize = 0;
    while k < exclude_ids.len()
        invariant
            ids == exclude_ids@.map_values(|x: String| x@),
            k <= exclude_ids@.len(),
            list@ == quoted_list(ids.take(k as int)),
        decreases exclude_ids.len() - k,
    {
        assert(ids.take(k + 1).drop_last() =~= ids.take(k as int));
        assert(ids.take(k + 1).last() == exclude_ids@[k as int]@);
        if k > 0 {
            push_char(&mut list, ',');
            push_char(&mut list, ' ');
        }
        push_char(&mut list, '\'');
        push_sql_escaped(&mut list, exclude_ids[k].as_str());
        push_char(&mut list, '\'');
        proof {
            if k == 0 {
                assert(ids.take(1)[0] == exclude_ids@[0]@);
                assert(list@ =~= quoted_list(ids.take(1)));
            } else {
                assert(list@ =~= quoted_list(ids.take(k + 1)));
            }
        }
        k = k + 1;
    }
    assert(ids.take(exclude_ids@.len() as int) =~= ids);
    let head = concat_str(" AND id NOT IN (", list.as_str());
    concat_str(head.as_str(), ")")
}

/// The active change channels an event of tenant `$1` and space `$2` is
/// delivered to, with expiry after `$3`: channels of the whole tenant or of
/// that space, oldest first, at most `$4`.
pub const OUTBOX_CHANNEL_SELECTION_SQL: &'static str = "SELECT id, address FROM dr_drive_watch_channel WHERE tenant_id=$1 AND lifecycle_status='active' AND resource_type='changes' AND (space_id IS NULL OR space_id=$2) AND expiration_epoch_ms > $3 ORDER BY created_at ASC LIMIT $4";

/// The statement that claims the oldest pending event with fewer than `$1`
/// attempts and counts the attempt, leaving out the events `exclude_clause`
/// names; PostgreSQL also skips events locked by another dispatcher.
pub open spec fn outbox_claim_text(engine: DatabaseEngine, exclude_clause: Seq<char>) -> Seq<char> {
    "UPDATE dr_drive_domain_outbox SET attempt_count = attempt_count + 1 WHERE id = (SELECT id FROM dr_drive_domain_outbox WHERE delivery_status = 'pending' AND attempt_count < $1"@
        + exclude_clause + match engine {
        DatabaseEngine::Postgresql => " ORDER BY created_at ASC LIMIT 1 FOR UPDATE SKIP LOCKED)"@,
        DatabaseEngine::Sqlite => " ORDER BY created_at ASC LIMIT 1)"@,
    } + " RETURNING id, tenant_id, space_id, attempt_count, payload_json"@
}

/// The claim takes only pending events with attempts left, and leaves out
/// the excluded ones: the statement holds the filter
/// `delivery_status = 'pending' AND attempt_count < $1` followed at once by
/// the exclusion clause, so an event already delivered or failed, or
/// already processed in the pass, is never claimed.
pub proof fn claims_only_pending_events(engine: DatabaseEngine, exclude_clause: Seq<char>)
    ensures
        contains_seq(
            outbox_claim_text(engine, exclude_clause),
            "delivery_status = 'pending' AND attempt_count < $1"@ + exclude_clause,
        ),
{
    let head = "UPDATE dr_drive_domain_outbox SET attempt_count = attempt_count + 1 WHERE id = (SELECT id FROM dr_drive_domain_outbox WHERE delivery_status = 'pending' AND attempt_count < $1"@;
    let pre = "UPDATE dr_drive_domain_outbox SET attempt_count = attempt_count + 1 WHERE id = (SELECT id FROM dr_drive_domain_outbox WHERE "@;
    let filter = "delivery_status = 'pending' AND attempt_count < $1"@;
    reveal_strlit("UPDATE dr_drive_domain_outbox SET attempt_count = attempt_count + 1 WHERE id = (SELECT id FROM dr_drive_domain_outbox WHERE delivery_status = 'pending' AND attempt_count < $1");
    reveal_strlit("UPDATE dr_drive_domain_outbox SET attempt_count = attempt_count + 1 WHERE id = (SELECT id FROM dr_drive_domain_outbox WHERE ");
    reveal_strlit("delivery_status = 'pending' AND attempt_count < $1");
    assert(head =~= pre + filter);
    let tail = match engine {
        DatabaseEngine::Postgresql => " ORDER BY created_at ASC LIMIT 1 FOR UPDATE SKIP LOCKED)"@,
        DatabaseEngine::Sqlite => " ORDER BY created_at ASC LIMIT 1)"@,
    } + " RETURNING id, tenant_id, space_id, attempt_count, payload_json"@;
    let text = outbox_claim_text(engine, exclude_clause);
    let needle = filter + exclude_clause;
    assert(text =~= pre + needle + tail);
    assert((pre + needle + tail).subrange(pre.len() as int, (pre.len() + needle.len()) as int) =~= needle);
    assert(occurs_at(text, needle, pre.len() as int));
}

/// Builds the claim statement of `engine` around an exclusion clause.
pub fn outbox_claim_sql(engine: DatabaseEngine, exclude_clause: &str) -> (r: String)
    ensures
        r@ == outbox_claim_text(engine, exclude_clause@),
{
    let head = concat_str(
        "UPDATE dr_drive_domain_outbox SET attempt_count = attempt_count + 1 WHERE id = (SELECT id FROM dr_drive_domain_outbox WHERE delivery_status = 'pending' AND attempt_count < $1",
        exclude_clause,
    );
    let order = match engine {
        DatabaseEngine::Postgresql => " ORDER BY created_at ASC LIMIT 1 FOR UPDATE SKIP LOCKED)",
        DatabaseEngine::Sqlite => " ORDER BY created_at ASC LIMIT 1)",
    };
    let body = concat_str(head.as_str(), order);
    concat_str(body.as_str(), " RETURNING id, tenant_id, space_id, attempt_count, payload_json")
}

/// What becomes of an event after a delivery attempt.
#[derive(Debug, Clone, Copy, PartialEq, Eq)]
pub enum OutboxDelivery {
    /// Every active channel has it.
    Delivered,
    /// The attempt failed; the event stays pending for another attempt.
    Retry,
    /// The attempt failed and no attempt is left.
    Failed,
}

/// How a delivery attempt of an event claimed for the `attempt_count`-th
/// time is settled.
pub open spec fn settle(attempt_count: int, succeeded: bool) -> OutboxDelivery {
    if succeeded {
        OutboxDelivery::Delivered
    } else if attempt_count >= 10 {
        OutboxDelivery::Failed
    } else {
        OutboxDelivery::Retry
    }
}

/// Settles a delivery attempt.
pub fn settle_delivery_attempt(attempt_count: i32, succeeded: bool) -> (r: OutboxDelivery)
    ensures
        r == settle(attempt_count as int, succeeded),
{
    if succeeded {
        OutboxDelivery::Delivered
    } else if attempt_count >= MAX_OUTBOX_ATTEMPTS {
        OutboxDelivery::Failed
    } else {
        OutboxDelivery::Retry
    }
}

/// The status stored for a failed attempt: `failed` or `pending`.
pub fn failed_attempt_status(attempt_count: i32) -> (r: &'static str)
    ensures
        attempt_count >= 10 ==> r@ == "failed"@,
        attempt_count < 10 ==> r@ == "pending"@,
{
    if attempt_count >= MAX_OUTBOX_ATTEMPTS {
        "failed"
    } else {
        "pending"
    }
}

/// What a dispatch pass does next.
pub enum OutboxStep {
    /// Claim the next pending event, excluding those already processed.
    Claim,
    /// Give up the claimed event: its attempts are exhausted.
    MarkExhausted,
    /// Deliver the claimed event to its channels.
    Dispatch,
    /// The pass is over.
    Finish,
}

/// The abstract state of a dispatch pass.
pub struct OutboxPassView {
    pub claims: int,
    pub processed: int,
    pub delivered: int,
    pub failed: int,
    pub retried: int,
    pub claimed: Option<int>,
    pub finished: bool,
    pub excluded: Seq<Seq<char>>,
}

/// One dispatch pass over the outbox: at most 100 claims, each settled.
pub struct OutboxDispatchPass {
    claims: u32,
    result: DomainOutboxDispatchResult,
    retried: usize,
    claimed_attempts: Option<i32>,
    finished: bool,
    processed_ids: Vec<String>,
}

impl View for OutboxDispatchPass {
    type V = OutboxPassView;

    closed spec fn view(&self) -> OutboxPassView {
        OutboxPassView {
            claims: self.claims as int,
            processed: self.result.processed as int,
            delivered: self.result.delivered as int,
            failed: self.result.failed as int,
            retried: self.retried as int,
            claimed: match self.claimed_attempts {
                Some(a) => Some(a as int),
                None => None,
            },
            finished: self.finished,
            excluded: self.processed_ids@.map_values(|x: String| x@),
        }
    }
}

/// The invariant of a pass: every processed event is delivered, failed or
/// left for a retry, and at most 100 events are claimed.
pub open spec fn outbox_pass_wf(s: OutboxPassView) -> bool {
    &&& 0 <= s.delivered && 0 <= s.failed && 0 <= s.retried
    &&& s.claims <= 100
    &&& s.processed == s.delivered + s.failed + s.retried + if s.claimed is Some {
        1int
    } else {
        0
    }
    &&& s.processed == s.claims
    &&& s.excluded.len() <= s.processed
    &&& excluded_ids_distinct(s.excluded)
    &&& s.finished ==> s.claimed is None
}

/// No id is excluded twice.
pub open spec fn excluded_ids_distinct(ids: Seq<Seq<char>>) -> bool {
    forall|i: int, j: int| 0 <= i < j < ids.len() ==> ids[i] != ids[j]
}

/// The excluded ids after claiming `id`: it is added unless already there.
pub open spec fn exclude_after_claim(ids: Seq<Seq<char>>, id: Seq<char>) -> Seq<Seq<char>> {
    if ids.contains(id) {
        ids
    } else {
        ids.push(id)
    }
}

/// The next step of a pass.
pub open spec fn outbox_step_kind(s: OutboxPassView) -> int {
    if s.finished {
        3
    } else {
        match s.claimed {
            Some(a) => if a > 10 {
                1
            } else {
                2
            },
            None => if s.claims < 100 {
                0
            } else {
                3
            },
        }
    }
}

impl OutboxDispatchPass {
    /// The well-formedness of a pass.
    pub closed spec fn wf(&self) -> bool {
        outbox_pass_wf(self@)
    }

    /// Starts a pass.
    pub fn new() -> (p: OutboxDispatchPass)
        ensures
            p.wf(),
            p@.claims == 0 && p@.processed == 0 && p@.delivered == 0 && p@.failed == 0
                && p@.retried == 0 && p@.claimed is None && !p@.finished && p@.excluded.len() == 0,
    {
        OutboxDispatchPass {
            claims: 0,
            result: DomainOutboxDispatchResult { processed: 0, delivered: 0, failed: 0 },
            retried: 0,
            claimed_attempts: None,
            finished: false,
            processed_ids: Vec::new(),
        }
    }

    /// What to do next.
    pub fn next_step(&self) -> (step: OutboxStep)
        requires
            self.wf(),
        ensures
            outbox_step_kind(self@) == 0 ==> step is Claim,
            outbox_step_kind(self@) == 1 ==> step is MarkExhausted,
            outbox_step_kind(self@) == 2 ==> step is Dispatch,
            outbox_step_kind(self@) == 3 ==> step is Finish,
    {
        if self.finished {
            return OutboxStep::Finish;
        }
        match self.claimed_attempts {
            Some(a) => if a > MAX_OUTBOX_ATTEMPTS {
                OutboxStep::MarkExhausted
            } else {
                OutboxStep::Dispatch
            },
            None => if self.claims < OUTBOX_BATCH_SIZE {
                OutboxStep::Claim
            } else {
                OutboxStep::Finish
            },
        }
    }

    /// The exclusion clause for the next claim.
    pub fn exclude_clause(&self) -> (r: String)
        ensures
            r@ == exclude_clause(self@.excluded),
    {
        build_outbox_claim_exclude_clause(&self.processed_ids)
    }

    /// Takes in the outcome of a claim: the claimed event's id and attempt
    /// count, or none when nothing is pending.
    pub fn record_claim(&mut self, claimed: Option<(String, i32)>)
        requires
            old(self).wf(),
            outbox_step_kind(old(self)@) == 0,
        ensures
            final(self).wf(),
            claimed is None ==> final(self)@ == (OutboxPassView { finished: true, ..old(self)@ }),
            claimed matches Some(c) ==> final(self)@ == (OutboxPassView {
                claims: old(self)@.claims + 1,
                processed: old(self)@.processed + 1,
                claimed: Some(c.1 as int),
                excluded: exclude_after_claim(old(self)@.excluded, c.0@),
                ..old(self)@
            }),
    {
        match claimed {
            None => {
                self.finished = true;
            },
            Some((id, attempts)) => {
                let ghost before = self.processed_ids@;
                if !contains_text_in(&self.processed_ids, id.as_str()) {
                    self.processed_ids.push(id);
                    assert(self.processed_ids@.map_values(|x: String| x@) =~= before.map_values(
                        |x: String| x@,
                    ).push(id@));
                }
                self.claims = self.claims + 1;
                self.result.processed = self.result.processed + 1;
                self.claimed_attempts = Some(attempts);
            },
        }
    }

    /// Takes in that the exhausted claimed event was marked failed.
    pub fn record_exhausted(&mut self)
        requires
            old(self).wf(),
            outbox_step_kind(old(self)@) == 1,
        ensures
            final(self).wf(),
            final(self)@ == (OutboxPassView {
                failed: old(self)@.failed + 1,
                claimed: None,
                ..old(self)@
            }),
    {
        self.result.failed = self.result.failed + 1;
        self.claimed_attempts = None;
    }

    /// Takes in the outcome of delivering the claimed event, and says how
    /// the event is to be settled.
    pub fn record_dispatch(&mut self, succeeded: bool) -> (settled: OutboxDelivery)
        requires
            old(self).wf(),
            outbox_step_kind(old(self)@) == 2,
        ensures
            final(self).wf(),
            old(self)@.claimed matches Some(a) && settled == settle(a, succeeded),
            final(self)@ == (OutboxPassView {
                claimed: None,
                delivered: old(self)@.delivered + if settled is Delivered {
                    1int
                } else {
                    0
                },
                failed: old(self)@.failed + if settled is Failed {
                    1int
                } else {
                    0
                },
                retried: old(self)@.retried + if settled is Retry {
                    1int
                } else {
                    0
                },
                ..old(self)@
            }),
    {
        let attempts = match self.claimed_attempts {
            Some(a) => a,
            None => 0,
        };
        let settled = settle_delivery_attempt(attempts, succeeded);
        match settled {
            OutboxDelivery::Delivered => {
                self.result.delivered = self.result.delivered + 1;
            },
            OutboxDelivery::Failed => {
                self.result.failed = self.result.failed + 1;
            },
            OutboxDelivery::Retry => {
                self.retried = self.retried + 1;
            },
        }
        self.claimed_attempts = None;
        settled
    }

    /// The tally of the pass.
    pub fn result(&self) -> (r: DomainOutboxDispatchResult)
        requires
            self.wf(),
        ensures
            r.processed == self@.processed,
            r.delivered == self@.delivered,
            r.failed == self@.failed,
    {
        DomainOutboxDispatchResult {
            processed: self.result.processed,
            delivered: self.result.delivered,
            failed: self.result.failed,
        }
    }
}

/// How a pass treats a claimed event: one claimed more than 10 times is given
/// up without delivery; any other is delivered. A delivered event counts as
/// delivered; a failed attempt is retried while fewer than 10 attempts were
/// made, and fails at the 10th. The pass ends once nothing more is pending,
/// and after 100 claims.
pub proof fn pass_settles_events_by_attempts(s: OutboxPassView, attempt_count: int, succeeded: bool)
    ensures
        !s.finished && s.claimed == Some(attempt_count) ==> (outbox_step_kind(s) == 1 <==> attempt_count > 10),
        !s.finished && s.claimed == Some(attempt_count) ==> (outbox_step_kind(s) == 2 <==> attempt_count <= 10),
        !s.finished && s.claimed is None ==> (outbox_step_kind(s) == 0 <==> s.claims < 100),
        s.finished ==> outbox_step_kind(s) == 3,
        succeeded ==> settle(attempt_count, succeeded) == OutboxDelivery::Delivered,
        !succeeded && attempt_count >= 10 ==> settle(attempt_count, succeeded) == OutboxDelivery::Failed,
        !succeeded && attempt_count < 10 ==> settle(attempt_count, succeeded) == OutboxDelivery::Retry,
{
}

/// A finished pass accounts for every event it processed, and processes at
/// most 100.
pub proof fn outbox_pass_tally(s: OutboxPassView)
    requires
        outbox_pass_wf(s),
        outbox_step_kind(s) == 3,
    ensures
        s.processed == s.delivered + s.failed + s.retried,
        s.delivered + s.failed <= s.processed <= 100,
{
}

/// The message `serde_json` gives for `text` where it is not one JSON value,
/// or `None` where it parses.
pub uninterp spec fn json_value_parse_error(text: Seq<char>) -> Option<Seq<char>>;

/// Parses `payload` with `serde_json::from_str` as a `serde_json::Value`,
/// giving the parser's error message where it fails. Which texts parse, and
/// the message, are named by `json_value_parse_error`, not stated.
#[verifier::external_body]
fn check_payload_json(payload: &str) -> (r: Result<(), String>)
    ensures
        match r {
            Ok(()) => json_value_parse_error(payload@) is None,
            Err(e) => json_value_parse_error(payload@) == Some(e@),
        },
{
    match serde_json::from_str::<serde_json::Value>(payload) {
        Ok(_) => Ok(()),
        Err(error) => Err(error.to_string()),
    }
}

/// The idempotency key of delivering an event to a channel.
pub fn outbox_idempotency_key(outbox_id: &str, channel_id: &str) -> (r: String)
    ensures
        r@ == outbox_id@ + seq![':'] + channel_id@,
{
    let mut a = copy_str(outbox_id);
    push_char(&mut a, ':');
    concat_str(a.as_str(), channel_id)
}

/// A watch channel an event fans out to.
#[derive(Debug, Clone)]
pub struct WatchChannelTarget {
    pub channel_id: String,
    pub address: String,
}

/// Where the delivery of one event to its channels stands.
#[derive(Debug, Clone, Copy, PartialEq, Eq, Structural)]
pub enum FanoutPhase {
    /// The channel at the index is next: was it delivered already?
    Probe,
    /// Its address is being validated.
    Validate,
    /// The event is being posted to it.
    Post,
    /// Its delivery is being recorded.
    Record,
    /// Every channel has the event, or the delivery failed.
    Finished,
}

/// What to do next for the channel at the index.
#[derive(Debug, Clone)]
pub enum FanoutAction {
    /// Ask whether the channel already has the event.
    ProbeDelivered { channel_id: String },
    /// Validate the channel's webhook address.
    ValidateAddress { address: String },
    /// Post the event with the channel id and this idempotency key.
    Post { address: String, channel_id: String, idempotency_key: String },
    /// Record that the channel has the event.
    RecordDelivery { channel_id: String },
    /// Every channel has the event.
    Delivered,
    /// The delivery failed with this error.
    Failed(String),
}

/// Delivers one outbox event to its active watch channels in turn.
pub struct ChannelFanout {
    outbox_id: String,
    channels: Vec<WatchChannelTarget>,
    index: usize,
    phase: FanoutPhase,
}

impl ChannelFanout {
    /// The channels, by id.
    pub closed spec fn channel_ids(&self) -> Seq<Seq<char>> {
        self.channels@.map_values(|c: WatchChannelTarget| c.channel_id@)
    }

    /// The position among the channels.
    pub closed spec fn position(&self) -> int {
        self.index as int
    }

    /// The phase of the delivery.
    pub closed spec fn phase_spec(&self) -> FanoutPhase {
        self.phase
    }

    /// The channel at the position.
    pub closed spec fn current(&self) -> WatchChannelTarget {
        self.channels@[self.index as int]
    }

    /// The event's id.
    pub closed spec fn outbox(&self) -> Seq<char> {
        self.outbox_id@
    }

    /// The invariant: before finishing, the position is at a channel.
    pub closed spec fn wf(&self) -> bool {
        &&& self.index <= self.channels@.len()
        &&& self.phase != FanoutPhase::Finished ==> self.index < self.channels@.len()
    }

    /// Starts delivering an event whose stored payload is `payload_json`:
    /// as `start`, with the payload checked by the JSON parser.
    pub fn start_for_payload(outbox_id: String, channels: Vec<WatchChannelTarget>, payload_json: &str) -> (r: (
        Self,
        FanoutAction,
    ))
        ensures
            r.0.wf(),
            r.0.outbox() == outbox_id@,
            r.0.channel_ids() == channels@.map_values(|c: WatchChannelTarget| c.channel_id@),
            channels@.len() == 0 ==> (r.1 matches FanoutAction::Failed(e)
                && e@ == "no_active_watch_channels"@ && r.0.phase_spec() == FanoutPhase::Finished),
            channels@.len() > 0 && json_value_parse_error(payload_json@) is Some ==> (r.1 matches FanoutAction::Failed(e)
                && e@ == "domain outbox payload is invalid JSON: "@ + json_value_parse_error(payload_json@)->Some_0
                && r.0.phase_spec() == FanoutPhase::Finished),
            channels@.len() > 0 && json_value_parse_error(payload_json@) is None ==> (r.1 matches FanoutAction::ProbeDelivered { channel_id }
                && channel_id@ == channels@[0].channel_id@ && r.0.phase_spec() == FanoutPhase::Probe
                && r.0.position() == 0),
    {
        let check = check_payload_json(payload_json);
        Self::start(outbox_id, channels, check)
    }

    /// Starts delivering an event to `channels`; with none, or with a
    /// payload that is not valid JSON (`payload_check`), it fails at once.
    pub fn start(outbox_id: String, channels: Vec<WatchChannelTarget>, payload_check: Result<(), String>) -> (r: (
        Self,
        FanoutAction,
    ))
        ensures
            r.0.wf(),
            r.0.outbox() == outbox_id@,
            r.0.channel_ids() == channels@.map_values(|c: WatchChannelTarget| c.channel_id@),
            channels@.len() == 0 ==> (r.1 matches FanoutAction::Failed(e)
                && e@ == "no_active_watch_channels"@ && r.0.phase_spec() == FanoutPhase::Finished),
            channels@.len() > 0 && payload_check is Err ==> (r.1 matches FanoutAction::Failed(e) && e@ == "domain outbox payload is invalid JSON: "@
                + payload_check->Err_0@ && r.0.phase_spec() == FanoutPhase::Finished),
            channels@.len() > 0 && payload_check is Ok ==> (r.1 matches FanoutAction::ProbeDelivered { channel_id }
                && channel_id@ == channels@[0].channel_id@ && r.0.phase_spec() == FanoutPhase::Probe
                && r.0.position() == 0),
    {
        if channels.len() == 0 {
            let f = ChannelFanout { outbox_id, channels, index: 0, phase: FanoutPhase::Finished };
            return (f, FanoutAction::Failed(copy_str(NO_ACTIVE_WATCH_CHANNELS_ERROR)));
        }
        match payload_check {
            Err(e) => {
                let f = ChannelFanout { outbox_id, channels, index: 0, phase: FanoutPhase::Finished };
                (f, FanoutAction::Failed(concat_str("domain outbox payload is invalid JSON: ", e.as_str())))
            },
            Ok(()) => {
                let channel_id = channels[0].channel_id.clone();
                let f = ChannelFanout { outbox_id, channels, index: 0, phase: FanoutPhase::Probe };
                (f, FanoutAction::ProbeDelivered { channel_id })
            },
        }
    }

    /// Moves to the next channel, or finishes when none is left.
    fn advance(&mut self) -> (a: FanoutAction)
        requires
            old(self).wf(),
            old(self).phase_spec() != FanoutPhase::Finished,
        ensures
            final(self).wf(),
            final(self).outbox() == old(self).outbox(),
            final(self).channel_ids() == old(self).channel_ids(),
            final(self).position() == old(self).position() + 1,
            final(self).position() == final(self).channel_ids().len() ==> final(self).phase_spec()
                == FanoutPhase::Finished && a is Delivered,
            final(self).position() < final(self).channel_ids().len() ==> (a matches FanoutAction::ProbeDelivered {
                channel_id,
            } && channel_id@ == final(self).channel_ids()[final(self).position()]
                && final(self).phase_spec() == FanoutPhase::Probe),
    {
        let total = self.channels.len();
        assert(self.index < total);
        self.index = self.index + 1;
        if self.index == self.channels.len() {
            self.phase = FanoutPhase::Finished;
            return FanoutAction::Delivered;
        }
        self.phase = FanoutPhase::Probe;
        FanoutAction::ProbeDelivered { channel_id: self.channels[self.index].channel_id.clone() }
    }

    /// Takes in whether the current channel already has the event: then it
    /// is skipped; else its address is validated.
    pub fn record_probe(&mut self, already_delivered: bool) -> (a: FanoutAction)
        requires
            old(self).wf(),
            old(self).phase_spec() == FanoutPhase::Probe,
        ensures
            final(self).wf(),
            final(self).outbox() == old(self).outbox(),
            final(self).channel_ids() == old(self).channel_ids(),
            already_delivered ==> final(self).position() == old(self).position() + 1,
            already_delivered && final(self).position() == final(self).channel_ids().len() ==> (
            a is Delivered && final(self).phase_spec() == FanoutPhase::Finished),
            already_delivered && final(self).position() < final(self).channel_ids().len() ==> (
            a matches FanoutAction::ProbeDelivered { channel_id }
                && channel_id@ == final(self).channel_ids()[final(self).position()]
                && final(self).phase_spec() == FanoutPhase::Probe),
            !already_delivered ==> (a matches FanoutAction::ValidateAddress { address }
                && address == old(self).current().address && final(self).position() == old(self).position()
                && final(self).phase_spec() == FanoutPhase::Validate),
    {
        if already_delivered {
            return self.advance();
        }
        self.phase = FanoutPhase::Validate;
        FanoutAction::ValidateAddress { address: self.channels[self.index].address.clone() }
    }

    /// Takes in the address check: a refused address fails the delivery;
    /// else the event is posted, keyed by event and channel.
    pub fn record_address_check(&mut self, check: Result<(), String>) -> (a: FanoutAction)
        requires
            old(self).wf(),
            old(self).phase_spec() == FanoutPhase::Validate,
        ensures
            final(self).wf(),
            final(self).outbox() == old(self).outbox(),
            final(self).channel_ids() == old(self).channel_ids(),
            final(self).position() == old(self).position(),
            check matches Err(d) ==> (a matches FanoutAction::Failed(e)
                && e@ == "outbox webhook channel "@ + old(self).current().channel_id@
                + " has invalid address: "@ + d@ && final(self).phase_spec() == FanoutPhase::Finished),
            check is Ok ==> (a matches FanoutAction::Post { address, channel_id, idempotency_key }
                && address == old(self).current().address && channel_id == old(self).current().channel_id
                && idempotency_key@ == old(self).outbox() + seq![':'] + old(self).current().channel_id@
                && final(self).phase_spec() == FanoutPhase::Post),
    {
        let channel = &self.channels[self.index];
        match check {
            Err(d) => {
                let a = concat_str("outbox webhook channel ", channel.channel_id.as_str());
                let b = concat_str(a.as_str(), " has invalid address: ");
                let e = concat_str(b.as_str(), d.as_str());
                self.phase = FanoutPhase::Finished;
                FanoutAction::Failed(e)
            },
            Ok(()) => {
                let key = outbox_idempotency_key(self.outbox_id.as_str(), channel.channel_id.as_str());
                let address = channel.address.clone();
                let channel_id = channel.channel_id.clone();
                self.phase = FanoutPhase::Post;
                FanoutAction::Post { address, channel_id, idempotency_key: key }
            },
        }
    }

    /// Takes in the outcome of the post: an error or a status other than
    /// success (given by its text) fails the delivery; else it is recorded.
    pub fn record_post(&mut self, outcome: Result<(bool, String), String>) -> (a: FanoutAction)
        requires
            old(self).wf(),
            old(self).phase_spec() == FanoutPhase::Post,
        ensures
            final(self).wf(),
            final(self).outbox() == old(self).outbox(),
            final(self).channel_ids() == old(self).channel_ids(),
            final(self).position() == old(self).position(),
            outcome matches Err(d) ==> (a matches FanoutAction::Failed(e)
                && e@ == "dispatch outbox event to channel "@ + old(self).current().channel_id@
                + " failed: "@ + d@ && final(self).phase_spec() == FanoutPhase::Finished),
            outcome matches Ok((ok, status)) ==> !ok ==> (a matches FanoutAction::Failed(e) && e@ == "outbox webhook channel "@
                + old(self).current().channel_id@ + " returned status "@ + status@ && final(self).phase_spec() == FanoutPhase::Finished),
            outcome matches Ok((ok, _)) ==> ok ==> (a matches FanoutAction::RecordDelivery { channel_id }
                && channel_id == old(self).current().channel_id && final(self).phase_spec()
                == FanoutPhase::Record),
    {
        let channel_id = self.channels[self.index].channel_id.clone();
        match outcome {
            Err(d) => {
                let a = concat_str("dispatch outbox event to channel ", channel_id.as_str());
                let b = concat_str(a.as_str(), " failed: ");
                self.phase = FanoutPhase::Finished;
                FanoutAction::Failed(concat_str(b.as_str(), d.as_str()))
            },
            Ok((ok, status)) => {
                if !ok {
                    let a = concat_str("outbox webhook channel ", channel_id.as_str());
                    let b = concat_str(a.as_str(), " returned status ");
                    self.phase = FanoutPhase::Finished;
                    FanoutAction::Failed(concat_str(b.as_str(), status.as_str()))
                } else {
                    self.phase = FanoutPhase::Record;
                    FanoutAction::RecordDelivery { channel_id }
                }
            },
        }
    }

    /// Takes in that the delivery was recorded, and moves on.
    pub fn record_recorded(&mut self) -> (a: FanoutAction)
        requires
            old(self).wf(),
            old(self).phase_spec() == FanoutPhase::Record,
        ensures
            final(self).wf(),
            final(self).outbox() == old(self).outbox(),
            final(self).channel_ids() == old(self).channel_ids(),
            final(self).position() == old(self).position() + 1,
            final(self).position() == final(self).channel_ids().len() ==> (a is Delivered
                && final(self).phase_spec() == FanoutPhase::Finished),
            final(self).position() < final(self).channel_ids().len() ==> (a matches FanoutAction::ProbeDelivered {
                channel_id,
            } && channel_id@ == final(self).channel_ids()[final(self).position()]
                && final(self).phase_spec() == FanoutPhase::Probe),
    {
        self.advance()
    }
}

} // verus!

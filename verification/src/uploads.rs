//! Upload sessions: their states, the parts of a completed multipart
//! upload, standard storage keys and the storage object a completion adds.
use vstd::prelude::*;
use crate::errors::{
    ProblemDetail, problem, problem_is, is_validation_problem, validation_problem, STATUS_BAD_REQUEST,
    STATUS_CONFLICT,
};
use crate::numbers::{decimal_text, format_i64, push_decimal_i64, all_digits, parse_i64, parse_i64_text};
use crate::text::{
    trim, trim_str, copy_str, concat_str, text_eq, chars_of, split_text, split_on, views,
    string_from_chars, has_prefix, opt_view,
};
use crate::validators::{fails_with};

verus! {

/// The states of an upload session.
#[derive(Debug, Clone, Copy, PartialEq, Eq)]
pub enum DriveUploadSessionState {
    Created,
    Uploading,
    Completing,
    Completed,
    Aborted,
    Expired,
}

/// The stored name of a state.
pub open spec fn upload_state_name(state: DriveUploadSessionState) -> Seq<char> {
    match state {
        DriveUploadSessionState::Created => "created"@,
        DriveUploadSessionState::Uploading => "uploading"@,
        DriveUploadSessionState::Completing => "completing"@,
        DriveUploadSessionState::Completed => "completed"@,
        DriveUploadSessionState::Aborted => "aborted"@,
        DriveUploadSessionState::Expired => "expired"@,
    }
}

/// The stored name of an upload session state.
pub fn upload_session_state_as_str(state: &DriveUploadSessionState) -> (r: &'static str)
    ensures
        r@ == upload_state_name(*state),
{
    match state {
        DriveUploadSessionState::Created => "created",
        DriveUploadSessionState::Uploading => "uploading",
        DriveUploadSessionState::Completing => "completing",
        DriveUploadSessionState::Completed => "completed",
        DriveUploadSessionState::Aborted => "aborted",
        DriveUploadSessionState::Expired => "expired",
    }
}

/// An upload session as stored.
#[derive(Debug, Clone)]
pub struct UploadSessionRecord {
    pub id: String,
    pub tenant_id: String,
    pub space_id: String,
    pub node_id: String,
    pub bucket: String,
    pub object_key: String,
    pub idempotency_key: String,
    pub storage_provider_id: String,
    pub storage_upload_id: String,
    pub state: String,
    pub expires_at_epoch_ms: i64,
    pub version: i64,
}

/// A state from which a session can still be changed.
pub open spec fn is_mutable_state(state: Seq<char>) -> bool {
    state == "created"@ || state == "uploading"@
}

/// A state in which a session is finished or being finished.
pub open spec fn is_settled_state(state: Seq<char>) -> bool {
    state == "completing"@ || state == "completed"@ || state == "aborted"@ || state == "expired"@
}

/// `r` is a 409 problem with this detail.
pub open spec fn is_conflict_problem<T>(r: Result<T, ProblemDetail>, detail: Seq<char>) -> bool {
    r matches Err(p) && problem_is(p, STATUS_CONFLICT, "conflict"@, detail, "drive.conflict"@)
}

/// A conflict problem with this detail.
pub fn conflict_problem(detail: String) -> (p: ProblemDetail)
    ensures
        problem_is(p, STATUS_CONFLICT, "conflict"@, detail@, "drive.conflict"@),
{
    problem(STATUS_CONFLICT, "conflict", detail, "drive.conflict")
}

/// Only a created or uploading session can be changed; a settled one is a
/// conflict, and any other state is invalid.
pub fn validate_mutable_upload_session(upload_session: &UploadSessionRecord) -> (r: Result<
    (),
    ProblemDetail,
>)
    ensures
        is_mutable_state(upload_session.state@) ==> r is Ok,
        is_settled_state(upload_session.state@) ==> is_conflict_problem(
            r,
            "upload session cannot be modified from "@ + upload_session.state@ + " state"@,
        ),
        !is_mutable_state(upload_session.state@) && !is_settled_state(upload_session.state@)
            ==> fails_with(r, "upload session state is invalid"@),
{
    proof {
        reveal_strlit("created");
        reveal_strlit("uploading");
        reveal_strlit("completing");
        reveal_strlit("completed");
        reveal_strlit("aborted");
        reveal_strlit("expired");
        assert("created"@.len() == 7 && "created"@[0] == 'c');
        assert("uploading"@.len() == 9 && "uploading"@[0] == 'u');
        assert("completing"@.len() == 10);
        assert("completed"@.len() == 9 && "completed"@[0] == 'c');
        assert("aborted"@.len() == 7 && "aborted"@[0] == 'a');
        assert("expired"@.len() == 7 && "expired"@[0] == 'e');
    }
    let s = upload_session.state.as_str();
    if text_eq(s, "created") || text_eq(s, "uploading") {
        Ok(())
    } else if text_eq(s, "completing") || text_eq(s, "completed") || text_eq(s, "aborted")
        || text_eq(s, "expired") {
        let a = concat_str("upload session cannot be modified from ", s);
        Err(conflict_problem(concat_str(a.as_str(), " state")))
    } else {
        Err(validation_problem(copy_str("upload session state is invalid")))
    }
}

/// A part of a completed multipart upload.
#[derive(Debug, Clone)]
pub struct CompletedUploadPartRequest {
    pub part_no: u16,
    pub etag: String,
}

/// What is wrong with part `i`, after the parts before it passed.
pub open spec fn part_issue(parts: Seq<CompletedUploadPartRequest>, i: int) -> Option<Seq<char>> {
    let p = parts[i];
    let previous: int = if i == 0 {
        0
    } else {
        parts[i - 1].part_no as int
    };
    if p.part_no == 0 || p.part_no > 10000 {
        Some("partNo must be between 1 and 10000"@)
    } else if trim(p.etag@).len() == 0 {
        Some("etag is required for every part"@)
    } else if p.part_no <= previous {
        Some("parts must be sorted by ascending unique partNo"@)
    } else {
        None
    }
}

/// The first issue among the first `n` parts.
pub open spec fn first_part_issue(parts: Seq<CompletedUploadPartRequest>, n: int) -> Option<
    Seq<char>,
>
    decreases n,
{
    if n <= 0 {
        None
    } else {
        match first_part_issue(parts, n - 1) {
            Some(d) => Some(d),
            None => part_issue(parts, n - 1),
        }
    }
}

/// What is wrong with the parts of a completion, if anything.
pub open spec fn parts_issue(parts: Seq<CompletedUploadPartRequest>) -> Option<Seq<char>> {
    if parts.len() == 0 {
        Some("parts are required"@)
    } else if parts.len() > 10000 {
        Some("parts must contain at most 10000 items"@)
    } else {
        first_part_issue(parts, parts.len() as int)
    }
}

/// The parts of a completion: 1 to 10000 of them, each numbered within
/// 1..=10000 with an etag, in ascending order of unique numbers.
pub fn validate_completed_multipart_parts(parts: &Vec<CompletedUploadPartRequest>) -> (r: Result<
    (),
    ProblemDetail,
>)
    ensures
        parts_issue(parts@) is None ==> r is Ok,
        parts_issue(parts@) matches Some(d) ==> fails_with(r, d),
{
    if parts.len() == 0 {
        return Err(validation_problem(copy_str("parts are required")));
    }
    if parts.len() > 10000 {
        return Err(validation_problem(copy_str("parts must contain at most 10000 items")));
    }
    let mut previous_part_no: u16 = 0;
    let mut k: usize = 0;
    while k < parts.len()
        invariant
            k <= parts@.len() <= 10000,
            first_part_issue(parts@, k as int) is None,
            k == 0 ==> previous_part_no == 0,
            k > 0 ==> previous_part_no == parts@[k - 1].part_no,
        decreases parts.len() - k,
    {
        let part = &parts[k];
        proof {
            if part_issue(parts@, k as int) is Some {
                lemma_first_part_issue_stable(parts@, k + 1, parts@.len() as int);
            }
        }
        if part.part_no == 0 || part.part_no > 10000 {
            return Err(validation_problem(copy_str("partNo must be between 1 and 10000")));
        }
        let etag = trim_str(part.etag.as_str());
        if etag.as_str().is_empty() {
            return Err(validation_problem(copy_str("etag is required for every part")));
        }
        if part.part_no <= previous_part_no {
            return Err(
                validation_problem(copy_str("parts must be sorted by ascending unique partNo")),
            );
        }
        previous_part_no = part.part_no;
        k = k + 1;
    }
    Ok(())
}

/// Parts that pass are numbered within 1..=10000, in strictly ascending
/// order, each with a non-blank etag.
pub proof fn accepted_parts_are_ordered(parts: Seq<CompletedUploadPartRequest>)
    requires
        parts_issue(parts) is None,
    ensures
        forall|i: int| 0 <= i < parts.len() ==> 1 <= #[trigger] parts[i].part_no <= 10000,
        forall|i: int| 0 <= i < parts.len() ==> trim(#[trigger] parts[i].etag@).len() > 0,
        forall|i: int, j: int| 0 <= i < j < parts.len() ==> parts[i].part_no < parts[j].part_no,
{
    lemma_first_part_issue_none(parts, parts.len() as int);
    assert forall|i: int| 0 <= i < parts.len() implies 1 <= #[trigger] parts[i].part_no <= 10000
        && trim(parts[i].etag@).len() > 0 by {
        assert(part_issue(parts, i) is None);
    }
    assert forall|i: int, j: int| 0 <= i < j < parts.len() implies parts[i].part_no
        < parts[j].part_no by {
        lemma_parts_ascending(parts, i, j);
    }
}

proof fn lemma_first_part_issue_stable(parts: Seq<CompletedUploadPartRequest>, m: int, n: int)
    requires
        0 <= m <= n,
        first_part_issue(parts, m) is Some,
    ensures
        first_part_issue(parts, n) == first_part_issue(parts, m),
    decreases n - m,
{
    if n > m {
        lemma_first_part_issue_stable(parts, m, n - 1);
    }
}

proof fn lemma_first_part_issue_none(parts: Seq<CompletedUploadPartRequest>, n: int)
    requires
        0 <= n <= parts.len(),
        first_part_issue(parts, parts.len() as int) is None,
    ensures
        forall|i: int| 0 <= i < n ==> #[trigger] part_issue(parts, i) is None,
{
    lemma_first_part_issue_prefix(parts, n, parts.len() as int);
}

proof fn lemma_first_part_issue_prefix(parts: Seq<CompletedUploadPartRequest>, n: int, m: int)
    requires
        0 <= n <= m <= parts.len(),
        first_part_issue(parts, m) is None,
    ensures
        forall|i: int| 0 <= i < n ==> #[trigger] part_issue(parts, i) is None,
    decreases m,
{
    if m > 0 {
        lemma_first_part_issue_prefix(parts, if n == m {
            n - 1
        } else {
            n
        }, m - 1);
        if n == m {
            assert forall|i: int| 0 <= i < n implies #[trigger] part_issue(parts, i) is None by {
                if i < n - 1 {
                } else {
                    assert(i == m - 1);
                }
            }
        }
    }
}

proof fn lemma_parts_ascending(parts: Seq<CompletedUploadPartRequest>, i: int, j: int)
    requires
        0 <= i < j < parts.len(),
        forall|k: int| 0 <= k < parts.len() ==> #[trigger] part_issue(parts, k) is None,
    ensures
        parts[i].part_no < parts[j].part_no,
    decreases j - i,
{
    assert(part_issue(parts, j) is None);
    if j - 1 > i {
        lemma_parts_ascending(parts, i, j - 1);
    }
}

/// The marker that a standard storage key starts with.
pub open spec fn storage_key_marker() -> Seq<char> {
    "sdkwork-drive/v1/t/"@
}

/// `needle` occurs in `s` at `i`.
pub open spec fn occurs_at(s: Seq<char>, needle: Seq<char>, i: int) -> bool {
    0 <= i && i + needle.len() <= s.len() && s.subrange(i, i + needle.len()) == needle
}

/// The key from the last occurrence of the marker on, if it occurs.
pub open spec fn standard_key_suffix(key: Seq<char>) -> Option<Seq<char>> {
    if exists|i: int| occurs_at(key, storage_key_marker(), i) {
        let i = choose|i: int|
            occurs_at(key, storage_key_marker(), i) && forall|j: int|
                occurs_at(key, storage_key_marker(), j) ==> j <= i;
        Some(key.skip(i))
    } else {
        None
    }
}

/// The part of an object key from the last `sdkwork-drive/v1/t/` on.
pub fn standard_storage_object_key_suffix(object_key: &str) -> (r: Option<String>)
    ensures
        opt_view(r) == standard_key_suffix(object_key@),
{
    let v = chars_of(object_key);
    let m = chars_of("sdkwork-drive/v1/t/");
    proof {
        reveal_strlit("sdkwork-drive/v1/t/");
    }
    let n = v.len();
    let ml = m.len();
    if n < ml {
        proof {
            assert(!exists|i: int| occurs_at(object_key@, storage_key_marker(), i));
        }
        return None;
    }
    let mut i: usize = n - ml + 1;
    while i > 0
        invariant
            v@ == object_key@,
            m@ == storage_key_marker(),
            ml == m@.len(),
            n == v@.len(),
            ml <= n,
            i <= n - ml + 1,
            forall|j: int| i <= j ==> !occurs_at(object_key@, storage_key_marker(), j),
        decreases i,
    {
        let p = i - 1;
        let mut same = true;
        let mut t: usize = 0;
        while t < ml
            invariant
                v@ == object_key@,
                m@ == storage_key_marker(),
                ml == m@.len(),
                n == v@.len(),
                p + ml <= n,
                t <= ml,
                same <==> forall|q: int| 0 <= q < t ==> v@[p + q] == m@[q],
            decreases ml - t,
        {
            if v[p + t] != m[t] {
                same = false;
            }
            t = t + 1;
        }
        if same {
            proof {
                assert(object_key@.subrange(p as int, p + ml) =~= storage_key_marker());
                assert(occurs_at(object_key@, storage_key_marker(), p as int));
                let c = choose|c: int|
                    occurs_at(object_key@, storage_key_marker(), c) && forall|j: int|
                        occurs_at(object_key@, storage_key_marker(), j) ==> j <= c;
                assert(c == p);
            }
            let r = string_from_chars(&v, p, n);
            assert(r@ =~= object_key@.skip(p as int));
            return Some(r);
        }
        proof {
            assert(!occurs_at(object_key@, storage_key_marker(), p as int)) by {
                if occurs_at(object_key@, storage_key_marker(), p as int) {
                    let q = choose|q: int| 0 <= q < ml && v@[p + q] != m@[q];
                    assert(object_key@.subrange(p as int, p + ml)[q] == v@[p + q]);
                }
            }
        }
        i = p;
    }
    assert(!exists|j: int| occurs_at(object_key@, storage_key_marker(), j));
    None
}

/// The segments of a standard key name this tenant, space and node, in the
/// layout `sdkwork-drive/v1/t/_/tenants/T/spaces/S/nodes/n/_/N/versions/V/O/content`.
pub open spec fn standard_key_layout(
    segs: Seq<Seq<char>>,
    tenant_id: Seq<char>,
    space_id: Seq<char>,
    node_id: Seq<char>,
) -> bool {
    &&& segs.len() == 16
    &&& segs[0] == "sdkwork-drive"@
    &&& segs[1] == "v1"@
    &&& segs[2] == "t"@
    &&& segs[4] == "tenants"@
    &&& segs[5] == tenant_id
    &&& segs[6] == "spaces"@
    &&& segs[7] == space_id
    &&& segs[8] == "nodes"@
    &&& segs[9] == "n"@
    &&& segs[11] == node_id
    &&& segs[12] == "versions"@
    &&& segs[15] == "content"@
}

/// The version segment: ten ASCII digits of a version of at least 1.
pub open spec fn version_segment_value(seg: Seq<char>) -> Option<i64> {
    if seg.len() == 10 && all_digits(seg) && (parse_i64_text(seg) matches Some(v) && v >= 1) {
        parse_i64_text(seg)
    } else {
        None
    }
}

/// A standard storage key as read from an upload session's object key.
#[derive(Debug, Clone)]
pub struct StandardStorageKey {
    /// The key from its `sdkwork-drive/v1/t/` marker on.
    pub key: String,
    pub version_no: i64,
    pub object_id: String,
}

/// The standard key, version and object id an object key holds for this
/// tenant, space and node, if it holds one.
pub open spec fn standard_storage_key_of(
    object_key: Seq<char>,
    tenant_id: Seq<char>,
    space_id: Seq<char>,
    node_id: Seq<char>,
) -> Option<(Seq<char>, i64, Seq<char>)> {
    match standard_key_suffix(object_key) {
        None => None,
        Some(k) => {
            let segs = split_on(k, '/');
            if standard_key_layout(segs, tenant_id, space_id, node_id) && version_segment_value(
                segs[13],
            ) is Some {
                Some((k, version_segment_value(segs[13])->0, segs[14]))
            } else {
                None
            }
        },
    }
}

/// The detail of an object key that is not a standard storage key.
pub open spec fn nonstandard_key_detail() -> Seq<char> {
    "upload session object key is not a standard Drive storage key"@
}

fn nonstandard_key_problem() -> (p: ProblemDetail)
    ensures
        problem_is(p, STATUS_CONFLICT, "conflict"@, nonstandard_key_detail(), "drive.conflict"@),
{
    conflict_problem(copy_str("upload session object key is not a standard Drive storage key"))
}

/// Reads the standard storage key of an upload session's object key: its
/// layout must name this tenant, space and node, with a ten-digit version
/// of at least 1.
pub fn parse_standard_storage_key(
    object_key: &str,
    tenant_id: &str,
    space_id: &str,
    node_id: &str,
) -> (r: Result<StandardStorageKey, ProblemDetail>)
    ensures
        standard_storage_key_of(object_key@, tenant_id@, space_id@, node_id@) matches Some(
            (k, v, o),
        ) ==> (r matches Ok(x) && x.key@ == k && x.version_no == v && x.object_id@ == o),
        standard_storage_key_of(object_key@, tenant_id@, space_id@, node_id@) is None
            ==> is_conflict_problem(r, nonstandard_key_detail()),
{
    let key = match standard_storage_object_key_suffix(object_key) {
        Some(k) => k,
        None => return Err(nonstandard_key_problem()),
    };
    let segs = split_text(key.as_str(), '/');
    proof {
        reveal_strlit("sdkwork-drive");
        reveal_strlit("v1");
        reveal_strlit("t");
        reveal_strlit("tenants");
        reveal_strlit("spaces");
        reveal_strlit("nodes");
        reveal_strlit("n");
        reveal_strlit("versions");
        reveal_strlit("content");
    }
    if segs.len() != 16 {
        return Err(nonstandard_key_problem());
    }
    assert(views(segs@)[13] == segs@[13]@);
    assert(views(segs@)[14] == segs@[14]@);
    if !text_eq(segs[0].as_str(), "sdkwork-drive") || !text_eq(segs[1].as_str(), "v1")
        || !text_eq(segs[2].as_str(), "t") || !text_eq(segs[4].as_str(), "tenants")
        || !text_eq(segs[5].as_str(), tenant_id) || !text_eq(segs[6].as_str(), "spaces")
        || !text_eq(segs[7].as_str(), space_id) || !text_eq(segs[8].as_str(), "nodes")
        || !text_eq(segs[9].as_str(), "n") || !text_eq(segs[11].as_str(), node_id)
        || !text_eq(segs[12].as_str(), "versions") || !text_eq(segs[15].as_str(), "content") {
        proof {
            assert(!standard_key_layout(views(segs@), tenant_id@, space_id@, node_id@));
        }
        return Err(nonstandard_key_problem());
    }
    assert(standard_key_layout(views(segs@), tenant_id@, space_id@, node_id@));
    let raw = chars_of(segs[13].as_str());
    if raw.len() != 10 {
        return Err(nonstandard_key_problem());
    }
    if !crate::numbers::is_all_digits(segs[13].as_str()) {
        return Err(nonstandard_key_problem());
    }
    assert(all_digits(raw@));
    let version_no = match parse_i64(segs[13].as_str()) {
        Some(v) => v,
        None => return Err(nonstandard_key_problem()),
    };
    if version_no < 1 {
        return Err(nonstandard_key_problem());
    }
    Ok(StandardStorageKey { key, version_no, object_id: segs[14].clone() })
}

/// The version of a standard key, once the storage-key service has built
/// the key it expects from the key's own parts: the two must agree.
pub fn confirm_standard_storage_key(
    parsed: &StandardStorageKey,
    expected_key: Option<String>,
) -> (r: Result<i64, ProblemDetail>)
    ensures
        (expected_key matches Some(e) && e@ == parsed.key@) ==> r == Ok::<i64, ProblemDetail>(
            parsed.version_no,
        ),
        !(expected_key matches Some(e) && e@ == parsed.key@) ==> is_conflict_problem(
            r,
            nonstandard_key_detail(),
        ),
{
    match expected_key {
        Some(e) => if text_eq(e.as_str(), parsed.key.as_str()) {
            Ok(parsed.version_no)
        } else {
            Err(nonstandard_key_problem())
        },
        None => Err(nonstandard_key_problem()),
    }
}

/// The id and version of the storage object a completion inserts.
#[derive(Debug, Clone)]
pub struct CompletedStorageObjectInsertPlan {
    pub id: String,
    pub version_no: i64,
}

/// The id of a session's storage object of a version: "`session-v`n".
pub fn completed_storage_object_id(upload_session_id: &str, version_no: i64) -> (r: String)
    ensures
        r@ == upload_session_id@ + "-v"@ + decimal_text(version_no as int),
{
    let mut r = concat_str(upload_session_id, "-v");
    push_decimal_i64(&mut r, version_no);
    r
}

/// The storage object a completion inserts: the key's version must be the
/// node's next version, and neither the id nor the active locator may be
/// taken already (`id_count`, `active_locator_count` rows hold them).
pub fn plan_completed_storage_object(
    upload_session_id: &str,
    key_version_no: i64,
    next_version_no: i64,
    id_count: i64,
    active_locator_count: i64,
) -> (r: Result<CompletedStorageObjectInsertPlan, ProblemDetail>)
    ensures
        key_version_no != next_version_no ==> is_conflict_problem(
            r,
            "upload session storage object version does not match next file version"@,
        ),
        key_version_no == next_version_no && id_count > 0 ==> is_conflict_problem(
            r,
            "storage object id already exists"@,
        ),
        key_version_no == next_version_no && id_count <= 0 && active_locator_count > 0
            ==> is_conflict_problem(r, "active storage object locator already exists"@),
        key_version_no == next_version_no && id_count <= 0 && active_locator_count <= 0 ==> (r matches Ok(p)
            && p.version_no == key_version_no && p.id@ == upload_session_id@ + "-v"@
            + decimal_text(key_version_no as int)),
{
    if key_version_no != next_version_no {
        return Err(
            conflict_problem(
                copy_str("upload session storage object version does not match next file version"),
            ),
        );
    }
    if id_count > 0 {
        return Err(conflict_problem(copy_str("storage object id already exists")));
    }
    if active_locator_count > 0 {
        return Err(conflict_problem(copy_str("active storage object locator already exists")));
    }
    Ok(
        CompletedStorageObjectInsertPlan {
            id: completed_storage_object_id(upload_session_id, key_version_no),
            version_no: key_version_no,
        },
    )
}

/// A client's upload id, when given, must be non-blank and the session's.
pub fn check_upload_id(upload_id: Option<String>, storage_upload_id: &str) -> (r:
    Result<(), ProblemDetail>)
    ensures
        upload_id is None ==> r is Ok,
        upload_id matches Some(u) && trim(u@).len() == 0 ==> fails_with(
            r,
            "uploadId must not be empty"@,
        ),
        upload_id matches Some(u) && trim(u@).len() > 0 && trim(u@) != storage_upload_id@
            ==> is_conflict_problem(r, "uploadId does not match upload session storage upload id"@),
        upload_id matches Some(u) && trim(u@).len() > 0 && trim(u@) == storage_upload_id@
            ==> r is Ok,
{
    match upload_id {
        None => Ok(()),
        Some(u) => {
            let t = trim_str(u.as_str());
            if t.as_str().is_empty() {
                return Err(validation_problem(copy_str("uploadId must not be empty")));
            }
            if !text_eq(t.as_str(), storage_upload_id) {
                return Err(
                    conflict_problem(
                        copy_str("uploadId does not match upload session storage upload id"),
                    ),
                );
            }
            Ok(())
        },
    }
}

/// A part number of a multipart upload lies within 1..=10000.
pub fn check_part_no(part_no: u16) -> (r: Result<(), ProblemDetail>)
    ensures
        (part_no == 0 || part_no > 10000) ==> fails_with(r, "partNo must be between 1 and 10000"@),
        (1 <= part_no <= 10000) ==> r is Ok,
{
    if part_no == 0 || part_no > 10000 {
        return Err(validation_problem(copy_str("partNo must be between 1 and 10000")));
    }
    Ok(())
}

/// When a presigned part URL expires: the requested time to live (120
/// seconds by default, 30 to 300) after `now`.
pub fn presign_expiry(requested_ttl_seconds: Option<u32>, now_epoch_ms: i64) -> (r: Result<
    i64,
    ProblemDetail,
>)
    requires
        now_epoch_ms <= i64::MAX - 300000,
    ensures
        ({
            let ttl = match requested_ttl_seconds {
                Some(v) => v,
                None => 120,
            };
            if ttl < 30 || ttl > 300 {
                fails_with(
                    r,
                    crate::validators::between_detail("requestedTtlSeconds"@, 30, 300) + " seconds"@,
                )
            } else {
                r matches Ok(t) && t == now_epoch_ms + ttl * 1000
            }
        }),
{
    let ttl = match crate::validators::validate_requested_ttl_seconds(
        requested_ttl_seconds,
        120,
        30,
        300,
        "requestedTtlSeconds",
    ) {
        Ok(t) => t,
        Err(p) => return Err(p),
    };
    Ok(now_epoch_ms + (ttl as i64) * 1000)
}


/// The checks of a part presign before the node is looked up, in order: the
/// part number, the session's state, then the client's upload id.
pub fn check_part_presign(
    session: &UploadSessionRecord,
    part_no: u16,
    upload_id: Option<String>,
) -> (r: Result<(), ProblemDetail>)
    ensures
        (part_no == 0 || part_no > 10000) ==> fails_with(r, "partNo must be between 1 and 10000"@),
        1 <= part_no <= 10000 ==> {
            &&& is_settled_state(session.state@) ==> is_conflict_problem(
                r,
                "upload session cannot be modified from "@ + session.state@ + " state"@,
            )
            &&& !is_mutable_state(session.state@) && !is_settled_state(session.state@) ==> fails_with(
                r,
                "upload session state is invalid"@,
            )
            &&& is_mutable_state(session.state@) ==> match upload_id {
                None => r is Ok,
                Some(u) => if trim(u@).len() == 0 {
                    fails_with(r, "uploadId must not be empty"@)
                } else if trim(u@) != session.storage_upload_id@ {
                    is_conflict_problem(
                        r,
                        "uploadId does not match upload session storage upload id"@,
                    )
                } else {
                    r is Ok
                },
            }
        },
{
    match check_part_no(part_no) {
        Ok(()) => {},
        Err(p) => return Err(p),
    }
    match validate_mutable_upload_session(session) {
        Ok(()) => {},
        Err(p) => return Err(p),
    }
    check_upload_id(upload_id, session.storage_upload_id.as_str())
}

/// What presigning a part asks the signer for and writes: the session's
/// object and storage upload, the part, the expiry; the session is then
/// set to `uploading`. The answer carries the part number and the session's
/// storage upload id.
#[derive(Debug, Clone)]
pub struct PartPresignPlan {
    pub storage_provider_id: String,
    pub bucket: String,
    pub object_key: String,
    pub upload_id: String,
    pub part_no: u16,
    pub expires_at_epoch_ms: i64,
    pub session_state: String,
    pub operator_id: String,
}

/// Plans the presign of part `part_no` of `session` at `now_epoch_ms`, once
/// the node was found: the time to live is checked (120 seconds by default,
/// 30 to 300).
pub fn plan_part_presign(
    session: &UploadSessionRecord,
    part_no: u16,
    requested_ttl_seconds: Option<u32>,
    now_epoch_ms: i64,
) -> (r: Result<PartPresignPlan, ProblemDetail>)
    requires
        now_epoch_ms <= i64::MAX - 300000,
    ensures
        ({
            let ttl = match requested_ttl_seconds {
                Some(v) => v,
                None => 120,
            };
            if ttl < 30 || ttl > 300 {
                fails_with(
                    r,
                    crate::validators::between_detail("requestedTtlSeconds"@, 30, 300) + " seconds"@,
                )
            } else {
                r matches Ok(p) && {
                    &&& p.storage_provider_id@ == session.storage_provider_id@
                    &&& p.bucket@ == session.bucket@
                    &&& p.object_key@ == session.object_key@
                    &&& p.upload_id@ == session.storage_upload_id@
                    &&& p.part_no == part_no
                    &&& p.expires_at_epoch_ms == now_epoch_ms + ttl * 1000
                    &&& p.session_state@ == "uploading"@
                    &&& p.operator_id@ == "operator-unset"@
                }
            }
        }),
{
    let expires_at_epoch_ms = match presign_expiry(requested_ttl_seconds, now_epoch_ms) {
        Ok(t) => t,
        Err(p) => return Err(p),
    };
    Ok(
        PartPresignPlan {
            storage_provider_id: session.storage_provider_id.clone(),
            bucket: session.bucket.clone(),
            object_key: session.object_key.clone(),
            upload_id: session.storage_upload_id.clone(),
            part_no,
            expires_at_epoch_ms,
            session_state: copy_str("uploading"),
            operator_id: copy_str("operator-unset"),
        },
    )
}


/// How a request for an upload session starts: the session already made
/// under its idempotency key is answered again, or a new one is created.
#[derive(Debug, Clone)]
pub enum UploadSessionStart {
    Replay(UploadSessionRecord),
    Create,
}

/// Decides how an upload-session request starts, from the session found
/// under its idempotency key (if any) and the count of sessions holding the
/// requested id: a found session is replayed, writing nothing; else the id
/// must be free.
pub fn decide_upload_session_start(existing: Option<UploadSessionRecord>, session_id_count: i64) -> (r:
    Result<UploadSessionStart, ProblemDetail>)
    ensures
        existing matches Some(e) ==> (r matches Ok(UploadSessionStart::Replay(x)) && x == e),
        existing is None && session_id_count > 0 ==> is_conflict_problem(
            r,
            "upload session id already exists"@,
        ),
        existing is None && session_id_count <= 0 ==> r matches Ok(UploadSessionStart::Create),
{
    match existing {
        Some(e) => Ok(UploadSessionStart::Replay(e)),
        None => {
            if session_id_count > 0 {
                Err(conflict_problem(copy_str("upload session id already exists")))
            } else {
                Ok(UploadSessionStart::Create)
            }
        },
    }
}

/// The answer to the count of nodes holding a requested node id: any such
/// node is a conflict.
pub fn node_id_available_outcome(node_id_count: i64) -> (r: Result<(), ProblemDetail>)
    ensures
        node_id_count > 0 ==> is_conflict_problem(r, "node id already exists"@),
        node_id_count <= 0 ==> r is Ok,
{
    if node_id_count > 0 {
        return Err(conflict_problem(copy_str("node id already exists")));
    }
    Ok(())
}

} // verus!

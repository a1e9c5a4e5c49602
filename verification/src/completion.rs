//! Completing an upload session once its request has been checked: the
//! session is claimed, the multipart upload completed in the object store
//! (and the session set back to uploading if that fails), then the stored
//! object, the node version, the uploader item, the session state, the node
//! head and the change are written in turn.
use vstd::prelude::*;
use crate::errors::ProblemDetail;
use crate::nodes::validate_completion_request;
use crate::text::{copy_str, trim};
use crate::uploads::{
    conflict_problem, is_conflict_problem, is_mutable_state, is_settled_state, parts_issue,
    validate_mutable_upload_session, check_upload_id, CompletedStorageObjectInsertPlan,
    CompletedUploadPartRequest, UploadSessionRecord,
};
use crate::validators::{fails_with, content_type_shape_ok, is_mime_type, is_sha256_checksum};

verus! {

/// Where a completion stands.
#[derive(Debug, Clone)]
pub enum UploadCompletionState {
    /// The session is being claimed for completion.
    Claiming { has_uploader_item: bool },
    /// The object store is completing the multipart upload.
    CompletingStorage { has_uploader_item: bool },
    /// The session is being set back to uploading; then this problem is
    /// answered.
    RollingBack(ProblemDetail),
    /// The completed object is being recorded.
    InsertingObject { has_uploader_item: bool },
    /// The node version of the object is being recorded.
    InsertingVersion { has_uploader_item: bool },
    /// The uploader item of the session is being completed.
    CompletingUploaderItem,
    /// The session is being marked completed.
    MarkingCompleted,
    /// The node's head is being set to the new version.
    ApplyingHead,
    /// The completion is being recorded as a change.
    RecordingChange,
    /// The completion is answered.
    Finished,
}

/// What the store or the object store answered.
#[derive(Debug, Clone)]
pub enum UploadCompletionEvent {
    /// The claim changed this many sessions.
    ClaimAffected(u64),
    /// The object store completed the multipart upload.
    StorageCompleted,
    /// The object store refused, with this problem.
    StorageFailed(ProblemDetail),
    /// The session was set back to uploading (or that failed: the answer is
    /// the same).
    RolledBack,
    /// The write asked for was made.
    Written,
}

/// What to do next.
#[derive(Debug, Clone)]
pub enum UploadCompletionAction {
    ClaimCompletion,
    CompleteStorage,
    RollBackToUploading,
    InsertStorageObject,
    InsertNodeVersion,
    CompleteUploaderItem,
    MarkSessionCompleted,
    ApplyHeadSnapshot,
    RecordChange,
    /// Answer the completed session.
    Respond,
    Fail(ProblemDetail),
}

/// The answer fits the step the completion is at.
pub open spec fn completion_event_fits(state: UploadCompletionState, event: UploadCompletionEvent) -> bool {
    match state {
        UploadCompletionState::Claiming { .. } => event is ClaimAffected,
        UploadCompletionState::CompletingStorage { .. } => event is StorageCompleted
            || event is StorageFailed,
        UploadCompletionState::RollingBack(_) => event is RolledBack,
        UploadCompletionState::Finished => false,
        _ => event is Written,
    }
}

/// The conflict a completion meets when its session was claimed by another
/// request or is no longer mutable.
pub open spec fn completion_claim_conflict() -> Seq<char> {
    "upload session completion is already in progress or no longer mutable"@
}

/// The step of a completion: the next state and action after `event`.
pub open spec fn completion_step_is(
    state: UploadCompletionState,
    event: UploadCompletionEvent,
    next: UploadCompletionState,
    action: UploadCompletionAction,
) -> bool {
    match (state, event) {
        (
            UploadCompletionState::Claiming { has_uploader_item },
            UploadCompletionEvent::ClaimAffected(n),
        ) => if n == 0 {
            next is Finished && (action matches UploadCompletionAction::Fail(p)
                && is_conflict_problem(Err::<(), ProblemDetail>(p), completion_claim_conflict()))
        } else {
            next == (UploadCompletionState::CompletingStorage { has_uploader_item })
                && action is CompleteStorage
        },
        (
            UploadCompletionState::CompletingStorage { has_uploader_item },
            UploadCompletionEvent::StorageCompleted,
        ) => next == (UploadCompletionState::InsertingObject { has_uploader_item })
            && action is InsertStorageObject,
        (UploadCompletionState::CompletingStorage { .. }, UploadCompletionEvent::StorageFailed(p)) => next
            == UploadCompletionState::RollingBack(p) && action is RollBackToUploading,
        (UploadCompletionState::RollingBack(p), UploadCompletionEvent::RolledBack) => next is Finished
            && action == UploadCompletionAction::Fail(p),
        (
            UploadCompletionState::InsertingObject { has_uploader_item },
            UploadCompletionEvent::Written,
        ) => next == (UploadCompletionState::InsertingVersion { has_uploader_item })
            && action is InsertNodeVersion,
        (
            UploadCompletionState::InsertingVersion { has_uploader_item },
            UploadCompletionEvent::Written,
        ) => if has_uploader_item {
            next is CompletingUploaderItem && action is CompleteUploaderItem
        } else {
            next is MarkingCompleted && action is MarkSessionCompleted
        },
        (UploadCompletionState::CompletingUploaderItem, UploadCompletionEvent::Written) => next
            is MarkingCompleted && action is MarkSessionCompleted,
        (UploadCompletionState::MarkingCompleted, UploadCompletionEvent::Written) => next
            is ApplyingHead && action is ApplyHeadSnapshot,
        (UploadCompletionState::ApplyingHead, UploadCompletionEvent::Written) => next
            is RecordingChange && action is RecordChange,
        (UploadCompletionState::RecordingChange, UploadCompletionEvent::Written) => next is Finished
            && action is Respond,
        _ => false,
    }
}

/// The first action of a completion: claim the session.
pub fn start_upload_completion(has_uploader_item: bool) -> (r: (
    UploadCompletionState,
    UploadCompletionAction,
))
    ensures
        r.0 == (UploadCompletionState::Claiming { has_uploader_item }),
        r.1 is ClaimCompletion,
{
    (UploadCompletionState::Claiming { has_uploader_item }, UploadCompletionAction::ClaimCompletion)
}

/// Takes the answer to the last action and says what to do next.
pub fn step_upload_completion(state: UploadCompletionState, event: UploadCompletionEvent) -> (r: (
    UploadCompletionState,
    UploadCompletionAction,
))
    requires
        completion_event_fits(state, event),
    ensures
        completion_step_is(state, event, r.0, r.1),
{
    match (state, event) {
        (
            UploadCompletionState::Claiming { has_uploader_item },
            UploadCompletionEvent::ClaimAffected(n),
        ) => {
            if n == 0 {
                (
                    UploadCompletionState::Finished,
                    UploadCompletionAction::Fail(
                        conflict_problem(
                            copy_str(
                                "upload session completion is already in progress or no longer mutable",
                            ),
                        ),
                    ),
                )
            } else {
                (
                    UploadCompletionState::CompletingStorage { has_uploader_item },
                    UploadCompletionAction::CompleteStorage,
                )
            }
        },
        (
            UploadCompletionState::CompletingStorage { has_uploader_item },
            UploadCompletionEvent::StorageCompleted,
        ) => (
            UploadCompletionState::InsertingObject { has_uploader_item },
            UploadCompletionAction::InsertStorageObject,
        ),
        (UploadCompletionState::CompletingStorage { .. }, UploadCompletionEvent::StorageFailed(p)) => (
            UploadCompletionState::RollingBack(p),
            UploadCompletionAction::RollBackToUploading,
        ),
        (UploadCompletionState::RollingBack(p), _) => (
            UploadCompletionState::Finished,
            UploadCompletionAction::Fail(p),
        ),
        (UploadCompletionState::InsertingObject { has_uploader_item }, _) => (
            UploadCompletionState::InsertingVersion { has_uploader_item },
            UploadCompletionAction::InsertNodeVersion,
        ),
        (UploadCompletionState::InsertingVersion { has_uploader_item }, _) => {
            if has_uploader_item {
                (
                    UploadCompletionState::CompletingUploaderItem,
                    UploadCompletionAction::CompleteUploaderItem,
                )
            } else {
                (
                    UploadCompletionState::MarkingCompleted,
                    UploadCompletionAction::MarkSessionCompleted,
                )
            }
        },
        (UploadCompletionState::CompletingUploaderItem, _) => (
            UploadCompletionState::MarkingCompleted,
            UploadCompletionAction::MarkSessionCompleted,
        ),
        (UploadCompletionState::MarkingCompleted, _) => (
            UploadCompletionState::ApplyingHead,
            UploadCompletionAction::ApplyHeadSnapshot,
        ),
        (UploadCompletionState::ApplyingHead, _) => (
            UploadCompletionState::RecordingChange,
            UploadCompletionAction::RecordChange,
        ),
        (UploadCompletionState::RecordingChange, _) => (
            UploadCompletionState::Finished,
            UploadCompletionAction::Respond,
        ),
        (UploadCompletionState::Claiming { has_uploader_item }, _) => (
            UploadCompletionState::CompletingStorage { has_uploader_item },
            UploadCompletionAction::CompleteStorage,
        ),
        (UploadCompletionState::CompletingStorage { has_uploader_item }, _) => (
            UploadCompletionState::InsertingObject { has_uploader_item },
            UploadCompletionAction::InsertStorageObject,
        ),
        (UploadCompletionState::Finished, _) => (
            UploadCompletionState::Finished,
            UploadCompletionAction::Respond,
        ),
    }
}

/// The course of a completion: a claim that changed no session ends it
/// with the 409 of a completion already in progress; a completed object
/// store upload is followed by recording the object; each later write leads
/// to the next, and recording the change answers the completion.
pub proof fn completion_course(
    state: UploadCompletionState,
    event: UploadCompletionEvent,
    next: UploadCompletionState,
    action: UploadCompletionAction,
)
    requires
        completion_step_is(state, event, next, action),
    ensures
        event == UploadCompletionEvent::ClaimAffected(0) ==> next is Finished && (
        action matches UploadCompletionAction::Fail(p) && p.status == 409 && p.detail@
            == "upload session completion is already in progress or no longer mutable"@),
        event is StorageCompleted ==> action is InsertStorageObject,
        state is InsertingObject ==> action is InsertNodeVersion,
        state is RecordingChange ==> action is Respond && next is Finished,
        action is Respond ==> state is RecordingChange,
        action is MarkSessionCompleted ==> event is Written,
{
}

/// A completion whose object-store call fails writes nothing of the
/// completion: it sets the session back to uploading and then answers the
/// object store's problem.
pub proof fn failed_storage_rolls_back(
    has_uploader_item: bool,
    problem: ProblemDetail,
    s1: UploadCompletionState,
    a1: UploadCompletionAction,
    s2: UploadCompletionState,
    a2: UploadCompletionAction,
)
    requires
        completion_step_is(
            UploadCompletionState::CompletingStorage { has_uploader_item },
            UploadCompletionEvent::StorageFailed(problem),
            s1,
            a1,
        ),
        completion_step_is(s1, UploadCompletionEvent::RolledBack, s2, a2),
    ensures
        a1 is RollBackToUploading,
        s2 is Finished,
        a2 == UploadCompletionAction::Fail(problem),
{
}

/// The session is marked completed only once the object store has
/// completed the upload and the object and its version are recorded: only
/// from recording the version (or the uploader item after it).
pub proof fn session_completed_only_after_the_version(
    state: UploadCompletionState,
    event: UploadCompletionEvent,
    next: UploadCompletionState,
    action: UploadCompletionAction,
)
    requires
        completion_step_is(state, event, next, action),
        action is MarkSessionCompleted,
    ensures
        state is InsertingVersion || state is CompletingUploaderItem,
        event is Written,
{
}


/// The first fault of a completion request: the parts, the content type,
/// the checksum, then a negative length.
pub open spec fn completion_request_issue(
    parts: Seq<CompletedUploadPartRequest>,
    content_type: Seq<char>,
    checksum_sha256_hex: Seq<char>,
    content_length: i64,
) -> Option<Seq<char>> {
    match parts_issue(parts) {
        Some(d) => Some(d),
        None => if !content_type_shape_ok(content_type) {
            Some("contentType"@ + " must be a trimmed MIME type up to 255 characters"@)
        } else if !is_mime_type(content_type) {
            Some("contentType"@ + " must be a valid MIME type"@)
        } else if !is_sha256_checksum(checksum_sha256_hex) {
            Some("checksumSha256Hex"@ + " must use sha256:<64 lowercase hex characters>"@)
        } else if content_length < 0 {
            Some("contentLength must be greater than or equal to 0"@)
        } else {
            None
        },
    }
}

/// A client's upload id is accepted: absent, or the session's once trimmed.
pub open spec fn upload_id_accepted(upload_id: Option<Seq<char>>, storage_upload_id: Seq<char>) -> bool {
    match upload_id {
        None => true,
        Some(u) => trim(u).len() > 0 && trim(u) == storage_upload_id,
    }
}

/// The checks a completion makes before it claims the session, in order:
/// the request (parts, content type, checksum, length), the session's
/// state, then the client's upload id; the accepted content type and
/// checksum.
pub fn check_completion_request(
    parts: &Vec<CompletedUploadPartRequest>,
    content_type: &str,
    checksum_sha256_hex: &str,
    content_length: i64,
    session: &UploadSessionRecord,
    upload_id: Option<String>,
) -> (r: Result<(String, String), ProblemDetail>)
    ensures
        completion_request_issue(parts@, content_type@, checksum_sha256_hex@, content_length) matches Some(
            d,
        ) ==> fails_with(r, d),
        completion_request_issue(parts@, content_type@, checksum_sha256_hex@, content_length) is None
            ==> {
            &&& is_settled_state(session.state@) ==> is_conflict_problem(
                r,
                "upload session cannot be modified from "@ + session.state@ + " state"@,
            )
            &&& !is_mutable_state(session.state@) && !is_settled_state(session.state@) ==> fails_with(
                r,
                "upload session state is invalid"@,
            )
            &&& is_mutable_state(session.state@) ==> match upload_id {
                None => r matches Ok((c, s)) && c@ == content_type@ && s@ == checksum_sha256_hex@,
                Some(u) => if trim(u@).len() == 0 {
                    fails_with(r, "uploadId must not be empty"@)
                } else if trim(u@) != session.storage_upload_id@ {
                    is_conflict_problem(
                        r,
                        "uploadId does not match upload session storage upload id"@,
                    )
                } else {
                    r matches Ok((c, s)) && c@ == content_type@ && s@ == checksum_sha256_hex@
                },
            }
        },
{
    let accepted = match validate_completion_request(
        parts,
        content_type,
        checksum_sha256_hex,
        content_length,
    ) {
        Ok(a) => a,
        Err(p) => return Err(p),
    };
    match validate_mutable_upload_session(session) {
        Ok(()) => {},
        Err(p) => return Err(p),
    }
    match check_upload_id(upload_id, session.storage_upload_id.as_str()) {
        Ok(()) => {},
        Err(p) => return Err(p),
    }
    Ok(accepted)
}

/// The storage object a completion records.
#[derive(Debug, Clone)]
pub struct CompletedStorageObjectRow {
    pub id: String,
    pub tenant_id: String,
    pub node_id: String,
    pub version_no: i64,
    pub storage_provider_id: String,
    pub bucket: String,
    pub object_key: String,
    pub scene: Option<String>,
    pub source: Option<String>,
    pub content_type: String,
    pub content_length: i64,
    pub checksum_sha256_hex: String,
    pub lifecycle_status: String,
    pub operator_id: String,
}

/// The node version a completion records.
#[derive(Debug, Clone)]
pub struct CompletedNodeVersion {
    pub tenant_id: String,
    pub space_id: String,
    pub node_id: String,
    pub version_no: i64,
    pub storage_object_id: String,
    pub content_type: String,
    pub content_length: i64,
    pub checksum_sha256_hex: String,
}

/// What a completion writes, in its order: the storage object, the node
/// version, the uploader item's part count, the session's final state, the
/// node's new head and the change.
#[derive(Debug, Clone)]
pub struct CompletionWrites {
    pub storage_object: CompletedStorageObjectRow,
    pub node_version: CompletedNodeVersion,
    pub uploaded_parts_count: i64,
    pub session_state: String,
    pub head_version_no: i64,
    pub head_content_type: String,
    pub head_content_length: i64,
    pub head_checksum_sha256_hex: String,
    pub change_space_id: String,
    pub change_node_id: String,
    pub change_event_type: String,
}

/// The writes of completing `session` of tenant `tenant_id` (its node in
/// space `node_space_id`) with the planned object, the accepted content
/// type and checksum, the length and the parts, by `operator_id`; scene
/// and source come from the session's uploader item, if any.
pub open spec fn completion_writes_are(
    w: CompletionWrites,
    session: UploadSessionRecord,
    tenant_id: Seq<char>,
    node_space_id: Seq<char>,
    plan: CompletedStorageObjectInsertPlan,
    content_type: Seq<char>,
    checksum_sha256_hex: Seq<char>,
    content_length: i64,
    parts_count: int,
    scene: Option<String>,
    source: Option<String>,
    operator_id: Seq<char>,
) -> bool {
    let o = w.storage_object;
    let v = w.node_version;
    &&& o.id@ == plan.id@ && o.version_no == plan.version_no
    &&& o.tenant_id@ == tenant_id && o.node_id@ == session.node_id@
    &&& o.storage_provider_id@ == session.storage_provider_id@
    &&& o.bucket@ == session.bucket@ && o.object_key@ == session.object_key@
    &&& o.scene == scene && o.source == source
    &&& o.content_type@ == content_type && o.content_length == content_length
    &&& o.checksum_sha256_hex@ == checksum_sha256_hex
    &&& o.lifecycle_status@ == "active"@ && o.operator_id@ == operator_id
    &&& v.tenant_id@ == tenant_id && v.space_id@ == node_space_id && v.node_id@ == session.node_id@
    &&& v.version_no == plan.version_no && v.storage_object_id@ == plan.id@
    &&& v.content_type@ == content_type && v.content_length == content_length
    &&& v.checksum_sha256_hex@ == checksum_sha256_hex
    &&& w.uploaded_parts_count == parts_count
    &&& w.session_state@ == "completed"@
    &&& w.head_version_no == plan.version_no && w.head_content_type@ == content_type
    &&& w.head_content_length == content_length && w.head_checksum_sha256_hex@ == checksum_sha256_hex
    &&& w.change_space_id@ == node_space_id && w.change_node_id@ == session.node_id@
    &&& w.change_event_type@ == "upload.completed"@
}

/// Builds the writes of a completion.
pub fn plan_completion_writes(
    session: &UploadSessionRecord,
    tenant_id: &str,
    node_space_id: &str,
    plan: &CompletedStorageObjectInsertPlan,
    content_type: &str,
    checksum_sha256_hex: &str,
    content_length: i64,
    parts_count: usize,
    scene: Option<String>,
    source: Option<String>,
    operator_id: &str,
) -> (w: CompletionWrites)
    requires
        parts_count <= i64::MAX,
    ensures
        completion_writes_are(
            w,
            *session,
            tenant_id@,
            node_space_id@,
            *plan,
            content_type@,
            checksum_sha256_hex@,
            content_length,
            parts_count as int,
            scene,
            source,
            operator_id@,
        ),
{
    let storage_object = CompletedStorageObjectRow {
        id: plan.id.clone(),
        tenant_id: copy_str(tenant_id),
        node_id: session.node_id.clone(),
        version_no: plan.version_no,
        storage_provider_id: session.storage_provider_id.clone(),
        bucket: session.bucket.clone(),
        object_key: session.object_key.clone(),
        scene,
        source,
        content_type: copy_str(content_type),
        content_length,
        checksum_sha256_hex: copy_str(checksum_sha256_hex),
        lifecycle_status: copy_str("active"),
        operator_id: copy_str(operator_id),
    };
    let node_version = CompletedNodeVersion {
        tenant_id: copy_str(tenant_id),
        space_id: copy_str(node_space_id),
        node_id: session.node_id.clone(),
        version_no: plan.version_no,
        storage_object_id: plan.id.clone(),
        content_type: copy_str(content_type),
        content_length,
        checksum_sha256_hex: copy_str(checksum_sha256_hex),
    };
    CompletionWrites {
        storage_object,
        node_version,
        uploaded_parts_count: parts_count as i64,
        session_state: copy_str("completed"),
        head_version_no: plan.version_no,
        head_content_type: copy_str(content_type),
        head_content_length: content_length,
        head_checksum_sha256_hex: copy_str(checksum_sha256_hex),
        change_space_id: copy_str(node_space_id),
        change_node_id: session.node_id.clone(),
        change_event_type: copy_str("upload.completed"),
    }
}

} // verus!

//! Requests that create nodes and upload sessions: what they must hold, how
//! a replayed request is recognised, and how a failed insert is answered.
use vstd::prelude::*;
use crate::errors::{
    ProblemDetail, problem_is, validation_problem, not_found_problem, internal_problem,
    is_unique_constraint_message, is_unique_violation_message, node_insert_conflict_target,
    unique_node_insert_conflict_target, STATUS_NOT_FOUND, STATUS_INTERNAL_SERVER_ERROR,
};
use crate::text::{trim, trim_str, copy_str, concat_str, text_eq, opt_view};
use crate::uploads::{
    UploadSessionRecord, CompletedUploadPartRequest, conflict_problem, is_conflict_problem,
    validate_completed_multipart_parts, parts_issue,
};
use crate::validators::{
    fails_with, gives_text, validate_content_type, validate_sha256_checksum, content_type_shape_ok,
    is_mime_type, is_sha256_checksum, validate_optional_future_epoch_ms_at, current_epoch_ms,
};

verus! {

/// A node as the API answers it.
#[derive(Debug, Clone)]
pub struct DriveNodeResponse {
    pub id: String,
    pub tenant_id: String,
    pub space_id: String,
    pub space_type: Option<String>,
    pub parent_node_id: Option<String>,
    pub shortcut_target_node_id: Option<String>,
    pub node_type: String,
    pub node_name: String,
    pub scene: Option<String>,
    pub source: Option<String>,
    pub lifecycle_status: String,
    pub version: i64,
}

/// A request to create a folder.
#[derive(Debug, Clone)]
pub struct CreateFolderRequest {
    pub id: Option<String>,
    pub space_id: String,
    pub parent_node_id: Option<String>,
    pub node_name: String,
    pub operator_id: Option<String>,
}

/// A request to create a file and its first upload session.
#[derive(Debug, Clone)]
pub struct CreateFileRequest {
    pub id: String,
    pub space_id: String,
    pub parent_node_id: Option<String>,
    pub node_name: String,
    pub upload_session_id: String,
    pub idempotency_key: String,
    pub bucket: Option<String>,
    pub object_key: Option<String>,
    pub expires_at_epoch_ms: i64,
    pub operator_id: Option<String>,
}

/// A request to create a shortcut to another node.
#[derive(Debug, Clone)]
pub struct CreateShortcutRequest {
    pub id: String,
    pub space_id: String,
    pub parent_node_id: Option<String>,
    pub target_node_id: String,
    pub node_name: String,
    pub operator_id: Option<String>,
}

/// An identifier that is absent or blank counts as absent; otherwise it is
/// trimmed.
pub open spec fn normalized_id(value: Option<Seq<char>>) -> Option<Seq<char>> {
    match value {
        Some(v) => if trim(v).len() == 0 {
            None
        } else {
            Some(trim(v))
        },
        None => None,
    }
}

fn normalize_optional_id(value: &Option<String>) -> (r: Option<String>)
    ensures
        opt_view(r) == normalized_id(opt_view(*value)),
{
    match value {
        Some(v) => {
            let t = trim_str(v.as_str());
            if t.as_str().is_empty() {
                None
            } else {
                Some(t)
            }
        },
        None => None,
    }
}

fn opt_text_eq(a: &Option<String>, b: &Option<String>) -> (r: bool)
    ensures
        r == (opt_view(*a) == opt_view(*b)),
{
    match (a, b) {
        (Some(x), Some(y)) => text_eq(x.as_str(), y.as_str()),
        (None, None) => true,
        _ => false,
    }
}

/// An existing node is what a folder request with the same id creates.
pub open spec fn folder_matches(
    existing: DriveNodeResponse,
    payload: CreateFolderRequest,
    node_name: Seq<char>,
) -> bool {
    &&& existing.node_type@ == "folder"@
    &&& existing.space_id@ == payload.space_id@
    &&& opt_view(existing.parent_node_id) == opt_view(payload.parent_node_id)
    &&& existing.node_name@ == node_name
    &&& existing.lifecycle_status@ != "deleted"@
}

/// Whether an existing node is what the folder request creates.
pub fn folder_create_request_matches(
    existing: &DriveNodeResponse,
    payload: &CreateFolderRequest,
    node_name: &str,
) -> (r: bool)
    ensures
        r == folder_matches(*existing, *payload, node_name@),
{
    text_eq(existing.node_type.as_str(), "folder") && text_eq(
        existing.space_id.as_str(),
        payload.space_id.as_str(),
    ) && opt_text_eq(&existing.parent_node_id, &payload.parent_node_id) && text_eq(
        existing.node_name.as_str(),
        node_name,
    ) && !text_eq(existing.lifecycle_status.as_str(), "deleted")
}

/// The trimmed name of a new folder; a blank one is refused.
pub fn validate_folder_name(node_name: &str) -> (r: Result<String, ProblemDetail>)
    ensures
        trim(node_name@).len() == 0 ==> fails_with(r, "nodeName is required"@),
        trim(node_name@).len() > 0 ==> gives_text(r, trim(node_name@)),
{
    let t = trim_str(node_name);
    if t.as_str().is_empty() {
        return Err(validation_problem(copy_str("nodeName is required")));
    }
    Ok(t)
}

/// How the id of a new folder is settled.
#[derive(Debug, Clone)]
pub enum FolderIdPlan {
    /// The client's id names the same folder: answer it as created.
    Replay(DriveNodeResponse),
    /// The client's id is free: check it is not taken, then use it.
    UseClientId(String),
    /// No client id: draw a new one.
    Generate,
}

/// Settles the id of a new folder from the client's id and the node already
/// stored under it, if any.
pub fn plan_folder_node_id(
    client_id: &Option<String>,
    existing: Option<DriveNodeResponse>,
    payload: &CreateFolderRequest,
    node_name: &str,
) -> (r: Result<FolderIdPlan, ProblemDetail>)
    ensures
        normalized_id(opt_view(*client_id)) is None ==> r matches Ok(FolderIdPlan::Generate),
        normalized_id(opt_view(*client_id)) matches Some(id) ==> match existing {
            None => r matches Ok(FolderIdPlan::UseClientId(x)) && x@ == id,
            Some(e) => if folder_matches(e, *payload, node_name@) {
                r matches Ok(FolderIdPlan::Replay(x)) && x == e
            } else {
                is_conflict_problem(r, "node id already exists"@)
            },
        },
{
    match normalize_optional_id(client_id) {
        None => Ok(FolderIdPlan::Generate),
        Some(id) => match existing {
            None => Ok(FolderIdPlan::UseClientId(id)),
            Some(e) => {
                if folder_create_request_matches(&e, payload, node_name) {
                    Ok(FolderIdPlan::Replay(e))
                } else {
                    Err(conflict_problem(copy_str("node id already exists")))
                }
            },
        },
    }
}

/// The answer to a failed folder insert: a unique clash on the id or on the
/// name, else an internal error.
pub fn folder_insert_error_problem(message: &str) -> (p: ProblemDetail)
    ensures
        is_unique_violation_message(message@) && node_insert_conflict_target(message@) == "id"@
            ==> is_conflict_problem(Err::<(), ProblemDetail>(p), "node id already exists"@),
        is_unique_violation_message(message@) && node_insert_conflict_target(message@) != "id"@
            ==> is_conflict_problem(Err::<(), ProblemDetail>(p), "node name already exists in parent"@),
        !is_unique_violation_message(message@) ==> problem_is(
            p,
            STATUS_INTERNAL_SERVER_ERROR,
            "internal error"@,
            "insert dr_drive_node failed: "@ + message@,
            "drive.internal_error"@,
        ),
{
    if is_unique_constraint_message(message) {
        if text_eq(unique_node_insert_conflict_target(message), "id") {
            conflict_problem(copy_str("node id already exists"))
        } else {
            conflict_problem(copy_str("node name already exists in parent"))
        }
    } else {
        internal_problem(concat_str("insert dr_drive_node failed: ", message))
    }
}

/// The answer to a failed insert of a file or shortcut node: a unique clash
/// is on the name, else an internal error naming what was inserted.
pub fn named_node_insert_error_problem(what: &str, message: &str) -> (p: ProblemDetail)
    ensures
        is_unique_violation_message(message@) ==> is_conflict_problem(
            Err::<(), ProblemDetail>(p),
            "node name already exists in parent"@,
        ),
        !is_unique_violation_message(message@) ==> problem_is(
            p,
            STATUS_INTERNAL_SERVER_ERROR,
            "internal error"@,
            "insert "@ + what@ + " dr_drive_node failed: "@ + message@,
            "drive.internal_error"@,
        ),
{
    if is_unique_constraint_message(message) {
        conflict_problem(copy_str("node name already exists in parent"))
    } else {
        let a = concat_str("insert ", what);
        let b = concat_str(a.as_str(), " dr_drive_node failed: ");
        internal_problem(concat_str(b.as_str(), message))
    }
}

/// The answer of the file request check with the clock at `now`: the
/// required fields first, then the expiry.
pub open spec fn create_file_request_answer(
    r: Result<(), ProblemDetail>,
    payload: CreateFileRequest,
    now: i64,
) -> bool {
    let missing = trim(payload.id@).len() == 0 || trim(payload.node_name@).len() == 0
        || trim(payload.upload_session_id@).len() == 0 || trim(payload.idempotency_key@).len() == 0;
    &&& missing ==> fails_with(r, "id, nodeName, uploadSessionId, and idempotencyKey are required"@)
    &&& (!missing && payload.expires_at_epoch_ms <= now) ==> fails_with(
        r,
        "expiresAtEpochMs"@ + " must be in the future"@,
    )
    &&& (!missing && payload.expires_at_epoch_ms > now) ==> r is Ok
}

/// The fields a file request must hold: id, name, upload session and
/// idempotency key, none blank, and an expiry after `now`.
pub fn validate_create_file_request_at(payload: &CreateFileRequest, now_epoch_ms: i64) -> (r:
    Result<(), ProblemDetail>)
    ensures
        create_file_request_answer(r, *payload, now_epoch_ms),
{
    if trim_str(payload.id.as_str()).as_str().is_empty() || trim_str(
        payload.node_name.as_str(),
    ).as_str().is_empty() || trim_str(payload.upload_session_id.as_str()).as_str().is_empty()
        || trim_str(payload.idempotency_key.as_str()).as_str().is_empty() {
        return Err(
            validation_problem(
                copy_str("id, nodeName, uploadSessionId, and idempotencyKey are required"),
            ),
        );
    }
    validate_optional_future_epoch_ms_at(
        Some(payload.expires_at_epoch_ms),
        "expiresAtEpochMs",
        now_epoch_ms,
    )
}

/// A file request checked against the clock.
pub fn validate_create_file_request(payload: &CreateFileRequest) -> (r: Result<(), ProblemDetail>)
    ensures
        exists|now: i64| #[trigger] create_file_request_answer(r, *payload, now),
{
    validate_create_file_request_at(payload, current_epoch_ms())
}

/// A repeated file request with a known idempotency key names the same
/// node and the same upload session.
pub open spec fn file_replay_matches(
    payload: CreateFileRequest,
    tenant_id: Seq<char>,
    node: DriveNodeResponse,
    session: UploadSessionRecord,
) -> bool {
    let node_id = trim(payload.id@);
    let bucket = normalized_id(opt_view(payload.bucket));
    &&& node.id@ == node_id
    &&& node.tenant_id@ == tenant_id
    &&& node.space_id@ == payload.space_id@
    &&& node.node_type@ == "file"@
    &&& node.node_name@ == trim(payload.node_name@)
    &&& normalized_id(opt_view(node.parent_node_id)) == normalized_id(opt_view(payload.parent_node_id))
    &&& session.id@ == trim(payload.upload_session_id@)
    &&& session.tenant_id@ == tenant_id
    &&& session.space_id@ == payload.space_id@
    &&& session.node_id@ == node_id
    &&& session.idempotency_key@ == trim(payload.idempotency_key@)
    &&& (bucket matches Some(b) ==> b == session.bucket@)
}

/// Accepts a replayed file request only when it names the same node and
/// upload session; otherwise the idempotency key is taken.
pub fn validate_create_file_idempotent_replay(
    payload: &CreateFileRequest,
    tenant_id: &str,
    node: &DriveNodeResponse,
    upload_session: &UploadSessionRecord,
) -> (r: Result<(), ProblemDetail>)
    ensures
        file_replay_matches(*payload, tenant_id@, *node, *upload_session) ==> r is Ok,
        !file_replay_matches(*payload, tenant_id@, *node, *upload_session) ==> is_conflict_problem(
            r,
            "idempotencyKey already belongs to a different file creation request"@,
        ),
{
    let payload_node_id = trim_str(payload.id.as_str());
    let payload_node_name = trim_str(payload.node_name.as_str());
    let payload_parent = normalize_optional_id(&payload.parent_node_id);
    let node_parent = normalize_optional_id(&node.parent_node_id);
    let payload_bucket = normalize_optional_id(&payload.bucket);
    let matches_node = text_eq(node.id.as_str(), payload_node_id.as_str()) && text_eq(
        node.tenant_id.as_str(),
        tenant_id,
    ) && text_eq(node.space_id.as_str(), payload.space_id.as_str()) && text_eq(
        node.node_type.as_str(),
        "file",
    ) && text_eq(node.node_name.as_str(), payload_node_name.as_str()) && opt_text_eq(
        &node_parent,
        &payload_parent,
    );
    let session_id = trim_str(payload.upload_session_id.as_str());
    let key = trim_str(payload.idempotency_key.as_str());
    let bucket_ok = match &payload_bucket {
        Some(b) => text_eq(b.as_str(), upload_session.bucket.as_str()),
        None => true,
    };
    let matches_session = text_eq(upload_session.id.as_str(), session_id.as_str()) && text_eq(
        upload_session.tenant_id.as_str(),
        tenant_id,
    ) && text_eq(upload_session.space_id.as_str(), payload.space_id.as_str()) && text_eq(
        upload_session.node_id.as_str(),
        payload_node_id.as_str(),
    ) && text_eq(upload_session.idempotency_key.as_str(), key.as_str()) && bucket_ok;
    if matches_node && matches_session {
        return Ok(());
    }
    Err(
        conflict_problem(
            copy_str("idempotencyKey already belongs to a different file creation request"),
        ),
    )
}

/// `node` and `session` are what creating a file for `payload` writes: the
/// node under the trimmed id and name, in the payload's space and parent,
/// and the upload session under the trimmed id and idempotency key, in the
/// bucket the payload names, if it names one.
pub open spec fn file_creation_writes(
    payload: CreateFileRequest,
    tenant_id: Seq<char>,
    node: DriveNodeResponse,
    session: UploadSessionRecord,
) -> bool {
    &&& node.id@ == trim(payload.id@)
    &&& node.tenant_id@ == tenant_id
    &&& node.space_id@ == payload.space_id@
    &&& node.node_type@ == "file"@
    &&& node.node_name@ == trim(payload.node_name@)
    &&& opt_view(node.parent_node_id) == opt_view(payload.parent_node_id)
    &&& session.id@ == trim(payload.upload_session_id@)
    &&& session.tenant_id@ == tenant_id
    &&& session.space_id@ == payload.space_id@
    &&& session.node_id@ == trim(payload.id@)
    &&& session.idempotency_key@ == trim(payload.idempotency_key@)
    &&& (normalized_id(opt_view(payload.bucket)) matches Some(b) ==> session.bucket@ == b)
}

/// The node and upload session creating a file for `payload` writes: the
/// node (a file, active, at version 1) under the trimmed id and name, and
/// the session (created, at version 1) under the trimmed id and key, in the
/// bucket the payload names or else the space's default bucket, with the
/// object key, provider and storage upload the storage target and object
/// store gave.
pub fn plan_file_creation(
    payload: &CreateFileRequest,
    tenant_id: &str,
    default_bucket: String,
    object_key: String,
    storage_provider_id: String,
    storage_upload_id: String,
) -> (r: (DriveNodeResponse, UploadSessionRecord))
    ensures
        file_creation_writes(*payload, tenant_id@, r.0, r.1),
        r.0.lifecycle_status@ == "active"@,
        r.0.version == 1,
        r.1.bucket@ == match normalized_id(opt_view(payload.bucket)) {
            Some(b) => b,
            None => default_bucket@,
        },
        r.1.object_key == object_key,
        r.1.storage_provider_id == storage_provider_id,
        r.1.storage_upload_id == storage_upload_id,
        r.1.state@ == "created"@,
        r.1.expires_at_epoch_ms == payload.expires_at_epoch_ms,
        r.1.version == 1,
{
    let node_id = trim_str(payload.id.as_str());
    let node = DriveNodeResponse {
        id: trim_str(payload.id.as_str()),
        tenant_id: copy_str(tenant_id),
        space_id: payload.space_id.clone(),
        space_type: None,
        parent_node_id: payload.parent_node_id.clone(),
        shortcut_target_node_id: None,
        node_type: copy_str("file"),
        node_name: trim_str(payload.node_name.as_str()),
        scene: None,
        source: None,
        lifecycle_status: copy_str("active"),
        version: 1,
    };
    let bucket = match normalize_optional_id(&payload.bucket) {
        Some(b) => b,
        None => default_bucket,
    };
    let session = UploadSessionRecord {
        id: trim_str(payload.upload_session_id.as_str()),
        tenant_id: copy_str(tenant_id),
        space_id: payload.space_id.clone(),
        node_id,
        bucket,
        object_key,
        idempotency_key: trim_str(payload.idempotency_key.as_str()),
        storage_provider_id,
        storage_upload_id,
        state: copy_str("created"),
        expires_at_epoch_ms: payload.expires_at_epoch_ms,
        version: 1,
    };
    (node, session)
}

/// Creating a file again with the same payload is a replay of the first:
/// the node and upload session the first call wrote (`plan_file_creation`
/// gives them) pass the replay check,
/// so the second call answers them and writes nothing.
pub proof fn repeated_file_creation_is_a_replay(
    payload: CreateFileRequest,
    tenant_id: Seq<char>,
    node: DriveNodeResponse,
    session: UploadSessionRecord,
)
    requires
        file_creation_writes(payload, tenant_id, node, session),
    ensures
        file_replay_matches(payload, tenant_id, node, session),
{
}

/// The fields a shortcut request must hold: id, name and target, none
/// blank.
pub fn validate_create_shortcut_request(payload: &CreateShortcutRequest) -> (r: Result<
    (),
    ProblemDetail,
>)
    ensures
        (trim(payload.id@).len() == 0 || trim(payload.node_name@).len() == 0 || trim(
            payload.target_node_id@,
        ).len() == 0) ==> fails_with(r, "id, nodeName, and targetNodeId are required"@),
        !(trim(payload.id@).len() == 0 || trim(payload.node_name@).len() == 0 || trim(
            payload.target_node_id@,
        ).len() == 0) ==> r is Ok,
{
    if trim_str(payload.id.as_str()).as_str().is_empty() || trim_str(
        payload.node_name.as_str(),
    ).as_str().is_empty() || trim_str(payload.target_node_id.as_str()).as_str().is_empty() {
        return Err(validation_problem(copy_str("id, nodeName, and targetNodeId are required")));
    }
    Ok(())
}

/// A shortcut may not point at itself nor outside its space.
pub fn check_shortcut_target(target: &DriveNodeResponse, payload: &CreateShortcutRequest) -> (r:
    Result<(), ProblemDetail>)
    ensures
        target.id@ == trim(payload.id@) ==> fails_with(
            r,
            "targetNodeId cannot be the shortcut node"@,
        ),
        target.id@ != trim(payload.id@) && target.space_id@ != payload.space_id@ ==> fails_with(
            r,
            "targetNodeId must reference a node in the same space"@,
        ),
        target.id@ != trim(payload.id@) && target.space_id@ == payload.space_id@ ==> r is Ok,
{
    let id = trim_str(payload.id.as_str());
    if text_eq(target.id.as_str(), id.as_str()) {
        return Err(validation_problem(copy_str("targetNodeId cannot be the shortcut node")));
    }
    if !text_eq(target.space_id.as_str(), payload.space_id.as_str()) {
        return Err(
            validation_problem(copy_str("targetNodeId must reference a node in the same space")),
        );
    }
    Ok(())
}

/// An upload session request needs an idempotency key and an expiry after
/// `now`.
pub fn validate_upload_session_request_at(
    idempotency_key: &str,
    expires_at_epoch_ms: i64,
    now_epoch_ms: i64,
) -> (r: Result<(), ProblemDetail>)
    ensures
        trim(idempotency_key@).len() == 0 ==> fails_with(r, "idempotencyKey is required"@),
        trim(idempotency_key@).len() > 0 && expires_at_epoch_ms <= now_epoch_ms ==> fails_with(
            r,
            "expiresAtEpochMs"@ + " must be in the future"@,
        ),
        trim(idempotency_key@).len() > 0 && expires_at_epoch_ms > now_epoch_ms ==> r is Ok,
{
    if trim_str(idempotency_key).as_str().is_empty() {
        return Err(validation_problem(copy_str("idempotencyKey is required")));
    }
    validate_optional_future_epoch_ms_at(Some(expires_at_epoch_ms), "expiresAtEpochMs", now_epoch_ms)
}

/// The node of a new upload session must be a file of the request's space:
/// one of another space is not found.
pub fn check_upload_session_node(node: &DriveNodeResponse, space_id: &str) -> (r: Result<
    (),
    ProblemDetail,
>)
    ensures
        node.space_id@ != space_id@ ==> (r matches Err(p) && problem_is(
            p,
            STATUS_NOT_FOUND,
            "not found"@,
            "node not found"@,
            "drive.not_found"@,
        )),
        node.space_id@ == space_id@ && node.node_type@ != "file"@ ==> fails_with(
            r,
            "nodeId must reference an active file"@,
        ),
        node.space_id@ == space_id@ && node.node_type@ == "file"@ ==> r is Ok,
{
    if !text_eq(node.space_id.as_str(), space_id) {
        return Err(not_found_problem(copy_str("node not found")));
    }
    if !text_eq(node.node_type.as_str(), "file") {
        return Err(validation_problem(copy_str("nodeId must reference an active file")));
    }
    Ok(())
}

/// The checks of a completion request, in order: the parts, the content
/// type, the checksum and a non-negative length; the accepted content type
/// and checksum.
pub fn validate_completion_request(
    parts: &Vec<CompletedUploadPartRequest>,
    content_type: &str,
    checksum_sha256_hex: &str,
    content_length: i64,
) -> (r: Result<(String, String), ProblemDetail>)
    ensures
        parts_issue(parts@) matches Some(d) ==> fails_with(r, d),
        parts_issue(parts@) is None && !content_type_shape_ok(content_type@) ==> fails_with(
            r,
            "contentType"@ + " must be a trimmed MIME type up to 255 characters"@,
        ),
        parts_issue(parts@) is None && content_type_shape_ok(content_type@) && !is_mime_type(
            content_type@,
        ) ==> fails_with(r, "contentType"@ + " must be a valid MIME type"@),
        parts_issue(parts@) is None && content_type_shape_ok(content_type@) && is_mime_type(
            content_type@,
        ) && !is_sha256_checksum(checksum_sha256_hex@) ==> fails_with(
            r,
            "checksumSha256Hex"@ + " must use sha256:<64 lowercase hex characters>"@,
        ),
        parts_issue(parts@) is None && content_type_shape_ok(content_type@) && is_mime_type(
            content_type@,
        ) && is_sha256_checksum(checksum_sha256_hex@) && content_length < 0 ==> fails_with(
            r,
            "contentLength must be greater than or equal to 0"@,
        ),
        parts_issue(parts@) is None && content_type_shape_ok(content_type@) && is_mime_type(
            content_type@,
        ) && is_sha256_checksum(checksum_sha256_hex@) && content_length >= 0 ==> (r matches Ok(
            (c, s),
        ) && c@ == content_type@ && s@ == checksum_sha256_hex@),
{
    match validate_completed_multipart_parts(parts) {
        Ok(()) => {},
        Err(p) => return Err(p),
    }
    let c = match validate_content_type(content_type, "contentType") {
        Ok(c) => c,
        Err(p) => return Err(p),
    };
    let s = match validate_sha256_checksum(checksum_sha256_hex, "checksumSha256Hex") {
        Ok(s) => s,
        Err(p) => return Err(p),
    };
    if content_length < 0 {
        return Err(validation_problem(copy_str("contentLength must be greater than or equal to 0")));
    }
    Ok((c, s))
}

/// A request to copy a node.
#[derive(Debug, Clone)]
pub struct CopyNodeRequest {
    pub id: String,
    pub target_space_id: Option<String>,
    pub target_parent_node_id: Option<String>,
    pub node_name: Option<String>,
    pub operator_id: Option<String>,
}

/// Where a copy goes and what it is called.
#[derive(Debug, Clone)]
pub struct CopyTarget {
    pub space_id: String,
    pub parent_node_id: Option<String>,
    pub node_name: String,
}

/// A copy needs the id of the new node.
pub fn validate_copy_request(payload: &CopyNodeRequest) -> (r: Result<(), ProblemDetail>)
    ensures
        trim(payload.id@).len() == 0 ==> fails_with(r, "id is required"@),
        trim(payload.id@).len() > 0 ==> r is Ok,
{
    if trim_str(payload.id.as_str()).as_str().is_empty() {
        return Err(validation_problem(copy_str("id is required")));
    }
    Ok(())
}

/// The copy goes to the requested space, parent and name, each defaulting
/// to the source's own when absent or blank.
pub fn plan_copy_target(payload: &CopyNodeRequest, source: &DriveNodeResponse) -> (r: CopyTarget)
    ensures
        r.space_id@ == match normalized_id(opt_view(payload.target_space_id)) {
            Some(s) => s,
            None => source.space_id@,
        },
        opt_view(r.parent_node_id) == match normalized_id(opt_view(payload.target_parent_node_id)) {
            Some(p) => Some(p),
            None => opt_view(source.parent_node_id),
        },
        r.node_name@ == match normalized_id(opt_view(payload.node_name)) {
            Some(n) => n,
            None => source.node_name@,
        },
{
    let space_id = match normalize_optional_id(&payload.target_space_id) {
        Some(s) => s,
        None => source.space_id.clone(),
    };
    let parent_node_id = match normalize_optional_id(&payload.target_parent_node_id) {
        Some(p) => Some(p),
        None => source.parent_node_id.clone(),
    };
    let node_name = match normalize_optional_id(&payload.node_name) {
        Some(n) => n,
        None => source.node_name.clone(),
    };
    CopyTarget { space_id, parent_node_id, node_name }
}

/// The node a copy inserts.
#[derive(Debug, Clone)]
pub struct CopiedNodeRow {
    pub id: String,
    pub tenant_id: String,
    pub space_id: String,
    pub parent_node_id: Option<String>,
    pub shortcut_target_node_id: Option<String>,
    pub node_type: String,
    pub node_name: String,
    pub content_state: String,
    pub lifecycle_status: String,
    pub version: i64,
    pub operator_id: String,
    /// The change recorded for the copy.
    pub change_event_type: String,
}

/// The node copying `source` for `payload` inserts: under the trimmed id,
/// at the planned target, of the source's type, shortcut target and content
/// state, active, at version 1; the change is `node.copied`.
pub open spec fn copied_node_is(
    row: CopiedNodeRow,
    payload: CopyNodeRequest,
    tenant_id: Seq<char>,
    source: DriveNodeResponse,
    content_state: Seq<char>,
    operator_id: Seq<char>,
) -> bool {
    &&& row.id@ == trim(payload.id@)
    &&& row.tenant_id@ == tenant_id
    &&& row.space_id@ == match normalized_id(opt_view(payload.target_space_id)) {
        Some(s) => s,
        None => source.space_id@,
    }
    &&& opt_view(row.parent_node_id) == match normalized_id(opt_view(payload.target_parent_node_id)) {
        Some(p) => Some(p),
        None => opt_view(source.parent_node_id),
    }
    &&& row.node_name@ == match normalized_id(opt_view(payload.node_name)) {
        Some(n) => n,
        None => source.node_name@,
    }
    &&& row.shortcut_target_node_id == source.shortcut_target_node_id
    &&& row.node_type@ == source.node_type@
    &&& row.content_state@ == content_state
    &&& row.lifecycle_status@ == "active"@
    &&& row.version == 1
    &&& row.operator_id@ == operator_id
    &&& row.change_event_type@ == "node.copied"@
}

/// Plans the copy of `source`: a blank id is refused first; else the row
/// the copy inserts.
pub fn plan_copied_node(
    payload: &CopyNodeRequest,
    tenant_id: &str,
    source: &DriveNodeResponse,
    content_state: &str,
    operator_id: &str,
) -> (r: Result<CopiedNodeRow, ProblemDetail>)
    ensures
        trim(payload.id@).len() == 0 ==> fails_with(r, "id is required"@),
        trim(payload.id@).len() > 0 ==> (r matches Ok(row) && copied_node_is(
            row,
            *payload,
            tenant_id@,
            *source,
            content_state@,
            operator_id@,
        )),
{
    match validate_copy_request(payload) {
        Ok(()) => {},
        Err(p) => return Err(p),
    }
    let target = plan_copy_target(payload, source);
    Ok(
        CopiedNodeRow {
            id: trim_str(payload.id.as_str()),
            tenant_id: copy_str(tenant_id),
            space_id: target.space_id,
            parent_node_id: target.parent_node_id,
            shortcut_target_node_id: source.shortcut_target_node_id.clone(),
            node_type: source.node_type.clone(),
            node_name: target.node_name,
            content_state: copy_str(content_state),
            lifecycle_status: copy_str("active"),
            version: 1,
            operator_id: copy_str(operator_id),
            change_event_type: copy_str("node.copied"),
        },
    )
}

/// The answer to a failed insert of a copy: a unique clash is on the name,
/// else an internal error.
pub fn copy_insert_error_problem(message: &str) -> (p: ProblemDetail)
    ensures
        is_unique_violation_message(message@) ==> is_conflict_problem(
            Err::<(), ProblemDetail>(p),
            "node name already exists in parent"@,
        ),
        !is_unique_violation_message(message@) ==> problem_is(
            p,
            STATUS_INTERNAL_SERVER_ERROR,
            "internal error"@,
            "copy dr_drive_node failed: "@ + message@,
            "drive.internal_error"@,
        ),
{
    if is_unique_constraint_message(message) {
        conflict_problem(copy_str("node name already exists in parent"))
    } else {
        internal_problem(concat_str("copy dr_drive_node failed: ", message))
    }
}

} // verus!

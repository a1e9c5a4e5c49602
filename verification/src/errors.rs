//! Service errors and the RFC 7807 problem documents the HTTP API answers with.
use vstd::prelude::*;
use crate::text::{copy_str, starts_with_text, contains_text, has_prefix, contains_seq};

verus! {

pub const STATUS_BAD_REQUEST: u16 = 400;
pub const STATUS_FORBIDDEN: u16 = 403;
pub const STATUS_NOT_FOUND: u16 = 404;
pub const STATUS_CONFLICT: u16 = 409;
pub const STATUS_GONE: u16 = 410;
pub const STATUS_INTERNAL_SERVER_ERROR: u16 = 500;

/// An error of the Drive service layer.
#[derive(Debug, Clone, PartialEq, Eq)]
pub enum DriveServiceError {
    Validation(String),
    Conflict(String),
    NotFound(String),
    PermissionDenied(String),
    Internal(String),
}

/// `r` is the validation error with this detail.
pub open spec fn is_validation_error<T>(r: Result<T, DriveServiceError>, detail: Seq<char>) -> bool {
    r matches Err(DriveServiceError::Validation(m)) && m@ == detail
}

/// `r` is the conflict error with this detail.
pub open spec fn is_conflict_error<T>(r: Result<T, DriveServiceError>, detail: Seq<char>) -> bool {
    r matches Err(DriveServiceError::Conflict(m)) && m@ == detail
}

/// `r` is the not-found error with this detail.
pub open spec fn is_not_found_error<T>(r: Result<T, DriveServiceError>, detail: Seq<char>) -> bool {
    r matches Err(DriveServiceError::NotFound(m)) && m@ == detail
}

/// `r` is the internal error with this detail.
pub open spec fn is_internal_error<T>(r: Result<T, DriveServiceError>, detail: Seq<char>) -> bool {
    r matches Err(DriveServiceError::Internal(m)) && m@ == detail
}

/// The category of a service error, as reported to observability.
#[derive(Debug, Clone, Copy, PartialEq, Eq)]
pub enum DriveErrorKind {
    Validation,
    Conflict,
    NotFound,
    PermissionDenied,
    Internal,
}

/// A problem document; `status` is the HTTP status it is answered with.
#[derive(Debug, Clone)]
pub struct ProblemDetail {
    pub problem_type: String,
    pub title: String,
    pub status: u16,
    pub detail: String,
    pub code: String,
    pub trace_id: String,
    pub request_id: String,
}

/// `p` is the problem document with these status, title, detail and code,
/// and the fixed type, trace and request markers.
pub open spec fn problem_is(
    p: ProblemDetail,
    status: u16,
    title: Seq<char>,
    detail: Seq<char>,
    code: Seq<char>,
) -> bool {
    &&& p.status == status
    &&& p.title@ == title
    &&& p.detail@ == detail
    &&& p.code@ == code
    &&& p.problem_type@ == "about:blank"@
    &&& p.trace_id@ == "trace-unset"@
    &&& p.request_id@ == "request-unset"@
}

/// A validation problem (400, `drive.validation.failed`) with this detail.
pub open spec fn is_validation_problem(p: ProblemDetail, detail: Seq<char>) -> bool {
    problem_is(p, STATUS_BAD_REQUEST, "validation failed"@, detail, "drive.validation.failed"@)
}

/// Builds a problem document.
pub fn problem(status: u16, title: &str, detail: String, code: &str) -> (p: ProblemDetail)
    ensures
        problem_is(p, status, title@, detail@, code@),
{
    ProblemDetail {
        problem_type: copy_str("about:blank"),
        title: copy_str(title),
        status,
        detail,
        code: copy_str(code),
        trace_id: copy_str("trace-unset"),
        request_id: copy_str("request-unset"),
    }
}

/// A 400 validation problem.
pub fn validation_problem(detail: String) -> (p: ProblemDetail)
    ensures
        is_validation_problem(p, detail@),
{
    problem(STATUS_BAD_REQUEST, "validation failed", detail, "drive.validation.failed")
}

/// A 404 problem.
pub fn not_found_problem(detail: String) -> (p: ProblemDetail)
    ensures
        problem_is(p, STATUS_NOT_FOUND, "not found"@, detail@, "drive.not_found"@),
{
    problem(STATUS_NOT_FOUND, "not found", detail, "drive.not_found")
}

/// A 500 problem.
pub fn internal_problem(detail: String) -> (p: ProblemDetail)
    ensures
        problem_is(p, STATUS_INTERNAL_SERVER_ERROR, "internal error"@, detail@, "drive.internal_error"@),
{
    problem(STATUS_INTERNAL_SERVER_ERROR, "internal error", detail, "drive.internal_error")
}

/// The 403 answer to a subject without the required access.
pub fn permission_denied_problem() -> (p: ProblemDetail)
    ensures
        problem_is(
            p,
            STATUS_FORBIDDEN,
            "permission denied"@,
            "subject does not have required access to the drive node"@,
            "drive.permission_denied"@,
        ),
{
    problem(
        STATUS_FORBIDDEN,
        "permission denied",
        copy_str("subject does not have required access to the drive node"),
        "drive.permission_denied",
    )
}

/// The 403 answer to a request that contradicts the verified app context.
pub fn context_conflict(detail: &str) -> (p: ProblemDetail)
    ensures
        problem_is(p, STATUS_FORBIDDEN, "forbidden"@, detail@, "sdkwork.auth.context_conflict"@),
{
    problem(STATUS_FORBIDDEN, "forbidden", copy_str(detail), "sdkwork.auth.context_conflict")
}

/// The 409 answer to an archive extraction that would overwrite a node.
pub fn archive_extraction_target_conflict_problem() -> (p: ProblemDetail)
    ensures
        problem_is(
            p,
            STATUS_CONFLICT,
            "conflict"@,
            "archive extraction target conflicts with an existing node"@,
            "drive.conflict"@,
        ),
{
    problem(
        STATUS_CONFLICT,
        "conflict",
        copy_str("archive extraction target conflicts with an existing node"),
        "drive.conflict",
    )
}

/// The message carried by a service error.
pub open spec fn service_error_detail(e: DriveServiceError) -> Seq<char> {
    match e {
        DriveServiceError::Validation(d) => d@,
        DriveServiceError::Conflict(d) => d@,
        DriveServiceError::NotFound(d) => d@,
        DriveServiceError::PermissionDenied(d) => d@,
        DriveServiceError::Internal(d) => d@,
    }
}

/// The problem document a service error is answered with.
pub open spec fn service_error_problem(p: ProblemDetail, e: DriveServiceError) -> bool {
    match e {
        DriveServiceError::Validation(d) => problem_is(
            p,
            STATUS_BAD_REQUEST,
            "validation failed"@,
            d@,
            if has_prefix(d@, "provider_kind is invalid;"@) {
                "drive.validation.provider_kind_invalid"@
            } else {
                "drive.validation.failed"@
            },
        ),
        DriveServiceError::Conflict(d) => problem_is(p, STATUS_CONFLICT, "conflict"@, d@, "drive.conflict"@),
        DriveServiceError::NotFound(d) => problem_is(p, STATUS_NOT_FOUND, "not found"@, d@, "drive.not_found"@),
        DriveServiceError::PermissionDenied(d) => problem_is(
            p,
            STATUS_FORBIDDEN,
            "permission denied"@,
            d@,
            "drive.permission_denied"@,
        ),
        DriveServiceError::Internal(d) => problem_is(
            p,
            STATUS_INTERNAL_SERVER_ERROR,
            "internal error"@,
            d@,
            "drive.internal_error"@,
        ),
    }
}

/// Maps a service error to its problem document.
pub fn map_service_error(error: DriveServiceError) -> (p: ProblemDetail)
    ensures
        service_error_problem(p, error),
{
    match error {
        DriveServiceError::Validation(detail) => {
            if starts_with_text(detail.as_str(), "provider_kind is invalid;") {
                problem(
                    STATUS_BAD_REQUEST,
                    "validation failed",
                    detail,
                    "drive.validation.provider_kind_invalid",
                )
            } else {
                problem(STATUS_BAD_REQUEST, "validation failed", detail, "drive.validation.failed")
            }
        },
        DriveServiceError::Conflict(detail) => problem(
            STATUS_CONFLICT,
            "conflict",
            detail,
            "drive.conflict",
        ),
        DriveServiceError::NotFound(detail) => problem(
            STATUS_NOT_FOUND,
            "not found",
            detail,
            "drive.not_found",
        ),
        DriveServiceError::PermissionDenied(detail) => problem(
            STATUS_FORBIDDEN,
            "permission denied",
            detail,
            "drive.permission_denied",
        ),
        DriveServiceError::Internal(detail) => problem(
            STATUS_INTERNAL_SERVER_ERROR,
            "internal error",
            detail,
            "drive.internal_error",
        ),
    }
}

/// Maps an error of download-token resolution: an expired token is 410,
/// everything else as `map_service_error`.
pub fn map_download_token_error(error: DriveServiceError) -> (p: ProblemDetail)
    ensures
        match error {
            DriveServiceError::NotFound(d) => if contains_seq(d@, "expired"@) {
                problem_is(
                    p,
                    STATUS_GONE,
                    "download token expired"@,
                    d@,
                    "drive.download_token.expired"@,
                )
            } else {
                service_error_problem(p, error)
            },
            _ => service_error_problem(p, error),
        },
{
    match error {
        DriveServiceError::NotFound(detail) => {
            if contains_text(detail.as_str(), "expired") {
                problem(STATUS_GONE, "download token expired", detail, "drive.download_token.expired")
            } else {
                map_service_error(DriveServiceError::NotFound(detail))
            }
        },
        other => map_service_error(other),
    }
}

/// The kind of a service error.
pub fn service_error_kind(error: &DriveServiceError) -> (k: DriveErrorKind)
    ensures
        k == (match error {
            DriveServiceError::Validation(_) => DriveErrorKind::Validation,
            DriveServiceError::Conflict(_) => DriveErrorKind::Conflict,
            DriveServiceError::NotFound(_) => DriveErrorKind::NotFound,
            DriveServiceError::PermissionDenied(_) => DriveErrorKind::PermissionDenied,
            DriveServiceError::Internal(_) => DriveErrorKind::Internal,
        }),
{
    match error {
        DriveServiceError::Validation(_) => DriveErrorKind::Validation,
        DriveServiceError::Conflict(_) => DriveErrorKind::Conflict,
        DriveServiceError::NotFound(_) => DriveErrorKind::NotFound,
        DriveServiceError::PermissionDenied(_) => DriveErrorKind::PermissionDenied,
        DriveServiceError::Internal(_) => DriveErrorKind::Internal,
    }
}

/// The kinds of object-store failure the service distinguishes.
#[derive(Debug, Clone, Copy, PartialEq, Eq)]
pub enum ObjectStoreErrorKind {
    NotFound,
    InvalidRequest,
    Conflict,
    PermissionDenied,
    Unavailable,
    Other,
}

/// A failure reported by an object store.
#[derive(Debug, Clone)]
pub struct ObjectStoreError {
    pub kind: ObjectStoreErrorKind,
    pub message: String,
}

/// Maps an object-store failure to a service error of the same message.
pub fn map_object_store_error(error: ObjectStoreError) -> (e: DriveServiceError)
    ensures
        service_error_detail(e) == error.message@,
        match error.kind {
            ObjectStoreErrorKind::NotFound => e is NotFound,
            ObjectStoreErrorKind::InvalidRequest => e is Validation,
            ObjectStoreErrorKind::Conflict => e is Conflict,
            ObjectStoreErrorKind::PermissionDenied => e is PermissionDenied,
            _ => e is Internal,
        },
{
    match error.kind {
        ObjectStoreErrorKind::NotFound => DriveServiceError::NotFound(error.message),
        ObjectStoreErrorKind::InvalidRequest => DriveServiceError::Validation(error.message),
        ObjectStoreErrorKind::Conflict => DriveServiceError::Conflict(error.message),
        ObjectStoreErrorKind::PermissionDenied => DriveServiceError::PermissionDenied(error.message),
        _ => DriveServiceError::Internal(error.message),
    }
}

/// A database error message that reports a violated unique constraint,
/// in SQLite's or PostgreSQL's words.
pub open spec fn is_unique_violation_message(m: Seq<char>) -> bool {
    contains_seq(m, "UNIQUE constraint failed"@) || contains_seq(
        m,
        "duplicate key value violates unique constraint"@,
    )
}

/// Whether a database error message reports a violated unique constraint.
pub fn is_unique_constraint_message(message: &str) -> (r: bool)
    ensures
        r == is_unique_violation_message(message@),
{
    contains_text(message, "UNIQUE constraint failed") || contains_text(
        message,
        "duplicate key value violates unique constraint",
    )
}

/// Which constraint a failed node insert ran into: `"id"`, `"name"` or `"unknown"`.
pub open spec fn node_insert_conflict_target(m: Seq<char>) -> Seq<char> {
    if !is_unique_violation_message(m) {
        "unknown"@
    } else if contains_seq(m, "dr_drive_node_pkey"@) || contains_seq(m, "ux_dr_drive_node_pkey"@)
        || contains_seq(m, "UNIQUE constraint failed: dr_drive_node.id"@) || contains_seq(
        m,
        "unique constraint \"dr_drive_node_pkey\""@,
    ) {
        "id"@
    } else if contains_seq(m, "ux_dr_drive_node_root_name_live"@) || contains_seq(
        m,
        "ux_dr_drive_node_child_name_live"@,
    ) {
        "name"@
    } else if contains_seq(m, "parent_node_id"@) || contains_seq(m, "node_name"@) {
        "name"@
    } else {
        "unknown"@
    }
}

/// Classifies the database error message of a failed node insert.
pub fn unique_node_insert_conflict_target(message: &str) -> (r: &'static str)
    ensures
        r@ == node_insert_conflict_target(message@),
{
    if !is_unique_constraint_message(message) {
        return "unknown";
    }
    if contains_text(message, "dr_drive_node_pkey") || contains_text(message, "ux_dr_drive_node_pkey")
        || (contains_text(message, "UNIQUE constraint failed: dr_drive_node.id") || contains_text(
        message,
        "unique constraint \"dr_drive_node_pkey\"",
    )) {
        return "id";
    }
    if contains_text(message, "ux_dr_drive_node_root_name_live") || contains_text(
        message,
        "ux_dr_drive_node_child_name_live",
    ) {
        return "name";
    }
    if contains_text(message, "parent_node_id") || contains_text(message, "node_name") {
        return "name";
    }
    "unknown"
}

} // verus!

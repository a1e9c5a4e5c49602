//! The uploader's prepare request: who uploads, where the upload goes and
//! how long it is kept.
use vstd::prelude::*;
use crate::errors::{ProblemDetail, validation_problem};
use crate::text::{trim, trim_str, copy_str, concat_str, text_eq, opt_view, normalized_text};
use crate::validators::{fails_with, require_non_empty_text, current_epoch_ms};

verus! {

/// How long a prepared upload is kept, as requested.
#[derive(Debug, Clone)]
pub struct UploaderRetentionRequest {
    pub mode: String,
    pub ttl_seconds: Option<i64>,
    pub cleanup_action: Option<String>,
    pub hard_delete_after_seconds: Option<i64>,
}

/// A request to prepare an upload through the uploader.
#[derive(Debug, Clone)]
pub struct PrepareUploaderUploadRequest {
    pub id: Option<String>,
    pub task_id: Option<String>,
    pub tenant_id: Option<String>,
    pub organization_id: Option<String>,
    pub app_id: String,
    pub user_id: Option<String>,
    pub anonymous_id: Option<String>,
    pub app_resource_type: Option<String>,
    pub app_resource_id: Option<String>,
    pub scene: Option<String>,
    pub source: Option<String>,
    pub upload_profile_code: Option<String>,
    pub file_fingerprint: Option<String>,
    pub original_file_name: String,
    pub content_type: Option<String>,
    pub content_length: i64,
    pub chunk_size_bytes: i64,
    pub space_id: Option<String>,
    pub parent_node_id: Option<String>,
    pub share_token: Option<String>,
    pub retention: Option<UploaderRetentionRequest>,
    pub operator_id: Option<String>,
    pub now_epoch_ms: Option<i64>,
}

/// Who uploads.
#[derive(Debug, Clone)]
pub enum UploaderActor {
    User { user_id: String },
    Anonymous { anonymous_id: String },
}

/// Where an upload goes.
#[derive(Debug, Clone)]
pub enum UploaderTarget {
    Space { space_id: String, parent_node_id: Option<String>, share_token: Option<String> },
    AutoUploadSpace { parent_node_id: Option<String> },
}

/// How long an upload is kept.
#[derive(Debug, Clone)]
pub enum UploaderRetention {
    Temporary {
        ttl_seconds: i64,
        cleanup_action: String,
        hard_delete_after_seconds: Option<i64>,
    },
    LongTerm,
}

/// The command the uploader service prepares an upload from.
#[derive(Debug, Clone)]
pub struct PrepareUploaderUploadCommand {
    pub id: Option<String>,
    pub task_id: Option<String>,
    pub tenant_id: Option<String>,
    pub organization_id: Option<String>,
    pub actor: UploaderActor,
    pub app_id: String,
    pub app_resource_type: Option<String>,
    pub app_resource_id: Option<String>,
    pub scene: Option<String>,
    pub source: Option<String>,
    pub upload_profile_code: String,
    pub file_fingerprint: Option<String>,
    pub original_file_name: String,
    pub content_type: Option<String>,
    pub content_length: i64,
    pub chunk_size_bytes: i64,
    pub target: UploaderTarget,
    pub retention: UploaderRetention,
    pub operator_id: Option<String>,
    pub now_epoch_ms: i64,
}

/// The uploader: the named user, else an anonymous uploader under the given
/// id or one derived from the app.
pub open spec fn actor_is(
    a: UploaderActor,
    user_id: Option<Seq<char>>,
    anonymous_id: Option<Seq<char>>,
    app_id: Seq<char>,
) -> bool {
    match normalized_text(user_id) {
        Some(u) => a matches UploaderActor::User { user_id } && user_id@ == u,
        None => a matches UploaderActor::Anonymous { anonymous_id: x } && x@ == match normalized_text(
            anonymous_id,
        ) {
            Some(v) => v,
            None => "app:"@ + app_id + ":anonymous"@,
        },
    }
}

/// The target: the named space, else the automatic upload space.
pub open spec fn target_is(t: UploaderTarget, p: PrepareUploaderUploadRequest) -> bool {
    match normalized_text(opt_view(p.space_id)) {
        Some(s) => t matches UploaderTarget::Space { space_id, parent_node_id, share_token }
            && space_id@ == s && parent_node_id == p.parent_node_id && share_token == p.share_token,
        None => t matches UploaderTarget::AutoUploadSpace { parent_node_id } && parent_node_id
            == p.parent_node_id,
    }
}

/// The retention a request asks for, if its mode is known: `temporary`
/// (a day and a soft delete by default) or `long_term`, the default.
pub open spec fn retention_is(r: UploaderRetention, req: Option<UploaderRetentionRequest>) -> bool {
    match req {
        None => r is LongTerm,
        Some(x) => if trim(x.mode@) == "temporary"@ {
            r matches UploaderRetention::Temporary {
                ttl_seconds,
                cleanup_action,
                hard_delete_after_seconds,
            } && ttl_seconds == match x.ttl_seconds {
                Some(t) => t,
                None => 86400,
            } && cleanup_action@ == match x.cleanup_action {
                Some(c) => c@,
                None => "soft_delete"@,
            } && hard_delete_after_seconds == x.hard_delete_after_seconds
        } else {
            r is LongTerm
        },
    }
}

/// A retention request names a known mode.
pub open spec fn retention_mode_known(req: Option<UploaderRetentionRequest>) -> bool {
    match req {
        None => true,
        Some(x) => trim(x.mode@) == "temporary"@ || trim(x.mode@) == "long_term"@,
    }
}

/// The command prepared from a request at time `now`.
pub open spec fn command_is(
    c: PrepareUploaderUploadCommand,
    p: PrepareUploaderUploadRequest,
    now_epoch_ms: i64,
) -> bool {
    let app = trim(p.app_id@);
    &&& c.app_id@ == app
    &&& actor_is(c.actor, opt_view(p.user_id), opt_view(p.anonymous_id), app)
    &&& target_is(c.target, p)
    &&& retention_is(c.retention, p.retention)
    &&& c.id == p.id
    &&& c.task_id == p.task_id
    &&& c.tenant_id == p.tenant_id
    &&& c.organization_id == p.organization_id
    &&& c.app_resource_type == p.app_resource_type
    &&& c.app_resource_id == p.app_resource_id
    &&& c.scene == p.scene
    &&& c.source == p.source
    &&& c.upload_profile_code@ == match p.upload_profile_code {
        Some(v) => v@,
        None => "generic"@,
    }
    &&& c.file_fingerprint == p.file_fingerprint
    &&& c.original_file_name == p.original_file_name
    &&& c.content_type == p.content_type
    &&& c.content_length == p.content_length
    &&& c.chunk_size_bytes == p.chunk_size_bytes
    &&& c.operator_id == p.operator_id
    &&& c.now_epoch_ms == match p.now_epoch_ms {
        Some(t) => t,
        None => now_epoch_ms,
    }
}

fn normalize_text_ref(value: &Option<String>) -> (r: Option<String>)
    ensures
        opt_view(r) == normalized_text(opt_view(*value)),
{
    match value {
        Some(v) => {
            let t = trim_str(v.as_str());
            if t.as_str().is_empty() {
                None
            } else {
                Some(t)
            }
        },
        None => None,
    }
}

/// Builds the uploader command of a request, at time `now_epoch_ms` when
/// the request gives none: a blank app is refused, and so is a retention
/// mode other than `temporary` or `long_term`.
pub fn prepare_uploader_command_at(payload: PrepareUploaderUploadRequest, now_epoch_ms: i64) -> (r:
    Result<PrepareUploaderUploadCommand, ProblemDetail>)
    ensures
        trim(payload.app_id@).len() == 0 ==> fails_with(r, "appId"@ + " is required"@),
        trim(payload.app_id@).len() > 0 && !retention_mode_known(payload.retention) ==> fails_with(
            r,
            "retention.mode must be temporary or long_term"@,
        ),
        trim(payload.app_id@).len() > 0 && retention_mode_known(payload.retention) ==> (r matches Ok(
            c,
        ) && command_is(c, payload, now_epoch_ms)),
{
    let app_id = match require_non_empty_text(payload.app_id, "appId") {
        Ok(a) => a,
        Err(e) => return Err(e),
    };
    let actor = match normalize_text_ref(&payload.user_id) {
        Some(user_id) => UploaderActor::User { user_id },
        None => {
            let anonymous_id = match normalize_text_ref(&payload.anonymous_id) {
                Some(a) => a,
                None => {
                    let a = concat_str("app:", app_id.as_str());
                    concat_str(a.as_str(), ":anonymous")
                },
            };
            UploaderActor::Anonymous { anonymous_id }
        },
    };
    let target = match normalize_text_ref(&payload.space_id) {
        Some(space_id) => UploaderTarget::Space {
            space_id,
            parent_node_id: payload.parent_node_id,
            share_token: payload.share_token,
        },
        None => UploaderTarget::AutoUploadSpace { parent_node_id: payload.parent_node_id },
    };
    let retention = match payload.retention {
        Some(x) => {
            let mode = trim_str(x.mode.as_str());
            if text_eq(mode.as_str(), "temporary") {
                UploaderRetention::Temporary {
                    ttl_seconds: match x.ttl_seconds {
                        Some(t) => t,
                        None => 86400,
                    },
                    cleanup_action: match x.cleanup_action {
                        Some(c) => c,
                        None => copy_str("soft_delete"),
                    },
                    hard_delete_after_seconds: x.hard_delete_after_seconds,
                }
            } else if text_eq(mode.as_str(), "long_term") {
                UploaderRetention::LongTerm
            } else {
                return Err(
                    validation_problem(copy_str("retention.mode must be temporary or long_term")),
                );
            }
        },
        None => UploaderRetention::LongTerm,
    };
    let upload_profile_code = match payload.upload_profile_code {
        Some(v) => v,
        None => copy_str("generic"),
    };
    let now = match payload.now_epoch_ms {
        Some(t) => t,
        None => now_epoch_ms,
    };
    Ok(
        PrepareUploaderUploadCommand {
            id: payload.id,
            task_id: payload.task_id,
            tenant_id: payload.tenant_id,
            organization_id: payload.organization_id,
            actor,
            app_id,
            app_resource_type: payload.app_resource_type,
            app_resource_id: payload.app_resource_id,
            scene: payload.scene,
            source: payload.source,
            upload_profile_code,
            file_fingerprint: payload.file_fingerprint,
            original_file_name: payload.original_file_name,
            content_type: payload.content_type,
            content_length: payload.content_length,
            chunk_size_bytes: payload.chunk_size_bytes,
            target,
            retention,
            operator_id: payload.operator_id,
            now_epoch_ms: now,
        },
    )
}

/// Builds the uploader command of a request; a request without a time is
/// prepared at the clock's time.
pub fn prepare_uploader_command(payload: PrepareUploaderUploadRequest) -> (r: Result<
    PrepareUploaderUploadCommand,
    ProblemDetail,
>)
    ensures
        trim(payload.app_id@).len() == 0 ==> fails_with(r, "appId"@ + " is required"@),
        trim(payload.app_id@).len() > 0 && !retention_mode_known(payload.retention) ==> fails_with(
            r,
            "retention.mode must be temporary or long_term"@,
        ),
        trim(payload.app_id@).len() > 0 && retention_mode_known(payload.retention) ==> (r matches Ok(
            c,
        ) && exists|now: i64| #[trigger] command_is(c, payload, now)),
{
    let now = match payload.now_epoch_ms {
        Some(t) => t,
        None => current_epoch_ms(),
    };
    prepare_uploader_command_at(payload, now)
}

} // verus!

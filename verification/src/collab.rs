//! Collaboration on nodes: share links, comments, properties and watch
//! channels, as requests are turned into what is stored.
use vstd::prelude::*;
use crate::errors::{
    ProblemDetail, problem_is, internal_problem, not_found_problem, is_unique_constraint_message,
    is_unique_violation_message, STATUS_INTERNAL_SERVER_ERROR,
};
use crate::hashing::{hash_watch_token, build_node_property_id, lower_hex, sha256_of, zero_joined};
use crate::hierarchy::is_not_found_problem;
use crate::nodes::normalized_id;
use crate::text::{trim, trim_str, copy_str, concat_str, text_eq, opt_view, normalized_text};
use crate::uploads::{conflict_problem, is_conflict_problem};
use crate::validators::{
    fails_with, gives_text, is_share_link_role, validate_share_link_role,
    validate_optional_future_epoch_ms_at, validate_optional_non_negative_i64,
    require_non_empty_text, validate_node_property_key, validate_node_property_visibility,
    validate_watch_channel_id, validate_watch_channel_address, validate_watch_channel_type,
    validate_watch_expiration_at, is_key, utf8_len,
};
use crate::text::has_prefix;
use vstd::utf8::encode_utf8;

verus! {

/// The trimmed text, or `default` when it is absent or blank.
pub open spec fn or_default_text(value: Option<Seq<char>>, default: Seq<char>) -> Seq<char> {
    match normalized_text(value) {
        Some(v) => v,
        None => default,
    }
}

fn text_or_default(value: Option<String>, default: &str) -> (r: String)
    ensures
        r@ == or_default_text(opt_view(value), default@),
{
    match value {
        Some(v) => {
            let t = trim_str(v.as_str());
            if t.as_str().is_empty() {
                copy_str(default)
            } else {
                t
            }
        },
        None => copy_str(default),
    }
}

/// The operator of a comment change: the trimmed operator, else
/// `operator-unset`.
pub fn operator_or_unset(operator_id: Option<String>) -> (r: String)
    ensures
        r@ == or_default_text(opt_view(operator_id), "operator-unset"@),
{
    text_or_default(operator_id, "operator-unset")
}

/// The role of a new share link, `reader` by default; it must be a share
/// link role.
pub fn share_link_create_role(role: Option<String>) -> (r: Result<String, ProblemDetail>)
    ensures
        is_share_link_role(or_default_text(opt_view(role), "reader"@)) ==> gives_text(
            r,
            or_default_text(opt_view(role), "reader"@),
        ),
        !is_share_link_role(or_default_text(opt_view(role), "reader"@)) ==> fails_with(
            r,
            "share link role is invalid"@,
        ),
{
    let role = text_or_default(role, "reader");
    match validate_share_link_role(role.as_str()) {
        Ok(()) => Ok(role),
        Err(p) => Err(p),
    }
}

/// The limits of a share link: an expiry after `now` and a non-negative
/// download limit, each when given.
pub fn check_share_link_limits(
    expires_at_epoch_ms: Option<i64>,
    download_limit: Option<i64>,
    now_epoch_ms: i64,
) -> (r: Result<(), ProblemDetail>)
    ensures
        (expires_at_epoch_ms matches Some(e) && e <= now_epoch_ms) ==> fails_with(
            r,
            "expiresAtEpochMs"@ + " must be in the future"@,
        ),
        !(expires_at_epoch_ms matches Some(e) && e <= now_epoch_ms) && (download_limit matches Some(
            d,
        ) && d < 0) ==> fails_with(r, "downloadLimit"@ + " must be greater than or equal to 0"@),
        !(expires_at_epoch_ms matches Some(e) && e <= now_epoch_ms) && !(download_limit matches Some(
            d,
        ) && d < 0) ==> r is Ok,
{
    match validate_optional_future_epoch_ms_at(expires_at_epoch_ms, "expiresAtEpochMs", now_epoch_ms) {
        Ok(()) => {},
        Err(p) => return Err(p),
    }
    validate_optional_non_negative_i64(download_limit, "downloadLimit")
}

/// The answer to a failed share link insert: a unique clash is on the
/// token.
pub fn share_link_insert_error_problem(message: &str) -> (p: ProblemDetail)
    ensures
        is_unique_violation_message(message@) ==> is_conflict_problem(
            Err::<(), ProblemDetail>(p),
            "share token already exists"@,
        ),
        !is_unique_violation_message(message@) ==> problem_is(
            p,
            STATUS_INTERNAL_SERVER_ERROR,
            "internal error"@,
            "insert dr_drive_node_share_link failed: "@ + message@,
            "drive.internal_error"@,
        ),
{
    if is_unique_constraint_message(message) {
        conflict_problem(copy_str("share token already exists"))
    } else {
        internal_problem(concat_str("insert dr_drive_node_share_link failed: ", message))
    }
}

/// A patch of an optional number: absent keeps the current value, a given
/// empty value clears it, a given number sets it.
pub open spec fn patched(patch: Option<Option<i64>>, current: Option<i64>) -> Option<i64> {
    match patch {
        None => current,
        Some(v) => v,
    }
}

/// Applies a patch to an optional number.
pub fn apply_optional_i64_patch(patch: Option<Option<i64>>, current: Option<i64>) -> (r: Option<
    i64,
>)
    ensures
        r == patched(patch, current),
{
    match patch {
        None => current,
        Some(v) => v,
    }
}

/// A share link after an update.
#[derive(Debug, Clone)]
pub struct ShareLinkUpdate {
    pub role: String,
    pub expires_at_epoch_ms: Option<i64>,
    pub download_limit: Option<i64>,
}

/// Plans a share link update: the requested role, else the current one,
/// and the patched limits, all checked.
pub fn plan_share_link_update(
    current_role: &str,
    current_expires_at_epoch_ms: Option<i64>,
    current_download_limit: Option<i64>,
    role: Option<String>,
    expires_patch: Option<Option<i64>>,
    download_limit_patch: Option<Option<i64>>,
    now_epoch_ms: i64,
) -> (r: Result<ShareLinkUpdate, ProblemDetail>)
    ensures
        ({
            let next_role = or_default_text(opt_view(role), current_role@);
            let expires = patched(expires_patch, current_expires_at_epoch_ms);
            let limit = patched(download_limit_patch, current_download_limit);
            if !is_share_link_role(next_role) {
                fails_with(r, "share link role is invalid"@)
            } else if expires matches Some(e) && e <= now_epoch_ms {
                fails_with(r, "expiresAtEpochMs"@ + " must be in the future"@)
            } else if limit matches Some(d) && d < 0 {
                fails_with(r, "downloadLimit"@ + " must be greater than or equal to 0"@)
            } else {
                r matches Ok(u) && u.role@ == next_role && u.expires_at_epoch_ms == expires
                    && u.download_limit == limit
            }
        }),
{
    let next_role = text_or_default(role, current_role);
    match validate_share_link_role(next_role.as_str()) {
        Ok(()) => {},
        Err(p) => return Err(p),
    }
    let expires = apply_optional_i64_patch(expires_patch, current_expires_at_epoch_ms);
    let limit = apply_optional_i64_patch(download_limit_patch, current_download_limit);
    match check_share_link_limits(expires, limit, now_epoch_ms) {
        Ok(()) => {},
        Err(p) => return Err(p),
    }
    Ok(ShareLinkUpdate { role: next_role, expires_at_epoch_ms: expires, download_limit: limit })
}

/// A write that touched no active row did not find its target.
pub fn write_outcome(affected: u64, not_found_detail: &str) -> (r: Result<(), ProblemDetail>)
    ensures
        affected == 0 ==> is_not_found_problem(r, not_found_detail@),
        affected > 0 ==> r is Ok,
{
    if affected == 0 {
        return Err(not_found_problem(copy_str(not_found_detail)));
    }
    Ok(())
}

/// A new comment: its id and content, both required, and its anchor when
/// given.
pub fn plan_comment_create(id: String, content: String, anchor: Option<String>) -> (r: Result<
    (String, String, Option<String>),
    ProblemDetail,
>)
    ensures
        trim(id@).len() == 0 ==> fails_with(r, "id"@ + " is required"@),
        trim(id@).len() > 0 && trim(content@).len() == 0 ==> fails_with(
            r,
            "content"@ + " is required"@,
        ),
        trim(id@).len() > 0 && trim(content@).len() > 0 ==> (r matches Ok((i, c, a)) && i@ == trim(
            id@,
        ) && c@ == trim(content@) && opt_view(a) == normalized_text(opt_view(anchor))),
{
    let id = match require_non_empty_text(id, "id") {
        Ok(v) => v,
        Err(p) => return Err(p),
    };
    let content = match require_non_empty_text(content, "content") {
        Ok(v) => v,
        Err(p) => return Err(p),
    };
    Ok((id, content, crate::text::normalize_optional_text(anchor)))
}

/// A comment after an update: new content (required when given), anchor
/// and resolution, each else the current one.
pub fn plan_comment_update(
    current_content: String,
    current_anchor: Option<String>,
    current_resolved: bool,
    content: Option<String>,
    anchor: Option<String>,
    resolved: Option<bool>,
) -> (r: Result<(String, Option<String>, bool), ProblemDetail>)
    ensures
        (content matches Some(c) && trim(c@).len() == 0) ==> fails_with(
            r,
            "content"@ + " is required"@,
        ),
        !(content matches Some(c) && trim(c@).len() == 0) ==> (r matches Ok((c, a, s)) && c@
            == match content {
            Some(x) => trim(x@),
            None => current_content@,
        } && opt_view(a) == match normalized_text(opt_view(anchor)) {
            Some(x) => Some(x),
            None => opt_view(current_anchor),
        } && s == match resolved {
            Some(b) => b,
            None => current_resolved,
        }),
{
    let content = match content {
        Some(v) => match require_non_empty_text(v, "content") {
            Ok(t) => t,
            Err(p) => return Err(p),
        },
        None => current_content,
    };
    let anchor = match crate::text::normalize_optional_text(anchor) {
        Some(a) => Some(a),
        None => current_anchor,
    };
    let resolved = match resolved {
        Some(b) => b,
        None => current_resolved,
    };
    Ok((content, anchor, resolved))
}

/// A node property to store.
#[derive(Debug, Clone)]
pub struct NodePropertyPlan {
    pub id: String,
    pub property_key: String,
    pub visibility: String,
    pub property_value: String,
}

/// Plans a property: a valid key, a visibility (`private` by default) and a
/// required value; the id is derived from tenant, node, visibility and key.
pub fn plan_node_property(
    tenant_id: &str,
    node_id: &str,
    property_key: &str,
    visibility: Option<String>,
    value: String,
) -> (r: Result<NodePropertyPlan, ProblemDetail>)
    ensures
        !is_key(trim(property_key@), 128) ==> fails_with(r, "propertyKey is invalid"@),
        is_key(trim(property_key@), 128) && !({
            let v = trim(or_default_text(opt_view(visibility), "private"@));
            v == "private"@ || v == "app_public"@
        }) ==> fails_with(r, "visibility is invalid"@),
        ({
            let v = trim(or_default_text(opt_view(visibility), "private"@));
            is_key(trim(property_key@), 128) && (v == "private"@ || v == "app_public"@) && trim(
                value@,
            ).len() == 0
        }) ==> fails_with(r, "value"@ + " is required"@),
        ({
            let v = trim(or_default_text(opt_view(visibility), "private"@));
            is_key(trim(property_key@), 128) && (v == "private"@ || v == "app_public"@) && trim(
                value@,
            ).len() > 0
        }) ==> (r matches Ok(p) && p.property_key@ == trim(property_key@) && p.visibility@ == trim(
            or_default_text(opt_view(visibility), "private"@),
        ) && p.property_value@ == trim(value@) && p.id@ == "p:"@ + lower_hex(
            sha256_of(
                zero_joined(
                    seq![tenant_id@, node_id@, p.visibility@, p.property_key@],
                ),
            ),
        ).take(62)),
{
    let key = match validate_node_property_key(property_key) {
        Ok(k) => k,
        Err(p) => return Err(p),
    };
    let v = text_or_default(visibility, "private");
    let visibility = match validate_node_property_visibility(v.as_str()) {
        Ok(x) => x,
        Err(p) => return Err(p),
    };
    let value = match require_non_empty_text(value, "value") {
        Ok(x) => x,
        Err(p) => return Err(p),
    };
    let id = build_node_property_id(tenant_id, node_id, key.as_str(), visibility.as_str());
    Ok(NodePropertyPlan { id, property_key: key, visibility, property_value: value })
}

/// What a watch channel watches.
#[derive(Debug, Clone)]
pub enum WatchTarget {
    /// The changes of a space.
    SpaceChanges { space_id: String },
    /// One node of a space.
    Node { space_id: String, node_id: String },
}

/// A watch channel to store.
#[derive(Debug, Clone)]
pub struct WatchChannelInsert {
    pub id: String,
    pub space_id: Option<String>,
    pub node_id: Option<String>,
    pub resource_type: String,
    pub resource_id: Option<String>,
    pub channel_type: String,
    pub address: String,
    pub token_hash: Option<String>,
    pub expiration_epoch_ms: i64,
}

/// Plans a watch channel: a valid id, an https address, the `web_hook`
/// type (the default) and an expiration after `now`; the token is stored
/// as its digest.
pub fn plan_watch_channel(
    target: WatchTarget,
    id: &str,
    address: &str,
    channel_type: Option<String>,
    token: Option<String>,
    expiration_epoch_ms: i64,
    now_epoch_ms: i64,
) -> (r: Result<WatchChannelInsert, ProblemDetail>)
    ensures
        !is_key(trim(id@), 64) ==> fails_with(r, "id is invalid"@),
        is_key(trim(id@), 64) && !(utf8_len(trim(address@)) <= 2048 && has_prefix(
            trim(address@),
            "https://"@,
        )) ==> fails_with(r, "address must be an https webhook URL"@),
        is_key(trim(id@), 64) && (utf8_len(trim(address@)) <= 2048 && has_prefix(
            trim(address@),
            "https://"@,
        )) && trim(or_default_text(opt_view(channel_type), "web_hook"@)) != "web_hook"@
            ==> fails_with(r, "channelType is invalid"@),
        is_key(trim(id@), 64) && (utf8_len(trim(address@)) <= 2048 && has_prefix(
            trim(address@),
            "https://"@,
        )) && trim(or_default_text(opt_view(channel_type), "web_hook"@)) == "web_hook"@
            && expiration_epoch_ms <= now_epoch_ms ==> fails_with(
            r,
            "expirationEpochMs must be in the future"@,
        ),
        is_key(trim(id@), 64) && (utf8_len(trim(address@)) <= 2048 && has_prefix(
            trim(address@),
            "https://"@,
        )) && trim(or_default_text(opt_view(channel_type), "web_hook"@)) == "web_hook"@
            && expiration_epoch_ms > now_epoch_ms ==> (r matches Ok(w) && w.id@ == trim(id@)
            && w.address@ == trim(address@) && w.channel_type@ == "web_hook"@
            && w.expiration_epoch_ms == expiration_epoch_ms && opt_view(w.token_hash) == match token {
            Some(t) => Some(lower_hex(sha256_of(encode_utf8(trim(t@))))),
            None => None,
        } && match target {
            WatchTarget::SpaceChanges { space_id } => opt_view(w.space_id) == Some(space_id@)
                && w.node_id is None && w.resource_type@ == "changes"@ && opt_view(w.resource_id)
                == Some(space_id@),
            WatchTarget::Node { space_id, node_id } => opt_view(w.space_id) == Some(space_id@)
                && opt_view(w.node_id) == Some(node_id@) && w.resource_type@ == "node"@ && opt_view(
                w.resource_id,
            ) == Some(node_id@),
        }),
{
    let id = match validate_watch_channel_id(id) {
        Ok(v) => v,
        Err(p) => return Err(p),
    };
    let address = match validate_watch_channel_address(address) {
        Ok(v) => v,
        Err(p) => return Err(p),
    };
    let ct = text_or_default(channel_type, "web_hook");
    let channel_type = match validate_watch_channel_type(ct.as_str()) {
        Ok(v) => v,
        Err(p) => return Err(p),
    };
    match validate_watch_expiration_at(expiration_epoch_ms, now_epoch_ms) {
        Ok(()) => {},
        Err(p) => return Err(p),
    }
    let token_hash = match token {
        Some(t) => Some(hash_watch_token(t.as_str())),
        None => None,
    };
    let (space_id, node_id, resource_type, resource_id) = match target {
        WatchTarget::SpaceChanges { space_id } => {
            let rid = space_id.clone();
            (Some(space_id), None, copy_str("changes"), Some(rid))
        },
        WatchTarget::Node { space_id, node_id } => {
            let rid = node_id.clone();
            (Some(space_id), Some(node_id), copy_str("node"), Some(rid))
        },
    };
    Ok(
        WatchChannelInsert {
            id,
            space_id,
            node_id,
            resource_type,
            resource_id,
            channel_type,
            address,
            token_hash,
            expiration_epoch_ms,
        },
    )
}

/// The answer to a failed watch channel insert: a unique clash is on the
/// channel id.
pub fn watch_channel_insert_error_problem(message: &str) -> (p: ProblemDetail)
    ensures
        is_unique_violation_message(message@) ==> is_conflict_problem(
            Err::<(), ProblemDetail>(p),
            "watch channel id already exists"@,
        ),
        !is_unique_violation_message(message@) ==> problem_is(
            p,
            STATUS_INTERNAL_SERVER_ERROR,
            "internal error"@,
            "insert dr_drive_watch_channel failed: "@ + message@,
            "drive.internal_error"@,
        ),
{
    if is_unique_constraint_message(message) {
        conflict_problem(copy_str("watch channel id already exists"))
    } else {
        internal_problem(concat_str("insert dr_drive_watch_channel failed: ", message))
    }
}

} // verus!

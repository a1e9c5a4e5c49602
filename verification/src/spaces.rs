//! Spaces and their lifecycle: answers, updates, the root folder and owner
//! grant of a new team space, node permissions, quotas and the upload
//! content policy.
use vstd::prelude::*;
use crate::errors::{DriveServiceError, is_unique_constraint_message, is_unique_violation_message, is_validation_error, is_conflict_error, is_not_found_error, is_internal_error};
use crate::text::{trim, trim_str, copy_str, concat_str, opt_view};

verus! {

/// A space as stored.
#[derive(Debug, Clone)]
pub struct DriveSpace {
    pub id: String,
    pub tenant_id: String,
    pub owner_subject_type: String,
    pub owner_subject_id: String,
    pub display_name: String,
    pub presentation_icon: Option<String>,
    pub presentation_color: Option<String>,
    pub description: Option<String>,
    pub space_type: String,
    pub lifecycle_status: String,
    pub version: i64,
    pub created_by: String,
}

/// A space as the API answers it.
#[derive(Debug, Clone)]
pub struct CreateSpaceResponse {
    pub id: String,
    pub tenant_id: String,
    pub owner_subject_type: String,
    pub owner_subject_id: String,
    pub display_name: String,
    pub space_type: String,
    pub lifecycle_status: String,
    pub version: i64,
}

/// The answer for a space: its identity, owner, name, type, status and
/// version.
pub fn map_space_response(space: DriveSpace) -> (r: CreateSpaceResponse)
    ensures
        r.id == space.id,
        r.tenant_id == space.tenant_id,
        r.owner_subject_type == space.owner_subject_type,
        r.owner_subject_id == space.owner_subject_id,
        r.display_name == space.display_name,
        r.space_type == space.space_type,
        r.lifecycle_status == space.lifecycle_status,
        r.version == space.version,
{
    CreateSpaceResponse {
        id: space.id,
        tenant_id: space.tenant_id,
        owner_subject_type: space.owner_subject_type,
        owner_subject_id: space.owner_subject_id,
        display_name: space.display_name,
        space_type: space.space_type,
        lifecycle_status: space.lifecycle_status,
        version: space.version,
    }
}

/// The error of a failed space insert: a unique clash means the tenant's
/// owner already has a space of that type.
pub fn space_insert_error(message: &str) -> (e: DriveServiceError)
    ensures
        is_unique_violation_message(message@) ==> is_conflict_error(
            Err::<(), DriveServiceError>(e),
            "space already exists for tenant/owner/type"@,
        ),
        !is_unique_violation_message(message@) ==> is_internal_error(
            Err::<(), DriveServiceError>(e),
            "insert dr_drive_space failed: "@ + message@,
        ),
{
    if is_unique_constraint_message(message) {
        DriveServiceError::Conflict(copy_str("space already exists for tenant/owner/type"))
    } else {
        DriveServiceError::Internal(concat_str("insert dr_drive_space failed: ", message))
    }
}

/// The presentation of a space after an update.
#[derive(Debug, Clone)]
pub struct SpaceUpdate {
    pub display_name: String,
    pub presentation_icon: Option<String>,
    pub presentation_color: Option<String>,
    pub description: Option<String>,
}

/// The given value, else the current one.
pub open spec fn or_current(given: Option<Seq<char>>, current: Option<Seq<char>>) -> Option<
    Seq<char>,
> {
    match given {
        Some(g) => Some(g),
        None => current,
    }
}

fn given_or_current(given: Option<&str>, current: &Option<String>) -> (r: Option<String>)
    ensures
        opt_view(r) == or_current(
            match given {
                Some(g) => Some(g@),
                None => None,
            },
            opt_view(*current),
        ),
{
    match given {
        Some(g) => Some(copy_str(g)),
        None => current.clone(),
    }
}

/// An update keeps every field it does not give.
pub fn merge_space_update(
    existing: &DriveSpace,
    display_name: Option<&str>,
    presentation_icon: Option<&str>,
    presentation_color: Option<&str>,
    description: Option<&str>,
) -> (r: SpaceUpdate)
    ensures
        r.display_name@ == match display_name {
            Some(d) => d@,
            None => existing.display_name@,
        },
        opt_view(r.presentation_icon) == or_current(
            match presentation_icon {
                Some(g) => Some(g@),
                None => None,
            },
            opt_view(existing.presentation_icon),
        ),
        opt_view(r.presentation_color) == or_current(
            match presentation_color {
                Some(g) => Some(g@),
                None => None,
            },
            opt_view(existing.presentation_color),
        ),
        opt_view(r.description) == or_current(
            match description {
                Some(g) => Some(g@),
                None => None,
            },
            opt_view(existing.description),
        ),
{
    let display = match display_name {
        Some(d) => copy_str(d),
        None => copy_str(existing.display_name.as_str()),
    };
    SpaceUpdate {
        display_name: display,
        presentation_icon: given_or_current(presentation_icon, &existing.presentation_icon),
        presentation_color: given_or_current(presentation_color, &existing.presentation_color),
        description: given_or_current(description, &existing.description),
    }
}

/// An update or delete that touched no active space did not find it.
pub fn space_write_outcome(affected: u64) -> (r: Result<(), DriveServiceError>)
    ensures
        affected == 0 ==> is_not_found_error(r, "space not found"@),
        affected > 0 ==> r is Ok,
{
    if affected == 0 {
        return Err(DriveServiceError::NotFound(copy_str("space not found")));
    }
    Ok(())
}

/// A request to give the creator of a team space its root folder and
/// ownership.
#[derive(Debug, Clone)]
pub struct BootstrapTeamSpaceCreatorAccessCommand {
    pub tenant_id: String,
    pub space_id: String,
    pub creator_user_id: String,
    pub display_name: String,
    pub root_folder_id: String,
}

/// A request to retire the contents of a space.
#[derive(Debug, Clone)]
pub struct RetireSpaceContentsCommand {
    pub tenant_id: String,
    pub space_id: String,
    pub operator_id: String,
}

/// A grant of a role on a node to a subject.
#[derive(Debug, Clone, PartialEq, Eq)]
pub struct DriveNodePermissionGrant {
    pub id: String,
    pub node_id: String,
    pub subject_type: String,
    pub subject_id: String,
    pub role: String,
}

/// Whether a subject holds a role on a node, and which.
#[derive(Debug, Clone, PartialEq, Eq)]
pub struct DriveNodePermissionCheck {
    pub allowed: bool,
    pub effective_role: Option<String>,
}

/// A page of grants.
#[derive(Debug, Clone, PartialEq, Eq)]
pub struct DriveNodePermissionList {
    pub items: Vec<DriveNodePermissionGrant>,
    pub next_page_token: Option<String>,
}

/// A request to grant a role on a node.
#[derive(Debug, Clone, PartialEq, Eq)]
pub struct GrantDriveNodePermissionCommand {
    pub tenant_id: String,
    pub node_id: String,
    pub subject_type: String,
    pub subject_id: String,
    pub role: String,
    pub operator_id: String,
}

/// A request to revoke a subject's role on a node.
#[derive(Debug, Clone, PartialEq, Eq)]
pub struct RevokeDriveNodePermissionCommand {
    pub tenant_id: String,
    pub node_id: String,
    pub subject_type: String,
    pub subject_id: String,
    pub operator_id: String,
}

/// A request for the grants on a node.
#[derive(Debug, Clone, PartialEq, Eq)]
pub struct ListDriveNodePermissionsCommand {
    pub tenant_id: String,
    pub node_id: String,
    pub page_size: Option<u32>,
}

/// A request to check a subject's role on a node.
#[derive(Debug, Clone, PartialEq, Eq)]
pub struct CheckDriveNodePermissionCommand {
    pub tenant_id: String,
    pub node_id: String,
    pub subject_type: String,
    pub subject_id: String,
    pub required_role: String,
}

/// The permission service over its store.
#[derive(Debug, Clone)]
pub struct SqlDrivePermissionService<S> {
    store: S,
}

impl<S> SqlDrivePermissionService<S> {
    /// The service over `store`.
    pub fn new(store: S) -> (r: Self)
        ensures
            r.store_spec() == store,
    {
        SqlDrivePermissionService { store }
    }

    /// The store of the service.
    pub closed spec fn store_spec(&self) -> S {
        self.store
    }

    /// The store of the service.
    pub fn store(&self) -> (r: &S)
        ensures
            *r == self.store_spec(),
    {
        &self.store
    }
}

/// The name of a new team space's root folder: the space's trimmed display
/// name, or "Shared space" when it is blank.
pub fn team_space_root_name(display_name: &str) -> (r: String)
    ensures
        trim(display_name@).len() == 0 ==> r@ == "Shared space"@,
        trim(display_name@).len() > 0 ==> r@ == trim(display_name@),
{
    let t = trim_str(display_name);
    if t.as_str().is_empty() {
        copy_str("Shared space")
    } else {
        t
    }
}

/// The grant that makes the creator of a team space the owner of its root
/// folder; the creator grants it.
pub fn creator_owner_grant(command: &BootstrapTeamSpaceCreatorAccessCommand, root_folder_id: String) -> (r:
    GrantDriveNodePermissionCommand)
    ensures
        r.tenant_id == command.tenant_id,
        r.node_id == root_folder_id,
        r.subject_type@ == "user"@,
        r.subject_id == command.creator_user_id,
        r.role@ == "owner"@,
        r.operator_id == command.creator_user_id,
{
    GrantDriveNodePermissionCommand {
        tenant_id: command.tenant_id.clone(),
        node_id: root_folder_id,
        subject_type: copy_str("user"),
        subject_id: command.creator_user_id.clone(),
        role: copy_str("owner"),
        operator_id: command.creator_user_id.clone(),
    }
}

/// What bootstrapping a team space does about its root folder.
#[derive(Debug, Clone)]
pub enum TeamSpaceRootPlan {
    /// The space has an active root folder: grant ownership of it.
    UseExisting(String),
    /// Create the root folder with this name and id, record it, then grant.
    Create { root_folder_id: String, root_name: String },
}

/// The root folder of a team space: the existing one, else a new one named
/// after the space.
pub fn plan_team_space_root(
    command: &BootstrapTeamSpaceCreatorAccessCommand,
    existing_root: Option<String>,
) -> (r: TeamSpaceRootPlan)
    ensures
        existing_root matches Some(id) ==> (r matches TeamSpaceRootPlan::UseExisting(x) && x == id),
        existing_root is None ==> (r matches TeamSpaceRootPlan::Create { root_folder_id, root_name }
            && root_folder_id == command.root_folder_id && root_name@ == if trim(
            command.display_name@,
        ).len() == 0 {
            "Shared space"@
        } else {
            trim(command.display_name@)
        }),
{
    match existing_root {
        Some(id) => TeamSpaceRootPlan::UseExisting(id),
        None => TeamSpaceRootPlan::Create {
            root_folder_id: command.root_folder_id.clone(),
            root_name: team_space_root_name(command.display_name.as_str()),
        },
    }
}

/// The storage a tenant uses.
#[derive(Debug, Clone, PartialEq, Eq)]
pub struct DriveQuotaSummary {
    pub tenant_id: String,
    pub total_bytes: i64,
    pub object_count: i64,
}

/// How the upload content policy is applied.
#[derive(Debug, Clone, Copy, PartialEq, Eq)]
pub enum UploadContentPolicyMode {
    Disabled,
    Audit,
    Enforce,
}

/// An upload whose content is checked against the policy.
#[derive(Debug, Clone)]
pub struct UploadContentPolicyContext {
    pub tenant_id: String,
    pub upload_item_id: String,
    pub content_type: String,
    pub content_length: i64,
    pub checksum_sha256_hex: String,
}

/// What the policy makes of an upload.
#[derive(Debug, Clone, Copy, PartialEq, Eq)]
pub enum ContentPolicyOutcome {
    /// The policy is off: nothing is checked or counted.
    Skipped,
    /// Checked and allowed.
    Allowed,
    /// A blocked type in audit mode: allowed, and reported.
    Audited,
}

/// Applies the upload content policy: off, it lets everything pass
/// unchecked; otherwise a blocked content type is refused when enforced
/// and reported when audited.
pub fn decide_upload_content_policy(
    mode: UploadContentPolicyMode,
    context: &UploadContentPolicyContext,
    content_type_blocked: bool,
) -> (r: Result<ContentPolicyOutcome, DriveServiceError>)
    ensures
        mode == UploadContentPolicyMode::Disabled ==> r == Ok::<
            ContentPolicyOutcome,
            DriveServiceError,
        >(ContentPolicyOutcome::Skipped),
        mode != UploadContentPolicyMode::Disabled && !content_type_blocked ==> r == Ok::<
            ContentPolicyOutcome,
            DriveServiceError,
        >(ContentPolicyOutcome::Allowed),
        mode == UploadContentPolicyMode::Enforce && content_type_blocked ==> is_validation_error(
            r,
            "upload blocked by content policy for content type "@ + context.content_type@,
        ),
        mode == UploadContentPolicyMode::Audit && content_type_blocked ==> r == Ok::<
            ContentPolicyOutcome,
            DriveServiceError,
        >(ContentPolicyOutcome::Audited),
{
    match mode {
        UploadContentPolicyMode::Disabled => Ok(ContentPolicyOutcome::Skipped),
        _ => {
            if !content_type_blocked {
                return Ok(ContentPolicyOutcome::Allowed);
            }
            match mode {
                UploadContentPolicyMode::Enforce => Err(
                    DriveServiceError::Validation(
                        concat_str(
                            "upload blocked by content policy for content type ",
                            context.content_type.as_str(),
                        ),
                    ),
                ),
                _ => Ok(ContentPolicyOutcome::Audited),
            }
        },
    }
}

} // verus!

//! Access control: the role lattice, the capabilities a role gives on a node,
//! and the SQL predicate that finds reader access inherited from ancestors.
use vstd::prelude::*;
use crate::text::{concat_str, copy_str, text_eq, opt_view};
use crate::errors::{ProblemDetail, problem_is, permission_denied_problem, STATUS_FORBIDDEN};

verus! {

/// The rank of a role: reader < commenter < writer < owner; 0 for anything else.
pub open spec fn role_rank(role: Seq<char>) -> int {
    if role == "owner"@ {
        4
    } else if role == "writer"@ {
        3
    } else if role == "commenter"@ {
        2
    } else if role == "reader"@ {
        1
    } else {
        0
    }
}

/// The role rank of a role text.
pub fn role_rank_of(role: &str) -> (r: u8)
    ensures
        r == role_rank(role@),
{
    if text_eq(role, "owner") {
        4
    } else if text_eq(role, "writer") {
        3
    } else if text_eq(role, "commenter") {
        2
    } else if text_eq(role, "reader") {
        1
    } else {
        0
    }
}

/// What a subject may do with a node.
pub struct Capabilities {
    pub can_read: bool,
    pub can_comment: bool,
    pub can_write: bool,
    pub can_download: bool,
    pub can_copy: bool,
    pub can_move: bool,
    pub can_trash: bool,
    pub can_restore: bool,
    pub can_delete: bool,
    pub can_share: bool,
    pub can_manage_permissions: bool,
    pub can_manage_versions: bool,
}

/// The capabilities of a role of rank `rank` on a node, trashed or not.
/// A trashed node can only be read, restored by writers and deleted by owners.
pub open spec fn capabilities_for(rank: int, trashed: bool) -> Capabilities {
    let can_read = rank >= 1;
    let can_comment = rank >= 2;
    let can_write = rank >= 3;
    let owner = rank >= 4;
    if trashed {
        Capabilities {
            can_read,
            can_comment: false,
            can_write: false,
            can_download: false,
            can_copy: false,
            can_move: false,
            can_trash: false,
            can_restore: can_write,
            can_delete: owner,
            can_share: false,
            can_manage_permissions: false,
            can_manage_versions: false,
        }
    } else {
        Capabilities {
            can_read,
            can_comment,
            can_write,
            can_download: can_read,
            can_copy: can_read,
            can_move: can_write,
            can_trash: can_write,
            can_restore: can_write,
            can_delete: owner,
            can_share: can_write,
            can_manage_permissions: owner,
            can_manage_versions: can_write,
        }
    }
}

/// Every capability of `a` is one of `b`.
pub open spec fn caps_within(a: Capabilities, b: Capabilities) -> bool {
    &&& a.can_read ==> b.can_read
    &&& a.can_comment ==> b.can_comment
    &&& a.can_write ==> b.can_write
    &&& a.can_download ==> b.can_download
    &&& a.can_copy ==> b.can_copy
    &&& a.can_move ==> b.can_move
    &&& a.can_trash ==> b.can_trash
    &&& a.can_restore ==> b.can_restore
    &&& a.can_delete ==> b.can_delete
    &&& a.can_share ==> b.can_share
    &&& a.can_manage_permissions ==> b.can_manage_permissions
    &&& a.can_manage_versions ==> b.can_manage_versions
}

/// None of the capabilities.
pub open spec fn no_capability(c: Capabilities) -> bool {
    !c.can_read && !c.can_comment && !c.can_write && !c.can_download && !c.can_copy && !c.can_move
        && !c.can_trash && !c.can_restore && !c.can_delete && !c.can_share
        && !c.can_manage_permissions && !c.can_manage_versions
}

/// A higher role never has fewer capabilities on the same node.
pub proof fn capabilities_grow_with_role(role_a: Seq<char>, role_b: Seq<char>, trashed: bool)
    requires
        role_rank(role_a) <= role_rank(role_b),
    ensures
        caps_within(
            capabilities_for(role_rank(role_a), trashed),
            capabilities_for(role_rank(role_b), trashed),
        ),
{
}

/// Trashing a node never adds a capability.
pub proof fn trashed_node_has_no_more_capabilities(role: Seq<char>)
    ensures
        caps_within(capabilities_for(role_rank(role), true), capabilities_for(role_rank(role), false)),
{
}

/// Only owners may delete a node or manage its permissions; a role outside
/// the lattice may do nothing.
pub proof fn capabilities_of_owners_and_strangers(role: Seq<char>, trashed: bool)
    ensures
        capabilities_for(role_rank(role), trashed).can_delete <==> role == "owner"@,
        capabilities_for(role_rank(role), trashed).can_manage_permissions ==> role == "owner"@,
        role_rank(role) == 0 ==> no_capability(capabilities_for(role_rank(role), trashed)),
{
    reveal_strlit("owner");
    reveal_strlit("writer");
    reveal_strlit("commenter");
    reveal_strlit("reader");
}

/// What a capability query was asked about, and the access found.
pub struct NodeCapabilitiesInput {
    pub tenant_id: String,
    pub node_id: String,
    pub subject_type: String,
    pub subject_id: String,
    pub role: String,
    pub source: String,
    pub permission_id: Option<String>,
    pub inherited: bool,
    pub inherited_from_node_id: Option<String>,
    pub node_lifecycle_status: String,
}

/// The answer to a capability query.
pub struct NodeCapabilitiesResponse {
    pub tenant_id: String,
    pub node_id: String,
    pub subject_type: String,
    pub subject_id: String,
    pub role: String,
    pub source: String,
    pub permission_id: Option<String>,
    pub inherited: bool,
    pub inherited_from_node_id: Option<String>,
    pub can_read: bool,
    pub can_comment: bool,
    pub can_write: bool,
    pub can_download: bool,
    pub can_copy: bool,
    pub can_move: bool,
    pub can_trash: bool,
    pub can_restore: bool,
    pub can_delete: bool,
    pub can_share: bool,
    pub can_manage_permissions: bool,
    pub can_manage_versions: bool,
}

/// The capabilities a response reports.
pub open spec fn response_caps(r: NodeCapabilitiesResponse) -> Capabilities {
    Capabilities {
        can_read: r.can_read,
        can_comment: r.can_comment,
        can_write: r.can_write,
        can_download: r.can_download,
        can_copy: r.can_copy,
        can_move: r.can_move,
        can_trash: r.can_trash,
        can_restore: r.can_restore,
        can_delete: r.can_delete,
        can_share: r.can_share,
        can_manage_permissions: r.can_manage_permissions,
        can_manage_versions: r.can_manage_versions,
    }
}

/// Answers a capability query: the input echoed, with the capabilities of
/// its role on a node in its lifecycle state.
pub fn build_node_capabilities_response(input: NodeCapabilitiesInput) -> (r:
    NodeCapabilitiesResponse)
    ensures
        response_caps(r) == capabilities_for(
            role_rank(input.role@),
            input.node_lifecycle_status@ == "trashed"@,
        ),
        r.tenant_id == input.tenant_id,
        r.node_id == input.node_id,
        r.subject_type == input.subject_type,
        r.subject_id == input.subject_id,
        r.role == input.role,
        r.source == input.source,
        r.permission_id == input.permission_id,
        r.inherited == input.inherited,
        r.inherited_from_node_id == input.inherited_from_node_id,
{
    let rank = role_rank_of(input.role.as_str());
    let can_read = rank >= 1;
    let can_comment = rank >= 2;
    let can_write = rank >= 3;
    let can_delete = rank >= 4;
    let can_manage_permissions = rank >= 4;
    let can_manage_versions = rank >= 3;
    if text_eq(input.node_lifecycle_status.as_str(), "trashed") {
        return NodeCapabilitiesResponse {
            tenant_id: input.tenant_id,
            node_id: input.node_id,
            subject_type: input.subject_type,
            subject_id: input.subject_id,
            role: input.role,
            source: input.source,
            permission_id: input.permission_id,
            inherited: input.inherited,
            inherited_from_node_id: input.inherited_from_node_id,
            can_read,
            can_comment: false,
            can_write: false,
            can_download: false,
            can_copy: false,
            can_move: false,
            can_trash: false,
            can_restore: can_write,
            can_delete,
            can_share: false,
            can_manage_permissions: false,
            can_manage_versions: false,
        };
    }
    NodeCapabilitiesResponse {
        tenant_id: input.tenant_id,
        node_id: input.node_id,
        subject_type: input.subject_type,
        subject_id: input.subject_id,
        role: input.role,
        source: input.source,
        permission_id: input.permission_id,
        inherited: input.inherited,
        inherited_from_node_id: input.inherited_from_node_id,
        can_read,
        can_comment,
        can_write,
        can_download: can_read,
        can_copy: can_read,
        can_move: can_write,
        can_trash: can_write,
        can_restore: can_write,
        can_delete,
        can_share: can_write,
        can_manage_permissions,
        can_manage_versions,
    }
}

/// The quoted, comma-separated roles that satisfy a reader requirement:
/// A grant found on the node or one of its ancestors.
#[derive(Debug, Clone)]
pub struct FoundPermission {
    pub id: String,
    pub node_id: String,
    pub role: String,
}

/// Where a subject's access to a node comes from.
#[derive(Debug, Clone)]
pub enum CapabilitySource {
    /// The subject owns the node's space.
    SpaceOwner,
    /// The nearest grant on the node's path, the node first.
    Permission(FoundPermission),
    /// No access.
    NoAccess,
}

/// Whether the subject is the space's owner.
pub fn is_space_owner_subject(
    owner_subject_type: &str,
    owner_subject_id: &str,
    subject_type: &str,
    subject_id: &str,
) -> (r: bool)
    ensures
        r == (owner_subject_type@ == subject_type@ && owner_subject_id@ == subject_id@),
{
    text_eq(owner_subject_type, subject_type) && text_eq(owner_subject_id, subject_id)
}

/// What a capability query answers from: the space's owner holds the
/// owner role; a grant gives its role, inherited when it is on an ancestor;
/// otherwise the subject has the role `none`.
pub fn capabilities_input(
    tenant_id: String,
    node_id: String,
    subject_type: String,
    subject_id: String,
    source: CapabilitySource,
    node_lifecycle_status: String,
) -> (r: NodeCapabilitiesInput)
    ensures
        r.tenant_id == tenant_id,
        r.node_id == node_id,
        r.subject_type == subject_type,
        r.subject_id == subject_id,
        r.node_lifecycle_status == node_lifecycle_status,
        source is SpaceOwner ==> r.role@ == "owner"@ && r.source@ == "space_owner"@
            && r.permission_id is None && !r.inherited && r.inherited_from_node_id is None,
        source is NoAccess ==> r.role@ == "none"@ && r.source@ == "none"@ && r.permission_id is None
            && !r.inherited && r.inherited_from_node_id is None,
        source matches CapabilitySource::Permission(p) ==> (r.role == p.role && r.source@
            == "permission"@ && r.permission_id == Some(p.id) && r.inherited == (p.node_id@
            != node_id@) && (r.inherited ==> r.inherited_from_node_id == Some(p.node_id)) && (
        !r.inherited ==> r.inherited_from_node_id is None)),
{
    match source {
        CapabilitySource::SpaceOwner => NodeCapabilitiesInput {
            tenant_id,
            node_id,
            subject_type,
            subject_id,
            role: copy_str("owner"),
            source: copy_str("space_owner"),
            permission_id: None,
            inherited: false,
            inherited_from_node_id: None,
            node_lifecycle_status,
        },
        CapabilitySource::Permission(p) => {
            let inherited = !text_eq(p.node_id.as_str(), node_id.as_str());
            NodeCapabilitiesInput {
                tenant_id,
                node_id,
                subject_type,
                subject_id,
                role: p.role,
                source: copy_str("permission"),
                permission_id: Some(p.id),
                inherited,
                inherited_from_node_id: if inherited {
                    Some(p.node_id)
                } else {
                    None
                },
                node_lifecycle_status,
            }
        },
        CapabilitySource::NoAccess => NodeCapabilitiesInput {
            tenant_id,
            node_id,
            subject_type,
            subject_id,
            role: copy_str("none"),
            source: copy_str("none"),
            permission_id: None,
            inherited: false,
            inherited_from_node_id: None,
            node_lifecycle_status,
        },
    }
}

/// owner, writer, commenter and reader.
pub fn reader_roles_sql() -> (r: String)
    ensures
        r@ == "'owner'"@ + ", "@ + "'writer'"@ + ", "@ + "'commenter'"@ + ", "@ + "'reader'"@,
{
    let a = concat_str("'owner'", ", ");
    let b = concat_str(a.as_str(), "'writer'");
    let c = concat_str(b.as_str(), ", ");
    let d = concat_str(c.as_str(), "'commenter'");
    let e = concat_str(d.as_str(), ", ");
    concat_str(e.as_str(), "'reader'")
}

pub open spec fn ancestors_head() -> Seq<char> {
    "WITH RECURSIVE node_ancestors(id) AS (\n            SELECT "@
}

pub open spec fn ancestors_middle() -> Seq<char> {
    ".id\n            UNION ALL\n            SELECT current_node.parent_node_id\n            FROM dr_drive_node current_node\n            INNER JOIN node_ancestors ancestor ON current_node.id = ancestor.id\n            WHERE current_node.tenant_id = "@
}

pub open spec fn ancestors_tail() -> Seq<char> {
    ".tenant_id\n              AND current_node.parent_node_id IS NOT NULL\n        )"@
}

/// The recursive common table expression of the ancestors of the node
/// row `node_alias`, the node itself included.
pub open spec fn node_ancestors_cte_text(alias: Seq<char>) -> Seq<char> {
    ancestors_head() + alias + ancestors_middle() + alias + ancestors_tail()
}

/// Builds the ancestor CTE for the node row `node_alias`.
pub fn node_ancestors_cte(node_alias: &str) -> (r: String)
    ensures
        r@ == node_ancestors_cte_text(node_alias@),
{
    let a = concat_str("WITH RECURSIVE node_ancestors(id) AS (\n            SELECT ", node_alias);
    let b = concat_str(
        a.as_str(),
        ".id\n            UNION ALL\n            SELECT current_node.parent_node_id\n            FROM dr_drive_node current_node\n            INNER JOIN node_ancestors ancestor ON current_node.id = ancestor.id\n            WHERE current_node.tenant_id = ",
    );
    let c = concat_str(b.as_str(), node_alias);
    concat_str(
        c.as_str(),
        ".tenant_id\n              AND current_node.parent_node_id IS NOT NULL\n        )",
    )
}

pub open spec fn exists_head() -> Seq<char> {
    "EXISTS (\n            "@
}

pub open spec fn exists_after_cte() -> Seq<char> {
    "\n            SELECT 1\n            FROM dr_drive_node_permission permission_row\n            INNER JOIN node_ancestors ancestor ON permission_row.node_id = ancestor.id\n            WHERE permission_row.tenant_id = "@
}

pub open spec fn exists_subject_type() -> Seq<char> {
    ".tenant_id\n              AND permission_row.subject_type = "@
}

pub open spec fn exists_subject_id() -> Seq<char> {
    "\n              AND permission_row.subject_id = "@
}

pub open spec fn exists_roles() -> Seq<char> {
    "\n              AND permission_row.lifecycle_status = 'active'\n              AND permission_row.role IN ("@
}

pub open spec fn exists_tail() -> Seq<char> {
    ")\n            LIMIT 1\n        )"@
}

/// The SQL predicate: an active grant of a reader-satisfying role to the
/// subject bound at `st`/`sid` exists on the node `alias` or an ancestor.
pub open spec fn reader_inherited_permission_exists_text(
    alias: Seq<char>,
    st: Seq<char>,
    sid: Seq<char>,
) -> Seq<char> {
    exists_head() + node_ancestors_cte_text(alias) + exists_after_cte() + alias
        + exists_subject_type() + st + exists_subject_id() + sid + exists_roles() + (
    "'owner'"@ + ", "@ + "'writer'"@ + ", "@ + "'commenter'"@ + ", "@ + "'reader'"@) + exists_tail()
}

/// Builds the reader-access predicate for the node row `node_alias` and the
/// subject type and id placeholders.
pub fn reader_inherited_permission_exists_sql(
    node_alias: &str,
    subject_type_bind: &str,
    subject_id_bind: &str,
) -> (r: String)
    ensures
        r@ == reader_inherited_permission_exists_text(
            node_alias@,
            subject_type_bind@,
            subject_id_bind@,
        ),
{
    let roles = reader_roles_sql();
    let ancestors = node_ancestors_cte(node_alias);
    let s1 = concat_str("EXISTS (\n            ", ancestors.as_str());
    let s2 = concat_str(
        s1.as_str(),
        "\n            SELECT 1\n            FROM dr_drive_node_permission permission_row\n            INNER JOIN node_ancestors ancestor ON permission_row.node_id = ancestor.id\n            WHERE permission_row.tenant_id = ",
    );
    let s3 = concat_str(s2.as_str(), node_alias);
    let s4 = concat_str(s3.as_str(), ".tenant_id\n              AND permission_row.subject_type = ");
    let s5 = concat_str(s4.as_str(), subject_type_bind);
    let s6 = concat_str(s5.as_str(), "\n              AND permission_row.subject_id = ");
    let s7 = concat_str(s6.as_str(), subject_id_bind);
    let s8 = concat_str(
        s7.as_str(),
        "\n              AND permission_row.lifecycle_status = 'active'\n              AND permission_row.role IN (",
    );
    let s9 = concat_str(s8.as_str(), roles.as_str());
    let r = concat_str(s9.as_str(), ")\n            LIMIT 1\n        )");
    assert(r@ =~= reader_inherited_permission_exists_text(
        node_alias@,
        subject_type_bind@,
        subject_id_bind@,
    ));
    r
}

/// `p` is the answer to a subject without the access a request needs.
pub open spec fn is_permission_denied(p: ProblemDetail) -> bool {
    problem_is(
        p,
        STATUS_FORBIDDEN,
        "permission denied"@,
        "subject does not have required access to the drive node"@,
        "drive.permission_denied"@,
    )
}

/// What the check that a subject may list a space (under a parent, if
/// given) does next.
#[derive(Debug, Clone)]
pub enum ListAccessStep {
    /// The subject owns the space: listing is allowed.
    Allowed,
    /// The subject must read this node: the parent.
    CheckReader { node_id: String },
    /// The subject must read the space's permission anchor node, which is
    /// looked up first.
    ResolveAnchor,
}

/// The first step of the list-access check: an owner of the space may list
/// it; anyone else must read the parent, or the space's anchor node when no
/// parent is named.
pub fn list_access_step(is_space_owner: bool, parent_node_id: &Option<String>) -> (r: ListAccessStep)
    ensures
        is_space_owner ==> r is Allowed,
        !is_space_owner && parent_node_id is Some ==> (r matches ListAccessStep::CheckReader { node_id }
            && Some(node_id@) == opt_view(*parent_node_id)),
        !is_space_owner && parent_node_id is None ==> r is ResolveAnchor,
{
    if is_space_owner {
        return ListAccessStep::Allowed;
    }
    match parent_node_id {
        Some(p) => ListAccessStep::CheckReader { node_id: p.clone() },
        None => ListAccessStep::ResolveAnchor,
    }
}

/// The answer to a role check: allowed, or refused with 403.
pub fn role_check_outcome(allowed: bool) -> (r: Result<(), ProblemDetail>)
    ensures
        allowed ==> r is Ok,
        !allowed ==> (r matches Err(p) && is_permission_denied(p)),
{
    if allowed {
        Ok(())
    } else {
        Err(permission_denied_problem())
    }
}

/// A listing of a space's trash is refused, with 403, exactly when the
/// subject neither owns the space nor passes the reader check of the parent
/// (or of the space's anchor node).
pub proof fn trash_listing_refused_only_without_access(
    is_space_owner: bool,
    parent_node_id: Option<String>,
    step: ListAccessStep,
    reader_allowed: bool,
    outcome: Result<(), ProblemDetail>,
)
    requires
        is_space_owner ==> step is Allowed,
        !is_space_owner && parent_node_id is Some ==> step is CheckReader,
        !is_space_owner && parent_node_id is None ==> step is ResolveAnchor,
        step is Allowed ==> outcome is Ok,
        !(step is Allowed) ==> (reader_allowed ==> outcome is Ok) && (!reader_allowed ==> (
        outcome matches Err(p) && is_permission_denied(p))),
    ensures
        outcome is Err <==> (!is_space_owner && !reader_allowed),
        outcome matches Err(p) ==> is_permission_denied(p),
{
}

/// What each role may do, role by role: a reader reads, downloads and
/// copies; a commenter also comments; a writer also writes, moves, trashes,
/// restores, shares and manages versions; an owner also deletes and manages
/// permissions; any other role may do nothing. On a trashed node a role
/// keeps only reading, restoring (writers) and deleting (owners).
pub proof fn capabilities_of_each_role(input: NodeCapabilitiesInput, r: NodeCapabilitiesResponse)
    requires
        response_caps(r) == capabilities_for(
            role_rank(input.role@),
            input.node_lifecycle_status@ == "trashed"@,
        ),
    ensures
        ({
            let role = input.role@;
            let reads = role == "reader"@ || role == "commenter"@ || role == "writer"@ || role == "owner"@;
            let comments = role == "commenter"@ || role == "writer"@ || role == "owner"@;
            let writes = role == "writer"@ || role == "owner"@;
            let owns = role == "owner"@;
            if input.node_lifecycle_status@ == "trashed"@ {
                &&& r.can_read == reads
                &&& r.can_restore == writes
                &&& r.can_delete == owns
                &&& !r.can_comment && !r.can_write && !r.can_download && !r.can_copy
                &&& !r.can_move && !r.can_trash && !r.can_share
                &&& !r.can_manage_permissions && !r.can_manage_versions
            } else {
                &&& r.can_read == reads
                &&& r.can_comment == comments
                &&& r.can_write == writes
                &&& r.can_download == reads
                &&& r.can_copy == reads
                &&& r.can_move == writes
                &&& r.can_trash == writes
                &&& r.can_restore == writes
                &&& r.can_delete == owns
                &&& r.can_share == writes
                &&& r.can_manage_permissions == owns
                &&& r.can_manage_versions == writes
            }
        }),
{
    reveal_strlit("reader");
    reveal_strlit("commenter");
    reveal_strlit("writer");
    reveal_strlit("owner");
    assert("reader"@.len() == 6 && "reader"@[0] == 'r');
    assert("commenter"@.len() == 9);
    assert("writer"@.len() == 6 && "writer"@[0] == 'w');
    assert("owner"@.len() == 5);
}

} // verus!

//! Node permissions: the effective grants of a node, nearest first and one
//! per subject, and the answers to creating, updating and deleting grants.
use vstd::prelude::*;
use crate::errors::{
    ProblemDetail, problem_is, internal_problem, is_unique_constraint_message,
    is_unique_violation_message, STATUS_INTERNAL_SERVER_ERROR,
};
use crate::text::{trim, trim_str, copy_str, concat_str, text_eq, opt_view};
use crate::uploads::{conflict_problem, is_conflict_problem};
use crate::validators::{PageRequest, fails_with, validate_permission_role, is_permission_role};
use crate::nodes::normalized_id;

verus! {

/// A grant as stored.
#[derive(Debug, Clone)]
pub struct PermissionResponse {
    pub id: String,
    pub tenant_id: String,
    pub node_id: String,
    pub subject_type: String,
    pub subject_id: String,
    pub role: String,
    pub inherited: bool,
    pub lifecycle_status: String,
    pub version: i64,
}

/// A grant in effect on a node, held there or on an ancestor.
#[derive(Debug, Clone)]
pub struct EffectivePermissionResponse {
    pub id: String,
    pub tenant_id: String,
    pub target_node_id: String,
    pub node_id: String,
    pub subject_type: String,
    pub subject_id: String,
    pub role: String,
    pub inherited: bool,
    pub inherited_from_node_id: Option<String>,
    pub lifecycle_status: String,
    pub version: i64,
}

/// The two grants are for the same subject.
pub open spec fn same_principal(a: PermissionResponse, b: PermissionResponse) -> bool {
    a.subject_type@ == b.subject_type@ && a.subject_id@ == b.subject_id@
}

/// Some grant of `s` is for the subject of `p`.
pub open spec fn has_principal(s: Seq<PermissionResponse>, p: PermissionResponse) -> bool {
    exists|i: int| 0 <= i < s.len() && same_principal(#[trigger] s[i], p)
}

/// The first grant of each subject, in order.
pub open spec fn first_per_principal(s: Seq<PermissionResponse>) -> Seq<PermissionResponse>
    decreases s.len(),
{
    if s.len() == 0 {
        Seq::<PermissionResponse>::empty()
    } else {
        let d = first_per_principal(s.drop_last());
        if has_principal(d, s.last()) {
            d
        } else {
            d.push(s.last())
        }
    }
}

/// The effective grant of `p` on the target node.
pub open spec fn effective_of(
    e: EffectivePermissionResponse,
    p: PermissionResponse,
    target: Seq<char>,
) -> bool {
    &&& e.id == p.id
    &&& e.tenant_id == p.tenant_id
    &&& e.target_node_id@ == target
    &&& e.node_id == p.node_id
    &&& e.subject_type == p.subject_type
    &&& e.subject_id == p.subject_id
    &&& e.role == p.role
    &&& e.inherited == (p.node_id@ != target)
    &&& (e.inherited ==> e.inherited_from_node_id == Some(p.node_id))
    &&& (!e.inherited ==> e.inherited_from_node_id is None)
    &&& e.lifecycle_status == p.lifecycle_status
    &&& e.version == p.version
}

fn same_principal_exec(a: &PermissionResponse, b: &PermissionResponse) -> (r: bool)
    ensures
        r == same_principal(*a, *b),
{
    text_eq(a.subject_type.as_str(), b.subject_type.as_str()) && text_eq(
        a.subject_id.as_str(),
        b.subject_id.as_str(),
    )
}

/// The grants in effect on a node, from the grants along its path (the
/// node's own first, then each ancestor's): each subject's nearest grant.
pub fn effective_permissions(target_node_id: &str, path_grants: Vec<PermissionResponse>) -> (r: Vec<
    EffectivePermissionResponse,
>)
    ensures
        r@.len() == first_per_principal(path_grants@).len(),
        forall|i: int|
            0 <= i < r@.len() ==> effective_of(
                #[trigger] r@[i],
                first_per_principal(path_grants@)[i],
                target_node_id@,
            ),
{
    let mut kept: Vec<usize> = Vec::new();
    let mut out: Vec<EffectivePermissionResponse> = Vec::new();
    let mut k: usize = 0;
    while k < path_grants.len()
        invariant
            k <= path_grants@.len(),
            forall|i: int| 0 <= i < kept@.len() ==> kept@[i] < k,
            kept@.map_values(|x: usize| path_grants@[x as int]) == first_per_principal(
                path_grants@.take(k as int),
            ),
            out@.len() == kept@.len(),
            forall|i: int|
                0 <= i < out@.len() ==> effective_of(
                    #[trigger] out@[i],
                    path_grants@[kept@[i] as int],
                    target_node_id@,
                ),
        decreases path_grants.len() - k,
    {
        let ghost d = kept@.map_values(|x: usize| path_grants@[x as int]);
        let p = &path_grants[k];
        assert(path_grants@.take(k + 1).drop_last() =~= path_grants@.take(k as int));
        assert(path_grants@.take(k + 1).last() == path_grants@[k as int]);
        let mut seen = false;
        let mut j: usize = 0;
        while j < kept.len()
            invariant
                j <= kept@.len(),
                forall|i: int| 0 <= i < kept@.len() ==> kept@[i] < path_grants@.len(),
                d == kept@.map_values(|x: usize| path_grants@[x as int]),
                seen <==> exists|i: int| 0 <= i < j && same_principal(#[trigger] d[i], *p),
            decreases kept.len() - j,
        {
            assert(d[j as int] == path_grants@[kept@[j as int] as int]);
            if same_principal_exec(&path_grants[kept[j]], p) {
                seen = true;
            }
            j = j + 1;
        }
        assert(seen == has_principal(d, path_grants@[k as int]));
        if !seen {
            let inherited = !text_eq(p.node_id.as_str(), target_node_id);
            let e = EffectivePermissionResponse {
                id: p.id.clone(),
                tenant_id: p.tenant_id.clone(),
                target_node_id: copy_str(target_node_id),
                node_id: p.node_id.clone(),
                subject_type: p.subject_type.clone(),
                subject_id: p.subject_id.clone(),
                role: p.role.clone(),
                inherited,
                inherited_from_node_id: if inherited {
                    Some(p.node_id.clone())
                } else {
                    None
                },
                lifecycle_status: p.lifecycle_status.clone(),
                version: p.version,
            };
            out.push(e);
            kept.push(k);
            assert(kept@.map_values(|x: usize| path_grants@[x as int]) =~= d.push(
                path_grants@[k as int],
            ));
        }
        k = k + 1;
    }
    assert(path_grants@.take(path_grants@.len() as int) =~= path_grants@);
    assert forall|i: int| 0 <= i < out@.len() implies effective_of(
        #[trigger] out@[i],
        first_per_principal(path_grants@)[i],
        target_node_id@,
    ) by {
        assert(kept@.map_values(|x: usize| path_grants@[x as int])[i] == path_grants@[kept@[i] as int]);
    }
    out
}

/// No subject has two effective grants.
pub proof fn effective_grants_are_one_per_subject(s: Seq<PermissionResponse>)
    ensures
        forall|i: int, j: int|
            0 <= i < j < first_per_principal(s).len() ==> !same_principal(
                first_per_principal(s)[i],
                first_per_principal(s)[j],
            ),
    decreases s.len(),
{
    if s.len() > 0 {
        effective_grants_are_one_per_subject(s.drop_last());
        let d = first_per_principal(s.drop_last());
        if !has_principal(d, s.last()) {
            assert forall|i: int, j: int|
                0 <= i < j < d.push(s.last()).len() implies !same_principal(
                d.push(s.last())[i],
                d.push(s.last())[j],
            ) by {
                if j == d.len() {
                    if same_principal(d[i], s.last()) {
                        assert(has_principal(d, s.last()));
                    }
                }
            }
        }
    }
}

/// Every subject with a grant on the path has an effective grant.
pub proof fn every_granted_subject_is_effective(s: Seq<PermissionResponse>, k: int)
    requires
        0 <= k < s.len(),
    ensures
        has_principal(first_per_principal(s), s[k]),
    decreases s.len(),
{
    let d = first_per_principal(s.drop_last());
    if k == s.len() - 1 {
        if !has_principal(d, s.last()) {
            assert(same_principal(d.push(s.last())[d.len() as int], s[k]));
        }
    } else {
        every_granted_subject_is_effective(s.drop_last(), k);
        assert(s.drop_last()[k] == s[k]);
        let i = choose|i: int| 0 <= i < d.len() && same_principal(#[trigger] d[i], s[k]);
        if !has_principal(d, s.last()) {
            assert(d.push(s.last())[i] == d[i]);
        }
    }
}

/// The answer to a failed grant insert: a unique clash means the subject
/// already has a grant on the node.
pub fn permission_insert_error_problem(message: &str) -> (p: ProblemDetail)
    ensures
        is_unique_violation_message(message@) ==> is_conflict_problem(
            Err::<(), ProblemDetail>(p),
            "permission already exists for node subject"@,
        ),
        !is_unique_violation_message(message@) ==> problem_is(
            p,
            STATUS_INTERNAL_SERVER_ERROR,
            "internal error"@,
            "insert dr_drive_node_permission failed: "@ + message@,
            "drive.internal_error"@,
        ),
{
    if is_unique_constraint_message(message) {
        conflict_problem(copy_str("permission already exists for node subject"))
    } else {
        internal_problem(concat_str("insert dr_drive_node_permission failed: ", message))
    }
}

/// The role after an update: the requested one, else the current one; it
/// must be a known role.
pub fn updated_permission_role(requested: Option<String>, current_role: &str) -> (r: Result<
    String,
    ProblemDetail,
>)
    ensures
        ({
            let role = match normalized_id(opt_view(requested)) {
                Some(x) => x,
                None => current_role@,
            };
            if is_permission_role(role) {
                r matches Ok(x) && x@ == role
            } else {
                fails_with(r, "permission role is invalid"@)
            }
        }),
{
    let role = match requested {
        Some(x) => {
            let t = trim_str(x.as_str());
            if t.as_str().is_empty() {
                copy_str(current_role)
            } else {
                t
            }
        },
        None => copy_str(current_role),
    };
    match validate_permission_role(role.as_str()) {
        Ok(()) => Ok(role),
        Err(p) => Err(p),
    }
}

} // verus!

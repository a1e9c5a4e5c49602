//! The node hierarchy: where a node may be placed, renamed or moved, and
//! the walk that keeps a node from being moved under itself.
use vstd::prelude::*;
use crate::errors::{ProblemDetail, problem_is, not_found_problem, validation_problem, STATUS_NOT_FOUND};
use crate::nodes::{DriveNodeResponse, normalized_id};
use crate::text::{trim, trim_str, copy_str, text_eq, opt_view, views, contains_text_in};
use crate::uploads::{conflict_problem, is_conflict_problem};
use crate::validators::fails_with;

verus! {

/// `r` is the 404 problem with this detail.
pub open spec fn is_not_found_problem<T>(r: Result<T, ProblemDetail>, detail: Seq<char>) -> bool {
    r matches Err(p) && problem_is(p, STATUS_NOT_FOUND, "not found"@, detail, "drive.not_found"@)
}

/// A target parent must be an active folder of the space; `node_type` is
/// the type of the active node found under its id, if any.
pub fn check_target_parent(target_parent_node_id: Option<&str>, node_type: Option<String>) -> (r:
    Result<(), ProblemDetail>)
    ensures
        target_parent_node_id is None ==> r is Ok,
        target_parent_node_id is Some && node_type is None ==> is_not_found_problem(
            r,
            "target parent node not found"@,
        ),
        target_parent_node_id is Some && (node_type matches Some(t) && t@ != "folder"@) ==> fails_with(
            r,
            "targetParentNodeId must reference an active folder"@,
        ),
        target_parent_node_id is Some && (node_type matches Some(t) && t@ == "folder"@) ==> r is Ok,
{
    if target_parent_node_id.is_none() {
        return Ok(());
    }
    match node_type {
        None => Err(not_found_problem(copy_str("target parent node not found"))),
        Some(t) => if text_eq(t.as_str(), "folder") {
            Ok(())
        } else {
            Err(validation_problem(copy_str("targetParentNodeId must reference an active folder")))
        },
    }
}

/// Whether placing a node needs the space's type: only a non-folder at the
/// root of a space does.
pub fn git_root_rule_applies(parent_node_id: Option<&str>, node_type: &str) -> (r: bool)
    ensures
        r == (parent_node_id is None && node_type@ != "folder"@),
{
    parent_node_id.is_none() && !text_eq(node_type, "folder")
}

/// The root of a git repository space holds only directories; `space_type`
/// is the type of the active space, if any.
pub fn check_git_root_space(space_type: Option<String>) -> (r: Result<(), ProblemDetail>)
    ensures
        space_type is None ==> is_not_found_problem(r, "space not found"@),
        (space_type matches Some(t) && t@ == "git_repository"@) ==> fails_with(
            r,
            "git repository space root accepts only repository directories"@,
        ),
        (space_type matches Some(t) && t@ != "git_repository"@) ==> r is Ok,
{
    match space_type {
        None => Err(not_found_problem(copy_str("space not found"))),
        Some(t) => if text_eq(t.as_str(), "git_repository") {
            Err(
                validation_problem(
                    copy_str("git repository space root accepts only repository directories"),
                ),
            )
        } else {
            Ok(())
        },
    }
}

/// The name and parent a node update asks for, each kept when absent or
/// blank.
#[derive(Debug, Clone)]
pub struct NodePlacement {
    pub node_name: String,
    pub parent_node_id: Option<String>,
}

/// Plans a node update: the requested name and parent, else the current
/// ones; the node may not become its own parent.
pub fn plan_node_update(
    current: &DriveNodeResponse,
    node_id: &str,
    node_name: Option<String>,
    parent_node_id: Option<String>,
) -> (r: Result<NodePlacement, ProblemDetail>)
    ensures
        ({
            let name = match normalized_id(opt_view(node_name)) {
                Some(n) => n,
                None => current.node_name@,
            };
            let parent = match normalized_id(opt_view(parent_node_id)) {
                Some(p) => Some(p),
                None => opt_view(current.parent_node_id),
            };
            if parent == Some(node_id@) {
                fails_with(r, "parentNodeId cannot be the updated node"@)
            } else {
                r matches Ok(p) && p.node_name@ == name && opt_view(p.parent_node_id) == parent
            }
        }),
{
    let name = match node_name {
        Some(n) => {
            let t = trim_str(n.as_str());
            if t.as_str().is_empty() {
                current.node_name.clone()
            } else {
                t
            }
        },
        None => current.node_name.clone(),
    };
    let parent = match parent_node_id {
        Some(p) => {
            let t = trim_str(p.as_str());
            if t.as_str().is_empty() {
                current.parent_node_id.clone()
            } else {
                Some(t)
            }
        },
        None => current.parent_node_id.clone(),
    };
    let is_self = match &parent {
        Some(p) => text_eq(p.as_str(), node_id),
        None => false,
    };
    if is_self {
        return Err(validation_problem(copy_str("parentNodeId cannot be the updated node")));
    }
    Ok(NodePlacement { node_name: name, parent_node_id: parent })
}

/// Plans a move: the trimmed target parent, if any, which may not be the
/// moved node itself.
pub fn plan_node_move(node_id: &str, target_parent_node_id: Option<String>) -> (r: Result<
    Option<String>,
    ProblemDetail,
>)
    ensures
        normalized_id(opt_view(target_parent_node_id)) == Some(node_id@) ==> fails_with(
            r,
            "targetParentNodeId cannot be the moved node"@,
        ),
        normalized_id(opt_view(target_parent_node_id)) != Some(node_id@) ==> (r matches Ok(p)
            && opt_view(p) == normalized_id(opt_view(target_parent_node_id))),
{
    let target = match target_parent_node_id {
        Some(p) => {
            let t = trim_str(p.as_str());
            if t.as_str().is_empty() {
                None
            } else {
                Some(t)
            }
        },
        None => None,
    };
    let is_self = match &target {
        Some(p) => text_eq(p.as_str(), node_id),
        None => false,
    };
    if is_self {
        return Err(validation_problem(copy_str("targetParentNodeId cannot be the moved node")));
    }
    Ok(target)
}

/// An update or move that touched no active node did not find it.
pub fn node_write_outcome(affected: u64) -> (r: Result<(), ProblemDetail>)
    ensures
        affected == 0 ==> is_not_found_problem(r, "node not found"@),
        affected > 0 ==> r is Ok,
{
    if affected == 0 {
        return Err(not_found_problem(copy_str("node not found")));
    }
    Ok(())
}

/// What the ancestry walk does next.
#[derive(Debug, Clone)]
pub enum AncestryStep {
    /// Look up the active parent of this node and hand it to
    /// `record_parent`.
    LookupParent(String),
    /// The target is not under the moved node.
    Clear,
    /// The target is the moved node or one of its descendants.
    Descendant,
    /// The hierarchy loops.
    Cycle,
}

/// Walks up from a move's target parent, checking that the moved node is
/// not met on the way.
pub struct AncestryWalk {
    moving_node_id: String,
    visited: Vec<String>,
    cursor: Option<String>,
}

impl AncestryWalk {
    /// The nodes met so far, the target first.
    pub closed spec fn met(&self) -> Seq<Seq<char>> {
        views(self.visited@)
    }

    /// The node moved.
    pub closed spec fn moving(&self) -> Seq<char> {
        self.moving_node_id@
    }

    /// The node to check next, if the walk goes on.
    pub closed spec fn next_node(&self) -> Option<Seq<char>> {
        opt_view(self.cursor)
    }

    /// The invariant of the walk: no node met twice, and the moved node
    /// not among them.
    pub open spec fn wf(&self) -> bool {
        &&& forall|i: int, j: int| 0 <= i < j < self.met().len() ==> self.met()[i] != self.met()[j]
        &&& !self.met().contains(self.moving())
    }

    /// Starts a walk from the target parent; without one the target is the
    /// space's root, which is clear.
    pub fn new(moving_node_id: String, target_parent_node_id: Option<String>) -> (r: Self)
        ensures
            r.wf(),
            r.moving() == moving_node_id@,
            r.met().len() == 0,
            r.next_node() == opt_view(target_parent_node_id),
    {
        let w = AncestryWalk {
            moving_node_id,
            visited: Vec::new(),
            cursor: target_parent_node_id,
        };
        assert(w.met() =~= Seq::<Seq<char>>::empty());
        w
    }

    /// Checks the next node: the moved node means a descendant, a node met
    /// before means a cycle; otherwise its parent is looked up.
    pub fn step(&mut self) -> (r: AncestryStep)
        requires
            old(self).wf(),
        ensures
            final(self).moving() == old(self).moving(),
            old(self).next_node() is None ==> r is Clear && final(self).met() == old(self).met(),
            old(self).next_node() == Some(old(self).moving()) ==> r is Descendant,
            old(self).next_node() matches Some(n) ==> (n != old(self).moving() && old(
                self,
            ).met().contains(n) ==> r is Cycle),
            old(self).next_node() matches Some(n) ==> (n != old(self).moving() && !old(
                self,
            ).met().contains(n) ==> (r matches AncestryStep::LookupParent(x) && x@ == n
                && final(self).met() == old(self).met().push(n) && final(self).wf())),
    {
        let cursor = match &self.cursor {
            None => return AncestryStep::Clear,
            Some(c) => c.clone(),
        };
        if text_eq(cursor.as_str(), self.moving_node_id.as_str()) {
            return AncestryStep::Descendant;
        }
        if contains_text_in(&self.visited, cursor.as_str()) {
            return AncestryStep::Cycle;
        }
        assert(!self.met().contains(cursor@));
        let ghost before = self.met();
        self.visited.push(cursor.clone());
        assert(self.met() =~= before.push(cursor@));
        proof {
            assert forall|x: Seq<char>| self.met().contains(x) implies x != self.moving() by {
                let i = choose|i: int| 0 <= i < self.met().len() && self.met()[i] == x;
                if i < before.len() {
                    assert(before.contains(x));
                }
            }
        }
        AncestryStep::LookupParent(cursor)
    }

    /// Takes in the parent of the node last looked up, if it has one.
    pub fn record_parent(&mut self, parent: Option<String>)
        requires
            old(self).wf(),
        ensures
            final(self).wf(),
            final(self).moving() == old(self).moving(),
            final(self).met() == old(self).met(),
            final(self).next_node() == opt_view(parent),
    {
        self.cursor = parent;
    }
}

/// A walk that ends clear has met the target and its ancestors, none of
/// them the moved node, so the target is not under the moved node.
pub proof fn clear_walk_keeps_moved_node_out(met: Seq<Seq<char>>, moving: Seq<char>)
    requires
        !met.contains(moving),
    ensures
        forall|i: int| 0 <= i < met.len() ==> met[i] != moving,
{
    assert forall|i: int| 0 <= i < met.len() implies met[i] != moving by {
        if met[i] == moving {
            assert(met.contains(moving));
        }
    }
}

/// Following parent links `n` times from `a` reaches `b`.
pub open spec fn reaches(links: Map<Seq<char>, Seq<char>>, a: Seq<char>, b: Seq<char>, n: nat) -> bool
    decreases n,
{
    if n == 0 {
        a == b
    } else {
        links.contains_key(a) && reaches(links, links[a], b, (n - 1) as nat)
    }
}

/// No node is its own ancestor.
pub open spec fn links_acyclic(links: Map<Seq<char>, Seq<char>>) -> bool {
    forall|a: Seq<char>, n: nat| n >= 1 ==> !#[trigger] reaches(links, a, a, n)
}

proof fn lemma_reaches_concat(
    links: Map<Seq<char>, Seq<char>>,
    a: Seq<char>,
    b: Seq<char>,
    c: Seq<char>,
    i: nat,
    j: nat,
)
    requires
        reaches(links, a, b, i),
        reaches(links, b, c, j),
    ensures
        reaches(links, a, c, i + j),
    decreases i,
{
    if i > 0 {
        lemma_reaches_concat(links, links[a], b, c, (i - 1) as nat, j);
        assert((i - 1) as nat + j == (i + j - 1) as nat);
    }
}

/// A path over the re-linked map either is a path over the old links, or
/// reaches `x` over the old links first and goes on from `x`.
proof fn lemma_relinked_path(
    links: Map<Seq<char>, Seq<char>>,
    x: Seq<char>,
    p: Seq<char>,
    a: Seq<char>,
    b: Seq<char>,
    n: nat,
)
    requires
        reaches(links.insert(x, p), a, b, n),
    ensures
        reaches(links, a, b, n) || exists|k: nat|
            k < n && #[trigger] reaches(links, a, x, k) && reaches(
                links.insert(x, p),
                x,
                b,
                (n - k) as nat,
            ),
    decreases n,
{
    let m2 = links.insert(x, p);
    if n > 0 {
        if a == x {
            assert(reaches(links, a, x, 0));
        } else {
            assert(m2[a] == links[a]);
            lemma_relinked_path(links, x, p, links[a], b, (n - 1) as nat);
            if !reaches(links, links[a], b, (n - 1) as nat) {
                let k = choose|k: nat|
                    k < (n - 1) as nat && #[trigger] reaches(links, links[a], x, k) && reaches(
                        m2,
                        x,
                        b,
                        ((n - 1) as nat - k) as nat,
                    );
                assert(reaches(links, a, x, k + 1));
                assert(((n - 1) as nat - k) as nat == (n - (k + 1)) as nat);
            }
        }
    }
}

/// Re-parenting a node keeps the parent links free of cycles when the new
/// parent is neither the node nor under it (what the update and move checks
/// make sure of): no node becomes its own ancestor.
pub proof fn reparenting_keeps_links_acyclic(
    links: Map<Seq<char>, Seq<char>>,
    node: Seq<char>,
    parent: Seq<char>,
)
    requires
        links_acyclic(links),
        forall|k: nat| !#[trigger] reaches(links, parent, node, k),
    ensures
        links_acyclic(links.insert(node, parent)),
{
    let m2 = links.insert(node, parent);
    assert forall|a: Seq<char>, n: nat| n >= 1 implies !#[trigger] reaches(m2, a, a, n) by {
        if reaches(m2, a, a, n) {
            lemma_relinked_path(links, node, parent, a, a, n);
            if reaches(links, a, a, n) {
                assert(false);
            } else {
                let k = choose|k: nat|
                    k < n && #[trigger] reaches(links, a, node, k) && reaches(
                        m2,
                        node,
                        a,
                        (n - k) as nat,
                    );
                let rest = (n - k - 1) as nat;
                assert(m2[node] == parent);
                assert(reaches(m2, parent, a, rest));
                lemma_relinked_path(links, node, parent, parent, a, rest);
                if reaches(links, parent, a, rest) {
                    lemma_reaches_concat(links, parent, a, node, rest, k);
                    assert(reaches(links, parent, node, rest + k));
                } else {
                    let k2 = choose|k2: nat|
                        k2 < rest && #[trigger] reaches(links, parent, node, k2) && reaches(
                            m2,
                            node,
                            a,
                            (rest - k2) as nat,
                        );
                    assert(reaches(links, parent, node, k2));
                }
            }
        }
    }
}

/// The answer to the count of live nodes (not deleted, other than the node
/// itself) already named as a node would be under its parent: any such node
/// is a conflict.
pub fn live_name_conflict_outcome(live_count: i64) -> (r: Result<(), ProblemDetail>)
    ensures
        live_count > 0 ==> is_conflict_problem(r, "node name already exists in parent"@),
        live_count <= 0 ==> r is Ok,
{
    if live_count > 0 {
        return Err(conflict_problem(copy_str("node name already exists in parent")));
    }
    Ok(())
}

/// The update a move makes: the node goes under the target parent with its
/// name kept and its version one higher; the change is `node.moved`.
#[derive(Debug, Clone)]
pub struct NodeMoveWrite {
    pub node_id: String,
    pub space_id: String,
    pub parent_node_id: Option<String>,
    pub node_name: String,
    pub version: i64,
    pub change_event_type: String,
}

/// The write of moving `current` under `target_parent` (as `plan_node_move`
/// accepted it), and the node the move answers: `current` with the new
/// parent and version.
pub fn plan_node_move_write(current: &DriveNodeResponse, target_parent: Option<String>) -> (r: (
    NodeMoveWrite,
    DriveNodeResponse,
))
    requires
        current.version < i64::MAX,
    ensures
        r.0.node_id@ == current.id@,
        r.0.space_id@ == current.space_id@,
        r.0.parent_node_id == target_parent,
        r.0.node_name@ == current.node_name@,
        r.0.version == current.version + 1,
        r.0.change_event_type@ == "node.moved"@,
        r.1 == (DriveNodeResponse {
            parent_node_id: target_parent,
            version: (current.version + 1) as i64,
            ..*current
        }),
{
    let write = NodeMoveWrite {
        node_id: current.id.clone(),
        space_id: current.space_id.clone(),
        parent_node_id: target_parent.clone(),
        node_name: current.node_name.clone(),
        version: current.version + 1,
        change_event_type: copy_str("node.moved"),
    };
    let answer = DriveNodeResponse {
        id: current.id.clone(),
        tenant_id: current.tenant_id.clone(),
        space_id: current.space_id.clone(),
        space_type: current.space_type.clone(),
        parent_node_id: target_parent,
        shortcut_target_node_id: current.shortcut_target_node_id.clone(),
        node_type: current.node_type.clone(),
        node_name: current.node_name.clone(),
        scene: current.scene.clone(),
        source: current.source.clone(),
        lifecycle_status: current.lifecycle_status.clone(),
        version: current.version + 1,
    };
    (write, answer)
}

/// What restoring a node needs to know of its parent.
#[derive(Debug, Clone)]
pub enum RestoreParentCheck {
    /// The node is at the space's root.
    AtRoot,
    /// The parent is restored along with it.
    InSubtree,
    /// The stored parent of this id must be looked up.
    Lookup(String),
}

/// The parent of a restored node: at the root, restored along with it (a
/// folder, or the restore conflicts), or to be looked up.
pub fn restore_parent_check(node: &DriveNodeResponse, restoring: &Vec<DriveNodeResponse>) -> (r:
    Result<RestoreParentCheck, ProblemDetail>)
    ensures
        node.parent_node_id is None ==> r matches Ok(RestoreParentCheck::AtRoot),
        node.parent_node_id matches Some(p) ==> ({
            let first = first_with_id(restoring@, p@);
            if first < restoring@.len() {
                if restoring@[first].node_type@ == "folder"@ {
                    r matches Ok(RestoreParentCheck::InSubtree)
                } else {
                    is_conflict_problem(r, "parent node must be active before restore"@)
                }
            } else {
                r matches Ok(RestoreParentCheck::Lookup(x)) && x@ == p@
            }
        }),
{
    let parent = match &node.parent_node_id {
        None => return Ok(RestoreParentCheck::AtRoot),
        Some(p) => p,
    };
    let k = index_of_node(restoring, parent.as_str());
    if k < restoring.len() {
        if text_eq(restoring[k].node_type.as_str(), "folder") {
            return Ok(RestoreParentCheck::InSubtree);
        }
        return Err(conflict_problem(copy_str("parent node must be active before restore")));
    }
    Ok(RestoreParentCheck::Lookup(parent.clone()))
}

/// The index of the first node with this id, or the length when none has it.
pub open spec fn first_with_id(nodes: Seq<DriveNodeResponse>, id: Seq<char>) -> int
    decreases nodes.len(),
{
    if nodes.len() == 0 {
        0
    } else if nodes[0].id@ == id {
        0
    } else {
        1 + first_with_id(nodes.drop_first(), id)
    }
}

proof fn lemma_first_with_id(nodes: Seq<DriveNodeResponse>, id: Seq<char>, k: int)
    requires
        0 <= k < nodes.len(),
        nodes[k].id@ == id,
        forall|i: int| 0 <= i < k ==> nodes[i].id@ != id,
    ensures
        first_with_id(nodes, id) == k,
    decreases k,
{
    if k > 0 {
        assert forall|i: int| 0 <= i < k - 1 implies nodes.drop_first()[i].id@ != id by {
            assert(nodes.drop_first()[i] == nodes[i + 1]);
        }
        lemma_first_with_id(nodes.drop_first(), id, k - 1);
    }
}

proof fn lemma_first_with_id_absent(nodes: Seq<DriveNodeResponse>, id: Seq<char>)
    requires
        forall|i: int| 0 <= i < nodes.len() ==> nodes[i].id@ != id,
    ensures
        first_with_id(nodes, id) == nodes.len(),
    decreases nodes.len(),
{
    if nodes.len() > 0 {
        assert forall|i: int| 0 <= i < nodes.drop_first().len() implies nodes.drop_first()[i].id@
            != id by {
            assert(nodes.drop_first()[i] == nodes[i + 1]);
        }
        lemma_first_with_id_absent(nodes.drop_first(), id);
    }
}

/// The index of the first node with this id, or the number of nodes.
pub fn index_of_node(nodes: &Vec<DriveNodeResponse>, id: &str) -> (r: usize)
    ensures
        r == first_with_id(nodes@, id@),
{
    let mut k: usize = 0;
    while k < nodes.len()
        invariant
            k <= nodes@.len(),
            forall|i: int| 0 <= i < k ==> nodes@[i].id@ != id@,
        decreases nodes.len() - k,
    {
        if text_eq(nodes[k].id.as_str(), id) {
            proof {
                lemma_first_with_id(nodes@, id@, k as int);
            }
            return k;
        }
        k = k + 1;
    }
    proof {
        lemma_first_with_id_absent(nodes@, id@);
    }
    k
}

/// The stored parent of a restored node must be an active folder of its
/// space; `parent` is its space, type and status, if it exists.
pub fn check_restore_parent_row(node_space_id: &str, parent: Option<(String, String, String)>) -> (r:
    Result<(), ProblemDetail>)
    ensures
        (parent matches Some((s, t, l)) && s@ == node_space_id@ && t@ == "folder"@ && l@
            == "active"@) ==> r is Ok,
        !(parent matches Some((s, t, l)) && s@ == node_space_id@ && t@ == "folder"@ && l@
            == "active"@) ==> is_conflict_problem(r, "parent node must be active before restore"@),
{
    match parent {
        Some((s, t, l)) => {
            if text_eq(s.as_str(), node_space_id) && text_eq(t.as_str(), "folder") && text_eq(
                l.as_str(),
                "active",
            ) {
                Ok(())
            } else {
                Err(conflict_problem(copy_str("parent node must be active before restore")))
            }
        },
        None => Err(conflict_problem(copy_str("parent node must be active before restore"))),
    }
}

/// What the check of a subtree about to be restored does next.
#[derive(Debug, Clone)]
pub enum RestoreSubtreeAction {
    /// Check that the node may stand where it is (the git-root rule).
    CheckGitRoot { space_id: String, parent_node_id: Option<String>, node_type: String },
    /// Look up the stored parent of this id.
    LookupParent { parent_id: String },
    /// Every node may be restored.
    Done,
    /// The restore is refused with this problem.
    Fail(ProblemDetail),
}

/// Checks each node of a subtree about to be restored, in order: the
/// git-root rule, then its parent (none, a folder restored along with it, or
/// an active folder of the same space).
pub struct RestoreSubtreeCheck {
    nodes: Vec<DriveNodeResponse>,
    index: usize,
    awaiting_parent: bool,
    finished: bool,
}

impl RestoreSubtreeCheck {
    /// The nodes being restored.
    pub closed spec fn nodes_spec(&self) -> Seq<DriveNodeResponse> {
        self.nodes@
    }

    /// How many nodes have passed.
    pub closed spec fn passed(&self) -> int {
        self.index as int
    }

    /// Whether the check has ended.
    pub closed spec fn finished_spec(&self) -> bool {
        self.finished
    }

    /// Whether the parent of the current node is being looked up.
    pub closed spec fn awaiting_parent_spec(&self) -> bool {
        self.awaiting_parent
    }

    /// The invariant of the check.
    pub closed spec fn wf(&self) -> bool {
        &&& self.index <= self.nodes@.len()
        &&& !self.finished ==> self.index < self.nodes@.len()
        &&& self.awaiting_parent ==> !self.finished
    }

    /// The action that checks node `i` (or ends the check after the last).
    pub open spec fn asks_node(&self, i: int, a: RestoreSubtreeAction) -> bool {
        if i == self.nodes_spec().len() {
            a is Done && self.finished_spec()
        } else {
            &&& a matches RestoreSubtreeAction::CheckGitRoot { space_id, parent_node_id, node_type }
            &&& space_id@ == self.nodes_spec()[i].space_id@
            &&& parent_node_id == self.nodes_spec()[i].parent_node_id
            &&& node_type@ == self.nodes_spec()[i].node_type@
            &&& !self.finished_spec() && !self.awaiting_parent_spec()
        }
    }

    fn ask(&mut self) -> (a: RestoreSubtreeAction)
        requires
            old(self).index <= old(self).nodes@.len(),
        ensures
            final(self).wf(),
            final(self).nodes_spec() == old(self).nodes_spec(),
            final(self).passed() == old(self).passed(),
            final(self).asks_node(final(self).passed(), a),
    {
        self.awaiting_parent = false;
        if self.index == self.nodes.len() {
            self.finished = true;
            return RestoreSubtreeAction::Done;
        }
        self.finished = false;
        let node = &self.nodes[self.index];
        RestoreSubtreeAction::CheckGitRoot {
            space_id: node.space_id.clone(),
            parent_node_id: node.parent_node_id.clone(),
            node_type: node.node_type.clone(),
        }
    }

    /// Starts the check of `nodes`.
    pub fn new(nodes: Vec<DriveNodeResponse>) -> (r: (Self, RestoreSubtreeAction))
        ensures
            r.0.wf(),
            r.0.nodes_spec() == nodes@,
            r.0.passed() == 0,
            r.0.asks_node(0, r.1),
    {
        let mut c = RestoreSubtreeCheck { nodes, index: 0, awaiting_parent: false, finished: false };
        let a = c.ask();
        (c, a)
    }

    fn pass(&mut self) -> (a: RestoreSubtreeAction)
        requires
            old(self).wf(),
            !old(self).finished_spec(),
        ensures
            final(self).wf(),
            final(self).nodes_spec() == old(self).nodes_spec(),
            final(self).passed() == old(self).passed() + 1,
            final(self).asks_node(final(self).passed(), a),
    {
        let n = self.nodes.len();
        assert(self.index < n);
        self.index = self.index + 1;
        self.ask()
    }

    /// Takes in the git-root check of the current node: a refusal ends the
    /// check; else its parent is checked.
    pub fn record_git_root(&mut self, outcome: Result<(), ProblemDetail>) -> (a: RestoreSubtreeAction)
        requires
            old(self).wf(),
            !old(self).finished_spec(),
            !old(self).awaiting_parent_spec(),
        ensures
            final(self).wf(),
            final(self).nodes_spec() == old(self).nodes_spec(),
            outcome matches Err(p) ==> a == RestoreSubtreeAction::Fail(p) && final(self).finished_spec(),
            outcome is Ok ==> ({
                let node = old(self).nodes_spec()[old(self).passed()];
                match node.parent_node_id {
                    None => final(self).passed() == old(self).passed() + 1 && final(self).asks_node(
                        final(self).passed(),
                        a,
                    ),
                    Some(p) => {
                        let first = first_with_id(old(self).nodes_spec(), p@);
                        if first < old(self).nodes_spec().len() {
                            if old(self).nodes_spec()[first].node_type@ == "folder"@ {
                                final(self).passed() == old(self).passed() + 1
                                    && final(self).asks_node(final(self).passed(), a)
                            } else {
                                a matches RestoreSubtreeAction::Fail(x) && is_conflict_problem(
                                    Err::<(), ProblemDetail>(x),
                                    "parent node must be active before restore"@,
                                ) && final(self).finished_spec()
                            }
                        } else {
                            a matches RestoreSubtreeAction::LookupParent { parent_id }
                                && parent_id@ == p@ && final(self).awaiting_parent_spec()
                                && final(self).passed() == old(self).passed()
                        }
                    },
                }
            }),
    {
        match outcome {
            Err(p) => {
                self.finished = true;
                self.awaiting_parent = false;
                return RestoreSubtreeAction::Fail(p);
            },
            Ok(()) => {},
        }
        let check = restore_parent_check(&self.nodes[self.index], &self.nodes);
        match check {
            Err(p) => {
                self.finished = true;
                self.awaiting_parent = false;
                RestoreSubtreeAction::Fail(p)
            },
            Ok(RestoreParentCheck::Lookup(parent_id)) => {
                self.awaiting_parent = true;
                RestoreSubtreeAction::LookupParent { parent_id }
            },
            Ok(_) => self.pass(),
        }
    }

    /// Takes in the stored parent of the current node, as (space, node type,
    /// lifecycle) when found: an active folder of the node's space lets it
    /// pass, anything else refuses the restore.
    pub fn record_parent_row(&mut self, parent: Option<(String, String, String)>) -> (a:
        RestoreSubtreeAction)
        requires
            old(self).wf(),
            old(self).awaiting_parent_spec(),
        ensures
            final(self).wf(),
            final(self).nodes_spec() == old(self).nodes_spec(),
            ({
                let space = old(self).nodes_spec()[old(self).passed()].space_id@;
                if parent matches Some((s, t, l)) && s@ == space && t@ == "folder"@ && l@ == "active"@ {
                    final(self).passed() == old(self).passed() + 1 && final(self).asks_node(
                        final(self).passed(),
                        a,
                    )
                } else {
                    a matches RestoreSubtreeAction::Fail(x) && is_conflict_problem(
                        Err::<(), ProblemDetail>(x),
                        "parent node must be active before restore"@,
                    ) && final(self).finished_spec()
                }
            }),
    {
        self.awaiting_parent = false;
        match check_restore_parent_row(self.nodes[self.index].space_id.as_str(), parent) {
            Ok(()) => self.pass(),
            Err(p) => {
                self.finished = true;
                RestoreSubtreeAction::Fail(p)
            },
        }
    }
}

/// The problem of a walk that did not end clear.
pub fn ancestry_problem(step: &AncestryStep) -> (r: Option<ProblemDetail>)
    ensures
        step is Descendant ==> (r matches Some(p) && fails_with(
            Err::<(), ProblemDetail>(p),
            "targetParentNodeId cannot reference a descendant of the moved node"@,
        )),
        step is Cycle ==> (r matches Some(p) && is_conflict_problem(
            Err::<(), ProblemDetail>(p),
            "node hierarchy contains a cycle"@,
        )),
        step is Clear || step is LookupParent ==> r is None,
{
    match step {
        AncestryStep::Descendant => Some(
            validation_problem(
                copy_str("targetParentNodeId cannot reference a descendant of the moved node"),
            ),
        ),
        AncestryStep::Cycle => Some(conflict_problem(copy_str("node hierarchy contains a cycle"))),
        _ => None,
    }
}

} // verus!

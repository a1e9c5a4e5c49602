//! The trash: which trashed nodes a subject is shown, and the tally of
//! emptying it.
use vstd::prelude::*;
use crate::acl::{reader_inherited_permission_exists_sql, reader_inherited_permission_exists_text};
use crate::text::{copy_str, concat_str, text_eq};

verus! {

/// How trashed nodes are scanned for a listing.
#[derive(Debug, Clone, Copy, PartialEq, Eq)]
pub enum TrashScanKind {
    /// By offset, every trashed node of the space: its owner is asking.
    SpaceOwner,
    /// By offset, the trashed nodes of the space that the subject can read,
    /// filtered in the query.
    SpaceReader,
    /// Trashed nodes of the whole tenant, each checked for reader access.
    TenantReaderVisible,
}

/// The query of a trash listing: the condition on `dr_drive_node`, the
/// placeholders of the page's limit and offset, and whether the subject's
/// type and id are bound after the space and parent.
#[derive(Debug, Clone)]
pub struct TrashListingPlan {
    pub kind: TrashScanKind,
    pub where_sql: String,
    pub limit_placeholder: String,
    pub offset_placeholder: String,
    pub binds_subject: bool,
    /// The order of the listing: latest trashed first, then by id.
    pub order_sql: String,
}

/// The kind of scan for a listing.
pub open spec fn trash_scan_kind(has_space: bool, is_space_owner: bool) -> TrashScanKind {
    if !has_space {
        TrashScanKind::TenantReaderVisible
    } else if is_space_owner {
        TrashScanKind::SpaceOwner
    } else {
        TrashScanKind::SpaceReader
    }
}

/// The condition of a listing's query.
pub open spec fn trash_where_text(has_space: bool, has_parent: bool, is_space_owner: bool) -> Seq<
    char,
> {
    if !has_space {
        if has_parent {
            "tenant_id=$1 AND lifecycle_status='trashed' AND parent_node_id=$2"@
        } else {
            "tenant_id=$1 AND lifecycle_status='trashed'"@
        }
    } else {
        let base = "tenant_id=$1 AND space_id=$2 AND lifecycle_status='trashed'"@;
        let with_parent = if has_parent {
            base + " AND parent_node_id=$3"@
        } else {
            base
        };
        if is_space_owner {
            with_parent
        } else if has_parent {
            with_parent + " AND ("@ + reader_inherited_permission_exists_text(
                "dr_drive_node"@,
                "$4"@,
                "$5"@,
            ) + ")"@
        } else {
            with_parent + " AND ("@ + reader_inherited_permission_exists_text(
                "dr_drive_node"@,
                "$3"@,
                "$4"@,
            ) + ")"@
        }
    }
}

/// The placeholders of limit and offset: after the tenant, the space and
/// parent when given, and the subject when the query filters by access.
pub open spec fn trash_page_placeholders(
    has_space: bool,
    has_parent: bool,
    is_space_owner: bool,
) -> (Seq<char>, Seq<char>) {
    let binds: int = 1 + (if has_space {
        1int
    } else {
        0
    }) + (if has_parent {
        1int
    } else {
        0
    }) + (if has_space && !is_space_owner {
        2int
    } else {
        0
    });
    if binds == 1 {
        ("$2"@, "$3"@)
    } else if binds == 2 {
        ("$3"@, "$4"@)
    } else if binds == 3 {
        ("$4"@, "$5"@)
    } else if binds == 4 {
        ("$5"@, "$6"@)
    } else {
        ("$6"@, "$7"@)
    }
}

/// Plans the query of a trash listing: the tenant's trashed nodes, in the
/// space and under the parent when given; the space's owner sees them all,
/// any other subject those it can read.
pub fn plan_trash_listing(has_space: bool, has_parent: bool, is_space_owner: bool) -> (r:
    TrashListingPlan)
    ensures
        r.kind == trash_scan_kind(has_space, is_space_owner),
        r.where_sql@ == trash_where_text(has_space, has_parent, is_space_owner),
        (r.limit_placeholder@, r.offset_placeholder@) == trash_page_placeholders(
            has_space,
            has_parent,
            is_space_owner,
        ),
        r.binds_subject == (has_space && !is_space_owner),
        r.order_sql@ == "ORDER BY updated_at DESC, id ASC"@,
{
    if !has_space {
        if has_parent {
            return TrashListingPlan {
                kind: TrashScanKind::TenantReaderVisible,
                where_sql: copy_str(
                    "tenant_id=$1 AND lifecycle_status='trashed' AND parent_node_id=$2",
                ),
                limit_placeholder: copy_str("$3"),
                offset_placeholder: copy_str("$4"),
                binds_subject: false,
                order_sql: copy_str("ORDER BY updated_at DESC, id ASC"),
            };
        }
        return TrashListingPlan {
            kind: TrashScanKind::TenantReaderVisible,
            where_sql: copy_str("tenant_id=$1 AND lifecycle_status='trashed'"),
            limit_placeholder: copy_str("$2"),
            offset_placeholder: copy_str("$3"),
            binds_subject: false,
            order_sql: copy_str("ORDER BY updated_at DESC, id ASC"),
        };
    }
    let base = copy_str("tenant_id=$1 AND space_id=$2 AND lifecycle_status='trashed'");
    let with_parent = if has_parent {
        concat_str(base.as_str(), " AND parent_node_id=$3")
    } else {
        base
    };
    if is_space_owner {
        let (l, o) = if has_parent {
            (copy_str("$4"), copy_str("$5"))
        } else {
            (copy_str("$3"), copy_str("$4"))
        };
        return TrashListingPlan {
            kind: TrashScanKind::SpaceOwner,
            where_sql: with_parent,
            limit_placeholder: l,
            offset_placeholder: o,
            binds_subject: false,
            order_sql: copy_str("ORDER BY updated_at DESC, id ASC"),
        };
    }
    let predicate = if has_parent {
        reader_inherited_permission_exists_sql("dr_drive_node", "$4", "$5")
    } else {
        reader_inherited_permission_exists_sql("dr_drive_node", "$3", "$4")
    };
    let a = concat_str(with_parent.as_str(), " AND (");
    let b = concat_str(a.as_str(), predicate.as_str());
    let where_sql = concat_str(b.as_str(), ")");
    let (l, o) = if has_parent {
        (copy_str("$6"), copy_str("$7"))
    } else {
        (copy_str("$5"), copy_str("$6"))
    };
    TrashListingPlan {
        kind: TrashScanKind::SpaceReader,
        where_sql,
        limit_placeholder: l,
        offset_placeholder: o,
        binds_subject: true,
        order_sql: copy_str("ORDER BY updated_at DESC, id ASC"),
    }
}

/// The role a subject needs on a trashed node to delete it for good.
pub const EMPTY_TRASH_REQUIRED_ROLE: &'static str = "writer";

/// The trashed nodes one emptying of the trash looks at: those of tenant
/// `$1` (and of space `$2`, when a space is named), longest trashed first,
/// at most 500.
pub open spec fn empty_trash_selection_text(space_scoped: bool) -> Seq<char> {
    if space_scoped {
        "SELECT id, space_id FROM dr_drive_node WHERE tenant_id=$1 AND space_id=$2 AND lifecycle_status='trashed' ORDER BY updated_at ASC LIMIT 500"@
    } else {
        "SELECT id, space_id FROM dr_drive_node WHERE tenant_id=$1 AND lifecycle_status='trashed' ORDER BY updated_at ASC LIMIT 500"@
    }
}

/// The selection of trashed nodes to delete, for the space named, if any.
pub fn empty_trash_selection_sql(space_id: Option<&str>) -> (r: &'static str)
    ensures
        r@ == empty_trash_selection_text(space_id is Some),
{
    match space_id {
        Some(_) => "SELECT id, space_id FROM dr_drive_node WHERE tenant_id=$1 AND space_id=$2 AND lifecycle_status='trashed' ORDER BY updated_at ASC LIMIT 500",
        None => "SELECT id, space_id FROM dr_drive_node WHERE tenant_id=$1 AND lifecycle_status='trashed' ORDER BY updated_at ASC LIMIT 500",
    }
}

/// The tally of emptying the trash: how many nodes were deleted and the
/// spaces they were in, each once, in the order first met.
pub struct EmptyTrashTally {
    deleted_count: i64,
    changed_spaces: Vec<String>,
}

/// A sequence of texts without repeats.
pub open spec fn distinct_texts(s: Seq<Seq<char>>) -> bool {
    forall|i: int, j: int| 0 <= i < j < s.len() ==> s[i] != s[j]
}

impl EmptyTrashTally {
    /// The spaces deleted nodes were in, each once, first met first.
    pub closed spec fn spaces(&self) -> Seq<Seq<char>> {
        self.changed_spaces@.map_values(|s: String| s@)
    }

    /// Takes in the writer check of a trashed node of `space_id`: a node
    /// the subject may write is deleted (the answer is `true`, and the node
    /// counted, with its space); any other node stays trashed and nothing
    /// is counted.
    pub fn record_checked(&mut self, space_id: String, writer_allowed: bool) -> (delete: bool)
        requires
            old(self).wf(),
            old(self).count() < i64::MAX,
        ensures
            final(self).wf(),
            delete == writer_allowed,
            writer_allowed ==> final(self).count() == old(self).count() + 1 && final(self).spaces()
                == if old(self).spaces().contains(space_id@) {
                old(self).spaces()
            } else {
                old(self).spaces().push(space_id@)
            },
            !writer_allowed ==> final(self).count() == old(self).count() && final(self).spaces()
                == old(self).spaces(),
    {
        if writer_allowed {
            self.record_deleted(space_id);
        }
        writer_allowed
    }

    /// The number of deleted nodes.
    pub closed spec fn count(&self) -> int {
        self.deleted_count as int
    }

    /// The well-formedness of a tally: no space twice, a count of at least
    /// one node a space.
    pub open spec fn wf(&self) -> bool {
        distinct_texts(self.spaces()) && self.spaces().len() <= self.count()
    }

    /// An empty tally.
    pub fn new() -> (t: Self)
        ensures
            t.wf(),
            t.count() == 0,
            t.spaces() == Seq::<Seq<char>>::empty(),
    {
        let t = EmptyTrashTally { deleted_count: 0, changed_spaces: Vec::new() };
        assert(t.spaces() =~= Seq::<Seq<char>>::empty());
        t
    }

    /// Counts a deleted node of `space_id`, and its space if it is new.
    pub fn record_deleted(&mut self, space_id: String)
        requires
            old(self).wf(),
            old(self).count() < i64::MAX,
        ensures
            final(self).wf(),
            final(self).count() == old(self).count() + 1,
            final(self).spaces() == if old(self).spaces().contains(space_id@) {
                old(self).spaces()
            } else {
                old(self).spaces().push(space_id@)
            },
    {
        let ghost before = self.spaces();
        let mut k: usize = 0;
        let mut seen = false;
        while k < self.changed_spaces.len()
            invariant
                before == self.spaces(),
                k <= self.changed_spaces@.len(),
                before.len() == self.changed_spaces@.len(),
                seen <==> exists|i: int| 0 <= i < k && #[trigger] before[i] == space_id@,
            decreases self.changed_spaces.len() - k,
        {
            assert(before[k as int] == self.changed_spaces@[k as int]@);
            if text_eq(self.changed_spaces[k].as_str(), space_id.as_str()) {
                seen = true;
            }
            k = k + 1;
        }
        self.deleted_count = self.deleted_count + 1;
        if !seen {
            self.changed_spaces.push(space_id);
            assert(self.spaces() =~= before.push(space_id@));
            assert(!before.contains(space_id@));
        } else {
            assert(before.contains(space_id@));
        }
    }

    /// The number of deleted nodes.
    pub fn deleted_count(&self) -> (r: i64)
        ensures
            r == self.count(),
    {
        self.deleted_count
    }

    /// The spaces to record a trash-emptied change for.
    pub fn changed_spaces(&self) -> (r: &Vec<String>)
        ensures
            r@.map_values(|s: String| s@) == self.spaces(),
    {
        &self.changed_spaces
    }
}

/// A space is listed once however many of its nodes are deleted, and every
/// space with a deleted node is listed.
pub proof fn empty_trash_lists_each_space_once(
    before: Seq<Seq<char>>,
    after: Seq<Seq<char>>,
    space_id: Seq<char>,
)
    requires
        distinct_texts(before),
        after == (if before.contains(space_id) {
            before
        } else {
            before.push(space_id)
        }),
    ensures
        distinct_texts(after),
        after.contains(space_id),
        forall|s: Seq<char>| before.contains(s) ==> after.contains(s),
{
    if !before.contains(space_id) {
        assert(after[after.len() - 1] == space_id);
        assert forall|s: Seq<char>| before.contains(s) implies after.contains(s) by {
            let i = choose|i: int| 0 <= i < before.len() && before[i] == s;
            assert(after[i] == s);
        }
    }
}

} // verus!

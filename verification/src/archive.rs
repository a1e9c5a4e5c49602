//! Planning the extraction of archive entries into a space: each file's
//! folders are found or planned, and no target may clash with an existing
//! node, a planned folder or another planned file.
use vstd::prelude::*;
use crate::changes::{slash_joined, join_with_slash};
use crate::text::{copy_str, concat_str, push_char, text_eq, views, opt_view, contains_text_in};

verus! {

/// Why a plan is refused.
#[derive(Debug, Clone, Copy, PartialEq, Eq)]
pub enum ArchivePlanFailure {
    /// An entry has no path.
    UnsafePath,
    /// A target clashes with an existing node or another planned target.
    TargetConflict,
}

/// The name of the file an archive entry is extracted to: the last segment
/// of its path; an entry without a path is unsafe.
pub fn extracted_file_name(segments: &Vec<String>) -> (r: Result<String, ArchivePlanFailure>)
    ensures
        segments@.len() == 0 ==> r matches Err(ArchivePlanFailure::UnsafePath),
        segments@.len() > 0 ==> (r matches Ok(name) && name@ == segments@.last()@),
{
    if segments.len() == 0 {
        return Err(ArchivePlanFailure::UnsafePath);
    }
    Ok(segments[segments.len() - 1].clone())
}

/// Where the planner stands.
#[derive(Debug, Clone, Copy, PartialEq, Eq, Structural)]
pub enum ArchivePlanPhase {
    Walking,
    AwaitFolderLookup,
    AwaitFileLookup,
    AwaitParentCheck,
    Finished,
}

/// What the caller does next.
#[derive(Debug, Clone)]
pub enum ArchivePlanAction {
    /// Nothing to look up: step again.
    Continue,
    /// Look up the live child named `name` under the parent (the space's
    /// root when none), and hand it to `record_child`.
    FindChild { parent_node_id: Option<String>, name: String },
    /// Check that a file may be placed under the parent, then call
    /// `record_parent_checked`.
    CheckFileParent { parent_node_id: Option<String> },
    /// Every entry has a target.
    Done,
    Fail(ArchivePlanFailure),
}

/// An action, by its texts.
pub enum ArchiveActionView {
    Continue,
    FindChild(Option<Seq<char>>, Seq<char>),
    CheckFileParent(Option<Seq<char>>),
    Done,
    Fail(ArchivePlanFailure),
}

/// The texts of an action.
pub open spec fn action_view(a: ArchivePlanAction) -> ArchiveActionView {
    match a {
        ArchivePlanAction::Continue => ArchiveActionView::Continue,
        ArchivePlanAction::FindChild { parent_node_id, name } => ArchiveActionView::FindChild(
            opt_view(parent_node_id),
            name@,
        ),
        ArchivePlanAction::CheckFileParent { parent_node_id } => ArchiveActionView::CheckFileParent(
            opt_view(parent_node_id),
        ),
        ArchivePlanAction::Done => ArchiveActionView::Done,
        ArchivePlanAction::Fail(f) => ArchiveActionView::Fail(f),
    }
}

/// A live node found under a parent.
#[derive(Debug, Clone)]
pub struct ArchiveChild {
    pub id: String,
    pub lifecycle_status: String,
    pub node_type: String,
}

/// The texts of a found child: id, status and type.
pub open spec fn child_view(found: Option<ArchiveChild>) -> Option<(Seq<char>, Seq<char>, Seq<char>)> {
    match found {
        Some(c) => Some((c.id@, c.lifecycle_status@, c.node_type@)),
        None => None,
    }
}

/// The state of a plan.
#[verifier::ext_equal]
pub struct ArchivePlanView {
    /// The path segments of each file entry.
    pub files: Seq<Seq<Seq<char>>>,
    pub root_parent: Option<Seq<char>>,
    pub folders: Seq<Seq<char>>,
    pub planned_files: Seq<Seq<char>>,
    pub file_index: int,
    pub segment_index: int,
    pub current_path: Seq<char>,
    pub current_parent: Option<Seq<char>>,
    pub parent_is_existing: bool,
    pub phase: ArchivePlanPhase,
}

/// The parent id a file under a planned folder is checked with.
pub open spec fn planned_folder_marker() -> Seq<char> {
    "__planned_archive_folder__"@
}

/// The path with one more segment.
pub open spec fn extend_path(path: Seq<char>, segment: Seq<char>) -> Seq<char> {
    if path.len() == 0 {
        segment
    } else {
        path + seq!['/'] + segment
    }
}

/// No text twice.
pub open spec fn distinct(s: Seq<Seq<char>>) -> bool {
    forall|i: int, j: int| 0 <= i < j < s.len() ==> s[i] != s[j]
}

/// No text in both.
pub open spec fn disjoint(a: Seq<Seq<char>>, b: Seq<Seq<char>>) -> bool {
    forall|x: Seq<char>| a.contains(x) ==> !b.contains(x)
}

/// The invariant of a plan: planned folders and files each without repeats
/// and never sharing a path, and the position within the entries.
pub open spec fn archive_plan_wf(v: ArchivePlanView) -> bool {
    &&& distinct(v.folders)
    &&& distinct(v.planned_files)
    &&& disjoint(v.folders, v.planned_files)
    &&& 0 <= v.file_index <= v.files.len()
    &&& 0 <= v.segment_index
    &&& (v.phase != ArchivePlanPhase::Walking && v.phase != ArchivePlanPhase::Finished)
        ==> v.file_index < v.files.len() && v.files[v.file_index].len() > 0
    &&& v.phase == ArchivePlanPhase::AwaitFolderLookup ==> {
        &&& v.parent_is_existing
        &&& v.segment_index < v.files[v.file_index].len() - 1
        &&& !v.folders.contains(v.current_path)
        &&& !v.planned_files.contains(v.current_path)
    }
    &&& (v.phase == ArchivePlanPhase::Walking && v.file_index < v.files.len() && v.files[v.file_index].len()
        > 0) ==> v.segment_index <= v.files[v.file_index].len() - 1
}

/// The state after finishing with `v`'s other fields kept.
pub open spec fn finished(v: ArchivePlanView) -> ArchivePlanView {
    ArchivePlanView { phase: ArchivePlanPhase::Finished, ..v }
}

/// One step of the walk over the entries.
pub open spec fn walk_step(v: ArchivePlanView) -> (ArchivePlanView, ArchiveActionView) {
    if v.file_index >= v.files.len() {
        (finished(v), ArchiveActionView::Done)
    } else {
        let segs = v.files[v.file_index];
        if segs.len() == 0 {
            (finished(v), ArchiveActionView::Fail(ArchivePlanFailure::UnsafePath))
        } else if v.segment_index < segs.len() - 1 {
            let seg = segs[v.segment_index];
            let path = extend_path(v.current_path, seg);
            if v.planned_files.contains(path) {
                (finished(v), ArchiveActionView::Fail(ArchivePlanFailure::TargetConflict))
            } else if v.folders.contains(path) {
                (
                    ArchivePlanView {
                        current_path: path,
                        parent_is_existing: false,
                        current_parent: None,
                        segment_index: v.segment_index + 1,
                        ..v
                    },
                    ArchiveActionView::Continue,
                )
            } else if v.parent_is_existing {
                (
                    ArchivePlanView {
                        current_path: path,
                        phase: ArchivePlanPhase::AwaitFolderLookup,
                        ..v
                    },
                    ArchiveActionView::FindChild(v.current_parent, seg),
                )
            } else {
                (
                    ArchivePlanView {
                        folders: v.folders.push(path),
                        current_path: path,
                        current_parent: None,
                        segment_index: v.segment_index + 1,
                        ..v
                    },
                    ArchiveActionView::Continue,
                )
            }
        } else {
            let file_path = slash_joined(segs);
            if v.folders.contains(file_path) || v.planned_files.contains(file_path) {
                (finished(v), ArchiveActionView::Fail(ArchivePlanFailure::TargetConflict))
            } else if v.parent_is_existing {
                (
                    ArchivePlanView {
                        planned_files: v.planned_files.push(file_path),
                        phase: ArchivePlanPhase::AwaitFileLookup,
                        ..v
                    },
                    ArchiveActionView::FindChild(v.current_parent, segs.last()),
                )
            } else {
                (
                    ArchivePlanView {
                        planned_files: v.planned_files.push(file_path),
                        phase: ArchivePlanPhase::AwaitParentCheck,
                        ..v
                    },
                    ArchiveActionView::CheckFileParent(Some(planned_folder_marker())),
                )
            }
        }
    }
}

/// An existing child that a planned folder may be walked into.
pub open spec fn is_active_folder(status: Seq<char>, node_type: Seq<char>) -> bool {
    status == "active"@ && node_type == "folder"@
}

/// The step after looking up a child, found as `found` (id, status, type).
pub open spec fn child_step(
    v: ArchivePlanView,
    found: Option<(Seq<char>, Seq<char>, Seq<char>)>,
) -> (ArchivePlanView, ArchiveActionView) {
    if v.phase == ArchivePlanPhase::AwaitFolderLookup {
        match found {
            Some((id, status, node_type)) => if !is_active_folder(status, node_type) {
                (finished(v), ArchiveActionView::Fail(ArchivePlanFailure::TargetConflict))
            } else {
                (
                    ArchivePlanView {
                        current_parent: Some(id),
                        segment_index: v.segment_index + 1,
                        phase: ArchivePlanPhase::Walking,
                        ..v
                    },
                    ArchiveActionView::Continue,
                )
            },
            None => (
                ArchivePlanView {
                    folders: v.folders.push(v.current_path),
                    parent_is_existing: false,
                    current_parent: None,
                    segment_index: v.segment_index + 1,
                    phase: ArchivePlanPhase::Walking,
                    ..v
                },
                ArchiveActionView::Continue,
            ),
        }
    } else {
        match found {
            Some(_) => (finished(v), ArchiveActionView::Fail(ArchivePlanFailure::TargetConflict)),
            None => (
                ArchivePlanView { phase: ArchivePlanPhase::AwaitParentCheck, ..v },
                ArchiveActionView::CheckFileParent(v.current_parent),
            ),
        }
    }
}

/// The step after the file's parent was checked: on to the next entry.
pub open spec fn parent_checked_step(v: ArchivePlanView) -> ArchivePlanView {
    ArchivePlanView {
        file_index: v.file_index + 1,
        segment_index: 0,
        current_path: Seq::<char>::empty(),
        current_parent: v.root_parent,
        parent_is_existing: true,
        phase: ArchivePlanPhase::Walking,
        ..v
    }
}

/// Adding a path that is in neither list keeps the lists apart.
proof fn lemma_push_keeps_apart(a: Seq<Seq<char>>, b: Seq<Seq<char>>, x: Seq<char>)
    requires
        distinct(a),
        disjoint(a, b),
        !a.contains(x),
        !b.contains(x),
    ensures
        distinct(a.push(x)),
        disjoint(a.push(x), b),
        disjoint(b, a.push(x)),
{
    assert forall|i: int, j: int| 0 <= i < j < a.push(x).len() implies a.push(x)[i] != a.push(
        x,
    )[j] by {
        if j == a.len() {
            assert(a.contains(a[i]));
        }
    }
    assert forall|y: Seq<char>| a.push(x).contains(y) implies !b.contains(y) by {
        let k = choose|k: int| 0 <= k < a.push(x).len() && a.push(x)[k] == y;
        if k < a.len() {
            assert(a.contains(y));
        }
    }
    assert forall|y: Seq<char>| b.contains(y) implies !a.push(x).contains(y) by {
        if a.push(x).contains(y) {
            let k = choose|k: int| 0 <= k < a.push(x).len() && a.push(x)[k] == y;
            if k < a.len() {
                assert(a.contains(y));
            }
        }
    }
}

/// Every step keeps the plan's invariant: no path is planned both as a
/// folder and as a file, and none is planned twice.
pub proof fn walk_step_keeps_plan_apart(v: ArchivePlanView)
    requires
        archive_plan_wf(v),
        v.phase == ArchivePlanPhase::Walking,
    ensures
        archive_plan_wf(walk_step(v).0),
{
    if v.file_index < v.files.len() {
        let segs = v.files[v.file_index];
        if segs.len() > 0 && v.segment_index < segs.len() - 1 {
            let path = extend_path(v.current_path, segs[v.segment_index]);
            if !v.planned_files.contains(path) && !v.folders.contains(path)
                && !v.parent_is_existing {
                lemma_push_keeps_apart(v.folders, v.planned_files, path);
            }
        } else if segs.len() > 0 {
            let fp = slash_joined(segs);
            if !v.folders.contains(fp) && !v.planned_files.contains(fp) {
                lemma_disjoint_sym(v.folders, v.planned_files);
                lemma_push_keeps_apart(v.planned_files, v.folders, fp);
            }
        }
    }
}

proof fn lemma_disjoint_sym(a: Seq<Seq<char>>, b: Seq<Seq<char>>)
    requires
        disjoint(a, b),
    ensures
        disjoint(b, a),
{
}

/// Looking up a child keeps the plan's invariant.
pub proof fn child_step_keeps_plan_apart(
    v: ArchivePlanView,
    found: Option<(Seq<char>, Seq<char>, Seq<char>)>,
)
    requires
        archive_plan_wf(v),
        v.phase == ArchivePlanPhase::AwaitFolderLookup || v.phase
            == ArchivePlanPhase::AwaitFileLookup,
    ensures
        archive_plan_wf(child_step(v, found).0),
{
    if v.phase == ArchivePlanPhase::AwaitFolderLookup && found is None {
        lemma_push_keeps_apart(v.folders, v.planned_files, v.current_path);
    }
}

/// Plans the targets of the files of an archive, entry by entry.
pub struct ArchiveExtractionPlanner {
    files: Vec<Vec<String>>,
    root_parent: Option<String>,
    planned_folders: Vec<String>,
    planned_files: Vec<String>,
    file_index: usize,
    segment_index: usize,
    current_path: String,
    current_parent: Option<String>,
    parent_is_existing: bool,
    phase: ArchivePlanPhase,
}

impl View for ArchiveExtractionPlanner {
    type V = ArchivePlanView;

    closed spec fn view(&self) -> ArchivePlanView {
        ArchivePlanView {
            files: self.files@.map_values(|f: Vec<String>| views(f@)),
            root_parent: opt_view(self.root_parent),
            folders: views(self.planned_folders@),
            planned_files: views(self.planned_files@),
            file_index: self.file_index as int,
            segment_index: self.segment_index as int,
            current_path: self.current_path@,
            current_parent: opt_view(self.current_parent),
            parent_is_existing: self.parent_is_existing,
            phase: self.phase,
        }
    }
}

impl ArchiveExtractionPlanner {
    /// A planner for files with these path segments, extracted under
    /// `root_parent` (the space's root when none).
    pub fn new(files: Vec<Vec<String>>, root_parent: Option<String>) -> (p: Self)
        ensures
            archive_plan_wf(p@),
            p@.files == files@.map_values(|f: Vec<String>| views(f@)),
            p@.root_parent == opt_view(root_parent),
            p@.folders.len() == 0,
            p@.planned_files.len() == 0,
            p@.file_index == 0,
            p@.segment_index == 0,
            p@.current_path.len() == 0,
            p@.current_parent == opt_view(root_parent),
            p@.parent_is_existing,
            p@.phase == ArchivePlanPhase::Walking,
    {
        let current_parent = root_parent.clone();
        ArchiveExtractionPlanner {
            files,
            root_parent,
            planned_folders: Vec::new(),
            planned_files: Vec::new(),
            file_index: 0,
            segment_index: 0,
            current_path: String::new(),
            current_parent,
            parent_is_existing: true,
            phase: ArchivePlanPhase::Walking,
        }
    }

    /// The phase of the plan.
    pub fn phase(&self) -> (r: ArchivePlanPhase)
        ensures
            r == self@.phase,
    {
        self.phase
    }

    /// Walks on while nothing needs looking up.
    pub fn step(&mut self) -> (r: ArchivePlanAction)
        requires
            archive_plan_wf(old(self)@),
            old(self)@.phase == ArchivePlanPhase::Walking,
        ensures
            archive_plan_wf(final(self)@),
            final(self)@ == walk_step(old(self)@).0,
            action_view(r) == walk_step(old(self)@).1,
    {
        proof {
            walk_step_keeps_plan_apart(self@);
        }
        let ghost v = self@;
        if self.file_index >= self.files.len() {
            self.phase = ArchivePlanPhase::Finished;
            assert(self@ =~= finished(v));
            return ArchivePlanAction::Done;
        }
        let n = self.files[self.file_index].len();
        assert(v.files[v.file_index] == views(self.files@[self.file_index as int]@));
        if n == 0 {
            self.phase = ArchivePlanPhase::Finished;
            assert(self@ =~= finished(v));
            return ArchivePlanAction::Fail(ArchivePlanFailure::UnsafePath);
        }
        if self.segment_index < n - 1 {
            let seg = self.files[self.file_index][self.segment_index].clone();
            assert(seg@ == v.files[v.file_index][v.segment_index]);
            let path = if self.current_path.as_str().is_empty() {
                seg.clone()
            } else {
                let mut p = copy_str(self.current_path.as_str());
                push_char(&mut p, '/');
                concat_str(p.as_str(), seg.as_str())
            };
            assert(path@ == extend_path(v.current_path, seg@));
            if contains_text_in(&self.planned_files, path.as_str()) {
                self.phase = ArchivePlanPhase::Finished;
                assert(self@ =~= finished(v));
                return ArchivePlanAction::Fail(ArchivePlanFailure::TargetConflict);
            }
            if contains_text_in(&self.planned_folders, path.as_str()) {
                self.current_path = path;
                self.parent_is_existing = false;
                self.current_parent = None;
                self.segment_index = self.segment_index + 1;
                assert(self@ =~= walk_step(v).0);
                return ArchivePlanAction::Continue;
            }
            if self.parent_is_existing {
                self.current_path = path;
                self.phase = ArchivePlanPhase::AwaitFolderLookup;
                assert(self@ =~= walk_step(v).0);
                return ArchivePlanAction::FindChild {
                    parent_node_id: self.current_parent.clone(),
                    name: seg,
                };
            }
            self.planned_folders.push(path.clone());
            self.current_path = path;
            self.current_parent = None;
            self.segment_index = self.segment_index + 1;
            assert(self@ =~= walk_step(v).0);
            return ArchivePlanAction::Continue;
        }
        let file_path = join_with_slash(&self.files[self.file_index]);
        if contains_text_in(&self.planned_folders, file_path.as_str()) || contains_text_in(
            &self.planned_files,
            file_path.as_str(),
        ) {
            self.phase = ArchivePlanPhase::Finished;
            assert(self@ =~= finished(v));
            return ArchivePlanAction::Fail(ArchivePlanFailure::TargetConflict);
        }
        self.planned_files.push(file_path);
        if self.parent_is_existing {
            self.phase = ArchivePlanPhase::AwaitFileLookup;
            let name = self.files[self.file_index][n - 1].clone();
            assert(name@ == v.files[v.file_index].last());
            assert(self@ =~= walk_step(v).0);
            return ArchivePlanAction::FindChild { parent_node_id: self.current_parent.clone(), name };
        }
        self.phase = ArchivePlanPhase::AwaitParentCheck;
        assert(self@ =~= walk_step(v).0);
        proof {
            reveal_strlit("__planned_archive_folder__");
        }
        ArchivePlanAction::CheckFileParent {
            parent_node_id: Some(copy_str("__planned_archive_folder__")),
        }
    }

    /// Takes in the child found by the last lookup, if any.
    pub fn record_child(&mut self, found: Option<ArchiveChild>) -> (r: ArchivePlanAction)
        requires
            archive_plan_wf(old(self)@),
            old(self)@.phase == ArchivePlanPhase::AwaitFolderLookup || old(self)@.phase
                == ArchivePlanPhase::AwaitFileLookup,
        ensures
            archive_plan_wf(final(self)@),
            final(self)@ == child_step(
                old(self)@,
                child_view(found),
            ).0,
            action_view(r) == child_step(
                old(self)@,
                child_view(found),
            ).1,
    {
        let ghost v = self@;
        let ghost fv = child_view(found);
        proof {
            child_step_keeps_plan_apart(v, fv);
            assert(v.files[v.file_index] == views(self.files@[self.file_index as int]@));
        }
        assert(self.file_index < self.files.len());
        let n = self.files[self.file_index].len();
        if self.phase == ArchivePlanPhase::AwaitFolderLookup {
            assert(self.segment_index < n);
            match found {
                Some(c) => {
                    if !(text_eq(c.lifecycle_status.as_str(), "active") && text_eq(
                        c.node_type.as_str(),
                        "folder",
                    )) {
                        self.phase = ArchivePlanPhase::Finished;
                        assert(self@ =~= finished(v));
                        return ArchivePlanAction::Fail(ArchivePlanFailure::TargetConflict);
                    }
                    self.current_parent = Some(c.id);
                    self.segment_index = self.segment_index + 1;
                    self.phase = ArchivePlanPhase::Walking;
                    assert(self@ =~= child_step(v, fv).0);
                    ArchivePlanAction::Continue
                },
                None => {
                    self.planned_folders.push(self.current_path.clone());
                    self.parent_is_existing = false;
                    self.current_parent = None;
                    self.segment_index = self.segment_index + 1;
                    self.phase = ArchivePlanPhase::Walking;
                    assert(self@ =~= child_step(v, fv).0);
                    ArchivePlanAction::Continue
                },
            }
        } else {
            match found {
                Some(_) => {
                    self.phase = ArchivePlanPhase::Finished;
                    assert(self@ =~= finished(v));
                    ArchivePlanAction::Fail(ArchivePlanFailure::TargetConflict)
                },
                None => {
                    self.phase = ArchivePlanPhase::AwaitParentCheck;
                    assert(self@ =~= child_step(v, fv).0);
                    ArchivePlanAction::CheckFileParent { parent_node_id: self.current_parent.clone() }
                },
            }
        }
    }

    /// Takes in that the file's parent accepts it, and moves to the next
    /// entry.
    pub fn record_parent_checked(&mut self)
        requires
            archive_plan_wf(old(self)@),
            old(self)@.phase == ArchivePlanPhase::AwaitParentCheck,
        ensures
            archive_plan_wf(final(self)@),
            final(self)@ == parent_checked_step(old(self)@),
    {
        let ghost v = self@;
        assert(v.files.len() == self.files@.len());
        let total = self.files.len();
        assert(self.file_index < total);
        self.file_index = self.file_index + 1;
        self.segment_index = 0;
        self.current_path = String::new();
        self.current_parent = self.root_parent.clone();
        self.parent_is_existing = true;
        self.phase = ArchivePlanPhase::Walking;
        assert(self@ =~= parent_checked_step(v));
    }
}

/// A lookup of an entry's target decides the plan as follows. For the file
/// itself, any existing child of that name is a conflict that ends the plan;
/// only when none exists is the file's parent checked. For a folder on the
/// way, an existing active folder is entered, anything else of that name is
/// a conflict, and a missing one is planned.
pub proof fn lookups_refuse_taken_targets(
    v: ArchivePlanView,
    found: Option<(Seq<char>, Seq<char>, Seq<char>)>,
    next: ArchivePlanView,
    action: ArchiveActionView,
)
    requires
        v.phase == ArchivePlanPhase::AwaitFolderLookup || v.phase == ArchivePlanPhase::AwaitFileLookup,
        (next, action) == child_step(v, found),
    ensures
        v.phase == ArchivePlanPhase::AwaitFileLookup ==> (found is Some <==> action
            == ArchiveActionView::Fail(ArchivePlanFailure::TargetConflict)),
        v.phase == ArchivePlanPhase::AwaitFileLookup && found is Some ==> next.phase
            == ArchivePlanPhase::Finished,
        v.phase == ArchivePlanPhase::AwaitFileLookup && found is None ==> action
            == ArchiveActionView::CheckFileParent(v.current_parent) && next.phase
            == ArchivePlanPhase::AwaitParentCheck,
        v.phase == ArchivePlanPhase::AwaitFolderLookup ==> (found matches Some((id, status, node_type))
            ==> if status == "active"@ && node_type == "folder"@ {
            action == ArchiveActionView::Continue && next.current_parent == Some(id)
        } else {
            action == ArchiveActionView::Fail(ArchivePlanFailure::TargetConflict) && next.phase
                == ArchivePlanPhase::Finished
        }),
        v.phase == ArchivePlanPhase::AwaitFolderLookup && found is None ==> action
            == ArchiveActionView::Continue && next.folders == v.folders.push(v.current_path),
{
}

} // verus!

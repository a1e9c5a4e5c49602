//! Deleting a version of a file: the logical version record first, else the
//! stored object of that id, never the only active version.
use vstd::prelude::*;
use crate::errors::{ProblemDetail, problem_is, not_found_problem, STATUS_NOT_FOUND, STATUS_CONFLICT};
use crate::text::{copy_str, text_eq};
use crate::uploads::conflict_problem;
use crate::nodes::DriveNodeResponse;

verus! {

/// Where a version deletion stands.
#[derive(Debug, Clone)]
pub enum VersionDeletionState {
    /// Nothing looked up yet.
    Start,
    /// An active logical version was found; its siblings are being counted.
    CountingLogicalVersions { storage_object_id: Option<String> },
    /// The logical version is being marked deleted.
    DeletingLogicalVersion { storage_object_id: Option<String> },
    /// The logical version's storage object is being marked deleted.
    RetiringStorageObject,
    /// No logical version: the stored object of that id is looked up.
    FindingStorageObject,
    /// An active stored object was found; the active objects are counted.
    CountingStorageObjects { lifecycle_status: String },
    /// The stored object is being marked deleted.
    DeletingStorageObject { lifecycle_status: String },
    /// The deletion is being recorded as a change.
    RecordingChange,
    /// The deletion is answered.
    Finished,
}

/// What the store answered.
#[derive(Debug, Clone)]
pub enum VersionDeletionEvent {
    LogicalVersionFound { lifecycle_status: String, storage_object_id: Option<String> },
    LogicalVersionMissing,
    ActiveCount(i64),
    Updated(u64),
    StorageObjectRetired,
    StorageObjectFound { lifecycle_status: String },
    StorageObjectMissing,
    ChangeRecorded,
}

/// Why a deletion is refused.
#[derive(Debug, Clone, Copy, PartialEq, Eq)]
pub enum VersionDeletionFailure {
    OnlyActiveVersion,
    VersionNotFound,
}

/// What to do next.
#[derive(Debug, Clone)]
pub enum VersionDeletionAction {
    FindLogicalVersion,
    CountActiveLogicalVersions,
    DeleteLogicalVersion,
    RetireStorageObject(String),
    FindStorageObject,
    CountActiveStorageObjects,
    DeleteStorageObject,
    /// Record a change of this event type.
    RecordChange { event_type: String },
    /// Answer whether a version was deleted.
    Respond(bool),
    Fail(VersionDeletionFailure),
}

/// The store's answer fits the step the deletion is at.
pub open spec fn event_fits(state: VersionDeletionState, event: VersionDeletionEvent) -> bool {
    match state {
        VersionDeletionState::Start => event is LogicalVersionFound || event is LogicalVersionMissing,
        VersionDeletionState::CountingLogicalVersions { .. } => event is ActiveCount,
        VersionDeletionState::DeletingLogicalVersion { .. } => event is Updated,
        VersionDeletionState::RetiringStorageObject => event is StorageObjectRetired,
        VersionDeletionState::FindingStorageObject => event is StorageObjectFound
            || event is StorageObjectMissing,
        VersionDeletionState::CountingStorageObjects { .. } => event is ActiveCount,
        VersionDeletionState::DeletingStorageObject { .. } => event is Updated,
        VersionDeletionState::RecordingChange => event is ChangeRecorded,
        VersionDeletionState::Finished => false,
    }
}

/// The action that records a deletion: a `version.deleted` change.
pub open spec fn records_deletion(action: VersionDeletionAction) -> bool {
    action matches VersionDeletionAction::RecordChange { event_type } && event_type@ == "version.deleted"@
}

fn deleted_change() -> (a: VersionDeletionAction)
    ensures
        records_deletion(a),
{
    VersionDeletionAction::RecordChange { event_type: copy_str("version.deleted") }
}

/// The step of a deletion: the next state and action after `event`.
pub open spec fn deletion_step_is(
    state: VersionDeletionState,
    event: VersionDeletionEvent,
    next: VersionDeletionState,
    action: VersionDeletionAction,
) -> bool {
    match (state, event) {
        (
            VersionDeletionState::Start,
            VersionDeletionEvent::LogicalVersionFound { lifecycle_status, storage_object_id },
        ) => if lifecycle_status@ == "active"@ {
            next == (VersionDeletionState::CountingLogicalVersions { storage_object_id })
                && action is CountActiveLogicalVersions
        } else {
            next == (VersionDeletionState::DeletingLogicalVersion { storage_object_id })
                && action is DeleteLogicalVersion
        },
        (VersionDeletionState::Start, VersionDeletionEvent::LogicalVersionMissing) => next
            is FindingStorageObject && action is FindStorageObject,
        (
            VersionDeletionState::CountingLogicalVersions { storage_object_id },
            VersionDeletionEvent::ActiveCount(n),
        ) => if n <= 1 {
            next is Finished && action == VersionDeletionAction::Fail(
                VersionDeletionFailure::OnlyActiveVersion,
            )
        } else {
            next == (VersionDeletionState::DeletingLogicalVersion { storage_object_id })
                && action is DeleteLogicalVersion
        },
        (
            VersionDeletionState::DeletingLogicalVersion { storage_object_id },
            VersionDeletionEvent::Updated(affected),
        ) => if affected == 0 {
            next is Finished && action == VersionDeletionAction::Respond(false)
        } else {
            match storage_object_id {
                Some(id) => next is RetiringStorageObject && action
                    == VersionDeletionAction::RetireStorageObject(id),
                None => next is RecordingChange && records_deletion(action),
            }
        },
        (VersionDeletionState::RetiringStorageObject, VersionDeletionEvent::StorageObjectRetired) => next
            is RecordingChange && records_deletion(action),
        (VersionDeletionState::FindingStorageObject, VersionDeletionEvent::StorageObjectMissing) => next
            is Finished && action == VersionDeletionAction::Fail(
            VersionDeletionFailure::VersionNotFound,
        ),
        (
            VersionDeletionState::FindingStorageObject,
            VersionDeletionEvent::StorageObjectFound { lifecycle_status },
        ) => if lifecycle_status@ == "active"@ {
            next == (VersionDeletionState::CountingStorageObjects { lifecycle_status })
                && action is CountActiveStorageObjects
        } else {
            next == (VersionDeletionState::DeletingStorageObject { lifecycle_status })
                && action is DeleteStorageObject
        },
        (
            VersionDeletionState::CountingStorageObjects { lifecycle_status },
            VersionDeletionEvent::ActiveCount(n),
        ) => if n <= 1 {
            next is Finished && action == VersionDeletionAction::Fail(
                VersionDeletionFailure::OnlyActiveVersion,
            )
        } else {
            next == (VersionDeletionState::DeletingStorageObject { lifecycle_status })
                && action is DeleteStorageObject
        },
        (
            VersionDeletionState::DeletingStorageObject { lifecycle_status },
            VersionDeletionEvent::Updated(affected),
        ) => if affected > 0 {
            next is RecordingChange && records_deletion(action)
        } else if lifecycle_status@ != "deleted"@ {
            next is Finished && action == VersionDeletionAction::Fail(
                VersionDeletionFailure::VersionNotFound,
            )
        } else {
            next is Finished && action == VersionDeletionAction::Respond(false)
        },
        (VersionDeletionState::RecordingChange, VersionDeletionEvent::ChangeRecorded) => next
            is Finished && action == VersionDeletionAction::Respond(true),
        _ => false,
    }
}

/// The first action of a deletion: look up the logical version.
pub fn start_version_deletion() -> (r: (VersionDeletionState, VersionDeletionAction))
    ensures
        r.0 is Start,
        r.1 is FindLogicalVersion,
{
    (VersionDeletionState::Start, VersionDeletionAction::FindLogicalVersion)
}

/// Takes the store's answer and says what to do next.
pub fn step_version_deletion(state: VersionDeletionState, event: VersionDeletionEvent) -> (r: (
    VersionDeletionState,
    VersionDeletionAction,
))
    requires
        event_fits(state, event),
    ensures
        deletion_step_is(state, event, r.0, r.1),
{
    match (state, event) {
        (
            VersionDeletionState::Start,
            VersionDeletionEvent::LogicalVersionFound { lifecycle_status, storage_object_id },
        ) => {
            if text_eq(lifecycle_status.as_str(), "active") {
                (
                    VersionDeletionState::CountingLogicalVersions { storage_object_id },
                    VersionDeletionAction::CountActiveLogicalVersions,
                )
            } else {
                (
                    VersionDeletionState::DeletingLogicalVersion { storage_object_id },
                    VersionDeletionAction::DeleteLogicalVersion,
                )
            }
        },
        (VersionDeletionState::Start, _) => (
            VersionDeletionState::FindingStorageObject,
            VersionDeletionAction::FindStorageObject,
        ),
        (
            VersionDeletionState::CountingLogicalVersions { storage_object_id },
            VersionDeletionEvent::ActiveCount(n),
        ) => {
            if n <= 1 {
                (
                    VersionDeletionState::Finished,
                    VersionDeletionAction::Fail(VersionDeletionFailure::OnlyActiveVersion),
                )
            } else {
                (
                    VersionDeletionState::DeletingLogicalVersion { storage_object_id },
                    VersionDeletionAction::DeleteLogicalVersion,
                )
            }
        },
        (
            VersionDeletionState::DeletingLogicalVersion { storage_object_id },
            VersionDeletionEvent::Updated(affected),
        ) => {
            if affected == 0 {
                (VersionDeletionState::Finished, VersionDeletionAction::Respond(false))
            } else {
                match storage_object_id {
                    Some(id) => (
                        VersionDeletionState::RetiringStorageObject,
                        VersionDeletionAction::RetireStorageObject(id),
                    ),
                    None => (
                        VersionDeletionState::RecordingChange,
                        deleted_change(),
                    ),
                }
            }
        },
        (VersionDeletionState::RetiringStorageObject, _) => (
            VersionDeletionState::RecordingChange,
            deleted_change(),
        ),
        (
            VersionDeletionState::FindingStorageObject,
            VersionDeletionEvent::StorageObjectFound { lifecycle_status },
        ) => {
            if text_eq(lifecycle_status.as_str(), "active") {
                (
                    VersionDeletionState::CountingStorageObjects { lifecycle_status },
                    VersionDeletionAction::CountActiveStorageObjects,
                )
            } else {
                (
                    VersionDeletionState::DeletingStorageObject { lifecycle_status },
                    VersionDeletionAction::DeleteStorageObject,
                )
            }
        },
        (VersionDeletionState::FindingStorageObject, _) => (
            VersionDeletionState::Finished,
            VersionDeletionAction::Fail(VersionDeletionFailure::VersionNotFound),
        ),
        (
            VersionDeletionState::CountingStorageObjects { lifecycle_status },
            VersionDeletionEvent::ActiveCount(n),
        ) => {
            if n <= 1 {
                (
                    VersionDeletionState::Finished,
                    VersionDeletionAction::Fail(VersionDeletionFailure::OnlyActiveVersion),
                )
            } else {
                (
                    VersionDeletionState::DeletingStorageObject { lifecycle_status },
                    VersionDeletionAction::DeleteStorageObject,
                )
            }
        },
        (
            VersionDeletionState::DeletingStorageObject { lifecycle_status },
            VersionDeletionEvent::Updated(affected),
        ) => {
            if affected > 0 {
                (VersionDeletionState::RecordingChange, deleted_change())
            } else if !text_eq(lifecycle_status.as_str(), "deleted") {
                (
                    VersionDeletionState::Finished,
                    VersionDeletionAction::Fail(VersionDeletionFailure::VersionNotFound),
                )
            } else {
                (VersionDeletionState::Finished, VersionDeletionAction::Respond(false))
            }
        },
        (_, _) => (VersionDeletionState::Finished, VersionDeletionAction::Respond(true)),
    }
}

/// The problem a refused deletion is answered with.
pub fn version_deletion_problem(failure: VersionDeletionFailure) -> (p: ProblemDetail)
    ensures
        failure is OnlyActiveVersion ==> problem_is(
            p,
            STATUS_CONFLICT,
            "conflict"@,
            "cannot delete the only active version"@,
            "drive.conflict"@,
        ),
        failure is VersionNotFound ==> problem_is(
            p,
            STATUS_NOT_FOUND,
            "not found"@,
            "version not found"@,
            "drive.not_found"@,
        ),
{
    match failure {
        VersionDeletionFailure::OnlyActiveVersion => conflict_problem(
            copy_str("cannot delete the only active version"),
        ),
        VersionDeletionFailure::VersionNotFound => not_found_problem(copy_str("version not found")),
    }
}

/// A deletion never removes the only active version: whenever the count of
/// active versions is one or fewer, the step refuses.
pub proof fn only_active_version_is_kept(
    state: VersionDeletionState,
    n: i64,
    next: VersionDeletionState,
    action: VersionDeletionAction,
)
    requires
        state is CountingLogicalVersions || state is CountingStorageObjects,
        n <= 1,
        deletion_step_is(state, VersionDeletionEvent::ActiveCount(n), next, action),
    ensures
        next is Finished,
        action == VersionDeletionAction::Fail(VersionDeletionFailure::OnlyActiveVersion),
{
}

/// A deletion keeps the node an active version: it orders the delete of a
/// version only when that version is not active, or after counting at
/// least two active versions.
pub proof fn deleting_leaves_an_active_version(
    state: VersionDeletionState,
    event: VersionDeletionEvent,
    next: VersionDeletionState,
    action: VersionDeletionAction,
)
    requires
        deletion_step_is(state, event, next, action),
        action is DeleteLogicalVersion || action is DeleteStorageObject,
    ensures
        (event matches VersionDeletionEvent::LogicalVersionFound { lifecycle_status, .. }
            && lifecycle_status@ != "active"@)
            || (event matches VersionDeletionEvent::StorageObjectFound { lifecycle_status }
            && lifecycle_status@ != "active"@)
            || (event matches VersionDeletionEvent::ActiveCount(n) && n >= 2),
{
}

/// A deletion answers "deleted" only from recording the change, and
/// recording the change always answers "deleted".
pub proof fn deleted_answer_follows_recorded_change(
    state: VersionDeletionState,
    event: VersionDeletionEvent,
    next: VersionDeletionState,
    action: VersionDeletionAction,
)
    requires
        deletion_step_is(state, event, next, action),
    ensures
        action == VersionDeletionAction::Respond(true) <==> state is RecordingChange,
{
}

/// A delete that changed a row is recorded and answered as a deletion: from
/// deleting the stored object, an update of at least one row records a
/// `version.deleted` change; from deleting the logical version, it goes on
/// to retire the linked object or records that change; recording it answers
/// `deleted: true`. `deleted: false` is answered only when a delete changed
/// no row.
pub proof fn a_changed_row_is_answered_deleted(
    state: VersionDeletionState,
    event: VersionDeletionEvent,
    next: VersionDeletionState,
    action: VersionDeletionAction,
)
    requires
        deletion_step_is(state, event, next, action),
    ensures
        state is DeletingStorageObject ==> (event matches VersionDeletionEvent::Updated(n) ==> (n > 0
            ==> next is RecordingChange && (action matches VersionDeletionAction::RecordChange {
            event_type,
        } && event_type@ == "version.deleted"@))),
        state matches VersionDeletionState::DeletingLogicalVersion { storage_object_id } ==> (
        event matches VersionDeletionEvent::Updated(n) ==> (n > 0 ==> match storage_object_id {
            Some(id) => next is RetiringStorageObject && action
                == VersionDeletionAction::RetireStorageObject(id),
            None => next is RecordingChange && (action matches VersionDeletionAction::RecordChange {
                event_type,
            } && event_type@ == "version.deleted"@),
        })),
        state is RetiringStorageObject ==> (next is RecordingChange && (
        action matches VersionDeletionAction::RecordChange { event_type }
            && event_type@ == "version.deleted"@)),
        state is RecordingChange ==> action == VersionDeletionAction::Respond(true),
        action == VersionDeletionAction::Respond(false) ==> event == VersionDeletionEvent::Updated(0),
{
}

/// Where a version restore stands; each state keeps the node as it was read
/// before the restore, which is the answer.
#[derive(Debug, Clone)]
pub enum VersionRestoreState {
    /// Nothing looked up yet.
    Start { node: DriveNodeResponse },
    /// The logical version is being reactivated.
    RestoringLogicalVersion { storage_object_id: Option<String>, node: DriveNodeResponse },
    /// The logical version's storage object is being reactivated.
    RestoringStorageObject { node: DriveNodeResponse },
    /// No logical version: the stored object of that id is reactivated.
    RestoringStoredVersion { node: DriveNodeResponse },
    /// The restore is being recorded as a change.
    RecordingChange { node: DriveNodeResponse },
    /// The restore is answered.
    Finished,
}

/// What the store answered a restore.
#[derive(Debug, Clone)]
pub enum VersionRestoreEvent {
    LogicalVersionFound { storage_object_id: Option<String> },
    LogicalVersionMissing,
    Updated(u64),
    StorageObjectRestored,
    ChangeRecorded,
}

/// What a restore does next.
#[derive(Debug, Clone)]
pub enum VersionRestoreAction {
    FindLogicalVersion,
    RestoreLogicalVersion,
    RestoreStorageObject(String),
    RestoreStoredVersion,
    /// Record a change of this event type.
    RecordChange { event_type: String },
    /// Answer with the node.
    Respond(DriveNodeResponse),
    /// No version of that id: not found.
    NotFound,
}

/// The store's answer fits the step the restore is at.
pub open spec fn restore_event_fits(state: VersionRestoreState, event: VersionRestoreEvent) -> bool {
    match state {
        VersionRestoreState::Start { .. } => event is LogicalVersionFound || event is LogicalVersionMissing,
        VersionRestoreState::RestoringLogicalVersion { .. } => event is Updated,
        VersionRestoreState::RestoringStorageObject { .. } => event is StorageObjectRestored,
        VersionRestoreState::RestoringStoredVersion { .. } => event is Updated,
        VersionRestoreState::RecordingChange { .. } => event is ChangeRecorded,
        VersionRestoreState::Finished => false,
    }
}

/// The action that records a restore: a `version.restored` change.
pub open spec fn records_restore(action: VersionRestoreAction) -> bool {
    action matches VersionRestoreAction::RecordChange { event_type } && event_type@ == "version.restored"@
}

/// The step of a restore.
pub open spec fn restore_step_is(
    state: VersionRestoreState,
    event: VersionRestoreEvent,
    next: VersionRestoreState,
    action: VersionRestoreAction,
) -> bool {
    match (state, event) {
        (
            VersionRestoreState::Start { node },
            VersionRestoreEvent::LogicalVersionFound { storage_object_id },
        ) => next == (VersionRestoreState::RestoringLogicalVersion { storage_object_id, node })
            && action is RestoreLogicalVersion,
        (VersionRestoreState::Start { node }, VersionRestoreEvent::LogicalVersionMissing) => next
            == (VersionRestoreState::RestoringStoredVersion { node }) && action is RestoreStoredVersion,
        (
            VersionRestoreState::RestoringLogicalVersion { storage_object_id, node },
            VersionRestoreEvent::Updated(affected),
        ) => if affected == 0 {
            next is Finished && action is NotFound
        } else {
            match storage_object_id {
                Some(id) => next == (VersionRestoreState::RestoringStorageObject { node }) && action
                    == VersionRestoreAction::RestoreStorageObject(id),
                None => next == (VersionRestoreState::RecordingChange { node }) && records_restore(action),
            }
        },
        (
            VersionRestoreState::RestoringStorageObject { node },
            VersionRestoreEvent::StorageObjectRestored,
        ) => next == (VersionRestoreState::RecordingChange { node }) && records_restore(action),
        (VersionRestoreState::RestoringStoredVersion { node }, VersionRestoreEvent::Updated(affected)) => if affected
            == 0 {
            next is Finished && action is NotFound
        } else {
            next == (VersionRestoreState::RecordingChange { node }) && records_restore(action)
        },
        (VersionRestoreState::RecordingChange { node }, VersionRestoreEvent::ChangeRecorded) => next
            is Finished && action == VersionRestoreAction::Respond(node),
        _ => false,
    }
}

/// The first action of a restore of a version of `node`, the active node as
/// read: look up the logical version.
pub fn start_version_restore(node: DriveNodeResponse) -> (r: (VersionRestoreState, VersionRestoreAction))
    ensures
        r.0 == (VersionRestoreState::Start { node }),
        r.1 is FindLogicalVersion,
{
    (VersionRestoreState::Start { node }, VersionRestoreAction::FindLogicalVersion)
}

fn restored_change() -> (a: VersionRestoreAction)
    ensures
        records_restore(a),
{
    VersionRestoreAction::RecordChange { event_type: copy_str("version.restored") }
}

/// Takes the store's answer to a restore and says what to do next.
pub fn step_version_restore(state: VersionRestoreState, event: VersionRestoreEvent) -> (r: (
    VersionRestoreState,
    VersionRestoreAction,
))
    requires
        restore_event_fits(state, event),
    ensures
        restore_step_is(state, event, r.0, r.1),
{
    match (state, event) {
        (
            VersionRestoreState::Start { node },
            VersionRestoreEvent::LogicalVersionFound { storage_object_id },
        ) => (
            VersionRestoreState::RestoringLogicalVersion { storage_object_id, node },
            VersionRestoreAction::RestoreLogicalVersion,
        ),
        (VersionRestoreState::Start { node }, _) => (
            VersionRestoreState::RestoringStoredVersion { node },
            VersionRestoreAction::RestoreStoredVersion,
        ),
        (
            VersionRestoreState::RestoringLogicalVersion { storage_object_id, node },
            VersionRestoreEvent::Updated(affected),
        ) => {
            if affected == 0 {
                (VersionRestoreState::Finished, VersionRestoreAction::NotFound)
            } else {
                match storage_object_id {
                    Some(id) => (
                        VersionRestoreState::RestoringStorageObject { node },
                        VersionRestoreAction::RestoreStorageObject(id),
                    ),
                    None => (VersionRestoreState::RecordingChange { node }, restored_change()),
                }
            }
        },
        (VersionRestoreState::RestoringStorageObject { node }, _) => (
            VersionRestoreState::RecordingChange { node },
            restored_change(),
        ),
        (VersionRestoreState::RestoringStoredVersion { node }, VersionRestoreEvent::Updated(affected)) => {
            if affected == 0 {
                (VersionRestoreState::Finished, VersionRestoreAction::NotFound)
            } else {
                (VersionRestoreState::RecordingChange { node }, restored_change())
            }
        },
        (VersionRestoreState::RecordingChange { node }, _) => (
            VersionRestoreState::Finished,
            VersionRestoreAction::Respond(node),
        ),
        (_, _) => (VersionRestoreState::Finished, VersionRestoreAction::NotFound),
    }
}

/// A restore answers with the node as it was read before the restore, and
/// only after recording a `version.restored` change.
pub proof fn restore_answers_the_node_read_before(
    state: VersionRestoreState,
    event: VersionRestoreEvent,
    next: VersionRestoreState,
    action: VersionRestoreAction,
)
    requires
        restore_step_is(state, event, next, action),
        action is Respond,
    ensures
        state == (VersionRestoreState::RecordingChange { node: action->Respond_0 }),
        event is ChangeRecorded,
{
}

/// A restore answers "not found" only when its reactivation changed no row;
/// a reactivated logical version or stored object is recorded as a
/// `version.restored` change before the restore is answered.
pub proof fn restore_not_found_only_without_a_row(
    state: VersionRestoreState,
    event: VersionRestoreEvent,
    next: VersionRestoreState,
    action: VersionRestoreAction,
)
    requires
        restore_step_is(state, event, next, action),
    ensures
        action is NotFound ==> event == VersionRestoreEvent::Updated(0),
        (state is RestoringStoredVersion || state is RestoringStorageObject) ==> (event matches VersionRestoreEvent::Updated(n)
            ==> n > 0 ==> (action matches VersionRestoreAction::RecordChange { event_type }
            && event_type@ == "version.restored"@)),
        state is RestoringStorageObject ==> (action matches VersionRestoreAction::RecordChange {
            event_type,
        } && event_type@ == "version.restored"@),
{
}

} // verus!

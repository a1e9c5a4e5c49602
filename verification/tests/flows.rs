use sdkwork_drive::acl::{list_access_step, role_check_outcome, ListAccessStep};
use sdkwork_drive::changes::{
    change_record_rows, node_version_committed_rows, RecordDriveChangeCommand,
    RecordDriveNodeVersionCommittedCommand,
};
use sdkwork_drive::hierarchy::{
    live_name_conflict_outcome, plan_node_move_write, RestoreSubtreeAction, RestoreSubtreeCheck,
};
use sdkwork_drive::nodes::DriveNodeResponse;
use sdkwork_drive::trash::EmptyTrashTally;
use sdkwork_drive::uploads::{
    check_part_presign, decide_upload_session_start, node_id_available_outcome, plan_part_presign,
    UploadSessionRecord, UploadSessionStart,
};

fn drive_node(id: &str, parent: Option<&str>, node_type: &str) -> DriveNodeResponse {
    DriveNodeResponse {
        id: id.to_string(),
        tenant_id: "t".to_string(),
        space_id: "s".to_string(),
        space_type: None,
        parent_node_id: parent.map(str::to_string),
        shortcut_target_node_id: None,
        node_type: node_type.to_string(),
        node_name: "name".to_string(),
        scene: None,
        source: None,
        lifecycle_status: "active".to_string(),
        version: 4,
    }
}

fn upload_session(state: &str) -> UploadSessionRecord {
    UploadSessionRecord {
        id: "us-1".to_string(),
        tenant_id: "t1".to_string(),
        space_id: "s1".to_string(),
        node_id: "n1".to_string(),
        bucket: "b".to_string(),
        object_key: "k".to_string(),
        idempotency_key: "idem".to_string(),
        storage_provider_id: "p".to_string(),
        storage_upload_id: "up-1".to_string(),
        state: state.to_string(),
        expires_at_epoch_ms: 10,
        version: 1,
    }
}

#[test]
fn live_siblings_with_the_name_conflict() {
    let p = live_name_conflict_outcome(1).unwrap_err();
    assert_eq!((p.status, p.detail.as_str()), (409, "node name already exists in parent"));
    assert!(live_name_conflict_outcome(0).is_ok());
    assert_eq!(node_id_available_outcome(2).unwrap_err().detail, "node id already exists");
    assert!(node_id_available_outcome(0).is_ok());
}

#[test]
fn a_moved_node_keeps_its_name_under_the_new_parent() {
    let current = drive_node("n1", Some("p1"), "file");
    let (write, answer) = plan_node_move_write(&current, Some("p2".to_string()));
    assert_eq!(write.parent_node_id.as_deref(), Some("p2"));
    assert_eq!(write.node_name, "name");
    assert_eq!(write.version, 5);
    assert_eq!(write.change_event_type, "node.moved");
    assert_eq!(answer.parent_node_id.as_deref(), Some("p2"));
    assert_eq!(answer.node_name, "name");
    assert_eq!(answer.version, 5);
    let (_, to_root) = plan_node_move_write(&current, None);
    assert_eq!(to_root.parent_node_id, None);
}

#[test]
fn listing_a_space_needs_ownership_or_reading() {
    assert!(matches!(list_access_step(true, &None), ListAccessStep::Allowed));
    match list_access_step(false, &Some("p1".to_string())) {
        ListAccessStep::CheckReader { node_id } => assert_eq!(node_id, "p1"),
        other => panic!("unexpected {:?}", other),
    }
    assert!(matches!(list_access_step(false, &None), ListAccessStep::ResolveAnchor));
    let p = role_check_outcome(false).unwrap_err();
    assert_eq!((p.status, p.code.as_str()), (403, "drive.permission_denied"));
    assert!(role_check_outcome(true).is_ok());
}

#[test]
fn only_writable_trashed_nodes_are_deleted() {
    let mut tally = EmptyTrashTally::new();
    assert!(tally.record_checked("s1".to_string(), true));
    assert!(!tally.record_checked("s2".to_string(), false));
    assert!(tally.record_checked("s1".to_string(), true));
    assert_eq!(tally.deleted_count(), 2);
    assert_eq!(tally.changed_spaces(), &vec!["s1".to_string()]);
}

#[test]
fn presigning_a_part_checks_then_plans() {
    assert_eq!(
        check_part_presign(&upload_session("uploading"), 0, None).unwrap_err().detail,
        "partNo must be between 1 and 10000"
    );
    assert_eq!(check_part_presign(&upload_session("aborted"), 1, None).unwrap_err().status, 409);
    assert_eq!(
        check_part_presign(&upload_session("created"), 1, Some(" ".to_string())).unwrap_err().detail,
        "uploadId must not be empty"
    );
    assert!(check_part_presign(&upload_session("created"), 2, Some("up-1".to_string())).is_ok());
    let plan = plan_part_presign(&upload_session("created"), 2, None, 1_000).unwrap();
    assert_eq!(plan.part_no, 2);
    assert_eq!(plan.upload_id, "up-1");
    assert_eq!(plan.expires_at_epoch_ms, 121_000);
    assert_eq!(plan.session_state, "uploading");
    assert_eq!((plan.bucket.as_str(), plan.object_key.as_str()), ("b", "k"));
    assert!(plan_part_presign(&upload_session("created"), 2, Some(10), 1_000).is_err());
}

#[test]
fn a_change_and_its_outbox_row_share_the_sequence_number() {
    let command = RecordDriveChangeCommand {
        tenant_id: "t1",
        space_id: "s1",
        node_id: None,
        event_type: "trash.emptied",
        actor_id: "u1",
    };
    let rows = change_record_rows(command, 9, "{}".to_string());
    assert_eq!((rows.change_sequence_no, rows.outbox_sequence_no), (9, 9));
    assert_eq!(rows.delivery_status, "pending");
    assert_eq!(rows.node_id, None);
    let committed = RecordDriveNodeVersionCommittedCommand {
        tenant_id: "t1",
        organization_id: None,
        space_id: "s1",
        node_id: "n1",
        node_version_id: "v1",
        version_no: 2,
        operation_id: "op",
        content_type: "text/plain",
        content_length: 3,
        checksum_sha256_hex: "abc",
        actor_id: "u1",
    };
    let rows = node_version_committed_rows(committed, "node.version.committed", 10, "{\"a\":1}".to_string());
    assert_eq!(rows.node_id.as_deref(), Some("n1"));
    assert_eq!(rows.event_type, "node.version.committed");
    assert_eq!((rows.change_sequence_no, rows.outbox_sequence_no), (10, 10));
}

#[test]
fn an_upload_session_request_replays_the_session_of_its_key() {
    match decide_upload_session_start(Some(upload_session("created")), 1).unwrap() {
        UploadSessionStart::Replay(s) => assert_eq!(s.id, "us-1"),
        other => panic!("unexpected {:?}", other),
    }
    assert_eq!(
        decide_upload_session_start(None, 1).unwrap_err().detail,
        "upload session id already exists"
    );
    assert!(matches!(decide_upload_session_start(None, 0).unwrap(), UploadSessionStart::Create));
}

#[test]
fn a_restored_subtree_needs_active_folder_parents() {
    let nodes = vec![drive_node("f1", Some("root"), "folder"), drive_node("a", Some("f1"), "file")];
    let (mut check, action) = RestoreSubtreeCheck::new(nodes);
    assert!(matches!(action, RestoreSubtreeAction::CheckGitRoot { .. }));
    match check.record_git_root(Ok(())) {
        RestoreSubtreeAction::LookupParent { parent_id } => assert_eq!(parent_id, "root"),
        other => panic!("unexpected {:?}", other),
    }
    let action = check.record_parent_row(Some(("s".to_string(), "folder".to_string(), "active".to_string())));
    assert!(matches!(action, RestoreSubtreeAction::CheckGitRoot { .. }));
    assert!(matches!(check.record_git_root(Ok(())), RestoreSubtreeAction::Done));

    let nodes = vec![drive_node("x", Some("root"), "file")];
    let (mut check, _) = RestoreSubtreeCheck::new(nodes);
    check.record_git_root(Ok(()));
    match check.record_parent_row(Some(("s".to_string(), "folder".to_string(), "trashed".to_string()))) {
        RestoreSubtreeAction::Fail(p) => assert_eq!(p.detail, "parent node must be active before restore"),
        other => panic!("unexpected {:?}", other),
    }
    let (_, empty) = RestoreSubtreeCheck::new(Vec::new());
    assert!(matches!(empty, RestoreSubtreeAction::Done));
}

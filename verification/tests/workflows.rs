use sdkwork_drive::archive::{
    ArchiveChild, ArchiveExtractionPlanner, ArchivePlanAction, ArchivePlanFailure,
};
use sdkwork_drive::hierarchy::{
    ancestry_problem, check_git_root_space, check_restore_parent_row, check_target_parent,
    git_root_rule_applies, plan_node_move, plan_node_update, restore_parent_check, AncestryStep,
    AncestryWalk, RestoreParentCheck,
};
use sdkwork_drive::nodes::DriveNodeResponse;
use sdkwork_drive::outbox::{
    failed_attempt_status, settle_delivery_attempt, ChannelFanout, FanoutAction,
    OutboxDelivery, OutboxDispatchPass, OutboxStep, WatchChannelTarget,
};
use sdkwork_drive::trash::{plan_trash_listing, EmptyTrashTally, TrashScanKind};
use sdkwork_drive::versions::{
    start_version_deletion, step_version_deletion, step_version_restore, start_version_restore, version_deletion_problem,
    VersionDeletionAction, VersionDeletionEvent, VersionDeletionFailure, VersionDeletionState,
    VersionRestoreAction, VersionRestoreEvent, VersionRestoreState,
};

fn segs(path: &str) -> Vec<String> {
    path.split('/').map(str::to_string).collect()
}

#[test]
fn archive_planner_plans_new_folders_and_files() {
    let mut planner = ArchiveExtractionPlanner::new(vec![segs("docs/a.txt"), segs("docs/b.txt")], None);
    match planner.step() {
        ArchivePlanAction::FindChild { parent_node_id, name } => {
            assert_eq!(parent_node_id, None);
            assert_eq!(name, "docs");
        }
        other => panic!("unexpected {:?}", other),
    }
    assert!(matches!(planner.record_child(None), ArchivePlanAction::Continue));
    match planner.step() {
        ArchivePlanAction::CheckFileParent { parent_node_id } => {
            assert_eq!(parent_node_id.as_deref(), Some("__planned_archive_folder__"))
        }
        other => panic!("unexpected {:?}", other),
    }
    planner.record_parent_checked();
    assert!(matches!(planner.step(), ArchivePlanAction::Continue));
    assert!(matches!(planner.step(), ArchivePlanAction::CheckFileParent { .. }));
    planner.record_parent_checked();
    assert!(matches!(planner.step(), ArchivePlanAction::Done));
}

#[test]
fn archive_planner_rejects_clashes() {
    let mut twice = ArchiveExtractionPlanner::new(vec![segs("a.txt"), segs("a.txt")], Some("root".to_string()));
    assert!(matches!(twice.step(), ArchivePlanAction::FindChild { .. }));
    assert!(matches!(twice.record_child(None), ArchivePlanAction::CheckFileParent { .. }));
    twice.record_parent_checked();
    assert!(matches!(
        twice.step(),
        ArchivePlanAction::Fail(ArchivePlanFailure::TargetConflict)
    ));

    let mut over_file = ArchiveExtractionPlanner::new(vec![segs("x/y.txt")], None);
    assert!(matches!(over_file.step(), ArchivePlanAction::FindChild { .. }));
    let file = ArchiveChild {
        id: "n9".to_string(),
        lifecycle_status: "active".to_string(),
        node_type: "file".to_string(),
    };
    assert!(matches!(
        over_file.record_child(Some(file)),
        ArchivePlanAction::Fail(ArchivePlanFailure::TargetConflict)
    ));

    let mut empty = ArchiveExtractionPlanner::new(vec![Vec::new()], None);
    assert!(matches!(empty.step(), ArchivePlanAction::Fail(ArchivePlanFailure::UnsafePath)));
}

#[test]
fn archive_planner_walks_into_existing_folders() {
    let mut planner = ArchiveExtractionPlanner::new(vec![segs("x/y.txt")], None);
    assert!(matches!(planner.step(), ArchivePlanAction::FindChild { .. }));
    let folder = ArchiveChild {
        id: "f1".to_string(),
        lifecycle_status: "active".to_string(),
        node_type: "folder".to_string(),
    };
    assert!(matches!(planner.record_child(Some(folder)), ArchivePlanAction::Continue));
    match planner.step() {
        ArchivePlanAction::FindChild { parent_node_id, name } => {
            assert_eq!(parent_node_id.as_deref(), Some("f1"));
            assert_eq!(name, "y.txt");
        }
        other => panic!("unexpected {:?}", other),
    }
    match planner.record_child(None) {
        ArchivePlanAction::CheckFileParent { parent_node_id } => {
            assert_eq!(parent_node_id.as_deref(), Some("f1"))
        }
        other => panic!("unexpected {:?}", other),
    }
}

#[test]
fn version_deletion_keeps_the_only_active_version() {
    let (state, action) = start_version_deletion();
    assert!(matches!(action, VersionDeletionAction::FindLogicalVersion));
    let (state, action) = step_version_deletion(
        state,
        VersionDeletionEvent::LogicalVersionFound {
            lifecycle_status: "active".to_string(),
            storage_object_id: Some("obj".to_string()),
        },
    );
    assert!(matches!(action, VersionDeletionAction::CountActiveLogicalVersions));
    let (_, action) = step_version_deletion(state, VersionDeletionEvent::ActiveCount(1));
    match action {
        VersionDeletionAction::Fail(f) => {
            assert_eq!(f, VersionDeletionFailure::OnlyActiveVersion);
            let p = version_deletion_problem(f);
            assert_eq!(p.status, 409);
            assert_eq!(p.detail, "cannot delete the only active version");
        }
        other => panic!("unexpected {:?}", other),
    }
}

#[test]
fn version_deletion_retires_storage_and_records_the_change() {
    let state = VersionDeletionState::CountingLogicalVersions { storage_object_id: Some("obj".to_string()) };
    let (state, action) = step_version_deletion(state, VersionDeletionEvent::ActiveCount(2));
    assert!(matches!(action, VersionDeletionAction::DeleteLogicalVersion));
    let (state, action) = step_version_deletion(state, VersionDeletionEvent::Updated(1));
    match action {
        VersionDeletionAction::RetireStorageObject(id) => assert_eq!(id, "obj"),
        other => panic!("unexpected {:?}", other),
    }
    let (state, action) = step_version_deletion(state, VersionDeletionEvent::StorageObjectRetired);
    match &action {
        VersionDeletionAction::RecordChange { event_type } => assert_eq!(event_type, "version.deleted"),
        other => panic!("unexpected {:?}", other),
    }
    let (_, action) = step_version_deletion(state, VersionDeletionEvent::ChangeRecorded);
    assert!(matches!(action, VersionDeletionAction::Respond(true)));
}

#[test]
fn version_deletion_of_stored_objects() {
    let (state, action) = step_version_deletion(VersionDeletionState::Start, VersionDeletionEvent::LogicalVersionMissing);
    assert!(matches!(action, VersionDeletionAction::FindStorageObject));
    let (_, action) = step_version_deletion(state, VersionDeletionEvent::StorageObjectMissing);
    assert!(matches!(action, VersionDeletionAction::Fail(VersionDeletionFailure::VersionNotFound)));
    let state = VersionDeletionState::DeletingStorageObject { lifecycle_status: "deleted".to_string() };
    let (_, action) = step_version_deletion(state, VersionDeletionEvent::Updated(0));
    assert!(matches!(action, VersionDeletionAction::Respond(false)));
    let state = VersionDeletionState::DeletingStorageObject { lifecycle_status: "trashed".to_string() };
    let (_, action) = step_version_deletion(state, VersionDeletionEvent::Updated(0));
    assert!(matches!(action, VersionDeletionAction::Fail(VersionDeletionFailure::VersionNotFound)));
}

#[test]
fn version_restore_steps() {
    let read = node("n1", None, "file");
    let (state, action) = start_version_restore(read.clone());
    assert!(matches!(action, VersionRestoreAction::FindLogicalVersion));
    let (state, action) = step_version_restore(
        state,
        VersionRestoreEvent::LogicalVersionFound { storage_object_id: None },
    );
    assert!(matches!(action, VersionRestoreAction::RestoreLogicalVersion));
    let (state, action) = step_version_restore(state, VersionRestoreEvent::Updated(1));
    match action {
        VersionRestoreAction::RecordChange { event_type } => assert_eq!(event_type, "version.restored"),
        other => panic!("unexpected {:?}", other),
    }
    let (_, action) = step_version_restore(state, VersionRestoreEvent::ChangeRecorded);
    match action {
        VersionRestoreAction::Respond(answer) => assert_eq!(answer.id, read.id),
        other => panic!("unexpected {:?}", other),
    }
    let (_, action) = step_version_restore(
        VersionRestoreState::RestoringStoredVersion { node: read },
        VersionRestoreEvent::Updated(0),
    );
    assert!(matches!(action, VersionRestoreAction::NotFound));
}

#[test]
fn trash_listing_plans_its_query() {
    let owner = plan_trash_listing(true, true, true);
    assert_eq!(owner.kind, TrashScanKind::SpaceOwner);
    assert_eq!(
        owner.where_sql,
        "tenant_id=$1 AND space_id=$2 AND lifecycle_status='trashed' AND parent_node_id=$3"
    );
    assert_eq!((owner.limit_placeholder.as_str(), owner.offset_placeholder.as_str()), ("$4", "$5"));
    let reader = plan_trash_listing(true, false, false);
    assert_eq!(reader.kind, TrashScanKind::SpaceReader);
    assert!(reader.where_sql.contains("permission_row.subject_type = $3"));
    assert!(reader.binds_subject);
    assert_eq!((reader.limit_placeholder.as_str(), reader.offset_placeholder.as_str()), ("$5", "$6"));
    let tenant = plan_trash_listing(false, false, false);
    assert_eq!(tenant.kind, TrashScanKind::TenantReaderVisible);
    assert_eq!(tenant.where_sql, "tenant_id=$1 AND lifecycle_status='trashed'");
    assert_eq!((tenant.limit_placeholder.as_str(), tenant.offset_placeholder.as_str()), ("$2", "$3"));
}

#[test]
fn emptying_trash_lists_each_space_once() {
    let mut tally = EmptyTrashTally::new();
    tally.record_deleted("s1".to_string());
    tally.record_deleted("s2".to_string());
    tally.record_deleted("s1".to_string());
    assert_eq!(tally.deleted_count(), 3);
    assert_eq!(tally.changed_spaces(), &vec!["s1".to_string(), "s2".to_string()]);
}

fn node(id: &str, parent: Option<&str>, node_type: &str) -> DriveNodeResponse {
    DriveNodeResponse {
        id: id.to_string(),
        tenant_id: "t".to_string(),
        space_id: "s".to_string(),
        space_type: None,
        parent_node_id: parent.map(str::to_string),
        shortcut_target_node_id: None,
        node_type: node_type.to_string(),
        node_name: "name".to_string(),
        scene: None,
        source: None,
        lifecycle_status: "trashed".to_string(),
        version: 1,
    }
}

#[test]
fn placement_rules_of_the_hierarchy() {
    assert!(check_target_parent(None, None).is_ok());
    assert_eq!(check_target_parent(Some("p"), None).unwrap_err().status, 404);
    assert_eq!(
        check_target_parent(Some("p"), Some("file".to_string())).unwrap_err().detail,
        "targetParentNodeId must reference an active folder"
    );
    assert!(git_root_rule_applies(None, "file"));
    assert!(!git_root_rule_applies(None, "folder"));
    assert!(!git_root_rule_applies(Some("p"), "file"));
    assert_eq!(
        check_git_root_space(Some("git_repository".to_string())).unwrap_err().detail,
        "git repository space root accepts only repository directories"
    );
    assert!(check_git_root_space(Some("team".to_string())).is_ok());
    let current = node("n1", Some("p1"), "file");
    let placed = plan_node_update(&current, "n1", Some(" new ".to_string()), None).unwrap();
    assert_eq!(placed.node_name, "new");
    assert_eq!(placed.parent_node_id.as_deref(), Some("p1"));
    assert_eq!(
        plan_node_update(&current, "n1", None, Some("n1".to_string())).unwrap_err().detail,
        "parentNodeId cannot be the updated node"
    );
    assert_eq!(plan_node_move("n1", Some(" ".to_string())).unwrap(), None);
    assert!(plan_node_move("n1", Some("n1".to_string())).is_err());
}

#[test]
fn ancestry_walk_finds_descendants_and_cycles() {
    let mut walk = AncestryWalk::new("n1".to_string(), Some("p".to_string()));
    match walk.step() {
        AncestryStep::LookupParent(id) => assert_eq!(id, "p"),
        other => panic!("unexpected {:?}", other),
    }
    walk.record_parent(Some("n1".to_string()));
    let step = walk.step();
    assert!(matches!(step, AncestryStep::Descendant));
    assert_eq!(ancestry_problem(&step).unwrap().status, 400);

    let mut looping = AncestryWalk::new("x".to_string(), Some("a".to_string()));
    assert!(matches!(looping.step(), AncestryStep::LookupParent(_)));
    looping.record_parent(Some("a".to_string()));
    let step = looping.step();
    assert!(matches!(step, AncestryStep::Cycle));
    assert_eq!(ancestry_problem(&step).unwrap().detail, "node hierarchy contains a cycle");

    let mut clear = AncestryWalk::new("x".to_string(), None);
    assert!(matches!(clear.step(), AncestryStep::Clear));
}

#[test]
fn restored_nodes_need_active_folder_parents() {
    let nodes = vec![node("f", None, "folder"), node("a", Some("f"), "file"), node("b", Some("q"), "file")];
    assert!(matches!(restore_parent_check(&nodes[0], &nodes).unwrap(), RestoreParentCheck::AtRoot));
    assert!(matches!(restore_parent_check(&nodes[1], &nodes).unwrap(), RestoreParentCheck::InSubtree));
    match restore_parent_check(&nodes[2], &nodes).unwrap() {
        RestoreParentCheck::Lookup(id) => assert_eq!(id, "q"),
        other => panic!("unexpected {:?}", other),
    }
    let file_parent = vec![node("f", None, "file"), node("a", Some("f"), "file")];
    assert_eq!(
        restore_parent_check(&file_parent[1], &file_parent).unwrap_err().detail,
        "parent node must be active before restore"
    );
    assert!(check_restore_parent_row("s", Some(("s".to_string(), "folder".to_string(), "active".to_string()))).is_ok());
    assert!(check_restore_parent_row("s", Some(("s".to_string(), "folder".to_string(), "trashed".to_string()))).is_err());
    assert!(check_restore_parent_row("s", None).is_err());
}

#[test]
fn outbox_attempts_are_settled() {
    assert_eq!(settle_delivery_attempt(3, true), OutboxDelivery::Delivered);
    assert_eq!(settle_delivery_attempt(3, false), OutboxDelivery::Retry);
    assert_eq!(settle_delivery_attempt(10, false), OutboxDelivery::Failed);
    assert_eq!(failed_attempt_status(9), "pending");
    assert_eq!(failed_attempt_status(10), "failed");
}

#[test]
fn outbox_pass_tallies_its_events() {
    let mut pass = OutboxDispatchPass::new();
    assert!(matches!(pass.next_step(), OutboxStep::Claim));
    assert_eq!(pass.exclude_clause(), "");
    pass.record_claim(Some(("e1".to_string(), 1)));
    assert!(matches!(pass.next_step(), OutboxStep::Dispatch));
    assert_eq!(pass.record_dispatch(true), OutboxDelivery::Delivered);
    assert_eq!(pass.exclude_clause(), " AND id NOT IN ('e1')");
    pass.record_claim(Some(("e2".to_string(), 11)));
    assert!(matches!(pass.next_step(), OutboxStep::MarkExhausted));
    pass.record_exhausted();
    pass.record_claim(Some(("e3".to_string(), 10)));
    assert_eq!(pass.record_dispatch(false), OutboxDelivery::Failed);
    pass.record_claim(None);
    assert!(matches!(pass.next_step(), OutboxStep::Finish));
    let result = pass.result();
    assert_eq!((result.processed, result.delivered, result.failed), (3, 1, 2));
}

#[test]
fn channel_fanout_delivers_to_each_channel() {
    let channels = vec![
        WatchChannelTarget { channel_id: "c1".to_string(), address: "https://a".to_string() },
        WatchChannelTarget { channel_id: "c2".to_string(), address: "https://b".to_string() },
    ];
    let (mut fanout, action) = ChannelFanout::start("o1".to_string(), channels, Ok(()));
    assert!(matches!(action, FanoutAction::ProbeDelivered { .. }));
    assert!(matches!(fanout.record_probe(false), FanoutAction::ValidateAddress { .. }));
    match fanout.record_address_check(Ok(())) {
        FanoutAction::Post { idempotency_key, channel_id, .. } => {
            assert_eq!(idempotency_key, "o1:c1");
            assert_eq!(channel_id, "c1");
        }
        other => panic!("unexpected {:?}", other),
    }
    assert!(matches!(fanout.record_post(Ok((true, "200 OK".to_string()))), FanoutAction::RecordDelivery { .. }));
    match fanout.record_recorded() {
        FanoutAction::ProbeDelivered { channel_id } => assert_eq!(channel_id, "c2"),
        other => panic!("unexpected {:?}", other),
    }
    assert!(matches!(fanout.record_probe(true), FanoutAction::Delivered));

    let (_, none) = ChannelFanout::start("o2".to_string(), Vec::new(), Ok(()));
    match none {
        FanoutAction::Failed(e) => assert_eq!(e, "no_active_watch_channels"),
        other => panic!("unexpected {:?}", other),
    }
    let channels = vec![WatchChannelTarget { channel_id: "c1".to_string(), address: "https://a".to_string() }];
    let (mut fanout, _) = ChannelFanout::start("o3".to_string(), channels, Ok(()));
    fanout.record_probe(false);
    fanout.record_address_check(Ok(()));
    match fanout.record_post(Ok((false, "500 Internal Server Error".to_string()))) {
        FanoutAction::Failed(e) => {
            assert_eq!(e, "outbox webhook channel c1 returned status 500 Internal Server Error")
        }
        other => panic!("unexpected {:?}", other),
    }
}

#[test]
fn channel_fanout_checks_the_stored_payload_as_json() {
    let channels = vec![WatchChannelTarget { channel_id: "c1".to_string(), address: "https://a".to_string() }];
    let (_, action) = ChannelFanout::start_for_payload("o4".to_string(), channels.clone(), "{\"kind\":\"change\"}");
    match action {
        FanoutAction::ProbeDelivered { channel_id } => assert_eq!(channel_id, "c1"),
        other => panic!("unexpected {:?}", other),
    }
    let (_, action) = ChannelFanout::start_for_payload("o5".to_string(), channels, "{not json");
    match action {
        FanoutAction::Failed(e) => {
            assert!(e.starts_with("domain outbox payload is invalid JSON: "));
            assert!(e.len() > "domain outbox payload is invalid JSON: ".len());
        }
        other => panic!("unexpected {:?}", other),
    }
    let (_, action) = ChannelFanout::start_for_payload("o6".to_string(), Vec::new(), "{not json");
    match action {
        FanoutAction::Failed(e) => assert_eq!(e, "no_active_watch_channels"),
        other => panic!("unexpected {:?}", other),
    }
}

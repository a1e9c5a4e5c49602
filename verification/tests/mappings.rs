use sdkwork_drive::completion::{
    start_upload_completion, step_upload_completion, UploadCompletionAction, UploadCompletionEvent,
    UploadCompletionState,
};
use sdkwork_drive::errors::problem;
use sdkwork_drive::outbox::{outbox_claim_sql, OUTBOX_CHANNEL_SELECTION_SQL};
use sdkwork_drive::transaction::DatabaseEngine;
use sdkwork_drive::trash::{empty_trash_selection_sql, plan_trash_listing};
use sdkwork_drive::archive::{extracted_file_name, ArchivePlanFailure};
use sdkwork_drive::outbox::OutboxDispatchPass;
use sdkwork_drive::acl::{build_node_capabilities_response, NodeCapabilitiesInput};
use sdkwork_drive::changes::{
    change_payload, map_root_scope_effects, node_version_change_command, DriveRootScopeKind,
    RecordDriveChangeCommand, RecordDriveNodeVersionCommittedCommand, RootScopeEffectRow,
};
use sdkwork_drive::delivery::{delivery_created, DeliveryWrite};
use sdkwork_drive::errors::{
    archive_extraction_target_conflict_problem, map_download_token_error, map_object_store_error,
    permission_denied_problem, service_error_kind, DriveErrorKind, DriveServiceError,
    ObjectStoreError, ObjectStoreErrorKind,
};
use sdkwork_drive::hierarchy::node_write_outcome;
use sdkwork_drive::nodes::{named_node_insert_error_problem, validate_create_file_request, CreateFileRequest};
use sdkwork_drive::pagination::{ChangeStep, PageStep, ReaderVisibleChangeScan, ReaderVisibleItemScan};
use sdkwork_drive::uploader::{prepare_uploader_command, PrepareUploaderUploadRequest};
use sdkwork_drive::validators::{
    is_mime_token, validate_label_key, validate_object_key, validate_optional_future_epoch_ms,
    validate_watch_expiration, validate_watch_lifecycle_status, validate_watch_resource_type,
    next_page_token, parse_page_request, PageRequest,
};
use sdkwork_drive::numbers::{format_i64, parse_i64};

#[test]
fn fixed_problems_carry_their_status_and_code() {
    let p = archive_extraction_target_conflict_problem();
    assert_eq!((p.status, p.title.as_str(), p.code.as_str()), (409, "conflict", "drive.conflict"));
    assert_eq!(p.detail, "archive extraction target conflicts with an existing node");
    let p = permission_denied_problem();
    assert_eq!((p.status, p.code.as_str()), (403, "drive.permission_denied"));
    assert_eq!(p.detail, "subject does not have required access to the drive node");
    assert_eq!(p.problem_type, "about:blank");
    assert_eq!(p.trace_id, "trace-unset");
    assert_eq!(p.request_id, "request-unset");
}

#[test]
fn expired_download_tokens_are_gone() {
    let p = map_download_token_error(DriveServiceError::NotFound("download token expired at 5".to_string()));
    assert_eq!((p.status, p.title.as_str()), (410, "download token expired"));
    assert_eq!(p.code, "drive.download_token.expired");
    assert_eq!(p.detail, "download token expired at 5");
    let p = map_download_token_error(DriveServiceError::NotFound("download token not found".to_string()));
    assert_eq!((p.status, p.code.as_str()), (404, "drive.not_found"));
    let p = map_download_token_error(DriveServiceError::Conflict("expired".to_string()));
    assert_eq!((p.status, p.code.as_str()), (409, "drive.conflict"));
}

#[test]
fn object_store_errors_keep_their_message() {
    let cases = [
        (ObjectStoreErrorKind::NotFound, DriveErrorKind::NotFound),
        (ObjectStoreErrorKind::InvalidRequest, DriveErrorKind::Validation),
        (ObjectStoreErrorKind::Conflict, DriveErrorKind::Conflict),
        (ObjectStoreErrorKind::PermissionDenied, DriveErrorKind::PermissionDenied),
        (ObjectStoreErrorKind::Unavailable, DriveErrorKind::Internal),
        (ObjectStoreErrorKind::Other, DriveErrorKind::Internal),
    ];
    for (kind, expected) in cases {
        let e = map_object_store_error(ObjectStoreError { kind, message: "bucket says no".to_string() });
        assert_eq!(service_error_kind(&e), expected);
        let message = match e {
            DriveServiceError::Validation(m)
            | DriveServiceError::Conflict(m)
            | DriveServiceError::NotFound(m)
            | DriveServiceError::PermissionDenied(m)
            | DriveServiceError::Internal(m) => m,
        };
        assert_eq!(message, "bucket says no");
    }
}

fn capabilities_input(role: &str, lifecycle: &str) -> NodeCapabilitiesInput {
    NodeCapabilitiesInput {
        tenant_id: "t1".to_string(),
        node_id: "n1".to_string(),
        subject_type: "user".to_string(),
        subject_id: "u1".to_string(),
        role: role.to_string(),
        source: "direct".to_string(),
        permission_id: Some("perm-1".to_string()),
        inherited: false,
        inherited_from_node_id: None,
        node_lifecycle_status: lifecycle.to_string(),
    }
}

#[test]
fn capabilities_follow_the_role_and_the_lifecycle() {
    let r = build_node_capabilities_response(capabilities_input("reader", "active"));
    assert!(r.can_read && r.can_download && r.can_copy);
    assert!(!r.can_comment && !r.can_write && !r.can_delete && !r.can_share);
    assert_eq!(r.permission_id.as_deref(), Some("perm-1"));
    let r = build_node_capabilities_response(capabilities_input("writer", "active"));
    assert!(r.can_write && r.can_move && r.can_trash && r.can_restore && !r.can_delete);
    let r = build_node_capabilities_response(capabilities_input("owner", "active"));
    assert!(r.can_delete && r.can_share && r.can_manage_permissions && r.can_manage_versions);
    let r = build_node_capabilities_response(capabilities_input("owner", "trashed"));
    assert!(r.can_read && r.can_restore && r.can_delete);
    assert!(!r.can_write && !r.can_download && !r.can_share && !r.can_trash);
    let r = build_node_capabilities_response(capabilities_input("guest", "active"));
    assert!(!r.can_read && !r.can_download);
}

#[test]
fn change_payload_is_the_json_of_the_change() {
    let command = RecordDriveChangeCommand {
        tenant_id: "t1",
        space_id: "s1",
        node_id: Some("n1"),
        event_type: "node.created",
        actor_id: "u1",
    };
    let text = change_payload(command, 7);
    let value: serde_json::Value = serde_json::from_str(&text).unwrap();
    assert_eq!(value["tenantId"], "t1");
    assert_eq!(value["spaceId"], "s1");
    assert_eq!(value["nodeId"], "n1");
    assert_eq!(value["eventType"], "node.created");
    assert_eq!(value["sequenceNo"], 7);
    assert_eq!(value["actorId"], "u1");
    assert_eq!(value["resourceType"], "changes");
    assert_eq!(value.as_object().unwrap().len(), 7);
    let spaceless = RecordDriveChangeCommand { node_id: None, ..command };
    let value: serde_json::Value = serde_json::from_str(&change_payload(spaceless, 8)).unwrap();
    assert!(value["nodeId"].is_null());
}

#[test]
fn committed_versions_become_change_commands() {
    let committed = RecordDriveNodeVersionCommittedCommand {
        tenant_id: "t1",
        organization_id: None,
        space_id: "s1",
        node_id: "n1",
        node_version_id: "v1",
        version_no: 2,
        operation_id: "op-1",
        content_type: "text/plain",
        content_length: 3,
        checksum_sha256_hex: "abc",
        actor_id: "u1",
    };
    let command = node_version_change_command(committed, "node.version.committed");
    assert_eq!(command.tenant_id, "t1");
    assert_eq!(command.space_id, "s1");
    assert_eq!(command.node_id, Some("n1"));
    assert_eq!(command.event_type, "node.version.committed");
    assert_eq!(command.actor_id, "u1");
}

fn effect_row(kind: &str) -> RootScopeEffectRow {
    RootScopeEffectRow {
        scope_id: "scope-1".to_string(),
        scope_kind: kind.to_string(),
        relative_path: "docs/a.md".to_string(),
        root_generation: Some("g1".to_string()),
    }
}

#[test]
fn root_scope_effects_map_each_row() {
    let effects = map_root_scope_effects(vec![effect_row("website_root"), effect_row("knowledgebase_raw")]).unwrap();
    assert_eq!(effects.len(), 2);
    assert_eq!(effects[0].scope_kind, DriveRootScopeKind::WebsiteRoot);
    assert_eq!(effects[1].scope_kind, DriveRootScopeKind::KnowledgebaseRaw);
    assert_eq!(effects[1].relative_path, "docs/a.md");
    assert_eq!(effects[1].root_generation.as_deref(), Some("g1"));
    match map_root_scope_effects(vec![effect_row("website_root"), effect_row("mirror"), effect_row("other")]) {
        Err(DriveServiceError::Internal(m)) => assert_eq!(m, "unsupported Drive root scope kind: mirror"),
        other => panic!("unexpected {:?}", other.map(|e| e.len())),
    }
}

#[test]
fn only_inserted_deliveries_are_created() {
    assert!(delivery_created(&DeliveryWrite::Insert { space_id: "s1".to_string() }));
    assert!(!delivery_created(&DeliveryWrite::Update));
    assert!(!delivery_created(&DeliveryWrite::Unchanged));
}

#[test]
fn node_insert_errors_tell_name_conflicts_apart() {
    let p = named_node_insert_error_problem("shortcut", "UNIQUE constraint failed: dr_drive_node.node_name");
    assert_eq!((p.status, p.detail.as_str()), (409, "node name already exists in parent"));
    let p = named_node_insert_error_problem("shortcut", "disk I/O error");
    assert_eq!(p.status, 500);
    assert_eq!(p.detail, "insert shortcut dr_drive_node failed: disk I/O error");
    assert_eq!(p.code, "drive.internal_error");
}

#[test]
fn node_writes_that_touch_nothing_are_not_found() {
    let p = node_write_outcome(0).unwrap_err();
    assert_eq!((p.status, p.detail.as_str()), (404, "node not found"));
    assert!(node_write_outcome(1).is_ok());
}

#[test]
fn mime_tokens_and_keys() {
    assert!(is_mime_token("vnd.ms-excel"));
    assert!(is_mime_token("x+y!#$%&'*^_`|~"));
    assert!(!is_mime_token(""));
    assert!(!is_mime_token("a b"));
    assert!(!is_mime_token("a/b"));
    assert_eq!(validate_label_key(" team:red-1 ").unwrap(), "team:red-1");
    assert_eq!(validate_label_key("red label").unwrap_err().detail, "labelKey is invalid");
    assert_eq!(validate_label_key(&"k".repeat(129)).unwrap_err().detail, "labelKey is invalid");
    assert_eq!(validate_label_key("   ").unwrap_err().detail, "labelKey is invalid");
}

#[test]
fn object_keys_are_relative_clean_paths() {
    assert_eq!(validate_object_key(" a/b.txt ".to_string(), "objectKey").unwrap(), "a/b.txt");
    assert_eq!(validate_object_key("  ".to_string(), "objectKey").unwrap_err().detail, "objectKey is required");
    assert_eq!(
        validate_object_key("/a".to_string(), "objectKey").unwrap_err().detail,
        "objectKey must not start or end with slash"
    );
    assert_eq!(
        validate_object_key("a//b".to_string(), "objectKey").unwrap_err().detail,
        "objectKey must not contain empty or period-only path segments"
    );
    assert_eq!(
        validate_object_key("a/../b".to_string(), "objectKey").unwrap_err().detail,
        "objectKey must not contain empty or period-only path segments"
    );
    assert_eq!(
        validate_object_key("a\0b".to_string(), "objectKey").unwrap_err().detail,
        "objectKey must not contain NUL bytes"
    );
    assert_eq!(
        validate_object_key("é".repeat(513), "objectKey").unwrap_err().detail,
        "objectKey must be at most 1024 UTF-8 bytes"
    );
}

#[test]
fn watch_fields_are_checked() {
    assert_eq!(validate_watch_resource_type(" node ").unwrap(), "node");
    assert_eq!(validate_watch_resource_type("changes").unwrap(), "changes");
    assert_eq!(validate_watch_resource_type("files").unwrap_err().detail, "resourceType is invalid");
    assert_eq!(validate_watch_lifecycle_status("stopped").unwrap(), "stopped");
    assert_eq!(validate_watch_lifecycle_status(" expired ").unwrap(), "expired");
    assert_eq!(validate_watch_lifecycle_status("paused").unwrap_err().detail, "lifecycleStatus is invalid");
}

#[test]
fn future_instants_are_checked_against_the_clock() {
    assert!(validate_watch_expiration(i64::MAX).is_ok());
    assert_eq!(
        validate_watch_expiration(1).unwrap_err().detail,
        "expirationEpochMs must be in the future"
    );
    assert!(validate_optional_future_epoch_ms(None, "expiresAtEpochMs").is_ok());
    assert!(validate_optional_future_epoch_ms(Some(i64::MAX), "expiresAtEpochMs").is_ok());
    assert_eq!(
        validate_optional_future_epoch_ms(Some(0), "expiresAtEpochMs").unwrap_err().detail,
        "expiresAtEpochMs must be in the future"
    );
    let request = CreateFileRequest {
        id: "n1".to_string(),
        space_id: "s1".to_string(),
        parent_node_id: None,
        node_name: "a.txt".to_string(),
        upload_session_id: "us-1".to_string(),
        idempotency_key: "idem".to_string(),
        bucket: None,
        object_key: None,
        expires_at_epoch_ms: i64::MAX,
        operator_id: None,
    };
    assert!(validate_create_file_request(&request).is_ok());
    let stale = CreateFileRequest { expires_at_epoch_ms: 1, ..request.clone() };
    assert_eq!(
        validate_create_file_request(&stale).unwrap_err().detail,
        "expiresAtEpochMs must be in the future"
    );
    let blank = CreateFileRequest { node_name: " ".to_string(), ..request };
    assert_eq!(
        validate_create_file_request(&blank).unwrap_err().detail,
        "id, nodeName, uploadSessionId, and idempotencyKey are required"
    );
}

#[test]
fn uploader_commands_read_the_clock_only_when_no_time_is_given() {
    let request = PrepareUploaderUploadRequest {
        id: None,
        task_id: None,
        tenant_id: None,
        organization_id: None,
        app_id: "app1".to_string(),
        user_id: Some("u1".to_string()),
        anonymous_id: None,
        app_resource_type: None,
        app_resource_id: None,
        scene: None,
        source: None,
        upload_profile_code: Some("docs".to_string()),
        file_fingerprint: None,
        original_file_name: "a.pdf".to_string(),
        content_type: None,
        content_length: 5,
        chunk_size_bytes: 5,
        space_id: None,
        parent_node_id: None,
        share_token: None,
        retention: None,
        operator_id: None,
        now_epoch_ms: Some(77),
    };
    let command = prepare_uploader_command(request.clone()).unwrap();
    assert_eq!(command.now_epoch_ms, 77);
    assert_eq!(command.upload_profile_code, "docs");
    let clocked = prepare_uploader_command(PrepareUploaderUploadRequest { now_epoch_ms: None, ..request.clone() }).unwrap();
    assert!(clocked.now_epoch_ms > 1_600_000_000_000);
    let blank = PrepareUploaderUploadRequest { app_id: " ".to_string(), ..request };
    assert_eq!(prepare_uploader_command(blank).unwrap_err().detail, "appId is required");
}

#[test]
fn item_scan_pages_through_visible_rows() {
    let mut scan = ReaderVisibleItemScan::new(PageRequest { limit: 2, offset: 0 });
    assert!(matches!(scan.next_step(), PageStep::Fetch { offset: 0, batch_limit: 3 }));
    scan.record_batch(3);
    for visible in [true, false, true] {
        assert!(matches!(scan.next_step(), PageStep::Check { .. }));
        scan.record_check(visible);
    }
    assert!(matches!(scan.next_step(), PageStep::Fetch { offset: 3, batch_limit: 3 }));
    scan.record_batch(1);
    assert!(matches!(scan.next_step(), PageStep::Check { row: 0 }));
    scan.record_check(true);
    match scan.next_step() {
        PageStep::Finish { keep, next_page_token } => {
            assert_eq!(keep, 2);
            assert_eq!(next_page_token.as_deref(), Some("3"));
        }
        _ => panic!("the scan should be finished"),
    }

    let mut short = ReaderVisibleItemScan::new(PageRequest { limit: 2, offset: 5 });
    short.record_batch(2);
    short.record_check(true);
    short.record_check(true);
    assert!(matches!(short.next_step(), PageStep::Fetch { offset: 7, .. }));
    short.record_batch(0);
    match short.next_step() {
        PageStep::Finish { keep, next_page_token } => {
            assert_eq!(keep, 2);
            assert_eq!(next_page_token, None);
        }
        _ => panic!("the scan should be finished"),
    }
}

#[test]
fn change_scan_resumes_after_the_last_kept_change() {
    let mut scan = ReaderVisibleChangeScan::new(PageRequest { limit: 1, offset: 0 });
    assert!(matches!(scan.next_step(), ChangeStep::Fetch { cursor: 0, batch_limit: 2 }));
    scan.record_batch(2);
    assert!(matches!(scan.next_step(), ChangeStep::Inspect { row: 0 }));
    scan.record_change(5, true);
    assert!(matches!(scan.next_step(), ChangeStep::CheckAccess { row: 0 }));
    scan.record_access(false);
    assert!(matches!(scan.next_step(), ChangeStep::Inspect { row: 1 }));
    scan.record_change(7, false);
    assert!(matches!(scan.next_step(), ChangeStep::Fetch { cursor: 7, batch_limit: 2 }));
    scan.record_batch(2);
    scan.record_change(9, false);
    match scan.next_step() {
        ChangeStep::Finish { keep, next_page_token } => {
            assert_eq!(keep, 1);
            assert_eq!(next_page_token.as_deref(), Some("7"));
        }
        _ => panic!("the scan should be finished"),
    }
}

#[test]
fn a_page_token_resumes_after_its_page() {
    let page = parse_page_request(Some(2), None).unwrap();
    let mut items = vec![1, 2, 3];
    let token = next_page_token(&mut items, page);
    assert_eq!(items, vec![1, 2]);
    assert_eq!(token.as_deref(), Some("2"));
    let next = parse_page_request(Some(2), token).unwrap();
    assert_eq!((next.limit, next.offset), (2, 2));
    let mut last = vec![1];
    assert_eq!(next_page_token(&mut last, next), None);
}

#[test]
fn decimal_text_parses_back_to_the_number() {
    for n in [i64::MIN, -5, 0, 7, 12_345, i64::MAX] {
        assert_eq!(parse_i64(&format_i64(n)), Some(n));
        assert_eq!(format_i64(n), n.to_string());
    }
}

#[test]
fn upload_completion_rolls_back_a_failed_storage_completion() {
    let (state, action) = start_upload_completion(true);
    assert!(matches!(action, UploadCompletionAction::ClaimCompletion));
    let (state, action) = step_upload_completion(state, UploadCompletionEvent::ClaimAffected(1));
    assert!(matches!(action, UploadCompletionAction::CompleteStorage));
    let failure = problem(502, "bad gateway", "object store unavailable".to_string(), "drive.storage.failed");
    let (state, action) = step_upload_completion(state, UploadCompletionEvent::StorageFailed(failure));
    assert!(matches!(action, UploadCompletionAction::RollBackToUploading));
    let (state, action) = step_upload_completion(state, UploadCompletionEvent::RolledBack);
    assert!(matches!(state, UploadCompletionState::Finished));
    match action {
        UploadCompletionAction::Fail(p) => assert_eq!((p.status, p.detail.as_str()), (502, "object store unavailable")),
        other => panic!("unexpected {:?}", other),
    }

    let (state, _) = start_upload_completion(false);
    let (_, action) = step_upload_completion(state, UploadCompletionEvent::ClaimAffected(0));
    match action {
        UploadCompletionAction::Fail(p) => {
            assert_eq!(p.status, 409);
            assert_eq!(p.detail, "upload session completion is already in progress or no longer mutable");
        }
        other => panic!("unexpected {:?}", other),
    }
}

#[test]
fn upload_completion_writes_in_order() {
    for has_item in [true, false] {
        let (mut state, _) = start_upload_completion(has_item);
        let (s, _) = step_upload_completion(state, UploadCompletionEvent::ClaimAffected(1));
        let (s, a) = step_upload_completion(s, UploadCompletionEvent::StorageCompleted);
        assert!(matches!(a, UploadCompletionAction::InsertStorageObject));
        state = s;
        let mut names = Vec::new();
        loop {
            let (s, a) = step_upload_completion(state, UploadCompletionEvent::Written);
            state = s;
            let name = format!("{:?}", a);
            let done = matches!(a, UploadCompletionAction::Respond);
            names.push(name);
            if done {
                break;
            }
        }
        let expected: Vec<&str> = if has_item {
            vec!["InsertNodeVersion", "CompleteUploaderItem", "MarkSessionCompleted", "ApplyHeadSnapshot", "RecordChange", "Respond"]
        } else {
            vec!["InsertNodeVersion", "MarkSessionCompleted", "ApplyHeadSnapshot", "RecordChange", "Respond"]
        };
        assert_eq!(names, expected);
    }
}

#[test]
fn outbox_claim_statement_embeds_the_exclusion() {
    let pg = outbox_claim_sql(DatabaseEngine::Postgresql, " AND id NOT IN ('a')");
    assert!(pg.contains("attempt_count < $1 AND id NOT IN ('a') ORDER BY created_at ASC LIMIT 1 FOR UPDATE SKIP LOCKED)"));
    assert!(pg.ends_with("RETURNING id, tenant_id, space_id, attempt_count, payload_json"));
    let lite = outbox_claim_sql(DatabaseEngine::Sqlite, "");
    assert!(lite.contains("attempt_count < $1 ORDER BY created_at ASC LIMIT 1) RETURNING"));
    assert!(!lite.contains("SKIP LOCKED"));
    assert!(OUTBOX_CHANNEL_SELECTION_SQL.contains("ORDER BY created_at ASC LIMIT $4"));
}

#[test]
fn emptying_the_trash_selects_the_oldest_trashed_nodes() {
    assert!(empty_trash_selection_sql(Some("s1")).contains("space_id=$2 AND lifecycle_status='trashed'"));
    assert!(!empty_trash_selection_sql(None).contains("$2"));
    assert!(empty_trash_selection_sql(None).ends_with("ORDER BY updated_at ASC LIMIT 500"));
}

#[test]
fn extracted_files_are_named_by_their_last_segment() {
    assert_eq!(extracted_file_name(&vec!["docs".to_string(), "a.md".to_string()]).unwrap(), "a.md");
    assert_eq!(extracted_file_name(&Vec::new()).unwrap_err(), ArchivePlanFailure::UnsafePath);
}

#[test]
fn an_outbox_pass_excludes_each_claimed_event_once() {
    let mut pass = OutboxDispatchPass::new();
    pass.record_claim(Some(("e'1".to_string(), 1)));
    pass.record_dispatch(true);
    pass.record_claim(Some(("e'1".to_string(), 2)));
    pass.record_dispatch(true);
    assert_eq!(pass.exclude_clause(), " AND id NOT IN ('e''1')");
    assert_eq!(pass.result().processed, 2);
}

#[test]
fn trash_listings_show_the_latest_trashed_first() {
    for (space, parent, owner) in [(true, false, true), (true, true, false), (false, true, false), (false, false, false)] {
        assert_eq!(plan_trash_listing(space, parent, owner).order_sql, "ORDER BY updated_at DESC, id ASC");
    }
}

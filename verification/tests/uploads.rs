use sdkwork_drive::nodes::{
    check_shortcut_target, check_upload_session_node, copy_insert_error_problem,
    folder_create_request_matches, folder_insert_error_problem, plan_copy_target,
    plan_folder_node_id, validate_completion_request, validate_copy_request,
    validate_create_file_idempotent_replay, validate_create_file_request_at,
    validate_create_shortcut_request, validate_folder_name, validate_upload_session_request_at,
    plan_copied_node, plan_file_creation, CopyNodeRequest, CreateFileRequest, CreateFolderRequest, CreateShortcutRequest,
    DriveNodeResponse, FolderIdPlan,
};
use sdkwork_drive::uploads::{
    check_part_no, check_upload_id, completed_storage_object_id, confirm_standard_storage_key,
    parse_standard_storage_key, plan_completed_storage_object, presign_expiry,
    standard_storage_object_key_suffix, upload_session_state_as_str,
    validate_completed_multipart_parts, validate_mutable_upload_session,
    CompletedUploadPartRequest, DriveUploadSessionState, UploadSessionRecord,
};

use sdkwork_drive::completion::{check_completion_request, plan_completion_writes};

const KEY: &str = "sdkwork-drive/v1/t/aa/tenants/t1/spaces/s1/nodes/n/bb/n1/versions/0000000003/obj-9/content";

fn session(state: &str) -> UploadSessionRecord {
    UploadSessionRecord {
        id: "us-1".to_string(),
        tenant_id: "t1".to_string(),
        space_id: "s1".to_string(),
        node_id: "n1".to_string(),
        bucket: "b".to_string(),
        object_key: KEY.to_string(),
        idempotency_key: "idem".to_string(),
        storage_provider_id: "p".to_string(),
        storage_upload_id: "up-1".to_string(),
        state: state.to_string(),
        expires_at_epoch_ms: 10,
        version: 1,
    }
}

fn node(id: &str, node_type: &str) -> DriveNodeResponse {
    DriveNodeResponse {
        id: id.to_string(),
        tenant_id: "t1".to_string(),
        space_id: "s1".to_string(),
        space_type: None,
        parent_node_id: Some("p1".to_string()),
        shortcut_target_node_id: None,
        node_type: node_type.to_string(),
        node_name: "a.txt".to_string(),
        scene: None,
        source: None,
        lifecycle_status: "active".to_string(),
        version: 1,
    }
}

fn part(part_no: u16, etag: &str) -> CompletedUploadPartRequest {
    CompletedUploadPartRequest { part_no, etag: etag.to_string() }
}

#[test]
fn upload_session_states_have_stored_names() {
    assert_eq!(upload_session_state_as_str(&DriveUploadSessionState::Created), "created");
    assert_eq!(upload_session_state_as_str(&DriveUploadSessionState::Completing), "completing");
    assert_eq!(upload_session_state_as_str(&DriveUploadSessionState::Expired), "expired");
}

#[test]
fn only_created_or_uploading_sessions_are_mutable() {
    assert!(validate_mutable_upload_session(&session("created")).is_ok());
    assert!(validate_mutable_upload_session(&session("uploading")).is_ok());
    let settled = validate_mutable_upload_session(&session("completed")).unwrap_err();
    assert_eq!(settled.status, 409);
    assert_eq!(settled.detail, "upload session cannot be modified from completed state");
    let odd = validate_mutable_upload_session(&session("weird")).unwrap_err();
    assert_eq!(odd.status, 400);
    assert_eq!(odd.detail, "upload session state is invalid");
}

#[test]
fn completed_parts_must_be_ascending_unique_and_tagged() {
    assert!(validate_completed_multipart_parts(&vec![part(1, "a"), part(2, "b")]).is_ok());
    assert_eq!(
        validate_completed_multipart_parts(&Vec::new()).unwrap_err().detail,
        "parts are required"
    );
    assert_eq!(
        validate_completed_multipart_parts(&vec![part(0, "a")]).unwrap_err().detail,
        "partNo must be between 1 and 10000"
    );
    assert_eq!(
        validate_completed_multipart_parts(&vec![part(1, " ")]).unwrap_err().detail,
        "etag is required for every part"
    );
    assert_eq!(
        validate_completed_multipart_parts(&vec![part(2, "a"), part(2, "b")]).unwrap_err().detail,
        "parts must be sorted by ascending unique partNo"
    );
    let many: Vec<CompletedUploadPartRequest> = (0..10_001).map(|_| part(1, "a")).collect();
    assert_eq!(
        validate_completed_multipart_parts(&many).unwrap_err().detail,
        "parts must contain at most 10000 items"
    );
}

#[test]
fn standard_key_suffix_starts_at_the_last_marker() {
    assert_eq!(
        standard_storage_object_key_suffix("prefix/sdkwork-drive/v1/t/x/sdkwork-drive/v1/t/y").unwrap(),
        "sdkwork-drive/v1/t/y"
    );
    assert_eq!(standard_storage_object_key_suffix("other/key"), None);
}

#[test]
fn standard_keys_are_parsed_and_confirmed() {
    let parsed = parse_standard_storage_key(&format!("mirror/{KEY}"), "t1", "s1", "n1").unwrap();
    assert_eq!(parsed.version_no, 3);
    assert_eq!(parsed.object_id, "obj-9");
    assert_eq!(parsed.key, KEY);
    assert_eq!(confirm_standard_storage_key(&parsed, Some(KEY.to_string())).unwrap(), 3);
    let wrong = confirm_standard_storage_key(&parsed, Some("x".to_string())).unwrap_err();
    assert_eq!(wrong.detail, "upload session object key is not a standard Drive storage key");
    assert!(parse_standard_storage_key(KEY, "t2", "s1", "n1").is_err());
    let zero = KEY.replace("0000000003", "0000000000");
    assert!(parse_standard_storage_key(&zero, "t1", "s1", "n1").is_err());
    let short = KEY.replace("0000000003", "3");
    assert!(parse_standard_storage_key(&short, "t1", "s1", "n1").is_err());
}

#[test]
fn completed_storage_object_plan_checks_version_and_conflicts() {
    assert_eq!(completed_storage_object_id("us-1", 3), "us-1-v3");
    let plan = plan_completed_storage_object("us-1", 3, 3, 0, 0).unwrap();
    assert_eq!(plan.id, "us-1-v3");
    assert_eq!(plan.version_no, 3);
    assert_eq!(
        plan_completed_storage_object("us-1", 3, 4, 0, 0).unwrap_err().detail,
        "upload session storage object version does not match next file version"
    );
    assert_eq!(
        plan_completed_storage_object("us-1", 3, 3, 1, 0).unwrap_err().detail,
        "storage object id already exists"
    );
    assert_eq!(
        plan_completed_storage_object("us-1", 3, 3, 0, 2).unwrap_err().detail,
        "active storage object locator already exists"
    );
}

#[test]
fn upload_ids_parts_and_expiry_are_checked() {
    assert!(check_upload_id(None, "up-1").is_ok());
    assert!(check_upload_id(Some(" up-1 ".to_string()), "up-1").is_ok());
    assert_eq!(check_upload_id(Some(" ".to_string()), "up-1").unwrap_err().status, 400);
    assert_eq!(check_upload_id(Some("up-2".to_string()), "up-1").unwrap_err().status, 409);
    assert!(check_part_no(10_000).is_ok());
    assert!(check_part_no(10_001).is_err());
    assert_eq!(presign_expiry(None, 1_000).unwrap(), 121_000);
    assert_eq!(
        presign_expiry(Some(10), 1_000).unwrap_err().detail,
        "requestedTtlSeconds must be between 30 and 300 seconds"
    );
}

#[test]
fn completion_requests_are_checked_in_order() {
    let parts = vec![part(1, "e")];
    let checksum = format!("sha256:{}", "a".repeat(64));
    let (ct, cs) = validate_completion_request(&parts, "text/plain", &checksum, 5).unwrap();
    assert_eq!(ct, "text/plain");
    assert_eq!(cs, checksum);
    assert_eq!(
        validate_completion_request(&parts, "text", &checksum, 5).unwrap_err().detail,
        "contentType must be a valid MIME type"
    );
    assert_eq!(
        validate_completion_request(&parts, "text/plain", "sha256:xyz", 5).unwrap_err().detail,
        "checksumSha256Hex must use sha256:<64 lowercase hex characters>"
    );
    assert_eq!(
        validate_completion_request(&parts, "text/plain", &checksum, -1).unwrap_err().detail,
        "contentLength must be greater than or equal to 0"
    );
}

fn folder_request(id: Option<&str>) -> CreateFolderRequest {
    CreateFolderRequest {
        id: id.map(str::to_string),
        space_id: "s1".to_string(),
        parent_node_id: Some("p1".to_string()),
        node_name: " Docs ".to_string(),
        operator_id: None,
    }
}

#[test]
fn folder_ids_are_replayed_used_or_generated() {
    let mut existing = node("f1", "folder");
    existing.node_name = "Docs".to_string();
    assert!(folder_create_request_matches(&existing, &folder_request(Some("f1")), "Docs"));
    assert_eq!(validate_folder_name(" Docs ").unwrap(), "Docs");
    assert_eq!(validate_folder_name("  ").unwrap_err().detail, "nodeName is required");
    match plan_folder_node_id(&None, None, &folder_request(None), "Docs").unwrap() {
        FolderIdPlan::Generate => {}
        other => panic!("unexpected {:?}", other),
    }
    match plan_folder_node_id(&Some(" f2 ".to_string()), None, &folder_request(Some("f2")), "Docs")
        .unwrap()
    {
        FolderIdPlan::UseClientId(id) => assert_eq!(id, "f2"),
        other => panic!("unexpected {:?}", other),
    }
    match plan_folder_node_id(&Some("f1".to_string()), Some(existing.clone()), &folder_request(Some("f1")), "Docs")
        .unwrap()
    {
        FolderIdPlan::Replay(n) => assert_eq!(n.id, "f1"),
        other => panic!("unexpected {:?}", other),
    }
    let clash = plan_folder_node_id(&Some("f1".to_string()), Some(node("f1", "file")), &folder_request(Some("f1")), "Docs")
        .unwrap_err();
    assert_eq!(clash.detail, "node id already exists");
}

#[test]
fn node_insert_errors_are_classified() {
    let id_clash = folder_insert_error_problem("UNIQUE constraint failed: dr_drive_node.id");
    assert_eq!(id_clash.detail, "node id already exists");
    let name_clash = folder_insert_error_problem(
        "duplicate key value violates unique constraint \"ux_dr_drive_node_child_name_live\"",
    );
    assert_eq!(name_clash.detail, "node name already exists in parent");
    let other = folder_insert_error_problem("disk full");
    assert_eq!(other.status, 500);
    assert_eq!(other.detail, "insert dr_drive_node failed: disk full");
    assert_eq!(copy_insert_error_problem("disk full").detail, "copy dr_drive_node failed: disk full");
}

fn file_request() -> CreateFileRequest {
    CreateFileRequest {
        id: " n1 ".to_string(),
        space_id: "s1".to_string(),
        parent_node_id: Some("p1".to_string()),
        node_name: "a.txt".to_string(),
        upload_session_id: "us-1".to_string(),
        idempotency_key: "idem".to_string(),
        bucket: None,
        object_key: None,
        expires_at_epoch_ms: 10,
        operator_id: None,
    }
}

#[test]
fn file_requests_and_replays_are_checked() {
    assert!(validate_create_file_request_at(&file_request(), 5).is_ok());
    assert_eq!(
        validate_create_file_request_at(&file_request(), 10).unwrap_err().detail,
        "expiresAtEpochMs must be in the future"
    );
    let mut blank = file_request();
    blank.idempotency_key = " ".to_string();
    assert_eq!(
        validate_create_file_request_at(&blank, 5).unwrap_err().detail,
        "id, nodeName, uploadSessionId, and idempotencyKey are required"
    );
    assert!(validate_create_file_idempotent_replay(&file_request(), "t1", &node("n1", "file"), &session("created")).is_ok());
    let mut other_bucket = file_request();
    other_bucket.bucket = Some("other".to_string());
    assert_eq!(
        validate_create_file_idempotent_replay(&other_bucket, "t1", &node("n1", "file"), &session("created"))
            .unwrap_err()
            .detail,
        "idempotencyKey already belongs to a different file creation request"
    );
}

#[test]
fn shortcuts_copies_and_upload_sessions_are_checked() {
    let shortcut = CreateShortcutRequest {
        id: "sc".to_string(),
        space_id: "s1".to_string(),
        parent_node_id: None,
        target_node_id: "n1".to_string(),
        node_name: "link".to_string(),
        operator_id: None,
    };
    assert!(validate_create_shortcut_request(&shortcut).is_ok());
    assert!(check_shortcut_target(&node("n1", "file"), &shortcut).is_ok());
    assert_eq!(
        check_shortcut_target(&node("sc", "file"), &shortcut).unwrap_err().detail,
        "targetNodeId cannot be the shortcut node"
    );
    let mut elsewhere = node("n1", "file");
    elsewhere.space_id = "s2".to_string();
    assert_eq!(
        check_shortcut_target(&elsewhere, &shortcut).unwrap_err().detail,
        "targetNodeId must reference a node in the same space"
    );
    let copy = CopyNodeRequest {
        id: "c1".to_string(),
        target_space_id: Some(" ".to_string()),
        target_parent_node_id: None,
        node_name: Some(" Copy ".to_string()),
        operator_id: None,
    };
    assert!(validate_copy_request(&copy).is_ok());
    let target = plan_copy_target(&copy, &node("n1", "file"));
    assert_eq!(target.space_id, "s1");
    assert_eq!(target.parent_node_id, Some("p1".to_string()));
    assert_eq!(target.node_name, "Copy");
    assert!(validate_upload_session_request_at("idem", 10, 5).is_ok());
    assert_eq!(
        validate_upload_session_request_at(" ", 10, 5).unwrap_err().detail,
        "idempotencyKey is required"
    );
    assert_eq!(check_upload_session_node(&node("n1", "file"), "s2").unwrap_err().status, 404);
    assert_eq!(
        check_upload_session_node(&node("n1", "folder"), "s1").unwrap_err().detail,
        "nodeId must reference an active file"
    );
}

#[test]
fn a_copy_is_a_new_active_node_of_the_source_type() {
    let mut source = node("n1", "file");
    source.version = 7;
    source.lifecycle_status = "active".to_string();
    let payload = CopyNodeRequest {
        id: " c1 ".to_string(),
        target_space_id: Some(" s2 ".to_string()),
        target_parent_node_id: None,
        node_name: Some("  ".to_string()),
        operator_id: None,
    };
    let row = plan_copied_node(&payload, "t1", &source, "ready", "op").unwrap();
    assert_eq!(row.id, "c1");
    assert_eq!(row.space_id, "s2");
    assert_eq!(row.parent_node_id.as_deref(), Some("p1"));
    assert_eq!(row.node_name, "a.txt");
    assert_eq!(row.node_type, "file");
    assert_eq!(row.lifecycle_status, "active");
    assert_eq!(row.version, 1);
    assert_eq!(row.content_state, "ready");
    assert_eq!(row.change_event_type, "node.copied");
    let blank = CopyNodeRequest { id: " ".to_string(), ..payload };
    assert_eq!(plan_copied_node(&blank, "t1", &source, "ready", "op").unwrap_err().detail, "id is required");
}

#[test]
fn completion_checks_come_in_order() {
    let parts = vec![part(1, "e1")];
    let checksum = format!("sha256:{}", "a".repeat(64));
    let ok = check_completion_request(&parts, "text/plain", &checksum, 3, &session("uploading"), Some(" up-1 ".to_string()));
    assert_eq!(ok.unwrap(), ("text/plain".to_string(), checksum.clone()));
    let bad_length = check_completion_request(&parts, "text/plain", &checksum, -1, &session("completed"), None);
    assert_eq!(bad_length.unwrap_err().detail, "contentLength must be greater than or equal to 0");
    let settled = check_completion_request(&parts, "text/plain", &checksum, 3, &session("completed"), None);
    assert_eq!(settled.unwrap_err().status, 409);
    let other_upload = check_completion_request(&parts, "text/plain", &checksum, 3, &session("created"), Some("up-2".to_string()));
    assert_eq!(other_upload.unwrap_err().detail, "uploadId does not match upload session storage upload id");
}

#[test]
fn completion_writes_carry_the_planned_object() {
    let plan = plan_completed_storage_object("us-1", 3, 3, 0, 0).unwrap();
    let checksum = format!("sha256:{}", "b".repeat(64));
    let w = plan_completion_writes(&session("uploading"), "t1", "s1", &plan, "text/plain", &checksum, 5, 2, Some("sc".to_string()), None, "op");
    assert_eq!(w.storage_object.id, "us-1-v3");
    assert_eq!(w.storage_object.version_no, 3);
    assert_eq!((w.storage_object.bucket.as_str(), w.storage_object.object_key.as_str()), ("b", KEY));
    assert_eq!(w.storage_object.content_length, 5);
    assert_eq!(w.storage_object.scene.as_deref(), Some("sc"));
    assert_eq!(w.node_version.version_no, 3);
    assert_eq!(w.node_version.storage_object_id, "us-1-v3");
    assert_eq!(w.uploaded_parts_count, 2);
    assert_eq!(w.session_state, "completed");
    assert_eq!(w.head_version_no, 3);
    assert_eq!(w.change_event_type, "upload.completed");
    assert_eq!(w.change_node_id, "n1");
}

#[test]
fn a_created_file_replays_as_itself() {
    let payload = CreateFileRequest {
        id: " n9 ".to_string(),
        space_id: "s1".to_string(),
        parent_node_id: Some("p1".to_string()),
        node_name: " b.txt ".to_string(),
        upload_session_id: " us-9 ".to_string(),
        idempotency_key: " k9 ".to_string(),
        bucket: None,
        object_key: None,
        expires_at_epoch_ms: 99,
        operator_id: None,
    };
    let (node, session) = plan_file_creation(&payload, "t1", "bucket-1".to_string(), "key".to_string(), "prov".to_string(), "up".to_string());
    assert_eq!((node.id.as_str(), node.node_name.as_str(), node.version), ("n9", "b.txt", 1));
    assert_eq!((session.id.as_str(), session.idempotency_key.as_str(), session.bucket.as_str()), ("us-9", "k9", "bucket-1"));
    assert!(validate_create_file_idempotent_replay(&payload, "t1", &node, &session).is_ok());
}

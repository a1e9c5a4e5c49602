use sdkwork_drive::acl::{capabilities_input, is_space_owner_subject, CapabilitySource, FoundPermission};
use sdkwork_drive::collab::{
    apply_optional_i64_patch, check_share_link_limits, operator_or_unset, plan_comment_create,
    plan_comment_update, plan_node_property, plan_share_link_update, plan_watch_channel,
    share_link_create_role, share_link_insert_error_problem, watch_channel_insert_error_problem,
    write_outcome, WatchTarget,
};
use sdkwork_drive::errors::DriveServiceError;
use sdkwork_drive::pagination::page_window;
use sdkwork_drive::permissions::{
    effective_permissions, permission_insert_error_problem, updated_permission_role,
    PermissionResponse,
};
use sdkwork_drive::spaces::{
    creator_owner_grant, decide_upload_content_policy, map_space_response, merge_space_update,
    plan_team_space_root, space_insert_error, space_write_outcome, team_space_root_name,
    BootstrapTeamSpaceCreatorAccessCommand, ContentPolicyOutcome, DriveSpace,
    SqlDrivePermissionService, TeamSpaceRootPlan, UploadContentPolicyContext,
    UploadContentPolicyMode,
};
use sdkwork_drive::uploader::{
    prepare_uploader_command_at, PrepareUploaderUploadRequest, UploaderActor, UploaderRetention,
    UploaderRetentionRequest, UploaderTarget,
};

fn grant(id: &str, node: &str, subject: &str, role: &str) -> PermissionResponse {
    PermissionResponse {
        id: id.to_string(),
        tenant_id: "t".to_string(),
        node_id: node.to_string(),
        subject_type: "user".to_string(),
        subject_id: subject.to_string(),
        role: role.to_string(),
        inherited: false,
        lifecycle_status: "active".to_string(),
        version: 1,
    }
}

#[test]
fn effective_permissions_keep_the_nearest_grant_per_subject() {
    let path = vec![
        grant("g1", "n", "u1", "reader"),
        grant("g2", "parent", "u1", "owner"),
        grant("g3", "parent", "u2", "writer"),
    ];
    let effective = effective_permissions("n", path);
    assert_eq!(effective.len(), 2);
    assert_eq!(effective[0].id, "g1");
    assert!(!effective[0].inherited);
    assert_eq!(effective[0].inherited_from_node_id, None);
    assert_eq!(effective[1].id, "g3");
    assert!(effective[1].inherited);
    assert_eq!(effective[1].inherited_from_node_id.as_deref(), Some("parent"));
    assert_eq!(effective[1].target_node_id, "n");
}

#[test]
fn permission_roles_and_insert_errors() {
    assert_eq!(updated_permission_role(None, "reader").unwrap(), "reader");
    assert_eq!(updated_permission_role(Some(" owner ".to_string()), "reader").unwrap(), "owner");
    assert_eq!(
        updated_permission_role(Some("boss".to_string()), "reader").unwrap_err().detail,
        "permission role is invalid"
    );
    assert_eq!(
        permission_insert_error_problem("UNIQUE constraint failed: x").detail,
        "permission already exists for node subject"
    );
}

#[test]
fn page_windows_skip_and_take_one_extra() {
    assert_eq!(page_window(10, 2, 3), (2, 6));
    assert_eq!(page_window(10, 8, 3), (8, 10));
    assert_eq!(page_window(10, 20, 3), (10, 10));
}

#[test]
fn capability_sources_give_roles() {
    assert!(is_space_owner_subject("user", "u1", "user", "u1"));
    assert!(!is_space_owner_subject("user", "u1", "user", "u2"));
    let owner = capabilities_input(
        "t".to_string(),
        "n".to_string(),
        "user".to_string(),
        "u1".to_string(),
        CapabilitySource::SpaceOwner,
        "active".to_string(),
    );
    assert_eq!((owner.role.as_str(), owner.source.as_str()), ("owner", "space_owner"));
    let inherited = capabilities_input(
        "t".to_string(),
        "n".to_string(),
        "user".to_string(),
        "u1".to_string(),
        CapabilitySource::Permission(FoundPermission {
            id: "g".to_string(),
            node_id: "parent".to_string(),
            role: "writer".to_string(),
        }),
        "active".to_string(),
    );
    assert!(inherited.inherited);
    assert_eq!(inherited.inherited_from_node_id.as_deref(), Some("parent"));
    assert_eq!(inherited.permission_id.as_deref(), Some("g"));
    let none = capabilities_input(
        "t".to_string(),
        "n".to_string(),
        "user".to_string(),
        "u1".to_string(),
        CapabilitySource::NoAccess,
        "active".to_string(),
    );
    assert_eq!(none.role, "none");
}

#[test]
fn share_links_comments_and_properties() {
    assert_eq!(share_link_create_role(None).unwrap(), "reader");
    assert!(share_link_create_role(Some("owner".to_string())).is_err());
    assert!(check_share_link_limits(Some(10), Some(0), 5).is_ok());
    assert_eq!(
        check_share_link_limits(None, Some(-1), 5).unwrap_err().detail,
        "downloadLimit must be greater than or equal to 0"
    );
    assert_eq!(apply_optional_i64_patch(None, Some(3)), Some(3));
    assert_eq!(apply_optional_i64_patch(Some(None), Some(3)), None);
    assert_eq!(apply_optional_i64_patch(Some(Some(4)), Some(3)), Some(4));
    let update = plan_share_link_update("reader", Some(100), None, Some("writer".to_string()), None, Some(Some(2)), 50).unwrap();
    assert_eq!((update.role.as_str(), update.expires_at_epoch_ms, update.download_limit), ("writer", Some(100), Some(2)));
    assert_eq!(
        plan_share_link_update("reader", Some(10), None, None, None, None, 50).unwrap_err().detail,
        "expiresAtEpochMs must be in the future"
    );
    assert_eq!(share_link_insert_error_problem("UNIQUE constraint failed").detail, "share token already exists");
    assert_eq!(write_outcome(0, "share link not found").unwrap_err().status, 404);
    assert_eq!(operator_or_unset(Some("  ".to_string())), "operator-unset");
    let (id, content, anchor) = plan_comment_create(" c1 ".to_string(), " hi ".to_string(), Some(" ".to_string())).unwrap();
    assert_eq!((id.as_str(), content.as_str(), anchor), ("c1", "hi", None));
    assert_eq!(
        plan_comment_create("c1".to_string(), " ".to_string(), None).unwrap_err().detail,
        "content is required"
    );
    let (content, anchor, resolved) = plan_comment_update(
        "old".to_string(),
        Some("a1".to_string()),
        false,
        None,
        None,
        Some(true),
    )
    .unwrap();
    assert_eq!((content.as_str(), anchor.as_deref(), resolved), ("old", Some("a1"), true));
    let property = plan_node_property(" t1 ", "n1", " color ", None, " blue ".to_string()).unwrap();
    assert_eq!(property.id, "p:fb254df86a138a210704c30871c71ea9be2ff2e8e159942ee331106a644904");
    assert_eq!((property.property_key.as_str(), property.visibility.as_str(), property.property_value.as_str()), ("color", "private", "blue"));
    assert_eq!(
        plan_node_property("t", "n", "bad key", None, "v".to_string()).unwrap_err().detail,
        "propertyKey is invalid"
    );
}

#[test]
fn watch_channels_are_planned() {
    let channel = plan_watch_channel(
        WatchTarget::Node { space_id: "s".to_string(), node_id: "n".to_string() },
        " ch-1 ",
        "https://hook",
        None,
        Some(" secret\t".to_string()),
        100,
        50,
    )
    .unwrap();
    assert_eq!(channel.id, "ch-1");
    assert_eq!(channel.resource_type, "node");
    assert_eq!(channel.resource_id.as_deref(), Some("n"));
    assert_eq!(channel.channel_type, "web_hook");
    assert_eq!(
        channel.token_hash.as_deref(),
        Some("2bb80d537b1da3e38bd30361aa855686bde0eacd7162fef6a25fe97bf527a25b")
    );
    let changes = plan_watch_channel(
        WatchTarget::SpaceChanges { space_id: "s".to_string() },
        "ch-2",
        "https://hook",
        Some("web_hook".to_string()),
        None,
        100,
        50,
    )
    .unwrap();
    assert_eq!(changes.resource_type, "changes");
    assert_eq!(changes.node_id, None);
    assert_eq!(
        plan_watch_channel(WatchTarget::SpaceChanges { space_id: "s".to_string() }, "ch", "http://x", None, None, 100, 50)
            .unwrap_err()
            .detail,
        "address must be an https webhook URL"
    );
    assert_eq!(
        watch_channel_insert_error_problem("UNIQUE constraint failed").detail,
        "watch channel id already exists"
    );
}

fn space() -> DriveSpace {
    DriveSpace {
        id: "s1".to_string(),
        tenant_id: "t".to_string(),
        owner_subject_type: "user".to_string(),
        owner_subject_id: "u1".to_string(),
        display_name: "Team".to_string(),
        presentation_icon: Some("icon".to_string()),
        presentation_color: None,
        description: None,
        space_type: "team".to_string(),
        lifecycle_status: "active".to_string(),
        version: 2,
        created_by: "u1".to_string(),
    }
}

#[test]
fn spaces_and_their_lifecycle() {
    let response = map_space_response(space());
    assert_eq!((response.id.as_str(), response.space_type.as_str(), response.version), ("s1", "team", 2));
    match space_insert_error("UNIQUE constraint failed: dr_drive_space") {
        DriveServiceError::Conflict(m) => assert_eq!(m, "space already exists for tenant/owner/type"),
        other => panic!("unexpected {:?}", other),
    }
    let update = merge_space_update(&space(), None, None, Some("red"), None);
    assert_eq!(update.display_name, "Team");
    assert_eq!(update.presentation_icon.as_deref(), Some("icon"));
    assert_eq!(update.presentation_color.as_deref(), Some("red"));
    assert!(space_write_outcome(0).is_err());
    assert_eq!(team_space_root_name("  "), "Shared space");
    assert_eq!(team_space_root_name(" Design "), "Design");
    let command = BootstrapTeamSpaceCreatorAccessCommand {
        tenant_id: "t".to_string(),
        space_id: "s1".to_string(),
        creator_user_id: "u1".to_string(),
        display_name: "".to_string(),
        root_folder_id: "root-1".to_string(),
    };
    match plan_team_space_root(&command, None) {
        TeamSpaceRootPlan::Create { root_folder_id, root_name } => {
            assert_eq!((root_folder_id.as_str(), root_name.as_str()), ("root-1", "Shared space"))
        }
        other => panic!("unexpected {:?}", other),
    }
    let grant = creator_owner_grant(&command, "root-1".to_string());
    assert_eq!((grant.subject_type.as_str(), grant.role.as_str(), grant.operator_id.as_str()), ("user", "owner", "u1"));
    let service = SqlDrivePermissionService::new(3u32);
    assert_eq!(*service.store(), 3);
}

#[test]
fn upload_content_policy_modes() {
    let context = UploadContentPolicyContext {
        tenant_id: "t".to_string(),
        upload_item_id: "i".to_string(),
        content_type: "application/x-msdownload".to_string(),
        content_length: 1,
        checksum_sha256_hex: "x".to_string(),
    };
    assert_eq!(decide_upload_content_policy(UploadContentPolicyMode::Disabled, &context, true).unwrap(), ContentPolicyOutcome::Skipped);
    assert_eq!(decide_upload_content_policy(UploadContentPolicyMode::Enforce, &context, false).unwrap(), ContentPolicyOutcome::Allowed);
    assert_eq!(decide_upload_content_policy(UploadContentPolicyMode::Audit, &context, true).unwrap(), ContentPolicyOutcome::Audited);
    match decide_upload_content_policy(UploadContentPolicyMode::Enforce, &context, true) {
        Err(DriveServiceError::Validation(m)) => {
            assert_eq!(m, "upload blocked by content policy for content type application/x-msdownload")
        }
        other => panic!("unexpected {:?}", other),
    }
}

fn uploader_request() -> PrepareUploaderUploadRequest {
    PrepareUploaderUploadRequest {
        id: Some("item".to_string()),
        task_id: None,
        tenant_id: None,
        organization_id: None,
        app_id: " app1 ".to_string(),
        user_id: Some("  ".to_string()),
        anonymous_id: None,
        app_resource_type: None,
        app_resource_id: None,
        scene: None,
        source: None,
        upload_profile_code: None,
        file_fingerprint: None,
        original_file_name: "a.pdf".to_string(),
        content_type: None,
        content_length: 5,
        chunk_size_bytes: 5_242_880,
        space_id: None,
        parent_node_id: None,
        share_token: None,
        retention: Some(UploaderRetentionRequest {
            mode: " temporary ".to_string(),
            ttl_seconds: None,
            cleanup_action: None,
            hard_delete_after_seconds: Some(60),
        }),
        operator_id: None,
        now_epoch_ms: None,
    }
}

#[test]
fn uploader_commands_fill_their_defaults() {
    let command = prepare_uploader_command_at(uploader_request(), 42).unwrap();
    assert_eq!(command.app_id, "app1");
    match command.actor {
        UploaderActor::Anonymous { anonymous_id } => assert_eq!(anonymous_id, "app:app1:anonymous"),
        other => panic!("unexpected {:?}", other),
    }
    assert!(matches!(command.target, UploaderTarget::AutoUploadSpace { parent_node_id: None }));
    match command.retention {
        UploaderRetention::Temporary { ttl_seconds, cleanup_action, hard_delete_after_seconds } => {
            assert_eq!((ttl_seconds, cleanup_action.as_str(), hard_delete_after_seconds), (86_400, "soft_delete", Some(60)));
        }
        other => panic!("unexpected {:?}", other),
    }
    assert_eq!(command.upload_profile_code, "generic");
    assert_eq!(command.now_epoch_ms, 42);
    let mut bad = uploader_request();
    bad.retention = Some(UploaderRetentionRequest {
        mode: "forever".to_string(),
        ttl_seconds: None,
        cleanup_action: None,
        hard_delete_after_seconds: None,
    });
    assert_eq!(
        prepare_uploader_command_at(bad, 42).unwrap_err().detail,
        "retention.mode must be temporary or long_term"
    );
    let mut user = uploader_request();
    user.user_id = Some(" u9 ".to_string());
    user.space_id = Some("s1".to_string());
    let command = prepare_uploader_command_at(user, 42).unwrap();
    assert!(matches!(command.actor, UploaderActor::User { ref user_id } if user_id == "u9"));
    assert!(matches!(command.target, UploaderTarget::Space { ref space_id, .. } if space_id == "s1"));
    let mut blank = uploader_request();
    blank.app_id = " ".to_string();
    assert_eq!(prepare_uploader_command_at(blank, 1).unwrap_err().detail, "appId is required");
}

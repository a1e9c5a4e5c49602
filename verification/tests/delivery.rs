use sdkwork_drive::delivery::{
    decide_delivery_write, is_uuid, plan_event_delivery, plan_knowledgebase_raw_registration,
    plan_subscription_lookup, require_text, validate_existing_channel,
    validate_verification_token, DeliveryChannelRow, DeliveryWrite,
    DriveRootScopeEventDeliveryService, DriveRootScopeSubscriptionService,
    EnsureDriveRootScopeEventDelivery, EnsureRootScopeEventDeliveryCommand,
    GetRootScopeSubscriptionCommand, RegisterKnowledgebaseRawScopeCommand,
    RootScopeSubscriptionRow,
};
use sdkwork_drive::errors::DriveServiceError;

const UUID: &str = "936da01f-9abd-4d9d-80c7-02af85c822a8";

fn command() -> EnsureRootScopeEventDeliveryCommand {
    EnsureRootScopeEventDeliveryCommand {
        tenant_id: " tenant-a ".to_string(),
        subscription_uuid: UUID.to_string(),
        address: "https://hooks.example/x".to_string(),
        verification_token: "abcdefghij_KLMNOP-123".to_string(),
        expiration_epoch_ms: 2_000,
        operator_id: "op".to_string(),
    }
}

fn validation(r: Result<impl std::fmt::Debug, DriveServiceError>) -> String {
    match r {
        Err(DriveServiceError::Validation(m)) => m,
        other => panic!("expected a validation error, got {:?}", other),
    }
}

#[test]
fn require_text_trims_and_bounds_the_length() {
    assert_eq!(require_text(" abc ".to_string(), "f", 3).unwrap(), "abc");
    assert_eq!(
        validation(require_text("abcd".to_string(), "f", 3)),
        "f must contain between 1 and 3 characters"
    );
    assert_eq!(
        validation(require_text("   ".to_string(), "tenant_id", 64)),
        "tenant_id must contain between 1 and 64 characters"
    );
    assert_eq!(
        validation(require_text("é".to_string(), "f", 1)),
        "f must contain between 1 and 1 characters"
    );
}

#[test]
fn verification_tokens_are_bounded_base64url() {
    assert!(validate_verification_token("abc-DEF_123", 4, 16).is_ok());
    assert_eq!(
        validation(validate_verification_token("abc", 4, 16)),
        "verification_token must contain 4 to 16 base64url characters"
    );
    assert!(validate_verification_token("abc def", 1, 16).is_err());
    assert!(validate_verification_token("abc+def", 1, 16).is_err());
}

#[test]
fn uuid_forms_are_recognised() {
    assert!(is_uuid(UUID));
    assert!(is_uuid("936DA01F9ABD4D9D80C702AF85C822A8"));
    assert!(is_uuid("{936da01f-9abd-4d9d-80c7-02af85c822a8}"));
    assert!(is_uuid("URN:uuid:936da01f-9abd-4d9d-80c7-02af85c822a8"));
    assert!(!is_uuid("936da01f-9abd-4d9d-80c7-02af85c822a"));
    assert!(!is_uuid("936da01f+9abd-4d9d-80c7-02af85c822a8"));
}

#[test]
fn event_delivery_plan_builds_the_store_request() {
    let plan = plan_event_delivery(
        command(),
        Ok("https://hooks.example/x".to_string()),
        "key".to_string(),
        8,
        64,
        1_000,
    )
    .unwrap();
    assert_eq!(plan.tenant_id, "tenant-a");
    assert_eq!(plan.channel_id, format!("kbraw:{UUID}"));
    assert_eq!(plan.signing_key_sha256, "key");
    assert_eq!(plan.operator_id, "op");
}

#[test]
fn event_delivery_plan_reports_the_first_problem() {
    let mut c = command();
    c.subscription_uuid = "not-a-uuid".to_string();
    assert_eq!(
        validation(plan_event_delivery(c, Ok(String::new()), String::new(), 8, 64, 1_000)),
        "subscription_uuid must be a UUID"
    );
    assert_eq!(
        validation(plan_event_delivery(
            command(),
            Err("address must use https".to_string()),
            String::new(),
            8,
            64,
            1_000
        )),
        "address must use https"
    );
    assert_eq!(
        validation(plan_event_delivery(command(), Ok(String::new()), String::new(), 8, 64, 2_000)),
        "expiration_epoch_ms must be in the future"
    );
}

#[test]
fn knowledgebase_registration_checks_each_field() {
    let ok = plan_knowledgebase_raw_registration(RegisterKnowledgebaseRawScopeCommand {
        tenant_id: "t".to_string(),
        space_id: " s ".to_string(),
        knowledge_base_id: "kb".to_string(),
        raw_folder_node_id: "raw".to_string(),
        operator_id: "op".to_string(),
    })
    .unwrap();
    assert_eq!(ok.space_id, "s");
    assert_eq!(ok.consumer_resource_id, "kb");
    let err = plan_knowledgebase_raw_registration(RegisterKnowledgebaseRawScopeCommand {
        tenant_id: "t".to_string(),
        space_id: "s".to_string(),
        knowledge_base_id: " ".to_string(),
        raw_folder_node_id: "raw".to_string(),
        operator_id: "op".to_string(),
    });
    assert_eq!(validation(err), "knowledge_base_id must contain between 1 and 128 characters");
    let (t, u) = plan_subscription_lookup(GetRootScopeSubscriptionCommand {
        tenant_id: " t ".to_string(),
        subscription_uuid: "u".to_string(),
    })
    .unwrap();
    assert_eq!((t.as_str(), u.as_str()), ("t", "u"));
}

fn request() -> EnsureDriveRootScopeEventDelivery {
    EnsureDriveRootScopeEventDelivery {
        tenant_id: "t".to_string(),
        subscription_uuid: UUID.to_string(),
        channel_id: format!("kbraw:{UUID}"),
        address: "https://a".to_string(),
        signing_key_sha256: "k".to_string(),
        expiration_epoch_ms: 5,
        operator_id: "op".to_string(),
    }
}

fn channel(address: &str) -> DeliveryChannelRow {
    DeliveryChannelRow {
        space_id: Some("s".to_string()),
        node_id: None,
        resource_type: "changes".to_string(),
        resource_id: Some("s".to_string()),
        address: address.to_string(),
        token_hash: Some("k".to_string()),
        expiration_epoch_ms: 5,
        lifecycle_status: "active".to_string(),
    }
}

fn active_subscription() -> Option<RootScopeSubscriptionRow> {
    Some(RootScopeSubscriptionRow { space_id: "s".to_string(), scope_status: "active".to_string() })
}

#[test]
fn delivery_write_depends_on_subscription_and_channel() {
    match decide_delivery_write(&request(), None, None) {
        Err(DriveServiceError::NotFound(m)) => assert_eq!(m, "root scope subscription not found"),
        other => panic!("unexpected {:?}", other),
    }
    let paused = Some(RootScopeSubscriptionRow {
        space_id: "s".to_string(),
        scope_status: "paused".to_string(),
    });
    match decide_delivery_write(&request(), paused, None) {
        Err(DriveServiceError::Conflict(m)) => assert_eq!(m, "root scope subscription is not active"),
        other => panic!("unexpected {:?}", other),
    }
    match decide_delivery_write(&request(), active_subscription(), None).unwrap() {
        DeliveryWrite::Insert { space_id } => assert_eq!(space_id, "s"),
        other => panic!("unexpected {:?}", other),
    }
    assert_eq!(
        decide_delivery_write(&request(), active_subscription(), Some(channel("https://a"))).unwrap(),
        DeliveryWrite::Unchanged
    );
    assert_eq!(
        decide_delivery_write(&request(), active_subscription(), Some(channel("https://b"))).unwrap(),
        DeliveryWrite::Update
    );
    let mut moved = channel("https://a");
    moved.node_id = Some("n".to_string());
    assert!(validate_existing_channel(&moved, "s").is_err());
    match decide_delivery_write(&request(), active_subscription(), Some(moved)) {
        Err(DriveServiceError::Conflict(m)) => {
            assert_eq!(m, "root scope event delivery channel cannot be retargeted")
        }
        other => panic!("unexpected {:?}", other),
    }
}

#[test]
fn services_hold_their_store() {
    let delivery = DriveRootScopeEventDeliveryService::new(7u8);
    assert_eq!(*delivery.store(), 7);
    let subscriptions = DriveRootScopeSubscriptionService::new("store");
    assert_eq!(*subscriptions.store(), "store");
}

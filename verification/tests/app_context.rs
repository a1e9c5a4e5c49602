use sdkwork_drive::app_context::DriveRequestContext;

fn token_context() -> DriveRequestContext {
    DriveRequestContext {
        tenant_id: "tenant-001".to_string(),
        user_id: "user-001".to_string(),
        app_id: Some("appbase".to_string()),
        actor_id: "user-001".to_string(),
        subject_type: "user".to_string(),
        subject_id: "user-001".to_string(),
        from_token: true,
    }
}

#[test]
fn resolve_tenant_id_from_token_when_query_is_omitted() {
    let ctx = token_context();
    assert_eq!(ctx.resolve_tenant_id(None).expect("tenant"), "tenant-001");
}

#[test]
fn reject_conflicting_tenant_id_from_token_context() {
    let ctx = token_context();
    let error = ctx
        .resolve_tenant_id(Some("tenant-002".to_string()))
        .expect_err("conflict");
    assert_eq!(error.status, 403);
}

#[test]
fn resolve_subject_from_token_when_query_is_omitted() {
    let ctx = token_context();
    let (subject_type, subject_id) = ctx.resolve_subject(None, None).expect("subject");
    assert_eq!(subject_type, "user");
    assert_eq!(subject_id, "user-001");
}

#[test]
fn resolve_app_id_and_user_id_from_token_when_body_omits_them() {
    let ctx = token_context();
    assert_eq!(ctx.resolve_app_id(None).expect("app"), "appbase");
    assert_eq!(
        ctx.resolve_uploader_user_id(None).expect("user"),
        Some("user-001".to_string())
    );
}

#[test]
fn query_context_requires_tenant_and_defaults_operator() {
    let ctx = DriveRequestContext {
        tenant_id: String::new(),
        user_id: String::new(),
        app_id: None,
        actor_id: String::new(),
        subject_type: "user".to_string(),
        subject_id: String::new(),
        from_token: false,
    };
    let error = ctx.resolve_tenant_id(None).expect_err("missing");
    assert_eq!(error.status, 400);
    assert_eq!(error.detail, "tenantId is required");
    assert_eq!(ctx.resolve_operator_id(None).unwrap(), "operator-unset");
    assert_eq!(ctx.resolve_tenant_id(Some(" t1 ".to_string())).unwrap(), "t1");
}

use sdkwork_drive::changes::{
    change_cursor_id, drive_node_uri, node_version_committed_data, parse_root_scope_kind,
    space_relative_path, DriveRootScopeKind, RecordDriveChangeCommand,
    RecordDriveNodeVersionCommittedCommand,
};
use sdkwork_drive::errors::DriveServiceError;
use sdkwork_drive::hashing::drive_share_token_hash;
use sdkwork_drive::outbox::{
    build_outbox_claim_exclude_clause, dispatch_interval_seconds, embedded_dispatch_disabled_by,
    NO_ACTIVE_WATCH_CHANNELS_ERROR,
};
use sdkwork_drive::acl::reader_inherited_permission_exists_sql;
use sdkwork_drive::transaction::{begin_transaction_sql, begin_transaction_sql_for_engine, DatabaseEngine};

#[test]
fn record_drive_change_command_carries_event_type() {
    let command = RecordDriveChangeCommand {
        tenant_id: "tenant-a",
        space_id: "space-a",
        node_id: Some("node-a"),
        event_type: "drive.node.created",
        actor_id: "user-a",
    };
    assert_eq!(command.event_type, "drive.node.created");
}

#[test]
fn no_active_watch_channels_error_is_stable() {
    assert_eq!(NO_ACTIVE_WATCH_CHANNELS_ERROR, "no_active_watch_channels");
}

#[test]
fn outbox_claim_exclude_clause_escapes_single_quotes() {
    let exclude = vec!["outbox-'quoted".to_string()];
    assert_eq!(
        build_outbox_claim_exclude_clause(&exclude),
        " AND id NOT IN ('outbox-''quoted')"
    );
}

#[test]
fn outbox_claim_exclude_clause_is_empty_without_ids_and_joins_several() {
    assert_eq!(build_outbox_claim_exclude_clause(&Vec::new()), "");
    let exclude = vec!["a".to_string(), "b'c".to_string()];
    assert_eq!(
        build_outbox_claim_exclude_clause(&exclude),
        " AND id NOT IN ('a', 'b''c')"
    );
}

#[test]
fn embedded_dispatch_setting_parses_false_values() {
    assert!(embedded_dispatch_disabled_by(Some("false".to_string())));
    assert!(embedded_dispatch_disabled_by(Some(" OFF ".to_string())));
    assert!(embedded_dispatch_disabled_by(Some("0".to_string())));
    assert!(embedded_dispatch_disabled_by(Some("Disabled".to_string())));
    assert!(!embedded_dispatch_disabled_by(Some("true".to_string())));
    assert!(!embedded_dispatch_disabled_by(None));
}

#[test]
fn dispatch_interval_defaults_to_fifteen_seconds() {
    assert_eq!(dispatch_interval_seconds(None), 15);
    assert_eq!(dispatch_interval_seconds(Some(" 30 ".to_string())), 30);
    assert_eq!(dispatch_interval_seconds(Some("0".to_string())), 15);
    assert_eq!(dispatch_interval_seconds(Some("abc".to_string())), 15);
    assert_eq!(dispatch_interval_seconds(Some("+7".to_string())), 7);
    assert_eq!(dispatch_interval_seconds(Some("18446744073709551616".to_string())), 15);
}

#[test]
fn reader_predicate_uses_recursive_ancestor_walk() {
    let sql = reader_inherited_permission_exists_sql("n", "$4", "$5");
    assert!(sql.contains("WITH RECURSIVE node_ancestors"));
    assert!(sql.contains("permission_row.subject_type = $4"));
    assert!(sql.contains("'reader'"));
}

#[test]
fn begin_transaction_sql_for_engine_matches_engine_semantics() {
    assert_eq!(
        begin_transaction_sql_for_engine(DatabaseEngine::Sqlite),
        "BEGIN IMMEDIATE"
    );
    assert_eq!(
        begin_transaction_sql_for_engine(DatabaseEngine::Postgresql),
        "BEGIN"
    );
}

#[test]
fn begin_transaction_sql_prefers_installed_then_configured_engine() {
    assert_eq!(begin_transaction_sql(None, None), "BEGIN");
    assert_eq!(begin_transaction_sql(None, Some(DatabaseEngine::Sqlite)), "BEGIN IMMEDIATE");
    assert_eq!(
        begin_transaction_sql(Some(DatabaseEngine::Postgresql), Some(DatabaseEngine::Sqlite)),
        "BEGIN"
    );
}

#[test]
fn drive_share_token_hash_uses_sha256_hex_digest() {
    let digest = drive_share_token_hash("abc");

    assert_eq!(
        digest,
        "sha256:ba7816bf8f01cfea414140de5dae2223b00361a396177a9cb410ff61f20015ad"
    );
}

#[test]
fn drive_share_token_hash_normalizes_surrounding_whitespace() {
    assert_eq!(
        drive_share_token_hash("abc"),
        drive_share_token_hash(" abc\n")
    );
}

#[test]
fn change_ids_and_uris_follow_their_layouts() {
    assert_eq!(change_cursor_id("t1", "s1"), "cursor:t1:s1");
    assert_eq!(drive_node_uri("s1", "n1"), "drive://spaces/s1/nodes/n1");
}

#[test]
fn space_relative_path_joins_lineage_or_is_not_found() {
    let names = vec!["root".to_string(), "docs".to_string(), "a.txt".to_string()];
    assert_eq!(space_relative_path(&names).unwrap(), "root/docs/a.txt");
    match space_relative_path(&Vec::new()) {
        Err(DriveServiceError::NotFound(m)) => assert_eq!(m, "Drive node path cannot be resolved"),
        other => panic!("unexpected {:?}", other),
    }
}

#[test]
fn root_scope_kinds_are_read_by_name() {
    assert_eq!(parse_root_scope_kind("website_root").unwrap(), DriveRootScopeKind::WebsiteRoot);
    assert_eq!(
        parse_root_scope_kind("knowledgebase_raw").unwrap(),
        DriveRootScopeKind::KnowledgebaseRaw
    );
    match parse_root_scope_kind("other") {
        Err(DriveServiceError::Internal(m)) => {
            assert_eq!(m, "unsupported Drive root scope kind: other")
        }
        other => panic!("unexpected {:?}", other),
    }
}

#[test]
fn node_version_committed_data_formats_numbers_and_uri() {
    let command = RecordDriveNodeVersionCommittedCommand {
        tenant_id: "t",
        organization_id: None,
        space_id: "s",
        node_id: "n",
        node_version_id: "v",
        version_no: 3,
        operation_id: "op",
        content_type: "text/plain",
        content_length: -1,
        checksum_sha256_hex: "sha256:x",
        actor_id: "u",
    };
    let data = node_version_committed_data(command, "a/b".to_string(), Vec::new());
    assert_eq!(data.drive_uri, "drive://spaces/s/nodes/n");
    assert_eq!(data.version_no, "3");
    assert_eq!(data.content_length, "-1");
    assert_eq!(data.space_relative_path, "a/b");
}

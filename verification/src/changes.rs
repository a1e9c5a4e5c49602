//! The change log and domain-outbox records of Drive changes: their ids,
//! payloads and the data of a committed node version.
use vstd::prelude::*;
use crate::errors::{DriveServiceError, is_not_found_error, is_internal_error};
use crate::numbers::{decimal_text, format_i64};
use crate::text::{concat_str, copy_str, push_char, opt_view};

verus! {

/// A change to record in the change log and the domain outbox.
#[derive(Debug, Clone, Copy)]
pub struct RecordDriveChangeCommand<'a> {
    pub tenant_id: &'a str,
    pub space_id: &'a str,
    pub node_id: Option<&'a str>,
    pub event_type: &'a str,
    pub actor_id: &'a str,
}

/// A committed node version to record, with the data of its event.
#[derive(Debug, Clone, Copy)]
pub struct RecordDriveNodeVersionCommittedCommand<'a> {
    pub tenant_id: &'a str,
    pub organization_id: Option<&'a str>,
    pub space_id: &'a str,
    pub node_id: &'a str,
    pub node_version_id: &'a str,
    pub version_no: i64,
    pub operation_id: &'a str,
    pub content_type: &'a str,
    pub content_length: i64,
    pub checksum_sha256_hex: &'a str,
    pub actor_id: &'a str,
}

/// Takes the next change sequence number of a space: the cursor `$1` of
/// tenant `$2` and space `$3` starts at 1 and goes up by one on each call.
pub const CHANGE_SEQUENCE_SQL: &'static str = "INSERT INTO dr_drive_change_cursor (id, tenant_id, space_id, last_sequence_no) VALUES ($1, $2, $3, 1) ON CONFLICT(tenant_id, space_id) DO UPDATE SET last_sequence_no=dr_drive_change_cursor.last_sequence_no + 1, updated_at=CURRENT_TIMESTAMP RETURNING last_sequence_no";

/// The id of the change cursor of a space: "`cursor:`tenant`:`space".
pub fn change_cursor_id(tenant_id: &str, space_id: &str) -> (r: String)
    ensures
        r@ == "cursor:"@ + tenant_id@ + ":"@ + space_id@,
{
    let a = concat_str("cursor:", tenant_id);
    let b = concat_str(a.as_str(), ":");
    concat_str(b.as_str(), space_id)
}

/// The URI of a node: "`drive://spaces/`space`/nodes/`node".
pub fn drive_node_uri(space_id: &str, node_id: &str) -> (r: String)
    ensures
        r@ == "drive://spaces/"@ + space_id@ + "/nodes/"@ + node_id@,
{
    let a = concat_str("drive://spaces/", space_id);
    let b = concat_str(a.as_str(), "/nodes/");
    concat_str(b.as_str(), node_id)
}

/// The names joined by `/`.
pub open spec fn slash_joined(names: Seq<Seq<char>>) -> Seq<char>
    decreases names.len(),
{
    if names.len() == 0 {
        Seq::<char>::empty()
    } else if names.len() == 1 {
        names[0]
    } else {
        slash_joined(names.drop_last()) + seq!['/'] + names.last()
    }
}

/// The texts joined by `/`.
pub fn join_with_slash(names: &Vec<String>) -> (r: String)
    ensures
        r@ == slash_joined(names@.map_values(|n: String| n@)),
{
    let ghost ns = names@.map_values(|n: String| n@);
    let mut path = String::new();
    let mut k: usize = 0;
    while k < names.len()
        invariant
            ns == names@.map_values(|n: String| n@),
            k <= names@.len(),
            path@ == slash_joined(ns.take(k as int)),
        decreases names.len() - k,
    {
        assert(ns.take(k + 1).drop_last() =~= ns.take(k as int));
        assert(ns.take(k + 1).last() == names@[k as int]@);
        if k > 0 {
            push_char(&mut path, '/');
        }
        path = concat_str(path.as_str(), names[k].as_str());
        proof {
            if k == 0 {
                assert(ns.take(1)[0] == names@[0]@);
            }
            assert(path@ =~= slash_joined(ns.take(k + 1)));
        }
        k = k + 1;
    }
    assert(ns.take(names@.len() as int) =~= ns);
    path
}

/// The path of a node within its space from the names of its lineage, root
/// first; no lineage means the node cannot be found.
pub fn space_relative_path(names: &Vec<String>) -> (r: Result<String, DriveServiceError>)
    ensures
        names@.len() == 0 ==> is_not_found_error(r, "Drive node path cannot be resolved"@),
        names@.len() > 0 ==> (r matches Ok(p) && p@ == slash_joined(
            names@.map_values(|n: String| n@),
        )),
{
    if names.len() == 0 {
        return Err(DriveServiceError::NotFound(copy_str("Drive node path cannot be resolved")));
    }
    Ok(join_with_slash(names))
}

/// The kinds of root scope a change can fall in.
#[derive(Debug, Clone, Copy, PartialEq, Eq)]
pub enum DriveRootScopeKind {
    WebsiteRoot,
    KnowledgebaseRaw,
}

/// The kind a stored scope kind names.
pub open spec fn root_scope_kind_of(kind: Seq<char>) -> Option<DriveRootScopeKind> {
    if kind == "website_root"@ {
        Some(DriveRootScopeKind::WebsiteRoot)
    } else if kind == "knowledgebase_raw"@ {
        Some(DriveRootScopeKind::KnowledgebaseRaw)
    } else {
        None
    }
}

/// Reads a stored scope kind; an unknown one is an internal error.
pub fn parse_root_scope_kind(kind: &str) -> (r: Result<DriveRootScopeKind, DriveServiceError>)
    ensures
        root_scope_kind_of(kind@) matches Some(k) ==> r == Ok::<
            DriveRootScopeKind,
            DriveServiceError,
        >(k),
        root_scope_kind_of(kind@) is None ==> is_internal_error(
            r,
            "unsupported Drive root scope kind: "@ + kind@,
        ),
{
    if crate::text::text_eq(kind, "website_root") {
        Ok(DriveRootScopeKind::WebsiteRoot)
    } else if crate::text::text_eq(kind, "knowledgebase_raw") {
        Ok(DriveRootScopeKind::KnowledgebaseRaw)
    } else {
        Err(DriveServiceError::Internal(concat_str("unsupported Drive root scope kind: ", kind)))
    }
}

/// A root scope that contains the changed node, as stored.
#[derive(Debug, Clone)]
pub struct RootScopeEffectRow {
    pub scope_id: String,
    pub scope_kind: String,
    pub relative_path: String,
    pub root_generation: Option<String>,
}

/// A root scope that contains the changed node, with the node's path in it.
#[derive(Debug, Clone)]
pub struct DriveRootScopeEffect {
    pub scope_id: String,
    pub scope_kind: DriveRootScopeKind,
    pub relative_path: String,
    pub root_generation: Option<String>,
}

/// `e` is the effect read from `row` of kind `k`.
pub open spec fn effect_of_row(e: DriveRootScopeEffect, row: RootScopeEffectRow) -> bool {
    &&& e.scope_id == row.scope_id
    &&& root_scope_kind_of(row.scope_kind@) == Some(e.scope_kind)
    &&& e.relative_path == row.relative_path
    &&& e.root_generation == row.root_generation
}

/// Reads the root-scope effects of a change; the first row of an unknown
/// kind fails the whole.
pub fn map_root_scope_effects(rows: Vec<RootScopeEffectRow>) -> (r: Result<
    Vec<DriveRootScopeEffect>,
    DriveServiceError,
>)
    ensures
        (forall|i: int| 0 <= i < rows@.len() ==> root_scope_kind_of(#[trigger] rows@[i].scope_kind@) is Some)
            ==> (r matches Ok(es) && es@.len() == rows@.len() && forall|i: int|
            0 <= i < rows@.len() ==> effect_of_row(#[trigger] es@[i], rows@[i])),
        (exists|i: int| 0 <= i < rows@.len() && root_scope_kind_of(#[trigger] rows@[i].scope_kind@) is None)
            ==> (exists|i: int|
            0 <= i < rows@.len() && root_scope_kind_of(#[trigger] rows@[i].scope_kind@) is None
                && (forall|j: int|
                0 <= j < i ==> root_scope_kind_of(#[trigger] rows@[j].scope_kind@) is Some)
                && is_internal_error(r, "unsupported Drive root scope kind: "@ + rows@[i].scope_kind@)),
{
    let mut out: Vec<DriveRootScopeEffect> = Vec::new();
    let mut k: usize = 0;
    while k < rows.len()
        invariant
            k <= rows@.len(),
            out@.len() == k,
            forall|j: int| 0 <= j < k ==> root_scope_kind_of(#[trigger] rows@[j].scope_kind@) is Some,
            forall|j: int| 0 <= j < k ==> effect_of_row(#[trigger] out@[j], rows@[j]),
        decreases rows.len() - k,
    {
        let row = &rows[k];
        match parse_root_scope_kind(row.scope_kind.as_str()) {
            Ok(kind) => {
                out.push(
                    DriveRootScopeEffect {
                        scope_id: row.scope_id.clone(),
                        scope_kind: kind,
                        relative_path: row.relative_path.clone(),
                        root_generation: row.root_generation.clone(),
                    },
                );
            },
            Err(e) => {
                return Err(e);
            },
        }
        k = k + 1;
    }
    Ok(out)
}

/// The data of a node-version-committed event.
#[derive(Debug, Clone)]
pub struct DriveNodeVersionCommittedData {
    pub operation_id: String,
    pub space_id: String,
    pub node_id: String,
    pub drive_uri: String,
    pub drive_version_id: String,
    pub version_no: String,
    pub space_relative_path: String,
    pub content_type: String,
    pub content_length: String,
    pub checksum_sha256_hex: String,
    pub root_scopes: Vec<DriveRootScopeEffect>,
}

/// The data of the event of a committed version: the command's fields, the
/// node's URI, its path in the space, numbers in decimal, and the root
/// scopes it falls in.
pub fn node_version_committed_data(
    command: RecordDriveNodeVersionCommittedCommand<'_>,
    space_relative_path: String,
    root_scopes: Vec<DriveRootScopeEffect>,
) -> (r: DriveNodeVersionCommittedData)
    ensures
        r.operation_id@ == command.operation_id@,
        r.space_id@ == command.space_id@,
        r.node_id@ == command.node_id@,
        r.drive_uri@ == "drive://spaces/"@ + command.space_id@ + "/nodes/"@ + command.node_id@,
        r.drive_version_id@ == command.node_version_id@,
        r.version_no@ == decimal_text(command.version_no as int),
        r.space_relative_path == space_relative_path,
        r.content_type@ == command.content_type@,
        r.content_length@ == decimal_text(command.content_length as int),
        r.checksum_sha256_hex@ == command.checksum_sha256_hex@,
        r.root_scopes == root_scopes,
{
    DriveNodeVersionCommittedData {
        operation_id: copy_str(command.operation_id),
        space_id: copy_str(command.space_id),
        node_id: copy_str(command.node_id),
        drive_uri: drive_node_uri(command.space_id, command.node_id),
        drive_version_id: copy_str(command.node_version_id),
        version_no: format_i64(command.version_no),
        space_relative_path,
        content_type: copy_str(command.content_type),
        content_length: format_i64(command.content_length),
        checksum_sha256_hex: copy_str(command.checksum_sha256_hex),
        root_scopes,
    }
}

/// The change record of a committed version, as a change of its node.
pub fn node_version_change_command<'a>(
    command: RecordDriveNodeVersionCommittedCommand<'a>,
    event_type: &'a str,
) -> (r: RecordDriveChangeCommand<'a>)
    ensures
        r.tenant_id == command.tenant_id,
        r.space_id == command.space_id,
        r.node_id == Some(command.node_id),
        r.event_type == event_type,
        r.actor_id == command.actor_id,
{
    RecordDriveChangeCommand {
        tenant_id: command.tenant_id,
        space_id: command.space_id,
        node_id: Some(command.node_id),
        event_type,
        actor_id: command.actor_id,
    }
}

/// The value of a field of a JSON object the library writes.
#[derive(Debug, Clone)]
pub enum JsonScalar {
    Text(String),
    Int(i64),
    Null,
}

/// A field value as text or number.
pub enum JsonScalarView {
    Text(Seq<char>),
    Int(i64),
    Null,
}

impl JsonScalar {
    /// The value as text or number.
    pub open spec fn scalar_view(&self) -> JsonScalarView {
        match self {
            JsonScalar::Text(t) => JsonScalarView::Text(t@),
            JsonScalar::Int(n) => JsonScalarView::Int(*n),
            JsonScalar::Null => JsonScalarView::Null,
        }
    }
}

/// The keys and values of object fields, as texts and numbers.
pub open spec fn entry_views(entries: Seq<(String, JsonScalar)>) -> Seq<(Seq<char>, JsonScalarView)> {
    entries.map_values(|e: (String, JsonScalar)| (e.0@, e.1.scalar_view()))
}

/// The text `serde_json` writes for the object with these fields: each
/// inserted in turn into a `serde_json::Map` (a later key replaces an earlier
/// one), the map written with `to_string`.
pub uninterp spec fn json_object_text(entries: Seq<(Seq<char>, JsonScalarView)>) -> Seq<char>;

/// Inserts each field into a `serde_json::Map` (as a JSON string, number
/// or null) and writes the object with `to_string`. The text is named by
/// `json_object_text`, not stated.
#[verifier::external_body]
fn json_object_to_string(entries: &Vec<(String, JsonScalar)>) -> (r: String)
    ensures
        r@ == json_object_text(entry_views(entries@)),
{
    let mut map = serde_json::Map::new();
    for (key, value) in entries {
        let value = match value {
            JsonScalar::Text(text) => serde_json::Value::String(text.clone()),
            JsonScalar::Int(number) => serde_json::Value::from(*number),
            JsonScalar::Null => serde_json::Value::Null,
        };
        map.insert(key.clone(), value);
    }
    serde_json::Value::Object(map).to_string()
}

/// The fields of a change's outbox payload, in order: `tenantId`, `spaceId`,
/// `nodeId` (null when the change names no node), `eventType`, `sequenceNo`,
/// `actorId` and `resourceType`, which is `changes`.
pub open spec fn change_payload_entries(
    tenant_id: Seq<char>,
    space_id: Seq<char>,
    node_id: Option<Seq<char>>,
    event_type: Seq<char>,
    sequence_no: i64,
    actor_id: Seq<char>,
) -> Seq<(Seq<char>, JsonScalarView)> {
    seq![
        ("tenantId"@, JsonScalarView::Text(tenant_id)),
        ("spaceId"@, JsonScalarView::Text(space_id)),
        ("nodeId"@, match node_id {
            Some(n) => JsonScalarView::Text(n),
            None => JsonScalarView::Null,
        }),
        ("eventType"@, JsonScalarView::Text(event_type)),
        ("sequenceNo"@, JsonScalarView::Int(sequence_no)),
        ("actorId"@, JsonScalarView::Text(actor_id)),
        ("resourceType"@, JsonScalarView::Text("changes"@)),
    ]
}

/// The outbox payload of a change with its sequence number: the JSON object
/// of its fields.
pub fn change_payload(command: RecordDriveChangeCommand<'_>, sequence_no: i64) -> (r: String)
    ensures
        r@ == json_object_text(
            change_payload_entries(
                command.tenant_id@,
                command.space_id@,
                match command.node_id {
                    Some(n) => Some(n@),
                    None => None,
                },
                command.event_type@,
                sequence_no,
                command.actor_id@,
            ),
        ),
{
    let node = match command.node_id {
        Some(n) => JsonScalar::Text(copy_str(n)),
        None => JsonScalar::Null,
    };
    let entries: Vec<(String, JsonScalar)> = vec![
        (copy_str("tenantId"), JsonScalar::Text(copy_str(command.tenant_id))),
        (copy_str("spaceId"), JsonScalar::Text(copy_str(command.space_id))),
        (copy_str("nodeId"), node),
        (copy_str("eventType"), JsonScalar::Text(copy_str(command.event_type))),
        (copy_str("sequenceNo"), JsonScalar::Int(sequence_no)),
        (copy_str("actorId"), JsonScalar::Text(copy_str(command.actor_id))),
        (copy_str("resourceType"), JsonScalar::Text(copy_str("changes"))),
    ];
    assert(entry_views(entries@) =~= change_payload_entries(
        command.tenant_id@,
        command.space_id@,
        match command.node_id {
            Some(n) => Some(n@),
            None => None,
        },
        command.event_type@,
        sequence_no,
        command.actor_id@,
    ));
    json_object_to_string(&entries)
}


/// Root scopes listed in one event at most: the limit the root-scope
/// lookup is run with.
pub const MAX_ROOT_SCOPE_EFFECTS_PER_EVENT: i64 = 256;

/// The change-log row and the outbox row of one change: both under the same
/// sequence number, with the command's event type, node and actor; the
/// outbox row holds the payload and is pending.
#[derive(Debug, Clone)]
pub struct ChangeRecordRows {
    pub tenant_id: String,
    pub space_id: String,
    pub node_id: Option<String>,
    pub event_type: String,
    pub actor_id: String,
    pub change_sequence_no: i64,
    pub outbox_sequence_no: i64,
    pub payload_json: String,
    pub delivery_status: String,
}

/// The rows recording `command` under `sequence_no`, the number the space's
/// change cursor gave, with its outbox payload.
pub fn change_record_rows(
    command: RecordDriveChangeCommand<'_>,
    sequence_no: i64,
    payload_json: String,
) -> (r: ChangeRecordRows)
    ensures
        r.tenant_id@ == command.tenant_id@,
        r.space_id@ == command.space_id@,
        opt_view(r.node_id) == match command.node_id {
            Some(n) => Some(n@),
            None => None,
        },
        r.event_type@ == command.event_type@,
        r.actor_id@ == command.actor_id@,
        r.change_sequence_no == sequence_no,
        r.outbox_sequence_no == sequence_no,
        r.payload_json == payload_json,
        r.delivery_status@ == "pending"@,
{
    ChangeRecordRows {
        tenant_id: copy_str(command.tenant_id),
        space_id: copy_str(command.space_id),
        node_id: match command.node_id {
            Some(n) => Some(copy_str(n)),
            None => None,
        },
        event_type: copy_str(command.event_type),
        actor_id: copy_str(command.actor_id),
        change_sequence_no: sequence_no,
        outbox_sequence_no: sequence_no,
        payload_json,
        delivery_status: copy_str("pending"),
    }
}

/// The rows of a committed version: a change of its node with the given
/// event type, under the space's next sequence number, and the event's
/// payload.
pub fn node_version_committed_rows(
    command: RecordDriveNodeVersionCommittedCommand<'_>,
    event_type: &str,
    sequence_no: i64,
    payload_json: String,
) -> (r: ChangeRecordRows)
    ensures
        r.tenant_id@ == command.tenant_id@,
        r.space_id@ == command.space_id@,
        opt_view(r.node_id) == Some(command.node_id@),
        r.event_type@ == event_type@,
        r.actor_id@ == command.actor_id@,
        r.change_sequence_no == sequence_no,
        r.outbox_sequence_no == sequence_no,
        r.payload_json == payload_json,
        r.delivery_status@ == "pending"@,
{
    change_record_rows(node_version_change_command(command, event_type), sequence_no, payload_json)
}

} // verus!

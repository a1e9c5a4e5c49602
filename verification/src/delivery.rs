//! Root-scope subscriptions of knowledge bases and the webhook deliveries of
//! their change events: request validation and what the store writes.
use vstd::prelude::*;
use crate::errors::{DriveServiceError, is_validation_error, is_conflict_error, is_not_found_error};
use crate::numbers::{decimal_text, push_decimal};
use crate::text::{
    trim, trim_str, copy_str, concat_str, chars_of, text_eq, ascii_lowercase, opt_view,
};
use crate::validators::{utf8_len, utf8_byte_len, current_epoch_ms};

verus! {

/// The prefix of the channel id of a knowledge-base delivery.
pub const KNOWLEDGEBASE_CHANNEL_PREFIX: &'static str = "kbraw:";

/// "`field` must contain between 1 and `max` characters".
pub open spec fn text_length_detail(field: Seq<char>, max: int) -> Seq<char> {
    field + " must contain between 1 and "@ + decimal_text(max) + " characters"@
}

/// The trimmed text, when it is not blank and has at most `max` UTF-8 bytes.
pub open spec fn bounded_text(value: Seq<char>, max: int) -> Option<Seq<char>> {
    let t = trim(value);
    if t.len() == 0 || utf8_len(t) > max {
        None
    } else {
        Some(t)
    }
}

/// `r` answers a bounded text: the trimmed text, or the length error.
pub open spec fn bounded_text_result(
    r: Result<String, DriveServiceError>,
    value: Seq<char>,
    field: Seq<char>,
    max: int,
) -> bool {
    match bounded_text(value, max) {
        Some(t) => r matches Ok(x) && x@ == t,
        None => is_validation_error(r, text_length_detail(field, max)),
    }
}

/// A required text of at most `max_length` bytes, trimmed.
pub fn require_text(value: String, field_name: &str, max_length: usize) -> (r: Result<
    String,
    DriveServiceError,
>)
    ensures
        bounded_text_result(r, value@, field_name@, max_length as int),
{
    let t = trim_str(value.as_str());
    let n = utf8_byte_len(t.as_str());
    if t.as_str().is_empty() || n > max_length as u128 {
        let mut m = concat_str(field_name, " must contain between 1 and ");
        push_decimal(&mut m, max_length as u64);
        let m = concat_str(m.as_str(), " characters");
        return Err(DriveServiceError::Validation(m));
    }
    Ok(t)
}

/// A base64url character: an ASCII letter or digit, `-` or `_`.
pub open spec fn is_base64url_char(c: char) -> bool {
    ('a' <= c <= 'z') || ('A' <= c <= 'Z') || ('0' <= c <= '9') || c == '-' || c == '_'
}

/// A verification token: `min` to `max` base64url characters.
pub open spec fn is_verification_token(t: Seq<char>, min: int, max: int) -> bool {
    &&& forall|i: int| 0 <= i < t.len() ==> is_base64url_char(#[trigger] t[i])
    &&& min <= t.len() <= max
}

/// "verification_token must contain `min` to `max` base64url characters".
pub open spec fn token_detail(min: int, max: int) -> Seq<char> {
    "verification_token must contain "@ + decimal_text(min) + " to "@ + decimal_text(max)
        + " base64url characters"@
}

/// Checks a webhook verification token against the length bounds.
pub fn validate_verification_token(token: &str, min_length: usize, max_length: usize) -> (r:
    Result<(), DriveServiceError>)
    ensures
        r is Ok <==> is_verification_token(token@, min_length as int, max_length as int),
        r is Err ==> is_validation_error(r, token_detail(min_length as int, max_length as int)),
{
    let v = chars_of(token);
    let mut ok = true;
    let mut k: usize = 0;
    while k < v.len()
        invariant
            v@ == token@,
            k <= v@.len(),
            ok <==> forall|i: int| 0 <= i < k ==> is_base64url_char(#[trigger] v@[i]),
        decreases v.len() - k,
    {
        let c = v[k];
        let good = ('a' <= c && c <= 'z') || ('A' <= c && c <= 'Z') || ('0' <= c && c <= '9')
            || c == '-' || c == '_';
        if !good {
            ok = false;
        }
        k = k + 1;
    }
    if !ok || v.len() < min_length || v.len() > max_length {
        let mut m = copy_str("verification_token must contain ");
        push_decimal(&mut m, min_length as u64);
        let mut m = concat_str(m.as_str(), " to ");
        push_decimal(&mut m, max_length as u64);
        let m = concat_str(m.as_str(), " base64url characters");
        return Err(DriveServiceError::Validation(m));
    }
    Ok(())
}

/// A hexadecimal digit of either case.
pub open spec fn is_hex_char(c: char) -> bool {
    ('0' <= c <= '9') || ('a' <= c <= 'f') || ('A' <= c <= 'F')
}

/// The hyphenated form `8-4-4-4-12` of a UUID.
pub open spec fn is_hyphenated_uuid(s: Seq<char>) -> bool {
    &&& s.len() == 36
    &&& forall|i: int|
        0 <= i < 36 ==> if i == 8 || i == 13 || i == 18 || i == 23 {
            #[trigger] s[i] == '-'
        } else {
            is_hex_char(s[i])
        }
}

/// The texts `uuid::Uuid::parse_str` accepts: 32 hexadecimal digits, the
/// hyphenated form, the hyphenated form in braces, or the hyphenated form
/// after `urn:uuid:` in any ASCII case.
pub open spec fn is_uuid_text(s: Seq<char>) -> bool {
    ||| s.len() == 32 && forall|i: int| 0 <= i < 32 ==> is_hex_char(#[trigger] s[i])
    ||| is_hyphenated_uuid(s)
    ||| s.len() == 38 && s[0] == '{' && s[37] == '}' && is_hyphenated_uuid(s.subrange(1, 37))
    ||| s.len() == 45 && ascii_lowercase(s.take(9)) == "urn:uuid:"@ && is_hyphenated_uuid(
        s.skip(9),
    )
}

/// Calls `uuid::Uuid::parse_str`, which accepts exactly the texts described
/// by `is_uuid_text`.
#[verifier::external_body]
fn uuid_parses(s: &str) -> (r: bool)
    ensures
        r == is_uuid_text(s@),
{
    uuid::Uuid::parse_str(s).is_ok()
}

/// Whether the text is a UUID.
pub fn is_uuid(s: &str) -> (r: bool)
    ensures
        r == is_uuid_text(s@),
{
    uuid_parses(s)
}

/// A request to deliver the change events of a knowledge-base root scope to
/// a webhook.
#[derive(Debug, Clone)]
pub struct EnsureRootScopeEventDeliveryCommand {
    pub tenant_id: String,
    pub subscription_uuid: String,
    pub address: String,
    pub verification_token: String,
    pub expiration_epoch_ms: i64,
    pub operator_id: String,
}

/// The delivery the store is asked to ensure.
#[derive(Debug, Clone)]
pub struct EnsureDriveRootScopeEventDelivery {
    pub tenant_id: String,
    pub subscription_uuid: String,
    pub channel_id: String,
    pub address: String,
    pub signing_key_sha256: String,
    pub expiration_epoch_ms: i64,
    pub operator_id: String,
}

/// A webhook delivery of a root scope, as stored.
#[derive(Debug, Clone)]
pub struct DriveRootScopeEventDelivery {
    pub channel_id: String,
    pub subscription_uuid: String,
    pub address: String,
    pub expiration_epoch_ms: i64,
    pub lifecycle_status: String,
    pub version: i64,
    pub created_at: String,
    pub updated_at: String,
}

/// The store's answer: the delivery and whether it was created.
#[derive(Debug, Clone)]
pub struct EnsureDriveRootScopeEventDeliveryResult {
    pub delivery: DriveRootScopeEventDelivery,
    pub created: bool,
}

/// The service's answer: the delivery and whether it was created.
#[derive(Debug, Clone)]
pub struct EnsureRootScopeEventDeliveryResult {
    pub delivery: DriveRootScopeEventDelivery,
    pub created: bool,
}

/// The service's answer to the store's.
pub fn delivery_result(result: EnsureDriveRootScopeEventDeliveryResult) -> (r:
    EnsureRootScopeEventDeliveryResult)
    ensures
        r.delivery == result.delivery,
        r.created == result.created,
{
    EnsureRootScopeEventDeliveryResult { delivery: result.delivery, created: result.created }
}

/// The texts of a check's answer.
pub open spec fn check_view(r: Result<String, String>) -> Result<Seq<char>, Seq<char>> {
    match r {
        Ok(a) => Ok(a@),
        Err(e) => Err(e@),
    }
}

/// What the service asks the store for, or the first error of the request:
/// tenant (64 bytes), subscription UUID (64 bytes, a UUID), the address as
/// the webhook validator answered, the token, an expiration after `now`,
/// and the operator (128 bytes), checked in that order.
pub open spec fn delivery_request_result(
    r: Result<EnsureDriveRootScopeEventDelivery, DriveServiceError>,
    command: EnsureRootScopeEventDeliveryCommand,
    address_check: Result<Seq<char>, Seq<char>>,
    signing_key_sha256: Seq<char>,
    min_token: int,
    max_token: int,
    now_epoch_ms: int,
) -> bool {
    let tenant = bounded_text(command.tenant_id@, 64);
    let uuid = bounded_text(command.subscription_uuid@, 64);
    let operator = bounded_text(command.operator_id@, 128);
    if tenant is None {
        is_validation_error(r, text_length_detail("tenant_id"@, 64))
    } else if uuid is None {
        is_validation_error(r, text_length_detail("subscription_uuid"@, 64))
    } else if !is_uuid_text(uuid->0) {
        is_validation_error(r, "subscription_uuid must be a UUID"@)
    } else if address_check is Err {
        is_validation_error(r, address_check->Err_0)
    } else if !is_verification_token(command.verification_token@, min_token, max_token) {
        is_validation_error(r, token_detail(min_token, max_token))
    } else if command.expiration_epoch_ms <= now_epoch_ms {
        is_validation_error(r, "expiration_epoch_ms must be in the future"@)
    } else if operator is None {
        is_validation_error(r, text_length_detail("operator_id"@, 128))
    } else {
        r matches Ok(d) && {
            &&& d.tenant_id@ == tenant->0
            &&& d.subscription_uuid@ == uuid->0
            &&& d.channel_id@ == "kbraw:"@ + uuid->0
            &&& d.address@ == address_check->Ok_0
            &&& d.signing_key_sha256@ == signing_key_sha256
            &&& d.expiration_epoch_ms == command.expiration_epoch_ms
            &&& d.operator_id@ == operator->0
        }
    }
}

/// Validates a delivery request and builds what the store is asked for.
/// `address_check` is the webhook validator's answer on the address (the
/// normalised address or the reason it is refused), `signing_key_sha256`
/// the signing key derived from the token, and `now_epoch_ms` the time the
/// expiration must lie after.
pub fn plan_event_delivery(
    command: EnsureRootScopeEventDeliveryCommand,
    address_check: Result<String, String>,
    signing_key_sha256: String,
    min_token_length: usize,
    max_token_length: usize,
    now_epoch_ms: i64,
) -> (r: Result<EnsureDriveRootScopeEventDelivery, DriveServiceError>)
    ensures
        delivery_request_result(
            r,
            command,
            check_view(address_check),
            signing_key_sha256@,
            min_token_length as int,
            max_token_length as int,
            now_epoch_ms as int,
        ),
{
    let tenant_id = match require_text(command.tenant_id, "tenant_id", 64) {
        Ok(t) => t,
        Err(e) => return Err(e),
    };
    let subscription_uuid = match require_text(
        command.subscription_uuid,
        "subscription_uuid",
        64,
    ) {
        Ok(t) => t,
        Err(e) => return Err(e),
    };
    if !is_uuid(subscription_uuid.as_str()) {
        return Err(DriveServiceError::Validation(copy_str("subscription_uuid must be a UUID")));
    }
    let address = match address_check {
        Ok(a) => a,
        Err(detail) => return Err(DriveServiceError::Validation(detail)),
    };
    match validate_verification_token(
        command.verification_token.as_str(),
        min_token_length,
        max_token_length,
    ) {
        Ok(()) => {},
        Err(e) => return Err(e),
    }
    if command.expiration_epoch_ms <= now_epoch_ms {
        return Err(
            DriveServiceError::Validation(copy_str("expiration_epoch_ms must be in the future")),
        );
    }
    let operator_id = match require_text(command.operator_id, "operator_id", 128) {
        Ok(t) => t,
        Err(e) => return Err(e),
    };
    let channel_id = concat_str(KNOWLEDGEBASE_CHANNEL_PREFIX, subscription_uuid.as_str());
    proof {
        reveal_strlit("kbraw:");
    }
    Ok(
        EnsureDriveRootScopeEventDelivery {
            tenant_id,
            subscription_uuid,
            channel_id,
            address,
            signing_key_sha256,
            expiration_epoch_ms: command.expiration_epoch_ms,
            operator_id,
        },
    )
}

/// Validates a delivery request against the current time.
pub fn prepare_event_delivery(
    command: EnsureRootScopeEventDeliveryCommand,
    address_check: Result<String, String>,
    signing_key_sha256: String,
    min_token_length: usize,
    max_token_length: usize,
) -> (r: Result<EnsureDriveRootScopeEventDelivery, DriveServiceError>)
    ensures
        exists|now: i64|
            #[trigger] delivery_request_result(
                r,
                command,
                check_view(address_check),
                signing_key_sha256@,
                min_token_length as int,
                max_token_length as int,
                now as int,
            ),
{
    let now = current_epoch_ms();
    plan_event_delivery(
        command,
        address_check,
        signing_key_sha256,
        min_token_length,
        max_token_length,
        now,
    )
}

/// A request to subscribe a knowledge base to a raw-folder root scope.
#[derive(Debug, Clone)]
pub struct RegisterKnowledgebaseRawScopeCommand {
    pub tenant_id: String,
    pub space_id: String,
    pub knowledge_base_id: String,
    pub raw_folder_node_id: String,
    pub operator_id: String,
}

/// A request for a root-scope subscription by its UUID.
#[derive(Debug, Clone)]
pub struct GetRootScopeSubscriptionCommand {
    pub tenant_id: String,
    pub subscription_uuid: String,
}

/// The subscription the store is asked to register.
#[derive(Debug, Clone)]
pub struct RegisterDriveRootScopeSubscription {
    pub tenant_id: String,
    pub space_id: String,
    pub consumer_resource_id: String,
    pub root_node_id: String,
    pub operator_id: String,
}

/// What the store is asked to register, or the first field that is blank or
/// too long: tenant, space, knowledge base, raw folder (64, 64, 128, 64
/// bytes) and operator (128 bytes).
pub open spec fn subscription_request_result(
    r: Result<RegisterDriveRootScopeSubscription, DriveServiceError>,
    command: RegisterKnowledgebaseRawScopeCommand,
) -> bool {
    let tenant = bounded_text(command.tenant_id@, 64);
    let space = bounded_text(command.space_id@, 64);
    let kb = bounded_text(command.knowledge_base_id@, 128);
    let root = bounded_text(command.raw_folder_node_id@, 64);
    let operator = bounded_text(command.operator_id@, 128);
    if tenant is None {
        is_validation_error(r, text_length_detail("tenant_id"@, 64))
    } else if space is None {
        is_validation_error(r, text_length_detail("space_id"@, 64))
    } else if kb is None {
        is_validation_error(r, text_length_detail("knowledge_base_id"@, 128))
    } else if root is None {
        is_validation_error(r, text_length_detail("raw_folder_node_id"@, 64))
    } else if operator is None {
        is_validation_error(r, text_length_detail("operator_id"@, 128))
    } else {
        r matches Ok(x) && {
            &&& x.tenant_id@ == tenant->0
            &&& x.space_id@ == space->0
            &&& x.consumer_resource_id@ == kb->0
            &&& x.root_node_id@ == root->0
            &&& x.operator_id@ == operator->0
        }
    }
}

/// Validates a knowledge-base subscription request.
pub fn plan_knowledgebase_raw_registration(command: RegisterKnowledgebaseRawScopeCommand) -> (r:
    Result<RegisterDriveRootScopeSubscription, DriveServiceError>)
    ensures
        subscription_request_result(r, command),
{
    let tenant_id = match require_text(command.tenant_id, "tenant_id", 64) {
        Ok(t) => t,
        Err(e) => return Err(e),
    };
    let space_id = match require_text(command.space_id, "space_id", 64) {
        Ok(t) => t,
        Err(e) => return Err(e),
    };
    let consumer_resource_id = match require_text(
        command.knowledge_base_id,
        "knowledge_base_id",
        128,
    ) {
        Ok(t) => t,
        Err(e) => return Err(e),
    };
    let root_node_id = match require_text(command.raw_folder_node_id, "raw_folder_node_id", 64) {
        Ok(t) => t,
        Err(e) => return Err(e),
    };
    let operator_id = match require_text(command.operator_id, "operator_id", 128) {
        Ok(t) => t,
        Err(e) => return Err(e),
    };
    Ok(
        RegisterDriveRootScopeSubscription {
            tenant_id,
            space_id,
            consumer_resource_id,
            root_node_id,
            operator_id,
        },
    )
}

/// Validates a subscription lookup: the tenant and the UUID, trimmed.
pub fn plan_subscription_lookup(command: GetRootScopeSubscriptionCommand) -> (r: Result<
    (String, String),
    DriveServiceError,
>)
    ensures
        bounded_text(command.tenant_id@, 64) is None ==> is_validation_error(
            r,
            text_length_detail("tenant_id"@, 64),
        ),
        bounded_text(command.tenant_id@, 64) is Some && bounded_text(command.subscription_uuid@, 64)
            is None ==> is_validation_error(r, text_length_detail("subscription_uuid"@, 64)),
        bounded_text(command.tenant_id@, 64) is Some && bounded_text(command.subscription_uuid@, 64)
            is Some ==> (r matches Ok((t, u)) && t@ == bounded_text(command.tenant_id@, 64)->0
            && u@ == bounded_text(command.subscription_uuid@, 64)->0),
{
    let tenant_id = match require_text(command.tenant_id, "tenant_id", 64) {
        Ok(t) => t,
        Err(e) => return Err(e),
    };
    let subscription_uuid = match require_text(
        command.subscription_uuid,
        "subscription_uuid",
        64,
    ) {
        Ok(t) => t,
        Err(e) => return Err(e),
    };
    Ok((tenant_id, subscription_uuid))
}

/// The service that ensures webhook deliveries of root scopes through its
/// store.
#[derive(Debug, Clone)]
pub struct DriveRootScopeEventDeliveryService<S> {
    store: S,
}

impl<S> DriveRootScopeEventDeliveryService<S> {
    /// The service over `store`.
    pub fn new(store: S) -> (r: Self)
        ensures
            r.store_spec() == store,
    {
        DriveRootScopeEventDeliveryService { store }
    }

    /// The store of the service.
    pub closed spec fn store_spec(&self) -> S {
        self.store
    }

    /// The store of the service.
    pub fn store(&self) -> (r: &S)
        ensures
            *r == self.store_spec(),
    {
        &self.store
    }
}

/// The service that registers and looks up root-scope subscriptions
/// through its store.
#[derive(Debug, Clone)]
pub struct DriveRootScopeSubscriptionService<S> {
    store: S,
}

impl<S> DriveRootScopeSubscriptionService<S> {
    /// The service over `store`.
    pub fn new(store: S) -> (r: Self)
        ensures
            r.store_spec() == store,
    {
        DriveRootScopeSubscriptionService { store }
    }

    /// The store of the service.
    pub closed spec fn store_spec(&self) -> S {
        self.store
    }

    /// The store of the service.
    pub fn store(&self) -> (r: &S)
        ensures
            *r == self.store_spec(),
    {
        &self.store
    }
}

/// The subscription a delivery belongs to, as stored.
#[derive(Debug, Clone)]
pub struct RootScopeSubscriptionRow {
    pub space_id: String,
    pub scope_status: String,
}

/// The watch channel stored under a delivery's channel id.
#[derive(Debug, Clone)]
pub struct DeliveryChannelRow {
    pub space_id: Option<String>,
    pub node_id: Option<String>,
    pub resource_type: String,
    pub resource_id: Option<String>,
    pub address: String,
    pub token_hash: Option<String>,
    pub expiration_epoch_ms: i64,
    pub lifecycle_status: String,
}

/// What the store writes to ensure a delivery.
#[derive(Debug, Clone, PartialEq, Eq)]
pub enum DeliveryWrite {
    /// The channel already delivers as asked: nothing is written.
    Unchanged,
    /// The channel is updated in place and reactivated.
    Update,
    /// A channel is inserted for the changes of the subscription's space.
    Insert { space_id: String },
}

/// The existing channel watches the changes of the whole space `space_id`.
pub open spec fn channel_targets_space(row: DeliveryChannelRow, space_id: Seq<char>) -> bool {
    &&& opt_view(row.space_id) == Some(space_id)
    &&& row.node_id is None
    &&& row.resource_type@ == "changes"@
    &&& opt_view(row.resource_id) == Some(space_id)
}

/// The existing channel already delivers what is asked.
pub open spec fn channel_unchanged(
    row: DeliveryChannelRow,
    request: EnsureDriveRootScopeEventDelivery,
) -> bool {
    &&& row.address@ == request.address@
    &&& opt_view(row.token_hash) == Some(request.signing_key_sha256@)
    &&& row.expiration_epoch_ms == request.expiration_epoch_ms
    &&& row.lifecycle_status@ == "active"@
}

/// A channel may only be reused for the changes of its own space.
pub fn validate_existing_channel(row: &DeliveryChannelRow, space_id: &str) -> (r: Result<
    (),
    DriveServiceError,
>)
    ensures
        r is Ok <==> channel_targets_space(*row, space_id@),
        r is Err ==> is_conflict_error(r, "root scope event delivery channel cannot be retargeted"@),
{
    let space_ok = match &row.space_id {
        Some(s) => text_eq(s.as_str(), space_id),
        None => false,
    };
    let resource_ok = match &row.resource_id {
        Some(s) => text_eq(s.as_str(), space_id),
        None => false,
    };
    if !space_ok || row.node_id.is_some() || !text_eq(row.resource_type.as_str(), "changes")
        || !resource_ok {
        return Err(
            DriveServiceError::Conflict(
                copy_str("root scope event delivery channel cannot be retargeted"),
            ),
        );
    }
    Ok(())
}

/// What ensuring a delivery writes, or why it is refused.
pub open spec fn delivery_write_result(
    r: Result<DeliveryWrite, DriveServiceError>,
    request: EnsureDriveRootScopeEventDelivery,
    subscription: Option<RootScopeSubscriptionRow>,
    existing: Option<DeliveryChannelRow>,
) -> bool {
    match subscription {
        None => is_not_found_error(r, "root scope subscription not found"@),
        Some(s) => if s.scope_status@ != "active"@ {
            is_conflict_error(r, "root scope subscription is not active"@)
        } else {
            match existing {
                None => r matches Ok(DeliveryWrite::Insert { space_id }) && space_id@
                    == s.space_id@,
                Some(row) => if !channel_targets_space(row, s.space_id@) {
                    is_conflict_error(r, "root scope event delivery channel cannot be retargeted"@)
                } else if channel_unchanged(row, request) {
                    r == Ok::<DeliveryWrite, DriveServiceError>(DeliveryWrite::Unchanged)
                } else {
                    r == Ok::<DeliveryWrite, DriveServiceError>(DeliveryWrite::Update)
                },
            }
        },
    }
}

/// Decides what ensuring a delivery writes, from the subscription and the
/// channel found under the delivery's channel id: the subscription must
/// exist and be active, and an existing channel must target its space.
pub fn decide_delivery_write(
    request: &EnsureDriveRootScopeEventDelivery,
    subscription: Option<RootScopeSubscriptionRow>,
    existing: Option<DeliveryChannelRow>,
) -> (r: Result<DeliveryWrite, DriveServiceError>)
    ensures
        delivery_write_result(r, *request, subscription, existing),
{
    let subscription = match subscription {
        Some(s) => s,
        None => {
            return Err(DriveServiceError::NotFound(copy_str("root scope subscription not found")));
        },
    };
    if !text_eq(subscription.scope_status.as_str(), "active") {
        return Err(
            DriveServiceError::Conflict(copy_str("root scope subscription is not active")),
        );
    }
    match existing {
        Some(row) => {
            match validate_existing_channel(&row, subscription.space_id.as_str()) {
                Ok(()) => {},
                Err(e) => return Err(e),
            }
            let token_ok = match &row.token_hash {
                Some(h) => text_eq(h.as_str(), request.signing_key_sha256.as_str()),
                None => false,
            };
            if text_eq(row.address.as_str(), request.address.as_str()) && token_ok
                && row.expiration_epoch_ms == request.expiration_epoch_ms && text_eq(
                row.lifecycle_status.as_str(),
                "active",
            ) {
                Ok(DeliveryWrite::Unchanged)
            } else {
                Ok(DeliveryWrite::Update)
            }
        },
        None => Ok(DeliveryWrite::Insert { space_id: subscription.space_id }),
    }
}

/// `after` is the channel stored once `write` is made for `request` over
/// the channel found before (`existing`): an update sets the address, the
/// token hash and the expiration and reactivates the channel; an insert
/// creates an active channel for the changes of the subscription's space.
pub open spec fn channel_after_write(
    after: DeliveryChannelRow,
    write: DeliveryWrite,
    request: EnsureDriveRootScopeEventDelivery,
    existing: Option<DeliveryChannelRow>,
) -> bool {
    match write {
        DeliveryWrite::Unchanged => existing == Some(after),
        DeliveryWrite::Update => existing matches Some(before) && {
            &&& opt_view(after.space_id) == opt_view(before.space_id)
            &&& after.node_id is None == before.node_id is None
            &&& after.resource_type@ == before.resource_type@
            &&& opt_view(after.resource_id) == opt_view(before.resource_id)
            &&& after.address@ == request.address@
            &&& opt_view(after.token_hash) == Some(request.signing_key_sha256@)
            &&& after.expiration_epoch_ms == request.expiration_epoch_ms
            &&& after.lifecycle_status@ == "active"@
        },
        DeliveryWrite::Insert { space_id } => {
            &&& opt_view(after.space_id) == Some(space_id@)
            &&& after.node_id is None
            &&& after.resource_type@ == "changes"@
            &&& opt_view(after.resource_id) == Some(space_id@)
            &&& after.address@ == request.address@
            &&& opt_view(after.token_hash) == Some(request.signing_key_sha256@)
            &&& after.expiration_epoch_ms == request.expiration_epoch_ms
            &&& after.lifecycle_status@ == "active"@
        },
    }
}

/// Ensuring a delivery is idempotent: once what a first call decided is
/// stored, a second call with the same request over the same subscription
/// writes nothing.
pub proof fn ensuring_a_delivery_again_writes_nothing(
    request: EnsureDriveRootScopeEventDelivery,
    subscription: RootScopeSubscriptionRow,
    existing: Option<DeliveryChannelRow>,
    first: Result<DeliveryWrite, DriveServiceError>,
    after: DeliveryChannelRow,
    second: Result<DeliveryWrite, DriveServiceError>,
)
    requires
        delivery_write_result(first, request, Some(subscription), existing),
        first matches Ok(w) && channel_after_write(after, w, request, existing),
        delivery_write_result(second, request, Some(subscription), Some(after)),
    ensures
        second == Ok::<DeliveryWrite, DriveServiceError>(DeliveryWrite::Unchanged),
{
}

/// A stored channel is left unchanged only when it already delivers what
/// is asked: the same address, token hash and expiration, and active. A
/// channel of the space that differs in any of these (a renewal with a new
/// expiration, say) is updated.
pub proof fn unchanged_only_when_the_channel_matches(
    request: EnsureDriveRootScopeEventDelivery,
    subscription: RootScopeSubscriptionRow,
    row: DeliveryChannelRow,
    r: Result<DeliveryWrite, DriveServiceError>,
)
    requires
        delivery_write_result(r, request, Some(subscription), Some(row)),
    ensures
        r == Ok::<DeliveryWrite, DriveServiceError>(DeliveryWrite::Unchanged) ==> {
            &&& row.address@ == request.address@
            &&& opt_view(row.token_hash) == Some(request.signing_key_sha256@)
            &&& row.expiration_epoch_ms == request.expiration_epoch_ms
            &&& row.lifecycle_status@ == "active"@
        },
        r is Ok && (row.address@ != request.address@ || opt_view(row.token_hash) != Some(
            request.signing_key_sha256@,
        ) || row.expiration_epoch_ms != request.expiration_epoch_ms || row.lifecycle_status@
            != "active"@) ==> r == Ok::<DeliveryWrite, DriveServiceError>(DeliveryWrite::Update),
        r is Ok ==> subscription.scope_status@ == "active"@ && opt_view(row.space_id) == Some(
            subscription.space_id@,
        ) && row.node_id is None && row.resource_type@ == "changes"@,
{
}

/// Whether ensuring a delivery with this write created it.
pub fn delivery_created(write: &DeliveryWrite) -> (r: bool)
    ensures
        r <==> write is Insert,
{
    match write {
        DeliveryWrite::Insert { .. } => true,
        _ => false,
    }
}

} // verus!

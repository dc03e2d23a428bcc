//! Administrative requests: each waits for a fresh, exact-bound approval.
use crate::approvals::{answers, ApprovalRecord, Approvals, OperationFacts, Refusal};
use crate::approve::{bridge_target, is_bridge_target};
use crate::dispatch::RemoteBinding;
use crate::error::{ErrorCode, IpcError};
use crate::gate::enqueue;
use crate::grants::{admin_key_refusal, validate_admin_idempotency_key};
use crate::ids::{is_fresh_id, new_id};
use crate::json::{Json, JsonObject, JsonV};
use crate::params::{
    parse_preset, preset_name, preset_of, preset_text, AccessPreset, AdminApprovalBridgeParams,
    AdminGrantsMintParams, AdminPolicyPresetParams, AdminPolicyRuleAddParams, AdminTokenRevokeParams,
    PendingRequest, PolicyRule,
};
use crate::text::{
    byte_len, chars_of, filled, filled_text, join, join3, lower_text, same_text, to_lower,
    utf8_len,
};
use vstd::prelude::*;
use vstd::string::*;

verus! {

/// A hexadecimal digit of either case.
pub open spec fn is_hex(c: char) -> bool {
    '0' <= c <= '9' || 'a' <= c <= 'f' || 'A' <= c <= 'F'
}

/// Sixty-four hexadecimal digits of either case.
pub open spec fn is_payload_hash(s: Seq<char>) -> bool {
    s.len() == 64 && forall|i: int| 0 <= i < s.len() ==> is_hex(#[trigger] s[i])
}

/// Whether a text is a payload hash.
fn valid_payload_hash(s: &str) -> (b: bool)
    ensures
        b == is_payload_hash(s@),
{
    let chars = chars_of(s);
    if chars.len() != 64 {
        return false;
    }
    let mut i: usize = 0;
    while i < chars.len()
        invariant
            i <= chars@.len(),
            chars@ == s@,
            chars@.len() == 64,
            forall|j: int| 0 <= j < i ==> is_hex(#[trigger] s@[j]),
        decreases chars.len() - i,
    {
        let c = chars[i];
        if !(('0' <= c && c <= '9') || ('a' <= c && c <= 'f') || ('A' <= c && c <= 'F')) {
            assert(!is_hex(s@[i as int]));
            return false;
        }
        i += 1;
    }
    true
}

/// Why a request is not bound well enough to be administrative.
pub open spec fn authority_refusal(
    binding: RemoteBinding,
    requester: Seq<char>,
    now: int,
) -> Refusal {
    if filled(binding.operation_id) is None {
        Some(
            (
                ErrorCode::Unauthorized,
                "admin request requires an exact-bound control-plane operation"@,
            ),
        )
    } else if !(binding.payload_hash matches Some(hash) && is_payload_hash(hash@)) {
        Some((ErrorCode::Unauthorized, "admin request requires a verified payload hash"@))
    } else if !(binding.expires_at_unix matches Some(expiry) && expiry >= now) {
        Some(
            (ErrorCode::Unauthorized, "admin request authorization is missing or expired"@),
        )
    } else if filled(binding.device_id) is None || binding.principal_credential_generation is None {
        Some(
            (
                ErrorCode::Unauthorized,
                "admin request lacks verified device or credential-generation binding"@,
            ),
        )
    } else if requester.len() == 0 || !(binding.principal matches Some(p) && p@ == requester) {
        Some(
            (
                ErrorCode::Unauthorized,
                "admin requester does not match the verified remote principal"@,
            ),
        )
    } else {
        None
    }
}

/// Holds an administrative request to the binding of its dispatch.
fn check_authority(binding: &RemoteBinding, requester: &str, now: i64) -> (r: Result<
    (String, String, i64),
    IpcError,
>)
    ensures
        answers(r, authority_refusal(*binding, requester@, now as int)),
        r matches Ok((operation_id, hash, expiry)) ==> filled(binding.operation_id) == Some(
            operation_id@,
        ) && (binding.payload_hash matches Some(h) && hash@ == lower_text(h@))
            && binding.expires_at_unix == Some(expiry),
{
    let operation_id = match filled_text(&binding.operation_id) {
        Some(o) => o,
        None => {
            return Err(
                IpcError::new(
                    ErrorCode::Unauthorized,
                    "admin request requires an exact-bound control-plane operation",
                ),
            );
        },
    };
    let hash = match &binding.payload_hash {
        Some(h) => if valid_payload_hash(h.as_str()) {
            Some(to_lower(h.as_str()))
        } else {
            None
        },
        None => None,
    };
    let hash = match hash {
        Some(hash) => hash,
        None => {
            return Err(
                IpcError::new(
                    ErrorCode::Unauthorized,
                    "admin request requires a verified payload hash",
                ),
            );
        },
    };
    let expiry: i64 = match binding.expires_at_unix {
        Some(expiry) => {
            if expiry < now {
                return Err(
                    IpcError::new(
                        ErrorCode::Unauthorized,
                        "admin request authorization is missing or expired",
                    ),
                );
            }
            expiry
        },
        None => {
            return Err(
                IpcError::new(
                    ErrorCode::Unauthorized,
                    "admin request authorization is missing or expired",
                ),
            );
        },
    };
    if filled_text(&binding.device_id).is_none()
        || binding.principal_credential_generation.is_none() {
        return Err(
            IpcError::new(
                ErrorCode::Unauthorized,
                "admin request lacks verified device or credential-generation binding",
            ),
        );
    }
    let verified = match &binding.principal {
        Some(p) => same_text(p.as_str(), requester),
        None => false,
    };
    if requester.is_empty() || !verified {
        return Err(
            IpcError::new(
                ErrorCode::Unauthorized,
                "admin requester does not match the verified remote principal",
            ),
        );
    }
    Ok((operation_id, hash, expiry))
}

/// The answer to an administrative request that waits.
pub open spec fn admin_body(
    operation_id: Seq<char>,
    approval_id: Seq<char>,
    reason: Seq<char>,
    replayed: bool,
) -> JsonV {
    JsonV::Object(
        Map::<Seq<char>, JsonV>::empty().insert("approval_required"@, JsonV::Bool(true)).insert(
            "operation_id"@,
            JsonV::Str(operation_id),
        ).insert("approval_id"@, JsonV::Str(approval_id)).insert("reason"@, JsonV::Str(reason)).insert(
            "replayed"@,
            JsonV::Bool(replayed),
        ),
    )
}

/// Builds the answer to an administrative request that waits.
fn admin_answer(operation_id: &str, approval_id: &str, reason: &str, replayed: bool) -> (body: Json)
    ensures
        body@ == admin_body(operation_id@, approval_id@, reason@, replayed),
{
    let mut object = JsonObject::new();
    object.put("approval_required", Json::Bool(true));
    object.put("operation_id", Json::text(operation_id));
    object.put("approval_id", Json::text(approval_id));
    object.put("reason", Json::text(reason));
    object.put("replayed", Json::Bool(replayed));
    Json::Object(object)
}

/// How an administrative request was taken up.
#[derive(Debug)]
pub enum AdminEnqueue {
    /// The same operation waits already.
    Replayed(Json),
    /// It waits now; the approvals have to be written. What the record displaced
    /// serves to take it back.
    Enqueued { approval_id: String, displaced: Option<ApprovalRecord>, body: Json },
}

/// Some approval is of the operation.
pub open spec fn has_operation(
    approvals: Map<Seq<char>, ApprovalRecord>,
    operation_id: Seq<char>,
) -> bool {
    exists|k: Seq<char>| #[trigger]
        approvals.contains_key(k) && approvals[k].operation_id@ == operation_id
}

/// The record waits for exactly this payload.
pub open spec fn waits_for(record: ApprovalRecord, hash: Seq<char>) -> bool {
    record.state@ == "pending"@ && (record.target_payload_hash matches Some(h) && h@ == hash)
}

/// What an earlier record of the operation is answered with.
pub open spec fn is_earlier_answer(
    r: Result<AdminEnqueue, IpcError>,
    record: ApprovalRecord,
    operation_id: Seq<char>,
    hash: Seq<char>,
) -> bool {
    if waits_for(record, hash) {
        r matches Ok(AdminEnqueue::Replayed(body)) && body@ == admin_body(
            operation_id,
            record.id@,
            record.reason@,
            true,
        )
    } else {
        r matches Err(e) && e.is(
            ErrorCode::Conflict,
            "admin operation already exists with different or terminal state"@,
        )
    }
}

/// The record of an administrative request.
pub open spec fn is_admin_record(
    record: ApprovalRecord,
    operation_id: Seq<char>,
    capability: Seq<char>,
    reason: Seq<char>,
    hash: Seq<char>,
    expiry: Option<i64>,
    requester: Seq<char>,
    request: PendingRequest,
    now: i64,
) -> bool {
    &&& is_fresh_id(record.id@, "apr_"@)
    &&& record.operation_id@ == operation_id
    &&& record.capability@ == capability
    &&& record.state@ == "pending"@
    &&& record.reason@ == reason
    &&& record.created_at_unix == now
    &&& record.decided_at_unix is None
    &&& record.expires_at_unix == expiry
    &&& record.target_payload_hash matches Some(h) && h@ == hash
    &&& record.matched_rule_id is None
    &&& record.requester_principal@ == requester
    &&& record.request == request
    &&& record.result is None
    &&& record.decided_by_principal is None
    &&& record.facts matches Some(facts) && is_admin_facts(facts, capability)
}

/// Facts of an administrative request: its capability, and nothing else.
pub open spec fn is_admin_facts(facts: OperationFacts, capability: Seq<char>) -> bool {
    &&& facts.capability@ == capability
    &&& facts.kind@ == "admin"@
    &&& facts.program is None
    &&& facts.path is None
    &&& !facts.elevated
    &&& !facts.workspace_relative
    &&& facts.workspace_id is None
    &&& facts.tags@.len() == 0
    &&& facts.tool is None
    &&& facts.executable_identity is None
    &&& facts.invocation_identity is None
}

/// Position of an approval of the operation.
fn find_operation(approvals: &Approvals, operation_id: &str) -> (found: Option<usize>)
    ensures
        match found {
            Some(i) => i < approvals.items().len() && approvals.items()[i as int].1.operation_id@
                == operation_id@ && has_operation(approvals@, operation_id@),
            None => !has_operation(approvals@, operation_id@),
        },
{
    let n: usize = approvals.len();
    let mut i: usize = 0;
    while i < n
        invariant
            i <= n,
            n == approvals.items().len(),
            forall|j: int|
                0 <= j < i ==> (#[trigger] approvals.items()[j]).1.operation_id@ != operation_id@,
        decreases n - i,
    {
        let record = approvals.value_at(i);
        if same_text(record.operation_id.as_str(), operation_id) {
            assert(approvals@.contains_key(approvals.items()[i as int].0@));
            return Some(i);
        }
        i += 1;
    }
    proof {
        assert forall|k: Seq<char>| #[trigger] approvals@.contains_key(k) implies
            approvals@[k].operation_id@ != operation_id@ by {
            let j = crate::registry::lemma_mapped_key_has_item(approvals.items(), k);
            crate::registry::lemma_item_is_mapped(approvals.items(), j);
        }
    }
    None
}

/// The answer to an administrative request that is in order itself: refused for
/// its binding, answered like an earlier one of the same operation, or taken up
/// under a fresh approval.
pub open spec fn is_taken_up(
    r: Result<AdminEnqueue, IpcError>,
    before: Map<Seq<char>, ApprovalRecord>,
    after: Map<Seq<char>, ApprovalRecord>,
    capability: Seq<char>,
    reason: Seq<char>,
    request: PendingRequest,
    binding: RemoteBinding,
    requester: Seq<char>,
    now: i64,
) -> bool {
    &&& match authority_refusal(binding, requester, now as int) {
        Some((code, message)) => r matches Err(e) && e.is(code, message),
        None => {
            let operation_id = filled(binding.operation_id)->0;
            let hash = lower_text(binding.payload_hash->0@);
            if has_operation(before, operation_id) {
                exists|k: Seq<char>| #[trigger]
                    before.contains_key(k) && before[k].operation_id@ == operation_id
                        && is_earlier_answer(r, before[k], operation_id, hash)
            } else {
                r matches Ok(AdminEnqueue::Enqueued { approval_id, displaced, body }) && {
                    let record = after[approval_id@];
                    &&& after == before.insert(approval_id@, record)
                    &&& record.id@ == approval_id@
                    &&& is_admin_record(
                        record,
                        operation_id,
                        capability,
                        reason,
                        hash,
                        binding.expires_at_unix,
                        requester,
                        request,
                        now,
                    )
                    &&& body@ == admin_body(operation_id, approval_id@, reason, false)
                    &&& match displaced {
                        Some(earlier) => before.contains_key(approval_id@) && before[approval_id@]
                            == earlier,
                        None => !before.contains_key(approval_id@),
                    }
                }
            }
        },
    }
    &&& !(r matches Ok(AdminEnqueue::Enqueued { .. })) ==> after == before
}

/// Takes an administrative request up: it has to be bound to an exact, unexpired
/// action of the verified remote principal. The same operation is answered once;
/// nothing is executed here.
pub fn enqueue_bound_admin_request(
    approvals: &mut Approvals,
    capability: &str,
    reason: &str,
    request: PendingRequest,
    binding: &RemoteBinding,
    requester: &str,
    now: i64,
) -> (r: Result<AdminEnqueue, IpcError>)
    ensures
        is_taken_up(
            r,
            old(approvals)@,
            final(approvals)@,
            capability@,
            reason@,
            request,
            *binding,
            requester@,
            now,
        ),
{
    let (operation_id, hash, expiry) = match check_authority(binding, requester, now) {
        Ok(authority) => authority,
        Err(e) => {
            return Err(e);
        },
    };
    if let Some(at) = find_operation(approvals, operation_id.as_str()) {
        let record = approvals.value_at(at);
        let waiting = same_text(record.state.as_str(), "pending") && (
        match &record.target_payload_hash {
            Some(h) => same_text(h.as_str(), hash.as_str()),
            None => false,
        });
        assert(approvals@.contains_key(approvals.items()[at as int].0@));
        if waiting {
            return Ok(
                AdminEnqueue::Replayed(
                    admin_answer(
                        operation_id.as_str(),
                        record.id.as_str(),
                        record.reason.as_str(),
                        true,
                    ),
                ),
            );
        }
        return Err(
            IpcError::new(
                ErrorCode::Conflict,
                "admin operation already exists with different or terminal state",
            ),
        );
    }
    let approval_id = new_id("apr_");
    let body = admin_answer(operation_id.as_str(), approval_id.as_str(), reason, false);
    let facts = OperationFacts {
        capability: capability.to_owned(),
        kind: "admin".to_owned(),
        program: None,
        path: None,
        elevated: false,
        workspace_relative: false,
        workspace_id: None,
        tags: Vec::new(),
        tool: None,
        executable_identity: None,
        invocation_identity: None,
    };
    let record = ApprovalRecord {
        id: approval_id.clone(),
        operation_id,
        capability: capability.to_owned(),
        state: "pending".to_owned(),
        reason: reason.to_owned(),
        created_at_unix: now,
        decided_at_unix: None,
        expires_at_unix: Some(expiry),
        target_payload_hash: Some(hash),
        matched_rule_id: None,
        requester_principal: requester.to_owned(),
        facts: Some(facts),
        request,
        result: None,
        decided_by_principal: None,
    };
    let displaced = enqueue(approvals, record);
    Ok(AdminEnqueue::Enqueued { approval_id, displaced, body })
}

/// An administrative request that waits was bound to an unexpired action of the
/// principal that asked.
pub proof fn law_admin_requests_are_bound(binding: RemoteBinding, requester: Seq<char>, now: int)
    requires
        authority_refusal(binding, requester, now) is None,
    ensures
        binding.is_exact(now),
        binding.device_id is Some,
        binding.principal_credential_generation is Some,
        binding.principal matches Some(p) && p@ == requester && requester.len() > 0,
{
}

/// A retry of an administrative request is answered with the approval that its
/// first attempt waits under, and takes nothing more up.
pub proof fn law_admin_requests_are_taken_up_once(
    before: Map<Seq<char>, ApprovalRecord>,
    first: Result<AdminEnqueue, IpcError>,
    between: Map<Seq<char>, ApprovalRecord>,
    second: Result<AdminEnqueue, IpcError>,
    after: Map<Seq<char>, ApprovalRecord>,
    capability: Seq<char>,
    reason: Seq<char>,
    request: PendingRequest,
    binding: RemoteBinding,
    requester: Seq<char>,
    now: i64,
    later: i64,
)
    requires
        is_taken_up(
            first,
            before,
            between,
            capability,
            reason,
            request,
            binding,
            requester,
            now,
        ),
        first matches Ok(AdminEnqueue::Enqueued { .. }),
        is_taken_up(
            second,
            between,
            after,
            capability,
            reason,
            request,
            binding,
            requester,
            later,
        ),
        authority_refusal(binding, requester, later as int) is None,
    ensures
        after == between,
        first matches Ok(AdminEnqueue::Enqueued { approval_id, .. }) && second matches Ok(
            AdminEnqueue::Replayed(body),
        ) && body@ == admin_body(
            filled(binding.operation_id)->0,
            approval_id@,
            reason,
            true,
        ),
{
    let operation_id = filled(binding.operation_id)->0;
    let hash = lower_text(binding.payload_hash->0@);
    let id = first->Ok_0->Enqueued_approval_id@;
    assert(between.contains_key(id));
    assert(has_operation(between, operation_id));
    let k = choose|k: Seq<char>| #[trigger]
        between.contains_key(k) && between[k].operation_id@ == operation_id && is_earlier_answer(
            second,
            between[k],
            operation_id,
            hash,
        );
    if k != id {
        assert(before.contains_key(k));
    }
}

/// The first characters of a text.
pub open spec fn shortened(s: Seq<char>, max: int) -> Seq<char> {
    if s.len() <= max {
        s
    } else {
        s.take(max)
    }
}

/// Shortens a text to its first characters.
fn shorten(s: &str, max: usize) -> (r: String)
    ensures
        r@ == shortened(s@, max as int),
{
    let n: usize = s.unicode_len();
    if n <= max {
        s.to_owned()
    } else {
        let r = s.substring_char(0, max).to_owned();
        assert(s@.subrange(0, max as int) =~= s@.take(max as int));
        r
    }
}

/// A shortened text, or null.
pub open spec fn shortened_or_null(s: Option<String>, max: int) -> JsonV {
    match s {
        Some(text) => JsonV::Str(shortened(text@, max)),
        None => JsonV::Null,
    }
}

/// What is shown of the approval that a bridge is about.
pub open spec fn preview_of(target: ApprovalRecord) -> JsonV {
    JsonV::Object(
        Map::<Seq<char>, JsonV>::empty().insert(
            "approval_id"@,
            JsonV::Str(shortened(target.id@, 128)),
        ).insert("operation_id"@, JsonV::Str(shortened(target.operation_id@, 256))).insert(
            "capability"@,
            JsonV::Str(shortened(target.capability@, 128)),
        ).insert("reason"@, JsonV::Str(shortened(target.reason@, 512))).insert(
            "kind"@,
            JsonV::Str(
                match target.facts {
                    Some(facts) => shortened(facts.kind@, 128),
                    None => Seq::empty(),
                },
            ),
        ).insert(
            "program"@,
            match target.facts {
                Some(facts) => shortened_or_null(facts.program, 512),
                None => JsonV::Null,
            },
        ).insert(
            "path"@,
            match target.facts {
                Some(facts) => shortened_or_null(facts.path, 1024),
                None => JsonV::Null,
            },
        ).insert(
            "elevated"@,
            JsonV::Bool(target.facts matches Some(facts) && facts.elevated),
        ).insert(
            "workspace_relative"@,
            JsonV::Bool(target.facts matches Some(facts) && facts.workspace_relative),
        ),
    )
}

/// Shows the approval that a bridge is about.
pub fn approval_target_preview(target: &ApprovalRecord) -> (preview: Json)
    ensures
        preview@ == preview_of(*target),
{
    let mut object = JsonObject::new();
    object.put("approval_id", Json::Str(shorten(target.id.as_str(), 128)));
    object.put("operation_id", Json::Str(shorten(target.operation_id.as_str(), 256)));
    object.put("capability", Json::Str(shorten(target.capability.as_str(), 128)));
    object.put("reason", Json::Str(shorten(target.reason.as_str(), 512)));
    let mut kind = String::new();
    let mut program = Json::Null;
    let mut path = Json::Null;
    let mut elevated = false;
    let mut relative = false;
    if let Some(facts) = &target.facts {
        kind = shorten(facts.kind.as_str(), 128);
        if let Some(p) = &facts.program {
            program = Json::Str(shorten(p.as_str(), 512));
        }
        if let Some(p) = &facts.path {
            path = Json::Str(shorten(p.as_str(), 1024));
        }
        elevated = facts.elevated;
        relative = facts.workspace_relative;
    }
    object.put("kind", Json::Str(kind));
    object.put("program", program);
    object.put("path", path);
    object.put("elevated", Json::Bool(elevated));
    object.put("workspace_relative", Json::Bool(relative));
    Json::Object(object)
}

/// What of the policy administrative requests change.
#[derive(Debug)]
pub struct PolicyState {
    pub preset: AccessPreset,
    /// Rules of the overlay, apart from those of the preset.
    pub custom_rules: Vec<PolicyRule>,
    pub delegate_remote_mcp: bool,
    pub enforce_workspace: bool,
}

/// The presets that confine operations to workspaces.
pub open spec fn confines(preset: AccessPreset) -> bool {
    preset == AccessPreset::WorkspaceOnly || preset == AccessPreset::Recommended
}

/// Whether a preset confines operations to workspaces.
pub fn preset_enforces_workspace(preset: AccessPreset) -> (b: bool)
    ensures
        b == confines(preset),
{
    matches!(preset, AccessPreset::WorkspaceOnly | AccessPreset::Recommended)
}

/// The preset that a policy file means.
pub open spec fn preset_in_file(name: Option<Seq<char>>) -> AccessPreset {
    match name {
        Some(n) => match preset_of(n) {
            Some(p) => p,
            None => AccessPreset::Recommended,
        },
        None => AccessPreset::Recommended,
    }
}

/// The preset that a policy file names; an absent or unknown name means the
/// recommended one.
pub fn policy_from_file(name: Option<&str>) -> (preset: AccessPreset)
    ensures
        preset == preset_in_file(
            match name {
                Some(n) => Some(n@),
                None => None,
            },
        ),
{
    match name {
        Some(n) => match parse_preset(n) {
            Some(p) => p,
            None => AccessPreset::Recommended,
        },
        None => AccessPreset::Recommended,
    }
}

/// Why a preset is not selected.
pub open spec fn preset_refusal(name: Seq<char>) -> Refusal {
    match preset_of(name) {
        Some(_) => None,
        None => Some((ErrorCode::InvalidParams, "unknown preset: "@ + name)),
    }
}

/// The policy after a preset was selected.
pub open spec fn is_preset_policy(
    next: PolicyState,
    state: PolicyState,
    name: Seq<char>,
    delegate_remote_mcp: Option<bool>,
) -> bool {
    &&& preset_of(name) == Some(next.preset)
    &&& next.custom_rules@.len() == 0
    &&& next.delegate_remote_mcp == (match delegate_remote_mcp {
        Some(d) => d,
        None => state.delegate_remote_mcp,
    })
    &&& next.enforce_workspace == confines(next.preset)
}

/// The policy that a preset leads to: no overlay, the delegation asked for or the
/// present one.
pub fn handle_policy_preset(
    state: &PolicyState,
    name: &str,
    delegate_remote_mcp: Option<bool>,
) -> (r: Result<PolicyState, IpcError>)
    ensures
        answers(r, preset_refusal(name@)),
        r matches Ok(next) ==> is_preset_policy(next, *state, name@, delegate_remote_mcp),
{
    let preset = match parse_preset(name) {
        Some(preset) => preset,
        None => {
            return Err(
                IpcError::with_message(ErrorCode::InvalidParams, join("unknown preset: ", name)),
            );
        },
    };
    let delegate = match delegate_remote_mcp {
        Some(d) => d,
        None => state.delegate_remote_mcp,
    };
    Ok(
        PolicyState {
            preset,
            custom_rules: Vec::new(),
            delegate_remote_mcp: delegate,
            enforce_workspace: preset_enforces_workspace(preset),
        },
    )
}

/// Why a request for a preset is refused: its key, an unknown name, a name that
/// is not the canonical one.
pub open spec fn preset_request_refusal(params: AdminPolicyPresetParams) -> Refusal {
    if admin_key_refusal(params.idempotency_key@) is Some {
        admin_key_refusal(params.idempotency_key@)
    } else {
        match preset_of(params.name@) {
            None => Some((ErrorCode::InvalidParams, "unknown preset: "@ + params.name@)),
            Some(preset) => if params.name@ != preset_text(preset) {
                Some(
                    (
                        ErrorCode::InvalidParams,
                        "preset must use canonical name "@ + preset_text(preset),
                    ),
                )
            } else {
                None
            },
        }
    }
}

/// Admits a request for a preset.
pub fn check_policy_preset_request(params: &AdminPolicyPresetParams) -> (r: Result<
    (),
    IpcError,
>)
    ensures
        answers(r, preset_request_refusal(*params)),
{
    match validate_admin_idempotency_key(params.idempotency_key.as_str()) {
        Ok(()) => {},
        Err(e) => {
            return Err(e);
        },
    }
    match parse_preset(params.name.as_str()) {
        None => Err(
            IpcError::with_message(
                ErrorCode::InvalidParams,
                join("unknown preset: ", params.name.as_str()),
            ),
        ),
        Some(preset) => {
            if same_text(params.name.as_str(), preset_name(preset)) {
                Ok(())
            } else {
                Err(
                    IpcError::with_message(
                        ErrorCode::InvalidParams,
                        join("preset must use canonical name ", preset_name(preset)),
                    ),
                )
            }
        },
    }
}

/// Some rule has the identifier.
pub open spec fn has_rule(rules: Seq<PolicyRule>, id: Seq<char>) -> bool {
    exists|i: int| 0 <= i < rules.len() && (#[trigger] rules[i]).id@ == id
}

/// Whether some rule has the identifier.
fn rule_exists(rules: &Vec<PolicyRule>, id: &str) -> (b: bool)
    ensures
        b == has_rule(rules@, id@),
{
    let mut i: usize = 0;
    while i < rules.len()
        invariant
            i <= rules@.len(),
            forall|j: int| 0 <= j < i ==> (#[trigger] rules@[j]).id@ != id@,
        decreases rules.len() - i,
    {
        if same_text(rules[i].id.as_str(), id) {
            assert(rules@[i as int].id@ == id@);
            return true;
        }
        i += 1;
    }
    false
}

/// Why a rule is not added.
pub open spec fn rule_add_refusal(state: PolicyState, id: Seq<char>) -> Refusal {
    if state.preset == AccessPreset::FullAccess {
        Some(
            (
                ErrorCode::Conflict,
                "full_access cannot contain hidden rules; select preset custom first"@,
            ),
        )
    } else if has_rule(state.custom_rules@, id) {
        Some((ErrorCode::Conflict, "policy rule already exists: "@ + id))
    } else {
        None
    }
}

/// Admits a rule.
pub fn check_rule_add(state: &PolicyState, id: &str) -> (r: Result<(), IpcError>)
    ensures
        answers(r, rule_add_refusal(*state, id@)),
{
    if state.preset == AccessPreset::FullAccess {
        return Err(
            IpcError::new(
                ErrorCode::Conflict,
                "full_access cannot contain hidden rules; select preset custom first",
            ),
        );
    }
    if rule_exists(&state.custom_rules, id) {
        return Err(
            IpcError::with_message(
                ErrorCode::Conflict,
                join("policy rule already exists: ", id),
            ),
        );
    }
    Ok(())
}

/// A copy of some rules.
fn copy_rules(rules: &Vec<PolicyRule>) -> (r: Vec<PolicyRule>)
    ensures
        r@ == rules@,
{
    let mut r: Vec<PolicyRule> = Vec::new();
    let mut i: usize = 0;
    while i < rules.len()
        invariant
            i <= rules@.len(),
            r@ == rules@.take(i as int),
        decreases rules.len() - i,
    {
        r.push(rules[i].copy());
        assert(r@ =~= rules@.take(i + 1));
        i += 1;
    }
    assert(r@ =~= rules@);
    r
}

/// The policy after a rule was added.
pub open spec fn is_policy_with_rule(
    next: PolicyState,
    state: PolicyState,
    params: AdminPolicyRuleAddParams,
) -> bool {
    &&& next.preset == state.preset
    &&& next.delegate_remote_mcp == state.delegate_remote_mcp
    &&& next.enforce_workspace == state.enforce_workspace
    &&& next.custom_rules@ == state.custom_rules@.push(
        PolicyRule {
            id: params.id,
            decision: params.decision,
            priority: params.priority,
            capability: params.capability,
            when_elevated: params.when_elevated,
            when_kind: params.when_kind,
            path_prefix: params.path_prefix,
            program_equals: params.program_equals,
            when_tag: None,
            description: params.description,
        },
    )
}

/// The policy that another rule leads to. It comes into force once its file is
/// written.
pub fn execute_admin_policy_rule_add(state: &PolicyState, params: &AdminPolicyRuleAddParams) -> (r:
    Result<PolicyState, IpcError>)
    ensures
        answers(r, rule_add_refusal(*state, params.id@)),
        r matches Ok(next) ==> is_policy_with_rule(next, *state, *params),
{
    match check_rule_add(state, params.id.as_str()) {
        Ok(()) => {},
        Err(e) => {
            return Err(e);
        },
    }
    let mut custom_rules = copy_rules(&state.custom_rules);
    custom_rules.push(params.rule());
    Ok(
        PolicyState {
            preset: state.preset,
            custom_rules,
            delegate_remote_mcp: state.delegate_remote_mcp,
            enforce_workspace: state.enforce_workspace,
        },
    )
}

/// The rules without those of an identifier, in their order.
pub open spec fn without_rule(rules: Seq<PolicyRule>, id: Seq<char>) -> Seq<PolicyRule>
    decreases rules.len(),
{
    if rules.len() == 0 {
        rules
    } else if rules.last().id@ == id {
        without_rule(rules.drop_last(), id)
    } else {
        without_rule(rules.drop_last(), id).push(rules.last())
    }
}

/// Why a rule is not removed.
pub open spec fn rule_remove_refusal(state: PolicyState, id: Seq<char>) -> Refusal {
    if has_rule(state.custom_rules@, id) {
        None
    } else {
        Some((ErrorCode::InvalidParams, "custom policy rule not found: "@ + id))
    }
}

/// Admits the removal of a rule.
pub fn check_rule_remove(state: &PolicyState, id: &str) -> (r: Result<(), IpcError>)
    ensures
        answers(r, rule_remove_refusal(*state, id@)),
{
    if rule_exists(&state.custom_rules, id) {
        Ok(())
    } else {
        Err(
            IpcError::with_message(
                ErrorCode::InvalidParams,
                join("custom policy rule not found: ", id),
            ),
        )
    }
}

/// The policy after the rules of an identifier were removed.
pub open spec fn is_policy_without_rule(
    next: PolicyState,
    state: PolicyState,
    id: Seq<char>,
) -> bool {
    &&& next.preset == state.preset
    &&& next.delegate_remote_mcp == state.delegate_remote_mcp
    &&& next.enforce_workspace == state.enforce_workspace
    &&& next.custom_rules@ == without_rule(state.custom_rules@, id)
}

/// The policy without the rules of an identifier. It comes into force once its file
/// is written.
pub fn execute_admin_policy_rule_remove(state: &PolicyState, id: &str) -> (r: Result<
    PolicyState,
    IpcError,
>)
    ensures
        answers(r, rule_remove_refusal(*state, id@)),
        r matches Ok(next) ==> is_policy_without_rule(next, *state, id@),
{
    match check_rule_remove(state, id) {
        Ok(()) => {},
        Err(e) => {
            return Err(e);
        },
    }
    let mut custom_rules = copy_rules(&state.custom_rules);
    remove_rules(&mut custom_rules, id);
    Ok(
        PolicyState {
            preset: state.preset,
            custom_rules,
            delegate_remote_mcp: state.delegate_remote_mcp,
            enforce_workspace: state.enforce_workspace,
        },
    )
}

/// A rule that was added can be removed again, which restores the rules.
pub proof fn law_added_rules_can_be_removed(rules: Seq<PolicyRule>, rule: PolicyRule)
    requires
        !has_rule(rules, rule.id@),
    ensures
        has_rule(rules.push(rule), rule.id@),
        without_rule(rules.push(rule), rule.id@) == rules,
{
    let more = rules.push(rule);
    assert(more[rules.len() as int].id@ == rule.id@);
    assert(more.drop_last() =~= rules);
    lemma_without_absent_rule(rules, rule.id@);
}

/// Without an absent identifier the rules are the same.
proof fn lemma_without_absent_rule(rules: Seq<PolicyRule>, id: Seq<char>)
    requires
        !has_rule(rules, id),
    ensures
        without_rule(rules, id) == rules,
    decreases rules.len(),
{
    if rules.len() > 0 {
        let front = rules.drop_last();
        assert(!has_rule(front, id)) by {
            if has_rule(front, id) {
                let i = choose|i: int| 0 <= i < front.len() && (#[trigger] front[i]).id@ == id;
                assert(rules[i].id@ == id);
            }
        }
        lemma_without_absent_rule(front, id);
        assert(rules.last() == rules[rules.len() - 1]);
        assert(front.push(rules.last()) =~= rules);
    }
}

/// Drops the rules of an identifier.
fn remove_rules(rules: &mut Vec<PolicyRule>, id: &str)
    ensures
        final(rules)@ == without_rule(old(rules)@, id@),
{
    let ghost before = rules@;
    let ghost mut done: int = 0;
    let mut i: usize = 0;
    assert(without_rule(before.take(0), id@) =~= Seq::empty());
    assert(without_rule(before.take(0), id@) + before.skip(0) =~= before);
    while i < rules.len()
        invariant
            i <= rules@.len(),
            0 <= done <= before.len(),
            without_rule(before.take(done), id@).len() == i,
            rules@ == without_rule(before.take(done), id@) + before.skip(done),
            rules@.len() - i == before.len() - done,
        decreases rules@.len() - i,
    {
        proof {
            assert(before.take(done + 1).drop_last() =~= before.take(done));
            assert(before.take(done + 1).last() == before[done]);
            assert(rules@[i as int] == before.skip(done)[0]);
            assert(before.skip(done)[0] == before[done]);
        }
        if same_text(rules[i].id.as_str(), id) {
            let _ = rules.remove(i);
            assert(rules@ =~= without_rule(before.take(done + 1), id@) + before.skip(done + 1));
        } else {
            i += 1;
            assert(rules@ =~= without_rule(before.take(done + 1), id@) + before.skip(done + 1));
        }
        proof {
            done = done + 1;
        }
    }
    proof {
        assert(before.take(done) =~= before);
        assert(before.skip(done) =~= Seq::empty());
        assert(rules@ =~= without_rule(before, id@));
    }
}

/// Why a request to revoke a principal is refused. `canonical` is the canonical
/// form of the principal that it names.
pub open spec fn revoke_request_refusal(
    params: AdminTokenRevokeParams,
    canonical: Seq<char>,
    requester: Seq<char>,
) -> Refusal {
    if admin_key_refusal(params.idempotency_key@) is Some {
        admin_key_refusal(params.idempotency_key@)
    } else if canonical.len() == 0 || canonical != params.principal@ || utf8_len(params.principal@)
        > 512 {
        Some(
            (
                ErrorCode::InvalidParams,
                "principal must be a canonical server-assigned principal key"@,
            ),
        )
    } else if canonical == requester {
        Some(
            (
                ErrorCode::InvalidParams,
                "cannot revoke the principal authorizing this request; enroll or use a different administrator"@,
            ),
        )
    } else {
        None
    }
}

/// Admits a request to revoke a principal.
pub fn check_token_revoke_request(
    params: &AdminTokenRevokeParams,
    canonical: &str,
    requester: &str,
) -> (r: Result<(), IpcError>)
    ensures
        answers(r, revoke_request_refusal(*params, canonical@, requester@)),
{
    match validate_admin_idempotency_key(params.idempotency_key.as_str()) {
        Ok(()) => {},
        Err(e) => {
            return Err(e);
        },
    }
    if canonical.is_empty() || !same_text(canonical, params.principal.as_str()) || byte_len(
        params.principal.as_str(),
    ) > 512 {
        return Err(
            IpcError::new(
                ErrorCode::InvalidParams,
                "principal must be a canonical server-assigned principal key",
            ),
        );
    }
    if same_text(canonical, requester) {
        return Err(
            IpcError::new(
                ErrorCode::InvalidParams,
                "cannot revoke the principal authorizing this request; enroll or use a different administrator",
            ),
        );
    }
    Ok(())
}

/// Why a request to lift lockdown is refused.
pub open spec fn unlock_request_refusal(key: Seq<char>, lockdown: bool) -> Refusal {
    if admin_key_refusal(key) is Some {
        admin_key_refusal(key)
    } else if !lockdown {
        Some((ErrorCode::Conflict, "device is not in emergency lockdown"@))
    } else {
        None
    }
}

/// Admits a request to lift lockdown.
pub fn check_unlock_request(key: &str, lockdown: bool) -> (r: Result<(), IpcError>)
    ensures
        answers(r, unlock_request_refusal(key@, lockdown)),
{
    match validate_admin_idempotency_key(key) {
        Ok(()) => {},
        Err(e) => {
            return Err(e);
        },
    }
    if !lockdown {
        return Err(IpcError::new(ErrorCode::Conflict, "device is not in emergency lockdown"));
    }
    Ok(())
}

/// Why a request to mint a grant is refused.
pub open spec fn mint_request_refusal(key: Seq<char>, binding: RemoteBinding) -> Refusal {
    if admin_key_refusal(key) is Some {
        admin_key_refusal(key)
    } else if filled(binding.principal) is None {
        Some(
            (
                ErrorCode::Unauthorized,
                "bounded grant mint requires the verified remote principal"@,
            ),
        )
    } else if filled(binding.device_id) is None {
        Some(
            (ErrorCode::Unauthorized, "bounded grant mint requires the verified device id"@),
        )
    } else {
        None
    }
}

/// A request to mint a grant, with principal and device from the dispatch.
pub open spec fn stamped_mint(
    params: AdminGrantsMintParams,
    binding: RemoteBinding,
) -> AdminGrantsMintParams {
    AdminGrantsMintParams {
        principal_id: binding.principal,
        device_id: binding.device_id,
        ..params
    }
}

/// Admits a request to mint a grant. Principal and device are stamped from the
/// verified dispatch; what the client sent for them is overwritten.
pub fn stamp_grants_mint_request(
    params: AdminGrantsMintParams,
    binding: &RemoteBinding,
) -> (r: Result<AdminGrantsMintParams, IpcError>)
    ensures
        answers(r, mint_request_refusal(params.idempotency_key@, *binding)),
        r matches Ok(stamped) ==> stamped == stamped_mint(params, *binding),
{
    match validate_admin_idempotency_key(params.idempotency_key.as_str()) {
        Ok(()) => {},
        Err(e) => {
            return Err(e);
        },
    }
    if filled_text(&binding.principal).is_none() {
        return Err(
            IpcError::new(
                ErrorCode::Unauthorized,
                "bounded grant mint requires the verified remote principal",
            ),
        );
    }
    if filled_text(&binding.device_id).is_none() {
        return Err(
            IpcError::new(
                ErrorCode::Unauthorized,
                "bounded grant mint requires the verified device id",
            ),
        );
    }
    let mut stamped = params;
    stamped.principal_id = crate::text::copy_text(&binding.principal);
    stamped.device_id = crate::text::copy_text(&binding.device_id);
    Ok(stamped)
}

/// Why the intent of a bridge is refused.
pub open spec fn bridge_intent_refusal(params: AdminApprovalBridgeParams) -> Refusal {
    let approve = params.decision@ == "approve"@;
    if admin_key_refusal(params.idempotency_key@) is Some {
        admin_key_refusal(params.idempotency_key@)
    } else if !approve && params.decision@ != "deny"@ {
        Some((ErrorCode::InvalidParams, "decision must be approve or deny"@))
    } else if approve {
        match (params.temporary_grant, params.grant_seconds) {
            (true, Some(seconds)) => if 1 <= seconds <= 86400 {
                None
            } else {
                Some(
                    (
                        ErrorCode::InvalidParams,
                        "temporary_grant requires grant_seconds between 1 and 86400"@,
                    ),
                )
            },
            (true, None) => Some(
                (
                    ErrorCode::InvalidParams,
                    "temporary_grant requires grant_seconds between 1 and 86400"@,
                ),
            ),
            (false, Some(_)) => Some(
                (ErrorCode::InvalidParams, "grant_seconds requires temporary_grant=true"@),
            ),
            (false, None) => None,
        }
    } else if params.temporary_grant || params.grant_seconds is Some {
        Some((ErrorCode::InvalidParams, "deny intent cannot include a temporary grant"@))
    } else {
        None
    }
}

/// Why a request for a bridge is refused. `needs_operation_binding` says whether
/// grants for the target's capability are tied to one operation.
pub open spec fn bridge_request_refusal(
    params: AdminApprovalBridgeParams,
    approvals: Map<Seq<char>, ApprovalRecord>,
    needs_operation_binding: bool,
    now: int,
) -> Refusal {
    if bridge_intent_refusal(params) is Some {
        bridge_intent_refusal(params)
    } else if !approvals.contains_key(params.approval_id@) {
        Some((ErrorCode::InvalidParams, "local approval not found: "@ + params.approval_id@))
    } else {
        let target = approvals[params.approval_id@];
        if !is_bridge_target(target, now) {
            Some(
                (
                    ErrorCode::Conflict,
                    "target must be a pending, unexpired, local non-admin approval"@,
                ),
            )
        } else if params.temporary_grant && needs_operation_binding {
            Some(
                (
                    ErrorCode::InvalidParams,
                    "temporary grants are not supported for "@ + target.capability@
                        + " approvals"@,
                ),
            )
        } else {
            None
        }
    }
}

/// The reason that a bridge is confirmed for.
pub open spec fn bridge_reason(decision: Seq<char>, target: ApprovalRecord) -> Seq<char> {
    "Fresh passkey confirmation is required to "@ + decision + " local "@ + target.capability@
        + " request "@ + target.id@ + "."@
}

/// Holds the intent of a bridge to its form.
fn check_bridge_intent(params: &AdminApprovalBridgeParams) -> (r: Result<(), IpcError>)
    ensures
        answers(r, bridge_intent_refusal(*params)),
{
    match validate_admin_idempotency_key(params.idempotency_key.as_str()) {
        Ok(()) => {},
        Err(e) => {
            return Err(e);
        },
    }
    let approve = same_text(params.decision.as_str(), "approve");
    if !approve && !same_text(params.decision.as_str(), "deny") {
        return Err(
            IpcError::new(ErrorCode::InvalidParams, "decision must be approve or deny"),
        );
    }
    if approve {
        match (params.temporary_grant, params.grant_seconds) {
            (true, Some(seconds)) => {
                if 1 <= seconds && seconds <= 86400 {
                    Ok(())
                } else {
                    Err(
                        IpcError::new(
                            ErrorCode::InvalidParams,
                            "temporary_grant requires grant_seconds between 1 and 86400",
                        ),
                    )
                }
            },
            (true, None) => Err(
                IpcError::new(
                    ErrorCode::InvalidParams,
                    "temporary_grant requires grant_seconds between 1 and 86400",
                ),
            ),
            (false, Some(_)) => Err(
                IpcError::new(
                    ErrorCode::InvalidParams,
                    "grant_seconds requires temporary_grant=true",
                ),
            ),
            (false, None) => Ok(()),
        }
    } else if params.temporary_grant || params.grant_seconds.is_some() {
        Err(
            IpcError::new(
                ErrorCode::InvalidParams,
                "deny intent cannot include a temporary grant",
            ),
        )
    } else {
        Ok(())
    }
}

/// Admits a request for a bridge: the reason to confirm, and what is shown of the
/// target.
pub fn check_approval_bridge_request(
    params: &AdminApprovalBridgeParams,
    approvals: &Approvals,
    needs_operation_binding: bool,
    now: i64,
) -> (r: Result<(String, Json), IpcError>)
    ensures
        answers(
            r,
            bridge_request_refusal(*params, approvals@, needs_operation_binding, now as int),
        ),
        r matches Ok((reason, preview)) ==> reason@ == bridge_reason(
            params.decision@,
            approvals@[params.approval_id@],
        ) && preview@ == preview_of(approvals@[params.approval_id@]),
{
    match check_bridge_intent(params) {
        Ok(()) => {},
        Err(e) => {
            return Err(e);
        },
    }
    let target = match approvals.get(params.approval_id.as_str()) {
        Some(target) => target,
        None => {
            return Err(
                IpcError::with_message(
                    ErrorCode::InvalidParams,
                    join("local approval not found: ", params.approval_id.as_str()),
                ),
            );
        },
    };
    if !bridge_target(target, now) {
        return Err(
            IpcError::new(
                ErrorCode::Conflict,
                "target must be a pending, unexpired, local non-admin approval",
            ),
        );
    }
    if params.temporary_grant && needs_operation_binding {
        return Err(
            IpcError::with_message(
                ErrorCode::InvalidParams,
                join3(
                    "temporary grants are not supported for ",
                    target.capability.as_str(),
                    " approvals",
                ),
            ),
        );
    }
    let preview = approval_target_preview(target);
    let mut reason = join3(
        "Fresh passkey confirmation is required to ",
        params.decision.as_str(),
        " local ",
    );
    reason.append(target.capability.as_str());
    reason.append(" request ");
    reason.append(target.id.as_str());
    reason.append(".");
    Ok((reason, preview))
}

/// An administrative request is admitted exactly where its dispatch carries an
/// operation, a payload hash of 64 hexadecimal digits, an expiry that has not passed, a
/// device, a credential generation, and the principal that asks. Otherwise it is
/// unauthorized.
pub proof fn law_admin_authority_is_complete(binding: RemoteBinding, requester: Seq<char>, now: int)
    ensures
        authority_refusal(binding, requester, now) is None <==> {
            &&& filled(binding.operation_id) is Some
            &&& (binding.payload_hash matches Some(hash) && hash@.len() == 64 && forall|i: int|
                0 <= i < 64 ==> '0' <= (#[trigger] hash@[i]) <= '9' || 'a' <= hash@[i] <= 'f' || 'A'
                    <= hash@[i] <= 'F')
            &&& (binding.expires_at_unix matches Some(expiry) && now <= expiry)
            &&& filled(binding.device_id) is Some
            &&& binding.principal_credential_generation is Some
            &&& (binding.principal matches Some(p) && p@ == requester && p@.len() > 0)
        },
        authority_refusal(binding, requester, now) matches Some((code, _)) ==> code
            == ErrorCode::Unauthorized,
{
    if let Some(hash) = binding.payload_hash {
        if is_payload_hash(hash@) {
            assert forall|i: int| 0 <= i < 64 implies '0' <= (#[trigger] hash@[i]) <= '9' || 'a'
                <= hash@[i] <= 'f' || 'A' <= hash@[i] <= 'F' by {
                assert(is_hex(hash@[i]));
            }
        }
    }
}

/// An administrative request that is taken up leaves one approval more and every other
/// one as it was. The approval waits, for the requester and the capability that were
/// named, over the operation, the lower-cased payload hash and the expiry of the
/// dispatch, and nobody has decided on it. Any other answer leaves the approvals alone,
/// and only an approval that waits over the same operation and payload is answered again.
pub proof fn law_admin_requests_wait_as_asked(
    r: Result<AdminEnqueue, IpcError>,
    before: Map<Seq<char>, ApprovalRecord>,
    after: Map<Seq<char>, ApprovalRecord>,
    capability: Seq<char>,
    reason: Seq<char>,
    request: PendingRequest,
    binding: RemoteBinding,
    requester: Seq<char>,
    now: i64,
)
    requires
        is_taken_up(r, before, after, capability, reason, request, binding, requester, now),
    ensures
        !(r matches Ok(AdminEnqueue::Enqueued { .. })) ==> after == before,
        r matches Ok(AdminEnqueue::Enqueued { approval_id, displaced, body }) ==> {
            let record = after[approval_id@];
            &&& after.contains_key(approval_id@)
            &&& forall|k: Seq<char>|
                k != approval_id@ ==> (#[trigger] after.contains_key(k) <==> before.contains_key(
                    k,
                )) && (after.contains_key(k) ==> after[k] == before[k])
            &&& record.id@ == approval_id@
            &&& record.capability@ == capability
            &&& record.reason@ == reason
            &&& record.request == request
            &&& record.requester_principal@ == requester
            &&& record.state@ == "pending"@
            &&& record.created_at_unix == now
            &&& record.expires_at_unix == binding.expires_at_unix
            &&& filled(binding.operation_id) == Some(record.operation_id@)
            &&& (record.target_payload_hash matches Some(h) && (
            binding.payload_hash matches Some(sent) && h@ == lower_text(sent@)))
            &&& record.decided_at_unix is None
            &&& record.decided_by_principal is None
            &&& record.result is None
            &&& (record.facts matches Some(facts) && facts.capability@ == capability
                && facts.kind@ == "admin"@ && !facts.elevated)
            &&& body@.get("approval_id"@) == Some(JsonV::Str(approval_id@))
            &&& body@.get("replayed"@) == Some(JsonV::Bool(false))
            &&& (displaced is Some <==> before.contains_key(approval_id@))
        },
        r matches Ok(AdminEnqueue::Replayed(body)) ==> {
            &&& body@.get("replayed"@) == Some(JsonV::Bool(true))
            &&& exists|k: Seq<char>| #[trigger]
                before.contains_key(k) && before[k].state@ == "pending"@ && filled(
                    binding.operation_id,
                ) == Some(before[k].operation_id@) && (
                before[k].target_payload_hash matches Some(h) && h@ == lower_text(
                    binding.payload_hash->0@,
                )) && body@.get("approval_id"@) == Some(JsonV::Str(before[k].id@))
        },
        r matches Err(e) ==> (e.code == ErrorCode::Unauthorized <==> authority_refusal(
            binding,
            requester,
            now as int,
        ) is Some) && (e.code == ErrorCode::Unauthorized || e.code == ErrorCode::Conflict),
{
    reveal_strlit("approval_required");
    reveal_strlit("operation_id");
    reveal_strlit("approval_id");
    reveal_strlit("reason");
    reveal_strlit("replayed");
    assert("approval_required"@.len() == 17 && "operation_id"@.len() == 12 && "approval_id"@.len() == 11 && "reason"@.len() == 6 && "replayed"@.len() == 8);
    if r matches Ok(AdminEnqueue::Replayed(body)) {
        let operation_id = filled(binding.operation_id)->0;
        let hash = lower_text(binding.payload_hash->0@);
        let k = choose|k: Seq<char>| #[trigger]
            before.contains_key(k) && before[k].operation_id@ == operation_id && is_earlier_answer(
                r,
                before[k],
                operation_id,
                hash,
            );
        assert(before.contains_key(k) && waits_for(before[k], hash));
    }
}

/// The answer to an administrative request tells that an approval is required, and names
/// the operation, the approval, the reason and whether it was asked before.
pub proof fn law_admin_answers_name_the_approval(
    operation_id: Seq<char>,
    approval_id: Seq<char>,
    reason: Seq<char>,
    replayed: bool,
)
    ensures
        admin_body(operation_id, approval_id, reason, replayed).get("approval_required"@) == Some(JsonV::Bool(true)),
        admin_body(operation_id, approval_id, reason, replayed).get("operation_id"@) == Some(JsonV::Str(operation_id)),
        admin_body(operation_id, approval_id, reason, replayed).get("approval_id"@) == Some(JsonV::Str(approval_id)),
        admin_body(operation_id, approval_id, reason, replayed).get("reason"@) == Some(JsonV::Str(reason)),
        admin_body(operation_id, approval_id, reason, replayed).get("replayed"@) == Some(JsonV::Bool(replayed)),
        forall|name: Seq<char>| #[trigger]
            admin_body(operation_id, approval_id, reason, replayed).get(name) is Some ==> (
            name == "approval_required"@
            || name == "operation_id"@
            || name == "approval_id"@
            || name == "reason"@
            || name == "replayed"@),
{
    reveal_strlit("approval_required");
    reveal_strlit("operation_id");
    reveal_strlit("approval_id");
    reveal_strlit("reason");
    reveal_strlit("replayed");
    assert("approval_required"@.len() == 17 && "operation_id"@.len() == 12 && "approval_id"@.len() == 11 && "reason"@.len() == 6 && "replayed"@.len() == 8);
}

/// A shortened text is the front of the text, whole where it fits.
pub proof fn law_shortened_texts_begin_alike(s: Seq<char>, max: int)
    requires
        max >= 0,
    ensures
        shortened(s, max).len() <= max,
        shortened(s, max).len() <= s.len(),
        s.len() <= max ==> shortened(s, max) == s,
        s.len() > max ==> shortened(s, max).len() == max,
        forall|i: int| 0 <= i < shortened(s, max).len() ==> #[trigger] shortened(s, max)[i] == s[i],
{
}

/// The preview of a bridge's target shows the target itself: its identifiers, its
/// capability and reason, what it would run and where, and whether it is elevated, each
/// within its bound.
pub proof fn law_previews_show_their_target(target: ApprovalRecord, facts: OperationFacts)
    requires
        target.facts == Some(facts),
    ensures
        preview_of(target).get("approval_id"@) == Some(JsonV::Str(shortened(target.id@, 128))),
        preview_of(target).get("operation_id"@) == Some(JsonV::Str(shortened(target.operation_id@, 256))),
        preview_of(target).get("capability"@) == Some(JsonV::Str(shortened(target.capability@, 128))),
        preview_of(target).get("reason"@) == Some(JsonV::Str(shortened(target.reason@, 512))),
        preview_of(target).get("kind"@) == Some(JsonV::Str(shortened(facts.kind@, 128))),
        preview_of(target).get("elevated"@) == Some(JsonV::Bool(facts.elevated)),
        preview_of(target).get("workspace_relative"@) == Some(JsonV::Bool(facts.workspace_relative)),
        facts.program matches Some(p) ==> preview_of(target).get("program"@) == Some(
            JsonV::Str(shortened(p@, 512)),
        ),
        facts.program is None ==> preview_of(target).get("program"@) == Some(JsonV::Null),
        facts.path matches Some(p) ==> preview_of(target).get("path"@) == Some(
            JsonV::Str(shortened(p@, 1024)),
        ),
        facts.path is None ==> preview_of(target).get("path"@) == Some(JsonV::Null),
{
    reveal_strlit("approval_id");
    reveal_strlit("operation_id");
    reveal_strlit("capability");
    reveal_strlit("reason");
    reveal_strlit("kind");
    reveal_strlit("elevated");
    reveal_strlit("workspace_relative");
    reveal_strlit("program");
    reveal_strlit("path");
    assert("approval_id"@.len() == 11 && "operation_id"@.len() == 12 && "capability"@.len() == 10 && "reason"@.len() == 6 && "kind"@.len() == 4 && "elevated"@.len() == 8 && "workspace_relative"@.len() == 18 && "program"@.len() == 7 && "path"@.len() == 4);
    assert("kind"@[0] != "path"@[0]);
}

/// A policy file that names a preset means it, under any spelling that is understood;
/// any other file means the recommended preset.
pub proof fn law_policy_files_mean_a_preset(name: Seq<char>)
    ensures
        preset_in_file(None) == AccessPreset::Recommended,
        preset_of(name) is Some ==> preset_of(name) == Some(preset_in_file(Some(name))),
        preset_of(name) is None ==> preset_in_file(Some(name)) == AccessPreset::Recommended,
{
}

/// Selecting a preset drops every rule of the overlay, keeps the delegation unless
/// another one is asked for, and confines operations to workspaces under exactly two
/// of the presets.
pub proof fn law_presets_replace_the_policy(
    next: PolicyState,
    state: PolicyState,
    name: Seq<char>,
    delegate_remote_mcp: Option<bool>,
)
    requires
        is_preset_policy(next, state, name, delegate_remote_mcp),
    ensures
        preset_of(name) == Some(next.preset),
        forall|id: Seq<char>| !#[trigger] has_rule(next.custom_rules@, id),
        delegate_remote_mcp is None ==> next.delegate_remote_mcp == state.delegate_remote_mcp,
        delegate_remote_mcp matches Some(d) ==> next.delegate_remote_mcp == d,
        next.enforce_workspace <==> next.preset is WorkspaceOnly || next.preset is Recommended,
{
}

/// A preset is selected exactly where its name is understood; a request for one has to
/// write the name as the preset is called.
pub proof fn law_presets_are_selected_by_name(params: AdminPolicyPresetParams)
    ensures
        preset_refusal(params.name@) is None <==> preset_of(params.name@) is Some,
        preset_request_refusal(params) is None <==> admin_key_refusal(params.idempotency_key@) is None
            && (preset_of(params.name@) matches Some(p) && preset_text(p) == params.name@),
        preset_request_refusal(params) matches Some((code, _)) ==> code
            == ErrorCode::InvalidParams,
{
}

/// A rule that is added stands behind the others as it was asked for, and is subject to
/// no tag; the others, the preset, the delegation and the confinement stay.
pub proof fn law_added_rules_stand_as_asked(
    next: PolicyState,
    state: PolicyState,
    params: AdminPolicyRuleAddParams,
)
    requires
        is_policy_with_rule(next, state, params),
    ensures
        next.custom_rules@.len() == state.custom_rules@.len() + 1,
        forall|i: int|
            0 <= i < state.custom_rules@.len() ==> #[trigger] next.custom_rules@[i]
                == state.custom_rules@[i],
        next.custom_rules@.last().id == params.id,
        next.custom_rules@.last().decision == params.decision,
        next.custom_rules@.last().priority == params.priority,
        next.custom_rules@.last().capability == params.capability,
        next.custom_rules@.last().when_elevated == params.when_elevated,
        next.custom_rules@.last().when_kind == params.when_kind,
        next.custom_rules@.last().path_prefix == params.path_prefix,
        next.custom_rules@.last().program_equals == params.program_equals,
        next.custom_rules@.last().when_tag is None,
        next.custom_rules@.last().description == params.description,
        next.preset == state.preset,
        next.delegate_remote_mcp == state.delegate_remote_mcp,
        next.enforce_workspace == state.enforce_workspace,
{
}

/// A rule is added unless the preset is full access or its identifier is taken; it is
/// removed exactly where there is one.
pub proof fn law_rules_are_admitted_by_identifier(state: PolicyState, id: Seq<char>)
    ensures
        rule_add_refusal(state, id) is None <==> !(state.preset is FullAccess) && (forall|i: int|
            0 <= i < state.custom_rules@.len() ==> (#[trigger] state.custom_rules@[i]).id@ != id),
        rule_add_refusal(state, id) matches Some((code, _)) ==> code == ErrorCode::Conflict,
        rule_remove_refusal(state, id) is None <==> (exists|i: int|
            0 <= i < state.custom_rules@.len() && (#[trigger] state.custom_rules@[i]).id@ == id),
        rule_remove_refusal(state, id) matches Some((code, _)) ==> code == ErrorCode::InvalidParams,
{
}

/// Removing an identifier takes out its rules and no others: none of them is left,
/// every other rule is kept, nothing is new, and the order stays.
pub proof fn law_only_the_named_rules_are_removed(rules: Seq<PolicyRule>, id: Seq<char>)
    ensures
        forall|i: int|
            0 <= i < without_rule(rules, id).len() ==> (#[trigger] without_rule(rules, id)[i]).id@
                != id && rules.contains(without_rule(rules, id)[i]),
        forall|i: int|
            0 <= i < rules.len() && (#[trigger] rules[i]).id@ != id ==> without_rule(
                rules,
                id,
            ).contains(rules[i]),
        without_rule(rules, id).len() <= rules.len(),
    decreases rules.len(),
{
    if rules.len() > 0 {
        let front = rules.drop_last();
        law_only_the_named_rules_are_removed(front, id);
        let kept = without_rule(front, id);
        let all = without_rule(rules, id);
        assert forall|i: int| 0 <= i < all.len() implies (#[trigger] all[i]).id@ != id
            && rules.contains(all[i]) by {
            if i < kept.len() {
                assert(all[i] == kept[i]);
                let j = choose|j: int| 0 <= j < front.len() && front[j] == kept[i];
                assert(rules[j] == all[i]);
            } else {
                assert(rules[rules.len() - 1] == all[i]);
            }
        }
        assert forall|i: int| 0 <= i < rules.len() && (#[trigger] rules[i]).id@ != id implies all.contains(
            rules[i],
        ) by {
            if i < front.len() {
                assert(front[i] == rules[i]);
                let j = choose|j: int| 0 <= j < kept.len() && kept[j] == rules[i];
                assert(all[j] == rules[i]);
            } else {
                assert(all[all.len() - 1] == rules[i]);
            }
        }
    }
}

/// What is removed from a list of rules in two parts is removed from each part: the
/// order stays.
pub proof fn law_removal_keeps_the_order(a: Seq<PolicyRule>, b: Seq<PolicyRule>, id: Seq<char>)
    ensures
        without_rule(a + b, id) == without_rule(a, id) + without_rule(b, id),
    decreases b.len(),
{
    if b.len() == 0 {
        assert(a + b =~= a);
        assert(without_rule(a, id) + without_rule(b, id) =~= without_rule(a, id));
    } else {
        assert((a + b).drop_last() =~= a + b.drop_last());
        assert((a + b).last() == b.last());
        law_removal_keeps_the_order(a, b.drop_last(), id);
        assert(without_rule(a + b, id) =~= without_rule(a, id) + without_rule(b, id));
    }
}

/// Removing rules changes nothing else of the policy.
pub proof fn law_removal_keeps_the_policy(next: PolicyState, state: PolicyState, id: Seq<char>)
    requires
        is_policy_without_rule(next, state, id),
    ensures
        next.preset == state.preset,
        next.delegate_remote_mcp == state.delegate_remote_mcp,
        next.enforce_workspace == state.enforce_workspace,
        !has_rule(next.custom_rules@, id),
        forall|i: int|
            0 <= i < state.custom_rules@.len() && (#[trigger] state.custom_rules@[i]).id@ != id
                ==> next.custom_rules@.contains(state.custom_rules@[i]),
{
    law_only_the_named_rules_are_removed(state.custom_rules@, id);
}

/// A principal is revoked by another one only, under its canonical key of at most 512
/// bytes.
pub proof fn law_nobody_revokes_their_own_principal(
    params: AdminTokenRevokeParams,
    canonical: Seq<char>,
    requester: Seq<char>,
)
    ensures
        revoke_request_refusal(params, canonical, requester) is None <==> {
            &&& admin_key_refusal(params.idempotency_key@) is None
            &&& canonical == params.principal@
            &&& canonical.len() > 0
            &&& utf8_len(canonical) <= 512
            &&& canonical != requester
        },
        revoke_request_refusal(params, canonical, requester) matches Some((code, _)) ==> code
            == ErrorCode::InvalidParams,
{
}

/// Lockdown can be asked to be lifted exactly while it holds.
pub proof fn law_unlocking_needs_lockdown(key: Seq<char>, lockdown: bool)
    requires
        admin_key_refusal(key) is None,
    ensures
        unlock_request_refusal(key, lockdown) is None <==> lockdown,
        !lockdown ==> (unlock_request_refusal(key, lockdown) matches Some((code, _)) && code
            == ErrorCode::Conflict),
{
}

/// A grant is minted for the principal and the device of the verified dispatch,
/// whatever the client sent for them; the rest stays as asked. Without either the
/// request is unauthorized.
pub proof fn law_mints_are_stamped(params: AdminGrantsMintParams, binding: RemoteBinding)
    ensures
        stamped_mint(params, binding).principal_id == binding.principal,
        stamped_mint(params, binding).device_id == binding.device_id,
        stamped_mint(params, binding).tools == params.tools,
        stamped_mint(params, binding).ttl_seconds == params.ttl_seconds,
        stamped_mint(params, binding).max_uses == params.max_uses,
        stamped_mint(params, binding).workspace_id == params.workspace_id,
        stamped_mint(params, binding).idempotency_key == params.idempotency_key,
        admin_key_refusal(params.idempotency_key@) is None ==> {
            &&& mint_request_refusal(params.idempotency_key@, binding) is None <==> filled(
                binding.principal,
            ) is Some && filled(binding.device_id) is Some
            &&& (mint_request_refusal(params.idempotency_key@, binding) matches Some((code, _))
                ==> code == ErrorCode::Unauthorized)
        },
{
}

/// A bridge approves or denies, and carries a grant of 1 to 86 400 seconds exactly
/// where it approves with one.
pub proof fn law_bridges_are_well_meant(params: AdminApprovalBridgeParams)
    requires
        admin_key_refusal(params.idempotency_key@) is None,
    ensures
        bridge_intent_refusal(params) is None <==> {
            ||| params.decision@ == "approve"@ && !params.temporary_grant && params.grant_seconds is None
            ||| params.decision@ == "approve"@ && params.temporary_grant && (
            params.grant_seconds matches Some(s) && 1 <= s <= 86_400)
            ||| params.decision@ == "deny"@ && !params.temporary_grant && params.grant_seconds is None
        },
        bridge_intent_refusal(params) matches Some((code, _)) ==> code == ErrorCode::InvalidParams,
{
    reveal_strlit("approve");
    reveal_strlit("deny");
}

/// A bridge is taken up exactly where it is well meant, its target is there and can be
/// bridged, and no grant is asked for a target that needs an operation binding.
pub proof fn law_bridges_need_their_target(
    params: AdminApprovalBridgeParams,
    approvals: Map<Seq<char>, ApprovalRecord>,
    needs_operation_binding: bool,
    now: int,
)
    ensures
        bridge_request_refusal(params, approvals, needs_operation_binding, now) is None <==> {
            &&& bridge_intent_refusal(params) is None
            &&& approvals.contains_key(params.approval_id@)
            &&& is_bridge_target(approvals[params.approval_id@], now)
            &&& !(params.temporary_grant && needs_operation_binding)
        },
        bridge_intent_refusal(params) is None && approvals.contains_key(params.approval_id@)
            && !is_bridge_target(approvals[params.approval_id@], now) ==> (bridge_request_refusal(
            params,
            approvals,
            needs_operation_binding,
            now,
        ) matches Some((code, _)) && code == ErrorCode::Conflict),
{
}

/// A preset that is not known and a target that is not there are invalid.
pub proof fn law_unknown_names_are_invalid(
    name: Seq<char>,
    params: AdminApprovalBridgeParams,
    approvals: Map<Seq<char>, ApprovalRecord>,
    needs_operation_binding: bool,
    now: int,
)
    ensures
        preset_refusal(name) matches Some((code, _)) ==> code == ErrorCode::InvalidParams,
        bridge_intent_refusal(params) is None && !approvals.contains_key(params.approval_id@) ==> (
        bridge_request_refusal(
            params,
            approvals,
            needs_operation_binding,
            now,
        ) matches Some((code, _)) && code == ErrorCode::InvalidParams),
{
}

/// A temporary grant on a target that needs an operation binding is invalid.
pub proof fn law_bound_targets_take_no_grant(
    params: AdminApprovalBridgeParams,
    approvals: Map<Seq<char>, ApprovalRecord>,
    now: int,
)
    requires
        bridge_request_refusal(params, approvals, false, now) is None,
        params.temporary_grant,
    ensures
        bridge_request_refusal(params, approvals, true, now) matches Some((code, _)) && code
            == ErrorCode::InvalidParams,
{
}

} // verus!

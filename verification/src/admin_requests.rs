//! Administrative requests, from their parameters to the approval they wait for.
use crate::admin::{
    bridge_reason, bridge_request_refusal, check_approval_bridge_request,
    check_policy_preset_request, check_rule_add, check_rule_remove, check_token_revoke_request,
    check_unlock_request, enqueue_bound_admin_request, is_taken_up, law_admin_requests_wait_as_asked,
    mint_request_refusal,
    preset_request_refusal, preview_of, revoke_request_refusal, rule_add_refusal,
    rule_remove_refusal, stamp_grants_mint_request, stamped_mint, unlock_request_refusal,
    AdminEnqueue, PolicyState,
};
use crate::approvals::{ApprovalRecord, Approvals, Refusal};
use crate::dispatch::RemoteBinding;
use crate::error::{ErrorCode, IpcError};
use crate::grants::{admin_key_refusal, validate_admin_idempotency_key};
use crate::json::Json;
use crate::params::{
    is_admin, AdminApprovalBridgeParams, AdminDaemonUnlockParams, AdminGrantsMintParams,
    AdminPolicyPresetParams, AdminPolicyRuleAddParams, AdminPolicyRuleRemoveParams,
    AdminTokenRevokeParams, PendingRequest,
};
use vstd::prelude::*;

verus! {

/// The capability that an administrative request asks for.
pub open spec fn asked_capability(request: PendingRequest) -> Seq<char> {
    match request {
        PendingRequest::AdminPolicyPreset(_) => "admin.policy.preset"@,
        PendingRequest::AdminPolicyRuleAdd(_) => "admin.policy.rule_add"@,
        PendingRequest::AdminPolicyRuleRemove(_) => "admin.policy.rule_remove"@,
        PendingRequest::AdminDaemonUnlock(_) => "admin.daemon.unlock"@,
        PendingRequest::AdminTokenRevoke(_) => "admin.token.revoke"@,
        PendingRequest::AdminGrantsMint(_) => "admin.grants.mint"@,
        PendingRequest::AdminApprovalBridge(_) => "admin.approval.bridge"@,
        _ => Seq::empty(),
    }
}

/// Who asks, through which dispatch, and when.
#[derive(Debug)]
pub struct AdminCaller<'a> {
    pub binding: &'a RemoteBinding,
    /// Canonical principal of the caller.
    pub requester: &'a str,
    pub now: i64,
}

/// The answer to an administrative request: refused for what it asks, or taken up
/// as its capability.
pub open spec fn is_answered(
    r: Result<AdminEnqueue, IpcError>,
    refusal: Refusal,
    before: Map<Seq<char>, ApprovalRecord>,
    after: Map<Seq<char>, ApprovalRecord>,
    capability: Seq<char>,
    reason: Seq<char>,
    request: PendingRequest,
    caller: AdminCaller,
) -> bool {
    match refusal {
        Some((code, message)) => r matches Err(e) && e.is(code, message) && after == before,
        None => is_taken_up(
            r,
            before,
            after,
            capability,
            reason,
            request,
            *caller.binding,
            caller.requester@,
            caller.now,
        ),
    }
}

/// Takes a request for a preset up.
pub fn handle_admin_policy_preset_request(
    approvals: &mut Approvals,
    params: AdminPolicyPresetParams,
    caller: AdminCaller,
) -> (r: Result<AdminEnqueue, IpcError>)
    ensures
        is_answered(
            r,
            preset_request_refusal(params),
            old(approvals)@,
            final(approvals)@,
            asked_capability(PendingRequest::AdminPolicyPreset(params)),
            "Fresh passkey approval is required to replace the device policy preset."@,
            PendingRequest::AdminPolicyPreset(params),
            caller,
        ),
{
    match check_policy_preset_request(&params) {
        Ok(()) => {},
        Err(e) => {
            return Err(e);
        },
    }
    enqueue_bound_admin_request(
        approvals,
        "admin.policy.preset",
        "Fresh passkey approval is required to replace the device policy preset.",
        PendingRequest::AdminPolicyPreset(params),
        caller.binding,
        caller.requester,
        caller.now,
    )
}

/// Why a request for a rule is refused. `invalid` says what is wrong with the rule
/// itself.
pub open spec fn rule_add_request_refusal(
    params: AdminPolicyRuleAddParams,
    state: PolicyState,
    invalid: Option<Seq<char>>,
) -> Refusal {
    if admin_key_refusal(params.idempotency_key@) is Some {
        admin_key_refusal(params.idempotency_key@)
    } else if invalid is Some {
        Some((ErrorCode::InvalidParams, invalid->0))
    } else {
        rule_add_refusal(state, params.id@)
    }
}

/// Takes a request for a rule up. `invalid` says what is wrong with the rule itself.
pub fn handle_admin_policy_rule_add_request(
    approvals: &mut Approvals,
    params: AdminPolicyRuleAddParams,
    state: &PolicyState,
    invalid: Option<&str>,
    caller: AdminCaller,
) -> (r: Result<AdminEnqueue, IpcError>)
    ensures
        is_answered(
            r,
            rule_add_request_refusal(
                params,
                *state,
                match invalid {
                    Some(fault) => Some(fault@),
                    None => None,
                },
            ),
            old(approvals)@,
            final(approvals)@,
            asked_capability(PendingRequest::AdminPolicyRuleAdd(params)),
            "Fresh passkey approval is required to add this exact policy rule."@,
            PendingRequest::AdminPolicyRuleAdd(params),
            caller,
        ),
{
    match validate_admin_idempotency_key(params.idempotency_key.as_str()) {
        Ok(()) => {},
        Err(e) => {
            return Err(e);
        },
    }
    if let Some(fault) = invalid {
        return Err(IpcError::new(ErrorCode::InvalidParams, fault));
    }
    match check_rule_add(state, params.id.as_str()) {
        Ok(()) => {},
        Err(e) => {
            return Err(e);
        },
    }
    enqueue_bound_admin_request(
        approvals,
        "admin.policy.rule_add",
        "Fresh passkey approval is required to add this exact policy rule.",
        PendingRequest::AdminPolicyRuleAdd(params),
        caller.binding,
        caller.requester,
        caller.now,
    )
}

/// Why a request to remove a rule is refused.
pub open spec fn rule_remove_request_refusal(
    params: AdminPolicyRuleRemoveParams,
    state: PolicyState,
) -> Refusal {
    if admin_key_refusal(params.idempotency_key@) is Some {
        admin_key_refusal(params.idempotency_key@)
    } else {
        rule_remove_refusal(state, params.id@)
    }
}

/// Takes a request to remove a rule up.
pub fn handle_admin_policy_rule_remove_request(
    approvals: &mut Approvals,
    params: AdminPolicyRuleRemoveParams,
    state: &PolicyState,
    caller: AdminCaller,
) -> (r: Result<AdminEnqueue, IpcError>)
    ensures
        is_answered(
            r,
            rule_remove_request_refusal(params, *state),
            old(approvals)@,
            final(approvals)@,
            asked_capability(PendingRequest::AdminPolicyRuleRemove(params)),
            "Fresh passkey approval is required to remove this exact policy rule."@,
            PendingRequest::AdminPolicyRuleRemove(params),
            caller,
        ),
{
    match validate_admin_idempotency_key(params.idempotency_key.as_str()) {
        Ok(()) => {},
        Err(e) => {
            return Err(e);
        },
    }
    match check_rule_remove(state, params.id.as_str()) {
        Ok(()) => {},
        Err(e) => {
            return Err(e);
        },
    }
    enqueue_bound_admin_request(
        approvals,
        "admin.policy.rule_remove",
        "Fresh passkey approval is required to remove this exact policy rule.",
        PendingRequest::AdminPolicyRuleRemove(params),
        caller.binding,
        caller.requester,
        caller.now,
    )
}

/// Takes a request to lift lockdown up.
pub fn handle_admin_unlock_request(
    approvals: &mut Approvals,
    params: AdminDaemonUnlockParams,
    lockdown: bool,
    caller: AdminCaller,
) -> (r: Result<AdminEnqueue, IpcError>)
    ensures
        is_answered(
            r,
            unlock_request_refusal(params.idempotency_key@, lockdown),
            old(approvals)@,
            final(approvals)@,
            asked_capability(PendingRequest::AdminDaemonUnlock(params)),
            "Fresh passkey approval is required to lift emergency lockdown."@,
            PendingRequest::AdminDaemonUnlock(params),
            caller,
        ),
{
    match check_unlock_request(params.idempotency_key.as_str(), lockdown) {
        Ok(()) => {},
        Err(e) => {
            return Err(e);
        },
    }
    enqueue_bound_admin_request(
        approvals,
        "admin.daemon.unlock",
        "Fresh passkey approval is required to lift emergency lockdown.",
        PendingRequest::AdminDaemonUnlock(params),
        caller.binding,
        caller.requester,
        caller.now,
    )
}

/// Takes a request to revoke a principal up. `canonical` is the canonical form of
/// the principal that it names.
pub fn handle_admin_token_revoke_request(
    approvals: &mut Approvals,
    params: AdminTokenRevokeParams,
    canonical: &str,
    caller: AdminCaller,
) -> (r: Result<AdminEnqueue, IpcError>)
    ensures
        is_answered(
            r,
            revoke_request_refusal(params, canonical@, caller.requester@),
            old(approvals)@,
            final(approvals)@,
            asked_capability(PendingRequest::AdminTokenRevoke(params)),
            "Fresh passkey approval is required to revoke this principal."@,
            PendingRequest::AdminTokenRevoke(params),
            caller,
        ),
{
    match check_token_revoke_request(&params, canonical, caller.requester) {
        Ok(()) => {},
        Err(e) => {
            return Err(e);
        },
    }
    enqueue_bound_admin_request(
        approvals,
        "admin.token.revoke",
        "Fresh passkey approval is required to revoke this principal.",
        PendingRequest::AdminTokenRevoke(params),
        caller.binding,
        caller.requester,
        caller.now,
    )
}

/// Takes a request to mint a grant up, for the principal and device of the
/// verified dispatch and no others.
pub fn handle_admin_grants_mint_request(
    approvals: &mut Approvals,
    params: AdminGrantsMintParams,
    caller: AdminCaller,
) -> (r: Result<AdminEnqueue, IpcError>)
    ensures
        is_answered(
            r,
            mint_request_refusal(params.idempotency_key@, *caller.binding),
            old(approvals)@,
            final(approvals)@,
            asked_capability(PendingRequest::AdminGrantsMint(stamped_mint(params, *caller.binding))),
            "Fresh passkey approval is required to mint a bounded tool grant."@,
            PendingRequest::AdminGrantsMint(stamped_mint(params, *caller.binding)),
            caller,
        ),
{
    let stamped = match stamp_grants_mint_request(params, caller.binding) {
        Ok(stamped) => stamped,
        Err(e) => {
            return Err(e);
        },
    };
    enqueue_bound_admin_request(
        approvals,
        "admin.grants.mint",
        "Fresh passkey approval is required to mint a bounded tool grant.",
        PendingRequest::AdminGrantsMint(stamped),
        caller.binding,
        caller.requester,
        caller.now,
    )
}

/// Takes a request for a bridge up. The second part of the result is what is shown
/// of the target beside the answer.
pub fn handle_admin_approval_bridge_request(
    approvals: &mut Approvals,
    params: AdminApprovalBridgeParams,
    needs_operation_binding: bool,
    caller: AdminCaller,
) -> (r: Result<(AdminEnqueue, Json), IpcError>)
    ensures
        ({
            let target = old(approvals)@[params.approval_id@];
            is_answered(
                match r {
                    Ok((taken, _)) => Ok(taken),
                    Err(e) => Err(e),
                },
                bridge_request_refusal(
                    params,
                    old(approvals)@,
                    needs_operation_binding,
                    caller.now as int,
                ),
                old(approvals)@,
                final(approvals)@,
                asked_capability(PendingRequest::AdminApprovalBridge(params)),
                bridge_reason(params.decision@, target),
                PendingRequest::AdminApprovalBridge(params),
                caller,
            )
        }),
        r matches Ok((_, preview)) ==> preview@ == preview_of(
            old(approvals)@[params.approval_id@],
        ),
{
    let (reason, preview) = match check_approval_bridge_request(
        &params,
        approvals,
        needs_operation_binding,
        caller.now,
    ) {
        Ok(checked) => checked,
        Err(e) => {
            return Err(e);
        },
    };
    match enqueue_bound_admin_request(
        approvals,
        "admin.approval.bridge",
        reason.as_str(),
        PendingRequest::AdminApprovalBridge(params),
        caller.binding,
        caller.requester,
        caller.now,
    ) {
        Ok(taken) => Ok((taken, preview)),
        Err(e) => Err(e),
    }
}

/// Answers a request for a bridge: as any other, with what is shown of its target.
pub fn bridge_answer(body: &Json, preview: Json) -> (answer: Json)
    ensures
        answer@ == body@.with("target_preview"@, preview@),
{
    body.with("target_preview", preview)
}

/// Each administrative request asks for a capability of its own, and no other request
/// asks for one.
pub proof fn law_admin_capabilities_are_told_apart(a: PendingRequest, b: PendingRequest)
    ensures
        a is AdminPolicyPreset ==> asked_capability(a) == "admin.policy.preset"@,
        a is AdminPolicyRuleAdd ==> asked_capability(a) == "admin.policy.rule_add"@,
        a is AdminPolicyRuleRemove ==> asked_capability(a) == "admin.policy.rule_remove"@,
        a is AdminDaemonUnlock ==> asked_capability(a) == "admin.daemon.unlock"@,
        a is AdminTokenRevoke ==> asked_capability(a) == "admin.token.revoke"@,
        a is AdminGrantsMint ==> asked_capability(a) == "admin.grants.mint"@,
        a is AdminApprovalBridge ==> asked_capability(a) == "admin.approval.bridge"@,
        asked_capability(a).len() > 0 <==> is_admin(a),
        a is AdminDaemonUnlock && !(b is AdminDaemonUnlock) ==> asked_capability(a)
            != asked_capability(b),
        a is AdminTokenRevoke && !(b is AdminTokenRevoke) ==> asked_capability(a)
            != asked_capability(b),
{
    reveal_strlit("admin.policy.preset");
    reveal_strlit("admin.policy.rule_add");
    reveal_strlit("admin.policy.rule_remove");
    reveal_strlit("admin.daemon.unlock");
    reveal_strlit("admin.token.revoke");
    reveal_strlit("admin.grants.mint");
    reveal_strlit("admin.approval.bridge");
    assert("admin.policy.preset"@.len() == 19 && "admin.policy.rule_add"@.len() == 21 && "admin.policy.rule_remove"@.len() == 24 && "admin.daemon.unlock"@.len() == 19 && "admin.token.revoke"@.len() == 18 && "admin.grants.mint"@.len() == 17 && "admin.approval.bridge"@.len() == 21);
    assert("admin.policy.preset"@[6] != "admin.daemon.unlock"@[6]);
    assert("admin.policy.rule_add"@[6] != "admin.approval.bridge"@[6]);
}

/// A request that is refused changes no approval; one that is not is taken up under its
/// capability and reason, for its caller.
pub proof fn law_admin_requests_are_refused_or_wait(
    r: Result<AdminEnqueue, IpcError>,
    refusal: Refusal,
    before: Map<Seq<char>, ApprovalRecord>,
    after: Map<Seq<char>, ApprovalRecord>,
    capability: Seq<char>,
    reason: Seq<char>,
    request: PendingRequest,
    caller: AdminCaller,
)
    requires
        is_answered(r, refusal, before, after, capability, reason, request, caller),
    ensures
        refusal matches Some((code, message)) ==> after == before && (r matches Err(e) && e.code
            == code && e.message@ == message),
        r matches Ok(AdminEnqueue::Enqueued { approval_id, .. }) ==> {
            let record = after[approval_id@];
            &&& refusal is None
            &&& record.capability@ == capability
            &&& record.reason@ == reason
            &&& record.request == request
            &&& record.requester_principal@ == caller.requester@
            &&& record.created_at_unix == caller.now
            &&& record.expires_at_unix == caller.binding.expires_at_unix
        },
{
    if refusal is None {
        law_admin_requests_wait_as_asked(
            r,
            before,
            after,
            capability,
            reason,
            request,
            *caller.binding,
            caller.requester@,
            caller.now,
        );
    }
}

/// A rule is asked to be added where the key is sound, the rule itself is, and the policy
/// takes it; it is asked to be removed where the key is sound and there is one.
pub proof fn law_rule_requests_are_admitted(
    added: AdminPolicyRuleAddParams,
    removed: AdminPolicyRuleRemoveParams,
    state: PolicyState,
    invalid: Option<Seq<char>>,
)
    ensures
        rule_add_request_refusal(added, state, invalid) is None <==> admin_key_refusal(
            added.idempotency_key@,
        ) is None && invalid is None && rule_add_refusal(state, added.id@) is None,
        rule_remove_request_refusal(removed, state) is None <==> admin_key_refusal(
            removed.idempotency_key@,
        ) is None && rule_remove_refusal(state, removed.id@) is None,
{
}

} // verus!

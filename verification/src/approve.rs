//! Carrying out an approval, once.
//!
//! The record becomes `executing` before anything runs, so that a crash never
//! shows it as pending again. What fails before execution is compensated; what
//! fails from execution on is not.
use crate::approvals::{
    answers, approver_refusal, check_decidable, check_pending_request_lockdown, decided,
    ensure_independent_human_approver, is_denied, lockdown_refusal, request_idempotency_key,
    request_key, restored, same_result, set_state, undecidable, ApprovalRecord, Approvals,
    ApproverFacts, DecisionUndo, Refusal,
};
use crate::error::{ErrorCode, IpcError};
use crate::grants::{saturated, saturating_add, TemporaryGrant};
use crate::journal::put_some;
use crate::json::{Json, JsonObject, JsonV};
use crate::params::{is_admin, pending_request_is_admin, AdminApprovalBridgeParams, PendingRequest};
use crate::principal::{journal_key, principal_journal_key};
use crate::text::{join, join3, same_text, trim, trimmed};
use vstd::prelude::*;
use vstd::string::*;

verus! {

/// Lifetime of a temporary grant that names none.
pub const DEFAULT_GRANT_SECS: i64 = 3600;

/// Principal of local requests.
pub const LOCAL_PRINCIPAL: &'static str = "prin_local";

/// What carrying out an approval needs to know.
#[derive(Debug)]
pub struct ApproveTicket {
    pub operation_id: String,
    pub capability: String,
    pub requester_principal: String,
    /// Journal key of the deferred operation.
    pub journal_key: Option<String>,
    /// Principal that a temporary grant is bound to.
    pub grant_principal: String,
    pub is_bridge: bool,
}

/// Why the request of a decidable approval may not be carried out.
pub open spec fn request_refusal(
    record: ApprovalRecord,
    revoke_target: Seq<char>,
    temporary_grant: bool,
    lockdown: bool,
) -> Refusal {
    if record.request is AdminTokenRevoke && revoke_target == record.requester_principal@ {
        Some(
            (
                ErrorCode::InvalidParams,
                "cannot revoke the principal that authorized this request"@,
            ),
        )
    } else if temporary_grant && is_admin(record.request) {
        Some(
            (
                ErrorCode::InvalidParams,
                "temporary grants are not supported for admin or approval-bridge actions"@,
            ),
        )
    } else if lockdown_refusal(lockdown, record.request) is Some {
        lockdown_refusal(lockdown, record.request)
    } else if temporary_grant {
        match record.facts {
            None => Some(
                (ErrorCode::InvalidParams, "temporary grant requires server approval facts"@),
            ),
            Some(facts) => if trim(facts.capability@) != trim(record.capability@) {
                Some(
                    (
                        ErrorCode::InvalidParams,
                        "temporary grant capability does not match server approval facts"@,
                    ),
                )
            } else {
                None
            },
        }
    } else {
        None
    }
}

/// Why an approval may not be carried out.
pub open spec fn approve_refusal(
    approvals: Map<Seq<char>, ApprovalRecord>,
    id: Seq<char>,
    approver: Seq<char>,
    facts: ApproverFacts,
    revoke_target: Seq<char>,
    temporary_grant: bool,
    lockdown: bool,
) -> Refusal {
    match undecidable(approvals, id, approver, facts) {
        Some(refusal) => Some(refusal),
        None => request_refusal(approvals[id], revoke_target, temporary_grant, lockdown),
    }
}

/// The ticket of a record.
pub open spec fn is_ticket_of(ticket: ApproveTicket, record: ApprovalRecord) -> bool {
    &&& ticket.operation_id == record.operation_id
    &&& ticket.capability == record.capability
    &&& ticket.requester_principal == record.requester_principal
    &&& match (request_key(record.request), ticket.journal_key) {
        (Some(key), Some(k)) => k@ == journal_key(record.requester_principal@, key@),
        (None, None) => true,
        _ => false,
    }
    &&& ticket.grant_principal@ == (if record.requester_principal@.len() == 0 {
        LOCAL_PRINCIPAL@
    } else {
        record.requester_principal@
    })
    &&& ticket.is_bridge == (record.request is AdminApprovalBridge)
}

/// Admits an approval for execution. `revoke_target` is the canonical principal
/// of a token revocation; principals are canonical.
pub fn handle_approval_approve(
    approvals: &Approvals,
    id: &str,
    approver: &str,
    facts: ApproverFacts,
    revoke_target: &str,
    temporary_grant: bool,
    lockdown: bool,
) -> (r: Result<ApproveTicket, IpcError>)
    ensures
        answers(
            r,
            approve_refusal(
                approvals@,
                id@,
                approver@,
                facts,
                revoke_target@,
                temporary_grant,
                lockdown,
            ),
        ),
        r matches Ok(ticket) ==> is_ticket_of(ticket, approvals@[id@]),
{
    let record = match check_decidable(approvals, id, approver, facts) {
        Ok(record) => record,
        Err(e) => {
            return Err(e);
        },
    };
    let revokes = matches!(record.request, PendingRequest::AdminTokenRevoke(_));
    if revokes && same_text(revoke_target, record.requester_principal.as_str()) {
        return Err(
            IpcError::new(
                ErrorCode::InvalidParams,
                "cannot revoke the principal that authorized this request",
            ),
        );
    }
    if temporary_grant && pending_request_is_admin(&record.request) {
        return Err(
            IpcError::new(
                ErrorCode::InvalidParams,
                "temporary grants are not supported for admin or approval-bridge actions",
            ),
        );
    }
    match check_pending_request_lockdown(lockdown, &record.request) {
        Ok(()) => {},
        Err(e) => {
            return Err(e);
        },
    }
    if temporary_grant {
        match &record.facts {
            None => {
                return Err(
                    IpcError::new(
                        ErrorCode::InvalidParams,
                        "temporary grant requires server approval facts",
                    ),
                );
            },
            Some(facts) => {
                let stated = trimmed(facts.capability.as_str());
                let approved = trimmed(record.capability.as_str());
                if !same_text(stated.as_str(), approved.as_str()) {
                    return Err(
                        IpcError::new(
                            ErrorCode::InvalidParams,
                            "temporary grant capability does not match server approval facts",
                        ),
                    );
                }
            },
        }
    }
    let requester = record.requester_principal.clone();
    let journal_key = match request_idempotency_key(&record.request) {
        Some(key) => Some(principal_journal_key(requester.as_str(), key.as_str())),
        None => None,
    };
    let grant_principal = if requester.as_str().is_empty() {
        LOCAL_PRINCIPAL.to_owned()
    } else {
        requester.clone()
    };
    Ok(
        ApproveTicket {
            operation_id: record.operation_id.clone(),
            capability: record.capability.clone(),
            requester_principal: requester,
            journal_key,
            grant_principal,
            is_bridge: matches!(record.request, PendingRequest::AdminApprovalBridge(_)),
        },
    )
}

/// When a temporary grant ends.
pub open spec fn granted_until(now: int, grant_seconds: Option<i64>) -> int {
    saturated(
        now + (match grant_seconds {
            Some(s) => s,
            None => DEFAULT_GRANT_SECS,
        }),
    )
}

/// Expiry of a temporary grant that is approved now.
pub fn grant_expiry(now: i64, grant_seconds: Option<i64>) -> (expires_unix: i64)
    ensures
        expires_unix == granted_until(now as int, grant_seconds),
{
    let secs: i64 = match grant_seconds {
        Some(s) => s,
        None => DEFAULT_GRANT_SECS,
    };
    saturating_add(now, secs)
}

/// The steps of carrying out an approval. Each names what has to be done; the
/// outcome decides what follows.
#[derive(Debug, Clone, Copy, PartialEq, Eq, Structural)]
pub enum ApproveStage {
    /// Write the record as `executing`.
    MarkExecuting,
    /// Reserve the journal key.
    Reserve,
    /// Write the temporary grant.
    StoreGrant,
    /// Run the request.
    Execute,
    /// Write the receipt.
    StoreReceipt,
    /// Write the record as `approved`.
    MarkApproved,
    Done,
}

/// What follows a stage.
#[derive(Debug, Clone, Copy, PartialEq, Eq, Structural)]
pub enum ApproveNext {
    Continue(ApproveStage),
    /// Nothing ran: the record is pending again. What was written is taken back:
    /// the marker where one was reserved, the record where it was written.
    Compensate { rewrite_journal: bool, rewrite_approvals: bool },
    /// The request may have run: the record stays `executing`.
    Stop,
}

/// The order of the stages, and what a failed one leads to.
pub open spec fn next_stage(
    stage: ApproveStage,
    ok: bool,
    has_grant: bool,
    has_key: bool,
) -> ApproveNext {
    match (stage, ok) {
        (ApproveStage::MarkExecuting, true) => ApproveNext::Continue(ApproveStage::Reserve),
        (ApproveStage::MarkExecuting, false) => ApproveNext::Compensate {
            rewrite_journal: false,
            rewrite_approvals: false,
        },
        (ApproveStage::Reserve, true) => ApproveNext::Continue(
            if has_grant {
                ApproveStage::StoreGrant
            } else {
                ApproveStage::Execute
            },
        ),
        (ApproveStage::Reserve, false) => ApproveNext::Compensate {
            rewrite_journal: false,
            rewrite_approvals: true,
        },
        (ApproveStage::StoreGrant, true) => ApproveNext::Continue(ApproveStage::Execute),
        (ApproveStage::StoreGrant, false) => ApproveNext::Compensate {
            rewrite_journal: has_key,
            rewrite_approvals: true,
        },
        (ApproveStage::Execute, true) => ApproveNext::Continue(ApproveStage::StoreReceipt),
        (ApproveStage::StoreReceipt, true) => ApproveNext::Continue(ApproveStage::MarkApproved),
        (ApproveStage::MarkApproved, true) => ApproveNext::Continue(ApproveStage::Done),
        (ApproveStage::Done, _) => ApproveNext::Continue(ApproveStage::Done),
        (_, false) => ApproveNext::Stop,
    }
}

/// Decides what follows a stage.
pub fn after_stage(stage: ApproveStage, ok: bool, has_grant: bool, has_key: bool) -> (next:
    ApproveNext)
    ensures
        next == next_stage(stage, ok, has_grant, has_key),
{
    match (stage, ok) {
        (ApproveStage::MarkExecuting, true) => ApproveNext::Continue(ApproveStage::Reserve),
        (ApproveStage::MarkExecuting, false) => ApproveNext::Compensate {
            rewrite_journal: false,
            rewrite_approvals: false,
        },
        (ApproveStage::Reserve, true) => {
            if has_grant {
                ApproveNext::Continue(ApproveStage::StoreGrant)
            } else {
                ApproveNext::Continue(ApproveStage::Execute)
            }
        },
        (ApproveStage::Reserve, false) => ApproveNext::Compensate {
            rewrite_journal: false,
            rewrite_approvals: true,
        },
        (ApproveStage::StoreGrant, true) => ApproveNext::Continue(ApproveStage::Execute),
        (ApproveStage::StoreGrant, false) => ApproveNext::Compensate {
            rewrite_journal: has_key,
            rewrite_approvals: true,
        },
        (ApproveStage::Execute, true) => ApproveNext::Continue(ApproveStage::StoreReceipt),
        (ApproveStage::StoreReceipt, true) => ApproveNext::Continue(ApproveStage::MarkApproved),
        (ApproveStage::MarkApproved, true) => ApproveNext::Continue(ApproveStage::Done),
        (ApproveStage::Done, _) => ApproveNext::Continue(ApproveStage::Done),
        (_, false) => ApproveNext::Stop,
    }
}

/// From execution on, a failure never makes the approval pending again; before
/// it, a failure always does.
pub proof fn law_execution_is_never_compensated(
    stage: ApproveStage,
    has_grant: bool,
    has_key: bool,
)
    ensures
        stage == ApproveStage::Execute || stage == ApproveStage::StoreReceipt || stage
            == ApproveStage::MarkApproved ==> next_stage(stage, false, has_grant, has_key)
            == ApproveNext::Stop,
        stage == ApproveStage::MarkExecuting || stage == ApproveStage::Reserve || stage
            == ApproveStage::StoreGrant ==> next_stage(stage, false, has_grant, has_key)
            is Compensate,
{
}

/// The request runs only after the record was written as `executing` and the key
/// was reserved.
pub proof fn law_marker_precedes_execution(
    stage: ApproveStage,
    ok: bool,
    has_grant: bool,
    has_key: bool,
)
    requires
        next_stage(stage, ok, has_grant, has_key) == ApproveNext::Continue(ApproveStage::Execute),
    ensures
        ok,
        (stage == ApproveStage::Reserve && !has_grant) || stage == ApproveStage::StoreGrant,
{
}

/// An approval was marked as being carried out.
pub open spec fn is_marked_executing(
    before: Map<Seq<char>, ApprovalRecord>,
    after: Map<Seq<char>, ApprovalRecord>,
    undo: DecisionUndo,
    id: Seq<char>,
    now: i64,
) -> bool {
    &&& undo.id@ == id
    &&& after == before.insert(id, after[id])
    &&& decided(before[id], after[id], undo, "executing"@)
    &&& after[id].decided_at_unix == Some(now)
    &&& after[id].decided_by_principal == before[id].decided_by_principal
    &&& same_result(after[id].result, before[id].result)
}

/// Marks an approval as executing.
pub fn mark_executing(approvals: &mut Approvals, id: &str, now: i64) -> (undo: DecisionUndo)
    requires
        old(approvals)@.contains_key(id@),
    ensures
        is_marked_executing(old(approvals)@, final(approvals)@, undo, id@, now),
{
    set_state(approvals, id, "executing", Some(now), None, None)
}

/// An approval was marked as carried out.
pub open spec fn is_marked_approved(
    before: Map<Seq<char>, ApprovalRecord>,
    after: Map<Seq<char>, ApprovalRecord>,
    undo: DecisionUndo,
    id: Seq<char>,
    body: JsonV,
    approver: Seq<char>,
) -> bool {
    &&& undo.id@ == id
    &&& after == before.insert(id, after[id])
    &&& decided(before[id], after[id], undo, "approved"@)
    &&& after[id].decided_at_unix == before[id].decided_at_unix
    &&& after[id].decided_by_principal matches Some(by) && by@ == approver
    &&& after[id].result matches Some(r) && r@ == body
}

/// Marks an approval as approved, with the answer and who decided.
pub fn mark_approved(approvals: &mut Approvals, id: &str, body: &Json, approver: &str) -> (undo:
    DecisionUndo)
    requires
        old(approvals)@.contains_key(id@),
    ensures
        is_marked_approved(old(approvals)@, final(approvals)@, undo, id@, body@, approver@),
{
    set_state(approvals, id, "approved", None, Some(approver.to_owned()), Some(body.copy()))
}

/// Optional text as JSON.
pub open spec fn text_or_null(s: Option<String>) -> JsonV {
    match s {
        Some(text) => JsonV::Str(text@),
        None => JsonV::Null,
    }
}

/// Optional text as JSON.
pub fn optional_text(s: &Option<String>) -> (value: Json)
    ensures
        value@ == text_or_null(*s),
{
    match s {
        Some(text) => Json::text(text.as_str()),
        None => Json::Null,
    }
}

/// The scope of a grant, as it is disclosed to the caller.
pub open spec fn disclosed_scope(grant: TemporaryGrant) -> JsonV {
    JsonV::Object(
        Map::<Seq<char>, JsonV>::empty().insert("id"@, JsonV::Str(grant.id@)).insert(
            "capability"@,
            JsonV::Str(grant.capability@),
        ).insert("principal_id"@, JsonV::Str(grant.principal_id@)).insert(
            "scope"@,
            text_or_null(grant.path_prefix),
        ).insert("workspace_id"@, text_or_null(grant.workspace_id)).insert(
            "expires_at_unix"@,
            JsonV::Integer(grant.expires_unix as int),
        ),
    )
}

/// Discloses the scope of a grant.
pub fn granted_scope(grant: &TemporaryGrant) -> (scope: Json)
    ensures
        scope@ == disclosed_scope(*grant),
{
    let mut object = JsonObject::new();
    object.put("id", Json::text(grant.id.as_str()));
    object.put("capability", Json::text(grant.capability.as_str()));
    object.put("principal_id", Json::text(grant.principal_id.as_str()));
    object.put("scope", optional_text(&grant.path_prefix));
    object.put("workspace_id", optional_text(&grant.workspace_id));
    object.put("expires_at_unix", Json::Integer(grant.expires_unix as i128));
    Json::Object(object)
}

/// The answer to an approval that was carried out.
pub open spec fn approved_body(
    operation_id: Seq<char>,
    approval_id: Seq<char>,
    result: JsonV,
    grant: Option<JsonV>,
) -> JsonV {
    JsonV::Object(
        put_some(
            Map::<Seq<char>, JsonV>::empty().insert("approval_required"@, JsonV::Bool(false)).insert(
                "operation_id"@,
                JsonV::Str(operation_id),
            ).insert("approval_id"@, JsonV::Str(approval_id)).insert("result"@, result).insert(
                "replayed"@,
                JsonV::Bool(false),
            ).insert("decision"@, JsonV::Str("allow"@)).insert(
                "reason"@,
                JsonV::Str("human approved"@),
            ),
            "grant"@,
            grant,
        ),
    )
}

/// Builds the answer to an approval that was carried out.
pub fn approve_answer(
    operation_id: &str,
    approval_id: &str,
    result: Json,
    grant: Option<Json>,
) -> (body: Json)
    ensures
        body@ == approved_body(
            operation_id@,
            approval_id@,
            result@,
            match grant {
                Some(g) => Some(g@),
                None => None,
            },
        ),
{
    let mut object = JsonObject::new();
    object.put("approval_required", Json::Bool(false));
    object.put("operation_id", Json::text(operation_id));
    object.put("approval_id", Json::text(approval_id));
    object.put("result", result);
    object.put("replayed", Json::Bool(false));
    object.put("decision", Json::text("allow"));
    object.put("reason", Json::text("human approved"));
    match grant {
        Some(g) => object.put("grant", g),
        None => {},
    }
    Json::Object(object)
}

/// A record that a bridge may decide: pending, unexpired, local, not admin.
pub open spec fn is_bridge_target(record: ApprovalRecord, now: int) -> bool {
    &&& record.state@ == "pending"@
    &&& !(record.expires_at_unix matches Some(expiry) && expiry < now)
    &&& record.target_payload_hash is None
    &&& !is_admin(record.request)
}

/// Whether a bridge may decide a record.
pub fn bridge_target(record: &ApprovalRecord, now: i64) -> (b: bool)
    ensures
        b == is_bridge_target(*record, now as int),
{
    let expired = match record.expires_at_unix {
        Some(expiry) => expiry < now,
        None => false,
    };
    same_text(record.state.as_str(), "pending") && !expired && record.target_payload_hash.is_none()
        && !pending_request_is_admin(&record.request)
}

/// Why a bridge does not carry out its target.
pub open spec fn bridge_refusal(
    approvals: Map<Seq<char>, ApprovalRecord>,
    target_id: Seq<char>,
    approver: Seq<char>,
    facts: ApproverFacts,
    lockdown: bool,
    now: int,
) -> Refusal {
    if !approvals.contains_key(target_id) {
        Some((ErrorCode::InvalidParams, "local approval not found: "@ + target_id))
    } else {
        let target = approvals[target_id];
        if !is_bridge_target(target, now) {
            Some(
                (
                    ErrorCode::Conflict,
                    "target local approval is no longer pending and eligible"@,
                ),
            )
        } else {
            match approver_refusal(approver, target.requester_principal@, facts) {
                Some(refusal) => Some(refusal),
                None => lockdown_refusal(lockdown, target.request),
            }
        }
    }
}

/// Admits the target of a bridge; it is then approved like any other.
pub fn execute_approval_bridge(
    approvals: &Approvals,
    params: &AdminApprovalBridgeParams,
    approver: &str,
    facts: ApproverFacts,
    lockdown: bool,
    now: i64,
) -> (r: Result<(), IpcError>)
    ensures
        answers(
            r,
            bridge_refusal(
                approvals@,
                params.approval_id@,
                approver@,
                facts,
                lockdown,
                now as int,
            ),
        ),
{
    let target = match approvals.get(params.approval_id.as_str()) {
        Some(target) => target,
        None => {
            return Err(
                IpcError::with_message(
                    ErrorCode::InvalidParams,
                    join("local approval not found: ", params.approval_id.as_str()),
                ),
            );
        },
    };
    if !bridge_target(target, now) {
        return Err(
            IpcError::new(
                ErrorCode::Conflict,
                "target local approval is no longer pending and eligible",
            ),
        );
    }
    match ensure_independent_human_approver(approver, target.requester_principal.as_str(), facts) {
        Ok(()) => {},
        Err(e) => {
            return Err(e);
        },
    }
    check_pending_request_lockdown(lockdown, &target.request)
}

/// A bridge never carries out another administrative request.
pub proof fn law_bridges_do_not_chain(
    approvals: Map<Seq<char>, ApprovalRecord>,
    target_id: Seq<char>,
    approver: Seq<char>,
    facts: ApproverFacts,
    lockdown: bool,
    now: int,
)
    requires
        bridge_refusal(approvals, target_id, approver, facts, lockdown, now) is None,
    ensures
        approvals.contains_key(target_id),
        !(approvals[target_id].request is AdminApprovalBridge),
        !is_admin(approvals[target_id].request),
{
}

/// Why a bridge and its target cannot both be denied.
pub open spec fn bridge_deny_refusal(
    approvals: Map<Seq<char>, ApprovalRecord>,
    bridge_id: Seq<char>,
    target_id: Seq<char>,
    approver: Seq<char>,
    bridge_facts: ApproverFacts,
    target_facts: ApproverFacts,
) -> Refusal {
    if !approvals.contains_key(bridge_id) {
        Some((ErrorCode::InvalidParams, "approval not found: "@ + bridge_id))
    } else if !approvals.contains_key(target_id) {
        Some((ErrorCode::InvalidParams, "local approval not found: "@ + target_id))
    } else if approvals[bridge_id].state@ != "pending"@ || approvals[target_id].state@
        != "pending"@ {
        Some((ErrorCode::Conflict, "approval bridge or target was already decided"@))
    } else {
        match approver_refusal(approver, approvals[bridge_id].requester_principal@, bridge_facts) {
            Some(refusal) => Some(refusal),
            None => approver_refusal(
                approver,
                approvals[target_id].requester_principal@,
                target_facts,
            ),
        }
    }
}

/// A bridge and its target were denied.
pub open spec fn are_denied_together(
    before: Map<Seq<char>, ApprovalRecord>,
    after: Map<Seq<char>, ApprovalRecord>,
    target_undo: Option<DecisionUndo>,
    bridge_undo: DecisionUndo,
    target_id: Seq<char>,
    bridge_id: Seq<char>,
    approver: Seq<char>,
    now: i64,
) -> bool {
    &&& bridge_undo.id@ == bridge_id
    &&& after == before.insert(bridge_id, after[bridge_id]).insert(target_id, after[target_id])
    &&& is_denied(before[bridge_id], after[bridge_id], bridge_undo, approver, now)
    &&& target_id == bridge_id ==> target_undo is None
    &&& target_id != bridge_id ==> (target_undo matches Some(undo) && undo.id@ == target_id
        && is_denied(before[target_id], after[target_id], undo, approver, now))
}

/// Denies a bridge together with its target. The undos take both back if they
/// cannot be written.
pub fn deny_approval_bridge(
    approvals: &mut Approvals,
    bridge_id: &str,
    params: &AdminApprovalBridgeParams,
    approver: &str,
    bridge_facts: ApproverFacts,
    target_facts: ApproverFacts,
    now: i64,
) -> (r: Result<(Option<DecisionUndo>, DecisionUndo), IpcError>)
    ensures
        answers(
            r,
            bridge_deny_refusal(
                old(approvals)@,
                bridge_id@,
                params.approval_id@,
                approver@,
                bridge_facts,
                target_facts,
            ),
        ),
        match r {
            Ok((target_undo, bridge_undo)) => are_denied_together(
                old(approvals)@,
                final(approvals)@,
                target_undo,
                bridge_undo,
                params.approval_id@,
                bridge_id@,
                approver@,
                now,
            ),
            Err(_) => final(approvals)@ == old(approvals)@,
        },
{
    let target_id = params.approval_id.as_str();
    let bridge = match approvals.get(bridge_id) {
        Some(bridge) => bridge,
        None => {
            return Err(
                IpcError::with_message(
                    ErrorCode::InvalidParams,
                    join("approval not found: ", bridge_id),
                ),
            );
        },
    };
    let target = match approvals.get(target_id) {
        Some(target) => target,
        None => {
            return Err(
                IpcError::with_message(
                    ErrorCode::InvalidParams,
                    join("local approval not found: ", target_id),
                ),
            );
        },
    };
    if !same_text(bridge.state.as_str(), "pending") || !same_text(
        target.state.as_str(),
        "pending",
    ) {
        return Err(
            IpcError::new(
                ErrorCode::Conflict,
                "approval bridge or target was already decided",
            ),
        );
    }
    match ensure_independent_human_approver(
        approver,
        bridge.requester_principal.as_str(),
        bridge_facts,
    ) {
        Ok(()) => {},
        Err(e) => {
            return Err(e);
        },
    }
    match ensure_independent_human_approver(
        approver,
        target.requester_principal.as_str(),
        target_facts,
    ) {
        Ok(()) => {},
        Err(e) => {
            return Err(e);
        },
    }
    let bridge_undo = set_state(
        approvals,
        bridge_id,
        "denied",
        Some(now),
        Some(approver.to_owned()),
        None,
    );
    if same_text(bridge_id, target_id) {
        proof {
            let after = approvals@;
            assert(after.insert(target_id@, after[target_id@]) =~= after);
        }
        return Ok((None, bridge_undo));
    }
    let target_undo = set_state(
        approvals,
        target_id,
        "denied",
        Some(now),
        Some(approver.to_owned()),
        None,
    );
    Ok((Some(target_undo), bridge_undo))
}

/// The answer to a bridge that was denied with its target.
pub open spec fn bridge_denied_body(
    bridge_id: Seq<char>,
    target_id: Seq<char>,
    target_operation_id: Seq<char>,
) -> JsonV {
    JsonV::Object(
        Map::<Seq<char>, JsonV>::empty().insert("approval_id"@, JsonV::Str(bridge_id)).insert(
            "target_approval_id"@,
            JsonV::Str(target_id),
        ).insert("target_operation_id"@, JsonV::Str(target_operation_id)).insert(
            "state"@,
            JsonV::Str("denied"@),
        ),
    )
}

/// The answer to the denial of a bridge and its target.
pub fn bridge_deny_answer(bridge_id: &str, target_id: &str, target_operation_id: &str) -> (body:
    Json)
    ensures
        body@ == bridge_denied_body(bridge_id@, target_id@, target_operation_id@),
{
    let mut object = JsonObject::new();
    object.put("approval_id", Json::text(bridge_id));
    object.put("target_approval_id", Json::text(target_id));
    object.put("target_operation_id", Json::text(target_operation_id));
    object.put("state", Json::text("denied"));
    Json::Object(object)
}

/// The texts in a row, `; ` between them.
pub open spec fn joined_errors(errors: Seq<IpcError>) -> Seq<char>
    decreases errors.len(),
{
    if errors.len() == 0 {
        Seq::empty()
    } else if errors.len() == 1 {
        errors[0].message@
    } else {
        joined_errors(errors.drop_last()) + "; "@ + errors.last().message@
    }
}

/// Adds the failures of a compensation to the error that caused it.
pub fn with_rollback_errors(primary: IpcError, rollback_errors: &Vec<IpcError>) -> (e: IpcError)
    ensures
        e.code == primary.code,
        e.message@ == (if rollback_errors@.len() == 0 {
            primary.message@
        } else {
            primary.message@ + "; rollback persistence also failed: "@ + joined_errors(
                rollback_errors@,
            )
        }),
{
    let n: usize = rollback_errors.len();
    if n == 0 {
        return primary;
    }
    let mut details = rollback_errors[0].message.clone();
    let mut i: usize = 1;
    assert(rollback_errors@.take(1) =~= seq![rollback_errors@[0]]);
    while i < n
        invariant
            1 <= i <= n,
            n == rollback_errors@.len(),
            details@ == joined_errors(rollback_errors@.take(i as int)),
        decreases n - i,
    {
        details.append("; ");
        details.append(rollback_errors[i].message.as_str());
        assert(rollback_errors@.take(i + 1).drop_last() =~= rollback_errors@.take(i as int));
        i += 1;
    }
    assert(rollback_errors@.take(n as int) =~= rollback_errors@);
    IpcError::with_message(
        primary.code,
        join3(
            primary.message.as_str(),
            "; rollback persistence also failed: ",
            details.as_str(),
        ),
    )
}

/// The answer to an approval that was carried out has the very result of the execution,
/// under the ids of the operation and of the approval, with the grant where one was given.
pub proof fn law_approvals_are_answered_with_their_result(
    operation_id: Seq<char>,
    approval_id: Seq<char>,
    result: JsonV,
    grant: Option<JsonV>,
)
    ensures
        approved_body(operation_id, approval_id, result, grant).get("result"@) == Some(result),
        approved_body(operation_id, approval_id, result, grant).get("operation_id"@) == Some(JsonV::Str(operation_id)),
        approved_body(operation_id, approval_id, result, grant).get("approval_id"@) == Some(JsonV::Str(approval_id)),
        approved_body(operation_id, approval_id, result, grant).get("approval_required"@) == Some(JsonV::Bool(false)),
        approved_body(operation_id, approval_id, result, grant).get("replayed"@) == Some(JsonV::Bool(false)),
        approved_body(operation_id, approval_id, result, grant).get("decision"@) == Some(JsonV::Str("allow"@)),
        approved_body(operation_id, approval_id, result, grant).get("reason"@) == Some(JsonV::Str("human approved"@)),
        approved_body(operation_id, approval_id, result, grant).get("grant"@) == grant,
{
    reveal_strlit("result");
    reveal_strlit("operation_id");
    reveal_strlit("approval_id");
    reveal_strlit("approval_required");
    reveal_strlit("replayed");
    reveal_strlit("decision");
    reveal_strlit("reason");
    reveal_strlit("grant");
    assert("result"@.len() == 6 && "operation_id"@.len() == 12 && "approval_id"@.len() == 11 && "approval_required"@.len() == 17 && "replayed"@.len() == 8 && "decision"@.len() == 8 && "reason"@.len() == 6 && "grant"@.len() == 5);
    assert("result"@[2] != "reason"@[2]);
    assert("replayed"@[0] != "decision"@[0]);
}

/// What is disclosed of a grant is its id, capability, principal, scope, workspace and
/// expiry.
pub proof fn law_grants_are_disclosed_by_scope(grant: TemporaryGrant)
    ensures
        disclosed_scope(grant).get("id"@) == Some(JsonV::Str(grant.id@)),
        disclosed_scope(grant).get("capability"@) == Some(JsonV::Str(grant.capability@)),
        disclosed_scope(grant).get("principal_id"@) == Some(JsonV::Str(grant.principal_id@)),
        disclosed_scope(grant).get("expires_at_unix"@) == Some(JsonV::Integer(grant.expires_unix as int)),
        grant.path_prefix matches Some(prefix) ==> disclosed_scope(grant).get("scope"@) == Some(
            JsonV::Str(prefix@),
        ),
        grant.path_prefix is None ==> disclosed_scope(grant).get("scope"@) == Some(JsonV::Null),
        grant.workspace_id matches Some(id) ==> disclosed_scope(grant).get("workspace_id"@) == Some(
            JsonV::Str(id@),
        ),
        grant.workspace_id is None ==> disclosed_scope(grant).get("workspace_id"@) == Some(
            JsonV::Null,
        ),
{
    reveal_strlit("id");
    reveal_strlit("capability");
    reveal_strlit("principal_id");
    reveal_strlit("expires_at_unix");
    reveal_strlit("scope");
    reveal_strlit("workspace_id");
    assert("id"@.len() == 2 && "capability"@.len() == 10 && "principal_id"@.len() == 12 && "expires_at_unix"@.len() == 15 && "scope"@.len() == 5 && "workspace_id"@.len() == 12);
    assert("principal_id"@[0] != "workspace_id"@[0]);
}

/// The answer to a denied bridge names the bridge, its target and the operation of that.
pub proof fn law_denied_bridges_are_answered(
    bridge_id: Seq<char>,
    target_id: Seq<char>,
    target_operation_id: Seq<char>,
)
    ensures
        bridge_denied_body(bridge_id, target_id, target_operation_id).get("approval_id"@) == Some(JsonV::Str(bridge_id)),
        bridge_denied_body(bridge_id, target_id, target_operation_id).get("target_approval_id"@) == Some(JsonV::Str(target_id)),
        bridge_denied_body(bridge_id, target_id, target_operation_id).get("target_operation_id"@) == Some(JsonV::Str(target_operation_id)),
        bridge_denied_body(bridge_id, target_id, target_operation_id).get("state"@) == Some(JsonV::Str("denied"@)),
{
    reveal_strlit("approval_id");
    reveal_strlit("target_approval_id");
    reveal_strlit("target_operation_id");
    reveal_strlit("state");
    assert("approval_id"@.len() == 11 && "target_approval_id"@.len() == 18 && "target_operation_id"@.len() == 19 && "state"@.len() == 5);
}

/// An approval is carried out for the operation, capability and requester of its
/// record; its journal key is that of the requester, and a temporary grant goes to
/// the requester, or to the local principal where there is none.
pub proof fn law_tickets_are_of_their_record(ticket: ApproveTicket, record: ApprovalRecord)
    requires
        is_ticket_of(ticket, record),
    ensures
        ticket.operation_id@ == record.operation_id@,
        ticket.capability@ == record.capability@,
        ticket.requester_principal@ == record.requester_principal@,
        ticket.journal_key is Some <==> request_key(record.request) is Some,
        ticket.journal_key matches Some(k) ==> k@ == record.requester_principal@
            + seq!['\u{1f}'] + request_key(record.request)->0@,
        record.requester_principal@.len() > 0 ==> ticket.grant_principal@
            == record.requester_principal@,
        record.requester_principal@.len() == 0 ==> ticket.grant_principal@ == "prin_local"@,
        ticket.is_bridge <==> record.request is AdminApprovalBridge,
{
    if ticket.journal_key is Some {
        assert(ticket.journal_key->0@ =~= record.requester_principal@ + seq!['\u{1f}']
            + request_key(record.request)->0@);
    }
}

/// What may be approved: nothing that revokes the one who asked, no temporary grant
/// for an administrative request or without the facts that it would be for, and
/// nothing that lockdown holds back.
pub proof fn law_approvals_are_refused_for_a_reason(
    record: ApprovalRecord,
    revoke_target: Seq<char>,
    temporary_grant: bool,
    lockdown: bool,
)
    ensures
        request_refusal(record, revoke_target, temporary_grant, lockdown) is None <==> {
            &&& !(record.request is AdminTokenRevoke && revoke_target
                == record.requester_principal@)
            &&& lockdown_refusal(lockdown, record.request) is None
            &&& temporary_grant ==> !is_admin(record.request) && (record.facts matches Some(facts)
                && trim(facts.capability@) == trim(record.capability@))
        },
{
}

/// The stages of an approval follow each other in one order, and none is left out but
/// the grant where there is none.
pub proof fn law_approval_stages_are_in_order(has_grant: bool, has_key: bool)
    ensures
        next_stage(ApproveStage::MarkExecuting, true, has_grant, has_key) == ApproveNext::Continue(
            ApproveStage::Reserve,
        ),
        next_stage(ApproveStage::Reserve, true, true, has_key) == ApproveNext::Continue(
            ApproveStage::StoreGrant,
        ),
        next_stage(ApproveStage::Reserve, true, false, has_key) == ApproveNext::Continue(
            ApproveStage::Execute,
        ),
        next_stage(ApproveStage::StoreGrant, true, has_grant, has_key) == ApproveNext::Continue(
            ApproveStage::Execute,
        ),
        next_stage(ApproveStage::Execute, true, has_grant, has_key) == ApproveNext::Continue(
            ApproveStage::StoreReceipt,
        ),
        next_stage(ApproveStage::StoreReceipt, true, has_grant, has_key) == ApproveNext::Continue(
            ApproveStage::MarkApproved,
        ),
        next_stage(ApproveStage::MarkApproved, true, has_grant, has_key) == ApproveNext::Continue(
            ApproveStage::Done,
        ),
{
}

/// What is taken back is what was written: nothing where the first write failed, the
/// record where the marker could not be reserved, and the marker too, where there is
/// one, once it was.
pub proof fn law_compensation_undoes_what_was_written(has_grant: bool, has_key: bool)
    ensures
        next_stage(ApproveStage::MarkExecuting, false, has_grant, has_key) == (
        ApproveNext::Compensate { rewrite_journal: false, rewrite_approvals: false }),
        next_stage(ApproveStage::Reserve, false, has_grant, has_key) == (ApproveNext::Compensate {
            rewrite_journal: false,
            rewrite_approvals: true,
        }),
        next_stage(ApproveStage::StoreGrant, false, has_grant, has_key) == (
        ApproveNext::Compensate { rewrite_journal: has_key, rewrite_approvals: true }),
{
}

/// A bridge reaches only an approval that waits, is not expired, was asked for
/// locally and is not administrative, by someone who may decide it, and not against
/// lockdown.
pub proof fn law_bridges_reach_local_approvals(
    approvals: Map<Seq<char>, ApprovalRecord>,
    target_id: Seq<char>,
    approver: Seq<char>,
    facts: ApproverFacts,
    lockdown: bool,
    now: int,
)
    ensures
        bridge_refusal(approvals, target_id, approver, facts, lockdown, now) is None <==> {
            let target = approvals[target_id];
            &&& approvals.contains_key(target_id)
            &&& target.state@ == "pending"@
            &&& target.expires_at_unix matches Some(expiry) ==> now <= expiry
            &&& target.target_payload_hash is None
            &&& !is_admin(target.request)
            &&& approver_refusal(approver, target.requester_principal@, facts) is None
            &&& lockdown_refusal(lockdown, target.request) is None
        },
{
}

/// A bridge is denied with its target, both pending, by someone who may decide both.
pub proof fn law_bridges_are_denied_with_their_target(
    approvals: Map<Seq<char>, ApprovalRecord>,
    bridge_id: Seq<char>,
    target_id: Seq<char>,
    approver: Seq<char>,
    bridge_facts: ApproverFacts,
    target_facts: ApproverFacts,
)
    ensures
        bridge_deny_refusal(
            approvals,
            bridge_id,
            target_id,
            approver,
            bridge_facts,
            target_facts,
        ) is None <==> {
            &&& approvals.contains_key(bridge_id)
            &&& approvals.contains_key(target_id)
            &&& approvals[bridge_id].state@ == "pending"@
            &&& approvals[target_id].state@ == "pending"@
            &&& approver_refusal(approver, approvals[bridge_id].requester_principal@, bridge_facts)
                is None
            &&& approver_refusal(approver, approvals[target_id].requester_principal@, target_facts)
                is None
        },
{
}

/// The errors of taking back are told in their order, parted by semicolons.
pub proof fn law_rollback_errors_are_all_told(errors: Seq<IpcError>, next: IpcError)
    ensures
        errors.len() == 0 ==> joined_errors(errors.push(next)) == next.message@,
        errors.len() > 0 ==> joined_errors(errors.push(next)) == joined_errors(errors) + "; "@
            + next.message@,
{
    assert(errors.push(next).drop_last() =~= errors);
}

/// A temporary grant holds for the seconds that were asked, counted from now, and for
/// an hour where none were.
pub proof fn law_temporary_grants_end_in_time(now: i64, seconds: i64)
    ensures
        i64::MIN <= now + seconds <= i64::MAX ==> granted_until(now as int, Some(seconds)) - now
            == seconds,
        now + seconds > i64::MAX ==> granted_until(now as int, Some(seconds)) == i64::MAX,
        now + 3600 <= i64::MAX ==> granted_until(now as int, None) - now == 60 * 60,
{
}

/// While an approval is carried out it is marked so, since now, and nobody is said to
/// have decided; no other approval changes, and neither does what was asked for.
pub proof fn law_executions_are_marked(
    before: Map<Seq<char>, ApprovalRecord>,
    after: Map<Seq<char>, ApprovalRecord>,
    undo: DecisionUndo,
    id: Seq<char>,
    now: i64,
)
    requires
        is_marked_executing(before, after, undo, id, now),
    ensures
        after[id].state@ == "executing"@,
        after[id].decided_at_unix == Some(now),
        after[id].decided_by_principal == before[id].decided_by_principal,
        after[id].result is Some <==> before[id].result is Some,
        after[id].request == before[id].request,
        after[id].operation_id == before[id].operation_id,
        after[id].requester_principal == before[id].requester_principal,
        after[id].expires_at_unix == before[id].expires_at_unix,
        after[id].target_payload_hash == before[id].target_payload_hash,
        undo.id@ == id && undo.state == before[id].state && undo.decided_at_unix
            == before[id].decided_at_unix,
        forall|k: Seq<char>|
            k != id ==> (#[trigger] after.contains_key(k) <==> before.contains_key(k)) && after[k]
                == before[k],
{
    assert(restored(after[id], undo) == before[id]);
}

/// An approval that was carried out is marked approved, by its approver, with what was
/// answered; the time of the decision stays, no other approval changes, and neither does
/// what was asked for.
pub proof fn law_approvals_are_recorded(
    before: Map<Seq<char>, ApprovalRecord>,
    after: Map<Seq<char>, ApprovalRecord>,
    undo: DecisionUndo,
    id: Seq<char>,
    body: JsonV,
    approver: Seq<char>,
)
    requires
        is_marked_approved(before, after, undo, id, body, approver),
    ensures
        after[id].state@ == "approved"@,
        after[id].decided_by_principal matches Some(by) && by@ == approver,
        after[id].result matches Some(result) && result@ == body,
        after[id].decided_at_unix == before[id].decided_at_unix,
        after[id].request == before[id].request,
        after[id].operation_id == before[id].operation_id,
        after[id].requester_principal == before[id].requester_principal,
        undo.id@ == id && undo.state == before[id].state,
        forall|k: Seq<char>|
            k != id ==> (#[trigger] after.contains_key(k) <==> before.contains_key(k)) && after[k]
                == before[k],
{
    assert(restored(after[id], undo) == before[id]);
}

/// Denying a bridge denies both it and its target, by the same approver at the same
/// time, and nothing else.
pub proof fn law_bridge_denials_are_recorded(
    before: Map<Seq<char>, ApprovalRecord>,
    after: Map<Seq<char>, ApprovalRecord>,
    target_undo: Option<DecisionUndo>,
    bridge_undo: DecisionUndo,
    target_id: Seq<char>,
    bridge_id: Seq<char>,
    approver: Seq<char>,
    now: i64,
)
    requires
        are_denied_together(
            before,
            after,
            target_undo,
            bridge_undo,
            target_id,
            bridge_id,
            approver,
            now,
        ),
    ensures
        after[bridge_id].state@ == "denied"@ && after[target_id].state@ == "denied"@,
        after[bridge_id].decided_at_unix == Some(now) && after[target_id].decided_at_unix == Some(
            now,
        ),
        after[bridge_id].decided_by_principal matches Some(by) && by@ == approver,
        after[target_id].decided_by_principal matches Some(by) && by@ == approver,
        target_undo is Some <==> target_id != bridge_id,
        target_undo matches Some(undo) ==> undo.id@ == target_id,
        bridge_undo.id@ == bridge_id,
        forall|k: Seq<char>|
            k != bridge_id && k != target_id ==> (#[trigger] after.contains_key(k)
                <==> before.contains_key(k)) && after[k] == before[k],
{
}

/// An approval is carried out exactly where it can be decided by its approver and its
/// request can be.
pub proof fn law_approvals_need_both_admissions(
    approvals: Map<Seq<char>, ApprovalRecord>,
    id: Seq<char>,
    approver: Seq<char>,
    facts: ApproverFacts,
    revoke_target: Seq<char>,
    temporary_grant: bool,
    lockdown: bool,
)
    ensures
        approve_refusal(
            approvals,
            id,
            approver,
            facts,
            revoke_target,
            temporary_grant,
            lockdown,
        ) is None <==> undecidable(approvals, id, approver, facts) is None && request_refusal(
            approvals[id],
            revoke_target,
            temporary_grant,
            lockdown,
        ) is None,
        undecidable(approvals, id, approver, facts) is Some ==> approve_refusal(
            approvals,
            id,
            approver,
            facts,
            revoke_target,
            temporary_grant,
            lockdown,
        ) == undecidable(approvals, id, approver, facts),
{
}

/// A bridge whose target is not there is invalid, and one whose target cannot be bridged
/// any more is a conflict.
pub proof fn law_bridges_are_refused_by_code(
    approvals: Map<Seq<char>, ApprovalRecord>,
    target_id: Seq<char>,
    approver: Seq<char>,
    facts: ApproverFacts,
    lockdown: bool,
    now: int,
)
    ensures
        !approvals.contains_key(target_id) ==> (bridge_refusal(
            approvals,
            target_id,
            approver,
            facts,
            lockdown,
            now,
        ) matches Some((code, _)) && code == ErrorCode::InvalidParams),
        approvals.contains_key(target_id) && !is_bridge_target(approvals[target_id], now) ==> (
        bridge_refusal(approvals, target_id, approver, facts, lockdown, now) matches Some((code, _))
            && code == ErrorCode::Conflict),
{
}

/// Denying a bridge is invalid where either approval is missing, and a conflict where
/// either was decided.
pub proof fn law_bridge_denials_are_refused_by_code(
    approvals: Map<Seq<char>, ApprovalRecord>,
    bridge_id: Seq<char>,
    target_id: Seq<char>,
    approver: Seq<char>,
    bridge_facts: ApproverFacts,
    target_facts: ApproverFacts,
)
    ensures
        !approvals.contains_key(bridge_id) || !approvals.contains_key(target_id) ==> (
        bridge_deny_refusal(
            approvals,
            bridge_id,
            target_id,
            approver,
            bridge_facts,
            target_facts,
        ) matches Some((code, _)) && code == ErrorCode::InvalidParams),
        approvals.contains_key(bridge_id) && approvals.contains_key(target_id) && (
        approvals[bridge_id].state@ != "pending"@ || approvals[target_id].state@ != "pending"@) ==> (
        bridge_deny_refusal(
            approvals,
            bridge_id,
            target_id,
            approver,
            bridge_facts,
            target_facts,
        ) matches Some((code, _)) && code == ErrorCode::Conflict),
{
}

} // verus!

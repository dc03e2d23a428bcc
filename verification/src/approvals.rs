//! Deferred operations and the decisions on them.
use crate::error::{ErrorCode, IpcError};
use crate::json::{Json, JsonObject, JsonV};
use crate::params::{ExecutableIdentityBinding, PendingRequest};
use crate::registry::Registry;
use crate::text::{join, same_text};
use vstd::prelude::*;

verus! {

/// Facts of an operation that policy decides on.
#[derive(Debug)]
pub struct OperationFacts {
    pub capability: String,
    pub kind: String,
    pub program: Option<String>,
    pub path: Option<String>,
    pub elevated: bool,
    pub workspace_relative: bool,
    pub workspace_id: Option<String>,
    pub tags: Vec<String>,
    pub tool: Option<String>,
    pub executable_identity: Option<ExecutableIdentityBinding>,
    pub invocation_identity: Option<ExecutableIdentityBinding>,
}

/// A pending or decided approval of a deferred operation.
#[derive(Debug)]
pub struct ApprovalRecord {
    pub id: String,
    pub operation_id: String,
    pub capability: String,
    pub state: String,
    pub reason: String,
    pub created_at_unix: i64,
    pub decided_at_unix: Option<i64>,
    /// Expiry of the remote action, after which no decision takes effect.
    pub expires_at_unix: Option<i64>,
    /// Payload hash of the remote action.
    pub target_payload_hash: Option<String>,
    pub matched_rule_id: Option<String>,
    /// Who asked for the operation, as the server authenticated them.
    pub requester_principal: String,
    /// Policy facts at the time of asking.
    pub facts: Option<OperationFacts>,
    pub request: PendingRequest,
    pub result: Option<Json>,
    pub decided_by_principal: Option<String>,
}

/// The approvals by id.
pub type Approvals = Registry<ApprovalRecord>;

/// What is known of the two principals of a decision.
#[derive(Debug, Clone, Copy)]
pub struct ApproverFacts {
    /// The approver has the shape of a human of the operating system.
    pub approver_is_human: bool,
    /// The approver is a credentialed client.
    pub approver_is_credentialed: bool,
    /// The requester is a credentialed client.
    pub requester_is_credentialed: bool,
}

/// A refusal: its class and its text.
pub type Refusal = Option<(ErrorCode, Seq<char>)>;

/// The result is the refusal, or success if there is none.
pub open spec fn answers<T>(r: Result<T, IpcError>, refusal: Refusal) -> bool {
    match refusal {
        Some((code, message)) => r matches Err(e) && e.is(code, message),
        None => r is Ok,
    }
}

/// Why the approver may not decide.
pub open spec fn approver_refusal(
    approver: Seq<char>,
    requester: Seq<char>,
    facts: ApproverFacts,
) -> Refusal {
    if approver.len() == 0 || !facts.approver_is_human || facts.approver_is_credentialed {
        Some(
            (
                ErrorCode::Unauthorized,
                "approval requires an independently authenticated human OS principal (user:*)"@,
            ),
        )
    } else if facts.requester_is_credentialed && requester == approver {
        Some(
            (
                ErrorCode::Unauthorized,
                "operation creator cannot self-approve; independent human principal required"@,
            ),
        )
    } else {
        None
    }
}

/// Only a human principal that is no client decides, and never the client that
/// asked. Principals are canonical.
pub fn ensure_independent_human_approver(
    approver: &str,
    requester: &str,
    facts: ApproverFacts,
) -> (r: Result<(), IpcError>)
    ensures
        answers(r, approver_refusal(approver@, requester@, facts)),
{
    if approver.is_empty() || !facts.approver_is_human || facts.approver_is_credentialed {
        return Err(
            IpcError::new(
                ErrorCode::Unauthorized,
                "approval requires an independently authenticated human OS principal (user:*)",
            ),
        );
    }
    if facts.requester_is_credentialed && same_text(requester, approver) {
        return Err(
            IpcError::new(
                ErrorCode::Unauthorized,
                "operation creator cannot self-approve; independent human principal required",
            ),
        );
    }
    Ok(())
}

/// A credentialed client never decides, and no credentialed requester decides on
/// its own operation.
pub proof fn law_clients_never_approve(
    approver: Seq<char>,
    requester: Seq<char>,
    facts: ApproverFacts,
)
    requires
        approver_refusal(approver, requester, facts) is None,
    ensures
        !facts.approver_is_credentialed,
        facts.approver_is_human,
        facts.requester_is_credentialed ==> approver != requester,
{
}

/// Why a deferred request may not run in the present lockdown state.
pub open spec fn lockdown_refusal(lockdown: bool, request: PendingRequest) -> Refusal {
    if request is AdminDaemonUnlock && !lockdown {
        Some((ErrorCode::Conflict, "device is not in emergency lockdown"@))
    } else if lockdown && !(request is AdminDaemonUnlock) && !(request is SystemDiagnose) {
        Some(
            (
                ErrorCode::Lockdown,
                "emergency lockdown active; only a bound admin unlock may execute"@,
            ),
        )
    } else {
        None
    }
}

/// Holds a deferred request to the lockdown state.
pub fn check_pending_request_lockdown(lockdown: bool, request: &PendingRequest) -> (r: Result<
    (),
    IpcError,
>)
    ensures
        answers(r, lockdown_refusal(lockdown, *request)),
{
    let unlock = matches!(request, PendingRequest::AdminDaemonUnlock(_));
    if unlock && !lockdown {
        return Err(IpcError::new(ErrorCode::Conflict, "device is not in emergency lockdown"));
    }
    if lockdown && !unlock && !matches!(request, PendingRequest::SystemDiagnose(_)) {
        return Err(
            IpcError::new(
                ErrorCode::Lockdown,
                "emergency lockdown active; only a bound admin unlock may execute",
            ),
        );
    }
    Ok(())
}

/// The idempotency key that a request carries.
pub open spec fn request_key(request: PendingRequest) -> Option<String> {
    match request {
        PendingRequest::Exec(x) => x.idempotency_key,
        PendingRequest::FsList(x) => x.idempotency_key,
        PendingRequest::FsStat(x) => x.idempotency_key,
        PendingRequest::FsRead(x) => x.idempotency_key,
        PendingRequest::FsWrite(x) => x.idempotency_key,
        PendingRequest::FsDelete(x) => x.idempotency_key,
        PendingRequest::LogsQuery(x) => x.idempotency_key,
        PendingRequest::GitStatus(x) => x.idempotency_key,
        PendingRequest::GitDiff(x) => x.idempotency_key,
        PendingRequest::SystemDiagnose(x) => x.idempotency_key,
        PendingRequest::AdminPolicyPreset(x) => Some(x.idempotency_key),
        PendingRequest::AdminPolicyRuleAdd(x) => Some(x.idempotency_key),
        PendingRequest::AdminPolicyRuleRemove(x) => Some(x.idempotency_key),
        PendingRequest::AdminDaemonUnlock(x) => Some(x.idempotency_key),
        PendingRequest::AdminTokenRevoke(x) => Some(x.idempotency_key),
        PendingRequest::AdminApprovalBridge(x) => Some(x.idempotency_key),
        PendingRequest::AdminGrantsMint(x) => Some(x.idempotency_key),
    }
}

/// The idempotency key that a request carries.
pub fn request_idempotency_key(request: &PendingRequest) -> (key: Option<String>)
    ensures
        key == request_key(*request),
{
    match request {
        PendingRequest::Exec(x) => crate::text::copy_text(&x.idempotency_key),
        PendingRequest::FsList(x) => crate::text::copy_text(&x.idempotency_key),
        PendingRequest::FsStat(x) => crate::text::copy_text(&x.idempotency_key),
        PendingRequest::FsRead(x) => crate::text::copy_text(&x.idempotency_key),
        PendingRequest::FsWrite(x) => crate::text::copy_text(&x.idempotency_key),
        PendingRequest::FsDelete(x) => crate::text::copy_text(&x.idempotency_key),
        PendingRequest::LogsQuery(x) => crate::text::copy_text(&x.idempotency_key),
        PendingRequest::GitStatus(x) => crate::text::copy_text(&x.idempotency_key),
        PendingRequest::GitDiff(x) => crate::text::copy_text(&x.idempotency_key),
        PendingRequest::SystemDiagnose(x) => crate::text::copy_text(&x.idempotency_key),
        PendingRequest::AdminPolicyPreset(x) => Some(x.idempotency_key.clone()),
        PendingRequest::AdminPolicyRuleAdd(x) => Some(x.idempotency_key.clone()),
        PendingRequest::AdminPolicyRuleRemove(x) => Some(x.idempotency_key.clone()),
        PendingRequest::AdminDaemonUnlock(x) => Some(x.idempotency_key.clone()),
        PendingRequest::AdminTokenRevoke(x) => Some(x.idempotency_key.clone()),
        PendingRequest::AdminApprovalBridge(x) => Some(x.idempotency_key.clone()),
        PendingRequest::AdminGrantsMint(x) => Some(x.idempotency_key.clone()),
    }
}

/// What an approval was before a decision changed it.
#[derive(Debug)]
pub struct DecisionUndo {
    pub id: String,
    pub state: String,
    pub decided_at_unix: Option<i64>,
    pub decided_by_principal: Option<String>,
    pub result: Option<Json>,
}

/// The fields that a decision changes, put back.
pub open spec fn restored(record: ApprovalRecord, undo: DecisionUndo) -> ApprovalRecord {
    ApprovalRecord {
        state: undo.state,
        decided_at_unix: undo.decided_at_unix,
        decided_by_principal: undo.decided_by_principal,
        result: undo.result,
        ..record
    }
}

/// A decision changed `before` to `after`, and `undo` takes it back.
pub open spec fn decided(
    before: ApprovalRecord,
    after: ApprovalRecord,
    undo: DecisionUndo,
    state: Seq<char>,
) -> bool {
    &&& after == (ApprovalRecord {
        state: after.state,
        decided_at_unix: after.decided_at_unix,
        decided_by_principal: after.decided_by_principal,
        result: after.result,
        ..before
    })
    &&& after.state@ == state
    &&& restored(after, undo) == before
}

/// The same result, or none in both.
pub open spec fn same_result(a: Option<Json>, b: Option<Json>) -> bool {
    match (a, b) {
        (Some(x), Some(y)) => x@ == y@,
        (None, None) => true,
        _ => false,
    }
}

/// The record is denied, by this approver, now; nothing else of it changed.
pub open spec fn is_denied(
    before: ApprovalRecord,
    after: ApprovalRecord,
    undo: DecisionUndo,
    approver: Seq<char>,
    now: i64,
) -> bool {
    &&& decided(before, after, undo, "denied"@)
    &&& after.decided_at_unix == Some(now)
    &&& after.decided_by_principal matches Some(by) && by@ == approver
    &&& same_result(after.result, before.result)
}

/// Takes a decision back whose write failed.
pub fn undo_decision(approvals: &mut Approvals, undo: DecisionUndo)
    ensures
        final(approvals)@ == (if old(approvals)@.contains_key(undo.id@) {
            old(approvals)@.insert(undo.id@, restored(old(approvals)@[undo.id@], undo))
        } else {
            old(approvals)@
        }),
{
    let id = undo.id;
    let ghost key = id@;
    if let Some(record) = approvals.remove(id.as_str()) {
        let mut record = record;
        record.state = undo.state;
        record.decided_at_unix = undo.decided_at_unix;
        record.decided_by_principal = undo.decided_by_principal;
        record.result = undo.result;
        let ghost value = record;
        let _ = approvals.insert(id, record);
        assert(old(approvals)@.remove(key).insert(key, value) =~= old(approvals)@.insert(
            key,
            value,
        ));
    }
}

/// A decision that was taken back leaves the approvals as they were.
pub proof fn law_undo_restores_the_approvals(
    before: Map<Seq<char>, ApprovalRecord>,
    id: Seq<char>,
    after: ApprovalRecord,
    undo: DecisionUndo,
    state: Seq<char>,
)
    requires
        before.contains_key(id),
        decided(before[id], after, undo, state),
    ensures
        before.insert(id, after).insert(id, restored(before.insert(id, after)[id], undo)) == before,
{
    assert(before.insert(id, after).insert(id, restored(after, undo)) =~= before);
}

/// Why an approval cannot be decided.
pub open spec fn undecidable(
    approvals: Map<Seq<char>, ApprovalRecord>,
    id: Seq<char>,
    approver: Seq<char>,
    facts: ApproverFacts,
) -> Refusal {
    if !approvals.contains_key(id) {
        Some((ErrorCode::InvalidParams, "approval not found: "@ + id))
    } else if approvals[id].state@ != "pending"@ {
        Some((ErrorCode::Conflict, "approval already "@ + approvals[id].state@))
    } else {
        approver_refusal(approver, approvals[id].requester_principal@, facts)
    }
}

/// An approval is decided once: whatever it was decided to be, every later decision
/// is refused and told of it, unless the first was taken back.
pub proof fn law_decisions_are_final(
    before: Map<Seq<char>, ApprovalRecord>,
    id: Seq<char>,
    after: ApprovalRecord,
    undo: DecisionUndo,
    state: Seq<char>,
    approver: Seq<char>,
    facts: ApproverFacts,
)
    requires
        before.contains_key(id),
        decided(before[id], after, undo, state),
        state != "pending"@,
    ensures
        undecidable(before.insert(id, after), id, approver, facts) == Some(
            (ErrorCode::Conflict, "approval already "@ + state),
        ),
{
}

/// Finds the record of a decision and holds the decision to what every decision
/// needs.
pub(crate) fn check_decidable<'a>(
    approvals: &'a Approvals,
    id: &str,
    approver: &str,
    facts: ApproverFacts,
) -> (r: Result<&'a ApprovalRecord, IpcError>)
    ensures
        answers(r, undecidable(approvals@, id@, approver@, facts)),
        r matches Ok(record) ==> approvals@.contains_key(id@) && *record == approvals@[id@],
{
    let record = match approvals.get(id) {
        Some(record) => record,
        None => {
            return Err(
                IpcError::with_message(
                    ErrorCode::InvalidParams,
                    join("approval not found: ", id),
                ),
            );
        },
    };
    if !same_text(record.state.as_str(), "pending") {
        return Err(
            IpcError::with_message(
                ErrorCode::Conflict,
                join("approval already ", record.state.as_str()),
            ),
        );
    }
    match ensure_independent_human_approver(
        approver,
        record.requester_principal.as_str(),
        facts,
    ) {
        Ok(()) => Ok(record),
        Err(e) => Err(e),
    }
}

/// Changes the state of an approval that exists.
pub(crate) fn set_state(
    approvals: &mut Approvals,
    id: &str,
    state: &str,
    decided_at_unix: Option<i64>,
    decided_by: Option<String>,
    result: Option<Json>,
) -> (undo: DecisionUndo)
    requires
        old(approvals)@.contains_key(id@),
    ensures
        undo.id@ == id@,
        final(approvals)@ == old(approvals)@.insert(id@, final(approvals)@[id@]),
        decided(old(approvals)@[id@], final(approvals)@[id@], undo, state@),
        final(approvals)@[id@].decided_at_unix == (if decided_at_unix is Some {
            decided_at_unix
        } else {
            old(approvals)@[id@].decided_at_unix
        }),
        final(approvals)@[id@].decided_by_principal == (if decided_by is Some {
            decided_by
        } else {
            old(approvals)@[id@].decided_by_principal
        }),
        same_result(
            final(approvals)@[id@].result,
            if result is Some {
                result
            } else {
                old(approvals)@[id@].result
            },
        ),
{
    let mut undo = DecisionUndo {
        id: id.to_owned(),
        state: String::new(),
        decided_at_unix: None,
        decided_by_principal: None,
        result: None,
    };
    match approvals.remove(id) {
        Some(record) => {
            let mut record = record;
            let kept_by = crate::text::copy_text(&record.decided_by_principal);
            let kept_result = match &record.result {
                Some(r) => Some(r.copy()),
                None => None,
            };
            undo.state = record.state;
            undo.decided_at_unix = record.decided_at_unix;
            undo.decided_by_principal = record.decided_by_principal;
            undo.result = record.result;
            record.state = state.to_owned();
            if decided_at_unix.is_some() {
                record.decided_at_unix = decided_at_unix;
            }
            record.decided_by_principal = match decided_by {
                Some(by) => Some(by),
                None => kept_by,
            };
            record.result = match result {
                Some(r) => Some(r),
                None => kept_result,
            };
            let ghost value = record;
            let _ = approvals.insert(id.to_owned(), record);
            assert(old(approvals)@.remove(id@).insert(id@, value) =~= old(approvals)@.insert(
                id@,
                value,
            ));
        },
        None => {
            assert(false);
        },
    }
    undo
}

/// Denies an approval. The undo takes it back if it cannot be written.
pub fn handle_approval_deny(
    approvals: &mut Approvals,
    id: &str,
    approver: &str,
    facts: ApproverFacts,
    now: i64,
) -> (r: Result<DecisionUndo, IpcError>)
    ensures
        answers(r, undecidable(old(approvals)@, id@, approver@, facts)),
        match r {
            Ok(undo) => {
                let after = final(approvals)@[id@];
                &&& undo.id@ == id@
                &&& final(approvals)@ == old(approvals)@.insert(id@, after)
                &&& is_denied(old(approvals)@[id@], after, undo, approver@, now)
            },
            Err(_) => final(approvals)@ == old(approvals)@,
        },
{
    match check_decidable(approvals, id, approver, facts) {
        Ok(_) => Ok(
            set_state(approvals, id, "denied", Some(now), Some(approver.to_owned()), None),
        ),
        Err(e) => Err(e),
    }
}

/// The answer to an approval that was denied.
pub open spec fn denied_body(id: Seq<char>, operation_id: Seq<char>) -> JsonV {
    JsonV::Object(
        Map::<Seq<char>, JsonV>::empty().insert("approval_id"@, JsonV::Str(id)).insert(
            "operation_id"@,
            JsonV::Str(operation_id),
        ).insert("state"@, JsonV::Str("denied"@)),
    )
}

/// The answer to a denial.
pub fn deny_answer(id: &str, operation_id: &str) -> (body: Json)
    ensures
        body@ == denied_body(id@, operation_id@),
{
    let mut object = JsonObject::new();
    object.put("approval_id", Json::text(id));
    object.put("operation_id", Json::text(operation_id));
    object.put("state", Json::text("denied"));
    Json::Object(object)
}

/// The answer to a denial names the approval, its operation and the state.
pub proof fn law_denials_are_answered(id: Seq<char>, operation_id: Seq<char>)
    ensures
        denied_body(id, operation_id).get("approval_id"@) == Some(JsonV::Str(id)),
        denied_body(id, operation_id).get("operation_id"@) == Some(JsonV::Str(operation_id)),
        denied_body(id, operation_id).get("state"@) == Some(JsonV::Str("denied"@)),
        forall|name: Seq<char>| #[trigger]
            denied_body(id, operation_id).get(name) is Some ==> (
            name == "approval_id"@
            || name == "operation_id"@
            || name == "state"@),
{
    reveal_strlit("approval_id");
    reveal_strlit("operation_id");
    reveal_strlit("state");
    assert("approval_id"@.len() == 11 && "operation_id"@.len() == 12 && "state"@.len() == 5);
}

/// Whoever decides is a human of the operating system, no credentialed client, and
/// not the one that asked; everyone else is refused, and only they are.
pub proof fn law_only_independent_humans_decide(
    approver: Seq<char>,
    requester: Seq<char>,
    facts: ApproverFacts,
)
    ensures
        approver_refusal(approver, requester, facts) is None <==> approver.len() > 0
            && facts.approver_is_human && !facts.approver_is_credentialed && !(
        facts.requester_is_credentialed && requester == approver),
        approver_refusal(approver, requester, facts) matches Some((code, _)) ==> code
            == ErrorCode::Unauthorized,
{
}

/// In lockdown nothing is carried out but the unlock and a diagnosis; outside of it
/// there is nothing to unlock.
pub proof fn law_lockdown_lets_only_the_unlock_through(lockdown: bool, request: PendingRequest)
    ensures
        lockdown_refusal(lockdown, request) is None <==> (if lockdown {
            request is AdminDaemonUnlock || request is SystemDiagnose
        } else {
            !(request is AdminDaemonUnlock)
        }),
        lockdown_refusal(lockdown, request) matches Some((code, _)) ==> code == (if lockdown {
            ErrorCode::Lockdown
        } else {
            ErrorCode::Conflict
        }),
{
}

/// An approval can be decided exactly once: while it is there and pending, by someone
/// who may.
pub proof fn law_pending_approvals_can_be_decided(
    approvals: Map<Seq<char>, ApprovalRecord>,
    id: Seq<char>,
    approver: Seq<char>,
    facts: ApproverFacts,
)
    ensures
        undecidable(approvals, id, approver, facts) is None <==> approvals.contains_key(id)
            && approvals[id].state@ == "pending"@ && approver_refusal(
            approver,
            approvals[id].requester_principal@,
            facts,
        ) is None,
        !approvals.contains_key(id) ==> (undecidable(approvals, id, approver, facts) matches Some(
            (code, _),
        ) && code == ErrorCode::InvalidParams),
{
}

/// A decision changes the state, when and by whom it was decided, and the result;
/// what was asked for, by whom and for how long never changes.
pub proof fn law_decisions_keep_the_request(
    before: ApprovalRecord,
    after: ApprovalRecord,
    undo: DecisionUndo,
    state: Seq<char>,
)
    requires
        decided(before, after, undo, state),
    ensures
        after.state@ == state,
        after.id == before.id,
        after.operation_id == before.operation_id,
        after.capability == before.capability,
        after.reason == before.reason,
        after.created_at_unix == before.created_at_unix,
        after.expires_at_unix == before.expires_at_unix,
        after.target_payload_hash == before.target_payload_hash,
        after.matched_rule_id == before.matched_rule_id,
        after.requester_principal == before.requester_principal,
        after.facts == before.facts,
        after.request == before.request,
        undo.state == before.state,
        undo.decided_at_unix == before.decided_at_unix,
        undo.decided_by_principal == before.decided_by_principal,
        undo.result == before.result,
{
    assert(restored(after, undo).state == before.state);
    assert(restored(after, undo).result == before.result);
}

/// A denial is recorded with who denied and when, and leaves the result alone.
pub proof fn law_denials_are_recorded(
    before: ApprovalRecord,
    after: ApprovalRecord,
    undo: DecisionUndo,
    approver: Seq<char>,
    now: i64,
)
    requires
        is_denied(before, after, undo, approver, now),
    ensures
        after.state@ == "denied"@,
        after.decided_at_unix == Some(now),
        after.decided_by_principal matches Some(by) && by@ == approver,
        after.result is Some <==> before.result is Some,
        after.result is Some ==> after.result->0@ == before.result->0@,
        after.request == before.request,
        after.operation_id == before.operation_id,
{
}

/// What is taken back is the decision alone.
pub proof fn law_taken_back_decisions_keep_the_request(record: ApprovalRecord, undo: DecisionUndo)
    ensures
        restored(record, undo).state == undo.state,
        restored(record, undo).decided_at_unix == undo.decided_at_unix,
        restored(record, undo).decided_by_principal == undo.decided_by_principal,
        restored(record, undo).result == undo.result,
        restored(record, undo).id == record.id,
        restored(record, undo).operation_id == record.operation_id,
        restored(record, undo).request == record.request,
        restored(record, undo).requester_principal == record.requester_principal,
        restored(record, undo).expires_at_unix == record.expires_at_unix,
{
}

/// The key of an operation is the one that its request names; an administrative
/// request always has one.
pub proof fn law_operations_go_by_their_own_key(request: PendingRequest)
    ensures
        request matches PendingRequest::Exec(x) ==> request_key(request) == x.idempotency_key,
        request matches PendingRequest::FsList(x) ==> request_key(request) == x.idempotency_key,
        request matches PendingRequest::FsStat(x) ==> request_key(request) == x.idempotency_key,
        request matches PendingRequest::FsRead(x) ==> request_key(request) == x.idempotency_key,
        request matches PendingRequest::FsWrite(x) ==> request_key(request) == x.idempotency_key,
        request matches PendingRequest::FsDelete(x) ==> request_key(request) == x.idempotency_key,
        request matches PendingRequest::LogsQuery(x) ==> request_key(request)
            == x.idempotency_key,
        request matches PendingRequest::GitStatus(x) ==> request_key(request)
            == x.idempotency_key,
        request matches PendingRequest::GitDiff(x) ==> request_key(request) == x.idempotency_key,
        request matches PendingRequest::SystemDiagnose(x) ==> request_key(request)
            == x.idempotency_key,
        request matches PendingRequest::AdminPolicyPreset(x) ==> request_key(request) == Some(
            x.idempotency_key,
        ),
        request matches PendingRequest::AdminPolicyRuleAdd(x) ==> request_key(request) == Some(
            x.idempotency_key,
        ),
        request matches PendingRequest::AdminPolicyRuleRemove(x) ==> request_key(request) == Some(
            x.idempotency_key,
        ),
        request matches PendingRequest::AdminDaemonUnlock(x) ==> request_key(request) == Some(
            x.idempotency_key,
        ),
        request matches PendingRequest::AdminTokenRevoke(x) ==> request_key(request) == Some(
            x.idempotency_key,
        ),
        request matches PendingRequest::AdminApprovalBridge(x) ==> request_key(request) == Some(
            x.idempotency_key,
        ),
        request matches PendingRequest::AdminGrantsMint(x) ==> request_key(request) == Some(
            x.idempotency_key,
        ),
{
}

} // verus!

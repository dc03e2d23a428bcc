//! The policy gate: replay, deny, ask or run.
use crate::approvals::{answers, ApprovalRecord, Approvals, OperationFacts, Refusal};
use crate::approve::{optional_text, text_or_null, LOCAL_PRINCIPAL};
use crate::dispatch::{same_option, RemoteBinding};
use crate::error::{ErrorCode, ExecutionFailure, IpcError};
use crate::grants::PolicyVerdict;
use crate::ids::{is_fresh_id, new_id};
use crate::json::{Json, JsonObject, JsonV};
use crate::lifecycle::{
    degraded_message, journal_degraded_error, key_view, owns_marker, refuses_retry, JournalState,
    PendingWrite,
};
use crate::params::{
    is_read_only, pending_request_is_journal_read_only, pending_request_tool, request_tool,
    Decision, PendingRequest,
};
use crate::text::{copy_text, filled, filled_text, join, same_text, trim, trimmed};
use vstd::prelude::*;

verus! {

/// The receipt is that of a failure.
pub open spec fn is_failure(receipt: JsonV) -> bool {
    receipt.get_str("status"@) == Some("failed"@)
}

/// The error that a stored failure ended with.
pub open spec fn stored_error(receipt: JsonV) -> (ErrorCode, Seq<char>) {
    let error = match receipt.get("error"@) {
        Some(e) => e,
        None => JsonV::Object(Map::empty()),
    };
    (
        match error.get_i64("code"@) {
            Some(code) => ErrorCode::Stored(code as i64),
            None => ErrorCode::Internal,
        },
        match error.get_str("message"@) {
            Some(message) => message,
            None => "operation previously failed"@,
        },
    )
}

/// What a receipt is replayed as: a stored failure as its error, any other receipt
/// marked as replayed.
pub open spec fn is_replay(r: Result<Json, IpcError>, receipt: JsonV) -> bool {
    if is_failure(receipt) {
        r matches Err(e) && (e.code, e.message@) == stored_error(receipt)
    } else {
        r matches Ok(body) && body@ == receipt.with("replayed"@, JsonV::Bool(true))
    }
}

/// Replays a receipt: a stored failure as the same error, anything else as the
/// same answer, marked as replayed. Nothing runs again.
pub fn replay_receipt(receipt: &Json) -> (r: Result<Json, IpcError>)
    ensures
        is_replay(r, receipt@),
{
    let failed = match receipt.get_str("status") {
        Some(status) => same_text(status, "failed"),
        None => false,
    };
    if !failed {
        return Ok(receipt.with("replayed", Json::Bool(true)));
    }
    let empty = Json::Object(JsonObject::new());
    let error = match receipt.get("error") {
        Some(error) => error,
        None => &empty,
    };
    let code = match error.get_i64("code") {
        Some(code) => ErrorCode::Stored(code),
        None => ErrorCode::Internal,
    };
    let message = match error.get_str("message") {
        Some(message) => message.to_owned(),
        None => "operation previously failed".to_owned(),
    };
    Err(IpcError::with_message(code, message))
}

/// Binds the tool of the facts to the request that will run.
pub fn bind_tool(facts: OperationFacts, request: &PendingRequest) -> (bound: OperationFacts)
    ensures
        bound == (OperationFacts { tool: bound.tool, ..facts }),
        same_option(bound.tool, request_tool(*request)),
{
    let mut bound = facts;
    bound.tool = match pending_request_tool(request) {
        Some(tool) => Some(tool.to_owned()),
        None => None,
    };
    bound
}

/// The principal that policy judges by.
pub open spec fn judged_principal(principal: Seq<char>) -> Seq<char> {
    if trim(principal).len() == 0 {
        LOCAL_PRINCIPAL@
    } else {
        principal
    }
}

/// The principal that policy sees.
pub fn policy_principal(principal: &str) -> (p: String)
    ensures
        p@ == judged_principal(principal@),
{
    if trimmed(principal).as_str().is_empty() {
        LOCAL_PRINCIPAL.to_owned()
    } else {
        principal.to_owned()
    }
}

/// The verdict after delegation: only an ask is lifted.
pub open spec fn is_delegated(
    after: PolicyVerdict,
    before: PolicyVerdict,
    delegated: bool,
) -> bool {
    &&& after.matched_rule_id == before.matched_rule_id
    &&& if delegated && before.decision == Decision::Ask {
        after.decision == Decision::Allow && after.reason@ == before.reason@
            + "; remote MCP delegation configured"@
    } else {
        after.decision == before.decision && after.reason == before.reason
    }
}

/// Applies the delegation that the user configured: an authenticated, exact and
/// unexpired remote action satisfies an ask.
pub fn apply_delegation(
    verdict: PolicyVerdict,
    delegate_remote_mcp: bool,
    binding: &RemoteBinding,
    now: i64,
) -> (after: PolicyVerdict)
    ensures
        is_delegated(after, verdict, delegate_remote_mcp && binding.is_exact(now as int)),
{
    let mut after = verdict;
    if delegate_remote_mcp && binding.exact(now) && after.decision == Decision::Ask {
        after.decision = Decision::Allow;
        after.reason = join(after.reason.as_str(), "; remote MCP delegation configured");
    }
    after
}

/// Delegation never lifts a denial, and lifts an ask only for a remote action
/// that is bound and has not expired.
pub proof fn law_delegation_lifts_only_asks(
    before: PolicyVerdict,
    after: PolicyVerdict,
    delegate_remote_mcp: bool,
    binding: RemoteBinding,
    now: int,
)
    requires
        is_delegated(after, before, delegate_remote_mcp && binding.is_exact(now)),
    ensures
        before.decision == Decision::Deny ==> after.decision == Decision::Deny,
        after.decision == Decision::Allow && before.decision != Decision::Allow
            ==> delegate_remote_mcp && before.decision == Decision::Ask
            && binding.operation_id is Some && binding.payload_hash is Some && (
        binding.expires_at_unix matches Some(expiry) && expiry >= now),
{
}

/// The operation is that of the control plane, or a fresh one.
pub open spec fn is_operation_id(id: Seq<char>, binding: RemoteBinding) -> bool {
    match filled(binding.operation_id) {
        Some(o) => id == o,
        None => is_fresh_id(id, "op_"@),
    }
}

/// Names the operation.
pub fn operation_id_for(binding: &RemoteBinding) -> (id: String)
    ensures
        is_operation_id(id@, *binding),
{
    match filled_text(&binding.operation_id) {
        Some(o) => o,
        None => new_id("op_"),
    }
}

/// What a request leads to.
#[derive(Debug)]
pub enum GateAction {
    /// Not allowed.
    Refuse(IpcError),
    /// Wait for a decision.
    Enqueue(ApprovalRecord),
    /// Run it; the journal cannot and need not guard it.
    RunUnjournaled(PendingRequest),
    /// Reserve its key, then run it.
    Run(PendingRequest),
}

/// The record of an operation that waits for a decision. It inherits expiry and
/// payload hash of the remote action.
pub open spec fn is_deferred(
    record: ApprovalRecord,
    verdict: PolicyVerdict,
    facts: OperationFacts,
    request: PendingRequest,
    operation_id: Seq<char>,
    requester: Seq<char>,
    binding: RemoteBinding,
    now: i64,
) -> bool {
    &&& is_fresh_id(record.id@, "apr_"@)
    &&& record.operation_id@ == operation_id
    &&& record.capability == facts.capability
    &&& record.state@ == "pending"@
    &&& record.reason == verdict.reason
    &&& record.created_at_unix == now
    &&& record.decided_at_unix is None
    &&& record.expires_at_unix == binding.expires_at_unix
    &&& record.target_payload_hash == binding.payload_hash
    &&& record.matched_rule_id == verdict.matched_rule_id
    &&& record.requester_principal@ == requester
    &&& record.facts == Some(facts)
    &&& record.request == request
    &&& record.result is None
    &&& record.decided_by_principal is None
}

/// What is done with an operation, by its verdict and the state of the journal.
pub open spec fn is_gate_action(
    action: GateAction,
    verdict: PolicyVerdict,
    facts: OperationFacts,
    request: PendingRequest,
    operation_id: Seq<char>,
    requester: Seq<char>,
    binding: RemoteBinding,
    degraded: Option<String>,
    now: i64,
) -> bool {
    match verdict.decision {
        Decision::Deny => action matches GateAction::Refuse(e) && e.is(
            ErrorCode::PolicyDenied,
            "policy denied: "@ + verdict.reason@,
        ),
        Decision::Ask => match degraded {
            Some(reason) => action matches GateAction::Refuse(e) && e.is(
                ErrorCode::Conflict,
                degraded_message(reason@),
            ),
            None => action matches GateAction::Enqueue(record) && is_deferred(
                record,
                verdict,
                facts,
                request,
                operation_id,
                requester,
                binding,
                now,
            ),
        },
        Decision::Allow => match degraded {
            Some(reason) => if is_read_only(request) {
                action == GateAction::RunUnjournaled(request)
            } else {
                action matches GateAction::Refuse(e) && e.is(
                    ErrorCode::Conflict,
                    degraded_message(reason@),
                )
            },
            None => action == GateAction::Run(request),
        },
    }
}

/// Decides on an operation from its verdict and the state of the journal.
pub fn gate_and_run(
    verdict: &PolicyVerdict,
    facts: OperationFacts,
    request: PendingRequest,
    operation_id: &str,
    requester: &str,
    binding: &RemoteBinding,
    degraded: &Option<String>,
    now: i64,
) -> (action: GateAction)
    ensures
        is_gate_action(
            action,
            *verdict,
            facts,
            request,
            operation_id@,
            requester@,
            *binding,
            *degraded,
            now,
        ),
{
    match verdict.decision {
        Decision::Deny => GateAction::Refuse(
            IpcError::with_message(
                ErrorCode::PolicyDenied,
                join("policy denied: ", verdict.reason.as_str()),
            ),
        ),
        Decision::Ask => {
            if let Some(reason) = degraded {
                return GateAction::Refuse(journal_degraded_error(reason.as_str()));
            }
            GateAction::Enqueue(
                ApprovalRecord {
                    id: new_id("apr_"),
                    operation_id: operation_id.to_owned(),
                    capability: facts.capability.clone(),
                    state: "pending".to_owned(),
                    reason: verdict.reason.clone(),
                    created_at_unix: now,
                    decided_at_unix: None,
                    expires_at_unix: binding.expires_at_unix,
                    target_payload_hash: copy_text(&binding.payload_hash),
                    matched_rule_id: copy_text(&verdict.matched_rule_id),
                    requester_principal: requester.to_owned(),
                    facts: Some(facts),
                    request,
                    result: None,
                    decided_by_principal: None,
                },
            )
        },
        Decision::Allow => {
            if let Some(reason) = degraded {
                if pending_request_is_journal_read_only(&request) {
                    return GateAction::RunUnjournaled(request);
                }
                return GateAction::Refuse(journal_degraded_error(reason.as_str()));
            }
            GateAction::Run(request)
        },
    }
}

/// Stages of an operation, from the lookup of its receipt to its answer.
#[derive(Debug, Clone, Copy, PartialEq, Eq, Structural)]
pub enum RunStage {
    /// Look its receipt up.
    Lookup,
    /// Ask policy for a verdict.
    Evaluate,
    /// Write the use of the grant that allowed it.
    StoreUse,
    /// Decide, see [`gate_and_run`].
    Decide,
    /// Write the deferred operation.
    StoreApproval,
    /// Reserve the journal key.
    Reserve,
    /// Run the request.
    Execute,
    /// Run the request, with no receipt.
    ExecuteUnjournaled,
    /// Write the receipt.
    StoreReceipt,
    /// Write the failure in place of the marker; the error is the answer either
    /// way.
    StoreFailure,
    /// The answer is the result.
    Answer,
    /// The answer is the error.
    Fail,
}

/// What came of a stage.
#[derive(Debug, Clone, Copy, PartialEq, Eq, Structural)]
pub enum RunEvent {
    /// A receipt was found: that of a failure, or not.
    Receipt { failed: bool },
    NoReceipt,
    /// The verdict is there; it rests on a grant with bounded uses, or not.
    Judged { counted: bool },
    Refused,
    Deferred,
    Admitted,
    AdmittedUnjournaled,
    Done,
    Failed,
    /// The execution failed, and may have taken place all the same.
    Uncertain,
}

/// The order of the stages. What does not fit ends in the error.
pub open spec fn next_run_stage(stage: RunStage, event: RunEvent) -> RunStage {
    match (stage, event) {
        (RunStage::Lookup, RunEvent::Receipt { failed }) => if failed {
            RunStage::Fail
        } else {
            RunStage::Answer
        },
        (RunStage::Lookup, RunEvent::NoReceipt) => RunStage::Evaluate,
        (RunStage::Evaluate, RunEvent::Judged { counted }) => if counted {
            RunStage::StoreUse
        } else {
            RunStage::Decide
        },
        (RunStage::StoreUse, RunEvent::Done) => RunStage::Decide,
        (RunStage::Decide, RunEvent::Deferred) => RunStage::StoreApproval,
        (RunStage::Decide, RunEvent::Admitted) => RunStage::Reserve,
        (RunStage::Decide, RunEvent::AdmittedUnjournaled) => RunStage::ExecuteUnjournaled,
        (RunStage::StoreApproval, RunEvent::Done) => RunStage::Answer,
        (RunStage::ExecuteUnjournaled, RunEvent::Done) => RunStage::Answer,
        (RunStage::Reserve, RunEvent::Done) => RunStage::Execute,
        (RunStage::Execute, RunEvent::Done) => RunStage::StoreReceipt,
        (RunStage::Execute, RunEvent::Failed) => RunStage::StoreFailure,
        (RunStage::Execute, RunEvent::Uncertain) => RunStage::Fail,
        (RunStage::StoreReceipt, RunEvent::Done) => RunStage::Answer,
        (RunStage::Answer, _) => RunStage::Answer,
        _ => RunStage::Fail,
    }
}

/// What follows a stage.
pub fn after_run_stage(stage: RunStage, event: RunEvent) -> (next: RunStage)
    ensures
        next == next_run_stage(stage, event),
{
    match (stage, event) {
        (RunStage::Lookup, RunEvent::Receipt { failed }) => {
            if failed {
                RunStage::Fail
            } else {
                RunStage::Answer
            }
        },
        (RunStage::Lookup, RunEvent::NoReceipt) => RunStage::Evaluate,
        (RunStage::Evaluate, RunEvent::Judged { counted }) => {
            if counted {
                RunStage::StoreUse
            } else {
                RunStage::Decide
            }
        },
        (RunStage::StoreUse, RunEvent::Done) => RunStage::Decide,
        (RunStage::Decide, RunEvent::Deferred) => RunStage::StoreApproval,
        (RunStage::Decide, RunEvent::Admitted) => RunStage::Reserve,
        (RunStage::Decide, RunEvent::AdmittedUnjournaled) => RunStage::ExecuteUnjournaled,
        (RunStage::StoreApproval, RunEvent::Done) => RunStage::Answer,
        (RunStage::ExecuteUnjournaled, RunEvent::Done) => RunStage::Answer,
        (RunStage::Reserve, RunEvent::Done) => RunStage::Execute,
        (RunStage::Execute, RunEvent::Done) => RunStage::StoreReceipt,
        (RunStage::Execute, RunEvent::Failed) => RunStage::StoreFailure,
        (RunStage::Execute, RunEvent::Uncertain) => RunStage::Fail,
        (RunStage::StoreReceipt, RunEvent::Done) => RunStage::Answer,
        (RunStage::Answer, _) => RunStage::Answer,
        _ => RunStage::Fail,
    }
}

/// The event that a decision is.
pub open spec fn event_of(action: GateAction) -> RunEvent {
    match action {
        GateAction::Refuse(_) => RunEvent::Refused,
        GateAction::Enqueue(_) => RunEvent::Deferred,
        GateAction::RunUnjournaled(_) => RunEvent::AdmittedUnjournaled,
        GateAction::Run(_) => RunEvent::Admitted,
    }
}

/// The event that a decision is.
pub fn decision_event(action: &GateAction) -> (event: RunEvent)
    ensures
        event == event_of(*action),
{
    match action {
        GateAction::Refuse(_) => RunEvent::Refused,
        GateAction::Enqueue(_) => RunEvent::Deferred,
        GateAction::RunUnjournaled(_) => RunEvent::AdmittedUnjournaled,
        GateAction::Run(_) => RunEvent::Admitted,
    }
}

/// The event that an execution is.
pub open spec fn outcome_event(outcome: Result<Json, ExecutionFailure>) -> RunEvent {
    match outcome {
        Ok(_) => RunEvent::Done,
        Err(failure) => if failure.uncertain {
            RunEvent::Uncertain
        } else {
            RunEvent::Failed
        },
    }
}

/// The event that an execution is.
pub fn execution_event(outcome: &Result<Json, ExecutionFailure>) -> (event: RunEvent)
    ensures
        event == outcome_event(*outcome),
{
    match outcome {
        Ok(_) => RunEvent::Done,
        Err(failure) => {
            if failure.uncertain {
                RunEvent::Uncertain
            } else {
                RunEvent::Failed
            }
        },
    }
}

/// What an execution leaves in the journal: its receipt, its failure in place of
/// its marker, or, where the outcome is uncertain, its marker as it is.
pub open spec fn leaves(
    before: JournalState,
    after: JournalState,
    r: Result<Option<PendingWrite>, IpcError>,
    key: Option<Seq<char>>,
    operation_id: Seq<char>,
    outcome: Result<Json, ExecutionFailure>,
    error_code: int,
    now: int,
) -> bool {
    match outcome {
        Ok(body) => before.stores(after, r, key, body@, now),
        Err(failure) => if failure.uncertain {
            after == before && r matches Ok(None)
        } else {
            before.stores_failure(
                after,
                r,
                key,
                operation_id,
                error_code,
                failure.error.message@,
                now,
            )
        },
    }
}

/// Plans what an execution leaves in the journal. `error_code` is the wire code of
/// its error.
pub fn plan_outcome(
    journal: &mut JournalState,
    key: Option<&String>,
    operation_id: &str,
    outcome: &Result<Json, ExecutionFailure>,
    error_code: i64,
    now: i64,
) -> (r: Result<Option<PendingWrite>, IpcError>)
    ensures
        leaves(
            *old(journal),
            *final(journal),
            r,
            key_view(key),
            operation_id@,
            *outcome,
            error_code as int,
            now as int,
        ),
{
    match outcome {
        Ok(body) => journal.store_idempotent(key, body, now),
        Err(failure) => {
            if failure.uncertain {
                return Ok(None);
            }
            journal.fail_idempotent(
                key,
                operation_id,
                error_code,
                failure.error.message.as_str(),
                now,
            )
        },
    }
}

/// The stage that an operation is in after a run of events.
pub open spec fn stage_after(stage: RunStage, events: Seq<RunEvent>) -> RunStage
    decreases events.len(),
{
    if events.len() == 0 {
        stage
    } else {
        next_run_stage(stage_after(stage, events.drop_last()), events.last())
    }
}

/// Where an operation with a receipt stays.
pub open spec fn is_replayed(stage: RunStage, failed: bool) -> bool {
    stage == if failed {
        RunStage::Fail
    } else {
        RunStage::Answer
    }
}

/// An operation with a receipt is never judged, deferred or run again: whatever
/// else is reported, the receipt stays the answer.
pub proof fn law_receipts_are_final(failed: bool, events: Seq<RunEvent>)
    ensures
        is_replayed(
            stage_after(
                next_run_stage(RunStage::Lookup, RunEvent::Receipt { failed }),
                events,
            ),
            failed,
        ),
    decreases events.len(),
{
    if events.len() > 0 {
        law_receipts_are_final(failed, events.drop_last());
    }
}

/// An operation runs only after its key was reserved, or with no receipt where the
/// decision said so; it is reserved only after it was admitted, and answered as
/// run only after its receipt was written.
pub proof fn law_no_run_without_reservation(stage: RunStage, event: RunEvent)
    ensures
        next_run_stage(stage, event) == RunStage::Execute ==> stage == RunStage::Reserve && event
            == RunEvent::Done,
        next_run_stage(stage, event) == RunStage::ExecuteUnjournaled ==> stage == RunStage::Decide
            && event == RunEvent::AdmittedUnjournaled,
        next_run_stage(stage, event) == RunStage::Reserve ==> stage == RunStage::Decide && event
            == RunEvent::Admitted,
        stage == RunStage::Execute ==> next_run_stage(stage, event) != RunStage::Answer,
{
}

/// An operation whose outcome is uncertain is answered with its error, and its
/// marker stays as it is: no failure is recorded, whatever else is reported, and a
/// retry is refused.
pub proof fn law_uncertain_outcomes_keep_their_marker(
    before: JournalState,
    after: JournalState,
    r: Result<Option<PendingWrite>, IpcError>,
    key: Seq<char>,
    operation_id: Seq<char>,
    outcome: Result<Json, ExecutionFailure>,
    error_code: int,
    now: int,
    events: Seq<RunEvent>,
)
    requires
        owns_marker(before.journal@, key, operation_id),
        outcome matches Err(failure) && failure.uncertain,
        leaves(before, after, r, Some(key), operation_id, outcome, error_code, now),
    ensures
        r matches Ok(None),
        after == before,
        owns_marker(after.journal@, key, operation_id),
        refuses_retry(after.journal@, key),
        stage_after(next_run_stage(RunStage::Execute, outcome_event(outcome)), events)
            == RunStage::Fail,
    decreases events.len(),
{
    if events.len() > 0 {
        law_uncertain_outcomes_keep_their_marker(
            before,
            after,
            r,
            key,
            operation_id,
            outcome,
            error_code,
            now,
            events.drop_last(),
        );
    }
}

/// The answer to an operation that waits for a decision.
pub open spec fn ask_body(
    operation_id: Seq<char>,
    approval_id: Seq<char>,
    reason: Seq<char>,
    matched_rule_id: Option<String>,
) -> JsonV {
    JsonV::Object(
        Map::<Seq<char>, JsonV>::empty().insert("approval_required"@, JsonV::Bool(true)).insert(
            "operation_id"@,
            JsonV::Str(operation_id),
        ).insert("approval_id"@, JsonV::Str(approval_id)).insert("reason"@, JsonV::Str(reason)).insert(
            "matched_rule_id"@,
            text_or_null(matched_rule_id),
        ).insert("replayed"@, JsonV::Bool(false)),
    )
}

/// Builds the answer to an operation that waits for a decision.
pub fn ask_answer(
    operation_id: &str,
    approval_id: &str,
    reason: &str,
    matched_rule_id: &Option<String>,
) -> (body: Json)
    ensures
        body@ == ask_body(operation_id@, approval_id@, reason@, *matched_rule_id),
{
    let mut object = JsonObject::new();
    object.put("approval_required", Json::Bool(true));
    object.put("operation_id", Json::text(operation_id));
    object.put("approval_id", Json::text(approval_id));
    object.put("reason", Json::text(reason));
    object.put("matched_rule_id", optional_text(matched_rule_id));
    object.put("replayed", Json::Bool(false));
    Json::Object(object)
}

/// The answer to an operation that ran.
pub open spec fn allow_body(operation_id: Seq<char>, result: JsonV, reason: Seq<char>) -> JsonV {
    JsonV::Object(
        Map::<Seq<char>, JsonV>::empty().insert("approval_required"@, JsonV::Bool(false)).insert(
            "operation_id"@,
            JsonV::Str(operation_id),
        ).insert("result"@, result).insert("replayed"@, JsonV::Bool(false)).insert(
            "decision"@,
            JsonV::Str("allow"@),
        ).insert("reason"@, JsonV::Str(reason)),
    )
}

/// Builds the answer to an operation that ran.
pub fn allow_answer(operation_id: &str, result: Json, reason: &str) -> (body: Json)
    ensures
        body@ == allow_body(operation_id@, result@, reason@),
{
    let mut object = JsonObject::new();
    object.put("approval_required", Json::Bool(false));
    object.put("operation_id", Json::text(operation_id));
    object.put("result", result);
    object.put("replayed", Json::Bool(false));
    object.put("decision", Json::text("allow"));
    object.put("reason", Json::text(reason));
    Json::Object(object)
}

/// Adds a deferred operation to the approvals. What it displaced is returned for
/// [`undo_enqueue`].
pub fn enqueue(approvals: &mut Approvals, record: ApprovalRecord) -> (displaced: Option<
    ApprovalRecord,
>)
    ensures
        final(approvals)@ == old(approvals)@.insert(record.id@, record),
        match displaced {
            Some(before) => old(approvals)@.contains_key(record.id@) && old(approvals)@[record.id@]
                == before,
            None => !old(approvals)@.contains_key(record.id@),
        },
{
    let id = record.id.clone();
    approvals.insert(id, record)
}

/// Takes a deferred operation back that could not be written.
pub fn undo_enqueue(approvals: &mut Approvals, id: &str, displaced: Option<ApprovalRecord>)
    ensures
        final(approvals)@ == (match displaced {
            Some(before) => old(approvals)@.insert(id@, before),
            None => old(approvals)@.remove(id@),
        }),
{
    match displaced {
        Some(before) => {
            let _ = approvals.insert(id.to_owned(), before);
        },
        None => {
            let _ = approvals.remove(id);
        },
    }
}

/// A deferred operation that was taken back leaves the approvals as they were.
pub proof fn law_undone_enqueue_restores_the_approvals(
    before: Map<Seq<char>, ApprovalRecord>,
    record: ApprovalRecord,
)
    ensures
        ({
            let after = before.insert(record.id@, record);
            if before.contains_key(record.id@) {
                after.insert(record.id@, before[record.id@]) == before
            } else {
                after.remove(record.id@) == before
            }
        }),
{
    let after = before.insert(record.id@, record);
    if before.contains_key(record.id@) {
        assert(after.insert(record.id@, before[record.id@]) =~= before);
    } else {
        assert(after.remove(record.id@) =~= before);
    }
}

/// Why a request has no executor in the present state.
pub open spec fn executor_refusal(lockdown: bool, request: PendingRequest) -> Refusal {
    if request is AdminDaemonUnlock && !lockdown {
        Some((ErrorCode::Conflict, "device is not in emergency lockdown"@))
    } else if request is AdminApprovalBridge {
        Some(
            (
                ErrorCode::Internal,
                "approval bridge requires the authenticated approval executor"@,
            ),
        )
    } else {
        None
    }
}

/// Holds a request to what its executor needs.
pub fn execute_request(lockdown: bool, request: &PendingRequest) -> (r: Result<(), IpcError>)
    ensures
        answers(r, executor_refusal(lockdown, *request)),
{
    if matches!(request, PendingRequest::AdminDaemonUnlock(_)) && !lockdown {
        return Err(IpcError::new(ErrorCode::Conflict, "device is not in emergency lockdown"));
    }
    if matches!(request, PendingRequest::AdminApprovalBridge(_)) {
        return Err(
            IpcError::new(
                ErrorCode::Internal,
                "approval bridge requires the authenticated approval executor",
            ),
        );
    }
    Ok(())
}

/// The answer to an operation that ran has its very result, under the id of the
/// operation, with the reason that it was allowed for.
pub proof fn law_runs_are_answered_with_their_result(operation_id: Seq<char>, result: JsonV, reason: Seq<char>)
    ensures
        allow_body(operation_id, result, reason).get("result"@) == Some(result),
        allow_body(operation_id, result, reason).get("operation_id"@) == Some(JsonV::Str(operation_id)),
        allow_body(operation_id, result, reason).get("reason"@) == Some(JsonV::Str(reason)),
        allow_body(operation_id, result, reason).get("approval_required"@) == Some(JsonV::Bool(false)),
        allow_body(operation_id, result, reason).get("replayed"@) == Some(JsonV::Bool(false)),
        allow_body(operation_id, result, reason).get("decision"@) == Some(JsonV::Str("allow"@)),
        forall|name: Seq<char>| #[trigger]
            allow_body(operation_id, result, reason).get(name) is Some ==> (
            name == "result"@
            || name == "operation_id"@
            || name == "reason"@
            || name == "approval_required"@
            || name == "replayed"@
            || name == "decision"@),
{
    reveal_strlit("result");
    reveal_strlit("operation_id");
    reveal_strlit("reason");
    reveal_strlit("approval_required");
    reveal_strlit("replayed");
    reveal_strlit("decision");
    assert("result"@.len() == 6 && "operation_id"@.len() == 12 && "reason"@.len() == 6 && "approval_required"@.len() == 17 && "replayed"@.len() == 8 && "decision"@.len() == 8);
    assert("result"@[2] != "reason"@[2]);
    assert("replayed"@[0] != "decision"@[0]);
}

/// The answer to an operation that waits names the operation, the approval that it waits
/// for, the reason and the rule.
pub proof fn law_deferrals_are_answered(
    operation_id: Seq<char>,
    approval_id: Seq<char>,
    reason: Seq<char>,
    matched_rule_id: Option<String>,
)
    ensures
        ask_body(operation_id, approval_id, reason, matched_rule_id).get("operation_id"@) == Some(JsonV::Str(operation_id)),
        ask_body(operation_id, approval_id, reason, matched_rule_id).get("approval_id"@) == Some(JsonV::Str(approval_id)),
        ask_body(operation_id, approval_id, reason, matched_rule_id).get("reason"@) == Some(JsonV::Str(reason)),
        ask_body(operation_id, approval_id, reason, matched_rule_id).get("approval_required"@) == Some(JsonV::Bool(true)),
        ask_body(operation_id, approval_id, reason, matched_rule_id).get("replayed"@) == Some(JsonV::Bool(false)),
        matched_rule_id matches Some(rule) ==> ask_body(
            operation_id,
            approval_id,
            reason,
            matched_rule_id,
        ).get("matched_rule_id"@) == Some(JsonV::Str(rule@)),
        matched_rule_id is None ==> ask_body(operation_id, approval_id, reason, matched_rule_id).get(
            "matched_rule_id"@,
        ) == Some(JsonV::Null),
        forall|name: Seq<char>| #[trigger]
            ask_body(operation_id, approval_id, reason, matched_rule_id).get(name) is Some ==> (
            name == "operation_id"@
            || name == "approval_id"@
            || name == "reason"@
            || name == "approval_required"@
            || name == "replayed"@
            || name == "matched_rule_id"@),
{
    reveal_strlit("operation_id");
    reveal_strlit("approval_id");
    reveal_strlit("reason");
    reveal_strlit("approval_required");
    reveal_strlit("replayed");
    reveal_strlit("matched_rule_id");
    assert("operation_id"@.len() == 12 && "approval_id"@.len() == 11 && "reason"@.len() == 6 && "approval_required"@.len() == 17 && "replayed"@.len() == 8 && "matched_rule_id"@.len() == 15);
}

/// A denied operation is refused and nothing else; one that policy asks about waits,
/// and one that is allowed runs, exactly as it was requested; while the journal is
/// degraded only what is read only runs, and nothing waits.
pub proof fn law_operations_go_by_their_verdict(
    action: GateAction,
    verdict: PolicyVerdict,
    facts: OperationFacts,
    request: PendingRequest,
    operation_id: Seq<char>,
    requester: Seq<char>,
    binding: RemoteBinding,
    degraded: Option<String>,
    now: i64,
)
    requires
        is_gate_action(
            action,
            verdict,
            facts,
            request,
            operation_id,
            requester,
            binding,
            degraded,
            now,
        ),
    ensures
        action is Run <==> verdict.decision == Decision::Allow && degraded is None,
        action is RunUnjournaled <==> verdict.decision == Decision::Allow && degraded is Some
            && is_read_only(request),
        action is Enqueue <==> verdict.decision == Decision::Ask && degraded is None,
        action is Refuse <==> verdict.decision == Decision::Deny || (degraded is Some && !(
        verdict.decision == Decision::Allow && is_read_only(request))),
        action matches GateAction::Run(running) ==> running == request,
        action matches GateAction::RunUnjournaled(running) ==> running == request,
        action matches GateAction::Refuse(e) ==> (if verdict.decision == Decision::Deny {
            e.code == ErrorCode::PolicyDenied
        } else {
            e.code == ErrorCode::Conflict
        }),
        action matches GateAction::Enqueue(record) ==> {
            &&& record.request == request
            &&& record.facts == Some(facts)
            &&& record.operation_id@ == operation_id
            &&& record.requester_principal@ == requester
            &&& record.state@ == "pending"@
            &&& record.capability@ == facts.capability@
            &&& record.reason@ == verdict.reason@
            &&& record.matched_rule_id == verdict.matched_rule_id
            &&& record.created_at_unix == now
            &&& record.expires_at_unix == binding.expires_at_unix
            &&& record.target_payload_hash == binding.payload_hash
            &&& record.result is None
            &&& record.decided_at_unix is None
            &&& record.decided_by_principal is None
        },
{
}

/// The stages of an operation follow each other in one order: its receipt is looked up
/// before it is judged, a counted use is written before the decision, a marker before
/// the run, and a receipt before the answer; what fails on the way is answered with
/// the error.
pub proof fn law_operation_stages_are_in_order()
    ensures
        next_run_stage(RunStage::Lookup, RunEvent::NoReceipt) == RunStage::Evaluate,
        next_run_stage(RunStage::Lookup, RunEvent::Receipt { failed: true }) == RunStage::Fail,
        next_run_stage(RunStage::Lookup, RunEvent::Receipt { failed: false }) == RunStage::Answer,
        next_run_stage(RunStage::Evaluate, RunEvent::Judged { counted: true })
            == RunStage::StoreUse,
        next_run_stage(RunStage::Evaluate, RunEvent::Judged { counted: false })
            == RunStage::Decide,
        next_run_stage(RunStage::StoreUse, RunEvent::Done) == RunStage::Decide,
        next_run_stage(RunStage::Decide, RunEvent::Deferred) == RunStage::StoreApproval,
        next_run_stage(RunStage::Decide, RunEvent::Admitted) == RunStage::Reserve,
        next_run_stage(RunStage::Decide, RunEvent::AdmittedUnjournaled)
            == RunStage::ExecuteUnjournaled,
        next_run_stage(RunStage::Decide, RunEvent::Refused) == RunStage::Fail,
        next_run_stage(RunStage::StoreApproval, RunEvent::Done) == RunStage::Answer,
        next_run_stage(RunStage::Reserve, RunEvent::Done) == RunStage::Execute,
        next_run_stage(RunStage::Execute, RunEvent::Done) == RunStage::StoreReceipt,
        next_run_stage(RunStage::Execute, RunEvent::Failed) == RunStage::StoreFailure,
        next_run_stage(RunStage::ExecuteUnjournaled, RunEvent::Done) == RunStage::Answer,
        next_run_stage(RunStage::StoreReceipt, RunEvent::Done) == RunStage::Answer,
        forall|stage: RunStage| #[trigger]
            next_run_stage(stage, RunEvent::Failed) == (if stage == RunStage::Execute {
                RunStage::StoreFailure
            } else if stage == RunStage::Answer {
                RunStage::Answer
            } else {
                RunStage::Fail
            }),
        forall|event: RunEvent| #[trigger]
            next_run_stage(RunStage::StoreFailure, event) == RunStage::Fail,
        forall|event: RunEvent| #[trigger]
            next_run_stage(RunStage::Fail, event) == RunStage::Fail,
{
}

/// What was decided is what is reported, and an execution is reported as it went.
pub proof fn law_events_tell_what_happened(
    action: GateAction,
    outcome: Result<Json, ExecutionFailure>,
)
    ensures
        action is Refuse <==> event_of(action) == RunEvent::Refused,
        action is Enqueue <==> event_of(action) == RunEvent::Deferred,
        action is Run <==> event_of(action) == RunEvent::Admitted,
        action is RunUnjournaled <==> event_of(action) == RunEvent::AdmittedUnjournaled,
        outcome is Ok <==> outcome_event(outcome) == RunEvent::Done,
        (outcome matches Err(failure) && failure.uncertain) <==> outcome_event(outcome)
            == RunEvent::Uncertain,
        (outcome matches Err(failure) && !failure.uncertain) <==> outcome_event(outcome)
            == RunEvent::Failed,
{
}

/// A receipt is replayed with its own body, marked as replayed; the receipt of a
/// failure is replayed as that failure, with the code and the message that were
/// stored.
pub proof fn law_receipts_are_replayed_as_stored(r: Result<Json, IpcError>, receipt: JsonV)
    requires
        is_replay(r, receipt),
    ensures
        r is Err <==> receipt.get_str("status"@) == Some("failed"@),
        r matches Ok(body) ==> {
            &&& forall|name: Seq<char>|
                name != "replayed"@ ==> #[trigger] body@.get(name) == receipt.get(name)
            &&& receipt is Object ==> body@.get("replayed"@) == Some(JsonV::Bool(true))
        },
        r matches Err(e) ==> (receipt.get("error"@) matches Some(error) ==> {
            &&& error.get_str("message"@) matches Some(message) ==> e.message@ == message
            &&& error.get_i64("code"@) matches Some(code) ==> e.code == ErrorCode::Stored(
                code as i64,
            )
            &&& error.get_i64("code"@) is None ==> e.code == ErrorCode::Internal
        }),
{
}

/// Delegation lifts an ask to an allowance where it is configured for a bound
/// operation, and says so; it changes nothing else.
pub proof fn law_delegation_is_exact(before: PolicyVerdict, after: PolicyVerdict, delegated: bool)
    requires
        is_delegated(after, before, delegated),
    ensures
        after.matched_rule_id == before.matched_rule_id,
        delegated && before.decision == Decision::Ask ==> after.decision == Decision::Allow
            && after.reason@ == before.reason@ + "; remote MCP delegation configured"@,
        !delegated ==> after.decision == before.decision && after.reason@ == before.reason@,
        before.decision != Decision::Ask ==> after.decision == before.decision && after.reason@
            == before.reason@,
{
}

/// A remote operation keeps the id that it was bound to.
pub proof fn law_bound_operations_keep_their_id(id: Seq<char>, binding: RemoteBinding)
    requires
        is_operation_id(id, binding),
    ensures
        binding.operation_id matches Some(bound) ==> (trim(bound@).len() > 0 ==> id == trim(bound@)),
{
}

/// An unlock runs only in lockdown, and a bridge only through the approval that it
/// is for; anything else runs.
pub proof fn law_executors_refuse_only_these(lockdown: bool, request: PendingRequest)
    ensures
        executor_refusal(lockdown, request) is None <==> (request is AdminDaemonUnlock ==> lockdown)
            && !(request is AdminApprovalBridge),
{
}

/// Policy judges by the principal that asks, and by the local one where none does.
pub proof fn law_policy_judges_the_caller(principal: Seq<char>)
    ensures
        trim(principal).len() > 0 ==> judged_principal(principal) == principal,
        trim(principal).len() == 0 ==> judged_principal(principal) == "prin_local"@,
{
}

} // verus!

//! Recovery decisions of the control plane on deferred approvals.
use crate::approvals::{answers, ApprovalRecord, Approvals, Refusal};
use crate::error::{ErrorCode, IpcError};
use crate::json::{Json, JsonObject, JsonV};
use crate::params::PendingRequest;
use crate::registry::{lemma_item_is_mapped, lemma_mapped_key_has_item};
use crate::text::{
    decimal, filled, filled_text, join, join3, lower_text, same_text, same_text_ignoring_case,
    signed_decimal, to_lower, trim, trimmed,
};
use vstd::pervasive::unreached;
use vstd::prelude::*;
use vstd::string::*;

verus! {

/// A decision as the authenticated channel delivers it. The expiry is absent
/// when none was cited or it is no timestamp.
#[derive(Debug)]
pub struct ControlPlaneDecision {
    pub approval_id: Option<String>,
    pub target_operation_id: Option<String>,
    pub decision: String,
    pub target_payload_hash: Option<String>,
    pub target_expires_unix: Option<i64>,
    pub approver_principal: Option<String>,
}

/// What a decision leads to.
#[derive(Debug)]
pub enum DecisionPlan {
    /// Already decided: the state is reported and nothing runs.
    Replay { approval_id: String, body: Json },
    /// Deny the approval.
    Deny { approval_id: String, approver: String },
    /// Deny the bridge together with its target.
    DenyBridge { approval_id: String, approver: String },
    /// Carry the approval out.
    Approve { approval_id: String, approver: String },
}

impl DecisionPlan {
    /// The approval that the plan is about.
    pub open spec fn approval_id(self) -> Seq<char> {
        match self {
            DecisionPlan::Replay { approval_id, .. } => approval_id@,
            DecisionPlan::Deny { approval_id, .. } => approval_id@,
            DecisionPlan::DenyBridge { approval_id, .. } => approval_id@,
            DecisionPlan::Approve { approval_id, .. } => approval_id@,
        }
    }
}

/// The record is a pending approval of the operation.
pub open spec fn is_pending_for(record: ApprovalRecord, operation: Seq<char>) -> bool {
    record.operation_id@ == operation && record.state@ == "pending"@
}

/// Some pending approval of the operation.
pub open spec fn some_pending_for(
    approvals: Map<Seq<char>, ApprovalRecord>,
    operation: Seq<char>,
) -> bool {
    exists|k: Seq<char>| #[trigger]
        approvals.contains_key(k) && is_pending_for(approvals[k], operation)
}

/// Two pending approvals of the operation.
pub open spec fn two_pending_for(
    approvals: Map<Seq<char>, ApprovalRecord>,
    operation: Seq<char>,
) -> bool {
    exists|a: Seq<char>, b: Seq<char>|
        a != b && #[trigger] approvals.contains_key(a) && #[trigger] approvals.contains_key(b)
            && is_pending_for(approvals[a], operation) && is_pending_for(approvals[b], operation)
}

/// `key` is the approval that the identifiers name. An id that is not known
/// yields to the operation; without an id the operation has to be unambiguous.
pub open spec fn resolves(
    approvals: Map<Seq<char>, ApprovalRecord>,
    id: Option<Seq<char>>,
    operation: Option<Seq<char>>,
    key: Seq<char>,
) -> bool {
    &&& approvals.contains_key(key)
    &&& match (id, operation) {
        (Some(i), None) => key == i,
        (Some(i), Some(o)) => if approvals.contains_key(i) {
            key == i
        } else {
            is_pending_for(approvals[key], o)
        },
        (None, Some(o)) => is_pending_for(approvals[key], o) && !two_pending_for(approvals, o),
        (None, None) => false,
    }
}

/// Why the identifiers name no approval.
pub open spec fn resolution_refusal(
    approvals: Map<Seq<char>, ApprovalRecord>,
    id: Option<Seq<char>>,
    operation: Option<Seq<char>>,
) -> Refusal {
    match (id, operation) {
        (Some(i), None) => if approvals.contains_key(i) {
            None
        } else {
            Some((ErrorCode::InvalidParams, "approval not found: "@ + i))
        },
        (Some(i), Some(o)) => if approvals.contains_key(i) || some_pending_for(approvals, o) {
            None
        } else {
            Some(
                (
                    ErrorCode::InvalidParams,
                    "approval not found for id="@ + i + " target_operation_id="@ + o,
                ),
            )
        },
        (None, Some(o)) => if !some_pending_for(approvals, o) {
            Some((ErrorCode::InvalidParams, "no pending approval for operation "@ + o))
        } else if two_pending_for(approvals, o) {
            Some(
                (
                    ErrorCode::Conflict,
                    "multiple pending approvals for operation "@ + o + "; supply approval_id"@,
                ),
            )
        } else {
            None
        },
        (None, None) => Some(
            (ErrorCode::InvalidParams, "approval_id or target_operation_id required"@),
        ),
    }
}

/// The first pending approval of an operation at or after a position.
fn next_pending(approvals: &Approvals, operation: &str, from: usize) -> (found: Option<usize>)
    ensures
        match found {
            Some(i) => from <= i < approvals.items().len() && is_pending_for(
                approvals.items()[i as int].1,
                operation@,
            ),
            None => forall|j: int|
                from <= j < approvals.items().len() ==> !is_pending_for(
                    (#[trigger] approvals.items()[j]).1,
                    operation@,
                ),
        },
        found matches Some(i) ==> forall|j: int|
            from <= j < i ==> !is_pending_for((#[trigger] approvals.items()[j]).1, operation@),
{
    let n: usize = approvals.len();
    let mut i: usize = from;
    while i < n
        invariant
            from <= i,
            n == approvals.items().len(),
            forall|j: int|
                from <= j < i ==> !is_pending_for((#[trigger] approvals.items()[j]).1, operation@),
        decreases n - i,
    {
        let record = approvals.value_at(i);
        if same_text(record.operation_id.as_str(), operation) && same_text(
            record.state.as_str(),
            "pending",
        ) {
            return Some(i);
        }
        i += 1;
    }
    None
}

/// Finds the approval that the identifiers name.
pub fn resolve_approval(
    approvals: &Approvals,
    id: &Option<String>,
    operation: &Option<String>,
) -> (r: Result<String, IpcError>)
    ensures
        answers(r, resolution_refusal(approvals@, view_of(*id), view_of(*operation))),
        r matches Ok(key) ==> resolves(approvals@, view_of(*id), view_of(*operation), key@),
{
    let n: usize = approvals.len();
    match id {
        Some(i) => {
            if approvals.contains_key(i.as_str()) {
                return Ok(i.clone());
            }
            match operation {
                None => Err(
                    IpcError::with_message(
                        ErrorCode::InvalidParams,
                        join("approval not found: ", i.as_str()),
                    ),
                ),
                Some(o) => match next_pending(approvals, o.as_str(), 0) {
                    Some(at) => {
                        let key = approvals.key_at(at).clone();
                        let record = approvals.value_at(at);
                        assert(approvals@.contains_key(key@) && is_pending_for(
                            approvals@[key@],
                            o@,
                        ));
                        Ok(key)
                    },
                    None => {
                        proof {
                            lemma_no_pending(*approvals, o@);
                        }
                        let mut message = join3(
                            "approval not found for id=",
                            i.as_str(),
                            " target_operation_id=",
                        );
                        message.append(o.as_str());
                        Err(IpcError::with_message(ErrorCode::InvalidParams, message))
                    },
                },
            }
        },
        None => match operation {
            None => Err(
                IpcError::new(
                    ErrorCode::InvalidParams,
                    "approval_id or target_operation_id required",
                ),
            ),
            Some(o) => match next_pending(approvals, o.as_str(), 0) {
                None => {
                    proof {
                        lemma_no_pending(*approvals, o@);
                    }
                    Err(
                        IpcError::with_message(
                            ErrorCode::InvalidParams,
                            join("no pending approval for operation ", o.as_str()),
                        ),
                    )
                },
                Some(at) => {
                    let key = approvals.key_at(at).clone();
                    let record = approvals.value_at(at);
                    assert(approvals@.contains_key(key@) && is_pending_for(approvals@[key@], o@));
                    match next_pending(approvals, o.as_str(), at + 1) {
                        Some(other) => {
                            let second = approvals.key_at(other);
                            let other_record = approvals.value_at(other);
                            proof {
                                assert(key@ != second@) by {
                                    assert(approvals.items()[at as int].0@
                                        != approvals.items()[other as int].0@);
                                }
                                assert(approvals@.contains_key(second@));
                                assert(two_pending_for(approvals@, o@));
                            }
                            Err(
                                IpcError::with_message(
                                    ErrorCode::Conflict,
                                    join3(
                                        "multiple pending approvals for operation ",
                                        o.as_str(),
                                        "; supply approval_id",
                                    ),
                                ),
                            )
                        },
                        None => {
                            proof {
                                lemma_one_pending(*approvals, o@, at as int);
                            }
                            Ok(key)
                        },
                    }
                },
            },
        },
    }
}

/// The text inside.
pub open spec fn view_of(s: Option<String>) -> Option<Seq<char>> {
    match s {
        Some(text) => Some(text@),
        None => None,
    }
}

/// No item pending means no approval pending.
proof fn lemma_no_pending(approvals: Approvals, operation: Seq<char>)
    requires
        forall|j: int|
            0 <= j < approvals.items().len() ==> !is_pending_for(
                (#[trigger] approvals.items()[j]).1,
                operation,
            ),
        crate::registry::distinct_items(approvals.items()),
    ensures
        !some_pending_for(approvals@, operation),
{
    assert forall|k: Seq<char>| #[trigger] approvals@.contains_key(k) implies !is_pending_for(
        approvals@[k],
        operation,
    ) by {
        let j = lemma_mapped_key_has_item(approvals.items(), k);
        lemma_item_is_mapped(approvals.items(), j);
        assert(!is_pending_for(approvals.items()[j].1, operation));
    }
}

/// One item pending means one approval pending.
proof fn lemma_one_pending(approvals: Approvals, operation: Seq<char>, at: int)
    requires
        0 <= at < approvals.items().len(),
        forall|j: int|
            0 <= j < approvals.items().len() && j != at ==> !is_pending_for(
                (#[trigger] approvals.items()[j]).1,
                operation,
            ),
        crate::registry::distinct_items(approvals.items()),
    ensures
        !two_pending_for(approvals@, operation),
{
    if two_pending_for(approvals@, operation) {
        let (a, b) = choose|a: Seq<char>, b: Seq<char>|
            a != b && #[trigger] approvals@.contains_key(a) && #[trigger] approvals@.contains_key(b)
                && is_pending_for(approvals@[a], operation) && is_pending_for(
                approvals@[b],
                operation,
            );
        let i = lemma_mapped_key_has_item(approvals.items(), a);
        lemma_item_is_mapped(approvals.items(), i);
        let j = lemma_mapped_key_has_item(approvals.items(), b);
        lemma_item_is_mapped(approvals.items(), j);
        assert(is_pending_for(approvals.items()[i].1, operation));
        assert(is_pending_for(approvals.items()[j].1, operation));
    }
}

/// The decision, trimmed and in lower case.
pub open spec fn decision_word(decision: Seq<char>) -> Seq<char> {
    lower_text(trim(decision))
}

/// Why a decision is refused that names a record.
pub open spec fn record_refusal(
    record: ApprovalRecord,
    key: Seq<char>,
    decision: Seq<char>,
    operation: Option<Seq<char>>,
) -> Refusal {
    if record.request matches PendingRequest::AdminApprovalBridge(bridge) && bridge.decision@
        != decision {
        Some(
            (
                ErrorCode::Unauthorized,
                "approval decision does not match bound bridge intent ("@
                    + (record.request->AdminApprovalBridge_0).decision@ + ")"@,
            ),
        )
    } else if operation matches Some(o) && record.operation_id@ != o {
        Some(
            (
                ErrorCode::InvalidParams,
                "target_operation_id "@ + operation->0 + " does not match approval "@
                    + record.operation_id@,
            ),
        )
    } else {
        None
    }
}

/// Why a decision on a pending record is refused: its window closed, or it does
/// not cite the action that was deferred.
pub open spec fn binding_refusal(
    record: ApprovalRecord,
    key: Seq<char>,
    cited_hash: Option<Seq<char>>,
    cited_expiry: Option<i64>,
    now: int,
) -> Refusal {
    if record.expires_at_unix matches Some(exp) && now > exp {
        Some(
            (
                ErrorCode::Unauthorized,
                "approval "@ + key + " expired at unix "@ + decimal(
                    record.expires_at_unix->0 as int,
                ) + "; re-authorize the original action"@,
            ),
        )
    } else if record.target_payload_hash is Some && cited_hash is Some && lower_text(
        record.target_payload_hash->0@,
    ) != lower_text(cited_hash->0) {
        Some(
            (
                ErrorCode::Unauthorized,
                "target_payload_hash does not match deferred approval binding"@,
            ),
        )
    } else if record.target_payload_hash is Some && cited_hash is None {
        Some(
            (
                ErrorCode::Unauthorized,
                "target_payload_hash required for bound recovery approval"@,
            ),
        )
    } else if record.expires_at_unix is Some && cited_expiry is Some && record.expires_at_unix
        != cited_expiry {
        Some(
            (
                ErrorCode::Unauthorized,
                "target_expires_at does not match deferred approval binding"@,
            ),
        )
    } else {
        None
    }
}

/// The report on an approval that was decided before.
pub open spec fn replay_body(
    record: ApprovalRecord,
    key: Seq<char>,
    decision: Seq<char>,
) -> JsonV {
    JsonV::Object(
        Map::<Seq<char>, JsonV>::empty().insert(
            "approval_decision_applied"@,
            JsonV::Bool(true),
        ).insert("replayed"@, JsonV::Bool(true)).insert("approval_id"@, JsonV::Str(key)).insert(
            "target_operation_id"@,
            JsonV::Str(record.operation_id@),
        ).insert("decision"@, JsonV::Str(decision)).insert(
            "state"@,
            JsonV::Str(record.state@),
        ).insert(
            "result"@,
            match record.result {
                Some(result) => result@,
                None => JsonV::Null,
            },
        ),
    )
}

/// The identity under which the decision is carried out.
pub open spec fn recovery_key(approver: Option<Seq<char>>) -> Seq<char> {
    match approver {
        Some(p) => "user:control-plane:"@ + p,
        None => "user:control-plane-recovery"@,
    }
}

/// The plan for a record is what the decision asks for.
pub open spec fn is_plan_for(
    plan: DecisionPlan,
    record: ApprovalRecord,
    key: Seq<char>,
    decision: Seq<char>,
    approver: Option<Seq<char>>,
) -> bool {
    if record.state@ != "pending"@ {
        plan matches DecisionPlan::Replay { approval_id, body } && approval_id@ == key && body@
            == replay_body(record, key, decision)
    } else if decision == "deny"@ && record.request is AdminApprovalBridge {
        plan matches DecisionPlan::DenyBridge { approval_id, approver: by } && approval_id@ == key
            && by@ == recovery_key(approver)
    } else if decision == "deny"@ {
        plan matches DecisionPlan::Deny { approval_id, approver: by } && approval_id@ == key && by@
            == recovery_key(approver)
    } else {
        plan matches DecisionPlan::Approve { approval_id, approver: by } && approval_id@ == key
            && by@ == recovery_key(approver)
    }
}

/// Why a decision on a record is refused. A record that was decided before is
/// not refused for its binding: it is reported.
pub open spec fn judge_refusal(
    record: ApprovalRecord,
    key: Seq<char>,
    decision: Seq<char>,
    operation: Option<Seq<char>>,
    cited_hash: Option<Seq<char>>,
    cited_expiry: Option<i64>,
    now: int,
) -> Refusal {
    match record_refusal(record, key, decision, operation) {
        Some(refusal) => Some(refusal),
        None => if record.state@ != "pending"@ {
            None
        } else {
            binding_refusal(record, key, cited_hash, cited_expiry, now)
        },
    }
}

/// Judges a decision on a record.
pub fn judge_decision(
    record: &ApprovalRecord,
    key: &str,
    decision: &str,
    operation: &Option<String>,
    cited_hash: &Option<String>,
    cited_expiry: Option<i64>,
    approver: &Option<String>,
    now: i64,
) -> (r: Result<DecisionPlan, IpcError>)
    ensures
        answers(
            r,
            judge_refusal(
                *record,
                key@,
                decision@,
                view_of(*operation),
                view_of(*cited_hash),
                cited_expiry,
                now as int,
            ),
        ),
        r matches Ok(plan) ==> is_plan_for(plan, *record, key@, decision@, view_of(*approver)),
{
    let is_bridge = matches!(record.request, PendingRequest::AdminApprovalBridge(_));
    if let PendingRequest::AdminApprovalBridge(bridge) = &record.request {
        if !same_text(bridge.decision.as_str(), decision) {
            return Err(
                IpcError::with_message(
                    ErrorCode::Unauthorized,
                    join3(
                        "approval decision does not match bound bridge intent (",
                        bridge.decision.as_str(),
                        ")",
                    ),
                ),
            );
        }
    }
    if let Some(o) = operation {
        if !same_text(record.operation_id.as_str(), o.as_str()) {
            let mut message = join3(
                "target_operation_id ",
                o.as_str(),
                " does not match approval ",
            );
            message.append(record.operation_id.as_str());
            return Err(IpcError::with_message(ErrorCode::InvalidParams, message));
        }
    }
    if !same_text(record.state.as_str(), "pending") {
        let mut object = JsonObject::new();
        object.put("approval_decision_applied", Json::Bool(true));
        object.put("replayed", Json::Bool(true));
        object.put("approval_id", Json::text(key));
        object.put("target_operation_id", Json::text(record.operation_id.as_str()));
        object.put("decision", Json::text(decision));
        object.put("state", Json::text(record.state.as_str()));
        let result = match &record.result {
            Some(result) => result.copy(),
            None => Json::Null,
        };
        object.put("result", result);
        return Ok(
            DecisionPlan::Replay { approval_id: key.to_owned(), body: Json::Object(object) },
        );
    }
    if let Some(exp) = record.expires_at_unix {
        if now > exp {
            let mut message = join3("approval ", key, " expired at unix ");
            message.append(signed_decimal(exp).as_str());
            message.append("; re-authorize the original action");
            return Err(IpcError::with_message(ErrorCode::Unauthorized, message));
        }
    }
    if let Some(stored) = &record.target_payload_hash {
        match cited_hash {
            Some(cited) => {
                if !same_text_ignoring_case(stored.as_str(), cited.as_str()) {
                    return Err(
                        IpcError::new(
                            ErrorCode::Unauthorized,
                            "target_payload_hash does not match deferred approval binding",
                        ),
                    );
                }
            },
            None => {
                return Err(
                    IpcError::new(
                        ErrorCode::Unauthorized,
                        "target_payload_hash required for bound recovery approval",
                    ),
                );
            },
        }
    }
    if let Some(stored) = record.expires_at_unix {
        if let Some(cited) = cited_expiry {
            if stored != cited {
                return Err(
                    IpcError::new(
                        ErrorCode::Unauthorized,
                        "target_expires_at does not match deferred approval binding",
                    ),
                );
            }
        }
    }
    let by = match approver {
        Some(p) => join("user:control-plane:", p.as_str()),
        None => "user:control-plane-recovery".to_owned(),
    };
    let approval_id = key.to_owned();
    if same_text(decision, "deny") {
        if is_bridge {
            Ok(DecisionPlan::DenyBridge { approval_id, approver: by })
        } else {
            Ok(DecisionPlan::Deny { approval_id, approver: by })
        }
    } else {
        Ok(DecisionPlan::Approve { approval_id, approver: by })
    }
}

/// The word is one of the two decisions.
pub open spec fn is_decision(word: Seq<char>) -> bool {
    word == "approve"@ || word == "deny"@
}

/// The answer to a decision of the control plane: the plan for the approval that
/// it names, or why there is none. Where more than one approval answers to it, the
/// answer is that for one of them.
pub open spec fn decides(
    r: Result<DecisionPlan, IpcError>,
    approvals: Map<Seq<char>, ApprovalRecord>,
    params: ControlPlaneDecision,
    now: int,
) -> bool {
    let word = decision_word(params.decision@);
    let id = filled(params.approval_id);
    let operation = filled(params.target_operation_id);
    let hash = filled(params.target_payload_hash);
    let refused = resolution_refusal(approvals, id, operation);
    if !is_decision(word) {
        r matches Err(e) && e.is(
            ErrorCode::InvalidParams,
            "decision must be approve or deny"@,
        )
    } else if refused is Some {
        answers(r, refused)
    } else {
        match r {
            Ok(plan) => resolves(approvals, id, operation, plan.approval_id())
                && judge_refusal(
                approvals[plan.approval_id()],
                plan.approval_id(),
                word,
                operation,
                hash,
                params.target_expires_unix,
                now,
            ) is None && is_plan_for(
                plan,
                approvals[plan.approval_id()],
                plan.approval_id(),
                word,
                filled(params.approver_principal),
            ),
            Err(e) => exists|key: Seq<char>| #[trigger]
                resolves(approvals, id, operation, key) && judge_refusal(
                    approvals[key],
                    key,
                    word,
                    operation,
                    hash,
                    params.target_expires_unix,
                    now,
                ) == Some((e.code, e.message@)),
        }
    }
}

/// Applies a recovery decision to a deferred approval: finds the approval, holds
/// the decision to what was deferred, and says what is to be done. An approval
/// that was decided before is reported and never runs again.
pub fn apply_control_plane_approval_decision(
    approvals: &Approvals,
    params: &ControlPlaneDecision,
    now: i64,
) -> (r: Result<DecisionPlan, IpcError>)
    ensures
        decides(r, approvals@, *params, now as int),
{
    let word = to_lower(trimmed(params.decision.as_str()).as_str());
    if !same_text(word.as_str(), "approve") && !same_text(word.as_str(), "deny") {
        return Err(
            IpcError::new(ErrorCode::InvalidParams, "decision must be approve or deny"),
        );
    }
    let id = filled_text(&params.approval_id);
    let operation = filled_text(&params.target_operation_id);
    let hash = filled_text(&params.target_payload_hash);
    let approver = filled_text(&params.approver_principal);
    let key = match resolve_approval(approvals, &id, &operation) {
        Ok(key) => key,
        Err(e) => {
            return Err(e);
        },
    };
    match approvals.get(key.as_str()) {
        Some(record) => judge_decision(
            record,
            key.as_str(),
            word.as_str(),
            &operation,
            &hash,
            params.target_expires_unix,
            &approver,
            now,
        ),
        None => unreached(),
    }
}

/// A decision never carries out an approval that is not pending, nor one whose
/// window has closed, nor one whose payload hash it does not cite.
pub proof fn law_only_bound_pending_approvals_run(
    record: ApprovalRecord,
    key: Seq<char>,
    decision: Seq<char>,
    operation: Option<Seq<char>>,
    cited_hash: Option<Seq<char>>,
    cited_expiry: Option<i64>,
    approver: Option<Seq<char>>,
    now: int,
    plan: DecisionPlan,
)
    requires
        judge_refusal(record, key, decision, operation, cited_hash, cited_expiry, now) is None,
        is_plan_for(plan, record, key, decision, approver),
        plan is Approve,
    ensures
        record.state@ == "pending"@,
        record.expires_at_unix matches Some(exp) ==> now <= exp,
        record.target_payload_hash matches Some(stored) ==> (cited_hash matches Some(cited)
            && lower_text(stored@) == lower_text(cited)),
        record.request matches PendingRequest::AdminApprovalBridge(bridge) ==> bridge.decision@
            == decision,
{
}

/// The answer to a denial by the control plane.
pub open spec fn denied_decision_body(
    approval_id: Seq<char>,
    operation_id: Seq<char>,
    result: JsonV,
) -> JsonV {
    JsonV::Object(
        Map::<Seq<char>, JsonV>::empty().insert(
            "approval_decision_applied"@,
            JsonV::Bool(true),
        ).insert("replayed"@, JsonV::Bool(false)).insert(
            "approval_id"@,
            JsonV::Str(approval_id),
        ).insert("target_operation_id"@, JsonV::Str(operation_id)).insert(
            "decision"@,
            JsonV::Str("deny"@),
        ).insert("state"@, JsonV::Str("denied"@)).insert("result"@, result),
    )
}

/// The answer to a decision that denied an approval.
pub fn denied_decision_answer(approval_id: &str, operation_id: &str, result: Json) -> (body: Json)
    ensures
        body@ == denied_decision_body(approval_id@, operation_id@, result@),
{
    let mut object = JsonObject::new();
    object.put("approval_decision_applied", Json::Bool(true));
    object.put("replayed", Json::Bool(false));
    object.put("approval_id", Json::text(approval_id));
    object.put("target_operation_id", Json::text(operation_id));
    object.put("decision", Json::text("deny"));
    object.put("state", Json::text("denied"));
    object.put("result", result);
    Json::Object(object)
}

/// A member, or null.
pub open spec fn member_or_null(value: JsonV, key: Seq<char>) -> JsonV {
    match value.get(key) {
        Some(v) => v,
        None => JsonV::Null,
    }
}

/// The answer to an approval by the control plane.
pub open spec fn approved_decision_body(
    approval_id: Seq<char>,
    cited_operation: Option<String>,
    execution: JsonV,
) -> JsonV {
    JsonV::Object(
        Map::<Seq<char>, JsonV>::empty().insert(
            "approval_decision_applied"@,
            JsonV::Bool(true),
        ).insert("replayed"@, JsonV::Bool(false)).insert(
            "approval_id"@,
            JsonV::Str(approval_id),
        ).insert(
            "target_operation_id"@,
            match execution.get("operation_id"@) {
                Some(v) => v,
                None => JsonV::Str(
                    match filled(cited_operation) {
                        Some(o) => o,
                        None => Seq::empty(),
                    },
                ),
            },
        ).insert("decision"@, JsonV::Str("approve"@)).insert(
            "state"@,
            JsonV::Str("approved"@),
        ).insert("result"@, member_or_null(execution, "result"@)).insert("execution"@, execution),
    )
}

/// The answer to a decision that carried an approval out: the execution body,
/// with its operation and its result brought forward.
pub fn approved_decision_answer(approval_id: &str, cited_operation: &Option<String>, execution: &Json) -> (body: Json)
    ensures
        body@ == approved_decision_body(approval_id@, *cited_operation, execution@),
{
    let mut object = JsonObject::new();
    object.put("approval_decision_applied", Json::Bool(true));
    object.put("replayed", Json::Bool(false));
    object.put("approval_id", Json::text(approval_id));
    let target = match execution.get("operation_id") {
        Some(v) => v.copy(),
        None => match filled_text(cited_operation) {
            Some(o) => Json::Str(o),
            None => Json::Str(String::new()),
        },
    };
    object.put("target_operation_id", target);
    object.put("decision", Json::text("approve"));
    object.put("state", Json::text("approved"));
    let result = match execution.get("result") {
        Some(v) => v.copy(),
        None => Json::Null,
    };
    object.put("result", result);
    object.put("execution", execution.copy());
    Json::Object(object)
}

/// A decision that was made before is told again: the approval, its operation, the state
/// it is in and the result it holds, marked as a replay.
pub proof fn law_made_decisions_are_told_again(
    record: ApprovalRecord,
    key: Seq<char>,
    decision: Seq<char>,
)
    ensures
        replay_body(record, key, decision).get("approval_decision_applied"@) == Some(JsonV::Bool(true)),
        replay_body(record, key, decision).get("replayed"@) == Some(JsonV::Bool(true)),
        replay_body(record, key, decision).get("approval_id"@) == Some(JsonV::Str(key)),
        replay_body(record, key, decision).get("target_operation_id"@) == Some(JsonV::Str(record.operation_id@)),
        replay_body(record, key, decision).get("decision"@) == Some(JsonV::Str(decision)),
        replay_body(record, key, decision).get("state"@) == Some(JsonV::Str(record.state@)),
        record.result matches Some(result) ==> replay_body(record, key, decision).get("result"@)
            == Some(result@),
        record.result is None ==> replay_body(record, key, decision).get("result"@) == Some(
            JsonV::Null,
        ),
{
    reveal_strlit("approval_decision_applied");
    reveal_strlit("replayed");
    reveal_strlit("approval_id");
    reveal_strlit("target_operation_id");
    reveal_strlit("decision");
    reveal_strlit("state");
    reveal_strlit("result");
    assert("approval_decision_applied"@.len() == 25 && "replayed"@.len() == 8 && "approval_id"@.len() == 11 && "target_operation_id"@.len() == 19 && "decision"@.len() == 8 && "state"@.len() == 5 && "result"@.len() == 6);
    assert("replayed"@[0] != "decision"@[0]);
}

/// A denial is answered with the approval, its operation and the result of denying it.
pub proof fn law_denying_decisions_are_answered(
    approval_id: Seq<char>,
    operation_id: Seq<char>,
    result: JsonV,
)
    ensures
        denied_decision_body(approval_id, operation_id, result).get("approval_decision_applied"@) == Some(JsonV::Bool(true)),
        denied_decision_body(approval_id, operation_id, result).get("replayed"@) == Some(JsonV::Bool(false)),
        denied_decision_body(approval_id, operation_id, result).get("approval_id"@) == Some(JsonV::Str(approval_id)),
        denied_decision_body(approval_id, operation_id, result).get("target_operation_id"@) == Some(JsonV::Str(operation_id)),
        denied_decision_body(approval_id, operation_id, result).get("decision"@) == Some(JsonV::Str("deny"@)),
        denied_decision_body(approval_id, operation_id, result).get("state"@) == Some(JsonV::Str("denied"@)),
        denied_decision_body(approval_id, operation_id, result).get("result"@) == Some(result),
{
    reveal_strlit("approval_decision_applied");
    reveal_strlit("replayed");
    reveal_strlit("approval_id");
    reveal_strlit("target_operation_id");
    reveal_strlit("decision");
    reveal_strlit("state");
    reveal_strlit("result");
    assert("approval_decision_applied"@.len() == 25 && "replayed"@.len() == 8 && "approval_id"@.len() == 11 && "target_operation_id"@.len() == 19 && "decision"@.len() == 8 && "state"@.len() == 5 && "result"@.len() == 6);
    assert("replayed"@[0] != "decision"@[0]);
}

/// An approval is answered with what its execution gave: the whole of it, its result, and
/// its operation, or the one that was cited where it names none.
pub proof fn law_approving_decisions_are_answered(
    approval_id: Seq<char>,
    cited_operation: Option<String>,
    execution: JsonV,
)
    ensures
        approved_decision_body(approval_id, cited_operation, execution).get("approval_decision_applied"@) == Some(JsonV::Bool(true)),
        approved_decision_body(approval_id, cited_operation, execution).get("replayed"@) == Some(JsonV::Bool(false)),
        approved_decision_body(approval_id, cited_operation, execution).get("approval_id"@) == Some(JsonV::Str(approval_id)),
        approved_decision_body(approval_id, cited_operation, execution).get("decision"@) == Some(JsonV::Str("approve"@)),
        approved_decision_body(approval_id, cited_operation, execution).get("state"@) == Some(JsonV::Str("approved"@)),
        approved_decision_body(approval_id, cited_operation, execution).get("execution"@) == Some(execution),
        execution.get("result"@) is Some ==> approved_decision_body(
            approval_id,
            cited_operation,
            execution,
        ).get("result"@) == execution.get("result"@),
        execution.get("result"@) is None ==> approved_decision_body(
            approval_id,
            cited_operation,
            execution,
        ).get("result"@) == Some(JsonV::Null),
        execution.get("operation_id"@) is Some ==> approved_decision_body(
            approval_id,
            cited_operation,
            execution,
        ).get("target_operation_id"@) == execution.get("operation_id"@),
        execution.get("operation_id"@) is None ==> (filled(cited_operation) matches Some(o)
            ==> approved_decision_body(approval_id, cited_operation, execution).get(
            "target_operation_id"@,
        ) == Some(JsonV::Str(o))),
{
    reveal_strlit("approval_decision_applied");
    reveal_strlit("replayed");
    reveal_strlit("approval_id");
    reveal_strlit("decision");
    reveal_strlit("state");
    reveal_strlit("execution");
    reveal_strlit("result");
    reveal_strlit("target_operation_id");
    assert("approval_decision_applied"@.len() == 25 && "replayed"@.len() == 8 && "approval_id"@.len() == 11 && "decision"@.len() == 8 && "state"@.len() == 5 && "execution"@.len() == 9 && "result"@.len() == 6 && "target_operation_id"@.len() == 19);
    assert("replayed"@[0] != "decision"@[0]);
}

/// A decision runs under the name of who made it: the principal that the control plane
/// cites, or the recovery principal where it cites none. What is decided already is only
/// told again, a denial denies, also the target of a bridge, and an approval approves.
pub proof fn law_decisions_are_carried_out_as_made(
    plan: DecisionPlan,
    record: ApprovalRecord,
    key: Seq<char>,
    decision: Seq<char>,
    approver: Option<Seq<char>>,
)
    requires
        is_plan_for(plan, record, key, decision, approver),
    ensures
        plan.approval_id() == key,
        plan is Replay <==> record.state@ != "pending"@,
        plan is Approve <==> record.state@ == "pending"@ && decision != "deny"@,
        plan is DenyBridge <==> record.state@ == "pending"@ && decision == "deny"@
            && record.request is AdminApprovalBridge,
        plan is Deny <==> record.state@ == "pending"@ && decision == "deny"@ && !(
        record.request is AdminApprovalBridge),
        plan matches DecisionPlan::Approve { approver: by, .. } ==> (match approver {
            Some(p) => by@ == "user:control-plane:"@ + p,
            None => by@ == "user:control-plane-recovery"@,
        }),
        plan matches DecisionPlan::Deny { approver: by, .. } ==> (match approver {
            Some(p) => by@ == "user:control-plane:"@ + p,
            None => by@ == "user:control-plane-recovery"@,
        }),
        plan matches DecisionPlan::DenyBridge { approver: by, .. } ==> (match approver {
            Some(p) => by@ == "user:control-plane:"@ + p,
            None => by@ == "user:control-plane-recovery"@,
        }),
{
}

/// A decision is refused exactly where it is not what its bridge binds, cites another
/// operation, or, while the approval waits, comes after its expiry, cites no payload hash
/// or another one where one is bound, or cites another expiry.
pub proof fn law_decisions_keep_to_the_binding(
    record: ApprovalRecord,
    key: Seq<char>,
    decision: Seq<char>,
    operation: Option<Seq<char>>,
    cited_hash: Option<Seq<char>>,
    cited_expiry: Option<i64>,
    now: int,
)
    ensures
        judge_refusal(record, key, decision, operation, cited_hash, cited_expiry, now) is None <==> {
            &&& (record.request matches PendingRequest::AdminApprovalBridge(bridge)
                ==> bridge.decision@ == decision)
            &&& (operation matches Some(o) ==> record.operation_id@ == o)
            &&& record.state@ == "pending"@ ==> {
                &&& (record.expires_at_unix matches Some(exp) ==> now <= exp)
                &&& (record.target_payload_hash matches Some(bound) ==> (
                cited_hash matches Some(cited) && lower_text(bound@) == lower_text(cited)))
                &&& (record.expires_at_unix matches Some(exp) ==> (cited_expiry matches Some(cited)
                    ==> exp == cited))
            }
        },
        judge_refusal(
            record,
            key,
            decision,
            operation,
            cited_hash,
            cited_expiry,
            now,
        ) matches Some((code, _)) ==> code == ErrorCode::Unauthorized || code
            == ErrorCode::InvalidParams,
{
}

/// An approval is found by its identifier, or by its operation where it waits alone: a
/// cited identifier that is there is the one, several that wait are a conflict, and
/// without either nothing is found.
pub proof fn law_decisions_find_one_approval(
    approvals: Map<Seq<char>, ApprovalRecord>,
    id: Option<Seq<char>>,
    operation: Option<Seq<char>>,
    key: Seq<char>,
)
    ensures
        resolves(approvals, id, operation, key) ==> approvals.contains_key(key),
        id matches Some(i) ==> (approvals.contains_key(i) ==> (resolves(
            approvals,
            id,
            operation,
            key,
        ) <==> key == i)),
        id matches Some(i) ==> (!approvals.contains_key(i) && resolves(
            approvals,
            id,
            operation,
            key,
        ) ==> (operation matches Some(o) && approvals[key].operation_id@ == o
            && approvals[key].state@ == "pending"@)),
        id is None ==> (resolves(approvals, id, operation, key) ==> (operation matches Some(o)
            && approvals[key].operation_id@ == o && approvals[key].state@ == "pending"@
            && forall|other: Seq<char>| #[trigger]
            approvals.contains_key(other) && other != key ==> approvals[other].operation_id@ != o
                || approvals[other].state@ != "pending"@)),
        id is None && operation is None ==> (resolution_refusal(
            approvals,
            id,
            operation,
        ) matches Some((code, _)) && code == ErrorCode::InvalidParams),
        resolves(approvals, id, operation, key) ==> resolution_refusal(approvals, id, operation) is None,
        resolution_refusal(approvals, id, operation) matches Some((code, _)) ==> code
            == ErrorCode::InvalidParams || (code == ErrorCode::Conflict && id is None),
{
}

/// Only the words for approving and denying decide, in any case and with white space
/// around; the approval that is found is decided under the binding that is cited.
pub proof fn law_control_plane_decides_on_what_it_cites(
    r: Result<DecisionPlan, IpcError>,
    approvals: Map<Seq<char>, ApprovalRecord>,
    params: ControlPlaneDecision,
    now: int,
)
    requires
        decides(r, approvals, params, now),
    ensures
        r matches Ok(plan) ==> {
            let word = lower_text(trim(params.decision@));
            let record = approvals[plan.approval_id()];
            &&& word == "approve"@ || word == "deny"@
            &&& approvals.contains_key(plan.approval_id())
            &&& (plan is Approve ==> word == "approve"@)
            &&& (plan is Deny || plan is DenyBridge ==> word == "deny"@)
            &&& (filled(params.target_operation_id) matches Some(o) ==> record.operation_id@ == o)
            &&& (filled(params.approval_id) matches Some(i) ==> (approvals.contains_key(i)
                ==> plan.approval_id() == i))
            &&& (!(plan is Replay) ==> record.state@ == "pending"@ && (
            record.expires_at_unix matches Some(exp) ==> now <= exp))
        },
        lower_text(trim(params.decision@)) != "approve"@ && lower_text(trim(params.decision@))
            != "deny"@ ==> (r matches Err(e) && e.code == ErrorCode::InvalidParams),
{
    reveal_strlit("approve");
    reveal_strlit("deny");
}

} // verus!

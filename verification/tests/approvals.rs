use ownmeshd::approvals::{
    check_pending_request_lockdown, deny_answer, ensure_independent_human_approver,
    handle_approval_deny, request_idempotency_key, undo_decision, ApprovalRecord, Approvals,
    ApproverFacts, OperationFacts,
};
use ownmeshd::approve::{
    after_stage, approve_answer, bridge_deny_answer, bridge_target, deny_approval_bridge,
    execute_approval_bridge, grant_expiry, granted_scope, handle_approval_approve, mark_approved,
    mark_executing, with_rollback_errors, ApproveNext, ApproveStage,
};
use ownmeshd::control_plane::{
    apply_control_plane_approval_decision, approved_decision_answer, denied_decision_answer,
    ControlPlaneDecision, DecisionPlan,
};
use ownmeshd::dispatch::RemoteBinding;
use ownmeshd::error::{ErrorCode, IpcError};
use ownmeshd::gate::{
    after_run_stage, allow_answer, apply_delegation, ask_answer, bind_tool, decision_event,
    enqueue, execute_request, gate_and_run, operation_id_for, policy_principal, replay_receipt,
    undo_enqueue, GateAction, RunEvent, RunStage,
};
use ownmeshd::grants::{
    consume_bounded_grant_use, execute_admin_grants_mint, handle_grants_list,
    handle_grants_revoke, handle_grants_show, restore_grant_use, undo_revoke,
    validate_admin_idempotency_key, BoundedToolGrant, GrantLimits, PolicyVerdict, StoredGrant,
    TemporaryGrant,
};
use ownmeshd::json::{Json, JsonObject};
use ownmeshd::params::{
    AdminApprovalBridgeParams, AdminDaemonUnlockParams, AdminGrantsMintParams,
    AdminTokenRevokeParams, Decision, FsDeleteParams, FsStatParams, PendingRequest,
    SystemDiagnoseParams,
};
use ownmeshd::workspace::default_workspace;

const NOW: i64 = 1_800_000_000;
const HUMAN: &str = "user:alice";

fn request() -> PendingRequest {
    PendingRequest::FsDelete(FsDeleteParams {
        path: "a.txt".to_string(),
        recursive: false,
        workspace_id: Some("ws_default".to_string()),
        idempotency_key: Some("key-1".to_string()),
    })
}

fn stat() -> PendingRequest {
    PendingRequest::FsStat(FsStatParams {
        path: "a.txt".to_string(),
        hash: false,
        workspace_id: None,
        idempotency_key: None,
    })
}

fn unlock() -> PendingRequest {
    PendingRequest::AdminDaemonUnlock(AdminDaemonUnlockParams {
        idempotency_key: "unlock-1".to_string(),
    })
}

fn bridge(decision: &str) -> AdminApprovalBridgeParams {
    AdminApprovalBridgeParams {
        approval_id: "apr_1".to_string(),
        decision: decision.to_string(),
        temporary_grant: false,
        grant_seconds: None,
        idempotency_key: "bridge-1".to_string(),
    }
}

fn facts() -> OperationFacts {
    OperationFacts {
        capability: "filesystem.write".to_string(),
        kind: "file".to_string(),
        program: None,
        path: Some("a.txt".to_string()),
        elevated: false,
        workspace_relative: true,
        workspace_id: Some("ws_default".to_string()),
        tags: Vec::new(),
        tool: None,
        executable_identity: None,
        invocation_identity: None,
    }
}

fn record(id: &str, request: PendingRequest) -> ApprovalRecord {
    ApprovalRecord {
        id: id.to_string(),
        operation_id: format!("op_of_{id}"),
        capability: "filesystem.write".to_string(),
        state: "pending".to_string(),
        reason: "ask".to_string(),
        created_at_unix: NOW - 10,
        decided_at_unix: None,
        expires_at_unix: None,
        target_payload_hash: None,
        matched_rule_id: None,
        requester_principal: "client:remote:t:p".to_string(),
        facts: Some(facts()),
        request,
        result: None,
        decided_by_principal: None,
    }
}

fn holding(records: Vec<ApprovalRecord>) -> Approvals {
    let mut approvals = Approvals::new();
    for r in records {
        assert!(enqueue(&mut approvals, r).is_none());
    }
    approvals
}

fn human() -> ApproverFacts {
    ApproverFacts {
        approver_is_human: true,
        approver_is_credentialed: false,
        requester_is_credentialed: true,
    }
}

fn verdict(decision: Decision) -> PolicyVerdict {
    PolicyVerdict {
        decision,
        matched_rule_id: Some("rule".to_string()),
        reason: "because".to_string(),
    }
}

fn bound() -> RemoteBinding {
    RemoteBinding::bind(
        Some("op_remote".to_string()),
        Some(NOW + 60),
        Some("ab".repeat(32)),
        Some("dev_a".to_string()),
        "client:remote:t:p",
        Some(1),
    )
}

#[test]
fn only_independent_humans_decide() {
    assert!(ensure_independent_human_approver(HUMAN, "client:x", human()).is_ok());
    let e = ensure_independent_human_approver(HUMAN, HUMAN, human()).unwrap_err();
    assert_eq!(
        e.to_text(),
        "operation creator cannot self-approve; independent human principal required"
    );
    let local = ApproverFacts { requester_is_credentialed: false, ..human() };
    assert!(ensure_independent_human_approver(HUMAN, HUMAN, local).is_ok());
    for (who, facts) in [
        ("", human()),
        ("client:x", ApproverFacts { approver_is_human: false, ..human() }),
        (HUMAN, ApproverFacts { approver_is_credentialed: true, ..human() }),
    ] {
        let e = ensure_independent_human_approver(who, "r", facts).unwrap_err();
        assert_eq!(e.code, ErrorCode::Unauthorized);
        assert!(e.to_text().contains("independently authenticated human OS principal"));
    }
}

#[test]
fn lockdown_lets_only_unlock_and_diagnosis_run() {
    let diagnose = PendingRequest::SystemDiagnose(SystemDiagnoseParams {
        workspace_id: None,
        idempotency_key: None,
    });
    assert!(check_pending_request_lockdown(true, &unlock()).is_ok());
    assert!(check_pending_request_lockdown(true, &diagnose).is_ok());
    assert_eq!(
        check_pending_request_lockdown(true, &request()).unwrap_err().code,
        ErrorCode::Lockdown
    );
    assert_eq!(
        check_pending_request_lockdown(false, &unlock()).unwrap_err().code,
        ErrorCode::Conflict
    );
    assert!(check_pending_request_lockdown(false, &request()).is_ok());
    assert_eq!(execute_request(false, &unlock()).unwrap_err().code, ErrorCode::Conflict);
    let bridged = PendingRequest::AdminApprovalBridge(bridge("deny"));
    assert_eq!(execute_request(false, &bridged).unwrap_err().code, ErrorCode::Internal);
    assert!(execute_request(false, &request()).is_ok());
    assert_eq!(request_idempotency_key(&request()).as_deref(), Some("key-1"));
    assert_eq!(request_idempotency_key(&stat()), None);
}

#[test]
fn denial_is_recorded_and_can_be_taken_back() {
    let mut approvals = holding(vec![record("apr_1", request())]);
    let undo = handle_approval_deny(&mut approvals, "apr_1", HUMAN, human(), NOW).unwrap();
    let denied = approvals.get("apr_1").unwrap();
    assert_eq!(denied.state, "denied");
    assert_eq!(denied.decided_at_unix, Some(NOW));
    assert_eq!(denied.decided_by_principal.as_deref(), Some(HUMAN));
    let e = handle_approval_deny(&mut approvals, "apr_1", HUMAN, human(), NOW).unwrap_err();
    assert_eq!(e.to_text(), "approval already denied");
    undo_decision(&mut approvals, undo);
    let back = approvals.get("apr_1").unwrap();
    assert_eq!(back.state, "pending");
    assert_eq!(back.decided_at_unix, None);
    assert_eq!(back.decided_by_principal, None);
    let e = handle_approval_deny(&mut approvals, "apr_2", HUMAN, human(), NOW).unwrap_err();
    assert_eq!(e.to_text(), "approval not found: apr_2");
    let body = deny_answer("apr_1", "op_1");
    assert_eq!(body.get_str("state"), Some("denied"));
    assert_eq!(body.get_str("operation_id"), Some("op_1"));
}

#[test]
fn approval_gives_a_ticket_for_what_was_deferred() {
    let approvals = holding(vec![record("apr_1", request())]);
    let ticket =
        handle_approval_approve(&approvals, "apr_1", HUMAN, human(), "", true, false).unwrap();
    assert_eq!(ticket.operation_id, "op_of_apr_1");
    assert_eq!(ticket.capability, "filesystem.write");
    assert_eq!(ticket.grant_principal, "client:remote:t:p");
    assert_eq!(ticket.journal_key.as_deref(), Some("client:remote:t:p\u{1f}key-1"));
    assert!(!ticket.is_bridge);
    let e = handle_approval_approve(&approvals, "apr_1", HUMAN, human(), "", false, true).unwrap_err();
    assert_eq!(e.code, ErrorCode::Lockdown);
}

#[test]
fn approvals_that_may_not_be_carried_out() {
    let mut other = record("apr_2", request());
    other.facts = Some(OperationFacts { capability: "logs.read".to_string(), ..facts() });
    let mut bare = record("apr_3", request());
    bare.facts = None;
    let revoke = PendingRequest::AdminTokenRevoke(AdminTokenRevokeParams {
        principal: "client:remote:t:p".to_string(),
        idempotency_key: "revoke-1".to_string(),
    });
    let approvals = holding(vec![
        record("apr_1", unlock()),
        other,
        bare,
        record("apr_4", revoke),
    ]);
    let refused = |id: &str, target: &str, grant: bool| {
        handle_approval_approve(&approvals, id, HUMAN, human(), target, grant, false)
            .unwrap_err()
            .to_text()
    };
    assert_eq!(
        refused("apr_1", "", true),
        "temporary grants are not supported for admin or approval-bridge actions"
    );
    assert_eq!(
        refused("apr_2", "", true),
        "temporary grant capability does not match server approval facts"
    );
    assert_eq!(refused("apr_3", "", true), "temporary grant requires server approval facts");
    assert_eq!(
        refused("apr_4", "client:remote:t:p", false),
        "cannot revoke the principal that authorized this request"
    );
    assert_eq!(refused("apr_9", "", false), "approval not found: apr_9");
}

#[test]
fn stages_of_an_approval() {
    let marked = after_stage(ApproveStage::MarkExecuting, true, false, true);
    assert_eq!(marked, ApproveNext::Continue(ApproveStage::Reserve));
    let granted = after_stage(ApproveStage::Reserve, true, true, true);
    assert_eq!(granted, ApproveNext::Continue(ApproveStage::StoreGrant));
    let plain = after_stage(ApproveStage::Reserve, true, false, true);
    assert_eq!(plain, ApproveNext::Continue(ApproveStage::Execute));
    assert_eq!(
        after_stage(ApproveStage::Execute, true, false, true),
        ApproveNext::Continue(ApproveStage::StoreReceipt)
    );
    assert_eq!(
        after_stage(ApproveStage::StoreReceipt, true, false, true),
        ApproveNext::Continue(ApproveStage::MarkApproved)
    );
    assert_eq!(
        after_stage(ApproveStage::MarkApproved, true, false, true),
        ApproveNext::Continue(ApproveStage::Done)
    );
    assert!(!matches!(
        after_stage(ApproveStage::Execute, false, false, true),
        ApproveNext::Continue(_)
    ));
    assert!(matches!(
        after_stage(ApproveStage::StoreGrant, false, true, true),
        ApproveNext::Compensate { rewrite_journal: true, rewrite_approvals: true }
    ));
    assert_eq!(grant_expiry(NOW, None), NOW + 3600);
    assert_eq!(grant_expiry(NOW, Some(5)), NOW + 5);
    assert_eq!(grant_expiry(i64::MAX, Some(5)), i64::MAX);
}

#[test]
fn approved_records_hold_their_result() {
    let mut approvals = holding(vec![record("apr_1", request())]);
    let undo = mark_executing(&mut approvals, "apr_1", NOW);
    assert_eq!(approvals.get("apr_1").unwrap().state, "executing");
    undo_decision(&mut approvals, undo);
    assert_eq!(approvals.get("apr_1").unwrap().state, "pending");
    let _ = mark_executing(&mut approvals, "apr_1", NOW);
    let body = approve_answer("op_1", "apr_1", Json::Bool(true), None);
    assert_eq!(body.get_str("reason"), Some("human approved"));
    assert!(body.get("grant").is_none());
    let _ = mark_approved(&mut approvals, "apr_1", &body, HUMAN);
    let r = approvals.get("apr_1").unwrap();
    assert_eq!(r.state, "approved");
    assert_eq!(r.decided_by_principal.as_deref(), Some(HUMAN));
    assert_eq!(r.result.as_ref().unwrap().get_str("decision"), Some("allow"));

    let scope = granted_scope(&TemporaryGrant {
        id: "grant_1".to_string(),
        capability: "c".to_string(),
        principal_id: "p".to_string(),
        path_prefix: None,
        workspace_id: Some("ws_default".to_string()),
        expires_unix: NOW,
    });
    assert_eq!(scope.get_i64("expires_at_unix"), Some(NOW));
    assert_eq!(scope.get_str("workspace_id"), Some("ws_default"));
}

#[test]
fn bridges_decide_only_pending_local_requests() {
    let mut expired = record("apr_2", request());
    expired.expires_at_unix = Some(NOW - 1);
    let mut remote = record("apr_3", request());
    remote.target_payload_hash = Some("ab".repeat(32));
    assert!(bridge_target(&record("apr_1", request()), NOW));
    assert!(!bridge_target(&expired, NOW));
    assert!(!bridge_target(&remote, NOW));
    assert!(!bridge_target(&record("apr_4", unlock()), NOW));

    let approvals = holding(vec![record("apr_1", request())]);
    let run = |approvals: &Approvals, lockdown| {
        execute_approval_bridge(approvals, &bridge("approve"), HUMAN, human(), lockdown, NOW)
    };
    assert!(run(&approvals, false).is_ok());
    assert_eq!(run(&approvals, true).unwrap_err().code, ErrorCode::Lockdown);
    assert_eq!(
        run(&Approvals::new(), false).unwrap_err().to_text(),
        "local approval not found: apr_1"
    );
    let admin = holding(vec![record("apr_1", unlock())]);
    assert_eq!(
        run(&admin, false).unwrap_err().to_text(),
        "target local approval is no longer pending and eligible"
    );
}

#[test]
fn denying_a_bridge_denies_its_target() {
    let bridged = PendingRequest::AdminApprovalBridge(bridge("deny"));
    let mut approvals = holding(vec![record("apr_1", request()), record("apr_b", bridged)]);
    let (first, second) = deny_approval_bridge(
        &mut approvals,
        "apr_b",
        &bridge("deny"),
        HUMAN,
        human(),
        human(),
        NOW,
    )
    .unwrap();
    assert_eq!(approvals.get("apr_b").unwrap().state, "denied");
    assert_eq!(approvals.get("apr_1").unwrap().state, "denied");
    let again = deny_approval_bridge(
        &mut approvals,
        "apr_b",
        &bridge("deny"),
        HUMAN,
        human(),
        human(),
        NOW,
    );
    assert_eq!(
        again.unwrap_err().to_text(),
        "approval bridge or target was already decided"
    );
    undo_decision(&mut approvals, second);
    undo_decision(&mut approvals, first.unwrap());
    assert_eq!(approvals.get("apr_b").unwrap().state, "pending");
    assert_eq!(approvals.get("apr_1").unwrap().state, "pending");
    let body = bridge_deny_answer("apr_b", "apr_1", "op_1");
    assert_eq!(body.get_str("target_approval_id"), Some("apr_1"));
    let e = with_rollback_errors(
        IpcError::new(ErrorCode::Internal, "first"),
        &vec![
            IpcError::new(ErrorCode::Internal, "a"),
            IpcError::new(ErrorCode::Internal, "b"),
        ],
    );
    assert_eq!(e.to_text(), "first; rollback persistence also failed: a; b");
    let e = with_rollback_errors(IpcError::new(ErrorCode::Conflict, "first"), &vec![]);
    assert_eq!(e.to_text(), "first");
}

fn decision(text: &str) -> ControlPlaneDecision {
    ControlPlaneDecision {
        approval_id: Some("apr_1".to_string()),
        target_operation_id: None,
        decision: text.to_string(),
        target_payload_hash: Some("AB".repeat(32)),
        target_expires_unix: None,
        approver_principal: Some("p1".to_string()),
    }
}

fn deferred() -> ApprovalRecord {
    let mut r = record("apr_1", request());
    r.expires_at_unix = Some(NOW + 5);
    r.target_payload_hash = Some("ab".repeat(32));
    r
}

fn refused(approvals: &Approvals, d: ControlPlaneDecision, now: i64) -> String {
    apply_control_plane_approval_decision(approvals, &d, now).unwrap_err().to_text()
}

#[test]
fn control_plane_decisions_are_carried_out_once() {
    let approvals = holding(vec![deferred()]);
    match apply_control_plane_approval_decision(&approvals, &decision(" Approve "), NOW).unwrap() {
        DecisionPlan::Approve { approval_id, approver } => {
            assert_eq!(approval_id, "apr_1");
            assert_eq!(approver, "user:control-plane:p1");
        }
        other => panic!("unexpected plan {other:?}"),
    }
    let mut anonymous = decision("deny");
    anonymous.approver_principal = None;
    match apply_control_plane_approval_decision(&approvals, &anonymous, NOW).unwrap() {
        DecisionPlan::Deny { approver, .. } => assert_eq!(approver, "user:control-plane-recovery"),
        other => panic!("unexpected plan {other:?}"),
    }
    let mut done = deferred();
    done.state = "approved".to_string();
    done.expires_at_unix = Some(NOW - 5);
    let approvals = holding(vec![done]);
    match apply_control_plane_approval_decision(&approvals, &decision("approve"), NOW).unwrap() {
        DecisionPlan::Replay { body, .. } => {
            assert_eq!(body.get_bool("replayed"), Some(true));
            assert_eq!(body.get_str("state"), Some("approved"));
        }
        other => panic!("unexpected plan {other:?}"),
    }
}

#[test]
fn control_plane_decisions_cite_what_was_deferred() {
    let approvals = holding(vec![deferred()]);
    assert_eq!(refused(&approvals, decision("maybe"), NOW), "decision must be approve or deny");
    assert_eq!(
        refused(&approvals, decision("deny"), NOW + 6),
        format!("approval apr_1 expired at unix {}; re-authorize the original action", NOW + 5)
    );
    let mut d = decision("deny");
    d.target_payload_hash = Some("cd".repeat(32));
    assert_eq!(
        refused(&approvals, d, NOW),
        "target_payload_hash does not match deferred approval binding"
    );
    let mut d = decision("deny");
    d.target_payload_hash = None;
    assert_eq!(
        refused(&approvals, d, NOW),
        "target_payload_hash required for bound recovery approval"
    );
    let mut d = decision("deny");
    d.target_expires_unix = Some(NOW);
    assert_eq!(
        refused(&approvals, d, NOW),
        "target_expires_at does not match deferred approval binding"
    );
    let mut d = decision("deny");
    d.target_operation_id = Some("op_x".to_string());
    assert_eq!(
        refused(&approvals, d, NOW),
        "target_operation_id op_x does not match approval op_of_apr_1"
    );
}

#[test]
fn control_plane_decisions_find_one_approval() {
    let mut twin = deferred();
    twin.id = "apr_2".to_string();
    let approvals = holding(vec![deferred(), twin]);
    let mut d = decision("deny");
    d.approval_id = None;
    d.target_operation_id = Some("op_of_apr_1".to_string());
    assert_eq!(
        refused(&approvals, d, NOW),
        "multiple pending approvals for operation op_of_apr_1; supply approval_id"
    );
    let mut d = decision("deny");
    d.approval_id = Some("apr_9".to_string());
    assert_eq!(refused(&approvals, d, NOW), "approval not found: apr_9");
    let mut d = decision("deny");
    d.approval_id = None;
    d.target_operation_id = Some("op_x".to_string());
    assert_eq!(refused(&approvals, d, NOW), "no pending approval for operation op_x");
    let mut d = decision("deny");
    d.approval_id = None;
    assert_eq!(
        refused(&approvals, d, NOW),
        "approval_id or target_operation_id required"
    );
}

#[test]
fn bridge_decisions_follow_their_intent() {
    let mut waiting = record("apr_1", PendingRequest::AdminApprovalBridge(bridge("deny")));
    waiting.target_payload_hash = Some("ab".repeat(32));
    let approvals = holding(vec![waiting]);
    assert_eq!(
        refused(&approvals, decision("approve"), NOW),
        "approval decision does not match bound bridge intent (deny)"
    );
    assert!(matches!(
        apply_control_plane_approval_decision(&approvals, &decision("deny"), NOW),
        Ok(DecisionPlan::DenyBridge { .. })
    ));
    let body = denied_decision_answer("apr_1", "op_1", Json::Null);
    assert_eq!(body.get_str("state"), Some("denied"));
    let mut execution = JsonObject::new();
    execution.put("operation_id", Json::text("op_2"));
    let body = approved_decision_answer("apr_1", &None, &Json::Object(execution));
    assert_eq!(body.get_str("state"), Some("approved"));
    assert_eq!(body.get_str("target_operation_id"), Some("op_2"));
}

#[test]
fn requests_are_refused_deferred_or_run() {
    let decide = |d, request, degraded: Option<&str>| {
        gate_and_run(
            &verdict(d),
            facts(),
            request,
            "op_1",
            "client:remote:t:p",
            &bound(),
            &degraded.map(|s| s.to_string()),
            NOW,
        )
    };
    match decide(Decision::Deny, request(), None) {
        GateAction::Refuse(e) => {
            assert_eq!(e.code, ErrorCode::PolicyDenied);
            assert_eq!(e.to_text(), "policy denied: because");
        }
        other => panic!("unexpected action {other:?}"),
    }
    match decide(Decision::Ask, request(), None) {
        GateAction::Enqueue(r) => {
            assert!(r.id.starts_with("apr_"));
            assert_eq!(r.state, "pending");
            assert_eq!(r.expires_at_unix, Some(NOW + 60));
            assert_eq!(r.target_payload_hash, Some("ab".repeat(32)));
            assert_eq!(r.requester_principal, "client:remote:t:p");
            let body = ask_answer("op_1", &r.id, &r.reason, &r.matched_rule_id);
            assert_eq!(body.get_str("matched_rule_id"), Some("rule"));
            assert_eq!(body.get_bool("approval_required"), Some(true));
        }
        other => panic!("unexpected action {other:?}"),
    }
    assert!(matches!(decide(Decision::Allow, request(), None), GateAction::Run(_)));
    assert!(matches!(
        decide(Decision::Allow, stat(), Some("bad")),
        GateAction::RunUnjournaled(_)
    ));
    for d in [Decision::Allow, Decision::Ask] {
        match decide(d, request(), Some("bad")) {
            GateAction::Refuse(e) => assert_eq!(e.code, ErrorCode::Conflict),
            other => panic!("unexpected action {other:?}"),
        }
    }
    let body = allow_answer("op_1", Json::Null, "because");
    assert_eq!(body.get_str("decision"), Some("allow"));
}

#[test]
fn delegation_lifts_only_asks_of_bound_remote_actions() {
    let lifted = apply_delegation(verdict(Decision::Ask), true, &bound(), NOW);
    assert_eq!(lifted.decision, Decision::Allow);
    assert_eq!(lifted.reason, "because; remote MCP delegation configured");
    for (d, on, binding, now) in [
        (Decision::Deny, true, bound(), NOW),
        (Decision::Ask, false, bound(), NOW),
        (Decision::Ask, true, RemoteBinding::none(), NOW),
        (Decision::Ask, true, bound(), NOW + 61),
    ] {
        let after = apply_delegation(verdict(d), on, &binding, now);
        assert_eq!(after.decision, d);
        assert_eq!(after.reason, "because");
    }
    assert_eq!(operation_id_for(&bound()), "op_remote");
    assert!(operation_id_for(&RemoteBinding::none()).starts_with("op_"));
    assert_eq!(policy_principal("  "), "prin_local");
    assert_eq!(policy_principal("client:x"), "client:x");
    assert!(bind_tool(facts(), &request()).tool.is_some());
}

#[test]
fn receipts_are_replayed_and_never_run_again() {
    let mut ok = JsonObject::new();
    ok.put("operation_id", Json::text("op_1"));
    let body = replay_receipt(&Json::Object(ok)).unwrap();
    assert_eq!(body.get_bool("replayed"), Some(true));
    assert_eq!(body.get_str("operation_id"), Some("op_1"));
    let mut error = JsonObject::new();
    error.put("code", Json::Integer(-32010));
    error.put("message", Json::text("boom"));
    let mut failed = JsonObject::new();
    failed.put("status", Json::text("failed"));
    failed.put("error", Json::Object(error));
    let e = replay_receipt(&Json::Object(failed)).unwrap_err();
    assert_eq!(e.code, ErrorCode::Stored(-32010));
    assert_eq!(e.to_text(), "boom");
    let mut bare = JsonObject::new();
    bare.put("status", Json::text("failed"));
    let e = replay_receipt(&Json::Object(bare)).unwrap_err();
    assert_eq!(e.code, ErrorCode::Internal);
    assert_eq!(e.to_text(), "operation previously failed");
    let next = after_run_stage;
    let found = |failed| next(RunStage::Lookup, RunEvent::Receipt { failed });
    assert_eq!(found(false), RunStage::Answer);
    assert_eq!(found(true), RunStage::Fail);
    assert_eq!(next(RunStage::Lookup, RunEvent::NoReceipt), RunStage::Evaluate);
    assert_eq!(
        next(RunStage::Evaluate, RunEvent::Judged { counted: true }),
        RunStage::StoreUse
    );
    assert_eq!(next(RunStage::Decide, RunEvent::Refused), RunStage::Fail);
    assert_eq!(next(RunStage::Decide, RunEvent::Deferred), RunStage::StoreApproval);
    assert_eq!(next(RunStage::Reserve, RunEvent::Done), RunStage::Execute);
    assert_eq!(next(RunStage::Reserve, RunEvent::Failed), RunStage::Fail);
    assert_eq!(next(RunStage::Execute, RunEvent::Failed), RunStage::StoreFailure);
    assert_eq!(next(RunStage::Execute, RunEvent::Uncertain), RunStage::Fail);
    assert_eq!(next(RunStage::StoreFailure, RunEvent::Done), RunStage::Fail);
    assert_eq!(next(RunStage::StoreReceipt, RunEvent::Done), RunStage::Answer);
    let refused = GateAction::Refuse(IpcError::new(ErrorCode::PolicyDenied, "no"));
    assert_eq!(decision_event(&refused), RunEvent::Refused);
    assert_eq!(decision_event(&GateAction::Run(request())), RunEvent::Admitted);
}

#[test]
fn undone_enqueue_restores_the_approvals() {
    let mut approvals = holding(vec![record("apr_1", request())]);
    let mut second = record("apr_1", unlock());
    second.reason = "second".to_string();
    let displaced = enqueue(&mut approvals, second);
    assert_eq!(approvals.get("apr_1").unwrap().reason, "second");
    undo_enqueue(&mut approvals, "apr_1", displaced);
    assert_eq!(approvals.get("apr_1").unwrap().reason, "ask");
    undo_enqueue(&mut approvals, "apr_1", None);
    assert_eq!(approvals.len(), 0);
}

fn tool_grant(id: &str, max_uses: Option<u32>, uses: u32) -> StoredGrant {
    StoredGrant::BoundedTool(BoundedToolGrant {
        id: id.to_string(),
        principal_id: "p".to_string(),
        device_id: "dev_a".to_string(),
        tools: vec!["fs_read".to_string()],
        workspace_id: None,
        expires_unix: NOW + 60,
        max_uses,
        uses,
        minted_at_unix: NOW,
    })
}

fn uses_of(grant: &StoredGrant) -> u32 {
    match grant {
        StoredGrant::BoundedTool(g) => g.uses,
        StoredGrant::Temporary(_) => panic!("not a tool grant"),
    }
}

#[test]
fn grant_uses_are_counted_and_given_back() {
    let mut grants = vec![tool_grant("grant_1", Some(2), 1)];
    let mut used = verdict(Decision::Allow);
    used.matched_rule_id = Some("grant_1".to_string());
    let (at, before) = consume_bounded_grant_use(&mut grants, &used).unwrap();
    assert_eq!((at, before), (0, 1));
    assert_eq!(uses_of(&grants[0]), 2);
    restore_grant_use(&mut grants, at, before);
    assert_eq!(uses_of(&grants[0]), 1);
    assert!(consume_bounded_grant_use(&mut grants, &verdict(Decision::Allow)).is_none());
    used.decision = Decision::Ask;
    assert!(consume_bounded_grant_use(&mut grants, &used).is_none());
}

#[test]
fn grants_are_listed_shown_and_revoked() {
    let mut grants = vec![tool_grant("grant_1", None, 0), tool_grant("grant_2", None, 0)];
    assert_eq!(handle_grants_show(&grants, "grant_2").unwrap(), 1);
    assert_eq!(
        handle_grants_show(&grants, "x").unwrap_err().to_text(),
        "grant not found: x"
    );
    let (temporary, bounded) = handle_grants_list(&grants);
    assert_eq!(temporary + bounded, 2);
    let removed = handle_grants_revoke(&mut grants, "grant_1").unwrap();
    assert_eq!(grants.len(), 1);
    undo_revoke(&mut grants, removed);
    assert_eq!(grants[0].id(), "grant_1");
    assert_eq!(grants[1].id(), "grant_2");
    assert!(handle_grants_revoke(&mut grants, "x").is_err());
}

fn mint() -> AdminGrantsMintParams {
    AdminGrantsMintParams {
        tools: vec!["a".to_string(), "b".to_string(), "a".to_string()],
        ttl_seconds: 60,
        max_uses: Some(3),
        workspace_id: Some("ws_default".to_string()),
        idempotency_key: "mint-1".to_string(),
        principal_id: Some("client:remote:t:p".to_string()),
        device_id: Some("dev_a".to_string()),
    }
}

fn minted(p: AdminGrantsMintParams, names: [Option<&str>; 3]) -> Result<BoundedToolGrant, String> {
    let canonical = names.iter().map(|n| n.map(|s| s.to_string())).collect();
    let limits = GrantLimits { max_ttl_seconds: 3600, max_uses: 10 };
    let workspaces = vec![default_workspace("/ws")];
    execute_admin_grants_mint(&p, &canonical, limits, &workspaces, NOW).map_err(|e| e.to_text())
}

#[test]
fn minted_grants_are_bounded() {
    let names = [Some("ops.a"), Some("ops.b"), Some("ops.a")];
    let grant = minted(mint(), names).unwrap();
    assert!(grant.id.starts_with("grant_"));
    assert_eq!(grant.tools, vec!["ops.a".to_string(), "ops.b".to_string()]);
    assert_eq!(grant.expires_unix, NOW + 60);
    assert_eq!((grant.max_uses, grant.uses), (Some(3), 0));
    for ttl_seconds in [0, 3601] {
        let p = AdminGrantsMintParams { ttl_seconds, ..mint() };
        assert_eq!(minted(p, names).unwrap_err(), "ttl_seconds must be 1..=3600");
    }
    for uses in [0, 11] {
        let p = AdminGrantsMintParams { max_uses: Some(uses), ..mint() };
        assert_eq!(minted(p, names).unwrap_err(), "max_uses must be 1..=10");
    }
    assert_eq!(
        minted(mint(), [Some("ops.a"), None, None]).unwrap_err(),
        "unsupported or wildcard tool b"
    );
    let p = AdminGrantsMintParams { principal_id: None, ..mint() };
    assert!(minted(p, names).unwrap_err().contains("verified remote principal"));
    let p = AdminGrantsMintParams { device_id: Some(" ".to_string()), ..mint() };
    assert!(minted(p, names).unwrap_err().contains("verified device id"));
    let p = AdminGrantsMintParams { workspace_id: Some("ws_gone".to_string()), ..mint() };
    assert!(minted(p, names).is_err());
    assert!(validate_admin_idempotency_key("k").is_ok());
    for bad in ["", " k", "a\u{7}b"] {
        assert!(validate_admin_idempotency_key(bad).is_err());
    }
    assert!(validate_admin_idempotency_key(&"k".repeat(257)).is_err());
}

use ownmeshd::admin::{
    approval_target_preview, check_unlock_request, execute_admin_policy_rule_add,
    execute_admin_policy_rule_remove, handle_policy_preset, policy_from_file, AdminEnqueue,
    PolicyState,
};
use ownmeshd::admin_requests::{
    bridge_answer, handle_admin_approval_bridge_request, handle_admin_grants_mint_request,
    handle_admin_policy_preset_request, handle_admin_policy_rule_add_request,
    handle_admin_policy_rule_remove_request, handle_admin_token_revoke_request,
    handle_admin_unlock_request, AdminCaller,
};
use ownmeshd::approvals::{ApprovalRecord, Approvals, OperationFacts};
use ownmeshd::dispatch::RemoteBinding;
use ownmeshd::error::{ErrorCode, IpcError};
use ownmeshd::gate::enqueue;
use ownmeshd::params::{
    AccessPreset, AdminApprovalBridgeParams, AdminDaemonUnlockParams, AdminGrantsMintParams,
    AdminPolicyPresetParams, AdminPolicyRuleAddParams, AdminPolicyRuleRemoveParams,
    AdminTokenRevokeParams, Decision, FsDeleteParams, PendingRequest,
};

const NOW: i64 = 1_800_000_000;
const REQUESTER: &str = "client:remote:t:p";

fn binding() -> RemoteBinding {
    RemoteBinding::bind(
        Some("op_admin".to_string()),
        Some(NOW + 60),
        Some("AB".repeat(32)),
        Some("dev_a".to_string()),
        REQUESTER,
        Some(1),
    )
}

fn caller(binding: &RemoteBinding) -> AdminCaller<'_> {
    AdminCaller { binding, requester: REQUESTER, now: NOW }
}

fn preset(name: &str) -> AdminPolicyPresetParams {
    AdminPolicyPresetParams {
        name: name.to_string(),
        delegate_remote_mcp: None,
        idempotency_key: "preset-1".to_string(),
    }
}

fn ask_preset(approvals: &mut Approvals, b: &RemoteBinding, name: &str) -> Result<AdminEnqueue, IpcError> {
    handle_admin_policy_preset_request(approvals, preset(name), caller(b))
}

fn only(approvals: &Approvals) -> &ApprovalRecord {
    assert_eq!(approvals.len(), 1);
    approvals.value_at(0)
}

fn state(preset: AccessPreset) -> PolicyState {
    PolicyState {
        preset,
        custom_rules: Vec::new(),
        delegate_remote_mcp: true,
        enforce_workspace: true,
    }
}

fn rule(id: &str) -> AdminPolicyRuleAddParams {
    AdminPolicyRuleAddParams {
        id: id.to_string(),
        decision: Decision::Deny,
        capability: "logs.read".to_string(),
        priority: 5,
        when_elevated: None,
        when_kind: None,
        path_prefix: None,
        program_equals: None,
        description: None,
        idempotency_key: "rule-1".to_string(),
    }
}

#[test]
fn admin_requests_wait_for_a_decision_and_are_taken_up_once() {
    let mut approvals = Approvals::new();
    match ask_preset(&mut approvals, &binding(), "full_access").unwrap() {
        AdminEnqueue::Enqueued { approval_id, displaced, body } => {
            assert!(displaced.is_none());
            assert_eq!(body.get_str("approval_id"), Some(approval_id.as_str()));
            assert_eq!(body.get_bool("replayed"), Some(false));
        }
        other => panic!("unexpected {other:?}"),
    }
    let r = only(&approvals);
    assert_eq!(r.capability, "admin.policy.preset");
    assert_eq!(r.state, "pending");
    assert_eq!(r.operation_id, "op_admin");
    assert_eq!(r.target_payload_hash, Some("ab".repeat(32)));
    assert_eq!(r.expires_at_unix, Some(NOW + 60));
    assert_eq!(r.facts.as_ref().unwrap().kind, "admin");
    match ask_preset(&mut approvals, &binding(), "full_access").unwrap() {
        AdminEnqueue::Replayed(body) => assert_eq!(body.get_bool("replayed"), Some(true)),
        other => panic!("unexpected {other:?}"),
    }
    assert_eq!(approvals.len(), 1);
    let mut other = binding();
    other.payload_hash = Some("cd".repeat(32));
    let e = ask_preset(&mut approvals, &other, "full_access").unwrap_err();
    assert_eq!(e.code, ErrorCode::Conflict);
    assert_eq!(approvals.len(), 1);
}

#[test]
fn admin_requests_need_the_whole_binding() {
    let cases: Vec<(RemoteBinding, &str)> = vec![
        (
            RemoteBinding { operation_id: Some(" ".to_string()), ..binding() },
            "admin request requires an exact-bound control-plane operation",
        ),
        (
            RemoteBinding { payload_hash: Some("xy".repeat(32)), ..binding() },
            "admin request requires a verified payload hash",
        ),
        (
            RemoteBinding { expires_at_unix: Some(NOW - 1), ..binding() },
            "admin request authorization is missing or expired",
        ),
        (
            RemoteBinding { principal_credential_generation: None, ..binding() },
            "admin request lacks verified device or credential-generation binding",
        ),
        (
            RemoteBinding { principal: Some("other".to_string()), ..binding() },
            "admin requester does not match the verified remote principal",
        ),
    ];
    for (b, message) in cases {
        let mut approvals = Approvals::new();
        let e = ask_preset(&mut approvals, &b, "full_access").unwrap_err();
        assert_eq!(e.code, ErrorCode::Unauthorized);
        assert_eq!(e.to_text(), message);
        assert_eq!(approvals.len(), 0);
    }
}

#[test]
fn presets_are_selected_by_their_canonical_name() {
    let mut approvals = Approvals::new();
    let e = ask_preset(&mut approvals, &binding(), "nope").unwrap_err();
    assert_eq!(e.to_text(), "unknown preset: nope");
    let e = ask_preset(&mut approvals, &binding(), "Full_Access").unwrap_err();
    assert!(e.to_text().starts_with("preset must use canonical name") || e.to_text().starts_with("unknown preset"));
    let mut with_rule = state(AccessPreset::Recommended);
    with_rule = execute_admin_policy_rule_add(&with_rule, &rule("r1")).unwrap();
    let next = handle_policy_preset(&with_rule, "workspace_only", None).unwrap();
    assert_eq!(next.preset, AccessPreset::WorkspaceOnly);
    assert!(next.custom_rules.is_empty());
    assert!(next.delegate_remote_mcp);
    assert!(next.enforce_workspace);
    let next = handle_policy_preset(&next, "full_access", Some(false)).unwrap();
    assert!(!next.delegate_remote_mcp);
    assert!(!next.enforce_workspace);
    assert_eq!(policy_from_file(None), AccessPreset::Recommended);
    assert_eq!(policy_from_file(Some("junk")), AccessPreset::Recommended);
    assert_eq!(policy_from_file(Some("custom")), AccessPreset::Custom);
}

#[test]
fn added_rules_can_be_removed() {
    let before = state(AccessPreset::Recommended);
    let after = execute_admin_policy_rule_add(&before, &rule("r1")).unwrap();
    assert_eq!(after.custom_rules.len(), 1);
    assert_eq!(after.custom_rules[0].id, "r1");
    assert_eq!(after.custom_rules[0].priority, 5);
    assert_eq!(after.custom_rules[0].decision, Decision::Deny);
    let e = execute_admin_policy_rule_add(&after, &rule("r1")).unwrap_err();
    assert_eq!(e.to_text(), "policy rule already exists: r1");
    let back = execute_admin_policy_rule_remove(&after, "r1").unwrap();
    assert!(back.custom_rules.is_empty());
    let e = execute_admin_policy_rule_remove(&back, "r1").unwrap_err();
    assert_eq!(e.to_text(), "custom policy rule not found: r1");
    let e = execute_admin_policy_rule_add(&state(AccessPreset::FullAccess), &rule("r1")).unwrap_err();
    assert_eq!(
        e.to_text(),
        "full_access cannot contain hidden rules; select preset custom first"
    );
}

#[test]
fn rule_requests_are_checked_before_they_wait() {
    let b = binding();
    let mut approvals = Approvals::new();
    let recommended = state(AccessPreset::Recommended);
    let e = handle_admin_policy_rule_add_request(
        &mut approvals,
        rule("r1"),
        &recommended,
        Some("bad rule"),
        caller(&b),
    )
    .unwrap_err();
    assert!(e.to_text().contains("bad rule"));
    assert_eq!(approvals.len(), 0);
    handle_admin_policy_rule_add_request(
        &mut approvals,
        rule("r1"),
        &recommended,
        None,
        caller(&b),
    )
    .unwrap();
    assert_eq!(only(&approvals).capability, "admin.policy.rule_add");
    let mut approvals = Approvals::new();
    let remove = |id: &str| AdminPolicyRuleRemoveParams {
        id: id.to_string(),
        idempotency_key: "remove-1".to_string(),
    };
    let e = handle_admin_policy_rule_remove_request(
        &mut approvals,
        remove("r1"),
        &recommended,
        caller(&b),
    )
    .unwrap_err();
    assert_eq!(e.to_text(), "custom policy rule not found: r1");
    let held = execute_admin_policy_rule_add(&recommended, &rule("r1")).unwrap();
    handle_admin_policy_rule_remove_request(&mut approvals, remove("r1"), &held, caller(&b))
        .unwrap();
    assert_eq!(only(&approvals).capability, "admin.policy.rule_remove");
}

#[test]
fn unlock_and_revocation_requests() {
    let b = binding();
    let unlock = || AdminDaemonUnlockParams { idempotency_key: "unlock-1".to_string() };
    let mut approvals = Approvals::new();
    let e = handle_admin_unlock_request(&mut approvals, unlock(), false, caller(&b)).unwrap_err();
    assert_eq!(e.to_text(), "device is not in emergency lockdown");
    handle_admin_unlock_request(&mut approvals, unlock(), true, caller(&b)).unwrap();
    assert_eq!(only(&approvals).capability, "admin.daemon.unlock");
    assert!(check_unlock_request("", true).is_err());

    let revoke = |p: &str| AdminTokenRevokeParams {
        principal: p.to_string(),
        idempotency_key: "revoke-1".to_string(),
    };
    let mut approvals = Approvals::new();
    let mut ask = |p: &str, canonical: &str| {
        handle_admin_token_revoke_request(&mut approvals, revoke(p), canonical, caller(&b))
    };
    assert_eq!(
        ask("Client:X", "client:x").unwrap_err().to_text(),
        "principal must be a canonical server-assigned principal key"
    );
    assert!(ask(REQUESTER, REQUESTER)
        .unwrap_err()
        .to_text()
        .starts_with("cannot revoke the principal authorizing this request"));
    ask("client:x", "client:x").unwrap();
    assert_eq!(only(&approvals).capability, "admin.token.revoke");
}

#[test]
fn mint_requests_are_stamped_with_the_verified_identity() {
    let b = binding();
    let mut approvals = Approvals::new();
    let params = AdminGrantsMintParams {
        tools: vec!["a".to_string()],
        ttl_seconds: 60,
        max_uses: None,
        workspace_id: None,
        idempotency_key: "mint-1".to_string(),
        principal_id: Some("forged".to_string()),
        device_id: Some("forged".to_string()),
    };
    handle_admin_grants_mint_request(&mut approvals, params, caller(&b)).unwrap();
    match &only(&approvals).request {
        PendingRequest::AdminGrantsMint(p) => {
            assert_eq!(p.principal_id.as_deref(), Some(REQUESTER));
            assert_eq!(p.device_id.as_deref(), Some("dev_a"));
        }
        other => panic!("unexpected request {other:?}"),
    }
}

fn target() -> ApprovalRecord {
    ApprovalRecord {
        id: "apr_local".to_string(),
        operation_id: "op_local".to_string(),
        capability: "filesystem.write".to_string(),
        state: "pending".to_string(),
        reason: "r".repeat(600),
        created_at_unix: NOW - 10,
        decided_at_unix: None,
        expires_at_unix: None,
        target_payload_hash: None,
        matched_rule_id: None,
        requester_principal: "prin_local".to_string(),
        facts: Some(OperationFacts {
            capability: "filesystem.write".to_string(),
            kind: "file".to_string(),
            program: None,
            path: Some("a.txt".to_string()),
            elevated: false,
            workspace_relative: true,
            workspace_id: None,
            tags: Vec::new(),
            tool: None,
            executable_identity: None,
            invocation_identity: None,
        }),
        request: PendingRequest::FsDelete(FsDeleteParams {
            path: "a.txt".to_string(),
            recursive: false,
            workspace_id: None,
            idempotency_key: None,
        }),
        result: None,
        decided_by_principal: None,
    }
}

fn bridge(decision: &str, grant: bool, seconds: Option<i64>) -> AdminApprovalBridgeParams {
    AdminApprovalBridgeParams {
        approval_id: "apr_local".to_string(),
        decision: decision.to_string(),
        temporary_grant: grant,
        grant_seconds: seconds,
        idempotency_key: "bridge-1".to_string(),
    }
}

#[test]
fn bridges_show_what_they_decide() {
    let b = binding();
    let mut approvals = Approvals::new();
    let _ = enqueue(&mut approvals, target());
    let (taken, preview) = handle_admin_approval_bridge_request(
        &mut approvals,
        bridge("approve", true, Some(60)),
        false,
        caller(&b),
    )
    .unwrap();
    assert_eq!(approvals.len(), 2);
    let body = match taken {
        AdminEnqueue::Enqueued { body, .. } => body,
        other => panic!("unexpected {other:?}"),
    };
    assert_eq!(
        body.get_str("reason"),
        Some("Fresh passkey confirmation is required to approve local filesystem.write request apr_local.")
    );
    let answer = bridge_answer(&body, preview);
    let shown = answer.get("target_preview").unwrap();
    assert_eq!(shown.get_str("path"), Some("a.txt"));
    assert_eq!(shown.get_str("reason").unwrap().len(), 512);
    assert_eq!(shown.get_bool("workspace_relative"), Some(true));
    let mut bare = target();
    bare.facts = None;
    assert_eq!(approval_target_preview(&bare).get_str("kind"), Some(""));
}

#[test]
fn bridge_intents_are_exact() {
    let b = binding();
    let refused = |p: AdminApprovalBridgeParams, record: Option<ApprovalRecord>, bound: bool| {
        let mut approvals = Approvals::new();
        if let Some(r) = record {
            let _ = enqueue(&mut approvals, r);
        }
        handle_admin_approval_bridge_request(&mut approvals, p, bound, caller(&b))
            .map(|_| ())
            .unwrap_err()
            .to_text()
    };
    let t = || Some(target());
    assert_eq!(refused(bridge("maybe", false, None), t(), false), "decision must be approve or deny");
    for seconds in [None, Some(0), Some(86401)] {
        assert_eq!(
            refused(bridge("approve", true, seconds), t(), false),
            "temporary_grant requires grant_seconds between 1 and 86400"
        );
    }
    assert_eq!(
        refused(bridge("approve", false, Some(5)), t(), false),
        "grant_seconds requires temporary_grant=true"
    );
    assert_eq!(
        refused(bridge("deny", true, None), t(), false),
        "deny intent cannot include a temporary grant"
    );
    assert_eq!(
        refused(bridge("deny", false, None), None, false),
        "local approval not found: apr_local"
    );
    let mut decided = target();
    decided.state = "denied".to_string();
    assert_eq!(
        refused(bridge("deny", false, None), Some(decided), false),
        "target must be a pending, unexpired, local non-admin approval"
    );
    assert_eq!(
        refused(bridge("approve", true, Some(5)), t(), true),
        "temporary grants are not supported for filesystem.write approvals"
    );
}

use ownmeshd::approvals::Approvals;
use ownmeshd::custody::{
    handle_lockdown, handle_policy_explain, handle_token_revoke, handle_unlock, settle_lockdown,
    settle_revoke, settle_unlock, ExplainParams, LockdownOutcome,
};
use ownmeshd::dispatch::Method;
use ownmeshd::error::{ErrorCode, IpcError};
use ownmeshd::grants::{StoredGrant, TemporaryGrant};
use ownmeshd::ids::valid_workspace_generation;
use ownmeshd::journal::OpJournal;
use ownmeshd::params::AccessPreset;
use ownmeshd::paths::same_path;
use ownmeshd::runtime::{DaemonRuntime, StoredState};
use ownmeshd::sidecar::{
    persistent_child_is_live, reconcile_dead_persistent_sessions, require_controller,
    require_reader, require_session_workspace, sidecar_binding, HostEvidence, ProcessObservation,
    SessionFailure, SessionRow, SessionState, SidecarHostBinding, TerminationReceipt,
};
use ownmeshd::state_files::{
    canonicalize_error, load_approvals, load_grants, load_revoked, persist_revoked,
    read_bounded_state_file, read_revoked, revoked_file, ApprovalSize, StateFile,
    MAX_GRANTS_FILE_BYTES,
};
use ownmeshd::textset::TextSet;
use ownmeshd::workspace::{
    default_workspace, default_workspace_with, load_or_init_workspaces,
    load_or_init_workspaces_with, upsert_workspace_with, workspace_for, WorkspaceEntry,
};

const NOW: i64 = 1_800_000_000;

fn stored() -> StoredState {
    StoredState {
        preset_name: None,
        custom_rules: Vec::new(),
        delegate_remote_mcp: false,
        workspaces: vec![default_workspace("/state/workspace")],
        op_journal: Ok(OpJournal::new()),
        grants: Vec::new(),
        approvals: Approvals::new(),
        lockdown: false,
        revoked: TextSet::new(),
        sessions: Vec::new(),
        evidence: Vec::new(),
    }
}

fn entry(id: &str, root: &str, label: Option<&str>) -> WorkspaceEntry {
    WorkspaceEntry {
        id: id.to_string(),
        root: root.to_string(),
        label: label.map(|l| l.to_string()),
        generation: String::new(),
    }
}

fn binding(pid: Option<u32>, birth: Option<u64>) -> SidecarHostBinding {
    SidecarHostBinding {
        device_id: "dev_a".to_string(),
        workspace_id: "ws_default".to_string(),
        owner_principal: "client:remote:tenant:owner".to_string(),
        host_nonce: "host_nonce".to_string(),
        controller_epoch: 1,
        binding_expires_unix: NOW + 60,
        host_expires_unix: NOW + 600,
        child_pid: pid,
        child_process_birth: birth,
    }
}

fn session(host: Option<SidecarHostBinding>, pid: Option<u32>) -> SessionRow {
    SessionRow {
        id: "ses_1".to_string(),
        state: SessionState::Running,
        workspace_id: None,
        controller_epoch: 1,
        sidecar_host: host,
        host_pid: pid,
    }
}

#[test]
fn authenticated_workspace_registry_contains_ids_and_policy_but_no_roots() {
    let mut runtime = DaemonRuntime::open(stored());
    runtime
        .upsert_workspace(entry("ws_repo", "/base/repo", Some("Repository")), true)
        .unwrap();
    runtime.set_policy_for_test(AccessPreset::Recommended);

    let (enforce_workspace, registrations) = runtime.remote_workspace_registry();
    assert!(enforce_workspace);
    let ids: Vec<&str> = registrations.iter().map(|w| w.id.as_str()).collect();
    assert_eq!(ids, vec!["ws_default", "ws_repo"]);
    assert!(registrations
        .iter()
        .all(|w| valid_workspace_generation(&w.generation)));

    runtime.workspaces[0].id = "default".to_string();
    let (_, legacy) = runtime.remote_workspace_registry();
    let ids: Vec<&str> = legacy.iter().map(|w| w.id.as_str()).collect();
    assert_eq!(ids, vec!["ws_default", "ws_repo"]);
}

#[test]
fn workspace_generation_changes_only_when_the_id_maps_to_another_root() {
    let mut runtime = DaemonRuntime::open(stored());
    let first = runtime
        .upsert_workspace(entry("ws_repo", "/base/repo-a", Some("A")), true)
        .unwrap();
    let label_only = runtime
        .upsert_workspace(entry("ws_repo", "/base/repo-a", Some("renamed")), true)
        .unwrap();
    assert_eq!(label_only.generation, first.generation);

    let remapped = runtime
        .upsert_workspace(entry("ws_repo", "/base/repo-b", None), true)
        .unwrap();
    assert_ne!(remapped.generation, first.generation);

    runtime.workspaces.retain(|workspace| workspace.id != "ws_repo");
    let readded = runtime
        .upsert_workspace(entry("ws_repo", "/base/repo-b", None), true)
        .unwrap();
    assert_ne!(readded.generation, remapped.generation);
}

#[test]
fn verified_remote_device_cannot_substitute_a_persistent_sidecar_binding() {
    let host = Some(binding(None, None));
    let error = sidecar_binding("ses_1", &host, &Some("dev_b".to_string())).unwrap_err();
    assert_eq!(error.code, ErrorCode::PolicyDenied);
    assert_eq!(
        error.to_text(),
        "persistent session ses_1 is bound to device dev_a, not verified device dev_b"
    );
    assert_eq!(
        sidecar_binding("ses_1", &host, &Some("dev_a".to_string())).unwrap().device_id,
        "dev_a"
    );
    assert_eq!(sidecar_binding("ses_1", &host, &None).unwrap().session_id, "ses_1");
    let missing = sidecar_binding("ses_1", &None, &None).unwrap_err();
    assert_eq!(missing.code, ErrorCode::Conflict);
}

#[test]
fn missing_supervisor_reconciles_only_a_confirmed_dead_child() {
    let reused = HostEvidence {
        observed: ProcessObservation::Birth(42),
        receipt: None,
    };
    let mut rows = vec![session(Some(binding(Some(7), Some(41))), Some(7))];
    assert_eq!(reconcile_dead_persistent_sessions(&mut rows, &vec![reused]), 1);
    assert_eq!(rows[0].state, SessionState::Closed);
    assert!(rows[0].sidecar_host.is_none());
    assert!(rows[0].host_pid.is_none());
}

#[test]
fn startup_reconciles_a_provably_dead_persistent_session() {
    let mut state = stored();
    state.sessions = vec![session(Some(binding(Some(7), Some(41))), Some(7))];
    state.evidence = vec![HostEvidence {
        observed: ProcessObservation::Birth(42),
        receipt: None,
    }];
    let runtime = DaemonRuntime::open(state);
    assert_eq!(runtime.session_count_for_test(), 1);
    assert_eq!(runtime.sessions[0].state, SessionState::Closed);
    assert!(runtime.sessions[0].sidecar_host.is_none());
    assert!(runtime.sessions[0].host_pid.is_none());
}

#[test]
fn missing_supervisor_never_marks_a_live_pid_terminal() {
    let host = binding(Some(7), Some(41));
    assert_eq!(
        persistent_child_is_live(&host, &ProcessObservation::Birth(41)),
        Ok(true)
    );
    let mut rows = vec![session(Some(host), Some(7))];
    let evidence = vec![HostEvidence {
        observed: ProcessObservation::Birth(41),
        receipt: None,
    }];
    assert_eq!(reconcile_dead_persistent_sessions(&mut rows, &evidence), 0);
    assert_eq!(rows[0].state, SessionState::Running);
    assert!(rows[0].sidecar_host.is_some());
}

#[test]
fn unknown_process_needs_a_fitting_termination_receipt() {
    let receipt = |nonce: &str| TerminationReceipt {
        session_id: "ses_1".to_string(),
        device_id: "dev_a".to_string(),
        workspace_id: "ws_default".to_string(),
        owner_principal: "client:remote:tenant:owner".to_string(),
        host_nonce: nonce.to_string(),
        controller_epoch: 1,
    };
    let failed = || ProcessObservation::Failed("no access".to_string());
    let mut rows = vec![
        session(Some(binding(Some(7), Some(41))), Some(7)),
        session(Some(binding(None, None)), None),
        session(Some(binding(Some(7), Some(41))), Some(7)),
        session(None, None),
    ];
    let evidence = vec![
        HostEvidence { observed: failed(), receipt: Some(receipt("host_nonce")) },
        HostEvidence { observed: ProcessObservation::Gone, receipt: None },
        HostEvidence { observed: failed(), receipt: Some(receipt("other")) },
        HostEvidence { observed: ProcessObservation::Gone, receipt: None },
    ];
    assert_eq!(reconcile_dead_persistent_sessions(&mut rows, &evidence), 1);
    assert_eq!(rows[0].state, SessionState::Closed);
    assert_eq!(rows[1].state, SessionState::Running);
    assert_eq!(rows[2].state, SessionState::Running);
    assert_eq!(rows[3].state, SessionState::Running);
    assert_eq!(
        persistent_child_is_live(&binding(None, None), &ProcessObservation::Gone),
        Err("persistent sidecar binding lacks a durable child PID".to_string())
    );
    assert_eq!(
        persistent_child_is_live(&binding(Some(7), None), &ProcessObservation::Gone),
        Err("persistent sidecar binding lacks a durable child birth witness".to_string())
    );
}

#[test]
fn sessions_are_read_and_controlled_by_those_authorized() {
    assert!(require_reader("s", "p", &Ok(())).is_ok());
    let e = require_reader("s", "p", &Err((SessionFailure::NotReader, "x".to_string()))).unwrap_err();
    assert_eq!(e.code, ErrorCode::PolicyDenied);
    assert_eq!(e.to_text(), "principal p cannot read session s");
    let e = require_reader("s", "p", &Err((SessionFailure::Closed, "closed".to_string()))).unwrap_err();
    assert_eq!(e.code, ErrorCode::Conflict);
    assert_eq!(e.to_text(), "closed");
    let e = require_controller("s", "p", &Err((SessionFailure::NotController, "x".to_string())))
        .unwrap_err();
    assert_eq!(e.to_text(), "principal p is not controller of session s");
    let e = require_controller("s", "p", &Err((SessionFailure::Persist, "disk".to_string())))
        .unwrap_err();
    assert_eq!(e.code, ErrorCode::Internal);
}

#[test]
fn session_workspace_binding_is_immutable() {
    let bound = Some("default".to_string());
    assert_eq!(require_session_workspace("s", &bound, None).unwrap(), "ws_default");
    assert_eq!(
        require_session_workspace("s", &bound, Some(" ws_default ")).unwrap(),
        "ws_default"
    );
    let e = require_session_workspace("s", &bound, Some("ws_other")).unwrap_err();
    assert_eq!(e.code, ErrorCode::PolicyDenied);
    assert_eq!(e.to_text(), "session s is bound to workspace ws_default, not ws_other");
}

#[test]
fn dispatch_answers_in_order_of_revocation_lockdown_and_degradation() {
    let mut state = stored();
    let _ = state.revoked.insert("client:local:bad".to_string());
    state.op_journal = Err("corrupt".to_string());
    state.lockdown = true;
    let mut runtime = DaemonRuntime::open(state);
    let e = runtime
        .dispatch(Some(Method::OpsExec), "ops.exec", "client:local:bad", "client:local:bad")
        .unwrap_err();
    assert_eq!(e.code, ErrorCode::TokenRevoked);
    assert_eq!(e.to_text(), "principal client:local:bad is revoked");
    let e = runtime.dispatch(Some(Method::OpsExec), "ops.exec", "client:local:a", "client:local:a").unwrap_err();
    assert_eq!(e.code, ErrorCode::Lockdown);
    runtime.lockdown = false;
    assert!(!runtime.is_lockdown());
    let e = runtime.dispatch(Some(Method::OpsExec), "ops.exec", "client:local:a", "client:local:a").unwrap_err();
    assert_eq!(e.code, ErrorCode::Conflict);
    assert!(e.to_text().starts_with("OWNMESH_E_JOURNAL_DEGRADED"));
    let e = runtime.dispatch(None, "no.such", "client:local:a", "client:local:a").unwrap_err();
    assert_eq!(e.code, ErrorCode::Conflict);
    runtime.journal.degraded = None;
    let e = runtime.dispatch(None, "no.such", "client:local:a", "client:local:a").unwrap_err();
    assert_eq!(e.code, ErrorCode::MethodNotFound);
    assert_eq!(e.to_text(), "method not found: no.such");
    let m = runtime.dispatch(Some(Method::OpsExec), "ops.exec", "client:local:a", "client:local:a").unwrap();
    assert_eq!(m, Method::OpsExec);
}

#[test]
fn a_bound_dispatch_leaves_nothing_bound() {
    let mut runtime = DaemonRuntime::open(stored());
    let m = runtime
        .dispatch_cancellable_bound_with_generation(
            None,
            "ops.git.status",
            "client:remote:t:p",
            "client:remote:t:p",
            "client:remote:t:owner",
            Some("  op_1 ".to_string()),
            Some(0),
            Some("hash".to_string()),
            Some("   ".to_string()),
            Some(3),
        )
        .unwrap();
    assert_eq!(m, Method::GitStatus);
    assert_eq!(runtime.active.operation_id.as_deref(), Some("op_1"));
    assert_eq!(runtime.active.expires_at_unix, None);
    assert_eq!(runtime.active.device_id, None);
    assert_eq!(runtime.active.principal.as_deref(), Some("client:remote:t:owner"));
    assert_eq!(runtime.active.principal_credential_generation, Some(3));
    runtime.finish_dispatch();
    assert_eq!(runtime.active.operation_id, None);
    assert_eq!(runtime.active.principal, None);
    assert!(runtime
        .dispatch_cancellable(
            None,
            "session.open",
            "client:remote:t:p",
            "client:remote:t:p",
            "client:remote:t:p",
            None
        )
        .is_ok());
    assert!(runtime
        .dispatch_cancellable_bound(
            Some(Method::OpsExec),
            "ops.exec",
            "client:remote:t:p",
            "client:remote:t:p",
            "client:remote:t:p",
            None,
            Some(9),
            None,
            None
        )
        .is_ok());
    assert_eq!(runtime.active.expires_at_unix, Some(9));
}

fn grant(id: &str) -> TemporaryGrant {
    TemporaryGrant {
        id: id.to_string(),
        capability: "filesystem.read".to_string(),
        principal_id: "prin_local".to_string(),
        path_prefix: None,
        workspace_id: None,
        expires_unix: NOW + 1,
    }
}

#[test]
fn lockdown_clears_grants_and_a_failed_write_restores_them() {
    let mut runtime = DaemonRuntime::open(stored());
    runtime.inject_grant_for_test(grant("g1"));
    runtime.inject_stored_grant_for_test(StoredGrant::Temporary(grant("g2")));
    assert_eq!(runtime.grants_for_test().len(), 2);

    let undo = handle_lockdown(&mut runtime.lockdown, &mut runtime.grants);
    assert!(runtime.is_lockdown());
    assert!(runtime.grants_for_test().is_empty());
    let e = settle_lockdown(
        &mut runtime.lockdown,
        &mut runtime.grants,
        undo,
        LockdownOutcome::GrantsFailed {
            error: IpcError::new(ErrorCode::Internal, "failed to persist grants: full"),
            restore_error: Some(IpcError::new(ErrorCode::Internal, "failed to clear lockdown flag: x")),
        },
    )
    .unwrap_err();
    assert_eq!(
        e.to_text(),
        "failed to persist grants: full; also failed to restore lockdown flag: failed to clear lockdown flag: x"
    );
    assert!(!runtime.is_lockdown());
    assert_eq!(runtime.grants_for_test().len(), 2);

    let undo = handle_lockdown(&mut runtime.lockdown, &mut runtime.grants);
    let body = settle_lockdown(
        &mut runtime.lockdown,
        &mut runtime.grants,
        undo,
        LockdownOutcome::Written,
    )
    .unwrap();
    assert_eq!(body.get_bool("lockdown"), Some(true));
    assert_eq!(body.get_bool("grants_cleared"), Some(true));

    let undo = handle_lockdown(&mut runtime.lockdown, &mut runtime.grants);
    let e = settle_lockdown(
        &mut runtime.lockdown,
        &mut runtime.grants,
        undo,
        LockdownOutcome::FlagFailed(IpcError::new(ErrorCode::Internal, "flag")),
    )
    .unwrap_err();
    assert_eq!(e.to_text(), "flag");
    assert!(runtime.is_lockdown());

    let previous = handle_unlock(&mut runtime.lockdown);
    assert!(previous && !runtime.is_lockdown());
    assert!(settle_unlock(
        &mut runtime.lockdown,
        previous,
        Err(IpcError::new(ErrorCode::Internal, "stuck"))
    )
    .is_err());
    assert!(runtime.is_lockdown());
    let previous = handle_unlock(&mut runtime.lockdown);
    let body = settle_unlock(&mut runtime.lockdown, previous, Ok(())).unwrap();
    assert_eq!(body.get_bool("lockdown"), Some(false));
}

#[test]
fn revocation_is_undone_only_for_a_principal_that_was_in_force() {
    let mut revoked = TextSet::new();
    let e = handle_token_revoke(&mut revoked, "").unwrap_err();
    assert_eq!(e.code, ErrorCode::InvalidParams);
    let inserted = handle_token_revoke(&mut revoked, "client:local:a").unwrap();
    assert!(inserted && revoked.contains("client:local:a"));
    let failed = || Err(IpcError::new(ErrorCode::Internal, "disk"));
    assert!(settle_revoke(&mut revoked, "client:local:a", inserted, failed()).is_err());
    assert!(!revoked.contains("client:local:a"));

    let inserted = handle_token_revoke(&mut revoked, "client:local:a").unwrap();
    let body = settle_revoke(&mut revoked, "client:local:a", inserted, Ok(())).unwrap();
    assert_eq!(body.get_str("revoked"), Some("client:local:a"));
    let again = handle_token_revoke(&mut revoked, "client:local:a").unwrap();
    assert!(!again);
    assert!(settle_revoke(&mut revoked, "client:local:a", again, failed()).is_err());
    assert!(revoked.contains("client:local:a"));
}

#[test]
fn revoked_list_is_loaded_sorted_and_rewritten_when_it_was_not() {
    let texts = |list: &[&str]| list.iter().map(|t| t.to_string()).collect::<Vec<String>>();
    let stored = texts(&["b", "a", "b"]);
    let (set, rewrite) = load_revoked("revoked.json", &stored, &stored).unwrap();
    assert!(rewrite);
    assert_eq!(persist_revoked(&set).unwrap(), &texts(&["a", "b"]));
    let sorted = texts(&["a", "b"]);
    let (_, rewrite) = load_revoked("revoked.json", &sorted, &sorted).unwrap();
    assert!(!rewrite);
    let e = load_revoked("r", &texts(&["x"]), &texts(&[""])).unwrap_err();
    assert_eq!(e, "corrupt revoked client state r: empty client identity");
    let long = vec!["x".repeat(1025)];
    let e = load_revoked("r", &long, &long).unwrap_err();
    assert_eq!(e, "corrupt revoked client state r: principal exceeds 1024 bytes");
    let many = vec!["x".to_string(); 16_385];
    let e = load_revoked("r", &many, &many).unwrap_err();
    assert_eq!(e, "revoked client state r exceeds 16384 entry budget (16385)");
}

#[test]
fn state_files_are_held_to_their_budgets() {
    assert!(read_bounded_state_file(&StateFile::Missing, 10, "grants state", "g").is_ok());
    assert!(read_bounded_state_file(&StateFile::Sized(10), 10, "grants state", "g").is_ok());
    let e = read_bounded_state_file(
        &StateFile::Sized(MAX_GRANTS_FILE_BYTES + 1),
        MAX_GRANTS_FILE_BYTES,
        "grants state",
        "g.json",
    )
    .unwrap_err();
    assert_eq!(e, "grants state g.json exceeds 1048576 byte budget (1048577)");
    let e = read_bounded_state_file(&StateFile::Read(11), 10, "grants state", "g").unwrap_err();
    assert_eq!(e, "grants state g exceeds 10 byte budget after read");
    let e = read_bounded_state_file(
        &StateFile::StatFailed("denied".to_string()),
        10,
        "grants state",
        "g",
    )
    .unwrap_err();
    assert_eq!(e, "failed to stat grants state g: denied");
    let e = read_bounded_state_file(
        &StateFile::ReadFailed("denied".to_string()),
        10,
        "grants state",
        "g",
    )
    .unwrap_err();
    assert_eq!(e, "failed to read grants state g: denied");

    assert!(load_grants("g", 4096).is_ok());
    assert_eq!(
        load_grants("g", 4097).unwrap_err(),
        "grants state g exceeds 4096 entry budget (4097)"
    );
    let size = |bytes: Result<usize, String>| ApprovalSize { key: "apr_1".to_string(), bytes };
    assert!(load_approvals("a", &vec![size(Ok(65_536))]).is_ok());
    assert_eq!(
        load_approvals("a", &vec![size(Ok(1)), size(Ok(65_537))]).unwrap_err(),
        "approval state a entry apr_1 exceeds 65536 byte budget (65537)"
    );
    assert_eq!(
        load_approvals("a", &vec![size(Err("bad".to_string()))]).unwrap_err(),
        "approval state a entry apr_1 re-serialize failed: bad"
    );
}

#[test]
fn workspace_files_are_checked_and_get_the_built_in_entry() {
    let (loaded, upgraded) = load_or_init_workspaces(1, &vec![], &vec![], "/state/ws").unwrap();
    assert!(upgraded);
    assert_eq!(loaded[0].id, "ws_default");
    assert_eq!(loaded[0].root, "/state/ws");
    let e = load_or_init_workspaces(2, &vec![], &vec![], "/state/ws").unwrap_err();
    assert_eq!(e, "unsupported workspaces.json schema_version 2");
    assert!(load_or_init_workspaces(
        1,
        &vec![entry("ws_a", "rel", None)],
        &vec![false],
        "/state/ws"
    )
    .is_err());
}

#[test]
fn a_registry_that_was_taken_over_loads_again_unchanged() {
    let stored = vec![entry(" ws_repo ", "/r", Some("R")), entry("default", "/d", None)];
    let (first, upgraded) =
        load_or_init_workspaces(1, &stored, &vec![true, true], "/state/ws").unwrap();
    assert!(upgraded);
    assert_eq!(first[0].id, "ws_repo");
    assert_eq!(first[1].id, "ws_default");
    let (second, upgraded) =
        load_or_init_workspaces(1, &first, &vec![true, true], "/state/ws").unwrap();
    assert!(!upgraded);
    for (a, b) in first.iter().zip(second.iter()) {
        assert_eq!((&a.id, &a.root, &a.label), (&b.id, &b.root, &b.label));
        assert_eq!(a.generation, b.generation);
    }
    let at = workspace_for(&second, Some(" ws_repo")).unwrap();
    assert_eq!(second[at].root, "/r");
    let e = workspace_for(&second, Some("ws_other")).unwrap_err();
    assert!(e.to_text().contains("unknown workspace_id: ws_other"));
}

#[test]
fn policy_explain_uses_the_default_workspace_and_sensitive_facts() {
    let params = |query: Option<&str>, capability: Option<&str>, path: Option<&str>| ExplainParams {
        capability: capability.map(|c| c.to_string()),
        kind: None,
        path: path.map(|p| p.to_string()),
        program: None,
        elevated: false,
        query: query.map(|q| q.to_string()),
        workspace_id: None,
    };
    let facts = handle_policy_explain(
        &params(None, Some("filesystem.read"), Some(".env")),
        true,
        "w",
        "r",
    )
    .unwrap();
    assert_eq!(facts.workspace_id.as_deref(), Some("ws_default"));
    assert!(facts.workspace_relative);
    assert_eq!(facts.tags, vec!["r".to_string()]);
    let facts = handle_policy_explain(&params(Some("Delete it"), None, Some("x")), true, "w", "r")
        .unwrap();
    assert_eq!(facts.capability, "filesystem.write");
    assert_eq!(facts.kind, "file");
    assert_eq!(facts.tags, vec!["w".to_string()]);
    let facts = handle_policy_explain(&params(Some("show LOGS"), None, None), true, "w", "r").unwrap();
    assert_eq!(facts.capability, "logs.read");
    assert!(facts.tags.is_empty());
    let facts = handle_policy_explain(&params(Some("run"), None, None), false, "w", "r").unwrap();
    assert_eq!((facts.capability.as_str(), facts.kind.as_str()), ("command.run", "structured"));
    let facts = handle_policy_explain(&params(None, None, None), false, "w", "r").unwrap();
    assert_eq!((facts.capability.as_str(), facts.kind.as_str()), ("command.run", ""));
}

#[test]
fn revoked_principals_are_read_from_their_file() {
    assert!(read_revoked(&[], "r").unwrap().is_empty());
    assert!(read_revoked("[]".as_bytes(), "r").unwrap().is_empty());
    let stored = read_revoked("[\"b\", \"a\"]".as_bytes(), "r").unwrap();
    assert_eq!(stored, vec!["b".to_string(), "a".to_string()]);
    for bad in ["{\"broken", "{}", "[1]", "[\"a\"] x"] {
        let e = read_revoked(bad.as_bytes(), "revoked.json").unwrap_err();
        assert!(e.starts_with("corrupt revoked client state revoked.json: "));
    }
    let list = vec!["a \"quoted\"".to_string(), "\u{e9}\n".to_string()];
    let bytes = revoked_file(&list);
    assert_eq!(read_revoked(&bytes, "r").unwrap(), list);
    assert_eq!(
        String::from_utf8(revoked_file(&vec!["a".to_string()])).unwrap(),
        "[\n  \"a\"\n]"
    );
    let (set, rewrite) = load_revoked("r", &stored, &stored).unwrap();
    assert!(rewrite);
    let again = read_revoked(&revoked_file(set.as_vec()), "r").unwrap();
    let (_, rewrite) = load_revoked("r", &again, &again).unwrap();
    assert!(!rewrite);
    assert_eq!(
        canonicalize_error("r", "denied"),
        "failed to canonicalize revoked client state r: denied"
    );
}

fn generation(digit: &str) -> String {
    format!("wsg_{}", digit.repeat(32))
}

#[test]
fn another_root_gets_the_fresh_generation_and_the_same_root_keeps_its_own() {
    let mut workspaces = vec![default_workspace_with("/state/ws", generation("0"))];
    let upsert = |workspaces: &mut Vec<WorkspaceEntry>, root: &str, fresh: &str| {
        let mut given = entry(" ws_repo ", root, None);
        given.generation = generation("f");
        upsert_workspace_with(workspaces, given, true, generation(fresh)).unwrap()
    };
    let first = upsert(&mut workspaces, "/base/repo", "1");
    assert_eq!(first.id, "ws_repo");
    assert_eq!(first.generation, generation("1"));
    for same in ["/base/repo", "/base/repo/", "/base//repo", "//base/./repo/.", "/./base/repo"] {
        let kept = upsert(&mut workspaces, same, "2");
        assert_eq!(kept.generation, generation("1"));
        assert_eq!(kept.root, same);
    }
    let moved = upsert(&mut workspaces, "/base/other/../repo", "3");
    assert_eq!(moved.generation, generation("3"));
    assert_eq!(workspaces[1].generation, generation("3"));
    assert_eq!(workspaces[0].generation, generation("0"));

    workspaces.truncate(1);
    let readded = upsert(&mut workspaces, "/base/other/../repo", "4");
    assert_eq!(readded.generation, generation("4"));
    assert_eq!(workspaces.len(), 2);
    let e = upsert_workspace_with(
        &mut workspaces,
        entry("repo", "/base/repo", None),
        true,
        generation("5"),
    )
    .unwrap_err();
    assert_eq!(e.code, ErrorCode::InvalidParams);
    assert_eq!(workspaces[1].generation, generation("4"));
}

#[test]
fn paths_are_compared_by_their_components() {
    for (a, b) in [
        ("/a/b", "/a/b/"),
        ("/a/b", "//a///b"),
        ("/a/b", "/a/./b/."),
        ("/", "//"),
        ("/", "/."),
        ("a", "a/."),
        (".", "./"),
        ("./a", ".//a"),
        ("", ""),
    ] {
        assert!(same_path(a, b), "{a} {b}");
        assert!(same_path(b, a), "{a} {b}");
        assert_eq!(std::path::Path::new(a), std::path::Path::new(b));
    }
    for (a, b) in [
        ("/a/b", "a/b"),
        ("/a/b", "/a/../a/b"),
        ("./a", "a"),
        ("", "."),
        ("/a/.b", "/a/b"),
        ("/a", "/A"),
        ("/", ""),
        ("/a/..", "/"),
    ] {
        assert!(!same_path(a, b), "{a} {b}");
        assert!(!same_path(b, a), "{a} {b}");
        assert_ne!(std::path::Path::new(a), std::path::Path::new(b));
    }
}

#[test]
fn entries_without_a_generation_get_the_fresh_ones_in_their_order() {
    let mut kept = entry("ws_b", "/b", None);
    kept.generation = generation("9");
    let stored = vec![entry("ws_a", "/a", None), kept, entry("ws_c", "/c", None)];
    let fresh: Vec<String> = ["1", "2", "3", "4"].iter().map(|d| generation(d)).collect();
    let (loaded, upgraded) =
        load_or_init_workspaces_with(1, &stored, &vec![true; 3], "/state/ws", &fresh).unwrap();
    assert!(upgraded);
    let generations: Vec<String> = loaded.iter().map(|w| w.generation.clone()).collect();
    assert_eq!(
        generations,
        vec![generation("4"), generation("1"), generation("9"), generation("3")]
    );
    let (drawn, _) = load_or_init_workspaces(1, &stored, &vec![true; 3], "/state/ws").unwrap();
    assert!(drawn.iter().all(|w| valid_workspace_generation(&w.generation)));
    assert_ne!(drawn[1].generation, drawn[3].generation);
}

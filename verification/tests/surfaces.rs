use ownmeshd::admin::PolicyState;
use ownmeshd::approvals::Approvals;
use ownmeshd::broker::abandoned_reason;
use ownmeshd::custody::{
    explain_answer, handle_policy_show, handle_policy_validate, sensitive_path_tags, PolicyAccount,
};
use ownmeshd::error::ErrorCode;
use ownmeshd::journal::OpJournal;
use ownmeshd::json::Json;
use ownmeshd::lifecycle::maybe_inject_persist_fault;
use ownmeshd::ops::{handle_git_diff, handle_git_status};
use ownmeshd::params::{AccessPreset, Decision, GitDiffParams, GitStatusParams};
use ownmeshd::runtime::{DaemonRuntime, StoredState};
use ownmeshd::sidecar::{
    fs_err, prepare_session_access, session_err, supervisor_binding_from, FsFailure,
    SessionFailure, SidecarHostBinding,
};
use ownmeshd::state_files::{persist_error, PersistTarget};
use ownmeshd::textset::TextSet;
use ownmeshd::transition::{check_host_expiry, needs_supervisor, reattach_error, ChildProof};
use ownmeshd::workspace::{
    canonical_workspace_id, check_upgraded_workspace_file, check_workspace_file_size,
    default_workspace, persist_workspaces, root_creation_error, workspace_for, workspace_id_for_path,
    WorkspaceEntry, MAX_WORKSPACE_FILE_BYTES,
};

fn runtime() -> DaemonRuntime {
    DaemonRuntime::open(StoredState {
        preset_name: Some("full_access".to_string()),
        custom_rules: Vec::new(),
        delegate_remote_mcp: false,
        workspaces: vec![default_workspace("/ws")],
        op_journal: Ok(OpJournal::new()),
        grants: Vec::new(),
        approvals: Approvals::new(),
        lockdown: true,
        revoked: TextSet::new(),
        sessions: Vec::new(),
        evidence: Vec::new(),
    })
}

#[test]
fn paths_select_their_workspace() {
    let one = vec![default_workspace("/ws")];
    let select = |all: &Vec<WorkspaceEntry>, enforce, id: Option<&str>, absolute| {
        workspace_id_for_path(all, enforce, id, absolute)
    };
    assert_eq!(select(&one, true, None, false).unwrap().as_deref(), Some("ws_default"));
    assert_eq!(select(&one, false, None, true).unwrap(), None);
    assert_eq!(
        select(&one, true, None, true).unwrap_err().to_text(),
        "absolute paths without workspace_id require Full Access"
    );
    assert_eq!(
        select(&one, true, Some("ws_x"), true).unwrap().as_deref(),
        Some("ws_x")
    );
    let two = vec![default_workspace("/ws"), default_workspace("/other")];
    assert_eq!(
        select(&two, true, Some(" "), false).unwrap_err().code,
        ErrorCode::InvalidParams
    );
    assert_eq!(canonical_workspace_id(Some("default")).unwrap(), "ws_default");
    assert!(canonical_workspace_id(Some("bad id")).is_err());
    assert_eq!(workspace_for(&one, None).unwrap(), 0);
    assert_eq!(
        workspace_for(&one, Some("ws_gone")).unwrap_err().to_text(),
        "unknown workspace_id: ws_gone"
    );
}

#[test]
fn workspace_files_are_bounded() {
    assert!(check_workspace_file_size(MAX_WORKSPACE_FILE_BYTES).is_ok());
    assert_eq!(
        check_workspace_file_size(262_145).unwrap_err(),
        "workspaces.json exceeds 262144 byte budget (262145)"
    );
    assert!(check_upgraded_workspace_file(262_144).is_ok());
    assert_eq!(
        check_upgraded_workspace_file(262_145).unwrap_err(),
        "upgraded workspaces.json exceeds 262144 byte budget (262145)"
    );
    assert!(persist_workspaces(262_144).is_ok());
    assert!(persist_workspaces(262_145).is_err());
}

#[test]
fn full_access_is_validated_against_hidden_rules() {
    let body = handle_policy_validate(AccessPreset::FullAccess, 3, true);
    assert_eq!(body.get_bool("ok"), Some(false));
    assert_eq!(body.get_i64("rule_count"), Some(3));
    let body = handle_policy_validate(AccessPreset::Recommended, 3, true);
    assert_eq!(body.get_bool("ok"), Some(true));
    let state = PolicyState {
        preset: AccessPreset::Recommended,
        custom_rules: Vec::new(),
        delegate_remote_mcp: true,
        enforce_workspace: true,
    };
    let account = PolicyAccount {
        note: Json::Null,
        rules: Json::Null,
        grants: Json::Null,
        lockdown: true,
        hidden_rules: true,
    };
    let body = handle_policy_show(&state, account);
    assert_eq!(body.get_str("preset"), Some("recommended"));
    assert_eq!(body.get_bool("lockdown"), Some(true));
    assert_eq!(body.get_bool("full_access_conformance"), Some(true));
    assert_eq!(body.get_bool("enforce_workspace"), Some(true));
    let body = explain_answer(Json::Null, Decision::Ask, Json::Null, "why", false);
    assert_eq!(body.get_str("decision"), Some("ask"));
    assert_eq!(body.get_str("reason"), Some("why"));
    assert_eq!(sensitive_path_tags(true, true, "w", "r"), vec!["w".to_string()]);
    assert_eq!(sensitive_path_tags(true, false, "w", "r"), vec!["r".to_string()]);
    assert!(sensitive_path_tags(false, true, "w", "r").is_empty());
}

#[test]
fn faults_count_down_to_one_failure() {
    let mut countdown = 2;
    assert!(maybe_inject_persist_fault(&mut countdown, "approvals").is_ok());
    let e = maybe_inject_persist_fault(&mut countdown, "approvals").unwrap_err();
    assert_eq!(e.to_text(), "fault-injected approvals persist failure");
    assert!(maybe_inject_persist_fault(&mut countdown, "approvals").is_ok());
    let mut daemon = runtime();
    daemon.fail_approvals_persist_on_nth_call_for_test(3);
    daemon.fail_sessions_persist_on_nth_call_for_test(4);
    daemon.fail_transfer_journal_persist_on_nth_call_for_test(5);
    daemon.fail_op_journal_write_on_nth_call_for_test(6);
    assert_eq!(daemon.faults.approvals_persist, 3);
    assert_eq!(daemon.faults.sessions_persist, 4);
    assert_eq!(daemon.faults.transfer_journal_persist, 5);
    assert_eq!(daemon.journal.write_fault, 6);
    assert!(!daemon.enforces_workspace_for_test());
    assert!(daemon.revoked_clients_handle().as_vec().is_empty());
}

#[test]
fn failures_of_files_and_sessions_have_their_class() {
    let e = fs_err(FsFailure::HashMismatch, "secret path");
    assert_eq!(e.code, ErrorCode::Conflict);
    assert_eq!(e.to_text(), "file changed since it was read");
    assert_eq!(fs_err(FsFailure::Other, "m").code, ErrorCode::Internal);
    assert_eq!(
        fs_err(FsFailure::GitWorktreeOutsideWorkspace, "m").code,
        ErrorCode::PolicyDenied
    );
    assert_eq!(session_err(SessionFailure::NotFound, "m").code, ErrorCode::InvalidParams);
    assert_eq!(session_err(SessionFailure::Persist, "m").code, ErrorCode::Internal);
    for (target, text) in [
        (PersistTarget::Approvals, "failed to persist approvals: x"),
        (PersistTarget::Grants, "failed to persist grants: x"),
        (PersistTarget::LockdownFlag, "failed to persist lockdown flag: x"),
        (PersistTarget::LockdownFlagCleared, "failed to clear lockdown flag: x"),
        (PersistTarget::OpJournal, "failed to persist op journal: x"),
        (PersistTarget::RevokedClients, "failed to persist revoked clients: x"),
        (PersistTarget::Sessions, "session persist failed: x"),
    ] {
        assert_eq!(persist_error(target, "x").to_text(), text);
    }
    assert_eq!(
        reattach_error("s", true, "x").to_text(),
        "interrupted persistent session s cleanup is pending: x"
    );
    assert_eq!(
        reattach_error("s", false, "x").to_text(),
        "persistent session s cannot reattach without respawn: x"
    );
    assert_ne!(abandoned_reason(true), abandoned_reason(false));
    assert!(prepare_session_access(&vec![None, Some(true), Some(false)]));
    assert!(!prepare_session_access(&vec![None, Some(true)]));
}

#[test]
fn supervisors_are_asked_only_where_the_system_cannot_tell() {
    assert!(!needs_supervisor(ChildProof::Dead, None));
    assert!(needs_supervisor(ChildProof::Dead, Some(ChildProof::Unknown)));
    assert!(needs_supervisor(ChildProof::Unknown, None));
    let binding = SidecarHostBinding {
        device_id: "d".to_string(),
        workspace_id: "w".to_string(),
        owner_principal: "o".to_string(),
        host_nonce: "n".to_string(),
        controller_epoch: 2,
        binding_expires_unix: 1,
        host_expires_unix: 1,
        child_pid: None,
        child_process_birth: None,
    };
    let exact = supervisor_binding_from("s", &binding);
    assert_eq!(exact.session_id, "s");
    assert_eq!(exact.host_nonce, "n");
    assert_eq!(exact.controller_epoch, 2);
    let record = ownmeshd::transition::TransitionRecord {
        transition_id: "t".to_string(),
        session_id: "s".to_string(),
        device_id: "d".to_string(),
        workspace_id: "w".to_string(),
        kind: ownmeshd::transition::TransitionKind::Close,
        phase: ownmeshd::transition::TransitionPhase::Intent,
        old_binding: binding,
        new_binding: None,
        target: ownmeshd::transition::TransitionTarget {
            principal: "o".to_string(),
            controller_epoch: 3,
            binding_expires_unix: 1,
            lease_id: None,
            controller_attached: false,
        },
        expires_unix: 1,
    };
    assert!(check_host_expiry(&record));
}

#[test]
fn a_status_is_judged_by_its_repository() {
    let p = GitStatusParams {
        path: "repo".to_string(),
        cursor: None,
        limit: None,
        workspace_id: Some("ws_default".to_string()),
        idempotency_key: None,
    };
    let (_, facts) = handle_git_status(p, &vec![], false, false).unwrap();
    assert_eq!(facts.capability, "filesystem.read");
    assert_eq!(facts.kind, "git");
    assert_eq!(facts.path.as_deref(), Some("repo"));
    assert!(facts.workspace_relative);
    assert_eq!(facts.tags, vec!["git".to_string(), "status".to_string()]);
}

#[test]
fn a_repository_is_read_in_the_workspace_that_is_selected() {
    let status = |id: Option<&str>| GitStatusParams {
        path: "repo".to_string(),
        cursor: None,
        limit: None,
        workspace_id: id.map(str::to_string),
        idempotency_key: None,
    };
    let one = vec![default_workspace("/ws")];
    let (bound, facts) = handle_git_status(status(None), &one, true, false).unwrap();
    assert_eq!(bound.workspace_id.as_deref(), Some("ws_default"));
    assert_eq!(facts.workspace_id.as_deref(), Some("ws_default"));
    let (bound, facts) = handle_git_status(status(None), &one, false, true).unwrap();
    assert_eq!(bound.workspace_id, None);
    assert!(!facts.workspace_relative);
    let e = handle_git_status(status(None), &one, true, true).unwrap_err();
    assert_eq!(e.to_text(), "absolute paths without workspace_id require Full Access");

    let two = vec![default_workspace("/ws"), default_workspace("/other")];
    let e = handle_git_status(status(None), &two, true, false).unwrap_err();
    assert_eq!(e.code, ErrorCode::InvalidParams);
    let diff = |id: Option<&str>| GitDiffParams {
        path: "repo".to_string(),
        pathspec: None,
        staged: false,
        cursor: None,
        limit: None,
        max_bytes: None,
        workspace_id: id.map(str::to_string),
        idempotency_key: None,
    };
    let e = handle_git_diff(diff(None), &two, true, false, "sensitive_read").unwrap_err();
    assert_eq!(e.code, ErrorCode::InvalidParams);
    let (bound, _) =
        handle_git_diff(diff(Some("ws_x")), &two, true, false, "sensitive_read").unwrap();
    assert_eq!(bound.workspace_id.as_deref(), Some("ws_x"));
}

#[test]
fn a_root_that_cannot_be_made_is_an_internal_error() {
    let e = root_creation_error("read-only");
    assert_eq!(e.code, ErrorCode::Internal);
    assert_eq!(e.to_text(), "workspace root missing and create failed: read-only");
}

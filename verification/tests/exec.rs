use ownmeshd::admin::PolicyState;
use ownmeshd::broker::{
    broker_client_error, broker_outcome, broker_response_value, build_broker_execute_intent,
    execute_windows_broker_with_cancel, sealed, try_broker_elevated, BrokerCustody, BrokerLimits,
    BrokerPlatform, BrokerResponse, PipeAction, PipeEvent, PipeState, Reattestation,
};
use ownmeshd::dispatch::RemoteBinding;
use ownmeshd::error::{ErrorCode, IpcError};
use ownmeshd::exec::{
    exec_answer, exec_error, execute_exec, handle_exec, require_pins, sanitize_exec_env,
    CommandKind, DetachedSlots, DirectoryPlan, ExecFailure, ExecRun, ResolvedProgram, TakenPins,
};
use ownmeshd::json::{Json, JsonObject};
use ownmeshd::params::{AccessPreset, ExecParams, ExecutablePin};
use ownmeshd::sidecar::FsFailure;
use ownmeshd::workspace::{default_workspace, WorkspaceEntry};

const NOW: i64 = 1_800_000_000;
const LIMITS: BrokerLimits = BrokerLimits {
    capability_ttl_secs: 60,
    hard_max_timeout_ms: 600_000,
};

fn pin(path: &str) -> ExecutablePin {
    ExecutablePin {
        path: path.to_string(),
        content_sha256: "c".repeat(64),
        len: 7,
        device: None,
        inode: None,
        path_device: None,
        path_inode: None,
        link_target: None,
        policy_kind: "structured".to_string(),
    }
}

fn command(program: &str) -> ExecParams {
    ExecParams {
        kind: Some("structured".to_string()),
        policy_kind: None,
        program: program.to_string(),
        args: vec!["--version".to_string()],
        cwd: None,
        workspace_id: None,
        env: Vec::new(),
        timeout_ms: Some(2_000),
        idempotency_key: None,
        max_output_bytes: Some(4_096),
        elevated: false,
        detach: false,
        executable_pin: None,
        invocation_pin: None,
        shell_pin: None,
    }
}

fn bound_runtime() -> (RemoteBinding, ExecParams) {
    let binding = RemoteBinding {
        operation_id: Some("op_elevated_exact_1".to_string()),
        payload_hash: Some("a".repeat(64)),
        device_id: Some("device_elevated_1".to_string()),
        principal: Some("client:remote:tenant_e8:principal_e8".to_string()),
        principal_credential_generation: Some(7),
        expires_at_unix: Some(NOW + 300),
    };
    let mut params = command("/bin/true");
    params.policy_kind = Some("structured".to_string());
    params.workspace_id = Some("ws_default".to_string());
    params.idempotency_key = Some("idempotent_elevated_1".to_string());
    params.elevated = true;
    params.executable_pin = Some(pin("/bin/true"));
    (binding, params)
}

#[test]
fn elevated_intent_is_exactly_bound_to_remote_authority_and_pinned_argv() {
    let (binding, params) = bound_runtime();
    let intent = build_broker_execute_intent(&params, &binding, None, LIMITS, NOW, NOW).unwrap();
    let intent = sealed(intent, "mac".to_string());
    assert_eq!(intent.operation_id, "op_elevated_exact_1");
    assert_eq!(intent.facts.remote_payload_sha256, "a".repeat(64));
    assert_eq!(intent.facts.tenant_id, "tenant_e8");
    assert_eq!(intent.facts.principal_id, "principal_e8");
    assert_eq!(intent.facts.principal_credential_generation, 7);
    assert_eq!(intent.facts.argv[0], intent.facts.executable.canonical_path);
    assert_eq!(intent.facts.argv[1], "--version");
    assert!(intent.facts.sanitized_env.is_empty());
    assert!(!intent.mac.is_empty());
    assert_eq!(intent.expires_at_unix, NOW + 60);
    assert!(intent.request_id.starts_with("breq_"));
    assert!(intent.nonce.starts_with("bnonce_"));
}

fn refusal(params: &ExecParams, binding: &RemoteBinding) -> IpcError {
    build_broker_execute_intent(params, binding, None, LIMITS, NOW, NOW).unwrap_err()
}

#[test]
fn elevated_intent_refuses_missing_generation_and_unsafe_handoff_facts() {
    let (mut binding, mut params) = bound_runtime();
    binding.principal_credential_generation = None;
    assert!(refusal(&params, &binding).to_text().contains("credential generation"));

    binding.principal_credential_generation = Some(7);
    params.cwd = Some("/untrusted-cwd".to_string());
    assert!(refusal(&params, &binding).to_text().contains("cwd handoff"));

    params.cwd = None;
    params.env.push(("PATH".to_string(), "/attacker".to_string()));
    assert!(refusal(&params, &binding).to_text().contains("environment overlays"));

    params.env.clear();
    params.workspace_id = None;
    assert!(refusal(&params, &binding).to_text().contains("workspace id"));
}

#[test]
fn elevated_intent_names_each_missing_authority() {
    let check = |change: &dyn Fn(&mut RemoteBinding), text: &str| {
        let (mut binding, params) = bound_runtime();
        change(&mut binding);
        let e = refusal(&params, &binding);
        assert_eq!(e.code, ErrorCode::Unauthorized);
        assert_eq!(
            e.to_text(),
            format!("privileged broker binding unavailable: {text} (fail-closed; no local exec)")
        );
    };
    check(&|b| b.operation_id = None, "remote operation id is required");
    check(&|b| b.payload_hash = Some("A".repeat(64)), "server exact payload hash is required");
    check(&|b| b.device_id = None, "verified remote device id is required");
    check(&|b| b.principal = None, "verified remote principal is required");
    check(
        &|b| b.principal = Some("client:local:x".to_string()),
        "verified remote principal shape is invalid",
    );
    check(&|b| b.expires_at_unix = Some(NOW), "unexpired remote operation is required");

    let (binding, mut params) = bound_runtime();
    let e = build_broker_execute_intent(&params, &binding, Some("gone"), LIMITS, NOW, NOW).unwrap_err();
    assert!(e.to_text().contains("executable identity changed before privileged handoff: gone"));
    let late = build_broker_execute_intent(&params, &binding, None, LIMITS, NOW, NOW + 300).unwrap_err();
    assert!(late.to_text().contains("remote operation expires before broker handoff"));
    params.executable_pin.as_mut().unwrap().policy_kind = "raw_shell".to_string();
    assert!(refusal(&params, &binding).to_text().contains("raw-shell"));
    params.executable_pin = None;
    assert!(refusal(&params, &binding).to_text().contains("server-pinned structured executable"));
}

#[test]
fn uncertain_broker_write_is_non_retriable_conflict() {
    let failure = broker_client_error(true, "lost response");
    assert_eq!(failure.error.code, ErrorCode::Conflict);
    assert!(failure.uncertain);
    let refused = broker_client_error(false, "refused");
    assert_eq!(refused.error.code, ErrorCode::Internal);
    assert!(!refused.uncertain);
}

fn response(ok: bool) -> BrokerResponse {
    BrokerResponse {
        request_id: "breq_ok".to_string(),
        ok,
        exit_code: Some(0),
        stdout: "ok".to_string(),
        stderr: String::new(),
        error: None,
        timed_out: false,
        cancelled: false,
        truncated: true,
        duration_ms: 2,
    }
}

#[test]
fn broker_failure_never_becomes_a_successful_exec_result() {
    let denied = broker_response_value(&BrokerResponse {
        request_id: "breq_failed".to_string(),
        ok: false,
        exit_code: Some(1),
        stdout: "must-not-be-a-result".to_string(),
        stderr: "failed".to_string(),
        error: Some("broker failed".to_string()),
        timed_out: false,
        cancelled: false,
        truncated: false,
        duration_ms: 1,
    })
    .unwrap_err();
    assert!(denied.to_text().contains("broker rejected"));

    let result = Json::Object(broker_response_value(&response(true)).unwrap());
    assert_eq!(result.get_i64("exit_code"), Some(0));
    assert_eq!(result.get_str("stdout"), Some("ok"));
    assert_eq!(result.get_bool("truncated"), Some(true));
    assert_eq!(result.get_bool("replayed"), Some(false));
}

#[test]
fn broker_outcomes_need_attestation_before_and_after() {
    for platform in [BrokerPlatform::Unix, BrokerPlatform::Windows] {
        assert!(broker_outcome(platform, "breq_ok", &response(true), Reattestation::Same).is_ok());
        for after in [Reattestation::Failed, Reattestation::Changed] {
            let e = broker_outcome(platform, "breq_ok", &response(true), after).unwrap_err();
            assert_eq!(e.error.code, ErrorCode::Conflict);
            assert!(e.error.to_text().contains("must not be retried"));
            assert!(e.uncertain);
        }
        let e = broker_outcome(platform, "breq_ok", &response(false), Reattestation::Same).unwrap_err();
        assert!(!e.uncertain);
        let e = broker_outcome(platform, "breq_x", &response(true), Reattestation::Same).unwrap_err();
        assert_eq!(e.error.code, ErrorCode::Internal);
        assert!(e.uncertain);
        assert!(try_broker_elevated(platform, BrokerCustody::Attested).is_ok());
        assert!(try_broker_elevated(platform, BrokerCustody::Unavailable).is_err());
        assert!(try_broker_elevated(platform, BrokerCustody::UnknownImage).is_err());
    }
    assert!(try_broker_elevated(BrokerPlatform::Unsupported, BrokerCustody::Attested).is_err());
    let mut timed_out = response(false);
    timed_out.timed_out = true;
    let e = broker_response_value(&timed_out).unwrap_err();
    assert_eq!(e.code, ErrorCode::Conflict);
    assert!(e.to_text().ends_with("unknown broker failure"));
}

#[test]
fn a_false_cancel_flag_does_not_preempt_execution() {
    let waiting = PipeState::Waiting { channel_open: true };
    assert_eq!(
        execute_windows_broker_with_cancel(PipeState::Unsubmitted, PipeEvent::Flag(false)),
        PipeAction::Submit
    );
    assert_eq!(
        execute_windows_broker_with_cancel(PipeState::Unsubmitted, PipeEvent::Flag(true)),
        PipeAction::AbandonUnsubmitted
    );
    assert_eq!(
        execute_windows_broker_with_cancel(waiting, PipeEvent::Flag(false)),
        PipeAction::Wait(waiting)
    );
    assert_eq!(
        execute_windows_broker_with_cancel(waiting, PipeEvent::Flag(true)),
        PipeAction::Cancel
    );
}

#[test]
fn a_closed_cancel_channel_is_disabled_and_the_answer_still_counts() {
    let closed = PipeState::Waiting { channel_open: false };
    assert_eq!(
        execute_windows_broker_with_cancel(
            PipeState::Waiting { channel_open: true },
            PipeEvent::ChannelClosed
        ),
        PipeAction::Wait(closed)
    );
    assert_eq!(
        execute_windows_broker_with_cancel(closed, PipeEvent::Flag(true)),
        PipeAction::Wait(closed)
    );
    assert_eq!(
        execute_windows_broker_with_cancel(PipeState::Cancelling, PipeEvent::Answered),
        PipeAction::Finish
    );
    assert_eq!(
        execute_windows_broker_with_cancel(PipeState::Cancelling, PipeEvent::Delivered),
        PipeAction::AbandonSubmitted
    );
}

fn policy(preset: AccessPreset, enforce_workspace: bool) -> PolicyState {
    PolicyState {
        preset,
        custom_rules: Vec::new(),
        delegate_remote_mcp: false,
        enforce_workspace,
    }
}

fn workspaces() -> Vec<WorkspaceEntry> {
    vec![default_workspace("/state/ws")]
}

fn full() -> PolicyState {
    policy(AccessPreset::FullAccess, false)
}

#[test]
fn commands_are_refused_under_confining_presets() {
    let e = handle_exec(
        command("ls"),
        &policy(AccessPreset::Recommended, true),
        false,
        &workspaces(),
    )
    .unwrap_err();
    assert_eq!(e.code, ErrorCode::PolicyDenied);
    assert!(e.to_text().starts_with("command.run denied under recommended until"));
    let e = handle_exec(command("  "), &full(), false, &workspaces()).unwrap_err();
    assert_eq!(e.to_text(), "program is required");
    let mut elevated = command("ls");
    elevated.elevated = true;
    let e = handle_exec(elevated, &policy(AccessPreset::FullUserAccess, false), false, &workspaces())
        .unwrap_err();
    assert_eq!(e.to_text(), "elevated execution requires the Full Access preset");
    let mut elevated = command("ls");
    elevated.elevated = true;
    assert!(handle_exec(elevated, &full(), true, &workspaces()).is_err());
}

#[test]
fn pins_and_classification_are_the_daemons_own() {
    let mut p = command("cargo");
    p.executable_pin = Some(pin("/client"));
    p.policy_kind = Some("structured".to_string());
    p.workspace_id = Some("default".to_string());
    let admitted = handle_exec(p, &full(), false, &workspaces()).unwrap();
    assert_eq!(admitted.directory(), DirectoryPlan::Root(0));
    let placed = admitted.placed(Some(Ok("/state/ws".to_string()))).unwrap();
    assert_eq!(placed.request().cwd.as_deref(), Some("/state/ws"));
    let bound = placed.bound(
        CommandKind::Structured,
        Some(ResolvedProgram {
            invocation: "/home/u/.cargo/bin/cargo".to_string(),
            backing: "/home/u/.cargo/bin/rustup".to_string(),
        }),
    );
    assert_eq!(bound.request().program, "/home/u/.cargo/bin/cargo");
    let classified = bound.classified(CommandKind::Structured).unwrap();
    assert!(classified.pin_plan().program.is_some());
    assert!(!classified.pin_plan().shell);
    let pinned = classified
        .pinned(TakenPins {
            backing: Some(Ok(pin("/home/u/.cargo/bin/rustup"))),
            invocation: Some(Ok(pin("/home/u/.cargo/bin/cargo"))),
            shell: None,
        })
        .unwrap();
    let facts = pinned.facts();
    assert_eq!(facts.kind, "structured");
    assert_eq!(facts.program.as_deref(), Some("/home/u/.cargo/bin/cargo"));
    assert_eq!(facts.executable_identity.unwrap().path, "/home/u/.cargo/bin/rustup");
    assert_eq!(facts.invocation_identity.unwrap().path, "/home/u/.cargo/bin/cargo");
    let p = pinned.into_params();
    assert_eq!(p.policy_kind.as_deref(), Some("structured"));
    assert_eq!(p.executable_pin.unwrap().path, "/home/u/.cargo/bin/rustup");
}

#[test]
fn structured_exec_unresolvable_program_fails_closed_before_authorization() {
    let admitted = handle_exec(command("no-such-tool"), &full(), false, &workspaces()).unwrap();
    assert_eq!(admitted.directory(), DirectoryPlan::Unbound);
    let bound = admitted.placed(None).unwrap().bound(CommandKind::Structured, None);
    let e = bound.classified(CommandKind::Structured).unwrap_err();
    assert_eq!(e.code, ErrorCode::InvalidParams);
    assert!(e.to_text().starts_with("structured program `no-such-tool` could not be resolved"));
}

#[test]
fn shells_are_pinned_as_interpreters() {
    let placed = handle_exec(command("echo hi"), &full(), false, &workspaces())
        .unwrap()
        .placed(None)
        .unwrap();
    let classified = placed
        .bound(CommandKind::RawShell, None)
        .classified(CommandKind::RawShell)
        .unwrap();
    assert!(classified.pin_plan().shell);
    let e = classified
        .pinned(TakenPins {
            backing: None,
            invocation: None,
            shell: Some(Err("missing".to_string())),
        })
        .unwrap_err();
    assert_eq!(e.to_text(), "unable to pin raw-shell interpreter identity: missing");
}

#[test]
fn directories_are_resolved_in_the_workspace() {
    let mut p = command("ls");
    p.workspace_id = Some("ws_default".to_string());
    p.cwd = Some("sub".to_string());
    let admitted = handle_exec(p, &full(), false, &workspaces()).unwrap();
    assert_eq!(admitted.directory(), DirectoryPlan::Resolve(0));
    assert_eq!(admitted.cwd().as_deref(), Some("sub"));
    let e = admitted
        .placed(Some(Err((FsFailure::Other, "escapes".to_string()))))
        .unwrap_err();
    assert_eq!(e.to_text(), "escapes");

    let mut legacy = workspaces();
    legacy[0].id = "default".to_string();
    legacy.push(default_workspace("/other"));
    let mut p = command("ls");
    p.workspace_id = Some("ws_default".to_string());
    let admitted = handle_exec(p, &full(), false, &legacy).unwrap();
    assert_eq!(admitted.directory(), DirectoryPlan::Root(0));

    let mut elevated = command("ls");
    elevated.elevated = true;
    elevated.workspace_id = Some("ws_default".to_string());
    let admitted = handle_exec(elevated, &full(), false, &workspaces()).unwrap();
    assert_eq!(admitted.directory(), DirectoryPlan::ContextOnly);
    let mut elevated = command("ls");
    elevated.elevated = true;
    elevated.workspace_id = Some("ws_default".to_string());
    elevated.cwd = Some("/tmp".to_string());
    assert!(handle_exec(elevated, &full(), false, &workspaces())
        .unwrap_err()
        .to_text()
        .contains("elevated cwd handoff"));
    let mut unknown = command("ls");
    unknown.workspace_id = Some("ws_missing".to_string());
    assert!(handle_exec(unknown, &full(), false, &workspaces())
        .unwrap_err()
        .to_text()
        .contains("unknown workspace_id"));
}

fn pinned_command(program: &str) -> ExecParams {
    let mut p = command(program);
    p.invocation_pin = Some(pin("/bin/ls"));
    p.executable_pin = Some(pin("/bin/ls"));
    p
}

#[test]
fn drifted_commands_never_run() {
    let mut slots = DetachedSlots::new();
    let p = pinned_command("ls");
    let e = execute_exec(&p, CommandKind::Structured, false, CommandKind::Structured, CommandKind::Structured, &mut slots, 1000)
        .unwrap_err();
    assert_eq!(e.code, ErrorCode::ExecutableIdentityDrift);
    assert!(e.to_text().contains("invocation identity changed"));
    let e = execute_exec(&p, CommandKind::Structured, true, CommandKind::RawShell, CommandKind::Structured, &mut slots, 1000)
        .unwrap_err();
    assert!(e.to_text().contains("command classification changed"));
    let p = command("ls");
    let e = execute_exec(&p, CommandKind::Structured, false, CommandKind::RawShell, CommandKind::Structured, &mut slots, 1000)
        .unwrap_err();
    assert!(e.to_text().contains("structured invocation pin is missing"));
    assert!(require_pins(&p, CommandKind::Structured).unwrap_err().to_text().contains("invocation pin"));
    let mut half = command("ls");
    half.invocation_pin = Some(pin("/bin/ls"));
    assert!(require_pins(&half, CommandKind::Structured).unwrap_err().to_text().contains("backing pin"));
    assert!(require_pins(&p, CommandKind::RawShell).unwrap_err().to_text().contains("interpreter pin"));
    half.executable_pin = Some(pin("/bin/ls"));
    assert!(require_pins(&half, CommandKind::Structured).is_ok());
}

#[test]
fn runs_are_bounded() {
    let mut slots = DetachedSlots::new();
    let mut p = pinned_command("ls");
    p.timeout_ms = Some(10_000_000);
    p.max_output_bytes = Some(10_000_000);
    match execute_exec(&p, CommandKind::Structured, true, CommandKind::Structured, CommandKind::Structured, &mut slots, 600_000)
        .unwrap()
    {
        ExecRun::Local(plan) => {
            assert_eq!(plan.timeout_ms, Some(600_000));
            assert_eq!(plan.max_output_bytes, 200_000);
        }
        ExecRun::Elevated => panic!("not elevated"),
    }
    p.timeout_ms = None;
    p.max_output_bytes = None;
    p.detach = true;
    match execute_exec(&p, CommandKind::Structured, true, CommandKind::Structured, CommandKind::Structured, &mut slots, 600_000)
        .unwrap()
    {
        ExecRun::Local(plan) => {
            assert_eq!(plan.timeout_ms, None);
            assert_eq!(plan.max_output_bytes, 131_072);
        }
        ExecRun::Elevated => panic!("not elevated"),
    }
    assert_eq!(slots.len(), 1);
    p.elevated = true;
    assert!(matches!(
        execute_exec(&p, CommandKind::Structured, true, CommandKind::Structured, CommandKind::Structured, &mut slots, 600_000),
        Ok(ExecRun::Elevated)
    ));
    assert_eq!(slots.len(), 2);
}

#[test]
fn detached_commands_are_capped_and_failures_give_their_slot_back() {
    let mut slots = DetachedSlots::new();
    let mut p = pinned_command("ls");
    p.detach = true;
    p.env = vec![("A=B".to_string(), "x".to_string())];
    assert!(
        execute_exec(&p, CommandKind::Structured, true, CommandKind::Structured, CommandKind::Structured, &mut slots, 1).is_err()
    );
    assert_eq!(slots.len(), 0);
    p.env.clear();
    for _ in 0..4 {
        execute_exec(&p, CommandKind::Structured, true, CommandKind::Structured, CommandKind::Structured, &mut slots, 1).unwrap();
    }
    let e = execute_exec(&p, CommandKind::Structured, true, CommandKind::Structured, CommandKind::Structured, &mut slots, 1)
        .unwrap_err();
    assert_eq!(e.code, ErrorCode::Conflict);
    assert!(e.to_text().starts_with("detached command cap reached (4);"));
    slots.release();
    assert!(execute_exec(&p, CommandKind::Structured, true, CommandKind::Structured, CommandKind::Structured, &mut slots, 1).is_ok());
}

#[test]
fn environment_overlays_are_bounded() {
    let pair = |k: &str, v: &str| (k.to_string(), v.to_string());
    assert_eq!(sanitize_exec_env(&vec![pair("A", "1")]).unwrap(), vec![pair("A", "1")]);
    for bad in [pair("", "x"), pair("A=", "x"), pair("A\0", "x"), (("k".repeat(129)), "x".to_string())] {
        let e = sanitize_exec_env(&vec![bad]).unwrap_err();
        assert_eq!(e.to_text(), "env key is empty, too long, or contains NUL/=");
    }
    for bad in [pair("A", "x\0"), ("A".to_string(), "v".repeat(4097))] {
        let e = sanitize_exec_env(&vec![bad]).unwrap_err();
        assert_eq!(e.to_text(), "env value is too long or contains NUL");
    }
    let many: Vec<(String, String)> = (0..33).map(|i| (format!("K{i}"), String::new())).collect();
    assert_eq!(sanitize_exec_env(&many).unwrap_err().to_text(), "env exceeds 32 entries");
    let large: Vec<(String, String)> = (0..5).map(|i| (format!("K{i}"), "v".repeat(4000))).collect();
    assert_eq!(sanitize_exec_env(&large).unwrap_err().to_text(), "env exceeds 16384 total bytes");
    assert!(sanitize_exec_env(&vec![("k".repeat(128), "v".repeat(4096))]).is_ok());
}

#[test]
fn command_failures_and_answers() {
    assert_eq!(exec_error(ExecFailure::Cancelled, "c").code, ErrorCode::Conflict);
    assert_eq!(exec_error(ExecFailure::ExecutableFormat, "c").code, ErrorCode::ExecutableFormat);
    assert_eq!(exec_error(ExecFailure::Other, "c").code, ErrorCode::Internal);
    let mut p = command("ls");
    p.workspace_id = Some("ws_default".to_string());
    p.detach = true;
    let body = exec_answer(JsonObject::new(), &p);
    assert_eq!(body.get_str("workspace_id"), Some("ws_default"));
    assert_eq!(body.get_bool("detached"), Some(true));
    p.detach = false;
    assert!(exec_answer(JsonObject::new(), &p).get("detached").is_none());
}

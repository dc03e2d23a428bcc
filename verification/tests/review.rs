use ownmeshd::dispatch::RemoteBinding;
use ownmeshd::error::ErrorCode;
use ownmeshd::exec::{CommandKind, ExecFailure, ResolvedProgram};
use ownmeshd::grants::PolicyVerdict;
use ownmeshd::json::{Json, JsonObject};
use ownmeshd::params::{Decision, ExecutablePin};
use ownmeshd::review::{
    format_run_summary, page_bound, review_page_limit, ResultKind, ReviewSpool, RunReport,
};
use ownmeshd::review_flow::{
    admit_review, authorize_review_batch, check_review_argv, check_review_head,
    check_review_program, handle_review_page, handle_review_show, new_manifest,
    pin_review_command, review_answer, review_is_structured, review_journal_key,
    review_operation_id, review_program_facts, review_run_plan, run_review_command, HeadPoint,
    RepositorySnapshot, ReviewAdmission, ReviewAttempt, ReviewCommand, ReviewPhase, ReviewProgram,
    ReviewRun, ReviewStage, ReviewStart, RunOutcome,
};
use ownmeshd::workspace::default_workspace;

const NOW: i64 = 1_800_000_000;

fn report(exit_code: Option<i32>) -> RunReport {
    RunReport {
        exit_code,
        stdout: "out".as_bytes().to_vec(),
        stderr: Vec::new(),
        timed_out: false,
        truncated: false,
        duration_ms: 5,
    }
}

fn finished(exit_code: Option<i32>, cancelled: bool) -> RunOutcome {
    run_review_command(ReviewAttempt::Finished { report: report(exit_code), cancelled })
}

fn start(has_command: bool, tests: usize) -> (ReviewRun, ReviewStage) {
    ReviewRun::handle_review_start("head".to_string(), "clean", has_command, tests)
}

fn snapshots(run: &mut ReviewRun, stage: ReviewStage) {
    assert_eq!(stage, ReviewStage::Snapshot(RepositorySnapshot::Status));
    let stage = run.on_snapshot(RepositorySnapshot::Status, &Ok("s".as_bytes().to_vec()));
    assert_eq!(stage, ReviewStage::Snapshot(RepositorySnapshot::Diff));
    let stage = run.on_snapshot(RepositorySnapshot::Diff, &Err("broken".to_string()));
    assert_eq!(stage, ReviewStage::Done);
}

fn notes(chunks: &[ownmeshd::review::ReviewResultChunk]) -> Vec<String> {
    chunks
        .iter()
        .filter(|c| c.kind == ResultKind::System)
        .map(|c| String::from_utf8(c.bytes.clone()).unwrap())
        .collect()
}

#[test]
fn a_clean_review_completes() {
    let (mut run, stage) = start(true, 2);
    assert_eq!(stage, ReviewStage::Head(HeadPoint::BeforeCommand));
    let stage = run.on_head(HeadPoint::BeforeCommand, "head");
    assert_eq!(stage, ReviewStage::Run(ReviewProgram::Command));
    let stage = run.on_run(ReviewProgram::Command, &finished(Some(0), false));
    assert_eq!(stage, ReviewStage::Head(HeadPoint::AfterCommand));
    let stage = run.on_head(HeadPoint::AfterCommand, "head");
    assert_eq!(stage, ReviewStage::Run(ReviewProgram::Test(0)));
    let stage = run.on_run(ReviewProgram::Test(0), &finished(Some(0), false));
    assert_eq!(stage, ReviewStage::Run(ReviewProgram::Test(1)));
    let stage = run.on_run(ReviewProgram::Test(1), &finished(Some(0), false));
    assert_eq!(stage, ReviewStage::Head(HeadPoint::AfterTests));
    let stage = run.on_head(HeadPoint::AfterTests, "head");
    snapshots(&mut run, stage);
    let (phase, chunks) = run.conclude();
    assert_eq!(phase, ReviewPhase::Completed);
    assert_eq!(chunks[0].kind, ResultKind::System);
    assert_eq!(chunks[0].bytes, "baseline git status: clean".as_bytes());
    assert_eq!(chunks[1].kind, ResultKind::CommandStdout);
    assert_eq!(chunks[1].bytes, "out".as_bytes());
    assert_eq!(chunks[3].kind, ResultKind::TestStdout);
    assert_eq!(chunks[3].test_index, Some(0));
    let notes = notes(&chunks);
    assert_eq!(notes[1], "command: exit=Some(0) timeout=false truncated=false duration_ms=5");
    assert_eq!(notes[2], "test[0]: exit=Some(0) timeout=false truncated=false duration_ms=5");
    assert_eq!(notes[4], "git diff snapshot failed: broken");
}

#[test]
fn tests_do_not_start_after_a_failed_command() {
    let (mut run, _) = start(true, 2);
    let _ = run.on_head(HeadPoint::BeforeCommand, "head");
    let stage = run.on_run(ReviewProgram::Command, &finished(Some(1), false));
    assert_eq!(stage, ReviewStage::Head(HeadPoint::AfterTests));
    let stage = run.on_head(HeadPoint::AfterTests, "head");
    snapshots(&mut run, stage);
    assert_eq!(run.conclude().0, ReviewPhase::Failed);
}

#[test]
fn a_failed_test_fails_the_review_but_the_others_run() {
    let (mut run, stage) = start(false, 2);
    assert_eq!(stage, ReviewStage::Head(HeadPoint::AfterCommand));
    let _ = run.on_head(HeadPoint::AfterCommand, "head");
    let stage = run.on_run(ReviewProgram::Test(0), &finished(None, false));
    assert_eq!(stage, ReviewStage::Run(ReviewProgram::Test(1)));
    let stage = run.on_run(ReviewProgram::Test(1), &finished(Some(0), false));
    assert_eq!(stage, ReviewStage::Head(HeadPoint::AfterTests));
    assert_eq!(run.conclude().0, ReviewPhase::Failed);
}

#[test]
fn a_cancelled_review_stops_and_is_not_compared_again() {
    let (mut run, _) = start(false, 2);
    let _ = run.on_head(HeadPoint::AfterCommand, "head");
    let stage = run.on_run(ReviewProgram::Test(0), &finished(Some(0), true));
    snapshots(&mut run, stage);
    let (phase, chunks) = run.conclude();
    assert_eq!(phase, ReviewPhase::Cancelled);
    assert!(notes(&chunks)
        .contains(&"review cancelled; process tree termination requested".to_string()));
}

#[test]
fn a_moved_head_makes_a_review_fail_at_each_point() {
    for (point, note) in [
        (HeadPoint::BeforeCommand, "review repository HEAD changed before command spawn"),
        (
            HeadPoint::AfterCommand,
            "review repository HEAD changed after command; tests not started",
        ),
        (
            HeadPoint::AfterTests,
            "review repository HEAD changed after tests; final result is stale",
        ),
    ] {
        let (mut run, _) = start(true, 1);
        let stage = run.on_head(point, "other");
        assert!(!matches!(stage, ReviewStage::Run(_)));
        let (phase, chunks) = run.conclude();
        assert_eq!(phase, ReviewPhase::Failed);
        assert!(notes(&chunks).contains(&note.to_string()));
    }
}

#[test]
fn programs_that_never_ran_report_why() {
    let outcome = run_review_command(ReviewAttempt::Unprepared);
    assert!(!outcome.ok && !outcome.cancelled);
    assert!(String::from_utf8(outcome.report.stderr).unwrap().contains("IDENTITY_DRIFT"));
    let outcome = run_review_command(ReviewAttempt::Failed {
        failure: ExecFailure::Cancelled,
        message: "stopped".to_string(),
    });
    assert!(outcome.cancelled && !outcome.ok);
    assert_eq!(outcome.report.stderr, "stopped".as_bytes());
    let mut late = report(Some(0));
    late.timed_out = true;
    let outcome = run_review_command(ReviewAttempt::Finished { report: late, cancelled: false });
    assert!(!outcome.ok);
    assert!(review_is_structured(CommandKind::Structured, CommandKind::Structured));
    assert!(!review_is_structured(CommandKind::Structured, CommandKind::RawShell));
    assert_eq!(
        format_run_summary("x", &report(None)),
        "x: exit=None timeout=false truncated=false duration_ms=5"
    );
}

#[test]
fn large_output_is_cut_into_chunks_and_its_omission_recorded() {
    let mut spool = ReviewSpool::new();
    spool.append_review_result(ResultKind::CommandStdout, None, &vec![b'x'; 70_000]);
    assert_eq!(spool.len(), 2);
    spool.append_review_result(ResultKind::CommandStderr, None, &vec![b'y'; 100_000]);
    let chunks = spool.into_chunks();
    assert_eq!(chunks[0].bytes.len(), 65_536);
    assert_eq!(chunks[1].bytes.len(), 70_000 - 65_536);
    assert_eq!(chunks[2].bytes.len(), 65_536);
    assert_eq!(chunks[3].bytes.len(), 143_360 - 70_000 - 65_536);
    assert_eq!(
        notes(&chunks),
        vec!["review output truncated: omitted 26640 bytes".to_string()]
    );
}

#[test]
fn output_beyond_the_content_budget_is_never_dropped_silently() {
    let mut spool = ReviewSpool::new();
    spool.append_review_result(ResultKind::CommandStdout, None, &vec![b'x'; 143_360]);
    assert_eq!(spool.len(), 3);
    spool.append_review_result(ResultKind::CommandStderr, None, &vec![b'y'; 10]);
    let chunks = spool.into_chunks();
    assert_eq!(
        notes(&chunks),
        vec!["review output truncated: omitted 10 bytes".to_string()]
    );
    let mut spool = ReviewSpool::new();
    for _ in 0..60 {
        spool.append_review_system("note");
    }
    spool.append_review_result(ResultKind::TestStdout, Some(1), &vec![b'z'; 3]);
    assert_eq!(spool.len(), 61);
    spool.append_review_result(ResultKind::TestStderr, Some(1), &Vec::new());
    assert_eq!(spool.len(), 61);
    for _ in 0..10 {
        spool.append_review_system("note");
    }
    let chunks = spool.into_chunks();
    assert_eq!(chunks.len(), 64);
    assert_eq!(chunks[60].bytes, "review output truncated: omitted 3 bytes".as_bytes());
}

#[test]
fn pages_are_bounded() {
    assert_eq!(review_page_limit(), 49_152);
    assert_eq!(page_bound(10), 10);
    assert_eq!(page_bound(1_000_000), 49_152);
}

fn binding() -> RemoteBinding {
    RemoteBinding::bind(
        Some("op_1".to_string()),
        Some(NOW + 60),
        Some("a".repeat(64)),
        Some("dev_a".to_string()),
        "client:remote:t:p",
        None,
    )
}

#[test]
fn reviews_are_replayed_before_anything_that_may_have_changed() {
    let workspaces = vec![default_workspace("/ws")];
    let mut object = JsonObject::new();
    object.put("remote_payload_hash", Json::text(&"a".repeat(64)));
    let receipt = Json::Object(object);
    assert!(matches!(
        admit_review(&binding(), Some(&receipt), true, &Vec::new(), "ws_gone"),
        Ok(ReviewAdmission::Replay)
    ));
    let mut other = binding();
    other.payload_hash = Some("b".repeat(64));
    let e = admit_review(&other, Some(&receipt), false, &workspaces, "ws_default").unwrap_err();
    assert_eq!(e.to_text(), "review operation id replay payload binding mismatch");
    let e = admit_review(&binding(), None, true, &workspaces, "ws_default").unwrap_err();
    assert_eq!(e.code, ErrorCode::PolicyDenied);
    assert!(admit_review(&binding(), None, false, &workspaces, "ws_gone").is_err());
    match admit_review(&binding(), None, false, &workspaces, "default").unwrap() {
        ReviewAdmission::Proceed { device_id, workspace } => {
            assert_eq!(device_id, "dev_a");
            assert_eq!(workspace, 0);
        }
        ReviewAdmission::Replay => panic!("nothing to replay"),
    }
    let mut twice = vec![default_workspace("/other"), default_workspace("/ws")];
    twice[0].id = "default".to_string();
    assert!(matches!(
        admit_review(&binding(), None, false, &twice, "ws_default"),
        Ok(ReviewAdmission::Proceed { workspace: 0, .. })
    ));
    let mut local = binding();
    local.device_id = None;
    let e = admit_review(&local, None, false, &workspaces, "default").unwrap_err();
    assert_eq!(e.code, ErrorCode::Unauthorized);
}

fn pin(path: &str) -> ExecutablePin {
    ExecutablePin {
        path: path.to_string(),
        content_sha256: "c".repeat(64),
        len: 7,
        device: None,
        inode: None,
        path_device: None,
        path_inode: None,
        link_target: None,
        policy_kind: "structured".to_string(),
    }
}

#[test]
fn review_programs_are_pinned_argv() {
    assert!(check_review_argv("cargo", 300_000).is_ok());
    for (program, timeout) in [(" ", 1), ("cargo", 0), ("cargo", 300_001)] {
        let e = check_review_argv(program, timeout).unwrap_err();
        assert_eq!(e.to_text(), "invalid review argv command");
    }
    let s = CommandKind::Structured;
    assert!(check_review_program(true, s, s).is_ok());
    assert_eq!(check_review_program(false, s, s).unwrap_err().code, ErrorCode::InvalidParams);
    assert_eq!(
        check_review_program(true, s, CommandKind::RawShell).unwrap_err().code,
        ErrorCode::PolicyDenied
    );
    let resolved = || ResolvedProgram {
        invocation: "/bin/cargo".to_string(),
        backing: "/bin/rustup".to_string(),
    };
    let command = pin_review_command(
        resolved(),
        vec!["test".to_string()],
        1000,
        Ok(pin("/bin/rustup")),
        Ok(pin("/bin/cargo")),
    )
    .unwrap();
    assert_eq!(command.program, "/bin/cargo");
    assert_eq!(command.pin.path, "/bin/rustup");
    assert_eq!(command.invocation_pin.unwrap().path, "/bin/cargo");
    let e = pin_review_command(resolved(), vec![], 1, Err("x".to_string()), Ok(pin("p"))).unwrap_err();
    assert_eq!(e.to_text(), "unable to pin review executable: x");
    let e = pin_review_command(resolved(), vec![], 1, Ok(pin("p")), Err("x".to_string())).unwrap_err();
    assert_eq!(e.to_text(), "unable to pin review invocation executable: x");
}

#[test]
fn every_program_of_a_review_is_judged_and_bounded() {
    let command = |name: &str, proxy: Option<&str>| ReviewCommand {
        program: name.to_string(),
        args: Vec::new(),
        timeout_ms: 7,
        invocation_pin: proxy.map(pin),
        pin: pin("/bin/backing"),
    };
    let first = Some(command("/bin/cargo", Some("/bin/cargo")));
    let tests = vec![command("/bin/a", None), command("/bin/b", None)];
    let facts = review_program_facts(&first, &tests, "/repo");
    let programs: Vec<_> = facts.iter().map(|f| f.program.as_deref().unwrap()).collect();
    assert_eq!(programs, vec!["/bin/cargo", "/bin/a", "/bin/b"]);
    assert_eq!(facts[0].invocation_identity.as_ref().unwrap().path, "/bin/cargo");
    assert_eq!(facts[0].executable_identity.as_ref().unwrap().path, "/bin/backing");
    assert_eq!(facts[1].invocation_identity.as_ref().unwrap().path, "/bin/backing");
    assert_eq!(facts[2].path.as_deref(), Some("/repo"));
    assert_eq!(facts[2].tags, vec!["review".to_string()]);
    assert_eq!(review_program_facts(&None, &tests, "/repo").len(), 2);
    let plan = review_run_plan(&tests[0]);
    assert_eq!(plan.timeout_ms, Some(7));
    assert_eq!(plan.max_output_bytes, 98_304);
    assert!(plan.env.is_empty());
    let key = review_journal_key(&binding(), "client:remote:t:p");
    assert_eq!(key.as_deref(), Some("client:remote:t:p\u{1f}op_1"));
    assert_eq!(review_operation_id(&binding()), "op_1");
    assert_eq!(review_journal_key(&RemoteBinding::none(), "p"), None);
    assert!(review_operation_id(&RemoteBinding::none()).starts_with("op_"));
}

#[test]
fn the_strictest_verdict_decides_a_batch() {
    let verdict = |decision, reason: &str| PolicyVerdict {
        decision,
        matched_rule_id: None,
        reason: reason.to_string(),
    };
    assert!(authorize_review_batch(&vec![]).is_ok());
    assert!(authorize_review_batch(&vec![verdict(Decision::Allow, "a")]).is_ok());
    let e = authorize_review_batch(&vec![
        verdict(Decision::Allow, "a"),
        verdict(Decision::Ask, "b"),
    ])
    .unwrap_err();
    assert!(e.to_text().ends_with("not available for review.start: a; b"));
    let e = authorize_review_batch(&vec![
        verdict(Decision::Deny, "a"),
        verdict(Decision::Ask, "b"),
        verdict(Decision::Allow, "c"),
    ])
    .unwrap_err();
    assert_eq!(e.to_text(), "policy denied review batch: a; b; c");
}

#[test]
fn reviews_answer_to_their_principal_and_device() {
    let manifest = new_manifest(
        ReviewStart {
            device_id: "dev_a".to_string(),
            workspace_id: "ws_default".to_string(),
            repo_root: "/repo".to_string(),
            head_oid: "head".to_string(),
            principal: "client:remote:t:p".to_string(),
            command: None,
            tests: Vec::new(),
        },
        &binding(),
        NOW,
    );
    assert!(manifest.review_id.starts_with("rev_"));
    assert_eq!(manifest.expires_unix, NOW + 3600);
    assert_eq!(manifest.phase, ReviewPhase::Planned);
    assert_eq!(manifest.remote_operation_id.as_deref(), Some("op_1"));
    let device = Some("dev_a".to_string());
    let workspaces = vec![default_workspace("/ws")];
    let look = |client: &str, device: &Option<String>, now: i64| {
        handle_review_show(Some(&manifest), client, device, &workspaces, now).map(|(_, at)| at)
    };
    assert_eq!(look("client:remote:t:p", &device, NOW + 3600).unwrap(), 0);
    assert!(look("client:remote:t:p", &device, NOW + 3601).is_err());
    assert!(look("client:remote:t:q", &device, NOW).is_err());
    assert_eq!(
        look("client:remote:t:p", &None, NOW).unwrap_err().to_text(),
        "review binding mismatch"
    );
    let page = |review, client: &str, workspaces: &Vec<_>| {
        handle_review_page(review, client, &device, workspaces, 1_000_000, NOW)
            .map(|(_, at, bound)| (at, bound))
    };
    let owner = "client:remote:t:p";
    assert_eq!(page(Some(&manifest), owner, &workspaces).unwrap(), (0, 49_152));
    assert_eq!(
        page(Some(&manifest), "x", &workspaces).unwrap_err().to_text(),
        "review binding expired or mismatched"
    );
    assert_eq!(page(None, owner, &workspaces).unwrap_err().to_text(), "review not found");
    assert!(page(Some(&manifest), owner, &Vec::new()).is_err());
    assert!(check_review_head(&manifest, "head").is_ok());
    assert_eq!(check_review_head(&manifest, "other").unwrap_err().code, ErrorCode::Conflict);

    let body = review_answer(JsonObject::new(), &Some("h".to_string()), "op_1");
    assert_eq!(body.get_str("remote_payload_hash"), Some("h"));
    assert_eq!(body.get_str("operation_id"), Some("op_1"));
}

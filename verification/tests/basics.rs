use ownmeshd::approvals::{ApprovalRecord, Approvals};
use ownmeshd::base64::{base64_decode_strict, base64_standard};
use ownmeshd::dispatch::RemoteBinding;
use ownmeshd::error::ErrorCode;
use ownmeshd::ids::{
    is_lower_sha256, new_id, new_workspace_generation, sha256_hex, valid_workspace_generation,
};
use ownmeshd::json::{Json, JsonObject};
use ownmeshd::live_output::{
    bootstrap_error, next_cursor, split_output, AdapterBootstrap, BootstrapFailure, BootstrapNext,
    LiveDrain, LiveRead, RecordBuffer,
};
use ownmeshd::ops::{
    alphabetical, append_audit, build_log_registry, execute_git_diff, execute_git_status,
    execute_logs_query, handle_approval_list, handle_approval_show, handle_git_diff,
    handle_logs_query, handle_profile_list, log_error, parse_error, profile_list_answer,
    profile_show_answer, require_id, with_workspace,
};
use ownmeshd::params::{
    default_log_provider, parse_preset, preset_name, AccessPreset, FsStatParams, GitDiffParams,
    GitStatusParams, LogsQueryParams, PendingRequest,
};
use ownmeshd::principal::{
    is_remote_runtime_principal, normalize_handoff_target, principal_journal_key,
    reject_spoofed_principal, split_remote_principal,
};
use ownmeshd::registry::Registry;
use ownmeshd::text::{
    byte_len, same_text_ignoring_case, signed_decimal, trimmed, truncated, unsigned_decimal,
};
use ownmeshd::transfer::{
    cleanup_expired_transfers, ensure_destination_cache_capacity, keeps_sender, sweep_answer,
    transfer_authority, transfer_error, verify_local_transfer_identity, CachedDestination, CachedTransferState,
    DestinationCache, TransferBinding, TransferFailure,
};
use ownmeshd::workspace::{load_or_init_workspaces, WorkspaceEntry};

const NOW: u64 = 1_800_000_000;

#[test]
fn base64_reads_back_what_it_writes() {
    for (bytes, text) in [
        ("f", "Zg=="),
        ("fo", "Zm8="),
        ("foo", "Zm9v"),
        ("foobar", "Zm9vYmFy"),
    ] {
        assert_eq!(base64_standard(bytes.as_bytes()), text);
        assert_eq!(base64_decode_strict(text), Some(bytes.as_bytes().to_vec()));
    }
    assert_eq!(base64_standard(&[]), "");
    for bad in ["", "Zg", "Zg=", "Zh==", "Z===", "Zm9v\n", "Zm 9v", "=Zg="] {
        assert_eq!(base64_decode_strict(bad), None);
    }
}

#[test]
fn digests_and_identifiers() {
    assert_eq!(
        sha256_hex("abc".as_bytes()),
        "ba7816bf8f01cfea414140de5dae2223b00361a396177a9cb410ff61f20015ad"
    );
    assert!(is_lower_sha256(&sha256_hex(&[])));
    assert!(!is_lower_sha256(&"A".repeat(64)));
    let a = new_id("op_");
    let b = new_id("op_");
    assert!(a.starts_with("op_"));
    assert_ne!(a, b);
    let generation = new_workspace_generation();
    assert!(valid_workspace_generation(&generation));
    assert_ne!(generation, new_workspace_generation());
    assert!(!valid_workspace_generation("wgen_x"));
}

#[test]
fn faults_of_a_registry_quote_the_entry() {
    let entries = vec![WorkspaceEntry {
        id: "ws \"x\"".to_string(),
        root: "/a".to_string(),
        label: None,
        generation: new_workspace_generation(),
    }];
    let e = load_or_init_workspaces(1, &entries, &vec![true], "/d").unwrap_err();
    assert_eq!(e, "invalid workspace id in registry: \"ws \\\"x\\\"\"");
}

#[test]
fn texts() {
    assert_eq!(trimmed("\u{3000} a b\t\n"), "a b");
    assert_eq!(byte_len("a\u{e9}\u{20ac}\u{1f600}"), 10);
    assert_eq!(truncated("a\u{20ac}b", 3), "a");
    assert_eq!(truncated("a\u{20ac}b", 4), "a\u{20ac}");
    assert_eq!(unsigned_decimal(0), "0");
    assert_eq!(unsigned_decimal(u64::MAX), "18446744073709551615");
    assert_eq!(signed_decimal(i64::MIN), "-9223372036854775808");
    assert!(same_text_ignoring_case("AbC", "aBc"));
    for preset in [
        AccessPreset::WorkspaceOnly,
        AccessPreset::Recommended,
        AccessPreset::FullUserAccess,
        AccessPreset::FullAccess,
        AccessPreset::Custom,
    ] {
        assert_eq!(parse_preset(preset_name(preset)), Some(preset));
    }
}

#[test]
fn remote_principals() {
    assert_eq!(split_remote_principal("client:remote:t:p"), Some(("t", "p")));
    assert_eq!(split_remote_principal("client:local"), None);
    assert!(is_remote_runtime_principal("client:remote-agent:x"));
    assert!(is_remote_runtime_principal("client:remote:t:p"));
    assert!(!is_remote_runtime_principal("user:alice"));
    assert_eq!(principal_journal_key("p", "k"), "p\u{1f}k");
    assert!(reject_spoofed_principal(None, "a").is_ok());
    assert!(reject_spoofed_principal(Some("a"), "a").is_ok());
    assert_eq!(
        reject_spoofed_principal(Some("b"), "a").unwrap_err().to_text(),
        "self-reported principal 'b' does not match authenticated client 'a'"
    );
}

#[test]
fn sessions_are_handed_off_inside_the_tenant() {
    let from = "client:remote:t:p";
    let give = |to: &str| normalize_handoff_target(from, to, to);
    assert_eq!(give("q").unwrap(), "client:remote:t:q");
    assert_eq!(give("client:remote:t:q").unwrap(), "client:remote:t:q");
    assert_eq!(give("client:remote:u:q").unwrap_err().code, ErrorCode::PolicyDenied);
    assert_eq!(give("client:remote:t:").unwrap_err().code, ErrorCode::PolicyDenied);
    assert_eq!(
        give("user:alice").unwrap_err().to_text(),
        "session.give to must be a bare principal id or client:remote:... key"
    );
    assert!(give(" ").is_err());
    assert!(give(&"q".repeat(129)).is_err());
    assert_eq!(
        give("a\u{7}").unwrap_err().to_text(),
        "session.give to contains invalid characters"
    );
    assert_eq!(
        normalize_handoff_target("user:alice", "user:bob", "user:bob").unwrap(),
        "user:bob"
    );
    assert_eq!(
        normalize_handoff_target("client:remote::p", "q", "q").unwrap_err().code,
        ErrorCode::Internal
    );
}

#[test]
fn transfer_platform_unsupported_is_not_an_internal_error() {
    let error = transfer_error(
        TransferFailure::PlatformUnsupported,
        "restricted transfer publication is unsupported on this platform",
    );
    assert_eq!(error.code, ErrorCode::PlatformUnsupported);
    assert_eq!(
        error.to_text(),
        "restricted transfer publication is unsupported on this platform"
    );
}

#[test]
fn transfer_failures_have_their_class() {
    for (failure, code) in [
        (TransferFailure::InvalidPlan, ErrorCode::InvalidParams),
        (TransferFailure::ChunkHashMismatch, ErrorCode::InvalidParams),
        (TransferFailure::DestinationExists, ErrorCode::Conflict),
        (TransferFailure::StaleFence, ErrorCode::Conflict),
        (TransferFailure::Other, ErrorCode::Internal),
    ] {
        assert_eq!(transfer_error(failure, "m").code, code);
    }
}

fn remote() -> RemoteBinding {
    RemoteBinding::bind(
        Some("op_1".to_string()),
        Some(NOW as i64 + 60),
        Some("ab".repeat(32)),
        Some("dev_a".to_string()),
        "client:remote:t:p",
        None,
    )
}

#[test]
fn transfer_authority_comes_from_the_dispatch_alone() {
    let authority = transfer_authority(&remote(), "client:remote:t:p", NOW).unwrap();
    assert_eq!(authority.tenant_id, "t");
    assert_eq!(authority.principal_id, "p");
    assert_eq!(authority.device_id, "dev_a");
    assert_eq!(authority.operation_id, "op_1");
    assert_eq!(authority.expires_at_unix, NOW + 60);
    let refused = |b: RemoteBinding, p: &str| transfer_authority(&b, p, NOW).unwrap_err().to_text();
    let p = "client:remote:t:p";
    assert_eq!(
        refused(RemoteBinding { operation_id: None, ..remote() }, p),
        "transfer requires an authenticated remote operation binding"
    );
    assert_eq!(
        refused(RemoteBinding { payload_hash: None, ..remote() }, p),
        "transfer requires a verified remote payload hash"
    );
    assert_eq!(
        refused(RemoteBinding { device_id: None, ..remote() }, p),
        "transfer requires a verified remote device identity"
    );
    assert_eq!(
        refused(RemoteBinding { expires_at_unix: None, ..remote() }, p),
        "transfer requires a verified remote expiry"
    );
    assert_eq!(
        refused(RemoteBinding { expires_at_unix: Some(-1), ..remote() }, p),
        "transfer remote expiry is invalid"
    );
    assert_eq!(
        refused(RemoteBinding { expires_at_unix: Some(NOW as i64), ..remote() }, p),
        "transfer remote grant has expired"
    );
    assert_eq!(
        refused(remote(), "user:alice"),
        "transfer caller is not a verified remote principal"
    );
    assert_eq!(refused(remote(), "client:remote::p"), "transfer binding identity is empty");
}

#[test]
fn each_end_of_a_transfer_keeps_its_role() {
    let authority = transfer_authority(&remote(), "client:remote:t:p", NOW).unwrap();
    let plan = |principal: &str| TransferBinding {
        tenant_id: "t".to_string(),
        source_principal_id: principal.to_string(),
        destination_principal_id: "p".to_string(),
        source_device_id: "dev_a".to_string(),
        destination_device_id: "dev_b".to_string(),
    };
    assert!(verify_local_transfer_identity(&plan("p"), &authority, None).is_ok());
    assert!(verify_local_transfer_identity(&plan("p"), &authority, Some("source")).is_ok());
    for role in ["destination", "other"] {
        let e = verify_local_transfer_identity(&plan("p"), &authority, Some(role)).unwrap_err();
        assert!(e.to_text().ends_with("device role"));
    }
    let e = verify_local_transfer_identity(&plan("q"), &authority, None).unwrap_err();
    assert!(e.to_text().ends_with("device/principal"));
}

#[test]
fn cleanup_keeps_live_transfers() {
    let mut cache = DestinationCache::new();
    for plan in ["a", "b"] {
        let _ = cache.insert(plan.to_string(), CachedDestination { epoch: 1, fence: 2 });
    }
    let live = CachedTransferState {
        planned: true,
        journal_expires_unix: Some(NOW + 1),
        same_journal: true,
        position_valid: true,
    };
    let states: Vec<CachedTransferState> = (0..cache.len())
        .map(|i| {
            if cache.key_at(i) == "b" {
                live
            } else {
                CachedTransferState { journal_expires_unix: Some(NOW), ..live }
            }
        })
        .collect();
    cleanup_expired_transfers(&mut cache, &states, NOW);
    assert!(!cache.contains_key("a"));
    let kept = cache.get("b").unwrap();
    assert!(kept.matches(1, 2, true));
    assert!(!kept.matches(1, 3, true));
    assert!(!kept.matches(1, 2, false));
    assert!(keeps_sender(0, false));
    assert!(keeps_sender(1, true));
    assert!(!keeps_sender(1, false));
}

#[test]
fn cached_transfers_are_capped() {
    let mut cache = DestinationCache::new();
    for i in 0..256 {
        assert!(ensure_destination_cache_capacity(&cache, &format!("p{i}")).is_ok());
        let _ = cache.insert(format!("p{i}"), CachedDestination { epoch: 0, fence: 0 });
    }
    assert!(ensure_destination_cache_capacity(&cache, "p0").is_ok());
    assert_eq!(
        ensure_destination_cache_capacity(&cache, "new").unwrap_err(),
        TransferFailure::JournalQuotaExceeded
    );
}

#[test]
fn output_is_split_at_characters() {
    let text = "ab\u{20ac}cd\u{1f600}e";
    let pieces = split_output(text, 4);
    assert_eq!(pieces.concat(), text);
    assert!(pieces.iter().all(|p| p.len() <= 4));
    assert!(split_output("", 4).is_empty());
}

#[test]
fn live_output_announces_what_is_missing() {
    let mut drain = LiveDrain::new();
    assert_eq!(drain.next_take(10, 4), Some(4));
    let step = drain.drain_live_output_into_session(
        &LiveRead {
            text: "abcd".to_string(),
            ring_truncated: true,
            exited: false,
            exit_code: None,
            remaining: 7,
        },
        4,
    );
    assert!(step.more);
    assert_eq!(step.pieces, vec!["abcd".to_string()]);
    assert_eq!(drain.next_take(6, 4), Some(2));
    assert_eq!(drain.next_take(4, 4), None);
    assert_eq!(
        drain.closing_notes(9),
        vec![
            "[live-pty ring truncated under backpressure]".to_string(),
            "[live-pty more output pending bytes=9; continue replay]".to_string(),
        ]
    );
    assert_eq!(drain.exit_note(), None);
    let step = drain.drain_live_output_into_session(
        &LiveRead {
            text: String::new(),
            ring_truncated: false,
            exited: true,
            exit_code: Some(3),
            remaining: 0,
        },
        4,
    );
    assert!(!step.more);
    assert_eq!(drain.exit_note().as_deref(), Some("[live-pty exited code=3]"));
    assert_eq!(next_cursor(Some(5), 9), 5);
    assert_eq!(next_cursor(None, 9), 9);
}

#[test]
fn adapter_records_are_lines() {
    let mut buffer = RecordBuffer::new();
    buffer.take_page(&"one\ntw".as_bytes().to_vec(), 10).unwrap();
    assert_eq!(buffer.next_record(), Some("one\n".as_bytes().to_vec()));
    assert_eq!(buffer.next_record(), None);
    buffer.take_page(&"o\n".as_bytes().to_vec(), 10).unwrap();
    assert_eq!(buffer.next_record(), Some("two\n".as_bytes().to_vec()));
    let e = buffer.take_page(&vec![b'x'; 11], 10).unwrap_err();
    assert_eq!(e.code, ErrorCode::Conflict);
    assert_eq!(bootstrap_error(BootstrapFailure::Request, "m").code, ErrorCode::InvalidParams);
    assert_eq!(
        bootstrap_error(BootstrapFailure::TimedOut, "m").to_text(),
        "structured adapter bootstrap timed out"
    );
    assert_eq!(
        bootstrap_error(BootstrapFailure::Write, "m").to_text(),
        "structured adapter bootstrap write failed: m"
    );
}

#[test]
fn an_adapter_is_answered_until_it_is_ready() {
    let mut bootstrap = AdapterBootstrap::new();
    assert!(matches!(
        bootstrap.bootstrap_structured_adapter(false, false),
        BootstrapNext::Drain
    ));
    assert_eq!(bootstrap.on_page(&Vec::new(), None, 0, 64).unwrap(), true);
    assert_eq!(bootstrap.on_page(&"{}\n[".as_bytes().to_vec(), Some(4), 9, 64).unwrap(), false);
    assert_eq!(bootstrap.cursor, 4);
    match bootstrap.bootstrap_structured_adapter(false, true) {
        BootstrapNext::Answer(record) => assert_eq!(record, "{}\n".as_bytes().to_vec()),
        _ => panic!("a record that came is answered first"),
    }
    match bootstrap.bootstrap_structured_adapter(false, true) {
        BootstrapNext::GiveUp(e) => {
            assert_eq!(e.code, ErrorCode::Conflict);
            assert_eq!(e.to_text(), "structured adapter bootstrap timed out");
        }
        _ => panic!("half a record is no answer"),
    }
    assert!(matches!(bootstrap.bootstrap_structured_adapter(true, true), BootstrapNext::Done));
    assert_eq!(bootstrap.on_page(&vec![b'x'; 64], None, 73, 64).unwrap_err().code, ErrorCode::Conflict);
    assert_eq!(bootstrap.cursor, 73);
}

#[test]
fn a_registry_keeps_the_order_of_arrival() {
    let mut registry: Registry<u8> = Registry::new();
    assert_eq!(registry.insert("a".to_string(), 1), None);
    assert_eq!(registry.insert("b".to_string(), 2), None);
    assert_eq!(registry.insert("c".to_string(), 3), None);
    let keys = |r: &Registry<u8>| -> Vec<String> {
        (0..r.len()).map(|i| r.key_at(i).clone()).collect()
    };
    assert_eq!(registry.remove("a"), Some(1));
    assert_eq!(registry.remove("a"), None);
    assert_eq!(keys(&registry), vec!["b".to_string(), "c".to_string()]);
    assert_eq!(registry.insert("a".to_string(), 4), None);
    assert_eq!(keys(&registry), vec!["b".to_string(), "c".to_string(), "a".to_string()]);
}

#[test]
fn a_sweep_counts_what_it_removed() {
    assert_eq!(sweep_answer(Ok(3)), Ok(3));
    assert_eq!(
        sweep_answer(Err("denied".to_string())),
        Err("cleanup transfer state: denied".to_string())
    );
}

fn record(id: &str, created: i64) -> ApprovalRecord {
    ApprovalRecord {
        id: id.to_string(),
        operation_id: "op".to_string(),
        capability: "c".to_string(),
        state: "pending".to_string(),
        reason: String::new(),
        created_at_unix: created,
        decided_at_unix: None,
        expires_at_unix: None,
        target_payload_hash: None,
        matched_rule_id: None,
        requester_principal: "p".to_string(),
        facts: None,
        request: PendingRequest::FsStat(FsStatParams {
            path: "a".to_string(),
            hash: false,
            workspace_id: None,
            idempotency_key: None,
        }),
        result: None,
        decided_by_principal: None,
    }
}

#[test]
fn approvals_are_listed_newest_first() {
    let mut approvals = Approvals::new();
    for (id, created) in [("a", 5), ("b", 9), ("c", 7)] {
        let _ = approvals.insert(id.to_string(), record(id, created));
    }
    let ids: Vec<String> = handle_approval_list(&approvals)
        .into_iter()
        .map(|i| approvals.value_at(i).id.clone())
        .collect();
    assert_eq!(ids, vec!["b", "c", "a"]);
    assert_eq!(handle_approval_show(&approvals, "c").unwrap().created_at_unix, 7);
    assert_eq!(
        handle_approval_show(&approvals, "x").unwrap_err().to_text(),
        "approval not found: x"
    );
}

fn texts_of(list: &[&str]) -> Vec<String> {
    list.iter().map(|s| s.to_string()).collect()
}

#[test]
fn profiles_are_paged() {
    let ids = texts_of(&["c", "a", "b"]);
    assert_eq!(alphabetical(&ids), vec![1, 2, 0]);
    let sorted = texts_of(&["a", "b", "c"]);
    let page = handle_profile_list(&sorted, None, Some(2));
    assert_eq!((page.start, page.end, page.truncated), (0, 2, true));
    assert_eq!(page.next_cursor.as_deref(), Some("b"));
    let body = profile_list_answer(Json::Null, &page, 3);
    assert_eq!(body.get_i64("count"), Some(2));
    assert_eq!(body.get_i64("official_count"), Some(9));
    let rest = handle_profile_list(&sorted, Some("b"), Some(0));
    assert_eq!((rest.start, rest.end, rest.truncated), (2, 3, false));
    let unknown = handle_profile_list(&sorted, Some("x"), None);
    assert_eq!((unknown.start, unknown.end), (0, 3));
    let shown = profile_show_answer(Json::Null, Json::Null, Json::Null);
    assert_eq!(shown.get_str("auth_status"), Some("unknown_no_credential_probe"));
}

fn logs(limit: Option<usize>) -> LogsQueryParams {
    LogsQueryParams {
        provider: default_log_provider(),
        cursor_offset: None,
        limit,
        idempotency_key: None,
        channel: None,
        unit: Some("u".to_string()),
        container: None,
    }
}

#[test]
fn log_queries_are_bounded() {
    assert_eq!(execute_logs_query(&logs(None)).unwrap(), 100);
    assert_eq!(execute_logs_query(&logs(Some(200))).unwrap(), 200);
    for bad in [0, 201] {
        assert_eq!(
            execute_logs_query(&logs(Some(bad))).unwrap_err().to_text(),
            "log query limit must be between 1 and 200"
        );
    }
    let providers = build_log_registry(&logs(None));
    assert_eq!(providers.windows_channel, "Application");
    assert_eq!(providers.journald_unit.as_deref(), Some("u"));
    assert_eq!(handle_logs_query().capability, "logs.read");
    assert_eq!(log_error(true, "m").code, ErrorCode::InvalidParams);
    assert_eq!(log_error(false, "m").code, ErrorCode::Internal);
}

#[test]
fn a_diff_counts_as_a_sensitive_read() {
    let p = GitDiffParams {
        path: "/repo".to_string(),
        pathspec: None,
        staged: false,
        cursor: None,
        limit: None,
        max_bytes: Some(10),
        workspace_id: Some("ws_default".to_string()),
        idempotency_key: None,
    };
    let (p, facts) = handle_git_diff(p, &vec![], true, true, "sensitive_read").unwrap();
    assert_eq!(facts.tags, texts_of(&["git", "diff", "sensitive_read"]));
    assert!(!facts.workspace_relative);
    assert_eq!(execute_git_diff(&p), (200, 10));
    let s = GitStatusParams {
        path: "/repo".to_string(),
        cursor: None,
        limit: None,
        workspace_id: None,
        idempotency_key: None,
    };
    assert_eq!(execute_git_status(&s), 100);
    let body = with_workspace(JsonObject::new(), &p.workspace_id);
    assert_eq!(body.get_str("workspace_id"), Some("ws_default"));
}

#[test]
fn parameters_and_audit() {
    let mut object = JsonObject::new();
    object.put("id", Json::text("x"));
    object.put("empty", Json::text(""));
    let params = Json::Object(object);
    assert_eq!(require_id(Some(&params), "id").unwrap(), "x");
    for (p, field) in [(Some(&params), "empty"), (Some(&params), "none"), (None, "id")] {
        let e = require_id(p, field).unwrap_err();
        assert_eq!(e.to_text(), format!("{field} is required"));
    }
    assert_eq!(parse_error("m").to_text(), "invalid params: m");
    let entry = append_audit("e", Some("c"), None, Some("allow"), "d", 5);
    assert!(entry.id.starts_with("aud_"));
    assert_eq!(entry.capability.as_deref(), Some("c"));
    assert_eq!(entry.operation_id, None);
    assert_eq!(entry.created_at_unix, 5);
}

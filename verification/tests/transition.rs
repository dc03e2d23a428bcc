use ownmeshd::error::ErrorCode;
use ownmeshd::sidecar::{
    ProcessObservation, SessionFailure, SessionRow, SessionState, SidecarHostBinding,
};
use ownmeshd::transition::{
    after_replay, attest_reattach, begin_recovery_pass, clear_error, commit_reattach,
    commit_recovery, launch_error, mark_error, prove_child, prove_expired_sidecar_dead,
    reattach_persistent_sidecars, reattach_step, reconcile_expired_transition_record,
    reconcile_expired_transitions, recover_sidecar_transitions, recover_transition_record,
    AppliedMark, ChildProof, ClearReason, DeathProof, HostStatus, LaunchFailure,
    PendingTransition, ReattachStep, RecoveryCommit, RecoveryPlan, ReplayAction, ReplayReply,
    SessionLookup, SupervisorAttempt, SupervisorNext, SupervisorProbe, SupervisorWait,
    TransitionKind, TransitionPhase, TransitionRecord, TransitionRecoveryHealth, TransitionTarget,
};

const NOW: i64 = 1_800_000_000;
const DIR: &str = "/state/session-transitions";

fn binding(nonce: &str, epoch: u64) -> SidecarHostBinding {
    SidecarHostBinding {
        device_id: "dev_a".to_string(),
        workspace_id: "ws_default".to_string(),
        owner_principal: "client:remote:t:old".to_string(),
        host_nonce: nonce.to_string(),
        controller_epoch: epoch,
        binding_expires_unix: NOW + 60,
        host_expires_unix: NOW + 600,
        child_pid: Some(7),
        child_process_birth: Some(41),
    }
}

fn record(kind: TransitionKind, phase: TransitionPhase) -> TransitionRecord {
    TransitionRecord {
        transition_id: "tr_1".to_string(),
        session_id: "ses_1".to_string(),
        device_id: "dev_a".to_string(),
        workspace_id: "ws_default".to_string(),
        kind,
        phase,
        old_binding: binding("nonce_old", 3),
        new_binding: Some(binding("nonce_new", 4)),
        target: TransitionTarget {
            principal: "client:remote:t:new".to_string(),
            controller_epoch: 4,
            binding_expires_unix: NOW + 120,
            lease_id: Some("lease_4".to_string()),
            controller_attached: true,
        },
        expires_unix: NOW + 600,
    }
}

fn expired(kind: TransitionKind) -> TransitionRecord {
    let mut r = record(kind, TransitionPhase::Intent);
    r.new_binding = None;
    r.old_binding.host_expires_unix = NOW - 10;
    r.expires_unix = NOW - 10;
    r
}

fn row(epoch: u64, host: Option<SidecarHostBinding>) -> SessionRow {
    SessionRow {
        id: "ses_1".to_string(),
        state: SessionState::Running,
        workspace_id: Some("ws_default".to_string()),
        controller_epoch: epoch,
        sidecar_host: host,
        host_pid: None,
    }
}

fn missing() -> SessionLookup {
    SessionLookup::Missing { message: "session not found".to_string() }
}

#[test]
fn recovered_applied_give_restores_full_controller_seat_not_only_binding() {
    let r = record(TransitionKind::Give, TransitionPhase::Applied);
    let current = row(3, Some(binding("nonce_old", 3)));
    let plan = recover_transition_record(&r, NOW, &SessionLookup::Found(current), true).unwrap();
    let restored = match plan {
        RecoveryPlan::Apply(Some(b)) => b,
        other => panic!("unexpected plan {other:?}"),
    };
    assert_eq!(restored.host_nonce, "nonce_new");
    let current = row(3, Some(binding("nonce_old", 3)));
    match commit_recovery(&r, &current, Some(restored), DIR).unwrap() {
        RecoveryCommit::Restore { controller, binding } => {
            assert_eq!(controller.principal, "client:remote:t:new");
            assert_eq!(controller.lease_id, "lease_4");
            assert_eq!(controller.controller_epoch, 4);
            assert_eq!(controller.binding_expires_unix, NOW + 120);
            assert!(controller.controller_attached);
            assert_eq!(binding.unwrap().controller_epoch, 4);
        }
        other => panic!("unexpected commit {other:?}"),
    }
}

#[test]
fn recovered_record_never_regresses_a_newer_durable_generation() {
    let r = record(TransitionKind::Give, TransitionPhase::Applied);
    let ahead = row(5, Some(binding("nonce_newer", 5)));
    assert!(matches!(
        commit_recovery(&r, &ahead, None, DIR),
        Ok(RecoveryCommit::Clear(ClearReason::Superseded))
    ));
    let stale = row(5, Some(binding("nonce_old", 3)));
    let e = commit_recovery(&r, &stale, None, DIR).unwrap_err();
    assert_eq!(e.code, ErrorCode::Conflict);
    assert!(e.to_text().contains("still the pre-transition generation"));
    let mut r = record(TransitionKind::Give, TransitionPhase::Applied);
    r.target.lease_id = None;
    let e = commit_recovery(&r, &row(3, None), None, DIR).unwrap_err();
    assert_eq!(e.code, ErrorCode::Internal);
    assert!(e.to_text().contains("missing its recorded lease id"));
}

#[test]
fn interrupted_transitions_are_replayed_at_their_old_host() {
    let cases = [
        TransitionKind::Detach,
        TransitionKind::Claim,
        TransitionKind::Give,
        TransitionKind::Renew,
        TransitionKind::Reclaim,
        TransitionKind::Close,
        TransitionKind::Terminate,
    ];
    for kind in cases {
        let r = record(kind, TransitionPhase::Intent);
        let lookup = SessionLookup::Found(row(3, None));
        match recover_transition_record(&r, NOW, &lookup, true).unwrap() {
            RecoveryPlan::Replay { binding, action } => {
                assert_eq!(binding.host_nonce, "nonce_old");
                let fits = match action {
                    ReplayAction::Detach { controller_epoch } => {
                        kind == TransitionKind::Detach && controller_epoch == 4
                    }
                    ReplayAction::Claim { principal, .. } => {
                        kind == TransitionKind::Claim && principal == "client:remote:t:new"
                    }
                    ReplayAction::Rotate { .. } => kind == TransitionKind::Give,
                    ReplayAction::Renew { binding_expires_unix } => {
                        kind == TransitionKind::Renew && binding_expires_unix == NOW + 120
                    }
                    ReplayAction::Reclaim { .. } => kind == TransitionKind::Reclaim,
                    ReplayAction::Terminate => kind.terminal(),
                };
                assert!(fits);
            }
            other => panic!("unexpected plan {other:?}"),
        }
        let e = recover_transition_record(&r, NOW, &lookup, false).unwrap_err();
        assert_eq!(e.to_text(), "sidecar unavailable during transition recovery");
    }
}

#[test]
fn recovery_stops_on_what_does_not_fit() {
    let r = record(TransitionKind::Give, TransitionPhase::Intent);
    let mut other = row(3, None);
    other.workspace_id = Some("ws_other".to_string());
    let e = recover_transition_record(&r, NOW, &SessionLookup::Found(other), true).unwrap_err();
    assert_eq!(e.to_text(), "sidecar transition workspace mismatch during recovery");
    let e = recover_transition_record(&r, NOW, &missing(), true).unwrap_err();
    assert_eq!(e.code, ErrorCode::InvalidParams);
    let failed = SessionLookup::Failed {
        failure: SessionFailure::Persist,
        message: "disk".to_string(),
    };
    let e = recover_transition_record(&r, NOW, &failed, true).unwrap_err();
    assert_eq!(e.code, ErrorCode::Internal);
    let mut r = record(TransitionKind::Give, TransitionPhase::Applied);
    r.new_binding = None;
    let e = recover_transition_record(&r, NOW, &SessionLookup::Found(row(3, None)), true).unwrap_err();
    assert_eq!(e.to_text(), "applied sidecar transition missing binding");
    let done = record(TransitionKind::Terminate, TransitionPhase::Applied);
    assert!(matches!(
        recover_transition_record(&done, NOW, &missing(), true),
        Ok(RecoveryPlan::Clear(ClearReason::CompletedTerminal))
    ));
    assert!(matches!(
        recover_transition_record(&done, NOW, &SessionLookup::Found(row(3, None)), false),
        Ok(RecoveryPlan::Apply(None))
    ));
    assert!(matches!(
        recover_transition_record(&done, NOW + 600, &missing(), false),
        Ok(RecoveryPlan::ReconcileExpired)
    ));
    assert!(matches!(
        commit_recovery(&done, &row(9, None), None, DIR),
        Ok(RecoveryCommit::Terminate)
    ));
    let close = record(TransitionKind::Close, TransitionPhase::Applied);
    assert!(matches!(
        commit_recovery(&close, &row(9, None), None, DIR),
        Ok(RecoveryCommit::Close)
    ));
}

#[test]
fn replies_of_the_supervisor_become_marks() {
    let r = record(TransitionKind::Give, TransitionPhase::Intent);
    let reply = ReplayReply { host_nonce: "nonce_4".to_string(), controller_epoch: 4 };
    match after_replay(&r, Ok(Some(reply))).unwrap() {
        AppliedMark::Binding(b) => {
            assert_eq!(b.host_nonce, "nonce_4");
            assert_eq!(b.owner_principal, "client:remote:t:new");
            assert_eq!(b.child_pid, Some(7));
            assert_eq!(b.host_expires_unix, NOW + 600);
            assert_eq!(b.binding_expires_unix, NOW + 120);
        }
        AppliedMark::Terminal => panic!("the session lives on"),
    }
    assert_eq!(
        after_replay(&r, Err("gone".to_string())).unwrap_err().to_text(),
        "replay sidecar transition: gone"
    );
    assert_eq!(after_replay(&r, Ok(None)).unwrap_err().code, ErrorCode::Internal);
    let close = record(TransitionKind::Close, TransitionPhase::Intent);
    assert!(matches!(after_replay(&close, Ok(None)), Ok(AppliedMark::Terminal)));
    assert_eq!(
        mark_error(true, "x").to_text(),
        "mark recovered terminal transition applied: x"
    );
    assert_eq!(mark_error(false, "x").to_text(), "mark recovered transition applied: x");
    assert_eq!(
        clear_error(ClearReason::Recovered, "x").to_text(),
        "clear recovered transition journal: x"
    );
}

fn judge(r: &TransitionRecord, death: DeathProof, lookup: SessionLookup) -> Result<(), String> {
    reconcile_expired_transition_record(r, &death, &lookup, NOW, DIR).map_err(|e| e.to_text())
}

#[test]
fn expired_transition_record_for_closed_session_is_reconciled_not_poisoning() {
    let r = expired(TransitionKind::Give);
    let mut closed = row(3, None);
    closed.state = SessionState::Closed;
    assert!(judge(&r, DeathProof::Dead, SessionLookup::Found(closed)).is_ok());
}

#[test]
fn expired_transition_record_for_missing_session_is_cleared() {
    assert!(judge(&expired(TransitionKind::Give), DeathProof::Dead, missing()).is_ok());
}

#[test]
fn expired_uncertain_record_is_retained_and_surfaced_not_global_abort() {
    let r = expired(TransitionKind::Give);
    let e = judge(&r, DeathProof::Dead, SessionLookup::Found(row(3, None))).unwrap_err();
    assert_eq!(
        e,
        "expired sidecar transition journal record tr_1 (session ses_1 still present) retained for review; run `ownmesh doctor` or inspect /state/session-transitions "
    );
    let mut health = TransitionRecoveryHealth::new();
    health.record_transition_recovery_issue("tr_1");
    health.record_transition_recovery_issue("tr_1");
    assert_eq!(health.retained_expired(), vec!["tr_1".to_string()]);
    assert_eq!(health.retained_expired_total(), 1);
}

#[test]
fn expired_record_with_live_attested_child_is_retained_not_cleared() {
    let r = expired(TransitionKind::Give);
    let old = prove_child(&r.old_binding, &ProcessObservation::Birth(41));
    assert_eq!(old, ChildProof::Live);
    let death = prove_expired_sidecar_dead(old, None, &SupervisorProbe::Live(false));
    assert!(matches!(death, DeathProof::Live));
    assert!(judge(&r, death, missing()).unwrap_err().contains("still references a live sidecar"));
}

#[test]
fn expired_record_without_attestation_and_supervisor_is_retained_fail_closed() {
    let mut r = expired(TransitionKind::Give);
    r.old_binding.child_pid = None;
    let old = prove_child(&r.old_binding, &ProcessObservation::Gone);
    assert_eq!(old, ChildProof::Unknown);
    let death = prove_expired_sidecar_dead(old, None, &SupervisorProbe::NotConnected);
    assert!(judge(&r, death, missing()).unwrap_err().contains("cannot prove its sidecar terminated"));
    let death = prove_expired_sidecar_dead(old, None, &SupervisorProbe::Failed("down".to_string()));
    assert!(judge(&r, death, missing()).unwrap_err().contains("supervisor liveness probe failed: down"));
}

#[test]
fn expired_record_without_pid_is_cleared_when_supervisor_has_no_live_host() {
    let r = expired(TransitionKind::Give);
    let death = prove_expired_sidecar_dead(ChildProof::Unknown, None, &SupervisorProbe::Live(false));
    assert!(judge(&r, death, missing()).is_ok());
    let death = prove_expired_sidecar_dead(ChildProof::Unknown, None, &SupervisorProbe::Live(true));
    assert!(judge(&r, death, missing()).is_err());
}

#[test]
fn expired_record_with_inconsistent_host_bound_is_retained_fail_closed() {
    let mut r = expired(TransitionKind::Give);
    r.old_binding.host_expires_unix = NOW + 5;
    let e = judge(&r, DeathProof::Dead, missing()).unwrap_err();
    assert!(e.contains("inconsistent host-expiry bound"));
    let mut r = expired(TransitionKind::Give);
    r.new_binding = Some(binding("nonce_new", 4));
    assert!(judge(&r, DeathProof::Dead, missing()).is_err());
}

#[test]
fn closed_session_with_live_referenced_host_is_retained_fail_closed() {
    let r = expired(TransitionKind::Give);
    let mut closed = row(3, Some(binding("nonce_old", 3)));
    closed.state = SessionState::Closed;
    let e = judge(&r, DeathProof::Dead, SessionLookup::Found(closed)).unwrap_err();
    assert!(e.contains("references a still-live host"));
    let mut closed = row(3, Some(binding("nonce_other", 3)));
    closed.state = SessionState::Closed;
    assert!(judge(&r, DeathProof::Dead, SessionLookup::Found(closed)).is_ok());
}

#[test]
fn expired_record_with_live_successor_binding_is_retained_fail_closed() {
    let death = prove_expired_sidecar_dead(
        ChildProof::Dead,
        Some(ChildProof::Live),
        &SupervisorProbe::NotConnected,
    );
    assert!(matches!(death, DeathProof::Live));
}

#[test]
fn expired_record_with_provisional_successor_and_no_supervisor_is_retained() {
    let death = prove_expired_sidecar_dead(
        ChildProof::Dead,
        Some(ChildProof::Unknown),
        &SupervisorProbe::NotConnected,
    );
    assert!(matches!(death, DeathProof::Unproven(_)));
}

#[test]
fn expired_record_with_dead_successor_binding_is_cleared() {
    let reused = prove_child(&binding("n", 1), &ProcessObservation::Birth(99));
    assert_eq!(reused, ChildProof::Dead);
    let death = prove_expired_sidecar_dead(
        ChildProof::Dead,
        Some(reused),
        &SupervisorProbe::NotConnected,
    );
    assert!(matches!(death, DeathProof::Dead));
}

fn pending(count: usize, offset: i64) -> Vec<PendingTransition> {
    (0..count)
        .map(|i| PendingTransition {
            transition_id: format!("tr_{i}"),
            expires_unix: NOW + offset,
        })
        .collect()
}

/// One pass over the journal: the records that are provably moot are cleared, the
/// others kept and counted.
fn reconcile_pass(
    journal: &mut Vec<TransitionRecord>,
    health: &mut TransitionRecoveryHealth,
    current: &dyn Fn() -> SessionLookup,
) {
    let listed = |journal: &Vec<TransitionRecord>| -> Vec<PendingTransition> {
        journal
            .iter()
            .map(|r| PendingTransition {
                transition_id: r.transition_id.clone(),
                expires_unix: r.expires_unix,
            })
            .collect()
    };
    let mut cleared = Vec::new();
    for at in reconcile_expired_transitions(&listed(journal), NOW) {
        match judge(&journal[at], DeathProof::Dead, current()) {
            Ok(()) => cleared.push(journal[at].transition_id.clone()),
            Err(_) => health.record_transition_recovery_issue(&journal[at].transition_id),
        }
    }
    journal.retain(|r| !cleared.contains(&r.transition_id));
    health.refresh_transition_recovery_health(&listed(journal), NOW);
}

#[test]
fn retained_transition_health_is_cleared_when_record_resolves() {
    let mut r = expired(TransitionKind::Give);
    r.transition_id = "tr_resolves_later".to_string();
    let mut journal = vec![r];
    let mut health = TransitionRecoveryHealth::new();
    reconcile_pass(&mut journal, &mut health, &|| SessionLookup::Found(row(3, None)));
    assert_eq!(journal.len(), 1);
    assert_eq!(health.retained_expired_total(), 1);
    assert_eq!(health.retained_expired()[0], "tr_resolves_later");

    reconcile_pass(&mut journal, &mut health, &|| {
        let mut closed = row(3, None);
        closed.state = SessionState::Closed;
        SessionLookup::Found(closed)
    });
    assert!(journal.is_empty());
    assert_eq!(health.retained_expired_total(), 0);
    assert!(health.retained_expired().is_empty());
}

#[test]
fn kept_records_count_once_beyond_the_ones_that_are_named() {
    let mut health = TransitionRecoveryHealth::new();
    health.refresh_transition_recovery_health(&pending(16, -1), NOW);
    assert_eq!(health.retained_expired_total(), 16);
    health.record_transition_recovery_issue("tr_x");
    health.record_transition_recovery_issue("tr_x");
    assert_eq!(health.retained_expired_total(), 17);
    assert_eq!(health.retained_expired().len(), 16);
    assert_eq!(health.retained_expired()[0], "tr_0");
    health.refresh_transition_recovery_health(&pending(3, 1), NOW);
    assert_eq!(health.retained_expired_total(), 0);
    health.record_transition_recovery_issue("tr_x");
    assert_eq!(health.retained_expired(), vec!["tr_x".to_string()]);
}

#[test]
fn expired_records_are_reconciled_and_live_ones_replayed() {
    let mut all = pending(1, -1);
    all.extend(pending(1, 5));
    all.extend(pending(1, 0));
    assert_eq!(reconcile_expired_transitions(&all, NOW), vec![0, 2]);
    assert_eq!(recover_sidecar_transitions(&all, NOW), vec![1]);
    let mut running = false;
    assert!(begin_recovery_pass(&mut running));
    assert!(!begin_recovery_pass(&mut running));
}

#[test]
fn interrupted_opens_are_terminated_and_expired_control_is_left() {
    match reattach_step("ses_1", SessionState::Starting, &binding("n", 3), NOW) {
        ReattachStep::Terminate { transition_id } => {
            assert_eq!(transition_id, "open-recovery:ses_1:3")
        }
        other => panic!("unexpected step {other:?}"),
    }
    let step = reattach_step("ses_1", SessionState::Running, &binding("n", 3), NOW + 60);
    assert!(matches!(step, ReattachStep::Leave));
    let step = reattach_step("ses_1", SessionState::Running, &binding("n", 3), NOW);
    assert!(matches!(step, ReattachStep::Attest));
    assert!(reattach_persistent_sidecars(64, true).is_ok());
    assert!(reattach_persistent_sidecars(65, true).is_err());
    assert!(reattach_persistent_sidecars(1, false).is_err());
}

#[test]
fn reattached_children_are_the_bound_ones() {
    let status = |pid, birth, exited| HostStatus { pid, process_birth_id: birth, exited };
    let b = binding("n", 3);
    assert_eq!(attest_reattach("s", &b, status(Some(7), Some(41), false)).unwrap(), (7, 41));
    let e = attest_reattach("s", &b, status(Some(7), Some(42), false)).unwrap_err();
    assert!(e.to_text().contains("identity changed during reattach"));
    for bad in [
        status(None, Some(41), false),
        status(Some(7), None, false),
        status(Some(7), Some(41), true),
    ] {
        let e = attest_reattach("s", &b, bad).unwrap_err();
        assert!(e.to_text().contains("did not attest child process identity"));
    }
    let mut provisional = binding("n", 3);
    provisional.child_pid = None;
    let (pid, birth) = attest_reattach("s", &provisional, status(Some(9), Some(1), false)).unwrap();
    let mut r = row(3, Some(provisional));
    commit_reattach(&mut r, pid, birth).unwrap();
    assert_eq!(r.host_pid, Some(9));
    assert_eq!(r.sidecar_host.as_ref().unwrap().child_process_birth, Some(1));
    let mut lost = row(3, None);
    assert!(commit_reattach(&mut lost, 9, 1).is_err());
}

#[test]
fn supervisor_is_given_up_after_its_attempts() {
    let mut wait = SupervisorWait::new();
    for _ in 0..39 {
        assert!(matches!(
            wait.ensure_remote_supervisor(SupervisorAttempt::NoCredential),
            SupervisorNext::Retry
        ));
    }
    match wait.ensure_remote_supervisor(SupervisorAttempt::Refused("no".to_string())) {
        SupervisorNext::GiveUp(e) => assert_eq!(
            e.to_text(),
            "persistent session sidecar unavailable: sidecar credential bootstrap: no"
        ),
        other => panic!("unexpected {other:?}"),
    }
    let mut wait = SupervisorWait::new();
    assert!(matches!(
        wait.ensure_remote_supervisor(SupervisorAttempt::Ready),
        SupervisorNext::Ready
    ));
    assert_eq!(launch_error(&LaunchFailure::NoDirectory).code, ErrorCode::Internal);
    assert_eq!(
        launch_error(&LaunchFailure::Spawn("x".to_string())).to_text(),
        "launch persistent session sidecar: x"
    );
}

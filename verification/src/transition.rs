//! Recovery of session transitions that a crash interrupted.
use crate::approvals::{answers, Refusal};
use crate::error::{ErrorCode, IpcError};
use crate::sidecar::{
    is_supervisor_binding, session_code, session_err, supervisor_binding_from, ProcessObservation,
    SessionFailure, SessionRow, SessionState, SidecarHostBinding, SupervisorBinding,
};
use crate::text::{join, join3, listed, lists, same_text, texts};
use vstd::prelude::*;
use vstd::string::*;

verus! {

/// What a transition does to the control of a session.
#[derive(Debug, Clone, Copy, PartialEq, Eq, Structural)]
pub enum TransitionKind {
    Detach,
    Claim,
    Give,
    Renew,
    Reclaim,
    Close,
    Terminate,
}

impl TransitionKind {
    /// The session ends with it.
    pub open spec fn is_terminal(self) -> bool {
        self == TransitionKind::Close || self == TransitionKind::Terminate
    }

    /// Whether the session ends with it.
    pub fn terminal(self) -> (b: bool)
        ensures
            b == self.is_terminal(),
    {
        matches!(self, TransitionKind::Close | TransitionKind::Terminate)
    }
}

/// How far a journalled transition came.
#[derive(Debug, Clone, Copy, PartialEq, Eq, Structural)]
pub enum TransitionPhase {
    Intent,
    Applied,
}

/// The control that a transition leads to.
#[derive(Debug)]
pub struct TransitionTarget {
    pub principal: String,
    pub controller_epoch: u64,
    pub binding_expires_unix: i64,
    pub lease_id: Option<String>,
    pub controller_attached: bool,
}

/// A journalled transition.
#[derive(Debug)]
pub struct TransitionRecord {
    pub transition_id: String,
    pub session_id: String,
    pub device_id: String,
    pub workspace_id: String,
    pub kind: TransitionKind,
    pub phase: TransitionPhase,
    pub old_binding: SidecarHostBinding,
    pub new_binding: Option<SidecarHostBinding>,
    pub target: TransitionTarget,
    pub expires_unix: i64,
}

/// What the session of a record was found as.
#[derive(Debug)]
pub enum SessionLookup {
    Found(SessionRow),
    /// There is no such session.
    Missing { message: String },
    /// It could not be looked up.
    Failed { failure: SessionFailure, message: String },
}

/// Why a record is cleared from the journal.
#[derive(Debug, Clone, Copy, PartialEq, Eq, Structural)]
pub enum ClearReason {
    /// The session ended, and only the record was left.
    CompletedTerminal,
    /// The session is further on already.
    Superseded,
    /// The transition was carried over.
    Recovered,
    /// Nothing is left that the record could concern.
    MootExpired,
}

/// What a failed clearing is reported as.
pub open spec fn clear_text(reason: ClearReason) -> Seq<char> {
    match reason {
        ClearReason::CompletedTerminal => "clear completed terminal transition: "@,
        ClearReason::Superseded => "clear already-superseded recovered transition: "@,
        ClearReason::Recovered => "clear recovered transition journal: "@,
        ClearReason::MootExpired => "clear moot expired transition: "@,
    }
}

/// The error of a failed clearing.
pub fn clear_error(reason: ClearReason, message: &str) -> (e: IpcError)
    ensures
        e.is(ErrorCode::Internal, clear_text(reason) + message@),
{
    let text = match reason {
        ClearReason::CompletedTerminal => "clear completed terminal transition: ",
        ClearReason::Superseded => "clear already-superseded recovered transition: ",
        ClearReason::Recovered => "clear recovered transition journal: ",
        ClearReason::MootExpired => "clear moot expired transition: ",
    };
    IpcError::with_message(ErrorCode::Internal, join(text, message))
}

/// What the supervisor is asked to repeat.
#[derive(Debug)]
pub enum ReplayAction {
    Terminate,
    Detach { controller_epoch: u64 },
    Claim { principal: String, controller_epoch: u64, binding_expires_unix: i64 },
    Rotate { principal: String, controller_epoch: u64, binding_expires_unix: i64 },
    Renew { binding_expires_unix: i64 },
    Reclaim { principal: String, controller_epoch: u64, binding_expires_unix: i64 },
}

/// The action that repeats a transition.
pub open spec fn replay_action(record: TransitionRecord) -> ReplayAction {
    let principal = record.target.principal;
    let controller_epoch = record.target.controller_epoch;
    let binding_expires_unix = record.target.binding_expires_unix;
    match record.kind {
        TransitionKind::Detach => ReplayAction::Detach { controller_epoch },
        TransitionKind::Claim => ReplayAction::Claim {
            principal,
            controller_epoch,
            binding_expires_unix,
        },
        TransitionKind::Give => ReplayAction::Rotate {
            principal,
            controller_epoch,
            binding_expires_unix,
        },
        TransitionKind::Renew => ReplayAction::Renew { binding_expires_unix },
        TransitionKind::Reclaim => ReplayAction::Reclaim {
            principal,
            controller_epoch,
            binding_expires_unix,
        },
        TransitionKind::Close | TransitionKind::Terminate => ReplayAction::Terminate,
    }
}

/// Chooses the action that repeats a transition.
fn action_of(record: &TransitionRecord) -> (action: ReplayAction)
    ensures
        action == replay_action(*record),
{
    let controller_epoch: u64 = record.target.controller_epoch;
    let binding_expires_unix: i64 = record.target.binding_expires_unix;
    match record.kind {
        TransitionKind::Detach => ReplayAction::Detach { controller_epoch },
        TransitionKind::Claim => ReplayAction::Claim {
            principal: record.target.principal.clone(),
            controller_epoch,
            binding_expires_unix,
        },
        TransitionKind::Give => ReplayAction::Rotate {
            principal: record.target.principal.clone(),
            controller_epoch,
            binding_expires_unix,
        },
        TransitionKind::Renew => ReplayAction::Renew { binding_expires_unix },
        TransitionKind::Reclaim => ReplayAction::Reclaim {
            principal: record.target.principal.clone(),
            controller_epoch,
            binding_expires_unix,
        },
        TransitionKind::Close | TransitionKind::Terminate => ReplayAction::Terminate,
    }
}

/// How the recovery of a record goes on.
#[derive(Debug)]
pub enum RecoveryPlan {
    /// Its time ran out meanwhile: it is reconciled as expired.
    ReconcileExpired,
    /// Only the record is left to clear.
    Clear(ClearReason),
    /// The supervisor repeats the transition, with the old binding.
    Replay { binding: SupervisorBinding, action: ReplayAction },
    /// The session takes the transition over, with its new binding where it
    /// lives on.
    Apply(Option<SidecarHostBinding>),
}

/// The session's workspace is that of the record.
pub open spec fn same_workspace(row: SessionRow, record: TransitionRecord) -> bool {
    row.workspace_id matches Some(id) && id@ == record.workspace_id@
}

/// Why the recovery of a record stops.
pub open spec fn recovery_refusal(
    record: TransitionRecord,
    now: int,
    lookup: SessionLookup,
    supervisor: bool,
) -> Refusal {
    let terminal = record.kind.is_terminal();
    let applied = record.phase == TransitionPhase::Applied;
    if record.expires_unix <= now {
        None
    } else {
        match lookup {
            SessionLookup::Missing { message } => if terminal && applied {
                None
            } else {
                Some((session_code(SessionFailure::NotFound), message@))
            },
            SessionLookup::Failed { failure, message } => Some((session_code(failure), message@)),
            SessionLookup::Found(row) => if !same_workspace(row, record) {
                Some(
                    (
                        ErrorCode::Conflict,
                        "sidecar transition workspace mismatch during recovery"@,
                    ),
                )
            } else if applied && !terminal && record.new_binding is None {
                Some((ErrorCode::Internal, "applied sidecar transition missing binding"@))
            } else if !applied && !supervisor {
                Some((ErrorCode::Conflict, "sidecar unavailable during transition recovery"@))
            } else {
                None
            },
        }
    }
}

/// How the recovery of a record goes on, where it does not stop.
pub open spec fn is_recovery_plan(
    plan: RecoveryPlan,
    record: TransitionRecord,
    now: int,
    lookup: SessionLookup,
) -> bool {
    if record.expires_unix <= now {
        plan == RecoveryPlan::ReconcileExpired
    } else if lookup is Missing {
        plan == RecoveryPlan::Clear(ClearReason::CompletedTerminal)
    } else if record.phase == TransitionPhase::Applied {
        plan == RecoveryPlan::Apply(
            if record.kind.is_terminal() {
                None
            } else {
                record.new_binding
            },
        )
    } else {
        plan matches RecoveryPlan::Replay { binding, action } && is_supervisor_binding(
            binding,
            record.session_id@,
            record.old_binding,
        ) && action == replay_action(record)
    }
}

/// A copy of an optional binding.
fn copy_binding(binding: &Option<SidecarHostBinding>) -> (r: Option<SidecarHostBinding>)
    ensures
        r == *binding,
{
    match binding {
        Some(b) => Some(b.copy()),
        None => None,
    }
}

/// Decides how the recovery of a record goes on.
pub fn recover_transition_record(
    record: &TransitionRecord,
    now: i64,
    lookup: &SessionLookup,
    supervisor: bool,
) -> (r: Result<RecoveryPlan, IpcError>)
    ensures
        answers(r, recovery_refusal(*record, now as int, *lookup, supervisor)),
        r matches Ok(plan) ==> is_recovery_plan(plan, *record, now as int, *lookup),
{
    if record.expires_unix <= now {
        return Ok(RecoveryPlan::ReconcileExpired);
    }
    let terminal = record.kind.terminal();
    let applied = matches!(record.phase, TransitionPhase::Applied);
    let row = match lookup {
        SessionLookup::Found(row) => row,
        SessionLookup::Missing { message } => {
            if terminal && applied {
                return Ok(RecoveryPlan::Clear(ClearReason::CompletedTerminal));
            }
            return Err(session_err(SessionFailure::NotFound, message.as_str()));
        },
        SessionLookup::Failed { failure, message } => {
            return Err(session_err(*failure, message.as_str()));
        },
    };
    let same = match &row.workspace_id {
        Some(id) => same_text(id.as_str(), record.workspace_id.as_str()),
        None => false,
    };
    if !same {
        return Err(
            IpcError::new(
                ErrorCode::Conflict,
                "sidecar transition workspace mismatch during recovery",
            ),
        );
    }
    if applied {
        if terminal {
            return Ok(RecoveryPlan::Apply(None));
        }
        return match &record.new_binding {
            Some(binding) => Ok(RecoveryPlan::Apply(Some(binding.copy()))),
            None => Err(
                IpcError::new(
                    ErrorCode::Internal,
                    "applied sidecar transition missing binding",
                ),
            ),
        };
    }
    if !supervisor {
        return Err(
            IpcError::new(
                ErrorCode::Conflict,
                "sidecar unavailable during transition recovery",
            ),
        );
    }
    Ok(
        RecoveryPlan::Replay {
            binding: supervisor_binding_from(record.session_id.as_str(), &record.old_binding),
            action: action_of(record),
        },
    )
}

/// What the supervisor answers a repeated transition with.
#[derive(Debug)]
pub struct ReplayReply {
    pub host_nonce: String,
    pub controller_epoch: u64,
}

/// What the journal records after a repeated transition.
#[derive(Debug)]
pub enum AppliedMark {
    /// The session ended.
    Terminal,
    /// The session lives on with a new binding.
    Binding(SidecarHostBinding),
}

/// Why a repeated transition is not recorded as applied.
pub open spec fn replay_refusal(
    record: TransitionRecord,
    reply: Result<Option<ReplayReply>, String>,
) -> Refusal {
    match reply {
        Err(e) => Some((ErrorCode::Conflict, "replay sidecar transition: "@ + e@)),
        Ok(r) => if !record.kind.is_terminal() && r is None {
            Some(
                (
                    ErrorCode::Internal,
                    "non-terminal sidecar transition returned no binding"@,
                ),
            )
        } else {
            None
        },
    }
}

/// The binding that a repeated transition leads to: the host stays what it was,
/// its control is what the record says.
pub open spec fn replayed_binding(record: TransitionRecord, reply: ReplayReply) -> SidecarHostBinding {
    SidecarHostBinding {
        device_id: record.device_id,
        workspace_id: record.workspace_id,
        owner_principal: record.target.principal,
        host_nonce: reply.host_nonce,
        controller_epoch: reply.controller_epoch,
        binding_expires_unix: record.target.binding_expires_unix,
        host_expires_unix: record.old_binding.host_expires_unix,
        child_pid: record.old_binding.child_pid,
        child_process_birth: record.old_binding.child_process_birth,
    }
}

/// The mark that a replayed transition leaves.
pub open spec fn applied_mark(record: TransitionRecord, reply: Option<ReplayReply>) -> AppliedMark {
    if record.kind.is_terminal() {
        AppliedMark::Terminal
    } else {
        AppliedMark::Binding(replayed_binding(record, reply->0))
    }
}

/// Takes the supervisor's answer to a repeated transition: what the journal has to
/// record before the session is touched.
pub fn after_replay(record: &TransitionRecord, reply: Result<Option<ReplayReply>, String>) -> (r:
    Result<AppliedMark, IpcError>)
    ensures
        answers(r, replay_refusal(*record, reply)),
        r matches Ok(mark) ==> mark == applied_mark(*record, reply->Ok_0),
{
    let reply = match reply {
        Ok(reply) => reply,
        Err(e) => {
            return Err(
                IpcError::with_message(
                    ErrorCode::Conflict,
                    join("replay sidecar transition: ", e.as_str()),
                ),
            );
        },
    };
    if record.kind.terminal() {
        return Ok(AppliedMark::Terminal);
    }
    match reply {
        None => Err(
            IpcError::new(
                ErrorCode::Internal,
                "non-terminal sidecar transition returned no binding",
            ),
        ),
        Some(reply) => Ok(
            AppliedMark::Binding(
                SidecarHostBinding {
                    device_id: record.device_id.clone(),
                    workspace_id: record.workspace_id.clone(),
                    owner_principal: record.target.principal.clone(),
                    host_nonce: reply.host_nonce,
                    controller_epoch: reply.controller_epoch,
                    binding_expires_unix: record.target.binding_expires_unix,
                    host_expires_unix: record.old_binding.host_expires_unix,
                    child_pid: record.old_binding.child_pid,
                    child_process_birth: record.old_binding.child_process_birth,
                },
            ),
        ),
    }
}

/// The error of a mark that the journal did not take.
pub fn mark_error(terminal: bool, message: &str) -> (e: IpcError)
    ensures
        e.is(
            ErrorCode::Internal,
            (if terminal {
                "mark recovered terminal transition applied: "@
            } else {
                "mark recovered transition applied: "@
            }) + message@,
        ),
{
    let text = if terminal {
        "mark recovered terminal transition applied: "
    } else {
        "mark recovered transition applied: "
    };
    IpcError::with_message(ErrorCode::Internal, join(text, message))
}

/// The control that a session gets back: all of it, lease included.
#[derive(Debug)]
pub struct ControllerRestore {
    pub principal: String,
    pub lease_id: String,
    pub controller_epoch: u64,
    pub binding_expires_unix: i64,
    pub controller_attached: bool,
}

/// What is done to the session of a recovered record.
#[derive(Debug)]
pub enum RecoveryCommit {
    /// Nothing: the session is further on.
    Clear(ClearReason),
    /// Control and binding are restored.
    Restore { controller: ControllerRestore, binding: Option<SidecarHostBinding> },
    /// The session is closed, its host dropped.
    Close,
    /// The session is removed, its host dropped.
    Terminate,
}

/// The session is at a later generation than the record leads to.
pub open spec fn is_ahead(row: SessionRow, record: TransitionRecord) -> bool {
    row.controller_epoch > record.target.controller_epoch
}

/// The session's host is still bound as before the transition.
pub open spec fn has_stale_binding(row: SessionRow, record: TransitionRecord) -> bool {
    row.sidecar_host matches Some(binding) && binding.controller_epoch
        < record.target.controller_epoch
}

/// Why a recovered record is kept instead of applied.
pub open spec fn commit_refusal(
    record: TransitionRecord,
    row: SessionRow,
    journal_dir: Seq<char>,
) -> Refusal {
    let name = "recovered sidecar transition "@ + record.transition_id@ + " for session "@
        + record.session_id@;
    if record.kind.is_terminal() {
        None
    } else if is_ahead(row, record) {
        if has_stale_binding(row, record) {
            Some(
                (
                    ErrorCode::Conflict,
                    name
                        + " is older than the durable controller generation but its sidecar binding is still the pre-transition generation; retained fail-closed — run `ownmesh doctor` or inspect "@
                        + journal_dir + " "@,
                ),
            )
        } else {
            None
        }
    } else if record.target.lease_id is None {
        Some(
            (
                ErrorCode::Internal,
                name
                    + " is missing its recorded lease id; retained fail-closed — run `ownmesh doctor` or inspect "@
                    + journal_dir + " "@,
            ),
        )
    } else {
        None
    }
}

/// What is done to the session of a record.
pub open spec fn is_recovery_commit(
    commit: RecoveryCommit,
    record: TransitionRecord,
    row: SessionRow,
    binding: Option<SidecarHostBinding>,
) -> bool {
    match record.kind {
        TransitionKind::Close => commit == RecoveryCommit::Close,
        TransitionKind::Terminate => commit == RecoveryCommit::Terminate,
        _ => if is_ahead(row, record) {
            commit == RecoveryCommit::Clear(ClearReason::Superseded)
        } else {
            commit == RecoveryCommit::Restore {
                controller: ControllerRestore {
                    principal: record.target.principal,
                    lease_id: record.target.lease_id->0,
                    controller_epoch: record.target.controller_epoch,
                    binding_expires_unix: record.target.binding_expires_unix,
                    controller_attached: record.target.controller_attached,
                },
                binding,
            }
        },
    }
}

/// The name of a recovered record in messages.
fn record_name(record: &TransitionRecord) -> (name: String)
    ensures
        name@ == "recovered sidecar transition "@ + record.transition_id@ + " for session "@
            + record.session_id@,
{
    let mut name = join3(
        "recovered sidecar transition ",
        record.transition_id.as_str(),
        " for session ",
    );
    name.append(record.session_id.as_str());
    name
}

/// Decides what is done to the session of an applied record. A session that is
/// further on is never set back.
pub fn commit_recovery(
    record: &TransitionRecord,
    row: &SessionRow,
    binding: Option<SidecarHostBinding>,
    journal_dir: &str,
) -> (r: Result<RecoveryCommit, IpcError>)
    ensures
        answers(r, commit_refusal(*record, *row, journal_dir@)),
        r matches Ok(commit) ==> is_recovery_commit(commit, *record, *row, binding),
{
    match record.kind {
        TransitionKind::Close => {
            return Ok(RecoveryCommit::Close);
        },
        TransitionKind::Terminate => {
            return Ok(RecoveryCommit::Terminate);
        },
        _ => {},
    }
    if row.controller_epoch > record.target.controller_epoch {
        let stale = match &row.sidecar_host {
            Some(host) => host.controller_epoch < record.target.controller_epoch,
            None => false,
        };
        if stale {
            let mut message = record_name(record);
            message.append(
                " is older than the durable controller generation but its sidecar binding is still the pre-transition generation; retained fail-closed — run `ownmesh doctor` or inspect ",
            );
            message.append(journal_dir);
            message.append(" ");
            return Err(IpcError::with_message(ErrorCode::Conflict, message));
        }
        return Ok(RecoveryCommit::Clear(ClearReason::Superseded));
    }
    let lease_id = match &record.target.lease_id {
        Some(lease_id) => lease_id.clone(),
        None => {
            let mut message = record_name(record);
            message.append(
                " is missing its recorded lease id; retained fail-closed — run `ownmesh doctor` or inspect ",
            );
            message.append(journal_dir);
            message.append(" ");
            return Err(IpcError::with_message(ErrorCode::Internal, message));
        },
    };
    Ok(
        RecoveryCommit::Restore {
            controller: ControllerRestore {
                principal: record.target.principal.clone(),
                lease_id,
                controller_epoch: record.target.controller_epoch,
                binding_expires_unix: record.target.binding_expires_unix,
                controller_attached: record.target.controller_attached,
            },
            binding,
        },
    )
}

/// Recovery never sets a session back to an earlier generation of control.
pub proof fn law_recovery_never_sets_back(
    record: TransitionRecord,
    row: SessionRow,
    binding: Option<SidecarHostBinding>,
    commit: RecoveryCommit,
)
    requires
        is_recovery_commit(commit, record, row, binding),
        commit is Restore,
    ensures
        commit->controller.controller_epoch >= row.controller_epoch,
{
}

/// The former controller is out: what recovery restores is the whole control that
/// the record leads to, with its lease.
pub proof fn law_recovery_restores_the_whole_control(
    record: TransitionRecord,
    row: SessionRow,
    binding: Option<SidecarHostBinding>,
    commit: RecoveryCommit,
    journal_dir: Seq<char>,
)
    requires
        commit_refusal(record, row, journal_dir) is None,
        is_recovery_commit(commit, record, row, binding),
        !record.kind.is_terminal(),
        !is_ahead(row, record),
    ensures
        commit is Restore,
        commit->controller.principal == record.target.principal,
        record.target.lease_id == Some(commit->controller.lease_id),
        commit->controller.controller_epoch == record.target.controller_epoch,
        commit->controller.binding_expires_unix == record.target.binding_expires_unix,
        commit->controller.controller_attached == record.target.controller_attached,
        commit->binding == binding,
{
}

/// A record of a live session is replayed only through the exact host that it was
/// journalled for.
pub proof fn law_replays_address_the_old_host(
    plan: RecoveryPlan,
    record: TransitionRecord,
    now: int,
    lookup: SessionLookup,
)
    requires
        is_recovery_plan(plan, record, now, lookup),
        plan is Replay,
    ensures
        record.expires_unix > now,
        record.phase == TransitionPhase::Intent,
        is_supervisor_binding(plan->Replay_binding, record.session_id@, record.old_binding),
{
}

/// What the operating system tells of the process of a binding.
#[derive(Debug, Clone, Copy, PartialEq, Eq, Structural)]
pub enum ChildProof {
    Live,
    Dead,
    Unknown,
}

/// What the operating system tells of the process of a binding: only an attested
/// process can be told of.
pub open spec fn child_proof(
    binding: SidecarHostBinding,
    observed: ProcessObservation,
) -> ChildProof {
    if !binding.is_attested() {
        ChildProof::Unknown
    } else {
        match observed {
            ProcessObservation::Gone => ChildProof::Dead,
            ProcessObservation::Birth(birth) => if birth == binding.child_process_birth->0 {
                ChildProof::Live
            } else {
                ChildProof::Dead
            },
            ProcessObservation::Failed(_) => ChildProof::Unknown,
        }
    }
}

/// Tells of the process of a binding.
pub fn prove_child(binding: &SidecarHostBinding, observed: &ProcessObservation) -> (proof_of:
    ChildProof)
    ensures
        proof_of == child_proof(*binding, *observed),
{
    match (binding.child_pid, binding.child_process_birth) {
        (Some(_), Some(expected)) => match observed {
            ProcessObservation::Gone => ChildProof::Dead,
            ProcessObservation::Birth(birth) => {
                if *birth == expected {
                    ChildProof::Live
                } else {
                    ChildProof::Dead
                }
            },
            ProcessObservation::Failed(_) => ChildProof::Unknown,
        },
        _ => ChildProof::Unknown,
    }
}

/// What the supervisor says of the session of a record.
#[derive(Debug)]
pub enum SupervisorProbe {
    NotConnected,
    /// Whether it tracks a live host.
    Live(bool),
    Failed(String),
}

/// What is known of the hosts that an expired record refers to.
#[derive(Debug)]
pub enum DeathProof {
    Dead,
    Live,
    /// Neither could be proven, and why.
    Unproven(String),
}

/// The proof says this.
pub open spec fn is_death_proof(
    p: DeathProof,
    old: ChildProof,
    new: Option<ChildProof>,
    probe: SupervisorProbe,
) -> bool {
    if old == ChildProof::Live || new == Some(ChildProof::Live) {
        p == DeathProof::Live
    } else if old == ChildProof::Dead && new != Some(ChildProof::Unknown) {
        p == DeathProof::Dead
    } else {
        match probe {
            SupervisorProbe::Live(true) => p == DeathProof::Live,
            SupervisorProbe::Live(false) => p == DeathProof::Dead,
            SupervisorProbe::Failed(e) => p matches DeathProof::Unproven(message) && message@
                == "supervisor liveness probe failed: "@ + e@,
            SupervisorProbe::NotConnected => p matches DeathProof::Unproven(message) && message@
                == "sidecar has no attested child pid and the session supervisor is not connected"@,
        }
    }
}

/// Whether the supervisor has to be asked: some process cannot be told of, and
/// none is known to live.
pub fn needs_supervisor(old: ChildProof, new: Option<ChildProof>) -> (b: bool)
    ensures
        b == (old != ChildProof::Live && new != Some(ChildProof::Live) && (old
            == ChildProof::Unknown || new == Some(ChildProof::Unknown))),
{
    match (old, new) {
        (ChildProof::Live, _) => false,
        (_, Some(ChildProof::Live)) => false,
        (ChildProof::Unknown, _) => true,
        (_, Some(ChildProof::Unknown)) => true,
        _ => false,
    }
}

/// Proves the hosts of an expired record dead: every one of them. A live process
/// settles it the other way; where a process cannot be told of, the supervisor's
/// word counts.
pub fn prove_expired_sidecar_dead(
    old: ChildProof,
    new: Option<ChildProof>,
    probe: &SupervisorProbe,
) -> (p: DeathProof)
    ensures
        is_death_proof(p, old, new, *probe),
{
    match (old, new) {
        (ChildProof::Live, _) => {
            return DeathProof::Live;
        },
        (_, Some(ChildProof::Live)) => {
            return DeathProof::Live;
        },
        _ => {},
    }
    if !needs_supervisor(old, new) {
        return DeathProof::Dead;
    }
    match probe {
        SupervisorProbe::Live(live) => if *live {
            DeathProof::Live
        } else {
            DeathProof::Dead
        },
        SupervisorProbe::Failed(e) => DeathProof::Unproven(
            join("supervisor liveness probe failed: ", e.as_str()),
        ),
        SupervisorProbe::NotConnected => DeathProof::Unproven(
            "sidecar has no attested child pid and the session supervisor is not connected".to_owned(),
        ),
    }
}

/// Death is proven of every host of a record, or not at all: no live process is
/// ever passed over, and without the supervisor nothing is proven of a process
/// that cannot be told of.
pub proof fn law_death_is_proven_of_every_host(
    old: ChildProof,
    new: Option<ChildProof>,
    probe: SupervisorProbe,
)
    requires
        is_death_proof(DeathProof::Dead, old, new, probe),
    ensures
        old != ChildProof::Live,
        new != Some(ChildProof::Live),
        old == ChildProof::Unknown || new == Some(ChildProof::Unknown) ==> probe
            == SupervisorProbe::Live(false),
{
}

/// The record's own time covers that of every host it refers to.
pub open spec fn covers_its_hosts(record: TransitionRecord) -> bool {
    record.expires_unix >= record.old_binding.host_expires_unix && (match record.new_binding {
        Some(binding) => record.expires_unix >= binding.host_expires_unix,
        None => true,
    })
}

/// The host is one that the record refers to.
pub open spec fn refers_to(record: TransitionRecord, nonce: Seq<char>) -> bool {
    record.old_binding.host_nonce@ == nonce || (record.new_binding matches Some(binding)
        && binding.host_nonce@ == nonce)
}

/// The session still has a host of the record that has not run out.
pub open spec fn has_live_host_of(row: SessionRow, record: TransitionRecord, now: int) -> bool {
    row.sidecar_host matches Some(binding) && refers_to(record, binding.host_nonce@)
        && binding.host_expires_unix > now
}

/// Beginning of the messages on an expired record.
pub open spec fn expired_text(record: TransitionRecord) -> Seq<char> {
    "expired sidecar transition journal record "@ + record.transition_id@
}

/// Why an expired record is kept: anything short of proof that it concerns
/// nothing any more.
pub open spec fn expired_refusal(
    record: TransitionRecord,
    death: DeathProof,
    lookup: SessionLookup,
    now: int,
    journal_dir: Seq<char>,
) -> Refusal {
    let name = expired_text(record);
    if !covers_its_hosts(record) {
        Some(
            (
                ErrorCode::Conflict,
                name
                    + " has an inconsistent host-expiry bound; retained for review — run `ownmesh doctor` or inspect "@
                    + journal_dir + " "@,
            ),
        )
    } else {
        match death {
            DeathProof::Live => Some(
                (
                    ErrorCode::Conflict,
                    name
                        + " still references a live sidecar (attested child process or supervisor-tracked host); retained for review — run `ownmesh doctor` or inspect "@
                        + journal_dir + " "@,
                ),
            ),
            DeathProof::Unproven(message) => Some(
                (
                    ErrorCode::Conflict,
                    name + " cannot prove its sidecar terminated ("@ + message@
                        + "); retained fail-closed — run `ownmesh doctor` or inspect "@ + journal_dir
                        + " "@,
                ),
            ),
            DeathProof::Dead => match lookup {
                SessionLookup::Missing { .. } => None,
                SessionLookup::Failed { failure, message } => Some(
                    (session_code(failure), message@),
                ),
                SessionLookup::Found(row) => if row.state == SessionState::Closed {
                    if has_live_host_of(row, record, now) {
                        Some(
                            (
                                ErrorCode::Conflict,
                                name
                                    + " references a still-live host; retained for review — run `ownmesh doctor` or inspect "@
                                    + journal_dir + " "@,
                            ),
                        )
                    } else {
                        None
                    }
                } else {
                    Some(
                        (
                            ErrorCode::Conflict,
                            name + " (session "@ + record.session_id@
                                + " still present) retained for review; run `ownmesh doctor` or inspect "@
                                + journal_dir + " "@,
                        ),
                    )
                },
            },
        }
    }
}

/// A message on an expired record.
fn expired_error(record: &TransitionRecord, what: &str, journal_dir: &str) -> (e: IpcError)
    ensures
        e.is(ErrorCode::Conflict, expired_text(*record) + what@ + journal_dir@ + " "@),
{
    let mut message = join3(
        "expired sidecar transition journal record ",
        record.transition_id.as_str(),
        what,
    );
    message.append(journal_dir);
    message.append(" ");
    IpcError::with_message(ErrorCode::Conflict, message)
}

/// Whether a record's own time covers that of every host it refers to.
pub fn check_host_expiry(record: &TransitionRecord) -> (b: bool)
    ensures
        b == covers_its_hosts(*record),
{
    record.expires_unix >= record.old_binding.host_expires_unix && (match &record.new_binding {
        Some(binding) => record.expires_unix >= binding.host_expires_unix,
        None => true,
    })
}

/// Judges an expired record: it may be cleared, or why it is kept.
pub fn reconcile_expired_transition_record(
    record: &TransitionRecord,
    death: &DeathProof,
    lookup: &SessionLookup,
    now: i64,
    journal_dir: &str,
) -> (r: Result<(), IpcError>)
    ensures
        answers(r, expired_refusal(*record, *death, *lookup, now as int, journal_dir@)),
{
    if !check_host_expiry(record) {
        return Err(
            expired_error(
                record,
                " has an inconsistent host-expiry bound; retained for review — run `ownmesh doctor` or inspect ",
                journal_dir,
            ),
        );
    }
    match death {
        DeathProof::Live => {
            return Err(
                expired_error(
                    record,
                    " still references a live sidecar (attested child process or supervisor-tracked host); retained for review — run `ownmesh doctor` or inspect ",
                    journal_dir,
                ),
            );
        },
        DeathProof::Unproven(message) => {
            let mut text = join3(
                "expired sidecar transition journal record ",
                record.transition_id.as_str(),
                " cannot prove its sidecar terminated (",
            );
            text.append(message.as_str());
            text.append("); retained fail-closed — run `ownmesh doctor` or inspect ");
            text.append(journal_dir);
            text.append(" ");
            return Err(IpcError::with_message(ErrorCode::Conflict, text));
        },
        DeathProof::Dead => {},
    }
    match lookup {
        SessionLookup::Missing { .. } => Ok(()),
        SessionLookup::Failed { failure, message } => Err(session_err(*failure, message.as_str())),
        SessionLookup::Found(row) => {
            if row.state == SessionState::Closed {
                let live = match &row.sidecar_host {
                    Some(binding) => {
                        let refers = same_text(
                            record.old_binding.host_nonce.as_str(),
                            binding.host_nonce.as_str(),
                        ) || (match &record.new_binding {
                            Some(new) => same_text(
                                new.host_nonce.as_str(),
                                binding.host_nonce.as_str(),
                            ),
                            None => false,
                        });
                        refers && binding.host_expires_unix > now
                    },
                    None => false,
                };
                if live {
                    return Err(
                        expired_error(
                            record,
                            " references a still-live host; retained for review — run `ownmesh doctor` or inspect ",
                            journal_dir,
                        ),
                    );
                }
                return Ok(());
            }
            let mut text = join3(
                "expired sidecar transition journal record ",
                record.transition_id.as_str(),
                " (session ",
            );
            text.append(record.session_id.as_str());
            text.append(
                " still present) retained for review; run `ownmesh doctor` or inspect ",
            );
            text.append(journal_dir);
            text.append(" ");
            Err(IpcError::with_message(ErrorCode::Conflict, text))
        },
    }
}

/// An expired record is cleared only on proof: every host that it refers to is
/// dead, and its session is gone or closed.
pub proof fn law_expired_records_are_cleared_on_proof(
    record: TransitionRecord,
    death: DeathProof,
    lookup: SessionLookup,
    now: int,
    journal_dir: Seq<char>,
)
    requires
        expired_refusal(record, death, lookup, now, journal_dir) is None,
    ensures
        death == DeathProof::Dead,
        covers_its_hosts(record),
        lookup is Missing || (lookup matches SessionLookup::Found(row) && row.state
            == SessionState::Closed && !has_live_host_of(row, record, now)),
{
}

/// Most expired records that are named in the health state.
pub const TRANSITION_HEALTH_RETAINED_CAP: usize = 16;

/// The expired records that recovery had to keep, each once.
#[derive(Debug)]
pub struct TransitionRecoveryHealth {
    retained: Vec<String>,
}

/// What the health state reads of a record.
#[derive(Debug)]
pub struct PendingTransition {
    pub transition_id: String,
    pub expires_unix: i64,
}

/// The ids with one more, unless it is among them.
pub open spec fn with_id(ids: Seq<Seq<char>>, id: Seq<char>) -> Seq<Seq<char>> {
    if ids.contains(id) {
        ids
    } else {
        ids.push(id)
    }
}

/// The ids of the records that have run out, each once, in their order.
pub open spec fn expired_ids(pending: Seq<PendingTransition>, now: int) -> Seq<Seq<char>>
    decreases pending.len(),
{
    if pending.len() == 0 {
        Seq::empty()
    } else if pending.last().expires_unix <= now {
        with_id(expired_ids(pending.drop_last(), now), pending.last().transition_id@)
    } else {
        expired_ids(pending.drop_last(), now)
    }
}

/// The first ids, as many as are named.
pub open spec fn capped(ids: Seq<Seq<char>>) -> Seq<Seq<char>> {
    if ids.len() <= TRANSITION_HEALTH_RETAINED_CAP {
        ids
    } else {
        ids.take(TRANSITION_HEALTH_RETAINED_CAP as int)
    }
}

/// To be on the list is to be among its texts.
proof fn lemma_listed_is_viewed(list: Seq<String>, s: Seq<char>)
    ensures
        lists(list, s) <==> texts(list).contains(s),
{
    if lists(list, s) {
        let i = choose|i: int| 0 <= i < list.len() && (#[trigger] list[i])@ == s;
        assert(texts(list)[i] == s);
    }
    if texts(list).contains(s) {
        let i = choose|i: int| 0 <= i < texts(list).len() && texts(list)[i] == s;
        assert(list[i]@ == s);
    }
}

/// Adds an id to a list without repetitions, unless it is on it.
fn add_id(ids: &mut Vec<String>, id: &str)
    requires
        texts(old(ids)@).no_duplicates(),
    ensures
        texts(final(ids)@) == with_id(texts(old(ids)@), id@),
        texts(final(ids)@).no_duplicates(),
{
    let ghost before = ids@;
    proof {
        lemma_listed_is_viewed(before, id@);
    }
    if listed(ids, id) {
        return;
    }
    ids.push(id.to_owned());
    assert(texts(ids@) =~= texts(before).push(id@));
}

impl TransitionRecoveryHealth {
    /// The ids of the records that were kept, in the order in which they came.
    pub closed spec fn view(&self) -> Seq<Seq<char>> {
        texts(self.retained@)
    }

    /// No record is counted twice.
    #[verifier::type_invariant]
    spec fn counts_each_once(self) -> bool {
        texts(self.retained@).no_duplicates()
    }

    /// Nothing had to be kept.
    pub fn new() -> (health: TransitionRecoveryHealth)
        ensures
            health@ == Seq::<Seq<char>>::empty(),
    {
        let health = TransitionRecoveryHealth { retained: Vec::new() };
        assert(health@ =~= Seq::empty());
        health
    }

    /// The records that are named: the first ones.
    pub fn retained_expired(&self) -> (named: Vec<String>)
        ensures
            texts(named@) == capped(self@),
    {
        let mut named: Vec<String> = Vec::new();
        let mut i: usize = 0;
        assert(texts(named@) =~= self@.take(0));
        while i < self.retained.len() && i < TRANSITION_HEALTH_RETAINED_CAP
            invariant
                i <= self.retained@.len(),
                i <= TRANSITION_HEALTH_RETAINED_CAP,
                texts(named@) == self@.take(i as int),
            decreases self.retained.len() - i,
        {
            let ghost before = named@;
            named.push(self.retained[i].clone());
            assert(texts(named@) =~= texts(before).push(self@[i as int]));
            assert(self@.take(i + 1) =~= self@.take(i as int).push(self@[i as int]));
            i += 1;
        }
        assert(self@.take(self@.len() as int) =~= self@);
        named
    }

    /// How many records were kept, named or not; each counts once.
    pub fn retained_expired_total(&self) -> (n: usize)
        ensures
            n == self@.len(),
            self@.no_duplicates(),
    {
        proof {
            use_type_invariant(self);
        }
        self.retained.len()
    }

    /// Sets the health state to what is pending now: a record that was cleared
    /// meanwhile is no longer counted.
    pub fn refresh_transition_recovery_health(
        &mut self,
        pending: &Vec<PendingTransition>,
        now: i64,
    )
        ensures
            final(self)@ == expired_ids(pending@, now as int),
    {
        let mut retained: Vec<String> = Vec::new();
        let mut i: usize = 0;
        assert(pending@.take(0) =~= Seq::<PendingTransition>::empty());
        assert(texts(retained@) =~= expired_ids(pending@.take(0), now as int));
        while i < pending.len()
            invariant
                i <= pending@.len(),
                texts(retained@) == expired_ids(pending@.take(i as int), now as int),
                texts(retained@).no_duplicates(),
            decreases pending.len() - i,
        {
            assert(pending@.take(i + 1).drop_last() =~= pending@.take(i as int));
            assert(pending@.take(i + 1).last() == pending@[i as int]);
            if pending[i].expires_unix <= now {
                add_id(&mut retained, pending[i].transition_id.as_str());
            }
            i += 1;
        }
        assert(pending@.take(i as int) =~= pending@);
        self.retained = retained;
    }

    /// Counts a record that had to be kept, unless it is counted already.
    pub fn record_transition_recovery_issue(&mut self, transition_id: &str)
        ensures
            final(self)@ == with_id(old(self)@, transition_id@),
            old(self)@.contains(transition_id@) ==> *final(self) == *old(self),
    {
        proof {
            use_type_invariant(&*self);
            lemma_listed_is_viewed(self.retained@, transition_id@);
        }
        if listed(&self.retained, transition_id) {
            return;
        }
        let mut retained: Vec<String> = Vec::new();
        std::mem::swap(&mut retained, &mut self.retained);
        add_id(&mut retained, transition_id);
        self.retained = retained;
    }
}

/// A record is counted once, however often it is reported: the second report
/// changes neither what is named nor the total.
pub proof fn law_issues_are_counted_once(ids: Seq<Seq<char>>, id: Seq<char>)
    ensures
        with_id(with_id(ids, id), id) == with_id(ids, id),
        with_id(ids, id).contains(id),
        with_id(ids, id).len() == ids.len() + (if ids.contains(id) {
            0int
        } else {
            1int
        }),
        capped(with_id(ids, id)).len() <= TRANSITION_HEALTH_RETAINED_CAP,
{
    if !ids.contains(id) {
        assert(ids.push(id)[ids.len() as int] == id);
    }
}

/// Begins a pass over the journal, unless one is under way.
pub fn begin_recovery_pass(running: &mut bool) -> (begun: bool)
    ensures
        begun == !*old(running),
        *final(running),
{
    let begun = !*running;
    *running = true;
    begun
}

/// The positions of the records on one side of their time, in their order.
pub open spec fn positions(
    pending: Seq<PendingTransition>,
    now: int,
    expired: bool,
) -> Seq<int>
    decreases pending.len(),
{
    if pending.len() == 0 {
        Seq::empty()
    } else {
        let front = positions(pending.drop_last(), now, expired);
        if (pending.last().expires_unix <= now) == expired {
            front.push(pending.len() - 1)
        } else {
            front
        }
    }
}

/// Finds the records on one side of their time, in their order.
fn find_positions(pending: &Vec<PendingTransition>, now: i64, expired: bool) -> (found: Vec<usize>)
    ensures
        found@.map_values(|i: usize| i as int) == positions(pending@, now as int, expired),
{
    let mut found: Vec<usize> = Vec::new();
    let mut i: usize = 0;
    proof {
        assert(pending@.take(0) =~= Seq::<PendingTransition>::empty());
        assert(found@.map_values(|i: usize| i as int) =~= positions(
            pending@.take(0),
            now as int,
            expired,
        ));
    }
    while i < pending.len()
        invariant
            i <= pending@.len(),
            found@.map_values(|i: usize| i as int) == positions(
                pending@.take(i as int),
                now as int,
                expired,
            ),
        decreases pending.len() - i,
    {
        let ghost held = found@;
        assert(pending@.take(i + 1).drop_last() =~= pending@.take(i as int));
        assert(pending@.take(i + 1).last() == pending@[i as int]);
        if (pending[i].expires_unix <= now) == expired {
            found.push(i);
            assert(found@.map_values(|i: usize| i as int) =~= held.map_values(
                |i: usize| i as int,
            ).push(i as int));
        }
        i += 1;
    }
    assert(pending@.take(i as int) =~= pending@);
    found
}

/// The records that the non-blocking pass reconciles: those whose time ran out.
pub fn reconcile_expired_transitions(pending: &Vec<PendingTransition>, now: i64) -> (found: Vec<
    usize,
>)
    ensures
        found@.map_values(|i: usize| i as int) == positions(pending@, now as int, true),
{
    find_positions(pending, now, true)
}

/// The records that are replayed: those within their time.
pub fn recover_sidecar_transitions(pending: &Vec<PendingTransition>, now: i64) -> (found: Vec<usize>)
    ensures
        found@.map_values(|i: usize| i as int) == positions(pending@, now as int, false),
{
    find_positions(pending, now, false)
}

/// Most persistent sessions that are attached again.
pub const MAX_REATTACH: usize = 64;

/// Why the persistent sessions are not attached again.
pub open spec fn reattach_refusal(count: int, supervisor: bool) -> Refusal {
    if count > MAX_REATTACH {
        Some((ErrorCode::Conflict, "persistent sidecar reattach quota exceeded"@))
    } else if !supervisor {
        Some((ErrorCode::Conflict, "sidecar unavailable during reattach"@))
    } else {
        None
    }
}

/// Requires that the persistent sessions can be attached again.
pub fn reattach_persistent_sidecars(count: usize, supervisor: bool) -> (r: Result<(), IpcError>)
    ensures
        answers(r, reattach_refusal(count as int, supervisor)),
{
    if count > MAX_REATTACH {
        return Err(
            IpcError::new(ErrorCode::Conflict, "persistent sidecar reattach quota exceeded"),
        );
    }
    if !supervisor {
        return Err(IpcError::new(ErrorCode::Conflict, "sidecar unavailable during reattach"));
    }
    Ok(())
}

/// How a persistent session is attached again.
#[derive(Debug)]
pub enum ReattachStep {
    /// Its opening never completed: its host is terminated.
    Terminate { transition_id: String },
    /// Its control ran out: it is left for a reclaim.
    Leave,
    /// Its host has to attest its process.
    Attest,
}

/// The id under which an interrupted opening is terminated.
pub open spec fn open_recovery_id(session_id: Seq<char>, controller_epoch: int) -> Seq<char> {
    "open-recovery:"@ + session_id + ":"@ + crate::text::decimal(controller_epoch)
}

/// What is done about the host of a session after a restart.
pub open spec fn is_reattach_step(
    step: ReattachStep,
    session_id: Seq<char>,
    state: SessionState,
    binding: SidecarHostBinding,
    now: int,
) -> bool {
    if state == SessionState::Starting {
        step matches ReattachStep::Terminate { transition_id } && transition_id@
            == open_recovery_id(session_id, binding.controller_epoch as int)
    } else if binding.binding_expires_unix <= now {
        step == ReattachStep::Leave
    } else {
        step == ReattachStep::Attest
    }
}

/// Chooses how a persistent session is attached again.
pub fn reattach_step(
    session_id: &str,
    state: SessionState,
    binding: &SidecarHostBinding,
    now: i64,
) -> (step: ReattachStep)
    ensures
        is_reattach_step(step, session_id@, state, *binding, now as int),
{
    if state == SessionState::Starting {
        let mut transition_id = join3("open-recovery:", session_id, ":");
        transition_id.append(crate::text::unsigned_decimal(binding.controller_epoch).as_str());
        return ReattachStep::Terminate { transition_id };
    }
    if binding.binding_expires_unix <= now {
        return ReattachStep::Leave;
    }
    ReattachStep::Attest
}

/// The error of a host that could not be asked.
pub fn reattach_error(session_id: &str, starting: bool, message: &str) -> (e: IpcError)
    ensures
        e.is(
            ErrorCode::Conflict,
            if starting {
                "interrupted persistent session "@ + session_id@ + " cleanup is pending: "@
                    + message@
            } else {
                "persistent session "@ + session_id@ + " cannot reattach without respawn: "@
                    + message@
            },
        ),
{
    let mut text = if starting {
        join3("interrupted persistent session ", session_id, " cleanup is pending: ")
    } else {
        join3("persistent session ", session_id, " cannot reattach without respawn: ")
    };
    text.append(message);
    IpcError::with_message(ErrorCode::Conflict, text)
}

/// What a host says of itself.
#[derive(Debug, Clone, Copy)]
pub struct HostStatus {
    pub pid: Option<u32>,
    pub process_birth_id: Option<u64>,
    pub exited: bool,
}

/// Why a host is not attached again.
pub open spec fn attest_refusal(
    session_id: Seq<char>,
    binding: SidecarHostBinding,
    status: HostStatus,
) -> Refusal {
    if status.pid is None || status.process_birth_id is None || status.exited {
        Some(
            (
                ErrorCode::Conflict,
                "persistent session "@ + session_id + " did not attest child process identity"@,
            ),
        )
    } else if binding.is_attested() && (status.pid != binding.child_pid || status.process_birth_id
        != binding.child_process_birth) {
        Some(
            (
                ErrorCode::Conflict,
                "persistent session "@ + session_id
                    + " child process identity changed during reattach"@,
            ),
        )
    } else {
        None
    }
}

/// Takes the identity that a host attests: that of the binding, where the binding
/// has one.
pub fn attest_reattach(session_id: &str, binding: &SidecarHostBinding, status: HostStatus) -> (r:
    Result<(u32, u64), IpcError>)
    ensures
        answers(r, attest_refusal(session_id@, *binding, status)),
        r matches Ok((pid, birth)) ==> status.pid == Some(pid) && status.process_birth_id == Some(
            birth,
        ),
{
    match (status.pid, status.process_birth_id) {
        (Some(pid), Some(birth)) if !status.exited => {
            if let (Some(expected_pid), Some(expected_birth)) = (
                binding.child_pid,
                binding.child_process_birth,
            ) {
                if pid != expected_pid || birth != expected_birth {
                    return Err(
                        IpcError::with_message(
                            ErrorCode::Conflict,
                            join3(
                                "persistent session ",
                                session_id,
                                " child process identity changed during reattach",
                            ),
                        ),
                    );
                }
            }
            Ok((pid, birth))
        },
        _ => Err(
            IpcError::with_message(
                ErrorCode::Conflict,
                join3("persistent session ", session_id, " did not attest child process identity"),
            ),
        ),
    }
}

/// A session is attached again only to the process that it was bound to.
pub proof fn law_reattached_children_are_the_bound_ones(
    session_id: Seq<char>,
    binding: SidecarHostBinding,
    status: HostStatus,
)
    requires
        attest_refusal(session_id, binding, status) is None,
        binding.is_attested(),
    ensures
        status.pid == binding.child_pid,
        status.process_birth_id == binding.child_process_birth,
        !status.exited,
{
}

/// A session whose child attested itself.
pub open spec fn reattached(row: SessionRow, pid: u32, birth: u64) -> SessionRow {
    SessionRow {
        host_pid: Some(pid),
        sidecar_host: Some(
            SidecarHostBinding {
                child_pid: Some(pid),
                child_process_birth: Some(birth),
                ..row.sidecar_host->0
            },
        ),
        ..row
    }
}

/// Records the identity that a host attested in its session.
pub fn commit_reattach(row: &mut SessionRow, pid: u32, birth: u64) -> (r: Result<(), IpcError>)
    ensures
        answers(
            r,
            if old(row).sidecar_host is None {
                Some((ErrorCode::Internal, "reattached persistent session lost binding"@))
            } else {
                None
            },
        ),
        r is Ok ==> *final(row) == reattached(*old(row), pid, birth),
        r is Err ==> *final(row) == *old(row),
{
    match copy_binding(&row.sidecar_host) {
        None => Err(
            IpcError::new(ErrorCode::Internal, "reattached persistent session lost binding"),
        ),
        Some(binding) => {
            let mut binding = binding;
            binding.child_pid = Some(pid);
            binding.child_process_birth = Some(birth);
            row.host_pid = Some(pid);
            row.sidecar_host = Some(binding);
            Ok(())
        },
    }
}

/// Attempts to reach a supervisor that was just launched.
pub const SUPERVISOR_ATTEMPTS: usize = 40;

/// How an attempt to reach the supervisor went.
#[derive(Debug)]
pub enum SupervisorAttempt {
    /// It has no credential yet.
    NoCredential,
    /// It refused the credential.
    Refused(String),
    /// It answered.
    Ready,
}

/// What follows an attempt to reach the supervisor.
#[derive(Debug)]
pub enum SupervisorNext {
    Ready,
    /// Wait, then try again.
    Retry,
    GiveUp(IpcError),
}

/// The wait for a supervisor that was just launched.
#[derive(Debug)]
pub struct SupervisorWait {
    pub attempts: usize,
    pub last: String,
}

/// The last thing that is known of a supervisor.
pub open spec fn last_word(before: Seq<char>, attempt: SupervisorAttempt) -> Seq<char> {
    match attempt {
        SupervisorAttempt::Refused(e) => "sidecar credential bootstrap: "@ + e@,
        _ => before,
    }
}

impl SupervisorWait {
    /// Before the first attempt.
    pub fn new() -> (wait: SupervisorWait)
        ensures
            wait.attempts == 0,
            wait.last@ == "sidecar did not provision management credential"@,
    {
        SupervisorWait {
            attempts: 0,
            last: "sidecar did not provision management credential".to_owned(),
        }
    }

    /// What follows an attempt.
    pub open spec fn attempted(
        self,
        after: Self,
        attempt: SupervisorAttempt,
        next: SupervisorNext,
    ) -> bool {
        &&& after.attempts == self.attempts + 1
        &&& after.last@ == last_word(self.last@, attempt)
        &&& if attempt is Ready {
            next is Ready
        } else if after.attempts < SUPERVISOR_ATTEMPTS {
            next is Retry
        } else {
            next matches SupervisorNext::GiveUp(e) && e.is(
                ErrorCode::Conflict,
                "persistent session sidecar unavailable: "@ + after.last@,
            )
        }
    }

    /// Decides what follows an attempt.
    pub fn ensure_remote_supervisor(&mut self, attempt: SupervisorAttempt) -> (next: SupervisorNext)
        requires
            old(self).attempts < SUPERVISOR_ATTEMPTS,
        ensures
            old(self).attempted(*final(self), attempt, next),
    {
        self.attempts = self.attempts + 1;
        match attempt {
            SupervisorAttempt::Ready => {
                return SupervisorNext::Ready;
            },
            SupervisorAttempt::Refused(e) => {
                self.last = join("sidecar credential bootstrap: ", e.as_str());
            },
            SupervisorAttempt::NoCredential => {},
        }
        if self.attempts < SUPERVISOR_ATTEMPTS {
            return SupervisorNext::Retry;
        }
        SupervisorNext::GiveUp(
            IpcError::with_message(
                ErrorCode::Conflict,
                join("persistent session sidecar unavailable: ", self.last.as_str()),
            ),
        )
    }
}

/// Why the supervisor could not be launched.
#[derive(Debug)]
pub enum LaunchFailure {
    UnknownDaemon(String),
    NoDirectory,
    Custody(String),
    Changed(String),
    Spawn(String),
}

/// The error of a launch.
pub open spec fn launch_refusal(failure: LaunchFailure) -> (ErrorCode, Seq<char>) {
    match failure {
        LaunchFailure::UnknownDaemon(e) => (
            ErrorCode::Internal,
            "resolve ownmeshd executable for sidecar: "@ + e@,
        ),
        LaunchFailure::NoDirectory => (
            ErrorCode::Internal,
            "ownmeshd executable has no parent directory"@,
        ),
        LaunchFailure::Custody(e) => (
            ErrorCode::Internal,
            "session-host executable custody failed: "@ + e@,
        ),
        LaunchFailure::Changed(e) => (
            ErrorCode::Internal,
            "session-host executable changed before launch: "@ + e@,
        ),
        LaunchFailure::Spawn(e) => (
            ErrorCode::Conflict,
            "launch persistent session sidecar: "@ + e@,
        ),
    }
}

/// Tells why the supervisor could not be launched.
pub fn launch_error(failure: &LaunchFailure) -> (e: IpcError)
    ensures
        e.is(launch_refusal(*failure).0, launch_refusal(*failure).1),
{
    match failure {
        LaunchFailure::UnknownDaemon(e) => IpcError::with_message(
            ErrorCode::Internal,
            join("resolve ownmeshd executable for sidecar: ", e.as_str()),
        ),
        LaunchFailure::NoDirectory => IpcError::new(
            ErrorCode::Internal,
            "ownmeshd executable has no parent directory",
        ),
        LaunchFailure::Custody(e) => IpcError::with_message(
            ErrorCode::Internal,
            join("session-host executable custody failed: ", e.as_str()),
        ),
        LaunchFailure::Changed(e) => IpcError::with_message(
            ErrorCode::Internal,
            join("session-host executable changed before launch: ", e.as_str()),
        ),
        LaunchFailure::Spawn(e) => IpcError::with_message(
            ErrorCode::Conflict,
            join("launch persistent session sidecar: ", e.as_str()),
        ),
    }
}

/// What the supervisor repeats is the transition that was journalled, and control
/// goes to the principal that the record leads to, at its epoch and until its
/// expiry: a handover to the one that it was given to.
pub proof fn law_replays_lead_to_the_recorded_target(
    plan: RecoveryPlan,
    record: TransitionRecord,
    now: int,
    lookup: SessionLookup,
)
    requires
        is_recovery_plan(plan, record, now, lookup),
        plan is Replay,
    ensures
        match plan->Replay_action {
            ReplayAction::Claim { principal, controller_epoch, binding_expires_unix } => record.kind
                == TransitionKind::Claim && principal@ == record.target.principal@
                && controller_epoch == record.target.controller_epoch && binding_expires_unix
                == record.target.binding_expires_unix,
            ReplayAction::Rotate { principal, controller_epoch, binding_expires_unix } => record.kind
                == TransitionKind::Give && principal@ == record.target.principal@
                && controller_epoch == record.target.controller_epoch && binding_expires_unix
                == record.target.binding_expires_unix,
            ReplayAction::Reclaim { principal, controller_epoch, binding_expires_unix } => record.kind
                == TransitionKind::Reclaim && principal@ == record.target.principal@
                && controller_epoch == record.target.controller_epoch && binding_expires_unix
                == record.target.binding_expires_unix,
            ReplayAction::Renew { binding_expires_unix } => record.kind == TransitionKind::Renew
                && binding_expires_unix == record.target.binding_expires_unix,
            ReplayAction::Detach { controller_epoch } => record.kind == TransitionKind::Detach
                && controller_epoch == record.target.controller_epoch,
            ReplayAction::Terminate => record.kind == TransitionKind::Close || record.kind
                == TransitionKind::Terminate,
        },
        record.kind == TransitionKind::Give ==> plan->Replay_action is Rotate,
        record.kind == TransitionKind::Claim ==> plan->Replay_action is Claim,
        record.kind == TransitionKind::Reclaim ==> plan->Replay_action is Reclaim,
{
}

/// A record is expired, or finished, or repeated, or taken over, by nothing but its
/// time, its phase and whether its session is there.
pub proof fn law_recovery_goes_by_phase(
    plan: RecoveryPlan,
    record: TransitionRecord,
    now: int,
    lookup: SessionLookup,
)
    requires
        is_recovery_plan(plan, record, now, lookup),
    ensures
        plan is ReconcileExpired <==> record.expires_unix <= now,
        plan is Clear <==> record.expires_unix > now && lookup is Missing,
        plan is Apply <==> record.expires_unix > now && !(lookup is Missing) && record.phase
            == TransitionPhase::Applied,
        plan is Replay <==> record.expires_unix > now && !(lookup is Missing) && record.phase
            == TransitionPhase::Intent,
        plan matches RecoveryPlan::Clear(reason) ==> reason == ClearReason::CompletedTerminal,
        plan matches RecoveryPlan::Apply(binding) ==> (if record.kind == TransitionKind::Close
            || record.kind == TransitionKind::Terminate {
            binding is None
        } else {
            binding == record.new_binding
        }),
{
}

/// The recovery of an unexpired record stops unless its session is there in the
/// record's workspace, or is gone as the record says; without the supervisor nothing
/// is repeated, and an applied transition of a live session has its binding.
pub proof fn law_recovery_needs_its_session(
    record: TransitionRecord,
    now: int,
    lookup: SessionLookup,
    supervisor: bool,
)
    requires
        record.expires_unix > now,
    ensures
        recovery_refusal(record, now, lookup, supervisor) is None <==> match lookup {
            SessionLookup::Found(row) => (row.workspace_id matches Some(id) && id@
                == record.workspace_id@) && (if record.phase == TransitionPhase::Intent {
                supervisor
            } else {
                record.kind == TransitionKind::Close || record.kind == TransitionKind::Terminate
                    || record.new_binding is Some
            }),
            SessionLookup::Missing { .. } => record.phase == TransitionPhase::Applied && (
            record.kind == TransitionKind::Close || record.kind == TransitionKind::Terminate),
            SessionLookup::Failed { .. } => false,
        },
        lookup is Found && recovery_refusal(record, now, lookup, supervisor) is Some ==> (
        recovery_refusal(record, now, lookup, supervisor) matches Some((code, _)) && (code
            == ErrorCode::Conflict || code == ErrorCode::Internal)),
{
}

/// A repeated transition leaves the host what it was: its device, workspace, process
/// and lifetime stay, and what is new are the nonce and epoch that the supervisor
/// answered, and the principal and expiry that the record leads to.
pub proof fn law_replayed_hosts_are_the_same(record: TransitionRecord, reply: ReplayReply)
    ensures
        replayed_binding(record, reply).device_id@ == record.device_id@,
        replayed_binding(record, reply).workspace_id@ == record.workspace_id@,
        replayed_binding(record, reply).owner_principal@ == record.target.principal@,
        replayed_binding(record, reply).host_nonce@ == reply.host_nonce@,
        replayed_binding(record, reply).controller_epoch == reply.controller_epoch,
        replayed_binding(record, reply).binding_expires_unix
            == record.target.binding_expires_unix,
        replayed_binding(record, reply).host_expires_unix == record.old_binding.host_expires_unix,
        replayed_binding(record, reply).child_pid == record.old_binding.child_pid,
        replayed_binding(record, reply).child_process_birth
            == record.old_binding.child_process_birth,
{
}

/// A repeated transition is recorded where the supervisor carried it out, with a
/// binding unless the session ends.
pub proof fn law_replays_are_recorded_on_success(
    record: TransitionRecord,
    reply: Result<Option<ReplayReply>, String>,
)
    ensures
        replay_refusal(record, reply) is None <==> (reply matches Ok(answer) && (answer is Some
            || record.kind == TransitionKind::Close || record.kind == TransitionKind::Terminate)),
        reply is Err ==> (replay_refusal(record, reply) matches Some((code, _)) && code
            == ErrorCode::Conflict),
{
}

/// A recovered record is carried over to its session: an ending ends it in the way
/// that was recorded, and anything else restores control unless the session is
/// further on, which clears the record where its host went on too, and keeps it
/// where the host did not.
pub proof fn law_recovered_records_are_carried_over(
    record: TransitionRecord,
    row: SessionRow,
    binding: Option<SidecarHostBinding>,
    commit: RecoveryCommit,
    journal_dir: Seq<char>,
)
    requires
        is_recovery_commit(commit, record, row, binding),
    ensures
        commit is Close <==> record.kind == TransitionKind::Close,
        commit is Terminate <==> record.kind == TransitionKind::Terminate,
        commit is Clear <==> record.kind != TransitionKind::Close && record.kind
            != TransitionKind::Terminate && row.controller_epoch
            > record.target.controller_epoch,
        commit is Restore <==> record.kind != TransitionKind::Close && record.kind
            != TransitionKind::Terminate && row.controller_epoch
            <= record.target.controller_epoch,
        commit matches RecoveryCommit::Clear(reason) ==> reason == ClearReason::Superseded,
        commit matches RecoveryCommit::Restore { controller, binding: restored } ==> {
            &&& controller.principal@ == record.target.principal@
            &&& record.target.lease_id is Some ==> controller.lease_id@
                == record.target.lease_id->0@
            &&& controller.controller_epoch == record.target.controller_epoch
            &&& controller.binding_expires_unix == record.target.binding_expires_unix
            &&& controller.controller_attached == record.target.controller_attached
            &&& restored == binding
        },
        commit_refusal(record, row, journal_dir) is None <==> record.kind == TransitionKind::Close
            || record.kind == TransitionKind::Terminate || (if row.controller_epoch
            > record.target.controller_epoch {
            row.sidecar_host matches Some(host) ==> host.controller_epoch
                >= record.target.controller_epoch
        } else {
            record.target.lease_id is Some
        }),
{
}

/// What the operating system tells of the child of a host: it lives where the
/// process was born when the child was, it is dead where that process is gone or
/// another, and without both of the child's facts, or without a look, nothing is
/// known.
pub proof fn law_children_are_proven_by_birth(
    binding: SidecarHostBinding,
    observed: ProcessObservation,
)
    ensures
        child_proof(binding, observed) == ChildProof::Live <==> binding.child_pid is Some && (
        binding.child_process_birth matches Some(born) && observed == ProcessObservation::Birth(
            born,
        )),
        child_proof(binding, observed) == ChildProof::Dead <==> binding.child_pid is Some && (
        binding.child_process_birth matches Some(born) && (observed == ProcessObservation::Gone || (
        observed matches ProcessObservation::Birth(other) && other != born))),
{
}

/// A host that lives is never told dead, and where the children tell nothing the
/// supervisor decides; where it cannot, nothing is proven.
pub proof fn law_death_proofs_are_decided(
    p: DeathProof,
    old: ChildProof,
    new: Option<ChildProof>,
    probe: SupervisorProbe,
)
    requires
        is_death_proof(p, old, new, probe),
    ensures
        old == ChildProof::Live || new == Some(ChildProof::Live) ==> p is Live,
        old == ChildProof::Dead && (new is None || new == Some(ChildProof::Dead)) ==> p is Dead,
        old != ChildProof::Live && new != Some(ChildProof::Live) && (old == ChildProof::Unknown
            || new == Some(ChildProof::Unknown)) ==> {
            &&& p is Live <==> probe == SupervisorProbe::Live(true)
            &&& p is Dead <==> probe == SupervisorProbe::Live(false)
            &&& p is Unproven <==> probe is Failed || probe is NotConnected
        },
{
}

/// An expired record is cleared where its time covers that of its hosts, every host
/// is proven dead, and its session is gone, or closed without a host of the record
/// that is still in its time; in any other case it is kept.
pub proof fn law_expired_records_are_kept_without_proof(
    record: TransitionRecord,
    death: DeathProof,
    lookup: SessionLookup,
    now: int,
    journal_dir: Seq<char>,
)
    ensures
        expired_refusal(record, death, lookup, now, journal_dir) is None <==> {
            &&& record.old_binding.host_expires_unix <= record.expires_unix
            &&& record.new_binding matches Some(new) ==> new.host_expires_unix
                <= record.expires_unix
            &&& death is Dead
            &&& match lookup {
                SessionLookup::Missing { .. } => true,
                SessionLookup::Failed { .. } => false,
                SessionLookup::Found(row) => row.state == SessionState::Closed && !(
                row.sidecar_host matches Some(host) && now < host.host_expires_unix && (
                host.host_nonce@ == record.old_binding.host_nonce@ || (
                record.new_binding matches Some(new) && host.host_nonce@ == new.host_nonce@))),
            }
        },
{
}

/// The unresolved records are exactly the expired ones among those pending, each
/// named once, in their order; at most sixteen are listed, the first ones.
pub proof fn law_expired_records_are_reported(pending: Seq<PendingTransition>, now: int, id: Seq<char>)
    ensures
        expired_ids(pending, now).contains(id) <==> exists|i: int|
            0 <= i < pending.len() && (#[trigger] pending[i]).expires_unix <= now
                && pending[i].transition_id@ == id,
        expired_ids(pending, now).no_duplicates(),
        expired_ids(pending, now).len() <= pending.len(),
        capped(expired_ids(pending, now)).len() <= 16,
        expired_ids(pending, now).len() <= 16 ==> capped(expired_ids(pending, now)) == expired_ids(
            pending,
            now,
        ),
        expired_ids(pending, now).len() > 16 ==> capped(expired_ids(pending, now)).len() == 16,
        forall|i: int|
            0 <= i < capped(expired_ids(pending, now)).len() ==> #[trigger] capped(
                expired_ids(pending, now),
            )[i] == expired_ids(pending, now)[i],
    decreases pending.len(),
{
    if pending.len() > 0 {
        let front = pending.drop_last();
        let last = pending.last();
        let before = expired_ids(front, now);
        let after = expired_ids(pending, now);
        law_expired_records_are_reported(front, now, id);
        law_issues_are_counted_once(before, last.transition_id@);
        if exists|i: int|
            0 <= i < front.len() && (#[trigger] front[i]).expires_unix <= now
                && front[i].transition_id@ == id {
            let i = choose|i: int|
                0 <= i < front.len() && (#[trigger] front[i]).expires_unix <= now
                    && front[i].transition_id@ == id;
            assert(pending[i] == front[i]);
            assert(before.contains(id));
            let k = choose|k: int| 0 <= k < before.len() && before[k] == id;
            assert(after[k] == id);
        }
        if exists|i: int|
            0 <= i < pending.len() && (#[trigger] pending[i]).expires_unix <= now
                && pending[i].transition_id@ == id {
            let i = choose|i: int|
                0 <= i < pending.len() && (#[trigger] pending[i]).expires_unix <= now
                    && pending[i].transition_id@ == id;
            if i < front.len() {
                assert(front[i] == pending[i]);
            }
        }
        if after.contains(id) && !before.contains(id) {
            assert(last.expires_unix <= now);
            assert(pending[pending.len() - 1] == last);
            let k = choose|k: int| 0 <= k < after.len() && after[k] == id;
            assert(k == before.len());
            assert(id == last.transition_id@);
        }
    }
}

/// The records that a pass takes up are all those on its side of their expiry, in
/// their order.
pub proof fn law_passes_take_up_their_records(
    pending: Seq<PendingTransition>,
    now: int,
    expired: bool,
    at: int,
)
    ensures
        positions(pending, now, expired).contains(at) <==> 0 <= at < pending.len() && (
        pending[at].expires_unix <= now <==> expired),
        forall|i: int, j: int|
            0 <= i < j < positions(pending, now, expired).len() ==> #[trigger] positions(
                pending,
                now,
                expired,
            )[i] < #[trigger] positions(pending, now, expired)[j],
        forall|i: int|
            0 <= i < positions(pending, now, expired).len() ==> 0 <= #[trigger] positions(
                pending,
                now,
                expired,
            )[i] < pending.len(),
    decreases pending.len(),
{
    if pending.len() > 0 {
        let front = pending.drop_last();
        law_passes_take_up_their_records(front, now, expired, at);
        let before = positions(front, now, expired);
        let after = positions(pending, now, expired);
        if before.contains(at) {
            let k = choose|k: int| 0 <= k < before.len() && before[k] == at;
            assert(after[k] == at);
        }
        if at == pending.len() - 1 && (pending[at].expires_unix <= now <==> expired) {
            assert(after[after.len() - 1] == at);
        }
        if after.contains(at) && !before.contains(at) {
            let k = choose|k: int| 0 <= k < after.len() && after[k] == at;
            assert(k == before.len());
        }
    }
}

/// At most sixty-four hosts are taken over again, and only through the supervisor;
/// each tells the process that it runs, alive, and the one that was attested before
/// where one was.
pub proof fn law_hosts_attest_their_child(
    count: int,
    supervisor: bool,
    session_id: Seq<char>,
    binding: SidecarHostBinding,
    status: HostStatus,
)
    ensures
        reattach_refusal(count, supervisor) is None <==> count <= 64 && supervisor,
        attest_refusal(session_id, binding, status) is None <==> status.pid is Some
            && status.process_birth_id is Some && !status.exited && (binding.child_pid is Some
            && binding.child_process_birth is Some ==> status.pid == binding.child_pid
            && status.process_birth_id == binding.child_process_birth),
        attest_refusal(session_id, binding, status) matches Some((code, _)) ==> code
            == ErrorCode::Conflict,
{
}

/// After a restart a session that was only starting is ended, one whose binding ran out
/// is left alone, and every other one has to attest its child.
pub proof fn law_restarts_keep_bound_hosts(
    step: ReattachStep,
    session_id: Seq<char>,
    state: SessionState,
    binding: SidecarHostBinding,
    now: int,
)
    requires
        is_reattach_step(step, session_id, state, binding, now),
    ensures
        step is Terminate <==> state is Starting,
        step is Leave <==> !(state is Starting) && binding.binding_expires_unix <= now,
        step is Attest <==> !(state is Starting) && now < binding.binding_expires_unix,
{
}

/// A session that is reattached records the child that attested itself, and is otherwise
/// as it was: its control, its owner, its nonce and its times.
pub proof fn law_reattached_sessions_record_the_child(row: SessionRow, pid: u32, birth: u64)
    requires
        row.sidecar_host is Some,
    ensures
        reattached(row, pid, birth).host_pid == Some(pid),
        reattached(row, pid, birth).state == row.state,
        reattached(row, pid, birth).workspace_id == row.workspace_id,
        reattached(row, pid, birth).sidecar_host matches Some(after) && (
        row.sidecar_host matches Some(before) && {
            &&& after.child_pid == Some(pid)
            &&& after.child_process_birth == Some(birth)
            &&& after.host_nonce == before.host_nonce
            &&& after.owner_principal == before.owner_principal
            &&& after.device_id == before.device_id
            &&& after.workspace_id == before.workspace_id
            &&& after.controller_epoch == before.controller_epoch
            &&& after.binding_expires_unix == before.binding_expires_unix
            &&& after.host_expires_unix == before.host_expires_unix
        }),
{
}

/// A replay that ends a session leaves a terminal mark; any other leaves the binding
/// that its target names, on the host that replied.
pub proof fn law_replays_leave_their_mark(record: TransitionRecord, reply: ReplayReply)
    ensures
        applied_mark(record, Some(reply)) is Terminal <==> record.kind.is_terminal(),
        applied_mark(record, None) is Terminal <==> record.kind.is_terminal(),
        applied_mark(record, Some(reply)) matches AppliedMark::Binding(binding) ==> {
            &&& binding.owner_principal == record.target.principal
            &&& binding.binding_expires_unix == record.target.binding_expires_unix
            &&& binding.host_nonce == reply.host_nonce
            &&& binding.controller_epoch == reply.controller_epoch
            &&& binding.device_id == record.device_id
            &&& binding.workspace_id == record.workspace_id
        },
{
}

/// A launch that the system refuses is a conflict; every other failure to launch is the
/// daemon's own.
pub proof fn law_failed_launches_have_their_code(failure: LaunchFailure)
    ensures
        launch_refusal(failure).0 == ErrorCode::Conflict <==> failure is Spawn,
        launch_refusal(failure).0 == ErrorCode::Internal <==> !(failure is Spawn),
{
}

/// The supervisor is waited for in forty attempts: the first that finds it ready ends the
/// wait, and the last one that does not gives up, as a conflict, with the last refusal.
pub proof fn law_supervisors_are_waited_for(
    before: SupervisorWait,
    after: SupervisorWait,
    attempt: SupervisorAttempt,
    next: SupervisorNext,
)
    requires
        before.attempted(after, attempt, next),
    ensures
        after.attempts == before.attempts + 1,
        next is Ready <==> attempt is Ready,
        !(attempt is Ready) ==> (next is Retry <==> before.attempts + 1 < 40),
        !(attempt is Ready) && before.attempts + 1 >= 40 ==> (next matches SupervisorNext::GiveUp(e)
            && e.code == ErrorCode::Conflict),
        attempt matches SupervisorAttempt::Refused(e) ==> after.last@
            == "sidecar credential bootstrap: "@ + e@,
        !(attempt is Refused) ==> after.last@ == before.last@,
{
}

/// A recovered record that ends a session is carried over; one that is behind the
/// session's control while the host is still the old one is a conflict, and one without
/// its lease is the journal's own fault.
pub proof fn law_uncommitted_records_are_kept(
    record: TransitionRecord,
    row: SessionRow,
    journal_dir: Seq<char>,
)
    ensures
        record.kind.is_terminal() ==> commit_refusal(record, row, journal_dir) is None,
        !record.kind.is_terminal() && is_ahead(row, record) ==> {
            &&& commit_refusal(record, row, journal_dir) is Some <==> (
            row.sidecar_host matches Some(binding) && binding.controller_epoch
                < record.target.controller_epoch)
            &&& (commit_refusal(record, row, journal_dir) matches Some((code, _)) ==> code
                == ErrorCode::Conflict)
        },
        !record.kind.is_terminal() && !is_ahead(row, record) && record.target.lease_id is None ==> (
        commit_refusal(record, row, journal_dir) matches Some((code, _)) && code
            == ErrorCode::Internal),
{
}

/// Sessions are reattached while there are at most 64 and the supervisor answers;
/// otherwise it is a conflict.
pub proof fn law_reattaching_is_bounded(count: int, supervisor: bool)
    ensures
        reattach_refusal(count, supervisor) is None <==> count <= 64 && supervisor,
        reattach_refusal(count, supervisor) matches Some((code, _)) ==> code == ErrorCode::Conflict,
{
}

/// An expired record that is kept is kept as a conflict, unless its session could not be
/// looked up, which is told with a code of its own.
pub proof fn law_kept_expired_records_are_conflicts(
    record: TransitionRecord,
    death: DeathProof,
    lookup: SessionLookup,
    now: int,
    journal_dir: Seq<char>,
)
    ensures
        !(lookup is Failed) ==> (expired_refusal(
            record,
            death,
            lookup,
            now,
            journal_dir,
        ) matches Some((code, _)) ==> code == ErrorCode::Conflict),
        !(death is Dead) ==> (expired_refusal(
            record,
            death,
            lookup,
            now,
            journal_dir,
        ) matches Some((code, _)) && code == ErrorCode::Conflict),
{
}

} // verus!

//! Persistent sessions: who may use them, and which host they are bound to.
use crate::approvals::{answers, Refusal};
use crate::error::{ErrorCode, IpcError};
use crate::text::{join3, same_text, trim, trimmed};
use vstd::prelude::*;
use vstd::string::*;

verus! {

/// How a file operation fails.
#[derive(Debug, Clone, Copy, PartialEq, Eq, Structural)]
pub enum FsFailure {
    HashMismatch,
    GitWorktreeOutsideWorkspace,
    Other,
}

/// Class and text of a failed file operation.
pub open spec fn fs_refusal(failure: FsFailure, message: Seq<char>) -> (ErrorCode, Seq<char>) {
    match failure {
        FsFailure::HashMismatch => (ErrorCode::Conflict, "file changed since it was read"@),
        FsFailure::GitWorktreeOutsideWorkspace => (
            ErrorCode::PolicyDenied,
            "git worktree is outside the selected workspace"@,
        ),
        FsFailure::Other => (ErrorCode::Internal, message),
    }
}

/// The error of a file operation. What a mismatch says of paths and hashes stays
/// on the device.
pub fn fs_err(failure: FsFailure, message: &str) -> (e: IpcError)
    ensures
        e.is(fs_refusal(failure, message@).0, fs_refusal(failure, message@).1),
{
    match failure {
        FsFailure::HashMismatch => IpcError::new(
            ErrorCode::Conflict,
            "file changed since it was read",
        ),
        FsFailure::GitWorktreeOutsideWorkspace => IpcError::new(
            ErrorCode::PolicyDenied,
            "git worktree is outside the selected workspace",
        ),
        FsFailure::Other => IpcError::new(ErrorCode::Internal, message),
    }
}

/// How a session operation fails.
#[derive(Debug, Clone, Copy, PartialEq, Eq, Structural)]
pub enum SessionFailure {
    NotFound,
    Invalid,
    ChunkTooLarge,
    SequenceRequired,
    SequenceStale,
    SequenceGap,
    SequenceConflict,
    NotReader,
    SessionLimit,
    ReplayBudget,
    LeaseHeld,
    NotController,
    ObserverCannotWrite,
    Closed,
    Persist,
}

/// Class of a failed session operation.
pub open spec fn session_code(failure: SessionFailure) -> ErrorCode {
    match failure {
        SessionFailure::NotFound
        | SessionFailure::Invalid
        | SessionFailure::ChunkTooLarge
        | SessionFailure::SequenceRequired
        | SessionFailure::SequenceStale
        | SessionFailure::SequenceGap
        | SessionFailure::SequenceConflict => ErrorCode::InvalidParams,
        SessionFailure::NotReader => ErrorCode::PolicyDenied,
        SessionFailure::SessionLimit
        | SessionFailure::ReplayBudget
        | SessionFailure::LeaseHeld
        | SessionFailure::NotController
        | SessionFailure::ObserverCannotWrite
        | SessionFailure::Closed => ErrorCode::Conflict,
        SessionFailure::Persist => ErrorCode::Internal,
    }
}

/// The error of a session operation.
pub fn session_err(failure: SessionFailure, message: &str) -> (e: IpcError)
    ensures
        e.is(session_code(failure), message@),
{
    let code = match failure {
        SessionFailure::NotFound
        | SessionFailure::Invalid
        | SessionFailure::ChunkTooLarge
        | SessionFailure::SequenceRequired
        | SessionFailure::SequenceStale
        | SessionFailure::SequenceGap
        | SessionFailure::SequenceConflict => ErrorCode::InvalidParams,
        SessionFailure::NotReader => ErrorCode::PolicyDenied,
        SessionFailure::SessionLimit
        | SessionFailure::ReplayBudget
        | SessionFailure::LeaseHeld
        | SessionFailure::NotController
        | SessionFailure::ObserverCannotWrite
        | SessionFailure::Closed => ErrorCode::Conflict,
        SessionFailure::Persist => ErrorCode::Internal,
    };
    IpcError::new(code, message)
}

/// The host that a persistent session runs on.
#[derive(Debug)]
pub struct SidecarHostBinding {
    pub device_id: String,
    pub workspace_id: String,
    pub owner_principal: String,
    pub host_nonce: String,
    pub controller_epoch: u64,
    pub binding_expires_unix: i64,
    pub host_expires_unix: i64,
    pub child_pid: Option<u32>,
    pub child_process_birth: Option<u64>,
}

impl SidecarHostBinding {
    /// A copy of the binding.
    pub fn copy(&self) -> (binding: SidecarHostBinding)
        ensures
            binding == *self,
    {
        SidecarHostBinding {
            device_id: self.device_id.clone(),
            workspace_id: self.workspace_id.clone(),
            owner_principal: self.owner_principal.clone(),
            host_nonce: self.host_nonce.clone(),
            controller_epoch: self.controller_epoch,
            binding_expires_unix: self.binding_expires_unix,
            host_expires_unix: self.host_expires_unix,
            child_pid: self.child_pid,
            child_process_birth: self.child_process_birth,
        }
    }

    /// The process of the binding is attested: by number and by birth.
    pub open spec fn is_attested(self) -> bool {
        self.child_pid is Some && self.child_process_birth is Some
    }
}

/// What the supervisor of persistent sessions is addressed by.
#[derive(Debug)]
pub struct SupervisorBinding {
    pub session_id: String,
    pub device_id: String,
    pub workspace_id: String,
    pub owner_principal: String,
    pub host_nonce: String,
    pub controller_epoch: u64,
}

/// The binding that a session's host is addressed by.
pub open spec fn is_supervisor_binding(
    exact: SupervisorBinding,
    session_id: Seq<char>,
    binding: SidecarHostBinding,
) -> bool {
    &&& exact.session_id@ == session_id
    &&& exact.device_id == binding.device_id
    &&& exact.workspace_id == binding.workspace_id
    &&& exact.owner_principal == binding.owner_principal
    &&& exact.host_nonce == binding.host_nonce
    &&& exact.controller_epoch == binding.controller_epoch
}

/// Addresses the host of a session.
pub fn supervisor_binding_from(session_id: &str, binding: &SidecarHostBinding) -> (exact:
    SupervisorBinding)
    ensures
        is_supervisor_binding(exact, session_id@, *binding),
{
    SupervisorBinding {
        session_id: session_id.to_owned(),
        device_id: binding.device_id.clone(),
        workspace_id: binding.workspace_id.clone(),
        owner_principal: binding.owner_principal.clone(),
        host_nonce: binding.host_nonce.clone(),
        controller_epoch: binding.controller_epoch,
    }
}

/// Why a host is not addressed: the verified device is another one.
pub open spec fn device_refusal(
    session_id: Seq<char>,
    binding: SidecarHostBinding,
    device_id: Option<String>,
) -> Refusal {
    match device_id {
        Some(active) => if binding.device_id@ != active@ {
            Some(
                (
                    ErrorCode::PolicyDenied,
                    "persistent session "@ + session_id + " is bound to device "@
                        + binding.device_id@ + ", not verified device "@ + active@,
                ),
            )
        } else {
            None
        },
        None => None,
    }
}

/// Addresses the host of a session, on the verified device only.
pub fn verified_sidecar_binding_from(
    session_id: &str,
    binding: &SidecarHostBinding,
    device_id: &Option<String>,
) -> (r: Result<SupervisorBinding, IpcError>)
    ensures
        answers(r, device_refusal(session_id@, *binding, *device_id)),
        r matches Ok(exact) ==> is_supervisor_binding(exact, session_id@, *binding),
{
    if let Some(active) = device_id {
        if !same_text(binding.device_id.as_str(), active.as_str()) {
            let mut message = join3("persistent session ", session_id, " is bound to device ");
            message.append(binding.device_id.as_str());
            message.append(", not verified device ");
            message.append(active.as_str());
            return Err(IpcError::with_message(ErrorCode::PolicyDenied, message));
        }
    }
    Ok(supervisor_binding_from(session_id, binding))
}

/// Why a session has no host to address.
pub open spec fn sidecar_refusal(
    session_id: Seq<char>,
    host: Option<SidecarHostBinding>,
    device_id: Option<String>,
) -> Refusal {
    match host {
        None => Some(
            (
                ErrorCode::Conflict,
                "session "@ + session_id + " has no persistent sidecar binding"@,
            ),
        ),
        Some(binding) => device_refusal(session_id, binding, device_id),
    }
}

/// Addresses the host that a session is bound to.
pub fn sidecar_binding(
    session_id: &str,
    host: &Option<SidecarHostBinding>,
    device_id: &Option<String>,
) -> (r: Result<SupervisorBinding, IpcError>)
    ensures
        answers(r, sidecar_refusal(session_id@, *host, *device_id)),
        r matches Ok(exact) ==> host matches Some(binding) && is_supervisor_binding(
            exact,
            session_id@,
            *binding,
        ),
{
    match host {
        None => Err(
            IpcError::with_message(
                ErrorCode::Conflict,
                join3("session ", session_id, " has no persistent sidecar binding"),
            ),
        ),
        Some(binding) => verified_sidecar_binding_from(session_id, binding, device_id),
    }
}

/// A verified device never reaches the host of another one.
pub proof fn law_devices_reach_only_their_hosts(
    session_id: Seq<char>,
    host: Option<SidecarHostBinding>,
    device_id: Option<String>,
)
    requires
        device_id is Some,
        sidecar_refusal(session_id, host, device_id) is None,
    ensures
        host matches Some(binding) && binding.device_id@ == device_id->0@,
{
}

/// Why a principal may not read a session.
pub open spec fn reader_refusal(
    session_id: Seq<char>,
    principal: Seq<char>,
    authorized: Result<(), (SessionFailure, String)>,
) -> Refusal {
    match authorized {
        Ok(_) => None,
        Err((failure, message)) => if failure == SessionFailure::NotReader {
            Some(
                (
                    ErrorCode::PolicyDenied,
                    "principal "@ + principal + " cannot read session "@ + session_id,
                ),
            )
        } else {
            Some((session_code(failure), message@))
        },
    }
}

/// Requires a reader of a session.
pub fn require_reader(
    session_id: &str,
    principal: &str,
    authorized: &Result<(), (SessionFailure, String)>,
) -> (r: Result<(), IpcError>)
    ensures
        answers(r, reader_refusal(session_id@, principal@, *authorized)),
{
    match authorized {
        Ok(()) => Ok(()),
        Err((failure, message)) => {
            if *failure == SessionFailure::NotReader {
                let mut text = join3("principal ", principal, " cannot read session ");
                text.append(session_id);
                Err(IpcError::with_message(ErrorCode::PolicyDenied, text))
            } else {
                Err(session_err(*failure, message.as_str()))
            }
        },
    }
}

/// Why a principal may not control a session.
pub open spec fn controller_refusal(
    session_id: Seq<char>,
    principal: Seq<char>,
    authorized: Result<(), (SessionFailure, String)>,
) -> Refusal {
    match authorized {
        Ok(_) => None,
        Err((failure, message)) => if failure == SessionFailure::NotController {
            Some(
                (
                    ErrorCode::PolicyDenied,
                    "principal "@ + principal + " is not controller of session "@ + session_id,
                ),
            )
        } else {
            Some((session_code(failure), message@))
        },
    }
}

/// Requires the controller of a session.
pub fn require_controller(
    session_id: &str,
    principal: &str,
    authorized: &Result<(), (SessionFailure, String)>,
) -> (r: Result<(), IpcError>)
    ensures
        answers(r, controller_refusal(session_id@, principal@, *authorized)),
{
    match authorized {
        Ok(()) => Ok(()),
        Err((failure, message)) => {
            if *failure == SessionFailure::NotController {
                let mut text = join3("principal ", principal, " is not controller of session ");
                text.append(session_id);
                Err(IpcError::with_message(ErrorCode::PolicyDenied, text))
            } else {
                Err(session_err(*failure, message.as_str()))
            }
        },
    }
}

/// A workspace name, trimmed, the built-in one under its present name.
pub open spec fn workspace_name(s: Seq<char>) -> Seq<char> {
    if trim(s) == "default"@ {
        "ws_default"@
    } else {
        trim(s)
    }
}

/// The workspace that a session is bound to.
pub open spec fn bound_workspace(workspace_id: Option<String>) -> Seq<char> {
    match workspace_id {
        Some(id) => if trim(id@).len() == 0 {
            "ws_default"@
        } else {
            workspace_name(id@)
        },
        None => "ws_default"@,
    }
}

/// Why a workspace does not fit a session.
pub open spec fn session_workspace_refusal(
    session_id: Seq<char>,
    bound: Option<String>,
    wanted: Option<Seq<char>>,
) -> Refusal {
    match wanted {
        Some(raw) => if trim(raw).len() > 0 && workspace_name(raw) != bound_workspace(bound) {
            Some(
                (
                    ErrorCode::PolicyDenied,
                    "session "@ + session_id + " is bound to workspace "@ + bound_workspace(bound)
                        + ", not "@ + workspace_name(raw),
                ),
            )
        } else {
            None
        },
        None => None,
    }
}

/// Names a workspace.
fn named(s: &str) -> (name: String)
    ensures
        name@ == workspace_name(s@),
{
    let t = trimmed(s);
    if same_text(t.as_str(), "default") {
        "ws_default".to_owned()
    } else {
        t
    }
}

/// Holds a request to the workspace that its session is bound to; a request that
/// names none is told which it is.
pub fn require_session_workspace(
    session_id: &str,
    bound: &Option<String>,
    wanted: Option<&str>,
) -> (r: Result<String, IpcError>)
    ensures
        answers(
            r,
            session_workspace_refusal(
                session_id@,
                *bound,
                match wanted {
                    Some(w) => Some(w@),
                    None => None,
                },
            ),
        ),
        r matches Ok(id) ==> id@ == bound_workspace(*bound),
{
    let id = match bound {
        Some(id) => {
            if trimmed(id.as_str()).as_str().is_empty() {
                "ws_default".to_owned()
            } else {
                named(id.as_str())
            }
        },
        None => "ws_default".to_owned(),
    };
    if let Some(raw) = wanted {
        if !trimmed(raw).as_str().is_empty() {
            let want = named(raw);
            if !same_text(want.as_str(), id.as_str()) {
                let mut message = join3("session ", session_id, " is bound to workspace ");
                message.append(id.as_str());
                message.append(", not ");
                message.append(want.as_str());
                return Err(IpcError::with_message(ErrorCode::PolicyDenied, message));
            }
        }
    }
    Ok(id)
}

/// What the operating system says of the birth of a process: nothing of a number
/// that is free.
#[derive(Debug)]
pub enum ProcessObservation {
    Gone,
    Birth(u64),
    Failed(String),
}

/// Whether the process of a binding still lives, or why that cannot be told.
pub open spec fn child_liveness(
    binding: SidecarHostBinding,
    observed: ProcessObservation,
) -> Result<bool, Seq<char>> {
    if binding.child_pid is None {
        Err("persistent sidecar binding lacks a durable child PID"@)
    } else if binding.child_process_birth is None {
        Err("persistent sidecar binding lacks a durable child birth witness"@)
    } else {
        match observed {
            ProcessObservation::Gone => Ok(false),
            ProcessObservation::Birth(birth) => Ok(birth == binding.child_process_birth->0),
            ProcessObservation::Failed(e) => Err(e@),
        }
    }
}

/// Whether the process of a binding still lives: only where number and birth are
/// those of the binding. Another birth means a reused number.
pub fn persistent_child_is_live(
    binding: &SidecarHostBinding,
    observed: &ProcessObservation,
) -> (r: Result<bool, String>)
    ensures
        match child_liveness(*binding, *observed) {
            Ok(live) => r == Ok::<bool, String>(live),
            Err(message) => r matches Err(e) && e@ == message,
        },
{
    if binding.child_pid.is_none() {
        return Err("persistent sidecar binding lacks a durable child PID".to_owned());
    }
    match binding.child_process_birth {
        None => Err("persistent sidecar binding lacks a durable child birth witness".to_owned()),
        Some(expected) => match observed {
            ProcessObservation::Gone => Ok(false),
            ProcessObservation::Birth(birth) => Ok(*birth == expected),
            ProcessObservation::Failed(e) => Err(e.clone()),
        },
    }
}

/// The supervisor's durable word that a host ended.
#[derive(Debug)]
pub struct TerminationReceipt {
    pub session_id: String,
    pub device_id: String,
    pub workspace_id: String,
    pub owner_principal: String,
    pub host_nonce: String,
    pub controller_epoch: u64,
}

/// The receipt is of this very host.
pub open spec fn receipt_fits(
    receipt: TerminationReceipt,
    binding: SidecarHostBinding,
    session_id: Seq<char>,
) -> bool {
    &&& receipt.session_id@ == session_id
    &&& receipt.device_id@ == binding.device_id@
    &&& receipt.workspace_id@ == binding.workspace_id@
    &&& receipt.owner_principal@ == binding.owner_principal@
    &&& receipt.host_nonce@ == binding.host_nonce@
    &&& receipt.controller_epoch == binding.controller_epoch
}

/// Whether a receipt proves that this very host ended.
pub fn persistent_sidecar_has_terminal_receipt(
    receipt: &Option<TerminationReceipt>,
    binding: &SidecarHostBinding,
    session_id: &str,
) -> (b: bool)
    ensures
        b == (receipt matches Some(r) && receipt_fits(*r, *binding, session_id@)),
{
    match receipt {
        None => false,
        Some(receipt) => same_text(receipt.session_id.as_str(), session_id) && same_text(
            receipt.device_id.as_str(),
            binding.device_id.as_str(),
        ) && same_text(receipt.workspace_id.as_str(), binding.workspace_id.as_str()) && same_text(
            receipt.owner_principal.as_str(),
            binding.owner_principal.as_str(),
        ) && same_text(receipt.host_nonce.as_str(), binding.host_nonce.as_str())
            && receipt.controller_epoch == binding.controller_epoch,
    }
}

/// State of a session.
#[derive(Debug, Clone, Copy, PartialEq, Eq, Structural)]
pub enum SessionState {
    Starting,
    Running,
    Detached,
    Closed,
}

/// What recovery reads and changes of a session.
#[derive(Debug)]
pub struct SessionRow {
    pub id: String,
    pub state: SessionState,
    pub workspace_id: Option<String>,
    pub controller_epoch: u64,
    pub sidecar_host: Option<SidecarHostBinding>,
    pub host_pid: Option<u32>,
}

impl SessionRow {
    /// The session, closed and without a host.
    pub open spec fn closed(self) -> SessionRow {
        SessionRow { state: SessionState::Closed, sidecar_host: None, host_pid: None, ..self }
    }

    /// Closes the session and drops its host.
    pub fn close_persistent_session_record(&mut self)
        ensures
            *final(self) == old(self).closed(),
    {
        self.state = SessionState::Closed;
        self.sidecar_host = None;
        self.host_pid = None;
    }
}

/// What can be told of a session's host from outside.
#[derive(Debug)]
pub struct HostEvidence {
    pub observed: ProcessObservation,
    pub receipt: Option<TerminationReceipt>,
}

/// The host of a session is definitely gone: its process is, or, where that
/// cannot be told, the supervisor has said so.
pub open spec fn provably_dead(row: SessionRow, evidence: HostEvidence) -> bool {
    match row.sidecar_host {
        None => false,
        Some(binding) => match child_liveness(binding, evidence.observed) {
            Ok(live) => !live,
            Err(_) => evidence.receipt matches Some(r) && receipt_fits(r, binding, row.id@),
        },
    }
}

/// Whether the host of a session is definitely gone.
fn is_provably_dead(row: &SessionRow, evidence: &HostEvidence) -> (b: bool)
    ensures
        b == provably_dead(*row, *evidence),
{
    match &row.sidecar_host {
        None => false,
        Some(binding) => match persistent_child_is_live(binding, &evidence.observed) {
            Ok(live) => !live,
            Err(_) => persistent_sidecar_has_terminal_receipt(
                &evidence.receipt,
                binding,
                row.id.as_str(),
            ),
        },
    }
}

/// How many of the first sessions have a host that is definitely gone.
pub open spec fn dead_among(rows: Seq<SessionRow>, evidence: Seq<HostEvidence>, n: int) -> int
    decreases n,
{
    if n <= 0 {
        0
    } else {
        dead_among(rows, evidence, n - 1) + (if provably_dead(rows[n - 1], evidence[n - 1]) {
            1int
        } else {
            0int
        })
    }
}

/// Closes the sessions whose host is definitely gone, and no others: a live
/// process, or one that nobody can tell of, keeps its session.
pub fn reconcile_dead_persistent_sessions(
    rows: &mut Vec<SessionRow>,
    evidence: &Vec<HostEvidence>,
) -> (reconciled: usize)
    requires
        old(rows)@.len() == evidence@.len(),
    ensures
        final(rows)@.len() == old(rows)@.len(),
        forall|i: int|
            0 <= i < old(rows)@.len() ==> (#[trigger] final(rows)@[i]) == (if provably_dead(
                old(rows)@[i],
                evidence@[i],
            ) {
                old(rows)@[i].closed()
            } else {
                old(rows)@[i]
            }),
        reconciled == dead_among(old(rows)@, evidence@, old(rows)@.len() as int),
{
    let ghost before = rows@;
    let mut reconciled: usize = 0;
    let mut i: usize = 0;
    while i < rows.len()
        invariant
            i <= rows@.len(),
            rows@.len() == before.len(),
            before.len() == evidence@.len(),
            reconciled <= i,
            reconciled == dead_among(before, evidence@, i as int),
            forall|j: int|
                0 <= j < i ==> (#[trigger] rows@[j]) == (if provably_dead(before[j], evidence@[j]) {
                    before[j].closed()
                } else {
                    before[j]
                }),
            forall|j: int| i <= j < rows@.len() ==> (#[trigger] rows@[j]) == before[j],
        decreases rows.len() - i,
    {
        if is_provably_dead(&rows[i], &evidence[i]) {
            rows[i].close_persistent_session_record();
            reconciled += 1;
        }
        i += 1;
    }
    reconciled
}

/// A session whose process still lives is never closed by recovery.
pub proof fn law_live_children_keep_their_session(row: SessionRow, evidence: HostEvidence)
    requires
        row.sidecar_host is Some,
        row.sidecar_host->0.is_attested(),
        evidence.observed == ProcessObservation::Birth(row.sidecar_host->0.child_process_birth->0),
    ensures
        !provably_dead(row, evidence),
{
}

/// Some controller's lease has run out. An entry tells whether the lease of a
/// session is active; a session without a controller has none.
pub open spec fn some_lease_is_stale(active: Seq<Option<bool>>) -> bool {
    exists|i: int| 0 <= i < active.len() && #[trigger] active[i] == Some(false)
}

/// Whether leases have to be expired before a session is used.
pub fn prepare_session_access(active: &Vec<Option<bool>>) -> (stale: bool)
    ensures
        stale == some_lease_is_stale(active@),
{
    let mut i: usize = 0;
    while i < active.len()
        invariant
            i <= active@.len(),
            forall|j: int| 0 <= j < i ==> #[trigger] active@[j] != Some(false),
        decreases active.len() - i,
    {
        if let Some(is_active) = active[i] {
            if !is_active {
                assert(active@[i as int] == Some(false));
                return true;
            }
        }
        i += 1;
    }
    false
}

/// The supervisor is addressed by the session and by each fact that binds its host:
/// two bindings that differ in one of them are never addressed alike.
pub proof fn law_bindings_address_one_host(
    exact: SupervisorBinding,
    session_id: Seq<char>,
    binding: SidecarHostBinding,
)
    requires
        is_supervisor_binding(exact, session_id, binding),
    ensures
        exact.session_id@ == session_id,
        exact.device_id@ == binding.device_id@,
        exact.workspace_id@ == binding.workspace_id@,
        exact.owner_principal@ == binding.owner_principal@,
        exact.host_nonce@ == binding.host_nonce@,
        exact.controller_epoch == binding.controller_epoch,
{
}

/// A host is reached where the session has one, from its own device, or where no
/// device is verified.
pub proof fn law_hosts_are_reached_from_their_device(
    session_id: Seq<char>,
    host: Option<SidecarHostBinding>,
    device_id: Option<String>,
)
    ensures
        sidecar_refusal(session_id, host, device_id) is None <==> (host matches Some(binding) && (
        device_id matches Some(active) ==> active@ == binding.device_id@)),
        host is None ==> (sidecar_refusal(session_id, host, device_id) matches Some((code, _))
            && code == ErrorCode::Conflict),
        host is Some && sidecar_refusal(session_id, host, device_id) is Some ==> (sidecar_refusal(
            session_id,
            host,
            device_id,
        ) matches Some((code, _)) && code == ErrorCode::PolicyDenied),
{
}

/// Reading and writing need the session's own consent: what it refuses is refused,
/// and a caller that is no reader, or no controller, is denied by policy.
pub proof fn law_sessions_decide_on_access(
    session_id: Seq<char>,
    principal: Seq<char>,
    authorized: Result<(), (SessionFailure, String)>,
)
    ensures
        reader_refusal(session_id, principal, authorized) is None <==> authorized is Ok,
        controller_refusal(session_id, principal, authorized) is None <==> authorized is Ok,
        authorized matches Err((failure, message)) ==> {
            &&& reader_refusal(session_id, principal, authorized) matches Some((code, text)) && (
            failure == SessionFailure::NotReader ==> code == ErrorCode::PolicyDenied) && (failure
                != SessionFailure::NotReader ==> text == message@)
            &&& controller_refusal(session_id, principal, authorized) matches Some((code, text))
                && (failure == SessionFailure::NotController ==> code == ErrorCode::PolicyDenied)
                && (failure != SessionFailure::NotController ==> text == message@)
        },
{
}

/// The code of a session's failure: a fault of the request, a denial, a state that
/// stands against it, or a fault of the daemon.
pub proof fn law_session_failures_have_their_code(failure: SessionFailure)
    ensures
        session_code(failure) == ErrorCode::PolicyDenied <==> failure == SessionFailure::NotReader,
        session_code(failure) == ErrorCode::Internal <==> failure == SessionFailure::Persist,
        session_code(failure) == ErrorCode::Conflict <==> failure == SessionFailure::SessionLimit
            || failure == SessionFailure::ReplayBudget || failure == SessionFailure::LeaseHeld
            || failure == SessionFailure::NotController || failure
            == SessionFailure::ObserverCannotWrite || failure == SessionFailure::Closed,
        session_code(failure) == ErrorCode::PolicyDenied || session_code(failure)
            == ErrorCode::Internal || session_code(failure) == ErrorCode::Conflict || session_code(
            failure,
        ) == ErrorCode::InvalidParams,
{
}

/// A file that changed is a conflict, a worktree outside of the workspace a denial;
/// any other failure is told as it is.
pub proof fn law_file_failures_have_their_code(failure: FsFailure, message: Seq<char>)
    ensures
        failure == FsFailure::HashMismatch ==> fs_refusal(failure, message).0
            == ErrorCode::Conflict,
        failure == FsFailure::GitWorktreeOutsideWorkspace ==> fs_refusal(failure, message).0
            == ErrorCode::PolicyDenied,
        failure == FsFailure::Other ==> fs_refusal(failure, message) == (
            ErrorCode::Internal,
            message,
        ),
{
}

/// A session never moves to another workspace: a request that names one has to name
/// its own, where white space does not count, no name means the built-in one, and
/// the former name of that one is its present name.
pub proof fn law_sessions_stay_in_their_workspace(
    session_id: Seq<char>,
    bound: Option<String>,
    wanted: Option<Seq<char>>,
)
    ensures
        wanted is None ==> session_workspace_refusal(session_id, bound, wanted) is None,
        wanted matches Some(raw) && trim(raw).len() == 0 ==> session_workspace_refusal(
            session_id,
            bound,
            wanted,
        ) is None,
        wanted matches Some(raw) && bound matches Some(id) && trim(raw).len() > 0 && trim(id@).len()
            > 0 && trim(raw) == trim(id@) ==> session_workspace_refusal(session_id, bound, wanted)
            is None,
        wanted matches Some(raw) && bound matches Some(id) && trim(raw).len() > 0 && trim(id@).len()
            > 0 && trim(raw) != trim(id@) && trim(raw) != "default"@ && trim(id@) != "default"@
            ==> (session_workspace_refusal(session_id, bound, wanted) matches Some((code, _))
            && code == ErrorCode::PolicyDenied),
        wanted matches Some(raw) && trim(raw) == "default"@ && bound is None
            ==> session_workspace_refusal(session_id, bound, wanted) is None,
        wanted matches Some(raw) && trim(raw) == "ws_default"@ && bound is None
            ==> session_workspace_refusal(session_id, bound, wanted) is None,
        bound is None ==> bound_workspace(bound) == "ws_default"@,
        bound matches Some(id) ==> (trim(id@).len() > 0 && trim(id@) != "default"@
            ==> bound_workspace(bound) == trim(id@)),
        bound matches Some(id) && trim(id@) == "default"@ ==> bound_workspace(bound)
            == "ws_default"@,
{
    reveal_strlit("default");
    reveal_strlit("ws_default");
    assert("default"@.len() == 7 && "ws_default"@.len() == 10);
}

/// A child lives exactly where the process that has its number was born when the
/// child was; without both facts, or without a look at the process, nothing is told.
pub proof fn law_children_are_told_by_their_birth(
    binding: SidecarHostBinding,
    observed: ProcessObservation,
)
    ensures
        child_liveness(binding, observed) == Ok::<bool, Seq<char>>(true) <==> binding.child_pid
            is Some && (binding.child_process_birth matches Some(born) && observed
            == ProcessObservation::Birth(born)),
        child_liveness(binding, observed) == Ok::<bool, Seq<char>>(false) <==> binding.child_pid
            is Some && (binding.child_process_birth matches Some(born) && (observed
            == ProcessObservation::Gone || (observed matches ProcessObservation::Birth(other)
            && other != born))),
        observed matches ProcessObservation::Failed(e) ==> (binding.child_pid is Some
            && binding.child_process_birth is Some ==> child_liveness(binding, observed) == Err::<
            bool,
            Seq<char>,
        >(e@)),
{
}

/// A session is closed at a restart only on proof: its process is gone or another,
/// or, where that cannot be told, a receipt of the very host says that it ended.
pub proof fn law_sessions_close_on_proof(row: SessionRow, evidence: HostEvidence)
    ensures
        provably_dead(row, evidence) ==> row.sidecar_host is Some,
        row.sidecar_host matches Some(binding) ==> {
            let known = binding.child_pid is Some && binding.child_process_birth is Some
                && !(evidence.observed is Failed);
            let gone = evidence.observed == ProcessObservation::Gone || (
            evidence.observed matches ProcessObservation::Birth(born) && Some(born)
                != binding.child_process_birth);
            let receipt = evidence.receipt matches Some(r) && r.session_id@ == row.id@
                && r.device_id@ == binding.device_id@ && r.workspace_id@ == binding.workspace_id@
                && r.owner_principal@ == binding.owner_principal@ && r.host_nonce@
                == binding.host_nonce@ && r.controller_epoch == binding.controller_epoch;
            provably_dead(row, evidence) <==> if known {
                gone
            } else {
                receipt
            }
        },
{
}

/// A closed session has no host and no process; who it is stays.
pub proof fn law_closed_sessions_have_no_host(row: SessionRow)
    ensures
        row.closed().state == SessionState::Closed,
        row.closed().sidecar_host is None,
        row.closed().host_pid is None,
        row.closed().id == row.id,
        row.closed().workspace_id == row.workspace_id,
        row.closed().controller_epoch == row.controller_epoch,
{
}

/// As many sessions are counted as are closed.
pub proof fn law_closed_sessions_are_counted(
    rows: Seq<SessionRow>,
    evidence: Seq<HostEvidence>,
    n: int,
)
    requires
        0 <= n <= rows.len(),
        rows.len() == evidence.len(),
    ensures
        dead_among(rows, evidence, n) == Set::new(
            |i: int| 0 <= i < n && provably_dead(rows[i], evidence[i]),
        ).len(),
        Set::new(|i: int| 0 <= i < n && provably_dead(rows[i], evidence[i])).finite(),
    decreases n,
{
    let dead = Set::new(|i: int| 0 <= i < n && provably_dead(rows[i], evidence[i]));
    if n == 0 {
        assert(dead =~= Set::empty());
    } else {
        law_closed_sessions_are_counted(rows, evidence, n - 1);
        let before = Set::new(|i: int| 0 <= i < n - 1 && provably_dead(rows[i], evidence[i]));
        if provably_dead(rows[n - 1], evidence[n - 1]) {
            assert(dead =~= before.insert(n - 1));
        } else {
            assert(dead =~= before);
        }
    }
}

/// A lease is stale where the session says of one that it is not active.
pub proof fn law_stale_leases_are_found(active: Seq<Option<bool>>, i: int)
    requires
        0 <= i < active.len(),
        active[i] == Some(false),
    ensures
        some_lease_is_stale(active),
        !some_lease_is_stale(Seq::new(active.len(), |k: int| Some(true))),
        !some_lease_is_stale(Seq::new(active.len(), |k: int| None)),
{
}

} // verus!

//! The daemon's state, and the requests that act on it.
use crate::admin::{confines, policy_from_file, preset_enforces_workspace, PolicyState};
use crate::approvals::{answers, Approvals};
use crate::control_plane::{
    apply_control_plane_approval_decision, decides, ControlPlaneDecision, DecisionPlan,
};
use crate::dispatch::{
    dispatch, dispatch_refusal, is_client_revoked, is_revoked, method_of, named_method,
    open_in_lockdown, open_when_degraded, Method, RemoteBinding,
};
use crate::error::{ErrorCode, IpcError};
use crate::exec::DetachedSlots;
use crate::grants::{StoredGrant, TemporaryGrant};
use crate::journal::{is_op_journal_in_progress, OpJournal, OpJournalEntryState, entry_state};
use crate::json::JsonV;
use crate::lifecycle::{failure, JournalState, PendingWrite};
use crate::params::{preset_of, AccessPreset, PolicyRule};
use crate::principal::journal_key;
use crate::sidecar::{
    provably_dead, reconcile_dead_persistent_sessions, HostEvidence, SessionRow, SessionState,
};
use crate::text::{join, same_text};
use crate::textset::TextSet;
use crate::transfer::DestinationCache;
use crate::transition::TransitionRecoveryHealth;
use crate::workspace::{
    is_registry_of, is_upserted, remote_workspace_registry, upsert_refusal, upsert_workspace,
    RemoteWorkspaceRegistration, WorkspaceEntry,
};
use vstd::prelude::*;
use vstd::string::*;

verus! {

/// Countdowns of injected write faults; 0 means none.
#[derive(Debug, Clone, Copy)]
pub struct FaultCountdowns {
    pub approvals_persist: usize,
    pub sessions_persist: usize,
    pub transfer_journal_persist: usize,
}

/// What the daemon starts from, loaded and checked.
#[derive(Debug)]
pub struct StoredState {
    pub preset_name: Option<String>,
    pub custom_rules: Vec<PolicyRule>,
    pub delegate_remote_mcp: bool,
    pub workspaces: Vec<WorkspaceEntry>,
    /// The journal, or why it could not be loaded.
    pub op_journal: Result<OpJournal, String>,
    pub grants: Vec<StoredGrant>,
    pub approvals: Approvals,
    pub lockdown: bool,
    pub revoked: TextSet,
    pub sessions: Vec<SessionRow>,
    /// What can be told of the host of each session.
    pub evidence: Vec<HostEvidence>,
}

/// The state of the daemon.
#[derive(Debug)]
pub struct DaemonRuntime {
    pub policy: PolicyState,
    pub grants: Vec<StoredGrant>,
    pub approvals: Approvals,
    pub journal: JournalState,
    pub lockdown: bool,
    pub revoked: TextSet,
    pub workspaces: Vec<WorkspaceEntry>,
    pub sessions: Vec<SessionRow>,
    pub transition_recovery_health: TransitionRecoveryHealth,
    pub transition_recovery_running: bool,
    /// What the dispatch under way is bound to.
    pub active: RemoteBinding,
    pub detached: DetachedSlots,
    pub destinations: DestinationCache,
    pub faults: FaultCountdowns,
}

/// The preset that a stored name means.
pub open spec fn stored_preset(name: Option<String>) -> AccessPreset {
    match name {
        Some(n) => match preset_of(n@) {
            Some(p) => p,
            None => AccessPreset::Recommended,
        },
        None => AccessPreset::Recommended,
    }
}

/// The method of a request: from the transport's table, or by its name here.
pub open spec fn resolved_method(known: Option<Method>, name: Seq<char>) -> Option<Method> {
    match known {
        Some(m) => Some(m),
        None => named_method(name),
    }
}

/// Text ends in another.
pub open spec fn has_suffix(s: Seq<char>, suffix: Seq<char>) -> bool {
    s.len() >= suffix.len() && s.skip(s.len() - suffix.len()) == suffix
}

/// Whether a text ends in another.
fn ends_with(s: &str, suffix: &str) -> (b: bool)
    ensures
        b == has_suffix(s@, suffix@),
{
    let n: usize = s.unicode_len();
    let m: usize = suffix.unicode_len();
    if n < m {
        return false;
    }
    let tail = s.substring_char(n - m, n);
    assert(tail@ =~= s@.skip(n - m));
    same_text(tail, suffix)
}

/// What separates principal and key in the journal, followed by a key.
pub open spec fn key_suffix(key: Seq<char>) -> Seq<char> {
    seq!['\u{1f}'] + key
}

/// The journal holds the key, alone or behind some principal.
pub open spec fn holds_key(journal: Map<Seq<char>, JsonV>, key: Seq<char>) -> bool {
    journal.contains_key(key) || exists|k: Seq<char>| #[trigger]
        journal.contains_key(k) && has_suffix(k, key_suffix(key))
}

/// The journal holds a marker of an operation in progress under the key, alone or
/// behind some principal.
pub open spec fn holds_marker(journal: Map<Seq<char>, JsonV>, key: Seq<char>) -> bool {
    (journal.contains_key(key) && entry_state(journal[key]) == OpJournalEntryState::InProgress)
        || exists|k: Seq<char>| #[trigger]
        journal.contains_key(k) && has_suffix(k, key_suffix(key)) && entry_state(journal[k])
            == OpJournalEntryState::InProgress
}

impl DaemonRuntime {
    /// The state that the daemon starts in.
    pub open spec fn starts_from(self, stored: StoredState) -> bool {
        &&& self.policy.preset == stored_preset(stored.preset_name)
        &&& self.policy.custom_rules == stored.custom_rules
        &&& self.policy.delegate_remote_mcp == stored.delegate_remote_mcp
        &&& self.policy.enforce_workspace == confines(self.policy.preset)
        &&& self.grants == stored.grants
        &&& self.approvals == stored.approvals
        &&& match stored.op_journal {
            Ok(journal) => self.journal.journal == journal && self.journal.degraded is None,
            Err(reason) => self.journal.journal@ == Map::<Seq<char>, JsonV>::empty()
                && self.journal.degraded == Some(reason),
        }
        &&& self.journal.persist_fault == 0
        &&& self.journal.write_fault == 0
        &&& self.lockdown == stored.lockdown
        &&& self.revoked == stored.revoked
        &&& self.workspaces == stored.workspaces
        &&& self.sessions@.len() == stored.sessions@.len()
        &&& forall|i: int|
            0 <= i < stored.sessions@.len() ==> (#[trigger] self.sessions@[i]) == (
            if provably_dead(stored.sessions@[i], stored.evidence@[i]) {
                stored.sessions@[i].closed()
            } else {
                stored.sessions@[i]
            })
        &&& self.transition_recovery_health@ == Seq::<Seq<char>>::empty()
        &&& !self.transition_recovery_running
        &&& self.active.is_unbound()
        &&& self.detached.taken() == 0
        &&& self.destinations.items().len() == 0
        &&& self.faults.approvals_persist == 0
        &&& self.faults.sessions_persist == 0
        &&& self.faults.transfer_journal_persist == 0
    }

    /// Starts the daemon from its stored state. A journal that could not be loaded
    /// is remembered as degraded and never taken for an empty one; sessions whose
    /// host is definitely gone are closed.
    pub fn open(stored: StoredState) -> (runtime: DaemonRuntime)
        requires
            stored.sessions@.len() == stored.evidence@.len(),
        ensures
            runtime.starts_from(stored),
    {
        let preset = match &stored.preset_name {
            Some(name) => policy_from_file(Some(name.as_str())),
            None => policy_from_file(None),
        };
        let journal = match stored.op_journal {
            Ok(journal) => JournalState::new(journal, None),
            Err(reason) => JournalState::new(OpJournal::new(), Some(reason)),
        };
        let mut sessions = stored.sessions;
        let _ = reconcile_dead_persistent_sessions(&mut sessions, &stored.evidence);
        DaemonRuntime {
            policy: PolicyState {
                preset,
                custom_rules: stored.custom_rules,
                delegate_remote_mcp: stored.delegate_remote_mcp,
                enforce_workspace: preset_enforces_workspace(preset),
            },
            grants: stored.grants,
            approvals: stored.approvals,
            journal,
            lockdown: stored.lockdown,
            revoked: stored.revoked,
            workspaces: stored.workspaces,
            sessions,
            transition_recovery_health: TransitionRecoveryHealth::new(),
            transition_recovery_running: false,
            active: RemoteBinding::none(),
            detached: DetachedSlots::new(),
            destinations: DestinationCache::new(),
            faults: FaultCountdowns {
                approvals_persist: 0,
                sessions_persist: 0,
                transfer_journal_persist: 0,
            },
        }
    }

    /// The revoked principals.
    pub fn revoked_clients_handle(&self) -> (revoked: &TextSet)
        ensures
            *revoked == self.revoked,
    {
        &self.revoked
    }

    /// What leaves the device of its workspaces: whether they confine operations,
    /// and their names with generations; never a root.
    pub fn remote_workspace_registry(&self) -> (registry: (bool, Vec<RemoteWorkspaceRegistration>))
        ensures
            registry.0 == self.policy.enforce_workspace,
            is_registry_of(registry.1@, self.workspaces@),
    {
        (self.policy.enforce_workspace, remote_workspace_registry(&self.workspaces))
    }

    /// Registers a workspace, or changes it. `absolute` says whether its root is
    /// an absolute path.
    pub fn upsert_workspace(&mut self, entry: WorkspaceEntry, absolute: bool) -> (r: Result<
        WorkspaceEntry,
        IpcError,
    >)
        ensures
            answers(r, upsert_refusal(old(self).workspaces@, entry.id@, absolute)),
            match r {
                Err(_) => final(self).workspaces@ == old(self).workspaces@,
                Ok(stored) => is_upserted(
                    old(self).workspaces@,
                    final(self).workspaces@,
                    entry,
                    stored,
                ),
            },
            *final(self) == (DaemonRuntime { workspaces: final(self).workspaces, ..*old(self) }),
    {
        upsert_workspace(&mut self.workspaces, entry, absolute)
    }

    /// Plans the end of an operation in progress with its failure: the caller's
    /// own marker becomes a failed receipt. `principal` is canonical.
    pub fn reconcile_failed_idempotent(
        &mut self,
        idempotency_key: &str,
        principal: &str,
        operation_id: &str,
        error_code: i64,
        error_message: &str,
        now: i64,
    ) -> (r: Option<PendingWrite>)
        ensures
            *final(self) == (DaemonRuntime { journal: final(self).journal, ..*old(self) }),
            old(self).journal.reconciles(
                final(self).journal,
                r,
                journal_key(principal@, idempotency_key@),
                operation_id@,
                failure(operation_id@, error_code as int, error_message@),
                now as int,
            ),
    {
        self.journal.reconcile_failed_idempotent(
            idempotency_key,
            principal,
            operation_id,
            error_code,
            error_message,
            now,
        )
    }

    /// Takes a request up: the method whose handler runs, or the refusal. `known` is
    /// the method where the transport's own table has the name; `name_key` is the
    /// canonical form of the client's name.
    pub fn dispatch(
        &self,
        known: Option<Method>,
        method: &str,
        client_name: &str,
        name_key: &str,
    ) -> (r: Result<Method, IpcError>)
        ensures
            self.takes_up(r, known, method@, client_name@, name_key@),
    {
        let revoked = is_client_revoked(name_key, Some(self.revoked.as_vec()));
        let resolved = match known {
            Some(m) => Some(m),
            None => method_of(method),
        };
        dispatch(
            revoked,
            client_name,
            self.lockdown,
            &self.journal.degraded,
            resolved,
            method,
        )
    }

    /// The answer to a request: the method whose handler runs, or the refusal.
    pub open spec fn takes_up(
        self,
        r: Result<Method, IpcError>,
        known: Option<Method>,
        method: Seq<char>,
        client_name: Seq<char>,
        name_key: Seq<char>,
    ) -> bool {
        match self.refusal_of(resolved_method(known, method), method, client_name, name_key) {
            Some((code, message)) => r matches Err(e) && e.is(code, message),
            None => r matches Ok(m) && resolved_method(known, method) == Some(m),
        }
    }

    /// Why a request is not taken up.
    pub open spec fn refusal_of(
        self,
        resolved: Option<Method>,
        method: Seq<char>,
        client_name: Seq<char>,
        name_key: Seq<char>,
    ) -> crate::approvals::Refusal {
        dispatch_refusal(
            is_revoked(name_key, Some(self.revoked.items())),
            client_name,
            self.lockdown,
            self.journal.degraded,
            resolved,
            method,
        )
    }

    /// Everything but the binding of the dispatch under way is the same.
    pub open spec fn differs_only_in_binding(self, before: DaemonRuntime) -> bool {
        self == (DaemonRuntime { active: self.active, ..before })
    }

    /// Takes a remote request up, bound to the exact action that the transport
    /// verified. `name_key` is the canonical form of the client's name, `principal`
    /// that of its principal key. [`DaemonRuntime::finish_dispatch`] follows the
    /// handler.
    pub fn dispatch_cancellable_bound_with_generation(
        &mut self,
        known: Option<Method>,
        method: &str,
        client_name: &str,
        name_key: &str,
        principal: &str,
        operation_id: Option<String>,
        expires_at_unix: Option<i64>,
        payload_hash: Option<String>,
        device_id: Option<String>,
        generation: Option<u64>,
    ) -> (r: Result<Method, IpcError>)
        ensures
            final(self).active.is_of(
                operation_id,
                expires_at_unix,
                payload_hash,
                device_id,
                principal@,
                generation,
            ),
            final(self).differs_only_in_binding(*old(self)),
            old(self).takes_up(r, known, method@, client_name@, name_key@),
    {
        self.active = RemoteBinding::bind(
            operation_id,
            expires_at_unix,
            payload_hash,
            device_id,
            principal,
            generation,
        );
        self.dispatch(known, method, client_name, name_key)
    }

    /// As [`DaemonRuntime::dispatch_cancellable_bound_with_generation`], without a
    /// credential generation.
    pub fn dispatch_cancellable_bound(
        &mut self,
        known: Option<Method>,
        method: &str,
        client_name: &str,
        name_key: &str,
        principal: &str,
        operation_id: Option<String>,
        expires_at_unix: Option<i64>,
        payload_hash: Option<String>,
        device_id: Option<String>,
    ) -> (r: Result<Method, IpcError>)
        ensures
            final(self).active.is_of(
                operation_id,
                expires_at_unix,
                payload_hash,
                device_id,
                principal@,
                None,
            ),
            final(self).differs_only_in_binding(*old(self)),
            old(self).takes_up(r, known, method@, client_name@, name_key@),
    {
        self.dispatch_cancellable_bound_with_generation(
            known,
            method,
            client_name,
            name_key,
            principal,
            operation_id,
            expires_at_unix,
            payload_hash,
            device_id,
            None,
        )
    }

    /// As [`DaemonRuntime::dispatch_cancellable_bound`], bound to an operation
    /// alone.
    pub fn dispatch_cancellable(
        &mut self,
        known: Option<Method>,
        method: &str,
        client_name: &str,
        name_key: &str,
        principal: &str,
        operation_id: Option<String>,
    ) -> (r: Result<Method, IpcError>)
        ensures
            final(self).active.is_of(operation_id, None, None, None, principal@, None),
            final(self).differs_only_in_binding(*old(self)),
            old(self).takes_up(r, known, method@, client_name@, name_key@),
    {
        self.dispatch_cancellable_bound(
            known,
            method,
            client_name,
            name_key,
            principal,
            operation_id,
            None,
            None,
            None,
        )
    }

    /// Ends a dispatch: nothing stays bound, however it went.
    pub fn finish_dispatch(&mut self)
        ensures
            final(self).active.is_unbound(),
            final(self).differs_only_in_binding(*old(self)),
    {
        self.active = RemoteBinding::none();
    }

    /// Plans what a recovery decision of the control plane leads to.
    pub fn apply_control_plane_approval_decision(
        &self,
        params: &ControlPlaneDecision,
        now: i64,
    ) -> (r: Result<DecisionPlan, IpcError>)
        ensures
            decides(r, self.approvals@, *params, now as int),
    {
        apply_control_plane_approval_decision(&self.approvals, params, now)
    }

    /// Puts a policy into force without writing it.
    pub fn set_policy_for_test(&mut self, preset: AccessPreset)
        ensures
            final(self).policy == (PolicyState {
                preset,
                enforce_workspace: confines(preset),
                ..old(self).policy
            }),
            *final(self) == (DaemonRuntime { policy: final(self).policy, ..*old(self) }),
    {
        self.policy.preset = preset;
        self.policy.enforce_workspace = preset_enforces_workspace(preset);
    }

    /// Whether workspaces confine operations.
    pub fn enforces_workspace_for_test(&self) -> (b: bool)
        ensures
            b == self.policy.enforce_workspace,
    {
        self.policy.enforce_workspace
    }

    /// Whether the device is in lockdown.
    pub fn is_lockdown(&self) -> (b: bool)
        ensures
            b == self.lockdown,
    {
        self.lockdown
    }

    /// The grants in force.
    pub fn grants_for_test(&self) -> (grants: &Vec<StoredGrant>)
        ensures
            *grants == self.grants,
    {
        &self.grants
    }

    /// Adds a temporary grant without writing it.
    pub fn inject_grant_for_test(&mut self, grant: TemporaryGrant)
        ensures
            final(self).grants@ == old(self).grants@.push(StoredGrant::Temporary(grant)),
            *final(self) == (DaemonRuntime { grants: final(self).grants, ..*old(self) }),
    {
        self.grants.push(StoredGrant::Temporary(grant));
    }

    /// Adds a grant without writing it.
    pub fn inject_stored_grant_for_test(&mut self, grant: StoredGrant)
        ensures
            final(self).grants@ == old(self).grants@.push(grant),
            *final(self) == (DaemonRuntime { grants: final(self).grants, ..*old(self) }),
    {
        self.grants.push(grant);
    }

    /// Whether the journal holds a key, as the caller gave it or behind a
    /// principal.
    pub fn has_op_journal_key_for_test(&self, key: &str) -> (b: bool)
        ensures
            b == holds_key(self.journal.journal@, key@),
    {
        proof {
            reveal_strlit("\u{1f}");
            assert("\u{1f}"@ =~= seq!['\u{1f}']);
        }
        if self.journal.journal.contains_key(key) {
            return true;
        }
        let suffix = join("\u{1f}", key);
        let keys = self.journal.journal.to_object().keys();
        let ghost journal = self.journal.journal@;
        let mut i: usize = 0;
        while i < keys.len()
            invariant
                i <= keys@.len(),
                suffix@ == key_suffix(key@),
                journal == self.journal.journal@,
                forall|j: int| 0 <= j < keys@.len() ==> journal.contains_key(#[trigger] keys@[j]@),
                forall|j: int| 0 <= j < i ==> !has_suffix(#[trigger] keys@[j]@, suffix@),
            decreases keys.len() - i,
        {
            if ends_with(keys[i].as_str(), suffix.as_str()) {
                assert(journal.contains_key(keys@[i as int]@));
                return true;
            }
            i += 1;
        }
        false
    }

    /// Whether the journal holds a marker of an operation in progress under a key,
    /// as the caller gave it or behind a principal.
    pub fn op_journal_key_is_in_progress_for_test(&self, key: &str) -> (b: bool)
        ensures
            b == holds_marker(self.journal.journal@, key@),
    {
        proof {
            reveal_strlit("\u{1f}");
            assert("\u{1f}"@ =~= seq!['\u{1f}']);
        }
        if let Some(entry) = self.journal.journal.get(key) {
            if is_op_journal_in_progress(entry) {
                return true;
            }
        }
        let suffix = join("\u{1f}", key);
        let keys = self.journal.journal.to_object().keys();
        let ghost journal = self.journal.journal@;
        let mut i: usize = 0;
        while i < keys.len()
            invariant
                i <= keys@.len(),
                suffix@ == key_suffix(key@),
                journal == self.journal.journal@,
                forall|j: int| 0 <= j < keys@.len() ==> journal.contains_key(#[trigger] keys@[j]@),
                forall|j: int|
                    0 <= j < i ==> !(has_suffix(#[trigger] keys@[j]@, suffix@) && entry_state(
                        journal[keys@[j]@],
                    ) == OpJournalEntryState::InProgress),
            decreases keys.len() - i,
        {
            if ends_with(keys[i].as_str(), suffix.as_str()) {
                if let Some(entry) = self.journal.journal.get(keys[i].as_str()) {
                    if is_op_journal_in_progress(entry) {
                        assert(journal.contains_key(keys@[i as int]@));
                        return true;
                    }
                }
            }
            i += 1;
        }
        false
    }

    /// Lets the nth write of the journal from now fail before its bytes are made.
    pub fn fail_op_journal_persist_on_nth_call_for_test(&mut self, nth: usize)
        requires
            nth > 0,
        ensures
            final(self).journal == (JournalState { persist_fault: nth, ..old(self).journal }),
            *final(self) == (DaemonRuntime { journal: final(self).journal, ..*old(self) }),
    {
        self.journal.persist_fault = nth;
    }

    /// Lets the nth write of the journal from now fail at the file.
    pub fn fail_op_journal_write_on_nth_call_for_test(&mut self, nth: usize)
        requires
            nth > 0,
        ensures
            final(self).journal == (JournalState { write_fault: nth, ..old(self).journal }),
            *final(self) == (DaemonRuntime { journal: final(self).journal, ..*old(self) }),
    {
        self.journal.write_fault = nth;
    }

    /// Lets the nth write of the approvals from now fail.
    pub fn fail_approvals_persist_on_nth_call_for_test(&mut self, nth: usize)
        requires
            nth > 0,
        ensures
            final(self).faults == (FaultCountdowns { approvals_persist: nth, ..old(self).faults }),
            *final(self) == (DaemonRuntime { faults: final(self).faults, ..*old(self) }),
    {
        self.faults.approvals_persist = nth;
    }

    /// Lets the nth write of the sessions from now fail; 0 takes that back.
    pub fn fail_sessions_persist_on_nth_call_for_test(&mut self, nth: usize)
        ensures
            final(self).faults == (FaultCountdowns { sessions_persist: nth, ..old(self).faults }),
            *final(self) == (DaemonRuntime { faults: final(self).faults, ..*old(self) }),
    {
        self.faults.sessions_persist = nth;
    }

    /// Lets the nth write of a transfer journal from now fail; 0 takes that back.
    pub fn fail_transfer_journal_persist_on_nth_call_for_test(&mut self, nth: usize)
        ensures
            final(self).faults == (FaultCountdowns {
                transfer_journal_persist: nth,
                ..old(self).faults
            }),
            *final(self) == (DaemonRuntime { faults: final(self).faults, ..*old(self) }),
    {
        self.faults.transfer_journal_persist = nth;
    }

    /// How many sessions there are.
    pub fn session_count_for_test(&self) -> (n: usize)
        ensures
            n == self.sessions@.len(),
    {
        self.sessions.len()
    }
}

/// The daemon starts from what it stored: its rules, grants, approvals, workspaces,
/// revocations and lockdown as they were, confined where its preset confines. A journal
/// that could not be loaded degrades it, and is empty. Sessions are kept but for those
/// whose host is provably dead, which are closed. Nothing is bound or running yet.
pub proof fn law_the_daemon_starts_from_what_it_stored(runtime: DaemonRuntime, stored: StoredState)
    requires
        runtime.starts_from(stored),
    ensures
        runtime.policy.custom_rules == stored.custom_rules,
        runtime.policy.delegate_remote_mcp == stored.delegate_remote_mcp,
        runtime.grants == stored.grants,
        runtime.approvals == stored.approvals,
        runtime.workspaces == stored.workspaces,
        runtime.revoked == stored.revoked,
        runtime.lockdown == stored.lockdown,
        stored.preset_name is None ==> runtime.policy.preset is Recommended,
        stored.preset_name matches Some(name) ==> (match preset_of(name@) {
            Some(p) => runtime.policy.preset == p,
            None => runtime.policy.preset is Recommended,
        }),
        runtime.policy.enforce_workspace <==> runtime.policy.preset is WorkspaceOnly
            || runtime.policy.preset is Recommended,
        stored.op_journal matches Ok(journal) ==> runtime.journal.journal == journal
            && runtime.journal.degraded is None,
        stored.op_journal matches Err(reason) ==> runtime.journal.degraded == Some(reason)
            && runtime.journal.journal@.dom().len() == 0,
        runtime.sessions@.len() == stored.sessions@.len(),
        forall|i: int|
            0 <= i < stored.sessions@.len() && !provably_dead(
                stored.sessions@[i],
                stored.evidence@[i],
            ) ==> #[trigger] runtime.sessions@[i] == stored.sessions@[i],
        forall|i: int|
            0 <= i < stored.sessions@.len() && provably_dead(
                stored.sessions@[i],
                stored.evidence@[i],
            ) ==> (#[trigger] runtime.sessions@[i]).state == SessionState::Closed
                && runtime.sessions@[i].sidecar_host is None && runtime.sessions@[i].host_pid is None,
        runtime.active.principal is None && runtime.active.operation_id is None,
        runtime.detached.taken() == 0,
{
}

/// A request is taken up under the method that is known, or else under the one that its
/// name means; a revoked client is refused, and lockdown and a degraded journal close
/// what they close.
pub proof fn law_requests_are_taken_up_as_resolved(
    runtime: DaemonRuntime,
    r: Result<Method, IpcError>,
    known: Option<Method>,
    method: Seq<char>,
    client_name: Seq<char>,
    name_key: Seq<char>,
)
    requires
        runtime.takes_up(r, known, method, client_name, name_key),
    ensures
        r matches Ok(m) ==> {
            &&& (known is Some ==> known == Some(m))
            &&& (known is None ==> named_method(method) == Some(m))
            &&& name_key.len() > 0
            &&& !runtime.revoked.has(name_key)
            &&& (runtime.lockdown ==> open_in_lockdown(m))
            &&& (runtime.journal.degraded is Some ==> open_when_degraded(m))
        },
        runtime.revoked.has(name_key) ==> (r matches Err(e) && e.code == ErrorCode::TokenRevoked),
{
}

/// A journal holds a key that it stores as it is, or behind a principal and the
/// separator; it holds the marker of one that has not ended.
pub proof fn law_keys_are_held_behind_their_principal(
    journal: Map<Seq<char>, JsonV>,
    front: Seq<char>,
    key: Seq<char>,
)
    ensures
        journal.contains_key(key) ==> holds_key(journal, key),
        journal.contains_key(front.push('\u{1f}') + key) ==> holds_key(journal, key),
        holds_marker(journal, key) ==> holds_key(journal, key),
        journal.contains_key(front.push('\u{1f}') + key) && entry_state(
            journal[front.push('\u{1f}') + key],
        ) is InProgress ==> holds_marker(journal, key),
{
    let whole = front.push('\u{1f}') + key;
    assert(whole.skip(whole.len() - key_suffix(key).len()) =~= key_suffix(key));
    assert(has_suffix(whole, key_suffix(key)));
}

} // verus!

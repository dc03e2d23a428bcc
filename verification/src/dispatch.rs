//! Which requests are taken up, and on whose behalf.
use crate::error::{ErrorCode, IpcError};
use crate::lifecycle::{degraded_message, journal_degraded_error};
use crate::text::{filled, filled_text, join, join3, listed, lists, same_text, trim};
use vstd::prelude::*;

verus! {

/// The methods that the daemon knows.
#[derive(Debug, Clone, Copy, PartialEq, Eq, Structural)]
pub enum Method {
    OpsExec,
    OpsFsList,
    OpsFsStat,
    OpsFsRead,
    OpsFsWrite,
    OpsFsDelete,
    OpsLogsQuery,
    TransferPlan,
    TransferPreflightSource,
    TransferPreflightDestination,
    TransferStart,
    TransferSourceOpen,
    TransferSourceChunk,
    TransferDestinationPrepare,
    TransferDestinationChunk,
    TransferFinalize,
    TransferStatus,
    TransferList,
    TransferCancel,
    TransferArtifactGet,
    LogsListProviders,
    GitStatus,
    GitDiff,
    ReviewStart,
    ReviewShow,
    ReviewPage,
    WorkspaceList,
    WorkspaceShow,
    WorkspaceAdd,
    WorkspaceUpdate,
    WorkspaceRemove,
    SystemDiagnose,
    ProfileList,
    ProfileScan,
    ProfileShow,
    ApprovalList,
    ApprovalShow,
    ApprovalApprove,
    ApprovalDeny,
    PolicyShow,
    PolicyPreset,
    PolicyValidate,
    PolicyExplain,
    GrantsList,
    GrantsShow,
    GrantsRevoke,
    DaemonLockdown,
    DaemonUnlock,
    TokenRevoke,
    AdminPolicyPresetRequest,
    AdminPolicyRuleAddRequest,
    AdminPolicyRuleRemoveRequest,
    AdminDaemonUnlockRequest,
    AdminTokenRevokeRequest,
    AdminApprovalBridgeRequest,
    AdminGrantsMintRequest,
    SessionOpen,
    SessionList,
    SessionShow,
    SessionAttach,
    SessionClaim,
    SessionRenew,
    SessionDetach,
    SessionRelease,
    SessionGive,
    SessionClose,
    SessionTerminate,
    SessionReplay,
    SessionPushOutput,
    SessionWrite,
    SessionResize,
    Status,
    Ping,
}

/// Methods that local recovery needs, and that stay available in lockdown.
pub open spec fn open_in_lockdown(method: Method) -> bool {
    ||| method == Method::DaemonUnlock
    ||| method == Method::AdminDaemonUnlockRequest
    ||| method == Method::DaemonLockdown
    ||| method == Method::ApprovalList
    ||| method == Method::ApprovalShow
    ||| method == Method::ApprovalApprove
    ||| method == Method::ApprovalDeny
    ||| method == Method::PolicyShow
    ||| method == Method::PolicyValidate
    ||| method == Method::Status
    ||| method == Method::Ping
    ||| method == Method::GrantsList
    ||| method == Method::GrantsShow
    ||| method == Method::SystemDiagnose
}

/// Methods that cause no side effect for the journal to guard, and the way out.
pub open spec fn open_when_degraded(method: Method) -> bool {
    ||| method == Method::DaemonUnlock
    ||| method == Method::AdminDaemonUnlockRequest
    ||| method == Method::ApprovalList
    ||| method == Method::ApprovalShow
    ||| method == Method::PolicyShow
    ||| method == Method::PolicyValidate
    ||| method == Method::PolicyExplain
    ||| method == Method::Status
    ||| method == Method::Ping
    ||| method == Method::OpsFsList
    ||| method == Method::OpsFsStat
    ||| method == Method::OpsFsRead
    ||| method == Method::OpsLogsQuery
    ||| method == Method::ProfileList
    ||| method == Method::ProfileScan
    ||| method == Method::ProfileShow
    ||| method == Method::TransferStatus
    ||| method == Method::TransferList
    ||| method == Method::GrantsList
    ||| method == Method::GrantsShow
    ||| method == Method::GrantsRevoke
    ||| method == Method::SystemDiagnose
    ||| method == Method::GitStatus
    ||| method == Method::GitDiff
    ||| method == Method::WorkspaceList
    ||| method == Method::WorkspaceShow
    ||| method == Method::LogsListProviders
    ||| method == Method::ReviewShow
    ||| method == Method::ReviewPage
    ||| method == Method::SessionList
    ||| method == Method::SessionShow
}

/// Whether a method stays available in lockdown.
pub fn allowed_in_lockdown(method: Method) -> (b: bool)
    ensures
        b == open_in_lockdown(method),
{
    matches!(
        method,
        Method::DaemonUnlock | Method::AdminDaemonUnlockRequest | Method::DaemonLockdown | Method::ApprovalList | Method::ApprovalShow | Method::ApprovalApprove | Method::ApprovalDeny | Method::PolicyShow | Method::PolicyValidate | Method::Status | Method::Ping | Method::GrantsList | Method::GrantsShow | Method::SystemDiagnose
    )
}

/// Whether a method stays available while the journal is degraded.
pub fn allowed_when_degraded(method: Method) -> (b: bool)
    ensures
        b == open_when_degraded(method),
{
    matches!(
        method,
        Method::DaemonUnlock | Method::AdminDaemonUnlockRequest | Method::ApprovalList | Method::ApprovalShow | Method::PolicyShow | Method::PolicyValidate | Method::PolicyExplain | Method::Status | Method::Ping | Method::OpsFsList | Method::OpsFsStat | Method::OpsFsRead | Method::OpsLogsQuery | Method::ProfileList | Method::ProfileScan | Method::ProfileShow | Method::TransferStatus | Method::TransferList | Method::GrantsList | Method::GrantsShow | Method::GrantsRevoke | Method::SystemDiagnose | Method::GitStatus | Method::GitDiff | Method::WorkspaceList | Method::WorkspaceShow | Method::LogsListProviders | Method::ReviewShow | Method::ReviewPage | Method::SessionList | Method::SessionShow
    )
}

/// Method that a session or operation name stands for.
pub open spec fn named_method(name: Seq<char>) -> Option<Method> {
    if name == "session.open"@ {
        Some(Method::SessionOpen)
    } else if name == "session.list"@ {
        Some(Method::SessionList)
    } else if name == "session.show"@ {
        Some(Method::SessionShow)
    } else if name == "session.attach"@ {
        Some(Method::SessionAttach)
    } else if name == "session.claim"@ {
        Some(Method::SessionClaim)
    } else if name == "session.renew"@ {
        Some(Method::SessionRenew)
    } else if name == "session.detach"@ {
        Some(Method::SessionDetach)
    } else if name == "session.release"@ {
        Some(Method::SessionRelease)
    } else if name == "session.give"@ {
        Some(Method::SessionGive)
    } else if name == "session.close"@ {
        Some(Method::SessionClose)
    } else if name == "session.terminate"@ {
        Some(Method::SessionTerminate)
    } else if name == "session.replay"@ {
        Some(Method::SessionReplay)
    } else if name == "session.push_output"@ {
        Some(Method::SessionPushOutput)
    } else if name == "session.write"@ {
        Some(Method::SessionWrite)
    } else if name == "session.resize"@ {
        Some(Method::SessionResize)
    } else if name == "ops.git.status"@ {
        Some(Method::GitStatus)
    } else if name == "ops.git.diff"@ {
        Some(Method::GitDiff)
    } else if name == "ops.review.start"@ {
        Some(Method::ReviewStart)
    } else if name == "ops.review.show"@ {
        Some(Method::ReviewShow)
    } else if name == "ops.review.page"@ {
        Some(Method::ReviewPage)
    } else if name == "ops.logs.list_providers"@ {
        Some(Method::LogsListProviders)
    } else if name == "ops.workspace.list"@ {
        Some(Method::WorkspaceList)
    } else if name == "ops.workspace.show"@ {
        Some(Method::WorkspaceShow)
    } else if name == "ops.workspace.add"@ {
        Some(Method::WorkspaceAdd)
    } else if name == "ops.workspace.update"@ {
        Some(Method::WorkspaceUpdate)
    } else if name == "ops.workspace.remove"@ {
        Some(Method::WorkspaceRemove)
    } else if name == "ops.system.diagnose"@ {
        Some(Method::SystemDiagnose)
    } else {
        None
    }
}

/// Reads a session or operation name.
pub fn method_of(name: &str) -> (method: Option<Method>)
    ensures
        method == named_method(name@),
{
    if same_text(name, "session.open") {
        Some(Method::SessionOpen)
    } else if same_text(name, "session.list") {
        Some(Method::SessionList)
    } else if same_text(name, "session.show") {
        Some(Method::SessionShow)
    } else if same_text(name, "session.attach") {
        Some(Method::SessionAttach)
    } else if same_text(name, "session.claim") {
        Some(Method::SessionClaim)
    } else if same_text(name, "session.renew") {
        Some(Method::SessionRenew)
    } else if same_text(name, "session.detach") {
        Some(Method::SessionDetach)
    } else if same_text(name, "session.release") {
        Some(Method::SessionRelease)
    } else if same_text(name, "session.give") {
        Some(Method::SessionGive)
    } else if same_text(name, "session.close") {
        Some(Method::SessionClose)
    } else if same_text(name, "session.terminate") {
        Some(Method::SessionTerminate)
    } else if same_text(name, "session.replay") {
        Some(Method::SessionReplay)
    } else if same_text(name, "session.push_output") {
        Some(Method::SessionPushOutput)
    } else if same_text(name, "session.write") {
        Some(Method::SessionWrite)
    } else if same_text(name, "session.resize") {
        Some(Method::SessionResize)
    } else if same_text(name, "ops.git.status") {
        Some(Method::GitStatus)
    } else if same_text(name, "ops.git.diff") {
        Some(Method::GitDiff)
    } else if same_text(name, "ops.review.start") {
        Some(Method::ReviewStart)
    } else if same_text(name, "ops.review.show") {
        Some(Method::ReviewShow)
    } else if same_text(name, "ops.review.page") {
        Some(Method::ReviewPage)
    } else if same_text(name, "ops.logs.list_providers") {
        Some(Method::LogsListProviders)
    } else if same_text(name, "ops.workspace.list") {
        Some(Method::WorkspaceList)
    } else if same_text(name, "ops.workspace.show") {
        Some(Method::WorkspaceShow)
    } else if same_text(name, "ops.workspace.add") {
        Some(Method::WorkspaceAdd)
    } else if same_text(name, "ops.workspace.update") {
        Some(Method::WorkspaceUpdate)
    } else if same_text(name, "ops.workspace.remove") {
        Some(Method::WorkspaceRemove)
    } else if same_text(name, "ops.system.diagnose") {
        Some(Method::SystemDiagnose)
    } else {
        None
    }
}

/// Lockdown lets a method through or not.
pub open spec fn is_lockdown_check(
    r: Result<(), IpcError>,
    lockdown: bool,
    method: Option<Method>,
) -> bool {
    match r {
        Ok(()) => !lockdown || (method matches Some(m) && open_in_lockdown(m)),
        Err(e) => lockdown && !(method matches Some(m) && open_in_lockdown(m)) && e.is(
            ErrorCode::Lockdown,
            "emergency lockdown active; run `ownmesh unlock` locally"@,
        ),
    }
}

/// Refuses what lockdown closes.
pub fn check_lockdown(lockdown: bool, method: Option<Method>) -> (r: Result<(), IpcError>)
    ensures
        is_lockdown_check(r, lockdown, method),
{
    let open = match method {
        Some(m) => allowed_in_lockdown(m),
        None => false,
    };
    if lockdown && !open {
        return Err(
            IpcError::new(
                ErrorCode::Lockdown,
                "emergency lockdown active; run `ownmesh unlock` locally",
            ),
        );
    }
    Ok(())
}

/// A degraded journal lets a method through or not.
pub open spec fn is_degraded_check(
    r: Result<(), IpcError>,
    degraded: Option<String>,
    method: Option<Method>,
) -> bool {
    match r {
        Ok(()) => degraded is None || (method matches Some(m) && open_when_degraded(m)),
        Err(e) => !(method matches Some(m) && open_when_degraded(m)) && (
        degraded matches Some(reason) && e.is(ErrorCode::Conflict, degraded_message(reason@))),
    }
}

/// Refuses what a degraded journal cannot guard.
pub fn check_journal_degraded(degraded: &Option<String>, method: Option<Method>) -> (r: Result<
    (),
    IpcError,
>)
    ensures
        is_degraded_check(r, *degraded, method),
{
    let open = match method {
        Some(m) => allowed_when_degraded(m),
        None => false,
    };
    match degraded {
        Some(reason) => {
            if open {
                Ok(())
            } else {
                Err(journal_degraded_error(reason.as_str()))
            }
        },
        None => Ok(()),
    }
}

/// The caller may not act: it has no identity, it is revoked, or the list of
/// revoked principals cannot be read.
pub open spec fn is_revoked(principal: Seq<char>, revoked: Option<Seq<String>>) -> bool {
    ||| principal.len() == 0
    ||| match revoked {
        Some(list) => lists(list, principal),
        None => true,
    }
}

/// Whether a caller may not act. `revoked` is absent when the list cannot be
/// read; principals are canonical.
pub fn is_client_revoked(principal: &str, revoked: Option<&Vec<String>>) -> (b: bool)
    ensures
        b == is_revoked(
            principal@,
            match revoked {
                Some(list) => Some(list@),
                None => None,
            },
        ),
{
    if principal.is_empty() {
        return true;
    }
    match revoked {
        Some(list) => listed(list, principal),
        None => true,
    }
}

/// Why a request is not taken up: a revoked caller, then lockdown, then a
/// degraded journal, then an unknown method.
pub open spec fn dispatch_refusal(
    revoked: bool,
    client_name: Seq<char>,
    lockdown: bool,
    degraded: Option<String>,
    method: Option<Method>,
    name: Seq<char>,
) -> Option<(ErrorCode, Seq<char>)> {
    if revoked {
        Some((ErrorCode::TokenRevoked, "principal "@ + client_name + " is revoked"@))
    } else if lockdown && !(method matches Some(m) && open_in_lockdown(m)) {
        Some((ErrorCode::Lockdown, "emergency lockdown active; run `ownmesh unlock` locally"@))
    } else if degraded is Some && !(method matches Some(m) && open_when_degraded(m)) {
        Some((ErrorCode::Conflict, degraded_message(degraded->0@)))
    } else if method is None || method == Some(Method::Status) || method == Some(Method::Ping) {
        Some((ErrorCode::MethodNotFound, "method not found: "@ + name))
    } else {
        None
    }
}

/// Takes a request up: the method whose handler runs, or the refusal. Status and
/// ping are answered before a request gets here.
pub fn dispatch(
    revoked: bool,
    client_name: &str,
    lockdown: bool,
    degraded: &Option<String>,
    method: Option<Method>,
    name: &str,
) -> (r: Result<Method, IpcError>)
    ensures
        match dispatch_refusal(revoked, client_name@, lockdown, *degraded, method, name@) {
            Some((code, message)) => r matches Err(e) && e.is(code, message),
            None => r matches Ok(m) && method == Some(m),
        },
{
    if revoked {
        return Err(
            IpcError::with_message(
                ErrorCode::TokenRevoked,
                join3("principal ", client_name, " is revoked"),
            ),
        );
    }
    match check_lockdown(lockdown, method) {
        Ok(()) => {},
        Err(e) => {
            return Err(e);
        },
    }
    match check_journal_degraded(degraded, method) {
        Ok(()) => {},
        Err(e) => {
            return Err(e);
        },
    }
    match method {
        Some(m) => {
            if m == Method::Status || m == Method::Ping {
                Err(
                    IpcError::with_message(
                        ErrorCode::MethodNotFound,
                        join("method not found: ", name),
                    ),
                )
            } else {
                Ok(m)
            }
        },
        None => Err(
            IpcError::with_message(ErrorCode::MethodNotFound, join("method not found: ", name)),
        ),
    }
}

/// In lockdown nothing is taken up but the methods of local recovery.
pub proof fn law_lockdown_closes_everything_else(
    revoked: bool,
    client_name: Seq<char>,
    degraded: Option<String>,
    method: Option<Method>,
    name: Seq<char>,
)
    requires
        dispatch_refusal(revoked, client_name, true, degraded, method, name) is None,
    ensures
        method matches Some(m) && open_in_lockdown(m),
        !(method == Some(Method::OpsExec)),
        !(method == Some(Method::OpsFsWrite)),
        !(method == Some(Method::SessionOpen)),
{
}

/// While the journal is degraded, no method that runs a journaled operation is
/// taken up.
pub proof fn law_degraded_journal_refuses_side_effects(
    revoked: bool,
    client_name: Seq<char>,
    lockdown: bool,
    reason: String,
    method: Method,
    name: Seq<char>,
)
    requires
        method == Method::OpsExec || method == Method::OpsFsWrite || method == Method::OpsFsDelete
            || method == Method::ReviewStart || method == Method::SessionOpen || method
            == Method::ApprovalApprove || method == Method::TransferStart,
    ensures
        dispatch_refusal(
            revoked,
            client_name,
            lockdown,
            Some(reason),
            Some(method),
            name,
        ) is Some,
{
}

/// What a remote dispatch is bound to. Every fact is verified by the transport;
/// none comes from request parameters.
#[derive(Debug)]
pub struct RemoteBinding {
    pub operation_id: Option<String>,
    pub expires_at_unix: Option<i64>,
    pub payload_hash: Option<String>,
    pub device_id: Option<String>,
    pub principal: Option<String>,
    pub principal_credential_generation: Option<u64>,
}

/// The texts are equal, or both absent.
pub open spec fn same_option(a: Option<String>, b: Option<Seq<char>>) -> bool {
    match (a, b) {
        (Some(x), Some(y)) => x@ == y,
        (None, None) => true,
        _ => false,
    }
}

impl RemoteBinding {
    /// Nothing is bound: a local request.
    pub open spec fn is_unbound(self) -> bool {
        &&& self.operation_id is None
        &&& self.expires_at_unix is None
        &&& self.payload_hash is None
        &&& self.device_id is None
        &&& self.principal is None
        &&& self.principal_credential_generation is None
    }

    /// The binding of a local request.
    pub fn none() -> (binding: RemoteBinding)
        ensures
            binding.is_unbound(),
    {
        RemoteBinding {
            operation_id: None,
            expires_at_unix: None,
            payload_hash: None,
            device_id: None,
            principal: None,
            principal_credential_generation: None,
        }
    }

    /// The binding of a dispatch: texts are trimmed, and empty texts, an expiry that
    /// is not positive and generation 0 count as absent.
    pub open spec fn is_of(
        self,
        operation_id: Option<String>,
        expires_at_unix: Option<i64>,
        payload_hash: Option<String>,
        device_id: Option<String>,
        principal: Seq<char>,
        principal_credential_generation: Option<u64>,
    ) -> bool {
        &&& same_option(self.operation_id, filled(operation_id))
        &&& self.expires_at_unix == (match expires_at_unix {
            Some(t) => if t > 0 {
                Some(t)
            } else {
                None
            },
            None => None,
        })
        &&& same_option(self.payload_hash, filled(payload_hash))
        &&& same_option(self.device_id, filled(device_id))
        &&& same_option(
            self.principal,
            if principal.len() > 0 {
                Some(principal)
            } else {
                None
            },
        )
        &&& self.principal_credential_generation == (match principal_credential_generation {
            Some(g) => if g > 0 {
                Some(g)
            } else {
                None
            },
            None => None,
        })
    }

    /// Binds a remote dispatch. `principal` is canonical.
    pub fn bind(
        operation_id: Option<String>,
        expires_at_unix: Option<i64>,
        payload_hash: Option<String>,
        device_id: Option<String>,
        principal: &str,
        principal_credential_generation: Option<u64>,
    ) -> (binding: RemoteBinding)
        ensures
            binding.is_of(
                operation_id,
                expires_at_unix,
                payload_hash,
                device_id,
                principal@,
                principal_credential_generation,
            ),
    {
        RemoteBinding {
            operation_id: filled_text(&operation_id),
            expires_at_unix: match expires_at_unix {
                Some(t) => if t > 0 {
                    Some(t)
                } else {
                    None
                },
                None => None,
            },
            payload_hash: filled_text(&payload_hash),
            device_id: filled_text(&device_id),
            principal: if principal.is_empty() {
                None
            } else {
                Some(principal.to_owned())
            },
            principal_credential_generation: match principal_credential_generation {
                Some(g) => if g > 0 {
                    Some(g)
                } else {
                    None
                },
                None => None,
            },
        }
    }

    /// The dispatch is bound to an exact action that has not expired.
    pub open spec fn is_exact(self, now: int) -> bool {
        &&& self.operation_id is Some
        &&& self.payload_hash is Some
        &&& self.expires_at_unix matches Some(expiry) && expiry >= now
    }

    /// Whether the dispatch is bound to an exact action that has not expired.
    pub fn exact(&self, now: i64) -> (b: bool)
        ensures
            b == self.is_exact(now as int),
    {
        let live = match self.expires_at_unix {
            Some(expiry) => expiry >= now,
            None => false,
        };
        self.operation_id.is_some() && self.payload_hash.is_some() && live
    }
}

/// The name that a method of the session, repository, review, log, workspace and
/// system families goes by.
pub open spec fn name_of_method(method: Method) -> Option<Seq<char>> {
    match method {
        Method::SessionOpen => Some("session.open"@),
        Method::SessionList => Some("session.list"@),
        Method::SessionShow => Some("session.show"@),
        Method::SessionAttach => Some("session.attach"@),
        Method::SessionClaim => Some("session.claim"@),
        Method::SessionRenew => Some("session.renew"@),
        Method::SessionDetach => Some("session.detach"@),
        Method::SessionRelease => Some("session.release"@),
        Method::SessionGive => Some("session.give"@),
        Method::SessionClose => Some("session.close"@),
        Method::SessionTerminate => Some("session.terminate"@),
        Method::SessionReplay => Some("session.replay"@),
        Method::SessionPushOutput => Some("session.push_output"@),
        Method::SessionWrite => Some("session.write"@),
        Method::SessionResize => Some("session.resize"@),
        Method::GitStatus => Some("ops.git.status"@),
        Method::GitDiff => Some("ops.git.diff"@),
        Method::ReviewStart => Some("ops.review.start"@),
        Method::ReviewShow => Some("ops.review.show"@),
        Method::ReviewPage => Some("ops.review.page"@),
        Method::LogsListProviders => Some("ops.logs.list_providers"@),
        Method::WorkspaceList => Some("ops.workspace.list"@),
        Method::WorkspaceShow => Some("ops.workspace.show"@),
        Method::WorkspaceAdd => Some("ops.workspace.add"@),
        Method::WorkspaceUpdate => Some("ops.workspace.update"@),
        Method::WorkspaceRemove => Some("ops.workspace.remove"@),
        Method::SystemDiagnose => Some("ops.system.diagnose"@),
        _ => None,
    }
}

/// A method is found under its own name and under no other, and no other method is.
pub proof fn law_methods_are_found_by_name(name: Seq<char>, method: Method)
    ensures
        named_method(name) == Some(method) <==> name_of_method(method) == Some(name),
{
    reveal_strlit("session.open");
    reveal_strlit("session.list");
    reveal_strlit("session.show");
    reveal_strlit("session.attach");
    reveal_strlit("session.claim");
    reveal_strlit("session.renew");
    reveal_strlit("session.detach");
    reveal_strlit("session.release");
    reveal_strlit("session.give");
    reveal_strlit("session.close");
    reveal_strlit("session.terminate");
    reveal_strlit("session.replay");
    reveal_strlit("session.push_output");
    reveal_strlit("session.write");
    reveal_strlit("session.resize");
    reveal_strlit("ops.git.status");
    reveal_strlit("ops.git.diff");
    reveal_strlit("ops.review.start");
    reveal_strlit("ops.review.show");
    reveal_strlit("ops.review.page");
    reveal_strlit("ops.logs.list_providers");
    reveal_strlit("ops.workspace.list");
    reveal_strlit("ops.workspace.show");
    reveal_strlit("ops.workspace.add");
    reveal_strlit("ops.workspace.update");
    reveal_strlit("ops.workspace.remove");
    reveal_strlit("ops.system.diagnose");
    assert("session.open"@.len() == 12 && "session.list"@.len() == 12 && "session.show"@.len() == 12 && "session.attach"@.len() == 14 && "session.claim"@.len() == 13 && "session.renew"@.len() == 13 && "session.detach"@.len() == 14 && "session.release"@.len() == 15 && "session.give"@.len() == 12 && "session.close"@.len() == 13 && "session.terminate"@.len() == 17 && "session.replay"@.len() == 14 && "session.push_output"@.len() == 19 && "session.write"@.len() == 13 && "session.resize"@.len() == 14 && "ops.git.status"@.len() == 14 && "ops.git.diff"@.len() == 12 && "ops.review.start"@.len() == 16 && "ops.review.show"@.len() == 15 && "ops.review.page"@.len() == 15 && "ops.logs.list_providers"@.len() == 23 && "ops.workspace.list"@.len() == 18 && "ops.workspace.show"@.len() == 18 && "ops.workspace.add"@.len() == 17 && "ops.workspace.update"@.len() == 20 && "ops.workspace.remove"@.len() == 20 && "ops.system.diagnose"@.len() == 19);
    assert("session.open"@[8] != "session.list"@[8]);
    assert("session.open"@[8] != "session.show"@[8]);
    assert("session.open"@[8] != "session.give"@[8]);
    assert("session.open"@[0] != "ops.git.diff"@[0]);
    assert("session.list"@[8] != "session.show"@[8]);
    assert("session.list"@[8] != "session.give"@[8]);
    assert("session.list"@[0] != "ops.git.diff"@[0]);
    assert("session.show"@[8] != "session.give"@[8]);
    assert("session.show"@[0] != "ops.git.diff"@[0]);
    assert("session.attach"@[8] != "session.detach"@[8]);
    assert("session.attach"@[8] != "session.replay"@[8]);
    assert("session.attach"@[8] != "session.resize"@[8]);
    assert("session.attach"@[0] != "ops.git.status"@[0]);
    assert("session.claim"@[8] != "session.renew"@[8]);
    assert("session.claim"@[10] != "session.close"@[10]);
    assert("session.claim"@[8] != "session.write"@[8]);
    assert("session.renew"@[8] != "session.close"@[8]);
    assert("session.renew"@[8] != "session.write"@[8]);
    assert("session.detach"@[8] != "session.replay"@[8]);
    assert("session.detach"@[8] != "session.resize"@[8]);
    assert("session.detach"@[0] != "ops.git.status"@[0]);
    assert("session.release"@[0] != "ops.review.show"@[0]);
    assert("session.release"@[0] != "ops.review.page"@[0]);
    assert("session.give"@[0] != "ops.git.diff"@[0]);
    assert("session.close"@[8] != "session.write"@[8]);
    assert("session.terminate"@[0] != "ops.workspace.add"@[0]);
    assert("session.replay"@[10] != "session.resize"@[10]);
    assert("session.replay"@[0] != "ops.git.status"@[0]);
    assert("session.push_output"@[0] != "ops.system.diagnose"@[0]);
    assert("session.resize"@[0] != "ops.git.status"@[0]);
    assert("ops.review.show"@[11] != "ops.review.page"@[11]);
    assert("ops.workspace.list"@[14] != "ops.workspace.show"@[14]);
    assert("ops.workspace.update"@[14] != "ops.workspace.remove"@[14]);
}

/// A request is taken up exactly where its principal is not revoked, its method is known
/// and is not answered elsewhere, and lockdown and a degraded journal leave the method
/// open. A revoked principal is told so first, lockdown next.
pub proof fn law_requests_are_taken_up_in_order(
    revoked: bool,
    client_name: Seq<char>,
    lockdown: bool,
    degraded: Option<String>,
    method: Option<Method>,
    name: Seq<char>,
)
    ensures
        dispatch_refusal(revoked, client_name, lockdown, degraded, method, name) is None <==> {
            &&& !revoked
            &&& (method matches Some(m) && !(m is Status) && !(m is Ping) && (lockdown
                ==> open_in_lockdown(m)) && (degraded is Some ==> open_when_degraded(m)))
        },
        revoked ==> (dispatch_refusal(
            revoked,
            client_name,
            lockdown,
            degraded,
            method,
            name,
        ) matches Some((code, _)) && code == ErrorCode::TokenRevoked),
        !revoked && lockdown && (method matches Some(m) ==> !open_in_lockdown(m)) ==> (
        dispatch_refusal(
            revoked,
            client_name,
            lockdown,
            degraded,
            method,
            name,
        ) matches Some((code, _)) && code == ErrorCode::Lockdown),
        !revoked && !lockdown && degraded is Some && (method matches Some(m)
            ==> !open_when_degraded(m)) ==> (dispatch_refusal(
            revoked,
            client_name,
            lockdown,
            degraded,
            method,
            name,
        ) matches Some((code, _)) && code == ErrorCode::Conflict),
        !revoked && !lockdown && degraded is None && method is None ==> (dispatch_refusal(
            revoked,
            client_name,
            lockdown,
            degraded,
            method,
            name,
        ) matches Some((code, _)) && code == ErrorCode::MethodNotFound),
{
}

/// Lockdown leaves open what lifts or shows it, approvals and plain reports, and closes
/// every operation, transfer, session, review, workspace, profile and administrative
/// request but the one to unlock.
pub proof fn law_lockdown_closes_all_operations(method: Method)
    ensures
        method is DaemonUnlock || method is AdminDaemonUnlockRequest || method is ApprovalShow
            || method is ApprovalApprove || method is ApprovalDeny || method is Status ==> open_in_lockdown(
            method,
        ),
        method is OpsExec || method is OpsFsList || method is OpsFsStat || method is OpsFsRead
            || method is OpsFsWrite || method is OpsFsDelete || method is OpsLogsQuery
            ==> !open_in_lockdown(method),
        method is TransferPlan || method is TransferPreflightSource
            || method is TransferPreflightDestination || method is TransferStart
            || method is TransferSourceOpen || method is TransferSourceChunk
            || method is TransferDestinationPrepare || method is TransferDestinationChunk
            || method is TransferFinalize || method is TransferStatus || method is TransferList
            || method is TransferCancel || method is TransferArtifactGet ==> !open_in_lockdown(method),
        method is GitStatus || method is GitDiff || method is ReviewStart || method is ReviewShow
            || method is ReviewPage || method is LogsListProviders || method is ProfileList
            || method is ProfileScan || method is ProfileShow ==> !open_in_lockdown(method),
        method is WorkspaceList || method is WorkspaceShow || method is WorkspaceAdd
            || method is WorkspaceUpdate || method is WorkspaceRemove ==> !open_in_lockdown(method),
        method is SessionOpen || method is SessionList || method is SessionShow
            || method is SessionAttach || method is SessionClaim || method is SessionRenew
            || method is SessionDetach || method is SessionRelease || method is SessionGive
            || method is SessionClose || method is SessionTerminate || method is SessionReplay
            || method is SessionPushOutput || method is SessionWrite || method is SessionResize
            ==> !open_in_lockdown(method),
        method is PolicyPreset || method is PolicyExplain || method is GrantsRevoke
            || method is TokenRevoke || method is AdminPolicyPresetRequest
            || method is AdminPolicyRuleAddRequest || method is AdminPolicyRuleRemoveRequest
            || method is AdminTokenRevokeRequest || method is AdminApprovalBridgeRequest
            || method is AdminGrantsMintRequest ==> !open_in_lockdown(method),
{
}

/// A degraded journal leaves open what reads and what lifts lockdown or takes a grant
/// back, and closes everything that writes, runs, decides or grants.
pub proof fn law_degraded_journals_close_all_effects(method: Method)
    ensures
        method is OpsFsList || method is OpsFsStat || method is OpsFsRead || method is OpsLogsQuery
            || method is GitStatus || method is GitDiff || method is TransferStatus
            || method is GrantsRevoke || method is DaemonUnlock ==> open_when_degraded(method),
        method is OpsExec || method is OpsFsWrite || method is OpsFsDelete || method is ReviewStart
            || method is ApprovalApprove || method is ApprovalDeny || method is PolicyPreset
            || method is DaemonLockdown || method is TokenRevoke ==> !open_when_degraded(method),
        method is TransferPlan || method is TransferPreflightSource
            || method is TransferPreflightDestination || method is TransferStart
            || method is TransferSourceOpen || method is TransferSourceChunk
            || method is TransferDestinationPrepare || method is TransferDestinationChunk
            || method is TransferFinalize || method is TransferCancel
            || method is TransferArtifactGet ==> !open_when_degraded(method),
        method is WorkspaceAdd || method is WorkspaceUpdate || method is WorkspaceRemove
            ==> !open_when_degraded(method),
        method is SessionOpen || method is SessionAttach || method is SessionClaim
            || method is SessionRenew || method is SessionDetach || method is SessionRelease
            || method is SessionGive || method is SessionClose || method is SessionTerminate
            || method is SessionReplay || method is SessionPushOutput || method is SessionWrite
            || method is SessionResize ==> !open_when_degraded(method),
        method is AdminPolicyPresetRequest || method is AdminPolicyRuleAddRequest
            || method is AdminPolicyRuleRemoveRequest || method is AdminTokenRevokeRequest
            || method is AdminApprovalBridgeRequest || method is AdminGrantsMintRequest
            ==> !open_when_degraded(method),
{
}

/// A principal is revoked where the list names it; without a list, or without a name,
/// everybody is.
pub proof fn law_unknown_principals_are_revoked(principal: Seq<char>, list: Seq<String>)
    ensures
        is_revoked(principal, None),
        is_revoked(Seq::empty(), Some(list)),
        principal.len() > 0 ==> (is_revoked(principal, Some(list)) <==> exists|i: int|
            0 <= i < list.len() && (#[trigger] list[i])@ == principal),
{
}

/// A dispatch is bound to what was verified for it: texts without white space around,
/// an expiry and a generation above zero, and nothing in place of what is missing.
pub proof fn law_bindings_hold_what_was_verified(
    binding: RemoteBinding,
    operation_id: Option<String>,
    expires_at_unix: Option<i64>,
    payload_hash: Option<String>,
    device_id: Option<String>,
    principal: Seq<char>,
    generation: Option<u64>,
)
    requires
        binding.is_of(
            operation_id,
            expires_at_unix,
            payload_hash,
            device_id,
            principal,
            generation,
        ),
    ensures
        operation_id is None ==> binding.operation_id is None,
        operation_id matches Some(given) ==> (trim(given@).len() > 0 ==> (
        binding.operation_id matches Some(bound) && bound@ == trim(given@))),
        operation_id matches Some(given) ==> (trim(given@).len() == 0 ==> binding.operation_id is None),
        payload_hash is None ==> binding.payload_hash is None,
        payload_hash matches Some(given) ==> (trim(given@).len() > 0 ==> (
        binding.payload_hash matches Some(bound) && bound@ == trim(given@))),
        device_id is None ==> binding.device_id is None,
        device_id matches Some(given) ==> (trim(given@).len() > 0 ==> (
        binding.device_id matches Some(bound) && bound@ == trim(given@))),
        expires_at_unix matches Some(t) ==> (binding.expires_at_unix == Some(t) <==> t > 0),
        binding.expires_at_unix is Some ==> binding.expires_at_unix == expires_at_unix,
        generation matches Some(g) ==> (binding.principal_credential_generation == Some(g) <==> g
            > 0),
        binding.principal_credential_generation is Some ==> binding.principal_credential_generation
            == generation,
        binding.principal is Some <==> principal.len() > 0,
        binding.principal matches Some(p) ==> p@ == principal,
{
}

/// A dispatch is exact while it names its operation and its payload and has an expiry
/// that has not passed.
pub proof fn law_exact_bindings_have_not_expired(binding: RemoteBinding, now: int)
    ensures
        binding.is_exact(now) <==> binding.operation_id is Some && binding.payload_hash is Some && (
        binding.expires_at_unix matches Some(expiry) && now <= expiry),
        binding.is_unbound() ==> !binding.is_exact(now),
{
}

/// The checks let through exactly what lockdown and a degraded journal leave open, and
/// each refuses with its own code.
pub proof fn law_checks_let_through_what_is_open(
    locked: Result<(), IpcError>,
    checked: Result<(), IpcError>,
    lockdown: bool,
    degraded: Option<String>,
    method: Option<Method>,
)
    requires
        is_lockdown_check(locked, lockdown, method),
        is_degraded_check(checked, degraded, method),
    ensures
        !lockdown ==> locked is Ok,
        degraded is None ==> checked is Ok,
        lockdown && method is None ==> locked is Err,
        degraded is Some && method is None ==> checked is Err,
        lockdown ==> (method matches Some(m) ==> (locked is Ok <==> open_in_lockdown(m))),
        degraded is Some ==> (method matches Some(m) ==> (checked is Ok <==> open_when_degraded(m))),
        locked matches Err(e) ==> e.code == ErrorCode::Lockdown,
        checked matches Err(e) ==> e.code == ErrorCode::Conflict,
{
}

} // verus!

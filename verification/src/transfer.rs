//! File transfers: whose authority they run under, and what is kept in memory.
use crate::approvals::{answers, Refusal};
use crate::dispatch::RemoteBinding;
use crate::error::{ErrorCode, IpcError};
use crate::principal::{is_remote_key, no_colon, remote_key, split_remote_key};
use crate::registry::Registry;
use crate::text::same_text;
use vstd::prelude::*;

verus! {

/// How a transfer fails.
#[derive(Debug, Clone, Copy, PartialEq, Eq, Structural)]
pub enum TransferFailure {
    InvalidBinding,
    InvalidPlan,
    ChunkTooLarge,
    MalformedChunk,
    ChunkHashMismatch,
    Overflow,
    PlatformUnsupported,
    DestinationExists,
    DestinationMissing,
    DestinationHashMismatch,
    Replay,
    Gap,
    SourceChanged,
    HashMismatch,
    StaleFence,
    Terminal,
    LeaseBusy,
    JournalQuotaExceeded,
    Other,
}

/// Class of a failed transfer.
pub open spec fn failure_code(failure: TransferFailure) -> ErrorCode {
    match failure {
        TransferFailure::InvalidBinding
        | TransferFailure::InvalidPlan
        | TransferFailure::ChunkTooLarge
        | TransferFailure::MalformedChunk
        | TransferFailure::ChunkHashMismatch
        | TransferFailure::Overflow => ErrorCode::InvalidParams,
        TransferFailure::PlatformUnsupported => ErrorCode::PlatformUnsupported,
        TransferFailure::DestinationExists
        | TransferFailure::DestinationMissing
        | TransferFailure::DestinationHashMismatch
        | TransferFailure::Replay
        | TransferFailure::Gap
        | TransferFailure::SourceChanged
        | TransferFailure::HashMismatch
        | TransferFailure::StaleFence
        | TransferFailure::Terminal
        | TransferFailure::LeaseBusy => ErrorCode::Conflict,
        TransferFailure::JournalQuotaExceeded | TransferFailure::Other => ErrorCode::Internal,
    }
}

/// The error of a failed transfer.
pub fn transfer_error(failure: TransferFailure, message: &str) -> (e: IpcError)
    ensures
        e.is(failure_code(failure), message@),
{
    let code = match failure {
        TransferFailure::InvalidBinding
        | TransferFailure::InvalidPlan
        | TransferFailure::ChunkTooLarge
        | TransferFailure::MalformedChunk
        | TransferFailure::ChunkHashMismatch
        | TransferFailure::Overflow => ErrorCode::InvalidParams,
        TransferFailure::PlatformUnsupported => ErrorCode::PlatformUnsupported,
        TransferFailure::DestinationExists
        | TransferFailure::DestinationMissing
        | TransferFailure::DestinationHashMismatch
        | TransferFailure::Replay
        | TransferFailure::Gap
        | TransferFailure::SourceChanged
        | TransferFailure::HashMismatch
        | TransferFailure::StaleFence
        | TransferFailure::Terminal
        | TransferFailure::LeaseBusy => ErrorCode::Conflict,
        TransferFailure::JournalQuotaExceeded | TransferFailure::Other => ErrorCode::Internal,
    };
    IpcError::new(code, message)
}

/// The authority that a transfer runs under.
#[derive(Debug)]
pub struct TransferAuthority {
    pub tenant_id: String,
    pub principal_id: String,
    pub device_id: String,
    pub operation_id: String,
    pub payload_sha256: String,
    pub expires_at_unix: u64,
}

/// Why a dispatch carries no authority for a transfer.
pub open spec fn transfer_refusal(
    binding: RemoteBinding,
    principal: Seq<char>,
    now: int,
) -> Refusal {
    if binding.operation_id is None {
        Some(
            (
                ErrorCode::Unauthorized,
                "transfer requires an authenticated remote operation binding"@,
            ),
        )
    } else if binding.payload_hash is None {
        Some((ErrorCode::Unauthorized, "transfer requires a verified remote payload hash"@))
    } else if binding.device_id is None {
        Some((ErrorCode::Unauthorized, "transfer requires a verified remote device identity"@))
    } else if binding.expires_at_unix is None {
        Some((ErrorCode::Unauthorized, "transfer requires a verified remote expiry"@))
    } else if (binding.expires_at_unix->0) < 0 {
        Some((ErrorCode::Unauthorized, "transfer remote expiry is invalid"@))
    } else if binding.expires_at_unix->0 <= now {
        Some((ErrorCode::Unauthorized, "transfer remote grant has expired"@))
    } else if !is_remote_key(principal) {
        Some((ErrorCode::Unauthorized, "transfer caller is not a verified remote principal"@))
    } else if has_empty_part(principal) || binding.device_id->0@.len() == 0 {
        Some((ErrorCode::Unauthorized, "transfer binding identity is empty"@))
    } else {
        None
    }
}

/// A remote key without a tenant or without a principal.
pub open spec fn has_empty_part(principal: Seq<char>) -> bool {
    exists|t: Seq<char>, p: Seq<char>|
        no_colon(t) && no_colon(p) && principal == #[trigger] remote_key(t, p) && (t.len() == 0
            || p.len() == 0)
}

/// The authority that a dispatch gives a transfer.
pub open spec fn is_authority_of(
    authority: TransferAuthority,
    binding: RemoteBinding,
    principal: Seq<char>,
) -> bool {
    &&& no_colon(authority.tenant_id@)
    &&& no_colon(authority.principal_id@)
    &&& principal == remote_key(authority.tenant_id@, authority.principal_id@)
    &&& binding.device_id == Some(authority.device_id)
    &&& binding.operation_id == Some(authority.operation_id)
    &&& binding.payload_hash == Some(authority.payload_sha256)
    &&& binding.expires_at_unix matches Some(expiry) && authority.expires_at_unix == expiry
}

/// Derives the authority of a transfer from the authenticated dispatch. Nothing
/// that the caller sends can nominate any part of it.
pub fn transfer_authority(binding: &RemoteBinding, principal: &str, now: u64) -> (r: Result<
    TransferAuthority,
    IpcError,
>)
    ensures
        answers(r, transfer_refusal(*binding, principal@, now as int)),
        r matches Ok(authority) ==> is_authority_of(authority, *binding, principal@),
{
    let operation_id = match &binding.operation_id {
        Some(id) => id.clone(),
        None => {
            return Err(
                IpcError::new(
                    ErrorCode::Unauthorized,
                    "transfer requires an authenticated remote operation binding",
                ),
            );
        },
    };
    let payload_sha256 = match &binding.payload_hash {
        Some(hash) => hash.clone(),
        None => {
            return Err(
                IpcError::new(
                    ErrorCode::Unauthorized,
                    "transfer requires a verified remote payload hash",
                ),
            );
        },
    };
    let device_id = match &binding.device_id {
        Some(id) => id.clone(),
        None => {
            return Err(
                IpcError::new(
                    ErrorCode::Unauthorized,
                    "transfer requires a verified remote device identity",
                ),
            );
        },
    };
    let expiry: i64 = match binding.expires_at_unix {
        Some(expiry) => expiry,
        None => {
            return Err(
                IpcError::new(
                    ErrorCode::Unauthorized,
                    "transfer requires a verified remote expiry",
                ),
            );
        },
    };
    if expiry < 0 {
        return Err(IpcError::new(ErrorCode::Unauthorized, "transfer remote expiry is invalid"));
    }
    let expires_at_unix: u64 = expiry as u64;
    if expires_at_unix <= now {
        return Err(IpcError::new(ErrorCode::Unauthorized, "transfer remote grant has expired"));
    }
    let (tenant, caller) = match split_remote_key(principal) {
        Some(parts) => parts,
        None => {
            return Err(
                IpcError::new(
                    ErrorCode::Unauthorized,
                    "transfer caller is not a verified remote principal",
                ),
            );
        },
    };
    proof {
        assert(is_remote_key(principal@)) by {
            assert(principal@ == remote_key(tenant@, caller@));
        }
        assert forall|t: Seq<char>, p: Seq<char>| no_colon(t) && no_colon(p) && principal@
            == #[trigger] remote_key(t, p) implies t == tenant@ && p == caller@ by {
            crate::principal::law_remote_key_is_unambiguous(t, p, tenant@, caller@);
        }
        assert(has_empty_part(principal@) <==> tenant@.len() == 0 || caller@.len() == 0);
    }
    if tenant.is_empty() || caller.is_empty() || device_id.as_str().is_empty() {
        return Err(IpcError::new(ErrorCode::Unauthorized, "transfer binding identity is empty"));
    }
    Ok(
        TransferAuthority {
            tenant_id: tenant.to_owned(),
            principal_id: caller.to_owned(),
            device_id,
            operation_id,
            payload_sha256,
            expires_at_unix,
        },
    )
}

/// Whom the plan of a transfer is bound to.
#[derive(Debug)]
pub struct TransferBinding {
    pub tenant_id: String,
    pub source_principal_id: String,
    pub destination_principal_id: String,
    pub source_device_id: String,
    pub destination_device_id: String,
}

/// The device plays the role in the plan; without a role, it plays either.
pub open spec fn plays_role(
    binding: TransferBinding,
    device_id: Seq<char>,
    role: Option<Seq<char>>,
) -> bool {
    match role {
        Some(r) => (r == "source"@ && binding.source_device_id@ == device_id) || (r
            == "destination"@ && binding.destination_device_id@ == device_id),
        None => binding.source_device_id@ == device_id || binding.destination_device_id@
            == device_id,
    }
}

/// Why a plan is not this device's to carry out.
pub open spec fn identity_refusal(
    binding: TransferBinding,
    authority: TransferAuthority,
    role: Option<Seq<char>>,
) -> Refusal {
    if binding.tenant_id@ != authority.tenant_id@ || binding.source_principal_id@
        != authority.principal_id@ || binding.destination_principal_id@ != authority.principal_id@ {
        Some(
            (
                ErrorCode::Unauthorized,
                "transfer plan is not bound to this authenticated local device/principal"@,
            ),
        )
    } else if !plays_role(binding, authority.device_id@, role) {
        Some(
            (
                ErrorCode::Unauthorized,
                "transfer plan is not bound to this authenticated local device role"@,
            ),
        )
    } else {
        None
    }
}

/// Holds a plan to the authority that it is carried out under.
pub fn verify_local_transfer_identity(
    binding: &TransferBinding,
    authority: &TransferAuthority,
    role: Option<&str>,
) -> (r: Result<(), IpcError>)
    ensures
        answers(
            r,
            identity_refusal(
                *binding,
                *authority,
                match role {
                    Some(name) => Some(name@),
                    None => None,
                },
            ),
        ),
{
    if !same_text(binding.tenant_id.as_str(), authority.tenant_id.as_str()) || !same_text(
        binding.source_principal_id.as_str(),
        authority.principal_id.as_str(),
    ) || !same_text(
        binding.destination_principal_id.as_str(),
        authority.principal_id.as_str(),
    ) {
        return Err(
            IpcError::new(
                ErrorCode::Unauthorized,
                "transfer plan is not bound to this authenticated local device/principal",
            ),
        );
    }
    let device = authority.device_id.as_str();
    let source = same_text(binding.source_device_id.as_str(), device);
    let destination = same_text(binding.destination_device_id.as_str(), device);
    proof {
        reveal_strlit("source");
        reveal_strlit("destination");
    }
    let local = match role {
        Some(name) => (same_text(name, "source") && source) || (same_text(name, "destination")
            && destination),
        None => source || destination,
    };
    if !local {
        return Err(
            IpcError::new(
                ErrorCode::Unauthorized,
                "transfer plan is not bound to this authenticated local device role",
            ),
        );
    }
    Ok(())
}

/// A plan is carried out only for the tenant and principal of both of its ends.
pub proof fn law_transfers_stay_with_their_principal(
    binding: TransferBinding,
    authority: TransferAuthority,
    role: Option<Seq<char>>,
)
    requires
        identity_refusal(binding, authority, role) is None,
    ensures
        binding.tenant_id@ == authority.tenant_id@,
        binding.source_principal_id@ == authority.principal_id@,
        binding.destination_principal_id@ == authority.principal_id@,
        binding.source_device_id@ == authority.device_id@ || binding.destination_device_id@
            == authority.device_id@,
{
}

/// Most destination transfers kept in memory.
pub const MAX_CACHED_DESTINATION_TRANSFERS: usize = 256;

/// What identifies a destination transfer kept in memory.
#[derive(Debug, Clone, Copy, PartialEq, Eq, Structural)]
pub struct CachedDestination {
    pub epoch: u64,
    pub fence: u64,
}

impl CachedDestination {
    /// The cached transfer is the one of this epoch and fence, at the journalled
    /// point.
    pub fn matches(&self, epoch: u64, fence: u64, same_journal: bool) -> (b: bool)
        ensures
            b == (self.epoch == epoch && self.fence == fence && same_journal),
    {
        self.epoch == epoch && self.fence == fence && same_journal
    }
}

/// The destination transfers kept in memory, by plan.
pub type DestinationCache = Registry<CachedDestination>;

/// A plan may be kept: it is already, or there is room.
pub open spec fn has_room(cache: DestinationCache, plan_id: Seq<char>) -> bool {
    cache@.contains_key(plan_id) || cache.items().len() < MAX_CACHED_DESTINATION_TRANSFERS
}

/// Requires room for a plan.
pub fn ensure_destination_cache_capacity(cache: &DestinationCache, plan_id: &str) -> (r: Result<
    (),
    TransferFailure,
>)
    ensures
        r is Ok <==> has_room(*cache, plan_id@),
        r matches Err(failure) ==> failure == TransferFailure::JournalQuotaExceeded,
{
    if !cache.contains_key(plan_id) && cache.len() >= MAX_CACHED_DESTINATION_TRANSFERS {
        return Err(TransferFailure::JournalQuotaExceeded);
    }
    Ok(())
}

/// What a sweep finds of a cached transfer.
#[derive(Debug, Clone, Copy)]
pub struct CachedTransferState {
    /// Its plan is still there.
    pub planned: bool,
    /// When its journal expires, where the journal opens under its fence.
    pub journal_expires_unix: Option<u64>,
    /// The journal is the cached one.
    pub same_journal: bool,
    /// The partial file is at the journalled position.
    pub position_valid: bool,
}

/// A sweep keeps the cached transfer.
pub open spec fn survives_sweep(state: CachedTransferState, now: int) -> bool {
    state.planned && (state.journal_expires_unix matches Some(expiry) && expiry > now)
        && state.same_journal && state.position_valid
}

/// Whether a sweep keeps a cached transfer: only a live one whose plan, journal and
/// partial file all hold.
pub fn keeps_receiver(state: CachedTransferState, now: u64) -> (b: bool)
    ensures
        b == survives_sweep(state, now as int),
{
    match state.journal_expires_unix {
        Some(expiry) => state.planned && expiry > now && state.same_journal
            && state.position_valid,
        None => false,
    }
}

/// The plan stays cached over a sweep.
pub open spec fn stays_cached(
    items: Seq<(String, CachedDestination)>,
    states: Seq<CachedTransferState>,
    plan_id: Seq<char>,
    now: int,
) -> bool {
    exists|i: int|
        0 <= i < items.len() && (#[trigger] items[i]).0@ == plan_id && survives_sweep(
            states[i],
            now,
        )
}

/// Drops the cached transfers that a sweep does not keep; `states` tells what was
/// found of each.
pub fn cleanup_expired_transfers(
    cache: &mut DestinationCache,
    states: &Vec<CachedTransferState>,
    now: u64,
)
    requires
        states@.len() == old(cache).items().len(),
    ensures
        forall|k: Seq<char>| #[trigger]
            final(cache)@.contains_key(k) <==> stays_cached(
                old(cache).items(),
                states@,
                k,
                now as int,
            ),
        forall|k: Seq<char>| #[trigger]
            final(cache)@.contains_key(k) ==> old(cache)@.contains_key(k) && final(cache)@[k]
                == old(cache)@[k],
{
    let ghost items = cache.items();
    let n: usize = cache.len();
    let mut kept: DestinationCache = Registry::new();
    let mut i: usize = 0;
    while i < n
        invariant
            i <= n,
            n == items.len(),
            items == cache.items(),
            crate::registry::distinct_items(items),
            states@.len() == n,
            forall|k: Seq<char>| #[trigger]
                kept@.contains_key(k) <==> stays_cached(items.take(i as int), states@, k, now as int),
            forall|k: Seq<char>| #[trigger]
                kept@.contains_key(k) ==> cache@.contains_key(k) && kept@[k] == cache@[k],
        decreases n - i,
    {
        let ghost before = kept@;
        let key = cache.key_at(i);
        let entry = *cache.value_at(i);
        let keep = keeps_receiver(states[i], now);
        proof {
            crate::registry::lemma_item_is_mapped(items, i as int);
        }
        if keep {
            let _ = kept.insert(key.clone(), entry);
        }
        proof {
            let id = items[i as int].0@;
            assert forall|k: Seq<char>| #[trigger] kept@.contains_key(k) <==> stays_cached(
                items.take(i + 1),
                states@,
                k,
                now as int,
            ) by {
                let shorter = items.take(i as int);
                let longer = items.take(i + 1);
                if stays_cached(shorter, states@, k, now as int) {
                    let j = choose|j: int|
                        0 <= j < shorter.len() && (#[trigger] shorter[j]).0@ == k
                            && survives_sweep(states@[j], now as int);
                    assert(longer[j].0@ == k);
                }
                if stays_cached(longer, states@, k, now as int) {
                    let j = choose|j: int|
                        0 <= j < longer.len() && (#[trigger] longer[j]).0@ == k
                            && survives_sweep(states@[j], now as int);
                    if j < i {
                        assert(shorter[j].0@ == k);
                    }
                }
                if k == id && keep {
                    assert(longer[i as int].0@ == k);
                }
                assert(before.contains_key(k) <==> stays_cached(
                    shorter,
                    states@,
                    k,
                    now as int,
                ));
            }
        }
        i += 1;
    }
    proof {
        assert(items.take(i as int) =~= items);
    }
    *cache = kept;
}

/// What a sweep reports: how many expired transfers were removed from the store, or
/// why they could not be.
pub fn sweep_answer(removed: Result<usize, String>) -> (r: Result<usize, String>)
    ensures
        match removed {
            Ok(n) => r == Ok::<usize, String>(n),
            Err(e) => r matches Err(text) && text@ == "cleanup transfer state: "@ + e@,
        },
{
    match removed {
        Ok(n) => Ok(n),
        Err(e) => Err(crate::text::join("cleanup transfer state: ", e.as_str())),
    }
}

/// What a sweep drops from the senders and last chunks: those whose plan is gone,
/// once something was removed.
pub fn keeps_sender(removed: usize, planned: bool) -> (b: bool)
    ensures
        b == (removed == 0 || planned),
{
    removed == 0 || planned
}

/// A transfer that is malformed is invalid, one that meets another state is a conflict,
/// and only a failure of the store is internal.
pub proof fn law_transfer_failures_have_their_code(failure: TransferFailure)
    ensures
        failure_code(failure) == ErrorCode::InvalidParams <==> failure is InvalidBinding
            || failure is InvalidPlan || failure is ChunkTooLarge || failure is MalformedChunk
            || failure is ChunkHashMismatch || failure is Overflow,
        failure_code(failure) == ErrorCode::PlatformUnsupported <==> failure is PlatformUnsupported,
        failure_code(failure) == ErrorCode::Internal <==> failure is JournalQuotaExceeded
            || failure is Other,
        failure is DestinationExists || failure is DestinationMissing
            || failure is DestinationHashMismatch || failure is Replay || failure is Gap
            || failure is SourceChanged || failure is HashMismatch || failure is StaleFence
            || failure is Terminal || failure is LeaseBusy ==> failure_code(failure)
            == ErrorCode::Conflict,
{
}

/// A transfer runs under a dispatch that is bound whole and has not expired, for a
/// remote principal with a tenant and a name; otherwise it is unauthorized.
pub proof fn law_transfers_need_a_whole_binding(
    binding: RemoteBinding,
    principal: Seq<char>,
    now: int,
)
    requires
        now >= 0,
    ensures
        transfer_refusal(binding, principal, now) is None <==> {
            &&& binding.operation_id is Some
            &&& binding.payload_hash is Some
            &&& (binding.device_id matches Some(device) && device@.len() > 0)
            &&& (binding.expires_at_unix matches Some(expiry) && now < expiry)
            &&& is_remote_key(principal)
            &&& !has_empty_part(principal)
        },
        transfer_refusal(binding, principal, now) matches Some((code, _)) ==> code
            == ErrorCode::Unauthorized,
{
}

/// A device takes part in a transfer as the end that the plan names it for: as source or
/// destination where a role is asked, as either where none is.
pub proof fn law_devices_play_their_own_role(binding: TransferBinding, device_id: Seq<char>)
    ensures
        plays_role(binding, device_id, Some("source"@)) <==> binding.source_device_id@ == device_id,
        plays_role(binding, device_id, Some("destination"@)) <==> binding.destination_device_id@
            == device_id,
        plays_role(binding, device_id, None) <==> binding.source_device_id@ == device_id
            || binding.destination_device_id@ == device_id,
        forall|role: Seq<char>|
            role != "source"@ && role != "destination"@ ==> !#[trigger] plays_role(
                binding,
                device_id,
                Some(role),
            ),
{
    reveal_strlit("source");
    reveal_strlit("destination");
    assert("source"@.len() == 6 && "destination"@.len() == 11);
}

/// A transfer that is not its principal's own, or not this device's, is unauthorized.
pub proof fn law_foreign_transfers_are_refused(
    binding: TransferBinding,
    authority: TransferAuthority,
    role: Option<Seq<char>>,
)
    ensures
        identity_refusal(binding, authority, role) is None <==> {
            &&& binding.tenant_id@ == authority.tenant_id@
            &&& binding.source_principal_id@ == authority.principal_id@
            &&& binding.destination_principal_id@ == authority.principal_id@
            &&& plays_role(binding, authority.device_id@, role)
        },
        identity_refusal(binding, authority, role) matches Some((code, _)) ==> code
            == ErrorCode::Unauthorized,
{
}

/// The cache has room for what it holds, and for something new while it holds fewer than
/// 256 transfers.
pub proof fn law_the_transfer_cache_is_bounded(cache: DestinationCache, plan_id: Seq<char>)
    ensures
        cache@.contains_key(plan_id) ==> has_room(cache, plan_id),
        !cache@.contains_key(plan_id) ==> (has_room(cache, plan_id) <==> cache.items().len() < 256),
{
}

/// A cached transfer is swept unless it is still planned, its journal is the cached one
/// and has not expired, and its partial file is where the journal says.
pub proof fn law_stale_transfers_are_swept(state: CachedTransferState, now: int)
    ensures
        survives_sweep(state, now) ==> state.planned && state.same_journal && state.position_valid,
        state.journal_expires_unix is None ==> !survives_sweep(state, now),
        state.journal_expires_unix matches Some(expiry) ==> (expiry <= now ==> !survives_sweep(
            state,
            now,
        )),
        state.journal_expires_unix matches Some(expiry) ==> (now < expiry && state.planned
            && state.same_journal && state.position_valid ==> survives_sweep(state, now)),
{
}

/// A transfer runs under the device, the operation, the payload and the expiry of its
/// dispatch, for the tenant and the principal that the caller's key is made of.
pub proof fn law_transfers_run_under_their_dispatch(
    authority: TransferAuthority,
    binding: RemoteBinding,
    principal: Seq<char>,
)
    requires
        is_authority_of(authority, binding, principal),
    ensures
        binding.device_id == Some(authority.device_id),
        binding.operation_id == Some(authority.operation_id),
        binding.payload_hash == Some(authority.payload_sha256),
        binding.expires_at_unix matches Some(expiry) && expiry == authority.expires_at_unix,
        principal == "client:remote:"@ + authority.tenant_id@ + seq![':']
            + authority.principal_id@,
        forall|i: int|
            0 <= i < authority.tenant_id@.len() ==> (#[trigger] authority.tenant_id@[i]) != ':',
{
}

/// What stays in the cache is exactly what survives the sweep, under its own plan.
pub proof fn law_swept_transfers_are_gone(
    items: Seq<(String, CachedDestination)>,
    states: Seq<CachedTransferState>,
    plan_id: Seq<char>,
    now: int,
)
    ensures
        stays_cached(items, states, plan_id, now) ==> exists|i: int|
            0 <= i < items.len() && (#[trigger] items[i]).0@ == plan_id && states[i].planned
                && states[i].same_journal && states[i].position_valid && (
            states[i].journal_expires_unix matches Some(expiry) && now < expiry),
        forall|i: int|
            0 <= i < items.len() && (#[trigger] items[i]).0@ == plan_id && survives_sweep(
                states[i],
                now,
            ) ==> stays_cached(items, states, plan_id, now),
{
    if stays_cached(items, states, plan_id, now) {
        let i = choose|i: int|
            0 <= i < items.len() && (#[trigger] items[i]).0@ == plan_id && survives_sweep(
                states[i],
                now,
            );
        assert(items[i].0@ == plan_id);
    }
}

} // verus!

//! Hand-off of elevated commands to the privileged broker. There is no local
//! fallback: what cannot be bound exactly is refused.
use crate::approvals::{answers, Refusal};
use crate::dispatch::RemoteBinding;
use crate::error::{ErrorCode, ExecutionFailure, IpcError};
use crate::exec::{
    binding_refusal, broker_binding_error, clamped, output_bound_of, timeout_of, CommandKind,
    DEFAULT_OUTPUT_BYTES, DEFAULT_TIMEOUT_MS, MAX_OUTPUT_BYTES,
};
use crate::grants::{saturated, saturating_add};
use crate::ids::{is_fresh_id, is_lower_sha256, is_sha256_text, new_id};
use crate::json::{Json, JsonObject, JsonV};
use crate::params::{ExecParams, ExecutablePin};
use crate::principal::{is_remote_part, remote_key, split_remote_principal};
use crate::text::{filled, filled_text, join, same_text, trim, trimmed};
use vstd::prelude::*;
use vstd::string::*;

verus! {

/// The executable that the broker is to launch.
#[derive(Debug)]
pub struct BrokerExecutable {
    pub canonical_path: String,
    pub image_sha256: String,
    pub image_len: u64,
}

/// The facts of an elevated command that the broker holds it to.
#[derive(Debug)]
pub struct BrokerFacts {
    pub operation: String,
    pub remote_payload_sha256: String,
    pub principal_id: String,
    pub tenant_id: String,
    pub principal_credential_generation: u64,
    pub timeout_ms: u64,
    pub max_output_bytes: usize,
    pub device_id: String,
    pub workspace_id: String,
    pub argv: Vec<String>,
    pub canonical_cwd: Option<String>,
    pub sanitized_env: Vec<(String, String)>,
    pub executable: BrokerExecutable,
}

/// An intent to execute, before and after it is authenticated.
#[derive(Debug)]
pub struct ExecuteIntent {
    pub request_id: String,
    pub operation_id: String,
    pub nonce: String,
    pub issued_at_unix: i64,
    pub expires_at_unix: i64,
    pub facts: BrokerFacts,
    /// Empty until the intent is authenticated.
    pub mac: String,
}

/// Bounds that the broker protocol and the command runner set.
#[derive(Debug, Clone, Copy)]
pub struct BrokerLimits {
    pub capability_ttl_secs: i64,
    pub hard_max_timeout_ms: u64,
}

/// A remote principal of the form that the broker knows.
pub open spec fn is_split(principal: Seq<char>) -> bool {
    exists|t: Seq<char>, p: Seq<char>|
        is_remote_part(t) && is_remote_part(p) && principal == #[trigger] remote_key(t, p)
}

/// Why the authority of a dispatch does not carry over to the broker.
pub open spec fn broker_authority_refusal(binding: RemoteBinding, now: int) -> Refusal {
    if filled(binding.operation_id) is None {
        binding_refusal("remote operation id is required"@)
    } else if !(binding.payload_hash matches Some(hash) && is_sha256_text(hash@)) {
        binding_refusal("server exact payload hash is required"@)
    } else if filled(binding.device_id) is None {
        binding_refusal("verified remote device id is required"@)
    } else if binding.principal is None {
        binding_refusal("verified remote principal is required"@)
    } else if !is_split(binding.principal->0@) {
        binding_refusal("verified remote principal shape is invalid"@)
    } else if !(binding.principal_credential_generation matches Some(g) && g > 0) {
        binding_refusal(
            "server-derived principal credential generation is required for elevation"@,
        )
    } else if !(binding.expires_at_unix matches Some(expiry) && expiry > now) {
        binding_refusal("unexpired remote operation is required"@)
    } else {
        None
    }
}

/// Why a command is not handed to the broker. `pin_fault` says why its pin does
/// not hold now.
pub open spec fn handoff_refusal(p: ExecParams, pin_fault: Option<Seq<char>>) -> Refusal {
    if p.executable_pin is None {
        binding_refusal("server-pinned structured executable is required for elevation"@)
    } else if p.executable_pin->0.policy_kind@ != CommandKind::Structured.name() {
        binding_refusal("elevated raw-shell execution is unsupported by the secure broker"@)
    } else if p.cwd is Some {
        binding_refusal("elevated cwd handoff is unsupported by the secure broker"@)
    } else if p.env@.len() > 0 {
        binding_refusal("elevated environment overlays are unsupported by the secure broker"@)
    } else if pin_fault is Some {
        binding_refusal(
            "executable identity changed before privileged handoff: "@ + pin_fault->0,
        )
    } else {
        None
    }
}

/// When an intent expires: with the operation, and never after its own time.
pub open spec fn intent_expiry(binding: RemoteBinding, issued_at: int, ttl: int) -> int {
    let own = saturated(issued_at + ttl);
    if (binding.expires_at_unix->0) < own {
        binding.expires_at_unix->0 as int
    } else {
        own
    }
}

/// Why no intent is built.
pub open spec fn intent_refusal(
    p: ExecParams,
    binding: RemoteBinding,
    pin_fault: Option<Seq<char>>,
    limits: BrokerLimits,
    now: int,
    issued_at: int,
) -> Refusal {
    if broker_authority_refusal(binding, now) is Some {
        broker_authority_refusal(binding, now)
    } else if handoff_refusal(p, pin_fault) is Some {
        handoff_refusal(p, pin_fault)
    } else if intent_expiry(binding, issued_at, limits.capability_ttl_secs as int) <= issued_at {
        binding_refusal("remote operation expires before broker handoff"@)
    } else if !(p.workspace_id matches Some(id) && trim(id@).len() > 0) {
        binding_refusal("server-bound workspace id is required"@)
    } else {
        None
    }
}

/// The facts are those of the command, under the authority of its dispatch.
pub open spec fn facts_are_exact(
    facts: BrokerFacts,
    p: ExecParams,
    binding: RemoteBinding,
    limits: BrokerLimits,
) -> bool {
    let pin = p.executable_pin->0;
    &&& filled(binding.operation_id) == Some(facts.operation@)
    &&& binding.payload_hash matches Some(hash) && facts.remote_payload_sha256@ == hash@
    &&& binding.principal matches Some(key) && key@ == remote_key(
        facts.tenant_id@,
        facts.principal_id@,
    )
    &&& is_remote_part(facts.tenant_id@)
    &&& is_remote_part(facts.principal_id@)
    &&& binding.principal_credential_generation == Some(facts.principal_credential_generation)
    &&& facts.timeout_ms == clamped(
        match p.timeout_ms {
            Some(t) => t as int,
            None => DEFAULT_TIMEOUT_MS as int,
        },
        1,
        limits.hard_max_timeout_ms as int,
    )
    &&& facts.max_output_bytes == clamped(
        match p.max_output_bytes {
            Some(n) => n as int,
            None => DEFAULT_OUTPUT_BYTES as int,
        },
        1,
        MAX_OUTPUT_BYTES as int,
    )
    &&& filled(binding.device_id) == Some(facts.device_id@)
    &&& p.workspace_id matches Some(id) && facts.workspace_id@ == id@
    &&& facts.argv@.len() == p.args@.len() + 1
    &&& facts.argv@[0]@ == pin.path@
    &&& forall|i: int| 0 <= i < p.args@.len() ==> facts.argv@[i + 1]@ == (#[trigger] p.args@[i])@
    &&& facts.canonical_cwd is None
    &&& facts.sanitized_env@.len() == 0
    &&& facts.executable.canonical_path@ == pin.path@
    &&& facts.executable.image_sha256@ == pin.content_sha256@
    &&& facts.executable.image_len == pin.len
}

/// What an authority that carries over consists of.
struct BrokerAuthority {
    operation_id: String,
    payload_hash: String,
    device_id: String,
    tenant_id: String,
    principal_id: String,
    generation: u64,
    expires_at_unix: i64,
}

impl BrokerAuthority {
    /// It is what the dispatch was bound to.
    spec fn is_of(self, binding: RemoteBinding) -> bool {
        &&& filled(binding.operation_id) == Some(self.operation_id@)
        &&& binding.payload_hash matches Some(hash) && self.payload_hash@ == hash@
        &&& filled(binding.device_id) == Some(self.device_id@)
        &&& binding.principal matches Some(key) && key@ == remote_key(
            self.tenant_id@,
            self.principal_id@,
        )
        &&& is_remote_part(self.tenant_id@)
        &&& is_remote_part(self.principal_id@)
        &&& binding.principal_credential_generation == Some(self.generation)
        &&& binding.expires_at_unix == Some(self.expires_at_unix)
    }
}

/// Takes over the authority of a dispatch.
fn broker_authority(binding: &RemoteBinding, now: i64) -> (r: Result<BrokerAuthority, IpcError>)
    ensures
        answers(r, broker_authority_refusal(*binding, now as int)),
        r matches Ok(authority) ==> authority.is_of(*binding),
{
    let operation_id = match filled_text(&binding.operation_id) {
        Some(id) => id,
        None => {
            return Err(broker_binding_error("remote operation id is required"));
        },
    };
    let hash = match &binding.payload_hash {
        Some(hash) => if is_lower_sha256(hash.as_str()) {
            Some(hash.clone())
        } else {
            None
        },
        None => None,
    };
    let payload_hash = match hash {
        Some(hash) => hash,
        None => {
            return Err(broker_binding_error("server exact payload hash is required"));
        },
    };
    let device_id = match filled_text(&binding.device_id) {
        Some(id) => id,
        None => {
            return Err(broker_binding_error("verified remote device id is required"));
        },
    };
    let principal = match &binding.principal {
        Some(principal) => principal,
        None => {
            return Err(broker_binding_error("verified remote principal is required"));
        },
    };
    let (tenant_id, principal_id) = match split_remote_principal(principal.as_str()) {
        Some((tenant, id)) => (tenant.to_owned(), id.to_owned()),
        None => {
            return Err(broker_binding_error("verified remote principal shape is invalid"));
        },
    };
    let generation: u64 = match binding.principal_credential_generation {
        Some(generation) => generation,
        None => 0,
    };
    if generation == 0 {
        return Err(
            broker_binding_error(
                "server-derived principal credential generation is required for elevation",
            ),
        );
    }
    match binding.expires_at_unix {
        Some(expires_at_unix) if expires_at_unix > now => Ok(
            BrokerAuthority {
                operation_id,
                payload_hash,
                device_id,
                tenant_id,
                principal_id,
                generation,
                expires_at_unix,
            },
        ),
        _ => Err(broker_binding_error("unexpired remote operation is required")),
    }
}

/// Holds a command to what can be handed over.
fn check_handoff<'a>(p: &'a ExecParams, pin_fault: Option<&str>) -> (r: Result<
    &'a ExecutablePin,
    IpcError,
>)
    ensures
        answers(
            r,
            handoff_refusal(
                *p,
                match pin_fault {
                    Some(fault) => Some(fault@),
                    None => None,
                },
            ),
        ),
        r matches Ok(pin) ==> p.executable_pin == Some(*pin),
{
    let pin = match &p.executable_pin {
        Some(pin) => pin,
        None => {
            return Err(
                broker_binding_error(
                    "server-pinned structured executable is required for elevation",
                ),
            );
        },
    };
    if !same_text(pin.policy_kind.as_str(), CommandKind::Structured.as_str()) {
        return Err(
            broker_binding_error(
                "elevated raw-shell execution is unsupported by the secure broker",
            ),
        );
    }
    if p.cwd.is_some() {
        return Err(
            broker_binding_error("elevated cwd handoff is unsupported by the secure broker"),
        );
    }
    if p.env.len() > 0 {
        return Err(
            broker_binding_error(
                "elevated environment overlays are unsupported by the secure broker",
            ),
        );
    }
    match pin_fault {
        Some(fault) => Err(
            broker_binding_error(
                join("executable identity changed before privileged handoff: ", fault).as_str(),
            ),
        ),
        None => Ok(pin),
    }
}

/// The argv of a command: the pinned path, then its arguments.
fn argv_of(path: &String, args: &Vec<String>) -> (argv: Vec<String>)
    ensures
        argv@.len() == args@.len() + 1,
        argv@[0]@ == path@,
        forall|i: int| 0 <= i < args@.len() ==> argv@[i + 1]@ == (#[trigger] args@[i])@,
{
    let mut argv: Vec<String> = Vec::new();
    argv.push(path.clone());
    let mut i: usize = 0;
    while i < args.len()
        invariant
            i <= args@.len(),
            argv@.len() == i + 1,
            argv@[0]@ == path@,
            forall|j: int| 0 <= j < i ==> argv@[j + 1]@ == (#[trigger] args@[j])@,
        decreases args.len() - i,
    {
        argv.push(args[i].clone());
        i += 1;
    }
    argv
}

/// The intent that a command is handed to the broker with.
pub open spec fn is_intent_of(
    intent: ExecuteIntent,
    p: ExecParams,
    binding: RemoteBinding,
    limits: BrokerLimits,
    issued_at: i64,
) -> bool {
    &&& is_fresh_id(intent.request_id@, "breq_"@)
    &&& is_fresh_id(intent.nonce@, "bnonce_"@)
    &&& filled(binding.operation_id) == Some(intent.operation_id@)
    &&& intent.issued_at_unix == issued_at
    &&& intent.expires_at_unix == intent_expiry(
        binding,
        issued_at as int,
        limits.capability_ttl_secs as int,
    )
    &&& facts_are_exact(intent.facts, p, binding, limits)
    &&& intent.mac@.len() == 0
}

/// Builds the intent by which an elevated command is handed over. It is bound to
/// the exact remote operation and to the pinned executable; `now` is when its
/// expiry is checked, `issued_at` when it is issued.
pub fn build_broker_execute_intent(
    p: &ExecParams,
    binding: &RemoteBinding,
    pin_fault: Option<&str>,
    limits: BrokerLimits,
    now: i64,
    issued_at: i64,
) -> (r: Result<ExecuteIntent, IpcError>)
    requires
        limits.hard_max_timeout_ms >= 1,
    ensures
        answers(
            r,
            intent_refusal(
                *p,
                *binding,
                match pin_fault {
                    Some(fault) => Some(fault@),
                    None => None,
                },
                limits,
                now as int,
                issued_at as int,
            ),
        ),
        r matches Ok(intent) ==> is_intent_of(intent, *p, *binding, limits, issued_at),
{
    let authority = match broker_authority(binding, now) {
        Ok(authority) => authority,
        Err(e) => {
            return Err(e);
        },
    };
    let pin = match check_handoff(p, pin_fault) {
        Ok(pin) => pin,
        Err(e) => {
            return Err(e);
        },
    };
    let own: i64 = saturating_add(issued_at, limits.capability_ttl_secs);
    let expires_at_unix: i64 = if authority.expires_at_unix < own {
        authority.expires_at_unix
    } else {
        own
    };
    if expires_at_unix <= issued_at {
        return Err(broker_binding_error("remote operation expires before broker handoff"));
    }
    let timeout_ms: u64 = timeout_of(p.timeout_ms, limits.hard_max_timeout_ms);
    let max_output_bytes: usize = output_bound_of(p.max_output_bytes);
    let workspace = match &p.workspace_id {
        Some(id) => if trimmed(id.as_str()).as_str().is_empty() {
            None
        } else {
            Some(id.clone())
        },
        None => None,
    };
    let workspace_id = match workspace {
        Some(id) => id,
        None => {
            return Err(broker_binding_error("server-bound workspace id is required"));
        },
    };
    let request_id = new_id("breq_");
    let nonce = new_id("bnonce_");
    let operation_id = authority.operation_id.clone();
    let facts = BrokerFacts {
        operation: authority.operation_id,
        remote_payload_sha256: authority.payload_hash,
        principal_id: authority.principal_id,
        tenant_id: authority.tenant_id,
        principal_credential_generation: authority.generation,
        timeout_ms,
        max_output_bytes,
        device_id: authority.device_id,
        workspace_id,
        argv: argv_of(&pin.path, &p.args),
        canonical_cwd: None,
        sanitized_env: Vec::new(),
        executable: BrokerExecutable {
            canonical_path: pin.path.clone(),
            image_sha256: pin.content_sha256.clone(),
            image_len: pin.len,
        },
    };
    Ok(
        ExecuteIntent {
            request_id,
            operation_id,
            nonce,
            issued_at_unix: issued_at,
            expires_at_unix,
            facts,
            mac: String::new(),
        },
    )
}

/// Attaches the authentication code of an intent.
pub fn sealed(intent: ExecuteIntent, mac: String) -> (r: ExecuteIntent)
    ensures
        r == (ExecuteIntent { mac, ..intent }),
{
    let mut intent = intent;
    intent.mac = mac;
    intent
}

/// An intent never outlives the remote operation that it carries out, nor its own
/// time.
pub proof fn law_intents_expire_with_the_operation(
    p: ExecParams,
    binding: RemoteBinding,
    pin_fault: Option<Seq<char>>,
    limits: BrokerLimits,
    now: int,
    issued_at: int,
)
    requires
        intent_refusal(p, binding, pin_fault, limits, now, issued_at) is None,
    ensures
        binding.expires_at_unix matches Some(expiry) && issued_at < intent_expiry(
            binding,
            issued_at,
            limits.capability_ttl_secs as int,
        ) <= expiry,
        intent_expiry(binding, issued_at, limits.capability_ttl_secs as int) <= saturated(
            issued_at + limits.capability_ttl_secs,
        ),
{
}

/// No command without a positive credential generation of a verified principal,
/// and none that a shell would run, is handed to the broker.
pub proof fn law_elevation_needs_exact_authority(
    p: ExecParams,
    binding: RemoteBinding,
    pin_fault: Option<Seq<char>>,
    limits: BrokerLimits,
    now: int,
    issued_at: int,
)
    requires
        intent_refusal(p, binding, pin_fault, limits, now, issued_at) is None,
    ensures
        binding.principal_credential_generation matches Some(g) && g > 0,
        binding.principal matches Some(key) && is_split(key@),
        binding.payload_hash matches Some(hash) && is_sha256_text(hash@),
        p.executable_pin matches Some(pin) && pin.policy_kind@ == "structured"@,
        pin_fault is None,
        p.cwd is None,
        p.env@.len() == 0,
{
}

/// The broker's answer.
#[derive(Debug)]
pub struct BrokerResponse {
    pub request_id: String,
    pub ok: bool,
    pub exit_code: Option<i32>,
    pub stdout: String,
    pub stderr: String,
    pub error: Option<String>,
    pub timed_out: bool,
    pub cancelled: bool,
    pub truncated: bool,
    pub duration_ms: u64,
}

/// The result of a command that the broker carried out.
pub open spec fn broker_body(response: BrokerResponse) -> JsonV {
    JsonV::Object(
        Map::<Seq<char>, JsonV>::empty().insert(
            "exit_code"@,
            match response.exit_code {
                Some(code) => JsonV::Integer(code as int),
                None => JsonV::Null,
            },
        ).insert("stdout"@, JsonV::Str(response.stdout@)).insert(
            "stderr"@,
            JsonV::Str(response.stderr@),
        ).insert("timed_out"@, JsonV::Bool(response.timed_out)).insert(
            "cancelled"@,
            JsonV::Bool(response.cancelled),
        ).insert("duration_ms"@, JsonV::Integer(response.duration_ms as int)).insert(
            "truncated"@,
            JsonV::Bool(response.truncated),
        ).insert("replayed"@, JsonV::Bool(false)),
    )
}

/// Why an answer of the broker is no result.
pub open spec fn response_refusal(response: BrokerResponse) -> Refusal {
    if response.ok {
        None
    } else {
        Some(
            (
                if response.cancelled || response.timed_out {
                    ErrorCode::Conflict
                } else {
                    ErrorCode::Internal
                },
                "privileged broker rejected execution: "@ + (match response.error {
                    Some(error) => error@,
                    None => "unknown broker failure"@,
                }),
            ),
        )
    }
}

/// Turns the broker's answer into a result. Only a positive answer is one.
pub fn broker_response_value(response: &BrokerResponse) -> (r: Result<JsonObject, IpcError>)
    ensures
        answers(r, response_refusal(*response)),
        r matches Ok(object) ==> JsonV::Object(object@) == broker_body(*response),
{
    if !response.ok {
        let code = if response.cancelled || response.timed_out {
            ErrorCode::Conflict
        } else {
            ErrorCode::Internal
        };
        let message = match &response.error {
            Some(error) => join("privileged broker rejected execution: ", error.as_str()),
            None => join("privileged broker rejected execution: ", "unknown broker failure"),
        };
        return Err(IpcError::with_message(code, message));
    }
    let mut object = JsonObject::new();
    object.put(
        "exit_code",
        match response.exit_code {
            Some(code) => Json::Integer(code as i128),
            None => Json::Null,
        },
    );
    object.put("stdout", Json::text(response.stdout.as_str()));
    object.put("stderr", Json::text(response.stderr.as_str()));
    object.put("timed_out", Json::Bool(response.timed_out));
    object.put("cancelled", Json::Bool(response.cancelled));
    object.put("duration_ms", Json::Integer(response.duration_ms as i128));
    object.put("truncated", Json::Bool(response.truncated));
    object.put("replayed", Json::Bool(false));
    Ok(object)
}

/// How a failure of the broker's client is told.
pub open spec fn is_client_failure(
    failure: ExecutionFailure,
    uncertain: bool,
    message: Seq<char>,
) -> bool {
    &&& failure.uncertain == uncertain
    &&& failure.error.is(
        if uncertain {
            ErrorCode::Conflict
        } else {
            ErrorCode::Internal
        },
        "privileged broker execution failed: "@ + message,
    )
}

/// The failure of an exchange with the broker. An intent that may have reached the
/// broker leaves the outcome uncertain: the marker of the operation stays, so that
/// no retry spawns the same privileged action twice.
pub fn broker_client_error(uncertain: bool, message: &str) -> (failure: ExecutionFailure)
    ensures
        is_client_failure(failure, uncertain, message@),
{
    let code = if uncertain {
        ErrorCode::Conflict
    } else {
        ErrorCode::Internal
    };
    let error = IpcError::with_message(code, join("privileged broker execution failed: ", message));
    ExecutionFailure { error, uncertain }
}

/// Family of platforms that has a broker of its own.
#[derive(Debug, Clone, Copy, PartialEq, Eq, Structural)]
pub enum BrokerPlatform {
    Unix,
    Windows,
    Unsupported,
}

/// What was found of the broker before the hand-off.
#[derive(Debug, Clone, Copy, PartialEq, Eq, Structural)]
pub enum BrokerCustody {
    /// The running daemon image could not be told.
    UnknownImage,
    /// The installed broker is missing or does not validate.
    Unavailable,
    /// It validates.
    Attested,
}

/// Why the broker is not asked.
pub open spec fn custody_refusal(platform: BrokerPlatform, custody: BrokerCustody) -> Refusal {
    match (platform, custody) {
        (BrokerPlatform::Unsupported, _) => Some(
            (
                ErrorCode::Internal,
                "unsupported: elevated execution has no native broker implementation on this platform"@,
            ),
        ),
        (BrokerPlatform::Unix, BrokerCustody::UnknownImage) => Some(
            (
                ErrorCode::Internal,
                "elevated execution cannot resolve the running daemon image (fail-closed)"@,
            ),
        ),
        (BrokerPlatform::Windows, BrokerCustody::UnknownImage) => Some(
            (
                ErrorCode::Internal,
                "elevated execution cannot resolve the running Windows daemon image (fail-closed)"@,
            ),
        ),
        (BrokerPlatform::Unix, BrokerCustody::Unavailable) => Some(
            (
                ErrorCode::Internal,
                "unsupported: elevated execution requires a custody-attested installed native broker; broker unavailable or custody validation failed (fail-closed; no local exec)"@,
            ),
        ),
        (BrokerPlatform::Windows, BrokerCustody::Unavailable) => Some(
            (
                ErrorCode::Internal,
                "unsupported: elevated execution requires the fixed LocalSystem Windows broker custody installation; broker unavailable or custody validation failed (fail-closed; no local exec)"@,
            ),
        ),
        (_, BrokerCustody::Attested) => None,
    }
}

/// Requires a broker that validates.
pub fn try_broker_elevated(platform: BrokerPlatform, custody: BrokerCustody) -> (r: Result<
    (),
    IpcError,
>)
    ensures
        answers(r, custody_refusal(platform, custody)),
{
    match (platform, custody) {
        (BrokerPlatform::Unsupported, _) => Err(
            IpcError::new(
                ErrorCode::Internal,
                "unsupported: elevated execution has no native broker implementation on this platform",
            ),
        ),
        (BrokerPlatform::Unix, BrokerCustody::UnknownImage) => Err(
            IpcError::new(
                ErrorCode::Internal,
                "elevated execution cannot resolve the running daemon image (fail-closed)",
            ),
        ),
        (BrokerPlatform::Windows, BrokerCustody::UnknownImage) => Err(
            IpcError::new(
                ErrorCode::Internal,
                "elevated execution cannot resolve the running Windows daemon image (fail-closed)",
            ),
        ),
        (BrokerPlatform::Unix, BrokerCustody::Unavailable) => Err(
            IpcError::new(
                ErrorCode::Internal,
                "unsupported: elevated execution requires a custody-attested installed native broker; broker unavailable or custody validation failed (fail-closed; no local exec)",
            ),
        ),
        (BrokerPlatform::Windows, BrokerCustody::Unavailable) => Err(
            IpcError::new(
                ErrorCode::Internal,
                "unsupported: elevated execution requires the fixed LocalSystem Windows broker custody installation; broker unavailable or custody validation failed (fail-closed; no local exec)",
            ),
        ),
        (_, BrokerCustody::Attested) => Ok(()),
    }
}

/// What was found of the broker after its answer.
#[derive(Debug, Clone, Copy, PartialEq, Eq, Structural)]
pub enum Reattestation {
    /// It does not validate any more.
    Failed,
    /// It validates, under another identity.
    Changed,
    /// It is the one that was asked.
    Same,
}

/// Why an answer is not taken as the outcome of an intent.
pub open spec fn outcome_refusal(
    platform: BrokerPlatform,
    request_id: Seq<char>,
    response: BrokerResponse,
    after: Reattestation,
) -> Refusal {
    let windows = platform == BrokerPlatform::Windows;
    if response.request_id@ != request_id {
        Some(
            (
                ErrorCode::Internal,
                "broker response request-id mismatch; outcome remains uncertain"@,
            ),
        )
    } else if after == Reattestation::Failed {
        Some(
            (
                ErrorCode::Conflict,
                if windows {
                    "Windows broker or daemon custody changed after execution; outcome is uncertain and must not be retried"@
                } else {
                    "broker custody changed after execution; outcome is uncertain and must not be retried"@
                },
            ),
        )
    } else if after == Reattestation::Changed {
        Some(
            (
                ErrorCode::Conflict,
                if windows {
                    "Windows broker trust identity changed after execution; outcome is uncertain and must not be retried"@
                } else {
                    "broker trust identity changed after execution; outcome is uncertain and must not be retried"@
                },
            ),
        )
    } else {
        response_refusal(response)
    }
}

/// The outcome cannot be told: the answer is not to this intent, or not by a broker
/// that is attested still. A refusal of this intent by that broker is certain.
pub open spec fn outcome_is_uncertain(
    request_id: Seq<char>,
    response: BrokerResponse,
    after: Reattestation,
) -> bool {
    response.request_id@ != request_id || after != Reattestation::Same
}

/// A failure whose outcome is uncertain.
fn uncertain(code: ErrorCode, message: &str) -> (failure: ExecutionFailure)
    ensures
        failure.uncertain,
        failure.error.is(code, message@),
{
    ExecutionFailure { error: IpcError::new(code, message), uncertain: true }
}

/// Takes the broker's answer as the outcome of an intent, once the broker was
/// attested again.
pub fn broker_outcome(
    platform: BrokerPlatform,
    request_id: &str,
    response: &BrokerResponse,
    after: Reattestation,
) -> (r: Result<JsonObject, ExecutionFailure>)
    ensures
        match outcome_refusal(platform, request_id@, *response, after) {
            Some((code, message)) => r matches Err(failure) && failure.error.is(code, message)
                && failure.uncertain == outcome_is_uncertain(request_id@, *response, after),
            None => r matches Ok(object) && JsonV::Object(object@) == broker_body(*response),
        },
{
    let windows = matches!(platform, BrokerPlatform::Windows);
    if !same_text(response.request_id.as_str(), request_id) {
        return Err(
            uncertain(
                ErrorCode::Internal,
                "broker response request-id mismatch; outcome remains uncertain",
            ),
        );
    }
    match after {
        Reattestation::Failed => {
            let message = if windows {
                "Windows broker or daemon custody changed after execution; outcome is uncertain and must not be retried"
            } else {
                "broker custody changed after execution; outcome is uncertain and must not be retried"
            };
            return Err(uncertain(ErrorCode::Conflict, message));
        },
        Reattestation::Changed => {
            let message = if windows {
                "Windows broker trust identity changed after execution; outcome is uncertain and must not be retried"
            } else {
                "broker trust identity changed after execution; outcome is uncertain and must not be retried"
            };
            return Err(uncertain(ErrorCode::Conflict, message));
        },
        Reattestation::Same => {},
    }
    match broker_response_value(response) {
        Ok(object) => Ok(object),
        Err(error) => Err(ExecutionFailure::definite(error)),
    }
}

/// A result comes only from a positive answer to this very intent, by the broker
/// that was attested before and after.
pub proof fn law_only_attested_success_is_a_result(
    platform: BrokerPlatform,
    request_id: Seq<char>,
    response: BrokerResponse,
    after: Reattestation,
)
    ensures
        outcome_refusal(platform, request_id, response, after) is None <==> response.ok
            && response.request_id@ == request_id && after == Reattestation::Same,
{
}

/// Where a cancellable execution over the pipe stands.
#[derive(Debug, Clone, Copy, PartialEq, Eq, Structural)]
pub enum PipeState {
    /// The intent is not submitted yet.
    Unsubmitted,
    /// Waiting for the answer, and for a cancellation while the channel is open.
    Waiting { channel_open: bool },
    /// A cancellation is being delivered.
    Cancelling,
}

/// What happened to a cancellable execution.
#[derive(Debug, Clone, Copy, PartialEq, Eq, Structural)]
pub enum PipeEvent {
    /// The cancellation flag, as it was read.
    Flag(bool),
    /// The sender of cancellations is gone.
    ChannelClosed,
    /// The answer to the intent came.
    Answered,
    /// The delivery of the cancellation ended, well or not.
    Delivered,
}

/// What a cancellable execution does next.
#[derive(Debug, Clone, Copy, PartialEq, Eq, Structural)]
pub enum PipeAction {
    /// Submit the intent and wait.
    Submit,
    /// Wait on in a state.
    Wait(PipeState),
    /// Deliver a cancellation over a pipe of its own.
    Cancel,
    /// Return the answer.
    Finish,
    /// Give up before anything was submitted: never try again automatically.
    AbandonUnsubmitted,
    /// Close the pipe of the intent: the outcome is uncertain.
    AbandonSubmitted,
}

/// What a cancellable execution does next.
pub open spec fn next_pipe_action(state: PipeState, event: PipeEvent) -> PipeAction {
    match (state, event) {
        (PipeState::Unsubmitted, PipeEvent::Flag(true)) => PipeAction::AbandonUnsubmitted,
        (PipeState::Unsubmitted, _) => PipeAction::Submit,
        (_, PipeEvent::Answered) => PipeAction::Finish,
        (PipeState::Waiting { channel_open: _ }, PipeEvent::ChannelClosed) => PipeAction::Wait(
            PipeState::Waiting { channel_open: false },
        ),
        (PipeState::Waiting { channel_open: true }, PipeEvent::Flag(true)) => PipeAction::Cancel,
        (PipeState::Waiting { channel_open }, _) => PipeAction::Wait(
            PipeState::Waiting { channel_open },
        ),
        (PipeState::Cancelling, PipeEvent::Delivered) => PipeAction::AbandonSubmitted,
        (PipeState::Cancelling, _) => PipeAction::Wait(PipeState::Cancelling),
    }
}

/// Decides what a cancellable execution does next.
pub fn execute_windows_broker_with_cancel(state: PipeState, event: PipeEvent) -> (action: PipeAction)
    ensures
        action == next_pipe_action(state, event),
{
    match (state, event) {
        (PipeState::Unsubmitted, PipeEvent::Flag(true)) => PipeAction::AbandonUnsubmitted,
        (PipeState::Unsubmitted, _) => PipeAction::Submit,
        (_, PipeEvent::Answered) => PipeAction::Finish,
        (PipeState::Waiting { channel_open: _ }, PipeEvent::ChannelClosed) => PipeAction::Wait(
            PipeState::Waiting { channel_open: false },
        ),
        (PipeState::Waiting { channel_open: true }, PipeEvent::Flag(true)) => PipeAction::Cancel,
        (PipeState::Waiting { channel_open }, _) => PipeAction::Wait(
            PipeState::Waiting { channel_open },
        ),
        (PipeState::Cancelling, PipeEvent::Delivered) => PipeAction::AbandonSubmitted,
        (PipeState::Cancelling, _) => PipeAction::Wait(PipeState::Cancelling),
    }
}

/// A cancellation never replaces the answer: once submitted, an execution ends
/// with its own answer or with an uncertain outcome, and a lost sender of
/// cancellations cancels nothing.
pub proof fn law_only_the_answer_finishes(state: PipeState, event: PipeEvent)
    requires
        state != PipeState::Unsubmitted,
    ensures
        next_pipe_action(state, event) == PipeAction::Finish <==> event == PipeEvent::Answered,
        event == PipeEvent::ChannelClosed ==> next_pipe_action(state, event) is Wait,
{
}

/// Why an execution was given up; its outcome counts as uncertain.
pub fn abandoned_reason(submitted: bool) -> (reason: &'static str)
    ensures
        reason@ == (if submitted {
            "local cancellation closed the original Windows execute pipe; broker outcome is non-retriable"@
        } else {
            "Windows broker execution was cancelled before submission; outer operation must not retry automatically"@
        }),
{
    if submitted {
        "local cancellation closed the original Windows execute pipe; broker outcome is non-retriable"
    } else {
        "Windows broker execution was cancelled before submission; outer operation must not retry automatically"
    }
}

/// A positive answer of the broker is told field by field: each output, the exit and the
/// four other facts stand under their own names.
pub proof fn law_broker_results_are_told_by_field(response: BrokerResponse)
    ensures
        broker_body(response).get("stdout"@) == Some(JsonV::Str(response.stdout@)),
        broker_body(response).get("stderr"@) == Some(JsonV::Str(response.stderr@)),
        broker_body(response).get("timed_out"@) == Some(JsonV::Bool(response.timed_out)),
        broker_body(response).get("cancelled"@) == Some(JsonV::Bool(response.cancelled)),
        broker_body(response).get("truncated"@) == Some(JsonV::Bool(response.truncated)),
        broker_body(response).get("duration_ms"@) == Some(JsonV::Integer(response.duration_ms as int)),
        broker_body(response).get("replayed"@) == Some(JsonV::Bool(false)),
        response.exit_code matches Some(code) ==> broker_body(response).get("exit_code"@) == Some(
            JsonV::Integer(code as int),
        ),
        response.exit_code is None ==> broker_body(response).get("exit_code"@) == Some(JsonV::Null),
        forall|name: Seq<char>| #[trigger]
            broker_body(response).get(name) is Some ==> (
            name == "stdout"@
            || name == "stderr"@
            || name == "timed_out"@
            || name == "cancelled"@
            || name == "truncated"@
            || name == "duration_ms"@
            || name == "replayed"@
            || name == "exit_code"@),
{
    reveal_strlit("stdout");
    reveal_strlit("stderr");
    reveal_strlit("timed_out");
    reveal_strlit("cancelled");
    reveal_strlit("truncated");
    reveal_strlit("duration_ms");
    reveal_strlit("replayed");
    reveal_strlit("exit_code");
    assert("stdout"@.len() == 6 && "stderr"@.len() == 6 && "timed_out"@.len() == 9 && "cancelled"@.len() == 9 && "truncated"@.len() == 9 && "duration_ms"@.len() == 11 && "replayed"@.len() == 8 && "exit_code"@.len() == 9);
    assert("stdout"@[3] != "stderr"@[3]);
    assert("timed_out"@[0] != "cancelled"@[0]);
    assert("timed_out"@[1] != "truncated"@[1]);
    assert("timed_out"@[0] != "exit_code"@[0]);
    assert("cancelled"@[0] != "truncated"@[0]);
    assert("cancelled"@[0] != "exit_code"@[0]);
    assert("truncated"@[0] != "exit_code"@[0]);
}

/// The broker's answer is a result exactly where it says so; a refusal that came of a
/// cancellation or a timeout is a conflict, any other a failure, and the broker's own
/// words are told.
pub proof fn law_broker_refusals_are_told(response: BrokerResponse)
    ensures
        response_refusal(response) is None <==> response.ok,
        response_refusal(response) matches Some((code, _)) ==> (code == ErrorCode::Conflict
            <==> response.cancelled || response.timed_out) && (code == ErrorCode::Internal <==> !(
        response.cancelled || response.timed_out)),
        !response.ok ==> (response.error matches Some(error) ==> (response_refusal(
            response,
        ) matches Some((_, text)) && text == "privileged broker rejected execution: "@ + error@)),
{
}

/// An outcome is uncertain exactly where the answer is to another intent, or the
/// broker is not attested as the one that was asked; then it is refused. What is
/// certain is taken as the broker says.
pub proof fn law_uncertain_outcomes_are_refused(
    platform: BrokerPlatform,
    request_id: Seq<char>,
    response: BrokerResponse,
    after: Reattestation,
)
    ensures
        outcome_is_uncertain(request_id, response, after) <==> response.request_id@ != request_id
            || after == Reattestation::Failed || after == Reattestation::Changed,
        outcome_is_uncertain(request_id, response, after) ==> outcome_refusal(
            platform,
            request_id,
            response,
            after,
        ) is Some,
        !outcome_is_uncertain(request_id, response, after) ==> outcome_refusal(
            platform,
            request_id,
            response,
            after,
        ) == response_refusal(response),
        response.request_id@ == request_id && after != Reattestation::Same ==> (outcome_refusal(
            platform,
            request_id,
            response,
            after,
        ) matches Some((code, _)) && code == ErrorCode::Conflict),
{
}

/// The broker is asked only where the platform has one and it is attested.
pub proof fn law_only_attested_brokers_are_asked(platform: BrokerPlatform, custody: BrokerCustody)
    ensures
        custody_refusal(platform, custody) is None <==> platform != BrokerPlatform::Unsupported
            && custody == BrokerCustody::Attested,
        custody_refusal(platform, custody) matches Some((code, _)) ==> code == ErrorCode::Internal,
{
}

/// An intent carries what was authorised and nothing else: the operation, payload,
/// principal, generation, device and workspace of the binding, and the pinned
/// executable with the arguments that were asked for, under the bounds asked for.
pub proof fn law_intents_carry_what_was_authorised(
    facts: BrokerFacts,
    p: ExecParams,
    binding: RemoteBinding,
    limits: BrokerLimits,
)
    requires
        facts_are_exact(facts, p, binding, limits),
        p.executable_pin is Some,
        limits.hard_max_timeout_ms >= 1,
    ensures
        binding.operation_id matches Some(id) && facts.operation@ == trim(id@),
        binding.payload_hash matches Some(hash) && facts.remote_payload_sha256@ == hash@,
        binding.principal matches Some(key) && key@ == "client:remote:"@ + facts.tenant_id@
            + seq![':'] + facts.principal_id@,
        binding.principal_credential_generation == Some(facts.principal_credential_generation),
        binding.device_id matches Some(id) && facts.device_id@ == trim(id@),
        p.workspace_id matches Some(id) && facts.workspace_id@ == id@,
        facts.argv@.len() == p.args@.len() + 1,
        facts.argv@[0]@ == p.executable_pin->0.path@,
        forall|i: int|
            #![trigger facts.argv@[i]]
            1 <= i < facts.argv@.len() ==> facts.argv@[i]@ == p.args@[i - 1]@,
        facts.executable.canonical_path@ == p.executable_pin->0.path@,
        facts.executable.image_sha256@ == p.executable_pin->0.content_sha256@,
        facts.executable.image_len == p.executable_pin->0.len,
        facts.canonical_cwd is None,
        facts.sanitized_env@.len() == 0,
        1 <= facts.timeout_ms <= limits.hard_max_timeout_ms,
        p.timeout_ms matches Some(t) ==> (1 <= t <= limits.hard_max_timeout_ms ==> facts.timeout_ms
            == t),
        p.timeout_ms is None && limits.hard_max_timeout_ms >= 30_000 ==> facts.timeout_ms
            == 30_000,
        1 <= facts.max_output_bytes <= 200_000,
        p.max_output_bytes matches Some(n) ==> (1 <= n <= 200_000 ==> facts.max_output_bytes == n),
        p.max_output_bytes is None ==> facts.max_output_bytes == 131_072,
{
    assert forall|i: int|
        #![trigger facts.argv@[i]]
        1 <= i < facts.argv@.len() implies facts.argv@[i]@ == p.args@[i - 1]@ by {
        assert(facts.argv@[(i - 1) + 1]@ == p.args@[i - 1]@);
    }
}

/// An intent ends with the operation or with its own time, whichever comes first.
pub proof fn law_intents_end_in_time(binding: RemoteBinding, issued_at: int, ttl: int)
    requires
        binding.expires_at_unix is Some,
        i64::MIN <= issued_at + ttl <= i64::MAX,
    ensures
        intent_expiry(binding, issued_at, ttl) <= binding.expires_at_unix->0,
        intent_expiry(binding, issued_at, ttl) <= issued_at + ttl,
        intent_expiry(binding, issued_at, ttl) == binding.expires_at_unix->0 || intent_expiry(
            binding,
            issued_at,
            ttl,
        ) == issued_at + ttl,
{
}

/// Elevation is refused without any one of the facts that bind it, and only then.
pub proof fn law_elevation_is_refused_without_its_facts(
    p: ExecParams,
    binding: RemoteBinding,
    pin_fault: Option<Seq<char>>,
    limits: BrokerLimits,
    now: int,
    issued_at: int,
)
    ensures
        intent_refusal(p, binding, pin_fault, limits, now, issued_at) is None <==> {
            &&& binding.operation_id matches Some(id) && trim(id@).len() > 0
            &&& binding.payload_hash matches Some(hash) && is_sha256_text(hash@)
            &&& binding.device_id matches Some(id) && trim(id@).len() > 0
            &&& binding.principal matches Some(key) && is_split(key@)
            &&& binding.principal_credential_generation matches Some(g) && g > 0
            &&& binding.expires_at_unix matches Some(expiry) && expiry > now
            &&& p.executable_pin matches Some(pin) && pin.policy_kind@ == "structured"@
            &&& p.cwd is None
            &&& p.env@.len() == 0
            &&& pin_fault is None
            &&& issued_at < intent_expiry(binding, issued_at, limits.capability_ttl_secs as int)
            &&& p.workspace_id matches Some(id) && trim(id@).len() > 0
        },
        intent_refusal(p, binding, pin_fault, limits, now, issued_at) matches Some((code, _))
            ==> code == ErrorCode::Unauthorized,
{
}

/// Before the intent is submitted a cancellation ends it with nothing done; behind
/// that it is delivered once, and then the outcome is given up as uncertain unless
/// the answer came.
pub proof fn law_cancellations_are_delivered(state: PipeState, event: PipeEvent)
    ensures
        next_pipe_action(state, event) == PipeAction::AbandonUnsubmitted <==> state
            == PipeState::Unsubmitted && event == PipeEvent::Flag(true),
        next_pipe_action(state, event) == PipeAction::Submit <==> state == PipeState::Unsubmitted
            && event != PipeEvent::Flag(true),
        next_pipe_action(state, event) == PipeAction::Cancel <==> (state == PipeState::Waiting {
            channel_open: true,
        }) && event == PipeEvent::Flag(true),
        next_pipe_action(state, event) == PipeAction::AbandonSubmitted <==> state
            == PipeState::Cancelling && event == PipeEvent::Delivered,
        next_pipe_action(state, event) matches PipeAction::Wait(next) ==> (if state
            == PipeState::Cancelling {
            next == PipeState::Cancelling
        } else {
            next matches PipeState::Waiting { channel_open } && (channel_open ==> state
                == PipeState::Waiting { channel_open: true } && event != PipeEvent::ChannelClosed)
        }),
{
}

/// An intent is for the operation of its dispatch, issued when it was asked for, not yet
/// authenticated, and over the command's facts; its request and its nonce are its own.
pub proof fn law_intents_are_of_their_operation(
    intent: ExecuteIntent,
    p: ExecParams,
    binding: RemoteBinding,
    limits: BrokerLimits,
    issued_at: i64,
)
    requires
        is_intent_of(intent, p, binding, limits, issued_at),
    ensures
        binding.operation_id matches Some(id) && intent.operation_id@ == trim(id@),
        intent.operation_id@ == intent.facts.operation@,
        intent.issued_at_unix == issued_at,
        intent.expires_at_unix == intent_expiry(
            binding,
            issued_at as int,
            limits.capability_ttl_secs as int,
        ),
        facts_are_exact(intent.facts, p, binding, limits),
        intent.mac@.len() == 0,
        intent.request_id@ != intent.nonce@,
{
    reveal_strlit("breq_");
    reveal_strlit("bnonce_");
    assert("breq_"@.len() == 5 && "bnonce_"@.len() == 7);
}

/// A failure that leaves the outcome open is a conflict and is marked uncertain; any
/// other is internal and definite.
pub proof fn law_open_outcomes_are_uncertain(
    failure: ExecutionFailure,
    uncertain: bool,
    message: Seq<char>,
)
    requires
        is_client_failure(failure, uncertain, message),
    ensures
        failure.uncertain <==> uncertain,
        failure.error.code == ErrorCode::Conflict <==> uncertain,
        failure.error.code == ErrorCode::Internal <==> !uncertain,
{
}

} // verus!

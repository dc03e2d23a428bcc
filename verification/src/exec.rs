//! Command execution: what a request is admitted with, pinned to and bounded by.
use crate::admin::PolicyState;
use crate::approvals::{answers, OperationFacts, Refusal};
use crate::approve::{optional_text, text_or_null};
use crate::error::{ErrorCode, IpcError};
use crate::json::{Json, JsonObject, JsonV};
use crate::params::{
    executable_identity_from_pin, identity_of, preset_name, preset_text, AccessPreset, ExecParams,
    ExecutableIdentityBinding, ExecutablePin,
};
use crate::sidecar::{fs_err, fs_refusal, FsFailure};
use crate::text::{byte_len, chars_of, copy_text, join, join3, trim, trimmed, utf8_len};
use crate::workspace::{lookup_refusal, selected_id, selects, workspace_for, WorkspaceEntry};
use vstd::prelude::*;
use vstd::string::*;

verus! {

/// Whether a command runs as argv of one program or through a shell.
#[derive(Debug, Clone, Copy, PartialEq, Eq, Structural)]
pub enum CommandKind {
    Structured,
    RawShell,
}

impl CommandKind {
    /// Name of the kind in policies.
    pub open spec fn name(self) -> Seq<char> {
        match self {
            CommandKind::Structured => "structured"@,
            CommandKind::RawShell => "raw_shell"@,
        }
    }

    /// Name of the kind in policies.
    pub fn as_str(self) -> (s: &'static str)
        ensures
            s@ == self.name(),
    {
        match self {
            CommandKind::Structured => "structured",
            CommandKind::RawShell => "raw_shell",
        }
    }
}

/// Most entries of an environment overlay.
pub const MAX_ENV_ENTRIES: usize = 32;

/// Most bytes of one name in an environment overlay.
pub const MAX_ENV_KEY_BYTES: usize = 128;

/// Most bytes of one value in an environment overlay.
pub const MAX_ENV_VALUE_BYTES: usize = 4096;

/// Most bytes of an environment overlay.
pub const MAX_ENV_TOTAL_BYTES: usize = 16384;

/// A text that holds a character.
pub open spec fn holds(s: Seq<char>, c: char) -> bool {
    exists|i: int| 0 <= i < s.len() && #[trigger] s[i] == c
}

/// Whether a text holds a character.
pub fn contains_char(s: &str, c: char) -> (b: bool)
    ensures
        b == holds(s@, c),
{
    let chars = chars_of(s);
    let mut i: usize = 0;
    while i < chars.len()
        invariant
            i <= chars@.len(),
            chars@ == s@,
            forall|j: int| 0 <= j < i ==> #[trigger] s@[j] != c,
        decreases chars.len() - i,
    {
        if chars[i] == c {
            assert(s@[i as int] == c);
            return true;
        }
        i += 1;
    }
    false
}

/// A name that an environment overlay may hold.
pub open spec fn is_env_key(key: Seq<char>) -> bool {
    key.len() > 0 && utf8_len(key) <= MAX_ENV_KEY_BYTES && !holds(key, '\0') && !holds(key, '=')
}

/// A value that an environment overlay may hold.
pub open spec fn is_env_value(value: Seq<char>) -> bool {
    utf8_len(value) <= MAX_ENV_VALUE_BYTES && !holds(value, '\0')
}

/// Bytes of the first entries.
pub open spec fn env_bytes(raw: Seq<(String, String)>, n: int) -> int
    decreases n,
{
    if n <= 0 {
        0
    } else {
        env_bytes(raw, n - 1) + utf8_len(raw[n - 1].0@) + utf8_len(raw[n - 1].1@)
    }
}

/// Why one entry of an overlay is refused, those before it being in order.
pub open spec fn env_entry_refusal(raw: Seq<(String, String)>, k: int) -> Refusal {
    if !is_env_key(raw[k].0@) {
        Some((ErrorCode::InvalidParams, "env key is empty, too long, or contains NUL/="@))
    } else if !is_env_value(raw[k].1@) {
        Some((ErrorCode::InvalidParams, "env value is too long or contains NUL"@))
    } else if env_bytes(raw, k + 1) > MAX_ENV_TOTAL_BYTES {
        Some((ErrorCode::InvalidParams, "env exceeds 16384 total bytes"@))
    } else {
        None
    }
}

/// Why the entries from one on are refused: the first that is not in order.
pub open spec fn env_refusal_from(raw: Seq<(String, String)>, k: int) -> Refusal
    decreases raw.len() - k,
{
    if k >= raw.len() {
        None
    } else if env_entry_refusal(raw, k) is Some {
        env_entry_refusal(raw, k)
    } else {
        env_refusal_from(raw, k + 1)
    }
}

/// Why an overlay is refused.
pub open spec fn env_refusal(raw: Seq<(String, String)>) -> Refusal {
    if raw.len() > MAX_ENV_ENTRIES {
        Some((ErrorCode::InvalidParams, "env exceeds 32 entries"@))
    } else {
        env_refusal_from(raw, 0)
    }
}

/// The two overlays hold the same names and values.
pub open spec fn same_env(a: Seq<(String, String)>, b: Seq<(String, String)>) -> bool {
    a.len() == b.len() && forall|i: int|
        0 <= i < a.len() ==> (#[trigger] a[i]).0@ == b[i].0@ && a[i].1@ == b[i].1@
}

/// Bounds an environment overlay before anything is spawned with it.
pub fn sanitize_exec_env(raw: &Vec<(String, String)>) -> (r: Result<Vec<(String, String)>, IpcError>)
    ensures
        answers(r, env_refusal(raw@)),
        r matches Ok(out) ==> same_env(out@, raw@),
{
    if raw.len() > MAX_ENV_ENTRIES {
        return Err(IpcError::new(ErrorCode::InvalidParams, "env exceeds 32 entries"));
    }
    let mut out: Vec<(String, String)> = Vec::new();
    let mut total: usize = 0;
    let mut i: usize = 0;
    while i < raw.len()
        invariant
            i <= raw@.len(),
            raw@.len() <= MAX_ENV_ENTRIES,
            total == env_bytes(raw@, i as int),
            total <= MAX_ENV_TOTAL_BYTES,
            env_refusal(raw@) == env_refusal_from(raw@, i as int),
            out@.len() == i,
            forall|j: int|
                0 <= j < i ==> (#[trigger] out@[j]).0@ == raw@[j].0@ && out@[j].1@ == raw@[j].1@,
        decreases raw.len() - i,
    {
        let key = raw[i].0.as_str();
        let value = raw[i].1.as_str();
        let key_len: usize = byte_len(key);
        let value_len: usize = byte_len(value);
        let ghost refusal = env_entry_refusal(raw@, i as int);
        assert(env_refusal_from(raw@, i as int) == if refusal is Some {
            refusal
        } else {
            env_refusal_from(raw@, i + 1)
        });
        if key.is_empty() || key_len > MAX_ENV_KEY_BYTES || contains_char(key, '\0')
            || contains_char(key, '=') {
            return Err(
                IpcError::new(
                    ErrorCode::InvalidParams,
                    "env key is empty, too long, or contains NUL/=",
                ),
            );
        }
        if value_len > MAX_ENV_VALUE_BYTES || contains_char(value, '\0') {
            return Err(
                IpcError::new(ErrorCode::InvalidParams, "env value is too long or contains NUL"),
            );
        }
        total = total + key_len + value_len;
        if total > MAX_ENV_TOTAL_BYTES {
            return Err(IpcError::new(ErrorCode::InvalidParams, "env exceeds 16384 total bytes"));
        }
        out.push((key.to_owned(), value.to_owned()));
        i += 1;
    }
    Ok(out)
}

/// An accepted overlay is within every bound.
pub proof fn law_accepted_overlays_are_bounded(raw: Seq<(String, String)>)
    requires
        env_refusal(raw) is None,
    ensures
        raw.len() <= MAX_ENV_ENTRIES,
        env_bytes(raw, raw.len() as int) <= MAX_ENV_TOTAL_BYTES,
        forall|i: int|
            0 <= i < raw.len() ==> is_env_key((#[trigger] raw[i]).0@) && is_env_value(raw[i].1@),
{
    lemma_accepted_from(raw, 0);
}

/// What holds of the entries from one on, where none is refused.
proof fn lemma_accepted_from(raw: Seq<(String, String)>, k: int)
    requires
        0 <= k <= raw.len(),
        env_refusal_from(raw, k) is None,
        env_bytes(raw, k) <= MAX_ENV_TOTAL_BYTES,
    ensures
        env_bytes(raw, raw.len() as int) <= MAX_ENV_TOTAL_BYTES,
        forall|i: int|
            k <= i < raw.len() ==> is_env_key((#[trigger] raw[i]).0@) && is_env_value(raw[i].1@),
    decreases raw.len() - k,
{
    if k < raw.len() {
        lemma_accepted_from(raw, k + 1);
    }
}

/// Most detached commands at one time.
pub const MAX_DETACHED_COMMANDS: usize = 4;

/// The detached commands in flight.
#[derive(Debug)]
pub struct DetachedSlots {
    in_flight: usize,
}

impl DetachedSlots {
    /// Detached commands in flight.
    pub closed spec fn taken(self) -> int {
        self.in_flight as int
    }

    /// Never more are in flight than the cap.
    #[verifier::type_invariant]
    spec fn within_cap(self) -> bool {
        self.in_flight <= MAX_DETACHED_COMMANDS
    }

    /// None in flight.
    pub fn new() -> (slots: DetachedSlots)
        ensures
            slots.taken() == 0,
    {
        DetachedSlots { in_flight: 0 }
    }

    /// How many are in flight.
    pub fn len(&self) -> (n: usize)
        ensures
            n == self.taken(),
            n <= MAX_DETACHED_COMMANDS,
    {
        proof {
            use_type_invariant(self);
        }
        self.in_flight
    }

    /// Takes a slot, unless the cap is reached.
    pub fn acquire_detached_slot(&mut self) -> (r: Result<(), IpcError>)
        ensures
            answers(r, slot_refusal(old(self).taken())),
            final(self).taken() == old(self).taken() + (if r is Ok {
                1int
            } else {
                0int
            }),
    {
        if self.in_flight >= MAX_DETACHED_COMMANDS {
            return Err(
                IpcError::new(
                    ErrorCode::Conflict,
                    "detached command cap reached (4); wait for an in-flight detached job to finish or cancel one",
                ),
            );
        }
        self.in_flight = self.in_flight + 1;
        Ok(())
    }

    /// Gives a slot back.
    pub fn release(&mut self)
        requires
            old(self).taken() > 0,
        ensures
            final(self).taken() == old(self).taken() - 1,
    {
        proof {
            use_type_invariant(&*self);
        }
        self.in_flight = self.in_flight - 1;
    }
}

/// Why no slot is left.
pub open spec fn slot_refusal(taken: int) -> Refusal {
    if taken >= MAX_DETACHED_COMMANDS {
        Some(
            (
                ErrorCode::Conflict,
                "detached command cap reached (4); wait for an in-flight detached job to finish or cancel one"@,
            ),
        )
    } else {
        None
    }
}

/// Why a command is not admitted. `hidden_rules` says whether rules restrict a
/// preset that promises none.
pub open spec fn exec_refusal(
    p: ExecParams,
    policy: PolicyState,
    hidden_rules: bool,
) -> Refusal {
    if p.elevated && (policy.preset != AccessPreset::FullAccess || hidden_rules) {
        Some((ErrorCode::PolicyDenied, "elevated execution requires the Full Access preset"@))
    } else if trim(p.program@).len() == 0 {
        Some((ErrorCode::InvalidParams, "program is required"@))
    } else if policy.enforce_workspace {
        Some(
            (
                ErrorCode::PolicyDenied,
                "command.run denied under "@ + preset_text(policy.preset)
                    + " until OS process confinement is available; use filesystem.* tools within a registered workspace, or switch access mode to full_user_access/full_access for arbitrary commands"@,
            ),
        )
    } else {
        None
    }
}

/// A command without what the client sent as pins or as classification: the daemon
/// fills those in itself.
pub open spec fn stripped(p: ExecParams) -> ExecParams {
    ExecParams {
        executable_pin: None,
        invocation_pin: None,
        shell_pin: None,
        policy_kind: None,
        ..p
    }
}

/// Admits a command.
fn admit_exec(p: ExecParams, policy: &PolicyState, hidden_rules: bool) -> (r: Result<
    ExecParams,
    IpcError,
>)
    ensures
        answers(r, exec_refusal(p, *policy, hidden_rules)),
        r matches Ok(admitted) ==> admitted == stripped(p),
{
    let mut p = p;
    p.executable_pin = None;
    p.invocation_pin = None;
    p.shell_pin = None;
    p.policy_kind = None;
    if p.elevated && (policy.preset != AccessPreset::FullAccess || hidden_rules) {
        return Err(
            IpcError::new(
                ErrorCode::PolicyDenied,
                "elevated execution requires the Full Access preset",
            ),
        );
    }
    if trimmed(p.program.as_str()).as_str().is_empty() {
        return Err(IpcError::new(ErrorCode::InvalidParams, "program is required"));
    }
    if policy.enforce_workspace {
        return Err(
            IpcError::with_message(
                ErrorCode::PolicyDenied,
                join3(
                    "command.run denied under ",
                    preset_name(policy.preset),
                    " until OS process confinement is available; use filesystem.* tools within a registered workspace, or switch access mode to full_user_access/full_access for arbitrary commands",
                ),
            ),
        );
    }
    Ok(p)
}

/// Presets that confine operations to workspaces admit no command at all.
pub proof fn law_confined_presets_run_no_commands(
    p: ExecParams,
    policy: PolicyState,
    hidden_rules: bool,
)
    requires
        policy.enforce_workspace,
    ensures
        exec_refusal(p, policy, hidden_rules) is Some,
{
}

/// Where a command runs.
#[derive(Debug, Clone, Copy, PartialEq, Eq, Structural)]
pub enum DirectoryPlan {
    /// In the directory that it names, or the daemon's own.
    Unbound,
    /// Nowhere in particular: the workspace is context only.
    ContextOnly,
    /// In its directory, resolved within the workspace at a position.
    Resolve(usize),
    /// In the root of the workspace at a position.
    Root(usize),
}

/// Why a command's directory is refused.
pub open spec fn directory_refusal(p: ExecParams, workspaces: Seq<WorkspaceEntry>) -> Refusal {
    match p.workspace_id {
        None => None,
        Some(id) => if lookup_refusal(workspaces, Some(id@)) is Some {
            lookup_refusal(workspaces, Some(id@))
        } else if p.elevated && p.cwd is Some {
            binding_refusal("elevated cwd handoff is unsupported by the secure broker"@)
        } else {
            None
        },
    }
}

/// Message of a missing or unusable broker binding.
pub open spec fn binding_message(message: Seq<char>) -> Seq<char> {
    "privileged broker binding unavailable: "@ + message + " (fail-closed; no local exec)"@
}

/// Refusal for a missing or unusable broker binding.
pub open spec fn binding_refusal(message: Seq<char>) -> Refusal {
    Some((ErrorCode::Unauthorized, binding_message(message)))
}

/// Error for a missing or unusable broker binding.
pub fn broker_binding_error(message: &str) -> (e: IpcError)
    ensures
        e.is(ErrorCode::Unauthorized, binding_message(message@)),
{
    IpcError::with_message(
        ErrorCode::Unauthorized,
        join3(
            "privileged broker binding unavailable: ",
            message,
            " (fail-closed; no local exec)",
        ),
    )
}

/// Where a command runs: as a context only where it is elevated, else in its own
/// directory within the workspace, else in the workspace's root.
pub open spec fn is_directory_plan(
    plan: DirectoryPlan,
    p: ExecParams,
    workspaces: Seq<WorkspaceEntry>,
) -> bool {
    match plan {
        DirectoryPlan::Unbound => p.workspace_id is None,
        DirectoryPlan::ContextOnly => p.workspace_id is Some && p.elevated,
        DirectoryPlan::Resolve(at) => p.workspace_id is Some && !p.elevated && p.cwd is Some
            && selects(workspaces, selected_id(Some(p.workspace_id->0@)), at as int),
        DirectoryPlan::Root(at) => p.workspace_id is Some && !p.elevated && p.cwd is None
            && selects(workspaces, selected_id(Some(p.workspace_id->0@)), at as int),
    }
}

/// Chooses where a command runs.
fn exec_directory(p: &ExecParams, workspaces: &Vec<WorkspaceEntry>) -> (r: Result<
    DirectoryPlan,
    IpcError,
>)
    ensures
        answers(r, directory_refusal(*p, workspaces@)),
        r matches Ok(plan) ==> is_directory_plan(plan, *p, workspaces@),
{
    match &p.workspace_id {
        None => Ok(DirectoryPlan::Unbound),
        Some(id) => {
            let at: usize = match workspace_for(workspaces, Some(id.as_str())) {
                Ok(at) => at,
                Err(e) => {
                    return Err(e);
                },
            };
            if p.elevated {
                if p.cwd.is_some() {
                    return Err(
                        broker_binding_error(
                            "elevated cwd handoff is unsupported by the secure broker",
                        ),
                    );
                }
                return Ok(DirectoryPlan::ContextOnly);
            }
            if p.cwd.is_some() {
                Ok(DirectoryPlan::Resolve(at))
            } else {
                Ok(DirectoryPlan::Root(at))
            }
        },
    }
}

/// A program that was found: the path to launch it by, and the file behind it.
#[derive(Debug)]
pub struct ResolvedProgram {
    pub invocation: String,
    pub backing: String,
}

/// What has to be pinned before a command is authorized.
#[derive(Debug)]
pub struct PinPlan {
    /// The file behind the program and the path that launches it.
    pub program: Option<ResolvedProgram>,
    /// The shell interpreter.
    pub shell: bool,
}

/// A command bound to the program that was found for it.
pub open spec fn is_bound_program(
    bound: ExecParams,
    program: Option<ResolvedProgram>,
    p: ExecParams,
    requested: CommandKind,
    resolved: Option<ResolvedProgram>,
) -> bool {
    match (requested, resolved) {
        (CommandKind::Structured, Some(found)) => bound == (ExecParams {
            program: found.invocation,
            ..p
        }) && program == Some(found),
        _ => bound == p && program is None,
    }
}

/// The program that a command names from now on: the path that launches it, where
/// it was found.
fn bind_program(
    p: ExecParams,
    requested: CommandKind,
    resolved: Option<ResolvedProgram>,
) -> (bound: (ExecParams, Option<ResolvedProgram>))
    ensures
        is_bound_program(bound.0, bound.1, p, requested, resolved),
{
    let mut p = p;
    match (requested, resolved) {
        (CommandKind::Structured, Some(found)) => {
            p.program = found.invocation.clone();
            (p, Some(found))
        },
        _ => (p, None),
    }
}

/// Why a classified command is refused: it is argv of a program that nobody found.
pub open spec fn classification_refusal(
    program: Seq<char>,
    requested: CommandKind,
    found: bool,
    kind: CommandKind,
) -> Refusal {
    if kind == CommandKind::Structured && requested == CommandKind::Structured && !found {
        Some(
            (
                ErrorCode::InvalidParams,
                "structured program `"@ + program
                    + "` could not be resolved to a launchable regular executable (searched PATH and the deterministic user-local bins); pass an absolute path or install the tool so detection and execution agree"@,
            ),
        )
    } else {
        None
    }
}

/// A command with its kind, and what has to be pinned for it.
pub open spec fn is_classified(
    classified: ExecParams,
    plan: PinPlan,
    p: ExecParams,
    found: Option<ResolvedProgram>,
    kind: CommandKind,
) -> bool {
    &&& classified.policy_kind matches Some(name) && name@ == kind.name()
    &&& classified == (ExecParams { policy_kind: classified.policy_kind, ..p })
    &&& plan.program == found
    &&& plan.shell == (kind == CommandKind::RawShell)
}

/// Takes the classification of a bound command: what has to be pinned.
fn classify_exec(
    p: ExecParams,
    requested: CommandKind,
    found: Option<ResolvedProgram>,
    kind: CommandKind,
) -> (r: Result<(ExecParams, PinPlan), IpcError>)
    ensures
        answers(r, classification_refusal(p.program@, requested, found is Some, kind)),
        r matches Ok((classified, plan)) ==> is_classified(classified, plan, p, found, kind),
{
    let mut p = p;
    if kind == CommandKind::Structured && requested == CommandKind::Structured && found.is_none() {
        return Err(
            IpcError::with_message(
                ErrorCode::InvalidParams,
                join3(
                    "structured program `",
                    p.program.as_str(),
                    "` could not be resolved to a launchable regular executable (searched PATH and the deterministic user-local bins); pass an absolute path or install the tool so detection and execution agree",
                ),
            ),
        );
    }
    p.policy_kind = Some(kind.as_str().to_owned());
    Ok((p, PinPlan { program: found, shell: kind == CommandKind::RawShell }))
}

/// The pins that were taken for a plan, or why one could not be.
#[derive(Debug)]
pub struct TakenPins {
    pub backing: Option<Result<ExecutablePin, String>>,
    pub invocation: Option<Result<ExecutablePin, String>>,
    pub shell: Option<Result<ExecutablePin, String>>,
}

/// Why a pin could not be taken.
pub open spec fn failed_pin(pin: Option<Result<ExecutablePin, String>>) -> Option<Seq<char>> {
    match pin {
        Some(Err(e)) => Some(e@),
        _ => None,
    }
}

/// The pin that was taken.
pub open spec fn taken_pin(pin: Option<Result<ExecutablePin, String>>) -> Option<ExecutablePin> {
    match pin {
        Some(Ok(p)) => Some(p),
        _ => None,
    }
}

/// Why a command is refused for want of a pin.
pub open spec fn pin_refusal(pins: TakenPins) -> Refusal {
    if failed_pin(pins.backing) is Some {
        Some(
            (
                ErrorCode::PolicyDenied,
                "unable to pin executable identity: "@ + failed_pin(pins.backing)->0,
            ),
        )
    } else if failed_pin(pins.invocation) is Some {
        Some(
            (
                ErrorCode::PolicyDenied,
                "unable to pin invocation identity: "@ + failed_pin(pins.invocation)->0,
            ),
        )
    } else if failed_pin(pins.shell) is Some {
        Some(
            (
                ErrorCode::PolicyDenied,
                "unable to pin raw-shell interpreter identity: "@ + failed_pin(pins.shell)->0,
            ),
        )
    } else {
        None
    }
}

/// A pin that was asked for, or why it could not be taken.
fn pin_of(pin: Option<Result<ExecutablePin, String>>, message: &str) -> (r: Result<
    Option<ExecutablePin>,
    IpcError,
>)
    ensures
        answers(
            r,
            match failed_pin(pin) {
                Some(e) => Some((ErrorCode::PolicyDenied, message@ + e)),
                None => None,
            },
        ),
        r matches Ok(p) ==> p == taken_pin(pin),
{
    match pin {
        Some(Ok(p)) => Ok(Some(p)),
        Some(Err(e)) => Err(
            IpcError::with_message(ErrorCode::PolicyDenied, join(message, e.as_str())),
        ),
        None => Ok(None),
    }
}

/// A command held to the pins that were taken.
pub open spec fn pinned_params(p: ExecParams, pins: TakenPins) -> ExecParams {
    ExecParams {
        executable_pin: taken_pin(pins.backing),
        invocation_pin: taken_pin(pins.invocation),
        shell_pin: taken_pin(pins.shell),
        ..p
    }
}

/// Holds a command to the pins that were taken for it.
fn pin_exec(p: ExecParams, pins: TakenPins) -> (r: Result<ExecParams, IpcError>)
    ensures
        answers(r, pin_refusal(pins)),
        r matches Ok(pinned) ==> pinned == pinned_params(p, pins),
{
    let mut p = p;
    p.executable_pin = match pin_of(pins.backing, "unable to pin executable identity: ") {
        Ok(pin) => pin,
        Err(e) => {
            return Err(e);
        },
    };
    p.invocation_pin = match pin_of(pins.invocation, "unable to pin invocation identity: ") {
        Ok(pin) => pin,
        Err(e) => {
            return Err(e);
        },
    };
    p.shell_pin = match pin_of(pins.shell, "unable to pin raw-shell interpreter identity: ") {
        Ok(pin) => pin,
        Err(e) => {
            return Err(e);
        },
    };
    Ok(p)
}

/// Identity of a pin, or of the one that stands in for it.
pub open spec fn bound_identity(
    pin: Option<ExecutablePin>,
    other: Option<ExecutablePin>,
) -> Option<ExecutableIdentityBinding> {
    match pin {
        Some(p) => Some(identity_of(p)),
        None => match other {
            Some(p) => Some(identity_of(p)),
            None => None,
        },
    }
}

/// Takes the identity of a pin, or of the one that stands in for it.
fn first_identity(pin: &Option<ExecutablePin>, other: &Option<ExecutablePin>) -> (r: Option<
    ExecutableIdentityBinding,
>)
    ensures
        r == bound_identity(*pin, *other),
{
    match pin {
        Some(p) => Some(executable_identity_from_pin(p)),
        None => match other {
            Some(p) => Some(executable_identity_from_pin(p)),
            None => None,
        },
    }
}

/// The facts that a command is judged by: only what the daemon computed itself.
pub open spec fn is_exec_facts(facts: OperationFacts, p: ExecParams, kind: CommandKind) -> bool {
    &&& facts.capability@ == "command.run"@
    &&& facts.kind@ == kind.name()
    &&& facts.program == Some(p.program)
    &&& facts.path == p.cwd
    &&& facts.elevated == p.elevated
    &&& !facts.workspace_relative
    &&& facts.workspace_id == p.workspace_id
    &&& facts.tags@.len() == 0
    &&& facts.tool is None
    &&& facts.executable_identity == bound_identity(p.executable_pin, p.shell_pin)
    &&& facts.invocation_identity == bound_identity(p.invocation_pin, p.shell_pin)
}

/// Writes the facts that a command is judged by.
fn exec_facts(p: &ExecParams, kind: CommandKind) -> (facts: OperationFacts)
    ensures
        is_exec_facts(facts, *p, kind),
{
    OperationFacts {
        capability: "command.run".to_owned(),
        kind: kind.as_str().to_owned(),
        program: Some(p.program.clone()),
        path: copy_text(&p.cwd),
        elevated: p.elevated,
        workspace_relative: false,
        workspace_id: copy_text(&p.workspace_id),
        tags: Vec::new(),
        tool: None,
        executable_identity: first_identity(&p.executable_pin, &p.shell_pin),
        invocation_identity: first_identity(&p.invocation_pin, &p.shell_pin),
    }
}

/// Why a command is not taken up.
pub open spec fn intake_refusal(
    p: ExecParams,
    policy: PolicyState,
    hidden_rules: bool,
    workspaces: Seq<WorkspaceEntry>,
) -> Refusal {
    if exec_refusal(p, policy, hidden_rules) is Some {
        exec_refusal(p, policy, hidden_rules)
    } else {
        directory_refusal(p, workspaces)
    }
}

/// A command that was admitted: its directory has to be found next.
#[derive(Debug)]
pub struct AdmittedExec {
    params: ExecParams,
    plan: DirectoryPlan,
}

/// A command with its directory: its program has to be found next.
#[derive(Debug)]
pub struct PlacedExec {
    params: ExecParams,
}

/// A command with its program: it has to be classified next.
#[derive(Debug)]
pub struct BoundExec {
    params: ExecParams,
    requested: CommandKind,
    found: Option<ResolvedProgram>,
}

/// A classified command: its pins have to be taken next.
#[derive(Debug)]
pub struct ClassifiedExec {
    params: ExecParams,
    kind: CommandKind,
    plan: PinPlan,
}

/// A pinned command, ready to be judged.
#[derive(Debug)]
pub struct PinnedExec {
    params: ExecParams,
    kind: CommandKind,
}

/// Takes a command up: it is admitted, and the place is chosen that it runs in.
pub fn handle_exec(
    p: ExecParams,
    policy: &PolicyState,
    hidden_rules: bool,
    workspaces: &Vec<WorkspaceEntry>,
) -> (r: Result<AdmittedExec, IpcError>)
    ensures
        answers(r, intake_refusal(p, *policy, hidden_rules, workspaces@)),
        r matches Ok(admitted) ==> admitted.params() == stripped(p) && is_directory_plan(
            admitted.place(),
            p,
            workspaces@,
        ),
{
    let params = match admit_exec(p, policy, hidden_rules) {
        Ok(params) => params,
        Err(e) => {
            return Err(e);
        },
    };
    match exec_directory(&params, workspaces) {
        Ok(plan) => Ok(AdmittedExec { params, plan }),
        Err(e) => Err(e),
    }
}

/// The workspace has to tell the directory.
pub open spec fn needs_directory(plan: DirectoryPlan) -> bool {
    plan is Resolve || plan is Root
}

/// Why a command has no directory.
pub open spec fn place_refusal(
    plan: DirectoryPlan,
    found: Option<Result<String, (FsFailure, String)>>,
) -> Refusal {
    match found {
        Some(Err((failure, message))) => if needs_directory(plan) {
            Some(fs_refusal(failure, message@))
        } else {
            None
        },
        _ => None,
    }
}

/// A command in the directory that was found.
pub open spec fn placed_params(
    p: ExecParams,
    plan: DirectoryPlan,
    found: Option<Result<String, (FsFailure, String)>>,
) -> ExecParams {
    match found {
        Some(Ok(path)) => if needs_directory(plan) {
            ExecParams { cwd: Some(path), ..p }
        } else {
            p
        },
        _ => p,
    }
}

impl AdmittedExec {
    /// The command.
    pub closed spec fn params(self) -> ExecParams {
        self.params
    }

    /// Where it runs.
    pub closed spec fn place(self) -> DirectoryPlan {
        self.plan
    }

    /// Where it runs.
    pub fn directory(&self) -> (plan: DirectoryPlan)
        ensures
            plan == self.place(),
    {
        self.plan
    }

    /// The directory that it names.
    pub fn cwd(&self) -> (cwd: &Option<String>)
        ensures
            *cwd == self.params().cwd,
    {
        &self.params.cwd
    }

    /// Takes the directory that the workspace tells, where it has to.
    pub fn placed(self, found: Option<Result<String, (FsFailure, String)>>) -> (r: Result<
        PlacedExec,
        IpcError,
    >)
        requires
            needs_directory(self.place()) ==> found is Some,
        ensures
            answers(r, place_refusal(self.place(), found)),
            r matches Ok(placed) ==> placed.params() == placed_params(
                self.params(),
                self.place(),
                found,
            ),
    {
        let asked = matches!(self.plan, DirectoryPlan::Resolve(_) | DirectoryPlan::Root(_));
        let mut params = self.params;
        if asked {
            match found {
                Some(Ok(path)) => {
                    params.cwd = Some(path);
                },
                Some(Err((failure, message))) => {
                    return Err(fs_err(failure, message.as_str()));
                },
                None => {},
            }
        }
        Ok(PlacedExec { params })
    }
}

impl PlacedExec {
    /// The command.
    pub closed spec fn params(self) -> ExecParams {
        self.params
    }

    /// The command, to find its program by.
    pub fn request(&self) -> (p: &ExecParams)
        ensures
            *p == self.params(),
    {
        &self.params
    }

    /// Takes the program that was found for argv.
    pub fn bound(self, requested: CommandKind, resolved: Option<ResolvedProgram>) -> (bound:
        BoundExec)
        ensures
            bound.requested_kind() == requested,
            is_bound_program(
                bound.params(),
                bound.program(),
                self.params(),
                requested,
                resolved,
            ),
    {
        let (params, found) = bind_program(self.params, requested, resolved);
        BoundExec { params, requested, found }
    }
}

impl BoundExec {
    /// The command.
    pub closed spec fn params(self) -> ExecParams {
        self.params
    }

    /// The kind that was asked for.
    pub closed spec fn requested_kind(self) -> CommandKind {
        self.requested
    }

    /// The program that was found.
    pub closed spec fn program(self) -> Option<ResolvedProgram> {
        self.found
    }

    /// The command, to classify it by.
    pub fn request(&self) -> (p: &ExecParams)
        ensures
            *p == self.params(),
    {
        &self.params
    }

    /// Takes the classification of the command.
    pub fn classified(self, kind: CommandKind) -> (r: Result<ClassifiedExec, IpcError>)
        ensures
            answers(
                r,
                classification_refusal(
                    self.params().program@,
                    self.requested_kind(),
                    self.program() is Some,
                    kind,
                ),
            ),
            r matches Ok(c) ==> c.kind() == kind && is_classified(
                c.params(),
                c.to_pin(),
                self.params(),
                self.program(),
                kind,
            ),
    {
        match classify_exec(self.params, self.requested, self.found, kind) {
            Ok((params, plan)) => Ok(ClassifiedExec { params, kind, plan }),
            Err(e) => Err(e),
        }
    }
}

/// The pins are those that were to be taken.
pub open spec fn pins_fit(plan: PinPlan, pins: TakenPins) -> bool {
    &&& pins.backing is Some <==> plan.program is Some
    &&& pins.invocation is Some <==> plan.program is Some
    &&& pins.shell is Some <==> plan.shell
}

impl ClassifiedExec {
    /// The command.
    pub closed spec fn params(self) -> ExecParams {
        self.params
    }

    /// Its kind.
    pub closed spec fn kind(self) -> CommandKind {
        self.kind
    }

    /// What has to be pinned.
    pub closed spec fn to_pin(self) -> PinPlan {
        self.plan
    }

    /// What has to be pinned.
    pub fn pin_plan(&self) -> (plan: &PinPlan)
        ensures
            *plan == self.to_pin(),
    {
        &self.plan
    }

    /// Takes the pins.
    pub fn pinned(self, pins: TakenPins) -> (r: Result<PinnedExec, IpcError>)
        requires
            pins_fit(self.to_pin(), pins),
        ensures
            answers(r, pin_refusal(pins)),
            r matches Ok(pinned) ==> pinned.kind() == self.kind() && pinned.params()
                == pinned_params(self.params(), pins),
    {
        let kind = self.kind;
        match pin_exec(self.params, pins) {
            Ok(params) => Ok(PinnedExec { params, kind }),
            Err(e) => Err(e),
        }
    }
}

impl PinnedExec {
    /// The command.
    pub closed spec fn params(self) -> ExecParams {
        self.params
    }

    /// Its kind.
    pub closed spec fn kind(self) -> CommandKind {
        self.kind
    }

    /// The facts that it is judged by.
    pub fn facts(&self) -> (facts: OperationFacts)
        ensures
            is_exec_facts(facts, self.params(), self.kind()),
    {
        exec_facts(&self.params, self.kind)
    }

    /// The command, to be run or kept for an approval.
    pub fn into_params(self) -> (p: ExecParams)
        ensures
            p == self.params(),
    {
        self.params
    }
}

/// Which pins a command needs at its execution.
pub open spec fn missing_pin(p: ExecParams, kind: CommandKind) -> Refusal {
    if kind == CommandKind::Structured && p.invocation_pin is None {
        Some(
            (
                ErrorCode::ExecutableIdentityDrift,
                "OWNMESH_E_EXECUTABLE_IDENTITY_DRIFT: structured invocation pin is missing; request must be re-authorized"@,
            ),
        )
    } else if kind == CommandKind::Structured && p.executable_pin is None {
        Some(
            (
                ErrorCode::ExecutableIdentityDrift,
                "OWNMESH_E_EXECUTABLE_IDENTITY_DRIFT: structured backing pin is missing; request must be re-authorized"@,
            ),
        )
    } else if kind == CommandKind::RawShell && p.shell_pin is None {
        Some(
            (
                ErrorCode::ExecutableIdentityDrift,
                "OWNMESH_E_EXECUTABLE_IDENTITY_DRIFT: raw-shell interpreter pin is missing; request must be re-authorized"@,
            ),
        )
    } else {
        None
    }
}

/// Requires the pins that a command of the kind is launched by.
pub fn require_pins(p: &ExecParams, kind: CommandKind) -> (r: Result<(), IpcError>)
    ensures
        answers(r, missing_pin(*p, kind)),
{
    match kind {
        CommandKind::Structured => {
            if p.invocation_pin.is_none() {
                return Err(
                    IpcError::new(
                        ErrorCode::ExecutableIdentityDrift,
                        "OWNMESH_E_EXECUTABLE_IDENTITY_DRIFT: structured invocation pin is missing; request must be re-authorized",
                    ),
                );
            }
            if p.executable_pin.is_none() {
                return Err(
                    IpcError::new(
                        ErrorCode::ExecutableIdentityDrift,
                        "OWNMESH_E_EXECUTABLE_IDENTITY_DRIFT: structured backing pin is missing; request must be re-authorized",
                    ),
                );
            }
        },
        CommandKind::RawShell => {
            if p.shell_pin.is_none() {
                return Err(
                    IpcError::new(
                        ErrorCode::ExecutableIdentityDrift,
                        "OWNMESH_E_EXECUTABLE_IDENTITY_DRIFT: raw-shell interpreter pin is missing; request must be re-authorized",
                    ),
                );
            }
        },
    }
    Ok(())
}

/// Why a prepared command does not run: its pins no longer hold, or it classifies
/// otherwise than when it was approved.
pub open spec fn drift_refusal(
    prepared: bool,
    current: CommandKind,
    approved: CommandKind,
) -> Refusal {
    if !prepared {
        Some(
            (
                ErrorCode::ExecutableIdentityDrift,
                "OWNMESH_E_EXECUTABLE_IDENTITY_DRIFT: invocation identity changed; request must be re-authorized"@,
            ),
        )
    } else if current != approved {
        Some(
            (
                ErrorCode::ExecutableIdentityDrift,
                "OWNMESH_E_EXECUTABLE_IDENTITY_DRIFT: command classification changed; request must be re-authorized"@,
            ),
        )
    } else {
        None
    }
}

/// Holds a command to what was approved, right before it runs.
fn check_drift(prepared: bool, current: CommandKind, approved: CommandKind) -> (r: Result<
    (),
    IpcError,
>)
    ensures
        answers(r, drift_refusal(prepared, current, approved)),
{
    if !prepared {
        return Err(
            IpcError::new(
                ErrorCode::ExecutableIdentityDrift,
                "OWNMESH_E_EXECUTABLE_IDENTITY_DRIFT: invocation identity changed; request must be re-authorized",
            ),
        );
    }
    if current != approved {
        return Err(
            IpcError::new(
                ErrorCode::ExecutableIdentityDrift,
                "OWNMESH_E_EXECUTABLE_IDENTITY_DRIFT: command classification changed; request must be re-authorized",
            ),
        );
    }
    Ok(())
}

/// Nothing runs that lacks a pin of its kind, whose pins fail, or whose
/// classification changed since its approval.
pub proof fn law_drifted_commands_never_run(
    p: ExecParams,
    requested: CommandKind,
    prepared: bool,
    current: CommandKind,
    approved: CommandKind,
    taken: int,
)
    ensures
        run_refusal(p, requested, prepared, current, approved, taken) is None ==> prepared
            && current == approved && (if requested == CommandKind::Structured {
            p.invocation_pin is Some && p.executable_pin is Some
        } else {
            p.shell_pin is Some
        }),
{
}

/// Time that a command gets where it names none.
pub const DEFAULT_TIMEOUT_MS: u64 = 30_000;

/// Output that a command keeps where it names no bound.
pub const DEFAULT_OUTPUT_BYTES: usize = 131_072;

/// Most output that a command keeps.
pub const MAX_OUTPUT_BYTES: usize = 200_000;

/// The value held between two bounds.
pub open spec fn clamped(n: int, low: int, high: int) -> int {
    if n < low {
        low
    } else if n > high {
        high
    } else {
        n
    }
}

/// Time that a command gets.
pub fn timeout_of(requested: Option<u64>, hard_max_ms: u64) -> (ms: u64)
    requires
        hard_max_ms >= 1,
    ensures
        ms == clamped(
            match requested {
                Some(t) => t as int,
                None => DEFAULT_TIMEOUT_MS as int,
            },
            1,
            hard_max_ms as int,
        ),
{
    let t: u64 = match requested {
        Some(t) => t,
        None => DEFAULT_TIMEOUT_MS,
    };
    if t < 1 {
        1
    } else if t > hard_max_ms {
        hard_max_ms
    } else {
        t
    }
}

/// Output that a command keeps.
pub fn output_bound_of(requested: Option<usize>) -> (n: usize)
    ensures
        n == clamped(
            match requested {
                Some(n) => n as int,
                None => DEFAULT_OUTPUT_BYTES as int,
            },
            1,
            MAX_OUTPUT_BYTES as int,
        ),
{
    let n: usize = match requested {
        Some(n) => n,
        None => DEFAULT_OUTPUT_BYTES,
    };
    if n < 1 {
        1
    } else if n > MAX_OUTPUT_BYTES {
        MAX_OUTPUT_BYTES
    } else {
        n
    }
}

/// The bounds that a command runs under.
#[derive(Debug)]
pub struct RunPlan {
    /// No wall-clock bound on a detached command.
    pub timeout_ms: Option<u64>,
    pub max_output_bytes: usize,
    pub env: Vec<(String, String)>,
}

/// Plans the run of a command.
fn plan_run(p: &ExecParams, hard_max_ms: u64) -> (r: Result<RunPlan, IpcError>)
    requires
        hard_max_ms >= 1,
    ensures
        answers(r, env_refusal(p.env@)),
        r matches Ok(plan) ==> is_run_plan(plan, *p, hard_max_ms as int),
{
    let timeout_ms: Option<u64> = if p.detach {
        None
    } else {
        Some(timeout_of(p.timeout_ms, hard_max_ms))
    };
    let max_output_bytes: usize = output_bound_of(p.max_output_bytes);
    match sanitize_exec_env(&p.env) {
        Ok(env) => Ok(RunPlan { timeout_ms, max_output_bytes, env }),
        Err(e) => Err(e),
    }
}

/// How a command is run.
#[derive(Debug)]
pub enum ExecRun {
    /// By the privileged broker, and by nothing else.
    Elevated,
    /// By the daemon, under bounds.
    Local(RunPlan),
}

/// Why a command is not run: a pin is missing, it drifted, no slot is free, or its
/// environment is refused.
pub open spec fn run_refusal(
    p: ExecParams,
    requested: CommandKind,
    prepared: bool,
    current: CommandKind,
    approved: CommandKind,
    taken: int,
) -> Refusal {
    if missing_pin(p, requested) is Some {
        missing_pin(p, requested)
    } else if drift_refusal(prepared, current, approved) is Some {
        drift_refusal(prepared, current, approved)
    } else if p.detach && slot_refusal(taken) is Some {
        slot_refusal(taken)
    } else if p.elevated {
        None
    } else {
        env_refusal(p.env@)
    }
}

/// The bounds of a local run.
pub open spec fn is_run_plan(plan: RunPlan, p: ExecParams, hard_max_ms: int) -> bool {
    &&& plan.timeout_ms is None <==> p.detach
    &&& plan.timeout_ms matches Some(ms) ==> ms == clamped(
        match p.timeout_ms {
            Some(t) => t as int,
            None => DEFAULT_TIMEOUT_MS as int,
        },
        1,
        hard_max_ms,
    )
    &&& plan.max_output_bytes == clamped(
        match p.max_output_bytes {
            Some(n) => n as int,
            None => DEFAULT_OUTPUT_BYTES as int,
        },
        1,
        MAX_OUTPUT_BYTES as int,
    )
    &&& same_env(plan.env@, p.env@)
}

/// How a command is run.
pub open spec fn is_run_of(run: ExecRun, p: ExecParams, hard_max_ms: int) -> bool {
    match run {
        ExecRun::Elevated => p.elevated,
        ExecRun::Local(plan) => !p.elevated && is_run_plan(plan, p, hard_max_ms),
    }
}

/// Decides how a command is run; `prepared` says whether it could be bound to its
/// pins. A detached command that runs holds a slot; the slot of one that does not is
/// given back.
pub fn execute_exec(
    p: &ExecParams,
    requested: CommandKind,
    prepared: bool,
    current: CommandKind,
    approved: CommandKind,
    slots: &mut DetachedSlots,
    hard_max_ms: u64,
) -> (r: Result<ExecRun, IpcError>)
    requires
        hard_max_ms >= 1,
    ensures
        answers(
            r,
            run_refusal(*p, requested, prepared, current, approved, old(slots).taken()),
        ),
        r matches Ok(run) ==> is_run_of(run, *p, hard_max_ms as int),
        final(slots).taken() == old(slots).taken() + (if r is Ok && p.detach {
            1int
        } else {
            0int
        }),
{
    match require_pins(p, requested) {
        Ok(()) => {},
        Err(e) => {
            return Err(e);
        },
    }
    match check_drift(prepared, current, approved) {
        Ok(()) => {},
        Err(e) => {
            return Err(e);
        },
    }
    if p.detach {
        match slots.acquire_detached_slot() {
            Ok(()) => {},
            Err(e) => {
                return Err(e);
            },
        }
    }
    if p.elevated {
        return Ok(ExecRun::Elevated);
    }
    match plan_run(p, hard_max_ms) {
        Ok(plan) => Ok(ExecRun::Local(plan)),
        Err(e) => {
            if p.detach {
                slots.release();
            }
            Err(e)
        },
    }
}

/// How a command failed to run.
#[derive(Debug, Clone, Copy, PartialEq, Eq, Structural)]
pub enum ExecFailure {
    Cancelled,
    ExecutableFormat,
    Other,
}

/// The code for a command that failed to run.
pub open spec fn exec_code(failure: ExecFailure) -> ErrorCode {
    match failure {
        ExecFailure::Cancelled => ErrorCode::Conflict,
        ExecFailure::ExecutableFormat => ErrorCode::ExecutableFormat,
        ExecFailure::Other => ErrorCode::Internal,
    }
}

/// The error for a command that failed to run.
pub fn exec_error(failure: ExecFailure, message: &str) -> (e: IpcError)
    ensures
        e.is(exec_code(failure), message@),
{
    let code = match failure {
        ExecFailure::Cancelled => ErrorCode::Conflict,
        ExecFailure::ExecutableFormat => ErrorCode::ExecutableFormat,
        ExecFailure::Other => ErrorCode::Internal,
    };
    IpcError::new(code, message)
}

/// The answer to a command: its result, with its workspace and whether it was
/// detached.
pub open spec fn exec_body(result: Map<Seq<char>, JsonV>, p: ExecParams) -> JsonV {
    JsonV::Object(
        if p.detach {
            result.insert("workspace_id"@, text_or_null(p.workspace_id)).insert(
                "detached"@,
                JsonV::Bool(true),
            )
        } else {
            result.insert("workspace_id"@, text_or_null(p.workspace_id))
        },
    )
}

/// Completes the result of a command with its workspace, and with a mark where it
/// was detached.
pub fn exec_answer(result: JsonObject, p: &ExecParams) -> (body: Json)
    ensures
        body@ == exec_body(result@, *p),
{
    let mut object = result;
    object.put("workspace_id", optional_text(&p.workspace_id));
    if p.detach {
        object.put("detached", Json::Bool(true));
    }
    Json::Object(object)
}

/// A command that runs locally runs under the bounds that it asks for: its timeout
/// where it names one from one millisecond up to the hard limit, thirty seconds where
/// it names none, never more than the hard limit, and none where it is detached; its
/// output up to what it names, 131 072 bytes where it names nothing, never more than
/// 200 000; its environment as it was given.
pub proof fn law_commands_run_under_the_bounds_asked_for(
    plan: RunPlan,
    p: ExecParams,
    hard_max_ms: int,
)
    requires
        is_run_plan(plan, p, hard_max_ms),
        hard_max_ms >= 1,
    ensures
        plan.timeout_ms is None <==> p.detach,
        plan.timeout_ms matches Some(ms) ==> 1 <= ms <= hard_max_ms,
        !p.detach ==> (p.timeout_ms matches Some(t) ==> {
            &&& 1 <= t <= hard_max_ms ==> plan.timeout_ms == Some(t)
            &&& t == 0 ==> plan.timeout_ms == Some(1u64)
            &&& t > hard_max_ms ==> (plan.timeout_ms matches Some(ms) && ms == hard_max_ms)
        }),
        !p.detach && p.timeout_ms is None && 30_000 <= hard_max_ms ==> plan.timeout_ms == Some(
            30_000u64,
        ),
        !p.detach && p.timeout_ms is None && hard_max_ms < 30_000 ==> (
        plan.timeout_ms matches Some(ms) && ms == hard_max_ms),
        1 <= plan.max_output_bytes <= 200_000,
        p.max_output_bytes matches Some(n) ==> {
            &&& 1 <= n <= 200_000 ==> plan.max_output_bytes == n
            &&& n == 0 ==> plan.max_output_bytes == 1
            &&& n > 200_000 ==> plan.max_output_bytes == 200_000
        },
        p.max_output_bytes is None ==> plan.max_output_bytes == 131_072,
        plan.env@.len() == p.env@.len(),
        forall|i: int|
            0 <= i < p.env@.len() ==> (#[trigger] plan.env@[i]).0@ == p.env@[i].0@
                && plan.env@[i].1@ == p.env@[i].1@,
{
}

/// A command runs exactly where its pins are there, nothing drifted since it was
/// judged, a slot is free where it is detached, and its environment is admitted
/// where it runs locally.
pub proof fn law_commands_run_only_as_judged(
    p: ExecParams,
    requested: CommandKind,
    prepared: bool,
    current: CommandKind,
    approved: CommandKind,
    taken: int,
)
    ensures
        run_refusal(p, requested, prepared, current, approved, taken) is None <==> {
            &&& requested == CommandKind::Structured ==> p.invocation_pin is Some
                && p.executable_pin is Some
            &&& requested == CommandKind::RawShell ==> p.shell_pin is Some
            &&& prepared
            &&& current == approved
            &&& p.detach ==> taken < 4
            &&& p.elevated || env_refusal(p.env@) is None
        },
        missing_pin(p, requested) matches Some((code, _)) ==> code
            == ErrorCode::ExecutableIdentityDrift,
        drift_refusal(prepared, current, approved) matches Some((code, _)) ==> code
            == ErrorCode::ExecutableIdentityDrift,
        slot_refusal(taken) matches Some((code, _)) ==> code == ErrorCode::Conflict,
{
}

/// An environment is admitted exactly where it has at most 32 entries, every name is
/// given, of at most 128 bytes and without a zero or an equals sign, every value has
/// at most 4096 bytes and no zero, and all of it together has at most 16 384 bytes.
pub proof fn law_environments_are_bounded(raw: Seq<(String, String)>)
    ensures
        env_refusal(raw) is None <==> {
            &&& raw.len() <= 32
            &&& forall|i: int|
                0 <= i < raw.len() ==> {
                    let key = (#[trigger] raw[i]).0@;
                    let value = raw[i].1@;
                    &&& key.len() > 0
                    &&& utf8_len(key) <= 128
                    &&& !key.contains('\0')
                    &&& !key.contains('=')
                    &&& utf8_len(value) <= 4096
                    &&& !value.contains('\0')
                }
            &&& env_bytes(raw, raw.len() as int) <= 16_384
        },
        env_refusal(raw) matches Some((code, _)) ==> code == ErrorCode::InvalidParams,
{
    lemma_env_from(raw, 0);
    assert forall|s: Seq<char>, c: char| #[trigger] holds(s, c) == s.contains(c) by {}
    if raw.len() > 0 {
        lemma_env_bytes_grow(raw, raw.len() as int, raw.len() as int);
    }
}

/// The bytes of an environment only grow.
proof fn lemma_env_bytes_grow(raw: Seq<(String, String)>, k: int, n: int)
    requires
        0 <= k <= n <= raw.len(),
    ensures
        env_bytes(raw, k) <= env_bytes(raw, n),
    decreases n,
{
    if k < n {
        lemma_env_bytes_grow(raw, k, n - 1);
    }
}

/// From an entry on, an environment is admitted where each entry is.
proof fn lemma_env_from(raw: Seq<(String, String)>, k: int)
    requires
        0 <= k <= raw.len(),
    ensures
        env_refusal_from(raw, k) is None <==> (forall|i: int|
            k <= i < raw.len() ==> is_env_key((#[trigger] raw[i]).0@) && is_env_value(raw[i].1@))
            && (k < raw.len() ==> env_bytes(raw, raw.len() as int) <= 16_384),
        env_refusal_from(raw, k) matches Some((code, _)) ==> code == ErrorCode::InvalidParams,
    decreases raw.len() - k,
{
    if k < raw.len() {
        lemma_env_from(raw, k + 1);
        lemma_env_bytes_grow(raw, k + 1, raw.len() as int);
        if env_refusal_from(raw, k) is None {
            assert forall|i: int| k <= i < raw.len() implies is_env_key((#[trigger] raw[i]).0@)
                && is_env_value(raw[i].1@) by {
                if i == k {
                    assert(env_entry_refusal(raw, k) is None);
                }
            }
        }
        if (forall|i: int|
            k <= i < raw.len() ==> is_env_key((#[trigger] raw[i]).0@) && is_env_value(raw[i].1@))
            && env_bytes(raw, raw.len() as int) <= 16_384 {
            assert(is_env_key(raw[k].0@) && is_env_value(raw[k].1@));
            assert(env_entry_refusal(raw, k) is None);
        }
    }
}

/// The bytes of an environment are those of every name and every value.
pub proof fn law_environment_bytes_are_summed(raw: Seq<(String, String)>, n: int)
    requires
        0 <= n < raw.len(),
    ensures
        env_bytes(raw, 0) == 0,
        env_bytes(raw, n + 1) - env_bytes(raw, n) == utf8_len(raw[n].0@) + utf8_len(raw[n].1@),
{
}

/// A command is admitted exactly where it names a program, no preset confines it, and
/// elevation goes with full access that nothing hidden restricts.
pub proof fn law_commands_are_admitted(p: ExecParams, policy: PolicyState, hidden_rules: bool)
    ensures
        exec_refusal(p, policy, hidden_rules) is None <==> (p.elevated ==> policy.preset
            == AccessPreset::FullAccess && !hidden_rules) && trim(p.program@).len() > 0
            && !policy.enforce_workspace,
        p.elevated && (policy.preset != AccessPreset::FullAccess || hidden_rules) ==> (exec_refusal(
            p,
            policy,
            hidden_rules,
        ) matches Some((code, _)) && code == ErrorCode::PolicyDenied),
        !p.elevated && trim(p.program@).len() == 0 ==> (exec_refusal(
            p,
            policy,
            hidden_rules,
        ) matches Some((code, _)) && code == ErrorCode::InvalidParams),
        !p.elevated && trim(p.program@).len() > 0 && policy.enforce_workspace ==> (exec_refusal(
            p,
            policy,
            hidden_rules,
        ) matches Some((code, _)) && code == ErrorCode::PolicyDenied),
{
}

/// A request brings no pin and no classification of its own: they are the daemon's to
/// take. All else that it asks for stays.
pub proof fn law_requests_bring_no_pins(p: ExecParams)
    ensures
        stripped(p).executable_pin is None,
        stripped(p).invocation_pin is None,
        stripped(p).shell_pin is None,
        stripped(p).policy_kind is None,
        stripped(p).program == p.program,
        stripped(p).args == p.args,
        stripped(p).cwd == p.cwd,
        stripped(p).env == p.env,
        stripped(p).kind == p.kind,
        stripped(p).elevated == p.elevated,
        stripped(p).detach == p.detach,
        stripped(p).timeout_ms == p.timeout_ms,
        stripped(p).max_output_bytes == p.max_output_bytes,
        stripped(p).workspace_id == p.workspace_id,
        stripped(p).idempotency_key == p.idempotency_key,
{
}

/// A command runs in the workspace that it names: in its own directory within it, or
/// in its root where it names none. Elevated, it is bound to the workspace and
/// brings no directory; without a workspace it runs where it says.
pub proof fn law_commands_run_in_their_workspace(
    plan: DirectoryPlan,
    p: ExecParams,
    workspaces: Seq<WorkspaceEntry>,
)
    requires
        directory_refusal(p, workspaces) is None,
        is_directory_plan(plan, p, workspaces),
    ensures
        plan is Unbound <==> p.workspace_id is None,
        plan is ContextOnly <==> p.workspace_id is Some && p.elevated,
        plan is Resolve <==> p.workspace_id is Some && !p.elevated && p.cwd is Some,
        plan is Root <==> p.workspace_id is Some && !p.elevated && p.cwd is None,
        plan is ContextOnly ==> p.cwd is None,
        plan matches DirectoryPlan::Resolve(at) ==> at < workspaces.len() && crate::workspace::answers_to(
            workspaces[at as int],
            selected_id(Some(p.workspace_id->0@)),
        ),
        plan matches DirectoryPlan::Root(at) ==> at < workspaces.len() && crate::workspace::answers_to(
            workspaces[at as int],
            selected_id(Some(p.workspace_id->0@)),
        ),
{
}

/// The directory that was found is where the command runs, and nothing else of it
/// changes; a directory that could not be found refuses the command.
pub proof fn law_found_directories_are_used(
    p: ExecParams,
    plan: DirectoryPlan,
    found: Option<Result<String, (FsFailure, String)>>,
)
    ensures
        plan is Resolve || plan is Root ==> {
            &&& found matches Some(Ok(path)) ==> placed_params(p, plan, found) == (ExecParams {
                cwd: Some(path),
                ..p
            }) && place_refusal(plan, found) is None
            &&& found matches Some(Err(_)) ==> place_refusal(plan, found) is Some
        },
        plan is Unbound || plan is ContextOnly ==> placed_params(p, plan, found) == p
            && place_refusal(plan, found) is None,
{
}

/// A structured command that cannot be found is refused; any other goes on.
pub proof fn law_structured_programs_have_to_be_found(
    program: Seq<char>,
    requested: CommandKind,
    found: bool,
    kind: CommandKind,
)
    ensures
        classification_refusal(program, requested, found, kind) is Some <==> kind
            == CommandKind::Structured && requested == CommandKind::Structured && !found,
        classification_refusal(program, requested, found, kind) matches Some((code, _)) ==> code
            == ErrorCode::InvalidParams,
{
}

/// A pin that could not be taken refuses the command; a pin that was taken is kept.
pub proof fn law_failed_pins_refuse(pins: TakenPins)
    ensures
        pin_refusal(pins) is None <==> !(pins.backing matches Some(Err(_))) && !(
        pins.invocation matches Some(Err(_))) && !(pins.shell matches Some(Err(_))),
        pin_refusal(pins) matches Some((code, _)) ==> code == ErrorCode::PolicyDenied,
        pins.backing matches Some(Ok(pin)) ==> taken_pin(pins.backing) == Some(pin),
        pins.backing is None ==> taken_pin(pins.backing) is None,
{
}

/// The facts that a command is judged by are those of the command that runs: its
/// program, directory, workspace, elevation and kind, with the identity of the pinned
/// file, of the shell where there is none, and of nothing where neither is pinned.
pub proof fn law_exec_facts_name_what_runs(facts: OperationFacts, p: ExecParams, kind: CommandKind)
    requires
        is_exec_facts(facts, p, kind),
    ensures
        facts.capability@ == "command.run"@,
        kind == CommandKind::Structured ==> facts.kind@ == "structured"@,
        kind == CommandKind::RawShell ==> facts.kind@ == "raw_shell"@,
        facts.program matches Some(program) && program@ == p.program@,
        facts.path == p.cwd,
        facts.elevated == p.elevated,
        facts.workspace_id == p.workspace_id,
        !facts.workspace_relative,
        facts.tags@.len() == 0,
        facts.tool is None,
        p.executable_pin matches Some(pin) ==> (facts.executable_identity matches Some(id)
            && id.path == pin.path && id.content_sha256 == pin.content_sha256 && id.len
            == pin.len),
        p.executable_pin is None ==> (p.shell_pin matches Some(pin) ==> (
        facts.executable_identity matches Some(id) && id.path == pin.path && id.content_sha256
            == pin.content_sha256 && id.len == pin.len)),
        p.invocation_pin matches Some(pin) ==> (facts.invocation_identity matches Some(id)
            && id.path == pin.path && id.content_sha256 == pin.content_sha256 && id.len
            == pin.len),
        p.invocation_pin is None ==> (p.shell_pin matches Some(pin) ==> (
        facts.invocation_identity matches Some(id) && id.path == pin.path && id.content_sha256
            == pin.content_sha256 && id.len == pin.len)),
        p.executable_pin is None && p.shell_pin is None ==> facts.executable_identity is None,
        p.invocation_pin is None && p.shell_pin is None ==> facts.invocation_identity is None,
{
}

/// A bound is kept where it lies within the limits, and is the nearer limit where it
/// does not.
pub proof fn law_bounds_are_kept_within_limits(n: int, low: int, high: int)
    requires
        low <= high,
    ensures
        low <= clamped(n, low, high) <= high,
        low <= n <= high ==> clamped(n, low, high) == n,
        n < low ==> clamped(n, low, high) == low,
        n > high ==> clamped(n, low, high) == high,
{
}

/// A command whose workspace is unknown is refused, and so is a directory of its own
/// for an elevated one.
pub proof fn law_commands_need_their_workspace(p: ExecParams, workspaces: Seq<WorkspaceEntry>)
    ensures
        directory_refusal(p, workspaces) is None <==> (p.workspace_id matches Some(id)
            ==> lookup_refusal(workspaces, Some(id@)) is None && !(p.elevated && p.cwd is Some)),
        binding_refusal("x"@) matches Some((code, _)) && code == ErrorCode::Unauthorized,
{
}

/// The answer to a command is its result as it came, with the workspace that it ran in,
/// and marked where it was detached.
pub proof fn law_command_answers_keep_the_result(result: Map<Seq<char>, JsonV>, p: ExecParams)
    ensures
        forall|name: Seq<char>|
            name != "workspace_id"@ && name != "detached"@ ==> #[trigger] exec_body(result, p).get(
                name,
            ) == JsonV::Object(result).get(name),
        p.workspace_id matches Some(id) ==> exec_body(result, p).get("workspace_id"@) == Some(
            JsonV::Str(id@),
        ),
        p.workspace_id is None ==> exec_body(result, p).get("workspace_id"@) == Some(JsonV::Null),
        p.detach ==> exec_body(result, p).get("detached"@) == Some(JsonV::Bool(true)),
        !p.detach ==> exec_body(result, p).get("detached"@) == JsonV::Object(result).get(
            "detached"@,
        ),
{
    reveal_strlit("workspace_id");
    reveal_strlit("detached");
    assert("workspace_id"@.len() == 12 && "detached"@.len() == 8);
}

/// Two commands ask for the same run, whatever program, kind and pins they name.
pub open spec fn asks_the_same(p: ExecParams, q: ExecParams) -> bool {
    &&& p.args == q.args
    &&& p.cwd == q.cwd
    &&& p.workspace_id == q.workspace_id
    &&& p.env == q.env
    &&& p.timeout_ms == q.timeout_ms
    &&& p.max_output_bytes == q.max_output_bytes
    &&& p.elevated == q.elevated
    &&& p.detach == q.detach
    &&& p.kind == q.kind
    &&& p.idempotency_key == q.idempotency_key
}

/// Argv is bound to the path that launches the program that was found for it, and keeps
/// its name where none was; a shell line keeps its text. Nothing else of the command
/// changes.
pub proof fn law_commands_are_bound_to_what_was_found(
    bound: ExecParams,
    program: Option<ResolvedProgram>,
    p: ExecParams,
    requested: CommandKind,
    resolved: Option<ResolvedProgram>,
)
    requires
        is_bound_program(bound, program, p, requested, resolved),
    ensures
        asks_the_same(bound, p),
        requested is RawShell || resolved is None ==> bound.program == p.program && program is None,
        requested is Structured ==> (resolved matches Some(found) ==> bound.program
            == found.invocation && program == Some(found)),
{
}

/// A classified command carries its kind, the program that was found has to be pinned,
/// and the shell has to be exactly for shell lines. Nothing else of the command changes.
pub proof fn law_commands_are_pinned_by_kind(
    classified: ExecParams,
    plan: PinPlan,
    p: ExecParams,
    found: Option<ResolvedProgram>,
    kind: CommandKind,
)
    requires
        is_classified(classified, plan, p, found, kind),
    ensures
        asks_the_same(classified, p),
        classified.program == p.program,
        classified.policy_kind matches Some(name) && name@ == kind.name(),
        plan.program == found,
        plan.shell <==> kind is RawShell,
{
}

/// A pinned command is held to the pins that were taken, each in its own place, and
/// nothing else of it changes.
pub proof fn law_pins_are_held_in_their_place(p: ExecParams, pins: TakenPins)
    ensures
        asks_the_same(pinned_params(p, pins), p),
        pinned_params(p, pins).program == p.program,
        pinned_params(p, pins).policy_kind == p.policy_kind,
        pins.backing matches Some(Ok(pin)) ==> pinned_params(p, pins).executable_pin == Some(pin),
        pins.invocation matches Some(Ok(pin)) ==> pinned_params(p, pins).invocation_pin == Some(
            pin,
        ),
        pins.shell matches Some(Ok(pin)) ==> pinned_params(p, pins).shell_pin == Some(pin),
        pins.backing is None ==> pinned_params(p, pins).executable_pin is None,
        pins.invocation is None ==> pinned_params(p, pins).invocation_pin is None,
        pins.shell is None ==> pinned_params(p, pins).shell_pin is None,
{
}

/// An elevated command is run by the broker and by nothing else; every other one is run
/// by the daemon.
pub proof fn law_only_elevated_commands_are_handed_over(run: ExecRun, p: ExecParams, hard_max_ms: int)
    requires
        is_run_of(run, p, hard_max_ms),
    ensures
        run is Elevated <==> p.elevated,
        run matches ExecRun::Local(plan) ==> is_run_plan(plan, p, hard_max_ms),
{
}

/// A cancelled command is a conflict; a file that cannot be executed has a code of its
/// own.
pub proof fn law_failed_commands_have_their_code(failure: ExecFailure)
    ensures
        failure is Cancelled <==> exec_code(failure) == ErrorCode::Conflict,
        failure is ExecutableFormat <==> exec_code(failure) == ErrorCode::ExecutableFormat,
        failure is Other <==> exec_code(failure) == ErrorCode::Internal,
{
}

/// A command is taken in exactly where it is admitted and its workspace is there.
pub proof fn law_commands_are_taken_in(
    p: ExecParams,
    policy: PolicyState,
    hidden_rules: bool,
    workspaces: Seq<WorkspaceEntry>,
)
    ensures
        intake_refusal(p, policy, hidden_rules, workspaces) is None <==> exec_refusal(
            p,
            policy,
            hidden_rules,
        ) is None && directory_refusal(p, workspaces) is None,
        exec_refusal(p, policy, hidden_rules) is Some ==> intake_refusal(
            p,
            policy,
            hidden_rules,
            workspaces,
        ) == exec_refusal(p, policy, hidden_rules),
{
}

} // verus!

//! A review: a pinned command and tests over one state of a repository.
use crate::approvals::{answers, OperationFacts, Refusal};
use crate::approve::{optional_text, text_or_null};
use crate::dispatch::RemoteBinding;
use crate::error::{ErrorCode, IpcError};
use crate::exec::{CommandKind, ExecFailure, ResolvedProgram, RunPlan};
use crate::grants::{saturated, saturating_add, PolicyVerdict};
use crate::ids::{is_fresh_id, new_id};
use crate::json::{Json, JsonObject, JsonV};
use crate::params::{executable_identity_from_pin, identity_of, Decision, ExecutablePin};
use crate::principal::{journal_key, principal_journal_key};
use crate::review::{
    format_run_summary, hold_exactly, law_notes_stand_behind_the_rest,
    law_output_is_kept_where_there_is_room, page_bound, page_size, run_summary, spool_bytes,
    with_note, with_output, ChunkV, ResultKind, ReviewResultChunk, ReviewSpool, RunReport,
};
use crate::text::{copy_text, decimal, join, join3, same_text, trim, trimmed, unsigned_decimal};
use crate::workspace::{lookup_refusal, selected_id, selects, workspace_for, WorkspaceEntry};
use vstd::prelude::*;
use vstd::string::*;

verus! {

/// A program of a review, pinned by the daemon.
#[derive(Debug)]
pub struct ReviewCommand {
    pub program: String,
    pub args: Vec<String>,
    pub timeout_ms: u64,
    pub invocation_pin: Option<ExecutablePin>,
    pub pin: ExecutablePin,
}

/// Where a review stands.
#[derive(Debug, Clone, Copy, PartialEq, Eq, Structural)]
pub enum ReviewPhase {
    Planned,
    Running,
    Completed,
    Failed,
    Cancelled,
}

/// The durable record of a review.
#[derive(Debug)]
pub struct ReviewManifest {
    pub review_id: String,
    pub device_id: String,
    pub workspace_id: String,
    pub repo_root: String,
    pub head_oid: String,
    pub principal: String,
    pub phase: ReviewPhase,
    pub command: Option<ReviewCommand>,
    pub tests: Vec<ReviewCommand>,
    pub remote_operation_id: Option<String>,
    pub remote_payload_hash: Option<String>,
    pub status_cursor: u64,
    pub diff_cursor: u64,
    pub result_sha256: Option<String>,
    pub created_unix: i64,
    pub expires_unix: i64,
}

/// Most milliseconds of one program of a review.
pub const MAX_REVIEW_TIMEOUT_MS: u64 = 300_000;

/// Seconds that a review is kept.
pub const REVIEW_KEPT_SECS: i64 = 3600;

/// Why a review is not taken up at all: nobody vouches for the device.
pub open spec fn review_device_refusal(binding: RemoteBinding) -> Refusal {
    if binding.device_id is None {
        Some(
            (
                ErrorCode::Unauthorized,
                "review.start requires verified Agent device identity"@,
            ),
        )
    } else {
        None
    }
}

/// The device that a review runs on.
fn review_device(binding: &RemoteBinding) -> (r: Result<String, IpcError>)
    ensures
        answers(r, review_device_refusal(*binding)),
        r matches Ok(id) ==> binding.device_id == Some(id),
{
    match &binding.device_id {
        Some(id) => Ok(id.clone()),
        None => Err(
            IpcError::new(
                ErrorCode::Unauthorized,
                "review.start requires verified Agent device identity",
            ),
        ),
    }
}

/// Why an earlier receipt is not replayed: it is of another payload.
pub open spec fn review_replay_refusal(
    receipt: JsonV,
    payload_hash: Option<String>,
) -> Refusal {
    let same = match payload_hash {
        Some(hash) => receipt.get_str("remote_payload_hash"@) == Some(hash@),
        None => receipt.get_str("remote_payload_hash"@) is None,
    };
    if same {
        None
    } else {
        Some(
            (ErrorCode::Unauthorized, "review operation id replay payload binding mismatch"@),
        )
    }
}

/// Holds the replay of a review to its payload.
fn check_review_replay(receipt: &Json, payload_hash: &Option<String>) -> (r: Result<
    (),
    IpcError,
>)
    ensures
        answers(r, review_replay_refusal(receipt@, *payload_hash)),
{
    let same = match (receipt.get_str("remote_payload_hash"), payload_hash) {
        (Some(stored), Some(hash)) => same_text(stored, hash.as_str()),
        (None, None) => true,
        _ => false,
    };
    if same {
        Ok(())
    } else {
        Err(
            IpcError::new(
                ErrorCode::Unauthorized,
                "review operation id replay payload binding mismatch",
            ),
        )
    }
}

/// Why the preset in force runs no review.
pub open spec fn review_preset_refusal(enforce_workspace: bool) -> Refusal {
    if enforce_workspace {
        Some(
            (
                ErrorCode::PolicyDenied,
                "review command execution is denied under a restricted workspace preset until OS process confinement is available"@,
            ),
        )
    } else {
        None
    }
}

/// Requires a preset that runs reviews.
fn check_review_preset(enforce_workspace: bool) -> (r: Result<(), IpcError>)
    ensures
        answers(r, review_preset_refusal(enforce_workspace)),
{
    if enforce_workspace {
        return Err(
            IpcError::new(
                ErrorCode::PolicyDenied,
                "review command execution is denied under a restricted workspace preset until OS process confinement is available",
            ),
        );
    }
    Ok(())
}

/// How a request for a review goes on.
#[derive(Debug)]
pub enum ReviewAdmission {
    /// It was carried out before: its receipt is the answer.
    Replay,
    /// It is new: it runs on the device, in the workspace at a position.
    Proceed { device_id: String, workspace: usize },
}

/// Why a request for a review is refused. An earlier receipt of it is consulted
/// before anything that may have changed since.
pub open spec fn review_intake_refusal(
    binding: RemoteBinding,
    receipt: Option<JsonV>,
    enforce_workspace: bool,
    workspaces: Seq<WorkspaceEntry>,
    workspace_id: Seq<char>,
) -> Refusal {
    if review_device_refusal(binding) is Some {
        review_device_refusal(binding)
    } else if receipt is Some {
        review_replay_refusal(receipt->0, binding.payload_hash)
    } else if review_preset_refusal(enforce_workspace) is Some {
        review_preset_refusal(enforce_workspace)
    } else {
        lookup_refusal(workspaces, Some(workspace_id))
    }
}

/// How a review that is not refused goes on.
pub open spec fn is_admission(
    admission: ReviewAdmission,
    binding: RemoteBinding,
    done_before: bool,
    workspaces: Seq<WorkspaceEntry>,
    workspace_id: Seq<char>,
) -> bool {
    match admission {
        ReviewAdmission::Replay => done_before,
        ReviewAdmission::Proceed { device_id, workspace } => !done_before && binding.device_id
            == Some(device_id) && selects(
            workspaces,
            selected_id(Some(workspace_id)),
            workspace as int,
        ),
    }
}

/// Takes a request for a review up.
pub fn admit_review(
    binding: &RemoteBinding,
    receipt: Option<&Json>,
    enforce_workspace: bool,
    workspaces: &Vec<WorkspaceEntry>,
    workspace_id: &str,
) -> (r: Result<ReviewAdmission, IpcError>)
    ensures
        answers(
            r,
            review_intake_refusal(
                *binding,
                match receipt {
                    Some(json) => Some(json@),
                    None => None,
                },
                enforce_workspace,
                workspaces@,
                workspace_id@,
            ),
        ),
        r matches Ok(admission) ==> is_admission(
            admission,
            *binding,
            receipt is Some,
            workspaces@,
            workspace_id@,
        ),
{
    let device_id = match review_device(binding) {
        Ok(id) => id,
        Err(e) => {
            return Err(e);
        },
    };
    if let Some(json) = receipt {
        return match check_review_replay(json, &binding.payload_hash) {
            Ok(()) => Ok(ReviewAdmission::Replay),
            Err(e) => Err(e),
        };
    }
    match check_review_preset(enforce_workspace) {
        Ok(()) => {},
        Err(e) => {
            return Err(e);
        },
    }
    match workspace_for(workspaces, Some(workspace_id)) {
        Ok(workspace) => Ok(ReviewAdmission::Proceed { device_id, workspace }),
        Err(e) => Err(e),
    }
}

/// Why a program of a review is refused as it was asked for.
pub open spec fn review_argv_refusal(program: Seq<char>, timeout_ms: int) -> Refusal {
    if trim(program).len() == 0 || timeout_ms == 0 || timeout_ms > MAX_REVIEW_TIMEOUT_MS {
        Some((ErrorCode::InvalidParams, "invalid review argv command"@))
    } else {
        None
    }
}

/// Holds a program of a review to its form.
pub fn check_review_argv(program: &str, timeout_ms: u64) -> (r: Result<(), IpcError>)
    ensures
        answers(r, review_argv_refusal(program@, timeout_ms as int)),
{
    if trimmed(program).as_str().is_empty() || timeout_ms == 0 || timeout_ms
        > MAX_REVIEW_TIMEOUT_MS {
        return Err(IpcError::new(ErrorCode::InvalidParams, "invalid review argv command"));
    }
    Ok(())
}

/// Why a program of a review is refused as it was found: not at all, or through a
/// shell.
pub open spec fn review_program_refusal(
    found: bool,
    invocation_kind: CommandKind,
    backing_kind: CommandKind,
) -> Refusal {
    if !found {
        Some(
            (
                ErrorCode::InvalidParams,
                "review program could not be resolved to a regular executable"@,
            ),
        )
    } else if invocation_kind != CommandKind::Structured || backing_kind
        != CommandKind::Structured {
        Some(
            (
                ErrorCode::PolicyDenied,
                "review commands must be pinned structured argv executables, not shells or interpreters"@,
            ),
        )
    } else {
        None
    }
}

/// Holds a program of a review to what was found of it.
pub fn check_review_program(
    found: bool,
    invocation_kind: CommandKind,
    backing_kind: CommandKind,
) -> (r: Result<(), IpcError>)
    ensures
        answers(r, review_program_refusal(found, invocation_kind, backing_kind)),
{
    if !found {
        return Err(
            IpcError::new(
                ErrorCode::InvalidParams,
                "review program could not be resolved to a regular executable",
            ),
        );
    }
    if invocation_kind != CommandKind::Structured || backing_kind != CommandKind::Structured {
        return Err(
            IpcError::new(
                ErrorCode::PolicyDenied,
                "review commands must be pinned structured argv executables, not shells or interpreters",
            ),
        );
    }
    Ok(())
}

/// Why a program of a review could not be pinned.
pub open spec fn review_pin_refusal(
    backing: Result<ExecutablePin, String>,
    invocation: Result<ExecutablePin, String>,
) -> Refusal {
    match (backing, invocation) {
        (Err(e), _) => Some(
            (ErrorCode::PolicyDenied, "unable to pin review executable: "@ + e@),
        ),
        (_, Err(e)) => Some(
            (ErrorCode::PolicyDenied, "unable to pin review invocation executable: "@ + e@),
        ),
        _ => None,
    }
}

/// A program of a review, held to its pins.
pub open spec fn pinned_command(
    resolved: ResolvedProgram,
    args: Vec<String>,
    timeout_ms: u64,
    backing: ExecutablePin,
    invocation: ExecutablePin,
) -> ReviewCommand {
    ReviewCommand {
        program: resolved.invocation,
        args,
        timeout_ms,
        invocation_pin: Some(invocation),
        pin: backing,
    }
}

/// Pins a program of a review: the path that launches it, and the file behind it.
pub fn pin_review_command(
    resolved: ResolvedProgram,
    args: Vec<String>,
    timeout_ms: u64,
    backing: Result<ExecutablePin, String>,
    invocation: Result<ExecutablePin, String>,
) -> (r: Result<ReviewCommand, IpcError>)
    ensures
        answers(r, review_pin_refusal(backing, invocation)),
        r matches Ok(command) ==> command == pinned_command(
            resolved,
            args,
            timeout_ms,
            backing->Ok_0,
            invocation->Ok_0,
        ),
{
    let pin = match backing {
        Ok(pin) => pin,
        Err(e) => {
            return Err(
                IpcError::with_message(
                    ErrorCode::PolicyDenied,
                    join("unable to pin review executable: ", e.as_str()),
                ),
            );
        },
    };
    let invocation_pin = match invocation {
        Ok(pin) => pin,
        Err(e) => {
            return Err(
                IpcError::with_message(
                    ErrorCode::PolicyDenied,
                    join("unable to pin review invocation executable: ", e.as_str()),
                ),
            );
        },
    };
    Ok(
        ReviewCommand {
            program: resolved.invocation,
            args,
            timeout_ms,
            invocation_pin: Some(invocation_pin),
            pin,
        },
    )
}

/// The pin of the path that a program of a review is invoked by.
pub open spec fn invoked_pin(command: ReviewCommand) -> ExecutablePin {
    match command.invocation_pin {
        Some(pin) => pin,
        None => command.pin,
    }
}

/// The facts that a program of a review is judged by, in the directory of its
/// repository.
pub open spec fn is_review_facts(
    facts: OperationFacts,
    command: ReviewCommand,
    directory: Seq<char>,
) -> bool {
    &&& facts.capability@ == "command.run"@
    &&& facts.kind@ == "structured"@
    &&& facts.program == Some(command.program)
    &&& facts.path matches Some(path) && path@ == directory
    &&& !facts.elevated
    &&& facts.workspace_relative
    &&& facts.workspace_id is None
    &&& facts.tags@.len() == 1
    &&& facts.tags@[0]@ == "review"@
    &&& facts.tool is None
    &&& facts.executable_identity == Some(identity_of(command.pin))
    &&& facts.invocation_identity == Some(identity_of(invoked_pin(command)))
}

/// The facts that a program of a review is judged by.
fn review_facts(command: &ReviewCommand, directory: &str) -> (facts: OperationFacts)
    ensures
        is_review_facts(facts, *command, directory@),
{
    let invocation = match &command.invocation_pin {
        Some(pin) => pin,
        None => &command.pin,
    };
    let mut tags: Vec<String> = Vec::new();
    tags.push("review".to_owned());
    OperationFacts {
        capability: "command.run".to_owned(),
        kind: "structured".to_owned(),
        program: Some(command.program.clone()),
        path: Some(directory.to_owned()),
        elevated: false,
        workspace_relative: true,
        workspace_id: None,
        tags,
        tool: None,
        executable_identity: Some(executable_identity_from_pin(&command.pin)),
        invocation_identity: Some(executable_identity_from_pin(invocation)),
    }
}

/// The programs of a review, in the order in which they are judged and run.
pub open spec fn programs_of(
    command: Option<ReviewCommand>,
    tests: Seq<ReviewCommand>,
) -> Seq<ReviewCommand> {
    match command {
        Some(c) => seq![c] + tests,
        None => tests,
    }
}

/// The facts of all programs of a review: none goes unjudged.
pub fn review_program_facts(
    command: &Option<ReviewCommand>,
    tests: &Vec<ReviewCommand>,
    directory: &str,
) -> (facts: Vec<OperationFacts>)
    ensures
        facts@.len() == programs_of(*command, tests@).len(),
        forall|i: int|
            0 <= i < facts@.len() ==> is_review_facts(
                #[trigger] facts@[i],
                programs_of(*command, tests@)[i],
                directory@,
            ),
{
    let mut facts: Vec<OperationFacts> = Vec::new();
    let ghost programs = programs_of(*command, tests@);
    let mut first: usize = 0;
    if let Some(c) = command {
        facts.push(review_facts(c, directory));
        first = 1;
    }
    let mut i: usize = 0;
    while i < tests.len()
        invariant
            i <= tests@.len(),
            programs == programs_of(*command, tests@),
            first == (if *command is Some {
                1int
            } else {
                0
            }),
            facts@.len() == first + i,
            forall|j: int|
                0 <= j < facts@.len() ==> is_review_facts(
                    #[trigger] facts@[j],
                    programs[j],
                    directory@,
                ),
        decreases tests.len() - i,
    {
        let next = review_facts(&tests[i], directory);
        assert(programs[first + i] == tests@[i as int]);
        facts.push(next);
        i += 1;
    }
    facts
}

/// Most output bytes of one program of a review.
pub const REVIEW_OUTPUT_BYTES: usize = 98_304;

/// Entries of a repository's state that a review keeps.
pub const REVIEW_SNAPSHOT_LIMIT: usize = 500;

/// Bytes of a repository's changes that a review keeps.
pub const REVIEW_DIFF_BYTES: usize = 65_536;

/// The bounds that a program of a review runs in; it gets no environment of its own.
pub fn review_run_plan(command: &ReviewCommand) -> (plan: RunPlan)
    ensures
        plan.timeout_ms == Some(command.timeout_ms),
        plan.max_output_bytes == REVIEW_OUTPUT_BYTES,
        plan.env@.len() == 0,
{
    RunPlan {
        timeout_ms: Some(command.timeout_ms),
        max_output_bytes: REVIEW_OUTPUT_BYTES,
        env: Vec::new(),
    }
}

/// The journal key of a review: that of the remote operation, for its principal.
pub fn review_journal_key(binding: &RemoteBinding, principal: &str) -> (key: Option<String>)
    ensures
        match (binding.operation_id, key) {
            (Some(o), Some(k)) => k@ == journal_key(principal@, o@),
            (None, None) => true,
            _ => false,
        },
{
    match &binding.operation_id {
        Some(o) => Some(principal_journal_key(principal, o.as_str())),
        None => None,
    }
}

/// The operation of a review: the remote one, or a fresh one.
pub fn review_operation_id(binding: &RemoteBinding) -> (id: String)
    ensures
        match binding.operation_id {
            Some(o) => id == o,
            None => is_fresh_id(id@, "op_"@),
        },
{
    match &binding.operation_id {
        Some(o) => o.clone(),
        None => new_id("op_"),
    }
}

/// The stricter of two decisions.
pub open spec fn tighter(a: Decision, b: Decision) -> Decision {
    if a == Decision::Deny || b == Decision::Deny {
        Decision::Deny
    } else if a == Decision::Ask || b == Decision::Ask {
        Decision::Ask
    } else {
        Decision::Allow
    }
}

/// The strictest decision of a batch.
pub open spec fn tightest(verdicts: Seq<PolicyVerdict>) -> Decision
    decreases verdicts.len(),
{
    if verdicts.len() == 0 {
        Decision::Allow
    } else {
        tighter(tightest(verdicts.drop_last()), verdicts.last().decision)
    }
}

/// The reasons of a batch, in a row.
pub open spec fn joined_reasons(verdicts: Seq<PolicyVerdict>) -> Seq<char>
    decreases verdicts.len(),
{
    if verdicts.len() == 0 {
        Seq::empty()
    } else if verdicts.len() == 1 {
        verdicts[0].reason@
    } else {
        joined_reasons(verdicts.drop_last()) + "; "@ + verdicts.last().reason@
    }
}

/// Why a batch of programs is refused.
pub open spec fn review_batch_refusal(verdicts: Seq<PolicyVerdict>) -> Refusal {
    match tightest(verdicts) {
        Decision::Deny => Some(
            (
                ErrorCode::PolicyDenied,
                "policy denied review batch: "@ + joined_reasons(verdicts),
            ),
        ),
        Decision::Ask => Some(
            (
                ErrorCode::PolicyDenied,
                "review batch requires a policy approval path which is not available for review.start: "@
                    + joined_reasons(verdicts),
            ),
        ),
        Decision::Allow => None,
    }
}

/// Authorizes a batch of programs: the strictest verdict on any of them counts.
pub fn authorize_review_batch(verdicts: &Vec<PolicyVerdict>) -> (r: Result<(), IpcError>)
    ensures
        answers(r, review_batch_refusal(verdicts@)),
{
    let mut aggregate = Decision::Allow;
    let mut reasons = String::new();
    let mut i: usize = 0;
    proof {
        assert(verdicts@.take(0) =~= Seq::<PolicyVerdict>::empty());
        assert(reasons@ =~= joined_reasons(verdicts@.take(0)));
    }
    while i < verdicts.len()
        invariant
            i <= verdicts@.len(),
            aggregate == tightest(verdicts@.take(i as int)),
            reasons@ == joined_reasons(verdicts@.take(i as int)),
        decreases verdicts.len() - i,
    {
        assert(verdicts@.take(i + 1).drop_last() =~= verdicts@.take(i as int));
        let decision = verdicts[i].decision;
        aggregate = match (aggregate, decision) {
            (Decision::Deny, _) => Decision::Deny,
            (_, Decision::Deny) => Decision::Deny,
            (Decision::Ask, _) => Decision::Ask,
            (_, Decision::Ask) => Decision::Ask,
            _ => Decision::Allow,
        };
        if i == 0 {
            reasons = verdicts[i].reason.clone();
        } else {
            reasons.append("; ");
            reasons.append(verdicts[i].reason.as_str());
        }
        i += 1;
    }
    assert(verdicts@.take(i as int) =~= verdicts@);
    match aggregate {
        Decision::Deny => Err(
            IpcError::with_message(
                ErrorCode::PolicyDenied,
                join("policy denied review batch: ", reasons.as_str()),
            ),
        ),
        Decision::Ask => Err(
            IpcError::with_message(
                ErrorCode::PolicyDenied,
                join(
                    "review batch requires a policy approval path which is not available for review.start: ",
                    reasons.as_str(),
                ),
            ),
        ),
        Decision::Allow => Ok(()),
    }
}

/// A batch runs only where every program of it is allowed.
pub proof fn law_every_program_of_a_batch_is_allowed(verdicts: Seq<PolicyVerdict>)
    ensures
        review_batch_refusal(verdicts) is None <==> forall|i: int|
            0 <= i < verdicts.len() ==> (#[trigger] verdicts[i]).decision == Decision::Allow,
    decreases verdicts.len(),
{
    if verdicts.len() > 0 {
        let front = verdicts.drop_last();
        law_every_program_of_a_batch_is_allowed(front);
        if tightest(verdicts) == Decision::Allow {
            assert forall|i: int| 0 <= i < verdicts.len() implies (#[trigger] verdicts[i]).decision
                == Decision::Allow by {
                if i < front.len() {
                    assert(front[i] == verdicts[i]);
                }
            }
        } else if forall|i: int|
            0 <= i < verdicts.len() ==> (#[trigger] verdicts[i]).decision == Decision::Allow {
            assert forall|i: int| 0 <= i < front.len() implies (#[trigger] front[i]).decision
                == Decision::Allow by {
                assert(front[i] == verdicts[i]);
            }
            assert(verdicts.last().decision == Decision::Allow);
        }
    }
}

/// What a review begins with.
#[derive(Debug)]
pub struct ReviewStart {
    pub device_id: String,
    pub workspace_id: String,
    pub repo_root: String,
    pub head_oid: String,
    pub principal: String,
    pub command: Option<ReviewCommand>,
    pub tests: Vec<ReviewCommand>,
}

/// The record that a review begins with.
pub open spec fn is_manifest_of(
    m: ReviewManifest,
    start: ReviewStart,
    binding: RemoteBinding,
    now: i64,
) -> bool {
    &&& is_fresh_id(m.review_id@, "rev_"@)
    &&& m.device_id == start.device_id
    &&& m.workspace_id == start.workspace_id
    &&& m.repo_root == start.repo_root
    &&& m.head_oid == start.head_oid
    &&& m.principal == start.principal
    &&& m.phase == ReviewPhase::Planned
    &&& m.command == start.command
    &&& m.tests == start.tests
    &&& m.remote_operation_id == binding.operation_id
    &&& m.remote_payload_hash == binding.payload_hash
    &&& m.status_cursor == 0
    &&& m.diff_cursor == 0
    &&& m.result_sha256 is None
    &&& m.created_unix == now
    &&& m.expires_unix == saturated(now + REVIEW_KEPT_SECS)
}

/// The record of a review that begins.
pub fn new_manifest(start: ReviewStart, binding: &RemoteBinding, now: i64) -> (m: ReviewManifest)
    ensures
        is_manifest_of(m, start, *binding, now),
{
    ReviewManifest {
        review_id: new_id("rev_"),
        device_id: start.device_id,
        workspace_id: start.workspace_id,
        repo_root: start.repo_root,
        head_oid: start.head_oid,
        principal: start.principal,
        phase: ReviewPhase::Planned,
        command: start.command,
        tests: start.tests,
        remote_operation_id: copy_text(&binding.operation_id),
        remote_payload_hash: copy_text(&binding.payload_hash),
        status_cursor: 0,
        diff_cursor: 0,
        result_sha256: None,
        created_unix: now,
        expires_unix: saturating_add(now, REVIEW_KEPT_SECS),
    }
}

/// How an attempt to run a program of a review ended.
#[derive(Debug)]
pub enum ReviewAttempt {
    /// It classifies otherwise, or its pins no longer hold: it was not spawned.
    Unprepared,
    /// It ran; whether a cancellation was asked for meanwhile.
    Finished { report: RunReport, cancelled: bool },
    /// It could not be run.
    Failed { failure: ExecFailure, message: String },
}

/// How a program of a review counts.
#[derive(Debug)]
pub struct RunOutcome {
    pub ok: bool,
    pub cancelled: bool,
    pub report: RunReport,
}

/// What a program that was not spawned reports.
pub open spec fn unprepared_text() -> Seq<char> {
    "OWNMESH_E_EXECUTABLE_IDENTITY_DRIFT: executable preparation failed; review command was not spawned"@
}

/// A report of a program that never ran.
pub open spec fn is_empty_report(report: RunReport, stderr: Seq<char>) -> bool {
    &&& report.exit_code is None
    &&& report.stdout@.len() == 0
    &&& report.stderr@ == vstd::utf8::encode_utf8(stderr)
    &&& !report.timed_out
    &&& !report.truncated
    &&& report.duration_ms == 0
}

/// Reports a program that never ran.
fn empty_report(stderr: &str) -> (report: RunReport)
    ensures
        is_empty_report(report, stderr@),
{
    RunReport {
        exit_code: None,
        stdout: Vec::new(),
        stderr: stderr.as_bytes_vec(),
        timed_out: false,
        truncated: false,
        duration_ms: 0,
    }
}

/// Whether a program of a review is prepared at all: by its path and by the file
/// behind it, it is argv of one program.
pub fn review_is_structured(invocation_kind: CommandKind, backing_kind: CommandKind) -> (b: bool)
    ensures
        b == (invocation_kind == CommandKind::Structured && backing_kind
            == CommandKind::Structured),
{
    invocation_kind == CommandKind::Structured && backing_kind == CommandKind::Structured
}

/// How a program of a review counts, by how it ended.
pub open spec fn is_outcome_of(outcome: RunOutcome, attempt: ReviewAttempt) -> bool {
    match attempt {
        ReviewAttempt::Unprepared => !outcome.ok && !outcome.cancelled && is_empty_report(
            outcome.report,
            unprepared_text(),
        ),
        ReviewAttempt::Finished { report, cancelled } => outcome == (RunOutcome {
            ok: report.exit_code == Some(0i32) && !report.timed_out && !cancelled,
            cancelled,
            report,
        }),
        ReviewAttempt::Failed { failure, message } => !outcome.ok && outcome.cancelled == (failure
            == ExecFailure::Cancelled) && is_empty_report(outcome.report, message@),
    }
}

/// A program passes only by an exit of zero, in time and not cancelled; what it
/// printed is what is reported, and a program that never ran reports why on its
/// standard error.
pub proof fn law_only_clean_exits_pass(outcome: RunOutcome, attempt: ReviewAttempt)
    requires
        is_outcome_of(outcome, attempt),
    ensures
        outcome.ok <==> (attempt matches ReviewAttempt::Finished { report, cancelled } && (
        report.exit_code matches Some(code) && code == 0) && !report.timed_out && !cancelled),
        attempt matches ReviewAttempt::Finished { report, cancelled } ==> outcome.report == report
            && outcome.cancelled == cancelled,
        attempt matches ReviewAttempt::Failed { failure, message } ==> (outcome.cancelled <==> failure
            == ExecFailure::Cancelled) && outcome.report.stderr@ == vstd::utf8::encode_utf8(
            message@,
        ),
        attempt is Unprepared ==> !outcome.cancelled && outcome.report.stderr@.len() > 0,
        !(attempt is Finished) ==> outcome.report.exit_code is None
            && outcome.report.stdout@.len() == 0,
{
    reveal_strlit(
        "OWNMESH_E_EXECUTABLE_IDENTITY_DRIFT: executable preparation failed; review command was not spawned",
    );
    if attempt is Unprepared {
        crate::text::lemma_utf8_len_first(unprepared_text());
    }
}

/// Judges how a program of a review ended.
pub fn run_review_command(attempt: ReviewAttempt) -> (outcome: RunOutcome)
    ensures
        is_outcome_of(outcome, attempt),
{
    match attempt {
        ReviewAttempt::Unprepared => RunOutcome {
            ok: false,
            cancelled: false,
            report: empty_report(
                "OWNMESH_E_EXECUTABLE_IDENTITY_DRIFT: executable preparation failed; review command was not spawned",
            ),
        },
        ReviewAttempt::Finished { report, cancelled } => {
            let clean = match report.exit_code {
                Some(code) => code == 0,
                None => false,
            };
            RunOutcome { ok: clean && !report.timed_out && !cancelled, cancelled, report }
        },
        ReviewAttempt::Failed { failure, message } => RunOutcome {
            ok: false,
            cancelled: failure == ExecFailure::Cancelled,
            report: empty_report(message.as_str()),
        },
    }
}

/// When the head of the repository is compared.
#[derive(Debug, Clone, Copy, PartialEq, Eq, Structural)]
pub enum HeadPoint {
    BeforeCommand,
    AfterCommand,
    AfterTests,
}

/// A program of a review.
#[derive(Debug, Clone, Copy, PartialEq, Eq, Structural)]
pub enum ReviewProgram {
    Command,
    Test(usize),
}

/// A closing snapshot of the repository.
#[derive(Debug, Clone, Copy, PartialEq, Eq, Structural)]
pub enum RepositorySnapshot {
    Status,
    Diff,
}

/// What a running review does next.
#[derive(Debug, Clone, Copy, PartialEq, Eq, Structural)]
pub enum ReviewStage {
    /// Compare the head of the repository.
    Head(HeadPoint),
    /// Run a program.
    Run(ReviewProgram),
    /// Take a snapshot.
    Snapshot(RepositorySnapshot),
    /// Conclude.
    Done,
}

/// A running review as a value.
pub struct ReviewV {
    pub chunks: Seq<ChunkV>,
    pub failed: bool,
    pub cancelled: bool,
}

impl ReviewV {
    /// The review with a note of the daemon.
    pub open spec fn noted(self, note: Seq<char>) -> ReviewV {
        ReviewV { chunks: with_note(self.chunks, note), ..self }
    }

    /// The review with output of a program or a snapshot.
    pub open spec fn printed(
        self,
        kind: ResultKind,
        test_index: Option<u8>,
        bytes: Seq<u8>,
    ) -> ReviewV {
        ReviewV { chunks: with_output(self.chunks, kind, test_index, bytes), ..self }
    }

    /// The review, failed.
    pub open spec fn failing(self) -> ReviewV {
        ReviewV { failed: true, ..self }
    }
}

/// What follows the command and the tests: a cancelled review is not compared
/// once more.
pub open spec fn after_programs(v: ReviewV) -> (ReviewV, ReviewStage) {
    if v.cancelled {
        (
            v.noted("review cancelled; process tree termination requested"@),
            ReviewStage::Snapshot(RepositorySnapshot::Status),
        )
    } else {
        (v, ReviewStage::Head(HeadPoint::AfterTests))
    }
}

/// What follows a comparison of the head; `same` says whether it is the one that
/// the review began with.
pub open spec fn after_head(
    v: ReviewV,
    point: HeadPoint,
    same: bool,
    tests: int,
) -> (ReviewV, ReviewStage) {
    match point {
        HeadPoint::BeforeCommand => if same {
            (v, ReviewStage::Run(ReviewProgram::Command))
        } else {
            after_programs(
                v.noted("review repository HEAD changed before command spawn"@).failing(),
            )
        },
        HeadPoint::AfterCommand => if !same {
            after_programs(
                v.noted(
                    "review repository HEAD changed after command; tests not started"@,
                ).failing(),
            )
        } else if tests > 0 {
            (v, ReviewStage::Run(ReviewProgram::Test(0)))
        } else {
            after_programs(v)
        },
        HeadPoint::AfterTests => (
            if same {
                v
            } else {
                v.noted(
                    "review repository HEAD changed after tests; final result is stale"@,
                ).failing()
            },
            ReviewStage::Snapshot(RepositorySnapshot::Status),
        ),
    }
}

/// The label of a program in its summary.
pub open spec fn program_label(program: ReviewProgram) -> Seq<char> {
    match program {
        ReviewProgram::Command => "command"@,
        ReviewProgram::Test(index) => "test["@ + decimal(index as int) + "]"@,
    }
}

/// The review with the outcome of a program.
pub open spec fn recorded(v: ReviewV, program: ReviewProgram, outcome: RunOutcome) -> ReviewV {
    let counted = ReviewV {
        cancelled: v.cancelled || outcome.cancelled,
        failed: v.failed || !outcome.ok,
        ..v
    };
    let (stdout, stderr, index) = match program {
        ReviewProgram::Command => (ResultKind::CommandStdout, ResultKind::CommandStderr, None),
        ReviewProgram::Test(i) => (
            ResultKind::TestStdout,
            ResultKind::TestStderr,
            Some((i % 256) as u8),
        ),
    };
    counted.printed(stdout, index, outcome.report.stdout@).printed(
        stderr,
        index,
        outcome.report.stderr@,
    ).noted(run_summary(program_label(program), outcome.report))
}

/// What follows a program: tests run only after a clean command, and all of them
/// unless the review is cancelled.
pub open spec fn after_run(
    v: ReviewV,
    program: ReviewProgram,
    outcome: RunOutcome,
    tests: int,
) -> (ReviewV, ReviewStage) {
    let next = recorded(v, program, outcome);
    match program {
        ReviewProgram::Command => if next.cancelled || next.failed {
            after_programs(next)
        } else {
            (next, ReviewStage::Head(HeadPoint::AfterCommand))
        },
        ReviewProgram::Test(i) => if !next.cancelled && i + 1 < tests {
            (next, ReviewStage::Run(ReviewProgram::Test((i + 1) as usize)))
        } else {
            after_programs(next)
        },
    }
}

/// The review with a snapshot, or with the note that there is none.
pub open spec fn with_snapshot(
    v: ReviewV,
    snapshot: RepositorySnapshot,
    taken: Result<Vec<u8>, String>,
) -> ReviewV {
    match (snapshot, taken) {
        (RepositorySnapshot::Status, Ok(bytes)) => v.printed(ResultKind::GitStatus, None, bytes@),
        (RepositorySnapshot::Status, Err(e)) => v.noted("git status snapshot failed: "@ + e@),
        (RepositorySnapshot::Diff, Ok(bytes)) => v.printed(ResultKind::GitDiff, None, bytes@),
        (RepositorySnapshot::Diff, Err(e)) => v.noted("git diff snapshot failed: "@ + e@),
    }
}

/// Chunks from which on a spool is said to be truncated.
pub const TRUNCATED_CHUNKS: usize = 58;

/// What follows a snapshot.
pub open spec fn after_snapshot(
    v: ReviewV,
    snapshot: RepositorySnapshot,
    taken: Result<Vec<u8>, String>,
) -> (ReviewV, ReviewStage) {
    let next = with_snapshot(v, snapshot, taken);
    match snapshot {
        RepositorySnapshot::Status => (next, ReviewStage::Snapshot(RepositorySnapshot::Diff)),
        RepositorySnapshot::Diff => (
            if next.chunks.len() >= TRUNCATED_CHUNKS {
                next.noted("review aggregate spool truncated at bounded chunk budget"@)
            } else {
                next
            },
            ReviewStage::Done,
        ),
    }
}

/// A running review.
#[derive(Debug)]
pub struct ReviewRun {
    spool: ReviewSpool,
    failed: bool,
    cancelled: bool,
    head_oid: String,
    tests: usize,
}

/// A review that has run nothing yet: what it started from is noted.
pub open spec fn begun_review(baseline: Seq<char>) -> ReviewV {
    (ReviewV { chunks: Seq::empty(), failed: false, cancelled: false }).noted(
        "baseline git status: "@ + baseline,
    )
}

/// The stage that a review begins with.
pub open spec fn first_stage(has_command: bool) -> ReviewStage {
    ReviewStage::Head(
        if has_command {
            HeadPoint::BeforeCommand
        } else {
            HeadPoint::AfterCommand
        },
    )
}

impl ReviewRun {
    /// The review as a value.
    pub closed spec fn view(&self) -> ReviewV {
        ReviewV { chunks: self.spool.chunks(), failed: self.failed, cancelled: self.cancelled }
    }

    /// The head of the repository that the review began with.
    pub closed spec fn head(&self) -> Seq<char> {
        self.head_oid@
    }

    /// How many tests the review has.
    pub closed spec fn test_count(&self) -> int {
        self.tests as int
    }

    /// The review is the same one, further on.
    pub open spec fn continues(&self, before: &ReviewRun) -> bool {
        self.head() == before.head() && self.test_count() == before.test_count()
    }

    /// Begins a review. `baseline` is the status of the repository at its start.
    pub fn handle_review_start(
        head_oid: String,
        baseline: &str,
        has_command: bool,
        tests: usize,
    ) -> (begun: (ReviewRun, ReviewStage))
        ensures
            begun.0.head() == head_oid@,
            begun.0.test_count() == tests,
            begun.0@ == begun_review(baseline@),
            begun.1 == first_stage(has_command),
    {
        let mut spool = ReviewSpool::new();
        spool.append_review_system(join("baseline git status: ", baseline).as_str());
        let run = ReviewRun { spool, failed: false, cancelled: false, head_oid, tests };
        if has_command {
            (run, ReviewStage::Head(HeadPoint::BeforeCommand))
        } else {
            (run, ReviewStage::Head(HeadPoint::AfterCommand))
        }
    }

    /// Goes on after the command and the tests.
    fn leave_programs(&mut self) -> (stage: ReviewStage)
        ensures
            (final(self)@, stage) == after_programs(old(self)@),
            final(self).continues(old(self)),
    {
        if self.cancelled {
            self.spool.append_review_system(
                "review cancelled; process tree termination requested",
            );
            ReviewStage::Snapshot(RepositorySnapshot::Status)
        } else {
            ReviewStage::Head(HeadPoint::AfterTests)
        }
    }

    /// Goes on after a comparison of the head.
    pub fn on_head(&mut self, point: HeadPoint, head: &str) -> (stage: ReviewStage)
        ensures
            (final(self)@, stage) == after_head(
                old(self)@,
                point,
                head@ == old(self).head(),
                old(self).test_count(),
            ),
            final(self).continues(old(self)),
    {
        let same = same_text(head, self.head_oid.as_str());
        match point {
            HeadPoint::BeforeCommand => {
                if same {
                    return ReviewStage::Run(ReviewProgram::Command);
                }
                self.spool.append_review_system(
                    "review repository HEAD changed before command spawn",
                );
                self.failed = true;
                self.leave_programs()
            },
            HeadPoint::AfterCommand => {
                if !same {
                    self.spool.append_review_system(
                        "review repository HEAD changed after command; tests not started",
                    );
                    self.failed = true;
                    return self.leave_programs();
                }
                if self.tests > 0 {
                    return ReviewStage::Run(ReviewProgram::Test(0));
                }
                self.leave_programs()
            },
            HeadPoint::AfterTests => {
                if !same {
                    self.spool.append_review_system(
                        "review repository HEAD changed after tests; final result is stale",
                    );
                    self.failed = true;
                }
                ReviewStage::Snapshot(RepositorySnapshot::Status)
            },
        }
    }

    /// Records the outcome of a program.
    fn record(&mut self, program: ReviewProgram, outcome: &RunOutcome)
        ensures
            final(self)@ == recorded(old(self)@, program, *outcome),
            final(self).continues(old(self)),
    {
        self.cancelled = self.cancelled || outcome.cancelled;
        self.failed = self.failed || !outcome.ok;
        let (stdout, stderr, index, label) = match program {
            ReviewProgram::Command => (
                ResultKind::CommandStdout,
                ResultKind::CommandStderr,
                None,
                "command".to_owned(),
            ),
            ReviewProgram::Test(i) => (
                ResultKind::TestStdout,
                ResultKind::TestStderr,
                Some((i % 256) as u8),
                join3("test[", unsigned_decimal(i as u64).as_str(), "]"),
            ),
        };
        self.spool.append_review_result(stdout, index, &outcome.report.stdout);
        self.spool.append_review_result(stderr, index, &outcome.report.stderr);
        let summary = format_run_summary(label.as_str(), &outcome.report);
        self.spool.append_review_system(summary.as_str());
    }

    /// Goes on after a program.
    pub fn on_run(&mut self, program: ReviewProgram, outcome: &RunOutcome) -> (stage: ReviewStage)
        ensures
            (final(self)@, stage) == after_run(
                old(self)@,
                program,
                *outcome,
                old(self).test_count(),
            ),
            final(self).continues(old(self)),
    {
        self.record(program, outcome);
        match program {
            ReviewProgram::Command => {
                if self.cancelled || self.failed {
                    self.leave_programs()
                } else {
                    ReviewStage::Head(HeadPoint::AfterCommand)
                }
            },
            ReviewProgram::Test(i) => {
                if !self.cancelled && i < self.tests && i + 1 < self.tests {
                    ReviewStage::Run(ReviewProgram::Test(i + 1))
                } else {
                    self.leave_programs()
                }
            },
        }
    }

    /// Goes on after a snapshot.
    pub fn on_snapshot(
        &mut self,
        snapshot: RepositorySnapshot,
        taken: &Result<Vec<u8>, String>,
    ) -> (stage: ReviewStage)
        ensures
            (final(self)@, stage) == after_snapshot(old(self)@, snapshot, *taken),
            final(self).continues(old(self)),
    {
        match (snapshot, taken) {
            (RepositorySnapshot::Status, Ok(bytes)) => {
                self.spool.append_review_result(ResultKind::GitStatus, None, bytes);
            },
            (RepositorySnapshot::Status, Err(e)) => {
                self.spool.append_review_system(
                    join("git status snapshot failed: ", e.as_str()).as_str(),
                );
            },
            (RepositorySnapshot::Diff, Ok(bytes)) => {
                self.spool.append_review_result(ResultKind::GitDiff, None, bytes);
            },
            (RepositorySnapshot::Diff, Err(e)) => {
                self.spool.append_review_system(
                    join("git diff snapshot failed: ", e.as_str()).as_str(),
                );
            },
        }
        match snapshot {
            RepositorySnapshot::Status => ReviewStage::Snapshot(RepositorySnapshot::Diff),
            RepositorySnapshot::Diff => {
                if self.spool.len() >= TRUNCATED_CHUNKS {
                    self.spool.append_review_system(
                        "review aggregate spool truncated at bounded chunk budget",
                    );
                }
                ReviewStage::Done
            },
        }
    }

    /// Concludes a review: its phase, and its output.
    pub fn conclude(self) -> (end: (ReviewPhase, Vec<ReviewResultChunk>))
        ensures
            end.0 == phase_of(self@),
            crate::review::chunk_views(end.1@) == self@.chunks,
    {
        let phase = if self.cancelled {
            ReviewPhase::Cancelled
        } else if self.failed {
            ReviewPhase::Failed
        } else {
            ReviewPhase::Completed
        };
        (phase, self.spool.into_chunks())
    }
}

/// The phase that a review ends in.
pub open spec fn phase_of(v: ReviewV) -> ReviewPhase {
    if v.cancelled {
        ReviewPhase::Cancelled
    } else if v.failed {
        ReviewPhase::Failed
    } else {
        ReviewPhase::Completed
    }
}

/// Nothing makes a failed or cancelled review whole again.
pub proof fn law_failure_is_final(
    v: ReviewV,
    point: HeadPoint,
    same: bool,
    program: ReviewProgram,
    outcome: RunOutcome,
    snapshot: RepositorySnapshot,
    taken: Result<Vec<u8>, String>,
    tests: int,
)
    ensures
        v.failed ==> after_head(v, point, same, tests).0.failed,
        v.cancelled ==> after_head(v, point, same, tests).0.cancelled,
        v.failed ==> after_run(v, program, outcome, tests).0.failed,
        v.cancelled ==> after_run(v, program, outcome, tests).0.cancelled,
        after_snapshot(v, snapshot, taken).0.failed == v.failed,
        after_snapshot(v, snapshot, taken).0.cancelled == v.cancelled,
{
}

/// A review that completes met the same head at every comparison, and every
/// program of it ended cleanly.
pub proof fn law_completed_reviews_are_clean(
    v: ReviewV,
    point: HeadPoint,
    same: bool,
    program: ReviewProgram,
    outcome: RunOutcome,
    tests: int,
)
    ensures
        !after_head(v, point, same, tests).0.failed ==> same,
        !after_run(v, program, outcome, tests).0.failed ==> outcome.ok,
        !after_run(v, program, outcome, tests).0.cancelled ==> !outcome.cancelled,
{
}

/// The command is spawned only on the head that the review began with, and the
/// first test only on that head after a clean command.
pub proof fn law_programs_run_on_the_reviewed_head(
    v: ReviewV,
    point: HeadPoint,
    same: bool,
    program: ReviewProgram,
    outcome: RunOutcome,
    tests: int,
)
    ensures
        after_head(v, point, same, tests).1 == ReviewStage::Run(ReviewProgram::Command) ==> same
            && point == HeadPoint::BeforeCommand,
        after_head(v, point, same, tests).1 == ReviewStage::Run(ReviewProgram::Test(0)) ==> same
            && point == HeadPoint::AfterCommand,
        program == ReviewProgram::Command ==> !(after_run(v, program, outcome, tests).1 is Run),
        program == ReviewProgram::Command && after_run(v, program, outcome, tests).1
            == ReviewStage::Head(HeadPoint::AfterCommand) ==> outcome.ok && !outcome.cancelled,
{
}

/// The answer to a review that was started.
pub open spec fn review_body(
    record: Map<Seq<char>, JsonV>,
    payload_hash: Option<String>,
    operation_id: Seq<char>,
) -> JsonV {
    JsonV::Object(
        record.insert("remote_payload_hash"@, text_or_null(payload_hash)).insert(
            "operation_id"@,
            JsonV::Str(operation_id),
        ),
    )
}

/// The answer keeps the record, bound to the operation and to the payload that it was
/// asked for with.
pub proof fn law_review_answers_are_bound(
    record: Map<Seq<char>, JsonV>,
    payload_hash: Option<String>,
    operation_id: Seq<char>,
)
    ensures
        review_body(record, payload_hash, operation_id).get("operation_id"@) == Some(JsonV::Str(operation_id)),
        payload_hash matches Some(hash) ==> review_body(record, payload_hash, operation_id).get_str(
            "remote_payload_hash"@,
        ) == Some(hash@),
        payload_hash is None ==> review_body(record, payload_hash, operation_id).get(
            "remote_payload_hash"@,
        ) == Some(JsonV::Null),
        forall|name: Seq<char>|
            name != "remote_payload_hash"@ && name != "operation_id"@ ==> #[trigger] review_body(
                record,
                payload_hash,
                operation_id,
            ).get(name) == JsonV::Object(record).get(name),
        review_replay_refusal(review_body(record, payload_hash, operation_id), payload_hash) is None,
{
    reveal_strlit("operation_id");
    reveal_strlit("remote_payload_hash");
    assert("operation_id"@.len() == 12 && "remote_payload_hash"@.len() == 19);
}

/// The receipt of a finished review: its record, bound to its payload and to the
/// operation that it was journalled under.
pub fn review_answer(record: JsonObject, payload_hash: &Option<String>, operation_id: &str) -> (body:
    Json)
    ensures
        body@ == review_body(record@, *payload_hash, operation_id@),
{
    let mut object = record;
    object.put("remote_payload_hash", optional_text(payload_hash));
    object.put("operation_id", Json::text(operation_id));
    Json::Object(object)
}

/// Whom a review answers to.
pub open spec fn is_review_of(
    review: ReviewManifest,
    client: Seq<char>,
    device_id: Option<String>,
    now: int,
) -> bool {
    review.principal@ == client && (device_id matches Some(id) && id@ == review.device_id@)
        && review.expires_unix >= now
}

/// Why a review is not looked at; `mismatch` tells of one that answers to others.
pub open spec fn review_look_refusal(
    review: Option<ReviewManifest>,
    client: Seq<char>,
    device_id: Option<String>,
    workspaces: Seq<WorkspaceEntry>,
    mismatch: Seq<char>,
    now: int,
) -> Refusal {
    match review {
        None => Some((ErrorCode::InvalidParams, "review not found"@)),
        Some(r) => if is_review_of(r, client, device_id, now) {
            lookup_refusal(workspaces, Some(r.workspace_id@))
        } else {
            Some((ErrorCode::PolicyDenied, mismatch))
        },
    }
}

/// The review that is looked at, where it is there.
pub open spec fn given(review: Option<&ReviewManifest>) -> Option<ReviewManifest> {
    match review {
        Some(m) => Some(*m),
        None => None,
    }
}

/// The position is that of the review's workspace.
pub open spec fn is_workspace_of(
    review: ReviewManifest,
    workspaces: Seq<WorkspaceEntry>,
    at: usize,
) -> bool {
    selects(workspaces, selected_id(Some(review.workspace_id@)), at as int)
}

/// Holds the look at a review to those it answers to, and finds its workspace.
fn look_at_review<'a>(
    review: Option<&'a ReviewManifest>,
    client: &str,
    device_id: &Option<String>,
    workspaces: &Vec<WorkspaceEntry>,
    mismatch: &str,
    now: i64,
) -> (r: Result<(&'a ReviewManifest, usize), IpcError>)
    ensures
        answers(
            r,
            review_look_refusal(
                given(review),
                client@,
                *device_id,
                workspaces@,
                mismatch@,
                now as int,
            ),
        ),
        r matches Ok((m, at)) ==> review == Some(m) && is_workspace_of(*m, workspaces@, at),
{
    let review = match review {
        Some(review) => review,
        None => {
            return Err(IpcError::new(ErrorCode::InvalidParams, "review not found"));
        },
    };
    let device = match device_id {
        Some(id) => same_text(id.as_str(), review.device_id.as_str()),
        None => false,
    };
    if !same_text(review.principal.as_str(), client) || !device || review.expires_unix < now {
        return Err(IpcError::new(ErrorCode::PolicyDenied, mismatch));
    }
    match workspace_for(workspaces, Some(review.workspace_id.as_str())) {
        Ok(at) => Ok((review, at)),
        Err(e) => Err(e),
    }
}

/// Admits a request to show a review. It is shown once [`check_review_head`] holds
/// of its repository in the workspace found.
pub fn handle_review_show<'a>(
    review: Option<&'a ReviewManifest>,
    client: &str,
    device_id: &Option<String>,
    workspaces: &Vec<WorkspaceEntry>,
    now: i64,
) -> (r: Result<(&'a ReviewManifest, usize), IpcError>)
    ensures
        answers(
            r,
            review_look_refusal(
                given(review),
                client@,
                *device_id,
                workspaces@,
                "review binding mismatch"@,
                now as int,
            ),
        ),
        r matches Ok((m, at)) ==> review == Some(m) && is_workspace_of(*m, workspaces@, at),
{
    look_at_review(review, client, device_id, workspaces, "review binding mismatch", now)
}

/// Admits a request for a page of a review's results, and bounds the page. It is
/// given once [`check_review_head`] holds of its repository in the workspace found.
pub fn handle_review_page<'a>(
    review: Option<&'a ReviewManifest>,
    client: &str,
    device_id: &Option<String>,
    workspaces: &Vec<WorkspaceEntry>,
    max_bytes: usize,
    now: i64,
) -> (r: Result<(&'a ReviewManifest, usize, usize), IpcError>)
    ensures
        answers(
            r,
            review_look_refusal(
                given(review),
                client@,
                *device_id,
                workspaces@,
                "review binding expired or mismatched"@,
                now as int,
            ),
        ),
        r matches Ok((m, at, bound)) ==> {
            &&& review == Some(m)
            &&& is_workspace_of(*m, workspaces@, at)
            &&& bound == page_size(max_bytes)
        },
{
    match look_at_review(
        review,
        client,
        device_id,
        workspaces,
        "review binding expired or mismatched",
        now,
    ) {
        Ok((review, at)) => Ok((review, at, page_bound(max_bytes))),
        Err(e) => Err(e),
    }
}

/// Why a review is not shown any more: its repository went on.
pub open spec fn review_head_refusal(review: ReviewManifest, head: Seq<char>) -> Refusal {
    if head != review.head_oid@ {
        Some(
            (
                ErrorCode::Conflict,
                "review repository HEAD changed; start a new review"@,
            ),
        )
    } else {
        None
    }
}

/// Holds the look at a review to the head that it was made on.
pub fn check_review_head(review: &ReviewManifest, head: &str) -> (r: Result<(), IpcError>)
    ensures
        answers(r, review_head_refusal(*review, head@)),
{
    if !same_text(head, review.head_oid.as_str()) {
        return Err(
            IpcError::new(
                ErrorCode::Conflict,
                "review repository HEAD changed; start a new review",
            ),
        );
    }
    Ok(())
}

/// Behind what was there stand the whole output of the program, then its whole error
/// output, each under its own kind and the number of the test, then the summary.
/// Only what a cancellation adds may follow.
pub open spec fn run_is_kept(
    before: Seq<ChunkV>,
    after: Seq<ChunkV>,
    program: ReviewProgram,
    report: RunReport,
    cancelled: bool,
    printed: Seq<ChunkV>,
    complained: Seq<ChunkV>,
) -> bool {
    let summary = ChunkV {
        kind: ResultKind::System,
        test_index: None,
        bytes: vstd::utf8::encode_utf8(run_summary(program_label(program), report)),
    };
    let kept = before + printed + complained + seq![summary];
    &&& match program {
        ReviewProgram::Command => hold_exactly(
            printed,
            ResultKind::CommandStdout,
            None,
            report.stdout@,
        ) && hold_exactly(complained, ResultKind::CommandStderr, None, report.stderr@),
        ReviewProgram::Test(i) => hold_exactly(
            printed,
            ResultKind::TestStdout,
            Some((i % 256) as u8),
            report.stdout@,
        ) && hold_exactly(
            complained,
            ResultKind::TestStderr,
            Some((i % 256) as u8),
            report.stderr@,
        )
    }
    &&& after.len() >= kept.len()
    &&& after.take(kept.len() as int) == kept
    &&& !cancelled ==> after == kept
}

/// Every byte that a program printed, to its output and to its error output, is kept
/// where there is room for it: that is, up to 143 360 bytes and 60 chunks in all.
#[verifier::rlimit(80)]
#[verifier::spinoff_prover]
pub proof fn law_runs_keep_all_that_was_printed(
    v: ReviewV,
    program: ReviewProgram,
    outcome: RunOutcome,
    tests: int,
) -> (parts: (Seq<ChunkV>, Seq<ChunkV>))
    requires
        v.chunks.len() + outcome.report.stdout@.len() / 65_536 + outcome.report.stderr@.len()
            / 65_536 + 2 < 60,
        spool_bytes(v.chunks) + outcome.report.stdout@.len() + outcome.report.stderr@.len()
            < 143_360,
        vstd::utf8::encode_utf8(run_summary(program_label(program), outcome.report)).len()
            <= 20_480,
    ensures
        run_is_kept(
            v.chunks,
            after_run(v, program, outcome, tests).0.chunks,
            program,
            outcome.report,
            v.cancelled || outcome.cancelled,
            parts.0,
            parts.1,
        ),
{
    let (stdout, stderr, index) = match program {
        ReviewProgram::Command => (ResultKind::CommandStdout, ResultKind::CommandStderr, None),
        ReviewProgram::Test(i) => (
            ResultKind::TestStdout,
            ResultKind::TestStderr,
            Some((i % 256) as u8),
        ),
    };
    let out = outcome.report.stdout@;
    let err = outcome.report.stderr@;
    let first = with_output(v.chunks, stdout, index, out);
    let second = with_output(first, stderr, index, err);
    let summary = run_summary(program_label(program), outcome.report);
    let third = with_note(second, summary);
    law_output_is_kept_where_there_is_room(v.chunks, stdout, index, out);
    law_output_is_kept_where_there_is_room(first, stderr, index, err);
    law_notes_stand_behind_the_rest(second, summary);
    let printed = first.skip(v.chunks.len() as int);
    let complained = second.skip(first.len() as int);
    let note = ChunkV {
        kind: ResultKind::System,
        test_index: None,
        bytes: vstd::utf8::encode_utf8(summary),
    };
    assert(first =~= first.take(v.chunks.len() as int) + printed);
    assert(second =~= second.take(first.len() as int) + complained);
    assert(third =~= v.chunks + printed + complained + seq![note]);
    assert(recorded(v, program, outcome).chunks == third);
    let after = after_run(v, program, outcome, tests).0.chunks;
    assert(after.take(third.len() as int) =~= third);
    (printed, complained)
}

/// A review fails exactly where it had failed or the program did not pass, and is
/// cancelled exactly where it was or the program was. The tests run one after the
/// other, whether or not one failed; a cancellation ends them; a command that does
/// not pass keeps them from starting.
pub proof fn law_programs_follow_each_other(
    v: ReviewV,
    program: ReviewProgram,
    outcome: RunOutcome,
    tests: int,
)
    requires
        tests <= usize::MAX,
    ensures
        ({
            let (after, stage) = after_run(v, program, outcome, tests);
            let cancelled = v.cancelled || outcome.cancelled;
            &&& after.failed == (v.failed || !outcome.ok)
            &&& after.cancelled == cancelled
            &&& cancelled ==> stage == ReviewStage::Snapshot(RepositorySnapshot::Status)
            &&& !cancelled ==> match program {
                ReviewProgram::Command => stage == ReviewStage::Head(
                    if v.failed || !outcome.ok {
                        HeadPoint::AfterTests
                    } else {
                        HeadPoint::AfterCommand
                    },
                ),
                ReviewProgram::Test(i) => if i + 1 < tests {
                    stage matches ReviewStage::Run(ReviewProgram::Test(next)) && next == i + 1
                } else {
                    stage == ReviewStage::Head(HeadPoint::AfterTests)
                },
            }
        }),
{
}

/// A program starts only on the head that the review is of; another head fails the
/// review and says so in a note; the closing snapshots are taken in any case.
pub proof fn law_other_heads_fail_the_review(
    v: ReviewV,
    point: HeadPoint,
    same: bool,
    tests: int,
)
    ensures
        ({
            let (after, stage) = after_head(v, point, same, tests);
            &&& after.failed == (v.failed || !same)
            &&& after.cancelled == v.cancelled
            &&& same && !v.cancelled ==> after.chunks == v.chunks
            &&& match point {
                HeadPoint::BeforeCommand => if same {
                    stage == ReviewStage::Run(ReviewProgram::Command)
                } else {
                    !(stage is Run)
                },
                HeadPoint::AfterCommand => if same && tests > 0 {
                    stage == ReviewStage::Run(ReviewProgram::Test(0))
                } else {
                    !(stage is Run)
                },
                HeadPoint::AfterTests => stage == ReviewStage::Snapshot(
                    RepositorySnapshot::Status,
                ),
            }
            &&& !(stage is Run) && point != HeadPoint::AfterTests ==> stage == (if v.cancelled {
                ReviewStage::Snapshot(RepositorySnapshot::Status)
            } else {
                ReviewStage::Head(HeadPoint::AfterTests)
            })
        }),
        !same && v.chunks.len() < 60 && spool_bytes(v.chunks) < 143_360 ==> after_head(
            v,
            point,
            same,
            tests,
        ).0.chunks.len() > v.chunks.len(),
{
    reveal_strlit("review repository HEAD changed before command spawn");
    reveal_strlit("review repository HEAD changed after command; tests not started");
    reveal_strlit("review repository HEAD changed after tests; final result is stale");
}

/// The status is taken before the diff, and each is kept under its own kind where
/// there is room for it; a snapshot that failed is noted and fails nothing.
pub proof fn law_snapshots_are_kept(
    v: ReviewV,
    snapshot: RepositorySnapshot,
    taken: Result<Vec<u8>, String>,
)
    requires
        v.chunks.len() < 56,
        taken matches Ok(bytes) ==> spool_bytes(v.chunks) + bytes@.len() < 143_360,
    ensures
        ({
            let (after, stage) = after_snapshot(v, snapshot, taken);
            &&& stage == (match snapshot {
                RepositorySnapshot::Status => ReviewStage::Snapshot(RepositorySnapshot::Diff),
                RepositorySnapshot::Diff => ReviewStage::Done,
            })
            &&& after.failed == v.failed
            &&& after.cancelled == v.cancelled
            &&& taken matches Ok(bytes) ==> after.chunks.len() >= v.chunks.len() && after.chunks.take(
                v.chunks.len() as int,
            ) == v.chunks && (after.chunks.len() < 58 ==> hold_exactly(
                after.chunks.skip(v.chunks.len() as int),
                match snapshot {
                    RepositorySnapshot::Status => ResultKind::GitStatus,
                    RepositorySnapshot::Diff => ResultKind::GitDiff,
                },
                None,
                bytes@,
            ))
        }),
{
    if let Ok(bytes) = taken {
        let kind = match snapshot {
            RepositorySnapshot::Status => ResultKind::GitStatus,
            RepositorySnapshot::Diff => ResultKind::GitDiff,
        };
        law_output_is_kept_where_there_is_room(v.chunks, kind, None, bytes@);
        let kept = with_output(v.chunks, kind, None, bytes@);
        let after = after_snapshot(v, snapshot, taken).0.chunks;
        assert(after.take(v.chunks.len() as int) =~= kept.take(v.chunks.len() as int));
    }
}

/// A review that was cancelled ends as cancelled, one that failed as failed, and
/// only a clean one as completed.
pub proof fn law_phases_tell_the_end(v: ReviewV)
    ensures
        phase_of(v) == ReviewPhase::Cancelled <==> v.cancelled,
        phase_of(v) == ReviewPhase::Failed <==> v.failed && !v.cancelled,
        phase_of(v) == ReviewPhase::Completed <==> !v.failed && !v.cancelled,
{
}

/// A review is taken up only from a verified device. One that was carried out is
/// replayed for the same payload alone; a new one runs only where no preset confines
/// commands, in a workspace that is there.
pub proof fn law_reviews_are_taken_up_by_their_binding(
    binding: RemoteBinding,
    receipt: Option<JsonV>,
    enforce_workspace: bool,
    workspaces: Seq<WorkspaceEntry>,
    workspace_id: Seq<char>,
)
    ensures
        review_intake_refusal(binding, receipt, enforce_workspace, workspaces, workspace_id) is None
            <==> binding.device_id is Some && match receipt {
            Some(json) => match binding.payload_hash {
                Some(hash) => json.get_str("remote_payload_hash"@) == Some(hash@),
                None => json.get_str("remote_payload_hash"@) is None,
            },
            None => !enforce_workspace && lookup_refusal(workspaces, Some(workspace_id)) is None,
        },
        review_intake_refusal(
            binding,
            receipt,
            enforce_workspace,
            workspaces,
            workspace_id,
        ) matches Some((code, _)) ==> code == (if binding.device_id is None || receipt is Some {
            ErrorCode::Unauthorized
        } else if enforce_workspace {
            ErrorCode::PolicyDenied
        } else {
            ErrorCode::InvalidParams
        }),
{
}

/// A program of a review is named, and runs for at most five minutes; by its path
/// and by the file behind it, it is argv of one program, and both could be pinned.
pub proof fn law_review_programs_are_pinned_argv(
    program: Seq<char>,
    timeout_ms: int,
    found: bool,
    invocation_kind: CommandKind,
    backing_kind: CommandKind,
    backing: Result<ExecutablePin, String>,
    invocation: Result<ExecutablePin, String>,
)
    requires
        timeout_ms >= 0,
    ensures
        review_argv_refusal(program, timeout_ms) is None <==> trim(program).len() > 0 && 1
            <= timeout_ms <= 300_000,
        review_program_refusal(found, invocation_kind, backing_kind) is None <==> found
            && invocation_kind == CommandKind::Structured && backing_kind
            == CommandKind::Structured,
        review_pin_refusal(backing, invocation) is None <==> backing is Ok && invocation is Ok,
{
}

/// The facts that a program of a review is judged by name the program that runs, in
/// its directory, with the identity of its file and of the path that launches it.
pub proof fn law_review_facts_name_what_runs(
    facts: OperationFacts,
    command: ReviewCommand,
    directory: Seq<char>,
)
    requires
        is_review_facts(facts, command, directory),
    ensures
        facts.capability@ == "command.run"@,
        facts.kind@ == "structured"@,
        facts.program == Some(command.program),
        facts.path matches Some(path) && path@ == directory,
        !facts.elevated,
        facts.workspace_relative && facts.workspace_id is None,
        facts.tags@.len() == 1 && facts.tags@[0]@ == "review"@,
        facts.tool is None,
        facts.executable_identity matches Some(id) && id.path == command.pin.path
            && id.content_sha256 == command.pin.content_sha256 && id.len == command.pin.len,
        command.invocation_pin matches Some(pin) ==> (facts.invocation_identity matches Some(id)
            && id.path == pin.path && id.content_sha256 == pin.content_sha256 && id.len
            == pin.len),
        command.invocation_pin is None ==> facts.invocation_identity == facts.executable_identity,
{
}

/// The programs of a review are its command, where it has one, and then its tests
/// in their order; none is left out.
pub proof fn law_every_program_is_judged(command: Option<ReviewCommand>, tests: Seq<ReviewCommand>)
    ensures
        programs_of(command, tests).len() == tests.len() + (if command is Some {
            1int
        } else {
            0int
        }),
        command matches Some(c) ==> programs_of(command, tests)[0] == c,
        forall|i: int|
            #![trigger tests[i]]
            0 <= i < tests.len() ==> programs_of(command, tests)[i + (if command is Some {
                1int
            } else {
                0int
            })] == tests[i],
{
}

/// A review is shown only to the principal and from the device that started it,
/// before it expires, and in a workspace that is still there.
pub proof fn law_reviews_are_shown_to_their_own(
    review: Option<ReviewManifest>,
    client: Seq<char>,
    device_id: Option<String>,
    workspaces: Seq<WorkspaceEntry>,
    mismatch: Seq<char>,
    now: int,
)
    ensures
        review_look_refusal(review, client, device_id, workspaces, mismatch, now) is None <==> (
        review matches Some(r) && r.principal@ == client && (device_id matches Some(id) && id@
            == r.device_id@) && now <= r.expires_unix && lookup_refusal(
            workspaces,
            Some(r.workspace_id@),
        ) is None),
        review matches Some(r) && (r.principal@ != client || now > r.expires_unix)
            ==> review_look_refusal(review, client, device_id, workspaces, mismatch, now) == Some(
            (ErrorCode::PolicyDenied, mismatch),
        ),
{
}

/// A review goes on only on the head that it was started on.
pub proof fn law_reviews_stay_on_their_head(review: ReviewManifest, head: Seq<char>)
    ensures
        review_head_refusal(review, head) is None <==> head == review.head_oid@,
        review_head_refusal(review, head) matches Some((code, _)) ==> code == ErrorCode::Conflict,
{
}

/// A review is refused as a whole where policy denies one of its programs, or asks
/// about one: the answer is a denial either way.
pub proof fn law_refused_batches_are_denied(verdicts: Seq<PolicyVerdict>)
    ensures
        review_batch_refusal(verdicts) matches Some((code, _)) ==> code
            == ErrorCode::PolicyDenied,
{
}

/// A review that was carried out before is answered by its receipt; a new one runs on
/// the device of its dispatch, in the workspace that it names.
pub proof fn law_reviews_run_where_they_are_bound(
    admission: ReviewAdmission,
    binding: RemoteBinding,
    done_before: bool,
    workspaces: Seq<WorkspaceEntry>,
    workspace_id: Seq<char>,
)
    requires
        is_admission(admission, binding, done_before, workspaces, workspace_id),
    ensures
        admission is Replay <==> done_before,
        admission matches ReviewAdmission::Proceed { device_id, workspace } ==> binding.device_id
            == Some(device_id) && workspace < workspaces.len() && (workspaces[workspace as int].id@
            == selected_id(Some(workspace_id)) || workspaces[workspace as int].id@ == "default"@),
{
}

/// A review begins with what was asked of it: the device, the workspace, the repository,
/// its head, the principal, the command and the tests, and what its dispatch is bound to.
/// It is planned, has read nothing, and is kept for an hour.
pub proof fn law_reviews_begin_as_asked(
    m: ReviewManifest,
    start: ReviewStart,
    binding: RemoteBinding,
    now: i64,
)
    requires
        is_manifest_of(m, start, binding, now),
    ensures
        m.device_id == start.device_id,
        m.workspace_id == start.workspace_id,
        m.repo_root == start.repo_root,
        m.head_oid == start.head_oid,
        m.principal == start.principal,
        m.command == start.command,
        m.tests == start.tests,
        m.remote_operation_id == binding.operation_id,
        m.remote_payload_hash == binding.payload_hash,
        m.phase is Planned,
        m.status_cursor == 0 && m.diff_cursor == 0 && m.result_sha256 is None,
        m.created_unix == now,
        now + 3600 <= i64::MAX ==> m.expires_unix - m.created_unix == 60 * 60,
{
}

/// A program of a review is launched by the path that was found, with the arguments and
/// the time that were asked for, and is held to both of its pins.
pub proof fn law_review_programs_are_held_to_their_pins(
    resolved: ResolvedProgram,
    args: Vec<String>,
    timeout_ms: u64,
    backing: ExecutablePin,
    invocation: ExecutablePin,
)
    ensures
        pinned_command(resolved, args, timeout_ms, backing, invocation).program
            == resolved.invocation,
        pinned_command(resolved, args, timeout_ms, backing, invocation).args == args,
        pinned_command(resolved, args, timeout_ms, backing, invocation).timeout_ms == timeout_ms,
        pinned_command(resolved, args, timeout_ms, backing, invocation).pin == backing,
        pinned_command(resolved, args, timeout_ms, backing, invocation).invocation_pin == Some(
            invocation,
        ),
{
}

/// A review begins unharmed, with its baseline noted, and looks at the head before
/// anything runs: before its command where it has one, else before its tests.
pub proof fn law_reviews_look_at_the_head_first(baseline: Seq<char>, has_command: bool)
    ensures
        !begun_review(baseline).failed && !begun_review(baseline).cancelled,
        begun_review(baseline).chunks == with_note(
            Seq::empty(),
            "baseline git status: "@ + baseline,
        ),
        first_stage(has_command) matches ReviewStage::Head(point) && (point is BeforeCommand
            <==> has_command) && (point is AfterCommand <==> !has_command),
{
}

/// A review goes on with the head and the tests that it began with.
pub proof fn law_reviews_go_on_as_they_began(after: ReviewRun, before: ReviewRun)
    requires
        after.continues(&before),
    ensures
        after.head() == before.head(),
        after.test_count() == before.test_count(),
{
}

/// A program of a review that is not found is invalid; one that is a shell or an
/// interpreter is denied.
pub proof fn law_review_programs_are_refused_by_code(
    found: bool,
    invocation_kind: CommandKind,
    backing_kind: CommandKind,
)
    ensures
        !found ==> (review_program_refusal(found, invocation_kind, backing_kind) matches Some(
            (code, _),
        ) && code == ErrorCode::InvalidParams),
        found && (invocation_kind is RawShell || backing_kind is RawShell) ==> (
        review_program_refusal(found, invocation_kind, backing_kind) matches Some((code, _)) && code
            == ErrorCode::PolicyDenied),
{
}

} // verus!

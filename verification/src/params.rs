//! Request parameters and deferred requests.
use crate::text::{copy_text, lower_text, same_text, same_text_ignoring_case, to_lower};
use vstd::prelude::*;

verus! {

/// Provider of a log query that names none.
pub fn default_log_provider() -> (s: String)
    ensures
        s@ == "audit"@,
{
    "audit".to_owned()
}

/// Largest page of a log query.
pub const MAX_LOG_QUERY_LIMIT: usize = 200;

/// Outcome of a policy evaluation.
#[derive(Debug, Clone, Copy, PartialEq, Eq, Structural)]
pub enum Decision {
    Allow,
    Ask,
    Deny,
}

/// Access preset of a policy.
#[derive(Debug, Clone, Copy, PartialEq, Eq, Structural)]
pub enum AccessPreset {
    WorkspaceOnly,
    Recommended,
    FullUserAccess,
    FullAccess,
    Custom,
}

/// A rule of the policy overlay.
#[derive(Debug)]
pub struct PolicyRule {
    pub id: String,
    pub decision: Decision,
    pub priority: i32,
    pub capability: String,
    pub when_elevated: Option<bool>,
    pub when_kind: Option<String>,
    pub path_prefix: Option<String>,
    pub program_equals: Option<String>,
    pub when_tag: Option<String>,
    pub description: Option<String>,
}

/// Identity of an executable as the daemon measured it.
#[derive(Debug)]
pub struct ExecutablePin {
    pub path: String,
    pub content_sha256: String,
    pub len: u64,
    pub device: Option<u64>,
    pub inode: Option<u64>,
    pub path_device: Option<u64>,
    pub path_inode: Option<u64>,
    pub link_target: Option<String>,
    pub policy_kind: String,
}

/// Executable identity as policy facts and grants bind it.
#[derive(Debug)]
pub struct ExecutableIdentityBinding {
    pub path: String,
    pub content_sha256: String,
    pub len: u64,
    pub device: Option<u64>,
    pub inode: Option<u64>,
    pub path_device: Option<u64>,
    pub path_inode: Option<u64>,
    pub link_target: Option<String>,
    pub policy_kind: String,
}

#[derive(Debug)]
pub struct SystemDiagnoseParams {
    pub workspace_id: Option<String>,
    pub idempotency_key: Option<String>,
}

#[derive(Debug)]
pub struct AdminPolicyPresetParams {
    pub name: String,
    pub delegate_remote_mcp: Option<bool>,
    pub idempotency_key: String,
}

#[derive(Debug)]
pub struct AdminPolicyRuleAddParams {
    pub id: String,
    pub decision: Decision,
    pub capability: String,
    pub priority: i32,
    pub when_elevated: Option<bool>,
    pub when_kind: Option<String>,
    pub path_prefix: Option<String>,
    pub program_equals: Option<String>,
    pub description: Option<String>,
    pub idempotency_key: String,
}

#[derive(Debug)]
pub struct AdminPolicyRuleRemoveParams {
    pub id: String,
    pub idempotency_key: String,
}

#[derive(Debug)]
pub struct AdminDaemonUnlockParams {
    pub idempotency_key: String,
}

#[derive(Debug)]
pub struct AdminTokenRevokeParams {
    pub principal: String,
    pub idempotency_key: String,
}

#[derive(Debug)]
pub struct AdminApprovalBridgeParams {
    pub approval_id: String,
    pub decision: String,
    pub temporary_grant: bool,
    pub grant_seconds: Option<i64>,
    pub idempotency_key: String,
}

/// Principal and device are stamped from the verified remote dispatch; what a
/// client sends for them is overwritten.
#[derive(Debug)]
pub struct AdminGrantsMintParams {
    pub tools: Vec<String>,
    pub ttl_seconds: i64,
    pub max_uses: Option<u32>,
    pub workspace_id: Option<String>,
    pub idempotency_key: String,
    pub principal_id: Option<String>,
    pub device_id: Option<String>,
}

/// Classification and pins are computed by the daemon; what a client sends for
/// them is overwritten.
#[derive(Debug)]
pub struct ExecParams {
    pub kind: Option<String>,
    pub policy_kind: Option<String>,
    pub program: String,
    pub args: Vec<String>,
    pub cwd: Option<String>,
    pub workspace_id: Option<String>,
    pub env: Vec<(String, String)>,
    pub timeout_ms: Option<u64>,
    pub idempotency_key: Option<String>,
    pub max_output_bytes: Option<usize>,
    pub elevated: bool,
    pub detach: bool,
    pub executable_pin: Option<ExecutablePin>,
    pub invocation_pin: Option<ExecutablePin>,
    pub shell_pin: Option<ExecutablePin>,
}

#[derive(Debug)]
pub struct FsListParams {
    pub path: String,
    pub recursive: bool,
    pub max_entries: Option<usize>,
    pub cursor: Option<String>,
    pub workspace_id: Option<String>,
    pub idempotency_key: Option<String>,
}

#[derive(Debug)]
pub struct FsStatParams {
    pub path: String,
    pub hash: bool,
    pub workspace_id: Option<String>,
    pub idempotency_key: Option<String>,
}

#[derive(Debug)]
pub struct FsReadParams {
    pub path: String,
    pub max_bytes: Option<u64>,
    pub offset: Option<u64>,
    pub cursor: Option<String>,
    pub workspace_id: Option<String>,
    pub idempotency_key: Option<String>,
}

#[derive(Debug)]
pub struct FsWriteParams {
    pub path: String,
    pub content: String,
    pub expected_sha256: Option<String>,
    pub patch_format: Option<String>,
    pub workspace_id: Option<String>,
    pub idempotency_key: Option<String>,
}

#[derive(Debug)]
pub struct FsDeleteParams {
    pub path: String,
    pub recursive: bool,
    pub workspace_id: Option<String>,
    pub idempotency_key: Option<String>,
}

#[derive(Debug)]
pub struct LogsQueryParams {
    pub provider: String,
    pub cursor_offset: Option<u64>,
    pub limit: Option<usize>,
    pub idempotency_key: Option<String>,
    pub channel: Option<String>,
    pub unit: Option<String>,
    pub container: Option<String>,
}

#[derive(Debug)]
pub struct GitStatusParams {
    pub path: String,
    pub cursor: Option<u64>,
    pub limit: Option<usize>,
    pub workspace_id: Option<String>,
    pub idempotency_key: Option<String>,
}

#[derive(Debug)]
pub struct GitDiffParams {
    pub path: String,
    pub pathspec: Option<String>,
    pub staged: bool,
    pub cursor: Option<u64>,
    pub limit: Option<usize>,
    pub max_bytes: Option<usize>,
    pub workspace_id: Option<String>,
    pub idempotency_key: Option<String>,
}

/// A request that is kept until its approval is decided.
#[derive(Debug)]
pub enum PendingRequest {
    Exec(Box<ExecParams>),
    FsList(FsListParams),
    FsStat(FsStatParams),
    FsRead(FsReadParams),
    FsWrite(FsWriteParams),
    FsDelete(FsDeleteParams),
    LogsQuery(LogsQueryParams),
    GitStatus(GitStatusParams),
    GitDiff(GitDiffParams),
    SystemDiagnose(SystemDiagnoseParams),
    AdminPolicyPreset(AdminPolicyPresetParams),
    AdminPolicyRuleAdd(AdminPolicyRuleAddParams),
    AdminPolicyRuleRemove(AdminPolicyRuleRemoveParams),
    AdminDaemonUnlock(AdminDaemonUnlockParams),
    AdminTokenRevoke(AdminTokenRevokeParams),
    AdminApprovalBridge(AdminApprovalBridgeParams),
    AdminGrantsMint(AdminGrantsMintParams),
}

impl PolicyRule {
    /// A copy of the rule.
    pub fn copy(&self) -> (rule: PolicyRule)
        ensures
            rule == *self,
    {
        PolicyRule {
            id: self.id.clone(),
            decision: self.decision,
            priority: self.priority,
            capability: self.capability.clone(),
            when_elevated: self.when_elevated,
            when_kind: copy_text(&self.when_kind),
            path_prefix: copy_text(&self.path_prefix),
            program_equals: copy_text(&self.program_equals),
            when_tag: copy_text(&self.when_tag),
            description: copy_text(&self.description),
        }
    }
}

impl AdminPolicyRuleAddParams {
    /// The rule that the parameters describe.
    pub fn rule(&self) -> (rule: PolicyRule)
        ensures
            rule == (PolicyRule {
                id: self.id,
                decision: self.decision,
                priority: self.priority,
                capability: self.capability,
                when_elevated: self.when_elevated,
                when_kind: self.when_kind,
                path_prefix: self.path_prefix,
                program_equals: self.program_equals,
                when_tag: None,
                description: self.description,
            }),
    {
        PolicyRule {
            id: self.id.clone(),
            decision: self.decision,
            priority: self.priority,
            capability: self.capability.clone(),
            when_elevated: self.when_elevated,
            when_kind: copy_text(&self.when_kind),
            path_prefix: copy_text(&self.path_prefix),
            program_equals: copy_text(&self.program_equals),
            when_tag: None,
            description: copy_text(&self.description),
        }
    }
}

/// The identity that policy facts and grants bind for a measured executable.
pub open spec fn identity_of(pin: ExecutablePin) -> ExecutableIdentityBinding {
    ExecutableIdentityBinding {
        path: pin.path,
        content_sha256: pin.content_sha256,
        len: pin.len,
        device: pin.device,
        inode: pin.inode,
        path_device: pin.path_device,
        path_inode: pin.path_inode,
        link_target: pin.link_target,
        policy_kind: pin.policy_kind,
    }
}

/// The identity that policy facts and grants bind for a measured executable.
pub fn executable_identity_from_pin(pin: &ExecutablePin) -> (identity: ExecutableIdentityBinding)
    ensures
        identity == identity_of(*pin),
{
    ExecutableIdentityBinding {
        path: pin.path.clone(),
        content_sha256: pin.content_sha256.clone(),
        len: pin.len,
        device: pin.device,
        inode: pin.inode,
        path_device: pin.path_device,
        path_inode: pin.path_inode,
        link_target: copy_text(&pin.link_target),
        policy_kind: pin.policy_kind.clone(),
    }
}

/// Requests that change the daemon's own administration.
pub open spec fn is_admin(request: PendingRequest) -> bool {
    ||| request is AdminPolicyPreset
    ||| request is AdminPolicyRuleAdd
    ||| request is AdminPolicyRuleRemove
    ||| request is AdminDaemonUnlock
    ||| request is AdminTokenRevoke
    ||| request is AdminApprovalBridge
    ||| request is AdminGrantsMint
}

/// Requests that leave no side effect for the journal to guard.
pub open spec fn is_read_only(request: PendingRequest) -> bool {
    ||| request is FsList
    ||| request is FsStat
    ||| request is FsRead
    ||| request is LogsQuery
    ||| request is GitStatus
    ||| request is GitDiff
    ||| request is SystemDiagnose
}

/// A deferred command that runs through a shell.
pub open spec fn is_raw_kind(kind: Option<String>) -> bool {
    kind matches Some(k) && (lower_text(k@) == lower_text("raw_shell"@) || lower_text(k@)
        == lower_text("raw"@))
}

/// The tool name that a bounded grant has to cover for a request.
pub open spec fn request_tool(request: PendingRequest) -> Option<Seq<char>> {
    match request {
        PendingRequest::Exec(params) => if is_raw_kind(params.policy_kind) {
            Some("command_shell"@)
        } else {
            Some("command_run"@)
        },
        PendingRequest::FsList(_) => Some("fs_list"@),
        PendingRequest::FsStat(_) => Some("fs_stat"@),
        PendingRequest::FsRead(_) => Some("fs_read"@),
        PendingRequest::FsWrite(_) => Some("fs_write"@),
        PendingRequest::FsDelete(_) => Some("fs_delete"@),
        PendingRequest::LogsQuery(_) => Some("logs_query"@),
        PendingRequest::GitStatus(_) => Some("git_status"@),
        PendingRequest::GitDiff(_) => Some("git_diff"@),
        _ => None,
    }
}

/// Whether a request changes the daemon's own administration.
pub fn pending_request_is_admin(request: &PendingRequest) -> (b: bool)
    ensures
        b == is_admin(*request),
{
    matches!(
        request,
        PendingRequest::AdminPolicyPreset(_) | PendingRequest::AdminPolicyRuleAdd(_)
        | PendingRequest::AdminPolicyRuleRemove(_) | PendingRequest::AdminDaemonUnlock(_)
        | PendingRequest::AdminTokenRevoke(_) | PendingRequest::AdminApprovalBridge(_)
        | PendingRequest::AdminGrantsMint(_)
    )
}

/// Whether a request leaves no side effect for the journal to guard.
pub fn pending_request_is_journal_read_only(request: &PendingRequest) -> (b: bool)
    ensures
        b == is_read_only(*request),
{
    matches!(
        request,
        PendingRequest::FsList(_) | PendingRequest::FsStat(_) | PendingRequest::FsRead(_)
        | PendingRequest::LogsQuery(_) | PendingRequest::GitStatus(_) | PendingRequest::GitDiff(_)
        | PendingRequest::SystemDiagnose(_)
    )
}

/// The tool name that a bounded grant has to cover for a request.
pub fn pending_request_tool(request: &PendingRequest) -> (tool: Option<&'static str>)
    ensures
        match tool {
            Some(t) => request_tool(*request) == Some(t@),
            None => request_tool(*request) is None,
        },
{
    match request {
        PendingRequest::Exec(params) => {
            let raw = match &params.policy_kind {
                Some(kind) => same_text_ignoring_case(kind.as_str(), "raw_shell")
                    || same_text_ignoring_case(kind.as_str(), "raw"),
                None => false,
            };
            if raw {
                Some("command_shell")
            } else {
                Some("command_run")
            }
        },
        PendingRequest::FsList(_) => Some("fs_list"),
        PendingRequest::FsStat(_) => Some("fs_stat"),
        PendingRequest::FsRead(_) => Some("fs_read"),
        PendingRequest::FsWrite(_) => Some("fs_write"),
        PendingRequest::FsDelete(_) => Some("fs_delete"),
        PendingRequest::LogsQuery(_) => Some("logs_query"),
        PendingRequest::GitStatus(_) => Some("git_status"),
        PendingRequest::GitDiff(_) => Some("git_diff"),
        _ => None,
    }
}

/// Name of a decision.
pub open spec fn decision_name(d: Decision) -> Seq<char> {
    match d {
        Decision::Allow => "allow"@,
        Decision::Ask => "ask"@,
        Decision::Deny => "deny"@,
    }
}

/// Name of a decision.
pub fn decision_str(d: Decision) -> (s: &'static str)
    ensures
        s@ == decision_name(d),
{
    match d {
        Decision::Allow => "allow",
        Decision::Ask => "ask",
        Decision::Deny => "deny",
    }
}

/// Name of a preset.
pub open spec fn preset_text(p: AccessPreset) -> Seq<char> {
    match p {
        AccessPreset::WorkspaceOnly => "workspace_only"@,
        AccessPreset::Recommended => "recommended"@,
        AccessPreset::FullUserAccess => "full_user_access"@,
        AccessPreset::FullAccess => "full_access"@,
        AccessPreset::Custom => "custom"@,
    }
}

/// Name of a preset.
pub fn preset_name(p: AccessPreset) -> (s: &'static str)
    ensures
        s@ == preset_text(p),
{
    match p {
        AccessPreset::WorkspaceOnly => "workspace_only",
        AccessPreset::Recommended => "recommended",
        AccessPreset::FullUserAccess => "full_user_access",
        AccessPreset::FullAccess => "full_access",
        AccessPreset::Custom => "custom",
    }
}

/// ASCII lower case with `-` read as `_`.
pub open spec fn normal_name(name: Seq<char>) -> Seq<char> {
    Seq::new(
        name.len(),
        |i: int|
            if lower_text(name)[i] == '-' {
                '_'
            } else {
                lower_text(name)[i]
            },
    )
}

/// The preset that a name stands for.
pub open spec fn preset_of(name: Seq<char>) -> Option<AccessPreset> {
    let n = normal_name(name);
    if n == "workspace_only"@ || n == "workspaceonly"@ {
        Some(AccessPreset::WorkspaceOnly)
    } else if n == "recommended"@ {
        Some(AccessPreset::Recommended)
    } else if n == "full_user_access"@ || n == "fulluseraccess"@ {
        Some(AccessPreset::FullUserAccess)
    } else if n == "full_access"@ || n == "fullaccess"@ {
        Some(AccessPreset::FullAccess)
    } else if n == "custom"@ {
        Some(AccessPreset::Custom)
    } else {
        None
    }
}

/// Reads the name of a preset.
pub fn parse_preset(name: &str) -> (preset: Option<AccessPreset>)
    ensures
        preset == preset_of(name@),
{
    let folded = crate::text::chars_of(to_lower(name).as_str());
    let mut normal = String::new();
    let mut i: usize = 0;
    while i < folded.len()
        invariant
            i <= folded.len(),
            folded@ == lower_text(name@),
            normal@ == normal_name(name@).take(i as int),
        decreases folded.len() - i,
    {
        let c = if folded[i] == '-' {
            '_'
        } else {
            folded[i]
        };
        normal.push(c);
        assert(normal_name(name@).take(i as int).push(c) =~= normal_name(name@).take(i + 1));
        i += 1;
    }
    assert(normal_name(name@).take(name@.len() as int) =~= normal_name(name@));
    let n = normal.as_str();
    if same_text(n, "workspace_only") || same_text(n, "workspaceonly") {
        Some(AccessPreset::WorkspaceOnly)
    } else if same_text(n, "recommended") {
        Some(AccessPreset::Recommended)
    } else if same_text(n, "full_user_access") || same_text(n, "fulluseraccess") {
        Some(AccessPreset::FullUserAccess)
    } else if same_text(n, "full_access") || same_text(n, "fullaccess") {
        Some(AccessPreset::FullAccess)
    } else if same_text(n, "custom") {
        Some(AccessPreset::Custom)
    } else {
        None
    }
}

/// The name of a preset reads back as that preset.
pub proof fn law_preset_name_parses(p: AccessPreset)
    ensures
        preset_of(preset_text(p)) == Some(p),
{
    reveal_strlit("workspace_only");
    reveal_strlit("workspaceonly");
    reveal_strlit("recommended");
    reveal_strlit("full_user_access");
    reveal_strlit("fulluseraccess");
    reveal_strlit("full_access");
    reveal_strlit("fullaccess");
    reveal_strlit("custom");
    assert("workspace_only"@[0] == 'w' && "recommended"@[0] == 'r');
    assert("fulluseraccess"@[0] == 'f' && "full_access"@[0] == 'f');
    assert(normal_name(preset_text(p)) =~= preset_text(p));
}

/// The identity of an executable is that of its pin, field by field.
pub proof fn law_identities_are_those_of_their_pin(pin: ExecutablePin)
    ensures
        identity_of(pin).path == pin.path,
        identity_of(pin).content_sha256 == pin.content_sha256,
        identity_of(pin).len == pin.len,
        identity_of(pin).device == pin.device,
        identity_of(pin).inode == pin.inode,
        identity_of(pin).path_device == pin.path_device,
        identity_of(pin).path_inode == pin.path_inode,
        identity_of(pin).link_target == pin.link_target,
        identity_of(pin).policy_kind == pin.policy_kind,
{
}

/// A request is administrative, or only reads, or runs or changes something: a command, a
/// write, a deletion. It is one of the three.
pub proof fn law_requests_are_of_one_sort(request: PendingRequest)
    ensures
        !(is_admin(request) && is_read_only(request)),
        request is Exec || request is FsWrite || request is FsDelete <==> !is_admin(request)
            && !is_read_only(request),
        request is FsRead || request is FsList || request is FsStat || request is LogsQuery
            || request is GitStatus || request is GitDiff || request is SystemDiagnose
            ==> is_read_only(request),
{
}

/// A request goes by the tool of its own; an administrative one and a diagnosis go by
/// none, and only a raw command goes by the shell.
pub proof fn law_requests_go_by_their_tool(request: PendingRequest)
    ensures
        is_admin(request) || request is SystemDiagnose <==> request_tool(request) is None,
        request is FsRead ==> request_tool(request) == Some("fs_read"@),
        request is FsWrite ==> request_tool(request) == Some("fs_write"@),
        request is FsDelete ==> request_tool(request) == Some("fs_delete"@),
        request is FsList ==> request_tool(request) == Some("fs_list"@),
        request is FsStat ==> request_tool(request) == Some("fs_stat"@),
        request is LogsQuery ==> request_tool(request) == Some("logs_query"@),
        request is GitStatus ==> request_tool(request) == Some("git_status"@),
        request is GitDiff ==> request_tool(request) == Some("git_diff"@),
        request matches PendingRequest::Exec(p) ==> (match p.policy_kind {
            Some(kind) => if lower_text(kind@) == lower_text("raw_shell"@) || lower_text(kind@)
                == lower_text("raw"@) {
                request_tool(request) == Some("command_shell"@)
            } else {
                request_tool(request) == Some("command_run"@)
            },
            None => request_tool(request) == Some("command_run"@),
        }),
{
}

/// The names of decisions and presets tell them apart.
pub proof fn law_names_tell_decisions_apart(a: Decision, b: Decision, p: AccessPreset, q: AccessPreset)
    ensures
        decision_name(a) == decision_name(b) ==> a == b,
        decision_name(Decision::Allow) == "allow"@,
        decision_name(Decision::Ask) == "ask"@,
        decision_name(Decision::Deny) == "deny"@,
        preset_text(p) == preset_text(q) ==> p == q,
{
    reveal_strlit("allow");
    reveal_strlit("ask");
    reveal_strlit("deny");
    assert("allow"@.len() == 5 && "ask"@.len() == 3 && "deny"@.len() == 4);
    law_preset_name_parses(p);
    law_preset_name_parses(q);
}

/// A preset is known by its name in either case, with hyphens or underscores, and where
/// the name has several words also without; what is known by a name is that preset.
pub proof fn law_presets_are_known_by_name(name: Seq<char>)
    ensures
        preset_of(name) == Some(AccessPreset::FullAccess) <==> normal_name(name) == "full_access"@
            || normal_name(name) == "fullaccess"@,
        preset_of(name) == Some(AccessPreset::FullUserAccess) <==> normal_name(name)
            == "full_user_access"@ || normal_name(name) == "fulluseraccess"@,
        preset_of(name) == Some(AccessPreset::WorkspaceOnly) <==> normal_name(name)
            == "workspace_only"@ || normal_name(name) == "workspaceonly"@,
        preset_of(name) == Some(AccessPreset::Recommended) <==> normal_name(name)
            == "recommended"@,
        preset_of(name) == Some(AccessPreset::Custom) <==> normal_name(name) == "custom"@,
{
    reveal_strlit("workspace_only");
    reveal_strlit("workspaceonly");
    reveal_strlit("recommended");
    reveal_strlit("full_user_access");
    reveal_strlit("fulluseraccess");
    reveal_strlit("full_access");
    reveal_strlit("fullaccess");
    reveal_strlit("custom");
    assert("workspace_only"@.len() == 14 && "workspaceonly"@.len() == 13 && "recommended"@.len() == 11 && "full_user_access"@.len() == 16 && "fulluseraccess"@.len() == 14 && "full_access"@.len() == 11 && "fullaccess"@.len() == 10 && "custom"@.len() == 6);
    assert("workspace_only"@[0] != "fulluseraccess"@[0]);
    assert("recommended"@[0] != "full_access"@[0]);
}

/// Writing a name in another case, or with hyphens in place of underscores, names the
/// same.
pub proof fn law_names_are_normal_in_any_spelling(name: Seq<char>, i: int)
    requires
        0 <= i < name.len(),
    ensures
        normal_name(name).len() == name.len(),
        name[i] == '-' || name[i] == '_' ==> normal_name(name)[i] == '_',
        'a' <= name[i] <= 'z' ==> normal_name(name)[i] == name[i],
        'A' <= name[i] <= 'Z' ==> normal_name(name)[i] as int == name[i] as int + 32,
{
}

} // verus!

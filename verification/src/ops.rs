//! Read-only operations: logs, repositories, profiles, approvals.
use crate::approvals::{answers, Approvals, OperationFacts, Refusal};
use crate::approve::{optional_text, text_or_null};
use crate::dispatch::same_option;
use crate::error::{ErrorCode, IpcError};
use crate::exec::clamped;
use crate::json::{Json, JsonObject, JsonV};
use crate::params::{GitDiffParams, GitStatusParams, LogsQueryParams, MAX_LOG_QUERY_LIMIT};
use crate::text::{copy_text, join, same_text, trim};
use crate::workspace::{
    comes_before, lemma_text_less_total, lemma_text_less_transitive, path_refusal,
    selected_for_path, text_less, workspace_id_for_path, WorkspaceEntry,
};
use vstd::prelude::*;

verus! {

/// Why a required field is missing.
pub open spec fn id_field_refusal(params: Option<JsonV>, field: Seq<char>) -> Refusal {
    let given = match params {
        Some(p) => p.get_str(field),
        None => None,
    };
    if given matches Some(id) && id.len() > 0 {
        None
    } else {
        Some((ErrorCode::InvalidParams, field + " is required"@))
    }
}

/// Takes a required text field out of parameters.
pub fn require_id(params: Option<&Json>, field: &str) -> (r: Result<String, IpcError>)
    ensures
        answers(
            r,
            id_field_refusal(
                match params {
                    Some(p) => Some(p@),
                    None => None,
                },
                field@,
            ),
        ),
        r matches Ok(id) ==> params is Some && params->0@.get_str(field@) == Some(id@),
{
    if let Some(p) = params {
        if let Some(id) = p.get_str(field) {
            if !id.is_empty() {
                return Ok(id.to_owned());
            }
        }
    }
    Err(IpcError::with_message(ErrorCode::InvalidParams, join(field, " is required")))
}

/// The error for parameters of another shape.
pub fn parse_error(message: &str) -> (e: IpcError)
    ensures
        e.is(ErrorCode::InvalidParams, "invalid params: "@ + message@),
{
    IpcError::with_message(ErrorCode::InvalidParams, join("invalid params: ", message))
}

/// Why an approval is not shown.
pub open spec fn approval_show_refusal(found: bool, id: Seq<char>) -> Refusal {
    if found {
        None
    } else {
        Some((ErrorCode::InvalidParams, "approval not found: "@ + id))
    }
}

/// The approval to show.
pub fn handle_approval_show<'a>(approvals: &'a Approvals, id: &str) -> (r: Result<
    &'a crate::approvals::ApprovalRecord,
    IpcError,
>)
    ensures
        answers(r, approval_show_refusal(approvals@.contains_key(id@), id@)),
        r matches Ok(record) ==> *record == approvals@[id@],
{
    match approvals.get(id) {
        Some(record) => Ok(record),
        None => Err(
            IpcError::with_message(ErrorCode::InvalidParams, join("approval not found: ", id)),
        ),
    }
}

/// Each of the first `n` positions, once.
pub open spec fn is_arrangement(order: Seq<usize>, n: int) -> bool {
    &&& order.len() == n
    &&& forall|a: int| 0 <= a < order.len() ==> (#[trigger] order[a]) < n
    &&& forall|a: int, b: int|
        0 <= a < b < order.len() ==> (#[trigger] order[a]) != (#[trigger] order[b])
}

/// An arrangement with one more position put in.
proof fn lemma_inserted_arrangement(order: Seq<usize>, n: usize, at: int)
    requires
        is_arrangement(order, n as int),
        0 <= at <= order.len(),
    ensures
        is_arrangement(order.insert(at, n), n + 1),
{
    let after = order.insert(at, n);
    assert forall|a: int, b: int| 0 <= a < b < after.len() implies (#[trigger] after[a]) != (
    #[trigger] after[b]) by {
        let x = if a < at {
            order[a]
        } else if a == at {
            n
        } else {
            order[a - 1]
        };
        let y = if b < at {
            order[b]
        } else if b == at {
            n
        } else {
            order[b - 1]
        };
        assert(after[a] == x && after[b] == y);
    }
}

/// When the approval at a position was created.
pub open spec fn created(approvals: Approvals, i: int) -> int {
    approvals.items()[i].1.created_at_unix as int
}

/// The positions are in order, the newest first.
pub open spec fn is_newest_first(approvals: Approvals, order: Seq<usize>) -> bool {
    forall|a: int, b: int|
        0 <= a < b < order.len() ==> created(approvals, (#[trigger] order[a]) as int) >= created(
            approvals,
            (#[trigger] order[b]) as int,
        )
}

/// The approvals in order, the newest first, by their positions.
pub fn handle_approval_list(approvals: &Approvals) -> (order: Vec<usize>)
    ensures
        is_arrangement(order@, approvals.items().len() as int),
        is_newest_first(*approvals, order@),
{
    let mut order: Vec<usize> = Vec::new();
    let n: usize = approvals.len();
    let mut i: usize = 0;
    while i < n
        invariant
            i <= n,
            n == approvals.items().len(),
            is_arrangement(order@, i as int),
            is_newest_first(*approvals, order@),
        decreases n - i,
    {
        let time: i64 = approvals.value_at(i).created_at_unix;
        let mut at: usize = 0;
        while at < order.len() && approvals.value_at(order[at]).created_at_unix >= time
            invariant
                at <= order@.len(),
                i < n,
                n == approvals.items().len(),
                is_arrangement(order@, i as int),
                forall|a: int|
                    0 <= a < at ==> created(*approvals, (#[trigger] order@[a]) as int) >= time,
            decreases order.len() - at,
        {
            at += 1;
        }
        let ghost before = order@;
        assert(at < before.len() ==> created(*approvals, before[at as int] as int) < time);
        order.insert(at, i);
        proof {
            lemma_inserted_arrangement(before, i, at as int);
            assert(order@ == before.insert(at as int, i));
            assert forall|a: int, b: int| 0 <= a < b < order@.len() implies created(
                *approvals,
                (#[trigger] order@[a]) as int,
            ) >= created(*approvals, (#[trigger] order@[b]) as int) by {
                let x = if a < at {
                    before[a]
                } else if a == at {
                    i
                } else {
                    before[a - 1]
                };
                let y = if b < at {
                    before[b]
                } else if b == at {
                    i
                } else {
                    before[b - 1]
                };
                assert(order@[a] == x && order@[b] == y);
                if a == at && b - 1 > at {
                    assert(created(*approvals, before[at as int] as int) >= created(
                        *approvals,
                        before[b - 1] as int,
                    ));
                }
            }
        }
        i += 1;
    }
    order
}

/// One position comes before another: by its name, then by its place.
pub open spec fn precedes(ids: Seq<String>, x: int, y: int) -> bool {
    text_less(ids[x]@, ids[y]@) || (ids[x]@ == ids[y]@ && x < y)
}

/// The positions are in alphabetical order.
pub open spec fn is_alphabetical(ids: Seq<String>, order: Seq<usize>) -> bool {
    forall|a: int, b: int|
        0 <= a < b < order.len() ==> precedes(
            ids,
            (#[trigger] order[a]) as int,
            (#[trigger] order[b]) as int,
        )
}

/// Puts names into alphabetical order, by their positions.
pub fn alphabetical(ids: &Vec<String>) -> (order: Vec<usize>)
    ensures
        is_arrangement(order@, ids@.len() as int),
        is_alphabetical(ids@, order@),
{
    let mut order: Vec<usize> = Vec::new();
    let n: usize = ids.len();
    let mut i: usize = 0;
    while i < n
        invariant
            i <= n,
            n == ids@.len(),
            is_arrangement(order@, i as int),
            is_alphabetical(ids@, order@),
        decreases n - i,
    {
        let mut at: usize = 0;
        while at < order.len() && !comes_before(ids[i].as_str(), ids[order[at]].as_str())
            invariant
                at <= order@.len(),
                i < n,
                n == ids@.len(),
                is_arrangement(order@, i as int),
                forall|a: int|
                    0 <= a < at ==> !text_less(
                        ids@[i as int]@,
                        ids@[(#[trigger] order@[a]) as int]@,
                    ),
            decreases order.len() - at,
        {
            at += 1;
        }
        let ghost before = order@;
        assert(at < before.len() ==> text_less(ids@[i as int]@, ids@[before[at as int] as int]@));
        order.insert(at, i);
        proof {
            lemma_inserted_arrangement(before, i, at as int);
            assert(order@ == before.insert(at as int, i));
            assert forall|a: int, b: int| 0 <= a < b < order@.len() implies precedes(
                ids@,
                (#[trigger] order@[a]) as int,
                (#[trigger] order@[b]) as int,
            ) by {
                let x = if a < at {
                    before[a]
                } else if a == at {
                    i
                } else {
                    before[a - 1]
                };
                let y = if b < at {
                    before[b]
                } else if b == at {
                    i
                } else {
                    before[b - 1]
                };
                assert(order@[a] == x && order@[b] == y);
                if a < at && b == at {
                    lemma_text_less_total(ids@[x as int]@, ids@[i as int]@);
                } else if a == at && b - 1 > at {
                    let z = before[at as int];
                    assert(precedes(ids@, z as int, y as int));
                    if text_less(ids@[z as int]@, ids@[y as int]@) {
                        lemma_text_less_transitive(
                            ids@[i as int]@,
                            ids@[z as int]@,
                            ids@[y as int]@,
                        );
                    }
                }
            }
        }
        i += 1;
    }
    order
}

/// Profiles of a page where the caller names no bound.
pub const DEFAULT_PROFILE_LIMIT: usize = 32;

/// Most profiles of a page.
pub const MAX_PROFILE_LIMIT: usize = 64;

/// A page of a sorted list.
#[derive(Debug)]
pub struct ProfilePage {
    pub start: usize,
    pub end: usize,
    pub truncated: bool,
    pub next_cursor: Option<String>,
}

/// Position behind the first entry with a name, or the beginning.
pub open spec fn is_page_start(sorted: Seq<String>, cursor: Option<Seq<char>>, start: int) -> bool {
    match cursor {
        Some(c) => if exists|i: int| 0 <= i < sorted.len() && (#[trigger] sorted[i])@ == c {
            &&& 0 < start <= sorted.len()
            &&& sorted[start - 1]@ == c
            &&& forall|i: int| 0 <= i < start - 1 ==> (#[trigger] sorted[i])@ != c
        } else {
            start == 0
        },
        None => start == 0,
    }
}

/// Position behind the first entry with a name, or the beginning.
fn page_start(sorted: &Vec<String>, cursor: Option<&str>) -> (start: usize)
    ensures
        is_page_start(
            sorted@,
            match cursor {
                Some(c) => Some(c@),
                None => None,
            },
            start as int,
        ),
        start <= sorted@.len(),
{
    let c = match cursor {
        Some(c) => c,
        None => {
            return 0;
        },
    };
    let mut i: usize = 0;
    while i < sorted.len()
        invariant
            i <= sorted@.len(),
            cursor == Some(c),
            forall|j: int| 0 <= j < i ==> (#[trigger] sorted@[j])@ != c@,
        decreases sorted.len() - i,
    {
        if same_text(sorted[i].as_str(), c) {
            assert(sorted@[i as int]@ == c@);
            return i + 1;
        }
        i += 1;
    }
    0
}

/// The page of profiles behind a cursor.
pub open spec fn is_profile_page(
    page: ProfilePage,
    sorted: Seq<String>,
    cursor: Option<Seq<char>>,
    limit: Option<usize>,
) -> bool {
    &&& is_page_start(sorted, cursor, page.start as int)
    &&& page.start <= page.end <= sorted.len()
    &&& page.end == ({
        let asked = clamped(
            match limit {
                Some(n) => n as int,
                None => DEFAULT_PROFILE_LIMIT as int,
            },
            1,
            MAX_PROFILE_LIMIT as int,
        );
        if page.start + asked < sorted.len() {
            page.start + asked
        } else {
            sorted.len() as int
        }
    })
    &&& page.truncated == (page.end < sorted.len())
    &&& match page.next_cursor {
        Some(next) => page.truncated && next@ == sorted[page.end - 1]@,
        None => !page.truncated,
    }
}

/// Cuts a page out of the sorted names of the profiles.
pub fn handle_profile_list(sorted: &Vec<String>, cursor: Option<&str>, limit: Option<usize>) -> (page:
    ProfilePage)
    ensures
        page.start <= page.end <= sorted@.len(),
        is_profile_page(
            page,
            sorted@,
            match cursor {
                Some(c) => Some(c@),
                None => None,
            },
            limit,
        ),
{
    let start: usize = page_start(sorted, cursor);
    let asked: usize = match limit {
        Some(n) => if n < 1 {
            1
        } else if n > MAX_PROFILE_LIMIT {
            MAX_PROFILE_LIMIT
        } else {
            n
        },
        None => DEFAULT_PROFILE_LIMIT,
    };
    let end: usize = if sorted.len() - start > asked {
        start + asked
    } else {
        sorted.len()
    };
    let truncated = end < sorted.len();
    let next_cursor = if truncated {
        Some(sorted[end - 1].clone())
    } else {
        None
    };
    ProfilePage { start, end, truncated, next_cursor }
}

/// The answer with a page of profiles.
pub open spec fn profile_body(profiles: JsonV, page: ProfilePage, total: int) -> JsonV {
    JsonV::Object(
        Map::<Seq<char>, JsonV>::empty().insert("profiles"@, profiles).insert(
            "count"@,
            JsonV::Integer(page.end - page.start),
        ).insert("total"@, JsonV::Integer(total)).insert(
            "truncated"@,
            JsonV::Bool(page.truncated),
        ).insert("next_cursor"@, text_or_null(page.next_cursor)).insert(
            "official_count"@,
            JsonV::Integer(9),
        ).insert(
            "note"@,
            JsonV::Str("local PATH detection only; credentials never leave the device"@),
        ),
    )
}

/// Answers with a page of profiles.
pub fn profile_list_answer(profiles: Json, page: &ProfilePage, total: usize) -> (body: Json)
    requires
        page.start <= page.end,
    ensures
        body@ == profile_body(profiles@, *page, total as int),
{
    let mut object = JsonObject::new();
    object.put("profiles", profiles);
    object.put("count", Json::Integer((page.end - page.start) as i128));
    object.put("total", Json::Integer(total as i128));
    object.put("truncated", Json::Bool(page.truncated));
    object.put("next_cursor", optional_text(&page.next_cursor));
    object.put("official_count", Json::Integer(9));
    object.put(
        "note",
        Json::text("local PATH detection only; credentials never leave the device"),
    );
    Json::Object(object)
}

/// The answer that shows a profile.
pub open spec fn profile_show_body(profile: JsonV, status: JsonV, adapter: JsonV) -> JsonV {
    JsonV::Object(
        Map::<Seq<char>, JsonV>::empty().insert("profile"@, profile).insert(
            "status"@,
            status,
        ).insert("adapter"@, adapter).insert(
            "auth_status"@,
            JsonV::Str("unknown_no_credential_probe"@),
        ),
    )
}

/// Answers with one profile.
pub fn profile_show_answer(profile: Json, status: Json, adapter: Json) -> (body: Json)
    ensures
        body@ == profile_show_body(profile@, status@, adapter@),
{
    let mut object = JsonObject::new();
    object.put("profile", profile);
    object.put("status", status);
    object.put("adapter", adapter);
    object.put("auth_status", Json::text("unknown_no_credential_probe"));
    Json::Object(object)
}

/// Log entries of a page where the caller names no bound.
pub const DEFAULT_LOG_LIMIT: usize = 100;

/// Entries that a log query asks for.
pub open spec fn log_limit(p: LogsQueryParams) -> int {
    match p.limit {
        Some(n) => n as int,
        None => DEFAULT_LOG_LIMIT as int,
    }
}

/// Why a log query is refused.
pub open spec fn logs_refusal(p: LogsQueryParams) -> Refusal {
    if 1 <= log_limit(p) <= MAX_LOG_QUERY_LIMIT {
        None
    } else {
        Some((ErrorCode::InvalidParams, "log query limit must be between 1 and 200"@))
    }
}

/// Bounds a log query.
pub fn execute_logs_query(p: &LogsQueryParams) -> (r: Result<usize, IpcError>)
    ensures
        answers(r, logs_refusal(*p)),
        r matches Ok(limit) ==> limit == log_limit(*p),
{
    let limit: usize = match p.limit {
        Some(n) => n,
        None => DEFAULT_LOG_LIMIT,
    };
    if limit < 1 || limit > MAX_LOG_QUERY_LIMIT {
        return Err(
            IpcError::new(ErrorCode::InvalidParams, "log query limit must be between 1 and 200"),
        );
    }
    Ok(limit)
}

/// The code for a log query that failed.
pub open spec fn log_code(unavailable: bool) -> ErrorCode {
    if unavailable {
        ErrorCode::InvalidParams
    } else {
        ErrorCode::Internal
    }
}

/// The error of a log provider; one that is not there is the caller's to mend.
pub fn log_error(unavailable: bool, message: &str) -> (e: IpcError)
    ensures
        e.is(log_code(unavailable), message@),
{
    IpcError::new(
        if unavailable {
            ErrorCode::InvalidParams
        } else {
            ErrorCode::Internal
        },
        message,
    )
}

/// What the log providers are set up with.
#[derive(Debug)]
pub struct LogProviders {
    pub file_id: String,
    pub windows_channel: String,
    pub journald_unit: Option<String>,
    pub docker_container: Option<String>,
    pub process_id: String,
}

/// The providers that a log query may be answered by.
pub open spec fn are_providers_of(providers: LogProviders, p: LogsQueryParams) -> bool {
    &&& providers.file_id@ == "audit"@
    &&& providers.windows_channel@ == (match p.channel {
        Some(channel) => channel@,
        None => "Application"@,
    })
    &&& providers.journald_unit == p.unit
    &&& providers.docker_container == p.container
    &&& providers.process_id@ == "process"@
}

/// Chooses what the log providers are set up with.
pub fn build_log_registry(p: &LogsQueryParams) -> (providers: LogProviders)
    ensures
        are_providers_of(providers, *p),
{
    let windows_channel = match &p.channel {
        Some(channel) => channel.clone(),
        None => "Application".to_owned(),
    };
    LogProviders {
        file_id: "audit".to_owned(),
        windows_channel,
        journald_unit: copy_text(&p.unit),
        docker_container: copy_text(&p.container),
        process_id: "process".to_owned(),
    }
}

/// Facts with a capability and a kind, and nothing else.
pub open spec fn is_plain_facts(
    facts: OperationFacts,
    capability: Seq<char>,
    kind: Seq<char>,
) -> bool {
    &&& facts.capability@ == capability
    &&& facts.kind@ == kind
    &&& facts.program is None
    &&& !facts.elevated
    &&& facts.tool is None
    &&& facts.executable_identity is None
    &&& facts.invocation_identity is None
}

/// What a log query is judged by.
pub open spec fn are_log_facts(facts: OperationFacts) -> bool {
    &&& is_plain_facts(facts, "logs.read"@, "logs"@)
    &&& facts.path is None
    &&& !facts.workspace_relative
    &&& facts.workspace_id is None
    &&& facts.tags@.len() == 0
}

/// The facts that a log query is judged by.
pub fn handle_logs_query() -> (facts: OperationFacts)
    ensures
        are_log_facts(facts),
{
    OperationFacts {
        capability: "logs.read".to_owned(),
        kind: "logs".to_owned(),
        program: None,
        path: None,
        elevated: false,
        workspace_relative: false,
        workspace_id: None,
        tags: Vec::new(),
        tool: None,
        executable_identity: None,
        invocation_identity: None,
    }
}

/// The facts of an operation on a repository.
fn git_facts(path: &String, absolute: bool, workspace_id: &Option<String>, tags: Vec<String>) -> (facts:
    OperationFacts)
    ensures
        is_plain_facts(facts, "filesystem.read"@, "git"@),
        facts.path == Some(*path),
        facts.workspace_relative == !absolute,
        facts.workspace_id == *workspace_id,
        facts.tags == tags,
{
    OperationFacts {
        capability: "filesystem.read".to_owned(),
        kind: "git".to_owned(),
        program: None,
        path: Some(path.clone()),
        elevated: false,
        workspace_relative: !absolute,
        workspace_id: copy_text(workspace_id),
        tags,
        tool: None,
        executable_identity: None,
        invocation_identity: None,
    }
}

/// The workspace that a request on a repository names.
pub open spec fn named(workspace_id: Option<String>) -> Option<Seq<char>> {
    match workspace_id {
        Some(id) => Some(id@),
        None => None,
    }
}

/// Selects the workspace of a request on a repository.
fn select_workspace(
    workspaces: &Vec<WorkspaceEntry>,
    enforce_workspace: bool,
    workspace_id: &Option<String>,
    absolute: bool,
) -> (r: Result<Option<String>, IpcError>)
    ensures
        answers(
            r,
            path_refusal(workspaces@, enforce_workspace, named(*workspace_id), absolute),
        ),
        r matches Ok(selected) ==> same_option(
            selected,
            selected_for_path(workspaces@, named(*workspace_id), absolute),
        ),
{
    match workspace_id {
        Some(id) => workspace_id_for_path(
            workspaces,
            enforce_workspace,
            Some(id.as_str()),
            absolute,
        ),
        None => workspace_id_for_path(workspaces, enforce_workspace, None, absolute),
    }
}

/// A status request bound to its workspace, with the facts it is judged by.
pub open spec fn is_bound_git_status(
    bound: GitStatusParams,
    facts: OperationFacts,
    p: GitStatusParams,
    workspaces: Seq<WorkspaceEntry>,
    absolute: bool,
) -> bool {
    &&& same_option(
        bound.workspace_id,
        selected_for_path(workspaces, named(p.workspace_id), absolute),
    )
    &&& bound == (GitStatusParams { workspace_id: bound.workspace_id, ..p })
    &&& is_plain_facts(facts, "filesystem.read"@, "git"@)
    &&& facts.path == Some(p.path)
    &&& facts.workspace_relative == !absolute
    &&& facts.workspace_id == bound.workspace_id
    &&& facts.tags@.len() == 2
    &&& facts.tags@[0]@ == "git"@
    &&& facts.tags@[1]@ == "status"@
}

/// Admits a status of a repository: its workspace is selected, and named both in the
/// request that runs and in the facts that it is judged by.
pub fn handle_git_status(
    p: GitStatusParams,
    workspaces: &Vec<WorkspaceEntry>,
    enforce_workspace: bool,
    absolute: bool,
) -> (r: Result<(GitStatusParams, OperationFacts), IpcError>)
    ensures
        answers(
            r,
            path_refusal(workspaces@, enforce_workspace, named(p.workspace_id), absolute),
        ),
        r matches Ok((bound, facts)) ==> is_bound_git_status(bound, facts, p, workspaces@, absolute),
{
    let mut p = p;
    p.workspace_id =
    match select_workspace(workspaces, enforce_workspace, &p.workspace_id, absolute) {
        Ok(selected) => selected,
        Err(e) => {
            return Err(e);
        },
    };
    let mut tags: Vec<String> = Vec::new();
    tags.push("git".to_owned());
    tags.push("status".to_owned());
    let facts = git_facts(&p.path, absolute, &p.workspace_id, tags);
    Ok((p, facts))
}

/// A diff request bound to its workspace, with the facts it is judged by.
pub open spec fn is_bound_git_diff(
    bound: GitDiffParams,
    facts: OperationFacts,
    p: GitDiffParams,
    workspaces: Seq<WorkspaceEntry>,
    absolute: bool,
    read_tag: Seq<char>,
) -> bool {
    &&& same_option(
        bound.workspace_id,
        selected_for_path(workspaces, named(p.workspace_id), absolute),
    )
    &&& bound == (GitDiffParams { workspace_id: bound.workspace_id, ..p })
    &&& is_plain_facts(facts, "filesystem.read"@, "git"@)
    &&& facts.path == Some(p.path)
    &&& facts.workspace_relative == !absolute
    &&& facts.workspace_id == bound.workspace_id
    &&& facts.tags@.len() == 3
    &&& facts.tags@[0]@ == "git"@
    &&& facts.tags@[1]@ == "diff"@
    &&& facts.tags@[2]@ == read_tag
}

/// Admits a diff of a repository: its workspace is selected, and named both in the
/// request that runs and in the facts that it is judged by. It shows file contents,
/// so it counts as a read of a sensitive place.
pub fn handle_git_diff(
    p: GitDiffParams,
    workspaces: &Vec<WorkspaceEntry>,
    enforce_workspace: bool,
    absolute: bool,
    read_tag: &str,
) -> (r: Result<(GitDiffParams, OperationFacts), IpcError>)
    ensures
        answers(
            r,
            path_refusal(workspaces@, enforce_workspace, named(p.workspace_id), absolute),
        ),
        r matches Ok((bound, facts)) ==> is_bound_git_diff(
            bound,
            facts,
            p,
            workspaces@,
            absolute,
            read_tag@,
        ),
{
    let mut p = p;
    p.workspace_id =
    match select_workspace(workspaces, enforce_workspace, &p.workspace_id, absolute) {
        Ok(selected) => selected,
        Err(e) => {
            return Err(e);
        },
    };
    let mut tags: Vec<String> = Vec::new();
    tags.push("git".to_owned());
    tags.push("diff".to_owned());
    tags.push(read_tag.to_owned());
    let facts = git_facts(&p.path, absolute, &p.workspace_id, tags);
    Ok((p, facts))
}

/// Entries of a status where the caller names no bound.
pub const DEFAULT_GIT_STATUS_LIMIT: usize = 100;

/// Lines of a diff where the caller names no bound.
pub const DEFAULT_GIT_DIFF_LIMIT: usize = 200;

/// Bytes of a diff where the caller names no bound.
pub const DEFAULT_GIT_DIFF_BYTES: usize = 262_144;

/// The entries that a status is shown in.
pub open spec fn git_status_limit(p: GitStatusParams) -> usize {
    match p.limit {
        Some(n) => n,
        None => DEFAULT_GIT_STATUS_LIMIT,
    }
}

/// The bound of a status.
pub fn execute_git_status(p: &GitStatusParams) -> (limit: usize)
    ensures
        limit == git_status_limit(*p),
{
    match p.limit {
        Some(n) => n,
        None => DEFAULT_GIT_STATUS_LIMIT,
    }
}

/// The lines and the bytes that a diff is shown in.
pub open spec fn git_diff_bounds(p: GitDiffParams) -> (usize, usize) {
    (
        match p.limit {
            Some(n) => n,
            None => DEFAULT_GIT_DIFF_LIMIT,
        },
        match p.max_bytes {
            Some(n) => n,
            None => DEFAULT_GIT_DIFF_BYTES,
        },
    )
}

/// The bounds of a diff: lines and bytes.
pub fn execute_git_diff(p: &GitDiffParams) -> (bounds: (usize, usize))
    ensures
        bounds == git_diff_bounds(*p),
{
    let limit: usize = match p.limit {
        Some(n) => n,
        None => DEFAULT_GIT_DIFF_LIMIT,
    };
    let bytes: usize = match p.max_bytes {
        Some(n) => n,
        None => DEFAULT_GIT_DIFF_BYTES,
    };
    (limit, bytes)
}

/// Completes the page of a repository with its workspace.
pub fn with_workspace(page: JsonObject, workspace_id: &Option<String>) -> (body: Json)
    ensures
        body@ == JsonV::Object(page@.insert("workspace_id"@, text_or_null(*workspace_id))),
{
    let mut object = page;
    object.put("workspace_id", optional_text(workspace_id));
    Json::Object(object)
}

/// An entry of the audit log.
#[derive(Debug)]
pub struct AuditEntry {
    pub id: String,
    pub event_type: String,
    pub created_at_unix: i64,
    pub capability: Option<String>,
    pub operation_id: Option<String>,
    pub decision: Option<String>,
    pub detail: String,
}

/// A copy of an optional text.
fn own(s: Option<&str>) -> (r: Option<String>)
    ensures
        match s {
            Some(text) => r matches Some(t) && t@ == text@,
            None => r is None,
        },
{
    match s {
        Some(text) => Some(text.to_owned()),
        None => None,
    }
}

/// The optional text is this one.
pub open spec fn is_text(r: Option<String>, s: Option<&str>) -> bool {
    match s {
        Some(text) => r matches Some(t) && t@ == text@,
        None => r is None,
    }
}

/// An entry of the audit log tells of an event.
pub open spec fn is_entry_of(
    entry: AuditEntry,
    event_type: Seq<char>,
    capability: Option<&str>,
    operation_id: Option<&str>,
    decision: Option<&str>,
    detail: Seq<char>,
    now: i64,
) -> bool {
    &&& crate::ids::is_fresh_id(entry.id@, "aud_"@)
    &&& entry.event_type@ == event_type
    &&& entry.created_at_unix == now
    &&& is_text(entry.capability, capability)
    &&& is_text(entry.operation_id, operation_id)
    &&& is_text(entry.decision, decision)
    &&& entry.detail@ == detail
}

/// Writes an entry of the audit log.
pub fn append_audit(
    event_type: &str,
    capability: Option<&str>,
    operation_id: Option<&str>,
    decision: Option<&str>,
    detail: &str,
    now: i64,
) -> (entry: AuditEntry)
    ensures
        is_entry_of(entry, event_type@, capability, operation_id, decision, detail@, now),
{
    AuditEntry {
        id: crate::ids::new_id("aud_"),
        event_type: event_type.to_owned(),
        created_at_unix: now,
        capability: own(capability),
        operation_id: own(operation_id),
        decision: own(decision),
        detail: detail.to_owned(),
    }
}

/// A page of profiles starts behind its cursor, at the front where the cursor is not
/// known, holds as many as were asked for, 32 where none were and never more than 64, as
/// far as there are any, and hands out a cursor exactly where more follow: its last
/// profile. The next page then starts where this one ends.
pub proof fn law_profile_pages_follow_each_other(
    page: ProfilePage,
    sorted: Seq<String>,
    cursor: Option<Seq<char>>,
    limit: Option<usize>,
    next: ProfilePage,
    next_limit: Option<usize>,
)
    requires
        is_profile_page(page, sorted, cursor, limit),
        page.next_cursor matches Some(c) ==> is_profile_page(next, sorted, Some(c@), next_limit),
        forall|i: int, j: int|
            0 <= i < j < sorted.len() ==> (#[trigger] sorted[i])@ != (#[trigger] sorted[j])@,
    ensures
        cursor is None ==> page.start == 0,
        page.end - page.start <= 64,
        page.start < sorted.len() ==> page.start < page.end,
        limit is None && page.start + 32 <= sorted.len() ==> page.end - page.start == 32,
        limit matches Some(n) ==> (1 <= n <= 64 && page.start + n <= sorted.len() ==> page.end
            - page.start == n),
        page.truncated <==> page.end < sorted.len(),
        page.next_cursor is Some <==> page.end < sorted.len(),
        page.next_cursor is Some ==> next.start == page.end,
{
    if let Some(c) = page.next_cursor {
        assert(sorted[page.end - 1]@ == c@);
        if next.start != page.end {
            let i: int = if next.start < page.end { next.start - 1 } else { page.end - 1 };
            let j: int = if next.start < page.end { page.end - 1 } else { next.start - 1 };
            assert(sorted[next.start - 1]@ == c@);
            assert(sorted[i]@ != sorted[j]@);
        }
    }
}

/// A page of profiles tells how many it holds, how many there are, and where to go on.
pub proof fn law_profile_pages_are_told(profiles: JsonV, page: ProfilePage, total: int)
    ensures
        profile_body(profiles, page, total).get("profiles"@) == Some(profiles),
        profile_body(profiles, page, total).get("count"@) == Some(JsonV::Integer(page.end - page.start)),
        profile_body(profiles, page, total).get("total"@) == Some(JsonV::Integer(total)),
        profile_body(profiles, page, total).get("truncated"@) == Some(JsonV::Bool(page.truncated)),
        profile_body(profiles, page, total).get("official_count"@) == Some(JsonV::Integer(9)),
        page.next_cursor matches Some(c) ==> profile_body(profiles, page, total).get("next_cursor"@)
            == Some(JsonV::Str(c@)),
        page.next_cursor is None ==> profile_body(profiles, page, total).get("next_cursor"@) == Some(
            JsonV::Null,
        ),
{
    reveal_strlit("profiles");
    reveal_strlit("count");
    reveal_strlit("total");
    reveal_strlit("truncated");
    reveal_strlit("official_count");
    reveal_strlit("next_cursor");
    reveal_strlit("note");
    assert("profiles"@.len() == 8 && "count"@.len() == 5 && "total"@.len() == 5 && "truncated"@.len() == 9 && "official_count"@.len() == 14 && "next_cursor"@.len() == 11 && "note"@.len() == 4);
    assert("count"@[0] != "total"@[0]);
}

/// A profile is shown with its status and its adapter, and no credential is looked for.
pub proof fn law_profiles_are_shown(profile: JsonV, status: JsonV, adapter: JsonV)
    ensures
        profile_show_body(profile, status, adapter).get("profile"@) == Some(profile),
        profile_show_body(profile, status, adapter).get("status"@) == Some(status),
        profile_show_body(profile, status, adapter).get("adapter"@) == Some(adapter),
        profile_show_body(profile, status, adapter).get("auth_status"@) == Some(JsonV::Str("unknown_no_credential_probe"@)),
{
    reveal_strlit("profile");
    reveal_strlit("status");
    reveal_strlit("adapter");
    reveal_strlit("auth_status");
    assert("profile"@.len() == 7 && "status"@.len() == 6 && "adapter"@.len() == 7 && "auth_status"@.len() == 11);
    assert("profile"@[0] != "adapter"@[0]);
}

/// A required field is there where it is a text that is not empty.
pub proof fn law_required_fields_are_texts(params: JsonV, field: Seq<char>)
    ensures
        id_field_refusal(None, field) is Some,
        id_field_refusal(Some(params), field) is None <==> (params.get(field) matches Some(
            JsonV::Str(id),
        ) && id.len() > 0),
        id_field_refusal(Some(params), field) matches Some((code, _)) ==> code
            == ErrorCode::InvalidParams,
{
}

/// Logs are read in 1 to 200 lines, 100 where none are asked for.
pub proof fn law_log_queries_are_bounded(p: LogsQueryParams)
    ensures
        p.limit is None ==> log_limit(p) == 100 && logs_refusal(p) is None,
        p.limit matches Some(n) ==> log_limit(p) == n && (logs_refusal(p) is None <==> 1 <= n
            <= 200),
        logs_refusal(p) matches Some((code, _)) ==> code == ErrorCode::InvalidParams,
{
}

/// A status request keeps everything but its workspace, which is the selected one, and
/// is judged as reading the path that it names.
pub proof fn law_git_status_is_judged_as_reading(
    bound: GitStatusParams,
    facts: OperationFacts,
    p: GitStatusParams,
    workspaces: Seq<WorkspaceEntry>,
    absolute: bool,
)
    requires
        is_bound_git_status(bound, facts, p, workspaces, absolute),
    ensures
        bound.path == p.path && bound.cursor == p.cursor && bound.limit == p.limit
            && bound.idempotency_key == p.idempotency_key,
        facts.capability@ == "filesystem.read"@ && facts.kind@ == "git"@ && !facts.elevated,
        facts.path == Some(p.path),
        facts.workspace_relative <==> !absolute,
        facts.workspace_id == bound.workspace_id,
        p.workspace_id is None && absolute ==> bound.workspace_id is None,
        p.workspace_id matches Some(id) ==> (trim(id@).len() > 0 && trim(id@) != "default"@ ==> (
        bound.workspace_id matches Some(selected) && selected@ == trim(id@))),
        facts.tags@.len() == 2 && facts.tags@[0]@ == "git"@ && facts.tags@[1]@ == "status"@,
        facts.program is None && facts.tool is None,
        p.limit is None ==> git_status_limit(p) == 100,
        p.limit matches Some(n) ==> git_status_limit(p) == n,
{
}

/// A diff request keeps everything but its workspace, which is the selected one, and is
/// judged as reading the path that it names.
pub proof fn law_git_diff_is_judged_as_reading(
    bound: GitDiffParams,
    facts: OperationFacts,
    p: GitDiffParams,
    workspaces: Seq<WorkspaceEntry>,
    absolute: bool,
    read_tag: Seq<char>,
)
    requires
        is_bound_git_diff(bound, facts, p, workspaces, absolute, read_tag),
    ensures
        bound.path == p.path && bound.pathspec == p.pathspec && bound.staged == p.staged
            && bound.cursor == p.cursor && bound.limit == p.limit && bound.max_bytes == p.max_bytes
            && bound.idempotency_key == p.idempotency_key,
        facts.capability@ == "filesystem.read"@ && facts.kind@ == "git"@ && !facts.elevated,
        facts.path == Some(p.path),
        facts.workspace_relative <==> !absolute,
        facts.workspace_id == bound.workspace_id,
        p.workspace_id is None && absolute ==> bound.workspace_id is None,
        p.workspace_id matches Some(id) ==> (trim(id@).len() > 0 && trim(id@) != "default"@ ==> (
        bound.workspace_id matches Some(selected) && selected@ == trim(id@))),
        facts.tags@.len() == 3 && facts.tags@[0]@ == "git"@ && facts.tags@[1]@ == "diff"@
            && facts.tags@[2]@ == read_tag,
        facts.program is None && facts.tool is None,
        p.limit is None ==> git_diff_bounds(p).0 == 200,
        p.limit matches Some(n) ==> git_diff_bounds(p).0 == n,
        p.max_bytes is None ==> git_diff_bounds(p).1 == 262_144,
        p.max_bytes matches Some(n) ==> git_diff_bounds(p).1 == n,
{
}

/// An arrangement of the texts of a list, in order, puts no text before a smaller one,
/// and equal texts in the order of the list.
pub proof fn law_alphabetical_order_is_stable(ids: Seq<String>, order: Seq<usize>, a: int, b: int)
    requires
        is_alphabetical(ids, order),
        0 <= a < b < order.len(),
    ensures
        !text_less(ids[order[b] as int]@, ids[order[a] as int]@),
        ids[order[a] as int]@ == ids[order[b] as int]@ ==> order[a] < order[b],
{
    let x = ids[order[a] as int]@;
    let y = ids[order[b] as int]@;
    if text_less(y, x) && text_less(x, y) {
        lemma_text_less_transitive(x, y, x);
        lemma_text_less_irreflexive(x);
    }
    if text_less(y, y) {
        lemma_text_less_irreflexive(y);
    }
    assert(precedes(ids, order[a] as int, order[b] as int));
}

/// No text is smaller than itself.
proof fn lemma_text_less_irreflexive(s: Seq<char>)
    ensures
        !text_less(s, s),
    decreases s.len(),
{
    if s.len() > 0 {
        lemma_text_less_irreflexive(s.skip(1));
    }
}

/// An entry of the audit log tells what happened, when, to which operation, under which
/// capability and with which decision, as it was given, and nothing where nothing was.
pub proof fn law_audit_entries_tell_what_happened(
    entry: AuditEntry,
    event_type: Seq<char>,
    capability: Option<&str>,
    operation_id: Option<&str>,
    decision: Option<&str>,
    detail: Seq<char>,
    now: i64,
)
    requires
        is_entry_of(entry, event_type, capability, operation_id, decision, detail, now),
    ensures
        entry.event_type@ == event_type,
        entry.created_at_unix == now,
        entry.detail@ == detail,
        capability matches Some(c) ==> (entry.capability matches Some(told) && told@ == c@),
        capability is None ==> entry.capability is None,
        operation_id matches Some(o) ==> (entry.operation_id matches Some(told) && told@ == o@),
        operation_id is None ==> entry.operation_id is None,
        decision matches Some(d) ==> (entry.decision matches Some(told) && told@ == d@),
        decision is None ==> entry.decision is None,
{
}

/// A log query reaches the unit, the container and the channel that it names, the
/// application channel where it names none, and else the audit file and the process.
pub proof fn law_log_queries_reach_what_they_name(providers: LogProviders, p: LogsQueryParams)
    requires
        are_providers_of(providers, p),
    ensures
        providers.journald_unit == p.unit,
        providers.docker_container == p.container,
        p.channel matches Some(channel) ==> providers.windows_channel@ == channel@,
        p.channel is None ==> providers.windows_channel@ == "Application"@,
        providers.file_id@ == "audit"@ && providers.process_id@ == "process"@,
{
}

/// Approvals are listed once each, the newest first.
pub proof fn law_approvals_are_listed_newest_first(
    approvals: Approvals,
    order: Seq<usize>,
    a: int,
    b: int,
)
    requires
        is_arrangement(order, approvals.items().len() as int),
        is_newest_first(approvals, order),
        0 <= a < b < order.len(),
    ensures
        order.len() == approvals.items().len(),
        order[a] != order[b],
        approvals.items()[order[a] as int].1.created_at_unix
            >= approvals.items()[order[b] as int].1.created_at_unix,
{
    assert(created(approvals, order[a] as int) >= created(approvals, order[b] as int));
}

/// A log query is judged as reading logs, of no path and no workspace, not elevated; it
/// fails as invalid where its provider is unavailable, and otherwise internally.
pub proof fn law_log_queries_are_judged_as_reading(facts: OperationFacts, unavailable: bool)
    requires
        are_log_facts(facts),
    ensures
        facts.capability@ == "logs.read"@ && facts.kind@ == "logs"@,
        facts.path is None && facts.workspace_id is None && facts.program is None,
        !facts.elevated && !facts.workspace_relative && facts.tags@.len() == 0,
        facts.tool is None && facts.executable_identity is None
            && facts.invocation_identity is None,
        log_code(unavailable) == ErrorCode::InvalidParams <==> unavailable,
        log_code(unavailable) == ErrorCode::Internal <==> !unavailable,
{
}

/// An approval is shown where it is there.
pub proof fn law_approvals_are_shown_where_they_are(found: bool, id: Seq<char>)
    ensures
        approval_show_refusal(found, id) is None <==> found,
        approval_show_refusal(found, id) matches Some((code, _)) ==> code
            == ErrorCode::InvalidParams,
{
}

} // verus!

//! The registry of workspaces on this device.
use crate::approvals::{answers, Refusal};
use crate::dispatch::same_option;
use crate::error::{ErrorCode, IpcError};
use crate::ids::{is_generation, new_workspace_generation, valid_workspace_generation};
use crate::paths::{is_same_path, same_path};
use crate::text::{
    byte_len, chars_of, copy_text, decimal, has_prefix, is_ascii_alnum, join, join3,
    lemma_utf8_len_first, same_text, starts_with, texts, trim, trimmed, unsigned_decimal, utf8_len,
};
use vstd::prelude::*;
use vstd::string::*;

verus! {

/// Workspaces that the registry may hold.
pub const MAX_WORKSPACES: usize = 64;

/// Bytes that the registry file may take.
pub const MAX_WORKSPACE_FILE_BYTES: u64 = 262144;

/// One registered workspace of this device. The root is an absolute path.
#[derive(Debug)]
pub struct WorkspaceEntry {
    pub id: String,
    pub root: String,
    pub label: Option<String>,
    /// Changes whenever the id is bound to another root. Roots are compared as
    /// paths, not as texts.
    pub generation: String,
}

/// What of a workspace is told to the control plane: neither root nor label.
#[derive(Debug)]
pub struct RemoteWorkspaceRegistration {
    pub id: String,
    pub generation: String,
}

impl WorkspaceEntry {
    /// A copy of the entry.
    pub fn copy(&self) -> (entry: WorkspaceEntry)
        ensures
            entry == *self,
    {
        WorkspaceEntry {
            id: self.id.clone(),
            root: self.root.clone(),
            label: copy_text(&self.label),
            generation: self.generation.clone(),
        }
    }
}

/// Characters of a workspace id.
pub open spec fn is_id_char(c: char) -> bool {
    is_ascii_alnum(c) || c == '_' || c == '-'
}

/// Every character may stand in a workspace id.
pub open spec fn all_id_chars(s: Seq<char>) -> bool {
    forall|i: int| 0 <= i < s.len() ==> is_id_char(#[trigger] s[i])
}

/// A workspace id: `ws_` and more, at most 128 bytes.
pub open spec fn is_workspace_id(s: Seq<char>) -> bool {
    utf8_len(s) <= 128 && has_prefix(s, "ws_"@) && all_id_chars(s)
}

/// Whether every character may stand in a workspace id.
fn id_chars_only(s: &str) -> (b: bool)
    ensures
        b == all_id_chars(s@),
{
    let chars = chars_of(s);
    let mut i: usize = 0;
    while i < chars.len()
        invariant
            i <= chars@.len(),
            chars@ == s@,
            forall|j: int| 0 <= j < i ==> is_id_char(#[trigger] s@[j]),
        decreases chars.len() - i,
    {
        let c = chars[i];
        let ok = ('a' <= c && c <= 'z') || ('A' <= c && c <= 'Z') || ('0' <= c && c <= '9') || c
            == '_' || c == '-';
        if !ok {
            assert(!is_id_char(s@[i as int]));
            return false;
        }
        i += 1;
    }
    true
}

/// Whether a text is a workspace id.
fn valid_workspace_id(s: &str) -> (b: bool)
    ensures
        b == is_workspace_id(s@),
{
    byte_len(s) <= 128 && starts_with(s, "ws_") && id_chars_only(s)
}

/// The id that a request selects: the built-in workspace by default, under its
/// present name.
pub open spec fn selected_id(workspace_id: Option<Seq<char>>) -> Seq<char> {
    match workspace_id {
        Some(s) => if trim(s).len() == 0 || trim(s) == "default"@ {
            "ws_default"@
        } else {
            trim(s)
        },
        None => "ws_default"@,
    }
}

/// Why the selected id is refused.
pub open spec fn id_refusal(workspace_id: Option<Seq<char>>) -> Refusal {
    if is_workspace_id(selected_id(workspace_id)) {
        None
    } else {
        Some(
            (
                ErrorCode::InvalidParams,
                "invalid workspace_id: "@ + selected_id(workspace_id) + " (expected ws_... )"@,
            ),
        )
    }
}

/// The text inside.
pub open spec fn str_view(s: Option<&str>) -> Option<Seq<char>> {
    match s {
        Some(text) => Some(text@),
        None => None,
    }
}

/// Normalizes the workspace id of a request.
pub fn canonical_workspace_id(workspace_id: Option<&str>) -> (r: Result<String, IpcError>)
    ensures
        answers(r, id_refusal(str_view(workspace_id))),
        r matches Ok(id) ==> id@ == selected_id(str_view(workspace_id)),
{
    let id = match workspace_id {
        Some(s) => {
            let t = trimmed(s);
            if t.as_str().is_empty() || same_text(t.as_str(), "default") {
                "ws_default".to_owned()
            } else {
                t
            }
        },
        None => "ws_default".to_owned(),
    };
    if !valid_workspace_id(id.as_str()) {
        return Err(
            IpcError::with_message(
                ErrorCode::InvalidParams,
                join3("invalid workspace_id: ", id.as_str(), " (expected ws_... )"),
            ),
        );
    }
    Ok(id)
}

/// A request names a workspace.
pub open spec fn names_workspace(workspace_id: Option<Seq<char>>) -> bool {
    workspace_id matches Some(s) && trim(s).len() > 0
}

/// Why no workspace can be selected for a path.
pub open spec fn path_refusal(
    workspaces: Seq<WorkspaceEntry>,
    enforce_workspace: bool,
    workspace_id: Option<Seq<char>>,
    absolute: bool,
) -> Refusal {
    if names_workspace(workspace_id) {
        id_refusal(workspace_id)
    } else if absolute {
        if enforce_workspace {
            Some(
                (
                    ErrorCode::PolicyDenied,
                    "absolute paths without workspace_id require Full Access"@,
                ),
            )
        } else {
            None
        }
    } else if workspaces.len() != 1 {
        Some(
            (
                ErrorCode::InvalidParams,
                "workspace_id is required when more than one workspace is registered"@,
            ),
        )
    } else {
        id_refusal(Some(workspaces[0].id@))
    }
}

/// The workspace of a path operation: the named one, none for an absolute path, and
/// else the only one.
pub open spec fn selected_for_path(
    workspaces: Seq<WorkspaceEntry>,
    workspace_id: Option<Seq<char>>,
    absolute: bool,
) -> Option<Seq<char>> {
    if names_workspace(workspace_id) {
        Some(selected_id(workspace_id))
    } else if absolute {
        None
    } else {
        Some(selected_id(Some(workspaces[0].id@)))
    }
}

/// Selects the workspace of a path operation. An absolute path without a
/// workspace is attributed to none.
pub fn workspace_id_for_path(
    workspaces: &Vec<WorkspaceEntry>,
    enforce_workspace: bool,
    workspace_id: Option<&str>,
    absolute: bool,
) -> (r: Result<Option<String>, IpcError>)
    ensures
        answers(
            r,
            path_refusal(workspaces@, enforce_workspace, str_view(workspace_id), absolute),
        ),
        r matches Ok(selected) ==> same_option(
            selected,
            selected_for_path(workspaces@, str_view(workspace_id), absolute),
        ),
{
    let named = match workspace_id {
        Some(s) => !trimmed(s).as_str().is_empty(),
        None => false,
    };
    if named {
        return match canonical_workspace_id(workspace_id) {
            Ok(id) => Ok(Some(id)),
            Err(e) => Err(e),
        };
    }
    if absolute {
        if enforce_workspace {
            return Err(
                IpcError::new(
                    ErrorCode::PolicyDenied,
                    "absolute paths without workspace_id require Full Access",
                ),
            );
        }
        return Ok(None);
    }
    if workspaces.len() != 1 {
        return Err(
            IpcError::new(
                ErrorCode::InvalidParams,
                "workspace_id is required when more than one workspace is registered",
            ),
        );
    }
    match canonical_workspace_id(Some(workspaces[0].id.as_str())) {
        Ok(id) => Ok(Some(id)),
        Err(e) => Err(e),
    }
}

/// The entry is registered under the id, or is the built-in one under its former
/// name.
pub open spec fn answers_to(entry: WorkspaceEntry, id: Seq<char>) -> bool {
    entry.id@ == id || (id == "ws_default"@ && entry.id@ == "default"@)
}

/// The workspace at the position is the first that answers to the id.
pub open spec fn selects(workspaces: Seq<WorkspaceEntry>, id: Seq<char>, at: int) -> bool {
    &&& 0 <= at < workspaces.len()
    &&& answers_to(workspaces[at], id)
    &&& forall|j: int| 0 <= j < at ==> !answers_to(#[trigger] workspaces[j], id)
}

/// Why a request selects no workspace.
pub open spec fn lookup_refusal(
    workspaces: Seq<WorkspaceEntry>,
    workspace_id: Option<Seq<char>>,
) -> Refusal {
    match id_refusal(workspace_id) {
        Some(refusal) => Some(refusal),
        None => if exists|i: int|
            0 <= i < workspaces.len() && answers_to(
                #[trigger] workspaces[i],
                selected_id(workspace_id),
            ) {
            None
        } else {
            Some(
                (
                    ErrorCode::InvalidParams,
                    "unknown workspace_id: "@ + selected_id(workspace_id),
                ),
            )
        },
    }
}

/// Finds the workspace that a request selects. An unknown id never falls back to
/// another workspace.
pub fn workspace_for(workspaces: &Vec<WorkspaceEntry>, workspace_id: Option<&str>) -> (r: Result<
    usize,
    IpcError,
>)
    ensures
        answers(r, lookup_refusal(workspaces@, str_view(workspace_id))),
        r matches Ok(at) ==> selects(
            workspaces@,
            selected_id(str_view(workspace_id)),
            at as int,
        ),
{
    let id = match canonical_workspace_id(workspace_id) {
        Ok(id) => id,
        Err(e) => {
            return Err(e);
        },
    };
    let built_in = same_text(id.as_str(), "ws_default");
    let mut i: usize = 0;
    while i < workspaces.len()
        invariant
            i <= workspaces@.len(),
            id@ == selected_id(str_view(workspace_id)),
            id_refusal(str_view(workspace_id)) is None,
            built_in == (id@ == "ws_default"@),
            forall|j: int| 0 <= j < i ==> !answers_to(#[trigger] workspaces@[j], id@),
        decreases workspaces.len() - i,
    {
        let name = workspaces[i].id.as_str();
        if same_text(name, id.as_str()) || (built_in && same_text(name, "default")) {
            assert(answers_to(workspaces@[i as int], id@));
            return Ok(i);
        }
        i += 1;
    }
    Err(
        IpcError::with_message(
            ErrorCode::InvalidParams,
            join("unknown workspace_id: ", id.as_str()),
        ),
    )
}

/// Alphabetical order by character.
pub open spec fn text_less(a: Seq<char>, b: Seq<char>) -> bool
    decreases a.len(),
{
    if b.len() == 0 {
        false
    } else if a.len() == 0 {
        true
    } else if a[0] != b[0] {
        a[0] < b[0]
    } else {
        text_less(a.skip(1), b.skip(1))
    }
}

/// Alphabetical order is transitive.
pub proof fn lemma_text_less_transitive(a: Seq<char>, b: Seq<char>, c: Seq<char>)
    requires
        text_less(a, b),
        text_less(b, c),
    ensures
        text_less(a, c),
    decreases a.len(),
{
    if a.len() > 0 && a[0] == b[0] && b[0] == c[0] {
        lemma_text_less_transitive(a.skip(1), b.skip(1), c.skip(1));
    }
}

/// Two texts are the same or one comes first; none comes before itself.
pub proof fn lemma_text_less_total(a: Seq<char>, b: Seq<char>)
    ensures
        a == b || text_less(a, b) || text_less(b, a),
        a == b ==> !text_less(a, b),
    decreases a.len(),
{
    if a.len() > 0 && b.len() > 0 && a[0] == b[0] {
        lemma_text_less_total(a.skip(1), b.skip(1));
        if a.skip(1) == b.skip(1) {
            assert(a =~= seq![a[0]] + a.skip(1));
            assert(b =~= seq![b[0]] + b.skip(1));
        }
    } else if a.len() == 0 && b.len() == 0 {
        assert(a =~= b);
    }
}

/// Whether a text comes before another.
pub(crate) fn comes_before(a: &str, b: &str) -> (r: bool)
    ensures
        r == text_less(a@, b@),
{
    let x = chars_of(a);
    let y = chars_of(b);
    let mut i: usize = 0;
    assert(a@.skip(0) =~= a@);
    assert(b@.skip(0) =~= b@);
    while i < x.len() && i < y.len() && x[i] == y[i]
        invariant
            i <= x@.len(),
            i <= y@.len(),
            x@ == a@,
            y@ == b@,
            text_less(a@, b@) == text_less(a@.skip(i as int), b@.skip(i as int)),
        decreases x.len() - i,
    {
        assert(a@.skip(i as int)[0] == x@[i as int]);
        assert(b@.skip(i as int)[0] == y@[i as int]);
        assert(a@.skip(i as int).skip(1) =~= a@.skip(i + 1));
        assert(b@.skip(i as int).skip(1) =~= b@.skip(i + 1));
        i += 1;
    }
    if i == y.len() {
        return false;
    }
    assert(b@.skip(i as int)[0] == y@[i as int]);
    if i == x.len() {
        return true;
    }
    assert(a@.skip(i as int)[0] == x@[i as int]);
    x[i] < y[i]
}

/// The id that is told: the built-in workspace under its present name.
pub open spec fn told_id(entry: WorkspaceEntry) -> Seq<char> {
    if entry.id@ == "default"@ {
        "ws_default"@
    } else {
        entry.id@
    }
}

/// The registration is that of the first entry which tells this id.
pub open spec fn registers(
    registration: RemoteWorkspaceRegistration,
    workspaces: Seq<WorkspaceEntry>,
    k: int,
) -> bool {
    &&& 0 <= k < workspaces.len()
    &&& registration.id@ == told_id(workspaces[k])
    &&& registration.generation == workspaces[k].generation
    &&& forall|j: int| 0 <= j < k ==> told_id(#[trigger] workspaces[j]) != told_id(workspaces[k])
}

/// In strict alphabetical order of their ids.
pub open spec fn sorted_by_id(registrations: Seq<RemoteWorkspaceRegistration>) -> bool {
    forall|i: int, j: int|
        0 <= i < j < registrations.len() ==> text_less(
            (#[trigger] registrations[i]).id@,
            (#[trigger] registrations[j]).id@,
        )
}

/// The registration is that of some entry.
pub open spec fn has_source(
    registration: RemoteWorkspaceRegistration,
    workspaces: Seq<WorkspaceEntry>,
) -> bool {
    exists|k: int| registers(registration, workspaces, k)
}

/// Some registration tells the id.
pub open spec fn tells(registrations: Seq<RemoteWorkspaceRegistration>, id: Seq<char>) -> bool {
    exists|i: int| 0 <= i < registrations.len() && (#[trigger] registrations[i]).id@ == id
}

/// The registrations tell exactly the ids of the entries.
pub open spec fn is_registry_of(
    registrations: Seq<RemoteWorkspaceRegistration>,
    workspaces: Seq<WorkspaceEntry>,
) -> bool {
    &&& sorted_by_id(registrations)
    &&& forall|i: int|
        0 <= i < registrations.len() ==> has_source(#[trigger] registrations[i], workspaces)
    &&& forall|k: int|
        0 <= k < workspaces.len() ==> tells(registrations, told_id(#[trigger] workspaces[k]))
}

/// The registry as the control plane is told it: ids and generations, sorted,
/// each id once.
pub fn remote_workspace_registry(workspaces: &Vec<WorkspaceEntry>) -> (out: Vec<
    RemoteWorkspaceRegistration,
>)
    ensures
        is_registry_of(out@, workspaces@),
{
    let mut out: Vec<RemoteWorkspaceRegistration> = Vec::new();
    let mut k: usize = 0;
    assert(workspaces@.take(0) =~= Seq::empty());
    while k < workspaces.len()
        invariant
            k <= workspaces@.len(),
            is_registry_of(out@, workspaces@.take(k as int)),
        decreases workspaces.len() - k,
    {
        let entry = &workspaces[k];
        let id = if same_text(entry.id.as_str(), "default") {
            "ws_default".to_owned()
        } else {
            entry.id.clone()
        };
        let ghost seen = workspaces@.take(k as int);
        let ghost next = workspaces@.take(k + 1);
        assert(next.drop_last() =~= seen);
        let ghost before = out@;
        let mut at: usize = 0;
        while at < out.len() && comes_before(out[at].id.as_str(), id.as_str())
            invariant
                at <= out@.len(),
                out@ == before,
                forall|j: int| 0 <= j < at ==> text_less((#[trigger] out@[j]).id@, id@),
            decreases out.len() - at,
        {
            at += 1;
        }
        if at < out.len() && same_text(out[at].id.as_str(), id.as_str()) {
            proof {
                lemma_known_id(before, seen, next, at as int);
            }
        } else {
            let registration = RemoteWorkspaceRegistration {
                id,
                generation: entry.generation.clone(),
            };
            let ghost added = registration;
            out.insert(at, registration);
            proof {
                lemma_new_id(before, seen, next, at as int, added);
            }
        }
        k += 1;
    }
    assert(workspaces@.take(k as int) =~= workspaces@);
    out
}

/// An entry whose id is told already changes nothing.
proof fn lemma_known_id(
    out: Seq<RemoteWorkspaceRegistration>,
    seen: Seq<WorkspaceEntry>,
    next: Seq<WorkspaceEntry>,
    at: int,
)
    requires
        is_registry_of(out, seen),
        next.len() == seen.len() + 1,
        next.drop_last() == seen,
        0 <= at < out.len(),
        out[at].id@ == told_id(next.last()),
    ensures
        is_registry_of(out, next),
{
    assert forall|i: int| 0 <= i < out.len() implies has_source(#[trigger] out[i], next) by {
        assert(has_source(out[i], seen));
        let k = choose|k: int| registers(out[i], seen, k);
        assert forall|j: int| 0 <= j < k implies told_id(#[trigger] next[j]) != told_id(next[k]) by {
            assert(seen[j] == next[j]);
        }
        assert(seen[k] == next[k]);
        assert(registers(out[i], next, k));
    }
    assert forall|k: int| 0 <= k < next.len() implies tells(out, told_id(#[trigger] next[k])) by {
        if k < seen.len() {
            assert(seen[k] == next[k]);
            assert(tells(out, told_id(seen[k])));
        } else {
            assert(out[at].id@ == told_id(next[k]));
        }
    }
}

/// A new id goes where the order puts it.
proof fn lemma_new_id(
    out: Seq<RemoteWorkspaceRegistration>,
    seen: Seq<WorkspaceEntry>,
    next: Seq<WorkspaceEntry>,
    at: int,
    added: RemoteWorkspaceRegistration,
)
    requires
        is_registry_of(out, seen),
        next.len() == seen.len() + 1,
        next.drop_last() == seen,
        0 <= at <= out.len(),
        added.id@ == told_id(next.last()),
        added.generation == next.last().generation,
        forall|j: int| 0 <= j < at ==> text_less((#[trigger] out[j]).id@, added.id@),
        at < out.len() ==> !text_less(out[at].id@, added.id@) && out[at].id@ != added.id@,
    ensures
        is_registry_of(out.insert(at, added), next),
{
    let after = out.insert(at, added);
    if at < out.len() {
        lemma_text_less_total(out[at].id@, added.id@);
    }
    assert forall|j: int| at <= j < out.len() implies text_less(added.id@, (#[trigger] out[j]).id@) by {
        if j > at {
            assert(text_less(out[at].id@, out[j].id@));
            lemma_text_less_transitive(added.id@, out[at].id@, out[j].id@);
        }
    }
    assert forall|i: int, j: int| 0 <= i < j < after.len() implies text_less(
        (#[trigger] after[i]).id@,
        (#[trigger] after[j]).id@,
    ) by {
        if i < at && j < at {
            assert(after[i] == out[i] && after[j] == out[j]);
        } else if i < at && j == at {
            assert(after[i] == out[i]);
        } else if i < at {
            assert(after[i] == out[i] && after[j] == out[j - 1]);
        } else if i == at {
            assert(after[j] == out[j - 1]);
        } else {
            assert(after[i] == out[i - 1] && after[j] == out[j - 1]);
        }
    }
    let n = seen.len() as int;
    assert forall|j: int| 0 <= j < n implies told_id(#[trigger] next[j]) != told_id(next[n]) by {
        assert(seen[j] == next[j]);
        assert(tells(out, told_id(seen[j])));
        let i = choose|i: int| 0 <= i < out.len() && (#[trigger] out[i]).id@ == told_id(seen[j]);
        if out[i].id@ == added.id@ {
            lemma_text_less_total(out[i].id@, added.id@);
            if i < at {
                assert(text_less(out[i].id@, added.id@));
            } else {
                assert(text_less(added.id@, out[i].id@));
                lemma_text_less_total(added.id@, out[i].id@);
            }
        }
    }
    assert(registers(added, next, n));
    assert forall|i: int| 0 <= i < after.len() implies has_source(#[trigger] after[i], next) by {
        if i == at {
            assert(registers(after[i], next, n));
        } else {
            let p = if i < at { i } else { i - 1 };
            assert(after[i] == out[p]);
            assert(has_source(out[p], seen));
            let k = choose|k: int| registers(out[p], seen, k);
            assert forall|j: int| 0 <= j < k implies told_id(#[trigger] next[j]) != told_id(
                next[k],
            ) by {
                assert(seen[j] == next[j]);
            }
            assert(seen[k] == next[k]);
            assert(registers(after[i], next, k));
        }
    }
    assert forall|k: int| 0 <= k < next.len() implies tells(
        after,
        told_id(#[trigger] next[k]),
    ) by {
        if k < n {
            assert(seen[k] == next[k]);
            assert(tells(out, told_id(seen[k])));
            let p = choose|p: int|
                0 <= p < out.len() && (#[trigger] out[p]).id@ == told_id(seen[k]);
            let i = if p < at { p } else { p + 1 };
            assert(after[i] == out[p]);
            assert(after[i].id@ == told_id(next[k]));
        } else {
            assert(after[at].id@ == told_id(next[k]));
        }
    }
}

/// Why an entry may not be registered.
pub open spec fn entry_refusal(id: Seq<char>, absolute: bool) -> Refusal {
    if !is_workspace_id(trim(id)) {
        Some((ErrorCode::InvalidParams, "invalid workspace id (expected ws_...)"@))
    } else if !absolute {
        Some((ErrorCode::InvalidParams, "workspace root must be absolute"@))
    } else {
        None
    }
}

/// Holds an entry to what registration needs, and gives its id. `absolute` says
/// whether its root is an absolute path.
pub fn check_workspace_entry(id: &str, absolute: bool) -> (r: Result<String, IpcError>)
    ensures
        answers(r, entry_refusal(id@, absolute)),
        r matches Ok(name) ==> name@ == trim(id@),
{
    let name = trimmed(id);
    if !valid_workspace_id(name.as_str()) {
        return Err(
            IpcError::new(ErrorCode::InvalidParams, "invalid workspace id (expected ws_...)"),
        );
    }
    if !absolute {
        return Err(IpcError::new(ErrorCode::InvalidParams, "workspace root must be absolute"));
    }
    Ok(name)
}

/// The error of a root that is missing and cannot be made.
pub fn root_creation_error(detail: &str) -> (e: IpcError)
    ensures
        e.is(ErrorCode::Internal, "workspace root missing and create failed: "@ + detail@),
{
    IpcError::with_message(
        ErrorCode::Internal,
        join("workspace root missing and create failed: ", detail),
    )
}

/// Some entry has the id.
pub open spec fn has_id(workspaces: Seq<WorkspaceEntry>, id: Seq<char>) -> bool {
    exists|i: int| 0 <= i < workspaces.len() && (#[trigger] workspaces[i]).id@ == id
}

/// Why an entry is not registered.
pub open spec fn upsert_refusal(
    workspaces: Seq<WorkspaceEntry>,
    id: Seq<char>,
    absolute: bool,
) -> Refusal {
    match entry_refusal(id, absolute) {
        Some(refusal) => Some(refusal),
        None => if !has_id(workspaces, trim(id)) && workspaces.len() >= MAX_WORKSPACES {
            Some((ErrorCode::InvalidParams, "workspace registry full (max 64)"@))
        } else {
            None
        },
    }
}

/// `stored` takes the place of `before` (absent for a new id): the id trimmed,
/// root and label as given, and the generation of the same root kept; any other
/// root, and any new id, gets the fresh one.
pub open spec fn is_stored(
    stored: WorkspaceEntry,
    entry: WorkspaceEntry,
    before: Option<WorkspaceEntry>,
    fresh: String,
) -> bool {
    &&& stored.id@ == trim(entry.id@)
    &&& stored.root == entry.root
    &&& stored.label == entry.label
    &&& if before matches Some(b) && is_same_path(b.root@, entry.root@) {
        stored.generation == before->0.generation
    } else {
        stored.generation == fresh
    }
}

/// The entry at the position is the first with the id.
pub open spec fn is_first_with_id(
    workspaces: Seq<WorkspaceEntry>,
    id: Seq<char>,
    at: int,
) -> bool {
    &&& 0 <= at < workspaces.len()
    &&& workspaces[at].id@ == id
    &&& forall|j: int| 0 <= j < at ==> (#[trigger] workspaces[j]).id@ != id
}

/// The registry holds the entry as it was stored: in the place of the first entry
/// with its id, or at the end. `fresh` is the generation for another root.
pub open spec fn is_upserted_with(
    before: Seq<WorkspaceEntry>,
    after: Seq<WorkspaceEntry>,
    entry: WorkspaceEntry,
    stored: WorkspaceEntry,
    fresh: String,
) -> bool {
    if has_id(before, trim(entry.id@)) {
        exists|i: int|
            #![trigger before[i]]
            is_first_with_id(before, trim(entry.id@), i) && after == before.update(i, stored)
                && is_stored(stored, entry, Some(before[i]), fresh)
    } else {
        after == before.push(stored) && is_stored(stored, entry, None, fresh)
    }
}

/// The registry holds the entry as it was stored, with some generation for another
/// root that was drawn.
pub open spec fn is_upserted(
    before: Seq<WorkspaceEntry>,
    after: Seq<WorkspaceEntry>,
    entry: WorkspaceEntry,
    stored: WorkspaceEntry,
) -> bool {
    exists|fresh: String|
        is_generation(fresh@) && #[trigger] is_upserted_with(before, after, entry, stored, fresh)
}

/// Registers a workspace or updates the one with the same id. `fresh` becomes the
/// generation where the id is new or was bound to another root.
pub fn upsert_workspace_with(
    workspaces: &mut Vec<WorkspaceEntry>,
    entry: WorkspaceEntry,
    absolute: bool,
    fresh: String,
) -> (r: Result<WorkspaceEntry, IpcError>)
    ensures
        answers(r, upsert_refusal(old(workspaces)@, entry.id@, absolute)),
        match r {
            Err(_) => final(workspaces)@ == old(workspaces)@,
            Ok(stored) => is_upserted_with(
                old(workspaces)@,
                final(workspaces)@,
                entry,
                stored,
                fresh,
            ),
        },
{
    let name = match check_workspace_entry(entry.id.as_str(), absolute) {
        Ok(name) => name,
        Err(e) => {
            return Err(e);
        },
    };
    let n: usize = workspaces.len();
    let mut i: usize = 0;
    while i < n && !same_text(workspaces[i].id.as_str(), name.as_str())
        invariant
            i <= n,
            n == workspaces@.len(),
            workspaces@ == old(workspaces)@,
            forall|j: int| 0 <= j < i ==> (#[trigger] workspaces@[j]).id@ != name@,
        decreases n - i,
    {
        i += 1;
    }
    if i < n {
        let generation = if same_path(workspaces[i].root.as_str(), entry.root.as_str()) {
            workspaces[i].generation.clone()
        } else {
            fresh
        };
        let stored = WorkspaceEntry { id: name, root: entry.root, label: entry.label, generation };
        let copy = stored.copy();
        assert(is_first_with_id(old(workspaces)@, trim(entry.id@), i as int));
        assert(has_id(old(workspaces)@, trim(entry.id@)));
        workspaces.set(i, stored);
        Ok(copy)
    } else {
        if n >= MAX_WORKSPACES {
            return Err(
                IpcError::new(ErrorCode::InvalidParams, "workspace registry full (max 64)"),
            );
        }
        let stored = WorkspaceEntry {
            id: name,
            root: entry.root,
            label: entry.label,
            generation: fresh,
        };
        let copy = stored.copy();
        workspaces.push(stored);
        Ok(copy)
    }
}

/// Registers a workspace or updates the one with the same id; a generation is drawn
/// for an id that is new or was bound to another root.
/// Of the generation that is drawn only the form is known: that it differs from an
/// earlier one rests on chance.
pub fn upsert_workspace(
    workspaces: &mut Vec<WorkspaceEntry>,
    entry: WorkspaceEntry,
    absolute: bool,
) -> (r: Result<WorkspaceEntry, IpcError>)
    ensures
        answers(r, upsert_refusal(old(workspaces)@, entry.id@, absolute)),
        match r {
            Err(_) => final(workspaces)@ == old(workspaces)@,
            Ok(stored) => is_upserted(old(workspaces)@, final(workspaces)@, entry, stored),
        },
{
    upsert_workspace_with(workspaces, entry, absolute, new_workspace_generation())
}

/// The generation of an id changes exactly when the id is bound to another root,
/// where the fresh generation differs from the one before. All other entries stay.
pub proof fn law_generations_change_with_the_root(
    before: Seq<WorkspaceEntry>,
    after: Seq<WorkspaceEntry>,
    entry: WorkspaceEntry,
    stored: WorkspaceEntry,
    fresh: String,
    at: int,
)
    requires
        is_upserted_with(before, after, entry, stored, fresh),
        is_first_with_id(before, trim(entry.id@), at),
        fresh@ != before[at].generation@,
    ensures
        stored.generation@ != before[at].generation@ <==> !is_same_path(
            before[at].root@,
            entry.root@,
        ),
        after == before.update(at, stored),
{
    assert(has_id(before, trim(entry.id@)));
    let i = choose|i: int|
        #![trigger before[i]]
        is_first_with_id(before, trim(entry.id@), i) && after == before.update(i, stored)
            && is_stored(stored, entry, Some(before[i]), fresh);
    assert(i == at) by {
        if i < at {
            assert(before[i].id@ != trim(entry.id@));
        }
        if at < i {
            assert(before[at].id@ != trim(entry.id@));
        }
    }
}

/// An id that is registered anew after it was removed gets the fresh generation,
/// though its root be the one that it had, and the other entries stay.
pub proof fn law_readded_workspaces_get_the_fresh_generation(
    before: Seq<WorkspaceEntry>,
    after: Seq<WorkspaceEntry>,
    entry: WorkspaceEntry,
    stored: WorkspaceEntry,
    fresh: String,
    removed: WorkspaceEntry,
)
    requires
        is_upserted_with(before, after, entry, stored, fresh),
        removed.id@ == trim(entry.id@),
        !has_id(before, removed.id@),
        fresh@ != removed.generation@,
    ensures
        stored.generation == fresh,
        stored.generation@ != removed.generation@,
        after == before.push(stored),
{
}

/// The generation that a request names is ignored.
pub proof fn law_given_generations_are_ignored(
    before: Seq<WorkspaceEntry>,
    after: Seq<WorkspaceEntry>,
    other_after: Seq<WorkspaceEntry>,
    entry: WorkspaceEntry,
    other: WorkspaceEntry,
    stored: WorkspaceEntry,
    other_stored: WorkspaceEntry,
    fresh: String,
)
    requires
        is_upserted_with(before, after, entry, stored, fresh),
        is_upserted_with(before, other_after, other, other_stored, fresh),
        other == (WorkspaceEntry { generation: other.generation, ..entry }),
    ensures
        same_entry(stored, other_stored),
        after.len() == other_after.len(),
        forall|k: int|
            0 <= k < after.len() ==> same_entry(#[trigger] after[k], other_after[k]),
{
    let id = trim(entry.id@);
    if has_id(before, id) {
        let i = choose|i: int|
            #![trigger before[i]]
            is_first_with_id(before, id, i) && after == before.update(i, stored) && is_stored(
                stored,
                entry,
                Some(before[i]),
                fresh,
            );
        let j = choose|j: int|
            #![trigger before[j]]
            is_first_with_id(before, id, j) && other_after == before.update(j, other_stored)
                && is_stored(other_stored, other, Some(before[j]), fresh);
        assert(i == j) by {
            if i < j {
                assert(before[i].id@ != id);
            }
            if j < i {
                assert(before[j].id@ != id);
            }
        }
    }
}

/// A workspace that was registered is the one that its id selects from then on, in
/// a registry without the former name of the built-in workspace.
pub proof fn law_registered_workspaces_are_found(
    before: Seq<WorkspaceEntry>,
    after: Seq<WorkspaceEntry>,
    entry: WorkspaceEntry,
    stored: WorkspaceEntry,
    absolute: bool,
)
    requires
        upsert_refusal(before, entry.id@, absolute) is None,
        is_upserted(before, after, entry, stored),
        !has_id(before, "default"@),
    ensures
        lookup_refusal(after, Some(entry.id@)) is None,
        forall|at: int|
            #[trigger] selects(after, selected_id(Some(entry.id@)), at) ==> after[at] == stored,
{
    let id = trim(entry.id@);
    reveal_strlit("ws_");
    reveal_strlit("default");
    assert("default"@[0] == 'd');
    assert(id.subrange(0, 3)[0] == 'w');
    assert(selected_id(Some(entry.id@)) == id);
    let fresh = choose|fresh: String|
        is_generation(fresh@) && #[trigger] is_upserted_with(before, after, entry, stored, fresh);
    let place = if has_id(before, id) {
        choose|i: int|
            #![trigger before[i]]
            is_first_with_id(before, id, i) && after == before.update(i, stored) && is_stored(
                stored,
                entry,
                Some(before[i]),
                fresh,
            )
    } else {
        before.len() as int
    };
    assert(after[place] == stored);
    assert(answers_to(after[place], id));
    assert forall|j: int| 0 <= j < place implies !answers_to(#[trigger] after[j], id) by {
        assert(after[j] == before[j]);
        assert(before[j].id@ != "default"@);
        assert(before[j].id@ != id);
    }
}

/// Why a registry is not written.
pub open spec fn registry_size_refusal(len: int) -> Refusal {
    if len > MAX_WORKSPACE_FILE_BYTES {
        Some((ErrorCode::Internal, "workspaces.json exceeds 256 KiB budget"@))
    } else {
        None
    }
}

/// Holds the registry that is about to be written to its budget.
pub fn persist_workspaces(len: usize) -> (r: Result<(), IpcError>)
    ensures
        answers(r, registry_size_refusal(len as int)),
{
    if len as u64 > MAX_WORKSPACE_FILE_BYTES {
        return Err(
            IpcError::new(ErrorCode::Internal, "workspaces.json exceeds 256 KiB budget"),
        );
    }
    Ok(())
}

/// An id of a stored registry: a workspace id, or the former name of the
/// built-in one.
pub open spec fn is_registry_id(s: Seq<char>) -> bool {
    s.len() > 0 && utf8_len(s) <= 128 && (has_prefix(s, "ws_"@) || s == "default"@)
        && all_id_chars(s)
}

/// What is wrong with an entry of a stored registry.
pub enum EntryFault {
    BadId,
    RelativeRoot,
    DuplicateId,
    BadGeneration,
}

/// The first thing wrong with entry `k`.
pub open spec fn entry_fault(
    entries: Seq<WorkspaceEntry>,
    absolute: Seq<bool>,
    k: int,
) -> Option<EntryFault> {
    let id = trim(entries[k].id@);
    if !is_registry_id(id) {
        Some(EntryFault::BadId)
    } else if !absolute[k] {
        Some(EntryFault::RelativeRoot)
    } else if exists|j: int| 0 <= j < k && trim((#[trigger] entries[j]).id@) == id {
        Some(EntryFault::DuplicateId)
    } else if entries[k].generation@.len() > 0 && !is_generation(entries[k].generation@) {
        Some(EntryFault::BadGeneration)
    } else {
        None
    }
}

/// The report on a fault.
pub open spec fn fault_report(entry: WorkspaceEntry, fault: EntryFault) -> Seq<char> {
    let id = trim(entry.id@);
    match fault {
        EntryFault::BadId => "invalid workspace id in registry: "@ + debug_text(id),
        EntryFault::RelativeRoot => "workspace "@ + id + " root must be absolute: "@ + entry.root@,
        EntryFault::DuplicateId => "duplicate workspace id: "@ + id,
        EntryFault::BadGeneration => "invalid workspace generation in registry: "@ + id,
    }
}

/// The entry as the registry holds it: id trimmed and under its present name,
/// a missing generation filled in with the fresh one.
pub open spec fn is_loaded(
    loaded: WorkspaceEntry,
    entry: WorkspaceEntry,
    fresh: Seq<char>,
) -> bool {
    &&& loaded.id@ == (if trim(entry.id@) == "default"@ {
        "ws_default"@
    } else {
        trim(entry.id@)
    })
    &&& loaded.root == entry.root
    &&& loaded.label == entry.label
    &&& if entry.generation@.len() > 0 {
        loaded.generation == entry.generation
    } else {
        loaded.generation@ == fresh
    }
}

/// The built-in workspace.
pub open spec fn is_default_entry(
    entry: WorkspaceEntry,
    root: Seq<char>,
    generation: Seq<char>,
) -> bool {
    &&& entry.id@ == "ws_default"@
    &&& entry.root@ == root
    &&& entry.label matches Some(label) && label@ == "Default workspace"@
    &&& entry.generation@ == generation
}

/// The registry of a first start: the built-in workspace alone, with a generation
/// that is drawn.
pub fn default_workspace(root: &str) -> (entry: WorkspaceEntry)
    ensures
        is_default_entry(entry, root@, entry.generation@),
        is_generation(entry.generation@),
{
    default_workspace_with(root, new_workspace_generation())
}

/// The built-in workspace with a generation.
pub fn default_workspace_with(root: &str, fresh: String) -> (entry: WorkspaceEntry)
    ensures
        is_default_entry(entry, root@, fresh@),
{
    WorkspaceEntry {
        id: "ws_default".to_owned(),
        root: root.to_owned(),
        label: Some("Default workspace".to_owned()),
        generation: fresh,
    }
}

/// The stored entries have the built-in workspace.
pub open spec fn has_built_in(entries: Seq<WorkspaceEntry>) -> bool {
    exists|k: int| 0 <= k < entries.len() && is_built_in(#[trigger] entries[k])
}

/// The entry is the built-in workspace, under its present or its former name.
pub open spec fn is_built_in(entry: WorkspaceEntry) -> bool {
    trim(entry.id@) == "ws_default"@ || trim(entry.id@) == "default"@
}

/// Loading the entry changes what is stored.
pub open spec fn needs_upgrade(entry: WorkspaceEntry) -> bool {
    entry.generation@.len() == 0 || trim(entry.id@) == "default"@
}

/// A registry that can be loaded: not too long, and nothing wrong with any entry.
pub open spec fn is_sound_registry(entries: Seq<WorkspaceEntry>, absolute: Seq<bool>) -> bool {
    &&& entries.len() <= MAX_WORKSPACES
    &&& forall|k: int|
        0 <= k < entries.len() ==> (#[trigger] entry_fault(entries, absolute, k)) is None
}

/// The registry that stored entries lead to: the entries as they are loaded, behind
/// the built-in workspace where it was missing. The fresh generations are those of
/// the entries, in their order, and last that of the built-in workspace. The flag
/// says that this differs from what is stored in more than white space.
pub open spec fn is_taken_over_with(
    out: Seq<WorkspaceEntry>,
    upgraded: bool,
    entries: Seq<WorkspaceEntry>,
    default_root: Seq<char>,
    fresh: Seq<Seq<char>>,
) -> bool {
    let shift: int = if has_built_in(entries) { 0 } else { 1 };
    &&& out.len() == entries.len() + shift
    &&& shift == 1 ==> is_default_entry(out[0], default_root, fresh[entries.len() as int])
    &&& forall|k: int|
        0 <= k < entries.len() ==> is_loaded(out[k + shift], #[trigger] entries[k], fresh[k])
    &&& upgraded == (shift == 1 || exists|k: int|
        0 <= k < entries.len() && needs_upgrade(#[trigger] entries[k]))
}

/// There is a generation for each of so many entries and for the built-in one.
pub open spec fn are_generations(fresh: Seq<Seq<char>>, entries: int) -> bool {
    &&& fresh.len() == entries + 1
    &&& forall|k: int| 0 <= k < fresh.len() ==> is_generation(#[trigger] fresh[k])
}

/// The registry that stored entries lead to, with some generations that were drawn.
pub open spec fn is_taken_over(
    out: Seq<WorkspaceEntry>,
    upgraded: bool,
    entries: Seq<WorkspaceEntry>,
    default_root: Seq<char>,
) -> bool {
    exists|fresh: Seq<Seq<char>>|
        are_generations(fresh, entries.len() as int) && #[trigger] is_taken_over_with(
            out,
            upgraded,
            entries,
            default_root,
            fresh,
        )
}

/// The report is on the first entry that something is wrong with.
pub open spec fn reports_first_fault(
    report: Seq<char>,
    entries: Seq<WorkspaceEntry>,
    absolute: Seq<bool>,
) -> bool {
    exists|k: int|
        0 <= k < entries.len() && (#[trigger] entry_fault(entries, absolute, k) matches Some(
            fault,
        ) && report == fault_report(entries[k], fault)) && forall|j: int|
            0 <= j < k ==> (#[trigger] entry_fault(entries, absolute, j)) is None
}

/// Both names of the built-in workspace are in use.
pub open spec fn has_both_names(entries: Seq<WorkspaceEntry>) -> bool {
    exists|j: int, k: int|
        0 <= j < entries.len() && 0 <= k < entries.len() && trim((#[trigger] entries[j]).id@)
            == "default"@ && trim((#[trigger] entries[k]).id@) == "ws_default"@
}

/// The same entry.
pub open spec fn same_entry(a: WorkspaceEntry, b: WorkspaceEntry) -> bool {
    a.id@ == b.id@ && a.root == b.root && a.label == b.label && a.generation == b.generation
}

/// Nothing is trimmed off the characters of an id, each of which takes one byte.
proof fn lemma_id_is_trimmed(s: Seq<char>)
    requires
        all_id_chars(s),
    ensures
        trim(s) == s,
        utf8_len(s) == s.len(),
    decreases s.len(),
{
    if s.len() > 0 {
        assert(is_id_char(s[0]));
        assert(is_id_char(s[s.len() - 1]));
        lemma_utf8_len_first(s);
        assert forall|i: int| 0 <= i < s.skip(1).len() implies is_id_char(
            #[trigger] s.skip(1)[i],
        ) by {
            assert(is_id_char(s[i + 1]));
        }
        lemma_id_is_trimmed(s.skip(1));
    }
}

/// The built-in id is one of a registry, and differs from its former name.
proof fn lemma_built_in_id()
    ensures
        is_registry_id("ws_default"@),
        trim("ws_default"@) == "ws_default"@,
        "ws_default"@ != "default"@,
{
    reveal_strlit("ws_default");
    reveal_strlit("default");
    reveal_strlit("ws_");
    assert("ws_default"@.subrange(0, 3) =~= "ws_"@);
    lemma_id_is_trimmed("ws_default"@);
}

/// A registry that was taken over is sound and is loaded again as it is, with
/// nothing to write, wherever it is not over the limit and its entries did not use
/// both names of the built-in workspace.
pub proof fn law_registries_are_taken_over_once(
    entries: Seq<WorkspaceEntry>,
    absolute: Seq<bool>,
    default_root: Seq<char>,
    out: Seq<WorkspaceEntry>,
    upgraded: bool,
    out_absolute: Seq<bool>,
    again: Seq<WorkspaceEntry>,
    upgraded_again: bool,
)
    requires
        is_sound_registry(entries, absolute),
        is_taken_over(out, upgraded, entries, default_root),
        !has_both_names(entries),
        out.len() <= MAX_WORKSPACES,
        out_absolute.len() == out.len(),
        forall|k: int| 0 <= k < out.len() ==> #[trigger] out_absolute[k],
    ensures
        is_sound_registry(out, out_absolute),
        is_taken_over(again, upgraded_again, out, default_root) ==> !upgraded_again && again.len()
            == out.len() && forall|k: int|
            0 <= k < out.len() ==> same_entry(#[trigger] again[k], out[k]),
{
    let shift: int = if has_built_in(entries) { 0 } else { 1 };
    let fresh = choose|fresh: Seq<Seq<char>>|
        are_generations(fresh, entries.len() as int) && #[trigger] is_taken_over_with(
            out,
            upgraded,
            entries,
            default_root,
            fresh,
        );
    lemma_built_in_id();
    assert forall|k: int| 0 <= k < out.len() implies {
        &&& is_registry_id((#[trigger] out[k]).id@)
        &&& trim(out[k].id@) == out[k].id@
        &&& out[k].id@ != "default"@
        &&& is_generation(out[k].generation@)
    } by {
        if k >= shift {
            let e = entries[k - shift];
            assert(entry_fault(entries, absolute, k - shift) is None);
            assert(is_loaded(out[k], e, fresh[k - shift]));
            assert(is_generation(fresh[k - shift]));
            lemma_id_is_trimmed(trim(e.id@));
        } else {
            assert(is_generation(fresh[entries.len() as int]));
        }
    }
    assert forall|j: int, k: int| 0 <= j < k < out.len() implies (#[trigger] out[j]).id@ != (
    #[trigger] out[k]).id@ by {
        let e = entries[k - shift];
        assert(entry_fault(entries, absolute, k - shift) is None);
        assert(is_loaded(out[k], e, fresh[k - shift]));
        if j >= shift {
            let d = entries[j - shift];
            assert(is_loaded(out[j], d, fresh[j - shift]));
            assert(trim(d.id@) != trim(e.id@));
        } else {
            assert(!is_built_in(e));
        }
    }
    assert forall|k: int| 0 <= k < out.len() implies (#[trigger] entry_fault(out, out_absolute, k))
        is None by {
        assert(out_absolute[k]);
        assert(is_registry_id(out[k].id@));
    }
    assert(has_built_in(out)) by {
        if shift == 1 {
            assert(is_built_in(out[0]));
        } else {
            let k = choose|k: int| 0 <= k < entries.len() && is_built_in(#[trigger] entries[k]);
            assert(is_loaded(out[k], entries[k], fresh[k]));
            assert(is_built_in(out[k]));
        }
    }
    if is_taken_over(again, upgraded_again, out, default_root) {
        let fresh_again = choose|fresh_again: Seq<Seq<char>>|
            are_generations(fresh_again, out.len() as int) && #[trigger] is_taken_over_with(
                again,
                upgraded_again,
                out,
                default_root,
                fresh_again,
            );
        assert forall|k: int| 0 <= k < out.len() implies same_entry(#[trigger] again[k], out[k]) by {
            assert(is_loaded(again[k + 0], out[k], fresh_again[k]));
        }
    }
}

/// The text that the `Debug` formatting of `str` gives: in quotes, with its
/// escapes.
pub uninterp spec fn debug_text(s: Seq<char>) -> Seq<char>;

/// `format!` with the `Debug` formatting of `str`: the result depends on the text
/// alone. Nothing is said of which characters are escaped.
#[verifier::external_body]
fn quoted(s: &str) -> (r: String)
    ensures
        r@ == debug_text(s@),
{
    format!("{s:?}")
}

/// A registry file is within its budget.
pub open spec fn fits_registry_file(len: int) -> bool {
    len <= MAX_WORKSPACE_FILE_BYTES
}

/// Refuses a registry file that is over its budget.
pub fn check_workspace_file_size(len: u64) -> (r: Result<(), String>)
    ensures
        match r {
            Ok(()) => fits_registry_file(len as int),
            Err(e) => !fits_registry_file(len as int) && e@
                == "workspaces.json exceeds 262144 byte budget ("@ + decimal(len as int) + ")"@,
        },
{
    if len <= MAX_WORKSPACE_FILE_BYTES {
        return Ok(());
    }
    let count = unsigned_decimal(len);
    Err(join3("workspaces.json exceeds 262144 byte budget (", count.as_str(), ")"))
}

/// Refuses a registry that is over its budget once it is brought up to date.
pub fn check_upgraded_workspace_file(len: usize) -> (r: Result<(), String>)
    ensures
        match r {
            Ok(()) => fits_registry_file(len as int),
            Err(e) => !fits_registry_file(len as int) && e@
                == "upgraded workspaces.json exceeds 262144 byte budget ("@ + decimal(len as int)
                + ")"@,
        },
{
    if len as u64 <= MAX_WORKSPACE_FILE_BYTES {
        return Ok(());
    }
    let count = unsigned_decimal(len as u64);
    Err(join3("upgraded workspaces.json exceeds 262144 byte budget (", count.as_str(), ")"))
}

/// Checks one entry of a stored registry.
fn load_entry(
    entries: &Vec<WorkspaceEntry>,
    absolute: &Vec<bool>,
    k: usize,
    fresh: &str,
) -> (r: Result<WorkspaceEntry, String>)
    requires
        k < entries@.len(),
        absolute@.len() == entries@.len(),
    ensures
        match entry_fault(entries@, absolute@, k as int) {
            Some(fault) => r matches Err(e) && e@ == fault_report(entries@[k as int], fault),
            None => r matches Ok(loaded) && is_loaded(loaded, entries@[k as int], fresh@),
        },
{
    let entry = &entries[k];
    let id = trimmed(entry.id.as_str());
    let former = same_text(id.as_str(), "default");
    if id.as_str().is_empty() || byte_len(id.as_str()) > 128 || !(starts_with(id.as_str(), "ws_")
        || former) || !id_chars_only(id.as_str()) {
        let q = quoted(id.as_str());
        return Err(join("invalid workspace id in registry: ", q.as_str()));
    }
    if !absolute[k] {
        let mut text = join3("workspace ", id.as_str(), " root must be absolute: ");
        text.append(entry.root.as_str());
        return Err(text);
    }
    let mut j: usize = 0;
    while j < k
        invariant
            j <= k,
            k < entries@.len(),
            id@ == trim(entries@[k as int].id@),
            is_registry_id(id@),
            absolute@[k as int],
            forall|i: int| 0 <= i < j ==> trim((#[trigger] entries@[i]).id@) != id@,
        decreases k - j,
    {
        let other = trimmed(entries[j].id.as_str());
        if same_text(other.as_str(), id.as_str()) {
            assert(trim(entries@[j as int].id@) == id@);
            return Err(join("duplicate workspace id: ", id.as_str()));
        }
        j += 1;
    }
    let generation = if entry.generation.as_str().is_empty() {
        fresh.to_owned()
    } else {
        if !valid_workspace_generation(entry.generation.as_str()) {
            return Err(join("invalid workspace generation in registry: ", id.as_str()));
        }
        entry.generation.clone()
    };
    let name = if former {
        "ws_default".to_owned()
    } else {
        id
    };
    Ok(
        WorkspaceEntry {
            id: name,
            root: entry.root.clone(),
            label: copy_text(&entry.label),
            generation,
        },
    )
}

/// Why a registry is not taken over, whatever its entries.
pub open spec fn registry_refusal(schema_version: int, entries: int) -> Option<Seq<char>> {
    if schema_version != 1 {
        Some("unsupported workspaces.json schema_version "@ + decimal(schema_version))
    } else if entries > MAX_WORKSPACES {
        Some("workspaces.json has "@ + decimal(entries) + " entries (max 64)"@)
    } else {
        None
    }
}

/// Takes a stored registry over: every entry checked, the built-in workspace
/// added in front if it is missing. The flag says whether what is stored has to
/// be written again. `absolute` says of each root whether it is absolute; `fresh`
/// has the generations of the entries, in their order, and last that of the
/// built-in workspace, for those that have none.
pub fn load_or_init_workspaces_with(
    schema_version: u32,
    entries: &Vec<WorkspaceEntry>,
    absolute: &Vec<bool>,
    default_root: &str,
    fresh: &Vec<String>,
) -> (r: Result<(Vec<WorkspaceEntry>, bool), String>)
    requires
        absolute@.len() == entries@.len(),
        fresh@.len() == entries@.len() + 1,
    ensures
        match registry_refusal(schema_version as int, entries@.len() as int) {
            Some(text) => r matches Err(e) && e@ == text,
            None => match r {
                Err(e) => reports_first_fault(e@, entries@, absolute@),
                Ok((out, upgraded)) => is_sound_registry(entries@, absolute@)
                    && is_taken_over_with(
                    out@,
                    upgraded,
                    entries@,
                    default_root@,
                    texts(fresh@),
                ),
            },
        },
{
    if schema_version != 1 {
        let version = unsigned_decimal(schema_version as u64);
        return Err(join("unsupported workspaces.json schema_version ", version.as_str()));
    }
    let n: usize = entries.len();
    if n > MAX_WORKSPACES {
        let count = unsigned_decimal(n as u64);
        return Err(join3("workspaces.json has ", count.as_str(), " entries (max 64)"));
    }
    let mut out: Vec<WorkspaceEntry> = Vec::new();
    let mut upgraded = false;
    let mut built_in = false;
    let mut k: usize = 0;
    while k < n
        invariant
            k <= n,
            n == entries@.len(),
            absolute@.len() == n,
            schema_version == 1,
            n <= MAX_WORKSPACES,
            out@.len() == k,
            fresh@.len() == n + 1,
            forall|j: int|
                0 <= j < k ==> (#[trigger] entry_fault(entries@, absolute@, j)) is None,
            forall|j: int|
                0 <= j < k ==> is_loaded(#[trigger] out@[j], entries@[j], fresh@[j]@),
            upgraded == exists|j: int| 0 <= j < k && needs_upgrade(#[trigger] entries@[j]),
            built_in == exists|j: int| 0 <= j < k && is_built_in(#[trigger] entries@[j]),
        decreases n - k,
    {
        match load_entry(entries, absolute, k, fresh[k].as_str()) {
            Ok(loaded) => {
                let id = trimmed(entries[k].id.as_str());
                let former = same_text(id.as_str(), "default");
                let present = same_text(id.as_str(), "ws_default");
                let upgrade = entries[k].generation.as_str().is_empty() || former;
                let ghost before_upgraded = upgraded;
                let ghost before_built_in = built_in;
                upgraded = upgraded || upgrade;
                built_in = built_in || former || present;
                out.push(loaded);
                proof {
                    assert(entry_fault(entries@, absolute@, k as int) is None);
                    assert(upgrade == needs_upgrade(entries@[k as int]));
                    assert((former || present) == is_built_in(entries@[k as int]));
                    if before_upgraded {
                        let j = choose|j: int|
                            0 <= j < k && needs_upgrade(#[trigger] entries@[j]);
                        assert(0 <= j < k + 1 && needs_upgrade(entries@[j]));
                    }
                    if before_built_in {
                        let j = choose|j: int| 0 <= j < k && is_built_in(#[trigger] entries@[j]);
                        assert(0 <= j < k + 1 && is_built_in(entries@[j]));
                    }
                }
            },
            Err(e) => {
                assert(entry_fault(entries@, absolute@, k as int) is Some);
                return Err(e);
            },
        }
        k += 1;
    }
    let ghost mapped = out@;
    if !built_in {
        out.insert(0, default_workspace_with(default_root, fresh[n].clone()));
        upgraded = true;
    }
    proof {
        let shift: int = if has_built_in(entries@) { 0 } else { 1 };
        assert(built_in == has_built_in(entries@));
        assert forall|k: int| 0 <= k < entries@.len() implies is_loaded(
            out@[k + shift],
            #[trigger] entries@[k],
            texts(fresh@)[k],
        ) by {
            assert(is_loaded(mapped[k], entries@[k], fresh@[k]@));
        }
    }
    Ok((out, upgraded))
}

/// Takes a stored registry over, with generations that are drawn for the entries
/// that have none. `absolute` says of each root whether it is absolute.
pub fn load_or_init_workspaces(
    schema_version: u32,
    entries: &Vec<WorkspaceEntry>,
    absolute: &Vec<bool>,
    default_root: &str,
) -> (r: Result<(Vec<WorkspaceEntry>, bool), String>)
    requires
        absolute@.len() == entries@.len(),
    ensures
        match registry_refusal(schema_version as int, entries@.len() as int) {
            Some(text) => r matches Err(e) && e@ == text,
            None => match r {
                Err(e) => reports_first_fault(e@, entries@, absolute@),
                Ok((out, upgraded)) => is_sound_registry(entries@, absolute@) && is_taken_over(
                    out@,
                    upgraded,
                    entries@,
                    default_root@,
                ),
            },
        },
{
    let mut fresh: Vec<String> = Vec::new();
    while fresh.len() < entries.len()
        invariant
            fresh@.len() <= entries@.len(),
            forall|k: int| 0 <= k < fresh@.len() ==> is_generation(#[trigger] fresh@[k]@),
        decreases entries.len() - fresh.len(),
    {
        fresh.push(new_workspace_generation());
    }
    fresh.push(new_workspace_generation());
    assert(are_generations(texts(fresh@), entries@.len() as int));
    load_or_init_workspaces_with(schema_version, entries, absolute, default_root, &fresh)
}

/// The identifier of a workspace begins with its mark and is made of letters, digits,
/// underscores and hyphens, in at most 128 characters.
pub proof fn law_workspace_ids_are_plain(s: Seq<char>)
    requires
        is_workspace_id(s),
    ensures
        s.len() >= 3 && s[0] == 'w' && s[1] == 's' && s[2] == '_',
        utf8_len(s) <= 128,
        forall|i: int|
            0 <= i < s.len() ==> ('a' <= (#[trigger] s[i]) <= 'z' || 'A' <= s[i] <= 'Z' || '0'
                <= s[i] <= '9' || s[i] == '_' || s[i] == '-'),
{
    reveal_strlit("ws_");
    assert(s.subrange(0, 3)[0] == "ws_"@[0]);
    assert(s.subrange(0, 3)[1] == "ws_"@[1]);
    assert(s.subrange(0, 3)[2] == "ws_"@[2]);
    assert forall|i: int| 0 <= i < s.len() implies ('a' <= (#[trigger] s[i]) <= 'z' || 'A' <= s[i]
        <= 'Z' || '0' <= s[i] <= '9' || s[i] == '_' || s[i] == '-') by {
        assert(is_id_char(s[i]));
    }
}

/// A workspace that is named is the one named, without white space around; an empty name
/// and the short one mean the default workspace, and so does none.
pub proof fn law_names_select_a_workspace(name: Seq<char>)
    ensures
        selected_id(None) == "ws_default"@,
        trim(name).len() == 0 ==> selected_id(Some(name)) == "ws_default"@,
        trim(name) == "default"@ ==> selected_id(Some(name)) == "ws_default"@,
        trim(name).len() > 0 && trim(name) != "default"@ ==> selected_id(Some(name)) == trim(name),
        id_refusal(Some(name)) is None <==> is_workspace_id(selected_id(Some(name))),
        id_refusal(Some(name)) matches Some((code, _)) ==> code == ErrorCode::InvalidParams,
{
}

/// A path without a workspace is refused under confinement where it is absolute, and
/// where it is relative unless there is exactly one workspace, which it then belongs to.
pub proof fn law_paths_belong_to_a_workspace(
    workspaces: Seq<WorkspaceEntry>,
    enforce_workspace: bool,
    workspace_id: Option<Seq<char>>,
    absolute: bool,
)
    ensures
        workspace_id matches Some(name) ==> (trim(name).len() > 0 ==> path_refusal(
            workspaces,
            enforce_workspace,
            workspace_id,
            absolute,
        ) == id_refusal(workspace_id) && selected_for_path(workspaces, workspace_id, absolute)
            == Some(selected_id(workspace_id))),
        (workspace_id matches Some(name) ==> trim(name).len() == 0) && absolute ==> {
            &&& path_refusal(workspaces, enforce_workspace, workspace_id, absolute) is Some
                <==> enforce_workspace
            &&& (path_refusal(workspaces, enforce_workspace, workspace_id, absolute) matches Some(
                (code, _),
            ) ==> code == ErrorCode::PolicyDenied)
            &&& selected_for_path(workspaces, workspace_id, absolute) is None
        },
        (workspace_id matches Some(name) ==> trim(name).len() == 0) && !absolute ==> {
            &&& (workspaces.len() != 1 ==> (path_refusal(
                workspaces,
                enforce_workspace,
                workspace_id,
                absolute,
            ) matches Some((code, _)) && code == ErrorCode::InvalidParams))
            &&& (workspaces.len() == 1 ==> selected_for_path(workspaces, workspace_id, absolute)
                == Some(selected_id(Some(workspaces[0].id@))))
        },
{
}

/// A workspace is found by its identifier, the default one also under its short name,
/// and the first that answers is the one; an identifier that none answers to is invalid.
pub proof fn law_workspaces_are_found_by_id(
    workspaces: Seq<WorkspaceEntry>,
    workspace_id: Option<Seq<char>>,
    at: int,
)
    ensures
        selects(workspaces, selected_id(workspace_id), at) ==> {
            &&& 0 <= at < workspaces.len()
            &&& workspaces[at].id@ == selected_id(workspace_id) || (workspaces[at].id@ == "default"@
                && selected_id(workspace_id) == "ws_default"@)
            &&& forall|j: int|
                0 <= j < at ==> (#[trigger] workspaces[j]).id@ != selected_id(workspace_id)
        },
        lookup_refusal(workspaces, workspace_id) matches Some((code, _)) ==> code
            == ErrorCode::InvalidParams,
        lookup_refusal(workspaces, workspace_id) is None ==> is_workspace_id(
            selected_id(workspace_id),
        ) && exists|i: int|
            0 <= i < workspaces.len() && ((#[trigger] workspaces[i]).id@ == selected_id(
                workspace_id,
            ) || workspaces[i].id@ == "default"@),
        0 <= at < workspaces.len() && workspaces[at].id@ == selected_id(workspace_id)
            && is_workspace_id(workspaces[at].id@) ==> lookup_refusal(workspaces, workspace_id) is None,
{
}

/// A workspace is registered under a sound identifier and an absolute root, and a new
/// one only while there are fewer than 64.
pub proof fn law_registrations_are_admitted(
    workspaces: Seq<WorkspaceEntry>,
    id: Seq<char>,
    absolute: bool,
)
    ensures
        upsert_refusal(workspaces, id, absolute) is None <==> {
            &&& is_workspace_id(trim(id))
            &&& absolute
            &&& (workspaces.len() < 64 || exists|i: int|
                0 <= i < workspaces.len() && (#[trigger] workspaces[i]).id@ == trim(id))
        },
        upsert_refusal(workspaces, id, absolute) matches Some((code, _)) ==> code
            == ErrorCode::InvalidParams,
{
}

/// Registering a workspace stores the root and the label that were given, under the
/// trimmed identifier, and changes no other workspace.
pub proof fn law_registrations_store_what_was_given(
    before: Seq<WorkspaceEntry>,
    after: Seq<WorkspaceEntry>,
    entry: WorkspaceEntry,
    stored: WorkspaceEntry,
    fresh: String,
)
    requires
        is_upserted_with(before, after, entry, stored, fresh),
    ensures
        stored.id@ == trim(entry.id@),
        stored.root == entry.root,
        stored.label == entry.label,
        after.contains(stored),
        before.len() <= after.len() <= before.len() + 1,
        forall|k: int|
            0 <= k < before.len() && (#[trigger] before[k]).id@ != trim(entry.id@) ==> after[k]
                == before[k],
        after.len() == before.len() + 1 <==> !has_id(before, trim(entry.id@)),
{
    if has_id(before, trim(entry.id@)) {
        let i = choose|i: int|
            #![trigger before[i]]
            is_first_with_id(before, trim(entry.id@), i) && after == before.update(i, stored)
                && is_stored(stored, entry, Some(before[i]), fresh);
        assert(after[i] == stored);
    } else {
        assert(after[before.len() as int] == stored);
    }
}

/// The registry that is told to the remote side names each workspace once, the default
/// one under its full name, with the generation of the first that carries the name.
pub proof fn law_told_registries_name_each_workspace_once(
    registrations: Seq<RemoteWorkspaceRegistration>,
    workspaces: Seq<WorkspaceEntry>,
)
    requires
        is_registry_of(registrations, workspaces),
    ensures
        forall|k: int|
            0 <= k < workspaces.len() && (#[trigger] workspaces[k]).id@ != "default"@ ==> tells(
                registrations,
                workspaces[k].id@,
            ),
        forall|k: int|
            0 <= k < workspaces.len() && (#[trigger] workspaces[k]).id@ == "default"@ ==> tells(
                registrations,
                "ws_default"@,
            ),
        forall|i: int|
            0 <= i < registrations.len() ==> exists|k: int|
                0 <= k < workspaces.len() && (#[trigger] workspaces[k]).generation == (
                #[trigger] registrations[i]).generation && (workspaces[k].id@
                    == registrations[i].id@ || (workspaces[k].id@ == "default"@
                    && registrations[i].id@ == "ws_default"@)),
        forall|i: int, j: int|
            0 <= i < j < registrations.len() ==> (#[trigger] registrations[i]).id@ != (
            #[trigger] registrations[j]).id@,
        registrations.len() > 0 ==> workspaces.len() > 0,
{
    assert forall|k: int|
        0 <= k < workspaces.len() && (#[trigger] workspaces[k]).id@ != "default"@ implies tells(
        registrations,
        workspaces[k].id@,
    ) by {
        assert(tells(registrations, told_id(workspaces[k])));
    }
    assert forall|k: int|
        0 <= k < workspaces.len() && (#[trigger] workspaces[k]).id@ == "default"@ implies tells(
        registrations,
        "ws_default"@,
    ) by {
        assert(tells(registrations, told_id(workspaces[k])));
    }
    assert forall|i: int| 0 <= i < registrations.len() implies exists|k: int|
        0 <= k < workspaces.len() && (#[trigger] workspaces[k]).generation == (
        #[trigger] registrations[i]).generation && (workspaces[k].id@ == registrations[i].id@ || (
        workspaces[k].id@ == "default"@ && registrations[i].id@ == "ws_default"@)) by {
        assert(has_source(registrations[i], workspaces));
        let k = choose|k: int| registers(registrations[i], workspaces, k);
        assert(registers(registrations[i], workspaces, k));
        assert(workspaces[k].generation == registrations[i].generation);
    }
    assert forall|i: int, j: int| 0 <= i < j < registrations.len() implies (
    #[trigger] registrations[i]).id@ != (#[trigger] registrations[j]).id@ by {
        assert(text_less(registrations[i].id@, registrations[j].id@));
        lemma_text_less_total(registrations[i].id@, registrations[j].id@);
    }
    if registrations.len() > 0 {
        assert(has_source(registrations[0], workspaces));
    }
}

/// The order of texts is that of their first characters that differ, and a text comes
/// before every longer one that it begins.
pub proof fn law_texts_are_ordered_by_character(common: Seq<char>, a: Seq<char>, b: Seq<char>)
    requires
        a.len() > 0 && b.len() > 0 ==> a[0] != b[0],
    ensures
        text_less(common + a, common + b) <==> b.len() > 0 && (a.len() == 0 || a[0] < b[0]),
    decreases common.len(),
{
    if common.len() == 0 {
        assert(common + a =~= a);
        assert(common + b =~= b);
    } else {
        let rest = common.skip(1);
        law_texts_are_ordered_by_character(rest, a, b);
        assert((common + a).skip(1) =~= rest + a);
        assert((common + b).skip(1) =~= rest + b);
    }
}

/// A registry is taken over with its roots and labels, and with the generations it has;
/// a missing generation is made up, and so is a missing default workspace, in front.
pub proof fn law_registries_keep_what_they_hold(
    out: Seq<WorkspaceEntry>,
    upgraded: bool,
    entries: Seq<WorkspaceEntry>,
    default_root: Seq<char>,
    fresh: Seq<Seq<char>>,
    k: int,
)
    requires
        is_taken_over_with(out, upgraded, entries, default_root, fresh),
        0 <= k < entries.len(),
    ensures
        ({
            let at: int = k + (out.len() - entries.len());
            &&& 0 <= at < out.len()
            &&& out[at].root == entries[k].root
            &&& out[at].label == entries[k].label
            &&& (entries[k].generation@.len() > 0 ==> out[at].generation == entries[k].generation)
            &&& (entries[k].generation@.len() == 0 ==> out[at].generation@ == fresh[k] && upgraded)
            &&& (trim(entries[k].id@) == "default"@ ==> out[at].id@ == "ws_default"@ && upgraded)
            &&& (trim(entries[k].id@) != "default"@ ==> out[at].id@ == trim(entries[k].id@))
        }),
        entries.len() <= out.len() <= entries.len() + 1,
        out.len() == entries.len() + 1 ==> out[0].id@ == "ws_default"@ && out[0].root@
            == default_root && out[0].generation@ == fresh[entries.len() as int] && upgraded,
        trim(entries[k].id@) == "default"@ || trim(entries[k].id@) == "ws_default"@ ==> out.len()
            == entries.len(),
{
    if trim(entries[k].id@) == "default"@ || trim(entries[k].id@) == "ws_default"@ {
        assert(is_built_in(entries[k]));
    }
    assert(is_loaded(out[k + (out.len() - entries.len())], entries[k], fresh[k]));
}

/// An entry of a registry is at fault exactly where its identifier is unsound or taken,
/// its root is relative, or its generation is malformed.
pub proof fn law_registry_entries_are_sound(
    entries: Seq<WorkspaceEntry>,
    absolute: Seq<bool>,
    k: int,
)
    requires
        0 <= k < entries.len(),
    ensures
        entry_fault(entries, absolute, k) is None <==> {
            &&& is_registry_id(trim(entries[k].id@))
            &&& absolute[k]
            &&& (forall|j: int|
                0 <= j < k ==> trim((#[trigger] entries[j]).id@) != trim(entries[k].id@))
            &&& (entries[k].generation@.len() == 0 || is_generation(entries[k].generation@))
        },
        is_registry_id(trim(entries[k].id@)) <==> trim(entries[k].id@) == "default"@
            || is_workspace_id(trim(entries[k].id@)),
        entries.len() > 64 ==> !is_sound_registry(entries, absolute),
{
    let id = trim(entries[k].id@);
    reveal_strlit("default");
    reveal_strlit("ws_");
    if id == "default"@ {
        assert(all_id_chars(id));
        lemma_ascii_len(id);
    }
}

/// A text of plain characters takes a byte for each.
proof fn lemma_ascii_len(s: Seq<char>)
    requires
        forall|i: int| 0 <= i < s.len() ==> (#[trigger] s[i]) <= '\u{7f}',
    ensures
        utf8_len(s) == s.len(),
    decreases s.len(),
{
    if s.len() > 0 {
        lemma_utf8_len_first(s);
        lemma_ascii_len(s.skip(1));
    }
}

/// A registry is read where it is of the one schema and holds at most 64 workspaces.
pub proof fn law_registries_are_of_one_schema(schema_version: int, entries: int)
    ensures
        registry_refusal(schema_version, entries) is None <==> schema_version == 1 && entries <= 64,
{
}

/// A registry is read and written within 262 144 bytes.
pub proof fn law_registry_files_are_bounded(len: int)
    ensures
        registry_size_refusal(len) is None <==> len <= 256 * 1024,
        fits_registry_file(len) <==> len <= 256 * 1024,
        registry_size_refusal(len) matches Some((code, _)) ==> code == ErrorCode::Internal,
{
}

} // verus!

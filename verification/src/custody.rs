//! Emergency lockdown, revoked principals and the policy's own account of itself.
use crate::admin::PolicyState;
use crate::approvals::{answers, OperationFacts, Refusal};
use crate::error::{ErrorCode, IpcError};
use crate::grants::StoredGrant;
use crate::json::{Json, JsonObject, JsonV};
use crate::params::{decision_name, decision_str, preset_name, preset_text, AccessPreset, Decision};
use crate::text::{copy_text, join3, lower_text, same_text, to_lower};
use crate::textset::TextSet;
use crate::workspace::{canonical_workspace_id, id_refusal, selected_id};
use vstd::prelude::*;
use vstd::string::*;

verus! {

/// What lockdown put out of force.
#[derive(Debug)]
pub struct LockdownUndo {
    pub lockdown: bool,
    pub grants: Vec<StoredGrant>,
}

/// Puts the device into lockdown: every grant is gone at once. The flag is to be
/// written first, then the grants.
pub fn handle_lockdown(lockdown: &mut bool, grants: &mut Vec<StoredGrant>) -> (undo: LockdownUndo)
    ensures
        *final(lockdown),
        final(grants)@.len() == 0,
        undo.lockdown == *old(lockdown),
        undo.grants@ == old(grants)@,
{
    let mut kept: Vec<StoredGrant> = Vec::new();
    std::mem::swap(&mut kept, grants);
    let previous = *lockdown;
    *lockdown = true;
    LockdownUndo { lockdown: previous, grants: kept }
}

/// How the writes of a lockdown went.
#[derive(Debug)]
pub enum LockdownOutcome {
    /// Flag and grants are written.
    Written,
    /// The flag could not be written.
    FlagFailed(IpcError),
    /// The flag was written, the grants could not be; whether the flag could then
    /// be restored.
    GrantsFailed { error: IpcError, restore_error: Option<IpcError> },
}

/// The answer to a lockdown.
pub open spec fn lockdown_body() -> JsonV {
    JsonV::Object(
        Map::<Seq<char>, JsonV>::empty().insert("lockdown"@, JsonV::Bool(true)).insert(
            "grants_cleared"@,
            JsonV::Bool(true),
        ),
    )
}

/// What lockdown comes to once its files were written or not.
pub open spec fn is_settled_lockdown(
    r: Result<Json, IpcError>,
    locked: bool,
    locked_after: bool,
    grants: Seq<StoredGrant>,
    grants_after: Seq<StoredGrant>,
    undo: LockdownUndo,
    outcome: LockdownOutcome,
) -> bool {
    match outcome {
        LockdownOutcome::Written => r matches Ok(body) && body@ == lockdown_body() && locked_after
            == locked && grants_after == grants,
        LockdownOutcome::FlagFailed(error) => r == Err::<Json, IpcError>(error) && locked_after
            == undo.lockdown && grants_after == undo.grants@,
        LockdownOutcome::GrantsFailed { error, restore_error } => {
            &&& locked_after == undo.lockdown
            &&& grants_after == undo.grants@
            &&& r matches Err(e) && match restore_error {
                Some(second) => e.is(
                    ErrorCode::Internal,
                    error.message@ + "; also failed to restore lockdown flag: "@ + second.message@,
                ),
                None => e == error,
            }
        },
    }
}

/// Concludes a lockdown. Where a write failed, the state before is in force again.
pub fn settle_lockdown(
    lockdown: &mut bool,
    grants: &mut Vec<StoredGrant>,
    undo: LockdownUndo,
    outcome: LockdownOutcome,
) -> (r: Result<Json, IpcError>)
    ensures
        is_settled_lockdown(
            r,
            *old(lockdown),
            *final(lockdown),
            old(grants)@,
            final(grants)@,
            undo,
            outcome,
        ),
{
    match outcome {
        LockdownOutcome::Written => {
            let mut object = JsonObject::new();
            object.put("lockdown", Json::Bool(true));
            object.put("grants_cleared", Json::Bool(true));
            Ok(Json::Object(object))
        },
        LockdownOutcome::FlagFailed(error) => {
            *lockdown = undo.lockdown;
            *grants = undo.grants;
            Err(error)
        },
        LockdownOutcome::GrantsFailed { error, restore_error } => {
            *lockdown = undo.lockdown;
            *grants = undo.grants;
            match restore_error {
                Some(second) => Err(
                    IpcError::with_message(
                        ErrorCode::Internal,
                        join3(
                            error.message.as_str(),
                            "; also failed to restore lockdown flag: ",
                            second.message.as_str(),
                        ),
                    ),
                ),
                None => Err(error),
            }
        },
    }
}

/// Lifts lockdown, or restores it where the flag could not be cleared. Returns
/// what was in force before.
pub fn handle_unlock(lockdown: &mut bool) -> (previous: bool)
    ensures
        !*final(lockdown),
        previous == *old(lockdown),
{
    let previous = *lockdown;
    *lockdown = false;
    previous
}

/// What lifting lockdown comes to once its flag was removed or not.
pub open spec fn is_settled_unlock(
    r: Result<Json, IpcError>,
    locked: bool,
    locked_after: bool,
    previous: bool,
    outcome: Result<(), IpcError>,
) -> bool {
    match outcome {
        Ok(_) => r matches Ok(body) && body@ == JsonV::Object(
            Map::<Seq<char>, JsonV>::empty().insert("lockdown"@, JsonV::Bool(false)),
        ) && locked_after == locked,
        Err(error) => r == Err::<Json, IpcError>(error) && locked_after == previous,
    }
}

/// Concludes the lifting of lockdown.
pub fn settle_unlock(lockdown: &mut bool, previous: bool, outcome: Result<(), IpcError>) -> (r:
    Result<Json, IpcError>)
    ensures
        is_settled_unlock(r, *old(lockdown), *final(lockdown), previous, outcome),
{
    match outcome {
        Ok(()) => {
            let mut object = JsonObject::new();
            object.put("lockdown", Json::Bool(false));
            Ok(Json::Object(object))
        },
        Err(error) => {
            *lockdown = previous;
            Err(error)
        },
    }
}

/// Why no principal is revoked. `principal` is canonical.
pub open spec fn revoke_refusal(principal: Seq<char>) -> Refusal {
    if principal.len() == 0 {
        Some(
            (
                ErrorCode::InvalidParams,
                "principal (server-assigned principal key) is required"@,
            ),
        )
    } else {
        None
    }
}

/// Revokes a principal; says whether it was in force until now. The list has to
/// be written.
pub fn handle_token_revoke(revoked: &mut TextSet, principal: &str) -> (r: Result<bool, IpcError>)
    ensures
        answers(r, revoke_refusal(principal@)),
        match r {
            Ok(inserted) => inserted == !old(revoked).has(principal@) && forall|s: Seq<char>|
                #[trigger]
                final(revoked).has(s) <==> old(revoked).has(s) || s == principal@,
            Err(_) => final(revoked).items() == old(revoked).items(),
        },
{
    if principal.is_empty() {
        return Err(
            IpcError::new(
                ErrorCode::InvalidParams,
                "principal (server-assigned principal key) is required",
            ),
        );
    }
    Ok(revoked.insert(principal.to_owned()))
}

/// The answer to a revocation.
pub open spec fn revoke_body(principal: Seq<char>) -> JsonV {
    JsonV::Object(
        Map::<Seq<char>, JsonV>::empty().insert("revoked"@, JsonV::Str(principal)).insert(
            "ok"@,
            JsonV::Bool(true),
        ),
    )
}

/// What a revocation comes to once its file was written or not.
pub open spec fn is_settled_revocation(
    r: Result<Json, IpcError>,
    before: TextSet,
    after: TextSet,
    principal: Seq<char>,
    inserted: bool,
    outcome: Result<(), IpcError>,
) -> bool {
    match outcome {
        Ok(_) => {
            &&& r matches Ok(body) && body@ == revoke_body(principal)
            &&& after.items() == before.items()
        },
        Err(error) => r == Err::<Json, IpcError>(error) && forall|s: Seq<char>| #[trigger]
            after.has(s) <==> before.has(s) && !(inserted && s == principal),
    }
}

/// Concludes a revocation. Where the list could not be written, a principal that
/// was in force before is so again.
pub fn settle_revoke(
    revoked: &mut TextSet,
    principal: &str,
    inserted: bool,
    outcome: Result<(), IpcError>,
) -> (r: Result<Json, IpcError>)
    ensures
        is_settled_revocation(r, *old(revoked), *final(revoked), principal@, inserted, outcome),
{
    match outcome {
        Ok(()) => {
            let mut object = JsonObject::new();
            object.put("revoked", Json::text(principal));
            object.put("ok", Json::Bool(true));
            Ok(Json::Object(object))
        },
        Err(error) => {
            if inserted {
                let _ = revoked.remove(principal);
            }
            Err(error)
        },
    }
}

/// A revocation whose list could not be written leaves everybody as before.
pub proof fn law_failed_revocation_changes_nobody(
    before: TextSet,
    between: TextSet,
    after: TextSet,
    principal: Seq<char>,
)
    requires
        forall|s: Seq<char>| #[trigger] between.has(s) <==> before.has(s) || s == principal,
        forall|s: Seq<char>| #[trigger]
            after.has(s) <==> between.has(s) && !(!before.has(principal) && s == principal),
    ensures
        forall|s: Seq<char>| #[trigger] after.has(s) <==> before.has(s),
{
    assert forall|s: Seq<char>| #[trigger] after.has(s) <==> before.has(s) by {
        assert(between.has(s) <==> before.has(s) || s == principal);
    }
}

/// Whether the policy keeps what its preset promises: full access has no hidden
/// restrictive rules. `hidden_rules` says whether there are any.
pub open spec fn keeps_promise(preset: AccessPreset, hidden_rules: bool) -> bool {
    preset != AccessPreset::FullAccess || !hidden_rules
}

/// The answer to a validation of the policy.
pub open spec fn validate_body(preset: AccessPreset, rule_count: int, hidden_rules: bool) -> JsonV {
    JsonV::Object(
        Map::<Seq<char>, JsonV>::empty().insert(
            "ok"@,
            JsonV::Bool(keeps_promise(preset, hidden_rules)),
        ).insert("preset"@, JsonV::Str(preset_text(preset))).insert(
            "rule_count"@,
            JsonV::Integer(rule_count),
        ).insert("full_access_no_hidden_deny"@, JsonV::Bool(keeps_promise(preset, hidden_rules))),
    )
}

/// Validates the policy.
pub fn handle_policy_validate(preset: AccessPreset, rule_count: usize, hidden_rules: bool) -> (body:
    Json)
    ensures
        body@ == validate_body(preset, rule_count as int, hidden_rules),
{
    let ok = !matches!(preset, AccessPreset::FullAccess) || !hidden_rules;
    let mut object = JsonObject::new();
    object.put("ok", Json::Bool(ok));
    object.put("preset", Json::text(preset_name(preset)));
    object.put("rule_count", Json::Integer(rule_count as i128));
    object.put("full_access_no_hidden_deny", Json::Bool(ok));
    Json::Object(object)
}

/// What the policy's account is taken from besides its state.
#[derive(Debug)]
pub struct PolicyAccount {
    pub note: Json,
    pub rules: Json,
    pub grants: Json,
    pub lockdown: bool,
    pub hidden_rules: bool,
}

/// The policy's account of itself.
pub open spec fn show_body(state: PolicyState, account: PolicyAccount) -> JsonV {
    let kept = JsonV::Bool(keeps_promise(state.preset, account.hidden_rules));
    JsonV::Object(
        Map::<Seq<char>, JsonV>::empty().insert(
            "preset"@,
            JsonV::Str(preset_text(state.preset)),
        ).insert("note"@, account.note@).insert("rules"@, account.rules@).insert(
            "lockdown"@,
            JsonV::Bool(account.lockdown),
        ).insert("delegate_remote_mcp"@, JsonV::Bool(state.delegate_remote_mcp)).insert(
            "grants"@,
            account.grants@,
        ).insert("full_access_conformance"@, kept).insert("full_access_no_hidden_deny"@, kept).insert(
            "workspace_root_enforcement"@,
            JsonV::Bool(state.enforce_workspace),
        ).insert("enforce_workspace"@, JsonV::Bool(state.enforce_workspace)).insert(
            "workspace_root_enforcement_note"@,
            JsonV::Str(
                "Independent of access_preset. When true, filesystem and command tools require a registered workspace. Full Access still allows an explicitly permitted absolute path only with workspace_id: null."@,
            ),
        ),
    )
}

/// Gives the policy's account of itself.
pub fn handle_policy_show(state: &PolicyState, account: PolicyAccount) -> (body: Json)
    ensures
        body@ == show_body(*state, account),
{
    let kept = !matches!(state.preset, AccessPreset::FullAccess) || !account.hidden_rules;
    let mut object = JsonObject::new();
    object.put("preset", Json::text(preset_name(state.preset)));
    object.put("note", account.note);
    object.put("rules", account.rules);
    object.put("lockdown", Json::Bool(account.lockdown));
    object.put("delegate_remote_mcp", Json::Bool(state.delegate_remote_mcp));
    object.put("grants", account.grants);
    object.put("full_access_conformance", Json::Bool(kept));
    object.put("full_access_no_hidden_deny", Json::Bool(kept));
    object.put("workspace_root_enforcement", Json::Bool(state.enforce_workspace));
    object.put("enforce_workspace", Json::Bool(state.enforce_workspace));
    object.put(
        "workspace_root_enforcement_note",
        Json::text(
            "Independent of access_preset. When true, filesystem and command tools require a registered workspace. Full Access still allows an explicitly permitted absolute path only with workspace_id: null.",
        ),
    );
    Json::Object(object)
}

/// What is to be explained of the policy.
#[derive(Debug)]
pub struct ExplainParams {
    pub capability: Option<String>,
    pub kind: Option<String>,
    pub path: Option<String>,
    pub program: Option<String>,
    pub elevated: bool,
    /// Free text that stands in for a capability.
    pub query: Option<String>,
    pub workspace_id: Option<String>,
}

/// One text stands inside another.
pub open spec fn within(part: Seq<char>, s: Seq<char>) -> bool {
    exists|i: int|
        0 <= i && i + part.len() <= s.len() && #[trigger] s.subrange(i, i + part.len()) == part
}

/// Whether one text stands inside another.
fn contains_text(s: &str, part: &str) -> (b: bool)
    ensures
        b == within(part@, s@),
{
    let n: usize = s.unicode_len();
    let m: usize = part.unicode_len();
    if m == 0 {
        assert(s@.subrange(0int, 0int + part@.len()) =~= part@);
        return true;
    }
    if m > n {
        return false;
    }
    let mut i: usize = 0;
    while i <= n - m
        invariant
            0 < m <= n,
            n == s@.len(),
            m == part@.len(),
            i <= n - m + 1,
            forall|j: int| 0 <= j < i ==> #[trigger] s@.subrange(j, j + part@.len()) != part@,
        decreases n - m + 1 - i,
    {
        if same_text(s.substring_char(i, i + m), part) {
            assert(s@.subrange(i as int, i + part@.len()) == part@);
            return true;
        }
        i += 1;
    }
    false
}

/// The capability and kind that a free text means.
pub open spec fn meant_by(query: Seq<char>) -> (Seq<char>, Seq<char>) {
    let q = lower_text(query);
    if within("write"@, q) || within("delete"@, q) {
        ("filesystem.write"@, "file"@)
    } else if within("read"@, q) || within("list"@, q) {
        ("filesystem.read"@, "file"@)
    } else if within("log"@, q) {
        ("logs.read"@, "logs"@)
    } else {
        ("command.run"@, "structured"@)
    }
}

/// A text, or the empty one.
pub open spec fn text_or_empty(s: Option<String>) -> Seq<char> {
    match s {
        Some(text) => text@,
        None => Seq::empty(),
    }
}

/// The capability and kind to explain.
pub open spec fn explained(p: ExplainParams) -> (Seq<char>, Seq<char>) {
    if text_or_empty(p.capability).len() > 0 {
        (text_or_empty(p.capability), text_or_empty(p.kind))
    } else {
        match p.query {
            Some(query) => meant_by(query@),
            None => ("command.run"@, text_or_empty(p.kind)),
        }
    }
}

/// Chooses the capability and kind to explain.
fn explained_pair(p: &ExplainParams) -> (pair: (String, String))
    ensures
        (pair.0@, pair.1@) == explained(*p),
{
    let kind = match &p.kind {
        Some(kind) => kind.clone(),
        None => String::new(),
    };
    if let Some(capability) = &p.capability {
        if !capability.as_str().is_empty() {
            return (capability.clone(), kind);
        }
    }
    match &p.query {
        Some(query) => {
            let q = to_lower(query.as_str());
            if contains_text(q.as_str(), "write") || contains_text(q.as_str(), "delete") {
                ("filesystem.write".to_owned(), "file".to_owned())
            } else if contains_text(q.as_str(), "read") || contains_text(q.as_str(), "list") {
                ("filesystem.read".to_owned(), "file".to_owned())
            } else if contains_text(q.as_str(), "log") {
                ("logs.read".to_owned(), "logs".to_owned())
            } else {
                ("command.run".to_owned(), "structured".to_owned())
            }
        },
        None => ("command.run".to_owned(), kind),
    }
}

/// The tags of a path.
pub open spec fn are_path_tags(
    tags: Seq<String>,
    sensitive: bool,
    write: bool,
    write_tag: Seq<char>,
    read_tag: Seq<char>,
) -> bool {
    if sensitive {
        tags.len() == 1 && tags[0]@ == (if write {
            write_tag
        } else {
            read_tag
        })
    } else {
        tags.len() == 0
    }
}

/// The tags of a path: one where it looks sensitive, by what is done to it. The
/// tags' names are the policy's.
pub fn sensitive_path_tags(sensitive: bool, write: bool, write_tag: &str, read_tag: &str) -> (tags:
    Vec<String>)
    ensures
        are_path_tags(tags@, sensitive, write, write_tag@, read_tag@),
{
    let mut tags: Vec<String> = Vec::new();
    if sensitive {
        if write {
            tags.push(write_tag.to_owned());
        } else {
            tags.push(read_tag.to_owned());
        }
    }
    tags
}

/// The facts that a request for an explanation is about.
pub open spec fn are_explained_facts(
    facts: OperationFacts,
    p: ExplainParams,
    sensitive: bool,
    write_tag: Seq<char>,
    read_tag: Seq<char>,
) -> bool {
    &&& (facts.capability@, facts.kind@) == explained(p)
    &&& facts.program == p.program
    &&& facts.path == p.path
    &&& facts.elevated == p.elevated
    &&& facts.workspace_relative == (p.path is Some)
    &&& facts.workspace_id matches Some(id) && id@ == selected_id(
        match p.workspace_id {
            Some(w) => Some(w@),
            None => None,
        },
    )
    &&& if p.path is Some && sensitive {
        facts.tags@.len() == 1 && facts.tags@[0]@ == (if facts.capability@ == "filesystem.write"@ {
            write_tag
        } else {
            read_tag
        })
    } else {
        facts.tags@.len() == 0
    }
    &&& facts.tool is None
    &&& facts.executable_identity is None
    &&& facts.invocation_identity is None
}

/// The facts to explain. `sensitive` says whether the path looks sensitive.
pub fn handle_policy_explain(
    p: &ExplainParams,
    sensitive: bool,
    write_tag: &str,
    read_tag: &str,
) -> (r: Result<OperationFacts, IpcError>)
    ensures
        answers(
            r,
            id_refusal(
                match p.workspace_id {
                    Some(id) => Some(id@),
                    None => None,
                },
            ),
        ),
        r matches Ok(facts) ==> are_explained_facts(facts, *p, sensitive, write_tag@, read_tag@),
{
    let (capability, kind) = explained_pair(p);
    let write = same_text(capability.as_str(), "filesystem.write");
    let tags = sensitive_path_tags(sensitive && p.path.is_some(), write, write_tag, read_tag);
    let id = match &p.workspace_id {
        Some(id) => canonical_workspace_id(Some(id.as_str())),
        None => canonical_workspace_id(None),
    };
    match id {
        Ok(id) => Ok(
            OperationFacts {
                capability,
                kind,
                program: copy_text(&p.program),
                path: copy_text(&p.path),
                elevated: p.elevated,
                workspace_relative: p.path.is_some(),
                workspace_id: Some(id),
                tags,
                tool: None,
                executable_identity: None,
                invocation_identity: None,
            },
        ),
        Err(e) => Err(e),
    }
}

/// The answer to an explanation.
pub open spec fn explain_body(
    facts: JsonV,
    decision: Decision,
    matched_rule_id: JsonV,
    reason: Seq<char>,
    lockdown: bool,
) -> JsonV {
    JsonV::Object(
        Map::<Seq<char>, JsonV>::empty().insert("facts"@, facts).insert(
            "decision"@,
            JsonV::Str(decision_name(decision)),
        ).insert("matched_rule_id"@, matched_rule_id).insert("reason"@, JsonV::Str(reason)).insert(
            "lockdown"@,
            JsonV::Bool(lockdown),
        ),
    )
}

/// Answers an explanation with the verdict on its facts.
pub fn explain_answer(
    facts: Json,
    decision: Decision,
    matched_rule_id: Json,
    reason: &str,
    lockdown: bool,
) -> (body: Json)
    ensures
        body@ == explain_body(facts@, decision, matched_rule_id@, reason@, lockdown),
{
    let mut object = JsonObject::new();
    object.put("facts", facts);
    object.put("decision", Json::text(decision_str(decision)));
    object.put("matched_rule_id", matched_rule_id);
    object.put("reason", Json::text(reason));
    object.put("lockdown", Json::Bool(lockdown));
    Json::Object(object)
}

/// Lockdown that was written holds, and is told so; lockdown that was not written is
/// taken back whole, the flag and the grants, and its error is told.
pub proof fn law_lockdown_holds_or_is_taken_back(
    r: Result<Json, IpcError>,
    locked: bool,
    locked_after: bool,
    grants: Seq<StoredGrant>,
    grants_after: Seq<StoredGrant>,
    undo: LockdownUndo,
    outcome: LockdownOutcome,
)
    requires
        is_settled_lockdown(r, locked, locked_after, grants, grants_after, undo, outcome),
    ensures
        r is Ok <==> outcome is Written,
        outcome is Written ==> locked_after == locked && grants_after == grants,
        !(outcome is Written) ==> locked_after == undo.lockdown && grants_after == undo.grants@,
        outcome matches LockdownOutcome::FlagFailed(error) ==> r == Err::<Json, IpcError>(error),
        outcome matches LockdownOutcome::GrantsFailed { error, restore_error } ==> (
        restore_error is None ==> r == Err::<Json, IpcError>(error)),
        r matches Ok(body) ==> body@.get("lockdown"@) == Some(JsonV::Bool(true)) && body@.get(
            "grants_cleared"@,
        ) == Some(JsonV::Bool(true)),
{
    reveal_strlit("lockdown");
    reveal_strlit("grants_cleared");
    assert("lockdown"@.len() == 8 && "grants_cleared"@.len() == 14);
}

/// A revocation is answered with the principal that is revoked.
pub proof fn law_revocations_are_answered(principal: Seq<char>)
    ensures
        revoke_body(principal).get("revoked"@) == Some(JsonV::Str(principal)),
        revoke_body(principal).get("ok"@) == Some(JsonV::Bool(true)),
        revoke_refusal(principal) is None <==> principal.len() > 0,
{
    reveal_strlit("revoked");
    reveal_strlit("ok");
    assert("revoked"@.len() == 7 && "ok"@.len() == 2);
}

/// A policy keeps its promise unless it grants full access under hidden rules.
pub proof fn law_full_access_hides_no_rule(preset: AccessPreset, rule_count: int, hidden_rules: bool)
    ensures
        validate_body(preset, rule_count, hidden_rules).get("ok"@) == Some(JsonV::Bool(!(preset is FullAccess && hidden_rules))),
        validate_body(preset, rule_count, hidden_rules).get("preset"@) == Some(JsonV::Str(preset_text(preset))),
        validate_body(preset, rule_count, hidden_rules).get("rule_count"@) == Some(JsonV::Integer(rule_count)),
        validate_body(preset, rule_count, hidden_rules).get("full_access_no_hidden_deny"@) == Some(JsonV::Bool(!(preset is FullAccess && hidden_rules))),
{
    reveal_strlit("ok");
    reveal_strlit("preset");
    reveal_strlit("rule_count");
    reveal_strlit("full_access_no_hidden_deny");
    assert("ok"@.len() == 2 && "preset"@.len() == 6 && "rule_count"@.len() == 10 && "full_access_no_hidden_deny"@.len() == 26);
}

/// The account of the policy tells its preset, rules, grants, lockdown, delegation and
/// confinement as they are.
pub proof fn law_the_policy_gives_account(state: PolicyState, account: PolicyAccount)
    ensures
        show_body(state, account).get("preset"@) == Some(JsonV::Str(preset_text(state.preset))),
        show_body(state, account).get("note"@) == Some(account.note@),
        show_body(state, account).get("rules"@) == Some(account.rules@),
        show_body(state, account).get("lockdown"@) == Some(JsonV::Bool(account.lockdown)),
        show_body(state, account).get("delegate_remote_mcp"@) == Some(JsonV::Bool(state.delegate_remote_mcp)),
        show_body(state, account).get("grants"@) == Some(account.grants@),
        show_body(state, account).get("full_access_conformance"@) == Some(JsonV::Bool(!(state.preset is FullAccess && account.hidden_rules))),
        show_body(state, account).get("full_access_no_hidden_deny"@) == Some(JsonV::Bool(!(state.preset is FullAccess && account.hidden_rules))),
        show_body(state, account).get("workspace_root_enforcement"@) == Some(JsonV::Bool(state.enforce_workspace)),
        show_body(state, account).get("enforce_workspace"@) == Some(JsonV::Bool(state.enforce_workspace)),
{
    reveal_strlit("preset");
    reveal_strlit("note");
    reveal_strlit("rules");
    reveal_strlit("lockdown");
    reveal_strlit("delegate_remote_mcp");
    reveal_strlit("grants");
    reveal_strlit("full_access_conformance");
    reveal_strlit("full_access_no_hidden_deny");
    reveal_strlit("workspace_root_enforcement");
    reveal_strlit("enforce_workspace");
    reveal_strlit("workspace_root_enforcement_note");
    assert("preset"@.len() == 6 && "note"@.len() == 4 && "rules"@.len() == 5 && "lockdown"@.len() == 8 && "delegate_remote_mcp"@.len() == 19 && "grants"@.len() == 6 && "full_access_conformance"@.len() == 23 && "full_access_no_hidden_deny"@.len() == 26 && "workspace_root_enforcement"@.len() == 26 && "enforce_workspace"@.len() == 17 && "workspace_root_enforcement_note"@.len() == 31);
    assert("preset"@[0] != "grants"@[0]);
    assert("full_access_no_hidden_deny"@[0] != "workspace_root_enforcement"@[0]);
}

/// An explanation gives the facts, the decision on them, the rule and the reason.
pub proof fn law_explanations_tell_the_verdict(
    facts: JsonV,
    decision: Decision,
    matched_rule_id: JsonV,
    reason: Seq<char>,
    lockdown: bool,
)
    ensures
        explain_body(facts, decision, matched_rule_id, reason, lockdown).get("facts"@) == Some(facts),
        explain_body(facts, decision, matched_rule_id, reason, lockdown).get("decision"@) == Some(JsonV::Str(decision_name(decision))),
        explain_body(facts, decision, matched_rule_id, reason, lockdown).get("matched_rule_id"@) == Some(matched_rule_id),
        explain_body(facts, decision, matched_rule_id, reason, lockdown).get("reason"@) == Some(JsonV::Str(reason)),
        explain_body(facts, decision, matched_rule_id, reason, lockdown).get("lockdown"@) == Some(JsonV::Bool(lockdown)),
{
    reveal_strlit("facts");
    reveal_strlit("decision");
    reveal_strlit("matched_rule_id");
    reveal_strlit("reason");
    reveal_strlit("lockdown");
    assert("facts"@.len() == 5 && "decision"@.len() == 8 && "matched_rule_id"@.len() == 15 && "reason"@.len() == 6 && "lockdown"@.len() == 8);
    assert("decision"@[0] != "lockdown"@[0]);
}

/// What is explained is what was asked: the program, the path and the elevation as
/// given, a named capability as named, and otherwise what the question speaks of. Only
/// a sensitive path is tagged.
pub proof fn law_explanations_are_of_what_was_asked(
    facts: OperationFacts,
    p: ExplainParams,
    sensitive: bool,
    write_tag: Seq<char>,
    read_tag: Seq<char>,
)
    requires
        are_explained_facts(facts, p, sensitive, write_tag, read_tag),
    ensures
        facts.program == p.program,
        facts.path == p.path,
        facts.elevated == p.elevated,
        p.capability matches Some(c) ==> (c@.len() > 0 ==> facts.capability@ == c@),
        p.capability matches Some(c) ==> (c@.len() > 0 ==> (match p.kind {
            Some(k) => facts.kind@ == k@,
            None => facts.kind@.len() == 0,
        })),
        p.capability is None && p.query is None ==> facts.capability@ == "command.run"@,
        p.capability is None ==> (p.query matches Some(q) ==> {
            &&& (within("write"@, lower_text(q@)) || within("delete"@, lower_text(q@)) ==> facts.capability@
                == "filesystem.write"@ && facts.kind@ == "file"@)
            &&& (!within("write"@, lower_text(q@)) && !within("delete"@, lower_text(q@)) && (within(
                "read"@,
                lower_text(q@),
            ) || within("list"@, lower_text(q@))) ==> facts.capability@ == "filesystem.read"@
                && facts.kind@ == "file"@)
        }),
        facts.tags@.len() > 0 <==> p.path is Some && sensitive,
        facts.tags@.len() <= 1,
        facts.tags@.len() == 1 ==> (if facts.capability@ == "filesystem.write"@ {
            facts.tags@[0]@ == write_tag
        } else {
            facts.tags@[0]@ == read_tag
        }),
        facts.tool is None && facts.executable_identity is None && facts.invocation_identity is None,
{
}

/// A revocation that was written holds; one that was not is taken back, unless the
/// principal was revoked before, and touches nobody else.
pub proof fn law_revocations_hold_or_are_taken_back(
    r: Result<Json, IpcError>,
    before: TextSet,
    after: TextSet,
    principal: Seq<char>,
    inserted: bool,
    outcome: Result<(), IpcError>,
)
    requires
        is_settled_revocation(r, before, after, principal, inserted, outcome),
    ensures
        r is Ok <==> outcome is Ok,
        outcome is Ok ==> after.items() == before.items(),
        outcome is Err && inserted ==> !after.has(principal),
        outcome is Err && !inserted ==> (after.has(principal) <==> before.has(principal)),
        outcome is Err ==> forall|s: Seq<char>|
            s != principal ==> (#[trigger] after.has(s) <==> before.has(s)),
        outcome matches Err(error) ==> r == Err::<Json, IpcError>(error),
{
}

/// Lifting lockdown is told once it was written; otherwise lockdown is as it was before.
pub proof fn law_unlocking_holds_or_is_taken_back(
    r: Result<Json, IpcError>,
    locked: bool,
    locked_after: bool,
    previous: bool,
    outcome: Result<(), IpcError>,
)
    requires
        is_settled_unlock(r, locked, locked_after, previous, outcome),
    ensures
        r is Ok <==> outcome is Ok,
        outcome is Ok ==> locked_after == locked,
        outcome is Err ==> locked_after == previous,
        r matches Ok(body) ==> body@.get("lockdown"@) == Some(JsonV::Bool(false)),
        outcome matches Err(error) ==> r == Err::<Json, IpcError>(error),
{
}

/// A sensitive path is tagged once, for what is done to it; any other path is not.
pub proof fn law_only_sensitive_paths_are_tagged(
    tags: Seq<String>,
    sensitive: bool,
    write: bool,
    write_tag: Seq<char>,
    read_tag: Seq<char>,
)
    requires
        are_path_tags(tags, sensitive, write, write_tag, read_tag),
    ensures
        tags.len() <= 1,
        tags.len() == 1 <==> sensitive,
        sensitive && write ==> tags[0]@ == write_tag,
        sensitive && !write ==> tags[0]@ == read_tag,
{
}

} // verus!

//! Grants that lift an ask.
use crate::approvals::{answers, Refusal};
use crate::error::{ErrorCode, IpcError};
use crate::ids::{is_fresh_id, new_id};
use crate::params::{AdminGrantsMintParams, Decision};
use crate::text::{
    byte_len, chars_of, decimal, filled, filled_text, is_control, is_control_char, join, listed,
    lists, same_text, signed_decimal, texts, trim, trimmed, unsigned_decimal, utf8_len,
};
use crate::workspace::{lookup_refusal, workspace_for, WorkspaceEntry};
use vstd::prelude::*;
use vstd::string::*;

verus! {

/// Saturating addition.
pub fn saturating_add(a: i64, b: i64) -> (sum: i64)
    ensures
        sum == saturated(a + b),
{
    let exact: i128 = a as i128 + b as i128;
    if exact > i64::MAX as i128 {
        i64::MAX
    } else if exact < i64::MIN as i128 {
        i64::MIN
    } else {
        exact as i64
    }
}

/// The nearest signed 64-bit integer.
pub open spec fn saturated(n: int) -> int {
    if n > i64::MAX {
        i64::MAX as int
    } else if n < i64::MIN {
        i64::MIN as int
    } else {
        n
    }
}

/// A grant that an approval minted for a while.
#[derive(Debug)]
pub struct TemporaryGrant {
    pub id: String,
    pub capability: String,
    pub principal_id: String,
    pub path_prefix: Option<String>,
    pub workspace_id: Option<String>,
    pub expires_unix: i64,
}

/// A grant for named tools, bound to a principal and a device.
#[derive(Debug)]
pub struct BoundedToolGrant {
    pub id: String,
    pub principal_id: String,
    pub device_id: String,
    pub tools: Vec<String>,
    pub workspace_id: Option<String>,
    pub expires_unix: i64,
    pub max_uses: Option<u32>,
    pub uses: u32,
    pub minted_at_unix: i64,
}

/// A grant as it is stored.
#[derive(Debug)]
pub enum StoredGrant {
    Temporary(TemporaryGrant),
    BoundedTool(BoundedToolGrant),
}

/// The verdict of a policy evaluation.
#[derive(Debug)]
pub struct PolicyVerdict {
    pub decision: Decision,
    pub matched_rule_id: Option<String>,
    pub reason: String,
}

impl StoredGrant {
    /// Identifier of the grant.
    pub open spec fn spec_id(self) -> Seq<char> {
        match self {
            StoredGrant::Temporary(g) => g.id@,
            StoredGrant::BoundedTool(g) => g.id@,
        }
    }

    /// Identifier of the grant.
    pub fn id(&self) -> (id: &String)
        ensures
            id@ == self.spec_id(),
    {
        match self {
            StoredGrant::Temporary(g) => &g.id,
            StoredGrant::BoundedTool(g) => &g.id,
        }
    }
}

/// The grant is a tool grant with this identifier.
pub open spec fn is_tool_grant(grant: StoredGrant, id: Seq<char>) -> bool {
    grant matches StoredGrant::BoundedTool(g) && g.id@ == id
}

/// `at` is the first tool grant with this identifier.
pub open spec fn is_first_tool_grant(grants: Seq<StoredGrant>, id: Seq<char>, at: int) -> bool {
    &&& 0 <= at < grants.len()
    &&& is_tool_grant(grants[at], id)
    &&& forall|j: int| 0 <= j < at ==> !is_tool_grant(#[trigger] grants[j], id)
}

/// The grant with one more use.
pub open spec fn used_once_more(grant: StoredGrant) -> StoredGrant {
    match grant {
        StoredGrant::BoundedTool(g) => StoredGrant::BoundedTool(
            BoundedToolGrant {
                uses: if g.uses < u32::MAX {
                    (g.uses + 1) as u32
                } else {
                    g.uses
                },
                ..g
            },
        ),
        other => other,
    }
}

/// The grant that an allowed operation consumes a use of: the first tool grant
/// that the verdict names, if its uses are counted.
pub open spec fn consumes(grants: Seq<StoredGrant>, verdict: PolicyVerdict, at: int) -> bool {
    &&& verdict.decision == Decision::Allow
    &&& verdict.matched_rule_id matches Some(id) && is_first_tool_grant(grants, id@, at)
    &&& grants[at] matches StoredGrant::BoundedTool(g) && g.max_uses is Some
}

/// What an allowed use takes from the grants.
pub open spec fn is_consumption(
    r: Option<(usize, u32)>,
    before: Seq<StoredGrant>,
    after: Seq<StoredGrant>,
    verdict: PolicyVerdict,
) -> bool {
    match r {
        Some((at, uses)) => consumes(before, verdict, at as int) && after == before.update(
            at as int,
            used_once_more(before[at as int]),
        ) && before[at as int]->BoundedTool_0.uses == uses,
        None => after == before && forall|at: int| !consumes(before, verdict, at),
    }
}

/// Counts the use of a grant. The result is its position and its former count,
/// with which the use is taken back if it cannot be written.
pub fn consume_bounded_grant_use(grants: &mut Vec<StoredGrant>, verdict: &PolicyVerdict) -> (r:
    Option<(usize, u32)>)
    ensures
        is_consumption(r, old(grants)@, final(grants)@, *verdict),
{
    if verdict.decision != Decision::Allow {
        return None;
    }
    let id = match &verdict.matched_rule_id {
        Some(id) => id,
        None => {
            return None;
        },
    };
    let n: usize = grants.len();
    let mut at: usize = 0;
    while at < n
        invariant
            at <= n,
            n == grants@.len(),
            grants@ == old(grants)@,
            verdict.matched_rule_id == Some(*id),
            verdict.decision == Decision::Allow,
            forall|j: int| 0 <= j < at ==> !is_tool_grant(#[trigger] grants@[j], id@),
        decreases n - at,
    {
        let counted = match &grants[at] {
            StoredGrant::BoundedTool(g) => if same_text(g.id.as_str(), id.as_str()) {
                Some(g.max_uses.is_some())
            } else {
                None
            },
            StoredGrant::Temporary(_) => None,
        };
        match counted {
            Some(counted) => {
                proof {
                    assert forall|other: int| is_first_tool_grant(
                        old(grants)@,
                        id@,
                        other,
                    ) implies other == at by {
                        if other < at {
                            assert(!is_tool_grant(grants@[other], id@));
                        } else if other > at {
                            assert(!is_tool_grant(old(grants)@[at as int], id@));
                        }
                    }
                }
                if !counted {
                    return None;
                }
                let mut uses: u32 = 0;
                match &mut grants[at] {
                    StoredGrant::BoundedTool(g) => {
                        uses = g.uses;
                        if g.uses < u32::MAX {
                            g.uses = g.uses + 1;
                        }
                    },
                    StoredGrant::Temporary(_) => {},
                }
                assert(grants@ =~= old(grants)@.update(
                    at as int,
                    used_once_more(old(grants)@[at as int]),
                ));
                return Some((at, uses));
            },
            None => {},
        }
        at += 1;
    }
    None
}

/// The grant with its former count.
pub open spec fn with_uses(grant: StoredGrant, uses: u32) -> StoredGrant {
    match grant {
        StoredGrant::BoundedTool(g) => StoredGrant::BoundedTool(BoundedToolGrant { uses, ..g }),
        other => other,
    }
}

/// Takes back a use that could not be written.
pub fn restore_grant_use(grants: &mut Vec<StoredGrant>, at: usize, uses: u32)
    requires
        at < old(grants)@.len(),
    ensures
        final(grants)@ == old(grants)@.update(at as int, with_uses(old(grants)@[at as int], uses)),
{
    match &mut grants[at] {
        StoredGrant::BoundedTool(g) => {
            g.uses = uses;
        },
        StoredGrant::Temporary(_) => {},
    }
    assert(grants@ =~= old(grants)@.update(at as int, with_uses(old(grants)@[at as int], uses)));
}

/// A use that was taken back leaves the grants as they were.
pub proof fn law_restored_use_leaves_grants_unchanged(grants: Seq<StoredGrant>, at: int)
    requires
        0 <= at < grants.len(),
        grants[at] is BoundedTool,
    ensures
        ({
            let used = grants.update(at, used_once_more(grants[at]));
            used.update(at, with_uses(used[at], grants[at]->BoundedTool_0.uses)) == grants
        }),
{
    let used = grants.update(at, used_once_more(grants[at]));
    assert(used.update(at, with_uses(used[at], grants[at]->BoundedTool_0.uses)) =~= grants);
}

/// Puts removed grants back, the last one first.
pub open spec fn reinserted(
    grants: Seq<StoredGrant>,
    removed: Seq<(usize, StoredGrant)>,
) -> Seq<StoredGrant>
    decreases removed.len(),
{
    if removed.len() == 0 {
        grants
    } else {
        reinserted(grants.insert(removed.last().0 as int, removed.last().1), removed.drop_last())
    }
}

/// The removed grants can be put back one after the other.
pub open spec fn reinsertable(
    grants: Seq<StoredGrant>,
    removed: Seq<(usize, StoredGrant)>,
) -> bool
    decreases removed.len(),
{
    removed.len() == 0 || (removed.last().0 <= grants.len() && reinsertable(
        grants.insert(removed.last().0 as int, removed.last().1),
        removed.drop_last(),
    ))
}

/// Some grant has the identifier.
pub open spec fn has_grant(grants: Seq<StoredGrant>, id: Seq<char>) -> bool {
    exists|i: int| 0 <= i < grants.len() && (#[trigger] grants[i]).spec_id() == id
}

/// Why a grant is not revoked or shown.
pub open spec fn grant_refusal(grants: Seq<StoredGrant>, id: Seq<char>) -> Refusal {
    if has_grant(grants, id) {
        None
    } else {
        Some((ErrorCode::InvalidParams, "grant not found: "@ + id))
    }
}

/// The grants without those of an identifier, in their order.
pub open spec fn without_grant(grants: Seq<StoredGrant>, id: Seq<char>) -> Seq<StoredGrant>
    decreases grants.len(),
{
    if grants.len() == 0 {
        grants
    } else if grants.last().spec_id() == id {
        without_grant(grants.drop_last(), id)
    } else {
        without_grant(grants.drop_last(), id).push(grants.last())
    }
}

/// Revokes every grant with the identifier. What was removed is returned with
/// its position, for [`undo_revoke`].
pub fn handle_grants_revoke(grants: &mut Vec<StoredGrant>, id: &str) -> (r: Result<
    Vec<(usize, StoredGrant)>,
    IpcError,
>)
    ensures
        answers(r, grant_refusal(old(grants)@, id@)),
        match r {
            Ok(removed) => {
                &&& final(grants)@ == without_grant(old(grants)@, id@)
                &&& reinsertable(final(grants)@, removed@)
                &&& reinserted(final(grants)@, removed@) == old(grants)@
            },
            Err(_) => final(grants)@ == old(grants)@,
        },
{
    let ghost before = grants@;
    let mut removed: Vec<(usize, StoredGrant)> = Vec::new();
    let mut i: usize = 0;
    let ghost mut done: int = 0;
    assert(without_grant(before.take(0), id@) =~= Seq::empty());
    assert(without_grant(before.take(0), id@) + before.skip(0) =~= before);
    while i < grants.len()
        invariant
            i <= grants@.len(),
            0 <= done <= before.len(),
            done == i + removed@.len(),
            before == old(grants)@,
            before.len() == grants@.len() + removed@.len(),
            without_grant(before.take(done), id@).len() == i,
            grants@ == without_grant(before.take(done), id@) + before.skip(done),
            reinsertable(grants@, removed@),
            reinserted(grants@, removed@) == before,
            removed@.len() == 0 ==> forall|j: int|
                0 <= j < done ==> (#[trigger] before[j]).spec_id() != id@,
            removed@.len() > 0 ==> has_grant(before, id@),
        decreases grants@.len() - i,
    {
        proof {
            assert(before.take(done + 1).drop_last() =~= before.take(done));
            assert(before.take(done + 1).last() == before[done]);
            assert(grants@[i as int] == before.skip(done)[0]);
            assert(before.skip(done)[0] == before[done]);
        }
        if same_text(grants[i].id().as_str(), id) {
            let ghost kept = grants@;
            let ghost list = removed@;
            let grant = grants.remove(i);
            removed.push((i, grant));
            proof {
                assert(removed@.drop_last() =~= list);
                assert(removed@.last() == (i, grant));
                assert(grants@.insert(i as int, grant) =~= kept);
                assert(grants@ =~= without_grant(before.take(done + 1), id@) + before.skip(
                    done + 1,
                ));
                assert(before[done].spec_id() == id@);
                assert(has_grant(before, id@));
            }
        } else {
            i += 1;
            assert(grants@ =~= without_grant(before.take(done + 1), id@) + before.skip(done + 1));
        }
        proof {
            done = done + 1;
        }
    }
    proof {
        assert(done == before.len());
        assert(before.take(done) =~= before);
        assert(before.skip(done) =~= Seq::empty());
        assert(grants@ =~= without_grant(before, id@));
    }
    if removed.len() == 0 {
        return Err(
            IpcError::with_message(ErrorCode::InvalidParams, join("grant not found: ", id)),
        );
    }
    Ok(removed)
}

/// Puts revoked grants back whose removal could not be written.
pub fn undo_revoke(grants: &mut Vec<StoredGrant>, removed: Vec<(usize, StoredGrant)>)
    requires
        reinsertable(old(grants)@, removed@),
    ensures
        final(grants)@ == reinserted(old(grants)@, removed@),
{
    let mut removed = removed;
    let ghost goal = reinserted(grants@, removed@);
    while removed.len() > 0
        invariant
            reinsertable(grants@, removed@),
            reinserted(grants@, removed@) == goal,
        decreases removed.len(),
    {
        let ghost list = removed@;
        match removed.pop() {
            Some((at, grant)) => {
                assert(removed@ =~= list.drop_last());
                grants.insert(at, grant);
            },
            None => {},
        }
    }
}

/// Finds a grant.
pub fn handle_grants_show(grants: &Vec<StoredGrant>, id: &str) -> (r: Result<usize, IpcError>)
    ensures
        answers(r, grant_refusal(grants@, id@)),
        r matches Ok(at) ==> at < grants@.len() && grants@[at as int].spec_id() == id@ && forall|
            j: int,
        |
            0 <= j < at ==> (#[trigger] grants@[j]).spec_id() != id@,
{
    let mut i: usize = 0;
    while i < grants.len()
        invariant
            i <= grants@.len(),
            forall|j: int| 0 <= j < i ==> (#[trigger] grants@[j]).spec_id() != id@,
        decreases grants.len() - i,
    {
        if same_text(grants[i].id().as_str(), id) {
            assert(grants@[i as int].spec_id() == id@);
            return Ok(i);
        }
        i += 1;
    }
    Err(IpcError::with_message(ErrorCode::InvalidParams, join("grant not found: ", id)))
}

/// Number of tool grants.
pub open spec fn tool_grants(grants: Seq<StoredGrant>) -> nat
    decreases grants.len(),
{
    if grants.len() == 0 {
        0
    } else {
        tool_grants(grants.drop_last()) + (if grants.last() is BoundedTool {
            1nat
        } else {
            0
        })
    }
}

/// Counts the grants of each kind: tool grants, temporary grants.
pub fn handle_grants_list(grants: &Vec<StoredGrant>) -> (counts: (usize, usize))
    ensures
        counts.0 == tool_grants(grants@),
        counts.0 + counts.1 == grants@.len(),
{
    let mut tools: usize = 0;
    let mut temporary: usize = 0;
    let mut i: usize = 0;
    while i < grants.len()
        invariant
            i <= grants@.len(),
            tools == tool_grants(grants@.take(i as int)),
            tools + temporary == i,
        decreases grants.len() - i,
    {
        assert(grants@.take(i + 1).drop_last() =~= grants@.take(i as int));
        match &grants[i] {
            StoredGrant::BoundedTool(_) => {
                tools += 1;
            },
            StoredGrant::Temporary(_) => {
                temporary += 1;
            },
        }
        i += 1;
    }
    assert(grants@.take(i as int) =~= grants@);
    (tools, temporary)
}

/// A control character is in the text.
pub open spec fn has_control(s: Seq<char>) -> bool {
    exists|i: int| 0 <= i < s.len() && is_control_char(#[trigger] s[i])
}

/// Whether a control character is in the text.
pub fn contains_control(s: &str) -> (b: bool)
    ensures
        b == has_control(s@),
{
    let chars = chars_of(s);
    let mut i: usize = 0;
    while i < chars.len()
        invariant
            i <= chars@.len(),
            chars@ == s@,
            forall|j: int| 0 <= j < i ==> !is_control_char(#[trigger] s@[j]),
        decreases chars.len() - i,
    {
        if is_control(chars[i]) {
            assert(is_control_char(s@[i as int]));
            return true;
        }
        i += 1;
    }
    false
}

/// Why an idempotency key of an administrative request is refused.
pub open spec fn admin_key_refusal(key: Seq<char>) -> Refusal {
    if trim(key) != key || key.len() == 0 || utf8_len(key) > 256 || has_control(key) {
        Some(
            (
                ErrorCode::InvalidParams,
                "idempotency_key must be 1-256 control-free characters without edge whitespace"@,
            ),
        )
    } else {
        None
    }
}

/// Holds the idempotency key of an administrative request to its form.
pub fn validate_admin_idempotency_key(value: &str) -> (r: Result<(), IpcError>)
    ensures
        answers(r, admin_key_refusal(value@)),
{
    let t = trimmed(value);
    if !same_text(t.as_str(), value) || value.is_empty() || byte_len(value) > 256
        || contains_control(value) {
        return Err(
            IpcError::new(
                ErrorCode::InvalidParams,
                "idempotency_key must be 1-256 control-free characters without edge whitespace",
            ),
        );
    }
    Ok(())
}

/// Bounds of a tool grant.
#[derive(Debug, Clone, Copy)]
pub struct GrantLimits {
    pub max_ttl_seconds: i64,
    pub max_uses: u32,
}

/// The canonical names up to the first tool that has none.
pub open spec fn all_canonical(canonical: Seq<Option<String>>) -> bool {
    forall|i: int| 0 <= i < canonical.len() ==> (#[trigger] canonical[i]) is Some
}

/// The tools in the order of their first mention, each once.
pub open spec fn distinct_tools(canonical: Seq<Option<String>>) -> Seq<Seq<char>>
    decreases canonical.len(),
{
    if canonical.len() == 0 {
        Seq::empty()
    } else {
        let before = distinct_tools(canonical.drop_last());
        match canonical.last() {
            Some(tool) => if before.contains(tool@) {
                before
            } else {
                before.push(tool@)
            },
            None => before,
        }
    }
}

/// The first tool without a canonical name.
pub open spec fn is_first_unknown(canonical: Seq<Option<String>>, k: int) -> bool {
    &&& 0 <= k < canonical.len()
    &&& canonical[k] is None
    &&& forall|j: int| 0 <= j < k ==> (#[trigger] canonical[j]) is Some
}

/// Why no tool grant is minted, apart from an unknown tool.
pub open spec fn mint_bounds_refusal(params: AdminGrantsMintParams, limits: GrantLimits) -> Refusal {
    if admin_key_refusal(params.idempotency_key@) is Some {
        admin_key_refusal(params.idempotency_key@)
    } else if params.ttl_seconds < 1 || params.ttl_seconds > limits.max_ttl_seconds {
        Some(
            (
                ErrorCode::InvalidParams,
                "ttl_seconds must be 1..="@ + decimal(limits.max_ttl_seconds as int),
            ),
        )
    } else if params.max_uses matches Some(uses) && (uses == 0 || uses > limits.max_uses) {
        Some(
            (
                ErrorCode::InvalidParams,
                "max_uses must be 1..="@ + decimal(limits.max_uses as int),
            ),
        )
    } else {
        None
    }
}

/// Why a grant for known tools is not minted.
pub open spec fn mint_identity_refusal(
    params: AdminGrantsMintParams,
    canonical: Seq<Option<String>>,
    workspaces: Seq<WorkspaceEntry>,
) -> Refusal {
    if distinct_tools(canonical).len() == 0 {
        Some((ErrorCode::InvalidParams, "tools must list at least one canonical tool"@))
    } else if filled(params.principal_id) is None {
        Some(
            (
                ErrorCode::Unauthorized,
                "bounded grant mint requires the verified remote principal"@,
            ),
        )
    } else if filled(params.device_id) is None {
        Some(
            (ErrorCode::Unauthorized, "bounded grant mint requires the verified device id"@),
        )
    } else if filled(params.workspace_id) is Some {
        lookup_refusal(workspaces, filled(params.workspace_id))
    } else {
        None
    }
}

/// The grant that the parameters ask for, minted now.
pub open spec fn is_minted(
    grant: BoundedToolGrant,
    params: AdminGrantsMintParams,
    canonical: Seq<Option<String>>,
    now: i64,
) -> bool {
    &&& is_fresh_id(grant.id@, "grant_"@)
    &&& filled(params.principal_id) == Some(grant.principal_id@)
    &&& filled(params.device_id) == Some(grant.device_id@)
    &&& texts(grant.tools@) == distinct_tools(canonical)
    &&& match grant.workspace_id {
        Some(w) => filled(params.workspace_id) == Some(w@),
        None => filled(params.workspace_id) is None,
    }
    &&& grant.expires_unix == saturated(now + params.ttl_seconds)
    &&& grant.max_uses == params.max_uses
    &&& grant.uses == 0
    &&& grant.minted_at_unix == now
}

/// Collects the canonical tools, each once; `Err` holds the position of the
/// first tool that has no canonical name.
fn collect_tools(canonical: &Vec<Option<String>>) -> (r: Result<Vec<String>, usize>)
    ensures
        match r {
            Ok(tools) => all_canonical(canonical@) && texts(tools@) == distinct_tools(canonical@),
            Err(k) => is_first_unknown(canonical@, k as int),
        },
{
    let mut tools: Vec<String> = Vec::new();
    let mut i: usize = 0;
    assert(texts(tools@) =~= distinct_tools(canonical@.take(0)));
    while i < canonical.len()
        invariant
            i <= canonical@.len(),
            forall|j: int| 0 <= j < i ==> (#[trigger] canonical@[j]) is Some,
            texts(tools@) == distinct_tools(canonical@.take(i as int)),
        decreases canonical.len() - i,
    {
        assert(canonical@.take(i + 1).drop_last() =~= canonical@.take(i as int));
        assert(canonical@.take(i + 1).last() == canonical@[i as int]);
        let ghost before = texts(tools@);
        match &canonical[i] {
            Some(tool) => {
                proof {
                    if before.contains(tool@) {
                        let j = choose|j: int| 0 <= j < before.len() && before[j] == tool@;
                        assert(tools@[j]@ == tool@);
                    }
                    if lists(tools@, tool@) {
                        let j = choose|j: int|
                            0 <= j < tools@.len() && #[trigger] tools@[j]@ == tool@;
                        assert(before[j] == tool@);
                    }
                }
                if !listed(&tools, tool.as_str()) {
                    tools.push(tool.clone());
                    assert(texts(tools@) =~= before.push(tool@));
                }
            },
            None => {
                return Err(i);
            },
        }
        i += 1;
    }
    assert(canonical@.take(i as int) =~= canonical@);
    Ok(tools)
}

/// Mints a tool grant from an approved request. `canonical` holds, for each tool
/// asked for, its canonical name if it has one.
pub fn execute_admin_grants_mint(
    params: &AdminGrantsMintParams,
    canonical: &Vec<Option<String>>,
    limits: GrantLimits,
    workspaces: &Vec<WorkspaceEntry>,
    now: i64,
) -> (r: Result<BoundedToolGrant, IpcError>)
    requires
        canonical@.len() == params.tools@.len(),
    ensures
        match mint_bounds_refusal(*params, limits) {
            Some((code, message)) => r matches Err(e) && e.is(code, message),
            None => if all_canonical(canonical@) {
                answers(r, mint_identity_refusal(*params, canonical@, workspaces@)) && (
                r matches Ok(grant) ==> is_minted(grant, *params, canonical@, now))
            } else {
                exists|k: int| #[trigger]
                    is_first_unknown(canonical@, k) && (r matches Err(e) && e.is(
                        ErrorCode::InvalidParams,
                        "unsupported or wildcard tool "@ + params.tools@[k]@,
                    ))
            },
        },
{
    match validate_admin_idempotency_key(params.idempotency_key.as_str()) {
        Ok(()) => {},
        Err(e) => {
            return Err(e);
        },
    }
    if params.ttl_seconds < 1 || params.ttl_seconds > limits.max_ttl_seconds {
        let bound = signed_decimal(limits.max_ttl_seconds);
        return Err(
            IpcError::with_message(
                ErrorCode::InvalidParams,
                join("ttl_seconds must be 1..=", bound.as_str()),
            ),
        );
    }
    if let Some(uses) = params.max_uses {
        if uses == 0 || uses > limits.max_uses {
            let bound = unsigned_decimal(limits.max_uses as u64);
            return Err(
                IpcError::with_message(
                    ErrorCode::InvalidParams,
                    join("max_uses must be 1..=", bound.as_str()),
                ),
            );
        }
    }
    let tools = match collect_tools(canonical) {
        Ok(tools) => tools,
        Err(k) => {
            proof {
                assert(is_first_unknown(canonical@, k as int));
                assert(!all_canonical(canonical@));
            }
            return Err(
                IpcError::with_message(
                    ErrorCode::InvalidParams,
                    join("unsupported or wildcard tool ", params.tools[k].as_str()),
                ),
            );
        },
    };
    if tools.len() == 0 {
        return Err(
            IpcError::new(
                ErrorCode::InvalidParams,
                "tools must list at least one canonical tool",
            ),
        );
    }
    assert(distinct_tools(canonical@).len() == tools@.len());
    let principal_id = match filled_text(&params.principal_id) {
        Some(p) => p,
        None => {
            return Err(
                IpcError::new(
                    ErrorCode::Unauthorized,
                    "bounded grant mint requires the verified remote principal",
                ),
            );
        },
    };
    let device_id = match filled_text(&params.device_id) {
        Some(d) => d,
        None => {
            return Err(
                IpcError::new(
                    ErrorCode::Unauthorized,
                    "bounded grant mint requires the verified device id",
                ),
            );
        },
    };
    let workspace_id = filled_text(&params.workspace_id);
    if let Some(w) = &workspace_id {
        match workspace_for(workspaces, Some(w.as_str())) {
            Ok(_) => {},
            Err(e) => {
                return Err(e);
            },
        }
    }
    Ok(
        BoundedToolGrant {
            id: new_id("grant_"),
            principal_id,
            device_id,
            tools,
            workspace_id,
            expires_unix: saturating_add(now, params.ttl_seconds),
            max_uses: params.max_uses,
            uses: 0,
            minted_at_unix: now,
        },
    )
}

/// A sum that fits is kept; one that does not ends at the nearer bound.
pub proof fn law_sums_end_at_the_bounds(a: i64, b: i64)
    ensures
        i64::MIN <= saturated(a + b) <= i64::MAX,
        i64::MIN <= a + b <= i64::MAX ==> saturated(a + b) == a + b,
        a + b > i64::MAX ==> saturated(a + b) == 9_223_372_036_854_775_807,
        a + b < i64::MIN ==> saturated(a + b) == -9_223_372_036_854_775_808,
{
}

/// An allowed use that matches a counted grant counts it once: the grant that the
/// verdict names has one use more, unless the count is at its end, and is otherwise as
/// before; no other grant changes. No use is counted where the verdict does not allow or
/// names no grant, or where the grant has no limit.
pub proof fn law_each_allowed_use_is_counted_once(
    r: Option<(usize, u32)>,
    before: Seq<StoredGrant>,
    after: Seq<StoredGrant>,
    verdict: PolicyVerdict,
)
    requires
        is_consumption(r, before, after, verdict),
    ensures
        after.len() == before.len(),
        r is None ==> after == before,
        !(verdict.decision is Allow) || verdict.matched_rule_id is None ==> r is None,
        r matches Some((at, uses)) ==> {
            &&& at < before.len()
            &&& forall|i: int| 0 <= i < before.len() && i != at ==> #[trigger] after[i] == before[i]
            &&& (before[at as int] matches StoredGrant::BoundedTool(g) && (
            after[at as int] matches StoredGrant::BoundedTool(h) && {
                &&& g.uses == uses
                &&& (g.uses < u32::MAX ==> h.uses == g.uses + 1)
                &&& (g.uses == u32::MAX ==> h.uses == g.uses)
                &&& h.id == g.id
                &&& h.principal_id == g.principal_id
                &&& h.device_id == g.device_id
                &&& h.tools == g.tools
                &&& h.workspace_id == g.workspace_id
                &&& h.expires_unix == g.expires_unix
                &&& h.max_uses == g.max_uses
                &&& h.minted_at_unix == g.minted_at_unix
                &&& g.max_uses is Some
                &&& (verdict.matched_rule_id matches Some(id) && id@ == g.id@)
            }))
        },
        forall|i: int|
            verdict.decision is Allow && 0 <= i < before.len() && (
            #[trigger] before[i] matches StoredGrant::BoundedTool(g) && g.max_uses is Some && (
            verdict.matched_rule_id matches Some(id) && id@ == g.id@)) && (forall|j: int|
                0 <= j < before.len() && j != i ==> (#[trigger] before[j]).spec_id()
                    != before[i].spec_id()) ==> (r matches Some((at, _)) && at == i),
{
    assert forall|i: int|
        verdict.decision is Allow && 0 <= i < before.len() && (
        #[trigger] before[i] matches StoredGrant::BoundedTool(g) && g.max_uses is Some && (
        verdict.matched_rule_id matches Some(id) && id@ == g.id@)) && (forall|j: int|
            0 <= j < before.len() && j != i ==> (#[trigger] before[j]).spec_id()
                != before[i].spec_id()) implies (r matches Some((at, _)) && at == i) by {
        let id = verdict.matched_rule_id->0@;
        assert forall|j: int| 0 <= j < i implies !is_tool_grant(#[trigger] before[j], id) by {
            assert(before[j].spec_id() != before[i].spec_id());
        }
        assert(is_first_tool_grant(before, id, i));
        assert(consumes(before, verdict, i));
        if let Some((at, _)) = r {
            if at != i {
                assert(before[at as int].spec_id() != before[i].spec_id());
            }
        }
    }
}

/// Giving a use back sets the count of that grant alone.
pub proof fn law_uses_are_given_back(grant: StoredGrant, uses: u32)
    ensures
        with_uses(grant, uses).spec_id() == grant.spec_id(),
        grant is Temporary ==> with_uses(grant, uses) == grant,
        grant matches StoredGrant::BoundedTool(g) ==> (
        with_uses(grant, uses) matches StoredGrant::BoundedTool(h) && h.uses == uses && h.tools
            == g.tools && h.max_uses == g.max_uses && h.expires_unix == g.expires_unix
            && h.principal_id == g.principal_id && h.device_id == g.device_id && h.workspace_id
            == g.workspace_id && h.minted_at_unix == g.minted_at_unix),
{
}

/// Revoking takes out the grants of an identifier and no others.
pub proof fn law_only_the_named_grants_are_revoked(grants: Seq<StoredGrant>, id: Seq<char>)
    ensures
        forall|i: int|
            0 <= i < without_grant(grants, id).len() ==> (#[trigger] without_grant(
                grants,
                id,
            )[i]).spec_id() != id && grants.contains(without_grant(grants, id)[i]),
        forall|i: int|
            0 <= i < grants.len() && (#[trigger] grants[i]).spec_id() != id ==> without_grant(
                grants,
                id,
            ).contains(grants[i]),
        !has_grant(without_grant(grants, id), id),
        grant_refusal(grants, id) is Some <==> (forall|i: int|
            0 <= i < grants.len() ==> (#[trigger] grants[i]).spec_id() != id),
        grant_refusal(grants, id) matches Some((code, _)) ==> code == ErrorCode::InvalidParams,
    decreases grants.len(),
{
    if grants.len() > 0 {
        let front = grants.drop_last();
        law_only_the_named_grants_are_revoked(front, id);
        let kept = without_grant(front, id);
        let all = without_grant(grants, id);
        assert forall|i: int| 0 <= i < all.len() implies (#[trigger] all[i]).spec_id() != id
            && grants.contains(all[i]) by {
            if i < kept.len() {
                assert(all[i] == kept[i]);
                let j = choose|j: int| 0 <= j < front.len() && front[j] == kept[i];
                assert(grants[j] == all[i]);
            } else {
                assert(grants[grants.len() - 1] == all[i]);
            }
        }
        assert forall|i: int|
            0 <= i < grants.len() && (#[trigger] grants[i]).spec_id() != id implies all.contains(
            grants[i],
        ) by {
            if i < front.len() {
                assert(front[i] == grants[i]);
                let j = choose|j: int| 0 <= j < kept.len() && kept[j] == grants[i];
                assert(all[j] == grants[i]);
            } else {
                assert(all[all.len() - 1] == grants[i]);
            }
        }
    }
}

/// The grants that stay keep their order.
pub proof fn law_revoking_keeps_the_order(a: Seq<StoredGrant>, b: Seq<StoredGrant>, id: Seq<char>)
    ensures
        without_grant(a + b, id) == without_grant(a, id) + without_grant(b, id),
    decreases b.len(),
{
    if b.len() == 0 {
        assert(a + b =~= a);
        assert(without_grant(a, id) + without_grant(b, id) =~= without_grant(a, id));
    } else {
        assert((a + b).drop_last() =~= a + b.drop_last());
        assert((a + b).last() == b.last());
        law_revoking_keeps_the_order(a, b.drop_last(), id);
        assert(without_grant(a + b, id) =~= without_grant(a, id) + without_grant(b, id));
    }
}

/// The tool grants of a list in two parts are those of both parts; a tool grant counts
/// as one, a temporary grant not at all.
pub proof fn law_tool_grants_are_counted(a: Seq<StoredGrant>, b: Seq<StoredGrant>, grant: StoredGrant)
    ensures
        tool_grants(a + b) == tool_grants(a) + tool_grants(b),
        tool_grants(seq![grant]) == (if grant is BoundedTool {
            1nat
        } else {
            0
        }),
    decreases b.len(),
{
    assert(seq![grant].drop_last() =~= Seq::empty());
    assert(tool_grants(Seq::empty()) == 0);
    if b.len() == 0 {
        assert(a + b =~= a);
    } else {
        assert((a + b).drop_last() =~= a + b.drop_last());
        assert((a + b).last() == b.last());
        law_tool_grants_are_counted(a, b.drop_last(), grant);
    }
}

/// A key of an administrative request is admitted exactly where it has 1 to 256 bytes,
/// none of its characters is a control character, and trimming does not change it.
pub proof fn law_admin_keys_are_plain(key: Seq<char>)
    ensures
        admin_key_refusal(key) is None <==> {
            &&& key.len() >= 1
            &&& utf8_len(key) <= 256
            &&& (forall|i: int| 0 <= i < key.len() ==> !is_control_char(#[trigger] key[i]))
            &&& trim(key) == key
        },
        admin_key_refusal(key) matches Some((code, _)) ==> code == ErrorCode::InvalidParams,
{
}

/// A grant is minted for at least a second and at most the longest time, and for at
/// least one use and at most the most uses where uses are counted.
pub proof fn law_mints_are_within_bounds(params: AdminGrantsMintParams, limits: GrantLimits)
    requires
        admin_key_refusal(params.idempotency_key@) is None,
    ensures
        mint_bounds_refusal(params, limits) is None <==> {
            &&& 1 <= params.ttl_seconds <= limits.max_ttl_seconds
            &&& (params.max_uses matches Some(uses) ==> 1 <= uses <= limits.max_uses)
        },
        mint_bounds_refusal(params, limits) matches Some((code, _)) ==> code
            == ErrorCode::InvalidParams,
{
}

/// The tools of a grant are those that were named, each once: none is added and none
/// is left out.
pub proof fn law_named_tools_are_listed_once(canonical: Seq<Option<String>>)
    ensures
        forall|i: int|
            0 <= i < canonical.len() ==> (#[trigger] canonical[i] matches Some(tool)
                ==> distinct_tools(canonical).contains(tool@)),
        forall|i: int|
            0 <= i < distinct_tools(canonical).len() ==> exists|j: int|
                0 <= j < canonical.len() && (#[trigger] canonical[j] matches Some(tool) && tool@
                    == #[trigger] distinct_tools(canonical)[i]),
        forall|i: int, j: int|
            0 <= i < j < distinct_tools(canonical).len() ==> #[trigger] distinct_tools(canonical)[i]
                != #[trigger] distinct_tools(canonical)[j],
    decreases canonical.len(),
{
    if canonical.len() > 0 {
        let front = canonical.drop_last();
        law_named_tools_are_listed_once(front);
        let before = distinct_tools(front);
        let all = distinct_tools(canonical);
        assert forall|i: int| 0 <= i < canonical.len() implies (
        #[trigger] canonical[i] matches Some(tool) ==> all.contains(tool@)) by {
            if let Some(tool) = canonical[i] {
                if i < front.len() {
                    assert(front[i] == canonical[i]);
                    assert(before.contains(tool@));
                    let j = choose|j: int| 0 <= j < before.len() && before[j] == tool@;
                    assert(all[j] == tool@);
                } else if !before.contains(tool@) {
                    assert(all[all.len() - 1] == tool@);
                }
            }
        }
        assert forall|i: int| 0 <= i < all.len() implies exists|j: int|
            0 <= j < canonical.len() && (#[trigger] canonical[j] matches Some(tool) && tool@
                == #[trigger] all[i]) by {
            if i < before.len() {
                assert(all[i] == before[i]);
                let j = choose|j: int|
                    0 <= j < front.len() && (#[trigger] front[j] matches Some(tool) && tool@
                        == before[i]);
                assert(canonical[j] == front[j]);
            } else {
                assert(canonical[canonical.len() - 1] == canonical.last());
            }
        }
        assert forall|i: int, j: int| 0 <= i < j < all.len() implies #[trigger] all[i]
            != #[trigger] all[j] by {
            assert(all[i] == before[i]);
            if j < before.len() {
                assert(all[j] == before[j]);
            } else {
                assert(before.contains(before[i]));
            }
        }
    }
}

/// A minted grant is unused, is for the principal, the device and the workspace of the
/// request, holds for the seconds and the uses that were asked, counted from now, and
/// lists the named tools.
pub proof fn law_minted_grants_are_as_asked(
    grant: BoundedToolGrant,
    params: AdminGrantsMintParams,
    canonical: Seq<Option<String>>,
    now: i64,
)
    requires
        is_minted(grant, params, canonical, now),
    ensures
        grant.uses == 0,
        grant.max_uses == params.max_uses,
        grant.minted_at_unix == now,
        now + params.ttl_seconds <= i64::MAX && now + params.ttl_seconds >= i64::MIN
            ==> grant.expires_unix - now == params.ttl_seconds,
        now + params.ttl_seconds > i64::MAX ==> grant.expires_unix == i64::MAX,
        params.principal_id matches Some(p) && grant.principal_id@ == trim(p@)
            && grant.principal_id@.len() > 0,
        params.device_id matches Some(d) && grant.device_id@ == trim(d@) && grant.device_id@.len()
            > 0,
        grant.workspace_id matches Some(w) ==> (params.workspace_id matches Some(asked) && w@
            == trim(asked@)),
        grant.workspace_id is None <==> (params.workspace_id matches Some(asked) ==> trim(
            asked@,
        ).len() == 0),
        forall|i: int|
            0 <= i < canonical.len() ==> (#[trigger] canonical[i] matches Some(tool) ==> lists(
                grant.tools@,
                tool@,
            )),
{
    law_named_tools_are_listed_once(canonical);
    let listed_tools = texts(grant.tools@);
    assert forall|i: int| 0 <= i < canonical.len() implies (
    #[trigger] canonical[i] matches Some(tool) ==> lists(grant.tools@, tool@)) by {
        if let Some(tool) = canonical[i] {
            assert(listed_tools.contains(tool@));
            let j = choose|j: int| 0 <= j < listed_tools.len() && listed_tools[j] == tool@;
            assert(grant.tools@[j]@ == tool@);
        }
    }
}

/// A grant is minted where it lists a tool, names its principal and its device, and its
/// workspace, where it names one, is there.
pub proof fn law_mints_name_whom_they_are_for(
    params: AdminGrantsMintParams,
    canonical: Seq<Option<String>>,
    workspaces: Seq<WorkspaceEntry>,
)
    requires
        all_canonical(canonical),
    ensures
        mint_identity_refusal(params, canonical, workspaces) is None <==> {
            &&& canonical.len() > 0
            &&& (params.principal_id matches Some(p) && trim(p@).len() > 0)
            &&& (params.device_id matches Some(d) && trim(d@).len() > 0)
            &&& (params.workspace_id matches Some(w) ==> trim(w@).len() == 0 || lookup_refusal(
                workspaces,
                Some(trim(w@)),
            ) is None)
        },
        canonical.len() > 0 && !(params.principal_id matches Some(p) && trim(p@).len() > 0) ==> (
        mint_identity_refusal(params, canonical, workspaces) matches Some((code, _)) && code
            == ErrorCode::Unauthorized),
{
    law_named_tools_are_listed_once(canonical);
    if canonical.len() > 0 {
        assert(canonical[0] is Some);
        let tool = canonical[0]->0;
        assert(distinct_tools(canonical).contains(tool@));
    }
}

} // verus!

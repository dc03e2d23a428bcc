//! Principal keys of callers.
use crate::approvals::{answers, Refusal};
use crate::error::{ErrorCode, IpcError};
use crate::exec::{contains_char, holds};
use crate::text::{
    byte_len, chars_of, has_prefix, is_control, is_control_char, join, same_text, starts_with, trim,
    trimmed, utf8_len,
};
use vstd::prelude::*;
use vstd::string::*;

verus! {

/// No character is a colon.
pub open spec fn no_colon(s: Seq<char>) -> bool {
    forall|i: int| 0 <= i < s.len() ==> #[trigger] s[i] != ':'
}

/// A tenant or principal name inside a remote principal key.
pub open spec fn is_remote_part(s: Seq<char>) -> bool {
    s.len() > 0 && no_colon(s) && utf8_len(s) <= 128
}

/// The key of a remote principal.
pub open spec fn remote_key(tenant: Seq<char>, principal: Seq<char>) -> Seq<char> {
    "client:remote:"@ + tenant + seq![':'] + principal
}

/// Remote keys are unambiguous: the same key means the same tenant and the same
/// principal.
pub proof fn law_remote_key_is_unambiguous(
    tenant1: Seq<char>,
    principal1: Seq<char>,
    tenant2: Seq<char>,
    principal2: Seq<char>,
)
    requires
        no_colon(tenant1),
        no_colon(tenant2),
        remote_key(tenant1, principal1) == remote_key(tenant2, principal2),
    ensures
        tenant1 == tenant2,
        principal1 == principal2,
{
    let key1 = remote_key(tenant1, principal1);
    let key2 = remote_key(tenant2, principal2);
    let p = "client:remote:"@.len();
    let n1 = tenant1.len();
    let n2 = tenant2.len();
    assert(key1[(p + n1) as int] == ':');
    assert(key2[(p + n2) as int] == ':');
    if n1 < n2 {
        assert(key2[(p + n1) as int] == tenant2[n1 as int]);
    }
    if n2 < n1 {
        assert(key1[(p + n2) as int] == tenant1[n2 as int]);
    }
    assert(tenant1 =~= key1.subrange(p as int, (p + n1) as int));
    assert(tenant2 =~= key2.subrange(p as int, (p + n2) as int));
    assert(principal1 =~= key1.skip((p + n1 + 1) as int));
    assert(principal2 =~= key2.skip((p + n2 + 1) as int));
}

/// Position of the first colon at or after `from`.
fn next_colon(chars: &Vec<char>, from: usize) -> (at: usize)
    requires
        from <= chars@.len(),
    ensures
        from <= at <= chars@.len(),
        forall|i: int| from <= i < at ==> #[trigger] chars@[i] != ':',
        at < chars@.len() ==> chars@[at as int] == ':',
{
    let mut i: usize = from;
    while i < chars.len()
        invariant
            from <= i <= chars@.len(),
            forall|j: int| from <= j < i ==> #[trigger] chars@[j] != ':',
        decreases chars.len() - i,
    {
        if chars[i] == ':' {
            return i;
        }
        i += 1;
    }
    i
}

/// The text is a remote key of two parts without a colon.
pub open spec fn is_remote_key(value: Seq<char>) -> bool {
    exists|t: Seq<char>, p: Seq<char>|
        no_colon(t) && no_colon(p) && value == #[trigger] remote_key(t, p)
}

/// Takes a remote key apart into tenant and principal, either of which may be
/// empty.
pub fn split_remote_key(value: &str) -> (parts: Option<(&str, &str)>)
    ensures
        match parts {
            Some((tenant, principal)) => no_colon(tenant@) && no_colon(principal@) && value@
                == remote_key(tenant@, principal@),
            None => !is_remote_key(value@),
        },
{
    proof {
        reveal_strlit("client:remote:");
    }
    if !starts_with(value, "client:remote:") {
        proof {
            assert forall|t: Seq<char>, p: Seq<char>| no_colon(t) && no_colon(
                p,
            ) implies value@ != #[trigger] remote_key(t, p) by {
                assert(remote_key(t, p).subrange(0, 14) =~= "client:remote:"@);
            }
        }
        return None;
    }
    let chars = chars_of(value);
    let n: usize = chars.len();
    let colon: usize = next_colon(&chars, 14);
    let ghost tenant_chars = value@.subrange(14, colon as int);
    if colon == n {
        proof {
            assert forall|t: Seq<char>, p: Seq<char>| no_colon(t) && no_colon(
                p,
            ) implies value@ != #[trigger] remote_key(t, p) by {
                assert(remote_key(t, p)[(14 + t.len()) as int] == ':');
            }
        }
        return None;
    }
    let end: usize = next_colon(&chars, colon + 1);
    let tenant = value.substring_char(14, colon);
    let principal = value.substring_char(colon + 1, n);
    proof {
        assert(value@ =~= remote_key(tenant@, principal@)) by {
            assert(value@.subrange(0, 14) == "client:remote:"@);
            assert forall|i: int| 0 <= i < 14 implies value@[i] == "client:remote:"@[i] by {
                assert(value@.subrange(0, 14)[i] == value@[i]);
            }
        }
        assert(no_colon(tenant@));
        assert(end == n ==> no_colon(principal@));
        assert(end < n ==> principal@[end - colon - 1] == ':');
        assert forall|t: Seq<char>, p: Seq<char>| no_colon(t) && no_colon(p) && value@
            == #[trigger] remote_key(t, p) implies t == tenant@ && p == principal@ by {
            law_remote_key_is_unambiguous(t, p, tenant@, principal@);
        }
    }
    if end == n {
        Some((tenant, principal))
    } else {
        None
    }
}

/// Takes the key of a remote principal apart into tenant and principal.
pub fn split_remote_principal(value: &str) -> (parts: Option<(&str, &str)>)
    ensures
        match parts {
            Some((tenant, principal)) => is_remote_part(tenant@) && is_remote_part(principal@)
                && value@ == remote_key(tenant@, principal@),
            None => forall|t: Seq<char>, p: Seq<char>|
                is_remote_part(t) && is_remote_part(p) ==> value@ != #[trigger] remote_key(t, p),
        },
{
    match split_remote_key(value) {
        Some((tenant, principal)) => {
            proof {
                assert forall|t: Seq<char>, p: Seq<char>| is_remote_part(t) && is_remote_part(p)
                    && value@ == #[trigger] remote_key(t, p) implies t == tenant@ && p
                    == principal@ by {
                    law_remote_key_is_unambiguous(t, p, tenant@, principal@);
                }
            }
            if !tenant.is_empty() && !principal.is_empty() && byte_len(tenant) <= 128 && byte_len(
                principal,
            ) <= 128 {
                Some((tenant, principal))
            } else {
                None
            }
        },
        None => None,
    }
}

/// Separator between principal and idempotency key in a journal key.
pub const JOURNAL_KEY_SEPARATOR: char = '\u{1f}';

/// The journal key of a caller's idempotency key.
pub open spec fn journal_key(principal: Seq<char>, idempotency_key: Seq<char>) -> Seq<char> {
    principal + seq![JOURNAL_KEY_SEPARATOR] + idempotency_key
}

/// Builds the journal key, so that receipts never cross principals.
pub fn principal_journal_key(principal: &str, idempotency_key: &str) -> (key: String)
    ensures
        key@ == journal_key(principal@, idempotency_key@),
{
    let mut key = principal.to_owned();
    key.push(JOURNAL_KEY_SEPARATOR);
    key.append(idempotency_key);
    assert(key@ =~= journal_key(principal@, idempotency_key@));
    key
}

/// Journal keys of different principals never collide, as long as no principal
/// holds the separator.
pub proof fn law_journal_keys_are_separate(
    principal1: Seq<char>,
    key1: Seq<char>,
    principal2: Seq<char>,
    key2: Seq<char>,
)
    requires
        !principal1.contains(JOURNAL_KEY_SEPARATOR),
        !principal2.contains(JOURNAL_KEY_SEPARATOR),
        journal_key(principal1, key1) == journal_key(principal2, key2),
    ensures
        principal1 == principal2,
        key1 == key2,
{
    let a = journal_key(principal1, key1);
    let b = journal_key(principal2, key2);
    let n1 = principal1.len() as int;
    let n2 = principal2.len() as int;
    assert(a[n1] == JOURNAL_KEY_SEPARATOR);
    assert(b[n2] == JOURNAL_KEY_SEPARATOR);
    if n1 < n2 {
        assert(b[n1] == principal2[n1]);
    }
    if n2 < n1 {
        assert(a[n2] == principal1[n2]);
    }
    assert(principal1 =~= a.take(n1));
    assert(principal2 =~= b.take(n2));
    assert(key1 =~= a.skip(n1 + 1));
    assert(key2 =~= b.skip(n2 + 1));
}

/// A principal that acts from outside the device. `principal` is canonical.
pub open spec fn is_remote(principal: Seq<char>) -> bool {
    has_prefix(principal, "client:remote:"@) || has_prefix(principal, "client:remote-agent:"@)
}

/// Whether a canonical principal acts from outside the device.
pub fn is_remote_runtime_principal(principal: &str) -> (b: bool)
    ensures
        b == is_remote(principal@),
{
    starts_with(principal, "client:remote:") || starts_with(principal, "client:remote-agent:")
}

/// Why a request that declares a principal of its own is refused.
pub open spec fn spoof_refusal(claimed: Option<Seq<char>>, authenticated: Seq<char>) -> Refusal {
    match claimed {
        Some(c) => if c != authenticated {
            Some(
                (
                    ErrorCode::Unauthorized,
                    "self-reported principal '"@ + c + "' does not match authenticated client '"@
                        + authenticated + "'"@,
                ),
            )
        } else {
            None
        },
        None => None,
    }
}

/// Holds a declared principal to the authenticated one.
pub fn reject_spoofed_principal(claimed: Option<&str>, authenticated: &str) -> (r: Result<
    (),
    IpcError,
>)
    ensures
        answers(
            r,
            spoof_refusal(
                match claimed {
                    Some(c) => Some(c@),
                    None => None,
                },
                authenticated@,
            ),
        ),
{
    if let Some(c) = claimed {
        if !same_text(c, authenticated) {
            let mut message = join("self-reported principal '", c);
            message.append("' does not match authenticated client '");
            message.append(authenticated);
            message.append("'");
            return Err(IpcError::with_message(ErrorCode::Unauthorized, message));
        }
    }
    Ok(())
}

/// Position of the first colon of a text, or its length.
pub open spec fn colon_at(s: Seq<char>) -> int
    decreases s.len(),
{
    if s.len() == 0 || s[0] == ':' {
        0
    } else {
        1 + colon_at(s.skip(1))
    }
}

/// What stands before the first colon of a text.
pub open spec fn before_colon(s: Seq<char>) -> Seq<char> {
    s.take(colon_at(s))
}

/// What stands behind the first colon of a text; nothing where there is none.
pub open spec fn after_colon(s: Seq<char>) -> Seq<char> {
    if colon_at(s) < s.len() {
        s.skip(colon_at(s) + 1)
    } else {
        Seq::empty()
    }
}

/// Where the first colon of a text stands.
proof fn lemma_colon_at(s: Seq<char>, at: int)
    requires
        0 <= at <= s.len(),
        forall|i: int| 0 <= i < at ==> #[trigger] s[i] != ':',
        at < s.len() ==> s[at] == ':',
    ensures
        colon_at(s) == at,
    decreases s.len(),
{
    if s.len() > 0 && s[0] != ':' {
        let rest = s.skip(1);
        assert forall|i: int| 0 <= i < at - 1 implies #[trigger] rest[i] != ':' by {
            assert(rest[i] == s[i + 1]);
        }
        assert(at > 0);
        lemma_colon_at(rest, at - 1);
    } else if s.len() > 0 {
        assert(at == 0);
    }
}

/// No colon stands before the first one.
proof fn lemma_before_colon(s: Seq<char>)
    ensures
        0 <= colon_at(s) <= s.len(),
        no_colon(before_colon(s)),
        colon_at(s) < s.len() ==> s[colon_at(s)] == ':',
    decreases s.len(),
{
    if s.len() > 0 && s[0] != ':' {
        lemma_before_colon(s.skip(1));
        assert forall|i: int| 0 <= i < colon_at(s) implies #[trigger] before_colon(s)[i] != ':' by {
            if i > 0 {
                assert(before_colon(s.skip(1))[i - 1] == s[i]);
            }
        }
    }
}

/// Takes a text apart at its first colon.
fn split_at_colon(s: &str) -> (parts: (&str, &str))
    ensures
        parts.0@ == before_colon(s@),
        parts.1@ == after_colon(s@),
{
    let chars = chars_of(s);
    let n: usize = chars.len();
    let at: usize = next_colon(&chars, 0);
    proof {
        lemma_colon_at(s@, at as int);
        assert(s@.subrange(0, at as int) =~= before_colon(s@));
    }
    let before = s.substring_char(0, at);
    if at < n {
        let after = s.substring_char(at + 1, n);
        assert(s@.subrange(at + 1, n as int) =~= after_colon(s@));
        (before, after)
    } else {
        let after = s.substring_char(n, n);
        assert(after@ =~= after_colon(s@));
        (before, after)
    }
}

/// A character that the target of a hand-off may not hold.
pub open spec fn is_bad_target_char(c: char) -> bool {
    is_control_char(c) || c == '/' || c == '\\' || c == ' '
}

/// The text holds a character that the target of a hand-off may not hold.
pub open spec fn has_bad_target_char(s: Seq<char>) -> bool {
    exists|i: int| 0 <= i < s.len() && is_bad_target_char(#[trigger] s[i])
}

/// Whether a text holds a character that the target of a hand-off may not hold.
fn holds_bad_target_char(s: &str) -> (b: bool)
    ensures
        b == has_bad_target_char(s@),
{
    let chars = chars_of(s);
    let mut i: usize = 0;
    while i < chars.len()
        invariant
            i <= chars@.len(),
            chars@ == s@,
            forall|j: int| 0 <= j < i ==> !is_bad_target_char(#[trigger] s@[j]),
        decreases chars.len() - i,
    {
        let c = chars[i];
        if is_control(c) || c == '/' || c == '\\' || c == ' ' {
            assert(is_bad_target_char(s@[i as int]));
            return true;
        }
        i += 1;
    }
    false
}

/// The tenant that a remote key begins with.
pub open spec fn tenant_of(key: Seq<char>) -> Seq<char> {
    before_colon(key.skip("client:remote:"@.len() as int))
}

/// What a remote key holds behind its tenant.
pub open spec fn principal_of(key: Seq<char>) -> Seq<char> {
    after_colon(key.skip("client:remote:"@.len() as int))
}

/// Why a session is not handed off. `from` and `target` are canonical; `target`
/// stands for the trimmed `to`.
pub open spec fn handoff_target_refusal(
    from: Seq<char>,
    to: Seq<char>,
    target: Seq<char>,
) -> Refusal {
    if trim(to).len() == 0 || utf8_len(trim(to)) > 128 {
        Some(
            (
                ErrorCode::InvalidParams,
                "session.give to must be a non-empty principal id (<=128 chars)"@,
            ),
        )
    } else if has_bad_target_char(trim(to)) {
        Some((ErrorCode::InvalidParams, "session.give to contains invalid characters"@))
    } else if !has_prefix(from, "client:remote:"@) {
        None
    } else if tenant_of(from).len() == 0 {
        Some((ErrorCode::Internal, "authenticated remote principal missing tenant"@))
    } else if has_prefix(target, "client:remote:"@) {
        if tenant_of(target) != tenant_of(from) || principal_of(target).len() == 0 {
            Some(
                (
                    ErrorCode::PolicyDenied,
                    "session.give target must share the controller tenant"@,
                ),
            )
        } else {
            None
        }
    } else if holds(target, ':') {
        Some(
            (
                ErrorCode::InvalidParams,
                "session.give to must be a bare principal id or client:remote:... key"@,
            ),
        )
    } else {
        None
    }
}

/// The principal that a session is handed to.
pub open spec fn handoff_target(from: Seq<char>, target: Seq<char>) -> Seq<char> {
    if !has_prefix(from, "client:remote:"@) {
        target
    } else if has_prefix(target, "client:remote:"@) {
        remote_key(tenant_of(from), principal_of(target))
    } else {
        remote_key(tenant_of(from), target)
    }
}

/// Builds the key of a remote principal.
fn remote_key_of(tenant: &str, principal: &str) -> (key: String)
    ensures
        key@ == remote_key(tenant@, principal@),
{
    proof {
        reveal_strlit(":");
        assert(":"@ =~= seq![':']);
    }
    let mut key = join("client:remote:", tenant);
    key.append(":");
    key.append(principal);
    key
}

/// Takes a remote key apart behind its fixed prefix.
fn tenant_and_principal(key: &str) -> (parts: (&str, &str))
    requires
        has_prefix(key@, "client:remote:"@),
    ensures
        parts.0@ == tenant_of(key@),
        parts.1@ == principal_of(key@),
{
    proof {
        reveal_strlit("client:remote:");
    }
    let n: usize = key.unicode_len();
    let rest = key.substring_char(14, n);
    assert(rest@ =~= key@.skip(14));
    split_at_colon(rest)
}

/// Maps the target of a hand-off into the principals that the caller can reach: a
/// remote caller reaches only those of its own tenant.
pub fn normalize_handoff_target(from: &str, to: &str, target: &str) -> (r: Result<String, IpcError>)
    ensures
        answers(r, handoff_target_refusal(from@, to@, target@)),
        r matches Ok(key) ==> key@ == handoff_target(from@, target@),
{
    let to = trimmed(to);
    if to.as_str().is_empty() || byte_len(to.as_str()) > 128 {
        return Err(
            IpcError::new(
                ErrorCode::InvalidParams,
                "session.give to must be a non-empty principal id (<=128 chars)",
            ),
        );
    }
    if holds_bad_target_char(to.as_str()) {
        return Err(
            IpcError::new(
                ErrorCode::InvalidParams,
                "session.give to contains invalid characters",
            ),
        );
    }
    if !starts_with(from, "client:remote:") {
        return Ok(target.to_owned());
    }
    let (tenant, _) = tenant_and_principal(from);
    if tenant.is_empty() {
        return Err(
            IpcError::new(ErrorCode::Internal, "authenticated remote principal missing tenant"),
        );
    }
    if starts_with(target, "client:remote:") {
        let (to_tenant, to_principal) = tenant_and_principal(target);
        if !same_text(to_tenant, tenant) || to_principal.is_empty() {
            return Err(
                IpcError::new(
                    ErrorCode::PolicyDenied,
                    "session.give target must share the controller tenant",
                ),
            );
        }
        return Ok(remote_key_of(tenant, to_principal));
    }
    if contains_char(target, ':') {
        return Err(
            IpcError::new(
                ErrorCode::InvalidParams,
                "session.give to must be a bare principal id or client:remote:... key",
            ),
        );
    }
    Ok(remote_key_of(tenant, target))
}

/// A remote caller hands a session only to principals of its own tenant.
pub proof fn law_handoff_stays_in_the_tenant(from: Seq<char>, to: Seq<char>, target: Seq<char>)
    requires
        has_prefix(from, "client:remote:"@),
        handoff_target_refusal(from, to, target) is None,
    ensures
        has_prefix(handoff_target(from, target), "client:remote:"@),
        tenant_of(handoff_target(from, target)) == tenant_of(from),
{
    let tenant = tenant_of(from);
    let principal = if has_prefix(target, "client:remote:"@) {
        principal_of(target)
    } else {
        target
    };
    let key = remote_key(tenant, principal);
    let p = "client:remote:"@.len() as int;
    lemma_before_colon(from.skip(p));
    assert(key.subrange(0, p) =~= "client:remote:"@);
    let rest = key.skip(p);
    assert(rest =~= tenant + seq![':'] + principal);
    lemma_colon_at(rest, tenant.len() as int);
    assert(before_colon(rest) =~= tenant);
}

/// The key of a remote principal is the fixed prefix, the tenant, a colon and the
/// principal; its parts are found again.
pub proof fn law_remote_keys_are_taken_apart(tenant: Seq<char>, principal: Seq<char>)
    requires
        no_colon(tenant),
    ensures
        remote_key(tenant, principal) == "client:remote:"@ + tenant + seq![':'] + principal,
        tenant_of(remote_key(tenant, principal)) == tenant,
        principal_of(remote_key(tenant, principal)) == principal,
        is_remote(remote_key(tenant, principal)),
{
    let key = remote_key(tenant, principal);
    let rest = key.skip("client:remote:"@.len() as int);
    assert(rest =~= tenant + seq![':'] + principal);
    lemma_first_colon(rest, tenant.len() as int);
    assert(before_colon(rest) =~= tenant);
    assert(after_colon(rest) =~= principal);
    assert(key.subrange(0, "client:remote:"@.len() as int) =~= "client:remote:"@);
}

/// The first colon is where no character before it is one.
proof fn lemma_first_colon(s: Seq<char>, at: int)
    requires
        0 <= at < s.len(),
        s[at] == ':',
        forall|i: int| 0 <= i < at ==> #[trigger] s[i] != ':',
    ensures
        colon_at(s) == at,
    decreases s.len(),
{
    if at > 0 {
        assert(s[0] != ':');
        assert forall|i: int| 0 <= i < at - 1 implies #[trigger] s.skip(1)[i] != ':' by {
            assert(s[i + 1] != ':');
        }
        lemma_first_colon(s.skip(1), at - 1);
    }
}

/// A part of a remote key is there, has no colon and at most 128 bytes.
pub proof fn law_remote_parts_are_bounded(s: Seq<char>)
    ensures
        is_remote_part(s) <==> s.len() > 0 && !s.contains(':') && utf8_len(s) <= 128,
{
    if is_remote_part(s) && s.contains(':') {
        let i = choose|i: int| 0 <= i < s.len() && s[i] == ':';
        assert(s[i] != ':');
    }
    if s.len() > 0 && !s.contains(':') {
        assert forall|i: int| 0 <= i < s.len() implies #[trigger] s[i] != ':' by {
            if s[i] == ':' {
                assert(s.contains(':'));
            }
        }
    }
}

/// A journal key holds the principal and the key that it named, parted by the unit
/// separator.
pub proof fn law_journal_keys_hold_both_parts(principal: Seq<char>, key: Seq<char>)
    ensures
        journal_key(principal, key).len() == principal.len() + 1 + key.len(),
        journal_key(principal, key).take(principal.len() as int) == principal,
        journal_key(principal, key)[principal.len() as int] == '\u{1f}',
        journal_key(principal, key).skip(principal.len() as int + 1) == key,
{
    assert(journal_key(principal, key).take(principal.len() as int) =~= principal);
    assert(journal_key(principal, key).skip(principal.len() as int + 1) =~= key);
}

/// A caller that says who it is has to be that one.
pub proof fn law_callers_are_who_they_say(claimed: Option<Seq<char>>, authenticated: Seq<char>)
    ensures
        spoof_refusal(claimed, authenticated) is None <==> (claimed matches Some(c) ==> c
            == authenticated),
        spoof_refusal(claimed, authenticated) matches Some((code, _)) ==> code
            == ErrorCode::Unauthorized,
{
}

/// Control is given to a principal that is named in at most 128 bytes without control
/// characters, slashes or blanks; by a remote controller only within its tenant.
pub proof fn law_handoffs_name_a_principal(from: Seq<char>, to: Seq<char>, target: Seq<char>)
    requires
        handoff_target_refusal(from, to, target) is None,
    ensures
        0 < trim(to).len(),
        utf8_len(trim(to)) <= 128,
        forall|i: int|
            0 <= i < trim(to).len() ==> !is_control_char(#[trigger] trim(to)[i]) && trim(to)[i]
                != '/' && trim(to)[i] != '\\' && trim(to)[i] != ' ',
        !has_prefix(from, "client:remote:"@) ==> handoff_target(from, target) == target,
        has_prefix(from, "client:remote:"@) && !has_prefix(target, "client:remote:"@)
            ==> handoff_target(from, target) == "client:remote:"@ + tenant_of(from) + seq![':']
            + target && !target.contains(':'),
        has_prefix(from, "client:remote:"@) && has_prefix(target, "client:remote:"@)
            ==> tenant_of(target) == tenant_of(from) && principal_of(target).len() > 0
            && handoff_target(from, target) == "client:remote:"@ + tenant_of(from) + seq![':']
            + principal_of(target),
{
    assert forall|i: int| 0 <= i < trim(to).len() implies !is_control_char(#[trigger] trim(to)[i])
        && trim(to)[i] != '/' && trim(to)[i] != '\\' && trim(to)[i] != ' ' by {
        if is_bad_target_char(trim(to)[i]) {
            assert(has_bad_target_char(trim(to)));
        }
    }
    if target.contains(':') {
        let i = choose|i: int| 0 <= i < target.len() && target[i] == ':';
        assert(target[i] == ':');
        assert(holds(target, ':'));
    }
}

} // verus!

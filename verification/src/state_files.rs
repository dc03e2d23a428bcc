//! Budgets of the state files that the daemon starts from.
use crate::approvals::answers;
use crate::codec::{decode_texts, encode_texts, parsed_texts};
use crate::error::{ErrorCode, IpcError};
use crate::text::{
    byte_len, decimal, join, join3, lists, same_text, texts, unsigned_decimal, utf8_len,
};
use crate::textset::{increasing, TextSet};
use crate::workspace::{lemma_text_less_total, lemma_text_less_transitive, text_less};
use vstd::prelude::*;
use vstd::string::*;

verus! {

/// Most bytes of the grants file.
pub const MAX_GRANTS_FILE_BYTES: u64 = 1_048_576;

/// Most grants.
pub const MAX_GRANTS_ENTRIES: usize = 4096;

/// Most bytes of the approvals file.
pub const MAX_APPROVALS_FILE_BYTES: u64 = 4_194_304;

/// Most approvals.
pub const MAX_APPROVALS_ENTRIES: usize = 4096;

/// Most bytes of one approval.
pub const MAX_APPROVAL_VALUE_BYTES: usize = 65_536;

/// Most bytes of the file of revoked principals.
pub const MAX_REVOKED_FILE_BYTES: u64 = 1_048_576;

/// Most revoked principals.
pub const MAX_REVOKED_ENTRIES: usize = 16_384;

/// Most bytes of one revoked principal.
pub const MAX_REVOKED_PRINCIPAL_BYTES: usize = 1024;

/// What was found of a state file.
#[derive(Debug)]
pub enum StateFile {
    Missing,
    /// Its length could not be told.
    StatFailed(String),
    /// It is there, with a length; nothing was read yet.
    Sized(u64),
    /// It could not be read.
    ReadFailed(String),
    /// It was read: so many bytes came.
    Read(u64),
}

/// Why a state file is refused.
pub open spec fn state_file_refusal(
    file: StateFile,
    max_bytes: u64,
    label: Seq<char>,
    path: Seq<char>,
) -> Option<Seq<char>> {
    match file {
        StateFile::Missing => None,
        StateFile::StatFailed(e) => Some("failed to stat "@ + label + " "@ + path + ": "@ + e@),
        StateFile::Sized(len) => if len > max_bytes {
            Some(
                label + " "@ + path + " exceeds "@ + decimal(max_bytes as int) + " byte budget ("@
                    + decimal(len as int) + ")"@,
            )
        } else {
            None
        },
        StateFile::ReadFailed(e) => Some("failed to read "@ + label + " "@ + path + ": "@ + e@),
        StateFile::Read(len) => if len > max_bytes {
            Some(
                label + " "@ + path + " exceeds "@ + decimal(max_bytes as int)
                    + " byte budget after read"@,
            )
        } else {
            None
        },
    }
}

/// The result tells of the refusal, or there is none.
pub open spec fn tells_of<T>(r: Result<T, String>, refusal: Option<Seq<char>>) -> bool {
    match refusal {
        Some(message) => r matches Err(e) && e@ == message,
        None => r is Ok,
    }
}

/// Holds a state file to its budget, before and after it is read.
pub fn read_bounded_state_file(file: &StateFile, max_bytes: u64, label: &str, path: &str) -> (r:
    Result<(), String>)
    ensures
        tells_of(r, state_file_refusal(*file, max_bytes, label@, path@)),
{
    match file {
        StateFile::Missing => Ok(()),
        StateFile::StatFailed(e) => {
            let mut message = join3("failed to stat ", label, " ");
            message.append(path);
            message.append(": ");
            message.append(e.as_str());
            Err(message)
        },
        StateFile::Sized(len) => {
            if *len > max_bytes {
                let mut message = join3(label, " ", path);
                message.append(" exceeds ");
                message.append(unsigned_decimal(max_bytes).as_str());
                message.append(" byte budget (");
                message.append(unsigned_decimal(*len).as_str());
                message.append(")");
                Err(message)
            } else {
                Ok(())
            }
        },
        StateFile::ReadFailed(e) => {
            let mut message = join3("failed to read ", label, " ");
            message.append(path);
            message.append(": ");
            message.append(e.as_str());
            Err(message)
        },
        StateFile::Read(len) => {
            if *len > max_bytes {
                let mut message = join3(label, " ", path);
                message.append(" exceeds ");
                message.append(unsigned_decimal(max_bytes).as_str());
                message.append(" byte budget after read");
                Err(message)
            } else {
                Ok(())
            }
        },
    }
}

/// Why a state with too many entries is refused.
pub open spec fn entries_refusal(
    what: Seq<char>,
    path: Seq<char>,
    max: Seq<char>,
    limit: int,
    len: int,
) -> Option<Seq<char>> {
    if len > limit {
        Some(
            what + " "@ + path + " exceeds "@ + max + " entry budget ("@ + decimal(len) + ")"@,
        )
    } else {
        None
    }
}

/// Holds a state to its number of entries.
fn check_entries(what: &str, path: &str, max: &str, limit: usize, len: usize) -> (r: Result<
    (),
    String,
>)
    ensures
        tells_of(r, entries_refusal(what@, path@, max@, limit as int, len as int)),
{
    if len > limit {
        let mut message = join3(what, " ", path);
        message.append(" exceeds ");
        message.append(max);
        message.append(" entry budget (");
        message.append(unsigned_decimal(len as u64).as_str());
        message.append(")");
        Err(message)
    } else {
        Ok(())
    }
}

/// Holds the grants to their number.
pub fn load_grants(path: &str, len: usize) -> (r: Result<(), String>)
    ensures
        tells_of(
            r,
            entries_refusal("grants state"@, path@, "4096"@, MAX_GRANTS_ENTRIES as int, len as int),
        ),
{
    check_entries("grants state", path, "4096", MAX_GRANTS_ENTRIES, len)
}

/// One approval as it was found: its key, and its size or why it has none.
#[derive(Debug)]
pub struct ApprovalSize {
    pub key: String,
    pub bytes: Result<usize, String>,
}

/// Why one approval is refused.
pub open spec fn approval_fault(path: Seq<char>, size: ApprovalSize) -> Option<Seq<char>> {
    match size.bytes {
        Err(e) => Some(
            "approval state "@ + path + " entry "@ + size.key@ + " re-serialize failed: "@ + e@,
        ),
        Ok(n) => if n > MAX_APPROVAL_VALUE_BYTES {
            Some(
                "approval state "@ + path + " entry "@ + size.key@
                    + " exceeds 65536 byte budget ("@ + decimal(n as int) + ")"@,
            )
        } else {
            None
        },
    }
}

/// Why the approvals from one on are refused: the first that is.
pub open spec fn approvals_fault_from(
    path: Seq<char>,
    sizes: Seq<ApprovalSize>,
    k: int,
) -> Option<Seq<char>>
    decreases sizes.len() - k,
{
    if k >= sizes.len() {
        None
    } else if approval_fault(path, sizes[k]) is Some {
        approval_fault(path, sizes[k])
    } else {
        approvals_fault_from(path, sizes, k + 1)
    }
}

/// Why the approvals are refused.
pub open spec fn approvals_fault(path: Seq<char>, sizes: Seq<ApprovalSize>) -> Option<Seq<char>> {
    let count = entries_refusal(
        "approval state"@,
        path,
        "4096"@,
        MAX_APPROVALS_ENTRIES as int,
        sizes.len() as int,
    );
    if count is Some {
        count
    } else {
        approvals_fault_from(path, sizes, 0)
    }
}

/// Holds one approval to its size.
fn check_approval(path: &str, size: &ApprovalSize) -> (r: Result<(), String>)
    ensures
        tells_of(r, approval_fault(path@, *size)),
{
    match &size.bytes {
        Err(e) => {
            let mut message = join3("approval state ", path, " entry ");
            message.append(size.key.as_str());
            message.append(" re-serialize failed: ");
            message.append(e.as_str());
            Err(message)
        },
        Ok(n) => {
            if *n > MAX_APPROVAL_VALUE_BYTES {
                let mut message = join3("approval state ", path, " entry ");
                message.append(size.key.as_str());
                message.append(" exceeds 65536 byte budget (");
                message.append(unsigned_decimal(*n as u64).as_str());
                message.append(")");
                Err(message)
            } else {
                Ok(())
            }
        },
    }
}

/// Holds the approvals to their number and sizes, in the order given.
pub fn load_approvals(path: &str, sizes: &Vec<ApprovalSize>) -> (r: Result<(), String>)
    ensures
        tells_of(r, approvals_fault(path@, sizes@)),
{
    match check_entries("approval state", path, "4096", MAX_APPROVALS_ENTRIES, sizes.len()) {
        Ok(()) => {},
        Err(e) => {
            return Err(e);
        },
    }
    let mut i: usize = 0;
    while i < sizes.len()
        invariant
            i <= sizes@.len(),
            approvals_fault(path@, sizes@) == approvals_fault_from(path@, sizes@, i as int),
        decreases sizes.len() - i,
    {
        match check_approval(path, &sizes[i]) {
            Ok(()) => {},
            Err(e) => {
                return Err(e);
            },
        }
        i += 1;
    }
    Ok(())
}

/// Why one stored principal is refused.
pub open spec fn revoked_fault(
    path: Seq<char>,
    stored: Seq<char>,
    canonical: Seq<char>,
) -> Option<Seq<char>> {
    if utf8_len(stored) > MAX_REVOKED_PRINCIPAL_BYTES {
        Some("corrupt revoked client state "@ + path + ": principal exceeds 1024 bytes"@)
    } else if canonical.len() == 0 {
        Some("corrupt revoked client state "@ + path + ": empty client identity"@)
    } else {
        None
    }
}

/// Why the stored principals from one on are refused: the first that is.
pub open spec fn revoked_fault_from(
    path: Seq<char>,
    stored: Seq<String>,
    canonical: Seq<String>,
    k: int,
) -> Option<Seq<char>>
    decreases stored.len() - k,
{
    if k >= stored.len() {
        None
    } else if revoked_fault(path, stored[k]@, canonical[k]@) is Some {
        revoked_fault(path, stored[k]@, canonical[k]@)
    } else {
        revoked_fault_from(path, stored, canonical, k + 1)
    }
}

/// Why the list of revoked principals is refused.
pub open spec fn revoked_list_fault(
    path: Seq<char>,
    stored: Seq<String>,
    canonical: Seq<String>,
) -> Option<Seq<char>> {
    let count = entries_refusal(
        "revoked client state"@,
        path,
        "16384"@,
        MAX_REVOKED_ENTRIES as int,
        stored.len() as int,
    );
    if count is Some {
        count
    } else {
        revoked_fault_from(path, stored, canonical, 0)
    }
}

/// The two lists hold the same texts in the same order.
pub open spec fn same_texts(a: Seq<String>, b: Seq<String>) -> bool {
    a.len() == b.len() && forall|i: int| 0 <= i < a.len() ==> (#[trigger] a[i])@ == b[i]@
}

/// Whether two lists hold the same texts in the same order.
fn texts_agree(a: &Vec<String>, b: &Vec<String>) -> (same: bool)
    ensures
        same == same_texts(a@, b@),
{
    if a.len() != b.len() {
        return false;
    }
    let mut i: usize = 0;
    while i < a.len()
        invariant
            i <= a@.len(),
            a@.len() == b@.len(),
            forall|j: int| 0 <= j < i ==> (#[trigger] a@[j])@ == b@[j]@,
        decreases a.len() - i,
    {
        if !same_text(a[i].as_str(), b[i].as_str()) {
            assert(a@[i as int]@ != b@[i as int]@);
            return false;
        }
        i += 1;
    }
    true
}

/// The principals that a file of revoked principals lists; an empty file lists none.
pub open spec fn revoked_texts(raw: Seq<u8>) -> Result<Seq<Seq<char>>, Seq<char>> {
    if raw.len() == 0 {
        Ok(Seq::empty())
    } else {
        parsed_texts(raw)
    }
}

/// Reads a file of revoked principals.
pub fn read_revoked(raw: &[u8], path: &str) -> (r: Result<Vec<String>, String>)
    ensures
        match revoked_texts(raw@) {
            Ok(list) => r matches Ok(out) && texts(out@) == list,
            Err(fault) => r matches Err(e) && e@ == "corrupt revoked client state "@ + path@
                + ": "@ + fault,
        },
{
    if raw.len() == 0 {
        let none: Vec<String> = Vec::new();
        assert(texts(none@) =~= Seq::empty());
        return Ok(none);
    }
    match decode_texts(raw) {
        Ok(list) => Ok(list),
        Err(fault) => {
            let mut message = join3("corrupt revoked client state ", path, ": ");
            message.append(fault.as_str());
            Err(message)
        },
    }
}

/// The file of a list of revoked principals, which reads back as that list.
pub fn revoked_file(list: &Vec<String>) -> (bytes: Vec<u8>)
    ensures
        revoked_texts(bytes@) == Ok::<Seq<Seq<char>>, Seq<char>>(texts(list@)),
{
    encode_texts(list)
}

/// The error of a list that could not be rewritten in canonical form.
pub fn canonicalize_error(path: &str, detail: &str) -> (message: String)
    ensures
        message@ == "failed to canonicalize revoked client state "@ + path@ + ": "@ + detail@,
{
    let mut message = join3("failed to canonicalize revoked client state ", path, ": ");
    message.append(detail);
    message
}

/// Takes over the stored list of revoked principals; `canonical` holds the
/// canonical form of each. The second part of the result says whether the file
/// has to be rewritten: its list is not the set in alphabetical order.
pub fn load_revoked(path: &str, stored: &Vec<String>, canonical: &Vec<String>) -> (r: Result<
    (TextSet, bool),
    String,
>)
    requires
        stored@.len() == canonical@.len(),
    ensures
        tells_of(r, revoked_list_fault(path@, stored@, canonical@)),
        r matches Ok((set, rewrite)) ==> {
            &&& forall|s: Seq<char>| #[trigger]
                set.has(s) <==> exists|i: int|
                    0 <= i < canonical@.len() && (#[trigger] canonical@[i])@ == s
            &&& increasing(set.items())
            &&& rewrite == !same_texts(stored@, set.items())
        },
{
    match check_entries(
        "revoked client state",
        path,
        "16384",
        MAX_REVOKED_ENTRIES,
        stored.len(),
    ) {
        Ok(()) => {},
        Err(e) => {
            return Err(e);
        },
    }
    let mut set = TextSet::new();
    let mut i: usize = 0;
    while i < stored.len()
        invariant
            i <= stored@.len(),
            stored@.len() == canonical@.len(),
            revoked_list_fault(path@, stored@, canonical@) == revoked_fault_from(
                path@,
                stored@,
                canonical@,
                i as int,
            ),
            forall|s: Seq<char>| #[trigger]
                set.has(s) <==> exists|j: int|
                    0 <= j < i && (#[trigger] canonical@[j])@ == s,
        decreases stored.len() - i,
    {
        if byte_len(stored[i].as_str()) > MAX_REVOKED_PRINCIPAL_BYTES {
            return Err(
                join3("corrupt revoked client state ", path, ": principal exceeds 1024 bytes"),
            );
        }
        if canonical[i].as_str().is_empty() {
            return Err(join3("corrupt revoked client state ", path, ": empty client identity"));
        }
        let ghost before = set;
        let _ = set.insert(canonical[i].clone());
        assert forall|s: Seq<char>| #[trigger] set.has(s) <==> exists|j: int|
            0 <= j < i + 1 && (#[trigger] canonical@[j])@ == s by {
            assert(set.has(s) <==> before.has(s) || s == canonical@[i as int]@);
            if before.has(s) {
                let j = choose|j: int| 0 <= j < i && (#[trigger] canonical@[j])@ == s;
                assert(0 <= j < i + 1);
            }
            if s == canonical@[i as int]@ {
                assert(canonical@[i as int]@ == s);
            }
        }
        i += 1;
    }
    let rewrite = !texts_agree(stored, set.as_vec());
    Ok((set, rewrite))
}

/// The principals as their file holds them, or none where the state holds an
/// empty one.
pub fn persist_revoked(revoked: &TextSet) -> (r: Result<&Vec<String>, IpcError>)
    ensures
        answers(
            r,
            if revoked.has(Seq::empty()) {
                Some(
                    (
                        ErrorCode::Internal,
                        "revoked clients contain an empty canonical principal"@,
                    ),
                )
            } else {
                None
            },
        ),
        r matches Ok(list) ==> list@ == revoked.items() && increasing(list@),
{
    proof {
        reveal_strlit("");
        assert(""@ =~= Seq::<char>::empty());
    }
    if revoked.contains("") {
        return Err(
            IpcError::new(
                ErrorCode::Internal,
                "revoked clients contain an empty canonical principal",
            ),
        );
    }
    Ok(revoked.as_vec())
}

/// Two ordered lists of the same texts agree up to a position.
proof fn lemma_ordered_lists_agree(a: Seq<String>, b: Seq<String>, k: int)
    requires
        increasing(a),
        increasing(b),
        forall|s: Seq<char>| #[trigger] lists(a, s) <==> lists(b, s),
        0 <= k <= a.len(),
    ensures
        k <= b.len(),
        forall|i: int| 0 <= i < k ==> (#[trigger] a[i])@ == b[i]@,
    decreases k,
{
    if k > 0 {
        lemma_ordered_lists_agree(a, b, k - 1);
        let x = a[k - 1]@;
        assert(lists(a, x));
        assert(lists(b, x));
        let j = choose|j: int| 0 <= j < b.len() && #[trigger] b[j]@ == x;
        if j < k - 1 {
            assert(a[j]@ == b[j]@);
            lemma_text_less_total(a[j]@, x);
        } else if j > k - 1 {
            let y = b[k - 1]@;
            assert(text_less(y, x));
            assert(lists(b, y));
            assert(lists(a, y));
            let i = choose|i: int| 0 <= i < a.len() && #[trigger] a[i]@ == y;
            lemma_text_less_total(y, x);
            if i < k - 1 {
                assert(b[i]@ == y);
                lemma_text_less_total(b[i]@, y);
            } else if i > k - 1 {
                assert(text_less(x, y));
                lemma_text_less_transitive(x, y, x);
                lemma_text_less_total(x, x);
            }
        }
    }
}

/// A list of canonical principals that was written is read and loaded as it was, and
/// needs no rewriting.
pub proof fn law_written_revocations_are_not_rewritten(
    written: Seq<String>,
    bytes: Seq<u8>,
    stored: Seq<String>,
    loaded: Seq<String>,
)
    requires
        increasing(written),
        revoked_texts(bytes) == Ok::<Seq<Seq<char>>, Seq<char>>(texts(written)),
        revoked_texts(bytes) == Ok::<Seq<Seq<char>>, Seq<char>>(texts(stored)),
        increasing(loaded),
        forall|s: Seq<char>| #[trigger] lists(loaded, s) <==> lists(stored, s),
    ensures
        same_texts(stored, loaded),
        same_texts(written, loaded),
{
    assert(texts(stored).len() == texts(written).len());
    assert forall|i: int| 0 <= i < stored.len() implies (#[trigger] stored[i])@ == written[i]@ by {
        assert(texts(stored)[i] == texts(written)[i]);
    }
    assert(increasing(stored)) by {
        assert forall|i: int, j: int| 0 <= i < j < stored.len() implies text_less(
            (#[trigger] stored[i])@,
            (#[trigger] stored[j])@,
        ) by {
            assert(text_less(written[i]@, written[j]@));
        }
    }
    lemma_ordered_lists_agree(stored, loaded, stored.len() as int);
    lemma_ordered_lists_agree(loaded, stored, loaded.len() as int);
}

/// What could not be written.
#[derive(Debug, Clone, Copy, PartialEq, Eq, Structural)]
pub enum PersistTarget {
    Approvals,
    Grants,
    LockdownFlag,
    /// The flag could not be removed.
    LockdownFlagCleared,
    OpJournal,
    RevokedClients,
    Sessions,
}

/// Beginning of the error of a failed write.
pub open spec fn persist_text(target: PersistTarget) -> Seq<char> {
    match target {
        PersistTarget::Approvals => "failed to persist approvals: "@,
        PersistTarget::Grants => "failed to persist grants: "@,
        PersistTarget::LockdownFlag => "failed to persist lockdown flag: "@,
        PersistTarget::LockdownFlagCleared => "failed to clear lockdown flag: "@,
        PersistTarget::OpJournal => "failed to persist op journal: "@,
        PersistTarget::RevokedClients => "failed to persist revoked clients: "@,
        PersistTarget::Sessions => "session persist failed: "@,
    }
}

/// The error of a failed write.
pub fn persist_error(target: PersistTarget, message: &str) -> (e: IpcError)
    ensures
        e.is(ErrorCode::Internal, persist_text(target) + message@),
{
    let text = match target {
        PersistTarget::Approvals => "failed to persist approvals: ",
        PersistTarget::Grants => "failed to persist grants: ",
        PersistTarget::LockdownFlag => "failed to persist lockdown flag: ",
        PersistTarget::LockdownFlagCleared => "failed to clear lockdown flag: ",
        PersistTarget::OpJournal => "failed to persist op journal: ",
        PersistTarget::RevokedClients => "failed to persist revoked clients: ",
        PersistTarget::Sessions => "session persist failed: ",
    };
    IpcError::with_message(ErrorCode::Internal, join(text, message))
}

/// A state file is refused exactly where it cannot be told or read, or where it is, or
/// was read, longer than its budget; one that is missing is not.
pub proof fn law_state_files_are_bounded(
    file: StateFile,
    max_bytes: u64,
    label: Seq<char>,
    path: Seq<char>,
)
    ensures
        state_file_refusal(file, max_bytes, label, path) is None <==> match file {
            StateFile::Missing => true,
            StateFile::StatFailed(_) => false,
            StateFile::Sized(len) => len <= max_bytes,
            StateFile::ReadFailed(_) => false,
            StateFile::Read(len) => len <= max_bytes,
        },
{
}

/// A list of grants is loaded where it has at most 4 096 entries, and a list of
/// approvals where it has no more either and each of them takes at most 65 536 bytes.
pub proof fn law_approval_files_are_bounded(path: Seq<char>, sizes: Seq<ApprovalSize>, n: int)
    ensures
        entries_refusal("grants state"@, path, "4096"@, MAX_GRANTS_ENTRIES as int, n) is None <==> n
            <= 4096,
        approvals_fault(path, sizes) is None <==> sizes.len() <= 4096 && forall|i: int|
            0 <= i < sizes.len() ==> ((#[trigger] sizes[i]).bytes matches Ok(bytes) && bytes
                <= 65_536),
{
    lemma_approvals_fault_from(path, sizes, 0);
}

/// No fault is left from a position exactly where no entry from there has one.
proof fn lemma_approvals_fault_from(path: Seq<char>, sizes: Seq<ApprovalSize>, k: int)
    requires
        k >= 0,
    ensures
        approvals_fault_from(path, sizes, k) is None <==> forall|i: int|
            k <= i < sizes.len() ==> ((#[trigger] sizes[i]).bytes matches Ok(bytes) && bytes
                <= 65_536),
    decreases sizes.len() - k,
{
    if k < sizes.len() {
        lemma_approvals_fault_from(path, sizes, k + 1);
        if approval_fault(path, sizes[k]) is None {
            assert forall|i: int| k <= i < sizes.len() && approvals_fault_from(path, sizes, k + 1) is None implies (
            (#[trigger] sizes[i]).bytes matches Ok(bytes) && bytes <= 65_536) by {
                if i > k {
                    assert(k + 1 <= i);
                }
            }
        } else {
            assert(!(sizes[k].bytes matches Ok(bytes) && bytes <= 65_536));
        }
    }
}

/// A list of revoked principals is loaded where it has at most 16 384 entries, each of
/// at most 1 024 bytes and none without a canonical name.
pub proof fn law_revocation_files_are_bounded(
    path: Seq<char>,
    stored: Seq<String>,
    canonical: Seq<String>,
)
    requires
        stored.len() == canonical.len(),
    ensures
        revoked_list_fault(path, stored, canonical) is None <==> stored.len() <= 16_384
            && forall|i: int|
            0 <= i < stored.len() ==> utf8_len((#[trigger] stored[i])@) <= 1024
                && canonical[i]@.len() > 0,
{
    lemma_revoked_fault_from(path, stored, canonical, 0);
}

/// No fault is left from a position exactly where no entry from there has one.
proof fn lemma_revoked_fault_from(
    path: Seq<char>,
    stored: Seq<String>,
    canonical: Seq<String>,
    k: int,
)
    requires
        k >= 0,
    ensures
        revoked_fault_from(path, stored, canonical, k) is None <==> forall|i: int|
            k <= i < stored.len() ==> utf8_len((#[trigger] stored[i])@) <= 1024
                && canonical[i]@.len() > 0,
    decreases stored.len() - k,
{
    if k < stored.len() {
        lemma_revoked_fault_from(path, stored, canonical, k + 1);
        if revoked_fault(path, stored[k]@, canonical[k]@) is None {
            assert forall|i: int|
                k <= i < stored.len() && revoked_fault_from(path, stored, canonical, k + 1) is None implies utf8_len(
                (#[trigger] stored[i])@,
            ) <= 1024 && canonical[i]@.len() > 0 by {
                if i > k {
                    assert(k + 1 <= i);
                }
            }
        } else {
            assert(!(utf8_len(stored[k]@) <= 1024 && canonical[k]@.len() > 0));
        }
    }
}

/// A file of revoked principals that is empty lists nobody.
pub proof fn law_empty_revocation_files_list_nobody(raw: Seq<u8>)
    ensures
        raw.len() == 0 ==> revoked_texts(raw) == Ok::<Seq<Seq<char>>, Seq<char>>(Seq::empty()),
        raw.len() > 0 ==> revoked_texts(raw) == parsed_texts(raw),
{
}

} // verus!

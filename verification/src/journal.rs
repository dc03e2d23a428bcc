//! The operation journal: exact-once receipts keyed by idempotency key.
//!
//! An entry is an in-progress marker, a completed receipt or anything else.
//! Only an entry that is provably a completed receipt may be compacted, aged
//! out or replayed; every other one is kept verbatim and refuses a retry.
use crate::json::{
    distinct_entries, lemma_entry_is_mapped, lemma_mapped_key_has_entry, lemma_rewritten_entries,
    Json, JsonObject, JsonV,
};
use crate::text::{byte_len, same_text, utf8_len};
use vstd::prelude::*;

verus! {

/// Marker field of an entry whose operation has not ended.
pub const OP_JOURNAL_STATE_FIELD: &'static str = "__ownmesh_operation_state";

/// Value of the marker field while an operation runs.
pub const OP_JOURNAL_IN_PROGRESS: &'static str = "in_progress";

/// Completion time of a receipt, in seconds since the epoch.
pub const OP_JOURNAL_COMPLETED_UNIX_FIELD: &'static str = "__ownmesh_completed_unix";

/// Entries that the journal may hold.
pub const MAX_OP_JOURNAL_ENTRIES: usize = 4096;

/// Bytes that the durable journal may take.
pub const MAX_OP_JOURNAL_FILE_BYTES: usize = 4194304;

/// Bytes of a journal file that are read before compaction.
pub const MAX_LEGACY_READ_BYTES: u64 = 16777216;

/// Seconds for which a completed receipt is replayed.
pub const OP_JOURNAL_COMPLETED_TTL_SECS: i64 = 2592000;

/// What is known of an entry.
#[derive(Debug, Clone, Copy, PartialEq, Eq, Structural)]
pub enum OpJournalEntryState {
    /// The exact-once marker of an operation that has not ended.
    InProgress,
    /// Neither the marker nor provably a receipt.
    Uncertain,
    /// Provably the receipt of an operation that ended.
    Completed,
}

/// The object names a non-empty operation.
pub open spec fn names_operation(entry: JsonV) -> bool {
    entry.get_str("operation_id"@) matches Some(id) && id.len() > 0
}

/// A result body of an early version: it names its operation and holds a
/// decision, an approval flag or a review.
pub open spec fn is_result_body(entry: JsonV) -> bool {
    &&& names_operation(entry)
    &&& {
        ||| entry.get_str("decision"@) matches Some(d) && d.len() > 0
        ||| entry.get_bool("approval_required"@) is Some
        ||| entry.get_str("review_id"@) matches Some(r) && r.len() > 0
    }
}

/// Classification of an entry.
pub open spec fn entry_state(entry: JsonV) -> OpJournalEntryState {
    if !(entry is Object) {
        OpJournalEntryState::Uncertain
    } else {
        match entry.get(OP_JOURNAL_STATE_FIELD@) {
            None => if entry.get_bool("durable_receipt"@) == Some(true) && names_operation(entry)
                || is_result_body(entry) {
                OpJournalEntryState::Completed
            } else {
                OpJournalEntryState::Uncertain
            },
            Some(JsonV::Str(state)) => if state == OP_JOURNAL_IN_PROGRESS@ {
                OpJournalEntryState::InProgress
            } else if state == "completed"@ && names_operation(entry) {
                OpJournalEntryState::Completed
            } else {
                OpJournalEntryState::Uncertain
            },
            Some(_) => OpJournalEntryState::Uncertain,
        }
    }
}

/// Whether an object names a non-empty operation.
pub fn has_exact_once_operation_id(entry: &Json) -> (b: bool)
    ensures
        b == names_operation(entry@),
{
    match entry.get_str("operation_id") {
        Some(id) => !id.is_empty(),
        None => false,
    }
}

/// Whether an object is a result body of an early version.
pub fn legacy_completed_body(entry: &Json) -> (b: bool)
    ensures
        b == is_result_body(entry@),
{
    if !has_exact_once_operation_id(entry) {
        return false;
    }
    let has_decision = match entry.get_str("decision") {
        Some(d) => !d.is_empty(),
        None => false,
    };
    let has_approval_flag = entry.get_bool("approval_required").is_some();
    let has_review_id = match entry.get_str("review_id") {
        Some(r) => !r.is_empty(),
        None => false,
    };
    has_decision || has_approval_flag || has_review_id
}

/// Classifies an entry.
pub fn op_journal_entry_state(entry: &Json) -> (state: OpJournalEntryState)
    ensures
        state == entry_state(entry@),
{
    if !matches!(entry, Json::Object(_)) {
        return OpJournalEntryState::Uncertain;
    }
    match entry.get(OP_JOURNAL_STATE_FIELD) {
        None => {
            if entry.get_bool("durable_receipt") == Some(true) && has_exact_once_operation_id(
                entry,
            ) {
                return OpJournalEntryState::Completed;
            }
            if legacy_completed_body(entry) {
                return OpJournalEntryState::Completed;
            }
            OpJournalEntryState::Uncertain
        },
        Some(field) => match field.as_str() {
            Some(state) => {
                if same_text(state, OP_JOURNAL_IN_PROGRESS) {
                    OpJournalEntryState::InProgress
                } else if same_text(state, "completed") && has_exact_once_operation_id(entry) {
                    OpJournalEntryState::Completed
                } else {
                    OpJournalEntryState::Uncertain
                }
            },
            None => OpJournalEntryState::Uncertain,
        },
    }
}

/// Whether the entry is the marker of a running operation.
pub fn is_op_journal_in_progress(entry: &Json) -> (b: bool)
    ensures
        b == (entry_state(entry@) == OpJournalEntryState::InProgress),
{
    op_journal_entry_state(entry) == OpJournalEntryState::InProgress
}

/// Whether the entry must never be compacted, aged out or replayed.
pub fn is_op_journal_uncertain(entry: &Json) -> (b: bool)
    ensures
        b == (entry_state(entry@) != OpJournalEntryState::Completed),
{
    op_journal_entry_state(entry) != OpJournalEntryState::Completed
}

/// `members` with `value` under `key`, if there is one.
pub open spec fn put_some(
    members: Map<Seq<char>, JsonV>,
    key: Seq<char>,
    value: Option<JsonV>,
) -> Map<Seq<char>, JsonV> {
    match value {
        Some(v) => members.insert(key, v),
        None => members,
    }
}

/// The member under `key` if it is an object.
pub open spec fn object_member(entry: JsonV, key: Seq<char>) -> Option<JsonV> {
    match entry.get(key) {
        Some(JsonV::Object(m)) => Some(JsonV::Object(m)),
        _ => None,
    }
}

/// The member under `key` if it is a truth value or a number.
pub open spec fn flag_member(entry: JsonV, key: Seq<char>) -> Option<JsonV> {
    match entry.get(key) {
        Some(JsonV::Bool(b)) => Some(JsonV::Bool(b)),
        Some(JsonV::Integer(n)) => Some(JsonV::Integer(n)),
        Some(JsonV::Real(s)) => Some(JsonV::Real(s)),
        _ => None,
    }
}

/// The member under `key` if it is a text of 1 to 256 bytes.
pub open spec fn short_text_member(entry: JsonV, key: Seq<char>) -> Option<JsonV> {
    match entry.get_str(key) {
        Some(s) => if s.len() > 0 && utf8_len(s) <= 256 {
            Some(JsonV::Str(s))
        } else {
            None
        },
        None => None,
    }
}

/// The member under `key` if it is a text.
pub open spec fn text_member(entry: JsonV, key: Seq<char>) -> Option<JsonV> {
    match entry.get_str(key) {
        Some(s) => Some(JsonV::Str(s)),
        None => None,
    }
}

/// The member under `key` if it is an integer.
pub open spec fn integer_member(entry: JsonV, key: Seq<char>) -> Option<JsonV> {
    match entry.get(key) {
        Some(JsonV::Integer(n)) => Some(JsonV::Integer(n)),
        _ => None,
    }
}

/// Status that a receipt of `entry` reports: a terminal phase decides, except
/// that phase `completed` yields to a status of its own.
pub open spec fn receipt_status(entry: JsonV) -> JsonV {
    let own = entry.get("status"@);
    let fallback = match own {
        Some(status) => status,
        None => JsonV::Str("completed"@),
    };
    match entry.get_str("phase"@) {
        Some(phase) => if phase == "failed"@ || phase == "cancelled"@ || (phase == "completed"@
            && own is None) {
            JsonV::Str(phase)
        } else {
            fallback
        },
        None => fallback,
    }
}

/// Fields that every receipt starts from.
#[verifier::opaque]
pub open spec fn receipt_base(status: JsonV) -> Map<Seq<char>, JsonV> {
    Map::<Seq<char>, JsonV>::empty().insert("durable_receipt"@, JsonV::Bool(true)).insert(
        "truncated"@,
        JsonV::Bool(true),
    ).insert("status"@, status).insert(
        "note"@,
        JsonV::Str("op-journal entry compacted before durable persistence"@),
    )
}

/// Terminal flags that a receipt keeps.
#[verifier::opaque]
pub open spec fn with_terminal_flags(
    members: Map<Seq<char>, JsonV>,
    entry: JsonV,
) -> Map<Seq<char>, JsonV> {
    let m = put_some(members, "closed"@, flag_member(entry, "closed"@));
    let m = put_some(m, "detached"@, flag_member(entry, "detached"@));
    let m = put_some(m, "terminated"@, flag_member(entry, "terminated"@));
    let m = put_some(m, "reconciled"@, flag_member(entry, "reconciled"@));
    put_some(m, "live_pty"@, flag_member(entry, "live_pty"@))
}

/// Identity of the operation, its age and its review.
#[verifier::opaque]
pub open spec fn with_operation_identity(
    members: Map<Seq<char>, JsonV>,
    entry: JsonV,
) -> Map<Seq<char>, JsonV> {
    let m = put_some(members, "operation_id"@, entry.get("operation_id"@));
    let m = put_some(
        m,
        OP_JOURNAL_COMPLETED_UNIX_FIELD@,
        entry.get(OP_JOURNAL_COMPLETED_UNIX_FIELD@),
    );
    let m = put_some(m, "remote_payload_hash"@, entry.get("remote_payload_hash"@));
    let m = put_some(m, "review_id"@, entry.get("review_id"@));
    let m = put_some(m, "workspace_id"@, entry.get("workspace_id"@));
    put_some(m, "phase"@, text_member(entry, "phase"@))
}

/// Identifiers with which a session is continued, and a stored failure.
#[verifier::opaque]
pub open spec fn with_continuation(
    members: Map<Seq<char>, JsonV>,
    entry: JsonV,
) -> Map<Seq<char>, JsonV> {
    let m = put_some(members, "id"@, short_text_member(entry, "id"@));
    let m = put_some(m, "session_id"@, short_text_member(entry, "session_id"@));
    let m = put_some(m, "controller_epoch"@, integer_member(entry, "controller_epoch"@));
    let m = put_some(m, "controller"@, object_member(entry, "controller"@));
    let m = put_some(m, "lease"@, object_member(entry, "lease"@));
    let m = put_some(m, "session"@, object_member(entry, "session"@));
    put_some(m, "error"@, object_member(entry, "error"@))
}

/// The compact receipt of a completed entry: identity, status and the small
/// fields that a client continues with; result bodies are dropped.
pub open spec fn receipt_of(entry: JsonV) -> JsonV {
    JsonV::Object(
        with_continuation(
            with_operation_identity(
                with_terminal_flags(receipt_base(receipt_status(entry)), entry),
                entry,
            ),
            entry,
        ),
    )
}

/// What the durable journal holds for an entry.
pub open spec fn durable_entry(entry: JsonV) -> JsonV {
    if entry_state(entry) == OpJournalEntryState::Completed {
        receipt_of(entry)
    } else {
        entry
    }
}

/// What the durable journal holds for a journal.
pub open spec fn durable_view(journal: Map<Seq<char>, JsonV>) -> Map<Seq<char>, JsonV> {
    journal.map_values(|entry: JsonV| durable_entry(entry))
}

/// Adds a member if there is a value.
fn put_optional(object: &mut JsonObject, key: &str, value: Option<Json>)
    ensures
        final(object)@ == put_some(
            old(object)@,
            key@,
            match value {
                Some(v) => Some(v@),
                None => None,
            },
        ),
{
    match value {
        Some(v) => object.put(key, v),
        None => {},
    }
}

/// Copies a member, whatever it is.
fn copy_member(object: &mut JsonObject, entry: &Json, key: &str)
    ensures
        final(object)@ == put_some(old(object)@, key@, entry@.get(key@)),
{
    match entry.get(key) {
        Some(v) => object.put(key, v.copy()),
        None => {},
    }
}

/// Copies a member that is an object.
fn copy_object_member(object: &mut JsonObject, entry: &Json, key: &str)
    ensures
        final(object)@ == put_some(old(object)@, key@, object_member(entry@, key@)),
{
    match entry.get(key) {
        Some(Json::Object(o)) => object.put(key, Json::Object(o.copy())),
        _ => {},
    }
}

/// Copies a member that is a truth value or a number.
fn copy_flag_member(object: &mut JsonObject, entry: &Json, key: &str)
    ensures
        final(object)@ == put_some(old(object)@, key@, flag_member(entry@, key@)),
{
    match entry.get(key) {
        Some(Json::Bool(b)) => object.put(key, Json::Bool(*b)),
        Some(Json::Integer(n)) => object.put(key, Json::Integer(*n)),
        Some(Json::Real(s)) => object.put(key, Json::Real(s.clone())),
        _ => {},
    }
}

/// Copies a member that is a text of 1 to 256 bytes.
fn copy_short_text_member(object: &mut JsonObject, entry: &Json, key: &str)
    ensures
        final(object)@ == put_some(old(object)@, key@, short_text_member(entry@, key@)),
{
    match entry.get_str(key) {
        Some(s) => {
            if !s.is_empty() && byte_len(s) <= 256 {
                object.put(key, Json::text(s));
            }
        },
        None => {},
    }
}

/// Status of the receipt of an entry.
fn status_of(entry: &Json) -> (status: Json)
    ensures
        status@ == receipt_status(entry@),
{
    if let Some(phase) = entry.get_str("phase") {
        let terminal = same_text(phase, "failed") || same_text(phase, "cancelled");
        let untold = same_text(phase, "completed") && entry.get("status").is_none();
        if terminal || untold {
            return Json::text(phase);
        }
    }
    match entry.get("status") {
        Some(status) => status.copy(),
        None => Json::text("completed"),
    }
}

/// The compact receipt of a completed entry.
pub fn compact_receipt(entry: &Json) -> (receipt: Json)
    ensures
        receipt@ == receipt_of(entry@),
{
    proof {
        reveal(receipt_base);
        reveal(with_terminal_flags);
        reveal(with_operation_identity);
        reveal(with_continuation);
    }
    let mut object = JsonObject::new();
    object.put("durable_receipt", Json::Bool(true));
    object.put("truncated", Json::Bool(true));
    object.put("status", status_of(entry));
    object.put("note", Json::text("op-journal entry compacted before durable persistence"));
    copy_flag_member(&mut object, entry, "closed");
    copy_flag_member(&mut object, entry, "detached");
    copy_flag_member(&mut object, entry, "terminated");
    copy_flag_member(&mut object, entry, "reconciled");
    copy_flag_member(&mut object, entry, "live_pty");
    copy_member(&mut object, entry, "operation_id");
    copy_member(&mut object, entry, OP_JOURNAL_COMPLETED_UNIX_FIELD);
    copy_member(&mut object, entry, "remote_payload_hash");
    copy_member(&mut object, entry, "review_id");
    copy_member(&mut object, entry, "workspace_id");
    let phase = match entry.get_str("phase") {
        Some(phase) => Some(Json::text(phase)),
        None => None,
    };
    put_optional(&mut object, "phase", phase);
    copy_short_text_member(&mut object, entry, "id");
    copy_short_text_member(&mut object, entry, "session_id");
    let epoch = match entry.get("controller_epoch") {
        Some(Json::Integer(n)) => Some(Json::Integer(*n)),
        _ => None,
    };
    put_optional(&mut object, "controller_epoch", epoch);
    copy_object_member(&mut object, entry, "controller");
    copy_object_member(&mut object, entry, "lease");
    copy_object_member(&mut object, entry, "session");
    copy_object_member(&mut object, entry, "error");
    Json::Object(object)
}

/// The journal: entries by key.
#[derive(Debug)]
pub struct OpJournal {
    entries: JsonObject,
}

impl OpJournal {
    pub closed spec fn view(&self) -> Map<Seq<char>, JsonV> {
        self.entries@
    }

    /// A journal without entries.
    pub fn new() -> (journal: OpJournal)
        ensures
            journal@ == Map::<Seq<char>, JsonV>::empty(),
    {
        OpJournal { entries: JsonObject::new() }
    }

    /// The journal whose entries are the members of an object.
    pub fn from_object(entries: JsonObject) -> (journal: OpJournal)
        ensures
            journal@ == entries@,
    {
        OpJournal { entries }
    }

    /// The journal as one object.
    pub fn to_object(&self) -> (object: JsonObject)
        ensures
            object@ == self@,
    {
        self.entries.copy()
    }

    /// Number of entries.
    pub fn len(&self) -> (n: usize)
        ensures
            n == self@.dom().len(),
            self@.dom().finite(),
    {
        self.entries.count()
    }

    /// The entry under a key.
    pub fn get(&self, key: &str) -> (entry: Option<&Json>)
        ensures
            match entry {
                Some(v) => self@.contains_key(key@) && self@[key@] == v@,
                None => !self@.contains_key(key@),
            },
    {
        self.entries.get(key)
    }

    /// Whether a key has an entry.
    pub fn contains_key(&self, key: &str) -> (b: bool)
        ensures
            b == self@.contains_key(key@),
    {
        self.entries.get(key).is_some()
    }

    /// Adds or replaces an entry.
    pub fn insert(&mut self, key: &str, entry: Json)
        ensures
            final(self)@ == old(self)@.insert(key@, entry@),
    {
        self.entries.put(key, entry);
    }

    /// Removes an entry.
    pub fn remove(&mut self, key: &str)
        ensures
            final(self)@ == old(self)@.remove(key@),
    {
        self.entries.remove(key);
    }

    /// A copy of the journal.
    pub fn copy(&self) -> (journal: OpJournal)
        ensures
            journal@ == self@,
    {
        OpJournal { entries: self.entries.copy() }
    }
}

/// Compacted durable view of a journal: completed entries become receipts,
/// every other entry stays as it is.
pub fn op_journal_durable_view(journal: &OpJournal) -> (out: OpJournal)
    ensures
        out@ == durable_view(journal@),
{
    let n: usize = journal.entries.count();
    let ghost source = journal.entries.entries();
    let mut out = JsonObject::new();
    let mut i: usize = 0;
    while i < n
        invariant
            i <= n,
            n == source.len(),
            source == journal.entries.entries(),
            distinct_entries(source),
            out.entries().len() == i,
            forall|j: int|
                0 <= j < i ==> #[trigger] out.entries()[j] == (
                    source[j].0,
                    durable_entry(source[j].1),
                ),
        decreases n - i,
    {
        let value = journal.entries.value_at(i);
        let kept = if op_journal_entry_state(value) == OpJournalEntryState::Completed {
            compact_receipt(value)
        } else {
            value.copy()
        };
        let key = journal.entries.key_at(i).clone();
        proof {
            assert forall|j: int| 0 <= j < out.entries().len() implies (
            #[trigger] out.entries()[j]).0 != key@ by {
                assert(source[j].0 != source[i as int].0);
            }
        }
        out.push_new(key, kept);
        i += 1;
    }
    proof {
        out.lemma_view_of_entries();
        lemma_rewritten_entries(source, out.entries(), |entry: JsonV| durable_entry(entry));
    }
    OpJournal { entries: out }
}

/// A receipt without a completion time gets one.
pub open spec fn aged_entry(entry: JsonV, now: int) -> JsonV {
    if entry_state(entry) == OpJournalEntryState::Completed && entry.get(
        OP_JOURNAL_COMPLETED_UNIX_FIELD@,
    ) is None {
        entry.with(OP_JOURNAL_COMPLETED_UNIX_FIELD@, JsonV::Integer(now))
    } else {
        entry
    }
}

/// Every receipt has a completion time.
pub open spec fn aged_view(journal: Map<Seq<char>, JsonV>, now: int) -> Map<Seq<char>, JsonV> {
    journal.map_values(|entry: JsonV| aged_entry(entry, now))
}

/// Stamps the receipts that have no completion time.
pub fn stamp_receipts(journal: &OpJournal, now: i64) -> (out: OpJournal)
    ensures
        out@ == aged_view(journal@, now as int),
{
    let n: usize = journal.entries.count();
    let ghost source = journal.entries.entries();
    let mut out = JsonObject::new();
    let mut i: usize = 0;
    while i < n
        invariant
            i <= n,
            n == source.len(),
            source == journal.entries.entries(),
            distinct_entries(source),
            out.entries().len() == i,
            forall|j: int|
                0 <= j < i ==> #[trigger] out.entries()[j] == (
                    source[j].0,
                    aged_entry(source[j].1, now as int),
                ),
        decreases n - i,
    {
        let value = journal.entries.value_at(i);
        let unstamped = op_journal_entry_state(value) == OpJournalEntryState::Completed
            && value.get(OP_JOURNAL_COMPLETED_UNIX_FIELD).is_none();
        let kept = if unstamped {
            value.with(OP_JOURNAL_COMPLETED_UNIX_FIELD, Json::Integer(now as i128))
        } else {
            value.copy()
        };
        let key = journal.entries.key_at(i).clone();
        proof {
            assert forall|j: int| 0 <= j < out.entries().len() implies (
            #[trigger] out.entries()[j]).0 != key@ by {
                assert(source[j].0 != source[i as int].0);
            }
        }
        out.push_new(key, kept);
        i += 1;
    }
    proof {
        out.lemma_view_of_entries();
        lemma_rewritten_entries(
            source,
            out.entries(),
            |entry: JsonV| aged_entry(entry, now as int),
        );
    }
    OpJournal { entries: out }
}

/// A receipt whose age is known and has reached the retention window.
pub open spec fn is_expired(entry: JsonV, now: int) -> bool {
    &&& entry_state(entry) == OpJournalEntryState::Completed
    &&& entry.get_i64(OP_JOURNAL_COMPLETED_UNIX_FIELD@) matches Some(stamp) && stamp > 0 && now
        - stamp >= OP_JOURNAL_COMPLETED_TTL_SECS
}

/// The journal without its expired receipts.
pub open spec fn unexpired(journal: Map<Seq<char>, JsonV>, now: int) -> Map<Seq<char>, JsonV> {
    Map::new(
        |k: Seq<char>| journal.contains_key(k) && !is_expired(journal[k], now),
        |k: Seq<char>| journal[k],
    )
}

/// Whether a receipt has outlived the retention window.
pub fn receipt_expired(entry: &Json, now: i64) -> (b: bool)
    ensures
        b == is_expired(entry@, now as int),
{
    if op_journal_entry_state(entry) != OpJournalEntryState::Completed {
        return false;
    }
    match entry.get_i64(OP_JOURNAL_COMPLETED_UNIX_FIELD) {
        Some(stamp) => stamp > 0 && now as i128 - stamp as i128
            >= OP_JOURNAL_COMPLETED_TTL_SECS as i128,
        None => false,
    }
}

/// The journal without its expired receipts, and how many those were.
pub fn without_expired(journal: &OpJournal, now: i64) -> (r: (OpJournal, usize))
    ensures
        r.0@ == unexpired(journal@, now as int),
        r.1 == journal@.dom().len() - r.0@.dom().len(),
        r.1 == 0 ==> r.0@ == journal@,
{
    let n: usize = journal.entries.count();
    let ghost source = journal.entries.entries();
    let mut out = JsonObject::new();
    let ghost mut from: Seq<int> = Seq::empty();
    let mut i: usize = 0;
    while i < n
        invariant
            i <= n,
            n == source.len(),
            source == journal.entries.entries(),
            distinct_entries(source),
            out.entries().len() == from.len(),
            from.len() <= i,
            forall|j: int|
                0 <= j < from.len() ==> 0 <= #[trigger] from[j] < i && out.entries()[j]
                    == source[from[j]] && !is_expired(source[from[j]].1, now as int),
            forall|a: int, b: int| 0 <= a < b < from.len() ==> from[a] < from[b],
            forall|p: int|
                0 <= p < i && !is_expired((#[trigger] source[p]).1, now as int) ==> from.contains(
                    p,
                ),
            from.len() == i ==> forall|j: int| 0 <= j < i ==> #[trigger] from[j] == j,
        decreases n - i,
    {
        let value = journal.entries.value_at(i);
        if !receipt_expired(value, now) {
            let key = journal.entries.key_at(i).clone();
            proof {
                assert forall|j: int| 0 <= j < out.entries().len() implies (
                #[trigger] out.entries()[j]).0 != key@ by {
                    assert(source[from[j]].0 != source[i as int].0);
                }
            }
            let kept = value.copy();
            out.push_new(key, kept);
            proof {
                let before = from;
                from = from.push(i as int);
                assert(from.last() == i);
                assert forall|p: int| 0 <= p < i + 1 && !is_expired(
                    (#[trigger] source[p]).1,
                    now as int,
                ) implies from.contains(p) by {
                    if p < i {
                        let j = choose|j: int| 0 <= j < before.len() && before[j] == p;
                        assert(from[j] == p);
                    } else {
                        assert(from[before.len() as int] == p);
                    }
                }
            }
        }
        i += 1;
    }
    let kept_count: usize = out.count();
    proof {
        let done = out.entries();
        let expected = unexpired(journal@, now as int);
        assert forall|k: Seq<char>| #[trigger] out@.dom().contains(k) <==> expected.dom().contains(
            k,
        ) by {
            if out@.contains_key(k) {
                let j = lemma_mapped_key_has_entry(done, k);
                lemma_entry_is_mapped(source, from[j]);
            }
            if expected.contains_key(k) {
                let p = lemma_mapped_key_has_entry(source, k);
                lemma_entry_is_mapped(source, p);
                let j = choose|j: int| 0 <= j < from.len() && from[j] == p;
                lemma_entry_is_mapped(done, j);
            }
        }
        assert forall|k: Seq<char>| out@.dom().contains(k) implies #[trigger] out@[k]
            == expected[k] by {
            let j = lemma_mapped_key_has_entry(done, k);
            lemma_entry_is_mapped(source, from[j]);
            lemma_entry_is_mapped(done, j);
        }
        assert(out@ =~= expected);
        if kept_count == n {
            assert forall|j: int| 0 <= j < done.len() implies done[j] == source[j] by {
                assert(from[j] == j);
            }
            assert(done =~= source);
        }
    }
    (OpJournal { entries: out }, n - kept_count)
}

/// An entry is in progress exactly where its marker says so, and completed exactly where
/// it names its operation and has the shape of a receipt: no marker and a receipt's mark
/// or a result's field, or a marker that says completed. Anything else is uncertain.
pub proof fn law_only_proven_receipts_are_completed(entry: JsonV)
    ensures
        entry_state(entry) is InProgress <==> entry.get_str("__ownmesh_operation_state"@) == Some(
            "in_progress"@,
        ),
        entry_state(entry) is Completed ==> (entry.get_str("operation_id"@) matches Some(id)
            && id.len() > 0),
        entry.get("__ownmesh_operation_state"@) is None && (
        entry.get_str("operation_id"@) matches Some(id) && id.len() > 0) ==> (entry_state(
            entry,
        ) is Completed <==> entry.get("durable_receipt"@) == Some(JsonV::Bool(true)) || (
        entry.get_str("decision"@) matches Some(d) && d.len() > 0) || (
        entry.get("approval_required"@) matches Some(JsonV::Bool(_))) || (
        entry.get_str("review_id"@) matches Some(r) && r.len() > 0)),
        entry.get("__ownmesh_operation_state"@) is Some ==> (entry_state(entry) is Completed ==> entry.get_str(
            "__ownmesh_operation_state"@,
        ) == Some("completed"@)),
        entry.get_str("__ownmesh_operation_state"@) == Some("completed"@) && (
        entry.get_str("operation_id"@) matches Some(id) && id.len() > 0) ==> entry_state(
            entry,
        ) is Completed,
        !(entry is Object) ==> entry_state(entry) is Uncertain,
{
    reveal_strlit("in_progress");
    reveal_strlit("completed");
    assert("in_progress"@.len() == 11 && "completed"@.len() == 9);
}

/// A receipt expires thirty days after it was stamped, and nothing else ever does.
pub proof fn law_receipts_expire_after_thirty_days(entry: JsonV, now: int)
    ensures
        is_expired(entry, now) <==> entry_state(entry) is Completed && (entry.get(
            "__ownmesh_completed_unix"@,
        ) matches Some(JsonV::Integer(stamp)) && 0 < stamp <= i64::MAX && now - stamp >= 30 * 24 * 60
            * 60),
{
}

/// Taking out what expired keeps every other entry as it is, and takes out nothing
/// that has not ended.
pub proof fn law_unexpired_entries_are_kept(
    journal: Map<Seq<char>, JsonV>,
    key: Seq<char>,
    now: int,
)
    ensures
        unexpired(journal, now).contains_key(key) <==> journal.contains_key(key) && !is_expired(
            journal[key],
            now,
        ),
        unexpired(journal, now).contains_key(key) ==> unexpired(journal, now)[key] == journal[key],
        journal.contains_key(key) && !(entry_state(journal[key]) is Completed) ==> unexpired(
            journal,
            now,
        ).contains_key(key),
{
}

/// A receipt that was never stamped is stamped with the present time; one that was keeps
/// its stamp, and no other entry is touched.
pub proof fn law_receipts_are_stamped_once(entry: JsonV, now: int)
    ensures
        !(entry_state(entry) is Completed) ==> aged_entry(entry, now) == entry,
        entry.get("__ownmesh_completed_unix"@) is Some ==> aged_entry(entry, now) == entry,
        entry_state(entry) is Completed && entry.get("__ownmesh_completed_unix"@) is None
            ==> aged_entry(entry, now).get("__ownmesh_completed_unix"@) == Some(
            JsonV::Integer(now),
        ),
        forall|name: Seq<char>|
            name != "__ownmesh_completed_unix"@ ==> #[trigger] aged_entry(entry, now).get(name)
                == entry.get(name),
{
}

/// A receipt reports the phase of an operation that failed, was cancelled, or completed
/// without a status of its own; otherwise its own status, or that it completed.
pub proof fn law_receipts_report_the_outcome(entry: JsonV)
    ensures
        entry.get_str("phase"@) == Some("failed"@) ==> receipt_status(entry) == JsonV::Str(
            "failed"@,
        ),
        entry.get_str("phase"@) == Some("cancelled"@) ==> receipt_status(entry) == JsonV::Str(
            "cancelled"@,
        ),
        entry.get_str("phase"@) != Some("failed"@) && entry.get_str("phase"@) != Some(
            "cancelled"@,
        ) ==> (match entry.get("status"@) {
            Some(status) => receipt_status(entry) == status,
            None => receipt_status(entry) == JsonV::Str("completed"@),
        }),
{
}

/// Compacting touches completed entries only, each under its own key.
pub proof fn law_durable_entries_stand_for_their_own(
    journal: Map<Seq<char>, JsonV>,
    key: Seq<char>,
)
    requires
        journal.contains_key(key),
    ensures
        durable_view(journal).contains_key(key),
        !(entry_state(journal[key]) is Completed) ==> durable_view(journal)[key] == journal[key],
        entry_state(journal[key]) is Completed ==> durable_view(journal)[key] == receipt_of(
            journal[key],
        ),
{
}

} // verus!

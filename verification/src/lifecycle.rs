//! Life of a journal entry: reserved before an operation runs, replaced by its
//! receipt when it ends, aged out after the retention window.
//!
//! A change takes effect only once it is durable. Each operation therefore
//! returns the journal that would follow together with the bytes to write; the
//! write's outcome is handed to [`JournalState::settle`].
use crate::codec::{encode, encode_fault, encoded, is_text_of};
use crate::error::{ErrorCode, IpcError};
use crate::journal::{
    durable_entry, durable_view, entry_state, is_expired, op_journal_durable_view,
    op_journal_entry_state, receipt_expired, unexpired, without_expired, OpJournal,
    OpJournalEntryState, MAX_OP_JOURNAL_ENTRIES, MAX_OP_JOURNAL_FILE_BYTES,
    OP_JOURNAL_COMPLETED_UNIX_FIELD, OP_JOURNAL_IN_PROGRESS, OP_JOURNAL_STATE_FIELD,
};
use crate::json::{Json, JsonObject, JsonV};
use crate::principal::{journal_key, principal_journal_key};
use crate::text::{
    byte_len, join, join3, lemma_prefix_within, lemma_utf8_len_concat, prefix_within,
    same_text, truncated, utf8_len,
};
use vstd::prelude::*;

verus! {

/// Text of the refusal while the journal is degraded.
pub open spec fn degraded_message(reason: Seq<char>) -> Seq<char> {
    "OWNMESH_E_JOURNAL_DEGRADED: side effects are refused because the op-journal could not be loaded ("@
        + reason
        + "). Repair locally with `ownmesh doctor --repair-journal --i-understand-replay-risk` then restart ownmeshd"@
}

/// The refusal while the journal is degraded.
pub fn journal_degraded_error(reason: &str) -> (e: IpcError)
    ensures
        e.is(ErrorCode::Conflict, degraded_message(reason@)),
{
    IpcError::with_message(
        ErrorCode::Conflict,
        join3(
            "OWNMESH_E_JOURNAL_DEGRADED: side effects are refused because the op-journal could not be loaded (",
            reason,
            "). Repair locally with `ownmesh doctor --repair-journal --i-understand-replay-risk` then restart ownmeshd",
        ),
    )
}

/// A countdown of injected faults: it fires when it goes from 1 to 0.
pub fn maybe_inject_persist_fault(countdown: &mut usize, target: &str) -> (r: Result<(), IpcError>)
    ensures
        *final(countdown) == spent(*old(countdown)),
        match r {
            Ok(()) => *old(countdown) != 1,
            Err(e) => *old(countdown) == 1 && e.is(
                ErrorCode::Internal,
                "fault-injected "@ + target@ + " persist failure"@,
            ),
        },
{
    if *countdown == 0 {
        return Ok(());
    }
    *countdown -= 1;
    if *countdown == 0 {
        return Err(
            IpcError::with_message(
                ErrorCode::Internal,
                join3("fault-injected ", target, " persist failure"),
            ),
        );
    }
    Ok(())
}

/// A countdown after one more call.
pub open spec fn spent(countdown: usize) -> usize {
    if countdown > 0 {
        (countdown - 1) as usize
    } else {
        0
    }
}

/// The journal and what decides whether it can be written.
#[derive(Debug)]
pub struct JournalState {
    pub journal: OpJournal,
    /// Why the journal could not be loaded. While set, nothing is written.
    pub degraded: Option<String>,
    pub persist_fault: usize,
    pub write_fault: usize,
}

/// A journal that takes effect once its bytes are durable.
#[derive(Debug)]
pub struct PendingWrite {
    pub next: OpJournal,
    pub bytes: Vec<u8>,
}

/// Bytes of the durable journal.
pub open spec fn durable_bytes(journal: Map<Seq<char>, JsonV>) -> Option<Seq<u8>> {
    encoded(JsonV::Object(durable_view(journal)))
}

/// The bytes are the file of a journal: its durable view as text, which reads back
/// as that view where it is plain.
pub open spec fn is_file_of(bytes: Seq<u8>, journal: Map<Seq<char>, JsonV>) -> bool {
    is_text_of(bytes, durable_view(journal))
}

impl JournalState {
    /// The state after one attempt to write: only the fault countdown moves, and
    /// not while the journal is degraded.
    pub open spec fn after_attempt(self) -> JournalState {
        JournalState {
            persist_fault: if self.degraded is Some {
                self.persist_fault
            } else {
                spent(self.persist_fault)
            },
            ..self
        }
    }

    /// The state after an attempt to write, or without one.
    pub open spec fn after_attempt_if(self, attempted: bool) -> JournalState {
        if attempted {
            self.after_attempt()
        } else {
            self
        }
    }

    /// The journal may be written.
    pub open spec fn admits(self, next: Map<Seq<char>, JsonV>) -> bool {
        &&& self.degraded is None
        &&& self.persist_fault != 1
        &&& durable_bytes(next) matches Some(bytes) && bytes.len() <= MAX_OP_JOURNAL_FILE_BYTES
        &&& next.dom().len() <= MAX_OP_JOURNAL_ENTRIES
    }

    /// The error with which a journal that may not be written is refused.
    pub open spec fn refuses_with(self, next: Map<Seq<char>, JsonV>, e: IpcError) -> bool {
        match self.degraded {
            Some(reason) => e.is(ErrorCode::Conflict, degraded_message(reason@)),
            None => if self.persist_fault == 1 {
                e.is(ErrorCode::Internal, "fault-injected "@ + "op journal"@ + " persist failure"@)
            } else {
                match durable_bytes(next) {
                    None => e.is(
                        ErrorCode::Internal,
                        "failed to serialize op journal: "@ + encode_fault(
                            JsonV::Object(durable_view(next)),
                        ),
                    ),
                    Some(bytes) => if bytes.len() > MAX_OP_JOURNAL_FILE_BYTES {
                        e.is(
                            ErrorCode::Internal,
                            "op journal exceeds 4194304 durable byte budget"@,
                        )
                    } else {
                        e.is(ErrorCode::Internal, "op journal exceeds 4096 entry budget"@)
                    },
                }
            },
        }
    }

    /// A write of `next` was admitted, or the refusal was returned.
    pub open spec fn write_of(
        self,
        next: Map<Seq<char>, JsonV>,
        r: Result<PendingWrite, IpcError>,
    ) -> bool {
        match r {
            Ok(write) => self.admits(next) && write.next@ == next && is_file_of(
                write.bytes@,
                next,
            ),
            Err(e) => !self.admits(next) && self.refuses_with(next, e),
        }
    }

    /// A healthy journal.
    pub fn new(journal: OpJournal, degraded: Option<String>) -> (state: JournalState)
        ensures
            state.journal == journal,
            state.degraded == degraded,
            state.persist_fault == 0,
            state.write_fault == 0,
    {
        JournalState { journal, degraded, persist_fault: 0, write_fault: 0 }
    }

    /// Decides whether a journal may be written, and gives the bytes to write:
    /// its compacted view, within the byte and entry budgets.
    pub fn persist_op_journal(&mut self, next: &OpJournal) -> (r: Result<Vec<u8>, IpcError>)
        ensures
            *final(self) == old(self).after_attempt(),
            match r {
                Ok(bytes) => old(self).admits(next@) && is_file_of(bytes@, next@),
                Err(e) => !old(self).admits(next@) && old(self).refuses_with(next@, e),
            },
    {
        if let Some(reason) = &self.degraded {
            return Err(journal_degraded_error(reason.as_str()));
        }
        match maybe_inject_persist_fault(&mut self.persist_fault, "op journal") {
            Ok(()) => {},
            Err(e) => {
                return Err(e);
            },
        }
        let durable = op_journal_durable_view(next);
        let bytes = match encode(&Json::Object(durable.to_object())) {
            Ok(bytes) => bytes,
            Err(text) => {
                let message = join("failed to serialize op journal: ", text.as_str());
                return Err(IpcError::with_message(ErrorCode::Internal, message));
            },
        };
        if bytes.len() > MAX_OP_JOURNAL_FILE_BYTES {
            return Err(
                IpcError::new(
                    ErrorCode::Internal,
                    "op journal exceeds 4194304 durable byte budget",
                ),
            );
        }
        if next.len() > MAX_OP_JOURNAL_ENTRIES {
            return Err(
                IpcError::new(ErrorCode::Internal, "op journal exceeds 4096 entry budget"),
            );
        }
        Ok(bytes)
    }

    /// Size of the durable journal; the largest size if it cannot be written.
    pub fn op_journal_durable_byte_estimate(&self) -> (n: usize)
        ensures
            match durable_bytes(self.journal@) {
                Some(bytes) => n == bytes.len(),
                None => n == usize::MAX,
            },
    {
        durable_size(&self.journal)
    }

    /// The outcome of a durable write: on success the journal takes effect; on
    /// failure the journal before the change stays and the error is returned.
    pub fn settle(&mut self, write: PendingWrite, outcome: Result<(), IpcError>) -> (r: Result<
        (),
        IpcError,
    >)
        ensures
            r == outcome,
            final(self).journal == (if outcome is Ok {
                write.next
            } else {
                old(self).journal
            }),
            final(self).degraded == old(self).degraded,
            final(self).persist_fault == old(self).persist_fault,
            final(self).write_fault == old(self).write_fault,
    {
        if outcome.is_ok() {
            self.journal = write.next;
        }
        outcome
    }
}

/// Size of the durable view of a journal.
fn durable_size(journal: &OpJournal) -> (n: usize)
    ensures
        match durable_bytes(journal@) {
            Some(bytes) => n == bytes.len(),
            None => n == usize::MAX,
        },
{
    let durable = op_journal_durable_view(journal);
    match encode(&Json::Object(durable.to_object())) {
        Ok(bytes) => bytes.len(),
        Err(_) => usize::MAX,
    }
}

/// The marker of an operation that is about to run.
pub open spec fn marker(operation_id: Seq<char>) -> JsonV {
    JsonV::Object(
        Map::<Seq<char>, JsonV>::empty().insert(
            OP_JOURNAL_STATE_FIELD@,
            JsonV::Str(OP_JOURNAL_IN_PROGRESS@),
        ).insert("operation_id"@, JsonV::Str(operation_id)),
    )
}

/// Builds the marker of an operation.
fn in_progress_marker(operation_id: &str) -> (entry: Json)
    ensures
        entry@ == marker(operation_id@),
{
    let mut object = JsonObject::new();
    object.put(OP_JOURNAL_STATE_FIELD, Json::text(OP_JOURNAL_IN_PROGRESS));
    object.put("operation_id", Json::text(operation_id));
    Json::Object(object)
}

/// What a lookup found.
#[derive(Debug)]
pub enum Lookup {
    /// No entry: the operation is new.
    Absent,
    /// A receipt past the retention window: the operation is new. The removal of
    /// the receipt waits to be written, unless the journal cannot be written.
    Expired(Option<PendingWrite>),
    /// The receipt to replay.
    Receipt(Json),
}

/// How a reservation goes on.
#[derive(Debug)]
pub enum BeginPlan {
    /// The request has no key: nothing is reserved.
    Unkeyed,
    /// Expired receipts make room first; reserve once they are durably gone.
    Evict(PendingWrite, usize),
    /// The marker waits to be written.
    Reserve(PendingWrite),
}

/// The journal has no room for one more marker.
pub open spec fn crowded(
    journal: Map<Seq<char>, JsonV>,
    key: Seq<char>,
    operation_id: Seq<char>,
) -> bool {
    ||| journal.dom().len() >= MAX_OP_JOURNAL_ENTRIES
    ||| match durable_bytes(journal.insert(key, marker(operation_id))) {
        Some(bytes) => bytes.len() >= MAX_OP_JOURNAL_FILE_BYTES,
        None => true,
    }
}

/// Some receipt is past the retention window.
pub open spec fn has_expired(journal: Map<Seq<char>, JsonV>, now: int) -> bool {
    unexpired(journal, now).dom().len() < journal.dom().len()
}

/// The entry that ends an operation: its result, stamped with the time.
pub open spec fn stamped(value: JsonV, now: int) -> JsonV {
    value.with(OP_JOURNAL_COMPLETED_UNIX_FIELD@, JsonV::Integer(now))
}

/// A stored failure message: at most 512 bytes, cut at a character, with an
/// ellipsis where something was cut.
pub open spec fn bounded_message(message: Seq<char>) -> Seq<char> {
    if utf8_len(message) <= 512 {
        message
    } else {
        prefix_within(message, 512).push('\u{2026}')
    }
}

/// The receipt of an operation that failed for good.
pub open spec fn failure(operation_id: Seq<char>, code: int, message: Seq<char>) -> JsonV {
    JsonV::Object(
        Map::<Seq<char>, JsonV>::empty().insert("durable_receipt"@, JsonV::Bool(true)).insert(
            "status"@,
            JsonV::Str("failed"@),
        ).insert("operation_id"@, JsonV::Str(operation_id)).insert(
            "error"@,
            JsonV::Object(
                Map::<Seq<char>, JsonV>::empty().insert("code"@, JsonV::Integer(code)).insert(
                    "message"@,
                    JsonV::Str(bounded_message(message)),
                ).insert("retryable"@, JsonV::Bool(false)),
            ),
        ),
    )
}

/// A retry under the key is refused: what is there is no completed receipt.
pub open spec fn refuses_retry(journal: Map<Seq<char>, JsonV>, key: Seq<char>) -> bool {
    journal.contains_key(key) && entry_state(journal[key]) != OpJournalEntryState::Completed
}

/// The entry under `key` is the marker of exactly this operation.
pub open spec fn owns_marker(
    journal: Map<Seq<char>, JsonV>,
    key: Seq<char>,
    operation_id: Seq<char>,
) -> bool {
    &&& journal.contains_key(key)
    &&& entry_state(journal[key]) == OpJournalEntryState::InProgress
    &&& journal[key].get_str("operation_id"@) == Some(operation_id)
}

/// Bounds a failure message for the journal.
pub fn bounded_journal_error_message(message: &str) -> (r: String)
    ensures
        r@ == bounded_message(message@),
{
    if byte_len(message) <= 512 {
        return message.to_owned();
    }
    let mut cut = truncated(message, 512);
    cut.push('\u{2026}');
    cut
}

/// A stored failure message takes at most 515 bytes.
pub proof fn law_stored_message_is_bounded(message: Seq<char>)
    ensures
        utf8_len(bounded_message(message)) <= 515,
{
    if utf8_len(message) > 512 {
        let cut = prefix_within(message, 512);
        lemma_prefix_within(message, 512);
        lemma_utf8_len_concat(cut, seq!['\u{2026}']);
        assert(cut + seq!['\u{2026}'] =~= cut.push('\u{2026}'));
        crate::text::lemma_utf8_len_first(seq!['\u{2026}']);
        assert(seq!['\u{2026}'].skip(1) =~= Seq::empty());
        assert(utf8_len(Seq::empty()) == 0);
    }
}

/// Builds the receipt of a failed operation.
fn failure_receipt(operation_id: &str, code: i64, message: &str) -> (receipt: Json)
    ensures
        receipt@ == failure(operation_id@, code as int, message@),
{
    let mut error = JsonObject::new();
    error.put("code", Json::Integer(code as i128));
    error.put("message", Json::Str(bounded_journal_error_message(message)));
    error.put("retryable", Json::Bool(false));
    let mut object = JsonObject::new();
    object.put("durable_receipt", Json::Bool(true));
    object.put("status", Json::text("failed"));
    object.put("operation_id", Json::text(operation_id));
    object.put("error", Json::Object(error));
    Json::Object(object)
}

/// The refusal of a key whose outcome is not known.
pub open spec fn uncertain_message(key: Seq<char>) -> Seq<char> {
    "idempotency key "@ + key + " has an in-progress or uncertain outcome; retry refused"@
}

/// The refusal of a key that has an entry.
pub open spec fn reserved_message(key: Seq<char>) -> Seq<char> {
    "idempotency key "@ + key + " is already reserved"@
}

/// The refusal of a new key at capacity.
pub open spec fn capacity_message() -> Seq<char> {
    "op journal at capacity (4096) with no evictable completed receipts; refuse new idempotency key (run `ownmesh doctor` for journal pressure)"@
}

/// The text of a key, where there is one.
pub open spec fn key_view(key: Option<&String>) -> Option<Seq<char>> {
    match key {
        Some(k) => Some(k@),
        None => None,
    }
}

impl JournalState {
    /// A completed result is planned under a key: the file gets the result as it is,
    /// the journal its receipt. Without a key nothing is written.
    pub open spec fn stores(
        self,
        after: JournalState,
        r: Result<Option<PendingWrite>, IpcError>,
        key: Option<Seq<char>>,
        value: JsonV,
        now: int,
    ) -> bool {
        &&& after == self.after_attempt_if(key is Some)
        &&& match key {
            None => r matches Ok(None),
            Some(k) => {
                let entry = stamped(value, now);
                let written = self.journal@.insert(k, entry);
                match r {
                    Ok(Some(write)) => {
                        &&& self.admits(written)
                        &&& is_file_of(write.bytes@, written)
                        &&& write.next@ == self.journal@.insert(k, durable_entry(entry))
                    },
                    Ok(None) => false,
                    Err(e) => !self.admits(written) && self.refuses_with(written, e),
                }
            },
        }
    }

    /// The failure of an operation is planned in place of its own marker, and of
    /// nothing else.
    pub open spec fn stores_failure(
        self,
        after: JournalState,
        r: Result<Option<PendingWrite>, IpcError>,
        key: Option<Seq<char>>,
        operation_id: Seq<char>,
        error_code: int,
        error_message: Seq<char>,
        now: int,
    ) -> bool {
        if key matches Some(k) && owns_marker(self.journal@, k, operation_id) {
            self.stores(after, r, key, failure(operation_id, error_code, error_message), now)
        } else {
            after == self && r matches Ok(None)
        }
    }

    /// Plans the write of `next`.
    fn plan(&mut self, next: OpJournal) -> (r: Result<PendingWrite, IpcError>)
        ensures
            *final(self) == old(self).after_attempt(),
            old(self).write_of(next@, r),
    {
        match self.persist_op_journal(&next) {
            Ok(bytes) => Ok(PendingWrite { next, bytes }),
            Err(e) => Err(e),
        }
    }

    /// What a look-up finds.
    pub open spec fn looks_up(
        self,
        after: JournalState,
        r: Result<Lookup, IpcError>,
        key: Option<Seq<char>>,
        now: int,
    ) -> bool {
        &&& after == self.after_attempt_if(
            key matches Some(k) && self.journal@.contains_key(k) && is_expired(
                self.journal@[k],
                now,
            ),
        )
        &&& match key {
            None => r matches Ok(Lookup::Absent),
            Some(k) => if !self.journal@.contains_key(k) {
                r matches Ok(Lookup::Absent)
            } else {
                let entry = self.journal@[k];
                if refuses_retry(self.journal@, k) {
                    r matches Err(e) && e.is(ErrorCode::Conflict, uncertain_message(k))
                } else if is_expired(entry, now) {
                    r matches Ok(Lookup::Expired(write)) && match write {
                        Some(w) => self.write_of(self.journal@.remove(k), Ok(w)),
                        None => !self.admits(self.journal@.remove(k)),
                    }
                } else {
                    r matches Ok(Lookup::Receipt(receipt)) && receipt@ == entry
                }
            },
        }
    }

    /// Looks a key up: only a completed receipt within the retention window is
    /// replayed; an entry of any other state refuses the retry.
    pub fn lookup_idempotent(&mut self, key: Option<&String>, now: i64) -> (r: Result<
        Lookup,
        IpcError,
    >)
        ensures
            old(self).looks_up(*final(self), r, key_view(key), now as int),
    {
        let key = match key {
            Some(key) => key,
            None => {
                return Ok(Lookup::Absent);
            },
        };
        let entry = match self.journal.get(key.as_str()) {
            Some(entry) => entry.copy(),
            None => {
                return Ok(Lookup::Absent);
            },
        };
        if op_journal_entry_state(&entry) != OpJournalEntryState::Completed {
            return Err(
                IpcError::with_message(
                    ErrorCode::Conflict,
                    join3(
                        "idempotency key ",
                        key.as_str(),
                        " has an in-progress or uncertain outcome; retry refused",
                    ),
                ),
            );
        }
        if receipt_expired(&entry, now) {
            let mut next = self.journal.copy();
            next.remove(key.as_str());
            return match self.plan(next) {
                Ok(write) => Ok(Lookup::Expired(Some(write))),
                Err(_) => Ok(Lookup::Expired(None)),
            };
        }
        Ok(Lookup::Receipt(entry))
    }

    /// Plans the removal of expired receipts; `None` if there are none.
    pub fn evict_expired_completed_op_journal_entries(&mut self, now: i64) -> (r: Result<
        Option<(PendingWrite, usize)>,
        IpcError,
    >)
        ensures
            *final(self) == old(self).after_attempt_if(
                has_expired(old(self).journal@, now as int),
            ),
            match r {
                Ok(None) => !has_expired(old(self).journal@, now as int),
                Ok(Some((write, evicted))) => has_expired(old(self).journal@, now as int)
                    && old(self).write_of(unexpired(old(self).journal@, now as int), Ok(write))
                    && evicted == old(self).journal@.dom().len() - unexpired(
                    old(self).journal@,
                    now as int,
                ).dom().len(),
                Err(e) => has_expired(old(self).journal@, now as int) && old(self).write_of(
                    unexpired(old(self).journal@, now as int),
                    Err(e),
                ),
            },
    {
        let (live, evicted) = without_expired(&self.journal, now);
        if evicted == 0 {
            return Ok(None);
        }
        match self.plan(live) {
            Ok(write) => Ok(Some((write, evicted))),
            Err(e) => Err(e),
        }
    }

    /// Whether a marker for the key would not fit without making room.
    pub fn needs_room(&self, key: &str, operation_id: &str) -> (b: bool)
        ensures
            b == crowded(self.journal@, key@, operation_id@),
    {
        let mut projected = self.journal.copy();
        projected.insert(key, in_progress_marker(operation_id));
        let at_byte_cap = durable_size(&projected) >= MAX_OP_JOURNAL_FILE_BYTES;
        self.journal.len() >= MAX_OP_JOURNAL_ENTRIES || at_byte_cap
    }

    /// Plans the marker of an operation that is about to run.
    pub fn reserve_marker(&mut self, key: &str, operation_id: &str) -> (r: Result<
        PendingWrite,
        IpcError,
    >)
        ensures
            *final(self) == old(self).after_attempt_if(
                old(self).journal@.dom().len() < MAX_OP_JOURNAL_ENTRIES,
            ),
            if old(self).journal@.dom().len() >= MAX_OP_JOURNAL_ENTRIES {
                r matches Err(e) && e.is(ErrorCode::JournalCapacity, capacity_message())
            } else {
                old(self).write_of(old(self).journal@.insert(key@, marker(operation_id@)), r)
            },
    {
        if self.journal.len() >= MAX_OP_JOURNAL_ENTRIES {
            return Err(
                IpcError::new(
                    ErrorCode::JournalCapacity,
                    "op journal at capacity (4096) with no evictable completed receipts; refuse new idempotency key (run `ownmesh doctor` for journal pressure)",
                ),
            );
        }
        let mut next = self.journal.copy();
        next.insert(key, in_progress_marker(operation_id));
        self.plan(next)
    }

    /// How an operation begins.
    pub open spec fn begins(
        self,
        after: JournalState,
        r: Result<BeginPlan, IpcError>,
        key: Option<Seq<char>>,
        operation_id: Seq<char>,
        now: int,
    ) -> bool {
        &&& after == self.after_attempt_if(
            key matches Some(k) && !self.journal@.contains_key(k) && ((crowded(
                self.journal@,
                k,
                operation_id,
            ) && has_expired(self.journal@, now)) || self.journal@.dom().len()
                < MAX_OP_JOURNAL_ENTRIES),
        )
        &&& match key {
            None => r matches Ok(BeginPlan::Unkeyed),
            Some(k) => {
                let journal = self.journal@;
                if journal.contains_key(k) {
                    r matches Err(e) && e.is(ErrorCode::Conflict, reserved_message(k))
                } else if crowded(journal, k, operation_id) && has_expired(journal, now) {
                    let live = unexpired(journal, now);
                    match r {
                        Ok(BeginPlan::Evict(write, evicted)) => self.write_of(live, Ok(write))
                            && evicted == journal.dom().len() - live.dom().len(),
                        Ok(_) => false,
                        Err(e) => self.write_of(live, Err(e)),
                    }
                } else if journal.dom().len() >= MAX_OP_JOURNAL_ENTRIES {
                    r matches Err(e) && e.is(ErrorCode::JournalCapacity, capacity_message())
                } else {
                    let next = journal.insert(k, marker(operation_id));
                    match r {
                        Ok(BeginPlan::Reserve(write)) => self.write_of(next, Ok(write)),
                        Ok(_) => false,
                        Err(e) => self.write_of(next, Err(e)),
                    }
                }
            },
        }
    }

    /// Reserves a key before its operation runs. A crowded journal first drops
    /// its expired receipts, and only those.
    pub fn begin_idempotent(&mut self, key: Option<&String>, operation_id: &str, now: i64) -> (r:
        Result<BeginPlan, IpcError>)
        ensures
            old(self).begins(*final(self), r, key_view(key), operation_id@, now as int),
    {
        let key = match key {
            Some(key) => key,
            None => {
                return Ok(BeginPlan::Unkeyed);
            },
        };
        if self.journal.contains_key(key.as_str()) {
            return Err(
                IpcError::with_message(
                    ErrorCode::Conflict,
                    join3("idempotency key ", key.as_str(), " is already reserved"),
                ),
            );
        }
        if self.needs_room(key.as_str(), operation_id) {
            match self.evict_expired_completed_op_journal_entries(now) {
                Ok(None) => {},
                Ok(Some((write, evicted))) => {
                    return Ok(BeginPlan::Evict(write, evicted));
                },
                Err(e) => {
                    return Err(e);
                },
            }
        }
        match self.reserve_marker(key.as_str(), operation_id) {
            Ok(write) => Ok(BeginPlan::Reserve(write)),
            Err(e) => Err(e),
        }
    }

    /// Plans the receipt of an operation that ended. What is written is the
    /// compacted journal; what stays in memory under the key is the receipt.
    pub fn store_idempotent(&mut self, key: Option<&String>, value: &Json, now: i64) -> (r: Result<
        Option<PendingWrite>,
        IpcError,
    >)
        ensures
            old(self).stores(*final(self), r, key_view(key), value@, now as int),
    {
        let key = match key {
            Some(key) => key,
            None => {
                return Ok(None);
            },
        };
        let entry = value.with(OP_JOURNAL_COMPLETED_UNIX_FIELD, Json::Integer(now as i128));
        let receipt = if op_journal_entry_state(&entry) == OpJournalEntryState::Completed {
            crate::journal::compact_receipt(&entry)
        } else {
            entry.copy()
        };
        let mut written = self.journal.copy();
        written.insert(key.as_str(), entry);
        match self.persist_op_journal(&written) {
            Ok(bytes) => {
                let mut next = self.journal.copy();
                next.insert(key.as_str(), receipt);
                Ok(Some(PendingWrite { next, bytes }))
            },
            Err(e) => Err(e),
        }
    }

    /// Plans the failure receipt of an operation, if the key holds the marker of
    /// exactly that operation; `None` if it does not.
    pub fn fail_idempotent(
        &mut self,
        key: Option<&String>,
        operation_id: &str,
        error_code: i64,
        error_message: &str,
        now: i64,
    ) -> (r: Result<Option<PendingWrite>, IpcError>)
        ensures
            old(self).stores_failure(
                *final(self),
                r,
                key_view(key),
                operation_id@,
                error_code as int,
                error_message@,
                now as int,
            ),
    {
        let key = match key {
            Some(key) => key,
            None => {
                return Ok(None);
            },
        };
        let own = match self.journal.get(key.as_str()) {
            Some(entry) => op_journal_entry_state(entry) == OpJournalEntryState::InProgress && (
            match entry.get_str("operation_id") {
                Some(id) => same_text(id, operation_id),
                None => false,
            }),
            None => false,
        };
        if !own {
            return Ok(None);
        }
        let receipt = failure_receipt(operation_id, error_code, error_message);
        self.store_idempotent(Some(key), &receipt, now)
    }

    /// How an operation that failed after its marker was written is settled.
    pub open spec fn reconciles(
        self,
        after: JournalState,
        r: Option<PendingWrite>,
        key: Seq<char>,
        operation_id: Seq<char>,
        receipt: JsonV,
        now: int,
    ) -> bool {
        let entry = stamped(receipt, now);
        let written = self.journal@.insert(key, entry);
        &&& after == self.after_attempt_if(owns_marker(self.journal@, key, operation_id))
        &&& match r {
            Some(write) => {
                &&& owns_marker(self.journal@, key, operation_id)
                &&& self.admits(written)
                &&& is_file_of(write.bytes@, written)
                &&& write.next@ == self.journal@.insert(key, durable_entry(entry))
            },
            None => !owns_marker(self.journal@, key, operation_id) || !self.admits(written),
        }
    }

    /// Plans the failure receipt of a caller's operation. A journal that cannot
    /// be written leaves the marker in place.
    pub fn reconcile_failed_idempotent(
        &mut self,
        idempotency_key: &str,
        principal: &str,
        operation_id: &str,
        error_code: i64,
        error_message: &str,
        now: i64,
    ) -> (r: Option<PendingWrite>)
        ensures
            old(self).reconciles(
                *final(self),
                r,
                journal_key(principal@, idempotency_key@),
                operation_id@,
                failure(operation_id@, error_code as int, error_message@),
                now as int,
            ),
    {
        let key = principal_journal_key(principal, idempotency_key);
        match self.fail_idempotent(Some(&key), operation_id, error_code, error_message, now) {
            Ok(write) => write,
            Err(_) => None,
        }
    }
}

/// A journal is written only while it is not degraded, in at most 4 194 304 bytes and at
/// most 4 096 entries; a degraded one refuses every write as a conflict.
pub proof fn law_journal_writes_are_bounded(
    state: JournalState,
    next: Map<Seq<char>, JsonV>,
    r: Result<PendingWrite, IpcError>,
)
    requires
        state.write_of(next, r),
    ensures
        r matches Ok(write) ==> {
            &&& write.next@ == next
            &&& is_file_of(write.bytes@, next)
            &&& state.degraded is None
            &&& next.dom().len() <= 4096
            &&& (durable_bytes(next) matches Some(bytes) && bytes.len() <= 4_194_304)
        },
        state.degraded is Some ==> (r matches Err(e) && e.code == ErrorCode::Conflict),
        state.degraded is None ==> (r matches Err(e) ==> e.code == ErrorCode::Internal),
        state.degraded is None && state.persist_fault == 0 && next.dom().len() <= 4096 && (
        durable_bytes(next) matches Some(bytes) && bytes.len() <= 4_194_304) ==> r is Ok,
{
}

/// Only a completed receipt that has not expired is replayed, as it stands. A key that
/// is not there is new; an entry that has not provably ended refuses the retry.
pub proof fn law_only_receipts_are_replayed(
    state: JournalState,
    after: JournalState,
    r: Result<Lookup, IpcError>,
    key: Seq<char>,
    now: int,
)
    requires
        state.looks_up(after, r, Some(key), now),
    ensures
        after.journal == state.journal,
        r matches Ok(Lookup::Absent) <==> !state.journal@.contains_key(key),
        r matches Ok(Lookup::Receipt(receipt)) ==> state.journal@.contains_key(key) && receipt@
            == state.journal@[key] && entry_state(state.journal@[key]) is Completed,
        state.journal@.contains_key(key) && entry_state(state.journal@[key]) is Completed
            && !is_expired(state.journal@[key], now) ==> (r matches Ok(Lookup::Receipt(_))),
        state.journal@.contains_key(key) && !(entry_state(state.journal@[key]) is Completed) ==> (
        r matches Err(e) && e.code == ErrorCode::Conflict),
        r matches Ok(Lookup::Expired(Some(write))) ==> write.next@ == state.journal@.remove(key)
            && is_expired(state.journal@[key], now),
{
}

/// An operation begins once: its key is reserved by a marker that names it, beside every
/// other entry as it was, and only where the key is free. Room is made by taking out
/// expired receipts alone; a full journal refuses.
pub proof fn law_operations_begin_once(
    state: JournalState,
    after: JournalState,
    r: Result<BeginPlan, IpcError>,
    key: Seq<char>,
    operation_id: Seq<char>,
    now: int,
)
    requires
        state.begins(after, r, Some(key), operation_id, now),
    ensures
        after.journal == state.journal,
        !(r matches Ok(BeginPlan::Unkeyed)),
        state.journal@.contains_key(key) ==> (r matches Err(e) && e.code == ErrorCode::Conflict),
        r matches Ok(BeginPlan::Reserve(write)) ==> {
            &&& !state.journal@.contains_key(key)
            &&& write.next@.contains_key(key)
            &&& write.next@[key].get("operation_id"@) == Some(JsonV::Str(operation_id))
            &&& write.next@[key].get("__ownmesh_operation_state"@) == Some(
                JsonV::Str("in_progress"@),
            )
            &&& write.next@.remove(key) == state.journal@
        },
        r matches Ok(BeginPlan::Evict(write, evicted)) ==> {
            &&& evicted > 0
            &&& evicted == state.journal@.dom().len() - write.next@.dom().len()
            &&& forall|k: Seq<char>| #[trigger]
                state.journal@.contains_key(k) && !is_expired(state.journal@[k], now)
                    ==> write.next@.contains_key(k) && write.next@[k] == state.journal@[k]
            &&& forall|k: Seq<char>| #[trigger]
                write.next@.contains_key(k) ==> state.journal@.contains_key(k)
        },
        state.journal@.dom().len() >= 4096 && !state.journal@.contains_key(key) && unexpired(
            state.journal@,
            now,
        ).dom().len() >= state.journal@.dom().len() ==> (r matches Err(e) && e.code
            == ErrorCode::JournalCapacity),
{
    reveal_strlit("__ownmesh_operation_state");
    reveal_strlit("operation_id");
    assert("__ownmesh_operation_state"@.len() == 25 && "operation_id"@.len() == 12);
    if !state.journal@.contains_key(key) {
        assert(state.journal@.insert(key, marker(operation_id)).remove(key) =~= state.journal@);
    }
}

/// A stored result takes the place of the entry under its key, stamped with the present
/// time, and leaves every other entry as it was.
pub proof fn law_results_are_stored_under_their_key(
    state: JournalState,
    after: JournalState,
    r: Result<Option<PendingWrite>, IpcError>,
    key: Seq<char>,
    value: JsonV,
    now: int,
)
    requires
        state.stores(after, r, Some(key), value, now),
    ensures
        after.journal == state.journal,
        !(r matches Ok(None)),
        r matches Ok(Some(write)) ==> {
            &&& write.next@.contains_key(key)
            &&& write.next@[key] == durable_entry(stamped(value, now))
            &&& forall|k: Seq<char>|
                k != key ==> (#[trigger] write.next@.contains_key(k)
                    <==> state.journal@.contains_key(k)) && write.next@[k] == state.journal@[k]
        },
        value is Object ==> stamped(value, now).get("__ownmesh_completed_unix"@) == Some(
            JsonV::Integer(now),
        ),
        forall|name: Seq<char>|
            name != "__ownmesh_completed_unix"@ ==> #[trigger] stamped(value, now).get(name)
                == value.get(name),
{
}

/// A failure is stored only over the marker of the same operation; without it the
/// journal stays as it is and nothing is written.
pub proof fn law_failures_replace_their_own_marker(
    state: JournalState,
    after: JournalState,
    r: Result<Option<PendingWrite>, IpcError>,
    key: Seq<char>,
    operation_id: Seq<char>,
    error_code: int,
    error_message: Seq<char>,
    now: int,
)
    requires
        state.stores_failure(
            after,
            r,
            Some(key),
            operation_id,
            error_code,
            error_message,
            now,
        ),
    ensures
        after.journal == state.journal,
        r matches Ok(Some(write)) ==> {
            &&& state.journal@.contains_key(key)
            &&& entry_state(state.journal@[key]) is InProgress
            &&& state.journal@[key].get("operation_id"@) == Some(JsonV::Str(operation_id))
            &&& forall|k: Seq<char>|
                k != key ==> (#[trigger] write.next@.contains_key(k)
                    <==> state.journal@.contains_key(k)) && write.next@[k] == state.journal@[k]
        },
        state.journal@.contains_key(key) && entry_state(state.journal@[key]) is InProgress
            && state.journal@[key].get("operation_id"@) == Some(JsonV::Str(operation_id)) ==> !(
        r matches Ok(None)),
        !state.journal@.contains_key(key) ==> (r matches Ok(None)) && after == state,
{
}

/// A failure names its operation and its error: the code, the message, and that it is not
/// to be tried again.
pub proof fn law_failures_name_their_error(operation_id: Seq<char>, code: int, message: Seq<char>)
    ensures
        failure(operation_id, code, message).get("durable_receipt"@) == Some(JsonV::Bool(true)),
        failure(operation_id, code, message).get("status"@) == Some(JsonV::Str("failed"@)),
        failure(operation_id, code, message).get("operation_id"@) == Some(JsonV::Str(operation_id)),
        failure(operation_id, code, message).get("error"@) matches Some(error) && {
            &&& error.get("code"@) == Some(JsonV::Integer(code))
            &&& error.get("retryable"@) == Some(JsonV::Bool(false))
            &&& (utf8_len(message) <= 512 ==> error.get("message"@) == Some(JsonV::Str(message)))
        },
{
    reveal_strlit("durable_receipt");
    reveal_strlit("status");
    reveal_strlit("operation_id");
    reveal_strlit("error");
    reveal_strlit("code");
    reveal_strlit("message");
    reveal_strlit("retryable");
    assert("durable_receipt"@.len() == 15 && "status"@.len() == 6 && "operation_id"@.len() == 12 && "error"@.len() == 5 && "code"@.len() == 4 && "message"@.len() == 7 && "retryable"@.len() == 9);
}

/// A stored message is the whole of a message of up to 512 bytes; a longer one is cut,
/// and ends with an ellipsis.
pub proof fn law_long_messages_are_cut(message: Seq<char>)
    ensures
        utf8_len(message) <= 512 ==> bounded_message(message) == message,
        utf8_len(message) > 512 ==> bounded_message(message).last() == '\u{2026}'
            && bounded_message(message).drop_last() == prefix_within(message, 512)
            && bounded_message(message).len() >= 1,
{
    if utf8_len(message) > 512 {
        assert(bounded_message(message).drop_last() =~= prefix_within(message, 512));
    }
}

/// An injected fault is spent by counting down to zero.
pub proof fn law_faults_are_counted_down(countdown: usize)
    ensures
        countdown > 0 ==> spent(countdown) == countdown - 1,
        spent(0) == 0,
{
}

/// A late failure is settled only over the marker of its own operation, under its own
/// key, and leaves every other entry alone.
pub proof fn law_late_failures_settle_their_own_marker(
    state: JournalState,
    after: JournalState,
    r: Option<PendingWrite>,
    key: Seq<char>,
    operation_id: Seq<char>,
    receipt: JsonV,
    now: int,
)
    requires
        state.reconciles(after, r, key, operation_id, receipt, now),
    ensures
        after.journal == state.journal,
        r matches Some(write) ==> {
            &&& state.journal@.contains_key(key)
            &&& entry_state(state.journal@[key]) is InProgress
            &&& state.journal@[key].get("operation_id"@) == Some(JsonV::Str(operation_id))
            &&& write.next@[key] == durable_entry(stamped(receipt, now))
            &&& forall|k: Seq<char>|
                k != key ==> (#[trigger] write.next@.contains_key(k)
                    <==> state.journal@.contains_key(k)) && write.next@[k] == state.journal@[k]
        },
        !state.journal@.contains_key(key) ==> r is None && after == state,
{
}

} // verus!

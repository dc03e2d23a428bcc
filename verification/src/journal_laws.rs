//! What the journal promises as a whole.
use crate::codec::decoded;
use crate::journal::{
    aged_view, durable_entry, durable_view, entry_state, flag_member, integer_member, is_expired,
    names_operation, object_member, receipt_base, receipt_of, receipt_status, short_text_member,
    text_member, unexpired, with_continuation, with_operation_identity, with_terminal_flags,
    OpJournalEntryState, OP_JOURNAL_COMPLETED_TTL_SECS, OP_JOURNAL_COMPLETED_UNIX_FIELD,
    OP_JOURNAL_IN_PROGRESS, OP_JOURNAL_STATE_FIELD,
};
use crate::journal_load::loaded_view;
use crate::json::{is_plain, JsonV, MAX_NESTING};
use crate::lifecycle::{durable_bytes, failure, is_file_of, marker, owns_marker, stamped};
use crate::text::utf8_len;
use vstd::prelude::*;

verus! {

/// The field names of an entry tell themselves apart by length and first letter.
proof fn lemma_field_names()
    ensures
        "durable_receipt"@.len() == 15 && "durable_receipt"@[0] == 'd',
        "truncated"@.len() == 9 && "truncated"@[0] == 't',
        "status"@.len() == 6 && "status"@[0] == 's',
        "note"@.len() == 4 && "note"@[0] == 'n',
        "closed"@.len() == 6 && "closed"@[0] == 'c',
        "detached"@.len() == 8 && "detached"@[0] == 'd',
        "terminated"@.len() == 10 && "terminated"@[0] == 't',
        "reconciled"@.len() == 10 && "reconciled"@[0] == 'r',
        "live_pty"@.len() == 8 && "live_pty"@[0] == 'l',
        "operation_id"@.len() == 12 && "operation_id"@[0] == 'o',
        "__ownmesh_completed_unix"@.len() == 24 && "__ownmesh_completed_unix"@[0] == '_',
        "remote_payload_hash"@.len() == 19 && "remote_payload_hash"@[0] == 'r',
        "review_id"@.len() == 9 && "review_id"@[0] == 'r',
        "workspace_id"@.len() == 12 && "workspace_id"@[0] == 'w',
        "phase"@.len() == 5 && "phase"@[0] == 'p',
        "id"@.len() == 2 && "id"@[0] == 'i',
        "session_id"@.len() == 10 && "session_id"@[0] == 's',
        "controller_epoch"@.len() == 16 && "controller_epoch"@[0] == 'c',
        "controller"@.len() == 10 && "controller"@[0] == 'c',
        "lease"@.len() == 5 && "lease"@[0] == 'l',
        "session"@.len() == 7 && "session"@[0] == 's',
        "error"@.len() == 5 && "error"@[0] == 'e',
        "__ownmesh_operation_state"@.len() == 25 && "__ownmesh_operation_state"@[0] == '_',
        "decision"@.len() == 8 && "decision"@[0] == 'd',
        "approval_required"@.len() == 17 && "approval_required"@[0] == 'a',
        "decision"@[2] == 'c' && "detached"@[2] == 't',
{
    reveal_strlit("durable_receipt");
    reveal_strlit("truncated");
    reveal_strlit("status");
    reveal_strlit("note");
    reveal_strlit("closed");
    reveal_strlit("detached");
    reveal_strlit("terminated");
    reveal_strlit("reconciled");
    reveal_strlit("live_pty");
    reveal_strlit("operation_id");
    reveal_strlit("__ownmesh_completed_unix");
    reveal_strlit("remote_payload_hash");
    reveal_strlit("review_id");
    reveal_strlit("workspace_id");
    reveal_strlit("phase");
    reveal_strlit("id");
    reveal_strlit("session_id");
    reveal_strlit("controller_epoch");
    reveal_strlit("controller");
    reveal_strlit("lease");
    reveal_strlit("session");
    reveal_strlit("error");
    reveal_strlit("__ownmesh_operation_state");
    reveal_strlit("decision");
    reveal_strlit("approval_required");
}

/// The value under a key.
spec fn at(members: Map<Seq<char>, JsonV>, key: Seq<char>) -> Option<JsonV> {
    if members.contains_key(key) {
        Some(members[key])
    } else {
        None
    }
}

/// The first of two that is there.
spec fn or_else(a: Option<JsonV>, b: Option<JsonV>) -> Option<JsonV> {
    match a {
        Some(_) => a,
        None => b,
    }
}

/// What every receipt starts from.
proof fn lemma_base(status: JsonV)
    ensures
        forall|q: Seq<char>|
            q != "durable_receipt"@ && q != "truncated"@ && q != "status"@ && q != "note"@
                ==> #[trigger] at(receipt_base(status), q) is None,
        at(receipt_base(status), "durable_receipt"@) == Some(JsonV::Bool(true)),
        at(receipt_base(status), "truncated"@) == Some(JsonV::Bool(true)),
        at(receipt_base(status), "status"@) == Some(status),
{
    lemma_field_names();
    reveal(receipt_base);
}

/// The terminal flags that a receipt keeps.
proof fn lemma_flags(members: Map<Seq<char>, JsonV>, entry: JsonV)
    ensures
        forall|q: Seq<char>|
            q != "closed"@ && q != "detached"@ && q != "terminated"@ && q != "reconciled"@ && q != "live_pty"@ ==> #[trigger] at(with_terminal_flags(members, entry), q) == at(members, q),
        at(with_terminal_flags(members, entry), "closed"@) == or_else(flag_member(entry, "closed"@), at(members, "closed"@)),
        at(with_terminal_flags(members, entry), "detached"@) == or_else(flag_member(entry, "detached"@), at(members, "detached"@)),
        at(with_terminal_flags(members, entry), "terminated"@) == or_else(flag_member(entry, "terminated"@), at(members, "terminated"@)),
        at(with_terminal_flags(members, entry), "reconciled"@) == or_else(flag_member(entry, "reconciled"@), at(members, "reconciled"@)),
        at(with_terminal_flags(members, entry), "live_pty"@) == or_else(flag_member(entry, "live_pty"@), at(members, "live_pty"@)),
{
    lemma_field_names();
    reveal(with_terminal_flags);
}

/// The identity that a receipt keeps.
proof fn lemma_identity(members: Map<Seq<char>, JsonV>, entry: JsonV)
    ensures
        forall|q: Seq<char>|
            q != "operation_id"@ && q != OP_JOURNAL_COMPLETED_UNIX_FIELD@ && q != "remote_payload_hash"@ && q != "review_id"@ && q != "workspace_id"@ && q != "phase"@ ==> #[trigger] at(with_operation_identity(members, entry), q) == at(members, q),
        at(with_operation_identity(members, entry), "operation_id"@) == or_else(entry.get("operation_id"@), at(members, "operation_id"@)),
        at(with_operation_identity(members, entry), OP_JOURNAL_COMPLETED_UNIX_FIELD@) == or_else(entry.get(OP_JOURNAL_COMPLETED_UNIX_FIELD@), at(members, OP_JOURNAL_COMPLETED_UNIX_FIELD@)),
        at(with_operation_identity(members, entry), "remote_payload_hash"@) == or_else(entry.get("remote_payload_hash"@), at(members, "remote_payload_hash"@)),
        at(with_operation_identity(members, entry), "review_id"@) == or_else(entry.get("review_id"@), at(members, "review_id"@)),
        at(with_operation_identity(members, entry), "workspace_id"@) == or_else(entry.get("workspace_id"@), at(members, "workspace_id"@)),
        at(with_operation_identity(members, entry), "phase"@) == or_else(text_member(entry, "phase"@), at(members, "phase"@)),
{
    lemma_field_names();
    reveal(with_operation_identity);
}

/// The continuation that a receipt keeps.
proof fn lemma_continuation(members: Map<Seq<char>, JsonV>, entry: JsonV)
    ensures
        forall|q: Seq<char>|
            q != "id"@ && q != "session_id"@ && q != "controller_epoch"@ && q != "controller"@ && q != "lease"@ && q != "session"@ && q != "error"@ ==> #[trigger] at(with_continuation(members, entry), q) == at(members, q),
        at(with_continuation(members, entry), "id"@) == or_else(short_text_member(entry, "id"@), at(members, "id"@)),
        at(with_continuation(members, entry), "session_id"@) == or_else(short_text_member(entry, "session_id"@), at(members, "session_id"@)),
        at(with_continuation(members, entry), "controller_epoch"@) == or_else(integer_member(entry, "controller_epoch"@), at(members, "controller_epoch"@)),
        at(with_continuation(members, entry), "controller"@) == or_else(object_member(entry, "controller"@), at(members, "controller"@)),
        at(with_continuation(members, entry), "lease"@) == or_else(object_member(entry, "lease"@), at(members, "lease"@)),
        at(with_continuation(members, entry), "session"@) == or_else(object_member(entry, "session"@), at(members, "session"@)),
        at(with_continuation(members, entry), "error"@) == or_else(object_member(entry, "error"@), at(members, "error"@)),
{
    lemma_field_names();
    reveal(with_continuation);
}

/// A receipt has no marker field, and keeps the fields that identify it.
proof fn lemma_receipt_fields(entry: JsonV)
    ensures
        receipt_of(entry).get(OP_JOURNAL_STATE_FIELD@) == None::<JsonV>,
        receipt_of(entry).get("durable_receipt"@) == Some(JsonV::Bool(true)),
        receipt_of(entry).get("status"@) == Some(receipt_status(entry)),
        receipt_of(entry).get("truncated"@) == Some(JsonV::Bool(true)),
        receipt_of(entry).get("operation_id"@) == entry.get("operation_id"@),
        receipt_of(entry).get(OP_JOURNAL_COMPLETED_UNIX_FIELD@) == entry.get(OP_JOURNAL_COMPLETED_UNIX_FIELD@),
        receipt_of(entry).get("remote_payload_hash"@) == entry.get("remote_payload_hash"@),
        receipt_of(entry).get("review_id"@) == entry.get("review_id"@),
        receipt_of(entry).get("workspace_id"@) == entry.get("workspace_id"@),
        receipt_of(entry).get("phase"@) == text_member(entry, "phase"@),
{
    let m0 = receipt_base(receipt_status(entry));
    let m1 = with_terminal_flags(m0, entry);
    let m2 = with_operation_identity(m1, entry);
    let m3 = with_continuation(m2, entry);
    lemma_base(receipt_status(entry));
    lemma_flags(m0, entry);
    lemma_identity(m1, entry);
    lemma_continuation(m2, entry);
    lemma_field_names();
    assert(receipt_of(entry) == JsonV::Object(m3));
    assert(forall|q: Seq<char>| receipt_of(entry).get(q) == #[trigger] at(m3, q));
    assert(at(m3, OP_JOURNAL_STATE_FIELD@) == None::<JsonV>);
    assert(at(m3, "durable_receipt"@) == Some(JsonV::Bool(true)));
    assert(at(m3, "status"@) == Some(receipt_status(entry)));
    assert(at(m3, "truncated"@) == Some(JsonV::Bool(true)));
    assert(at(m3, "operation_id"@) == entry.get("operation_id"@));
    assert(at(m3, OP_JOURNAL_COMPLETED_UNIX_FIELD@) == entry.get(OP_JOURNAL_COMPLETED_UNIX_FIELD@));
    assert(at(m3, "remote_payload_hash"@) == entry.get("remote_payload_hash"@));
    assert(at(m3, "review_id"@) == entry.get("review_id"@));
    assert(at(m3, "workspace_id"@) == entry.get("workspace_id"@));
    assert(at(m3, "phase"@) == text_member(entry, "phase"@));
}

/// The terminal flags of a receipt.
proof fn lemma_receipt_flags(entry: JsonV)
    ensures
        receipt_of(entry).get("closed"@) == flag_member(entry, "closed"@),
        receipt_of(entry).get("detached"@) == flag_member(entry, "detached"@),
        receipt_of(entry).get("terminated"@) == flag_member(entry, "terminated"@),
        receipt_of(entry).get("reconciled"@) == flag_member(entry, "reconciled"@),
        receipt_of(entry).get("live_pty"@) == flag_member(entry, "live_pty"@),
{
    let m0 = receipt_base(receipt_status(entry));
    let m1 = with_terminal_flags(m0, entry);
    let m2 = with_operation_identity(m1, entry);
    let m3 = with_continuation(m2, entry);
    lemma_base(receipt_status(entry));
    lemma_flags(m0, entry);
    lemma_identity(m1, entry);
    lemma_continuation(m2, entry);
    lemma_field_names();
    assert(receipt_of(entry) == JsonV::Object(m3));
    assert(forall|q: Seq<char>| receipt_of(entry).get(q) == #[trigger] at(m3, q));
    assert(at(m3, "closed"@) == flag_member(entry, "closed"@));
    assert(at(m3, "detached"@) == flag_member(entry, "detached"@));
    assert(at(m3, "terminated"@) == flag_member(entry, "terminated"@));
    assert(at(m3, "reconciled"@) == flag_member(entry, "reconciled"@));
    assert(at(m3, "live_pty"@) == flag_member(entry, "live_pty"@));
}

/// The continuation of a receipt.
proof fn lemma_receipt_continuation(entry: JsonV)
    ensures
        receipt_of(entry).get("id"@) == short_text_member(entry, "id"@),
        receipt_of(entry).get("session_id"@) == short_text_member(entry, "session_id"@),
        receipt_of(entry).get("controller_epoch"@) == integer_member(entry, "controller_epoch"@),
        receipt_of(entry).get("controller"@) == object_member(entry, "controller"@),
        receipt_of(entry).get("lease"@) == object_member(entry, "lease"@),
        receipt_of(entry).get("session"@) == object_member(entry, "session"@),
        receipt_of(entry).get("error"@) == object_member(entry, "error"@),
{
    let m0 = receipt_base(receipt_status(entry));
    let m1 = with_terminal_flags(m0, entry);
    let m2 = with_operation_identity(m1, entry);
    let m3 = with_continuation(m2, entry);
    lemma_base(receipt_status(entry));
    lemma_flags(m0, entry);
    lemma_identity(m1, entry);
    lemma_continuation(m2, entry);
    lemma_field_names();
    assert(receipt_of(entry) == JsonV::Object(m3));
    assert(forall|q: Seq<char>| receipt_of(entry).get(q) == #[trigger] at(m3, q));
    assert(at(m3, "id"@) == short_text_member(entry, "id"@));
    assert(at(m3, "session_id"@) == short_text_member(entry, "session_id"@));
    assert(at(m3, "controller_epoch"@) == integer_member(entry, "controller_epoch"@));
    assert(at(m3, "controller"@) == object_member(entry, "controller"@));
    assert(at(m3, "lease"@) == object_member(entry, "lease"@));
    assert(at(m3, "session"@) == object_member(entry, "session"@));
    assert(at(m3, "error"@) == object_member(entry, "error"@));
}

/// The fields that a receipt may have.
pub open spec fn is_receipt_field(name: Seq<char>) -> bool {
    ||| name == "durable_receipt"@
    ||| name == "truncated"@
    ||| name == "status"@
    ||| name == "note"@
    ||| name == "closed"@
    ||| name == "detached"@
    ||| name == "terminated"@
    ||| name == "reconciled"@
    ||| name == "live_pty"@
    ||| name == "operation_id"@
    ||| name == OP_JOURNAL_COMPLETED_UNIX_FIELD@
    ||| name == "remote_payload_hash"@
    ||| name == "review_id"@
    ||| name == "workspace_id"@
    ||| name == "phase"@
    ||| name == "id"@
    ||| name == "session_id"@
    ||| name == "controller_epoch"@
    ||| name == "controller"@
    ||| name == "lease"@
    ||| name == "session"@
    ||| name == "error"@
}

/// A receipt has no field but those of a receipt: no result body and no output.
pub proof fn law_receipt_has_no_body(entry: JsonV)
    ensures
        forall|name: Seq<char>| #[trigger]
            receipt_of(entry).get(name) is Some ==> is_receipt_field(name),
        receipt_of(entry).get("result"@) is None,
        receipt_of(entry).get("stdout"@) is None,
{
    let m0 = receipt_base(receipt_status(entry));
    let m1 = with_terminal_flags(m0, entry);
    let m2 = with_operation_identity(m1, entry);
    let m3 = with_continuation(m2, entry);
    lemma_base(receipt_status(entry));
    lemma_flags(m0, entry);
    lemma_identity(m1, entry);
    lemma_continuation(m2, entry);
    lemma_field_names();
    assert(receipt_of(entry) == JsonV::Object(m3));
    assert(forall|q: Seq<char>| receipt_of(entry).get(q) == #[trigger] at(m3, q));
    assert forall|name: Seq<char>| #[trigger]
        receipt_of(entry).get(name) is Some implies is_receipt_field(name) by {
        if !is_receipt_field(name) {
            assert(at(m0, name) is None);
            assert(at(m1, name) is None);
            assert(at(m2, name) is None);
            assert(at(m3, name) is None);
        }
    }
    reveal_strlit("result");
    reveal_strlit("stdout");
    assert("result"@.len() == 6 && "result"@[0] == 'r');
    assert("stdout"@.len() == 6 && "stdout"@[1] == 't' && "stdout"@[2] == 'd');
    reveal_strlit("status");
    assert("status"@[2] == 'a');
    assert(at(m3, "result"@) is None);
    assert(at(m3, "stdout"@) is None);
}

/// Compacting keeps the state of an entry: a receipt is still completed, and
/// every other entry is untouched.
pub proof fn law_compaction_keeps_state(entry: JsonV)
    ensures
        entry_state(durable_entry(entry)) == entry_state(entry),
        entry_state(entry) != OpJournalEntryState::Completed ==> durable_entry(entry) == entry,
{
    if entry_state(entry) == OpJournalEntryState::Completed {
        lemma_receipt_fields(entry);
        assert(names_operation(entry));
    }
}

/// Compacting a receipt again changes nothing.
pub proof fn law_compaction_is_idempotent(entry: JsonV)
    ensures
        durable_entry(durable_entry(entry)) == durable_entry(entry),
{
    law_compaction_keeps_state(entry);
    if entry_state(entry) == OpJournalEntryState::Completed {
        let once = receipt_of(entry);
        lemma_receipt_fields(entry);
        lemma_receipt_flags(entry);
        lemma_receipt_continuation(entry);
        assert(receipt_status(once) == receipt_status(entry));
        let base = receipt_base(receipt_status(entry));
        assert(with_terminal_flags(base, once) == with_terminal_flags(base, entry)) by {
            reveal(with_terminal_flags);
        }
        let flags = with_terminal_flags(base, entry);
        assert(with_operation_identity(flags, once) == with_operation_identity(flags, entry)) by {
            reveal(with_operation_identity);
        }
        let identity = with_operation_identity(flags, entry);
        assert(with_continuation(identity, once) == with_continuation(identity, entry)) by {
            reveal(with_continuation);
        }
    }
}

/// The durable journal has the keys of the journal, and its own durable journal
/// is itself.
pub proof fn law_durable_view_keeps_keys(journal: Map<Seq<char>, JsonV>)
    ensures
        durable_view(journal).dom() == journal.dom(),
        durable_view(durable_view(journal)) == durable_view(journal),
{
    assert(durable_view(journal).dom() =~= journal.dom());
    assert forall|k: Seq<char>| journal.contains_key(k) implies #[trigger] durable_view(
        durable_view(journal),
    )[k] == durable_view(journal)[k] by {
        law_compaction_is_idempotent(journal[k]);
    }
    assert(durable_view(durable_view(journal)) =~= durable_view(journal));
}

/// A reserved key refuses a retry until the operation ends: its entry is the
/// marker of that operation, at any time.
pub proof fn law_reserved_key_is_in_progress(
    journal: Map<Seq<char>, JsonV>,
    key: Seq<char>,
    operation_id: Seq<char>,
    now: int,
)
    ensures
        ({
            let after = journal.insert(key, marker(operation_id));
            &&& entry_state(after[key]) == OpJournalEntryState::InProgress
            &&& owns_marker(after, key, operation_id)
            &&& unexpired(after, now).contains_key(key)
            &&& durable_view(after)[key] == marker(operation_id)
        }),
{
    lemma_field_names();
    let entry = marker(operation_id);
    assert(entry.get(OP_JOURNAL_STATE_FIELD@) == Some(JsonV::Str(OP_JOURNAL_IN_PROGRESS@)));
}

/// Only a completed receipt whose age is known and has reached the retention
/// window is dropped; markers and entries of unknown state never are.
pub proof fn law_only_old_receipts_are_evicted(
    journal: Map<Seq<char>, JsonV>,
    key: Seq<char>,
    now: int,
)
    requires
        journal.contains_key(key),
        !unexpired(journal, now).contains_key(key),
    ensures
        entry_state(journal[key]) == OpJournalEntryState::Completed,
        journal[key].get_i64(OP_JOURNAL_COMPLETED_UNIX_FIELD@) matches Some(stamp) && stamp > 0
            && now - stamp >= OP_JOURNAL_COMPLETED_TTL_SECS,
{
}

/// Stamping a result does not change what it is.
proof fn lemma_stamp_keeps_state(value: JsonV, now: int)
    ensures
        entry_state(stamped(value, now)) == entry_state(value),
        value is Object ==> stamped(value, now).get(OP_JOURNAL_COMPLETED_UNIX_FIELD@) == Some(
            JsonV::Integer(now),
        ),
{
    lemma_field_names();
    if value is Object {
        let after = stamped(value, now);
        assert(after.get(OP_JOURNAL_STATE_FIELD@) == value.get(OP_JOURNAL_STATE_FIELD@));
        assert(after.get("operation_id"@) == value.get("operation_id"@));
        assert(after.get("durable_receipt"@) == value.get("durable_receipt"@));
        assert(after.get("decision"@) == value.get("decision"@));
        assert(after.get("approval_required"@) == value.get("approval_required"@));
        assert(after.get("review_id"@) == value.get("review_id"@));
    }
}

/// A completed result that was stored is replayed as its receipt, with the same
/// operation, until the retention window closes.
pub proof fn law_stored_result_replays(value: JsonV, stored: int, now: int)
    requires
        entry_state(value) == OpJournalEntryState::Completed,
        i64::MIN <= stored <= i64::MAX,
        now - stored < OP_JOURNAL_COMPLETED_TTL_SECS,
    ensures
        ({
            let receipt = durable_entry(stamped(value, stored));
            &&& entry_state(receipt) == OpJournalEntryState::Completed
            &&& !is_expired(receipt, now)
            &&& receipt.get("operation_id"@) == value.get("operation_id"@)
            &&& receipt.get("result"@) is None
        }),
{
    let entry = stamped(value, stored);
    lemma_stamp_keeps_state(value, stored);
    law_compaction_keeps_state(entry);
    lemma_receipt_fields(entry);
    law_receipt_has_no_body(entry);
    lemma_field_names();
    assert(entry.get("operation_id"@) == value.get("operation_id"@));
}

/// A stored failure is replayed as a failure, with the error it ended with, until
/// the retention window closes.
pub proof fn law_stored_failure_replays(
    operation_id: Seq<char>,
    code: int,
    message: Seq<char>,
    stored: int,
    now: int,
)
    requires
        operation_id.len() > 0,
        i64::MIN <= stored <= i64::MAX,
        now - stored < OP_JOURNAL_COMPLETED_TTL_SECS,
    ensures
        ({
            let entry = failure(operation_id, code, message);
            let receipt = durable_entry(stamped(entry, stored));
            &&& entry_state(receipt) == OpJournalEntryState::Completed
            &&& !is_expired(receipt, now)
            &&& receipt.get_str("status"@) == Some("failed"@)
            &&& receipt.get_str("operation_id"@) == Some(operation_id)
            &&& receipt.get("error"@) == entry.get("error"@)
        }),
{
    lemma_field_names();
    let entry = failure(operation_id, code, message);
    assert(entry.get(OP_JOURNAL_STATE_FIELD@) is None);
    assert(entry.get_bool("durable_receipt"@) == Some(true));
    assert(entry.get_str("operation_id"@) == Some(operation_id));
    assert(entry_state(entry) == OpJournalEntryState::Completed);
    lemma_stamp_keeps_state(entry, stored);
    let kept = stamped(entry, stored);
    lemma_receipt_fields(kept);
    lemma_receipt_continuation(kept);
    law_compaction_keeps_state(kept);
    assert(kept.get("phase"@) is None);
    assert(kept.get("status"@) == Some(JsonV::Str("failed"@)));
    assert(kept.get("error"@) == entry.get("error"@));
}

/// What stays in memory after a store and what was written agree: both have the
/// same durable bytes.
pub proof fn law_memory_and_file_agree(
    journal: Map<Seq<char>, JsonV>,
    key: Seq<char>,
    entry: JsonV,
)
    ensures
        durable_view(journal.insert(key, durable_entry(entry))) == durable_view(
            journal.insert(key, entry),
        ),
        durable_bytes(journal.insert(key, durable_entry(entry))) == durable_bytes(
            journal.insert(key, entry),
        ),
{
    law_compaction_is_idempotent(entry);
    assert(durable_view(journal.insert(key, durable_entry(entry))) =~= durable_view(
        journal.insert(key, entry),
    ));
}

/// A journal that was written and loaded again has the same entries: markers and
/// entries of unknown state verbatim, completed ones as their receipts, those
/// without a completion time stamped with the time of loading.
pub proof fn law_reload_restores_the_journal(
    journal: Map<Seq<char>, JsonV>,
    bytes: Seq<u8>,
    now: int,
)
    requires
        is_file_of(bytes, journal),
        is_plain(JsonV::Object(durable_view(journal)), MAX_NESTING as nat),
    ensures
        ({
            let loaded = loaded_view(decoded(bytes)->0, now);
            &&& loaded == aged_view(durable_view(journal), now)
            &&& loaded.dom() == journal.dom()
            &&& forall|k: Seq<char>|
                journal.contains_key(k) && entry_state(journal[k])
                    != OpJournalEntryState::Completed ==> #[trigger] loaded[k] == journal[k]
        }),
{
    law_durable_view_keeps_keys(journal);
    let loaded = loaded_view(durable_view(journal), now);
    assert(loaded.dom() =~= journal.dom());
}

/// A completed result is replayed across a restart: the journal loaded from the
/// file that was written holds the very receipt that stayed in memory, and it is
/// still valid until the retention window closes.
pub proof fn law_receipts_survive_a_restart(
    journal: Map<Seq<char>, JsonV>,
    key: Seq<char>,
    value: JsonV,
    bytes: Seq<u8>,
    stored: int,
    now: int,
)
    requires
        entry_state(value) == OpJournalEntryState::Completed,
        is_file_of(bytes, journal.insert(key, stamped(value, stored))),
        is_plain(
            JsonV::Object(durable_view(journal.insert(key, stamped(value, stored)))),
            MAX_NESTING as nat,
        ),
        i64::MIN <= stored <= i64::MAX,
        now - stored < OP_JOURNAL_COMPLETED_TTL_SECS,
    ensures
        ({
            let loaded = loaded_view(decoded(bytes)->0, now);
            &&& loaded.contains_key(key)
            &&& loaded[key] == durable_entry(stamped(value, stored))
            &&& entry_state(loaded[key]) == OpJournalEntryState::Completed
            &&& !is_expired(loaded[key], now)
        }),
{
    let entry = stamped(value, stored);
    let written = journal.insert(key, entry);
    law_stored_result_replays(value, stored, now);
    law_compaction_is_idempotent(entry);
    law_reload_restores_the_journal(written, bytes, now);
    lemma_stamp_keeps_state(value, stored);
    lemma_receipt_fields(entry);
}

/// An operation that was interrupted is never run again on a retry: the journal
/// loaded after a restart still holds its marker.
pub proof fn law_markers_survive_a_restart(
    journal: Map<Seq<char>, JsonV>,
    key: Seq<char>,
    operation_id: Seq<char>,
    bytes: Seq<u8>,
    now: int,
)
    requires
        is_file_of(bytes, journal.insert(key, marker(operation_id))),
        is_plain(
            JsonV::Object(durable_view(journal.insert(key, marker(operation_id)))),
            MAX_NESTING as nat,
        ),
    ensures
        loaded_view(decoded(bytes)->0, now).contains_key(key),
        loaded_view(decoded(bytes)->0, now)[key] == marker(operation_id),
        entry_state(loaded_view(decoded(bytes)->0, now)[key]) == OpJournalEntryState::InProgress,
{
    law_reserved_key_is_in_progress(journal, key, operation_id, now);
    law_reload_restores_the_journal(journal.insert(key, marker(operation_id)), bytes, now);
}

/// A receipt keeps what identifies its operation and where it ended: the operation, its
/// stamp, the payload hash, the review and the workspace as they were; the phase where it
/// is text; the flags and the epoch where they are plain; the controller, the lease, the
/// session and the error where they are objects; and short identifiers.
pub proof fn law_receipts_keep_what_identifies_them(entry: JsonV)
    ensures
        receipt_of(entry).get("durable_receipt"@) == Some(JsonV::Bool(true)),
        receipt_of(entry).get("truncated"@) == Some(JsonV::Bool(true)),
        receipt_of(entry).get("operation_id"@) == entry.get("operation_id"@),
        receipt_of(entry).get("__ownmesh_completed_unix"@) == entry.get(
            "__ownmesh_completed_unix"@,
        ),
        receipt_of(entry).get("remote_payload_hash"@) == entry.get("remote_payload_hash"@),
        receipt_of(entry).get("review_id"@) == entry.get("review_id"@),
        receipt_of(entry).get("workspace_id"@) == entry.get("workspace_id"@),
        entry.get("phase"@) matches Some(JsonV::Str(phase)) ==> receipt_of(entry).get("phase"@)
            == Some(JsonV::Str(phase)),
        entry.get("error"@) matches Some(JsonV::Object(error)) ==> receipt_of(entry).get("error"@)
            == Some(JsonV::Object(error)),
        entry.get("session"@) matches Some(JsonV::Object(session)) ==> receipt_of(entry).get(
            "session"@,
        ) == Some(JsonV::Object(session)),
        entry.get("lease"@) matches Some(JsonV::Object(lease)) ==> receipt_of(entry).get("lease"@)
            == Some(JsonV::Object(lease)),
        entry.get("controller"@) matches Some(JsonV::Object(controller)) ==> receipt_of(entry).get(
            "controller"@,
        ) == Some(JsonV::Object(controller)),
        entry.get("controller_epoch"@) matches Some(JsonV::Integer(n)) ==> receipt_of(entry).get(
            "controller_epoch"@,
        ) == Some(JsonV::Integer(n)),
        entry.get("closed"@) matches Some(JsonV::Bool(b)) ==> receipt_of(entry).get("closed"@)
            == Some(JsonV::Bool(b)),
        entry.get("detached"@) matches Some(JsonV::Bool(b)) ==> receipt_of(entry).get("detached"@)
            == Some(JsonV::Bool(b)),
        entry.get("terminated"@) matches Some(JsonV::Bool(b)) ==> receipt_of(entry).get(
            "terminated"@,
        ) == Some(JsonV::Bool(b)),
        entry.get("reconciled"@) matches Some(JsonV::Bool(b)) ==> receipt_of(entry).get(
            "reconciled"@,
        ) == Some(JsonV::Bool(b)),
        entry.get("live_pty"@) matches Some(JsonV::Bool(b)) ==> receipt_of(entry).get("live_pty"@)
            == Some(JsonV::Bool(b)),
        entry.get("session_id"@) matches Some(JsonV::Str(s)) ==> (1 <= s.len() && utf8_len(s) <= 256
            ==> receipt_of(entry).get("session_id"@) == Some(JsonV::Str(s))),
        entry.get("id"@) matches Some(JsonV::Str(s)) ==> (1 <= s.len() && utf8_len(s) <= 256
            ==> receipt_of(entry).get("id"@) == Some(JsonV::Str(s))),
        entry.get("session_id"@) matches Some(JsonV::Str(s)) ==> (utf8_len(s) > 256 ==> receipt_of(
            entry,
        ).get("session_id"@) is None),
{
    lemma_receipt_fields(entry);
    lemma_receipt_flags(entry);
    lemma_receipt_continuation(entry);
}

} // verus!

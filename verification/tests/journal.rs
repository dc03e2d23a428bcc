use ownmeshd::approvals::Approvals;
use ownmeshd::codec::{decode, encode};
use ownmeshd::error::{ErrorCode, ExecutionFailure, IpcError};
use ownmeshd::gate::plan_outcome;
use ownmeshd::journal::{
    is_op_journal_in_progress, is_op_journal_uncertain, op_journal_durable_view, op_journal_entry_state, OpJournal,
    OpJournalEntryState, MAX_OP_JOURNAL_ENTRIES, MAX_OP_JOURNAL_FILE_BYTES,
    OP_JOURNAL_COMPLETED_TTL_SECS, OP_JOURNAL_COMPLETED_UNIX_FIELD, OP_JOURNAL_IN_PROGRESS,
    OP_JOURNAL_STATE_FIELD,
};
use ownmeshd::journal_load::{
    after_write_step, bound_op_journal, check_op_journal_size, load_op_journal,
    read_and_bound_op_journal, stale_op_journal_backup_path, write_op_journal, LoadEvent, LoadNext,
    LoadStep, WriteNext, WriteStep,
};
use ownmeshd::json::{Json, JsonObject};
use ownmeshd::lifecycle::{
    bounded_journal_error_message, maybe_inject_persist_fault, BeginPlan, Lookup, PendingWrite,
};
use ownmeshd::runtime::{DaemonRuntime, StoredState};
use ownmeshd::textset::TextSet;

const NOW: i64 = 1_800_000_000;

/// Large enough a body that no receipt may keep it.
const BODY_BYTES: usize = 64 * 1024;

fn obj(members: Vec<(&str, Json)>) -> Json {
    let mut object = JsonObject::new();
    for (key, value) in members {
        object.put(key, value);
    }
    Json::Object(object)
}

fn s(text: &str) -> Json {
    Json::text(text)
}

fn num(n: i64) -> Json {
    Json::Integer(n as i128)
}

fn yes() -> Json {
    Json::Bool(true)
}

fn no() -> Json {
    Json::Bool(false)
}

fn text_at<'a>(value: &'a Json, outer: &str, inner: &str) -> Option<&'a str> {
    value.get(outer).and_then(|v| v.get_str(inner))
}

fn same(a: &Json, b: &Json) -> bool {
    encode(a).unwrap() == encode(b).unwrap()
}

fn journal_of(entries: Vec<(&str, Json)>) -> OpJournal {
    let mut journal = OpJournal::new();
    for (key, value) in entries {
        journal.insert(key, value);
    }
    journal
}

fn open(journal: OpJournal) -> DaemonRuntime {
    DaemonRuntime::open(StoredState {
        preset_name: None,
        custom_rules: Vec::new(),
        delegate_remote_mcp: false,
        workspaces: Vec::new(),
        op_journal: Ok(journal),
        grants: Vec::new(),
        approvals: Approvals::new(),
        lockdown: false,
        revoked: TextSet::new(),
        sessions: Vec::new(),
        evidence: Vec::new(),
    })
}

/// The two files of the journal, and which accesses to them fail.
#[derive(Default)]
struct Disk {
    primary: Option<Vec<u8>>,
    backup: Option<Vec<u8>>,
    unremovable: bool,
    unwritable: bool,
}

impl Disk {
    fn remove_backup(&mut self) -> Option<String> {
        if self.unremovable {
            return Some("is a directory".to_string());
        }
        self.backup = None;
        None
    }

    fn write_primary(&mut self, bytes: &[u8]) -> Option<String> {
        if self.unwritable {
            return Some("permission denied".to_string());
        }
        self.primary = Some(bytes.to_vec());
        None
    }

    fn load(&mut self) -> Result<OpJournal, String> {
        let from_backup = self.primary.is_none();
        let mut next =
            load_op_journal("op-journal.json", self.primary.is_some(), self.backup.is_some(), NOW);
        loop {
            let load = match next {
                LoadNext::Act(load) => load,
                LoadNext::Finished(journal) => return Ok(journal),
                LoadNext::Failed(text) => return Err(text),
            };
            let raw = if from_backup { self.backup.clone() } else { self.primary.clone() };
            let fault = match load.step() {
                LoadStep::Size => {
                    next = load.next(LoadEvent::Sized(raw.unwrap().len() as u64));
                    continue;
                }
                LoadStep::Read => {
                    next = load.next(LoadEvent::Read(raw.unwrap()));
                    continue;
                }
                LoadStep::RemoveBackup => self.remove_backup(),
                LoadStep::WritePrimary => self.write_primary(load.primary_bytes()),
            };
            next = load.next(match fault {
                Some(detail) => LoadEvent::Failed(detail),
                None => LoadEvent::Done,
            });
        }
    }

    fn write(&mut self, bytes: &[u8], write_fault: &mut usize) -> Result<(), IpcError> {
        let mut step = write_op_journal(self.primary.is_some());
        loop {
            let fault = match step {
                WriteStep::WritePrimary => {
                    maybe_inject_persist_fault(write_fault, "op journal write")?;
                    self.write_primary(bytes)
                }
                WriteStep::RemoveBackup | WriteStep::SweepBackup => self.remove_backup(),
            };
            match after_write_step(step, "op-journal.json", fault.as_deref()) {
                WriteNext::Act(next) => step = next,
                WriteNext::Written => return Ok(()),
                WriteNext::Refused(e) => return Err(e),
            }
        }
    }

    fn primary_text(&self) -> String {
        String::from_utf8(self.primary.clone().unwrap()).unwrap()
    }
}

/// A completed entry that still carries its output, as a file.
fn legacy_done(body: &str) -> Vec<u8> {
    encode(&obj(vec![("prin\u{1f}op_done", legacy_entry(body))])).unwrap()
}

fn legacy_entry(body: &str) -> Json {
    obj(vec![
        ("status", s("completed")),
        ("operation_id", s("op_done")),
        ("approval_required", no()),
        ("replayed", no()),
        ("decision", s("allow")),
        ("result", obj(vec![("stdout", s(body))])),
    ])
}

/// A runtime together with the bytes that its journal file holds.
struct Device {
    runtime: DaemonRuntime,
    file: Vec<u8>,
}

impl Device {
    fn new() -> Device {
        Device { runtime: open(OpJournal::new()), file: Vec::new() }
    }

    fn insert(&mut self, key: &str, value: Json) {
        self.runtime.journal.journal.insert(key, value);
    }

    fn commit(&mut self, write: PendingWrite) -> Result<(), IpcError> {
        self.file = write.bytes.clone();
        self.runtime.journal.settle(write, Ok(()))
    }

    fn begin(&mut self, key: &str, operation_id: &str) -> Result<(), IpcError> {
        let key = key.to_string();
        match self.runtime.journal.begin_idempotent(Some(&key), operation_id, NOW)? {
            BeginPlan::Unkeyed => Ok(()),
            BeginPlan::Evict(write, _) => {
                self.commit(write)?;
                let write = self.runtime.journal.reserve_marker(&key, operation_id)?;
                self.commit(write)
            }
            BeginPlan::Reserve(write) => self.commit(write),
        }
    }

    fn store(&mut self, key: &str, value: &Json) -> Result<(), IpcError> {
        let key = key.to_string();
        match self.runtime.journal.store_idempotent(Some(&key), value, NOW)? {
            Some(write) => self.commit(write),
            None => Ok(()),
        }
    }

    fn lookup(&mut self, key: &str) -> Result<Option<Json>, IpcError> {
        let key = key.to_string();
        match self.runtime.journal.lookup_idempotent(Some(&key), NOW)? {
            Lookup::Absent => Ok(None),
            Lookup::Expired(write) => {
                if let Some(write) = write {
                    self.commit(write)?;
                }
                Ok(None)
            }
            Lookup::Receipt(receipt) => Ok(Some(receipt)),
        }
    }

    fn evict(&mut self) -> Result<usize, IpcError> {
        match self.runtime.journal.evict_expired_completed_op_journal_entries(NOW)? {
            None => Ok(0),
            Some((write, evicted)) => {
                self.commit(write)?;
                Ok(evicted)
            }
        }
    }

    fn reconcile(&mut self, key: &str, operation_id: &str, code: i64, message: &str) -> bool {
        match self
            .runtime
            .reconcile_failed_idempotent(key, "prin", operation_id, code, message, NOW)
        {
            Some(write) => self.commit(write).is_ok(),
            None => false,
        }
    }

    fn persist(&mut self) {
        let next = self.runtime.journal.journal.copy();
        self.file = self.runtime.journal.persist_op_journal(&next).unwrap();
    }

    fn restart(&mut self) {
        self.runtime = open(self.reloaded());
    }

    fn reloaded(&self) -> OpJournal {
        read_and_bound_op_journal(&self.file, "op-journal.json", "operation journal", NOW).unwrap()
    }

    fn durable(&self) -> OpJournal {
        OpJournal::from_object(decode(&self.file).unwrap())
    }

    fn get(&self, key: &str) -> Option<&Json> {
        self.runtime.journal.journal.get(key)
    }
}

fn receipt(operation_id: &str, completed: i64) -> Json {
    obj(vec![
        ("durable_receipt", yes()),
        ("truncated", yes()),
        ("status", s("completed")),
        ("operation_id", s(operation_id)),
        (OP_JOURNAL_COMPLETED_UNIX_FIELD, num(completed)),
    ])
}

fn in_progress(operation_id: &str) -> Json {
    obj(vec![
        (OP_JOURNAL_STATE_FIELD, s(OP_JOURNAL_IN_PROGRESS)),
        ("operation_id", s(operation_id)),
    ])
}

#[test]
fn large_completed_result_persists_compacted_and_replays_receipt_in_session() {
    let mut device = Device::new();
    let key = "prin\u{1f}op_large";
    device.begin(key, "op_large_1").expect("begin marker");
    let big_stdout = "x".repeat(BODY_BYTES + 4096);
    let body = obj(vec![
        ("approval_required", no()),
        ("operation_id", s("op_large_1")),
        ("result", obj(vec![("stdout", s(&big_stdout))])),
        ("replayed", no()),
        ("decision", s("allow")),
    ]);
    device.store(key, &body).expect("store completed");

    let replayed = device.lookup(key).expect("lookup").expect("entry present");
    assert_eq!(replayed.get_bool("durable_receipt"), Some(true));
    assert_eq!(replayed.get_bool("truncated"), Some(true));
    assert!(replayed.get("result").is_none());

    let durable = device.durable();
    let entry = durable.get(key).expect("durable key");
    assert_eq!(entry.get_bool("durable_receipt"), Some(true));
    assert_eq!(entry.get_bool("truncated"), Some(true));
    assert!(entry.get("stdout").is_none());
    assert_eq!(entry.get_str("operation_id"), Some("op_large_1"));
    assert!(entry
        .get_i64(OP_JOURNAL_COMPLETED_UNIX_FIELD)
        .is_some_and(|stamp| stamp > 0));
    assert!(device.file.len() < BODY_BYTES * 2);
}

#[test]
fn unknown_op_journal_state_is_fail_closed() {
    let mut device = Device::new();
    let key = "prin\u{1f}op_future";
    device.insert(
        key,
        obj(vec![
            (OP_JOURNAL_STATE_FIELD, s("phase_two")),
            ("operation_id", s("op_future_1")),
            ("result", obj(vec![("stdout", s("body-must-survive"))])),
            (
                OP_JOURNAL_COMPLETED_UNIX_FIELD,
                num(NOW - OP_JOURNAL_COMPLETED_TTL_SECS - 1),
            ),
        ]),
    );

    let err = device.lookup(key).unwrap_err();
    assert!(err.to_text().contains("uncertain"));

    assert_eq!(device.evict().expect("eviction"), 0);
    let kept = device.get(key).expect("still present");
    assert_eq!(text_at(kept, "result", "stdout"), Some("body-must-survive"));

    let durable = op_journal_durable_view(&device.runtime.journal.journal);
    let durable_entry = durable.get(key).expect("durable present");
    assert_eq!(text_at(durable_entry, "result", "stdout"), Some("body-must-survive"));

    device.persist();
    let loaded = device.reloaded();
    let reloaded = loaded.get(key).expect("loaded");
    assert_eq!(text_at(reloaded, "result", "stdout"), Some("body-must-survive"));
}

#[test]
fn malformed_op_journal_state_is_fail_closed() {
    let mut device = Device::new();
    let cases = vec![
        ("prin\u{1f}op_null_state", Json::Null),
        ("prin\u{1f}op_number_state", num(7)),
        ("prin\u{1f}op_bool_state", yes()),
    ];
    let keys: Vec<&str> = cases.iter().map(|(key, _)| *key).collect();
    for (key, state) in cases {
        let entry = obj(vec![
            (OP_JOURNAL_STATE_FIELD, state),
            ("operation_id", s(&format!("op_{key}"))),
            ("result", obj(vec![("stdout", s("body-must-survive"))])),
            (
                OP_JOURNAL_COMPLETED_UNIX_FIELD,
                num(NOW - OP_JOURNAL_COMPLETED_TTL_SECS - 1),
            ),
        ]);
        assert_eq!(op_journal_entry_state(&entry), OpJournalEntryState::Uncertain);
        device.insert(key, entry);
    }

    for key in &keys {
        let err = device.lookup(key).unwrap_err();
        assert!(err.to_text().contains("uncertain"));
    }

    assert_eq!(device.evict().expect("eviction"), 0);

    let durable = op_journal_durable_view(&device.runtime.journal.journal);
    for key in &keys {
        let entry = durable.get(key).expect("durable present");
        assert_eq!(text_at(entry, "result", "stdout"), Some("body-must-survive"));
    }

    device.persist();
    let loaded = device.reloaded();
    for key in &keys {
        let entry = loaded.get(key).expect("loaded");
        assert_eq!(text_at(entry, "result", "stdout"), Some("body-must-survive"));
    }
}

#[test]
fn replay_after_restart_returns_compact_receipt() {
    let mut device = Device::new();
    let key = "prin\u{1f}op_restart";
    device.begin(key, "op_restart_1").unwrap();
    let body = obj(vec![
        ("approval_required", no()),
        ("operation_id", s("op_restart_1")),
        ("result", obj(vec![("stdout", s("kept in memory only"))])),
        ("replayed", no()),
        ("decision", s("allow")),
    ]);
    device.store(key, &body).unwrap();

    device.restart();
    let replayed = device.lookup(key).expect("lookup").expect("entry present");
    assert_eq!(replayed.get_bool("durable_receipt"), Some(true));
    assert_eq!(replayed.get_bool("truncated"), Some(true));
    assert_eq!(replayed.get_str("operation_id"), Some("op_restart_1"));
    assert!(replayed.get("result").is_none());
}

#[test]
fn completed_receipt_expires_at_the_documented_window_but_uncertain_never_does() {
    let mut device = Device::new();
    let ancient = "prin\u{1f}op_ancient_lookup";
    device.insert(
        ancient,
        receipt("op_ancient_lookup", NOW - OP_JOURNAL_COMPLETED_TTL_SECS - 1),
    );
    assert!(device.lookup(ancient).expect("lookup").is_none());
    assert!(device.get(ancient).is_none());
    assert!(!device.durable().contains_key(ancient));

    let inflight = "prin\u{1f}op_stale_inflight";
    device.insert(
        inflight,
        in_progress("op_stale_inflight").with(
            OP_JOURNAL_COMPLETED_UNIX_FIELD,
            num(NOW - OP_JOURNAL_COMPLETED_TTL_SECS - 10),
        ),
    );
    let err = device.lookup(inflight).unwrap_err();
    assert!(err.to_text().contains("in-progress"));
    assert!(device.get(inflight).is_some());

    let unknown = "prin\u{1f}op_stale_unknown";
    device.insert(
        unknown,
        obj(vec![
            ("operation_id", s("op_stale_unknown")),
            ("result", obj(vec![("stdout", s("body-must-survive"))])),
            (
                OP_JOURNAL_COMPLETED_UNIX_FIELD,
                num(NOW - OP_JOURNAL_COMPLETED_TTL_SECS - 10),
            ),
        ]),
    );
    let err = device.lookup(unknown).unwrap_err();
    assert!(err.to_text().contains("uncertain"));
    assert!(device.get(unknown).is_some());

    let young = "prin\u{1f}op_young";
    device.insert(young, receipt("op_young", NOW - 60));
    let replayed = device.lookup(young).expect("lookup").expect("young receipt present");
    assert_eq!(replayed.get_str("operation_id"), Some("op_young"));

    device.persist();
    device.restart();
    device.insert(
        "prin\u{1f}op_ancient_2",
        receipt("op_ancient_2", NOW - OP_JOURNAL_COMPLETED_TTL_SECS - 5),
    );
    assert!(device.lookup("prin\u{1f}op_ancient_2").expect("lookup").is_none());
}

#[test]
fn in_progress_markers_survive_compaction_and_eviction() {
    let mut device = Device::new();
    let key = "prin\u{1f}op_inflight";
    device.begin(key, "op_inflight_1").expect("begin marker");
    device.insert(
        "prin\u{1f}op_ancient",
        receipt("op_ancient", NOW - OP_JOURNAL_COMPLETED_TTL_SECS - 1),
    );

    assert_eq!(device.evict().expect("eviction"), 1);
    assert!(device.runtime.op_journal_key_is_in_progress_for_test("op_inflight"));
    assert!(!device.runtime.has_op_journal_key_for_test("op_ancient"));
    let durable = device.durable();
    let marker = durable.get(key).unwrap();
    assert_eq!(marker.get_str(OP_JOURNAL_STATE_FIELD), Some(OP_JOURNAL_IN_PROGRESS));
    let err = device.lookup(key).unwrap_err();
    assert!(err.to_text().contains("in-progress"));
}

#[test]
fn terminal_failure_reconciles_in_progress_marker_into_failed_receipt() {
    let mut device = Device::new();
    let key = "prin\u{1f}op_failed";
    device.begin(key, "op_failed_1").expect("begin marker");
    assert!(device.runtime.op_journal_key_is_in_progress_for_test("op_failed"));

    assert!(device.reconcile("op_failed", "op_failed_1", -32602, "no such file"));
    assert!(!device.runtime.op_journal_key_is_in_progress_for_test("op_failed"));

    let durable = device.durable();
    let entry = durable.get(key).unwrap();
    assert!(entry.get(OP_JOURNAL_STATE_FIELD).is_none());
    assert_eq!(entry.get_str("status"), Some("failed"));
    assert_eq!(entry.get_bool("durable_receipt"), Some(true));
    let error = entry.get("error").expect("bounded error object survives compaction");
    assert_eq!(error.get_i64("code"), Some(-32602));
    assert_eq!(error.get_str("message"), Some("no such file"));
    assert_eq!(error.get_bool("retryable"), Some(false));

    assert!(!device.reconcile("op_failed", "op_failed_1", -32603, "second attempt"));
}

#[test]
fn failure_reconciliation_is_scoped_to_the_own_in_progress_marker() {
    let mut device = Device::new();
    assert!(!device.reconcile("missing", "op_x", -32603, "boom"));

    device.begin("prin\u{1f}op_other", "op_reserved_by_a").expect("begin");
    assert!(!device.reconcile("op_other", "op_reserved_by_b", -32603, "boom"));
    assert!(device.runtime.op_journal_key_is_in_progress_for_test("op_other"));

    device.insert(
        "prin\u{1f}op_uncertain",
        obj(vec![
            (OP_JOURNAL_STATE_FIELD, s("phase_two")),
            ("operation_id", s("op_uncertain_1")),
        ]),
    );
    assert!(!device.reconcile("op_uncertain", "op_uncertain_1", -32603, "boom"));
    assert!(device.runtime.has_op_journal_key_for_test("prin\u{1f}op_uncertain"));
    let entry = device.get("prin\u{1f}op_uncertain").unwrap();
    assert_eq!(entry.get_str(OP_JOURNAL_STATE_FIELD), Some("phase_two"));

    device.insert("prin\u{1f}op_done", receipt("op_done", NOW));
    assert!(!device.reconcile("op_done", "op_done", -32603, "boom"));
    assert!(device.runtime.has_op_journal_key_for_test("prin\u{1f}op_done"));
}

#[test]
fn near_capacity_evicts_old_completed_before_accepting_new_keys() {
    let mut device = Device::new();
    for i in 0..MAX_OP_JOURNAL_ENTRIES {
        device.insert(
            &format!("prin\u{1f}op_fill_{i}"),
            receipt(&format!("op_fill_{i}"), NOW - OP_JOURNAL_COMPLETED_TTL_SECS - 1),
        );
    }
    assert_eq!(device.runtime.journal.journal.len(), MAX_OP_JOURNAL_ENTRIES);

    device
        .begin("prin\u{1f}op_new_1", "op_new_1")
        .expect("eviction makes room for a new side-effect key");
    assert!(device.runtime.has_op_journal_key_for_test("op_new_1"));
    assert!(device.runtime.journal.journal.len() < MAX_OP_JOURNAL_ENTRIES);
}

#[test]
fn byte_cap_evicts_old_completed_before_accepting_new_keys() {
    let mut device = Device::new();
    device.insert(
        "prin\u{1f}op_uncertain_big",
        obj(vec![
            (OP_JOURNAL_STATE_FIELD, s("phase_two")),
            ("operation_id", s("op_uncertain_big")),
            ("result", obj(vec![("stdout", s(&"u".repeat(4_000_000)))])),
        ]),
    );
    for i in 0..2000 {
        device.insert(
            &format!("prin\u{1f}op_old_{i}"),
            receipt(&format!("op_old_{i}"), NOW - OP_JOURNAL_COMPLETED_TTL_SECS - 1),
        );
    }
    assert!(device.runtime.journal.op_journal_durable_byte_estimate() >= MAX_OP_JOURNAL_FILE_BYTES);
    device
        .begin("prin\u{1f}op_new_byte", "op_new_byte")
        .expect("eviction makes byte room for a new side-effect key");
    assert!(device.runtime.has_op_journal_key_for_test("op_new_byte"));
    assert!(device.runtime.has_op_journal_key_for_test("prin\u{1f}op_uncertain_big"));
    assert!(!device.runtime.has_op_journal_key_for_test("prin\u{1f}op_old_0"));
    assert!(device.file.len() < MAX_OP_JOURNAL_FILE_BYTES);
}

#[test]
fn near_byte_cap_evicts_before_the_incoming_marker_insert() {
    let mut device = Device::new();
    for i in 0..4 {
        device.insert(
            &format!("prin\u{1f}op_near_old_{i}"),
            receipt(&format!("op_near_old_{i}"), NOW - OP_JOURNAL_COMPLETED_TTL_SECS - 1),
        );
    }
    let uncertain = |body: &str| {
        obj(vec![
            (OP_JOURNAL_STATE_FIELD, s("phase_two")),
            ("operation_id", s("op_near_uncertain")),
            ("result", obj(vec![("stdout", s(body))])),
        ])
    };
    device.insert("prin\u{1f}op_near_uncertain", uncertain("x"));
    let base = device.runtime.journal.op_journal_durable_byte_estimate();
    let mut probe = device.runtime.journal.journal.copy();
    probe.insert("prin\u{1f}op_near_probe", in_progress("op_probe"));
    let marginal = encode(&Json::Object(op_journal_durable_view(&probe).to_object()))
        .unwrap()
        .len()
        .saturating_sub(base);
    assert!(marginal > 0);
    let constant = base.saturating_sub(1).saturating_sub(2);
    let body_len = (MAX_OP_JOURNAL_FILE_BYTES + 1)
        .saturating_sub(marginal)
        .saturating_sub(constant)
        .saturating_sub(1);
    device.insert("prin\u{1f}op_near_uncertain", uncertain(&"x".repeat(body_len)));
    assert!(device.runtime.journal.op_journal_durable_byte_estimate() < MAX_OP_JOURNAL_FILE_BYTES);
    assert!(device.runtime.journal.needs_room("prin\u{1f}op_near_new", "op_near_new"));
    device
        .begin("prin\u{1f}op_near_new", "op_near_new")
        .expect("near-capacity journal with evictable receipts must accept a new key");
    assert!(device.runtime.has_op_journal_key_for_test("op_near_new"));
    assert!(device.runtime.has_op_journal_key_for_test("prin\u{1f}op_near_uncertain"));
    assert!(!device.runtime.has_op_journal_key_for_test("prin\u{1f}op_near_old_0"));
    assert!(device.file.len() < MAX_OP_JOURNAL_FILE_BYTES);
}

#[test]
fn at_capacity_with_only_in_progress_refuses_new_keys() {
    let mut device = Device::new();
    for i in 0..MAX_OP_JOURNAL_ENTRIES {
        device.insert(
            &format!("prin\u{1f}op_busy_{i}"),
            in_progress(&format!("op_busy_{i}")),
        );
    }
    let err = device.begin("prin\u{1f}op_extra", "op_extra").unwrap_err();
    assert!(err.to_text().contains("capacity"));
    assert_eq!(device.runtime.journal.journal.len(), MAX_OP_JOURNAL_ENTRIES);
}

#[test]
fn eviction_persist_fault_rolls_back_in_memory() {
    let mut device = Device::new();
    let key = "prin\u{1f}op_faulty";
    device.insert(key, receipt("op_faulty", NOW - OP_JOURNAL_COMPLETED_TTL_SECS - 1));
    device.runtime.fail_op_journal_persist_on_nth_call_for_test(1);
    let err = device.evict().expect_err("persist fault must fail eviction");
    assert!(err.to_text().contains("fault-injected"));
    assert!(device.get(key).is_some());
}

#[test]
fn legacy_op_journal_is_compacted_and_persisted_at_load() {
    let legacy = obj(vec![
        (
            "prin\u{1f}op_done",
            obj(vec![
                ("status", s("completed")),
                ("operation_id", s("op_done")),
                ("approval_required", no()),
                ("replayed", no()),
                ("decision", s("allow")),
                ("result", obj(vec![("stdout", s(&"x".repeat(80 * 1024)))])),
            ]),
        ),
        ("prin\u{1f}op_busy", in_progress("op_busy")),
    ]);
    let mut disk = Disk { primary: Some(encode(&legacy).unwrap()), ..Disk::default() };
    let journal = disk.load().expect("legacy journal loads");
    let done = journal.get("prin\u{1f}op_done").unwrap();
    assert_eq!(done.get_bool("durable_receipt"), Some(true));
    assert!(done.get("result").is_none());
    assert!(done.get(OP_JOURNAL_COMPLETED_UNIX_FIELD).is_some());
    let busy = journal.get("prin\u{1f}op_busy").unwrap();
    assert_eq!(busy.get_str(OP_JOURNAL_STATE_FIELD), Some(OP_JOURNAL_IN_PROGRESS));
    let raw = disk.primary.unwrap();
    assert!(raw.len() < 4 * 1024);
    let durable = OpJournal::from_object(decode(&raw).unwrap());
    assert!(durable.get("prin\u{1f}op_done").unwrap().get("result").is_none());
}

#[test]
fn legacy_op_journal_above_budget_is_compacted_not_rejected() {
    let legacy = obj(vec![(
        "prin\u{1f}op_huge",
        obj(vec![
            ("status", s("completed")),
            ("operation_id", s("op_huge")),
            ("approval_required", no()),
            ("replayed", no()),
            ("decision", s("allow")),
            ("result", obj(vec![("stdout", s(&"y".repeat(5 * 1024 * 1024)))])),
        ]),
    )]);
    let raw = encode(&legacy).unwrap();
    assert!(raw.len() > MAX_OP_JOURNAL_FILE_BYTES);
    assert!(check_op_journal_size(raw.len() as u64, "op-journal.json", "operation journal").is_ok());
    let journal =
        read_and_bound_op_journal(&raw, "op-journal.json", "operation journal", NOW).unwrap();
    assert_eq!(journal.len(), 1);
    assert_eq!(
        journal.get("prin\u{1f}op_huge").unwrap().get_bool("durable_receipt"),
        Some(true)
    );
}

#[test]
fn op_journal_durable_byte_estimate_matches_persisted_file() {
    let mut device = Device::new();
    let big_body = "z".repeat(80 * 1024);
    for i in 0..8 {
        device.insert(
            &format!("prin\u{1f}op_est_{i}"),
            obj(vec![
                ("status", s("completed")),
                ("operation_id", s(&format!("op_est_{i}"))),
                ("approval_required", no()),
                ("replayed", no()),
                ("decision", s("allow")),
                ("result", obj(vec![("stdout", s(&big_body))])),
                (OP_JOURNAL_COMPLETED_UNIX_FIELD, num(NOW - 1)),
            ]),
        );
    }
    device.insert("prin\u{1f}op_est_busy", in_progress("op_est_busy"));
    let estimate = device.runtime.journal.op_journal_durable_byte_estimate();
    device.persist();
    assert_eq!(estimate, device.file.len());
    assert!(estimate < 8 * 1024);
    let durable = op_journal_durable_view(&device.runtime.journal.journal);
    assert_eq!(
        durable.get("prin\u{1f}op_est_busy").unwrap().get_str(OP_JOURNAL_STATE_FIELD),
        Some(OP_JOURNAL_IN_PROGRESS)
    );
}

#[test]
fn op_journal_durable_view_preserves_remote_payload_hash() {
    let hash = "a".repeat(64);
    let journal = journal_of(vec![(
        "prin\u{1f}op_review",
        obj(vec![
            ("status", s("completed")),
            ("operation_id", s("op_review")),
            ("approval_required", no()),
            ("replayed", no()),
            ("decision", s("allow")),
            ("remote_payload_hash", s(&hash)),
            ("result", obj(vec![("stdout", s("review output"))])),
        ]),
    )]);
    let view = op_journal_durable_view(&journal);
    let entry = view.get("prin\u{1f}op_review").unwrap();
    assert_eq!(entry.get_str("remote_payload_hash"), Some(hash.as_str()));
    assert!(entry.get("result").is_none());
}

#[test]
fn op_journal_durable_view_preserves_review_id() {
    let hash = "a".repeat(64);
    let journal = journal_of(vec![(
        "prin\u{1f}op_review",
        obj(vec![
            ("status", s("completed")),
            ("operation_id", s("op_review")),
            ("review_id", s("rev_abc123")),
            ("workspace_id", s("ws_default")),
            ("remote_payload_hash", s(&hash)),
            ("result", obj(vec![("stdout", s("review output"))])),
        ]),
    )]);
    let view = op_journal_durable_view(&journal);
    let entry = view.get("prin\u{1f}op_review").unwrap();
    assert_eq!(entry.get_str("review_id"), Some("rev_abc123"));
    assert_eq!(entry.get_str("workspace_id"), Some("ws_default"));
    assert!(entry.get("result").is_none());

    let mut device = Device::new();
    let key = "prin\u{1f}op_review_lifecycle";
    device.begin(key, "op_review_1").unwrap();
    let body = obj(vec![
        ("approval_required", no()),
        ("operation_id", s("op_review_1")),
        ("review_id", s("rev_lifecycle_1")),
        ("workspace_id", s("ws_default")),
        ("result", obj(vec![("stdout", s("kept in memory only"))])),
        ("replayed", no()),
        ("decision", s("allow")),
    ]);
    device.store(key, &body).unwrap();
    device.restart();
    let replayed = device.lookup(key).expect("lookup").expect("entry present");
    assert_eq!(replayed.get_bool("durable_receipt"), Some(true));
    assert_eq!(replayed.get_str("review_id"), Some("rev_lifecycle_1"));
    assert!(replayed.get("result").is_none());
}

fn fixture_pin() -> Json {
    obj(vec![
        ("path", s("/bin/true")),
        (
            "content_sha256",
            s(&ownmeshd::ids::sha256_hex("fixture".as_bytes())),
        ),
        ("len", num(7)),
        ("device", Json::Null),
        ("inode", Json::Null),
        ("path_device", Json::Null),
        ("path_inode", Json::Null),
        ("link_target", Json::Null),
        ("policy_kind", s("structured")),
    ])
}

fn review_fixture_manifest() -> Json {
    obj(vec![
        ("review_id", s("rev_manifest_1")),
        ("device_id", s("dev_test")),
        ("workspace_id", s("ws_default")),
        ("repo_root", s("/tmp")),
        ("head_oid", s(&"0".repeat(40))),
        ("principal", s("client:local:test")),
        ("phase", s("completed")),
        (
            "command",
            obj(vec![
                ("program", s("/bin/true")),
                ("args", Json::Array(vec![s("--version")])),
                ("timeout_ms", num(1000)),
                ("invocation_pin", Json::Null),
                ("pin", fixture_pin()),
            ]),
        ),
        (
            "tests",
            Json::Array(vec![obj(vec![
                ("program", s("/bin/true")),
                ("args", Json::Array(vec![])),
                ("timeout_ms", num(1000)),
                ("invocation_pin", Json::Null),
                ("pin", fixture_pin()),
            ])]),
        ),
        ("remote_operation_id", s("op_review_remote_1")),
        ("remote_payload_hash", s(&"a".repeat(64))),
        ("status_cursor", num(0)),
        ("diff_cursor", num(0)),
        ("result_sha256", s(&"b".repeat(64))),
        ("created_unix", num(1_000_000)),
        ("expires_unix", num(1_000_000 + 3600)),
    ])
}

#[test]
fn review_manifest_receipt_classifies_compacts_and_replays() {
    let hash = "a".repeat(64);
    let without_operation_id = review_fixture_manifest().with("remote_payload_hash", s(&hash));
    assert_eq!(
        op_journal_entry_state(&without_operation_id),
        OpJournalEntryState::Uncertain
    );
    let view = op_journal_durable_view(&journal_of(vec![(
        "prin\u{1f}op_review_real",
        without_operation_id,
    )]));
    assert!(!view
        .get("prin\u{1f}op_review_real")
        .unwrap()
        .get_bool("durable_receipt")
        .unwrap_or(false));

    let completed = review_fixture_manifest()
        .with("operation_id", s("op_review_real_1"))
        .with("remote_payload_hash", s(&hash));
    assert_eq!(op_journal_entry_state(&completed), OpJournalEntryState::Completed);
    let view = op_journal_durable_view(&journal_of(vec![(
        "prin\u{1f}op_review_real",
        completed.copy(),
    )]));
    let entry = view.get("prin\u{1f}op_review_real").unwrap();
    assert_eq!(entry.get_bool("durable_receipt"), Some(true));
    assert_eq!(entry.get_str("review_id"), Some("rev_manifest_1"));
    assert_eq!(entry.get_str("workspace_id"), Some("ws_default"));
    assert_eq!(entry.get_str("remote_payload_hash"), Some(hash.as_str()));
    assert_eq!(entry.get_str("operation_id"), Some("op_review_real_1"));
    assert!(entry.get("command").is_none());
    assert!(entry.get("tests").is_none());

    let mut device = Device::new();
    let key = "prin\u{1f}op_review_lifecycle_real";
    device.begin(key, "op_review_real_1").unwrap();
    device.store(key, &completed).unwrap();
    let replayed = device.lookup(key).expect("lookup").expect("entry present");
    assert_eq!(replayed.get_bool("durable_receipt"), Some(true));
    assert_eq!(replayed.get_str("review_id"), Some("rev_manifest_1"));
    assert!(replayed.get("command").is_none());

    device.restart();
    let replayed = device
        .lookup(key)
        .expect("lookup after restart")
        .expect("entry present after restart");
    assert_eq!(replayed.get_bool("durable_receipt"), Some(true));
    assert_eq!(replayed.get_str("review_id"), Some("rev_manifest_1"));
    assert_eq!(replayed.get_str("remote_payload_hash"), Some(hash.as_str()));
    assert!(replayed.get("result").is_none());
}

#[test]
fn op_journal_durable_view_preserves_session_continuation_identifiers() {
    let journal = journal_of(vec![(
        "prin\u{1f}op_session_open",
        obj(vec![
            ("status", s("completed")),
            ("operation_id", s("op_session_open_1")),
            ("id", s("sess_abc123")),
            ("kind", s("pty")),
            ("state", s("running")),
            (
                "controller",
                obj(vec![
                    ("principal_id", s("p1")),
                    ("lease_id", s("lease_1")),
                    ("epoch", num(3)),
                    ("expires_unix", num(1_900_000_000)),
                ]),
            ),
            ("controller_epoch", num(3)),
            ("workspace_id", s("ws_default")),
            ("live_pty", yes()),
            ("decision", s("allow")),
            ("stdout", s(&"x".repeat(200_000))),
        ]),
    )]);
    let view = op_journal_durable_view(&journal);
    let entry = view.get("prin\u{1f}op_session_open").unwrap();
    assert_eq!(entry.get_str("id"), Some("sess_abc123"));
    assert_eq!(text_at(entry, "controller", "lease_id"), Some("lease_1"));
    assert_eq!(entry.get_i64("controller_epoch"), Some(3));
    assert!(entry.get("stdout").is_none());

    let journal = journal_of(vec![(
        "prin\u{1f}op_session_attach",
        obj(vec![
            ("status", s("completed")),
            ("operation_id", s("op_session_attach_1")),
            (
                "session",
                obj(vec![
                    ("id", s("sess_attach_9")),
                    ("kind", s("pty")),
                    ("state", s("running")),
                    (
                        "controller",
                        obj(vec![
                            ("principal_id", s("p1")),
                            ("lease_id", s("lease_9")),
                            ("epoch", num(5)),
                            ("expires_unix", num(1_900_000_000)),
                        ]),
                    ),
                    ("controller_epoch", num(5)),
                    ("workspace_id", s("ws_default")),
                ]),
            ),
            ("principal", s("p1")),
            ("role", s("controller")),
            ("read_only", no()),
            ("workspace_id", s("ws_default")),
            ("live_pty", yes()),
            ("readers", Json::Array(vec![s("p1")])),
            ("decision", s("allow")),
            ("result", obj(vec![("content", s(&"y".repeat(200_000)))])),
        ]),
    )]);
    let view = op_journal_durable_view(&journal);
    let entry = view.get("prin\u{1f}op_session_attach").unwrap();
    let session = entry.get("session").expect("nested session snapshot kept");
    assert_eq!(session.get_str("id"), Some("sess_attach_9"));
    assert_eq!(text_at(session, "controller", "lease_id"), Some("lease_9"));
    assert!(entry.get("result").is_none());

    let journal = journal_of(vec![(
        "prin\u{1f}op_weird_id",
        obj(vec![
            ("status", s("completed")),
            ("operation_id", s("op_weird_id_1")),
            ("id", s(&"x".repeat(100_000))),
            ("decision", s("allow")),
            ("result", obj(vec![("stdout", s("z"))])),
        ]),
    )]);
    let view = op_journal_durable_view(&journal);
    let entry = view.get("prin\u{1f}op_weird_id").unwrap();
    assert!(entry.get("id").is_none() && entry.get("session_id").is_none());
    assert!(entry.get("result").is_none());
}

#[test]
fn unmarked_op_journal_object_is_fail_closed() {
    let mut device = Device::new();
    let cases = vec![
        ("prin\u{1f}op_bare_empty", obj(vec![])),
        ("prin\u{1f}op_status_only", obj(vec![("status", s("completed"))])),
        (
            "prin\u{1f}op_result_only",
            obj(vec![("result", obj(vec![("stdout", s("body"))]))]),
        ),
    ];
    for (key, value) in &cases {
        assert_eq!(op_journal_entry_state(value), OpJournalEntryState::Uncertain);
        device.insert(key, value.copy());
    }
    for (key, _) in &cases {
        let err = device.lookup(key).unwrap_err();
        assert!(err.to_text().contains("uncertain"));
    }
    assert_eq!(device.evict().expect("eviction"), 0);
    assert_eq!(device.runtime.journal.journal.len(), cases.len());

    let view = op_journal_durable_view(&device.runtime.journal.journal);
    for (key, value) in &cases {
        assert!(same(view.get(key).unwrap(), value));
    }
    device.persist();
    let loaded = device.reloaded();
    for (key, value) in &cases {
        assert!(same(loaded.get(key).unwrap(), value));
    }

    let legacy = obj(vec![
        ("approval_required", no()),
        ("operation_id", s("op_legacy_1")),
        ("result", obj(vec![("stdout", s("old body"))])),
        ("replayed", no()),
        ("decision", s("allow")),
    ]);
    assert_eq!(op_journal_entry_state(&legacy), OpJournalEntryState::Completed);
    let no_operation_id = obj(vec![("decision", s("allow"))]);
    assert_eq!(op_journal_entry_state(&no_operation_id), OpJournalEntryState::Uncertain);
}

#[test]
fn completed_markers_without_operation_id_are_fail_closed() {
    let mut device = Device::new();
    let cases = vec![
        (
            "prin\u{1f}op_receipt_no_id",
            obj(vec![
                ("durable_receipt", yes()),
                ("truncated", yes()),
                ("status", s("completed")),
            ]),
        ),
        (
            "prin\u{1f}op_state_no_id",
            obj(vec![(OP_JOURNAL_STATE_FIELD, s("completed"))]),
        ),
        (
            "prin\u{1f}op_state_empty_id",
            obj(vec![
                (OP_JOURNAL_STATE_FIELD, s("completed")),
                ("operation_id", s("")),
            ]),
        ),
    ];
    for (key, value) in &cases {
        assert_eq!(op_journal_entry_state(value), OpJournalEntryState::Uncertain);
        device.insert(key, value.copy());
    }
    for (key, _) in &cases {
        let err = device.lookup(key).unwrap_err();
        assert!(err.to_text().contains("uncertain"));
    }
    for (key, value) in &cases {
        device.insert(key, value.with(OP_JOURNAL_COMPLETED_UNIX_FIELD, num(NOW - 100_000)));
    }
    assert_eq!(device.evict().expect("eviction"), 0);
    assert_eq!(device.runtime.journal.journal.len(), cases.len());

    let view = op_journal_durable_view(&device.runtime.journal.journal);
    for (key, value) in &cases {
        let durable = view.get(key).expect("marker survives durable view");
        assert_eq!(durable.get_bool("durable_receipt"), value.get_bool("durable_receipt"));
        assert_eq!(
            durable.get_str(OP_JOURNAL_STATE_FIELD),
            value.get_str(OP_JOURNAL_STATE_FIELD)
        );
    }

    let good = receipt("op_genuine", NOW);
    assert_eq!(op_journal_entry_state(&good), OpJournalEntryState::Completed);
    device.insert("prin\u{1f}op_genuine", good);
    let replayed = device
        .lookup("prin\u{1f}op_genuine")
        .expect("lookup")
        .expect("genuine receipt replays");
    assert_eq!(replayed.get_str("operation_id"), Some("op_genuine"));
}

#[test]
fn non_object_op_journal_entries_are_fail_closed() {
    let cases = vec![
        Json::Null,
        Json::Array(vec![num(1), num(2), num(3)]),
        s("just a string"),
        num(42),
        yes(),
    ];
    for value in &cases {
        assert_eq!(op_journal_entry_state(value), OpJournalEntryState::Uncertain);
        assert!(is_op_journal_uncertain(value));
    }
    let mut journal = OpJournal::new();
    for (i, value) in cases.iter().enumerate() {
        journal.insert(&format!("prin\u{1f}op_bad_{i}"), value.copy());
    }
    let view = op_journal_durable_view(&journal);
    for (i, value) in cases.iter().enumerate() {
        assert!(same(view.get(&format!("prin\u{1f}op_bad_{i}")).unwrap(), value));
    }

    let mut device = Device::new();
    for (i, value) in cases.iter().enumerate() {
        let key = format!("prin\u{1f}op_bad_{i}");
        device.insert(&key, value.copy());
        let err = device.lookup(&key).unwrap_err();
        assert!(err.to_text().contains("uncertain"));
    }
    assert_eq!(device.evict().expect("eviction"), 0);
    assert_eq!(device.runtime.journal.journal.len(), cases.len());

    device.persist();
    let loaded = device.reloaded();
    for (i, value) in cases.iter().enumerate() {
        assert!(same(loaded.get(&format!("prin\u{1f}op_bad_{i}")).unwrap(), value));
    }
}

#[test]
fn bound_op_journal_rejects_pretty_oversize_even_when_compact_fits() {
    let entry = |i: usize, payload: &str| {
        obj(vec![
            (OP_JOURNAL_STATE_FIELD, s(OP_JOURNAL_IN_PROGRESS)),
            ("operation_id", s(&format!("op_uncertain_{i}"))),
            ("payload", s(payload)),
        ])
    };
    let compact_len = |journal: &OpJournal| {
        let pretty = encode(&Json::Object(journal.to_object())).unwrap();
        let value: serde_json::Value = serde_json::from_slice(&pretty).unwrap();
        serde_json::to_vec(&value).unwrap().len()
    };
    let pretty_len =
        |journal: &OpJournal| encode(&Json::Object(journal.to_object())).unwrap().len();

    let mut journal = OpJournal::new();
    for i in 0..100 {
        journal.insert(&format!("prin\u{1f}op_uncertain_{i}"), entry(i, ""));
    }
    let base_compact = compact_len(&journal);
    let overhead = pretty_len(&journal) - base_compact;
    assert!(overhead > 0 && overhead < MAX_OP_JOURNAL_FILE_BYTES / 2);
    let target_compact = MAX_OP_JOURNAL_FILE_BYTES - overhead / 2;
    let body = "u".repeat((target_compact - base_compact) / 100);
    for i in 0..100 {
        journal.insert(&format!("prin\u{1f}op_uncertain_{i}"), entry(i, &body));
    }
    assert!(compact_len(&journal) < MAX_OP_JOURNAL_FILE_BYTES);
    assert!(pretty_len(&journal) > MAX_OP_JOURNAL_FILE_BYTES);
    assert!(bound_op_journal(journal, NOW).is_err());
}

#[test]
fn op_journal_durable_view_preserves_terminal_review_phase_and_status() {
    let hash = "a".repeat(64);
    let journal = journal_of(vec![
        (
            "prin\u{1f}op_review_failed",
            obj(vec![
                ("review_id", s("rev_failed_1")),
                ("phase", s("failed")),
                ("operation_id", s("op_review_failed_1")),
                ("remote_payload_hash", s(&hash)),
                ("workspace_id", s("ws_default")),
            ]),
        ),
        (
            "prin\u{1f}op_review_cancelled",
            obj(vec![
                ("review_id", s("rev_cancelled_1")),
                ("phase", s("cancelled")),
                ("operation_id", s("op_review_cancelled_1")),
                ("remote_payload_hash", s(&hash)),
            ]),
        ),
        (
            "prin\u{1f}op_review_completed",
            obj(vec![
                ("review_id", s("rev_completed_1")),
                ("phase", s("completed")),
                ("operation_id", s("op_review_completed_1")),
                ("remote_payload_hash", s(&hash)),
            ]),
        ),
    ]);
    let view = op_journal_durable_view(&journal);
    let failed = view.get("prin\u{1f}op_review_failed").unwrap();
    assert_eq!(failed.get_str("status"), Some("failed"));
    assert_eq!(failed.get_str("phase"), Some("failed"));
    assert_eq!(failed.get_str("review_id"), Some("rev_failed_1"));
    let cancelled = view.get("prin\u{1f}op_review_cancelled").unwrap();
    assert_eq!(cancelled.get_str("status"), Some("cancelled"));
    let completed = view.get("prin\u{1f}op_review_completed").unwrap();
    assert_eq!(completed.get_str("status"), Some("completed"));
    for key in [
        "prin\u{1f}op_review_failed",
        "prin\u{1f}op_review_cancelled",
        "prin\u{1f}op_review_completed",
    ] {
        assert_eq!(
            op_journal_entry_state(view.get(key).unwrap()),
            OpJournalEntryState::Completed
        );
    }
}

#[test]
fn op_journal_durable_view_preserves_top_level_lease() {
    let journal = journal_of(vec![(
        "prin\u{1f}op_renew_1",
        obj(vec![
            ("status", s("completed")),
            ("operation_id", s("op_renew_1")),
            ("approval_required", no()),
            ("decision", s("allow")),
            ("session_id", s("ses_renew_1")),
            ("workspace_id", s("ws_default")),
            (
                "lease",
                obj(vec![
                    ("principal_id", s("client:remote:t:p")),
                    ("lease_id", s("lease_renew_1")),
                    ("epoch", num(4)),
                    ("expires_unix", num(1_700_000_000)),
                ]),
            ),
            ("result", obj(vec![("stdout", s(&"x".repeat(80 * 1024)))])),
        ]),
    )]);
    let view = op_journal_durable_view(&journal);
    let entry = view.get("prin\u{1f}op_renew_1").unwrap();
    assert_eq!(entry.get_bool("durable_receipt"), Some(true));
    let lease = entry.get("lease").unwrap();
    assert_eq!(lease.get_i64("expires_unix"), Some(1_700_000_000));
    assert_eq!(lease.get_str("lease_id"), Some("lease_renew_1"));
    assert_eq!(lease.get_i64("epoch"), Some(4));
    assert!(entry.get("result").is_none());
}

#[test]
fn legacy_op_journal_compaction_removes_stale_bak() {
    let legacy = legacy_done(&"z".repeat(80 * 1024));
    let mut disk =
        Disk { primary: Some(legacy.clone()), backup: Some(legacy), ..Disk::default() };
    let journal = disk.load().expect("legacy journal loads and compacts");
    assert_eq!(journal.len(), 1);
    assert!(disk.backup.is_none());
    assert!(disk.primary_text().len() < 4 * 1024);

    let mut disk = Disk::default();
    let mut runtime = open(OpJournal::new());
    let key = "prin\u{1f}op_bak".to_string();
    let mut fault: usize = 0;
    let begun = runtime.journal.begin_idempotent(Some(&key), "op_bak", NOW).expect("begin marker");
    match begun {
        BeginPlan::Reserve(write) => {
            let outcome = disk.write(&write.bytes, &mut fault);
            runtime.journal.settle(write, outcome).unwrap();
        }
        _ => panic!("the journal is empty"),
    }
    let body = obj(vec![
        ("approval_required", no()),
        ("operation_id", s("op_bak")),
        ("result", obj(vec![("stdout", s(&"x".repeat(80 * 1024)))])),
        ("replayed", no()),
        ("decision", s("allow")),
    ]);
    let write = runtime.journal.store_idempotent(Some(&key), &body, NOW).expect("store").unwrap();
    let outcome = disk.write(&write.bytes, &mut fault);
    runtime.journal.settle(write, outcome).unwrap();
    assert!(disk.backup.is_none());
    assert!(!disk.primary_text().contains("x".repeat(80 * 1024).as_str()));
}

#[test]
fn unremovable_stale_bak_fails_load_fail_closed() {
    let legacy = legacy_done(&"z".repeat(80 * 1024));
    let mut disk = Disk {
        primary: Some(legacy),
        backup: Some(Vec::new()),
        unremovable: true,
        unwritable: false,
    };
    let err = disk.load().unwrap_err();
    assert!(err.contains("failed to remove stale op journal backup"));
    assert!(disk.primary_text().contains("z".repeat(80 * 1024).as_str()));
}

#[test]
fn missing_primary_op_journal_recovers_from_stale_bak() {
    let legacy = obj(vec![
        ("prin\u{1f}op_done", legacy_entry(&"z".repeat(80 * 1024))),
        (
            "prin\u{1f}op_inflight",
            obj(vec![
                ("__ownmesh_operation_state", s("in_progress")),
                ("operation_id", s("op_inflight")),
                ("result", obj(vec![("stdout", s("pending body"))])),
            ]),
        ),
    ]);
    let mut disk = Disk { backup: Some(encode(&legacy).unwrap()), ..Disk::default() };
    let journal = disk.load().expect("recovery from backup must succeed");
    assert_eq!(journal.len(), 2);
    let done = journal.get("prin\u{1f}op_done").expect("completed receipt");
    assert_eq!(done.get_bool("durable_receipt"), Some(true));
    assert_eq!(done.get_str("operation_id"), Some("op_done"));
    let inflight = journal.get("prin\u{1f}op_inflight").unwrap();
    assert_eq!(inflight.get_str("__ownmesh_operation_state"), Some("in_progress"));
    assert!(disk.backup.is_none());
    assert!(disk.primary_text().contains("durable_receipt"));
    assert!(!disk.primary_text().contains("z".repeat(80 * 1024).as_str()));
    assert_eq!(disk.load().unwrap().len(), 2);
    assert_eq!(stale_op_journal_backup_path("op-journal.json"), "op-journal.json.bak");
}

#[test]
fn missing_primary_with_corrupt_bak_fails_closed() {
    let mut disk = Disk { backup: Some("{\"broken".as_bytes().to_vec()), ..Disk::default() };
    let err = disk.load().unwrap_err();
    assert!(err.contains("op journal backup") && err.contains("corrupt"));
    assert!(disk.primary.is_none());
    let mut fresh = Disk::default();
    assert_eq!(fresh.load().unwrap().len(), 0);
    assert!(fresh.primary.is_none());
}

#[test]
fn load_op_journal_fails_closed_when_compaction_persist_fails() {
    let legacy = legacy_done(&"x".repeat(80 * 1024));
    let mut disk = Disk { primary: Some(legacy), unwritable: true, ..Disk::default() };
    let err = disk.load().unwrap_err();
    assert!(err.contains("failed to persist compacted operation journal"));
    assert!(disk.primary_text().contains("x".repeat(80 * 1024).as_str()));
}

#[test]
fn an_unwritable_recovery_keeps_the_only_copy() {
    let legacy = legacy_done("body");
    let mut disk = Disk { backup: Some(legacy.clone()), unwritable: true, ..Disk::default() };
    let err = disk.load().unwrap_err();
    assert_eq!(err, "failed to persist recovered op journal op-journal.json: permission denied");
    assert_eq!(disk.backup, Some(legacy.clone()));
    assert!(disk.primary.is_none());
    let mut disk = Disk { backup: Some(legacy), unremovable: true, ..Disk::default() };
    let err = disk.load().unwrap_err();
    assert!(err.starts_with(
        "failed to remove recovered op journal backup op-journal.json.bak after promoting the primary: is a directory;"
    ));
    assert!(disk.primary.is_some());
}

#[test]
fn a_load_fails_with_the_access_that_fails_and_in_order_only() {
    let started = || match load_op_journal("j", true, false, NOW) {
        LoadNext::Act(load) => load,
        _ => panic!("the primary is there"),
    };
    match started().next(LoadEvent::Failed("denied".to_string())) {
        LoadNext::Failed(text) => assert_eq!(text, "failed to stat operation journal j: denied"),
        _ => panic!("a failed step fails the load"),
    }
    match started().next(LoadEvent::Sized(16_777_217)) {
        LoadNext::Failed(text) => {
            assert_eq!(text, "operation journal j exceeds 16777216 read budget (16777217)");
        }
        _ => panic!("too large a file fails the load"),
    }
    match started().next(LoadEvent::Sized(2)) {
        LoadNext::Act(load) => match load.next(LoadEvent::Failed("denied".to_string())) {
            LoadNext::Failed(text) => {
                assert_eq!(text, "failed to read operation journal j: denied");
            }
            _ => panic!("a failed step fails the load"),
        },
        _ => panic!("a small file is read"),
    }
    assert!(matches!(started().next(LoadEvent::Done), LoadNext::Failed(_)));
}

#[test]
fn stale_bak_is_removed_before_compaction_write() {
    let big_body = "z".repeat(80 * 1024);
    let legacy = legacy_done(&big_body);
    let mut disk =
        Disk { primary: Some(legacy.clone()), backup: Some(legacy), ..Disk::default() };
    let mut runtime = open(OpJournal::new());
    runtime.fail_op_journal_write_on_nth_call_for_test(1);
    let next = runtime.journal.journal.copy();
    let bytes = runtime.journal.persist_op_journal(&next).unwrap();
    let err = disk.write(&bytes, &mut runtime.journal.write_fault).unwrap_err();
    assert!(err.to_text().contains("fault-injected op journal write"));
    assert!(disk.backup.is_none());
    assert!(disk.primary_text().contains(big_body.as_str()));
}

#[test]
fn unremovable_stale_bak_fails_persist_fail_closed() {
    let mut disk = Disk::default();
    let mut runtime = open(OpJournal::new());
    let key = "prin\u{1f}op_bakfail_1".to_string();
    let mut fault: usize = 0;
    match runtime.journal.begin_idempotent(Some(&key), "op_bakfail_1", NOW).unwrap() {
        BeginPlan::Reserve(write) => {
            let outcome = disk.write(&write.bytes, &mut fault);
            runtime.journal.settle(write, outcome).expect("begin marker");
        }
        _ => panic!("the journal is empty"),
    }
    assert!(disk.primary.is_some());
    disk.unremovable = true;
    let body = obj(vec![
        ("approval_required", no()),
        ("operation_id", s("op_bakfail_1")),
        ("result", obj(vec![("stdout", s(&"z".repeat(80 * 1024)))])),
    ]);
    let write = runtime.journal.store_idempotent(Some(&key), &body, NOW).unwrap().unwrap();
    let outcome = disk.write(&write.bytes, &mut fault);
    let err = runtime.journal.settle(write, outcome).unwrap_err();
    assert!(err.to_text().contains("failed to remove stale op journal backup"));
    assert!(is_op_journal_in_progress(runtime.journal.journal.get(&key).unwrap()));
    assert!(!disk.primary_text().contains("z".repeat(80 * 1024).as_str()));

    disk.unremovable = false;
    let write = runtime.journal.store_idempotent(Some(&key), &body, NOW).unwrap().unwrap();
    let outcome = disk.write(&write.bytes, &mut fault);
    runtime.journal.settle(write, outcome).expect("store after resolving the backup");
    assert!(!disk.primary_text().contains("z".repeat(80 * 1024).as_str()));
    assert!(!is_op_journal_in_progress(runtime.journal.journal.get(&key).unwrap()));
}

#[test]
fn uncertain_outcomes_keep_their_marker() {
    let mut device = Device::new();
    let key = "prin\u{1f}op_elevated".to_string();
    device.begin(&key, "op_elevated").unwrap();
    let lost = || IpcError::new(ErrorCode::Conflict, "privileged broker execution failed: lost");
    let uncertain: Result<Json, ExecutionFailure> =
        Err(ExecutionFailure { error: lost(), uncertain: true });
    let planned =
        plan_outcome(&mut device.runtime.journal, Some(&key), "op_elevated", &uncertain, 7, NOW);
    assert!(matches!(planned, Ok(None)));
    assert!(is_op_journal_in_progress(device.get(&key).unwrap()));
    let retry = device.lookup(&key).unwrap_err();
    assert_eq!(retry.code, ErrorCode::Conflict);

    let definite: Result<Json, ExecutionFailure> = Err(ExecutionFailure::definite(lost()));
    let write =
        plan_outcome(&mut device.runtime.journal, Some(&key), "op_elevated", &definite, 7, NOW)
            .unwrap()
            .unwrap();
    device.commit(write).unwrap();
    let stored = device.lookup(&key).unwrap().unwrap();
    assert_eq!(stored.get_str("status"), Some("failed"));
    assert_eq!(stored.get("error").unwrap().get_i64("code"), Some(7));
}

#[test]
fn corrupt_journal_fails_to_load() {
    let raw = "{ not a journal".as_bytes();
    let err = read_and_bound_op_journal(raw, "op-journal.json", "operation journal", NOW)
        .unwrap_err();
    assert!(err.starts_with("corrupt operation journal op-journal.json: "));
    let err = read_and_bound_op_journal("[]".as_bytes(), "f", "l", NOW).unwrap_err();
    assert!(err.starts_with("corrupt l f: invalid type: sequence, expected a map"));
}

#[test]
fn oversized_journal_file_is_refused_before_it_is_read() {
    let err = check_op_journal_size(16_777_217, "op-journal.json", "operation journal").unwrap_err();
    assert_eq!(
        err,
        "operation journal op-journal.json exceeds 16777216 read budget (16777217)"
    );
}

#[test]
fn stored_failure_messages_are_bounded() {
    assert_eq!(bounded_journal_error_message("short"), "short");
    assert_eq!(
        bounded_journal_error_message(&"m".repeat(4096)),
        format!("{}\u{2026}", "m".repeat(512))
    );
    let wide = "\u{e9}".repeat(257);
    assert_eq!(
        bounded_journal_error_message(&wide),
        format!("{}\u{2026}", "\u{e9}".repeat(256))
    );
}

#[test]
fn reserved_keys_are_never_reserved_twice() {
    let mut device = Device::new();
    device.begin("prin\u{1f}op_once", "op_once").unwrap();
    let err = device.begin("prin\u{1f}op_once", "op_twice").unwrap_err();
    assert_eq!(err.to_text(), "idempotency key prin\u{1f}op_once is already reserved");
    assert_eq!(device.get("prin\u{1f}op_once").unwrap().get_str("operation_id"), Some("op_once"));
}

#[test]
fn degraded_journal_refuses_writes_and_is_not_empty() {
    let mut runtime = DaemonRuntime::open(StoredState {
        preset_name: None,
        custom_rules: Vec::new(),
        delegate_remote_mcp: false,
        workspaces: Vec::new(),
        op_journal: Err("corrupt".to_string()),
        grants: Vec::new(),
        approvals: Approvals::new(),
        lockdown: false,
        revoked: TextSet::new(),
        sessions: Vec::new(),
        evidence: Vec::new(),
    });
    let key = "prin\u{1f}k".to_string();
    let err = runtime.journal.begin_idempotent(Some(&key), "op", NOW).unwrap_err();
    assert!(err.to_text().starts_with("OWNMESH_E_JOURNAL_DEGRADED"));
    assert!(err.to_text().contains("(corrupt)"));
}

#[test]
fn encoded_values_read_back_the_same() {
    let value = obj(vec![
        ("text", s("line\nwith \"quotes\" and \u{1f600}")),
        ("list", Json::Array(vec![num(-1), Json::Null, no()])),
        ("nested", obj(vec![("empty", obj(vec![]))])),
    ]);
    let bytes = encode(&value).unwrap();
    let back = Json::Object(decode(&bytes).unwrap());
    assert!(same(&value, &back));
    assert_eq!(back.get_str("text"), Some("line\nwith \"quotes\" and \u{1f600}"));
    assert!(bytes.starts_with("{\n  \"".as_bytes()));
    assert!(decode("{".as_bytes()).is_err());
}

#[test]
fn stale_backups_go_before_the_write_unless_they_are_the_only_copy() {
    assert_eq!(write_op_journal(true), WriteStep::RemoveBackup);
    assert_eq!(write_op_journal(false), WriteStep::WritePrimary);
    let path = "/s/op-journal.json";
    match after_write_step(WriteStep::RemoveBackup, path, Some("busy")) {
        WriteNext::Refused(e) => {
            assert_eq!(e.code, ErrorCode::Internal);
            assert!(e.to_text().starts_with(
                "failed to remove stale op journal backup /s/op-journal.json.bak before writing the compacted primary: busy;"
            ));
        }
        _ => panic!("nothing is written beside a stale backup"),
    }
    match after_write_step(WriteStep::WritePrimary, path, Some("full")) {
        WriteNext::Refused(e) => assert_eq!(e.to_text(), "failed to persist op journal: full"),
        _ => panic!("a failed write is refused"),
    }
    assert!(matches!(
        after_write_step(WriteStep::WritePrimary, path, None),
        WriteNext::Act(WriteStep::SweepBackup)
    ));
    assert!(matches!(
        after_write_step(WriteStep::SweepBackup, path, Some("busy")),
        WriteNext::Written
    ));
}

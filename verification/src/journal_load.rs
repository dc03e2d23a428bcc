//! Loading the journal: bounded, compacted, and never silently empty.
use crate::codec::{
    decode, decode_fault, decoded, encode, encode_fault, encoded, is_text_of,
};
use crate::error::{ErrorCode, IpcError};
use crate::journal::{
    aged_entry, aged_view, durable_entry, durable_view, op_journal_durable_view, stamp_receipts,
    OpJournal, MAX_LEGACY_READ_BYTES, MAX_OP_JOURNAL_ENTRIES, MAX_OP_JOURNAL_FILE_BYTES,
};
use crate::json::{Json, JsonV};
use crate::state_files::{persist_error, persist_text, PersistTarget};
use crate::text::{decimal, join, join3, unsigned_decimal};
use vstd::pervasive::unreached;
use vstd::prelude::*;
use vstd::string::*;

verus! {

/// The journal that a loaded one becomes: compacted, every receipt with a
/// completion time.
pub open spec fn loaded_view(journal: Map<Seq<char>, JsonV>, now: int) -> Map<Seq<char>, JsonV> {
    aged_view(durable_view(journal), now)
}

/// Why a journal is refused: it is over its budgets even once it is compacted.
pub open spec fn budget_fault(journal: Map<Seq<char>, JsonV>, now: int) -> Option<Seq<char>> {
    if journal.dom().len() > MAX_OP_JOURNAL_ENTRIES {
        Some(
            "operation journal exceeds 4096 entry budget ("@ + decimal(
                journal.dom().len() as int,
            ) + ")"@,
        )
    } else {
        match encoded(JsonV::Object(loaded_view(journal, now))) {
            None => Some(
                "operation journal re-encode failed: "@ + encode_fault(
                    JsonV::Object(loaded_view(journal, now)),
                ),
            ),
            Some(bytes) => if bytes.len() > MAX_OP_JOURNAL_FILE_BYTES {
                Some("operation journal exceeds 4194304 byte budget after compaction"@)
            } else {
                None
            },
        }
    }
}

/// The journal is this one, or the load fails with this text.
pub open spec fn gives(
    r: Result<OpJournal, String>,
    outcome: Result<Map<Seq<char>, JsonV>, Seq<char>>,
) -> bool {
    match outcome {
        Ok(journal) => r matches Ok(out) && out@ == journal,
        Err(text) => r matches Err(e) && e@ == text,
    }
}

/// What a loaded journal becomes.
pub open spec fn bounded(journal: Map<Seq<char>, JsonV>, now: int) -> Result<
    Map<Seq<char>, JsonV>,
    Seq<char>,
> {
    match budget_fault(journal, now) {
        Some(text) => Err(text),
        None => Ok(loaded_view(journal, now)),
    }
}

/// Compacts a loaded journal and holds it to its budgets.
pub fn bound_op_journal(journal: OpJournal, now: i64) -> (r: Result<OpJournal, String>)
    ensures
        gives(r, bounded(journal@, now as int)),
{
    let n: usize = journal.len();
    if n > MAX_OP_JOURNAL_ENTRIES {
        let count = unsigned_decimal(n as u64);
        return Err(join3("operation journal exceeds 4096 entry budget (", count.as_str(), ")"));
    }
    let compacted = op_journal_durable_view(&journal);
    let bounded = stamp_receipts(&compacted, now);
    match encode(&Json::Object(bounded.to_object())) {
        Ok(bytes) => {
            if bytes.len() > MAX_OP_JOURNAL_FILE_BYTES {
                return Err(
                    "operation journal exceeds 4194304 byte budget after compaction".to_owned(),
                );
            }
            Ok(bounded)
        },
        Err(text) => Err(join("operation journal re-encode failed: ", text.as_str())),
    }
}

/// Why a journal file is not read: it is far over its budget.
pub open spec fn size_fault(len: int, file: Seq<char>, label: Seq<char>) -> Option<Seq<char>> {
    if len <= MAX_LEGACY_READ_BYTES {
        None
    } else {
        Some(label + " "@ + file + " exceeds 16777216 read budget ("@ + decimal(len) + ")"@)
    }
}

/// Refuses to read a journal file that is far over its budget.
pub fn check_op_journal_size(len: u64, file: &str, label: &str) -> (r: Result<(), String>)
    ensures
        match size_fault(len as int, file@, label@) {
            None => r is Ok,
            Some(text) => r matches Err(e) && e@ == text,
        },
{
    if len <= MAX_LEGACY_READ_BYTES {
        return Ok(());
    }
    let count = unsigned_decimal(len);
    let mut e = join3(label, " ", file);
    e.append(" exceeds 16777216 read budget (");
    e.append(count.as_str());
    e.append(")");
    Err(e)
}

/// The journal that the bytes of a file give.
pub open spec fn read_outcome(
    raw: Seq<u8>,
    file: Seq<char>,
    label: Seq<char>,
    now: int,
) -> Result<Map<Seq<char>, JsonV>, Seq<char>> {
    match decoded(raw) {
        None => Err("corrupt "@ + label + " "@ + file + ": "@ + decode_fault(raw)),
        Some(journal) => bounded(journal, now),
    }
}

/// Reads a journal file: parsed, compacted, held to its budgets.
pub fn read_and_bound_op_journal(raw: &[u8], file: &str, label: &str, now: i64) -> (r: Result<
    OpJournal,
    String,
>)
    ensures
        gives(r, read_outcome(raw@, file@, label@, now as int)),
{
    match decode(raw) {
        Ok(members) => bound_op_journal(OpJournal::from_object(members), now),
        Err(text) => {
            let mut corrupt = join3("corrupt ", label, " ");
            corrupt.append(file);
            corrupt.append(": ");
            corrupt.append(text.as_str());
            Err(corrupt)
        },
    }
}

/// Where the journal is loaded from.
#[derive(Debug, Clone, Copy, PartialEq, Eq, Structural)]
pub enum JournalSource {
    /// Neither file is there: a first start.
    Nothing,
    /// Only the backup is there: it is the last durable journal.
    Backup,
    /// The primary is there.
    Primary,
}

/// A step of loading the journal.
#[derive(Debug, Clone, Copy, PartialEq, Eq, Structural)]
pub enum LoadStep {
    /// Tell the size of the file.
    Size,
    /// Read the file.
    Read,
    RemoveBackup,
    WritePrimary,
}

/// The file to load.
pub open spec fn source_of(primary_exists: bool, backup_exists: bool) -> JournalSource {
    if primary_exists {
        JournalSource::Primary
    } else if backup_exists {
        JournalSource::Backup
    } else {
        JournalSource::Nothing
    }
}

/// Chooses the file to load.
fn journal_source(primary_exists: bool, backup_exists: bool) -> (source: JournalSource)
    ensures
        source == source_of(primary_exists, backup_exists),
{
    if primary_exists {
        JournalSource::Primary
    } else if backup_exists {
        JournalSource::Backup
    } else {
        JournalSource::Nothing
    }
}

/// Path of the backup beside a journal.
pub fn stale_op_journal_backup_path(path: &str) -> (backup: String)
    ensures
        backup@ == path@ + ".bak"@,
{
    join(path, ".bak")
}

/// What is reported when a step of loading fails.
pub open spec fn load_failure_text(
    source: JournalSource,
    step: LoadStep,
    path: Seq<char>,
    detail: Seq<char>,
) -> Seq<char> {
    match (source, step) {
        (JournalSource::Backup, LoadStep::WritePrimary) => "failed to persist recovered op journal "@
            + path + ": "@ + detail,
        (JournalSource::Backup, LoadStep::RemoveBackup) => "failed to remove recovered op journal backup "@
            + (path + ".bak"@) + " after promoting the primary: "@ + detail
            + "; remove or repair the backup (it may hold a legacy large-body journal) and restart"@,
        (_, LoadStep::RemoveBackup) => "failed to remove stale op journal backup "@ + (path
            + ".bak"@) + " before writing the compacted primary: "@ + detail
            + "; remove or repair the backup (it may hold a legacy large-body journal) and restart"@,
        (_, LoadStep::WritePrimary) => "failed to persist compacted operation journal "@ + path
            + ": "@ + detail
            + "; the journal remains over budget on disk \u{2014} free space or repair the journal before starting"@,
        _ => detail,
    }
}

/// Reports a failed step of loading.
fn load_failure(source: JournalSource, step: LoadStep, path: &str, detail: &str) -> (text:
    String)
    ensures
        text@ == load_failure_text(source, step, path@, detail@),
{
    let backup = stale_op_journal_backup_path(path);
    match (source, step) {
        (JournalSource::Backup, LoadStep::WritePrimary) => {
            let mut text = join3("failed to persist recovered op journal ", path, ": ");
            text.append(detail);
            text
        },
        (JournalSource::Backup, LoadStep::RemoveBackup) => {
            let mut text = join3(
                "failed to remove recovered op journal backup ",
                backup.as_str(),
                " after promoting the primary: ",
            );
            text.append(detail);
            text.append(
                "; remove or repair the backup (it may hold a legacy large-body journal) and restart",
            );
            text
        },
        (_, LoadStep::RemoveBackup) => {
            let mut text = join3(
                "failed to remove stale op journal backup ",
                backup.as_str(),
                " before writing the compacted primary: ",
            );
            text.append(detail);
            text.append(
                "; remove or repair the backup (it may hold a legacy large-body journal) and restart",
            );
            text
        },
        (_, LoadStep::WritePrimary) => {
            let mut text = join3("failed to persist compacted operation journal ", path, ": ");
            text.append(detail);
            text.append(
                "; the journal remains over budget on disk \u{2014} free space or repair the journal before starting",
            );
            text
        },
        _ => detail.to_owned(),
    }
}

/// What came of a step of loading.
#[derive(Debug)]
pub enum LoadEvent {
    Sized(u64),
    Read(Vec<u8>),
    Done,
    /// The step failed, for this reason.
    Failed(String),
}

/// Mathematical value of a [`LoadEvent`].
pub enum LoadEventV {
    Sized(int),
    Read(Seq<u8>),
    Done,
    Failed(Seq<char>),
}

impl LoadEvent {
    pub open spec fn view(&self) -> LoadEventV {
        match self {
            LoadEvent::Sized(n) => LoadEventV::Sized(*n as int),
            LoadEvent::Read(raw) => LoadEventV::Read(raw@),
            LoadEvent::Done => LoadEventV::Done,
            LoadEvent::Failed(detail) => LoadEventV::Failed(detail@),
        }
    }
}

/// A load that waits for a step to be done.
#[derive(Debug)]
pub struct JournalLoad {
    source: JournalSource,
    path: String,
    now: i64,
    step: LoadStep,
    journal: OpJournal,
    bytes: Vec<u8>,
}

/// Mathematical value of a [`JournalLoad`]: the journal is the one that was read,
/// empty before that.
pub struct LoadV {
    pub source: JournalSource,
    pub path: Seq<char>,
    pub now: int,
    pub step: LoadStep,
    pub journal: Map<Seq<char>, JsonV>,
}

/// How a load goes on: after a failure, or once it is finished, no step follows.
#[derive(Debug)]
pub enum LoadNext {
    Act(JournalLoad),
    Finished(OpJournal),
    Failed(String),
}

/// Mathematical value of a [`LoadNext`].
pub enum LoadNextV {
    Act(LoadV),
    Finished(Map<Seq<char>, JsonV>),
    Failed(Seq<char>),
}

impl LoadV {
    /// The file that is read.
    pub open spec fn file(self) -> Seq<char> {
        if self.source == JournalSource::Backup {
            self.path + ".bak"@
        } else {
            self.path
        }
    }

    /// What that file is called.
    pub open spec fn label(self) -> Seq<char> {
        if self.source == JournalSource::Backup {
            "op journal backup"@
        } else {
            "operation journal"@
        }
    }

    /// The load at another step.
    pub open spec fn at(self, step: LoadStep) -> LoadNextV {
        LoadNextV::Act(LoadV { step, ..self })
    }
}

/// The first step of a load. With neither file the journal is empty: a first start.
pub open spec fn load_start(source: JournalSource, path: Seq<char>, now: int) -> LoadNextV {
    let journal = Map::<Seq<char>, JsonV>::empty();
    if source == JournalSource::Nothing {
        LoadNextV::Finished(journal)
    } else {
        LoadNextV::Act(LoadV { source, path, now, step: LoadStep::Size, journal })
    }
}

/// What follows a step. A backup beside the primary goes before the compacted
/// write; a backup that is the only copy goes after it. A step that fails, or that
/// is reported out of order, fails the load.
pub open spec fn load_next(v: LoadV, event: LoadEventV) -> LoadNextV {
    match (v.step, event) {
        (LoadStep::Size, LoadEventV::Failed(detail)) => LoadNextV::Failed(
            "failed to stat "@ + v.label() + " "@ + v.file() + ": "@ + detail,
        ),
        (LoadStep::Read, LoadEventV::Failed(detail)) => LoadNextV::Failed(
            "failed to read "@ + v.label() + " "@ + v.file() + ": "@ + detail,
        ),
        (_, LoadEventV::Failed(detail)) => LoadNextV::Failed(
            load_failure_text(v.source, v.step, v.path, detail),
        ),
        (LoadStep::Size, LoadEventV::Sized(len)) => match size_fault(len, v.file(), v.label()) {
            Some(text) => LoadNextV::Failed(text),
            None => v.at(LoadStep::Read),
        },
        (LoadStep::Read, LoadEventV::Read(raw)) => match read_outcome(
            raw,
            v.file(),
            v.label(),
            v.now,
        ) {
            Err(text) => LoadNextV::Failed(text),
            Ok(journal) => (LoadV { journal, ..v }).at(
                if v.source == JournalSource::Backup {
                    LoadStep::WritePrimary
                } else {
                    LoadStep::RemoveBackup
                },
            ),
        },
        (LoadStep::WritePrimary, LoadEventV::Done) => if v.source == JournalSource::Backup {
            v.at(LoadStep::RemoveBackup)
        } else {
            LoadNextV::Finished(v.journal)
        },
        (LoadStep::RemoveBackup, LoadEventV::Done) => if v.source == JournalSource::Backup {
            LoadNextV::Finished(v.journal)
        } else {
            v.at(LoadStep::WritePrimary)
        },
        _ => LoadNextV::Failed("operation journal load step out of order"@),
    }
}

impl LoadNext {
    pub open spec fn view(&self) -> LoadNextV {
        match self {
            LoadNext::Act(load) => LoadNextV::Act(load@),
            LoadNext::Finished(journal) => LoadNextV::Finished(journal@),
            LoadNext::Failed(text) => LoadNextV::Failed(text@),
        }
    }
}

/// Begins the load of the journal at a path, from the files that are there.
pub fn load_op_journal(path: &str, primary_exists: bool, backup_exists: bool, now: i64) -> (next:
    LoadNext)
    ensures
        next@ == load_start(source_of(primary_exists, backup_exists), path@, now as int),
{
    let source = journal_source(primary_exists, backup_exists);
    let journal = OpJournal::new();
    if source == JournalSource::Nothing {
        return LoadNext::Finished(journal);
    }
    LoadNext::Act(
        JournalLoad {
            source,
            path: path.to_owned(),
            now,
            step: LoadStep::Size,
            journal,
            bytes: Vec::new(),
        },
    )
}

impl JournalLoad {
    pub closed spec fn view(&self) -> LoadV {
        LoadV {
            source: self.source,
            path: self.path@,
            now: self.now as int,
            step: self.step,
            journal: self.journal@,
        }
    }

    /// Once the journal was read, its text is there.
    #[verifier::type_invariant]
    spec fn holds_text(self) -> bool {
        self.step == LoadStep::RemoveBackup || self.step == LoadStep::WritePrimary
            ==> is_text_of(self.bytes@, self.journal@)
    }

    /// The step to do.
    pub fn step(&self) -> (step: LoadStep)
        ensures
            step == self@.step,
    {
        self.step
    }

    /// The file to read.
    pub fn file(&self) -> (file: String)
        ensures
            file@ == self@.file(),
    {
        if self.source == JournalSource::Backup {
            stale_op_journal_backup_path(self.path.as_str())
        } else {
            self.path.clone()
        }
    }

    /// What the file is called.
    fn label(&self) -> (label: &'static str)
        ensures
            label@ == self@.label(),
    {
        if self.source == JournalSource::Backup {
            "op journal backup"
        } else {
            "operation journal"
        }
    }

    /// The bytes of the primary: the text of the journal that was read.
    pub fn primary_bytes(&self) -> (bytes: &Vec<u8>)
        ensures
            self@.step == LoadStep::WritePrimary ==> is_text_of(bytes@, self@.journal),
    {
        proof {
            use_type_invariant(self);
        }
        &self.bytes
    }

    /// The report on a file that cannot be looked at.
    fn access_failure(&self, what: &str, detail: &str) -> (text: String)
        ensures
            text@ == what@ + self@.label() + " "@ + self@.file() + ": "@ + detail@,
    {
        let mut text = join3(what, self.label(), " ");
        text.append(self.file().as_str());
        text.append(": ");
        text.append(detail);
        text
    }

    /// Takes the bytes of the file over.
    fn on_read(self, raw: &Vec<u8>) -> (next: LoadNext)
        requires
            self@.step == LoadStep::Read,
        ensures
            next@ == load_next(self@, LoadEventV::Read(raw@)),
    {
        let file = self.file();
        match read_and_bound_op_journal(raw.as_slice(), file.as_str(), self.label(), self.now) {
            Err(text) => LoadNext::Failed(text),
            Ok(journal) => {
                let bytes = match encode(&Json::Object(journal.to_object())) {
                    Ok(bytes) => bytes,
                    Err(_) => unreached(),
                };
                let step = if self.source == JournalSource::Backup {
                    LoadStep::WritePrimary
                } else {
                    LoadStep::RemoveBackup
                };
                LoadNext::Act(
                    JournalLoad {
                        source: self.source,
                        path: self.path,
                        now: self.now,
                        step,
                        journal,
                        bytes,
                    },
                )
            },
        }
    }

    /// The load at another step, with the journal that was read.
    fn at(self, step: LoadStep) -> (next: LoadNext)
        requires
            step == LoadStep::Read || self@.step == LoadStep::RemoveBackup || self@.step
                == LoadStep::WritePrimary,
        ensures
            next@ == self@.at(step),
    {
        proof {
            use_type_invariant(&self);
        }
        LoadNext::Act(
            JournalLoad {
                source: self.source,
                path: self.path,
                now: self.now,
                step,
                journal: self.journal,
                bytes: self.bytes,
            },
        )
    }

    /// Goes on after a step.
    pub fn next(self, event: LoadEvent) -> (next: LoadNext)
        ensures
            next@ == load_next(self@, event@),
    {
        match (self.step, event) {
            (LoadStep::Size, LoadEvent::Failed(detail)) => LoadNext::Failed(
                self.access_failure("failed to stat ", detail.as_str()),
            ),
            (LoadStep::Read, LoadEvent::Failed(detail)) => LoadNext::Failed(
                self.access_failure("failed to read ", detail.as_str()),
            ),
            (step, LoadEvent::Failed(detail)) => LoadNext::Failed(
                load_failure(self.source, step, self.path.as_str(), detail.as_str()),
            ),
            (LoadStep::Size, LoadEvent::Sized(len)) => {
                let file = self.file();
                match check_op_journal_size(len, file.as_str(), self.label()) {
                    Ok(()) => self.at(LoadStep::Read),
                    Err(text) => LoadNext::Failed(text),
                }
            },
            (LoadStep::Read, LoadEvent::Read(raw)) => self.on_read(&raw),
            (LoadStep::WritePrimary, LoadEvent::Done) => {
                if self.source == JournalSource::Backup {
                    self.at(LoadStep::RemoveBackup)
                } else {
                    LoadNext::Finished(self.journal)
                }
            },
            (LoadStep::RemoveBackup, LoadEvent::Done) => {
                if self.source == JournalSource::Backup {
                    LoadNext::Finished(self.journal)
                } else {
                    self.at(LoadStep::WritePrimary)
                }
            },
            _ => LoadNext::Failed("operation journal load step out of order".to_owned()),
        }
    }
}

/// The two files of the journal, as far as they are there.
pub struct JournalFilesV {
    pub primary: Option<Seq<u8>>,
    pub backup: Option<Seq<u8>>,
}

/// Which accesses to the files fail, and for which reason.
pub struct FileFaultsV {
    pub size: Option<Seq<char>>,
    pub read: Option<Seq<char>>,
    pub remove: Option<Seq<char>>,
    pub write: Option<Seq<char>>,
}

impl JournalFilesV {
    /// The file that is loaded.
    pub open spec fn loaded(self, source: JournalSource) -> Seq<u8> {
        if source == JournalSource::Backup {
            self.backup->0
        } else {
            self.primary->0
        }
    }
}

/// An access that fails, or what it gives.
pub open spec fn unless(fault: Option<Seq<char>>, event: LoadEventV) -> LoadEventV {
    match fault {
        Some(detail) => LoadEventV::Failed(detail),
        None => event,
    }
}

/// What the files reply to a step.
pub open spec fn reply(v: LoadV, files: JournalFilesV, faults: FileFaultsV) -> LoadEventV {
    let raw = files.loaded(v.source);
    match v.step {
        LoadStep::Size => unless(faults.size, LoadEventV::Sized(raw.len() as int)),
        LoadStep::Read => unless(faults.read, LoadEventV::Read(raw)),
        LoadStep::RemoveBackup => unless(faults.remove, LoadEventV::Done),
        LoadStep::WritePrimary => unless(faults.write, LoadEventV::Done),
    }
}

/// The files after a step: a write puts the text of the journal that was read in
/// place of the primary, whole or not at all.
pub open spec fn files_after(v: LoadV, files: JournalFilesV, event: LoadEventV) -> JournalFilesV {
    match (v.step, event) {
        (LoadStep::RemoveBackup, LoadEventV::Done) => JournalFilesV { backup: None, ..files },
        (LoadStep::WritePrimary, LoadEventV::Done) => JournalFilesV {
            primary: encoded(JsonV::Object(v.journal)),
            ..files
        },
        _ => files,
    }
}

/// The end of a load, after at most so many steps, and the files then.
pub open spec fn loaded_from(
    next: LoadNextV,
    files: JournalFilesV,
    faults: FileFaultsV,
    steps: nat,
) -> (LoadNextV, JournalFilesV)
    decreases steps,
{
    match next {
        LoadNextV::Act(v) => if steps == 0 {
            (next, files)
        } else {
            let event = reply(v, files, faults);
            loaded_from(
                load_next(v, event),
                files_after(v, files, event),
                faults,
                (steps - 1) as nat,
            )
        },
        _ => (next, files),
    }
}

/// The whole load of a journal.
pub open spec fn load_of(
    files: JournalFilesV,
    faults: FileFaultsV,
    path: Seq<char>,
    now: int,
) -> (LoadNextV, JournalFilesV) {
    loaded_from(
        load_start(source_of(files.primary is Some, files.backup is Some), path, now),
        files,
        faults,
        4,
    )
}

/// A load ends within four steps. With neither file it gives the empty journal and
/// writes nothing. It never gives a journal that the primary does not hold, nor
/// leaves a backup behind one that it gives. Where it fails, what was loaded from is
/// untouched: the primary, or the backup that was the only copy.
pub proof fn law_loads_are_whole(
    files: JournalFilesV,
    faults: FileFaultsV,
    path: Seq<char>,
    now: int,
)
    ensures
        ({
            let (end, after) = load_of(files, faults, path, now);
            &&& !(end is Act)
            &&& files.primary is None && files.backup is None ==> end == LoadNextV::Finished(
                Map::empty(),
            ) && after == files
            &&& files.primary is Some || files.backup is Some ==> (end matches LoadNextV::Finished(
                journal,
            ) ==> encoded(JsonV::Object(journal)) == after.primary && after.primary is Some
                && after.backup is None)
            &&& end is Failed && files.primary is Some ==> after.primary == files.primary
            &&& end is Failed && files.primary is None ==> after.backup == files.backup
        }),
{
    reveal_with_fuel(loaded_from, 5);
    let source = source_of(files.primary is Some, files.backup is Some);
    if source != JournalSource::Nothing {
        let v = load_start(source, path, now)->Act_0;
        let raw = files.loaded(source);
        if let Ok(journal) = read_outcome(raw, v.file(), v.label(), now) {
            assert(encoded(JsonV::Object(journal)) is Some);
        }
    }
}

/// A backup that is the only copy is recovered whole: where it can be read and
/// nothing fails, its journal is the primary and the backup is gone; where it cannot
/// be read, the load fails and nothing is written.
pub proof fn law_only_copy_is_recovered(
    files: JournalFilesV,
    faults: FileFaultsV,
    path: Seq<char>,
    now: int,
)
    requires
        files.primary is None,
        files.backup is Some,
    ensures
        ({
            let (end, after) = load_of(files, faults, path, now);
            let raw = files.backup->0;
            let read = read_outcome(raw, path + ".bak"@, "op journal backup"@, now);
            if faults.size is Some || faults.read is Some || raw.len() > MAX_LEGACY_READ_BYTES
                || read is Err {
                end is Failed && after == files
            } else if faults.write is Some {
                end is Failed && after == files
            } else if faults.remove is Some {
                end is Failed && after.backup == files.backup && after.primary == encoded(
                    JsonV::Object(read->Ok_0),
                )
            } else {
                &&& end == LoadNextV::Finished(read->Ok_0)
                &&& after.primary == encoded(JsonV::Object(read->Ok_0))
                &&& after.backup is None
                &&& (read->Ok_0).dom() == (decoded(raw)->0).dom()
            }
        }),
{
    reveal_with_fuel(loaded_from, 5);
    let read = read_outcome(files.backup->0, path + ".bak"@, "op journal backup"@, now);
    if let Ok(journal) = read {
        assert(journal.dom() =~= (decoded(files.backup->0)->0).dom());
    }
}

/// A primary whose stale backup cannot be removed, or that cannot be written anew,
/// fails the load and stays as it is.
pub proof fn law_failed_compaction_fails_the_load(
    files: JournalFilesV,
    faults: FileFaultsV,
    path: Seq<char>,
    now: int,
)
    requires
        files.primary is Some,
        faults.remove is Some || faults.write is Some,
    ensures
        load_of(files, faults, path, now).0 is Failed,
        load_of(files, faults, path, now).1.primary == files.primary,
{
    reveal_with_fuel(loaded_from, 5);
}

/// A step of writing the journal while the daemon runs.
#[derive(Debug, Clone, Copy, PartialEq, Eq, Structural)]
pub enum WriteStep {
    /// Remove a stale backup.
    RemoveBackup,
    WritePrimary,
    /// Try once more to remove a backup.
    SweepBackup,
}

/// How a write goes on: after a refusal no step follows.
#[derive(Debug)]
pub enum WriteNext {
    Act(WriteStep),
    Written,
    Refused(IpcError),
}

/// The step that a write begins with.
pub open spec fn first_write_step(primary_exists: bool) -> WriteStep {
    if primary_exists {
        WriteStep::RemoveBackup
    } else {
        WriteStep::WritePrimary
    }
}

/// Begins the write of a journal. Where the primary is missing a backup is the only
/// copy, and stays until the write is done.
pub fn write_op_journal(primary_exists: bool) -> (step: WriteStep)
    ensures
        step == first_write_step(primary_exists),
{
    if primary_exists {
        WriteStep::RemoveBackup
    } else {
        WriteStep::WritePrimary
    }
}

/// Mathematical value of a [`WriteNext`].
pub enum WriteNextV {
    Act(WriteStep),
    Written,
    Refused(Seq<char>),
}

/// The refusal to write beside a stale backup that cannot be removed.
pub open spec fn backup_refusal(path: Seq<char>, detail: Seq<char>) -> Seq<char> {
    "failed to remove stale op journal backup "@ + (path + ".bak"@)
        + " before writing the compacted primary: "@ + detail
        + "; remove or repair the backup (it may hold a legacy large-body journal) and retry \u{2014} refusing the persist rather than claiming compaction succeeded while the copy remains"@
}

/// What follows a step of writing. Nothing is written where a stale backup stays;
/// what was written stands, whatever comes of the last sweep.
pub open spec fn write_next(
    step: WriteStep,
    path: Seq<char>,
    fault: Option<Seq<char>>,
) -> WriteNextV {
    match (step, fault) {
        (WriteStep::RemoveBackup, Some(detail)) => WriteNextV::Refused(backup_refusal(path, detail)),
        (WriteStep::RemoveBackup, None) => WriteNextV::Act(WriteStep::WritePrimary),
        (WriteStep::WritePrimary, Some(detail)) => WriteNextV::Refused(
            persist_text(PersistTarget::OpJournal) + detail,
        ),
        (WriteStep::WritePrimary, None) => WriteNextV::Act(WriteStep::SweepBackup),
        (WriteStep::SweepBackup, _) => WriteNextV::Written,
    }
}

impl WriteNext {
    /// The write goes on like this; a refusal is an internal error.
    pub open spec fn goes_on(self, v: WriteNextV) -> bool {
        match v {
            WriteNextV::Act(step) => self == WriteNext::Act(step),
            WriteNextV::Written => self == WriteNext::Written,
            WriteNextV::Refused(message) => self matches WriteNext::Refused(e) && e.is(
                ErrorCode::Internal,
                message,
            ),
        }
    }
}

/// Goes on after a step of writing; `fault` says why it failed, if it did.
pub fn after_write_step(step: WriteStep, path: &str, fault: Option<&str>) -> (next: WriteNext)
    ensures
        next.goes_on(
            write_next(
                step,
                path@,
                match fault {
                    Some(detail) => Some(detail@),
                    None => None,
                },
            ),
        ),
{
    match (step, fault) {
        (WriteStep::RemoveBackup, Some(detail)) => WriteNext::Refused(
            backup_removal_error(path, detail),
        ),
        (WriteStep::RemoveBackup, None) => WriteNext::Act(WriteStep::WritePrimary),
        (WriteStep::WritePrimary, Some(detail)) => WriteNext::Refused(
            persist_error(PersistTarget::OpJournal, detail),
        ),
        (WriteStep::WritePrimary, None) => WriteNext::Act(WriteStep::SweepBackup),
        (WriteStep::SweepBackup, _) => WriteNext::Written,
    }
}

/// The files after a step of writing these bytes.
pub open spec fn files_after_write(
    step: WriteStep,
    files: JournalFilesV,
    bytes: Seq<u8>,
    fault: Option<Seq<char>>,
) -> JournalFilesV {
    match (step, fault) {
        (_, Some(_)) => files,
        (WriteStep::WritePrimary, None) => JournalFilesV { primary: Some(bytes), ..files },
        (_, None) => JournalFilesV { backup: None, ..files },
    }
}

/// The end of a write, after at most so many steps, and the files then. The faults
/// are those of the first removal, of the write and of the sweep.
pub open spec fn written_from(
    next: WriteNextV,
    path: Seq<char>,
    files: JournalFilesV,
    bytes: Seq<u8>,
    faults: (Option<Seq<char>>, Option<Seq<char>>, Option<Seq<char>>),
    steps: nat,
) -> (WriteNextV, JournalFilesV)
    decreases steps,
{
    match next {
        WriteNextV::Act(step) => if steps == 0 {
            (next, files)
        } else {
            let fault = match step {
                WriteStep::RemoveBackup => faults.0,
                WriteStep::WritePrimary => faults.1,
                WriteStep::SweepBackup => faults.2,
            };
            written_from(
                write_next(step, path, fault),
                path,
                files_after_write(step, files, bytes, fault),
                bytes,
                faults,
                (steps - 1) as nat,
            )
        },
        _ => (next, files),
    }
}

/// A write ends within three steps. One that is done left exactly its bytes, and no
/// backup beside a primary that was there. One that is refused left the primary as
/// it was, and the only copy where there was none.
pub proof fn law_writes_are_whole(
    path: Seq<char>,
    files: JournalFilesV,
    bytes: Seq<u8>,
    faults: (Option<Seq<char>>, Option<Seq<char>>, Option<Seq<char>>),
)
    ensures
        ({
            let first = if files.primary is Some {
                WriteStep::RemoveBackup
            } else {
                WriteStep::WritePrimary
            };
            let (end, after) = written_from(
                WriteNextV::Act(first),
                path,
                files,
                bytes,
                faults,
                3,
            );
            &&& !(end is Act)
            &&& end is Written ==> after.primary == Some(bytes)
            &&& end is Written && (files.primary is Some || faults.2 is None) ==> after.backup
                is None
            &&& end is Refused ==> after.primary == files.primary
            &&& end is Refused && (files.primary is None || faults.0 is Some) ==> after == files
        }),
{
    reveal_with_fuel(written_from, 4);
}

/// Reports a stale backup that cannot be removed: the write is refused.
fn backup_removal_error(path: &str, detail: &str) -> (e: IpcError)
    ensures
        e.is(ErrorCode::Internal, backup_refusal(path@, detail@)),
{
    let backup = stale_op_journal_backup_path(path);
    let mut text = join3(
        "failed to remove stale op journal backup ",
        backup.as_str(),
        " before writing the compacted primary: ",
    );
    text.append(detail);
    text.append(
        "; remove or repair the backup (it may hold a legacy large-body journal) and retry \u{2014} refusing the persist rather than claiming compaction succeeded while the copy remains",
    );
    IpcError::with_message(ErrorCode::Internal, text)
}

/// A journal that is read is given where it has at most 4 096 entries and its compacted
/// text at most 4 194 304 bytes, from a file of at most 16 777 216; every entry is kept.
pub proof fn law_loaded_journals_are_bounded(
    journal: Map<Seq<char>, JsonV>,
    now: int,
    len: int,
    file: Seq<char>,
    label: Seq<char>,
)
    ensures
        bounded(journal, now) is Ok <==> journal.dom().len() <= 4096 && (encoded(
            JsonV::Object(loaded_view(journal, now)),
        ) matches Some(bytes) && bytes.len() <= 4_194_304),
        bounded(journal, now) matches Ok(loaded) ==> loaded.dom() == journal.dom() && forall|
            k: Seq<char>,
        | #[trigger]
            journal.contains_key(k) ==> loaded[k] == aged_entry(durable_entry(journal[k]), now),
        size_fault(len, file, label) is None <==> len <= 16_777_216,
{
    assert(loaded_view(journal, now).dom() =~= journal.dom());
}

/// A primary that can be read is loaded, whatever the backup holds, and nothing else is.
pub proof fn law_the_primary_is_loaded_first(
    files: JournalFilesV,
    faults: FileFaultsV,
    path: Seq<char>,
    now: int,
)
    requires
        files.primary is Some,
        faults == (FileFaultsV { size: None, read: None, remove: None, write: None }),
    ensures
        ({
            let (end, after) = load_of(files, faults, path, now);
            let raw = files.primary->0;
            let read = read_outcome(raw, path, "operation journal"@, now);
            if raw.len() <= 16_777_216 {
                match read {
                    Ok(journal) => end == LoadNextV::Finished(journal) && after.backup is None,
                    Err(text) => end == LoadNextV::Failed(text) && after == files,
                }
            } else {
                end is Failed && after == files
            }
        }),
{
    reveal_with_fuel(loaded_from, 5);
}

/// A write removes a stale backup before it touches a primary that is there, and never
/// removes the only copy first. A step that fails ends it, but for the last one.
pub proof fn law_writes_never_remove_the_only_copy(
    primary_exists: bool,
    path: Seq<char>,
    fault: Seq<char>,
)
    ensures
        first_write_step(primary_exists) is RemoveBackup <==> primary_exists,
        first_write_step(primary_exists) is WritePrimary <==> !primary_exists,
        write_next(WriteStep::RemoveBackup, path, Some(fault)) is Refused,
        write_next(WriteStep::WritePrimary, path, Some(fault)) is Refused,
        write_next(WriteStep::RemoveBackup, path, None) == WriteNextV::Act(WriteStep::WritePrimary),
        write_next(WriteStep::WritePrimary, path, None) == WriteNextV::Act(WriteStep::SweepBackup),
        write_next(WriteStep::SweepBackup, path, None) is Written,
        write_next(WriteStep::SweepBackup, path, Some(fault)) is Written,
{
}

} // verus!

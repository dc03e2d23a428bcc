//! Output of live terminals and adapters, taken over in bounded pieces.
use crate::approvals::{answers, Refusal};
use crate::error::{ErrorCode, IpcError};
use crate::text::{
    byte_len, char_width, decimal, join, join3, lemma_prefix_within, prefix_within, texts,
    truncated, unsigned_decimal, utf8_len,
};
use vstd::prelude::*;
use vstd::string::*;

verus! {

/// Widest character.
pub const MAX_CHAR_BYTES: usize = 4;

/// A text cut into the longest pieces within a budget of bytes.
pub open spec fn output_pieces(text: Seq<char>, max: nat) -> Seq<Seq<char>>
    decreases text.len(),
{
    let first = prefix_within(text, max);
    if first.len() == 0 || first.len() > text.len() {
        Seq::empty()
    } else {
        seq![first] + output_pieces(text.skip(first.len() as int), max)
    }
}

/// The pieces put together.
pub open spec fn joined_pieces(pieces: Seq<Seq<char>>) -> Seq<char>
    decreases pieces.len(),
{
    if pieces.len() == 0 {
        Seq::empty()
    } else {
        pieces[0] + joined_pieces(pieces.skip(1))
    }
}

/// Nothing is lost in cutting: the pieces put together are the text, and each is
/// within the budget.
pub proof fn law_pieces_make_up_the_text(text: Seq<char>, max: nat)
    requires
        max >= MAX_CHAR_BYTES,
    ensures
        joined_pieces(output_pieces(text, max)) == text,
        forall|i: int|
            0 <= i < output_pieces(text, max).len() ==> utf8_len(
                #[trigger] output_pieces(text, max)[i],
            ) <= max,
    decreases text.len(),
{
    let first = prefix_within(text, max);
    lemma_prefix_within(text, max);
    if text.len() > 0 {
        assert(char_width(text[0]) <= 4);
        assert(first.len() > 0);
        let rest = text.skip(first.len() as int);
        law_pieces_make_up_the_text(rest, max);
        let all = output_pieces(text, max);
        assert(all =~= seq![first] + output_pieces(rest, max));
        assert(all.skip(1) =~= output_pieces(rest, max));
        assert(first + rest =~= text);
        assert forall|i: int| 0 <= i < all.len() implies utf8_len(#[trigger] all[i]) <= max by {
            if i > 0 {
                assert(all[i] == output_pieces(rest, max)[i - 1]);
            }
        }
    } else {
        assert(joined_pieces(output_pieces(text, max)) =~= text);
    }
}

/// Cuts a text into the longest pieces within a budget of bytes, never inside a
/// character.
pub fn split_output(text: &str, max: usize) -> (pieces: Vec<String>)
    requires
        max >= MAX_CHAR_BYTES,
    ensures
        texts(pieces@) == output_pieces(text@, max as nat),
{
    let n: usize = text.unicode_len();
    let mut pieces: Vec<String> = Vec::new();
    let mut i: usize = 0;
    assert(text@.skip(0) =~= text@);
    assert(texts(pieces@) + output_pieces(text@, max as nat) =~= output_pieces(
        text@,
        max as nat,
    ));
    while i < n
        invariant
            i <= n,
            n == text@.len(),
            max >= MAX_CHAR_BYTES,
            texts(pieces@) + output_pieces(text@.skip(i as int), max as nat)
                == output_pieces(text@, max as nat),
        decreases n - i,
    {
        let rest = text.substring_char(i, n);
        let ghost rest_chars = text@.skip(i as int);
        assert(rest@ =~= rest_chars);
        let piece = truncated(rest, max);
        proof {
            lemma_prefix_within(rest_chars, max as nat);
            assert(char_width(rest_chars[0]) <= 4);
        }
        let ghost held = texts(pieces@);
        let ghost first = piece@;
        let k: usize = piece.as_str().unicode_len();
        pieces.push(piece);
        proof {
            assert(first.len() > 0);
            assert(rest_chars.skip(first.len() as int) =~= text@.skip(i + k));
            assert(texts(pieces@) =~= held.push(first));
            assert(held.push(first) + output_pieces(text@.skip(i + k), max as nat) =~= held
                + output_pieces(rest_chars, max as nat));
        }
        i = i + k;
    }
    proof {
        assert(text@.skip(i as int).len() == 0);
        assert(prefix_within(text@.skip(i as int), max as nat).len() == 0);
        assert(texts(pieces@) + output_pieces(text@.skip(i as int), max as nat)
            =~= texts(pieces@));
    }
    pieces
}

/// What one read of a live terminal gave.
#[derive(Debug)]
pub struct LiveRead {
    pub text: String,
    pub ring_truncated: bool,
    pub exited: bool,
    pub exit_code: Option<u32>,
    /// Bytes that are still waiting.
    pub remaining: usize,
}

/// The output of a live terminal, as far as one request takes it over.
#[derive(Debug)]
pub struct LiveDrain {
    pub drained: usize,
    pub ring_truncated: bool,
    pub exited: bool,
    pub exit_code: Option<u32>,
    pub remaining: usize,
}

/// What follows a read.
#[derive(Debug)]
pub struct DrainStep {
    /// What is stored, piece by piece.
    pub pieces: Vec<String>,
    /// Whether there is more to read.
    pub more: bool,
}

/// The larger of two numbers.
pub open spec fn larger(a: usize, b: usize) -> usize {
    if a < b {
        b
    } else {
        a
    }
}

/// Bytes taken over after a read.
pub open spec fn drained_after(before: usize, text: Seq<char>) -> int {
    if before + utf8_len(text) <= usize::MAX {
        before + utf8_len(text)
    } else {
        usize::MAX as int
    }
}

impl LiveDrain {
    /// Nothing is taken over yet.
    pub fn new() -> (drain: LiveDrain)
        ensures
            drain == (LiveDrain {
                drained: 0,
                ring_truncated: false,
                exited: false,
                exit_code: None,
                remaining: 0,
            }),
    {
        LiveDrain {
            drained: 0,
            ring_truncated: false,
            exited: false,
            exit_code: None,
            remaining: 0,
        }
    }

    /// What the next read may take.
    pub open spec fn may_take(self, take: Option<usize>, budget: usize, max_chunk: usize) -> bool {
        match take {
            Some(n) => self.drained < budget && n == (if budget - self.drained < max_chunk {
                budget - self.drained
            } else {
                max_chunk as int
            }),
            None => self.drained >= budget,
        }
    }

    /// How much the next read may take; nothing once the request's budget is used
    /// up.
    pub fn next_take(&self, budget: usize, max_chunk: usize) -> (take: Option<usize>)
        ensures
            self.may_take(take, budget, max_chunk),
    {
        if self.drained >= budget {
            return None;
        }
        let left: usize = budget - self.drained;
        if left < max_chunk {
            Some(left)
        } else {
            Some(max_chunk)
        }
    }

    /// How a read is taken over.
    pub open spec fn takes_over(
        self,
        after: LiveDrain,
        step: DrainStep,
        read: LiveRead,
        max_chunk: usize,
    ) -> bool {
        &&& texts(step.pieces@) == output_pieces(read.text@, max_chunk as nat)
        &&& step.more == (read.text@.len() > 0 && read.remaining > 0)
        &&& after.drained == drained_after(self.drained, read.text@)
        &&& after.ring_truncated == (self.ring_truncated || read.ring_truncated)
        &&& after.exited == (self.exited || read.exited)
        &&& after.exit_code == (if read.exit_code is Some {
            read.exit_code
        } else {
            self.exit_code
        })
        &&& after.remaining == read.remaining
    }

    /// Takes a read over.
    pub fn drain_live_output_into_session(&mut self, read: &LiveRead, max_chunk: usize) -> (step:
        DrainStep)
        requires
            max_chunk >= MAX_CHAR_BYTES,
        ensures
            old(self).takes_over(*final(self), step, *read, max_chunk),
    {
        self.ring_truncated = self.ring_truncated || read.ring_truncated;
        self.exited = self.exited || read.exited;
        if read.exit_code.is_some() {
            self.exit_code = read.exit_code;
        }
        self.remaining = read.remaining;
        let n: usize = byte_len(read.text.as_str());
        self.drained = if n <= usize::MAX - self.drained {
            self.drained + n
        } else {
            usize::MAX
        };
        let pieces = split_output(read.text.as_str(), max_chunk);
        DrainStep { pieces, more: !read.text.as_str().is_empty() && read.remaining > 0 }
    }

    /// Bytes that are still waiting, `pending` being what the host says now.
    pub open spec fn waiting(self, pending: usize) -> usize {
        larger(self.remaining, pending)
    }

    /// The notes that make what is missing visible: no reader takes the end of
    /// what was taken over for the end of the output.
    pub open spec fn is_closing(self, notes: Seq<String>, pending: usize) -> bool {
        let ring = self.ring_truncated;
        let more = self.waiting(pending) > 0;
        &&& notes.len() == (if ring {
            1int
        } else {
            0
        }) + (if more {
            1int
        } else {
            0
        })
        &&& ring ==> notes[0]@ == "[live-pty ring truncated under backpressure]"@
        &&& more ==> notes.last()@ == "[live-pty more output pending bytes="@ + decimal(
            self.waiting(pending) as int,
        ) + "; continue replay]"@
    }

    /// Writes the closing notes.
    pub fn closing_notes(&self, pending: usize) -> (notes: Vec<String>)
        ensures
            self.is_closing(notes@, pending),
    {
        let mut notes: Vec<String> = Vec::new();
        if self.ring_truncated {
            notes.push("[live-pty ring truncated under backpressure]".to_owned());
        }
        let waiting: usize = if self.remaining < pending {
            pending
        } else {
            self.remaining
        };
        if waiting > 0 {
            notes.push(
                join3(
                    "[live-pty more output pending bytes=",
                    unsigned_decimal(waiting as u64).as_str(),
                    "; continue replay]",
                ),
            );
        }
        notes
    }

    /// What tells of a process that ended.
    pub open spec fn is_exit_note(self, note: Option<String>) -> bool {
        match note {
            Some(text) => self.exited && text@ == (match self.exit_code {
                Some(code) => "[live-pty exited code="@ + decimal(code as int) + "]"@,
                None => "[live-pty exited]"@,
            }),
            None => !self.exited,
        }
    }

    /// The note on a terminal whose process ended.
    pub fn exit_note(&self) -> (note: Option<String>)
        ensures
            self.is_exit_note(note),
    {
        if !self.exited {
            return None;
        }
        match self.exit_code {
            Some(code) => Some(
                join3("[live-pty exited code=", unsigned_decimal(code as u64).as_str(), "]"),
            ),
            None => Some("[live-pty exited]".to_owned()),
        }
    }
}

/// Output that was left waiting is never passed over in silence.
pub proof fn law_waiting_output_is_announced(drain: LiveDrain, notes: Seq<String>, pending: usize)
    requires
        drain.is_closing(notes, pending),
        drain.remaining > 0 || pending > 0 || drain.ring_truncated,
    ensures
        notes.len() > 0,
{
}

/// Position of the first end of line at or behind a point, or the length.
pub open spec fn line_end(bytes: Seq<u8>) -> int
    decreases bytes.len(),
{
    if bytes.len() == 0 || bytes[0] == 10 {
        0
    } else {
        1 + line_end(bytes.skip(1))
    }
}

/// Where the first end of line stands.
proof fn lemma_line_end(bytes: Seq<u8>, at: int)
    requires
        0 <= at <= bytes.len(),
        forall|i: int| 0 <= i < at ==> #[trigger] bytes[i] != 10,
        at < bytes.len() ==> bytes[at] == 10,
    ensures
        line_end(bytes) == at,
    decreases bytes.len(),
{
    if bytes.len() > 0 && bytes[0] != 10 {
        let rest = bytes.skip(1);
        assert forall|i: int| 0 <= i < at - 1 implies #[trigger] rest[i] != 10 by {
            assert(rest[i] == bytes[i + 1]);
        }
        lemma_line_end(rest, at - 1);
    }
}

/// Records of an adapter, one per line, of which the last may be incomplete.
#[derive(Debug)]
pub struct RecordBuffer {
    pub partial: Vec<u8>,
}

/// Why a page of an adapter's output is refused.
pub open spec fn record_refusal(len: int, max: int) -> Refusal {
    if len > max {
        Some(
            (
                ErrorCode::Conflict,
                "structured adapter emitted an overlong bootstrap record"@,
            ),
        )
    } else {
        None
    }
}

impl RecordBuffer {
    /// Nothing was read yet.
    pub fn new() -> (buffer: RecordBuffer)
        ensures
            buffer.partial@.len() == 0,
    {
        RecordBuffer { partial: Vec::new() }
    }

    /// Takes a page of output over, up to the bound on what may be waiting.
    pub fn take_page(&mut self, page: &Vec<u8>, max: usize) -> (r: Result<(), IpcError>)
        ensures
            final(self).partial@ == old(self).partial@ + page@,
            answers(r, record_refusal(final(self).partial@.len() as int, max as int)),
    {
        let ghost before = self.partial@;
        let mut i: usize = 0;
        assert(before + page@.take(0) =~= before);
        while i < page.len()
            invariant
                i <= page@.len(),
                self.partial@ == before + page@.take(i as int),
            decreases page.len() - i,
        {
            self.partial.push(page[i]);
            assert(before + page@.take(i + 1) =~= (before + page@.take(i as int)).push(
                page@[i as int],
            ));
            i += 1;
        }
        assert(page@.take(i as int) =~= page@);
        if self.partial.len() > max {
            return Err(
                IpcError::new(
                    ErrorCode::Conflict,
                    "structured adapter emitted an overlong bootstrap record",
                ),
            );
        }
        Ok(())
    }

    /// Takes the first complete record out, its end of line included.
    pub fn next_record(&mut self) -> (record: Option<Vec<u8>>)
        ensures
            match record {
                Some(bytes) => {
                    &&& line_end(old(self).partial@) < old(self).partial@.len()
                    &&& bytes@ == old(self).partial@.take(line_end(old(self).partial@) + 1)
                    &&& final(self).partial@ == old(self).partial@.skip(
                        line_end(old(self).partial@) + 1,
                    )
                },
                None => line_end(old(self).partial@) >= old(self).partial@.len()
                    && final(self).partial@ == old(self).partial@,
            },
    {
        let ghost before = self.partial@;
        let n: usize = self.partial.len();
        let mut at: usize = 0;
        while at < n && self.partial[at] != 10
            invariant
                at <= n,
                n == self.partial@.len(),
                self.partial@ == before,
                forall|i: int| 0 <= i < at ==> #[trigger] before[i] != 10,
            decreases n - at,
        {
            at += 1;
        }
        proof {
            lemma_line_end(before, at as int);
        }
        if at == n {
            return None;
        }
        let mut record: Vec<u8> = Vec::new();
        let mut rest: Vec<u8> = Vec::new();
        let mut i: usize = 0;
        while i < n
            invariant
                i <= n,
                at < n,
                n == self.partial@.len(),
                self.partial@ == before,
                record@ == before.take(if i <= at + 1 {
                    i as int
                } else {
                    at + 1
                }),
                rest@ == (if i <= at + 1 {
                    Seq::empty()
                } else {
                    before.subrange(at + 1, i as int)
                }),
            decreases n - i,
        {
            if i <= at {
                record.push(self.partial[i]);
                assert(record@ =~= before.take(i + 1));
            } else {
                rest.push(self.partial[i]);
                assert(rest@ =~= before.subrange(at + 1, i + 1));
            }
            i += 1;
        }
        assert(rest@ =~= before.skip(at + 1));
        self.partial = rest;
        Some(record)
    }
}

/// How the opening of an adapter fails.
#[derive(Debug, Clone, Copy, PartialEq, Eq, Structural)]
pub enum BootstrapFailure {
    /// The adapter cannot be opened like this.
    Request,
    /// What it says makes no sense.
    Reply,
    Write,
    Drain,
    FollowUp,
    TimedOut,
}

/// Class and beginning of the error.
pub open spec fn bootstrap_text(failure: BootstrapFailure) -> (ErrorCode, Seq<char>) {
    match failure {
        BootstrapFailure::Request => (ErrorCode::InvalidParams, Seq::empty()),
        BootstrapFailure::Reply => (ErrorCode::Conflict, Seq::empty()),
        BootstrapFailure::Write => (
            ErrorCode::Conflict,
            "structured adapter bootstrap write failed: "@,
        ),
        BootstrapFailure::Drain => (
            ErrorCode::Conflict,
            "structured adapter bootstrap drain failed: "@,
        ),
        BootstrapFailure::FollowUp => (
            ErrorCode::Conflict,
            "structured adapter follow-up write failed: "@,
        ),
        BootstrapFailure::TimedOut => (
            ErrorCode::Conflict,
            "structured adapter bootstrap timed out"@,
        ),
    }
}

/// Tells why an adapter could not be opened.
pub fn bootstrap_error(failure: BootstrapFailure, message: &str) -> (e: IpcError)
    ensures
        e.is(
            bootstrap_text(failure).0,
            if failure == BootstrapFailure::TimedOut {
                bootstrap_text(failure).1
            } else {
                bootstrap_text(failure).1 + message@
            },
        ),
{
    match failure {
        BootstrapFailure::Request => {
            let e = IpcError::new(ErrorCode::InvalidParams, message);
            assert(Seq::<char>::empty() + message@ =~= message@);
            e
        },
        BootstrapFailure::Reply => {
            let e = IpcError::new(ErrorCode::Conflict, message);
            assert(Seq::<char>::empty() + message@ =~= message@);
            e
        },
        BootstrapFailure::Write => IpcError::with_message(
            ErrorCode::Conflict,
            join("structured adapter bootstrap write failed: ", message),
        ),
        BootstrapFailure::Drain => IpcError::with_message(
            ErrorCode::Conflict,
            join("structured adapter bootstrap drain failed: ", message),
        ),
        BootstrapFailure::FollowUp => IpcError::with_message(
            ErrorCode::Conflict,
            join("structured adapter follow-up write failed: ", message),
        ),
        BootstrapFailure::TimedOut => IpcError::new(
            ErrorCode::Conflict,
            "structured adapter bootstrap timed out",
        ),
    }
}

/// Where the next page of an adapter's output begins.
pub fn next_cursor(next_offset: Option<u64>, total_bytes: u64) -> (cursor: u64)
    ensures
        cursor == (match next_offset {
            Some(offset) => offset,
            None => total_bytes,
        }),
{
    match next_offset {
        Some(offset) => offset,
        None => total_bytes,
    }
}

/// An adapter that is being opened: its output as far as it was not answered yet,
/// and where the next page of it begins.
#[derive(Debug)]
pub struct AdapterBootstrap {
    pub buffer: RecordBuffer,
    pub cursor: u64,
}

/// What the opening of an adapter does next.
#[derive(Debug)]
pub enum BootstrapNext {
    /// The adapter is open.
    Done,
    /// Answer a record.
    Answer(Vec<u8>),
    /// Read the page at the cursor.
    Drain,
    GiveUp(IpcError),
}

impl AdapterBootstrap {
    /// Nothing was read yet.
    pub fn new() -> (bootstrap: AdapterBootstrap)
        ensures
            bootstrap.buffer.partial@.len() == 0,
            bootstrap.cursor == 0,
    {
        AdapterBootstrap { buffer: RecordBuffer::new(), cursor: 0 }
    }

    /// How the opening of an adapter goes on.
    pub open spec fn goes_on(
        self,
        after: AdapterBootstrap,
        next: BootstrapNext,
        ready: bool,
        timed_out: bool,
    ) -> bool {
        let waiting = self.buffer.partial@;
        let end = line_end(waiting);
        &&& after.cursor == self.cursor
        &&& if ready {
            next == BootstrapNext::Done && after.buffer.partial@ == waiting
        } else if end < waiting.len() {
            next matches BootstrapNext::Answer(record) && record@ == waiting.take(end + 1)
                && after.buffer.partial@ == waiting.skip(end + 1)
        } else {
            after.buffer.partial@ == waiting && if timed_out {
                next matches BootstrapNext::GiveUp(e) && e.is(
                    ErrorCode::Conflict,
                    "structured adapter bootstrap timed out"@,
                )
            } else {
                next == BootstrapNext::Drain
            }
        }
    }

    /// Decides what comes next. A ready adapter is open at once; a record that came is
    /// answered before anything more is read; only an adapter that is not ready and
    /// has no record waiting runs out of time.
    pub fn bootstrap_structured_adapter(&mut self, ready: bool, timed_out: bool) -> (next:
        BootstrapNext)
        ensures
            old(self).goes_on(*final(self), next, ready, timed_out),
    {
        if ready {
            return BootstrapNext::Done;
        }
        match self.buffer.next_record() {
            Some(record) => BootstrapNext::Answer(record),
            None => {
                if timed_out {
                    BootstrapNext::GiveUp(bootstrap_error(BootstrapFailure::TimedOut, ""))
                } else {
                    BootstrapNext::Drain
                }
            },
        }
    }

    /// How a page that was read is taken over.
    pub open spec fn takes_page(
        self,
        after: AdapterBootstrap,
        r: Result<bool, IpcError>,
        page: Seq<u8>,
        next_offset: Option<u64>,
        total_bytes: u64,
        max: int,
    ) -> bool {
        &&& after.cursor == (match next_offset {
            Some(offset) => offset,
            None => total_bytes,
        })
        &&& after.buffer.partial@ == self.buffer.partial@ + page
        &&& answers(
            r,
            if page.len() == 0 {
                None
            } else {
                record_refusal(after.buffer.partial@.len() as int, max)
            },
        )
        &&& r matches Ok(wait) ==> wait == (page.len() == 0)
    }

    /// Takes a page of the output over; says whether to wait before the next one,
    /// which is so only where the page is empty.
    pub fn on_page(
        &mut self,
        page: &Vec<u8>,
        next_offset: Option<u64>,
        total_bytes: u64,
        max: usize,
    ) -> (r: Result<bool, IpcError>)
        ensures
            old(self).takes_page(*final(self), r, page@, next_offset, total_bytes, max as int),
    {
        self.cursor = next_cursor(next_offset, total_bytes);
        if page.len() == 0 {
            assert(self.buffer.partial@ + page@ =~= self.buffer.partial@);
            return Ok(true);
        }
        match self.buffer.take_page(page, max) {
            Ok(()) => Ok(false),
            Err(e) => Err(e),
        }
    }
}

/// A read that is taken over is stored whole, in pieces within the bound; its bytes are
/// counted, and what it tells of truncation, the exit and what waits is kept. Reading goes
/// on exactly where something came and something waits.
pub proof fn law_reads_are_taken_over_whole(
    before: LiveDrain,
    after: LiveDrain,
    step: DrainStep,
    read: LiveRead,
    max_chunk: usize,
)
    requires
        max_chunk >= 4,
        before.takes_over(after, step, read, max_chunk),
    ensures
        joined_pieces(texts(step.pieces@)) == read.text@,
        forall|i: int|
            0 <= i < step.pieces@.len() ==> utf8_len((#[trigger] step.pieces@[i])@) <= max_chunk,
        step.more <==> read.text@.len() > 0 && read.remaining > 0,
        before.drained + utf8_len(read.text@) <= usize::MAX ==> after.drained == before.drained
            + utf8_len(read.text@),
        before.ring_truncated || read.ring_truncated <==> after.ring_truncated,
        before.exited || read.exited <==> after.exited,
        read.exit_code matches Some(code) ==> after.exit_code == Some(code),
        read.exit_code is None ==> after.exit_code == before.exit_code,
        after.remaining == read.remaining,
{
    law_pieces_make_up_the_text(read.text@, max_chunk as nat);
    assert forall|i: int| 0 <= i < step.pieces@.len() implies utf8_len((#[trigger] step.pieces@[i])@)
        <= max_chunk by {
        assert(texts(step.pieces@)[i] == step.pieces@[i]@);
        assert(utf8_len(output_pieces(read.text@, max_chunk as nat)[i]) <= max_chunk);
    }
}

/// What waits is the larger of what the last read told and what the host tells now; a
/// note tells of it exactly where something waits, and another one of truncation.
pub proof fn law_closing_notes_tell_what_waits(drain: LiveDrain, notes: Seq<String>, pending: usize)
    requires
        drain.is_closing(notes, pending),
    ensures
        drain.waiting(pending) >= drain.remaining && drain.waiting(pending) >= pending,
        drain.waiting(pending) == drain.remaining || drain.waiting(pending) == pending,
        notes.len() <= 2,
        notes.len() == 0 <==> !drain.ring_truncated && drain.remaining == 0 && pending == 0,
        notes.len() == 2 <==> drain.ring_truncated && (drain.remaining > 0 || pending > 0),
        drain.ring_truncated ==> notes[0]@ == "[live-pty ring truncated under backpressure]"@,
{
}

/// A record ends with the first line feed: there is none before it.
pub proof fn law_records_end_with_a_line_feed(bytes: Seq<u8>)
    ensures
        0 <= line_end(bytes) <= bytes.len(),
        line_end(bytes) < bytes.len() ==> bytes[line_end(bytes)] == 10,
        forall|i: int| 0 <= i < line_end(bytes) ==> (#[trigger] bytes[i]) != 10,
    decreases bytes.len(),
{
    if bytes.len() > 0 && bytes[0] != 10 {
        let rest = bytes.skip(1);
        law_records_end_with_a_line_feed(rest);
        assert forall|i: int| 0 <= i < line_end(bytes) implies (#[trigger] bytes[i]) != 10 by {
            if i > 0 {
                assert(rest[i - 1] == bytes[i]);
            }
        }
    }
}

/// An adapter that is ready is open. Otherwise a whole record is answered before anything
/// else, and nothing that came in is lost; without one, more is read, until time is up.
pub proof fn law_adapters_are_opened_record_by_record(
    before: AdapterBootstrap,
    after: AdapterBootstrap,
    next: BootstrapNext,
    ready: bool,
    timed_out: bool,
)
    requires
        before.goes_on(after, next, ready, timed_out),
    ensures
        after.cursor == before.cursor,
        next is Done <==> ready,
        next matches BootstrapNext::Answer(record) ==> {
            &&& before.buffer.partial@ == record@ + after.buffer.partial@
            &&& record@.len() > 0
            &&& record@.last() == 10
            &&& forall|i: int| 0 <= i < record@.len() - 1 ==> (#[trigger] record@[i]) != 10
        },
        !(next is Answer) ==> after.buffer.partial@ == before.buffer.partial@,
        !ready && (forall|i: int|
            0 <= i < before.buffer.partial@.len() ==> (#[trigger] before.buffer.partial@[i]) != 10)
            ==> (if timed_out {
            next matches BootstrapNext::GiveUp(e) && e.code == ErrorCode::Conflict
        } else {
            next is Drain
        }),
{
    let waiting = before.buffer.partial@;
    law_records_end_with_a_line_feed(waiting);
    if let BootstrapNext::Answer(record) = next {
        assert(waiting =~= record@ + after.buffer.partial@);
    }
}

/// A record that is longer than its bound is a conflict, and no other is.
pub proof fn law_overlong_records_are_refused(len: int, max: int)
    ensures
        record_refusal(len, max) is Some <==> len > max,
        record_refusal(len, max) matches Some((code, _)) ==> code == ErrorCode::Conflict,
{
}

/// Only a request that cannot be opened is invalid; every other failure is a conflict.
pub proof fn law_bootstrap_failures_have_their_code(failure: BootstrapFailure)
    ensures
        failure is Request ==> bootstrap_text(failure).0 == ErrorCode::InvalidParams,
        !(failure is Request) ==> bootstrap_text(failure).0 == ErrorCode::Conflict,
        failure is Request || failure is Reply ==> bootstrap_text(failure).1.len() == 0,
{
}

/// A read takes at most what is left of the budget and at most a chunk, and the larger of
/// neither; nothing once the budget is used up.
pub proof fn law_reads_keep_to_the_budget(
    drain: LiveDrain,
    take: Option<usize>,
    budget: usize,
    max_chunk: usize,
)
    requires
        drain.may_take(take, budget, max_chunk),
    ensures
        take is None <==> drain.drained >= budget,
        take matches Some(n) ==> n <= max_chunk && drain.drained + n <= budget && (n == max_chunk
            || drain.drained + n == budget),
{
}

/// A page is taken behind what came before it, and the next one is read from where it
/// ends. An empty page makes wait, and only a record that is too long is refused.
pub proof fn law_pages_are_taken_in_order(
    before: AdapterBootstrap,
    after: AdapterBootstrap,
    r: Result<bool, IpcError>,
    page: Seq<u8>,
    next_offset: Option<u64>,
    total_bytes: u64,
    max: int,
)
    requires
        before.takes_page(after, r, page, next_offset, total_bytes, max),
    ensures
        after.buffer.partial@ == before.buffer.partial@ + page,
        next_offset matches Some(offset) ==> after.cursor == offset,
        next_offset is None ==> after.cursor == total_bytes,
        r is Err <==> page.len() > 0 && before.buffer.partial@.len() + page.len() > max,
        r matches Ok(wait) ==> (wait <==> page.len() == 0),
{
}

/// The exit of a terminal is told exactly where its process ended, with its code where
/// there is one.
pub proof fn law_exits_are_told(drain: LiveDrain, note: Option<String>)
    requires
        drain.is_exit_note(note),
    ensures
        note is Some <==> drain.exited,
        note matches Some(text) ==> (drain.exit_code is None ==> text@ == "[live-pty exited]"@),
        note matches Some(text) ==> (drain.exit_code matches Some(code) ==> text@
            == "[live-pty exited code="@ + decimal(code as int) + "]"@),
{
}

} // verus!

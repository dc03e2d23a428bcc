//! The bounded spool that a review's output is kept in.
use crate::text::{decimal, join3, signed_decimal, unsigned_decimal};
use vstd::prelude::*;
use vstd::string::*;
use vstd::utf8::encode_utf8;

verus! {

/// Most bytes of a page of results.
pub const REVIEW_PAGE_BYTES: usize = 49_152;

/// Most bytes of a spool, notes of the daemon included.
pub const REVIEW_CAPTURE_BYTES: usize = 163_840;

/// Bytes up to which a spool takes content: what is left is for notes.
pub const REVIEW_CONTENT_BYTES: usize = 143_360;

/// Most bytes of one chunk.
pub const REVIEW_CHUNK_BYTES: usize = 65_536;

/// Chunks up to which a spool takes content.
pub const REVIEW_CONTENT_CHUNKS: usize = 60;

/// Most chunks of a spool.
pub const REVIEW_CHUNKS: usize = 64;

/// Bytes of a page where the caller names no bound.
pub fn review_page_limit() -> (n: usize)
    ensures
        n == REVIEW_PAGE_BYTES,
{
    REVIEW_PAGE_BYTES
}

/// Bytes of a page: what the caller asks for, up to the bound.
pub open spec fn page_size(requested: usize) -> usize {
    if requested < REVIEW_PAGE_BYTES {
        requested
    } else {
        REVIEW_PAGE_BYTES
    }
}

/// Bounds a page.
pub fn page_bound(requested: usize) -> (n: usize)
    ensures
        n == page_size(requested),
{
    if requested < REVIEW_PAGE_BYTES {
        requested
    } else {
        REVIEW_PAGE_BYTES
    }
}

/// Where a piece of a review's output comes from.
#[derive(Debug, Clone, Copy, PartialEq, Eq, Structural)]
pub enum ResultKind {
    System,
    CommandStdout,
    CommandStderr,
    TestStdout,
    TestStderr,
    GitStatus,
    GitDiff,
}

/// A piece of a review's output.
#[derive(Debug)]
pub struct ReviewResultChunk {
    pub kind: ResultKind,
    pub test_index: Option<u8>,
    pub bytes: Vec<u8>,
}

/// A piece of output as a value.
pub struct ChunkV {
    pub kind: ResultKind,
    pub test_index: Option<u8>,
    pub bytes: Seq<u8>,
}

impl View for ReviewResultChunk {
    type V = ChunkV;

    open spec fn view(&self) -> ChunkV {
        ChunkV { kind: self.kind, test_index: self.test_index, bytes: self.bytes@ }
    }
}

/// The pieces as values.
pub open spec fn chunk_views(chunks: Seq<ReviewResultChunk>) -> Seq<ChunkV> {
    Seq::new(chunks.len(), |i: int| chunks[i]@)
}

/// Bytes of the pieces together.
pub open spec fn spool_bytes(chunks: Seq<ChunkV>) -> nat
    decreases chunks.len(),
{
    if chunks.len() == 0 {
        0
    } else {
        spool_bytes(chunks.drop_last()) + chunks.last().bytes.len()
    }
}

/// Output cut into pieces of the largest size.
pub open spec fn pieces(kind: ResultKind, test_index: Option<u8>, bytes: Seq<u8>) -> Seq<ChunkV>
    decreases bytes.len(),
{
    if bytes.len() == 0 {
        Seq::empty()
    } else if bytes.len() <= REVIEW_CHUNK_BYTES {
        seq![ChunkV { kind, test_index, bytes }]
    } else {
        seq![ChunkV { kind, test_index, bytes: bytes.take(REVIEW_CHUNK_BYTES as int) }] + pieces(
            kind,
            test_index,
            bytes.skip(REVIEW_CHUNK_BYTES as int),
        )
    }
}

/// The smaller of two numbers.
pub open spec fn smaller(a: int, b: int) -> int {
    if a < b {
        a
    } else {
        b
    }
}

/// The spool with a note of the daemon, as far as it fits.
pub open spec fn with_note(chunks: Seq<ChunkV>, note: Seq<char>) -> Seq<ChunkV> {
    let bytes = encode_utf8(note);
    let room = REVIEW_CAPTURE_BYTES - spool_bytes(chunks);
    if chunks.len() >= REVIEW_CHUNKS || room <= 0 {
        chunks
    } else {
        chunks.push(
            ChunkV {
                kind: ResultKind::System,
                test_index: None,
                bytes: bytes.take(
                    smaller(bytes.len() as int, smaller(room, REVIEW_CHUNK_BYTES as int)),
                ),
            },
        )
    }
}

/// Bytes of content that a spool still takes.
pub open spec fn content_room(chunks: Seq<ChunkV>) -> int {
    if chunks.len() >= REVIEW_CONTENT_CHUNKS || spool_bytes(chunks) >= REVIEW_CONTENT_BYTES {
        0
    } else {
        REVIEW_CONTENT_BYTES - spool_bytes(chunks)
    }
}

/// The note that records how much was left out.
pub open spec fn omission_note(omitted: int) -> Seq<char> {
    "review output truncated: omitted "@ + decimal(omitted) + " bytes"@
}

/// The spool with output, as far as there is room; a note records what was left
/// out.
pub open spec fn with_output(
    chunks: Seq<ChunkV>,
    kind: ResultKind,
    test_index: Option<u8>,
    bytes: Seq<u8>,
) -> Seq<ChunkV> {
    let taken = smaller(bytes.len() as int, content_room(chunks));
    let stored = chunks + pieces(kind, test_index, bytes.take(taken));
    if taken < bytes.len() {
        with_note(stored, omission_note(bytes.len() - taken))
    } else {
        stored
    }
}

/// The bytes of two spools together.
pub proof fn lemma_spool_bytes_concat(a: Seq<ChunkV>, b: Seq<ChunkV>)
    ensures
        spool_bytes(a + b) == spool_bytes(a) + spool_bytes(b),
    decreases b.len(),
{
    if b.len() == 0 {
        assert(a + b =~= a);
    } else {
        assert((a + b).drop_last() =~= a + b.drop_last());
        lemma_spool_bytes_concat(a, b.drop_last());
    }
}

/// The pieces hold all the bytes, and there are as few as can be.
pub proof fn lemma_pieces(kind: ResultKind, test_index: Option<u8>, bytes: Seq<u8>)
    ensures
        spool_bytes(pieces(kind, test_index, bytes)) == bytes.len(),
        pieces(kind, test_index, bytes).len() * REVIEW_CHUNK_BYTES < bytes.len()
            + REVIEW_CHUNK_BYTES,
    decreases bytes.len(),
{
    let all = pieces(kind, test_index, bytes);
    assert(spool_bytes(Seq::<ChunkV>::empty()) == 0);
    if bytes.len() == 0 {
        assert(all =~= Seq::empty());
    } else if bytes.len() <= REVIEW_CHUNK_BYTES {
        assert(all.drop_last() =~= Seq::<ChunkV>::empty());
        assert(all.last().bytes == bytes);
    } else {
        let first = seq![ChunkV { kind, test_index, bytes: bytes.take(REVIEW_CHUNK_BYTES as int) }];
        let rest = pieces(kind, test_index, bytes.skip(REVIEW_CHUNK_BYTES as int));
        lemma_pieces(kind, test_index, bytes.skip(REVIEW_CHUNK_BYTES as int));
        lemma_spool_bytes_concat(first, rest);
        assert(first.drop_last() =~= Seq::<ChunkV>::empty());
        assert(spool_bytes(first) == spool_bytes(first.drop_last()) + REVIEW_CHUNK_BYTES);
    }
}

/// The spool of a review. It is bounded in chunks and in bytes.
#[derive(Debug)]
pub struct ReviewSpool {
    chunks: Vec<ReviewResultChunk>,
}

/// The bounds of a spool.
pub open spec fn is_bounded(chunks: Seq<ChunkV>) -> bool {
    chunks.len() <= REVIEW_CHUNKS && spool_bytes(chunks) <= REVIEW_CAPTURE_BYTES
}

/// Within the bounds, a note leads to a spool within the bounds.
pub proof fn law_notes_keep_the_bounds(chunks: Seq<ChunkV>, note: Seq<char>)
    requires
        is_bounded(chunks),
    ensures
        is_bounded(with_note(chunks, note)),
        with_note(chunks, note).len() <= chunks.len() + 1,
{
    let after = with_note(chunks, note);
    if after.len() > chunks.len() {
        assert(after.drop_last() =~= chunks);
    } else {
        assert(after == chunks);
    }
}

/// Within the bounds, output leads to a spool within the bounds.
pub proof fn law_output_keeps_the_bounds(
    chunks: Seq<ChunkV>,
    kind: ResultKind,
    test_index: Option<u8>,
    bytes: Seq<u8>,
)
    requires
        is_bounded(chunks),
    ensures
        is_bounded(with_output(chunks, kind, test_index, bytes)),
{
    let taken = smaller(bytes.len() as int, content_room(chunks));
    let added = pieces(kind, test_index, bytes.take(taken));
    lemma_pieces(kind, test_index, bytes.take(taken));
    lemma_spool_bytes_concat(chunks, added);
    if taken == 0 {
        assert(added.len() == 0);
        assert(chunks + added =~= chunks);
    }
    law_notes_keep_the_bounds(chunks + added, omission_note(bytes.len() - taken));
}

/// Output is never left out silently: unless the whole of it was kept, a note of
/// the omission stands at the end of the spool, while there is any room for a
/// note.
pub proof fn law_omissions_are_recorded(
    chunks: Seq<ChunkV>,
    kind: ResultKind,
    test_index: Option<u8>,
    bytes: Seq<u8>,
)
    requires
        is_bounded(chunks),
        chunks.len() < REVIEW_CHUNKS,
        spool_bytes(chunks) < REVIEW_CAPTURE_BYTES,
        bytes.len() > content_room(chunks),
    ensures
        with_output(chunks, kind, test_index, bytes).last().kind == ResultKind::System,
        with_output(chunks, kind, test_index, bytes).last().bytes.len() > 0,
        with_output(chunks, kind, test_index, bytes).len() > chunks.len(),
{
    let taken = content_room(chunks);
    let added = pieces(kind, test_index, bytes.take(taken));
    lemma_pieces(kind, test_index, bytes.take(taken));
    lemma_spool_bytes_concat(chunks, added);
    if taken == 0 {
        assert(added.len() == 0);
        assert(chunks + added =~= chunks);
    }
    let note = omission_note(bytes.len() - taken);
    reveal_strlit("review output truncated: omitted ");
    assert(note.len() > 0);
    lemma_note_has_bytes(note);
}

/// A note that is not empty has bytes.
proof fn lemma_note_has_bytes(note: Seq<char>)
    requires
        note.len() > 0,
    ensures
        encode_utf8(note).len() > 0,
{
    crate::text::lemma_utf8_len_first(note);
}

impl ReviewSpool {
    /// The pieces of the spool.
    pub closed spec fn chunks(self) -> Seq<ChunkV> {
        chunk_views(self.chunks@)
    }

    /// The spool is within its bounds.
    #[verifier::type_invariant]
    spec fn bounded(self) -> bool {
        is_bounded(chunk_views(self.chunks@))
    }

    /// The empty spool.
    pub fn new() -> (spool: ReviewSpool)
        ensures
            spool.chunks() == Seq::<ChunkV>::empty(),
    {
        let spool = ReviewSpool { chunks: Vec::new() };
        assert(chunk_views(spool.chunks@) =~= Seq::empty());
        spool
    }

    /// How many pieces the spool holds.
    pub fn len(&self) -> (n: usize)
        ensures
            n == self.chunks().len(),
    {
        self.chunks.len()
    }

    /// The pieces of the spool.
    pub fn into_chunks(self) -> (chunks: Vec<ReviewResultChunk>)
        ensures
            chunk_views(chunks@) == self.chunks(),
            is_bounded(self.chunks()),
    {
        proof {
            use_type_invariant(&self);
        }
        self.chunks
    }

    /// Appends a note of the daemon, as far as it fits.
    pub fn append_review_system(&mut self, note: &str)
        ensures
            final(self).chunks() == with_note(old(self).chunks(), note@),
    {
        proof {
            use_type_invariant(&*self);
        }
        let mut chunks: Vec<ReviewResultChunk> = Vec::new();
        std::mem::swap(&mut chunks, &mut self.chunks);
        push_note(&mut chunks, note);
        proof {
            law_notes_keep_the_bounds(chunk_views(old(self).chunks@), note@);
        }
        self.chunks = chunks;
    }

    /// Appends output, as far as there is room; a note records what was left out.
    pub fn append_review_result(
        &mut self,
        kind: ResultKind,
        test_index: Option<u8>,
        bytes: &Vec<u8>,
    )
        ensures
            final(self).chunks() == with_output(old(self).chunks(), kind, test_index, bytes@),
    {
        proof {
            use_type_invariant(&*self);
        }
        let ghost before = chunk_views(self.chunks@);
        let mut chunks: Vec<ReviewResultChunk> = Vec::new();
        std::mem::swap(&mut chunks, &mut self.chunks);
        let used: usize = total_bytes(&chunks);
        let room: usize = if chunks.len() >= REVIEW_CONTENT_CHUNKS || used >= REVIEW_CONTENT_BYTES {
            0
        } else {
            REVIEW_CONTENT_BYTES - used
        };
        let taken: usize = if bytes.len() < room {
            bytes.len()
        } else {
            room
        };
        proof {
            lemma_pieces(kind, test_index, bytes@.take(taken as int));
            lemma_spool_bytes_concat(before, pieces(kind, test_index, bytes@.take(taken as int)));
            if taken == 0 {
                assert(before + pieces(kind, test_index, bytes@.take(0)) =~= before);
            }
        }
        push_pieces(&mut chunks, kind, test_index, bytes, taken);
        if taken < bytes.len() {
            let note = join3(
                "review output truncated: omitted ",
                unsigned_decimal((bytes.len() - taken) as u64).as_str(),
                " bytes",
            );
            push_note(&mut chunks, note.as_str());
        }
        proof {
            law_output_keeps_the_bounds(before, kind, test_index, bytes@);
        }
        self.chunks = chunks;
    }
}

/// Bytes of the pieces together.
fn total_bytes(chunks: &Vec<ReviewResultChunk>) -> (n: usize)
    requires
        spool_bytes(chunk_views(chunks@)) <= REVIEW_CAPTURE_BYTES,
    ensures
        n == spool_bytes(chunk_views(chunks@)),
{
    let ghost all = chunk_views(chunks@);
    let mut n: usize = 0;
    let mut i: usize = 0;
    assert(all.take(0) =~= Seq::empty());
    while i < chunks.len()
        invariant
            i <= chunks@.len(),
            all == chunk_views(chunks@),
            spool_bytes(all) <= REVIEW_CAPTURE_BYTES,
            n == spool_bytes(all.take(i as int)),
        decreases chunks.len() - i,
    {
        proof {
            assert(all.take(i + 1).drop_last() =~= all.take(i as int));
            assert(all.take(i + 1).last() == chunks@[i as int]@);
            assert(all =~= all.take(i + 1) + all.skip(i + 1));
            lemma_spool_bytes_concat(all.take(i + 1), all.skip(i + 1));
        }
        n = n + chunks[i].bytes.len();
        i += 1;
    }
    assert(all.take(i as int) =~= all);
    n
}

/// A copy of some bytes.
fn copy_bytes(bytes: &Vec<u8>, from: usize, to: usize) -> (r: Vec<u8>)
    requires
        from <= to <= bytes@.len(),
    ensures
        r@ == bytes@.subrange(from as int, to as int),
{
    let mut r: Vec<u8> = Vec::new();
    let mut i: usize = from;
    while i < to
        invariant
            from <= i <= to <= bytes@.len(),
            r@ == bytes@.subrange(from as int, i as int),
        decreases to - i,
    {
        r.push(bytes[i]);
        assert(r@ =~= bytes@.subrange(from as int, i + 1));
        i += 1;
    }
    r
}

/// Appends a note, as far as it fits.
fn push_note(chunks: &mut Vec<ReviewResultChunk>, note: &str)
    requires
        spool_bytes(chunk_views(old(chunks)@)) <= REVIEW_CAPTURE_BYTES,
    ensures
        chunk_views(final(chunks)@) == with_note(chunk_views(old(chunks)@), note@),
{
    if chunks.len() >= REVIEW_CHUNKS {
        return;
    }
    let used: usize = total_bytes(chunks);
    let room: usize = REVIEW_CAPTURE_BYTES - used;
    if room == 0 {
        return;
    }
    let bytes = note.as_bytes_vec();
    let mut kept: usize = bytes.len();
    if room < kept {
        kept = room;
    }
    if REVIEW_CHUNK_BYTES < kept {
        kept = REVIEW_CHUNK_BYTES;
    }
    let ghost before = chunk_views(chunks@);
    let part = copy_bytes(&bytes, 0, kept);
    assert(part@ =~= bytes@.take(kept as int));
    chunks.push(ReviewResultChunk { kind: ResultKind::System, test_index: None, bytes: part });
    assert(chunk_views(chunks@) =~= with_note(before, note@));
}

/// Appends the first bytes of some output, in pieces.
fn push_pieces(
    chunks: &mut Vec<ReviewResultChunk>,
    kind: ResultKind,
    test_index: Option<u8>,
    bytes: &Vec<u8>,
    taken: usize,
)
    requires
        taken <= bytes@.len(),
    ensures
        chunk_views(final(chunks)@) == chunk_views(old(chunks)@) + pieces(
            kind,
            test_index,
            bytes@.take(taken as int),
        ),
{
    let ghost before = chunk_views(chunks@);
    let ghost all = pieces(kind, test_index, bytes@.take(taken as int));
    let mut i: usize = 0;
    assert(bytes@.subrange(0, taken as int) =~= bytes@.take(taken as int));
    while i < taken
        invariant
            i <= taken <= bytes@.len(),
            chunk_views(chunks@) + pieces(
                kind,
                test_index,
                bytes@.subrange(i as int, taken as int),
            ) == before + all,
        decreases taken - i,
    {
        let end: usize = if taken - i <= REVIEW_CHUNK_BYTES {
            taken
        } else {
            i + REVIEW_CHUNK_BYTES
        };
        let ghost rest = bytes@.subrange(i as int, taken as int);
        let ghost held = chunk_views(chunks@);
        let part = copy_bytes(bytes, i, end);
        let ghost piece = ChunkV { kind, test_index, bytes: part@ };
        chunks.push(ReviewResultChunk { kind, test_index, bytes: part });
        proof {
            assert(chunk_views(chunks@) =~= held.push(piece));
            if end == taken {
                assert(part@ =~= rest);
                assert(bytes@.subrange(end as int, taken as int).len() == 0);
                assert(pieces(kind, test_index, rest) =~= seq![piece]);
                assert(held.push(piece) + pieces(
                    kind,
                    test_index,
                    bytes@.subrange(end as int, taken as int),
                ) =~= held + pieces(kind, test_index, rest));
            } else {
                assert(part@ =~= rest.take(REVIEW_CHUNK_BYTES as int));
                assert(bytes@.subrange(end as int, taken as int) =~= rest.skip(
                    REVIEW_CHUNK_BYTES as int,
                ));
                assert(held.push(piece) + pieces(
                    kind,
                    test_index,
                    bytes@.subrange(end as int, taken as int),
                ) =~= held + pieces(kind, test_index, rest));
            }
        }
        i = end;
    }
    proof {
        assert(bytes@.subrange(i as int, taken as int).len() == 0);
        assert(chunk_views(chunks@) + pieces(
            kind,
            test_index,
            bytes@.subrange(i as int, taken as int),
        ) =~= chunk_views(chunks@));
    }
}

/// How a command of a review ended.
#[derive(Debug)]
pub struct RunReport {
    pub exit_code: Option<i32>,
    pub stdout: Vec<u8>,
    pub stderr: Vec<u8>,
    pub timed_out: bool,
    pub truncated: bool,
    pub duration_ms: u64,
}

/// Text of a truth value.
pub open spec fn bool_text(b: bool) -> Seq<char> {
    if b {
        "true"@
    } else {
        "false"@
    }
}

/// Writes a truth value.
fn write_bool(b: bool) -> (s: &'static str)
    ensures
        s@ == bool_text(b),
{
    if b {
        "true"
    } else {
        "false"
    }
}

/// Text of an exit code.
pub open spec fn exit_text(code: Option<i32>) -> Seq<char> {
    match code {
        Some(c) => "Some("@ + decimal(c as int) + ")"@,
        None => "None"@,
    }
}

/// The summary of a run.
pub open spec fn run_summary(label: Seq<char>, report: RunReport) -> Seq<char> {
    label + ": exit="@ + exit_text(report.exit_code) + " timeout="@ + bool_text(report.timed_out)
        + " truncated="@ + bool_text(report.truncated) + " duration_ms="@ + decimal(
        report.duration_ms as int,
    )
}

/// Summarises a run.
pub fn format_run_summary(label: &str, report: &RunReport) -> (s: String)
    ensures
        s@ == run_summary(label@, *report),
{
    let exit = match report.exit_code {
        Some(c) => join3("Some(", signed_decimal(c as i64).as_str(), ")"),
        None => "None".to_owned(),
    };
    let mut s = join3(label, ": exit=", exit.as_str());
    s.append(" timeout=");
    s.append(write_bool(report.timed_out));
    s.append(" truncated=");
    s.append(write_bool(report.truncated));
    s.append(" duration_ms=");
    s.append(unsigned_decimal(report.duration_ms).as_str());
    s
}

/// The bytes of chunks, one after the other.
pub open spec fn joined_bytes(chunks: Seq<ChunkV>) -> Seq<u8>
    decreases chunks.len(),
{
    if chunks.len() == 0 {
        Seq::empty()
    } else {
        joined_bytes(chunks.drop_last()) + chunks.last().bytes
    }
}

/// The chunks are all of the kind and of the test, and hold exactly the bytes.
pub open spec fn hold_exactly(
    chunks: Seq<ChunkV>,
    kind: ResultKind,
    test_index: Option<u8>,
    bytes: Seq<u8>,
) -> bool {
    &&& joined_bytes(chunks) == bytes
    &&& forall|i: int|
        0 <= i < chunks.len() ==> (#[trigger] chunks[i]).kind == kind && chunks[i].test_index
            == test_index && 0 < chunks[i].bytes.len() <= 65_536
}

/// The bytes of two runs of chunks together.
proof fn lemma_joined_bytes_concat(a: Seq<ChunkV>, b: Seq<ChunkV>)
    ensures
        joined_bytes(a + b) == joined_bytes(a) + joined_bytes(b),
    decreases b.len(),
{
    if b.len() == 0 {
        assert(a + b =~= a);
        assert(joined_bytes(a) + joined_bytes(b) =~= joined_bytes(a));
    } else {
        assert((a + b).drop_last() =~= a + b.drop_last());
        lemma_joined_bytes_concat(a, b.drop_last());
        assert(joined_bytes(a + b) =~= joined_bytes(a) + joined_bytes(b));
    }
}

/// The pieces of bytes hold exactly the bytes.
proof fn lemma_pieces_hold_exactly(kind: ResultKind, test_index: Option<u8>, bytes: Seq<u8>)
    ensures
        hold_exactly(pieces(kind, test_index, bytes), kind, test_index, bytes),
    decreases bytes.len(),
{
    let all = pieces(kind, test_index, bytes);
    if bytes.len() == 0 {
        assert(joined_bytes(all) =~= bytes);
    } else if bytes.len() <= REVIEW_CHUNK_BYTES {
        assert(all.drop_last() =~= Seq::<ChunkV>::empty());
        assert(joined_bytes(all.drop_last()) =~= Seq::<u8>::empty());
        assert(joined_bytes(all) =~= bytes);
    } else {
        let head = bytes.take(REVIEW_CHUNK_BYTES as int);
        let tail = bytes.skip(REVIEW_CHUNK_BYTES as int);
        let first = seq![ChunkV { kind, test_index, bytes: head }];
        let rest = pieces(kind, test_index, tail);
        lemma_pieces_hold_exactly(kind, test_index, tail);
        lemma_joined_bytes_concat(first, rest);
        assert(first.drop_last() =~= Seq::<ChunkV>::empty());
        assert(joined_bytes(first.drop_last()) =~= Seq::<u8>::empty());
        assert(joined_bytes(first) =~= head);
        assert(head + tail =~= bytes);
        assert(all =~= first + rest);
        assert forall|i: int| 0 <= i < all.len() implies (#[trigger] all[i]).kind == kind
            && all[i].test_index == test_index && 0 < all[i].bytes.len() <= 65_536 by {
            if i > 0 {
                assert(all[i] == rest[i - 1]);
            }
        }
    }
}

/// Output for which there is room is kept to the last byte, behind what was there:
/// there is room where at most 59 chunks and 143 360 bytes are taken with it.
pub proof fn law_output_is_kept_where_there_is_room(
    chunks: Seq<ChunkV>,
    kind: ResultKind,
    test_index: Option<u8>,
    bytes: Seq<u8>,
)
    requires
        chunks.len() < 60,
        spool_bytes(chunks) < 143_360,
        spool_bytes(chunks) + bytes.len() <= 143_360,
    ensures
        with_output(chunks, kind, test_index, bytes).take(chunks.len() as int) == chunks,
        hold_exactly(
            with_output(chunks, kind, test_index, bytes).skip(chunks.len() as int),
            kind,
            test_index,
            bytes,
        ),
        with_output(chunks, kind, test_index, bytes).len() <= chunks.len() + bytes.len() / 65_536
            + 1,
        spool_bytes(with_output(chunks, kind, test_index, bytes)) == spool_bytes(chunks)
            + bytes.len(),
{
    let after = with_output(chunks, kind, test_index, bytes);
    assert(bytes.take(bytes.len() as int) =~= bytes);
    lemma_pieces_hold_exactly(kind, test_index, bytes);
    lemma_pieces(kind, test_index, bytes);
    lemma_spool_bytes_concat(chunks, pieces(kind, test_index, bytes));
    assert(after =~= chunks + pieces(kind, test_index, bytes));
    assert(after.take(chunks.len() as int) =~= chunks);
    assert(after.skip(chunks.len() as int) =~= pieces(kind, test_index, bytes));
}

/// What a spool has no room for is left out from the end only, and the note behind
/// the rest tells how many bytes that were, as far as the note has room.
pub proof fn law_left_out_output_is_counted(
    chunks: Seq<ChunkV>,
    kind: ResultKind,
    test_index: Option<u8>,
    bytes: Seq<u8>,
    kept: int,
)
    requires
        is_bounded(chunks),
        0 <= kept < bytes.len(),
        if chunks.len() >= 60 || spool_bytes(chunks) >= 143_360 {
            kept == 0
        } else {
            kept == 143_360 - spool_bytes(chunks)
        },
        chunks.len() < 64,
        spool_bytes(chunks) < 163_840,
    ensures
        ({
            let after = with_output(chunks, kind, test_index, bytes);
            let note = encode_utf8(
                "review output truncated: omitted "@ + decimal(bytes.len() - kept) + " bytes"@,
            );
            &&& after.len() > chunks.len()
            &&& after.take(chunks.len() as int) == chunks
            &&& hold_exactly(
                after.subrange(chunks.len() as int, after.len() - 1),
                kind,
                test_index,
                bytes.take(kept),
            )
            &&& after.last().kind == ResultKind::System
            &&& after.last().test_index is None
            &&& after.last().bytes.len() > 0
            &&& after.last().bytes == note.take(after.last().bytes.len() as int)
            &&& note.len() <= 163_840 - spool_bytes(chunks) - kept && note.len() <= 65_536
                ==> after.last().bytes == note
        }),
{
    let after = with_output(chunks, kind, test_index, bytes);
    let added = pieces(kind, test_index, bytes.take(kept));
    let text = "review output truncated: omitted "@ + decimal(bytes.len() - kept) + " bytes"@;
    lemma_pieces_hold_exactly(kind, test_index, bytes.take(kept));
    lemma_pieces(kind, test_index, bytes.take(kept));
    lemma_spool_bytes_concat(chunks, added);
    if kept == 0 {
        assert(added.len() == 0);
        assert(chunks + added =~= chunks);
    }
    reveal_strlit("review output truncated: omitted ");
    lemma_note_has_bytes(text);
    assert(after.drop_last() =~= chunks + added);
    assert(after.take(chunks.len() as int) =~= chunks);
    assert(after.subrange(chunks.len() as int, after.len() - 1) =~= added);
    assert(encode_utf8(text).take(encode_utf8(text).len() as int) =~= encode_utf8(text));
}

/// A note stands behind what was there, as a chunk of the daemon's own, and is cut
/// only for want of room.
pub proof fn law_notes_stand_behind_the_rest(chunks: Seq<ChunkV>, note: Seq<char>)
    requires
        chunks.len() < 64,
        spool_bytes(chunks) + encode_utf8(note).len() <= 163_840,
        spool_bytes(chunks) < 163_840,
        encode_utf8(note).len() <= 65_536,
    ensures
        with_note(chunks, note) == chunks.push(
            ChunkV { kind: ResultKind::System, test_index: None, bytes: encode_utf8(note) },
        ),
{
    let bytes = encode_utf8(note);
    assert(bytes.take(bytes.len() as int) =~= bytes);
}

/// A page is as large as is asked for, up to 49 152 bytes.
pub proof fn law_pages_are_bounded(requested: usize)
    ensures
        page_size(requested) <= 49_152,
        requested <= 49_152 ==> page_size(requested) == requested,
        requested > 49_152 ==> page_size(requested) == 49_152,
{
}

/// The summary of a run tells its label, exit, timeout, truncation and duration.
pub proof fn law_summaries_tell_the_run(label: Seq<char>, report: RunReport)
    ensures
        run_summary(label, report) == label + ": exit="@ + (match report.exit_code {
            Some(code) => "Some("@ + decimal(code as int) + ")"@,
            None => "None"@,
        }) + (if report.timed_out {
            " timeout=true"@
        } else {
            " timeout=false"@
        }) + (if report.truncated {
            " truncated=true"@
        } else {
            " truncated=false"@
        }) + " duration_ms="@ + decimal(report.duration_ms as int),
{
    reveal_strlit(" timeout=");
    reveal_strlit(" timeout=true");
    reveal_strlit(" timeout=false");
    reveal_strlit(" truncated=");
    reveal_strlit(" truncated=true");
    reveal_strlit(" truncated=false");
    reveal_strlit("true");
    reveal_strlit("false");
    let start = label + ": exit="@ + exit_text(report.exit_code);
    let timed = if report.timed_out {
        " timeout=true"@
    } else {
        " timeout=false"@
    };
    let cut = if report.truncated {
        " truncated=true"@
    } else {
        " truncated=false"@
    };
    let end = " duration_ms="@ + decimal(report.duration_ms as int);
    assert(" timeout="@ + bool_text(report.timed_out) =~= timed);
    assert(" truncated="@ + bool_text(report.truncated) =~= cut);
    assert(run_summary(label, report) =~= start + timed + cut + end);
    assert(start + timed + cut + end =~= start + timed + cut + " duration_ms="@ + decimal(
        report.duration_ms as int,
    ));
}

} // verus!

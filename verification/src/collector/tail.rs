//! Tailing a file: which bytes to read next, and the lines that the bytes
//! read so far make.

use crate::collector::config::StartAt;
use crate::collector::entry::{LogEntry, LogEntryView, Timestamp};
use crate::string_map::StringMap;
use vstd::prelude::*;

verus! {

/// What a look at the tailed path shows: which file is there and how long it
/// is.
#[derive(Debug, Clone, Copy, PartialEq, Eq, Structural)]
pub struct FileObservation {
    /// A number that tells files apart, such as an inode number.
    pub identity: u64,
    /// The file's length in bytes.
    pub len: u64,
}

/// What the caller has to do after a look at the tailed path.
#[derive(Debug, Clone, Copy, PartialEq, Eq, Structural)]
pub enum TailStep {
    /// Nothing new: look again later.
    Wait,
    /// Read the bytes from `from` up to, not including, `to`.
    Read {
        /// Offset of the first byte to read.
        from: u64,
        /// Offset behind the last byte to read.
        to: u64,
        /// Whether the path has to be opened again because another file
        /// stands there or the file was cut short; a line that was begun
        /// before is then not continued.
        reopen: bool,
    },
}

/// The position of a tail in its file.
#[derive(Debug, Clone, Copy, PartialEq, Eq, Structural)]
pub struct TailCursor {
    /// Whether the path has been looked at before.
    pub looked: bool,
    /// The file that was there at the last look, if any.
    pub identity: Option<u64>,
    /// How far that file has been read.
    pub offset: u64,
}

/// Whether the file seen now is another one than at the last look.
pub open spec fn is_other_file(cursor: TailCursor, seen: FileObservation) -> bool {
    cursor.identity != Some(seen.identity)
}

/// Whether the file seen now is the one of the last look, cut short.
pub open spec fn is_truncated(cursor: TailCursor, seen: FileObservation) -> bool {
    !is_other_file(cursor, seen) && seen.len < cursor.offset
}

/// Where reading goes on in the file seen now. The first file ever seen is
/// read from its start or from its end, as configured; a file that replaced
/// another and a file that was cut short are read from their start; any other
/// file is read from where the last read ended.
pub open spec fn read_start(cursor: TailCursor, seen: FileObservation, start_at: StartAt) -> u64 {
    if is_other_file(cursor, seen) {
        if !cursor.looked && start_at == StartAt::End {
            seen.len
        } else {
            0
        }
    } else if seen.len < cursor.offset {
        0
    } else {
        cursor.offset
    }
}

/// The cursor after a look at the path.
pub open spec fn cursor_after(cursor: TailCursor, seen: Option<FileObservation>) -> TailCursor {
    match seen {
        Some(file) => TailCursor { looked: true, identity: Some(file.identity), offset: file.len },
        None => TailCursor { looked: true, identity: None, offset: 0 },
    }
}

/// What a look at the path asks for: everything from where reading goes on
/// to the end of the file, if there is anything.
pub open spec fn step_after(
    cursor: TailCursor,
    seen: Option<FileObservation>,
    start_at: StartAt,
) -> TailStep {
    match seen {
        Some(file) => if read_start(cursor, file, start_at) < file.len {
            TailStep::Read {
                from: read_start(cursor, file, start_at),
                to: file.len,
                reopen: is_other_file(cursor, file) || is_truncated(cursor, file),
            }
        } else {
            TailStep::Wait
        },
        None => TailStep::Wait,
    }
}

impl TailCursor {
    /// The cursor of a tail that has not looked at its path yet.
    pub fn new() -> (cursor: TailCursor)
        ensures
            cursor == (TailCursor { looked: false, identity: None, offset: 0 }),
    {
        TailCursor { looked: false, identity: None, offset: 0 }
    }

    /// Takes a look at the path into account: `seen` is the file that is
    /// there now, if any. The result says what to read; the cursor then
    /// stands at the end of the file.
    pub fn observe(&mut self, seen: Option<FileObservation>, start_at: StartAt) -> (step: TailStep)
        ensures
            *final(self) == cursor_after(*old(self), seen),
            step == step_after(*old(self), seen, start_at),
    {
        match seen {
            Some(file) => {
                let other = match self.identity {
                    Some(id) => id != file.identity,
                    None => true,
                };
                let truncated = !other && file.len < self.offset;
                let from: u64 = if other {
                    if !self.looked && start_at == StartAt::End {
                        file.len
                    } else {
                        0
                    }
                } else if truncated {
                    0
                } else {
                    self.offset
                };
                self.looked = true;
                self.identity = Some(file.identity);
                self.offset = file.len;
                if from < file.len {
                    TailStep::Read { from, to: file.len, reopen: other || truncated }
                } else {
                    TailStep::Wait
                }
            },
            None => {
                self.looked = true;
                self.identity = None;
                self.offset = 0;
                TailStep::Wait
            },
        }
    }
}

/// While a file only grows, reading goes on where it ended: the second of
/// two looks at one file reads from the length that the first look saw, and
/// does not open the path again.
pub proof fn lemma_growth_is_read_once(
    cursor: TailCursor,
    first: FileObservation,
    second: FileObservation,
    start_at: StartAt,
)
    requires
        first.identity == second.identity,
        first.len <= second.len,
    ensures
        read_start(cursor_after(cursor, Some(first)), second, start_at) == first.len,
        first.len < second.len ==> step_after(cursor_after(cursor, Some(first)), Some(second), start_at)
            == (TailStep::Read { from: first.len, to: second.len, reopen: false }),
        first.len == second.len ==> step_after(
            cursor_after(cursor, Some(first)),
            Some(second),
            start_at,
        ) == TailStep::Wait,
{
}

/// A file that replaced another, and a file that was cut short, are read
/// again from their first byte, and the path is opened again.
pub proof fn lemma_rotation_starts_over(
    cursor: TailCursor,
    seen: FileObservation,
    start_at: StartAt,
)
    requires
        cursor.looked,
        is_other_file(cursor, seen) || is_truncated(cursor, seen),
        seen.len > 0,
    ensures
        step_after(cursor, Some(seen), start_at) == (TailStep::Read {
            from: 0,
            to: seen.len,
            reopen: true,
        }),
{
}

/// The first look at a path reads the whole file when reading starts at the
/// beginning, and nothing when it starts at the end.
pub proof fn lemma_first_look(seen: FileObservation, start_at: StartAt)
    ensures
        step_after(TailCursor { looked: false, identity: None, offset: 0 }, Some(seen), start_at)
            == (if start_at == StartAt::Beginning && seen.len > 0 {
            TailStep::Read { from: 0, to: seen.len, reopen: true }
        } else {
            TailStep::Wait
        }),
{
}

/// The byte that ends a line.
pub const NEWLINE: u8 = 10;

/// The index of the first newline at or after `i`, or the length of `bytes`
/// if there is none.
pub open spec fn newline_from(bytes: Seq<u8>, i: int) -> int
    decreases bytes.len() - i,
{
    if i < 0 || i >= bytes.len() {
        bytes.len() as int
    } else if bytes[i] == NEWLINE {
        i
    } else {
        newline_from(bytes, i + 1)
    }
}

/// `newline_from` lies between its start and the end of the bytes, and no
/// newline stands before it.
pub proof fn lemma_newline_from(bytes: Seq<u8>, i: int)
    requires
        0 <= i <= bytes.len(),
    ensures
        i <= newline_from(bytes, i) <= bytes.len(),
        newline_from(bytes, i) < bytes.len() ==> bytes[newline_from(bytes, i)] == NEWLINE,
        forall|k: int| i <= k < newline_from(bytes, i) ==> bytes[k] != NEWLINE,
    decreases bytes.len() - i,
{
    if i < bytes.len() && bytes[i] != NEWLINE {
        lemma_newline_from(bytes, i + 1);
    }
}

/// The complete lines of `bytes` from index `i` on, each without its
/// newline.
pub open spec fn complete_lines(bytes: Seq<u8>, i: int) -> Seq<Seq<u8>>
    decreases bytes.len() - i,
    via complete_lines_terminates
{
    if i < 0 || i >= bytes.len() || newline_from(bytes, i) >= bytes.len() {
        Seq::empty()
    } else {
        seq![bytes.subrange(i, newline_from(bytes, i))] + complete_lines(
            bytes,
            newline_from(bytes, i) + 1,
        )
    }
}

#[via_fn]
proof fn complete_lines_terminates(bytes: Seq<u8>, i: int) {
    if 0 <= i < bytes.len() {
        lemma_newline_from(bytes, i);
    }
}

/// Where the line begins that is still open behind the complete lines of
/// `bytes` from index `i` on.
pub open spec fn open_line_start(bytes: Seq<u8>, i: int) -> int
    decreases bytes.len() - i,
    via open_line_start_terminates
{
    if i < 0 || i >= bytes.len() {
        bytes.len() as int
    } else if newline_from(bytes, i) >= bytes.len() {
        i
    } else {
        open_line_start(bytes, newline_from(bytes, i) + 1)
    }
}

#[via_fn]
proof fn open_line_start_terminates(bytes: Seq<u8>, i: int) {
    if 0 <= i < bytes.len() {
        lemma_newline_from(bytes, i);
    }
}

/// The open line begins inside the bytes, behind the start, and holds no
/// newline.
pub proof fn lemma_open_line(bytes: Seq<u8>, i: int)
    requires
        0 <= i <= bytes.len(),
    ensures
        i <= open_line_start(bytes, i) <= bytes.len(),
        forall|k: int| open_line_start(bytes, i) <= k < bytes.len() ==> bytes[k] != NEWLINE,
    decreases bytes.len() - i,
{
    if i < bytes.len() {
        lemma_newline_from(bytes, i);
        if newline_from(bytes, i) < bytes.len() {
            lemma_open_line(bytes, newline_from(bytes, i) + 1);
        }
    }
}

/// The bytes that have been read of a line whose end has not been read yet.
#[derive(Debug)]
pub struct LineBuffer {
    partial: Vec<u8>,
}

impl View for LineBuffer {
    type V = Seq<u8>;

    closed spec fn view(&self) -> Seq<u8> {
        self.partial@
    }
}

/// The byte strings of a list as mathematical values.
pub open spec fn lines_view(lines: Seq<Vec<u8>>) -> Seq<Seq<u8>> {
    Seq::new(lines.len(), |i: int| lines[i]@)
}

impl LineBuffer {
    #[verifier::type_invariant]
    spec fn holds_no_newline(self) -> bool {
        forall|k: int| 0 <= k < self.partial@.len() ==> self.partial@[k] != NEWLINE
    }

    /// A buffer without an open line.
    pub fn new() -> (buffer: LineBuffer)
        ensures
            buffer@ == Seq::<u8>::empty(),
    {
        LineBuffer { partial: Vec::new() }
    }

    /// Gives up the open line.
    pub fn reset(&mut self)
        ensures
            final(self)@ == Seq::<u8>::empty(),
    {
        self.partial = Vec::new();
    }

    /// Takes the bytes that were read and hands out the lines that they
    /// complete, in order and each without its newline. What follows the last
    /// newline is kept as the open line.
    pub fn push(&mut self, chunk: &[u8]) -> (lines: Vec<Vec<u8>>)
        ensures
            lines_view(lines@) == complete_lines(old(self)@ + chunk@, 0),
            final(self)@ == (old(self)@ + chunk@).skip(open_line_start(old(self)@ + chunk@, 0)),
    {
        proof {
            use_type_invariant(&*self);
        }
        let ghost all = self.partial@ + chunk@;
        let mut lines: Vec<Vec<u8>> = Vec::new();
        let mut current: Vec<u8> = Vec::new();
        core::mem::swap(&mut current, &mut self.partial);
        let ghost kept = current@;
        let mut i: usize = 0;
        proof {
            assert(lines_view(lines@) =~= Seq::<Seq<u8>>::empty());
            assert(current@ =~= all.subrange(0, kept.len() as int));
            assert forall|k: int| 0 <= k < kept.len() implies all[k] != NEWLINE by {
                assert(all[k] == kept[k]);
            }
        }
        while i < chunk.len()
            invariant
                i <= chunk.len(),
                all == kept + chunk@,
                ({
                    let at = kept.len() + i;
                    let start = at - current@.len();
                    &&& 0 <= start <= at
                    &&& current@ == all.subrange(start, at)
                    &&& forall|k: int| start <= k < at ==> all[k] != NEWLINE
                    &&& lines_view(lines@) + complete_lines(all, start) == complete_lines(all, 0)
                    &&& open_line_start(all, start) == open_line_start(all, 0)
                }),
            decreases chunk.len() - i,
        {
            let ghost at = kept.len() + i;
            let ghost start = at - current@.len();
            let ghost before = lines_view(lines@);
            let byte = chunk[i];
            assert(all[at] == byte);
            if byte == NEWLINE {
                proof {
                    lemma_newline_at(all, start, at);
                }
                let mut line: Vec<u8> = Vec::new();
                core::mem::swap(&mut line, &mut current);
                lines.push(line);
                proof {
                    assert(lines_view(lines@) =~= before.push(all.subrange(start, at)));
                    assert(before.push(all.subrange(start, at)) + complete_lines(all, at + 1)
                        =~= before + (seq![all.subrange(start, at)] + complete_lines(all, at + 1)));
                    assert(current@ =~= all.subrange(at + 1, at + 1));
                }
            } else {
                current.push(byte);
                proof {
                    assert(current@ =~= all.subrange(start, at + 1));
                }
            }
            i += 1;
        }
        proof {
            let at = all.len() as int;
            let start = at - current@.len();
            lemma_no_newline_rest(all, start);
            assert(current@ =~= all.skip(start));
            assert(lines_view(lines@) + Seq::<Seq<u8>>::empty() =~= lines_view(lines@));
        }
        core::mem::swap(&mut current, &mut self.partial);
        lines
    }
}

/// Where no newline stands between `start` and `at` and one stands at `at`,
/// the first newline from `start` on is the one at `at`.
proof fn lemma_newline_at(all: Seq<u8>, start: int, at: int)
    requires
        0 <= start <= at < all.len(),
        forall|k: int| start <= k < at ==> all[k] != NEWLINE,
        all[at] == NEWLINE,
    ensures
        newline_from(all, start) == at,
        complete_lines(all, start) == seq![all.subrange(start, at)] + complete_lines(all, at + 1),
        open_line_start(all, start) == open_line_start(all, at + 1),
    decreases at - start,
{
    if start < at {
        lemma_newline_at(all, start + 1, at);
        assert(newline_from(all, start) == newline_from(all, start + 1));
    }
}

/// Where no newline stands from `start` on, no line is completed from there
/// and the open line begins there.
proof fn lemma_no_newline_rest(all: Seq<u8>, start: int)
    requires
        0 <= start <= all.len(),
        forall|k: int| start <= k < all.len() ==> all[k] != NEWLINE,
    ensures
        newline_from(all, start) == all.len(),
        complete_lines(all, start) == Seq::<Seq<u8>>::empty(),
        open_line_start(all, start) == start,
    decreases all.len() - start,
{
    if start < all.len() {
        lemma_no_newline_rest(all, start + 1);
    }
}

/// The text of a byte string that is read as UTF-8, with the replacement
/// character in place of what is not UTF-8: what `String::from_utf8_lossy`
/// gives.
pub uninterp spec fn utf8_lossy(bytes: Seq<u8>) -> Seq<char>;

/// Calls `String::from_utf8_lossy` and copies the text. The contract names
/// the text by the bytes.
#[verifier::external_body]
fn lossy_text(bytes: &[u8]) -> (s: String)
    ensures
        s@ == utf8_lossy(bytes@),
{
    String::from_utf8_lossy(bytes).into_owned()
}

/// The entry that a line of a tailed file becomes: the line is the message,
/// and there is neither a level nor an attribute.
pub open spec fn line_entry(source: Seq<char>, line: Seq<char>, now: Timestamp) -> LogEntryView {
    LogEntryView { timestamp: now, source, level: None, message: line, attributes: Map::empty() }
}

/// Makes the entry of a line that was read from a tailed file.
pub fn file_entry(source: &str, line: String, now: Timestamp) -> (entry: LogEntry)
    ensures
        entry@ == line_entry(source@, line@, now),
{
    LogEntry {
        timestamp: now,
        source: source.to_string(),
        level: None,
        message: line,
        attributes: StringMap::new(),
    }
}

/// Makes the entries of the lines that were read from a tailed file, one for
/// one and in order; the bytes of a line are read as UTF-8.
pub fn line_entries(source: &str, lines: &Vec<Vec<u8>>, now: Timestamp) -> (entries: Vec<LogEntry>)
    ensures
        entries@.len() == lines@.len(),
        forall|i: int|
            0 <= i < entries@.len() ==> (#[trigger] entries@[i])@ == line_entry(
                source@,
                utf8_lossy(lines@[i]@),
                now,
            ),
{
    let mut entries: Vec<LogEntry> = Vec::new();
    let mut i: usize = 0;
    while i < lines.len()
        invariant
            i <= lines.len(),
            entries@.len() == i,
            forall|k: int|
                0 <= k < i ==> (#[trigger] entries@[k])@ == line_entry(
                    source@,
                    utf8_lossy(lines@[k]@),
                    now,
                ),
        decreases lines.len() - i,
    {
        let text = lossy_text(lines[i].as_slice());
        entries.push(file_entry(source, text, now));
        i += 1;
    }
    entries
}

} // verus!

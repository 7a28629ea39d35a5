//! The local-cache exporter: one line per entry in a file that is replaced by
//! a new one once it has grown to the configured size.
//!
//! A file is named after a second, and no name is used twice. The first file
//! is named after the second at which it is made. A later file is named after
//! the second at which it is made if that is later than the second of the
//! last file, and after the second that follows the last file's otherwise: a
//! cache that fills several files within one second names them after the
//! seconds that follow. Before a file is made its path is compared with the
//! paths made so far; where it is among them the active file stays.

use crate::collector::clock::{compact_text, utc_compact, Clock};
use crate::collector::cloud::{ExportAction, ExporterError};
use crate::collector::entry::{LogEntry, LogEntryView, Timestamp, MAX_TIMESTAMP_SECS};
use crate::collector::paths::{join_path, path_joined};
use crate::collector::wire::json_line;
use crate::text::{joined, str_eq, strings_view};
use vstd::prelude::*;
use vstd::utf8::encode_utf8;

verus! {

/// Bytes in a megabyte.
pub const BYTES_PER_MB: u64 = 1_048_576;

/// The size in bytes at which a cache file is full.
pub open spec fn max_bytes(max_size_mb: int) -> int {
    max_size_mb * 1024 * 1024
}

/// Whether a file of `size` bytes is full.
pub open spec fn rotation_due(size: int, max_size_mb: int) -> bool {
    size >= max_bytes(max_size_mb)
}

/// The name of the cache file made at the second that `stamp` writes.
pub open spec fn cache_file_name(stamp: Seq<char>) -> Seq<char> {
    "logs_"@ + stamp + ".jsonl"@
}

/// The path of the cache file made in `directory` at second `secs`; `None`
/// where that second has no calendar text.
pub open spec fn new_file_path(directory: Seq<char>, secs: int) -> Option<Seq<char>> {
    match utc_compact(secs) {
        Some(stamp) => Some(path_joined(directory, cache_file_name(stamp))),
        None => None,
    }
}

/// The recorded size of a file of `size` bytes after a line of `line_bytes`
/// bytes and its newline are appended. The record stops at the largest
/// number it can hold.
pub open spec fn grown(size: int, line_bytes: int) -> int {
    if size + line_bytes + 1 > u64::MAX {
        u64::MAX as int
    } else {
        size + line_bytes + 1
    }
}

/// The number of bytes of a line in UTF-8.
pub open spec fn line_bytes(line: Seq<char>) -> int {
    encode_utf8(line).len() as int
}

/// A local-cache exporter as a mathematical value.
pub struct LocalCacheView {
    /// Unique name of the exporter.
    pub name: Seq<char>,
    /// Directory of the cache files.
    pub directory: Seq<char>,
    /// Size in megabytes at which a file is full.
    pub max_size_mb: u64,
    /// The files made so far, oldest first. Lines are appended to the last.
    pub files: Seq<Seq<char>>,
    /// The second that the last file is named after, once there is a file.
    pub last_stamp: Option<int>,
    /// Bytes written to the active file so far.
    pub current_size: u64,
}

impl LocalCacheView {
    /// The file that lines are appended to, once there is one.
    pub open spec fn current_file(self) -> Option<Seq<char>> {
        if self.files.len() == 0 {
            None
        } else {
            Some(self.files.last())
        }
    }

    /// The second that a file made at second `secs` is named after: `secs`
    /// itself where that is later than the second of the last file, else the
    /// second after the last file's. The calendar's last second is not
    /// passed.
    pub open spec fn next_stamp(self, secs: int) -> int {
        match self.last_stamp {
            Some(last) => if secs > last {
                secs
            } else if last < MAX_TIMESTAMP_SECS {
                last + 1
            } else {
                MAX_TIMESTAMP_SECS as int
            },
            None => secs,
        }
    }

    /// The cache after `path`, named after the second `stamp`, was made its
    /// active file.
    pub open spec fn with_new_file(self, path: Seq<char>, stamp: int) -> LocalCacheView {
        LocalCacheView {
            files: self.files.push(path),
            last_stamp: Some(stamp),
            current_size: 0,
            ..self
        }
    }
}

/// The rotation cursor of a local cache.
#[derive(Debug)]
pub struct LocalCacheState {
    /// The files made so far, oldest first. Lines are appended to the last.
    pub files: Vec<String>,
    /// The second that the last file is named after, once there is a file.
    pub last_stamp: Option<i64>,
    /// Bytes written to the active file so far.
    pub current_size: u64,
}

/// An optional second as a mathematical number.
pub open spec fn stamp_view(stamp: Option<i64>) -> Option<int> {
    match stamp {
        Some(s) => Some(s as int),
        None => None,
    }
}

/// Appends every entry as one line to a file of a local directory.
pub struct LocalCacheExporter {
    name: String,
    directory: String,
    max_size_mb: u64,
    state: LocalCacheState,
}

impl View for LocalCacheExporter {
    type V = LocalCacheView;

    closed spec fn view(&self) -> LocalCacheView {
        LocalCacheView {
            name: self.name@,
            directory: self.directory@,
            max_size_mb: self.max_size_mb,
            files: strings_view(self.state.files@),
            last_stamp: stamp_view(self.state.last_stamp),
            current_size: self.state.current_size,
        }
    }
}

/// The path of the file that a cache in the state `before` would turn to at
/// second `secs`.
pub open spec fn next_path(before: LocalCacheView, secs: int) -> Option<Seq<char>> {
    new_file_path(before.directory, before.next_stamp(secs))
}

/// Whether a cache in the state `before` turns to the new file `fresh` at
/// second `secs`, which gives the state `after`: no file of that path was
/// made before.
pub open spec fn turned(
    before: LocalCacheView,
    after: LocalCacheView,
    secs: int,
    fresh: Seq<char>,
) -> bool {
    &&& next_path(before, secs) == Some(fresh)
    &&& !before.files.contains(fresh)
    &&& after == before.with_new_file(fresh, before.next_stamp(secs))
}

/// Whether a cache in the state `before` stays with its files at second
/// `secs`: the file that it would turn to, `taken`, was made before.
pub open spec fn stayed(
    before: LocalCacheView,
    after: LocalCacheView,
    secs: int,
    taken: Seq<char>,
) -> bool {
    &&& next_path(before, secs) == Some(taken)
    &&& before.files.contains(taken)
    &&& after == before
}

/// What a write of `log` at second `secs` does to a cache in the state
/// `before`: the outcome `r` and the state `after`. The line goes to the
/// active file; where there is none, the file of this second is made first.
/// If the file is full after that, the cache turns to a new file, which is
/// not the file that the line went to nor any file made before; where the
/// path of the new file was made before, the active file stays.
pub open spec fn write_planned(
    before: LocalCacheView,
    after: LocalCacheView,
    log: LogEntryView,
    secs: int,
    r: Result<ExportAction, ExporterError>,
) -> bool {
    &&& r matches Ok(ExportAction::Append { create, path, line, rotate_to })
    &&& json_line(log) == Some(line@)
    &&& create == (before.files.len() == 0)
    &&& create ==> new_file_path(before.directory, secs) == Some(path@)
    &&& {
        let opened = if create {
            before.with_new_file(path@, secs)
        } else {
            before
        };
        let size = grown(opened.current_size as int, line_bytes(line@));
        let written = LocalCacheView { current_size: size as u64, ..opened };
        &&& path@ == opened.files.last()
        &&& if rotation_due(size, before.max_size_mb as int) {
            match rotate_to {
                Some(next) => next@ != path@ && turned(written, after, secs, next@),
                None => next_path(written, secs) matches Some(taken) && stayed(
                    written,
                    after,
                    secs,
                    taken,
                ),
            }
        } else {
            rotate_to is None && after == written
        }
    }
}

/// Whether a file of `size` bytes is full.
pub fn is_rotation_due(size: u64, max_size_mb: u64) -> (due: bool)
    ensures
        due == rotation_due(size as int, max_size_mb as int),
{
    match max_size_mb.checked_mul(BYTES_PER_MB) {
        Some(limit) => size >= limit,
        None => false,
    }
}

/// The name of the cache file made at the second that `stamp` writes.
pub fn cache_file(stamp: &str) -> (name: String)
    ensures
        name@ == cache_file_name(stamp@),
{
    let prefix = joined("logs_", stamp);
    joined(prefix.as_str(), ".jsonl")
}

/// The recorded size after a line is appended.
pub fn grow(size: u64, line_len: usize) -> (r: u64)
    ensures
        r == grown(size as int, line_len as int),
{
    let with_line = size.saturating_add(line_len as u64);
    with_line.saturating_add(1)
}

/// Whether `path` is one of `files`.
pub fn is_listed(files: &Vec<String>, path: &str) -> (b: bool)
    ensures
        b == strings_view(files@).contains(path@),
{
    let mut i: usize = 0;
    while i < files.len()
        invariant
            i <= files.len(),
            forall|j: int| 0 <= j < i ==> (#[trigger] files@[j])@ != path@,
        decreases files.len() - i,
    {
        if str_eq(files[i].as_str(), path) {
            assert(strings_view(files@)[i as int] == path@);
            return true;
        }
        i += 1;
    }
    false
}

impl LocalCacheExporter {
    /// Makes the exporter; it has no file yet. The directory has to exist
    /// before the first entry is written.
    pub fn new(name: String, directory: String, max_size_mb: u64) -> (r: Result<
        LocalCacheExporter,
        ExporterError,
    >)
        ensures
            r matches Ok(e) && e@ == (LocalCacheView {
                name: name@,
                directory: directory@,
                max_size_mb,
                files: Seq::empty(),
                last_stamp: None,
                current_size: 0,
            }),
    {
        let e = LocalCacheExporter {
            name,
            directory,
            max_size_mb,
            state: LocalCacheState { files: Vec::new(), last_stamp: None, current_size: 0 },
        };
        assert(e@.files =~= Seq::<Seq<char>>::empty());
        Ok(e)
    }

    /// The path of the file named after the second `secs`.
    fn path_at(&self, secs: i64) -> (path: String)
        requires
            Timestamp::representable(secs as int, 0),
        ensures
            new_file_path(self@.directory, secs as int) == Some(path@),
    {
        let stamp = match compact_text(secs) {
            Some(stamp) => stamp,
            None => String::new(),
        };
        let file = cache_file(stamp.as_str());
        join_path(self.directory.as_str(), file.as_str())
    }

    /// The second that a file made at `now` is named after.
    fn stamp_at(&self, now: Timestamp) -> (stamp: i64)
        ensures
            stamp == self@.next_stamp(now.spec_secs()),
            Timestamp::representable(stamp as int, 0),
    {
        let secs = now.secs();
        match self.state.last_stamp {
            Some(last) => if secs > last {
                secs
            } else if last < MAX_TIMESTAMP_SECS {
                last + 1
            } else {
                MAX_TIMESTAMP_SECS
            },
            None => secs,
        }
    }

    /// Makes `path`, named after the second `stamp`, the active file, with
    /// nothing written to it.
    fn open_file(&mut self, path: String, stamp: i64)
        ensures
            final(self)@ == old(self)@.with_new_file(path@, stamp as int),
    {
        self.state.files.push(path);
        self.state.last_stamp = Some(stamp);
        self.state.current_size = 0;
        assert(self@.files =~= old(self)@.files.push(path@));
    }

    /// Turns to a new file if none of its path was made before, and hands
    /// out the path with the answer.
    fn turn(&mut self, now: Timestamp) -> (r: (String, bool))
        ensures
            if r.1 {
                turned(old(self)@, final(self)@, now.spec_secs(), r.0@)
            } else {
                stayed(old(self)@, final(self)@, now.spec_secs(), r.0@)
            },
    {
        let stamp = self.stamp_at(now);
        let fresh = self.path_at(stamp);
        if is_listed(&self.state.files, fresh.as_str()) {
            (fresh, false)
        } else {
            self.open_file(fresh.clone(), stamp);
            (fresh, true)
        }
    }

    /// Makes a new file the active one and hands out its path: the caller
    /// creates the file. Where a file of that path was made before, nothing
    /// changes and the path comes back as an error.
    pub fn create_new_file(&mut self, now: Timestamp) -> (r: Result<String, ExporterError>)
        ensures
            match r {
                Ok(path) => turned(old(self)@, final(self)@, now.spec_secs(), path@),
                Err(ExporterError::FileExists { path }) => stayed(
                    old(self)@,
                    final(self)@,
                    now.spec_secs(),
                    path@,
                ),
                Err(_) => false,
            },
    {
        let (fresh, made) = self.turn(now);
        if made {
            Ok(fresh)
        } else {
            Err(ExporterError::FileExists { path: fresh })
        }
    }

    /// Replaces the active file by a new one if it is full, and says which
    /// file the caller has to create.
    pub fn check_rotation(&mut self, now: Timestamp) -> (r: Result<Option<String>, ExporterError>)
        ensures
            if rotation_due(old(self)@.current_size as int, old(self)@.max_size_mb as int) {
                match r {
                    Ok(Some(path)) => turned(old(self)@, final(self)@, now.spec_secs(), path@),
                    Ok(None) => next_path(old(self)@, now.spec_secs()) matches Some(taken) && stayed(
                        old(self)@,
                        final(self)@,
                        now.spec_secs(),
                        taken,
                    ),
                    Err(_) => false,
                }
            } else {
                &&& r matches Ok(None)
                &&& final(self)@ == old(self)@
            },
    {
        if is_rotation_due(self.state.current_size, self.max_size_mb) {
            let (fresh, made) = self.turn(now);
            if made {
                Ok(Some(fresh))
            } else {
                Ok(None)
            }
        } else {
            Ok(None)
        }
    }

    /// Plans the write of one entry: the line goes to the active file, which
    /// is made first where there is none, and the file's recorded size grows
    /// by the line and its newline. If the file is full after that, a new
    /// file becomes the active one.
    pub fn write_log(&mut self, log: &LogEntry, now: Timestamp) -> (r: Result<
        ExportAction,
        ExporterError,
    >)
        ensures
            write_planned(old(self)@, final(self)@, log@, now.spec_secs(), r),
    {
        let line = log.to_json_line();
        let create = self.state.files.len() == 0;
        if create {
            let first = self.path_at(now.secs());
            self.open_file(first, now.secs());
        }
        let ghost opened = self@;
        assert(self.state.files@.len() == opened.files.len());
        let path = self.state.files[self.state.files.len() - 1].clone();
        assert(path@ == opened.files.last());
        assert(opened == if create {
            old(self)@.with_new_file(path@, now.spec_secs())
        } else {
            old(self)@
        });
        let size = grow(self.state.current_size, line.as_str().as_bytes().len());
        self.state.current_size = size;
        let ghost written = self@;
        assert(written == (LocalCacheView { current_size: size, ..opened }));
        assert(written.files.contains(written.files.last()));
        let rotate_to = if is_rotation_due(size, self.max_size_mb) {
            let (fresh, made) = self.turn(now);
            if made {
                Some(fresh)
            } else {
                None
            }
        } else {
            None
        };
        Ok(ExportAction::Append { create, path, line, rotate_to })
    }

    /// Plans the write of one entry at the time of day that `now` gives.
    pub fn export(&mut self, log: LogEntry, now: Clock) -> (r: Result<ExportAction, ExporterError>)
        ensures
            write_planned(old(self)@, final(self)@, log@, now.wall.spec_secs(), r),
    {
        self.write_log(&log, now.wall)
    }

    /// Every write is durable at once: there is nothing to flush.
    pub fn flush(&mut self) -> (r: Result<ExportAction, ExporterError>)
        ensures
            r matches Ok(action) && action is Nothing,
            final(self)@ == old(self)@,
    {
        Ok(ExportAction::Nothing)
    }

    /// The exporter's name.
    pub fn name(&self) -> (n: &str)
        ensures
            n@ == self@.name,
    {
        self.name.as_str()
    }

    /// Directory of the cache files.
    pub fn directory(&self) -> (n: &str)
        ensures
            n@ == self@.directory,
    {
        self.directory.as_str()
    }

    /// The file that lines are appended to, once there is one.
    pub fn current_file(&self) -> (r: Option<&String>)
        ensures
            match r {
                Some(p) => self@.current_file() == Some(p@),
                None => self@.current_file() is None,
            },
    {
        if self.state.files.len() == 0 {
            None
        } else {
            Some(&self.state.files[self.state.files.len() - 1])
        }
    }

    /// Bytes written to the active file so far.
    pub fn current_size(&self) -> (n: u64)
        ensures
            n == self@.current_size,
    {
        self.state.current_size
    }
}

/// Whether no path stands twice in a list of files.
pub open spec fn made_once(files: Seq<Seq<char>>) -> bool {
    forall|i: int, j: int| 0 <= i < j < files.len() ==> files[i] != files[j]
}

/// The files that a write asks the caller to create, in the order in which
/// they are to be created.
pub open spec fn files_to_create(action: ExportAction) -> Seq<Seq<char>> {
    match action {
        ExportAction::Append { create, path, rotate_to, .. } => {
            let first = if create {
                seq![path@]
            } else {
                Seq::<Seq<char>>::empty()
            };
            match rotate_to {
                Some(next) => first.push(next@),
                None => first,
            }
        },
        _ => Seq::empty(),
    }
}

/// The threshold of a cache is its size in megabytes times 1024 squared, and
/// a file is full exactly from that many bytes on.
pub proof fn lemma_rotation_threshold(size: int, max_size_mb: int)
    ensures
        max_bytes(max_size_mb) == max_size_mb * 1_048_576,
        rotation_due(size, max_size_mb) <==> size >= max_size_mb * 1_048_576,
{
}

/// No cache file is made twice. A write appends to the list of files exactly
/// those that it asks the caller to create; none of them was made before, the
/// file that the cache turns to is not the file that the line went to, and
/// the files made earlier stay as they are. So if no path stands twice in the
/// list before a write, none does after it, however many writes came before.
pub proof fn lemma_no_file_is_made_twice(
    before: LocalCacheView,
    after: LocalCacheView,
    log: LogEntryView,
    secs: int,
    r: Result<ExportAction, ExporterError>,
)
    requires
        write_planned(before, after, log, secs, r),
    ensures
        r matches Ok(action) && after.files == before.files + files_to_create(action),
        r matches Ok(action) && (forall|i: int|
            0 <= i < files_to_create(action).len() ==> !before.files.contains(
                #[trigger] files_to_create(action)[i],
            )),
        r matches Ok(ExportAction::Append { path, rotate_to: Some(next), .. }) ==> next@ != path@,
        made_once(before.files) ==> made_once(after.files),
{
    let action = r->Ok_0;
    let made = files_to_create(action);
    let create = action->Append_create;
    let path = action->Append_path;
    let rotate_to = action->Append_rotate_to;
    let opened = if create {
        before.with_new_file(path@, secs)
    } else {
        before
    };
    assert(after.files =~= before.files + made);
    if rotate_to is Some {
        let next = rotate_to->Some_0;
        assert(!opened.files.contains(next@));
        assert forall|k: int| 0 <= k < before.files.len() implies before.files[k] != next@ by {
            assert(opened.files[k] == before.files[k]);
        }
    }
    if made_once(before.files) {
        assert forall|i: int, j: int| 0 <= i < j < after.files.len() implies after.files[i]
            != after.files[j] by {
            if j >= before.files.len() {
                assert(after.files[j] == made[j - before.files.len()]);
                if i < before.files.len() {
                    assert(before.files.contains(before.files[i]));
                } else {
                    assert(after.files[i] == made[i - before.files.len()]);
                }
            }
        }
    }
}

/// Once a write has brought the active file to its limit and has turned to a
/// new file, the next write goes to that file, not to the full one.
pub proof fn lemma_next_write_goes_to_new_file(
    before: LocalCacheView,
    between: LocalCacheView,
    after: LocalCacheView,
    first_log: LogEntryView,
    second_log: LogEntryView,
    first_secs: int,
    second_secs: int,
    first: Result<ExportAction, ExporterError>,
    second: Result<ExportAction, ExporterError>,
)
    requires
        write_planned(before, between, first_log, first_secs, first),
        write_planned(between, after, second_log, second_secs, second),
        first matches Ok(ExportAction::Append { rotate_to: Some(_), .. }),
    ensures
        first matches Ok(ExportAction::Append { path: full, rotate_to: Some(next), .. })
            && second matches Ok(ExportAction::Append { create, path, .. }) && path@ == next@
            && path@ != full@ && !create,
{
}

/// Whether the file at place `i` of the list is named after the second
/// `stamp`, which is not later than the second of the last file.
pub open spec fn made_at(cache: LocalCacheView, i: int, stamp: int) -> bool {
    &&& cache.last_stamp matches Some(last)
    &&& stamp <= last
    &&& new_file_path(cache.directory, stamp) == Some(cache.files[i])
}

/// Whether the file at place `i` of the list is named after a second that
/// is not later than the second of the last file.
pub open spec fn has_stamp(cache: LocalCacheView, i: int) -> bool {
    exists|stamp: int| made_at(cache, i, stamp)
}

/// Whether every file of the list is named after a second, none later than
/// the second of the last file, which is a second of the calendar.
pub open spec fn stamped(cache: LocalCacheView) -> bool {
    &&& cache.last_stamp matches Some(last) ==> last <= MAX_TIMESTAMP_SECS
    &&& forall|i: int| 0 <= i < cache.files.len() ==> #[trigger] has_stamp(cache, i)
}

/// Whether the files of a directory that are named after different seconds
/// have different paths.
pub open spec fn names_differ(directory: Seq<char>) -> bool {
    forall|a: int, b: int|
        a != b && (#[trigger] new_file_path(directory, a)) is Some ==> new_file_path(directory, a)
            != #[trigger] new_file_path(directory, b)
}

/// A cache without files is named by its seconds, and a write keeps a cache
/// so: every file is named after a second, none later than the second of the
/// last file.
pub proof fn lemma_write_keeps_stamps(
    before: LocalCacheView,
    after: LocalCacheView,
    log: LogEntryView,
    secs: int,
    r: Result<ExportAction, ExporterError>,
)
    requires
        write_planned(before, after, log, secs, r),
        before.files.len() == 0 || stamped(before),
        secs <= MAX_TIMESTAMP_SECS,
    ensures
        stamped(after),
{
    let action = r->Ok_0;
    let create = action->Append_create;
    let path = action->Append_path;
    let line = action->Append_line;
    let opened = if create {
        before.with_new_file(path@, secs)
    } else {
        before
    };
    assert(stamped(opened)) by {
        if create {
            assert(made_at(opened, 0, secs));
            assert(has_stamp(opened, 0));
        }
    }
    let size = grown(opened.current_size as int, line_bytes(line@));
    let written = LocalCacheView { current_size: size as u64, ..opened };
    assert(stamped(written)) by {
        assert forall|i: int| 0 <= i < written.files.len() implies #[trigger] has_stamp(
            written,
            i,
        ) by {
            assert(has_stamp(opened, i));
            let stamp = choose|stamp: int| made_at(opened, i, stamp);
            assert(made_at(written, i, stamp));
        }
    }
    if after != written {
        let stamp = written.next_stamp(secs);
        assert forall|i: int| 0 <= i < after.files.len() implies #[trigger] has_stamp(after, i) by {
            if i < written.files.len() {
                assert(has_stamp(written, i));
                let s = choose|s: int| made_at(written, i, s);
                assert(made_at(after, i, s));
            } else {
                assert(made_at(after, i, stamp));
            }
        }
    }
}

/// A write that brings the active file to its limit turns to a new file,
/// provided that files named after different seconds have different paths:
/// the new file is named after a second later than that of every file made
/// so far. The premise is a fact about the names that `chrono` and the
/// standard library write, and is not stated of them here. The calendar's
/// last second is left out: after it no later second can name a file.
pub proof fn lemma_full_file_is_left(
    before: LocalCacheView,
    after: LocalCacheView,
    log: LogEntryView,
    secs: int,
    r: Result<ExportAction, ExporterError>,
)
    requires
        write_planned(before, after, log, secs, r),
        before.files.len() == 0 || stamped(before),
        names_differ(before.directory),
        secs < MAX_TIMESTAMP_SECS,
        before.last_stamp matches Some(last) ==> last < MAX_TIMESTAMP_SECS,
        r matches Ok(ExportAction::Append { create, line, .. }) && rotation_due(
            grown(
                if create {
                    0
                } else {
                    before.current_size as int
                },
                line_bytes(line@),
            ),
            before.max_size_mb as int,
        ),
    ensures
        r matches Ok(ExportAction::Append { path, rotate_to: Some(next), .. }) && next@ != path@
            && !before.files.contains(next@) && after.current_file() == Some(next@)
            && after.current_size == 0,
{
    let action = r->Ok_0;
    let create = action->Append_create;
    let path = action->Append_path;
    let line = action->Append_line;
    let rotate_to = action->Append_rotate_to;
    let opened = if create {
        before.with_new_file(path@, secs)
    } else {
        before
    };
    let size = grown(opened.current_size as int, line_bytes(line@));
    let written = LocalCacheView { current_size: size as u64, ..opened };
    let stamp = written.next_stamp(secs);
    if rotate_to is None {
        let taken = next_path(written, secs)->Some_0;
        assert(written.files.contains(taken));
        let i = choose|i: int| 0 <= i < written.files.len() && written.files[i] == taken;
        if create {
            assert(i == 0);
            assert(new_file_path(before.directory, secs) == Some(taken));
            assert(new_file_path(before.directory, stamp) == Some(taken));
        } else {
            assert(has_stamp(before, i));
            let s = choose|s: int| made_at(before, i, s);
            assert(new_file_path(before.directory, s) == Some(taken));
            assert(new_file_path(before.directory, stamp) == Some(taken));
        }
    } else {
        lemma_no_file_is_made_twice(before, after, log, secs, r);
        let made = files_to_create(action);
        assert(made[made.len() - 1] == rotate_to->Some_0@);
    }
}

} // verus!

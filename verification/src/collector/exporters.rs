//! The exporters and their construction from configuration.

use crate::collector::clock::Clock;
use crate::collector::config::ExporterConfig;
use crate::collector::cache::write_planned;
pub use crate::collector::cache::{LocalCacheExporter, LocalCacheView};
use crate::collector::cloud::{export_planned, file_bytes, flush_planned, key_usable};
use crate::collector::entry::LogEntryView;
use crate::collector::store::{store_flushed, store_planned};
pub use crate::collector::cloud::{
    EncryptedData,
    ExportAction,
    ExporterError,
    LogNarratorExporter,
    LogNarratorView,
};
use crate::collector::cloud::{DEFAULT_BATCH_SIZE, DEFAULT_FLUSH_INTERVAL_SECONDS};
use crate::collector::entry::LogEntry;
pub use crate::collector::store::{DatabaseExporter, DatabaseView};
use vstd::prelude::*;

verus! {

/// A destination of log entries. A step never does the delivery itself: it
/// says what the caller has to do.
pub trait LogExporter {
    /// The number of entries that wait in the exporter's buffer.
    spec fn buffered(&self) -> nat;

    /// The exporter's name.
    spec fn label(&self) -> Seq<char>;

    /// What taking `log` at `now` does to the exporter: whether `r` is the
    /// outcome and `after` the exporter afterwards.
    spec fn takes(
        &self,
        after: &Self,
        log: LogEntryView,
        now: Clock,
        r: Result<ExportAction, ExporterError>,
    ) -> bool;

    /// What a flush does to the exporter: whether `r` is the outcome and
    /// `after` the exporter afterwards.
    spec fn flushes(&self, after: &Self, r: Result<ExportAction, ExporterError>) -> bool;

    /// Takes one entry at the given time, as `takes` says: the entry joins
    /// the buffer, or the exporter asks for a delivery and its buffer is
    /// empty afterwards.
    fn export(&mut self, log: LogEntry, now: Clock) -> (r: Result<ExportAction, ExporterError>)
        ensures
            old(self).takes(final(self), log@, now, r),
            r matches Ok(ExportAction::Nothing) ==> final(self).buffered() == old(self).buffered()
                + 1,
            !(r matches Ok(ExportAction::Nothing)) ==> final(self).buffered() == 0
                || final(self).buffered() == old(self).buffered(),
    ;

    /// Hands out whatever is buffered, as `flushes` says. Afterwards the
    /// buffer is empty; with an empty buffer the flush asks for nothing.
    fn flush(&mut self) -> (r: Result<ExportAction, ExporterError>)
        ensures
            old(self).flushes(final(self), r),
            final(self).buffered() == 0,
            old(self).buffered() == 0 ==> r matches Ok(ExportAction::Nothing),
    ;

    /// The exporter's name, for diagnostics.
    fn name(&self) -> (n: &str)
        ensures
            n@ == self.label(),
    ;
}

impl LogExporter for LogNarratorExporter {
    open spec fn buffered(&self) -> nat {
        self@.pending.len()
    }

    open spec fn label(&self) -> Seq<char> {
        self@.name
    }

    open spec fn takes(
        &self,
        after: &Self,
        log: LogEntryView,
        now: Clock,
        r: Result<ExportAction, ExporterError>,
    ) -> bool {
        export_planned(self@, after@, log, now, r)
    }

    open spec fn flushes(&self, after: &Self, r: Result<ExportAction, ExporterError>) -> bool {
        flush_planned(self@, after@, r)
    }

    fn export(&mut self, log: LogEntry, now: Clock) -> (r: Result<ExportAction, ExporterError>) {
        LogNarratorExporter::export(self, log, now)
    }

    fn flush(&mut self) -> (r: Result<ExportAction, ExporterError>) {
        LogNarratorExporter::flush(self)
    }

    fn name(&self) -> (n: &str) {
        LogNarratorExporter::name(self)
    }
}

impl LogExporter for LocalCacheExporter {
    open spec fn buffered(&self) -> nat {
        0
    }

    open spec fn label(&self) -> Seq<char> {
        self@.name
    }

    open spec fn takes(
        &self,
        after: &Self,
        log: LogEntryView,
        now: Clock,
        r: Result<ExportAction, ExporterError>,
    ) -> bool {
        write_planned(self@, after@, log, now.wall.spec_secs(), r)
    }

    open spec fn flushes(&self, after: &Self, r: Result<ExportAction, ExporterError>) -> bool {
        after@ == self@ && r matches Ok(ExportAction::Nothing)
    }

    fn export(&mut self, log: LogEntry, now: Clock) -> (r: Result<ExportAction, ExporterError>) {
        LocalCacheExporter::export(self, log, now)
    }

    fn flush(&mut self) -> (r: Result<ExportAction, ExporterError>) {
        LocalCacheExporter::flush(self)
    }

    fn name(&self) -> (n: &str) {
        LocalCacheExporter::name(self)
    }
}

impl LogExporter for DatabaseExporter {
    open spec fn buffered(&self) -> nat {
        self@.pending.len()
    }

    open spec fn label(&self) -> Seq<char> {
        self@.name
    }

    open spec fn takes(
        &self,
        after: &Self,
        log: LogEntryView,
        now: Clock,
        r: Result<ExportAction, ExporterError>,
    ) -> bool {
        store_planned(self@, after@, log, r)
    }

    open spec fn flushes(&self, after: &Self, r: Result<ExportAction, ExporterError>) -> bool {
        store_flushed(self@, after@, r)
    }

    fn export(&mut self, log: LogEntry, now: Clock) -> (r: Result<ExportAction, ExporterError>) {
        DatabaseExporter::export(self, log)
    }

    fn flush(&mut self) -> (r: Result<ExportAction, ExporterError>) {
        DatabaseExporter::flush(self)
    }

    fn name(&self) -> (n: &str) {
        DatabaseExporter::name(self)
    }
}

/// An exporter of one of the three kinds.
pub enum Exporter {
    /// Signed delivery to the cloud service.
    LogNarrator(LogNarratorExporter),
    /// Rotating files in a local directory.
    LocalCache(LocalCacheExporter),
    /// Buffered writes to the local database.
    Database(DatabaseExporter),
}

/// An exporter as a mathematical value.
pub enum ExporterView {
    /// Signed delivery to the cloud service.
    LogNarrator(LogNarratorView),
    /// Rotating files in a local directory.
    LocalCache(LocalCacheView),
    /// Buffered writes to the local database.
    Database(DatabaseView),
}

impl View for Exporter {
    type V = ExporterView;

    open spec fn view(&self) -> ExporterView {
        match self {
            Exporter::LogNarrator(e) => ExporterView::LogNarrator(e@),
            Exporter::LocalCache(e) => ExporterView::LocalCache(e@),
            Exporter::Database(e) => ExporterView::Database(e@),
        }
    }
}

impl ExporterView {
    /// The exporter's name.
    pub open spec fn name(self) -> Seq<char> {
        match self {
            ExporterView::LogNarrator(e) => e.name,
            ExporterView::LocalCache(e) => e.name,
            ExporterView::Database(e) => e.name,
        }
    }

    /// The number of entries that wait in the exporter's buffer.
    pub open spec fn buffered(self) -> nat {
        match self {
            ExporterView::LogNarrator(e) => e.pending.len(),
            ExporterView::LocalCache(e) => 0,
            ExporterView::Database(e) => e.pending.len(),
        }
    }
}

/// What taking `log` at `now` does to an exporter in the state `before`: the
/// outcome `r` and the state `after`, each as the exporter's kind defines it.
pub open spec fn step_planned(
    before: ExporterView,
    after: ExporterView,
    log: LogEntryView,
    now: Clock,
    r: Result<ExportAction, ExporterError>,
) -> bool {
    match before {
        ExporterView::LogNarrator(b) => after matches ExporterView::LogNarrator(a)
            && export_planned(b, a, log, now, r),
        ExporterView::LocalCache(b) => after matches ExporterView::LocalCache(a) && write_planned(
            b,
            a,
            log,
            now.wall.spec_secs(),
            r,
        ),
        ExporterView::Database(b) => after matches ExporterView::Database(a) && store_planned(
            b,
            a,
            log,
            r,
        ),
    }
}

/// What a flush does to an exporter in the state `before`: the outcome `r`
/// and the state `after`. A local cache has nothing to flush.
pub open spec fn flush_step_planned(
    before: ExporterView,
    after: ExporterView,
    r: Result<ExportAction, ExporterError>,
) -> bool {
    match before {
        ExporterView::LogNarrator(b) => after matches ExporterView::LogNarrator(a)
            && flush_planned(b, a, r),
        ExporterView::LocalCache(b) => after == before && r matches Ok(ExportAction::Nothing),
        ExporterView::Database(b) => after matches ExporterView::Database(a) && store_flushed(
            b,
            a,
            r,
        ),
    }
}

/// A flush leaves no entry buffered and keeps the exporter's name; a flush of
/// an exporter that buffers nothing asks for nothing and changes nothing.
pub proof fn lemma_flush_empties(
    before: ExporterView,
    after: ExporterView,
    r: Result<ExportAction, ExporterError>,
)
    requires
        flush_step_planned(before, after, r),
    ensures
        after.buffered() == 0,
        after.name() == before.name(),
        before.buffered() == 0 ==> after == before && r matches Ok(ExportAction::Nothing),
{
}

/// A step keeps the exporter's kind and name.
pub proof fn lemma_step_keeps_identity(
    before: ExporterView,
    after: ExporterView,
    log: LogEntryView,
    now: Clock,
    r: Result<ExportAction, ExporterError>,
)
    requires
        step_planned(before, after, log, now, r),
    ensures
        after.name() == before.name(),
        before is LogNarrator <==> after is LogNarrator,
        before is LocalCache <==> after is LocalCache,
        before is Database <==> after is Database,
{
}

impl Exporter {
    /// Takes one entry at the given time, as the exporter's kind does.
    pub fn export(&mut self, log: LogEntry, now: Clock) -> (r: Result<ExportAction, ExporterError>)
        ensures
            step_planned(old(self)@, final(self)@, log@, now, r),
    {
        match self {
            Exporter::LogNarrator(e) => e.export(log, now),
            Exporter::LocalCache(e) => e.export(log, now),
            Exporter::Database(e) => e.export(log),
        }
    }

    /// Hands out whatever is buffered; afterwards the buffer is empty.
    pub fn flush(&mut self) -> (r: Result<ExportAction, ExporterError>)
        ensures
            flush_step_planned(old(self)@, final(self)@, r),
    {
        match self {
            Exporter::LogNarrator(e) => e.flush(),
            Exporter::LocalCache(e) => e.flush(),
            Exporter::Database(e) => e.flush(),
        }
    }

    /// The exporter's name.
    pub fn name(&self) -> (n: &str)
        ensures
            n@ == self@.name(),
    {
        match self {
            Exporter::LogNarrator(e) => e.name(),
            Exporter::LocalCache(e) => e.name(),
            Exporter::Database(e) => e.name(),
        }
    }
}

/// The batch size of a configuration, or the default where it names none.
pub open spec fn batch_size_or_default(configured: Option<u32>) -> u32 {
    match configured {
        Some(n) => n,
        None => DEFAULT_BATCH_SIZE,
    }
}

/// The flush interval of a configuration, or the default where it names none.
pub open spec fn interval_or_default(configured: Option<u64>) -> u64 {
    match configured {
        Some(n) => n,
        None => DEFAULT_FLUSH_INTERVAL_SECONDS,
    }
}

/// The exporter that a configuration describes, freshly made at `now`.
pub open spec fn configured_exporter(config: ExporterConfig, now: Clock) -> ExporterView {
    match config {
        ExporterConfig::LogNarrator {
            name,
            endpoint,
            client_id,
            key_path,
            batch_size,
            flush_interval_seconds,
        } => ExporterView::LogNarrator(
            LogNarratorView {
                name: name@,
                endpoint: endpoint@,
                client_id: client_id@,
                key_path: key_path@,
                pending: Seq::empty(),
                batch_size: batch_size_or_default(batch_size),
                flush_interval_seconds: interval_or_default(flush_interval_seconds),
                last_flush: now.monotonic_millis,
            },
        ),
        ExporterConfig::LocalCache { name, directory, max_size_mb } => ExporterView::LocalCache(
            LocalCacheView {
                name: name@,
                directory: directory@,
                max_size_mb,
                files: Seq::empty(),
                last_stamp: None,
                current_size: 0,
            },
        ),
        ExporterConfig::Database { name, db_path, batch_size } => ExporterView::Database(
            DatabaseView {
                name: name@,
                db_path: db_path@,
                pending: Seq::empty(),
                batch_size: batch_size_or_default(batch_size),
            },
        ),
    }
}

/// Whether an exporter can be made from the configuration, given what was
/// read of its private key file: a signed-cloud exporter needs a file that
/// holds a signing key.
pub open spec fn exporter_buildable(config: ExporterConfig, key_file: Option<Seq<u8>>) -> bool {
    config is LogNarrator ==> key_usable(key_file)
}

/// A private key file as the caller read it.
#[derive(Debug)]
pub struct KeyFile {
    /// The path that was read.
    pub path: String,
    /// What the file holds.
    pub bytes: Vec<u8>,
}

/// The key files of a list as pairs of path and content.
pub open spec fn key_files_view(files: Seq<KeyFile>) -> Seq<(Seq<char>, Seq<u8>)> {
    Seq::new(files.len(), |i: int| (files[i].path@, files[i].bytes@))
}

/// What the first file at or after index `i` that was read from `path`
/// holds; `None` where no file was read from that path.
pub open spec fn key_bytes(files: Seq<(Seq<char>, Seq<u8>)>, path: Seq<char>, i: int) -> Option<
    Seq<u8>,
>
    decreases files.len() - i,
{
    if i < 0 || i >= files.len() {
        None
    } else if files[i].0 == path {
        Some(files[i].1)
    } else {
        key_bytes(files, path, i + 1)
    }
}

/// What was read from `path`, if a file was read from it.
pub fn find_key<'a>(files: &'a Vec<KeyFile>, path: &str) -> (r: Option<&'a Vec<u8>>)
    ensures
        file_bytes(r) == key_bytes(key_files_view(files@), path@, 0),
{
    let mut i: usize = 0;
    while i < files.len()
        invariant
            i <= files.len(),
            key_bytes(key_files_view(files@), path@, i as int) == key_bytes(
                key_files_view(files@),
                path@,
                0,
            ),
        decreases files.len() - i,
    {
        assert(key_files_view(files@)[i as int] == (files@[i as int].path@, files@[i as int].bytes@));
        if crate::text::str_eq(files[i].path.as_str(), path) {
            return Some(&files[i].bytes);
        }
        i += 1;
    }
    None
}

/// Makes the exporter that a configuration describes. `key_file` is what the
/// caller read of the private key file of a signed-cloud exporter, `None` if
/// the file is not there; the other kinds do not look at it. A signed-cloud
/// exporter is made exactly where the file holds a signing key.
pub fn create_exporter(config: &ExporterConfig, key_file: Option<&Vec<u8>>, now: Clock) -> (r:
    Result<Exporter, ExporterError>)
    ensures
        match r {
            Ok(e) => exporter_buildable(*config, file_bytes(key_file)) && e@
                == configured_exporter(*config, now),
            Err(ExporterError::KeyNotFound { path }) => {
                &&& key_file is None
                &&& config matches ExporterConfig::LogNarrator { key_path, .. }
                &&& path@ == key_path@
            },
            Err(ExporterError::InvalidKey { path }) => {
                &&& key_file is Some
                &&& !key_usable(file_bytes(key_file))
                &&& config matches ExporterConfig::LogNarrator { key_path, .. }
                &&& path@ == key_path@
            },
            Err(_) => false,
        },
{
    match config {
        ExporterConfig::LogNarrator {
            name,
            endpoint,
            client_id,
            key_path,
            batch_size,
            flush_interval_seconds,
        } => {
            let size = match batch_size {
                Some(n) => *n,
                None => DEFAULT_BATCH_SIZE,
            };
            let interval = match flush_interval_seconds {
                Some(n) => *n,
                None => DEFAULT_FLUSH_INTERVAL_SECONDS,
            };
            match LogNarratorExporter::new(
                name.clone(),
                endpoint.clone(),
                client_id.clone(),
                key_path.clone(),
                size,
                interval,
                key_file,
                now,
            ) {
                Ok(e) => Ok(Exporter::LogNarrator(e)),
                Err(e) => Err(e),
            }
        },
        ExporterConfig::LocalCache { name, directory, max_size_mb } => {
            match LocalCacheExporter::new(name.clone(), directory.clone(), *max_size_mb) {
                Ok(e) => Ok(Exporter::LocalCache(e)),
                Err(e) => Err(e),
            }
        },
        ExporterConfig::Database { name, db_path, batch_size } => {
            let size = match batch_size {
                Some(n) => *n,
                None => DEFAULT_BATCH_SIZE,
            };
            match DatabaseExporter::new(name.clone(), db_path.clone(), size) {
                Ok(e) => Ok(Exporter::Database(e)),
                Err(e) => Err(e),
            }
        },
    }
}

} // verus!

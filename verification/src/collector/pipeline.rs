//! The pipeline: sources, the processor chain and the exporters, with their
//! life cycle.

use crate::collector::clock::Clock;
use crate::collector::cloud::file_bytes;
use crate::collector::config::{CollectorConfig, ExporterConfig, ProcessorConfig, SourceConfig};
use crate::collector::entry::LogEntry;
use crate::collector::exporters::{
    configured_exporter,
    create_exporter,
    exporter_buildable,
    find_key,
    key_bytes,
    key_files_view,
    KeyFile,
    flush_step_planned,
    step_planned,
    ExportAction,
    Exporter,
    ExporterError,
    ExporterView,
};
use crate::collector::processors::{
    chain_outcome,
    create_processor,
    outcome_view,
    processor_buildable,
    processor_matches,
    run_chain,
    Processor,
    ProcessorError,
};
use crate::collector::sources::{
    create_source,
    source_buildable,
    source_matches,
    Source,
    SourceError,
    SourceTask,
};
use crate::string_map::StringMap;
use crate::text::strings_view;
use vstd::prelude::*;

verus! {

/// Entries that a channel between two stages holds before a sender waits.
pub const CHANNEL_CAPACITY: usize = 1000;

/// Export steps of one entry that may run at a time.
pub const MAX_CONCURRENT_EXPORTS: usize = 10;

/// Why the pipeline refused a request.
#[derive(Debug)]
pub enum PipelineError {
    /// `start` on a running pipeline.
    AlreadyRunning,
    /// `stop` on a stopped pipeline.
    NotRunning,
    /// No source is configured.
    NoSources,
    /// No exporter is configured.
    NoExporters,
    /// A source could not be made.
    Source(SourceError),
    /// A processor could not be made.
    Processor(ProcessorError),
    /// An exporter could not be made.
    Exporter(ExporterError),
}

impl PipelineError {
    /// What went wrong, in words.
    pub open spec fn text(self) -> Seq<char> {
        match self {
            PipelineError::AlreadyRunning => "Pipeline already running"@,
            PipelineError::NotRunning => "Pipeline not running"@,
            PipelineError::NoSources => "No log sources configured"@,
            PipelineError::NoExporters => "No log exporters configured"@,
            PipelineError::Source(e) => e.text(),
            PipelineError::Processor(e) => e.text(),
            PipelineError::Exporter(e) => e.text(),
        }
    }

    /// What went wrong, in words.
    pub fn message(&self) -> (s: String)
        ensures
            s@ == self.text(),
    {
        match self {
            PipelineError::AlreadyRunning => "Pipeline already running".to_string(),
            PipelineError::NotRunning => "Pipeline not running".to_string(),
            PipelineError::NoSources => "No log sources configured".to_string(),
            PipelineError::NoExporters => "No log exporters configured".to_string(),
            PipelineError::Source(e) => e.message(),
            PipelineError::Processor(e) => e.message(),
            PipelineError::Exporter(e) => e.message(),
        }
    }
}

/// What was read of the private key file that an exporter configuration
/// names; `None` where the configuration names none or none was read.
pub open spec fn key_available(config: ExporterConfig, existing: Seq<(Seq<char>, Seq<u8>)>) -> Option<
    Seq<u8>,
> {
    match config {
        ExporterConfig::LogNarrator { key_path, .. } => key_bytes(existing, key_path@, 0),
        _ => None,
    }
}

/// Every source of the list can be made.
pub open spec fn sources_buildable(configs: Seq<SourceConfig>) -> bool {
    forall|i: int| 0 <= i < configs.len() ==> source_buildable(#[trigger] configs[i])
}

/// Every processor of the list can be made.
pub open spec fn processors_buildable(configs: Seq<ProcessorConfig>) -> bool {
    forall|i: int| 0 <= i < configs.len() ==> processor_buildable(#[trigger] configs[i])
}

/// Every exporter of the list can be made, given the key files that were
/// read.
pub open spec fn exporters_buildable(
    configs: Seq<ExporterConfig>,
    existing: Seq<(Seq<char>, Seq<u8>)>,
) -> bool {
    forall|i: int|
        0 <= i < configs.len() ==> exporter_buildable(
            #[trigger] configs[i],
            key_available(configs[i], existing),
        )
}

/// The sources are the stopped sources that the configurations describe, one
/// for one.
pub open spec fn sources_match(sources: Seq<Source>, configs: Seq<SourceConfig>) -> bool {
    &&& sources.len() == configs.len()
    &&& forall|i: int| 0 <= i < sources.len() ==> source_matches(#[trigger] sources[i], configs[i])
}

/// The processors are those that the configurations describe, one for one.
pub open spec fn processors_match(processors: Seq<Processor>, configs: Seq<ProcessorConfig>) -> bool {
    &&& processors.len() == configs.len()
    &&& forall|i: int|
        0 <= i < processors.len() ==> processor_matches(#[trigger] processors[i], configs[i])
}

/// The exporters are those that the configurations describe, freshly made at
/// `now`, one for one.
pub open spec fn exporters_match(
    exporters: Seq<Exporter>,
    configs: Seq<ExporterConfig>,
    now: Clock,
) -> bool {
    &&& exporters.len() == configs.len()
    &&& forall|i: int|
        0 <= i < exporters.len() ==> (#[trigger] exporters[i])@ == configured_exporter(
            configs[i],
            now,
        )
}

/// Every source of the list runs.
pub open spec fn all_running(sources: Seq<Source>) -> bool {
    forall|i: int| 0 <= i < sources.len() ==> (#[trigger] sources[i]).is_running()
}

/// No source of the list runs.
pub open spec fn none_running(sources: Seq<Source>) -> bool {
    forall|i: int| 0 <= i < sources.len() ==> !(#[trigger] sources[i]).is_running()
}

/// The two lists hold the same sources apart from their running flags.
pub open spec fn same_sources(a: Seq<Source>, b: Seq<Source>) -> bool {
    &&& a.len() == b.len()
    &&& forall|i: int| 0 <= i < a.len() ==> (#[trigger] a[i]).same_settings(b[i])
}

/// `tasks` are what the first `n` sources ask to run when they are started at
/// `now`, source after source in order.
pub open spec fn tasks_cover(
    sources: Seq<Source>,
    tasks: Seq<SourceTask>,
    now: crate::collector::entry::Timestamp,
    n: int,
) -> bool
    decreases n,
{
    if n <= 0 || n > sources.len() {
        tasks.len() == 0
    } else {
        exists|cut: int|
            0 <= cut <= tasks.len() && tasks_cover(sources, #[trigger] tasks.take(cut), now, n - 1)
                && sources[n - 1].asks_for(tasks.skip(cut), now)
    }
}

/// What the first `n` sources ask for does not depend on the sources behind
/// them.
pub proof fn lemma_tasks_cover_prefix(
    a: Seq<Source>,
    b: Seq<Source>,
    tasks: Seq<SourceTask>,
    now: crate::collector::entry::Timestamp,
    n: int,
)
    requires
        0 <= n <= a.len(),
        n <= b.len(),
        forall|i: int| 0 <= i < n ==> a[i] == b[i],
        tasks_cover(a, tasks, now, n),
    ensures
        tasks_cover(b, tasks, now, n),
    decreases n,
{
    if n > 0 {
        let cut = choose|cut: int|
            0 <= cut <= tasks.len() && tasks_cover(a, #[trigger] tasks.take(cut), now, n - 1)
                && a[n - 1].asks_for(tasks.skip(cut), now);
        lemma_tasks_cover_prefix(a, b, tasks.take(cut), now, n - 1);
        assert(tasks_cover(b, tasks.take(cut), now, n - 1));
        assert(b[n - 1].asks_for(tasks.skip(cut), now));
    }
}

/// The private key files that the first `n` exporter configurations mention,
/// in order.
pub open spec fn key_paths_of(configs: Seq<ExporterConfig>, n: int) -> Seq<Seq<char>>
    decreases n,
{
    if n <= 0 || n > configs.len() {
        Seq::empty()
    } else {
        match configs[n - 1] {
            ExporterConfig::LogNarrator { key_path, .. } => key_paths_of(configs, n - 1).push(
                key_path@,
            ),
            _ => key_paths_of(configs, n - 1),
        }
    }
}

/// What was read of the key file that a configuration names.
fn key_for<'a>(config: &ExporterConfig, files: &'a Vec<KeyFile>) -> (r: Option<&'a Vec<u8>>)
    ensures
        file_bytes(r) == key_available(*config, key_files_view(files@)),
{
    match config {
        ExporterConfig::LogNarrator { key_path, .. } => find_key(files, key_path.as_str()),
        _ => None,
    }
}

/// Makes the sources of a configuration, in order; the first that cannot be
/// made is reported.
fn build_sources(configs: &Vec<SourceConfig>) -> (r: Result<Vec<Source>, SourceError>)
    ensures
        match r {
            Ok(sources) => sources_buildable(configs@) && sources_match(sources@, configs@),
            Err(e) => !sources_buildable(configs@) && e is InvalidPattern,
        },
{
    let mut sources: Vec<Source> = Vec::new();
    let mut i: usize = 0;
    while i < configs.len()
        invariant
            i <= configs.len(),
            sources@.len() == i,
            forall|k: int| 0 <= k < i ==> source_buildable(#[trigger] configs@[k]),
            forall|k: int| 0 <= k < i ==> source_matches(#[trigger] sources@[k], configs@[k]),
        decreases configs.len() - i,
    {
        match create_source(&configs[i]) {
            Ok(s) => {
                sources.push(s);
            },
            Err(e) => {
                assert(!source_buildable(configs@[i as int]));
                return Err(e);
            },
        }
        i += 1;
    }
    Ok(sources)
}

/// Makes the processors of a configuration, in order; the first that cannot
/// be made is reported.
fn build_processors(configs: &Vec<ProcessorConfig>) -> (r: Result<Vec<Processor>, ProcessorError>)
    ensures
        match r {
            Ok(processors) => processors_buildable(configs@) && processors_match(
                processors@,
                configs@,
            ),
            Err(_) => !processors_buildable(configs@),
        },
{
    let mut processors: Vec<Processor> = Vec::new();
    let mut i: usize = 0;
    while i < configs.len()
        invariant
            i <= configs.len(),
            processors@.len() == i,
            forall|k: int| 0 <= k < i ==> processor_buildable(#[trigger] configs@[k]),
            forall|k: int|
                0 <= k < i ==> processor_matches(#[trigger] processors@[k], configs@[k]),
        decreases configs.len() - i,
    {
        match create_processor(&configs[i]) {
            Ok(p) => {
                processors.push(p);
            },
            Err(e) => {
                assert(!processor_buildable(configs@[i as int]));
                return Err(e);
            },
        }
        i += 1;
    }
    Ok(processors)
}

/// Makes the exporters of a configuration, in order; the first that cannot be
/// made is reported.
fn build_exporters(configs: &Vec<ExporterConfig>, existing: &Vec<KeyFile>, now: Clock) -> (r: Result<
    Vec<Exporter>,
    ExporterError,
>)
    ensures
        match r {
            Ok(exporters) => exporters_buildable(configs@, key_files_view(existing@))
                && exporters_match(exporters@, configs@, now),
            Err(e) => !exporters_buildable(configs@, key_files_view(existing@)) && (e is KeyNotFound
                || e is InvalidKey),
        },
{
    let mut exporters: Vec<Exporter> = Vec::new();
    let mut i: usize = 0;
    while i < configs.len()
        invariant
            i <= configs.len(),
            exporters@.len() == i,
            forall|k: int|
                0 <= k < i ==> exporter_buildable(
                    #[trigger] configs@[k],
                    key_available(configs@[k], key_files_view(existing@)),
                ),
            forall|k: int|
                0 <= k < i ==> (#[trigger] exporters@[k])@ == configured_exporter(configs@[k], now),
        decreases configs.len() - i,
    {
        let available = key_for(&configs[i], existing);
        match create_exporter(&configs[i], available, now) {
            Ok(e) => {
                exporters.push(e);
            },
            Err(e) => {
                assert(!exporter_buildable(
                    configs@[i as int],
                    key_available(configs@[i as int], key_files_view(existing@)),
                ));
                return Err(e);
            },
        }
        i += 1;
    }
    Ok(exporters)
}

/// What `start` does to a pipeline in the state `before`, given the key files
/// that were read: the outcome `r` and the state `after`.
pub open spec fn start_planned(
    before: Pipeline,
    after: Pipeline,
    existing: Seq<(Seq<char>, Seq<u8>)>,
    now: Clock,
    r: Result<Vec<SourceTask>, PipelineError>,
) -> bool {
    &&& after.spec_config() == before.spec_config()
    &&& r is Err ==> after.is_running() == before.is_running() && after.spec_sources()
        == before.spec_sources() && after.spec_processors() == before.spec_processors()
        && after.spec_exporters() == before.spec_exporters()
    &&& match r {
                Ok(tasks) => {
                    &&& !before.is_running()
                    &&& before.buildable(existing)
                    &&& before.spec_config().sources@.len() > 0
                    &&& before.spec_config().exporters@.len() > 0
                    &&& after.is_running()
                    &&& same_sources_as_configured(
                        after.spec_sources(),
                        before.spec_config().sources@,
                    )
                    &&& all_running(after.spec_sources())
                    &&& tasks_cover(
                        after.spec_sources(),
                        tasks@,
                        now.wall,
                        after.spec_sources().len() as int,
                    )
                    &&& processors_match(
                        after.spec_processors(),
                        before.spec_config().processors@,
                    )
                    &&& after.spec_exporters() == Seq::new(
                        before.spec_config().exporters@.len(),
                        |i: int| configured_exporter(before.spec_config().exporters@[i], now),
                    )
                },
                Err(PipelineError::AlreadyRunning) => before.is_running(),
                Err(PipelineError::Source(_)) => !before.is_running() && !sources_buildable(
                    before.spec_config().sources@,
                ),
                Err(PipelineError::Processor(_)) => {
                    &&& !before.is_running()
                    &&& sources_buildable(before.spec_config().sources@)
                    &&& !processors_buildable(before.spec_config().processors@)
                },
                Err(PipelineError::Exporter(_)) => {
                    &&& !before.is_running()
                    &&& sources_buildable(before.spec_config().sources@)
                    &&& processors_buildable(before.spec_config().processors@)
                    &&& !exporters_buildable(
                        before.spec_config().exporters@,
                        existing,
                    )
                },
                Err(PipelineError::NoSources) => {
                    &&& !before.is_running()
                    &&& before.buildable(existing)
                    &&& before.spec_config().sources@.len() == 0
                },
                Err(PipelineError::NoExporters) => {
                    &&& !before.is_running()
                    &&& before.buildable(existing)
                    &&& before.spec_config().sources@.len() > 0
                    &&& before.spec_config().exporters@.len() == 0
                },
                Err(PipelineError::NotRunning) => false,
            }
}

/// What `stop` does to a pipeline in the state `before`: the outcome `r` and
/// the state `after`.
pub open spec fn stop_planned(
    before: Pipeline,
    after: Pipeline,
    r: Result<Vec<Result<ExportAction, ExporterError>>, PipelineError>,
) -> bool {
    &&& after.spec_config() == before.spec_config()
    &&& match r {
                Ok(results) => {
                    &&& before.is_running()
                    &&& !after.is_running()
                    &&& same_sources(after.spec_sources(), before.spec_sources())
                    &&& none_running(after.spec_sources())
                    &&& after.spec_processors() == before.spec_processors()
                    &&& after.spec_exporters().len() == before.spec_exporters().len()
                    &&& results@.len() == before.spec_exporters().len()
                    &&& forall|i: int|
                        0 <= i < results@.len() ==> flush_step_planned(
                            before.spec_exporters()[i],
                            after.spec_exporters()[i],
                            #[trigger] results@[i],
                        )
                },
                Err(e) => e is NotRunning && !before.is_running() && after.is_running() == before.is_running() && after.spec_sources() == before.spec_sources() && after.spec_processors() == before.spec_processors() && after.spec_exporters() == before.spec_exporters(),
            }
}

/// The pipeline of a collector. It is made stopped and without components;
/// `start` makes the components and `stop` winds them down.
pub struct Pipeline {
    config: CollectorConfig,
    sources: Vec<Source>,
    processors: Vec<Processor>,
    exporters: Vec<Exporter>,
    running: bool,
}

/// The exporters of a list as mathematical values.
pub open spec fn exporter_views(exporters: Seq<Exporter>) -> Seq<ExporterView> {
    Seq::new(exporters.len(), |i: int| exporters[i]@)
}

impl Pipeline {
    /// Whether the pipeline runs.
    pub closed spec fn is_running(self) -> bool {
        self.running
    }

    /// The configuration the pipeline was made from.
    pub closed spec fn spec_config(self) -> CollectorConfig {
        self.config
    }

    /// The sources, in configured order.
    pub closed spec fn spec_sources(self) -> Seq<Source> {
        self.sources@
    }

    /// The processor chain, in configured order.
    pub closed spec fn spec_processors(self) -> Seq<Processor> {
        self.processors@
    }

    /// The exporters, in configured order.
    pub closed spec fn spec_exporters(self) -> Seq<ExporterView> {
        exporter_views(self.exporters@)
    }

    /// Whether the components of the configuration can be made, given the
    /// key files that were read.
    pub open spec fn buildable(self, existing: Seq<(Seq<char>, Seq<u8>)>) -> bool {
        &&& sources_buildable(self.spec_config().sources@)
        &&& processors_buildable(self.spec_config().processors@)
        &&& exporters_buildable(self.spec_config().exporters@, existing)
    }

    /// Makes a stopped pipeline. Nothing is started and no component made.
    pub fn new(config: CollectorConfig) -> (r: Result<Pipeline, PipelineError>)
        ensures
            r matches Ok(p) && !p.is_running() && p.spec_config() == config
                && p.spec_sources().len() == 0 && p.spec_processors().len() == 0
                && p.spec_exporters().len() == 0,
    {
        Ok(
            Pipeline {
                config,
                sources: Vec::new(),
                processors: Vec::new(),
                exporters: Vec::new(),
                running: false,
            },
        )
    }

    /// Makes every configured component and starts the sources. The result
    /// lists what the caller has to run for the sources.
    ///
    /// A running pipeline refuses and stays as it is. So does a pipeline one
    /// of whose components cannot be made, and one without a source or
    /// without an exporter: on every error the pipeline is what it was.
    /// `key_files` holds what the caller read of the private key files that
    /// the configuration mentions; a file that is not there is left out. A
    /// signed-cloud exporter whose key file is missing or holds no signing
    /// key cannot be made.
    pub fn start(&mut self, key_files: &Vec<KeyFile>, now: Clock) -> (r: Result<
        Vec<SourceTask>,
        PipelineError,
    >)
        ensures
            r is Err ==> *final(self) == *old(self),
            start_planned(*old(self), *final(self), key_files_view(key_files@), now, r),
    {
        if self.running {
            return Err(PipelineError::AlreadyRunning);
        }
        let mut sources = match build_sources(&self.config.sources) {
            Ok(s) => s,
            Err(e) => {
                return Err(PipelineError::Source(e));
            },
        };
        let processors = match build_processors(&self.config.processors) {
            Ok(p) => p,
            Err(e) => {
                return Err(PipelineError::Processor(e));
            },
        };
        let exporters = match build_exporters(&self.config.exporters, key_files, now) {
            Ok(e) => e,
            Err(e) => {
                return Err(PipelineError::Exporter(e));
            },
        };
        if sources.len() == 0 {
            return Err(PipelineError::NoSources);
        }
        if exporters.len() == 0 {
            return Err(PipelineError::NoExporters);
        }
        let tasks = start_sources(&mut sources, now);
        assert(exporter_views(exporters@) =~= Seq::new(
            self.config.exporters@.len(),
            |i: int| configured_exporter(self.config.exporters@[i], now),
        ));
        self.sources = sources;
        self.processors = processors;
        self.exporters = exporters;
        self.running = true;
        Ok(tasks)
    }

    /// Runs an entry through the processor chain in declaration order and
    /// stops at the first processor that yields nothing. `env` holds the
    /// environment variables as they are now.
    pub fn process_entry(&self, log: LogEntry, env: &StringMap) -> (r: Option<LogEntry>)
        ensures
            outcome_view(r) == chain_outcome(
                self.spec_processors(),
                log@,
                env@,
                self.spec_processors().len() as int,
            ),
    {
        run_chain(&self.processors, log, env)
    }

    /// Gives a copy of the entry to every exporter, in configured order, and
    /// lists what each of them asks for or why it failed: every exporter takes
    /// its step, whatever became of the others.
    pub fn export_entry(&mut self, log: &LogEntry, now: Clock) -> (results: Vec<
        Result<ExportAction, ExporterError>,
    >)
        ensures
            final(self).is_running() == old(self).is_running(),
            final(self).spec_config() == old(self).spec_config(),
            final(self).spec_sources() == old(self).spec_sources(),
            final(self).spec_processors() == old(self).spec_processors(),
            final(self).spec_exporters().len() == old(self).spec_exporters().len(),
            results@.len() == old(self).spec_exporters().len(),
            forall|i: int|
                0 <= i < results@.len() ==> step_planned(
                    old(self).spec_exporters()[i],
                    final(self).spec_exporters()[i],
                    log@,
                    now,
                    #[trigger] results@[i],
                ),
    {
        let mut exporters: Vec<Exporter> = Vec::new();
        core::mem::swap(&mut exporters, &mut self.exporters);
        let results = export_to_all(&mut exporters, log, now);
        core::mem::swap(&mut exporters, &mut self.exporters);
        results
    }

    /// Stops every source, flushes every exporter and marks the pipeline
    /// stopped. The result lists, per exporter in configured order, what its
    /// flush asks for or why it failed. A stopped pipeline refuses and stays
    /// as it is.
    pub fn stop(&mut self) -> (r: Result<Vec<Result<ExportAction, ExporterError>>, PipelineError>)
        ensures
            r is Err ==> *final(self) == *old(self),
            stop_planned(*old(self), *final(self), r),
    {
        if !self.running {
            return Err(PipelineError::NotRunning);
        }
        let mut sources: Vec<Source> = Vec::new();
        core::mem::swap(&mut sources, &mut self.sources);
        stop_sources(&mut sources);
        core::mem::swap(&mut sources, &mut self.sources);
        let mut exporters: Vec<Exporter> = Vec::new();
        core::mem::swap(&mut exporters, &mut self.exporters);
        let results = flush_all(&mut exporters);
        core::mem::swap(&mut exporters, &mut self.exporters);
        self.running = false;
        Ok(results)
    }

    /// The exporter at position `index`, in configured order.
    pub fn exporter(&self, index: usize) -> (r: Option<&Exporter>)
        ensures
            match r {
                Some(e) => index < self.spec_exporters().len() && e@ == self.spec_exporters()[index as int],
                None => index >= self.spec_exporters().len(),
            },
    {
        if index < self.exporters.len() {
            Some(&self.exporters[index])
        } else {
            None
        }
    }

    /// The number of exporters.
    pub fn exporter_count(&self) -> (n: usize)
        ensures
            n == self.spec_exporters().len(),
    {
        self.exporters.len()
    }

    /// Records that a batch of the exporter at position `index` reached the
    /// cloud service at `now`: the flush interval of a signed-cloud exporter
    /// starts anew. Nothing changes for another kind of exporter, or where
    /// there is no such position.
    pub fn delivery_succeeded(&mut self, index: usize, now: Clock)
        ensures
            final(self).is_running() == old(self).is_running(),
            final(self).spec_config() == old(self).spec_config(),
            final(self).spec_sources() == old(self).spec_sources(),
            final(self).spec_processors() == old(self).spec_processors(),
            final(self).spec_exporters() == (if index < old(self).spec_exporters().len() {
                old(self).spec_exporters().update(
                    index as int,
                    delivered(old(self).spec_exporters()[index as int], now),
                )
            } else {
                old(self).spec_exporters()
            }),
    {
        let ghost before = self.spec_exporters();
        if index < self.exporters.len() {
            let mut exporters: Vec<Exporter> = Vec::new();
            core::mem::swap(&mut exporters, &mut self.exporters);
            let ghost start = exporters@;
            let mut exporter = exporters.remove(index);
            match exporter {
                Exporter::LogNarrator(mut cloud) => {
                    cloud.flush_succeeded(now);
                    exporter = Exporter::LogNarrator(cloud);
                },
                other => {
                    exporter = other;
                },
            }
            exporters.insert(index, exporter);
            assert(exporter_views(exporters@) =~= before.update(
                index as int,
                delivered(before[index as int], now),
            )) by {
                assert forall|k: int| 0 <= k < exporters@.len() implies exporter_views(
                    exporters@,
                )[k] == before.update(index as int, delivered(before[index as int], now))[k] by {
                    if k != index {
                        assert(exporters@[k] == start[k]);
                    }
                }
            }
            core::mem::swap(&mut exporters, &mut self.exporters);
        }
    }

    /// Whether the pipeline runs.
    pub fn running(&self) -> (b: bool)
        ensures
            b == self.is_running(),
    {
        self.running
    }

    /// The private key files that the configuration mentions, in configured
    /// order: the caller looks which of them exist before it starts the
    /// pipeline.
    pub fn key_paths(&self) -> (paths: Vec<String>)
        ensures
            strings_view(paths@) == key_paths_of(
                self.spec_config().exporters@,
                self.spec_config().exporters@.len() as int,
            ),
    {
        let mut paths: Vec<String> = Vec::new();
        let mut i: usize = 0;
        assert(strings_view(paths@) =~= Seq::<Seq<char>>::empty());
        while i < self.config.exporters.len()
            invariant
                i <= self.config.exporters.len(),
                strings_view(paths@) == key_paths_of(self.config.exporters@, i as int),
            decreases self.config.exporters.len() - i,
        {
            let ghost before = strings_view(paths@);
            match &self.config.exporters[i] {
                ExporterConfig::LogNarrator { key_path, .. } => {
                    paths.push(key_path.clone());
                    assert(strings_view(paths@) =~= before.push(key_path@));
                },
                _ => {},
            }
            i += 1;
        }
        paths
    }
}

/// An exporter after one of its batches has been delivered at `now`.
pub open spec fn delivered(exporter: ExporterView, now: Clock) -> ExporterView {
    match exporter {
        ExporterView::LogNarrator(v) => ExporterView::LogNarrator(
            crate::collector::exporters::LogNarratorView { last_flush: now.monotonic_millis, ..v },
        ),
        other => other,
    }
}

/// The sources are those that the configurations describe, one for one,
/// whatever their running flags.
pub open spec fn same_sources_as_configured(sources: Seq<Source>, configs: Seq<SourceConfig>) -> bool {
    exists|fresh: Seq<Source>| #[trigger]
        sources_match(fresh, configs) && same_sources(sources, fresh)
}

/// Starts every source of the list and collects what has to run for them.
fn start_sources(sources: &mut Vec<Source>, now: Clock) -> (tasks: Vec<SourceTask>)
    requires
        none_running(old(sources)@),
    ensures
        same_sources(final(sources)@, old(sources)@),
        all_running(final(sources)@),
        tasks_cover(final(sources)@, tasks@, now.wall, final(sources)@.len() as int),
{
    let mut tasks: Vec<SourceTask> = Vec::new();
    let mut done: Vec<Source> = Vec::new();
    let ghost start = sources@;
    let n = sources.len();
    let mut i: usize = 0;
    while i < n
        invariant
            i <= n,
            n == start.len(),
            sources@.len() == n - i,
            done@.len() == i,
            forall|k: int| 0 <= k < sources@.len() ==> #[trigger] sources@[k] == start[i + k],
            forall|k: int| 0 <= k < i ==> (#[trigger] done@[k]).same_settings(start[k]),
            forall|k: int| 0 <= k < i ==> (#[trigger] done@[k]).is_running(),
            none_running(start),
            tasks_cover(done@, tasks@, now.wall, i as int),
        decreases n - i,
    {
        let ghost tasks_before = tasks@;
        let ghost done_before = done@;
        let mut source = sources.remove(0);
        assert(source == start[i as int]);
        assert(!start[i as int].is_running());
        match source.start(now.wall) {
            Ok(mut more) => {
                let ghost added = more@;
                tasks.append(&mut more);
                done.push(source);
                proof {
                    let cut = tasks_before.len() as int;
                    assert(tasks@.take(cut) =~= tasks_before);
                    assert(tasks@.skip(cut) =~= added);
                    lemma_tasks_cover_prefix(done_before, done@, tasks_before, now.wall, i as int);
                    assert(done@[i as int].asks_for(tasks@.skip(cut), now.wall));
                }
            },
            Err(_) => {
                done.push(source);
            },
        }
        i += 1;
    }
    core::mem::swap(sources, &mut done);
    tasks
}

/// Stops every source of the list; a source that was not running stays
/// stopped.
fn stop_sources(sources: &mut Vec<Source>)
    ensures
        same_sources(final(sources)@, old(sources)@),
        none_running(final(sources)@),
{
    let mut done: Vec<Source> = Vec::new();
    let ghost start = sources@;
    let n = sources.len();
    let mut i: usize = 0;
    while i < n
        invariant
            i <= n,
            n == start.len(),
            sources@.len() == n - i,
            done@.len() == i,
            forall|k: int| 0 <= k < sources@.len() ==> #[trigger] sources@[k] == start[i + k],
            forall|k: int| 0 <= k < i ==> (#[trigger] done@[k]).same_settings(start[k]),
            forall|k: int| 0 <= k < i ==> !(#[trigger] done@[k]).is_running(),
        decreases n - i,
    {
        let mut source = sources.remove(0);
        assert(source == start[i as int]);
        let _ = source.stop();
        done.push(source);
        i += 1;
    }
    core::mem::swap(sources, &mut done);
}

/// Gives a copy of the entry to every exporter of the list.
fn export_to_all(exporters: &mut Vec<Exporter>, log: &LogEntry, now: Clock) -> (results: Vec<
    Result<ExportAction, ExporterError>,
>)
    ensures
        final(exporters)@.len() == old(exporters)@.len(),
        results@.len() == old(exporters)@.len(),
        forall|i: int|
            0 <= i < results@.len() ==> step_planned(
                old(exporters)@[i]@,
                final(exporters)@[i]@,
                log@,
                now,
                #[trigger] results@[i],
            ),
{
    let mut results: Vec<Result<ExportAction, ExporterError>> = Vec::new();
    let mut done: Vec<Exporter> = Vec::new();
    let ghost start = exporters@;
    let n = exporters.len();
    let mut i: usize = 0;
    while i < n
        invariant
            i <= n,
            n == start.len(),
            exporters@.len() == n - i,
            done@.len() == i,
            results@.len() == i,
            forall|k: int| 0 <= k < exporters@.len() ==> #[trigger] exporters@[k] == start[i + k],
            forall|k: int|
                0 <= k < i ==> step_planned(
                    start[k]@,
                    done@[k]@,
                    log@,
                    now,
                    #[trigger] results@[k],
                ),
        decreases n - i,
    {
        let mut exporter = exporters.remove(0);
        assert(exporter == start[i as int]);
        let outcome = exporter.export(log.clone(), now);
        results.push(outcome);
        done.push(exporter);
        i += 1;
    }
    core::mem::swap(exporters, &mut done);
    results
}

/// Flushes every exporter of the list.
fn flush_all(exporters: &mut Vec<Exporter>) -> (results: Vec<Result<ExportAction, ExporterError>>)
    ensures
        final(exporters)@.len() == old(exporters)@.len(),
        results@.len() == old(exporters)@.len(),
        forall|i: int|
            0 <= i < results@.len() ==> flush_step_planned(
                old(exporters)@[i]@,
                final(exporters)@[i]@,
                #[trigger] results@[i],
            ),
{
    let mut results: Vec<Result<ExportAction, ExporterError>> = Vec::new();
    let mut done: Vec<Exporter> = Vec::new();
    let ghost start = exporters@;
    let n = exporters.len();
    let mut i: usize = 0;
    while i < n
        invariant
            i <= n,
            n == start.len(),
            exporters@.len() == n - i,
            done@.len() == i,
            results@.len() == i,
            forall|k: int| 0 <= k < exporters@.len() ==> #[trigger] exporters@[k] == start[i + k],
            forall|k: int|
                0 <= k < i ==> flush_step_planned(start[k]@, done@[k]@, #[trigger] results@[k]),
        decreases n - i,
    {
        let mut exporter = exporters.remove(0);
        assert(exporter == start[i as int]);
        let outcome = exporter.flush();
        results.push(outcome);
        done.push(exporter);
        i += 1;
    }
    core::mem::swap(exporters, &mut done);
    results
}

/// Without a configured source a start fails, and a stopped pipeline stays
/// stopped.
pub proof fn lemma_start_needs_sources(
    before: Pipeline,
    after: Pipeline,
    existing: Seq<(Seq<char>, Seq<u8>)>,
    now: Clock,
    r: Result<Vec<SourceTask>, PipelineError>,
)
    requires
        start_planned(before, after, existing, now, r),
        before.spec_config().sources@.len() == 0,
    ensures
        r is Err,
        after.is_running() == before.is_running(),
        !before.is_running() && before.buildable(existing) ==> r matches Err(
            PipelineError::NoSources,
        ),
{
}

/// A start of a running pipeline is refused and changes nothing; so a second
/// start after a successful one always fails.
pub proof fn lemma_start_refused_while_running(
    before: Pipeline,
    after: Pipeline,
    existing: Seq<(Seq<char>, Seq<u8>)>,
    now: Clock,
    r: Result<Vec<SourceTask>, PipelineError>,
)
    requires
        start_planned(before, after, existing, now, r),
        before.is_running(),
    ensures
        r matches Err(PipelineError::AlreadyRunning),
        after.is_running(),
        after.spec_config() == before.spec_config(),
        after.spec_sources() == before.spec_sources(),
        after.spec_processors() == before.spec_processors(),
        after.spec_exporters() == before.spec_exporters(),
{
}

/// A start succeeds exactly on a stopped pipeline whose components can all be
/// made and that has a source and an exporter.
pub proof fn lemma_start_succeeds_exactly_when(
    before: Pipeline,
    after: Pipeline,
    existing: Seq<(Seq<char>, Seq<u8>)>,
    now: Clock,
    r: Result<Vec<SourceTask>, PipelineError>,
)
    requires
        start_planned(before, after, existing, now, r),
    ensures
        r is Ok <==> !before.is_running() && before.buildable(existing)
            && before.spec_config().sources@.len() > 0 && before.spec_config().exporters@.len()
            > 0,
        r is Ok ==> after.is_running(),
{
}

/// A stop succeeds exactly on a running pipeline, and leaves it stopped.
pub proof fn lemma_stop_succeeds_exactly_when(
    before: Pipeline,
    after: Pipeline,
    r: Result<Vec<Result<ExportAction, ExporterError>>, PipelineError>,
)
    requires
        stop_planned(before, after, r),
    ensures
        r is Ok <==> before.is_running(),
        r is Ok ==> !after.is_running(),
        r is Err ==> r matches Err(PipelineError::NotRunning),
{
}

} // verus!

//! The sources of log entries, as state machines: a source says what has to
//! run for it, and the caller runs it.

use crate::collector::config::{SourceConfig, StartAt};
pub use crate::collector::entry::{LogEntry, LogEntryView, Timestamp};
use crate::collector::paths::{
    debug_list,
    debug_path,
    file_name_of,
    list_debug,
    path_debug,
    path_file_name,
};
use crate::collector::pattern::{compile, is_match, regex_matches, regex_valid, Pattern};
use crate::string_map::StringMap;
use crate::text::{clone_strings, joined, strings_view};
use vstd::prelude::*;

verus! {

/// Why a source could not be made, started or stopped.
#[derive(Debug)]
pub enum SourceError {
    /// The source was started twice.
    AlreadyRunning,
    /// The source was stopped without having been started.
    NotRunning,
    /// The exclude pattern of a file source does not compile.
    InvalidPattern {
        /// The pattern as it was configured.
        pattern: String,
    },
}

impl SourceError {
    /// What went wrong, in words.
    pub open spec fn text(self) -> Seq<char> {
        match self {
            SourceError::AlreadyRunning => "Source already running"@,
            SourceError::NotRunning => "Source not running"@,
            SourceError::InvalidPattern { pattern } => "Invalid regular expression: "@ + pattern@,
        }
    }

    /// What went wrong, in words.
    pub fn message(&self) -> (s: String)
        ensures
            s@ == self.text(),
    {
        match self {
            SourceError::AlreadyRunning => "Source already running".to_string(),
            SourceError::NotRunning => "Source not running".to_string(),
            SourceError::InvalidPattern { pattern } => joined(
                "Invalid regular expression: ",
                pattern.as_str(),
            ),
        }
    }
}

/// What has to run for a started source.
#[derive(Debug)]
pub enum SourceTask {
    /// Tail a file.
    MonitorFile {
        /// The file.
        path: String,
        /// Where reading starts.
        start_at: StartAt,
        /// The entry that announces the task.
        startup: LogEntry,
    },
    /// Follow the system journal.
    MonitorJournal {
        /// Journal directory, if not the default one.
        directory: Option<String>,
        /// Service units whose entries are read.
        units: Vec<String>,
        /// The entry that announces the task.
        startup: LogEntry,
    },
    /// Follow container output.
    MonitorContainers {
        /// Names or ids of the containers.
        containers: Vec<String>,
        /// Whether every running container is followed.
        all_containers: bool,
        /// The entry that announces the task.
        startup: LogEntry,
    },
    /// Serve the HTTP receiver.
    ServeHttp {
        /// Interface to bind to.
        interface: String,
        /// Port to listen on.
        port: u16,
        /// Name under which received entries are recorded.
        source_name: String,
    },
}

/// The entry with which a source announces itself: level `INFO`, no
/// attributes.
pub open spec fn startup_entry(source: Seq<char>, message: Seq<char>, now: Timestamp) -> LogEntryView {
    LogEntryView {
        timestamp: now,
        source,
        level: Some("INFO"@),
        message,
        attributes: Map::empty(),
    }
}

/// Builds the entry with which a source announces itself.
fn announce(source: &str, message: String, now: Timestamp) -> (e: LogEntry)
    ensures
        e@ == startup_entry(source@, message@, now),
{
    LogEntry {
        timestamp: now,
        source: source.to_string(),
        level: Some("INFO".to_string()),
        message,
        attributes: StringMap::new(),
    }
}

/// Whether a file source skips a path: its file name matches the exclude
/// pattern.
pub open spec fn path_excluded(path: Seq<char>, exclude: Option<Seq<char>>) -> bool {
    match (exclude, path_file_name(path)) {
        (Some(pattern), Some(file)) => regex_matches(pattern, file),
        _ => false,
    }
}

/// The first `n` paths without those that the exclude pattern skips.
pub open spec fn monitored_paths(paths: Seq<Seq<char>>, exclude: Option<Seq<char>>, n: int) -> Seq<
    Seq<char>,
>
    decreases n,
{
    if n <= 0 || n > paths.len() {
        Seq::empty()
    } else if path_excluded(paths[n - 1], exclude) {
        monitored_paths(paths, exclude, n - 1)
    } else {
        monitored_paths(paths, exclude, n - 1).push(paths[n - 1])
    }
}

/// Whether `task` is the task that tails `path` for the source `name`.
pub open spec fn is_file_task(
    task: SourceTask,
    path: Seq<char>,
    name: Seq<char>,
    start_at: StartAt,
    now: Timestamp,
) -> bool {
    &&& task matches SourceTask::MonitorFile { path: p, start_at: s, startup }
    &&& p@ == path
    &&& s == start_at
    &&& startup@ == startup_entry(name, "Started monitoring file: "@ + path_debug(path), now)
}

/// Whether `tasks` are the tasks of a file source with the given settings:
/// one for every path that is not skipped, in order.
pub open spec fn are_file_tasks(
    tasks: Seq<SourceTask>,
    paths: Seq<Seq<char>>,
    exclude: Option<Seq<char>>,
    name: Seq<char>,
    start_at: StartAt,
    now: Timestamp,
) -> bool {
    let wanted = monitored_paths(paths, exclude, paths.len() as int);
    &&& tasks.len() == wanted.len()
    &&& forall|i: int|
        0 <= i < tasks.len() ==> is_file_task(#[trigger] tasks[i], wanted[i], name, start_at, now)
}

/// Whether `task` is the task that follows the journal for a source with the
/// given settings.
pub open spec fn is_journal_task(
    task: SourceTask,
    name: Seq<char>,
    directory: Option<Seq<char>>,
    units: Seq<Seq<char>>,
    now: Timestamp,
) -> bool {
    &&& task matches SourceTask::MonitorJournal { directory: d, units: u, startup }
    &&& crate::collector::entry::option_view(d) == directory
    &&& strings_view(u@) == units
    &&& startup@ == startup_entry(
        name,
        "Started monitoring journald for units: "@ + list_debug(units),
        now,
    )
}

/// Whether `task` is the task that follows containers for a source with the
/// given settings.
pub open spec fn is_container_task(
    task: SourceTask,
    name: Seq<char>,
    containers: Seq<Seq<char>>,
    all_containers: bool,
    now: Timestamp,
) -> bool {
    &&& task matches SourceTask::MonitorContainers { containers: c, all_containers: a, startup }
    &&& strings_view(c@) == containers
    &&& a == all_containers
    &&& startup@ == startup_entry(
        name,
        "Started monitoring Docker containers: "@ + list_debug(containers),
        now,
    )
}

/// Whether `task` is the task that serves the HTTP receiver for a source
/// with the given settings.
pub open spec fn is_server_task(
    task: SourceTask,
    name: Seq<char>,
    interface: Seq<char>,
    port: u16,
) -> bool {
    &&& task matches SourceTask::ServeHttp { interface: i, port: p, source_name }
    &&& i@ == interface
    &&& p == port
    &&& source_name@ == name
}

/// Tails files.
pub struct FileSource {
    name: String,
    file_paths: Vec<String>,
    exclude_pattern: Option<Pattern>,
    start_at: StartAt,
    running: bool,
}

impl FileSource {
    /// The source's name.
    pub closed spec fn spec_name(self) -> Seq<char> {
        self.name@
    }

    /// The configured paths, in order.
    pub closed spec fn paths(self) -> Seq<Seq<char>> {
        strings_view(self.file_paths@)
    }

    /// The pattern of file names to skip.
    pub closed spec fn exclude(self) -> Option<Seq<char>> {
        match self.exclude_pattern {
            Some(re) => Some(re.source()),
            None => None,
        }
    }

    /// Where reading starts.
    pub closed spec fn spec_start_at(self) -> StartAt {
        self.start_at
    }

    /// Whether the source has been started and not stopped.
    pub closed spec fn is_running(self) -> bool {
        self.running
    }

    /// Whether `other` is this source apart from the running flag.
    pub open spec fn same_settings(self, other: FileSource) -> bool {
        &&& self.spec_name() == other.spec_name()
        &&& self.paths() == other.paths()
        &&& self.exclude() == other.exclude()
        &&& self.spec_start_at() == other.spec_start_at()
    }

    /// Makes a stopped source. It fails exactly when the exclude pattern does
    /// not compile.
    pub fn new(
        name: String,
        included: Vec<String>,
        exclude_pattern: Option<String>,
        start_at: StartAt,
    ) -> (r: Result<FileSource, SourceError>)
        ensures
            match r {
                Ok(s) => {
                    &&& s.spec_name() == name@
                    &&& s.paths() == strings_view(included@)
                    &&& s.exclude() == crate::collector::entry::option_view(exclude_pattern)
                    &&& s.spec_start_at() == start_at
                    &&& !s.is_running()
                    &&& exclude_pattern matches Some(p) ==> regex_valid(p@)
                },
                Err(SourceError::InvalidPattern { pattern }) => {
                    &&& exclude_pattern matches Some(p)
                    &&& !regex_valid(p@)
                    &&& pattern@ == p@
                },
                Err(_) => false,
            },
    {
        let exclude_regex = match exclude_pattern {
            Some(pattern) => match compile(pattern.as_str()) {
                Ok(re) => Some(re),
                Err(_) => {
                    return Err(SourceError::InvalidPattern { pattern });
                },
            },
            None => None,
        };
        Ok(
            FileSource {
                name,
                file_paths: included,
                exclude_pattern: exclude_regex,
                start_at,
                running: false,
            },
        )
    }

    /// Whether the source skips a path.
    fn skips(&self, path: &str) -> (b: bool)
        ensures
            b == path_excluded(path@, self.exclude()),
    {
        match &self.exclude_pattern {
            Some(pattern) => match file_name_of(path) {
                Some(file) => is_match(pattern, file.as_str()),
                None => false,
            },
            None => false,
        }
    }

    /// Starts the source: one task for every configured path that the
    /// exclude pattern does not skip, in configured order. A source that is
    /// running already refuses and stays as it is.
    pub fn start(&mut self, now: Timestamp) -> (r: Result<Vec<SourceTask>, SourceError>)
        ensures
            final(self).same_settings(*old(self)),
            match r {
                Ok(tasks) => {
                    &&& !old(self).is_running()
                    &&& final(self).is_running()
                    &&& are_file_tasks(
                        tasks@,
                        old(self).paths(),
                        old(self).exclude(),
                        old(self).spec_name(),
                        old(self).spec_start_at(),
                        now,
                    )
                },
                Err(e) => e is AlreadyRunning && old(self).is_running() && final(self).is_running(),
            },
    {
        if self.running {
            return Err(SourceError::AlreadyRunning);
        }
        self.running = true;
        let mut tasks: Vec<SourceTask> = Vec::new();
        let mut i: usize = 0;
        while i < self.file_paths.len()
            invariant
                i <= self.file_paths.len(),
                tasks@.len() == monitored_paths(self.paths(), self.exclude(), i as int).len(),
                forall|k: int|
                    0 <= k < tasks@.len() ==> is_file_task(
                        #[trigger] tasks@[k],
                        monitored_paths(self.paths(), self.exclude(), i as int)[k],
                        self.spec_name(),
                        self.spec_start_at(),
                        now,
                    ),
            decreases self.file_paths.len() - i,
        {
            let path = &self.file_paths[i];
            assert(self.paths()[i as int] == path@);
            if !self.skips(path.as_str()) {
                let quoted = debug_path(path.as_str());
                let message = joined("Started monitoring file: ", quoted.as_str());
                let startup = announce(self.name.as_str(), message, now);
                tasks.push(
                    SourceTask::MonitorFile { path: path.clone(), start_at: self.start_at, startup },
                );
            }
            i += 1;
        }
        Ok(tasks)
    }

    /// Stops the source. A source that is not running refuses.
    pub fn stop(&mut self) -> (r: Result<(), SourceError>)
        ensures
            final(self).same_settings(*old(self)),
            !final(self).is_running(),
            match r {
                Ok(_) => old(self).is_running(),
                Err(e) => e is NotRunning && !old(self).is_running(),
            },
    {
        if !self.running {
            return Err(SourceError::NotRunning);
        }
        self.running = false;
        Ok(())
    }

    /// The source's name.
    pub fn name(&self) -> (n: &str)
        ensures
            n@ == self.spec_name(),
    {
        self.name.as_str()
    }
}

/// Reads the system journal.
pub struct JournaldSource {
    name: String,
    directory: Option<String>,
    units: Vec<String>,
    running: bool,
}

impl JournaldSource {
    /// The source's name.
    pub closed spec fn spec_name(self) -> Seq<char> {
        self.name@
    }

    /// Journal directory, if not the default one.
    pub closed spec fn spec_directory(self) -> Option<Seq<char>> {
        crate::collector::entry::option_view(self.directory)
    }

    /// Service units whose entries are read.
    pub closed spec fn spec_units(self) -> Seq<Seq<char>> {
        strings_view(self.units@)
    }

    /// Whether the source has been started and not stopped.
    pub closed spec fn is_running(self) -> bool {
        self.running
    }

    /// Whether `other` is this source apart from the running flag.
    pub open spec fn same_settings(self, other: JournaldSource) -> bool {
        &&& self.spec_name() == other.spec_name()
        &&& self.spec_directory() == other.spec_directory()
        &&& self.spec_units() == other.spec_units()
    }

    /// Makes a stopped source.
    pub fn new(name: String, directory: Option<String>, units: Vec<String>) -> (r: Result<
        JournaldSource,
        SourceError,
    >)
        ensures
            r matches Ok(s) && s.spec_name() == name@ && s.spec_directory()
                == crate::collector::entry::option_view(directory) && s.spec_units() == strings_view(
                units@,
            ) && !s.is_running(),
    {
        Ok(JournaldSource { name, directory, units, running: false })
    }

    /// Starts the source and says what has to run for it. A source that is
    /// running already refuses and stays as it is.
    pub fn start(&mut self, now: Timestamp) -> (r: Result<SourceTask, SourceError>)
        ensures
            final(self).same_settings(*old(self)),
            final(self).is_running(),
            match r {
                Ok(task) => {
                    &&& !old(self).is_running()
                    &&& is_journal_task(
                        task,
                        old(self).spec_name(),
                        old(self).spec_directory(),
                        old(self).spec_units(),
                        now,
                    )
                },
                Err(e) => e is AlreadyRunning && old(self).is_running(),
            },
    {
        if self.running {
            return Err(SourceError::AlreadyRunning);
        }
        self.running = true;
        let listed = debug_list(&self.units);
        let message = joined("Started monitoring journald for units: ", listed.as_str());
        let startup = announce(self.name.as_str(), message, now);
        let directory = match &self.directory {
            Some(d) => Some(d.clone()),
            None => None,
        };
        Ok(SourceTask::MonitorJournal { directory, units: clone_strings(&self.units), startup })
    }

    /// Stops the source. A source that is not running refuses.
    pub fn stop(&mut self) -> (r: Result<(), SourceError>)
        ensures
            final(self).same_settings(*old(self)),
            !final(self).is_running(),
            match r {
                Ok(_) => old(self).is_running(),
                Err(e) => e is NotRunning && !old(self).is_running(),
            },
    {
        if !self.running {
            return Err(SourceError::NotRunning);
        }
        self.running = false;
        Ok(())
    }

    /// The source's name.
    pub fn name(&self) -> (n: &str)
        ensures
            n@ == self.spec_name(),
    {
        self.name.as_str()
    }
}

/// Reads container output.
pub struct DockerSource {
    name: String,
    containers: Vec<String>,
    all_containers: bool,
    running: bool,
}

impl DockerSource {
    /// The source's name.
    pub closed spec fn spec_name(self) -> Seq<char> {
        self.name@
    }

    /// Names or ids of the containers to read.
    pub closed spec fn spec_containers(self) -> Seq<Seq<char>> {
        strings_view(self.containers@)
    }

    /// Whether every running container is read.
    pub closed spec fn spec_all_containers(self) -> bool {
        self.all_containers
    }

    /// Whether the source has been started and not stopped.
    pub closed spec fn is_running(self) -> bool {
        self.running
    }

    /// Whether `other` is this source apart from the running flag.
    pub open spec fn same_settings(self, other: DockerSource) -> bool {
        &&& self.spec_name() == other.spec_name()
        &&& self.spec_containers() == other.spec_containers()
        &&& self.spec_all_containers() == other.spec_all_containers()
    }

    /// Makes a stopped source.
    pub fn new(name: String, containers: Vec<String>, all_containers: bool) -> (r: Result<
        DockerSource,
        SourceError,
    >)
        ensures
            r matches Ok(s) && s.spec_name() == name@ && s.spec_containers() == strings_view(
                containers@,
            ) && s.spec_all_containers() == all_containers && !s.is_running(),
    {
        Ok(DockerSource { name, containers, all_containers, running: false })
    }

    /// Starts the source and says what has to run for it. A source that is
    /// running already refuses and stays as it is.
    pub fn start(&mut self, now: Timestamp) -> (r: Result<SourceTask, SourceError>)
        ensures
            final(self).same_settings(*old(self)),
            final(self).is_running(),
            match r {
                Ok(task) => {
                    &&& !old(self).is_running()
                    &&& is_container_task(
                        task,
                        old(self).spec_name(),
                        old(self).spec_containers(),
                        old(self).spec_all_containers(),
                        now,
                    )
                },
                Err(e) => e is AlreadyRunning && old(self).is_running(),
            },
    {
        if self.running {
            return Err(SourceError::AlreadyRunning);
        }
        self.running = true;
        let listed = debug_list(&self.containers);
        let message = joined("Started monitoring Docker containers: ", listed.as_str());
        let startup = announce(self.name.as_str(), message, now);
        Ok(
            SourceTask::MonitorContainers {
                containers: clone_strings(&self.containers),
                all_containers: self.all_containers,
                startup,
            },
        )
    }

    /// Stops the source. A source that is not running refuses.
    pub fn stop(&mut self) -> (r: Result<(), SourceError>)
        ensures
            final(self).same_settings(*old(self)),
            !final(self).is_running(),
            match r {
                Ok(_) => old(self).is_running(),
                Err(e) => e is NotRunning && !old(self).is_running(),
            },
    {
        if !self.running {
            return Err(SourceError::NotRunning);
        }
        self.running = false;
        Ok(())
    }

    /// The source's name.
    pub fn name(&self) -> (n: &str)
        ensures
            n@ == self.spec_name(),
    {
        self.name.as_str()
    }
}

/// Receives log batches over HTTP.
pub struct OtlpSource {
    name: String,
    port: u16,
    interface: String,
    running: bool,
}

impl OtlpSource {
    /// The source's name.
    pub closed spec fn spec_name(self) -> Seq<char> {
        self.name@
    }

    /// Port to listen on.
    pub closed spec fn spec_port(self) -> u16 {
        self.port
    }

    /// Interface to bind to.
    pub closed spec fn spec_interface(self) -> Seq<char> {
        self.interface@
    }

    /// Whether the source has been started and not stopped.
    pub closed spec fn is_running(self) -> bool {
        self.running
    }

    /// Whether `other` is this source apart from the running flag.
    pub open spec fn same_settings(self, other: OtlpSource) -> bool {
        &&& self.spec_name() == other.spec_name()
        &&& self.spec_port() == other.spec_port()
        &&& self.spec_interface() == other.spec_interface()
    }

    /// Makes a stopped source.
    pub fn new(name: String, port: u16, interface: String) -> (r: Result<OtlpSource, SourceError>)
        ensures
            r matches Ok(s) && s.spec_name() == name@ && s.spec_port() == port && s.spec_interface()
                == interface@ && !s.is_running(),
    {
        Ok(OtlpSource { name, port, interface, running: false })
    }

    /// Starts the source and says what has to run for it. A source that is
    /// running already refuses and stays as it is.
    pub fn start(&mut self) -> (r: Result<SourceTask, SourceError>)
        ensures
            final(self).same_settings(*old(self)),
            final(self).is_running(),
            match r {
                Ok(task) => {
                    &&& !old(self).is_running()
                    &&& is_server_task(
                        task,
                        old(self).spec_name(),
                        old(self).spec_interface(),
                        old(self).spec_port(),
                    )
                },
                Err(e) => e is AlreadyRunning && old(self).is_running(),
            },
    {
        if self.running {
            return Err(SourceError::AlreadyRunning);
        }
        self.running = true;
        Ok(
            SourceTask::ServeHttp {
                interface: self.interface.clone(),
                port: self.port,
                source_name: self.name.clone(),
            },
        )
    }

    /// Stops the source. A source that is not running refuses.
    pub fn stop(&mut self) -> (r: Result<(), SourceError>)
        ensures
            final(self).same_settings(*old(self)),
            !final(self).is_running(),
            match r {
                Ok(_) => old(self).is_running(),
                Err(e) => e is NotRunning && !old(self).is_running(),
            },
    {
        if !self.running {
            return Err(SourceError::NotRunning);
        }
        self.running = false;
        Ok(())
    }

    /// The source's name.
    pub fn name(&self) -> (n: &str)
        ensures
            n@ == self.spec_name(),
    {
        self.name.as_str()
    }
}

/// A source of log entries.
pub trait LogSource {
    /// Whether the source has been started and not stopped.
    spec fn running(&self) -> bool;

    /// The source's name.
    spec fn label(&self) -> Seq<char>;

    /// Starts the source and says what has to run for it. A source that is
    /// running already refuses.
    fn start(&mut self, now: Timestamp) -> (r: Result<Vec<SourceTask>, SourceError>)
        ensures
            final(self).running(),
            r is Err <==> old(self).running(),
            r matches Err(e) ==> e is AlreadyRunning,
    ;

    /// Stops the source. A source that is not running refuses.
    fn stop(&mut self) -> (r: Result<(), SourceError>)
        ensures
            !final(self).running(),
            r is Ok <==> old(self).running(),
            r matches Err(e) ==> e is NotRunning,
    ;

    /// The source's name, for diagnostics.
    fn name(&self) -> (n: &str)
        ensures
            n@ == self.label(),
    ;
}

/// A list that holds one task.
fn single(task: SourceTask) -> (tasks: Vec<SourceTask>)
    ensures
        tasks@ == seq![task],
{
    let mut tasks: Vec<SourceTask> = Vec::new();
    tasks.push(task);
    tasks
}

impl LogSource for FileSource {
    open spec fn running(&self) -> bool {
        self.is_running()
    }

    open spec fn label(&self) -> Seq<char> {
        self.spec_name()
    }

    fn start(&mut self, now: Timestamp) -> Result<Vec<SourceTask>, SourceError> {
        FileSource::start(self, now)
    }

    fn stop(&mut self) -> Result<(), SourceError> {
        FileSource::stop(self)
    }

    fn name(&self) -> (n: &str) {
        FileSource::name(self)
    }
}

impl LogSource for JournaldSource {
    open spec fn running(&self) -> bool {
        self.is_running()
    }

    open spec fn label(&self) -> Seq<char> {
        self.spec_name()
    }

    fn start(&mut self, now: Timestamp) -> Result<Vec<SourceTask>, SourceError> {
        match JournaldSource::start(self, now) {
            Ok(task) => Ok(single(task)),
            Err(e) => Err(e),
        }
    }

    fn stop(&mut self) -> Result<(), SourceError> {
        JournaldSource::stop(self)
    }

    fn name(&self) -> (n: &str) {
        JournaldSource::name(self)
    }
}

impl LogSource for DockerSource {
    open spec fn running(&self) -> bool {
        self.is_running()
    }

    open spec fn label(&self) -> Seq<char> {
        self.spec_name()
    }

    fn start(&mut self, now: Timestamp) -> Result<Vec<SourceTask>, SourceError> {
        match DockerSource::start(self, now) {
            Ok(task) => Ok(single(task)),
            Err(e) => Err(e),
        }
    }

    fn stop(&mut self) -> Result<(), SourceError> {
        DockerSource::stop(self)
    }

    fn name(&self) -> (n: &str) {
        DockerSource::name(self)
    }
}

impl LogSource for OtlpSource {
    open spec fn running(&self) -> bool {
        self.is_running()
    }

    open spec fn label(&self) -> Seq<char> {
        self.spec_name()
    }

    fn start(&mut self, now: Timestamp) -> Result<Vec<SourceTask>, SourceError> {
        match OtlpSource::start(self) {
            Ok(task) => Ok(single(task)),
            Err(e) => Err(e),
        }
    }

    fn stop(&mut self) -> Result<(), SourceError> {
        OtlpSource::stop(self)
    }

    fn name(&self) -> (n: &str) {
        OtlpSource::name(self)
    }
}

/// A source of one of the four kinds.
pub enum Source {
    /// Tails files.
    File(FileSource),
    /// Reads the system journal.
    Journald(JournaldSource),
    /// Reads container output.
    Docker(DockerSource),
    /// Receives log batches over HTTP.
    Otlp(OtlpSource),
}

impl Source {
    /// The source's name.
    pub open spec fn spec_name(self) -> Seq<char> {
        match self {
            Source::File(s) => s.spec_name(),
            Source::Journald(s) => s.spec_name(),
            Source::Docker(s) => s.spec_name(),
            Source::Otlp(s) => s.spec_name(),
        }
    }

    /// Whether the source has been started and not stopped.
    pub open spec fn is_running(self) -> bool {
        match self {
            Source::File(s) => s.is_running(),
            Source::Journald(s) => s.is_running(),
            Source::Docker(s) => s.is_running(),
            Source::Otlp(s) => s.is_running(),
        }
    }

    /// Whether `other` is this source apart from the running flag.
    pub open spec fn same_settings(self, other: Source) -> bool {
        match (self, other) {
            (Source::File(a), Source::File(b)) => a.same_settings(b),
            (Source::Journald(a), Source::Journald(b)) => a.same_settings(b),
            (Source::Docker(a), Source::Docker(b)) => a.same_settings(b),
            (Source::Otlp(a), Source::Otlp(b)) => a.same_settings(b),
            _ => false,
        }
    }

    /// Whether `tasks` are what this source asks to run when it is started
    /// at `now`: a file source one task per monitored path, every other
    /// source a single task.
    pub open spec fn asks_for(self, tasks: Seq<SourceTask>, now: Timestamp) -> bool {
        match self {
            Source::File(s) => are_file_tasks(
                tasks,
                s.paths(),
                s.exclude(),
                s.spec_name(),
                s.spec_start_at(),
                now,
            ),
            Source::Journald(s) => tasks.len() == 1 && is_journal_task(
                tasks[0],
                s.spec_name(),
                s.spec_directory(),
                s.spec_units(),
                now,
            ),
            Source::Docker(s) => tasks.len() == 1 && is_container_task(
                tasks[0],
                s.spec_name(),
                s.spec_containers(),
                s.spec_all_containers(),
                now,
            ),
            Source::Otlp(s) => tasks.len() == 1 && is_server_task(
                tasks[0],
                s.spec_name(),
                s.spec_interface(),
                s.spec_port(),
            ),
        }
    }

    /// Starts the source and says what has to run for it. A source that is
    /// running already refuses.
    pub fn start(&mut self, now: Timestamp) -> (r: Result<Vec<SourceTask>, SourceError>)
        ensures
            final(self).same_settings(*old(self)),
            final(self).is_running(),
            match r {
                Ok(tasks) => !old(self).is_running() && final(self).asks_for(tasks@, now),
                Err(e) => e is AlreadyRunning && old(self).is_running(),
            },
    {
        match self {
            Source::File(s) => s.start(now),
            Source::Journald(s) => match s.start(now) {
                Ok(task) => Ok(single(task)),
                Err(e) => Err(e),
            },
            Source::Docker(s) => match s.start(now) {
                Ok(task) => Ok(single(task)),
                Err(e) => Err(e),
            },
            Source::Otlp(s) => match s.start() {
                Ok(task) => Ok(single(task)),
                Err(e) => Err(e),
            },
        }
    }

    /// Stops the source. A source that is not running refuses.
    pub fn stop(&mut self) -> (r: Result<(), SourceError>)
        ensures
            final(self).same_settings(*old(self)),
            !final(self).is_running(),
            match r {
                Ok(_) => old(self).is_running(),
                Err(e) => e is NotRunning && !old(self).is_running(),
            },
    {
        match self {
            Source::File(s) => s.stop(),
            Source::Journald(s) => s.stop(),
            Source::Docker(s) => s.stop(),
            Source::Otlp(s) => s.stop(),
        }
    }

    /// The source's name.
    pub fn name(&self) -> (n: &str)
        ensures
            n@ == self.spec_name(),
    {
        match self {
            Source::File(s) => s.name(),
            Source::Journald(s) => s.name(),
            Source::Docker(s) => s.name(),
            Source::Otlp(s) => s.name(),
        }
    }
}

/// Whether a source can be made from the configuration: the exclude pattern
/// of a file source has to compile.
pub open spec fn source_buildable(config: SourceConfig) -> bool {
    config matches SourceConfig::File { exclude_filename_pattern: Some(p), .. } ==> regex_valid(p@)
}

/// Whether a source is the stopped source that the configuration describes.
pub open spec fn source_matches(s: Source, config: SourceConfig) -> bool {
    &&& !s.is_running()
    &&& match config {
        SourceConfig::File { name, included, exclude_filename_pattern, start_at } => {
            &&& s matches Source::File(f)
            &&& f.spec_name() == name@
            &&& f.paths() == strings_view(included@)
            &&& f.exclude() == crate::collector::entry::option_view(exclude_filename_pattern)
            &&& f.spec_start_at() == start_at
        },
        SourceConfig::Journald { name, directory, units } => {
            &&& s matches Source::Journald(j)
            &&& j.spec_name() == name@
            &&& j.spec_directory() == crate::collector::entry::option_view(directory)
            &&& j.spec_units() == strings_view(units@)
        },
        SourceConfig::Docker { name, containers, all_containers } => {
            &&& s matches Source::Docker(d)
            &&& d.spec_name() == name@
            &&& d.spec_containers() == strings_view(containers@)
            &&& d.spec_all_containers() == all_containers
        },
        SourceConfig::Otlp { name, port, interface } => {
            &&& s matches Source::Otlp(o)
            &&& o.spec_name() == name@
            &&& o.spec_port() == port
            &&& o.spec_interface() == interface@
        },
    }
}

/// Makes the stopped source that a configuration describes. It fails exactly
/// when the exclude pattern of a file source does not compile.
pub fn create_source(config: &SourceConfig) -> (r: Result<Source, SourceError>)
    ensures
        match r {
            Ok(s) => source_buildable(*config) && source_matches(s, *config),
            Err(SourceError::InvalidPattern { pattern }) => {
                &&& !source_buildable(*config)
                &&& config matches SourceConfig::File { exclude_filename_pattern: Some(p), .. }
                &&& pattern@ == p@
            },
            Err(_) => false,
        },
{
    match config {
        SourceConfig::File { name, included, exclude_filename_pattern, start_at } => {
            let exclude = match exclude_filename_pattern {
                Some(p) => Some(p.clone()),
                None => None,
            };
            match FileSource::new(name.clone(), clone_strings(included), exclude, *start_at) {
                Ok(s) => Ok(Source::File(s)),
                Err(e) => Err(e),
            }
        },
        SourceConfig::Journald { name, directory, units } => {
            let dir = match directory {
                Some(d) => Some(d.clone()),
                None => None,
            };
            match JournaldSource::new(name.clone(), dir, clone_strings(units)) {
                Ok(s) => Ok(Source::Journald(s)),
                Err(e) => Err(e),
            }
        },
        SourceConfig::Docker { name, containers, all_containers } => {
            match DockerSource::new(name.clone(), clone_strings(containers), *all_containers) {
                Ok(s) => Ok(Source::Docker(s)),
                Err(e) => Err(e),
            }
        },
        SourceConfig::Otlp { name, port, interface } => {
            match OtlpSource::new(name.clone(), *port, interface.clone()) {
                Ok(s) => Ok(Source::Otlp(s)),
                Err(e) => Err(e),
            }
        },
    }
}

} // verus!

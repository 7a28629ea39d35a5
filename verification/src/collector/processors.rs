//! The processors and the chain they form.

use crate::collector::config::{
    actions_view,
    clone_actions,
    clone_steps,
    steps_view,
    ProcessorConfig,
};
use crate::collector::entry::{LogEntry, LogEntryView};
pub use crate::collector::filter::{FilterProcessor, Matcher, ProcessorError};
use crate::collector::filter::{all_buildable, configured_rules};
pub use crate::collector::resource::ResourceProcessor;
use crate::collector::transform::required_patterns;
pub use crate::collector::transform::TransformProcessor;
use crate::string_map::StringMap;
use vstd::prelude::*;

verus! {

/// An optional entry as a mathematical value.
pub open spec fn outcome_view(o: Option<LogEntry>) -> Option<LogEntryView> {
    match o {
        Some(e) => Some(e@),
        None => None,
    }
}

/// One stage of the processor chain: it passes an entry on, possibly changed,
/// or drops it.
pub trait LogProcessor {
    /// The stage's name.
    spec fn label(&self) -> Seq<char>;

    /// Whether the stage handles the entry without failing.
    spec fn succeeds(&self, log: LogEntryView, env: Map<Seq<char>, Seq<char>>) -> bool;

    /// What the stage makes of an entry in a given environment; `None` where
    /// it drops the entry.
    spec fn outcome(&self, log: LogEntryView, env: Map<Seq<char>, Seq<char>>) -> Option<
        LogEntryView,
    >;

    /// Handles one entry. `env` holds the environment variables as they are
    /// when the entry is handled. The stage fails exactly where `succeeds`
    /// says so, and otherwise gives what `outcome` says.
    fn process(&self, log: LogEntry, env: &StringMap) -> (r: Result<
        Option<LogEntry>,
        ProcessorError,
    >)
        ensures
            r is Ok <==> self.succeeds(log@, env@),
            r matches Ok(out) ==> outcome_view(out) == self.outcome(log@, env@),
    ;

    /// The stage's name, for diagnostics.
    fn name(&self) -> (n: &str)
        ensures
            n@ == self.label(),
    ;
}

/// Declared as a grouping stage; it passes every entry on as it is, and the
/// exporters do the batching.
pub struct BatchProcessor {
    name: String,
    timeout_seconds: u64,
    batch_size: usize,
}

impl BatchProcessor {
    /// The processor's name.
    pub closed spec fn spec_name(self) -> Seq<char> {
        self.name@
    }

    /// Seconds after which a batch would be sent.
    pub closed spec fn spec_timeout_seconds(self) -> u64 {
        self.timeout_seconds
    }

    /// Largest batch.
    pub closed spec fn spec_batch_size(self) -> usize {
        self.batch_size
    }

    /// A batch stage with the given limits.
    pub fn new(name: String, timeout_seconds: u64, batch_size: usize) -> (r: Result<
        BatchProcessor,
        ProcessorError,
    >)
        ensures
            r matches Ok(p) && p.spec_name() == name@ && p.spec_timeout_seconds() == timeout_seconds
                && p.spec_batch_size() == batch_size,
    {
        Ok(BatchProcessor { name, timeout_seconds, batch_size })
    }

    /// Passes the entry on as it is.
    pub fn process(&self, log: LogEntry) -> (r: Result<Option<LogEntry>, ProcessorError>)
        ensures
            r matches Ok(Some(out)) && out == log,
    {
        Ok(Some(log))
    }

    /// The processor's name.
    pub fn name(&self) -> (n: &str)
        ensures
            n@ == self.spec_name(),
    {
        self.name.as_str()
    }

    /// Seconds after which a batch would be sent.
    pub fn timeout_seconds(&self) -> (t: u64)
        ensures
            t == self.spec_timeout_seconds(),
    {
        self.timeout_seconds
    }

    /// Largest batch.
    pub fn batch_size(&self) -> (n: usize)
        ensures
            n == self.spec_batch_size(),
    {
        self.batch_size
    }
}

impl LogProcessor for ResourceProcessor {
    open spec fn label(&self) -> Seq<char> {
        self.spec_name()
    }

    /// Every entry is handled.
    open spec fn succeeds(&self, log: LogEntryView, env: Map<Seq<char>, Seq<char>>) -> bool {
        true
    }

    open spec fn outcome(&self, log: LogEntryView, env: Map<Seq<char>, Seq<char>>) -> Option<
        LogEntryView,
    > {
        Some(ResourceProcessor::outcome(*self, log, env))
    }

    fn process(&self, log: LogEntry, env: &StringMap) -> (r: Result<
        Option<LogEntry>,
        ProcessorError,
    >) {
        ResourceProcessor::process(self, log, env)
    }

    fn name(&self) -> (n: &str) {
        ResourceProcessor::name(self)
    }
}

impl LogProcessor for FilterProcessor {
    open spec fn label(&self) -> Seq<char> {
        self.spec_name()
    }

    /// Every entry is handled.
    open spec fn succeeds(&self, log: LogEntryView, env: Map<Seq<char>, Seq<char>>) -> bool {
        true
    }

    open spec fn outcome(&self, log: LogEntryView, env: Map<Seq<char>, Seq<char>>) -> Option<
        LogEntryView,
    > {
        if self.keeps(log.message) {
            Some(log)
        } else {
            None
        }
    }

    fn process(&self, log: LogEntry, env: &StringMap) -> (r: Result<
        Option<LogEntry>,
        ProcessorError,
    >) {
        FilterProcessor::process(self, log)
    }

    fn name(&self) -> (n: &str) {
        FilterProcessor::name(self)
    }
}

impl LogProcessor for BatchProcessor {
    open spec fn label(&self) -> Seq<char> {
        self.spec_name()
    }

    /// Every entry is handled.
    open spec fn succeeds(&self, log: LogEntryView, env: Map<Seq<char>, Seq<char>>) -> bool {
        true
    }

    open spec fn outcome(&self, log: LogEntryView, env: Map<Seq<char>, Seq<char>>) -> Option<
        LogEntryView,
    > {
        Some(log)
    }

    fn process(&self, log: LogEntry, env: &StringMap) -> (r: Result<
        Option<LogEntry>,
        ProcessorError,
    >) {
        BatchProcessor::process(self, log)
    }

    fn name(&self) -> (n: &str) {
        BatchProcessor::name(self)
    }
}

impl LogProcessor for TransformProcessor {
    open spec fn label(&self) -> Seq<char> {
        self.spec_name()
    }

    /// Every entry is handled.
    open spec fn succeeds(&self, log: LogEntryView, env: Map<Seq<char>, Seq<char>>) -> bool {
        true
    }

    open spec fn outcome(&self, log: LogEntryView, env: Map<Seq<char>, Seq<char>>) -> Option<
        LogEntryView,
    > {
        Some(TransformProcessor::outcome(*self, log))
    }

    fn process(&self, log: LogEntry, env: &StringMap) -> (r: Result<
        Option<LogEntry>,
        ProcessorError,
    >) {
        TransformProcessor::process(self, log)
    }

    fn name(&self) -> (n: &str) {
        TransformProcessor::name(self)
    }
}

/// A processor of one of the four kinds.
pub enum Processor {
    /// Attribute actions.
    Resource(ResourceProcessor),
    /// Message filter.
    Filter(FilterProcessor),
    /// Pass-through grouping stage.
    Batch(BatchProcessor),
    /// Field transformations.
    Transform(TransformProcessor),
}

impl Processor {
    /// What the processor makes of an entry; `None` where it drops it.
    pub open spec fn outcome(self, log: LogEntryView, env: Map<Seq<char>, Seq<char>>) -> Option<
        LogEntryView,
    > {
        match self {
            Processor::Resource(p) => LogProcessor::outcome(&p, log, env),
            Processor::Filter(p) => LogProcessor::outcome(&p, log, env),
            Processor::Batch(p) => LogProcessor::outcome(&p, log, env),
            Processor::Transform(p) => LogProcessor::outcome(&p, log, env),
        }
    }

    /// The processor's name.
    pub open spec fn spec_name(self) -> Seq<char> {
        match self {
            Processor::Resource(p) => p.spec_name(),
            Processor::Filter(p) => p.spec_name(),
            Processor::Batch(p) => p.spec_name(),
            Processor::Transform(p) => p.spec_name(),
        }
    }

    /// Handles one entry.
    pub fn process(&self, log: LogEntry, env: &StringMap) -> (r: Result<
        Option<LogEntry>,
        ProcessorError,
    >)
        ensures
            r matches Ok(out) && outcome_view(out) == self.outcome(log@, env@),
    {
        match self {
            Processor::Resource(p) => p.process(log, env),
            Processor::Filter(p) => p.process(log),
            Processor::Batch(p) => p.process(log),
            Processor::Transform(p) => p.process(log),
        }
    }

    /// The processor's name.
    pub fn name(&self) -> (n: &str)
        ensures
            n@ == self.spec_name(),
    {
        match self {
            Processor::Resource(p) => p.name(),
            Processor::Filter(p) => p.name(),
            Processor::Batch(p) => p.name(),
            Processor::Transform(p) => p.name(),
        }
    }
}

/// Whether a processor can be made from the configuration: every regular
/// expression it names has to compile.
pub open spec fn processor_buildable(config: ProcessorConfig) -> bool {
    match config {
        ProcessorConfig::Resource { .. } => true,
        ProcessorConfig::Filter { logs, .. } => all_buildable(configured_rules(logs@.included))
            && all_buildable(configured_rules(logs@.exclude)),
        ProcessorConfig::Batch { .. } => true,
        ProcessorConfig::Transform { transforms, .. } => all_buildable(
            required_patterns(steps_view(transforms@)),
        ),
    }
}

/// Whether a processor is the one that the configuration describes.
pub open spec fn processor_matches(p: Processor, config: ProcessorConfig) -> bool {
    match config {
        ProcessorConfig::Resource { name, attributes } => {
            &&& p matches Processor::Resource(r)
            &&& r.spec_name() == name@
            &&& r.actions() == actions_view(attributes@)
        },
        ProcessorConfig::Filter { name, logs } => {
            &&& p matches Processor::Filter(f)
            &&& f.spec_name() == name@
            &&& f.include_rules() == configured_rules(logs@.included)
            &&& f.exclude_rules() == configured_rules(logs@.exclude)
        },
        ProcessorConfig::Batch { name, timeout, send_batch_size } => {
            &&& p matches Processor::Batch(b)
            &&& b.spec_name() == name@
            &&& b.spec_timeout_seconds() == timeout
            &&& b.spec_batch_size() == send_batch_size
        },
        ProcessorConfig::Transform { name, transforms } => {
            &&& p matches Processor::Transform(t)
            &&& t.spec_name() == name@
            &&& t.steps() == steps_view(transforms@)
        },
    }
}

/// Makes the processor that a configuration describes. It fails exactly when
/// a regular expression of the configuration does not compile.
pub fn create_processor(config: &ProcessorConfig) -> (r: Result<Processor, ProcessorError>)
    ensures
        r is Ok <==> processor_buildable(*config),
        r matches Ok(p) ==> processor_matches(p, *config),
{
    match config {
        ProcessorConfig::Resource { name, attributes } => {
            match ResourceProcessor::new(name.clone(), clone_actions(attributes)) {
                Ok(p) => Ok(Processor::Resource(p)),
                Err(e) => Err(e),
            }
        },
        ProcessorConfig::Filter { name, logs } => {
            match FilterProcessor::new(name.clone(), logs.clone()) {
                Ok(p) => Ok(Processor::Filter(p)),
                Err(e) => Err(e),
            }
        },
        ProcessorConfig::Batch { name, timeout, send_batch_size } => {
            match BatchProcessor::new(name.clone(), *timeout, *send_batch_size) {
                Ok(p) => Ok(Processor::Batch(p)),
                Err(e) => Err(e),
            }
        },
        ProcessorConfig::Transform { name, transforms } => {
            match TransformProcessor::new(name.clone(), clone_steps(transforms)) {
                Ok(p) => Ok(Processor::Transform(p)),
                Err(e) => Err(e),
            }
        },
    }
}

/// The entry after the first `n` processors of a chain, applied in order: the
/// first processor that drops the entry ends the chain.
pub open spec fn chain_outcome(
    processors: Seq<Processor>,
    log: LogEntryView,
    env: Map<Seq<char>, Seq<char>>,
    n: int,
) -> Option<LogEntryView>
    decreases n,
{
    if n <= 0 || n > processors.len() {
        Some(log)
    } else {
        match chain_outcome(processors, log, env, n - 1) {
            Some(current) => processors[n - 1].outcome(current, env),
            None => None,
        }
    }
}

/// Once an entry is dropped, the rest of the chain leaves it dropped.
pub proof fn lemma_chain_stays_dropped(
    processors: Seq<Processor>,
    log: LogEntryView,
    env: Map<Seq<char>, Seq<char>>,
    n: int,
    m: int,
)
    requires
        0 <= n <= m <= processors.len(),
        chain_outcome(processors, log, env, n) is None,
    ensures
        chain_outcome(processors, log, env, m) is None,
    decreases m - n,
{
    if n < m {
        lemma_chain_stays_dropped(processors, log, env, n, m - 1);
    }
}

/// Runs an entry through a chain of processors in declaration order and stops
/// at the first one that yields nothing. A processor that fails drops the
/// entry as well.
pub fn run_chain(processors: &Vec<Processor>, log: LogEntry, env: &StringMap) -> (r: Option<
    LogEntry,
>)
    ensures
        outcome_view(r) == chain_outcome(processors@, log@, env@, processors@.len() as int),
{
    let mut current = log;
    let mut i: usize = 0;
    while i < processors.len()
        invariant
            i <= processors.len(),
            chain_outcome(processors@, log@, env@, i as int) == Some(current@),
        decreases processors.len() - i,
    {
        match processors[i].process(current, env) {
            Ok(Some(next)) => {
                current = next;
            },
            Ok(None) => {
                proof {
                    lemma_chain_stays_dropped(
                        processors@,
                        log@,
                        env@,
                        i + 1,
                        processors@.len() as int,
                    );
                }
                return None;
            },
            Err(_) => {
                return None;
            },
        }
        i += 1;
    }
    Some(current)
}

} // verus!

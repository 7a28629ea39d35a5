//! Configuration schema of the collector: sources, processors and exporters,
//! each chosen by its variant.

use crate::string_map::StringMap;
use crate::text::{clone_strings, strings_view};
use vstd::prelude::*;

verus! {

/// Everything the collector is configured with.
#[derive(Debug, Clone)]
pub struct CollectorConfig {
    /// Where log entries come from.
    pub sources: Vec<SourceConfig>,
    /// The processor chain, in the order in which it is applied.
    pub processors: Vec<ProcessorConfig>,
    /// Where surviving entries are delivered.
    pub exporters: Vec<ExporterConfig>,
}

/// Configuration of one log source.
#[derive(Debug, Clone)]
pub enum SourceConfig {
    /// Tails files.
    File {
        /// Unique name of the source.
        name: String,
        /// Paths to read.
        included: Vec<String>,
        /// Files whose name matches this regular expression are skipped.
        exclude_filename_pattern: Option<String>,
        /// Where reading starts.
        start_at: StartAt,
    },
    /// Reads the system journal.
    Journald {
        /// Unique name of the source.
        name: String,
        /// Journal directory, if not the default one.
        directory: Option<String>,
        /// Service units whose entries are read.
        units: Vec<String>,
    },
    /// Reads container output.
    Docker {
        /// Unique name of the source.
        name: String,
        /// Names or ids of the containers to read.
        containers: Vec<String>,
        /// Whether every running container is read.
        all_containers: bool,
    },
    /// Receives log batches over HTTP.
    Otlp {
        /// Unique name of the source.
        name: String,
        /// Port to listen on.
        port: u16,
        /// Interface to bind to.
        interface: String,
    },
}

/// Configuration of one processor.
#[derive(Debug, Clone)]
pub enum ProcessorConfig {
    /// Adds, changes or removes attributes.
    Resource {
        /// Unique name of the processor.
        name: String,
        /// The attribute actions, in order.
        attributes: Vec<AttributeAction>,
    },
    /// Keeps or drops entries by their message.
    Filter {
        /// Unique name of the processor.
        name: String,
        /// What is kept and what is dropped.
        logs: FilterConfig,
    },
    /// Groups entries; batching itself happens in the exporters.
    Batch {
        /// Unique name of the processor.
        name: String,
        /// Seconds before a batch is sent.
        timeout: u64,
        /// Largest batch.
        send_batch_size: usize,
    },
    /// Rewrites fields.
    Transform {
        /// Unique name of the processor.
        name: String,
        /// The transformations, in order.
        transforms: Vec<TransformAction>,
    },
}

/// Configuration of one exporter.
#[derive(Debug, Clone)]
pub enum ExporterConfig {
    /// Signed delivery to the cloud service.
    LogNarrator {
        /// Unique name of the exporter.
        name: String,
        /// URL that batches are posted to.
        endpoint: String,
        /// Identifier of this client.
        client_id: String,
        /// Path of the private signing key.
        key_path: String,
        /// Entries buffered before a batch is sent; 100 when absent.
        batch_size: Option<u32>,
        /// Seconds after which a batch is sent; 30 when absent.
        flush_interval_seconds: Option<u64>,
    },
    /// Rotating files in a local directory.
    LocalCache {
        /// Unique name of the exporter.
        name: String,
        /// Directory of the cache files.
        directory: String,
        /// Size in megabytes at which a file is rotated.
        max_size_mb: u64,
    },
    /// Buffered writes to the local database.
    Database {
        /// Unique name of the exporter.
        name: String,
        /// Path of the database file.
        db_path: String,
        /// Entries buffered before they are written; 100 when absent.
        batch_size: Option<u32>,
    },
}

/// Position from which a file source starts reading.
#[derive(Debug, Clone, Copy, PartialEq, Eq, Structural)]
pub enum StartAt {
    /// Read the file from its first byte.
    Beginning,
    /// Read only what is appended after the source starts.
    End,
}

/// The start position used when a file source names none.
pub fn default_start_at() -> (r: StartAt)
    ensures
        r == StartAt::End,
{
    StartAt::End
}

/// The interface an HTTP receiver binds to when none is named: every
/// interface.
pub fn default_interface() -> (r: String)
    ensures
        r@ == "0.0.0.0"@,
{
    "0.0.0.0".to_string()
}

/// One action on an attribute.
#[derive(Debug)]
pub struct AttributeAction {
    /// What is done.
    pub action: ActionType,
    /// The attribute's key.
    pub key: String,
    /// The value; `${NAME}` stands for an environment variable.
    pub value: String,
}

/// What an attribute action does.
#[derive(Debug, Clone, Copy, PartialEq, Eq, Structural)]
pub enum ActionType {
    /// Sets the attribute if it is absent.
    Insert,
    /// Sets the attribute if it is present.
    Update,
    /// Sets the attribute in either case.
    Upsert,
    /// Removes the attribute.
    Delete,
}

/// What a filter keeps and drops.
#[derive(Debug)]
pub struct FilterConfig {
    /// Entries must match one of these, when any is given.
    pub included: Option<MatchConfig>,
    /// Entries that match one of these are dropped.
    pub exclude: Option<MatchConfig>,
}

/// A list of patterns and how they are matched.
#[derive(Debug)]
pub struct MatchConfig {
    /// How the patterns are matched.
    pub match_type: MatchType,
    /// Substrings, used when `match_type` is exact.
    pub exact: Option<Vec<String>>,
    /// Regular expressions, used when `match_type` is regexp.
    pub regexp: Option<Vec<String>>,
}

/// How a pattern is matched against a message.
#[derive(Debug, Clone, Copy, PartialEq, Eq, Structural)]
pub enum MatchType {
    /// The pattern occurs in the message as a substring.
    Exact,
    /// The regular expression matches somewhere in the message.
    Regexp,
}

/// One transformation of a field.
#[derive(Debug)]
pub struct TransformAction {
    /// What is done.
    pub transform_type: TransformType,
    /// The field: `message`, or an attribute's key.
    pub field: String,
    /// Parameters of the transformation.
    pub parameters: StringMap,
}

/// What a transformation does.
#[derive(Debug, Clone, Copy, PartialEq, Eq, Structural)]
pub enum TransformType {
    /// Replaces what a regular expression matches by a mask.
    Mask,
    /// Adds the named groups of a regular expression as attributes.
    Extract,
    /// Reserved; changes nothing.
    Convert,
    /// Moves an attribute to another key.
    Rename,
}

/// An attribute action as a mathematical value.
pub struct AttributeActionView {
    /// What is done.
    pub action: ActionType,
    /// The attribute's key.
    pub key: Seq<char>,
    /// The value, with its environment references unresolved.
    pub value: Seq<char>,
}

impl View for AttributeAction {
    type V = AttributeActionView;

    open spec fn view(&self) -> AttributeActionView {
        AttributeActionView { action: self.action, key: self.key@, value: self.value@ }
    }
}

impl Clone for AttributeAction {
    fn clone(&self) -> (r: AttributeAction)
        ensures
            r@ == self@,
    {
        AttributeAction { action: self.action, key: self.key.clone(), value: self.value.clone() }
    }
}

/// The actions of a list as mathematical values.
pub open spec fn actions_view(v: Seq<AttributeAction>) -> Seq<AttributeActionView> {
    Seq::new(v.len(), |i: int| v[i]@)
}

/// A copy of a list of attribute actions.
pub fn clone_actions(v: &Vec<AttributeAction>) -> (r: Vec<AttributeAction>)
    ensures
        actions_view(r@) == actions_view(v@),
{
    let mut r: Vec<AttributeAction> = Vec::new();
    let mut i: usize = 0;
    while i < v.len()
        invariant
            i <= v.len(),
            r@.len() == i,
            forall|j: int| 0 <= j < i ==> (#[trigger] r@[j])@ == v@[j]@,
        decreases v.len() - i,
    {
        r.push(v[i].clone());
        i += 1;
    }
    assert(actions_view(r@) =~= actions_view(v@));
    r
}

/// A list of patterns as a mathematical value.
pub struct MatchConfigView {
    /// How the patterns are matched.
    pub match_type: MatchType,
    /// Substrings, used when `match_type` is exact.
    pub exact: Option<Seq<Seq<char>>>,
    /// Regular expressions, used when `match_type` is regexp.
    pub regexp: Option<Seq<Seq<char>>>,
}

/// An optional list of strings as a mathematical value.
pub open spec fn string_list_view(list: Option<Vec<String>>) -> Option<Seq<Seq<char>>> {
    match list {
        Some(v) => Some(strings_view(v@)),
        None => None,
    }
}

impl View for MatchConfig {
    type V = MatchConfigView;

    open spec fn view(&self) -> MatchConfigView {
        MatchConfigView {
            match_type: self.match_type,
            exact: string_list_view(self.exact),
            regexp: string_list_view(self.regexp),
        }
    }
}

impl Clone for MatchConfig {
    fn clone(&self) -> (r: MatchConfig)
        ensures
            r@ == self@,
    {
        let exact = match &self.exact {
            Some(v) => Some(clone_strings(v)),
            None => None,
        };
        let regexp = match &self.regexp {
            Some(v) => Some(clone_strings(v)),
            None => None,
        };
        MatchConfig { match_type: self.match_type, exact, regexp }
    }
}

/// One side of a filter as a mathematical value.
pub open spec fn side_view(side: Option<MatchConfig>) -> Option<MatchConfigView> {
    match side {
        Some(cfg) => Some(cfg@),
        None => None,
    }
}

/// A filter configuration as a mathematical value.
pub struct FilterConfigView {
    /// Entries must match one of these, when any is given.
    pub included: Option<MatchConfigView>,
    /// Entries that match one of these are dropped.
    pub exclude: Option<MatchConfigView>,
}

impl View for FilterConfig {
    type V = FilterConfigView;

    open spec fn view(&self) -> FilterConfigView {
        FilterConfigView { included: side_view(self.included), exclude: side_view(self.exclude) }
    }
}

impl Clone for FilterConfig {
    fn clone(&self) -> (r: FilterConfig)
        ensures
            r@ == self@,
    {
        let included = match &self.included {
            Some(cfg) => Some(cfg.clone()),
            None => None,
        };
        let exclude = match &self.exclude {
            Some(cfg) => Some(cfg.clone()),
            None => None,
        };
        FilterConfig { included, exclude }
    }
}

/// A transformation as a mathematical value.
pub struct TransformActionView {
    /// What is done.
    pub transform_type: TransformType,
    /// The field: `message`, or an attribute's key.
    pub field: Seq<char>,
    /// Parameters of the transformation.
    pub parameters: Map<Seq<char>, Seq<char>>,
}

impl View for TransformAction {
    type V = TransformActionView;

    open spec fn view(&self) -> TransformActionView {
        TransformActionView {
            transform_type: self.transform_type,
            field: self.field@,
            parameters: self.parameters@,
        }
    }
}

impl Clone for TransformAction {
    fn clone(&self) -> (r: TransformAction)
        ensures
            r@ == self@,
    {
        TransformAction {
            transform_type: self.transform_type,
            field: self.field.clone(),
            parameters: self.parameters.clone(),
        }
    }
}

/// The transformations of a list as mathematical values.
pub open spec fn steps_view(v: Seq<TransformAction>) -> Seq<TransformActionView> {
    Seq::new(v.len(), |i: int| v[i]@)
}

/// A copy of a list of transformations.
pub fn clone_steps(v: &Vec<TransformAction>) -> (r: Vec<TransformAction>)
    ensures
        steps_view(r@) == steps_view(v@),
{
    let mut r: Vec<TransformAction> = Vec::new();
    let mut i: usize = 0;
    while i < v.len()
        invariant
            i <= v.len(),
            r@.len() == i,
            forall|j: int| 0 <= j < i ==> (#[trigger] r@[j])@ == v@[j]@,
        decreases v.len() - i,
    {
        r.push(v[i].clone());
        i += 1;
    }
    assert(steps_view(r@) =~= steps_view(v@));
    r
}

} // verus!

//! The log collector: sources feed entries through an ordered processor chain
//! into every configured exporter.

pub mod cache;
pub mod clock;
pub mod cloud;
pub mod config;
pub mod encoding;
pub mod entry;
pub mod exporters;
pub mod filter;
pub mod paths;
pub mod pattern;
pub mod pipeline;
pub mod processors;
pub mod receiver;
pub mod resource;
pub mod sources;
pub mod store;
pub mod tail;
pub mod transform;
pub mod wire;

use crate::collector::clock::Clock;
use crate::collector::config::CollectorConfig;
use crate::collector::exporters::{key_files_view, ExportAction, ExporterError, KeyFile};
use crate::collector::pipeline::{start_planned, stop_planned, Pipeline, PipelineError};
use crate::collector::sources::SourceTask;
use vstd::prelude::*;

verus! {

/// Collects, processes and exports logs: the face that the process sees of
/// the pipeline.
pub struct LogCollector {
    pipeline: Pipeline,
}

impl LogCollector {
    /// The pipeline behind the collector.
    pub closed spec fn spec_pipeline(self) -> Pipeline {
        self.pipeline
    }

    /// Makes a stopped collector from its configuration.
    pub fn new(config: CollectorConfig) -> (r: Result<LogCollector, PipelineError>)
        ensures
            r matches Ok(c) && !c.spec_pipeline().is_running() && c.spec_pipeline().spec_config()
                == config,
    {
        match Pipeline::new(config) {
            Ok(pipeline) => Ok(LogCollector { pipeline }),
            Err(e) => Err(e),
        }
    }

    /// Starts the pipeline, as `Pipeline::start` does.
    pub fn start(&mut self, key_files: &Vec<KeyFile>, now: Clock) -> (r: Result<
        Vec<SourceTask>,
        PipelineError,
    >)
        ensures
            r is Err ==> *final(self) == *old(self),
            start_planned(
                old(self).spec_pipeline(),
                final(self).spec_pipeline(),
                key_files_view(key_files@),
                now,
                r,
            ),
    {
        self.pipeline.start(key_files, now)
    }

    /// Stops the pipeline, as `Pipeline::stop` does.
    pub fn stop(&mut self) -> (r: Result<Vec<Result<ExportAction, ExporterError>>, PipelineError>)
        ensures
            r is Err ==> *final(self) == *old(self),
            stop_planned(old(self).spec_pipeline(), final(self).spec_pipeline(), r),
    {
        self.pipeline.stop()
    }

    /// The pipeline, to hand entries to.
    pub fn pipeline(&self) -> (p: &Pipeline)
        ensures
            *p == self.spec_pipeline(),
    {
        &self.pipeline
    }

    /// The pipeline, to hand entries to.
    pub fn pipeline_mut(&mut self) -> (p: &mut Pipeline)
        ensures
            *p == old(self).spec_pipeline(),
            *final(p) == final(self).spec_pipeline(),
    {
        &mut self.pipeline
    }
}

} // verus!

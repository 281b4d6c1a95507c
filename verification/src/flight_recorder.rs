//! The flight recorder of a runtime: records spans and writes them out as a
//! Perfetto trace on demand.
use std::sync::Arc;
use vstd::prelude::*;

use crate::backend::perfetto::{lemma_are_slices, trace_bytes, trace_packets, PerfettoReporter};
use crate::config::Config;
use crate::span::RawSpan;
use crate::span_queue::{all_flushed, are_descriptors, has_non_slice, unflushed, DescriptorTable};
use crate::{empty_queues, Tracer};

verus! {

/// Flight recorder implementation powered by perfetto tracing library.
#[derive(Debug)]
pub struct PerfettoFlightRecorder {
    config: Config,
}

impl PerfettoFlightRecorder {
    /// The configuration that tracing is initialized with.
    pub closed spec fn spec_config(&self) -> Config {
        self.config
    }

    /// Create a new instance of `PerfettoFlightRecorder`.
    pub fn new() -> (res: Self)
        ensures
            res.spec_config().spec_sleep_duration() is None,
            res.spec_config().spec_num_shard() is None,
    {
        Self { config: Config::new() }
    }

    /// Initialize flight recorder: the tracing state, per its configuration.
    pub fn initialize(&self) -> (res: Tracer)
        ensures
            !res.spec_enabled(),
            res.shard_num() == match self.spec_config().spec_num_shard() {
                Some(n) => n,
                None => crate::DEFAULT_NUM_SHARD,
            },
            res.queues() == empty_queues(res.shard_num()),
            res.sent() == Seq::<RawSpan>::empty(),
    {
        crate::initialize(&self.config)
    }

    /// Start flight recorder
    pub fn start(&self, tracer: &mut Tracer)
        ensures
            final(tracer).spec_enabled(),
            final(tracer).queues() == old(tracer).queues(),
            final(tracer).sent() == old(tracer).sent(),
            final(tracer).shard_num() == old(tracer).shard_num(),
    {
        crate::start(tracer);
    }

    /// Stop flight recorder; the spans the consumer holds are handed over.
    pub fn stop(&self, tracer: &mut Tracer) -> (res: Vec<RawSpan>)
        ensures
            !final(tracer).spec_enabled(),
            final(tracer).queues() == old(tracer).queues(),
            final(tracer).sent() == Seq::<RawSpan>::empty(),
            res@ == old(tracer).sent(),
            final(tracer).shard_num() == old(tracer).shard_num(),
    {
        crate::stop(tracer)
    }

    /// The current trace: the descriptors not yet written out and every
    /// pending span (see [`crate::flush`]), encoded by `reporter`.
    pub fn flush_trace(
        &self,
        tracer: &mut Tracer,
        descriptors: &mut DescriptorTable,
        reporter: &PerfettoReporter,
    ) -> (res: Vec<u8>)
        requires
            are_descriptors(unflushed(old(descriptors).entries())),
            !has_non_slice(old(tracer).pending()),
        ensures
            final(tracer).spec_enabled(),
            final(tracer).shard_num() == old(tracer).shard_num(),
            final(tracer).queues() == empty_queues(old(tracer).shard_num()),
            final(tracer).sent() == Seq::<RawSpan>::empty(),
            final(descriptors).well_formed(),
            res@ == trace_bytes(
                trace_packets(
                    reporter.spec_pid(),
                    unflushed(old(descriptors).entries()),
                    old(tracer).pending(),
                ),
            ),
            final(descriptors).entries() == all_flushed(old(descriptors).entries()),
    {
        let spans = crate::flush(tracer);
        proof {
            lemma_are_slices(old(tracer).pending());
        }
        reporter.consume(&spans, descriptors)
    }
}

/// A handle to the flight recorder.
#[derive(Debug, Clone)]
pub struct Handle {
    pub(crate) flight_recorder: Arc<PerfettoFlightRecorder>,
}

impl Handle {
    /// The recorder behind this handle.
    pub closed spec fn recorder(&self) -> PerfettoFlightRecorder {
        *self.flight_recorder
    }

    /// Create a new flight recorder handle.
    pub fn new() -> (res: Self)
        ensures
            res.recorder().spec_config().spec_sleep_duration() is None,
            res.recorder().spec_config().spec_num_shard() is None,
    {
        Self { flight_recorder: Arc::new(PerfettoFlightRecorder::new()) }
    }

    /// Initialize the flight recorder.
    pub fn initialize(&self) -> (res: Tracer)
        ensures
            !res.spec_enabled(),
            res.shard_num() == match self.recorder().spec_config().spec_num_shard() {
                Some(n) => n,
                None => crate::DEFAULT_NUM_SHARD,
            },
            res.queues() == empty_queues(res.shard_num()),
            res.sent() == Seq::<RawSpan>::empty(),
    {
        self.flight_recorder.initialize()
    }

    /// Start the flight recorder.
    pub fn start(&self, tracer: &mut Tracer)
        ensures
            final(tracer).spec_enabled(),
            final(tracer).queues() == old(tracer).queues(),
            final(tracer).sent() == old(tracer).sent(),
            final(tracer).shard_num() == old(tracer).shard_num(),
    {
        self.flight_recorder.start(tracer);
    }

    /// Stop the flight recorder; the spans the consumer holds are handed over.
    pub fn stop(&self, tracer: &mut Tracer) -> (res: Vec<RawSpan>)
        ensures
            !final(tracer).spec_enabled(),
            final(tracer).queues() == old(tracer).queues(),
            final(tracer).sent() == Seq::<RawSpan>::empty(),
            res@ == old(tracer).sent(),
            final(tracer).shard_num() == old(tracer).shard_num(),
    {
        self.flight_recorder.stop(tracer)
    }

    /// The current trace, encoded (see [`PerfettoFlightRecorder::flush_trace`]).
    pub fn flush_trace(
        &self,
        tracer: &mut Tracer,
        descriptors: &mut DescriptorTable,
        reporter: &PerfettoReporter,
    ) -> (res: Vec<u8>)
        requires
            are_descriptors(unflushed(old(descriptors).entries())),
            !has_non_slice(old(tracer).pending()),
        ensures
            final(tracer).spec_enabled(),
            final(tracer).shard_num() == old(tracer).shard_num(),
            final(tracer).queues() == empty_queues(old(tracer).shard_num()),
            final(tracer).sent() == Seq::<RawSpan>::empty(),
            final(descriptors).well_formed(),
            res@ == trace_bytes(
                trace_packets(
                    reporter.spec_pid(),
                    unflushed(old(descriptors).entries()),
                    old(tracer).pending(),
                ),
            ),
            final(descriptors).entries() == all_flushed(old(descriptors).entries()),
    {
        self.flight_recorder.flush_trace(tracer, descriptors, reporter)
    }
}

} // verus!

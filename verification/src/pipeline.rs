//! The decisions of the capture and detection pipeline's lifecycle. The detector itself,
//! its worker threads and its sources are the driver's.

use vstd::prelude::*;
use crate::text::{bool_text, push_bool};
use crate::errors::{BindingError, ErrorKind, pipeline_closed_error, pipeline_uninitialized_error};

verus! {

/// The directory models are looked for in: the one given, or `models`.
pub fn models_dir(given: Option<String>) -> (dir: String)
    ensures
        dir@ == (match given {
            Some(d) => d@,
            None => "models"@,
        }),
{
    match given {
        Some(d) => d,
        None => String::from_str("models"),
    }
}

/// The lifecycle of a pipeline: whether it holds a detector, and whether it started it.
#[derive(Clone, Copy, Debug, PartialEq, Eq, Structural)]
pub struct PipelineState {
    pub has_detector: bool,
    pub started: bool,
}

/// What a stop does: whether it stops the detector, and the state after it. The detector is
/// stopped only when there is one and it was started; then the pipeline is no longer started.
pub open spec fn stop_outcome(s: PipelineState) -> (bool, PipelineState) {
    if s.has_detector && s.started {
        (true, PipelineState { has_detector: true, started: false })
    } else {
        (false, s)
    }
}

impl PipelineState {
    /// A pipeline whose detector was just built: not started.
    pub fn new() -> (s: PipelineState)
        ensures
            s == (PipelineState { has_detector: true, started: false }),
    {
        PipelineState { has_detector: true, started: false }
    }

    /// Whether a start may go ahead: an error when there is no detector.
    pub fn check_start(&self) -> (r: Result<(), BindingError>)
        ensures
            self.has_detector <==> r is Ok,
            r matches Err(e) ==> e.kind == ErrorKind::Runtime && e.message@
                == "Pipeline detector is uninitialized or closed"@,
    {
        if self.has_detector {
            Ok(())
        } else {
            Err(pipeline_closed_error())
        }
    }

    /// Notes that the detector was started.
    pub fn mark_started(&mut self)
        requires
            old(self).has_detector,
        ensures
            *final(self) == (PipelineState { has_detector: true, started: true }),
    {
        self.started = true;
    }

    /// Whether a configuration update may go ahead: an error when there is no detector.
    pub fn check_update(&self) -> (r: Result<(), BindingError>)
        ensures
            self.has_detector <==> r is Ok,
            r matches Err(e) ==> e.kind == ErrorKind::Runtime && e.message@
                == "Pipeline detector is uninitialized"@,
    {
        if self.has_detector {
            Ok(())
        } else {
            Err(pipeline_uninitialized_error())
        }
    }

    /// Stops the pipeline; the result says whether the detector is to be stopped.
    pub fn stop(&mut self) -> (stop_detector: bool)
        ensures
            (stop_detector, *final(self)) == stop_outcome(*old(self)),
    {
        if self.has_detector && self.started {
            self.started = false;
            true
        } else {
            false
        }
    }

    /// Whether the pipeline runs, given whether its detector's workers run.
    pub fn is_running(&self, workers_running: bool) -> (b: bool)
        ensures
            b == (self.has_detector && workers_running),
    {
        self.has_detector && workers_running
    }
}

/// The text that describes a pipeline: whether it runs.
pub open spec fn pipeline_repr(running: bool) -> Seq<char> {
    "Pipeline(running="@ + bool_text(running) + ")"@
}

/// A pipeline is described as `Pipeline(running=true)` exactly when it runs, and as
/// `Pipeline(running=false)` otherwise.
pub proof fn law_pipeline_repr(running: bool)
    ensures
        running ==> pipeline_repr(running) == "Pipeline(running="@ + "true"@ + ")"@,
        !running ==> pipeline_repr(running) == "Pipeline(running="@ + "false"@ + ")"@,
{
}

/// A description of a pipeline that runs or not.
pub fn pipeline_text(running: bool) -> (s: String)
    ensures
        s@ == pipeline_repr(running),
{
    let mut s = String::from_str("Pipeline(running=");
    push_bool(&mut s, running);
    s.append(")");
    s
}

/// A stop never removes the detector, and leaves a pipeline with a detector not started:
/// whatever could be started or configured before a stop can be after it.
pub proof fn law_stop_keeps_detector(s: PipelineState)
    ensures
        stop_outcome(s).1.has_detector == s.has_detector,
        s.has_detector ==> !stop_outcome(s).1.started,
        stop_outcome(s).0 <==> (s.has_detector && s.started),
{
}

/// Stopping twice is stopping once: the second stop leaves the detector alone and the state
/// as it was.
pub proof fn law_stop_idempotent(s: PipelineState)
    ensures
        !stop_outcome(stop_outcome(s).1).0,
        stop_outcome(stop_outcome(s).1).1 == stop_outcome(s).1,
{
}

/// A started pipeline is stopped exactly once: its first stop stops the detector.
pub proof fn law_started_pipeline_stops(s: PipelineState)
    requires
        s.has_detector,
        s.started,
    ensures
        stop_outcome(s).0,
        !stop_outcome(s).1.started,
{
}

} // verus!

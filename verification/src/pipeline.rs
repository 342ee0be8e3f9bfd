//! The pipeline coordinator: it owns the currently active rendering pipeline
//! (or none, before the first successful build) and decides how the outcome
//! of a rebuild changes it. A successful build replaces the pipeline as one
//! unit; a failed build leaves the previous pipeline untouched and records
//! the failure, so rendering continues uninterrupted.
//!
//! The pipeline itself is whatever the graphics layer built — the coordinator
//! is generic over it and never looks inside.

use crate::shader::{LoadShaderError, LoadShaderErrorKind};
use vstd::prelude::*;

verus! {

/// Owns the active pipeline and the record of the last failed rebuild.
pub struct PipelineCoordinator<P> {
    pipeline: Option<P>,
    last_error: Option<LoadShaderErrorKind>,
}

impl<P> PipelineCoordinator<P> {
    /// The pipeline rendering may use: the most recently built one, or none
    /// if no build has ever succeeded.
    pub closed spec fn spec_pipeline(&self) -> Option<P> {
        self.pipeline
    }

    /// What the most recent rebuild reported, if it failed; reset by a
    /// successful rebuild.
    pub closed spec fn spec_last_error(&self) -> Option<LoadShaderErrorKind> {
        self.last_error
    }

    /// A coordinator with no pipeline yet: nothing has been built.
    pub fn new() -> (r: Self)
        ensures
            r.spec_pipeline() is None,
            r.spec_last_error() is None,
    {
        PipelineCoordinator { pipeline: None, last_error: None }
    }

    /// Record the outcome of a rebuild. A new pipeline replaces the current
    /// one wholesale and clears the failure record; a failure leaves the
    /// current pipeline exactly as it was, records what failed, and hands
    /// the error back to the caller.
    pub fn rebuild_with(&mut self, outcome: Result<P, LoadShaderError>) -> (r: Result<
        (),
        LoadShaderError,
    >)
        ensures
            outcome is Ok ==> final(self).spec_pipeline() == Some(outcome->Ok_0)
                && final(self).spec_last_error() is None && r is Ok,
            outcome is Err ==> final(self).spec_pipeline() == old(self).spec_pipeline()
                && final(self).spec_last_error() == Some(outcome->Err_0.spec_kind()) && (
            r matches Err(e) && e == outcome->Err_0),
    {
        match outcome {
            Ok(p) => {
                self.pipeline = Some(p);
                self.last_error = None;
                Ok(())
            },
            Err(e) => {
                self.last_error = Some(e.kind());
                Err(e)
            },
        }
    }

    /// The pipeline rendering may use, or `None` if no build has ever
    /// succeeded — the draw step then skips the draw call.
    pub fn current_pipeline(&self) -> (r: Option<&P>)
        ensures
            r is Some <==> self.spec_pipeline() is Some,
            r matches Some(p) ==> self.spec_pipeline() == Some(*p),
    {
        self.pipeline.as_ref()
    }

    /// What the most recent rebuild reported, if it failed.
    pub fn last_error(&self) -> (r: Option<LoadShaderErrorKind>)
        ensures
            r == self.spec_last_error(),
    {
        self.last_error
    }
}

/// The pipeline that remains after a sequence of rebuild outcomes, oldest
/// first, starting from `cur`: each success installs its pipeline, each
/// failure changes nothing.
pub open spec fn pipeline_after<P>(
    cur: Option<P>,
    outcomes: Seq<Result<P, LoadShaderErrorKind>>,
) -> Option<P>
    decreases outcomes.len(),
{
    if outcomes.len() == 0 {
        cur
    } else {
        let next = match outcomes.first() {
            Ok(p) => Some(p),
            Err(_) => cur,
        };
        pipeline_after(next, outcomes.drop_first())
    }
}

/// Law: once any build has succeeded, no sequence of later rebuild outcomes
/// — however many of them fail — leaves the coordinator without a usable
/// pipeline.
pub proof fn lemma_usable_pipeline_is_never_lost<P>(
    cur: Option<P>,
    outcomes: Seq<Result<P, LoadShaderErrorKind>>,
)
    requires
        cur is Some,
    ensures
        pipeline_after(cur, outcomes) is Some,
    decreases outcomes.len(),
{
    if outcomes.len() > 0 {
        let next = match outcomes.first() {
            Ok(p) => Some(p),
            Err(_) => cur,
        };
        lemma_usable_pipeline_is_never_lost(next, outcomes.drop_first());
    }
}

} // verus!

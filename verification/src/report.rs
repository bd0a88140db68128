//! Turning a pipeline result into the one outcome message sent back to the
//! orchestrator.
use vstd::prelude::*;
use crate::collect::Collectable;
use crate::pipeline::{PipelineError, RunOutput};

verus! {

/// The outcome reported for a build task: exactly one of the two, always
/// carrying whatever collectables the pipeline produced before finishing
/// or failing.
pub enum Outcome {
    Succeeded { task_id: u64, collectables: Vec<Collectable> },
    Failed { task_id: u64, collectables: Vec<Collectable> },
}

/// Wraps the pipeline's result into the outcome to deliver: success with
/// its collectables when the pipeline finished and the builder succeeded;
/// failure with the produced collectables when the builder failed; failure
/// with no collectables when the pipeline aborted on an infrastructure
/// error.
pub fn outcome_of(task_id: u64, result: Result<RunOutput, PipelineError>) -> (r: Outcome)
    ensures
        match result {
            Ok(out) => if out.builder_failed {
                r matches Outcome::Failed { task_id: t, collectables: cs } && t == task_id && cs
                    == out.collectables
            } else {
                r matches Outcome::Succeeded { task_id: t, collectables: cs } && t == task_id && cs
                    == out.collectables
            },
            Err(_) => r matches Outcome::Failed { task_id: t, collectables: cs } && t == task_id
                && cs@ == Seq::<Collectable>::empty(),
        },
{
    match result {
        Ok(out) => {
            if out.builder_failed {
                Outcome::Failed { task_id, collectables: out.collectables }
            } else {
                Outcome::Succeeded { task_id, collectables: out.collectables }
            }
        },
        Err(_) => Outcome::Failed { task_id, collectables: Vec::new() },
    }
}

} // verus!

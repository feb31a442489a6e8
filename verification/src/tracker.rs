use vstd::prelude::*;

use crate::types::{ProjectError, SubmissionOutcome};

verus! {

/// The terminal outcome that one transport report resolves to.
pub open spec fn spec_conclude_submission(report: Result<String, String>) -> SubmissionOutcome {
    match report {
        Ok(block_ref) => SubmissionOutcome::Included { block_ref },
        Err(cause) => SubmissionOutcome::Failed { cause },
    }
}

/// The action's result for a terminal outcome: inclusion succeeds, and a
/// failure surfaces the transport's diagnostic verbatim as `Submit`.
pub open spec fn spec_submission_result(dao_id: u64, outcome: SubmissionOutcome) -> Result<
    (),
    ProjectError,
> {
    match outcome {
        SubmissionOutcome::Included { .. } => Ok(()),
        SubmissionOutcome::Failed { cause } => Err(
            ProjectError::Submit { dao_id, diagnostic: cause },
        ),
    }
}

/// The action's result for a delegated call: whatever the governance
/// collaborator reported, failures quoted verbatim.
pub open spec fn spec_conclude_delegation(dao_id: u64, outcome: Result<(), String>) -> Result<
    (),
    ProjectError,
> {
    match outcome {
        Ok(_) => Ok(()),
        Err(reason) => Err(ProjectError::Governance { dao_id, reason }),
    }
}

/// SubmissionTracker: translate the transport's terminal report — the block
/// reference of an included transaction, or its diagnostic for a definitive
/// failure — into the submission's outcome. Nothing is retried or discarded.
pub fn conclude_submission(report: Result<String, String>) -> (o: SubmissionOutcome)
    ensures
        o == spec_conclude_submission(report),
{
    match report {
        Ok(block_ref) => SubmissionOutcome::Included { block_ref },
        Err(cause) => SubmissionOutcome::Failed { cause },
    }
}

/// Fold a terminal outcome into the action's result type.
pub fn submission_result(dao_id: u64, outcome: SubmissionOutcome) -> (r: Result<(), ProjectError>)
    ensures
        r == spec_submission_result(dao_id, outcome),
{
    match outcome {
        SubmissionOutcome::Included { block_ref: _ } => Ok(()),
        SubmissionOutcome::Failed { cause } => Err(
            ProjectError::Submit { dao_id, diagnostic: cause },
        ),
    }
}

/// Governed path: fold the governance collaborator's report into the
/// action's result type.
pub fn conclude_delegation(dao_id: u64, outcome: Result<(), String>) -> (r: Result<
    (),
    ProjectError,
>)
    ensures
        r == spec_conclude_delegation(dao_id, outcome),
{
    match outcome {
        Ok(_) => Ok(()),
        Err(reason) => Err(ProjectError::Governance { dao_id, reason }),
    }
}

/// Law: the diagnostic of a failed submission reaches the caller verbatim —
/// a transport failure with message `m` concludes in a `Submit` error that
/// carries exactly `m`.
pub proof fn lemma_submit_diagnostic_verbatim(dao_id: u64, m: String)
    ensures
        spec_submission_result(dao_id, spec_conclude_submission(Err(m))) == Err::<(), ProjectError>(
            ProjectError::Submit { dao_id, diagnostic: m },
        ),
{
}

} // verus!

//! The status that a pass records once the completion provider has
//! answered.

use crate::crd::{AiOperator, AiOperatorStatus, AiOperatorStatusView};
use crate::error::{AiOperatorError, AiOperatorErrorView};
use crate::fingerprint::{create_hash, fingerprint};
use vstd::prelude::*;
use vstd::string::*;

verus! {

/// What `last_backup` holds while no backup was taken.
pub const NO_BACKUP: &'static str = "N/A";

/// The status written after an answer: the answer, the fingerprint of what
/// was asked, and every other field at its initial value.
pub open spec fn fresh_status(state_hash: Seq<char>, answer: Seq<char>) -> AiOperatorStatusView {
    AiOperatorStatusView {
        installed: false,
        configured: 0,
        maintenance: false,
        waiting: false,
        last_backup: NO_BACKUP@,
        answer: Some(answer),
        state_hash,
    }
}

/// What the completion provider returned, as plain values.
pub open spec fn completion_view(outcome: Result<String, String>) -> Result<Seq<char>, Seq<char>> {
    match outcome {
        Ok(answer) => Ok(answer@),
        Err(reason) => Err(reason@),
    }
}

/// Builds the status to record for `aiop` from the outcome of the
/// completion call. An answer gives a status that carries it, together with
/// the resource's current fingerprint. A failure gives the error and no
/// status at all, so that nothing is written for a call that did not
/// succeed.
pub fn apply(aiop: &AiOperator, outcome: Result<String, String>) -> (result: Result<
    AiOperatorStatus,
    AiOperatorError,
>)
    ensures
        match completion_view(outcome) {
            Ok(answer) => result matches Ok(status) && status@ == fresh_status(
                fingerprint(aiop@.name, aiop@.prompt),
                answer,
            ),
            Err(reason) => result matches Err(error) && error@
                == AiOperatorErrorView::CompletionError(reason),
        },
{
    match outcome {
        Ok(answer) => {
            let state_hash = create_hash(aiop.name.as_str(), aiop.spec.prompt.clone());
            Ok(
                AiOperatorStatus {
                    installed: false,
                    configured: 0,
                    maintenance: false,
                    waiting: false,
                    last_backup: String::from_str(NO_BACKUP),
                    answer: Some(answer),
                    state_hash,
                },
            )
        },
        Err(reason) => Err(AiOperatorError::CompletionError(reason)),
    }
}

} // verus!

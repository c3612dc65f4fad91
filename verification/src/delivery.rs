//! How a delivery from the alert queue is settled with the broker.

use crate::processing::{OutcomeModel, ProcessOutcome};
use vstd::prelude::*;

verus! {

/// The answer given to the broker for one delivery.
#[derive(Debug, Clone, Copy, PartialEq, Eq)]
pub enum Settlement {
    /// Acknowledge the delivery alone.
    Ack { multiple: bool },
    /// Reject the delivery; `requeue` says whether the broker delivers it again.
    Reject { requeue: bool },
    /// Negatively acknowledge the delivery; `requeue` says whether it is delivered again.
    Nack { multiple: bool, requeue: bool },
}

/// The settlement owed to a delivery: `None` stands for a message that is not a valid
/// alert, `Some` for the outcome of processing the alert that it holds.
pub open spec fn settlement_spec(outcome: Option<OutcomeModel>) -> Settlement {
    match outcome {
        None => Settlement::Reject { requeue: false },
        Some(OutcomeModel::Processed(_)) => Settlement::Ack { multiple: false },
        Some(OutcomeModel::Duplicate) => Settlement::Ack { multiple: false },
        Some(OutcomeModel::Failed(_)) => Settlement::Nack { multiple: false, requeue: true },
    }
}

/// Whether the broker will deliver the message again after `s`.
pub open spec fn redelivered(s: Settlement) -> bool {
    match s {
        Settlement::Ack { .. } => false,
        Settlement::Reject { requeue } => requeue,
        Settlement::Nack { requeue, .. } => requeue,
    }
}

/// The model of an optional processing outcome.
pub open spec fn opt_outcome_view(outcome: Option<&ProcessOutcome>) -> Option<OutcomeModel> {
    match outcome {
        Some(o) => Some(o@),
        None => None,
    }
}

/// A message that is not a valid alert is rejected for good; an alert that was
/// processed, or had been already, is acknowledged; an alert whose processing failed is
/// handed back to the queue to be tried again.
pub fn settle_delivery(outcome: Option<&ProcessOutcome>) -> (res: Settlement)
    ensures
        res == settlement_spec(opt_outcome_view(outcome)),
{
    match outcome {
        None => Settlement::Reject { requeue: false },
        Some(ProcessOutcome::Processed { .. }) => Settlement::Ack { multiple: false },
        Some(ProcessOutcome::Duplicate) => Settlement::Ack { multiple: false },
        Some(ProcessOutcome::Failed { .. }) => Settlement::Nack { multiple: false, requeue: true },
    }
}

/// Each outcome is settled in its own way, whatever text it carries: a processed alert
/// and a duplicate are acknowledged alone, a message that is not an alert is rejected
/// without being requeued, and a failed alert is negatively acknowledged alone and
/// requeued.
pub proof fn lemma_settlement_of_each_outcome(path: Seq<char>, error: Seq<char>)
    ensures
        settlement_spec(Some(OutcomeModel::Processed(path))) == (Settlement::Ack {
            multiple: false,
        }),
        settlement_spec(Some(OutcomeModel::Duplicate)) == (Settlement::Ack { multiple: false }),
        settlement_spec(None) == (Settlement::Reject { requeue: false }),
        settlement_spec(Some(OutcomeModel::Failed(error))) == (Settlement::Nack {
            multiple: false,
            requeue: true,
        }),
{
}

/// A delivery comes back from the broker exactly when processing its alert failed:
/// invalid messages are never redelivered, and neither are processed or duplicate alerts.
pub proof fn lemma_redelivered_iff_failed(outcome: Option<OutcomeModel>)
    ensures
        redelivered(settlement_spec(outcome)) <==> (outcome matches Some(OutcomeModel::Failed(_))),
{
}

} // verus!

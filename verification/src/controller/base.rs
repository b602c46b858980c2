//! The control loop that drives a controller: on each tick every stored
//! descriptor of the controller's kind is reconciled once.

use vstd::prelude::*;
use vstd::string::*;
use crate::controller::error::ControllerReconciliationError;
use crate::controller::error::ControllerReconciliationErrorView;
use crate::deployment_state_store::state_after;
use crate::deployment_state_store::DeploymentInfo;
use crate::deployment_state_store::DeploymentInfoView;
use crate::deployment_state_store::DeploymentState;
use crate::text::join;

verus! {

/// The time between two ticks of a control loop, in milliseconds.
pub const RECONCILE_INTERVAL_MILLIS: u64 = 5000;

/// How loud a log line is.
#[derive(Clone, Copy, Debug, PartialEq, Eq, Structural)]
pub enum LogLevel {
    Info,
    Error,
}

/// What came of reconciling one descriptor.
#[derive(Clone, Debug, PartialEq, Eq)]
pub enum ReconcileOutcome {
    Done,
    /// The controller said why it failed.
    Failed(ControllerReconciliationError),
    /// Something else failed; the text says what.
    Unclassified(String),
}

/// A reconcile outcome as a mathematical value.
pub ghost enum ReconcileOutcomeView {
    Done,
    Failed(ControllerReconciliationErrorView),
    Unclassified(Seq<char>),
}

impl View for ReconcileOutcome {
    type V = ReconcileOutcomeView;

    open spec fn view(&self) -> ReconcileOutcomeView {
        match self {
            ReconcileOutcome::Done => ReconcileOutcomeView::Done,
            ReconcileOutcome::Failed(error) => ReconcileOutcomeView::Failed(error@),
            ReconcileOutcome::Unclassified(cause) => ReconcileOutcomeView::Unclassified(cause@),
        }
    }
}

/// How loud the log line for an outcome is: none for a success, `Info` for
/// a missing dependency, which the next tick tries again, and `Error` for
/// anything else.
pub open spec fn log_level(outcome: ReconcileOutcomeView) -> Option<LogLevel> {
    match outcome {
        ReconcileOutcomeView::Done => None,
        ReconcileOutcomeView::Failed(ControllerReconciliationErrorView::DependencyMissing(_)) =>
            Some(LogLevel::Info),
        ReconcileOutcomeView::Failed(_) => Some(LogLevel::Error),
        ReconcileOutcomeView::Unclassified(_) => Some(LogLevel::Error),
    }
}

/// The description of a failure that the controller did not classify.
pub open spec fn unclassified_message(cause: Seq<char>) -> Seq<char> {
    "unclassified error: "@ + cause
}

/// The deployment state to write after an outcome, if any: `Succeeded`
/// after a success, `Failed` with the reason after any failure but a
/// missing dependency, and nothing after a missing dependency: the
/// descriptor then stays as it is until the dependency is there.
pub open spec fn state_for(outcome: ReconcileOutcomeView) -> Option<DeploymentInfoView> {
    match outcome {
        ReconcileOutcomeView::Done => state_after(None),
        ReconcileOutcomeView::Failed(error) => state_after(Some(error)),
        ReconcileOutcomeView::Unclassified(cause) => Some(
            DeploymentInfoView {
                state: DeploymentState::Failed,
                description: Some(unclassified_message(cause)),
            },
        ),
    }
}

impl ReconcileOutcome {
    /// Reads what a reconciliation returned.
    pub fn from_result(result: Result<(), ControllerReconciliationError>) -> (r: ReconcileOutcome)
        ensures
            result is Ok ==> r@ == ReconcileOutcomeView::Done,
            result matches Err(e) ==> r@ == ReconcileOutcomeView::Failed(e@),
    {
        match result {
            Ok(_) => ReconcileOutcome::Done,
            Err(error) => ReconcileOutcome::Failed(error),
        }
    }

    /// The deployment state to write after this outcome, if any.
    pub fn deployment_info(&self) -> (r: Option<DeploymentInfo>)
        ensures
            r.deep_view() == state_for(self@),
            r matches Some(info) ==> info@.well_formed() && info.state.terminal(),
    {
        match self {
            ReconcileOutcome::Done => Some(DeploymentInfo::succeeded()),
            ReconcileOutcome::Failed(ControllerReconciliationError::DependencyMissing(_)) => None,
            ReconcileOutcome::Failed(error) => Some(DeploymentInfo::failed(error)),
            ReconcileOutcome::Unclassified(cause) => {
                proof {
                    reveal_strlit("unclassified error: ");
                }
                Some(
                    DeploymentInfo {
                        state: DeploymentState::Failed,
                        description: Some(join("unclassified error: ", cause.as_str())),
                    },
                )
            },
        }
    }
}

/// One tick of a control loop over `total` descriptors, of which
/// `position` have been reconciled.
#[derive(Clone, Copy, Debug, PartialEq, Eq, Structural)]
pub struct Tick {
    pub total: usize,
    pub position: usize,
}

impl Tick {
    /// Whether the tick has reconciled no more descriptors than there are.
    pub open spec fn well_formed(self) -> bool {
        self.position <= self.total
    }

    /// Whether every descriptor has been reconciled.
    pub open spec fn complete(self) -> bool {
        self.position == self.total
    }

    /// The tick after `n` more outcomes were recorded.
    pub open spec fn advanced(self, n: nat) -> Tick {
        Tick { total: self.total, position: (self.position + n) as usize }
    }

    /// Starts a tick over the `total` descriptors that were listed.
    pub fn begin(total: usize) -> (r: Tick)
        ensures
            r == (Tick { total, position: 0 }),
            r.well_formed(),
    {
        Tick { total, position: 0 }
    }

    /// The index of the descriptor to reconcile next, or `None` when
    /// nothing is left.
    pub fn current(&self) -> (r: Option<usize>)
        ensures
            r == if self.position < self.total {
                Some(self.position)
            } else {
                None
            },
    {
        if self.position < self.total {
            Some(self.position)
        } else {
            None
        }
    }

    /// Records the outcome for the current descriptor and moves on to the
    /// next, whatever the outcome was. The result is how loud to log it.
    /// Where nothing is left to reconcile, the tick stays as it is.
    pub fn record(&mut self, outcome: &ReconcileOutcome) -> (r: Option<LogLevel>)
        ensures
            *final(self) == if old(self).position < old(self).total {
                old(self).advanced(1)
            } else {
                *old(self)
            },
            old(self).well_formed() ==> final(self).well_formed(),
            r == log_level(outcome@),
    {
        if self.position < self.total {
            self.position = self.position + 1;
        }
        match outcome {
            ReconcileOutcome::Done => None,
            ReconcileOutcome::Failed(ControllerReconciliationError::DependencyMissing(_)) => Some(
                LogLevel::Info,
            ),
            ReconcileOutcome::Failed(_) => Some(LogLevel::Error),
            ReconcileOutcome::Unclassified(_) => Some(LogLevel::Error),
        }
    }

    /// Tells whether every descriptor has been reconciled.
    pub fn is_complete(&self) -> (r: bool)
        ensures
            r == self.complete(),
    {
        self.position == self.total
    }
}

/// What the loop does once a tick is over, given what the tick returned:
/// it logs and waits for the next tick. The result is how loud to log.
pub fn after_tick(result: &Result<(), String>) -> (r: LogLevel)
    ensures
        r == if result is Ok {
            LogLevel::Info
        } else {
            LogLevel::Error
        },
{
    match result {
        Ok(_) => LogLevel::Info,
        Err(_) => LogLevel::Error,
    }
}

/// No outcome stops a tick: after as many outcomes as there are
/// descriptors, whatever they are, the tick is complete, and before that
/// it is not.
pub proof fn lemma_tick_completes(total: usize, recorded: nat)
    requires
        recorded <= total,
    ensures
        (Tick { total, position: 0 }).advanced(recorded).well_formed(),
        (Tick { total, position: 0 }).advanced(recorded).complete() <==> recorded == total,
{
}

} // verus!

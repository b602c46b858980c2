//! The deployment state that is kept for each descriptor, and where it is
//! kept.

use vstd::prelude::*;
use vstd::string::*;
use crate::controller::error::ControllerReconciliationError;
use crate::controller::error::ControllerReconciliationErrorView;
use crate::text::join;

verus! {

/// How far the deployment of a descriptor has come.
#[derive(Clone, Copy, Debug, PartialEq, Eq, Structural)]
pub enum DeploymentState {
    /// Stored, not yet worked on.
    Pending,
    /// Being worked on.
    Deploying,
    /// The backends are in line with the descriptor.
    Succeeded,
    /// The last reconciliation failed for good.
    Failed,
    /// Nothing is known under this id.
    Unknown,
}

/// A deployment state and, where there is something to say, why.
#[derive(Clone, Debug, PartialEq, Eq)]
pub struct DeploymentInfo {
    pub state: DeploymentState,
    pub description: Option<String>,
}

/// A deployment info as a mathematical value.
pub ghost struct DeploymentInfoView {
    pub state: DeploymentState,
    pub description: Option<Seq<char>>,
}

impl View for DeploymentInfo {
    type V = DeploymentInfoView;

    open spec fn view(&self) -> DeploymentInfoView {
        DeploymentInfoView {
            state: self.state,
            description: match self.description {
                Some(text) => Some(text@),
                None => None,
            },
        }
    }
}

impl DeepView for DeploymentInfo {
    type V = DeploymentInfoView;

    open spec fn deep_view(&self) -> DeploymentInfoView {
        self.view()
    }
}

/// The key under which the state of the descriptor `id` is kept.
pub open spec fn state_key(id: Seq<char>) -> Seq<char> {
    "deployment-state/"@ + id
}

/// The state that a reconciliation leaves behind. A missing dependency
/// leaves the stored state as it is, since the next tick tries again.
pub open spec fn state_after(outcome: Option<ControllerReconciliationErrorView>) -> Option<
    DeploymentInfoView,
> {
    match outcome {
        None => Some(DeploymentInfoView { state: DeploymentState::Succeeded, description: None }),
        Some(ControllerReconciliationErrorView::DependencyMissing(_)) => None,
        Some(error) => Some(
            DeploymentInfoView {
                state: DeploymentState::Failed,
                description: Some(error.message()),
            },
        ),
    }
}

impl DeploymentState {
    /// Whether a deployment in state `self` may move to `next`. A deployment
    /// starts as `Pending`, may pass through `Deploying`, and ends as
    /// `Succeeded` or `Failed`. `Unknown` is never written: it is what a
    /// read of an unknown id gives.
    pub open spec fn may_become(self, next: DeploymentState) -> bool {
        match (self, next) {
            (DeploymentState::Pending, DeploymentState::Deploying) => true,
            (DeploymentState::Pending, DeploymentState::Succeeded) => true,
            (DeploymentState::Pending, DeploymentState::Failed) => true,
            (DeploymentState::Deploying, DeploymentState::Succeeded) => true,
            (DeploymentState::Deploying, DeploymentState::Failed) => true,
            _ => false,
        }
    }

    /// Whether no further move is possible.
    pub open spec fn terminal(self) -> bool {
        self == DeploymentState::Succeeded || self == DeploymentState::Failed
    }

    /// Tells whether a deployment in this state may move to `next`.
    pub fn can_become(&self, next: DeploymentState) -> (r: bool)
        ensures
            r == self.may_become(next),
    {
        match (*self, next) {
            (DeploymentState::Pending, DeploymentState::Deploying) => true,
            (DeploymentState::Pending, DeploymentState::Succeeded) => true,
            (DeploymentState::Pending, DeploymentState::Failed) => true,
            (DeploymentState::Deploying, DeploymentState::Succeeded) => true,
            (DeploymentState::Deploying, DeploymentState::Failed) => true,
            _ => false,
        }
    }

    /// Tells whether the deployment has ended.
    pub fn is_terminal(&self) -> (r: bool)
        ensures
            r == self.terminal(),
    {
        match self {
            DeploymentState::Succeeded => true,
            DeploymentState::Failed => true,
            _ => false,
        }
    }
}

impl DeploymentInfoView {
    /// A failed deployment says why it failed.
    pub open spec fn well_formed(self) -> bool {
        self.state == DeploymentState::Failed ==> self.description is Some
            && self.description->0.len() > 0
    }
}

impl DeploymentInfo {
    /// The info written when a descriptor is taken in.
    pub fn pending() -> (r: DeploymentInfo)
        ensures
            r@ == (DeploymentInfoView { state: DeploymentState::Pending, description: None }),
    {
        DeploymentInfo { state: DeploymentState::Pending, description: None }
    }

    /// The info written when a reconciliation has gone through.
    pub fn succeeded() -> (r: DeploymentInfo)
        ensures
            r@ == (DeploymentInfoView { state: DeploymentState::Succeeded, description: None }),
    {
        DeploymentInfo { state: DeploymentState::Succeeded, description: None }
    }

    /// The info written when a reconciliation has failed with `error`.
    pub fn failed(error: &ControllerReconciliationError) -> (r: DeploymentInfo)
        ensures
            r@ == (DeploymentInfoView {
                state: DeploymentState::Failed,
                description: Some(error@.message()),
            }),
            r@.well_formed(),
    {
        proof {
            error@.lemma_message_not_empty();
        }
        DeploymentInfo { state: DeploymentState::Failed, description: Some(error.message()) }
    }

    /// What a read of the store means: an id under which nothing is kept is
    /// in state `Unknown`.
    pub fn read(stored: Option<DeploymentInfo>) -> (r: DeploymentInfo)
        ensures
            stored matches Some(info) ==> r == info,
            stored is None ==> r@ == (DeploymentInfoView {
                state: DeploymentState::Unknown,
                description: None,
            }),
    {
        match stored {
            Some(info) => info,
            None => DeploymentInfo { state: DeploymentState::Unknown, description: None },
        }
    }

    /// Whatever a reconciliation leaves behind is a state that a pending or
    /// deploying descriptor may move to, and a failure comes with its reason.
    pub proof fn lemma_outcome_is_a_legal_move(
        outcome: Option<ControllerReconciliationErrorView>,
    )
        ensures
            state_after(outcome) matches Some(info) ==> {
                &&& DeploymentState::Pending.may_become(info.state)
                &&& DeploymentState::Deploying.may_become(info.state)
                &&& info.well_formed()
            },
            outcome is Some && !(outcome->0 is DependencyMissing) ==> state_after(outcome) is Some
                && state_after(outcome)->0.state == DeploymentState::Failed,
    {
        if outcome is Some {
            outcome->0.lemma_message_not_empty();
        }
    }
}

/// Writes the key under which the state of the descriptor `id` is kept.
pub fn state_key_for(id: &str) -> (r: String)
    ensures
        r@ == state_key(id@),
{
    join("deployment-state/", id)
}

} // verus!

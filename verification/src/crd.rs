//! The managed resource as the controller sees it, in plain values, and the
//! four actions a pass can call for.

use vstd::prelude::*;

verus! {

/// Desired state: the prompt to put to the completion provider.
#[derive(Clone, Debug, PartialEq, Eq)]
pub struct AiOperatorSpec {
    pub prompt: String,
}

/// Observed state, written by the controller alone.
#[derive(Clone, Debug, PartialEq, Eq)]
pub struct AiOperatorStatus {
    pub installed: bool,
    pub configured: usize,
    pub maintenance: bool,
    pub waiting: bool,
    pub last_backup: String,
    pub answer: Option<String>,
    pub state_hash: String,
}

pub struct AiOperatorStatusView {
    pub installed: bool,
    pub configured: usize,
    pub maintenance: bool,
    pub waiting: bool,
    pub last_backup: Seq<char>,
    pub answer: Option<Seq<char>>,
    pub state_hash: Seq<char>,
}

impl View for AiOperatorStatus {
    type V = AiOperatorStatusView;

    open spec fn view(&self) -> AiOperatorStatusView {
        AiOperatorStatusView {
            installed: self.installed,
            configured: self.configured,
            maintenance: self.maintenance,
            waiting: self.waiting,
            last_backup: self.last_backup@,
            answer: match self.answer {
                Some(answer) => Some(answer@),
                None => None,
            },
            state_hash: self.state_hash@,
        }
    }
}

/// One managed resource: its identity, what is asked of it, what was last
/// recorded of it, and the metadata that steers its lifecycle.
#[derive(Clone, Debug, PartialEq, Eq)]
pub struct AiOperator {
    /// Unique within the namespace.
    pub name: String,
    /// A resource without one cannot be reconciled.
    pub namespace: Option<String>,
    /// The deletion guards recorded on the resource.
    pub finalizers: Vec<String>,
    /// Set once removal was requested; the resource goes when its
    /// finalizers are gone.
    pub deletion_requested: bool,
    pub spec: AiOperatorSpec,
    pub status: Option<AiOperatorStatus>,
}

pub struct AiOperatorView {
    pub name: Seq<char>,
    pub namespace: Option<Seq<char>>,
    pub finalizers: Seq<Seq<char>>,
    pub deletion_requested: bool,
    pub prompt: Seq<char>,
    pub status: Option<AiOperatorStatusView>,
}

impl View for AiOperator {
    type V = AiOperatorView;

    open spec fn view(&self) -> AiOperatorView {
        AiOperatorView {
            name: self.name@,
            namespace: match self.namespace {
                Some(namespace) => Some(namespace@),
                None => None,
            },
            finalizers: self.finalizers.deep_view(),
            deletion_requested: self.deletion_requested,
            prompt: self.spec.prompt@,
            status: match self.status {
                Some(status) => Some(status@),
                None => None,
            },
        }
    }
}

/// What a reconciliation pass has to do for a resource. Exactly one applies.
#[derive(Clone, Copy, Debug, PartialEq, Eq, Structural)]
pub enum AiOperatorAction {
    /// The resource is new to the controller.
    Create,
    /// The resource changed since its fingerprint was last recorded.
    Update,
    /// Removal was requested.
    Delete,
    /// The resource is as it was recorded.
    NoOp,
}

} // verus!

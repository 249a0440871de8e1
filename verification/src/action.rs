//! Which action a resource calls for. The decision reads four things: whether
//! removal was requested, whether the controller's finalizer is set, and the
//! recorded and the current fingerprint.

use crate::annotations::{previous_fingerprint, recorded_fingerprint, snapshot_view, AnnotationSnapshot};
use crate::crd::{AiOperator, AiOperatorAction, AiOperatorView};
use crate::finalizer::{has_finalizer, has_marker};
use crate::fingerprint::{create_hash, fingerprint};
use crate::text::same_text;
use vstd::prelude::*;
use vstd::string::*;

verus! {

/// The decision, in its order: a requested removal comes first, then a
/// missing finalizer, then the comparison of the fingerprints.
pub open spec fn action_for(
    deletion_requested: bool,
    finalizer_present: bool,
    previous: Seq<char>,
    current: Seq<char>,
) -> AiOperatorAction {
    if deletion_requested {
        AiOperatorAction::Delete
    } else if !finalizer_present {
        AiOperatorAction::Create
    } else if previous != current {
        AiOperatorAction::Update
    } else {
        AiOperatorAction::NoOp
    }
}

/// Whether the resource's fingerprint differs from the one on record.
pub open spec fn changed(
    snapshot: Option<Map<Seq<char>, Seq<char>>>,
    name: Seq<char>,
    prompt: Seq<char>,
) -> bool {
    recorded_fingerprint(snapshot) != fingerprint(name, prompt)
}

/// The action that a resource calls for, given the snapshot beside it.
pub open spec fn resource_action(
    aiop: AiOperatorView,
    snapshot: Option<Map<Seq<char>, Seq<char>>>,
) -> AiOperatorAction {
    action_for(
        aiop.deletion_requested,
        has_marker(aiop.finalizers),
        recorded_fingerprint(snapshot),
        fingerprint(aiop.name, aiop.prompt),
    )
}

/// Decides the action of a pass from the four inputs alone.
pub fn determine_action(
    deletion_requested: bool,
    finalizer_present: bool,
    previous: &str,
    current: &str,
) -> (action: AiOperatorAction)
    ensures
        action == action_for(deletion_requested, finalizer_present, previous@, current@),
        deletion_requested ==> action == AiOperatorAction::Delete,
        !deletion_requested && !finalizer_present ==> action == AiOperatorAction::Create,
        !deletion_requested && finalizer_present && previous@ == current@ ==> action
            == AiOperatorAction::NoOp,
        !deletion_requested && finalizer_present && previous@ != current@ ==> action
            == AiOperatorAction::Update,
{
    if deletion_requested {
        AiOperatorAction::Delete
    } else if !finalizer_present {
        AiOperatorAction::Create
    } else if !same_text(previous, current) {
        AiOperatorAction::Update
    } else {
        AiOperatorAction::NoOp
    }
}

/// Whether the resource called `name`, with `prompt` in its spec, changed
/// since its fingerprint was recorded in `snapshot`. Without a snapshot
/// nothing was recorded, and the answer is yes.
pub fn is_update(snapshot: &Option<AnnotationSnapshot>, name: &str, prompt: &str) -> (updating:
    bool)
    ensures
        updating == changed(snapshot_view(*snapshot), name@, prompt@),
        snapshot is None ==> updating,
{
    let current = create_hash(name, prompt.to_owned());
    let previous = previous_fingerprint(snapshot);
    proof {
        if snapshot is None {
            reveal_strlit("N/A");
        }
    }
    !same_text(previous.as_str(), current.as_str())
}

/// Decides the action for a resource as it was observed, with the snapshot
/// that was read beside it.
pub fn classify(aiop: &AiOperator, snapshot: &Option<AnnotationSnapshot>) -> (action:
    AiOperatorAction)
    ensures
        action == resource_action(aiop@, snapshot_view(*snapshot)),
{
    let previous = previous_fingerprint(snapshot);
    let current = create_hash(aiop.name.as_str(), aiop.spec.prompt.clone());
    determine_action(
        aiop.deletion_requested,
        has_finalizer(&aiop.finalizers),
        previous.as_str(),
        current.as_str(),
    )
}

/// The whole table: one action for each combination of the three facts.
pub proof fn lemma_action_table(
    deletion_requested: bool,
    finalizer_present: bool,
    previous: Seq<char>,
    current: Seq<char>,
)
    ensures
        deletion_requested ==> action_for(deletion_requested, finalizer_present, previous, current)
            == AiOperatorAction::Delete,
        !deletion_requested && !finalizer_present ==> action_for(
            deletion_requested,
            finalizer_present,
            previous,
            current,
        ) == AiOperatorAction::Create,
        !deletion_requested && finalizer_present && previous == current ==> action_for(
            deletion_requested,
            finalizer_present,
            previous,
            current,
        ) == AiOperatorAction::NoOp,
        !deletion_requested && finalizer_present && previous != current ==> action_for(
            deletion_requested,
            finalizer_present,
            previous,
            current,
        ) == AiOperatorAction::Update,
{
}

/// Nothing is done for a resource exactly when it is guarded, not marked for
/// removal, and its fingerprint is the recorded one.
pub proof fn lemma_noop_only_when_unchanged(
    aiop: AiOperatorView,
    snapshot: Option<Map<Seq<char>, Seq<char>>>,
)
    ensures
        resource_action(aiop, snapshot) == AiOperatorAction::NoOp <==> (!aiop.deletion_requested
            && has_marker(aiop.finalizers) && !changed(snapshot, aiop.name, aiop.prompt)),
        resource_action(aiop, snapshot) == AiOperatorAction::Update <==> (!aiop.deletion_requested
            && has_marker(aiop.finalizers) && changed(snapshot, aiop.name, aiop.prompt)),
{
}

} // verus!

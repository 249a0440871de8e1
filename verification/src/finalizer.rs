//! The deletion guard: the controller's marker in a resource's finalizer
//! list. While the marker stands the cluster will not finish a removal, so
//! the controller sets it before it acts and clears the list when it lets go.
//! Both operations say what list to store; sending it is the caller's part.

use crate::error::{AiOperatorError, AiOperatorErrorView, ApiError, ApiErrorView};
use crate::text::same_text;
use vstd::prelude::*;
use vstd::string::*;

verus! {

/// The controller's own finalizer marker.
pub const FINALIZER: &'static str = "aioperator/finalizer";

pub open spec fn marker() -> Seq<char> {
    "aioperator/finalizer"@
}

pub open spec fn has_marker(finalizers: Seq<Seq<char>>) -> bool {
    finalizers.contains(marker())
}

/// The list with the marker in it: unchanged where it was there already,
/// else with the marker at the end.
pub open spec fn with_marker(finalizers: Seq<Seq<char>>) -> Seq<Seq<char>> {
    if has_marker(finalizers) {
        finalizers
    } else {
        finalizers.push(marker())
    }
}

/// The list with every marker gone.
pub open spec fn cleared(finalizers: Seq<Seq<char>>) -> Seq<Seq<char>> {
    Seq::empty()
}

/// How a finalizer patch ended, for the pass: a target that is gone counts
/// as done, since no finalizer holds it any more; any other failure stands.
pub open spec fn settled(outcome: Result<(), ApiErrorView>) -> Result<(), ApiErrorView> {
    match outcome {
        Ok(()) => Ok(()),
        Err(failure) => if failure.is_not_found() {
            Ok(())
        } else {
            Err(failure)
        },
    }
}

/// A patch outcome with its failure seen as plain values.
pub open spec fn outcome_view(outcome: Result<(), ApiError>) -> Result<(), ApiErrorView> {
    match outcome {
        Ok(()) => Ok(()),
        Err(failure) => Err(failure@),
    }
}

/// Whether the controller's marker is among `finalizers`.
pub fn has_finalizer(finalizers: &Vec<String>) -> (present: bool)
    ensures
        present == has_marker(finalizers.deep_view()),
{
    let mut i: usize = 0;
    while i < finalizers.len()
        invariant
            i <= finalizers.len(),
            forall|j: int| 0 <= j < i ==> finalizers.deep_view()[j] != marker(),
        decreases finalizers.len() - i,
    {
        if same_text(finalizers[i].as_str(), FINALIZER) {
            assert(finalizers.deep_view()[i as int] == marker());
            return true;
        }
        i += 1;
    }
    false
}

/// Puts the controller's marker on the list if it is not there; a list that
/// holds it stays as it is.
pub fn add(finalizers: &mut Vec<String>)
    ensures
        final(finalizers).deep_view() == with_marker(old(finalizers).deep_view()),
{
    if !has_finalizer(finalizers) {
        let ghost before = finalizers.deep_view();
        finalizers.push(String::from_str(FINALIZER));
        assert(finalizers.deep_view() =~= before.push(marker()));
    }
}

/// Takes every marker off the list; an empty list stays empty.
pub fn delete(finalizers: &mut Vec<String>)
    ensures
        final(finalizers).deep_view() == cleared(old(finalizers).deep_view()),
        final(finalizers)@.len() == 0,
{
    finalizers.clear();
    assert(finalizers.deep_view() =~= Seq::<Seq<char>>::empty());
}

/// Reads the outcome of a finalizer patch: success, and a target that no
/// longer exists, let the pass go on; any other failure is handed up as it
/// came, for the caller to retry.
pub fn settle(outcome: Result<(), ApiError>) -> (result: Result<(), AiOperatorError>)
    ensures
        match settled(outcome_view(outcome)) {
            Ok(()) => result is Ok,
            Err(failure) => result matches Err(error) && error@
                == (AiOperatorErrorView::KubeError { source: failure }),
        },
{
    match outcome {
        Ok(()) => Ok(()),
        Err(failure) => {
            if failure.is_not_found() {
                Ok(())
            } else {
                Err(AiOperatorError::KubeError { source: failure })
            }
        },
    }
}

/// Once the marker was added it is there.
pub proof fn lemma_add_sets_marker(finalizers: Seq<Seq<char>>)
    ensures
        has_marker(with_marker(finalizers)),
{
    if !has_marker(finalizers) {
        let grown = finalizers.push(marker());
        assert(grown[finalizers.len() as int] == marker());
    }
}

/// Adding keeps every entry that was there, in its place.
pub proof fn lemma_add_keeps_entries(finalizers: Seq<Seq<char>>)
    ensures
        finalizers.is_prefix_of(with_marker(finalizers)),
        forall|entry: Seq<char>|
            with_marker(finalizers).contains(entry) <==> (finalizers.contains(entry) || entry
                == marker()),
{
    let grown = with_marker(finalizers);
    assert forall|entry: Seq<char>| grown.contains(entry) implies (finalizers.contains(entry)
        || entry == marker()) by {
        let i = choose|i: int| 0 <= i < grown.len() && grown[i] == entry;
        if i < finalizers.len() {
            assert(finalizers[i] == entry);
        }
    }
    assert forall|entry: Seq<char>|
        (finalizers.contains(entry) || entry == marker()) implies grown.contains(entry) by {
        if finalizers.contains(entry) {
            let i = choose|i: int| 0 <= i < finalizers.len() && finalizers[i] == entry;
            assert(grown[i] == entry);
        } else {
            lemma_add_sets_marker(finalizers);
        }
    }
}

/// Adding the marker twice leaves the list that adding it once leaves.
pub proof fn lemma_add_idempotent(finalizers: Seq<Seq<char>>)
    ensures
        with_marker(with_marker(finalizers)) == with_marker(finalizers),
{
    lemma_add_sets_marker(finalizers);
}

/// Clearing twice leaves the list that clearing once leaves: the empty one.
pub proof fn lemma_delete_idempotent(finalizers: Seq<Seq<char>>)
    ensures
        cleared(cleared(finalizers)) == cleared(finalizers),
        cleared(finalizers).len() == 0,
        !has_marker(cleared(finalizers)),
{
}

} // verus!

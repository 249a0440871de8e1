//! One reconciliation pass as a state machine. The pass itself does no
//! outside work: at each step it is told how the last piece of work ended
//! and says what to do next, until it ends with a delay after which the
//! resource is looked at again, or with an error.
//!
//! A pass on a resource without a namespace fails at once. Otherwise the
//! annotations beside the resource are read and the action is decided.
//! `Create` and `Update` set the finalizer, put the prompt to the completion
//! provider and record the answer with the fingerprint in the status.
//! `Delete` clears the finalizers, so that the removal can finish. `NoOp`
//! only waits for the next look.

use crate::action::{classify, resource_action};
use crate::aioperator::{apply, fresh_status};
use crate::annotations::{get_annotations, snapshot_view, AnnotationSnapshot};
use crate::crd::{AiOperator, AiOperatorAction, AiOperatorStatus, AiOperatorStatusView, AiOperatorView};
use crate::error::{AiOperatorError, AiOperatorErrorView, ApiError, ApiErrorView};
use crate::finalizer::{cleared, settle, settled, with_marker};
use crate::fingerprint::fingerprint;
use crate::text::copy_strings;
use vstd::prelude::*;
use vstd::string::*;

verus! {

/// Seconds until the next look after a pass that created, updated or found
/// nothing to do.
pub const REQUEUE_SECS: u64 = 10;

/// Seconds until the next look after the finalizers were cleared.
pub const DELETE_REQUEUE_SECS: u64 = 60;

/// Seconds until the next attempt after a pass that failed.
pub const BACKOFF_SECS: u64 = 5;

/// The name under which the controller writes the status, so that its
/// writes are told apart from those of other writers.
pub const FIELD_MANAGER: &'static str = "AiOperator";

/// Why a resource without a namespace is turned away.
pub const MISSING_NAMESPACE: &'static str =
    "Expected AiOperator resource to be namespaced. Can't deploy to an unknown namespace.";

/// Why a pass is given up when it is told of work that it did not ask for.
pub const UNEXPECTED_EVENT: &'static str =
    "The reconciliation pass was told of work that it was not waiting for.";

/// Where a pass stands: what it is waiting for.
#[derive(Clone, Copy, Debug, PartialEq, Eq, Structural)]
pub enum Phase {
    /// The resource was observed; nothing was asked for yet.
    Observed,
    /// Waiting for the annotations of the workloads beside the resource.
    ReadingAnnotations,
    /// Waiting for the patch that sets the finalizer.
    AddingFinalizer,
    /// Waiting for the completion provider.
    Prompting,
    /// Waiting for the patch that records the status.
    ApplyingStatus,
    /// Waiting for the patch that clears the finalizers.
    RemovingFinalizer,
    /// The pass is over.
    Finished,
}

/// How the work that a pass asked for ended.
#[derive(Debug)]
pub enum Event {
    /// Nothing was asked for yet: the pass begins.
    Started,
    /// The workloads beside the resource were listed, each given by its
    /// annotations if it has any; or the listing failed.
    SiblingsListed(Result<Vec<Option<AnnotationSnapshot>>, ApiError>),
    /// A patch was sent; the cluster accepted or refused it.
    Patched(Result<(), ApiError>),
    /// The completion provider answered, or failed with a reason.
    Answered(Result<String, String>),
}

pub enum EventView {
    Started,
    /// The snapshot to go by among those listed.
    SiblingsListed(Result<Option<Map<Seq<char>, Seq<char>>>, ApiErrorView>),
    Patched(Result<(), ApiErrorView>),
    Answered(Result<Seq<char>, Seq<char>>),
}

/// The snapshot that a listing yields: that of its last entry, if any.
pub open spec fn chosen_snapshot(siblings: Seq<Option<AnnotationSnapshot>>) -> Option<
    Map<Seq<char>, Seq<char>>,
> {
    if siblings.len() == 0 {
        None
    } else {
        snapshot_view(siblings.last())
    }
}

impl View for Event {
    type V = EventView;

    open spec fn view(&self) -> EventView {
        match self {
            Event::Started => EventView::Started,
            Event::SiblingsListed(Ok(siblings)) => EventView::SiblingsListed(
                Ok(chosen_snapshot(siblings@)),
            ),
            Event::SiblingsListed(Err(failure)) => EventView::SiblingsListed(Err(failure@)),
            Event::Patched(Ok(())) => EventView::Patched(Ok(())),
            Event::Patched(Err(failure)) => EventView::Patched(Err(failure@)),
            Event::Answered(Ok(answer)) => EventView::Answered(Ok(answer@)),
            Event::Answered(Err(reason)) => EventView::Answered(Err(reason@)),
        }
    }
}

/// What a pass asks for next, or how it ends.
#[derive(Clone, Debug, PartialEq, Eq)]
pub enum Effect {
    /// List the workloads in `namespace` with their annotations.
    ListSiblings { namespace: String },
    /// Store `finalizers` as the resource's finalizer list, by a merge patch
    /// of its metadata.
    PatchFinalizers { name: String, namespace: String, finalizers: Vec<String> },
    /// Put `prompt` to the completion provider.
    Prompt { prompt: String },
    /// Store `status` as the resource's status, writing as `field_manager`.
    PatchStatus { name: String, namespace: String, field_manager: String, status: AiOperatorStatus },
    /// The pass succeeded: look at the resource again after this many
    /// seconds.
    Requeue { after_secs: u64 },
    /// The pass failed.
    Fail { error: AiOperatorError },
}

pub enum EffectView {
    ListSiblings { namespace: Seq<char> },
    PatchFinalizers { name: Seq<char>, namespace: Seq<char>, finalizers: Seq<Seq<char>> },
    Prompt { prompt: Seq<char> },
    PatchStatus {
        name: Seq<char>,
        namespace: Seq<char>,
        field_manager: Seq<char>,
        status: AiOperatorStatusView,
    },
    Requeue { after_secs: u64 },
    Fail { error: AiOperatorErrorView },
}

impl View for Effect {
    type V = EffectView;

    open spec fn view(&self) -> EffectView {
        match self {
            Effect::ListSiblings { namespace } => EffectView::ListSiblings {
                namespace: namespace@,
            },
            Effect::PatchFinalizers { name, namespace, finalizers } => EffectView::PatchFinalizers {
                name: name@,
                namespace: namespace@,
                finalizers: finalizers.deep_view(),
            },
            Effect::Prompt { prompt } => EffectView::Prompt { prompt: prompt@ },
            Effect::PatchStatus { name, namespace, field_manager, status } => EffectView::PatchStatus {
                name: name@,
                namespace: namespace@,
                field_manager: field_manager@,
                status: status@,
            },
            Effect::Requeue { after_secs } => EffectView::Requeue { after_secs: *after_secs },
            Effect::Fail { error } => EffectView::Fail { error: error@ },
        }
    }
}

/// One step of a pass: the phase it moves to and what it asks for.
#[derive(Clone, Debug, PartialEq, Eq)]
pub struct Step {
    pub phase: Phase,
    pub effect: Effect,
}

pub struct StepView {
    pub phase: Phase,
    pub effect: EffectView,
}

impl View for Step {
    type V = StepView;

    open spec fn view(&self) -> StepView {
        StepView { phase: self.phase, effect: self.effect@ }
    }
}

/// When a resource is looked at again.
#[derive(Clone, Copy, Debug, PartialEq, Eq, Structural)]
pub enum Schedule {
    /// After this many seconds.
    RequeueAfter(u64),
    /// Not before the resource changes.
    AwaitChange,
}

/// A pass that ends in failure.
pub open spec fn failed(error: AiOperatorErrorView) -> StepView {
    StepView { phase: Phase::Finished, effect: EffectView::Fail { error } }
}

/// A pass that ends in success.
pub open spec fn finished(after_secs: u64) -> StepView {
    StepView { phase: Phase::Finished, effect: EffectView::Requeue { after_secs } }
}

/// The step that carries out an action, once it is decided.
pub open spec fn begin_action(
    aiop: AiOperatorView,
    namespace: Seq<char>,
    action: AiOperatorAction,
) -> StepView {
    match action {
        AiOperatorAction::Create | AiOperatorAction::Update => StepView {
            phase: Phase::AddingFinalizer,
            effect: EffectView::PatchFinalizers {
                name: aiop.name,
                namespace,
                finalizers: with_marker(aiop.finalizers),
            },
        },
        AiOperatorAction::Delete => StepView {
            phase: Phase::RemovingFinalizer,
            effect: EffectView::PatchFinalizers {
                name: aiop.name,
                namespace,
                finalizers: cleared(aiop.finalizers),
            },
        },
        AiOperatorAction::NoOp => finished(REQUEUE_SECS),
    }
}

/// The step that a pass on `aiop` takes in `phase` when told of `event`.
pub open spec fn transition(aiop: AiOperatorView, phase: Phase, event: EventView) -> StepView {
    match aiop.namespace {
        None => failed(AiOperatorErrorView::UserInputError(MISSING_NAMESPACE@)),
        Some(namespace) => match (phase, event) {
            (Phase::Observed, EventView::Started) => StepView {
                phase: Phase::ReadingAnnotations,
                effect: EffectView::ListSiblings { namespace },
            },
            (Phase::ReadingAnnotations, EventView::SiblingsListed(Ok(snapshot))) => begin_action(
                aiop,
                namespace,
                resource_action(aiop, snapshot),
            ),
            (Phase::ReadingAnnotations, EventView::SiblingsListed(Err(failure))) => failed(
                AiOperatorErrorView::KubeError { source: failure },
            ),
            (Phase::AddingFinalizer, EventView::Patched(outcome)) => match settled(outcome) {
                Ok(()) => StepView {
                    phase: Phase::Prompting,
                    effect: EffectView::Prompt { prompt: aiop.prompt },
                },
                Err(failure) => failed(AiOperatorErrorView::KubeError { source: failure }),
            },
            (Phase::Prompting, EventView::Answered(Ok(answer))) => StepView {
                phase: Phase::ApplyingStatus,
                effect: EffectView::PatchStatus {
                    name: aiop.name,
                    namespace,
                    field_manager: FIELD_MANAGER@,
                    status: fresh_status(fingerprint(aiop.name, aiop.prompt), answer),
                },
            },
            (Phase::Prompting, EventView::Answered(Err(reason))) => failed(
                AiOperatorErrorView::CompletionError(reason),
            ),
            (Phase::ApplyingStatus, EventView::Patched(Ok(()))) => finished(REQUEUE_SECS),
            (Phase::ApplyingStatus, EventView::Patched(Err(failure))) => failed(
                AiOperatorErrorView::KubeError { source: failure },
            ),
            (Phase::RemovingFinalizer, EventView::Patched(outcome)) => match settled(outcome) {
                Ok(()) => finished(DELETE_REQUEUE_SECS),
                Err(failure) => failed(AiOperatorErrorView::KubeError { source: failure }),
            },
            _ => failed(AiOperatorErrorView::UserInputError(UNEXPECTED_EVENT@)),
        },
    }
}

/// When to look again at a resource whose pass failed with `error`: after
/// the backoff, unless the resource itself is at fault, which no retry
/// mends.
pub open spec fn schedule_after(error: AiOperatorErrorView) -> Schedule {
    if error.is_retryable() {
        Schedule::RequeueAfter(BACKOFF_SECS)
    } else {
        Schedule::AwaitChange
    }
}

fn fail(error: AiOperatorError) -> (step: Step)
    ensures
        step@ == failed(error@),
{
    Step { phase: Phase::Finished, effect: Effect::Fail { error } }
}

fn finish(after_secs: u64) -> (step: Step)
    ensures
        step@ == finished(after_secs),
{
    Step { phase: Phase::Finished, effect: Effect::Requeue { after_secs } }
}

fn unexpected() -> (step: Step)
    ensures
        step@ == failed(AiOperatorErrorView::UserInputError(UNEXPECTED_EVENT@)),
{
    fail(AiOperatorError::UserInputError(String::from_str(UNEXPECTED_EVENT)))
}

/// Takes one step of a reconciliation pass on `aiop`: in `phase`, told of
/// `event`, it says which phase comes next and what is to be done. The
/// caller does that work and comes back with its outcome as the next event,
/// until the step's phase is `Finished`.
pub fn reconcile(aiop: &AiOperator, phase: Phase, event: Event) -> (step: Step)
    ensures
        step@ == transition(aiop@, phase, event@),
{
    let namespace = match &aiop.namespace {
        None => {
            return fail(AiOperatorError::UserInputError(String::from_str(MISSING_NAMESPACE)));
        },
        Some(namespace) => namespace.clone(),
    };
    match phase {
        Phase::Observed => match event {
            Event::Started => Step {
                phase: Phase::ReadingAnnotations,
                effect: Effect::ListSiblings { namespace },
            },
            _ => unexpected(),
        },
        Phase::ReadingAnnotations => match event {
            Event::SiblingsListed(Ok(siblings)) => {
                let snapshot = get_annotations(siblings);
                match classify(aiop, &snapshot) {
                    AiOperatorAction::Create | AiOperatorAction::Update => {
                        let mut finalizers = copy_strings(&aiop.finalizers);
                        crate::finalizer::add(&mut finalizers);
                        Step {
                            phase: Phase::AddingFinalizer,
                            effect: Effect::PatchFinalizers {
                                name: aiop.name.clone(),
                                namespace,
                                finalizers,
                            },
                        }
                    },
                    AiOperatorAction::Delete => {
                        let mut finalizers = copy_strings(&aiop.finalizers);
                        crate::finalizer::delete(&mut finalizers);
                        Step {
                            phase: Phase::RemovingFinalizer,
                            effect: Effect::PatchFinalizers {
                                name: aiop.name.clone(),
                                namespace,
                                finalizers,
                            },
                        }
                    },
                    AiOperatorAction::NoOp => finish(REQUEUE_SECS),
                }
            },
            Event::SiblingsListed(Err(failure)) => fail(
                AiOperatorError::KubeError { source: failure },
            ),
            _ => unexpected(),
        },
        Phase::AddingFinalizer => match event {
            Event::Patched(outcome) => match settle(outcome) {
                Ok(()) => Step {
                    phase: Phase::Prompting,
                    effect: Effect::Prompt { prompt: aiop.spec.prompt.clone() },
                },
                Err(error) => fail(error),
            },
            _ => unexpected(),
        },
        Phase::Prompting => match event {
            Event::Answered(outcome) => match apply(aiop, outcome) {
                Ok(status) => Step {
                    phase: Phase::ApplyingStatus,
                    effect: Effect::PatchStatus {
                        name: aiop.name.clone(),
                        namespace,
                        field_manager: String::from_str(FIELD_MANAGER),
                        status,
                    },
                },
                Err(error) => fail(error),
            },
            _ => unexpected(),
        },
        Phase::ApplyingStatus => match event {
            Event::Patched(Ok(())) => finish(REQUEUE_SECS),
            Event::Patched(Err(failure)) => fail(AiOperatorError::KubeError { source: failure }),
            _ => unexpected(),
        },
        Phase::RemovingFinalizer => match event {
            Event::Patched(outcome) => match settle(outcome) {
                Ok(()) => finish(DELETE_REQUEUE_SECS),
                Err(error) => fail(error),
            },
            _ => unexpected(),
        },
        Phase::Finished => unexpected(),
    }
}

/// Says when to look again at a resource whose pass failed.
pub fn on_error(error: &AiOperatorError) -> (schedule: Schedule)
    ensures
        schedule == schedule_after(error@),
{
    if error.is_retryable() {
        Schedule::RequeueAfter(BACKOFF_SECS)
    } else {
        Schedule::AwaitChange
    }
}

/// The resource as the cluster holds it once `effect` was carried out: a
/// finalizer patch replaces the finalizer list, a status patch replaces the
/// status, and nothing else writes to the resource.
pub open spec fn stored_after(aiop: AiOperatorView, effect: EffectView) -> AiOperatorView {
    match effect {
        EffectView::PatchFinalizers { finalizers, .. } => AiOperatorView { finalizers, ..aiop },
        EffectView::PatchStatus { status, .. } => AiOperatorView { status: Some(status), ..aiop },
        _ => aiop,
    }
}

/// How far a pass has come. Every step that does not end the pass moves to
/// a phase of higher rank.
pub open spec fn rank(phase: Phase) -> nat {
    match phase {
        Phase::Observed => 0,
        Phase::ReadingAnnotations => 1,
        Phase::AddingFinalizer => 2,
        Phase::Prompting => 3,
        Phase::ApplyingStatus => 4,
        Phase::RemovingFinalizer => 4,
        Phase::Finished => 5,
    }
}

/// Carrying out the same effect twice leaves the resource as carrying it
/// out once does. In particular, a status that is applied a second time
/// changes nothing.
pub proof fn lemma_effect_idempotent(aiop: AiOperatorView, effect: EffectView)
    ensures
        stored_after(stored_after(aiop, effect), effect) == stored_after(aiop, effect),
{
}

/// When the completion provider fails, the pass ends with that failure and
/// writes nothing: status, answer and fingerprint stay as they were.
pub proof fn lemma_failed_completion_writes_nothing(
    aiop: AiOperatorView,
    phase: Phase,
    reason: Seq<char>,
)
    ensures
        transition(aiop, phase, EventView::Answered(Err(reason))).phase == Phase::Finished,
        transition(aiop, phase, EventView::Answered(Err(reason))).effect is Fail,
        stored_after(aiop, transition(aiop, phase, EventView::Answered(Err(reason))).effect)
            == aiop,
{
}

/// A status is written only in answer to a completion that succeeded, and
/// it then carries that answer and the resource's current fingerprint.
pub proof fn lemma_status_written_only_after_answer(
    aiop: AiOperatorView,
    phase: Phase,
    event: EventView,
)
    requires
        transition(aiop, phase, event).effect is PatchStatus,
    ensures
        phase == Phase::Prompting,
        event matches EventView::Answered(Ok(answer)) && stored_after(
            aiop,
            transition(aiop, phase, event).effect,
        ).status == Some(fresh_status(fingerprint(aiop.name, aiop.prompt), answer)),
{
}

/// After the pass of a resource that is new or changed has recorded its
/// status, the stored fingerprint is the resource's own and the finalizer
/// list that the pass asked to store holds the marker.
pub proof fn lemma_create_records_fingerprint(
    aiop: AiOperatorView,
    snapshot: Option<Map<Seq<char>, Seq<char>>>,
    answer: Seq<char>,
)
    requires
        aiop.namespace is Some,
        resource_action(aiop, snapshot) == AiOperatorAction::Create || resource_action(
            aiop,
            snapshot,
        ) == AiOperatorAction::Update,
    ensures
        ({
            let guard = transition(
                aiop,
                Phase::ReadingAnnotations,
                EventView::SiblingsListed(Ok(snapshot)),
            );
            let record = transition(aiop, Phase::Prompting, EventView::Answered(Ok(answer)));
            &&& guard.phase == Phase::AddingFinalizer
            &&& crate::finalizer::has_marker(stored_after(aiop, guard.effect).finalizers)
            &&& record.phase == Phase::ApplyingStatus
            &&& stored_after(aiop, record.effect).status matches Some(status)
            &&& status.state_hash == fingerprint(aiop.name, aiop.prompt)
            &&& status.answer == Some(answer)
        }),
{
    crate::finalizer::lemma_add_sets_marker(aiop.finalizers);
}

/// A resource whose removal was requested has its finalizer list emptied,
/// whatever else holds of it.
pub proof fn lemma_delete_empties_finalizers(
    aiop: AiOperatorView,
    snapshot: Option<Map<Seq<char>, Seq<char>>>,
)
    requires
        aiop.namespace is Some,
        aiop.deletion_requested,
    ensures
        ({
            let release = transition(
                aiop,
                Phase::ReadingAnnotations,
                EventView::SiblingsListed(Ok(snapshot)),
            );
            &&& resource_action(aiop, snapshot) == AiOperatorAction::Delete
            &&& release.phase == Phase::RemovingFinalizer
            &&& stored_after(aiop, release.effect).finalizers.len() == 0
            &&& transition(aiop, Phase::RemovingFinalizer, EventView::Patched(Ok(())))
                == finished(DELETE_REQUEUE_SECS)
        }),
{
}

/// Every step either ends the pass or moves it on, so that a pass is over
/// after five steps at most. A pass ends with a delay or with an error, and
/// only a step that ends the pass does.
pub proof fn lemma_pass_advances(aiop: AiOperatorView, phase: Phase, event: EventView)
    ensures
        phase != Phase::Finished ==> rank(transition(aiop, phase, event).phase) > rank(phase),
        transition(aiop, phase, event).phase == Phase::Finished <==> (transition(
            aiop,
            phase,
            event,
        ).effect is Requeue || transition(aiop, phase, event).effect is Fail),
        transition(aiop, phase, event).effect matches EffectView::Requeue { after_secs }
            ==> after_secs == REQUEUE_SECS || after_secs == DELETE_REQUEUE_SECS,
{
}

/// A resource without a namespace is turned away at every step, and is not
/// looked at again before it changes. Every other failure of a pass, of the
/// cluster or of the completion provider, is retried after the backoff.
pub proof fn lemma_only_input_errors_are_final(
    aiop: AiOperatorView,
    phase: Phase,
    event: EventView,
)
    ensures
        aiop.namespace is None ==> transition(aiop, phase, event) == failed(
            AiOperatorErrorView::UserInputError(MISSING_NAMESPACE@),
        ),
        transition(aiop, phase, event).effect matches EffectView::Fail { error } ==> (
        schedule_after(error) == Schedule::AwaitChange <==> error is UserInputError),
        transition(aiop, phase, event).effect matches EffectView::Fail { error } ==> (
        schedule_after(error) == Schedule::RequeueAfter(BACKOFF_SECS) <==> !(
        error is UserInputError)),
{
}

} // verus!

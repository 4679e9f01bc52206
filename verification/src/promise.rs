//! The promise drainer: a cooperative, caller-driven state machine.
//!
//! One round of the drainer looks at a value once, shows the host what it
//! found, and lets the host decide whether another round follows. Nothing in
//! it blocks or sleeps; a pending promise only makes progress when the host
//! runs queued jobs between rounds.

use vstd::prelude::*;

use crate::bridge::ScriptValue;
use crate::exception::Exception;
use crate::runtime::Core;

verus! {

/// What the host is shown in one round.
pub enum PromiseState<'a> {
    /// The promise is fulfilled with this value, or the value never was a
    /// promise and stands for itself.
    Fulfilled(&'a ScriptValue),
    /// The promise is rejected; the reason is copied out as an exception.
    Rejected(Exception),
    /// The promise is not settled yet.
    Pending,
}

/// What one look at a value found.
pub enum Observation {
    /// A promise fulfilled with this value.
    Fulfilled(ScriptValue),
    /// A promise rejected with this reason.
    Rejected(Exception),
    /// A promise that is not settled yet.
    Pending,
    /// The value is not a promise.
    NotAPromise,
}

/// The kind of an [`Observation`], without what it carries.
#[derive(Clone, Copy, Debug, PartialEq, Eq, Structural)]
pub enum ObservationKind {
    Fulfilled,
    Rejected,
    Pending,
    NotAPromise,
}

/// The kind of a [`PromiseState`], without what it carries.
#[derive(Clone, Copy, Debug, PartialEq, Eq, Structural)]
pub enum StateKind {
    Fulfilled,
    Rejected,
    Pending,
}

impl Observation {
    /// The kind of this observation.
    pub open spec fn kind(&self) -> ObservationKind {
        match self {
            Observation::Fulfilled(_) => ObservationKind::Fulfilled,
            Observation::Rejected(_) => ObservationKind::Rejected,
            Observation::Pending => ObservationKind::Pending,
            Observation::NotAPromise => ObservationKind::NotAPromise,
        }
    }
}

impl<'a> PromiseState<'a> {
    /// The kind of this state.
    pub open spec fn kind(&self) -> StateKind {
        match self {
            PromiseState::Fulfilled(_) => StateKind::Fulfilled,
            PromiseState::Rejected(_) => StateKind::Rejected,
            PromiseState::Pending => StateKind::Pending,
        }
    }
}

/// The kind of state that the host is shown for a kind of observation.
pub open spec fn shown_for(observed: ObservationKind) -> StateKind {
    match observed {
        ObservationKind::Fulfilled => StateKind::Fulfilled,
        ObservationKind::Rejected => StateKind::Rejected,
        ObservationKind::Pending => StateKind::Pending,
        ObservationKind::NotAPromise => StateKind::Fulfilled,
    }
}

/// Whether another round follows one in which the host answered `answer` to
/// an observation of kind `observed`.
pub open spec fn another_round(observed: ObservationKind, answer: bool) -> bool {
    observed == ObservationKind::Pending && answer
}

/// One round of a schedule: what the engine would report in it and what the
/// host would answer.
pub struct Round {
    pub observed: ObservationKind,
    pub answer: bool,
}

/// The states that the host is shown, in order, when the drainer runs
/// against a schedule of rounds: one per round, up to and including the
/// first round after which no other follows.
pub open spec fn shown(schedule: Seq<Round>) -> Seq<StateKind>
    decreases schedule.len(),
{
    if schedule.len() == 0 {
        Seq::empty()
    } else if another_round(schedule[0].observed, schedule[0].answer) {
        seq![shown_for(schedule[0].observed)] + shown(schedule.drop_first())
    } else {
        seq![shown_for(schedule[0].observed)]
    }
}

/// The state that the host is shown for an observation of `subject`.
///
/// A value that is not a promise counts as fulfilled with itself.
pub open spec fn state_for<'a>(observation: &'a Observation, subject: &'a ScriptValue)
    -> PromiseState<'a> {
    match observation {
        Observation::Fulfilled(value) => PromiseState::Fulfilled(value),
        Observation::Rejected(reason) => PromiseState::Rejected(*reason),
        Observation::Pending => PromiseState::Pending,
        Observation::NotAPromise => PromiseState::Fulfilled(subject),
    }
}

/// Runs one round of the drainer on an observation: shows the host the state
/// that belongs to it, lends it the engine instance for the length of the
/// call, and reports whether another round follows.
///
/// Another round follows only when the observation was `Pending` and the
/// host answered `true`. Every other observation is terminal, whatever the
/// host answers.
pub fn deliver<F>(core: &mut Core, observation: Observation, subject: &ScriptValue, on_poll: &F) -> (again:
    bool) where F: Fn(&mut Core, PromiseState) -> bool
    requires
        forall|lent: &mut Core, state: PromiseState| call_requires(*on_poll, (lent, state)),
    ensures
        exists|lent: &mut Core, answer: bool| #[trigger]
            call_ensures(*on_poll, (lent, state_for(&observation, subject)), answer) && *lent
                == *old(core) && *final(lent) == *final(core) && again == another_round(
                observation.kind(),
                answer,
            ),
        observation.kind() != ObservationKind::Pending ==> !again,
{
    match observation {
        Observation::Fulfilled(value) => {
            on_poll(core, PromiseState::Fulfilled(&value));
            false
        },
        Observation::Rejected(reason) => {
            on_poll(core, PromiseState::Rejected(reason));
            false
        },
        Observation::Pending => on_poll(core, PromiseState::Pending),
        Observation::NotAPromise => {
            on_poll(core, PromiseState::Fulfilled(subject));
            false
        },
    }
}

/// The state shown for an observation has the kind that the model assigns
/// to the observation's kind.
pub proof fn lemma_state_kind(observation: &Observation, subject: &ScriptValue)
    ensures
        state_for(observation, subject).kind() == shown_for(observation.kind()),
{
}

/// Draining a value that is already fulfilled shows the host `Fulfilled`
/// exactly once and never `Pending`, whatever the host answers and whatever
/// the schedule holds afterwards. The same holds of a value that is not a
/// promise.
pub proof fn lemma_settled_value_shown_once(schedule: Seq<Round>)
    requires
        schedule.len() > 0,
        schedule[0].observed == ObservationKind::Fulfilled || schedule[0].observed
            == ObservationKind::NotAPromise,
    ensures
        shown(schedule) == seq![StateKind::Fulfilled],
{
}

/// Draining a rejected promise shows the host `Rejected` exactly once.
pub proof fn lemma_rejection_shown_once(schedule: Seq<Round>)
    requires
        schedule.len() > 0,
        schedule[0].observed == ObservationKind::Rejected,
    ensures
        shown(schedule) == seq![StateKind::Rejected],
{
}

/// A host that answers `false` to a pending promise stops the drainer after
/// exactly one `Pending`.
pub proof fn lemma_refusal_stops_after_one_pending(schedule: Seq<Round>)
    requires
        schedule.len() > 0,
        schedule[0].observed == ObservationKind::Pending,
        !schedule[0].answer,
    ensures
        shown(schedule) == seq![StateKind::Pending],
{
}

/// While the promise stays pending and the host keeps answering `true`, the
/// drainer never stops by itself: it runs every round of the schedule,
/// however long, and shows `Pending` in each.
pub proof fn lemma_unsettled_never_stops(schedule: Seq<Round>)
    requires
        forall|i: int|
            0 <= i < schedule.len() ==> (#[trigger] schedule[i]).observed
                == ObservationKind::Pending && schedule[i].answer,
    ensures
        shown(schedule).len() == schedule.len(),
        forall|i: int| 0 <= i < schedule.len() ==> #[trigger] shown(schedule)[i] == StateKind::Pending,
    decreases schedule.len(),
{
    if schedule.len() > 0 {
        let rest = schedule.drop_first();
        assert forall|i: int| 0 <= i < rest.len() implies (#[trigger] rest[i]).observed
            == ObservationKind::Pending && rest[i].answer by {
            assert(rest[i] == schedule[i + 1]);
        }
        lemma_unsettled_never_stops(rest);
        assert(shown(schedule) == seq![StateKind::Pending] + shown(rest));
    }
}

/// The drainer stops at the first round that allows no other: after it, the
/// rest of the schedule has no effect on what the host is shown.
pub proof fn lemma_stops_at_first_terminal_round(schedule: Seq<Round>, k: int)
    requires
        0 <= k < schedule.len(),
        forall|i: int|
            0 <= i < k ==> another_round((#[trigger] schedule[i]).observed, schedule[i].answer),
        !another_round(schedule[k].observed, schedule[k].answer),
    ensures
        shown(schedule).len() == k + 1,
        shown(schedule)[k] == shown_for(schedule[k].observed),
        forall|i: int| 0 <= i < k ==> #[trigger] shown(schedule)[i] == StateKind::Pending,
    decreases k,
{
    if k > 0 {
        let rest = schedule.drop_first();
        assert forall|i: int| 0 <= i < k - 1 implies another_round(
            (#[trigger] rest[i]).observed,
            rest[i].answer,
        ) by {
            assert(rest[i] == schedule[i + 1]);
        }
        assert(rest[k - 1] == schedule[k]);
        lemma_stops_at_first_terminal_round(rest, k - 1);
        assert(shown(schedule) == seq![StateKind::Pending] + shown(rest));
    }
}

} // verus!

//! Runs of the playback controller: the loop's whole input alphabet, the
//! state reached after a sequence of inputs, and the invariants the
//! controller maintains across any such run.

use vstd::prelude::*;
use crate::controller::{
    Session, Event, is_foreign_status_event, next_after_event, next_after_timeout,
    next_after_seekable, next_after_duration, next_after_cancel, SEEK_TRIGGER_NS,
};

verus! {

/// Everything the control loop can feed to the session, one item per loop
/// iteration or completed engine query.
#[derive(Clone, Copy)]
pub enum Input {
    /// An event taken from the message channel.
    Bus(Event),
    /// A poll timeout, with the results of the position query and, while
    /// the duration was unknown, the duration query.
    Timeout { position: Option<u64>, fresh_duration: Option<u64> },
    /// The completed seek-capability query.
    SeekableResult(Option<bool>),
    /// A completed duration query.
    DurationResult(Option<u64>),
    /// An external stop request.
    Cancel,
}

/// The state after one input, dispatching to the controller's transitions.
pub open spec fn step(s: Session, inp: Input) -> Session {
    match inp {
        Input::Bus(e) => next_after_event(s, e),
        Input::Timeout { position, fresh_duration } => next_after_timeout(
            s,
            position,
            fresh_duration,
        ),
        Input::SeekableResult(q) => next_after_seekable(s, q),
        Input::DurationResult(d) => next_after_duration(s, d),
        Input::Cancel => next_after_cancel(s),
    }
}

/// The state after a whole sequence of inputs.
pub open spec fn run(s: Session, inputs: Seq<Input>) -> Session
    decreases inputs.len(),
{
    if inputs.len() == 0 {
        s
    } else {
        step(run(s, inputs.drop_last()), inputs.last())
    }
}

/// The state just before input `i` of a run is consumed.
pub open spec fn state_at(s: Session, inputs: Seq<Input>, i: int) -> Session {
    run(s, inputs.take(i))
}

/// A sequence of bus events, as loop inputs.
pub open spec fn bus_inputs(events: Seq<Event>) -> Seq<Input> {
    events.map_values(|e: Event| Input::Bus(e))
}

/// Running a run in two pieces reaches the same state as running it whole.
pub proof fn run_append(s: Session, a: Seq<Input>, b: Seq<Input>)
    ensures
        run(s, a + b) == run(run(s, a), b),
    decreases b.len(),
{
    if b.len() == 0 {
        assert(a + b =~= a);
    } else {
        run_append(s, a, b.drop_last());
        assert((a + b).drop_last() =~= a + b.drop_last());
    }
}

/// Unfolding a run one step at a time: the state before input `i + 1` is
/// the step of the state before input `i`.
pub proof fn state_at_unfold(s: Session, inputs: Seq<Input>, i: int)
    requires
        0 <= i < inputs.len(),
    ensures
        state_at(s, inputs, i + 1) == step(state_at(s, inputs, i), inputs[i]),
{
    assert(inputs.take(i + 1).drop_last() =~= inputs.take(i));
    assert(inputs.take(i + 1).last() == inputs[i]);
}

/// Status changes reported by anything other than the pipeline itself are
/// ignored: a run made only of such events leaves the whole session — in
/// particular `is_playing` and `seek_enabled` — exactly as it was.
pub proof fn foreign_status_events_change_nothing(s: Session, events: Seq<Event>)
    requires
        forall|i: int| 0 <= i < events.len() ==> is_foreign_status_event(#[trigger] events[i]),
    ensures
        run(s, bus_inputs(events)) == s,
    decreases events.len(),
{
    if events.len() > 0 {
        foreign_status_events_change_nothing(s, events.drop_last());
        assert(bus_inputs(events).drop_last() =~= bus_inputs(events.drop_last()));
        assert(is_foreign_status_event(events[events.len() - 1]));
        assert(bus_inputs(events).last() == Input::Bus(events.last()));
    }
}

/// A terminated session is final: no further input of any kind moves any
/// part of the state.
pub proof fn terminated_session_is_frozen(s: Session, inputs: Seq<Input>)
    requires
        s.terminate,
    ensures
        run(s, inputs) == s,
    decreases inputs.len(),
{
    if inputs.len() > 0 {
        terminated_session_is_frozen(s, inputs.drop_last());
    }
}

/// `terminate` is monotone: once set, every later state of the run still
/// has it set.
pub proof fn terminate_stays_set(s: Session, inputs: Seq<Input>)
    requires
        s.terminate,
    ensures
        run(s, inputs).terminate,
{
    terminated_session_is_frozen(s, inputs);
}

/// How the seek guard may move in one step: it is never cleared, and it is
/// set only by a poll timeout on a live, playing session with seeking
/// enabled and a reported position past the trigger.
pub proof fn seek_guard_step(s: Session, inp: Input)
    ensures
        s.seek_done ==> step(s, inp).seek_done,
        step(s, inp).seek_done != s.seek_done ==> {
            &&& !s.seek_done
            &&& !s.terminate
            &&& s.is_playing
            &&& s.seek_enabled
            &&& inp matches Input::Timeout { position, .. }
            &&& position matches Option::Some(p) && p > SEEK_TRIGGER_NS
        },
{
}

/// Once the seek has been performed, it stays performed for the rest of
/// the run.
pub proof fn seek_done_stays_set(s: Session, inputs: Seq<Input>)
    requires
        s.seek_done,
    ensures
        run(s, inputs).seek_done,
    decreases inputs.len(),
{
    if inputs.len() > 0 {
        seek_done_stays_set(s, inputs.drop_last());
        seek_guard_step(run(s, inputs.drop_last()), inputs.last());
    }
}

/// Does the one-time seek fire while consuming input `i` of the run?
pub open spec fn seek_fires_at(s: Session, inputs: Seq<Input>, i: int) -> bool {
    !state_at(s, inputs, i).seek_done && state_at(s, inputs, i + 1).seek_done
}

/// The one-time seek fires at most once per session: if it fires at input
/// `i`, it cannot fire again at any later input `j`.
pub proof fn seek_fires_at_most_once(s: Session, inputs: Seq<Input>, i: int, j: int)
    requires
        0 <= i < j < inputs.len(),
        seek_fires_at(s, inputs, i),
    ensures
        !seek_fires_at(s, inputs, j),
{
    assert(inputs.take(j) =~= inputs.take(i + 1) + inputs.subrange(i + 1, j));
    run_append(s, inputs.take(i + 1), inputs.subrange(i + 1, j));
    seek_done_stays_set(state_at(s, inputs, i + 1), inputs.subrange(i + 1, j));
}

/// When the one-time seek fires at input `i` of a run, the state just
/// before it had seeking enabled on a live, playing session, and the input
/// was a poll timeout whose reported position passed the trigger.
pub proof fn seek_fires_only_when_enabled(s: Session, inputs: Seq<Input>, i: int)
    requires
        0 <= i < inputs.len(),
        seek_fires_at(s, inputs, i),
    ensures
        ({
            let before = state_at(s, inputs, i);
            &&& !before.terminate
            &&& before.is_playing
            &&& before.seek_enabled
            &&& inputs[i] matches Input::Timeout { position, .. }
            &&& position matches Option::Some(p) && p > SEEK_TRIGGER_NS
        }),
{
    state_at_unfold(s, inputs, i);
    seek_guard_step(state_at(s, inputs, i), inputs[i]);
}

/// How the cached duration may move in one step: a known duration never
/// becomes unknown again, and it changes at all only through a completed
/// duration query, or through a poll timeout made while it was unknown.
pub proof fn duration_refinement_step(s: Session, inp: Input)
    ensures
        s.duration is Some ==> step(s, inp).duration is Some,
        step(s, inp).duration != s.duration ==> {
            ||| inp matches Input::DurationResult(d) && d is Some
            ||| inp matches Input::Timeout { .. } && s.duration is None
        },
{
}

/// Once the duration is known, it stays known for the rest of the run.
pub proof fn duration_stays_known(s: Session, inputs: Seq<Input>)
    requires
        s.duration is Some,
    ensures
        run(s, inputs).duration is Some,
    decreases inputs.len(),
{
    if inputs.len() > 0 {
        duration_stays_known(s, inputs.drop_last());
        duration_refinement_step(run(s, inputs.drop_last()), inputs.last());
    }
}

/// An error event, like the end of the stream, leaves the session
/// terminated, whatever state it was in.
pub proof fn error_event_terminates(s: Session)
    ensures
        next_after_event(s, Event::Error).terminate,
        next_after_event(s, Event::EndOfStream).terminate,
{
}

} // verus!

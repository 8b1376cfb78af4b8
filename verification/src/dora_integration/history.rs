//! What holds of a worker over any sequence of inputs.

use super::event::EventView;
use super::worker::{is_successful_launch, Input, WorkerState};
use vstd::prelude::*;

verus! {

/// The state that a worker in state `start` is in after the inputs.
pub open spec fn state_after(start: WorkerState, inputs: Seq<Input>) -> WorkerState
    decreases inputs.len(),
{
    if inputs.len() == 0 {
        start
    } else {
        state_after(start, inputs.drop_last()).next(inputs.last())
    }
}

/// The events that a worker in state `start` gives rise to over the inputs,
/// in the order in which a host that publishes after every step hands them
/// on.
pub open spec fn events_of(start: WorkerState, inputs: Seq<Input>) -> Seq<EventView>
    decreases inputs.len(),
{
    if inputs.len() == 0 {
        seq![]
    } else {
        events_of(start, inputs.drop_last()) + state_after(start, inputs.drop_last()).emits(
            inputs.last(),
        )
    }
}

/// Events come out in the order of the transitions behind them: what the
/// earlier inputs gave rise to stands first, unchanged by anything that
/// happens later, and what the later inputs give rise to follows.
pub proof fn event_order_is_kept(start: WorkerState, earlier: Seq<Input>, later: Seq<Input>)
    ensures
        state_after(start, earlier + later) == state_after(state_after(start, earlier), later),
        events_of(start, earlier + later) == events_of(start, earlier) + events_of(
            state_after(start, earlier),
            later,
        ),
        events_of(start, earlier).is_prefix_of(events_of(start, earlier + later)),
    decreases later.len(),
{
    if later.len() == 0 {
        assert(earlier + later =~= earlier);
        assert(events_of(start, earlier) + Seq::<EventView>::empty() =~= events_of(
            start,
            earlier,
        ));
    } else {
        let all = earlier + later;
        assert(all.drop_last() =~= earlier + later.drop_last());
        assert(all.last() == later.last());
        event_order_is_kept(start, earlier, later.drop_last());
        let middle = state_after(start, earlier);
        let before_last = state_after(middle, later.drop_last());
        assert(events_of(start, all) =~= events_of(start, earlier) + (events_of(
            middle,
            later.drop_last(),
        ) + before_last.emits(later.last())));
    }
}

/// Every state that a worker reaches is well formed: while the running flag
/// is set a dispatcher is held, and a worker that was shut down holds none.
pub proof fn reachable_states_are_well_formed(start: WorkerState, inputs: Seq<Input>)
    requires
        start.wf(),
    ensures
        state_after(start, inputs).wf(),
    decreases inputs.len(),
{
    if inputs.len() > 0 {
        reachable_states_are_well_formed(start, inputs.drop_last());
    }
}

/// A worker that was shut down processes nothing: whatever comes in, its
/// state stays as it is and no event arises.
pub proof fn nothing_happens_after_shutdown(start: WorkerState, inputs: Seq<Input>)
    requires
        start.terminated,
    ensures
        state_after(start, inputs) == start,
        events_of(start, inputs) == Seq::<EventView>::empty(),
    decreases inputs.len(),
{
    if inputs.len() > 0 {
        nothing_happens_after_shutdown(start, inputs.drop_last());
        assert(events_of(start, inputs) =~= Seq::<EventView>::empty());
    }
}

/// As long as no launch succeeds, the running flag of a worker that was not
/// running stays clear throughout, and no start is ever reported.
pub proof fn flag_stays_clear_without_successful_launch(start: WorkerState, inputs: Seq<Input>)
    requires
        !start.running(),
        forall|i: int| 0 <= i < inputs.len() ==> !is_successful_launch(#[trigger] inputs[i]),
    ensures
        forall|n: int|
            0 <= n <= inputs.len() ==> !(#[trigger] state_after(start, inputs.take(n))).running(),
        forall|k: int|
            0 <= k < events_of(start, inputs).len() ==> !(#[trigger] events_of(
                start,
                inputs,
            )[k] is DataflowStarted),
    decreases inputs.len(),
{
    if inputs.len() == 0 {
        assert forall|n: int| 0 <= n <= inputs.len() implies !(#[trigger] state_after(
            start,
            inputs.take(n),
        )).running() by {
            assert(inputs.take(n) =~= inputs);
        }
    } else {
        let front = inputs.drop_last();
        flag_stays_clear_without_successful_launch(start, front);
        assert(front.take(front.len() as int) =~= front);
        assert(!state_after(start, front).running());
        assert(!is_successful_launch(inputs.last()));
        assert forall|n: int| 0 <= n <= inputs.len() implies !(#[trigger] state_after(
            start,
            inputs.take(n),
        )).running() by {
            if n < inputs.len() {
                assert(inputs.take(n) =~= front.take(n));
            } else {
                assert(inputs.take(n) =~= inputs);
            }
        }
    }
}

/// The number of start events among `events`.
pub open spec fn starts_reported(events: Seq<EventView>) -> nat
    decreases events.len(),
{
    if events.len() == 0 {
        0
    } else {
        starts_reported(events.drop_last()) + if events.last() is DataflowStarted {
            1nat
        } else {
            0nat
        }
    }
}

/// The number of inputs among `inputs` that report a dataflow that came up.
pub open spec fn launches_succeeded(inputs: Seq<Input>) -> nat
    decreases inputs.len(),
{
    if inputs.len() == 0 {
        0
    } else {
        launches_succeeded(inputs.drop_last()) + if is_successful_launch(inputs.last()) {
            1nat
        } else {
            0nat
        }
    }
}

/// Until it is shut down, a worker reports exactly one start for every
/// dataflow that came up, and none besides.
pub proof fn every_launch_is_reported_once(start: WorkerState, inputs: Seq<Input>)
    requires
        !start.terminated,
        forall|i: int| 0 <= i < inputs.len() ==> !(#[trigger] inputs[i] is Shutdown),
    ensures
        !state_after(start, inputs).terminated,
        starts_reported(events_of(start, inputs)) == launches_succeeded(inputs),
    decreases inputs.len(),
{
    if inputs.len() > 0 {
        let front = inputs.drop_last();
        let last = inputs.last();
        every_launch_is_reported_once(start, front);
        let before = state_after(start, front);
        let published = events_of(start, front);
        let fresh = before.emits(last);
        assert(!(last is Shutdown));
        if fresh.len() == 0 {
            assert(published + fresh =~= published);
        } else {
            assert(fresh.len() == 1);
            assert((published + fresh).drop_last() =~= published);
            assert((published + fresh).last() == fresh[0]);
        }
    }
}

/// The running flag as a reader of the events reckons it: set by a start
/// event, cleared by a stop event, left alone by an error event.
pub open spec fn flag_by_events(flag: bool, events: Seq<EventView>) -> bool
    decreases events.len(),
{
    if events.len() == 0 {
        flag
    } else {
        match events.last() {
            EventView::DataflowStarted { .. } => true,
            EventView::DataflowStopped => false,
            EventView::Error { .. } => flag_by_events(flag, events.drop_last()),
        }
    }
}

/// Until the worker is shut down, the events tell the running flag: who has
/// read every event published so far knows the flag's value from the last
/// start or stop event among them.
pub proof fn events_tell_the_flag(start: WorkerState, inputs: Seq<Input>)
    requires
        !start.terminated,
        forall|i: int| 0 <= i < inputs.len() ==> !(#[trigger] inputs[i] is Shutdown),
    ensures
        state_after(start, inputs).running() == flag_by_events(
            start.running(),
            events_of(start, inputs),
        ),
    decreases inputs.len(),
{
    if inputs.len() > 0 {
        let front = inputs.drop_last();
        let last = inputs.last();
        events_tell_the_flag(start, front);
        every_launch_is_reported_once(start, front);
        let before = state_after(start, front);
        let published = events_of(start, front);
        let fresh = before.emits(last);
        assert(!(last is Shutdown));
        if fresh.len() == 0 {
            assert(published + fresh =~= published);
        } else {
            assert(fresh.len() == 1);
            assert((published + fresh).drop_last() =~= published);
            assert((published + fresh).last() == fresh[0]);
        }
    }
}

} // verus!

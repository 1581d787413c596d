//! What holds of every run of the control loop, whatever the driver reports:
//! the steps come in order, a dwell once begun is never left for the ramp, a
//! cleared flag stops the loop, and heating is disabled before the loop
//! finishes.

use vstd::prelude::*;
use crate::control::{CalibrationStep, ControlOp, ControlState, ReadingView, Stage, TickView};

verus! {

/// Something that happens at the control loop: a poll with the run flag as
/// it was read, a tick with what was gathered for it, or the report that the
/// bath is lost.
pub enum ControlEvent<T> {
    Poll(bool),
    Tick(ReadingView<T>),
    BathFailed,
}

impl<T> ControlState<T> {
    /// The loop after one event.
    pub open spec fn after(self, event: ControlEvent<T>) -> Self {
        match event {
            ControlEvent::Poll(running) => self.after_poll(running),
            ControlEvent::Tick(reading) => self.after_tick(reading),
            ControlEvent::BathFailed => self.after_bath_failed(),
        }
    }

    /// The loop after a series of events.
    pub open spec fn after_all(self, events: Seq<ControlEvent<T>>) -> Self
        decreases events.len(),
    {
        if events.len() == 0 {
            self
        } else {
            self.after_all(events.drop_last()).after(events.last())
        }
    }

    /// What the driver was told to do over a series of events, one entry for
    /// each poll.
    pub open spec fn issued(self, events: Seq<ControlEvent<T>>) -> Seq<ControlOp<T>>
        decreases events.len(),
    {
        if events.len() == 0 {
            Seq::empty()
        } else {
            let earlier = self.issued(events.drop_last());
            match events.last() {
                ControlEvent::Poll(running) => earlier.push(
                    self.after_all(events.drop_last()).poll_op(running),
                ),
                ControlEvent::Tick(_) => earlier,
                ControlEvent::BathFailed => earlier,
            }
        }
    }
}

/// No event takes the loop out of the states its functions can leave it in,
/// and none changes the steps or takes a completed step back.
pub proof fn lemma_events_keep_the_run<T>(state: ControlState<T>, events: Seq<ControlEvent<T>>)
    requires
        state.wf(),
    ensures
        state.after_all(events).wf(),
        state.after_all(events).steps == state.steps,
        state.after_all(events).missing == state.missing,
        state.after_all(events).index >= state.index,
    decreases events.len(),
{
    if events.len() > 0 {
        lemma_events_keep_the_run(state, events.drop_last());
    }
}

/// While a step is in its ramp, its snapshots report no elapsed dwell time.
pub proof fn lemma_ramp_has_no_elapsed_time<T>(state: ControlState<T>, reading: ReadingView<T>)
    ensures
        state.tick_outcome(reading) matches TickView::Emit(snapshot) ==> (snapshot.phase is Ramp
            ==> snapshot.elapsed_dwell_seconds == 0),
{
}

/// A step without dwell is complete at the tick after the one that first
/// shows the bath stable: that tick reports the dwell phase with nothing
/// elapsed, the poll that follows asks for another tick, and that tick ends
/// the step whatever it reads.
pub proof fn lemma_zero_dwell_ends_on_next_tick<T>(
    state: ControlState<T>,
    first: ReadingView<T>,
    next: ReadingView<T>,
)
    requires
        state.wf(),
        state.stage is InStep,
        state.dwell_start is None,
        state.steps[state.index as int].dwell_duration == 0,
        first.is_stable,
    ensures
        state.tick_outcome(first) matches TickView::Emit(snapshot) && snapshot.phase is Dwell
            && snapshot.elapsed_dwell_seconds == 0,
        state.after_tick(first).poll_op(true) == ControlOp::<T>::Measure,
        state.after_tick(first).after_poll(true) == state.after_tick(first),
        state.after_tick(first).tick_outcome(next) == TickView::<T>::StepComplete,
        state.after_tick(first).after_tick(next).index == state.index + 1,
{
}

/// Once a step is in its dwell it stays there: whatever is polled and
/// whatever the ticks read of the bath's stability, as long as the loop is in
/// that step the dwell goes on from the same start, and a tick's snapshot
/// reports the dwell phase.
pub proof fn lemma_dwell_never_reverts<T>(
    state: ControlState<T>,
    events: Seq<ControlEvent<T>>,
    reading: ReadingView<T>,
)
    requires
        state.wf(),
        state.stage is InStep,
        state.dwell_start is Some,
    ensures
        ({
            let later = state.after_all(events);
            later.index == state.index ==> {
                &&& later.dwell_start == state.dwell_start
                &&& later.phase() is Dwell
                &&& !(later.stage is Created || later.stage is Heating || later.stage is StepDone)
                &&& (later.tick_outcome(reading) matches TickView::Emit(snapshot) ==> snapshot.phase is Dwell)
            }
        }),
    decreases events.len(),
{
    lemma_events_keep_the_run(state, events);
    if events.len() > 0 {
        lemma_events_keep_the_run(state, events.drop_last());
        lemma_dwell_never_reverts(state, events.drop_last(), reading);
    }
}

/// A cleared run flag ends the loop at the next look at it: inside a step or
/// after one, the poll disables heating, and the poll after that finishes,
/// whatever the flag says by then.
pub proof fn lemma_cleared_flag_stops_the_loop<T>(state: ControlState<T>, later_flag: bool)
    requires
        state.checks_flag(),
    ensures
        state.poll_op(false) == ControlOp::<T>::DisableHeating,
        state.after_poll(false).poll_op(later_flag) == ControlOp::<T>::Finish,
        state.after_poll(false).after_poll(later_flag).stage is Done,
{
}

/// A bath that is reported lost ends the loop in the same way, whatever
/// the flag says: the next poll disables heating and the one after it
/// finishes.
pub proof fn lemma_lost_bath_stops_the_loop<T>(state: ControlState<T>, flag: bool, later_flag: bool)
    requires
        !(state.stage is Stopping || state.stage is Done),
    ensures
        state.after_bath_failed().poll_op(flag) == ControlOp::<T>::DisableHeating,
        state.after_bath_failed().after_poll(flag).poll_op(later_flag) == ControlOp::<T>::Finish,
        state.after_bath_failed().after_poll(flag).after_poll(later_flag).stage is Done,
{
}

/// With the flag set and no step left, the loop ends by itself in the same
/// way.
pub proof fn lemma_last_step_ends_the_run<T>(state: ControlState<T>, later_flag: bool)
    requires
        state.stage is StepDone,
        state.index >= state.steps.len(),
    ensures
        state.poll_op(true) == ControlOp::<T>::DisableHeating,
        state.after_poll(true).poll_op(later_flag) == ControlOp::<T>::Finish,
{
}

/// Heating is disabled before the loop finishes: in what the driver is told
/// over any series of events from the start of a run, every `Finish` has a
/// `DisableHeating` before it.
pub proof fn lemma_heating_disabled_before_finish<T>(
    steps: Seq<CalibrationStep<T>>,
    missing: T,
    events: Seq<ControlEvent<T>>,
)
    requires
        steps.len() <= usize::MAX,
    ensures
        ({
            let ops = ControlState::initial(steps, missing).issued(events);
            forall|i: int|
                0 <= i < ops.len() && ops[i] == ControlOp::<T>::Finish ==> exists|j: int|
                    0 <= j < i && #[trigger] ops[j] == ControlOp::<T>::DisableHeating
        }),
{
    lemma_finish_needs_disable(steps, missing, events);
}

/// The loop is past disabling the heating exactly if the driver was told to
/// disable it, and only then is it told to finish.
proof fn lemma_finish_needs_disable<T>(
    steps: Seq<CalibrationStep<T>>,
    missing: T,
    events: Seq<ControlEvent<T>>,
)
    requires
        steps.len() <= usize::MAX,
    ensures
        ({
            let start = ControlState::initial(steps, missing);
            let ops = start.issued(events);
            let stage = start.after_all(events).stage;
            &&& (stage is Stopping || stage is Done) <==> exists|j: int|
                0 <= j < ops.len() && #[trigger] ops[j] == ControlOp::<T>::DisableHeating
            &&& forall|i: int|
                0 <= i < ops.len() && ops[i] == ControlOp::<T>::Finish ==> exists|j: int|
                    0 <= j < i && #[trigger] ops[j] == ControlOp::<T>::DisableHeating
        }),
    decreases events.len(),
{
    let start = ControlState::initial(steps, missing);
    if events.len() > 0 {
        let head = events.drop_last();
        lemma_finish_needs_disable(steps, missing, head);
        lemma_events_keep_the_run(start, head);
        let before = start.after_all(head);
        let earlier = start.issued(head);
        let ops = start.issued(events);
        match events.last() {
            ControlEvent::Poll(running) => {
                let op = before.poll_op(running);
                assert(ops == earlier.push(op));
                assert(forall|j: int| 0 <= j < earlier.len() ==> ops[j] == earlier[j]);
                assert(ops[earlier.len() as int] == op);
                if before.stage is Stopping || before.stage is Done {
                    let j = choose|j: int|
                        0 <= j < earlier.len() && #[trigger] earlier[j] == ControlOp::<T>::DisableHeating;
                    assert(ops[j] == ControlOp::<T>::DisableHeating);
                } else if op == ControlOp::<T>::DisableHeating {
                    assert(ops[earlier.len() as int] == ControlOp::<T>::DisableHeating);
                }
                assert forall|i: int| 0 <= i < ops.len() && ops[i] == ControlOp::<T>::Finish implies exists|
                    j: int,
                |
                    0 <= j < i && #[trigger] ops[j] == ControlOp::<T>::DisableHeating by {
                    if i < earlier.len() {
                        let j = choose|j: int|
                            0 <= j < i && #[trigger] earlier[j] == ControlOp::<T>::DisableHeating;
                        assert(ops[j] == ControlOp::<T>::DisableHeating);
                    } else {
                        let j = choose|j: int|
                            0 <= j < earlier.len() && #[trigger] earlier[j] == ControlOp::<T>::DisableHeating;
                        assert(ops[j] == ControlOp::<T>::DisableHeating);
                    }
                }
            },
            ControlEvent::Tick(reading) => {
                assert(ops == earlier);
            },
            ControlEvent::BathFailed => {
                assert(ops == earlier);
            },
        }
    }
}

/// The setpoints among what the driver was told to do, in order.
pub open spec fn setpoints<T>(ops: Seq<ControlOp<T>>) -> Seq<T>
    decreases ops.len(),
{
    if ops.len() == 0 {
        Seq::empty()
    } else {
        match ops.last() {
            ControlOp::SetSetpoint(target) => setpoints(ops.drop_last()).push(target),
            _ => setpoints(ops.drop_last()),
        }
    }
}

/// The setpoints of the first `count` steps, in order.
pub open spec fn targets<T>(steps: Seq<CalibrationStep<T>>, count: nat) -> Seq<T> {
    Seq::new(count, |i: int| steps[i].target_value)
}

/// The steps are taken in the order given, none twice and none skipped: over
/// any series of events from the start of a run, the setpoints the driver is
/// told to program are those of the first steps, in order, up to the step the
/// run is in.
pub proof fn lemma_setpoints_follow_the_steps<T>(
    steps: Seq<CalibrationStep<T>>,
    missing: T,
    events: Seq<ControlEvent<T>>,
)
    requires
        steps.len() <= usize::MAX,
    ensures
        ({
            let start = ControlState::initial(steps, missing);
            let programmed = setpoints(start.issued(events));
            let index = start.after_all(events).index;
            ||| programmed == targets(steps, index)
            ||| index < steps.len() && programmed == targets(steps, index + 1)
        }),
{
    lemma_setpoints_by_stage(steps, missing, events);
}

/// Which steps were programmed, stage by stage: inside a step all up to and
/// with the current one, before and between steps all the completed ones.
proof fn lemma_setpoints_by_stage<T>(
    steps: Seq<CalibrationStep<T>>,
    missing: T,
    events: Seq<ControlEvent<T>>,
)
    requires
        steps.len() <= usize::MAX,
    ensures
        ({
            let start = ControlState::initial(steps, missing);
            let programmed = setpoints(start.issued(events));
            let end = start.after_all(events);
            let with_current = end.index < steps.len() && programmed == targets(steps, end.index + 1);
            match end.stage {
                Stage::Created | Stage::Heating | Stage::StepDone => programmed == targets(steps, end.index),
                Stage::InStep => with_current,
                Stage::Failed | Stage::Stopping | Stage::Done => programmed == targets(steps, end.index)
                    || with_current,
            }
        }),
    decreases events.len(),
{
    let start = ControlState::initial(steps, missing);
    if events.len() == 0 {
        assert(setpoints(start.issued(events)) =~= targets(steps, 0));
    } else {
        let head = events.drop_last();
        lemma_setpoints_by_stage(steps, missing, head);
        lemma_events_keep_the_run(start, head);
        let before = start.after_all(head);
        let earlier = start.issued(head);
        match events.last() {
            ControlEvent::Poll(running) => {
                let op = before.poll_op(running);
                let ops = earlier.push(op);
                assert(ops.drop_last() =~= earlier);
                assert(ops.last() == op);
                if op is SetSetpoint {
                    assert(targets(steps, before.index + 1) =~= targets(steps, before.index).push(
                        steps[before.index as int].target_value,
                    ));
                }
            },
            ControlEvent::Tick(reading) => {},
            ControlEvent::BathFailed => {},
        }
    }
}

/// Every snapshot counts the steps from one and stays within their number.
pub proof fn lemma_snapshot_names_an_existing_step<T>(state: ControlState<T>, reading: ReadingView<T>)
    requires
        state.wf(),
    ensures
        state.tick_outcome(reading) matches TickView::Emit(snapshot) ==> {
            &&& 1 <= snapshot.step_index <= snapshot.total_steps
            &&& snapshot.total_steps == state.steps.len()
            &&& snapshot.total_dwell_seconds == 60 * state.steps[snapshot.step_index - 1].dwell_duration
            &&& snapshot.elapsed_dwell_seconds < snapshot.total_dwell_seconds || snapshot.elapsed_dwell_seconds
                == 0
        },
{
}

} // verus!

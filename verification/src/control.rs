//! The control loop of a run: which bath command comes next, when a tick is
//! due, how a step moves from ramp to dwell, and what each tick reports.
//!
//! The loop is a state machine that is driven from outside. At every point
//! where the run flag is looked at, the driver calls [`ControlLoop::poll`]
//! with the flag and does what comes back. When that is
//! [`ControlOp::Measure`], it reads the bath, drains the sample channel, takes
//! the two clocks and calls [`ControlLoop::tick`]; a snapshot that comes back
//! is emitted and followed by the tick interval's sleep, a completed step is
//! followed by the next poll at once.

use vstd::prelude::*;
use crate::thermistor::{process_ntc_packet, raw_samples};

verus! {

/// Time between two ticks of a step, in milliseconds.
pub const TICK_INTERVAL_MS: u64 = 1000;

/// Nanoseconds in a second, the unit of the monotonic clock of a tick.
pub const NANOS_PER_SECOND: u64 = 1_000_000_000;

/// One setpoint of a run.
#[derive(Clone, Copy, Debug, PartialEq)]
pub struct CalibrationStep<T> {
    /// The setpoint, in the bath's units.
    pub target_value: T,
    /// How long the setpoint is held once the bath is stable, in minutes.
    pub dwell_duration: u32,
}

/// The two phases of a step.
#[derive(Clone, Copy, Debug, PartialEq, Eq, Structural)]
pub enum Phase {
    /// The bath has not yet been seen stable at the setpoint.
    Ramp,
    /// The bath was seen stable; the dwell clock runs.
    Dwell,
}

/// The text that stands for a phase in an emitted snapshot.
pub open spec fn phase_token(phase: Phase) -> Seq<char> {
    match phase {
        Phase::Ramp => "RAMPA"@,
        Phase::Dwell => "DWELL"@,
    }
}

impl Phase {
    /// The text that stands for the phase in an emitted snapshot.
    pub fn token(&self) -> (text: &'static str)
        ensures
            text@ == phase_token(*self),
    {
        match self {
            Phase::Ramp => "RAMPA",
            Phase::Dwell => "DWELL",
        }
    }
}

/// The telemetry of one tick: the bath and the sensor board under one
/// timestamp, and where the run stands.
#[derive(Clone, Debug, PartialEq)]
pub struct CalibrationPayload<T> {
    /// Milliseconds since the epoch, taken once for the whole tick.
    pub timestamp: u64,
    /// The bath's temperature, or the stand-in where it gave none.
    pub reference_temperature: T,
    /// The raw sensor samples that arrived since the tick before, in order.
    pub sensor_samples: Vec<u16>,
    /// Whether the bath reports itself stable.
    pub is_stable: bool,
    /// The step the run is in, counted from one.
    pub step_index: usize,
    /// How many steps the run has.
    pub total_steps: usize,
    /// Whole seconds since the dwell began; zero during the ramp.
    pub elapsed_dwell_seconds: u64,
    /// The step's dwell in seconds.
    pub total_dwell_seconds: u64,
    /// The phase of the step.
    pub phase: Phase,
}

/// What a [`CalibrationPayload`] holds, as a mathematical value.
pub struct SnapshotView<T> {
    pub timestamp: u64,
    pub reference_temperature: T,
    pub sensor_samples: Seq<u16>,
    pub is_stable: bool,
    pub step_index: nat,
    pub total_steps: nat,
    pub elapsed_dwell_seconds: nat,
    pub total_dwell_seconds: nat,
    pub phase: Phase,
}

impl<T> View for CalibrationPayload<T> {
    type V = SnapshotView<T>;

    open spec fn view(&self) -> SnapshotView<T> {
        SnapshotView {
            timestamp: self.timestamp,
            reference_temperature: self.reference_temperature,
            sensor_samples: self.sensor_samples@,
            is_stable: self.is_stable,
            step_index: self.step_index as nat,
            total_steps: self.total_steps as nat,
            elapsed_dwell_seconds: self.elapsed_dwell_seconds as nat,
            total_dwell_seconds: self.total_dwell_seconds as nat,
            phase: self.phase,
        }
    }
}

/// What the driver gathered for one tick.
#[derive(Clone, Debug, PartialEq)]
pub struct TickReading<T> {
    /// Milliseconds since the epoch, taken once for the whole tick.
    pub timestamp: u64,
    /// A monotonic clock in nanoseconds, from an origin that is the same for
    /// every tick of the run.
    pub clock: u64,
    /// The bath's temperature; `None` where it did not answer or answered
    /// with something that is not a number.
    pub reference_temperature: Option<T>,
    /// Whether the bath reports itself stable.
    pub is_stable: bool,
    /// The chunks of stream bytes that were queued, in the order they were
    /// sent.
    pub chunks: Vec<Vec<u8>>,
}

/// What a [`TickReading`] holds, as a mathematical value; the chunks are
/// joined into one batch.
pub struct ReadingView<T> {
    pub timestamp: u64,
    pub clock: u64,
    pub reference_temperature: Option<T>,
    pub is_stable: bool,
    pub bytes: Seq<u8>,
}

/// The bytes of all chunks, one chunk after the other.
pub open spec fn joined(chunks: Seq<Vec<u8>>) -> Seq<u8>
    decreases chunks.len(),
{
    if chunks.len() == 0 {
        Seq::empty()
    } else {
        joined(chunks.drop_last()) + chunks.last()@
    }
}

impl<T> View for TickReading<T> {
    type V = ReadingView<T>;

    open spec fn view(&self) -> ReadingView<T> {
        ReadingView {
            timestamp: self.timestamp,
            clock: self.clock,
            reference_temperature: self.reference_temperature,
            is_stable: self.is_stable,
            bytes: joined(self.chunks@),
        }
    }
}

/// Where the control loop stands between two calls.
#[derive(Clone, Copy, Debug, PartialEq, Eq, Structural)]
pub enum Stage {
    /// Nothing was sent yet.
    Created,
    /// Heating was enabled; the first setpoint is due.
    Heating,
    /// The current step's setpoint is programmed and its ticks run.
    InStep,
    /// A step's dwell is over; the next step or the end of the run is due.
    StepDone,
    /// The driver reported that the bath is lost; disabling the heating is
    /// due.
    Failed,
    /// Heating was disabled; only leaving is left.
    Stopping,
    /// The loop has left.
    Done,
}

/// What the driver of the control loop does next.
#[derive(Clone, Copy, Debug, PartialEq)]
pub enum ControlOp<T> {
    /// Enable the bath's heating, then poll again.
    EnableHeating,
    /// Program this setpoint, then poll again.
    SetSetpoint(T),
    /// Gather a reading and hand it to the tick.
    Measure,
    /// Disable the bath's heating, then poll again.
    DisableHeating,
    /// Clear the run flag and leave the loop.
    Finish,
}

/// What a tick came to.
#[derive(Clone, Debug, PartialEq)]
pub enum TickOutcome<T> {
    /// Emit this snapshot, sleep for the tick interval, then poll.
    Emit(CalibrationPayload<T>),
    /// The step's dwell is over. Nothing is emitted; poll at once.
    StepComplete,
    /// No tick was due: the loop is not inside a step. Nothing changed.
    Idle,
}

/// What a [`TickOutcome`] holds, as a mathematical value.
pub enum TickView<T> {
    Emit(SnapshotView<T>),
    StepComplete,
    Idle,
}

impl<T> View for TickOutcome<T> {
    type V = TickView<T>;

    open spec fn view(&self) -> TickView<T> {
        match self {
            TickOutcome::Emit(payload) => TickView::Emit(payload@),
            TickOutcome::StepComplete => TickView::StepComplete,
            TickOutcome::Idle => TickView::Idle,
        }
    }
}

/// A step's dwell in seconds.
pub open spec fn dwell_seconds<T>(step: CalibrationStep<T>) -> nat {
    (step.dwell_duration as nat) * 60
}

/// Whole seconds from the clock reading `start` to the clock reading `now`;
/// zero where `now` lies before `start`.
pub open spec fn elapsed_seconds(start: u64, now: u64) -> nat {
    if now >= start {
        ((now - start) / (NANOS_PER_SECOND as int)) as nat
    } else {
        0
    }
}

/// The control loop as a mathematical value.
pub struct ControlState<T> {
    /// The steps of the run, in order.
    pub steps: Seq<CalibrationStep<T>>,
    /// What a snapshot reports where the bath gave no temperature.
    pub missing: T,
    /// How many steps are complete; the index of the current step.
    pub index: nat,
    /// Where the loop stands.
    pub stage: Stage,
    /// The clock reading at which the current step's dwell began, once the
    /// bath was seen stable in it.
    pub dwell_start: Option<u64>,
}

impl<T> ControlState<T> {
    /// The loop of a run that has not begun.
    pub open spec fn initial(steps: Seq<CalibrationStep<T>>, missing: T) -> Self {
        ControlState { steps, missing, index: 0, stage: Stage::Created, dwell_start: None }
    }

    /// The current step exists whenever the loop is inside one.
    pub open spec fn wf(self) -> bool {
        &&& self.index <= self.steps.len()
        &&& self.steps.len() <= usize::MAX
        &&& (self.stage is InStep ==> self.index < self.steps.len())
    }

    /// The phase of the current step.
    pub open spec fn phase(self) -> Phase {
        if self.dwell_start is Some {
            Phase::Dwell
        } else {
            Phase::Ramp
        }
    }

    /// Whether the run flag is looked at in this stage.
    pub open spec fn checks_flag(self) -> bool {
        self.stage is InStep || self.stage is StepDone
    }

    /// The loop once heating is disabled.
    pub open spec fn stopping(self) -> Self {
        ControlState { stage: Stage::Stopping, ..self }
    }

    /// The loop as it turns to the step at its index: inside that step, in
    /// its ramp, or stopping where no step is left.
    pub open spec fn entering(self) -> Self {
        if self.index < self.steps.len() {
            ControlState { stage: Stage::InStep, dwell_start: None, ..self }
        } else {
            self.stopping()
        }
    }

    /// What the driver is told as the loop turns to the step at its index.
    pub open spec fn entering_op(self) -> ControlOp<T> {
        if self.index < self.steps.len() {
            ControlOp::SetSetpoint(self.steps[self.index as int].target_value)
        } else {
            ControlOp::DisableHeating
        }
    }

    /// What a poll tells the driver to do.
    pub open spec fn poll_op(self, running: bool) -> ControlOp<T> {
        match self.stage {
            Stage::Created => ControlOp::EnableHeating,
            Stage::Heating => self.entering_op(),
            Stage::InStep => if running {
                ControlOp::Measure
            } else {
                ControlOp::DisableHeating
            },
            Stage::StepDone => if running {
                self.entering_op()
            } else {
                ControlOp::DisableHeating
            },
            Stage::Failed => ControlOp::DisableHeating,
            Stage::Stopping => ControlOp::Finish,
            Stage::Done => ControlOp::Finish,
        }
    }

    /// The loop after a poll.
    pub open spec fn after_poll(self, running: bool) -> Self {
        match self.stage {
            Stage::Created => ControlState { stage: Stage::Heating, ..self },
            Stage::Heating => self.entering(),
            Stage::InStep => if running {
                self
            } else {
                self.stopping()
            },
            Stage::StepDone => if running {
                self.entering()
            } else {
                self.stopping()
            },
            Stage::Failed => self.stopping(),
            Stage::Stopping => ControlState { stage: Stage::Done, ..self },
            Stage::Done => self,
        }
    }

    /// The loop after the driver reported that the bath is lost: whatever it
    /// was about to do, disabling the heating is due next. A loop that is
    /// already past that stays as it is.
    pub open spec fn after_bath_failed(self) -> Self {
        if self.stage is Stopping || self.stage is Done {
            self
        } else {
            ControlState { stage: Stage::Failed, ..self }
        }
    }

    /// Whether a tick with this clock reading ends the current step: the
    /// dwell has begun and has lasted its full length.
    pub open spec fn dwell_over(self, clock: u64) -> bool {
        &&& self.stage is InStep
        &&& self.dwell_start matches Some(start)
        &&& elapsed_seconds(start, clock) >= dwell_seconds(self.steps[self.index as int])
    }

    /// The snapshot of a tick inside a step that the tick does not end.
    pub open spec fn snapshot(self, reading: ReadingView<T>) -> SnapshotView<T> {
        SnapshotView {
            timestamp: reading.timestamp,
            reference_temperature: match reading.reference_temperature {
                Some(value) => value,
                None => self.missing,
            },
            sensor_samples: raw_samples(reading.bytes),
            is_stable: reading.is_stable,
            step_index: self.index + 1,
            total_steps: self.steps.len(),
            elapsed_dwell_seconds: match self.dwell_start {
                Some(start) => elapsed_seconds(start, reading.clock),
                None => 0,
            },
            total_dwell_seconds: dwell_seconds(self.steps[self.index as int]),
            phase: if self.dwell_start is Some || reading.is_stable {
                Phase::Dwell
            } else {
                Phase::Ramp
            },
        }
    }

    /// What a tick comes to.
    pub open spec fn tick_outcome(self, reading: ReadingView<T>) -> TickView<T> {
        if !(self.stage is InStep) {
            TickView::Idle
        } else if self.dwell_over(reading.clock) {
            TickView::StepComplete
        } else {
            TickView::Emit(self.snapshot(reading))
        }
    }

    /// The loop after a tick.
    pub open spec fn after_tick(self, reading: ReadingView<T>) -> Self {
        if !(self.stage is InStep) {
            self
        } else if self.dwell_over(reading.clock) {
            ControlState { index: self.index + 1, stage: Stage::StepDone, dwell_start: None, ..self }
        } else if self.dwell_start is None && reading.is_stable {
            ControlState { dwell_start: Some(reading.clock), ..self }
        } else {
            self
        }
    }
}

/// Joins the queued chunks into one batch, in the order they were sent.
pub fn concat_chunks(chunks: &Vec<Vec<u8>>) -> (bytes: Vec<u8>)
    ensures
        bytes@ == joined(chunks@),
{
    let mut bytes: Vec<u8> = Vec::new();
    let mut i: usize = 0;
    while i < chunks.len()
        invariant
            i <= chunks.len(),
            bytes@ == joined(chunks@.take(i as int)),
        decreases chunks.len() - i,
    {
        let chunk = &chunks[i];
        let ghost before = bytes@;
        let mut j: usize = 0;
        while j < chunk.len()
            invariant
                j <= chunk.len(),
                bytes@ == before + chunk@.take(j as int),
            decreases chunk.len() - j,
        {
            bytes.push(chunk[j]);
            assert(chunk@.take(j + 1) =~= chunk@.take(j as int).push(chunk@[j as int]));
            j += 1;
        }
        assert(chunk@.take(j as int) =~= chunk@);
        assert(chunks@.take(i + 1).drop_last() =~= chunks@.take(i as int));
        assert(chunks@.take(i + 1).last() == chunks@[i as int]);
        i += 1;
    }
    assert(chunks@.take(i as int) =~= chunks@);
    bytes
}

/// The control loop of one run.
pub struct ControlLoop<T> {
    steps: Vec<CalibrationStep<T>>,
    missing: T,
    index: usize,
    stage: Stage,
    dwell_start: Option<u64>,
}

impl<T> View for ControlLoop<T> {
    type V = ControlState<T>;

    closed spec fn view(&self) -> ControlState<T> {
        ControlState {
            steps: self.steps@,
            missing: self.missing,
            index: self.index as nat,
            stage: self.stage,
            dwell_start: self.dwell_start,
        }
    }
}

impl<T> ControlLoop<T> {
    /// The loop is always in a state that its own functions can have left
    /// it in.
    #[verifier::type_invariant]
    spec fn well_formed(&self) -> bool {
        self@.wf()
    }
}

impl<T: Copy> ControlLoop<T> {

    /// The loop of a run over the given steps, before anything was sent.
    /// `missing` is what snapshots report where the bath gave no
    /// temperature.
    pub fn new(steps: Vec<CalibrationStep<T>>, missing: T) -> (ctl: Self)
        ensures
            ctl@.wf(),
            ctl@ == ControlState::initial(steps@, missing),
    {
        assert(steps@.len() == steps.len());
        ControlLoop { steps, missing, index: 0, stage: Stage::Created, dwell_start: None }
    }

    /// Where the loop stands.
    pub fn stage(&self) -> (stage: Stage)
        ensures
            stage == self@.stage,
    {
        self.stage
    }

    /// The phase of the current step.
    pub fn phase(&self) -> (phase: Phase)
        ensures
            phase == self@.phase(),
    {
        match self.dwell_start {
            Some(_) => Phase::Dwell,
            None => Phase::Ramp,
        }
    }

    /// How many steps are complete.
    pub fn completed_steps(&self) -> (count: usize)
        ensures
            count == self@.index,
    {
        self.index
    }

    /// Turns to the step at the index, or to stopping where none is left.
    fn enter_step(&mut self) -> (op: ControlOp<T>)
        ensures
            final(self)@ == old(self)@.entering(),
            op == old(self)@.entering_op(),
    {
        proof {
            use_type_invariant(&*self);
        }
        if self.index < self.steps.len() {
            self.stage = Stage::InStep;
            self.dwell_start = None;
            ControlOp::SetSetpoint(self.steps[self.index].target_value)
        } else {
            self.stage = Stage::Stopping;
            ControlOp::DisableHeating
        }
    }

    /// Decides what the driver does next, given the run flag as it was just
    /// read.
    ///
    /// A fresh loop enables heating and then programs the first setpoint,
    /// whatever the flag says. Inside a step a set flag asks for a tick.
    /// After a step a set flag programs the next setpoint, or disables
    /// heating where the step was the last. A cleared flag, inside or after a
    /// step, disables heating at once, and so does a bath that was reported
    /// lost. Once heating is disabled the loop finishes, and stays finished.
    pub fn poll(&mut self, running: bool) -> (op: ControlOp<T>)
        ensures
            final(self)@.wf(),
            final(self)@ == old(self)@.after_poll(running),
            op == old(self)@.poll_op(running),
    {
        proof {
            use_type_invariant(&*self);
        }
        match self.stage {
            Stage::Created => {
                self.stage = Stage::Heating;
                ControlOp::EnableHeating
            },
            Stage::Heating => self.enter_step(),
            Stage::InStep => {
                if running {
                    ControlOp::Measure
                } else {
                    self.stage = Stage::Stopping;
                    ControlOp::DisableHeating
                }
            },
            Stage::StepDone => {
                if running {
                    self.enter_step()
                } else {
                    self.stage = Stage::Stopping;
                    ControlOp::DisableHeating
                }
            },
            Stage::Failed => {
                self.stage = Stage::Stopping;
                ControlOp::DisableHeating
            },
            Stage::Stopping => {
                self.stage = Stage::Done;
                ControlOp::Finish
            },
            Stage::Done => ControlOp::Finish,
        }
    }

    /// Takes note that the bath is lost: its port could not be opened, or it
    /// is gone. The run ends as after a cleared flag: the next poll disables
    /// the heating and the one after it finishes.
    pub fn bath_failed(&mut self)
        ensures
            final(self)@.wf(),
            final(self)@ == old(self)@.after_bath_failed(),
    {
        proof {
            use_type_invariant(&*self);
        }
        match self.stage {
            Stage::Stopping | Stage::Done => {},
            _ => {
                self.stage = Stage::Failed;
            },
        }
    }

    /// Advances the current step by one tick and says what to report.
    ///
    /// In the ramp, the first reading that shows the bath stable starts the
    /// dwell at that reading's clock; the snapshot of that tick is already in
    /// the dwell phase, with no time elapsed. In the dwell, the elapsed time
    /// is the whole seconds since its start, whatever the bath says of its
    /// stability; once it reaches the step's dwell the step is complete and
    /// no snapshot is made. Every snapshot carries the reading's timestamp,
    /// the bath's temperature or the stand-in for a missing one, and the raw
    /// samples of the queued chunks. Outside a step nothing happens.
    pub fn tick(&mut self, reading: TickReading<T>) -> (outcome: TickOutcome<T>)
        ensures
            final(self)@.wf(),
            final(self)@ == old(self)@.after_tick(reading@),
            outcome@ == old(self)@.tick_outcome(reading@),
    {
        proof {
            use_type_invariant(&*self);
        }
        match self.stage {
            Stage::InStep => {},
            _ => {
                return TickOutcome::Idle;
            },
        }
        let total: u64 = self.steps[self.index].dwell_duration as u64 * 60;
        let mut phase = Phase::Ramp;
        let mut elapsed: u64 = 0;
        match self.dwell_start {
            Some(start) => {
                if reading.clock >= start {
                    elapsed = (reading.clock - start) / NANOS_PER_SECOND;
                }
                if elapsed >= total {
                    self.stage = Stage::StepDone;
                    self.dwell_start = None;
                    self.index = self.index + 1;
                    return TickOutcome::StepComplete;
                }
                phase = Phase::Dwell;
            },
            None => {
                if reading.is_stable {
                    self.dwell_start = Some(reading.clock);
                    phase = Phase::Dwell;
                }
            },
        }
        let reference_temperature: T = match reading.reference_temperature {
            Some(value) => value,
            None => self.missing,
        };
        let sensor_samples = process_ntc_packet(concat_chunks(&reading.chunks));
        TickOutcome::Emit(
            CalibrationPayload {
                timestamp: reading.timestamp,
                reference_temperature,
                sensor_samples,
                is_stable: reading.is_stable,
                step_index: self.index + 1,
                total_steps: self.steps.len(),
                elapsed_dwell_seconds: elapsed,
                total_dwell_seconds: total,
                phase,
            },
        )
    }
}

} // verus!

//! The acquisition loop of a run: it starts the sample stream, asks for a
//! non-blocking read on every turn while the run flag is set, and stops the
//! stream when the flag is cleared.
//!
//! Like the control loop it is driven from outside: the driver calls
//! [`AcquisitionLoop::poll`] with the run flag as it was just read and does
//! what comes back. After a read it sends on what [`AcquisitionLoop::forward`]
//! lets through and sleeps for the poll interval.

use vstd::prelude::*;
use crate::serial::{SerialDevice, start_stream_frame, start_stream_request, stop_stream_frame, stop_stream_request};

verus! {

/// Time between two reads of the stream, in milliseconds.
pub const POLL_INTERVAL_MS: u64 = 10;

/// The sensor whose samples a run streams.
pub const STREAM_SENSOR_ID: u8 = 0x04;

/// Sample frequency of the stream, in hertz.
pub const STREAM_FREQUENCY_HZ: u16 = 100;

/// Packet size asked of the stream.
pub const STREAM_PACKET_SIZE: u8 = 128;

/// The unit addressed by the request that stops the stream.
pub const STOP_MU_ID: u8 = 0x01;

/// Where the acquisition loop stands between two calls.
#[derive(Clone, Copy, Debug, PartialEq, Eq, Structural)]
pub enum AcquisitionStage {
    /// Nothing was sent yet.
    Created,
    /// The start request was handed out; the first look at the flag is due.
    Starting,
    /// The stream runs.
    Streaming,
    /// The stop request was handed out; only leaving is left.
    Stopping,
    /// The loop has left.
    Done,
}

/// What the driver of the acquisition loop does next.
#[derive(Clone, Debug, PartialEq, Eq)]
pub enum AcquisitionOp {
    /// Write this request to the sensor link, then poll; where the write
    /// fails, report it with [`AcquisitionLoop::start_failed`] first.
    StartStreaming(Vec<u8>),
    /// Read what the link has buffered, send it on if it is not empty, sleep
    /// for the poll interval, then poll.
    Poll,
    /// Write this request to the sensor link, then poll.
    StopStreaming(Vec<u8>),
    /// Leave the loop and release the sensor link.
    Exit,
}

/// What an [`AcquisitionOp`] holds, as a mathematical value.
pub enum AcquisitionOpView {
    StartStreaming(Seq<u8>),
    Poll,
    StopStreaming(Seq<u8>),
    Exit,
}

impl View for AcquisitionOp {
    type V = AcquisitionOpView;

    open spec fn view(&self) -> AcquisitionOpView {
        match self {
            AcquisitionOp::StartStreaming(frame) => AcquisitionOpView::StartStreaming(frame@),
            AcquisitionOp::Poll => AcquisitionOpView::Poll,
            AcquisitionOp::StopStreaming(frame) => AcquisitionOpView::StopStreaming(frame@),
            AcquisitionOp::Exit => AcquisitionOpView::Exit,
        }
    }
}

/// The acquisition loop as a mathematical value.
pub struct AcquisitionState {
    /// The local id of the sensor link's unit; `None` where the run has no
    /// sensor link.
    pub local_id: Option<u8>,
    /// Where the loop stands.
    pub stage: AcquisitionStage,
}

impl AcquisitionState {
    /// The loop of a run that has not begun.
    pub open spec fn initial(local_id: Option<u8>) -> Self {
        AcquisitionState { local_id, stage: AcquisitionStage::Created }
    }

    /// Whether the run flag is looked at in this stage.
    pub open spec fn checks_flag(self) -> bool {
        self.stage is Starting || self.stage is Streaming
    }

    /// The request that starts the run's stream on the unit `local_id`.
    pub open spec fn start_request(local_id: u8) -> Seq<u8> {
        start_stream_frame(local_id, STREAM_SENSOR_ID, STREAM_FREQUENCY_HZ, STREAM_PACKET_SIZE)
    }

    /// The request that stops the run's stream.
    pub open spec fn stop_request() -> Seq<u8> {
        stop_stream_frame(STOP_MU_ID, STREAM_SENSOR_ID)
    }

    /// What a poll tells the driver to do.
    pub open spec fn poll_op(self, running: bool) -> AcquisitionOpView {
        match self.stage {
            AcquisitionStage::Created => match self.local_id {
                Some(local_id) => AcquisitionOpView::StartStreaming(Self::start_request(local_id)),
                None => AcquisitionOpView::Exit,
            },
            AcquisitionStage::Starting | AcquisitionStage::Streaming => if running {
                AcquisitionOpView::Poll
            } else {
                AcquisitionOpView::StopStreaming(Self::stop_request())
            },
            AcquisitionStage::Stopping => AcquisitionOpView::Exit,
            AcquisitionStage::Done => AcquisitionOpView::Exit,
        }
    }

    /// The loop after a poll.
    pub open spec fn after_poll(self, running: bool) -> Self {
        match self.stage {
            AcquisitionStage::Created => match self.local_id {
                Some(_) => AcquisitionState { stage: AcquisitionStage::Starting, ..self },
                None => AcquisitionState { stage: AcquisitionStage::Done, ..self },
            },
            AcquisitionStage::Starting | AcquisitionStage::Streaming => if running {
                AcquisitionState { stage: AcquisitionStage::Streaming, ..self }
            } else {
                AcquisitionState { stage: AcquisitionStage::Stopping, ..self }
            },
            AcquisitionStage::Stopping => AcquisitionState { stage: AcquisitionStage::Done, ..self },
            AcquisitionStage::Done => self,
        }
    }

    /// The loop after the driver reported that the start request could not
    /// be written: it has left, and no stop request will be sent. The report
    /// counts only right after the start request was handed out.
    pub open spec fn after_start_failed(self) -> Self {
        if self.stage is Starting {
            AcquisitionState { stage: AcquisitionStage::Done, ..self }
        } else {
            self
        }
    }
}

/// What is sent on from one read: the batch itself, unless it is empty.
pub open spec fn forwarded(batch: Seq<u8>) -> Option<Seq<u8>> {
    if batch.len() > 0 {
        Some(batch)
    } else {
        None
    }
}

/// A cleared run flag ends the loop at the next look at it: the poll hands
/// out the stop request, and the poll after that leaves, whatever the flag
/// says by then.
pub proof fn lemma_cleared_flag_stops_the_stream(state: AcquisitionState, later_flag: bool)
    requires
        state.checks_flag(),
    ensures
        state.poll_op(false) == AcquisitionOpView::StopStreaming(AcquisitionState::stop_request()),
        state.after_poll(false).poll_op(later_flag) == AcquisitionOpView::Exit,
        state.after_poll(false).after_poll(later_flag).stage is Done,
{
}

/// A start request that could not be written ends the loop without a stop
/// request.
pub proof fn lemma_failed_start_leaves_at_once(local_id: u8, flag: bool)
    ensures
        ({
            let started = AcquisitionState::initial(Some(local_id)).after_poll(flag);
            &&& started.stage is Starting
            &&& started.after_start_failed().poll_op(flag) == AcquisitionOpView::Exit
        }),
{
}

/// Something that happens at the acquisition loop: a poll with the run flag
/// as it was read, or the report that the start request could not be
/// written.
pub enum AcquisitionEvent {
    Poll(bool),
    StartFailed,
}

impl AcquisitionState {
    /// The loop after one event.
    pub open spec fn after(self, event: AcquisitionEvent) -> Self {
        match event {
            AcquisitionEvent::Poll(running) => self.after_poll(running),
            AcquisitionEvent::StartFailed => self.after_start_failed(),
        }
    }

    /// The loop after a series of events.
    pub open spec fn after_all(self, events: Seq<AcquisitionEvent>) -> Self
        decreases events.len(),
    {
        if events.len() == 0 {
            self
        } else {
            self.after_all(events.drop_last()).after(events.last())
        }
    }

    /// What the driver was told to do over a series of events, one entry for
    /// each poll.
    pub open spec fn issued(self, events: Seq<AcquisitionEvent>) -> Seq<AcquisitionOpView>
        decreases events.len(),
    {
        if events.len() == 0 {
            Seq::empty()
        } else {
            let earlier = self.issued(events.drop_last());
            match events.last() {
                AcquisitionEvent::Poll(running) => earlier.push(
                    self.after_all(events.drop_last()).poll_op(running),
                ),
                AcquisitionEvent::StartFailed => earlier,
            }
        }
    }
}

/// A stream that was started is stopped before the loop leaves: over any
/// series of polls of a run with a sensor link, every `Exit` has the stop
/// request before it, and the stop request has the start request before it.
pub proof fn lemma_stream_stopped_before_exit(local_id: u8, flags: Seq<bool>)
    ensures
        ({
            let events = Seq::new(flags.len(), |i: int| AcquisitionEvent::Poll(flags[i]));
            let ops = AcquisitionState::initial(Some(local_id)).issued(events);
            &&& forall|i: int|
                0 <= i < ops.len() && ops[i] == AcquisitionOpView::Exit ==> exists|j: int|
                    0 <= j < i && #[trigger] ops[j] == AcquisitionOpView::StopStreaming(
                        AcquisitionState::stop_request(),
                    )
            &&& forall|i: int|
                0 <= i < ops.len() && #[trigger] ops[i] is StopStreaming ==> i > 0 && ops[0]
                    == AcquisitionOpView::StartStreaming(AcquisitionState::start_request(local_id))
        }),
{
    lemma_exit_needs_stop(local_id, flags);
}

/// The loop of a run with a sensor link is past the stop request exactly if
/// the driver was handed it, and only then is it told to leave.
proof fn lemma_exit_needs_stop(local_id: u8, flags: Seq<bool>)
    ensures
        ({
            let events = Seq::new(flags.len(), |i: int| AcquisitionEvent::Poll(flags[i]));
            let start = AcquisitionState::initial(Some(local_id));
            let ops = start.issued(events);
            let end = start.after_all(events);
            let stop = AcquisitionOpView::StopStreaming(AcquisitionState::stop_request());
            &&& end.local_id == Some(local_id)
            &&& ops.len() == flags.len()
            &&& end.stage is Created <==> flags.len() == 0
            &&& flags.len() > 0 ==> ops[0] == AcquisitionOpView::StartStreaming(
                AcquisitionState::start_request(local_id),
            )
            &&& (end.stage is Stopping || end.stage is Done) <==> exists|j: int|
                0 <= j < ops.len() && #[trigger] ops[j] == stop
            &&& forall|i: int|
                0 <= i < ops.len() && ops[i] == AcquisitionOpView::Exit ==> exists|j: int|
                    0 <= j < i && #[trigger] ops[j] == stop
            &&& forall|i: int| 0 <= i < ops.len() && #[trigger] ops[i] is StopStreaming ==> i > 0
        }),
    decreases flags.len(),
{
    let events = Seq::new(flags.len(), |i: int| AcquisitionEvent::Poll(flags[i]));
    let start = AcquisitionState::initial(Some(local_id));
    let stop = AcquisitionOpView::StopStreaming(AcquisitionState::stop_request());
    if flags.len() > 0 {
        let head_flags = flags.drop_last();
        let head = Seq::new(head_flags.len(), |i: int| AcquisitionEvent::Poll(head_flags[i]));
        assert(events.drop_last() =~= head);
        assert(events.last() == AcquisitionEvent::Poll(flags.last()));
        lemma_exit_needs_stop(local_id, head_flags);
        let before = start.after_all(head);
        let earlier = start.issued(head);
        let op = before.poll_op(flags.last());
        let ops = start.issued(events);
        assert(ops == earlier.push(op));
        assert(forall|j: int| 0 <= j < earlier.len() ==> ops[j] == earlier[j]);
        assert(ops[earlier.len() as int] == op);
        if before.stage is Stopping || before.stage is Done {
            let j = choose|j: int| 0 <= j < earlier.len() && #[trigger] earlier[j] == stop;
            assert(ops[j] == stop);
        } else if op == stop {
            assert(ops[earlier.len() as int] == stop);
        }
        assert forall|i: int| 0 <= i < ops.len() && ops[i] == AcquisitionOpView::Exit implies exists|j: int|
            0 <= j < i && #[trigger] ops[j] == stop by {
            if i < earlier.len() {
                let j = choose|j: int| 0 <= j < i && #[trigger] earlier[j] == stop;
                assert(ops[j] == stop);
            } else {
                let j = choose|j: int| 0 <= j < earlier.len() && #[trigger] earlier[j] == stop;
                assert(ops[j] == stop);
            }
        }
    }
}

/// The acquisition loop of one run.
pub struct AcquisitionLoop {
    local_id: Option<u8>,
    stage: AcquisitionStage,
}

impl View for AcquisitionLoop {
    type V = AcquisitionState;

    closed spec fn view(&self) -> AcquisitionState {
        AcquisitionState { local_id: self.local_id, stage: self.stage }
    }
}

/// The local id of a link that may be absent.
pub open spec fn local_id_of(device: Option<&SerialDevice>) -> Option<u8> {
    match device {
        Some(link) => Some(link.local_id),
        None => None,
    }
}

impl AcquisitionLoop {
    /// The loop of a run on the given sensor link, before anything was sent.
    /// Without a link the loop leaves at its first poll.
    pub fn new(device: Option<&SerialDevice>) -> (acq: Self)
        ensures
            acq@ == AcquisitionState::initial(local_id_of(device)),
    {
        let local_id = match device {
            Some(link) => Some(link.local_id),
            None => None,
        };
        AcquisitionLoop { local_id, stage: AcquisitionStage::Created }
    }

    /// Where the loop stands.
    pub fn stage(&self) -> (stage: AcquisitionStage)
        ensures
            stage == self@.stage,
    {
        self.stage
    }

    /// Decides what the driver does next, given the run flag as it was just
    /// read.
    ///
    /// A fresh loop hands out the start request, whatever the flag says.
    /// After that a set flag asks for a read and a cleared flag hands out the
    /// stop request, after which the loop leaves, and stays left.
    pub fn poll(&mut self, running: bool) -> (op: AcquisitionOp)
        ensures
            final(self)@ == old(self)@.after_poll(running),
            op@ == old(self)@.poll_op(running),
    {
        match self.stage {
            AcquisitionStage::Created => match self.local_id {
                Some(local_id) => {
                    self.stage = AcquisitionStage::Starting;
                    AcquisitionOp::StartStreaming(
                        start_stream_request(local_id, STREAM_SENSOR_ID, STREAM_FREQUENCY_HZ, STREAM_PACKET_SIZE),
                    )
                },
                None => {
                    self.stage = AcquisitionStage::Done;
                    AcquisitionOp::Exit
                },
            },
            AcquisitionStage::Starting | AcquisitionStage::Streaming => {
                if running {
                    self.stage = AcquisitionStage::Streaming;
                    AcquisitionOp::Poll
                } else {
                    self.stage = AcquisitionStage::Stopping;
                    AcquisitionOp::StopStreaming(stop_stream_request(STOP_MU_ID, STREAM_SENSOR_ID))
                }
            },
            AcquisitionStage::Stopping => {
                self.stage = AcquisitionStage::Done;
                AcquisitionOp::Exit
            },
            AcquisitionStage::Done => AcquisitionOp::Exit,
        }
    }

    /// Takes note that the start request could not be written.
    pub fn start_failed(&mut self)
        ensures
            final(self)@ == old(self)@.after_start_failed(),
    {
        if self.stage == AcquisitionStage::Starting {
            self.stage = AcquisitionStage::Done;
        }
    }

    /// Decides what is sent on to the control loop from one read: the batch
    /// itself, unless it is empty.
    pub fn forward(batch: Vec<u8>) -> (chunk: Option<Vec<u8>>)
        ensures
            match forwarded(batch@) {
                Some(bytes) => chunk matches Some(sent) && sent@ == bytes,
                None => chunk is None,
            },
    {
        if batch.len() > 0 {
            Some(batch)
        } else {
            None
        }
    }
}

} // verus!

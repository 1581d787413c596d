//! The entry points of a run: the run flag, the shared sensor link and its
//! one-time setup, and the start and stop of a run.

use vstd::prelude::*;
use vstd::string::*;
use crate::acquisition::{AcquisitionLoop, AcquisitionState};
use crate::control::{CalibrationStep, ControlLoop, ControlState};
use crate::fluke::{Fluke9142, bath_missing_text};
use crate::serial::{
    DeviceView, LinkError, PortEntry, PortView, SerialDevice, chosen_link, error_text, handshake_frame,
    port_views, reply_uid,
};

verus! {

/// USB vendor id of the sensor board's serial adapter.
pub const SENSOR_VID: u16 = 0x10c4;

/// USB product id of the sensor board's serial adapter.
pub const SENSOR_PID: u16 = 0xea60;

/// Baud rate of the sensor link.
pub const SENSOR_BAUD: u32 = 115200;

/// Local id of the measurement unit on the sensor link.
pub const SENSOR_LOCAL_ID: u8 = 0x00;

/// The flag that says whether a run is going on. Both loops of a run look at
/// it, and a cleared flag is the only way a run is told to stop.
#[derive(Clone, Copy, Debug, PartialEq, Eq)]
pub struct RunState {
    running: bool,
}

impl RunState {
    /// Whether a run is going on.
    pub closed spec fn running(&self) -> bool {
        self.running
    }

    /// The flag as it is before any run: cleared.
    pub fn new() -> (run: Self)
        ensures
            !run.running(),
    {
        RunState { running: false }
    }

    /// Whether a run is going on.
    pub fn is_running(&self) -> (running: bool)
        ensures
            running == self.running(),
    {
        self.running
    }
}

/// How far the setup of the shared sensor link has come.
#[derive(Clone, Copy, Debug, PartialEq, Eq, Structural)]
pub enum SetupStage {
    /// No link, and no setup under way.
    Empty,
    /// The list of serial devices was asked for.
    Listing,
    /// A port was chosen and is being opened.
    Opening,
    /// The port is open and the handshake request was handed out.
    Greeting,
    /// The link is open and the handshake is done.
    Ready,
}

/// Why the setup of the sensor link gave up, and at which of its two parts:
/// before the port was open, or in the handshake on the open port.
#[derive(Clone, Copy, Debug, PartialEq, Eq, Structural)]
pub struct SetupFailure {
    pub error: LinkError,
    pub in_handshake: bool,
}

/// The sentence that tells a person why the setup gave up. `detail` is what
/// the operating system said of the failed call. Before the port is open the
/// sentence names a hardware error, with the device that was not found or
/// with the detail; in the handshake it names a unit that does not answer,
/// with the detail, and for a reply that did not come with that said before
/// the detail.
pub open spec fn failure_text(failure: SetupFailure, detail: Seq<char>) -> Seq<char> {
    if failure.in_handshake {
        if failure.error is HandshakeTimeout {
            "MU non risponde: "@ + error_text(failure.error) + ": "@ + detail
        } else {
            "MU non risponde: "@ + detail
        }
    } else {
        if failure.error is DeviceNotFound {
            "Errore hardware: "@ + error_text(failure.error)
        } else {
            "Errore hardware: "@ + detail
        }
    }
}

impl SetupFailure {
    /// The sentence that tells a person why the setup gave up. `detail` is
    /// what the operating system said of the failed call.
    pub fn message(&self, detail: &str) -> (text: String)
        ensures
            text@ == failure_text(*self, detail@),
    {
        if self.in_handshake {
            match self.error {
                LinkError::HandshakeTimeout => {
                    let reason = self.error.message();
                    String::from_str("MU non risponde: ").concat(reason.as_str()).concat(": ").concat(detail)
                },
                _ => String::from_str("MU non risponde: ").concat(detail),
            }
        } else {
            match self.error {
                LinkError::DeviceNotFound { vid, pid } => {
                    let reason = self.error.message();
                    String::from_str("Errore hardware: ").concat(reason.as_str())
                },
                _ => String::from_str("Errore hardware: ").concat(detail),
            }
        }
    }
}

/// What the driver reports to the setup of the sensor link.
#[derive(Clone, Debug, PartialEq, Eq)]
pub enum SetupEvent {
    /// A run asks for the sensor link.
    Begin,
    /// The serial devices that are present; `None` where they could not be
    /// listed.
    Ports(Option<Vec<PortEntry>>),
    /// Whether the chosen port could be opened.
    Opened(bool),
    /// The handshake request could not be written or flushed.
    WriteFailed,
    /// The four bytes read back after the handshake request; `None` where
    /// fewer arrived within the read timeout.
    Reply(Option<[u8; 4]>),
}

/// What a [`SetupEvent`] holds, as a mathematical value.
pub enum SetupEventView {
    Begin,
    Ports(Option<Seq<PortView>>),
    Opened(bool),
    WriteFailed,
    Reply(Option<Seq<u8>>),
}

impl View for SetupEvent {
    type V = SetupEventView;

    open spec fn view(&self) -> SetupEventView {
        match self {
            SetupEvent::Begin => SetupEventView::Begin,
            SetupEvent::Ports(Some(ports)) => SetupEventView::Ports(Some(port_views(ports@))),
            SetupEvent::Ports(None) => SetupEventView::Ports(None),
            SetupEvent::Opened(opened) => SetupEventView::Opened(*opened),
            SetupEvent::WriteFailed => SetupEventView::WriteFailed,
            SetupEvent::Reply(Some(bytes)) => SetupEventView::Reply(Some(bytes@)),
            SetupEvent::Reply(None) => SetupEventView::Reply(None),
        }
    }
}

/// What the driver of the setup does next.
#[derive(Clone, Debug, PartialEq, Eq)]
pub enum SetupOp {
    /// The link is ready for use; there is nothing to do.
    Ready,
    /// List the serial devices and report them.
    ListPorts,
    /// Open this link's port with its baud rate and read timeout, and
    /// report whether that worked.
    Open(SerialDevice),
    /// Clear the input buffer, write and flush this request, wait for the
    /// settle delay, read four bytes, and report them.
    Handshake(Vec<u8>),
    /// Give up and hand this failure to whoever asked for the link.
    Abort(SetupFailure),
}

/// What a [`SetupOp`] holds, as a mathematical value.
pub enum SetupOpView {
    Ready,
    ListPorts,
    Open(DeviceView),
    Handshake(Seq<u8>),
    Abort(SetupFailure),
}

impl View for SetupOp {
    type V = SetupOpView;

    open spec fn view(&self) -> SetupOpView {
        match self {
            SetupOp::Ready => SetupOpView::Ready,
            SetupOp::ListPorts => SetupOpView::ListPorts,
            SetupOp::Open(device) => SetupOpView::Open(device@),
            SetupOp::Handshake(frame) => SetupOpView::Handshake(frame@),
            SetupOp::Abort(failure) => SetupOpView::Abort(*failure),
        }
    }
}

/// The shared sensor link as a mathematical value.
pub struct HandleView {
    /// How far the setup has come.
    pub stage: SetupStage,
    /// The link, from the moment a port is chosen for it.
    pub device: Option<DeviceView>,
    /// Why the last setup gave up, as long as no new one was begun.
    pub failure: Option<SetupFailure>,
}

impl HandleView {
    /// A handle without a link, on which no setup has failed.
    pub open spec fn empty() -> Self {
        HandleView { stage: SetupStage::Empty, device: None, failure: None }
    }

    /// A handle without a link, whose setup gave up.
    pub open spec fn failed(error: LinkError, in_handshake: bool) -> Self {
        HandleView {
            stage: SetupStage::Empty,
            device: None,
            failure: Some(SetupFailure { error, in_handshake }),
        }
    }

    /// What the driver is told as the setup gives up.
    pub open spec fn abort(error: LinkError, in_handshake: bool) -> SetupOpView {
        SetupOpView::Abort(SetupFailure { error, in_handshake })
    }

    /// A link is held exactly from the moment a port is chosen, and a
    /// failure is remembered only by a handle without one.
    pub open spec fn wf(self) -> bool {
        &&& (self.stage is Empty || self.stage is Listing) <==> self.device is None
        &&& self.failure is Some ==> self.stage is Empty
    }

    /// Why a run cannot be started on this handle, if it cannot: the error of
    /// the setup that gave up, or `LockUnavailable` where no setup has run
    /// to its end. A ready handle refuses nothing.
    pub open spec fn refusal(self) -> Option<LinkError> {
        if self.ready() {
            None
        } else {
            match self.failure {
                Some(failure) => Some(failure.error),
                None => Some(LinkError::LockUnavailable),
            }
        }
    }

    /// Whether the link is open and its handshake done.
    pub open spec fn ready(self) -> bool {
        self.stage is Ready
    }

    /// The handle as a setup starts over: the devices are being listed.
    pub open spec fn listing() -> Self {
        HandleView { stage: SetupStage::Listing, device: None, failure: None }
    }

    /// The handle after an event, and what the driver is told to do.
    ///
    /// A ready handle stays as it is whatever is reported. Otherwise each
    /// stage takes the report it waits for: the listed devices choose the
    /// port, the opened port brings the handshake request, and the reply
    /// makes the link ready under the identifier that the reply carries. A
    /// failure at any of them empties the handle, which remembers it. A
    /// request for the link, or a report that the stage does not wait for,
    /// starts the setup over.
    pub open spec fn step(self, event: SetupEventView) -> (HandleView, SetupOpView) {
        if self.stage is Ready {
            (self, SetupOpView::Ready)
        } else {
            match (self.stage, event) {
                (SetupStage::Listing, SetupEventView::Ports(Some(ports))) => match chosen_link(
                    ports,
                    SENSOR_VID,
                    SENSOR_PID,
                    SENSOR_BAUD,
                    SENSOR_LOCAL_ID,
                ) {
                    Ok(device) => (
                        HandleView { stage: SetupStage::Opening, device: Some(device), failure: None },
                        SetupOpView::Open(device),
                    ),
                    Err(error) => (Self::failed(error, false), Self::abort(error, false)),
                },
                (SetupStage::Listing, SetupEventView::Ports(None)) => (
                    Self::failed(LinkError::HardwareError, false),
                    Self::abort(LinkError::HardwareError, false),
                ),
                (SetupStage::Opening, SetupEventView::Opened(opened)) => if opened {
                    (
                        HandleView { stage: SetupStage::Greeting, ..self },
                        SetupOpView::Handshake(handshake_frame(SENSOR_LOCAL_ID)),
                    )
                } else {
                    (Self::failed(LinkError::HardwareError, false), Self::abort(LinkError::HardwareError, false))
                },
                (SetupStage::Greeting, SetupEventView::WriteFailed) => (
                    Self::failed(LinkError::HardwareError, true),
                    Self::abort(LinkError::HardwareError, true),
                ),
                (SetupStage::Greeting, SetupEventView::Reply(Some(bytes))) => (
                    HandleView {
                        stage: SetupStage::Ready,
                        device: Some(DeviceView { extended_uid: reply_uid(bytes), ..self.device->0 }),
                        failure: None,
                    },
                    SetupOpView::Ready,
                ),
                (SetupStage::Greeting, SetupEventView::Reply(None)) => (
                    Self::failed(LinkError::HandshakeTimeout, true),
                    Self::abort(LinkError::HandshakeTimeout, true),
                ),
                _ => (Self::listing(), SetupOpView::ListPorts),
            }
        }
    }

    /// The handle after a series of events.
    pub open spec fn after_all(self, events: Seq<SetupEventView>) -> Self
        decreases events.len(),
    {
        if events.len() == 0 {
            self
        } else {
            self.after_all(events.drop_last()).step(events.last()).0
        }
    }
}

/// The handshake runs once in the life of a handle: once the link is ready,
/// whatever is reported afterwards, the handle stays exactly as it is, and
/// all the driver is ever told again is that the link is ready.
pub proof fn lemma_handshake_runs_once(handle: HandleView, events: Seq<SetupEventView>, event: SetupEventView)
    requires
        handle.ready(),
    ensures
        handle.after_all(events) == handle,
        handle.after_all(events).step(event) == (handle, SetupOpView::Ready),
    decreases events.len(),
{
    if events.len() > 0 {
        lemma_handshake_runs_once(handle, events.drop_last(), events.last());
    }
}

/// The handshake request is only ever handed out for a port that was just
/// opened, and never by a ready handle.
pub proof fn lemma_handshake_follows_open(handle: HandleView, event: SetupEventView)
    ensures
        handle.step(event).1 is Handshake ==> handle.stage is Opening && event == SetupEventView::Opened(true),
{
}

/// A handle becomes ready only by a full handshake reply.
pub proof fn lemma_ready_needs_reply(handle: HandleView, event: SetupEventView)
    requires
        !handle.ready(),
    ensures
        handle.step(event).0.ready() ==> handle.stage is Greeting && event matches SetupEventView::Reply(
            Some(_),
        ),
{
}

/// The handle of the sensor link, shared by all runs of a process. It is
/// set up when the first run asks for it and kept from then on.
pub struct SharedSensorHandle {
    stage: SetupStage,
    device: Option<SerialDevice>,
    failure: Option<SetupFailure>,
}

impl View for SharedSensorHandle {
    type V = HandleView;

    closed spec fn view(&self) -> HandleView {
        HandleView {
            stage: self.stage,
            device: match self.device {
                Some(link) => Some(link@),
                None => None,
            },
            failure: self.failure,
        }
    }
}

impl SharedSensorHandle {
    /// The handle is always in a state that its own functions can have left
    /// it in.
    #[verifier::type_invariant]
    spec fn well_formed(&self) -> bool {
        self@.wf()
    }

    /// A handle without a link, as it is when the process starts.
    pub fn new() -> (handle: Self)
        ensures
            handle@ == HandleView::empty(),
    {
        SharedSensorHandle { stage: SetupStage::Empty, device: None, failure: None }
    }

    /// Whether the link is open and its handshake done.
    pub fn is_ready(&self) -> (ready: bool)
        ensures
            ready == self@.ready(),
    {
        self.stage == SetupStage::Ready
    }

    /// The link, once it is ready.
    pub fn device(&self) -> (device: Option<&SerialDevice>)
        ensures
            self@.wf(),
            match device {
                Some(link) => self@.ready() && self@.device == Some(link@),
                None => !self@.ready(),
            },
    {
        proof {
            use_type_invariant(self);
        }
        if self.stage == SetupStage::Ready {
            self.device.as_ref()
        } else {
            None
        }
    }

    /// Why the last setup gave up, as long as no new one was begun.
    pub fn failure(&self) -> (failure: Option<SetupFailure>)
        ensures
            failure == self@.failure,
    {
        self.failure
    }

    /// Why a run cannot be started on this handle, if it cannot.
    pub fn refusal(&self) -> (error: Option<LinkError>)
        ensures
            self@.wf(),
            error == self@.refusal(),
    {
        proof {
            use_type_invariant(self);
        }
        if self.stage == SetupStage::Ready {
            None
        } else {
            match self.failure {
                Some(failure) => Some(failure.error),
                None => Some(LinkError::LockUnavailable),
            }
        }
    }

    /// Empties the handle, which remembers why, and says so to the driver.
    fn give_up(&mut self, error: LinkError, in_handshake: bool) -> (op: SetupOp)
        ensures
            final(self)@ == HandleView::failed(error, in_handshake),
            op@ == HandleView::abort(error, in_handshake),
    {
        let failure = SetupFailure { error, in_handshake };
        *self = SharedSensorHandle { stage: SetupStage::Empty, device: None, failure: Some(failure) };
        SetupOp::Abort(failure)
    }
}

/// Moves the setup of the shared sensor link on by one report of the driver
/// and says what to do next.
///
/// A run asks for the link with `Begin`. A ready handle answers `Ready` and
/// nothing is sent: the port is opened and the handshake made only once,
/// however many runs follow. An empty handle asks for the serial devices,
/// chooses the first USB adapter with the sensor board's ids, has its port
/// opened at 115200 baud, and hands out the handshake request; the four
/// bytes of the reply become the link's identifier and the handle is ready.
/// Where the devices cannot be listed, none matches, the port cannot be
/// opened, the request cannot be written or the reply does not arrive, the
/// handle is emptied and the answer is `Abort` with the failure, which the
/// handle remembers until a setup is begun again.
pub fn get_or_init_sensor_port(handle: &mut SharedSensorHandle, event: SetupEvent) -> (op: SetupOp)
    ensures
        final(handle)@.wf(),
        (final(handle)@, op@) == old(handle)@.step(event@),
{
    proof {
        use_type_invariant(&*handle);
    }
    if handle.stage == SetupStage::Ready {
        return SetupOp::Ready;
    }
    let stage = handle.stage;
    match event {
        SetupEvent::Ports(listing) => {
            if stage == SetupStage::Listing {
                match listing {
                    Some(ports) => {
                        match SerialDevice::open_by_vid_pid(
                            &ports,
                            SENSOR_VID,
                            SENSOR_PID,
                            SENSOR_BAUD,
                            SENSOR_LOCAL_ID,
                        ) {
                            Ok(device) => {
                                let chosen = device.duplicate();
                                *handle = SharedSensorHandle {
                                    stage: SetupStage::Opening,
                                    device: Some(device),
                                    failure: None,
                                };
                                return SetupOp::Open(chosen);
                            },
                            Err(error) => {
                                return handle.give_up(error, false);
                            },
                        }
                    },
                    None => {
                        return handle.give_up(LinkError::HardwareError, false);
                    },
                }
            }
        },
        SetupEvent::Opened(opened) => {
            if stage == SetupStage::Opening {
                if opened {
                    handle.stage = SetupStage::Greeting;
                    return SetupOp::Handshake(SerialDevice::handshake_request(SENSOR_LOCAL_ID));
                } else {
                    return handle.give_up(LinkError::HardwareError, false);
                }
            }
        },
        SetupEvent::WriteFailed => {
            if stage == SetupStage::Greeting {
                return handle.give_up(LinkError::HardwareError, true);
            }
        },
        SetupEvent::Reply(reply) => {
            if stage == SetupStage::Greeting {
                match reply {
                    Some(bytes) => {
                        let mut link = handle.device.as_ref().unwrap().duplicate();
                        let _ = link.connect_mu(Some(bytes));
                        *handle = SharedSensorHandle {
                            stage: SetupStage::Ready,
                            device: Some(link),
                            failure: None,
                        };
                        return SetupOp::Ready;
                    },
                    None => {
                        return handle.give_up(LinkError::HandshakeTimeout, true);
                    },
                }
            }
        },
        SetupEvent::Begin => {},
    }
    *handle = SharedSensorHandle { stage: SetupStage::Listing, device: None, failure: None };
    SetupOp::ListPorts
}

/// The error of a bath that could not be found or opened.
pub open spec fn bath_error(bath: &Result<Fluke9142, LinkError>) -> Option<LinkError> {
    match bath {
        Ok(_) => None,
        Err(error) => Some(*error),
    }
}

/// Why a run cannot begin, if it cannot: the sensor link is not ready, or,
/// with a ready link, the bath could not be found or opened.
pub open spec fn start_refusal(handle: HandleView, bath: Option<LinkError>) -> Option<LinkError> {
    match handle.refusal() {
        Some(error) => Some(error),
        None => bath,
    }
}

/// Begins a run, where both instruments are there: sets the run flag and
/// makes the two loops of the run.
///
/// `handle` is the sensor link after its setup and `bath` what became of
/// finding and opening the bath. Where the sensor link is not ready the run
/// does not begin: the answer is the error its setup gave up with, or
/// `LockUnavailable` where no setup has run to its end. Where the link is
/// ready but the bath is not there, the answer is the bath's error. In both
/// cases the run flag stays as it was and no loop is made, so nothing is sent
/// to either instrument.
///
/// Otherwise the flag is set, whatever it was, the acquisition loop works on
/// the handle's link and the control loop takes the steps in the order
/// given. `missing` is what snapshots report where the bath gave no
/// temperature.
pub fn start_thermal_calibration<T: Copy>(
    run: &mut RunState,
    handle: &SharedSensorHandle,
    bath: &Result<Fluke9142, LinkError>,
    steps: Vec<CalibrationStep<T>>,
    missing: T,
) -> (r: Result<(AcquisitionLoop, ControlLoop<T>), LinkError>)
    ensures
        match start_refusal(handle@, bath_error(bath)) {
            Some(error) => {
                &&& r matches Err(e)
                &&& e == error
                &&& final(run).running() == old(run).running()
            },
            None => {
                &&& final(run).running()
                &&& r matches Ok(loops)
                &&& loops.0@ == AcquisitionState::initial(Some(handle@.device->0.local_id))
                &&& loops.1@ == ControlState::initial(steps@, missing)
                &&& loops.1@.wf()
            },
        },
{
    match handle.refusal() {
        Some(error) => {
            return Err(error);
        },
        None => {},
    }
    match bath {
        Err(error) => {
            return Err(*error);
        },
        Ok(_) => {},
    }
    run.running = true;
    let acquisition = AcquisitionLoop::new(handle.device());
    let control = ControlLoop::new(steps, missing);
    Ok((acquisition, control))
}

/// The sentence that tells a person why a run did not begin: the error's
/// own where the sensor link is not ready, and that the bath cannot be had
/// where the link is ready.
pub open spec fn refusal_text(handle: HandleView, error: LinkError) -> Seq<char> {
    if handle.ready() {
        bath_missing_text()
    } else {
        error_text(error)
    }
}

/// The sentence that tells a person why a run did not begin on this handle,
/// for the error that the start gave.
pub fn refusal_message(handle: &SharedSensorHandle, error: LinkError) -> (text: String)
    ensures
        text@ == refusal_text(handle@, error),
{
    if handle.is_ready() {
        String::from_str(Fluke9142::missing_message())
    } else {
        error.message()
    }
}

/// A run does not begin on a sensor link whose setup has just given up:
/// whatever the bath and the steps, the start is refused with the setup's
/// error.
pub proof fn lemma_failed_setup_refuses_the_start(
    handle: HandleView,
    event: SetupEventView,
    bath: Option<LinkError>,
)
    ensures
        handle.step(event).1 matches SetupOpView::Abort(failure) ==> start_refusal(handle.step(event).0, bath)
            == Some(failure.error),
{
}

/// A run begins exactly where the sensor link is ready and the bath is
/// there.
pub proof fn lemma_start_needs_both_instruments(handle: HandleView, bath: Option<LinkError>)
    ensures
        start_refusal(handle, bath) is None <==> handle.ready() && bath is None,
{
}

/// Asks the run to stop: clears the run flag. Both loops see it at their next
/// look at the flag. Without a run going on nothing changes.
pub fn stop_thermal_calibration(run: &mut RunState)
    ensures
        !final(run).running(),
{
    run.running = false;
}

} // verus!

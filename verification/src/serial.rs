//! The transport link: which serial device a link is bound to, how it is
//! parameterised, and the frames of the transport-level exchanges.
//!
//! Nothing here touches a port. A driver lists the devices that are present,
//! lets [`SerialDevice::open_by_vid_pid`] choose among them, opens the port
//! that was chosen, writes the frames built here and hands back what it read.

use vstd::prelude::*;
use vstd::string::*;
use crate::text::{hex4, hex4_text, trim, trimmed};

verus! {

/// Read timeout of every link, in milliseconds.
pub const READ_TIMEOUT_MS: u64 = 1000;

/// Pause between writing a request and reading its reply, in milliseconds.
pub const SETTLE_DELAY_MS: u64 = 100;

/// USB vendor id of the bath's serial adapter.
pub const FLUKE_VID: u16 = 0x0403;

/// USB product id of the bath's serial adapter.
pub const FLUKE_PID: u16 = 0x6001;

/// Baud rate of the bath's link.
pub const FLUKE_BAUD: u32 = 9600;

/// Operation code of the handshake request.
pub const OPCODE_HANDSHAKE: u8 = 0x01;

/// Operation code of the request that starts a sample stream.
pub const OPCODE_START_STREAM: u8 = 0xF1;

/// Operation code of the request that stops a sample stream.
pub const OPCODE_STOP_STREAM: u8 = 0xF2;

/// Why a link could not be set up or used.
#[derive(Clone, Copy, Debug, PartialEq, Eq, Structural)]
pub enum LinkError {
    /// No serial device with these vendor and product ids is present.
    DeviceNotFound { vid: u16, pid: u16 },
    /// The port could not be listed, opened, written or flushed.
    HardwareError,
    /// The handshake reply did not arrive in full within the read timeout.
    HandshakeTimeout,
    /// An instrument answered with something that is not a number. The
    /// driver of a link raises it; nothing here does.
    ParseError,
    /// The shared sensor link cannot be had: it is held by someone else, or
    /// its setup has not run to its end.
    LockUnavailable,
}

/// The sentence that tells a person what went wrong. The ids of a device
/// that was not found are written as four hexadecimal digits each.
pub open spec fn error_text(error: LinkError) -> Seq<char> {
    match error {
        LinkError::DeviceNotFound { vid, pid } => "Dispositivo non trovato (VID: "@ + hex4_text(vid) + " PID: "@
            + hex4_text(pid) + ")"@,
        LinkError::HardwareError => "Errore hardware"@,
        LinkError::HandshakeTimeout => "MU non ha risposto all'handshake"@,
        LinkError::ParseError => "Parse failed"@,
        LinkError::LockUnavailable => "Lock failed"@,
    }
}

impl LinkError {
    /// The sentence that tells a person what went wrong.
    pub fn message(&self) -> (text: String)
        ensures
            text@ == error_text(*self),
    {
        match self {
            LinkError::DeviceNotFound { vid, pid } => {
                let vid_text = hex4(*vid);
                let pid_text = hex4(*pid);
                String::from_str("Dispositivo non trovato (VID: ").concat(vid_text.as_str()).concat(
                    " PID: ",
                ).concat(pid_text.as_str()).concat(")")
            },
            LinkError::HardwareError => String::from_str("Errore hardware"),
            LinkError::HandshakeTimeout => String::from_str("MU non ha risposto all'handshake"),
            LinkError::ParseError => String::from_str("Parse failed"),
            LinkError::LockUnavailable => String::from_str("Lock failed"),
        }
    }
}

/// Vendor and product id of a USB serial adapter.
#[derive(Clone, Copy, Debug, PartialEq, Eq, Structural)]
pub struct UsbId {
    pub vid: u16,
    pub pid: u16,
}

/// One serial device as the operating system lists it.
#[derive(Clone, Debug, PartialEq, Eq)]
pub struct PortEntry {
    /// The address under which the port is opened.
    pub port_name: String,
    /// The ids of the adapter, for a port that sits on USB.
    pub usb: Option<UsbId>,
}

/// What a [`PortEntry`] holds, as a mathematical value.
pub struct PortView {
    pub port_name: Seq<char>,
    pub usb: Option<UsbId>,
}

impl View for PortEntry {
    type V = PortView;

    open spec fn view(&self) -> PortView {
        PortView { port_name: self.port_name@, usb: self.usb }
    }
}

/// A link to one serial device: where it is and how it is parameterised.
#[derive(Clone, Debug, PartialEq, Eq)]
pub struct SerialDevice {
    /// The address under which the port is opened.
    pub port_name: String,
    /// Baud rate of the link.
    pub baud: u32,
    /// Read timeout of the link, in milliseconds.
    pub timeout_ms: u64,
    /// Address of the measurement unit in the frames sent to it.
    pub local_id: u8,
    /// 32-bit identifier of the device at the other end.
    pub extended_uid: u32,
}

/// What a [`SerialDevice`] holds, as a mathematical value.
pub struct DeviceView {
    pub port_name: Seq<char>,
    pub baud: u32,
    pub timeout_ms: u64,
    pub local_id: u8,
    pub extended_uid: u32,
}

impl View for SerialDevice {
    type V = DeviceView;

    open spec fn view(&self) -> DeviceView {
        DeviceView {
            port_name: self.port_name@,
            baud: self.baud,
            timeout_ms: self.timeout_ms,
            local_id: self.local_id,
            extended_uid: self.extended_uid,
        }
    }
}

/// The views of a list of ports, in the same order.
pub open spec fn port_views(ports: Seq<PortEntry>) -> Seq<PortView> {
    Seq::new(ports.len(), |i: int| ports[i]@)
}

/// Whether a listed port is the USB adapter with these ids.
pub open spec fn has_ids(port: PortView, vid: u16, pid: u16) -> bool {
    port.usb == Some(UsbId { vid, pid })
}

/// Index of the first port at or after `from` that has these ids.
pub open spec fn first_match_from(ports: Seq<PortView>, vid: u16, pid: u16, from: int) -> Option<int>
    decreases ports.len() - from,
{
    if from < 0 || from >= ports.len() {
        None
    } else if has_ids(ports[from], vid, pid) {
        Some(from)
    } else {
        first_match_from(ports, vid, pid, from + 1)
    }
}

/// Index of the first listed port that has these ids.
pub open spec fn first_match(ports: Seq<PortView>, vid: u16, pid: u16) -> Option<int> {
    first_match_from(ports, vid, pid, 0)
}

/// The identifier a device gets from its USB ids before any handshake: the
/// vendor id in the upper sixteen bits, the product id in the lower.
pub open spec fn usb_uid(vid: u16, pid: u16) -> u32 {
    (vid as int * 65536 + pid as int) as u32
}

/// The link that is set up on a port with the given parameters.
pub open spec fn link_on(port_name: Seq<char>, baud: u32, extended_uid: u32, local_id: u8) -> DeviceView {
    DeviceView { port_name, baud, timeout_ms: READ_TIMEOUT_MS, local_id, extended_uid }
}

/// The link chosen among the listed ports for the given ids: the one on the
/// first port that has them, or `DeviceNotFound`.
pub open spec fn chosen_link(ports: Seq<PortView>, vid: u16, pid: u16, baud: u32, local_id: u8) -> Result<
    DeviceView,
    LinkError,
> {
    match first_match(ports, vid, pid) {
        Some(i) => Ok(link_on(ports[i].port_name, baud, usb_uid(vid, pid), local_id)),
        None => Err(LinkError::DeviceNotFound { vid, pid }),
    }
}

/// The view of a result that holds a link.
pub open spec fn link_result_view(r: Result<SerialDevice, LinkError>) -> Result<DeviceView, LinkError> {
    match r {
        Ok(device) => Ok(device@),
        Err(e) => Err(e),
    }
}

/// A command as it goes on the wire: its text, closed by a carriage return.
pub open spec fn framed(cmd: Seq<char>) -> Seq<char> {
    cmd.push('\r')
}

/// The request that starts a sample stream: the unit's local id, the
/// operation code, the sensor, the frequency in hertz as two bytes with the
/// upper one first, and the packet size.
pub open spec fn start_stream_frame(local_id: u8, sensor_id: u8, freq: u16, packet_size: u8) -> Seq<u8> {
    seq![local_id, OPCODE_START_STREAM, sensor_id, (freq / 256) as u8, (freq % 256) as u8, packet_size]
}

/// The request that stops a sample stream.
pub open spec fn stop_stream_frame(mu_id: u8, sensor_id: u8) -> Seq<u8> {
    seq![mu_id, OPCODE_STOP_STREAM, sensor_id]
}

/// The handshake request for the unit with the given local id.
pub open spec fn handshake_frame(local_id: u8) -> Seq<u8> {
    seq![0x00u8, OPCODE_HANDSHAKE, local_id]
}

/// The 32-bit identifier that four reply bytes carry, first byte uppermost.
pub open spec fn reply_uid(reply: Seq<u8>) -> u32 {
    (reply[0] as int * 16777216 + reply[1] as int * 65536 + reply[2] as int * 256 + reply[3] as int) as u32
}

/// How many bytes to read now, for what the port reports as buffered
/// (`None`: the port could not tell): all of them, or no read at all where
/// there are none.
pub open spec fn read_size(buffered: Option<u32>) -> Option<usize> {
    match buffered {
        Some(count) => if count > 0 {
            Some(count as usize)
        } else {
            None
        },
        None => None,
    }
}

/// A port found while none before it matched is the first match.
proof fn lemma_first_match_found(ports: Seq<PortView>, vid: u16, pid: u16, from: int, at: int)
    requires
        0 <= from <= at < ports.len(),
        has_ids(ports[at], vid, pid),
        forall|k: int| from <= k < at ==> !has_ids(#[trigger] ports[k], vid, pid),
    ensures
        first_match_from(ports, vid, pid, from) == Some(at),
    decreases at - from,
{
    if from < at {
        lemma_first_match_found(ports, vid, pid, from + 1, at);
    }
}

/// Where no port matches, there is no first match.
proof fn lemma_first_match_absent(ports: Seq<PortView>, vid: u16, pid: u16, from: int)
    requires
        0 <= from <= ports.len(),
        forall|k: int| from <= k < ports.len() ==> !has_ids(#[trigger] ports[k], vid, pid),
    ensures
        first_match_from(ports, vid, pid, from) is None,
    decreases ports.len() - from,
{
    if from < ports.len() {
        lemma_first_match_absent(ports, vid, pid, from + 1);
    }
}

/// Builds the request that starts a sample stream.
pub fn start_stream_request(local_id: u8, sensor_id: u8, freq: u16, packet_size: u8) -> (packet: Vec<u8>)
    ensures
        packet@ == start_stream_frame(local_id, sensor_id, freq, packet_size),
{
    let mut packet: Vec<u8> = Vec::with_capacity(6);
    packet.push(local_id);
    packet.push(OPCODE_START_STREAM);
    packet.push(sensor_id);
    packet.push((freq / 256) as u8);
    packet.push((freq % 256) as u8);
    packet.push(packet_size);
    assert(packet@ =~= start_stream_frame(local_id, sensor_id, freq, packet_size));
    packet
}

/// Builds the request that stops a sample stream.
pub fn stop_stream_request(mu_id: u8, sensor_id: u8) -> (packet: Vec<u8>)
    ensures
        packet@ == stop_stream_frame(mu_id, sensor_id),
{
    let mut packet: Vec<u8> = Vec::with_capacity(3);
    packet.push(mu_id);
    packet.push(OPCODE_STOP_STREAM);
    packet.push(sensor_id);
    assert(packet@ =~= stop_stream_frame(mu_id, sensor_id));
    packet
}

impl SerialDevice {
    /// Chooses the bath's port among the listed ones: the first USB adapter
    /// with the bath's fixed ids, at 9600 baud.
    pub fn open_fluke(ports: &Vec<PortEntry>) -> (r: Result<SerialDevice, LinkError>)
        ensures
            link_result_view(r) == chosen_link(port_views(ports@), FLUKE_VID, FLUKE_PID, FLUKE_BAUD, 0),
    {
        SerialDevice::open_by_vid_pid(ports, FLUKE_VID, FLUKE_PID, FLUKE_BAUD, 0)
    }

    /// Chooses a port by vendor and product id.
    ///
    /// The ports are tried in the order given and the first USB adapter with
    /// both ids wins. The link on it carries the given baud rate and local id,
    /// the one-second read timeout, and an identifier made of the two ids.
    /// Without a match the result is `DeviceNotFound`.
    pub fn open_by_vid_pid(ports: &Vec<PortEntry>, vid: u16, pid: u16, baud: u32, local_id: u8) -> (r: Result<
        SerialDevice,
        LinkError,
    >)
        ensures
            link_result_view(r) == chosen_link(port_views(ports@), vid, pid, baud, local_id),
    {
        let ghost views = port_views(ports@);
        let mut i: usize = 0;
        while i < ports.len()
            invariant
                i <= ports.len(),
                views == port_views(ports@),
                forall|k: int| 0 <= k < i ==> !has_ids(#[trigger] views[k], vid, pid),
            decreases ports.len() - i,
        {
            let found: bool = match ports[i].usb {
                Some(ids) => ids.vid == vid && ids.pid == pid,
                None => false,
            };
            assert(found == has_ids(views[i as int], vid, pid));
            if found {
                proof {
                    lemma_first_match_found(views, vid, pid, 0, i as int);
                }
                let extended_uid: u32 = vid as u32 * 65536 + pid as u32;
                return Ok(SerialDevice::new(ports[i].port_name.as_str(), baud, extended_uid, local_id));
            }
            i += 1;
        }
        proof {
            lemma_first_match_absent(views, vid, pid, 0);
        }
        Err(LinkError::DeviceNotFound { vid, pid })
    }

    /// A link on the port at `path`, with the one-second read timeout.
    pub fn new(path: &str, baud: u32, extended_uid: u32, local_id: u8) -> (device: SerialDevice)
        ensures
            device@ == link_on(path@, baud, extended_uid, local_id),
    {
        SerialDevice { port_name: path.to_owned(), baud, timeout_ms: READ_TIMEOUT_MS, local_id, extended_uid }
    }
    /// Frames an ASCII command for the wire: the command, then a carriage
    /// return.
    pub fn query(&self, cmd: &str) -> (frame: String)
        ensures
            frame@ == framed(cmd@),
    {
        proof {
            reveal_strlit("\r");
        }
        let frame = String::from_str(cmd).concat("\r");
        assert(frame@ =~= framed(cmd@));
        frame
    }

    /// Reads the reply to a query from the line that came back (`None`:
    /// the write failed or no line could be read): the line without the white
    /// space at its ends.
    pub fn response(line: Option<&str>) -> (reply: Option<String>)
        ensures
            match line {
                Some(text) => reply matches Some(r) && r@ == trimmed(text@),
                None => reply is None,
            },
    {
        match line {
            Some(text) => Some(trim(text)),
            None => None,
        }
    }

    /// The request that starts the stream of one sensor on this link's unit.
    /// The unit sends no acknowledgement.
    pub fn start_mu_calibration(&self, sensor_id: u8, freq: u16, packet_size: u8) -> (packet: Vec<u8>)
        ensures
            packet@ == start_stream_frame(self.local_id, sensor_id, freq, packet_size),
    {
        start_stream_request(self.local_id, sensor_id, freq, packet_size)
    }

    /// The request that stops the stream of one sensor on the unit `mu_id`.
    /// The unit sends no acknowledgement.
    pub fn stop_mu_calibration(&self, mu_id: u8, sensor_id: u8) -> (packet: Vec<u8>)
        ensures
            packet@ == stop_stream_frame(mu_id, sensor_id),
    {
        stop_stream_request(mu_id, sensor_id)
    }

    /// A second value of the same link.
    pub fn duplicate(&self) -> (copy: SerialDevice)
        ensures
            copy@ == self@,
    {
        SerialDevice {
            port_name: self.port_name.clone(),
            baud: self.baud,
            timeout_ms: self.timeout_ms,
            local_id: self.local_id,
            extended_uid: self.extended_uid,
        }
    }

    /// Decides the size of a non-blocking read from what the port reports as
    /// buffered: everything that is there, and no read where nothing is or
    /// the port could not tell.
    pub fn read_request(buffered: Option<u32>) -> (size: Option<usize>)
        ensures
            size == read_size(buffered),
    {
        match buffered {
            Some(count) => if count > 0 {
                Some(count as usize)
            } else {
                None
            },
            None => None,
        }
    }

    /// The batch a non-blocking read hands on: the bytes that were read, and
    /// an empty batch where nothing was read or the read failed.
    pub fn read_available(read: Option<Vec<u8>>) -> (batch: Vec<u8>)
        ensures
            batch@ == match read {
                Some(bytes) => bytes@,
                None => Seq::<u8>::empty(),
            },
    {
        match read {
            Some(bytes) => bytes,
            None => Vec::new(),
        }
    }

    /// The handshake request for the unit with the given local id. Before it
    /// is written the input buffer is cleared; after it is written and
    /// flushed, and the settle delay has passed, four bytes are read.
    pub fn handshake_request(local_id: u8) -> (packet: Vec<u8>)
        ensures
            packet@ == handshake_frame(local_id),
    {
        let mut packet: Vec<u8> = Vec::with_capacity(3);
        packet.push(0x00);
        packet.push(OPCODE_HANDSHAKE);
        packet.push(local_id);
        assert(packet@ =~= handshake_frame(local_id));
        packet
    }

    /// Completes the handshake with the four bytes that were read (`None`:
    /// fewer than four arrived within the read timeout).
    ///
    /// The bytes are the device's 32-bit identifier, first byte uppermost; it
    /// replaces the link's identifier and the bytes are returned. Without a
    /// full reply the link is left as it was and the result is
    /// `HandshakeTimeout`.
    pub fn connect_mu(&mut self, reply: Option<[u8; 4]>) -> (r: Result<Vec<u8>, LinkError>)
        ensures
            match reply {
                Some(bytes) => {
                    &&& r matches Ok(response)
                    &&& response@ == bytes@
                    &&& final(self)@ == DeviceView { extended_uid: reply_uid(bytes@), ..old(self)@ }
                },
                None => {
                    &&& r matches Err(e)
                    &&& e == LinkError::HandshakeTimeout
                    &&& final(self)@ == old(self)@
                },
            },
    {
        match reply {
            Some(bytes) => {
                let uid: u32 = bytes[0] as u32 * 16777216 + bytes[1] as u32 * 65536 + bytes[2] as u32 * 256
                    + bytes[3] as u32;
                self.extended_uid = uid;
                let mut response: Vec<u8> = Vec::with_capacity(4);
                response.push(bytes[0]);
                response.push(bytes[1]);
                response.push(bytes[2]);
                response.push(bytes[3]);
                assert(response@ =~= bytes@);
                Ok(response)
            },
            None => Err(LinkError::HandshakeTimeout),
        }
    }
}

} // verus!

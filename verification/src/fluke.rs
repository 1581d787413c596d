//! The bath controller: the ASCII commands of the bath and the reading of
//! its replies.
//!
//! Every command is framed for the wire as the transport link frames a
//! query. The driver writes the frame, waits for the settle delay, reads one
//! line and lets [`SerialDevice::response`] trim it.

use vstd::prelude::*;
use vstd::string::*;
use crate::serial::{
    DeviceView, FLUKE_BAUD, FLUKE_PID, FLUKE_VID, LinkError, PortEntry, SerialDevice, chosen_link, framed,
    port_views,
};
use crate::text::{is_two_decimals, two_decimals};

verus! {

/// The command that programs the setpoint `value`, where `value` is the
/// setpoint written with two decimals.
pub open spec fn setpoint_command(value: Seq<char>) -> Seq<char> {
    "SOUR:SPO "@ + value
}

/// The frame that programs a setpoint, for a text that is a number with two
/// decimals, and none for any other text.
pub open spec fn setpoint_frame(value: Seq<char>) -> Option<Seq<char>> {
    if two_decimals(value) {
        Some(framed(setpoint_command(value)))
    } else {
        None
    }
}

/// The sentence that tells a person that the bath cannot be had.
pub open spec fn bath_missing_text() -> Seq<char> {
    "Fluke 9142 non trovato (VID:0403 PID:6001)"@
}

/// What is made of a bath whose port was asked to be opened: the bath
/// itself where that worked, `HardwareError` where it did not.
pub open spec fn bath_after_open(link: DeviceView, opened: bool) -> Result<DeviceView, LinkError> {
    if opened {
        Ok(link)
    } else {
        Err(LinkError::HardwareError)
    }
}

/// Whether a reply to the stability query says that the bath is stable: it
/// is there and it is exactly `1`.
pub open spec fn reply_is_stable(reply: Option<Seq<char>>) -> bool {
    reply == Some("1"@)
}

/// The view of a reply that may be missing.
pub open spec fn reply_view(reply: &Option<String>) -> Option<Seq<char>> {
    match reply {
        Some(text) => Some(text@),
        None => None,
    }
}

/// The bath, on its own serial link.
pub struct Fluke9142 {
    device: SerialDevice,
}

impl Fluke9142 {
    /// The link the bath is on.
    pub closed spec fn link(&self) -> DeviceView {
        self.device@
    }

    /// The bath on the first listed port that has its fixed USB ids, at 9600
    /// baud; `DeviceNotFound` where no port has them.
    pub fn new(ports: &Vec<PortEntry>) -> (r: Result<Fluke9142, LinkError>)
        ensures
            match r {
                Ok(bath) => chosen_link(port_views(ports@), FLUKE_VID, FLUKE_PID, FLUKE_BAUD, 0) == Ok::<
                    DeviceView,
                    LinkError,
                >(bath.link()),
                Err(error) => chosen_link(port_views(ports@), FLUKE_VID, FLUKE_PID, FLUKE_BAUD, 0) == Err::<
                    DeviceView,
                    LinkError,
                >(error),
            },
    {
        match SerialDevice::open_fluke(ports) {
            Ok(device) => Ok(Fluke9142 { device }),
            Err(error) => Err(error),
        }
    }

    /// The link the bath is on.
    pub fn device(&self) -> (device: &SerialDevice)
        ensures
            device@ == self.link(),
    {
        &self.device
    }

    /// Takes note of whether the bath's port could be opened: the bath
    /// stays as it is where it could, and is given up with `HardwareError`
    /// where it could not.
    pub fn opened(self, opened: bool) -> (r: Result<Fluke9142, LinkError>)
        ensures
            match r {
                Ok(bath) => bath_after_open(self.link(), opened) == Ok::<DeviceView, LinkError>(bath.link()),
                Err(error) => bath_after_open(self.link(), opened) == Err::<DeviceView, LinkError>(error),
            },
    {
        if opened {
            Ok(self)
        } else {
            Err(LinkError::HardwareError)
        }
    }

    /// The sentence that tells a person that the bath cannot be had, be it
    /// absent or beyond opening.
    pub fn missing_message() -> (text: &'static str)
        ensures
            text@ == bath_missing_text(),
    {
        "Fluke 9142 non trovato (VID:0403 PID:6001)"
    }

    /// The frame that programs a setpoint. `value` is the setpoint written
    /// with two decimals: an optional minus sign, digits, a point and two
    /// digits. For any other text there is no frame, and nothing is to be
    /// sent.
    pub fn set_temperature(&self, value: &str) -> (frame: Option<String>)
        ensures
            match setpoint_frame(value@) {
                Some(text) => frame matches Some(sent) && sent@ == text,
                None => frame is None,
            },
    {
        if is_two_decimals(value) {
            let command = String::from_str("SOUR:SPO ").concat(value);
            Some(self.device.query(command.as_str()))
        } else {
            None
        }
    }

    /// The frame that enables the bath's heating.
    pub fn start_heating(&self) -> (frame: String)
        ensures
            frame@ == framed("OUTP:STAT 1"@),
    {
        self.device.query("OUTP:STAT 1")
    }

    /// The frame that disables the bath's heating.
    pub fn stop_heating(&self) -> (frame: String)
        ensures
            frame@ == framed("OUTP:STAT 0"@),
    {
        self.device.query("OUTP:STAT 0")
    }

    /// The frame that asks the bath for its temperature. The reply is the
    /// temperature as a decimal number; a reply that is missing or is not a
    /// number counts as no reading.
    pub fn read_temperature(&self) -> (frame: String)
        ensures
            frame@ == framed("SOUR:SENS:DATA?"@),
    {
        self.device.query("SOUR:SENS:DATA?")
    }

    /// The frame that asks the bath whether it is stable at its setpoint.
    pub fn stability_query(&self) -> (frame: String)
        ensures
            frame@ == framed("SOUR:STAB:TEST?"@),
    {
        self.device.query("SOUR:STAB:TEST?")
    }

    /// Reads the reply to the stability query: the bath is stable if and
    /// only if the reply is there and is exactly `1`.
    pub fn is_stable(reply: &Option<String>) -> (stable: bool)
        ensures
            stable == reply_is_stable(reply_view(reply)),
    {
        match reply {
            Some(text) => *text == String::from_str("1"),
            None => false,
        }
    }
}

} // verus!

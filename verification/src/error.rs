//! What can go wrong.
use vstd::prelude::*;

use crate::control_id::ControlId;
use crate::value::Value;

verus! {

/// Why a control cannot take a value. Numbers are given by their order.
#[derive(Debug)]
pub enum ControlError {
    /// The radar does not have the control.
    NotSupported(ControlId),
    /// The value, and the lowest value that is allowed.
    TooLow(ControlId, i64, i64),
    /// The value, and the highest value that is allowed.
    TooHigh(ControlId, i64, i64),
    /// The value is of the wrong kind.
    Invalid(ControlId, Value),
    /// The control has no automatic mode.
    NoAuto(ControlId),
    /// The value needs a true heading.
    NoHeading(ControlId, String),
    /// The value needs a position.
    NoPosition(ControlId, String),
}

/// Why a request or a report cannot be handled.
#[derive(Debug)]
pub enum RadarError {
    /// Talking to the radar failed.
    Io,
    InterfaceNotFound(String),
    InterfaceNoV4(String),
    EnumerationFailed,
    Timeout,
    Shutdown,
    InvalidControlId(String),
    ControlError(ControlError),
    CannotSetControlId(ControlId),
    CannotSetControlIdValue(ControlId, Value),
    CannotParseControlId(String),
    MissingValue(ControlId),
    NotNumeric(ControlId, Value),
    NoSuchRadar(String),
    ParseJson(String),
    ParseNmea0183(String),
    IPAddressChanged,
    LoginFailed,
    InvalidPort,
    NotConnected,
}

} // verus!

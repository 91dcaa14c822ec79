//! Values of controls as radars report them.
use vstd::prelude::*;

use crate::control_id::ControlId;

verus! {

/// A value that a radar reports for a control, in the units of the radar.
#[derive(Clone, Copy, Debug, PartialEq, Eq, Structural)]
pub struct WireSetting {
    pub id: ControlId,
    pub value: i64,
    /// The second value of a control that has two.
    pub end: Option<i64>,
    /// The second value of a control that adjusts itself.
    pub auto_value: Option<i64>,
    pub auto: Option<bool>,
    pub enabled: Option<bool>,
}

/// A plain value.
pub open spec fn plain(id: ControlId, value: int) -> WireSetting {
    WireSetting { id, value: value as i64, end: None, auto_value: None, auto: None, enabled: None }
}

/// A value, and whether the radar chose it by itself.
pub open spec fn with_auto(id: ControlId, value: int, auto: int) -> WireSetting {
    WireSetting {
        id,
        value: value as i64,
        end: None,
        auto_value: None,
        auto: Some(auto > 0),
        enabled: None,
    }
}

/// A value, and whether it is in use.
pub open spec fn with_enabled(id: ControlId, value: int, enabled: int) -> WireSetting {
    WireSetting {
        id,
        value: value as i64,
        end: None,
        auto_value: None,
        auto: None,
        enabled: Some(enabled > 0),
    }
}

/// A sector between two values, and whether it is in use.
pub open spec fn sector(id: ControlId, start: int, end: int, enabled: int) -> WireSetting {
    WireSetting {
        id,
        value: start as i64,
        end: Some(end as i64),
        auto_value: None,
        auto: None,
        enabled: Some(enabled > 0),
    }
}

/// A value, and how much the radar adjusts it by itself.
pub open spec fn with_auto_value(id: ControlId, value: int, auto_value: int) -> WireSetting {
    WireSetting {
        id,
        value: value as i64,
        end: None,
        auto_value: Some(auto_value as i64),
        auto: None,
        enabled: None,
    }
}

/// A plain value.
pub fn set_value(id: ControlId, value: i64) -> (s: WireSetting)
    ensures
        s == plain(id, value as int),
{
    WireSetting { id, value, end: None, auto_value: None, auto: None, enabled: None }
}

/// A value, and whether the radar chose it by itself.
pub fn set_value_auto(id: ControlId, value: i64, auto: u8) -> (s: WireSetting)
    ensures
        s == with_auto(id, value as int, auto as int),
{
    WireSetting { id, value, end: None, auto_value: None, auto: Some(auto > 0), enabled: None }
}

/// A value, and whether it is in use.
pub fn set_value_enabled(id: ControlId, value: i64, enabled: u8) -> (s: WireSetting)
    ensures
        s == with_enabled(id, value as int, enabled as int),
{
    WireSetting { id, value, end: None, auto_value: None, auto: None, enabled: Some(enabled > 0) }
}

/// A sector between two values, and whether it is in use.
pub fn set_sector(id: ControlId, start: i64, end: i64, enabled: u8) -> (s: WireSetting)
    ensures
        s == sector(id, start as int, end as int, enabled as int),
{
    WireSetting {
        id,
        value: start,
        end: Some(end),
        auto_value: None,
        auto: None,
        enabled: Some(enabled > 0),
    }
}

/// A value, and how much the radar adjusts it by itself.
pub fn set_value_with_many_auto(id: ControlId, value: i64, auto_value: i64) -> (s: WireSetting)
    ensures
        s == with_auto_value(id, value as int, auto_value as int),
{
    WireSetting { id, value, end: None, auto_value: Some(auto_value), auto: None, enabled: None }
}

/// The lowest and highest value of a control on the wire.
#[derive(Clone, Copy, Debug, PartialEq, Eq, Structural)]
pub struct WireRange {
    pub id: ControlId,
    pub min: u8,
    pub max: u8,
}

/// A report sets the control that it is for, to the value that it holds. What is not zero switches
/// something on: the choice of the radar, or the use of the value.
pub proof fn settings_hold_their_values(id: ControlId, value: i64, other: i64, switch: u8)
    ensures
        plain(id, value as int).id == id && plain(id, value as int).value == value,
        plain(id, value as int).auto is None && plain(id, value as int).enabled is None,
        with_auto(id, value as int, switch as int).id == id,
        with_auto(id, value as int, switch as int).value == value,
        with_auto(id, value as int, switch as int).auto == Some(switch != 0),
        with_auto(id, value as int, switch as int).enabled is None,
        with_enabled(id, value as int, switch as int).id == id,
        with_enabled(id, value as int, switch as int).value == value,
        with_enabled(id, value as int, switch as int).enabled == Some(switch != 0),
        with_enabled(id, value as int, switch as int).auto is None,
        sector(id, value as int, other as int, switch as int).id == id,
        sector(id, value as int, other as int, switch as int).value == value,
        sector(id, value as int, other as int, switch as int).end == Some(other),
        sector(id, value as int, other as int, switch as int).enabled == Some(switch != 0),
        with_auto_value(id, value as int, other as int).id == id,
        with_auto_value(id, value as int, other as int).value == value,
        with_auto_value(id, value as int, other as int).auto_value == Some(other),
{
}

} // verus!

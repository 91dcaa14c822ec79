//! The operational state of a radar, and its Doppler mode.
use vstd::prelude::*;

use crate::error::RadarError;
use crate::text::{eq_ignore_case, lower_all, same_ignoring_case};
use crate::value::{Value, ValueView};

verus! {

/// The operational state of a radar.
#[derive(Clone, Copy, Debug, PartialEq, Eq, Structural)]
pub enum Power {
    Off,
    Standby,
    Transmit,
    Preparing,
}

/// The state with a given number.
pub open spec fn power_of_number(n: int) -> Option<Power> {
    if n == 0 {
        Some(Power::Off)
    } else if n == 1 {
        Some(Power::Standby)
    } else if n == 2 {
        Some(Power::Transmit)
    } else if n == 3 {
        Some(Power::Preparing)
    } else {
        None
    }
}

/// The state that a text stands for: its number or its name, whatever the case.
pub open spec fn power_of_text(s: Seq<char>) -> Option<Power> {
    if same_ignoring_case(s, "0"@) || same_ignoring_case(s, "off"@) {
        Some(Power::Off)
    } else if same_ignoring_case(s, "1"@) || same_ignoring_case(s, "standby"@) {
        Some(Power::Standby)
    } else if same_ignoring_case(s, "2"@) || same_ignoring_case(s, "transmit"@) {
        Some(Power::Transmit)
    } else if same_ignoring_case(s, "3"@) || same_ignoring_case(s, "preparing"@) {
        Some(Power::Preparing)
    } else {
        None
    }
}

/// The state that a value stands for.
pub open spec fn power_of_value(v: ValueView) -> Option<Power> {
    match v {
        ValueView::Number(n) => match n.integer {
            Some(i) => power_of_number(i as int),
            None => None,
        },
        ValueView::String(s) => power_of_text(s),
        _ => None,
    }
}

impl Power {
    /// The number of the state.
    pub open spec fn number(self) -> int {
        match self {
            Power::Off => 0,
            Power::Standby => 1,
            Power::Transmit => 2,
            Power::Preparing => 3,
        }
    }

    /// The number of the state.
    pub fn as_i64(&self) -> (n: i64)
        ensures
            n == self.number(),
            power_of_number(n as int) == Some(*self),
    {
        match self {
            Power::Off => 0,
            Power::Standby => 1,
            Power::Transmit => 2,
            Power::Preparing => 3,
        }
    }

    /// The name of the state.
    pub open spec fn spec_name(self) -> Seq<char> {
        match self {
            Power::Off => "Off"@,
            Power::Standby => "Standby"@,
            Power::Transmit => "Transmit"@,
            Power::Preparing => "Preparing"@,
        }
    }

    /// The name of the state.
    pub fn to_str(&self) -> (s: &'static str)
        ensures
            s@ == self.spec_name(),
    {
        match self {
            Power::Off => "Off",
            Power::Standby => "Standby",
            Power::Transmit => "Transmit",
            Power::Preparing => "Preparing",
        }
    }

    /// Reads a state. Where the value is no state, the error tells so, and repeats a text.
    pub fn from_value(value: &Value) -> (r: Result<Power, RadarError>)
        ensures
            match r {
                Ok(power) => power_of_value(value@) == Some(power),
                Err(RadarError::ParseJson(message)) => power_of_value(value@) is None && message@
                    == match value@ {
                    ValueView::String(s) => "Unknown status: "@ + s,
                    _ => "Unknown status"@,
                },
                Err(_) => false,
            },
    {
        let found = match value {
            Value::Number(n) => match n.integer {
                Some(0) => Some(Power::Off),
                Some(1) => Some(Power::Standby),
                Some(2) => Some(Power::Transmit),
                Some(3) => Some(Power::Preparing),
                _ => None,
            },
            Value::String(s) => {
                if eq_ignore_case(s.as_str(), "0") || eq_ignore_case(s.as_str(), "off") {
                    Some(Power::Off)
                } else if eq_ignore_case(s.as_str(), "1") || eq_ignore_case(s.as_str(), "standby") {
                    Some(Power::Standby)
                } else if eq_ignore_case(s.as_str(), "2") || eq_ignore_case(
                    s.as_str(),
                    "transmit",
                ) {
                    Some(Power::Transmit)
                } else if eq_ignore_case(s.as_str(), "3") || eq_ignore_case(
                    s.as_str(),
                    "preparing",
                ) {
                    Some(Power::Preparing)
                } else {
                    None
                }
            },
            _ => None,
        };
        match found {
            Some(power) => Ok(power),
            None => {
                let message = match value {
                    Value::String(s) => String::from_str("Unknown status: ").concat(s.as_str()),
                    _ => String::from_str("Unknown status"),
                };
                Err(RadarError::ParseJson(message))
            },
        }
    }
}

/// Which moving targets are told apart. The numbers are those that HALO radars report.
#[derive(Clone, Copy, Debug, PartialEq, Eq, Structural)]
pub enum DopplerMode {
    Off,
    Both,
    Approaching,
}

/// The mode with a given number.
pub open spec fn doppler_of_number(n: int) -> Option<DopplerMode> {
    if n == 0 {
        Some(DopplerMode::Off)
    } else if n == 1 {
        Some(DopplerMode::Both)
    } else if n == 2 {
        Some(DopplerMode::Approaching)
    } else {
        None
    }
}

impl DopplerMode {
    /// The mode with a given number, where there is one.
    pub fn from_u8(n: u8) -> (r: Option<DopplerMode>)
        ensures
            r == doppler_of_number(n as int),
    {
        match n {
            0 => Some(DopplerMode::Off),
            1 => Some(DopplerMode::Both),
            2 => Some(DopplerMode::Approaching),
            _ => None,
        }
    }
}

/// The number of a state and its name lead back to it, the name in capital letters or small ones.
pub proof fn states_are_read_back(power: Power, s: Seq<char>)
    ensures
        power_of_number(power.number()) == Some(power),
        same_ignoring_case(s, power.spec_name()) ==> power_of_text(s) == Some(power),
        s == crate::text::decimal(power.number() as nat) ==> power_of_text(s) == Some(power),
        power_of_text(s) == Some(power) ==> same_ignoring_case(s, power.spec_name()) || s
            == crate::text::decimal(power.number() as nat),
{
    reveal_strlit("0");
    reveal_strlit("1");
    reveal_strlit("2");
    reveal_strlit("3");
    reveal_strlit("off");
    reveal_strlit("standby");
    reveal_strlit("transmit");
    reveal_strlit("preparing");
    reveal_strlit("Off");
    reveal_strlit("Standby");
    reveal_strlit("Transmit");
    reveal_strlit("Preparing");
    assert(lower_all("Off"@) =~= lower_all("off"@));
    assert(lower_all("Standby"@) =~= lower_all("standby"@));
    assert(lower_all("Transmit"@) =~= lower_all("transmit"@));
    assert(lower_all("Preparing"@) =~= lower_all("preparing"@));
    assert(lower_all(s).len() == s.len());
    assert(lower_all("0"@)[0] == '0');
    assert(lower_all("1"@)[0] == '1');
    assert(lower_all("2"@)[0] == '2');
    assert(lower_all("3"@)[0] == '3');
    assert("0"@ =~= crate::text::decimal(0));
    assert("1"@ =~= crate::text::decimal(1));
    assert("2"@ =~= crate::text::decimal(2));
    assert("3"@ =~= crate::text::decimal(3));
    if s.len() == 1 {
        assert(lower_all(s)[0] == crate::text::lower(s[0]));
        assert(s =~= seq![s[0]]);
    }
}

/// Only the four states have numbers.
pub proof fn numbers_of_states(n: int)
    ensures
        (power_of_number(n) is Some) == (0 <= n <= 3),
        power_of_number(n) matches Some(power) ==> power.number() == n,
{
}

} // verus!

//! Units of control values.
use vstd::prelude::*;

use crate::text::same_text;

verus! {

/// A unit of a control value.
#[derive(Clone, Copy, Debug, PartialEq, Eq, Structural)]
pub enum Units {
    NoUnits,
    Meters,
    KiloMeters,
    NauticalMiles,
    MetersPerSecond,
    Knots,
    Degrees,
    Radians,
    RadiansPerSecond,
    RotationsPerMinute,
    Seconds,
    Minutes,
    Hours,
}

/// How a unit relates to the unit that clients see.
#[derive(Clone, Copy, Debug, PartialEq, Eq, Structural)]
pub enum Factor {
    /// Values are multiplied by a whole number.
    Whole(i32),
    /// The angle of one degree, in radians.
    Degree,
    /// The speed of one knot, in meters per second.
    Knot,
    /// The speed of one rotation per minute, in radians per second.
    Rotation,
}

impl Units {
    /// The short name of the unit.
    pub open spec fn label(self) -> Seq<char> {
        match self {
            Units::NoUnits => ""@,
            Units::Meters => "m"@,
            Units::KiloMeters => "km"@,
            Units::NauticalMiles => "nm"@,
            Units::MetersPerSecond => "m/s"@,
            Units::Knots => "kn"@,
            Units::Degrees => "deg"@,
            Units::Radians => "rad"@,
            Units::RadiansPerSecond => "rad/s"@,
            Units::RotationsPerMinute => "rpm"@,
            Units::Seconds => "s"@,
            Units::Minutes => "min"@,
            Units::Hours => "h"@,
        }
    }

    /// The unit that clients see in its place.
    pub open spec fn si_units(self) -> Units {
        match self {
            Units::Degrees => Units::Radians,
            Units::Hours => Units::Seconds,
            Units::Minutes => Units::Seconds,
            Units::KiloMeters => Units::Meters,
            Units::Knots => Units::MetersPerSecond,
            Units::NauticalMiles => Units::Meters,
            _ => self,
        }
    }

    /// What a value is multiplied by for the unit that clients see.
    pub open spec fn si_factor(self) -> Factor {
        match self {
            Units::Degrees => Factor::Degree,
            Units::Hours => Factor::Whole(3600),
            Units::Minutes => Factor::Whole(60),
            Units::KiloMeters => Factor::Whole(1000),
            Units::Knots => Factor::Knot,
            Units::NauticalMiles => Factor::Whole(1852),
            Units::RotationsPerMinute => Factor::Rotation,
            _ => Factor::Whole(1),
        }
    }

    /// The short name of the unit.
    pub fn as_str(&self) -> (s: &'static str)
        ensures
            s@ == self.label(),
    {
        match self {
            Units::NoUnits => "",
            Units::Meters => "m",
            Units::KiloMeters => "km",
            Units::NauticalMiles => "nm",
            Units::MetersPerSecond => "m/s",
            Units::Knots => "kn",
            Units::Degrees => "deg",
            Units::Radians => "rad",
            Units::RadiansPerSecond => "rad/s",
            Units::RotationsPerMinute => "rpm",
            Units::Seconds => "s",
            Units::Minutes => "min",
            Units::Hours => "h",
        }
    }

    /// The unit with a given short name.
    pub fn from_label(s: &str) -> (r: Option<Units>)
        ensures
            match r {
                Some(units) => units.label() == s@,
                None => forall|units: Units| #[trigger] units.label() != s@,
            },
    {
        if same_text(s, "") {
            Some(Units::NoUnits)
        } else if same_text(s, "m") {
            Some(Units::Meters)
        } else if same_text(s, "km") {
            Some(Units::KiloMeters)
        } else if same_text(s, "nm") {
            Some(Units::NauticalMiles)
        } else if same_text(s, "m/s") {
            Some(Units::MetersPerSecond)
        } else if same_text(s, "kn") {
            Some(Units::Knots)
        } else if same_text(s, "deg") {
            Some(Units::Degrees)
        } else if same_text(s, "rad") {
            Some(Units::Radians)
        } else if same_text(s, "rad/s") {
            Some(Units::RadiansPerSecond)
        } else if same_text(s, "rpm") {
            Some(Units::RotationsPerMinute)
        } else if same_text(s, "s") {
            Some(Units::Seconds)
        } else if same_text(s, "min") {
            Some(Units::Minutes)
        } else if same_text(s, "h") {
            Some(Units::Hours)
        } else {
            None
        }
    }

    /// The unit that clients see, and what a value is multiplied by for it.
    pub fn to_si(&self) -> (r: (Units, Factor))
        requires
            *self != Units::NoUnits,
        ensures
            r == (self.si_units(), self.si_factor()),
    {
        match self {
            Units::Degrees => (Units::Radians, Factor::Degree),
            Units::Hours => (Units::Seconds, Factor::Whole(3600)),
            Units::Minutes => (Units::Seconds, Factor::Whole(60)),
            Units::KiloMeters => (Units::Meters, Factor::Whole(1000)),
            Units::Knots => (Units::MetersPerSecond, Factor::Knot),
            Units::NauticalMiles => (Units::Meters, Factor::Whole(1852)),
            Units::RotationsPerMinute => (Units::RotationsPerMinute, Factor::Rotation),
            _ => (*self, Factor::Whole(1)),
        }
    }

    /// What a value in the unit that clients see is divided by for this unit.
    pub fn from_si(&self) -> (f: Factor)
        requires
            *self != Units::NoUnits,
        ensures
            f == self.si_factor(),
    {
        self.to_si().1
    }
}

/// No two units have the same short name, so the short name of a unit is read back as that unit.
pub proof fn labels_differ(a: Units, b: Units)
    requires
        a.label() == b.label(),
    ensures
        a == b,
{
    reveal_strlit("");
    reveal_strlit("m");
    reveal_strlit("km");
    reveal_strlit("nm");
    reveal_strlit("m/s");
    reveal_strlit("kn");
    reveal_strlit("deg");
    reveal_strlit("rad");
    reveal_strlit("rad/s");
    reveal_strlit("rpm");
    reveal_strlit("s");
    reveal_strlit("min");
    reveal_strlit("h");
    let x = a.label();
    let y = b.label();
    assert(x.len() == y.len());
    assert(x.len() > 0 ==> x[0] == y[0]);
    assert(x.len() > 1 ==> x[1] == y[1]);
}

/// The unit that clients see stays as it is, except that rotations stay per minute.
pub proof fn si_units_are_final(units: Units)
    ensures
        units.si_units().si_units() == units.si_units(),
{
}

/// Clients see lengths in meters, times in seconds, angles in radians and speeds in meters per second.
/// What is in such a unit, or in none of these, keeps its unit.
pub proof fn clients_see_standard_units(units: Units)
    ensures
        units.si_units() == Units::Meters <==> (units == Units::Meters || units == Units::KiloMeters
            || units == Units::NauticalMiles),
        units.si_units() == Units::Seconds <==> (units == Units::Seconds || units == Units::Minutes
            || units == Units::Hours),
        units.si_units() == Units::Radians <==> (units == Units::Radians || units == Units::Degrees),
        units.si_units() == Units::MetersPerSecond <==> (units == Units::MetersPerSecond || units
            == Units::Knots),
        units == Units::RadiansPerSecond || units == Units::RotationsPerMinute || units
            == Units::NoUnits ==> units.si_units() == units,
{
}

/// How many of the standard unit one of each unit has: an hour is sixty minutes of sixty seconds, a
/// kilometer a thousand meters and a nautical mile 1852.
pub proof fn units_have_these_sizes(units: Units)
    ensures
        Units::Minutes.si_factor() == Factor::Whole(60),
        Units::Hours.si_factor() == Factor::Whole(3600),
        Units::KiloMeters.si_factor() == Factor::Whole(1000),
        Units::NauticalMiles.si_factor() == Factor::Whole(1852),
        Units::Degrees.si_factor() == Factor::Degree,
        Units::Knots.si_factor() == Factor::Knot,
        Units::RotationsPerMinute.si_factor() == Factor::Rotation,
        units.si_units() == units && units != Units::RotationsPerMinute ==> units.si_factor()
            == Factor::Whole(1),
{
}

} // verus!

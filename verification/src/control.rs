//! A control of a radar: its definition and its present value.
//!
//! Values are held in the units that clients see. The arithmetic between those and the units of the
//! radar is done outside; what comes in here are numbers to be compared and stored.
use vstd::prelude::*;

use crate::control_id::ControlId;
use crate::definition::{
    copy_descriptions, descriptions_view, list, whole, ControlDataType, ControlDefinition, DefinitionView,
    Rational,
};
use crate::error::ControlError;
use crate::number::{order_is_kept, whole_number, WHOLE_LIMIT};
use crate::text::{eq_ignore_case, same_ignoring_case};
use crate::units::{Factor, Units};
use crate::value::{opt_text, opt_value, Number, Value, ValueView};

verus! {

/// What a value may be, in the units that clients see.
#[derive(Clone, Copy, Debug, PartialEq, Eq, Structural)]
pub enum Limits {
    /// Anything.
    Open,
    /// Not known yet: the units take arithmetic that is done outside.
    Pending,
    /// Anything from `min` to `max`. `twice_max` is twice the upper limit.
    Range { min: Number, max: Number, twice_max: Number },
}

/// A value that a radar reported, as it comes out of the arithmetic.
#[derive(Clone, Copy, Debug, PartialEq, Eq, Structural)]
pub struct Mapped {
    /// The value, scaled and in the units that clients see.
    pub value: Number,
    /// The value, rounded to the step of the control.
    pub rounded: Number,
    /// The value less twice the upper limit.
    pub wrapped: Number,
    /// The value less twice the upper limit, rounded to the step of the control.
    pub wrapped_rounded: Number,
}

/// A control of a radar.
#[derive(Debug)]
pub struct Control {
    pub item: ControlDefinition,
    pub limits: Limits,
    pub value: Option<Number>,
    pub auto_value: Option<Number>,
    pub end_value: Option<Number>,
    pub start_distance: Option<Number>,
    pub end_distance: Option<Number>,
    pub description: Option<String>,
    pub auto: Option<bool>,
    pub enabled: Option<bool>,
    pub allowed: Option<bool>,
    /// Clients have to be told the value again, changed or not.
    pub needs_refresh: bool,
}

/// Whether two values are the same number, or both missing.
pub open spec fn same_value(a: Option<Number>, b: Option<Number>) -> bool {
    match (a, b) {
        (Some(a), Some(b)) => a.order == b.order,
        (None, None) => true,
        _ => false,
    }
}

fn same_number(a: Option<Number>, b: Option<Number>) -> (r: bool)
    ensures
        r == same_value(a, b),
{
    match (a, b) {
        (Some(a), Some(b)) => a.order == b.order,
        (None, None) => true,
        _ => false,
    }
}

/// The whole number that a unit multiplies with.
pub open spec fn whole_factor(units: Option<Units>) -> Option<int> {
    match units {
        None => Some(1),
        Some(u) => match u.si_factor() {
            Factor::Whole(f) => Some(f as int),
            _ => None,
        },
    }
}

/// Whether a limit is a whole number of moderate size.
pub open spec fn is_whole(r: Rational) -> bool {
    r.den == 1 && i32::MIN <= r.num <= i32::MAX
}

/// The limits that a definition sets.
pub open spec fn limits_of(item: DefinitionView) -> Limits {
    match (item.min_value, item.max_value) {
        (Some(min), Some(max)) => match whole_factor(item.wire_units) {
            Some(f) if is_whole(min) && is_whole(max) => whole_limits(min.num * f, max.num * f),
            _ => Limits::Pending,
        },
        _ => Limits::Open,
    }
}

/// Limits that are whole numbers.
pub open spec fn whole_limits(min: int, max: int) -> Limits {
    Limits::Range {
        min: whole_number(min),
        max: whole_number(max),
        twice_max: whole_number(2 * max),
    }
}

fn make_limits(min: i64, max: i64) -> (l: Limits)
    requires
        -WHOLE_LIMIT < min < WHOLE_LIMIT,
        -WHOLE_LIMIT < 2 * max < WHOLE_LIMIT,
    ensures
        l == whole_limits(min as int, max as int),
{
    Limits::Range {
        min: Number::from_i64(min),
        max: Number::from_i64(max),
        twice_max: Number::from_i64(2 * max),
    }
}

/// Works out the limits that a definition sets.
pub fn definition_limits(item: &ControlDefinition) -> (l: Limits)
    ensures
        l == limits_of(item@),
{
    match (item.min_value, item.max_value) {
        (Some(min), Some(max)) => {
            let factor: Option<i32> = match item.wire_units {
                None => Some(1),
                Some(Units::NoUnits) => Some(1),
                Some(u) => match u.to_si().1 {
                    Factor::Whole(f) => Some(f),
                    _ => None,
                },
            };
            match factor {
                Some(f) => {
                    if min.den == 1 && i32::MIN as i64 <= min.num && min.num <= i32::MAX as i64
                        && max.den == 1 && i32::MIN as i64 <= max.num && max.num
                        <= i32::MAX as i64 {
                        let f: i64 = f as i64;
                        assert(f == 1 || f == 60 || f == 1000 || f == 1852 || f == 3600);
                        assert(-0x2_0000_0000_000 < min.num * f < 0x2_0000_0000_000)
                            by (nonlinear_arith)
                            requires
                                -0x8000_0000 <= min.num <= 0x7fff_ffff,
                                1 <= f <= 3600,
                        ;
                        assert(-0x2_0000_0000_000 < max.num * f < 0x2_0000_0000_000)
                            by (nonlinear_arith)
                            requires
                                -0x8000_0000 <= max.num <= 0x7fff_ffff,
                                1 <= f <= 3600,
                        ;
                        make_limits(min.num * f, max.num * f)
                    } else {
                        Limits::Pending
                    }
                },
                None => Limits::Pending,
            }
        },
        _ => Limits::Open,
    }
}

/// The value that a control starts with.
pub open spec fn start_value(item: DefinitionView) -> Option<Number> {
    match item.default_value {
        Some(n) => Some(whole_number(n as int)),
        None => None,
    }
}

/// Zero, for a zone.
pub open spec fn zone_zero(item: DefinitionView) -> Option<Number> {
    if item.data_type == ControlDataType::Zone {
        Some(whole_number(0))
    } else {
        None
    }
}

/// Whether a fraction is a given whole number.
pub open spec fn equals_whole(r: Rational, n: int) -> bool {
    r.den != 0 && r.num == n * r.den
}

/// Whether the values of the radar start at a given number. Without an offset they start at zero.
pub open spec fn is_offset(offset: Option<Rational>, min: int) -> bool {
    match offset {
        Some(r) => min != 0 && equals_whole(r, min),
        None => min == 0,
    }
}

/// Whether the radar has a given number of values.
pub open spec fn is_scale(scale: Option<Rational>, n: int) -> bool {
    scale matches Some(r) && equals_whole(r, n)
}

fn same_whole(r: &Rational, n: i64) -> (same: bool)
    ensures
        same == equals_whole(*r, n as int),
{
    assert(-0x4000_0000_0000_0000_0000_0000_0000_0000 <= n * r.den
        <= 0x4000_0000_0000_0000_0000_0000_0000_0000) by (nonlinear_arith)
        requires
            i64::MIN <= n <= i64::MAX,
            i64::MIN <= r.den <= i64::MAX,
    ;
    r.den != 0 && r.num as i128 == (n as i128) * (r.den as i128)
}

fn same_offset(offset: &Option<Rational>, min: i64) -> (same: bool)
    ensures
        same == is_offset(*offset, min as int),
{
    match offset {
        Some(r) => min != 0 && same_whole(r, min),
        None => min == 0,
    }
}

fn same_scale(scale: &Option<Rational>, n: i64) -> (same: bool)
    ensures
        same == is_scale(*scale, n as int),
{
    match scale {
        Some(r) => same_whole(r, n),
        None => false,
    }
}

impl Control {
    /// A value counts on from the lower half of the circle, and has to be moved there.
    pub open spec fn wraps(&self, m: Mapped) -> bool {
        match self.limits {
            Limits::Range { min, max, twice_max } => self.item.wire_offset == Some(whole(-1))
                && m.value.order > max.order && m.value.order <= twice_max.order,
            _ => false,
        }
    }

    /// The value that is held against the limits.
    pub open spec fn checked(&self, m: Mapped) -> Number {
        if self.wraps(m) {
            m.wrapped
        } else {
            m.value
        }
    }

    /// The value that is stored.
    pub open spec fn stored(&self, m: Mapped) -> Number {
        if self.wraps(m) {
            m.wrapped_rounded
        } else {
            m.rounded
        }
    }

    /// Whether a value lies below the limits.
    pub open spec fn too_low(&self, m: Mapped) -> bool {
        self.limits matches Limits::Range { min, .. } && self.checked(m).order < min.order
    }

    /// Whether a value lies above the limits.
    pub open spec fn too_high(&self, m: Mapped) -> bool {
        self.limits matches Limits::Range { max, .. } && self.checked(m).order > max.order
    }

    /// Whether a value lies within the limits.
    pub open spec fn accepts(&self, m: Mapped) -> bool {
        !self.too_low(m) && !self.too_high(m)
    }

    /// Whether clients are told of a report that changes nothing.
    pub open spec fn tells_anyway(&self) -> bool {
        self.needs_refresh || self.item.is_send_always
    }

    /// The control after clients have been told.
    pub open spec fn told(self) -> Control {
        Control { needs_refresh: false, ..self }
    }

    /// A control with its starting value.
    pub fn new(item: ControlDefinition) -> (c: Control)
        ensures
            c.item == item,
            c.limits == limits_of(item@),
            c.value == start_value(item@),
            c.auto_value is None,
            c.end_value == zone_zero(item@),
            c.start_distance == zone_zero(item@),
            c.end_distance == zone_zero(item@),
            c.description is None,
            c.auto is None,
            c.enabled is None,
            c.allowed is None,
            !c.needs_refresh,
    {
        let limits = definition_limits(&item);
        let value = match item.default_value {
            Some(n) => Some(Number::from_i32(n)),
            None => None,
        };
        let zero = if item.data_type == ControlDataType::Zone {
            Some(Number::from_i32(0))
        } else {
            None
        };
        Control {
            item,
            limits,
            value,
            auto_value: None,
            end_value: zero,
            start_distance: zero,
            end_distance: zero,
            description: None,
            auto: None,
            enabled: None,
            allowed: None,
            needs_refresh: false,
        }
    }

    /// The definition of the control.
    pub fn item(&self) -> (item: &ControlDefinition)
        ensures
            *item == self.item,
    {
        &self.item
    }

    /// Fills in limits that were not known yet, or changes them.
    pub fn set_limits(&mut self, limits: Limits)
        ensures
            *final(self) == (Control { limits, ..*old(self) }),
    {
        self.limits = limits;
    }

    /// Restricts the values that can be set.
    pub fn set_valid_values(&mut self, values: Vec<i32>)
        ensures
            *final(self) == (Control {
                item: ControlDefinition { valid_values: Some(values), ..old(self).item },
                ..*old(self)
            }),
    {
        self.item.valid_values = Some(values);
    }

    /// Restricts the values to the distances of ranges, each with its name. The limits become the
    /// first and the last of them.
    pub fn set_valid_ranges(&mut self, ranges: &Vec<(i32, String)>)
        requires
            ranges.len() > 0,
        ensures
            final(self).item@ == (DefinitionView {
                min_value: Some(whole(ranges@[0].0 as int)),
                max_value: Some(whole(ranges@[ranges.len() - 1].0 as int)),
                step_value: None,
                valid_values: Some(Seq::new(ranges@.len(), |i: int| ranges@[i].0)),
                descriptions: Some(descriptions_view(ranges@)),
                ..old(self).item@
            }),
            final(self).item.well_formed() == old(self).item.well_formed(),
            *final(self) == (Control {
                item: final(self).item,
                limits: whole_limits(
                    ranges@[0].0 as int,
                    ranges@[ranges.len() - 1].0 as int,
                ),
                ..*old(self)
            }),
    {
        let mut values: Vec<i32> = Vec::with_capacity(ranges.len());
        let descriptions = copy_descriptions(ranges);
        let mut i: usize = 0;
        while i < ranges.len()
            invariant
                i <= ranges.len(),
                values@ == Seq::new(i as nat, |j: int| ranges@[j].0),
            decreases ranges.len() - i,
        {
            values.push(ranges[i].0);
            assert(values@ =~= Seq::new((i + 1) as nat, |j: int| ranges@[j].0));
            i = i + 1;
        }
        let first: i32 = ranges[0].0;
        let last: i32 = ranges[ranges.len() - 1].0;
        self.item.min_value = Some(Rational::new(first as i64));
        self.item.max_value = Some(Rational::new(last as i64));
        self.item.step_value = None;
        self.item.valid_values = Some(values);
        self.item.descriptions = Some(descriptions);
        self.limits = make_limits(first as i64, last as i64);
    }

    /// Lets clients change the control, or stops them.
    pub fn set_allowed(&mut self, allowed: bool)
        ensures
            *final(self) == if old(self).allowed == Some(allowed) {
                *old(self)
            } else {
                Control { allowed: Some(allowed), needs_refresh: true, ..*old(self) }
            },
    {
        if self.allowed != Some(allowed) {
            self.allowed = Some(allowed);
            self.needs_refresh = true;
        }
    }

    /// Records whether the radar adjusts the control by itself.
    pub fn set_auto(&mut self, auto: bool)
        ensures
            *final(self) == (Control {
                auto: Some(auto),
                needs_refresh: old(self).auto != Some(auto),
                ..*old(self)
            }),
    {
        self.needs_refresh = self.auto != Some(auto);
        self.auto = Some(auto);
    }

    /// Moves a value into the lower half of the circle where it counts on from there, and holds it
    /// against the limits.
    fn map_range(&self, m: &Mapped) -> (r: Result<Number, ControlError>)
        requires
            self.limits != Limits::Pending,
        ensures
            match r {
                Ok(n) => self.accepts(*m) && n == self.stored(*m),
                Err(e) => !self.accepts(*m) && tells_limit(*self, *m, e),
            },
    {
        match self.limits {
            Limits::Range { min, max, twice_max } => {
                let counts_on = match self.item.wire_offset {
                    Some(offset) => offset.num == -1 && offset.den == 1,
                    None => false,
                };
                let wraps = counts_on && m.value.order > max.order && m.value.order
                    <= twice_max.order;
                let checked = if wraps {
                    m.wrapped
                } else {
                    m.value
                };
                if checked.order < min.order {
                    return Err(
                        ControlError::TooLow(self.item.control_id, checked.order, min.order),
                    );
                }
                if checked.order > max.order {
                    return Err(
                        ControlError::TooHigh(self.item.control_id, checked.order, max.order),
                    );
                }
                if wraps {
                    Ok(m.wrapped_rounded)
                } else {
                    Ok(m.rounded)
                }
            },
            _ => Ok(m.rounded),
        }
    }

    /// Sets the control to a value that the radar reported, with what the radar adjusts by itself
    /// and whether it is switched on. The result is `Some` when clients have to be told: the value
    /// changed, or they are told anyway.
    pub fn set(
        &mut self,
        value: &Mapped,
        auto_value: Option<Number>,
        auto: Option<bool>,
        enabled: Option<bool>,
    ) -> (r: Result<Option<()>, ControlError>)
        requires
            old(self).limits != Limits::Pending,
        ensures
            set_to(*old(self), *final(self), *value, auto_value, auto, enabled, r),
    {
        let stored = match self.map_range(value) {
            Ok(n) => n,
            Err(e) => {
                return Err(e);
            },
        };
        if auto.is_some() && self.item.automatic.is_none() {
            return Err(ControlError::NoAuto(self.item.control_id));
        }
        if !same_number(self.value, Some(stored)) || !same_number(self.auto_value, auto_value)
            || self.auto != auto || self.enabled != enabled {
            self.value = Some(stored);
            self.auto_value = auto_value;
            self.auto = auto;
            self.enabled = enabled;
            self.needs_refresh = false;
            Ok(Some(()))
        } else if self.needs_refresh || self.item.is_send_always {
            self.needs_refresh = false;
            Ok(Some(()))
        } else {
            Ok(None)
        }
    }

    /// Sets a sector to the angles that the radar reported.
    pub fn set_sector(&mut self, start: &Mapped, end: &Mapped, enabled: Option<bool>) -> (r: Result<
        Option<()>,
        ControlError,
    >)
        requires
            old(self).limits != Limits::Pending,
        ensures
            set_to_sector(*old(self), *final(self), *start, *end, enabled, r),
    {
        if self.item.data_type != ControlDataType::Sector {
            return Err(ControlError::NotSupported(self.item.control_id));
        }
        let first = match self.map_range(start) {
            Ok(n) => n,
            Err(e) => {
                return Err(e);
            },
        };
        let last = match self.map_range(end) {
            Ok(n) => n,
            Err(e) => {
                return Err(e);
            },
        };
        if !same_number(self.value, Some(first)) || !same_number(self.end_value, Some(last))
            || self.enabled != enabled {
            self.value = Some(first);
            self.end_value = Some(last);
            self.enabled = enabled;
            self.needs_refresh = false;
            Ok(Some(()))
        } else if self.needs_refresh || self.item.is_send_always {
            self.needs_refresh = false;
            Ok(Some(()))
        } else {
            Ok(None)
        }
    }

    /// Sets a zone to angles and distances.
    pub fn set_zone(
        &mut self,
        start_angle: Number,
        end_angle: Number,
        start_distance: Number,
        end_distance: Number,
        enabled: Option<bool>,
    ) -> (r: Result<Option<()>, ControlError>)
        ensures
            set_to_zone(
                *old(self),
                *final(self),
                start_angle,
                end_angle,
                start_distance,
                end_distance,
                enabled,
                r,
            ),
    {
        if self.item.data_type != ControlDataType::Zone {
            return Err(ControlError::NotSupported(self.item.control_id));
        }
        if !same_number(self.value, Some(start_angle)) || !same_number(
            self.end_value,
            Some(end_angle),
        ) || !same_number(self.start_distance, Some(start_distance)) || !same_number(
            self.end_distance,
            Some(end_distance),
        ) || self.enabled != enabled {
            self.value = Some(start_angle);
            self.end_value = Some(end_angle);
            self.start_distance = Some(start_distance);
            self.end_distance = Some(end_distance);
            self.enabled = enabled;
            self.needs_refresh = false;
            Ok(Some(()))
        } else if self.needs_refresh || self.item.is_send_always {
            self.needs_refresh = false;
            Ok(Some(()))
        } else {
            Ok(None)
        }
    }

    /// Sets the text of the control.
    pub fn set_string(&mut self, value: String) -> (r: Option<()>)
        ensures
            r is Some <==> opt_text(old(self).description) != Some(value@) || old(self).needs_refresh,
            opt_text(final(self).description) == Some(value@),
            *final(self) == (Control {
                description: final(self).description,
                needs_refresh: false,
                ..*old(self)
            }),
    {
        let same = match &self.description {
            Some(d) => *d == value,
            None => false,
        };
        if !same {
            self.description = Some(value);
            self.needs_refresh = false;
            Some(())
        } else if self.needs_refresh {
            self.needs_refresh = false;
            Some(())
        } else {
            None
        }
    }

    /// The control with another range of the values of the radar.
    pub open spec fn with_wire_range(self, min: int, max: int) -> Control {
        Control {
            item: ControlDefinition {
                wire_offset: if min != 0 {
                    Some(whole(min))
                } else {
                    None
                },
                wire_scale_factor: Some(whole(max - min)),
                ..self.item
            },
            ..self
        }
    }

    /// Whether a range of the values of the radar is another one than before.
    pub open spec fn wire_range_changes(&self, min: int, max: int) -> bool {
        ||| !is_offset(self.item.wire_offset, min)
        ||| !is_scale(self.item.wire_scale_factor, max - min)
    }

    /// Sets the range of the values of the radar: where they start, and how many there are. Clients
    /// have to be told where the range is another one than before, and where they are told of every
    /// report.
    pub fn set_wire_range(&mut self, min: i64, max: i64) -> (r: Result<Option<()>, ControlError>)
        requires
            i64::MIN <= max - min <= i64::MAX,
        ensures
            r == Ok::<Option<()>, ControlError>(
                if old(self).wire_range_changes(min as int, max as int) || old(self).tells_anyway() {
                    Some(())
                } else {
                    None
                },
            ),
            *final(self) == old(self).with_wire_range(min as int, max as int),
    {
        let changed = !same_offset(&self.item.wire_offset, min) || !same_scale(
            &self.item.wire_scale_factor,
            max - min,
        );
        self.item.wire_offset = if min != 0 {
            Some(Rational::new(min))
        } else {
            None
        };
        self.item.wire_scale_factor = Some(Rational::new(max - min));
        if changed || self.needs_refresh || self.item.is_send_always {
            Ok(Some(()))
        } else {
            Ok(None)
        }
    }

    /// The value as clients see it: a text, or a number that is an integer where it has 32 bits.
    pub open spec fn client_value(&self) -> Option<ValueView> {
        if self.item.data_type == ControlDataType::String {
            match opt_text(self.description) {
                Some(s) => Some(ValueView::String(s)),
                None => None,
            }
        } else {
            match self.value {
                Some(n) => Some(ValueView::Number(client_number(n))),
                None => None,
            }
        }
    }

    /// The value as clients see it.
    pub fn value(&self) -> (r: Option<Value>)
        ensures
            opt_value(r) == self.client_value(),
    {
        if self.item.data_type == ControlDataType::String {
            match &self.description {
                Some(s) => Some(Value::String(s.clone())),
                None => None,
            }
        } else {
            match self.value {
                Some(n) => Some(Value::Number(to_number(n))),
                None => None,
            }
        }
    }

    /// The value that the radar adjusts by itself, as clients see it.
    pub fn auto_value(&self) -> (r: Option<Number>)
        ensures
            r == if self.item.data_type == ControlDataType::String {
                None
            } else {
                self.auto_value
            },
    {
        if self.item.data_type == ControlDataType::String {
            return None;
        }
        self.auto_value
    }

    /// The second angle of a sector or a zone, as clients see it.
    pub fn end_value(&self) -> (r: Option<Number>)
        ensures
            r == if self.item.data_type == ControlDataType::Sector || self.item.data_type
                == ControlDataType::Zone {
                self.end_value
            } else {
                None
            },
    {
        if self.item.data_type != ControlDataType::Sector && self.item.data_type
            != ControlDataType::Zone {
            return None;
        }
        self.end_value
    }

    /// The inner distance of a zone, as clients see it.
    pub fn start_distance(&self) -> (r: Option<Number>)
        ensures
            r == if self.item.data_type == ControlDataType::Zone {
                self.start_distance
            } else {
                None
            },
    {
        if self.item.data_type != ControlDataType::Zone {
            return None;
        }
        self.start_distance
    }

    /// The outer distance of a zone, as clients see it.
    pub fn end_distance(&self) -> (r: Option<Number>)
        ensures
            r == if self.item.data_type == ControlDataType::Zone {
                self.end_distance
            } else {
                None
            },
    {
        if self.item.data_type != ControlDataType::Zone {
            return None;
        }
        self.end_distance
    }

    /// The value as an unsigned 16 bit number, where it is one.
    pub fn as_u16(&self) -> (r: Option<u16>)
        ensures
            r == match self.value {
                Some(n) if 0 <= n.truncated <= u16::MAX => Some(n.truncated as u16),
                _ => None,
            },
    {
        match self.value {
            Some(n) if 0 <= n.truncated && n.truncated <= u16::MAX as i32 => Some(
                n.truncated as u16,
            ),
            _ => None,
        }
    }

    /// The number that a name of an enumeration stands for, whatever the case of its letters.
    pub fn enum_value_to_index(&self, name: &str) -> (r: Option<i32>)
        ensures
            r == match self.item@.descriptions {
                Some(names) => index_of_name(names, name@),
                None => None,
            },
    {
        match &self.item.descriptions {
            Some(names) => find_name(names, name),
            None => None,
        }
    }

    /// The name of a value of an enumeration.
    pub fn index_to_enum_value(&self, index: i32) -> (r: Option<String>)
        ensures
            opt_text(r) == match self.item@.descriptions {
                Some(names) => name_of_index(names, index),
                None => None,
            },
    {
        match &self.item.descriptions {
            Some(names) => find_index(names, index),
            None => None,
        }
    }
}

/// What an error tells of a value that lies outside the limits.
pub open spec fn tells_limit(before: Control, value: Mapped, e: ControlError) -> bool {
    match (e, before.limits) {
        (ControlError::TooLow(id, v, limit), Limits::Range { min, .. }) => before.too_low(value)
            && id == before.item.control_id && v == before.checked(value).order && limit
            == min.order,
        (ControlError::TooHigh(id, v, limit), Limits::Range { max, .. }) => !before.too_low(value)
            && before.too_high(value) && id == before.item.control_id && v == before.checked(
            value,
        ).order && limit == max.order,
        _ => false,
    }
}

/// What becomes of a control that is set to a value that the radar reported, and whether clients
/// have to be told.
pub open spec fn set_to(
    before: Control,
    after: Control,
    value: Mapped,
    auto_value: Option<Number>,
    auto: Option<bool>,
    enabled: Option<bool>,
    r: Result<Option<()>, ControlError>,
) -> bool {
    let stored = before.stored(value);
    let changed = !same_value(before.value, Some(stored)) || !same_value(
        before.auto_value,
        auto_value,
    ) || before.auto != auto || before.enabled != enabled;
    if !before.accepts(value) {
        r matches Err(e) && tells_limit(before, value, e) && after == before
    } else if auto is Some && before.item.automatic is None {
        r matches Err(ControlError::NoAuto(id)) && id == before.item.control_id && after == before
    } else {
        &&& r == Ok::<Option<()>, ControlError>(
            if changed || before.tells_anyway() {
                Some(())
            } else {
                None
            },
        )
        &&& after == if changed {
            Control {
                value: Some(stored),
                auto_value,
                auto,
                enabled,
                needs_refresh: false,
                ..before
            }
        } else {
            before.told()
        }
    }
}

/// What becomes of a sector that is set to angles that the radar reported, and whether clients have
/// to be told.
pub open spec fn set_to_sector(
    before: Control,
    after: Control,
    start: Mapped,
    end: Mapped,
    enabled: Option<bool>,
    r: Result<Option<()>, ControlError>,
) -> bool {
    let first = before.stored(start);
    let last = before.stored(end);
    let changed = !same_value(before.value, Some(first)) || !same_value(
        before.end_value,
        Some(last),
    ) || before.enabled != enabled;
    if before.item.data_type != ControlDataType::Sector {
        r matches Err(ControlError::NotSupported(id)) && id == before.item.control_id && after
            == before
    } else if !before.accepts(start) {
        r matches Err(e) && tells_limit(before, start, e) && after == before
    } else if !before.accepts(end) {
        r matches Err(e) && tells_limit(before, end, e) && after == before
    } else {
        &&& r == Ok::<Option<()>, ControlError>(
            if changed || before.tells_anyway() {
                Some(())
            } else {
                None
            },
        )
        &&& after == if changed {
            Control {
                value: Some(first),
                end_value: Some(last),
                enabled,
                needs_refresh: false,
                ..before
            }
        } else {
            before.told()
        }
    }
}

/// What becomes of a zone that is set to angles and distances, and whether clients have to be told.
pub open spec fn set_to_zone(
    before: Control,
    after: Control,
    start_angle: Number,
    end_angle: Number,
    start_distance: Number,
    end_distance: Number,
    enabled: Option<bool>,
    r: Result<Option<()>, ControlError>,
) -> bool {
    let changed = !same_value(before.value, Some(start_angle)) || !same_value(
        before.end_value,
        Some(end_angle),
    ) || !same_value(before.start_distance, Some(start_distance)) || !same_value(
        before.end_distance,
        Some(end_distance),
    ) || before.enabled != enabled;
    if before.item.data_type != ControlDataType::Zone {
        r matches Err(ControlError::NotSupported(id)) && id == before.item.control_id && after
            == before
    } else {
        &&& r == Ok::<Option<()>, ControlError>(
            if changed || before.tells_anyway() {
                Some(())
            } else {
                None
            },
        )
        &&& after == if changed {
            Control {
                value: Some(start_angle),
                end_value: Some(end_angle),
                start_distance: Some(start_distance),
                end_distance: Some(end_distance),
                enabled,
                needs_refresh: false,
                ..before
            }
        } else {
            before.told()
        }
    }
}

/// A number as clients see it: an integer where it has 32 bits.
pub open spec fn client_number(n: Number) -> Number {
    match n.integer {
        Some(i) if i32::MIN <= i <= i32::MAX => n,
        _ => Number { integer: None, ..n },
    }
}

/// A number as clients see it.
pub fn to_number(n: Number) -> (r: Number)
    ensures
        r == client_number(n),
{
    match n.integer {
        Some(i) if i32::MIN as i64 <= i && i <= i32::MAX as i64 => n,
        _ => Number { integer: None, ..n },
    }
}

/// The value of the first name that is the same but for case.
pub open spec fn index_of_name(names: Seq<(i32, Seq<char>)>, name: Seq<char>) -> Option<i32>
    decreases names.len(),
{
    if names.len() == 0 {
        None
    } else if same_ignoring_case(names[0].1, name) {
        Some(names[0].0)
    } else {
        index_of_name(names.skip(1), name)
    }
}

/// The first name of a value.
pub open spec fn name_of_index(names: Seq<(i32, Seq<char>)>, index: i32) -> Option<Seq<char>>
    decreases names.len(),
{
    if names.len() == 0 {
        None
    } else if names[0].0 == index {
        Some(names[0].1)
    } else {
        name_of_index(names.skip(1), index)
    }
}

/// Looks up the value of a name.
pub fn find_name(names: &Vec<(i32, String)>, name: &str) -> (r: Option<i32>)
    ensures
        r == index_of_name(descriptions_view(names@), name@),
{
    let mut i: usize = 0;
    let ghost all = descriptions_view(names@);
    assert(all.skip(0) =~= all);
    while i < names.len()
        invariant
            i <= names.len(),
            all == descriptions_view(names@),
            index_of_name(all, name@) == index_of_name(all.skip(i as int), name@),
        decreases names.len() - i,
    {
        assert(all.skip(i as int)[0] == (names@[i as int].0, names@[i as int].1@));
        if eq_ignore_case(names[i].1.as_str(), name) {
            return Some(names[i].0);
        }
        assert(all.skip(i as int).skip(1) =~= all.skip(i + 1));
        i = i + 1;
    }
    None
}

/// Looks up the name of a value.
pub fn find_index(names: &Vec<(i32, String)>, index: i32) -> (r: Option<String>)
    ensures
        opt_text(r) == name_of_index(descriptions_view(names@), index),
{
    let mut i: usize = 0;
    let ghost all = descriptions_view(names@);
    assert(all.skip(0) =~= all);
    while i < names.len()
        invariant
            i <= names.len(),
            all == descriptions_view(names@),
            name_of_index(all, index) == name_of_index(all.skip(i as int), index),
        decreases names.len() - i,
    {
        assert(all.skip(i as int)[0] == (names@[i as int].0, names@[i as int].1@));
        if names[i].0 == index {
            return Some(names[i].1.clone());
        }
        assert(all.skip(i as int).skip(1) =~= all.skip(i + 1));
        i = i + 1;
    }
    None
}

/// Setting the same value again is accepted again, changes nothing, and tells nobody unless every
/// report is passed on.
pub proof fn setting_twice_changes_nothing(
    first: Control,
    second: Control,
    third: Control,
    value: Mapped,
    auto_value: Option<Number>,
    auto: Option<bool>,
    enabled: Option<bool>,
    r1: Result<Option<()>, ControlError>,
    r2: Result<Option<()>, ControlError>,
)
    requires
        set_to(first, second, value, auto_value, auto, enabled, r1),
        set_to(second, third, value, auto_value, auto, enabled, r2),
        r1 is Ok,
    ensures
        third == second,
        r2 == Ok::<Option<()>, ControlError>(
            if first.item.is_send_always {
                Some(())
            } else {
                None
            },
        ),
{
}

/// A value that is refused leaves the control as it was.
pub proof fn refusal_changes_nothing(
    before: Control,
    after: Control,
    value: Mapped,
    auto_value: Option<Number>,
    auto: Option<bool>,
    enabled: Option<bool>,
    r: Result<Option<()>, ControlError>,
)
    requires
        set_to(before, after, value, auto_value, auto, enabled, r),
        r is Err,
    ensures
        after == before,
{
}

/// Setting the same range of the values of the radar again changes nothing, and tells nobody unless
/// every report is passed on.
pub proof fn wire_range_is_new_once(c: Control, min: int, max: int)
    requires
        i64::MIN <= min <= i64::MAX,
        i64::MIN <= max - min <= i64::MAX,
    ensures
        !c.with_wire_range(min, max).wire_range_changes(min, max),
        c.with_wire_range(min, max).with_wire_range(min, max) == c.with_wire_range(min, max),
        c.with_wire_range(min, max).tells_anyway() == c.tells_anyway(),
{
}

/// A control that counts its names from zero has limits that let in exactly the values of its
/// names.
pub proof fn names_are_the_limits(names: Seq<Seq<char>>, id: ControlId, n: int, m: Mapped, c: Control)
    requires
        0 < names.len() <= i32::MAX,
        c.item@ == crate::definition::list(id, names),
        c.limits == limits_of(c.item@),
        i32::MIN <= n <= i32::MAX,
        m.value == whole_number(n),
    ensures
        c.accepts(m) <==> 0 <= n < names.len(),
{
    order_is_kept(n, 0);
    order_is_kept(n, names.len() - 1);
}

proof fn first_name_counts(names: Seq<(i32, Seq<char>)>, name: Seq<char>, i: int)
    requires
        0 <= i < names.len(),
        same_ignoring_case(names[i].1, name),
        forall|j: int| 0 <= j < i ==> !same_ignoring_case(#[trigger] names[j].1, name),
    ensures
        index_of_name(names, name) == Some(names[i].0),
    decreases names.len(),
{
    if i > 0 {
        assert(!same_ignoring_case(names[0].1, name));
        let rest = names.skip(1);
        assert forall|j: int| 0 <= j < i - 1 implies !same_ignoring_case(#[trigger] rest[j].1, name) by {
            assert(!same_ignoring_case(names[j + 1].1, name));
        }
        first_name_counts(rest, name, i - 1);
    }
}

proof fn first_value_counts(names: Seq<(i32, Seq<char>)>, i: int)
    requires
        0 <= i < names.len(),
        forall|j: int| 0 <= j < i ==> #[trigger] names[j].0 != names[i].0,
    ensures
        name_of_index(names, names[i].0) == Some(names[i].1),
    decreases names.len(),
{
    if i > 0 {
        assert(names[0].0 != names[i].0);
        let rest = names.skip(1);
        assert forall|j: int| 0 <= j < i - 1 implies #[trigger] rest[j].0 != rest[i - 1].0 by {
            assert(names[j + 1].0 != names[i].0);
        }
        first_value_counts(rest, i - 1);
    }
}

/// The names and the values of an enumeration lead to each other, where the names differ in more than
/// their case and the values differ: a name in any case leads to its value, and that back to the name.
pub proof fn names_and_values_agree(names: Seq<(i32, Seq<char>)>, i: int, name: Seq<char>)
    requires
        0 <= i < names.len(),
        same_ignoring_case(names[i].1, name),
        forall|j: int, k: int|
            0 <= j < k < names.len() ==> !same_ignoring_case(#[trigger] names[j].1, #[trigger] names[k].1),
        forall|j: int, k: int| 0 <= j < k < names.len() ==> #[trigger] names[j].0 != #[trigger] names[k].0,
    ensures
        index_of_name(names, name) == Some(names[i].0),
        name_of_index(names, names[i].0) == Some(names[i].1),
{
    assert forall|j: int| 0 <= j < i implies !same_ignoring_case(#[trigger] names[j].1, name) by {
        assert(!same_ignoring_case(names[j].1, names[i].1));
    }
    first_name_counts(names, name, i);
    first_value_counts(names, i);
}

/// A text that is no name of an enumeration, in any case, stands for no value, and a number that is no
/// value has no name.
pub proof fn unknown_names_and_values(names: Seq<(i32, Seq<char>)>, name: Seq<char>, value: i32)
    ensures
        (forall|i: int| 0 <= i < names.len() ==> !same_ignoring_case(#[trigger] names[i].1, name))
            ==> index_of_name(names, name) is None,
        (forall|i: int| 0 <= i < names.len() ==> #[trigger] names[i].0 != value) ==> name_of_index(
            names,
            value,
        ) is None,
    decreases names.len(),
{
    if names.len() > 0 {
        let rest = names.skip(1);
        unknown_names_and_values(rest, name, value);
        if forall|i: int| 0 <= i < names.len() ==> !same_ignoring_case(#[trigger] names[i].1, name) {
            assert(!same_ignoring_case(names[0].1, name));
            assert forall|i: int| 0 <= i < rest.len() implies !same_ignoring_case(
                #[trigger] rest[i].1,
                name,
            ) by {
                assert(!same_ignoring_case(names[i + 1].1, name));
            }
        }
        if forall|i: int| 0 <= i < names.len() ==> #[trigger] names[i].0 != value {
            assert(names[0].0 != value);
            assert forall|i: int| 0 <= i < rest.len() implies #[trigger] rest[i].0 != value by {
                assert(names[i + 1].0 != value);
            }
        }
    }
}

/// In a list of labels that differ in more than their case, a label in any case leads to its place, and
/// the place leads back to the label.
pub proof fn labels_and_places_agree(id: ControlId, labels: Seq<Seq<char>>, i: int, label: Seq<char>)
    requires
        labels.len() <= i32::MAX,
        0 <= i < labels.len(),
        same_ignoring_case(labels[i], label),
        forall|j: int, k: int|
            0 <= j < k < labels.len() ==> !same_ignoring_case(#[trigger] labels[j], #[trigger] labels[k]),
    ensures
        list(id, labels).descriptions is Some,
        index_of_name(list(id, labels).descriptions->0, label) == Some(i as i32),
        name_of_index(list(id, labels).descriptions->0, i as i32) == Some(labels[i]),
{
    let names = list(id, labels).descriptions->0;
    assert(names =~= Seq::new(labels.len(), |n: int| (n as i32, labels[n])));
    assert forall|j: int, k: int| 0 <= j < k < names.len() implies !same_ignoring_case(
        #[trigger] names[j].1,
        #[trigger] names[k].1,
    ) by {
        assert(!same_ignoring_case(labels[j], labels[k]));
    }
    names_and_values_agree(names, i, label);
}

/// A report that is accepted arrives: the control has the value, rounded to its steps, and whether the
/// radar chose it and it is in use. Clients are told exactly if any of that is new, or if they are to be
/// told anyway.
pub proof fn accepted_values_arrive(
    before: Control,
    after: Control,
    value: Mapped,
    auto_value: Option<Number>,
    auto: Option<bool>,
    enabled: Option<bool>,
    told: Option<()>,
)
    requires
        set_to(
            before,
            after,
            value,
            auto_value,
            auto,
            enabled,
            Ok::<Option<()>, ControlError>(told),
        ),
        !before.wraps(value),
    ensures
        after.value matches Some(n) && n.order == value.rounded.order,
        same_value(after.auto_value, auto_value),
        after.auto == auto,
        after.enabled == enabled,
        after.item == before.item,
        after.limits == before.limits,
        after.end_value == before.end_value,
        after.allowed == before.allowed,
        after.description == before.description,
        !after.needs_refresh,
        told is Some <==> (before.needs_refresh || before.item.is_send_always || before.auto != auto
            || before.enabled != enabled || before.value is None || (before.value->0).order
            != value.rounded.order || !same_value(before.auto_value, auto_value)),
{
}

/// A value is refused exactly if it lies outside the limits, or if the radar is said to have chosen it
/// and never does. Who asks is told which limit it was.
pub proof fn limits_are_kept(
    before: Control,
    after: Control,
    value: Mapped,
    auto_value: Option<Number>,
    auto: Option<bool>,
    enabled: Option<bool>,
    r: Result<Option<()>, ControlError>,
    min: Number,
    max: Number,
    twice_max: Number,
)
    requires
        before.limits == (Limits::Range { min, max, twice_max }),
        !before.wraps(value),
        min.order <= max.order,
        set_to(before, after, value, auto_value, auto, enabled, r),
    ensures
        r is Ok <==> min.order <= value.value.order <= max.order && !(auto is Some
            && before.item.automatic is None),
        value.value.order < min.order ==> (r matches Err(ControlError::TooLow(id, v, limit)) && id
            == before.item.control_id && v == value.value.order && limit == min.order),
        value.value.order > max.order ==> (r matches Err(ControlError::TooHigh(id, v, limit)) && id
            == before.item.control_id && v == value.value.order && limit == max.order),
{
}

/// A control whose values count on from the lower half of the circle takes those of the upper half as
/// negative ones: a value above the limit, but not above twice the limit, is moved down by twice the
/// limit before it is held against the limits and stored.
pub proof fn upper_half_is_moved_down(
    before: Control,
    after: Control,
    value: Mapped,
    auto_value: Option<Number>,
    auto: Option<bool>,
    enabled: Option<bool>,
    r: Result<Option<()>, ControlError>,
    min: Number,
    max: Number,
    twice_max: Number,
)
    requires
        before.limits == (Limits::Range { min, max, twice_max }),
        before.item.wire_offset == Some(whole(-1)),
        max.order < value.value.order <= twice_max.order,
        auto is None || before.item.automatic is Some,
        set_to(before, after, value, auto_value, auto, enabled, r),
    ensures
        r is Ok <==> min.order <= value.wrapped.order <= max.order,
        r is Ok ==> (after.value matches Some(n) && n.order == value.wrapped_rounded.order),
{
}

/// Only controls whose values count on from the lower half of the circle move values, and only those
/// of the upper half.
pub proof fn other_values_stay_where_they_are(c: Control, value: Mapped)
    ensures
        c.item.wire_offset != Some(whole(-1)) ==> !c.wraps(value),
        !(c.limits is Range) ==> !c.wraps(value),
        c.limits matches Limits::Range { min, max, twice_max } ==> (value.value.order <= max.order
            || value.value.order > twice_max.order ==> !c.wraps(value)),
{
}

/// The sector of an accepted report arrives: both angles, and whether it is in use.
pub proof fn accepted_sectors_arrive(
    before: Control,
    after: Control,
    start: Mapped,
    end: Mapped,
    enabled: Option<bool>,
    told: Option<()>,
)
    requires
        set_to_sector(before, after, start, end, enabled, Ok::<Option<()>, ControlError>(told)),
        !before.wraps(start),
        !before.wraps(end),
    ensures
        after.value matches Some(n) && n.order == start.rounded.order,
        after.end_value matches Some(n) && n.order == end.rounded.order,
        after.enabled == enabled,
        after.item == before.item,
        told is Some <==> (before.needs_refresh || before.item.is_send_always || before.enabled
            != enabled || !same_value(before.value, Some(start.rounded)) || !same_value(
            before.end_value,
            Some(end.rounded),
        )),
        before.item.data_type == ControlDataType::Sector,
{
}

/// The zone of an accepted request arrives: both angles, both distances, and whether it is in use.
pub proof fn accepted_zones_arrive(
    before: Control,
    after: Control,
    start_angle: Number,
    end_angle: Number,
    start_distance: Number,
    end_distance: Number,
    enabled: Option<bool>,
    r: Result<Option<()>, ControlError>,
)
    requires
        set_to_zone(
            before,
            after,
            start_angle,
            end_angle,
            start_distance,
            end_distance,
            enabled,
            r,
        ),
    ensures
        r is Ok <==> before.item.data_type == ControlDataType::Zone,
        r is Err ==> after == before,
        r matches Ok(told) ==> {
            &&& after.value matches Some(n) && n.order == start_angle.order
            &&& after.end_value matches Some(n) && n.order == end_angle.order
            &&& after.start_distance matches Some(n) && n.order == start_distance.order
            &&& after.end_distance matches Some(n) && n.order == end_distance.order
            &&& after.enabled == enabled
            &&& told is None ==> after == before
        },
{
}

/// Limits that are whole numbers let in exactly what lies between them, both limits included, in the unit
/// that clients see.
pub proof fn whole_limits_let_in(item: DefinitionView, min: int, max: int, c: Control, n: int, m: Mapped)
    requires
        item.min_value == Some(whole(min)),
        item.max_value == Some(whole(max)),
        item.wire_units is None,
        i32::MIN <= min <= max <= i32::MAX,
        i32::MIN <= n <= i32::MAX,
        c.limits == limits_of(item),
        c.item.wire_offset != Some(whole(-1)),
        m.value == whole_number(n),
    ensures
        c.accepts(m) <==> min <= n <= max,
{
    order_is_kept(n, min);
    order_is_kept(n, max);
}

/// A definition without one of its limits lets in everything.
pub proof fn missing_limits_let_in_everything(item: DefinitionView, c: Control, m: Mapped)
    requires
        item.min_value is None || item.max_value is None,
        c.limits == limits_of(item),
    ensures
        c.accepts(m),
{
}

/// Clients see whole numbers of 32 bits as whole numbers. Everything else stays what it is, but is not
/// marked as whole.
pub proof fn clients_see_whole_numbers(n: Number)
    ensures
        client_number(n).order == n.order,
        client_number(n).truncated == n.truncated,
        n.integer matches Some(i) ==> (client_number(n) == n) == (-0x8000_0000 <= i < 0x8000_0000),
        n.integer matches Some(i) && !(-0x8000_0000 <= i < 0x8000_0000) ==> client_number(
            n,
        ).integer is None,
{
}

} // verus!

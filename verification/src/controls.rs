//! All controls of a radar.
use vstd::prelude::*;

use crate::brand::TargetMode;
use crate::control::{
    limits_of, same_value, set_to, set_to_sector, set_to_zone, start_value, zone_zero, Control,
    Limits, Mapped,
};
use crate::control_id::{
    control_of_text, number_in_range, number_is_inverse, ControlId, CONTROL_COUNT,
};
use crate::control_value::{control_view, ControlValue, RadarControlValue};
use crate::definition::{
    button, copy_descriptions, descriptions_view, enumeration, list, new_button, new_list_2, new_list_4, new_map, new_numeric,
    new_string, new_zone, numeric, text, whole, zone, ControlBuilder, ControlDataType,
    ControlDefinition, DefinitionView, Rational,
};
use crate::error::{ControlError, RadarError};
use crate::number::whole_number;
use crate::power::{power_of_value, Power};
use crate::text::{integer_text, parse_integer, within};
use crate::units::Units;
use crate::value::{clone_opt_text, opt_text, Number, Value, ValueView};

verus! {

/// The ranges of a radar: distances in meters with their names, all of them and by unit system.
#[derive(Debug)]
pub struct Ranges {
    pub all: Vec<(i32, String)>,
    pub nautical: Vec<(i32, String)>,
    pub metric: Vec<(i32, String)>,
    pub mixed: Vec<(i32, String)>,
}

impl Ranges {
    /// No ranges.
    pub fn empty() -> (r: Ranges)
        ensures
            r.all@.len() == 0,
            r.nautical@.len() == 0,
            r.metric@.len() == 0,
            r.mixed@.len() == 0,
    {
        Ranges { all: Vec::new(), nautical: Vec::new(), metric: Vec::new(), mixed: Vec::new() }
    }

    /// The number of ranges.
    pub fn len(&self) -> (n: usize)
        ensures
            n == self.all@.len(),
    {
        self.all.len()
    }

    /// The same ranges.
    pub open spec fn same_ranges(&self, other: Ranges) -> bool {
        &&& descriptions_view(self.all@) == descriptions_view(other.all@)
        &&& descriptions_view(self.nautical@) == descriptions_view(other.nautical@)
        &&& descriptions_view(self.metric@) == descriptions_view(other.metric@)
        &&& descriptions_view(self.mixed@) == descriptions_view(other.mixed@)
    }

    /// A copy of the ranges.
    pub fn copy(&self) -> (r: Ranges)
        ensures
            r.same_ranges(*self),
    {
        Ranges {
            all: copy_descriptions(&self.all),
            nautical: copy_descriptions(&self.nautical),
            metric: copy_descriptions(&self.metric),
            mixed: copy_descriptions(&self.mixed),
        }
    }

    /// The ranges of a unit system.
    pub open spec fn in_units(&self, range_units: int) -> Seq<(i32, String)> {
        if range_units == 0 {
            self.nautical@
        } else if range_units == 1 {
            self.metric@
        } else {
            self.mixed@
        }
    }
}

/// All controls of a radar.
#[derive(Debug)]
pub struct SharedControls {
    /// Whether recorded data is replayed. Clients cannot set anything then.
    pub replay: bool,
    /// The control with each number, where the radar has it.
    pub slots: Vec<Option<Control>>,
    /// The id of the radar.
    pub radar_id: String,
    /// All ranges that the radar has.
    pub all_ranges: Ranges,
    /// The unit system of the ranges where no control decides it.
    pub default_range_units: i32,
}

/// A control as it is right after it was defined.
pub open spec fn is_fresh(c: Control, item: DefinitionView) -> bool {
    &&& c.item.well_formed()
    &&& c.item@ == item
    &&& c.limits == limits_of(item)
    &&& c.value == start_value(item)
    &&& c.auto_value is None
    &&& c.end_value == zone_zero(item)
    &&& c.start_distance == zone_zero(item)
    &&& c.end_distance == zone_zero(item)
    &&& c.description is None
    &&& c.auto is None
    &&& c.enabled is None
    &&& c.allowed is None
    &&& !c.needs_refresh
}

/// A control as it is when clients cannot set it.
pub open spec fn locked(c: Control, locked: Control) -> bool {
    &&& locked.item@ == c.item@.read_only(true)
    &&& locked.item.well_formed() == c.item.well_formed()
    &&& locked == Control { item: locked.item, ..c }
}

/// A value that a control is set to, read as a whole number: a text is read, and true counts as
/// one.
pub open spec fn whole_value(v: ValueView) -> Option<int> {
    match v {
        ValueView::String(s) => within(integer_text(s), i32::MIN as int, i32::MAX as int),
        ValueView::Bool(b) => Some(
            if b {
                1int
            } else {
                0
            },
        ),
        _ => None,
    }
}

/// Reads a text or a truth value as a whole number.
pub fn as_whole_value(v: &Value) -> (n: Option<i32>)
    ensures
        match n {
            Some(n) => whole_value(v@) == Some(n as int),
            None => whole_value(v@) is None,
        },
{
    match v {
        Value::String(s) => match parse_integer(s.as_str(), i32::MIN as i64, i32::MAX as i64) {
            Some(n) => Some(n as i32),
            None => None,
        },
        Value::Bool(b) => Some(
            if *b {
                1
            } else {
                0
            },
        ),
        _ => None,
    }
}

/// The number that a control that is no text is set to by a value.
pub open spec fn set_number(v: ValueView) -> Option<Number> {
    match v {
        ValueView::Number(n) => Some(n),
        _ => match whole_value(v) {
            Some(n) => Some(whole_number(n)),
            None => None,
        },
    }
}

/// Finds the number that a control that is no text is set to by a value: this is what the arithmetic
/// is given.
pub fn number_to_set(v: &Value) -> (n: Option<Number>)
    ensures
        n == set_number(v@),
{
    match v {
        Value::Number(n) => Some(*n),
        _ => match as_whole_value(v) {
            Some(n) => Some(Number::from_i32(n)),
            None => None,
        },
    }
}

/// Whether a control that is no text can be set to a value.
pub open spec fn is_settable(v: ValueView) -> bool {
    set_number(v) is Some
}

/// What became of setting a control by a value.
pub struct SetOutcome {
    /// Clients have to be told.
    pub tell: bool,
    /// The text of the control, where clients have to be told.
    pub description: Option<String>,
}

impl SharedControls {
    /// The control with a given id.
    pub open spec fn slot(&self, id: ControlId) -> Option<Control> {
        self.slots@[id.number()]
    }

    /// Every control is found under its own id.
    pub open spec fn well_formed(&self) -> bool {
        &&& self.slots@.len() == CONTROL_COUNT
        &&& forall|id: ControlId|
            (#[trigger] self.slot(id)) matches Some(c) ==> c.item.control_id == id
                && c.item.well_formed()
    }

    /// Nothing differs but the control with a given id.
    pub open spec fn same_but(&self, other: &SharedControls, id: ControlId) -> bool {
        &&& self.replay == other.replay
        &&& self.radar_id == other.radar_id
        &&& self.all_ranges == other.all_ranges
        &&& self.default_range_units == other.default_range_units
        &&& forall|i: ControlId| i != id ==> #[trigger] self.slot(i) == other.slot(i)
    }

    /// A radar without controls.
    pub fn empty(radar_id: String, replay: bool) -> (r: SharedControls)
        ensures
            r.well_formed(),
            r.replay == replay,
            r.radar_id@ == radar_id@,
            r.default_range_units == 0,
            r.all_ranges.all@.len() == 0,
            forall|id: ControlId| (#[trigger] r.slot(id)) is None,
    {
        let mut slots: Vec<Option<Control>> = Vec::with_capacity(CONTROL_COUNT as usize);
        let mut n: u8 = 0;
        while n < CONTROL_COUNT
            invariant
                n <= CONTROL_COUNT,
                slots@.len() == n,
                forall|i: int| 0 <= i < n ==> (#[trigger] slots@[i]) is None,
            decreases CONTROL_COUNT - n,
        {
            slots.push(None);
            n = n + 1;
        }
        let r = SharedControls {
            replay,
            slots,
            radar_id,
            all_ranges: Ranges::empty(),
            default_range_units: 0,
        };
        proof {
            assert forall|id: ControlId| (#[trigger] r.slot(id)) is None by {
                number_in_range(id);
            }
        }
        r
    }

    /// The control with a given id.
    pub fn get(&self, id: &ControlId) -> (r: Option<&Control>)
        requires
            self.well_formed(),
        ensures
            match r {
                Some(c) => self.slot(*id) == Some(*c),
                None => self.slot(*id) is None,
            },
    {
        match &self.slots[id.as_u8() as usize] {
            Some(c) => Some(c),
            None => None,
        }
    }

    /// The control that a text names, by its number or its name.
    pub fn get_by_id(&self, control_id: &str) -> (r: Option<&Control>)
        requires
            self.well_formed(),
        ensures
            match control_of_text(control_id@) {
                Some(id) => match r {
                    Some(c) => self.slot(id) == Some(*c),
                    None => self.slot(id) is None,
                },
                None => r is None,
            },
    {
        match ControlId::parse_str(control_id) {
            Ok(id) => self.get(&id),
            Err(_) => None,
        }
    }

    /// Whether the radar has a control.
    pub fn contains_key(&self, id: &ControlId) -> (r: bool)
        requires
            self.well_formed(),
        ensures
            r == self.slot(*id) is Some,
    {
        self.get(id).is_some()
    }

    /// The ids of the controls that the radar has, in their order.
    pub open spec fn ids_below(&self, n: int) -> Seq<ControlId>
        decreases n,
    {
        if n <= 0 {
            Seq::empty()
        } else {
            match self.slots@[n - 1] {
                Some(c) => self.ids_below(n - 1).push(c.item.control_id),
                None => self.ids_below(n - 1),
            }
        }
    }

    /// The ids of the controls that the radar has, in their order.
    pub fn get_control_keys(&self) -> (ids: Vec<ControlId>)
        requires
            self.well_formed(),
        ensures
            ids@ == self.ids_below(CONTROL_COUNT as int),
    {
        let mut ids: Vec<ControlId> = Vec::new();
        let mut n: usize = 0;
        while n < self.slots.len()
            invariant
                n <= self.slots.len(),
                ids@ == self.ids_below(n as int),
            decreases self.slots.len() - n,
        {
            match &self.slots[n] {
                Some(c) => {
                    ids.push(c.item.control_id);
                },
                None => {},
            }
            n = n + 1;
        }
        ids
    }

    /// Everything that Signal K clients are told, one value per control, in their order.
    pub fn get_radar_control_values(&self) -> (values: Vec<RadarControlValue>)
        requires
            self.well_formed(),
        ensures
            values@.len() == self.ids_below(CONTROL_COUNT as int).len(),
            forall|i: int|
                0 <= i < values@.len() ==> {
                    let id = self.ids_below(CONTROL_COUNT as int)[i];
                    &&& (#[trigger] values@[i]).control_id == Some(id)
                    &&& opt_text(values@[i].radar_id) == Some(self.radar_id@)
                    &&& values@[i].path@ == crate::control_value::control_path(self.radar_id@, id)
                    &&& self.slot(id) is Some
                    &&& values@[i].bare() == control_view(self.slot(id)->0, None)
                },
    {
        let mut values: Vec<RadarControlValue> = Vec::new();
        let mut n: usize = 0;
        while n < self.slots.len()
            invariant
                self.well_formed(),
                n <= self.slots.len(),
                values@.len() == self.ids_below(n as int).len(),
                forall|i: int|
                    0 <= i < values@.len() ==> {
                        let id = self.ids_below(n as int)[i];
                        &&& (#[trigger] values@[i]).control_id == Some(id)
                        &&& opt_text(values@[i].radar_id) == Some(self.radar_id@)
                        &&& values@[i].path@ == crate::control_value::control_path(
                            self.radar_id@,
                            id,
                        )
                        &&& self.slot(id) is Some
                        &&& values@[i].bare() == control_view(self.slot(id)->0, None)
                    },
            decreases self.slots.len() - n,
        {
            match &self.slots[n] {
                Some(c) => {
                    let value = RadarControlValue::new(self.radar_id.as_str(), c, None);
                    proof {
                        let id = crate::control_id::control_of_number(n as int)->0;
                        number_is_inverse(id, n as int);
                        assert(self.slot(id) == Some(*c));
                    }
                    values.push(value);
                },
                None => {},
            }
            n = n + 1;
        }
        values
    }

    /// A value tells how a control is.
    pub open spec fn tells(&self, value: ControlValue, id: ControlId) -> bool {
        self.slot(id) matches Some(c) && value@ == (id, control_view(c, None))
    }

    /// Everything that a client is told that asks for all controls, one value per control, in their
    /// order.
    pub fn send_all_controls(&self) -> (values: Vec<ControlValue>)
        requires
            self.well_formed(),
        ensures
            values@.len() == self.ids_below(CONTROL_COUNT as int).len(),
            forall|i: int|
                0 <= i < values@.len() ==> self.tells(
                    #[trigger] values@[i],
                    self.ids_below(CONTROL_COUNT as int)[i],
                ),
    {
        let mut values: Vec<ControlValue> = Vec::new();
        let mut n: usize = 0;
        while n < self.slots.len()
            invariant
                self.well_formed(),
                n <= self.slots.len(),
                values@.len() == self.ids_below(n as int).len(),
                forall|i: int|
                    0 <= i < values@.len() ==> self.tells(
                        #[trigger] values@[i],
                        self.ids_below(n as int)[i],
                    ),
            decreases self.slots.len() - n,
        {
            match &self.slots[n] {
                Some(c) => {
                    let value = ControlValue::from(c, None);
                    proof {
                        let id = crate::control_id::control_of_number(n as int)->0;
                        number_is_inverse(id, n as int);
                        assert(self.slot(id) == Some(*c));
                    }
                    values.push(value);
                },
                None => {},
            }
            n = n + 1;
        }
        values
    }

    /// What a client is told whose request failed: the control as it is, with the error.
    pub fn send_error_to_client(&self, id: ControlId, error: String) -> (r: Result<
        ControlValue,
        RadarError,
    >)
        requires
            self.well_formed(),
        ensures
            match self.slot(id) {
                Some(c) => r matches Ok(cv) && cv@ == (id, control_view(c, Some(error@))),
                None => r matches Err(RadarError::CannotSetControlId(e)) && e == id,
            },
    {
        match self.get(&id) {
            Some(c) => Ok(ControlValue::from(c, Some(error))),
            None => Err(RadarError::CannotSetControlId(id)),
        }
    }

    /// Defines a control. It replaces the one with the same id.
    pub fn add(&mut self, builder: ControlBuilder)
        requires
            old(self).well_formed(),
            builder.item.well_formed(),
        ensures
            final(self).well_formed(),
            final(self).same_but(old(self), builder.item.control_id),
            final(self).slot(builder.item.control_id) matches Some(c) && c.item == builder.item
                && is_fresh(c, builder.item@),
    {
        let (id, item) = builder.take();
        let n: usize = id.as_u8() as usize;
        self.slots[n] = Some(Control::new(item));
        proof {
            slots_differ(*old(self), *self, id);
        }
    }

    /// Defines a control of a radar that is known already. It replaces the one with the same id. While
    /// recorded data is replayed clients cannot set it.
    pub fn define(&mut self, builder: ControlBuilder)
        requires
            old(self).well_formed(),
            builder.item.well_formed(),
        ensures
            final(self).well_formed(),
            final(self).same_but(old(self), builder.item.control_id),
            final(self).slot(builder.item.control_id) matches Some(c) && is_fresh(
                c,
                if old(self).replay {
                    builder.item@.read_only(true)
                } else {
                    builder.item@
                },
            ),
    {
        let (id, item) = builder.take();
        self.insert(id, Control::new(item));
    }

    /// Puts a control in its place. While recorded data is replayed clients cannot set it.
    pub fn insert(&mut self, control_id: ControlId, value: Control)
        requires
            old(self).well_formed(),
            value.item.control_id == control_id,
            value.item.well_formed(),
        ensures
            final(self).well_formed(),
            final(self).same_but(old(self), control_id),
            final(self).slot(control_id) matches Some(c) && if old(self).replay {
                locked(value, c)
            } else {
                c == value
            },
    {
        let mut control = value;
        if self.replay {
            control.item.is_read_only = true;
        }
        let n: usize = control_id.as_u8() as usize;
        self.slots[n] = Some(control);
        proof {
            slots_differ(*old(self), *self, control_id);
        }
    }

    /// Stops clients from setting anything.
    fn lock_all(&mut self)
        requires
            old(self).well_formed(),
        ensures
            final(self).well_formed(),
            final(self).replay == old(self).replay,
            final(self).radar_id == old(self).radar_id,
            final(self).all_ranges == old(self).all_ranges,
            final(self).default_range_units == old(self).default_range_units,
            forall|id: ControlId|
                match old(self).slot(id) {
                    Some(c) => (#[trigger] final(self).slot(id)) matches Some(l) && locked(c, l),
                    None => final(self).slot(id) is None,
                },
    {
        let mut n: usize = 0;
        let ghost before = *self;
        while n < self.slots.len()
            invariant
                n <= self.slots.len(),
                self.slots@.len() == before.slots@.len(),
                self.replay == before.replay,
                self.radar_id == before.radar_id,
                self.all_ranges == before.all_ranges,
                self.default_range_units == before.default_range_units,
                forall|i: int|
                    0 <= i < n ==> match before.slots@[i] {
                        Some(c) => (#[trigger] self.slots@[i]) matches Some(l) && locked(c, l),
                        None => self.slots@[i] is None,
                    },
                forall|i: int|
                    n <= i < self.slots@.len() ==> #[trigger] self.slots@[i] == before.slots@[i],
            decreases self.slots.len() - n,
        {
            match &mut self.slots[n] {
                Some(c) => {
                    c.item.is_read_only = true;
                },
                None => {},
            }
            n = n + 1;
        }
        proof {
            assert forall|id: ControlId| match old(self).slot(id) {
                Some(c) => (#[trigger] self.slot(id)) matches Some(l) && locked(c, l),
                None => self.slot(id) is None,
            } by {
                number_in_range(id);
                let i = id.number();
                assert(self.slots@[i] == self.slot(id));
            }
        }
    }

    /// Asks for the value to be passed on again with the next report.
    pub fn set_refresh(&mut self, id: &ControlId)
        requires
            old(self).well_formed(),
        ensures
            final(self).well_formed(),
            final(self).same_but(old(self), *id),
            final(self).slot(*id) == match old(self).slot(*id) {
                Some(c) => Some(Control { needs_refresh: true, ..c }),
                None => None,
            },
    {
        let n: usize = id.as_u8() as usize;
        match &mut self.slots[n] {
            Some(c) => {
                c.needs_refresh = true;
            },
            None => {},
        }
        proof {
            slots_differ(*old(self), *self, *id);
        }
    }

    /// Lets clients change a control, or stops them.
    pub fn set_allowed(&mut self, id: &ControlId, allowed: bool)
        requires
            old(self).well_formed(),
        ensures
            final(self).well_formed(),
            final(self).same_but(old(self), *id),
            final(self).slot(*id) == match old(self).slot(*id) {
                Some(c) => if c.allowed == Some(allowed) {
                    Some(c)
                } else {
                    Some(Control { allowed: Some(allowed), needs_refresh: true, ..c })
                },
                None => None,
            },
    {
        let n: usize = id.as_u8() as usize;
        match &mut self.slots[n] {
            Some(c) => {
                c.set_allowed(allowed);
            },
            None => {},
        }
        proof {
            slots_differ(*old(self), *self, *id);
        }
    }
}

impl SharedControls {
    /// The limits of a control are known.
    pub open spec fn limits_known(&self, id: ControlId) -> bool {
        self.slot(id) matches Some(c) ==> c.limits != Limits::Pending
    }

    /// Fills in the limits of a control.
    pub fn set_limits(&mut self, id: &ControlId, limits: Limits)
        requires
            old(self).well_formed(),
        ensures
            final(self).well_formed(),
            final(self).same_but(old(self), *id),
            final(self).slot(*id) == match old(self).slot(*id) {
                Some(c) => Some(Control { limits, ..c }),
                None => None,
            },
    {
        let n: usize = id.as_u8() as usize;
        match &mut self.slots[n] {
            Some(c) => {
                c.set_limits(limits);
            },
            None => {},
        }
        proof {
            slots_differ(*old(self), *self, *id);
        }
    }

    /// Sets a control to what the radar reported.
    pub fn set_all(
        &mut self,
        id: &ControlId,
        value: &Mapped,
        auto_value: Option<Number>,
        auto: Option<bool>,
        enabled: Option<bool>,
    ) -> (r: Result<Option<()>, ControlError>)
        requires
            old(self).well_formed(),
            old(self).limits_known(*id),
        ensures
            final(self).well_formed(),
            final(self).same_but(old(self), *id),
            match old(self).slot(*id) {
                Some(c) => final(self).slot(*id) matches Some(after) && set_to(
                    c,
                    after,
                    *value,
                    auto_value,
                    auto,
                    enabled,
                    r,
                ),
                None => r matches Err(ControlError::NotSupported(e)) && e == *id && final(self).slot(*id) is None,
            },
    {
        let n: usize = id.as_u8() as usize;
        let r = match &mut self.slots[n] {
            Some(c) => c.set(value, auto_value, auto, enabled),
            None => Err(ControlError::NotSupported(*id)),
        };
        proof {
            slots_differ(*old(self), *self, *id);
        }
        r
    }

    /// Sets a control to what the radar reported, with whether the radar adjusts it by itself and
    /// whether it is switched on.
    pub fn set_value_auto_enabled(
        &mut self,
        id: &ControlId,
        value: &Mapped,
        auto: Option<bool>,
        enabled: Option<bool>,
    ) -> (r: Result<Option<()>, ControlError>)
        requires
            old(self).well_formed(),
            old(self).limits_known(*id),
        ensures
            final(self).well_formed(),
            final(self).same_but(old(self), *id),
            match old(self).slot(*id) {
                Some(c) => final(self).slot(*id) matches Some(after) && set_to(
                    c,
                    after,
                    *value,
                    None,
                    auto,
                    enabled,
                    r,
                ),
                None => r matches Err(ControlError::NotSupported(e)) && e == *id && final(self).slot(*id) is None,
            },
    {
        self.set_all(id, value, None, auto, enabled)
    }

    /// Sets a control to what the radar reported, with whether the radar adjusts it by itself.
    pub fn set(&mut self, id: &ControlId, value: &Mapped, auto: Option<bool>) -> (r: Result<
        Option<()>,
        ControlError,
    >)
        requires
            old(self).well_formed(),
            old(self).limits_known(*id),
        ensures
            final(self).well_formed(),
            final(self).same_but(old(self), *id),
            match old(self).slot(*id) {
                Some(c) => final(self).slot(*id) matches Some(after) && set_to(
                    c,
                    after,
                    *value,
                    None,
                    auto,
                    None,
                    r,
                ),
                None => r matches Err(ControlError::NotSupported(e)) && e == *id && final(self).slot(*id) is None,
            },
    {
        self.set_all(id, value, None, auto, None)
    }

    /// Sets a control to what the radar reported, and records whether the radar adjusts it by
    /// itself.
    pub fn set_value_auto(&mut self, id: &ControlId, auto: bool, value: &Mapped) -> (r: Result<
        Option<()>,
        ControlError,
    >)
        requires
            old(self).well_formed(),
            old(self).limits_known(*id),
        ensures
            final(self).well_formed(),
            final(self).same_but(old(self), *id),
            match old(self).slot(*id) {
                Some(c) => final(self).slot(*id) matches Some(after) && set_to(
                    c,
                    after,
                    *value,
                    None,
                    Some(auto),
                    None,
                    r,
                ),
                None => r matches Err(ControlError::NotSupported(e)) && e == *id && final(self).slot(*id) is None,
            },
    {
        self.set(id, value, Some(auto))
    }

    /// Sets a control and its automatic adjustment to what the radar reported. Whether the radar
    /// adjusts it by itself stays as it was.
    pub fn set_value_with_many_auto(
        &mut self,
        id: &ControlId,
        value: &Mapped,
        auto_value: Number,
    ) -> (r: Result<Option<()>, ControlError>)
        requires
            old(self).well_formed(),
            old(self).limits_known(*id),
        ensures
            final(self).well_formed(),
            final(self).same_but(old(self), *id),
            match old(self).slot(*id) {
                Some(c) => final(self).slot(*id) matches Some(after) && set_to(
                    c,
                    after,
                    *value,
                    Some(auto_value),
                    c.auto,
                    None,
                    r,
                ),
                None => r matches Err(ControlError::NotSupported(e)) && e == *id && final(self).slot(*id) is None,
            },
    {
        let auto = match self.get(id) {
            Some(c) => c.auto,
            None => None,
        };
        self.set_all(id, value, Some(auto_value), auto, None)
    }

    /// Records whether the radar adjusts a control by itself.
    pub fn set_auto_state(&mut self, id: &ControlId, auto: bool) -> (r: Result<(), ControlError>)
        requires
            old(self).well_formed(),
        ensures
            final(self).well_formed(),
            final(self).same_but(old(self), *id),
            match old(self).slot(*id) {
                Some(c) => r is Ok && final(self).slot(*id) == Some(
                    Control { auto: Some(auto), needs_refresh: c.auto != Some(auto), ..c },
                ),
                None => r matches Err(ControlError::NotSupported(e)) && e == *id && final(self).slot(*id) is None,
            },
    {
        let n: usize = id.as_u8() as usize;
        let r = match &mut self.slots[n] {
            Some(c) => {
                c.set_auto(auto);
                Ok(())
            },
            None => Err(ControlError::NotSupported(*id)),
        };
        proof {
            slots_differ(*old(self), *self, *id);
        }
        r
    }

    /// Sets a sector to what the radar reported.
    pub fn set_sector(
        &mut self,
        id: &ControlId,
        start: &Mapped,
        end: &Mapped,
        enabled: Option<bool>,
    ) -> (r: Result<Option<()>, ControlError>)
        requires
            old(self).well_formed(),
            old(self).limits_known(*id),
        ensures
            final(self).well_formed(),
            final(self).same_but(old(self), *id),
            match old(self).slot(*id) {
                Some(c) => final(self).slot(*id) matches Some(after) && set_to_sector(
                    c,
                    after,
                    *start,
                    *end,
                    enabled,
                    r,
                ),
                None => r matches Err(ControlError::NotSupported(e)) && e == *id && final(self).slot(*id) is None,
            },
    {
        let n: usize = id.as_u8() as usize;
        let r = match &mut self.slots[n] {
            Some(c) => c.set_sector(start, end, enabled),
            None => Err(ControlError::NotSupported(*id)),
        };
        proof {
            slots_differ(*old(self), *self, *id);
        }
        r
    }

    /// Sets a zone.
    pub fn set_zone(
        &mut self,
        id: &ControlId,
        start_angle: Number,
        end_angle: Number,
        start_distance: Number,
        end_distance: Number,
        enabled: Option<bool>,
    ) -> (r: Result<Option<()>, ControlError>)
        requires
            old(self).well_formed(),
        ensures
            final(self).well_formed(),
            final(self).same_but(old(self), *id),
            match old(self).slot(*id) {
                Some(c) => final(self).slot(*id) matches Some(after) && set_to_zone(
                    c,
                    after,
                    start_angle,
                    end_angle,
                    start_distance,
                    end_distance,
                    enabled,
                    r,
                ),
                None => r matches Err(ControlError::NotSupported(e)) && e == *id && final(self).slot(*id) is None,
            },
    {
        let n: usize = id.as_u8() as usize;
        let r = match &mut self.slots[n] {
            Some(c) => c.set_zone(start_angle, end_angle, start_distance, end_distance, enabled),
            None => Err(ControlError::NotSupported(*id)),
        };
        proof {
            slots_differ(*old(self), *self, *id);
        }
        r
    }

    /// Restricts the values that a control can be set to.
    pub fn set_valid_values(&mut self, id: &ControlId, valid_values: Vec<i32>) -> (r: Result<
        (),
        ControlError,
    >)
        requires
            old(self).well_formed(),
        ensures
            final(self).well_formed(),
            final(self).same_but(old(self), *id),
            match old(self).slot(*id) {
                Some(c) => r is Ok && final(self).slot(*id) == Some(
                    Control {
                        item: ControlDefinition { valid_values: Some(valid_values), ..c.item },
                        ..c
                    },
                ),
                None => r matches Err(ControlError::NotSupported(e)) && e == *id && final(self).slot(*id) is None,
            },
    {
        let n: usize = id.as_u8() as usize;
        let r = match &mut self.slots[n] {
            Some(c) => {
                c.set_valid_values(valid_values);
                Ok(())
            },
            None => Err(ControlError::NotSupported(*id)),
        };
        proof {
            slots_differ(*old(self), *self, *id);
        }
        r
    }

    /// Sets the range of the values that the radar has for a control. Clients have to be told where it
    /// is another one than before, and where they are told of every report.
    pub fn set_wire_range(&mut self, id: &ControlId, min: i64, max: i64) -> (r: Result<
        Option<()>,
        ControlError,
    >)
        requires
            old(self).well_formed(),
            i64::MIN <= max - min <= i64::MAX,
        ensures
            final(self).well_formed(),
            final(self).same_but(old(self), *id),
            match old(self).slot(*id) {
                Some(c) => {
                    &&& r == Ok::<Option<()>, ControlError>(
                        if c.wire_range_changes(min as int, max as int) || c.tells_anyway() {
                            Some(())
                        } else {
                            None
                        },
                    )
                    &&& final(self).slot(*id) == Some(c.with_wire_range(min as int, max as int))
                },
                None => r matches Err(ControlError::NotSupported(e)) && e == *id && final(self).slot(*id) is None,
            },
    {
        let n: usize = id.as_u8() as usize;
        let r = match &mut self.slots[n] {
            Some(c) => c.set_wire_range(min, max),
            None => Err(ControlError::NotSupported(*id)),
        };
        proof {
            slots_differ(*old(self), *self, *id);
        }
        r
    }

    /// Sets the text of a control.
    pub fn set_text(&mut self, id: &ControlId, value: String) -> (r: Result<
        Option<()>,
        ControlError,
    >)
        requires
            old(self).well_formed(),
        ensures
            final(self).well_formed(),
            final(self).same_but(old(self), *id),
            match old(self).slot(*id) {
                Some(c) => final(self).slot(*id) matches Some(after) && set_to_text(
                    c,
                    after,
                    value@,
                ) && r is Ok && (r->Ok_0 is Some <==> opt_text(c.description) != Some(value@)
                    || c.needs_refresh),
                None => r matches Err(ControlError::NotSupported(e)) && e == *id && final(self).slot(*id) is None,
            },
    {
        let n: usize = id.as_u8() as usize;
        let r = match &mut self.slots[n] {
            Some(c) => Ok(c.set_string(value)),
            None => Err(ControlError::NotSupported(*id)),
        };
        proof {
            slots_differ(*old(self), *self, *id);
        }
        r
    }

    /// Sets a control by a text: the text itself where the control holds one, else the whole number
    /// that the text stands for. `mapped` is what comes out of the arithmetic for that number, which
    /// `number_to_set` finds.
    /// Clients are told of every number, and of a text where it changed.
    pub fn set_string(&mut self, id: &ControlId, value: String, mapped: &Mapped) -> (r: Result<
        SetOutcome,
        ControlError,
    >)
        requires
            old(self).well_formed(),
            old(self).limits_known(*id),
        ensures
            final(self).well_formed(),
            final(self).same_but(old(self), *id),
            match old(self).slot(*id) {
                Some(c) => final(self).slot(*id) matches Some(after) && set_by_value(
                    c,
                    after,
                    ValueView::String(value@),
                    *mapped,
                    r,
                ),
                None => r matches Err(ControlError::NotSupported(e)) && e == *id && final(self).slot(*id) is None,
            },
    {
        self.set_value(id, Value::String(value), mapped)
    }

    /// Sets a control by a value: a text where the control holds one, else a number, or what stands
    /// for one. `mapped` is what comes out of the arithmetic for that number, which `number_to_set`
    /// finds. Clients are told of every number, and of a text where it changed.
    pub fn set_value(&mut self, id: &ControlId, value: Value, mapped: &Mapped) -> (r: Result<
        SetOutcome,
        ControlError,
    >)
        requires
            old(self).well_formed(),
            old(self).limits_known(*id),
        ensures
            final(self).well_formed(),
            final(self).same_but(old(self), *id),
            match old(self).slot(*id) {
                Some(c) => final(self).slot(*id) matches Some(after) && set_by_value(
                    c,
                    after,
                    value@,
                    *mapped,
                    r,
                ),
                None => r matches Err(ControlError::NotSupported(e)) && e == *id && final(self).slot(*id) is None,
            },
    {
        let n: usize = id.as_u8() as usize;
        let r = match &mut self.slots[n] {
            Some(c) => set_control_value(c, value, mapped),
            None => Err(ControlError::NotSupported(*id)),
        };
        proof {
            slots_differ(*old(self), *self, *id);
        }
        r
    }

    /// Names the radar.
    pub fn set_user_name(&mut self, name: String)
        requires
            old(self).well_formed(),
            old(self).slot(ControlId::UserName) is Some,
        ensures
            final(self).well_formed(),
            final(self).same_but(old(self), ControlId::UserName),
            final(self).slot(ControlId::UserName) matches Some(after) && set_to_text(
                old(self).slot(ControlId::UserName)->0,
                after,
                name@,
            ),
    {
        let _ = self.set_text(&ControlId::UserName, name);
    }

    /// The text of a control.
    pub open spec fn text_of(&self, id: ControlId) -> Option<Seq<char>> {
        match self.slot(id) {
            Some(c) => opt_text(c.description),
            None => None,
        }
    }

    /// The name of the radar.
    pub fn user_name(&self) -> (name: String)
        requires
            self.well_formed(),
            self.text_of(ControlId::UserName) is Some,
        ensures
            self.text_of(ControlId::UserName) == Some(name@),
    {
        match self.get(&ControlId::UserName) {
            Some(c) => match &c.description {
                Some(s) => s.clone(),
                None => String::new(),
            },
            None => String::new(),
        }
    }

    /// Records the name of the model.
    pub fn set_model_name(&mut self, name: String)
        requires
            old(self).well_formed(),
            old(self).slot(ControlId::ModelName) is Some,
        ensures
            final(self).well_formed(),
            final(self).same_but(old(self), ControlId::ModelName),
            final(self).slot(ControlId::ModelName) matches Some(after) && set_to_text(
                old(self).slot(ControlId::ModelName)->0,
                after,
                name@,
            ),
    {
        let _ = self.set_text(&ControlId::ModelName, name);
    }

    /// The name of the model, where it is known.
    pub fn model_name(&self) -> (name: Option<String>)
        requires
            self.well_formed(),
        ensures
            opt_text(name) == self.text_of(ControlId::ModelName),
    {
        match self.get(&ControlId::ModelName) {
            Some(c) => clone_opt_text(&c.description),
            None => None,
        }
    }

    /// Records how spokes are processed. A value that the control does not take is ignored.
    pub fn set_spoke_processing(&mut self, value: &Mapped)
        requires
            old(self).well_formed(),
            old(self).slot(ControlId::SpokeProcessing) is Some,
            old(self).limits_known(ControlId::SpokeProcessing),
        ensures
            final(self).well_formed(),
            final(self).same_but(old(self), ControlId::SpokeProcessing),
            final(self).slot(ControlId::SpokeProcessing) matches Some(after) && exists|
                r: Result<Option<()>, ControlError>,
            | #[trigger]
                set_to(
                    old(self).slot(ControlId::SpokeProcessing)->0,
                    after,
                    *value,
                    None,
                    None,
                    None,
                    r,
                ),
    {
        let _ = self.set(&ControlId::SpokeProcessing, value, None);
    }

    /// How spokes are processed: zero where it is not set.
    pub fn spoke_processing(&self) -> (n: i32)
        requires
            self.well_formed(),
        ensures
            n == match self.slot(ControlId::SpokeProcessing) {
                Some(c) => match c.value {
                    Some(v) => v.truncated,
                    None => 0,
                },
                None => 0,
            },
    {
        match self.get(&ControlId::SpokeProcessing) {
            Some(c) => match c.value {
                Some(v) => v.truncated,
                None => 0,
            },
            None => 0,
        }
    }

    /// Records the unit system of the ranges. A value that the control does not take is ignored.
    pub fn set_range_units(&mut self, value: &Mapped)
        requires
            old(self).well_formed(),
            old(self).slot(ControlId::RangeUnits) is Some,
            old(self).limits_known(ControlId::RangeUnits),
        ensures
            final(self).well_formed(),
            final(self).same_but(old(self), ControlId::RangeUnits),
            final(self).slot(ControlId::RangeUnits) matches Some(after) && exists|
                r: Result<Option<()>, ControlError>,
            | #[trigger]
                set_to(
                    old(self).slot(ControlId::RangeUnits)->0,
                    after,
                    *value,
                    None,
                    None,
                    None,
                    r,
                ),
    {
        let _ = self.set(&ControlId::RangeUnits, value, None);
    }

    /// The unit system of the ranges.
    pub open spec fn spec_range_units(&self) -> i32 {
        match self.slot(ControlId::RangeUnits) {
            Some(c) => match c.value {
                Some(v) => v.truncated,
                None => self.default_range_units,
            },
            None => self.default_range_units,
        }
    }

    /// The unit system of the ranges: nautical, metric, or both.
    pub fn range_units(&self) -> (n: i32)
        requires
            self.well_formed(),
        ensures
            n == self.spec_range_units(),
    {
        match self.get(&ControlId::RangeUnits) {
            Some(c) => match c.value {
                Some(v) => v.truncated,
                None => self.default_range_units,
            },
            None => self.default_range_units,
        }
    }

    /// The operational state, where it is known.
    pub fn get_status(&self) -> (r: Option<Power>)
        requires
            self.well_formed(),
        ensures
            r == match self.slot(ControlId::Power) {
                Some(c) => match c.client_value() {
                    Some(v) => power_of_value(v),
                    None => None,
                },
                None => None,
            },
    {
        match self.get(&ControlId::Power) {
            Some(c) => match c.value() {
                Some(v) => match Power::from_value(&v) {
                    Ok(power) => Some(power),
                    Err(_) => None,
                },
                None => None,
            },
            None => None,
        }
    }
}

/// What becomes of a control whose text is set.
pub open spec fn set_to_text(before: Control, after: Control, value: Seq<char>) -> bool {
    &&& opt_text(after.description) == Some(value)
    &&& after == Control { description: after.description, needs_refresh: false, ..before }
}

/// What becomes of a control that is set by a value.
pub open spec fn set_by_value(
    before: Control,
    after: Control,
    value: ValueView,
    mapped: Mapped,
    r: Result<SetOutcome, ControlError>,
) -> bool {
    if before.item.data_type == ControlDataType::String {
        match value {
            ValueView::String(s) => {
                let tell = opt_text(before.description) != Some(s) || before.needs_refresh;
                &&& set_to_text(before, after, s)
                &&& r matches Ok(outcome) && outcome.tell == tell && opt_text(outcome.description)
                    == if tell {
                    Some(s)
                } else {
                    None
                }
            },
            _ => after == before && is_invalid(before, value, r),
        }
    } else if !is_settable(value) {
        after == before && is_invalid(before, value, r)
    } else {
        match r {
            Ok(outcome) => {
                &&& outcome.tell
                &&& opt_text(outcome.description) == opt_text(before.description)
                &&& (set_to(before, after, mapped, None, None, None, Ok(Some(()))) || set_to(
                    before,
                    after,
                    mapped,
                    None,
                    None,
                    None,
                    Ok(None),
                ))
            },
            Err(e) => set_to(
                before,
                after,
                mapped,
                None,
                None,
                None,
                Err::<Option<()>, ControlError>(e),
            ),
        }
    }
}

/// The error that tells that a control cannot be set to a value of a kind.
pub open spec fn is_invalid(
    before: Control,
    value: ValueView,
    r: Result<SetOutcome, ControlError>,
) -> bool {
    r matches Err(ControlError::Invalid(id, v)) && id == before.item.control_id && v@ == value
}

fn set_control_value(c: &mut Control, value: Value, mapped: &Mapped) -> (r: Result<
    SetOutcome,
    ControlError,
>)
    requires
        old(c).limits != Limits::Pending,
    ensures
        set_by_value(*old(c), *final(c), value@, *mapped, r),
        final(c).item == old(c).item,
{
    let id = c.item.control_id;
    if c.item.data_type == ControlDataType::String {
        return match value {
            Value::String(s) => {
                let tell = c.set_string(s).is_some();
                let description = if tell {
                    clone_opt_text(&c.description)
                } else {
                    None
                };
                Ok(SetOutcome { tell, description })
            },
            v => Err(ControlError::Invalid(id, v)),
        };
    }
    if number_to_set(&value).is_none() {
        return Err(ControlError::Invalid(id, value));
    }
    match c.set(mapped, None, None, None) {
        Ok(_) => Ok(SetOutcome { tell: true, description: clone_opt_text(&c.description) }),
        Err(e) => Err(e),
    }
}

/// A guarded zone around the radar.
#[derive(Clone, Copy, Debug, PartialEq, Eq, Structural)]
pub struct GuardZone {
    pub start_angle: Number,
    pub end_angle: Number,
    pub start_distance: Number,
    pub end_distance: Number,
    pub enabled: bool,
}

/// The zone that a control holds, where it is complete.
pub open spec fn zone_of(c: Control) -> Option<GuardZone> {
    match (c.value, c.end_value, c.start_distance, c.end_distance) {
        (Some(start_angle), Some(end_angle), Some(start_distance), Some(end_distance)) => Some(
            GuardZone {
                start_angle,
                end_angle,
                start_distance,
                end_distance,
                enabled: c.enabled == Some(true),
            },
        ),
        _ => None,
    }
}

impl SharedControls {
    /// The zone that a control holds.
    pub fn guard_zone(&self, id: &ControlId) -> (r: Option<GuardZone>)
        requires
            self.well_formed(),
        ensures
            r == match self.slot(*id) {
                Some(c) => zone_of(c),
                None => None,
            },
    {
        match self.get(id) {
            Some(c) => match (c.value, c.end_value, c.start_distance, c.end_distance) {
                (Some(start_angle), Some(end_angle), Some(start_distance), Some(
                    end_distance,
                )) => Some(
                    GuardZone {
                        start_angle,
                        end_angle,
                        start_distance,
                        end_distance,
                        enabled: match c.enabled {
                            Some(enabled) => enabled,
                            None => false,
                        },
                    },
                ),
                _ => None,
            },
            None => None,
        }
    }

    /// Restores a zone.
    pub fn set_guard_zone(&mut self, id: &ControlId, zone: &GuardZone)
        requires
            old(self).well_formed(),
        ensures
            final(self).well_formed(),
            final(self).same_but(old(self), *id),
            final(self).slot(*id) == match old(self).slot(*id) {
                Some(c) => Some(
                    Control {
                        value: Some(zone.start_angle),
                        end_value: Some(zone.end_angle),
                        start_distance: Some(zone.start_distance),
                        end_distance: Some(zone.end_distance),
                        enabled: Some(zone.enabled),
                        ..c
                    },
                ),
                None => None,
            },
            final(self).slot(*id) matches Some(c) ==> zone_of(c) == Some(*zone),
    {
        let n: usize = id.as_u8() as usize;
        match &mut self.slots[n] {
            Some(c) => {
                c.value = Some(zone.start_angle);
                c.end_value = Some(zone.end_angle);
                c.start_distance = Some(zone.start_distance);
                c.end_distance = Some(zone.end_distance);
                c.enabled = Some(zone.enabled);
            },
            None => {},
        }
        proof {
            slots_differ(*old(self), *self, *id);
        }
    }

    /// The range control after the ranges of the unit system became its values.
    pub open spec fn ranges_applied(&self, after: Control) -> bool {
        let ranges = self.all_ranges.in_units(self.spec_range_units() as int);
        self.slot(ControlId::Range) matches Some(c) && if ranges.len() == 0 {
            after == c
        } else {
            set_to_ranges(c, after, ranges)
        }
    }

    /// Makes the ranges of the unit system the values of the range control. Without ranges nothing
    /// changes.
    pub fn update_valid_ranges(&mut self)
        requires
            old(self).well_formed(),
            old(self).slot(ControlId::Range) is Some,
        ensures
            final(self).well_formed(),
            final(self).same_but(old(self), ControlId::Range),
            final(self).slot(ControlId::Range) matches Some(after) && old(self).ranges_applied(
                after,
            ),
    {
        let units: i32 = self.range_units();
        let n: usize = ControlId::Range.as_u8() as usize;
        let ranges = match units {
            0 => &self.all_ranges.nautical,
            1 => &self.all_ranges.metric,
            _ => &self.all_ranges.mixed,
        };
        if ranges.len() > 0 {
            match &mut self.slots[n] {
                Some(c) => {
                    c.set_valid_ranges(ranges);
                },
                None => {},
            }
        }
        proof {
            slots_differ(*old(self), *self, ControlId::Range);
        }
    }

    /// Records the ranges of the radar, and makes those of the unit system the values of the range
    /// control.
    pub fn set_valid_ranges(&mut self, ranges: Ranges)
        requires
            old(self).well_formed(),
            old(self).slot(ControlId::Range) is Some,
        ensures
            final(self).well_formed(),
            final(self).all_ranges == ranges,
            final(self).replay == old(self).replay,
            final(self).radar_id == old(self).radar_id,
            final(self).default_range_units == old(self).default_range_units,
            forall|i: ControlId|
                i != ControlId::Range ==> #[trigger] final(self).slot(i) == old(self).slot(i),
            final(self).slot(ControlId::Range) matches Some(after) && (SharedControls {
                all_ranges: ranges,
                ..*old(self)
            }).ranges_applied(after),
    {
        self.all_ranges = ranges;
        assert(self.well_formed()) by {
            assert forall|id: ControlId| (#[trigger] self.slot(id)) is Some implies self.slot(
                id,
            )->0.item.control_id == id && self.slot(id)->0.item.well_formed() by {
                assert(self.slot(id) == old(self).slot(id));
            }
        }
        self.update_valid_ranges();
    }

    /// What all clients are told when a control has changed. A change of the unit system changes the
    /// ranges first, and Signal K clients then get the description of the range control as well.
    pub fn send_to_all_clients(&mut self, id: &ControlId) -> (r: Option<(
        ControlValue,
        RadarControlValue,
        bool,
    )>)
        requires
            old(self).well_formed(),
            old(self).slot(ControlId::Range) is Some,
        ensures
            final(self).well_formed(),
            if *id == ControlId::RangeUnits && old(self).slot(*id) is Some {
                &&& final(self).same_but(old(self), ControlId::Range)
                &&& final(self).slot(ControlId::Range) matches Some(after) && old(self).ranges_applied(after)
            } else {
                *final(self) == *old(self)
            },
            match old(self).slot(*id) {
                Some(c) => r matches Some((cv, rcv, meta)) && cv@ == (*id, control_view(c, None))
                    && rcv.bare() == control_view(c, None) && rcv.path@
                    == crate::control_value::control_path(old(self).radar_id@, *id) && opt_text(
                    rcv.radar_id,
                ) == Some(old(self).radar_id@) && rcv.control_id == Some(*id) && meta == (*id
                    == ControlId::RangeUnits),
                None => r is None,
            },
    {
        let is_units = *id == ControlId::RangeUnits;
        if self.get(id).is_none() {
            return None;
        }
        if is_units {
            self.update_valid_ranges();
        }
        match self.get(id) {
            Some(c) => Some(
                (
                    ControlValue::from(c, None),
                    RadarControlValue::new(self.radar_id.as_str(), c, None),
                    is_units,
                ),
            ),
            None => None,
        }
    }
}

/// What becomes of a control whose values are restricted to ranges.
pub open spec fn set_to_ranges(before: Control, after: Control, ranges: Seq<(i32, String)>) -> bool {
    &&& after.item@ == DefinitionView {
        min_value: Some(whole(ranges[0].0 as int)),
        max_value: Some(whole(ranges[ranges.len() - 1].0 as int)),
        step_value: None,
        valid_values: Some(Seq::new(ranges.len(), |i: int| ranges[i].0)),
        descriptions: Some(descriptions_view(ranges)),
        ..before.item@
    }
    &&& after.item.well_formed() == before.item.well_formed()
    &&& after == Control {
        item: after.item,
        limits: crate::control::whole_limits(
            ranges[0].0 as int,
            ranges[ranges.len() - 1].0 as int,
        ),
        ..before
    }
}

/// The names of the lengths that target trails can have.
pub open spec fn trail_names() -> Seq<(i32, Seq<char>)> {
    seq![
        (0i32, "Off"@),
        (1i32, "15s"@),
        (2i32, "30s"@),
        (3i32, "1 min"@),
        (4i32, "3 min"@),
        (5i32, "5 min"@),
        (6i32, "10 min"@),
    ]
}

/// The controls that every radar has, and that clients cannot set while recorded data is replayed.
pub open spec fn early_item(id: ControlId) -> Option<DefinitionView> {
    match id {
        ControlId::Power => Some(
            list(
                ControlId::Power,
                seq!["Off"@, "Standby"@, "Transmit"@, "Preparing"@],
            ).only(seq![1i32, 2i32]),
        ),
        ControlId::GuardZone1 => Some(
            zone(ControlId::GuardZone1, -180, 180, 100000).in_units(Units::Degrees),
        ),
        ControlId::GuardZone2 => Some(
            zone(ControlId::GuardZone2, -180, 180, 100000).in_units(Units::Degrees),
        ),
        ControlId::Range => Some(
            numeric(ControlId::Range, 0, whole(222240)).in_units(Units::Meters),
        ),
        ControlId::Spokes => Some(numeric(ControlId::Spokes, 0, whole(9999)).read_only(true)),
        ControlId::SpokeLength => Some(
            numeric(ControlId::SpokeLength, 0, whole(9999)).read_only(true),
        ),
        _ => None,
    }
}

/// The controls that do not depend on the radar. Clients can set them at any time.
pub open spec fn late_item(id: ControlId, targets: TargetMode) -> Option<DefinitionView> {
    match id {
        ControlId::UserName => Some(text(ControlId::UserName).read_only(false)),
        ControlId::SpokeProcessing => Some(
            list(ControlId::SpokeProcessing, seq!["Clean"@, "Smoothing"@]),
        ),
        ControlId::TargetTrails => if targets != TargetMode::Off {
            Some(enumeration(ControlId::TargetTrails, trail_names()))
        } else {
            None
        },
        ControlId::TrailsMotion => if targets != TargetMode::Off {
            Some(list(ControlId::TrailsMotion, seq!["Relative"@, "True"@]))
        } else {
            None
        },
        ControlId::ClearTrails => if targets != TargetMode::Off {
            Some(button(ControlId::ClearTrails))
        } else {
            None
        },
        _ => None,
    }
}

/// A control of a radar of some brand, after the controls that every radar has were added.
pub open spec fn completed(
    before: Option<Control>,
    after: Option<Control>,
    id: ControlId,
    replay: bool,
    targets: TargetMode,
) -> bool {
    match late_item(id, targets) {
        Some(item) => after matches Some(c) && is_fresh(c, item),
        None => match early_item(id) {
            Some(item) => after matches Some(c) && is_fresh(
                c,
                if replay {
                    item.read_only(true)
                } else {
                    item
                },
            ),
            None => if id == ControlId::ModelName && before is None {
                after matches Some(c) && is_fresh(c, text(ControlId::ModelName))
            } else {
                match before {
                    Some(b) => after matches Some(a) && if replay {
                        locked(b, a)
                    } else {
                        a == b
                    },
                    None => after is None,
                }
            },
        },
    }
}

/// A control as it is after it was defined and, perhaps, given a text.
pub open spec fn is_described(c: Control, item: DefinitionView, text: Option<Seq<char>>) -> bool {
    &&& opt_text(c.description) == text
    &&& is_fresh(Control { description: None, ..c }, item)
}

/// A control that a brand defines, and gives a text, or that is not there.
pub open spec fn is_initial(
    c: Option<Control>,
    item: Option<DefinitionView>,
    text: Option<Seq<char>>,
) -> bool {
    match item {
        Some(item) => c matches Some(c) && is_described(c, item, text),
        None => c is None,
    }
}

/// A control of a new radar of some brand: one that every radar has, or else one that the brand
/// defines as `item` and gives a text.
pub open spec fn is_new_control(
    c: Option<Control>,
    id: ControlId,
    item: Option<DefinitionView>,
    text: Option<Seq<char>>,
    replay: bool,
    targets: TargetMode,
) -> bool {
    match (late_item(id, targets), early_item(id)) {
        (Some(item), _) => c matches Some(c) && is_fresh(c, item),
        (None, Some(item)) => c matches Some(c) && is_fresh(
            c,
            if replay {
                item.read_only(true)
            } else {
                item
            },
        ),
        (None, None) => match item {
            Some(item) => c matches Some(c) && is_described(
                c,
                if replay {
                    item.read_only(true)
                } else {
                    item
                },
                text,
            ),
            None => c is None,
        },
    }
}

/// The controls that a brand defines are those of a new radar once all others were added.
pub proof fn completed_is_new(
    before: Option<Control>,
    after: Option<Control>,
    id: ControlId,
    item: Option<DefinitionView>,
    text: Option<Seq<char>>,
    replay: bool,
    targets: TargetMode,
)
    requires
        completed(before, after, id, replay, targets),
        is_initial(before, item, text) && (id == ControlId::ModelName ==> item is Some) || (id
            == ControlId::ModelName && before is None && item == Some(
            crate::definition::text(id),
        ) && text is None),
    ensures
        is_new_control(after, id, item, text, replay, targets),
{
}

fn trail_lengths() -> (names: Vec<(i32, String)>)
    ensures
        descriptions_view(names@) == trail_names(),
{
    let names = vec![
        (0i32, String::from_str("Off")),
        (1i32, String::from_str("15s")),
        (2i32, String::from_str("30s")),
        (3i32, String::from_str("1 min")),
        (4i32, String::from_str("3 min")),
        (5i32, String::from_str("5 min")),
        (6i32, String::from_str("10 min")),
    ];
    assert(descriptions_view(names@) =~= trail_names());
    names
}

/// Adds the controls that every radar has to those of a radar of some brand.
pub fn new_controls(controls: SharedControls, targets: TargetMode) -> (r: SharedControls)
    requires
        controls.well_formed(),
    ensures
        r.well_formed(),
        r.replay == controls.replay,
        r.radar_id == controls.radar_id,
        r.all_ranges == controls.all_ranges,
        r.default_range_units == controls.default_range_units,
        forall|id: ControlId|
            completed(
                controls.slot(id),
                #[trigger] r.slot(id),
                id,
                controls.replay,
                targets,
            ),
{
    let mut r = controls;
    r.add(
        new_list_4(ControlId::Power, "Off", "Standby", "Transmit", "Preparing").set_valid_values(
            vec![1, 2],
        ),
    );
    r.add(new_zone(ControlId::GuardZone1, -180, 180, 100000).wire_units(Units::Degrees));
    r.add(new_zone(ControlId::GuardZone2, -180, 180, 100000).wire_units(Units::Degrees));
    new_base(r, targets)
}

/// Adds the controls that are mandatory, and those that do not depend on the radar.
fn new_base(controls: SharedControls, targets: TargetMode) -> (r: SharedControls)
    requires
        controls.well_formed(),
    ensures
        r.well_formed(),
        r.replay == controls.replay,
        r.radar_id == controls.radar_id,
        r.all_ranges == controls.all_ranges,
        r.default_range_units == controls.default_range_units,
        forall|id: ControlId|
            match late_item(id, targets) {
                Some(item) => (#[trigger] r.slot(id)) matches Some(c) && is_fresh(c, item),
                None => match (id, early_item(id)) {
                    (ControlId::Range, Some(item)) | (ControlId::Spokes, Some(item)) | (
                        ControlId::SpokeLength,
                        Some(item),
                    ) => r.slot(id) matches Some(c) && is_fresh(
                        c,
                        if controls.replay {
                            item.read_only(true)
                        } else {
                            item
                        },
                    ),
                    _ => if id == ControlId::ModelName && controls.slot(id) is None {
                        r.slot(id) matches Some(c) && is_fresh(c, text(ControlId::ModelName))
                    } else {
                        match controls.slot(id) {
                            Some(b) => r.slot(id) matches Some(a) && if controls.replay {
                                locked(b, a)
                            } else {
                                a == b
                            },
                            None => r.slot(id) is None,
                        }
                    },
                },
            },
{
    let mut r = controls;
    if !r.contains_key(&ControlId::ModelName) {
        r.add(new_string(ControlId::ModelName).read_only(true));
    }
    r.add(
        new_numeric(ControlId::Range, 0, Rational::new(222240)).wire_units(Units::Meters),
    );
    r.add(new_numeric(ControlId::Spokes, 0, Rational::new(9999)).read_only(true));
    r.add(new_numeric(ControlId::SpokeLength, 0, Rational::new(9999)).read_only(true));
    if r.replay {
        r.lock_all();
    }
    r.add(new_string(ControlId::UserName).read_only(false));
    r.add(new_list_2(ControlId::SpokeProcessing, "Clean", "Smoothing"));
    if targets != TargetMode::Off {
        r.add(new_map(ControlId::TargetTrails, trail_lengths()));
        r.add(new_list_2(ControlId::TrailsMotion, "Relative", "True"));
        r.add(new_button(ControlId::ClearTrails));
    }
    r
}

proof fn slots_differ(before: SharedControls, after: SharedControls, id: ControlId)
    requires
        before.well_formed(),
        after.slots@.len() == before.slots@.len(),
        forall|i: int|
            0 <= i < before.slots@.len() && i != id.number() ==> #[trigger] after.slots@[i]
                == before.slots@[i],
        after.slot(id) matches Some(c) ==> c.item.control_id == id && c.item.well_formed(),
    ensures
        after.well_formed(),
        forall|i: ControlId| i != id ==> #[trigger] after.slot(i) == before.slot(i),
{
    assert forall|i: ControlId| i != id implies #[trigger] after.slot(i) == before.slot(i) by {
        number_in_range(i);
        number_is_inverse(i, id.number());
        number_is_inverse(id, id.number());
    }
    assert forall|i: ControlId| (#[trigger] after.slot(i)) is Some implies after.slot(
        i,
    )->0.item.control_id == i && after.slot(i)->0.item.well_formed() by {
        if i != id {
            assert(after.slot(i) == before.slot(i));
        }
    }
}

/// A text control that is set to a text holds it, and clients are told where it is another one. It is
/// not set to anything else.
pub proof fn texts_arrive(
    before: Control,
    after: Control,
    value: ValueView,
    mapped: Mapped,
    r: Result<SetOutcome, ControlError>,
)
    requires
        before.item.data_type is String,
        set_by_value(before, after, value, mapped, r),
    ensures
        value is String ==> after.client_value() == Some(value) && r is Ok,
        value is String && before.client_value() != Some(value) ==> {
            &&& r matches Ok(outcome)
            &&& outcome.tell
            &&& Some(ValueView::String(opt_text(outcome.description)->0)) == Some(value)
            &&& outcome.description is Some
        },
        value is String && before.client_value() == Some(value) && !before.needs_refresh ==> {
            &&& r matches Ok(outcome)
            &&& !outcome.tell
            &&& outcome.description is None
        },
        !(value is String) ==> r is Err && after == before,
        !after.needs_refresh || after == before,
{
}

/// A control that is no text takes numbers, texts that are whole numbers, and truth values, and the value
/// that the arithmetic yields for them arrives. It takes nothing else.
pub proof fn numbers_arrive(
    before: Control,
    after: Control,
    value: ValueView,
    mapped: Mapped,
    r: Result<SetOutcome, ControlError>,
)
    requires
        !(before.item.data_type is String),
        set_by_value(before, after, value, mapped, r),
    ensures
        (r is Ok) == (set_number(value) is Some && before.accepts(mapped)),
        r is Ok ==> same_value(after.value, Some(before.stored(mapped))),
        r matches Ok(outcome) ==> outcome.tell,
        r is Err ==> after == before,
        after.item == before.item,
        after.description == before.description,
{
}

/// A number stands for itself, and the decimal form of a whole number of 32 bits for this number. True
/// counts as one and false as zero.
pub proof fn numbers_are_set_as_they_are(number: Number, n: int, b: bool)
    ensures
        set_number(ValueView::Number(number)) == Some(number),
        i32::MIN <= n <= i32::MAX ==> set_number(
            ValueView::String(crate::text::decimal_int(n)),
        ) == Some(whole_number(n)),
        n < i32::MIN || n > i32::MAX ==> set_number(
            ValueView::String(crate::text::decimal_int(n)),
        ) is None,
        set_number(ValueView::Bool(b)) == Some(
            whole_number(
                if b {
                    1
                } else {
                    0
                },
            ),
        ),
{
    crate::text::integer_is_read_back(n);
}

/// Clients cannot set anything of a radar while recorded data is replayed, but what does not concern the
/// radar: its name, how spokes are processed, and the trails.
pub proof fn replayed_radars_cannot_be_set(
    c: Option<Control>,
    live: Option<Control>,
    id: ControlId,
    item: Option<DefinitionView>,
    text: Option<Seq<char>>,
    targets: TargetMode,
)
    requires
        is_new_control(c, id, item, text, true, targets),
        is_new_control(live, id, item, text, false, targets),
    ensures
        (c is Some) == (live is Some),
        c is Some && id != ControlId::UserName && id != ControlId::SpokeProcessing && id
            != ControlId::TargetTrails && id != ControlId::TrailsMotion && id
            != ControlId::ClearTrails ==> c->0.item.is_read_only,
        id == ControlId::UserName || id == ControlId::SpokeProcessing ==> c is Some
            && !c->0.item.is_read_only,
        c is Some ==> live->0.item@ == c->0.item@.read_only(live->0.item.is_read_only),
        id == ControlId::UserName || id == ControlId::Power || id == ControlId::Range || id
            == ControlId::GuardZone1 || id == ControlId::GuardZone2 ==> live is Some
            && !live->0.item.is_read_only,
        id == ControlId::Spokes || id == ControlId::SpokeLength ==> live is Some
            && live->0.item.is_read_only,
        (id == ControlId::TargetTrails || id == ControlId::TrailsMotion || id
            == ControlId::ClearTrails) && targets != TargetMode::Off ==> live is Some
            && !live->0.item.is_read_only,
{
}

/// The power control knows every state by its name and its number, but clients can only ask for standby
/// and for transmission.
pub proof fn power_states_can_be_chosen(power: Power, n: i32)
    ensures
        early_item(ControlId::Power) matches Some(item) && {
            &&& item.data_type is Enum
            &&& item.descriptions matches Some(names) && names.len() == 4 && names[power.number()]
                == (power.number() as i32, power.spec_name())
            &&& item.valid_values matches Some(values) && values.contains(n) == (n
                == Power::Standby.number() || n == Power::Transmit.number())
        },
{
    let item = early_item(ControlId::Power)->0;
    let values = item.valid_values->0;
    assert(values[0] == 1i32 && values[1] == 2i32);
}

/// Ranges go up to 120 nautical miles of 1852 meters, and the zones that are guarded can be anywhere
/// around the radar, up to 100 kilometers away.
pub proof fn limits_of_common_controls(id: ControlId)
    ensures
        early_item(ControlId::Range) matches Some(item) && item.min_value == Some(whole(0))
            && item.max_value == Some(whole(120int * 1852)) && item.wire_units == Some(Units::Meters),
        id == ControlId::GuardZone1 || id == ControlId::GuardZone2 ==> {
            &&& early_item(id) matches Some(item)
            &&& item.data_type is Zone
            &&& item.wire_units == Some(Units::Degrees)
            &&& item.has_enabled
            &&& item.min_value matches Some(min)
            &&& item.max_value matches Some(max)
            &&& min.den == 1 && max.den == 1
            &&& max.num - min.num == 360 && min.num + max.num == 0
            &&& item.max_distance == Some(100_000i32)
        },
        early_item(id) matches Some(item) ==> item.control_id == id,
{
}

/// The unit system that is set decides which ranges can be chosen. Those that can be chosen are the
/// ranges of this system, by their distances and their names, from the first one to the last one.
pub proof fn units_decide_the_ranges(controls: SharedControls, after: Control, i: int)
    requires
        controls.ranges_applied(after),
    ensures
        ({
            let ranges = if controls.spec_range_units() == 0 {
                controls.all_ranges.nautical@
            } else if controls.spec_range_units() == 1 {
                controls.all_ranges.metric@
            } else {
                controls.all_ranges.mixed@
            };
            &&& ranges.len() == 0 ==> Some(after) == controls.slot(ControlId::Range)
            &&& 0 <= i < ranges.len() ==> {
                &&& after.item@.valid_values matches Some(values) && values.len() == ranges.len()
                    && values[i] == ranges[i].0
                &&& after.item@.descriptions matches Some(names) && names.len() == ranges.len()
                    && names[i] == (ranges[i].0, ranges[i].1@)
                &&& after.item@.min_value == Some(whole(ranges.first().0 as int))
                &&& after.item@.max_value == Some(whole(ranges.last().0 as int))
                &&& after.value == controls.slot(ControlId::Range)->0.value
            }
        }),
{
}

/// The unit system is the one that the control says, where there is one and it has a value.
pub proof fn control_decides_the_units(controls: SharedControls)
    ensures
        match controls.slot(ControlId::RangeUnits) {
            Some(Control { value: Some(v), .. }) => controls.spec_range_units() == v.truncated,
            _ => controls.spec_range_units() == controls.default_range_units,
        },
{
}

/// A zone is complete where it has two angles and two distances: it goes from the value to the end
/// value, and from the start distance to the end distance. It is guarded where it is enabled.
pub proof fn zones_are_read_from_their_controls(c: Control, zone: GuardZone)
    requires
        zone_of(c) == Some(zone),
    ensures
        c.value == Some(zone.start_angle),
        c.end_value == Some(zone.end_angle),
        c.start_distance == Some(zone.start_distance),
        c.end_distance == Some(zone.end_distance),
        zone.enabled == (c.enabled == Some(true)),
{
}

/// Longer trails have higher numbers: the names count up from none.
pub proof fn trails_have_these_numbers(i: int)
    requires
        0 <= i < trail_names().len(),
    ensures
        trail_names()[i].0 == i,
        trail_names().len() == 7,
        trail_names()[0].1 == "Off"@,
{
}

/// What clients are told of a control is its own value, under its own id.
pub proof fn controls_are_told_under_their_ids(
    controls: SharedControls,
    value: ControlValue,
    id: ControlId,
)
    requires
        controls.tells(value, id),
    ensures
        value.id == id,
        controls.slot(id) matches Some(c) && crate::value::opt_value(value.value)
            == c.client_value() && value.auto == c.auto && value.enabled == c.enabled,
        value.error is None,
{
}

} // verus!

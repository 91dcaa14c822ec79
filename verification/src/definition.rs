//! What is fixed for a control of a radar: its kind, its limits, and how the radar codes its values.
use vstd::prelude::*;

use crate::control_id::{Category, ControlId};
use crate::units::Units;

verus! {

/// An exact fraction.
#[derive(Clone, Copy, Debug, PartialEq, Eq, Structural)]
pub struct Rational {
    pub num: i64,
    pub den: i64,
}

/// A whole number as a fraction.
pub open spec fn whole(n: int) -> Rational {
    Rational { num: n as i64, den: 1 }
}

/// A fraction.
pub open spec fn ratio(num: int, den: int) -> Rational {
    Rational { num: num as i64, den: den as i64 }
}

impl Rational {
    /// One divided by the fraction.
    pub open spec fn inverse(self) -> Rational {
        Rational { num: self.den, den: self.num }
    }

    /// A whole number as a fraction.
    pub fn new(n: i64) -> (r: Rational)
        ensures
            r == whole(n as int),
    {
        Rational { num: n, den: 1 }
    }

    /// A fraction.
    pub fn of(num: i64, den: i64) -> (r: Rational)
        ensures
            r == ratio(num as int, den as int),
    {
        Rational { num, den }
    }

    /// One divided by the fraction.
    pub fn inverted(&self) -> (r: Rational)
        ensures
            r == self.inverse(),
    {
        Rational { num: self.den, den: self.num }
    }
}

/// The kinds of controls.
#[derive(Clone, Copy, Debug, PartialEq, Eq, Structural)]
pub enum ControlDataType {
    Number,
    Enum,
    String,
    Button,
    Sector,
    Zone,
}

/// How a radar adjusts a control by itself.
#[derive(Clone, Copy, Debug, PartialEq, Eq, Structural)]
pub struct AutomaticValue {
    pub has_auto: bool,
    pub has_auto_adjustable: bool,
    pub auto_adjust_min_value: Option<Rational>,
    pub auto_adjust_max_value: Option<Rational>,
}

/// A control that the radar can adjust by itself, without a say for the user in how.
pub open spec fn has_auto_not_adjustable() -> AutomaticValue {
    AutomaticValue {
        has_auto: true,
        has_auto_adjustable: false,
        auto_adjust_min_value: None,
        auto_adjust_max_value: None,
    }
}

/// A control that the radar can adjust by itself, without a say for the user in how.
pub fn auto_not_adjustable() -> (a: AutomaticValue)
    ensures
        a == has_auto_not_adjustable(),
{
    AutomaticValue {
        has_auto: true,
        has_auto_adjustable: false,
        auto_adjust_min_value: None,
        auto_adjust_max_value: None,
    }
}

/// What is fixed for a control. Numbers are in the units of the radar, `wire_units`; clients see
/// them in `units`.
#[derive(Debug)]
pub struct ControlDefinition {
    pub id: u8,
    pub control_id: ControlId,
    pub name: &'static str,
    pub description: &'static str,
    pub category: Category,
    pub data_type: ControlDataType,
    pub automatic: Option<AutomaticValue>,
    /// Whether the control can be switched off without losing its value.
    pub has_enabled: bool,
    pub default_value: Option<i32>,
    pub min_value: Option<Rational>,
    pub max_value: Option<Rational>,
    pub step_value: Option<Rational>,
    /// What the value of the radar is divided by.
    pub wire_scale_factor: Option<Rational>,
    /// What is taken off the value of the radar where it is positive. Minus one means that the
    /// radar counts the upper half of the circle on from the lower half.
    pub wire_offset: Option<Rational>,
    pub wire_units: Option<Units>,
    pub units: Option<Units>,
    /// The names of the values of an enumeration.
    pub descriptions: Option<Vec<(i32, String)>>,
    /// The values that can be set, where not all can.
    pub valid_values: Option<Vec<i32>>,
    pub is_read_only: bool,
    /// Whether clients are told of every report, changed or not.
    pub is_send_always: bool,
    /// The longest distance of a zone, in meters.
    pub max_distance: Option<i32>,
}

/// What is fixed for a control, as a mathematical value. What the id alone determines is left out.
#[verifier::ext_equal]
pub struct DefinitionView {
    pub control_id: ControlId,
    pub data_type: ControlDataType,
    pub automatic: Option<AutomaticValue>,
    pub has_enabled: bool,
    pub default_value: Option<i32>,
    pub min_value: Option<Rational>,
    pub max_value: Option<Rational>,
    pub step_value: Option<Rational>,
    pub wire_scale_factor: Option<Rational>,
    pub wire_offset: Option<Rational>,
    pub wire_units: Option<Units>,
    pub units: Option<Units>,
    pub descriptions: Option<Seq<(i32, Seq<char>)>>,
    pub valid_values: Option<Seq<i32>>,
    pub is_read_only: bool,
    pub is_send_always: bool,
    pub max_distance: Option<i32>,
}

/// The names of the values of an enumeration.
pub open spec fn descriptions_view(d: Seq<(i32, String)>) -> Seq<(i32, Seq<char>)> {
    d.map_values(|e: (i32, String)| (e.0, e.1@))
}

/// A copy of the names of the values of an enumeration.
pub fn copy_descriptions(d: &Vec<(i32, String)>) -> (r: Vec<(i32, String)>)
    ensures
        descriptions_view(r@) == descriptions_view(d@),
{
    let mut r: Vec<(i32, String)> = Vec::with_capacity(d.len());
    let mut i: usize = 0;
    while i < d.len()
        invariant
            i <= d.len(),
            descriptions_view(r@) == descriptions_view(d@).take(i as int),
        decreases d.len() - i,
    {
        let name = d[i].1.clone();
        let ghost before = r@;
        r.push((d[i].0, name));
        proof {
            assert(descriptions_view(r@) =~= descriptions_view(before).push(
                (d@[i as int].0, name@),
            ));
            assert(descriptions_view(d@).take(i + 1) =~= descriptions_view(d@).take(
                i as int,
            ).push((d@[i as int].0, name@)));
        }
        i = i + 1;
    }
    assert(descriptions_view(d@).take(i as int) =~= descriptions_view(d@));
    r
}

impl View for ControlDefinition {
    type V = DefinitionView;

    open spec fn view(&self) -> DefinitionView {
        DefinitionView {
            control_id: self.control_id,
            data_type: self.data_type,
            automatic: self.automatic,
            has_enabled: self.has_enabled,
            default_value: self.default_value,
            min_value: self.min_value,
            max_value: self.max_value,
            step_value: self.step_value,
            wire_scale_factor: self.wire_scale_factor,
            wire_offset: self.wire_offset,
            wire_units: self.wire_units,
            units: self.units,
            descriptions: match self.descriptions {
                Some(d) => Some(descriptions_view(d@)),
                None => None,
            },
            valid_values: match self.valid_values {
                Some(v) => Some(v@),
                None => None,
            },
            is_read_only: self.is_read_only,
            is_send_always: self.is_send_always,
            max_distance: self.max_distance,
        }
    }
}

impl ControlDefinition {
    /// What the id of a control determines is filled in accordingly.
    pub open spec fn well_formed(&self) -> bool {
        &&& self.id == self.control_id.number()
        &&& self.name@ == self.control_id.label()
        &&& self.description@ == self.control_id.description()
        &&& self.category == self.control_id.category()
    }

    /// A definition with nothing but its kind. Numbers and enumerations have steps of one.
    pub fn new(control_id: ControlId, data_type: ControlDataType) -> (item: ControlDefinition)
        ensures
            item.well_formed(),
            item@ == bare(control_id, data_type),
    {
        let step_value = match data_type {
            ControlDataType::Number | ControlDataType::Enum => Some(Rational::new(1)),
            _ => None,
        };
        ControlDefinition {
            id: control_id.as_u8(),
            control_id,
            name: control_id.get_name(),
            description: control_id.get_description(),
            category: control_id.get_category(),
            data_type,
            automatic: None,
            has_enabled: false,
            default_value: None,
            min_value: None,
            max_value: None,
            step_value,
            wire_scale_factor: None,
            wire_offset: None,
            wire_units: None,
            units: None,
            descriptions: None,
            valid_values: None,
            is_read_only: false,
            is_send_always: false,
            max_distance: None,
        }
    }
}

/// A definition with nothing but its kind.
pub open spec fn bare(control_id: ControlId, data_type: ControlDataType) -> DefinitionView {
    DefinitionView {
        control_id,
        data_type,
        automatic: None,
        has_enabled: false,
        default_value: None,
        min_value: None,
        max_value: None,
        step_value: if data_type == ControlDataType::Number || data_type == ControlDataType::Enum {
            Some(whole(1))
        } else {
            None
        },
        wire_scale_factor: None,
        wire_offset: None,
        wire_units: None,
        units: None,
        descriptions: None,
        valid_values: None,
        is_read_only: false,
        is_send_always: false,
        max_distance: None,
    }
}

/// A number between two limits. It starts at the lower one.
pub open spec fn numeric(control_id: ControlId, min: int, max: Rational) -> DefinitionView {
    DefinitionView {
        default_value: Some(min as i32),
        min_value: Some(whole(min)),
        max_value: Some(max),
        ..bare(control_id, ControlDataType::Number)
    }
}

/// A number that the radar can also adjust by itself.
pub open spec fn automatic(
    control_id: ControlId,
    min: int,
    max: int,
    auto: AutomaticValue,
) -> DefinitionView {
    DefinitionView { automatic: Some(auto), ..numeric(control_id, min, whole(max)) }
}

/// An enumeration of named values.
pub open spec fn enumeration(
    control_id: ControlId,
    names: Seq<(i32, Seq<char>)>,
) -> DefinitionView {
    DefinitionView {
        default_value: Some(0),
        min_value: Some(whole(0)),
        max_value: Some(whole(names.len() - 1)),
        descriptions: Some(names),
        ..bare(control_id, ControlDataType::Enum)
    }
}

/// An enumeration of names that are counted from zero.
pub open spec fn list(control_id: ControlId, names: Seq<Seq<char>>) -> DefinitionView {
    enumeration(control_id, Seq::new(names.len(), |i: int| (i as i32, names[i])))
}

/// A text. Clients cannot set it.
pub open spec fn text(control_id: ControlId) -> DefinitionView {
    DefinitionView { is_read_only: true, ..bare(control_id, ControlDataType::String) }
}

/// A button.
pub open spec fn button(control_id: ControlId) -> DefinitionView {
    bare(control_id, ControlDataType::Button)
}

/// A sector between two angles. It can be switched off.
pub open spec fn sector(control_id: ControlId, min: int, max: int) -> DefinitionView {
    DefinitionView {
        has_enabled: true,
        default_value: Some(min as i32),
        min_value: Some(whole(min)),
        max_value: Some(whole(max)),
        ..bare(control_id, ControlDataType::Sector)
    }
}

/// A zone between two angles and two distances. It can be switched off.
pub open spec fn zone(
    control_id: ControlId,
    min: int,
    max: int,
    max_distance: int,
) -> DefinitionView {
    DefinitionView {
        has_enabled: true,
        default_value: Some(0),
        min_value: Some(whole(min)),
        max_value: Some(whole(max)),
        max_distance: Some(max_distance as i32),
        ..bare(control_id, ControlDataType::Zone)
    }
}

impl DefinitionView {
    /// With or without the say of clients.
    pub open spec fn read_only(self, is_read_only: bool) -> DefinitionView {
        DefinitionView { is_read_only, ..self }
    }

    /// With a step. Where the radar does not scale its values otherwise, it counts the steps.
    pub open spec fn scale_step(self, step: Rational) -> DefinitionView {
        DefinitionView {
            step_value: Some(step),
            wire_scale_factor: if self.wire_scale_factor is None {
                Some(step.inverse())
            } else {
                self.wire_scale_factor
            },
            ..self
        }
    }

    /// With a scale, and perhaps a step to match.
    pub open spec fn scale_factor(self, factor: Rational, with_step: bool) -> DefinitionView {
        DefinitionView {
            wire_scale_factor: Some(factor),
            step_value: if with_step {
                Some(factor.inverse())
            } else {
                self.step_value
            },
            ..self
        }
    }

    /// With an offset.
    pub open spec fn offset(self, offset: Rational) -> DefinitionView {
        DefinitionView { wire_offset: Some(offset), ..self }
    }

    /// With a unit.
    pub open spec fn in_units(self, units: Units) -> DefinitionView {
        DefinitionView { wire_units: Some(units), units: Some(units.si_units()), ..self }
    }

    /// With a report for every report of the radar.
    pub open spec fn always_sent(self) -> DefinitionView {
        DefinitionView { is_send_always: true, ..self }
    }

    /// With a switch.
    pub open spec fn switchable(self) -> DefinitionView {
        DefinitionView { has_enabled: true, ..self }
    }

    /// With a list of the values that can be set.
    pub open spec fn only(self, values: Seq<i32>) -> DefinitionView {
        DefinitionView { valid_values: Some(values), ..self }
    }
}

/// Builds the definition of a control. Once the unit is given, the numbers cannot be changed.
pub struct ControlBuilder {
    pub item: ControlDefinition,
    pub frozen: bool,
}

impl ControlBuilder {
    /// A builder of a given definition.
    pub open spec fn builds(&self, view: DefinitionView, frozen: bool) -> bool {
        self.item.well_formed() && self.item@ == view && self.frozen == frozen
    }

    /// Decides whether clients can set the control.
    pub fn read_only(self, is_read_only: bool) -> (b: ControlBuilder)
        requires
            self.item.well_formed(),
        ensures
            b.builds(self.item@.read_only(is_read_only), self.frozen),
    {
        let mut b = self;
        b.item.is_read_only = is_read_only;
        b
    }

    /// Gives the control a step.
    pub fn wire_scale_step(self, step: Rational) -> (b: ControlBuilder)
        requires
            self.item.well_formed(),
            !self.frozen,
        ensures
            b.builds(self.item@.scale_step(step), false),
    {
        let mut b = self;
        b.item.step_value = Some(step);
        if b.item.wire_scale_factor.is_none() {
            b.item.wire_scale_factor = Some(step.inverted());
        }
        b
    }

    /// Gives the control a scale, and perhaps a step to match.
    pub fn wire_scale_factor(self, factor: Rational, with_step: bool) -> (b: ControlBuilder)
        requires
            self.item.well_formed(),
            !self.frozen,
        ensures
            b.builds(self.item@.scale_factor(factor, with_step), false),
    {
        let mut b = self;
        b.item.wire_scale_factor = Some(factor);
        if with_step {
            b.item.step_value = Some(factor.inverted());
        }
        b
    }

    /// Gives the control an offset.
    pub fn wire_offset(self, offset: Rational) -> (b: ControlBuilder)
        requires
            self.item.well_formed(),
            !self.frozen,
        ensures
            b.builds(self.item@.offset(offset), false),
    {
        let mut b = self;
        b.item.wire_offset = Some(offset);
        b
    }

    /// Gives the control a unit.
    pub fn wire_units(self, units: Units) -> (b: ControlBuilder)
        requires
            self.item.well_formed(),
            !self.frozen,
            units != Units::NoUnits,
        ensures
            b.builds(self.item@.in_units(units), true),
    {
        let mut b = self;
        b.item.wire_units = Some(units);
        b.item.units = Some(units.to_si().0);
        b.frozen = true;
        b
    }

    /// Has every report of the radar passed on.
    pub fn send_always(self) -> (b: ControlBuilder)
        requires
            self.item.well_formed(),
        ensures
            b.builds(self.item@.always_sent(), self.frozen),
    {
        let mut b = self;
        b.item.is_send_always = true;
        b
    }

    /// Gives the control a switch.
    pub fn has_enabled(self) -> (b: ControlBuilder)
        requires
            self.item.well_formed(),
        ensures
            b.builds(self.item@.switchable(), self.frozen),
    {
        let mut b = self;
        b.item.has_enabled = true;
        b
    }

    /// Restricts the values that can be set.
    pub fn set_valid_values(self, values: Vec<i32>) -> (b: ControlBuilder)
        requires
            self.item.well_formed(),
            !self.frozen,
        ensures
            b.builds(self.item@.only(values@), false),
    {
        let mut b = self;
        b.item.valid_values = Some(values);
        b
    }

    /// The definition that was built, with its id.
    pub fn take(self) -> (r: (ControlId, ControlDefinition))
        requires
            self.item.well_formed(),
        ensures
            r.0 == self.item.control_id,
            r.1 == self.item,
    {
        (self.item.control_id, self.item)
    }
}

/// A number between two limits.
pub fn new_numeric(control_id: ControlId, min: i32, max: Rational) -> (b: ControlBuilder)
    ensures
        b.builds(numeric(control_id, min as int, max), false),
{
    let mut item = ControlDefinition::new(control_id, ControlDataType::Number);
    item.default_value = Some(min);
    item.min_value = Some(Rational::new(min as i64));
    item.max_value = Some(max);
    ControlBuilder { item, frozen: false }
}

/// A number that the radar can also adjust by itself.
pub fn new_auto(control_id: ControlId, min: i32, max: i32, auto: AutomaticValue) -> (b:
    ControlBuilder)
    ensures
        b.builds(automatic(control_id, min as int, max as int, auto), false),
{
    let mut b = new_numeric(control_id, min, Rational::new(max as i64));
    b.item.automatic = Some(auto);
    b
}

/// An enumeration of named values.
pub fn new_map(control_id: ControlId, descriptions: Vec<(i32, String)>) -> (b: ControlBuilder)
    requires
        descriptions.len() <= i32::MAX,
    ensures
        b.builds(enumeration(control_id, descriptions_view(descriptions@)), false),
{
    let mut item = ControlDefinition::new(control_id, ControlDataType::Enum);
    item.default_value = Some(0);
    item.min_value = Some(Rational::new(0));
    item.max_value = Some(Rational::new(descriptions.len() as i64 - 1));
    item.descriptions = Some(descriptions);
    ControlBuilder { item, frozen: false }
}

/// The texts of a list of names.
pub open spec fn names_of(names: Seq<&str>) -> Seq<Seq<char>> {
    names.map_values(|s: &str| s@)
}

/// An enumeration of names that are counted from zero.
pub fn new_list(control_id: ControlId, names: &[&str]) -> (b: ControlBuilder)
    requires
        names.len() <= i32::MAX,
    ensures
        b.builds(list(control_id, names_of(names@)), false),
{
    let mut descriptions: Vec<(i32, String)> = Vec::with_capacity(names.len());
    let ghost wanted = Seq::new(
        names_of(names@).len(),
        |i: int| (i as i32, names_of(names@)[i]),
    );
    let mut i: usize = 0;
    while i < names.len()
        invariant
            i <= names.len() <= i32::MAX,
            wanted == Seq::new(
                names_of(names@).len(),
                |i: int| (i as i32, names_of(names@)[i]),
            ),
            descriptions_view(descriptions@) == wanted.take(i as int),
        decreases names.len() - i,
    {
        let name: String = String::from_str(names[i]);
        let ghost before = descriptions@;
        descriptions.push((i as i32, name));
        proof {
            assert(names_of(names@)[i as int] == name@);
            assert(descriptions_view(descriptions@) =~= descriptions_view(before).push(
                (i as i32, name@),
            ));
            assert(wanted.take(i + 1) =~= wanted.take(i as int).push((i as i32, name@)));
        }
        i = i + 1;
    }
    assert(wanted.take(i as int) =~= wanted);
    new_map(control_id, descriptions)
}

/// A choice of two.
pub fn new_list_2(control_id: ControlId, a: &str, b: &str) -> (r: ControlBuilder)
    ensures
        r.builds(list(control_id, seq![a@, b@]), false),
{
    let names = [a, b];
    assert(names_of(names@) =~= seq![a@, b@]);
    new_list(control_id, names.as_slice())
}

/// A choice of three.
pub fn new_list_3(control_id: ControlId, a: &str, b: &str, c: &str) -> (r: ControlBuilder)
    ensures
        r.builds(list(control_id, seq![a@, b@, c@]), false),
{
    let names = [a, b, c];
    assert(names_of(names@) =~= seq![a@, b@, c@]);
    new_list(control_id, names.as_slice())
}

/// A choice of four.
pub fn new_list_4(control_id: ControlId, a: &str, b: &str, c: &str, d: &str) -> (r: ControlBuilder)
    ensures
        r.builds(list(control_id, seq![a@, b@, c@, d@]), false),
{
    let names = [a, b, c, d];
    assert(names_of(names@) =~= seq![a@, b@, c@, d@]);
    new_list(control_id, names.as_slice())
}

/// A text.
pub fn new_string(control_id: ControlId) -> (b: ControlBuilder)
    ensures
        b.builds(text(control_id), false),
{
    let mut item = ControlDefinition::new(control_id, ControlDataType::String);
    item.is_read_only = true;
    ControlBuilder { item, frozen: false }
}

/// A button.
pub fn new_button(control_id: ControlId) -> (b: ControlBuilder)
    ensures
        b.builds(button(control_id), false),
{
    ControlBuilder {
        item: ControlDefinition::new(control_id, ControlDataType::Button),
        frozen: false,
    }
}

/// A sector between two angles.
pub fn new_sector(control_id: ControlId, min: i32, max: i32) -> (b: ControlBuilder)
    ensures
        b.builds(sector(control_id, min as int, max as int), false),
{
    let mut item = ControlDefinition::new(control_id, ControlDataType::Sector);
    item.has_enabled = true;
    item.default_value = Some(min);
    item.min_value = Some(Rational::new(min as i64));
    item.max_value = Some(Rational::new(max as i64));
    ControlBuilder { item, frozen: false }
}

/// A zone between two angles and two distances.
pub fn new_zone(control_id: ControlId, min: i32, max: i32, max_distance: i32) -> (b: ControlBuilder)
    ensures
        b.builds(zone(control_id, min as int, max as int, max_distance as int), false),
{
    let mut item = ControlDefinition::new(control_id, ControlDataType::Zone);
    item.has_enabled = true;
    item.default_value = Some(0);
    item.min_value = Some(Rational::new(min as i64));
    item.max_value = Some(Rational::new(max as i64));
    item.max_distance = Some(max_distance);
    ControlBuilder { item, frozen: false }
}

/// Whether something that is left out of messages when false is left out.
pub fn is_false(v: &bool) -> (r: bool)
    ensures
        r == !*v,
{
    !*v
}

/// Whether the values of a control go from one whole number to another.
pub open spec fn spans(item: Option<DefinitionView>, min: int, max: int) -> bool {
    &&& item matches Some(d)
    &&& d.min_value matches Some(low)
    &&& d.max_value matches Some(high)
    &&& low.den > 0 && low.num == min * low.den
    &&& high.den > 0 && high.num == max * high.den
}

/// Whether the radar counts so many, by a divisor, for one of what users see.
pub open spec fn counted(item: Option<DefinitionView>, many: int, divisor: int) -> bool {
    &&& item matches Some(d)
    &&& match d.wire_scale_factor {
        Some(factor) => factor.den > 0 && factor.num * divisor == many * factor.den,
        None => many == divisor,
    }
}

/// Whether users move a control by one step, divided by a number.
pub open spec fn stepped(item: Option<DefinitionView>, divisor: int) -> bool {
    &&& item matches Some(d)
    &&& d.step_value matches Some(step)
    &&& step.den > 0 && step.num * divisor == step.den
}

/// Whether a control is a choice of names that are counted from zero.
pub open spec fn offers(item: Option<DefinitionView>, names: Seq<Seq<char>>) -> bool {
    &&& item matches Some(d)
    &&& d.data_type is Enum
    &&& spans(item, 0, names.len() - 1)
    &&& d.default_value == Some(0i32)
    &&& d.descriptions matches Some(found)
    &&& found.len() == names.len()
    &&& forall|i: int| 0 <= i < names.len() ==> #[trigger] found[i] == (i as i32, names[i])
}

/// Whether a control is a text that clients cannot set.
pub open spec fn shows_text(item: Option<DefinitionView>) -> bool {
    item matches Some(d) && d.data_type is String && d.is_read_only
}

/// Whether the radar can adjust a control by itself.
pub open spec fn adjusts_itself(item: Option<DefinitionView>) -> bool {
    item matches Some(d) && d.automatic matches Some(auto) && auto.has_auto
}

/// Whether clients can set a control.
pub open spec fn can_be_set(item: Option<DefinitionView>) -> bool {
    item matches Some(d) && !d.is_read_only
}

/// Whether a control is measured in a unit.
pub open spec fn measured_in(item: Option<DefinitionView>, units: Units) -> bool {
    item matches Some(d) && d.wire_units == Some(units) && d.units == Some(units.si_units())
}

/// Whether a control is a sector that lies anywhere on the circle, in tenths of a degree or whole
/// degrees, and can be switched off.
pub open spec fn blanks(item: Option<DefinitionView>) -> bool {
    &&& item matches Some(d)
    &&& d.data_type is Sector
    &&& d.has_enabled
    &&& measured_in(item, Units::Degrees)
    &&& can_be_set(item)
}

/// A list offers its names.
pub proof fn lists_offer_their_names(control_id: ControlId, names: Seq<Seq<char>>)
    requires
        names.len() < 1000,
    ensures
        offers(Some(list(control_id, names)), names),
        can_be_set(Some(list(control_id, names))),
        list(control_id, names).control_id == control_id,
{
    let found = list(control_id, names).descriptions->0;
    assert forall|i: int| 0 <= i < names.len() implies #[trigger] found[i] == (i as i32, names[i]) by {}
}

/// A step of the radar and a step of the user are the same, where one is given and the other follows
/// from it.
pub proof fn steps_match_the_scale(item: DefinitionView, step: Rational, factor: Rational)
    requires
        step.num > 0 && step.den > 0,
        factor.num > 0 && factor.den > 0,
    ensures
        item.wire_scale_factor is None ==> {
            &&& item.scale_step(step).wire_scale_factor matches Some(scale)
            &&& scale.num * step.num == scale.den * step.den
        },
        item.wire_scale_factor is Some ==> item.scale_step(step).wire_scale_factor
            == item.wire_scale_factor,
        item.scale_step(step).step_value == Some(step),
        ({
            &&& item.scale_factor(factor, true).step_value matches Some(found)
            &&& found.num * factor.num == found.den * factor.den
        }),
        item.scale_factor(factor, false).step_value == item.step_value,
        item.scale_factor(factor, true).wire_scale_factor == Some(factor),
        item.scale_factor(factor, false).wire_scale_factor == Some(factor),
{
    assert(step.den * step.num == step.num * step.den) by (nonlinear_arith);
    assert(factor.den * factor.num == factor.num * factor.den) by (nonlinear_arith);
}

/// Clients see lengths, angles and times in the standard units, whatever the radar counts in.
pub proof fn units_are_seen_in_standard_form(item: DefinitionView, units: Units)
    ensures
        item.in_units(units).wire_units == Some(units),
        item.in_units(units).units == Some(units.si_units()),
        item.in_units(units).min_value == item.min_value,
        item.in_units(units).max_value == item.max_value,
        item.in_units(units).wire_scale_factor == item.wire_scale_factor,
{
}

} // verus!

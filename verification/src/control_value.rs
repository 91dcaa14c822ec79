//! Values of controls as they travel between clients and the server.
use vstd::prelude::*;

use crate::control::Control;
use crate::control_id::{control_of_name, names_differ, ControlId};
use crate::error::RadarError;
use crate::text::{
    after_last, chars_of, find_after_last, has_prefix, integer_text, parse_integer,
    same_ignoring_case, starts_with, text_of, within,
};
use crate::units::Units;
use crate::value::{opt_text, opt_value, Number, Value, ValueView};

verus! {

/// The value of a control in a message, with the id of the control.
#[derive(Debug)]
pub struct ControlValue {
    pub id: ControlId,
    pub value: Option<Value>,
    pub units: Option<Units>,
    pub auto: Option<bool>,
    pub auto_value: Option<Number>,
    pub end_value: Option<Number>,
    pub start_distance: Option<Number>,
    pub end_distance: Option<Number>,
    pub enabled: Option<bool>,
    pub allowed: Option<bool>,
    pub error: Option<String>,
}

/// The value of a control in a message, without its id.
#[derive(Debug)]
pub struct BareControlValue {
    pub value: Option<Value>,
    pub units: Option<Units>,
    pub auto: Option<bool>,
    pub auto_value: Option<Number>,
    pub end_value: Option<Number>,
    pub start_distance: Option<Number>,
    pub end_distance: Option<Number>,
    pub enabled: Option<bool>,
    pub allowed: Option<bool>,
    pub error: Option<String>,
}

/// The value of a control in a message, with the path of the control.
#[derive(Debug)]
pub struct RadarControlValue {
    pub radar_id: Option<String>,
    pub control_id: Option<ControlId>,
    pub path: String,
    pub value: Option<Value>,
    pub units: Option<Units>,
    pub auto: Option<bool>,
    pub auto_value: Option<Number>,
    pub end_value: Option<Number>,
    pub start_distance: Option<Number>,
    pub end_distance: Option<Number>,
    pub enabled: Option<bool>,
    pub allowed: Option<bool>,
    pub error: Option<String>,
}

/// A value of a control, as a mathematical value.
pub struct BareView {
    pub value: Option<ValueView>,
    pub units: Option<Units>,
    pub auto: Option<bool>,
    pub auto_value: Option<Number>,
    pub end_value: Option<Number>,
    pub start_distance: Option<Number>,
    pub end_distance: Option<Number>,
    pub enabled: Option<bool>,
    pub allowed: Option<bool>,
    pub error: Option<Seq<char>>,
}

impl View for BareControlValue {
    type V = BareView;

    open spec fn view(&self) -> BareView {
        BareView {
            value: opt_value(self.value),
            units: self.units,
            auto: self.auto,
            auto_value: self.auto_value,
            end_value: self.end_value,
            start_distance: self.start_distance,
            end_distance: self.end_distance,
            enabled: self.enabled,
            allowed: self.allowed,
            error: opt_text(self.error),
        }
    }
}

impl View for ControlValue {
    type V = (ControlId, BareView);

    open spec fn view(&self) -> (ControlId, BareView) {
        (
            self.id,
            BareView {
                value: opt_value(self.value),
                units: self.units,
                auto: self.auto,
                auto_value: self.auto_value,
                end_value: self.end_value,
                start_distance: self.start_distance,
                end_distance: self.end_distance,
                enabled: self.enabled,
                allowed: self.allowed,
                error: opt_text(self.error),
            },
        )
    }
}

impl RadarControlValue {
    /// The value, whatever its path.
    pub open spec fn bare(&self) -> BareView {
        BareView {
            value: opt_value(self.value),
            units: self.units,
            auto: self.auto,
            auto_value: self.auto_value,
            end_value: self.end_value,
            start_distance: self.start_distance,
            end_distance: self.end_distance,
            enabled: self.enabled,
            allowed: self.allowed,
            error: opt_text(self.error),
        }
    }
}

/// A value and nothing else.
pub open spec fn only_value(value: ValueView) -> BareView {
    BareView {
        value: Some(value),
        units: None,
        auto: None,
        auto_value: None,
        end_value: None,
        start_distance: None,
        end_distance: None,
        enabled: None,
        allowed: None,
        error: None,
    }
}

/// What clients are told of a control.
pub open spec fn control_view(control: Control, error: Option<Seq<char>>) -> BareView {
    let kind = control.item.data_type;
    BareView {
        value: control.client_value(),
        units: control.item.units,
        auto: control.auto,
        auto_value: if kind is String {
            None
        } else {
            control.auto_value
        },
        end_value: if kind is Sector || kind is Zone {
            control.end_value
        } else {
            None
        },
        start_distance: if kind is Zone {
            control.start_distance
        } else {
            None
        },
        end_distance: if kind is Zone {
            control.end_distance
        } else {
            None
        },
        enabled: control.enabled,
        allowed: control.allowed,
        error,
    }
}

/// The integer that a value stands for.
pub open spec fn integer_of(v: ValueView) -> Option<int> {
    match v {
        ValueView::String(s) => within(integer_text(s), i64::MIN as int, i64::MAX as int),
        ValueView::Bool(b) => Some(
            if b {
                1int
            } else {
                0
            },
        ),
        ValueView::Number(n) => match n.integer {
            Some(i) => Some(i as int),
            None => None,
        },
        _ => None,
    }
}

/// The integer that an optional value stands for.
pub open spec fn opt_integer_of(v: Option<ValueView>) -> Option<int> {
    match v {
        Some(v) => integer_of(v),
        None => None,
    }
}

impl ControlValue {
    /// A bare value for a control.
    pub fn new(id: ControlId, value: Value) -> (r: ControlValue)
        ensures
            r@ == (id, only_value(value@)),
    {
        ControlValue {
            id,
            value: Some(value),
            units: None,
            auto: None,
            auto_value: None,
            end_value: None,
            start_distance: None,
            end_distance: None,
            enabled: None,
            allowed: None,
            error: None,
        }
    }

    /// The value that a request asks for.
    pub fn from_request(id: ControlId, b: BareControlValue) -> (r: ControlValue)
        ensures
            r@ == (id, b@),
    {
        ControlValue {
            id,
            value: b.value,
            units: b.units,
            auto: b.auto,
            auto_value: b.auto_value,
            end_value: b.end_value,
            start_distance: b.start_distance,
            end_distance: b.end_distance,
            enabled: b.enabled,
            allowed: b.allowed,
            error: b.error,
        }
    }

    /// What clients are told of a control.
    pub fn from(control: &Control, error: Option<String>) -> (r: ControlValue)
        ensures
            r@ == (control.item.control_id, control_view(*control, opt_text(error))),
    {
        ControlValue {
            id: control.item().control_id,
            value: control.value(),
            units: control.item().units,
            auto: control.auto,
            auto_value: control.auto_value(),
            end_value: control.end_value(),
            start_distance: control.start_distance(),
            end_distance: control.end_distance(),
            enabled: control.enabled,
            allowed: control.allowed,
            error,
        }
    }

    /// The value, where there is one.
    pub fn as_value(&self) -> (r: Result<Value, RadarError>)
        ensures
            match r {
                Ok(v) => opt_value(self.value) == Some(v@),
                Err(RadarError::CannotSetControlId(id)) => self.value is None && id == self.id,
                Err(_) => false,
            },
    {
        match &self.value {
            Some(v) => Ok(v.clone()),
            None => Err(RadarError::CannotSetControlId(self.id)),
        }
    }

    /// The value as an integer: a text is read, and true counts as one.
    pub fn as_i64(&self) -> (r: Result<i64, RadarError>)
        ensures
            match r {
                Ok(n) => opt_integer_of(opt_value(self.value)) == Some(n as int),
                Err(RadarError::CannotSetControlId(id)) => opt_integer_of(
                    opt_value(self.value),
                ) is None && id == self.id,
                Err(_) => false,
            },
    {
        let n: Option<i64> = match &self.value {
            Some(Value::String(s)) => parse_integer(s.as_str(), i64::MIN, i64::MAX),
            Some(Value::Bool(b)) => Some(
                if *b {
                    1
                } else {
                    0
                },
            ),
            Some(Value::Number(n)) => n.integer,
            _ => None,
        };
        match n {
            Some(n) => Ok(n),
            None => Err(RadarError::CannotSetControlId(self.id)),
        }
    }

    /// The value as an integer of 32 bits.
    pub fn as_i32(&self) -> (r: Result<i32, RadarError>)
        ensures
            match r {
                Ok(n) => opt_integer_of(opt_value(self.value)) == Some(n as int),
                Err(RadarError::CannotSetControlId(id)) => id == self.id && (match opt_integer_of(
                    opt_value(self.value),
                ) {
                    Some(n) => n < i32::MIN || n > i32::MAX,
                    None => true,
                }),
                Err(_) => false,
            },
    {
        match self.as_i64() {
            Ok(n) => {
                if i32::MIN as i64 <= n && n <= i32::MAX as i64 {
                    Ok(n as i32)
                } else {
                    Err(RadarError::CannotSetControlId(self.id))
                }
            },
            Err(e) => Err(e),
        }
    }

    /// The value as a truth value: everything but zero is true.
    pub fn as_bool(&self) -> (r: Result<bool, RadarError>)
        ensures
            match r {
                Ok(b) => opt_integer_of(opt_value(self.value)) matches Some(n) && b == (n != 0),
                Err(RadarError::CannotSetControlId(id)) => opt_integer_of(
                    opt_value(self.value),
                ) is None && id == self.id,
                Err(_) => false,
            },
    {
        match self.as_i64() {
            Ok(n) => Ok(n != 0),
            Err(e) => Err(e),
        }
    }

    /// The value as a number. `text_number` is the number that the text stands for, where the value
    /// is a text that stands for one.
    pub fn as_number(&self, text_number: Option<Number>) -> (r: Result<Number, RadarError>)
        ensures
            match r {
                Ok(n) => number_of(opt_value(self.value), text_number) == Some(n),
                Err(RadarError::CannotSetControlId(id)) => id == self.id && number_of(
                    opt_value(self.value),
                    text_number,
                ) is None,
                Err(_) => false,
            },
    {
        let n = match &self.value {
            Some(Value::String(_)) => text_number,
            Some(Value::Bool(b)) => Some(
                Number::from_i32(
                    if *b {
                        1
                    } else {
                        0
                    },
                ),
            ),
            Some(Value::Number(n)) => Some(*n),
            _ => None,
        };
        match n {
            Some(n) => Ok(n),
            None => Err(RadarError::CannotSetControlId(self.id)),
        }
    }

    /// The value that the radar is to adjust by itself.
    pub fn auto_as_number(&self) -> (r: Result<Number, RadarError>)
        ensures
            match r {
                Ok(n) => self.auto_value == Some(n),
                Err(RadarError::CannotSetControlId(id)) => self.auto_value is None && id == self.id,
                Err(_) => false,
            },
    {
        match self.auto_value {
            Some(n) => Ok(n),
            None => Err(RadarError::CannotSetControlId(self.id)),
        }
    }

    /// The second angle of a sector or a zone.
    pub fn end_as_number(&self) -> (r: Result<Number, RadarError>)
        ensures
            match r {
                Ok(n) => self.end_value == Some(n),
                Err(RadarError::CannotSetControlId(id)) => self.end_value is None && id == self.id,
                Err(_) => false,
            },
    {
        match self.end_value {
            Some(n) => Ok(n),
            None => Err(RadarError::CannotSetControlId(self.id)),
        }
    }
}

/// The number that a value stands for.
pub open spec fn number_of(v: Option<ValueView>, text_number: Option<Number>) -> Option<Number> {
    match v {
        Some(ValueView::String(_)) => text_number,
        Some(ValueView::Bool(b)) => Some(
            crate::number::whole_number(
                if b {
                    1
                } else {
                    0
                },
            ),
        ),
        Some(ValueView::Number(n)) => Some(n),
        _ => None,
    }
}

impl BareControlValue {
    /// A message that only tells what went wrong.
    pub fn new_error(error: String) -> (r: BareControlValue)
        ensures
            r@ == (BareView {
                value: None,
                units: None,
                auto: None,
                auto_value: None,
                end_value: None,
                start_distance: None,
                end_distance: None,
                enabled: None,
                allowed: None,
                error: Some(error@),
            }),
    {
        BareControlValue {
            value: None,
            units: None,
            auto: None,
            auto_value: None,
            end_value: None,
            start_distance: None,
            end_distance: None,
            enabled: None,
            allowed: None,
            error: Some(error),
        }
    }

    /// A value without its path.
    pub fn from_radar_control_value(rcv: RadarControlValue) -> (r: BareControlValue)
        ensures
            r@ == rcv.bare(),
    {
        BareControlValue {
            value: rcv.value,
            units: rcv.units,
            auto: rcv.auto,
            auto_value: rcv.auto_value,
            end_value: rcv.end_value,
            start_distance: rcv.start_distance,
            end_distance: rcv.end_distance,
            enabled: rcv.enabled,
            allowed: rcv.allowed,
            error: rcv.error,
        }
    }

    /// A value without its id.
    pub fn from_control_value(cv: ControlValue) -> (r: BareControlValue)
        ensures
            r@ == cv@.1,
    {
        BareControlValue {
            value: cv.value,
            units: cv.units,
            auto: cv.auto,
            auto_value: cv.auto_value,
            end_value: cv.end_value,
            start_distance: cv.start_distance,
            end_distance: cv.end_distance,
            enabled: cv.enabled,
            allowed: cv.allowed,
            error: cv.error,
        }
    }
}

/// The path of a control of a radar.
pub open spec fn control_path(radar: Seq<char>, id: ControlId) -> Seq<char> {
    "radars."@ + radar + ".controls."@ + id.spec_name()
}

/// A path without the word that all paths may start with.
pub open spec fn strip_radars(path: Seq<char>) -> Seq<char> {
    if has_prefix(path, "radars."@) {
        path.skip("radars."@.len() as int)
    } else {
        path
    }
}

/// A text without a given end.
pub open spec fn strip_suffix(s: Seq<char>, suffix: Seq<char>) -> Seq<char> {
    if suffix.len() <= s.len() && s.skip(s.len() - suffix.len()) == suffix {
        s.take(s.len() - suffix.len())
    } else {
        s
    }
}

/// The radar and the control that a path names: the control behind the last dot, the radar before
/// it, with or without the word that separates them.
pub open spec fn split_control_path(path: Seq<char>) -> Option<(Seq<char>, Seq<char>)> {
    let rest = strip_radars(path);
    let at = after_last(rest, '.');
    if at == 0 {
        None
    } else {
        Some((strip_suffix(rest.take(at - 1), ".controls"@), rest.skip(at)))
    }
}

/// The radar and the control that a path names, where there is such a control.
pub open spec fn path_target(path: Seq<char>) -> Option<(Seq<char>, ControlId)> {
    match split_control_path(path) {
        Some((radar, name)) => match control_of_name(name) {
            Some(id) => Some((radar, id)),
            None => None,
        },
        None => None,
    }
}

impl RadarControlValue {
    /// What Signal K clients are told of a control.
    pub fn new(radar: &str, control: &Control, error: Option<String>) -> (r: RadarControlValue)
        ensures
            r.path@ == control_path(radar@, control.item.control_id),
            opt_text(r.radar_id) == Some(radar@),
            r.control_id == Some(control.item.control_id),
            r.bare() == control_view(*control, opt_text(error)),
    {
        let mut path: String = String::from_str("radars.");
        path.append(radar);
        path.append(".controls.");
        path.append(control.item().control_id.to_str());
        RadarControlValue {
            radar_id: Some(radar.to_owned()),
            control_id: Some(control.item().control_id),
            path,
            value: control.value(),
            units: control.item().units,
            auto: control.auto,
            auto_value: control.auto_value(),
            end_value: control.end_value(),
            start_distance: control.start_distance(),
            end_distance: control.end_distance(),
            enabled: control.enabled,
            allowed: control.allowed,
            error,
        }
    }

    /// Finds the radar and the control that the path names. Where it names none, the control is
    /// forgotten and the radar stays as it was.
    pub fn parse_path(&mut self) -> (r: Option<String>)
        ensures
            match path_target(old(self).path@) {
                Some((radar, id)) => opt_text(r) == Some(radar) && opt_text(final(self).radar_id)
                    == Some(radar) && final(self).control_id == Some(id),
                None => r is None && final(self).radar_id == old(self).radar_id && final(self).control_id is None,
            },
            *final(self) == (RadarControlValue {
                radar_id: final(self).radar_id,
                control_id: final(self).control_id,
                ..*old(self)
            }),
    {
        match parse_control_path(self.path.as_str()) {
            Some((radar, id)) => {
                self.control_id = Some(id);
                self.radar_id = Some(radar.clone());
                Some(radar)
            },
            None => {
                self.control_id = None;
                None
            },
        }
    }

    /// The value with the id of its control, where the control is known.
    pub fn into_control_value(self) -> (r: ControlValue)
        requires
            self.control_id is Some,
        ensures
            r@ == (self.control_id->0, self.bare()),
    {
        ControlValue {
            id: self.control_id.unwrap(),
            value: self.value,
            units: self.units,
            auto: self.auto,
            auto_value: self.auto_value,
            end_value: self.end_value,
            start_distance: self.start_distance,
            end_distance: self.end_distance,
            enabled: self.enabled,
            allowed: self.allowed,
            error: self.error,
        }
    }
}

/// Finds the radar and the control that a path names.
pub fn parse_control_path(path: &str) -> (r: Option<(String, ControlId)>)
    ensures
        match r {
            Some((radar, id)) => path_target(path@) == Some((radar@, id)),
            None => path_target(path@) is None,
        },
{
    let all = chars_of(path);
    let from: usize = if starts_with(&all, "radars.") {
        proof {
            reveal_strlit("radars.");
        }
        7
    } else {
        0
    };
    let rest: Vec<char> = copy_chars(&all, from, all.len());
    proof {
        reveal_strlit("radars.");
        assert(all@.subrange(from as int, all@.len() as int) =~= strip_radars(path@));
    }
    let at: usize = find_after_last(&rest, '.');
    if at == 0 {
        return None;
    }
    let name = text_of(vstd::slice::slice_subrange(rest.as_slice(), at, rest.len()));
    assert(name@ =~= rest@.skip(at as int));
    let id = match ControlId::from_name(name.as_str()) {
        Some(id) => id,
        None => {
            return None;
        },
    };
    let mut end: usize = at - 1;
    let ghost front = rest@.take(at - 1);
    proof {
        reveal_strlit(".controls");
    }
    if end >= 9 {
        let suffix: Vec<char> = copy_chars(&rest, end - 9, end);
        assert(suffix@ =~= front.skip(front.len() - 9));
        let text = text_of(suffix.as_slice());
        if crate::text::same_text(text.as_str(), ".controls") {
            end = end - 9;
        }
    }
    let radar = text_of(vstd::slice::slice_subrange(rest.as_slice(), 0, end));
    assert(radar@ =~= strip_suffix(front, ".controls"@));
    Some((radar, id))
}

fn copy_chars(v: &Vec<char>, from: usize, to: usize) -> (r: Vec<char>)
    requires
        from <= to <= v.len(),
    ensures
        r@ == v@.subrange(from as int, to as int),
{
    vstd::slice::slice_to_vec(vstd::slice::slice_subrange(v.as_slice(), from, to))
}

proof fn after_last_is(s: Seq<char>, c: char, n: int)
    requires
        0 < n <= s.len(),
        s[n - 1] == c,
        forall|i: int| n <= i < s.len() ==> s[i] != c,
    ensures
        after_last(s, c) == n,
    decreases s.len(),
{
    if s.len() > n {
        assert(s.last() != c);
        after_last_is(s.drop_last(), c, n);
    }
}

proof fn name_has_no_dot(id: ControlId)
    ensures
        forall|i: int| 0 <= i < id.spec_name().len() ==> id.spec_name()[i] != '.',
{
    crate::control_id::names_are_alphanumeric(id);
}

/// The path of a control leads back to its radar and to the control, whatever the radar is called.
pub proof fn path_leads_back(radar: Seq<char>, id: ControlId)
    ensures
        path_target(control_path(radar, id)) == Some((radar, id)),
{
    reveal_strlit("radars.");
    reveal_strlit(".controls.");
    reveal_strlit(".controls");
    let name = id.spec_name();
    let path = control_path(radar, id);
    let rest = radar + ".controls."@ + name;
    assert(path.take(7) =~= "radars."@);
    assert(path.skip(7) =~= rest);
    name_has_no_dot(id);
    let at = radar.len() + 10;
    assert(rest[at - 1] == '.');
    assert forall|i: int| at <= i < rest.len() implies rest[i] != '.' by {
        assert(rest[i] == name[i - at]);
    }
    after_last_is(rest, '.', at as int);
    let front = rest.take(at - 1);
    assert(front =~= radar + ".controls"@);
    assert(front.skip(front.len() - 9) =~= ".controls"@);
    assert(front.take(front.len() - 9) =~= radar);
    assert(rest.skip(at as int) =~= name);
    assert(same_ignoring_case(name, id.spec_name()));
    let chosen = choose|c: ControlId| same_ignoring_case(name, #[trigger] c.spec_name());
    names_differ(id, chosen);
}

/// Clients are told the value of a control and whether the radar adjusts it, is allowed to, and uses it.
/// Only sectors and zones have a second angle, and only zones have distances. A text is not adjusted.
pub proof fn clients_are_told_what_a_control_holds(control: Control, error: Option<Seq<char>>)
    ensures
        ({
            let told = control_view(control, error);
            &&& told.value == control.client_value()
            &&& told.units == control.item.units
            &&& told.auto == control.auto
            &&& told.enabled == control.enabled
            &&& told.allowed == control.allowed
            &&& told.error == error
            &&& told.auto_value is Some ==> told.auto_value == control.auto_value
                && !(control.item.data_type is String)
            &&& told.end_value is Some ==> told.end_value == control.end_value
            &&& told.start_distance is Some ==> told.start_distance == control.start_distance
            &&& told.end_distance is Some ==> told.end_distance == control.end_distance
            &&& control.item.data_type is Zone ==> told.end_value == control.end_value
                && told.start_distance == control.start_distance && told.end_distance
                == control.end_distance
            &&& control.item.data_type is Sector ==> told.end_value == control.end_value
                && told.start_distance is None && told.end_distance is None
            &&& control.item.data_type is Number || control.item.data_type is Enum
                || control.item.data_type is Button ==> told.auto_value == control.auto_value
                && told.end_value is None
        }),
{
}

/// A message is known by its fields, whether it has an id, a path, or neither.
pub proof fn messages_hold_their_fields(
    bare: BareControlValue,
    with_id: ControlValue,
    with_path: RadarControlValue,
)
    ensures
        bare@.value == opt_value(bare.value) && bare@.units == bare.units && bare@.auto == bare.auto,
        bare@.auto_value == bare.auto_value && bare@.end_value == bare.end_value,
        bare@.start_distance == bare.start_distance && bare@.end_distance == bare.end_distance,
        bare@.enabled == bare.enabled && bare@.allowed == bare.allowed,
        bare@.error == opt_text(bare.error),
        with_id@.0 == with_id.id,
        with_id@.1.value == opt_value(with_id.value) && with_id@.1.units == with_id.units,
        with_id@.1.auto == with_id.auto && with_id@.1.auto_value == with_id.auto_value,
        with_id@.1.end_value == with_id.end_value && with_id@.1.enabled == with_id.enabled,
        with_id@.1.start_distance == with_id.start_distance,
        with_id@.1.end_distance == with_id.end_distance && with_id@.1.allowed == with_id.allowed,
        with_id@.1.error == opt_text(with_id.error),
        with_path.bare().value == opt_value(with_path.value),
        with_path.bare().units == with_path.units && with_path.bare().auto == with_path.auto,
        with_path.bare().auto_value == with_path.auto_value,
        with_path.bare().end_value == with_path.end_value,
        with_path.bare().start_distance == with_path.start_distance,
        with_path.bare().end_distance == with_path.end_distance,
        with_path.bare().enabled == with_path.enabled,
        with_path.bare().allowed == with_path.allowed,
        with_path.bare().error == opt_text(with_path.error),
{
}

/// An integer is read back from its decimal form, and stands for itself as a number. True counts as one
/// and false as zero. What is no text, number or truth value stands for no integer.
pub proof fn values_stand_for_integers(n: int, number: Number, b: bool, text_number: Option<Number>)
    requires
        i64::MIN <= n <= i64::MAX,
    ensures
        integer_of(ValueView::String(crate::text::decimal_int(n))) == Some(n),
        number.integer == Some(n as i64) ==> integer_of(ValueView::Number(number)) == Some(n),
        number.integer is None ==> integer_of(ValueView::Number(number)) is None,
        integer_of(ValueView::Bool(b)) == Some(
            if b {
                1int
            } else {
                0
            },
        ),
        opt_integer_of(None) is None,
        number_of(Some(ValueView::Number(number)), text_number) == Some(number),
        number_of(Some(ValueView::String(crate::text::decimal_int(n))), text_number) == text_number,
        number_of(None, text_number) is None,
{
    crate::text::integer_is_read_back(n);
}

/// The short form of a path, with nothing but the radar and the control, leads to them as well, where
/// the radar does not itself look like the start or the end of a longer path.
pub proof fn short_path_leads_back(radar: Seq<char>, id: ControlId)
    requires
        !has_prefix(radar + seq!['.'] + id.spec_name(), "radars."@),
        strip_suffix(radar, ".controls"@) == radar,
    ensures
        path_target(radar + seq!['.'] + id.spec_name()) == Some((radar, id)),
{
    let name = id.spec_name();
    let path = radar + seq!['.'] + name;
    name_has_no_dot(id);
    let at = radar.len() + 1;
    assert(path[at - 1] == '.');
    assert forall|i: int| at <= i < path.len() implies path[i] != '.' by {
        assert(path[i] == name[i - at]);
    }
    after_last_is(path, '.', at as int);
    assert(path.take(at - 1) =~= radar);
    assert(path.skip(at as int) =~= name);
    assert(same_ignoring_case(name, id.spec_name()));
    let chosen = choose|c: ControlId| same_ignoring_case(name, #[trigger] c.spec_name());
    names_differ(id, chosen);
}

} // verus!

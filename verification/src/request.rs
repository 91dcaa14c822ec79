//! Requests of clients to change a control.
use vstd::prelude::*;

use crate::control::{find_name, index_of_name, labels_and_places_agree, set_to_zone, Control};
use crate::control_id::{ControlDestination, ControlId};
use crate::control_value::{control_view, BareView, ControlValue};
use crate::controls::SharedControls;
use crate::definition::{list, ControlDataType};
use crate::error::{ControlError, RadarError};
use crate::furuno;
use crate::number::whole_number;
use crate::raymarine;
use crate::text::same_ignoring_case;
use crate::units::Units;
use crate::value::{opt_value, Number, Value, ValueView};

verus! {

/// The number that a text of a client stands for.
#[derive(Clone, Copy, Debug, PartialEq, Eq, Structural)]
pub enum TextNumber {
    /// The text is no number.
    NotANumber,
    /// The text is a number, but not a finite one.
    NotFinite,
    /// The text is a number.
    Finite(Number),
}

/// A value with numbers and names of an enumeration made numbers. An error where nothing can come
/// of the value.
pub open spec fn normalized(value: ValueView, control: Control, parsed: TextNumber) -> Option<
    ValueView,
> {
    match value {
        ValueView::Null | ValueView::Bool(_) | ValueView::Number(_) => Some(value),
        ValueView::String(s) => match parsed {
            TextNumber::Finite(n) => Some(ValueView::Number(n)),
            TextNumber::NotFinite => None,
            TextNumber::NotANumber => match control.item@.descriptions {
                Some(names) => match index_of_name(names, s) {
                    Some(index) => Some(ValueView::Number(whole_number(index as int))),
                    None => Some(value),
                },
                None => Some(value),
            },
        },
        ValueView::Array | ValueView::Object => None,
    }
}

/// What has to be done to put a value of a client into the units of the radar.
pub enum WirePlan {
    /// Nothing: the value is passed on as it is.
    Keep(Option<Units>, Option<Value>),
    /// The number is put into the unit that clients see, from `from`, and from there into `to`.
    /// `units` is the unit that it has then.
    Scale { number: Number, from: Option<Units>, to: Option<Units>, units: Option<Units> },
}

/// A plan, as a mathematical value.
pub enum WirePlanView {
    Keep(Option<Units>, Option<ValueView>),
    Scale { number: Number, from: Option<Units>, to: Option<Units>, units: Option<Units> },
}

impl View for WirePlan {
    type V = WirePlanView;

    open spec fn view(&self) -> WirePlanView {
        match self {
            WirePlan::Keep(units, value) => WirePlanView::Keep(*units, opt_value(*value)),
            WirePlan::Scale { number, from, to, units } => WirePlanView::Scale {
                number: *number,
                from: *from,
                to: *to,
                units: *units,
            },
        }
    }
}

/// The unit that a request gives. An empty unit is none.
pub open spec fn given_unit(units: Option<Units>) -> Option<Units> {
    if units == Some(Units::NoUnits) {
        None
    } else {
        units
    }
}

/// The unit that a value has once it is in the units of the radar.
pub open spec fn wire_unit(from: Option<Units>, to: Option<Units>) -> Option<Units> {
    match (from, to) {
        (_, Some(Units::NoUnits)) => None,
        (_, Some(u)) => Some(u),
        (Some(u), None) => Some(u.si_units()),
        (None, None) => None,
    }
}

/// The number that a value stands for: itself, or one and zero for true and false.
pub open spec fn number_of(value: ValueView) -> Option<Number> {
    match value {
        ValueView::Number(n) => Some(n),
        ValueView::Bool(b) => Some(
            whole_number(
                if b {
                    1
                } else {
                    0
                },
            ),
        ),
        _ => None,
    }
}

/// What has to be done to put a value of a client into the units of the radar. Texts and buttons
/// are passed on; everything else has to stand for a number.
pub open spec fn wire_plan(
    units: Option<Units>,
    value: Option<ValueView>,
    control: Control,
    parsed: TextNumber,
) -> Option<WirePlanView> {
    if control.item.data_type is Button || control.item.data_type is String {
        Some(WirePlanView::Keep(None, value))
    } else {
        match value {
            None => Some(WirePlanView::Keep(units, None)),
            Some(v) => match normalized(v, control, parsed) {
                Some(normal) => match number_of(normal) {
                    Some(number) => Some(
                        WirePlanView::Scale {
                            number,
                            from: given_unit(units),
                            to: control.item.wire_units,
                            units: wire_unit(given_unit(units), control.item.wire_units),
                        },
                    ),
                    None => None,
                },
                None => None,
            },
        }
    }
}

/// Completes the conversion of a value. `scaled` is what comes out of the arithmetic that the plan
/// asks for, where that is a finite number.
pub fn finish_conversion(plan: WirePlan, scaled: Option<Number>, control: &Control) -> (r: Result<
    (Option<Units>, Option<Value>),
    RadarError,
>)
    ensures
        match plan@ {
            WirePlanView::Keep(units, value) => r is Ok && r->Ok_0.0 == units && opt_value(
                r->Ok_0.1,
            ) == value,
            WirePlanView::Scale { number, from, to, units } => match scaled {
                Some(n) => r is Ok && r->Ok_0.0 == units && opt_value(r->Ok_0.1) == Some(
                    ValueView::Number(n),
                ),
                None => r matches Err(RadarError::NotNumeric(id, v)) && id
                    == control.item.control_id && v@ == ValueView::Number(number),
            },
        },
{
    match plan {
        WirePlan::Keep(units, value) => Ok((units, value)),
        WirePlan::Scale { number, from, to, units } => match scaled {
            Some(n) => Ok((units, Some(Value::Number(n)))),
            None => Err(
                RadarError::NotNumeric(control.item.control_id, Value::Number(number)),
            ),
        },
    }
}

/// The numbers that come out of the arithmetic on a request.
#[derive(Clone, Copy, Debug, PartialEq, Eq, Structural)]
pub struct RequestNumbers {
    /// What the value of the request stands for, where that is a text.
    pub parsed: TextNumber,
    /// The value in the units of the radar, where that is a finite number.
    pub value: Option<Number>,
    /// The end of a sector or a zone in the units of the radar, where that is a finite number.
    pub end_value: Option<Number>,
    /// The automatic value in the units of the radar, where that is a finite number.
    pub auto_value: Option<Number>,
}

/// Why a value cannot be put into the units of the radar.
pub enum WireProblem {
    /// Nothing can come of the value.
    Unusable(ValueView),
    /// The value is not a number, or does not stay one.
    NotNumeric(ValueView),
}

/// The error that tells of a problem.
pub open spec fn tells_problem(problem: WireProblem, id: ControlId, e: RadarError) -> bool {
    match (problem, e) {
        (WireProblem::Unusable(v), RadarError::CannotSetControlIdValue(i, w)) => i == id && w@ == v,
        (WireProblem::NotNumeric(v), RadarError::NotNumeric(i, w)) => i == id && w@ == v,
        _ => false,
    }
}

/// A value in the units of the radar. `scaled` is what comes out of the arithmetic.
pub open spec fn wired(
    units: Option<Units>,
    value: Option<ValueView>,
    control: Control,
    parsed: TextNumber,
    scaled: Option<Number>,
) -> Result<(Option<Units>, Option<ValueView>), WireProblem> {
    match wire_plan(units, value, control, parsed) {
        Some(WirePlanView::Keep(units, value)) => Ok((units, value)),
        Some(WirePlanView::Scale { number, from, to, units }) => match scaled {
            Some(n) => Ok((units, Some(ValueView::Number(n)))),
            None => Err(WireProblem::NotNumeric(ValueView::Number(number))),
        },
        None => match normalized(value->0, control, parsed) {
            Some(v) => Err(WireProblem::NotNumeric(v)),
            None => Err(WireProblem::Unusable(value->0)),
        },
    }
}

/// A number in the units of the radar.
pub open spec fn wired_number(n: Option<Number>, control: Control, scaled: Option<Number>) -> Result<
    Option<Number>,
    WireProblem,
> {
    match n {
        None => Ok(None),
        Some(number) => if control.item.data_type is Button || control.item.data_type is String {
            Ok(n)
        } else if scaled is Some {
            Ok(scaled)
        } else {
            Err(WireProblem::NotNumeric(ValueView::Number(number)))
        },
    }
}

/// A request in the units of the radar.
pub open spec fn wire_request(cv: BareView, control: Control, numbers: RequestNumbers) -> Result<
    BareView,
    WireProblem,
> {
    match wired(cv.units, cv.value, control, numbers.parsed, numbers.value) {
        Err(problem) => Err(problem),
        Ok((units, value)) => match wired_number(cv.end_value, control, numbers.end_value) {
            Err(problem) => Err(problem),
            Ok(end_value) => match wired_number(cv.auto_value, control, numbers.auto_value) {
                Err(problem) => Err(problem),
                Ok(auto_value) => Ok(BareView { units, value, end_value, auto_value, ..cv }),
            },
        },
    }
}

/// A zone that a client asks for, in the units of the radar.
#[derive(Clone, Copy, Debug, PartialEq, Eq, Structural)]
pub struct ZoneRequest {
    pub id: ControlId,
    pub start_angle: Number,
    pub end_angle: Number,
    pub start_distance: Number,
    pub end_distance: Number,
    pub enabled: Option<bool>,
}

/// What has to be done for a request.
#[derive(Debug)]
pub enum ClientAction {
    /// Set the zone of the control.
    SetZone(ZoneRequest),
    /// Set the control to the value.
    SetValue(ControlId, Value),
    /// Pass the request on to the handler of the radar.
    Forward(ControlValue),
}

/// A number, or zero where it is not given.
pub open spec fn or_zero(n: Option<Number>) -> Number {
    match n {
        Some(n) => n,
        None => whole_number(0),
    }
}

/// The zone that a request asks for: what is not given is zero.
pub open spec fn zone_of(id: ControlId, wire: BareView) -> ZoneRequest {
    ZoneRequest {
        id,
        start_angle: or_zero(
            match wire.value {
                Some(ValueView::Number(n)) => Some(n),
                _ => None,
            },
        ),
        end_angle: or_zero(wire.end_value),
        start_distance: or_zero(wire.start_distance),
        end_distance: or_zero(wire.end_distance),
        enabled: wire.enabled,
    }
}

/// Whether an action is what a request leads to, once it is in the units of the radar. What the
/// server keeps itself is set; what the radar, its targets or its trails take is passed on; what only
/// reports cannot be set.
pub open spec fn is_action(
    id: ControlId,
    control: Control,
    wire: BareView,
    r: Result<ClientAction, RadarError>,
) -> bool {
    match id.destination() {
        ControlDestination::ReadOnly => is_refused(id, r),
        ControlDestination::Internal => if control.item.data_type is Zone {
            r matches Ok(ClientAction::SetZone(zone)) && zone == zone_of(id, wire)
        } else {
            match wire.value {
                Some(v) => r matches Ok(ClientAction::SetValue(i, w)) && i == id && w@ == v,
                None => is_refused(id, r),
            }
        },
        _ => r matches Ok(ClientAction::Forward(cv)) && cv@ == (id, wire),
    }
}

/// The answer that a control cannot be set.
pub open spec fn is_refused(id: ControlId, r: Result<ClientAction, RadarError>) -> bool {
    r matches Err(RadarError::CannotSetControlId(e)) && e == id
}

/// Whether an answer is the one that a request for a control gets.
pub open spec fn answers(
    controls: SharedControls,
    id: ControlId,
    cv: BareView,
    numbers: RequestNumbers,
    r: Result<ClientAction, RadarError>,
) -> bool {
    match controls.slot(id) {
        None => is_refused(id, r),
        Some(control) => match wire_request(cv, control, numbers) {
            Ok(wire) => is_action(id, control, wire, r),
            Err(problem) => r matches Err(e) && tells_problem(problem, id, e),
        },
    }
}

fn number_or_zero(n: Option<Number>) -> (r: Number)
    ensures
        r == or_zero(n),
{
    match n {
        Some(n) => n,
        None => Number::from_i32(0),
    }
}

impl SharedControls {
    /// Makes a number of a text and of a name of an enumeration. `parsed` is the number that a text
    /// stands for.
    pub fn normalize_value(value: &Value, control: &Control, parsed: TextNumber) -> (r: Result<
        Value,
        RadarError,
    >)
        ensures
            match r {
                Ok(v) => normalized(value@, *control, parsed) == Some(v@),
                Err(RadarError::CannotSetControlIdValue(id, v)) => normalized(
                    value@,
                    *control,
                    parsed,
                ) is None && id == control.item.control_id && v@ == value@,
                Err(_) => false,
            },
    {
        match value {
            Value::Null | Value::Bool(_) | Value::Number(_) => Ok(value.clone()),
            Value::String(s) => match parsed {
                TextNumber::Finite(n) => Ok(Value::Number(n)),
                TextNumber::NotFinite => Err(
                    RadarError::CannotSetControlIdValue(control.item.control_id, value.clone()),
                ),
                TextNumber::NotANumber => {
                    match &control.item.descriptions {
                        Some(names) => match find_name(names, s.as_str()) {
                            Some(index) => Ok(Value::Number(Number::from_i32(index))),
                            None => Ok(value.clone()),
                        },
                        None => Ok(value.clone()),
                    }
                },
            },
            Value::Array | Value::Object => Err(
                RadarError::CannotSetControlIdValue(control.item.control_id, value.clone()),
            ),
        }
    }

    /// Works out what has to be done to put a value of a client into the units of the radar. True and
    /// false, names of an enumeration and texts that are numbers become numbers.
    pub fn convert_to_wire_number(
        cv_units: Option<Units>,
        cv_value: Option<Value>,
        control: &Control,
        parsed: TextNumber,
    ) -> (r: Result<WirePlan, RadarError>)
        ensures
            match r {
                Ok(plan) => wire_plan(cv_units, opt_value(cv_value), *control, parsed) == Some(plan@),
                Err(RadarError::CannotSetControlIdValue(id, v)) => wire_plan(
                    cv_units,
                    opt_value(cv_value),
                    *control,
                    parsed,
                ) is None && id == control.item.control_id && cv_value is Some && v@ == cv_value->0@
                    && normalized(v@, *control, parsed) is None,
                Err(RadarError::NotNumeric(id, v)) => wire_plan(
                    cv_units,
                    opt_value(cv_value),
                    *control,
                    parsed,
                ) is None && id == control.item.control_id && cv_value is Some && normalized(
                    cv_value->0@,
                    *control,
                    parsed,
                ) == Some(v@),
                Err(_) => false,
            },
    {
        if control.item.data_type == ControlDataType::Button || control.item.data_type
            == ControlDataType::String {
            return Ok(WirePlan::Keep(None, cv_value));
        }
        match cv_value {
            None => Ok(WirePlan::Keep(cv_units, None)),
            Some(value) => {
                let normal = match Self::normalize_value(&value, control, parsed) {
                    Ok(v) => v,
                    Err(e) => {
                        return Err(e);
                    },
                };
                let number = match normal {
                    Value::Number(n) => n,
                    Value::Bool(b) => Number::from_i32(
                        if b {
                            1
                        } else {
                            0
                        },
                    ),
                    v => {
                        return Err(RadarError::NotNumeric(control.item.control_id, v));
                    },
                };
                let from = match cv_units {
                    Some(Units::NoUnits) => None,
                    u => u,
                };
                let to = control.item.wire_units;
                let units = match to {
                    Some(Units::NoUnits) => None,
                    Some(u) => Some(u),
                    None => match from {
                        Some(u) => Some(u.to_si().0),
                        None => None,
                    },
                };
                Ok(WirePlan::Scale { number, from, to, units })
            },
        }
    }

    /// Puts a number of a request into the units of the radar.
    fn convert_f64_to_wire(n: Option<Number>, control: &Control, scaled: Option<Number>) -> (r:
        Result<Option<Number>, RadarError>)
        ensures
            match wired_number(n, *control, scaled) {
                Ok(wire) => r == Ok::<Option<Number>, RadarError>(wire),
                Err(problem) => r matches Err(e) && tells_problem(
                    problem,
                    control.item.control_id,
                    e,
                ),
            },
    {
        match n {
            None => Ok(None),
            Some(number) => if control.item.data_type == ControlDataType::Button
                || control.item.data_type == ControlDataType::String {
                Ok(n)
            } else {
                match scaled {
                    Some(_) => Ok(scaled),
                    None => Err(
                        RadarError::NotNumeric(control.item.control_id, Value::Number(number)),
                    ),
                }
            },
        }
    }

    /// Puts a request into the units of the radar.
    fn convert_request(cv: ControlValue, control: &Control, numbers: &RequestNumbers) -> (r: Result<
        ControlValue,
        RadarError,
    >)
        requires
            control.item.control_id == cv.id,
        ensures
            match wire_request(cv@.1, *control, *numbers) {
                Ok(wire) => r matches Ok(v) && v@ == (cv.id, wire),
                Err(problem) => r matches Err(e) && tells_problem(problem, cv.id, e),
            },
    {
        let plan = match Self::convert_to_wire_number(cv.units, cv.value, control, numbers.parsed) {
            Ok(plan) => plan,
            Err(e) => {
                return Err(e);
            },
        };
        let (units, value) = match finish_conversion(plan, numbers.value, control) {
            Ok(r) => r,
            Err(e) => {
                return Err(e);
            },
        };
        let end_value = match Self::convert_f64_to_wire(cv.end_value, control, numbers.end_value) {
            Ok(n) => n,
            Err(e) => {
                return Err(e);
            },
        };
        let auto_value = match Self::convert_f64_to_wire(
            cv.auto_value,
            control,
            numbers.auto_value,
        ) {
            Ok(n) => n,
            Err(e) => {
                return Err(e);
            },
        };
        Ok(
            ControlValue {
                id: cv.id,
                value,
                units,
                auto: cv.auto,
                auto_value,
                end_value,
                start_distance: cv.start_distance,
                end_distance: cv.end_distance,
                enabled: cv.enabled,
                allowed: cv.allowed,
                error: cv.error,
            },
        )
    }

    /// Decides what has to be done for a request. It is put into the units of the radar. What the
    /// server keeps itself is set; what the radar, its targets or its trails take is passed on; what
    /// only reports, or is not there, cannot be set.
    pub fn process_client_request(&self, cv: ControlValue, numbers: &RequestNumbers) -> (r: Result<
        ClientAction,
        RadarError,
    >)
        requires
            self.well_formed(),
        ensures
            answers(*self, cv.id, cv@.1, *numbers, r),
    {
        let id = cv.id;
        let control = match self.get(&id) {
            Some(c) => c,
            None => {
                return Err(RadarError::CannotSetControlId(id));
            },
        };
        let wire = match Self::convert_request(cv, control, numbers) {
            Ok(wire) => wire,
            Err(e) => {
                return Err(e);
            },
        };
        match id.get_destination() {
            ControlDestination::Internal => {
                if control.item.data_type == ControlDataType::Zone {
                    let start_angle: Option<Number> = match wire.value {
                        Some(Value::Number(n)) => Some(n),
                        _ => None,
                    };
                    Ok(
                        ClientAction::SetZone(
                            ZoneRequest {
                                id,
                                start_angle: number_or_zero(start_angle),
                                end_angle: number_or_zero(wire.end_value),
                                start_distance: number_or_zero(wire.start_distance),
                                end_distance: number_or_zero(wire.end_distance),
                                enabled: wire.enabled,
                            },
                        ),
                    )
                } else {
                    match wire.value {
                        Some(value) => Ok(ClientAction::SetValue(id, value)),
                        None => Err(RadarError::CannotSetControlId(id)),
                    }
                }
            },
            ControlDestination::Command | ControlDestination::Target | ControlDestination::Trail => Ok(
                ClientAction::Forward(wire),
            ),
            ControlDestination::ReadOnly => Err(RadarError::CannotSetControlId(id)),
        }
    }
}

/// Whether a change of a control outlives the server.
pub fn needs_persistence(id: ControlId) -> (r: bool)
    ensures
        r == (id == ControlId::GuardZone1 || id == ControlId::GuardZone2 || id
            == ControlId::UserName),
{
    match id {
        ControlId::GuardZone1 | ControlId::GuardZone2 | ControlId::UserName => true,
        _ => false,
    }
}

/// What the handler of a radar does with a change that was passed on to it.
#[derive(Clone, Copy, Debug, PartialEq, Eq, Structural)]
pub enum HandlerAction {
    /// Hand it to the target trails.
    Trail,
    /// Send it to the radar, and ask for the new value to be passed on.
    Command,
    /// Nothing: there is nobody who could handle it.
    Ignore,
}

/// Decides what the handler of a radar does with a change. `can_send` tells whether commands can be
/// sent: not while recorded data is replayed.
pub fn process_control_update(controls: &SharedControls, id: ControlId, can_send: bool) -> (r:
    HandlerAction)
    requires
        controls.well_formed(),
        controls.slot(id) is Some,
        id.destination() != ControlDestination::Internal,
    ensures
        r == match id.destination() {
            ControlDestination::Trail => HandlerAction::Trail,
            ControlDestination::Command => if can_send {
                HandlerAction::Command
            } else {
                HandlerAction::Ignore
            },
            _ => HandlerAction::Ignore,
        },
{
    match id.get_destination() {
        ControlDestination::Trail => HandlerAction::Trail,
        ControlDestination::Command => {
            if can_send {
                HandlerAction::Command
            } else {
                HandlerAction::Ignore
            }
        },
        _ => HandlerAction::Ignore,
    }
}

/// Completes a change that was sent to the radar. `error` tells why that failed, and the client is
/// told. Otherwise the client gets no reply, but the next value that the radar reports is passed on
/// to all clients, changed or not.
pub fn command_done(controls: &mut SharedControls, id: ControlId, error: Option<String>) -> (r: Result<
    Option<ControlValue>,
    RadarError,
>)
    requires
        old(controls).well_formed(),
    ensures
        final(controls).well_formed(),
        final(controls).same_but(old(controls), id),
        match error {
            None => {
                &&& r is Ok && r->Ok_0 is None
                &&& final(controls).slot(id) == match old(controls).slot(id) {
                    Some(c) => Some(Control { needs_refresh: true, ..c }),
                    None => None,
                }
            },
            Some(e) => {
                &&& *final(controls) == *old(controls)
                &&& match old(controls).slot(id) {
                    Some(c) => r matches Ok(Some(cv)) && cv@ == (id, control_view(c, Some(e@))),
                    None => r matches Err(RadarError::CannotSetControlId(i)) && i == id,
                }
            },
        },
{
    match error {
        None => {
            controls.set_refresh(&id);
            Ok(None)
        },
        Some(e) => match controls.send_error_to_client(id, e) {
            Ok(cv) => Ok(Some(cv)),
            Err(e) => Err(e),
        },
    }
}

/// A request for a control that only reports, or that the radar does not have, is always refused.
pub proof fn reports_cannot_be_set(
    controls: SharedControls,
    id: ControlId,
    cv: BareView,
    numbers: RequestNumbers,
    r: Result<ClientAction, RadarError>,
)
    requires
        controls.slot(id) is None || id.destination() == ControlDestination::ReadOnly,
        answers(controls, id, cv, numbers, r),
    ensures
        r is Err,
{
}

/// A change that outlives the server is made by the server itself and never sent to the radar.
pub proof fn persistent_controls_are_internal(
    controls: SharedControls,
    id: ControlId,
    cv: BareView,
    numbers: RequestNumbers,
    r: Result<ClientAction, RadarError>,
)
    requires
        id == ControlId::GuardZone1 || id == ControlId::GuardZone2 || id == ControlId::UserName,
        answers(controls, id, cv, numbers, r),
    ensures
        !(r matches Ok(ClientAction::Forward(_))),
{
}

/// Whatever is passed on to the radar is a number, unless the control is a text or a button, or no
/// value was given.
pub proof fn radars_get_numbers(
    controls: SharedControls,
    id: ControlId,
    cv: BareView,
    numbers: RequestNumbers,
    sent: ControlValue,
)
    requires
        answers(
            controls,
            id,
            cv,
            numbers,
            Ok::<ClientAction, RadarError>(ClientAction::Forward(sent)),
        ),
    ensures
        ({
            let kind = controls.slot(id)->0.item.data_type;
            kind is Button || kind is String || sent@.1.value is None || sent@.1.value->0 is Number
        }),
{
}

/// Every number that a request for a zone gives arrives in the zone: the two distances as they are, and
/// the value and the end value in the units of the radar as the two angles. Only a number that is
/// missing becomes zero.
pub proof fn zone_gets_every_number(
    controls: SharedControls,
    id: ControlId,
    cv: BareView,
    numbers: RequestNumbers,
    zone: ZoneRequest,
)
    requires
        answers(
            controls,
            id,
            cv,
            numbers,
            Ok::<ClientAction, RadarError>(ClientAction::SetZone(zone)),
        ),
    ensures
        zone.id == id,
        cv.start_distance matches Some(d) ==> zone.start_distance == d,
        cv.end_distance matches Some(d) ==> zone.end_distance == d,
        cv.start_distance is None ==> zone.start_distance == whole_number(0),
        cv.end_distance is None ==> zone.end_distance == whole_number(0),
        cv.value is Some ==> numbers.value == Some(zone.start_angle),
        cv.value is None ==> zone.start_angle == whole_number(0),
        cv.end_value is Some ==> numbers.end_value == Some(zone.end_angle),
        cv.end_value is None ==> zone.end_angle == whole_number(0),
        zone.enabled == cv.enabled,
{
}

/// A request for a zone that gives usable numbers is always carried out.
pub proof fn zone_is_set(
    controls: SharedControls,
    id: ControlId,
    cv: BareView,
    numbers: RequestNumbers,
    r: Result<ClientAction, RadarError>,
)
    requires
        id == ControlId::GuardZone1 || id == ControlId::GuardZone2,
        controls.slot(id) matches Some(c) && c.item.data_type is Zone,
        cv.value is None || (cv.value matches Some(ValueView::Number(_)) && numbers.value is Some),
        cv.end_value is None || numbers.end_value is Some,
        cv.auto_value is None || numbers.auto_value is Some,
        answers(controls, id, cv, numbers, r),
    ensures
        r matches Ok(ClientAction::SetZone(_)),
{
}

/// Once the zone of a request is set, clients are told the very distances that the request gave, and
/// whether the zone is in use.
pub proof fn clients_see_the_zone(
    controls: SharedControls,
    id: ControlId,
    cv: BareView,
    numbers: RequestNumbers,
    zone: ZoneRequest,
    before: Control,
    after: Control,
    r: Result<Option<()>, ControlError>,
)
    requires
        controls.slot(id) == Some(before),
        answers(
            controls,
            id,
            cv,
            numbers,
            Ok::<ClientAction, RadarError>(ClientAction::SetZone(zone)),
        ),
        set_to_zone(
            before,
            after,
            zone.start_angle,
            zone.end_angle,
            zone.start_distance,
            zone.end_distance,
            zone.enabled,
            r,
        ),
    ensures
        r is Ok,
        cv.start_distance matches Some(d) ==> (control_view(after, None).start_distance matches Some(
            n,
        ) && n.order == d.order),
        cv.end_distance matches Some(d) ==> (control_view(after, None).end_distance matches Some(n)
            && n.order == d.order),
        cv.end_value is Some ==> (control_view(after, None).end_value matches Some(n) && n.order
            == (numbers.end_value->0).order),
        control_view(after, None).enabled == cv.enabled,
{
}

/// What is passed on to the radar is the request itself: only its numbers are put into the units of the
/// radar, each where the request gives it.
pub proof fn request_is_passed_on_whole(
    controls: SharedControls,
    id: ControlId,
    cv: BareView,
    numbers: RequestNumbers,
    sent: ControlValue,
)
    requires
        answers(
            controls,
            id,
            cv,
            numbers,
            Ok::<ClientAction, RadarError>(ClientAction::Forward(sent)),
        ),
    ensures
        sent.id == id,
        ({
            let kind = controls.slot(id)->0.item.data_type;
            let wire = sent@.1;
            &&& wire.auto == cv.auto
            &&& wire.enabled == cv.enabled
            &&& wire.start_distance == cv.start_distance
            &&& wire.end_distance == cv.end_distance
            &&& wire.allowed == cv.allowed
            &&& wire.error == cv.error
            &&& wire.value is Some <==> cv.value is Some
            &&& wire.end_value is Some <==> cv.end_value is Some
            &&& wire.auto_value is Some <==> cv.auto_value is Some
            &&& kind is Button || kind is String ==> wire.value == cv.value && wire.end_value
                == cv.end_value && wire.auto_value == cv.auto_value && wire.units is None
            &&& !(kind is Button) && !(kind is String) ==> {
                &&& cv.value is Some ==> numbers.value is Some && wire.value == Some(
                    ValueView::Number(numbers.value->0),
                )
                &&& cv.end_value is Some ==> wire.end_value == numbers.end_value
                &&& cv.auto_value is Some ==> wire.auto_value == numbers.auto_value
            }
        }),
{
}

/// What the server keeps itself is set to the text of the request as it is, or to its number in the
/// units of the radar.
pub proof fn value_is_set_as_asked(
    controls: SharedControls,
    id: ControlId,
    cv: BareView,
    numbers: RequestNumbers,
    set_id: ControlId,
    value: Value,
)
    requires
        answers(
            controls,
            id,
            cv,
            numbers,
            Ok::<ClientAction, RadarError>(ClientAction::SetValue(set_id, value)),
        ),
    ensures
        set_id == id,
        ({
            let kind = controls.slot(id)->0.item.data_type;
            &&& kind is Button || kind is String ==> cv.value == Some(value@)
            &&& !(kind is Button) && !(kind is String) ==> numbers.value is Some && value@
                == ValueView::Number(numbers.value->0)
        }),
{
}

/// Every request with usable numbers is answered with an action, unless the control only reports or, where
/// the server keeps it itself, no value is given.
pub proof fn usable_requests_are_accepted(
    controls: SharedControls,
    id: ControlId,
    cv: BareView,
    numbers: RequestNumbers,
    r: Result<ClientAction, RadarError>,
)
    requires
        controls.slot(id) is Some,
        cv.value matches Some(ValueView::Number(_)),
        numbers.value is Some,
        cv.end_value is None || numbers.end_value is Some,
        cv.auto_value is None || numbers.auto_value is Some,
        answers(controls, id, cv, numbers, r),
    ensures
        r is Ok <==> id.destination() != ControlDestination::ReadOnly,
        r matches Ok(ClientAction::Forward(_)) <==> (id.destination() == ControlDestination::Command
            || id.destination() == ControlDestination::Target || id.destination()
            == ControlDestination::Trail),
{
}

/// A number is put from the unit of the request into that of the radar, and has that unit then. Without
/// a unit of the radar it is in the standard unit of the request. An empty unit is none.
pub proof fn numbers_are_put_into_the_units_of_the_radar(
    units: Option<Units>,
    n: Number,
    control: Control,
    parsed: TextNumber,
)
    requires
        !(control.item.data_type is Button),
        !(control.item.data_type is String),
    ensures
        wire_plan(units, Some(ValueView::Number(n)), control, parsed) matches Some(
            WirePlanView::Scale { number, from, to, units: after },
        ) && {
            &&& number == n
            &&& to == control.item.wire_units
            &&& from == if units == Some(Units::NoUnits) {
                None
            } else {
                units
            }
            &&& control.item.wire_units matches Some(u) ==> after == if u == Units::NoUnits {
                None
            } else {
                Some(u)
            }
            &&& control.item.wire_units is None && from is None ==> after is None
            &&& control.item.wire_units is None && from is Some ==> after == Some(
                (from->0).si_units(),
            )
        },
{
}

/// Whatever stands for a number is treated as that number: true for one and false for zero, and a text
/// for the number that it spells.
pub proof fn other_forms_stand_for_numbers(
    units: Option<Units>,
    text: Seq<char>,
    n: Number,
    control: Control,
    parsed: TextNumber,
)
    requires
        !(control.item.data_type is Button),
        !(control.item.data_type is String),
    ensures
        wire_plan(units, Some(ValueView::Bool(true)), control, parsed) == wire_plan(
            units,
            Some(ValueView::Number(whole_number(1))),
            control,
            parsed,
        ),
        wire_plan(units, Some(ValueView::Bool(false)), control, parsed) == wire_plan(
            units,
            Some(ValueView::Number(whole_number(0))),
            control,
            parsed,
        ),
        wire_plan(units, Some(ValueView::String(text)), control, TextNumber::Finite(n)) == wire_plan(
            units,
            Some(ValueView::Number(n)),
            control,
            parsed,
        ),
        wire_plan(units, Some(ValueView::String(text)), control, TextNumber::NotFinite) is None,
        wire_plan(units, Some(ValueView::Null), control, parsed) is None,
        wire_plan(units, Some(ValueView::Array), control, parsed) is None,
        wire_plan(units, Some(ValueView::Object), control, parsed) is None,
{
}

/// A label of a list, in any case, stands for its place in the list.
pub proof fn labels_stand_for_their_places(
    units: Option<Units>,
    control: Control,
    id: ControlId,
    labels: Seq<Seq<char>>,
    i: int,
    label: Seq<char>,
)
    requires
        control.item@ == list(id, labels),
        labels.len() <= i32::MAX,
        0 <= i < labels.len(),
        same_ignoring_case(labels[i], label),
        forall|j: int, k: int|
            0 <= j < k < labels.len() ==> !same_ignoring_case(#[trigger] labels[j], #[trigger] labels[k]),
    ensures
        wire_plan(units, Some(ValueView::String(label)), control, TextNumber::NotANumber) == wire_plan(
            units,
            Some(ValueView::Number(whole_number(i))),
            control,
            TextNumber::NotANumber,
        ),
{
    labels_and_places_agree(id, labels, i, label);
}

/// Whatever a radar can be told to change is sent to the radar, and never kept from it as something
/// that only reports or that the server keeps itself.
pub proof fn commands_reach_the_radar(
    id: ControlId,
    value: raymarine::command::CommandValue,
    ranges: Seq<i32>,
    n: i32,
    sectors: furuno::command::BlindSectors,
)
    ensures
        raymarine::command::rd_messages(id, value, ranges) is Some
            || raymarine::command::quantum_messages(id, value, ranges) is Some
            || furuno::command::control_command(id, n, None, value.auto, sectors) is Some
            ==> id.destination() == ControlDestination::Command,
{
}

/// What the reports of a radar alone can change, what the server keeps itself, and what concerns targets
/// and their trails.
pub proof fn these_are_not_sent_to_the_radar(id: ControlId)
    ensures
        id.destination() == ControlDestination::ReadOnly <==> (id == ControlId::WarmupTime || id
            == ControlId::OperatingTime || id == ControlId::TransmitTime || id == ControlId::ModelName
            || id == ControlId::FirmwareVersion || id == ControlId::SerialNumber || id
            == ControlId::Spokes || id == ControlId::SpokeLength),
        id.destination() == ControlDestination::Internal <==> (id == ControlId::GuardZone1 || id
            == ControlId::GuardZone2 || id == ControlId::RangeUnits || id == ControlId::SpokeProcessing
            || id == ControlId::UserName),
        id.destination() == ControlDestination::Target <==> (id == ControlId::DopplerAutoTrack || id
            == ControlId::ClearTargets),
        id.destination() == ControlDestination::Trail <==> (id == ControlId::TargetTrails || id
            == ControlId::TrailsMotion || id == ControlId::DopplerTrailsOnly || id
            == ControlId::ClearTrails),
{
}

} // verus!

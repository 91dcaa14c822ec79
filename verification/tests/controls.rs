use mayara::brand::TargetMode;
use mayara::control::{definition_limits, find_index, find_name, to_number, Control, Limits, Mapped};
use mayara::control_id::{
    get_api_version, set_api_version, ApiVersion, Category, ControlDestination, ControlId,
};
use mayara::control_value::{
    parse_control_path, BareControlValue, ControlValue, RadarControlValue,
};
use mayara::controls::{as_whole_value, new_controls, number_to_set, Ranges, SharedControls};
use mayara::definition::{
    auto_not_adjustable, is_false, new_auto, new_button, new_list, new_map, new_numeric,
    new_sector, new_string, new_zone, ControlDataType, ControlDefinition, Rational,
};
use mayara::error::{ControlError, RadarError};
use mayara::power::Power;
use mayara::request::{
    command_done, finish_conversion, needs_persistence, process_control_update, ClientAction, HandlerAction,
    RequestNumbers, TextNumber, WirePlan,
};
use mayara::units::{Factor, Units};
use mayara::value::{Number, Value};

/// A double as the library holds it.
fn number(x: f64) -> Number {
    let magnitude: i64 = x.abs().to_bits() as i64;
    Number {
        order: if x < 0.0 { -magnitude } else { magnitude },
        integer: if x.fract() == 0.0 { Some(x as i64) } else { None },
        truncated: x as i32,
    }
}

/// A reported value of a control whose values are sent as they are.
fn mapped(x: f64, max: f64, step: f64) -> Mapped {
    let round = |x: f64| (x / step).round() * step;
    Mapped {
        value: number(x),
        rounded: number(round(x)),
        wrapped: number(x - 2.0 * max),
        wrapped_rounded: number(round(x - 2.0 * max)),
    }
}

fn controls() -> SharedControls {
    new_controls(SharedControls::empty("nav1234".to_string(), false), TargetMode::Arpa)
}

fn text(v: &Option<Value>) -> Option<&str> {
    match v {
        Some(Value::String(s)) => Some(s.as_str()),
        _ => None,
    }
}

/// Reads a request, as a client sends it.
fn read_request(json: &str) -> Option<ControlValue> {
    let parsed: serde_json::Value = serde_json::from_str(json).ok()?;
    let id = ControlId::parse_str(parsed.get("id")?.as_str()?).ok()?;
    let value = match parsed.get("value")? {
        serde_json::Value::String(s) => Value::String(s.clone()),
        serde_json::Value::Number(n) => Value::Number(Number::from_i64(n.as_i64()?)),
        _ => Value::Null,
    };
    let mut cv = ControlValue::new(id, value);
    cv.auto = parsed.get("auto").and_then(|v| v.as_bool());
    cv.enabled = parsed.get("enabled").and_then(|v| v.as_bool());
    Some(cv)
}

#[test]
fn settings_serialize_control_value() {
    let ct = ControlId::Gain;
    let cts = ct.serialize(ApiVersion::V3);
    assert_eq!(cts, "gain".to_string());
    println!("ControlId as string: {}", cts);
    match ControlId::parse_str(&cts) {
        Ok(c) => {
            assert_eq!(c, ct);
        }
        Err(e) => {
            panic!("Error {:?}", e);
        }
    }

    // With optional fields and a name
    let json = "{\"id\":\"gain\",\"value\":\"49\",\"auto\":true,\"enabled\":false}";
    let cv = read_request(json).unwrap();
    assert_eq!(cv.id, ControlId::Gain);
    assert_eq!(text(&cv.value), Some("49"));
    assert_eq!(cv.auto, Some(true));
    assert_eq!(cv.enabled, Some(false));

    // Without optional fields and with a number
    let json = "{\"id\":\"4\",\"value\":49}";
    let cv = read_request(json).unwrap();
    assert_eq!(cv.id, ControlId::Gain);
    assert!(matches!(cv.value, Some(Value::Number(n)) if n == Number::from_i64(49)));
    assert_eq!(cv.auto, None);
    assert_eq!(cv.enabled, None);

    let json = "{\"id\":\"4\",\"value\":\"49\"}";
    let cv = read_request(json).unwrap();
    assert_eq!(cv.id, ControlId::Gain);
    assert_eq!(text(&cv.value), Some("49"));
    assert_eq!(cv.auto, None);
    assert_eq!(cv.enabled, None);

    // With an illegal negative number
    let json = "{\"id\":\"-1\",\"value\":\"49\"}";
    assert!(read_request(json).is_none());
    assert!(matches!(
        ControlId::parse_str("-1"),
        Err(RadarError::InvalidControlId(m)) if m == "invalid ControlId discriminant"
    ));
}

#[test]
fn settings_control_range_values() {
    let mut controls = controls();
    let id = ControlId::TargetTrails;

    assert!(controls.set(&id, &mapped(0., 6., 1.), None).is_ok());
    assert_eq!(controls.set(&id, &mapped(6., 6., 1.), None).unwrap(), Some(()));
    assert!(controls.set(&id, &mapped(7., 6., 1.), None).is_err());
    assert!(controls.set(&id, &mapped(-1., 6., 1.), None).is_err());
    assert!(controls.set(&id, &mapped(0.3, 6., 1.), None).is_ok());

    assert!(controls
        .set_value(&id, Value::String("3".to_string()), &mapped(3., 6., 1.))
        .is_ok());
    assert_eq!(controls.get(&id).unwrap().value, Some(number(3.)));
}

#[test]
fn whole_numbers_are_ordered_like_doubles() {
    let samples: [i64; 12] = [
        0, 1, 2, 3, 7, 100, 255, 1852, 66672, 123_456_789, 2_147_483_647, 4_503_599_627_370_495,
    ];
    for n in samples {
        assert_eq!(Number::from_i64(n), number(n as f64));
        assert_eq!(Number::from_i64(-n).order, number(-(n as f64)).order);
    }
    assert_eq!(Number::from_i32(-5), number(-5.));
    assert_eq!(Number::from_i64(4_503_599_627_370_495).truncated, i32::MAX);
    assert_eq!(Number::from_i64(-4_503_599_627_370_495).truncated, i32::MIN);
    for pair in samples.windows(2) {
        assert!(Number::from_i64(pair[0]).order < Number::from_i64(pair[1]).order);
        assert!(Number::from_i64(-pair[1]).order < Number::from_i64(-pair[0]).order);
    }
}

#[test]
fn limits_are_told() {
    let mut controls = controls();
    let id = ControlId::TargetTrails;
    match controls.set(&id, &mapped(7., 6., 1.), None) {
        Err(ControlError::TooHigh(e, v, max)) => {
            assert_eq!(e, id);
            assert_eq!(v, number(7.).order);
            assert_eq!(max, number(6.).order);
        }
        r => panic!("{:?}", r),
    }
    match controls.set(&id, &mapped(-1., 6., 1.), None) {
        Err(ControlError::TooLow(e, v, min)) => {
            assert_eq!(e, id);
            assert_eq!(v, number(-1.).order);
            assert_eq!(min, number(0.).order);
        }
        r => panic!("{:?}", r),
    }
    assert_eq!(controls.get(&id).unwrap().value, Some(number(0.)));
    assert!(matches!(
        controls.set(&id, &mapped(1., 6., 1.), Some(true)),
        Err(ControlError::NoAuto(ControlId::TargetTrails))
    ));
    assert!(matches!(
        controls.set(&ControlId::Gain, &mapped(1., 6., 1.), None),
        Err(ControlError::NotSupported(ControlId::Gain))
    ));
    assert!(matches!(
        controls.set_value(&id, Value::Array, &mapped(1., 6., 1.)),
        Err(ControlError::Invalid(ControlId::TargetTrails, Value::Array))
    ));
    assert!(matches!(
        controls.set_value(&ControlId::UserName, Value::Null, &mapped(1., 6., 1.)),
        Err(ControlError::Invalid(ControlId::UserName, Value::Null))
    ));
}

#[test]
fn clients_are_told_of_changes_only() {
    let mut controls = controls();
    let id = ControlId::TargetTrails;
    assert_eq!(controls.set(&id, &mapped(2., 6., 1.), None).unwrap(), Some(()));
    assert_eq!(controls.set(&id, &mapped(2., 6., 1.), None).unwrap(), None);
    controls.set_refresh(&id);
    assert_eq!(controls.set(&id, &mapped(2., 6., 1.), None).unwrap(), Some(()));
    assert_eq!(controls.set(&id, &mapped(2., 6., 1.), None).unwrap(), None);
    assert_eq!(controls.set(&id, &mapped(3., 6., 1.), None).unwrap(), Some(()));
    // A refused value changes nothing.
    assert!(controls.set(&id, &mapped(9., 6., 1.), None).is_err());
    assert_eq!(controls.get(&id).unwrap().value, Some(number(3.)));
}

#[test]
fn mandatory_controls_are_there() {
    let all = controls();
    for id in [
        ControlId::Power,
        ControlId::Range,
        ControlId::GuardZone1,
        ControlId::GuardZone2,
        ControlId::TargetTrails,
        ControlId::TrailsMotion,
        ControlId::ClearTrails,
        ControlId::UserName,
        ControlId::ModelName,
        ControlId::SpokeProcessing,
    ] {
        assert!(all.contains_key(&id), "{:?}", id);
    }
    assert!(!all.contains_key(&ControlId::Gain));
    assert!(all.get_control_keys().contains(&ControlId::Power));
    assert_eq!(all.get_control_keys().len(), all.slots.iter().filter(|c| c.is_some()).count());
    assert_eq!(all.get_by_id("power").unwrap().item().control_id, ControlId::Power);
    assert_eq!(all.get_by_id("0").unwrap().item().control_id, ControlId::Power);
    assert!(all.get_by_id("gain").is_none());
    let none = new_controls(SharedControls::empty("x".to_string(), false), TargetMode::Off);
    assert!(!none.contains_key(&ControlId::TargetTrails));
    let replay = new_controls(SharedControls::empty("x".to_string(), true), TargetMode::Arpa);
    assert!(replay.get(&ControlId::Power).unwrap().item().is_read_only);
    assert!(!all.get(&ControlId::Power).unwrap().item().is_read_only);
}

#[test]
fn names_and_texts_are_kept() {
    let mut controls = controls();
    assert_eq!(controls.model_name(), None);
    controls.set_user_name("Mine".to_string());
    controls.set_model_name("HALO".to_string());
    assert_eq!(controls.user_name(), "Mine");
    assert_eq!(controls.model_name(), Some("HALO".to_string()));
    assert_eq!(controls.set_text(&ControlId::UserName, "Mine".to_string()).unwrap(), None);
    assert_eq!(controls.set_text(&ControlId::UserName, "Other".to_string()).unwrap(), Some(()));
    let outcome = controls
        .set_string(&ControlId::UserName, "Third".to_string(), &mapped(0., 1., 1.))
        .unwrap();
    assert!(outcome.tell);
    assert_eq!(outcome.description, Some("Third".to_string()));
    assert!(matches!(
        controls.set_text(&ControlId::Gain, "x".to_string()),
        Err(ControlError::NotSupported(ControlId::Gain))
    ));
}

#[test]
fn power_of_controls() {
    let mut controls = controls();
    assert_eq!(controls.get_status(), Some(Power::Off));
    controls.set(&ControlId::Power, &mapped(2., 3., 1.), None).unwrap();
    assert_eq!(controls.get_status(), Some(Power::Transmit));
}

#[test]
fn numbers_of_other_controls() {
    let mut controls = controls();
    assert_eq!(controls.spoke_processing(), 0);
    controls.set_spoke_processing(&mapped(1., 1., 1.));
    assert_eq!(controls.spoke_processing(), 1);
    controls.set_spoke_processing(&mapped(8., 1., 1.));
    assert_eq!(controls.spoke_processing(), 1);

    assert_eq!(controls.range_units(), controls.default_range_units);
    controls.add(new_list(ControlId::RangeUnits, &["Nautical", "Metric", "Mixed"]));
    controls.set_range_units(&mapped(2., 2., 1.));
    assert_eq!(controls.range_units(), 2);
    controls.set_range_units(&mapped(3., 2., 1.));
    assert_eq!(controls.range_units(), 2);
    assert_eq!(controls.get(&ControlId::RangeUnits).unwrap().as_u16(), Some(2));
}

#[test]
fn automatic_controls() {
    let mut controls = controls();
    controls.add(new_auto(ControlId::Gain, 0, 100, auto_not_adjustable()));
    let id = ControlId::Gain;
    assert_eq!(controls.set_value_auto(&id, true, &mapped(50., 100., 1.)).unwrap(), Some(()));
    assert_eq!(controls.get(&id).unwrap().auto, Some(true));
    assert_eq!(controls.get(&id).unwrap().value, Some(number(50.)));
    assert_eq!(controls.set_auto_state(&id, false).unwrap(), ());
    assert_eq!(controls.get(&id).unwrap().auto, Some(false));
    assert_eq!(
        controls.set_value_with_many_auto(&id, &mapped(50., 100., 1.), number(7.)).unwrap(),
        Some(())
    );
    assert_eq!(controls.get(&id).unwrap().auto_value, Some(number(7.)));
    assert_eq!(
        controls
            .set_value_auto_enabled(&id, &mapped(51., 100., 1.), Some(true), Some(true))
            .unwrap(),
        Some(())
    );
    assert_eq!(controls.get(&id).unwrap().enabled, Some(true));
    controls.set_allowed(&id, false);
    assert_eq!(controls.get(&id).unwrap().allowed, Some(false));
    assert!(matches!(
        controls.set_auto_state(&ControlId::Sea, true),
        Err(ControlError::NotSupported(ControlId::Sea))
    ));
}

#[test]
fn sectors_and_zones() {
    let mut controls = controls();
    controls.add(new_sector(ControlId::NoTransmitSector1, -180, 180));
    let id = ControlId::NoTransmitSector1;
    let (a, b) = (mapped(-20., 180., 1.), mapped(40., 180., 1.));
    assert_eq!(controls.set_sector(&id, &a, &b, Some(true)).unwrap(), Some(()));
    assert_eq!(controls.set_sector(&id, &a, &b, Some(true)).unwrap(), None);
    let c = controls.get(&id).unwrap();
    assert_eq!(c.value, Some(number(-20.)));
    assert_eq!(c.end_value, Some(number(40.)));
    assert_eq!(c.enabled, Some(true));
    assert!(matches!(
        controls.set_sector(&ControlId::TargetTrails, &a, &b, None),
        Err(ControlError::NotSupported(ControlId::TargetTrails))
    ));

    let id = ControlId::GuardZone1;
    let r = controls.set_zone(&id, number(-1.), number(1.), number(10.), number(200.), Some(true));
    assert_eq!(r.unwrap(), Some(()));
    let zone = controls.guard_zone(&id).unwrap();
    assert_eq!(zone.start_angle, number(-1.));
    assert_eq!(zone.end_distance, number(200.));
    assert!(zone.enabled);
    let again = zone;
    controls.set_guard_zone(&ControlId::GuardZone2, &again);
    let zone = controls.guard_zone(&ControlId::GuardZone2).unwrap();
    assert_eq!(zone.end_angle, number(1.));
    assert!(matches!(
        controls.set_zone(&ControlId::Power, number(0.), number(0.), number(0.), number(0.), None),
        Err(ControlError::NotSupported(ControlId::Power))
    ));
}

#[test]
fn angles_above_the_limit_wrap() {
    // A radar that counts on from 180 to 360 degrees means the other side.
    let mut controls = controls();
    let builder = new_numeric(ControlId::BearingAlignment, -180, Rational::new(180))
        .wire_offset(Rational::new(-1));
    controls.add(builder);
    let id = ControlId::BearingAlignment;
    assert_eq!(controls.set(&id, &mapped(350., 180., 1.), None).unwrap(), Some(()));
    assert_eq!(controls.get(&id).unwrap().value, Some(number(-10.)));
    assert_eq!(controls.set(&id, &mapped(10., 180., 1.), None).unwrap(), Some(()));
    assert_eq!(controls.get(&id).unwrap().value, Some(number(10.)));
}

#[test]
fn ranges_set_the_range_control() {
    let mut controls = controls();
    let named = |v: &[i32]| v.iter().map(|d| (*d, format!("{} m", d))).collect::<Vec<_>>();
    let ranges = Ranges {
        all: named(&[50, 75, 463, 926]),
        nautical: named(&[463, 926]),
        metric: named(&[50, 75]),
        mixed: named(&[50, 75, 463, 926]),
    };
    assert_eq!(ranges.len(), 4);
    controls.set_valid_ranges(ranges);
    let c = controls.get(&ControlId::Range).unwrap();
    let valid = c.item().valid_values.clone().unwrap();
    assert!(valid == vec![50, 75] || valid == vec![463, 926] || valid == vec![50, 75, 463, 926]);
    let told = controls.send_to_all_clients(&ControlId::RangeUnits);
    if let Some((cv, rcv, also_range)) = told {
        assert_eq!(cv.id, ControlId::RangeUnits);
        assert_eq!(rcv.control_id, Some(ControlId::RangeUnits));
        assert!(also_range);
    }
    let (cv, rcv, also_range) = controls.send_to_all_clients(&ControlId::Power).unwrap();
    assert_eq!(cv.id, ControlId::Power);
    assert_eq!(rcv.path, "radars.nav1234.controls.power");
    assert!(!also_range);
    assert!(controls.send_to_all_clients(&ControlId::Gain).is_none());
}

#[test]
fn wire_ranges() {
    let mut controls = controls();
    controls.add(new_numeric(ControlId::Ftc, 0, Rational::new(100)));
    let id = ControlId::Ftc;
    assert_eq!(controls.set_wire_range(&id, 0, 200).unwrap(), Some(()));
    assert_eq!(controls.set_wire_range(&id, 0, 200).unwrap(), None);
    assert_eq!(controls.set_wire_range(&id, 0, 201).unwrap(), Some(()));
    controls.set_refresh(&id);
    assert_eq!(controls.set_wire_range(&id, 0, 201).unwrap(), Some(()));

    let mut c = Control::new(new_numeric(ControlId::Gain, 0, Rational::new(100)).take().1);
    assert_eq!(c.set_wire_range(5, 255).unwrap(), Some(()));
    assert_eq!(c.item.wire_offset, Some(Rational::new(5)));
    assert_eq!(c.item.wire_scale_factor, Some(Rational::new(250)));
    assert_eq!(c.set_wire_range(5, 255).unwrap(), None);
    c.item.wire_scale_factor = Some(Rational::of(500, 2));
    assert_eq!(c.set_wire_range(5, 255).unwrap(), None);
    assert_eq!(c.set_wire_range(6, 256).unwrap(), Some(()));
    let always = new_numeric(ControlId::Gain, 0, Rational::new(100)).send_always();
    let mut c = Control::new(always.take().1);
    assert_eq!(c.set_wire_range(0, 10).unwrap(), Some(()));
    assert_eq!(c.set_wire_range(0, 10).unwrap(), Some(()));
    assert!(matches!(
        controls.set_wire_range(&ControlId::Sea, 0, 1),
        Err(ControlError::NotSupported(ControlId::Sea))
    ));
}

#[test]
fn definitions() {
    let d = ControlDefinition::new(ControlId::Gain, ControlDataType::Number);
    assert_eq!(d.id, 4);
    assert_eq!(d.name, ControlId::Gain.get_name());
    assert_eq!(d.description, ControlId::Gain.get_description());
    assert_eq!(d.category, ControlId::Gain.get_category());
    assert_eq!(d.step_value, Some(Rational::new(1)));
    assert_eq!(definition_limits(&d), Limits::Open);

    let (id, d) = new_list(ControlId::Mode, &["A", "B", "C"]).take();
    assert_eq!(id, ControlId::Mode);
    assert_eq!(d.data_type, ControlDataType::Enum);
    assert_eq!(d.max_value, Some(Rational::new(2)));
    assert_eq!(
        definition_limits(&d),
        Limits::Range { min: number(0.), max: number(2.), twice_max: number(4.) }
    );
    let c = Control::new(d);
    assert_eq!(c.enum_value_to_index("b"), Some(1));
    assert_eq!(c.enum_value_to_index("d"), None);
    assert_eq!(c.index_to_enum_value(2), Some("C".to_string()));
    assert_eq!(c.index_to_enum_value(3), None);
    for (i, label) in ["A", "B", "C"].iter().enumerate() {
        let i = i as i32;
        assert_eq!(c.enum_value_to_index(label), Some(i));
        assert_eq!(c.enum_value_to_index(&label.to_lowercase()), Some(i));
        assert_eq!(c.index_to_enum_value(i), Some(label.to_string()));
    }
    let (_, plain) = new_numeric(ControlId::Gain, 0, Rational::new(100)).take();
    let plain = Control::new(plain);
    assert_eq!(plain.enum_value_to_index("A"), None);
    assert_eq!(plain.index_to_enum_value(0), None);

    let names = vec![(5, "five".to_string()), (9, "nine".to_string())];
    assert_eq!(find_name(&names, "NINE"), Some(9));
    assert_eq!(find_index(&names, 5), Some("five".to_string()));
    let (_, d) = new_map(ControlId::Mode, names).take();
    assert_eq!(d.descriptions.unwrap()[1].0, 9);

    let (_, d) = new_string(ControlId::UserName).read_only(true).take();
    assert_eq!(d.data_type, ControlDataType::String);
    assert!(d.is_read_only);
    let (_, d) = new_button(ControlId::ClearTrails).take();
    assert_eq!(d.data_type, ControlDataType::Button);
    let (_, d) = new_zone(ControlId::GuardZone1, -180, 180, 1000).has_enabled().take();
    assert_eq!(d.data_type, ControlDataType::Zone);
    assert_eq!(d.max_distance, Some(1000));
    assert!(d.has_enabled);
    let (_, d) = new_numeric(ControlId::AntennaHeight, 0, Rational::new(99))
        .wire_scale_factor(Rational::new(1000), false)
        .wire_units(Units::Meters)
        .send_always()
        .take();
    assert!(d.is_send_always);
    assert_eq!(d.wire_units, Some(Units::Meters));
    assert_eq!(d.wire_scale_factor, Some(Rational::new(1000)));
    assert_eq!(Rational::of(1, 10).inverted(), Rational::of(10, 1));
    assert!(is_false(&false));
    assert!(!is_false(&true));
}

#[test]
fn control_names_and_numbers() {
    for n in 0..54u8 {
        let id = ControlId::try_from_u8(n).unwrap();
        assert_eq!(id.as_u8(), n);
        assert_eq!(ControlId::from_u8(n), id);
        assert_eq!(ControlId::from_name(id.to_str()), Some(id));
        assert_eq!(ControlId::parse_str(&id.serialize(ApiVersion::V1)).unwrap(), id);
        assert_eq!(ControlId::parse_str(&id.serialize(ApiVersion::V3)).unwrap(), id);
        assert!(id.get_name().len() > 0);
        assert!(id.get_description().len() > 0);
    }
    assert_eq!(ControlId::try_from_u8(54), None);
    assert_eq!(ControlId::Gain.serialize(ApiVersion::V1), "4");
    assert_eq!(ControlId::NoTransmitSector1.serialize(ApiVersion::V3), "noTransmitSector1");
    assert_eq!(ControlId::from_name("GAIN"), Some(ControlId::Gain));
    assert_eq!(ControlId::from_name("gains"), None);
    assert_eq!(ControlId::Gain.get_category(), Category::Base);
    assert_eq!(ControlId::Gain.get_destination(), ControlDestination::Command);
    assert_eq!(ControlId::UserName.get_destination(), ControlDestination::Internal);
    assert_eq!(ControlId::ClearTrails.get_destination(), ControlDestination::Trail);
    assert_eq!(ControlId::SerialNumber.get_destination(), ControlDestination::ReadOnly);
    let mut version = ApiVersion::default();
    assert_eq!(get_api_version(&version), ApiVersion::V3);
    set_api_version(&mut version, ApiVersion::V1);
    assert_eq!(get_api_version(&version), ApiVersion::V1);
    assert_eq!(get_api_version(&version), ApiVersion::V1);
    set_api_version(&mut version, ApiVersion::V3);
    assert_eq!(get_api_version(&version), ApiVersion::V3);
}

#[test]
fn values_as_other_types() {
    let cv = |v: Value| ControlValue::new(ControlId::Gain, v);
    assert_eq!(cv(Value::Number(Number::from_i64(7))).as_i64().unwrap(), 7);
    assert_eq!(cv(Value::String("-12".to_string())).as_i64().unwrap(), -12);
    assert_eq!(cv(Value::String("12".to_string())).as_i32().unwrap(), 12);
    assert!(matches!(
        cv(Value::Null).as_i64(),
        Err(RadarError::CannotSetControlId(ControlId::Gain))
    ));
    assert!(matches!(
        cv(Value::String("much".to_string())).as_i64(),
        Err(RadarError::CannotSetControlId(ControlId::Gain))
    ));
    assert!(matches!(
        cv(Value::Number(Number::from_i64(3_000_000_000))).as_i32(),
        Err(RadarError::CannotSetControlId(ControlId::Gain))
    ));
    assert_eq!(cv(Value::Bool(true)).as_i64().unwrap(), 1);
    assert!(cv(Value::Number(Number::from_i64(1))).as_bool().unwrap());
    assert!(!cv(Value::Number(Number::from_i64(0))).as_bool().unwrap());
    let mut missing = cv(Value::Null);
    missing.value = None;
    assert!(matches!(missing.as_value(), Err(RadarError::CannotSetControlId(ControlId::Gain))));
    assert!(matches!(missing.as_i64(), Err(RadarError::CannotSetControlId(ControlId::Gain))));
    assert_eq!(cv(Value::Number(number(1.5))).as_number(None).unwrap(), number(1.5));
    let s = cv(Value::String("2.5".to_string()));
    assert_eq!(s.as_number(Some(number(2.5))).unwrap(), number(2.5));
    assert!(s.as_number(None).is_err());
    let mut auto = cv(Value::Null);
    assert!(auto.auto_as_number().is_err());
    assert!(auto.end_as_number().is_err());
    auto.auto_value = Some(number(3.));
    auto.end_value = Some(number(4.));
    assert_eq!(auto.auto_as_number().unwrap(), number(3.));
    assert_eq!(auto.end_as_number().unwrap(), number(4.));
    assert_eq!(to_number(number(3.)).integer, Some(3));
    assert_eq!(to_number(number(3e10)).integer, None);
    assert_eq!(to_number(number(0.5)).integer, None);
}

#[test]
fn control_values_carry_everything() {
    let mut controls = controls();
    controls.set(&ControlId::Power, &mapped(1., 3., 1.), None).unwrap();
    let c = controls.get(&ControlId::Power).unwrap();
    let cv = ControlValue::from(c, Some("oops".to_string()));
    assert_eq!(cv.id, ControlId::Power);
    assert!(matches!(cv.value, Some(Value::Number(n)) if n.integer == Some(1)));
    assert_eq!(cv.error, Some("oops".to_string()));
    let rcv = RadarControlValue::new("nav1234", c, None);
    assert_eq!(rcv.path, "radars.nav1234.controls.power");
    assert_eq!(rcv.radar_id, Some("nav1234".to_string()));
    let bare = BareControlValue::from_radar_control_value(rcv);
    assert!(matches!(bare.value, Some(Value::Number(n)) if n.integer == Some(1)));
    let bare = BareControlValue::from_control_value(cv);
    assert_eq!(bare.error, Some("oops".to_string()));
    let again = ControlValue::from_request(ControlId::Power, bare);
    assert!(matches!(again.value, Some(Value::Number(n)) if n.integer == Some(1)));
    let error = BareControlValue::new_error("no".to_string());
    assert_eq!(error.error, Some("no".to_string()));
    assert!(error.value.is_none());
    assert_eq!(controls.get_radar_control_values().len(), controls.get_control_keys().len());
}

#[test]
fn paths_lead_back() {
    let (radar, id) = parse_control_path("radars.nav1234.controls.gain").unwrap();
    assert_eq!(radar, "nav1234");
    assert_eq!(id, ControlId::Gain);
    assert!(parse_control_path("gain").is_none());
    assert!(parse_control_path("radars.nav1234.controls.nothing").is_none());
    let controls = controls();
    let mut rcv = RadarControlValue::new("a1", controls.get(&ControlId::Power).unwrap(), None);
    rcv.radar_id = None;
    rcv.control_id = None;
    assert_eq!(rcv.parse_path(), Some("a1".to_string()));
    assert_eq!(rcv.control_id, Some(ControlId::Power));
    assert_eq!(rcv.into_control_value().id, ControlId::Power);
}

#[test]
fn values_are_normalized() {
    let (_, d) = new_list(ControlId::Mode, &["Custom", "Harbor"]).take();
    let c = Control::new(d);
    let s = |s: &str| Value::String(s.to_string());
    let r = SharedControls::normalize_value(&s("harbor"), &c, TextNumber::NotANumber).unwrap();
    assert!(matches!(r, Value::Number(n) if n == number(1.)));
    let r = SharedControls::normalize_value(&s("1"), &c, TextNumber::Finite(number(1.))).unwrap();
    assert!(matches!(r, Value::Number(n) if n == number(1.)));
    let r = SharedControls::normalize_value(&s("sea"), &c, TextNumber::NotANumber).unwrap();
    assert!(matches!(r, Value::String(t) if t == "sea"));
    assert!(matches!(
        SharedControls::normalize_value(&s("inf"), &c, TextNumber::NotFinite),
        Err(RadarError::CannotSetControlIdValue(ControlId::Mode, _))
    ));
    assert!(matches!(
        SharedControls::normalize_value(&Value::Array, &c, TextNumber::NotANumber),
        Err(RadarError::CannotSetControlIdValue(ControlId::Mode, Value::Array))
    ));
}

#[test]
fn values_are_put_into_units_of_the_radar() {
    let (_, d) = new_numeric(ControlId::AntennaHeight, 0, Rational::new(99))
        .wire_units(Units::Meters)
        .take();
    let c = Control::new(d);
    let value = || Some(Value::Number(number(2.)));
    let plan = SharedControls::convert_to_wire_number(
        Some(Units::KiloMeters),
        value(),
        &c,
        TextNumber::NotANumber,
    )
    .unwrap();
    match plan {
        WirePlan::Scale { number: n, from, units, .. } => {
            assert_eq!(n, number(2.));
            assert_eq!(from, Some(Units::KiloMeters));
            assert_eq!(units, Some(Units::Meters));
        }
        _ => panic!(),
    }
    assert!(matches!(
        SharedControls::convert_to_wire_number(
            None,
            Some(Value::String("x".to_string())),
            &c,
            TextNumber::NotANumber
        ),
        Err(RadarError::NotNumeric(ControlId::AntennaHeight, _))
    ));
    let plan = WirePlan::Scale {
        number: number(2.),
        from: Some(Units::KiloMeters),
        to: Some(Units::Meters),
        units: Some(Units::Meters),
    };
    let (units, v) = finish_conversion(plan, Some(number(2000.)), &c).unwrap();
    assert_eq!(units, Some(Units::Meters));
    assert!(matches!(v, Some(Value::Number(n)) if n == number(2000.)));
    let plan = WirePlan::Scale { number: number(2.), from: None, to: None, units: None };
    assert!(finish_conversion(plan, None, &c).is_err());
    let (_, d) = new_list(ControlId::Doppler, &["Off", "On"]).take();
    let switch = Control::new(d);
    for (on, n) in [(true, 1.), (false, 0.)] {
        let plan = SharedControls::convert_to_wire_number(
            None,
            Some(Value::Bool(on)),
            &switch,
            TextNumber::NotANumber,
        )
        .unwrap();
        match plan {
            WirePlan::Scale { number: m, from: None, to: None, units: None } => {
                assert_eq!(m, number(n))
            }
            _ => panic!(),
        }
    }
    let (_, d) = new_button(ControlId::ClearTrails).take();
    let button = Control::new(d);
    assert!(matches!(
        SharedControls::convert_to_wire_number(None, None, &button, TextNumber::NotANumber),
        Ok(WirePlan::Keep(None, None))
    ));
}

#[test]
fn empty_units_are_none() {
    let (_, d) = new_numeric(ControlId::AntennaHeight, 0, Rational::new(100))
        .wire_units(Units::Meters)
        .take();
    let c = Control::new(d);
    let plan = SharedControls::convert_to_wire_number(
        Some(Units::NoUnits),
        Some(Value::Number(number(2.))),
        &c,
        TextNumber::NotANumber,
    );
    assert!(matches!(plan, Ok(WirePlan::Scale { number: n, from: None, .. }) if n == number(2.)));
    let controls = controls();
    let ask = |id| {
        let mut cv = ControlValue::new(id, Value::Number(number(1.)));
        cv.units = Some(Units::NoUnits);
        controls.process_client_request(cv, &numbers(Some(number(2.))))
    };
    assert!(matches!(ask(ControlId::TargetTrails), Ok(ClientAction::Forward(_))));
    assert!(matches!(ask(ControlId::Gain), Err(RadarError::CannotSetControlId(ControlId::Gain))));
}

#[test]
fn values_as_numbers() {
    assert_eq!(as_whole_value(&Value::String("-12".to_string())), Some(-12));
    assert_eq!(as_whole_value(&Value::String("+7".to_string())), Some(7));
    assert_eq!(as_whole_value(&Value::String("2147483648".to_string())), None);
    assert_eq!(as_whole_value(&Value::String("1.5".to_string())), None);
    assert_eq!(as_whole_value(&Value::Bool(true)), Some(1));
    assert_eq!(as_whole_value(&Value::Bool(false)), Some(0));
    assert_eq!(as_whole_value(&Value::Number(number(3.))), None);
    assert_eq!(number_to_set(&Value::Number(number(1.5))), Some(number(1.5)));
    assert_eq!(number_to_set(&Value::String("-12".to_string())), Some(number(-12.)));
    assert_eq!(number_to_set(&Value::Bool(true)), Some(number(1.)));
    assert_eq!(number_to_set(&Value::Null), None);
}

#[test]
fn controls_are_described() {
    let all: Vec<ControlId> = (0u8..=255).filter_map(ControlId::try_from_u8).collect();
    for a in &all {
        assert!(!a.get_description().is_empty());
        for b in &all {
            assert_eq!(a == b, a.get_description() == b.get_description());
        }
    }
}

fn numbers(value: Option<Number>) -> RequestNumbers {
    RequestNumbers { parsed: TextNumber::NotANumber, value, end_value: None, auto_value: None }
}

#[test]
fn requests_are_routed() {
    let controls = controls();
    let cv = |id| ControlValue::new(id, Value::Number(number(1.)));
    let ask = |cv| controls.process_client_request(cv, &numbers(Some(number(2.))));
    match ask(cv(ControlId::TargetTrails)) {
        Ok(ClientAction::Forward(v)) => {
            assert_eq!(v.id, ControlId::TargetTrails);
            assert!(matches!(v.value, Some(Value::Number(n)) if n == number(2.)));
        }
        r => panic!("{:?}", r),
    }
    let mut zone = cv(ControlId::GuardZone1);
    zone.end_value = Some(number(7.));
    zone.end_distance = Some(number(500.));
    zone.enabled = Some(true);
    let mut all = numbers(Some(number(2.)));
    all.end_value = Some(number(8.));
    match controls.process_client_request(zone, &all) {
        Ok(ClientAction::SetZone(zone)) => {
            assert_eq!(zone.id, ControlId::GuardZone1);
            assert_eq!(zone.start_angle, number(2.));
            assert_eq!(zone.end_angle, number(8.));
            assert_eq!(zone.start_distance, number(0.));
            assert_eq!(zone.end_distance, number(500.));
            assert_eq!(zone.enabled, Some(true));
        }
        r => panic!("{:?}", r),
    }
    let name = ControlValue::new(ControlId::UserName, Value::String("Me".to_string()));
    assert!(matches!(
        ask(name),
        Ok(ClientAction::SetValue(ControlId::UserName, Value::String(s))) if s == "Me"
    ));
    let mut empty = cv(ControlId::UserName);
    empty.value = None;
    assert!(matches!(
        ask(empty),
        Err(RadarError::CannotSetControlId(ControlId::UserName))
    ));
    assert!(matches!(
        ask(cv(ControlId::ModelName)),
        Err(RadarError::CannotSetControlId(ControlId::ModelName))
    ));
    assert!(matches!(
        ask(cv(ControlId::Gain)),
        Err(RadarError::CannotSetControlId(ControlId::Gain))
    ));
    assert!(matches!(
        controls.process_client_request(cv(ControlId::TargetTrails), &numbers(None)),
        Err(RadarError::NotNumeric(ControlId::TargetTrails, _))
    ));
    assert!(matches!(
        ask(ControlValue::new(ControlId::TargetTrails, Value::Object)),
        Err(RadarError::CannotSetControlIdValue(ControlId::TargetTrails, Value::Object))
    ));
    assert!(matches!(
        ask(ControlValue::new(ControlId::TargetTrails, Value::Bool(true))),
        Ok(ClientAction::Forward(v))
            if matches!(v.value, Some(Value::Number(n)) if n == number(2.))
    ));
    assert!(matches!(
        ask(ControlValue::new(ControlId::TargetTrails, Value::Null)),
        Err(RadarError::NotNumeric(ControlId::TargetTrails, Value::Null))
    ));
    assert!(needs_persistence(ControlId::UserName));
    assert!(needs_persistence(ControlId::GuardZone2));
    assert!(!needs_persistence(ControlId::Gain));
    assert_eq!(process_control_update(&controls, ControlId::Power, true), HandlerAction::Command);
    assert_eq!(process_control_update(&controls, ControlId::Power, false), HandlerAction::Ignore);
    assert_eq!(
        process_control_update(&controls, ControlId::ClearTrails, false),
        HandlerAction::Trail
    );
}

#[test]
fn units_and_their_factors() {
    assert_eq!(Units::from_label("kn"), Some(Units::Knots));
    assert_eq!(Units::from_label("furlong"), None);
    assert_eq!(Units::NauticalMiles.as_str(), "nm");
    assert_eq!(Units::NauticalMiles.to_si(), (Units::Meters, Factor::Whole(1852)));
    assert_eq!(Units::Degrees.to_si(), (Units::Radians, Factor::Degree));
    assert_eq!(Units::Knots.to_si(), (Units::MetersPerSecond, Factor::Knot));
    assert_eq!(
        Units::RotationsPerMinute.to_si(),
        (Units::RotationsPerMinute, Factor::Rotation)
    );
    assert_eq!(Units::Hours.from_si(), Factor::Whole(3600));
    assert_eq!(Units::Minutes.from_si(), Factor::Whole(60));
    assert_eq!(Units::KiloMeters.from_si(), Factor::Whole(1000));
    assert_eq!(Units::Meters.from_si(), Factor::Whole(1));
}

#[test]
fn clients_are_told_of_all_controls() {
    let mut controls = controls();
    controls.add(new_numeric(ControlId::Gain, 0, Rational::new(100)));
    controls.set(&ControlId::Gain, &mapped(42., 100., 1.), None).unwrap();
    let values = controls.send_all_controls();
    let ids: Vec<ControlId> = values.iter().map(|cv| cv.id).collect();
    assert_eq!(ids, controls.get_control_keys());
    let gain = values.iter().find(|cv| cv.id == ControlId::Gain).unwrap();
    assert!(matches!(gain.value, Some(Value::Number(n)) if n == number(42.)));
    assert!(values.iter().all(|cv| cv.error.is_none()));
}

#[test]
fn clients_are_told_of_failed_commands() {
    let mut controls = controls();
    controls.add(new_numeric(ControlId::Gain, 0, Rational::new(100)));
    controls.set(&ControlId::Gain, &mapped(42., 100., 1.), None).unwrap();

    let failed = command_done(&mut controls, ControlId::Gain, Some("Not connected".to_string()));
    let cv = failed.unwrap().unwrap();
    assert_eq!(cv.id, ControlId::Gain);
    assert_eq!(cv.error, Some("Not connected".to_string()));
    assert!(matches!(cv.value, Some(Value::Number(n)) if n == number(42.)));
    assert!(!controls.get(&ControlId::Gain).unwrap().needs_refresh);

    assert!(command_done(&mut controls, ControlId::Gain, None).unwrap().is_none());
    assert!(controls.get(&ControlId::Gain).unwrap().needs_refresh);
    // The same value is passed on again, but only once.
    let again = mapped(42., 100., 1.);
    assert_eq!(controls.set(&ControlId::Gain, &again, None).unwrap(), Some(()));
    assert_eq!(controls.set(&ControlId::Gain, &again, None).unwrap(), None);

    assert!(matches!(
        controls.send_error_to_client(ControlId::Sea, "No".to_string()),
        Err(RadarError::CannotSetControlId(ControlId::Sea))
    ));
    assert!(controls.set_valid_values(&ControlId::Gain, vec![10, 20]).is_ok());
    assert_eq!(controls.get(&ControlId::Gain).unwrap().item().valid_values, Some(vec![10, 20]));
    assert!(matches!(
        controls.set_valid_values(&ControlId::Sea, vec![1]),
        Err(ControlError::NotSupported(ControlId::Sea))
    ));
}

use mayara::brand::{Brand, TargetMode};
use mayara::config::{Config, Persistence};
use mayara::control_id::{ApiVersion, ControlId};
use mayara::control_value::{BareControlValue, ControlValue, RadarControlValue};
use mayara::controls::Ranges;
use mayara::error::RadarError;
use mayara::metadata::SentMetadata;
use mayara::navico::settings;
use mayara::network::Endpoint;
use mayara::radar::{RadarInfo, SharedRadars};
use mayara::request::{ClientAction, RequestNumbers, TextNumber};
use mayara::stream::{
    control_stream, handle_control_request, retain_subscribed, sends_cached_values,
    ws_signalk_delta, ControlAction, ControlEvent, SignalKDelta, StreamAction, StreamEvent,
};
use mayara::subscription::{
    extract_path, parse_send_cached_values, parse_subscribe, ActiveSubscriptions, PathSubscribe,
    Policy, Subscribe,
};
use mayara::value::{Number, Value};
use mayara::web::{
    answer_reply, endpoints, get_control_value, radar_api, radar_api_v1, set_control_value,
    target_host, unknown_cached_message, unknown_control_message, unknown_subscribe_message,
    with_port, Capabilities, SetControl,
};

fn path(path: &str) -> PathSubscribe {
    PathSubscribe {
        path: path.to_string(),
        period: None,
        policy: None,
        min_period: None,
        last_sent: None,
    }
}

/// Reads a list of subscriptions, as a client sends it.
fn read_subscription(json: &str) -> Option<Vec<PathSubscribe>> {
    let parsed: serde_json::Value = serde_json::from_str(json).ok()?;
    let mut paths = Vec::new();
    for item in parsed.get("subscribe")?.as_array()? {
        let policy = match item.get("policy") {
            Some(serde_json::Value::String(s)) => Some(Policy::parse(s)?),
            _ => None,
        };
        paths.push(PathSubscribe {
            path: item.get("path")?.as_str()?.to_string(),
            period: item.get("period").and_then(|v| v.as_u64()),
            policy,
            min_period: item.get("minPeriod").and_then(|v| v.as_u64()),
            last_sent: None,
        });
    }
    Some(paths)
}

fn write_subscription(paths: &[PathSubscribe]) -> String {
    let mut items = Vec::new();
    for p in paths {
        let mut item = serde_json::Map::new();
        item.insert("path".to_string(), serde_json::Value::from(p.path.clone()));
        item.insert("period".to_string(), serde_json::Value::from(p.period));
        item.insert("policy".to_string(), serde_json::Value::from(p.policy.map(|p| p.to_str())));
        item.insert("minPeriod".to_string(), serde_json::Value::from(p.min_period));
        items.push(serde_json::Value::Object(item));
    }
    let mut all = serde_json::Map::new();
    all.insert("subscribe".to_string(), serde_json::Value::Array(items));
    serde_json::Value::Object(all).to_string()
}

#[test]
fn deserialize_subscription() {
    let s = vec![
        PathSubscribe {
            path: "radars.1.gain".to_string(),
            period: None,
            policy: Some(Policy::Ideal),
            min_period: Some(50),
            last_sent: None,
        },
        PathSubscribe {
            path: "radars.2.gain".to_string(),
            period: Some(1000),
            policy: Some(Policy::Instant),
            min_period: None,
            last_sent: None,
        },
    ];
    let r = write_subscription(&s);
    println!("r = {}", r);
    let r = read_subscription(&r).unwrap();
    assert_eq!(r.len(), 2);
    assert_eq!(r[0].path, "radars.1.gain");
    assert_eq!(r[0].policy, Some(Policy::Ideal));

    let s = "{\"subscribe\":[{\"path\":\"radars.1.gain\",\"period\":null,\"policy\":\"ideal\",\"min_period\":null}]}";
    let r = read_subscription(s).unwrap();
    assert_eq!(r.len(), 1);
    assert_eq!(r[0].path, "radars.1.gain");
    assert_eq!(r[0].policy, Some(Policy::Ideal));

    let s = "{ \"subscribe\": [ { \"path\": \"*.gain\" } ] }";
    let r = read_subscription(s).unwrap();
    assert_eq!(r.len(), 1);
    assert_eq!(r[0].path, "*.gain");
    assert_eq!(r[0].policy, None);

    let s = "{ \"subscribe\": [ { \"path\": \"*\" } ] }";
    let r = read_subscription(s).unwrap();
    assert_eq!(r.len(), 1);
    assert_eq!(r[0].path, "*");

    let s = "{ \"subscribe\": [ { \"path\": \"radars.*.gain\" }, { \"path\": \"radars.*.power\" } ] }";
    let r = read_subscription(s).unwrap();
    assert_eq!(r.len(), 2);
    assert_eq!(r[0].path, "radars.*.gain");
    assert_eq!(r[1].path, "radars.*.power");

    let s = "{ \"subscribe\": [ { \"path\": \"radars.*.gain\", \"policy\": \"instant\", \"period\": 1000 }, { \"path\": \"radars.*.power\", \"period\": 1000 } ] }";
    let r = read_subscription(s).unwrap();
    assert_eq!(r.len(), 2);
    assert_eq!(r[0].path, "radars.*.gain");
    assert_eq!(r[0].policy, Some(Policy::Instant));
}

#[test]
fn policies_by_name() {
    assert_eq!(Policy::parse("instant"), Some(Policy::Instant));
    assert_eq!(Policy::parse("ideal"), Some(Policy::Ideal));
    assert_eq!(Policy::parse("fixed"), Some(Policy::Fixed));
    assert_eq!(Policy::parse("never"), None);
    assert_eq!(Policy::Fixed.to_str(), "fixed");
}

#[test]
fn stream_parameters() {
    assert_eq!(parse_subscribe(None), Some(Subscribe::All));
    assert_eq!(parse_subscribe(Some("self")), Some(Subscribe::All));
    assert_eq!(parse_subscribe(Some("all")), Some(Subscribe::All));
    assert_eq!(parse_subscribe(Some("none")), Some(Subscribe::Nothing));
    assert_eq!(parse_subscribe(Some("some")), None);
    assert_eq!(parse_send_cached_values(None), Some(true));
    assert_eq!(parse_send_cached_values(Some("false")), Some(false));
    assert_eq!(parse_send_cached_values(Some("true")), Some(true));
    assert_eq!(parse_send_cached_values(Some("maybe")), None);
    assert!(sends_cached_values(Subscribe::All, true));
    assert!(!sends_cached_values(Subscribe::All, false));
    assert!(!sends_cached_values(Subscribe::Nothing, true));
}

#[test]
fn paths_are_taken_apart() {
    let parts = |p: &str| {
        let (radar, control) = extract_path(p);
        (radar, control.into_iter().collect::<String>())
    };
    assert_eq!(parts("radars.1.gain"), ("1".to_string(), "gain".to_string()));
    assert_eq!(parts("radars.1.controls.gain"), ("1".to_string(), "gain".to_string()));
    assert_eq!(parts("*.gain"), ("*".to_string(), "gain".to_string()));
    assert_eq!(parts("gain"), ("*".to_string(), "gain".to_string()));
    assert_eq!(parts("*"), ("*".to_string(), "*".to_string()));
}

#[test]
fn everything_or_nothing() {
    let mut all = ActiveSubscriptions::new(Subscribe::All);
    assert!(all.is_subscribed("1", ControlId::Gain, false, 0));
    assert!(all.is_subscribed("2", ControlId::Power, true, 0));
    let mut nothing = ActiveSubscriptions::new(Subscribe::Nothing);
    assert!(!nothing.is_subscribed("1", ControlId::Gain, false, 0));
    assert!(!nothing.is_subscribed("1", ControlId::Gain, true, 0));
}

#[test]
fn subscribed_paths_are_sent() {
    let mut s = ActiveSubscriptions::new(Subscribe::Nothing);
    s.subscribe(vec![path("radars.1.gain"), path("radars.2.controls.no*")]);
    assert!(s.is_subscribed("1", ControlId::Gain, false, 0));
    assert!(!s.is_subscribed("2", ControlId::Gain, false, 0));
    assert!(!s.is_subscribed("1", ControlId::Sea, false, 0));
    assert!(s.is_subscribed("2", ControlId::NoiseRejection, false, 0));
    assert!(s.is_subscribed("2", ControlId::NoTransmitSector1, false, 0));
    assert!(!s.is_subscribed("2", ControlId::Power, false, 0));

    let mut s = ActiveSubscriptions::new(Subscribe::Nothing);
    s.subscribe(vec![path("*.gain")]);
    assert!(s.is_subscribed("any", ControlId::Gain, false, 0));
    assert!(!s.is_subscribed("any", ControlId::Sea, false, 0));

    let mut s = ActiveSubscriptions::new(Subscribe::Nothing);
    s.subscribe(vec![path("*")]);
    assert!(s.is_subscribed("any", ControlId::Sea, false, 0));
}

#[test]
fn desubscribed_paths_are_not_sent() {
    let mut s = ActiveSubscriptions::new(Subscribe::Nothing);
    s.subscribe(vec![path("radars.1.gain"), path("radars.1.sea")]);
    s.desubscribe(vec![path("radars.1.gain")]);
    assert!(!s.is_subscribed("1", ControlId::Gain, false, 0));
    assert!(s.is_subscribed("1", ControlId::Sea, false, 0));
    s.desubscribe(vec![path("radars.1.*")]);
    assert!(!s.is_subscribed("1", ControlId::Sea, false, 0));

    // The path to all radars stays until it is taken back as well.
    let mut s = ActiveSubscriptions::new(Subscribe::Nothing);
    s.subscribe(vec![path("radars.1.gain"), path("*.gain"), path("*.sea")]);
    s.desubscribe(vec![path("radars.1.gain")]);
    assert!(s.is_subscribed("1", ControlId::Gain, false, 0));
    s.desubscribe(vec![path("*.gain")]);
    assert!(!s.is_subscribed("1", ControlId::Gain, false, 0));
    assert!(s.is_subscribed("1", ControlId::Sea, false, 0));
}

#[test]
fn values_are_not_sent_too_soon() {
    let mut s = ActiveSubscriptions::new(Subscribe::Nothing);
    let mut p = path("radars.1.gain");
    p.min_period = Some(50);
    s.subscribe(vec![p]);
    assert!(s.is_subscribed("1", ControlId::Gain, false, 1000));
    assert!(!s.is_subscribed("1", ControlId::Gain, false, 1020));
    assert!(!s.is_subscribed("1", ControlId::Gain, true, 1049));
    assert!(s.is_subscribed("1", ControlId::Gain, false, 1050));
}

#[test]
fn fixed_values_are_sent_by_the_clock() {
    let mut s = ActiveSubscriptions::new(Subscribe::Nothing);
    let mut p = path("radars.1.gain");
    p.policy = Some(Policy::Fixed);
    p.period = Some(1000);
    s.subscribe(vec![p]);
    assert_eq!(s.timeout, 1000);
    assert!(!s.is_subscribed("1", ControlId::Gain, false, 5000));
    assert!(s.is_subscribed("1", ControlId::Gain, true, 5000));
    assert!(!s.is_subscribed("1", ControlId::Gain, true, 5999));
    assert!(s.is_subscribed("1", ControlId::Gain, true, 6000));
    s.set_timeout(2000);
    assert_eq!(s.timeout, 1000);
    s.set_timeout(200);
    assert_eq!(s.timeout, 200);
}

fn radar(serial: &str, id: usize) -> RadarInfo {
    let controls =
        settings::new(TargetMode::Arpa, false, format!("nav{}", serial), Some("HALO"));
    let mut info = RadarInfo::new(
        TargetMode::Arpa,
        false,
        Brand::Navico,
        Some(serial),
        Some("A"),
        16,
        2048,
        1024,
        Endpoint::new(10, 0, 0, 1, 80),
        Endpoint::new(10, 0, 0, 2, 0).ip,
        Endpoint::new(236, 6, 7, 8, 6678),
        Endpoint::new(236, 6, 7, 9, 6679),
        Endpoint::new(236, 6, 7, 10, 6680),
        controls,
        true,
        10_000,
    );
    info.id = id;
    info.name_by_key();
    info
}

fn radars() -> SharedRadars {
    let mut radars = SharedRadars::new(Persistence { config: Config::new() });
    assert_eq!(radars.located(radar("1234567890", usize::MAX), Ranges::empty()), Some(0));
    radars
}

const KEY: &str = "Navico-1234567890-A";

fn numbers() -> RequestNumbers {
    RequestNumbers {
        parsed: TextNumber::NotANumber,
        value: Some(Number::from_i64(1)),
        end_value: None,
        auto_value: None,
    }
}

fn request(path: &str) -> RadarControlValue {
    RadarControlValue {
        radar_id: None,
        control_id: None,
        path: path.to_string(),
        value: Some(Value::Number(Number::from_i64(1))),
        units: None,
        auto: None,
        auto_value: None,
        end_value: None,
        start_distance: None,
        end_distance: None,
        enabled: None,
        allowed: None,
        error: None,
    }
}

#[test]
fn requests_over_the_stream() {
    let radars = radars();
    let handle = |path: &str| handle_control_request(&radars, request(path), &numbers());
    let r = handle(&format!("radars.{}.controls.gain", KEY));
    match r {
        Ok(request) => {
            assert_eq!(request.radar, 0);
            assert!(!request.save);
            assert!(matches!(request.action, ClientAction::Forward(cv) if cv.id == ControlId::Gain));
        }
        Err(e) => panic!("{:?}", e),
    }
    let r = handle(&format!("radars.{}.controls.userName", KEY));
    assert!(r.unwrap().save);
    let r = handle("radars.other.controls.gain");
    assert!(matches!(r, Err(RadarError::NoSuchRadar(s)) if s == "other"));
    let r = handle("nonsense");
    assert!(matches!(r, Err(RadarError::CannotParseControlId(s)) if s == "nonsense"));
    let r =
        handle(&format!("radars.{}.controls.modelName", KEY));
    assert!(matches!(r, Err(RadarError::CannotSetControlId(ControlId::ModelName))));
}

#[test]
fn steps_of_a_stream() {
    let mut s = ActiveSubscriptions::new(Subscribe::Nothing);
    let changed = || {
        let mut rcv = request("radars.1.controls.gain");
        rcv.radar_id = Some("1".to_string());
        rcv.control_id = Some(ControlId::Gain);
        rcv
    };
    let mut sent = SentMetadata::new();
    let mut step = |event| ws_signalk_delta(&mut s, &mut sent, event, 0);
    assert!(matches!(step(StreamEvent::Changed(changed())), StreamAction::Wait));
    let wanted = vec![path("radars.1.gain")];
    assert!(matches!(step(StreamEvent::Subscription(wanted)), StreamAction::SendSubscribed));
    match step(StreamEvent::Changed(changed())) {
        StreamAction::SendChange(rcv, meta) => {
            assert_eq!(rcv.control_id, Some(ControlId::Gain));
            assert_eq!(meta.len(), 1);
            assert_eq!(meta[0].control_id, ControlId::Gain);
            assert_eq!(meta[0].path, "radars.1.controls.gain");
        }
        action => panic!("{:?}", action),
    }
    assert!(matches!(
        step(StreamEvent::Changed(changed())),
        StreamAction::SendChange(_, meta) if meta.is_empty()
    ));
    // The ranges are described again when the unit system changes, subscribed or not.
    for _ in 0..2 {
        let mut units = request("radars.1.controls.rangeUnits");
        units.radar_id = Some("1".to_string());
        units.control_id = Some(ControlId::RangeUnits);
        match step(StreamEvent::Changed(units)) {
            StreamAction::SendMetadata(meta) => {
                assert_eq!(meta.len(), 1);
                assert_eq!(meta[0].path, "radars.1.controls.range");
            }
            action => panic!("{:?}", action),
        }
    }
    let unwanted = vec![path("radars.1.gain")];
    assert!(matches!(step(StreamEvent::Desubscription(unwanted)), StreamAction::Wait));
    assert!(matches!(step(StreamEvent::Changed(changed())), StreamAction::Wait));
    let cv = ControlValue::new(ControlId::Sea, Value::Null);
    assert!(matches!(
        step(StreamEvent::Reply(cv)),
        StreamAction::SendReply(cv) if cv.id == ControlId::Sea
    ));
    assert!(matches!(step(StreamEvent::Request(changed())), StreamAction::Handle(_)));
    assert!(matches!(step(StreamEvent::Noise), StreamAction::Wait));
    assert!(matches!(step(StreamEvent::Timeout), StreamAction::SendSubscribed));
    assert!(matches!(step(StreamEvent::Shutdown), StreamAction::Finish));
    assert!(matches!(step(StreamEvent::Closed), StreamAction::Finish));
    assert!(matches!(step(StreamEvent::ChangesClosed), StreamAction::Finish));
    assert!(matches!(
        step(StreamEvent::ReplyClosed),
        StreamAction::Fail(RadarError::NotConnected)
    ));
    assert!(matches!(step(StreamEvent::ReadFailed { reset: true }), StreamAction::Finish));
    assert!(matches!(
        step(StreamEvent::ReadFailed { reset: false }),
        StreamAction::Fail(RadarError::Io)
    ));
}

#[test]
fn new_clients_get_all_descriptions_once() {
    let mut radars = radars();
    let mut sent = SentMetadata::new();
    // A radar without ranges cannot be used yet.
    assert!(sent.add_meta_updates(&radars)[0].is_empty());
    radars.info[0].set_ranges(Ranges::new_by_distance(&vec![100, 1852]));
    let keys = radars.info[0].controls.get_control_keys();
    let meta = sent.add_meta_updates(&radars);
    assert_eq!(meta.len(), 1);
    let ids: Vec<ControlId> = meta[0].iter().map(|m| m.control_id).collect();
    assert_eq!(ids, keys);
    let radar_id = radars.info[0].controls.radar_id.clone();
    assert!(meta[0].iter().all(|m| m.radar_id == radar_id));
    assert!(sent.contains(&radar_id, ControlId::Gain));
    assert!(!sent.contains("other", ControlId::Gain));
    assert!(sent.add_meta_updates(&radars)[0].is_empty());
}

#[test]
fn steps_of_a_control_stream() {
    let cv = || ControlValue::new(ControlId::Gain, Value::Null);
    assert!(matches!(
        control_stream(ControlEvent::Value(cv()), ApiVersion::V1),
        ControlAction::Send(_, ApiVersion::V1)
    ));
    assert!(matches!(
        control_stream(ControlEvent::Request(cv()), ApiVersion::V3),
        ControlAction::Handle(_)
    ));
    assert!(matches!(control_stream(ControlEvent::Noise, ApiVersion::V3), ControlAction::Wait));
    for event in [ControlEvent::Shutdown, ControlEvent::ValuesClosed, ControlEvent::Closed] {
        assert!(matches!(control_stream(event, ApiVersion::V3), ControlAction::Finish));
    }
}

#[test]
fn deltas_hold_the_values() {
    let radars = radars();
    let mut s = ActiveSubscriptions::new(Subscribe::Nothing);
    s.subscribe(vec![path("*.gain"), path("*.userName")]);
    let all = radars.info[0].controls.get_radar_control_values();
    let some = retain_subscribed(&mut s, all, 0);
    assert_eq!(some.len(), 2);
    let delta = SignalKDelta::from(some).unwrap();
    assert_eq!(delta.context, "self");
    assert_eq!(delta.src, "mayara");
    assert_eq!(delta.source_type, "radar");
    assert_eq!(delta.label, "nav1234567890");
    assert_eq!(delta.values.len(), 2);
    assert!(delta.values[0].path.ends_with(".controls.gain"));
    assert!(matches!(&delta.values[1].value, Some(Value::String(s)) if s == KEY));
    assert!(SignalKDelta::from(Vec::new()).is_none());
}

#[test]
fn hosts_of_requests() {
    assert_eq!(with_port(Some("radar.local"), 6502), "radar.local:6502");
    assert_eq!(with_port(None, 6502), "localhost:6502");
    assert_eq!(target_host(Some("radar.local:8080"), 6502), "radar.local:6502");
    assert_eq!(target_host(Some("192.168.1.2"), 80), "192.168.1.2:80");
    assert_eq!(target_host(Some("http://boat.example/x"), 80), "boat.example:80");
    assert_eq!(target_host(Some("/nothing"), 80), "localhost:80");
    assert_eq!(target_host(None, 6502), "localhost:6502");
}

#[test]
fn endpoints_of_the_interface() {
    let e = endpoints("h:1");
    assert_eq!(e[0].http, "http://h:1/v1/api/");
    assert_eq!(e[0].ws, "ws://h:1/v1/api/stream");
    assert_eq!(e[1].name, "v3");
    assert_eq!(e[1].version, "3.0.0");
    assert_eq!(e[1].http, "http://h:1/v3/api/");
}

#[test]
fn radars_as_clients_see_them() {
    let radars = radars();
    let info = &radars.info[0];
    let api = radar_api(info, "h:1");
    assert_eq!(api.name, KEY);
    assert_eq!(api.brand, "Navico");
    assert_eq!(api.model, Some("HALO".to_string()));
    assert_eq!(api.radar_ip_address, "10.0.0.1");
    assert_eq!(api.stream_url, "ws://h:1/signalk/v1/stream");
    assert_eq!(
        api.spoke_data_url,
        format!("ws://h:1/signalk/v2/api/vessels/self/radars/{}/spokes", KEY)
    );
    let api = radar_api_v1(info, "h:1");
    assert_eq!(api.id, format!("radar-{}", info.id));
    assert_eq!(api.spokes_per_revolution, 2048);
    assert_eq!(api.max_spoke_len, 1024);
    assert_eq!(api.stream_url, format!("ws://h:1/v1/api/spokes/radar-{}", info.id));
    assert_eq!(api.control_url, format!("ws://h:1/v1/api/control/radar-{}", info.id));
    let mut wide = radar("1", 1);
    wide.ranges = Ranges {
        all: vec![(50, "50 m".to_string()), (100, "100 m".to_string())],
        nautical: Vec::new(),
        metric: Vec::new(),
        mixed: Vec::new(),
    };
    let c = Capabilities::new(&wide);
    assert_eq!(c.min_range, 50);
    assert_eq!(c.max_range, 100);
    assert_eq!(c.supported_ranges, vec![50, 100]);
    assert!(c.has_doppler);
    assert!(c.has_dual_radar);
    assert!(!c.has_dual_range);
    assert_eq!(c.pixel_values, 16);
    let c = Capabilities::new(&radars.info[0]);
    assert_eq!((c.min_range, c.max_range), (0, 0));
}

#[test]
fn answers_to_requests() {
    let radars = radars();
    let bare = || {
        let mut b = BareControlValue::new_error(String::new());
        b.error = None;
        b.value = Some(Value::Number(Number::from_i64(1)));
        b
    };
    match set_control_value(&radars, KEY, "gain", bare(), &numbers()) {
        SetControl::Accepted(at, ClientAction::Forward(cv), save) => {
            assert_eq!(at, 0);
            assert_eq!(cv.id, ControlId::Gain);
            assert!(!save);
        }
        r => panic!("{:?}", r),
    }
    match set_control_value(&radars, "nobody", "gain", bare(), &numbers()) {
        SetControl::Answered(a) => {
            assert_eq!(a.status, 404);
            assert_eq!(a.message, "No such radar with key 'nobody'");
        }
        r => panic!("{:?}", r),
    }
    match set_control_value(&radars, KEY, "warp", bare(), &numbers()) {
        SetControl::Answered(a) => {
            assert_eq!(a.status, 400);
            assert!(a.message.starts_with("Unknown control 'warp' -- use [\"power\", "));
            assert!(a.message.ends_with("\"] instead"));
        }
        r => panic!("{:?}", r),
    }
    match set_control_value(&radars, KEY, "modelName", bare(), &numbers()) {
        SetControl::Answered(a) => {
            assert_eq!(a.status, 400);
            assert_eq!(a.message, "Cannot set value for control 'modelName'");
        }
        r => panic!("{:?}", r),
    }
    let mut none = numbers();
    none.value = None;
    assert!(matches!(
        set_control_value(&radars, KEY, "gain", bare(), &none),
        SetControl::Refused(RadarError::NotNumeric(ControlId::Gain, _))
    ));
    let v = get_control_value(&radars, KEY, "userName").unwrap();
    assert!(matches!(v.value, Some(Value::String(s)) if s == KEY));
    assert_eq!(get_control_value(&radars, "x", "gain").unwrap_err().status, 404);
    assert_eq!(get_control_value(&radars, KEY, "warp").unwrap_err().status, 400);
    assert_eq!(answer_reply(None).status, 200);
    let a = answer_reply(Some("no".to_string()));
    assert_eq!((a.status, a.message.as_str()), (400, "no"));
    assert_eq!(
        unknown_control_message("x", &vec![ControlId::Gain, ControlId::Sea]),
        "Unknown control 'x' -- use [\"gain\", \"sea\"] instead"
    );
    assert_eq!(
        unknown_subscribe_message("x"),
        "Unknown subscribe value 'x' -- use 'none', 'self' or 'all' instead"
    );
    assert_eq!(
        unknown_cached_message("x"),
        "Unknown sendCachedValues value 'x' -- use 'false' or 'true' instead"
    );
}

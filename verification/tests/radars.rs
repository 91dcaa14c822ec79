use mayara::brand::{create_brand_listeners, Brand, LocatorId, TargetMode};
use mayara::cartesian::{PointInt, PolarToCartesianLookup};
use mayara::config::{Config, Persistence, Radar};
use mayara::control::Mapped;
use mayara::controls::Ranges;
use mayara::error::RadarError;
use mayara::legend::{default_legend, Color, PixelType};
use mayara::navico::settings;
use mayara::network::{
    format_ipv4, listen_binding, make_ipv4, match_ipv4, read_little_endian_endpoint,
    read_network_endpoint, set_replay, Binding, Endpoint, InterfaceId, LittleEndianSocketAddrV4,
    NetworkSocketAddrV4, ReplayMode,
};
use mayara::power::{DopplerMode, Power};
use mayara::radar::{rotation_speed, RadarInfo, SharedRadars, Statistics};
use mayara::spoke::to_protobuf_spoke;
use mayara::text::{
    c_string, eq_ignore_case, format_decimal, padded_text, parse_hex_u8, parse_integer,
    parse_natural, push_hex_byte, split_text, wide_text,
};
use mayara::value::{Number, Value};
use mayara::wire::{
    push_u16_le, push_u32_le, read_i16_le, read_i32_le, read_i8, read_u16_be, read_u16_le,
    read_u32_le,
};

#[test]
fn legend() {
    let targets = TargetMode::Arpa;
    let legend = default_legend(&targets, true, 16);
    let mut json = serde_json::Map::new();
    for entry in legend.serialize() {
        let mut value = serde_json::Map::new();
        value.insert("type".to_string(), serde_json::Value::from(entry.kind));
        value.insert("color".to_string(), serde_json::Value::from(entry.color));
        json.insert(entry.key, serde_json::Value::Object(value));
    }
    println!("{}", serde_json::to_string_pretty(&json).unwrap());
    assert_eq!(json.len(), legend.pixels.len());
}

#[test]
fn legend_colours() {
    let legend = default_legend(&TargetMode::Arpa, true, 16);
    assert_eq!(legend.pixels.len(), 17 + 1 + 2 + 32);
    assert_eq!(legend.target_colors, 16);
    assert_eq!(legend.border, 17);
    assert_eq!(legend.doppler_approaching, 18);
    assert_eq!(legend.doppler_receding, 19);
    assert_eq!(legend.history_start, 20);
    assert_eq!(legend.pixels[0].color, Color { r: 0, g: 0, b: 0, a: 0 });
    assert_eq!(legend.pixels[17].kind, PixelType::TargetBorder);
    assert_eq!(legend.pixels[18].kind, PixelType::DopplerApproaching);
    assert_eq!(legend.pixels[19].kind, PixelType::DopplerReceding);
    assert_eq!(legend.pixels[20].kind, PixelType::History);
    assert!(legend.pixels[1..].iter().all(|p| p.color.a == 255));
    let entries = legend.serialize();
    assert_eq!(entries[0].key, "0");
    assert_eq!(entries[0].kind, "Normal");
    assert_eq!(entries[0].color, "#00000000");
    assert_eq!(entries[18].kind, "DopplerApproaching");
    assert_eq!(entries[18].color, "#ff00ffff");
    // Fifteen values have a colour: blue peaks at a third, green at two thirds, red at the end.
    assert_eq!(legend.strong_return, 10);
    assert_eq!(entries[1].color, "#000033ff");
    assert_eq!(entries[5].color, "#0000ffff");
    assert_eq!(entries[6].color, "#0033ccff");
    assert_eq!(entries[10].color, "#00ff00ff");
    assert_eq!(entries[15].color, "#ff0000ff");
    assert_eq!(entries[16].color, "#000000ff");
    assert_eq!(entries[20].color, "#ffffffff");
    assert_eq!(entries[21].color, "#f9f9f9ff");
    assert_eq!(Color { r: 0, g: 200, b: 15, a: 255 }.to_text(), "#00c80fff");
    let plain = default_legend(&TargetMode::Off, false, 16);
    assert_eq!(plain.pixels.len(), 17);
    assert_eq!(plain.border, 0);
    assert_eq!(plain.history_start, 0);
    assert_eq!(plain.doppler_approaching, 0);
    let copy = legend.copy();
    assert_eq!(copy.pixels, legend.pixels);
}

fn radar_at(serial: Option<&str>, which: Option<&str>, last: u8) -> RadarInfo {
    let controls = settings::new(TargetMode::Arpa, false, "nav1".to_string(), None);
    let mut info = RadarInfo::new(
        TargetMode::Arpa,
        false,
        Brand::Navico,
        serial,
        which,
        16,
        2048,
        1024,
        Endpoint::new(10, 0, 0, last, 80),
        make_ipv4(10, 0, 0, 2),
        Endpoint::new(236, 6, 7, 8, 6678),
        Endpoint::new(236, 6, 7, 9, 6679),
        Endpoint::new(236, 6, 7, 10, 6680),
        controls,
        false,
        10_000,
    );
    info.name_by_key();
    info
}

fn ranges() -> Ranges {
    let named = vec![(50, "50 m".to_string()), (75, "75 m".to_string())];
    Ranges {
        all: named.clone(),
        nautical: Vec::new(),
        metric: named.clone(),
        mixed: named,
    }
}

fn empty() -> SharedRadars {
    SharedRadars::new(Persistence { config: Config::new() })
}

#[test]
fn keys_and_texts() {
    assert_eq!(radar_at(Some("77"), Some("B"), 1).key(), "Navico-77-B");
    assert_eq!(radar_at(None, None, 1).key(), "Navico-10.0.0.1:80");
    let mut info = radar_at(Some("77"), Some("B"), 1);
    info.id = 3;
    assert_eq!(
        info.to_text(),
        "Radar 3 brand Navico B [77] at 10.0.0.1 via 10.0.0.2 data 236.6.7.8:6678 report 236.6.7.9:6679 send 236.6.7.10:6680"
    );
    let mut info = radar_at(None, None, 1);
    info.id = 4;
    assert_eq!(
        info.to_text(),
        "Radar 4 brand Navico at 10.0.0.1 via 10.0.0.2 data 236.6.7.8:6678 report 236.6.7.9:6679 send 236.6.7.10:6680"
    );
    assert_eq!(info.rotation_timestamp, 8_000);
    assert_eq!(info.controls.user_name(), "Navico-10.0.0.1:80");
}

#[test]
fn radars_are_located_once() {
    let mut radars = empty();
    assert_eq!(radars.located(radar_at(Some("77"), None, 1), Ranges::empty()), Some(0));
    assert_eq!(radars.located(radar_at(Some("77"), None, 1), Ranges::empty()), None);
    assert_eq!(radars.located(radar_at(Some("78"), None, 2), Ranges::empty()), Some(1));
    assert_eq!(radars.info.len(), 2);
    assert_ne!(radars.info[0].id, radars.info[1].id);
    assert_eq!(radars.find("Navico-78"), Some(1));
    assert_eq!(radars.find("Navico-79"), None);
    assert!(radars.get_by_key("Navico-77").is_some());
    let id = format!("radar-{}", radars.info[1].id);
    assert_eq!(radars.get_by_id(&id).unwrap().key, "Navico-78");
    assert!(radars.get_by_id("radar-99").is_none());
    assert!(radars.is_active_radar(&Brand::Navico, make_ipv4(10, 0, 0, 2)));
    assert!(!radars.is_active_radar(&Brand::Furuno, make_ipv4(10, 0, 0, 2)));
    assert!(!radars.is_active_radar(&Brand::Navico, make_ipv4(10, 0, 0, 9)));
    radars.remove("Navico-77");
    assert_eq!(radars.info.len(), 1);
    assert!(radars.get_by_key("Navico-77").is_none());
    radars.remove("Navico-77");
    assert_eq!(radars.info.len(), 1);
    let taken = radars.take(0);
    assert_eq!(taken.key, "Navico-78");
    assert_eq!(radars.info.len(), 0);
}

#[test]
fn active_radars_have_ranges() {
    let mut radars = empty();
    radars.located(radar_at(Some("77"), None, 1), Ranges::empty());
    assert!(!radars.have_active());
    assert_eq!(radars.get_active(), Vec::<usize>::new());
    let mut info = radar_at(Some("77"), None, 1);
    info.set_ranges(ranges());
    assert!(info.is_active());
    radars.update(info);
    assert!(radars.have_active());
    assert_eq!(radars.get_active(), vec![0]);
}

#[test]
fn names_are_remembered() {
    let mut radars = empty();
    radars.located(radar_at(Some("77"), None, 1), Ranges::empty());
    let mut info = radar_at(Some("77"), None, 1);
    info.controls.set_user_name("Masthead".to_string());
    info.controls.set_model_name("4G".to_string());
    assert!(radars.update(info));
    let persistent = radars.persistent_data;
    assert_eq!(persistent.config.radars.len(), 1);
    assert_eq!(persistent.config.radars[0].0, "Navico-77");
    assert_eq!(persistent.config.radars[0].1.user_name, "Masthead");
    assert_eq!(persistent.config.radars[0].1.model_name, Some("4G".to_string()));

    let mut again = SharedRadars::new(persistent);
    again.located(radar_at(Some("77"), None, 1), ranges());
    assert_eq!(again.info[0].controls.user_name(), "Masthead");
    assert_eq!(again.info[0].controls.model_name(), Some("4G".to_string()));
}

#[test]
fn remembering_twice_is_no_change() {
    let mut config = Config::new();
    let mut store = |name: &str| config.store("k", name.to_string(), None, Some(vec![50]));
    assert!(store("a"));
    assert!(!store("a"));
    assert!(store("b"));
    assert_eq!(config.find("k"), Some(0));
    assert_eq!(config.find("l"), None);
    assert_eq!(config.radars[0].1.ranges, Some(vec![50]));
    assert_eq!(Radar::default().user_name, "");
    assert_eq!(Radar::default().id, 0);
}

#[test]
fn serial_numbers_change_keys() {
    let mut radars = empty();
    radars.located(radar_at(None, None, 1), Ranges::empty());
    let key = radars.info[0].key.clone();
    radars.update_serial_no(&key, "E123".to_string());
    assert_eq!(radars.info.len(), 1);
    assert_eq!(radars.info[0].serial_no, Some("E123".to_string()));
}

fn mapped(x: i32) -> Mapped {
    let n = Number::from_i32(x);
    Mapped { value: n, rounded: n, wrapped: n, wrapped_rounded: n }
}

#[test]
fn rotations_are_timed() {
    assert_eq!(rotation_speed(2500), Some(240));
    assert_eq!(rotation_speed(1250), Some(480));
    assert_eq!(rotation_speed(300), None);
    assert_eq!(rotation_speed(301), Some(1993));
    assert_eq!(rotation_speed(10_000), None);
    // 600000 / 9600 is 62.5: the even neighbour is taken.
    assert_eq!(rotation_speed(9600), Some(62));
    let mut info = radar_at(Some("1"), None, 1);
    assert_eq!(info.rotation_time(10_500), 2500);
    assert_eq!(info.full_rotation(10_500, &mapped(24)), 2500);
    assert_eq!(info.rotation_timestamp, 10_500);
    let mut s = Statistics::new();
    s.broken_packets = 3;
    s.received_spokes = 5;
    s.full_rotation();
    assert_eq!((s.broken_packets, s.received_spokes, s.total_rotations), (0, 0, 1));
}

#[test]
fn doppler_changes_the_legend() {
    let mut info = radar_at(Some("1"), None, 1);
    assert_eq!(info.legend.doppler_approaching, 0);
    info.set_doppler(true);
    assert_ne!(info.legend.doppler_approaching, 0);
    info.set_pixel_values(32);
    assert_eq!(info.legend.target_colors, 32);
    assert_eq!(info.pixel_values, 32);
}

#[test]
fn models_name_radars() {
    let mut info = radar_at(Some("1234567890"), None, 1);
    assert!(info.can_shorten_serial(7));
    info.introduce("HALO", 7, None);
    assert_eq!(info.controls.user_name(), "HALO 890");
    assert_eq!(info.controls.model_name(), Some("HALO".to_string()));
    let mut info = radar_at(Some("1234567890"), Some("A"), 1);
    info.introduce_half("HALO", 7);
    assert_eq!(info.controls.user_name(), "HALO 890 A");
    assert!(!radar_at(Some("12"), None, 1).can_shorten_serial(7));
    assert!(radar_at(None, None, 1).can_shorten_serial(7));
}

#[test]
fn addresses() {
    assert_eq!(format_ipv4(make_ipv4(192, 168, 0, 12)), "192.168.0.12");
    assert_eq!(Endpoint::new(10, 0, 0, 1, 80).to_text(), "10.0.0.1:80");
    assert!(Endpoint::new(239, 0, 0, 1, 1).is_multicast());
    assert!(!Endpoint::new(240, 0, 0, 1, 1).is_multicast());
    let bytes = [1, 2, 3, 4, 0x1a, 0x0b];
    assert_eq!(read_network_endpoint(&bytes, 0), Endpoint::new(1, 2, 3, 4, 0x1a0b));
    assert_eq!(read_little_endian_endpoint(&bytes, 0), Endpoint::new(4, 3, 2, 1, 0x0b1a));
    assert_eq!(NetworkSocketAddrV4::read(&bytes, 0).to_endpoint().to_text(), "1.2.3.4:6667");
    assert_eq!(LittleEndianSocketAddrV4::read(&bytes, 0).to_endpoint().port, 0x0b1a);
    let mask = make_ipv4(255, 255, 255, 0);
    assert!(match_ipv4(make_ipv4(10, 0, 0, 7), make_ipv4(10, 0, 0, 255), mask));
    assert!(!match_ipv4(make_ipv4(10, 0, 1, 7), make_ipv4(10, 0, 0, 255), mask));
    assert_eq!(listen_binding(&Endpoint::new(236, 6, 7, 5, 1), false), Binding::Multicast);
    assert_eq!(listen_binding(&Endpoint::new(10, 255, 255, 255, 1), false), Binding::Broadcast);
    let mut mode = ReplayMode { on: false };
    set_replay(&mut mode, true);
    assert!(mode.on);
    assert_eq!(InterfaceId::new("en0").name, "en0");
}

#[test]
fn brands() {
    for brand in [Brand::Furuno, Brand::Garmin, Brand::Navico, Brand::Raymarine] {
        assert_eq!(Brand::parse(brand.to_str()), Some(brand));
        assert_eq!(Brand::parse(&brand.to_str().to_uppercase()), Some(brand));
    }
    assert_eq!(Brand::parse("simrad"), None);
    assert_eq!(Brand::Navico.to_prefix(), "nav");
    assert_eq!(Brand::Furuno.to_prefix(), "fur");
    assert_eq!(Brand::Raymarine.to_prefix(), "ray");
    assert_eq!(Brand::Garmin.to_prefix(), "gar");
    assert_eq!(
        create_brand_listeners(None),
        vec![Brand::Navico, Brand::Furuno, Brand::Raymarine]
    );
    assert_eq!(create_brand_listeners(Some(Brand::Furuno)), vec![Brand::Furuno]);
    assert_eq!(create_brand_listeners(Some(Brand::Garmin)), vec![]);
    assert_eq!(LocatorId::GenBR24.as_str(), "Navico BR24");
    assert_eq!(TargetMode::default(), TargetMode::Arpa);
}

#[test]
fn power_states() {
    let s = |s: &str| Power::from_value(&Value::String(s.to_string()));
    assert_eq!(s("transmit").unwrap(), Power::Transmit);
    assert_eq!(s("STANDBY").unwrap(), Power::Standby);
    assert_eq!(s("0").unwrap(), Power::Off);
    assert!(matches!(s("sleep"), Err(RadarError::ParseJson(_))));
    assert_eq!(Power::from_value(&Value::Number(Number::from_i64(3))).unwrap(), Power::Preparing);
    assert!(Power::from_value(&Value::Number(Number::from_i64(4))).is_err());
    assert!(Power::from_value(&Value::Null).is_err());
    assert_eq!(Power::Transmit.as_i64(), 2);
    assert_eq!(Power::Transmit.to_str().to_lowercase(), "transmit");
    assert_eq!(DopplerMode::from_u8(0), Some(DopplerMode::Off));
    assert_eq!(DopplerMode::from_u8(1), Some(DopplerMode::Both));
    assert_eq!(DopplerMode::from_u8(2), Some(DopplerMode::Approaching));
    assert_eq!(DopplerMode::from_u8(3), None);
}

#[test]
fn texts() {
    assert_eq!(c_string(b"Quantum\0\0junk"), Some("Quantum".to_string()));
    assert_eq!(c_string(&[0xff, 0xfe, 0]), None);
    assert_eq!(padded_text(b"E704\0\0\0"), "E704");
    assert_eq!(padded_text(&[b'a', 0xff, b'b']), "a\u{fffd}b");
    assert_eq!(wide_text(b"h\0i\0\0\0x\0"), "hi");
    assert_eq!(wide_text(b"h\0i\0x"), "hi");
    assert_eq!(wide_text(&[]), "");
    assert_eq!(wide_text(&[0xe9, 0, 0xac, 0x20]), "\u{e9}\u{20ac}");
    assert_eq!(wide_text(&[0x3d, 0xd8, 0xe1, 0xdc]), "\u{1f4e1}");
    assert_eq!(wide_text(&[0x3d, 0xd8, b'a', 0]), "\u{fffd}a");
    assert_eq!(wide_text(&[0xe1, 0xdc, 0x3d, 0xd8]), "\u{fffd}\u{fffd}");
    assert!(eq_ignore_case("Gain", "gAIN"));
    assert!(!eq_ignore_case("Gain", "gains"));
    assert_eq!(parse_natural("+255", 255), Some(255));
    assert_eq!(parse_natural("256", 255), None);
    assert_eq!(parse_natural("", 255), None);
    assert_eq!(parse_natural("1x", 255), None);
    assert_eq!(parse_natural("99999999999999999999999", u64::MAX), None);
    assert_eq!(parse_integer("-12", -100, 100), Some(-12));
    assert_eq!(parse_integer("-9223372036854775808", i64::MIN, i64::MAX), Some(i64::MIN));
    assert_eq!(parse_integer("-", -100, 100), None);
    for n in [0, 9, 10, 255, 1_234_567_890, u64::MAX] {
        assert_eq!(format_decimal(n), n.to_string());
        assert_eq!(parse_natural(&format_decimal(n), u64::MAX), Some(n));
    }
    for n in [0u8, 9, 10, 0x5c, 255] {
        let mut s = String::new();
        push_hex_byte(&mut s, n);
        assert_eq!(s, format!("{:02x}", n));
        assert_eq!(parse_hex_u8(&s.chars().collect::<Vec<char>>()), Some(n));
    }
    assert_eq!(parse_hex_u8(&['1', '0', '0']), None);
    assert_eq!(parse_hex_u8(&['g']), None);
    assert_eq!(
        split_text(&"a,,b".chars().collect::<Vec<char>>(), ','),
        vec!["a".to_string(), "".to_string(), "b".to_string()]
    );
}

#[test]
fn bytes() {
    let mut out = Vec::new();
    push_u16_le(&mut out, 0xfe01);
    push_u32_le(&mut out, 0x8030_2010);
    assert_eq!(out, vec![0x01, 0xfe, 0x10, 0x20, 0x30, 0x80]);
    assert_eq!(read_u16_le(&out, 0), 0xfe01);
    assert_eq!(read_u16_be(&out, 0), 0x01fe);
    assert_eq!(read_i16_le(&out, 0), -511);
    assert_eq!(read_u32_le(&out, 2), 0x8030_2010);
    assert_eq!(read_i32_le(&out, 2), 0x8030_2010u32 as i32);
    assert_eq!(read_i8(&out, 1), -2);
}

#[test]
fn bearings() {
    let spoke = to_protobuf_spoke(2048, 100, 2000, Some(200), None, (Some(1), Some(2)), Some(3), vec![7]);
    assert_eq!(spoke.bearing, Some((100 + 2000) % 2048));
    assert_eq!(spoke.angle, 2000);
    assert_eq!((spoke.lat, spoke.lon, spoke.time), (Some(1), Some(2), Some(3)));
    assert_eq!(spoke.data, vec![7]);
    let spoke = to_protobuf_spoke(2048, 100, 2000, None, Some(200), (None, None), None, vec![]);
    assert_eq!(spoke.bearing, Some((200 + 2000) % 2048));
    let spoke = to_protobuf_spoke(2048, 100, 2000, None, None, (None, None), None, vec![]);
    assert_eq!(spoke.bearing, None);
}

#[test]
fn points_are_looked_up() {
    let points: Vec<(i16, i16)> = (0..12).map(|n| (n, -n)).collect();
    let lookup = PolarToCartesianLookup::new(4, 3, points.clone()).unwrap();
    assert_eq!(lookup.get_point_int(0, 0), PointInt { x: 0, y: 0 });
    assert_eq!(lookup.get_point_int(2, 1), PointInt { x: 7, y: -7 });
    assert_eq!(lookup.get_point_int(6, 1), PointInt { x: 7, y: -7 });
    assert_eq!(lookup.get_point_int(3, 2), PointInt { x: 11, y: -11 });
    assert!(PolarToCartesianLookup::new(4, 4, points).is_none());
    assert!(PolarToCartesianLookup::new(0, 3, vec![]).is_some());
    assert!(PolarToCartesianLookup::new(0, usize::MAX, vec![]).is_none());
}

#[test]
fn ranges_by_distance() {
    let r = Ranges::new_by_distance(&vec![1852, 100, 231, 100, 0, -5, 1500, 2000, 22224, 50]);
    let all: Vec<(i32, &str)> = r.all.iter().map(|(d, n)| (*d, n.as_str())).collect();
    assert_eq!(
        all,
        vec![
            (50, "50 m"),
            (100, "100 m"),
            (231, "0.125 nm"),
            (1500, "1.5 km"),
            (1852, "1 nm"),
            (2000, "2 km"),
            (22224, "12 nm"),
        ]
    );
    let distances = |v: &Vec<(i32, String)>| v.iter().map(|e| e.0).collect::<Vec<i32>>();
    assert_eq!(distances(&r.metric), vec![50, 100, 1500, 2000]);
    assert_eq!(distances(&r.nautical), vec![231, 1852, 22224]);
    assert_eq!(r.mixed, r.all);
    assert_eq!(Ranges::new_by_distance(&Vec::new()).len(), 0);
}

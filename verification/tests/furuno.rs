use mayara::brand::{Brand, TargetMode};
use mayara::config::{Config, Persistence};
use mayara::control_id::ControlId;
use mayara::controls::Ranges;
use mayara::error::RadarError;
use mayara::furuno::command::{
    alive_check, fill_blind_sector, init, radar_ranges, send, set_control, BlindSectors, CommandId,
    CommandMode,
};
use mayara::furuno::locator::{
    announce_packet, beacon_address, found, login_done, login_message, login_port,
    process_beacon_report, process_locator_report, replay_model, request_beacon_packet, request_model_packet, BeaconKind,
    FurunoLocator, LoginProblem,
};
use mayara::furuno::report::{
    process_report, split_report, take_line, Argument, ReportProblem, Reported, SplitReport,
};
use mayara::furuno::settings::{get_ranges_by_model, update_when_model_known, RadarModel};
use mayara::garmin::{report_address, GarminEvent, GarminLocator};
use mayara::network::Endpoint;
use mayara::radar::SharedRadars;

const BLIND: BlindSectors = BlindSectors { start1: 1, end1: 2, start2: 3, end2: 4 };

#[test]
fn furuno_messages() {
    assert_eq!(send(CommandMode::Change, CommandId::Gain, &[0, 50, 1, 50, 0]), "$S63,0,50,1,50,0\r\n");
    assert_eq!(send(CommandMode::Request, CommandId::CustomPictureAll, &[]), "$R66\r\n");
    assert_eq!(send(CommandMode::Change, CommandId::Sea, &[-5]), "$S64,-5\r\n");
    assert_eq!(alive_check(), "$NE3\r\n");
    let requests = init();
    assert_eq!(requests.len(), 14);
    assert_eq!(requests[1], "$R62,0,0,0\r\n");
    assert_eq!(CommandMode::from(b'S'), CommandMode::Change);
    assert_eq!(CommandMode::from(b'?'), CommandMode::New);
    for n in 0..=255u8 {
        if let Some(id) = CommandId::from_u8(n) {
            assert_eq!(id.as_u8(), n);
        }
    }
    assert_eq!(CommandId::from_u8(0x63), Some(CommandId::Gain));
    assert_eq!(CommandId::from_u8(0), None);
}

#[test]
fn furuno_controls_are_set() {
    let set = |id, value| set_control(id, Some(value), None, true, &BLIND).unwrap();
    assert_eq!(set(ControlId::Gain, 50).0, "$S63,0,50,1,50,0\r\n");
    assert_eq!(set(ControlId::Gain, 50).1, "$R66\r\n");
    assert_eq!(set(ControlId::Power, 2).0, "$S69,2,0,0,60,300,0\r\n");
    assert_eq!(set(ControlId::Range, 4).0, "$S62,4,0,0\r\n");
    assert_eq!(set(ControlId::Range, 1852).0, "$S62,5,0,0\r\n");
    assert_eq!(set(ControlId::Range, 2000).0, "$S62,6,0,0\r\n");
    assert_eq!(set(ControlId::Range, 1_000_000).0, "$S62,22,0,0\r\n");
    assert_eq!(set(ControlId::NoTransmitSector1, 9).0, "$S77,9,2,3,4\r\n");
    let r = set_control(ControlId::NoTransmitSector2, Some(9), Some(8), false, &BLIND).unwrap();
    assert_eq!(r.0, "$S77,1,2,9,8\r\n");
    assert!(matches!(
        set_control(ControlId::Gain, None, None, false, &BLIND),
        Err(RadarError::MissingValue(ControlId::Gain))
    ));
    assert!(matches!(
        set_control(ControlId::TargetBoost, Some(1), None, false, &BLIND),
        Err(RadarError::CannotSetControlId(ControlId::TargetBoost))
    ));
    assert_eq!(fill_blind_sector(&BLIND, None, Some(7), None, None), vec![1, 7, 3, 4]);
    assert_eq!(radar_ranges()[5], 1852);
}

fn argument(n: usize) -> Argument {
    Argument { as_byte: n as u8, as_index: n, is_zero: n == 0 }
}

#[test]
fn furuno_reports() {
    assert_eq!(take_line(b"$N63,1\r\n"), Some(&b"$N63,1"[..]));
    assert_eq!(take_line(b"$N63,1\n"), None);
    assert_eq!(take_line(b"$N\r\n"), None);
    match split_report(b"$N63,10,,3.5").unwrap() {
        SplitReport::Known(id, args) => {
            assert_eq!(id, CommandId::Gain);
            assert_eq!(args, vec!["10", "", "3.5"]);
        }
        r => panic!("{:?}", r),
    }
    assert!(matches!(split_report(b"$N01,1"), Ok(SplitReport::Unknown)));
    assert!(matches!(split_report(b"#N63,1"), Err(ReportProblem::NotAReport)));
    assert!(matches!(split_report(b"$N6"), Err(ReportProblem::NotAReport)));
    assert!(matches!(split_report(b"$Nxx,1"), Err(ReportProblem::NoCommand)));
    assert!(matches!(split_report(&[b'$', b'N', 0xff, 0xfe]), Err(ReportProblem::NotText)));
    // What is sent is read back.
    let message = send(CommandMode::New, CommandId::OnTime, &[12, 3]);
    match split_report(take_line(message.as_bytes()).unwrap()).unwrap() {
        SplitReport::Known(id, args) => {
            assert_eq!(id, CommandId::OnTime);
            assert_eq!(args, vec!["12", "3"]);
        }
        r => panic!("{:?}", r),
    }

    let args: Vec<Argument> = [2, 3, 0, 7, 8].into_iter().map(argument).collect();
    assert_eq!(process_report(CommandId::Gain, &args), Ok(Reported::Gain(1, false)));
    let auto: Vec<Argument> = [2, 3, 1, 7, 8].into_iter().map(argument).collect();
    assert_eq!(process_report(CommandId::Gain, &auto), Ok(Reported::Gain(3, true)));
    assert_eq!(
        process_report(CommandId::Gain, &args[..4]),
        Err(ReportProblem::MissingArguments(4))
    );
    assert_eq!(process_report(CommandId::Range, &args), Ok(Reported::Range(463)));
    assert_eq!(process_report(CommandId::Range, &auto), Err(ReportProblem::NotNautical));
    let far: Vec<Argument> = [99, 0, 0].into_iter().map(argument).collect();
    assert_eq!(process_report(CommandId::Range, &far), Ok(Reported::Range(0)));
    assert_eq!(process_report(CommandId::Status, &args), Ok(Reported::Status(0)));
    assert_eq!(process_report(CommandId::Status, &[]), Err(ReportProblem::MissingArguments(0)));
    assert_eq!(process_report(CommandId::OnTime, &args), Ok(Reported::OnTime(0)));
    assert_eq!(process_report(CommandId::AliveCheck, &[]), Ok(Reported::Alive));
    assert_eq!(
        process_report(CommandId::Att, &args),
        Err(ReportProblem::NotHandled(CommandId::Att))
    );
}

fn beacon() -> Vec<u8> {
    let mut report = vec![0x1, 0x0, 0x0, 0x1, 0x0, 0x0, 0x0, 0x0, 0x0, 0x1, 0x0, 24, 0, 0, 0, 0];
    report.extend_from_slice(b"RD003212");
    report.extend_from_slice(&[0; 8]);
    report
}

fn from() -> Endpoint {
    Endpoint::new(172, 31, 6, 1, 10010)
}

#[test]
fn furuno_beacons() {
    let find = |report: &[u8]| process_beacon_report(report, from(), 7, TargetMode::Arpa, false, 0);
    let info = find(&beacon()).unwrap();
    assert_eq!(info.brand, Brand::Furuno);
    assert_eq!(info.key(), "Furuno-172.31.6.1:10010-RD003212");
    assert_eq!(info.spokes_per_revolution, 8192);
    assert_eq!(info.spoke_data_addr, Endpoint::new(239, 255, 0, 2, 10024));
    assert_eq!(info.send_command_addr.port, 0);
    let mut other = beacon();
    other[16] = b'M';
    assert_eq!(process_locator_report(&other), BeaconKind::Other);
    assert_eq!(find(&other).unwrap().key(), "Furuno-172.31.6.1:10010-MD003212");
    assert!(find(&other[..23]).is_none());
    let mut other = beacon();
    other[11] = 23;
    assert!(find(&other).is_none());
    assert_eq!(process_locator_report(&beacon()), BeaconKind::Beacon);
    assert_eq!(process_locator_report(&[0; 170]), BeaconKind::ModelReport);
    assert_eq!(process_locator_report(&[0; 20]), BeaconKind::Other);
    assert_eq!(beacon_address(), Endpoint::new(172, 31, 255, 255, 10010));
    assert_eq!(announce_packet().len(), 32);
    assert_eq!(request_beacon_packet()[8], 0x01);
    assert_eq!(request_model_packet()[8], 0x14);
    assert_eq!(replay_model(), (RadarModel::DRS4DNXT, "01.05"));
}

#[test]
fn furuno_logins() {
    assert_eq!(
        login_message()[12..],
        b"COPYRIGHT (C) 2001 FURUNO ELECTRIC CO.,LTD. "[..]
    );
    assert_eq!(login_message()[..4], [0x08, 0x01, 0x00, 0x38]);
    let header = [0x9, 0x1, 0x0, 0xc, 0x1, 0x0, 0x0, 0x0];
    assert_eq!(login_port(&header, &[0, 50, 0, 0]), Ok(10050));
    assert_eq!(login_port(&header, &[1, 2, 0, 0]), Ok(10258));
    assert_eq!(login_port(&header, &[0xff, 0xff, 0, 0]), Err(LoginProblem::InvalidPort));
    assert_eq!(login_port(&[0; 8], &[0, 0, 0, 0]), Err(LoginProblem::UnexpectedReply));

    let mut radars = SharedRadars::new(Persistence { config: Config::new() });
    let info = || {
        process_beacon_report(&beacon(), from(), 7, TargetMode::Arpa, false, 0).unwrap()
    };
    assert_eq!(found(info(), &mut radars, Ranges::empty()), Some(0));
    assert_eq!(found(info(), &mut radars, Ranges::empty()), None);
    assert_eq!(login_done(&mut radars, 0, None), None);
    assert_eq!(radars.info.len(), 0);
    assert_eq!(found(info(), &mut radars, Ranges::empty()), Some(0));
    assert_eq!(login_done(&mut radars, 0, Some(10050)), Some(true));
    assert_eq!(radars.info[0].send_command_addr, Endpoint::new(172, 31, 6, 1, 10050));
    assert_eq!(radars.info[0].report_addr.port, 10050);
}

#[test]
fn furuno_serial_numbers() {
    let mut locator = FurunoLocator::new();
    let mut report = [0u8; 170];
    report[120..124].copy_from_slice(b"6424");
    assert_eq!(locator.process_beacon_model_report(&report, from()), None);
    locator.logged_in(from(), "key".to_string());
    assert_eq!(
        locator.process_beacon_model_report(&report, from()),
        Some(("key".to_string(), "6424".to_string()))
    );
    assert_eq!(
        locator.process_beacon_model_report(&report, Endpoint::new(1, 2, 3, 4, 5)),
        None
    );
    report[24..27].copy_from_slice(b"DRS");
    let _ = locator.process_beacon_model_report(&report, from());
    assert_eq!(locator.process_beacon_model_report(&report, from()), None);
}

#[test]
fn furuno_models() {
    let ranges = get_ranges_by_model(&RadarModel::DRS4DNXT);
    assert!(ranges.windows(2).all(|w| w[0] < w[1]));
    assert_eq!(ranges.last(), Some(&88896));
    assert_eq!(get_ranges_by_model(&RadarModel::DRS).last(), Some(&66672));
    assert_eq!(get_ranges_by_model(&RadarModel::DRS25ANXT).last(), Some(&177792));
    assert_eq!(get_ranges_by_model(&RadarModel::FAR3000).first(), Some(&231));
    assert_eq!(RadarModel::DRS4DNXT.to_str(), "DRS4DNXT");
    let mut info =
        process_beacon_report(&beacon(), from(), 7, TargetMode::Arpa, false, 0).unwrap();
    info.name_by_key();
    let named: Vec<(i32, String)> = ranges.iter().map(|r| (*r, format!("{}", r))).collect();
    let ranges = Ranges {
        all: named.clone(),
        nautical: named.clone(),
        metric: named.clone(),
        mixed: named,
    };
    update_when_model_known(&mut info, RadarModel::DRS4DNXT, "01.05", ranges);
    assert_eq!(info.controls.model_name(), Some("DRS4DNXT".to_string()));
    assert!(info.dual_range);
    let valid = info.controls.get(&ControlId::Range).unwrap().item().valid_values.clone().unwrap();
    assert_eq!(valid.last(), Some(&88896));
}

#[test]
fn garmin_radars() {
    let mut locator = GarminLocator::new();
    let from = Endpoint::new(172, 16, 2, 0, 50100);
    match locator.process_beacon(&[1, 2, 3], from) {
        GarminEvent::Found(location) => {
            assert_eq!(location.addr, from);
            assert_eq!(location.data, Endpoint::new(239, 254, 2, 0, 50102));
            assert_eq!(location.report, report_address());
            assert_eq!(location.send, Endpoint::new(172, 16, 2, 0, 50101));
        }
        e => panic!("{:?}", e),
    }
    assert_eq!(locator.process_beacon(&[1], from), GarminEvent::Ignored);
    assert_eq!(locator.process_beacon(&[1, 2], from), GarminEvent::Report);
}

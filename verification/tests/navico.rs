use mayara::brand::{Brand, TargetMode};
use mayara::config::{Config, Persistence};
use mayara::control_id::ControlId;
use mayara::controls::Ranges;
use mayara::definition::new_list_2;
use mayara::legend::default_legend;
use mayara::navico::locator::{
    beacon_address, beacon_requests, br24_beacon_address, found, info_address,
    process_beacon_report, process_locator_report, speed_address, BeaconKind,
};
use mayara::navico::model::{HaloMode, Model};
use mayara::navico::report::{
    allow_dynamic_controls, process_report, process_report_01, process_report_02, process_report_04,
    process_report_06_68, process_report_06_74, range_in_meters, range_step, send_range,
    send_status, set_status, start_range_detection, NavicoReportState, RangeDetectionResult,
    RangeStart, ReportKind, ReportProblem, Timers,
};
use mayara::navico::settings;
use mayara::navico::spoke::{
    extract_heading_value, is_heading_true, is_valid_heading_value, pixel_to_blob, process_frame,
    process_spoke, validate_header,
};
use mayara::network::{make_ipv4, Endpoint};
use mayara::power::{DopplerMode, Power};
use mayara::radar::SharedRadars;
use mayara::setting::WireSetting;
use mayara::value::{Number, Value};

fn endpoint(report: &mut [u8], at: usize, last: u8, port: u16) {
    report[at..at + 4].copy_from_slice(&[236, 6, 7, last]);
    report[at + 4..at + 6].copy_from_slice(&port.to_be_bytes());
}

fn beacon(len: usize) -> Vec<u8> {
    let mut report = vec![0u8; len];
    report[0] = 0x01;
    report[1] = 0xb2;
    report[2..12].copy_from_slice(b"1403302452");
    endpoint(&mut report, 18, 1, 2000);
    report
}

#[test]
fn navico_beacons() {
    let via = make_ipv4(10, 0, 0, 2);
    let find = |report: &[u8]| process_beacon_report(report, via, TargetMode::Arpa, false, 5000);

    let mut report = beacon(222);
    endpoint(&mut report, 88, 8, 6678);
    endpoint(&mut report, 98, 10, 6680);
    endpoint(&mut report, 108, 9, 6679);
    endpoint(&mut report, 124, 13, 6657);
    endpoint(&mut report, 134, 14, 6658);
    endpoint(&mut report, 144, 15, 6659);
    let radars = find(&report);
    assert_eq!(radars.len(), 2);
    let mut other = report.clone();
    other[0] = 0x10;
    assert_eq!(process_locator_report(&other), BeaconKind::Other);
    assert_eq!(find(&other).len(), 2);
    assert_eq!(radars[0].key(), "Navico-1403302452-A");
    assert_eq!(radars[1].key(), "Navico-1403302452-B");
    assert_eq!(radars[0].brand, Brand::Navico);
    assert_eq!(radars[0].addr, Endpoint::new(236, 6, 7, 1, 2000));
    assert_eq!(radars[0].spoke_data_addr, Endpoint::new(236, 6, 7, 8, 6678));
    assert_eq!(radars[0].report_addr, Endpoint::new(236, 6, 7, 9, 6679));
    assert_eq!(radars[0].send_command_addr, Endpoint::new(236, 6, 7, 10, 6680));
    assert_eq!(radars[1].spoke_data_addr, Endpoint::new(236, 6, 7, 13, 6657));
    assert_eq!(radars[1].report_addr, Endpoint::new(236, 6, 7, 15, 6659));
    assert_eq!(radars[1].nic_addr, via);

    let mut report = beacon(114);
    endpoint(&mut report, 88, 8, 6678);
    let radars = find(&report);
    assert_eq!(radars.len(), 1);
    assert_eq!(radars[0].key(), "Navico-1403302452");
    assert_eq!(radars[0].controls.model_name(), None);

    let mut report = beacon(98);
    endpoint(&mut report, 72, 19, 6669);
    endpoint(&mut report, 82, 18, 6680);
    endpoint(&mut report, 92, 17, 6678);
    let radars = find(&report);
    assert_eq!(radars.len(), 1);
    assert_eq!(radars[0].controls.model_name(), Some("BR24".to_string()));
    assert_eq!(radars[0].spoke_data_addr, Endpoint::new(236, 6, 7, 17, 6678));
    assert_eq!(radars[0].report_addr, Endpoint::new(236, 6, 7, 19, 6669));
    assert_eq!(radars[0].send_command_addr, Endpoint::new(236, 6, 7, 18, 6680));

    let mut report = beacon(114);
    report[2] = 0xff;
    assert_eq!(find(&report).len(), 0);
    assert_eq!(process_locator_report(&beacon(99)), BeaconKind::Other);
    assert_eq!(process_locator_report(&[0x01]), BeaconKind::Other);
    assert_eq!(process_locator_report(&[0x01, 0xb1]), BeaconKind::Other);
    assert_eq!(beacon_requests(true).len(), 0);
    assert_eq!(beacon_requests(false).len() > 0, true);
    assert!(beacon_address().is_multicast());
    assert!(br24_beacon_address().is_multicast());
    assert!(info_address().is_multicast());
    assert!(speed_address().is_multicast());
}

#[test]
fn navico_radars_are_taken_in() {
    let mut radars = SharedRadars::new(Persistence { config: Config::new() });
    let infos = process_beacon_report(&beacon(222), 1, TargetMode::Arpa, false, 5000);
    assert_eq!(infos.len(), 2);
    for (n, info) in infos.into_iter().enumerate() {
        let (at, model, modified) = found(info, &mut radars, Ranges::empty()).unwrap();
        assert_eq!(at, n);
        assert_eq!(model, Model::Unknown);
        assert!(modified);
    }
    let again = process_beacon_report(&beacon(222), 1, TargetMode::Arpa, false, 5000);
    for info in again {
        assert!(found(info, &mut radars, Ranges::empty()).is_none());
    }
    assert_eq!(radars.info.len(), 2);
    let infos = process_beacon_report(&beacon(98), 1, TargetMode::Arpa, false, 5000);
    for info in infos {
        let (at, model, _) = found(info, &mut radars, Ranges::empty()).unwrap();
        assert_eq!(model, Model::BR24);
        assert_eq!(radars.info[at].controls.user_name(), "BR24 452");
    }
}

#[test]
fn navico_controls_by_model() {
    let mut info = process_beacon_report(&beacon(222), 1, TargetMode::Arpa, false, 5000).remove(0);
    info.name_by_key();
    assert!(!info.controls.contains_key(&ControlId::AccentLight));
    settings::update_when_model_known(&mut info, Model::HALO);
    assert!(info.controls.contains_key(&ControlId::AccentLight));
    assert!(info.controls.contains_key(&ControlId::Doppler));
    assert_eq!(info.controls.model_name(), Some("HALO".to_string()));
    assert_eq!(info.controls.user_name(), "HALO 452 A");
}

#[test]
fn navico_models() {
    for model in [Model::BR24, Model::Gen3, Model::Gen4, Model::HALO] {
        assert_eq!(Model::new(model.to_str()), model);
    }
    assert_eq!(Model::new("HALO or 4G"), Model::Unknown);
    assert_eq!(Model::from(0x0e), Model::BR24);
    assert_eq!(Model::from(0x0f), Model::BR24);
    assert_eq!(Model::from(0x08), Model::Gen3);
    assert_eq!(Model::from(0x01), Model::HaloOrG4);
    assert_eq!(Model::from(0x00), Model::HALO);
    assert_eq!(Model::from(0x77), Model::Unknown);
    assert_eq!(HaloMode::from_u8(5), Some(HaloMode::Bird));
    assert_eq!(HaloMode::from_u8(6), None);
}

#[test]
fn navico_headings() {
    assert!(is_heading_true(0x45be));
    assert!(!is_heading_true(0x07d6));
    assert!(is_valid_heading_value(0x45be));
    assert!(!is_valid_heading_value(0x9234));
    assert_eq!(extract_heading_value(0x45be), Some(0x5be));
    assert_eq!(extract_heading_value(0x07d6), None);
    assert_eq!(extract_heading_value(0x8000), None);
    assert_eq!(extract_heading_value(0x9234), None);
}

fn line(angle: u16, large: u16, small: u16) -> Vec<u8> {
    let mut line = vec![0u8; 536];
    line[0] = 24;
    line[1] = 0x12;
    line[6..8].copy_from_slice(&large.to_le_bytes());
    line[8..10].copy_from_slice(&(angle * 2).to_le_bytes());
    line[10..12].copy_from_slice(&0x4002u16.to_le_bytes());
    line[12..14].copy_from_slice(&small.to_le_bytes());
    line[24] = 0xf1;
    line
}

#[test]
fn navico_spokes() {
    let legend = default_legend(&TargetMode::Arpa, true, 16);
    let lookup = pixel_to_blob(&legend);
    let header = |large, small| validate_header(Model::HALO, &line(7, large, small)[..24]).unwrap();
    assert_eq!(header(0x80, 0xffff).range, 0);
    assert_eq!(header(0x80, 400).range, 100);
    assert_eq!(header(512, 300).range, 300);
    assert_eq!(header(512, 300).angle, 7);
    assert_eq!(header(512, 300).heading, Some(2));
    let h = validate_header(Model::BR24, &line(7, 0, 100)[..24]).unwrap();
    assert_eq!(h.range, 707);
    let mut bad = line(7, 0, 100);
    bad[1] = 3;
    assert_eq!(validate_header(Model::HALO, &bad[..24]), None);
    bad[1] = 2;
    bad[0] = 23;
    assert_eq!(validate_header(Model::BR24, &bad[..24]), None);

    let mut data = vec![0u8; 8];
    data.extend(line(1, 512, 300));
    data.extend(&bad);
    data.extend(line(2, 512, 300));
    data.extend(&[0; 20]);
    let lines = process_frame(Model::HALO, &lookup, DopplerMode::Off, false, &data);
    assert_eq!(lines.len(), 2);
    assert_eq!(lines[0].angle, 1);
    assert_eq!(lines[1].angle, 2);
    assert_eq!(lines[0].pixels.len(), 1024);
    assert_eq!(&lines[0].pixels[..2], &[1, 15]);
    assert_eq!(process_frame(Model::HALO, &lookup, DopplerMode::Off, false, &data[..543]).len(), 0);

    assert_eq!(
        process_spoke(&lookup, DopplerMode::Both, false, &[0xef, 0x21]),
        vec![legend.doppler_approaching, legend.doppler_receding, 2, 3]
    );
    assert_eq!(
        process_spoke(&lookup, DopplerMode::Approaching, false, &[0xef]),
        vec![legend.doppler_approaching, 15]
    );
    // While recorded data is replayed there is a circle at the edge.
    assert_eq!(process_spoke(&lookup, DopplerMode::Off, true, &[1, 2]), vec![1, 0, 15, 15]);
}

fn setting(settings: &[WireSetting], id: ControlId) -> WireSetting {
    *settings.iter().find(|s| s.id == id).unwrap()
}

#[test]
fn navico_kinds_of_reports() {
    let kind = |model, data: &[u8]| process_report(model, data);
    assert_eq!(kind(Model::HALO, &[1]), Err(ReportProblem::TooShort));
    assert_eq!(kind(Model::HALO, &[0x11, 0xc6]), Err(ReportProblem::StrangeContent));
    assert_eq!(kind(Model::HALO, &[0x11, 0xc6, 0]), Ok(ReportKind::Ignored));
    assert_eq!(kind(Model::HALO, &[0x01, 0xc5]), Ok(ReportKind::Ignored));
    assert_eq!(kind(Model::HALO, &[0x01, 0xc4]), Ok(ReportKind::Status));
    assert_eq!(kind(Model::HALO, &[0x02, 0xc4]), Ok(ReportKind::Settings));
    assert_eq!(kind(Model::Unknown, &[0x02, 0xc4]), Ok(ReportKind::Ignored));
    assert_eq!(kind(Model::Unknown, &[0x03, 0xc4]), Ok(ReportKind::Identity));
    assert_eq!(kind(Model::HALO, &[0x04, 0xc4]), Ok(ReportKind::Installation));
    let mut short = vec![0u8; 68];
    short[0] = 6;
    short[1] = 0xc4;
    assert_eq!(kind(Model::HALO, &short), Ok(ReportKind::ShortSectors));
    assert_eq!(kind(Model::HALO, &[0x06, 0xc4]), Ok(ReportKind::Sectors));
    assert_eq!(kind(Model::HALO, &[0x08, 0xc4]), Ok(ReportKind::Features));
    assert_eq!(kind(Model::HALO, &[0x77, 0xc4]), Ok(ReportKind::Unknown(0x77)));
}

#[test]
fn navico_reports() {
    assert_eq!(set_status(0).unwrap().value, 0);
    assert_eq!(set_status(2).unwrap().value, 2);
    assert_eq!(set_status(5).unwrap().value, 3);
    assert_eq!(set_status(3), Err(ReportProblem::UnknownStatus(3)));
    let mut data = vec![0u8; 18];
    data[2] = 1;
    assert_eq!(process_report_01(&data).unwrap().value, 1);
    assert_eq!(process_report_01(&data[..17]), Err(ReportProblem::BadLength));

    let mut data = vec![0u8; 99];
    data[2..6].copy_from_slice(&5000i32.to_le_bytes());
    data[7] = 1;
    data[8] = 1;
    data[12] = 70;
    data[13] = 2;
    data[17..21].copy_from_slice(&(-3i32).to_le_bytes());
    data[22] = 9;
    data[42] = 2;
    let report = process_report_02(Model::HALO, &data).unwrap();
    assert_eq!(report.range, 5000);
    assert_eq!(report.allowed, Some(false));
    assert_eq!(report.sea_auto, Some(true));
    assert_eq!(setting(&report.settings, ControlId::Mode).value, 1);
    assert_eq!(setting(&report.settings, ControlId::Gain).value, 70);
    assert_eq!(setting(&report.settings, ControlId::Gain).auto, Some(true));
    assert_eq!(setting(&report.settings, ControlId::TargetBoost).value, 2);
    assert!(report.settings.iter().all(|s| s.id != ControlId::Sea));
    let report = process_report_02(Model::Gen4, &data).unwrap();
    assert_eq!(setting(&report.settings, ControlId::Sea).value, -3);
    assert_eq!(report.allowed, None);
    assert_eq!(report.sea_auto, None);
    assert_eq!(
        process_report_02(Model::Gen4, &data[..98]).unwrap_err(),
        ReportProblem::BadLength
    );

    let mut data = vec![0u8; 66];
    data[6..8].copy_from_slice(&(-10i16).to_le_bytes());
    data[10..12].copy_from_slice(&4000u16.to_le_bytes());
    data[19] = 3;
    let s = process_report_04(Model::HALO, &data).unwrap();
    assert_eq!(setting(&s, ControlId::BearingAlignment).value, -10);
    assert_eq!(setting(&s, ControlId::AntennaHeight).value, 4000);
    assert_eq!(setting(&s, ControlId::AccentLight).value, 3);
    assert_eq!(process_report_04(Model::Gen4, &data).unwrap().len(), 2);
    assert_eq!(process_report_04(Model::Gen4, &[]), Err(ReportProblem::BadLength));

    let mut data = vec![0u8; 74];
    data[42] = 1;
    data[43..45].copy_from_slice(&(-100i16).to_le_bytes());
    data[45..47].copy_from_slice(&200i16.to_le_bytes());
    let s = process_report_06_74(&data).unwrap();
    assert_eq!(s.len(), 4);
    let first = setting(&s, ControlId::NoTransmitSector1);
    assert_eq!((first.value, first.end, first.enabled), (-100, Some(200), Some(true)));
    assert_eq!(setting(&s, ControlId::NoTransmitSector4).enabled, Some(false));
    assert_eq!(process_report_06_74(&data[..73]), Err(ReportProblem::BadLength));
    let mut data = vec![0u8; 68];
    data[6..10].copy_from_slice(b"Halo");
    data[36] = 1;
    let (name, s) = process_report_06_68(&data).unwrap();
    assert_eq!(name, "Halo");
    assert_eq!(setting(&s, ControlId::NoTransmitSector1).enabled, Some(true));
    assert_eq!(process_report_06_68(&data[..67]), Err(ReportProblem::BadLength));
}

#[test]
fn navico_models_from_reports() {
    let mut state = NavicoReportState::new(Model::Unknown);
    let mut data = vec![0u8; 129];
    data[2] = 0x01;
    data[34..38].copy_from_slice(&77i32.to_le_bytes());
    for (i, unit) in "May 3 2021".encode_utf16().enumerate() {
        data[58 + 2 * i..60 + 2 * i].copy_from_slice(&unit.to_le_bytes());
    }
    for (i, unit) in "12:30\u{e9}\u{1f4e1}".encode_utf16().enumerate() {
        data[90 + 2 * i..92 + 2 * i].copy_from_slice(&unit.to_le_bytes());
    }
    data[110] = b'x';
    let report = state.process_report_03(&data).unwrap();
    assert_eq!(report.new_model, None);
    assert_eq!(report.transmit_time.value, 77);
    assert_eq!(report.firmware, "May 3 2021 12:30\u{e9}\u{1f4e1}");
    assert_eq!(state.model, Model::HaloOrG4);
    data[2] = 0x70;
    assert!(state.process_report_03(&data).unwrap().warn);
    assert!(!state.process_report_03(&data).unwrap().warn);
    assert!(state.process_report_03(&data[..9]).is_err());

    let features = vec![0u8; 18];
    let (model, settings) = state.process_report_08(&features);
    assert_eq!(model, Some(Model::Gen4));
    assert_eq!(settings.unwrap().len(), 5);
    let mut features = vec![0u8; 22];
    features[14] = 40;
    features[15] = 0xff;
    features[18] = 2;
    features[19..21].copy_from_slice(&700u16.to_le_bytes());
    let (model, settings) = state.process_report_08(&features);
    assert_eq!(model, Some(Model::HALO));
    assert_eq!(state.doppler, DopplerMode::Approaching);
    let settings = settings.unwrap();
    assert_eq!(setting(&settings, ControlId::DopplerSpeedThreshold).value, 700);
    assert_eq!(setting(&settings, ControlId::Sea).auto_value, Some(-1));
    features[18] = 9;
    let (model, settings) = state.process_report_08(&features);
    assert_eq!(model, None);
    assert_eq!(settings, Err(ReportProblem::UnknownDoppler(9)));
    assert_eq!(state.process_report_08(&features[..20]).1, Err(ReportProblem::BadLength));
    // A report that leaves the model open does not change it.
    data[2] = 0x01;
    state.process_report_03(&data).unwrap();
    assert_eq!(state.model, Model::HALO);
}

#[test]
fn navico_ranges_are_looked_for() {
    let start = start_range_detection;
    assert_eq!(start(true, false, false, Some(Power::Standby)), RangeStart::NotNeeded);
    assert_eq!(start(false, true, false, Some(Power::Standby)), RangeStart::NotNeeded);
    assert_eq!(start(false, false, true, Some(Power::Standby)), RangeStart::NotNeeded);
    assert_eq!(start(false, false, false, None), RangeStart::NotPossible);
    assert_eq!(
        start(false, false, false, Some(Power::Transmit)),
        RangeStart::Begin { standby_first: true }
    );
    assert_eq!(range_step(&RangeDetectionResult::NoRange, true), None);
    let step = range_step(&RangeDetectionResult::NextRange(75), true).unwrap();
    assert_eq!((step.complete, step.send_range, step.transmit), (false, Some(75), false));
    assert_eq!(step.timeout, Some(2000));
    let mut timers = Timers::new(1000);
    timers.range_handled(&step, 1000);
    assert_eq!(timers.range, 3000);
    let complete = RangeDetectionResult::Complete(Ranges::empty(), 463);
    let step = range_step(&complete, true).unwrap();
    assert_eq!((step.complete, step.send_range, step.transmit), (true, Some(463), true));
    assert_eq!(range_in_meters(4630), 463);
    assert_eq!(range_in_meters(-15), -1);
    let cv = send_status(Power::Transmit);
    assert_eq!(cv.id, ControlId::Power);
    assert!(matches!(cv.value, Some(Value::Number(n)) if n == Number::from_i64(2)));
    assert!(cv.units.is_none() && cv.auto.is_none() && cv.enabled.is_none() && cv.error.is_none());
    let cv = send_range(75);
    assert_eq!(cv.id, ControlId::Range);
    assert!(matches!(cv.value, Some(Value::Number(n)) if n == Number::from_i64(75)));
}

#[test]
fn navico_timers() {
    let mut t = Timers::new(1000);
    assert_eq!(t.next_timeout(), 1000);
    let due = t.due(1000);
    assert!(due.report_request && due.info_request && !due.range);
    t.sent_report_requests();
    t.sent_info_requests();
    assert_eq!((t.report_request, t.info_request), (6000, 1250));
    assert_eq!(t.next_timeout(), 1250);
    t.process_info(7, 7, 2000);
    assert_eq!(t.info_request, 1250);
    t.process_info(8, 7, 2000);
    assert_eq!(t.info_request, 17_000);
    assert_eq!(t.next_timeout(), 6000);
}

#[test]
fn navico_presets_fix_controls() {
    let radar_id = "Navico-1403302452-A".to_string();
    let mut controls = settings::new(TargetMode::Arpa, false, radar_id, None);
    controls.add(new_list_2(ControlId::TargetExpansion, "Off", "On"));
    let allowed = |controls: &mayara::controls::SharedControls, id: ControlId| {
        controls.get(&id).map(|c| c.allowed)
    };
    let gain = allowed(&controls, ControlId::Gain);
    allow_dynamic_controls(&mut controls, false);
    for id in [
        ControlId::NoiseRejection,
        ControlId::TargetExpansion,
        ControlId::TargetSeparation,
        ControlId::LocalInterferenceRejection,
        ControlId::ScanSpeed,
    ] {
        if let Some(allowed) = allowed(&controls, id) {
            assert_eq!(allowed, Some(false));
        }
    }
    assert!(controls.contains_key(&ControlId::TargetExpansion));
    assert!(controls.get(&ControlId::TargetExpansion).unwrap().needs_refresh);
    assert_eq!(allowed(&controls, ControlId::Gain), gain);
    allow_dynamic_controls(&mut controls, true);
    assert_eq!(allowed(&controls, ControlId::TargetExpansion), Some(Some(true)));
}

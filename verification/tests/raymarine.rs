use mayara::brand::{LocatorId, TargetMode};
use mayara::config::{Config, Persistence};
use mayara::control_id::ControlId;
use mayara::controls::Ranges;
use mayara::error::RadarError;
use mayara::legend::default_legend;
use mayara::network::{make_ipv4, Endpoint};
use mayara::power::{DopplerMode, Power};
use mayara::radar::SharedRadars;
use mayara::raymarine::command::{
    find_range, set_control, set_control_quantum, set_control_rd, BaseModel, CommandValue,
};
use mayara::raymarine::data::{
    DataUpdate, RaymarineDataReceiver, TrailsAction, SPOKES_PER_FRAME,
};
use mayara::raymarine::locator::{beacon_address, found, Model, RaymarineLocatorState};
use mayara::raymarine::report::{
    first_unknown_report, is_eseries_serial, model_told, pixel_to_blob, process_report,
    range_distances, range_in_use, read_power, InfoProblem, InfoReport, ModelFacts, PixelToBlob,
    ReceiverState, ReportKind,
};
use mayara::raymarine::unpack::{process_spoke, PixelCoding};
use mayara::raymarine::{quantum, rd, settings};
use mayara::setting::WireSetting;

const VIA: [u8; 4] = [1, 1, 1, 1];

// A real beacon of a Quantum radar, sent from 198.18.6.214 to 224.0.0.1:5800.
const DATA1_36: [u8; 36] = [
    0x0, 0x0, 0x0, 0x0, 0x58, 0x6b, 0x80, 0xd6, 0x28, 0x0, 0x0, 0x0, 0x3, 0x0, 0x64, 0x0, 0x6, 0x8,
    0x10, 0x0, 0x1, 0xf3, 0x1, 0xe8, 0xe, 0xa, 0x11, 0x0, 0xd6, 0x6, 0x12, 0xc6, 0xf, 0xa, 0x36, 0x0,
];
const DATA1_56: [u8; 56] = [
    0x1, 0x0, 0x0, 0x0, 0x66, 0x0, 0x0, 0x0, 0x58, 0x6b, 0x80, 0xd6, 0xf3, 0x0, 0x0, 0x0, 0xf3, 0x0,
    0xa8, 0xc0, 0x51, 0x75, 0x61, 0x6e, 0x74, 0x75, 0x6d, 0x52, 0x61, 0x64, 0x61, 0x72, 0x0, 0x0,
    0x0, 0x0, 0x0, 0x0, 0x0, 0x0, 0x0, 0x0, 0x0, 0x0, 0x0, 0x0, 0x0, 0x0, 0x0, 0x0, 0x0, 0x0, 0x2,
    0x0, 0x0, 0x0,
];

// The same radar over a wired connection, at 10.30.200.221.
const DATA2_36: [u8; 36] = [
    0x0, 0x0, 0x0, 0x0, // message_type
    0x58, 0x6b, 0x80, 0xd6, // link id
    0x28, 0x0, 0x0, 0x0, // submessage type
    0x3, 0x0, 0x64, 0x0, // ?
    0x6, 0x8, 0x10, 0x0, // ?
    0x1, 0xa7, 0x1, 0xe8, 0xe, 0xa, // 232.1.167.1:2574
    0x11, 0x0, // ?
    0xdd, 0xc8, 0x1e, 0xa, 0xf, 0xa, // 10.30.200.221:2575
    0x36, 0x0, // ?
];
const DATA2_56: [u8; 56] = [
    0x1, 0x0, 0x0, 0x0, // message_type
    0x66, 0x0, 0x0, 0x0, // subtype?
    0x58, 0x6b, 0x80, 0xd6, // link id
    0xf3, 0x0, 0x0, 0x0, //
    0xa7, 0x27, 0xa8, 0xc0, //
    0x51, 0x75, 0x61, 0x6e, 0x74, 0x75, 0x6d, // "Quantum"
    0x52, 0x61, 0x64, 0x61, 0x72, // "Radar"
    0x0, 0x0, 0x0, 0x0, 0x0, 0x0, 0x0, 0x0, 0x0, 0x0, 0x0, 0x0, 0x0, 0x0, 0x0, 0x0, 0x0, 0x0, 0x0,
    0x0, // remaining blank bytes fills 32 bytes
    0x2, 0x0, 0x0, 0x0,
];

// An analog radar behind an E series display at 10.0.234.47.
const DATA3_36: [u8; 36] = [
    0x0, 0x0, 0x0, 0x0, // message_type
    0xb1, 0x69, 0xc2, 0xb2, // link_id
    0x1, 0x0, 0x0, 0x0, // sub_type 1
    0x1, 0x0, 0x1e, 0x0, //
    0xb, 0x8, 0x10, 0x0, //
    231, 69, 29, 224, 0x6, 0xa, 0x0, 0x0, // 224.29.69.231:2566 The radar sends to ...
    47, 234, 0, 10, 11, 8, 0, 0, // 10.0.234.47:2059 ... and receives on
];
const DATA3_56: [u8; 56] = [
    0x1, 0x0, 0x0, 0x0, // message_type
    0x1, 0x0, 0x0, 0x0, // sub_type
    0xb1, 0x69, 0xc2, 0xb2, // link_id
    0xb, 0x2, 0x0, 0x0, //
    0x2f, 0xea, 0x0, 0xa, 0x0, //
    // From here on lots of ascii number (3 = 0x33) and 0xcc ...
    0x31, 0xcc, 0x33, 0xcc, 0x33, 0xcc, 0x33, 0xcc, 0x33, 0x4e, 0x37, 0xcc, 0x27, 0xcc, 0x33, 0xcc,
    0x33, 0xcc, 0x33, 0xcc, 0x30, 0xcc, 0x13, 0xc8, 0x33, 0xcc, 0x13, 0xcc, 0x33, 0xc0, 0x13, 0x2,
    0x0, 0x1, 0x0,
];

fn via() -> u32 {
    make_ipv4(VIA[0], VIA[1], VIA[2], VIA[3])
}

#[test]
fn decode_raymarine_locator_beacon() {
    let targets = TargetMode::Arpa;
    let mut state = RaymarineLocatorState::new();
    let r = state.process_beacon_36_report(&DATA1_36, via(), targets, false, 0);
    assert!(r.is_ok());
    let r = r.unwrap();
    assert!(r.is_none());
    let r = state.process_beacon_56_report(&DATA1_56);
    assert!(r.is_ok());
    let r = state.process_beacon_36_report(&DATA1_36, via(), targets, false, 0);
    assert!(r.is_ok());
    let r = r.unwrap();
    assert!(r.is_some());
    let r = r.unwrap();
    println!("Radar: {:?}", r);
    assert_eq!(r.controls.model_name(), Some("QuantumRadar".to_string()));
    assert_eq!(r.serial_no, None);
    assert_eq!(r.send_command_addr, Endpoint::new(198, 18, 6, 214, 2575));
    assert_eq!(r.spoke_data_addr, Endpoint::new(232, 1, 243, 1, 2574));
    assert_eq!(r.report_addr, Endpoint::new(232, 1, 243, 1, 2574));

    let mut state = RaymarineLocatorState::new();
    let r = state.process_beacon_36_report(&DATA2_36, via(), targets, false, 0);
    assert!(r.is_ok());
    let r = r.unwrap();
    assert!(r.is_none());
    let r = state.process_beacon_56_report(&DATA2_56);
    assert!(r.is_ok());
    let r = state.process_beacon_36_report(&DATA2_36, via(), targets, false, 0);
    assert!(r.is_ok());
    let r = r.unwrap();
    assert!(r.is_some());
    let r = r.unwrap();
    println!("Radar: {:?}", r);
    assert_eq!(r.controls.model_name(), Some("QuantumRadar".to_string()));
    assert_eq!(r.serial_no, None);
    assert_eq!(r.send_command_addr, Endpoint::new(10, 30, 200, 221, 2575));
    assert_eq!(r.spoke_data_addr, Endpoint::new(232, 1, 167, 1, 2574));
    assert_eq!(r.report_addr, Endpoint::new(232, 1, 167, 1, 2574));

    let mut state = RaymarineLocatorState::new();
    let r = state.process_beacon_36_report(&DATA3_36, via(), targets, false, 0);
    assert!(r.is_ok());
    let r = r.unwrap();
    assert!(r.is_none());
    let r = state.process_beacon_56_report(&DATA3_56);
    assert!(r.is_ok());
    let r = state.process_beacon_36_report(&DATA3_36, via(), targets, false, 0);
    assert!(r.is_ok());
    let r = r.unwrap();
    assert!(r.is_some());
    let r = r.unwrap();
    println!("Radar: {:?}", r);
    assert_eq!(r.controls.model_name(), Some("RD/HD/Eseries".to_string()));
    assert_eq!(r.serial_no, None);
    assert_eq!(r.send_command_addr, Endpoint::new(10, 0, 234, 47, 2059));
    assert_eq!(r.spoke_data_addr, Endpoint::new(224, 29, 69, 231, 2566));
    assert_eq!(r.report_addr, Endpoint::new(224, 29, 69, 231, 2566));
}

#[test]
fn raymarine_beacons_by_length() {
    let targets = TargetMode::Arpa;
    let mut state = RaymarineLocatorState::new();
    assert!(state.process(&DATA1_36, via(), targets, false, 0).is_none());
    assert!(state.process(&DATA1_56, via(), targets, false, 0).is_none());
    assert!(state.process(&DATA1_36[..35], via(), targets, false, 0).is_none());
    let info = state.process(&DATA1_36, via(), targets, false, 0).unwrap();
    assert_eq!(info.nic_addr, via());
    assert_eq!(info.spokes_per_revolution, 250);
    assert_eq!(info.max_spoke_len, 252);
    assert!(state.process_beacon_36_report(&DATA1_36[..35], via(), targets, false, 0).is_err());
    assert!(state.process_beacon_56_report(&DATA1_56[..55]).is_err());
    // Beacons of another kind tell nothing.
    let mut other = DATA1_36;
    other[8] = 0x29;
    assert!(state.process(&other, via(), targets, false, 0).is_none());

    let mut radars = SharedRadars::new(Persistence { config: Config::new() });
    let key = info.key();
    let (at, _) = found(info, &mut radars, Ranges::empty()).unwrap();
    assert_eq!(at, 0);
    assert_eq!(radars.info[0].key, key);
    let again = state.process(&DATA1_36, via(), targets, false, 0).unwrap();
    assert!(found(again, &mut radars, Ranges::empty()).is_none());
    assert_eq!(beacon_address(), Endpoint::new(224, 0, 0, 1, 5800));
    assert_eq!(Model::new("Quantum"), Model::Quantum);
    assert_eq!(Model::new("anything"), Model::Eseries);
    assert_eq!(Model::Eseries.to_str(), "RD/HD/Eseries");
    assert_eq!(Model::Quantum.base_model(), BaseModel::Quantum);
}

#[test]
fn raymarine_controls_by_model() {
    let q = settings::new(TargetMode::Arpa, false, "r".to_string(), BaseModel::Quantum, None);
    assert!(q.contains_key(&ControlId::ColorGain));
    assert!(!q.contains_key(&ControlId::Ftc));
    let r = settings::new(TargetMode::Arpa, false, "r".to_string(), BaseModel::RD, Some("RD424"));
    assert!(r.contains_key(&ControlId::Ftc));
    assert!(!r.contains_key(&ControlId::ColorGain));
    assert_eq!(r.model_name(), Some("RD424".to_string()));
}

fn facts(name: &str) -> ModelFacts {
    ModelFacts { name: name.to_string(), max_spoke_len: 512, pixel_values: 128, doppler: true }
}

fn told(model_serial: &str) -> InfoReport {
    InfoReport { serial_nr: "1234567".to_string(), model_serial: model_serial.to_string() }
}

#[test]
fn raymarine_models_are_told() {
    let mut radars = SharedRadars::new(Persistence { config: Config::new() });
    let mut state = RaymarineLocatorState::new();
    state.process_beacon_56_report(&DATA1_56).unwrap();
    let info = state
        .process_beacon_36_report(&DATA1_36, via(), TargetMode::Arpa, false, 0)
        .unwrap()
        .unwrap();
    let (at, _) = found(info, &mut radars, Ranges::empty()).unwrap();
    let info = &mut radars.info[at];
    let spokes = info.spokes_per_revolution;
    let len = info.max_spoke_len;

    let r = model_told(BaseModel::Quantum, info, told("123456"), None, facts("E series"));
    assert_eq!(r, None);
    let r = model_told(BaseModel::RD, info, told("E12345"), None, facts("E series"));
    assert_eq!(r, None);
    assert_eq!(info.serial_no, None);
    assert_eq!(info.controls.model_name(), Some("RD/HD/Eseries".to_string()));

    let listed = Some(facts("Quantum Q24D"));
    let r = model_told(BaseModel::Quantum, info, told("E70498"), listed, facts("E series"));
    assert_eq!(r, Some(ReceiverState::InfoRequestReceived));
    assert_eq!(info.serial_no, Some("1234567".to_string()));
    assert_eq!(info.controls.model_name(), Some("Quantum Q24D".to_string()));
    assert_eq!(info.controls.user_name(), "RD/HD/Eseries");
    assert_eq!((info.spokes_per_revolution, info.max_spoke_len), (spokes, len));
    assert_eq!((info.pixel_values, info.doppler), (128, true));
    assert!(info.legend.doppler_approaching > 0);
    assert!(info.controls.contains_key(&ControlId::TargetExpansion));

    let r = model_told(BaseModel::RD, info, told("123456"), None, facts("E series"));
    assert_eq!(r, Some(ReceiverState::InfoRequestReceived));
    assert_eq!(info.controls.model_name(), Some("E series".to_string()));
    assert_eq!((info.spokes_per_revolution, info.max_spoke_len), (512, 512));

    assert_eq!(range_in_use(info, &vec![1852, 463, 926], 1), Some(926));
    assert_eq!(info.ranges.all.len(), 3);
    assert_eq!(range_in_use(info, &vec![100], 0), Some(463));
    assert_eq!(range_in_use(info, &vec![100], 3), None);
    assert_eq!(info.ranges.all.len(), 3);
}

#[test]
fn runs_are_unpacked() {
    let unpack = |data: &[u8], len| process_spoke(&PixelCoding::Hd, len, data);
    assert_eq!(unpack(&[2, 4, 6], 10), Some(vec![1, 2, 3]));
    assert_eq!(unpack(&[2, 0x5c, 3, 8, 6], 10), Some(vec![1, 4, 4, 4, 3]));
    assert_eq!(unpack(&[2, 0x5c, 3, 8, 6], 3), Some(vec![1, 4, 4]));
    assert_eq!(unpack(&[2, 0x5c, 3], 10), None);
    assert_eq!(unpack(&[0x5c, 0, 8], 10), Some(vec![]));
    assert_eq!(process_spoke(&PixelCoding::Nibbles, 10, &[0x2f]), Some(vec![120, 16]));
    let mut table = [0u8; 256];
    table[7] = 99;
    assert_eq!(process_spoke(&PixelCoding::Table(&table), 10, &[7, 8]), Some(vec![99, 0]));
}

#[test]
fn kinds_of_reports() {
    let kind = |id: u32| process_report(&id.to_le_bytes()).unwrap();
    assert_eq!(kind(0x010001), ReportKind::RdStatus);
    assert_eq!(kind(0x018801), ReportKind::RdStatus);
    assert_eq!(kind(0x010002), ReportKind::RdFixed);
    assert_eq!(kind(0x010003), ReportKind::RdFrame);
    assert_eq!(kind(0x010006), ReportKind::RdInfo);
    assert_eq!(kind(0x280001), ReportKind::QuantumInfo);
    assert_eq!(kind(0x280002), ReportKind::QuantumStatus);
    assert_eq!(kind(0x280003), ReportKind::QuantumFrame);
    assert_eq!(kind(0x280030), ReportKind::QuantumDoppler);
    assert_eq!(kind(7), ReportKind::Unknown(7));
    assert_eq!(process_report(&[1, 0, 1]), None);
    let mut reported = Vec::new();
    assert!(first_unknown_report(&mut reported, 7));
    assert!(!first_unknown_report(&mut reported, 7));
    assert!(first_unknown_report(&mut reported, 8));
    assert_eq!(read_power(0), Power::Standby);
    assert_eq!(read_power(1), Power::Transmit);
    assert_eq!(read_power(2), Power::Preparing);
    assert_eq!(read_power(3), Power::Off);
    assert_eq!(read_power(77), Power::Standby);
    assert!(is_eseries_serial("123456"));
    assert!(!is_eseries_serial("E12345"));
    assert!(ReceiverState::Initial.is_before(ReceiverState::InfoRequestReceived));
    assert!(!ReceiverState::StatusRequestReceived.is_before(ReceiverState::InfoRequestReceived));
    let mut raw = Vec::new();
    raw.extend_from_slice(&1000u32.to_le_bytes());
    raw.extend_from_slice(&125u32.to_le_bytes());
    raw.extend_from_slice(&u32::MAX.to_le_bytes());
    assert_eq!(range_distances(&raw, 0, 3), vec![1852, 231, i32::MAX]);
}

fn setting(settings: &[WireSetting], id: ControlId) -> WireSetting {
    *settings.iter().find(|s| s.id == id).unwrap()
}

fn quantum_frame() -> Vec<u8> {
    let mut data = vec![0u8; 20];
    data[0..4].copy_from_slice(&0x280003u32.to_le_bytes());
    data[8..10].copy_from_slice(&4u16.to_le_bytes());
    data[10..12].copy_from_slice(&250u16.to_le_bytes());
    data[14..16].copy_from_slice(&8u16.to_le_bytes());
    data[16..18].copy_from_slice(&200u16.to_le_bytes());
    data[18..20].copy_from_slice(&5u16.to_le_bytes());
    data.extend_from_slice(&[9, 0x5c, 2, 7, 8]);
    data
}

#[test]
fn quantum_spokes() {
    let mut table = PixelToBlob { normal: [0u8; 256], doppler: [0u8; 256] };
    for b in 0..256 {
        table.doppler[b] = b as u8;
    }
    let ready = ReceiverState::StatusRequestReceived;
    let data = quantum_frame();
    let line = quantum::process_frame(ready, 250, 1000, &table, &data).unwrap();
    assert_eq!(line.range, 500);
    assert_eq!(line.angle, (200 + 125) % 250);
    assert_eq!(line.heading, None);
    assert_eq!(line.pixels, vec![9, 7, 7, 8]);
    let problem = |state, spokes, data: &[u8]| {
        quantum::process_frame(state, spokes, 1000, &table, data).unwrap_err()
    };
    assert_eq!(problem(ReceiverState::Initial, 250, &data), quantum::FrameProblem::NotReady);
    assert_eq!(problem(ready, 250, &data[..19]), quantum::FrameProblem::TooShort);
    assert_eq!(problem(ready, 251, &data), quantum::FrameProblem::BadSpokeCount);
    assert_eq!(problem(ready, 250, &data[..24]), quantum::FrameProblem::Broken);
}

#[test]
fn quantum_reports() {
    let mut data = vec![0u8; 260];
    data[4] = 1;
    data[14..16].copy_from_slice(&(-15i16).to_le_bytes());
    data[17] = 3;
    data[20] = 2;
    data[21] = 1;
    data[30..38].copy_from_slice(&[1, 40, 0, 50, 1, 60, 0, 70]);
    data[54] = 1;
    data[55] = 2;
    data[59] = 1;
    data[132..134].copy_from_slice(&100u16.to_le_bytes());
    data[134..136].copy_from_slice(&200u16.to_le_bytes());
    data[136] = 1;
    data[148..152].copy_from_slice(&1000u32.to_le_bytes());
    let report = quantum::read_status_report(true, &data).unwrap();
    assert_eq!(report.state, ReceiverState::StatusRequestReceived);
    assert_eq!(report.range_index, 2);
    assert_eq!(report.ranges.len(), 20);
    assert_eq!(report.ranges[0], 1852);
    assert!(quantum::read_status_report(false, &data).is_none());
    assert!(quantum::read_status_report(true, &data[..259]).is_none());
    let settings = quantum::process_status_report(&data, 1852);
    assert_eq!(setting(&settings, ControlId::Power).value, 2);
    assert_eq!(setting(&settings, ControlId::Range).value, 1852);
    assert_eq!(setting(&settings, ControlId::Mode).value, 1);
    assert_eq!(setting(&settings, ControlId::Gain).value, 40);
    assert_eq!(setting(&settings, ControlId::Gain).auto, Some(true));
    assert_eq!(setting(&settings, ControlId::ColorGain).auto, Some(false));
    assert_eq!(setting(&settings, ControlId::Rain).enabled, Some(false));
    assert_eq!(setting(&settings, ControlId::SeaClutterCurve).value, 3);
    assert_eq!(setting(&settings, ControlId::BearingAlignment).value, -15);
    let sector = setting(&settings, ControlId::NoTransmitSector1);
    assert_eq!((sector.value, sector.end, sector.enabled), (100, Some(200), Some(true)));
    data[21] = 9;
    let settings = quantum::process_status_report(&data, 1852);
    assert!(settings.iter().all(|s| s.id != ControlId::Gain));

    let mut data = vec![0u8; 17];
    data[4..10].copy_from_slice(b"E70498");
    data[10..17].copy_from_slice(b"0880217");
    let info = quantum::process_info_report(false, &data).unwrap();
    assert_eq!(info.serial_nr, "0880217");
    assert_eq!(info.model_serial, "E70498");
    assert_eq!(quantum::process_info_report(true, &data).unwrap_err(), InfoProblem::AlreadyKnown);
    assert_eq!(
        quantum::process_info_report(false, &data[..16]).unwrap_err(),
        InfoProblem::TooShort
    );
    let (on, told_apart) = quantum::process_doppler_report(&[0, 0, 0, 0, 3]).unwrap();
    assert_eq!((on.id, on.value, told_apart), (ControlId::Doppler, 1, true));
    let (off, told_apart) = quantum::process_doppler_report(&[0, 0, 0, 0, 1]).unwrap();
    assert_eq!((off.value, told_apart), (0, false));
    assert_eq!(quantum::process_doppler_report(&[0, 0, 0, 0]), None);
}

fn words(values: &[u32]) -> Vec<u8> {
    values.iter().flat_map(|v| v.to_le_bytes()).collect()
}

fn rd_frame(spokes: &[(u32, Vec<u8>)]) -> Vec<u8> {
    let mut data = words(&[0x010003, 0, 0x1c, spokes.len() as u32, 0, 0, 1, 0]);
    for (azimuth, pixels) in spokes {
        data.extend(words(&[1, 0x28, *azimuth, 3, 2, 3, 1, 0, 0, 1]));
        data.extend(words(&[3, pixels.len() as u32 + 12, pixels.len() as u32]));
        data.extend(pixels);
    }
    data
}

#[test]
fn rd_spokes() {
    let ready = ReceiverState::StatusRequestReceived;
    let data = rd_frame(&[(0, vec![2, 4, 0x5c, 2, 6]), (100, vec![8; 40])]);
    let frame = rd::process_frame(ready, 2048, 1000, &data).unwrap();
    assert_eq!(frame.announced, 2);
    assert_eq!(frame.spokes.len(), 2);
    assert_eq!(frame.spokes[0].angle, 1024);
    assert_eq!(frame.spokes[1].angle, 1124);
    assert_eq!(frame.spokes[0].pixels, vec![1, 2, 3, 3]);
    assert_eq!(frame.spokes[1].pixels, vec![4; 40]);
    let problem = |state, data: &[u8]| rd::process_frame(state, 2048, 1000, data).unwrap_err();
    assert_eq!(problem(ReceiverState::Initial, &data), rd::FrameProblem::NotReady);
    assert_eq!(problem(ready, &data[..71]), rd::FrameProblem::TooShort);
    let mut other = data.clone();
    other[8] = 0x1d;
    assert_eq!(problem(ready, &other), rd::FrameProblem::BadHeader);
    let mut other = data.clone();
    other[29] = 4;
    assert_eq!(problem(ready, &other), rd::FrameProblem::OtherRadar);
    let mut other = data.clone();
    other[12] = 0;
    assert_eq!(problem(ready, &other), rd::FrameProblem::BadSpokeCount);
    // A run that is cut off.
    let other = rd_frame(&[(0, vec![0x5c, 2])]);
    assert_eq!(problem(ready, &other), rd::FrameProblem::Broken);
}

#[test]
fn rd_reports() {
    let mut data = vec![0u8; 245];
    data[0..4].copy_from_slice(&0x010001u32.to_le_bytes());
    data[4..8].copy_from_slice(&500u32.to_le_bytes());
    data[180] = 1;
    data[184] = 9;
    data[193] = 4;
    data[196] = 1;
    data[200..204].copy_from_slice(&77u32.to_le_bytes());
    data[224..226].copy_from_slice(&(-5i16).to_le_bytes());
    let fixed = ReceiverState::FixedRequestReceived;
    let report = rd::read_status_report(fixed, &data).unwrap();
    assert_eq!(report.range_index, 4);
    assert_eq!(report.ranges.len(), 11);
    assert_eq!(report.ranges[0], 926);
    assert_eq!(
        rd::read_status_report(ReceiverState::Initial, &data).unwrap_err(),
        rd::ReportProblem::NotReady
    );
    assert_eq!(
        rd::read_status_report(fixed, &data[..244]).unwrap_err(),
        rd::ReportProblem::TooShort
    );
    let settings = rd::process_status_report(&data, 926);
    assert_eq!(setting(&settings, ControlId::Power).value, 2);
    assert_eq!(setting(&settings, ControlId::Gain).value, 77);
    assert_eq!(setting(&settings, ControlId::Gain).auto, Some(true));
    assert_eq!(setting(&settings, ControlId::BearingAlignment).value, -5);
    assert_eq!(setting(&settings, ControlId::WarmupTime).enabled, Some(true));
    // HD radars put the number of the range elsewhere.
    data[0..4].copy_from_slice(&0x018801u32.to_le_bytes());
    assert_eq!(rd::read_status_report(fixed, &data).unwrap_err(), rd::ReportProblem::TooShort);
    data.resize(297, 0);
    data[296] = 6;
    assert_eq!(rd::read_status_report(fixed, &data).unwrap().range_index, 6);
    data[0] = 2;
    assert_eq!(rd::read_status_report(fixed, &data).unwrap_err(), rd::ReportProblem::BadHeader);

    let mut data = vec![0u8; 308];
    data[217..219].copy_from_slice(&1234u16.to_le_bytes());
    data[293] = 10;
    data[294] = 200;
    let info = ReceiverState::InfoRequestReceived;
    let report = rd::process_fixed_report(info, true, &data).unwrap();
    assert_eq!(report.state, fixed);
    assert_eq!(setting(&report.settings, ControlId::OperatingTime).value, 1234);
    assert_eq!(report.ranges.len(), 4);
    assert_eq!((report.ranges[0].min, report.ranges[0].max), (10, 200));
    assert_eq!(rd::process_fixed_report(info, false, &data).unwrap().settings.len(), 0);
    assert_eq!(
        rd::process_fixed_report(ReceiverState::Initial, true, &data).unwrap_err(),
        rd::ReportProblem::NotReady
    );
    assert_eq!(
        rd::process_fixed_report(info, true, &data[..307]).unwrap_err(),
        rd::ReportProblem::TooShort
    );
    let mut data = vec![0u8; 27];
    data[4..11].copy_from_slice(b"1234567");
    data[20..27].copy_from_slice(b"E92142\0");
    let info = rd::process_info_report(false, &data).unwrap();
    assert_eq!(info.serial_nr, "1234567");
    assert_eq!(info.model_serial, "E92142");
    assert_eq!(rd::process_info_report(true, &data).unwrap_err(), InfoProblem::AlreadyKnown);
    assert_eq!(rd::process_info_report(false, &data[..26]).unwrap_err(), InfoProblem::TooShort);
}

#[test]
fn raymarine_pixels() {
    let legend = default_legend(&TargetMode::Arpa, true, 128);
    let table = pixel_to_blob(&legend);
    assert_eq!(table.normal[100], 50);
    assert_eq!(table.normal[255], 127);
    assert_eq!(table.doppler[255], legend.doppler_approaching);
    assert_eq!(table.doppler[254], legend.doppler_receding);
    let legend = default_legend(&TargetMode::Arpa, true, 16);
    assert_eq!(pixel_to_blob(&legend).normal[15], 15);
}

fn value(integer: i32) -> CommandValue {
    CommandValue {
        integer,
        tenths: integer * 10,
        end_tenths: None,
        current_end_tenths: 0,
        level: 0,
        power: None,
        auto: false,
        enabled: false,
    }
}

#[test]
fn quantum_commands() {
    let ranges = vec![100, 200, 400];
    let send = |id, v: &CommandValue| set_control_quantum(id, v, &ranges).unwrap();
    let mut v = value(50);
    assert_eq!(
        send(ControlId::Gain, &v),
        vec![
            vec![0x01, 0x03, 0x28, 0x00, 0x00, 0x00, 0x00, 0x00],
            vec![0x02, 0x83, 0x28, 0x00, 0x00, 50, 0x00, 0x00],
        ]
    );
    v.auto = true;
    assert_eq!(
        send(ControlId::Gain, &v),
        vec![vec![0x01, 0x03, 0x28, 0x00, 0x00, 0x01, 0x00, 0x00]]
    );
    v.power = Some(Power::Transmit);
    assert_eq!(send(ControlId::Power, &v), vec![vec![0x10, 0, 0x28, 0, 1, 0, 0, 0]]);
    v.power = Some(Power::Standby);
    assert_eq!(send(ControlId::Power, &v), vec![vec![0x10, 0, 0x28, 0, 0, 0, 0, 0]]);
    assert_eq!(
        send(ControlId::Range, &value(200)),
        vec![vec![0x01, 0x01, 0x28, 0x00, 0x00, 0x01, 0x00, 0x00]]
    );
    assert_eq!(find_range(&ranges, 400), 2);
    assert!(matches!(
        set_control_quantum(ControlId::Ftc, &v, &ranges),
        Err(RadarError::CannotSetControlId(ControlId::Ftc))
    ));
}

#[test]
fn rd_commands() {
    let ranges = vec![100, 200, 400];
    let mut v = value(1);
    v.power = Some(Power::Transmit);
    assert_eq!(
        set_control_rd(ControlId::Power, &v, &ranges).unwrap(),
        vec![vec![0x01, 0x80, 0x01, 0x00, 0x01, 0x00, 0x00, 0x00]]
    );
    assert_eq!(
        set_control(BaseModel::RD, ControlId::Range, &value(400), &ranges).unwrap(),
        vec![vec![1, 0x81, 1, 0, 1, 0, 0, 0, 2, 0, 0, 0]]
    );
    let v = value(-1);
    assert_eq!(
        set_control_rd(ControlId::BearingAlignment, &v, &ranges).unwrap(),
        vec![vec![0x07, 0x82, 0x01, 0x00, 0xf6, 0xff, 0xff, 0xff]]
    );
    assert!(matches!(
        set_control(BaseModel::RD, ControlId::ColorGain, &v, &ranges),
        Err(RadarError::CannotSetControlId(ControlId::ColorGain))
    ));
}

fn receiver(locator_id: LocatorId) -> RaymarineDataReceiver {
    let mut state = RaymarineLocatorState::new();
    state.process(&DATA3_56, via(), TargetMode::Arpa, false, 0);
    let info = state.process(&DATA3_36, via(), TargetMode::Arpa, false, 0).unwrap();
    RaymarineDataReceiver::new(&info, locator_id, false).0
}

fn packet(angles: &[u16]) -> Vec<u8> {
    let mut data = vec![0u8; 8];
    for angle in angles {
        let mut line = vec![0u8; 536];
        line[0] = 24;
        line[1] = 2;
        line[6..8].copy_from_slice(&0x80u16.to_le_bytes());
        line[8..10].copy_from_slice(&(angle * 2).to_le_bytes());
        line[10..12].copy_from_slice(&0x4123u16.to_le_bytes());
        line[12..14].copy_from_slice(&400u16.to_le_bytes());
        line[24] = 0xfe;
        data.extend(line);
    }
    data
}

#[test]
fn packed_spokes() {
    let r = receiver(LocatorId::Gen3Plus);
    let angles: Vec<u16> = (0..32).collect();
    let received = r.process_frame(&packet(&angles));
    assert_eq!(received.lines.len(), SPOKES_PER_FRAME);
    assert_eq!(received.broken_packets, 0);
    assert!(!received.full_rotation);
    assert_eq!(received.lines[5].angle, 5);
    assert_eq!(received.lines[5].range, 100);
    assert_eq!(received.lines[5].heading, Some(0x123));
    assert_eq!(received.lines[5].pixels.len(), 1024);
    assert_eq!(&received.lines[5].pixels[..4], &[0x0e, 0x0f, 0, 0]);
    // The older kind of header tells the range in plain meters.
    let received = receiver(LocatorId::GenBR24).process_frame(&packet(&[1]));
    assert_eq!(received.lines[0].range, 400);
    assert_eq!(received.broken_packets, 1);

    let received = r.process_frame(&packet(&[2047, 0]));
    assert!(received.full_rotation);
    let many: Vec<u16> = (0..40).collect();
    let received = r.process_frame(&packet(&many));
    assert_eq!(received.lines.len(), 32);
    assert_eq!(received.broken_packets, 1);
    let mut data = packet(&[1, 2]);
    data[9] = 0x03;
    let received = r.process_frame(&data);
    assert_eq!(received.lines.len(), 1);
    assert_eq!(received.broken_packets, 2);
    let received = r.process_frame(&data[..500]);
    assert_eq!((received.lines.len(), received.broken_packets), (0, 0));
}

#[test]
fn messages_to_the_receiver() {
    let mut r = receiver(LocatorId::Gen3Plus);
    let set = |id, s: &str| Some(DataUpdate::ControlValue(id, s.to_string()));
    assert_eq!(
        r.handle_data_update(set(ControlId::ClearTrails, "")).unwrap(),
        TrailsAction::Clear
    );
    assert_eq!(
        r.handle_data_update(set(ControlId::DopplerTrailsOnly, "1")).unwrap(),
        TrailsAction::DopplerOnly(true)
    );
    assert_eq!(
        r.handle_data_update(set(ControlId::TargetTrails, "5")).unwrap(),
        TrailsAction::Length(5)
    );
    assert_eq!(
        r.handle_data_update(set(ControlId::TargetTrails, "long")).unwrap(),
        TrailsAction::Length(0)
    );
    assert_eq!(
        r.handle_data_update(set(ControlId::TrailsMotion, "1")).unwrap(),
        TrailsAction::TrueMotion(true)
    );
    assert!(matches!(
        r.handle_data_update(set(ControlId::TrailsMotion, "2")),
        Err(RadarError::CannotSetControlId(ControlId::TrailsMotion))
    ));
    assert!(matches!(
        r.handle_data_update(set(ControlId::Gain, "2")),
        Err(RadarError::CannotSetControlId(ControlId::Gain))
    ));
    assert!(matches!(r.handle_data_update(None), Err(RadarError::Shutdown)));
    let update = Some(DataUpdate::Doppler(DopplerMode::Both));
    assert_eq!(r.handle_data_update(update).unwrap(), TrailsAction::Nothing);
    let legend = default_legend(&TargetMode::Arpa, true, 16);
    let (approaching, receding) = (legend.doppler_approaching, legend.doppler_receding);
    let update = Some(DataUpdate::Legend(legend));
    assert_eq!(r.handle_data_update(update).unwrap(), TrailsAction::Nothing);
    let received = r.process_frame(&packet(&[1]));
    assert_eq!(&received.lines[0].pixels[..2], &[receding, approaching]);
}

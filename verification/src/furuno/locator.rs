//! Finding Furuno radars by the beacons that they send, and logging in to them.
use std::collections::HashMap;
use vstd::prelude::*;

use crate::brand::{Brand, TargetMode};
use crate::config::remembered;
use crate::control_id::ControlId;
use crate::controls::{is_new_control, Ranges};
use crate::furuno::settings;
use crate::furuno::settings::{RadarModel, FURUNO_SPOKES, FURUNO_SPOKE_LEN};
use crate::network::{ipv4, Endpoint};
use crate::radar::{
    is_identified, is_located, is_named_by_key, is_new_radar, RadarInfo, SharedRadars,
};
use crate::text::{c_string, c_text, field_ends_at_its_first_nul};
use crate::value::opt_text;

verus! {

pub const FURUNO_BASE_PORT: u16 = 10000;

/// Where spokes are sent to.
pub const FURUNO_DATA_PORT: u16 = 10024;

/// The length that a beacon has at least.
pub const FURUNO_RADAR_REPORT_LENGTH_MIN: usize = 24;

/// The length of a report of the model.
pub const MODEL_REPORT_LENGTH: usize = 170;

/// Where radars send their beacons to.
pub fn beacon_address() -> (e: Endpoint)
    ensures
        e == (Endpoint { ip: ipv4(172, 31, 255, 255) as u32, port: 10010 }),
{
    Endpoint::new(172, 31, 255, 255, 10010)
}

/// The packet that announces a display to radars.
pub fn announce_packet() -> (p: [u8; 32])
    ensures
        p@.subrange(16, 22) == seq![77u8, 65u8, 89u8, 65u8, 82u8, 65u8],
        p@ == seq![
            0x1u8, 0x0u8, 0x0u8, 0x1u8, 0x0u8, 0x0u8, 0x0u8, 0x0u8, 0x0u8, 0x1u8, 0x0u8, 0x18u8,
            0x1u8, 0x0u8, 0x0u8, 0x0u8, 77u8, 65u8, 89u8, 65u8, 82u8, 65u8, 0x0u8, 0x0u8, 0x1u8,
            0x1u8, 0x0u8, 0x2u8, 0x0u8, 0x1u8, 0x0u8, 0x12u8,
        ],
{
    let p: [u8; 32] = [
        0x1, 0x0, 0x0, 0x1, 0x0, 0x0, 0x0, 0x0, 0x0, 0x1, 0x0, 0x18, 0x1, 0x0, 0x0, 0x0, 77, 65, 89,
        65, 82, 65, 0x0, 0x0, 0x1, 0x1, 0x0, 0x2, 0x0, 0x1, 0x0, 0x12,
    ];
    assert(p@.subrange(16, 22) =~= seq![77u8, 65u8, 89u8, 65u8, 82u8, 65u8]);
    p
}

/// The packet that asks radars to send a beacon.
pub fn request_beacon_packet() -> (p: [u8; 16])
    ensures
        p@ == seq![
            0x01u8, 0x00u8, 0x00u8, 0x01u8, 0x00u8, 0x00u8, 0x00u8, 0x00u8, 0x01u8, 0x01u8, 0x00u8,
            0x08u8, 0x01u8, 0x00u8, 0x00u8, 0x00u8,
        ],
{
    [
        0x01, 0x00, 0x00, 0x01, 0x00, 0x00, 0x00, 0x00, 0x01, 0x01, 0x00, 0x08, 0x01, 0x00, 0x00,
        0x00,
    ]
}

/// The packet that asks radars to report their model.
pub fn request_model_packet() -> (p: [u8; 16])
    ensures
        p@ == seq![
            0x01u8, 0x00u8, 0x00u8, 0x01u8, 0x00u8, 0x00u8, 0x00u8, 0x00u8, 0x14u8, 0x01u8, 0x00u8,
            0x08u8, 0x01u8, 0x00u8, 0x00u8, 0x00u8,
        ],
{
    [
        0x01, 0x00, 0x00, 0x01, 0x00, 0x00, 0x00, 0x00, 0x14, 0x01, 0x00, 0x08, 0x01, 0x00, 0x00,
        0x00,
    ]
}

/// The bytes that the reply to a login starts with.
pub open spec fn expected_header() -> Seq<u8> {
    seq![0x9u8, 0x1u8, 0x0u8, 0xcu8, 0x1u8, 0x0u8, 0x0u8, 0x0u8]
}

/// Why a login failed.
#[derive(Clone, Copy, Debug, PartialEq, Eq, Structural)]
pub enum LoginProblem {
    /// The reply does not start as it should.
    UnexpectedReply,
    /// The port that the radar tells does not exist.
    InvalidPort,
}

/// The message that logs a display in to a radar. After twelve bytes it is the text "COPYRIGHT (C)
/// 2001 FURUNO ELECTRIC CO.,LTD. ".
pub fn login_message() -> (p: [u8; 56])
    ensures
        p@ == seq![
            0x08u8, 0x01u8, 0x00u8, 0x38u8, 0x01u8, 0x00u8, 0x00u8, 0x00u8, 0x00u8, 0x01u8,
            0x00u8, 0x00u8, 0x43u8, 0x4fu8, 0x50u8, 0x59u8, 0x52u8, 0x49u8, 0x47u8, 0x48u8,
            0x54u8, 0x20u8, 0x28u8, 0x43u8, 0x29u8, 0x20u8, 0x32u8, 0x30u8, 0x30u8, 0x31u8,
            0x20u8, 0x46u8, 0x55u8, 0x52u8, 0x55u8, 0x4eu8, 0x4fu8, 0x20u8, 0x45u8, 0x4cu8,
            0x45u8, 0x43u8, 0x54u8, 0x52u8, 0x49u8, 0x43u8, 0x20u8, 0x43u8, 0x4fu8, 0x2eu8,
            0x2cu8, 0x4cu8, 0x54u8, 0x44u8, 0x2eu8, 0x20u8,
        ],
{
    [
        0x08, 0x01, 0x00, 0x38, 0x01, 0x00, 0x00, 0x00, 0x00, 0x01, 0x00, 0x00, 0x43, 0x4f, 0x50,
        0x59, 0x52, 0x49, 0x47, 0x48, 0x54, 0x20, 0x28, 0x43, 0x29, 0x20, 0x32, 0x30, 0x30, 0x31,
        0x20, 0x46, 0x55, 0x52, 0x55, 0x4e, 0x4f, 0x20, 0x45, 0x4c, 0x45, 0x43, 0x54, 0x52, 0x49,
        0x43, 0x20, 0x43, 0x4f, 0x2e, 0x2c, 0x4c, 0x54, 0x44, 0x2e, 0x20,
    ]
}

/// What the reply to a login leads to: the port for commands and reports, or a problem.
pub open spec fn login_result(header: Seq<u8>, tail: Seq<u8>) -> Result<u16, LoginProblem> {
    if header != expected_header() {
        Err(LoginProblem::UnexpectedReply)
    } else if FURUNO_BASE_PORT + 0x100 * tail[0] + tail[1] > u16::MAX {
        Err(LoginProblem::InvalidPort)
    } else {
        Ok((FURUNO_BASE_PORT + 0x100 * tail[0] + tail[1]) as u16)
    }
}

/// The port for commands and reports that the reply to a login tells: the start of the reply, and the
/// four bytes that follow.
pub fn login_port(header: &[u8; 8], tail: &[u8; 4]) -> (r: Result<u16, LoginProblem>)
    ensures
        r == login_result(header@, tail@),
{
    let same = header[0] == 0x9 && header[1] == 0x1 && header[2] == 0x0 && header[3] == 0xc
        && header[4] == 0x1 && header[5] == 0x0 && header[6] == 0x0 && header[7] == 0x0;
    if !same {
        return Err(LoginProblem::UnexpectedReply);
    }
    assert(header@ =~= expected_header());
    let port: u32 = FURUNO_BASE_PORT as u32 + 0x100 * (tail[0] as u32) + tail[1] as u32;
    if port > u16::MAX as u32 {
        return Err(LoginProblem::InvalidPort);
    }
    Ok(port as u16)
}

/// The kinds of datagrams that radars send to the address for beacons.
#[derive(Clone, Copy, Debug, PartialEq, Eq, Structural)]
pub enum BeaconKind {
    /// Nothing of use.
    Other,
    /// A beacon.
    Beacon,
    /// A report of the model.
    ModelReport,
}

/// The bytes that a beacon starts with.
pub open spec fn beacon_header() -> Seq<u8> {
    seq![0x1u8, 0x0u8, 0x0u8, 0x1u8, 0x0u8, 0x0u8, 0x0u8, 0x0u8, 0x0u8, 0x1u8, 0x0u8]
}

/// What a datagram is: a beacon of a radar starts with the header, and has a name that starts with an
/// R.
pub open spec fn beacon_kind(report: Seq<u8>) -> BeaconKind {
    if report.len() >= FURUNO_RADAR_REPORT_LENGTH_MIN && report[16] == 82 && report.take(11)
        == beacon_header() {
        BeaconKind::Beacon
    } else if report.len() == MODEL_REPORT_LENGTH {
        BeaconKind::ModelReport
    } else {
        BeaconKind::Other
    }
}

/// What a datagram is.
pub fn process_locator_report(report: &[u8]) -> (kind: BeaconKind)
    ensures
        kind == beacon_kind(report@),
{
    if report.len() >= FURUNO_RADAR_REPORT_LENGTH_MIN {
        let same = report[0] == 0x1 && report[1] == 0x0 && report[2] == 0x0 && report[3] == 0x1
            && report[4] == 0x0 && report[5] == 0x0 && report[6] == 0x0 && report[7] == 0x0
            && report[8] == 0x0 && report[9] == 0x1 && report[10] == 0x0;
        proof {
            if same {
                assert(report@.take(11) =~= beacon_header());
            } else {
                let s = report@.take(11);
                assert(s[0] == report@[0] && s[1] == report@[1] && s[2] == report@[2] && s[3]
                    == report@[3] && s[4] == report@[4] && s[5] == report@[5] && s[6] == report@[6]
                    && s[7] == report@[7] && s[8] == report@[8] && s[9] == report@[9] && s[10]
                    == report@[10]);
            }
        }
        if report[16] == 82 && same {
            return BeaconKind::Beacon;
        }
    }
    if report.len() == MODEL_REPORT_LENGTH {
        BeaconKind::ModelReport
    } else {
        BeaconKind::Other
    }
}

/// The name of the radar in a beacon, where the beacon is as long as it says.
pub open spec fn beacon_name(report: Seq<u8>) -> Option<Seq<char>> {
    if report.len() >= FURUNO_RADAR_REPORT_LENGTH_MIN && report[11] + 8 == report.len() {
        c_text(report.subrange(16, 24))
    } else {
        None
    }
}

/// A radar as a beacon tells of it. The port for commands and reports comes with the login.
pub open spec fn is_found(
    info: RadarInfo,
    name: Seq<char>,
    from: Endpoint,
    via: u32,
    targets: TargetMode,
    replay: bool,
    now: u64,
) -> bool {
    &&& info.well_formed()
    &&& is_new_radar(
        info,
        targets,
        replay,
        Brand::Furuno,
        None,
        Some(name),
        64,
        FURUNO_SPOKES as int,
        FURUNO_SPOKE_LEN as int,
        from,
        via,
        Endpoint { ip: ipv4(239, 255, 0, 2) as u32, port: FURUNO_DATA_PORT },
        Endpoint { ip: from.ip, port: 0 },
        Endpoint { ip: from.ip, port: 0 },
        true,
        now,
    )
    &&& info.controls.replay == replay
    &&& forall|id: ControlId| #[trigger]
        is_new_control(
            info.controls.slot(id),
            id,
            settings::initial_item(id),
            None,
            replay,
            targets,
        )
}

/// Handles a beacon: the radar that it tells of.
pub fn process_beacon_report(
    report: &[u8],
    from: Endpoint,
    via: u32,
    targets: TargetMode,
    replay: bool,
    now: u64,
) -> (r: Option<RadarInfo>)
    ensures
        match beacon_name(report@) {
            Some(name) => r matches Some(info) && is_found(
                info,
                name,
                from,
                via,
                targets,
                replay,
                now,
            ),
            None => r is None,
        },
{
    if report.len() < FURUNO_RADAR_REPORT_LENGTH_MIN || report[11] as usize + 8 != report.len() {
        return None;
    }
    let name = match c_string(vstd::slice::slice_subrange(report, 16, 24)) {
        Some(name) => name,
        None => {
            return None;
        },
    };
    let controls = settings::new(targets, replay, String::new());
    let report_addr = Endpoint { ip: from.ip, port: 0 };
    let info = RadarInfo::new(
        targets,
        replay,
        Brand::Furuno,
        None,
        Some(name.as_str()),
        64,
        FURUNO_SPOKES,
        FURUNO_SPOKE_LEN,
        from,
        via,
        Endpoint::new(239, 255, 0, 2, FURUNO_DATA_PORT),
        report_addr,
        report_addr,
        controls,
        true,
        now,
    );
    proof {
        assert(is_new_control(
            info.controls.slot(ControlId::UserName),
            ControlId::UserName,
            settings::initial_item(ControlId::UserName),
            None,
            replay,
            targets,
        ));
        assert(is_new_control(
            info.controls.slot(ControlId::ModelName),
            ControlId::ModelName,
            settings::initial_item(ControlId::ModelName),
            None,
            replay,
            targets,
        ));
        assert(is_new_control(
            info.controls.slot(ControlId::Range),
            ControlId::Range,
            settings::initial_item(ControlId::Range),
            None,
            replay,
            targets,
        ));
    }
    Some(info)
}

/// A number for an endpoint.
pub open spec fn endpoint_number(e: Endpoint) -> int {
    e.ip * 0x1_0000 + e.port
}

fn number_of(e: &Endpoint) -> (n: u64)
    ensures
        n == endpoint_number(*e),
{
    e.ip as u64 * 0x1_0000 + e.port as u64
}

/// The number of an endpoint determines the endpoint.
pub proof fn endpoint_numbers_differ(a: Endpoint, b: Endpoint)
    requires
        endpoint_number(a) == endpoint_number(b),
    ensures
        a == b,
{
}

/// The radars that are logged in to, by the endpoints that they send from.
#[derive(Debug)]
pub struct FurunoLocator {
    pub radar_keys: HashMap<u64, String>,
    /// Whether a radar reported its model.
    pub model_found: bool,
}

impl FurunoLocator {
    /// The key of the radar that sends from an endpoint.
    pub open spec fn key_of(&self, from: Endpoint) -> Option<Seq<char>> {
        if self.radar_keys@.contains_key(endpoint_number(from) as u64) {
            Some(self.radar_keys@[endpoint_number(from) as u64]@)
        } else {
            None
        }
    }

    /// No radar was found yet.
    pub fn new() -> (l: FurunoLocator)
        ensures
            !l.model_found,
            forall|e: Endpoint| (#[trigger] l.key_of(e)) is None,
    {
        FurunoLocator { radar_keys: HashMap::new(), model_found: false }
    }

    /// A radar that sends from an endpoint was logged in to.
    pub fn logged_in(&mut self, from: Endpoint, key: String)
        ensures
            final(self).model_found == old(self).model_found,
            forall|e: Endpoint|
                (#[trigger] final(self).key_of(e)) == if e == from {
                    Some(key@)
                } else {
                    old(self).key_of(e)
                },
    {
        broadcast use vstd::std_specs::hash::group_hash_axioms;

        let n: u64 = number_of(&from);
        let _ = self.radar_keys.insert(n, key);
        proof {
            assert forall|e: Endpoint|
                (#[trigger] self.key_of(e)) == if e == from {
                    Some(key@)
                } else {
                    old(self).key_of(e)
                } by {
                if endpoint_number(e) == endpoint_number(from) {
                    endpoint_numbers_differ(e, from);
                }
            }
        }
    }

    /// The key and the serial number that a report of the model tells: of a radar that is logged in
    /// to, as long as none reported its model.
    pub open spec fn told_serial(&self, report: Seq<u8>, from: Endpoint) -> Option<
        (Seq<char>, Seq<char>),
    > {
        match (self.key_of(from), c_text(report.subrange(120, 152))) {
            (Some(key), Some(serial)) => if self.model_found || report.len() < MODEL_REPORT_LENGTH {
                None
            } else {
                Some((key, serial))
            },
            _ => None,
        }
    }

    /// Handles a report of the model. The result is the key and the serial number of the radar, where
    /// they have to be recorded. A report that is cut off is dropped.
    pub fn process_beacon_model_report(&mut self, report: &[u8], from: Endpoint) -> (r: Option<
        (String, String),
    >)
        ensures
            final(self).radar_keys == old(self).radar_keys,
            final(self).model_found == (old(self).model_found || (old(self).key_of(from) is Some
                && report.len() >= MODEL_REPORT_LENGTH && c_text(report@.subrange(24, 56)) is Some)),
            match r {
                Some((key, serial)) => old(self).told_serial(report@, from) == Some(
                    (key@, serial@),
                ),
                None => old(self).told_serial(report@, from) is None,
            },
    {
        broadcast use vstd::std_specs::hash::group_hash_axioms;

        if self.model_found || report.len() < MODEL_REPORT_LENGTH {
            return None;
        }
        let n: u64 = number_of(&from);
        let key = match self.radar_keys.get(&n) {
            Some(key) => key.clone(),
            None => {
                return None;
            },
        };
        let model = c_string(vstd::slice::slice_subrange(report, 24, 56));
        let serial_no = c_string(vstd::slice::slice_subrange(report, 120, 152));
        if model.is_some() {
            self.model_found = true;
        }
        match serial_no {
            Some(serial_no) => Some((key, serial_no)),
            None => None,
        }
    }
}

/// A radar was found by its beacon. Unless it is known, it is taken into the registry, and its place
/// there is returned: the radar has to be logged in to.
pub fn found(info: RadarInfo, radars: &mut SharedRadars, ranges: Ranges) -> (r: Option<usize>)
    requires
        old(radars).well_formed(),
        info.well_formed(),
        forall|i: int|
            0 <= i < old(radars).info@.len() ==> (#[trigger] old(radars).info@[i]).id < usize::MAX,
        forall|i: int|
            0 <= i < old(radars).persistent_data.config.radars@.len() ==> (
            #[trigger] old(radars).persistent_data.config.radars@[i]).1.id < usize::MAX,
    ensures
        final(radars).well_formed(),
        final(radars).persistent_data == old(radars).persistent_data,
        r is Some <==> old(radars).takes(info),
        match r {
            Some(at) => {
                let located = final(radars).info@[at as int];
                &&& at == old(radars).info@.len()
                &&& final(radars).info@ == old(radars).info@.push(located)
                &&& located.controls.text_of(ControlId::UserName) is Some
                &&& exists|named: RadarInfo| #[trigger]
                    is_named_by_key(info, named) && is_located(
                        *old(radars),
                        ranges,
                        named,
                        located,
                    )
            },
            None => final(radars).info@ == old(radars).info@,
        },
{
    let mut info = info;
    let ghost first = info;
    info.name_by_key();
    assert(is_named_by_key(first, info));
    radars.located(info, ranges)
}

/// A radar with the port for commands and reports that came with the login.
pub open spec fn is_connected(before: RadarInfo, after: RadarInfo, port: u16) -> bool {
    after == RadarInfo {
        send_command_addr: Endpoint { ip: before.send_command_addr.ip, port },
        report_addr: if port != before.send_command_addr.port {
            Endpoint { ip: before.report_addr.ip, port }
        } else {
            before.report_addr
        },
        ..before
    }
}

/// The login to the radar at a place in the registry came to an end: with a port, or without one.
/// Without one the radar is forgotten, so that its next beacon finds it again. The result is none
/// then, else it tells whether the configuration has to be written to disk.
pub fn login_done(radars: &mut SharedRadars, at: usize, port: Option<u16>) -> (r: Option<bool>)
    requires
        old(radars).well_formed(),
        at < old(radars).info@.len(),
        old(radars).info@[at as int].controls.text_of(ControlId::UserName) is Some,
    ensures
        final(radars).well_formed(),
        match port {
            None => {
                &&& r is None
                &&& final(radars).info@ == old(radars).info@.remove(at as int)
                &&& final(radars).persistent_data == old(radars).persistent_data
            },
            Some(port) => {
                let before = old(radars).info@[at as int];
                let key = before.key@;
                let config = old(radars).persistent_data.config;
                let new_config = final(radars).persistent_data.config;
                &&& exists|connected: RadarInfo, identified: RadarInfo|
                    {
                        &&& #[trigger] is_connected(before, connected, port)
                        &&& #[trigger] is_identified(connected, identified)
                        &&& final(radars).info@ == old(radars).info@.remove(at as int).push(
                            identified,
                        )
                        &&& new_config.record(key) == remembered(config.record(key), connected)
                    }
                &&& r == Some(new_config.record(key) != config.record(key))
                &&& forall|other: Seq<char>|
                    other != key ==> #[trigger] new_config.has(other) == config.has(other)
                        && new_config.record(other) == config.record(other)
            },
        },
{
    let ghost before = radars.info@;
    let mut info = radars.take(at);
    match port {
        Some(port) => {
            let ghost first = info;
            if port != info.send_command_addr.port {
                info.send_command_addr = Endpoint { ip: info.send_command_addr.ip, port };
                info.report_addr = Endpoint { ip: info.report_addr.ip, port };
            }
            let ghost connected = info;
            assert(is_connected(first, connected, port));
            let modified = radars.update(info);
            proof {
                let identified = choose|i: RadarInfo| #[trigger]
                    is_identified(connected, i) && radars.info@ == before.remove(at as int).push(i);
                assert(is_identified(connected, identified));
            }
            Some(modified)
        },
        None => None,
    }
}

/// The model that is taken for granted while recorded data is replayed, with the version of its
/// firmware.
pub fn replay_model() -> (r: (RadarModel, &'static str))
    ensures
        r.0 == RadarModel::DRS4DNXT,
        r.1@ == "01.05"@,
{
    (RadarModel::DRS4DNXT, "01.05")
}

/// A proper reply to a login holds the distance of the port from 10000, high byte first. Any other reply
/// is refused.
pub proof fn login_tells_the_port(header: Seq<u8>, tail: Seq<u8>, port: u16)
    requires
        header.len() == 8,
        tail.len() == 4,
    ensures
        header == seq![9u8, 1, 0, 12, 1, 0, 0, 0] && port >= 10000 && tail[0] == (port - 10000) / 256
            && tail[1] == (port - 10000) % 256 ==> login_result(header, tail) == Ok::<u16, LoginProblem>(
            port,
        ),
        header != seq![9u8, 1, 0, 12, 1, 0, 0, 0] ==> login_result(header, tail) == Err::<
            u16,
            LoginProblem,
        >(LoginProblem::UnexpectedReply),
        login_result(header, tail) matches Ok(p) ==> p == 10000 + 256 * tail[0] + tail[1],
{
}

/// A beacon of a radar is long enough for a name, which starts with an R, behind a header of eleven bytes.
/// A report of the model is known by its length.
pub proof fn beacons_are_recognised(report: Seq<u8>)
    ensures
        beacon_kind(report) == BeaconKind::Beacon <==> report.len() >= 24 && report[16] == 82
            && report.take(11) == seq![1u8, 0, 0, 1, 0, 0, 0, 0, 0, 1, 0],
        beacon_kind(report) == BeaconKind::ModelReport ==> report.len() == 170,
        report.len() == 170 ==> beacon_kind(report) != BeaconKind::Other,
        beacon_name(report) is Some ==> report.len() >= 24 && report.len() == report[11] + 8,
{
}

/// The name in a beacon is the text of eight bytes, up to the first NUL, where the beacon is as long as it
/// says.
pub proof fn beacon_name_is_read_back(report: Seq<u8>, name: Seq<u8>)
    requires
        report.len() >= 24,
        report[11] + 8 == report.len(),
        name.len() <= 8,
        forall|i: int| 0 <= i < name.len() ==> #[trigger] name[i] != 0 && report[16 + i] == name[i],
        name.len() < 8 ==> report[16 + name.len() as int] == 0,
    ensures
        beacon_name(report) == if vstd::utf8::valid_utf8(name) {
            Some(vstd::utf8::decode_utf8(name))
        } else {
            None
        },
{
    let field = report.subrange(16, 24);
    let n = name.len() as int;
    if n < 8 {
        let behind = field.skip(n + 1);
        assert(field =~= name + seq![0u8] + behind);
        field_ends_at_its_first_nul(name, behind);
    } else {
        assert(field =~= name);
        field_ends_at_its_first_nul(name, Seq::empty());
    }
}

/// A radar is reached where its beacon came from. Spokes go to a fixed group, and the port for commands
/// and reports is not known before the login.
pub proof fn found_radar_is_reached(
    info: RadarInfo,
    name: Seq<char>,
    from: Endpoint,
    via: u32,
    targets: TargetMode,
    replay: bool,
    now: u64,
)
    requires
        is_found(info, name, from, via, targets, replay, now),
    ensures
        info.addr == from,
        info.spoke_data_addr.ip == 239 * 0x100_0000 + 255 * 0x1_0000 + 2,
        info.spoke_data_addr.port == 10024,
        info.report_addr.ip == from.ip && info.report_addr.port == 0,
        info.send_command_addr == info.report_addr,
        info.nic_addr == via,
        info.brand == Brand::Furuno,
        opt_text(info.which) == Some(name),
        info.serial_no is None,
        info.pixel_values == 64,
        info.spokes_per_revolution == 8192 && info.max_spoke_len == 883,
{
}

/// After the login commands and reports go over the port that the radar told, at the same address.
pub proof fn login_connects(before: RadarInfo, after: RadarInfo, port: u16)
    requires
        is_connected(before, after, port),
        before.report_addr == before.send_command_addr,
    ensures
        after.send_command_addr.port == port,
        after.report_addr.port == port,
        after.send_command_addr.ip == before.send_command_addr.ip,
        after.report_addr.ip == before.report_addr.ip,
        after.addr == before.addr,
        after.key == before.key,
{
}

/// The serial number in a report of the model is recorded for the radar that sent it, if that is logged
/// in to and none told its model before.
pub proof fn serial_is_recorded_once(locator: FurunoLocator, report: Seq<u8>, from: Endpoint)
    ensures
        locator.told_serial(report, from) is Some <==> locator.key_of(from) is Some
            && !locator.model_found && report.len() >= 170 && c_text(report.subrange(120, 152)) is Some,
        locator.told_serial(report, from) matches Some((key, serial)) ==> locator.key_of(from) == Some(
            key,
        ) && c_text(report.subrange(120, 152)) == Some(serial),
{
}

/// A radar that was found cannot be set while recorded data is replayed, and can be set otherwise. It
/// goes by the name that its beacon told.
pub proof fn found_radars_are_known_by_name(
    info: RadarInfo,
    name: Seq<char>,
    from: Endpoint,
    via: u32,
    targets: TargetMode,
    replay: bool,
    now: u64,
    id: ControlId,
)
    requires
        is_found(info, name, from, via, targets, replay, now),
    ensures
        info.replay == replay,
        info.controls.replay == replay,
        info.brand == Brand::Furuno,
        opt_text(info.which) == Some(name),
        info.serial_no is None,
        info.doppler,
        info.pixel_values == 64,
        info.addr == from,
        info.nic_addr == via,
        replay && id == ControlId::Gain ==> info.controls.slot(id) is Some && info.controls.slot(
            id,
        )->0.item.is_read_only,
        !replay && id == ControlId::Gain ==> info.controls.slot(id) is Some && !info.controls.slot(
            id,
        )->0.item.is_read_only,
{
    assert(is_new_control(
        info.controls.slot(id),
        id,
        settings::initial_item(id),
        None,
        replay,
        targets,
    ));
}

} // verus!

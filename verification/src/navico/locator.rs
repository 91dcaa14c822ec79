//! Finding Navico radars by the beacons that they send.
use vstd::prelude::*;

use crate::brand::{Brand, TargetMode};
use crate::config::remembered;
use crate::control_id::ControlId;
use crate::controls::{is_new_control, Ranges};
use crate::navico::model::{Model, NAVICO_SPOKES, NAVICO_SPOKE_LEN};
use crate::navico::settings;
use crate::network::{
    endpoints_are_read_back, ipv4, lies_at, network_endpoint, read_network_endpoint, Endpoint,
};
use crate::radar::{
    can_shorten, is_identified, is_located, is_named_by_key, is_new_radar, RadarInfo, SharedRadars,
};
use crate::text::{c_string, c_text, field_ends_at_its_first_nul};
use crate::value::opt_text;

verus! {

/// The length of a beacon of a radar with one range.
pub const NAVICO_BEACON_SINGLE_SIZE: usize = 114;

/// The length of a beacon of a radar with two ranges.
pub const NAVICO_BEACON_DUAL_SIZE: usize = 150;

/// The length of a beacon of a BR24.
pub const NAVICO_BEACON_BR24_SIZE: usize = 98;

/// Where radars after the BR24 send their beacons to.
pub fn beacon_address() -> (e: Endpoint)
    ensures
        e == (Endpoint { ip: ipv4(236, 6, 7, 5) as u32, port: 6878 }),
{
    Endpoint::new(236, 6, 7, 5, 6878)
}

/// Where BR24 radars send their beacons to.
pub fn br24_beacon_address() -> (e: Endpoint)
    ensures
        e == (Endpoint { ip: ipv4(236, 6, 7, 4) as u32, port: 6768 }),
{
    Endpoint::new(236, 6, 7, 4, 6768)
}

/// Where displays send information to.
pub fn info_address() -> (e: Endpoint)
    ensures
        e == (Endpoint { ip: ipv4(239, 238, 55, 73) as u32, port: 7527 }),
{
    Endpoint::new(239, 238, 55, 73, 7527)
}

/// Where displays send their speed to.
pub fn speed_address() -> (e: Endpoint)
    ensures
        e == (Endpoint { ip: ipv4(236, 6, 7, 20) as u32, port: 6690 }),
{
    Endpoint::new(236, 6, 7, 20, 6690)
}

/// The packets that ask radars to send a beacon. While recorded data is replayed nothing is sent.
pub fn beacon_requests(replay: bool) -> (packets: Vec<[u8; 2]>)
    ensures
        packets@.len() == if replay {
            0nat
        } else {
            1
        },
        !replay ==> packets@[0]@ == seq![0x01u8, 0xB1u8],
{
    let mut packets: Vec<[u8; 2]> = Vec::new();
    if !replay {
        let packet: [u8; 2] = [0x01, 0xB1];
        assert(packet@ =~= seq![0x01u8, 0xB1u8]);
        packets.push(packet);
    }
    packets
}

/// What a datagram that was sent to the address for beacons is.
#[derive(Clone, Copy, Debug, PartialEq, Eq, Structural)]
pub enum BeaconKind {
    /// Nothing of use.
    Other,
    /// The beacon of a radar with two ranges.
    Dual,
    /// The beacon of a radar with one range.
    Single,
    /// The beacon of a BR24, which holds the addresses in another order.
    BR24,
}

/// What a beacon is, by its length.
pub open spec fn kind_by_length(report: Seq<u8>) -> BeaconKind {
    if report.len() >= NAVICO_BEACON_DUAL_SIZE {
        BeaconKind::Dual
    } else if report.len() >= NAVICO_BEACON_SINGLE_SIZE {
        BeaconKind::Single
    } else if report.len() == NAVICO_BEACON_BR24_SIZE {
        BeaconKind::BR24
    } else {
        BeaconKind::Other
    }
}

/// What a datagram is, by its start and its length.
pub open spec fn beacon_kind(report: Seq<u8>) -> BeaconKind {
    if report.len() < 2 || report[0] != 0x01 || report[1] != 0xB2 {
        BeaconKind::Other
    } else {
        kind_by_length(report)
    }
}

fn length_kind(report: &[u8]) -> (kind: BeaconKind)
    ensures
        kind == kind_by_length(report@),
{
    if report.len() >= NAVICO_BEACON_DUAL_SIZE {
        BeaconKind::Dual
    } else if report.len() >= NAVICO_BEACON_SINGLE_SIZE {
        BeaconKind::Single
    } else if report.len() == NAVICO_BEACON_BR24_SIZE {
        BeaconKind::BR24
    } else {
        BeaconKind::Other
    }
}

/// What a datagram is, by its start and its length. Only where it is a beacon it tells of radars.
pub fn process_locator_report(report: &[u8]) -> (kind: BeaconKind)
    ensures
        kind == beacon_kind(report@),
{
    if report.len() < 2 {
        return BeaconKind::Other;
    }
    if report[0] != 0x01 || report[1] != 0xB2 {
        return BeaconKind::Other;
    }
    length_kind(report)
}

/// The serial number in a beacon.
pub open spec fn serial_of(report: Seq<u8>) -> Option<Seq<char>> {
    c_text(report.subrange(2, 18))
}

/// The number of radars that a beacon tells of.
pub open spec fn radar_count(report: Seq<u8>) -> nat {
    match (kind_by_length(report), serial_of(report)) {
        (BeaconKind::Other, _) => 0,
        (_, None) => 0,
        (BeaconKind::Dual, Some(_)) => 2,
        _ => 1,
    }
}

/// The addresses of a radar: where it sends spokes, where it sends reports, and where it takes
/// commands.
pub open spec fn addresses_of(report: Seq<u8>, i: int) -> (Endpoint, Endpoint, Endpoint) {
    if kind_by_length(report) == BeaconKind::BR24 {
        (network_endpoint(report, 92), network_endpoint(report, 72), network_endpoint(report, 82))
    } else {
        (
            network_endpoint(report, 88 + 36 * i),
            network_endpoint(report, 108 + 36 * i),
            network_endpoint(report, 98 + 36 * i),
        )
    }
}

/// Which half of a dual radar a radar is.
pub open spec fn which_of(report: Seq<u8>, i: int) -> Option<Seq<char>> {
    if kind_by_length(report) != BeaconKind::Dual {
        None
    } else if i == 0 {
        Some("A"@)
    } else {
        Some("B"@)
    }
}

/// The model that is known from a beacon alone.
pub open spec fn beacon_model(report: Seq<u8>) -> Option<Seq<char>> {
    if kind_by_length(report) == BeaconKind::BR24 {
        Some("BR24"@)
    } else {
        None
    }
}

/// A radar as a beacon tells of it.
pub open spec fn is_found(
    info: RadarInfo,
    report: Seq<u8>,
    i: int,
    via: u32,
    targets: TargetMode,
    replay: bool,
    now: u64,
) -> bool {
    let (data, reports, send) = addresses_of(report, i);
    &&& info.well_formed()
    &&& is_new_radar(
        info,
        targets,
        replay,
        Brand::Navico,
        serial_of(report),
        which_of(report, i),
        16,
        NAVICO_SPOKES as int,
        NAVICO_SPOKE_LEN as int,
        network_endpoint(report, 18),
        via,
        data,
        reports,
        send,
        kind_by_length(report) == BeaconKind::Dual,
        now,
    )
    &&& info.controls.replay == replay
    &&& forall|id: ControlId| #[trigger]
        is_new_control(
            info.controls.slot(id),
            id,
            settings::initial_item(id),
            settings::initial_text(id, beacon_model(report)),
            replay,
            targets,
        )
}

fn make_radar(
    report: &[u8],
    serial_no: &str,
    which: Option<&str>,
    model: Option<&str>,
    addresses: (Endpoint, Endpoint, Endpoint),
    doppler: bool,
    via: u32,
    targets: TargetMode,
    replay: bool,
    now: u64,
    Ghost(i): Ghost<int>,
) -> (info: RadarInfo)
    requires
        report.len() >= 24,
        serial_of(report@) == Some(serial_no@),
        which_of(report@, i) == crate::radar::opt_str(which),
        beacon_model(report@) == crate::radar::opt_str(model),
        addresses == addresses_of(report@, i),
        doppler == (kind_by_length(report@) == BeaconKind::Dual),
    ensures
        is_found(info, report@, i, via, targets, replay, now),
{
    let controls = settings::new(targets, replay, String::new(), model);
    let radar_addr = read_network_endpoint(report, 18);
    let info = RadarInfo::new(
        targets,
        replay,
        Brand::Navico,
        Some(serial_no),
        which,
        16,
        NAVICO_SPOKES,
        NAVICO_SPOKE_LEN,
        radar_addr,
        via,
        addresses.0,
        addresses.1,
        addresses.2,
        controls,
        doppler,
        now,
    );
    proof {
        let name = beacon_model(report@);
        assert(is_new_control(
            info.controls.slot(ControlId::UserName),
            ControlId::UserName,
            settings::initial_item(ControlId::UserName),
            settings::initial_text(ControlId::UserName, name),
            replay,
            targets,
        ));
        assert(is_new_control(
            info.controls.slot(ControlId::ModelName),
            ControlId::ModelName,
            settings::initial_item(ControlId::ModelName),
            settings::initial_text(ControlId::ModelName, name),
            replay,
            targets,
        ));
        assert(is_new_control(
            info.controls.slot(ControlId::Range),
            ControlId::Range,
            settings::initial_item(ControlId::Range),
            settings::initial_text(ControlId::Range, name),
            replay,
            targets,
        ));
    }
    info
}

/// Handles a beacon: the radars that it tells of, by its length, none where it has no proper serial
/// number.
pub fn process_beacon_report(
    report: &[u8],
    via: u32,
    targets: TargetMode,
    replay: bool,
    now: u64,
) -> (found: Vec<RadarInfo>)
    ensures
        found@.len() == radar_count(report@),
        forall|i: int|
            0 <= i < found@.len() ==> is_found(
                #[trigger] found@[i],
                report@,
                i,
                via,
                targets,
                replay,
                now,
            ),
{
    let mut found: Vec<RadarInfo> = Vec::new();
    let kind = length_kind(report);
    if kind == BeaconKind::Other {
        return found;
    }
    let serial_no = match c_string(vstd::slice::slice_subrange(report, 2, 18)) {
        Some(serial_no) => serial_no,
        None => {
            return found;
        },
    };
    match kind {
        BeaconKind::Dual => {
            let a = (
                read_network_endpoint(report, 88),
                read_network_endpoint(report, 108),
                read_network_endpoint(report, 98),
            );
            found.push(
                make_radar(
                    report,
                    serial_no.as_str(),
                    Some("A"),
                    None,
                    a,
                    true,
                    via,
                    targets,
                    replay,
                    now,
                    Ghost(0),
                ),
            );
            let b = (
                read_network_endpoint(report, 124),
                read_network_endpoint(report, 144),
                read_network_endpoint(report, 134),
            );
            found.push(
                make_radar(
                    report,
                    serial_no.as_str(),
                    Some("B"),
                    None,
                    b,
                    true,
                    via,
                    targets,
                    replay,
                    now,
                    Ghost(1),
                ),
            );
        },
        BeaconKind::Single => {
            let a = (
                read_network_endpoint(report, 88),
                read_network_endpoint(report, 108),
                read_network_endpoint(report, 98),
            );
            found.push(
                make_radar(
                    report,
                    serial_no.as_str(),
                    None,
                    None,
                    a,
                    false,
                    via,
                    targets,
                    replay,
                    now,
                    Ghost(0),
                ),
            );
        },
        BeaconKind::BR24 => {
            let a = (
                read_network_endpoint(report, 92),
                read_network_endpoint(report, 72),
                read_network_endpoint(report, 82),
            );
            found.push(
                make_radar(
                    report,
                    serial_no.as_str(),
                    None,
                    Some("BR24"),
                    a,
                    false,
                    via,
                    targets,
                    replay,
                    now,
                    Ghost(0),
                ),
            );
        },
        BeaconKind::Other => {},
    }
    found
}

/// The model of a radar that is found: the one that is remembered, or else the one that its beacon
/// told.
pub open spec fn model_of(info: RadarInfo) -> Model {
    match info.controls.text_of(ControlId::ModelName) {
        Some(name) => Model::named(name),
        None => Model::Unknown,
    }
}

/// A radar after it was brought up to date for a model: its controls are those of the model, and only
/// a HALO tells moving targets apart.
pub open spec fn is_of_model(before: RadarInfo, after: RadarInfo, model: Model) -> bool {
    &&& after == RadarInfo {
        controls: after.controls,
        doppler: model == Model::HALO,
        legend: after.legend,
        ..before
    }
    &&& if before.doppler == (model == Model::HALO) {
        after.legend == before.legend
    } else {
        after.legend.is_default(
            before.targets,
            model == Model::HALO,
            before.pixel_values as int,
        )
    }
    &&& forall|id: ControlId| #[trigger] settings::is_model_known(before, after, model, id)
}

/// A radar after its controls were brought up to date for its model, where that is known.
pub open spec fn is_model_applied(before: RadarInfo, after: RadarInfo) -> bool {
    let model = model_of(before);
    if model == Model::Unknown {
        after == before
    } else {
        is_of_model(before, after, model)
    }
}

/// Brings a radar up to date when its model is known.
pub fn apply_model(info: &mut RadarInfo, model: Model)
    requires
        old(info).well_formed(),
        old(info).controls.text_of(ControlId::UserName) is Some,
        old(info).serial_no is Some ==> old(info).controls.slot(ControlId::SerialNumber) is Some,
        can_shorten(opt_text(old(info).serial_no), settings::SERIAL_PREFIX as int),
    ensures
        final(info).well_formed(),
        is_of_model(*old(info), *final(info), model),
{
    let ghost before = *info;
    settings::update_when_model_known(info, model);
    let ghost updated = *info;
    info.set_doppler(model == Model::HALO);
    proof {
        assert forall|id: ControlId| #[trigger]
            settings::is_model_known(before, *info, model, id) by {
            assert(settings::is_model_known(before, updated, model, id));
        }
    }
}

/// The steps by which a radar is taken into the registry: it is named by its key, then it gets what
/// is remembered of it and its number, then the controls of its model, then its controls are told
/// its key.
pub open spec fn found_steps(
    radars: SharedRadars,
    ranges: Ranges,
    info: RadarInfo,
    named: RadarInfo,
    located: RadarInfo,
    known: RadarInfo,
    identified: RadarInfo,
) -> bool {
    &&& is_named_by_key(info, named)
    &&& is_located(radars, ranges, named, located)
    &&& is_model_applied(located, known)
    &&& is_identified(known, identified)
}

/// A radar was found by its beacon. Unless it is known, it is taken into the registry, and its place
/// there is returned, with its model and whether the configuration has to be written to disk.
pub fn found(info: RadarInfo, radars: &mut SharedRadars, ranges: Ranges) -> (r: Option<
    (usize, Model, bool),
>)
    requires
        old(radars).well_formed(),
        info.well_formed(),
        info.serial_no is Some ==> info.controls.slot(ControlId::SerialNumber) is Some,
        can_shorten(opt_text(info.serial_no), settings::SERIAL_PREFIX as int),
        forall|i: int|
            0 <= i < old(radars).info@.len() ==> (#[trigger] old(radars).info@[i]).id < usize::MAX,
        forall|i: int|
            0 <= i < old(radars).persistent_data.config.radars@.len() ==> (
            #[trigger] old(radars).persistent_data.config.radars@[i]).1.id < usize::MAX,
    ensures
        final(radars).well_formed(),
        r is Some <==> old(radars).takes(info),
        r is None ==> final(radars).info@ == old(radars).info@ && final(radars).persistent_data
            == old(radars).persistent_data,
        r matches Some((at, model, modified)) ==> {
            &&& at == old(radars).info@.len()
            &&& exists|named: RadarInfo, located: RadarInfo, known: RadarInfo, identified: RadarInfo|
                {
                    &&& #[trigger] found_steps(
                        *old(radars),
                        ranges,
                        info,
                        named,
                        located,
                        known,
                        identified,
                    )
                    &&& model == model_of(located)
                    &&& final(radars).info@ == old(radars).info@.push(identified)
                    &&& final(radars).persistent_data.config.record(info.key@) == remembered(
                        old(radars).persistent_data.config.record(info.key@),
                        known,
                    )
                }
            &&& modified == (final(radars).persistent_data.config.record(info.key@)
                != old(radars).persistent_data.config.record(info.key@))
        },
        forall|other: Seq<char>|
            other != info.key@ ==> #[trigger] final(radars).persistent_data.config.has(other)
                == old(radars).persistent_data.config.has(other)
                && final(radars).persistent_data.config.record(other)
                == old(radars).persistent_data.config.record(other),
{
    let mut info = info;
    let ghost first = info;
    info.name_by_key();
    let ghost named = info;
    match radars.located(info, ranges) {
        Some(at) => {
            let mut info = radars.take(at);
            let ghost located = info;
            proof {
                assert(radars.info@ =~= old(radars).info@);
                assert(named.controls.slot(ControlId::SerialNumber) == first.controls.slot(
                    ControlId::SerialNumber,
                ));
                assert(located.controls.slot(ControlId::SerialNumber) == named.controls.slot(
                    ControlId::SerialNumber,
                ));
            }
            let model = match info.controls.model_name() {
                Some(name) => Model::new(name.as_str()),
                None => Model::Unknown,
            };
            if model != Model::Unknown {
                apply_model(&mut info, model);
                assert(settings::is_model_known(located, info, model, ControlId::UserName));
            }
            let ghost known = info;
            assert(is_model_applied(located, known));
            let modified = radars.update(info);
            proof {
                let identified = choose|i: RadarInfo| #[trigger]
                    is_identified(known, i) && radars.info@ == old(radars).info@.push(i);
                assert(found_steps(
                    *old(radars),
                    ranges,
                    first,
                    named,
                    located,
                    known,
                    identified,
                ));
            }
            Some((at, model, modified))
        },
        None => None,
    }
}

/// The two radars of one beacon have different keys, so that both are taken into the registry.
pub proof fn halves_have_different_keys(
    a: RadarInfo,
    b: RadarInfo,
    report: Seq<u8>,
    via: u32,
    targets: TargetMode,
    replay: bool,
    now: u64,
)
    requires
        kind_by_length(report) == BeaconKind::Dual,
        serial_of(report) is Some,
        is_found(a, report, 0, via, targets, replay, now),
        is_found(b, report, 1, via, targets, replay, now),
    ensures
        a.key@ != b.key@,
{
    reveal_strlit("A");
    reveal_strlit("B");
    assert(a.key@.last() == 'A');
    assert(b.key@.last() == 'B');
}

/// The addresses that a radar puts into a beacon, and its two halves where it has them.
pub struct BeaconRecord {
    pub addr: Endpoint,
    pub data: Seq<Endpoint>,
    pub send: Seq<Endpoint>,
    pub report: Seq<Endpoint>,
}

impl BeaconRecord {
    /// The record lies in the beacon of a radar after the BR24: for each half the addresses of the
    /// spokes, of the commands and of the reports, ten bytes apart, those of the second half 36 bytes
    /// behind those of the first.
    pub open spec fn is_in(self, report: Seq<u8>) -> bool {
        &&& report.len() >= 114
        &&& lies_at(report, 18, self.addr)
        &&& self.data.len() == self.send.len() == self.report.len() == if report.len() >= 150 {
            2int
        } else {
            1
        }
        &&& lies_at(report, 88, self.data[0])
        &&& lies_at(report, 98, self.send[0])
        &&& lies_at(report, 108, self.report[0])
        &&& report.len() >= 150 ==> {
            &&& lies_at(report, 124, self.data[1])
            &&& lies_at(report, 134, self.send[1])
            &&& lies_at(report, 144, self.report[1])
        }
    }

    /// The record lies in the beacon of a BR24: the addresses of the reports, of the commands and of the
    /// spokes, ten bytes apart.
    pub open spec fn is_in_br24(self, report: Seq<u8>) -> bool {
        &&& report.len() == 98
        &&& lies_at(report, 18, self.addr)
        &&& self.data.len() == self.send.len() == self.report.len() == 1
        &&& lies_at(report, 72, self.report[0])
        &&& lies_at(report, 82, self.send[0])
        &&& lies_at(report, 92, self.data[0])
    }
}

/// What a radar puts into a beacon is what is known of each of its halves when it is found.
pub proof fn beacon_is_read_back(
    record: BeaconRecord,
    info: RadarInfo,
    report: Seq<u8>,
    i: int,
    via: u32,
    targets: TargetMode,
    replay: bool,
    now: u64,
)
    requires
        record.is_in(report) || record.is_in_br24(report),
        0 <= i < record.data.len(),
        is_found(info, report, i, via, targets, replay, now),
    ensures
        info.addr == record.addr,
        info.spoke_data_addr == record.data[i],
        info.send_command_addr == record.send[i],
        info.report_addr == record.report[i],
        info.nic_addr == via,
        info.brand == Brand::Navico,
        info.targets == targets,
        info.replay == replay,
        info.spokes_per_revolution == 2048,
        info.max_spoke_len == 1024,
        info.pixel_values == 16,
        opt_text(info.serial_no) == serial_of(report),
        report.len() >= 150 ==> opt_text(info.which) == Some(
            if i == 0 {
                "A"@
            } else {
                "B"@
            },
        ),
        report.len() < 150 ==> info.which is None,
{
    endpoints_are_read_back(report, 18, record.addr);
    if report.len() == 98 {
        endpoints_are_read_back(report, 72, record.report[0]);
        endpoints_are_read_back(report, 82, record.send[0]);
        endpoints_are_read_back(report, 92, record.data[0]);
    } else {
        endpoints_are_read_back(report, 88 + 36 * i, record.data[i]);
        endpoints_are_read_back(report, 98 + 36 * i, record.send[i]);
        endpoints_are_read_back(report, 108 + 36 * i, record.report[i]);
    }
}

/// How many radars a beacon tells of, by its length: two in the longest, one in others, and none
/// without a serial number that is a text. Only what starts as a beacon is taken for one.
pub proof fn beacons_tell_of_radars(report: Seq<u8>)
    ensures
        radar_count(report) == 2 <==> report.len() >= 150 && serial_of(report) is Some,
        radar_count(report) == 1 <==> (114 <= report.len() < 150 || report.len() == 98) && serial_of(
            report,
        ) is Some,
        radar_count(report) <= 2,
        beacon_kind(report) != BeaconKind::Other <==> report.len() >= 2 && report[0] == 1 && report[1]
            == 0xb2 && (report.len() >= 114 || report.len() == 98),
        beacon_kind(report) != BeaconKind::Other ==> beacon_kind(report) == kind_by_length(report),
        beacon_model(report) is Some <==> report.len() == 98,
{
}

/// The serial number in a beacon is the text of its third to eighteenth byte, up to the first NUL.
pub proof fn serial_is_read_back(report: Seq<u8>, serial: Seq<u8>)
    requires
        report.len() >= 98,
        serial.len() <= 16,
        forall|i: int| 0 <= i < serial.len() ==> #[trigger] serial[i] != 0 && report[2 + i] == serial[i],
        serial.len() < 16 ==> report[2 + serial.len() as int] == 0,
    ensures
        serial_of(report) == if vstd::utf8::valid_utf8(serial) {
            Some(vstd::utf8::decode_utf8(serial))
        } else {
            None
        },
{
    let field = report.subrange(2, 18);
    let n = serial.len() as int;
    if n < 16 {
        let behind = field.skip(n + 1);
        assert(field =~= serial + seq![0u8] + behind);
        field_ends_at_its_first_nul(serial, behind);
    } else {
        assert(field =~= serial);
        field_ends_at_its_first_nul(serial, Seq::empty());
    }
}

/// A radar that turns out to be a HALO tells moving targets apart, and any other one does not. Its legend
/// is made anew only where that changes, and nothing else becomes of it but its controls.
pub proof fn only_halo_tells_moving_targets_apart(before: RadarInfo, after: RadarInfo, model: Model)
    requires
        is_of_model(before, after, model),
    ensures
        after.doppler == (model == Model::HALO),
        after.doppler == before.doppler ==> after.legend == before.legend,
        after.doppler != before.doppler ==> after.legend.is_default(
            before.targets,
            after.doppler,
            before.pixel_values as int,
        ),
        after.key == before.key,
        after.id == before.id,
        after.serial_no == before.serial_no,
        after.addr == before.addr,
        after.ranges == before.ranges,
        after.pixel_values == before.pixel_values,
        after.controls.text_of(ControlId::ModelName) == Some(model.spec_name()) || before.controls.slot(
            ControlId::ModelName,
        ) is None,
{
    assert(settings::is_model_known(before, after, model, ControlId::ModelName));
}

/// A radar gets the controls of its model where the model is known, from its beacon or from before, and
/// stays as it is otherwise.
pub proof fn models_are_applied_where_they_are_known(before: RadarInfo, after: RadarInfo, model: Model)
    requires
        is_model_applied(before, after),
        model != Model::HaloOrG4,
    ensures
        before.controls.text_of(ControlId::ModelName) is None ==> after == before,
        before.controls.text_of(ControlId::ModelName) == Some(Model::Unknown.spec_name()) ==> after
            == before,
        model != Model::Unknown && before.controls.text_of(ControlId::ModelName) == Some(
            model.spec_name(),
        ) ==> is_of_model(before, after, model),
{
    crate::navico::model::model_names_are_read_back(model);
    crate::navico::model::model_names_are_read_back(Model::Unknown);
}

} // verus!

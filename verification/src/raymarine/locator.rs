//! Finding Raymarine radars by the beacons that they send.
use std::collections::HashMap;
use vstd::prelude::*;

use crate::brand::{Brand, TargetMode};
use crate::config::remembered;
use crate::control_id::ControlId;
use crate::controls::{is_new_control, Ranges};
use crate::layout::{holds32, numbers_of_four_bytes};
use crate::network::{
    endpoints_are_read_back, lies_reversed_at, little_endian_endpoint, read_little_endian_endpoint,
    Endpoint,
};
use crate::radar::{
    is_identified, is_located, is_named_by_key, is_new_radar, RadarInfo, SharedRadars,
};
use crate::raymarine::command::BaseModel;
use crate::raymarine::settings;
use crate::text::{c_string, c_text, same_text};
use crate::value::opt_text;
use crate::wire::{le32, read_u32_le};

verus! {

pub const ESERIES_SPOKES: usize = 2048;

/// The length of a spoke in pixels.
pub const ESERIES_SPOKE_LEN: usize = 1024;

pub const QUANTUM_SPOKES: usize = 250;

pub const QUANTUM_SPOKE_LEN: usize = 252;

/// The length of the beacon that tells the addresses of a radar.
pub const ADDRESS_BEACON_LEN: usize = 36;

/// The length of the beacon that tells the model of a radar.
pub const MODEL_BEACON_LEN: usize = 56;

/// Where Raymarine radars send their beacons to.
pub fn beacon_address() -> (e: Endpoint)
    ensures
        e == (Endpoint { ip: crate::network::ipv4(224, 0, 0, 1) as u32, port: 5800 }),
{
    Endpoint::new(224, 0, 0, 1, 5800)
}

/// The kinds of radars that beacons tell apart.
#[derive(Clone, Copy, Debug, PartialEq, Eq, Structural)]
pub enum Model {
    Eseries,
    Quantum,
}

impl Model {
    /// The name of the kind.
    pub open spec fn spec_name(self) -> Seq<char> {
        match self {
            Model::Eseries => "RD/HD/Eseries"@,
            Model::Quantum => "Quantum"@,
        }
    }

    /// The family that the kind belongs to.
    pub open spec fn base(self) -> BaseModel {
        match self {
            Model::Eseries => BaseModel::RD,
            Model::Quantum => BaseModel::Quantum,
        }
    }

    /// The kind that a model name stands for.
    pub open spec fn named(s: Seq<char>) -> Model {
        if s == "Quantum"@ {
            Model::Quantum
        } else {
            Model::Eseries
        }
    }

    /// Reads the name of a kind. All other names are those of E series radars.
    pub fn new(s: &str) -> (model: Model)
        ensures
            model == Model::named(s@),
    {
        if same_text(s, "Quantum") {
            Model::Quantum
        } else {
            Model::Eseries
        }
    }

    /// The name of the kind.
    pub fn to_str(&self) -> (s: &'static str)
        ensures
            s@ == self.spec_name(),
    {
        match self {
            Model::Eseries => "RD/HD/Eseries",
            Model::Quantum => "Quantum",
        }
    }

    /// The family that the kind belongs to.
    pub fn base_model(&self) -> (base: BaseModel)
        ensures
            base == self.base(),
    {
        match self {
            Model::Eseries => BaseModel::RD,
            Model::Quantum => BaseModel::Quantum,
        }
    }

    /// The number of spokes of a revolution.
    pub open spec fn spokes(self) -> int {
        match self {
            Model::Eseries => ESERIES_SPOKES as int,
            Model::Quantum => QUANTUM_SPOKES as int,
        }
    }

    /// The length of a spoke in pixels.
    pub open spec fn spoke_len(self) -> int {
        match self {
            Model::Eseries => ESERIES_SPOKE_LEN as int,
            Model::Quantum => QUANTUM_SPOKE_LEN as int,
        }
    }

    /// The subtype of the beacons that tell the addresses of such a radar.
    pub open spec fn address_subtype(self) -> int {
        match self {
            Model::Eseries => 0x01,
            Model::Quantum => 0x28,
        }
    }
}

/// What is known of a radar by its link.
#[derive(Debug)]
pub struct RadarState {
    pub model_name: Option<String>,
    pub model: Model,
}

/// The radars that told their model, by their links.
#[derive(Debug)]
pub struct RaymarineLocatorState {
    pub ids: HashMap<u32, RadarState>,
}

/// A beacon that is shorter than it should be.
#[derive(Clone, Copy, Debug, PartialEq, Eq, Structural)]
pub struct ShortBeacon;

/// The link and the model that a beacon tells.
pub open spec fn told_model(report: Seq<u8>) -> Option<(u32, Option<Seq<char>>, Model)> {
    let link = le32(report, 8) as u32;
    if le32(report, 0) != 1 {
        None
    } else if le32(report, 4) == 0x66 {
        Some((link, c_text(report.subrange(20, 52)), Model::Quantum))
    } else if le32(report, 4) == 0x01 {
        Some((link, Some(Model::Eseries.spec_name()), Model::Eseries))
    } else {
        None
    }
}

/// A radar of some model as a beacon with addresses tells of it.
pub open spec fn is_found(
    info: RadarInfo,
    name: Option<Seq<char>>,
    model: Model,
    report: Seq<u8>,
    via: u32,
    targets: TargetMode,
    replay: bool,
    now: u64,
) -> bool {
    &&& info.well_formed()
    &&& is_new_radar(
        info,
        targets,
        replay,
        Brand::Raymarine,
        None,
        None,
        16,
        model.spokes(),
        model.spoke_len(),
        little_endian_endpoint(report, 20),
        via,
        little_endian_endpoint(report, 20),
        little_endian_endpoint(report, 20),
        little_endian_endpoint(report, 28),
        false,
        now,
    )
    &&& info.controls.replay == replay
    &&& forall|id: ControlId| #[trigger]
        is_new_control(
            info.controls.slot(id),
            id,
            settings::initial_item(id, model.base()),
            settings::initial_text(id, name),
            replay,
            targets,
        )
}

impl RaymarineLocatorState {
    /// The model that the radar behind a link told.
    pub open spec fn known(&self, link: u32) -> Option<(Option<Seq<char>>, Model)> {
        if self.ids@.contains_key(link) {
            Some((opt_text(self.ids@[link].model_name), self.ids@[link].model))
        } else {
            None
        }
    }

    /// No radar told its model yet.
    pub fn new() -> (s: RaymarineLocatorState)
        ensures
            forall|link: u32| (#[trigger] s.known(link)) is None,
    {
        RaymarineLocatorState { ids: HashMap::new() }
    }

    /// The radar that a beacon with addresses is about, where its model is known and the beacon is of
    /// the kind that such radars send.
    pub open spec fn found_model(&self, report: Seq<u8>) -> Option<(Option<Seq<char>>, Model)> {
        if le32(report, 0) != 0 {
            None
        } else {
            match self.known(le32(report, 4) as u32) {
                Some((name, model)) => if le32(report, 8) == model.address_subtype() {
                    Some((name, model))
                } else {
                    None
                },
                None => None,
            }
        }
    }

    /// Handles a beacon that tells the addresses of a radar.
    pub fn process_beacon_36_report(
        &self,
        report: &[u8],
        via: u32,
        targets: TargetMode,
        replay: bool,
        now: u64,
    ) -> (r: Result<Option<RadarInfo>, ShortBeacon>)
        ensures
            r is Err <==> report.len() < ADDRESS_BEACON_LEN,
            r matches Ok(found) ==> match self.found_model(report@) {
                Some((name, model)) => found matches Some(info) && is_found(
                    info,
                    name,
                    model,
                    report@,
                    via,
                    targets,
                    replay,
                    now,
                ),
                None => found is None,
            },
    {
        broadcast use vstd::std_specs::hash::group_hash_axioms;

        if report.len() < ADDRESS_BEACON_LEN {
            return Err(ShortBeacon);
        }
        if read_u32_le(report, 0) != 0 {
            return Ok(None);
        }
        let link: u32 = read_u32_le(report, 4);
        match self.ids.get(&link) {
            Some(state) => {
                let subtype: u32 = read_u32_le(report, 8);
                let (expected, spokes, max_spoke_len): (u32, usize, usize) = match state.model {
                    Model::Quantum => (0x28, QUANTUM_SPOKES, QUANTUM_SPOKE_LEN),
                    Model::Eseries => (0x01, ESERIES_SPOKES, ESERIES_SPOKE_LEN),
                };
                if subtype != expected {
                    return Ok(None);
                }
                let radar_addr = read_little_endian_endpoint(report, 20);
                let radar_send = read_little_endian_endpoint(report, 28);
                let model_name = match &state.model_name {
                    Some(name) => Some(name.as_str()),
                    None => None,
                };
                let controls = settings::new(
                    targets,
                    replay,
                    String::new(),
                    state.model.base_model(),
                    model_name,
                );
                let info = RadarInfo::new(
                    targets,
                    replay,
                    Brand::Raymarine,
                    None,
                    None,
                    16,
                    spokes,
                    max_spoke_len,
                    radar_addr,
                    via,
                    radar_addr,
                    radar_addr,
                    radar_send,
                    controls,
                    false,
                    now,
                );
                proof {
                    assert(is_new_control(
                        info.controls.slot(ControlId::UserName),
                        ControlId::UserName,
                        settings::initial_item(ControlId::UserName, state.model.base()),
                        settings::initial_text(
                            ControlId::UserName,
                            opt_text(state.model_name),
                        ),
                        replay,
                        targets,
                    ));
                    assert(is_new_control(
                        info.controls.slot(ControlId::ModelName),
                        ControlId::ModelName,
                        settings::initial_item(ControlId::ModelName, state.model.base()),
                        settings::initial_text(
                            ControlId::ModelName,
                            opt_text(state.model_name),
                        ),
                        replay,
                        targets,
                    ));
                    assert(is_new_control(
                        info.controls.slot(ControlId::Range),
                        ControlId::Range,
                        settings::initial_item(ControlId::Range, state.model.base()),
                        settings::initial_text(
                            ControlId::Range,
                            opt_text(state.model_name),
                        ),
                        replay,
                        targets,
                    ));
                }
                Ok(Some(info))
            },
            None => Ok(None),
        }
    }

    /// Handles a beacon that tells the model of a radar.
    pub fn process_beacon_56_report(&mut self, report: &[u8]) -> (r: Result<(), ShortBeacon>)
        ensures
            r is Err <==> report.len() < MODEL_BEACON_LEN,
            r is Err ==> *final(self) == *old(self),
            r is Ok ==> forall|link: u32|
                (#[trigger] final(self).known(link)) == match told_model(report@) {
                    Some((told, name, model)) => if told == link {
                        Some((name, model))
                    } else {
                        old(self).known(link)
                    },
                    None => old(self).known(link),
                },
    {
        broadcast use vstd::std_specs::hash::group_hash_axioms;

        if report.len() < MODEL_BEACON_LEN {
            return Err(ShortBeacon);
        }
        if read_u32_le(report, 0) != 1 {
            return Ok(());
        }
        let link: u32 = read_u32_le(report, 8);
        let subtype: u32 = read_u32_le(report, 4);
        if subtype == 0x66 {
            let model_name = c_string(vstd::slice::slice_subrange(report, 20, 52));
            let _ = self.ids.insert(link, RadarState { model_name, model: Model::Quantum });
        } else if subtype == 0x01 {
            let model = Model::Eseries;
            let model_name = Some(model.to_str().to_owned());
            let _ = self.ids.insert(link, RadarState { model_name, model });
        }
        Ok(())
    }

    /// Handles a datagram from a radar: a beacon that tells the model, or one that tells the
    /// addresses, by its length. The result is the radar that was found.
    pub fn process(
        &mut self,
        report: &[u8],
        via: u32,
        targets: TargetMode,
        replay: bool,
        now: u64,
    ) -> (r: Option<RadarInfo>)
        ensures
            match (report.len() == ADDRESS_BEACON_LEN, old(self).found_model(report@)) {
                (true, Some((name, model))) => r matches Some(info) && is_found(
                    info,
                    name,
                    model,
                    report@,
                    via,
                    targets,
                    replay,
                    now,
                ),
                _ => r is None,
            },
            forall|link: u32|
                (#[trigger] final(self).known(link)) == if report.len() == MODEL_BEACON_LEN {
                    match told_model(report@) {
                        Some((told, name, model)) => if told == link {
                            Some((name, model))
                        } else {
                            old(self).known(link)
                        },
                        None => old(self).known(link),
                    }
                } else {
                    old(self).known(link)
                },
    {
        if report.len() == ADDRESS_BEACON_LEN {
            match self.process_beacon_36_report(report, via, targets, replay, now) {
                Ok(found) => found,
                Err(_) => None,
            }
        } else if report.len() == MODEL_BEACON_LEN {
            let _ = self.process_beacon_56_report(report);
            None
        } else {
            None
        }
    }
}

/// The model of a radar that is found: the one that is remembered, or else the one that its beacon
/// told.
pub open spec fn model_of(info: RadarInfo) -> Model {
    match info.controls.text_of(ControlId::ModelName) {
        Some(name) => Model::named(name),
        None => Model::Eseries,
    }
}

/// The steps by which a radar is taken into the registry: it is named by its key, then it gets what
/// is remembered of it and its number, then the controls of its model, then its controls are told
/// its key.
pub open spec fn found_steps(
    radars: SharedRadars,
    ranges: Ranges,
    info: RadarInfo,
    named: RadarInfo,
    located: RadarInfo,
    known: RadarInfo,
    identified: RadarInfo,
) -> bool {
    &&& is_named_by_key(info, named)
    &&& is_located(radars, ranges, named, located)
    &&& known == RadarInfo { controls: known.controls, ..located }
    &&& forall|id: ControlId| #[trigger]
        settings::is_model_known(located, known, model_of(located).spec_name(), id)
    &&& is_identified(known, identified)
}

/// A radar was found by its beacon. Unless it is known, it is taken into the registry, and its place
/// there is returned, together with whether the configuration has to be written to disk.
pub fn found(info: RadarInfo, radars: &mut SharedRadars, ranges: Ranges) -> (r: Option<
    (usize, bool),
>)
    requires
        old(radars).well_formed(),
        info.well_formed(),
        !info.doppler,
        info.serial_no is Some ==> info.controls.slot(ControlId::SerialNumber) is Some,
        forall|i: int|
            0 <= i < old(radars).info@.len() ==> (#[trigger] old(radars).info@[i]).id < usize::MAX,
        forall|i: int|
            0 <= i < old(radars).persistent_data.config.radars@.len() ==> (
            #[trigger] old(radars).persistent_data.config.radars@[i]).1.id < usize::MAX,
    ensures
        final(radars).well_formed(),
        r is Some <==> old(radars).takes(info),
        r is None ==> final(radars).info@ == old(radars).info@ && final(radars).persistent_data
            == old(radars).persistent_data,
        r matches Some((at, modified)) ==> {
            &&& at == old(radars).info@.len()
            &&& exists|named: RadarInfo, located: RadarInfo, known: RadarInfo, identified: RadarInfo|
                {
                    &&& #[trigger] found_steps(
                        *old(radars),
                        ranges,
                        info,
                        named,
                        located,
                        known,
                        identified,
                    )
                    &&& final(radars).info@ == old(radars).info@.push(identified)
                    &&& final(radars).persistent_data.config.record(info.key@) == remembered(
                        old(radars).persistent_data.config.record(info.key@),
                        known,
                    )
                }
            &&& modified == (final(radars).persistent_data.config.record(info.key@) != old(radars).persistent_data.config.record(info.key@))
        },
        forall|other: Seq<char>|
            other != info.key@ ==> #[trigger] final(radars).persistent_data.config.has(other)
                == old(radars).persistent_data.config.has(other) && final(radars).persistent_data.config.record(other) == old(radars).persistent_data.config.record(other),
{
    let mut info = info;
    let ghost first = info;
    info.name_by_key();
    let ghost named = info;
    match radars.located(info, ranges) {
        Some(at) => {
            let ghost before = radars.info@;
            let mut info = radars.take(at);
            let ghost located = info;
            proof {
                assert(radars.info@ =~= old(radars).info@);
                assert(located.controls.slot(ControlId::SerialNumber) == first.controls.slot(
                    ControlId::SerialNumber,
                )) by {
                    assert(named.controls.slot(ControlId::SerialNumber) == first.controls.slot(
                        ControlId::SerialNumber,
                    ));
                }
            }
            let model = match info.controls.model_name() {
                Some(name) => Model::new(name.as_str()),
                None => Model::Eseries,
            };
            settings::update_when_model_known(&mut info, model.to_str());
            info.set_doppler(false);
            let ghost known = info;
            assert(known.controls.slot(ControlId::UserName) is Some && known.controls.text_of(
                ControlId::UserName,
            ) is Some) by {
                assert(settings::is_model_known(
                    located,
                    known,
                    model.spec_name(),
                    ControlId::UserName,
                ));
            }
            let modified = radars.update(info);
            proof {
                let identified = choose|i: RadarInfo| #[trigger]
                    is_identified(known, i) && radars.info@ == old(radars).info@.push(i);
                assert(found_steps(
                    *old(radars),
                    ranges,
                    first,
                    named,
                    located,
                    known,
                    identified,
                ));
            }
            Some((at, modified))
        },
        None => None,
    }
}

/// Once a radar told its model, a beacon with its addresses leads to it.
pub proof fn model_leads_to_radar(
    after: RaymarineLocatorState,
    model_beacon: Seq<u8>,
    address_beacon: Seq<u8>,
)
    requires
        told_model(model_beacon) is Some,
        ({
            let (link, name, model) = told_model(model_beacon)->0;
            &&& after.known(link) == Some((name, model))
            &&& le32(address_beacon, 0) == 0
            &&& le32(address_beacon, 4) == link
            &&& le32(address_beacon, 8) == model.address_subtype()
        }),
    ensures
        ({
            let (link, name, model) = told_model(model_beacon)->0;
            after.found_model(address_beacon) == Some((name, model))
        }),
{
}

/// What a radar puts into a beacon that tells its model is what is known of its link from then on:
/// whether it is a Quantum, and then its name, or an E series radar.
pub proof fn told_models_are_read_back(report: Seq<u8>, kind: u32, subtype: u32, link: u32)
    requires
        report.len() >= 56,
        holds32(report, 0, kind as int),
        holds32(report, 4, subtype as int),
        holds32(report, 8, link as int),
    ensures
        told_model(report) is Some <==> kind == 1 && (subtype == 0x66 || subtype == 1),
        told_model(report) matches Some((told, name, model)) ==> {
            &&& told == link
            &&& model == Model::Quantum <==> subtype == 0x66
            &&& subtype == 0x66 ==> name == c_text(report.subrange(20, 52))
            &&& subtype == 1 ==> name == Some("RD/HD/Eseries"@)
        },
{
    numbers_of_four_bytes(report, 0, kind as int);
    numbers_of_four_bytes(report, 4, subtype as int);
    numbers_of_four_bytes(report, 8, link as int);
}

/// A beacon with addresses leads to a radar exactly if the radar behind its link told its model, and the
/// beacon is of the kind that such radars send.
pub proof fn addresses_need_a_model(
    state: RaymarineLocatorState,
    report: Seq<u8>,
    kind: u32,
    link: u32,
    subtype: u32,
)
    requires
        report.len() >= 36,
        holds32(report, 0, kind as int),
        holds32(report, 4, link as int),
        holds32(report, 8, subtype as int),
    ensures
        state.found_model(report) is Some <==> kind == 0 && (state.known(link) matches Some((_, model))
            && subtype == if model == Model::Quantum {
            0x28int
        } else {
            1
        }),
        state.found_model(report) is Some ==> state.found_model(report) == state.known(link),
{
    numbers_of_four_bytes(report, 0, kind as int);
    numbers_of_four_bytes(report, 4, link as int);
    numbers_of_four_bytes(report, 8, subtype as int);
}

/// The two addresses that a radar puts into a beacon are what is known of it when it is found: where it
/// sends everything to, and where it takes commands. Its kind tells the size of its picture.
pub proof fn addresses_are_read_back(
    info: RadarInfo,
    name: Option<Seq<char>>,
    model: Model,
    report: Seq<u8>,
    addr: Endpoint,
    send: Endpoint,
    via: u32,
    targets: TargetMode,
    replay: bool,
    now: u64,
)
    requires
        report.len() >= 36,
        lies_reversed_at(report, 20, addr),
        lies_reversed_at(report, 28, send),
        is_found(info, name, model, report, via, targets, replay, now),
    ensures
        info.addr == addr,
        info.spoke_data_addr == addr,
        info.report_addr == addr,
        info.send_command_addr == send,
        info.nic_addr == via,
        info.brand == Brand::Raymarine,
        info.serial_no is None && info.which is None,
        info.pixel_values == 16,
        model == Model::Quantum ==> info.spokes_per_revolution == 250 && info.max_spoke_len == 252,
        model == Model::Eseries ==> info.spokes_per_revolution == 2048 && info.max_spoke_len == 1024,
{
    endpoints_are_read_back(report, 20, addr);
    endpoints_are_read_back(report, 28, send);
}

/// Only the plain name of the Quantum stands for one; the kinds belong to different families.
pub proof fn kinds_have_their_families(s: Seq<char>)
    ensures
        Model::named(s) == Model::Quantum <==> s == "Quantum"@,
        Model::Quantum.base() == BaseModel::Quantum,
        Model::Eseries.base() == BaseModel::RD,
{
}

/// A radar that is taken into the registry keeps its key and its addresses, has a number, and its
/// controls know its key. It is named by its key, or by what is remembered of it, or by its model.
pub proof fn found_radars_keep_their_addresses(
    radars: SharedRadars,
    ranges: Ranges,
    info: RadarInfo,
    named: RadarInfo,
    located: RadarInfo,
    known: RadarInfo,
    identified: RadarInfo,
)
    requires
        found_steps(radars, ranges, info, named, located, known, identified),
        info.id == usize::MAX,
        info.well_formed(),
    ensures
        identified.key@ == info.key@,
        identified.controls.radar_id@ == info.key@,
        identified.addr == info.addr,
        identified.nic_addr == info.nic_addr,
        identified.spoke_data_addr == info.spoke_data_addr,
        identified.report_addr == info.report_addr,
        identified.send_command_addr == info.send_command_addr,
        identified.brand == info.brand,
        identified.serial_no == info.serial_no,
        radars.is_highest_id(identified.id - 1),
{
}

} // verus!

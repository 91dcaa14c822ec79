//! The controls and the ranges of Furuno radars.
use vstd::prelude::*;

use crate::brand::TargetMode;
use crate::control_id::ControlId;
use crate::controls::{
    completed_is_new, is_described, is_fresh, is_initial, is_new_control, new_controls,
    set_to_text, Ranges, SharedControls,
};
use crate::definition::{
    adjusts_itself, auto_not_adjustable, automatic, blanks, can_be_set, counted,
    has_auto_not_adjustable, list, lists_offer_their_names, measured_in, new_auto, new_list_2,
    new_list_3, new_list_4, new_numeric, new_sector, new_string, numeric, offers, sector,
    shows_text, spans, stepped, text, whole, ControlBuilder, DefinitionView, Rational,
};
use crate::radar::{default_name, is_introduced, RadarInfo};
use crate::units::Units;
use crate::value::opt_text;

verus! {

/// The number of spokes of a revolution.
pub const FURUNO_SPOKES: usize = 8192;

/// The length that a spoke has at most, in pixels.
pub const FURUNO_SPOKE_LEN: usize = 883;

/// The models of Furuno radars.
#[derive(Clone, Copy, Debug, PartialEq, Eq, Structural)]
pub enum RadarModel {
    Unknown,
    FAR21x7,
    DRS,
    FAR14x7,
    DRS4DL,
    FAR3000,
    DRS4DNXT,
    DRS6ANXT,
    DRS6AXCLASS,
    FAR15x3,
    FAR14x6,
    DRS12ANXT,
    DRS25ANXT,
}

impl RadarModel {
    /// The name of the model.
    pub open spec fn spec_name(self) -> Seq<char> {
        match self {
            RadarModel::Unknown => "Unknown"@,
            RadarModel::FAR21x7 => "FAR21x7"@,
            RadarModel::DRS => "DRS"@,
            RadarModel::FAR14x7 => "FAR14x7"@,
            RadarModel::DRS4DL => "DRS4DL"@,
            RadarModel::FAR3000 => "FAR3000"@,
            RadarModel::DRS4DNXT => "DRS4DNXT"@,
            RadarModel::DRS6ANXT => "DRS6ANXT"@,
            RadarModel::DRS6AXCLASS => "DRS6AXCLASS"@,
            RadarModel::FAR15x3 => "FAR15x3"@,
            RadarModel::FAR14x6 => "FAR14x6"@,
            RadarModel::DRS12ANXT => "DRS12ANXT"@,
            RadarModel::DRS25ANXT => "DRS25ANXT"@,
        }
    }

    /// The name of the model.
    pub fn to_str(&self) -> (s: &'static str)
        ensures
            s@ == self.spec_name(),
    {
        match self {
            RadarModel::Unknown => "Unknown",
            RadarModel::FAR21x7 => "FAR21x7",
            RadarModel::DRS => "DRS",
            RadarModel::FAR14x7 => "FAR14x7",
            RadarModel::DRS4DL => "DRS4DL",
            RadarModel::FAR3000 => "FAR3000",
            RadarModel::DRS4DNXT => "DRS4DNXT",
            RadarModel::DRS6ANXT => "DRS6ANXT",
            RadarModel::DRS6AXCLASS => "DRS6AXCLASS",
            RadarModel::FAR15x3 => "FAR15x3",
            RadarModel::FAR14x6 => "FAR14x6",
            RadarModel::DRS12ANXT => "DRS12ANXT",
            RadarModel::DRS25ANXT => "DRS25ANXT",
        }
    }

    /// Whether the model is of the NXT series.
    pub open spec fn is_nxt(self) -> bool {
        match self {
            RadarModel::DRS4DNXT
            | RadarModel::DRS6ANXT
            | RadarModel::DRS12ANXT
            | RadarModel::DRS25ANXT => true,
            _ => false,
        }
    }

    /// Whether the model is of the FAR series.
    pub open spec fn is_far(self) -> bool {
        match self {
            RadarModel::FAR21x7
            | RadarModel::FAR3000
            | RadarModel::FAR15x3
            | RadarModel::FAR14x6
            | RadarModel::FAR14x7 => true,
            _ => false,
        }
    }
}

/// The ranges of the DRS series before NXT.
pub open spec fn standard_ranges() -> Seq<i32> {
    seq![
        116i32, 231i32, 463i32, 926i32, 1389i32, 1852i32, 2778i32, 3704i32, 5556i32, 7408i32,
        11112i32, 14816i32, 22224i32, 29632i32, 44448i32, 59264i32, 66672i32,
    ]
}

/// The ranges of the smaller DRS NXT radars.
pub open spec fn nxt_ranges() -> Seq<i32> {
    seq![
        116i32, 231i32, 463i32, 926i32, 1389i32, 1852i32, 2778i32, 3704i32, 5556i32, 7408i32,
        11112i32, 14816i32, 22224i32, 29632i32, 44448i32, 59264i32, 66672i32, 88896i32,
    ]
}

/// The ranges of the larger DRS NXT radars.
pub open spec fn extended_ranges() -> Seq<i32> {
    seq![
        116i32, 231i32, 463i32, 926i32, 1389i32, 1852i32, 2778i32, 3704i32, 5556i32, 7408i32,
        11112i32, 14816i32, 22224i32, 29632i32, 44448i32, 59264i32, 66672i32, 88896i32,
        118528i32, 133344i32, 177792i32,
    ]
}

/// The ranges of the FAR series.
pub open spec fn far_ranges() -> Seq<i32> {
    seq![
        231i32, 463i32, 926i32, 1389i32, 1852i32, 2778i32, 3704i32, 5556i32, 7408i32, 11112i32,
        14816i32, 22224i32, 29632i32, 44448i32, 59264i32, 88896i32, 177792i32,
    ]
}

/// The ranges of a model, in meters.
pub open spec fn ranges_of_model(model: RadarModel) -> Seq<i32> {
    match model {
        RadarModel::DRS12ANXT | RadarModel::DRS25ANXT => extended_ranges(),
        RadarModel::DRS4DNXT | RadarModel::DRS6ANXT => nxt_ranges(),
        _ => if model.is_far() {
            far_ranges()
        } else {
            standard_ranges()
        },
    }
}

/// The tables of ranges.
#[derive(Clone, Copy)]
enum RangeTable {
    Standard,
    Nxt,
    Extended,
    Far,
}

/// The ranges of a model, in meters.
pub fn get_ranges_by_model(model: &RadarModel) -> (ranges: Vec<i32>)
    ensures
        ranges@ == ranges_of_model(*model),
{
    let table = match model {
        RadarModel::DRS12ANXT | RadarModel::DRS25ANXT => RangeTable::Extended,
        RadarModel::DRS4DNXT | RadarModel::DRS6ANXT => RangeTable::Nxt,
        RadarModel::FAR21x7
        | RadarModel::FAR3000
        | RadarModel::FAR15x3
        | RadarModel::FAR14x6
        | RadarModel::FAR14x7 => RangeTable::Far,
        RadarModel::Unknown
        | RadarModel::DRS
        | RadarModel::DRS4DL
        | RadarModel::DRS6AXCLASS => RangeTable::Standard,
    };
    match table {
        RangeTable::Standard => {
            let v: Vec<i32> = vec![
                116, 231, 463, 926, 1389, 1852, 2778, 3704, 5556, 7408, 11112, 14816, 22224,
                29632, 44448, 59264, 66672,
            ];
            assert(v@ =~= standard_ranges());
            v
        },
        RangeTable::Nxt => {
            let v: Vec<i32> = vec![
                116, 231, 463, 926, 1389, 1852, 2778, 3704, 5556, 7408, 11112, 14816, 22224,
                29632, 44448, 59264, 66672, 88896,
            ];
            assert(v@ =~= nxt_ranges());
            v
        },
        RangeTable::Extended => {
            let v: Vec<i32> = vec![
                116, 231, 463, 926, 1389, 1852, 2778, 3704, 5556, 7408, 11112, 14816, 22224,
                29632, 44448, 59264, 66672, 88896, 118528, 133344, 177792,
            ];
            assert(v@ =~= extended_ranges());
            v
        },
        RangeTable::Far => {
            let v: Vec<i32> = vec![
                231, 463, 926, 1389, 1852, 2778, 3704, 5556, 7408, 11112, 14816, 22224, 29632,
                44448, 59264, 88896, 177792,
            ];
            assert(v@ =~= far_ranges());
            v
        },
    }
}

/// The controls that a radar has from the start.
pub open spec fn initial_item(id: ControlId) -> Option<DefinitionView> {
    match id {
        ControlId::ModelName => Some(text(id)),
        ControlId::Gain => Some(automatic(id, 0, 100, has_auto_not_adjustable())),
        ControlId::Sea => Some(automatic(id, 0, 100, has_auto_not_adjustable())),
        ControlId::Rain => Some(automatic(id, 0, 100, has_auto_not_adjustable())),
        ControlId::OperatingTime => Some(
            numeric(id, 0, whole(999999)).read_only(true).in_units(Units::Hours),
        ),
        ControlId::RotationSpeed => Some(
            numeric(id, 0, whole(99)).scale_factor(whole(10), true).read_only(true).in_units(
                Units::RotationsPerMinute,
            ),
        ),
        _ => None,
    }
}

/// The controls that a radar has when it is found.
pub fn new(targets: TargetMode, replay: bool, radar_id: String) -> (r: SharedControls)
    ensures
        r.well_formed(),
        r.replay == replay,
        r.radar_id@ == radar_id@,
        r.default_range_units == 0,
        r.all_ranges.all@.len() == 0,
        forall|id: ControlId| #[trigger]
            is_new_control(r.slot(id), id, initial_item(id), None, replay, targets),
{
    let mut c = SharedControls::empty(radar_id, replay);
    c.add(new_auto(ControlId::Gain, 0, 100, auto_not_adjustable()));
    c.add(new_auto(ControlId::Sea, 0, 100, auto_not_adjustable()));
    c.add(new_auto(ControlId::Rain, 0, 100, auto_not_adjustable()));
    c.add(
        new_numeric(ControlId::OperatingTime, 0, Rational::new(999999)).read_only(
            true,
        ).wire_units(Units::Hours),
    );
    c.add(
        new_numeric(ControlId::RotationSpeed, 0, Rational::new(99)).wire_scale_factor(
            Rational::new(10),
            true,
        ).read_only(true).wire_units(Units::RotationsPerMinute),
    );
    let r = new_controls(c, targets);
    proof {
        assert forall|id: ControlId| #[trigger]
            is_new_control(r.slot(id), id, initial_item(id), None, replay, targets) by {
            if id == ControlId::ModelName {
                assert(c.slot(id) is None);
            } else {
                assert(is_initial(c.slot(id), initial_item(id), None));
            }
            completed_is_new(c.slot(id), r.slot(id), id, initial_item(id), None, replay, targets);
        }
    }
    r
}

/// A sector without transmission.
pub open spec fn blind_sector(id: ControlId) -> DefinitionView {
    sector(id, -180, 180).offset(whole(-1)).in_units(Units::Degrees)
}

/// A choice of four levels.
pub open spec fn four_levels(id: ControlId) -> DefinitionView {
    list(id, seq!["Off"@, "Low"@, "Medium"@, "High"@])
}

/// The controls that a radar gets when its model is known, apart from those with a text.
pub open spec fn model_item(id: ControlId, model: RadarModel) -> Option<DefinitionView> {
    match id {
        ControlId::NoTransmitSector1 => Some(blind_sector(id)),
        ControlId::NoTransmitSector2 => Some(blind_sector(id)),
        _ => if model.is_nxt() {
            match id {
                ControlId::NoiseRejection => Some(list(id, seq!["Off"@, "On"@])),
                ControlId::InterferenceRejection => Some(list(id, seq!["Off"@, "On"@])),
                ControlId::TargetSeparation => Some(four_levels(id)),
                ControlId::BirdMode => Some(four_levels(id)),
                ControlId::Doppler => Some(list(id, seq!["Off"@, "Target"@, "Rain"@])),
                _ => None,
            }
        } else {
            None
        },
    }
}

fn new_blind_sector(id: ControlId) -> (b: ControlBuilder)
    ensures
        b.builds(blind_sector(id), true),
{
    new_sector(id, -180, 180).wire_offset(Rational::new(-1)).wire_units(Units::Degrees)
}

/// A definition that clients cannot set while recorded data is replayed.
pub open spec fn replayed(item: DefinitionView, replay: bool) -> DefinitionView {
    if replay {
        item.read_only(true)
    } else {
        item
    }
}

fn model_controls(controls: SharedControls, model: &RadarModel) -> (r: SharedControls)
    requires
        controls.well_formed(),
    ensures
        r.well_formed(),
        r == (SharedControls { slots: r.slots, ..controls }),
        forall|id: ControlId|
            match model_item(id, *model) {
                Some(item) => (#[trigger] r.slot(id)) matches Some(c) && is_fresh(
                    c,
                    replayed(item, controls.replay),
                ),
                None => r.slot(id) == controls.slot(id),
            },
{
    let mut c = controls;
    c.define(new_blind_sector(ControlId::NoTransmitSector1));
    c.define(new_blind_sector(ControlId::NoTransmitSector2));
    match model {
        RadarModel::DRS4DNXT
        | RadarModel::DRS6ANXT
        | RadarModel::DRS12ANXT
        | RadarModel::DRS25ANXT => {
            c.define(new_list_2(ControlId::NoiseRejection, "Off", "On"));
            c.define(new_list_2(ControlId::InterferenceRejection, "Off", "On"));
            c.define(new_list_4(ControlId::TargetSeparation, "Off", "Low", "Medium", "High"));
            c.define(new_list_4(ControlId::BirdMode, "Off", "Low", "Medium", "High"));
            c.define(new_list_3(ControlId::Doppler, "Off", "Target", "Rain"));
        },
        _ => {},
    }
    c
}

/// What becomes of a control when the model of the radar and the version of its firmware are known.
pub open spec fn is_model_known(
    before: RadarInfo,
    after: RadarInfo,
    model: RadarModel,
    version: Seq<char>,
    ranges: Ranges,
    id: ControlId,
) -> bool {
    let replay = before.controls.replay;
    match (model_item(id, model), id) {
        (Some(item), _) => after.controls.slot(id) matches Some(c) && is_fresh(
            c,
            replayed(item, replay),
        ),
        (None, ControlId::SerialNumber) => after.controls.slot(id) matches Some(c)
            && is_described(c, replayed(text(id), replay), opt_text(before.serial_no)),
        (None, ControlId::FirmwareVersion) => after.controls.slot(id) matches Some(c)
            && is_described(c, replayed(text(id), replay), Some(version)),
        (None, ControlId::Range) => after.controls.slot(id) matches Some(c) && (SharedControls {
            all_ranges: ranges,
            ..before.controls
        }).ranges_applied(c),
        (None, ControlId::ModelName) => after.controls.slot(id) matches Some(c) && set_to_text(
            before.controls.slot(id)->0,
            c,
            model.spec_name(),
        ),
        (None, ControlId::UserName) => if before.controls.text_of(id) == Some(before.key@) {
            after.controls.slot(id) matches Some(c) && set_to_text(
                before.controls.slot(id)->0,
                c,
                default_name(model.spec_name(), opt_text(before.serial_no), None),
            )
        } else {
            after.controls.slot(id) == before.controls.slot(id)
        },
        (None, _) => after.controls.slot(id) == before.controls.slot(id),
    }
}

/// Brings the controls of a radar up to date when its model and the version of its firmware are
/// known. `ranges` are those of the distances that `get_ranges_by_model` returns.
pub fn update_when_model_known(
    info: &mut RadarInfo,
    model: RadarModel,
    version: &str,
    ranges: Ranges,
)
    requires
        old(info).well_formed(),
        old(info).controls.text_of(ControlId::UserName) is Some,
    ensures
        final(info).well_formed(),
        *final(info) == (RadarInfo {
            controls: final(info).controls,
            dual_range: old(info).dual_range || model.is_nxt(),
            ..*old(info)
        }),
        final(info).controls == (SharedControls {
            slots: final(info).controls.slots,
            all_ranges: ranges,
            ..old(info).controls
        }),
        forall|id: ControlId| #[trigger]
            is_model_known(*old(info), *final(info), model, version@, ranges, id),
{
    let ghost before = *info;
    info.controls.define(new_string(ControlId::SerialNumber));
    let ghost numbered = *info;
    assert(numbered.controls.slot(ControlId::UserName) == before.controls.slot(
        ControlId::UserName,
    ));
    assert(numbered.controls.slot(ControlId::ModelName) == before.controls.slot(
        ControlId::ModelName,
    ));
    assert(numbered.controls.slot(ControlId::Range) == before.controls.slot(ControlId::Range));
    info.introduce(model.to_str(), 0, None);
    let ghost named = info.controls;
    assert(is_introduced(
        numbered.controls,
        named,
        numbered,
        model.spec_name(),
        0,
        None,
        ControlId::Range,
    ));
    assert(is_introduced(
        numbered.controls,
        named,
        numbered,
        model.spec_name(),
        0,
        None,
        ControlId::RangeUnits,
    ));
    assert(numbered.controls.slot(ControlId::RangeUnits) == before.controls.slot(
        ControlId::RangeUnits,
    ));
    info.controls.set_valid_ranges(ranges);
    let ghost ranged = info.controls;
    info.controls.define(new_string(ControlId::FirmwareVersion));
    let ghost firm = info.controls;
    let _ = info.controls.set_text(&ControlId::FirmwareVersion, version.to_owned());
    let ghost versioned = info.controls;
    let mut c = SharedControls::empty(String::new(), false);
    std::mem::swap(&mut c, &mut info.controls);
    assert(c == versioned);
    info.controls = model_controls(c, &model);
    match model {
        RadarModel::DRS4DNXT
        | RadarModel::DRS6ANXT
        | RadarModel::DRS12ANXT
        | RadarModel::DRS25ANXT => {
            info.dual_range = true;
        },
        _ => {},
    }
    proof {
        assert forall|id: ControlId| #[trigger]
            is_model_known(before, *info, model, version@, ranges, id) by {
            assert(is_introduced(
                numbered.controls,
                named,
                numbered,
                model.spec_name(),
                0,
                None,
                id,
            ));
            assert(info.controls.slot(id) == info.controls.slot(id));
            if id != ControlId::SerialNumber {
                assert(numbered.controls.slot(id) == before.controls.slot(id));
            }
            if id != ControlId::Range {
                assert(ranged.slot(id) == named.slot(id));
            }
            if id != ControlId::FirmwareVersion {
                assert(firm.slot(id) == ranged.slot(id));
                assert(versioned.slot(id) == firm.slot(id));
            }
            if id == ControlId::UserName {
                assert(opt_text(before.serial_no) matches Some(s) ==> s.skip(0) =~= s);
            }
        }
        assert(is_model_known(before, *info, model, version@, ranges, ControlId::UserName));
        assert(is_model_known(before, *info, model, version@, ranges, ControlId::ModelName));
        assert(is_model_known(before, *info, model, version@, ranges, ControlId::Range));
    }
}

/// The ranges of every model go up.
pub proof fn ranges_go_up(model: RadarModel, i: int, j: int)
    requires
        0 <= i < j < ranges_of_model(model).len(),
    ensures
        ranges_of_model(model)[i] < ranges_of_model(model)[j],
{
}

/// What the controls mean that every radar has.
pub proof fn initial_controls_mean_this(id: ControlId)
    ensures
        initial_item(id) matches Some(item) ==> item.control_id == id,
        id == ControlId::Gain || id == ControlId::Sea || id == ControlId::Rain ==> spans(
            initial_item(id),
            0,
            100,
        ) && counted(initial_item(id), 1, 1) && adjusts_itself(initial_item(id)) && can_be_set(
            initial_item(id),
        ),
        id == ControlId::OperatingTime ==> measured_in(initial_item(id), Units::Hours)
            && !can_be_set(initial_item(id)),
        id == ControlId::RotationSpeed ==> counted(initial_item(id), 10, 1) && stepped(
            initial_item(id),
            10,
        ) && measured_in(initial_item(id), Units::RotationsPerMinute) && !can_be_set(
            initial_item(id),
        ),
        id == ControlId::ModelName ==> shows_text(initial_item(id)),
{
}

/// Every radar has two sectors without transmission, to both sides in whole degrees. Only radars of the
/// NXT series filter noise and interference, separate targets, and have a bird mode and Doppler.
pub proof fn model_controls_mean_this(id: ControlId, model: RadarModel)
    ensures
        model_item(id, model) matches Some(item) ==> item.control_id == id && !item.is_read_only,
        id == ControlId::NoTransmitSector1 || id == ControlId::NoTransmitSector2 ==> blanks(
            model_item(id, model),
        ) && spans(model_item(id, model), -180, 180) && counted(model_item(id, model), 1, 1)
            && model_item(id, model)->0.wire_offset == Some(whole(-1)),
        id == ControlId::NoiseRejection || id == ControlId::InterferenceRejection || id
            == ControlId::TargetSeparation || id == ControlId::BirdMode || id == ControlId::Doppler
            ==> (model_item(id, model) is Some) == (model == RadarModel::DRS4DNXT || model
            == RadarModel::DRS6ANXT || model == RadarModel::DRS12ANXT || model
            == RadarModel::DRS25ANXT),
        model.is_nxt() && (id == ControlId::NoiseRejection || id
            == ControlId::InterferenceRejection) ==> offers(
            model_item(id, model),
            seq!["Off"@, "On"@],
        ),
        model.is_nxt() && (id == ControlId::TargetSeparation || id == ControlId::BirdMode) ==> offers(
            model_item(id, model),
            seq!["Off"@, "Low"@, "Medium"@, "High"@],
        ),
        model.is_nxt() && id == ControlId::Doppler ==> offers(
            model_item(id, model),
            seq!["Off"@, "Target"@, "Rain"@],
        ),
{
    lists_offer_their_names(id, seq!["Off"@, "On"@]);
    lists_offer_their_names(id, seq!["Off"@, "Low"@, "Medium"@, "High"@]);
    lists_offer_their_names(id, seq!["Off"@, "Target"@, "Rain"@]);
}

/// Every range of a model is a number of sixteenths of a nautical mile of 1852 meters, to the meter.
/// Radars of the NXT series have all ranges of the others, and longer ones.
pub proof fn ranges_are_in_sixteenths_of_a_mile(model: RadarModel, i: int)
    requires
        0 <= i < ranges_of_model(model).len(),
    ensures
        exists|n: int|
            n >= 1 && -16 < 16 * ranges_of_model(model)[i] - #[trigger] (n * 1852) < 16,
{
    let r = ranges_of_model(model)[i] as int;
    let n = (16 * r + 926) / 1852;
    let m = n * 1852;
    assert(n >= 1 && -16 < 16 * r - n * 1852 < 16);
}

/// The longest range is 36 nautical miles, 48 for the smaller NXT radars, and 96 for the larger ones and
/// the FAR series.
pub proof fn longest_ranges(model: RadarModel)
    ensures
        model.is_far() || model == RadarModel::DRS12ANXT || model == RadarModel::DRS25ANXT
            ==> ranges_of_model(model).last() == 96 * 1852,
        model == RadarModel::DRS4DNXT || model == RadarModel::DRS6ANXT ==> ranges_of_model(
            model,
        ).last() == 48 * 1852,
        !model.is_far() && !model.is_nxt() ==> ranges_of_model(model).last() == 36 * 1852,
        model.is_far() <==> model == RadarModel::FAR21x7 || model == RadarModel::FAR3000 || model
            == RadarModel::FAR15x3 || model == RadarModel::FAR14x6 || model == RadarModel::FAR14x7,
        model.is_nxt() ==> standard_ranges().is_prefix_of(ranges_of_model(model)),
{
    if model.is_nxt() {
        assert(standard_ranges() =~= ranges_of_model(model).take(17));
    }
}

/// A distance of a model that is longer than the shortest one is also the length of the range that the
/// radar is asked for.
pub proof fn ranges_can_be_asked_for(model: RadarModel, i: int)
    requires
        0 < i < ranges_of_model(model).len(),
    ensures
        ({
            let n = crate::furuno::command::range_number(ranges_of_model(model)[i] as int);
            &&& 0 <= n < crate::furuno::command::furuno_radar_ranges().len()
            &&& crate::furuno::command::furuno_radar_ranges()[n] == ranges_of_model(model)[i]
        }),
{
    let ranges = crate::furuno::command::furuno_radar_ranges();
    let r = ranges_of_model(model)[i];
    assert(exists|k: int| 0 <= k < ranges.len() && #[trigger] ranges[k] == r) by {
        assert(ranges[1] == 231 && ranges[2] == 463 && ranges[3] == 926 && ranges[4] == 1389);
        assert(ranges[5] == 1852 && ranges[6] == 2778 && ranges[7] == 3704 && ranges[8] == 5556);
        assert(ranges[9] == 7408 && ranges[10] == 11112 && ranges[11] == 14816);
        assert(ranges[12] == 22224 && ranges[13] == 29632 && ranges[14] == 44448);
        assert(ranges[15] == 59264 && ranges[16] == 66672 && ranges[17] == 88896);
        assert(ranges[18] == 118528 && ranges[19] == 133344 && ranges[20] == 177792);
    }
    let k = choose|k: int| 0 <= k < ranges.len() && #[trigger] ranges[k] == r;
    first_is(ranges, k);
}

proof fn first_is(ranges: Seq<i32>, k: int)
    requires
        0 <= k < ranges.len(),
        forall|i: int, j: int| 0 <= i < j < ranges.len() ==> ranges[i] < ranges[j],
    ensures
        crate::furuno::command::first_long_range(ranges, ranges[k] as int) == k,
    decreases k,
{
    if k > 0 {
        assert(ranges[0] < ranges[k]);
        first_is(ranges.skip(1), k - 1);
        assert(ranges.skip(1)[k - 1] == ranges[k]);
    }
}

/// Once the model is known, the radar goes by its model, and shows its serial number and the version of
/// its firmware. Its ranges are those of the model, in the units that are in use.
pub proof fn known_models_change_the_controls(
    before: RadarInfo,
    after: RadarInfo,
    model: RadarModel,
    version: Seq<char>,
    ranges: Ranges,
    id: ControlId,
)
    requires
        forall|i: ControlId| #[trigger] is_model_known(before, after, model, version, ranges, i),
        before.well_formed(),
    ensures
        after.controls.text_of(ControlId::ModelName) == Some(model.spec_name()),
        after.controls.text_of(ControlId::FirmwareVersion) == Some(version),
        after.controls.text_of(ControlId::SerialNumber) == opt_text(before.serial_no),
        before.controls.text_of(ControlId::UserName) != Some(before.key@) ==> after.controls.text_of(
            ControlId::UserName,
        ) == before.controls.text_of(ControlId::UserName),
        before.controls.text_of(ControlId::UserName) == Some(before.key@) && before.serial_no is None
            ==> after.controls.text_of(ControlId::UserName) == Some(model.spec_name()),
        model_item(id, model) matches Some(item) ==> (after.controls.slot(id) matches Some(c)
            && c.item@ == item.read_only(before.controls.replay || item.is_read_only)),
{
    assert(is_model_known(before, after, model, version, ranges, ControlId::ModelName));
    assert(is_model_known(before, after, model, version, ranges, ControlId::FirmwareVersion));
    assert(is_model_known(before, after, model, version, ranges, ControlId::SerialNumber));
    assert(is_model_known(before, after, model, version, ranges, ControlId::UserName));
    assert(is_model_known(before, after, model, version, ranges, id));
}

} // verus!

//! The controls of Raymarine radars.
use vstd::prelude::*;

use crate::brand::TargetMode;
use crate::control::Control;
use crate::control_id::ControlId;
use crate::controls::{
    completed_is_new, is_fresh, is_initial, is_new_control, new_controls, set_to_ranges,
    SharedControls,
};
use crate::definition::{
    adjusts_itself, auto_not_adjustable, automatic, blanks, can_be_set, counted,
    has_auto_not_adjustable, list, lists_offer_their_names, measured_in, names_of, new_auto,
    new_list, new_list_2, new_list_4, new_numeric, new_sector, new_string, numeric, offers, ratio,
    sector, shows_text, spans, stepped, text, whole, DefinitionView, Rational,
};
use crate::radar::{is_introduced, opt_str, RadarInfo};
use crate::raymarine::command::BaseModel;
use crate::units::Units;
use crate::value::opt_text;

verus! {

/// The longest range, 36 nautical miles in meters.
pub const MAX_RANGE: i64 = 66672;

/// The controls that a radar of a family has from the start.
pub open spec fn initial_item(id: ControlId, model: BaseModel) -> Option<DefinitionView> {
    match id {
        ControlId::ModelName => Some(text(id)),
        ControlId::BearingAlignment => Some(
            numeric(id, -180, whole(180)).scale_factor(whole(10), true).offset(whole(-1)).in_units(
                Units::Degrees,
            ),
        ),
        ControlId::Gain => Some(automatic(id, 0, 100, has_auto_not_adjustable())),
        ControlId::InterferenceRejection => Some(
            list(id, seq!["Off"@, "Level 1"@, "Level 2"@, "Level 3"@, "Level 4"@, "Level 5"@]),
        ),
        ControlId::Rain => Some(numeric(id, 0, whole(100)).switchable()),
        ControlId::RotationSpeed => Some(
            numeric(id, 0, whole(99)).scale_step(ratio(1, 10)).read_only(true).in_units(
                Units::RotationsPerMinute,
            ),
        ),
        ControlId::SerialNumber => Some(text(id)),
        _ => match model {
            BaseModel::Quantum => quantum_item(id),
            BaseModel::RD => rd_item(id),
        },
    }
}

/// The controls that Quantum radars have from the start, beside those of all families.
pub open spec fn quantum_item(id: ControlId) -> Option<DefinitionView> {
    match id {
        ControlId::Mode => Some(list(id, seq!["Harbor"@, "Coastal"@, "Offshore"@, "Weather"@])),
        ControlId::Doppler => Some(list(id, seq!["Off"@, "On"@])),
        ControlId::TargetExpansion => Some(list(id, seq!["Off"@, "On"@])),
        ControlId::ColorGain => Some(automatic(id, 0, 100, has_auto_not_adjustable())),
        ControlId::MainBangSuppression => Some(list(id, seq!["Off"@, "On"@])),
        ControlId::NoTransmitSector1 => Some(no_transmit(id)),
        ControlId::NoTransmitSector2 => Some(no_transmit(id)),
        ControlId::SeaClutterCurve => Some(numeric(id, 1, whole(2))),
        _ => None,
    }
}

/// A sector without transmission, in tenths of a degree.
pub open spec fn no_transmit(id: ControlId) -> DefinitionView {
    sector(id, 0, 359).scale_step(ratio(1, 10)).switchable().in_units(Units::Degrees)
}

/// The controls that RD radars have from the start, beside those of all families.
pub open spec fn rd_item(id: ControlId) -> Option<DefinitionView> {
    match id {
        ControlId::TransmitTime => Some(
            numeric(id, 0, whole(65535)).read_only(true).in_units(Units::Hours),
        ),
        ControlId::MagnetronCurrent => Some(numeric(id, 0, whole(65535)).read_only(true)),
        ControlId::DisplayTiming => Some(numeric(id, 0, whole(255)).read_only(true)),
        ControlId::SignalStrength => Some(numeric(id, 0, whole(255)).read_only(true)),
        ControlId::WarmupTime => Some(numeric(id, 0, whole(255)).switchable().read_only(true)),
        ControlId::Tune => Some(
            automatic(id, 0, 255, has_auto_not_adjustable()).scale_factor(
                whole(255),
                false,
            ).read_only(true),
        ),
        ControlId::Ftc => Some(
            numeric(id, 0, whole(100)).scale_factor(whole(100), false).switchable(),
        ),
        _ => None,
    }
}

/// The text that a control has from the start.
pub open spec fn initial_text(id: ControlId, model_name: Option<Seq<char>>) -> Option<Seq<char>> {
    if id == ControlId::ModelName {
        model_name
    } else {
        None
    }
}

/// The controls that a radar of a family has when it is found.
pub fn new(
    targets: TargetMode,
    replay: bool,
    radar_id: String,
    model: BaseModel,
    model_name: Option<&str>,
) -> (r: SharedControls)
    ensures
        r.well_formed(),
        r.replay == replay,
        r.radar_id@ == radar_id@,
        r.default_range_units == 0,
        r.all_ranges.all@.len() == 0,
        forall|id: ControlId| #[trigger]
            is_new_control(
                r.slot(id),
                id,
                initial_item(id, model),
                initial_text(id, opt_str(model_name)),
                replay,
                targets,
            ),
{
    let c = common_controls(SharedControls::empty(radar_id, replay), model_name);
    let ghost common = c;
    let c = match model {
        BaseModel::Quantum => quantum_controls(c),
        BaseModel::RD => rd_controls(c),
    };
    let r = new_controls(c, targets);
    proof {
        assert forall|id: ControlId| #[trigger]
            is_new_control(
                r.slot(id),
                id,
                initial_item(id, model),
                initial_text(id, opt_str(model_name)),
                replay,
                targets,
            ) by {
            assert(is_initial(common.slot(id), common_item(id), initial_text(id, opt_str(model_name))));
            assert(r.slot(id) == r.slot(id));
            completed_is_new(
                c.slot(id),
                r.slot(id),
                id,
                initial_item(id, model),
                initial_text(id, opt_str(model_name)),
                replay,
                targets,
            );
        }
    }
    r
}

/// The controls that radars of both families have from the start.
pub open spec fn common_item(id: ControlId) -> Option<DefinitionView> {
    match id {
        ControlId::ModelName
        | ControlId::BearingAlignment
        | ControlId::Gain
        | ControlId::InterferenceRejection
        | ControlId::Rain
        | ControlId::RotationSpeed
        | ControlId::SerialNumber => initial_item(id, BaseModel::RD),
        _ => None,
    }
}

fn common_controls(controls: SharedControls, model_name: Option<&str>) -> (r: SharedControls)
    requires
        controls.well_formed(),
        forall|id: ControlId| (#[trigger] controls.slot(id)) is None,
    ensures
        r.well_formed(),
        r == (SharedControls { slots: r.slots, ..controls }),
        forall|id: ControlId| #[trigger]
            is_initial(r.slot(id), common_item(id), initial_text(id, opt_str(model_name))),
{
    let mut c = controls;
    c.add(new_string(ControlId::ModelName));
    match model_name {
        Some(name) => {
            let _ = c.set_text(&ControlId::ModelName, name.to_owned());
        },
        None => {},
    }
    c.add(
        new_numeric(ControlId::BearingAlignment, -180, Rational::new(180)).wire_scale_factor(
            Rational::new(10),
            true,
        ).wire_offset(Rational::new(-1)).wire_units(Units::Degrees),
    );
    c.add(new_auto(ControlId::Gain, 0, 100, auto_not_adjustable()));
    let levels = ["Off", "Level 1", "Level 2", "Level 3", "Level 4", "Level 5"];
    assert(names_of(levels@) =~= seq![
        "Off"@,
        "Level 1"@,
        "Level 2"@,
        "Level 3"@,
        "Level 4"@,
        "Level 5"@,
    ]);
    c.add(new_list(ControlId::InterferenceRejection, levels.as_slice()));
    c.add(new_numeric(ControlId::Rain, 0, Rational::new(100)).has_enabled());
    c.add(
        new_numeric(ControlId::RotationSpeed, 0, Rational::new(99)).wire_scale_step(
            Rational::of(1, 10),
        ).read_only(true).wire_units(Units::RotationsPerMinute),
    );
    c.add(new_string(ControlId::SerialNumber));
    c
}

fn quantum_controls(controls: SharedControls) -> (r: SharedControls)
    requires
        controls.well_formed(),
    ensures
        r.well_formed(),
        r == (SharedControls { slots: r.slots, ..controls }),
        forall|id: ControlId|
            match quantum_item(id) {
                Some(item) => (#[trigger] r.slot(id)) matches Some(c) && is_fresh(c, item),
                None => r.slot(id) == controls.slot(id),
            },
{
    let mut c = controls;
    c.add(new_list_4(ControlId::Mode, "Harbor", "Coastal", "Offshore", "Weather"));
    c.add(new_list_2(ControlId::Doppler, "Off", "On"));
    c.add(new_list_2(ControlId::TargetExpansion, "Off", "On"));
    c.add(new_auto(ControlId::ColorGain, 0, 100, auto_not_adjustable()));
    c.add(new_list_2(ControlId::MainBangSuppression, "Off", "On"));
    c.add(
        new_sector(ControlId::NoTransmitSector1, 0, 359).wire_scale_step(
            Rational::of(1, 10),
        ).has_enabled().wire_units(Units::Degrees),
    );
    c.add(
        new_sector(ControlId::NoTransmitSector2, 0, 359).wire_scale_step(
            Rational::of(1, 10),
        ).has_enabled().wire_units(Units::Degrees),
    );
    c.add(new_numeric(ControlId::SeaClutterCurve, 1, Rational::new(2)));
    c
}

fn rd_controls(controls: SharedControls) -> (r: SharedControls)
    requires
        controls.well_formed(),
    ensures
        r.well_formed(),
        r == (SharedControls { slots: r.slots, ..controls }),
        forall|id: ControlId|
            match rd_item(id) {
                Some(item) => (#[trigger] r.slot(id)) matches Some(c) && is_fresh(c, item),
                None => r.slot(id) == controls.slot(id),
            },
{
    let mut c = controls;
    c.add(
        new_numeric(ControlId::TransmitTime, 0, Rational::new(65535)).read_only(true).wire_units(
            Units::Hours,
        ),
    );
    c.add(new_numeric(ControlId::MagnetronCurrent, 0, Rational::new(65535)).read_only(true));
    c.add(new_numeric(ControlId::DisplayTiming, 0, Rational::new(255)).read_only(true));
    c.add(new_numeric(ControlId::SignalStrength, 0, Rational::new(255)).read_only(true));
    c.add(
        new_numeric(ControlId::WarmupTime, 0, Rational::new(255)).has_enabled().read_only(true),
    );
    c.add(
        new_auto(ControlId::Tune, 0, 255, auto_not_adjustable()).wire_scale_factor(
            Rational::new(255),
            false,
        ).read_only(true),
    );
    c.add(
        new_numeric(ControlId::Ftc, 0, Rational::new(100)).wire_scale_factor(
            Rational::new(100),
            false,
        ).has_enabled(),
    );
    c
}

/// The range control of a radar whose model is known.
pub open spec fn range_item() -> DefinitionView {
    numeric(ControlId::Range, 50, whole(MAX_RANGE as int)).in_units(Units::Meters)
}

/// What becomes of a control when the model of the radar is known.
pub open spec fn is_model_known(
    before: RadarInfo,
    after: RadarInfo,
    model: Seq<char>,
    id: ControlId,
) -> bool {
    match id {
        ControlId::Range => {
            let ranges = after.controls.all_ranges.in_units(
                before.controls.spec_range_units() as int,
            );
            after.controls.slot(id) matches Some(c) && if ranges.len() == 0 {
                is_fresh(c, range_item())
            } else {
                exists|bare: Control| #[trigger]
                    is_fresh(bare, range_item()) && set_to_ranges(bare, c, ranges)
            }
        },
        ControlId::Sea => after.controls.slot(id) matches Some(c) && is_fresh(
            c,
            automatic(id, 0, 100, has_auto_not_adjustable()).scale_factor(whole(255), false),
        ),
        ControlId::TargetExpansion => after.controls.slot(id) matches Some(c) && is_fresh(
            c,
            list(id, seq!["Off"@, "On"@]),
        ),
        _ => is_introduced(before.controls, after.controls, before, model, 0, opt_text(before.which), id),
    }
}

/// Brings the controls of a radar up to date when its model is known.
pub fn update_when_model_known(radar_info: &mut RadarInfo, model: &str)
    requires
        old(radar_info).well_formed(),
        old(radar_info).controls.text_of(ControlId::UserName) is Some,
        old(radar_info).serial_no is Some ==> old(radar_info).controls.slot(
            ControlId::SerialNumber,
        ) is Some,
    ensures
        final(radar_info).well_formed(),
        *final(radar_info) == (RadarInfo {
            controls: final(radar_info).controls,
            ..*old(radar_info)
        }),
        final(radar_info).controls.all_ranges.same_ranges(old(radar_info).ranges),
        final(radar_info).controls == (SharedControls {
            slots: final(radar_info).controls.slots,
            all_ranges: final(radar_info).controls.all_ranges,
            ..old(radar_info).controls
        }),
        forall|id: ControlId| #[trigger]
            is_model_known(*old(radar_info), *final(radar_info), model@, id),
{
    let ghost before = *radar_info;
    radar_info.introduce_half(model, 0);
    let ghost named = radar_info.controls;
    radar_info.controls.add(
        new_numeric(ControlId::Range, 50, Rational::new(MAX_RANGE)).wire_units(Units::Meters),
    );
    let ghost ranged = radar_info.controls;
    let ghost bare = radar_info.controls.slot(ControlId::Range)->0;
    assert(named.slot(ControlId::RangeUnits) == before.controls.slot(ControlId::RangeUnits)) by {
        assert(is_introduced(
            before.controls,
            named,
            before,
            model@,
            0,
            opt_text(before.which),
            ControlId::RangeUnits,
        ));
    }
    assert(ranged.slot(ControlId::RangeUnits) == named.slot(ControlId::RangeUnits));
    radar_info.controls.set_valid_ranges(radar_info.ranges.copy());
    let ghost limited = radar_info.controls;
    radar_info.controls.add(
        new_auto(ControlId::Sea, 0, 100, auto_not_adjustable()).wire_scale_factor(
            Rational::new(255),
            false,
        ),
    );
    let ghost sea = radar_info.controls;
    radar_info.controls.add(new_list_2(ControlId::TargetExpansion, "Off", "On"));
    proof {
        assert(is_fresh(bare, range_item()));
        assert forall|id: ControlId| #[trigger]
            is_model_known(before, *radar_info, model@, id) by {
            assert(is_introduced(before.controls, named, before, model@, 0, opt_text(before.which), id));
            if id != ControlId::TargetExpansion {
                assert(radar_info.controls.slot(id) == sea.slot(id));
            }
            if id != ControlId::Sea {
                assert(sea.slot(id) == limited.slot(id));
            }
            if id != ControlId::Range {
                assert(limited.slot(id) == ranged.slot(id));
                assert(ranged.slot(id) == named.slot(id));
            }
        }
    }
}

/// What the controls mean that radars of both families have.
pub proof fn common_controls_mean_this(id: ControlId, model: BaseModel)
    ensures
        initial_item(id, model) matches Some(item) ==> item.control_id == id,
        common_item(id) is Some ==> initial_item(id, model) == common_item(id),
        id == ControlId::Gain ==> spans(common_item(id), 0, 100) && counted(common_item(id), 1, 1)
            && adjusts_itself(common_item(id)) && can_be_set(common_item(id)),
        id == ControlId::Rain ==> spans(common_item(id), 0, 100) && counted(common_item(id), 1, 1)
            && common_item(id)->0.has_enabled && can_be_set(common_item(id)),
        id == ControlId::BearingAlignment ==> spans(common_item(id), -180, 180) && counted(
            common_item(id),
            10,
            1,
        ) && stepped(common_item(id), 10) && measured_in(common_item(id), Units::Degrees)
            && common_item(id)->0.wire_offset == Some(whole(-1)),
        id == ControlId::RotationSpeed ==> counted(common_item(id), 10, 1) && stepped(
            common_item(id),
            10,
        ) && measured_in(common_item(id), Units::RotationsPerMinute) && !can_be_set(common_item(id)),
        id == ControlId::ModelName || id == ControlId::SerialNumber ==> shows_text(common_item(id)),
        id == ControlId::InterferenceRejection ==> offers(
            common_item(id),
            seq!["Off"@, "Level 1"@, "Level 2"@, "Level 3"@, "Level 4"@, "Level 5"@],
        ),
{
    lists_offer_their_names(
        id,
        seq!["Off"@, "Level 1"@, "Level 2"@, "Level 3"@, "Level 4"@, "Level 5"@],
    );
}

/// What the controls of Quantum radars mean.
pub proof fn quantum_controls_mean_this(id: ControlId)
    ensures
        quantum_item(id) is Some ==> initial_item(id, BaseModel::Quantum) == quantum_item(id)
            && can_be_set(quantum_item(id)),
        id == ControlId::Mode ==> offers(
            quantum_item(id),
            seq!["Harbor"@, "Coastal"@, "Offshore"@, "Weather"@],
        ),
        id == ControlId::Doppler || id == ControlId::TargetExpansion || id
            == ControlId::MainBangSuppression ==> offers(quantum_item(id), seq!["Off"@, "On"@]),
        id == ControlId::ColorGain ==> spans(quantum_item(id), 0, 100) && counted(
            quantum_item(id),
            1,
            1,
        ) && adjusts_itself(quantum_item(id)),
        id == ControlId::NoTransmitSector1 || id == ControlId::NoTransmitSector2 ==> blanks(
            quantum_item(id),
        ) && spans(quantum_item(id), 0, 359) && counted(quantum_item(id), 10, 1) && stepped(
            quantum_item(id),
            10,
        ),
        id == ControlId::SeaClutterCurve ==> spans(quantum_item(id), 1, 2),
{
    lists_offer_their_names(id, seq!["Harbor"@, "Coastal"@, "Offshore"@, "Weather"@]);
    lists_offer_their_names(id, seq!["Off"@, "On"@]);
}

/// What the controls of RD radars mean. All but one tell of the state of the radar, and cannot be set.
pub proof fn rd_controls_mean_this(id: ControlId)
    ensures
        rd_item(id) is Some ==> initial_item(id, BaseModel::RD) == rd_item(id) && can_be_set(
            rd_item(id),
        ) == (id == ControlId::Ftc),
        id == ControlId::TransmitTime ==> spans(rd_item(id), 0, 65535) && measured_in(
            rd_item(id),
            Units::Hours,
        ),
        id == ControlId::MagnetronCurrent ==> spans(rd_item(id), 0, 65535),
        id == ControlId::DisplayTiming || id == ControlId::SignalStrength || id
            == ControlId::WarmupTime || id == ControlId::Tune ==> spans(rd_item(id), 0, 255),
        id == ControlId::WarmupTime || id == ControlId::Ftc ==> rd_item(id) is Some
            && rd_item(id)->0.has_enabled,
        id == ControlId::Tune ==> adjusts_itself(rd_item(id)),
        id == ControlId::Ftc ==> spans(rd_item(id), 0, 100),
{
}

/// The families have different controls beside the common ones: presets, Doppler and sectors without
/// transmission are those of Quantum radars, and what concerns a magnetron is that of RD radars.
pub proof fn families_have_their_controls(id: ControlId)
    ensures
        common_item(id) is None ==> !(quantum_item(id) is Some && rd_item(id) is Some),
        id == ControlId::Mode || id == ControlId::Doppler || id == ControlId::NoTransmitSector1 || id
            == ControlId::NoTransmitSector2 || id == ControlId::ColorGain ==> initial_item(
            id,
            BaseModel::Quantum,
        ) is Some && initial_item(id, BaseModel::RD) is None,
        id == ControlId::MagnetronCurrent || id == ControlId::Tune || id == ControlId::WarmupTime || id
            == ControlId::Ftc ==> initial_item(id, BaseModel::RD) is Some && initial_item(
            id,
            BaseModel::Quantum,
        ) is None,
{
}

/// Once the model is known, ranges go from 50 meters to 36 nautical miles of 1852 meters, unless the
/// radar told its ranges. The radar goes by its model from then on.
pub proof fn known_models_change_the_controls(
    before: RadarInfo,
    after: RadarInfo,
    model: Seq<char>,
    id: ControlId,
)
    requires
        forall|i: ControlId| #[trigger] is_model_known(before, after, model, i),
        before.well_formed(),
    ensures
        spans(Some(range_item()), 50, 36int * 1852),
        measured_in(Some(range_item()), Units::Meters),
        after.controls.all_ranges.in_units(before.controls.spec_range_units() as int).len() == 0
            ==> (after.controls.slot(ControlId::Range) matches Some(c) && c.item@ == range_item()),
        after.controls.slot(ControlId::Sea) matches Some(sea) && spans(Some(sea.item@), 0, 100)
            && adjusts_itself(Some(sea.item@)) && can_be_set(Some(sea.item@)),
        after.controls.slot(ControlId::TargetExpansion) matches Some(expansion) && offers(
            Some(expansion.item@),
            seq!["Off"@, "On"@],
        ),
        after.controls.text_of(ControlId::ModelName) == Some(model),
        id != ControlId::Range && id != ControlId::Sea && id != ControlId::TargetExpansion && id
            != ControlId::ModelName && id != ControlId::SerialNumber && id != ControlId::UserName
            ==> after.controls.slot(id) == before.controls.slot(id),
{
    lists_offer_their_names(ControlId::TargetExpansion, seq!["Off"@, "On"@]);
    assert(is_model_known(before, after, model, ControlId::Range));
    assert(is_model_known(before, after, model, ControlId::Sea));
    assert(is_model_known(before, after, model, ControlId::TargetExpansion));
    assert(is_model_known(before, after, model, ControlId::ModelName));
    assert(is_model_known(before, after, model, id));
}

} // verus!

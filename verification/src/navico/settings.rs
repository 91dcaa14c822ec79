//! The controls of Navico radars.
use vstd::prelude::*;

use crate::brand::TargetMode;
use crate::control::Control;
use crate::control_id::ControlId;
use crate::controls::{
    completed_is_new, is_fresh, is_initial, is_new_control, new_controls, SharedControls,
};
use crate::definition::{
    adjusts_itself, auto_not_adjustable, automatic, blanks, can_be_set, counted,
    has_auto_not_adjustable, list, lists_offer_their_names, measured_in, names_of, new_auto,
    new_list, new_list_2, new_list_3, new_list_4, new_numeric, new_sector, new_string, numeric,
    offers, ratio, sector, shows_text, spans, stepped, text, whole, AutomaticValue, ControlBuilder,
    ControlDefinition, DefinitionView, Rational,
};
use crate::navico::model::{halo_mode, is_dynamic, HaloMode, Model};
use crate::power::{doppler_of_number, DopplerMode};
use crate::radar::{can_shorten, is_introduced, opt_str, RadarInfo};
use crate::units::Units;
use crate::value::opt_text;

verus! {

/// The length of the prefix of serial numbers that all radars of a series share.
pub const SERIAL_PREFIX: usize = 7;

/// The controls that a radar has from the start.
pub open spec fn initial_item(id: ControlId) -> Option<DefinitionView> {
    match id {
        ControlId::ModelName => Some(text(id)),
        ControlId::AntennaHeight => Some(
            numeric(id, 0, whole(99)).scale_factor(whole(1000), false).scale_step(
                ratio(1, 10),
            ).in_units(Units::Meters),
        ),
        ControlId::BearingAlignment => Some(
            numeric(id, -180, whole(180)).scale_factor(whole(10), true).offset(whole(-1)).in_units(
                Units::Degrees,
            ),
        ),
        ControlId::Gain => Some(percentage(id)),
        ControlId::InterferenceRejection => Some(four_levels(id)),
        ControlId::LocalInterferenceRejection => Some(four_levels(id)),
        ControlId::Rain => Some(
            numeric(id, 0, whole(100)).scale_factor(ratio(255, 100), false),
        ),
        ControlId::TargetBoost => Some(list(id, seq!["Off"@, "Low"@, "High"@])),
        ControlId::TransmitTime => Some(
            numeric(id, 0, whole(999999)).read_only(true).in_units(Units::Hours),
        ),
        ControlId::FirmwareVersion => Some(text(id)),
        ControlId::SideLobeSuppression => Some(percentage(id)),
        ControlId::SerialNumber => Some(text(id)),
        ControlId::RangeUnits => Some(list(id, seq!["Nautical"@, "Metric"@, "Mixed"@])),
        _ => None,
    }
}

/// A percentage that the radar counts up to 255, and can choose by itself.
pub open spec fn percentage(id: ControlId) -> DefinitionView {
    automatic(id, 0, 100, has_auto_not_adjustable()).scale_factor(ratio(255, 100), false)
}

/// A choice of four levels.
pub open spec fn four_levels(id: ControlId) -> DefinitionView {
    list(id, seq!["Off"@, "Low"@, "Medium"@, "High"@])
}

/// The text that a control has from the start.
pub open spec fn initial_text(id: ControlId, model: Option<Seq<char>>) -> Option<Seq<char>> {
    if id == ControlId::ModelName {
        model
    } else {
        None
    }
}

fn new_percentage(id: ControlId) -> (b: ControlBuilder)
    ensures
        b.builds(percentage(id), false),
{
    new_auto(id, 0, 100, auto_not_adjustable()).wire_scale_factor(Rational::of(255, 100), false)
}

fn new_four_levels(id: ControlId) -> (b: ControlBuilder)
    ensures
        b.builds(four_levels(id), false),
{
    new_list_4(id, "Off", "Low", "Medium", "High")
}

fn brand_controls(controls: SharedControls, model: Option<&str>) -> (r: SharedControls)
    requires
        controls.well_formed(),
        forall|id: ControlId| (#[trigger] controls.slot(id)) is None,
    ensures
        r.well_formed(),
        r == (SharedControls { slots: r.slots, ..controls }),
        forall|id: ControlId| #[trigger]
            is_initial(r.slot(id), initial_item(id), initial_text(id, opt_str(model))),
{
    let mut c = controls;
    c.add(new_string(ControlId::ModelName));
    match model {
        Some(name) => {
            let _ = c.set_text(&ControlId::ModelName, name.to_owned());
        },
        None => {},
    }
    c.add(
        new_numeric(ControlId::AntennaHeight, 0, Rational::new(99)).wire_scale_factor(
            Rational::new(1000),
            false,
        ).wire_scale_step(Rational::of(1, 10)).wire_units(Units::Meters),
    );
    c.add(
        new_numeric(ControlId::BearingAlignment, -180, Rational::new(180)).wire_scale_factor(
            Rational::new(10),
            true,
        ).wire_offset(Rational::new(-1)).wire_units(Units::Degrees),
    );
    c.add(new_percentage(ControlId::Gain));
    c.add(new_four_levels(ControlId::InterferenceRejection));
    c.add(new_four_levels(ControlId::LocalInterferenceRejection));
    c.add(
        new_numeric(ControlId::Rain, 0, Rational::new(100)).wire_scale_factor(
            Rational::of(255, 100),
            false,
        ),
    );
    c.add(new_list_3(ControlId::TargetBoost, "Off", "Low", "High"));
    c.add(
        new_numeric(ControlId::TransmitTime, 0, Rational::new(999999)).read_only(true).wire_units(
            Units::Hours,
        ),
    );
    c.add(new_string(ControlId::FirmwareVersion));
    c.add(new_percentage(ControlId::SideLobeSuppression));
    c.add(new_string(ControlId::SerialNumber));
    c.add(new_list_3(ControlId::RangeUnits, "Nautical", "Metric", "Mixed"));
    c
}

/// The controls that a radar has when it is found.
pub fn new(
    targets: TargetMode,
    replay: bool,
    radar_id: String,
    model: Option<&str>,
) -> (r: SharedControls)
    ensures
        r.well_formed(),
        r.replay == replay,
        r.radar_id@ == radar_id@,
        r.default_range_units == 0,
        r.all_ranges.all@.len() == 0,
        forall|id: ControlId| #[trigger]
            is_new_control(
                r.slot(id),
                id,
                initial_item(id),
                initial_text(id, opt_str(model)),
                replay,
                targets,
            ),
{
    let c = brand_controls(SharedControls::empty(radar_id, replay), model);
    let r = new_controls(c, targets);
    proof {
        assert forall|id: ControlId| #[trigger]
            is_new_control(
                r.slot(id),
                id,
                initial_item(id),
                initial_text(id, opt_str(model)),
                replay,
                targets,
            ) by {
            assert(is_initial(c.slot(id), initial_item(id), initial_text(id, opt_str(model))));
            completed_is_new(
                c.slot(id),
                r.slot(id),
                id,
                initial_item(id),
                initial_text(id, opt_str(model)),
                replay,
                targets,
            );
        }
    }
    r
}

/// A sector without transmission, in tenths of a degree.
pub open spec fn blanking(id: ControlId) -> DefinitionView {
    sector(id, -180, 180).scale_factor(whole(10), true).offset(whole(-1)).in_units(
        Units::Degrees,
    ).switchable()
}

fn new_blanking(id: ControlId) -> (b: ControlBuilder)
    ensures
        b.builds(blanking(id), true),
{
    new_sector(id, -180, 180).wire_scale_factor(Rational::new(10), true).wire_offset(
        Rational::new(-1),
    ).wire_units(Units::Degrees).has_enabled()
}

/// The sea clutter filter of a HALO radar, which the user can influence in its automatic mode.
pub open spec fn halo_sea() -> AutomaticValue {
    AutomaticValue {
        has_auto: true,
        has_auto_adjustable: true,
        auto_adjust_min_value: Some(whole(-50)),
        auto_adjust_max_value: Some(whole(50)),
    }
}

/// The controls that a HALO radar has.
pub open spec fn halo_item(id: ControlId) -> Option<DefinitionView> {
    match id {
        ControlId::Mode => Some(
            list(id, seq!["Custom"@, "Harbor"@, "Offshore"@, "Buoy"@, "Weather"@, "Bird"@]),
        ),
        ControlId::AccentLight => Some(four_levels(id)),
        ControlId::NoTransmitSector1 => Some(blanking(id)),
        ControlId::NoTransmitSector2 => Some(blanking(id)),
        ControlId::NoTransmitSector3 => Some(blanking(id)),
        ControlId::NoTransmitSector4 => Some(blanking(id)),
        ControlId::SeaState => Some(list(id, seq!["Calm"@, "Moderate"@, "Rough"@])),
        ControlId::Sea => Some(automatic(id, 0, 100, halo_sea())),
        ControlId::ScanSpeed => Some(
            list(id, seq!["Normal"@, "Medium"@, "Medium Plus"@, "Fast"@]),
        ),
        ControlId::TargetExpansion => Some(four_levels(id)),
        ControlId::NoiseRejection => Some(four_levels(id)),
        ControlId::TargetSeparation => Some(four_levels(id)),
        ControlId::Doppler => Some(list(id, seq!["Off"@, "Normal"@, "Approaching"@])),
        ControlId::DopplerAutoTrack => Some(list(id, seq!["Off"@, "On"@])),
        ControlId::DopplerSpeedThreshold => Some(
            numeric(id, 0, ratio(1594, 100)).scale_step(ratio(1, 100)).in_units(
                Units::MetersPerSecond,
            ),
        ),
        ControlId::DopplerTrailsOnly => Some(list(id, seq!["Off"@, "On"@])),
        _ => None,
    }
}

/// The controls that a radar other than a HALO has when its model is known.
pub open spec fn plain_item(id: ControlId, model: Model) -> Option<DefinitionView> {
    match id {
        ControlId::Sea => Some(percentage(id)),
        ControlId::ScanSpeed => Some(list(id, seq!["Normal"@, "Medium"@, "Medium-High"@])),
        ControlId::TargetExpansion => Some(list(id, seq!["Off"@, "On"@])),
        ControlId::NoiseRejection => Some(list(id, seq!["Off"@, "Low"@, "High"@])),
        ControlId::TargetSeparation => if model == Model::Gen4 {
            Some(four_levels(id))
        } else {
            None
        },
        _ => None,
    }
}

/// The controls that a radar gets when its model is known.
pub open spec fn model_item(id: ControlId, model: Model) -> Option<DefinitionView> {
    if model == Model::HALO {
        halo_item(id)
    } else {
        plain_item(id, model)
    }
}

fn halo_controls(controls: SharedControls) -> (r: SharedControls)
    requires
        controls.well_formed(),
    ensures
        r.well_formed(),
        r == (SharedControls { slots: r.slots, ..controls }),
        forall|id: ControlId|
            match halo_item(id) {
                Some(item) => (#[trigger] r.slot(id)) matches Some(c) && is_fresh(c, item),
                None => r.slot(id) == controls.slot(id),
            },
{
    let mut c = controls;
    let modes = ["Custom", "Harbor", "Offshore", "Buoy", "Weather", "Bird"];
    assert(names_of(modes@) =~= seq![
        "Custom"@,
        "Harbor"@,
        "Offshore"@,
        "Buoy"@,
        "Weather"@,
        "Bird"@,
    ]);
    c.add(new_list(ControlId::Mode, modes.as_slice()));
    c.add(new_four_levels(ControlId::AccentLight));
    c.add(new_blanking(ControlId::NoTransmitSector1));
    c.add(new_blanking(ControlId::NoTransmitSector2));
    c.add(new_blanking(ControlId::NoTransmitSector3));
    c.add(new_blanking(ControlId::NoTransmitSector4));
    c.add(new_list_3(ControlId::SeaState, "Calm", "Moderate", "Rough"));
    c.add(
        new_auto(
            ControlId::Sea,
            0,
            100,
            AutomaticValue {
                has_auto: true,
                has_auto_adjustable: true,
                auto_adjust_min_value: Some(Rational::new(-50)),
                auto_adjust_max_value: Some(Rational::new(50)),
            },
        ),
    );
    c.add(new_list_4(ControlId::ScanSpeed, "Normal", "Medium", "Medium Plus", "Fast"));
    c.add(new_four_levels(ControlId::TargetExpansion));
    c.add(new_four_levels(ControlId::NoiseRejection));
    c.add(new_four_levels(ControlId::TargetSeparation));
    c.add(new_list_3(ControlId::Doppler, "Off", "Normal", "Approaching"));
    c.add(new_list_2(ControlId::DopplerAutoTrack, "Off", "On"));
    c.add(
        new_numeric(ControlId::DopplerSpeedThreshold, 0, Rational::of(1594, 100)).wire_scale_step(
            Rational::of(1, 100),
        ).wire_units(Units::MetersPerSecond),
    );
    c.add(new_list_2(ControlId::DopplerTrailsOnly, "Off", "On"));
    c
}

fn plain_controls(controls: SharedControls, model: Model) -> (r: SharedControls)
    requires
        controls.well_formed(),
    ensures
        r.well_formed(),
        r == (SharedControls { slots: r.slots, ..controls }),
        forall|id: ControlId|
            match plain_item(id, model) {
                Some(item) => (#[trigger] r.slot(id)) matches Some(c) && is_fresh(c, item),
                None => r.slot(id) == controls.slot(id),
            },
{
    let mut c = controls;
    c.add(new_percentage(ControlId::Sea));
    c.add(new_list_3(ControlId::ScanSpeed, "Normal", "Medium", "Medium-High"));
    c.add(new_list_2(ControlId::TargetExpansion, "Off", "On"));
    c.add(new_list_3(ControlId::NoiseRejection, "Off", "Low", "High"));
    if model == Model::Gen4 {
        c.add(new_four_levels(ControlId::TargetSeparation));
    }
    c
}

/// What becomes of a control when the model of the radar is known. The range control takes tenths of
/// what it did.
pub open spec fn is_model_known(
    before: RadarInfo,
    after: RadarInfo,
    model: Model,
    id: ControlId,
) -> bool {
    match (model_item(id, model), id) {
        (Some(item), _) => after.controls.slot(id) matches Some(c) && is_fresh(c, item),
        (None, ControlId::Range) => before.controls.slot(id) matches Some(c)
            && after.controls.slot(id) == Some(
            Control {
                item: ControlDefinition {
                    wire_offset: None,
                    wire_scale_factor: Some(whole(10)),
                    ..c.item
                },
                ..c
            },
        ),
        (None, _) => is_introduced(
            before.controls,
            after.controls,
            before,
            model.spec_name(),
            SERIAL_PREFIX as int,
            opt_text(before.which),
            id,
        ),
    }
}

/// Brings the controls of a radar up to date when its model is known.
pub fn update_when_model_known(radar_info: &mut RadarInfo, model: Model)
    requires
        old(radar_info).well_formed(),
        old(radar_info).controls.text_of(ControlId::UserName) is Some,
        old(radar_info).serial_no is Some ==> old(radar_info).controls.slot(
            ControlId::SerialNumber,
        ) is Some,
        can_shorten(opt_text(old(radar_info).serial_no), SERIAL_PREFIX as int),
    ensures
        final(radar_info).well_formed(),
        *final(radar_info) == (RadarInfo {
            controls: final(radar_info).controls,
            ..*old(radar_info)
        }),
        final(radar_info).controls == (SharedControls {
            slots: final(radar_info).controls.slots,
            ..old(radar_info).controls
        }),
        forall|id: ControlId| #[trigger]
            is_model_known(*old(radar_info), *final(radar_info), model, id),
{
    let ghost before = *radar_info;
    radar_info.introduce_half(model.to_str(), SERIAL_PREFIX);
    let ghost named = radar_info.controls;
    proof {
        assert(is_introduced(
            before.controls,
            named,
            before,
            model.spec_name(),
            SERIAL_PREFIX as int,
            opt_text(before.which),
            ControlId::Range,
        ));
    }
    let _ = radar_info.controls.set_wire_range(&ControlId::Range, 0, 10);
    let ghost ranged = radar_info.controls;
    let mut c = SharedControls::empty(String::new(), false);
    std::mem::swap(&mut c, &mut radar_info.controls);
    assert(c == ranged);
    let c = if model == Model::HALO {
        halo_controls(c)
    } else {
        plain_controls(c, model)
    };
    radar_info.controls = c;
    proof {
        assert forall|id: ControlId| #[trigger]
            is_model_known(before, *radar_info, model, id) by {
            assert(is_introduced(
                before.controls,
                named,
                before,
                model.spec_name(),
                SERIAL_PREFIX as int,
                opt_text(before.which),
                id,
            ));
            assert(radar_info.controls.slot(id) == c.slot(id));
            if id != ControlId::Range {
                assert(ranged.slot(id) == named.slot(id));
            }
        }
        assert(radar_info.controls.slot(ControlId::UserName) == named.slot(ControlId::UserName)) by {
            assert(ranged.slot(ControlId::UserName) == named.slot(ControlId::UserName));
        }
        assert(radar_info.controls.slot(ControlId::ModelName) == named.slot(ControlId::ModelName)) by {
            assert(ranged.slot(ControlId::ModelName) == named.slot(ControlId::ModelName));
        }
        assert(radar_info.controls.slot(ControlId::Range) == ranged.slot(ControlId::Range));
    }
}

/// What the controls mean that every radar has: percentages that the radar counts up to 255, angles in
/// tenths of a degree to both sides, the height of the antenna in millimeters, and lists of names.
pub proof fn initial_controls_mean_this(id: ControlId)
    ensures
        initial_item(id) matches Some(item) ==> item.control_id == id,
        id == ControlId::Gain || id == ControlId::SideLobeSuppression ==> spans(
            initial_item(id),
            0,
            100,
        ) && counted(initial_item(id), 255, 100) && adjusts_itself(initial_item(id)) && can_be_set(
            initial_item(id),
        ),
        id == ControlId::Rain ==> spans(initial_item(id), 0, 100) && counted(
            initial_item(id),
            255,
            100,
        ) && !adjusts_itself(initial_item(id)) && can_be_set(initial_item(id)),
        id == ControlId::BearingAlignment ==> spans(initial_item(id), -180, 180) && counted(
            initial_item(id),
            10,
            1,
        ) && stepped(initial_item(id), 10) && measured_in(initial_item(id), Units::Degrees)
            && initial_item(id)->0.wire_offset == Some(whole(-1)),
        id == ControlId::AntennaHeight ==> spans(initial_item(id), 0, 99) && counted(
            initial_item(id),
            1000,
            1,
        ) && stepped(initial_item(id), 10) && measured_in(initial_item(id), Units::Meters),
        id == ControlId::TransmitTime ==> measured_in(initial_item(id), Units::Hours)
            && !can_be_set(initial_item(id)),
        id == ControlId::ModelName || id == ControlId::SerialNumber || id
            == ControlId::FirmwareVersion ==> shows_text(initial_item(id)),
        id == ControlId::InterferenceRejection || id == ControlId::LocalInterferenceRejection
            ==> offers(initial_item(id), seq!["Off"@, "Low"@, "Medium"@, "High"@]),
        id == ControlId::TargetBoost ==> offers(initial_item(id), seq!["Off"@, "Low"@, "High"@]),
{
    lists_offer_their_names(id, seq!["Off"@, "Low"@, "Medium"@, "High"@]);
    lists_offer_their_names(id, seq!["Off"@, "Low"@, "High"@]);
}

/// The number that the unit system has is the place of its name, and leads to the ranges of this system.
pub proof fn unit_systems_have_their_names(ranges: crate::controls::Ranges, n: int)
    requires
        0 <= n <= 2,
    ensures
        initial_item(ControlId::RangeUnits) matches Some(item) && item.descriptions matches Some(
            names,
        ) && names.len() == 3 && {
            ||| names[n].1 == "Nautical"@ && ranges.in_units(n) == ranges.nautical@
            ||| names[n].1 == "Metric"@ && ranges.in_units(n) == ranges.metric@
            ||| names[n].1 == "Mixed"@ && ranges.in_units(n) == ranges.mixed@
        },
        initial_item(ControlId::RangeUnits)->0.descriptions->0[n].0 == n,
{
    let names = initial_item(ControlId::RangeUnits)->0.descriptions->0;
    assert(names[0].1 == "Nautical"@);
    assert(names[1].1 == "Metric"@);
    assert(names[2].1 == "Mixed"@);
}

/// The number that a HALO radar reports for a preset is the place of the name of this preset.
pub proof fn presets_have_their_names(n: int)
    ensures
        model_item(ControlId::Mode, Model::HALO) matches Some(item) && item.descriptions matches Some(
            names,
        ) && names.len() == 6 && match halo_mode(n) {
            Some(HaloMode::Custom) => names[n] == (n as i32, "Custom"@),
            Some(HaloMode::Harbor) => names[n] == (n as i32, "Harbor"@),
            Some(HaloMode::Offshore) => names[n] == (n as i32, "Offshore"@),
            Some(HaloMode::Buoy) => names[n] == (n as i32, "Buoy"@),
            Some(HaloMode::Weather) => names[n] == (n as i32, "Weather"@),
            Some(HaloMode::Bird) => names[n] == (n as i32, "Bird"@),
            None => n < 0 || n >= names.len(),
        },
{
}

/// The number that a HALO radar reports for a Doppler mode is the place of the name of this mode.
pub proof fn doppler_modes_have_their_names(n: int)
    ensures
        model_item(ControlId::Doppler, Model::HALO) matches Some(item)
            && item.descriptions matches Some(names) && names.len() == 3 && match doppler_of_number(
            n,
        ) {
            Some(DopplerMode::Off) => names[n] == (n as i32, "Off"@),
            Some(DopplerMode::Both) => names[n] == (n as i32, "Normal"@),
            Some(DopplerMode::Approaching) => names[n] == (n as i32, "Approaching"@),
            None => n < 0 || n >= names.len(),
        },
{
}

/// HALO radars have presets, Doppler and four sectors without transmission, and other radars have none
/// of them. What a HALO radar takes only in its custom preset, it has.
pub proof fn halo_radars_have_more_controls(id: ControlId, model: Model)
    ensures
        model_item(id, model) matches Some(item) ==> item.control_id == id,
        id == ControlId::Mode || id == ControlId::Doppler || id == ControlId::DopplerAutoTrack || id
            == ControlId::DopplerSpeedThreshold || id == ControlId::DopplerTrailsOnly || id
            == ControlId::AccentLight || id == ControlId::SeaState || id
            == ControlId::NoTransmitSector1 || id == ControlId::NoTransmitSector2 || id
            == ControlId::NoTransmitSector3 || id == ControlId::NoTransmitSector4 ==> (model_item(
            id,
            model,
        ) is Some) == (model == Model::HALO),
        id == ControlId::Sea || id == ControlId::ScanSpeed || id == ControlId::TargetExpansion || id
            == ControlId::NoiseRejection ==> model_item(id, model) is Some,
        id == ControlId::TargetSeparation ==> (model_item(id, model) is Some) == (model == Model::HALO
            || model == Model::Gen4),
        is_dynamic(id) ==> model_item(id, Model::HALO) is Some || initial_item(id) is Some,
        model_item(id, Model::HALO) is Some ==> can_be_set(model_item(id, Model::HALO)),
{
}

/// The sectors without transmission of a HALO radar lie anywhere on the circle, in tenths of a degree.
/// The speed above which targets count as moving is in hundredths of a meter per second.
pub proof fn halo_controls_mean_this(id: ControlId)
    ensures
        id == ControlId::NoTransmitSector1 || id == ControlId::NoTransmitSector2 || id
            == ControlId::NoTransmitSector3 || id == ControlId::NoTransmitSector4 ==> blanks(
            halo_item(id),
        ) && spans(halo_item(id), -180, 180) && counted(halo_item(id), 10, 1) && stepped(
            halo_item(id),
            10,
        ) && halo_item(id)->0.wire_offset == Some(whole(-1)),
        id == ControlId::DopplerSpeedThreshold ==> counted(halo_item(id), 100, 1) && stepped(
            halo_item(id),
            100,
        ) && measured_in(halo_item(id), Units::MetersPerSecond),
        id == ControlId::Sea ==> spans(halo_item(id), 0, 100) && counted(halo_item(id), 1, 1)
            && adjusts_itself(halo_item(id)) && halo_item(id)->0.automatic->0.has_auto_adjustable
            && halo_item(id)->0.automatic->0.auto_adjust_min_value == Some(whole(-50))
            && halo_item(id)->0.automatic->0.auto_adjust_max_value == Some(whole(50)),
        id == ControlId::AccentLight || id == ControlId::TargetExpansion || id
            == ControlId::NoiseRejection || id == ControlId::TargetSeparation ==> offers(
            halo_item(id),
            seq!["Off"@, "Low"@, "Medium"@, "High"@],
        ),
        id == ControlId::DopplerAutoTrack || id == ControlId::DopplerTrailsOnly ==> offers(
            halo_item(id),
            seq!["Off"@, "On"@],
        ),
        id == ControlId::SeaState ==> offers(
            halo_item(id),
            seq!["Calm"@, "Moderate"@, "Rough"@],
        ),
        id == ControlId::ScanSpeed ==> offers(
            halo_item(id),
            seq!["Normal"@, "Medium"@, "Medium Plus"@, "Fast"@],
        ),
{
    lists_offer_their_names(id, seq!["Off"@, "Low"@, "Medium"@, "High"@]);
    lists_offer_their_names(id, seq!["Off"@, "On"@]);
    lists_offer_their_names(id, seq!["Calm"@, "Moderate"@, "Rough"@]);
    lists_offer_their_names(id, seq!["Normal"@, "Medium"@, "Medium Plus"@, "Fast"@]);
}

/// What the controls of radars before HALO mean.
pub proof fn plain_controls_mean_this(id: ControlId, model: Model)
    ensures
        id == ControlId::Sea ==> spans(plain_item(id, model), 0, 100) && counted(
            plain_item(id, model),
            255,
            100,
        ) && adjusts_itself(plain_item(id, model)),
        id == ControlId::ScanSpeed ==> offers(
            plain_item(id, model),
            seq!["Normal"@, "Medium"@, "Medium-High"@],
        ),
        id == ControlId::TargetExpansion ==> offers(plain_item(id, model), seq!["Off"@, "On"@]),
        id == ControlId::NoiseRejection ==> offers(
            plain_item(id, model),
            seq!["Off"@, "Low"@, "High"@],
        ),
        id == ControlId::TargetSeparation && model == Model::Gen4 ==> offers(
            plain_item(id, model),
            seq!["Off"@, "Low"@, "Medium"@, "High"@],
        ),
{
    lists_offer_their_names(id, seq!["Off"@, "Low"@, "Medium"@, "High"@]);
    lists_offer_their_names(id, seq!["Off"@, "On"@]);
    lists_offer_their_names(id, seq!["Off"@, "Low"@, "High"@]);
    lists_offer_their_names(id, seq!["Normal"@, "Medium"@, "Medium-High"@]);
}

/// Once the model is known, the radar counts ranges in tenths of a meter, and goes by its model. Nothing
/// else becomes of the controls that do not depend on the model.
pub proof fn known_models_change_the_controls(
    before: RadarInfo,
    after: RadarInfo,
    model: Model,
    id: ControlId,
)
    requires
        forall|i: ControlId| #[trigger] is_model_known(before, after, model, i),
        before.well_formed(),
    ensures
        after.controls.slot(ControlId::Range) matches Some(c) && counted(Some(c.item@), 10, 1)
            && c.item.wire_offset is None && c.value == before.controls.slot(
            ControlId::Range,
        )->0.value && c.limits == before.controls.slot(ControlId::Range)->0.limits,
        after.controls.text_of(ControlId::ModelName) == Some(model.spec_name()),
        model_item(id, model) is None && id != ControlId::Range && id != ControlId::ModelName && id
            != ControlId::SerialNumber && id != ControlId::UserName ==> after.controls.slot(id)
            == before.controls.slot(id),
        model_item(id, model) matches Some(item) ==> (after.controls.slot(id) matches Some(c)
            && c.item@ == item),
{
    assert(is_model_known(before, after, model, ControlId::Range));
    assert(is_model_known(before, after, model, ControlId::ModelName));
    assert(is_model_known(before, after, model, id));
}

} // verus!

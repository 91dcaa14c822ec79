//! The reports that Navico radars send.
use vstd::prelude::*;

use crate::control_id::ControlId;
use crate::control_value::{only_value, ControlValue};
use crate::control::Control;
use crate::controls::{Ranges, SharedControls};
use crate::navico::model::{blanking_sector, halo_mode, is_dynamic, HaloMode, Model};
use crate::number::whole_number;
use crate::power::{doppler_of_number, DopplerMode, Power};
use crate::setting::{
    plain, sector, set_sector, set_value, set_value_auto, set_value_with_many_auto, with_auto,
    with_auto_value, WireSetting,
};
use crate::text::{c_string, c_text, utf16_text, wide_text, wide_units};
use crate::value::{Number, Value, ValueView};
use crate::wire::{
    le16, le32, read_i16_le, read_i32_le, read_i8, read_u16_le, signed16, signed32, signed8,
};

verus! {

/// The kinds of reports.
#[derive(Clone, Copy, Debug, PartialEq, Eq, Structural)]
pub enum ReportKind {
    /// Nothing that concerns us.
    Ignored,
    /// The operational state.
    Status,
    /// The settings that the user changes most.
    Settings,
    /// The model and the firmware.
    Identity,
    /// The settings of the installation.
    Installation,
    /// The sectors without transmission, as older HALO radars report them.
    ShortSectors,
    /// The sectors without transmission.
    Sectors,
    /// The settings that differ from model to model.
    Features,
    /// Any other report, by its id.
    Unknown(u8),
}

/// Why a report is dropped.
#[derive(Clone, Copy, Debug, PartialEq, Eq, Structural)]
pub enum ReportProblem {
    /// The report has no id.
    TooShort,
    /// The reply to another display is not what it should be.
    StrangeContent,
    /// The report does not have the length that goes with its id.
    BadLength,
    /// The operational state is not known.
    UnknownStatus(u8),
    /// The Doppler mode is not known.
    UnknownDoppler(u8),
}

/// The kind of a report, by the two bytes that it starts with. Some reports are of use only when the
/// model is known.
pub open spec fn kind_of(model: Model, data: Seq<u8>) -> Result<ReportKind, ReportProblem> {
    let known = model != Model::Unknown;
    if data.len() < 2 {
        Err(ReportProblem::TooShort)
    } else if data[1] == 0xc6 && data[0] == 0x11 && (data.len() != 3 || data[2] != 0) {
        Err(ReportProblem::StrangeContent)
    } else if data[1] != 0xc4 {
        Ok(ReportKind::Ignored)
    } else if data[0] == 0x01 {
        Ok(ReportKind::Status)
    } else if data[0] == 0x02 {
        Ok(
            if known {
                ReportKind::Settings
            } else {
                ReportKind::Ignored
            },
        )
    } else if data[0] == 0x03 {
        Ok(ReportKind::Identity)
    } else if data[0] == 0x04 {
        Ok(ReportKind::Installation)
    } else if data[0] == 0x06 {
        Ok(
            if !known {
                ReportKind::Ignored
            } else if data.len() == 68 {
                ReportKind::ShortSectors
            } else {
                ReportKind::Sectors
            },
        )
    } else if data[0] == 0x08 {
        Ok(
            if known {
                ReportKind::Features
            } else {
                ReportKind::Ignored
            },
        )
    } else {
        Ok(ReportKind::Unknown(data[0]))
    }
}

/// Tells what a report holds.
pub fn process_report(model: Model, data: &[u8]) -> (r: Result<ReportKind, ReportProblem>)
    ensures
        r == kind_of(model, data@),
{
    if data.len() < 2 {
        return Err(ReportProblem::TooShort);
    }
    if data[1] != 0xc4 {
        if data[1] == 0xc6 && data[0] == 0x11 {
            if data.len() != 3 || data[2] != 0 {
                return Err(ReportProblem::StrangeContent);
            }
        }
        return Ok(ReportKind::Ignored);
    }
    let known = model != Model::Unknown;
    let kind = match data[0] {
        0x01 => ReportKind::Status,
        0x02 => if known {
            ReportKind::Settings
        } else {
            ReportKind::Ignored
        },
        0x03 => ReportKind::Identity,
        0x04 => ReportKind::Installation,
        0x06 => if !known {
            ReportKind::Ignored
        } else if data.len() == 68 {
            ReportKind::ShortSectors
        } else {
            ReportKind::Sectors
        },
        0x08 => if known {
            ReportKind::Features
        } else {
            ReportKind::Ignored
        },
        id => ReportKind::Unknown(id),
    };
    Ok(kind)
}

/// The operational state that a byte stands for.
pub open spec fn power_of_byte(b: int) -> Option<Power> {
    if b == 0 {
        Some(Power::Off)
    } else if b == 1 {
        Some(Power::Standby)
    } else if b == 2 {
        Some(Power::Transmit)
    } else if b == 5 {
        Some(Power::Preparing)
    } else {
        None
    }
}

/// The value of the power control that a byte stands for.
pub open spec fn status_setting(status: u8) -> Result<WireSetting, ReportProblem> {
    match power_of_byte(status as int) {
        Some(power) => Ok(plain(ControlId::Power, power.number())),
        None => Err(ReportProblem::UnknownStatus(status)),
    }
}

/// The value of the power control in a report of the operational state.
pub open spec fn status_of(data: Seq<u8>) -> Result<WireSetting, ReportProblem> {
    if data.len() != 18 {
        Err(ReportProblem::BadLength)
    } else {
        status_setting(data[2])
    }
}

/// The operational state that a byte stands for.
pub fn set_status(status: u8) -> (r: Result<WireSetting, ReportProblem>)
    ensures
        r == status_setting(status),
{
    let power = match status {
        0 => Power::Off,
        1 => Power::Standby,
        2 => Power::Transmit,
        5 => Power::Preparing,
        _ => {
            return Err(ReportProblem::UnknownStatus(status));
        },
    };
    Ok(set_value(ControlId::Power, power.as_i64()))
}

/// Reads a report of the operational state.
pub fn process_report_01(data: &[u8]) -> (r: Result<WireSetting, ReportProblem>)
    ensures
        r == status_of(data@),
{
    if data.len() != 18 {
        return Err(ReportProblem::BadLength);
    }
    set_status(data[2])
}

/// What a report of the settings tells.
#[derive(Debug)]
pub struct SettingsReport {
    pub settings: Vec<WireSetting>,
    /// Whether the controls that a preset fixes can be set, where the report tells.
    pub allowed: Option<bool>,
    /// Whether the radar adjusts the sea clutter filter of a HALO by itself.
    pub sea_auto: Option<bool>,
    /// The range, in decimeters.
    pub range: i32,
}

/// The values of controls in a report of the settings.
pub open spec fn settings_of(model: Model, data: Seq<u8>) -> Seq<WireSetting> {
    let halo = model == Model::HALO;
    seq![plain(ControlId::Range, signed32(le32(data, 2)))] + (if halo && halo_mode(
        data[7] as int,
    ) is Some {
        seq![plain(ControlId::Mode, data[7] as int)]
    } else {
        Seq::empty()
    }) + seq![with_auto(ControlId::Gain, data[12] as int, data[8] as int)] + (if halo {
        Seq::empty()
    } else {
        seq![with_auto(ControlId::Sea, signed32(le32(data, 17)), data[13] as int)]
    }) + seq![
        plain(ControlId::Rain, data[22] as int),
        plain(ControlId::InterferenceRejection, data[34] as int),
        plain(ControlId::TargetExpansion, data[38] as int),
        plain(ControlId::TargetBoost, data[42] as int),
    ]
}

/// Whether the controls that a preset fixes can be set, where a report of the settings tells.
pub open spec fn allowed_of(model: Model, data: Seq<u8>) -> Option<bool> {
    match (model, halo_mode(data[7] as int)) {
        (Model::HALO, Some(mode)) => Some(mode == HaloMode::Custom),
        _ => None,
    }
}

/// Whether a HALO adjusts its sea clutter filter by itself, as a report of the settings tells.
pub open spec fn sea_auto_of(model: Model, data: Seq<u8>) -> Option<bool> {
    match model {
        Model::HALO => Some(data[13] > 0),
        _ => None,
    }
}

/// Reads a report of the settings.
pub fn process_report_02(model: Model, data: &[u8]) -> (r: Result<SettingsReport, ReportProblem>)
    ensures
        match r {
            Ok(report) => {
                &&& data.len() == 99
                &&& report.settings@ == settings_of(model, data@)
                &&& report.range == signed32(le32(data@, 2))
                &&& report.allowed == allowed_of(model, data@)
                &&& report.sea_auto == sea_auto_of(model, data@)
            },
            Err(problem) => data.len() != 99 && problem == ReportProblem::BadLength,
        },
{
    if data.len() != 99 {
        return Err(ReportProblem::BadLength);
    }
    let halo = model == Model::HALO;
    let range: i32 = read_i32_le(data, 2);
    let mut settings: Vec<WireSetting> = Vec::with_capacity(8);
    let mut allowed: Option<bool> = None;
    let mut sea_auto: Option<bool> = None;
    settings.push(set_value(ControlId::Range, range as i64));
    if halo {
        match HaloMode::from_u8(data[7]) {
            Some(mode) => {
                settings.push(set_value(ControlId::Mode, data[7] as i64));
                allowed = Some(mode == HaloMode::Custom);
            },
            None => {},
        }
    }
    settings.push(set_value_auto(ControlId::Gain, data[12] as i64, data[8]));
    if halo {
        sea_auto = Some(data[13] > 0);
    } else {
        settings.push(set_value_auto(ControlId::Sea, read_i32_le(data, 17) as i64, data[13]));
    }
    settings.push(set_value(ControlId::Rain, data[22] as i64));
    settings.push(set_value(ControlId::InterferenceRejection, data[34] as i64));
    settings.push(set_value(ControlId::TargetExpansion, data[38] as i64));
    settings.push(set_value(ControlId::TargetBoost, data[42] as i64));
    assert(settings@ =~= settings_of(model, data@));
    Ok(SettingsReport { settings, allowed, sea_auto, range })
}

/// A control that can or cannot be set from now on. Clients have to be told of a change.
pub open spec fn with_allowed(c: Option<Control>, allowed: bool) -> Option<Control> {
    match c {
        Some(c) => if c.allowed == Some(allowed) {
            Some(c)
        } else {
            Some(Control { allowed: Some(allowed), needs_refresh: true, ..c })
        },
        None => None,
    }
}

/// Records whether the controls that a preset fixes can be set.
pub fn allow_dynamic_controls(controls: &mut SharedControls, allowed: bool)
    requires
        old(controls).well_formed(),
    ensures
        final(controls).well_formed(),
        final(controls).replay == old(controls).replay,
        final(controls).radar_id == old(controls).radar_id,
        final(controls).all_ranges == old(controls).all_ranges,
        final(controls).default_range_units == old(controls).default_range_units,
        forall|id: ControlId| #[trigger]
            final(controls).slot(id) == if is_dynamic(id) {
                with_allowed(old(controls).slot(id), allowed)
            } else {
                old(controls).slot(id)
            },
{
    controls.set_allowed(&ControlId::NoiseRejection, allowed);
    controls.set_allowed(&ControlId::TargetExpansion, allowed);
    controls.set_allowed(&ControlId::TargetSeparation, allowed);
    controls.set_allowed(&ControlId::LocalInterferenceRejection, allowed);
    controls.set_allowed(&ControlId::ScanSpeed, allowed);
}

/// What is known of a radar from its reports.
pub struct NavicoReportState {
    pub model: Model,
    pub doppler: DopplerMode,
    /// Which bytes were warned about already.
    pub reported_unknown: [bool; 256],
}

/// What a report of the model tells.
#[derive(Debug)]
pub struct IdentityReport {
    /// The model, where the controls of the radar have to be brought up to date.
    pub new_model: Option<Model>,
    /// Whether to warn of a model that is not known.
    pub warn: bool,
    pub transmit_time: WireSetting,
    pub firmware: String,
}

impl NavicoReportState {
    /// Nothing is known but, perhaps, the model.
    pub fn new(model: Model) -> (s: NavicoReportState)
        ensures
            s.model == model,
            s.doppler == DopplerMode::Off,
            forall|i: int| 0 <= i < 256 ==> !(#[trigger] s.reported_unknown@[i]),
    {
        NavicoReportState { model, doppler: DopplerMode::Off, reported_unknown: [false; 256] }
    }

    /// Whether a report of an unknown kind is worth a warning: only the first one of each id is.
    pub fn first_unknown_report(&mut self, id: u8) -> (first: bool)
        ensures
            first == !old(self).reported_unknown@[id as int],
            final(self).reported_unknown@ == old(self).reported_unknown@.update(id as int, true),
            final(self).model == old(self).model,
            final(self).doppler == old(self).doppler,
    {
        let first = !self.reported_unknown[id as usize];
        self.reported_unknown[id as usize] = true;
        assert(self.reported_unknown@ =~= old(self).reported_unknown@.update(id as int, true));
        first
    }

    /// The model after a report of the model.
    pub open spec fn identified(&self, told: Model) -> Model {
        match told {
            Model::Unknown => self.model,
            Model::HaloOrG4 => if self.model == Model::Unknown {
                Model::HaloOrG4
            } else {
                self.model
            },
            _ => told,
        }
    }

    /// Reads a report of the model.
    pub fn process_report_03(&mut self, data: &[u8]) -> (r: Result<IdentityReport, ReportProblem>)
        ensures
            final(self).doppler == old(self).doppler,
            match r {
                Ok(report) => {
                    let told = told_model(data@);
                    &&& data.len() == 129
                    &&& final(self).model == old(self).identified(told)
                    &&& report.new_model == if told != Model::Unknown && told != Model::HaloOrG4
                        && told != old(self).model {
                        Some(told)
                    } else {
                        None
                    }
                    &&& report.warn == (told == Model::Unknown && !old(self).reported_unknown@[data@[2] as int])
                    &&& final(self).reported_unknown@ == if told == Model::Unknown {
                        old(self).reported_unknown@.update(data@[2] as int, true)
                    } else {
                        old(self).reported_unknown@
                    }
                    &&& report.transmit_time == transmit_time_of(data@)
                    &&& report.firmware@ == firmware_of(data@)
                },
                Err(problem) => data.len() != 129 && problem == ReportProblem::BadLength
                    && *final(self) == *old(self),
            },
    {
        if data.len() != 129 {
            return Err(ReportProblem::BadLength);
        }
        let model = Model::from(data[2]);
        let mut new_model: Option<Model> = None;
        let mut warn = false;
        match model {
            Model::Unknown => {
                warn = self.first_unknown_report(data[2]);
            },
            Model::HaloOrG4 => {
                if self.model == Model::Unknown {
                    self.model = Model::HaloOrG4;
                }
            },
            _ => {
                if self.model != model {
                    self.model = model;
                    new_model = Some(model);
                }
            },
        }
        let mut firmware: String = wide_text(vstd::slice::slice_subrange(data, 58, 90));
        firmware.push(' ');
        firmware.append(wide_text(vstd::slice::slice_subrange(data, 90, 122)).as_str());
        Ok(
            IdentityReport {
                new_model,
                warn,
                transmit_time: set_value(ControlId::TransmitTime, read_i32_le(data, 34) as i64),
                firmware,
            },
        )
    }

    /// The model after a report of the features: its length tells HALO radars from others.
    pub open spec fn featured(&self, len: int) -> Model {
        if len >= 21 {
            Model::HALO
        } else if self.model == Model::HaloOrG4 {
            Model::Gen4
        } else {
            self.model
        }
    }

    /// Reads a report of the features. The first result is the model, where the controls of the radar
    /// have to be brought up to date, even if the report is then dropped.
    pub fn process_report_08(&mut self, data: &[u8]) -> (r: (
        Option<Model>,
        Result<Vec<WireSetting>, ReportProblem>,
    ))
        ensures
            final(self).reported_unknown == old(self).reported_unknown,
            if !is_features_length(data.len() as int) {
                &&& *final(self) == *old(self)
                &&& r.0 is None
                &&& r.1 matches Err(problem) && problem == ReportProblem::BadLength
            } else {
                let model = old(self).featured(data.len() as int);
                let doppler = doppler_of_number(data@[18] as int);
                &&& final(self).model == model
                &&& r.0 == if model != old(self).model {
                    Some(model)
                } else {
                    None
                }
                &&& if data.len() >= 21 && doppler is None {
                    &&& final(self).doppler == old(self).doppler
                    &&& r.1 matches Err(problem) && problem == ReportProblem::UnknownDoppler(
                        data@[18],
                    )
                } else {
                    &&& final(self).doppler == if data.len() >= 21 {
                        doppler->0
                    } else {
                        old(self).doppler
                    }
                    &&& r.1 matches Ok(settings) && settings@ == features_of(model, data@)
                }
            },
    {
        if data.len() != 18 && data.len() != 21 && data.len() != 22 && data.len() != 32 {
            return (None, Err(ReportProblem::BadLength));
        }
        let model = if data.len() >= 21 {
            Model::HALO
        } else if self.model == Model::HaloOrG4 {
            Model::Gen4
        } else {
            self.model
        };
        let mut new_model: Option<Model> = None;
        if self.model != model {
            self.model = model;
            new_model = Some(model);
        }
        let mut settings: Vec<WireSetting> = Vec::with_capacity(9);
        if data.len() >= 21 {
            match DopplerMode::from_u8(data[18]) {
                Some(doppler) => {
                    self.doppler = doppler;
                },
                None => {
                    return (new_model, Err(ReportProblem::UnknownDoppler(data[18])));
                },
            }
            settings.push(set_value(ControlId::Doppler, data[18] as i64));
            settings.push(
                set_value(ControlId::DopplerSpeedThreshold, read_u16_le(data, 19) as i64),
            );
        }
        if model == Model::HALO {
            settings.push(set_value(ControlId::SeaState, data[2] as i64));
            settings.push(
                set_value_with_many_auto(
                    ControlId::Sea,
                    data[14] as i64,
                    read_i8(data, 15) as i64,
                ),
            );
        }
        settings.push(set_value(ControlId::LocalInterferenceRejection, data[3] as i64));
        settings.push(set_value(ControlId::ScanSpeed, data[4] as i64));
        settings.push(set_value_auto(ControlId::SideLobeSuppression, data[9] as i64, data[5]));
        settings.push(set_value(ControlId::NoiseRejection, data[12] as i64));
        if model == Model::HALO || model == Model::Gen4 {
            settings.push(set_value(ControlId::TargetSeparation, data[13] as i64));
        }
        assert(settings@ =~= features_of(model, data@));
        (new_model, Ok(settings))
    }
}

/// The lengths that a report of the features has.
pub open spec fn is_features_length(len: int) -> bool {
    len == 18 || len == 21 || len == 22 || len == 32
}

/// The values of controls in a report of the features.
pub open spec fn features_of(model: Model, data: Seq<u8>) -> Seq<WireSetting> {
    (if data.len() >= 21 {
        seq![
            plain(ControlId::Doppler, data[18] as int),
            plain(ControlId::DopplerSpeedThreshold, le16(data, 19)),
        ]
    } else {
        Seq::empty()
    }) + (if model == Model::HALO {
        seq![
            plain(ControlId::SeaState, data[2] as int),
            with_auto_value(ControlId::Sea, data[14] as int, signed8(data[15] as int)),
        ]
    } else {
        Seq::empty()
    }) + seq![
        plain(ControlId::LocalInterferenceRejection, data[3] as int),
        plain(ControlId::ScanSpeed, data[4] as int),
        with_auto(ControlId::SideLobeSuppression, data[9] as int, data[5] as int),
        plain(ControlId::NoiseRejection, data[12] as int),
    ] + (if model == Model::HALO || model == Model::Gen4 {
        seq![plain(ControlId::TargetSeparation, data[13] as int)]
    } else {
        Seq::empty()
    })
}

/// The model that a report of the model tells.
pub open spec fn told_model(data: Seq<u8>) -> Model {
    Model::of_byte(data[2] as int)
}

/// How long the radar transmitted, in a report of the model.
pub open spec fn transmit_time_of(data: Seq<u8>) -> WireSetting {
    plain(ControlId::TransmitTime, signed32(le32(data, 34)))
}

/// The firmware in a report of the model: its date and its time, in wide characters.
pub open spec fn firmware_of(data: Seq<u8>) -> Seq<char> {
    utf16_text(wide_units(data.subrange(58, 90))).push(' ') + utf16_text(
        wide_units(data.subrange(90, 122)),
    )
}

/// The values of controls in a report of the installation.
pub open spec fn installation_of(model: Model, data: Seq<u8>) -> Seq<WireSetting> {
    seq![
        plain(ControlId::BearingAlignment, signed16(le16(data, 6))),
        plain(ControlId::AntennaHeight, le16(data, 10)),
    ] + (if model == Model::HALO {
        seq![plain(ControlId::AccentLight, data[19] as int)]
    } else {
        Seq::empty()
    })
}

/// Reads a report of the installation.
pub fn process_report_04(model: Model, data: &[u8]) -> (r: Result<Vec<WireSetting>, ReportProblem>)
    ensures
        match r {
            Ok(settings) => data.len() == 66 && settings@ == installation_of(model, data@),
            Err(problem) => data.len() != 66 && problem == ReportProblem::BadLength,
        },
{
    if data.len() != 66 {
        return Err(ReportProblem::BadLength);
    }
    let mut settings: Vec<WireSetting> = Vec::with_capacity(3);
    settings.push(set_value(ControlId::BearingAlignment, read_i16_le(data, 6) as i64));
    settings.push(set_value(ControlId::AntennaHeight, read_u16_le(data, 10) as i64));
    if model == Model::HALO {
        settings.push(set_value(ControlId::AccentLight, data[19] as i64));
    }
    assert(settings@ =~= installation_of(model, data@));
    Ok(settings)
}

/// The sector without transmission with a given number, in a list that starts at `at`.
pub open spec fn sector_of(data: Seq<u8>, at: int, i: int) -> WireSetting {
    sector(
        blanking_sector(i),
        signed16(le16(data, at + 5 * i + 1)),
        signed16(le16(data, at + 5 * i + 3)),
        data[at + 5 * i] as int,
    )
}

/// The sectors without transmission in a report of older HALO radars.
pub open spec fn short_sectors_of(data: Seq<u8>) -> Seq<WireSetting> {
    Seq::new(4, |i: int| sector_of(data, 36, i))
}

/// The name of the model in a report of the sectors without transmission.
pub open spec fn sectors_name(data: Seq<u8>) -> Seq<char> {
    match c_text(data.subrange(6, 12)) {
        Some(name) => name,
        None => Seq::empty(),
    }
}

/// The sectors without transmission in a report.
pub open spec fn sectors_of(data: Seq<u8>) -> Seq<WireSetting> {
    Seq::new(4, |i: int| sector_of(data, 42, i))
}

fn read_sector(id: ControlId, data: &[u8], at: usize) -> (s: WireSetting)
    requires
        at + 5 <= data.len(),
    ensures
        s == sector(
            id,
            signed16(le16(data@, at + 1)),
            signed16(le16(data@, at + 3)),
            data@[at as int] as int,
        ),
{
    set_sector(
        id,
        read_i16_le(data, at + 1) as i64,
        read_i16_le(data, at + 3) as i64,
        data[at],
    )
}

fn read_sectors(data: &[u8], at: usize) -> (settings: Vec<WireSetting>)
    requires
        at + 20 <= data.len(),
    ensures
        settings@ == Seq::new(4, |i: int| sector_of(data@, at as int, i)),
{
    let mut settings: Vec<WireSetting> = Vec::with_capacity(4);
    settings.push(read_sector(ControlId::NoTransmitSector1, data, at));
    settings.push(read_sector(ControlId::NoTransmitSector2, data, at + 5));
    settings.push(read_sector(ControlId::NoTransmitSector3, data, at + 10));
    settings.push(read_sector(ControlId::NoTransmitSector4, data, at + 15));
    assert(settings@ =~= Seq::new(4, |i: int| sector_of(data@, at as int, i)));
    settings
}

/// Reads a report of the sectors without transmission, as older HALO radars send it. It starts with
/// the name of the model, which is empty where it is no text.
pub fn process_report_06_68(data: &[u8]) -> (r: Result<
    (String, Vec<WireSetting>),
    ReportProblem,
>)
    ensures
        match r {
            Ok((name, settings)) => {
                &&& data.len() == 68
                &&& name@ == sectors_name(data@)
                &&& settings@ == short_sectors_of(data@)
            },
            Err(problem) => data.len() != 68 && problem == ReportProblem::BadLength,
        },
{
    if data.len() != 68 {
        return Err(ReportProblem::BadLength);
    }
    let name = match c_string(vstd::slice::slice_subrange(data, 6, 12)) {
        Some(name) => name,
        None => String::new(),
    };
    Ok((name, read_sectors(data, 36)))
}

/// Reads a report of the sectors without transmission.
pub fn process_report_06_74(data: &[u8]) -> (r: Result<Vec<WireSetting>, ReportProblem>)
    ensures
        match r {
            Ok(settings) => data.len() == 74 && settings@ == sectors_of(data@),
            Err(problem) => data.len() != 74 && problem == ReportProblem::BadLength,
        },
{
    if data.len() != 74 {
        return Err(ReportProblem::BadLength);
    }
    Ok(read_sectors(data, 42))
}

/// How looking for the ranges of a radar begins.
#[derive(Clone, Copy, Debug, PartialEq, Eq, Structural)]
pub enum RangeStart {
    /// The ranges are known, or are being looked for, or recorded data is replayed.
    NotNeeded,
    /// The state of the radar is not known yet.
    NotPossible,
    /// Look for them. A radar that transmits is put to standby first.
    Begin { standby_first: bool },
}

/// The shortest range that is looked for, in meters.
pub const MIN_RANGE: i32 = 50;

/// Decides whether to look for the ranges of a radar.
pub fn start_range_detection(
    ranges_known: bool,
    detecting: bool,
    replay: bool,
    status: Option<Power>,
) -> (r: RangeStart)
    ensures
        r == if ranges_known || detecting || replay {
            RangeStart::NotNeeded
        } else {
            match status {
                Some(power) => RangeStart::Begin { standby_first: power == Power::Transmit },
                None => RangeStart::NotPossible,
            }
        },
{
    if ranges_known || detecting || replay {
        return RangeStart::NotNeeded;
    }
    match status {
        Some(power) => RangeStart::Begin { standby_first: power == Power::Transmit },
        None => RangeStart::NotPossible,
    }
}

/// What came out of looking at a reported range.
#[derive(Debug)]
pub enum RangeDetectionResult {
    NoRange,
    /// All ranges are known. The radar goes back to the range that it had.
    Complete(Ranges, i32),
    /// The range to try next.
    NextRange(i32),
}

/// What is done about the ranges of a radar.
#[derive(Clone, Copy, Debug, PartialEq, Eq, Structural)]
pub struct RangeStep {
    /// The ranges are known now.
    pub complete: bool,
    /// The range that is sent to the radar, in meters.
    pub send_range: Option<i32>,
    /// The radar is told to transmit again.
    pub transmit: bool,
    /// When to try the next range, if no report comes in: never, or in so many milliseconds.
    pub timeout: Option<u64>,
}

/// How long to wait for a report of a range that was sent, in milliseconds.
pub const RANGE_DETECTION_INTERVAL: u64 = 2000;

/// Decides what to do about the ranges of a radar. `transmit_after` tells whether the radar
/// transmitted before. Where nothing came out, nothing is done.
pub fn range_step(result: &RangeDetectionResult, transmit_after: bool) -> (r: Option<RangeStep>)
    ensures
        r == match result {
            RangeDetectionResult::NoRange => None::<RangeStep>,
            RangeDetectionResult::Complete(_, saved_range) => Some(
                RangeStep {
                    complete: true,
                    send_range: Some(*saved_range),
                    transmit: transmit_after,
                    timeout: None,
                },
            ),
            RangeDetectionResult::NextRange(range) => Some(
                RangeStep {
                    complete: false,
                    send_range: Some(*range),
                    transmit: false,
                    timeout: Some(RANGE_DETECTION_INTERVAL),
                },
            ),
        },
{
    match result {
        RangeDetectionResult::NoRange => None,
        RangeDetectionResult::Complete(_, saved_range) => Some(
            RangeStep {
                complete: true,
                send_range: Some(*saved_range),
                transmit: transmit_after,
                timeout: None,
            },
        ),
        RangeDetectionResult::NextRange(range) => Some(
            RangeStep {
                complete: false,
                send_range: Some(*range),
                transmit: false,
                timeout: Some(RANGE_DETECTION_INTERVAL),
            },
        ),
    }
}

/// A reported range in meters. Reports give it in decimeters.
pub fn range_in_meters(range: i32) -> (meters: i32)
    ensures
        range >= 0 ==> meters == range as int / 10,
        range < 0 ==> meters == -((-range) as int / 10),
{
    if range >= 0 {
        range / 10
    } else {
        let positive: i64 = -(range as i64);
        (-(positive / 10)) as i32
    }
}

/// The request to a radar to change its state.
pub fn send_status(status: Power) -> (cv: ControlValue)
    ensures
        cv@ == (ControlId::Power, only_value(ValueView::Number(whole_number(status.number())))),
{
    ControlValue::new(ControlId::Power, Value::Number(Number::from_i64(status.as_i64())))
}

/// The request to a radar to change its range.
pub fn send_range(range: i32) -> (cv: ControlValue)
    ensures
        cv@ == (ControlId::Range, only_value(ValueView::Number(whole_number(range as int)))),
{
    ControlValue::new(ControlId::Range, Value::Number(Number::from_i32(range)))
}

/// How often the radar is asked for reports, in milliseconds.
pub const REPORT_REQUEST_INTERVAL: u64 = 5000;

/// How long nothing is sent after another display sent information, in milliseconds.
pub const INFO_BY_OTHERS_TIMEOUT: u64 = 15000;

/// How often information is sent, in milliseconds.
pub const INFO_BY_US_INTERVAL: u64 = 250;

/// As long as the time to wait for something that is not expected, in milliseconds.
pub const FAR_FUTURE: u64 = 946_080_000_000;

/// When what has to be done next, in milliseconds.
#[derive(Clone, Copy, Debug, PartialEq, Eq, Structural)]
pub struct Timers {
    pub range: u64,
    pub info_request: u64,
    pub report_request: u64,
}

/// What has to be done now.
#[derive(Clone, Copy, Debug, PartialEq, Eq, Structural)]
pub struct Due {
    pub range: bool,
    pub report_request: bool,
    pub info_request: bool,
}

impl Timers {
    /// Everything is asked for at once, but no range is looked for.
    pub fn new(now: u64) -> (t: Timers)
        requires
            now + FAR_FUTURE <= u64::MAX,
        ensures
            t == (Timers {
                range: (now + FAR_FUTURE) as u64,
                info_request: now,
                report_request: now,
            }),
    {
        Timers { range: now + FAR_FUTURE, info_request: now, report_request: now }
    }

    /// When something has to be done next.
    pub fn next_timeout(&self) -> (t: u64)
        ensures
            t <= self.range,
            t <= self.info_request,
            t <= self.report_request,
            t == self.range || t == self.info_request || t == self.report_request,
    {
        let first: u64 = if self.report_request < self.range {
            self.report_request
        } else {
            self.range
        };
        if first < self.info_request {
            first
        } else {
            self.info_request
        }
    }

    /// What has to be done now.
    pub fn due(&self, now: u64) -> (d: Due)
        ensures
            d == (Due {
                range: self.range <= now,
                report_request: self.report_request <= now,
                info_request: self.info_request <= now,
            }),
    {
        Due {
            range: self.range <= now,
            report_request: self.report_request <= now,
            info_request: self.info_request <= now,
        }
    }

    /// The radar was asked for reports.
    pub fn sent_report_requests(&mut self)
        requires
            old(self).report_request + REPORT_REQUEST_INTERVAL <= u64::MAX,
        ensures
            *final(self) == (Timers {
                report_request: (old(self).report_request + REPORT_REQUEST_INTERVAL) as u64,
                ..*old(self)
            }),
    {
        self.report_request = self.report_request + REPORT_REQUEST_INTERVAL;
    }

    /// Information was sent.
    pub fn sent_info_requests(&mut self)
        requires
            old(self).info_request + INFO_BY_US_INTERVAL <= u64::MAX,
        ensures
            *final(self) == (Timers {
                info_request: (old(self).info_request + INFO_BY_US_INTERVAL) as u64,
                ..*old(self)
            }),
    {
        self.info_request = self.info_request + INFO_BY_US_INTERVAL;
    }

    /// Information came in from an address. Where it is not our own, nothing is sent for a while.
    pub fn process_info(&mut self, addr: u32, own: u32, now: u64)
        requires
            now + INFO_BY_OTHERS_TIMEOUT <= u64::MAX,
        ensures
            *final(self) == if addr == own {
                *old(self)
            } else {
                Timers { info_request: (now + INFO_BY_OTHERS_TIMEOUT) as u64, ..*old(self) }
            },
    {
        if addr != own {
            self.info_request = now + INFO_BY_OTHERS_TIMEOUT;
        }
    }

    /// A range was looked at.
    pub fn range_handled(&mut self, step: &RangeStep, now: u64)
        requires
            now + FAR_FUTURE <= u64::MAX,
            step.timeout matches Some(t) ==> t <= FAR_FUTURE,
        ensures
            *final(self) == (Timers {
                range: match step.timeout {
                    Some(t) => (now + t) as u64,
                    None => (now + FAR_FUTURE) as u64,
                },
                ..*old(self)
            }),
    {
        self.range = match step.timeout {
            Some(t) => now + t,
            None => now + FAR_FUTURE,
        };
    }
}

/// Whenever the next timeout has passed, something has to be done.
pub proof fn timeout_means_work(timers: Timers, timeout: u64, now: u64)
    requires
        timeout == timers.range || timeout == timers.info_request || timeout
            == timers.report_request,
        timeout <= now,
    ensures
        timers.range <= now || timers.info_request <= now || timers.report_request <= now,
{
}

/// A radar is taken for one model for good: once a report told a model other than the undecided one,
/// a report that leaves it open does not change it.
pub proof fn undecided_report_changes_nothing(state: NavicoReportState)
    requires
        state.model != Model::Unknown,
    ensures
        state.identified(Model::HaloOrG4) == state.model,
        state.identified(Model::Unknown) == state.model,
{
}

/// After a report of the features the model is never undecided.
pub proof fn features_decide_the_model(state: NavicoReportState, len: int)
    ensures
        state.featured(len) != Model::HaloOrG4,
{
}

} // verus!

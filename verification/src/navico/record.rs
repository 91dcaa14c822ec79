//! How the reports of Navico radars are laid out: what a radar puts into a report is what is read
//! from it.
use vstd::prelude::*;

use crate::control_id::ControlId;
use crate::layout::{
    adjusted, chosen, holds16, holds32, is_silent_on, numbers_of_four_bytes, numbers_of_two_bytes,
    reaching, tells, valued,
};
use crate::navico::model::{halo_mode, HaloMode, Model};
use crate::navico::report::{
    allowed_of, features_of, firmware_of, installation_of, is_features_length, kind_of, sea_auto_of,
    sectors_of, settings_of, short_sectors_of, status_of, status_setting, told_model,
    transmit_time_of, ReportKind, ReportProblem,
};
use crate::power::{doppler_of_number, DopplerMode, Power};
use crate::setting::WireSetting;
use crate::text::{holds_wide, wide_text_is_read_back};
use crate::wire::{le16, signed16};

verus! {

/// What a radar puts into a report of its settings.
pub struct SettingsRecord {
    pub range: i32,
    pub mode: u8,
    pub gain_auto: u8,
    pub gain: u8,
    pub sea_auto: u8,
    pub sea: i32,
    pub rain: u8,
    pub interference_rejection: u8,
    pub target_expansion: u8,
    pub target_boost: u8,
}

impl SettingsRecord {
    /// The record lies in a report.
    pub open spec fn is_in(self, data: Seq<u8>) -> bool {
        &&& data.len() == 99
        &&& holds32(data, 2, self.range as int)
        &&& data[7] == self.mode
        &&& data[8] == self.gain_auto
        &&& data[12] == self.gain
        &&& data[13] == self.sea_auto
        &&& holds32(data, 17, self.sea as int)
        &&& data[22] == self.rain
        &&& data[34] == self.interference_rejection
        &&& data[38] == self.target_expansion
        &&& data[42] == self.target_boost
    }
}

/// What a radar puts into a report of its settings is what is read for each control. HALO radars tell
/// their preset, and have a report of their own for the sea clutter.
pub proof fn settings_are_read_back(model: Model, record: SettingsRecord, data: Seq<u8>)
    requires
        record.is_in(data),
    ensures
        ({
            let read = settings_of(model, data);
            &&& tells(read, valued(ControlId::Range, record.range as int))
            &&& tells(read, chosen(ControlId::Gain, record.gain as int, record.gain_auto > 0))
            &&& tells(read, valued(ControlId::Rain, record.rain as int))
            &&& tells(
                read,
                valued(ControlId::InterferenceRejection, record.interference_rejection as int),
            )
            &&& tells(read, valued(ControlId::TargetExpansion, record.target_expansion as int))
            &&& tells(read, valued(ControlId::TargetBoost, record.target_boost as int))
            &&& if model == Model::HALO {
                is_silent_on(read, ControlId::Sea)
            } else {
                tells(read, chosen(ControlId::Sea, record.sea as int, record.sea_auto > 0))
            }
            &&& if model == Model::HALO && record.mode <= 5 {
                tells(read, valued(ControlId::Mode, record.mode as int))
            } else {
                is_silent_on(read, ControlId::Mode)
            }
        }),
{
    numbers_of_four_bytes(data, 2, record.range as int);
    numbers_of_four_bytes(data, 17, record.sea as int);
    let read = settings_of(model, data);
    assert(read[0] == valued(ControlId::Range, record.range as int));
    let n: int = if model == Model::HALO && record.mode <= 5 {
        1
    } else {
        0
    };
    let m: int = if model == Model::HALO {
        0
    } else {
        1
    };
    assert(n == 1 ==> read[1] == valued(ControlId::Mode, record.mode as int));
    assert(read[n + 1] == chosen(ControlId::Gain, record.gain as int, record.gain_auto > 0));
    assert(m == 1 ==> read[n + 2] == chosen(ControlId::Sea, record.sea as int, record.sea_auto > 0));
    assert(read[n + m + 2] == valued(ControlId::Rain, record.rain as int));
    assert(read[n + m + 3] == valued(
        ControlId::InterferenceRejection,
        record.interference_rejection as int,
    ));
    assert(read[n + m + 4] == valued(
        ControlId::TargetExpansion,
        record.target_expansion as int,
    ));
    assert(read[n + m + 5] == valued(ControlId::TargetBoost, record.target_boost as int));
    assert(read.len() == n + m + 6);
}

/// A HALO lets the controls that a preset fixes be set in its custom preset alone, and tells whether it
/// adjusts the sea clutter by itself. Other radars tell neither.
pub proof fn presets_are_read_back(model: Model, record: SettingsRecord, data: Seq<u8>)
    requires
        record.is_in(data),
    ensures
        model != Model::HALO ==> allowed_of(model, data) is None && sea_auto_of(model, data) is None,
        model == Model::HALO ==> sea_auto_of(model, data) == Some(record.sea_auto != 0),
        model == Model::HALO ==> (allowed_of(model, data) is Some <==> record.mode <= 5),
        model == Model::HALO ==> (allowed_of(model, data) == Some(true) <==> record.mode == 0),
{
}

/// Two reports of the settings that differ in nothing that a record holds tell the same.
pub proof fn nothing_else_is_read(model: Model, record: SettingsRecord, a: Seq<u8>, b: Seq<u8>)
    requires
        record.is_in(a),
        record.is_in(b),
    ensures
        settings_of(model, a) == settings_of(model, b),
{
    numbers_of_four_bytes(a, 2, record.range as int);
    numbers_of_four_bytes(a, 17, record.sea as int);
    numbers_of_four_bytes(b, 2, record.range as int);
    numbers_of_four_bytes(b, 17, record.sea as int);
    assert(settings_of(model, a) =~= settings_of(model, b));
}

/// Four bytes stand for the operational states that a radar tells; each for one of its own. All others
/// are refused, and so is a report of another length.
pub proof fn states_are_read_back(data: Seq<u8>)
    ensures
        data.len() != 18 ==> status_of(data) == Err::<WireSetting, ReportProblem>(
            ReportProblem::BadLength,
        ),
        data.len() == 18 ==> status_of(data) == status_setting(data[2]),
        status_setting(0) == Ok::<WireSetting, ReportProblem>(valued(ControlId::Power, 0)),
        status_setting(1) == Ok::<WireSetting, ReportProblem>(valued(ControlId::Power, 1)),
        status_setting(2) == Ok::<WireSetting, ReportProblem>(valued(ControlId::Power, 2)),
        status_setting(5) == Ok::<WireSetting, ReportProblem>(valued(ControlId::Power, 3)),
        forall|b: u8|
            b == 3 || b == 4 || b > 5 ==> #[trigger] status_setting(b) == Err::<
                WireSetting,
                ReportProblem,
            >(ReportProblem::UnknownStatus(b)),
        Power::Off.number() == 0 && Power::Standby.number() == 1 && Power::Transmit.number() == 2
            && Power::Preparing.number() == 3,
{
}

/// What a radar puts into a report of its model.
pub struct IdentityRecord {
    pub model: u8,
    pub hours: i32,
    pub firmware_date: Seq<char>,
    pub firmware_time: Seq<char>,
}

impl IdentityRecord {
    /// The record lies in a report.
    pub open spec fn is_in(self, data: Seq<u8>) -> bool {
        &&& data.len() == 129
        &&& data[2] == self.model
        &&& holds32(data, 34, self.hours as int)
        &&& holds_wide(data.subrange(58, 90), self.firmware_date)
        &&& holds_wide(data.subrange(90, 122), self.firmware_time)
    }
}

/// What a radar puts into a report of its model is what is read.
pub proof fn identity_is_read_back(record: IdentityRecord, data: Seq<u8>)
    requires
        record.is_in(data),
    ensures
        transmit_time_of(data) == valued(ControlId::TransmitTime, record.hours as int),
        firmware_of(data) == record.firmware_date + seq![' '] + record.firmware_time,
        told_model(data) == Model::BR24 <==> (record.model == 14 || record.model == 15),
        told_model(data) == Model::Gen3 <==> record.model == 8,
        told_model(data) == Model::HaloOrG4 <==> record.model == 1,
        told_model(data) == Model::HALO <==> record.model == 0,
        told_model(data) != Model::Gen4,
{
    numbers_of_four_bytes(data, 34, record.hours as int);
    wide_text_is_read_back(data.subrange(58, 90), record.firmware_date);
    wide_text_is_read_back(data.subrange(90, 122), record.firmware_time);
    assert(firmware_of(data) =~= record.firmware_date + seq![' '] + record.firmware_time);
}

/// What a radar puts into a report of its installation.
pub struct InstallationRecord {
    pub bearing_alignment: i16,
    pub antenna_height: u16,
    pub accent_light: u8,
}

impl InstallationRecord {
    /// The record lies in a report.
    pub open spec fn is_in(self, data: Seq<u8>) -> bool {
        &&& data.len() == 66
        &&& holds16(data, 6, self.bearing_alignment as int)
        &&& holds16(data, 10, self.antenna_height as int)
        &&& data[19] == self.accent_light
    }
}

/// What a radar puts into a report of its installation is what is read. Only HALO radars have a light.
pub proof fn installation_is_read_back(model: Model, record: InstallationRecord, data: Seq<u8>)
    requires
        record.is_in(data),
    ensures
        ({
            let read = installation_of(model, data);
            &&& tells(read, valued(ControlId::BearingAlignment, record.bearing_alignment as int))
            &&& tells(read, valued(ControlId::AntennaHeight, record.antenna_height as int))
            &&& if model == Model::HALO {
                tells(read, valued(ControlId::AccentLight, record.accent_light as int))
            } else {
                is_silent_on(read, ControlId::AccentLight)
            }
        }),
{
    numbers_of_two_bytes(data, 6, record.bearing_alignment as int);
    numbers_of_two_bytes(data, 10, record.antenna_height as int);
    let read = installation_of(model, data);
    assert(read[0] == valued(ControlId::BearingAlignment, record.bearing_alignment as int));
    assert(read[1] == valued(ControlId::AntennaHeight, record.antenna_height as int));
    assert(model == Model::HALO ==> read[2] == valued(
        ControlId::AccentLight,
        record.accent_light as int,
    ));
}

/// A sector without transmission, as a radar puts it into a report.
pub struct SectorRecord {
    pub enabled: u8,
    pub start_angle: i16,
    pub end_angle: i16,
}

impl SectorRecord {
    /// The sector lies at an offset of a report.
    pub open spec fn is_at(self, data: Seq<u8>, at: int) -> bool {
        &&& data[at] == self.enabled
        &&& holds16(data, at + 1, self.start_angle as int)
        &&& holds16(data, at + 3, self.end_angle as int)
    }

    /// What clients have to be told of the sector.
    pub open spec fn setting(self, id: ControlId) -> WireSetting {
        reaching(id, self.start_angle as int, self.end_angle as int, self.enabled > 0)
    }
}

/// The four sectors without transmission that a radar puts into a report, five bytes each, are what is
/// read, in the same order. Older HALO radars put them six bytes further ahead.
pub proof fn sectors_are_read_back(
    data: Seq<u8>,
    a: SectorRecord,
    b: SectorRecord,
    c: SectorRecord,
    d: SectorRecord,
)
    ensures
        data.len() == 74 && a.is_at(data, 42) && b.is_at(data, 47) && c.is_at(data, 52) && d.is_at(
            data,
            57,
        ) ==> sectors_of(data) == seq![
            a.setting(ControlId::NoTransmitSector1),
            b.setting(ControlId::NoTransmitSector2),
            c.setting(ControlId::NoTransmitSector3),
            d.setting(ControlId::NoTransmitSector4),
        ],
        data.len() == 68 && a.is_at(data, 36) && b.is_at(data, 41) && c.is_at(data, 46) && d.is_at(
            data,
            51,
        ) ==> short_sectors_of(data) == seq![
            a.setting(ControlId::NoTransmitSector1),
            b.setting(ControlId::NoTransmitSector2),
            c.setting(ControlId::NoTransmitSector3),
            d.setting(ControlId::NoTransmitSector4),
        ],
{
    let all = seq![
        a.setting(ControlId::NoTransmitSector1),
        b.setting(ControlId::NoTransmitSector2),
        c.setting(ControlId::NoTransmitSector3),
        d.setting(ControlId::NoTransmitSector4),
    ];
    if data.len() == 74 && a.is_at(data, 42) && b.is_at(data, 47) && c.is_at(data, 52) && d.is_at(
        data,
        57,
    ) {
        sector_is_read_back(data, 42, a);
        sector_is_read_back(data, 47, b);
        sector_is_read_back(data, 52, c);
        sector_is_read_back(data, 57, d);
        assert(sectors_of(data) =~= all);
    }
    if data.len() == 68 && a.is_at(data, 36) && b.is_at(data, 41) && c.is_at(data, 46) && d.is_at(
        data,
        51,
    ) {
        sector_is_read_back(data, 36, a);
        sector_is_read_back(data, 41, b);
        sector_is_read_back(data, 46, c);
        sector_is_read_back(data, 51, d);
        assert(short_sectors_of(data) =~= all);
    }
}

proof fn sector_is_read_back(data: Seq<u8>, at: int, s: SectorRecord)
    requires
        s.is_at(data, at),
    ensures
        signed16(le16(data, at + 1)) == s.start_angle,
        signed16(le16(data, at + 3)) == s.end_angle,
{
    numbers_of_two_bytes(data, at + 1, s.start_angle as int);
    numbers_of_two_bytes(data, at + 3, s.end_angle as int);
}

/// What a radar puts into a report of its features.
pub struct FeaturesRecord {
    pub sea_state: u8,
    pub interference_rejection: u8,
    pub scan_speed: u8,
    pub sls_auto: u8,
    pub side_lobe_suppression: u8,
    pub noise_rejection: u8,
    pub target_sep: u8,
    pub sea_clutter: u8,
    pub auto_sea_clutter: i8,
    pub doppler_state: u8,
    pub doppler_speed: u16,
}

impl FeaturesRecord {
    /// The record lies in a report. Only longer reports have room for the Doppler settings.
    pub open spec fn is_in(self, data: Seq<u8>) -> bool {
        &&& data.len() == 18 || data.len() == 21 || data.len() == 22 || data.len() == 32
        &&& data[2] == self.sea_state
        &&& data[3] == self.interference_rejection
        &&& data[4] == self.scan_speed
        &&& data[5] == self.sls_auto
        &&& data[9] == self.side_lobe_suppression
        &&& data[12] == self.noise_rejection
        &&& data[13] == self.target_sep
        &&& data[14] == self.sea_clutter
        &&& data[15] == self.auto_sea_clutter as int % 256
        &&& data.len() > 18 ==> data[18] == self.doppler_state && holds16(
            data,
            19,
            self.doppler_speed as int,
        )
    }
}

/// What a radar puts into a report of its features is what is read for each control that the model has.
pub proof fn features_are_read_back(model: Model, record: FeaturesRecord, data: Seq<u8>)
    requires
        record.is_in(data),
    ensures
        ({
            let read = features_of(model, data);
            let long = data.len() > 18;
            &&& is_features_length(data.len() as int)
            &&& tells(
                read,
                valued(ControlId::LocalInterferenceRejection, record.interference_rejection as int),
            )
            &&& tells(read, valued(ControlId::ScanSpeed, record.scan_speed as int))
            &&& tells(
                read,
                chosen(
                    ControlId::SideLobeSuppression,
                    record.side_lobe_suppression as int,
                    record.sls_auto > 0,
                ),
            )
            &&& tells(read, valued(ControlId::NoiseRejection, record.noise_rejection as int))
            &&& if model == Model::HALO || model == Model::Gen4 {
                tells(read, valued(ControlId::TargetSeparation, record.target_sep as int))
            } else {
                is_silent_on(read, ControlId::TargetSeparation)
            }
            &&& if model == Model::HALO {
                &&& tells(read, valued(ControlId::SeaState, record.sea_state as int))
                &&& tells(
                    read,
                    adjusted(
                        ControlId::Sea,
                        record.sea_clutter as int,
                        record.auto_sea_clutter as int,
                    ),
                )
            } else {
                is_silent_on(read, ControlId::SeaState) && is_silent_on(read, ControlId::Sea)
            }
            &&& if long {
                &&& tells(read, valued(ControlId::Doppler, record.doppler_state as int))
                &&& tells(
                    read,
                    valued(ControlId::DopplerSpeedThreshold, record.doppler_speed as int),
                )
            } else {
                is_silent_on(read, ControlId::Doppler) && is_silent_on(
                    read,
                    ControlId::DopplerSpeedThreshold,
                )
            }
        }),
{
    let read = features_of(model, data);
    let n: int = if data.len() > 18 {
        numbers_of_two_bytes(data, 19, record.doppler_speed as int);
        2
    } else {
        0
    };
    let m: int = if model == Model::HALO {
        2
    } else {
        0
    };
    assert(n > 0 ==> read[0] == valued(ControlId::Doppler, record.doppler_state as int));
    assert(n > 0 ==> read[1] == valued(
        ControlId::DopplerSpeedThreshold,
        record.doppler_speed as int,
    ));
    assert(m > 0 ==> read[n] == valued(ControlId::SeaState, record.sea_state as int));
    assert(m > 0 ==> read[n + 1] == adjusted(
        ControlId::Sea,
        record.sea_clutter as int,
        record.auto_sea_clutter as int,
    ));
    assert(read[n + m] == valued(
        ControlId::LocalInterferenceRejection,
        record.interference_rejection as int,
    ));
    assert(read[n + m + 1] == valued(ControlId::ScanSpeed, record.scan_speed as int));
    assert(read[n + m + 2] == chosen(
        ControlId::SideLobeSuppression,
        record.side_lobe_suppression as int,
        record.sls_auto > 0,
    ));
    assert(read[n + m + 3] == valued(ControlId::NoiseRejection, record.noise_rejection as int));
    assert(model == Model::HALO || model == Model::Gen4 ==> read[n + m + 4] == valued(
        ControlId::TargetSeparation,
        record.target_sep as int,
    ));
}

/// Three numbers stand for a Doppler mode, each for one of its own.
pub proof fn doppler_modes_are_read_back(n: int)
    ensures
        doppler_of_number(n) == Some(DopplerMode::Off) <==> n == 0,
        doppler_of_number(n) == Some(DopplerMode::Both) <==> n == 1,
        doppler_of_number(n) == Some(DopplerMode::Approaching) <==> n == 2,
        doppler_of_number(n) is None <==> n < 0 || n > 2,
{
}

/// The first byte of a report tells what it holds, where the second is the mark of reports. Before the
/// model is known, reports whose contents depend on it are of no use.
pub proof fn first_byte_tells_the_kind(model: Model, data: Seq<u8>)
    requires
        data.len() >= 2,
        data[1] == 0xc4,
    ensures
        ({
            let kind = kind_of(model, data);
            let known = model != Model::Unknown;
            &&& kind is Ok
            &&& kind->Ok_0 == ReportKind::Status <==> data[0] == 1
            &&& kind->Ok_0 == ReportKind::Settings <==> data[0] == 2 && known
            &&& kind->Ok_0 == ReportKind::Identity <==> data[0] == 3
            &&& kind->Ok_0 == ReportKind::Installation <==> data[0] == 4
            &&& kind->Ok_0 == ReportKind::ShortSectors <==> data[0] == 6 && known && data.len() == 68
            &&& kind->Ok_0 == ReportKind::Sectors <==> data[0] == 6 && known && data.len() != 68
            &&& kind->Ok_0 == ReportKind::Features <==> data[0] == 8 && known
            &&& kind->Ok_0 == ReportKind::Ignored <==> !known && (data[0] == 2 || data[0] == 6
                || data[0] == 8)
        }),
{
}

/// What has no mark of reports is left alone, but for a reply to another display that is not as it
/// should be.
pub proof fn other_datagrams_are_ignored(model: Model, data: Seq<u8>)
    requires
        data.len() >= 2,
        data[1] != 0xc4,
    ensures
        data[1] != 0xc6 || data[0] != 0x11 ==> kind_of(model, data) == Ok::<ReportKind, ReportProblem>(
            ReportKind::Ignored,
        ),
        data[1] == 0xc6 && data[0] == 0x11 ==> (kind_of(model, data) is Ok <==> data.len() == 3
            && data[2] == 0),
{
}

} // verus!

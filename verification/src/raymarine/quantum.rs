//! Quantum radars.
use vstd::prelude::*;

use crate::control_id::ControlId;
use crate::raymarine::report::{
    info_text, power_of_status, range_distances, ranges_of, read_power, InfoProblem, InfoReport,
    PixelToBlob, ReceiverState,
};
use crate::raymarine::unpack::{process_spoke, spoke_pixels, PixelCoding};
use crate::setting::{
    plain, sector, set_sector, set_value, set_value_auto, set_value_enabled, with_auto,
    with_enabled, WireSetting,
};
use crate::spoke::{ScanLine, ScanLineView};
use crate::text::padded_text;
use crate::wire::{le16, read_i16_le, read_u16_le, signed16};

verus! {

/// The length of the header of a datagram with a spoke.
pub const FRAME_HEADER_LENGTH: usize = 20;

/// Why a datagram with a spoke is dropped.
#[derive(Clone, Copy, Debug, PartialEq, Eq, Structural)]
pub enum FrameProblem {
    /// The radar has not told everything about itself yet.
    NotReady,
    /// There is no room for the header.
    TooShort,
    /// The number of spokes per revolution is not that of the radar.
    BadSpokeCount,
    /// The datagram ends within the spoke, or its numbers make no sense.
    Broken,
}

/// The scan line that a datagram holds, or why it is dropped.
pub open spec fn frame_line(
    state: ReceiverState,
    spokes: int,
    range_meters: int,
    table: &[u8; 256],
    data: Seq<u8>,
) -> Result<ScanLineView, FrameProblem> {
    let scan_len = le16(data, 8);
    let returns_per_range = le16(data, 14);
    let data_len = le16(data, 18);
    let range = range_meters * scan_len / returns_per_range;
    let pixels = spoke_pixels(
        PixelCoding::Table(table),
        data.subrange(FRAME_HEADER_LENGTH as int, FRAME_HEADER_LENGTH + data_len),
        scan_len as nat,
    );
    if state != ReceiverState::StatusRequestReceived {
        Err(FrameProblem::NotReady)
    } else if data.len() < FRAME_HEADER_LENGTH {
        Err(FrameProblem::TooShort)
    } else if le16(data, 10) != spokes {
        Err(FrameProblem::BadSpokeCount)
    } else if FRAME_HEADER_LENGTH + data_len > data.len() || returns_per_range == 0 || range
        > u32::MAX || pixels is None {
        Err(FrameProblem::Broken)
    } else {
        Ok(
            ScanLineView {
                range,
                angle: (le16(data, 16) + spokes / 2) % spokes,
                heading: None,
                pixels: pixels->0,
            },
        )
    }
}

/// Takes the spoke out of a datagram. Its pixels are shown with approaching and receding targets told
/// apart.
pub fn process_frame(
    state: ReceiverState,
    spokes_per_revolution: u16,
    range_meters: u32,
    pixel_to_blob: &PixelToBlob,
    data: &[u8],
) -> (r: Result<ScanLine, FrameProblem>)
    requires
        spokes_per_revolution > 0,
    ensures
        match r {
            Ok(line) => frame_line(
                state,
                spokes_per_revolution as int,
                range_meters as int,
                &pixel_to_blob.doppler,
                data@,
            ) == Ok::<ScanLineView, FrameProblem>(line@),
            Err(problem) => frame_line(
                state,
                spokes_per_revolution as int,
                range_meters as int,
                &pixel_to_blob.doppler,
                data@,
            ) == Err::<ScanLineView, FrameProblem>(problem),
        },
{
    if state != ReceiverState::StatusRequestReceived {
        return Err(FrameProblem::NotReady);
    }
    if data.len() < FRAME_HEADER_LENGTH {
        return Err(FrameProblem::TooShort);
    }
    if read_u16_le(data, 10) != spokes_per_revolution {
        return Err(FrameProblem::BadSpokeCount);
    }
    let returns_per_line: u16 = read_u16_le(data, 8);
    let returns_per_range: u16 = read_u16_le(data, 14);
    let azimuth: u16 = read_u16_le(data, 16);
    let data_len: u16 = read_u16_le(data, 18);
    if data.len() - FRAME_HEADER_LENGTH < data_len as usize || returns_per_range == 0 {
        return Err(FrameProblem::Broken);
    }
    assert(range_meters * returns_per_line <= u32::MAX * u16::MAX) by (nonlinear_arith)
        requires
            range_meters <= u32::MAX,
            returns_per_line <= u16::MAX,
    ;
    let range: u64 = (range_meters as u64) * (returns_per_line as u64) / (returns_per_range as u64);
    if range > u32::MAX as u64 {
        return Err(FrameProblem::Broken);
    }
    let spoke = vstd::slice::slice_subrange(
        data,
        FRAME_HEADER_LENGTH,
        FRAME_HEADER_LENGTH + data_len as usize,
    );
    let coding = PixelCoding::Table(&pixel_to_blob.doppler);
    match process_spoke(&coding, returns_per_line as usize, spoke) {
        Some(pixels) => {
            let angle: u16 = ((azimuth as u32 + (spokes_per_revolution / 2) as u32) % (
            spokes_per_revolution as u32)) as u16;
            Ok(ScanLine { range: range as u32, angle, heading: None, pixels })
        },
        None => Err(FrameProblem::Broken),
    }
}

/// The length of a status report.
pub const STATUS_REPORT_LENGTH: usize = 260;

/// How many ranges a status report lists.
pub const RANGE_COUNT: usize = 20;

/// Where the list of ranges starts in a status report.
pub const RANGES_AT: usize = 148;

/// What a status report tells, apart from the values of controls.
#[derive(Debug)]
pub struct StatusReport {
    /// The state of the receiver from here on.
    pub state: ReceiverState,
    /// The distances of the ranges that the radar has, in meters.
    pub ranges: Vec<i32>,
    /// The number of the range in use.
    pub range_index: usize,
}

/// The ranges that a status report lists.
pub open spec fn listed_ranges(data: Seq<u8>) -> Seq<i32> {
    ranges_of(data, RANGES_AT as int, RANGE_COUNT as nat)
}

/// The number of the range that a status report says is in use.
pub open spec fn range_in_use(data: Seq<u8>) -> int {
    data[20] as int
}

/// Reads a status report. It is of use only when the model is known.
pub fn read_status_report(model_known: bool, data: &[u8]) -> (r: Option<StatusReport>)
    ensures
        r is Some == (model_known && data.len() >= STATUS_REPORT_LENGTH),
        r matches Some(report) ==> {
            &&& report.state == ReceiverState::StatusRequestReceived
            &&& report.ranges@ == listed_ranges(data@)
            &&& report.range_index == range_in_use(data@)
        },
{
    if !model_known || data.len() < STATUS_REPORT_LENGTH {
        return None;
    }
    Some(
        StatusReport {
            state: ReceiverState::StatusRequestReceived,
            ranges: range_distances(data, RANGES_AT, RANGE_COUNT),
            range_index: data[20] as usize,
        },
    )
}

/// Where the values of a mode start in a status report.
pub open spec fn mode_at(mode: int) -> int {
    22 + 8 * mode
}

/// The values of the controls that every mode has its own of. A mode that is not known has none.
pub open spec fn mode_settings(data: Seq<u8>) -> Seq<WireSetting> {
    let mode = data[21] as int;
    let at = mode_at(mode);
    if mode <= 3 {
        seq![
            plain(ControlId::Mode, mode),
            with_auto(ControlId::Gain, data[at + 1] as int, data[at] as int),
            with_auto(ControlId::ColorGain, data[at + 3] as int, data[at + 2] as int),
            with_auto(ControlId::Sea, data[at + 5] as int, data[at + 4] as int),
            with_enabled(ControlId::Rain, data[at + 7] as int, data[at + 6] as int),
        ]
    } else {
        Seq::empty()
    }
}

/// The values of controls that a status report holds, with the distance of its range.
pub open spec fn status_settings(data: Seq<u8>, range_meters: int) -> Seq<WireSetting> {
    seq![
        plain(ControlId::Power, power_of_status(data[4]).number()),
        plain(ControlId::Range, range_meters),
    ] + mode_settings(data) + seq![
        plain(ControlId::SeaClutterCurve, data[55] + 1),
        plain(ControlId::TargetExpansion, data[54] as int),
        plain(ControlId::InterferenceRejection, data[17] as int),
        plain(ControlId::BearingAlignment, signed16(le16(data, 14))),
        plain(ControlId::MainBangSuppression, data[59] as int),
        sector(ControlId::NoTransmitSector1, le16(data, 132), le16(data, 134), data[136] as int),
        sector(ControlId::NoTransmitSector2, le16(data, 140), le16(data, 142), data[144] as int),
    ]
}

/// Takes the values of controls out of a status report. `range_meters` is the distance of the range
/// whose number the report gives.
pub fn process_status_report(data: &[u8], range_meters: i32) -> (settings: Vec<WireSetting>)
    requires
        data.len() >= STATUS_REPORT_LENGTH,
    ensures
        settings@ == status_settings(data@, range_meters as int),
{
    let mut settings: Vec<WireSetting> = Vec::with_capacity(14);
    settings.push(set_value(ControlId::Power, read_power(data[4]).as_i64()));
    settings.push(set_value(ControlId::Range, range_meters as i64));
    let mode: u8 = data[21];
    if mode <= 3 {
        let at: usize = 22 + 8 * (mode as usize);
        settings.push(set_value(ControlId::Mode, mode as i64));
        settings.push(set_value_auto(ControlId::Gain, data[at + 1] as i64, data[at]));
        settings.push(set_value_auto(ControlId::ColorGain, data[at + 3] as i64, data[at + 2]));
        settings.push(set_value_auto(ControlId::Sea, data[at + 5] as i64, data[at + 4]));
        settings.push(set_value_enabled(ControlId::Rain, data[at + 7] as i64, data[at + 6]));
    }
    settings.push(set_value(ControlId::SeaClutterCurve, data[55] as i64 + 1));
    settings.push(set_value(ControlId::TargetExpansion, data[54] as i64));
    settings.push(set_value(ControlId::InterferenceRejection, data[17] as i64));
    settings.push(set_value(ControlId::BearingAlignment, read_i16_le(data, 14) as i64));
    settings.push(set_value(ControlId::MainBangSuppression, data[59] as i64));
    settings.push(
        set_sector(
            ControlId::NoTransmitSector1,
            read_u16_le(data, 132) as i64,
            read_u16_le(data, 134) as i64,
            data[136],
        ),
    );
    settings.push(
        set_sector(
            ControlId::NoTransmitSector2,
            read_u16_le(data, 140) as i64,
            read_u16_le(data, 142) as i64,
            data[144],
        ),
    );
    assert(settings@ =~= status_settings(data@, range_meters as int));
    settings
}

/// The length that an info report has at least.
pub const INFO_REPORT_LENGTH: usize = 17;

/// The serial number of the radar in an info report.
pub open spec fn serial_of(data: Seq<u8>) -> Seq<char> {
    info_text(data, 10, 7)
}

/// The serial number of the model in an info report.
pub open spec fn model_serial_of(data: Seq<u8>) -> Seq<char> {
    info_text(data, 4, 6)
}

/// Reads the serial numbers of the radar and of its model. Once the model is known the report is
/// not looked at any more.
pub fn process_info_report(model_known: bool, data: &[u8]) -> (r: Result<InfoReport, InfoProblem>)
    ensures
        match r {
            Ok(report) => !model_known && data.len() >= INFO_REPORT_LENGTH && report.serial_nr@
                == serial_of(data@) && report.model_serial@ == model_serial_of(data@),
            Err(InfoProblem::AlreadyKnown) => model_known,
            Err(InfoProblem::TooShort) => !model_known && data.len() < INFO_REPORT_LENGTH,
        },
{
    if model_known {
        return Err(InfoProblem::AlreadyKnown);
    }
    if data.len() < INFO_REPORT_LENGTH {
        return Err(InfoProblem::TooShort);
    }
    Ok(
        InfoReport {
            serial_nr: padded_text(vstd::slice::slice_subrange(data, 10, 17)),
            model_serial: padded_text(vstd::slice::slice_subrange(data, 4, 10)),
        },
    )
}

/// The Doppler setting that a report holds: on exactly when its status is 3.
pub open spec fn doppler_setting(data: Seq<u8>) -> WireSetting {
    plain(
        ControlId::Doppler,
        if data[4] == 3 {
            1
        } else {
            0
        },
    )
}

/// What a Doppler report tells: the setting, and whether moving targets are told apart.
pub open spec fn doppler_of(data: Seq<u8>) -> Option<(WireSetting, bool)> {
    if data.len() < 5 {
        None
    } else {
        Some((doppler_setting(data), data[4] == 3))
    }
}

/// Reads a Doppler report: the setting, and whether moving targets are told apart from now on. A report
/// without a status is dropped.
pub fn process_doppler_report(data: &[u8]) -> (r: Option<(WireSetting, bool)>)
    ensures
        r == doppler_of(data@),
{
    if data.len() < 5 {
        return None;
    }
    let doppler: i64 = if data[4] == 3 {
        1
    } else {
        0
    };
    Some((set_value(ControlId::Doppler, doppler), doppler > 0))
}

/// What a Quantum sends for no Doppler returns and no runs is shown as it is: a spoke of plain
/// bytes has one pixel per byte, up to the length of a line.
pub proof fn plain_frame_is_shown_bytewise(table: &[u8; 256], data: Seq<u8>, len: nat)
    requires
        forall|i: int|
            0 <= i < data.len() ==> data[i] != crate::raymarine::unpack::RUN_MARKER,
        data.len() <= len,
    ensures
        spoke_pixels(PixelCoding::Table(table), data, len) matches Some(pixels) && pixels
            == data.map_values(|b: u8| table@[b as int]),
{
    crate::raymarine::unpack::plain_data_unpacks_bytewise(PixelCoding::Table(table), data);
    let pixels = spoke_pixels(PixelCoding::Table(table), data, len)->0;
    assert(pixels =~= data.map_values(|b: u8| table@[b as int]));
}

} // verus!

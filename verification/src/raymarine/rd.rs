//! RD, HD and E series radars.
use vstd::prelude::*;

use crate::control_id::ControlId;
use crate::power::Power;
use crate::raymarine::report::{
    info_text, power_of_status, range_distances, ranges_of, read_power, InfoProblem, InfoReport,
    ReceiverState,
};
use crate::raymarine::unpack::{process_spoke, spoke_pixels, PixelCoding};
use crate::spoke::{lines_view, lines_view_push, ScanLine, ScanLineView};
use crate::setting::{
    plain, set_value, set_value_auto, set_value_enabled, with_auto, with_enabled, WireRange,
    WireSetting,
};
use crate::text::padded_text;
use crate::wire::{le16, le32, read_i16_le, read_u16_le, read_u32_le, signed16};

verus! {

/// Why a datagram with spokes is dropped.
#[derive(Clone, Copy, Debug, PartialEq, Eq, Structural)]
pub enum FrameProblem {
    /// The radar has not told everything about itself yet.
    NotReady,
    /// There is no room for a spoke.
    TooShort,
    /// The header is not that of spokes.
    BadHeader,
    /// The spokes come from another kind of radar.
    OtherRadar,
    /// The number of spokes is impossible.
    BadSpokeCount,
    /// The datagram ends within a spoke, or a spoke contradicts itself.
    Broken,
}

/// The spokes of a datagram.
#[derive(Debug)]
pub struct Frame {
    pub spokes: Vec<ScanLine>,
    /// How many spokes the header promised.
    pub announced: u32,
}

/// The length of the header of a datagram with spokes.
pub const FRAME_HEADER_LENGTH: usize = 32;

/// The length of the header of a spoke.
pub const SPOKE_HEADER_1_LENGTH: usize = 40;

/// The length of the optional second header of a spoke.
pub const SPOKE_HEADER_2_LENGTH: usize = 8;

/// The length of the header of the spoke data.
pub const SPOKE_DATA_LENGTH: usize = 12;

/// Why a datagram is dropped before its spokes are looked at.
pub open spec fn header_problem(state: ReceiverState, data: Seq<u8>) -> Option<FrameProblem> {
    if state != ReceiverState::StatusRequestReceived {
        Some(FrameProblem::NotReady)
    } else if data.len() < FRAME_HEADER_LENGTH + SPOKE_HEADER_1_LENGTH {
        Some(FrameProblem::TooShort)
    } else if le32(data, 0) != 0x00010003 || le32(data, 8) != 0x1c || le32(data, 24) != 1 {
        Some(FrameProblem::BadHeader)
    } else if le32(data, 28) == 0x400 {
        Some(FrameProblem::OtherRadar)
    } else if le32(data, 12) == 0 || le32(data, 12) > 360 {
        Some(FrameProblem::BadSpokeCount)
    } else {
        None
    }
}

/// What is found at an offset in a datagram.
pub enum Step {
    /// No further spoke.
    End,
    /// A spoke that is cut off or contradicts itself.
    Broken,
    /// A spoke, and the offset behind it.
    Line(ScanLineView, int),
}

/// How the pixels of the spoke at an offset are coded, and how many a line has.
pub open spec fn line_coding(data: Seq<u8>, at: int) -> Option<(PixelCoding<'static>, nat)> {
    if le32(data, at) != 1 || le32(data, at + 4) != 0x28 {
        None
    } else if le32(data, at + 12) == 1 && le32(data, at + 16) == 2 && le32(data, at + 20) == 1
        && le32(data, at + 24) == 1 && le32(data, at + 28) == 0x1f4 && le32(data, at + 36) == 1 {
        Some((PixelCoding::Nibbles, 512))
    } else if le32(data, at + 12) == 3 && le32(data, at + 16) == 2 && le32(data, at + 20) == 3
        && le32(data, at + 24) == 1 && le32(data, at + 28) == 0 && le32(data, at + 36) == 1 {
        Some((PixelCoding::Hd, 1024))
    } else {
        None
    }
}

/// The offset of the data header of the spoke at an offset: behind the second header, where there
/// is one.
pub open spec fn data_header_at(data: Seq<u8>, at: int) -> int {
    if le32(data, at + SPOKE_HEADER_1_LENGTH) == 2 {
        at + SPOKE_HEADER_1_LENGTH + SPOKE_HEADER_2_LENGTH
    } else {
        at + SPOKE_HEADER_1_LENGTH
    }
}

/// The direction of a spoke: the antenna looks back when the radar counts zero.
pub open spec fn line_angle(azimuth: int, spokes: int) -> int {
    (azimuth % 0x1_0000 + spokes / 2) % spokes
}

/// What is found at an offset in a datagram.
#[verifier::opaque]
pub open spec fn step_at(data: Seq<u8>, at: int, spokes: int, range: int) -> Step {
    if at >= data.len() - SPOKE_HEADER_1_LENGTH || line_coding(data, at) is None {
        Step::End
    } else if at + SPOKE_HEADER_1_LENGTH + SPOKE_HEADER_2_LENGTH > data.len() || data_header_at(
        data,
        at,
    ) + SPOKE_DATA_LENGTH > data.len() {
        Step::Broken
    } else {
        let (coding, len) = line_coding(data, at)->0;
        let header = data_header_at(data, at);
        let start = header + SPOKE_DATA_LENGTH;
        let length = le32(data, header + 4);
        let data_len = le32(data, header + 8);
        let end = if start + data_len > data.len() {
            data.len() as int
        } else {
            start + data_len
        };
        let pixels = spoke_pixels(coding, data.subrange(start, end), len);
        if le32(data, header) % 0x8000_0000 != 3 || length < data_len + 8 {
            Step::End
        } else if length < SPOKE_DATA_LENGTH || pixels is None {
            Step::Broken
        } else {
            Step::Line(
                ScanLineView {
                    range,
                    angle: line_angle(le32(data, at + 8), spokes),
                    heading: None,
                    pixels: pixels->0,
                },
                start + length - SPOKE_DATA_LENGTH,
            )
        }
    }
}

/// The spokes from an offset on, unless one of them is broken.
pub open spec fn lines_from(data: Seq<u8>, at: int, spokes: int, range: int) -> Option<
    Seq<ScanLineView>,
>
    decreases
            if at < data.len() {
                data.len() - at
            } else {
                0
            },
{
    match step_at(data, at, spokes, range) {
        Step::End => Some(Seq::empty()),
        Step::Broken => None,
        Step::Line(line, next) => if at < next && at < data.len() {
            join(seq![line], lines_from(data, next, spokes, range))
        } else {
            None
        },
    }
}

/// Lines in front of others that may be missing.
pub open spec fn join(front: Seq<ScanLineView>, rest: Option<Seq<ScanLineView>>) -> Option<
    Seq<ScanLineView>,
> {
    match rest {
        Some(rest) => Some(front + rest),
        None => None,
    }
}

proof fn join_twice(a: Seq<ScanLineView>, b: Seq<ScanLineView>, rest: Option<Seq<ScanLineView>>)
    ensures
        join(a, join(b, rest)) == join(a + b, rest),
{
    if let Some(rest) = rest {
        assert(a + (b + rest) =~= a + b + rest);
    }
}

/// A spoke and where the next one starts.
enum Found {
    End,
    Broken,
    Line(ScanLine, usize),
}

fn read_coding(data: &[u8], at: usize) -> (r: Option<(PixelCoding<'static>, usize)>)
    requires
        at + SPOKE_HEADER_1_LENGTH <= data.len(),
    ensures
        match r {
            Some((coding, len)) => line_coding(data@, at as int) == Some((coding, len as nat)),
            None => line_coding(data@, at as int) is None,
        },
{
    if read_u32_le(data, at) != 1 || read_u32_le(data, at + 4) != 0x28 {
        return None;
    }
    let fields = (
        read_u32_le(data, at + 12),
        read_u32_le(data, at + 16),
        read_u32_le(data, at + 20),
        read_u32_le(data, at + 24),
        read_u32_le(data, at + 28),
        read_u32_le(data, at + 36),
    );
    match fields {
        (1, 2, 1, 1, 0x01f4, 1) => Some((PixelCoding::Nibbles, 512)),
        (3, 2, 3, 1, 0, 1) => Some((PixelCoding::Hd, 1024)),
        _ => None,
    }
}

fn read_line(data: &[u8], at: usize, spokes: u16, range: u32) -> (r: Found)
    requires
        spokes > 0,
    ensures
        match r {
            Found::End => step_at(data@, at as int, spokes as int, range as int) is End,
            Found::Broken => step_at(data@, at as int, spokes as int, range as int) is Broken,
            Found::Line(line, next) => match step_at(
                data@,
                at as int,
                spokes as int,
                range as int,
            ) {
                Step::Line(view, after) => line@ == view && at < next <= data.len() && (next == after
                    || next == data.len() && after > data.len()),
                _ => false,
            },
        },
{
    proof {
        reveal(step_at);
    }
    if data.len() < SPOKE_HEADER_1_LENGTH || at >= data.len() - SPOKE_HEADER_1_LENGTH {
        return Found::End;
    }
    let (coding, len) = match read_coding(data, at) {
        Some(found) => found,
        None => {
            return Found::End;
        },
    };
    let second: usize = at + SPOKE_HEADER_1_LENGTH;
    if data.len() - second < SPOKE_HEADER_2_LENGTH {
        return Found::Broken;
    }
    let header: usize = if read_u32_le(data, second) == 2 {
        second + SPOKE_HEADER_2_LENGTH
    } else {
        second
    };
    if data.len() - header < SPOKE_DATA_LENGTH {
        return Found::Broken;
    }
    let length: u32 = read_u32_le(data, header + 4);
    let data_len: u32 = read_u32_le(data, header + 8);
    if read_u32_le(data, header) % 0x8000_0000 != 3 || (length as u64) < data_len as u64 + 8 {
        return Found::End;
    }
    let start: usize = header + SPOKE_DATA_LENGTH;
    let room: usize = data.len() - start;
    let end: usize = if data_len as u64 > room as u64 {
        data.len()
    } else {
        start + data_len as usize
    };
    if length < SPOKE_DATA_LENGTH as u32 {
        return Found::Broken;
    }
    let pixels = match process_spoke(&coding, len, vstd::slice::slice_subrange(data, start, end)) {
        Some(pixels) => pixels,
        None => {
            return Found::Broken;
        },
    };
    let azimuth: u32 = read_u32_le(data, at + 8);
    let angle: u16 = ((azimuth % 0x1_0000 + (spokes / 2) as u32) % (spokes as u32)) as u16;
    let advance: u32 = length - SPOKE_DATA_LENGTH as u32;
    let next: usize = if advance as u64 > room as u64 {
        data.len()
    } else {
        start + advance as usize
    };
    Found::Line(ScanLine { range, angle, heading: None, pixels }, next)
}

proof fn nothing_behind_the_end(data: Seq<u8>, at: int, spokes: int, range: int)
    requires
        at >= data.len(),
    ensures
        lines_from(data, at, spokes, range) == Some(Seq::<ScanLineView>::empty()),
{
    reveal(step_at);
}

/// The spokes of a datagram, unless one of them is broken. Their range is four times that of the picture.
pub open spec fn frame_lines(data: Seq<u8>, spokes: int, range_meters: int) -> Option<
    Seq<ScanLineView>,
> {
    lines_from(data, FRAME_HEADER_LENGTH as int, spokes, range_meters * 4)
}

/// Takes the spokes out of a datagram. Their range is four times that of the picture.
pub fn process_frame(
    state: ReceiverState,
    spokes_per_revolution: u16,
    range_meters: u32,
    data: &[u8],
) -> (r: Result<Frame, FrameProblem>)
    requires
        spokes_per_revolution > 0,
        range_meters <= u32::MAX / 4,
    ensures
        match r {
            Ok(frame) => header_problem(state, data@) is None && frame.announced == le32(data@, 12)
                && frame_lines(data@, spokes_per_revolution as int, range_meters as int) == Some(
                lines_view(frame.spokes@),
            ),
            Err(FrameProblem::Broken) => header_problem(state, data@) is None && frame_lines(
                data@,
                spokes_per_revolution as int,
                range_meters as int,
            ) is None,
            Err(problem) => header_problem(state, data@) == Some(problem),
        },
{
    if state != ReceiverState::StatusRequestReceived {
        return Err(FrameProblem::NotReady);
    }
    if data.len() < FRAME_HEADER_LENGTH + SPOKE_HEADER_1_LENGTH {
        return Err(FrameProblem::TooShort);
    }
    if read_u32_le(data, 0) != 0x00010003 || read_u32_le(data, 8) != 0x1c || read_u32_le(data, 24)
        != 1 {
        return Err(FrameProblem::BadHeader);
    }
    if read_u32_le(data, 28) == 0x400 {
        return Err(FrameProblem::OtherRadar);
    }
    let announced: u32 = read_u32_le(data, 12);
    if announced == 0 || announced > 360 {
        return Err(FrameProblem::BadSpokeCount);
    }
    let range: u32 = range_meters * 4;
    let mut spokes: Vec<ScanLine> = Vec::new();
    let mut at: usize = FRAME_HEADER_LENGTH;
    let ghost all = lines_from(data@, at as int, spokes_per_revolution as int, range as int);
    proof {
        assert(lines_view(spokes@) =~= Seq::<ScanLineView>::empty());
        if let Some(lines) = all {
            assert(Seq::<ScanLineView>::empty() + lines =~= lines);
        }
    }
    loop
        invariant
            spokes_per_revolution > 0,
            header_problem(state, data@) is None,
            range == range_meters * 4,
            all == lines_from(
                data@,
                FRAME_HEADER_LENGTH as int,
                spokes_per_revolution as int,
                range as int,
            ),
            at <= data.len(),
            all == join(
                lines_view(spokes@),
                lines_from(data@, at as int, spokes_per_revolution as int, range as int),
            ),
        ensures
            all == Some(lines_view(spokes@)),
        decreases data.len() - at,
    {
        match read_line(data, at, spokes_per_revolution, range) {
            Found::End => {
                assert(lines_view(spokes@) + Seq::<ScanLineView>::empty() =~= lines_view(spokes@));
                break;
            },
            Found::Broken => {
                return Err(FrameProblem::Broken);
            },
            Found::Line(line, next) => {
                proof {
                    let after = step_at(
                        data@,
                        at as int,
                        spokes_per_revolution as int,
                        range as int,
                    )->Line_1;
                    if after != next {
                        nothing_behind_the_end(
                            data@,
                            after,
                            spokes_per_revolution as int,
                            range as int,
                        );
                        nothing_behind_the_end(
                            data@,
                            next as int,
                            spokes_per_revolution as int,
                            range as int,
                        );
                    }
                    join_twice(
                        lines_view(spokes@),
                        seq![line@],
                        lines_from(data@, next as int, spokes_per_revolution as int, range as int),
                    );
                    lines_view_push(spokes@, line);
                    assert(lines_view(spokes@).push(line@) =~= lines_view(spokes@) + seq![line@]);
                }
                spokes.push(line);
                at = next;
            },
        }
    }
    Ok(Frame { spokes, announced })
}

/// Why a status or fixed report is dropped.
#[derive(Clone, Copy, Debug, PartialEq, Eq, Structural)]
pub enum ReportProblem {
    /// An earlier report is missing.
    NotReady,
    /// The report is cut off.
    TooShort,
    /// The report has another header.
    BadHeader,
}

/// The length of a status report.
pub const STATUS_REPORT_LENGTH: usize = 245;

/// Where an HD radar puts the number of its range.
pub const HD_RANGE_INDEX_AT: usize = 296;

/// How many ranges a status report lists.
pub const RANGE_COUNT: usize = 11;

/// Whether a report comes from an HD radar.
pub open spec fn is_hd(data: Seq<u8>) -> bool {
    le32(data, 0) == 0x018801
}

/// Why a status report is dropped.
pub open spec fn status_problem(state: ReceiverState, data: Seq<u8>) -> Option<ReportProblem> {
    if state.rank() < ReceiverState::FixedRequestReceived.rank() {
        Some(ReportProblem::NotReady)
    } else if data.len() < STATUS_REPORT_LENGTH {
        Some(ReportProblem::TooShort)
    } else if le32(data, 0) != 0x010001 && le32(data, 0) != 0x018801 {
        Some(ReportProblem::BadHeader)
    } else if is_hd(data) && data.len() <= HD_RANGE_INDEX_AT {
        Some(ReportProblem::TooShort)
    } else {
        None
    }
}

/// What a status report tells, apart from the values of controls.
#[derive(Debug)]
pub struct StatusReport {
    /// The state of the receiver from here on.
    pub state: ReceiverState,
    /// The distances of the ranges that the radar has, in meters.
    pub ranges: Vec<i32>,
    /// The number of the range in use.
    pub range_index: usize,
}

/// The ranges that a status report lists.
pub open spec fn listed_ranges(data: Seq<u8>) -> Seq<i32> {
    ranges_of(data, 4, RANGE_COUNT as nat)
}

/// The number of the range that a status report says is in use.
pub open spec fn range_in_use(data: Seq<u8>) -> int {
    if is_hd(data) {
        data[HD_RANGE_INDEX_AT as int] as int
    } else {
        data[193] as int
    }
}

/// Reads a status report.
pub fn read_status_report(state: ReceiverState, data: &[u8]) -> (r: Result<
    StatusReport,
    ReportProblem,
>)
    ensures
        match r {
            Ok(report) => {
                &&& status_problem(state, data@) is None
                &&& report.state == ReceiverState::StatusRequestReceived
                &&& report.ranges@ == listed_ranges(data@)
                &&& report.range_index == range_in_use(data@)
            },
            Err(problem) => status_problem(state, data@) == Some(problem),
        },
{
    if state.is_before(ReceiverState::FixedRequestReceived) {
        return Err(ReportProblem::NotReady);
    }
    if data.len() < STATUS_REPORT_LENGTH {
        return Err(ReportProblem::TooShort);
    }
    let id: u32 = read_u32_le(data, 0);
    if id != 0x010001 && id != 0x018801 {
        return Err(ReportProblem::BadHeader);
    }
    let hd = id == 0x018801;
    if hd && data.len() <= HD_RANGE_INDEX_AT {
        return Err(ReportProblem::TooShort);
    }
    let range_index: usize = if hd {
        data[HD_RANGE_INDEX_AT] as usize
    } else {
        data[193] as usize
    };
    Ok(
        StatusReport {
            state: ReceiverState::StatusRequestReceived,
            ranges: range_distances(data, 4, RANGE_COUNT),
            range_index,
        },
    )
}

/// The values of controls that a status report holds, with the distance of its range.
pub open spec fn status_settings(data: Seq<u8>, range_meters: int) -> Seq<WireSetting> {
    seq![
        plain(ControlId::Power, power_of_status(data[180]).number()),
        plain(ControlId::Range, range_meters),
        with_auto(ControlId::Gain, le32(data, 200), data[196] as int),
        with_auto(ControlId::Sea, data[208] as int, data[204] as int),
        with_enabled(ControlId::Rain, data[213] as int, data[209] as int),
        with_enabled(ControlId::Ftc, data[218] as int, data[214] as int),
        with_auto(ControlId::Tune, data[223] as int, data[219] as int),
        plain(ControlId::TargetExpansion, data[230] as int),
        plain(ControlId::InterferenceRejection, data[226] as int),
        plain(ControlId::BearingAlignment, signed16(le16(data, 224))),
        plain(ControlId::MainBangSuppression, data[244] as int),
        with_enabled(ControlId::WarmupTime, data[184] as int, data[184] as int),
        plain(ControlId::SignalStrength, data[185] as int),
    ]
}

/// Takes the values of controls out of a status report. `range_meters` is the distance of the range
/// whose number the report gives.
pub fn process_status_report(data: &[u8], range_meters: i32) -> (settings: Vec<WireSetting>)
    requires
        data.len() >= STATUS_REPORT_LENGTH,
    ensures
        settings@ == status_settings(data@, range_meters as int),
{
    let settings = vec![
        set_value(ControlId::Power, read_power(data[180]).as_i64()),
        set_value(ControlId::Range, range_meters as i64),
        set_value_auto(ControlId::Gain, read_u32_le(data, 200) as i64, data[196]),
        set_value_auto(ControlId::Sea, data[208] as i64, data[204]),
        set_value_enabled(ControlId::Rain, data[213] as i64, data[209]),
        set_value_enabled(ControlId::Ftc, data[218] as i64, data[214]),
        set_value_auto(ControlId::Tune, data[223] as i64, data[219]),
        set_value(ControlId::TargetExpansion, data[230] as i64),
        set_value(ControlId::InterferenceRejection, data[226] as i64),
        set_value(ControlId::BearingAlignment, read_i16_le(data, 224) as i64),
        set_value(ControlId::MainBangSuppression, data[244] as i64),
        set_value_enabled(ControlId::WarmupTime, data[184] as i64, data[184]),
        set_value(ControlId::SignalStrength, data[185] as i64),
    ];
    assert(settings@ =~= status_settings(data@, range_meters as int));
    settings
}

/// Where the known part of a fixed report starts.
pub const FIXED_REPORT_PREFIX: usize = 217;

/// The length of the known part of a fixed report.
pub const FIXED_REPORT_LENGTH: usize = 91;

/// What a fixed report tells.
#[derive(Debug)]
pub struct FixedReport {
    /// The state of the receiver from here on.
    pub state: ReceiverState,
    pub settings: Vec<WireSetting>,
    pub ranges: Vec<WireRange>,
}

/// Why a fixed report is dropped.
pub open spec fn fixed_problem(state: ReceiverState, data: Seq<u8>) -> Option<ReportProblem> {
    if state.rank() < ReceiverState::InfoRequestReceived.rank() {
        Some(ReportProblem::NotReady)
    } else if data.len() < FIXED_REPORT_PREFIX + FIXED_REPORT_LENGTH {
        Some(ReportProblem::TooShort)
    } else {
        None
    }
}

/// Which reports have been seen after a fixed report.
pub open spec fn state_after_fixed(state: ReceiverState) -> ReceiverState {
    if state == ReceiverState::InfoRequestReceived {
        ReceiverState::FixedRequestReceived
    } else {
        state
    }
}

/// The values of controls that a fixed report holds.
pub open spec fn fixed_settings(data: Seq<u8>) -> Seq<WireSetting> {
    seq![
        plain(ControlId::OperatingTime, le16(data, 217)),
        plain(ControlId::MagnetronCurrent, data[225] as int),
        plain(ControlId::SignalStrength, data[305] as int),
        plain(ControlId::DisplayTiming, data[267] as int),
    ]
}

/// The limits on the wire that a fixed report holds.
pub open spec fn fixed_ranges(data: Seq<u8>) -> Seq<WireRange> {
    seq![
        WireRange { id: ControlId::Gain, min: data[293], max: data[294] },
        WireRange { id: ControlId::Sea, min: data[295], max: data[296] },
        WireRange { id: ControlId::Rain, min: data[297], max: data[298] },
        WireRange { id: ControlId::Ftc, min: data[299], max: data[300] },
    ]
}

/// Reads a fixed report. Its values are of use only when the model is known.
pub fn process_fixed_report(state: ReceiverState, model_known: bool, data: &[u8]) -> (r: Result<
    FixedReport,
    ReportProblem,
>)
    ensures
        match r {
            Ok(report) => {
                &&& fixed_problem(state, data@) is None
                &&& report.state == state_after_fixed(state)
                &&& report.settings@ == if model_known {
                    fixed_settings(data@)
                } else {
                    Seq::empty()
                }
                &&& report.ranges@ == if model_known {
                    fixed_ranges(data@)
                } else {
                    Seq::empty()
                }
            },
            Err(problem) => fixed_problem(state, data@) == Some(problem),
        },
{
    if state.is_before(ReceiverState::InfoRequestReceived) {
        return Err(ReportProblem::NotReady);
    }
    if data.len() < FIXED_REPORT_PREFIX + FIXED_REPORT_LENGTH {
        return Err(ReportProblem::TooShort);
    }
    let state = if state == ReceiverState::InfoRequestReceived {
        ReceiverState::FixedRequestReceived
    } else {
        state
    };
    if !model_known {
        return Ok(FixedReport { state, settings: Vec::new(), ranges: Vec::new() });
    }
    let settings = vec![
        set_value(ControlId::OperatingTime, read_u16_le(data, 217) as i64),
        set_value(ControlId::MagnetronCurrent, data[225] as i64),
        set_value(ControlId::SignalStrength, data[305] as i64),
        set_value(ControlId::DisplayTiming, data[267] as i64),
    ];
    let ranges = vec![
        WireRange { id: ControlId::Gain, min: data[293], max: data[294] },
        WireRange { id: ControlId::Sea, min: data[295], max: data[296] },
        WireRange { id: ControlId::Rain, min: data[297], max: data[298] },
        WireRange { id: ControlId::Ftc, min: data[299], max: data[300] },
    ];
    assert(settings@ =~= fixed_settings(data@));
    assert(ranges@ =~= fixed_ranges(data@));
    Ok(FixedReport { state, settings, ranges })
}

/// The length that an info report has at least.
pub const INFO_REPORT_LENGTH: usize = 27;

/// The serial number of the radar in an info report.
pub open spec fn serial_of(data: Seq<u8>) -> Seq<char> {
    info_text(data, 4, 7)
}

/// The serial number of the model in an info report.
pub open spec fn model_serial_of(data: Seq<u8>) -> Seq<char> {
    info_text(data, 20, 7)
}

/// Reads the serial numbers of the radar and of its model. Once the model is known the report is
/// not looked at any more.
pub fn process_info_report(model_known: bool, data: &[u8]) -> (r: Result<InfoReport, InfoProblem>)
    ensures
        match r {
            Ok(report) => !model_known && data.len() >= INFO_REPORT_LENGTH && report.serial_nr@
                == serial_of(data@) && report.model_serial@ == model_serial_of(data@),
            Err(InfoProblem::AlreadyKnown) => model_known,
            Err(InfoProblem::TooShort) => !model_known && data.len() < INFO_REPORT_LENGTH,
        },
{
    if model_known {
        return Err(InfoProblem::AlreadyKnown);
    }
    if data.len() < INFO_REPORT_LENGTH {
        return Err(InfoProblem::TooShort);
    }
    Ok(
        InfoReport {
            serial_nr: padded_text(vstd::slice::slice_subrange(data, 4, 11)),
            model_serial: padded_text(vstd::slice::slice_subrange(data, 20, 27)),
        },
    )
}

/// Every spoke of a datagram points somewhere on the circle, has the range of the picture, and has
/// no more pixels than the longest line.
pub proof fn lines_are_well_formed(data: Seq<u8>, at: int, spokes: int, range: int)
    requires
        spokes > 0,
        lines_from(data, at, spokes, range) is Some,
    ensures
        forall|i: int|
            0 <= i < lines_from(data, at, spokes, range)->0.len() ==> {
                let line = #[trigger] lines_from(data, at, spokes, range)->0[i];
                0 <= line.angle < spokes && line.range == range && line.heading is None
                    && line.pixels.len() <= 1024
            },
    decreases
            if at < data.len() {
                data.len() - at
            } else {
                0
            },
{
    reveal(step_at);
    match step_at(data, at, spokes, range) {
        Step::Line(line, next) => {
            lines_are_well_formed(data, next, spokes, range);
            let rest = lines_from(data, next, spokes, range)->0;
            assert forall|i: int| 0 <= i < lines_from(data, at, spokes, range)->0.len() implies {
                let l = #[trigger] lines_from(data, at, spokes, range)->0[i];
                0 <= l.angle < spokes && l.range == range && l.heading is None && l.pixels.len()
                    <= 1024
            } by {
                if i > 0 {
                    assert((seq![line] + rest)[i] == rest[i - 1]);
                }
            }
        },
        _ => {},
    }
}

} // verus!

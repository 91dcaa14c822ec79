//! Spokes of Raymarine radars that pack their scan lines like a BR24 or 4G radar does.
use vstd::prelude::*;

use crate::brand::LocatorId;
use crate::control_id::ControlId;
use crate::error::RadarError;
use crate::legend::Legend;
use crate::navico::model::Model;
use crate::navico::spoke::{
    extract_heading_value, header_of, heading_value, is_spoke_header, line_at, line_count,
    process_spoke, spoke_pixels, validate_4g_header, PixelToBlob, SpokeHeader,
    FRAME_HEADER_LENGTH, RADAR_LINE_HEADER_LENGTH, RADAR_LINE_LENGTH,
};
use crate::power::DopplerMode;
use crate::radar::RadarInfo;
use crate::spoke::{lines_view, lines_view_push, ScanLine, ScanLineView};
use crate::text::{natural_text, parse_natural, same_text, within};
use crate::wire::{le16, le32, read_u16_le, read_u32_le};

verus! {

/// The number of spokes in a full datagram.
pub const SPOKES_PER_FRAME: usize = 32;

/// The pixel value of four bits of a byte: only moving targets have values of their own.
pub open spec fn plain_blob(legend: Legend, mode: DopplerMode, bits: int) -> int {
    if bits == 0x0f && mode != DopplerMode::Off {
        legend.doppler_approaching as int
    } else if bits == 0x0e && mode == DopplerMode::Both {
        legend.doppler_receding as int
    } else {
        bits
    }
}

/// The tables for a legend.
pub open spec fn is_plain_for(lookup: PixelToBlob, legend: Legend) -> bool {
    forall|mode: DopplerMode, b: int|
        0 <= b < 256 ==> (#[trigger] lookup.low(mode)[b]) == plain_blob(legend, mode, b % 16)
            && lookup.high(mode)[b] == plain_blob(legend, mode, b / 16)
}

/// Makes the tables from bytes of a spoke to pixel values.
pub fn pixel_to_blob(legend: &Legend) -> (lookup: PixelToBlob)
    ensures
        is_plain_for(lookup, *legend),
{
    let mut low_normal: [u8; 256] = [0; 256];
    let mut low_both: [u8; 256] = [0; 256];
    let mut low_approaching: [u8; 256] = [0; 256];
    let mut high_normal: [u8; 256] = [0; 256];
    let mut high_both: [u8; 256] = [0; 256];
    let mut high_approaching: [u8; 256] = [0; 256];
    let mut j: usize = 0;
    while j < 256
        invariant
            j <= 256,
            forall|b: int|
                0 <= b < j ==> #[trigger] low_normal@[b] == plain_blob(
                    *legend,
                    DopplerMode::Off,
                    b % 16,
                ),
            forall|b: int|
                0 <= b < j ==> #[trigger] low_both@[b] == plain_blob(
                    *legend,
                    DopplerMode::Both,
                    b % 16,
                ),
            forall|b: int|
                0 <= b < j ==> #[trigger] low_approaching@[b] == plain_blob(
                    *legend,
                    DopplerMode::Approaching,
                    b % 16,
                ),
            forall|b: int|
                0 <= b < j ==> #[trigger] high_normal@[b] == plain_blob(
                    *legend,
                    DopplerMode::Off,
                    b / 16,
                ),
            forall|b: int|
                0 <= b < j ==> #[trigger] high_both@[b] == plain_blob(
                    *legend,
                    DopplerMode::Both,
                    b / 16,
                ),
            forall|b: int|
                0 <= b < j ==> #[trigger] high_approaching@[b] == plain_blob(
                    *legend,
                    DopplerMode::Approaching,
                    b / 16,
                ),
        decreases 256 - j,
    {
        let low: u8 = (j as u8) % 16;
        let high: u8 = (j as u8) / 16;
        low_normal[j] = low;
        low_both[j] = match low {
            0x0f => legend.doppler_approaching,
            0x0e => legend.doppler_receding,
            _ => low,
        };
        low_approaching[j] = match low {
            0x0f => legend.doppler_approaching,
            _ => low,
        };
        high_normal[j] = high;
        high_both[j] = match high {
            0x0f => legend.doppler_approaching,
            0x0e => legend.doppler_receding,
            _ => high,
        };
        high_approaching[j] = match high {
            0x0f => legend.doppler_approaching,
            _ => high,
        };
        j = j + 1;
    }
    PixelToBlob { low_normal, low_both, low_approaching, high_normal, high_both, high_approaching }
}

/// What the header of a spoke tells. The older kind tells the range in plain meters.
pub open spec fn plain_header_of(locator_id: LocatorId, header: Seq<u8>) -> Option<SpokeHeader> {
    if locator_id != LocatorId::GenBR24 {
        header_of(Model::Gen4, header)
    } else if is_spoke_header(header) {
        Some(
            SpokeHeader {
                range: le32(header, 12) as u32,
                angle: (le16(header, 8) / 2) as u16,
                heading: heading_value(le16(header, 10)),
            },
        )
    } else {
        None
    }
}

/// Reads the header of a spoke of the older kind.
pub fn validate_br24_header(header: &[u8]) -> (r: Option<SpokeHeader>)
    requires
        header.len() == RADAR_LINE_HEADER_LENGTH,
    ensures
        r == plain_header_of(LocatorId::GenBR24, header@),
{
    if header[0] != RADAR_LINE_HEADER_LENGTH as u8 {
        return None;
    }
    if header[1] != 0x02 && header[1] != 0x12 {
        return None;
    }
    let heading: u16 = read_u16_le(header, 10);
    let angle: u16 = read_u16_le(header, 8) / 2;
    let range: u32 = read_u32_le(header, 12);
    Some(SpokeHeader { range, angle, heading: extract_heading_value(heading) })
}

/// Reads the header of a spoke. There are two kinds.
pub fn validate_header(locator_id: LocatorId, header: &[u8]) -> (r: Option<SpokeHeader>)
    requires
        locator_id == LocatorId::GenBR24 || locator_id == LocatorId::Gen3Plus,
        header.len() == RADAR_LINE_HEADER_LENGTH,
    ensures
        r == plain_header_of(locator_id, header@),
{
    if locator_id == LocatorId::GenBR24 {
        validate_br24_header(header)
    } else {
        validate_4g_header(header)
    }
}

/// What shows the spokes of a radar.
pub struct RaymarineDataReceiver {
    pub locator_id: LocatorId,
    pub doppler: DopplerMode,
    pub pixel_to_blob: PixelToBlob,
    pub legend: Legend,
    pub replay: bool,
}

/// What came out of a datagram.
#[derive(Debug)]
pub struct Received {
    pub lines: Vec<ScanLine>,
    /// One for a datagram that is not full or too long, and one for each header that makes no sense.
    pub broken_packets: usize,
    /// The angle fell from one line to the next.
    pub full_rotation: bool,
}

/// A message to the receiver.
#[derive(Debug)]
pub enum DataUpdate {
    Doppler(DopplerMode),
    Legend(Legend),
    /// A control and its new value.
    ControlValue(ControlId, String),
}

/// What is to be done with the trails that targets leave.
#[derive(Clone, Copy, Debug, PartialEq, Eq, Structural)]
pub enum TrailsAction {
    Nothing,
    Clear,
    /// Whether only moving targets leave trails.
    DopplerOnly(bool),
    /// How long trails are, as a number of the list of lengths.
    Length(u16),
    /// Whether trails stay where they are on the map.
    TrueMotion(bool),
}

/// The number that a text holds, or zero.
pub open spec fn text_number(s: Seq<char>) -> int {
    match within(natural_text(s), 0, u16::MAX as int) {
        Some(n) => n,
        None => 0,
    }
}

/// What a new control value does to the trails, where it is one of theirs.
pub open spec fn trails_action(id: ControlId, value: Seq<char>) -> Option<TrailsAction> {
    match id {
        ControlId::ClearTrails => Some(TrailsAction::Clear),
        ControlId::DopplerTrailsOnly => Some(TrailsAction::DopplerOnly(text_number(value) > 0)),
        ControlId::TargetTrails => Some(TrailsAction::Length(text_number(value) as u16)),
        ControlId::TrailsMotion => if value == "0"@ {
            Some(TrailsAction::TrueMotion(false))
        } else if value == "1"@ {
            Some(TrailsAction::TrueMotion(true))
        } else {
            None
        },
        _ => None,
    }
}

/// The number of spokes that are taken out of a datagram.
pub open spec fn taken_count(data: Seq<u8>) -> int {
    let count = line_count(data);
    if count > SPOKES_PER_FRAME {
        SPOKES_PER_FRAME as int
    } else {
        count
    }
}

/// Whether the angle falls from one line to the next.
pub open spec fn angle_falls(lines: Seq<ScanLineView>) -> bool {
    exists|i: int| 0 < i < lines.len() && (#[trigger] lines[i]).angle < lines[i - 1].angle
}

impl RaymarineDataReceiver {
    /// The tables are those of the legend, and the radar is of a kind whose headers are known.
    pub open spec fn well_formed(&self) -> bool {
        &&& is_plain_for(self.pixel_to_blob, self.legend)
        &&& self.locator_id == LocatorId::GenBR24 || self.locator_id == LocatorId::Gen3Plus
    }

    /// The spoke of a datagram with a given number, where its header makes sense.
    pub open spec fn line_of(&self, data: Seq<u8>, i: int) -> Option<ScanLineView> {
        let at = line_at(i);
        match plain_header_of(
            self.locator_id,
            data.subrange(at, at + RADAR_LINE_HEADER_LENGTH),
        ) {
            Some(header) => Some(
                ScanLineView {
                    range: header.range as int,
                    angle: header.angle as int,
                    heading: header.heading,
                    pixels: spoke_pixels(
                        self.pixel_to_blob,
                        self.doppler,
                        self.replay,
                        data.subrange(at + RADAR_LINE_HEADER_LENGTH, at + RADAR_LINE_LENGTH),
                    ),
                },
            ),
            None => None,
        }
    }

    /// The first spokes of a datagram, without those whose header makes no sense.
    pub open spec fn lines_below(&self, data: Seq<u8>, n: int) -> Seq<ScanLineView>
        decreases n,
    {
        if n <= 0 {
            Seq::empty()
        } else {
            match self.line_of(data, n - 1) {
                Some(line) => self.lines_below(data, n - 1).push(line),
                None => self.lines_below(data, n - 1),
            }
        }
    }

    /// A receiver for a radar, and whether only moving targets leave trails, where that is known.
    pub fn new(info: &RadarInfo, locator_id: LocatorId, replay: bool) -> (r: (
        RaymarineDataReceiver,
        Option<bool>,
    ))
        requires
            locator_id == LocatorId::GenBR24 || locator_id == LocatorId::Gen3Plus,
            info.controls.well_formed(),
        ensures
            r.0.well_formed(),
            r.0.locator_id == locator_id,
            r.0.doppler == DopplerMode::Off,
            r.0.replay == replay,
            r.0.legend.is_same(info.legend),
            r.1 == match info.controls.slot(ControlId::DopplerTrailsOnly) {
                Some(c) => match c.value {
                    Some(n) => Some(n.order > 0),
                    None => None,
                },
                None => None,
            },
    {
        let pixel_to_blob = pixel_to_blob(&info.legend);
        let doppler_only: Option<bool> = match info.controls.get(&ControlId::DopplerTrailsOnly) {
            Some(c) => match c.value {
                Some(n) => Some(n.order > 0),
                None => None,
            },
            None => None,
        };
        let receiver = RaymarineDataReceiver {
            locator_id,
            doppler: DopplerMode::Off,
            pixel_to_blob,
            legend: info.legend.copy(),
            replay,
        };
        (receiver, doppler_only)
    }

    /// Handles a message. The sender may be gone, which ends the receiver.
    pub fn handle_data_update(&mut self, r: Option<DataUpdate>) -> (action: Result<
        TrailsAction,
        RadarError,
    >)
        requires
            old(self).well_formed(),
        ensures
            final(self).well_formed(),
            final(self).locator_id == old(self).locator_id,
            final(self).replay == old(self).replay,
            final(self).doppler == match r {
                Some(DataUpdate::Doppler(mode)) => mode,
                _ => old(self).doppler,
            },
            final(self).legend == match r {
                Some(DataUpdate::Legend(legend)) => legend,
                _ => old(self).legend,
            },
            match r {
                Some(DataUpdate::ControlValue(id, value)) => match trails_action(id, value@) {
                    Some(a) => action == Ok::<TrailsAction, RadarError>(a),
                    None => action == Err::<TrailsAction, RadarError>(
                        RadarError::CannotSetControlId(id),
                    ),
                },
                Some(_) => action == Ok::<TrailsAction, RadarError>(TrailsAction::Nothing),
                None => action == Err::<TrailsAction, RadarError>(RadarError::Shutdown),
            },
            !(r matches Some(DataUpdate::Legend(_))) ==> final(self).pixel_to_blob == old(self).pixel_to_blob,
    {
        match r {
            Some(DataUpdate::Doppler(doppler)) => {
                self.doppler = doppler;
                Ok(TrailsAction::Nothing)
            },
            Some(DataUpdate::Legend(legend)) => {
                self.pixel_to_blob = pixel_to_blob(&legend);
                self.legend = legend;
                Ok(TrailsAction::Nothing)
            },
            Some(DataUpdate::ControlValue(id, value)) => match id {
                ControlId::ClearTrails => Ok(TrailsAction::Clear),
                ControlId::DopplerTrailsOnly => Ok(
                    TrailsAction::DopplerOnly(number_or_zero(&value) > 0),
                ),
                ControlId::TargetTrails => Ok(TrailsAction::Length(number_or_zero(&value))),
                ControlId::TrailsMotion => if same_text(&value, "0") {
                    Ok(TrailsAction::TrueMotion(false))
                } else if same_text(&value, "1") {
                    Ok(TrailsAction::TrueMotion(true))
                } else {
                    Err(RadarError::CannotSetControlId(id))
                },
                _ => Err(RadarError::CannotSetControlId(id)),
            },
            None => Err(RadarError::Shutdown),
        }
    }

    /// Takes the spokes out of a datagram: 32 of them at most. Those whose header makes no sense are
    /// left out. A datagram that is too short for a spoke is dropped.
    pub fn process_frame(&self, data: &[u8]) -> (r: Received)
        requires
            self.well_formed(),
        ensures
            lines_view(r.lines@) == self.lines_below(data@, taken_count(data@)),
            r.broken_packets == taken_count(data@) - r.lines@.len() + if line_count(data@) == 0
                || line_count(data@) == SPOKES_PER_FRAME {
                0int
            } else {
                1
            },
            r.full_rotation == angle_falls(lines_view(r.lines@)),
    {
        let mut lines: Vec<ScanLine> = Vec::new();
        assert(lines_view(lines@) =~= Seq::empty());
        if data.len() < FRAME_HEADER_LENGTH + RADAR_LINE_LENGTH {
            assert(line_count(data@) == 0);
            return Received { lines, broken_packets: 0, full_rotation: false };
        }
        let mut count: usize = (data.len() - FRAME_HEADER_LENGTH) / RADAR_LINE_LENGTH;
        let mut broken_packets: usize = 0;
        assert(count == line_count(data@));
        if count != SPOKES_PER_FRAME {
            broken_packets = 1;
            if count > SPOKES_PER_FRAME {
                count = SPOKES_PER_FRAME;
            }
        }
        let ghost short = broken_packets as int;
        let mut full_rotation = false;
        let mut prev_angle: u16 = 0;
        let mut i: usize = 0;
        let mut offset: usize = FRAME_HEADER_LENGTH;
        while i < count
            invariant
                self.well_formed(),
                i <= count <= SPOKES_PER_FRAME,
                count * RADAR_LINE_LENGTH + FRAME_HEADER_LENGTH <= data.len(),
                offset == line_at(i as int),
                lines_view(lines@) == self.lines_below(data@, i as int),
                0 <= short <= 1,
                broken_packets == short + i - lines@.len(),
                lines@.len() <= i,
                prev_angle == if lines@.len() == 0 {
                    0
                } else {
                    lines@.last().angle
                },
                full_rotation == angle_falls(lines_view(lines@)),
            decreases count - i,
        {
            let header = vstd::slice::slice_subrange(
                data,
                offset,
                offset + RADAR_LINE_HEADER_LENGTH,
            );
            let spoke = vstd::slice::slice_subrange(
                data,
                offset + RADAR_LINE_HEADER_LENGTH,
                offset + RADAR_LINE_LENGTH,
            );
            let ghost before = lines_view(lines@);
            match validate_header(self.locator_id, header) {
                Some(h) => {
                    let pixels = process_spoke(
                        &self.pixel_to_blob,
                        self.doppler,
                        self.replay,
                        spoke,
                    );
                    let line = ScanLine {
                        range: h.range,
                        angle: h.angle,
                        heading: h.heading,
                        pixels,
                    };
                    proof {
                        lines_view_push(lines@, line);
                    }
                    lines.push(line);
                    let falls = h.angle < prev_angle;
                    if falls {
                        full_rotation = true;
                    }
                    proof {
                        let after = lines_view(lines@);
                        let last = after.len() - 1;
                        assert(after[last].angle == h.angle);
                        if last > 0 {
                            assert(after[last - 1] == before[last - 1]);
                            assert(before[last - 1].angle == prev_angle);
                        }
                        if angle_falls(before) {
                            let at = choose|at: int|
                                0 < at < before.len() && (#[trigger] before[at]).angle < before[at
                                    - 1].angle;
                            assert(after[at].angle < after[at - 1].angle);
                        }
                        if angle_falls(after) {
                            let at = choose|at: int|
                                0 < at < after.len() && (#[trigger] after[at]).angle < after[at
                                    - 1].angle;
                            if at < last {
                                assert(before[at].angle < before[at - 1].angle);
                            }
                        }
                    }
                    prev_angle = h.angle;
                },
                None => {
                    broken_packets = broken_packets + 1;
                },
            }
            i = i + 1;
            offset = offset + RADAR_LINE_LENGTH;
        }
        Received { lines, broken_packets, full_rotation }
    }
}

/// The number that a text holds, or zero.
fn number_or_zero(s: &str) -> (n: u16)
    ensures
        n == text_number(s@),
{
    match parse_natural(s, u16::MAX as u64) {
        Some(n) => n as u16,
        None => 0,
    }
}

/// No more spokes come out of a datagram than it is allowed to hold.
pub proof fn frame_is_limited(receiver: RaymarineDataReceiver, data: Seq<u8>, n: int)
    requires
        0 <= n <= taken_count(data),
    ensures
        receiver.lines_below(data, n).len() <= n <= SPOKES_PER_FRAME,
    decreases n,
{
    if n > 0 {
        frame_is_limited(receiver, data, n - 1);
    }
}

/// Where moving targets are not told apart, the pixels are the bits that the radar sent.
pub proof fn plain_pixels_are_the_bits(
    receiver: RaymarineDataReceiver,
    spoke: Seq<u8>,
    i: int,
)
    requires
        receiver.well_formed(),
        receiver.doppler == DopplerMode::Off,
        !receiver.replay,
        0 <= i < spoke.len(),
    ensures
        ({
            let pixels = spoke_pixels(receiver.pixel_to_blob, receiver.doppler, false, spoke);
            spoke[i] == pixels[2 * i] + 16 * pixels[2 * i + 1]
        }),
{
    let b = spoke[i] as int;
    let pixels = spoke_pixels(receiver.pixel_to_blob, receiver.doppler, false, spoke);
    assert(pixels[2 * i] == receiver.pixel_to_blob.low(DopplerMode::Off)[b]);
    assert(pixels[2 * i + 1] == receiver.pixel_to_blob.high(DopplerMode::Off)[b]);
}

/// Where moving targets are told apart, the strongest pixels are shown as approaching targets and, if
/// receding ones are told apart too, the next as those. All others are the bits that the radar sent.
pub proof fn moving_targets_stand_out(
    lookup: PixelToBlob,
    legend: Legend,
    mode: DopplerMode,
    replay: bool,
    spoke: Seq<u8>,
    k: int,
)
    requires
        is_plain_for(lookup, legend),
        0 <= k < 2 * spoke.len(),
    ensures
        ({
            let plain = spoke_pixels(lookup, DopplerMode::Off, replay, spoke)[k];
            let shown = spoke_pixels(lookup, mode, replay, spoke)[k];
            &&& plain <= 15
            &&& plain == 15 && mode != DopplerMode::Off ==> shown == legend.doppler_approaching
            &&& plain == 14 && mode == DopplerMode::Both ==> shown == legend.doppler_receding
            &&& plain < 14 || mode == DopplerMode::Off || (plain == 14 && mode
                == DopplerMode::Approaching) ==> shown == plain
        }),
{
    let b = crate::navico::spoke::shown_byte(spoke, replay, k / 2);
    assert(0 <= b < 256);
    assert(lookup.low(DopplerMode::Off)[b] == plain_blob(legend, DopplerMode::Off, b % 16));
    assert(lookup.low(mode)[b] == plain_blob(legend, mode, b % 16));
}

/// The header of a spoke of the older kind tells the range in plain meters, in four bytes; otherwise both
/// kinds tell the same.
pub proof fn headers_tell_what_they_hold(header: Seq<u8>)
    requires
        header.len() == 24,
    ensures
        ({
            let older = plain_header_of(LocatorId::GenBR24, header);
            let newer = plain_header_of(LocatorId::Gen3Plus, header);
            &&& older is Some <==> header[0] == 24 && (header[1] == 2 || header[1] == 18)
            &&& newer is Some <==> older is Some
            &&& newer == header_of(Model::HALO, header)
            &&& older matches Some(h) ==> {
                &&& h.range == header[12] + 256 * header[13] + 65536 * header[14] + 16777216
                    * header[15]
                &&& 2 * h.angle <= header[8] + 256 * header[9] <= 2 * h.angle + 1
                &&& h.angle == newer->0.angle
                &&& h.heading == newer->0.heading
            }
        }),
{
}

/// A datagram holds one spoke after the other behind eight bytes, each of 536 bytes. Spokes whose header
/// is of no use are left out; of all others the line tells what its own header and its own bytes tell,
/// in the order of the datagram.
pub proof fn lines_come_in_order(receiver: RaymarineDataReceiver, data: Seq<u8>, n: int)
    requires
        0 <= n,
        8 + 536 * (n + 1) <= data.len(),
    ensures
        ({
            let before = receiver.lines_below(data, n);
            let after = receiver.lines_below(data, n + 1);
            let header = plain_header_of(
                receiver.locator_id,
                data.subrange(8 + 536 * n, 8 + 536 * n + 24),
            );
            &&& header is None ==> after == before
            &&& header matches Some(h) ==> {
                &&& after.len() == before.len() + 1
                &&& after.take(before.len() as int) == before
                &&& after.last().range == h.range
                &&& after.last().angle == h.angle
                &&& after.last().heading == h.heading
                &&& after.last().pixels == spoke_pixels(
                    receiver.pixel_to_blob,
                    receiver.doppler,
                    receiver.replay,
                    data.subrange(8 + 536 * n + 24, 8 + 536 * n + 536),
                )
            }
        }),
{
    let before = receiver.lines_below(data, n);
    let after = receiver.lines_below(data, n + 1);
    assert(line_at(n) == 8 + 536 * n);
    if after.len() > before.len() {
        assert(after.take(before.len() as int) =~= before);
    }
}

/// All whole spokes of a datagram are looked at, but no more than 32.
pub proof fn whole_spokes_are_taken(data: Seq<u8>)
    ensures
        data.len() < 8 + 536 * 32 ==> taken_count(data) == line_count(data),
        data.len() >= 8 + 536 * 32 ==> taken_count(data) == 32,
        data.len() >= 8 ==> 8 + 536 * line_count(data) <= data.len() < 8 + 536 * (line_count(data) + 1),
{
}

/// What new values of the controls of the trails do to the trails. Controls that are not theirs do
/// nothing.
pub proof fn trails_follow_their_controls(id: ControlId, n: nat)
    requires
        n <= u16::MAX,
    ensures
        trails_action(ControlId::TargetTrails, crate::text::decimal(n)) == Some(
            TrailsAction::Length(n as u16),
        ),
        trails_action(ControlId::DopplerTrailsOnly, crate::text::decimal(n)) == Some(
            TrailsAction::DopplerOnly(n > 0),
        ),
        trails_action(ControlId::TrailsMotion, "0"@) == Some(TrailsAction::TrueMotion(false)),
        trails_action(ControlId::TrailsMotion, "1"@) == Some(TrailsAction::TrueMotion(true)),
        trails_action(ControlId::ClearTrails, crate::text::decimal(n)) == Some(TrailsAction::Clear),
        id != ControlId::TargetTrails && id != ControlId::DopplerTrailsOnly && id
            != ControlId::TrailsMotion && id != ControlId::ClearTrails ==> trails_action(
            id,
            crate::text::decimal(n),
        ) is None,
{
    crate::text::decimal_is_read_back(n);
    reveal_strlit("0");
    reveal_strlit("1");
    assert("0"@[0] == '0' && "1"@[0] == '1');
}

/// A revolution ends where a spoke has a smaller angle than the one before it.
pub proof fn revolutions_end_where_the_angle_falls(lines: Seq<ScanLineView>, i: int)
    ensures
        0 <= i && i + 1 < lines.len() && lines[i + 1].angle < lines[i].angle ==> angle_falls(lines),
        (forall|a: int, b: int|
            0 <= a < b < lines.len() ==> (#[trigger] lines[a]).angle <= (#[trigger] lines[b]).angle)
            ==> !angle_falls(lines),
{
    if 0 <= i && i + 1 < lines.len() && lines[i + 1].angle < lines[i].angle {
        assert(lines[i + 1].angle < lines[(i + 1) - 1].angle);
    }
}

} // verus!

//! The spokes of Navico radars: scan lines of four bit pixels, two of them in a byte.
use vstd::prelude::*;

use crate::legend::Legend;
use crate::navico::model::{Model, RADAR_LINE_DATA_LENGTH};
use crate::power::DopplerMode;
use crate::spoke::{lines_view, lines_view_push, ScanLine, ScanLineView};
use crate::wire::{le16, le32, read_u16_le, read_u32_le};

verus! {

/// The bit that marks a heading as a true heading.
pub const HEADING_TRUE_FLAG: u16 = 0x4000;

/// The bits that hold the heading.
pub const HEADING_MASK: u16 = 0x0fff;

/// The length of the header of a datagram with spokes.
pub const FRAME_HEADER_LENGTH: usize = 8;

/// The length of the header of a spoke.
pub const RADAR_LINE_HEADER_LENGTH: usize = 24;

/// The length of a spoke with its header.
pub const RADAR_LINE_LENGTH: usize = 536;

/// The true heading that two bytes hold, where they hold one: the flag is set, and no other bits but
/// those of the heading are.
pub open spec fn heading_value(x: int) -> Option<u16> {
    if 0x4000 <= x < 0x5000 {
        Some((x - 0x4000) as u16)
    } else {
        None
    }
}

/// Whether a heading is a true heading.
pub fn is_heading_true(x: u16) -> (r: bool)
    ensures
        r == (x as int / 0x4000 % 2 == 1),
{
    assert(((x & 0x4000) != 0) == (x / 0x4000 % 2 == 1)) by (bit_vector);
    (x & HEADING_TRUE_FLAG) != 0
}

/// Whether a heading has no bits that mean nothing.
pub fn is_valid_heading_value(x: u16) -> (r: bool)
    ensures
        r == (x as int % 0x4000 < 0x1000 && (x as int) < 0x8000),
{
    assert(((x & !(0x4000u16 | 0x0fffu16)) == 0) == (x % 0x4000 < 0x1000 && x < 0x8000))
        by (bit_vector);
    (x & !(HEADING_TRUE_FLAG | HEADING_MASK)) == 0
}

/// The true heading that two bytes hold, where they hold one.
pub fn extract_heading_value(x: u16) -> (r: Option<u16>)
    ensures
        r == heading_value(x as int),
{
    if is_valid_heading_value(x) && is_heading_true(x) {
        assert(0x4000 <= x < 0x5000 ==> x & 0x0fff == x - 0x4000) by (bit_vector);
        Some(x & HEADING_MASK)
    } else {
        None
    }
}

/// What the header of a spoke tells: the range in meters, the angle in spokes, and the heading.
#[derive(Clone, Copy, Debug, PartialEq, Eq, Structural)]
pub struct SpokeHeader {
    pub range: u32,
    pub angle: u16,
    pub heading: Option<u16>,
}

/// Whether the header of a spoke has its proper length and a known status.
pub open spec fn is_spoke_header(header: Seq<u8>) -> bool {
    &&& header[0] == RADAR_LINE_HEADER_LENGTH
    &&& header[1] == 0x02 || header[1] == 0x12
}

/// The range that the header of a spoke of a 4G or later radar tells.
pub open spec fn range_4g(large: int, small: int) -> int {
    if large == 0x80 {
        if small == 0xffff {
            0
        } else {
            small / 4
        }
    } else {
        large * small / 512
    }
}

/// The range that the header of a spoke of a BR24 or 3G radar tells: ten meters for every step,
/// divided by 1.414.
pub open spec fn range_br24(raw: int) -> int {
    raw % 0x100_0000 * 5000 / 707
}

/// What the header of a spoke of a model tells.
pub open spec fn header_of(model: Model, header: Seq<u8>) -> Option<SpokeHeader> {
    if is_spoke_header(header) {
        Some(
            SpokeHeader {
                range: match model {
                    Model::BR24 | Model::Gen3 => range_br24(le32(header, 12)),
                    _ => range_4g(le16(header, 6), le16(header, 12)),
                } as u32,
                angle: (le16(header, 8) / 2) as u16,
                heading: heading_value(le16(header, 10)),
            },
        )
    } else {
        None
    }
}

/// Reads the header of a spoke. Which model sent it decides where the range is.
pub fn validate_header(model: Model, header: &[u8]) -> (r: Option<SpokeHeader>)
    requires
        header.len() == RADAR_LINE_HEADER_LENGTH,
    ensures
        r == header_of(model, header@),
{
    match model {
        Model::BR24 | Model::Gen3 => validate_br24_header(header),
        _ => validate_4g_header(header),
    }
}

/// Reads the header of a spoke of a 4G or later radar.
pub fn validate_4g_header(header: &[u8]) -> (r: Option<SpokeHeader>)
    requires
        header.len() == RADAR_LINE_HEADER_LENGTH,
    ensures
        r == header_of(Model::HALO, header@),
        r == header_of(Model::Gen4, header@),
        r == header_of(Model::HaloOrG4, header@),
        r == header_of(Model::Unknown, header@),
{
    if header[0] != RADAR_LINE_HEADER_LENGTH as u8 {
        return None;
    }
    if header[1] != 0x02 && header[1] != 0x12 {
        return None;
    }
    let heading: u16 = read_u16_le(header, 10);
    let angle: u16 = read_u16_le(header, 8) / 2;
    let large_range: u16 = read_u16_le(header, 6);
    let small_range: u16 = read_u16_le(header, 12);
    assert(0 <= large_range * small_range <= 0xffff * 0xffff) by (nonlinear_arith)
        requires
            0 <= large_range <= 0xffff,
            0 <= small_range <= 0xffff,
    ;
    let range: u32 = if large_range == 0x80 {
        if small_range == 0xffff {
            0
        } else {
            (small_range as u32) / 4
        }
    } else {
        ((large_range as u32) * (small_range as u32)) / 512
    };
    Some(SpokeHeader { range, angle, heading: extract_heading_value(heading) })
}

/// Reads the header of a spoke of a BR24 or 3G radar.
pub fn validate_br24_header(header: &[u8]) -> (r: Option<SpokeHeader>)
    requires
        header.len() == RADAR_LINE_HEADER_LENGTH,
    ensures
        r == header_of(Model::BR24, header@),
        r == header_of(Model::Gen3, header@),
{
    if header[0] != RADAR_LINE_HEADER_LENGTH as u8 {
        return None;
    }
    if header[1] != 0x02 && header[1] != 0x12 {
        return None;
    }
    let heading: u16 = read_u16_le(header, 10);
    let angle: u16 = read_u16_le(header, 8) / 2;
    let raw: u64 = (read_u32_le(header, 12) % 0x100_0000) as u64;
    let range: u64 = raw * 5000 / 707;
    Some(SpokeHeader { range: range as u32, angle, heading: extract_heading_value(heading) })
}

/// The pixel values that the two pixels of a byte are shown with, by the Doppler mode.
pub struct PixelToBlob {
    pub low_normal: [u8; 256],
    pub low_both: [u8; 256],
    pub low_approaching: [u8; 256],
    pub high_normal: [u8; 256],
    pub high_both: [u8; 256],
    pub high_approaching: [u8; 256],
}

/// The pixel value of the lower four bits of a byte.
pub open spec fn low_blob(legend: Legend, mode: DopplerMode, b: int) -> int {
    let low = b % 16;
    match mode {
        DopplerMode::Off => low,
        DopplerMode::Both => if low == 0x0f {
            legend.doppler_approaching as int
        } else if low == 0x0e {
            legend.doppler_receding as int
        } else if low >= 0x08 {
            low + 2
        } else {
            low + 1
        },
        DopplerMode::Approaching => if low == 0x0f {
            legend.doppler_approaching as int
        } else {
            low + 1
        },
    }
}

/// The pixel value of the upper four bits of a byte.
pub open spec fn high_blob(legend: Legend, mode: DopplerMode, b: int) -> int {
    let low = b % 16;
    let high = b / 16;
    match mode {
        DopplerMode::Off => high,
        DopplerMode::Both => if high == 0x0f {
            legend.doppler_approaching as int
        } else if high == 0x0e {
            legend.doppler_receding as int
        } else if high >= 0x08 {
            low + 2
        } else {
            high + 1
        },
        DopplerMode::Approaching => if high == 0x0f {
            legend.doppler_approaching as int
        } else {
            high + 1
        },
    }
}

impl PixelToBlob {
    /// The table for the lower four bits.
    pub open spec fn low(&self, mode: DopplerMode) -> Seq<u8> {
        match mode {
            DopplerMode::Off => self.low_normal@,
            DopplerMode::Both => self.low_both@,
            DopplerMode::Approaching => self.low_approaching@,
        }
    }

    /// The table for the upper four bits.
    pub open spec fn high(&self, mode: DopplerMode) -> Seq<u8> {
        match mode {
            DopplerMode::Off => self.high_normal@,
            DopplerMode::Both => self.high_both@,
            DopplerMode::Approaching => self.high_approaching@,
        }
    }

    /// The tables for a legend.
    pub open spec fn is_for(&self, legend: Legend) -> bool {
        forall|mode: DopplerMode, b: int|
            0 <= b < 256 ==> (#[trigger] self.low(mode)[b]) == low_blob(legend, mode, b)
                && self.high(mode)[b] == high_blob(legend, mode, b)
    }
}

/// Makes the tables from bytes of a spoke to pixel values.
pub fn pixel_to_blob(legend: &Legend) -> (lookup: PixelToBlob)
    ensures
        lookup.is_for(*legend),
{
    let mut low_normal: [u8; 256] = [0; 256];
    let mut low_both: [u8; 256] = [0; 256];
    let mut low_approaching: [u8; 256] = [0; 256];
    let mut high_normal: [u8; 256] = [0; 256];
    let mut high_both: [u8; 256] = [0; 256];
    let mut high_approaching: [u8; 256] = [0; 256];
    let mut j: usize = 0;
    while j < 256
        invariant
            j <= 256,
            forall|b: int|
                0 <= b < j ==> #[trigger] low_normal@[b] == low_blob(*legend, DopplerMode::Off, b),
            forall|b: int|
                0 <= b < j ==> #[trigger] low_both@[b] == low_blob(*legend, DopplerMode::Both, b),
            forall|b: int|
                0 <= b < j ==> #[trigger] low_approaching@[b] == low_blob(
                    *legend,
                    DopplerMode::Approaching,
                    b,
                ),
            forall|b: int|
                0 <= b < j ==> #[trigger] high_normal@[b] == high_blob(
                    *legend,
                    DopplerMode::Off,
                    b,
                ),
            forall|b: int|
                0 <= b < j ==> #[trigger] high_both@[b] == high_blob(*legend, DopplerMode::Both, b),
            forall|b: int|
                0 <= b < j ==> #[trigger] high_approaching@[b] == high_blob(
                    *legend,
                    DopplerMode::Approaching,
                    b,
                ),
        decreases 256 - j,
    {
        let low: u8 = (j as u8) % 16;
        let high: u8 = (j as u8) / 16;
        low_normal[j] = low;
        low_both[j] = match low {
            0x0f => legend.doppler_approaching,
            0x0e => legend.doppler_receding,
            0x08..=0x0d => low + 2,
            _ => low + 1,
        };
        low_approaching[j] = match low {
            0x0f => legend.doppler_approaching,
            _ => low + 1,
        };
        high_normal[j] = high;
        high_both[j] = match high {
            0x0f => legend.doppler_approaching,
            0x0e => legend.doppler_receding,
            0x08..=0x0d => low + 2,
            _ => high + 1,
        };
        high_approaching[j] = match high {
            0x0f => legend.doppler_approaching,
            _ => high + 1,
        };
        j = j + 1;
    }
    PixelToBlob { low_normal, low_both, low_approaching, high_normal, high_both, high_approaching }
}

/// The byte whose pixels are shown at the end of a spoke: while recorded data is replayed the last
/// byte is replaced by a full one, which makes a circle at the outer edge.
pub open spec fn shown_byte(spoke: Seq<u8>, replay: bool, i: int) -> int {
    if replay && i == spoke.len() - 1 {
        0xff
    } else {
        spoke[i] as int
    }
}

/// The pixels of a spoke: first those of the lower, then those of the upper bits of each byte.
pub open spec fn spoke_pixels(
    lookup: PixelToBlob,
    mode: DopplerMode,
    replay: bool,
    spoke: Seq<u8>,
) -> Seq<u8> {
    Seq::new(
        2 * spoke.len(),
        |i: int|
            if i % 2 == 0 {
                lookup.low(mode)[shown_byte(spoke, replay, i / 2)]
            } else {
                lookup.high(mode)[shown_byte(spoke, replay, i / 2)]
            },
    )
}

/// Unpacks the pixels of a spoke.
pub fn process_spoke(lookup: &PixelToBlob, mode: DopplerMode, replay: bool, spoke: &[u8]) -> (r: Vec<
    u8,
>)
    requires
        spoke.len() <= RADAR_LINE_DATA_LENGTH,
    ensures
        r@ == spoke_pixels(*lookup, mode, replay, spoke@),
{
    let low = match mode {
        DopplerMode::Off => &lookup.low_normal,
        DopplerMode::Both => &lookup.low_both,
        DopplerMode::Approaching => &lookup.low_approaching,
    };
    let high = match mode {
        DopplerMode::Off => &lookup.high_normal,
        DopplerMode::Both => &lookup.high_both,
        DopplerMode::Approaching => &lookup.high_approaching,
    };
    let mut pixels: Vec<u8> = Vec::with_capacity(2 * spoke.len());
    let mut i: usize = 0;
    while i < spoke.len()
        invariant
            i <= spoke.len() <= RADAR_LINE_DATA_LENGTH,
            low@ == lookup.low(mode),
            high@ == lookup.high(mode),
            pixels@ == spoke_pixels(*lookup, mode, replay, spoke@).take(2 * i),
        decreases spoke.len() - i,
    {
        let pixel: usize = if replay && i == spoke.len() - 1 {
            0xff
        } else {
            spoke[i] as usize
        };
        pixels.push(low[pixel]);
        pixels.push(high[pixel]);
        i = i + 1;
        proof {
            let all = spoke_pixels(*lookup, mode, replay, spoke@);
            assert(all[2 * i - 2] == low@[pixel as int]);
            assert(all[2 * i - 1] == high@[pixel as int]);
            assert(pixels@ =~= all.take(2 * i));
        }
    }
    assert(spoke_pixels(*lookup, mode, replay, spoke@).take(2 * i) =~= spoke_pixels(
        *lookup,
        mode,
        replay,
        spoke@,
    ));
    pixels
}

/// Where a spoke starts in a datagram.
pub open spec fn line_at(i: int) -> int {
    FRAME_HEADER_LENGTH + i * RADAR_LINE_LENGTH
}

/// The number of whole spokes in a datagram.
pub open spec fn line_count(data: Seq<u8>) -> int {
    if data.len() < FRAME_HEADER_LENGTH {
        0
    } else {
        (data.len() - FRAME_HEADER_LENGTH) / (RADAR_LINE_LENGTH as int)
    }
}

/// The spoke of a datagram with a given number, where its header makes sense.
pub open spec fn line_of(
    model: Model,
    lookup: PixelToBlob,
    mode: DopplerMode,
    replay: bool,
    data: Seq<u8>,
    i: int,
) -> Option<ScanLineView> {
    let at = line_at(i);
    match header_of(model, data.subrange(at, at + RADAR_LINE_HEADER_LENGTH)) {
        Some(header) => Some(
            ScanLineView {
                range: header.range as int,
                angle: header.angle as int,
                heading: header.heading,
                pixels: spoke_pixels(
                    lookup,
                    mode,
                    replay,
                    data.subrange(at + RADAR_LINE_HEADER_LENGTH, at + RADAR_LINE_LENGTH),
                ),
            },
        ),
        None => None,
    }
}

/// The first spokes of a datagram, without those whose header makes no sense.
pub open spec fn lines_below(
    model: Model,
    lookup: PixelToBlob,
    mode: DopplerMode,
    replay: bool,
    data: Seq<u8>,
    n: int,
) -> Seq<ScanLineView>
    decreases n,
{
    if n <= 0 {
        Seq::empty()
    } else {
        let before = lines_below(model, lookup, mode, replay, data, n - 1);
        match line_of(model, lookup, mode, replay, data, n - 1) {
            Some(line) => before.push(line),
            None => before,
        }
    }
}

/// Takes all spokes out of a datagram. Those whose header makes no sense are left out, and so is
/// what is left at the end.
pub fn process_frame(
    model: Model,
    lookup: &PixelToBlob,
    mode: DopplerMode,
    replay: bool,
    data: &[u8],
) -> (lines: Vec<ScanLine>)
    ensures
        lines_view(lines@) == lines_below(model, *lookup, mode, replay, data@, line_count(data@)),
{
    let mut lines: Vec<ScanLine> = Vec::new();
    assert(lines_view(lines@) =~= Seq::empty());
    if data.len() < FRAME_HEADER_LENGTH + RADAR_LINE_LENGTH {
        assert(line_count(data@) == 0);
        return lines;
    }
    let count: usize = (data.len() - FRAME_HEADER_LENGTH) / RADAR_LINE_LENGTH;
    let mut i: usize = 0;
    let mut offset: usize = FRAME_HEADER_LENGTH;
    while i < count
        invariant
            i <= count,
            count == line_count(data@),
            count * RADAR_LINE_LENGTH + FRAME_HEADER_LENGTH <= data.len(),
            offset == line_at(i as int),
            lines_view(lines@) == lines_below(model, *lookup, mode, replay, data@, i as int),
        decreases count - i,
    {
        let header = vstd::slice::slice_subrange(data, offset, offset + RADAR_LINE_HEADER_LENGTH);
        let spoke = vstd::slice::slice_subrange(
            data,
            offset + RADAR_LINE_HEADER_LENGTH,
            offset + RADAR_LINE_LENGTH,
        );
        match validate_header(model, header) {
            Some(h) => {
                let pixels = process_spoke(lookup, mode, replay, spoke);
                let line = ScanLine { range: h.range, angle: h.angle, heading: h.heading, pixels };
                proof {
                    lines_view_push(lines@, line);
                }
                lines.push(line);
            },
            None => {},
        }
        i = i + 1;
        offset = offset + RADAR_LINE_LENGTH;
    }
    lines
}

/// Every spoke that comes out of a datagram has as many pixels as a spoke of the radar.
pub proof fn lines_have_full_length(
    model: Model,
    lookup: PixelToBlob,
    mode: DopplerMode,
    replay: bool,
    data: Seq<u8>,
    n: int,
    i: int,
)
    requires
        n <= line_count(data),
        0 <= i < lines_below(model, lookup, mode, replay, data, n).len(),
    ensures
        lines_below(model, lookup, mode, replay, data, n)[i].pixels.len()
            == crate::navico::model::NAVICO_SPOKE_LEN,
        n > 0,
    decreases n,
{
    let before = lines_below(model, lookup, mode, replay, data, n - 1);
    if i < before.len() {
        lines_have_full_length(model, lookup, mode, replay, data, n - 1, i);
    }
}

/// A datagram yields at most one line for each of its spokes.
pub proof fn no_line_is_made_up(
    model: Model,
    lookup: PixelToBlob,
    mode: DopplerMode,
    replay: bool,
    data: Seq<u8>,
    n: int,
)
    requires
        0 <= n,
    ensures
        lines_below(model, lookup, mode, replay, data, n).len() <= n,
    decreases n,
{
    if n > 0 {
        no_line_is_made_up(model, lookup, mode, replay, data, n - 1);
    }
}

/// With Doppler off unpacking loses nothing: the two pixels of a byte are its lower and its upper four
/// bits. Only the last byte of a spoke is replaced while recorded data is replayed.
pub proof fn unpacking_loses_nothing(
    lookup: PixelToBlob,
    legend: Legend,
    replay: bool,
    spoke: Seq<u8>,
    i: int,
)
    requires
        lookup.is_for(legend),
        0 <= i < spoke.len(),
        !replay || i < spoke.len() - 1,
    ensures
        ({
            let pixels = spoke_pixels(lookup, DopplerMode::Off, replay, spoke);
            &&& pixels.len() == 2 * spoke.len()
            &&& pixels[2 * i] < 16
            &&& pixels[2 * i + 1] < 16
            &&& pixels[2 * i] + 16 * pixels[2 * i + 1] == spoke[i]
        }),
{
    let pixels = spoke_pixels(lookup, DopplerMode::Off, replay, spoke);
    let b = spoke[i] as int;
    assert(pixels[2 * i] == lookup.low(DopplerMode::Off)[b]);
    assert(pixels[2 * i + 1] == lookup.high(DopplerMode::Off)[b]);
}

/// With Doppler off two spokes give the same pixels only if they are the same.
pub proof fn spokes_are_told_apart(lookup: PixelToBlob, legend: Legend, a: Seq<u8>, b: Seq<u8>)
    requires
        lookup.is_for(legend),
        spoke_pixels(lookup, DopplerMode::Off, false, a) == spoke_pixels(
            lookup,
            DopplerMode::Off,
            false,
            b,
        ),
    ensures
        a == b,
{
    let pixels = spoke_pixels(lookup, DopplerMode::Off, false, a);
    assert(pixels.len() == 2 * a.len() && pixels.len() == 2 * b.len());
    assert forall|i: int| 0 <= i < a.len() implies a[i] == b[i] by {
        unpacking_loses_nothing(lookup, legend, false, a, i);
        unpacking_loses_nothing(lookup, legend, false, b, i);
    }
    assert(a =~= b);
}

/// With approaching targets told apart, the strongest pixels are shown as such, and all others one
/// step stronger than with Doppler off.
pub proof fn approaching_targets_stand_out(
    lookup: PixelToBlob,
    legend: Legend,
    replay: bool,
    spoke: Seq<u8>,
    k: int,
)
    requires
        lookup.is_for(legend),
        0 <= k < 2 * spoke.len(),
    ensures
        ({
            let plain = spoke_pixels(lookup, DopplerMode::Off, replay, spoke)[k];
            let shown = spoke_pixels(lookup, DopplerMode::Approaching, replay, spoke)[k];
            &&& plain == 15 ==> shown == legend.doppler_approaching
            &&& plain < 15 ==> shown == plain + 1
            &&& plain <= 15
        }),
{
    let b = shown_byte(spoke, replay, k / 2);
    assert(0 <= b < 256);
    assert(lookup.low(DopplerMode::Off)[b] == low_blob(legend, DopplerMode::Off, b));
    assert(lookup.low(DopplerMode::Approaching)[b] == low_blob(legend, DopplerMode::Approaching, b));
}

/// With approaching and receding targets told apart, the strongest pixels are shown as approaching and
/// the next as receding. Weak pixels are one step stronger than with Doppler off; those of medium
/// strength are two steps stronger than the first pixel of their byte.
pub proof fn moving_targets_stand_out(
    lookup: PixelToBlob,
    legend: Legend,
    replay: bool,
    spoke: Seq<u8>,
    k: int,
)
    requires
        lookup.is_for(legend),
        0 <= k < 2 * spoke.len(),
    ensures
        ({
            let all = spoke_pixels(lookup, DopplerMode::Off, replay, spoke);
            let plain = all[k];
            let shown = spoke_pixels(lookup, DopplerMode::Both, replay, spoke)[k];
            &&& plain == 15 ==> shown == legend.doppler_approaching
            &&& plain == 14 ==> shown == legend.doppler_receding
            &&& 8 <= plain < 14 ==> shown == all[k - k % 2] + 2
            &&& plain < 8 ==> shown == plain + 1
        }),
{
    let b = shown_byte(spoke, replay, k / 2);
    assert(0 <= b < 256);
    assert(lookup.low(DopplerMode::Off)[b] == low_blob(legend, DopplerMode::Off, b));
    assert(lookup.low(DopplerMode::Both)[b] == low_blob(legend, DopplerMode::Both, b));
    let all = spoke_pixels(lookup, DopplerMode::Off, replay, spoke);
    assert((k - k % 2) / 2 == k / 2);
    assert(all[k - k % 2] == lookup.low(DopplerMode::Off)[b]);
}

/// While recorded data is replayed the last two pixels are the strongest there are, and all others are
/// as they would be otherwise.
pub proof fn replay_draws_a_circle(
    lookup: PixelToBlob,
    legend: Legend,
    mode: DopplerMode,
    spoke: Seq<u8>,
)
    requires
        lookup.is_for(legend),
        spoke.len() > 0,
    ensures
        ({
            let replayed = spoke_pixels(lookup, mode, true, spoke);
            let live = spoke_pixels(lookup, mode, false, spoke);
            let strongest = if mode == DopplerMode::Off {
                15u8
            } else {
                legend.doppler_approaching
            };
            &&& replayed.len() == live.len() == 2 * spoke.len()
            &&& replayed[replayed.len() - 1] == strongest
            &&& replayed[replayed.len() - 2] == strongest
            &&& forall|k: int| 0 <= k < live.len() - 2 ==> #[trigger] replayed[k] == live[k]
        }),
{
    let replayed = spoke_pixels(lookup, mode, true, spoke);
    let n = 2 * spoke.len() as int;
    assert(shown_byte(spoke, true, (n - 1) / 2) == 255);
    assert(shown_byte(spoke, true, (n - 2) / 2) == 255);
    assert(lookup.low(mode)[255] == low_blob(legend, mode, 255));
    assert(replayed[n - 1] == lookup.high(mode)[255]);
    assert(replayed[n - 2] == lookup.low(mode)[255]);
}

/// A true heading is marked by one bit above its own twelve. Anything else is no heading.
pub proof fn headings_are_read_back(h: int, x: int)
    ensures
        0 <= h < 4096 ==> heading_value(h + 16384) == Some(h as u16),
        0 <= x < 65536 && heading_value(x) is Some ==> heading_value(x)->0 + 16384 == x
            && heading_value(x)->0 < 4096,
        0 <= x < 65536 && (x < 16384 || x >= 20480) ==> heading_value(x) is None,
{
}

/// The header of a spoke is of use exactly if it tells its length and a known status. The spoke then
/// points to half the number that the header tells, and has the heading that the header tells.
pub proof fn headers_tell_the_direction(model: Model, header: Seq<u8>)
    requires
        header.len() == 24,
    ensures
        header_of(model, header) is Some <==> header[0] == 24 && (header[1] == 2 || header[1] == 18),
        header_of(model, header) matches Some(h) ==> {
            &&& 2 * h.angle <= header[8] + 256 * header[9] <= 2 * h.angle + 1
            &&& h.heading == heading_value(header[10] + 256 * header[11])
        },
{
}

/// The range in the header of a spoke of a 4G or later radar: a quarter of the small range where the
/// large one is not used, else their product divided by 512.
pub proof fn headers_tell_the_range(model: Model, header: Seq<u8>)
    requires
        header.len() == 24,
        model != Model::BR24 && model != Model::Gen3,
        header_of(model, header) is Some,
    ensures
        ({
            let range = header_of(model, header)->0.range as int;
            let large = header[6] + 256 * header[7];
            let small = header[12] + 256 * header[13];
            &&& large == 128 && small == 65535 ==> range == 0
            &&& large == 128 && small < 65535 ==> 4 * range <= small < 4 * range + 4
            &&& large != 128 ==> 512 * range <= large * small < 512 * range + 512
        }),
{
    let large = header[6] + 256 * header[7];
    let small = header[12] + 256 * header[13];
    assert(le16(header, 6) == large && le16(header, 12) == small);
    assert(0 <= large * small <= 65535 * 65535) by (nonlinear_arith)
        requires
            0 <= large <= 65535,
            0 <= small <= 65535,
    ;
}

/// The range in the header of a spoke of a BR24 or 3G radar has three bytes. Each step is ten meters
/// divided by 1.414.
pub proof fn older_headers_tell_the_range(model: Model, header: Seq<u8>)
    requires
        header.len() == 24,
        model == Model::BR24 || model == Model::Gen3,
        header_of(model, header) is Some,
    ensures
        ({
            let range = header_of(model, header)->0.range as int;
            let raw = header[12] + 256 * header[13] + 65536 * header[14];
            1414 * range <= 10000 * raw < 1414 * range + 1414
        }),
{
    let raw = header[12] + 256 * header[13] + 65536 * header[14];
    assert(le32(header, 12) % 0x100_0000 == raw);
}

/// A datagram holds one spoke after the other behind eight bytes, each of 536 bytes. Spokes whose
/// header is of no use are left out; of all others the line tells what its own header and its own
/// bytes tell, in the order of the datagram.
pub proof fn lines_come_in_order(
    model: Model,
    lookup: PixelToBlob,
    mode: DopplerMode,
    replay: bool,
    data: Seq<u8>,
    n: int,
)
    requires
        0 <= n,
        8 + 536 * (n + 1) <= data.len(),
    ensures
        ({
            let before = lines_below(model, lookup, mode, replay, data, n);
            let after = lines_below(model, lookup, mode, replay, data, n + 1);
            let header = data.subrange(8 + 536 * n, 8 + 536 * n + 24);
            let bytes = data.subrange(8 + 536 * n + 24, 8 + 536 * n + 536);
            &&& n + 1 <= line_count(data)
            &&& header_of(model, header) is None ==> after == before
            &&& header_of(model, header) matches Some(h) ==> {
                &&& after.len() == before.len() + 1
                &&& after.take(before.len() as int) == before
                &&& after.last().range == h.range
                &&& after.last().angle == h.angle
                &&& after.last().heading == h.heading
                &&& after.last().pixels == spoke_pixels(lookup, mode, replay, bytes)
            }
        }),
{
    let before = lines_below(model, lookup, mode, replay, data, n);
    let after = lines_below(model, lookup, mode, replay, data, n + 1);
    assert(line_at(n) == 8 + 536 * n);
    if after.len() > before.len() {
        assert(after.take(before.len() as int) =~= before);
    }
}

/// All whole spokes of a datagram are looked at, and none that is cut off.
pub proof fn whole_spokes_are_counted(data: Seq<u8>)
    ensures
        data.len() < 8 ==> line_count(data) == 0,
        data.len() >= 8 ==> 8 + 536 * line_count(data) <= data.len() < 8 + 536 * (line_count(data) + 1),
{
}

} // verus!

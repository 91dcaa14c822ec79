//! Spokes: single scan lines of the radar picture.
use vstd::prelude::*;

verus! {

/// A scan line as a radar sent it.
#[derive(Debug)]
pub struct ScanLine {
    /// The distance of the last pixel, in meters.
    pub range: u32,
    /// The direction relative to the bow, in spokes.
    pub angle: u16,
    /// The heading that the radar reported with the line, in its own units.
    pub heading: Option<u16>,
    /// One pixel value per step of distance.
    pub pixels: Vec<u8>,
}

/// A scan line, as a mathematical value.
pub struct ScanLineView {
    pub range: int,
    pub angle: int,
    pub heading: Option<u16>,
    pub pixels: Seq<u8>,
}

impl View for ScanLine {
    type V = ScanLineView;

    open spec fn view(&self) -> ScanLineView {
        ScanLineView {
            range: self.range as int,
            angle: self.angle as int,
            heading: self.heading,
            pixels: self.pixels@,
        }
    }
}

/// The views of several scan lines.
pub open spec fn lines_view(lines: Seq<ScanLine>) -> Seq<ScanLineView> {
    lines.map_values(|line: ScanLine| line@)
}

/// Adding a line adds its view.
pub proof fn lines_view_push(lines: Seq<ScanLine>, line: ScanLine)
    ensures
        lines_view(lines.push(line)) == lines_view(lines).push(line@),
{
    assert(lines_view(lines.push(line)) =~= lines_view(lines).push(line@));
}

/// A spoke as clients receive it.
#[derive(Debug)]
pub struct Spoke {
    pub range: u32,
    pub angle: u32,
    /// The direction relative to north, in spokes, where it is known.
    pub bearing: Option<u32>,
    pub lat: Option<i64>,
    pub lon: Option<i64>,
    /// Milliseconds since the epoch.
    pub time: Option<u64>,
    pub data: Vec<u8>,
}

/// The direction relative to north: half the heading that the radar sent along, else the heading of
/// the vessel (both in spokes), plus the angle to the bow.
pub open spec fn bearing_of(
    spokes_per_revolution: int,
    angle: int,
    heading: Option<u16>,
    own_heading: Option<u16>,
) -> Option<int> {
    match (heading, own_heading) {
        (Some(h), _) => Some((h as int / 2 + angle) % spokes_per_revolution),
        (None, Some(h)) => Some((h + angle) % spokes_per_revolution),
        (None, None) => None,
    }
}

/// Makes a spoke for clients out of a scan line. `own_heading` is the true heading of the vessel in
/// spokes, `position` its latitude and longitude.
pub fn to_protobuf_spoke(
    spokes_per_revolution: u16,
    range: u32,
    angle: u16,
    heading: Option<u16>,
    own_heading: Option<u16>,
    position: (Option<i64>, Option<i64>),
    time: Option<u64>,
    generic_spoke: Vec<u8>,
) -> (spoke: Spoke)
    requires
        spokes_per_revolution > 0,
    ensures
        spoke.range == range,
        spoke.angle == angle,
        match bearing_of(spokes_per_revolution as int, angle as int, heading, own_heading) {
            Some(b) => spoke.bearing == Some(b as u32) && 0 <= b < spokes_per_revolution,
            None => spoke.bearing is None,
        },
        spoke.lat == position.0,
        spoke.lon == position.1,
        spoke.time == time,
        spoke.data@ == generic_spoke@,
{
    let bearing: Option<u32> = match heading {
        Some(h) => Some((h as u32 / 2 + angle as u32) % (spokes_per_revolution as u32)),
        None => match own_heading {
            Some(h) => Some((h as u32 + angle as u32) % (spokes_per_revolution as u32)),
            None => None,
        },
    };
    Spoke {
        range,
        angle: angle as u32,
        bearing,
        lat: position.0,
        lon: position.1,
        time,
        data: generic_spoke,
    }
}

/// The direction relative to north turns with the vessel: it is the angle to the bow plus the heading,
/// around the circle. A heading that came with the line counts half and goes before that of the vessel;
/// without any heading there is no such direction.
pub proof fn bearing_turns_with_the_heading(
    spokes: int,
    angle: int,
    heading: Option<u16>,
    own_heading: Option<u16>,
)
    requires
        spokes > 0,
    ensures
        bearing_of(spokes, angle, heading, own_heading) is None <==> heading is None
            && own_heading is None,
        heading matches Some(h) ==> bearing_of(spokes, angle, heading, own_heading) == bearing_of(
            spokes,
            angle,
            None,
            Some((h / 2) as u16),
        ),
        heading is None ==> (own_heading matches Some(h) ==> {
            let b = bearing_of(spokes, angle, heading, own_heading)->0;
            0 <= b < spokes && b == (angle + h) % spokes
        }),
{
}

} // verus!

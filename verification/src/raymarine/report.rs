//! The reports that Raymarine radars send, and in which order they have to be seen.
use vstd::prelude::*;

use crate::control_id::ControlId;
use crate::controls::{Ranges, SharedControls};
use crate::layout::{holds32, numbers_of_four_bytes};
use crate::legend::Legend;
use crate::power::Power;
use crate::radar::{knows_ranges, RadarInfo};
use crate::raymarine::command::BaseModel;
use crate::raymarine::settings::{is_model_known, update_when_model_known};
use crate::text::{lossy_text, parse_natural, natural_text, trim_nul, within};
use crate::wire::{le32, read_u32_le};

verus! {

/// Which reports have been seen. Spokes mean nothing before the radar has told everything about
/// itself.
#[derive(Clone, Copy, Debug, PartialEq, Eq, Structural)]
pub enum ReceiverState {
    Initial,
    InfoRequestReceived,
    FixedRequestReceived,
    StatusRequestReceived,
}

impl ReceiverState {
    /// The place of the state in the order in which the states are reached.
    pub open spec fn rank(self) -> int {
        match self {
            ReceiverState::Initial => 0,
            ReceiverState::InfoRequestReceived => 1,
            ReceiverState::FixedRequestReceived => 2,
            ReceiverState::StatusRequestReceived => 3,
        }
    }

    /// Whether a state comes before another one.
    pub fn is_before(&self, other: ReceiverState) -> (r: bool)
        ensures
            r == (self.rank() < other.rank()),
    {
        self.place() < other.place()
    }

    fn place(&self) -> (n: u8)
        ensures
            n == self.rank(),
    {
        match self {
            ReceiverState::Initial => 0,
            ReceiverState::InfoRequestReceived => 1,
            ReceiverState::FixedRequestReceived => 2,
            ReceiverState::StatusRequestReceived => 3,
        }
    }
}

/// The kinds of datagrams that a Raymarine radar sends.
#[derive(Clone, Copy, Debug, PartialEq, Eq, Structural)]
pub enum ReportKind {
    RdStatus,
    RdFixed,
    RdFrame,
    RdInfo,
    QuantumInfo,
    QuantumStatus,
    QuantumFrame,
    QuantumDoppler,
    /// Any other report, by its id.
    Unknown(u32),
}

/// The kind of a datagram with a given id.
pub open spec fn kind_of_id(id: int) -> ReportKind {
    if id == 0x010001 || id == 0x018801 {
        ReportKind::RdStatus
    } else if id == 0x010002 {
        ReportKind::RdFixed
    } else if id == 0x010003 {
        ReportKind::RdFrame
    } else if id == 0x010006 {
        ReportKind::RdInfo
    } else if id == 0x280001 {
        ReportKind::QuantumInfo
    } else if id == 0x280002 {
        ReportKind::QuantumStatus
    } else if id == 0x280003 {
        ReportKind::QuantumFrame
    } else if id == 0x280030 {
        ReportKind::QuantumDoppler
    } else {
        ReportKind::Unknown(id as u32)
    }
}

/// Tells what a datagram holds by the id that it starts with. A datagram without an id is dropped.
pub fn process_report(data: &[u8]) -> (kind: Option<ReportKind>)
    ensures
        kind == if data.len() < 4 {
            None
        } else {
            Some(kind_of_id(le32(data@, 0)))
        },
{
    if data.len() < 4 {
        return None;
    }
    let id: u32 = read_u32_le(data, 0);
    let kind = match id {
        0x010001 | 0x018801 => ReportKind::RdStatus,
        0x010002 => ReportKind::RdFixed,
        0x010003 => ReportKind::RdFrame,
        0x010006 => ReportKind::RdInfo,
        0x280001 => ReportKind::QuantumInfo,
        0x280002 => ReportKind::QuantumStatus,
        0x280003 => ReportKind::QuantumFrame,
        0x280030 => ReportKind::QuantumDoppler,
        _ => ReportKind::Unknown(id),
    };
    Some(kind)
}

/// Whether a report of an unknown kind is worth a warning: only the first one of each id is.
pub fn first_unknown_report(reported: &mut Vec<u32>, id: u32) -> (first: bool)
    ensures
        first == !old(reported)@.contains(id),
        final(reported)@ == if first {
            old(reported)@.push(id)
        } else {
            old(reported)@
        },
{
    let mut i: usize = 0;
    while i < reported.len()
        invariant
            i <= reported.len(),
            *reported == *old(reported),
            forall|j: int| 0 <= j < i ==> reported[j] != id,
        decreases reported.len() - i,
    {
        if reported[i] == id {
            assert(reported@.contains(reported@[i as int]));
            return false;
        }
        i = i + 1;
    }
    reported.push(id);
    true
}

/// The operational state that a status byte stands for. What is not known counts as standby.
pub open spec fn power_of_status(status: u8) -> Power {
    if status == 1 {
        Power::Transmit
    } else if status == 2 {
        Power::Preparing
    } else if status == 3 {
        Power::Off
    } else {
        Power::Standby
    }
}

/// The operational state that a status byte stands for.
pub fn read_power(status: u8) -> (power: Power)
    ensures
        power == power_of_status(status),
{
    match status {
        1 => Power::Transmit,
        2 => Power::Preparing,
        3 => Power::Off,
        _ => Power::Standby,
    }
}

/// The distance in meters of a range that is given in thousandths of a nautical mile.
pub open spec fn meters_of(raw: int) -> int {
    if raw * 1852 / 1000 > i32::MAX {
        i32::MAX as int
    } else {
        raw * 1852 / 1000
    }
}

/// The distances of a list of ranges in a report.
pub open spec fn ranges_of(data: Seq<u8>, at: int, count: nat) -> Seq<i32> {
    Seq::new(count, |i: int| meters_of(le32(data, at + 4 * i)) as i32)
}

/// Reads the distances of a list of ranges.
pub fn range_distances(data: &[u8], at: usize, count: usize) -> (ranges: Vec<i32>)
    requires
        at + 4 * count <= data.len(),
    ensures
        ranges@ == ranges_of(data@, at as int, count as nat),
{
    let mut ranges: Vec<i32> = Vec::with_capacity(count);
    let mut i: usize = 0;
    while i < count
        invariant
            i <= count,
            at + 4 * count <= data.len(),
            ranges@ == ranges_of(data@, at as int, i as nat),
        decreases count - i,
    {
        let raw: u64 = read_u32_le(data, at + 4 * i) as u64;
        let meters: u64 = raw * 1852 / 1000;
        let meters: i32 = if meters > i32::MAX as u64 {
            i32::MAX
        } else {
            meters as i32
        };
        ranges.push(meters);
        i = i + 1;
        assert(ranges@ =~= ranges_of(data@, at as int, i as nat));
    }
    ranges
}

/// The distance in meters of the range that a status report says is in use: the place `index` in the
/// list of ranges of the radar. The first status report also tells those ranges.
pub fn range_in_use(info: &mut RadarInfo, distances: &Vec<i32>, index: usize) -> (meters: Option<i32>)
    requires
        old(info).well_formed(),
    ensures
        final(info).well_formed(),
        if old(info).ranges.all@.len() > 0 {
            *final(info) == *old(info)
        } else {
            knows_ranges(*old(info), *final(info)) && final(info).ranges.are_by_distance(distances@)
        },
        meters == if index < final(info).ranges.all@.len() {
            Some(final(info).ranges.all@[index as int].0)
        } else {
            None
        },
{
    if info.ranges.all.len() == 0 {
        info.set_ranges(Ranges::new_by_distance(distances));
    }
    if index < info.ranges.all.len() {
        Some(info.ranges.all[index].0)
    } else {
        None
    }
}

/// Who the radar is.
#[derive(Debug)]
pub struct InfoReport {
    pub serial_nr: String,
    /// The number by which the manufacturer knows the model.
    pub model_serial: String,
}

/// Why an info report is dropped.
#[derive(Clone, Copy, Debug, PartialEq, Eq, Structural)]
pub enum InfoProblem {
    /// The model is known already.
    AlreadyKnown,
    /// The report is cut off.
    TooShort,
}

/// A text field of an info report.
pub open spec fn info_text(data: Seq<u8>, at: int, len: int) -> Seq<char> {
    trim_nul(lossy_text(data.subrange(at, at + len)))
}

/// Whether an unlisted model number stands for an analog radar behind an E series display: those
/// have a plain number.
pub fn is_eseries_serial(model_serial: &str) -> (r: bool)
    ensures
        r == within(natural_text(model_serial@), 0, u64::MAX as int) is Some,
{
    parse_natural(model_serial, u64::MAX).is_some()
}

/// What the table of models says of a model.
#[derive(Debug)]
pub struct ModelFacts {
    pub name: String,
    /// The length of a line.
    pub max_spoke_len: u16,
    /// How many pixel values the radar sends.
    pub pixel_values: u8,
    /// Whether moving targets are told apart.
    pub doppler: bool,
}

/// What is known of a model by its number: what the table lists or, for a radar of the RD family, that
/// a plain number stands for an analog radar behind an E series display.
pub open spec fn facts_of_model(
    base: BaseModel,
    model_serial: Seq<char>,
    listed: Option<ModelFacts>,
    eseries: ModelFacts,
) -> Option<ModelFacts> {
    if listed is Some {
        listed
    } else if base == BaseModel::RD && within(natural_text(model_serial), 0, u64::MAX as int) is Some {
        Some(eseries)
    } else {
        None
    }
}

/// A radar with its serial number and, unless it is a Quantum, the size of its picture.
pub open spec fn with_serial(
    base: BaseModel,
    info: RadarInfo,
    serial_no: Option<String>,
    facts: ModelFacts,
) -> RadarInfo {
    if base == BaseModel::RD {
        RadarInfo {
            serial_no,
            spokes_per_revolution: facts.max_spoke_len,
            max_spoke_len: facts.max_spoke_len,
            ..info
        }
    } else {
        RadarInfo { serial_no, ..info }
    }
}

/// A radar that told its serial number and its model.
pub open spec fn is_told_model(
    base: BaseModel,
    before: RadarInfo,
    after: RadarInfo,
    serial_nr: String,
    facts: ModelFacts,
) -> bool {
    let named = with_serial(base, before, Some(serial_nr), facts);
    &&& after == (RadarInfo {
        pixel_values: facts.pixel_values,
        doppler: facts.doppler,
        legend: after.legend,
        controls: after.controls,
        ..named
    })
    &&& if before.pixel_values == facts.pixel_values && before.doppler == facts.doppler {
        after.legend == before.legend
    } else {
        after.legend.is_default(before.targets, facts.doppler, facts.pixel_values as int)
    }
    &&& after.controls.all_ranges.same_ranges(before.ranges)
    &&& after.controls == (SharedControls {
        slots: after.controls.slots,
        all_ranges: after.controls.all_ranges,
        ..before.controls
    })
    &&& forall|id: ControlId| #[trigger] is_model_known(named, after, facts.name@, id)
}

/// Takes in what the radar told of itself, and returns which reports have been seen then. `listed` is
/// what the table of models says of the number in the report, and `eseries` what it says of an analog
/// radar. A radar whose model is not known stays as it is.
pub fn model_told(
    base: BaseModel,
    info: &mut RadarInfo,
    report: InfoReport,
    listed: Option<ModelFacts>,
    eseries: ModelFacts,
) -> (r: Option<ReceiverState>)
    requires
        facts_of_model(base, report.model_serial@, listed, eseries) is Some ==> {
            &&& old(info).well_formed()
            &&& old(info).controls.text_of(ControlId::UserName) is Some
            &&& old(info).controls.slot(ControlId::SerialNumber) is Some
        },
    ensures
        match facts_of_model(base, report.model_serial@, listed, eseries) {
            Some(facts) => r == Some(ReceiverState::InfoRequestReceived) && final(info).well_formed()
                && is_told_model(base, *old(info), *final(info), report.serial_nr, facts),
            None => r is None && *final(info) == *old(info),
        },
{
    let facts = match listed {
        Some(facts) => facts,
        None => {
            if base != BaseModel::RD || !is_eseries_serial(report.model_serial.as_str()) {
                return None;
            }
            eseries
        },
    };
    info.serial_no = Some(report.serial_nr);
    if base == BaseModel::RD {
        info.spokes_per_revolution = facts.max_spoke_len;
        info.max_spoke_len = facts.max_spoke_len;
    }
    let ghost named = *info;
    assert(named == with_serial(base, *old(info), Some(report.serial_nr), facts));
    update_when_model_known(info, facts.name.as_str());
    let ghost updated = *info;
    info.set_pixel_values(facts.pixel_values);
    info.set_doppler(facts.doppler);
    proof {
        assert forall|id: ControlId| #[trigger] is_model_known(named, *info, facts.name@, id) by {
            assert(is_model_known(named, updated, facts.name@, id));
        }
    }
    Some(ReceiverState::InfoRequestReceived)
}

/// The pixel values that the bytes of a spoke are shown with.
pub struct PixelToBlob {
    /// With strength alone.
    pub normal: [u8; 256],
    /// With approaching and receding targets told apart.
    pub doppler: [u8; 256],
}

/// The strength that a byte stands for: radars with many levels send twice the value.
pub open spec fn blob_strength(legend: Legend, b: int) -> int {
    if legend.target_colors >= 128 {
        b / 2
    } else {
        b
    }
}

/// The pixel value of a byte where Doppler returns are told apart.
pub open spec fn blob_doppler(legend: Legend, b: int) -> int {
    if b == 0xff {
        legend.doppler_approaching as int
    } else if b == 0xfe {
        legend.doppler_receding as int
    } else {
        blob_strength(legend, b)
    }
}

/// Makes the tables from bytes of a spoke to pixel values.
pub fn pixel_to_blob(legend: &Legend) -> (table: PixelToBlob)
    ensures
        forall|b: int| 0 <= b < 256 ==> #[trigger] table.normal@[b] == blob_strength(*legend, b),
        forall|b: int| 0 <= b < 256 ==> #[trigger] table.doppler@[b] == blob_doppler(*legend, b),
{
    let mut normal: [u8; 256] = [0; 256];
    let mut doppler: [u8; 256] = [0; 256];
    let mut j: usize = 0;
    while j < 256
        invariant
            j <= 256,
            forall|b: int| 0 <= b < j ==> #[trigger] normal@[b] == blob_strength(*legend, b),
            forall|b: int| 0 <= b < j ==> #[trigger] doppler@[b] == blob_doppler(*legend, b),
        decreases 256 - j,
    {
        let strength: u8 = if legend.target_colors >= 128 {
            (j as u8) / 2
        } else {
            j as u8
        };
        normal[j] = strength;
        doppler[j] = if j == 0xff {
            legend.doppler_approaching
        } else if j == 0xfe {
            legend.doppler_receding
        } else {
            strength
        };
        j = j + 1;
    }
    PixelToBlob { normal, doppler }
}

/// A range in a report is given in thousandths of a nautical mile, which has 1852 meters. What does not
/// fit is cut off.
pub proof fn ranges_are_in_nautical_miles(data: Seq<u8>, at: int, count: nat, i: int, raw: u32)
    requires
        0 <= i < count,
        holds32(data, at + 4 * i, raw as int),
    ensures
        ranges_of(data, at, count).len() == count,
        ({
            let meters = ranges_of(data, at, count)[i] as int;
            ||| 1000 * meters <= 1852 * raw < 1000 * meters + 1000
            ||| meters == i32::MAX && 1852 * raw >= 1000 * meters
        }),
{
    numbers_of_four_bytes(data, at + 4 * i, raw as int);
}

/// Three status bytes stand for a state of their own; what is not known counts as standby.
pub proof fn status_bytes_are_read_back(status: u8)
    ensures
        power_of_status(status) == Power::Transmit <==> status == 1,
        power_of_status(status) == Power::Preparing <==> status == 2,
        power_of_status(status) == Power::Off <==> status == 3,
        power_of_status(status) == Power::Standby <==> status == 0 || status > 3,
{
}

/// The id that a datagram starts with tells its kind; no two kinds share one, but for the two kinds of
/// status reports of RD and HD radars.
pub proof fn ids_tell_the_kind(id: u32)
    ensures
        kind_of_id(id as int) == ReportKind::RdStatus <==> id == 0x010001 || id == 0x018801,
        kind_of_id(id as int) == ReportKind::RdFixed <==> id == 0x010002,
        kind_of_id(id as int) == ReportKind::RdFrame <==> id == 0x010003,
        kind_of_id(id as int) == ReportKind::RdInfo <==> id == 0x010006,
        kind_of_id(id as int) == ReportKind::QuantumInfo <==> id == 0x280001,
        kind_of_id(id as int) == ReportKind::QuantumStatus <==> id == 0x280002,
        kind_of_id(id as int) == ReportKind::QuantumFrame <==> id == 0x280003,
        kind_of_id(id as int) == ReportKind::QuantumDoppler <==> id == 0x280030,
        kind_of_id(id as int) matches ReportKind::Unknown(u) ==> u == id,
{
}

/// The strength of a byte grows with it: it is the byte itself, or half of it for radars with many
/// levels. Where moving targets are told apart, the two largest bytes stand for them and all others
/// are shown as without.
pub proof fn bytes_show_their_strength(legend: Legend, b: int)
    requires
        0 <= b < 256,
    ensures
        legend.target_colors < 128 ==> blob_strength(legend, b) == b,
        legend.target_colors >= 128 ==> 2 * blob_strength(legend, b) <= b <= 2 * blob_strength(
            legend,
            b,
        ) + 1,
        b < 254 ==> blob_doppler(legend, b) == blob_strength(legend, b),
        blob_doppler(legend, 254) == legend.doppler_receding,
        blob_doppler(legend, 255) == legend.doppler_approaching,
{
}

/// The states of a receiver are reached one after the other.
pub proof fn states_are_ordered(a: ReceiverState, b: ReceiverState)
    ensures
        a.rank() == b.rank() ==> a == b,
        ReceiverState::Initial.rank() < ReceiverState::InfoRequestReceived.rank()
            < ReceiverState::FixedRequestReceived.rank()
            < ReceiverState::StatusRequestReceived.rank(),
{
}

/// An RD radar has the size of its picture from its model, and a Quantum radar has it from the start.
/// Both get their serial number, and nothing else becomes of them.
pub proof fn serials_and_sizes_are_recorded(
    info: RadarInfo,
    serial_no: Option<String>,
    facts: ModelFacts,
    base: BaseModel,
)
    ensures
        with_serial(base, info, serial_no, facts).serial_no == serial_no,
        base is RD ==> with_serial(base, info, serial_no, facts).max_spoke_len
            == facts.max_spoke_len && with_serial(base, info, serial_no, facts).spokes_per_revolution
            == facts.max_spoke_len,
        base is Quantum ==> with_serial(base, info, serial_no, facts).max_spoke_len
            == info.max_spoke_len && with_serial(
            base,
            info,
            serial_no,
            facts,
        ).spokes_per_revolution == info.spokes_per_revolution,
        with_serial(base, info, serial_no, facts).key == info.key,
        with_serial(base, info, serial_no, facts).controls == info.controls,
        with_serial(base, info, serial_no, facts).addr == info.addr,
        with_serial(base, info, serial_no, facts).doppler == info.doppler,
{
}

/// A radar that told its model has the pixels of this model, and tells moving targets apart where the
/// model does. Its legend is made anew only where one of these changes.
pub proof fn told_models_decide_the_picture(
    base: BaseModel,
    before: RadarInfo,
    after: RadarInfo,
    serial_nr: String,
    facts: ModelFacts,
)
    requires
        is_told_model(base, before, after, serial_nr, facts),
    ensures
        after.serial_no == Some(serial_nr),
        after.pixel_values == facts.pixel_values,
        after.doppler == facts.doppler,
        after.pixel_values == before.pixel_values && after.doppler == before.doppler ==> after.legend
            == before.legend,
        after.pixel_values != before.pixel_values || after.doppler != before.doppler
            ==> after.legend.is_default(before.targets, after.doppler, after.pixel_values as int),
        after.key == before.key,
        after.addr == before.addr,
        after.ranges == before.ranges,
{
}

} // verus!

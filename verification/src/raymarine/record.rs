//! How the datagrams of Raymarine radars are laid out: what a radar puts into a datagram is what is
//! read from it.
use vstd::prelude::*;

use crate::control_id::ControlId;
use crate::layout::{
    chosen, holds16, holds32, is_silent_on, numbers_of_four_bytes, numbers_of_two_bytes, reaching,
    switched, tells, valued,
};
use crate::raymarine::quantum;
use crate::raymarine::rd;
use crate::raymarine::report::{
    power_of_status, ranges_are_in_nautical_miles, ranges_of, ReceiverState,
};
use crate::raymarine::unpack::{spoke_pixels, PixelCoding};
use crate::setting::{WireRange, WireSetting};
use crate::spoke::ScanLineView;
use crate::text::{lossy_text, trim_nul};
use crate::wire::{le16, le32, signed16};

verus! {

/// What an RD or HD radar puts into a status report.
pub struct RdStatusRecord {
    pub hd: bool,
    pub ranges: Seq<u32>,
    pub status: u8,
    pub warmup_time: u8,
    pub signal_strength: u8,
    pub range_id: u8,
    pub auto_gain: u8,
    pub gain: u32,
    pub auto_sea: u8,
    pub sea: u8,
    pub rain_enabled: u8,
    pub rain: u8,
    pub ftc_enabled: u8,
    pub ftc: u8,
    pub auto_tune: u8,
    pub tune: u8,
    pub bearing_offset: i16,
    pub interference_rejection: u8,
    pub target_expansion: u8,
    pub mbs_enabled: u8,
}

impl RdStatusRecord {
    /// The record lies in a report. An HD radar has its own id, and puts the number of its range far
    /// behind.
    pub open spec fn is_in(self, data: Seq<u8>) -> bool {
        &&& data.len() >= 245
        &&& self.hd ==> data.len() >= 297
        &&& self.ranges.len() == 11
        &&& holds32(
            data,
            0,
            if self.hd {
                0x018801
            } else {
                0x010001
            },
        )
        &&& forall|i: int| 0 <= i < 11 ==> holds32(data, 4 + 4 * i, #[trigger] self.ranges[i] as int)
        &&& data[180] == self.status
        &&& data[184] == self.warmup_time
        &&& data[185] == self.signal_strength
        &&& data[if self.hd {
            296
        } else {
            193
        }] == self.range_id
        &&& data[196] == self.auto_gain
        &&& holds32(data, 200, self.gain as int)
        &&& data[204] == self.auto_sea
        &&& data[208] == self.sea
        &&& data[209] == self.rain_enabled
        &&& data[213] == self.rain
        &&& data[214] == self.ftc_enabled
        &&& data[218] == self.ftc
        &&& data[219] == self.auto_tune
        &&& data[223] == self.tune
        &&& holds16(data, 224, self.bearing_offset as int)
        &&& data[226] == self.interference_rejection
        &&& data[230] == self.target_expansion
        &&& data[244] == self.mbs_enabled
    }
}

/// What an RD or HD radar puts into a status report is what is read for each control.
pub proof fn rd_status_is_read_back(record: RdStatusRecord, data: Seq<u8>, range_meters: i32)
    requires
        record.is_in(data),
    ensures
        ({
            let read = rd::status_settings(data, range_meters as int);
            &&& tells(
                read,
                valued(
                    ControlId::Power,
                    if record.status == 1 {
                        2
                    } else if record.status == 2 {
                        3
                    } else if record.status == 3 {
                        0
                    } else {
                        1
                    },
                ),
            )
            &&& tells(read, valued(ControlId::Range, range_meters as int))
            &&& tells(read, chosen(ControlId::Gain, record.gain as int, record.auto_gain > 0))
            &&& tells(read, chosen(ControlId::Sea, record.sea as int, record.auto_sea > 0))
            &&& tells(read, switched(ControlId::Rain, record.rain as int, record.rain_enabled > 0))
            &&& tells(read, switched(ControlId::Ftc, record.ftc as int, record.ftc_enabled > 0))
            &&& tells(read, chosen(ControlId::Tune, record.tune as int, record.auto_tune > 0))
            &&& tells(read, valued(ControlId::TargetExpansion, record.target_expansion as int))
            &&& tells(
                read,
                valued(ControlId::InterferenceRejection, record.interference_rejection as int),
            )
            &&& tells(read, valued(ControlId::BearingAlignment, record.bearing_offset as int))
            &&& tells(read, valued(ControlId::MainBangSuppression, record.mbs_enabled as int))
            &&& tells(
                read,
                switched(
                    ControlId::WarmupTime,
                    record.warmup_time as int,
                    record.warmup_time > 0,
                ),
            )
            &&& tells(read, valued(ControlId::SignalStrength, record.signal_strength as int))
        }),
{
    numbers_of_four_bytes(data, 200, record.gain as int);
    numbers_of_two_bytes(data, 224, record.bearing_offset as int);
    let read = rd::status_settings(data, range_meters as int);
    assert(read[0].id == ControlId::Power);
    assert(read[1] == valued(ControlId::Range, range_meters as int));
    assert(read[2] == chosen(ControlId::Gain, record.gain as int, record.auto_gain > 0));
    assert(read[3] == chosen(ControlId::Sea, record.sea as int, record.auto_sea > 0));
    assert(read[4] == switched(ControlId::Rain, record.rain as int, record.rain_enabled > 0));
    assert(read[5] == switched(ControlId::Ftc, record.ftc as int, record.ftc_enabled > 0));
    assert(read[6] == chosen(ControlId::Tune, record.tune as int, record.auto_tune > 0));
    assert(read[7] == valued(ControlId::TargetExpansion, record.target_expansion as int));
    assert(read[8] == valued(
        ControlId::InterferenceRejection,
        record.interference_rejection as int,
    ));
    assert(read[9] == valued(ControlId::BearingAlignment, record.bearing_offset as int));
    assert(read[10] == valued(ControlId::MainBangSuppression, record.mbs_enabled as int));
    assert(read[11] == switched(
        ControlId::WarmupTime,
        record.warmup_time as int,
        record.warmup_time > 0,
    ));
    assert(read[12] == valued(ControlId::SignalStrength, record.signal_strength as int));
}

/// The ranges that an RD or HD radar lists, and the number of the one in use, are what is read. A
/// report that is complete is dropped only as long as a fixed report is missing.
pub proof fn rd_ranges_are_read_back(record: RdStatusRecord, data: Seq<u8>, state: ReceiverState, i: int)
    requires
        record.is_in(data),
        0 <= i < 11,
    ensures
        rd::status_problem(state, data) is None <==> state == ReceiverState::FixedRequestReceived
            || state == ReceiverState::StatusRequestReceived,
        rd::range_in_use(data) == record.range_id,
        rd::listed_ranges(data).len() == 11,
        ({
            let meters = rd::listed_ranges(data)[i] as int;
            let raw = record.ranges[i] as int;
            ||| 1000 * meters <= 1852 * raw < 1000 * meters + 1000
            ||| meters == i32::MAX && 1852 * raw >= 1000 * meters
        }),
{
    let id: int = if record.hd {
        0x018801
    } else {
        0x010001
    };
    numbers_of_four_bytes(data, 0, id);
    ranges_are_in_nautical_miles(data, 4, 11, i, record.ranges[i]);
}

/// What an RD or HD radar puts into a fixed report.
pub struct RdFixedRecord {
    pub operating_time: u16,
    pub magnetron_current: u8,
    pub display_timing: u8,
    pub gain: (u8, u8),
    pub sea: (u8, u8),
    pub rain: (u8, u8),
    pub ftc: (u8, u8),
    pub signal_strength: u8,
}

impl RdFixedRecord {
    /// The record lies in a report: the limits of the controls one after the other, the lower one
    /// first.
    pub open spec fn is_in(self, data: Seq<u8>) -> bool {
        &&& data.len() >= 308
        &&& holds16(data, 217, self.operating_time as int)
        &&& data[225] == self.magnetron_current
        &&& data[267] == self.display_timing
        &&& data[293] == self.gain.0 && data[294] == self.gain.1
        &&& data[295] == self.sea.0 && data[296] == self.sea.1
        &&& data[297] == self.rain.0 && data[298] == self.rain.1
        &&& data[299] == self.ftc.0 && data[300] == self.ftc.1
        &&& data[305] == self.signal_strength
    }
}

/// What an RD or HD radar puts into a fixed report is what is read. A complete report is dropped only
/// as long as the radar has not told who it is, and it brings the receiver no step back.
pub proof fn rd_fixed_is_read_back(record: RdFixedRecord, data: Seq<u8>, state: ReceiverState)
    requires
        record.is_in(data),
    ensures
        rd::fixed_problem(state, data) is None <==> state != ReceiverState::Initial,
        rd::state_after_fixed(state) == ReceiverState::FixedRequestReceived <==> state
            == ReceiverState::InfoRequestReceived || state == ReceiverState::FixedRequestReceived,
        rd::state_after_fixed(state).rank() >= state.rank(),
        ({
            let read = rd::fixed_settings(data);
            &&& tells(read, valued(ControlId::OperatingTime, record.operating_time as int))
            &&& tells(read, valued(ControlId::MagnetronCurrent, record.magnetron_current as int))
            &&& tells(read, valued(ControlId::SignalStrength, record.signal_strength as int))
            &&& tells(read, valued(ControlId::DisplayTiming, record.display_timing as int))
        }),
        rd::fixed_ranges(data) == seq![
            WireRange { id: ControlId::Gain, min: record.gain.0, max: record.gain.1 },
            WireRange { id: ControlId::Sea, min: record.sea.0, max: record.sea.1 },
            WireRange { id: ControlId::Rain, min: record.rain.0, max: record.rain.1 },
            WireRange { id: ControlId::Ftc, min: record.ftc.0, max: record.ftc.1 },
        ],
{
    numbers_of_two_bytes(data, 217, record.operating_time as int);
    let read = rd::fixed_settings(data);
    assert(read[0] == valued(ControlId::OperatingTime, record.operating_time as int));
    assert(read[1] == valued(ControlId::MagnetronCurrent, record.magnetron_current as int));
    assert(read[2] == valued(ControlId::SignalStrength, record.signal_strength as int));
    assert(read[3] == valued(ControlId::DisplayTiming, record.display_timing as int));
}

/// The values of one mode in a status report of a Quantum.
pub struct QuantumModeRecord {
    pub gain_auto: u8,
    pub gain: u8,
    pub color_gain_auto: u8,
    pub color_gain: u8,
    pub sea_auto: u8,
    pub sea: u8,
    pub rain_enabled: u8,
    pub rain: u8,
}

impl QuantumModeRecord {
    /// The values lie at an offset of a report, each switch in front of its value.
    pub open spec fn is_at(self, data: Seq<u8>, at: int) -> bool {
        &&& data[at] == self.gain_auto
        &&& data[at + 1] == self.gain
        &&& data[at + 2] == self.color_gain_auto
        &&& data[at + 3] == self.color_gain
        &&& data[at + 4] == self.sea_auto
        &&& data[at + 5] == self.sea
        &&& data[at + 6] == self.rain_enabled
        &&& data[at + 7] == self.rain
    }
}

/// What a Quantum puts into a status report.
pub struct QuantumStatusRecord {
    pub status: u8,
    pub bearing_offset: i16,
    pub interference_rejection: u8,
    pub range_index: u8,
    pub mode: u8,
    pub modes: Seq<QuantumModeRecord>,
    pub target_expansion: u8,
    pub sea_clutter_curve: u8,
    pub mbs_enabled: u8,
    pub sector1: (u16, u16, u8),
    pub sector2: (u16, u16, u8),
    pub ranges: Seq<u32>,
}

impl QuantumStatusRecord {
    /// The record lies in a report: the values of four modes one after the other, and twenty ranges.
    pub open spec fn is_in(self, data: Seq<u8>) -> bool {
        &&& data.len() >= 260
        &&& self.modes.len() == 4
        &&& self.ranges.len() == 20
        &&& data[4] == self.status
        &&& holds16(data, 14, self.bearing_offset as int)
        &&& data[17] == self.interference_rejection
        &&& data[20] == self.range_index
        &&& data[21] == self.mode
        &&& self.modes[0].is_at(data, 22)
        &&& self.modes[1].is_at(data, 30)
        &&& self.modes[2].is_at(data, 38)
        &&& self.modes[3].is_at(data, 46)
        &&& data[54] == self.target_expansion
        &&& data[55] == self.sea_clutter_curve
        &&& data[59] == self.mbs_enabled
        &&& holds16(data, 132, self.sector1.0 as int)
        &&& holds16(data, 134, self.sector1.1 as int)
        &&& data[136] == self.sector1.2
        &&& holds16(data, 140, self.sector2.0 as int)
        &&& holds16(data, 142, self.sector2.1 as int)
        &&& data[144] == self.sector2.2
        &&& forall|i: int| 0 <= i < 20 ==> holds32(data, 148 + 4 * i, #[trigger] self.ranges[i] as int)
    }
}

/// What a Quantum puts into a status report is what is read for each control. Of the values that every
/// mode has of its own, those of the mode in use are read, where that is known.
pub proof fn quantum_status_is_read_back(
    record: QuantumStatusRecord,
    data: Seq<u8>,
    range_meters: i32,
)
    requires
        record.is_in(data),
    ensures
        ({
            let read = quantum::status_settings(data, range_meters as int);
            let mode = record.modes[record.mode as int];
            &&& tells(
                read,
                valued(
                    ControlId::Power,
                    if record.status == 1 {
                        2
                    } else if record.status == 2 {
                        3
                    } else if record.status == 3 {
                        0
                    } else {
                        1
                    },
                ),
            )
            &&& tells(read, valued(ControlId::Range, range_meters as int))
            &&& if record.mode < 4 {
                &&& tells(read, valued(ControlId::Mode, record.mode as int))
                &&& tells(read, chosen(ControlId::Gain, mode.gain as int, mode.gain_auto > 0))
                &&& tells(
                    read,
                    chosen(
                        ControlId::ColorGain,
                        mode.color_gain as int,
                        mode.color_gain_auto > 0,
                    ),
                )
                &&& tells(read, chosen(ControlId::Sea, mode.sea as int, mode.sea_auto > 0))
                &&& tells(read, switched(ControlId::Rain, mode.rain as int, mode.rain_enabled > 0))
            } else {
                &&& is_silent_on(read, ControlId::Mode)
                &&& is_silent_on(read, ControlId::Gain)
                &&& is_silent_on(read, ControlId::ColorGain)
                &&& is_silent_on(read, ControlId::Sea)
                &&& is_silent_on(read, ControlId::Rain)
            }
            &&& tells(read, valued(ControlId::SeaClutterCurve, record.sea_clutter_curve + 1))
            &&& tells(read, valued(ControlId::TargetExpansion, record.target_expansion as int))
            &&& tells(
                read,
                valued(ControlId::InterferenceRejection, record.interference_rejection as int),
            )
            &&& tells(read, valued(ControlId::BearingAlignment, record.bearing_offset as int))
            &&& tells(read, valued(ControlId::MainBangSuppression, record.mbs_enabled as int))
            &&& tells(
                read,
                reaching(
                    ControlId::NoTransmitSector1,
                    record.sector1.0 as int,
                    record.sector1.1 as int,
                    record.sector1.2 > 0,
                ),
            )
            &&& tells(
                read,
                reaching(
                    ControlId::NoTransmitSector2,
                    record.sector2.0 as int,
                    record.sector2.1 as int,
                    record.sector2.2 > 0,
                ),
            )
        }),
{
    numbers_of_two_bytes(data, 14, record.bearing_offset as int);
    numbers_of_two_bytes(data, 132, record.sector1.0 as int);
    numbers_of_two_bytes(data, 134, record.sector1.1 as int);
    numbers_of_two_bytes(data, 140, record.sector2.0 as int);
    numbers_of_two_bytes(data, 142, record.sector2.1 as int);
    let read = quantum::status_settings(data, range_meters as int);
    let mode = record.modes[record.mode as int];
    assert(read[0].id == ControlId::Power);
    assert(read[1] == valued(ControlId::Range, range_meters as int));
    let n: int = if record.mode < 4 {
        5
    } else {
        0
    };
    if n == 5 {
        assert(mode.is_at(data, 22 + 8 * record.mode));
        assert(read[2] == valued(ControlId::Mode, record.mode as int));
        assert(read[3] == chosen(ControlId::Gain, mode.gain as int, mode.gain_auto > 0));
        assert(read[4] == chosen(
            ControlId::ColorGain,
            mode.color_gain as int,
            mode.color_gain_auto > 0,
        ));
        assert(read[5] == chosen(ControlId::Sea, mode.sea as int, mode.sea_auto > 0));
        assert(read[6] == switched(ControlId::Rain, mode.rain as int, mode.rain_enabled > 0));
    }
    assert(read[n + 2] == valued(ControlId::SeaClutterCurve, record.sea_clutter_curve + 1));
    assert(read[n + 3] == valued(ControlId::TargetExpansion, record.target_expansion as int));
    assert(read[n + 4] == valued(
        ControlId::InterferenceRejection,
        record.interference_rejection as int,
    ));
    assert(read[n + 5] == valued(ControlId::BearingAlignment, record.bearing_offset as int));
    assert(read[n + 6] == valued(ControlId::MainBangSuppression, record.mbs_enabled as int));
    assert(read[n + 7] == reaching(
        ControlId::NoTransmitSector1,
        record.sector1.0 as int,
        record.sector1.1 as int,
        record.sector1.2 > 0,
    ));
    assert(read[n + 8] == reaching(
        ControlId::NoTransmitSector2,
        record.sector2.0 as int,
        record.sector2.1 as int,
        record.sector2.2 > 0,
    ));
    assert(read.len() == n + 9);
}

/// The ranges that a Quantum lists, and the number of the one in use, are what is read.
pub proof fn quantum_ranges_are_read_back(record: QuantumStatusRecord, data: Seq<u8>, i: int)
    requires
        record.is_in(data),
        0 <= i < 20,
    ensures
        quantum::range_in_use(data) == record.range_index,
        quantum::listed_ranges(data).len() == 20,
        ({
            let meters = quantum::listed_ranges(data)[i] as int;
            let raw = record.ranges[i] as int;
            ||| 1000 * meters <= 1852 * raw < 1000 * meters + 1000
            ||| meters == i32::MAX && 1852 * raw >= 1000 * meters
        }),
{
    ranges_are_in_nautical_miles(data, 148, 20, i, record.ranges[i]);
}

/// A Quantum tells moving targets apart exactly if its Doppler report says so, by a status of three.
pub proof fn quantum_doppler_is_read_back(data: Seq<u8>)
    ensures
        data.len() < 5 ==> quantum::doppler_of(data) is None,
        data.len() >= 5 && data[4] == 3 ==> quantum::doppler_of(data) == Some(
            (valued(ControlId::Doppler, 1), true),
        ),
        data.len() >= 5 && data[4] != 3 ==> quantum::doppler_of(data) == Some(
            (valued(ControlId::Doppler, 0), false),
        ),
{
}

/// What a Quantum puts into a datagram with a spoke.
pub struct QuantumSpokeRecord {
    pub returns_per_line: u16,
    pub spokes: u16,
    pub returns_per_range: u16,
    pub azimuth: u16,
    pub packed: Seq<u8>,
}

impl QuantumSpokeRecord {
    /// The record lies in a datagram, the packed pixels behind the header.
    pub open spec fn is_in(self, data: Seq<u8>) -> bool {
        &&& self.packed.len() <= u16::MAX
        &&& data.len() >= 20 + self.packed.len()
        &&& holds16(data, 8, self.returns_per_line as int)
        &&& holds16(data, 10, self.spokes as int)
        &&& holds16(data, 14, self.returns_per_range as int)
        &&& holds16(data, 16, self.azimuth as int)
        &&& holds16(data, 18, self.packed.len() as int)
        &&& data.subrange(20, 20 + self.packed.len() as int) == self.packed
    }
}

/// What a Quantum puts into a datagram with a spoke is what is shown, once it has told everything of
/// itself: the line points half a turn away from the azimuth, reaches as far as its returns do, and has
/// the unpacked pixels, looked up in the table.
pub proof fn quantum_spoke_is_read_back(
    record: QuantumSpokeRecord,
    data: Seq<u8>,
    range_meters: u32,
    table: &[u8; 256],
)
    requires
        record.is_in(data),
        record.spokes > 0,
        record.returns_per_range > 0,
        range_meters * record.returns_per_line / (record.returns_per_range as int) <= u32::MAX,
        spoke_pixels(
            PixelCoding::Table(table),
            record.packed,
            record.returns_per_line as nat,
        ) is Some,
    ensures
        ({
            let line = quantum::frame_line(
                ReceiverState::StatusRequestReceived,
                record.spokes as int,
                range_meters as int,
                table,
                data,
            );
            &&& line is Ok
            &&& line->Ok_0.angle == (record.azimuth + record.spokes as int / 2) % (
            record.spokes as int)
            &&& line->Ok_0.range == range_meters * record.returns_per_line / (
            record.returns_per_range as int)
            &&& line->Ok_0.heading is None
            &&& Some(line->Ok_0.pixels) == spoke_pixels(
                PixelCoding::Table(table),
                record.packed,
                record.returns_per_line as nat,
            )
        }),
        forall|state: ReceiverState|
            state != ReceiverState::StatusRequestReceived ==> #[trigger] quantum::frame_line(
                state,
                record.spokes as int,
                range_meters as int,
                table,
                data,
            ) == Err::<ScanLineView, quantum::FrameProblem>(quantum::FrameProblem::NotReady),
{
    numbers_of_two_bytes(data, 8, record.returns_per_line as int);
    numbers_of_two_bytes(data, 10, record.spokes as int);
    numbers_of_two_bytes(data, 14, record.returns_per_range as int);
    numbers_of_two_bytes(data, 16, record.azimuth as int);
    numbers_of_two_bytes(data, 18, record.packed.len() as int);
}

/// What an RD or HD radar puts into a datagram for a spoke.
pub struct RdSpokeRecord {
    pub hd: bool,
    pub azimuth: u32,
    /// There is a second header between the first one and that of the data.
    pub second_header: bool,
    /// How many bytes the data takes, with its header and what may follow.
    pub length: u32,
    pub packed: Seq<u8>,
}

impl RdSpokeRecord {
    /// Where the header of the data lies.
    pub open spec fn data_header(self, at: int) -> int {
        if self.second_header {
            at + 48
        } else {
            at + 40
        }
    }

    /// The record lies at an offset of a datagram: the header of the kind of radar, perhaps a second
    /// header, the header of the data, and the packed pixels.
    pub open spec fn is_at(self, data: Seq<u8>, at: int) -> bool {
        let header = self.data_header(at);
        &&& 0 <= at
        &&& header + 12 + self.packed.len() <= data.len()
        &&& self.packed.len() <= u32::MAX
        &&& self.length >= self.packed.len() + 8
        &&& self.length >= 12
        &&& holds32(data, at, 1)
        &&& holds32(data, at + 4, 0x28)
        &&& holds32(data, at + 8, self.azimuth as int)
        &&& holds32(
            data,
            at + 12,
            if self.hd {
                3
            } else {
                1
            },
        )
        &&& holds32(data, at + 16, 2)
        &&& holds32(
            data,
            at + 20,
            if self.hd {
                3
            } else {
                1
            },
        )
        &&& holds32(data, at + 24, 1)
        &&& holds32(
            data,
            at + 28,
            if self.hd {
                0
            } else {
                0x1f4
            },
        )
        &&& holds32(data, at + 36, 1)
        &&& self.second_header ==> holds32(data, at + 40, 2)
        &&& holds32(data, header, 3)
        &&& holds32(data, header + 4, self.length as int)
        &&& holds32(data, header + 8, self.packed.len() as int)
        &&& data.subrange(header + 12, header + 12 + self.packed.len()) == self.packed
    }
}

/// What an RD or HD radar puts into a datagram for a spoke is what is shown: the line points half a turn
/// away from the azimuth and has the unpacked pixels, up to the length of a line of its kind. The next
/// spoke lies behind the data.
pub proof fn rd_spoke_is_read_back(
    record: RdSpokeRecord,
    data: Seq<u8>,
    at: int,
    spokes: int,
    range: int,
)
    requires
        record.is_at(data, at),
        spokes > 0,
        spoke_pixels(
            if record.hd {
                PixelCoding::Hd
            } else {
                PixelCoding::Nibbles
            },
            record.packed,
            if record.hd {
                1024
            } else {
                512
            },
        ) is Some,
    ensures
        rd::step_at(data, at, spokes, range) matches rd::Step::Line(line, next) && {
            &&& line.range == range
            &&& line.heading is None
            &&& line.angle == (record.azimuth as int % 65536 + spokes / 2) % spokes
            &&& Some(line.pixels) == spoke_pixels(
                if record.hd {
                    PixelCoding::Hd
                } else {
                    PixelCoding::Nibbles
                },
                record.packed,
                if record.hd {
                    1024
                } else {
                    512
                },
            )
            &&& next == record.data_header(at) + record.length
        },
{
    reveal(rd::step_at);
    let header = record.data_header(at);
    numbers_of_four_bytes(data, at, 1);
    numbers_of_four_bytes(data, at + 4, 0x28);
    numbers_of_four_bytes(data, at + 8, record.azimuth as int);
    numbers_of_four_bytes(
        data,
        at + 12,
        if record.hd {
            3
        } else {
            1
        },
    );
    numbers_of_four_bytes(data, at + 16, 2);
    numbers_of_four_bytes(
        data,
        at + 20,
        if record.hd {
            3
        } else {
            1
        },
    );
    numbers_of_four_bytes(data, at + 24, 1);
    numbers_of_four_bytes(
        data,
        at + 28,
        if record.hd {
            0
        } else {
            0x1f4
        },
    );
    numbers_of_four_bytes(data, at + 36, 1);
    if record.second_header {
        numbers_of_four_bytes(data, at + 40, 2);
    }
    numbers_of_four_bytes(data, header, 3);
    numbers_of_four_bytes(data, header + 4, record.length as int);
    numbers_of_four_bytes(data, header + 8, record.packed.len() as int);
}

/// The spokes of a datagram of an RD or HD radar start behind its header, come one after the other, and
/// reach four times as far as the picture.
pub proof fn rd_spokes_come_in_order(
    record: RdSpokeRecord,
    data: Seq<u8>,
    at: int,
    spokes: int,
    range_meters: int,
)
    requires
        record.is_at(data, at),
        spokes > 0,
        range_meters >= 0,
        spoke_pixels(
            if record.hd {
                PixelCoding::Hd
            } else {
                PixelCoding::Nibbles
            },
            record.packed,
            if record.hd {
                1024
            } else {
                512
            },
        ) is Some,
    ensures
        ({
            let rest = rd::lines_from(
                data,
                record.data_header(at) + record.length,
                spokes,
                4 * range_meters,
            );
            let all = rd::lines_from(data, at, spokes, 4 * range_meters);
            &&& all is Some <==> rest is Some
            &&& all is Some ==> {
                &&& all->0.len() == rest->0.len() + 1
                &&& all->0.skip(1) == rest->0
                &&& all->0[0].range == 4 * range_meters
                &&& all->0[0].angle == (record.azimuth as int % 65536 + spokes / 2) % spokes
            }
            &&& at == 32 ==> rd::frame_lines(data, spokes, range_meters) == all
        }),
{
    rd_spoke_is_read_back(record, data, at, spokes, 4 * range_meters);
    let rest = rd::lines_from(
        data,
        record.data_header(at) + record.length,
        spokes,
        4 * range_meters,
    );
    let all = rd::lines_from(data, at, spokes, 4 * range_meters);
    if let Some(lines) = rest {
        assert(all->0.skip(1) =~= lines);
    }
}

/// A datagram of an RD or HD radar is looked at once the radar has told everything of itself, if its
/// header is that of spokes of this kind of radar and announces a possible number of them.
pub proof fn rd_frames_are_recognised(
    state: ReceiverState,
    data: Seq<u8>,
    field08: u32,
    spokes: u32,
    field18: u32,
    field1c: u32,
)
    requires
        data.len() >= 72,
        holds32(data, 0, 0x010003),
        holds32(data, 8, field08 as int),
        holds32(data, 12, spokes as int),
        holds32(data, 24, field18 as int),
        holds32(data, 28, field1c as int),
    ensures
        rd::header_problem(state, data) is None <==> state == ReceiverState::StatusRequestReceived
            && field08 == 28 && field18 == 1 && field1c != 1024 && 1 <= spokes <= 360,
{
    numbers_of_four_bytes(data, 0, 0x010003);
    numbers_of_four_bytes(data, 8, field08 as int);
    numbers_of_four_bytes(data, 12, spokes as int);
    numbers_of_four_bytes(data, 24, field18 as int);
    numbers_of_four_bytes(data, 28, field1c as int);
}

/// The info report of an RD radar holds a head of four bytes, the serial number of the radar in seven,
/// nine bytes that mean nothing, and the serial number of its model in seven.
pub proof fn rd_serials_are_read_back(
    head: Seq<u8>,
    serial: Seq<u8>,
    gap: Seq<u8>,
    model: Seq<u8>,
    rest: Seq<u8>,
)
    requires
        head.len() == 4,
        serial.len() == 7,
        gap.len() == 9,
        model.len() == 7,
    ensures
        rd::serial_of(head + serial + gap + model + rest) == trim_nul(
            lossy_text(serial),
        ),
        rd::model_serial_of(head + serial + gap + model + rest) == trim_nul(
            lossy_text(model),
        ),
        (head + serial + gap + model).len() == rd::INFO_REPORT_LENGTH,
{
    let data = head + serial + gap + model + rest;
    assert(data.subrange(4, 11) =~= serial);
    assert(data.subrange(20, 27) =~= model);
}

/// The info report of a Quantum radar holds a head of four bytes, the serial number of its model in six,
/// and the serial number of the radar in seven.
pub proof fn quantum_serials_are_read_back(
    head: Seq<u8>,
    model: Seq<u8>,
    serial: Seq<u8>,
    rest: Seq<u8>,
)
    requires
        head.len() == 4,
        model.len() == 6,
        serial.len() == 7,
    ensures
        quantum::serial_of(head + model + serial + rest) == trim_nul(
            lossy_text(serial),
        ),
        quantum::model_serial_of(head + model + serial + rest) == trim_nul(
            lossy_text(model),
        ),
        (head + model + serial).len() == quantum::INFO_REPORT_LENGTH,
{
    let data = head + model + serial + rest;
    assert(data.subrange(10, 17) =~= serial);
    assert(data.subrange(4, 10) =~= model);
}

} // verus!

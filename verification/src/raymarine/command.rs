//! The commands that change the settings of a Raymarine radar.
use vstd::prelude::*;

use crate::control_id::ControlId;
use crate::error::RadarError;
use crate::layout::{
    holds16, holds32, low_bytes_stay, low_two_bytes_stay, numbers_are_written_low_byte_first,
};
use crate::power::Power;
use crate::wire::{le16_bytes, le32_bytes, push_bytes, push_u16_le, push_u32_le};

verus! {

/// The families of Raymarine radars. They speak different languages.
#[derive(Clone, Copy, Debug, PartialEq, Eq, Structural)]
pub enum BaseModel {
    RD,
    Quantum,
}

/// The value that a control is to be set to, in the forms that commands need.
#[derive(Clone, Copy, Debug, PartialEq, Eq, Structural)]
pub struct CommandValue {
    /// The value without its fraction.
    pub integer: i32,
    /// Ten times the value, without its fraction.
    pub tenths: i32,
    /// Ten times the end of a sector, without its fraction, where one is given.
    pub end_tenths: Option<i32>,
    /// Ten times the end of the sector as it is now.
    pub current_end_tenths: i32,
    /// The value as a percentage of 255.
    pub level: u8,
    /// The operational state that the value stands for.
    pub power: Option<Power>,
    pub auto: bool,
    pub enabled: bool,
}

/// A number cut off at the limits of a byte.
pub open spec fn byte_of(n: int) -> int {
    if n < 0 {
        0
    } else if n > 255 {
        255
    } else {
        n
    }
}

/// A number cut off at the limits of a signed 16 bit number.
pub open spec fn short_of(n: int) -> int {
    if n < i16::MIN {
        i16::MIN as int
    } else if n > i16::MAX {
        i16::MAX as int
    } else {
        n
    }
}

/// The first range that is long enough, or the number of ranges.
pub open spec fn first_range(ranges: Seq<i32>, distance: int) -> int
    decreases ranges.len(),
{
    if ranges.len() == 0 || ranges[0] >= distance {
        0
    } else {
        1 + first_range(ranges.skip(1), distance)
    }
}

/// The number of the range that a value asks for: a small value is the number itself, a larger one
/// is a distance. Of a negative value only the low byte counts.
pub open spec fn range_index(ranges: Seq<i32>, value: int) -> int {
    if value < ranges.len() {
        value % 0x100
    } else {
        first_range(ranges, value)
    }
}

impl CommandValue {
    /// The value as a byte.
    pub open spec fn byte(self) -> int {
        byte_of(self.integer as int)
    }

    /// The end of a sector in tenths: the one that is given, else the present one.
    pub open spec fn sector_end(self) -> int {
        short_of(
            match self.end_tenths {
                Some(end) => end as int,
                None => self.current_end_tenths as int,
            },
        )
    }
}

fn to_byte(n: i32) -> (b: u8)
    ensures
        b == byte_of(n as int),
{
    if n < 0 {
        0
    } else if n > 255 {
        255
    } else {
        n as u8
    }
}

/// The two's complement of a number that is cut off at 16 bits.
fn to_short(n: i32) -> (s: u16)
    ensures
        s == short_of(n as int) % 0x1_0000,
{
    if n < i16::MIN as i32 {
        0x8000
    } else if n > i16::MAX as i32 {
        0x7fff
    } else if n < 0 {
        (n + 0x1_0000) as u16
    } else {
        n as u16
    }
}

proof fn first_range_is(ranges: Seq<i32>, distance: int, n: int)
    requires
        0 <= n <= ranges.len(),
        forall|i: int| 0 <= i < n ==> ranges[i] < distance,
        n < ranges.len() ==> ranges[n] >= distance,
    ensures
        first_range(ranges, distance) == n,
    decreases n,
{
    if n > 0 {
        first_range_is(ranges.skip(1), distance, n - 1);
    }
}

/// The number of the range that a value asks for.
pub fn find_range(ranges: &Vec<i32>, value: i32) -> (index: u8)
    requires
        ranges.len() <= 255,
    ensures
        index == range_index(ranges@, value as int),
{
    if value < ranges.len() as i32 {
        let rest: i32 = if value < 0 {
            let low: i32 = (value % 0x100 + 0x100) % 0x100;
            proof {
                low_byte_of_negative(value as int);
            }
            low
        } else {
            value
        };
        rest as u8
    } else {
        let mut i: usize = 0;
        while i < ranges.len() && ranges[i] < value
            invariant
                i <= ranges.len() <= 255,
                forall|j: int| 0 <= j < i ==> ranges[j] < value,
            decreases ranges.len() - i,
        {
            i = i + 1;
        }
        proof {
            first_range_is(ranges@, value as int, i as int);
        }
        i as u8
    }
}

proof fn low_byte_of_negative(value: int)
    requires
        value < 0,
    ensures
        (-((-value) % 0x100) + 0x100) % 0x100 == value % 0x100,
{
}

/// A command of a Quantum with two values: what is set, the family, and the values.
pub open spec fn quantum_words(lead: Seq<u8>, value1: int, value2: int) -> Seq<u8> {
    lead + seq![0x28u8, 0x00u8] + le16_bytes(value1) + le16_bytes(value2)
}

/// A command of a Quantum with a value of one byte.
pub open spec fn quantum_byte(lead0: u8, lead1: u8, value: int) -> Seq<u8> {
    seq![lead0, lead1, 0x28u8, 0x00u8, 0x00u8, value as u8, 0x00u8, 0x00u8]
}

/// Appends a command with a value of one byte.
pub fn one_byte_command(cmd: &mut Vec<u8>, lead: &[u8], value: u8)
    ensures
        final(cmd)@ == old(cmd)@ + quantum_words(lead@, value * 0x100, 0),
{
    two_byte_command(cmd, lead, (value as u16) * 0x100);
}

/// Appends a command with a value of two bytes.
pub fn two_byte_command(cmd: &mut Vec<u8>, lead: &[u8], value: u16)
    ensures
        final(cmd)@ == old(cmd)@ + quantum_words(lead@, value as int, 0),
{
    two_value_command(cmd, lead, value, 0);
}

/// Appends a command with two values.
pub fn two_value_command(cmd: &mut Vec<u8>, lead: &[u8], value1: u16, value2: u16)
    ensures
        final(cmd)@ == old(cmd)@ + quantum_words(lead@, value1 as int, value2 as int),
{
    push_bytes(cmd, lead);
    cmd.push(0x28);
    cmd.push(0x00);
    push_u16_le(cmd, value1);
    push_u16_le(cmd, value2);
    assert(cmd@ =~= old(cmd)@ + quantum_words(lead@, value1 as int, value2 as int));
}

fn quantum_message(lead0: u8, lead1: u8, value: u8) -> (cmd: Vec<u8>)
    ensures
        cmd@ == quantum_byte(lead0, lead1, value as int),
{
    let mut cmd: Vec<u8> = Vec::with_capacity(8);
    one_byte_command(&mut cmd, [lead0, lead1].as_slice(), value);
    proof {
        assert((value * 0x100) % 0x100 == 0);
        assert((value * 0x100) / 0x100 % 0x100 == value);
    }
    assert(cmd@ =~= quantum_byte(lead0, lead1, value as int));
    cmd
}

/// The messages that set a value that the radar may also choose by itself: the choice, and the value
/// where the radar is not to choose.
pub open spec fn quantum_auto(
    choice: (u8, u8),
    setting: (u8, u8),
    auto: bool,
    value: int,
) -> Seq<Seq<u8>> {
    if auto {
        seq![quantum_byte(choice.0, choice.1, 1)]
    } else {
        seq![quantum_byte(choice.0, choice.1, 0), quantum_byte(setting.0, setting.1, value)]
    }
}

/// The messages that set a no transmit sector: whether it is in use, and its limits.
pub open spec fn quantum_sector(sector: u8, value: CommandValue) -> Seq<Seq<u8>> {
    seq![
        quantum_words(
            seq![0x05u8, 0x04u8],
            sector + if value.enabled {
                0x100int
            } else {
                0
            },
            0,
        ),
        quantum_words(
            seq![0x03u8, 0x04u8],
            short_of(value.tenths as int) % 0x1_0000,
            value.sector_end() % 0x1_0000,
        ).push(sector),
    ]
}

/// The messages that set a control of a Quantum, where the radar has it.
pub open spec fn quantum_messages(
    id: ControlId,
    value: CommandValue,
    ranges: Seq<i32>,
) -> Option<Seq<Seq<u8>>> {
    let v = value.byte();
    match id {
        ControlId::Power => Some(
            seq![
                seq![
                    0x10u8,
                    0x00u8,
                    0x28u8,
                    0x00u8,
                    if value.power == Some(Power::Transmit) {
                        1u8
                    } else {
                        0u8
                    },
                    0x00u8,
                    0x00u8,
                    0x00u8,
                ],
            ],
        ),
        ControlId::Range => Some(
            seq![quantum_byte(0x01, 0x01, range_index(ranges, value.integer as int))],
        ),
        ControlId::Gain => Some(quantum_auto((0x01, 0x03), (0x02, 0x83), value.auto, v)),
        ControlId::ColorGain => Some(quantum_auto((0x03, 0x03), (0x04, 0x03), value.auto, v)),
        ControlId::Sea => Some(quantum_auto((0x05, 0x03), (0x06, 0x03), value.auto, v)),
        ControlId::Rain => Some(
            if value.enabled {
                seq![quantum_byte(0x0b, 0x03, 1), quantum_byte(0x0c, 0x03, v)]
            } else {
                seq![quantum_byte(0x0b, 0x03, 0)]
            },
        ),
        ControlId::TargetExpansion => Some(seq![quantum_byte(0x0f, 0x03, v)]),
        ControlId::InterferenceRejection => Some(seq![quantum_byte(0x11, 0x03, v)]),
        ControlId::Mode => Some(seq![quantum_byte(0x14, 0x03, v)]),
        ControlId::BearingAlignment => Some(
            seq![
                quantum_words(
                    seq![0x01u8, 0x04u8],
                    short_of(value.tenths as int) % 0x1_0000,
                    0,
                ),
            ],
        ),
        ControlId::MainBangSuppression => Some(seq![quantum_byte(0x0a, 0x04, v)]),
        ControlId::NoTransmitSector1 => Some(quantum_sector(0, value)),
        ControlId::NoTransmitSector2 => Some(quantum_sector(1, value)),
        ControlId::SeaClutterCurve => Some(seq![quantum_byte(0x12, 0x03, v - 1)]),
        ControlId::Doppler => Some(seq![quantum_byte(0x17, 0x03, v * 3)]),
        _ => None,
    }
}

/// The contents of a list of messages.
pub open spec fn messages_view(messages: Seq<Vec<u8>>) -> Seq<Seq<u8>> {
    messages.map_values(|m: Vec<u8>| m@)
}

fn one_message(cmd: Vec<u8>) -> (messages: Vec<Vec<u8>>)
    ensures
        messages_view(messages@) == seq![cmd@],
{
    let messages = vec![cmd];
    assert(messages_view(messages@) =~= seq![cmd@]);
    messages
}

fn two_messages(first: Vec<u8>, second: Vec<u8>) -> (messages: Vec<Vec<u8>>)
    ensures
        messages_view(messages@) == seq![first@, second@],
{
    let messages = vec![first, second];
    assert(messages_view(messages@) =~= seq![first@, second@]);
    messages
}

fn quantum_auto_messages(
    choice: (u8, u8),
    setting: (u8, u8),
    auto: bool,
    value: u8,
) -> (messages: Vec<Vec<u8>>)
    ensures
        messages_view(messages@) == quantum_auto(choice, setting, auto, value as int),
{
    if auto {
        one_message(quantum_message(choice.0, choice.1, 1))
    } else {
        two_messages(
            quantum_message(choice.0, choice.1, 0),
            quantum_message(setting.0, setting.1, value),
        )
    }
}

/// The messages that set a no transmit sector.
pub fn send_no_transmit_cmd(value: &CommandValue, sector: u8) -> (messages: Vec<Vec<u8>>)
    ensures
        messages_view(messages@) == quantum_sector(sector, *value),
{
    let mut first: Vec<u8> = Vec::with_capacity(12);
    let enabled: u16 = if value.enabled {
        0x100
    } else {
        0
    };
    two_byte_command(&mut first, [0x05u8, 0x04u8].as_slice(), sector as u16 + enabled);
    let mut second: Vec<u8> = Vec::with_capacity(12);
    let end: i32 = match value.end_tenths {
        Some(end) => end,
        None => value.current_end_tenths,
    };
    two_value_command(
        &mut second,
        [0x03u8, 0x04u8].as_slice(),
        to_short(value.tenths),
        to_short(end),
    );
    second.push(sector);
    proof {
        assert([0x05u8, 0x04u8]@ =~= seq![0x05u8, 0x04u8]);
        assert([0x03u8, 0x04u8]@ =~= seq![0x03u8, 0x04u8]);
        assert(first@ =~= quantum_sector(sector, *value)[0]);
        assert(second@ =~= quantum_sector(sector, *value)[1]);
    }
    two_messages(first, second)
}

/// The messages that set a control of a Quantum. Where the radar does not have the control, nothing
/// is sent.
pub fn set_control_quantum(id: ControlId, value: &CommandValue, ranges: &Vec<i32>) -> (r: Result<
    Vec<Vec<u8>>,
    RadarError,
>)
    requires
        ranges.len() <= 255,
        id == ControlId::SeaClutterCurve ==> value.byte() >= 1,
        id == ControlId::Doppler ==> value.byte() * 3 <= 255,
    ensures
        match r {
            Ok(messages) => quantum_messages(id, *value, ranges@) == Some(
                messages_view(messages@),
            ),
            Err(RadarError::CannotSetControlId(e)) => e == id && quantum_messages(
                id,
                *value,
                ranges@,
            ) is None,
            Err(_) => false,
        },
{
    let v: u8 = to_byte(value.integer);
    let messages = match id {
        ControlId::Power => {
            let on: u8 = match value.power {
                Some(Power::Transmit) => 1,
                _ => 0,
            };
            let cmd = vec![0x10u8, 0x00, 0x28, 0x00, on, 0x00, 0x00, 0x00];
            assert(cmd@ =~= quantum_messages(id, *value, ranges@)->0[0]);
            one_message(cmd)
        },
        ControlId::Range => one_message(
            quantum_message(0x01, 0x01, find_range(ranges, value.integer)),
        ),
        ControlId::Gain => quantum_auto_messages((0x01, 0x03), (0x02, 0x83), value.auto, v),
        ControlId::ColorGain => quantum_auto_messages((0x03, 0x03), (0x04, 0x03), value.auto, v),
        ControlId::Sea => quantum_auto_messages((0x05, 0x03), (0x06, 0x03), value.auto, v),
        ControlId::Rain => {
            if value.enabled {
                two_messages(quantum_message(0x0b, 0x03, 1), quantum_message(0x0c, 0x03, v))
            } else {
                one_message(quantum_message(0x0b, 0x03, 0))
            }
        },
        ControlId::TargetExpansion => one_message(quantum_message(0x0f, 0x03, v)),
        ControlId::InterferenceRejection => one_message(quantum_message(0x11, 0x03, v)),
        ControlId::Mode => one_message(quantum_message(0x14, 0x03, v)),
        ControlId::BearingAlignment => {
            let mut cmd: Vec<u8> = Vec::with_capacity(8);
            two_byte_command(&mut cmd, [0x01u8, 0x04u8].as_slice(), to_short(value.tenths));
            assert([0x01u8, 0x04u8]@ =~= seq![0x01u8, 0x04u8]);
            assert(cmd@ =~= quantum_messages(id, *value, ranges@)->0[0]);
            one_message(cmd)
        },
        ControlId::MainBangSuppression => one_message(quantum_message(0x0a, 0x04, v)),
        ControlId::NoTransmitSector1 => send_no_transmit_cmd(value, 0),
        ControlId::NoTransmitSector2 => send_no_transmit_cmd(value, 1),
        ControlId::SeaClutterCurve => one_message(quantum_message(0x12, 0x03, v - 1)),
        ControlId::Doppler => one_message(quantum_message(0x17, 0x03, v * 3)),
        _ => {
            return Err(RadarError::CannotSetControlId(id));
        },
    };
    Ok(messages)
}

/// A command of an RD radar with a value.
pub open spec fn rd_standard(lead0: u8, lead1: u8, value: u8) -> Seq<u8> {
    seq![lead0, lead1] + standard_tail(value)
}

/// What follows the lead of a command with a value.
pub open spec fn standard_tail(value: u8) -> Seq<u8> {
    seq![
        0x01u8, 0x00, 0x01, 0x00, 0x00, 0x00, 0x00, 0x00, 0x00, 0x00, 0x01, 0x00, 0x00, 0x00, 0x00,
        0x00, 0x00, 0x00, value, 0x00, 0x00, 0x00,
    ]
}

/// A command of an RD radar that turns something on or off.
pub open spec fn rd_on_off(lead0: u8, lead1: u8, on_off: u8) -> Seq<u8> {
    seq![lead0, lead1] + on_off_tail(on_off)
}

/// What follows the lead of a command that turns something on or off.
pub open spec fn on_off_tail(on_off: u8) -> Seq<u8> {
    seq![
        0x01u8, 0x00, 0x01, 0x00, 0x00, 0x00, 0x01, 0x00, 0x00, 0x00, 0x00, 0x00, 0x00, 0x00, on_off,
        0x00, 0x00, 0x00, 0x00, 0x00, 0x00, 0x00,
    ]
}

/// Appends a command with a value.
pub fn standard_command(cmd: &mut Vec<u8>, lead: &[u8], value: u8)
    ensures
        final(cmd)@ == old(cmd)@ + lead@ + standard_tail(value),
{
    push_bytes(cmd, lead);
    let tail: [u8; 22] = [
        0x01, 0x00, 0x01, 0x00, 0x00, 0x00, 0x00, 0x00, 0x00, 0x00, 0x01, 0x00, 0x00, 0x00, 0x00,
        0x00, 0x00, 0x00, value, 0x00, 0x00, 0x00,
    ];
    push_bytes(cmd, tail.as_slice());
    assert(tail@ =~= standard_tail(value));
}

/// Appends a command that turns something on or off.
pub fn on_off_command(cmd: &mut Vec<u8>, lead: &[u8], on_off: u8)
    ensures
        final(cmd)@ == old(cmd)@ + lead@ + on_off_tail(on_off),
{
    push_bytes(cmd, lead);
    let tail: [u8; 22] = [
        0x01, 0x00, 0x01, 0x00, 0x00, 0x00, 0x01, 0x00, 0x00, 0x00, 0x00, 0x00, 0x00, 0x00, on_off,
        0x00, 0x00, 0x00, 0x00, 0x00, 0x00, 0x00,
    ];
    push_bytes(cmd, tail.as_slice());
    assert(tail@ =~= on_off_tail(on_off));
}

fn standard_message(lead0: u8, lead1: u8, value: u8) -> (cmd: Vec<u8>)
    ensures
        cmd@ == rd_standard(lead0, lead1, value),
{
    let mut cmd: Vec<u8> = Vec::with_capacity(24);
    standard_command(&mut cmd, [lead0, lead1].as_slice(), value);
    assert(cmd@ =~= rd_standard(lead0, lead1, value));
    cmd
}

fn on_off_message(lead0: u8, lead1: u8, on_off: u8) -> (cmd: Vec<u8>)
    ensures
        cmd@ == rd_on_off(lead0, lead1, on_off),
{
    let mut cmd: Vec<u8> = Vec::with_capacity(24);
    on_off_command(&mut cmd, [lead0, lead1].as_slice(), on_off);
    assert(cmd@ =~= rd_on_off(lead0, lead1, on_off));
    cmd
}

/// The messages that set a value that the radar may also choose by itself.
pub open spec fn rd_auto(lead0: u8, lead1: u8, auto: bool, level: u8) -> Seq<Seq<u8>> {
    if auto {
        seq![rd_on_off(lead0, lead1, 1)]
    } else {
        seq![rd_on_off(lead0, lead1, 0), rd_standard(lead0, lead1, level)]
    }
}

fn rd_auto_messages(lead0: u8, lead1: u8, auto: bool, level: u8) -> (messages: Vec<Vec<u8>>)
    ensures
        messages_view(messages@) == rd_auto(lead0, lead1, auto, level),
{
    if auto {
        one_message(on_off_message(lead0, lead1, 1))
    } else {
        two_messages(on_off_message(lead0, lead1, 0), standard_message(lead0, lead1, level))
    }
}

/// The messages that set a control of an RD radar, where the radar has it. The FTC and the main bang
/// suppression are switches: automatic means off.
pub open spec fn rd_messages(
    id: ControlId,
    value: CommandValue,
    ranges: Seq<i32>,
) -> Option<Seq<Seq<u8>>> {
    let switch = if value.auto {
        0u8
    } else {
        1u8
    };
    match id {
        ControlId::Power => Some(
            seq![
                seq![
                    0x01u8,
                    0x80u8,
                    0x01u8,
                    0x00u8,
                    if value.power == Some(Power::Transmit) {
                        1u8
                    } else {
                        0u8
                    },
                    0x00u8,
                    0x00u8,
                    0x00u8,
                ],
            ],
        ),
        ControlId::Range => Some(
            seq![
                seq![
                    0x01u8,
                    0x81u8,
                    0x01u8,
                    0x00u8,
                    0x01u8,
                    0x00u8,
                    0x00u8,
                    0x00u8,
                    range_index(ranges, value.integer as int) as u8,
                    0x00u8,
                    0x00u8,
                    0x00u8,
                ],
            ],
        ),
        ControlId::BearingAlignment => Some(
            seq![
                seq![0x07u8, 0x82u8, 0x01u8, 0x00u8] + le32_bytes(value.tenths as int % 0x1_0000_0000),
            ],
        ),
        ControlId::Gain => Some(rd_auto(0x01, 0x83, value.auto, value.level)),
        ControlId::Sea => Some(rd_auto(0x02, 0x83, value.auto, value.level)),
        ControlId::Rain => Some(rd_auto(0x03, 0x83, value.auto, value.level)),
        ControlId::Ftc => Some(
            if value.auto {
                seq![rd_on_off(0x04, 0x83, 0)]
            } else {
                seq![rd_on_off(0x04, 0x83, 1), rd_standard(0x04, 0x83, value.level)]
            },
        ),
        ControlId::MainBangSuppression => Some(seq![rd_standard(0x01, 0x82, switch)]),
        ControlId::DisplayTiming => Some(
            seq![
                seq![
                    0x02u8,
                    0x82u8,
                    0x01u8,
                    0x00u8,
                    0x01u8,
                    0x00u8,
                    0x00u8,
                    0x00u8,
                    value.level,
                    0x00u8,
                    0x00u8,
                    0x00u8,
                ],
            ],
        ),
        ControlId::InterferenceRejection => Some(
            seq![
                seq![0x07u8, 0x83u8, 0x01u8, 0x00u8, value.level, 0x00u8, 0x00u8, 0x00u8],
            ],
        ),
        _ => None,
    }
}

fn to_word(n: i32) -> (w: u32)
    ensures
        w == n as int % 0x1_0000_0000,
{
    if n < 0 {
        (n as i64 + 0x1_0000_0000) as u32
    } else {
        n as u32
    }
}

/// The messages that set a control of an RD radar. Where the radar does not have the control,
/// nothing is sent.
pub fn set_control_rd(id: ControlId, value: &CommandValue, ranges: &Vec<i32>) -> (r: Result<
    Vec<Vec<u8>>,
    RadarError,
>)
    requires
        ranges.len() <= 255,
    ensures
        match r {
            Ok(messages) => rd_messages(id, *value, ranges@) == Some(messages_view(messages@)),
            Err(RadarError::CannotSetControlId(e)) => e == id && rd_messages(
                id,
                *value,
                ranges@,
            ) is None,
            Err(_) => false,
        },
{
    let switch: u8 = if value.auto {
        0
    } else {
        1
    };
    let messages = match id {
        ControlId::Power => {
            let on: u8 = match value.power {
                Some(Power::Transmit) => 1,
                _ => 0,
            };
            let cmd = vec![0x01u8, 0x80, 0x01, 0x00, on, 0x00, 0x00, 0x00];
            assert(cmd@ =~= rd_messages(id, *value, ranges@)->0[0]);
            one_message(cmd)
        },
        ControlId::Range => {
            let index: u8 = find_range(ranges, value.integer);
            let cmd = vec![
                0x01u8, 0x81, 0x01, 0x00, 0x01, 0x00, 0x00, 0x00, index, 0x00, 0x00, 0x00,
            ];
            assert(cmd@ =~= rd_messages(id, *value, ranges@)->0[0]);
            one_message(cmd)
        },
        ControlId::BearingAlignment => {
            let mut cmd = vec![0x07u8, 0x82, 0x01, 0x00];
            push_u32_le(&mut cmd, to_word(value.tenths));
            assert(cmd@ =~= rd_messages(id, *value, ranges@)->0[0]);
            one_message(cmd)
        },
        ControlId::Gain => rd_auto_messages(0x01, 0x83, value.auto, value.level),
        ControlId::Sea => rd_auto_messages(0x02, 0x83, value.auto, value.level),
        ControlId::Rain => rd_auto_messages(0x03, 0x83, value.auto, value.level),
        ControlId::Ftc => {
            if value.auto {
                one_message(on_off_message(0x04, 0x83, 0))
            } else {
                two_messages(
                    on_off_message(0x04, 0x83, 1),
                    standard_message(0x04, 0x83, value.level),
                )
            }
        },
        ControlId::MainBangSuppression => one_message(standard_message(0x01, 0x82, switch)),
        ControlId::DisplayTiming => {
            let cmd = vec![
                0x02u8, 0x82, 0x01, 0x00, 0x01, 0x00, 0x00, 0x00, value.level, 0x00, 0x00, 0x00,
            ];
            assert(cmd@ =~= rd_messages(id, *value, ranges@)->0[0]);
            one_message(cmd)
        },
        ControlId::InterferenceRejection => {
            let cmd = vec![0x07u8, 0x83, 0x01, 0x00, value.level, 0x00, 0x00, 0x00];
            assert(cmd@ =~= rd_messages(id, *value, ranges@)->0[0]);
            one_message(cmd)
        },
        _ => {
            return Err(RadarError::CannotSetControlId(id));
        },
    };
    Ok(messages)
}

/// The messages that set a control of a radar of either family.
pub open spec fn command_messages(
    model: BaseModel,
    id: ControlId,
    value: CommandValue,
    ranges: Seq<i32>,
) -> Option<Seq<Seq<u8>>> {
    match model {
        BaseModel::RD => rd_messages(id, value, ranges),
        BaseModel::Quantum => quantum_messages(id, value, ranges),
    }
}

/// The messages that set a control.
pub fn set_control(
    model: BaseModel,
    id: ControlId,
    value: &CommandValue,
    ranges: &Vec<i32>,
) -> (r: Result<Vec<Vec<u8>>, RadarError>)
    requires
        ranges.len() <= 255,
        model == BaseModel::Quantum && id == ControlId::SeaClutterCurve ==> value.byte() >= 1,
        model == BaseModel::Quantum && id == ControlId::Doppler ==> value.byte() * 3 <= 255,
    ensures
        match r {
            Ok(messages) => command_messages(model, id, *value, ranges@) == Some(
                messages_view(messages@),
            ),
            Err(RadarError::CannotSetControlId(e)) => e == id && command_messages(
                model,
                id,
                *value,
                ranges@,
            ) is None,
            Err(_) => false,
        },
{
    match model {
        BaseModel::RD => set_control_rd(id, value, ranges),
        BaseModel::Quantum => set_control_quantum(id, value, ranges),
    }
}

/// A value that the radar is to choose by itself is never sent along, and one that it is not to
/// choose always is: this holds for the gain and the sea clutter of both families.
pub proof fn value_goes_along_with_manual(
    model: BaseModel,
    id: ControlId,
    value: CommandValue,
    ranges: Seq<i32>,
)
    requires
        id == ControlId::Gain || id == ControlId::Sea,
    ensures
        command_messages(model, id, value, ranges) matches Some(messages) && messages.len()
            == if value.auto {
            1int
        } else {
            2
        },
{
}

/// Asking for the distance of a range selects the first range of that distance.
pub proof fn distance_selects_its_range(ranges: Seq<i32>, index: int)
    requires
        0 <= index < ranges.len() <= 255,
        forall|i: int, j: int| 0 <= i < j < ranges.len() ==> ranges[i] < ranges[j],
        ranges[index] >= ranges.len(),
    ensures
        range_index(ranges, ranges[index] as int) == index,
{
    first_range_is(ranges, ranges[index] as int, index);
}

/// The number of a range is the one that a value asks for: the value itself where it is such a number,
/// else the first range that reaches as far as the value, or the number behind the last one where none
/// does.
pub proof fn range_reaches_far_enough(ranges: Seq<i32>, value: int)
    requires
        ranges.len() <= 255,
    ensures
        ({
            let n = range_index(ranges, value);
            &&& value < 0 ==> 0 <= n < 256 && (n - value) % 256 == 0
            &&& 0 <= value < ranges.len() ==> n == value
            &&& value >= ranges.len() ==> {
                &&& 0 <= n <= ranges.len()
                &&& n < ranges.len() ==> ranges[n] >= value
                &&& forall|i: int| 0 <= i < n ==> #[trigger] ranges[i] < value
            }
        }),
{
    first_range_bounds(ranges, value);
}

proof fn first_range_bounds(ranges: Seq<i32>, distance: int)
    ensures
        ({
            let n = first_range(ranges, distance);
            &&& 0 <= n <= ranges.len()
            &&& n < ranges.len() ==> ranges[n] >= distance
            &&& forall|i: int| 0 <= i < n ==> #[trigger] ranges[i] < distance
        }),
    decreases ranges.len(),
{
    if ranges.len() > 0 && ranges[0] < distance {
        let rest = ranges.skip(1);
        first_range_bounds(rest, distance);
        assert forall|i: int| 0 <= i < first_range(ranges, distance) implies #[trigger] ranges[i]
            < distance by {
            if i > 0 {
                assert(rest[i - 1] < distance);
            }
        }
    }
}

/// A message of 24 bytes for an RD radar that turns something on or off: byte 16 tells which.
pub open spec fn turns(m: Seq<u8>, lead0: u8, lead1: u8, on: bool) -> bool {
    &&& m.len() == 24
    &&& m[0] == lead0 && m[1] == lead1
    &&& m[2] == 1 && m[4] == 1 && m[8] == 1
    &&& m[16] == if on {
        1
    } else {
        0int
    }
    &&& forall|i: int|
        2 < i < 24 && i != 4 && i != 8 && i != 16 ==> #[trigger] m[i] == 0
}

/// A message of 24 bytes for an RD radar that sets a level: byte 20 is the level.
pub open spec fn sets_level(m: Seq<u8>, lead0: u8, lead1: u8, level: u8) -> bool {
    &&& m.len() == 24
    &&& m[0] == lead0 && m[1] == lead1
    &&& m[2] == 1 && m[4] == 1 && m[12] == 1
    &&& m[20] == level
    &&& forall|i: int|
        2 < i < 24 && i != 4 && i != 12 && i != 20 ==> #[trigger] m[i] == 0
}

/// The gain, the sea clutter and the rain filter of an RD radar: first the radar is told whether it is
/// to choose by itself, exactly as the request asks. Where it is not, the level follows.
pub proof fn rd_is_told_who_chooses(
    id: ControlId,
    value: CommandValue,
    ranges: Seq<i32>,
)
    requires
        id == ControlId::Gain || id == ControlId::Sea || id == ControlId::Rain,
    ensures
        rd_messages(id, value, ranges) matches Some(messages) && {
            let lead0: u8 = if id == ControlId::Gain {
                1
            } else if id == ControlId::Sea {
                2
            } else {
                3
            };
            &&& messages.len() == if value.auto {
                1int
            } else {
                2
            }
            &&& turns(messages[0], lead0, 0x83, value.auto)
            &&& !value.auto ==> sets_level(messages[1], lead0, 0x83, value.level)
        },
{
}

/// The FTC filter and the main bang suppression of an RD radar are switches, which automatic turns off.
/// The filter is given its level when it is turned on.
pub proof fn rd_switches_are_turned(value: CommandValue, ranges: Seq<i32>)
    ensures
        rd_messages(ControlId::Ftc, value, ranges) matches Some(messages) && {
            &&& turns(messages[0], 4, 0x83, !value.auto)
            &&& messages.len() == if value.auto {
                1int
            } else {
                2
            }
            &&& !value.auto ==> sets_level(messages[1], 4, 0x83, value.level)
        },
        rd_messages(ControlId::MainBangSuppression, value, ranges) matches Some(messages)
            && messages.len() == 1 && sets_level(
            messages[0],
            1,
            0x82,
            if value.auto {
                0
            } else {
                1
            },
        ),
{
}

/// An RD radar is told whether to transmit.
pub proof fn rd_gets_the_state(value: CommandValue, ranges: Seq<i32>)
    ensures
        rd_messages(ControlId::Power, value, ranges) matches Some(m) && {
            &&& m.len() == 1 && m[0].len() == 8
            &&& m[0][0] == 1 && m[0][1] == 0x80 && m[0][2] == 1 && m[0][3] == 0
            &&& m[0][4] == 1 <==> value.power == Some(Power::Transmit)
            &&& m[0][4] == 0 <==> value.power != Some(Power::Transmit)
            &&& m[0][5] == 0 && m[0][6] == 0 && m[0][7] == 0
        },
{
}

/// An RD radar is told the number of the range that a request asks for.
pub proof fn rd_gets_the_range(value: CommandValue, ranges: Seq<i32>)
    requires
        ranges.len() <= 255,
        value.integer >= 0,
    ensures
        rd_messages(ControlId::Range, value, ranges) matches Some(m) && {
            let n = m[0][8] as int;
            &&& m.len() == 1 && m[0].len() == 12
            &&& m[0][0] == 1 && m[0][1] == 0x81 && m[0][2] == 1 && m[0][3] == 0 && m[0][4] == 1
            &&& m[0][5] == 0 && m[0][6] == 0 && m[0][7] == 0
            &&& m[0][9] == 0 && m[0][10] == 0 && m[0][11] == 0
            &&& value.integer < ranges.len() ==> n == value.integer
            &&& value.integer >= ranges.len() ==> n <= ranges.len()
            &&& value.integer >= ranges.len() && n < ranges.len() ==> ranges[n] >= value.integer
            &&& value.integer >= ranges.len() ==> forall|i: int|
                0 <= i < n ==> #[trigger] ranges[i] < value.integer
        },
{
    range_reaches_far_enough(ranges, value.integer as int);
}

/// The alignment of an RD radar goes along in tenths of a degree.
pub proof fn rd_gets_the_alignment(value: CommandValue, ranges: Seq<i32>)
    ensures
        rd_messages(ControlId::BearingAlignment, value, ranges) matches Some(m) && {
            &&& m.len() == 1 && m[0].len() == 8
            &&& m[0][0] == 7 && m[0][1] == 0x82 && m[0][2] == 1 && m[0][3] == 0
            &&& holds32(m[0], 4, value.tenths as int)
        },
{
    let word = value.tenths as int % 0x1_0000_0000;
    let m = rd_messages(ControlId::BearingAlignment, value, ranges)->0[0];
    let tail = le32_bytes(word);
    numbers_are_written_low_byte_first(word);
    low_bytes_stay(value.tenths as int);
    assert(m[4] == tail[0] && m[5] == tail[1] && m[6] == tail[2] && m[7] == tail[3]);
}

/// The display timing and the interference rejection of an RD radar take one message with the level.
pub proof fn rd_gets_the_level(value: CommandValue, ranges: Seq<i32>)
    ensures
        rd_messages(ControlId::DisplayTiming, value, ranges) matches Some(m) && {
            &&& m.len() == 1 && m[0].len() == 12
            &&& m[0][0] == 2 && m[0][1] == 0x82 && m[0][2] == 1 && m[0][3] == 0 && m[0][4] == 1
            &&& m[0][5] == 0 && m[0][6] == 0 && m[0][7] == 0
            &&& m[0][8] == value.level
            &&& m[0][9] == 0 && m[0][10] == 0 && m[0][11] == 0
        },
        rd_messages(ControlId::InterferenceRejection, value, ranges) matches Some(m) && {
            &&& m.len() == 1 && m[0].len() == 8
            &&& m[0][0] == 7 && m[0][1] == 0x83 && m[0][2] == 1 && m[0][3] == 0
            &&& m[0][4] == value.level
            &&& m[0][5] == 0 && m[0][6] == 0 && m[0][7] == 0
        },
{
}

/// These are all the controls that an RD radar can be told to change.
pub proof fn rd_takes_these_controls(id: ControlId, value: CommandValue, ranges: Seq<i32>)
    ensures
        rd_messages(id, value, ranges) is Some <==> (id == ControlId::Power || id == ControlId::Range
            || id == ControlId::BearingAlignment || id == ControlId::Gain || id == ControlId::Sea || id
            == ControlId::Rain || id == ControlId::Ftc || id == ControlId::MainBangSuppression || id
            == ControlId::DisplayTiming || id == ControlId::InterferenceRejection),
{
}

/// A message of eight bytes for a Quantum that carries a value of one byte, at byte 5.
pub open spec fn carries(m: Seq<u8>, lead0: u8, lead1: u8, value: int) -> bool {
    &&& m.len() == 8
    &&& m[0] == lead0 && m[1] == lead1
    &&& m[2] == 0x28
    &&& m[3] == 0 && m[4] == 0
    &&& m[5] == value
    &&& m[6] == 0 && m[7] == 0
}

/// A number cut off at the limits of a byte.
pub open spec fn is_cut(n: int, byte: int) -> bool {
    &&& 0 <= byte <= 255
    &&& 0 <= n <= 255 ==> byte == n
    &&& n < 0 ==> byte == 0
    &&& n > 255 ==> byte == 255
}

/// The gain, the color gain and the sea clutter of a Quantum: first the radar is told whether it is to
/// choose by itself, exactly as the request asks. Where it is not, the value follows. The rain filter is
/// turned on and given its value, or turned off, as the request asks.
pub proof fn quantum_is_told_who_chooses(
    id: ControlId,
    value: CommandValue,
    ranges: Seq<i32>,
    byte: int,
)
    requires
        id == ControlId::Gain || id == ControlId::ColorGain || id == ControlId::Sea || id
            == ControlId::Rain,
        is_cut(value.integer as int, byte),
    ensures
        quantum_messages(id, value, ranges) matches Some(messages) && {
            let (first, first1, second, second1) = if id == ControlId::Gain {
                (1u8, 3u8, 2u8, 0x83u8)
            } else if id == ControlId::ColorGain {
                (3u8, 3u8, 4u8, 3u8)
            } else if id == ControlId::Sea {
                (5u8, 3u8, 6u8, 3u8)
            } else {
                (11u8, 3u8, 12u8, 3u8)
            };
            let alone = if id == ControlId::Rain {
                !value.enabled
            } else {
                value.auto
            };
            &&& messages.len() == if alone {
                1int
            } else {
                2
            }
            &&& carries(
                messages[0],
                first,
                first1,
                if id == ControlId::Rain && value.enabled || id != ControlId::Rain && value.auto {
                    1
                } else {
                    0
                },
            )
            &&& !alone ==> carries(messages[1], second, second1, byte)
        },
{
}

/// All other settings of a Quantum but its sectors take one message, which carries the value.
pub proof fn quantum_gets_the_value(value: CommandValue, ranges: Seq<i32>, byte: int)
    requires
        ranges.len() <= 255,
        value.integer >= 0,
        is_cut(value.integer as int, byte),
    ensures
        quantum_messages(ControlId::Power, value, ranges) matches Some(m) && m.len() == 1 && m[0]
            == seq![
            0x10u8,
            0,
            0x28,
            0,
            if value.power == Some(Power::Transmit) {
                1
            } else {
                0
            },
            0,
            0,
            0,
        ],
        quantum_messages(ControlId::Range, value, ranges) matches Some(m) && m.len() == 1 && {
            let n = m[0][5] as int;
            &&& carries(m[0], 1, 1, n)
            &&& value.integer < ranges.len() ==> n == value.integer
            &&& value.integer >= ranges.len() ==> n <= ranges.len()
            &&& value.integer >= ranges.len() && n < ranges.len() ==> ranges[n] >= value.integer
            &&& value.integer >= ranges.len() ==> forall|i: int|
                0 <= i < n ==> #[trigger] ranges[i] < value.integer
        },
        quantum_messages(ControlId::TargetExpansion, value, ranges) matches Some(m) && m.len() == 1
            && carries(m[0], 0x0f, 3, byte),
        quantum_messages(ControlId::InterferenceRejection, value, ranges) matches Some(m) && m.len()
            == 1 && carries(m[0], 0x11, 3, byte),
        quantum_messages(ControlId::Mode, value, ranges) matches Some(m) && m.len() == 1 && carries(
            m[0],
            0x14,
            3,
            byte,
        ),
        quantum_messages(ControlId::MainBangSuppression, value, ranges) matches Some(m) && m.len()
            == 1 && carries(m[0], 0x0a, 4, byte),
        byte >= 1 ==> (quantum_messages(ControlId::SeaClutterCurve, value, ranges) matches Some(m)
            && m.len() == 1 && carries(m[0], 0x12, 3, byte - 1)),
        byte <= 85 ==> (quantum_messages(ControlId::Doppler, value, ranges) matches Some(m)
            && m.len() == 1 && carries(m[0], 0x17, 3, 3 * byte)),
{
    range_reaches_far_enough(ranges, value.integer as int);
}

/// A number cut off at the limits of two bytes with a sign.
pub open spec fn is_cut_short(n: int, short: int) -> bool {
    &&& i16::MIN <= short <= i16::MAX
    &&& i16::MIN <= n <= i16::MAX ==> short == n
    &&& n < i16::MIN ==> short == i16::MIN
    &&& n > i16::MAX ==> short == i16::MAX
}

/// The alignment of a Quantum goes along in tenths of a degree.
pub proof fn quantum_gets_the_alignment(value: CommandValue, ranges: Seq<i32>, short: int)
    requires
        is_cut_short(value.tenths as int, short),
    ensures
        quantum_messages(ControlId::BearingAlignment, value, ranges) matches Some(m) && {
            &&& m.len() == 1
            &&& m[0].len() == 8
            &&& m[0][0] == 1 && m[0][1] == 4 && m[0][2] == 0x28 && m[0][3] == 0
            &&& holds16(m[0], 4, short)
            &&& m[0][6] == 0 && m[0][7] == 0
        },
{
    low_two_bytes_stay(short);
    let word = short_of(value.tenths as int) % 0x1_0000;
    let m = quantum_messages(ControlId::BearingAlignment, value, ranges)->0[0];
    assert(m[4] == le16_bytes(word)[0] && m[5] == le16_bytes(word)[1]);
    assert(m[6] == le16_bytes(0)[0] && m[7] == le16_bytes(0)[1]);
    numbers_are_written_low_byte_first(word);
}

/// A sector of a Quantum takes two messages: whether it is in use, and its two limits in tenths of a
/// degree, each with the number of the sector. An end that is not given stays as it is.
pub proof fn quantum_gets_the_sector(
    id: ControlId,
    value: CommandValue,
    ranges: Seq<i32>,
    start: int,
    end: int,
)
    requires
        id == ControlId::NoTransmitSector1 || id == ControlId::NoTransmitSector2,
        is_cut_short(value.tenths as int, start),
        value.end_tenths matches Some(given) ==> is_cut_short(given as int, end),
        value.end_tenths is None ==> is_cut_short(value.current_end_tenths as int, end),
    ensures
        quantum_messages(id, value, ranges) matches Some(m) && {
            let number: u8 = if id == ControlId::NoTransmitSector1 {
                0
            } else {
                1
            };
            let on: u8 = if value.enabled {
                1
            } else {
                0
            };
            &&& m.len() == 2
            &&& m[0] == seq![5u8, 4, 0x28, 0, number, on, 0, 0]
            &&& m[1].len() == 9
            &&& m[1][0] == 3 && m[1][1] == 4 && m[1][2] == 0x28 && m[1][3] == 0
            &&& holds16(m[1], 4, start)
            &&& holds16(m[1], 6, end)
            &&& m[1][8] == number
        },
{
    let m = quantum_messages(id, value, ranges)->0;
    let number: u8 = if id == ControlId::NoTransmitSector1 {
        0
    } else {
        1
    };
    let on: u8 = if value.enabled {
        1
    } else {
        0
    };
    let word1 = short_of(value.tenths as int) % 0x1_0000;
    let word2 = value.sector_end() % 0x1_0000;
    low_two_bytes_stay(start);
    low_two_bytes_stay(end);
    numbers_are_written_low_byte_first(word1);
    numbers_are_written_low_byte_first(word2);
    assert(m[1][4] == le16_bytes(word1)[0] && m[1][5] == le16_bytes(word1)[1]);
    assert(m[1][6] == le16_bytes(word2)[0] && m[1][7] == le16_bytes(word2)[1]);
    let word0 = number + if value.enabled {
        0x100int
    } else {
        0
    };
    assert(le16_bytes(word0) =~= seq![number, on]);
    assert(le16_bytes(0) =~= seq![0u8, 0u8]);
    assert(m[0] =~= seq![5u8, 4, 0x28, 0, number, on, 0, 0]);
}

/// These are all the controls that a Quantum can be told to change.
pub proof fn quantum_takes_these_controls(id: ControlId, value: CommandValue, ranges: Seq<i32>)
    ensures
        quantum_messages(id, value, ranges) is Some <==> (id == ControlId::Power || id
            == ControlId::Range || id == ControlId::Gain || id == ControlId::ColorGain || id
            == ControlId::Sea || id == ControlId::Rain || id == ControlId::TargetExpansion || id
            == ControlId::InterferenceRejection || id == ControlId::Mode || id
            == ControlId::BearingAlignment || id == ControlId::MainBangSuppression || id
            == ControlId::NoTransmitSector1 || id == ControlId::NoTransmitSector2 || id
            == ControlId::SeaClutterCurve || id == ControlId::Doppler),
{
}

/// Radars of the two families are spoken to each in their own language.
pub proof fn families_are_told_apart(
    id: ControlId,
    value: CommandValue,
    ranges: Seq<i32>,
)
    ensures
        command_messages(BaseModel::RD, id, value, ranges) == rd_messages(id, value, ranges),
        command_messages(BaseModel::Quantum, id, value, ranges) == quantum_messages(id, value, ranges),
        id != ControlId::Power ==> (command_messages(BaseModel::Quantum, id, value, ranges) matches Some(
            m,
        ) ==> m[0][2] == 0x28),
        command_messages(BaseModel::RD, id, value, ranges) matches Some(m) ==> m[0][2] == 1,
{
}

} // verus!

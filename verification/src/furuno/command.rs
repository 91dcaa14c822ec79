//! The commands that Furuno radars take.
use vstd::prelude::*;

use crate::control_id::ControlId;
use crate::error::RadarError;
use crate::furuno::report::{reported, Argument, ReportProblem, Reported};
use crate::text::{
    decimal_int, hex_number, hex_text, hex_value, integer_is_read_back, integer_text, is_digit, is_hex,
    joined, push_integer, split, splitting_undoes_joining,
};

verus! {

/// What a command does.
#[derive(Clone, Copy, Debug, PartialEq, Eq, Structural)]
pub enum CommandMode {
    /// Sets a value.
    Change,
    Request,
    New,
    X,
    E,
    O,
}

impl CommandMode {
    /// The letter that stands for the mode.
    pub open spec fn letter(self) -> char {
        match self {
            CommandMode::Change => 'S',
            CommandMode::Request => 'R',
            CommandMode::New => 'N',
            CommandMode::X => 'X',
            CommandMode::E => 'E',
            CommandMode::O => 'O',
        }
    }

    /// The mode that a letter stands for.
    pub open spec fn of_byte(item: int) -> CommandMode {
        if item == 83 {
            CommandMode::Change
        } else if item == 82 {
            CommandMode::Request
        } else if item == 88 {
            CommandMode::X
        } else if item == 69 {
            CommandMode::E
        } else if item == 79 {
            CommandMode::O
        } else {
            CommandMode::New
        }
    }

    /// The letter that stands for the mode.
    pub fn to_char(&self) -> (c: char)
        ensures
            c == self.letter(),
            CommandMode::of_byte(c as int) == *self,
    {
        match self {
            CommandMode::Change => 'S',
            CommandMode::Request => 'R',
            CommandMode::New => 'N',
            CommandMode::X => 'X',
            CommandMode::E => 'E',
            CommandMode::O => 'O',
        }
    }

    /// The mode that a letter stands for. What is not known counts as new.
    pub fn from(item: u8) -> (mode: CommandMode)
        ensures
            mode == CommandMode::of_byte(item as int),
    {
        match item {
            83 => CommandMode::Change,
            82 => CommandMode::Request,
            78 => CommandMode::New,
            88 => CommandMode::X,
            69 => CommandMode::E,
            79 => CommandMode::O,
            _ => CommandMode::New,
        }
    }
}

/// What a command is about.
#[derive(Clone, Copy, Debug, PartialEq, Eq, Structural)]
pub enum CommandId {
    Connect,
    DispMode,
    Range,
    Gain,
    Sea,
    Rain,
    CustomPictureAll,
    CustomPicture,
    Status,
    U6D,
    AntennaType,
    BlindSector,
    Att,
    MainBangSize,
    AntennaHeight,
    NearSTC,
    MiddleSTC,
    FarSTC,
    AntennaRevolution,
    AntennaSwitch,
    AntennaNo,
    OnTime,
    Drift,
    ConningPosition,
    WakeUpCount,
    STCRange,
    CustomMemory,
    BuildUpTime,
    DisplayUnitInformation,
    CustomATFSettings,
    AliveCheck,
    ATFSettings,
    BearingResolutionSetting,
    AccuShip,
    RangeSelect,
}

/// The command with a given number.
pub open spec fn command_of_number(n: int) -> Option<CommandId> {
    if n == 0x60 {
        Some(CommandId::Connect)
    } else if n == 0x61 {
        Some(CommandId::DispMode)
    } else if n == 0x62 {
        Some(CommandId::Range)
    } else if n == 0x63 {
        Some(CommandId::Gain)
    } else if n == 0x64 {
        Some(CommandId::Sea)
    } else if n == 0x65 {
        Some(CommandId::Rain)
    } else if n == 0x66 {
        Some(CommandId::CustomPictureAll)
    } else if n == 0x67 {
        Some(CommandId::CustomPicture)
    } else if n == 0x69 {
        Some(CommandId::Status)
    } else if n == 0x6D {
        Some(CommandId::U6D)
    } else if n == 0x6E {
        Some(CommandId::AntennaType)
    } else if n == 0x77 {
        Some(CommandId::BlindSector)
    } else if n == 0x80 {
        Some(CommandId::Att)
    } else if n == 0x83 {
        Some(CommandId::MainBangSize)
    } else if n == 0x84 {
        Some(CommandId::AntennaHeight)
    } else if n == 0x85 {
        Some(CommandId::NearSTC)
    } else if n == 0x86 {
        Some(CommandId::MiddleSTC)
    } else if n == 0x87 {
        Some(CommandId::FarSTC)
    } else if n == 0x89 {
        Some(CommandId::AntennaRevolution)
    } else if n == 0x8A {
        Some(CommandId::AntennaSwitch)
    } else if n == 0x8D {
        Some(CommandId::AntennaNo)
    } else if n == 0x8E {
        Some(CommandId::OnTime)
    } else if n == 0x9E {
        Some(CommandId::Drift)
    } else if n == 0xAA {
        Some(CommandId::ConningPosition)
    } else if n == 0xAC {
        Some(CommandId::WakeUpCount)
    } else if n == 0xD2 {
        Some(CommandId::STCRange)
    } else if n == 0xD3 {
        Some(CommandId::CustomMemory)
    } else if n == 0xD4 {
        Some(CommandId::BuildUpTime)
    } else if n == 0xD5 {
        Some(CommandId::DisplayUnitInformation)
    } else if n == 0xE0 {
        Some(CommandId::CustomATFSettings)
    } else if n == 0xE3 {
        Some(CommandId::AliveCheck)
    } else if n == 0xEA {
        Some(CommandId::ATFSettings)
    } else if n == 0xEE {
        Some(CommandId::BearingResolutionSetting)
    } else if n == 0xF0 {
        Some(CommandId::AccuShip)
    } else if n == 0xFE {
        Some(CommandId::RangeSelect)
    } else {
        None
    }
}

impl CommandId {
    /// The number of the command.
    pub open spec fn number(self) -> int {
        match self {
            CommandId::Connect => 0x60,
            CommandId::DispMode => 0x61,
            CommandId::Range => 0x62,
            CommandId::Gain => 0x63,
            CommandId::Sea => 0x64,
            CommandId::Rain => 0x65,
            CommandId::CustomPictureAll => 0x66,
            CommandId::CustomPicture => 0x67,
            CommandId::Status => 0x69,
            CommandId::U6D => 0x6D,
            CommandId::AntennaType => 0x6E,
            CommandId::BlindSector => 0x77,
            CommandId::Att => 0x80,
            CommandId::MainBangSize => 0x83,
            CommandId::AntennaHeight => 0x84,
            CommandId::NearSTC => 0x85,
            CommandId::MiddleSTC => 0x86,
            CommandId::FarSTC => 0x87,
            CommandId::AntennaRevolution => 0x89,
            CommandId::AntennaSwitch => 0x8A,
            CommandId::AntennaNo => 0x8D,
            CommandId::OnTime => 0x8E,
            CommandId::Drift => 0x9E,
            CommandId::ConningPosition => 0xAA,
            CommandId::WakeUpCount => 0xAC,
            CommandId::STCRange => 0xD2,
            CommandId::CustomMemory => 0xD3,
            CommandId::BuildUpTime => 0xD4,
            CommandId::DisplayUnitInformation => 0xD5,
            CommandId::CustomATFSettings => 0xE0,
            CommandId::AliveCheck => 0xE3,
            CommandId::ATFSettings => 0xEA,
            CommandId::BearingResolutionSetting => 0xEE,
            CommandId::AccuShip => 0xF0,
            CommandId::RangeSelect => 0xFE,
        }
    }

    /// The number of the command.
    pub fn as_u8(&self) -> (n: u8)
        ensures
            n == self.number(),
    {
        match self {
            CommandId::Connect => 0x60,
            CommandId::DispMode => 0x61,
            CommandId::Range => 0x62,
            CommandId::Gain => 0x63,
            CommandId::Sea => 0x64,
            CommandId::Rain => 0x65,
            CommandId::CustomPictureAll => 0x66,
            CommandId::CustomPicture => 0x67,
            CommandId::Status => 0x69,
            CommandId::U6D => 0x6D,
            CommandId::AntennaType => 0x6E,
            CommandId::BlindSector => 0x77,
            CommandId::Att => 0x80,
            CommandId::MainBangSize => 0x83,
            CommandId::AntennaHeight => 0x84,
            CommandId::NearSTC => 0x85,
            CommandId::MiddleSTC => 0x86,
            CommandId::FarSTC => 0x87,
            CommandId::AntennaRevolution => 0x89,
            CommandId::AntennaSwitch => 0x8A,
            CommandId::AntennaNo => 0x8D,
            CommandId::OnTime => 0x8E,
            CommandId::Drift => 0x9E,
            CommandId::ConningPosition => 0xAA,
            CommandId::WakeUpCount => 0xAC,
            CommandId::STCRange => 0xD2,
            CommandId::CustomMemory => 0xD3,
            CommandId::BuildUpTime => 0xD4,
            CommandId::DisplayUnitInformation => 0xD5,
            CommandId::CustomATFSettings => 0xE0,
            CommandId::AliveCheck => 0xE3,
            CommandId::ATFSettings => 0xEA,
            CommandId::BearingResolutionSetting => 0xEE,
            CommandId::AccuShip => 0xF0,
            CommandId::RangeSelect => 0xFE,
        }
    }

    /// The command with a given number, where there is one.
    pub fn from_u8(n: u8) -> (r: Option<CommandId>)
        ensures
            r == command_of_number(n as int),
    {
        match n {
            0x60 => Some(CommandId::Connect),
            0x61 => Some(CommandId::DispMode),
            0x62 => Some(CommandId::Range),
            0x63 => Some(CommandId::Gain),
            0x64 => Some(CommandId::Sea),
            0x65 => Some(CommandId::Rain),
            0x66 => Some(CommandId::CustomPictureAll),
            0x67 => Some(CommandId::CustomPicture),
            0x69 => Some(CommandId::Status),
            0x6D => Some(CommandId::U6D),
            0x6E => Some(CommandId::AntennaType),
            0x77 => Some(CommandId::BlindSector),
            0x80 => Some(CommandId::Att),
            0x83 => Some(CommandId::MainBangSize),
            0x84 => Some(CommandId::AntennaHeight),
            0x85 => Some(CommandId::NearSTC),
            0x86 => Some(CommandId::MiddleSTC),
            0x87 => Some(CommandId::FarSTC),
            0x89 => Some(CommandId::AntennaRevolution),
            0x8A => Some(CommandId::AntennaSwitch),
            0x8D => Some(CommandId::AntennaNo),
            0x8E => Some(CommandId::OnTime),
            0x9E => Some(CommandId::Drift),
            0xAA => Some(CommandId::ConningPosition),
            0xAC => Some(CommandId::WakeUpCount),
            0xD2 => Some(CommandId::STCRange),
            0xD3 => Some(CommandId::CustomMemory),
            0xD4 => Some(CommandId::BuildUpTime),
            0xD5 => Some(CommandId::DisplayUnitInformation),
            0xE0 => Some(CommandId::CustomATFSettings),
            0xE3 => Some(CommandId::AliveCheck),
            0xEA => Some(CommandId::ATFSettings),
            0xEE => Some(CommandId::BearingResolutionSetting),
            0xF0 => Some(CommandId::AccuShip),
            0xFE => Some(CommandId::RangeSelect),
            _ => None,
        }
    }
}

/// An uppercase hexadecimal digit.
pub open spec fn hex_digit(n: int) -> char {
    if n < 10 {
        (48 + n) as char
    } else {
        (55 + n) as char
    }
}

fn make_hex_digit(n: u8) -> (c: char)
    requires
        n < 16,
    ensures
        c == hex_digit(n as int),
{
    if n < 10 {
        (48 + n) as char
    } else {
        (55 + n) as char
    }
}

/// The arguments of a command, each behind a comma.
pub open spec fn arguments_text(args: Seq<i32>) -> Seq<char>
    decreases args.len(),
{
    if args.len() == 0 {
        Seq::empty()
    } else {
        arguments_text(args.drop_last()).push(',') + decimal_int(args.last() as int)
    }
}

/// The text of a command: a dollar sign, the letter of the mode, the number of the command in
/// hexadecimal digits, the arguments, and the end of the line.
pub open spec fn message(mode: CommandMode, id: CommandId, args: Seq<i32>) -> Seq<char> {
    seq!['$', mode.letter(), hex_digit(id.number() / 16), hex_digit(id.number() % 16)]
        + arguments_text(args) + seq!['\r', '\n']
}

/// The text of a command.
pub fn send(mode: CommandMode, id: CommandId, args: &[i32]) -> (s: String)
    ensures
        s@ == message(mode, id, args@),
{
    let n: u8 = id.as_u8();
    let mut s: String = String::new();
    s.push('$');
    s.push(mode.to_char());
    s.push(make_hex_digit(n / 16));
    s.push(make_hex_digit(n % 16));
    let ghost start = s@;
    proof {
        assert(start =~= seq![
            '$',
            mode.letter(),
            hex_digit(id.number() / 16),
            hex_digit(id.number() % 16),
        ]);
        assert(args@.take(0) =~= Seq::empty());
        assert(start + arguments_text(args@.take(0)) =~= start);
    }
    let mut i: usize = 0;
    while i < args.len()
        invariant
            i <= args.len(),
            s@ == start + arguments_text(args@.take(i as int)),
        decreases args.len() - i,
    {
        let ghost before = s@;
        s.push(',');
        push_integer(&mut s, args[i] as i64);
        proof {
            let next = args@.take(i + 1);
            assert(next.drop_last() =~= args@.take(i as int));
            assert(s@ =~= start + arguments_text(next));
        }
        i = i + 1;
    }
    assert(args@.take(i as int) =~= args@);
    s.push('\r');
    s.push('\n');
    assert(s@ =~= message(mode, id, args@));
    s
}

/// The ranges of the radar in meters, by their numbers.
pub open spec fn furuno_radar_ranges() -> Seq<i32> {
    seq![
        115i32, 231i32, 463i32, 926i32, 1389i32, 1852i32, 2778i32, 3704i32, 5556i32, 7408i32,
        11112i32, 14816i32, 22224i32, 29632i32, 44448i32, 59264i32, 66672i32, 88896i32, 118528i32,
        133344i32, 177792i32, 222240i32,
    ]
}

/// The ranges of the radar in meters, by their numbers.
pub fn radar_ranges() -> (ranges: [i32; 22])
    ensures
        ranges@ == furuno_radar_ranges(),
{
    let ranges: [i32; 22] = [
        115, 231, 463, 926, 1389, 1852, 2778, 3704, 5556, 7408, 11112, 14816, 22224, 29632, 44448,
        59264, 66672, 88896, 118528, 133344, 177792, 222240,
    ];
    assert(ranges@ =~= furuno_radar_ranges());
    ranges
}

/// The number of the first range that is long enough, or the number of ranges.
pub open spec fn first_long_range(ranges: Seq<i32>, distance: int) -> int
    decreases ranges.len(),
{
    if ranges.len() == 0 || ranges[0] >= distance {
        0
    } else {
        1 + first_long_range(ranges.skip(1), distance)
    }
}

/// The number of the range that a value stands for: the value itself where it is a number of a range,
/// else it is a distance.
pub open spec fn range_number(value: int) -> int {
    if value < 22 {
        value
    } else {
        first_long_range(furuno_radar_ranges(), value)
    }
}

fn find_range(value: i32) -> (n: i32)
    ensures
        n == range_number(value as int),
{
    if value < 22 {
        return value;
    }
    let ranges = radar_ranges();
    let mut i: usize = 0;
    assert(ranges@.skip(0) =~= ranges@);
    while i < 22 && ranges[i] < value
        invariant
            i <= 22,
            ranges@.len() == 22,
            first_long_range(ranges@, value as int) == i + first_long_range(
                ranges@.skip(i as int),
                value as int,
            ),
        decreases 22 - i,
    {
        assert(ranges@.skip(i as int).skip(1) =~= ranges@.skip(i + 1));
        i = i + 1;
    }
    i as i32
}

/// The angles of the two sectors without transmission.
#[derive(Clone, Copy, Debug, PartialEq, Eq, Structural)]
pub struct BlindSectors {
    pub start1: i32,
    pub end1: i32,
    pub start2: i32,
    pub end2: i32,
}

/// The arguments of the command for the sectors without transmission. What is not given stays as it
/// is.
pub fn fill_blind_sector(
    current: &BlindSectors,
    sector1_start: Option<i32>,
    sector1_end: Option<i32>,
    sector2_start: Option<i32>,
    sector2_end: Option<i32>,
) -> (args: Vec<i32>)
    ensures
        args@ == seq![
            sector1_start.unwrap_or(current.start1),
            sector1_end.unwrap_or(current.end1),
            sector2_start.unwrap_or(current.start2),
            sector2_end.unwrap_or(current.end2),
        ],
{
    let mut args: Vec<i32> = Vec::with_capacity(4);
    args.push(sector1_start.unwrap_or(current.start1));
    args.push(sector1_end.unwrap_or(current.end1));
    args.push(sector2_start.unwrap_or(current.start2));
    args.push(sector2_end.unwrap_or(current.end2));
    args
}

/// The command that sets a control, where the radar has it: what it is about, and its arguments.
/// `end` is the end of a sector, where it is given.
pub open spec fn control_command(
    id: ControlId,
    value: i32,
    end: Option<i32>,
    auto: bool,
    current: BlindSectors,
) -> Option<(CommandId, Seq<i32>)> {
    let auto_number = if auto {
        1i32
    } else {
        0i32
    };
    match id {
        ControlId::Power => Some((CommandId::Status, seq![value, 0i32, 0i32, 60i32, 300i32, 0i32])),
        ControlId::Range => Some(
            (CommandId::Range, seq![range_number(value as int) as i32, 0i32, 0i32]),
        ),
        ControlId::Gain => Some((CommandId::Gain, seq![0i32, value, auto_number, value, 0i32])),
        ControlId::Sea => Some((CommandId::Sea, seq![value])),
        ControlId::Rain => Some((CommandId::Rain, seq![value])),
        ControlId::NoTransmitSector1 => Some(
            (
                CommandId::BlindSector,
                seq![value, end.unwrap_or(current.end1), current.start2, current.end2],
            ),
        ),
        ControlId::NoTransmitSector2 => Some(
            (
                CommandId::BlindSector,
                seq![current.start1, current.end1, value, end.unwrap_or(current.end2)],
            ),
        ),
        ControlId::ScanSpeed => Some((CommandId::AntennaRevolution, Seq::empty())),
        ControlId::AntennaHeight => Some((CommandId::AntennaHeight, Seq::empty())),
        _ => None,
    }
}

/// The messages that set a control, where the radar has it: the command itself, then a request for all
/// settings.
pub open spec fn control_lines(
    id: ControlId,
    value: i32,
    end: Option<i32>,
    auto: bool,
    current: BlindSectors,
) -> Option<(Seq<char>, Seq<char>)> {
    match control_command(id, value, end, auto, current) {
        Some((command, args)) => Some(
            (
                message(CommandMode::Change, command, args),
                message(CommandMode::Request, CommandId::CustomPictureAll, Seq::empty()),
            ),
        ),
        None => None,
    }
}

/// The messages that set a control: the command itself, then a request for all settings. `value` is
/// none where the request holds no number.
pub fn set_control(
    id: ControlId,
    value: Option<i32>,
    end: Option<i32>,
    auto: bool,
    current: &BlindSectors,
) -> (r: Result<(String, String), RadarError>)
    ensures
        match (value, r) {
            (None, Err(RadarError::MissingValue(e))) => e == id,
            (Some(v), Ok((first, second))) => control_lines(id, v, end, auto, *current) == Some(
                (first@, second@),
            ),
            (Some(v), Err(RadarError::CannotSetControlId(e))) => e == id && control_command(
                id,
                v,
                end,
                auto,
                *current,
            ) is None,
            _ => false,
        },
{
    let value: i32 = match value {
        Some(v) => v,
        None => {
            return Err(RadarError::MissingValue(id));
        },
    };
    let auto_number: i32 = if auto {
        1
    } else {
        0
    };
    let mut args: Vec<i32> = Vec::with_capacity(6);
    let command = match id {
        ControlId::Power => {
            args.push(value);
            args.push(0);
            args.push(0);
            args.push(60);
            args.push(300);
            args.push(0);
            CommandId::Status
        },
        ControlId::Range => {
            args.push(find_range(value));
            args.push(0);
            args.push(0);
            CommandId::Range
        },
        ControlId::Gain => {
            args.push(0);
            args.push(value);
            args.push(auto_number);
            args.push(value);
            args.push(0);
            CommandId::Gain
        },
        ControlId::Sea => {
            args.push(value);
            CommandId::Sea
        },
        ControlId::Rain => {
            args.push(value);
            CommandId::Rain
        },
        ControlId::NoTransmitSector1 => {
            args = fill_blind_sector(current, Some(value), end, None, None);
            CommandId::BlindSector
        },
        ControlId::NoTransmitSector2 => {
            args = fill_blind_sector(current, None, None, Some(value), end);
            CommandId::BlindSector
        },
        ControlId::ScanSpeed => CommandId::AntennaRevolution,
        ControlId::AntennaHeight => CommandId::AntennaHeight,
        _ => {
            return Err(RadarError::CannotSetControlId(id));
        },
    };
    assert(args@ =~= (control_command(id, value, end, auto, *current)->0).1);
    let first = send(CommandMode::Change, command, args.as_slice());
    let empty: [i32; 0] = [];
    assert(empty@ =~= Seq::empty());
    let second = send(CommandMode::Request, CommandId::CustomPictureAll, empty.as_slice());
    Ok((first, second))
}

/// What a radar is asked for when the connection to it is made, each with a number of zeros.
pub open spec fn initial_requests() -> Seq<(CommandId, nat)> {
    seq![
        (CommandId::DispMode, 3nat),
        (CommandId::Range, 3nat),
        (CommandId::Gain, 5nat),
        (CommandId::CustomPictureAll, 0nat),
        (CommandId::Status, 6nat),
        (CommandId::AntennaType, 6nat),
        (CommandId::BlindSector, 5nat),
        (CommandId::MainBangSize, 2nat),
        (CommandId::AntennaHeight, 2nat),
        (CommandId::NearSTC, 1nat),
        (CommandId::MiddleSTC, 1nat),
        (CommandId::FarSTC, 1nat),
        (CommandId::OnTime, 2nat),
        (CommandId::WakeUpCount, 1nat),
    ]
}

/// The text of a request with a number of zeros.
pub open spec fn request_text(request: (CommandId, nat)) -> Seq<char> {
    message(CommandMode::Request, request.0, Seq::new(request.1, |i: int| 0i32))
}

fn request(id: CommandId, zeros: usize) -> (s: String)
    ensures
        s@ == request_text((id, zeros as nat)),
{
    let mut args: Vec<i32> = Vec::with_capacity(zeros);
    let mut i: usize = 0;
    while i < zeros
        invariant
            i <= zeros,
            args@ == Seq::new(i as nat, |i: int| 0i32),
        decreases zeros - i,
    {
        args.push(0);
        i = i + 1;
        assert(args@ =~= Seq::new(i as nat, |i: int| 0i32));
    }
    send(CommandMode::Request, id, args.as_slice())
}

/// The messages that ask a radar for its settings when the connection to it is made.
pub fn init() -> (requests: Vec<String>)
    ensures
        requests@.len() == initial_requests().len(),
        forall|i: int|
            0 <= i < requests@.len() ==> (#[trigger] requests@[i])@ == request_text(
                initial_requests()[i],
            ),
{
    let mut requests: Vec<String> = Vec::with_capacity(14);
    requests.push(request(CommandId::DispMode, 3));
    requests.push(request(CommandId::Range, 3));
    requests.push(request(CommandId::Gain, 5));
    requests.push(request(CommandId::CustomPictureAll, 0));
    requests.push(request(CommandId::Status, 6));
    requests.push(request(CommandId::AntennaType, 6));
    requests.push(request(CommandId::BlindSector, 5));
    requests.push(request(CommandId::MainBangSize, 2));
    requests.push(request(CommandId::AntennaHeight, 2));
    requests.push(request(CommandId::NearSTC, 1));
    requests.push(request(CommandId::MiddleSTC, 1));
    requests.push(request(CommandId::FarSTC, 1));
    requests.push(request(CommandId::OnTime, 2));
    requests.push(request(CommandId::WakeUpCount, 1));
    requests
}

/// The message that keeps the connection alive.
pub open spec fn alive_text() -> Seq<char> {
    message(CommandMode::New, CommandId::AliveCheck, Seq::empty())
}

/// The message that keeps the connection alive.
pub fn alive_check() -> (s: String)
    ensures
        s@ == alive_text(),
{
    let empty: [i32; 0] = [];
    assert(empty@ =~= Seq::empty());
    send(CommandMode::New, CommandId::AliveCheck, empty.as_slice())
}

/// The number of a command determines the command.
pub proof fn command_number_is_inverse(id: CommandId)
    ensures
        command_of_number(id.number()) == Some(id),
        0x60 <= id.number() <= 0xff,
{
}

/// The two digits of a command are read back as its number.
pub proof fn command_is_read_back(id: CommandId)
    ensures
        hex_text(seq![hex_digit(id.number() / 16), hex_digit(id.number() % 16)]) == Some(
            id.number(),
        ),
{
    command_number_is_inverse(id);
    let n = id.number();
    let s = seq![hex_digit(n / 16), hex_digit(n % 16)];
    hex_digit_value(n / 16);
    hex_digit_value(n % 16);
    assert(s[0] != '+');
    assert(is_hex(s));
    assert(s.drop_last() =~= seq![hex_digit(n / 16)]);
    assert(s.drop_last().drop_last() =~= Seq::<char>::empty());
    reveal_with_fuel(hex_number, 3);
    assert(hex_number(s.drop_last()) == n / 16);
    assert(hex_number(s) == n);
}

proof fn hex_digit_value(n: int)
    requires
        0 <= n < 16,
    ensures
        hex_value(hex_digit(n)) == Some(n),
        hex_digit(n) != '+',
{
    let c = hex_digit(n);
    if n < 10 {
        assert(c as int == 48 + n);
    } else {
        assert(c as int == 55 + n);
    }
}

/// The parts of a command between its commas: the number of the command, and the arguments.
pub open spec fn command_parts(id: CommandId, args: Seq<i32>) -> Seq<Seq<char>> {
    seq![seq![hex_digit(id.number() / 16), hex_digit(id.number() % 16)]] + args.map_values(
        |n: i32| decimal_int(n as int),
    )
}

proof fn arguments_are_joined(front: Seq<char>, args: Seq<i32>)
    ensures
        joined(seq![front] + args.map_values(|n: i32| decimal_int(n as int)), ',') == front
            + arguments_text(args),
    decreases args.len(),
{
    let parts = seq![front] + args.map_values(|n: i32| decimal_int(n as int));
    if args.len() == 0 {
        assert(parts =~= seq![front]);
        assert(front + arguments_text(args) =~= front);
    } else {
        let first = decimal_int(args[0] as int);
        let rest = args.skip(1);
        arguments_are_joined(first, rest);
        assert(parts.skip(1) =~= seq![first] + rest.map_values(|n: i32| decimal_int(n as int)));
        arguments_from_the_front(args);
        assert(front + seq![','] + (first + arguments_text(rest)) =~= front + arguments_text(args));
    }
}

proof fn arguments_from_the_front(args: Seq<i32>)
    requires
        args.len() > 0,
    ensures
        arguments_text(args) == seq![','] + decimal_int(args[0] as int) + arguments_text(args.skip(1)),
    decreases args.len(),
{
    let first = decimal_int(args[0] as int);
    if args.len() == 1 {
        assert(args.drop_last() =~= Seq::empty());
        assert(args.skip(1) =~= Seq::empty());
        assert(arguments_text(args) =~= seq![','] + first + arguments_text(args.skip(1)));
    } else {
        let front = args.drop_last();
        arguments_from_the_front(front);
        assert(front.skip(1) =~= args.skip(1).drop_last());
        assert(arguments_text(args) =~= seq![','] + first + arguments_text(args.skip(1)));
    }
}

/// A command is a line of text from which a radar reads what it is about and all of its arguments: a
/// dollar sign and the letter of the mode, then the parts between commas.
pub proof fn command_text_is_understood(mode: CommandMode, id: CommandId, args: Seq<i32>)
    ensures
        ({
            let line = message(mode, id, args);
            let parts = split(line.subrange(2, line.len() - 2), ',');
            &&& line.len() >= 6
            &&& line[0] == '$'
            &&& line[1] == mode.letter()
            &&& line[line.len() - 2] == '\r'
            &&& line[line.len() - 1] == '\n'
            &&& parts.len() == args.len() + 1
            &&& hex_text(parts[0]) == Some(id.number())
            &&& forall|i: int|
                0 <= i < args.len() ==> integer_text(#[trigger] parts[i + 1]) == Some(args[i] as int)
        }),
{
    let line = message(mode, id, args);
    let front = seq![hex_digit(id.number() / 16), hex_digit(id.number() % 16)];
    let parts = command_parts(id, args);
    arguments_are_joined(front, args);
    assert(line.subrange(2, line.len() - 2) =~= front + arguments_text(args));
    command_is_read_back(id);
    assert forall|i: int| 0 <= i < parts.len() implies !(#[trigger] parts[i]).contains(',') by {
        if i == 0 {
            assert(hex_value(parts[0][0]) is Some);
            assert(hex_value(parts[0][1]) is Some);
        } else {
            integer_is_read_back(args[i - 1] as int);
            assert(parts[i] == decimal_int(args[i - 1] as int));
        }
    }
    splitting_undoes_joining(parts, ',');
    assert forall|i: int| 0 <= i < args.len() implies integer_text(#[trigger] parts[i + 1]) == Some(
        args[i] as int,
    ) by {
        integer_is_read_back(args[i] as int);
    }
}

/// The numbers of the commands that set a control, ask for all settings, or keep the connection alive.
pub proof fn commands_have_these_numbers(
    value: i32,
    end: Option<i32>,
    auto: bool,
    current: BlindSectors,
    id: ControlId,
)
    ensures
        control_command(id, value, end, auto, current) matches Some((command, _)) ==> {
            &&& command.number() == 0x69 <==> id == ControlId::Power
            &&& command.number() == 0x62 <==> id == ControlId::Range
            &&& command.number() == 0x63 <==> id == ControlId::Gain
            &&& command.number() == 0x64 <==> id == ControlId::Sea
            &&& command.number() == 0x65 <==> id == ControlId::Rain
            &&& command.number() == 0x77 <==> id == ControlId::NoTransmitSector1 || id
                == ControlId::NoTransmitSector2
            &&& command.number() == 0x89 <==> id == ControlId::ScanSpeed
            &&& command.number() == 0x84 <==> id == ControlId::AntennaHeight
        },
        control_command(id, value, end, auto, current) is Some <==> (id == ControlId::Power || id
            == ControlId::Range || id == ControlId::Gain || id == ControlId::Sea || id
            == ControlId::Rain || id == ControlId::NoTransmitSector1 || id
            == ControlId::NoTransmitSector2 || id == ControlId::ScanSpeed || id
            == ControlId::AntennaHeight),
        CommandId::CustomPictureAll.number() == 0x66,
        CommandId::AliveCheck.number() == 0xe3,
        CommandId::OnTime.number() == 0x8e,
        CommandMode::Change.letter() == 'S',
        CommandMode::Request.letter() == 'R',
        CommandMode::New.letter() == 'N',
{
}

/// The value of a request goes along as an argument of the command: the state and the filters as they
/// are, and the two limits of a sector with those of the other sector, which stay as they are.
pub proof fn commands_carry_the_value(
    value: i32,
    end: Option<i32>,
    auto: bool,
    current: BlindSectors,
)
    ensures
        control_command(ControlId::Power, value, end, auto, current) matches Some((_, args)) && args.len()
            == 6 && args[0] == value && args[1] == 0 && args[2] == 0 && args[3] == 60 && args[4]
            == 300 && args[5] == 0,
        control_command(ControlId::Sea, value, end, auto, current) matches Some((_, args)) && args.len()
            == 1 && args[0] == value,
        control_command(ControlId::Rain, value, end, auto, current) matches Some((_, args))
            && args.len() == 1 && args[0] == value,
        control_command(ControlId::Gain, value, end, auto, current) matches Some((_, args))
            && args.len() == 5 && args[0] == 0 && args[1] == value && args[3] == value && args[4] == 0
            && args[2] == if auto {
            1int
        } else {
            0
        },
        control_command(ControlId::NoTransmitSector1, value, end, auto, current) matches Some((_, args))
            && {
            &&& args.len() == 4 && args[0] == value
            &&& end matches Some(e) ==> args[1] == e
            &&& end is None ==> args[1] == current.end1
            &&& args[2] == current.start2 && args[3] == current.end2
        },
        control_command(ControlId::NoTransmitSector2, value, end, auto, current) matches Some((_, args))
            && {
            &&& args.len() == 4 && args[2] == value
            &&& end matches Some(e) ==> args[3] == e
            &&& end is None ==> args[3] == current.end2
            &&& args[0] == current.start1 && args[1] == current.end1
        },
{
}

/// An argument as a report takes it.
pub open spec fn is_argument(n: i32, a: Argument) -> bool {
    &&& a.is_zero == (n == 0)
    &&& 0 <= n <= 255 ==> a.as_byte == n
    &&& 0 <= n ==> a.as_index == n
}

/// A radar that reports what it was told confirms the gain: the report leads back to an argument with
/// the value that was sent, and to whether the radar chooses by itself.
pub proof fn gain_is_confirmed(
    value: i32,
    end: Option<i32>,
    auto: bool,
    current: BlindSectors,
    reply: Seq<Argument>,
)
    requires
        control_command(ControlId::Gain, value, end, auto, current) is Some,
        ({
            let args = (control_command(ControlId::Gain, value, end, auto, current)->0).1;
            &&& reply.len() == args.len()
            &&& forall|i: int| 0 <= i < args.len() ==> is_argument(args[i], #[trigger] reply[i])
        }),
    ensures
        ({
            let (command, args) = control_command(ControlId::Gain, value, end, auto, current)->0;
            reported(command, reply) matches Ok(Reported::Gain(i, a)) && a == auto && i < args.len()
                && args[i as int] == value
        }),
{
    let args = (control_command(ControlId::Gain, value, end, auto, current)->0).1;
    assert(is_argument(args[2], reply[2]));
}

/// A radar that reports what it was told confirms the range: the one whose number was asked for, or the
/// first that reaches as far as the distance that was asked for, if any does.
pub proof fn range_is_confirmed(
    value: i32,
    end: Option<i32>,
    auto: bool,
    current: BlindSectors,
    reply: Seq<Argument>,
)
    requires
        value >= 0,
        control_command(ControlId::Range, value, end, auto, current) is Some,
        ({
            let args = (control_command(ControlId::Range, value, end, auto, current)->0).1;
            &&& reply.len() == args.len()
            &&& forall|i: int| 0 <= i < args.len() ==> is_argument(args[i], #[trigger] reply[i])
        }),
    ensures
        ({
            let (command, args) = control_command(ControlId::Range, value, end, auto, current)->0;
            let ranges = furuno_radar_ranges();
            reported(command, reply) matches Ok(Reported::Range(meters)) && {
                &&& value < 22 ==> meters == ranges[value as int]
                &&& 22 <= value <= 222240 ==> meters >= value && forall|i: int|
                    0 <= i < ranges.len() && #[trigger] ranges[i] >= value ==> meters <= ranges[i]
                &&& value > 222240 ==> meters == 0
            }
        }),
{
    let args = (control_command(ControlId::Range, value, end, auto, current)->0).1;
    let ranges = furuno_radar_ranges();
    assert(is_argument(args[0], reply[0]));
    assert(is_argument(args[2], reply[2]));
    if value >= 22 {
        first_long_range_bounds(ranges, value as int);
        let n = first_long_range(ranges, value as int);
        assert(ranges[21] == 222240);
        assert forall|i: int, j: int| 0 <= i < j < ranges.len() implies ranges[i] < ranges[j] by {
        }
        if n < ranges.len() {
            assert forall|i: int| 0 <= i < ranges.len() && #[trigger] ranges[i] >= value implies ranges[n]
                <= ranges[i] by {
                if i < n {
                    assert(ranges[i] < value);
                }
            }
        }
    }
}

proof fn first_long_range_bounds(ranges: Seq<i32>, distance: int)
    ensures
        ({
            let n = first_long_range(ranges, distance);
            &&& 0 <= n <= ranges.len()
            &&& n < ranges.len() ==> ranges[n] >= distance
            &&& forall|i: int| 0 <= i < n ==> #[trigger] ranges[i] < distance
        }),
    decreases ranges.len(),
{
    if ranges.len() > 0 && ranges[0] < distance {
        let rest = ranges.skip(1);
        first_long_range_bounds(rest, distance);
        assert forall|i: int| 0 <= i < first_long_range(ranges, distance) implies #[trigger] ranges[i]
            < distance by {
            if i > 0 {
                assert(rest[i - 1] < distance);
            }
        }
    }
}

/// A control is set by a line that changes it, followed by one that asks for all settings. The lines
/// hold what the radar needs to read: what the command is about, and its arguments.
pub proof fn control_is_set_and_asked_for(
    id: ControlId,
    value: i32,
    end: Option<i32>,
    auto: bool,
    current: BlindSectors,
)
    ensures
        control_lines(id, value, end, auto, current) is Some <==> control_command(
            id,
            value,
            end,
            auto,
            current,
        ) is Some,
        control_lines(id, value, end, auto, current) matches Some((first, second)) ==> {
            let (command, args) = control_command(id, value, end, auto, current)->0;
            let parts = split(first.subrange(2, first.len() - 2), ',');
            &&& first[0] == '$' && first[1] == 'S'
            &&& parts.len() == args.len() + 1
            &&& hex_text(parts[0]) == Some(command.number())
            &&& forall|i: int|
                0 <= i < args.len() ==> integer_text(#[trigger] parts[i + 1]) == Some(args[i] as int)
            &&& second == seq!['$', 'R', '6', '6', '\r', '\n']
        },
{
    if let Some((command, args)) = control_command(id, value, end, auto, current) {
        command_text_is_understood(CommandMode::Change, command, args);
        let second = message(CommandMode::Request, CommandId::CustomPictureAll, Seq::empty());
        assert(second =~= seq!['$', 'R', '6', '6', '\r', '\n']);
    }
}

/// The connection is kept alive by a line without arguments.
pub proof fn alive_line()
    ensures
        alive_text() == seq!['$', 'N', 'E', '3', '\r', '\n'],
{
    assert(alive_text() =~= seq!['$', 'N', 'E', '3', '\r', '\n']);
}

/// A radar is asked, when the connection to it is made, for everything that its reports tell: its state,
/// its gain, its range and how long it was on.
pub proof fn everything_reported_is_asked_for(id: CommandId, values: Seq<Argument>)
    requires
        reported(id, values) is Ok,
        id != CommandId::AliveCheck,
    ensures
        exists|i: int| 0 <= i < initial_requests().len() && (#[trigger] initial_requests()[i]).0 == id,
        initial_requests().len() == 14,
{
    let all = initial_requests();
    assert(all[1].0 == CommandId::Range && all[2].0 == CommandId::Gain && all[4].0
        == CommandId::Status && all[12].0 == CommandId::OnTime);
}

/// The ranges that a radar has, in sixteenths of a nautical mile.
pub open spec fn sixteenths() -> Seq<int> {
    seq![
        1int, 2, 4, 8, 12, 16, 24, 32, 48, 64, 96, 128, 192, 256, 384, 512, 576, 768, 1024, 1152, 1536,
        1920,
    ]
}

/// The ranges that a radar has are these in nautical miles, which have 1852 meters.
pub proof fn ranges_are_in_nautical_miles(i: int)
    requires
        0 <= i < 22,
    ensures
        furuno_radar_ranges().len() == 22,
        16 * furuno_radar_ranges()[i] <= 1852 * sixteenths()[i] < 16 * furuno_radar_ranges()[i] + 16,
{
}

/// The letter of a mode stands for this mode, and other characters stand for a new value.
pub proof fn letters_stand_for_their_modes(mode: CommandMode, c: char)
    ensures
        CommandMode::of_byte(mode.letter() as int) == mode,
        CommandMode::of_byte(c as int) == CommandMode::New || CommandMode::of_byte(c as int).letter()
            == c,
        CommandMode::Change.letter() == 'S',
        CommandMode::Request.letter() == 'R',
        CommandMode::New.letter() == 'N',
{
}

} // verus!

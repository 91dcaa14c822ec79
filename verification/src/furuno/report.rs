//! The reports that Furuno radars send.
use vstd::prelude::*;
use vstd::utf8::{decode_utf8, valid_utf8};

use crate::furuno::command::{
    command_of_number, furuno_radar_ranges, radar_ranges, CommandId,
};
use crate::text::{chars_of, from_utf8, hex_text, parse_hex_u8, split, split_text, texts, within};

verus! {

/// Why a report is dropped.
#[derive(Clone, Copy, Debug, PartialEq, Eq, Structural)]
pub enum ReportProblem {
    /// It does not start as a report does.
    NotAReport,
    /// It is no text.
    NotText,
    /// It does not tell what it is about.
    NoCommand,
    /// It has too few arguments, this many.
    MissingArguments(usize),
    /// The ranges of the radar are not in nautical miles.
    NotNautical,
    /// It is of a kind that is not handled.
    NotHandled(CommandId),
}

/// The part of a received text that is a report: what comes before the end of the line, where there
/// is one.
pub open spec fn line_of(buf: Seq<u8>) -> Option<Seq<u8>> {
    if buf.len() > 4 && buf[buf.len() - 2] == 13 && buf[buf.len() - 1] == 10 {
        Some(buf.take(buf.len() - 2))
    } else {
        None
    }
}

/// Takes the end of the line off a received text. What has no proper end is dropped.
pub fn take_line(buf: &[u8]) -> (r: Option<&[u8]>)
    ensures
        match r {
            Some(line) => line_of(buf@) == Some(line@),
            None => line_of(buf@) is None,
        },
{
    let len: usize = buf.len();
    if len > 4 && buf[len - 2] == 13 && buf[len - 1] == 10 {
        assert(buf@.subrange(0, len - 2) =~= buf@.take(len - 2));
        Some(vstd::slice::slice_subrange(buf, 0, len - 2))
    } else {
        None
    }
}

/// A report taken apart.
#[derive(Debug)]
pub enum SplitReport {
    /// It is about something that is not known.
    Unknown,
    /// What it is about, and its arguments.
    Known(CommandId, Vec<String>),
}

/// A report taken apart: behind the dollar sign and the letter of the mode come parts between commas,
/// first the number of the command in hexadecimal digits.
pub open spec fn split_of(data: Seq<u8>) -> Result<
    Option<(CommandId, Seq<Seq<char>>)>,
    ReportProblem,
> {
    let parts = split(decode_utf8(data.skip(2)), ',');
    if data.len() < 4 || data[0] != 36 {
        Err(ReportProblem::NotAReport)
    } else if !valid_utf8(data.skip(2)) {
        Err(ReportProblem::NotText)
    } else {
        match within(hex_text(parts[0]), 0, 255) {
            Some(n) => Ok(
                match command_of_number(n) {
                    Some(id) => Some((id, parts.skip(1))),
                    None => None,
                },
            ),
            None => Err(ReportProblem::NoCommand),
        }
    }
}

/// Takes a report apart.
pub fn split_report(data: &[u8]) -> (r: Result<SplitReport, ReportProblem>)
    ensures
        match r {
            Ok(SplitReport::Known(id, args)) => split_of(data@) == Ok::<
                Option<(CommandId, Seq<Seq<char>>)>,
                ReportProblem,
            >(Some((id, texts(args@)))),
            Ok(SplitReport::Unknown) => split_of(data@) == Ok::<
                Option<(CommandId, Seq<Seq<char>>)>,
                ReportProblem,
            >(None),
            Err(problem) => split_of(data@) == Err::<
                Option<(CommandId, Seq<Seq<char>>)>,
                ReportProblem,
            >(problem),
        },
{
    if data.len() < 4 || data[0] != 36 {
        return Err(ReportProblem::NotAReport);
    }
    let args = vstd::slice::slice_subrange(data, 2, data.len());
    assert(args@ =~= data@.skip(2));
    let text = match from_utf8(args) {
        Some(text) => text,
        None => {
            return Err(ReportProblem::NotText);
        },
    };
    let chars = chars_of(text.as_str());
    let mut parts = split_text(&chars, ',');
    let ghost all = split(text@, ',');
    assert(parts@.len() == texts(parts@).len());
    assert(parts@.len() > 0);
    let first = chars_of(parts[0].as_str());
    assert(first@ == all[0]) by {
        assert(texts(parts@)[0] == parts@[0]@);
    }
    let n: u8 = match parse_hex_u8(first.as_slice()) {
        Some(n) => n,
        None => {
            return Err(ReportProblem::NoCommand);
        },
    };
    match CommandId::from_u8(n) {
        Some(id) => {
            let ghost before = parts@;
            let _ = parts.remove(0);
            assert(texts(parts@) =~= all.skip(1)) by {
                assert(parts@ =~= before.skip(1));
                assert forall|i: int| 0 <= i < parts@.len() implies texts(parts@)[i] == all.skip(
                    1,
                )[i] by {
                    assert(texts(before)[i + 1] == before[i + 1]@);
                }
            }
            Ok(SplitReport::Known(id, parts))
        },
        None => Ok(SplitReport::Unknown),
    }
}

/// An argument of a report, in the forms that decisions need.
#[derive(Clone, Copy, Debug, PartialEq, Eq, Structural)]
pub struct Argument {
    /// The argument without its fraction, as a byte.
    pub as_byte: u8,
    /// The argument without its fraction, as the number of a range.
    pub as_index: usize,
    pub is_zero: bool,
}

/// What a report tells.
#[derive(Clone, Copy, Debug, PartialEq, Eq, Structural)]
pub enum Reported {
    /// Nothing but that the radar is there.
    Alive,
    /// The operational state is the argument with this number.
    Status(usize),
    /// The gain is the argument with this number.
    Gain(usize, bool),
    /// The range is this, in meters.
    Range(i32),
    /// The radar was on for as many seconds as the argument with this number.
    OnTime(usize),
}

/// What a report of a kind with some arguments tells.
pub open spec fn reported(id: CommandId, values: Seq<Argument>) -> Result<Reported, ReportProblem> {
    match id {
        CommandId::Status => if values.len() < 1 {
            Err(ReportProblem::MissingArguments(values.len() as usize))
        } else {
            Ok(Reported::Status(0))
        },
        CommandId::Gain => if values.len() < 5 {
            Err(ReportProblem::MissingArguments(values.len() as usize))
        } else {
            let auto = values[2].as_byte > 0;
            Ok(
                Reported::Gain(
                    if auto {
                        3
                    } else {
                        1
                    },
                    auto,
                ),
            )
        },
        CommandId::Range => if values.len() < 3 {
            Err(ReportProblem::MissingArguments(values.len() as usize))
        } else if !values[2].is_zero {
            Err(ReportProblem::NotNautical)
        } else {
            Ok(
                Reported::Range(
                    if values[0].as_index < furuno_radar_ranges().len() {
                        furuno_radar_ranges()[values[0].as_index as int]
                    } else {
                        0
                    },
                ),
            )
        },
        CommandId::OnTime => if values.len() < 1 {
            Err(ReportProblem::MissingArguments(values.len() as usize))
        } else {
            Ok(Reported::OnTime(0))
        },
        CommandId::AliveCheck => Ok(Reported::Alive),
        _ => Err(ReportProblem::NotHandled(id)),
    }
}

/// Tells what a report means.
pub fn process_report(id: CommandId, values: &[Argument]) -> (r: Result<Reported, ReportProblem>)
    ensures
        r == reported(id, values@),
{
    match id {
        CommandId::Status => {
            if values.len() < 1 {
                return Err(ReportProblem::MissingArguments(values.len()));
            }
            Ok(Reported::Status(0))
        },
        CommandId::Gain => {
            if values.len() < 5 {
                return Err(ReportProblem::MissingArguments(values.len()));
            }
            let auto = values[2].as_byte > 0;
            let argument: usize = if auto {
                3
            } else {
                1
            };
            Ok(Reported::Gain(argument, auto))
        },
        CommandId::Range => {
            if values.len() < 3 {
                return Err(ReportProblem::MissingArguments(values.len()));
            }
            if !values[2].is_zero {
                return Err(ReportProblem::NotNautical);
            }
            let index: usize = values[0].as_index;
            let ranges = radar_ranges();
            let range: i32 = if index < 22 {
                ranges[index]
            } else {
                0
            };
            Ok(Reported::Range(range))
        },
        CommandId::OnTime => {
            if values.len() < 1 {
                return Err(ReportProblem::MissingArguments(values.len()));
            }
            Ok(Reported::OnTime(0))
        },
        CommandId::AliveCheck => Ok(Reported::Alive),
        _ => Err(ReportProblem::NotHandled(id)),
    }
}

/// The arguments that a report refers to are there.
pub proof fn reported_arguments_exist(id: CommandId, values: Seq<Argument>)
    requires
        values.len() <= usize::MAX,
    ensures
        match reported(id, values) {
            Ok(Reported::Status(i)) => i < values.len(),
            Ok(Reported::Gain(i, _)) => i < values.len(),
            Ok(Reported::OnTime(i)) => i < values.len(),
            _ => true,
        },
{
}

/// The first argument of a report of the state or of the time that the radar was on is the value. A
/// gain is the fourth argument where the radar chose it, which the third one tells, else the second.
/// Without enough arguments nothing is told.
pub proof fn arguments_have_their_places(values: Seq<Argument>)
    requires
        values.len() <= usize::MAX,
    ensures
        reported(CommandId::Status, values) is Ok <==> values.len() >= 1,
        reported(CommandId::OnTime, values) is Ok <==> values.len() >= 1,
        reported(CommandId::Gain, values) is Ok <==> values.len() >= 5,
        reported(CommandId::Range, values) is Ok <==> values.len() >= 3 && values[2].is_zero,
        reported(CommandId::Status, values) matches Ok(told) ==> told == Reported::Status(0),
        reported(CommandId::OnTime, values) matches Ok(told) ==> told == Reported::OnTime(0),
        reported(CommandId::Gain, values) matches Ok(told) ==> told == if values[2].as_byte == 0 {
            Reported::Gain(1, false)
        } else {
            Reported::Gain(3, true)
        },
        reported(CommandId::AliveCheck, values) == Ok::<Reported, ReportProblem>(Reported::Alive),
{
}

/// A line that a radar sent is what comes before its end, which is a carriage return and a line feed.
pub proof fn lines_end_properly(line: Seq<u8>)
    ensures
        line.len() > 2 ==> line_of(line + seq![13u8, 10u8]) == Some(line),
        line_of(line) is Some ==> line.len() > 4 && line[line.len() - 1] == 10 && line[line.len() - 2]
            == 13,
{
    let all = line + seq![13u8, 10u8];
    if line.len() > 2 {
        assert(all.take(all.len() - 2) =~= line);
    }
}

/// A report starts with a dollar sign. What does not is no report, whatever follows.
pub proof fn reports_start_with_a_dollar_sign(data: Seq<u8>)
    ensures
        data.len() < 4 || data[0] as char != '$' ==> split_of(data) == Err::<
            Option<(CommandId, Seq<Seq<char>>)>,
            ReportProblem,
        >(ReportProblem::NotAReport),
        data.len() >= 4 && data[0] as char == '$' ==> split_of(data) != Err::<
            Option<(CommandId, Seq<Seq<char>>)>,
            ReportProblem,
        >(ReportProblem::NotAReport),
{
}

/// Behind the dollar sign and the letter of the mode everything is text: what is not cannot be read.
pub proof fn text_follows_the_mode(letter: u8, bytes: Seq<u8>)
    requires
        bytes.len() >= 2,
    ensures
        (split_of(seq!['$' as u8, letter] + bytes) == Err::<
            Option<(CommandId, Seq<Seq<char>>)>,
            ReportProblem,
        >(ReportProblem::NotText)) == !valid_utf8(bytes),
{
    let data = seq!['$' as u8, letter] + bytes;
    assert(data.skip(2) =~= bytes);
    assert(data[0] == 36);
}

} // verus!

use vstd::prelude::*;
use vstd::string::*;

use crate::board::{BestMove, Board, Grid, Player, TimeSetting};
use crate::notation::{BoardParser, PlayerParser};
use crate::number::Number;
use crate::parser::{
    leading_number_spec, starts_with, token_spec, And2, And3, MoveTokenParser,
    ParseResult, Parser, SpecResult, StepParser, TimeRemainingTokenParser, TimeTokenParser,
    WhiteSpaceParser, WinLengthTokenParser, IDENTIFY, QUIT,
};
use crate::state::BoardState;

verus! {

/// The whole input, taken without consuming it.
#[derive(PartialEq, Eq, Debug)]
pub struct Anything {
    value: String,
}

impl Anything {
    pub fn new(value: String) -> (r: Self)
        ensures
            r@ == value@,
    {
        Anything { value }
    }
}

impl View for Anything {
    type V = Seq<char>;

    closed spec fn view(&self) -> Seq<char> {
        self.value@
    }
}

/// Accepts any input and leaves all of it.
pub struct AnythingParser;

impl Parser<Anything> for AnythingParser {
    open spec fn spec_parse(val: Seq<char>) -> SpecResult<Seq<char>> {
        Ok((val, val))
    }

    fn parse_from(val: &String) -> (r: ParseResult<Anything>) {
        let a = String::from_str(val.as_str());
        let b = String::from_str(val.as_str());
        Ok((Anything::new(a), b))
    }
}

/// The end of the input.
#[derive(PartialEq, Eq, Debug)]
pub struct Nothing;

impl View for Nothing {
    type V = ();

    open spec fn view(&self) -> () {
        ()
    }
}

/// Accepts only the empty input.
pub struct NothingParser;

impl Parser<Nothing> for NothingParser {
    open spec fn spec_parse(val: Seq<char>) -> SpecResult<()> {
        if val.len() == 0 {
            Ok(((), Seq::empty()))
        } else {
            Err("Expected nothing, found string : "@ + val)
        }
    }

    fn parse_from(val: &String) -> (r: ParseResult<Nothing>) {
        if val.as_str().unicode_len() == 0 {
            return Ok((Nothing, String::new()));
        }
        let mut e = String::from_str("Expected nothing, found string : ");
        e.append(val.as_str());
        Err(e)
    }
}

/// A time in milliseconds, `ms:<digits>`; the character after `ms` is skipped.
pub struct TimeParser;

impl Parser<Number> for TimeParser {
    open spec fn spec_parse(val: Seq<char>) -> SpecResult<u32> {
        if starts_with(val, "ms"@) {
            let rest = if val.len() >= 3 {
                val.subrange(3, val.len() as int)
            } else {
                Seq::empty()
            };
            match leading_number_spec(rest) {
                Ok(r) => Ok(r),
                Err(e) => Err("Error parsing time: "@ + e),
            }
        } else {
            Err("Invalid time unit"@)
        }
    }

    fn parse_from(val: &String) -> (r: ParseResult<Number>) {
        let s = val.as_str();
        let len = s.unicode_len();
        let head = String::from_str(s.substring_char(0, if len < 2 {
            len
        } else {
            2
        }));
        let millis = String::from_str("ms");
        proof {
            reveal_strlit("ms");
        }
        if len >= 2 && head == millis {
            let rest = if len >= 3 {
                String::from_str(s.substring_char(3, len))
            } else {
                String::new()
            };
            match Number::parse_from(&rest) {
                Ok(r) => Ok(r),
                Err(e) => {
                    let mut m = String::from_str("Error parsing time: ");
                    m.append(e.as_str());
                    Err(m)
                },
            }
        } else {
            proof {
                if starts_with(val@, "ms"@) {
                    assert(head@ =~= "ms"@);
                }
            }
            Err(String::from_str("Invalid time unit"))
        }
    }
}

/// `time ms:<digits>`.
pub type TotalTimeParser = And3<TimeTokenParser, WhiteSpaceParser, TimeParser>;

/// `time-remaining ms:<digits>`.
pub type TimeRemainingParser = And3<TimeRemainingTokenParser, WhiteSpaceParser, TimeParser>;

/// `win-length <digits>`.
pub type WinLengthParser = And3<WinLengthTokenParser, WhiteSpaceParser, Number>;

/// A board and the player to move, separated by a space.
pub type T3NParser = And2<BoardParser, PlayerParser>;

/// `move <board> <player>`.
pub type BasicMoveParser = And3<MoveTokenParser, WhiteSpaceParser, T3NParser>;

pub type TotalTimeTail = And2<WhiteSpaceParser, TotalTimeParser>;

pub type TimeRemainingTail = And2<WhiteSpaceParser, TimeRemainingParser>;

pub type WinLengthTail = And2<WhiteSpaceParser, WinLengthParser>;

pub open spec fn basic_move_spec(val: Seq<char>) -> SpecResult<(Seq<char>, (Seq<char>, (Grid, Player)))> {
    <BasicMoveParser as Parser<(String, (String, (Board, Player)))>>::spec_parse(val)
}

pub open spec fn total_time_spec(val: Seq<char>) -> SpecResult<(Seq<char>, (Seq<char>, (Seq<char>, u32)))> {
    <TotalTimeTail as Parser<(String, (String, (String, Number)))>>::spec_parse(val)
}

pub open spec fn time_remaining_spec(val: Seq<char>) -> SpecResult<(Seq<char>, (Seq<char>, (Seq<char>, u32)))> {
    <TimeRemainingTail as Parser<(String, (String, (String, Number)))>>::spec_parse(val)
}

pub open spec fn win_length_spec(val: Seq<char>) -> SpecResult<(Seq<char>, (Seq<char>, (Seq<char>, u32)))> {
    <WinLengthTail as Parser<(String, (String, (String, Number)))>>::spec_parse(val)
}

/// What a command means.
pub enum CommandModel {
    Init(u32),
    Identify,
    Move(Grid, Player, TimeSetting, u32),
    Quit,
}

/// The time budget after `move <board> <player>`, and the input left after it; with
/// no budget given, nothing is consumed.
pub open spec fn time_setting_spec(r1: Seq<char>) -> (TimeSetting, Seq<char>) {
    match total_time_spec(r1) {
        Ok(((_, (_, (_, n))), r2)) => (TimeSetting::TotalTime(Number(n)), r2),
        Err(_) => match time_remaining_spec(r1) {
            Ok(((_, (_, (_, n))), r2)) => (TimeSetting::TimeRemaining(Number(n)), r2),
            Err(_) => (TimeSetting::Infinite, r1),
        },
    }
}

/// `move <board> <player>`, then an optional time budget, then an optional win
/// length; without a win length the input must end there.
pub open spec fn move_spec(val: Seq<char>) -> Result<CommandModel, Seq<char>> {
    match basic_move_spec(val) {
        Err(e) => Err(e),
        Ok(((_, (_, (g, p))), r1)) => {
            let (time, r2) = time_setting_spec(r1);
            match win_length_spec(r2) {
                Ok(((_, (_, (_, k))), _)) => Ok(CommandModel::Move(g, p, time, k)),
                Err(_) => if r2.len() == 0 {
                    Ok(CommandModel::Move(g, p, time, g.len() as u32))
                } else {
                    Err("Expected nothing, found string : "@ + r2)
                },
            }
        },
    }
}

/// A command line: `st3p version <n>`, `identify`, a move request, or `quit`, tried
/// in that order; when none fits, the error is that of `quit`.
pub open spec fn command_spec(val: Seq<char>) -> Result<CommandModel, Seq<char>> {
    match <StepParser as Parser<(String, (String, (String, (String, Number))))>>::spec_parse(val) {
        Ok(((_, (_, (_, (_, v)))), _)) => Ok(CommandModel::Init(v)),
        Err(_) => match token_spec(IDENTIFY@, val) {
            Ok(_) => Ok(CommandModel::Identify),
            Err(_) => match move_spec(val) {
                Ok(m) => Ok(m),
                Err(_) => match token_spec(QUIT@, val) {
                    Ok(_) => Ok(CommandModel::Quit),
                    Err(e) => Err(e),
                },
            },
        },
    }
}

/// A command of the protocol.
#[derive(Eq, PartialEq, Debug)]
pub enum Command {
    Init(Number),
    Identify,
    Move(BoardState),
    Quit,
}

pub open spec fn command_view(r: Result<Command, String>) -> Result<CommandModel, Seq<char>> {
    match r {
        Ok(Command::Init(n)) => Ok(CommandModel::Init(n.0)),
        Ok(Command::Identify) => Ok(CommandModel::Identify),
        Ok(Command::Move(s)) => Ok(
            CommandModel::Move(s.board@, s.player_to_move, s.time_setting, s.win_length),
        ),
        Ok(Command::Quit) => Ok(CommandModel::Quit),
        Err(e) => Err(e@),
    }
}

/// Reads a move request into a position.
fn parse_move(val: &String) -> (r: Result<Command, String>)
    ensures
        command_view(r) == move_spec(val@),
        r matches Ok(Command::Move(s)) ==> s.wf() && s.winner.is_none(),
{
    let ((_, (_, (board, player))), r1) = match BasicMoveParser::parse_from(val) {
        Ok(x) => x,
        Err(e) => {
            return Err(e);
        },
    };
    assert(board.wf());
    let (time, r2) = match TotalTimeTail::parse_from(&r1) {
        Ok(((_, (_, (_, n))), r2)) => (TimeSetting::TotalTime(n), r2),
        Err(_) => match TimeRemainingTail::parse_from(&r1) {
            Ok(((_, (_, (_, n))), r2)) => (TimeSetting::TimeRemaining(n), r2),
            Err(_) => (TimeSetting::Infinite, r1),
        },
    };
    let win_length = match WinLengthTail::parse_from(&r2) {
        Ok(((_, (_, (_, k))), _)) => Some(k.0),
        Err(_) => {
            if r2.as_str().unicode_len() != 0 {
                let mut e = String::from_str("Expected nothing, found string : ");
                e.append(r2.as_str());
                return Err(e);
            }
            None
        },
    };
    Ok(Command::Move(BoardState::new(player, board, time, win_length)))
}

impl Command {
    /// Reads one command line.
    pub fn from_str(s: &str) -> (r: Result<Command, String>)
        ensures
            command_view(r) == command_spec(s@),
            r matches Ok(Command::Move(st)) ==> st.wf() && st.winner.is_none(),
    {
        let val = String::from_str(s);
        match StepParser::parse_from(&val) {
            Ok(((_, (_, (_, (_, version)))), _)) => {
                return Ok(Command::Init(version));
            },
            Err(_) => {},
        }
        match crate::parser::IdentifyParser::parse_from(&val) {
            Ok(_) => {
                return Ok(Command::Identify);
            },
            Err(_) => {},
        }
        match parse_move(&val) {
            Ok(c) => {
                return Ok(c);
            },
            Err(_) => {},
        }
        match crate::parser::QuitParser::parse_from(&val) {
            Ok(_) => Ok(Command::Quit),
            Err(e) => Err(e),
        }
    }
}

/// The protocol version a `st3p` command carries.
#[derive(PartialEq, Eq, Debug, Clone, Copy, Structural)]
pub struct Version(pub Number);

/// The answer to a `st3p` command.
#[derive(PartialEq, Eq, Debug, Clone, Copy, Structural)]
pub struct Step(pub Version);

impl Step {
    pub fn new(version: Number) -> (r: Self)
        ensures
            r == Step(Version(version)),
    {
        Step(Version(version))
    }
}

/// What the engine says of itself, as key and value pairs.
#[derive(PartialEq, Eq, Debug)]
pub struct Identity {
    pub engine_info: Vec<(String, String)>,
}

impl Identity {
    pub fn new() -> (r: Self)
        ensures
            r.engine_info@.len() == 4,
            r.engine_info@[0].0@ == "name"@,
            r.engine_info@[0].1@ == "t3elric-engine"@,
            r.engine_info@[1].0@ == "author"@,
            r.engine_info@[1].1@ == "shettyvikas209@gmail.com"@,
            r.engine_info@[2].0@ == "version"@,
            r.engine_info@[2].1@ == "1.2.2"@,
            r.engine_info@[3].0@ == "url"@,
            r.engine_info@[3].1@ == "https://github.com/vss96/t3elric-engine"@,
    {
        let mut engine_info: Vec<(String, String)> = Vec::new();
        engine_info.push((String::from_str("name"), String::from_str("t3elric-engine")));
        engine_info.push(
            (String::from_str("author"), String::from_str("shettyvikas209@gmail.com")),
        );
        engine_info.push((String::from_str("version"), String::from_str("1.2.2")));
        engine_info.push(
            (String::from_str("url"), String::from_str("https://github.com/vss96/t3elric-engine")),
        );
        Identity { engine_info }
    }
}

/// The request to stop the engine.
#[derive(PartialEq, Eq, Debug, Clone, Copy, Structural)]
pub struct Quit;

/// The engine's answer to a command.
#[derive(PartialEq, Eq, Debug)]
pub enum CommandResponse {
    StepOk(Step),
    Identity(Identity),
    Play(BestMove),
}

} // verus!

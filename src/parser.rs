use vstd::prelude::*;
use vstd::string::*;

use crate::number::{
    digit_prefix_len, is_digit_char, lemma_digit_prefix, no_digits, number_spec, Digit, Number,
};

verus! {

/// A parsed value and the input left after it, or an error message.
pub type ParseResult<T> = Result<(T, String), String>;

/// What a parse means: the view of the value and the rest, or the message.
pub type SpecResult<V> = Result<(V, Seq<char>), Seq<char>>;

pub open spec fn result_view<T: View>(r: ParseResult<T>) -> SpecResult<T::V> {
    match r {
        Ok((t, rest)) => Ok((t@, rest@)),
        Err(e) => Err(e@),
    }
}

/// A parser of one piece of the protocol text, from the start of its input.
pub trait Parser<T: View> {
    spec fn spec_parse(val: Seq<char>) -> SpecResult<T::V>;

    fn parse_from(val: &String) -> (r: ParseResult<T>)
        ensures
            result_view(r) == Self::spec_parse(val@),
    ;
}

impl View for Number {
    type V = u32;

    open spec fn view(&self) -> u32 {
        self.0
    }
}

pub open spec fn starts_with(s: Seq<char>, t: Seq<char>) -> bool {
    t.len() <= s.len() && s.subrange(0, t.len() as int) == t
}

pub open spec fn missing_token(token: Seq<char>) -> Seq<char> {
    "Could not find token: "@ + token
}

/// `token` at the start of `val`, or the message that it is missing.
pub open spec fn token_spec(token: Seq<char>, val: Seq<char>) -> SpecResult<Seq<char>> {
    if starts_with(val, token) {
        Ok((token, val.subrange(token.len() as int, val.len() as int)))
    } else {
        Err(missing_token(token))
    }
}

/// Reads `token` off the start of `val`.
pub fn parse_token(token: &str, val: &String) -> (r: ParseResult<String>)
    ensures
        result_view(r) == token_spec(token@, val@),
{
    let s = val.as_str();
    let n = s.unicode_len();
    let t = token.unicode_len();
    if t <= n {
        let head = String::from_str(s.substring_char(0, t));
        let expected = String::from_str(token);
        if head == expected {
            let rest = String::from_str(s.substring_char(t, n));
            return Ok((expected, rest));
        }
    }
    let mut e = String::from_str("Could not find token: ");
    e.append(token);
    Err(e)
}

pub const ST3P: &'static str = "st3p";

pub const IDENTIFY: &'static str = "identify";

pub const QUIT: &'static str = "quit";

pub const VERSION: &'static str = "version";

pub const WHITESPACE: &'static str = " ";

pub const MOVE: &'static str = "move";

pub const WINL: &'static str = "win-length";

pub const TIME: &'static str = "time";

pub const TIME_REMAINING: &'static str = "time-remaining";

/// Reads `st3p`.
pub struct StepTokenParser;

/// Reads `identify`.
pub struct IdentifyParser;

/// Reads `quit`.
pub struct QuitParser;

/// Reads `version`.
pub struct VersionTokenParser;

/// Reads one space.
pub struct WhiteSpaceParser;

/// Reads `move`.
pub struct MoveTokenParser;

/// Reads `win-length`.
pub struct WinLengthTokenParser;

/// Reads `time`.
pub struct TimeTokenParser;

/// Reads `time-remaining`.
pub struct TimeRemainingTokenParser;

impl Parser<String> for StepTokenParser {
    open spec fn spec_parse(val: Seq<char>) -> SpecResult<Seq<char>> {
        token_spec(ST3P@, val)
    }

    fn parse_from(val: &String) -> (r: ParseResult<String>) {
        parse_token(ST3P, val)
    }
}

impl Parser<String> for IdentifyParser {
    open spec fn spec_parse(val: Seq<char>) -> SpecResult<Seq<char>> {
        token_spec(IDENTIFY@, val)
    }

    fn parse_from(val: &String) -> (r: ParseResult<String>) {
        parse_token(IDENTIFY, val)
    }
}

impl Parser<String> for QuitParser {
    open spec fn spec_parse(val: Seq<char>) -> SpecResult<Seq<char>> {
        token_spec(QUIT@, val)
    }

    fn parse_from(val: &String) -> (r: ParseResult<String>) {
        parse_token(QUIT, val)
    }
}

impl Parser<String> for VersionTokenParser {
    open spec fn spec_parse(val: Seq<char>) -> SpecResult<Seq<char>> {
        token_spec(VERSION@, val)
    }

    fn parse_from(val: &String) -> (r: ParseResult<String>) {
        parse_token(VERSION, val)
    }
}

impl Parser<String> for WhiteSpaceParser {
    open spec fn spec_parse(val: Seq<char>) -> SpecResult<Seq<char>> {
        token_spec(WHITESPACE@, val)
    }

    fn parse_from(val: &String) -> (r: ParseResult<String>) {
        parse_token(WHITESPACE, val)
    }
}

impl Parser<String> for MoveTokenParser {
    open spec fn spec_parse(val: Seq<char>) -> SpecResult<Seq<char>> {
        token_spec(MOVE@, val)
    }

    fn parse_from(val: &String) -> (r: ParseResult<String>) {
        parse_token(MOVE, val)
    }
}

impl Parser<String> for WinLengthTokenParser {
    open spec fn spec_parse(val: Seq<char>) -> SpecResult<Seq<char>> {
        token_spec(WINL@, val)
    }

    fn parse_from(val: &String) -> (r: ParseResult<String>) {
        parse_token(WINL, val)
    }
}

impl Parser<String> for TimeTokenParser {
    open spec fn spec_parse(val: Seq<char>) -> SpecResult<Seq<char>> {
        token_spec(TIME@, val)
    }

    fn parse_from(val: &String) -> (r: ParseResult<String>) {
        parse_token(TIME, val)
    }
}

impl Parser<String> for TimeRemainingTokenParser {
    open spec fn spec_parse(val: Seq<char>) -> SpecResult<Seq<char>> {
        token_spec(TIME_REMAINING@, val)
    }

    fn parse_from(val: &String) -> (r: ParseResult<String>) {
        parse_token(TIME_REMAINING, val)
    }
}

/// Two parsers in sequence; the second reads what the first left.
pub struct AndParser<A, B>(pub A, pub B);

pub type And2<U, V> = AndParser<U, V>;

pub type And3<U, V, W> = And2<U, And2<V, W>>;

impl<X: View, Y: View, A: Parser<X>, B: Parser<Y>> Parser<(X, Y)> for AndParser<A, B> {
    open spec fn spec_parse(val: Seq<char>) -> SpecResult<(X::V, Y::V)> {
        match A::spec_parse(val) {
            Ok((x, follow)) => match B::spec_parse(follow) {
                Ok((y, rest)) => Ok(((x, y), rest)),
                Err(e) => Err(e),
            },
            Err(e) => Err(e),
        }
    }

    fn parse_from(val: &String) -> (r: ParseResult<(X, Y)>) {
        match A::parse_from(val) {
            Ok((x, follow)) => match B::parse_from(&follow) {
                Ok((y, rest)) => Ok(((x, y), rest)),
                Err(e) => Err(e),
            },
            Err(e) => Err(e),
        }
    }
}

/// The number of leading digits of `s`.
pub fn count_digits(s: &str) -> (n: usize)
    ensures
        n == digit_prefix_len(s@),
        n <= s@.len(),
{
    let len = s.unicode_len();
    let mut i: usize = 0;
    while i < len
        invariant
            len == s@.len(),
            i <= len,
            forall|j: int| 0 <= j < i ==> is_digit_char(#[trigger] s@[j]),
        decreases len - i,
    {
        let c = s.get_char(i);
        if !Digit::is_digit(&c) {
            proof {
                lemma_digit_prefix(s@, i as int);
                assert(s@.subrange(i as int, len as int)[0] == c);
            }
            return i;
        }
        i += 1;
    }
    proof {
        lemma_digit_prefix(s@, len as int);
    }
    len
}

/// Leading digits, as a number.
pub open spec fn leading_number_spec(s: Seq<char>) -> SpecResult<u32> {
    let n = digit_prefix_len(s);
    if n == 0 {
        Err(no_digits())
    } else {
        match number_spec(s.subrange(0, n)) {
            Ok(v) => Ok((v, s.subrange(n, s.len() as int))),
            Err(e) => Err(e),
        }
    }
}

impl Parser<Number> for Number {
    open spec fn spec_parse(val: Seq<char>) -> SpecResult<u32> {
        leading_number_spec(val)
    }

    fn parse_from(val: &String) -> (r: ParseResult<Number>) {
        let s = val.as_str();
        let len = s.unicode_len();
        let n = count_digits(s);
        if n == 0 {
            return Err(String::from_str("No digits found"));
        }
        let digits = String::from_str(s.substring_char(0, n));
        match Number::try_from(&digits) {
            Ok(number) => Ok((number, String::from_str(s.substring_char(n, len)))),
            Err(e) => Err(e),
        }
    }
}

/// Reads the whole input as the version number.
pub struct VersionNumberParser;

impl Parser<Number> for VersionNumberParser {
    open spec fn spec_parse(val: Seq<char>) -> SpecResult<u32> {
        match number_spec(val) {
            Ok(v) => Ok((v, Seq::empty())),
            Err(e) => Err(e),
        }
    }

    fn parse_from(val: &String) -> (r: ParseResult<Number>) {
        match Number::try_from(val) {
            Ok(number) => {
                let rest = String::new();
                Ok((number, rest))
            },
            Err(e) => Err(e),
        }
    }
}

/// `version <number>`.
pub type VersionParser = And3<VersionTokenParser, WhiteSpaceParser, VersionNumberParser>;

/// `st3p version <number>`.
pub type StepParser = And3<StepTokenParser, WhiteSpaceParser, VersionParser>;

} // verus!

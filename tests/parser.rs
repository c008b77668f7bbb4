use t3elric::board::{Board, Cell, Player, TimeSetting};
use t3elric::command::Command as Keyword;
use t3elric::notation::{BoardParser, PlayerParser};
use t3elric::number::{Digit, Number};
use t3elric::parser::{
    parse_token, IdentifyParser, Parser, QuitParser, StepParser, VersionNumberParser,
    VersionParser, VersionTokenParser, WhiteSpaceParser, IDENTIFY, QUIT, ST3P, VERSION,
    WHITESPACE,
};
use t3elric::protocol::{
    Anything, AnythingParser, Command, Identity, Nothing, NothingParser, Step, TimeParser,
    TotalTimeParser, Version,
};
use t3elric::state::BoardState;

use Cell::{NonPlayable, Playable, Played};

#[test]
fn identify_parser_parse_version_token() {
    let identify_string = "identify".to_string();
    let res = IdentifyParser::parse_from(&identify_string);
    assert_eq!(Ok((IDENTIFY.to_string(), "".to_string())), res);
}

#[test]
fn identify_parser_error_invalid_token() {
    let invalid_identify_string = "identifx".to_string();
    let res = IdentifyParser::parse_from(&invalid_identify_string);
    assert_eq!(Err(String::from("Could not find token: identify")), res);
}

#[test]
fn quit_parser_parse_version_token() {
    let identify_string = "quit".to_string();
    let res = QuitParser::parse_from(&identify_string);
    assert_eq!(Ok((QUIT.to_string(), "".to_string())), res);
}

#[test]
fn quit_parser_error_invalid_token() {
    let invalid_quit_string = "quix".to_string();
    let res = QuitParser::parse_from(&invalid_quit_string);
    assert_eq!(Err(String::from("Could not find token: quit")), res);
}

#[test]
fn version_parser_parse_version_token() {
    let version_string = "version 1".to_string();
    let res = VersionTokenParser::parse_from(&version_string);
    assert_eq!(Ok((VERSION.to_string(), " 1".to_string())), res);
}

#[test]
fn version_parser_error_invalid_token() {
    let invalid_version_string = "v 1.1.1".to_string();
    let res = VersionTokenParser::parse_from(&invalid_version_string);
    assert_eq!(Err(String::from("Could not find token: version")), res);
}

#[test]
fn parse_version_number() {
    let version_number = "1".to_string();
    let res = VersionNumberParser::parse_from(&version_number);
    assert_eq!(Ok((Number(1), "".to_string())), res);
}

#[test]
fn error_for_invalid_number() {
    let version_number = "1x".to_string();
    let res = VersionNumberParser::parse_from(&version_number);
    assert_eq!(Err("x is not a digit".to_string()), res);
}

#[test]
fn parse_version() {
    let version_string = "version 2".to_string();
    let res = VersionParser::parse_from(&version_string);
    assert_eq!(
        Ok(((VERSION.to_string(), (" ".to_string(), Number(2))), "".to_string())),
        res
    );
}

#[test]
fn parse_step() {
    let version_string = "st3p version 1".to_string();
    let res = StepParser::parse_from(&version_string);
    assert_eq!(
        Ok((
            (
                ST3P.to_string(),
                (" ".to_string(), ("version".to_string(), (" ".to_string(), Number(1))))
            ),
            "".to_string()
        )),
        res
    );
}

#[test]
fn should_parse_string_starting_with_whitespace() {
    let val = " 234".to_string();
    assert_eq!(
        Ok((WHITESPACE.to_string(), "234".to_string())),
        WhiteSpaceParser::parse_from(&val)
    );
}

#[test]
fn test_dummy_token_parser() {
    let dummy_string = "dummy 123".to_string();
    let parse_result = parse_token("dummy", &dummy_string);
    assert_eq!(parse_result, Ok(("dummy".to_string(), " 123".to_string())));
}

#[test]
fn should_read_a_valid_number_string() {
    let number_string = "1234".to_string();
    assert_eq!(Ok(Number(1234)), Number::try_from(&number_string));
}

#[test]
fn should_not_read_an_invalid_number_string() {
    let number_string = "1234-x".to_string();
    assert_eq!(Err(String::from("- is not a digit")), Number::try_from(&number_string));
}

#[test]
fn should_read_a_valid_single_digit_string() {
    let number_string = "1".to_string();
    assert_eq!(Ok(Number(1)), Number::try_from(&number_string));
}

#[test]
fn should_parse_number_from_string() {
    let number_string = "1234-x".to_string();
    assert_eq!(Ok((Number(1234), "-x".to_string())), Number::parse_from(&number_string));
}

#[test]
fn err_if_string_has_no_number() {
    let invalid_string = "xyz-".to_string();
    assert_eq!(Err("No digits found".to_string()), Number::parse_from(&invalid_string));
}

#[test]
fn number_out_of_range() {
    assert_eq!(Ok(Number(4294967295)), Number::try_from(&"4294967295".to_string()));
    assert_eq!(
        Err("Number out of range".to_string()),
        Number::try_from(&"4294967296".to_string())
    );
}

#[test]
fn parse_valid_time() {
    let time_string = String::from("time ms:1000");
    let res = TotalTimeParser::parse_from(&time_string);
    assert_eq!(
        res,
        Ok((("time".to_string(), (" ".to_string(), Number(1000))), "".to_string()))
    );
}

#[test]
fn parse_t3n_board() {
    let board_string = String::from("3_.x/4_o/5. x time-remaining ms:1500ms");
    let board = BoardParser::parse_from(&board_string);
    assert_eq!(
        Ok((
            Board::new(vec![
                vec![Playable, Playable, Playable, NonPlayable, Played(Player::X)],
                vec![Playable, Playable, Playable, Playable, Played(Player::O)],
                vec![NonPlayable, NonPlayable, NonPlayable, NonPlayable, NonPlayable]
            ]),
            String::from("x time-remaining ms:1500ms")
        )),
        board
    )
}

#[test]
fn board_parser_needs_a_space() {
    assert_eq!(
        Err("Invalid T3N notation".to_string()),
        BoardParser::parse_from(&"3_/3_/3_".to_string())
    );
}

#[test]
fn player_parser() {
    assert_eq!(Ok((Player::O, " rest".to_string())), PlayerParser::parse_from(&"o rest".to_string()));
    assert_eq!(Err("z is not a valid player.".to_string()), PlayerParser::parse_from(&"z".to_string()));
    assert_eq!(Err("Expected a non empty string".to_string()), PlayerParser::parse_from(&"".to_string()));
}

#[test]
fn test_move() {
    let command = Command::from_str("move 3_/_x_/3_ o");
    assert_eq!(
        command,
        Ok(Command::Move(BoardState::new(
            Player::O,
            Board::new(vec![
                vec![Playable, Playable, Playable],
                vec![Playable, Played(Player::X), Playable],
                vec![Playable, Playable, Playable]
            ]),
            TimeSetting::Infinite,
            None
        )))
    );
}

#[test]
fn move_command_with_time_and_win_length() {
    let board = Board::new(vec![vec![Playable; 3]; 3]);
    assert_eq!(
        Command::from_str("move 3_/3_/3_ x time ms:1000"),
        Ok(Command::Move(BoardState::new(
            Player::X,
            board.clone(),
            TimeSetting::TotalTime(Number(1000)),
            None
        )))
    );
    assert_eq!(
        Command::from_str("move 3_/3_/3_ x time-remaining ms:10000"),
        Ok(Command::Move(BoardState::new(
            Player::X,
            board.clone(),
            TimeSetting::TimeRemaining(Number(10000)),
            None
        )))
    );
    assert_eq!(
        Command::from_str("move 3_/3_/3_ x win-length 3"),
        Ok(Command::Move(BoardState::new(Player::X, board.clone(), TimeSetting::Infinite, Some(3))))
    );
    assert_eq!(
        Command::from_str("move 3_/3_/3_ x time ms:5 win-length 2"),
        Ok(Command::Move(BoardState::new(
            Player::X,
            board,
            TimeSetting::TotalTime(Number(5)),
            Some(2)
        )))
    );
}

#[test]
fn other_commands() {
    assert_eq!(Command::from_str("st3p version 2"), Ok(Command::Init(Number(2))));
    assert_eq!(Command::from_str("identify"), Ok(Command::Identify));
    assert_eq!(Command::from_str("quit"), Ok(Command::Quit));
    assert_eq!(
        Command::from_str("hello"),
        Err("Could not find token: quit".to_string())
    );
    assert_eq!(
        Command::from_str("move 3_/3_/3_ x extra"),
        Err("Could not find token: quit".to_string())
    );
}

#[test]
fn command_keywords() {
    assert_eq!(Keyword::value_of("st3p"), Some(Keyword::Step));
    assert_eq!(Keyword::value_of("identify"), Some(Keyword::Identify));
    assert_eq!(Keyword::value_of("move"), Some(Keyword::Move));
    assert_eq!(Keyword::value_of("quit"), Some(Keyword::Quit));
    assert_eq!(Keyword::value_of("step"), None);
}

#[test]
fn digits_and_players() {
    assert_eq!(Digit::try_from('7').map(|d| d.value()), Ok(7));
    assert_eq!(Digit::try_from('a').map(|d| d.value()), Err("a is not a digit".to_string()));
    assert!(Digit::is_digit(&'0'));
    assert!(!Digit::is_digit(&'/'));
    assert_eq!(Player::from_str("x"), Ok(Player::X));
    assert_eq!(Player::from_str("o"), Ok(Player::O));
    assert_eq!(Player::from_str("xo"), Err("xo is not a valid player.".to_string()));
}

#[test]
fn step_and_identity() {
    assert_eq!(Step::new(Number(1)), Step(Version(Number(1))));
    let identity = Identity::new();
    assert_eq!(identity.engine_info.len(), 4);
    assert_eq!(identity.engine_info[0], ("name".to_string(), "t3elric-engine".to_string()));
    assert_eq!(identity.engine_info[2], ("version".to_string(), "1.2.2".to_string()));
}

#[test]
fn time_parser_errors() {
    assert_eq!(TimeParser::parse_from(&"s:10".to_string()), Err("Invalid time unit".to_string()));
    assert_eq!(
        TimeParser::parse_from(&"ms:x".to_string()),
        Err("Error parsing time: No digits found".to_string())
    );
    assert_eq!(TimeParser::parse_from(&"ms:25 rest".to_string()), Ok((Number(25), " rest".to_string())));
}

#[test]
fn anything_and_nothing() {
    assert_eq!(
        AnythingParser::parse_from(&" win-length 3".to_string()),
        Ok((Anything::new(" win-length 3".to_string()), " win-length 3".to_string()))
    );
    assert_eq!(NothingParser::parse_from(&"".to_string()), Ok((Nothing, "".to_string())));
    assert_eq!(
        NothingParser::parse_from(&"x".to_string()),
        Err("Expected nothing, found string : x".to_string())
    );
}

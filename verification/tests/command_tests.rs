use chess_client::command::{Argument, Command};
use chess_client::opcode::Opcode;
use chess_client::text::{parse_u32, str_eq, u32_to_string, NumeralError};

#[test]
fn join_parses_to_string_argument() {
    let cmd = Command::from_strings(vec!["join", "Kyle"]).unwrap();
    assert_eq!(cmd.id, Opcode::Join);
    assert_eq!(cmd.arg, Some(Argument::Text("Kyle".to_string())));
}

#[test]
fn create_game_white_is_bool_true() {
    let cmd = Command::from_strings(vec!["create_game", "white"]).unwrap();
    assert_eq!(cmd.id, Opcode::CreateGame);
    assert_eq!(cmd.arg, Some(Argument::Bool(true)));
    let (pkt, _) = cmd.build_packet();
    assert_eq!(pkt.payload, vec![1u8]);
}

#[test]
fn create_game_black_is_bool_false() {
    let cmd = Command::from_strings(vec!["create_game", "black"]).unwrap();
    assert_eq!(cmd.arg, Some(Argument::Bool(false)));
    let (pkt, _) = cmd.build_packet();
    assert_eq!(pkt.payload, vec![0u8]);

    let other = Command::from_strings(vec!["create_game", "purple"]).unwrap();
    assert_eq!(other.arg, Some(Argument::Bool(false)));
}

#[test]
fn join_game_numeric_succeeds_with_int32() {
    let cmd = Command::from_strings(vec!["join_game", "42"]).unwrap();
    assert_eq!(cmd.id, Opcode::JoinGame);
    assert_eq!(cmd.arg, Some(Argument::Int32(42)));
}

#[test]
fn join_game_non_numeric_fails() {
    let err = Command::from_strings(vec!["join_game", "abc"]).unwrap_err();
    assert_eq!(err, "abc".parse::<u32>().unwrap_err().to_string());
    assert_eq!(err, "invalid digit found in string");
}

#[test]
fn join_game_value_too_large_fails() {
    assert!(Command::from_strings(vec!["join_game", "4294967295"]).is_ok());
    let err = Command::from_strings(vec!["join_game", "4294967296"]).unwrap_err();
    assert_eq!(err, "4294967296".parse::<u32>().unwrap_err().to_string());
    assert_eq!(err, "number too large to fit in target type");
}

#[test]
fn join_game_accepts_a_leading_plus() {
    let cmd = Command::from_strings(vec!["join_game", "+42"]).unwrap();
    assert_eq!(cmd.arg, Some(Argument::Int32(42)));
    let err = Command::from_strings(vec!["join_game", "+"]).unwrap_err();
    assert_eq!(err, "+".parse::<u32>().unwrap_err().to_string());
}

#[test]
fn join_game_empty_token_fails() {
    let err = Command::from_strings(vec!["join_game", ""]).unwrap_err();
    assert_eq!(err, "".parse::<u32>().unwrap_err().to_string());
    assert_eq!(err, "cannot parse integer from empty string");
}

#[test]
fn no_arg_commands_parse() {
    for (text, op) in [
        ("show_game", Opcode::ShowGame),
        ("list_games", Opcode::ListGames),
        ("leave_game", Opcode::LeaveGame),
    ] {
        let cmd = Command::from_strings(vec![text]).unwrap();
        assert_eq!(cmd.id, op);
        assert_eq!(cmd.arg, None);
    }
}

#[test]
fn send_move_parses_to_string_argument() {
    let cmd = Command::from_strings(vec!["send_move", "e2e4"]).unwrap();
    assert_eq!(cmd.id, Opcode::SendMove);
    assert_eq!(cmd.arg, Some(Argument::Text("e2e4".to_string())));
}

#[test]
fn unknown_command_is_rejected() {
    let err = Command::from_strings(vec!["dance"]).unwrap_err();
    assert_eq!(err, "Invalid command.");
}

#[test]
fn wrong_arity_names_the_command() {
    let cases: [(Vec<&str>, &str); 6] = [
        (vec!["join"], "join"),
        (vec!["create_game"], "create_game"),
        (vec!["join_game", "1", "2"], "join_game"),
        (vec!["show_game", "extra"], "show_game"),
        (vec!["list_games", "x"], "list_games"),
        (vec!["send_move"], "send_move"),
    ];
    for (tokens, name) in cases {
        let err = Command::from_strings(tokens).unwrap_err();
        assert_eq!(err, format!("Incorrect amount of arguments for {}", name));
    }
}

#[test]
fn int32_payload_is_big_endian() {
    let cmd = Command::from_strings(vec!["join_game", "66051"]).unwrap();
    let (pkt, _) = cmd.build_packet();
    // 66051 == 0x00010203
    assert_eq!(pkt.payload, vec![0u8, 1, 2, 3]);
}

#[test]
fn string_payload_is_utf8_bytes() {
    let cmd = Command::from_strings(vec!["join", "Kyle"]).unwrap();
    let (pkt, _) = cmd.build_packet();
    assert_eq!(pkt.payload, b"Kyle".to_vec());
}

#[test]
fn empty_argument_gives_empty_payload() {
    let cmd = Command::from_strings(vec!["show_game"]).unwrap();
    let (pkt, _) = cmd.build_packet();
    assert!(pkt.payload.is_empty());
}

#[test]
fn only_join_and_send_message_skip_the_response() {
    for (tokens, expect_response) in [
        (vec!["join", "Kyle"], false),
        (vec!["create_game", "white"], true),
        (vec!["join_game", "42"], true),
        (vec!["show_game"], true),
        (vec!["list_games"], true),
        (vec!["leave_game"], true),
        (vec!["send_move", "e2e4"], true),
    ] {
        let cmd = Command::from_strings(tokens).unwrap();
        let (_, requires_response) = cmd.build_packet();
        assert_eq!(requires_response, expect_response);
    }
    assert!(!Opcode::SendMsg.requires_response());
    assert!(!Opcode::Join.requires_response());
}

#[test]
fn command_text_round_trips_through_parse() {
    let cmd = Command::from_strings(vec!["join_game", "42"]).unwrap();
    assert_eq!(cmd.to_text(), "join_game 42");
    let cmd = Command::from_strings(vec!["join", "Kyle"]).unwrap();
    assert_eq!(cmd.to_text(), "join Kyle");
    let cmd = Command::from_strings(vec!["show_game"]).unwrap();
    assert_eq!(cmd.to_text(), "show_game");
    let cmd = Command::from_strings(vec!["create_game", "white"]).unwrap();
    assert_eq!(cmd.to_text(), "create_game true");
}

#[test]
fn parse_u32_accepts_exactly_u32_numerals() {
    assert_eq!(parse_u32("0"), Ok(0));
    assert_eq!(parse_u32("007"), Ok(7));
    assert_eq!(parse_u32("+1"), Ok(1));
    assert_eq!(parse_u32("4294967295"), Ok(u32::MAX));
    assert_eq!(parse_u32("4294967296"), Err(NumeralError::Overflow));
    assert_eq!(parse_u32(""), Err(NumeralError::Empty));
    assert_eq!(parse_u32("12a"), Err(NumeralError::InvalidDigit));
    assert_eq!(parse_u32("-1"), Err(NumeralError::InvalidDigit));
    assert_eq!(parse_u32("+"), Err(NumeralError::InvalidDigit));
}

#[test]
fn parse_u32_fails_as_std_parsing_fails() {
    // the first failure in scan order wins, exactly as str::parse does
    for text in ["4294967296x", "999999999x", "1+1", "+0042", " 7"] {
        let ours = parse_u32(text);
        let std_parse = text.parse::<u32>();
        assert_eq!(ours.is_ok(), std_parse.is_ok(), "{}", text);
        match (ours, std_parse) {
            (Ok(a), Ok(b)) => assert_eq!(a, b),
            (Err(e), Err(std_err)) => assert_eq!(e.message(), std_err.to_string()),
            _ => unreachable!(),
        }
    }
}

#[test]
fn u32_to_string_renders_decimal() {
    assert_eq!(u32_to_string(0), "0");
    assert_eq!(u32_to_string(42), "42");
    assert_eq!(u32_to_string(u32::MAX), "4294967295");
}

#[test]
fn str_eq_compares_characters() {
    assert!(str_eq("join", "join"));
    assert!(!str_eq("join", "join_game"));
    assert!(!str_eq("a", "b"));
    assert!(str_eq("", ""));
}

use shallow_red::command::{command_from_tokens, parse_command, read_time_field, Command};
use shallow_red::text::{char_is_space, is_word, parse_u64, split_tokens};

fn words(items: &[&str]) -> Vec<String> {
    items.iter().map(|s| s.to_string()).collect()
}

#[test]
fn tokens_are_split_at_white_space() {
    assert_eq!(
        split_tokens("position startpos moves e2e4"),
        words(&["position", "startpos", "moves", "e2e4"])
    );
    assert_eq!(
        split_tokens("  go\twtime  600000 \u{3000}btime\u{a0}5\r\n"),
        words(&["go", "wtime", "600000", "btime", "5"])
    );
    assert_eq!(split_tokens("uci"), words(&["uci"]));
    assert_eq!(split_tokens("a b"), words(&["a", "b"]));
    assert_eq!(split_tokens("\u{e9}t\u{e9} x"), words(&["\u{e9}t\u{e9}", "x"]));
}

#[test]
fn blank_lines_have_no_tokens() {
    assert_eq!(split_tokens(""), Vec::<String>::new());
    assert_eq!(split_tokens(" \t \n"), Vec::<String>::new());
}

#[test]
fn tokens_agree_with_split_whitespace() {
    let lines = [
        "position startpos moves e2e4 e7e5",
        "\u{2003}go  wtime 1 btime 2\u{2028}",
        "x\u{200b}y z",
        " \u{85}a\u{1680}b\u{202f}c\u{205f}d ",
    ];
    for line in lines {
        let expected: Vec<String> = line.split_whitespace().map(|s| s.to_string()).collect();
        assert_eq!(split_tokens(line), expected);
    }
}

#[test]
fn white_space_is_the_unicode_property() {
    for code in 0..=0x3100u32 {
        if let Some(c) = char::from_u32(code) {
            assert_eq!(char_is_space(c), c.is_whitespace());
        }
    }
}

#[test]
fn words_are_compared_whole() {
    assert!(is_word(&"go".to_string(), "go"));
    assert!(!is_word(&"go".to_string(), "g"));
    assert!(!is_word(&"g".to_string(), "go"));
    assert!(!is_word(&"Go".to_string(), "go"));
}

#[test]
fn numbers_are_read_in_decimal() {
    assert_eq!(parse_u64("0"), Some(0));
    assert_eq!(parse_u64("600000"), Some(600_000));
    assert_eq!(parse_u64("+5"), Some(5));
    assert_eq!(parse_u64("007"), Some(7));
    assert_eq!(parse_u64("18446744073709551615"), Some(u64::MAX));
}

#[test]
fn malformed_numbers_are_refused() {
    assert_eq!(parse_u64(""), None);
    assert_eq!(parse_u64("+"), None);
    assert_eq!(parse_u64("-5"), None);
    assert_eq!(parse_u64("++5"), None);
    assert_eq!(parse_u64("5+"), None);
    assert_eq!(parse_u64("12a"), None);
    assert_eq!(parse_u64("1 2"), None);
    assert_eq!(parse_u64("\u{663}"), None);
    assert_eq!(parse_u64("18446744073709551616"), None);
    assert_eq!(parse_u64("99999999999999999999999"), None);
}

#[test]
fn numbers_agree_with_the_standard_parser() {
    let texts = ["0", "+0", "42", "+42", "-1", "", "+", "1e3", "18446744073709551615",
        "18446744073709551616", "000000000000000000000001", "\u{661}\u{662}"];
    for text in texts {
        assert_eq!(parse_u64(text), text.parse::<u64>().ok());
    }
}

#[test]
fn lines_are_classified_by_their_first_token() {
    assert_eq!(parse_command("uci"), Command::Handshake);
    assert_eq!(parse_command("isready"), Command::ReadyCheck);
    assert_eq!(parse_command("ucinewgame"), Command::NewGame);
    assert_eq!(parse_command("stop"), Command::CancelThinking);
    assert_eq!(parse_command("quit"), Command::Shutdown);
    assert_eq!(parse_command("debuginternal"), Command::DebugLoad);
    assert_eq!(parse_command("  isready  now"), Command::ReadyCheck);
    assert_eq!(
        parse_command("position startpos moves e2e4"),
        Command::SetPosition(words(&["startpos", "moves", "e2e4"]))
    );
    assert_eq!(parse_command("position"), Command::SetPosition(Vec::new()));
}

#[test]
fn unknown_and_empty_lines_are_unrecognized() {
    assert_eq!(parse_command(""), Command::Unrecognized);
    assert_eq!(parse_command("   "), Command::Unrecognized);
    assert_eq!(parse_command("setoption name Hash value 16"), Command::Unrecognized);
    assert_eq!(parse_command("UCI"), Command::Unrecognized);
    assert_eq!(parse_command("ucii"), Command::Unrecognized);
    assert_eq!(command_from_tokens(Vec::new()), Command::Unrecognized);
}

#[test]
fn go_carries_the_clocks_by_position() {
    assert_eq!(
        parse_command("go wtime 600000 btime 500000"),
        Command::BeginThinking { white_ms: Some(600_000), black_ms: Some(500_000) }
    );
    assert_eq!(
        parse_command("go wtime 1000"),
        Command::BeginThinking { white_ms: Some(1_000), black_ms: None }
    );
    assert_eq!(
        parse_command("go wtime abc btime 7"),
        Command::BeginThinking { white_ms: None, black_ms: Some(7) }
    );
    assert_eq!(parse_command("go"), Command::BeginThinking { white_ms: None, black_ms: None });
    assert_eq!(
        parse_command("go infinite"),
        Command::BeginThinking { white_ms: None, black_ms: None }
    );
}

#[test]
fn time_fields_are_read_where_they_stand() {
    let tokens = words(&["go", "wtime", "12", "btime", "x"]);
    assert_eq!(read_time_field(&tokens, 2), Some(12));
    assert_eq!(read_time_field(&tokens, 4), None);
    assert_eq!(read_time_field(&tokens, 5), None);
    assert_eq!(read_time_field(&tokens, 1), None);
}

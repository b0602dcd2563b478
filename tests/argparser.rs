use wikit_core::argparse::{collect_tokens, ArgParser};
use wikit_core::command::split_command;
use wikit_core::error::WikitError;

#[test]
fn test_argparser() {
    let cmd = "a bc def";
    let mut argparser = ArgParser::new(cmd);
    assert_eq!(Some("a".into()), argparser.next());
    assert_eq!(Some("bc".into()), argparser.next());
    assert_eq!(Some("def".into()), argparser.next());

    let cmd = " a bc  def   ghi ";
    let mut argparser = ArgParser::new(cmd);
    assert_eq!(Some("a".into()), argparser.next());
    assert_eq!(Some("bc".into()), argparser.next());
    assert_eq!(Some("def".into()), argparser.next());
    assert_eq!(Some("ghi".into()), argparser.next());

    let cmd = " a bc 'def ghi' 'jkl  mno' 'pqr   st' ' x y z  ' ";
    let mut argparser = ArgParser::new(cmd);
    assert_eq!(Some("a".into()), argparser.next());
    assert_eq!(Some("bc".into()), argparser.next());
    assert_eq!(Some("def ghi".into()), argparser.next());
    assert_eq!(Some("jkl  mno".into()), argparser.next());
    assert_eq!(Some("pqr   st".into()), argparser.next());
    assert_eq!(Some(" x y z  ".into()), argparser.next());
}

#[test]
fn parser_is_exhausted_after_last_token() {
    let mut p = ArgParser::new("a bc def");
    for _ in 0..3 {
        assert!(p.next().is_some());
    }
    assert_eq!(None, p.next());
    assert_eq!(None, p.next());
}

#[test]
fn blank_inputs_have_no_tokens() {
    for cmd in ["", " ", "     ", "\t \n ", "\u{3000}\u{a0}"] {
        let mut p = ArgParser::new(cmd);
        assert_eq!(None, p.next());
        assert!(collect_tokens(cmd).is_empty());
    }
}

#[test]
fn unterminated_quote_keeps_captured_text() {
    assert_eq!(collect_tokens("a 'bc"), vec!["a".to_string(), "bc".to_string()]);
    assert_eq!(collect_tokens("x \"y  z"), vec!["x".to_string(), "y  z".to_string()]);
}

#[test]
fn adjacent_pieces_join() {
    assert_eq!(collect_tokens("ab'c d'e"), vec!["abc de".to_string()]);
    assert_eq!(collect_tokens("'x'y \"z\"w q"), vec!["xy".to_string(), "zw".to_string(), "q".to_string()]);
}

#[test]
fn other_quote_inside_quote_is_text() {
    assert_eq!(collect_tokens("echo 'say \"hi\"'"), vec!["echo".to_string(), "say \"hi\"".to_string()]);
    assert_eq!(collect_tokens("\"it's\""), vec!["it's".to_string()]);
}

#[test]
fn empty_quotes_give_empty_token() {
    assert_eq!(collect_tokens("'' a"), vec!["".to_string(), "a".to_string()]);
}

#[test]
fn only_plain_space_separates() {
    assert_eq!(collect_tokens("a\tb c"), vec!["a\tb".to_string(), "c".to_string()]);
}

#[test]
fn multibyte_characters_are_whole() {
    assert_eq!(collect_tokens(" 词典 'ä ö' ü"), vec!["词典".to_string(), "ä ö".to_string(), "ü".to_string()]);
}

#[test]
fn empty_command_is_an_error() {
    match split_command("   ") {
        Err(WikitError::Plain(m)) => assert_eq!(m, "Empty command"),
        other => panic!("unexpected {:?}", other),
    }
    match split_command("") {
        Err(WikitError::Plain(m)) => assert_eq!(m, "Empty command"),
        other => panic!("unexpected {:?}", other),
    }
}

#[test]
fn command_line_splits_into_program_and_args() {
    let v = split_command("  ls -l 'my dir' ").unwrap();
    assert_eq!(v, vec!["ls".to_string(), "-l".to_string(), "my dir".to_string()]);
}

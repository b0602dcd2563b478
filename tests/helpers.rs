use wikit_core::command::command_output;
use wikit_core::error::WikitError;
use wikit_core::paths::{filter_file_by_suffix, split_path};
use wikit_core::port::{PortAction, PortSearch};
use wikit_core::text::{char_is_control, char_is_white_space, normalize_word};

#[test]
fn white_space_matches_std() {
    for c in (0u32..=0x10FFFF).filter_map(char::from_u32) {
        assert_eq!(char_is_white_space(c), c.is_whitespace(), "{:?}", c);
    }
}

#[test]
fn control_matches_std() {
    for c in (0u32..=0x10FFFF).filter_map(char::from_u32) {
        assert_eq!(char_is_control(c), c.is_control(), "{:?}", c);
    }
}

#[test]
fn normalize_word_trims_and_lowercases() {
    assert_eq!(normalize_word("  Hello\u{7}\n"), "hello");
    assert_eq!(normalize_word("\u{1}ÄBC Def\t"), "äbc def");
    assert_eq!(normalize_word(""), "");
    assert_eq!(normalize_word(" \u{0} "), "");
}

#[test]
fn parse_path_test() {
    let p = split_path("/home/user/test/demo.txt");
    if let Ok(p) = p {
        assert_eq!(p.0.as_str(), "/home/user/test");
        assert_eq!(p.1.as_str(), "demo");
        assert_eq!(p.2.as_str(), "txt");
    } else {
        assert_eq!(true, false);
    }
}

#[test]
fn split_path_reports_missing_part() {
    match split_path("/home/user/test/demo") {
        Err(WikitError::Plain(m)) => assert_eq!(m, "cannot get extension of [/home/user/test/demo]"),
        other => panic!("unexpected {:?}", other),
    }
    match split_path("/") {
        Err(WikitError::Plain(m)) => assert_eq!(m, "cannot get parent directory of /"),
        other => panic!("unexpected {:?}", other),
    }
}

#[test]
fn filter_keeps_matching_entries_in_order() {
    let entries = vec![
        "/d/a.txt".to_string(),
        "/d/b.md".to_string(),
        "/d/c.txt".to_string(),
        "/d/txt".to_string(),
        "/d/.txt".to_string(),
    ];
    assert_eq!(
        filter_file_by_suffix(&entries, "txt"),
        Some(vec!["/d/a.txt".to_string(), "/d/c.txt".to_string()])
    );
    assert_eq!(filter_file_by_suffix(&entries, "json"), None);
    assert_eq!(filter_file_by_suffix(&Vec::new(), "txt"), None);
}

#[test]
fn successful_command_gives_stdout() {
    let r = command_output(true, &b"hello\n".to_vec(), &b"warn".to_vec());
    assert_eq!(r.unwrap(), "hello\n");
}

#[test]
fn failed_command_reports_stderr() {
    match command_output(false, &b"out".to_vec(), &b"no such file".to_vec()) {
        Err(WikitError::Plain(m)) => assert_eq!(m, "no such file"),
        other => panic!("unexpected {:?}", other),
    }
    match command_output(false, &Vec::new(), &vec![0xff, 1]) {
        Err(WikitError::Plain(m)) => assert_eq!(m, "command exit with error: [255, 1]"),
        other => panic!("unexpected {:?}", other),
    }
}

#[test]
fn undecodable_output_is_an_error() {
    match command_output(true, &vec![0xc3], &Vec::new()) {
        Err(WikitError::Plain(m)) => assert_eq!(m, "failed to decode output: [195]"),
        other => panic!("unexpected {:?}", other),
    }
}

#[test]
fn busy_preferred_port_falls_back_to_range() {
    let (mut s, a) = PortSearch::start(Some(7000));
    assert_eq!(a, PortAction::Probe(7000));
    assert_eq!(s.after_probe(false), PortAction::Probe(6000));
    assert_eq!(s.after_probe(false), PortAction::Probe(6001));
    assert_eq!(s.after_probe(true), PortAction::Done(Some(6001)));
}

#[test]
fn free_preferred_port_is_kept() {
    let (mut s, a) = PortSearch::start(Some(80));
    assert_eq!(a, PortAction::Probe(80));
    assert_eq!(s.after_probe(true), PortAction::Done(Some(80)));
}

#[test]
fn exhausted_search_finds_nothing() {
    let (mut s, a) = PortSearch::start(None);
    assert_eq!(a, PortAction::Probe(6000));
    let mut last = a;
    let mut probes = 1;
    while let PortAction::Probe(p) = last {
        assert!((6000..9000).contains(&p));
        last = s.after_probe(false);
        if let PortAction::Probe(_) = last {
            probes += 1;
        }
    }
    assert_eq!(probes, 3000);
    assert_eq!(last, PortAction::Done(None));
}

#[test]
fn plain_error_holds_message() {
    match WikitError::new("boom") {
        WikitError::Plain(m) => assert_eq!(m, "boom"),
        other => panic!("unexpected {:?}", other),
    }
}

#[test]
fn outside_errors_convert() {
    let e = WikitError::from(std::io::Error::new(std::io::ErrorKind::Other, "x"));
    assert!(matches!(e, WikitError::IOError(_)));
    let e = WikitError::from(String::from_utf8(vec![0xff]).unwrap_err());
    assert!(matches!(e, WikitError::UTF8Error(_)));
    let e = WikitError::from(anyhow::Error::msg("y"));
    assert!(matches!(e, WikitError::Anyhow(_)));
    let e: WikitError = toml::from_str::<toml::Value>("= 1").unwrap_err().into();
    assert!(matches!(e, WikitError::TOMLError(_)));
    let e: WikitError = json5::from_str::<u32>("{").unwrap_err().into();
    assert!(matches!(e, WikitError::JSON5Error(_)));
    let e: WikitError = fst::Set::new(vec![1u8, 2, 3]).unwrap_err().into();
    assert!(matches!(e, WikitError::FSTError(_)));
    let e: WikitError = rusqlite::Error::QueryReturnedNoRows.into();
    assert!(matches!(e, WikitError::SQLiteError(_)));
}

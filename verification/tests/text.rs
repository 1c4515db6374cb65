//! Numbers, truth values and commands in text form, held against the standard
//! library and the `regex` crate.

use std::str::FromStr;

use ap_client::command::{parse_command, parse_flag_and_value};
use ap_client::text::{bool_name, decimal, parse_bool, parse_u32, same_text, trim};
use regex::Regex;

#[test]
fn numbers_are_read_as_the_standard_library_reads_them() {
    for text in [
        "", "0", "7", "12", "+12", "++12", "+", "-1", "-0", " 12", "12 ", "012", "1_000", "4294967295",
        "4294967296", "42949672950", "00000000000000000000001", "99999999999999999999", "1a", "a1",
        "٣", "1.0", "0x10", "+4294967295", "13000050",
    ] {
        assert_eq!(parse_u32(text), u32::from_str(text).ok(), "{text:?}");
    }
    assert_eq!(parse_u32("13000050"), Some(13_000_050));
}

#[test]
fn truth_values_are_read_as_the_standard_library_reads_them() {
    for text in ["true", "false", "True", "FALSE", "", " true", "true ", "1", "0", "tru", "yes"] {
        assert_eq!(parse_bool(text), bool::from_str(text).ok(), "{text:?}");
    }
}

#[test]
fn numbers_are_written_and_read_back() {
    for n in [0, 1, 9, 10, 11, 99, 100, 101, 9030, 123_456_789, u32::MAX - 1, u32::MAX] {
        assert_eq!(decimal(n), n.to_string());
        assert_eq!(parse_u32(&decimal(n)), Some(n));
    }
}

#[test]
fn truth_values_are_written_and_read_back() {
    assert_eq!(bool_name(true), "true");
    assert_eq!(bool_name(false), "false");
    assert_eq!(parse_bool(bool_name(true)), Some(true));
    assert_eq!(parse_bool(bool_name(false)), Some(false));
}

#[test]
fn texts_are_compared_by_their_characters() {
    assert!(same_text("", ""));
    assert!(same_text("Ärger", "Ärger"));
    assert!(!same_text("a", "A"));
    assert!(!same_text("a", "a "));
}

/// The command in a message, as a regular expression finds it.
fn command_by_regex(message: &str) -> Option<(String, Option<String>)> {
    let pattern = Regex::new("^(![^ ]+)( +)?(.*)?$").unwrap();
    let captures = pattern.captures(message.trim())?;
    Some((
        captures.get(1).unwrap().as_str().to_string(),
        captures.get(3).map(|c| c.as_str().to_string()),
    ))
}

fn command(message: &str) -> Option<(String, Option<String>)> {
    parse_command(message).map(|command| (command.name, Some(command.arg)))
}

#[test]
fn commands_are_found_as_the_regular_expression_finds_them() {
    for message in [
        "", " ", "!", "! ", "! a", "!a", "!a ", " !a", "!a b", "!a  b", "!a   b  c ", "a !b", "!!", "!!!",
        "!getevent 12", "!getevent    12   ", "\t!a\tb\n", "!a\nb", "!a b\nc", "!a \nb", "!a\n b", "!\n",
        "!\n\n x", "!ä ö", "\u{3000}!a\u{2003}b\u{3000}", "!a\u{2028}b c\u{2028}d", "!a\rb", "!a b\rc",
        "!a  ", "hello", "hello !a", "!a !b !c", "\u{85}!x\u{a0}", "\u{200b}!x", "! !", "!a\u{0} b",
    ] {
        assert_eq!(command(message), command_by_regex(message), "{message:?}");
    }
}

#[test]
fn commands_agree_with_the_regular_expression_on_all_short_messages() {
    let alphabet = ['!', ' ', 'a', '\n', '\t', 'é'];
    let mut messages = vec![String::new()];
    for _ in 0..5 {
        let mut longer = Vec::new();
        for message in &messages {
            for c in alphabet {
                longer.push(format!("{message}{c}"));
            }
        }
        for message in &longer {
            assert_eq!(command(message), command_by_regex(message), "{message:?}");
        }
        messages = longer;
    }
}

#[test]
fn white_space_around_a_command_is_that_of_unicode() {
    for c in char::MIN..=char::MAX {
        let message = format!("{c}!a{c}");
        let is_command = command(&message).is_some();
        assert_eq!(is_command, c.is_whitespace() || c == '!', "{c:?}");
        if c.is_whitespace() {
            assert_eq!(command(&message), Some(("!a".to_string(), Some(String::new()))));
        }
    }
}

#[test]
fn texts_are_trimmed_as_the_standard_library_trims_them() {
    for text in [
        "", " ", " \t\r\n", "a", " a", "a ", "  a b  ", "\u{3000}ä\u{2028}", "\u{200b} x \u{feff}",
        "\u{85}\u{a0}x y\u{1680}\u{205f}", "\u{b}\u{c}x\u{1c}",
    ] {
        assert_eq!(trim(text), text.trim(), "{text:?}");
    }
    for c in char::MIN..=char::MAX {
        let text = format!("{c}a{c}");
        assert_eq!(trim(&text), text.trim(), "{c:?}");
    }
}

/// The argument of `!setevent`, taken apart with a regular expression.
fn flag_and_value_by_regex(arg: &str) -> Option<(u32, bool)> {
    let args = Regex::new(" +").unwrap().split(arg).collect::<Vec<_>>();
    if args.len() == 2 {
        Some((u32::from_str(args[0]).ok()?, bool::from_str(args[1]).ok()?))
    } else {
        None
    }
}

#[test]
fn flags_and_values_are_split_as_the_regular_expression_splits_them() {
    for arg in [
        "", " ", "12", "12 ", " 12", "12 true", "12  true", "12    false", "12 true ", " 12 true",
        "12 true x", "true 12", "12\ttrue", "+12 true", "12 True", "4294967295 false",
        "4294967296 false", "12 ", "  ", "12  ", "x true", "1 2 3 4",
    ] {
        assert_eq!(parse_flag_and_value(arg), flag_and_value_by_regex(arg), "{arg:?}");
    }
    assert_eq!(parse_flag_and_value("12  true"), Some((12, true)));
}

#[test]
fn a_command_and_its_argument_cover_the_line() {
    let command = parse_command("  !setevent   12 true  ").unwrap();
    assert_eq!(command.name, "!setevent");
    assert_eq!(command.arg, "12 true");
    assert!(parse_command("no command").is_none());
}

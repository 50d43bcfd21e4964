//! Parsing messages into commands, and reading numerals.

use booba_bot::command::parse_command;
use booba_bot::numeral::{decimal_string, parse_count};
use booba_bot::Command;

#[test]
fn parse_increment() {
    assert_eq!(parse_command("!booba"), Command::Increment);
}

#[test]
fn parse_leading_and_trailing_whitespace() {
    assert_eq!(parse_command("   !booba  "), Command::Increment);
    assert_eq!(parse_command("\t!help\n"), Command::Help);
}

#[test]
fn parse_show_reset_help() {
    assert_eq!(parse_command("!boobacount"), Command::ShowCount);
    assert_eq!(parse_command("!boobareset"), Command::Reset);
    assert_eq!(parse_command("!help"), Command::Help);
}

#[test]
fn parse_save_with_value() {
    assert_eq!(parse_command("!boobasave 42"), Command::SetTo(42));
}

#[test]
fn parse_save_ignores_extra_tokens() {
    assert_eq!(parse_command("!boobasave 42 and more words"), Command::SetTo(42));
}

#[test]
fn parse_save_missing_argument() {
    assert_eq!(parse_command("!boobasave"), Command::SaveMissingArg);
    assert_eq!(parse_command("!boobasave   "), Command::SaveMissingArg);
}

#[test]
fn parse_save_non_numeric() {
    assert_eq!(parse_command("!boobasave abc"), Command::SaveBadArg);
}

#[test]
fn parse_save_negative() {
    assert_eq!(parse_command("!boobasave -5"), Command::SaveBadArg);
}

#[test]
fn parse_save_sign_and_decimal_rejected() {
    assert_eq!(parse_command("!boobasave +5"), Command::SaveBadArg);
    assert_eq!(parse_command("!boobasave 4.2"), Command::SaveBadArg);
}

#[test]
fn parse_save_too_large() {
    // One more than usize::MAX on a 64-bit target.
    assert_eq!(parse_command("!boobasave 18446744073709551616"), Command::SaveBadArg);
}

#[test]
fn parse_save_largest_value() {
    assert_eq!(
        parse_command("!boobasave 18446744073709551615"),
        Command::SetTo(usize::MAX)
    );
}

#[test]
fn parse_save_leading_zeros() {
    assert_eq!(parse_command("!boobasave 007"), Command::SetTo(7));
    assert_eq!(parse_command("!boobasave 0"), Command::SetTo(0));
}

#[test]
fn parse_empty_message() {
    assert_eq!(parse_command(""), Command::Unrecognized);
    assert_eq!(parse_command("   \t  "), Command::Unrecognized);
}

#[test]
fn parse_unknown_command() {
    assert_eq!(parse_command("!unknown"), Command::Unrecognized);
    assert_eq!(parse_command("hello !booba"), Command::Unrecognized);
}

#[test]
fn parse_is_case_sensitive() {
    assert_eq!(parse_command("!BOOBA"), Command::Unrecognized);
}

#[test]
fn parse_splits_on_unicode_whitespace() {
    assert_eq!(parse_command("!booba\u{00A0}trailing"), Command::Increment);
    assert_eq!(parse_command("!boobasave\u{2003}7"), Command::SetTo(7));
}

#[test]
fn parse_keyword_prefix_is_not_a_keyword() {
    assert_eq!(parse_command("!boobac"), Command::Unrecognized);
    assert_eq!(parse_command("!boobasaves 3"), Command::Unrecognized);
}

#[test]
fn count_token_accepts_digit_runs_only() {
    assert_eq!(parse_count("42"), Some(42));
    assert_eq!(parse_count("0"), Some(0));
    assert_eq!(parse_count(""), None);
    assert_eq!(parse_count(" 42"), None);
    assert_eq!(parse_count("42 "), None);
    assert_eq!(parse_count("4x2"), None);
    assert_eq!(parse_count("18446744073709551615"), Some(usize::MAX));
    assert_eq!(parse_count("18446744073709551616"), None);
    assert_eq!(parse_count("99999999999999999999999999"), None);
}

#[test]
fn decimal_rendering() {
    assert_eq!(decimal_string(0), "0");
    assert_eq!(decimal_string(7), "7");
    assert_eq!(decimal_string(420), "420");
    assert_eq!(decimal_string(usize::MAX), "18446744073709551615");
}

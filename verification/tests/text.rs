use hatysa::markup::link_message;
use hatysa::task::embed::{format_uptime, user_friendly_message};
use hatysa::command::CommandError;
use hatysa::text::{chars_of, push_decimal, push_signed_decimal, push_text, string_of};

fn chars(s: &str) -> Vec<char> {
    s.chars().collect()
}

fn decimal(n: u64) -> String {
    let mut out = String::new();
    push_decimal(&mut out, n);
    out
}

fn signed(n: i64) -> String {
    let mut out = String::new();
    push_signed_decimal(&mut out, n);
    out
}

#[test]
fn chars_and_strings_convert_both_ways() {
    assert_eq!(chars_of("héllo 👏"), chars("héllo 👏"));
    assert_eq!(string_of(&chars("héllo 👏")), "héllo 👏");
    assert_eq!(chars_of(""), Vec::<char>::new());
}

#[test]
fn push_text_appends() {
    let mut out = "ab".to_string();
    push_text(&mut out, "cd");
    push_text(&mut out, "");
    assert_eq!(out, "abcd");
}

#[test]
fn decimal_numerals() {
    assert_eq!(decimal(0), "0");
    assert_eq!(decimal(7), "7");
    assert_eq!(decimal(10), "10");
    assert_eq!(decimal(1_234_567_890), "1234567890");
    assert_eq!(decimal(u64::MAX), "18446744073709551615");
    assert_eq!(signed(0), "0");
    assert_eq!(signed(-1), "-1");
    assert_eq!(signed(42), "42");
    assert_eq!(signed(i64::MIN), "-9223372036854775808");
    assert_eq!(signed(i64::MAX), "9223372036854775807");
}

#[test]
fn uptime_written_out() {
    assert_eq!(format_uptime((1, 2, 3, 4)), "1d 2h 3m 4s");
    assert_eq!(format_uptime((0, 0, 0, 0)), "0d 0h 0m 0s");
    assert_eq!(format_uptime((400, 23, 59, 59)), "400d 23h 59m 59s");
}

#[test]
fn link_message_mentions_the_author() {
    assert_eq!(link_message(7, "http://a.b/"), "<@7>: <http://a.b/>");
    assert_eq!(
        link_message(81384788765712384, "http://verylegit.link/x"),
        "<@81384788765712384>: <http://verylegit.link/x>"
    );
}

#[test]
fn friendly_messages_shout_the_input() {
    assert_eq!(
        user_friendly_message(&CommandError::NonAlphanumeric { original: "o k".to_string() }),
        "String **O K** contains non-alphanumeric characters!"
    );
    assert_eq!(
        user_friendly_message(&CommandError::Repetition { original: "aab".to_string() }),
        "String **AAB** contains repeated characters!"
    );
}

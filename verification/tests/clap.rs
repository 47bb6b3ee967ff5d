use hatysa::command::clap::{clap, clappify};
use hatysa::command::Response;

#[test]
fn clap_puts_the_emoji_after_each_word() {
    assert_eq!(clappify("hello world"), "hello 👏 world 👏");
}

#[test]
fn clap_of_one_word() {
    assert_eq!(clappify("x"), "x 👏");
}

#[test]
fn clap_of_nothing_is_nothing() {
    assert_eq!(clappify(""), "");
}

#[test]
fn clap_keeps_empty_words() {
    assert_eq!(clappify("a  b"), "a 👏  👏 b 👏");
    assert_eq!(clappify(" "), " 👏  👏");
}

#[test]
fn clap_response_holds_the_output() {
    assert_eq!(
        clap("so it goes".to_string()),
        Response::Clap { output: "so 👏 it 👏 goes 👏".to_string() }
    );
}

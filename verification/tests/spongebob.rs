use hatysa::command::spongebob::{spongebob, spongebobify};
use hatysa::command::Response;

#[test]
fn spongebob_alternates_across_a_space() {
    assert_eq!(spongebobify("ab cd"), "aB cD");
}

#[test]
fn spongebob_starts_in_lower_case() {
    assert_eq!(spongebobify("HELLO"), "hElLo");
}

#[test]
fn spongebob_keeps_what_is_not_alphanumeric() {
    assert_eq!(spongebobify("a-b, c!"), "a-B, c!");
    assert_eq!(spongebobify("  !? "), "  !? ");
    assert_eq!(spongebobify(""), "");
}

#[test]
fn spongebob_counts_digits_and_foreign_letters() {
    // A digit takes a turn though it has no case, and so does a letter
    // outside ASCII, which keeps its form.
    assert_eq!(spongebobify("a1b"), "a1b");
    assert_eq!(spongebobify("1ab"), "1Ab");
    assert_eq!(spongebobify("éab"), "éAb");
    assert_eq!(spongebobify("aÉb"), "aÉb");
}

#[test]
fn spongebob_response_holds_the_output() {
    assert_eq!(
        spongebob("what a day".to_string()),
        Response::Spongebob { output: "wHaT a DaY".to_string() }
    );
}

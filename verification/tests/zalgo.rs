use hatysa::command::zalgo::{interleave, zalgify, zalgo};
use hatysa::command::Response;

fn is_mark(c: char) -> bool {
    (0x300..0x36f).contains(&(c as u32))
}

fn check_zalgo(input: &str, per_char: usize, output: &str) {
    let base: Vec<char> = input.chars().collect();
    let out: Vec<char> = output.chars().collect();
    assert_eq!(out.len(), base.len() * (per_char + 1));
    for (k, c) in out.iter().enumerate() {
        if k % (per_char + 1) == 0 {
            assert_eq!(*c, base[k / (per_char + 1)]);
        } else {
            assert!(is_mark(*c));
        }
    }
}

#[test]
fn interleave_puts_the_marks_after_each_character() {
    let marks = vec!['\u{300}', '\u{301}', '\u{302}', '\u{303}'];
    assert_eq!(interleave("ab", 2, &marks), Some("a\u{300}\u{301}b\u{302}\u{303}".to_string()));
}

#[test]
fn interleave_without_marks_is_the_input() {
    assert_eq!(interleave("abc", 0, &vec![]), Some("abc".to_string()));
    assert_eq!(interleave("", 3, &vec![]), Some(String::new()));
}

#[test]
fn interleave_wants_the_exact_number_of_marks() {
    assert_eq!(interleave("ab", 2, &vec!['\u{300}'; 3]), None);
    assert_eq!(interleave("ab", 2, &vec!['\u{300}'; 5]), None);
    assert_eq!(interleave("", 2, &vec!['\u{300}']), None);
}

#[test]
fn zalgify_keeps_the_characters_and_adds_marks() {
    let output = zalgify("He comes".to_string(), 3);
    check_zalgo("He comes", 3, &output);
    assert_ne!(output, "He comes");
}

#[test]
fn zalgo_without_a_limit_adds_ten_marks() {
    match zalgo("ZALGO!".to_string(), None) {
        Response::Zalgo { output } => check_zalgo("ZALGO!", 10, &output),
        other => panic!("not a zalgo response: {:?}", other),
    }
}

#[test]
fn zalgo_with_a_limit_shares_out_the_room() {
    // Four bytes in a limit of twenty: (20 - 4) / 4 = 4 marks each.
    match zalgo("abcd".to_string(), Some(20)) {
        Response::Zalgo { output } => {
            check_zalgo("abcd", 4, &output);
            assert_eq!(output.chars().count(), 20);
        }
        other => panic!("not a zalgo response: {:?}", other),
    }
}

#[test]
fn zalgo_counts_the_input_in_bytes() {
    // Two characters of two bytes each in a limit of twelve: (12 - 4) / 4 = 2.
    match zalgo("éé".to_string(), Some(12)) {
        Response::Zalgo { output } => check_zalgo("éé", 2, &output),
        other => panic!("not a zalgo response: {:?}", other),
    }
}

#[test]
fn zalgo_never_adds_more_than_ten_marks() {
    match zalgo("a".to_string(), Some(2000)) {
        Response::Zalgo { output } => check_zalgo("a", 10, &output),
        other => panic!("not a zalgo response: {:?}", other),
    }
}

#[test]
fn zalgo_of_nothing_is_nothing() {
    assert_eq!(zalgo(String::new(), Some(10)), Response::Zalgo { output: String::new() });
    assert_eq!(zalgo(String::new(), None), Response::Zalgo { output: String::new() });
}

#[test]
fn zalgo_of_an_input_over_the_limit_adds_nothing() {
    assert_eq!(
        zalgo("too long".to_string(), Some(3)),
        Response::Zalgo { output: "too long".to_string() }
    );
    assert_eq!(zalgo("full".to_string(), Some(4)), Response::Zalgo { output: "full".to_string() });
}

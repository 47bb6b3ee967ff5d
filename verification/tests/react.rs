use hatysa::command::react::{react, to_reaction, to_reactions};
use hatysa::command::{CommandError, Response};

#[test]
fn react_gives_a_token_for_each_character() {
    let response = react("A1".to_string()).unwrap();
    let reactions = match response {
        Response::React { reactions } => reactions,
        other => panic!("not a react response: {:?}", other),
    };
    assert_eq!(reactions.len(), 2);
    assert_eq!(reactions[0], "\u{1f1e6}");
    let keycap: Vec<char> = reactions[1].chars().collect();
    assert_eq!(keycap, vec!['1', '\u{fe0f}', '\u{20e3}']);
}

#[test]
fn react_refuses_what_is_not_alphanumeric() {
    assert_eq!(
        react("a-b".to_string()),
        Err(CommandError::NonAlphanumeric { original: "a-b".to_string() })
    );
    assert_eq!(
        react("a b".to_string()),
        Err(CommandError::NonAlphanumeric { original: "a b".to_string() })
    );
}

#[test]
fn react_refuses_a_repetition() {
    assert_eq!(
        react("aab".to_string()),
        Err(CommandError::Repetition { original: "aab".to_string() })
    );
}

#[test]
fn react_sets_case_aside_for_repetitions() {
    assert_eq!(
        react("abA".to_string()),
        Err(CommandError::Repetition { original: "abA".to_string() })
    );
}

#[test]
fn react_finds_the_foreign_character_before_the_repetition() {
    assert_eq!(
        react("aa!".to_string()),
        Err(CommandError::NonAlphanumeric { original: "aa!".to_string() })
    );
}

#[test]
fn react_of_nothing_is_no_reactions() {
    assert_eq!(react(String::new()), Ok(Response::React { reactions: vec![] }));
}

#[test]
fn reactions_of_letters_are_regional_indicators() {
    assert_eq!(to_reaction('a'), "\u{1f1e6}");
    assert_eq!(to_reaction('A'), "\u{1f1e6}");
    assert_eq!(to_reaction('z'), "\u{1f1ff}");
    assert_eq!(to_reaction('Z'), "\u{1f1ff}");
}

#[test]
fn reactions_of_digits_are_keycaps() {
    assert_eq!(to_reaction('0'), "0\u{fe0f}\u{20e3}");
    assert_eq!(to_reaction('9'), "9\u{fe0f}\u{20e3}");
}

#[test]
fn reactions_of_other_characters_are_themselves() {
    assert_eq!(to_reaction('é'), "é");
    assert_eq!(to_reactions("o0f"), vec!["\u{1f1f4}", "0\u{fe0f}\u{20e3}", "\u{1f1eb}"]);
}

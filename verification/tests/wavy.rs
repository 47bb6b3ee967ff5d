use hatysa::command::wavy::{vape, vapify, wave, wavify, wavy};
use hatysa::command::Response;

#[test]
fn wavy_moves_printable_ascii_by_the_offset() {
    for code in 0x21u32..=0x7e {
        let c = char::from_u32(code).unwrap();
        assert_eq!(wave(c) as u32 - 0xfee0, code);
    }
}

#[test]
fn wavy_space_is_the_ideographic_space() {
    assert_eq!(wave(' '), '\u{3000}');
}

#[test]
fn wavy_leaves_other_characters_alone() {
    assert_eq!(wave('é'), 'é');
    assert_eq!(wave('\u{7f}'), '\u{7f}');
    assert_eq!(wave('\n'), '\n');
    assert_eq!(wave('👏'), '👏');
    assert_eq!(wave('\u{ff21}'), '\u{ff21}');
}

#[test]
fn wavify_converts_each_character() {
    assert_eq!(wavify("Hi there!".to_string()), Ok("Ｈｉ\u{3000}ｔｈｅｒｅ！".to_string()));
    assert_eq!(wavify(String::new()), Ok(String::new()));
}

#[test]
fn vapify_is_wavify() {
    assert_eq!(vapify("a~ ü".to_string()), Ok("ａ～\u{3000}ü".to_string()));
}

#[test]
fn wavy_response_holds_the_output() {
    assert_eq!(wavy("ab".to_string()), Ok(Response::Wavy { output: "ａｂ".to_string() }));
    assert_eq!(vape("ab".to_string()), Ok(Response::Wavy { output: "ａｂ".to_string() }));
}

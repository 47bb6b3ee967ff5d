use hatysa::command::karma::{
    answer, dec, get, inc, listing, top, Karma, StoreReply, StoreRequest,
};
use hatysa::command::{CommandError, Response};

fn failure() -> CommandError {
    CommandError::Internal("the karma store did not answer the request".to_string())
}

fn entry(subject: &str, karma: u32) -> Karma {
    Karma { subject: subject.to_string(), karma }
}

#[test]
fn get_reads_the_count() {
    assert_eq!(
        get("rust".to_string(), StoreReply::Count(7)),
        Ok(Response::Karma { subject: "rust".to_string(), karma: 7 })
    );
}

#[test]
fn get_fails_on_any_other_answer() {
    assert_eq!(get("rust".to_string(), StoreReply::Failed), Err(failure()));
    assert_eq!(get("rust".to_string(), StoreReply::Done), Err(failure()));
    assert_eq!(get("rust".to_string(), StoreReply::Top(vec![])), Err(failure()));
}

#[test]
fn top_reads_the_list() {
    assert_eq!(
        top(StoreReply::Top(vec![entry("a", 3), entry("b", 1)])),
        Ok(Response::KarmaTop { top: vec![entry("a", 3), entry("b", 1)] })
    );
    assert_eq!(top(StoreReply::Count(1)), Err(failure()));
    assert_eq!(top(StoreReply::Failed), Err(failure()));
}

#[test]
fn inc_and_dec_want_the_change_done() {
    assert_eq!(inc("a".to_string(), StoreReply::Done), Ok(Response::KarmaIncrement));
    assert_eq!(dec("a".to_string(), StoreReply::Done), Ok(Response::KarmaDecrement));
    assert_eq!(inc("a".to_string(), StoreReply::Failed), Err(failure()));
    assert_eq!(dec("a".to_string(), StoreReply::Count(0)), Err(failure()));
}

#[test]
fn answer_goes_by_the_question() {
    assert_eq!(
        answer(StoreRequest::Get { subject: "x".to_string() }, StoreReply::Count(2)),
        Ok(Response::Karma { subject: "x".to_string(), karma: 2 })
    );
    assert_eq!(
        answer(StoreRequest::Top { limit: 10 }, StoreReply::Top(vec![entry("x", 2)])),
        Ok(Response::KarmaTop { top: vec![entry("x", 2)] })
    );
    assert_eq!(
        answer(StoreRequest::Increment { subject: "x".to_string() }, StoreReply::Done),
        Ok(Response::KarmaIncrement)
    );
    assert_eq!(
        answer(StoreRequest::Decrement { subject: "x".to_string() }, StoreReply::Done),
        Ok(Response::KarmaDecrement)
    );
    assert_eq!(
        answer(StoreRequest::Decrement { subject: "x".to_string() }, StoreReply::Failed),
        Err(failure())
    );
    assert_eq!(
        answer(StoreRequest::Top { limit: 10 }, StoreReply::Done),
        Err(failure())
    );
}

#[test]
fn listing_writes_a_line_for_each_entry() {
    assert_eq!(listing(&vec![]), "");
    assert_eq!(listing(&vec![entry("rust", 12)]), "rust: 12");
    assert_eq!(
        listing(&vec![entry("rust", 12), entry("c", 0), entry("go", 4_294_967_295)]),
        "rust: 12\nc: 0\ngo: 4294967295"
    );
}

//! Message text, put together with serenity's `MessageBuilder`.
//!
//! The builder gathers text piece by piece. What it has gathered is known
//! here as [`built`]; each operation is taken to add to it what serenity's
//! source shows it to add.

use crate::text::{decimal_nat, Text};
use serenity::utils::MessageBuilder;
use vstd::prelude::*;

verus! {

/// serenity's `MessageBuilder`, a buffer of message text.
#[verifier::external_type_specification]
#[verifier::external_body]
pub struct ExMessageBuilder(MessageBuilder);

/// The text that a builder has gathered so far.
pub uninterp spec fn built(builder: MessageBuilder) -> Text;

/// The mention of a user: the user's id in decimal between `<@` and `>`.
pub open spec fn user_mention(user_id: u64) -> Text {
    seq!['<', '@'] + decimal_nat(user_id as nat) + seq!['>']
}

/// A text in bold: the text between two pairs of asterisks.
pub open spec fn bold(content: Text) -> Text {
    seq!['*', '*'] + content + seq!['*', '*']
}

/// `MessageBuilder::new` gives a builder that has gathered nothing.
#[verifier::external_body]
pub(crate) fn builder_new() -> (builder: MessageBuilder)
    ensures
        built(builder) == Seq::<char>::empty(),
{
    MessageBuilder::new()
}

/// `MessageBuilder::push` adds the content as it stands.
#[verifier::external_body]
pub(crate) fn builder_push(builder: &mut MessageBuilder, content: &str)
    ensures
        built(*final(builder)) == built(*old(builder)) + content@,
{
    builder.push(content);
}

/// `MessageBuilder::push_bold` adds the content between two pairs of
/// asterisks, and does nothing else to it.
#[verifier::external_body]
pub(crate) fn builder_push_bold(builder: &mut MessageBuilder, content: &str)
    ensures
        built(*final(builder)) == built(*old(builder)) + bold(content@),
{
    builder.push_bold(content);
}

/// `MessageBuilder::mention`, given a user's id, adds the mention of that
/// user: `<@`, the id in decimal, and `>`.
#[verifier::external_body]
pub(crate) fn builder_mention_user(builder: &mut MessageBuilder, user_id: u64)
    ensures
        built(*final(builder)) == built(*old(builder)) + user_mention(user_id),
{
    builder.mention(&serenity::model::id::UserId(user_id));
}

/// `MessageBuilder::build` hands out a copy of what has been gathered and
/// leaves the builder as it was.
#[verifier::external_body]
pub(crate) fn builder_build(builder: &mut MessageBuilder) -> (text: String)
    ensures
        text@ == built(*old(builder)),
        built(*final(builder)) == built(*old(builder)),
{
    builder.build()
}

/// The message that hands a converted URL to the user who asked for it:
/// the user's mention, a colon and a space, and the URL in angle brackets.
pub open spec fn link_text(author_id: u64, url: Text) -> Text {
    user_mention(author_id) + seq![':', ' ', '<'] + url + seq!['>']
}

/// The message that hands a converted URL to the user who asked for it.
pub fn link_message(author_id: u64, url: &str) -> (text: String)
    ensures
        text@ == link_text(author_id, url@),
{
    let mut builder = builder_new();
    builder_mention_user(&mut builder, author_id);
    builder_push(&mut builder, ": <");
    builder_push(&mut builder, url);
    builder_push(&mut builder, ">");
    proof {
        reveal_strlit(": <");
        reveal_strlit(">");
        assert(": <"@ =~= seq![':', ' ', '<']);
        assert(">"@ =~= seq!['>']);
        assert(built(builder) =~= link_text(author_id, url@));
    }
    builder_build(&mut builder)
}

} // verus!

//! Rich messages: what an embed holds, and the two embeds the bot sends.

use crate::command::{CommandError, CommandErrorView};
use crate::markup::{bold, builder_build, builder_new, builder_push, builder_push_bold, built};
use crate::text::{decimal, push_signed_decimal, uppercase, Text};
use vstd::prelude::*;

verus! {

/// The name the bot signs its embeds with.
pub const BOT_NAME: &'static str = "Hatysa";

/// Where the author line of the info embed leads.
pub const PROJECT_URL: &'static str = "https://sr.ht/~nerosnm/hatysa";

/// Where the author line of an error report leads.
pub const TRACKER_URL: &'static str = "https://todo.sr.ht/~nerosnm/hatysa";

/// The accent colour of the bot's embeds, as red, green and blue.
pub const ACCENT: (u8, u8, u8) = (244, 234, 62);

/// The footer of an error report.
pub const REPORT_FOOTER: &'static str = "Click OK within 5 mins to delete.";

/// The names of the fields of the info embed, and of the field of an error
/// report.
pub const VERSION_FIELD: &'static str = "Version";

pub const UPTIME_FIELD: &'static str = "Uptime";

pub const HOMEPAGE_FIELD: &'static str = "Homepage";

pub const ERROR_FIELD: &'static str = "Error";

/// The parts of the sentences that tell a user of an error.
pub const STRING_HEAD: &'static str = "String ";

pub const NON_ALPHANUMERIC_TAIL: &'static str = " contains non-alphanumeric characters!";

pub const REPETITION_TAIL: &'static str = " contains repeated characters!";

pub const INVALID_URL_SENTENCE: &'static str = "Invalid URL!";

pub const REQUEST_SENTENCE: &'static str = "Failed to complete request. Please try again.";

pub const INTERNAL_SENTENCE: &'static str = "An internal error occurred. Please try again later.";

/// The author line of an embed.
#[derive(Debug, PartialEq, Eq)]
pub struct EmbedAuthor {
    /// The name shown.
    pub name: String,
    /// Where the name leads.
    pub url: String,
    /// The picture beside the name, if there is one.
    pub icon_url: Option<String>,
}

/// A named field of an embed.
#[derive(Debug, PartialEq, Eq)]
pub struct EmbedField {
    /// The name of the field.
    pub name: String,
    /// What the field holds.
    pub value: String,
    /// Whether the field may share its row with others.
    pub inline: bool,
}

/// A rich message.
#[derive(Debug, PartialEq, Eq)]
pub struct Embed {
    /// The author line.
    pub author: EmbedAuthor,
    /// The fields, in the order in which they are shown.
    pub fields: Vec<EmbedField>,
    /// The footer, if there is one.
    pub footer: Option<String>,
    /// The accent colour, as red, green and blue.
    pub colour: (u8, u8, u8),
}

/// The characters of a string that may be missing.
pub open spec fn optional_text(text: Option<String>) -> Option<Text> {
    match text {
        Some(text) => Some(text@),
        None => None,
    }
}

/// What an [`EmbedField`] holds, with each string as its characters.
pub struct EmbedFieldView {
    pub name: Text,
    pub value: Text,
    pub inline: bool,
}

impl View for EmbedField {
    type V = EmbedFieldView;

    open spec fn view(&self) -> EmbedFieldView {
        EmbedFieldView { name: self.name@, value: self.value@, inline: self.inline }
    }
}

/// What an [`Embed`] holds, with each string as its characters.
pub struct EmbedView {
    pub author_name: Text,
    pub author_url: Text,
    pub author_icon: Option<Text>,
    pub fields: Seq<EmbedFieldView>,
    pub footer: Option<Text>,
    pub colour: (u8, u8, u8),
}

impl View for Embed {
    type V = EmbedView;

    open spec fn view(&self) -> EmbedView {
        EmbedView {
            author_name: self.author.name@,
            author_url: self.author.url@,
            author_icon: optional_text(self.author.icon_url),
            fields: Seq::new(self.fields@.len(), |i: int| self.fields@[i]@),
            footer: optional_text(self.footer),
            colour: self.colour,
        }
    }
}

/// An uptime written out: each part in decimal with its unit after it, as in
/// `1d 2h 3m 4s`.
pub open spec fn uptime_text(uptime: (i64, i64, i64, i64)) -> Text {
    decimal(uptime.0 as int) + seq!['d', ' '] + decimal(uptime.1 as int) + seq!['h', ' ']
        + decimal(uptime.2 as int) + seq!['m', ' '] + decimal(uptime.3 as int) + seq!['s']
}

/// The embed that answers the info command: the bot's name with its
/// picture, where it has one, and the version, the uptime and the homepage
/// as fields, the first two side by side.
pub open spec fn info_embed(
    version: Text,
    uptime: (i64, i64, i64, i64),
    homepage: Text,
    avatar: Option<Text>,
) -> EmbedView {
    EmbedView {
        author_name: BOT_NAME@,
        author_url: PROJECT_URL@,
        author_icon: avatar,
        fields: seq![
            EmbedFieldView { name: VERSION_FIELD@, value: version, inline: true },
            EmbedFieldView { name: UPTIME_FIELD@, value: uptime_text(uptime), inline: true },
            EmbedFieldView { name: HOMEPAGE_FIELD@, value: homepage, inline: false },
        ],
        footer: None,
        colour: ACCENT,
    }
}

/// The sentence that tells a user of an error. Each kind of error has one
/// sentence. The two that speak of the user's own input show it in upper
/// case and bold; the others show nothing of what went wrong inside.
pub open spec fn friendly_text(error: CommandErrorView) -> Text {
    match error {
        CommandErrorView::NonAlphanumeric { original } => STRING_HEAD@ + bold(uppercase(original))
            + NON_ALPHANUMERIC_TAIL@,
        CommandErrorView::Repetition { original } => STRING_HEAD@ + bold(uppercase(original))
            + REPETITION_TAIL@,
        CommandErrorView::InvalidUrl => INVALID_URL_SENTENCE@,
        CommandErrorView::Request => REQUEST_SENTENCE@,
        CommandErrorView::Internal(_) => INTERNAL_SENTENCE@,
    }
}

/// The embed that reports an error to the user: the bot's name with its
/// picture, where it has one, the sentence for the error as the one field,
/// and a footer that says how to dismiss the report.
pub open spec fn report_embed(error: CommandErrorView, avatar: Option<Text>) -> EmbedView {
    EmbedView {
        author_name: BOT_NAME@,
        author_url: TRACKER_URL@,
        author_icon: avatar,
        fields: seq![EmbedFieldView { name: ERROR_FIELD@, value: friendly_text(error), inline: false }],
        footer: Some(REPORT_FOOTER@),
        colour: ACCENT,
    }
}

/// An uptime written out.
pub fn format_uptime(uptime: (i64, i64, i64, i64)) -> (text: String)
    ensures
        text@ == uptime_text(uptime),
{
    let mut text = String::new();
    push_signed_decimal(&mut text, uptime.0);
    text.push('d');
    text.push(' ');
    push_signed_decimal(&mut text, uptime.1);
    text.push('h');
    text.push(' ');
    push_signed_decimal(&mut text, uptime.2);
    text.push('m');
    text.push(' ');
    push_signed_decimal(&mut text, uptime.3);
    text.push('s');
    assert(text@ =~= uptime_text(uptime));
    text
}

/// The embed that answers the info command.
pub fn make_info_embed(
    version: String,
    uptime: (i64, i64, i64, i64),
    homepage: String,
    avatar: Option<String>,
) -> (embed: Embed)
    ensures
        embed@ == info_embed(version@, uptime, homepage@, optional_text(avatar)),
{
    let mut fields: Vec<EmbedField> = Vec::new();
    fields.push(EmbedField { name: VERSION_FIELD.to_string(), value: version, inline: true });
    fields.push(
        EmbedField { name: UPTIME_FIELD.to_string(), value: format_uptime(uptime), inline: true },
    );
    fields.push(EmbedField { name: HOMEPAGE_FIELD.to_string(), value: homepage, inline: false });
    let embed = Embed {
        author: EmbedAuthor {
            name: BOT_NAME.to_string(),
            url: PROJECT_URL.to_string(),
            icon_url: avatar,
        },
        fields,
        footer: None,
        colour: ACCENT,
    };
    assert(embed@.fields =~= info_embed(
        version@,
        uptime,
        homepage@,
        optional_text(avatar),
    ).fields);
    embed
}

/// The sentence that speaks of the user's own input: between `STRING_HEAD`
/// and `tail`, the input in upper case and bold.
fn input_sentence(original: &String, tail: &str) -> (text: String)
    ensures
        text@ == STRING_HEAD@ + bold(uppercase(original@)) + tail@,
{
    let shouted = original.as_str().to_uppercase();
    let mut builder = builder_new();
    builder_push(&mut builder, STRING_HEAD);
    builder_push_bold(&mut builder, shouted.as_str());
    builder_push(&mut builder, tail);
    assert(built(builder) =~= STRING_HEAD@ + bold(uppercase(original@)) + tail@);
    builder_build(&mut builder)
}

/// A sentence that stands as it is.
fn plain_sentence(sentence: &str) -> (text: String)
    ensures
        text@ == sentence@,
{
    let mut builder = builder_new();
    builder_push(&mut builder, sentence);
    assert(built(builder) =~= sentence@);
    builder_build(&mut builder)
}

/// The sentence that tells a user of an error.
pub fn user_friendly_message(error: &CommandError) -> (text: String)
    ensures
        text@ == friendly_text(error@),
{
    match error {
        CommandError::NonAlphanumeric { original } => input_sentence(
            original,
            NON_ALPHANUMERIC_TAIL,
        ),
        CommandError::Repetition { original } => input_sentence(original, REPETITION_TAIL),
        CommandError::InvalidUrl => plain_sentence(INVALID_URL_SENTENCE),
        CommandError::Request => plain_sentence(REQUEST_SENTENCE),
        CommandError::Internal(_) => plain_sentence(INTERNAL_SENTENCE),
    }
}

/// The embed that reports an error to the user.
pub fn make_report_embed(error: &CommandError, avatar: Option<String>) -> (embed: Embed)
    ensures
        embed@ == report_embed(error@, optional_text(avatar)),
{
    let mut fields: Vec<EmbedField> = Vec::new();
    fields.push(
        EmbedField {
            name: ERROR_FIELD.to_string(),
            value: user_friendly_message(error),
            inline: false,
        },
    );
    let embed = Embed {
        author: EmbedAuthor {
            name: BOT_NAME.to_string(),
            url: TRACKER_URL.to_string(),
            icon_url: avatar,
        },
        fields,
        footer: Some(REPORT_FOOTER.to_string()),
        colour: ACCENT,
    };
    assert(embed@.fields =~= report_embed(error@, optional_text(avatar)).fields);
    embed
}

} // verus!

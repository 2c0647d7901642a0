//! Embeds: the titled, coloured panels the bot answers with.

use vstd::prelude::*;
use crate::emojis::{Emoji, emoji_markup, use_emoji};
use crate::text::{lowercase, to_lowercase};

verus! {

/// The colour strip of an embed: the named colours of Discord's palette that
/// the bot uses, or any other RGB value.
#[derive(PartialEq, Eq, Structural, Clone, Copy, Debug)]
pub enum Colour {
    DarkGreen,
    Orange,
    DarkRed,
    Blurple,
    RohrkatzeBlue,
    Rgb(u32),
}

/// A named field of an embed.
#[derive(Clone, Debug)]
pub struct EmbedField {
    pub name: String,
    pub value: String,
    pub inline: bool,
}

/// An embed: title, description, colour and the fields below them.
#[derive(Clone, Debug)]
pub struct Embed {
    pub title: String,
    pub description: String,
    pub colour: Colour,
    pub fields: Vec<EmbedField>,
}

/// The content of an embed field.
pub struct FieldView {
    pub name: Seq<char>,
    pub value: Seq<char>,
    pub inline: bool,
}

/// The content of an embed.
pub struct EmbedView {
    pub title: Seq<char>,
    pub description: Seq<char>,
    pub colour: Colour,
    pub fields: Seq<FieldView>,
}

impl View for EmbedField {
    type V = FieldView;

    open spec fn view(&self) -> FieldView {
        FieldView { name: self.name@, value: self.value@, inline: self.inline }
    }
}

impl View for Embed {
    type V = EmbedView;

    open spec fn view(&self) -> EmbedView {
        EmbedView {
            title: self.title@,
            description: self.description@,
            colour: self.colour,
            fields: self.fields@.map_values(|f: EmbedField| f@),
        }
    }
}

/// A field with the given content.
pub open spec fn field_of(name: Seq<char>, value: Seq<char>, inline: bool) -> FieldView {
    FieldView { name, value, inline }
}

/// The embed with one more field at the end.
pub open spec fn with_field(e: EmbedView, name: Seq<char>, value: Seq<char>, inline: bool) -> EmbedView {
    EmbedView { fields: e.fields.push(field_of(name, value, inline)), ..e }
}

/// The separator between an emoji and the text after it (a figure space).
pub open spec fn figure_space() -> Seq<char> {
    "\u{2007}"@
}

/// An embed whose description starts with an emoji, and that has no fields.
pub open spec fn emoji_view(title: Seq<char>, description: Seq<char>, emoji: Emoji, colour: Colour) -> EmbedView {
    EmbedView {
        title,
        description: emoji_markup(emoji) + figure_space() + description,
        colour,
        fields: Seq::empty(),
    }
}

pub open spec fn success_view(title: Seq<char>, description: Seq<char>) -> EmbedView {
    emoji_view(title, description, Emoji::Check, Colour::DarkGreen)
}

pub open spec fn warn_view(title: Seq<char>, description: Seq<char>) -> EmbedView {
    emoji_view(title, description, Emoji::Warn, Colour::Orange)
}

pub open spec fn error_view(title: Seq<char>, description: Seq<char>) -> EmbedView {
    emoji_view(title, description, Emoji::Error, Colour::DarkRed)
}

pub open spec fn info_view(title: Seq<char>, description: Seq<char>) -> EmbedView {
    emoji_view(title, description, Emoji::Info, Colour::Blurple)
}

/// The embed telling that an item was not found; `lowered` is the item in lower case.
pub open spec fn not_found_view(item: Seq<char>, lowered: Seq<char>, query: Option<Seq<char>>) -> EmbedView {
    error_view(
        item + " Not Found"@,
        match query {
            Some(q) => "The "@ + lowered + " \u{2192} `"@ + q + "` was not found"@,
            None => "The "@ + item + " was not found."@,
        },
    )
}

/// The embed shown for an unexpected error, with its raw text.
pub open spec fn user_error_view(raw: Seq<char>) -> EmbedView {
    with_field(
        with_field(
            error_view("Error"@, "An unexpected error occured while executing the command."@),
            "Raw Error"@,
            raw,
            false,
        ),
        "Error Code"@,
        "The provided error code can be given to the support team.\n```todo```"@,
        false,
    )
}

impl Embed {
    /// Adds a field at the end.
    pub fn field(self, name: &str, value: &str, inline: bool) -> (r: Embed)
        ensures
            r@ == with_field(self@, name@, value@, inline),
    {
        let mut e = self;
        let f = EmbedField { name: name.to_owned(), value: value.to_owned(), inline };
        e.fields.push(f);
        proof {
            assert(e@.fields =~= self@.fields.push(field_of(name@, value@, inline)));
        }
        e
    }
}

/// An embed with a title, and a description that starts with `emoji`.
pub fn emoji(title: &str, description: &str, icon: Emoji, colour: Colour) -> (e: Embed)
    ensures
        e@ == emoji_view(title@, description@, icon, colour),
{
    let mut d = use_emoji(icon);
    d.append("\u{2007}");
    d.append(description);
    let e = Embed { title: title.to_owned(), description: d, colour, fields: Vec::new() };
    assert(e@.fields =~= Seq::<FieldView>::empty());
    e
}

/// A green embed with a check mark.
pub fn success(title: &str, description: &str) -> (e: Embed)
    ensures
        e@ == success_view(title@, description@),
{
    self::emoji(title, description, Emoji::Check, Colour::DarkGreen)
}

/// An orange embed with a warning sign.
pub fn warn(title: &str, description: &str) -> (e: Embed)
    ensures
        e@ == warn_view(title@, description@),
{
    self::emoji(title, description, Emoji::Warn, Colour::Orange)
}

/// A red embed with an error sign.
pub fn error(title: &str, description: &str) -> (e: Embed)
    ensures
        e@ == error_view(title@, description@),
{
    self::emoji(title, description, Emoji::Error, Colour::DarkRed)
}

/// A blurple embed with an information sign.
pub fn info(title: &str, description: &str) -> (e: Embed)
    ensures
        e@ == info_view(title@, description@),
{
    self::emoji(title, description, Emoji::Info, Colour::Blurple)
}

/// Tells the user to verify first.
pub fn not_verified() -> (e: Embed)
    ensures
        e@ == error_view(""@, "You are not verified. Run </verify:> to continue."@),
{
    self::error("", "You are not verified. Run </verify:> to continue.")
}

/// Tells the user that a prompt timed out.
pub fn timeout() -> (e: Embed)
    ensures
        e@ == warn_view(""@, "This prompt has timed out due to inactivity."@),
{
    self::warn("", "This prompt has timed out due to inactivity.")
}

/// Tells the user that the operation was cancelled.
pub fn cancelled() -> (e: Embed)
    ensures
        e@ == warn_view(""@, "You cancelled the operation."@),
{
    self::warn("", "You cancelled the operation.")
}

/// The not-found embed, given the item already in lower case.
pub fn not_found_with(item: &str, lowered: &str, query: Option<&str>) -> (e: Embed)
    ensures
        e@ == not_found_view(item@, lowered@, match query { Some(q) => Some(q@), None => None }),
{
    let mut title = item.to_owned();
    title.append(" Not Found");
    let mut d = String::new();
    match query {
        Some(q) => {
            d.append("The ");
            d.append(lowered);
            d.append(" \u{2192} `");
            d.append(q);
            d.append("` was not found");
        },
        None => {
            d.append("The ");
            d.append(item);
            d.append(" was not found.");
        },
    }
    self::error(title.as_str(), d.as_str())
}

/// Tells the user that an item (searched for by `query`, if given) was not found.
pub fn not_found(item: &str, query: Option<&str>) -> (e: Embed)
    ensures
        e@ == not_found_view(item@, lowercase(item@), match query { Some(q) => Some(q@), None => None }),
{
    match query {
        Some(_) => {
            let lowered = to_lowercase(item);
            not_found_with(item, lowered.as_str(), query)
        },
        None => not_found_with(item, item, query),
    }
}

/// The embed for an unexpected error, showing its raw text.
pub fn user_error(raw_error: String) -> (e: Embed)
    ensures
        e@ == user_error_view(raw_error@),
{
    self::error("Error", "An unexpected error occured while executing the command.")
        .field("Raw Error", raw_error.as_str(), false)
        .field(
            "Error Code",
            "The provided error code can be given to the support team.\n```todo```",
            false,
        )
}


/// The four preset kinds keep the title and the text they are given, put
/// their own emoji and a figure space before the text, carry no fields, and
/// each has its own colour: success dark green, warning orange, error dark
/// red, information blurple. A field added later goes at the end with the
/// given name and value, leaving the rest of the embed as it was.
pub proof fn lemma_presets_keep_their_text(title: Seq<char>, text: Seq<char>, e: EmbedView, name: Seq<char>, value: Seq<char>, inline: bool)
    ensures
        success_view(title, text).title == title && success_view(title, text).colour == Colour::DarkGreen
            && success_view(title, text).description == emoji_markup(Emoji::Check) + "\u{2007}"@ + text
            && success_view(title, text).fields.len() == 0,
        warn_view(title, text).title == title && warn_view(title, text).colour == Colour::Orange
            && warn_view(title, text).description == emoji_markup(Emoji::Warn) + "\u{2007}"@ + text
            && warn_view(title, text).fields.len() == 0,
        error_view(title, text).title == title && error_view(title, text).colour == Colour::DarkRed
            && error_view(title, text).description == emoji_markup(Emoji::Error) + "\u{2007}"@ + text
            && error_view(title, text).fields.len() == 0,
        info_view(title, text).title == title && info_view(title, text).colour == Colour::Blurple
            && info_view(title, text).description == emoji_markup(Emoji::Info) + "\u{2007}"@ + text
            && info_view(title, text).fields.len() == 0,
        with_field(e, name, value, inline).fields.len() == e.fields.len() + 1,
        with_field(e, name, value, inline).fields.last().name == name,
        with_field(e, name, value, inline).fields.last().value == value,
        with_field(e, name, value, inline).fields.last().inline == inline,
        with_field(e, name, value, inline).fields.drop_last() == e.fields,
        with_field(e, name, value, inline).title == e.title,
        with_field(e, name, value, inline).description == e.description,
        with_field(e, name, value, inline).colour == e.colour,
{
    assert(with_field(e, name, value, inline).fields.drop_last() =~= e.fields);
}

} // verus!

//! The custom server emojis that decorate embeds.

use vstd::prelude::*;

verus! {

/// The emojis the bot knows.
#[derive(PartialEq, Eq, Structural, Clone, Copy, Debug, Hash)]
pub enum Emoji {
    Check,
    Error,
    Warn,
    Dash,
    Info,
    Tick,
    Cross,
}

/// The Discord markup that renders an emoji.
pub open spec fn emoji_markup(emoji: Emoji) -> Seq<char> {
    match emoji {
        Emoji::Check => "<:Check:867931890437476353>"@,
        Emoji::Error => "<:Error:868113159737720912>"@,
        Emoji::Warn => "<:Warn:868113114221121586>"@,
        Emoji::Info => "<:Info:1053145199167164479>"@,
        Emoji::Dash => "<:greendash:903084370066300928>"@,
        Emoji::Tick => "<:Tick:868113233981100123>"@,
        Emoji::Cross => "<:X_:868113200934174801>"@,
    }
}

/// The markup of `emoji`, ready to be placed in a message.
pub fn use_emoji(emoji: Emoji) -> (s: String)
    ensures
        s@ == emoji_markup(emoji),
{
    let markup: &str = match emoji {
        Emoji::Check => "<:Check:867931890437476353>",
        Emoji::Error => "<:Error:868113159737720912>",
        Emoji::Warn => "<:Warn:868113114221121586>",
        Emoji::Info => "<:Info:1053145199167164479>",
        Emoji::Dash => "<:greendash:903084370066300928>",
        Emoji::Tick => "<:Tick:868113233981100123>",
        Emoji::Cross => "<:X_:868113200934174801>",
    };
    markup.to_owned()
}

} // verus!

//! `/verify`: links the caller's Discord account to a Roblox account by a
//! phrase that the caller places in their Roblox profile.

use vstd::prelude::*;
use fake::Fake;
use crate::components::{
    self, ActionRow, ActionRowView, Button, ButtonStyle, ButtonView, button_view, link_view,
};
use crate::embeds::{
    self, Colour, EmbedView, emoji_view, error_view, info_view, success_view, warn_view, with_field,
};
use crate::emojis::Emoji;
use crate::error::{CmdError, CmdErrorView};
use crate::flow::{
    new_message_is_ephemeral, shows_error,
    Click, ClickView, ClickWait, ClickWaitView, Reply, ReplyView, RobloxUser, RobloxUserView, Target,
    click_wait, opt_user_view, wait_for_click,
};
use crate::helper::{
    Message, MessageView, add_embed, empty_message, response_base, set_components, set_ephemeral,
    update_base,
};
use crate::text::{
    contains, ends_with, i64_text, int_text, join, joined, seq_contains, seq_ends_with,
};

verus! {

/// The English lorem word list of the `fake` crate, in its order (words that
/// the list repeats are repeated here too).
pub open spec fn lorem_word_list() -> Seq<Seq<char>> {
    seq![
        "alias"@, "consequatur"@, "aut"@, "perferendis"@, "sit"@, "voluptatem"@, "accusantium"@,
        "doloremque"@, "aperiam"@, "eaque"@, "ipsa"@, "quae"@, "ab"@, "illo"@, "inventore"@,
        "veritatis"@, "et"@, "quasi"@, "architecto"@, "beatae"@, "vitae"@, "dicta"@, "sunt"@,
        "explicabo"@, "aspernatur"@, "aut"@, "odit"@, "aut"@, "fugit"@, "sed"@, "quia"@,
        "consequuntur"@, "magni"@, "dolores"@, "eos"@, "qui"@, "ratione"@, "voluptatem"@, "sequi"@,
        "nesciunt"@, "neque"@, "dolorem"@, "ipsum"@, "quia"@, "dolor"@, "sit"@, "amet"@,
        "consectetur"@, "adipisci"@, "velit"@, "sed"@, "quia"@, "non"@, "numquam"@, "eius"@,
        "modi"@, "tempora"@, "incidunt"@, "ut"@, "labore"@, "et"@, "dolore"@, "magnam"@,
        "aliquam"@, "quaerat"@, "voluptatem"@, "ut"@, "enim"@, "ad"@, "minima"@, "veniam"@,
        "quis"@, "nostrum"@, "exercitationem"@, "ullam"@, "corporis"@, "nemo"@, "enim"@, "ipsam"@,
        "voluptatem"@, "quia"@, "voluptas"@, "sit"@, "suscipit"@, "laboriosam"@, "nisi"@, "ut"@,
        "aliquid"@, "ex"@, "ea"@, "commodi"@, "consequatur"@, "quis"@, "autem"@, "vel"@, "eum"@,
        "iure"@, "reprehenderit"@, "qui"@, "in"@, "ea"@, "voluptate"@, "velit"@, "esse"@, "quam"@,
        "nihil"@, "molestiae"@, "et"@, "iusto"@, "odio"@, "dignissimos"@, "ducimus"@, "qui"@,
        "blanditiis"@, "praesentium"@, "laudantium"@, "totam"@, "rem"@, "voluptatum"@, "deleniti"@,
        "atque"@, "corrupti"@, "quos"@, "dolores"@, "et"@, "quas"@, "molestias"@, "excepturi"@,
        "sint"@, "occaecati"@, "cupiditate"@, "non"@, "provident"@, "sed"@, "ut"@, "perspiciatis"@,
        "unde"@, "omnis"@, "iste"@, "natus"@, "error"@, "similique"@, "sunt"@, "in"@, "culpa"@,
        "qui"@, "officia"@, "deserunt"@, "mollitia"@, "animi"@, "id"@, "est"@, "laborum"@, "et"@,
        "dolorum"@, "fuga"@, "et"@, "harum"@, "quidem"@, "rerum"@, "facilis"@, "est"@, "et"@,
        "expedita"@, "distinctio"@, "nam"@, "libero"@, "tempore"@, "cum"@, "soluta"@, "nobis"@,
        "est"@, "eligendi"@, "optio"@, "cumque"@, "nihil"@, "impedit"@, "quo"@, "porro"@,
        "quisquam"@, "est"@, "qui"@, "minus"@, "id"@, "quod"@, "maxime"@, "placeat"@, "facere"@,
        "possimus"@, "omnis"@, "voluptas"@, "assumenda"@, "est"@, "omnis"@, "dolor"@,
        "repellendus"@, "temporibus"@, "autem"@, "quibusdam"@, "et"@, "aut"@, "consequatur"@,
        "vel"@, "illum"@, "qui"@, "dolorem"@, "eum"@, "fugiat"@, "quo"@, "voluptas"@, "nulla"@,
        "pariatur"@, "at"@, "vero"@, "eos"@, "et"@, "accusamus"@, "officiis"@, "debitis"@, "aut"@,
        "rerum"@, "necessitatibus"@, "saepe"@, "eveniet"@, "ut"@, "et"@, "voluptates"@,
        "repudiandae"@, "sint"@, "et"@, "molestiae"@, "non"@, "recusandae"@, "itaque"@, "earum"@,
        "rerum"@, "hic"@, "tenetur"@, "a"@, "sapiente"@, "delectus"@, "ut"@, "aut"@, "reiciendis"@,
        "voluptatibus"@, "maiores"@, "doloribus"@, "asperiores"@, "repellat"@,
    ]
}

/// A word of the English lorem list that the phrase is drawn from.
pub open spec fn is_lorem_word(w: Seq<char>) -> bool {
    lorem_word_list().contains(w)
}

/// Draws a random word from `fake`'s English lorem word list
/// (`fake::faker::lorem::en::Word`, which picks one entry of that list); which
/// entry comes out is left to chance.
#[verifier::external_body]
fn lorem_word() -> (w: String)
    ensures
        is_lorem_word(w@),
{
    fake::faker::lorem::en::Word().fake::<String>()
}

/// A phrase of three random lorem words separated by single spaces.
pub open spec fn is_phrase(p: Seq<char>) -> bool {
    exists|ws: Seq<Seq<char>>|
        ws.len() == 3 && (forall|i: int| 0 <= i < 3 ==> is_lorem_word(#[trigger] ws[i])) && p == joined(ws, " "@)
}

/// A random verification phrase: three lorem words joined by spaces.
pub fn random_phrase() -> (p: String)
    ensures
        is_phrase(p@),
{
    let mut words: Vec<String> = Vec::new();
    let mut i: usize = 0;
    while i < 3
        invariant
            i <= 3,
            words@.len() == i,
            forall|k: int| 0 <= k < i ==> is_lorem_word(#[trigger] words@[k]@),
        decreases 3 - i,
    {
        let w = lorem_word();
        words.push(w);
        i = i + 1;
    }
    let p = join(&words, " ");
    proof {
        let ws = crate::text::views(words@);
        assert(ws.len() == 3);
        assert(forall|k: int| 0 <= k < 3 ==> is_lorem_word(#[trigger] ws[k]));
    }
    p
}

/// Where `/verify` stands.
#[derive(Debug)]
pub enum VerifyState {
    /// Looking up the Roblox account named in the command.
    LookingUp { username: String, existing: Option<i64> },
    /// Fetching the name of the Roblox account the caller is linked to.
    FetchingName { found: Option<RobloxUser>, existing: i64 },
    /// Showing the "already verified" prompt.
    ShowingReverify { found: Option<RobloxUser> },
    /// Waiting for "Verify Again" or "Cancel".
    AwaitingReverify { found: Option<RobloxUser> },
    /// Showing the verification methods.
    ShowingMethods { found: Option<RobloxUser> },
    /// Waiting for the choice of method.
    AwaitingMethod { found: Option<RobloxUser> },
    /// Drawing the phrase for code verification.
    PickingPhrase { player: RobloxUser },
    /// Showing the phrase.
    ShowingPhrase { player: RobloxUser, phrase: String },
    /// Waiting for "Done" or "Cancel".
    AwaitingConfirm { player: RobloxUser, phrase: String },
    /// Fetching the player's profile description.
    FetchingProfile { player: RobloxUser, phrase: String },
    /// Storing the link between the caller and the player.
    Storing { player: RobloxUser },
    /// Sending a last message; then the command ends, with `Handled` when
    /// that message reported an error.
    Closing { handled: bool },
    /// The command has ended.
    Finished,
}

/// What happened since the last step.
#[derive(Debug)]
pub enum VerifyEvent {
    /// The requested message, wait or write went through.
    Done,
    /// The requested action failed with this error.
    Failed(CmdError),
    /// The Roblox account looked up by name, if it exists.
    UserFound(Option<RobloxUser>),
    /// The name of the linked Roblox account, if it could be fetched.
    NameFetched(Option<String>),
    /// The click waited for, or `None` when the wait timed out.
    Clicked(Option<Click>),
    /// The drawn phrase.
    PhrasePicked(String),
    /// The player's profile description.
    ProfileFetched(String),
}

/// What the bot does next.
#[derive(Debug)]
pub enum VerifyAction {
    FindUser { username: String },
    FetchName { roblox_id: i64 },
    Reply(Reply),
    AwaitClick(ClickWait),
    /// Draw a phrase with `random_phrase`.
    PickPhrase,
    FetchProfile { roblox_id: i64 },
    /// Link the caller's Discord account to this Roblox account.
    StoreLink { roblox_id: i64 },
    /// End the command with this result.
    Finish(Result<(), CmdError>),
}

pub enum VerifyStateView {
    LookingUp { username: Seq<char>, existing: Option<i64> },
    FetchingName { found: Option<RobloxUserView>, existing: i64 },
    ShowingReverify { found: Option<RobloxUserView> },
    AwaitingReverify { found: Option<RobloxUserView> },
    ShowingMethods { found: Option<RobloxUserView> },
    AwaitingMethod { found: Option<RobloxUserView> },
    PickingPhrase { player: RobloxUserView },
    ShowingPhrase { player: RobloxUserView, phrase: Seq<char> },
    AwaitingConfirm { player: RobloxUserView, phrase: Seq<char> },
    FetchingProfile { player: RobloxUserView, phrase: Seq<char> },
    Storing { player: RobloxUserView },
    Closing { handled: bool },
    Finished,
}

pub enum VerifyEventView {
    Done,
    Failed(CmdErrorView),
    UserFound(Option<RobloxUserView>),
    NameFetched(Option<Seq<char>>),
    Clicked(Option<ClickView>),
    PhrasePicked(Seq<char>),
    ProfileFetched(Seq<char>),
}

pub enum VerifyActionView {
    FindUser { username: Seq<char> },
    FetchName { roblox_id: i64 },
    Reply(ReplyView),
    AwaitClick(ClickWaitView),
    PickPhrase,
    FetchProfile { roblox_id: i64 },
    StoreLink { roblox_id: i64 },
    Finish(Result<(), CmdErrorView>),
}

impl View for VerifyState {
    type V = VerifyStateView;

    open spec fn view(&self) -> VerifyStateView {
        match self {
            VerifyState::LookingUp { username, existing } => VerifyStateView::LookingUp { username: username@, existing: *existing },
            VerifyState::FetchingName { found, existing } => VerifyStateView::FetchingName { found: opt_user_view(*found), existing: *existing },
            VerifyState::ShowingReverify { found } => VerifyStateView::ShowingReverify { found: opt_user_view(*found) },
            VerifyState::AwaitingReverify { found } => VerifyStateView::AwaitingReverify { found: opt_user_view(*found) },
            VerifyState::ShowingMethods { found } => VerifyStateView::ShowingMethods { found: opt_user_view(*found) },
            VerifyState::AwaitingMethod { found } => VerifyStateView::AwaitingMethod { found: opt_user_view(*found) },
            VerifyState::PickingPhrase { player } => VerifyStateView::PickingPhrase { player: player@ },
            VerifyState::ShowingPhrase { player, phrase } => VerifyStateView::ShowingPhrase { player: player@, phrase: phrase@ },
            VerifyState::AwaitingConfirm { player, phrase } => VerifyStateView::AwaitingConfirm { player: player@, phrase: phrase@ },
            VerifyState::FetchingProfile { player, phrase } => VerifyStateView::FetchingProfile { player: player@, phrase: phrase@ },
            VerifyState::Storing { player } => VerifyStateView::Storing { player: player@ },
            VerifyState::Closing { handled } => VerifyStateView::Closing { handled: *handled },
            VerifyState::Finished => VerifyStateView::Finished,
        }
    }
}

impl View for VerifyEvent {
    type V = VerifyEventView;

    open spec fn view(&self) -> VerifyEventView {
        match self {
            VerifyEvent::Done => VerifyEventView::Done,
            VerifyEvent::Failed(e) => VerifyEventView::Failed(e@),
            VerifyEvent::UserFound(u) => VerifyEventView::UserFound(opt_user_view(*u)),
            VerifyEvent::NameFetched(n) => VerifyEventView::NameFetched(match n { Some(n) => Some(n@), None => None }),
            VerifyEvent::Clicked(c) => VerifyEventView::Clicked(match c { Some(c) => Some(c@), None => None }),
            VerifyEvent::PhrasePicked(p) => VerifyEventView::PhrasePicked(p@),
            VerifyEvent::ProfileFetched(d) => VerifyEventView::ProfileFetched(d@),
        }
    }
}

impl View for VerifyAction {
    type V = VerifyActionView;

    open spec fn view(&self) -> VerifyActionView {
        match self {
            VerifyAction::FindUser { username } => VerifyActionView::FindUser { username: username@ },
            VerifyAction::FetchName { roblox_id } => VerifyActionView::FetchName { roblox_id: *roblox_id },
            VerifyAction::Reply(r) => VerifyActionView::Reply(r@),
            VerifyAction::AwaitClick(w) => VerifyActionView::AwaitClick(w@),
            VerifyAction::PickPhrase => VerifyActionView::PickPhrase,
            VerifyAction::FetchProfile { roblox_id } => VerifyActionView::FetchProfile { roblox_id: *roblox_id },
            VerifyAction::StoreLink { roblox_id } => VerifyActionView::StoreLink { roblox_id: *roblox_id },
            VerifyAction::Finish(r) => VerifyActionView::Finish(match r { Ok(()) => Ok(()), Err(e) => Err(e@) }),
        }
    }
}

// ---- messages -------------------------------------------------------------

/// The error when the named Roblox account does not exist.
pub open spec fn unknown_user_error(username: Seq<char>) -> CmdErrorView {
    CmdErrorView::Embed(error_view(""@, "The user `"@ + username + "` was not found."@))
}

/// The "already verified" prompt, naming the linked account.
pub open spec fn reverify_message(name: Seq<char>, roblox_id: i64) -> MessageView {
    set_ephemeral(
        set_components(
            add_embed(
                empty_message(),
                with_field(
                    warn_view("Verification"@, "You have already verified your account"@),
                    "Details"@,
                    "You're already verified as ["@ + name + "](https://www.roblox.com/users/"@ + int_text(roblox_id as int)
                        + ").\nWould you like to verify with a different account?"@,
                    false,
                ),
            ),
            seq![ActionRowView::Buttons(seq![
                button_view(ButtonStyle::Danger, "verify::reverify"@, "Verify Again"@),
                button_view(ButtonStyle::Secondary, "verify::cancel"@, "Cancel"@),
            ])],
        ),
        true,
    )
}

/// The embed that offers the verification methods.
pub open spec fn method_embed() -> EmbedView {
    with_field(
        emoji_view(
            "Verification"@,
            "To get started using Soldier, you need to connect your Roblox account."@,
            Emoji::Check,
            Colour::RohrkatzeBlue,
        ),
        "Details"@,
        "You can login via the Roblox OAuth2 client or verify manually by placing a randomnly generated phrase in your profile description."@,
        false,
    )
}

/// The method buttons; code verification is offered only when a Roblox
/// account was named and found.
pub open spec fn method_rows(can_code: bool) -> Seq<ActionRowView> {
    seq![ActionRowView::Buttons(seq![
        link_view("https://soldierbot.app/"@, "Login With Roblox"@),
        ButtonView { disabled: !can_code, ..button_view(ButtonStyle::Secondary, "verify::code"@, "Code Verify"@) },
    ])]
}

/// The methods as the first response to the command.
pub open spec fn methods_sent(can_code: bool) -> MessageView {
    set_ephemeral(set_components(add_embed(empty_message(), method_embed()), method_rows(can_code)), true)
}

/// The methods in place of the "already verified" prompt.
pub open spec fn methods_updated(can_code: bool) -> MessageView {
    set_components(add_embed(update_base(), method_embed()), method_rows(can_code))
}

/// The "cancelled" panel in place of a prompt.
pub open spec fn cancelled_update() -> MessageView {
    add_embed(update_base(), warn_view(""@, "You cancelled the operation."@))
}

/// The "cancelled" panel, with the components cleared once more.
pub open spec fn cancelled_update_cleared() -> MessageView {
    set_components(cancelled_update(), Seq::empty())
}

/// The panel that shows the phrase to place in the profile.
pub open spec fn phrase_message(player_id: i64, phrase: Seq<char>) -> MessageView {
    set_ephemeral(
        set_components(
            add_embed(
                update_base(),
                with_field(
                    info_view(
                        "Account Verification"@,
                        "Please put this randomly generated phrase into your [about](https://roblox.com/users/"@
                            + int_text(player_id as int) + ") page."@,
                    ),
                    "Phrase"@,
                    "If one of the words are tags, please try again.\n```"@ + phrase + "```"@,
                    false,
                ),
            ),
            seq![ActionRowView::Buttons(seq![
                button_view(ButtonStyle::Success, "verify::code::done"@, "Done"@),
                button_view(ButtonStyle::Secondary, "verify::code::cancel"@, "Cancel"@),
            ])],
        ),
        true,
    )
}

/// The panel that reports a missing phrase.
pub open spec fn mismatch_message() -> MessageView {
    set_components(
        add_embed(
            update_base(),
            error_view("Verification Failed"@, "The verification phrase was not found in your Roblox profile."@),
        ),
        Seq::empty(),
    )
}

/// The name shown as display name: the display name, else the user name.
pub open spec fn shown_name(p: RobloxUserView) -> Seq<char> {
    match p.display_name {
        Some(d) => d,
        None => p.name,
    }
}

/// The confirmation of a completed verification.
pub open spec fn success_message(p: RobloxUserView) -> MessageView {
    add_embed(
        response_base(),
        with_field(
            success_view("Account Verification"@, "Your account has been verified successfully!"@),
            "Account"@,
            "Username: ["@ + p.name + "](https://www.roblox.com/users/"@ + int_text(p.id as int) + ")\nDisplay Name: `"@
                + shown_name(p) + "`\nRoblox ID: `"@ + int_text(p.id as int) + "`"@,
            false,
        ),
    )
}

/// The wait for a click on the command's response, by `verify::` ids.
pub open spec fn prompt_wait() -> ClickWaitView {
    click_wait(60, true, Some("verify::"@))
}

/// The wait for a click on the phrase panel, by `verify::` ids.
pub open spec fn phrase_wait() -> ClickWaitView {
    click_wait(300, false, Some("verify::"@))
}

// ---- the flow ---------------------------------------------------------------

/// What happens once the named account (if any) has been looked up.
pub open spec fn after_lookup(
    username: Option<Seq<char>>,
    found: Option<RobloxUserView>,
    existing: Option<i64>,
) -> (VerifyStateView, VerifyActionView) {
    if username is Some && found is None {
        (VerifyStateView::Finished, VerifyActionView::Finish(Err(unknown_user_error(username->0))))
    } else {
        match existing {
            Some(id) => (VerifyStateView::FetchingName { found, existing: id }, VerifyActionView::FetchName { roblox_id: id }),
            None => (
                VerifyStateView::ShowingMethods { found },
                VerifyActionView::Reply(ReplyView::Send(methods_sent(found is Some))),
            ),
        }
    }
}

/// How `/verify` begins, given the named account and the caller's current link.
pub open spec fn verify_begin(username: Option<Seq<char>>, existing: Option<i64>) -> (VerifyStateView, VerifyActionView) {
    match username {
        Some(u) => (VerifyStateView::LookingUp { username: u, existing }, VerifyActionView::FindUser { username: u }),
        None => after_lookup(None, None, existing),
    }
}

/// The event is one the state waits for.
pub open spec fn verify_expects(s: VerifyStateView, e: VerifyEventView) -> bool {
    match e {
        VerifyEventView::Failed(err) => !(s is Finished),
        VerifyEventView::Done => s is ShowingReverify || s is ShowingMethods || s is ShowingPhrase || s is Storing
            || s is Closing,
        VerifyEventView::UserFound(_) => s is LookingUp,
        VerifyEventView::NameFetched(_) => s is FetchingName,
        VerifyEventView::Clicked(_) => s is AwaitingReverify || s is AwaitingMethod || s is AwaitingConfirm,
        VerifyEventView::PhrasePicked(_) => s is PickingPhrase,
        VerifyEventView::ProfileFetched(_) => s is FetchingProfile,
    }
}

/// One step of `/verify`.
pub open spec fn verify_next(s: VerifyStateView, e: VerifyEventView) -> (VerifyStateView, VerifyActionView) {
    match e {
        VerifyEventView::Failed(err) => (VerifyStateView::Finished, VerifyActionView::Finish(Err(err))),
        _ => match s {
            VerifyStateView::LookingUp { username, existing } => match e {
                VerifyEventView::UserFound(found) => after_lookup(Some(username), found, existing),
                _ => (s, VerifyActionView::Finish(Ok(()))),
            },
            VerifyStateView::FetchingName { found, existing } => match e {
                VerifyEventView::NameFetched(name) => (
                    VerifyStateView::ShowingReverify { found },
                    VerifyActionView::Reply(ReplyView::Send(reverify_message(
                        match name { Some(n) => n, None => int_text(existing as int) },
                        existing,
                    ))),
                ),
                _ => (s, VerifyActionView::Finish(Ok(()))),
            },
            VerifyStateView::ShowingReverify { found } =>
                (VerifyStateView::AwaitingReverify { found }, VerifyActionView::AwaitClick(prompt_wait())),
            VerifyStateView::AwaitingReverify { found } => match e {
                VerifyEventView::Clicked(Some(c)) => if seq_ends_with(c.custom_id, "cancel"@) {
                    (
                        VerifyStateView::Closing { handled: false },
                        VerifyActionView::Reply(ReplyView::Update(Target::Component, cancelled_update_cleared())),
                    )
                } else {
                    (
                        VerifyStateView::ShowingMethods { found },
                        VerifyActionView::Reply(ReplyView::Update(Target::Component, methods_updated(found is Some))),
                    )
                },
                _ => (VerifyStateView::Finished, VerifyActionView::Finish(Ok(()))),
            },
            VerifyStateView::ShowingMethods { found } =>
                (VerifyStateView::AwaitingMethod { found }, VerifyActionView::AwaitClick(prompt_wait())),
            VerifyStateView::AwaitingMethod { found } => match (e, found) {
                (VerifyEventView::Clicked(Some(_)), Some(player)) =>
                    (VerifyStateView::PickingPhrase { player }, VerifyActionView::PickPhrase),
                _ => (VerifyStateView::Finished, VerifyActionView::Finish(Ok(()))),
            },
            VerifyStateView::PickingPhrase { player } => match e {
                VerifyEventView::PhrasePicked(phrase) => (
                    VerifyStateView::ShowingPhrase { player, phrase },
                    VerifyActionView::Reply(ReplyView::Update(Target::Component, phrase_message(player.id, phrase))),
                ),
                _ => (s, VerifyActionView::Finish(Ok(()))),
            },
            VerifyStateView::ShowingPhrase { player, phrase } =>
                (VerifyStateView::AwaitingConfirm { player, phrase }, VerifyActionView::AwaitClick(phrase_wait())),
            VerifyStateView::AwaitingConfirm { player, phrase } => match e {
                VerifyEventView::Clicked(Some(c)) => if seq_ends_with(c.custom_id, "cancel"@) {
                    (
                        VerifyStateView::Closing { handled: false },
                        VerifyActionView::Reply(ReplyView::Update(Target::Component, cancelled_update())),
                    )
                } else {
                    (VerifyStateView::FetchingProfile { player, phrase }, VerifyActionView::FetchProfile { roblox_id: player.id })
                },
                _ => (VerifyStateView::Finished, VerifyActionView::Finish(Err(CmdErrorView::Timeout))),
            },
            VerifyStateView::FetchingProfile { player, phrase } => match e {
                VerifyEventView::ProfileFetched(description) => if seq_contains(description, phrase) {
                    (VerifyStateView::Storing { player }, VerifyActionView::StoreLink { roblox_id: player.id })
                } else {
                    (
                        VerifyStateView::Closing { handled: true },
                        VerifyActionView::Reply(ReplyView::Update(Target::Component, mismatch_message())),
                    )
                },
                _ => (s, VerifyActionView::Finish(Ok(()))),
            },
            VerifyStateView::Storing { player } => (
                VerifyStateView::Closing { handled: false },
                VerifyActionView::Reply(ReplyView::Respond(Target::Component, success_message(player))),
            ),
            VerifyStateView::Closing { handled } => (
                VerifyStateView::Finished,
                VerifyActionView::Finish(if handled { Err(CmdErrorView::Handled) } else { Ok(()) }),
            ),
            VerifyStateView::Finished => (s, VerifyActionView::Finish(Ok(()))),
        },
    }
}


// ---- laws of the flow ---------------------------------------------------------

/// The step links the account fetched in `s` after a description holding the phrase.
pub open spec fn links_checked_player(s: VerifyStateView, e: VerifyEventView) -> bool {
    &&& s matches VerifyStateView::FetchingProfile { player, phrase }
    &&& e matches VerifyEventView::ProfileFetched(d)
    &&& seq_contains(d, phrase)
    &&& verify_next(s, e).1 == (VerifyActionView::StoreLink { roblox_id: player.id })
}

/// The caller's Discord account is linked to a Roblox account only right after
/// that account's profile was fetched and its description contains the phrase
/// shown to the caller; the link names exactly that account.
pub proof fn lemma_link_requires_phrase(s: VerifyStateView, e: VerifyEventView)
    requires
        verify_expects(s, e),
        verify_next(s, e).1 is StoreLink,
    ensures
        links_checked_player(s, e),
{
}

/// The step shows the "cancelled" panel in place of the prompt.
pub open spec fn shows_cancelled(a: VerifyActionView) -> bool {
    &&& a matches VerifyActionView::Reply(ReplyView::Update(t, m))
    &&& t == Target::Component
    &&& m.embeds == seq![warn_view(""@, "You cancelled the operation."@)]
}

/// A click on a "Cancel" button (an id ending in `cancel`) replaces the
/// prompt with the "cancelled" panel, links nothing, and the command then
/// ends successfully.
pub proof fn lemma_cancel_closes(s: VerifyStateView, c: ClickView)
    requires
        s is AwaitingReverify || s is AwaitingConfirm,
        seq_ends_with(c.custom_id, "cancel"@),
    ensures
        verify_next(s, VerifyEventView::Clicked(Some(c))).0 == (VerifyStateView::Closing { handled: false }),
        shows_cancelled(verify_next(s, VerifyEventView::Clicked(Some(c))).1),
        verify_next((VerifyStateView::Closing { handled: false }), VerifyEventView::Done).1 == VerifyActionView::Finish(Ok(())),
{
}

/// When the caller does not confirm the phrase in time, the command ends with
/// the timeout error; an unanswered earlier prompt ends it quietly.
pub proof fn lemma_prompt_timeouts(s: VerifyStateView)
    ensures
        s is AwaitingConfirm ==> verify_next(s, VerifyEventView::Clicked(None)).1 == VerifyActionView::Finish(Err(CmdErrorView::Timeout)),
        (s is AwaitingReverify || s is AwaitingMethod) ==> verify_next(s, VerifyEventView::Clicked(None)).1 == VerifyActionView::Finish(Ok(())),
{
}

/// A failed action ends the command with that very error.
pub proof fn lemma_verify_failure_propagates(s: VerifyStateView, err: CmdErrorView)
    ensures
        verify_next(s, VerifyEventView::Failed(err)) == (VerifyStateView::Finished, VerifyActionView::Finish(Err(err))),
{
}

/// If the step enters `Closing { handled: true }`, its action shows an error embed.
pub open spec fn handled_after_error(s: VerifyStateView, e: VerifyEventView) -> bool {
    verify_next(s, e).0 == (VerifyStateView::Closing { handled: true }) ==> (verify_next(s, e).1 matches VerifyActionView::Reply(r) && shows_error(r))
}

/// If the step ends the command as `Handled`, it was closing after such an error.
pub open spec fn handled_only_when_closing(s: VerifyStateView, e: VerifyEventView) -> bool {
    verify_next(s, e).1 == VerifyActionView::Finish(Err(CmdErrorView::Handled)) ==> (s == (VerifyStateView::Closing { handled: true })
        || e == VerifyEventView::Failed(CmdErrorView::Handled))
}

/// Every new message of the step is ephemeral.
pub open spec fn verify_replies_ephemeral(s: VerifyStateView, e: VerifyEventView) -> bool {
    verify_next(s, e).1 matches VerifyActionView::Reply(r) ==> new_message_is_ephemeral(r)
}

/// The command ends with `Handled` only after it has itself shown the user an
/// error embed; and every new message it sends is ephemeral.
pub proof fn lemma_verify_replies(s: VerifyStateView, e: VerifyEventView)
    requires
        verify_expects(s, e),
    ensures
        handled_after_error(s, e),
        handled_only_when_closing(s, e),
        verify_replies_ephemeral(s, e),
{
}

// ---- building the messages --------------------------------------------------

fn two_button_row(a: Button, b: Button) -> (rows: Vec<ActionRow>)
    ensures
        crate::helper::rows_view(rows@) == seq![ActionRowView::Buttons(seq![a@, b@])],
{
    let mut row: Vec<Button> = Vec::new();
    row.push(a);
    row.push(b);
    assert(components::buttons_view(row@) =~= seq![a@, b@]);
    let mut rows: Vec<ActionRow> = Vec::new();
    rows.push(components::buttons(row));
    assert(crate::helper::rows_view(rows@) =~= seq![ActionRowView::Buttons(seq![a@, b@])]);
    rows
}

fn no_rows() -> (rows: Vec<ActionRow>)
    ensures
        crate::helper::rows_view(rows@) == Seq::<ActionRowView>::empty(),
{
    let rows: Vec<ActionRow> = Vec::new();
    assert(crate::helper::rows_view(rows@) =~= Seq::<ActionRowView>::empty());
    rows
}

fn reverify_msg(name: &str, roblox_id: i64) -> (m: Message)
    ensures
        m@ == reverify_message(name@, roblox_id),
{
    let mut d = "You're already verified as [".to_owned();
    d.append(name);
    d.append("](https://www.roblox.com/users/");
    let id = i64_text(roblox_id);
    d.append(id.as_str());
    d.append(").\nWould you like to verify with a different account?");
    let e = embeds::warn("Verification", "You have already verified your account").field("Details", d.as_str(), false);
    let rows = two_button_row(
        components::button_danger("verify::reverify", "Verify Again"),
        components::button_secondary("verify::cancel", "Cancel"),
    );
    Message::new().embed(e).components(rows).ephemeral(true)
}

fn method_embed_exec() -> (e: embeds::Embed)
    ensures
        e@ == method_embed(),
{
    embeds::emoji(
        "Verification",
        "To get started using Soldier, you need to connect your Roblox account.",
        Emoji::Check,
        Colour::RohrkatzeBlue,
    ).field(
        "Details",
        "You can login via the Roblox OAuth2 client or verify manually by placing a randomnly generated phrase in your profile description.",
        false,
    )
}

fn method_rows_exec(can_code: bool) -> (rows: Vec<ActionRow>)
    ensures
        crate::helper::rows_view(rows@) == method_rows(can_code),
{
    let link = components::button_link("https://soldierbot.app/", "Login With Roblox");
    let code = components::button_secondary("verify::code", "Code Verify").disabled(!can_code);
    assert(code@ == ButtonView { disabled: !can_code, ..button_view(ButtonStyle::Secondary, "verify::code"@, "Code Verify"@) });
    assert(link@ == link_view("https://soldierbot.app/"@, "Login With Roblox"@));
    let rows = two_button_row(link, code);
    assert(seq![link@, code@] =~= seq![
        link_view("https://soldierbot.app/"@, "Login With Roblox"@),
        ButtonView { disabled: !can_code, ..button_view(ButtonStyle::Secondary, "verify::code"@, "Code Verify"@) },
    ]);
    rows
}

fn phrase_msg(player_id: i64, phrase: &str) -> (m: Message)
    ensures
        m@ == phrase_message(player_id, phrase@),
{
    let mut d = "Please put this randomly generated phrase into your [about](https://roblox.com/users/".to_owned();
    let id = i64_text(player_id);
    d.append(id.as_str());
    d.append(") page.");
    let mut f = "If one of the words are tags, please try again.\n```".to_owned();
    f.append(phrase);
    f.append("```");
    let e = embeds::info("Account Verification", d.as_str()).field("Phrase", f.as_str(), false);
    let rows = two_button_row(
        components::button_success("verify::code::done", "Done"),
        components::button_secondary("verify::code::cancel", "Cancel"),
    );
    Message::for_update().embed(e).components(rows).ephemeral(true)
}

fn success_msg(player: &RobloxUser) -> (m: Message)
    ensures
        m@ == success_message(player@),
{
    let id = i64_text(player.id);
    let mut d = "Username: [".to_owned();
    d.append(player.name.as_str());
    d.append("](https://www.roblox.com/users/");
    d.append(id.as_str());
    d.append(")\nDisplay Name: `");
    match &player.display_name {
        Some(n) => d.append(n.as_str()),
        None => d.append(player.name.as_str()),
    }
    d.append("`\nRoblox ID: `");
    d.append(id.as_str());
    d.append("`");
    let e = embeds::success("Account Verification", "Your account has been verified successfully!")
        .field("Account", d.as_str(), false);
    Message::for_response().embed(e)
}

fn unknown_user(username: &str) -> (e: CmdError)
    ensures
        e@ == unknown_user_error(username@),
{
    let mut d = "The user `".to_owned();
    d.append(username);
    d.append("` was not found.");
    CmdError::Embed(embeds::error("", d.as_str()))
}

fn after_lookup_exec(username: Option<String>, found: Option<RobloxUser>, existing: Option<i64>) -> (r: (VerifyState, VerifyAction))
    ensures
        (r.0@, r.1@) == after_lookup(
            match username { Some(u) => Some(u@), None => None },
            opt_user_view(found),
            existing,
        ),
{
    match username {
        Some(u) => {
            if found.is_none() {
                return (VerifyState::Finished, VerifyAction::Finish(Err(unknown_user(u.as_str()))));
            }
        },
        None => {},
    }
    match existing {
        Some(id) => (VerifyState::FetchingName { found, existing: id }, VerifyAction::FetchName { roblox_id: id }),
        None => {
            let can_code = found.is_some();
            let m = Message::new().embed(method_embed_exec()).components(method_rows_exec(can_code)).ephemeral(true);
            (VerifyState::ShowingMethods { found }, VerifyAction::Reply(Reply::Send(m)))
        },
    }
}

/// Starts `/verify`: `username` is the Roblox account named in the command,
/// `existing` the Roblox id the caller is already linked to.
pub fn verify(username: Option<String>, existing: Option<i64>) -> (r: (VerifyState, VerifyAction))
    ensures
        (r.0@, r.1@) == verify_begin(match username { Some(u) => Some(u@), None => None }, existing),
{
    match username {
        Some(u) => {
            let query = u.clone();
            (VerifyState::LookingUp { username: u, existing }, VerifyAction::FindUser { username: query })
        },
        None => after_lookup_exec(None, None, existing),
    }
}

/// One step of `/verify`: the next state and action after `event`.
pub fn verify_step(state: VerifyState, event: VerifyEvent) -> (r: (VerifyState, VerifyAction))
    requires
        verify_expects(state@, event@),
    ensures
        (r.0@, r.1@) == verify_next(state@, event@),
{
    if let VerifyEvent::Failed(err) = event {
        return (VerifyState::Finished, VerifyAction::Finish(Err(err)));
    }
    match state {
        VerifyState::LookingUp { username, existing } => match event {
            VerifyEvent::UserFound(found) => after_lookup_exec(Some(username), found, existing),
            _ => (VerifyState::Finished, VerifyAction::Finish(Ok(()))),
        },
        VerifyState::FetchingName { found, existing } => match event {
            VerifyEvent::NameFetched(name) => {
                let shown = match name {
                    Some(n) => n,
                    None => i64_text(existing),
                };
                let m = reverify_msg(shown.as_str(), existing);
                (VerifyState::ShowingReverify { found }, VerifyAction::Reply(Reply::Send(m)))
            },
            _ => (VerifyState::Finished, VerifyAction::Finish(Ok(()))),
        },
        VerifyState::ShowingReverify { found } => (
            VerifyState::AwaitingReverify { found },
            VerifyAction::AwaitClick(wait_for_click(60, true, Some("verify::"))),
        ),
        VerifyState::AwaitingReverify { found } => match event {
            VerifyEvent::Clicked(Some(c)) => {
                if ends_with(c.custom_id.as_str(), "cancel") {
                    let m = Message::for_update().embed(embeds::cancelled()).components(no_rows());
                    (VerifyState::Closing { handled: false }, VerifyAction::Reply(Reply::Update(Target::Component, m)))
                } else {
                    let can_code = found.is_some();
                    let m = Message::for_update().embed(method_embed_exec()).components(method_rows_exec(can_code));
                    (VerifyState::ShowingMethods { found }, VerifyAction::Reply(Reply::Update(Target::Component, m)))
                }
            },
            _ => (VerifyState::Finished, VerifyAction::Finish(Ok(()))),
        },
        VerifyState::ShowingMethods { found } => (
            VerifyState::AwaitingMethod { found },
            VerifyAction::AwaitClick(wait_for_click(60, true, Some("verify::"))),
        ),
        VerifyState::AwaitingMethod { found } => match (event, found) {
            (VerifyEvent::Clicked(Some(_)), Some(player)) => (VerifyState::PickingPhrase { player }, VerifyAction::PickPhrase),
            _ => (VerifyState::Finished, VerifyAction::Finish(Ok(()))),
        },
        VerifyState::PickingPhrase { player } => match event {
            VerifyEvent::PhrasePicked(phrase) => {
                let m = phrase_msg(player.id, phrase.as_str());
                (VerifyState::ShowingPhrase { player, phrase }, VerifyAction::Reply(Reply::Update(Target::Component, m)))
            },
            _ => (VerifyState::Finished, VerifyAction::Finish(Ok(()))),
        },
        VerifyState::ShowingPhrase { player, phrase } => (
            VerifyState::AwaitingConfirm { player, phrase },
            VerifyAction::AwaitClick(wait_for_click(300, false, Some("verify::"))),
        ),
        VerifyState::AwaitingConfirm { player, phrase } => match event {
            VerifyEvent::Clicked(Some(c)) => {
                if ends_with(c.custom_id.as_str(), "cancel") {
                    let m = Message::for_update().embed(embeds::cancelled());
                    (VerifyState::Closing { handled: false }, VerifyAction::Reply(Reply::Update(Target::Component, m)))
                } else {
                    let id = player.id;
                    (VerifyState::FetchingProfile { player, phrase }, VerifyAction::FetchProfile { roblox_id: id })
                }
            },
            _ => (VerifyState::Finished, VerifyAction::Finish(Err(CmdError::Timeout))),
        },
        VerifyState::FetchingProfile { player, phrase } => match event {
            VerifyEvent::ProfileFetched(description) => {
                if contains(description.as_str(), phrase.as_str()) {
                    let id = player.id;
                    (VerifyState::Storing { player }, VerifyAction::StoreLink { roblox_id: id })
                } else {
                    let m = Message::for_update()
                        .embed(embeds::error("Verification Failed", "The verification phrase was not found in your Roblox profile."))
                        .components(no_rows());
                    (VerifyState::Closing { handled: true }, VerifyAction::Reply(Reply::Update(Target::Component, m)))
                }
            },
            _ => (VerifyState::Finished, VerifyAction::Finish(Ok(()))),
        },
        VerifyState::Storing { player } => {
            let m = success_msg(&player);
            (VerifyState::Closing { handled: false }, VerifyAction::Reply(Reply::Respond(Target::Component, m)))
        },
        VerifyState::Closing { handled } => {
            if handled {
                (VerifyState::Finished, VerifyAction::Finish(Err(CmdError::Handled)))
            } else {
                (VerifyState::Finished, VerifyAction::Finish(Ok(())))
            }
        },
        VerifyState::Finished => (VerifyState::Finished, VerifyAction::Finish(Ok(()))),
    }
}


/// Whether a fetched profile links the account is decided by the phrase
/// alone: the step links exactly when the description contains the phrase
/// shown (anywhere in it, the whole description included), and then it links
/// the fetched player's own Roblox id.
pub proof fn lemma_phrase_in_description_links(player: RobloxUserView, phrase: Seq<char>, d: Seq<char>)
    ensures
        seq_contains(d, phrase) ==> verify_next(
            VerifyStateView::FetchingProfile { player, phrase },
            VerifyEventView::ProfileFetched(d),
        ) == (VerifyStateView::Storing { player }, VerifyActionView::StoreLink { roblox_id: player.id }),
        !seq_contains(d, phrase) ==> !(verify_next(
            VerifyStateView::FetchingProfile { player, phrase },
            VerifyEventView::ProfileFetched(d),
        ).1 is StoreLink),
{
}


/// The phrase checked is the phrase shown: once a phrase is drawn for the
/// player, the caller is shown a panel whose phrase field contains it; after
/// a click that is not "Cancel", the profile fetched is the player's own; and
/// a description that contains that phrase links exactly that player.
pub proof fn lemma_shown_phrase_is_checked(
    player: RobloxUserView,
    phrase: Seq<char>,
    c: ClickView,
    d: Seq<char>,
)
    requires
        !seq_ends_with(c.custom_id, "cancel"@),
        seq_contains(d, phrase),
    ensures
        ({
            let (s1, a1) = verify_next(VerifyStateView::PickingPhrase { player }, VerifyEventView::PhrasePicked(phrase));
            let (s2, a2) = verify_next(s1, VerifyEventView::Done);
            let (s3, a3) = verify_next(s2, VerifyEventView::Clicked(Some(c)));
            let a4 = verify_next(s3, VerifyEventView::ProfileFetched(d)).1;
            &&& a1 matches VerifyActionView::Reply(ReplyView::Update(Target::Component, m))
                && m.embeds.len() == 1 && m.embeds[0].fields.len() == 1
                && seq_contains(m.embeds[0].fields[0].value, phrase)
            &&& a2 is AwaitClick
            &&& a3 == VerifyActionView::FetchProfile { roblox_id: player.id }
            &&& a4 == VerifyActionView::StoreLink { roblox_id: player.id }
        }),
{
    let pre = "If one of the words are tags, please try again.\n```"@;
    let v = pre + phrase + "```"@;
    assert(v.subrange(pre.len() as int, (pre.len() + phrase.len()) as int) =~= phrase);
    assert(crate::text::occurs_at(v, phrase, pre.len() as int));
}

} // verus!

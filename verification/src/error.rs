//! Command errors, their texts, and what the error handler answers with.

use vstd::prelude::*;
use crate::embeds::{self, Embed, EmbedView, user_error_view, warn_view};
use crate::helper::{Message, MessageView, add_embed, response_base};

verus! {

/// Why a command failed. The outside errors are held by their display text.
#[derive(Debug)]
pub enum CmdError {
    /// The error was already shown to the user from the command body; the
    /// error handler does nothing.
    Handled,
    /// An embed to show as the error response, sent by the error handler.
    Embed(Embed),
    /// A failed Roblox API call, shown to the user as an unexpected error.
    Roblox(String),
    /// A Discord API error.
    Serenity(String),
    /// A database error.
    SeaOrm(String),
    /// A user-facing prompt timed out.
    Timeout,
    /// A command on cooldown, with the remaining seconds and nanoseconds.
    OnCooldown(u64, u32),
    Other(String),
    /// Any other error, shown as its own text.
    Anyhow(String),
}

/// The `Debug` text of a `std::time::Duration` of `secs` seconds and `nanos`
/// nanoseconds.
pub uninterp spec fn duration_debug(secs: u64, nanos: u32) -> Seq<char>;

/// Formats `std::time::Duration::new(secs, nanos)` with `{:?}`.
#[verifier::external_body]
fn duration_text(secs: u64, nanos: u32) -> (s: String)
    requires
        nanos < 1_000_000_000,
    ensures
        s@ == duration_debug(secs, nanos),
{
    format!("{:?}", std::time::Duration::new(secs, nanos))
}

/// The content of a `CmdError`.
pub enum CmdErrorView {
    Handled,
    Embed(EmbedView),
    Roblox(Seq<char>),
    Serenity(Seq<char>),
    SeaOrm(Seq<char>),
    Timeout,
    OnCooldown(u64, u32),
    Other(Seq<char>),
    Anyhow(Seq<char>),
}

impl View for CmdError {
    type V = CmdErrorView;

    open spec fn view(&self) -> CmdErrorView {
        match self {
            CmdError::Handled => CmdErrorView::Handled,
            CmdError::Embed(e) => CmdErrorView::Embed(e@),
            CmdError::Roblox(s) => CmdErrorView::Roblox(s@),
            CmdError::Serenity(s) => CmdErrorView::Serenity(s@),
            CmdError::SeaOrm(s) => CmdErrorView::SeaOrm(s@),
            CmdError::Timeout => CmdErrorView::Timeout,
            CmdError::OnCooldown(s, n) => CmdErrorView::OnCooldown(*s, *n),
            CmdError::Other(s) => CmdErrorView::Other(s@),
            CmdError::Anyhow(s) => CmdErrorView::Anyhow(s@),
        }
    }
}

/// A cooldown's nanoseconds are below one second, as in a `Duration`.
pub open spec fn error_well_formed(e: CmdErrorView) -> bool {
    e matches CmdErrorView::OnCooldown(_, n) ==> n < 1_000_000_000
}

/// The display text of an error.
pub open spec fn error_text(e: CmdErrorView) -> Seq<char> {
    match e {
        CmdErrorView::Handled => "Command error"@,
        CmdErrorView::Embed(_) => "Command error"@,
        CmdErrorView::Roblox(s) => "Roblox API Error: "@ + s,
        CmdErrorView::Serenity(s) => "Discord API Error: "@ + s,
        CmdErrorView::SeaOrm(s) => "Database Error: "@ + s,
        CmdErrorView::Timeout => "Prompt timed out due to inactivity"@,
        CmdErrorView::OnCooldown(secs, nanos) => "On cooldown: "@ + duration_debug(secs, nanos),
        CmdErrorView::Other(s) => "Other: "@ + s,
        CmdErrorView::Anyhow(s) => s,
    }
}

/// What the error handler sends for a failed slash command: nothing for an
/// error already shown, else an ephemeral message.
pub open spec fn error_reply(e: CmdErrorView) -> Option<MessageView> {
    match e {
        CmdErrorView::Handled => None,
        CmdErrorView::Embed(embed) => Some(add_embed(response_base(), embed)),
        CmdErrorView::Timeout => Some(add_embed(response_base(), warn_view(""@, "This prompt has timed out due to inactivity."@))),
        CmdErrorView::Roblox(s) => Some(add_embed(response_base(), user_error_view(s))),
        CmdErrorView::Serenity(_) => Some(add_embed(response_base(), user_error_view(error_text(e)))),
        CmdErrorView::SeaOrm(_) => Some(add_embed(response_base(), user_error_view(error_text(e)))),
        _ => Some(MessageView { content: Some(error_text(e)), ..response_base() }),
    }
}

/// The error handler stays silent exactly for `Handled`; everything it sends
/// is ephemeral; an `Embed` error is sent as that very embed, a timeout as
/// the timeout embed, a Roblox error as the unexpected-error embed with its
/// text, and a Discord or database error as the unexpected-error embed with
/// the error's display text.
pub proof fn lemma_error_replies(e: CmdErrorView)
    ensures
        (error_reply(e) is None) == (e is Handled),
        error_reply(e) matches Some(m) ==> m.ephemeral,
        e matches CmdErrorView::Embed(x) ==> error_reply(e) == Some(add_embed(response_base(), x)),
        e is Timeout ==> error_reply(e) == Some(add_embed(response_base(), warn_view(""@, "This prompt has timed out due to inactivity."@))),
        e matches CmdErrorView::Roblox(t) ==> error_reply(e) == Some(add_embed(response_base(), user_error_view(t))),
        (e is Serenity || e is SeaOrm) ==> error_reply(e) == Some(add_embed(response_base(), user_error_view(error_text(e)))),
{
}

impl CmdError {
    /// The display text of the error (what `to_string` gives).
    pub fn message(&self) -> (s: String)
        requires
            error_well_formed(self@),
        ensures
            s@ == error_text(self@),
    {
        match self {
            CmdError::Handled => "Command error".to_owned(),
            CmdError::Embed(_) => "Command error".to_owned(),
            CmdError::Roblox(e) => {
                let mut s = "Roblox API Error: ".to_owned();
                s.append(e.as_str());
                s
            },
            CmdError::Serenity(e) => {
                let mut s = "Discord API Error: ".to_owned();
                s.append(e.as_str());
                s
            },
            CmdError::SeaOrm(e) => {
                let mut s = "Database Error: ".to_owned();
                s.append(e.as_str());
                s
            },
            CmdError::Timeout => "Prompt timed out due to inactivity".to_owned(),
            CmdError::OnCooldown(secs, nanos) => {
                let mut s = "On cooldown: ".to_owned();
                let d = duration_text(*secs, *nanos);
                s.append(d.as_str());
                s
            },
            CmdError::Other(e) => {
                let mut s = "Other: ".to_owned();
                s.append(e.as_str());
                s
            },
            CmdError::Anyhow(e) => e.as_str().to_owned(),
        }
    }
}

/// Decides the error handler's answer to a failed slash command: `None` when
/// the error was already shown (`Handled`), otherwise the ephemeral message
/// to send.
pub fn handle_error(error: CmdError) -> (r: Option<Message>)
    requires
        error_well_formed(error@),
    ensures
        match r {
            Some(m) => error_reply(error@) == Some(m@),
            None => error_reply(error@) is None,
        },
{
    match error {
        CmdError::Handled => None,
        CmdError::Embed(embed) => Some(Message::for_response().embed(embed)),
        CmdError::Timeout => Some(Message::for_response().embed(embeds::timeout())),
        CmdError::Roblox(e) => Some(Message::for_response().embed(embeds::user_error(e))),
        CmdError::Serenity(_) | CmdError::SeaOrm(_) => {
            let text = error.message();
            Some(Message::for_response().embed(embeds::user_error(text)))
        },
        other => {
            let text = other.message();
            Some(Message::for_response().content(text.as_str()))
        },
    }
}

} // verus!

//! The vocabulary the command step functions share: which interaction to
//! answer, the replies, waiting for a click, and the plain data that Discord
//! and Roblox hand back.

use vstd::prelude::*;
use crate::components::{InputText, InputTextView};
use crate::embeds::Colour;
use crate::helper::{Message, MessageView};

verus! {

/// Which interaction a reply answers: the slash command itself, the last
/// clicked component, or the last submitted modal.
#[derive(PartialEq, Eq, Structural, Clone, Copy, Debug)]
pub enum Target {
    Command,
    Component,
    Modal,
}

/// A modal dialog with text inputs.
#[derive(Debug)]
pub struct Modal {
    pub custom_id: String,
    pub title: String,
    pub inputs: Vec<InputText>,
}

/// A modal shown straight from a slash command, whose answers come back in
/// the order of its inputs.
#[derive(Debug)]
pub struct QuickModal {
    pub title: String,
    pub timeout_secs: u64,
    pub inputs: Vec<InputText>,
}

pub struct ModalView {
    pub custom_id: Seq<char>,
    pub title: Seq<char>,
    pub inputs: Seq<InputTextView>,
}

pub struct QuickModalView {
    pub title: Seq<char>,
    pub timeout_secs: u64,
    pub inputs: Seq<InputTextView>,
}

pub open spec fn inputs_view(inputs: Seq<InputText>) -> Seq<InputTextView> {
    inputs.map_values(|t: InputText| t@)
}

impl View for Modal {
    type V = ModalView;

    open spec fn view(&self) -> ModalView {
        ModalView { custom_id: self.custom_id@, title: self.title@, inputs: inputs_view(self.inputs@) }
    }
}

impl View for QuickModal {
    type V = QuickModalView;

    open spec fn view(&self) -> QuickModalView {
        QuickModalView { title: self.title@, timeout_secs: self.timeout_secs, inputs: inputs_view(self.inputs@) }
    }
}

/// A message the bot sends.
#[derive(Debug)]
pub enum Reply {
    /// Through the command context: the first response to the slash command,
    /// or a followup once it has one.
    Send(Message),
    /// A new message in answer to the target interaction.
    Respond(Target, Message),
    /// An edit of the clicked message when the target is a component; a new
    /// message when it is the command or a modal.
    Update(Target, Message),
    /// Opens a modal in answer to the target interaction.
    ShowModal(Target, Modal),
}

pub enum ReplyView {
    Send(MessageView),
    Respond(Target, MessageView),
    Update(Target, MessageView),
    ShowModal(Target, ModalView),
}

impl View for Reply {
    type V = ReplyView;

    open spec fn view(&self) -> ReplyView {
        match self {
            Reply::Send(m) => ReplyView::Send(m@),
            Reply::Respond(t, m) => ReplyView::Respond(*t, m@),
            Reply::Update(t, m) => ReplyView::Update(*t, m@),
            Reply::ShowModal(t, m) => ReplyView::ShowModal(*t, m@),
        }
    }
}

/// Waiting for a component click.
#[derive(Debug)]
pub struct ClickWait {
    pub timeout_secs: u64,
    /// Only clicks on the slash command's response message count.
    pub on_command_response: bool,
    /// Only clicks whose custom id starts with this prefix count.
    pub id_prefix: Option<String>,
}

pub struct ClickWaitView {
    pub timeout_secs: u64,
    pub on_command_response: bool,
    pub id_prefix: Option<Seq<char>>,
}

impl View for ClickWait {
    type V = ClickWaitView;

    open spec fn view(&self) -> ClickWaitView {
        ClickWaitView {
            timeout_secs: self.timeout_secs,
            on_command_response: self.on_command_response,
            id_prefix: match self.id_prefix {
                Some(p) => Some(p@),
                None => None,
            },
        }
    }
}

/// A component click: the custom id, and the chosen values of a select menu.
#[derive(Debug)]
pub struct Click {
    pub custom_id: String,
    pub values: Vec<String>,
}

pub struct ClickView {
    pub custom_id: Seq<char>,
    pub values: Seq<Seq<char>>,
}

impl View for Click {
    type V = ClickView;

    open spec fn view(&self) -> ClickView {
        ClickView { custom_id: self.custom_id@, values: self.values@.map_values(|v: String| v@) }
    }
}

/// A Roblox user: id, name and display name.
#[derive(Debug)]
pub struct RobloxUser {
    pub id: i64,
    pub name: String,
    pub display_name: Option<String>,
}

pub struct RobloxUserView {
    pub id: i64,
    pub name: Seq<char>,
    pub display_name: Option<Seq<char>>,
}

impl View for RobloxUser {
    type V = RobloxUserView;

    open spec fn view(&self) -> RobloxUserView {
        RobloxUserView {
            id: self.id,
            name: self.name@,
            display_name: match self.display_name {
                Some(d) => Some(d@),
                None => None,
            },
        }
    }
}

pub open spec fn opt_user_view(u: Option<RobloxUser>) -> Option<RobloxUserView> {
    match u {
        Some(u) => Some(u@),
        None => None,
    }
}

/// The wait for a click: timeout, scope and prefix.
pub open spec fn click_wait(timeout_secs: u64, on_command_response: bool, id_prefix: Option<Seq<char>>) -> ClickWaitView {
    ClickWaitView { timeout_secs, on_command_response, id_prefix }
}

/// Builds a click wait.
pub fn wait_for_click(timeout_secs: u64, on_command_response: bool, id_prefix: Option<&str>) -> (w: ClickWait)
    ensures
        w@ == click_wait(timeout_secs, on_command_response, match id_prefix { Some(p) => Some(p@), None => None }),
{
    ClickWait {
        timeout_secs,
        on_command_response,
        id_prefix: match id_prefix {
            Some(p) => Some(p.to_owned()),
            None => None,
        },
    }
}


/// A new message (sent or responded) is seen only by the user who
/// triggered the interaction.
pub open spec fn new_message_is_ephemeral(r: ReplyView) -> bool {
    match r {
        ReplyView::Send(m) => m.ephemeral,
        ReplyView::Respond(_, m) => m.ephemeral,
        _ => true,
    }
}

/// The reply shows the user one embed, an error (red) one.
pub open spec fn shows_error(r: ReplyView) -> bool {
    match r {
        ReplyView::Send(m) => m.embeds.len() == 1 && m.embeds[0].colour == Colour::DarkRed,
        ReplyView::Respond(_, m) => m.embeds.len() == 1 && m.embeds[0].colour == Colour::DarkRed,
        ReplyView::Update(_, m) => m.embeds.len() == 1 && m.embeds[0].colour == Colour::DarkRed,
        ReplyView::ShowModal(..) => false,
    }
}

} // verus!

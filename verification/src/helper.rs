//! Messages, interaction responses, and which response each kind of
//! interaction gets.

use vstd::prelude::*;
use crate::components::{ActionRow, ActionRowView, SelectMenu};
use crate::embeds::{Embed, EmbedView};

verus! {

/// A message to send: text, embeds, component rows, and whether only the
/// user who triggered the interaction sees it.
#[derive(Clone, Debug)]
pub struct Message {
    pub content: Option<String>,
    pub embeds: Vec<Embed>,
    /// `None` leaves the components of an updated message as they are;
    /// `Some` replaces them.
    pub components: Option<Vec<ActionRow>>,
    pub ephemeral: bool,
}

/// The content of a message.
pub struct MessageView {
    pub content: Option<Seq<char>>,
    pub embeds: Seq<EmbedView>,
    pub components: Option<Seq<ActionRowView>>,
    pub ephemeral: bool,
}

pub open spec fn rows_view(rows: Seq<ActionRow>) -> Seq<ActionRowView> {
    rows.map_values(|r: ActionRow| r@)
}

impl View for Message {
    type V = MessageView;

    open spec fn view(&self) -> MessageView {
        MessageView {
            content: match self.content {
                Some(c) => Some(c@),
                None => None,
            },
            embeds: self.embeds@.map_values(|e: Embed| e@),
            components: match self.components {
                Some(rows) => Some(rows_view(rows@)),
                None => None,
            },
            ephemeral: self.ephemeral,
        }
    }
}

/// The empty message.
pub open spec fn empty_message() -> MessageView {
    MessageView { content: None, embeds: Seq::empty(), components: None, ephemeral: false }
}

/// `m` with one more embed.
pub open spec fn add_embed(m: MessageView, e: EmbedView) -> MessageView {
    MessageView { embeds: m.embeds.push(e), ..m }
}

/// `m` with its component rows replaced.
pub open spec fn set_components(m: MessageView, rows: Seq<ActionRowView>) -> MessageView {
    MessageView { components: Some(rows), ..m }
}

/// `m` with its ephemeral flag set.
pub open spec fn set_ephemeral(m: MessageView, ephemeral: bool) -> MessageView {
    MessageView { ephemeral, ..m }
}

/// The base of a new response message: ephemeral.
pub open spec fn response_base() -> MessageView {
    set_ephemeral(empty_message(), true)
}

/// The base of a message update: the old components are cleared.
pub open spec fn update_base() -> MessageView {
    set_components(empty_message(), Seq::empty())
}

/// The base of an update that may also be a new message: components
/// cleared, ephemeral.
pub open spec fn any_update_base() -> MessageView {
    set_ephemeral(set_components(empty_message(), Seq::empty()), true)
}

/// A message holding one embed.
pub open spec fn embed_message(base: MessageView, e: EmbedView) -> MessageView {
    add_embed(base, e)
}

impl Message {
    /// The empty message.
    pub fn new() -> (m: Message)
        ensures
            m@ == empty_message(),
    {
        let m = Message { content: None, embeds: Vec::new(), components: None, ephemeral: false };
        assert(m@.embeds =~= Seq::<EmbedView>::empty());
        m
    }

    /// The base of a new response message (what `response!` starts from).
    pub fn for_response() -> (m: Message)
        ensures
            m@ == response_base(),
    {
        Message::new().ephemeral(true)
    }

    /// The base of a message update (what `update_msg!` starts from).
    pub fn for_update() -> (m: Message)
        ensures
            m@ == update_base(),
    {
        let rows: Vec<ActionRow> = Vec::new();
        assert(rows_view(rows@) =~= Seq::<ActionRowView>::empty());
        Message::new().components(rows)
    }

    /// The base of an update of any interaction (what `any_update!` starts from).
    pub fn for_any_update() -> (m: Message)
        ensures
            m@ == any_update_base(),
    {
        let rows: Vec<ActionRow> = Vec::new();
        assert(rows_view(rows@) =~= Seq::<ActionRowView>::empty());
        Message::new().components(rows).ephemeral(true)
    }

    /// The same message with its text set.
    pub fn content(self, content: &str) -> (m: Message)
        ensures
            m@ == (MessageView { content: Some(content@), ..self@ }),
    {
        Message { content: Some(content.to_owned()), ..self }
    }

    /// The same message with one more embed.
    pub fn embed(self, embed: Embed) -> (m: Message)
        ensures
            m@ == add_embed(self@, embed@),
    {
        let mut m = self;
        m.embeds.push(embed);
        proof {
            assert(m@.embeds =~= self@.embeds.push(embed@));
        }
        m
    }

    /// The same message with its component rows replaced.
    pub fn components(self, rows: Vec<ActionRow>) -> (m: Message)
        ensures
            m@ == set_components(self@, rows_view(rows@)),
    {
        Message { components: Some(rows), ..self }
    }

    /// The same message with a select menu row added.
    pub fn select_menu(self, menu: SelectMenu) -> (m: Message)
        ensures
            m@ == set_components(
                self@,
                match self@.components {
                    Some(rows) => rows,
                    None => Seq::empty(),
                }.push(ActionRowView::SelectMenu(menu@)),
            ),
    {
        let ghost old_rows = match self@.components {
            Some(rows) => rows,
            None => Seq::empty(),
        };
        let mut rows = match self.components {
            Some(rows) => rows,
            None => Vec::new(),
        };
        assert(rows_view(rows@) =~= old_rows);
        rows.push(ActionRow::SelectMenu(menu));
        assert(rows_view(rows@) =~= old_rows.push(ActionRowView::SelectMenu(menu@)));
        Message { components: Some(rows), content: self.content, embeds: self.embeds, ephemeral: self.ephemeral }
    }

    /// The same message, ephemeral or not.
    pub fn ephemeral(self, ephemeral: bool) -> (m: Message)
        ensures
            m@ == set_ephemeral(self@, ephemeral),
    {
        Message { ephemeral, ..self }
    }
}

/// An interaction the bot can answer: a slash command, a component click, or
/// a modal submission, each with its interaction id.
#[derive(PartialEq, Eq, Structural, Clone, Copy, Debug)]
pub enum AnyInteraction {
    Command(u64),
    Component(u64),
    Modal(u64),
}

/// Every kind of interaction Discord delivers, with its interaction id.
#[derive(PartialEq, Eq, Structural, Clone, Copy, Debug)]
pub enum RawInteraction {
    Ping(u64),
    Command(u64),
    Autocomplete(u64),
    Component(u64),
    Modal(u64),
}

/// The first response to an interaction.
#[derive(Clone, Debug)]
pub enum InteractionResponse {
    /// A new message.
    Message(Message),
    /// An edit of the message that holds the clicked component.
    UpdateMessage(Message),
    /// Acknowledges the click without any visible response.
    Acknowledge,
}

pub enum InteractionResponseView {
    Message(MessageView),
    UpdateMessage(MessageView),
    Acknowledge,
}

impl View for InteractionResponse {
    type V = InteractionResponseView;

    open spec fn view(&self) -> InteractionResponseView {
        match self {
            InteractionResponse::Message(m) => InteractionResponseView::Message(m@),
            InteractionResponse::UpdateMessage(m) => InteractionResponseView::UpdateMessage(m@),
            InteractionResponse::Acknowledge => InteractionResponseView::Acknowledge,
        }
    }
}

/// The interaction kinds an `AnyInteraction` can hold.
pub open spec fn is_supported(raw: RawInteraction) -> bool {
    raw is Command || raw is Component || raw is Modal
}

impl AnyInteraction {
    /// Wraps a command, component or modal interaction.
    pub fn from(raw: RawInteraction) -> (i: AnyInteraction)
        requires
            is_supported(raw),
        ensures
            raw matches RawInteraction::Command(id) ==> i == AnyInteraction::Command(id),
            raw matches RawInteraction::Component(id) ==> i == AnyInteraction::Component(id),
            raw matches RawInteraction::Modal(id) ==> i == AnyInteraction::Modal(id),
    {
        match raw {
            RawInteraction::Command(id) => AnyInteraction::Command(id),
            RawInteraction::Component(id) => AnyInteraction::Component(id),
            RawInteraction::Modal(id) => AnyInteraction::Modal(id),
            RawInteraction::Ping(_) => AnyInteraction::Command(0),
            RawInteraction::Autocomplete(_) => AnyInteraction::Command(0),
        }
    }

    /// A new ephemeral message in answer to the interaction, whatever its
    /// kind (for a component, a new message rather than an edit).
    pub fn respond(&self, msg: Message) -> (r: InteractionResponse)
        ensures
            r@ == InteractionResponseView::Message(set_ephemeral(msg@, true)),
    {
        InteractionResponse::Message(msg.ephemeral(true))
    }

    /// Edits the clicked message for a component interaction; sends a new
    /// message for a command or a modal.
    pub fn update_message(&self, msg: Message) -> (r: InteractionResponse)
        ensures
            r@ == (if *self is Component {
                InteractionResponseView::UpdateMessage(msg@)
            } else {
                InteractionResponseView::Message(msg@)
            }),
    {
        match self {
            AnyInteraction::Component(_) => InteractionResponse::UpdateMessage(msg),
            AnyInteraction::Command(_) => InteractionResponse::Message(msg),
            AnyInteraction::Modal(_) => InteractionResponse::Message(msg),
        }
    }

    /// A followup message; the same for every kind of interaction.
    pub fn followup(&self, data: Message) -> (r: Message)
        ensures
            r@ == data@,
    {
        data
    }

    /// The silent acknowledgement: sent for a component interaction, nothing
    /// (`None`) for the other kinds.
    pub fn acknowledge(&self) -> (r: Option<InteractionResponse>)
        ensures
            *self is Component ==> r matches Some(InteractionResponse::Acknowledge),
            !(*self is Component) ==> r is None,
    {
        match self {
            AnyInteraction::Component(_) => Some(InteractionResponse::Acknowledge),
            _ => None,
        }
    }
}

} // verus!

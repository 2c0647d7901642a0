//! Message components: buttons, select menus and modal text inputs.

use vstd::prelude::*;

verus! {

/// The look of a button that is not a link.
#[derive(PartialEq, Eq, Structural, Clone, Copy, Debug)]
pub enum ButtonStyle {
    Primary,
    Secondary,
    Success,
    Danger,
}

/// What a button does when clicked.
#[derive(Clone, Debug)]
pub enum ButtonKind {
    /// Sends an interaction with this custom id to the bot.
    NonLink { style: ButtonStyle, custom_id: String },
    /// Opens this URL; the bot is not told.
    Link { url: String },
}

/// A button.
#[derive(Clone, Debug)]
pub struct Button {
    pub kind: ButtonKind,
    pub label: String,
    pub disabled: bool,
}

/// One option of a string select menu.
#[derive(Clone, Debug)]
pub struct SelectOption {
    pub label: String,
    pub value: String,
    pub description: Option<String>,
    /// A Unicode emoji shown beside the option.
    pub emoji: Option<String>,
}

/// A string select menu.
#[derive(Clone, Debug)]
pub struct SelectMenu {
    pub custom_id: String,
    pub options: Vec<SelectOption>,
}

/// The size of a modal text input.
#[derive(PartialEq, Eq, Structural, Clone, Copy, Debug)]
pub enum InputTextStyle {
    Short,
    Paragraph,
}

/// A text input of a modal.
#[derive(Clone, Debug)]
pub struct InputText {
    pub style: InputTextStyle,
    pub label: String,
    pub custom_id: String,
    pub placeholder: Option<String>,
    pub required: bool,
    pub min_length: Option<u16>,
    pub max_length: Option<u16>,
}

/// A row of components under a message, or a text input of a modal.
#[derive(Clone, Debug)]
pub enum ActionRow {
    Buttons(Vec<Button>),
    SelectMenu(SelectMenu),
    InputText(InputText),
}

pub open spec fn opt_view(o: Option<String>) -> Option<Seq<char>> {
    match o {
        Some(s) => Some(s@),
        None => None,
    }
}

pub enum ButtonKindView {
    NonLink { style: ButtonStyle, custom_id: Seq<char> },
    Link { url: Seq<char> },
}

pub struct ButtonView {
    pub kind: ButtonKindView,
    pub label: Seq<char>,
    pub disabled: bool,
}

pub struct SelectOptionView {
    pub label: Seq<char>,
    pub value: Seq<char>,
    pub description: Option<Seq<char>>,
    pub emoji: Option<Seq<char>>,
}

pub struct SelectMenuView {
    pub custom_id: Seq<char>,
    pub options: Seq<SelectOptionView>,
}

pub struct InputTextView {
    pub style: InputTextStyle,
    pub label: Seq<char>,
    pub custom_id: Seq<char>,
    pub placeholder: Option<Seq<char>>,
    pub required: bool,
    pub min_length: Option<u16>,
    pub max_length: Option<u16>,
}

pub enum ActionRowView {
    Buttons(Seq<ButtonView>),
    SelectMenu(SelectMenuView),
    InputText(InputTextView),
}

impl View for Button {
    type V = ButtonView;

    open spec fn view(&self) -> ButtonView {
        ButtonView {
            kind: match self.kind {
                ButtonKind::NonLink { style, custom_id } => ButtonKindView::NonLink { style, custom_id: custom_id@ },
                ButtonKind::Link { url } => ButtonKindView::Link { url: url@ },
            },
            label: self.label@,
            disabled: self.disabled,
        }
    }
}

impl View for SelectOption {
    type V = SelectOptionView;

    open spec fn view(&self) -> SelectOptionView {
        SelectOptionView {
            label: self.label@,
            value: self.value@,
            description: opt_view(self.description),
            emoji: opt_view(self.emoji),
        }
    }
}

impl View for SelectMenu {
    type V = SelectMenuView;

    open spec fn view(&self) -> SelectMenuView {
        SelectMenuView {
            custom_id: self.custom_id@,
            options: self.options@.map_values(|o: SelectOption| o@),
        }
    }
}

impl View for InputText {
    type V = InputTextView;

    open spec fn view(&self) -> InputTextView {
        InputTextView {
            style: self.style,
            label: self.label@,
            custom_id: self.custom_id@,
            placeholder: opt_view(self.placeholder),
            required: self.required,
            min_length: self.min_length,
            max_length: self.max_length,
        }
    }
}

impl View for ActionRow {
    type V = ActionRowView;

    open spec fn view(&self) -> ActionRowView {
        match self {
            ActionRow::Buttons(b) => ActionRowView::Buttons(b@.map_values(|x: Button| x@)),
            ActionRow::SelectMenu(m) => ActionRowView::SelectMenu(m@),
            ActionRow::InputText(t) => ActionRowView::InputText(t@),
        }
    }
}

/// A clickable button with a custom id, label and style.
pub open spec fn button_view(style: ButtonStyle, id: Seq<char>, label: Seq<char>) -> ButtonView {
    ButtonView { kind: ButtonKindView::NonLink { style, custom_id: id }, label, disabled: false }
}

/// A link button.
pub open spec fn link_view(url: Seq<char>, label: Seq<char>) -> ButtonView {
    ButtonView { kind: ButtonKindView::Link { url }, label, disabled: false }
}

/// A select option with no description and no emoji.
pub open spec fn option_view(label: Seq<char>, value: Seq<char>) -> SelectOptionView {
    SelectOptionView { label, value, description: None, emoji: None }
}

/// A required text input with no placeholder and no length bounds.
pub open spec fn input_view(style: InputTextStyle, id: Seq<char>, label: Seq<char>) -> InputTextView {
    InputTextView {
        style,
        label,
        custom_id: id,
        placeholder: None,
        required: true,
        min_length: None,
        max_length: None,
    }
}

/// The views of a list of buttons.
pub open spec fn buttons_view(b: Seq<Button>) -> Seq<ButtonView> {
    b.map_values(|x: Button| x@)
}

/// The views of a list of select options.
pub open spec fn options_view(o: Seq<SelectOption>) -> Seq<SelectOptionView> {
    o.map_values(|x: SelectOption| x@)
}

fn styled(id: &str, label: &str, style: ButtonStyle) -> (b: Button)
    ensures
        b@ == button_view(style, id@, label@),
{
    Button {
        kind: ButtonKind::NonLink { style, custom_id: id.to_owned() },
        label: label.to_owned(),
        disabled: false,
    }
}

/// A primary (blurple) button.
pub fn button(id: &str, label: &str) -> (b: Button)
    ensures
        b@ == button_view(ButtonStyle::Primary, id@, label@),
{
    styled(id, label, ButtonStyle::Primary)
}

/// A secondary (grey) button.
pub fn button_secondary(id: &str, label: &str) -> (b: Button)
    ensures
        b@ == button_view(ButtonStyle::Secondary, id@, label@),
{
    styled(id, label, ButtonStyle::Secondary)
}

/// A success (green) button.
pub fn button_success(id: &str, label: &str) -> (b: Button)
    ensures
        b@ == button_view(ButtonStyle::Success, id@, label@),
{
    styled(id, label, ButtonStyle::Success)
}

/// A danger (red) button.
pub fn button_danger(id: &str, label: &str) -> (b: Button)
    ensures
        b@ == button_view(ButtonStyle::Danger, id@, label@),
{
    styled(id, label, ButtonStyle::Danger)
}

/// A button that opens `url`.
pub fn button_link(url: &str, label: &str) -> (b: Button)
    ensures
        b@ == link_view(url@, label@),
{
    Button { kind: ButtonKind::Link { url: url.to_owned() }, label: label.to_owned(), disabled: false }
}

impl Button {
    /// The same button, disabled or enabled.
    pub fn disabled(self, disabled: bool) -> (b: Button)
        ensures
            b@ == (ButtonView { disabled, ..self@ }),
    {
        Button { disabled, ..self }
    }
}

/// A row of buttons.
pub fn buttons(row: Vec<Button>) -> (r: ActionRow)
    ensures
        r@ == ActionRowView::Buttons(buttons_view(row@)),
{
    ActionRow::Buttons(row)
}

/// A row holding a string select menu.
pub fn select_row(id: &str, options: Vec<SelectOption>) -> (r: ActionRow)
    ensures
        r@ == ActionRowView::SelectMenu(SelectMenuView { custom_id: id@, options: options_view(options@) }),
{
    ActionRow::SelectMenu(select(id, options))
}

/// A string select menu.
pub fn select(id: &str, options: Vec<SelectOption>) -> (m: SelectMenu)
    ensures
        m@ == (SelectMenuView { custom_id: id@, options: options_view(options@) }),
{
    SelectMenu { custom_id: id.to_owned(), options }
}

/// A select option.
pub fn option(label: &str, value: &str) -> (o: SelectOption)
    ensures
        o@ == option_view(label@, value@),
{
    SelectOption { label: label.to_owned(), value: value.to_owned(), description: None, emoji: None }
}

impl SelectOption {
    /// The same option, with a description.
    pub fn description(self, description: &str) -> (o: SelectOption)
        ensures
            o@ == (SelectOptionView { description: Some(description@), ..self@ }),
    {
        SelectOption { description: Some(description.to_owned()), ..self }
    }

    /// The same option, with a Unicode emoji.
    pub fn emoji(self, emoji: &str) -> (o: SelectOption)
        ensures
            o@ == (SelectOptionView { emoji: Some(emoji@), ..self@ }),
    {
        SelectOption { emoji: Some(emoji.to_owned()), ..self }
    }
}

/// A one-line text input.
pub fn text_short(id: &str, label: &str) -> (t: InputText)
    ensures
        t@ == input_view(InputTextStyle::Short, id@, label@),
{
    InputText {
        style: InputTextStyle::Short,
        label: label.to_owned(),
        custom_id: id.to_owned(),
        placeholder: None,
        required: true,
        min_length: None,
        max_length: None,
    }
}

/// A multi-line text input.
pub fn text_paragraph(id: &str, label: &str) -> (t: InputText)
    ensures
        t@ == input_view(InputTextStyle::Paragraph, id@, label@),
{
    InputText {
        style: InputTextStyle::Paragraph,
        label: label.to_owned(),
        custom_id: id.to_owned(),
        placeholder: None,
        required: true,
        min_length: None,
        max_length: None,
    }
}

impl InputText {
    /// The same input, with a placeholder.
    pub fn placeholder(self, placeholder: &str) -> (t: InputText)
        ensures
            t@ == (InputTextView { placeholder: Some(placeholder@), ..self@ }),
    {
        InputText { placeholder: Some(placeholder.to_owned()), ..self }
    }

    /// The same input, required or optional.
    pub fn required(self, required: bool) -> (t: InputText)
        ensures
            t@ == (InputTextView { required, ..self@ }),
    {
        InputText { required, ..self }
    }

    /// The same input, with a minimum length.
    pub fn min_length(self, min: u16) -> (t: InputText)
        ensures
            t@ == (InputTextView { min_length: Some(min), ..self@ }),
    {
        InputText { min_length: Some(min), ..self }
    }

    /// The same input, with a maximum length.
    pub fn max_length(self, max: u16) -> (t: InputText)
        ensures
            t@ == (InputTextView { max_length: Some(max), ..self@ }),
    {
        InputText { max_length: Some(max), ..self }
    }
}

} // verus!

//! `/setup`: asks for the Roblox group the server ranks in.

use vstd::prelude::*;
use crate::components::{self, InputText, InputTextStyle, InputTextView, input_view};
use crate::embeds::{self, Embed, EmbedView, error_view};
use crate::error::{CmdError, CmdErrorView};
use crate::flow::{QuickModal, QuickModalView, Reply, ReplyView, Target, shows_error};
use crate::helper::{Message, add_embed, response_base};
use crate::text::{
    int_text, lemma_i64_text_parses_back, lemma_nat_text_is_digits, nat_text, parse_i64, parsed_i64,
    trim, trim_end_seq, trim_start_seq, trimmed,
};

verus! {

/// The first capture group (numbered `group`) of the leftmost match of the
/// regular expression `pattern` in `text`, as the `regex` crate finds it;
/// `None` when the pattern does not compile, nothing matches, or the group
/// takes no part in the match.
pub uninterp spec fn regex_capture(pattern: Seq<char>, text: Seq<char>, group: usize) -> Option<Seq<char>>;

/// Compiles `pattern` with `regex::Regex::new` and returns capture group
/// `group` of the leftmost match in `text`, as `Regex::captures` and
/// `Captures::get` give it.
#[verifier::external_body]
fn capture(pattern: &str, text: &str, group: usize) -> (r: Option<String>)
    ensures
        match r {
            Some(s) => regex_capture(pattern@, text@, group) == Some(s@),
            None => regex_capture(pattern@, text@, group) is None,
        },
{
    let re = match regex::Regex::new(pattern) {
        Ok(re) => re,
        Err(_) => return None,
    };
    match re.captures(text) {
        Some(c) => match c.get(group) {
            Some(m) => Some(m.as_str().to_string()),
            None => None,
        },
        None => None,
    }
}

/// The pattern of a Roblox community URL, capturing the group id.
pub open spec fn community_pattern() -> Seq<char> {
    "roblox\\.com/communities/(\\d+)"@
}

/// The error embed for an identifier that is neither a URL nor an integer.
pub open spec fn unparsable_group_error() -> EmbedView {
    error_view(""@, "Failed to parse the group identifier\u{2014}make sure it's a url or integer."@)
}

/// The error embed for a group that Roblox does not give.
pub open spec fn unfetched_group_error() -> EmbedView {
    error_view(""@, "Failed to fetch the group\u{2014}make sure it exists."@)
}

/// The group id that an input gives, once the URL pattern has been tried:
/// the captured digits of a community URL, else the whole input without
/// surrounding white space, read as an `i64`; otherwise the error embed to
/// show.
pub open spec fn group_id_outcome(captured: Option<Seq<char>>, input: Seq<char>) -> Result<i64, EmbedView> {
    let text = match captured {
        Some(d) => d,
        None => trimmed(input),
    };
    match parsed_i64(text) {
        Some(id) => Ok(id),
        None => Err(unparsable_group_error()),
    }
}

pub open spec fn result_view(r: Result<i64, Embed>) -> Result<i64, EmbedView> {
    match r {
        Ok(id) => Ok(id),
        Err(e) => Err(e@),
    }
}

/// Reads the group id, given what the URL pattern captured from `input`.
pub fn group_id_from(captured: Option<String>, input: &str) -> (r: Result<i64, Embed>)
    ensures
        result_view(r) == group_id_outcome(match captured { Some(d) => Some(d@), None => None }, input@),
{
    let parsed = match captured {
        Some(d) => parse_i64(d.as_str()),
        None => {
            let t = trim(input);
            parse_i64(t.as_str())
        },
    };
    match parsed {
        Some(id) => Ok(id),
        None => Err(embeds::error(
            "",
            "Failed to parse the group identifier\u{2014}make sure it's a url or integer.",
        )),
    }
}

/// Reads a Roblox group id from a community URL or a plain integer.
pub fn parse_group_id(input: &str) -> (r: Result<i64, Embed>)
    ensures
        result_view(r) == group_id_outcome(regex_capture(community_pattern(), input@, 1), input@),
{
    let captured = capture("roblox\\.com/communities/(\\d+)", input, 1);
    group_id_from(captured, input)
}

/// The modal that asks for the group.
pub open spec fn group_modal() -> QuickModalView {
    QuickModalView {
        title: "Setup"@,
        timeout_secs: 180,
        inputs: seq![InputTextView {
            placeholder: Some("A Roblox group ID or URL"@),
            required: true,
            max_length: Some(10),
            ..input_view(InputTextStyle::Short, "setup::group_id"@, "Group Identifier"@)
        }],
    }
}

/// Where `/setup` stands.
#[derive(Debug)]
pub enum SetupState {
    Prompting,
    FetchingGroup,
    /// An error was shown in answer to the modal; the command ends as handled.
    Closing,
    Finished,
}

/// What happened since the last step of `/setup`.
#[derive(Debug)]
pub enum SetupEvent {
    Failed(CmdError),
    /// The modal's answers, or `None` on timeout.
    ModalAnswered(Option<Vec<String>>),
    /// Whether the group could be fetched from Roblox.
    GroupFetched(bool),
    /// The reply was sent.
    Done,
}

/// What `/setup` does next.
#[derive(Debug)]
pub enum SetupAction {
    AskModal(QuickModal),
    FetchGroup { group_id: i64 },
    Reply(Reply),
    Finish(Result<(), CmdError>),
}

pub enum SetupStateView {
    Prompting,
    FetchingGroup,
    Closing,
    Finished,
}

pub enum SetupEventView {
    Failed(CmdErrorView),
    ModalAnswered(Option<Seq<Seq<char>>>),
    GroupFetched(bool),
    Done,
}

pub enum SetupActionView {
    AskModal(QuickModalView),
    FetchGroup { group_id: i64 },
    Reply(ReplyView),
    Finish(Result<(), CmdErrorView>),
}

impl View for SetupState {
    type V = SetupStateView;

    open spec fn view(&self) -> SetupStateView {
        match self {
            SetupState::Prompting => SetupStateView::Prompting,
            SetupState::FetchingGroup => SetupStateView::FetchingGroup,
            SetupState::Closing => SetupStateView::Closing,
            SetupState::Finished => SetupStateView::Finished,
        }
    }
}

impl View for SetupEvent {
    type V = SetupEventView;

    open spec fn view(&self) -> SetupEventView {
        match self {
            SetupEvent::Failed(e) => SetupEventView::Failed(e@),
            SetupEvent::ModalAnswered(v) => SetupEventView::ModalAnswered(match v {
                Some(v) => Some(crate::text::views(v@)),
                None => None,
            }),
            SetupEvent::GroupFetched(b) => SetupEventView::GroupFetched(*b),
            SetupEvent::Done => SetupEventView::Done,
        }
    }
}

impl View for SetupAction {
    type V = SetupActionView;

    open spec fn view(&self) -> SetupActionView {
        match self {
            SetupAction::AskModal(m) => SetupActionView::AskModal(m@),
            SetupAction::FetchGroup { group_id } => SetupActionView::FetchGroup { group_id: *group_id },
            SetupAction::Reply(r) => SetupActionView::Reply(r@),
            SetupAction::Finish(r) => SetupActionView::Finish(match r { Ok(()) => Ok(()), Err(e) => Err(e@) }),
        }
    }
}

/// The event is one the state waits for; the modal answers its input.
pub open spec fn setup_expects(s: SetupStateView, e: SetupEventView) -> bool {
    match e {
        SetupEventView::Failed(_) => !(s is Finished),
        SetupEventView::ModalAnswered(v) => s is Prompting && (v matches Some(v) ==> v.len() >= 1),
        SetupEventView::GroupFetched(_) => s is FetchingGroup,
        SetupEventView::Done => s is Closing,
    }
}

/// An error embed in answer to the modal, after which the command ends as
/// handled (the slash command's own response was spent on the modal).
pub open spec fn setup_refusal(e: EmbedView) -> (SetupStateView, SetupActionView) {
    (SetupStateView::Closing, SetupActionView::Reply(ReplyView::Respond(Target::Modal, add_embed(response_base(), e))))
}

/// One step of `/setup`.
pub open spec fn setup_next(s: SetupStateView, e: SetupEventView) -> (SetupStateView, SetupActionView) {
    match e {
        SetupEventView::Failed(err) => (SetupStateView::Finished, SetupActionView::Finish(Err(err))),
        SetupEventView::ModalAnswered(None) => (SetupStateView::Finished, SetupActionView::Finish(Err(CmdErrorView::Timeout))),
        SetupEventView::ModalAnswered(Some(v)) => match group_id_outcome(regex_capture(community_pattern(), v[0], 1), v[0]) {
            Ok(id) => (SetupStateView::FetchingGroup, SetupActionView::FetchGroup { group_id: id }),
            Err(embed) => setup_refusal(embed),
        },
        SetupEventView::GroupFetched(true) => (SetupStateView::Finished, SetupActionView::Finish(Ok(()))),
        SetupEventView::GroupFetched(false) => setup_refusal(unfetched_group_error()),
        SetupEventView::Done => (SetupStateView::Finished, SetupActionView::Finish(Err(CmdErrorView::Handled))),
    }
}

/// After the modal, every error is shown in answer to the modal before the
/// command ends, and it then ends as handled: no step ends `/setup` with an
/// `Embed` error, and a step ends it as `Handled` only from the closing state,
/// which is entered only with an error reply to the modal.
pub proof fn lemma_setup_errors_answer_the_modal(s: SetupStateView, e: SetupEventView)
    requires
        setup_expects(s, e),
    ensures
        !(e is Failed) ==> !(setup_next(s, e).1 matches SetupActionView::Finish(Err(CmdErrorView::Embed(_)))),
        setup_next(s, e).1 == SetupActionView::Finish(Err(CmdErrorView::Handled)) ==> (s is Closing || e == SetupEventView::Failed(CmdErrorView::Handled)),
        setup_next(s, e).0 is Closing ==> (setup_next(s, e).1 matches SetupActionView::Reply(r) && r is Respond && r->Respond_0 == Target::Modal && shows_error(r)),
{
}

/// Starts `/setup`: asks for the group in a modal.
pub fn setup() -> (r: (SetupState, SetupAction))
    ensures
        r.0@ == SetupStateView::Prompting,
        r.1@ == SetupActionView::AskModal(group_modal()),
{
    let mut inputs: Vec<InputText> = Vec::new();
    inputs.push(
        components::text_short("setup::group_id", "Group Identifier")
            .placeholder("A Roblox group ID or URL")
            .required(true)
            .max_length(10),
    );
    let m = QuickModal { title: "Setup".to_owned(), timeout_secs: 180, inputs };
    assert(m@.inputs =~= group_modal().inputs);
    (SetupState::Prompting, SetupAction::AskModal(m))
}

/// One step of `/setup`.
pub fn setup_step(state: SetupState, event: SetupEvent) -> (r: (SetupState, SetupAction))
    requires
        setup_expects(state@, event@),
    ensures
        (r.0@, r.1@) == setup_next(state@, event@),
{
    match event {
        SetupEvent::Failed(err) => (SetupState::Finished, SetupAction::Finish(Err(err))),
        SetupEvent::ModalAnswered(None) => (SetupState::Finished, SetupAction::Finish(Err(CmdError::Timeout))),
        SetupEvent::ModalAnswered(Some(v)) => match parse_group_id(v[0].as_str()) {
            Ok(id) => (SetupState::FetchingGroup, SetupAction::FetchGroup { group_id: id }),
            Err(embed) => refuse(embed),
        },
        SetupEvent::GroupFetched(found) => {
            if found {
                (SetupState::Finished, SetupAction::Finish(Ok(())))
            } else {
                refuse(embeds::error("", "Failed to fetch the group\u{2014}make sure it exists."))
            }
        },
        SetupEvent::Done => (SetupState::Finished, SetupAction::Finish(Err(CmdError::Handled))),
    }
}

fn refuse(e: Embed) -> (r: (SetupState, SetupAction))
    ensures
        (r.0@, r.1@) == setup_refusal(e@),
{
    (SetupState::Closing, SetupAction::Reply(Reply::Respond(Target::Modal, Message::for_response().embed(e))))
}


/// The group id is read back as written: the decimal text of any `i64`, typed
/// as the identifier, gives that id; digits captured from a community URL give
/// the id they spell, whatever else the input holds; and the step that takes
/// the modal's answer then fetches exactly that group.
pub proof fn lemma_group_ids_read_back(n: i64, input: Seq<char>, v: Seq<Seq<char>>)
    ensures
        group_id_outcome(None, int_text(n as int)) == Ok::<i64, EmbedView>(n),
        n >= 0 ==> group_id_outcome(Some(nat_text(n as nat)), input) == Ok::<i64, EmbedView>(n),
        v.len() >= 1 && v[0] == int_text(n as int) && regex_capture(community_pattern(), v[0], 1) is None ==> setup_next(
            SetupStateView::Prompting,
            SetupEventView::ModalAnswered(Some(v)),
        ) == (SetupStateView::FetchingGroup, SetupActionView::FetchGroup { group_id: n }),
        v.len() >= 1 && n >= 0 && regex_capture(community_pattern(), v[0], 1) == Some(nat_text(n as nat)) ==> setup_next(
            SetupStateView::Prompting,
            SetupEventView::ModalAnswered(Some(v)),
        ) == (SetupStateView::FetchingGroup, SetupActionView::FetchGroup { group_id: n }),
{
    let t = int_text(n as int);
    lemma_i64_text_parses_back(n);
    if n >= 0 {
        lemma_nat_text_is_digits(n as nat);
        assert(parsed_i64(nat_text(n as nat)) == Some(n));
        assert(crate::text::is_ascii_digit(t[0]));
        assert(crate::text::is_ascii_digit(t.last()));
    } else {
        let m = (-(n as int)) as nat;
        lemma_nat_text_is_digits(m);
        assert(t[0] == '-');
        assert(t.last() == nat_text(m).last());
        assert(crate::text::is_ascii_digit(nat_text(m)[nat_text(m).len() - 1]));
    }
    assert(trim_start_seq(t) == t);
    assert(trim_end_seq(t) == t);
}

} // verus!

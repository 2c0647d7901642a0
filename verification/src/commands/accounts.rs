//! `/accounts view` and `/accounts create`: list, inspect, re-authenticate and
//! add the Roblox accounts that rank members.

use vstd::prelude::*;
use crate::components::{
    self, ActionRow, ActionRowView, Button, ButtonStyle, InputText, InputTextStyle, InputTextView,
    SelectMenuView, SelectOption, SelectOptionView, button_view, input_view, options_view,
};
use crate::embeds::{
    self, EmbedView, error_view, figure_space, info_view, not_found_view, success_view, with_field,
};
use crate::emojis::{Emoji, emoji_markup, use_emoji};
use crate::error::{CmdError, CmdErrorView};
use crate::flow::{
    new_message_is_ephemeral, shows_error,
    Click, ClickView, ClickWait, ClickWaitView, Modal, ModalView, QuickModal, QuickModalView, Reply,
    ReplyView, RobloxUser, RobloxUserView, Target, click_wait, opt_user_view,
    wait_for_click,
};
use crate::helper::{
    Message, MessageView, add_embed, any_update_base, response_base, rows_view, set_components,
    set_ephemeral,
};
use crate::model::{
    AccountRecord, AccountView, RankerAccount, RankerView, accounts_view, find_ranker_by_id,
    find_ranker_by_name, lemma_ranker_with_id_finds_first, ranker_named_like, ranker_with_id, rankers_view,
};
use crate::text::{equals, join, joined, lowercase, nat_text, u128_text, views};

verus! {

// ---- the account listing ------------------------------------------------------

/// The select option of an account: its name, and the group count and age of
/// its ranker when the ranker is logged in.
pub open spec fn account_option(a: AccountView, rs: Seq<RankerView>) -> SelectOptionView {
    match ranker_with_id(rs, a.roblox_id) {
        Some(r) => SelectOptionView {
            label: a.roblox_name,
            value: a.roblox_name,
            description: Some("Groups: "@ + nat_text(r.group_count) + " | Age: "@ + r.created),
            emoji: Some("\u{2705}"@),
        },
        None => SelectOptionView {
            label: a.roblox_name,
            value: a.roblox_name,
            description: Some("Groups: N/A | Age: N/A"@),
            emoji: Some("\u{274c}"@),
        },
    }
}

/// The status line of an account: connected (with the ranker's name and
/// group count) or not.
pub open spec fn account_line(a: AccountView, rs: Seq<RankerView>) -> Seq<char> {
    match ranker_with_id(rs, a.roblox_id) {
        Some(r) => emoji_markup(Emoji::Tick) + figure_space() + "`"@ + r.name + "` `["@ + nat_text(r.group_count) + "]`"@,
        None => emoji_markup(Emoji::Cross) + figure_space() + "`"@ + a.roblox_name + "` `["@ + "N/A"@ + "]`"@,
    }
}

pub open spec fn listing_lines(accs: Seq<AccountView>, rs: Seq<RankerView>) -> Seq<Seq<char>> {
    accs.map_values(|a: AccountView| account_line(a, rs))
}

pub open spec fn listing_options(accs: Seq<AccountView>, rs: Seq<RankerView>) -> Seq<SelectOptionView> {
    accs.map_values(|a: AccountView| account_option(a, rs))
}

/// How many status lines go in the left column: the first half (rounded up)
/// of the number of logged-in rankers, at most all accounts.
pub open spec fn left_count(accounts: nat, rankers: nat) -> nat {
    let half = (rankers + 1) / 2;
    if accounts < half { accounts } else { half }
}

/// The embed listing all accounts in two columns.
pub open spec fn listing_embed(accs: Seq<AccountView>, rs: Seq<RankerView>) -> EmbedView {
    let lines = listing_lines(accs, rs);
    let k = left_count(accs.len(), rs.len()) as int;
    with_field(
        with_field(
            info_view("Account Manager"@, "Showing all "@ + nat_text(accs.len()) + " ranker accounts."@),
            "Accounts"@,
            joined(lines.take(k), "\n"@),
            true,
        ),
        "\u{200b}"@,
        joined(lines.skip(k), "\n"@),
        true,
    )
}

/// The listing with the account selector under it.
pub open spec fn listing_message(accs: Seq<AccountView>, rs: Seq<RankerView>) -> MessageView {
    set_ephemeral(
        set_components(
            add_embed(response_base(), listing_embed(accs, rs)),
            seq![ActionRowView::SelectMenu(SelectMenuView {
                custom_id: "accounts::selector"@,
                options: listing_options(accs, rs),
            })],
        ),
        true,
    )
}

fn account_option_exec(acc: &AccountRecord, rankers: &Vec<RankerAccount>) -> (o: SelectOption)
    ensures
        o@ == account_option(acc@, rankers_view(rankers@)),
{
    let opt = components::option(acc.roblox_name.as_str(), acc.roblox_name.as_str());
    match find_ranker_by_id(rankers, acc.roblox_id) {
        Some(r) => {
            let mut d = "Groups: ".to_owned();
            let n = u128_text(r.groups.len() as u128);
            d.append(n.as_str());
            d.append(" | Age: ");
            d.append(r.roblox.created.as_str());
            opt.description(d.as_str()).emoji("\u{2705}")
        },
        None => opt.description("Groups: N/A | Age: N/A").emoji("\u{274c}"),
    }
}

fn account_line_exec(acc: &AccountRecord, rankers: &Vec<RankerAccount>) -> (s: String)
    ensures
        s@ == account_line(acc@, rankers_view(rankers@)),
{
    match find_ranker_by_id(rankers, acc.roblox_id) {
        Some(r) => {
            let mut s = use_emoji(Emoji::Tick);
            s.append("\u{2007}");
            s.append("`");
            s.append(r.roblox.name.as_str());
            s.append("` `[");
            let n = u128_text(r.groups.len() as u128);
            s.append(n.as_str());
            s.append("]`");
            s
        },
        None => {
            let mut s = use_emoji(Emoji::Cross);
            s.append("\u{2007}");
            s.append("`");
            s.append(acc.roblox_name.as_str());
            s.append("` `[");
            s.append("N/A");
            s.append("]`");
            s
        },
    }
}

/// The listing message of `/accounts view` without a name: one status line per
/// account in two columns, and a selector with one option per account.
pub fn account_listing(accounts: &Vec<AccountRecord>, rankers: &Vec<RankerAccount>) -> (m: Message)
    ensures
        m@ == listing_message(accounts_view(accounts@), rankers_view(rankers@)),
{
    let ghost accs = accounts_view(accounts@);
    let ghost rs = rankers_view(rankers@);
    let ghost lines = listing_lines(accs, rs);
    let n = accounts.len();
    let rn = rankers.len();
    let half = rn / 2 + rn % 2;
    let mut options: Vec<SelectOption> = Vec::new();
    let mut left: Vec<String> = Vec::new();
    let mut right: Vec<String> = Vec::new();
    let mut i: usize = 0;
    while i < n
        invariant
            n == accounts@.len(),
            accs == accounts_view(accounts@),
            rs == rankers_view(rankers@),
            lines == listing_lines(accs, rs),
            half == (rs.len() + 1) / 2,
            i <= n,
            options_view(options@) == listing_options(accs, rs).take(i as int),
            views(left@) == lines.take(if i < half { i as int } else { half as int }),
            views(right@) == (if i < half { Seq::<Seq<char>>::empty() } else { lines.subrange(half as int, i as int) }),
        decreases n - i,
    {
        let o = account_option_exec(&accounts[i], rankers);
        let l = account_line_exec(&accounts[i], rankers);
        let ghost old_left = views(left@);
        let ghost old_right = views(right@);
        assert(accs[i as int] == accounts@[i as int]@);
        assert(listing_options(accs, rs)[i as int] == o@);
        assert(lines[i as int] == l@);
        let ghost old_opts = options_view(options@);
        options.push(o);
        assert(options_view(options@) =~= old_opts.push(listing_options(accs, rs)[i as int]));
        assert(listing_options(accs, rs).take(i + 1) =~= listing_options(accs, rs).take(i as int).push(listing_options(accs, rs)[i as int]));
        if i < half {
            left.push(l);
            assert(views(left@) =~= old_left.push(l@));
            assert(lines.take(i + 1) =~= lines.take(i as int).push(lines[i as int]));
        } else {
            right.push(l);
            assert(views(right@) =~= old_right.push(l@));
            assert(lines.subrange(half as int, i + 1) =~= lines.subrange(half as int, i as int).push(lines[i as int]));
        }
        i = i + 1;
    }
    let k: usize = if n < half { n } else { half };
    assert(views(left@) =~= lines.take(k as int));
    assert(views(right@) =~= lines.skip(k as int));
    assert(options_view(options@) =~= listing_options(accs, rs));
    let left_text = join(&left, "\n");
    let right_text = join(&right, "\n");
    let mut d = "Showing all ".to_owned();
    let count = u128_text(n as u128);
    d.append(count.as_str());
    d.append(" ranker accounts.");
    let info = embeds::info("Account Manager", d.as_str())
        .field("Accounts", left_text.as_str(), true)
        .field("\u{200b}", right_text.as_str(), true);
    let menu = components::select("accounts::selector", options);
    let m = Message::for_response().embed(info).select_menu(menu).ephemeral(true);
    m
}


/// The listing covers every account once, in order: one selector option per
/// account, labelled and valued by its name, and the two columns together
/// hold exactly one status line per account.
pub proof fn lemma_listing_covers_accounts(accs: Seq<AccountView>, rs: Seq<RankerView>)
    ensures
        listing_options(accs, rs).len() == accs.len(),
        forall|i: int| 0 <= i < accs.len() ==> (#[trigger] listing_options(accs, rs)[i]).label == accs[i].roblox_name
            && listing_options(accs, rs)[i].value == accs[i].roblox_name,
        listing_lines(accs, rs).len() == accs.len(),
        listing_lines(accs, rs).take(left_count(accs.len(), rs.len()) as int)
            + listing_lines(accs, rs).skip(left_count(accs.len(), rs.len()) as int) == listing_lines(accs, rs),
{
    let lines = listing_lines(accs, rs);
    let k = left_count(accs.len(), rs.len()) as int;
    assert(lines.take(k) + lines.skip(k) =~= lines);
}

// ---- `/accounts view` -------------------------------------------------------------

/// Where `/accounts view` stands.
#[derive(Debug)]
pub enum ViewState {
    /// Fetching all stored accounts.
    Listing,
    /// Showing the listing.
    ShowingList,
    /// Waiting for an account to be chosen in the selector.
    Selecting,
    /// Searching for the account whose name contains `name`; answers go to `target`.
    Finding { target: Target, name: String },
    /// Showing an account's panel, or a secret of it.
    Showing { account: AccountRecord },
    /// Waiting for a click on the account's panel.
    Browsing { account: AccountRecord },
    /// Opening the modal for a new cookie.
    OpeningModal { account: AccountRecord },
    /// Waiting for the new cookie.
    AwaitingModal { account: AccountRecord },
    /// Logging in to Roblox with the new cookie.
    Authenticating { account: AccountRecord, cookie: String },
    /// Saving the new cookie; `name` is the Roblox name it logged in as.
    Saving { name: String },
    /// Sending a last message; then the command ends, with `Handled` when
    /// that message reported an error.
    Closing { handled: bool },
    Finished,
}

/// What happened since the last step of `/accounts view`.
#[derive(Debug)]
pub enum ViewEvent {
    Done,
    Failed(CmdError),
    /// All stored accounts.
    AccountsListed(Vec<AccountRecord>),
    /// The first stored account whose name contains the search term.
    AccountFound(Option<AccountRecord>),
    /// The click waited for, or `None` on timeout.
    Clicked(Option<Click>),
    /// The modal was not submitted in time.
    ModalTimedOut,
    /// The modal was submitted, with the value of its first input if any.
    ModalSubmitted(Option<String>),
    /// The Roblox user the cookie logs in as, or `None` when it does not.
    Authenticated(Option<RobloxUser>),
}

/// What `/accounts view` does next.
#[derive(Debug)]
pub enum ViewAction {
    FetchAccounts,
    /// Fetch the first stored account whose name contains `name`, ignoring case.
    FindAccount { name: String },
    Reply(Reply),
    AwaitClick(ClickWait),
    AwaitModal { timeout_secs: u64 },
    Authenticate { cookie: String },
    /// Write this account (same row id) back to the store.
    SaveAccount(AccountRecord),
    Finish(Result<(), CmdError>),
}

pub enum ViewStateView {
    Listing,
    ShowingList,
    Selecting,
    Finding { target: Target, name: Seq<char> },
    Showing { account: AccountView },
    Browsing { account: AccountView },
    OpeningModal { account: AccountView },
    AwaitingModal { account: AccountView },
    Authenticating { account: AccountView, cookie: Seq<char> },
    Saving { name: Seq<char> },
    Closing { handled: bool },
    Finished,
}

pub enum ViewEventView {
    Done,
    Failed(CmdErrorView),
    AccountsListed(Seq<AccountView>),
    AccountFound(Option<AccountView>),
    Clicked(Option<ClickView>),
    ModalTimedOut,
    ModalSubmitted(Option<Seq<char>>),
    Authenticated(Option<RobloxUserView>),
}

pub enum ViewActionView {
    FetchAccounts,
    FindAccount { name: Seq<char> },
    Reply(ReplyView),
    AwaitClick(ClickWaitView),
    AwaitModal { timeout_secs: u64 },
    Authenticate { cookie: Seq<char> },
    SaveAccount(AccountView),
    Finish(Result<(), CmdErrorView>),
}

impl View for ViewState {
    type V = ViewStateView;

    open spec fn view(&self) -> ViewStateView {
        match self {
            ViewState::Listing => ViewStateView::Listing,
            ViewState::ShowingList => ViewStateView::ShowingList,
            ViewState::Selecting => ViewStateView::Selecting,
            ViewState::Finding { target, name } => ViewStateView::Finding { target: *target, name: name@ },
            ViewState::Showing { account } => ViewStateView::Showing { account: account@ },
            ViewState::Browsing { account } => ViewStateView::Browsing { account: account@ },
            ViewState::OpeningModal { account } => ViewStateView::OpeningModal { account: account@ },
            ViewState::AwaitingModal { account } => ViewStateView::AwaitingModal { account: account@ },
            ViewState::Authenticating { account, cookie } => ViewStateView::Authenticating { account: account@, cookie: cookie@ },
            ViewState::Saving { name } => ViewStateView::Saving { name: name@ },
            ViewState::Closing { handled } => ViewStateView::Closing { handled: *handled },
            ViewState::Finished => ViewStateView::Finished,
        }
    }
}

impl View for ViewEvent {
    type V = ViewEventView;

    open spec fn view(&self) -> ViewEventView {
        match self {
            ViewEvent::Done => ViewEventView::Done,
            ViewEvent::Failed(e) => ViewEventView::Failed(e@),
            ViewEvent::AccountsListed(a) => ViewEventView::AccountsListed(accounts_view(a@)),
            ViewEvent::AccountFound(a) => ViewEventView::AccountFound(match a { Some(a) => Some(a@), None => None }),
            ViewEvent::Clicked(c) => ViewEventView::Clicked(match c { Some(c) => Some(c@), None => None }),
            ViewEvent::ModalTimedOut => ViewEventView::ModalTimedOut,
            ViewEvent::ModalSubmitted(v) => ViewEventView::ModalSubmitted(match v { Some(v) => Some(v@), None => None }),
            ViewEvent::Authenticated(u) => ViewEventView::Authenticated(opt_user_view(*u)),
        }
    }
}

impl View for ViewAction {
    type V = ViewActionView;

    open spec fn view(&self) -> ViewActionView {
        match self {
            ViewAction::FetchAccounts => ViewActionView::FetchAccounts,
            ViewAction::FindAccount { name } => ViewActionView::FindAccount { name: name@ },
            ViewAction::Reply(r) => ViewActionView::Reply(r@),
            ViewAction::AwaitClick(w) => ViewActionView::AwaitClick(w@),
            ViewAction::AwaitModal { timeout_secs } => ViewActionView::AwaitModal { timeout_secs: *timeout_secs },
            ViewAction::Authenticate { cookie } => ViewActionView::Authenticate { cookie: cookie@ },
            ViewAction::SaveAccount(a) => ViewActionView::SaveAccount(a@),
            ViewAction::Finish(r) => ViewActionView::Finish(match r { Ok(()) => Ok(()), Err(e) => Err(e@) }),
        }
    }
}

/// A new ephemeral message holding one embed.
pub open spec fn respond_embed(e: EmbedView) -> MessageView {
    add_embed(response_base(), e)
}

/// The connection field of an account's panel: the ranker whose name contains
/// the search term, if any, with its creation date and group count.
pub open spec fn connection_field(ranker: Option<RankerView>) -> (Seq<char>, Seq<char>) {
    match ranker {
        Some(r) => (
            "Connection: "@ + emoji_markup(Emoji::Tick),
            "**Creation Date:** "@ + r.created + "\n**Groups:** "@ + nat_text(r.group_count),
        ),
        None => ("Connection: "@ + emoji_markup(Emoji::Cross), "**Creation Date:** N/A\n**Groups:** N/A"@),
    }
}

/// The panel of an account, with its three buttons.
pub open spec fn account_panel(a: AccountView, ranker: Option<RankerView>) -> MessageView {
    set_components(
        add_embed(
            any_update_base(),
            with_field(
                info_view("Account Manager"@, "Showing information for ranker account: `"@ + a.roblox_name + "`."@),
                connection_field(ranker).0,
                connection_field(ranker).1,
                false,
            ),
        ),
        seq![ActionRowView::Buttons(seq![
            button_view(ButtonStyle::Secondary, "accounts::0::view_password"@, "View Password"@),
            button_view(ButtonStyle::Secondary, "accounts::0::view_cookie"@, "View Cookie"@),
            button_view(ButtonStyle::Danger, "accounts::0::change_cookie"@, "Change Cookie"@),
        ])],
    )
}

/// A message that reveals one secret of an account.
pub open spec fn secret_message(what: Seq<char>, account_name: Seq<char>, secret: Seq<char>) -> MessageView {
    respond_embed(with_field(
        info_view("Account Manager"@, what + " for `"@ + account_name + "`"@),
        what,
        "```"@ + secret + "```"@,
        false,
    ))
}

/// The modal that asks for a new cookie.
pub open spec fn cookie_modal() -> ModalView {
    ModalView {
        custom_id: "accounts::change_cookie::modal"@,
        title: "Change Cookie"@,
        inputs: seq![InputTextView {
            placeholder: Some("The new .ROBLOSECURITY cookie"@),
            required: true,
            ..input_view(InputTextStyle::Paragraph, "accounts::change_cookie::cookie"@, "Security Cookie"@)
        }],
    }
}

/// The wait for a click on the command's response message.
pub open spec fn panel_wait() -> ClickWaitView {
    click_wait(120, true, None)
}

/// How `/accounts view` begins: with a name, straight to that account;
/// without, to the listing.
pub open spec fn view_begin(name: Option<Seq<char>>) -> (ViewStateView, ViewActionView) {
    match name {
        Some(n) => (ViewStateView::Finding { target: Target::Command, name: n }, ViewActionView::FindAccount { name: n }),
        None => (ViewStateView::Listing, ViewActionView::FetchAccounts),
    }
}

/// The event is one the state waits for; a click on the selector carries a
/// chosen value.
pub open spec fn view_expects(s: ViewStateView, e: ViewEventView) -> bool {
    match e {
        ViewEventView::Failed(_) => !(s is Finished),
        ViewEventView::Done => s is ShowingList || s is Showing || s is OpeningModal || s is Saving || s is Closing,
        ViewEventView::AccountsListed(_) => s is Listing,
        ViewEventView::AccountFound(_) => s is Finding,
        ViewEventView::Clicked(c) => s is Browsing || (s is Selecting && (c matches Some(c) ==> c.values.len() > 0)),
        ViewEventView::ModalTimedOut => s is AwaitingModal,
        ViewEventView::ModalSubmitted(_) => s is AwaitingModal,
        ViewEventView::Authenticated(_) => s is Authenticating,
    }
}

/// One step of `/accounts view`, given the logged-in rankers.
pub open spec fn view_next(rs: Seq<RankerView>, s: ViewStateView, e: ViewEventView) -> (ViewStateView, ViewActionView) {
    match e {
        ViewEventView::Failed(err) => (ViewStateView::Finished, ViewActionView::Finish(Err(err))),
        _ => match s {
            ViewStateView::Listing => match e {
                ViewEventView::AccountsListed(accs) => if accs.len() == 0 {
                    (
                        ViewStateView::Closing { handled: true },
                        ViewActionView::Reply(ReplyView::Respond(
                            Target::Command,
                            respond_embed(error_view("Account Manager"@, "No accounts could be found in the database."@)),
                        )),
                    )
                } else {
                    (ViewStateView::ShowingList, ViewActionView::Reply(ReplyView::Respond(Target::Command, listing_message(accs, rs))))
                },
                _ => (s, ViewActionView::Finish(Ok(()))),
            },
            ViewStateView::ShowingList => (ViewStateView::Selecting, ViewActionView::AwaitClick(panel_wait())),
            ViewStateView::Selecting => match e {
                ViewEventView::Clicked(Some(c)) => (
                    ViewStateView::Finding { target: Target::Component, name: c.values[0] },
                    ViewActionView::FindAccount { name: c.values[0] },
                ),
                _ => (ViewStateView::Finished, ViewActionView::Finish(Ok(()))),
            },
            ViewStateView::Finding { target, name } => match e {
                ViewEventView::AccountFound(Some(a)) => (
                    ViewStateView::Showing { account: a },
                    ViewActionView::Reply(ReplyView::Update(target, account_panel(a, ranker_named_like(rs, name)))),
                ),
                _ => (
                    ViewStateView::Closing { handled: true },
                    ViewActionView::Reply(ReplyView::Update(
                        target,
                        add_embed(any_update_base(), not_found_view("Account"@, lowercase("Account"@), Some(name))),
                    )),
                ),
            },
            ViewStateView::Showing { account } =>
                (ViewStateView::Browsing { account }, ViewActionView::AwaitClick(panel_wait())),
            ViewStateView::Browsing { account } => match e {
                ViewEventView::Clicked(Some(c)) => if c.custom_id == "accounts::0::view_password"@ {
                    (
                        ViewStateView::Showing { account },
                        ViewActionView::Reply(ReplyView::Respond(
                            Target::Component,
                            secret_message("Password"@, account.roblox_name, account.password),
                        )),
                    )
                } else if c.custom_id == "accounts::0::view_cookie"@ {
                    (
                        ViewStateView::Showing { account },
                        ViewActionView::Reply(ReplyView::Respond(
                            Target::Component,
                            secret_message("Cookie"@, account.roblox_name, account.cookie),
                        )),
                    )
                } else if c.custom_id == "accounts::0::change_cookie"@ {
                    (ViewStateView::OpeningModal { account }, ViewActionView::Reply(ReplyView::ShowModal(Target::Component, cookie_modal())))
                } else {
                    (ViewStateView::Browsing { account }, ViewActionView::AwaitClick(panel_wait()))
                },
                _ => (ViewStateView::Finished, ViewActionView::Finish(Ok(()))),
            },
            ViewStateView::OpeningModal { account } =>
                (ViewStateView::AwaitingModal { account }, ViewActionView::AwaitModal { timeout_secs: 300 }),
            ViewStateView::AwaitingModal { account } => match e {
                ViewEventView::ModalSubmitted(v) => {
                    let cookie = match v { Some(c) => c, None => Seq::empty() };
                    (ViewStateView::Authenticating { account, cookie }, ViewActionView::Authenticate { cookie })
                },
                _ => (ViewStateView::Finished, ViewActionView::Finish(Err(CmdErrorView::Timeout))),
            },
            ViewStateView::Authenticating { account, cookie } => match e {
                ViewEventView::Authenticated(Some(u)) => if u.id != account.roblox_id {
                    (
                        ViewStateView::Closing { handled: true },
                        ViewActionView::Reply(ReplyView::Respond(
                            Target::Modal,
                            respond_embed(error_view(""@, "The authenticated user does not match this account."@)),
                        )),
                    )
                } else {
                    (ViewStateView::Saving { name: u.name }, ViewActionView::SaveAccount(AccountView { cookie, ..account }))
                },
                _ => (
                    ViewStateView::Closing { handled: true },
                    ViewActionView::Reply(ReplyView::Respond(
                        Target::Modal,
                        respond_embed(error_view(""@, "Failed to authenticate with the cookie provided."@)),
                    )),
                ),
            },
            ViewStateView::Saving { name } => (
                ViewStateView::Closing { handled: false },
                ViewActionView::Reply(ReplyView::Respond(
                    Target::Modal,
                    respond_embed(success_view("Account Manager"@, "Cookie updated successfully for `"@ + name + "`."@)),
                )),
            ),
            ViewStateView::Closing { handled } => (
                ViewStateView::Finished,
                ViewActionView::Finish(if handled { Err(CmdErrorView::Handled) } else { Ok(()) }),
            ),
            ViewStateView::Finished => (s, ViewActionView::Finish(Ok(()))),
        },
    }
}


/// The step saves the account in `s` with the submitted cookie after it logged in as that account.
pub open spec fn saves_checked_cookie(rs: Seq<RankerView>, s: ViewStateView, e: ViewEventView) -> bool {
    &&& s matches ViewStateView::Authenticating { account, cookie }
    &&& e matches ViewEventView::Authenticated(Some(u))
    &&& u.id == account.roblox_id
    &&& view_next(rs, s, e).1 == ViewActionView::SaveAccount(AccountView { cookie, ..account })
}

/// A new cookie is saved only after it logged in to Roblox as the very
/// account it is saved for, and the saved row is the old one with only the
/// cookie replaced by the submitted one.
pub proof fn lemma_cookie_saved_only_when_it_matches(rs: Seq<RankerView>, s: ViewStateView, e: ViewEventView)
    requires
        view_expects(s, e),
        view_next(rs, s, e).1 is SaveAccount,
    ensures
        saves_checked_cookie(rs, s, e),
{
}

/// A failed action ends `/accounts view` with that very error.
pub proof fn lemma_view_failure_propagates(rs: Seq<RankerView>, s: ViewStateView, err: CmdErrorView)
    ensures
        view_next(rs, s, ViewEventView::Failed(err)) == (ViewStateView::Finished, ViewActionView::Finish(Err(err))),
{
}

/// `/accounts view` ends with `Handled` only after showing an error embed,
/// and every new message it sends (secrets included) is ephemeral.
pub open spec fn view_reply_rules(rs: Seq<RankerView>, s: ViewStateView, e: ViewEventView) -> bool {
    &&& view_next(rs, s, e).0 == (ViewStateView::Closing { handled: true }) ==> (view_next(rs, s, e).1 matches ViewActionView::Reply(r) && shows_error(r))
    &&& view_next(rs, s, e).1 == ViewActionView::Finish(Err(CmdErrorView::Handled)) ==> (s == (ViewStateView::Closing { handled: true })
        || e == ViewEventView::Failed(CmdErrorView::Handled))
    &&& view_next(rs, s, e).1 matches ViewActionView::Reply(r) ==> new_message_is_ephemeral(r)
}

/// `/accounts view` ends with `Handled` only after it has itself shown an
/// error embed; every new message it sends, the revealed password and cookie
/// among them, is ephemeral.
pub proof fn lemma_view_replies(rs: Seq<RankerView>, s: ViewStateView, e: ViewEventView)
    requires
        view_expects(s, e),
    ensures
        view_reply_rules(rs, s, e),
{
}

fn three_button_row(a: Button, b: Button, c: Button) -> (rows: Vec<ActionRow>)
    ensures
        rows_view(rows@) == seq![ActionRowView::Buttons(seq![a@, b@, c@])],
{
    let mut row: Vec<Button> = Vec::new();
    row.push(a);
    row.push(b);
    row.push(c);
    assert(components::buttons_view(row@) =~= seq![a@, b@, c@]);
    let mut rows: Vec<ActionRow> = Vec::new();
    rows.push(components::buttons(row));
    assert(rows_view(rows@) =~= seq![ActionRowView::Buttons(seq![a@, b@, c@])]);
    rows
}

fn account_panel_msg(account: &AccountRecord, rankers: &Vec<RankerAccount>, name: &str) -> (m: Message)
    ensures
        m@ == account_panel(account@, ranker_named_like(rankers_view(rankers@), name@)),
{
    let ghost field = connection_field(ranker_named_like(rankers_view(rankers@), name@));
    let (title, value) = match find_ranker_by_name(rankers, name) {
        Some(r) => {
            let mut t = "Connection: ".to_owned();
            let e = use_emoji(Emoji::Tick);
            t.append(e.as_str());
            let mut v = "**Creation Date:** ".to_owned();
            v.append(r.roblox.created.as_str());
            v.append("\n**Groups:** ");
            let n = u128_text(r.groups.len() as u128);
            v.append(n.as_str());
            (t, v)
        },
        None => {
            let mut t = "Connection: ".to_owned();
            let e = use_emoji(Emoji::Cross);
            t.append(e.as_str());
            (t, "**Creation Date:** N/A\n**Groups:** N/A".to_owned())
        },
    };
    assert(title@ == field.0 && value@ == field.1);
    let mut d = "Showing information for ranker account: `".to_owned();
    d.append(account.roblox_name.as_str());
    d.append("`.");
    let e = embeds::info("Account Manager", d.as_str()).field(title.as_str(), value.as_str(), false);
    let rows = three_button_row(
        components::button_secondary("accounts::0::view_password", "View Password"),
        components::button_secondary("accounts::0::view_cookie", "View Cookie"),
        components::button_danger("accounts::0::change_cookie", "Change Cookie"),
    );
    Message::for_any_update().embed(e).components(rows)
}

fn secret_msg(what: &str, account_name: &str, secret: &str) -> (m: Message)
    ensures
        m@ == secret_message(what@, account_name@, secret@),
{
    let mut d = what.to_owned();
    d.append(" for `");
    d.append(account_name);
    d.append("`");
    let mut v = "```".to_owned();
    v.append(secret);
    v.append("```");
    Message::for_response().embed(embeds::info("Account Manager", d.as_str()).field(what, v.as_str(), false))
}

fn cookie_modal_exec() -> (m: Modal)
    ensures
        m@ == cookie_modal(),
{
    let input = components::text_paragraph("accounts::change_cookie::cookie", "Security Cookie")
        .placeholder("The new .ROBLOSECURITY cookie")
        .required(true);
    let mut inputs: Vec<InputText> = Vec::new();
    inputs.push(input);
    let m = Modal { custom_id: "accounts::change_cookie::modal".to_owned(), title: "Change Cookie".to_owned(), inputs };
    assert(m@.inputs =~= cookie_modal().inputs);
    m
}

fn respond_error(target: Target, text: &str) -> (r: Reply)
    ensures
        r@ == ReplyView::Respond(target, respond_embed(error_view(""@, text@))),
{
    Reply::Respond(target, Message::for_response().embed(embeds::error("", text)))
}

/// Starts `/accounts view`: with `name`, that account's panel; without, the
/// listing of all accounts.
pub fn view(name: Option<String>) -> (r: (ViewState, ViewAction))
    ensures
        (r.0@, r.1@) == view_begin(match name { Some(n) => Some(n@), None => None }),
{
    match name {
        Some(n) => {
            let query = n.clone();
            (ViewState::Finding { target: Target::Command, name: n }, ViewAction::FindAccount { name: query })
        },
        None => (ViewState::Listing, ViewAction::FetchAccounts),
    }
}

/// One step of `/accounts view`, given the logged-in rankers.
pub fn view_step(rankers: &Vec<RankerAccount>, state: ViewState, event: ViewEvent) -> (r: (ViewState, ViewAction))
    requires
        view_expects(state@, event@),
    ensures
        (r.0@, r.1@) == view_next(rankers_view(rankers@), state@, event@),
{
    if let ViewEvent::Failed(err) = event {
        return (ViewState::Finished, ViewAction::Finish(Err(err)));
    }
    match state {
        ViewState::Listing => match event {
            ViewEvent::AccountsListed(accounts) => {
                if accounts.len() == 0 {
                    let m = Message::for_response()
                        .embed(embeds::error("Account Manager", "No accounts could be found in the database."));
                    (ViewState::Closing { handled: true }, ViewAction::Reply(Reply::Respond(Target::Command, m)))
                } else {
                    let m = account_listing(&accounts, rankers);
                    (ViewState::ShowingList, ViewAction::Reply(Reply::Respond(Target::Command, m)))
                }
            },
            _ => (ViewState::Finished, ViewAction::Finish(Ok(()))),
        },
        ViewState::ShowingList => (ViewState::Selecting, ViewAction::AwaitClick(wait_for_click(120, true, None))),
        ViewState::Selecting => match event {
            ViewEvent::Clicked(Some(c)) => {
                let name = c.values[0].clone();
                let query = c.values[0].clone();
                (ViewState::Finding { target: Target::Component, name }, ViewAction::FindAccount { name: query })
            },
            _ => (ViewState::Finished, ViewAction::Finish(Ok(()))),
        },
        ViewState::Finding { target, name } => match event {
            ViewEvent::AccountFound(Some(account)) => {
                let m = account_panel_msg(&account, rankers, name.as_str());
                (ViewState::Showing { account }, ViewAction::Reply(Reply::Update(target, m)))
            },
            _ => {
                let m = Message::for_any_update().embed(embeds::not_found("Account", Some(name.as_str())));
                (ViewState::Closing { handled: true }, ViewAction::Reply(Reply::Update(target, m)))
            },
        },
        ViewState::Showing { account } => (
            ViewState::Browsing { account },
            ViewAction::AwaitClick(wait_for_click(120, true, None)),
        ),
        ViewState::Browsing { account } => match event {
            ViewEvent::Clicked(Some(c)) => {
                if equals(c.custom_id.as_str(), "accounts::0::view_password") {
                    let m = secret_msg("Password", account.roblox_name.as_str(), account.password.as_str());
                    (ViewState::Showing { account }, ViewAction::Reply(Reply::Respond(Target::Component, m)))
                } else if equals(c.custom_id.as_str(), "accounts::0::view_cookie") {
                    let m = secret_msg("Cookie", account.roblox_name.as_str(), account.cookie.as_str());
                    (ViewState::Showing { account }, ViewAction::Reply(Reply::Respond(Target::Component, m)))
                } else if equals(c.custom_id.as_str(), "accounts::0::change_cookie") {
                    (ViewState::OpeningModal { account }, ViewAction::Reply(Reply::ShowModal(Target::Component, cookie_modal_exec())))
                } else {
                    (ViewState::Browsing { account }, ViewAction::AwaitClick(wait_for_click(120, true, None)))
                }
            },
            _ => (ViewState::Finished, ViewAction::Finish(Ok(()))),
        },
        ViewState::OpeningModal { account } => (ViewState::AwaitingModal { account }, ViewAction::AwaitModal { timeout_secs: 300 }),
        ViewState::AwaitingModal { account } => match event {
            ViewEvent::ModalSubmitted(v) => {
                let cookie = match v {
                    Some(c) => c,
                    None => String::new(),
                };
                let sent = cookie.clone();
                (ViewState::Authenticating { account, cookie }, ViewAction::Authenticate { cookie: sent })
            },
            _ => (ViewState::Finished, ViewAction::Finish(Err(CmdError::Timeout))),
        },
        ViewState::Authenticating { account, cookie } => match event {
            ViewEvent::Authenticated(Some(u)) => {
                if u.id != account.roblox_id {
                    (
                        ViewState::Closing { handled: true },
                        ViewAction::Reply(respond_error(Target::Modal, "The authenticated user does not match this account.")),
                    )
                } else {
                    let updated = AccountRecord { cookie, ..account };
                    (ViewState::Saving { name: u.name }, ViewAction::SaveAccount(updated))
                }
            },
            _ => (
                ViewState::Closing { handled: true },
                ViewAction::Reply(respond_error(Target::Modal, "Failed to authenticate with the cookie provided.")),
            ),
        },
        ViewState::Saving { name } => {
            let mut d = "Cookie updated successfully for `".to_owned();
            d.append(name.as_str());
            d.append("`.");
            let m = Message::for_response().embed(embeds::success("Account Manager", d.as_str()));
            (ViewState::Closing { handled: false }, ViewAction::Reply(Reply::Respond(Target::Modal, m)))
        },
        ViewState::Closing { handled } => {
            if handled {
                (ViewState::Finished, ViewAction::Finish(Err(CmdError::Handled)))
            } else {
                (ViewState::Finished, ViewAction::Finish(Ok(())))
            }
        },
        ViewState::Finished => (ViewState::Finished, ViewAction::Finish(Ok(()))),
    }
}


// ---- `/accounts create` ------------------------------------------------------------

/// A ranker account to add; the store gives it a row id.
#[derive(Debug)]
pub struct NewAccount {
    pub roblox_id: i64,
    pub roblox_name: String,
    pub password: String,
    pub cookie: String,
}

pub struct NewAccountView {
    pub roblox_id: i64,
    pub roblox_name: Seq<char>,
    pub password: Seq<char>,
    pub cookie: Seq<char>,
}

impl View for NewAccount {
    type V = NewAccountView;

    open spec fn view(&self) -> NewAccountView {
        NewAccountView {
            roblox_id: self.roblox_id,
            roblox_name: self.roblox_name@,
            password: self.password@,
            cookie: self.cookie@,
        }
    }
}

/// Where `/accounts create` stands.
#[derive(Debug)]
pub enum CreateState {
    /// Waiting for the modal with cookie, password and username.
    Prompting,
    /// Looking up the named Roblox user.
    LookingUp { cookie: String, password: String, username: String },
    /// Checking whether that user is stored already.
    CheckingDuplicate { cookie: String, password: String, user: RobloxUser },
    /// Logging in to Roblox with the cookie.
    Authenticating { cookie: String, password: String, user: RobloxUser },
    /// Storing the account; `name` is the looked-up user's name.
    Inserting { name: String },
    Closing { handled: bool },
    Finished,
}

/// What happened since the last step of `/accounts create`.
#[derive(Debug)]
pub enum CreateEvent {
    Done,
    Failed(CmdError),
    /// The modal's answers in the order of its inputs, or `None` on timeout.
    ModalAnswered(Option<Vec<String>>),
    /// The Roblox user with the given name, if any.
    UserFound(Option<RobloxUser>),
    /// Whether an account with that Roblox id is stored already.
    Exists(bool),
    /// The Roblox user the cookie logs in as, or `None` when it does not.
    Authenticated(Option<RobloxUser>),
}

/// What `/accounts create` does next.
#[derive(Debug)]
pub enum CreateAction {
    AskModal(QuickModal),
    FindUser { username: String },
    CheckStored { roblox_id: i64 },
    Authenticate { cookie: String },
    Insert(NewAccount),
    Reply(Reply),
    Finish(Result<(), CmdError>),
}

pub enum CreateStateView {
    Prompting,
    LookingUp { cookie: Seq<char>, password: Seq<char>, username: Seq<char> },
    CheckingDuplicate { cookie: Seq<char>, password: Seq<char>, user: RobloxUserView },
    Authenticating { cookie: Seq<char>, password: Seq<char>, user: RobloxUserView },
    Inserting { name: Seq<char> },
    Closing { handled: bool },
    Finished,
}

pub enum CreateEventView {
    Done,
    Failed(CmdErrorView),
    ModalAnswered(Option<Seq<Seq<char>>>),
    UserFound(Option<RobloxUserView>),
    Exists(bool),
    Authenticated(Option<RobloxUserView>),
}

pub enum CreateActionView {
    AskModal(QuickModalView),
    FindUser { username: Seq<char> },
    CheckStored { roblox_id: i64 },
    Authenticate { cookie: Seq<char> },
    Insert(NewAccountView),
    Reply(ReplyView),
    Finish(Result<(), CmdErrorView>),
}

impl View for CreateState {
    type V = CreateStateView;

    open spec fn view(&self) -> CreateStateView {
        match self {
            CreateState::Prompting => CreateStateView::Prompting,
            CreateState::LookingUp { cookie, password, username } =>
                CreateStateView::LookingUp { cookie: cookie@, password: password@, username: username@ },
            CreateState::CheckingDuplicate { cookie, password, user } =>
                CreateStateView::CheckingDuplicate { cookie: cookie@, password: password@, user: user@ },
            CreateState::Authenticating { cookie, password, user } =>
                CreateStateView::Authenticating { cookie: cookie@, password: password@, user: user@ },
            CreateState::Inserting { name } => CreateStateView::Inserting { name: name@ },
            CreateState::Closing { handled } => CreateStateView::Closing { handled: *handled },
            CreateState::Finished => CreateStateView::Finished,
        }
    }
}

impl View for CreateEvent {
    type V = CreateEventView;

    open spec fn view(&self) -> CreateEventView {
        match self {
            CreateEvent::Done => CreateEventView::Done,
            CreateEvent::Failed(e) => CreateEventView::Failed(e@),
            CreateEvent::ModalAnswered(v) => CreateEventView::ModalAnswered(match v { Some(v) => Some(views(v@)), None => None }),
            CreateEvent::UserFound(u) => CreateEventView::UserFound(opt_user_view(*u)),
            CreateEvent::Exists(b) => CreateEventView::Exists(*b),
            CreateEvent::Authenticated(u) => CreateEventView::Authenticated(opt_user_view(*u)),
        }
    }
}

impl View for CreateAction {
    type V = CreateActionView;

    open spec fn view(&self) -> CreateActionView {
        match self {
            CreateAction::AskModal(m) => CreateActionView::AskModal(m@),
            CreateAction::FindUser { username } => CreateActionView::FindUser { username: username@ },
            CreateAction::CheckStored { roblox_id } => CreateActionView::CheckStored { roblox_id: *roblox_id },
            CreateAction::Authenticate { cookie } => CreateActionView::Authenticate { cookie: cookie@ },
            CreateAction::Insert(a) => CreateActionView::Insert(a@),
            CreateAction::Reply(r) => CreateActionView::Reply(r@),
            CreateAction::Finish(r) => CreateActionView::Finish(match r { Ok(()) => Ok(()), Err(e) => Err(e@) }),
        }
    }
}

/// The modal of `/accounts create`: cookie, password (exactly fifty
/// characters) and username, all required.
pub open spec fn create_modal() -> QuickModalView {
    QuickModalView {
        title: "Create Account"@,
        timeout_secs: 300,
        inputs: seq![
            InputTextView {
                placeholder: Some("The .ROBLOSECURITY cookie of the account"@),
                required: true,
                ..input_view(InputTextStyle::Paragraph, "accounts::create::cookie"@, "Security Cookie"@)
            },
            InputTextView {
                placeholder: Some("The password used to login to this account"@),
                required: true,
                min_length: Some(50),
                max_length: Some(50),
                ..input_view(InputTextStyle::Short, "accounts::create::password"@, "Account Password"@)
            },
            InputTextView {
                placeholder: Some("The username of this account"@),
                required: true,
                ..input_view(InputTextStyle::Short, "accounts::create::username"@, "Account Username"@)
            },
        ],
    }
}

/// How `/accounts create` begins: by asking for the account in a modal.
pub open spec fn create_begin() -> (CreateStateView, CreateActionView) {
    (CreateStateView::Prompting, CreateActionView::AskModal(create_modal()))
}

/// The event is one the state waits for; the modal answers all three inputs.
pub open spec fn create_expects(s: CreateStateView, e: CreateEventView) -> bool {
    match e {
        CreateEventView::Failed(_) => !(s is Finished),
        CreateEventView::Done => s is Inserting || s is Closing,
        CreateEventView::ModalAnswered(v) => s is Prompting && (v matches Some(v) ==> v.len() >= 3),
        CreateEventView::UserFound(_) => s is LookingUp,
        CreateEventView::Exists(_) => s is CheckingDuplicate,
        CreateEventView::Authenticated(_) => s is Authenticating,
    }
}

/// An error embed in answer to the modal, after which the command ends as handled.
pub open spec fn create_refusal(e: EmbedView) -> (CreateStateView, CreateActionView) {
    (CreateStateView::Closing { handled: true }, CreateActionView::Reply(ReplyView::Respond(Target::Modal, respond_embed(e))))
}

/// One step of `/accounts create`.
pub open spec fn create_next(s: CreateStateView, e: CreateEventView) -> (CreateStateView, CreateActionView) {
    match e {
        CreateEventView::Failed(err) => (CreateStateView::Finished, CreateActionView::Finish(Err(err))),
        _ => match s {
            CreateStateView::Prompting => match e {
                CreateEventView::ModalAnswered(Some(v)) => (
                    CreateStateView::LookingUp { cookie: v[0], password: v[1], username: v[2] },
                    CreateActionView::FindUser { username: v[2] },
                ),
                _ => (CreateStateView::Finished, CreateActionView::Finish(Err(CmdErrorView::Timeout))),
            },
            CreateStateView::LookingUp { cookie, password, username } => match e {
                CreateEventView::UserFound(Some(user)) => (
                    CreateStateView::CheckingDuplicate { cookie, password, user },
                    CreateActionView::CheckStored { roblox_id: user.id },
                ),
                _ => create_refusal(not_found_view("User"@, lowercase("User"@), Some(username))),
            },
            CreateStateView::CheckingDuplicate { cookie, password, user } => match e {
                CreateEventView::Exists(false) => (
                    CreateStateView::Authenticating { cookie, password, user },
                    CreateActionView::Authenticate { cookie },
                ),
                _ => create_refusal(error_view(
                    "Account Manager"@,
                    "The account `"@ + user.name + "` has already been added."@,
                )),
            },
            CreateStateView::Authenticating { cookie, password, user } => match e {
                CreateEventView::Authenticated(Some(auth)) => if auth.id != user.id {
                    create_refusal(error_view(""@, "The authenticated user did not match the one provided."@))
                } else {
                    (
                        CreateStateView::Inserting { name: user.name },
                        CreateActionView::Insert(NewAccountView {
                            roblox_id: auth.id,
                            roblox_name: auth.name,
                            password,
                            cookie,
                        }),
                    )
                },
                _ => create_refusal(error_view(""@, "Failed to authenticate with the cookie provided."@)),
            },
            CreateStateView::Inserting { name } => (
                CreateStateView::Closing { handled: false },
                CreateActionView::Reply(ReplyView::Respond(
                    Target::Modal,
                    respond_embed(success_view(
                        "Account Manager"@,
                        "Successfully stored the credentials for account: `"@ + name + "`"@,
                    )),
                )),
            ),
            CreateStateView::Closing { handled } => (
                CreateStateView::Finished,
                CreateActionView::Finish(if handled { Err(CmdErrorView::Handled) } else { Ok(()) }),
            ),
            CreateStateView::Finished => (s, CreateActionView::Finish(Ok(()))),
        },
    }
}

/// The step stores the looked-up user's account with the modal's password and cookie after the cookie logged in as that user.
pub open spec fn inserts_checked_account(s: CreateStateView, e: CreateEventView) -> bool {
    &&& s matches CreateStateView::Authenticating { cookie, password, user }
    &&& e matches CreateEventView::Authenticated(Some(auth))
    &&& auth.id == user.id
    &&& create_next(s, e).1 == CreateActionView::Insert(NewAccountView { roblox_id: auth.id, roblox_name: auth.name, password, cookie })
}

/// An account is stored only after its cookie logged in to Roblox as the user
/// named in the modal, and it is stored with that id and name and the
/// password and cookie from the modal.
pub proof fn lemma_insert_requires_login(s: CreateStateView, e: CreateEventView)
    requires
        create_expects(s, e),
        create_next(s, e).1 is Insert,
    ensures
        inserts_checked_account(s, e),
{
}

/// The cookie is tried only once the store was found to hold no account with
/// the user's Roblox id.
pub proof fn lemma_login_after_duplicate_check(s: CreateStateView, e: CreateEventView)
    requires
        create_expects(s, e),
        create_next(s, e).0 is Authenticating,
    ensures
        s is CheckingDuplicate,
        e == CreateEventView::Exists(false),
{
}

/// A failed action ends `/accounts create` with that very error.
pub proof fn lemma_create_failure_propagates(s: CreateStateView, err: CmdErrorView)
    ensures
        create_next(s, CreateEventView::Failed(err)) == (CreateStateView::Finished, CreateActionView::Finish(Err(err))),
{
}

/// `/accounts create` ends with `Handled` only after showing an error embed,
/// and every new message it sends is ephemeral.
pub open spec fn create_reply_rules(s: CreateStateView, e: CreateEventView) -> bool {
    &&& create_next(s, e).0 == (CreateStateView::Closing { handled: true }) ==> (create_next(s, e).1 matches CreateActionView::Reply(r) && shows_error(r))
    &&& create_next(s, e).1 == CreateActionView::Finish(Err(CmdErrorView::Handled)) ==> (s == (CreateStateView::Closing { handled: true })
        || e == CreateEventView::Failed(CmdErrorView::Handled))
    &&& create_next(s, e).1 matches CreateActionView::Reply(r) ==> new_message_is_ephemeral(r)
}

/// `/accounts create` ends with `Handled` only after it has itself shown an
/// error embed; every new message it sends is ephemeral.
pub proof fn lemma_create_replies(s: CreateStateView, e: CreateEventView)
    requires
        create_expects(s, e),
    ensures
        create_reply_rules(s, e),
{
}

fn create_modal_exec() -> (m: QuickModal)
    ensures
        m@ == create_modal(),
{
    let mut inputs: Vec<InputText> = Vec::new();
    inputs.push(
        components::text_paragraph("accounts::create::cookie", "Security Cookie")
            .placeholder("The .ROBLOSECURITY cookie of the account")
            .required(true),
    );
    inputs.push(
        components::text_short("accounts::create::password", "Account Password")
            .placeholder("The password used to login to this account")
            .required(true)
            .min_length(50)
            .max_length(50),
    );
    inputs.push(
        components::text_short("accounts::create::username", "Account Username")
            .placeholder("The username of this account")
            .required(true),
    );
    let m = QuickModal { title: "Create Account".to_owned(), timeout_secs: 300, inputs };
    assert(m@.inputs =~= create_modal().inputs);
    m
}

fn refuse(e: embeds::Embed) -> (r: (CreateState, CreateAction))
    ensures
        (r.0@, r.1@) == create_refusal(e@),
{
    (
        CreateState::Closing { handled: true },
        CreateAction::Reply(Reply::Respond(Target::Modal, Message::for_response().embed(e))),
    )
}

/// Starts `/accounts create`.
pub fn create() -> (r: (CreateState, CreateAction))
    ensures
        (r.0@, r.1@) == create_begin(),
{
    (CreateState::Prompting, CreateAction::AskModal(create_modal_exec()))
}

/// One step of `/accounts create`.
pub fn create_step(state: CreateState, event: CreateEvent) -> (r: (CreateState, CreateAction))
    requires
        create_expects(state@, event@),
    ensures
        (r.0@, r.1@) == create_next(state@, event@),
{
    if let CreateEvent::Failed(err) = event {
        return (CreateState::Finished, CreateAction::Finish(Err(err)));
    }
    match state {
        CreateState::Prompting => match event {
            CreateEvent::ModalAnswered(Some(v)) => {
                let cookie = v[0].clone();
                let password = v[1].clone();
                let username = v[2].clone();
                let query = v[2].clone();
                (CreateState::LookingUp { cookie, password, username }, CreateAction::FindUser { username: query })
            },
            _ => (CreateState::Finished, CreateAction::Finish(Err(CmdError::Timeout))),
        },
        CreateState::LookingUp { cookie, password, username } => match event {
            CreateEvent::UserFound(Some(user)) => {
                let id = user.id;
                (CreateState::CheckingDuplicate { cookie, password, user }, CreateAction::CheckStored { roblox_id: id })
            },
            _ => refuse(embeds::not_found("User", Some(username.as_str()))),
        },
        CreateState::CheckingDuplicate { cookie, password, user } => match event {
            CreateEvent::Exists(false) => {
                let sent = cookie.clone();
                (CreateState::Authenticating { cookie, password, user }, CreateAction::Authenticate { cookie: sent })
            },
            _ => {
                let mut d = "The account `".to_owned();
                d.append(user.name.as_str());
                d.append("` has already been added.");
                refuse(embeds::error("Account Manager", d.as_str()))
            },
        },
        CreateState::Authenticating { cookie, password, user } => match event {
            CreateEvent::Authenticated(Some(auth)) => {
                if auth.id != user.id {
                    refuse(embeds::error("", "The authenticated user did not match the one provided."))
                } else {
                    let account = NewAccount { roblox_id: auth.id, roblox_name: auth.name, password, cookie };
                    (CreateState::Inserting { name: user.name }, CreateAction::Insert(account))
                }
            },
            _ => refuse(embeds::error("", "Failed to authenticate with the cookie provided.")),
        },
        CreateState::Inserting { name } => {
            let mut d = "Successfully stored the credentials for account: `".to_owned();
            d.append(name.as_str());
            d.append("`");
            let m = Message::for_response().embed(embeds::success("Account Manager", d.as_str()));
            (CreateState::Closing { handled: false }, CreateAction::Reply(Reply::Respond(Target::Modal, m)))
        },
        CreateState::Closing { handled } => {
            if handled {
                (CreateState::Finished, CreateAction::Finish(Err(CmdError::Handled)))
            } else {
                (CreateState::Finished, CreateAction::Finish(Ok(())))
            }
        },
        CreateState::Finished => (CreateState::Finished, CreateAction::Finish(Ok(()))),
    }
}


/// The action answers the clicked panel with a new ephemeral message of one
/// embed whose only field is named `what` and shows `secret` in a code block.
pub open spec fn reveals_secret(a: ViewActionView, what: Seq<char>, secret: Seq<char>) -> bool {
    &&& a matches ViewActionView::Reply(ReplyView::Respond(Target::Component, m))
    &&& m.ephemeral
    &&& m.embeds.len() == 1
    &&& m.embeds[0].fields.len() == 1
    &&& m.embeds[0].fields[0].name == what
    &&& m.embeds[0].fields[0].value == "```"@ + secret + "```"@
}

/// On an account's panel, "View Password" reveals that account's stored
/// password and "View Cookie" its stored cookie, each in a field named after
/// the secret; the panel then shows the same account again.
pub proof fn lemma_panel_reveals_stored_secrets(rs: Seq<RankerView>, account: AccountView, c: ClickView)
    ensures
        c.custom_id == "accounts::0::view_password"@ ==> {
            let r = view_next(rs, ViewStateView::Browsing { account }, ViewEventView::Clicked(Some(c)));
            r.0 == (ViewStateView::Showing { account }) && reveals_secret(r.1, "Password"@, account.password)
        },
        c.custom_id == "accounts::0::view_cookie"@ ==> {
            let r = view_next(rs, ViewStateView::Browsing { account }, ViewEventView::Clicked(Some(c)));
            r.0 == (ViewStateView::Showing { account }) && reveals_secret(r.1, "Cookie"@, account.cookie)
        },
{
    reveal_strlit("accounts::0::view_password");
    reveal_strlit("accounts::0::view_cookie");
    assert("accounts::0::view_cookie"@[18] != "accounts::0::view_password"@[18]);
}


/// In the listing, an account whose ranker is logged in (some ranker in the
/// list has its Roblox id, wherever it stands) gets the tick, the first such
/// ranker's name and group count, and a ✅ option with that ranker's group
/// count and age; every other account gets the cross, its own name, `N/A`,
/// and a ❌ option.
pub proof fn lemma_listing_marks_logged_in_rankers(accs: Seq<AccountView>, rs: Seq<RankerView>)
    ensures
        forall|i: int| #![trigger accs[i]] 0 <= i < accs.len() && (exists|k: int| 0 <= k < rs.len() && #[trigger] rs[k].id == accs[i].roblox_id)
            ==> exists|k: int| {
                &&& 0 <= k < rs.len()
                &&& #[trigger] rs[k].id == accs[i].roblox_id
                &&& (forall|j: int| 0 <= j < k ==> rs[j].id != accs[i].roblox_id)
                &&& listing_lines(accs, rs)[i] == emoji_markup(Emoji::Tick) + figure_space() + "`"@ + rs[k].name + "` `["@
                    + nat_text(rs[k].group_count) + "]`"@
                &&& listing_options(accs, rs)[i].emoji == Some("\u{2705}"@)
                &&& listing_options(accs, rs)[i].description == Some("Groups: "@ + nat_text(rs[k].group_count) + " | Age: "@ + rs[k].created)
            },
        forall|i: int| #![trigger accs[i]] 0 <= i < accs.len() && !(exists|k: int| 0 <= k < rs.len() && #[trigger] rs[k].id == accs[i].roblox_id)
            ==> listing_lines(accs, rs)[i] == emoji_markup(Emoji::Cross) + figure_space() + "`"@ + accs[i].roblox_name + "` `["@ + "N/A"@ + "]`"@
                && listing_options(accs, rs)[i].emoji == Some("\u{274c}"@)
                && listing_options(accs, rs)[i].description == Some("Groups: N/A | Age: N/A"@),
{
    assert forall|i: int| #![trigger accs[i]] 0 <= i < accs.len() && (exists|k: int| 0 <= k < rs.len() && #[trigger] rs[k].id == accs[i].roblox_id)
        implies exists|k: int| {
                &&& 0 <= k < rs.len()
                &&& #[trigger] rs[k].id == accs[i].roblox_id
                &&& (forall|j: int| 0 <= j < k ==> rs[j].id != accs[i].roblox_id)
                &&& listing_lines(accs, rs)[i] == emoji_markup(Emoji::Tick) + figure_space() + "`"@ + rs[k].name + "` `["@
                    + nat_text(rs[k].group_count) + "]`"@
                &&& listing_options(accs, rs)[i].emoji == Some("\u{2705}"@)
                &&& listing_options(accs, rs)[i].description == Some("Groups: "@ + nat_text(rs[k].group_count) + " | Age: "@ + rs[k].created)
            } by {
        lemma_ranker_with_id_finds_first(rs, accs[i].roblox_id);
        let r = ranker_with_id(rs, accs[i].roblox_id)->0;
        let k = choose|k: int| 0 <= k < rs.len() && #[trigger] rs[k] == r && r.id == accs[i].roblox_id
            && (forall|j: int| 0 <= j < k ==> rs[j].id != accs[i].roblox_id);
        assert(rs[k].id == accs[i].roblox_id);
    }
    assert forall|i: int| #![trigger accs[i]] 0 <= i < accs.len() && !(exists|k: int| 0 <= k < rs.len() && #[trigger] rs[k].id == accs[i].roblox_id)
        implies listing_lines(accs, rs)[i] == emoji_markup(Emoji::Cross) + figure_space() + "`"@ + accs[i].roblox_name + "` `["@ + "N/A"@ + "]`"@
                && listing_options(accs, rs)[i].emoji == Some("\u{274c}"@)
                && listing_options(accs, rs)[i].description == Some("Groups: N/A | Age: N/A"@) by {
        lemma_ranker_with_id_finds_first(rs, accs[i].roblox_id);
    }
}


/// Changing a cookie logs in with exactly the cookie typed into the modal,
/// and, when that login is the panel's account, saves that account's row
/// with the typed cookie and nothing else changed; a login as anyone else
/// saves nothing.
pub proof fn lemma_cookie_change_saves_typed_cookie(rs: Seq<RankerView>, account: AccountView, typed: Seq<char>, u: RobloxUserView)
    ensures
        ({
            let (s1, a1) = view_next(rs, ViewStateView::AwaitingModal { account }, ViewEventView::ModalSubmitted(Some(typed)));
            let a2 = view_next(rs, s1, ViewEventView::Authenticated(Some(u))).1;
            &&& a1 == ViewActionView::Authenticate { cookie: typed }
            &&& u.id == account.roblox_id ==> a2 == ViewActionView::SaveAccount(AccountView { cookie: typed, ..account })
            &&& u.id != account.roblox_id ==> !(a2 is SaveAccount)
        }),
{
}

/// `/accounts create` stores what the modal was given: after the modal's
/// cookie, password and username, it looks up that username, checks that
/// user's id is not stored yet, logs in with that cookie, and, when the login
/// is that user, inserts the logged-in account with the modal's password and
/// cookie; a login as anyone else, or a stored duplicate, inserts nothing.
pub proof fn lemma_create_stores_what_was_typed(
    v: Seq<Seq<char>>,
    user: RobloxUserView,
    auth: RobloxUserView,
    stored: bool,
)
    requires
        v.len() >= 3,
    ensures
        ({
            let (s1, a1) = create_next(CreateStateView::Prompting, CreateEventView::ModalAnswered(Some(v)));
            let (s2, a2) = create_next(s1, CreateEventView::UserFound(Some(user)));
            let (s3, a3) = create_next(s2, CreateEventView::Exists(stored));
            let a4 = create_next(s3, CreateEventView::Authenticated(Some(auth))).1;
            &&& a1 == CreateActionView::FindUser { username: v[2] }
            &&& a2 == CreateActionView::CheckStored { roblox_id: user.id }
            &&& stored ==> !(a3 is Authenticate) && !(a4 is Insert)
            &&& !stored ==> a3 == CreateActionView::Authenticate { cookie: v[0] }
            &&& !stored && auth.id == user.id ==> a4 == CreateActionView::Insert(NewAccountView {
                roblox_id: auth.id,
                roblox_name: auth.name,
                password: v[1],
                cookie: v[0],
            })
            &&& auth.id != user.id ==> !(a4 is Insert)
        }),
{
}

} // verus!

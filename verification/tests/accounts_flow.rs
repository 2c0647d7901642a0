use soldier_core::commands::accounts::{
    account_listing, create, create_step, view, view_step, CreateAction, CreateEvent, CreateState, ViewAction, ViewEvent,
    ViewState,
};
use soldier_core::components::{ActionRow, InputTextStyle};
use soldier_core::embeds::Colour;
use soldier_core::emojis::{use_emoji, Emoji};
use soldier_core::error::CmdError;
use soldier_core::flow::{Click, Reply, RobloxUser, Target};
use soldier_core::model::{AccountRecord, RankerAccount, RankerProfile};

fn account(name: &str, id: i64) -> AccountRecord {
    AccountRecord {
        id: format!("row-{id}"),
        roblox_name: name.to_string(),
        roblox_id: id,
        password: "pw".to_string(),
        cookie: "old-cookie".to_string(),
    }
}

fn ranker(name: &str, id: i64, groups: usize) -> RankerAccount {
    RankerAccount {
        model: account(name, id),
        roblox: RankerProfile { id, name: name.to_string(), created: "01/02/2020".to_string() },
        groups: (0..groups as i64).collect(),
    }
}

#[test]
fn listing_splits_status_lines_by_logged_in_rankers() {
    let accounts = vec![account("alpha", 1), account("beta", 2), account("gamma", 3)];
    let rankers = vec![ranker("alpha", 1, 4)];
    let m = account_listing(&accounts, &rankers);
    assert!(m.ephemeral);
    let e = &m.embeds[0];
    assert!(e.description.ends_with("Showing all 3 ranker accounts."));
    let tick = use_emoji(Emoji::Tick);
    let cross = use_emoji(Emoji::Cross);
    assert_eq!(e.fields[0].name, "Accounts");
    assert_eq!(e.fields[0].value, format!("{tick}\u{2007}`alpha` `[4]`"));
    assert!(e.fields[0].inline);
    assert_eq!(e.fields[1].name, "\u{200b}");
    assert_eq!(e.fields[1].value, format!("{cross}\u{2007}`beta` `[N/A]`\n{cross}\u{2007}`gamma` `[N/A]`"));
    match &m.components.as_ref().unwrap()[0] {
        ActionRow::SelectMenu(menu) => {
            assert_eq!(menu.custom_id, "accounts::selector");
            assert_eq!(menu.options.len(), 3);
            assert_eq!(menu.options[0].description.as_deref(), Some("Groups: 4 | Age: 01/02/2020"));
            assert_eq!(menu.options[0].emoji.as_deref(), Some("\u{2705}"));
            assert_eq!(menu.options[2].value, "gamma");
            assert_eq!(menu.options[2].description.as_deref(), Some("Groups: N/A | Age: N/A"));
            assert_eq!(menu.options[2].emoji.as_deref(), Some("\u{274c}"));
        },
        _ => panic!("a select menu"),
    }
}

#[test]
fn listing_with_no_rankers_puts_everything_right() {
    let accounts = vec![account("alpha", 1), account("beta", 2)];
    let m = account_listing(&accounts, &vec![]);
    assert_eq!(m.embeds[0].fields[0].value, "");
    assert_eq!(m.embeds[0].fields[1].value.lines().count(), 2);
}

#[test]
fn empty_store_is_reported() {
    let (s, a) = view(None);
    assert!(matches!(a, ViewAction::FetchAccounts));
    let (s, a) = view_step(&vec![], s, ViewEvent::AccountsListed(vec![]));
    match a {
        ViewAction::Reply(Reply::Respond(Target::Command, m)) => {
            assert!(m.embeds[0].description.ends_with("No accounts could be found in the database."));
        },
        other => panic!("unexpected {other:?}"),
    }
    let (_, a) = view_step(&vec![], s, ViewEvent::Done);
    assert!(matches!(a, ViewAction::Finish(Err(CmdError::Handled))));
}

#[test]
fn selecting_an_account_shows_its_panel() {
    let rankers = vec![ranker("alphabet", 1, 2)];
    let (s, _) = view(None);
    let (s, _) = view_step(&rankers, s, ViewEvent::AccountsListed(vec![account("alphabet", 1)]));
    let (s, a) = view_step(&rankers, s, ViewEvent::Done);
    assert!(matches!(a, ViewAction::AwaitClick(ref w) if w.timeout_secs == 120 && w.on_command_response && w.id_prefix.is_none()));
    let click = Click { custom_id: "accounts::selector".to_string(), values: vec!["alpha".to_string()] };
    let (s, a) = view_step(&rankers, s, ViewEvent::Clicked(Some(click)));
    assert!(matches!(a, ViewAction::FindAccount { ref name } if name == "alpha"));
    let (s, a) = view_step(&rankers, s, ViewEvent::AccountFound(Some(account("alphabet", 1))));
    match a {
        ViewAction::Reply(Reply::Update(Target::Component, m)) => {
            assert!(m.ephemeral);
            let e = &m.embeds[0];
            assert!(e.description.ends_with("Showing information for ranker account: `alphabet`."));
            assert_eq!(e.fields[0].name, format!("Connection: {}", use_emoji(Emoji::Tick)));
            assert_eq!(e.fields[0].value, "**Creation Date:** 01/02/2020\n**Groups:** 2");
            match &m.components.as_ref().unwrap()[0] {
                ActionRow::Buttons(b) => assert_eq!(b.len(), 3),
                _ => panic!("buttons"),
            }
        },
        other => panic!("unexpected {other:?}"),
    }
    assert!(matches!(s, ViewState::Showing { .. }));
}

#[test]
fn unknown_account_is_not_found() {
    let (s, a) = view(Some("zzz".to_string()));
    assert!(matches!(a, ViewAction::FindAccount { ref name } if name == "zzz"));
    let (s, a) = view_step(&vec![], s, ViewEvent::AccountFound(None));
    match a {
        ViewAction::Reply(Reply::Update(Target::Command, m)) => {
            assert_eq!(m.embeds[0].title, "Account Not Found");
            assert!(m.embeds[0].description.ends_with("The account \u{2192} `zzz` was not found"));
        },
        other => panic!("unexpected {other:?}"),
    }
    let (_, a) = view_step(&vec![], s, ViewEvent::Done);
    assert!(matches!(a, ViewAction::Finish(Err(CmdError::Handled))));
}

#[test]
fn secrets_and_cookie_change() {
    let rankers = vec![];
    let s = ViewState::Browsing { account: account("alpha", 7) };
    let click = |id: &str| ViewEvent::Clicked(Some(Click { custom_id: id.to_string(), values: vec![] }));
    let (s, a) = view_step(&rankers, s, click("accounts::0::view_password"));
    match a {
        ViewAction::Reply(Reply::Respond(Target::Component, m)) => {
            assert!(m.ephemeral);
            assert!(m.embeds[0].description.ends_with("Password for `alpha`"));
            assert_eq!(m.embeds[0].fields[0].value, "```pw```");
        },
        other => panic!("unexpected {other:?}"),
    }
    let (s, _) = view_step(&rankers, s, ViewEvent::Done);
    let (s, a) = view_step(&rankers, s, click("something::else"));
    assert!(matches!(a, ViewAction::AwaitClick(_)));
    let (s, a) = view_step(&rankers, s, click("accounts::0::change_cookie"));
    match a {
        ViewAction::Reply(Reply::ShowModal(Target::Component, modal)) => {
            assert_eq!(modal.custom_id, "accounts::change_cookie::modal");
            assert_eq!(modal.inputs[0].style, InputTextStyle::Paragraph);
        },
        other => panic!("unexpected {other:?}"),
    }
    let (s, a) = view_step(&rankers, s, ViewEvent::Done);
    assert!(matches!(a, ViewAction::AwaitModal { timeout_secs: 300 }));
    let (s, a) = view_step(&rankers, s, ViewEvent::ModalSubmitted(Some("new-cookie".to_string())));
    assert!(matches!(a, ViewAction::Authenticate { ref cookie } if cookie == "new-cookie"));
    let me = RobloxUser { id: 7, name: "alpha".to_string(), display_name: None };
    let (s, a) = view_step(&rankers, s, ViewEvent::Authenticated(Some(me)));
    match a {
        ViewAction::SaveAccount(saved) => {
            assert_eq!(saved.cookie, "new-cookie");
            assert_eq!(saved.id, "row-7");
            assert_eq!(saved.password, "pw");
        },
        other => panic!("unexpected {other:?}"),
    }
    let (s, a) = view_step(&rankers, s, ViewEvent::Done);
    assert!(matches!(a, ViewAction::Reply(Reply::Respond(Target::Modal, ref m)) if m.embeds[0].description.ends_with("Cookie updated successfully for `alpha`.")));
    let (_, a) = view_step(&rankers, s, ViewEvent::Done);
    assert!(matches!(a, ViewAction::Finish(Ok(()))));
}

#[test]
fn cookie_of_another_user_is_refused() {
    let s = ViewState::Authenticating { account: account("alpha", 7), cookie: "c".to_string() };
    let other = RobloxUser { id: 8, name: "beta".to_string(), display_name: None };
    let (s, a) = view_step(&vec![], s, ViewEvent::Authenticated(Some(other)));
    assert!(matches!(a, ViewAction::Reply(Reply::Respond(Target::Modal, ref m))
        if m.embeds[0].description.ends_with("The authenticated user does not match this account.")));
    let (_, a) = view_step(&vec![], s, ViewEvent::Done);
    assert!(matches!(a, ViewAction::Finish(Err(CmdError::Handled))));
    let s = ViewState::AwaitingModal { account: account("alpha", 7) };
    let (_, a) = view_step(&vec![], s, ViewEvent::ModalTimedOut);
    assert!(matches!(a, ViewAction::Finish(Err(CmdError::Timeout))));
    let s = ViewState::AwaitingModal { account: account("alpha", 7) };
    let (_, a) = view_step(&vec![], s, ViewEvent::ModalSubmitted(None));
    assert!(matches!(a, ViewAction::Authenticate { ref cookie } if cookie.is_empty()));
}

fn answers() -> CreateEvent {
    CreateEvent::ModalAnswered(Some(vec!["cookie".to_string(), "p".repeat(50), "alpha".to_string()]))
}

#[test]
fn create_stores_a_verified_account() {
    let (s, a) = create();
    match a {
        CreateAction::AskModal(m) => {
            assert_eq!(m.title, "Create Account");
            assert_eq!(m.timeout_secs, 300);
            assert_eq!(m.inputs.len(), 3);
            assert_eq!((m.inputs[1].min_length, m.inputs[1].max_length), (Some(50), Some(50)));
        },
        other => panic!("unexpected {other:?}"),
    }
    let (s, a) = create_step(s, answers());
    assert!(matches!(a, CreateAction::FindUser { ref username } if username == "alpha"));
    let user = RobloxUser { id: 9, name: "alpha".to_string(), display_name: None };
    let (s, a) = create_step(s, CreateEvent::UserFound(Some(user)));
    assert!(matches!(a, CreateAction::CheckStored { roblox_id: 9 }));
    let (s, a) = create_step(s, CreateEvent::Exists(false));
    assert!(matches!(a, CreateAction::Authenticate { ref cookie } if cookie == "cookie"));
    let auth = RobloxUser { id: 9, name: "Alpha".to_string(), display_name: None };
    let (s, a) = create_step(s, CreateEvent::Authenticated(Some(auth)));
    match a {
        CreateAction::Insert(n) => {
            assert_eq!(n.roblox_id, 9);
            assert_eq!(n.roblox_name, "Alpha");
            assert_eq!(n.password, "p".repeat(50));
            assert_eq!(n.cookie, "cookie");
        },
        other => panic!("unexpected {other:?}"),
    }
    let (s, a) = create_step(s, CreateEvent::Done);
    assert!(matches!(a, CreateAction::Reply(Reply::Respond(Target::Modal, ref m))
        if m.embeds[0].description.ends_with("Successfully stored the credentials for account: `alpha`")
            && m.embeds[0].colour == Colour::DarkGreen));
    let (_, a) = create_step(s, CreateEvent::Done);
    assert!(matches!(a, CreateAction::Finish(Ok(()))));
}

#[test]
fn create_refusals() {
    let (s, _) = create();
    let (s, _) = create_step(s, answers());
    let (s, a) = create_step(s, CreateEvent::UserFound(None));
    assert!(matches!(a, CreateAction::Reply(Reply::Respond(Target::Modal, ref m))
        if m.embeds[0].title == "User Not Found" && m.embeds[0].description.ends_with("The user \u{2192} `alpha` was not found")));
    let (_, a) = create_step(s, CreateEvent::Done);
    assert!(matches!(a, CreateAction::Finish(Err(CmdError::Handled))));

    let user = || RobloxUser { id: 9, name: "alpha".to_string(), display_name: None };
    let s = CreateState::CheckingDuplicate { cookie: "c".into(), password: "p".into(), user: user() };
    let (_, a) = create_step(s, CreateEvent::Exists(true));
    assert!(matches!(a, CreateAction::Reply(Reply::Respond(Target::Modal, ref m))
        if m.embeds[0].description.ends_with("The account `alpha` has already been added.")));

    let s = CreateState::Authenticating { cookie: "c".into(), password: "p".into(), user: user() };
    let (_, a) = create_step(s, CreateEvent::Authenticated(None));
    assert!(matches!(a, CreateAction::Reply(Reply::Respond(Target::Modal, ref m))
        if m.embeds[0].description.ends_with("Failed to authenticate with the cookie provided.")));

    let s = CreateState::Authenticating { cookie: "c".into(), password: "p".into(), user: user() };
    let other = RobloxUser { id: 10, name: "x".into(), display_name: None };
    let (_, a) = create_step(s, CreateEvent::Authenticated(Some(other)));
    assert!(matches!(a, CreateAction::Reply(Reply::Respond(Target::Modal, ref m))
        if m.embeds[0].description.ends_with("The authenticated user did not match the one provided.")));

    let (s, _) = create();
    let (_, a) = create_step(s, CreateEvent::ModalAnswered(None));
    assert!(matches!(a, CreateAction::Finish(Err(CmdError::Timeout))));
}

#[test]
fn failures_end_both_commands_with_that_error() {
    let s = ViewState::Showing { account: account("alpha", 1) };
    let (s, a) = view_step(&vec![], s, ViewEvent::Failed(CmdError::Serenity("40060".into())));
    assert!(matches!(a, ViewAction::Finish(Err(CmdError::Serenity(ref t))) if t == "40060"));
    assert!(matches!(s, ViewState::Finished));
    let s = CreateState::Inserting { name: "alpha".into() };
    let (s, a) = create_step(s, CreateEvent::Failed(CmdError::SeaOrm("duplicate key".into())));
    assert!(matches!(a, CreateAction::Finish(Err(CmdError::SeaOrm(ref t))) if t == "duplicate key"));
    assert!(matches!(s, CreateState::Finished));
}

#[test]
fn panel_without_a_matching_ranker() {
    let (s, _) = view(Some("lph".to_string()));
    let (_, a) = view_step(&vec![ranker("beta", 2, 1)], s, ViewEvent::AccountFound(Some(account("alpha", 1))));
    match a {
        ViewAction::Reply(Reply::Update(Target::Command, m)) => {
            assert_eq!(m.embeds[0].fields[0].name, format!("Connection: {}", use_emoji(Emoji::Cross)));
            assert_eq!(m.embeds[0].fields[0].value, "**Creation Date:** N/A\n**Groups:** N/A");
        },
        other => panic!("unexpected {other:?}"),
    }
}

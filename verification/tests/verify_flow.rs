use soldier_core::commands::verify::{random_phrase, verify, verify_step, VerifyAction, VerifyEvent, VerifyState};
use soldier_core::components::{ActionRow, ButtonKind};
use soldier_core::embeds::Colour;
use soldier_core::error::CmdError;
use soldier_core::flow::{Click, Reply, RobloxUser, Target};

fn player() -> RobloxUser {
    RobloxUser { id: 156, name: "builderman".to_string(), display_name: Some("Builder".to_string()) }
}

fn click(id: &str) -> VerifyEvent {
    VerifyEvent::Clicked(Some(Click { custom_id: id.to_string(), values: vec![] }))
}

fn step(s: VerifyState, e: VerifyEvent) -> (VerifyState, VerifyAction) {
    verify_step(s, e)
}

#[test]
fn code_verification_links_after_the_phrase_is_found() {
    let (s, a) = verify(Some("builderman".to_string()), None);
    assert!(matches!(a, VerifyAction::FindUser { ref username } if username == "builderman"));
    let (s, a) = step(s, VerifyEvent::UserFound(Some(player())));
    match a {
        VerifyAction::Reply(Reply::Send(m)) => {
            assert!(m.ephemeral);
            assert_eq!(m.embeds[0].title, "Verification");
            assert_eq!(m.embeds[0].colour, Colour::RohrkatzeBlue);
            match &m.components.as_ref().unwrap()[0] {
                ActionRow::Buttons(b) => {
                    assert!(matches!(b[0].kind, ButtonKind::Link { ref url } if url == "https://soldierbot.app/"));
                    assert!(!b[1].disabled);
                },
                _ => panic!("buttons"),
            }
        },
        other => panic!("unexpected {other:?}"),
    }
    let (s, a) = step(s, VerifyEvent::Done);
    match a {
        VerifyAction::AwaitClick(w) => {
            assert_eq!(w.timeout_secs, 60);
            assert!(w.on_command_response);
            assert_eq!(w.id_prefix.as_deref(), Some("verify::"));
        },
        other => panic!("unexpected {other:?}"),
    }
    let (s, a) = step(s, click("verify::code"));
    assert!(matches!(a, VerifyAction::PickPhrase));
    let (s, a) = step(s, VerifyEvent::PhrasePicked("alias sit amet".to_string()));
    match a {
        VerifyAction::Reply(Reply::Update(Target::Component, m)) => {
            assert!(m.embeds[0].description.contains("https://roblox.com/users/156"));
            assert_eq!(m.embeds[0].fields[0].value, "If one of the words are tags, please try again.\n```alias sit amet```");
        },
        other => panic!("unexpected {other:?}"),
    }
    let (s, a) = step(s, VerifyEvent::Done);
    assert!(matches!(a, VerifyAction::AwaitClick(ref w) if w.timeout_secs == 300 && !w.on_command_response));
    let (s, a) = step(s, click("verify::code::done"));
    assert!(matches!(a, VerifyAction::FetchProfile { roblox_id: 156 }));
    let (s, a) = step(s, VerifyEvent::ProfileFetched("Hi! alias sit amet :)".to_string()));
    assert!(matches!(a, VerifyAction::StoreLink { roblox_id: 156 }));
    let (s, a) = step(s, VerifyEvent::Done);
    match a {
        VerifyAction::Reply(Reply::Respond(Target::Component, m)) => {
            assert!(m.ephemeral);
            assert_eq!(
                m.embeds[0].fields[0].value,
                "Username: [builderman](https://www.roblox.com/users/156)\nDisplay Name: `Builder`\nRoblox ID: `156`"
            );
        },
        other => panic!("unexpected {other:?}"),
    }
    let (s, a) = step(s, VerifyEvent::Done);
    assert!(matches!(a, VerifyAction::Finish(Ok(()))));
    assert!(matches!(s, VerifyState::Finished));
}

#[test]
fn missing_phrase_reports_and_ends_handled() {
    let s = VerifyState::FetchingProfile { player: player(), phrase: "alias sit amet".to_string() };
    let (s, a) = step(s, VerifyEvent::ProfileFetched("alias  sit amet".to_string()));
    match a {
        VerifyAction::Reply(Reply::Update(Target::Component, m)) => {
            assert_eq!(m.embeds[0].title, "Verification Failed");
            assert_eq!(m.embeds[0].colour, Colour::DarkRed);
        },
        other => panic!("unexpected {other:?}"),
    }
    let (_, a) = step(s, VerifyEvent::Done);
    assert!(matches!(a, VerifyAction::Finish(Err(CmdError::Handled))));
}

#[test]
fn unknown_username_is_an_embed_error() {
    let (s, _) = verify(Some("nobody".to_string()), Some(1));
    let (_, a) = step(s, VerifyEvent::UserFound(None));
    match a {
        VerifyAction::Finish(Err(CmdError::Embed(e))) => {
            assert_eq!(e.title, "");
            assert!(e.description.ends_with("The user `nobody` was not found."));
        },
        other => panic!("unexpected {other:?}"),
    }
}

#[test]
fn already_verified_prompt_and_cancel() {
    let (s, a) = verify(None, Some(42));
    assert!(matches!(a, VerifyAction::FetchName { roblox_id: 42 }));
    let (s, a) = step(s, VerifyEvent::NameFetched(None));
    match a {
        VerifyAction::Reply(Reply::Send(m)) => {
            assert_eq!(
                m.embeds[0].fields[0].value,
                "You're already verified as [42](https://www.roblox.com/users/42).\nWould you like to verify with a different account?"
            );
        },
        other => panic!("unexpected {other:?}"),
    }
    let (s, _) = step(s, VerifyEvent::Done);
    let (s, a) = step(s, click("verify::cancel"));
    match a {
        VerifyAction::Reply(Reply::Update(Target::Component, m)) => {
            assert!(m.embeds[0].description.ends_with("You cancelled the operation."));
        },
        other => panic!("unexpected {other:?}"),
    }
    let (_, a) = step(s, VerifyEvent::Done);
    assert!(matches!(a, VerifyAction::Finish(Ok(()))));
}

#[test]
fn reverify_without_a_name_disables_code_verification() {
    let (s, _) = verify(None, Some(42));
    let (s, _) = step(s, VerifyEvent::NameFetched(Some("Old".to_string())));
    let (s, _) = step(s, VerifyEvent::Done);
    let (s, a) = step(s, click("verify::reverify"));
    match a {
        VerifyAction::Reply(Reply::Update(Target::Component, m)) => match &m.components.as_ref().unwrap()[0] {
            ActionRow::Buttons(b) => assert!(b[1].disabled),
            _ => panic!("buttons"),
        },
        other => panic!("unexpected {other:?}"),
    }
    let (s, _) = step(s, VerifyEvent::Done);
    let (_, a) = step(s, click("verify::code"));
    assert!(matches!(a, VerifyAction::Finish(Ok(()))));
}

#[test]
fn confirm_timeout_is_a_timeout_error() {
    let s = VerifyState::AwaitingConfirm { player: player(), phrase: "a b c".to_string() };
    let (_, a) = step(s, VerifyEvent::Clicked(None));
    assert!(matches!(a, VerifyAction::Finish(Err(CmdError::Timeout))));
}

#[test]
fn failures_propagate() {
    let s = VerifyState::Storing { player: player() };
    let (s, a) = step(s, VerifyEvent::Failed(CmdError::SeaOrm("unique".into())));
    assert!(matches!(a, VerifyAction::Finish(Err(CmdError::SeaOrm(ref t))) if t == "unique"));
    assert!(matches!(s, VerifyState::Finished));
}

#[test]
fn phrases_are_three_lorem_words() {
    for _ in 0..20 {
        let p = random_phrase();
        let words: Vec<&str> = p.split(' ').collect();
        assert_eq!(words.len(), 3);
        for w in words {
            assert!(!w.is_empty() && w.chars().all(|c| c.is_ascii_lowercase()), "{p:?}");
            assert!(<fake::locales::EN as fake::locales::Data>::LOREM_WORD.contains(&w), "{p:?}");
        }
    }
}

#[test]
fn unanswered_first_prompts_end_quietly() {
    let s = VerifyState::AwaitingReverify { found: None };
    let (_, a) = step(s, VerifyEvent::Clicked(None));
    assert!(matches!(a, VerifyAction::Finish(Ok(()))));
    let s = VerifyState::AwaitingMethod { found: Some(player()) };
    let (_, a) = step(s, VerifyEvent::Clicked(None));
    assert!(matches!(a, VerifyAction::Finish(Ok(()))));
}

#[test]
fn cancel_on_the_phrase_panel_links_nothing() {
    let s = VerifyState::AwaitingConfirm { player: player(), phrase: "a b c".to_string() };
    let (s, a) = step(s, click("verify::code::cancel"));
    assert!(matches!(a, VerifyAction::Reply(Reply::Update(Target::Component, ref m))
        if m.embeds[0].description.ends_with("You cancelled the operation.")));
    let (_, a) = step(s, VerifyEvent::Done);
    assert!(matches!(a, VerifyAction::Finish(Ok(()))));
}

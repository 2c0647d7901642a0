use soldier_core::embeds::{info, Colour};
use soldier_core::error::{handle_error, CmdError};
use soldier_core::helper::{AnyInteraction, InteractionResponse, Message, RawInteraction};

#[test]
fn message_presets() {
    let r = Message::for_response();
    assert!(r.ephemeral);
    assert!(r.components.is_none());
    let u = Message::for_update();
    assert!(!u.ephemeral);
    assert!(matches!(u.components, Some(ref c) if c.is_empty()));
    let a = Message::for_any_update();
    assert!(a.ephemeral);
    assert!(matches!(a.components, Some(ref c) if c.is_empty()));
    let m = Message::new().content("hi").embed(info("t", "d"));
    assert_eq!(m.content.as_deref(), Some("hi"));
    assert_eq!(m.embeds.len(), 1);
}

#[test]
fn update_message_depends_on_the_interaction_kind() {
    assert!(matches!(AnyInteraction::Component(1).update_message(Message::new()), InteractionResponse::UpdateMessage(_)));
    assert!(matches!(AnyInteraction::Command(1).update_message(Message::new()), InteractionResponse::Message(_)));
    assert!(matches!(AnyInteraction::Modal(1).update_message(Message::new()), InteractionResponse::Message(_)));
    for i in [AnyInteraction::Component(1), AnyInteraction::Command(2), AnyInteraction::Modal(3)] {
        assert!(matches!(i.respond(Message::new()), InteractionResponse::Message(ref m) if m.ephemeral));
        assert!(matches!(i.respond(Message::for_update()), InteractionResponse::Message(ref m) if m.ephemeral));
        assert!(i.followup(Message::new().content("x")).content.is_some());
    }
}

#[test]
fn acknowledge_only_components() {
    assert!(matches!(AnyInteraction::Component(5).acknowledge(), Some(InteractionResponse::Acknowledge)));
    assert!(AnyInteraction::Command(5).acknowledge().is_none());
    assert!(AnyInteraction::Modal(5).acknowledge().is_none());
}

#[test]
fn from_raw_interactions() {
    assert_eq!(AnyInteraction::from(RawInteraction::Command(9)), AnyInteraction::Command(9));
    assert_eq!(AnyInteraction::from(RawInteraction::Component(8)), AnyInteraction::Component(8));
    assert_eq!(AnyInteraction::from(RawInteraction::Modal(7)), AnyInteraction::Modal(7));
}

#[test]
fn error_texts() {
    assert_eq!(CmdError::Handled.message(), "Command error");
    assert_eq!(CmdError::Embed(info("a", "b")).message(), "Command error");
    assert_eq!(CmdError::Roblox("404".into()).message(), "Roblox API Error: 404");
    assert_eq!(CmdError::Serenity("gone".into()).message(), "Discord API Error: gone");
    assert_eq!(CmdError::SeaOrm("locked".into()).message(), "Database Error: locked");
    assert_eq!(CmdError::Timeout.message(), "Prompt timed out due to inactivity");
    assert_eq!(CmdError::OnCooldown(1, 500_000_000).message(), "On cooldown: 1.5s");
    assert_eq!(CmdError::OnCooldown(0, 250_000).message(), "On cooldown: 250µs");
    assert_eq!(CmdError::Other("x".into()).message(), "Other: x");
    assert_eq!(CmdError::Anyhow("raw".into()).message(), "raw");
}

#[test]
fn handled_errors_are_not_answered() {
    assert!(handle_error(CmdError::Handled).is_none());
}

#[test]
fn embed_errors_are_sent_as_they_are() {
    let m = handle_error(CmdError::Embed(info("t", "custom"))).unwrap();
    assert!(m.ephemeral);
    assert_eq!(m.embeds.len(), 1);
    assert_eq!(m.embeds[0].title, "t");
    assert!(m.embeds[0].description.ends_with("custom"));
}

#[test]
fn timeout_and_roblox_errors_get_embeds() {
    let m = handle_error(CmdError::Timeout).unwrap();
    assert!(m.ephemeral);
    assert!(m.embeds[0].description.ends_with("This prompt has timed out due to inactivity."));
    let m = handle_error(CmdError::Roblox("rate limited".into())).unwrap();
    assert_eq!(m.embeds[0].colour, Colour::DarkRed);
    assert_eq!(m.embeds[0].fields[0].value, "rate limited");
}

#[test]
fn other_errors_are_sent_as_text() {
    let m = handle_error(CmdError::Other("Simulated system error.".into())).unwrap();
    assert!(m.ephemeral);
    assert!(m.embeds.is_empty());
    assert_eq!(m.content.as_deref(), Some("Other: Simulated system error."));
}

#[test]
fn discord_and_database_errors_get_embeds() {
    let m = handle_error(CmdError::SeaOrm("down".into())).unwrap();
    assert!(m.ephemeral);
    assert!(m.content.is_none());
    assert_eq!(m.embeds.len(), 1);
    assert_eq!(m.embeds[0].colour, Colour::DarkRed);
    assert_eq!(m.embeds[0].fields[0].value, "Database Error: down");
    let m = handle_error(CmdError::Serenity("Unknown interaction".into())).unwrap();
    assert!(m.ephemeral);
    assert_eq!(m.embeds[0].fields[0].value, "Discord API Error: Unknown interaction");
}

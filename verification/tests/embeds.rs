use soldier_core::components::{
    button, button_danger, button_link, button_secondary, button_success, buttons, option, select, select_row,
    text_paragraph, text_short, ActionRow, ButtonKind, ButtonStyle, InputTextStyle,
};
use soldier_core::embeds::{
    cancelled, emoji, error, info, not_found, not_found_with, not_verified, success, timeout, user_error, warn, Colour,
};
use soldier_core::emojis::{use_emoji, Emoji};

#[test]
fn every_emoji_has_its_markup() {
    assert_eq!(use_emoji(Emoji::Check), "<:Check:867931890437476353>");
    assert_eq!(use_emoji(Emoji::Error), "<:Error:868113159737720912>");
    assert_eq!(use_emoji(Emoji::Warn), "<:Warn:868113114221121586>");
    assert_eq!(use_emoji(Emoji::Info), "<:Info:1053145199167164479>");
    assert_eq!(use_emoji(Emoji::Dash), "<:greendash:903084370066300928>");
    assert_eq!(use_emoji(Emoji::Tick), "<:Tick:868113233981100123>");
    assert_eq!(use_emoji(Emoji::Cross), "<:X_:868113200934174801>");
}

#[test]
fn emoji_embed_prefixes_the_description() {
    let e = emoji("Title", "Body", Emoji::Dash, Colour::Rgb(0x123456));
    assert_eq!(e.title, "Title");
    assert_eq!(e.description, "<:greendash:903084370066300928>\u{2007}Body");
    assert_eq!(e.colour, Colour::Rgb(0x123456));
    assert!(e.fields.is_empty());
}

#[test]
fn palette_of_the_four_kinds() {
    let s = success("a", "b");
    assert_eq!(s.colour, Colour::DarkGreen);
    assert_eq!(s.description, format!("{}\u{2007}b", use_emoji(Emoji::Check)));
    assert_eq!(warn("a", "b").colour, Colour::Orange);
    assert_eq!(error("a", "b").colour, Colour::DarkRed);
    assert_eq!(error("a", "b").description, format!("{}\u{2007}b", use_emoji(Emoji::Error)));
    assert_eq!(info("a", "b").colour, Colour::Blurple);
    assert_eq!(info("a", "b").description, format!("{}\u{2007}b", use_emoji(Emoji::Info)));
}

#[test]
fn fixed_embeds() {
    let n = not_verified();
    assert_eq!(n.title, "");
    assert!(n.description.ends_with("You are not verified. Run </verify:> to continue."));
    assert_eq!(timeout().colour, Colour::Orange);
    assert!(timeout().description.ends_with("This prompt has timed out due to inactivity."));
    assert!(cancelled().description.ends_with("You cancelled the operation."));
}

#[test]
fn not_found_lowers_the_item_for_a_query() {
    let e = not_found("Account", Some("bob"));
    assert_eq!(e.title, "Account Not Found");
    assert!(e.description.ends_with("The account \u{2192} `bob` was not found"));
    let e = not_found("User", None);
    assert_eq!(e.title, "User Not Found");
    assert!(e.description.ends_with("The User was not found."));
    let e = not_found_with("ÄBC", "äbc", Some("q"));
    assert!(e.description.ends_with("The äbc \u{2192} `q` was not found"));
    assert_eq!(not_found("ÄBC", Some("q")).description, e.description);
}

#[test]
fn user_error_carries_the_raw_text() {
    let e = user_error("boom".to_string());
    assert_eq!(e.title, "Error");
    assert_eq!(e.fields.len(), 2);
    assert_eq!(e.fields[0].name, "Raw Error");
    assert_eq!(e.fields[0].value, "boom");
    assert!(!e.fields[0].inline);
    assert_eq!(e.fields[1].name, "Error Code");
    assert_eq!(e.fields[1].value, "The provided error code can be given to the support team.\n```todo```");
    let f = info("t", "d").field("x", "y", true);
    assert_eq!(f.fields.len(), 1);
    assert!(f.fields[0].inline);
}

#[test]
fn buttons_and_their_styles() {
    for (b, style) in [
        (button("id", "L"), ButtonStyle::Primary),
        (button_secondary("id", "L"), ButtonStyle::Secondary),
        (button_success("id", "L"), ButtonStyle::Success),
        (button_danger("id", "L"), ButtonStyle::Danger),
    ] {
        assert_eq!(b.label, "L");
        assert!(!b.disabled);
        match b.kind {
            ButtonKind::NonLink { style: s, custom_id } => {
                assert_eq!(s, style);
                assert_eq!(custom_id, "id");
            },
            ButtonKind::Link { .. } => panic!("not a link"),
        }
    }
    let l = button_link("https://soldierbot.app/", "Login").disabled(true);
    assert!(l.disabled);
    assert!(matches!(l.kind, ButtonKind::Link { ref url } if url == "https://soldierbot.app/"));
    match buttons(vec![button("a", "A"), button("b", "B")]) {
        ActionRow::Buttons(b) => assert_eq!(b.len(), 2),
        _ => panic!("a row of buttons"),
    }
}

#[test]
fn selects_and_inputs() {
    let o = option("Label", "value").description("d").emoji("\u{2705}");
    assert_eq!(o.label, "Label");
    assert_eq!(o.value, "value");
    assert_eq!(o.description.as_deref(), Some("d"));
    assert_eq!(o.emoji.as_deref(), Some("\u{2705}"));
    let m = select("menu", vec![option("a", "a")]);
    assert_eq!(m.custom_id, "menu");
    assert_eq!(m.options.len(), 1);
    assert!(matches!(select_row("menu", vec![]), ActionRow::SelectMenu(ref m) if m.custom_id == "menu"));
    let t = text_short("id", "Label").placeholder("p").required(false).min_length(3).max_length(9);
    assert_eq!(t.style, InputTextStyle::Short);
    assert_eq!(t.custom_id, "id");
    assert_eq!(t.label, "Label");
    assert_eq!(t.placeholder.as_deref(), Some("p"));
    assert!(!t.required);
    assert_eq!((t.min_length, t.max_length), (Some(3), Some(9)));
    let p = text_paragraph("id2", "L2");
    assert_eq!(p.style, InputTextStyle::Paragraph);
    assert!(p.required);
    assert_eq!(p.placeholder, None);
}

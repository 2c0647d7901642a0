use soldier_core::commands::misc::{eval, ping};
use soldier_core::commands::setup::{group_id_from, parse_group_id, setup, setup_step, SetupAction, SetupEvent};
use soldier_core::error::CmdError;
use soldier_core::flow::{Reply, Target};
use soldier_core::migration::m20250628_000001_create_table::Migration as FirstMigration;
use soldier_core::migration::m20250628_000001_create_tables::Migration;
use soldier_core::migration::schema::{next_step, ColumnDefault, OnDelete, ColumnType, Nullability, RunStep, SchemaOp};
use soldier_core::startup::shard_count;

#[test]
fn group_ids_from_urls_and_numbers() {
    assert_eq!(parse_group_id("https://www.roblox.com/communities/12345/soldier#!/about").ok(), Some(12345));
    assert_eq!(parse_group_id("roblox.com/communities/7").ok(), Some(7));
    assert_eq!(parse_group_id("  678 \n").ok(), Some(678));
    assert_eq!(parse_group_id("-5").ok(), Some(-5));
    match parse_group_id("not a group") {
        Err(e) => {
            assert!(e.description.ends_with("Failed to parse the group identifier\u{2014}make sure it's a url or integer."))
        },
        other => panic!("unexpected {other:?}"),
    }
    assert!(parse_group_id("roblox.com/communities/99999999999999999999").is_err());
    assert_eq!(group_id_from(Some("42".to_string()), "ignored").ok(), Some(42));
    assert_eq!(group_id_from(None, " 43 ").ok(), Some(43));
}

#[test]
fn setup_flow() {
    let (s, a) = setup();
    match a {
        SetupAction::AskModal(m) => {
            assert_eq!(m.title, "Setup");
            assert_eq!(m.timeout_secs, 180);
            assert_eq!(m.inputs[0].custom_id, "setup::group_id");
            assert_eq!(m.inputs[0].max_length, Some(10));
        },
        other => panic!("unexpected {other:?}"),
    }
    let (s, a) = setup_step(s, SetupEvent::ModalAnswered(Some(vec!["roblox.com/communities/31".to_string()])));
    assert!(matches!(a, SetupAction::FetchGroup { group_id: 31 }));
    let (s, a) = setup_step(s, SetupEvent::GroupFetched(false));
    match a {
        SetupAction::Reply(Reply::Respond(Target::Modal, m)) => {
            assert!(m.ephemeral);
            assert!(m.embeds[0].description.ends_with("Failed to fetch the group\u{2014}make sure it exists."));
        },
        other => panic!("unexpected {other:?}"),
    }
    let (_, a) = setup_step(s, SetupEvent::Done);
    assert!(matches!(a, SetupAction::Finish(Err(CmdError::Handled))));
    let (s, _) = setup();
    let (s, a) = setup_step(s, SetupEvent::ModalAnswered(Some(vec!["abc".to_string()])));
    match a {
        SetupAction::Reply(Reply::Respond(Target::Modal, m)) => {
            assert!(m.embeds[0].description.ends_with("Failed to parse the group identifier\u{2014}make sure it's a url or integer."));
        },
        other => panic!("unexpected {other:?}"),
    }
    let (_, a) = setup_step(s, SetupEvent::Done);
    assert!(matches!(a, SetupAction::Finish(Err(CmdError::Handled))));
    let (s, _) = setup();
    let (s, _) = setup_step(s, SetupEvent::ModalAnswered(Some(vec!["12".to_string()])));
    let (_, a) = setup_step(s, SetupEvent::GroupFetched(true));
    assert!(matches!(a, SetupAction::Finish(Ok(()))));
    let (s, _) = setup();
    let (_, a) = setup_step(s, SetupEvent::ModalAnswered(None));
    assert!(matches!(a, SetupAction::Finish(Err(CmdError::Timeout))));
}

#[test]
fn ping_reports_latency() {
    let m = ping(Some(42));
    assert!(m.ephemeral);
    assert_eq!(m.embeds[0].title, "Pong!");
    assert!(m.embeds[0].description.ends_with("Gateway latency: `42ms`"));
    assert!(ping(None).embeds[0].description.ends_with("Gateway latency: `N/A`"));
}

#[test]
fn eval_texts() {
    assert_eq!(eval(Ok("3".to_string())), "Result: 3");
    assert_eq!(eval(Err("Syntax error".to_string())), "Error: Syntax error");
}

#[test]
fn shards_per_thousand_guilds() {
    assert_eq!(shard_count(0), 1);
    assert_eq!(shard_count(999), 1);
    assert_eq!(shard_count(1000), 2);
    assert_eq!(shard_count(u32::MAX), u32::MAX / 1000 + 1);
}

#[test]
fn migration_plans() {
    let up = Migration.up();
    assert!(up.stop_on_error);
    let names: Vec<String> = up
        .ops
        .iter()
        .map(|o| match o {
            SchemaOp::CreateTable(t) => t.name.clone(),
            SchemaOp::CreateEnum { name, .. } => format!("enum {name}"),
            _ => panic!("up only creates"),
        })
        .collect();
    assert_eq!(names, ["account", "user", "clan", "clan_user", "medal", "enum reward_type", "event", "role_level"]);
    match &up.ops[3] {
        SchemaOp::CreateTable(t) => {
            assert_eq!(t.foreign_keys.len(), 2);
            assert_eq!(t.foreign_keys[0].to_table, "clan");
            assert_eq!(t.columns[3].default, Some(ColumnDefault::Int(0)));
            assert_eq!(t.columns[0].default, Some(ColumnDefault::RandomUuid));
            assert!(t.columns[0].primary_key);
        },
        _ => panic!("clan_user"),
    }
    match &up.ops[6] {
        SchemaOp::CreateTable(t) => {
            assert!(matches!(t.columns[5].ty, ColumnType::Custom(ref n) if n == "reward_type"));
            assert_eq!(t.columns[5].nullability, Nullability::Unspecified);
        },
        _ => panic!("event"),
    }
    let down = Migration.down();
    assert_eq!(down.ops.len(), 8);
    assert!(matches!(down.ops[7], SchemaOp::DropEnum(ref n) if n == "reward_type"));
    let first = FirstMigration.up();
    assert!(!first.stop_on_error);
    assert_eq!(first.ops.len(), 4);
    assert_eq!(FirstMigration.down().ops.len(), 4);
}

#[test]
fn runs_stop_or_go_on() {
    let strict = Migration.up();
    assert_eq!(next_step(&strict, 0, true), RunStep::Execute(0));
    assert_eq!(next_step(&strict, 3, false), RunStep::Fail);
    assert_eq!(next_step(&strict, 8, true), RunStep::Succeed);
    let lenient = FirstMigration.up();
    assert_eq!(next_step(&lenient, 2, false), RunStep::Execute(2));
    assert_eq!(next_step(&lenient, 4, false), RunStep::Succeed);
}

fn table_names(plan: &soldier_core::migration::schema::MigrationPlan, create: bool) -> std::collections::BTreeSet<String> {
    plan.ops
        .iter()
        .filter_map(|o| match o {
            SchemaOp::CreateTable(t) if create => Some(t.name.clone()),
            SchemaOp::DropTable(n) if !create => Some(n.clone()),
            _ => None,
        })
        .collect()
}

#[test]
fn down_drops_what_up_creates() {
    assert_eq!(table_names(&Migration.up(), true), table_names(&Migration.down(), false));
    assert_eq!(table_names(&FirstMigration.up(), true), table_names(&FirstMigration.down(), false));
    assert_eq!(table_names(&Migration.up(), true).len(), 7);
}

#[test]
fn foreign_keys_point_backwards() {
    let up = Migration.up();
    let mut seen: Vec<String> = vec![];
    for op in &up.ops {
        if let SchemaOp::CreateTable(t) = op {
            for f in &t.foreign_keys {
                assert!(seen.contains(&f.to_table), "{} refers to {} too early", t.name, f.to_table);
                assert_eq!(f.to_column, "id");
                assert_eq!(f.on_delete, OnDelete::Cascade);
            }
            seen.push(t.name.clone());
        }
    }
}

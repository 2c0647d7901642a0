//! The schema of accounts, users, clans, their members, medals, events and role levels; a failed operation stops the run.

use vstd::prelude::*;
use super::schema::{
    Column, ColumnDefault, ColumnType, ColumnTypeView, ForeignKey, MigrationPlan, Nullability, PlanView, SchemaOp,
    SchemaOpView, Table, TableView, column, column_view, created_enums, created_tables, dropped_enums,
    dropped_tables, creates_unique_column, has_unique_column, fk, fk_view, fk_resolves, foreign_keys_cascade, foreign_keys_resolve, op_name, OnDelete, pk_uuid, pk_uuid_view, table_fks_resolve,
    with_default,
};

verus! {

/// The `account` table.
pub open spec fn account_table() -> TableView {
    TableView {
        name: "account"@,
        columns: seq![
            with_default(pk_uuid_view("id"@), ColumnDefault::RandomUuid),
            column_view("roblox_name"@, ColumnTypeView::Text, Nullability::NotNull, false),
            column_view("roblox_id"@, ColumnTypeView::BigInteger, Nullability::NotNull, true),
            column_view("password"@, ColumnTypeView::Text, Nullability::NotNull, false),
            column_view("cookie"@, ColumnTypeView::Text, Nullability::NotNull, false),
        ],
        foreign_keys: seq![],
    }
}

fn account_table_exec() -> (t: Table)
    ensures
        t@ == account_table(),
{
    let mut columns: Vec<Column> = Vec::new();
    columns.push(pk_uuid("id").default(ColumnDefault::RandomUuid));
    columns.push(column("roblox_name", ColumnType::Text, Nullability::NotNull, false));
    columns.push(column("roblox_id", ColumnType::BigInteger, Nullability::NotNull, true));
    columns.push(column("password", ColumnType::Text, Nullability::NotNull, false));
    columns.push(column("cookie", ColumnType::Text, Nullability::NotNull, false));
    let mut foreign_keys: Vec<ForeignKey> = Vec::new();
    let t = Table { name: "account".to_owned(), columns, foreign_keys };
    assert(t@.columns =~= account_table().columns);
    assert(t@.foreign_keys =~= account_table().foreign_keys);
    t
}

/// The `user` table.
pub open spec fn user_table() -> TableView {
    TableView {
        name: "user"@,
        columns: seq![
            with_default(pk_uuid_view("id"@), ColumnDefault::RandomUuid),
            column_view("discord_id"@, ColumnTypeView::Text, Nullability::NotNull, true),
            column_view("roblox_id"@, ColumnTypeView::BigInteger, Nullability::NotNull, true),
        ],
        foreign_keys: seq![],
    }
}

fn user_table_exec() -> (t: Table)
    ensures
        t@ == user_table(),
{
    let mut columns: Vec<Column> = Vec::new();
    columns.push(pk_uuid("id").default(ColumnDefault::RandomUuid));
    columns.push(column("discord_id", ColumnType::Text, Nullability::NotNull, true));
    columns.push(column("roblox_id", ColumnType::BigInteger, Nullability::NotNull, true));
    let mut foreign_keys: Vec<ForeignKey> = Vec::new();
    let t = Table { name: "user".to_owned(), columns, foreign_keys };
    assert(t@.columns =~= user_table().columns);
    assert(t@.foreign_keys =~= user_table().foreign_keys);
    t
}

/// The `clan` table.
pub open spec fn clan_table() -> TableView {
    TableView {
        name: "clan"@,
        columns: seq![
            with_default(pk_uuid_view("id"@), ColumnDefault::RandomUuid),
            column_view("discord_guild_id"@, ColumnTypeView::Text, Nullability::NotNull, true),
            column_view("roblox_group_id"@, ColumnTypeView::BigInteger, Nullability::NotNull, true),
            column_view("ranker_roblox_id"@, ColumnTypeView::BigInteger, Nullability::NotNull, true),
            column_view("api_auth_token"@, ColumnTypeView::Uuid, Nullability::NotNull, true),
            with_default(column_view("xp_enabled"@, ColumnTypeView::Boolean, Nullability::NotNull, false), ColumnDefault::Bool(false)),
            with_default(column_view("api_enabled"@, ColumnTypeView::Boolean, Nullability::NotNull, false), ColumnDefault::Bool(false)),
            column_view("ranking_access_roles"@, ColumnTypeView::TextArray, Nullability::NotNull, false),
            column_view("ranking_requester_roles"@, ColumnTypeView::TextArray, Nullability::NotNull, false),
            column_view("verification_role"@, ColumnTypeView::Text, Nullability::Null, false),
            column_view("ranking_log_channel"@, ColumnTypeView::Text, Nullability::NotNull, false),
            column_view("ranking_request_channel"@, ColumnTypeView::Text, Nullability::Null, false),
            column_view("event_channel"@, ColumnTypeView::Text, Nullability::Null, false),
        ],
        foreign_keys: seq![],
    }
}

fn clan_table_exec() -> (t: Table)
    ensures
        t@ == clan_table(),
{
    let mut columns: Vec<Column> = Vec::new();
    columns.push(pk_uuid("id").default(ColumnDefault::RandomUuid));
    columns.push(column("discord_guild_id", ColumnType::Text, Nullability::NotNull, true));
    columns.push(column("roblox_group_id", ColumnType::BigInteger, Nullability::NotNull, true));
    columns.push(column("ranker_roblox_id", ColumnType::BigInteger, Nullability::NotNull, true));
    columns.push(column("api_auth_token", ColumnType::Uuid, Nullability::NotNull, true));
    columns.push(column("xp_enabled", ColumnType::Boolean, Nullability::NotNull, false).default(ColumnDefault::Bool(false)));
    columns.push(column("api_enabled", ColumnType::Boolean, Nullability::NotNull, false).default(ColumnDefault::Bool(false)));
    columns.push(column("ranking_access_roles", ColumnType::TextArray, Nullability::NotNull, false));
    columns.push(column("ranking_requester_roles", ColumnType::TextArray, Nullability::NotNull, false));
    columns.push(column("verification_role", ColumnType::Text, Nullability::Null, false));
    columns.push(column("ranking_log_channel", ColumnType::Text, Nullability::NotNull, false));
    columns.push(column("ranking_request_channel", ColumnType::Text, Nullability::Null, false));
    columns.push(column("event_channel", ColumnType::Text, Nullability::Null, false));
    let mut foreign_keys: Vec<ForeignKey> = Vec::new();
    let t = Table { name: "clan".to_owned(), columns, foreign_keys };
    assert(t@.columns =~= clan_table().columns);
    assert(t@.foreign_keys =~= clan_table().foreign_keys);
    t
}

/// The `clan_user` table.
pub open spec fn clan_user_table() -> TableView {
    TableView {
        name: "clan_user"@,
        columns: seq![
            with_default(pk_uuid_view("id"@), ColumnDefault::RandomUuid),
            column_view("user_id"@, ColumnTypeView::Uuid, Nullability::NotNull, false),
            column_view("clan_id"@, ColumnTypeView::Uuid, Nullability::NotNull, false),
            with_default(column_view("xp_level"@, ColumnTypeView::Integer, Nullability::NotNull, false), ColumnDefault::Int(0)),
        ],
        foreign_keys: seq![fk_view("clan_id"@, "clan"@, OnDelete::Cascade), fk_view("user_id"@, "user"@, OnDelete::Cascade)],
    }
}

fn clan_user_table_exec() -> (t: Table)
    ensures
        t@ == clan_user_table(),
{
    let mut columns: Vec<Column> = Vec::new();
    columns.push(pk_uuid("id").default(ColumnDefault::RandomUuid));
    columns.push(column("user_id", ColumnType::Uuid, Nullability::NotNull, false));
    columns.push(column("clan_id", ColumnType::Uuid, Nullability::NotNull, false));
    columns.push(column("xp_level", ColumnType::Integer, Nullability::NotNull, false).default(ColumnDefault::Int(0)));
    let mut foreign_keys: Vec<ForeignKey> = Vec::new();
    foreign_keys.push(fk("clan_id", "clan", OnDelete::Cascade));
    foreign_keys.push(fk("user_id", "user", OnDelete::Cascade));
    let t = Table { name: "clan_user".to_owned(), columns, foreign_keys };
    assert(t@.columns =~= clan_user_table().columns);
    assert(t@.foreign_keys =~= clan_user_table().foreign_keys);
    t
}

/// The `medal` table.
pub open spec fn medal_table() -> TableView {
    TableView {
        name: "medal"@,
        columns: seq![
            with_default(pk_uuid_view("id"@), ColumnDefault::RandomUuid),
            column_view("clan_id"@, ColumnTypeView::Uuid, Nullability::NotNull, false),
            column_view("name"@, ColumnTypeView::Text, Nullability::NotNull, false),
            column_view("description"@, ColumnTypeView::Text, Nullability::NotNull, false),
            column_view("discord_role_id"@, ColumnTypeView::Text, Nullability::NotNull, false),
        ],
        foreign_keys: seq![],
    }
}

fn medal_table_exec() -> (t: Table)
    ensures
        t@ == medal_table(),
{
    let mut columns: Vec<Column> = Vec::new();
    columns.push(pk_uuid("id").default(ColumnDefault::RandomUuid));
    columns.push(column("clan_id", ColumnType::Uuid, Nullability::NotNull, false));
    columns.push(column("name", ColumnType::Text, Nullability::NotNull, false));
    columns.push(column("description", ColumnType::Text, Nullability::NotNull, false));
    columns.push(column("discord_role_id", ColumnType::Text, Nullability::NotNull, false));
    let mut foreign_keys: Vec<ForeignKey> = Vec::new();
    let t = Table { name: "medal".to_owned(), columns, foreign_keys };
    assert(t@.columns =~= medal_table().columns);
    assert(t@.foreign_keys =~= medal_table().foreign_keys);
    t
}

/// The `event` table.
pub open spec fn event_table() -> TableView {
    TableView {
        name: "event"@,
        columns: seq![
            with_default(pk_uuid_view("id"@), ColumnDefault::RandomUuid),
            column_view("clan_id"@, ColumnTypeView::Uuid, Nullability::NotNull, false),
            column_view("discord_event_id"@, ColumnTypeView::Text, Nullability::NotNull, false),
            column_view("author_id"@, ColumnTypeView::Text, Nullability::NotNull, false),
            column_view("awardees"@, ColumnTypeView::TextArray, Nullability::NotNull, false),
            column_view("reward_type"@, ColumnTypeView::Custom("reward_type"@), Nullability::Unspecified, false),
            column_view("reward_data"@, ColumnTypeView::String, Nullability::Null, false),
            column_view("concluded_by"@, ColumnTypeView::Uuid, Nullability::NotNull, false),
            column_view("concluded_at"@, ColumnTypeView::Timestamp, Nullability::Null, false),
        ],
        foreign_keys: seq![fk_view("clan_id"@, "clan"@, OnDelete::Cascade)],
    }
}

fn event_table_exec() -> (t: Table)
    ensures
        t@ == event_table(),
{
    let mut columns: Vec<Column> = Vec::new();
    columns.push(pk_uuid("id").default(ColumnDefault::RandomUuid));
    columns.push(column("clan_id", ColumnType::Uuid, Nullability::NotNull, false));
    columns.push(column("discord_event_id", ColumnType::Text, Nullability::NotNull, false));
    columns.push(column("author_id", ColumnType::Text, Nullability::NotNull, false));
    columns.push(column("awardees", ColumnType::TextArray, Nullability::NotNull, false));
    columns.push(column("reward_type", ColumnType::Custom("reward_type".to_owned()), Nullability::Unspecified, false));
    columns.push(column("reward_data", ColumnType::String, Nullability::Null, false));
    columns.push(column("concluded_by", ColumnType::Uuid, Nullability::NotNull, false));
    columns.push(column("concluded_at", ColumnType::Timestamp, Nullability::Null, false));
    let mut foreign_keys: Vec<ForeignKey> = Vec::new();
    foreign_keys.push(fk("clan_id", "clan", OnDelete::Cascade));
    let t = Table { name: "event".to_owned(), columns, foreign_keys };
    assert(t@.columns =~= event_table().columns);
    assert(t@.foreign_keys =~= event_table().foreign_keys);
    t
}

/// The `role_level` table.
pub open spec fn role_level_table() -> TableView {
    TableView {
        name: "role_level"@,
        columns: seq![
            with_default(pk_uuid_view("id"@), ColumnDefault::RandomUuid),
            column_view("clan_id"@, ColumnTypeView::Uuid, Nullability::NotNull, false),
            column_view("name"@, ColumnTypeView::Text, Nullability::NotNull, false),
            column_view("description"@, ColumnTypeView::Text, Nullability::NotNull, false),
            column_view("discord_role_id"@, ColumnTypeView::Text, Nullability::NotNull, false),
            column_view("p_direct_ranking"@, ColumnTypeView::Boolean, Nullability::NotNull, false),
            column_view("p_ranking_request"@, ColumnTypeView::Boolean, Nullability::NotNull, false),
            column_view("p_exile_access"@, ColumnTypeView::Boolean, Nullability::NotNull, false),
            column_view("p_medal_access"@, ColumnTypeView::Boolean, Nullability::NotNull, false),
            column_view("p_xp_access"@, ColumnTypeView::Boolean, Nullability::NotNull, false),
            column_view("p_xp_requests"@, ColumnTypeView::Boolean, Nullability::NotNull, false),
            column_view("p_events_access"@, ColumnTypeView::Boolean, Nullability::NotNull, false),
            column_view("p_events_admin"@, ColumnTypeView::Boolean, Nullability::NotNull, false),
            column_view("p_change_shout"@, ColumnTypeView::Boolean, Nullability::NotNull, false),
            column_view("p_join_requests_access"@, ColumnTypeView::Boolean, Nullability::NotNull, false),
            column_view("p_join_requests_admin"@, ColumnTypeView::Boolean, Nullability::NotNull, false),
            column_view("p_bulk_requests"@, ColumnTypeView::Boolean, Nullability::NotNull, false),
            column_view("p_administrator"@, ColumnTypeView::Boolean, Nullability::NotNull, false),
            column_view("ranking_range_min"@, ColumnTypeView::Integer, Nullability::NotNull, false),
            column_view("ranking_range_max"@, ColumnTypeView::Integer, Nullability::NotNull, false),
        ],
        foreign_keys: seq![fk_view("clan_id"@, "clan"@, OnDelete::Cascade)],
    }
}

fn role_level_table_exec() -> (t: Table)
    ensures
        t@ == role_level_table(),
{
    let mut columns: Vec<Column> = Vec::new();
    columns.push(pk_uuid("id").default(ColumnDefault::RandomUuid));
    columns.push(column("clan_id", ColumnType::Uuid, Nullability::NotNull, false));
    columns.push(column("name", ColumnType::Text, Nullability::NotNull, false));
    columns.push(column("description", ColumnType::Text, Nullability::NotNull, false));
    columns.push(column("discord_role_id", ColumnType::Text, Nullability::NotNull, false));
    columns.push(column("p_direct_ranking", ColumnType::Boolean, Nullability::NotNull, false));
    columns.push(column("p_ranking_request", ColumnType::Boolean, Nullability::NotNull, false));
    columns.push(column("p_exile_access", ColumnType::Boolean, Nullability::NotNull, false));
    columns.push(column("p_medal_access", ColumnType::Boolean, Nullability::NotNull, false));
    columns.push(column("p_xp_access", ColumnType::Boolean, Nullability::NotNull, false));
    columns.push(column("p_xp_requests", ColumnType::Boolean, Nullability::NotNull, false));
    columns.push(column("p_events_access", ColumnType::Boolean, Nullability::NotNull, false));
    columns.push(column("p_events_admin", ColumnType::Boolean, Nullability::NotNull, false));
    columns.push(column("p_change_shout", ColumnType::Boolean, Nullability::NotNull, false));
    columns.push(column("p_join_requests_access", ColumnType::Boolean, Nullability::NotNull, false));
    columns.push(column("p_join_requests_admin", ColumnType::Boolean, Nullability::NotNull, false));
    columns.push(column("p_bulk_requests", ColumnType::Boolean, Nullability::NotNull, false));
    columns.push(column("p_administrator", ColumnType::Boolean, Nullability::NotNull, false));
    columns.push(column("ranking_range_min", ColumnType::Integer, Nullability::NotNull, false));
    columns.push(column("ranking_range_max", ColumnType::Integer, Nullability::NotNull, false));
    let mut foreign_keys: Vec<ForeignKey> = Vec::new();
    foreign_keys.push(fk("clan_id", "clan", OnDelete::Cascade));
    let t = Table { name: "role_level".to_owned(), columns, foreign_keys };
    assert(t@.columns =~= role_level_table().columns);
    assert(t@.foreign_keys =~= role_level_table().foreign_keys);
    t
}

/// The operations `up` runs, in order.
pub open spec fn up_plan() -> PlanView {
    PlanView {
        ops: seq![
            SchemaOpView::CreateTable(account_table()),
            SchemaOpView::CreateTable(user_table()),
            SchemaOpView::CreateTable(clan_table()),
            SchemaOpView::CreateTable(clan_user_table()),
            SchemaOpView::CreateTable(medal_table()),
            SchemaOpView::CreateEnum { name: "reward_type"@, values: seq!["Promote"@, "Medal"@, "Xp"@, "Rank"@] },
            SchemaOpView::CreateTable(event_table()),
            SchemaOpView::CreateTable(role_level_table()),
        ],
        stop_on_error: true,
    }
}

/// The operations `down` runs, in order.
pub open spec fn down_plan() -> PlanView {
    PlanView {
        ops: seq![
            SchemaOpView::DropTable("account"@),
            SchemaOpView::DropTable("user"@),
            SchemaOpView::DropTable("clan"@),
            SchemaOpView::DropTable("clan_user"@),
            SchemaOpView::DropTable("medal"@),
            SchemaOpView::DropTable("event"@),
            SchemaOpView::DropTable("role_level"@),
            SchemaOpView::DropEnum("reward_type"@),
        ],
        stop_on_error: true,
    }
}

/// The migration.
#[derive(Debug)]
pub struct Migration;

impl Migration {
    /// The plan that creates the schema.
    pub fn up(&self) -> (p: MigrationPlan)
        ensures
            p@ == up_plan(),
    {
        let mut ops: Vec<SchemaOp> = Vec::new();
        ops.push(SchemaOp::CreateTable(account_table_exec()));
        ops.push(SchemaOp::CreateTable(user_table_exec()));
        ops.push(SchemaOp::CreateTable(clan_table_exec()));
        ops.push(SchemaOp::CreateTable(clan_user_table_exec()));
        ops.push(SchemaOp::CreateTable(medal_table_exec()));
        ops.push({
        let mut values: Vec<std::string::String> = Vec::new();
        values.push("Promote".to_owned());
        values.push("Medal".to_owned());
        values.push("Xp".to_owned());
        values.push("Rank".to_owned());
        assert(values@.map_values(|v: std::string::String| v@) =~= seq!["Promote"@, "Medal"@, "Xp"@, "Rank"@]);
        SchemaOp::CreateEnum { name: "reward_type".to_owned(), values }
    });
        ops.push(SchemaOp::CreateTable(event_table_exec()));
        ops.push(SchemaOp::CreateTable(role_level_table_exec()));
        let p = MigrationPlan { ops, stop_on_error: true };
        assert(p@.ops =~= up_plan().ops);
        p
    }

    /// The plan that removes the schema.
    pub fn down(&self) -> (p: MigrationPlan)
        ensures
            p@ == down_plan(),
    {
        let mut ops: Vec<SchemaOp> = Vec::new();
        ops.push(SchemaOp::DropTable("account".to_owned()));
        ops.push(SchemaOp::DropTable("user".to_owned()));
        ops.push(SchemaOp::DropTable("clan".to_owned()));
        ops.push(SchemaOp::DropTable("clan_user".to_owned()));
        ops.push(SchemaOp::DropTable("medal".to_owned()));
        ops.push(SchemaOp::DropTable("event".to_owned()));
        ops.push(SchemaOp::DropTable("role_level".to_owned()));
        ops.push(SchemaOp::DropEnum("reward_type".to_owned()));
        let p = MigrationPlan { ops, stop_on_error: true };
        assert(p@.ops =~= down_plan().ops);
        p
    }
}

/// `down` drops exactly the tables that `up` creates, and the enum type that
/// `up` creates.
pub proof fn lemma_down_undoes_up()
    ensures
        created_tables(up_plan()) == dropped_tables(down_plan()),
        created_enums(up_plan()) == dropped_enums(down_plan()),
{
    let up = up_plan();
    let down = down_plan();
    assert forall|n: Seq<char>| created_tables(up).contains(n) implies dropped_tables(down).contains(n) by {
        let i = choose|i: int| 0 <= i < up.ops.len() && #[trigger] up.ops[i] is CreateTable && op_name(up.ops[i]) == n;
        let j = if i < 5 { i } else { i - 1 };
        assert(down.ops[j] is DropTable && op_name(down.ops[j]) == n);
    }
    assert forall|n: Seq<char>| dropped_tables(down).contains(n) implies created_tables(up).contains(n) by {
        let j = choose|j: int| 0 <= j < down.ops.len() && #[trigger] down.ops[j] is DropTable && op_name(down.ops[j]) == n;
        let i = if j < 5 { j } else { j + 1 };
        assert(up.ops[i] is CreateTable && op_name(up.ops[i]) == n);
    }
    assert(created_tables(up) =~= dropped_tables(down));
    assert forall|n: Seq<char>| created_enums(up).contains(n) implies dropped_enums(down).contains(n) by {
        let i = choose|i: int| 0 <= i < up.ops.len() && #[trigger] up.ops[i] is CreateEnum && op_name(up.ops[i]) == n;
        assert(i == 5);
        assert(down.ops[7] is DropEnum && op_name(down.ops[7]) == n);
    }
    assert forall|n: Seq<char>| dropped_enums(down).contains(n) implies created_enums(up).contains(n) by {
        let j = choose|j: int| 0 <= j < down.ops.len() && #[trigger] down.ops[j] is DropEnum && op_name(down.ops[j]) == n;
        assert(j == 7);
        assert(up.ops[5] is CreateEnum && op_name(up.ops[5]) == n);
    }
    assert(created_enums(up) =~= dropped_enums(down));
}

/// Every foreign key that `up` declares refers, by `id`, to a table that
/// `up` has created before.
pub proof fn lemma_up_foreign_keys_resolve()
    ensures
        foreign_keys_resolve(up_plan()),
{
    let up = up_plan();
    assert(up.ops[1] is CreateTable && op_name(up.ops[1]) == "user"@);
    assert(up.ops[2] is CreateTable && op_name(up.ops[2]) == "clan"@);
    assert forall|i: int| 0 <= i < up.ops.len() implies match #[trigger] up.ops[i] {
        SchemaOpView::CreateTable(t) => table_fks_resolve(up, i, t),
        _ => true,
    } by {
        if i == 3 {
            let t = clan_user_table();
            assert(fk_resolves(up, i, t.foreign_keys[0]));
            assert(fk_resolves(up, i, t.foreign_keys[1]));
        } else if i == 6 {
            let t = event_table();
            assert(fk_resolves(up, i, t.foreign_keys[0]));
        } else if i == 7 {
            let t = role_level_table();
            assert(fk_resolves(up, i, t.foreign_keys[0]));
        }
    }
}

/// Every foreign key that `up` declares (`clan_user.clan_id` and
/// `clan_user.user_id`, `event.clan_id`, `role_level.clan_id`) deletes the
/// referring rows when the referred clan or user is deleted.
pub proof fn lemma_up_foreign_keys_cascade()
    ensures
        foreign_keys_cascade(up_plan()),
{
    let up = up_plan();
    assert forall|i: int| 0 <= i < up.ops.len() implies match #[trigger] up.ops[i] {
        SchemaOpView::CreateTable(t) => forall|k: int| 0 <= k < t.foreign_keys.len() ==> (#[trigger] t.foreign_keys[k]).on_delete == OnDelete::Cascade,
        _ => true,
    } by {
        if i == 3 {
            let t = clan_user_table();
            assert(t.foreign_keys.len() == 2);
        }
    }
}

/// `up` makes each Roblox account storable once (`account.roblox_id`), each
/// Discord account and each Roblox account linkable once (`user.discord_id`,
/// the column the verification upsert conflicts on, and `user.roblox_id`),
/// and each Discord server, Roblox group, ranker and API token usable by one
/// `clan` row only: all these columns are NOT NULL and UNIQUE.
pub proof fn lemma_up_unique_columns()
    ensures
        creates_unique_column(up_plan(), "account"@, "roblox_id"@, ColumnTypeView::BigInteger, Nullability::NotNull),
        creates_unique_column(up_plan(), "user"@, "discord_id"@, ColumnTypeView::Text, Nullability::NotNull),
        creates_unique_column(up_plan(), "user"@, "roblox_id"@, ColumnTypeView::BigInteger, Nullability::NotNull),
        creates_unique_column(up_plan(), "clan"@, "discord_guild_id"@, ColumnTypeView::Text, Nullability::NotNull),
        creates_unique_column(up_plan(), "clan"@, "roblox_group_id"@, ColumnTypeView::BigInteger, Nullability::NotNull),
        creates_unique_column(up_plan(), "clan"@, "ranker_roblox_id"@, ColumnTypeView::BigInteger, Nullability::NotNull),
        creates_unique_column(up_plan(), "clan"@, "api_auth_token"@, ColumnTypeView::Uuid, Nullability::NotNull),
{
    let up = up_plan();
    let a = up.ops[0]->CreateTable_0;
    let u = up.ops[1]->CreateTable_0;
    let g = up.ops[2]->CreateTable_0;
    assert(up.ops[0] is CreateTable && op_name(up.ops[0]) == "account"@);
    assert(up.ops[1] is CreateTable && op_name(up.ops[1]) == "user"@);
    assert(up.ops[2] is CreateTable && op_name(up.ops[2]) == "clan"@);
    assert(has_unique_column(a, "roblox_id"@, ColumnTypeView::BigInteger, Nullability::NotNull)) by {
        assert(a.columns[2].name == "roblox_id"@);
    }
    assert(has_unique_column(u, "discord_id"@, ColumnTypeView::Text, Nullability::NotNull)) by {
        assert(u.columns[1].name == "discord_id"@);
    }
    assert(has_unique_column(u, "roblox_id"@, ColumnTypeView::BigInteger, Nullability::NotNull)) by {
        assert(u.columns[2].name == "roblox_id"@);
    }
    assert(has_unique_column(g, "discord_guild_id"@, ColumnTypeView::Text, Nullability::NotNull)) by {
        assert(g.columns[1].name == "discord_guild_id"@);
    }
    assert(has_unique_column(g, "roblox_group_id"@, ColumnTypeView::BigInteger, Nullability::NotNull)) by {
        assert(g.columns[2].name == "roblox_group_id"@);
    }
    assert(has_unique_column(g, "ranker_roblox_id"@, ColumnTypeView::BigInteger, Nullability::NotNull)) by {
        assert(g.columns[3].name == "ranker_roblox_id"@);
    }
    assert(has_unique_column(g, "api_auth_token"@, ColumnTypeView::Uuid, Nullability::NotNull)) by {
        assert(g.columns[4].name == "api_auth_token"@);
    }
}

} // verus!

//! The first schema: accounts, users, guilds and guild members; failed operations are ignored.

use vstd::prelude::*;
use super::schema::{
    Column, ColumnDefault, ColumnType, ColumnTypeView, ForeignKey, MigrationPlan, Nullability, PlanView, SchemaOp,
    SchemaOpView, Table, TableView, column, column_view, created_enums, created_tables, dropped_enums,
    dropped_tables, creates_unique_column, has_unique_column, foreign_keys_resolve, op_name, pk_uuid, pk_uuid_view,
    with_default,
};

verus! {

/// The `account` table.
pub open spec fn account_table() -> TableView {
    TableView {
        name: "account"@,
        columns: seq![
            pk_uuid_view("id"@),
            column_view("roblox_name"@, ColumnTypeView::Text, Nullability::NotNull, false),
            column_view("roblox_id"@, ColumnTypeView::BigInteger, Nullability::NotNull, true),
            column_view("password"@, ColumnTypeView::Text, Nullability::NotNull, false),
            column_view("cookie"@, ColumnTypeView::Text, Nullability::NotNull, false),
        ],
        foreign_keys: seq![],
    }
}

fn account_table_exec() -> (t: Table)
    ensures
        t@ == account_table(),
{
    let mut columns: Vec<Column> = Vec::new();
    columns.push(pk_uuid("id"));
    columns.push(column("roblox_name", ColumnType::Text, Nullability::NotNull, false));
    columns.push(column("roblox_id", ColumnType::BigInteger, Nullability::NotNull, true));
    columns.push(column("password", ColumnType::Text, Nullability::NotNull, false));
    columns.push(column("cookie", ColumnType::Text, Nullability::NotNull, false));
    let mut foreign_keys: Vec<ForeignKey> = Vec::new();
    let t = Table { name: "account".to_owned(), columns, foreign_keys };
    assert(t@.columns =~= account_table().columns);
    assert(t@.foreign_keys =~= account_table().foreign_keys);
    t
}

/// The `user` table.
pub open spec fn user_table() -> TableView {
    TableView {
        name: "user"@,
        columns: seq![
            pk_uuid_view("id"@),
            column_view("discord_id"@, ColumnTypeView::Text, Nullability::NotNull, true),
            column_view("roblox_id"@, ColumnTypeView::BigInteger, Nullability::NotNull, true),
        ],
        foreign_keys: seq![],
    }
}

fn user_table_exec() -> (t: Table)
    ensures
        t@ == user_table(),
{
    let mut columns: Vec<Column> = Vec::new();
    columns.push(pk_uuid("id"));
    columns.push(column("discord_id", ColumnType::Text, Nullability::NotNull, true));
    columns.push(column("roblox_id", ColumnType::BigInteger, Nullability::NotNull, true));
    let mut foreign_keys: Vec<ForeignKey> = Vec::new();
    let t = Table { name: "user".to_owned(), columns, foreign_keys };
    assert(t@.columns =~= user_table().columns);
    assert(t@.foreign_keys =~= user_table().foreign_keys);
    t
}

/// The `guild` table.
pub open spec fn guild_table() -> TableView {
    TableView {
        name: "guild"@,
        columns: seq![
            pk_uuid_view("id"@),
            column_view("discord_guild_id"@, ColumnTypeView::Text, Nullability::NotNull, true),
            column_view("roblox_group_id"@, ColumnTypeView::BigInteger, Nullability::NotNull, true),
            column_view("ranker_roblox_id"@, ColumnTypeView::BigInteger, Nullability::NotNull, true),
            column_view("api_auth_token"@, ColumnTypeView::Uuid, Nullability::NotNull, true),
            with_default(column_view("xp_enabled"@, ColumnTypeView::Boolean, Nullability::NotNull, false), ColumnDefault::Bool(false)),
            with_default(column_view("api_enabled"@, ColumnTypeView::Boolean, Nullability::NotNull, false), ColumnDefault::Bool(false)),
            column_view("ranking_access_roles"@, ColumnTypeView::TextArray, Nullability::NotNull, false),
            column_view("ranking_requester_roles"@, ColumnTypeView::TextArray, Nullability::NotNull, false),
            column_view("verification_role"@, ColumnTypeView::Text, Nullability::Null, false),
            column_view("ranking_log_channel"@, ColumnTypeView::Text, Nullability::NotNull, false),
            column_view("ranking_request_channel"@, ColumnTypeView::Text, Nullability::Null, false),
            column_view("event_display_channel"@, ColumnTypeView::Text, Nullability::Null, false),
            column_view("event_panel_channel"@, ColumnTypeView::Text, Nullability::Null, false),
        ],
        foreign_keys: seq![],
    }
}

fn guild_table_exec() -> (t: Table)
    ensures
        t@ == guild_table(),
{
    let mut columns: Vec<Column> = Vec::new();
    columns.push(pk_uuid("id"));
    columns.push(column("discord_guild_id", ColumnType::Text, Nullability::NotNull, true));
    columns.push(column("roblox_group_id", ColumnType::BigInteger, Nullability::NotNull, true));
    columns.push(column("ranker_roblox_id", ColumnType::BigInteger, Nullability::NotNull, true));
    columns.push(column("api_auth_token", ColumnType::Uuid, Nullability::NotNull, true));
    columns.push(column("xp_enabled", ColumnType::Boolean, Nullability::NotNull, false).default(ColumnDefault::Bool(false)));
    columns.push(column("api_enabled", ColumnType::Boolean, Nullability::NotNull, false).default(ColumnDefault::Bool(false)));
    columns.push(column("ranking_access_roles", ColumnType::TextArray, Nullability::NotNull, false));
    columns.push(column("ranking_requester_roles", ColumnType::TextArray, Nullability::NotNull, false));
    columns.push(column("verification_role", ColumnType::Text, Nullability::Null, false));
    columns.push(column("ranking_log_channel", ColumnType::Text, Nullability::NotNull, false));
    columns.push(column("ranking_request_channel", ColumnType::Text, Nullability::Null, false));
    columns.push(column("event_display_channel", ColumnType::Text, Nullability::Null, false));
    columns.push(column("event_panel_channel", ColumnType::Text, Nullability::Null, false));
    let mut foreign_keys: Vec<ForeignKey> = Vec::new();
    let t = Table { name: "guild".to_owned(), columns, foreign_keys };
    assert(t@.columns =~= guild_table().columns);
    assert(t@.foreign_keys =~= guild_table().foreign_keys);
    t
}

/// The `guild_user` table.
pub open spec fn guild_user_table() -> TableView {
    TableView {
        name: "guild_user"@,
        columns: seq![
            pk_uuid_view("id"@),
            column_view("discord_id"@, ColumnTypeView::Text, Nullability::NotNull, false),
            column_view("guild_id"@, ColumnTypeView::Text, Nullability::NotNull, false),
            with_default(column_view("xp_level"@, ColumnTypeView::Integer, Nullability::NotNull, false), ColumnDefault::Int(0)),
        ],
        foreign_keys: seq![],
    }
}

fn guild_user_table_exec() -> (t: Table)
    ensures
        t@ == guild_user_table(),
{
    let mut columns: Vec<Column> = Vec::new();
    columns.push(pk_uuid("id"));
    columns.push(column("discord_id", ColumnType::Text, Nullability::NotNull, false));
    columns.push(column("guild_id", ColumnType::Text, Nullability::NotNull, false));
    columns.push(column("xp_level", ColumnType::Integer, Nullability::NotNull, false).default(ColumnDefault::Int(0)));
    let mut foreign_keys: Vec<ForeignKey> = Vec::new();
    let t = Table { name: "guild_user".to_owned(), columns, foreign_keys };
    assert(t@.columns =~= guild_user_table().columns);
    assert(t@.foreign_keys =~= guild_user_table().foreign_keys);
    t
}

/// The operations `up` runs, in order.
pub open spec fn up_plan() -> PlanView {
    PlanView {
        ops: seq![
            SchemaOpView::CreateTable(account_table()),
            SchemaOpView::CreateTable(user_table()),
            SchemaOpView::CreateTable(guild_table()),
            SchemaOpView::CreateTable(guild_user_table()),
        ],
        stop_on_error: false,
    }
}

/// The operations `down` runs, in order.
pub open spec fn down_plan() -> PlanView {
    PlanView {
        ops: seq![
            SchemaOpView::DropTable("account"@),
            SchemaOpView::DropTable("user"@),
            SchemaOpView::DropTable("guild"@),
            SchemaOpView::DropTable("guild_user"@),
        ],
        stop_on_error: false,
    }
}

/// The migration.
#[derive(Debug)]
pub struct Migration;

impl Migration {
    /// The plan that creates the schema.
    pub fn up(&self) -> (p: MigrationPlan)
        ensures
            p@ == up_plan(),
    {
        let mut ops: Vec<SchemaOp> = Vec::new();
        ops.push(SchemaOp::CreateTable(account_table_exec()));
        ops.push(SchemaOp::CreateTable(user_table_exec()));
        ops.push(SchemaOp::CreateTable(guild_table_exec()));
        ops.push(SchemaOp::CreateTable(guild_user_table_exec()));
        let p = MigrationPlan { ops, stop_on_error: false };
        assert(p@.ops =~= up_plan().ops);
        p
    }

    /// The plan that removes the schema.
    pub fn down(&self) -> (p: MigrationPlan)
        ensures
            p@ == down_plan(),
    {
        let mut ops: Vec<SchemaOp> = Vec::new();
        ops.push(SchemaOp::DropTable("account".to_owned()));
        ops.push(SchemaOp::DropTable("user".to_owned()));
        ops.push(SchemaOp::DropTable("guild".to_owned()));
        ops.push(SchemaOp::DropTable("guild_user".to_owned()));
        let p = MigrationPlan { ops, stop_on_error: false };
        assert(p@.ops =~= down_plan().ops);
        p
    }
}

/// `down` drops exactly the tables that `up` creates.
pub proof fn lemma_down_undoes_up()
    ensures
        created_tables(up_plan()) == dropped_tables(down_plan()),
        created_enums(up_plan()) == dropped_enums(down_plan()),
{
    let up = up_plan();
    let down = down_plan();
    assert forall|n: Seq<char>| created_tables(up).contains(n) implies dropped_tables(down).contains(n) by {
        let i = choose|i: int| 0 <= i < up.ops.len() && #[trigger] up.ops[i] is CreateTable && op_name(up.ops[i]) == n;
        assert(down.ops[i] is DropTable && op_name(down.ops[i]) == n);
    }
    assert forall|n: Seq<char>| dropped_tables(down).contains(n) implies created_tables(up).contains(n) by {
        let j = choose|j: int| 0 <= j < down.ops.len() && #[trigger] down.ops[j] is DropTable && op_name(down.ops[j]) == n;
        assert(up.ops[j] is CreateTable && op_name(up.ops[j]) == n);
    }
    assert(created_tables(up) =~= dropped_tables(down));
    assert(created_enums(up) =~= Set::<Seq<char>>::empty());
    assert(dropped_enums(down) =~= Set::<Seq<char>>::empty());
}

/// `up` declares no foreign key, so none can dangle.
pub proof fn lemma_up_foreign_keys_resolve()
    ensures
        foreign_keys_resolve(up_plan()),
{
}

/// `up` makes each Roblox account storable once (`account.roblox_id`), each
/// Discord account and each Roblox account linkable once (`user.discord_id`,
/// the column the verification upsert conflicts on, and `user.roblox_id`),
/// and each Discord server, Roblox group, ranker and API token usable by one
/// `guild` row only: all these columns are NOT NULL and UNIQUE.
pub proof fn lemma_up_unique_columns()
    ensures
        creates_unique_column(up_plan(), "account"@, "roblox_id"@, ColumnTypeView::BigInteger, Nullability::NotNull),
        creates_unique_column(up_plan(), "user"@, "discord_id"@, ColumnTypeView::Text, Nullability::NotNull),
        creates_unique_column(up_plan(), "user"@, "roblox_id"@, ColumnTypeView::BigInteger, Nullability::NotNull),
        creates_unique_column(up_plan(), "guild"@, "discord_guild_id"@, ColumnTypeView::Text, Nullability::NotNull),
        creates_unique_column(up_plan(), "guild"@, "roblox_group_id"@, ColumnTypeView::BigInteger, Nullability::NotNull),
        creates_unique_column(up_plan(), "guild"@, "ranker_roblox_id"@, ColumnTypeView::BigInteger, Nullability::NotNull),
        creates_unique_column(up_plan(), "guild"@, "api_auth_token"@, ColumnTypeView::Uuid, Nullability::NotNull),
{
    let up = up_plan();
    let a = up.ops[0]->CreateTable_0;
    let u = up.ops[1]->CreateTable_0;
    let g = up.ops[2]->CreateTable_0;
    assert(up.ops[0] is CreateTable && op_name(up.ops[0]) == "account"@);
    assert(up.ops[1] is CreateTable && op_name(up.ops[1]) == "user"@);
    assert(up.ops[2] is CreateTable && op_name(up.ops[2]) == "guild"@);
    assert(has_unique_column(a, "roblox_id"@, ColumnTypeView::BigInteger, Nullability::NotNull)) by {
        assert(a.columns[2].name == "roblox_id"@);
    }
    assert(has_unique_column(u, "discord_id"@, ColumnTypeView::Text, Nullability::NotNull)) by {
        assert(u.columns[1].name == "discord_id"@);
    }
    assert(has_unique_column(u, "roblox_id"@, ColumnTypeView::BigInteger, Nullability::NotNull)) by {
        assert(u.columns[2].name == "roblox_id"@);
    }
    assert(has_unique_column(g, "discord_guild_id"@, ColumnTypeView::Text, Nullability::NotNull)) by {
        assert(g.columns[1].name == "discord_guild_id"@);
    }
    assert(has_unique_column(g, "roblox_group_id"@, ColumnTypeView::BigInteger, Nullability::NotNull)) by {
        assert(g.columns[2].name == "roblox_group_id"@);
    }
    assert(has_unique_column(g, "ranker_roblox_id"@, ColumnTypeView::BigInteger, Nullability::NotNull)) by {
        assert(g.columns[3].name == "ranker_roblox_id"@);
    }
    assert(has_unique_column(g, "api_auth_token"@, ColumnTypeView::Uuid, Nullability::NotNull)) by {
        assert(g.columns[4].name == "api_auth_token"@);
    }
}

} // verus!

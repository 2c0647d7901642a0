//! Schema operations: tables with typed columns and foreign keys, enum types,
//! and dropping them; and the order in which a plan of them is run.

use vstd::prelude::*;

verus! {

/// The type of a column.
#[derive(Debug)]
pub enum ColumnType {
    Uuid,
    Text,
    String,
    BigInteger,
    Integer,
    Boolean,
    Timestamp,
    /// An array of text values.
    TextArray,
    /// A type created by the plan, by name.
    Custom(std::string::String),
}

/// The default value of a column.
#[derive(PartialEq, Eq, Structural, Clone, Copy, Debug)]
pub enum ColumnDefault {
    /// A fresh random UUID (`gen_random_uuid()`).
    RandomUuid,
    Bool(bool),
    Int(i32),
}

/// Whether a column may hold NULL.
#[derive(PartialEq, Eq, Structural, Clone, Copy, Debug)]
pub enum Nullability {
    NotNull,
    Null,
    /// Left to the database's default.
    Unspecified,
}

/// A column of a table.
#[derive(Debug)]
pub struct Column {
    pub name: std::string::String,
    pub ty: ColumnType,
    pub nullability: Nullability,
    pub unique: bool,
    pub primary_key: bool,
    pub default: Option<ColumnDefault>,
}

/// What the database does to the referring rows when a referred row is
/// deleted.
#[derive(PartialEq, Eq, Structural, Clone, Copy, Debug)]
pub enum OnDelete {
    /// Refuses the delete.
    Restrict,
    /// Deletes the referring rows too.
    Cascade,
    /// Sets the referring column to NULL.
    SetNull,
    /// Refuses the delete at the end of the statement.
    NoAction,
    /// Sets the referring column to its default.
    SetDefault,
}

/// A foreign key: `column` refers to `to_column` of `to_table`, and
/// `on_delete` says what happens to the referring rows when the referred row
/// is deleted.
#[derive(Debug)]
pub struct ForeignKey {
    pub column: std::string::String,
    pub to_table: std::string::String,
    pub to_column: std::string::String,
    pub on_delete: OnDelete,
}

/// A table, created only if it does not exist.
#[derive(Debug)]
pub struct Table {
    pub name: std::string::String,
    pub columns: Vec<Column>,
    pub foreign_keys: Vec<ForeignKey>,
}

/// One schema operation.
#[derive(Debug)]
pub enum SchemaOp {
    CreateTable(Table),
    /// Creates an enum type with these values.
    CreateEnum { name: std::string::String, values: Vec<std::string::String> },
    DropTable(std::string::String),
    DropEnum(std::string::String),
}

/// A plan: the operations in order, and whether a failed operation stops the
/// run with its error (otherwise failures are ignored and the run succeeds).
#[derive(Debug)]
pub struct MigrationPlan {
    pub ops: Vec<SchemaOp>,
    pub stop_on_error: bool,
}

pub enum ColumnTypeView {
    Uuid,
    Text,
    String,
    BigInteger,
    Integer,
    Boolean,
    Timestamp,
    TextArray,
    Custom(Seq<char>),
}

pub struct ColumnView {
    pub name: Seq<char>,
    pub ty: ColumnTypeView,
    pub nullability: Nullability,
    pub unique: bool,
    pub primary_key: bool,
    pub default: Option<ColumnDefault>,
}

pub struct ForeignKeyView {
    pub column: Seq<char>,
    pub to_table: Seq<char>,
    pub to_column: Seq<char>,
    pub on_delete: OnDelete,
}

pub struct TableView {
    pub name: Seq<char>,
    pub columns: Seq<ColumnView>,
    pub foreign_keys: Seq<ForeignKeyView>,
}

pub enum SchemaOpView {
    CreateTable(TableView),
    CreateEnum { name: Seq<char>, values: Seq<Seq<char>> },
    DropTable(Seq<char>),
    DropEnum(Seq<char>),
}

pub struct PlanView {
    pub ops: Seq<SchemaOpView>,
    pub stop_on_error: bool,
}

impl View for ColumnType {
    type V = ColumnTypeView;

    open spec fn view(&self) -> ColumnTypeView {
        match self {
            ColumnType::Uuid => ColumnTypeView::Uuid,
            ColumnType::Text => ColumnTypeView::Text,
            ColumnType::String => ColumnTypeView::String,
            ColumnType::BigInteger => ColumnTypeView::BigInteger,
            ColumnType::Integer => ColumnTypeView::Integer,
            ColumnType::Boolean => ColumnTypeView::Boolean,
            ColumnType::Timestamp => ColumnTypeView::Timestamp,
            ColumnType::TextArray => ColumnTypeView::TextArray,
            ColumnType::Custom(n) => ColumnTypeView::Custom(n@),
        }
    }
}

impl View for Column {
    type V = ColumnView;

    open spec fn view(&self) -> ColumnView {
        ColumnView {
            name: self.name@,
            ty: self.ty@,
            nullability: self.nullability,
            unique: self.unique,
            primary_key: self.primary_key,
            default: self.default,
        }
    }
}

impl View for ForeignKey {
    type V = ForeignKeyView;

    open spec fn view(&self) -> ForeignKeyView {
        ForeignKeyView { column: self.column@, to_table: self.to_table@, to_column: self.to_column@, on_delete: self.on_delete }
    }
}

impl View for Table {
    type V = TableView;

    open spec fn view(&self) -> TableView {
        TableView {
            name: self.name@,
            columns: self.columns@.map_values(|c: Column| c@),
            foreign_keys: self.foreign_keys@.map_values(|f: ForeignKey| f@),
        }
    }
}

impl View for SchemaOp {
    type V = SchemaOpView;

    open spec fn view(&self) -> SchemaOpView {
        match self {
            SchemaOp::CreateTable(t) => SchemaOpView::CreateTable(t@),
            SchemaOp::CreateEnum { name, values } => SchemaOpView::CreateEnum {
                name: name@,
                values: values@.map_values(|v: std::string::String| v@),
            },
            SchemaOp::DropTable(n) => SchemaOpView::DropTable(n@),
            SchemaOp::DropEnum(n) => SchemaOpView::DropEnum(n@),
        }
    }
}

impl View for MigrationPlan {
    type V = PlanView;

    open spec fn view(&self) -> PlanView {
        PlanView { ops: self.ops@.map_values(|o: SchemaOp| o@), stop_on_error: self.stop_on_error }
    }
}

/// A column with the given properties.
pub open spec fn column_view(name: Seq<char>, ty: ColumnTypeView, nullability: Nullability, unique: bool) -> ColumnView {
    ColumnView { name, ty, nullability, unique, primary_key: false, default: None }
}

/// A UUID primary key, not null.
pub open spec fn pk_uuid_view(name: Seq<char>) -> ColumnView {
    ColumnView { primary_key: true, ..column_view(name, ColumnTypeView::Uuid, Nullability::NotNull, false) }
}

/// The column with a default value.
pub open spec fn with_default(c: ColumnView, d: ColumnDefault) -> ColumnView {
    ColumnView { default: Some(d), ..c }
}

/// A foreign key referring to the `id` column of `to_table`, with the given
/// delete action.
pub open spec fn fk_view(column: Seq<char>, to_table: Seq<char>, on_delete: OnDelete) -> ForeignKeyView {
    ForeignKeyView { column, to_table, to_column: "id"@, on_delete }
}

/// Builds a column.
pub fn column(name: &str, ty: ColumnType, nullability: Nullability, unique: bool) -> (c: Column)
    ensures
        c@ == column_view(name@, ty@, nullability, unique),
{
    Column { name: name.to_owned(), ty, nullability, unique, primary_key: false, default: None }
}

/// A UUID primary key.
pub fn pk_uuid(name: &str) -> (c: Column)
    ensures
        c@ == pk_uuid_view(name@),
{
    Column { primary_key: true, ..column(name, ColumnType::Uuid, Nullability::NotNull, false) }
}

impl Column {
    /// The same column with a default value.
    pub fn default(self, d: ColumnDefault) -> (c: Column)
        ensures
            c@ == with_default(self@, d),
    {
        Column { default: Some(d), ..self }
    }
}

/// A foreign key to the `id` column of `to_table`, with the given delete
/// action.
pub fn fk(column: &str, to_table: &str, on_delete: OnDelete) -> (f: ForeignKey)
    ensures
        f@ == fk_view(column@, to_table@, on_delete),
{
    ForeignKey { column: column.to_owned(), to_table: to_table.to_owned(), to_column: "id".to_owned(), on_delete }
}

/// The table a plan operation creates or drops (the name of the type for
/// enum operations).
pub open spec fn op_name(op: SchemaOpView) -> Seq<char> {
    match op {
        SchemaOpView::CreateTable(t) => t.name,
        SchemaOpView::CreateEnum { name, .. } => name,
        SchemaOpView::DropTable(n) => n,
        SchemaOpView::DropEnum(n) => n,
    }
}

/// The names of the tables a plan creates.
pub open spec fn created_tables(p: PlanView) -> Set<Seq<char>> {
    Set::new(|n: Seq<char>| exists|i: int| 0 <= i < p.ops.len() && #[trigger] p.ops[i] is CreateTable && op_name(p.ops[i]) == n)
}

/// The names of the tables a plan drops.
pub open spec fn dropped_tables(p: PlanView) -> Set<Seq<char>> {
    Set::new(|n: Seq<char>| exists|i: int| 0 <= i < p.ops.len() && #[trigger] p.ops[i] is DropTable && op_name(p.ops[i]) == n)
}

/// The names of the enum types a plan creates.
pub open spec fn created_enums(p: PlanView) -> Set<Seq<char>> {
    Set::new(|n: Seq<char>| exists|i: int| 0 <= i < p.ops.len() && #[trigger] p.ops[i] is CreateEnum && op_name(p.ops[i]) == n)
}

/// The names of the enum types a plan drops.
pub open spec fn dropped_enums(p: PlanView) -> Set<Seq<char>> {
    Set::new(|n: Seq<char>| exists|i: int| 0 <= i < p.ops.len() && #[trigger] p.ops[i] is DropEnum && op_name(p.ops[i]) == n)
}

/// The table has a column `name` of type `ty`, with this nullability, that
/// holds no value twice (a UNIQUE constraint).
pub open spec fn has_unique_column(t: TableView, name: Seq<char>, ty: ColumnTypeView, nullability: Nullability) -> bool {
    exists|j: int|
        0 <= j < t.columns.len() && (#[trigger] t.columns[j]).name == name && t.columns[j].unique
            && t.columns[j].ty == ty && t.columns[j].nullability == nullability
}

/// The plan creates a table named `table` that has such a unique column.
pub open spec fn creates_unique_column(p: PlanView, table: Seq<char>, name: Seq<char>, ty: ColumnTypeView, nullability: Nullability) -> bool {
    exists|i: int|
        0 <= i < p.ops.len() && #[trigger] p.ops[i] is CreateTable && op_name(p.ops[i]) == table
            && has_unique_column(p.ops[i]->CreateTable_0, name, ty, nullability)
}

/// Every foreign key of every table the plan creates deletes the referring
/// rows when the referred row is deleted.
pub open spec fn foreign_keys_cascade(p: PlanView) -> bool {
    forall|i: int| 0 <= i < p.ops.len() ==> match #[trigger] p.ops[i] {
        SchemaOpView::CreateTable(t) => forall|k: int| 0 <= k < t.foreign_keys.len() ==> (#[trigger] t.foreign_keys[k]).on_delete == OnDelete::Cascade,
        _ => true,
    }
}

/// The foreign key refers, by its primary key `id`, to a table created by
/// one of the first `i` operations of the plan.
pub open spec fn fk_resolves(p: PlanView, i: int, f: ForeignKeyView) -> bool {
    f.to_column == "id"@ && exists|j: int| 0 <= j < i && #[trigger] p.ops[j] is CreateTable && op_name(p.ops[j]) == f.to_table
}

/// Every foreign key of the table resolves before operation `i`.
pub open spec fn table_fks_resolve(p: PlanView, i: int, t: TableView) -> bool {
    forall|k: int| 0 <= k < t.foreign_keys.len() ==> fk_resolves(p, i, #[trigger] t.foreign_keys[k])
}

/// Every foreign key of a table the plan creates refers to a table created
/// earlier in the plan, by its primary key `id`.
pub open spec fn foreign_keys_resolve(p: PlanView) -> bool {
    forall|i: int| 0 <= i < p.ops.len() ==> match #[trigger] p.ops[i] {
        SchemaOpView::CreateTable(t) => table_fks_resolve(p, i, t),
        _ => true,
    }
}

/// What a run does next.
#[derive(PartialEq, Eq, Structural, Clone, Copy, Debug)]
pub enum RunStep {
    /// Run the operation with this index.
    Execute(usize),
    /// Stop with the error of the operation just run.
    Fail,
    /// The run is over and succeeded.
    Succeed,
}

/// The step after `executed` operations have run, the last of them with
/// outcome `last_ok` (`true` when none has run yet).
pub open spec fn run_next(p: PlanView, executed: nat, last_ok: bool) -> RunStep {
    if !last_ok && p.stop_on_error {
        RunStep::Fail
    } else if executed < p.ops.len() {
        RunStep::Execute(executed as usize)
    } else {
        RunStep::Succeed
    }
}

/// Decides the next step of a run: stop at a failure when the plan says so,
/// else run the next operation, else succeed.
pub fn next_step(plan: &MigrationPlan, executed: usize, last_ok: bool) -> (r: RunStep)
    requires
        executed <= plan.ops@.len(),
    ensures
        r == run_next(plan@, executed as nat, last_ok),
{
    if !last_ok && plan.stop_on_error {
        RunStep::Fail
    } else if executed < plan.ops.len() {
        RunStep::Execute(executed)
    } else {
        RunStep::Succeed
    }
}

/// A run only moves forward through the plan: it runs the operations in
/// order, each once; when failures stop it, it succeeds only if the last
/// operation succeeded; when they do not, it always reaches the end.
pub proof fn lemma_run_order(p: PlanView, executed: nat, last_ok: bool)
    requires
        executed <= p.ops.len(),
        executed <= usize::MAX,
    ensures
        run_next(p, executed, last_ok) matches RunStep::Execute(i) ==> i == executed && executed < p.ops.len(),
        run_next(p, executed, last_ok) is Succeed ==> executed == p.ops.len() && (p.stop_on_error ==> last_ok),
        !p.stop_on_error ==> !(run_next(p, executed, last_ok) is Fail),
{
}

} // verus!

//! The schema of the `tasks` table and the migration that creates and drops
//! it, built as `sea_query` statements.
//!
//! The statements are values of `sea_query`, which Verus does not look into.
//! What a statement holds is named by the uninterpreted functions below, and
//! the private functions marked `external_body` state, without proof, what
//! each builder method of `sea_query` does to it.

use sea_query::{ColumnDef, TableCreateStatement, TableDropStatement};
use vstd::prelude::*;

verus! {

/// A column definition under construction.
#[verifier::external_type_specification]
#[verifier::external_body]
pub struct ExColumnDef(sea_query::ColumnDef);

/// A `CREATE TABLE` statement under construction.
#[verifier::external_type_specification]
#[verifier::external_body]
pub struct ExTableCreateStatement(sea_query::TableCreateStatement);

/// A `DROP TABLE` statement under construction.
#[verifier::external_type_specification]
#[verifier::external_body]
pub struct ExTableDropStatement(sea_query::TableDropStatement);

/// The column types that the schema uses.
pub enum ColumnKind {
    /// `ColumnType::Integer`
    Integer,
    /// `ColumnType::String` without a length
    String,
}

/// The column constraints that the schema uses.
pub enum ColumnConstraint {
    /// `ColumnSpec::NotNull`
    NotNull,
    /// `ColumnSpec::AutoIncrement`
    AutoIncrement,
    /// `ColumnSpec::PrimaryKey`
    PrimaryKey,
}

/// What a column definition holds.
pub struct ColumnModel {
    pub name: Seq<char>,
    pub kind: Option<ColumnKind>,
    pub constraints: Seq<ColumnConstraint>,
}

/// The name that a column definition was made with.
pub uninterp spec fn column_name(column: ColumnDef) -> Seq<char>;

/// The type that a column definition was last given, if any.
pub uninterp spec fn column_kind(column: ColumnDef) -> Option<ColumnKind>;

/// The constraints of a column definition, in the order in which they were added.
pub uninterp spec fn column_constraints(column: ColumnDef) -> Seq<ColumnConstraint>;

/// The table that a `CREATE TABLE` statement names, if it names one yet.
pub uninterp spec fn created_table(statement: TableCreateStatement) -> Option<Seq<char>>;

/// Whether a `CREATE TABLE` statement carries the guard `IF NOT EXISTS`.
pub uninterp spec fn created_if_not_exists(statement: TableCreateStatement) -> bool;

/// The columns of a `CREATE TABLE` statement, in the order in which they were added.
pub uninterp spec fn created_columns(statement: TableCreateStatement) -> Seq<ColumnModel>;

/// The tables that a `DROP TABLE` statement names, in the order in which they were added.
pub uninterp spec fn dropped_tables(statement: TableDropStatement) -> Seq<Seq<char>>;

/// Whether a `DROP TABLE` statement carries the guard `IF EXISTS`.
pub uninterp spec fn dropped_if_exists(statement: TableDropStatement) -> bool;

/// What the column definition `column` holds.
pub open spec fn column_model(column: ColumnDef) -> ColumnModel {
    ColumnModel {
        name: column_name(column),
        kind: column_kind(column),
        constraints: column_constraints(column),
    }
}

/// `ColumnDef::new` with an `Alias` of the given name: a definition with that
/// name, no type and no constraint.
#[verifier::external_body]
fn new_column(name: &str) -> (column: ColumnDef)
    ensures
        column_name(column) == name@,
        column_kind(column) is None,
        column_constraints(column) == Seq::<ColumnConstraint>::empty(),
{
    ColumnDef::new(sea_query::Alias::new(name))
}

/// `ColumnDef::integer`: sets the type to integer and leaves the rest.
#[verifier::external_body]
fn set_integer(column: &mut ColumnDef)
    ensures
        column_kind(*final(column)) == Some(ColumnKind::Integer),
        column_name(*final(column)) == column_name(*old(column)),
        column_constraints(*final(column)) == column_constraints(*old(column)),
{
    column.integer();
}

/// `ColumnDef::string`: sets the type to a string without a length and leaves
/// the rest.
#[verifier::external_body]
fn set_string(column: &mut ColumnDef)
    ensures
        column_kind(*final(column)) == Some(ColumnKind::String),
        column_name(*final(column)) == column_name(*old(column)),
        column_constraints(*final(column)) == column_constraints(*old(column)),
{
    column.string();
}

/// `ColumnDef::not_null`: adds the constraint `NOT NULL` after those present.
#[verifier::external_body]
fn add_not_null(column: &mut ColumnDef)
    ensures
        column_constraints(*final(column)) == column_constraints(*old(column)).push(
            ColumnConstraint::NotNull,
        ),
        column_name(*final(column)) == column_name(*old(column)),
        column_kind(*final(column)) == column_kind(*old(column)),
{
    column.not_null();
}

/// `ColumnDef::auto_increment`: adds the auto-increment constraint after
/// those present.
#[verifier::external_body]
fn add_auto_increment(column: &mut ColumnDef)
    ensures
        column_constraints(*final(column)) == column_constraints(*old(column)).push(
            ColumnConstraint::AutoIncrement,
        ),
        column_name(*final(column)) == column_name(*old(column)),
        column_kind(*final(column)) == column_kind(*old(column)),
{
    column.auto_increment();
}

/// `ColumnDef::primary_key`: adds the primary-key constraint after those
/// present.
#[verifier::external_body]
fn add_primary_key(column: &mut ColumnDef)
    ensures
        column_constraints(*final(column)) == column_constraints(*old(column)).push(
            ColumnConstraint::PrimaryKey,
        ),
        column_name(*final(column)) == column_name(*old(column)),
        column_kind(*final(column)) == column_kind(*old(column)),
{
    column.primary_key();
}

/// `Table::create`: a statement that names no table, has no column and
/// carries no guard.
#[verifier::external_body]
fn new_create_statement() -> (statement: TableCreateStatement)
    ensures
        created_table(statement) is None,
        !created_if_not_exists(statement),
        created_columns(statement) == Seq::<ColumnModel>::empty(),
{
    sea_query::Table::create()
}

/// `TableCreateStatement::table` with an `Alias` of the given name: sets the
/// table and leaves the rest.
#[verifier::external_body]
fn set_created_table(statement: &mut TableCreateStatement, name: &str)
    ensures
        created_table(*final(statement)) == Some(name@),
        created_if_not_exists(*final(statement)) == created_if_not_exists(*old(statement)),
        created_columns(*final(statement)) == created_columns(*old(statement)),
{
    statement.table(sea_query::Alias::new(name));
}

/// `TableCreateStatement::if_not_exists`: sets the guard and leaves the rest.
#[verifier::external_body]
fn set_if_not_exists(statement: &mut TableCreateStatement)
    ensures
        created_if_not_exists(*final(statement)),
        created_table(*final(statement)) == created_table(*old(statement)),
        created_columns(*final(statement)) == created_columns(*old(statement)),
{
    statement.if_not_exists();
}

/// `TableCreateStatement::col`: adds the column, with its name, type and
/// constraints, after those present, and leaves the rest.
#[verifier::external_body]
fn add_column(statement: &mut TableCreateStatement, column: ColumnDef)
    ensures
        created_columns(*final(statement)) == created_columns(*old(statement)).push(
            column_model(column),
        ),
        created_table(*final(statement)) == created_table(*old(statement)),
        created_if_not_exists(*final(statement)) == created_if_not_exists(*old(statement)),
{
    let mut column = column;
    statement.col(&mut column);
}

/// `Table::drop`: a statement that names no table and carries no guard.
#[verifier::external_body]
fn new_drop_statement() -> (statement: TableDropStatement)
    ensures
        dropped_tables(statement) == Seq::<Seq<char>>::empty(),
        !dropped_if_exists(statement),
{
    sea_query::Table::drop()
}

/// `TableDropStatement::table` with an `Alias` of the given name: adds the
/// table after those present and leaves the guard.
#[verifier::external_body]
fn add_dropped_table(statement: &mut TableDropStatement, name: &str)
    ensures
        dropped_tables(*final(statement)) == dropped_tables(*old(statement)).push(name@),
        dropped_if_exists(*final(statement)) == dropped_if_exists(*old(statement)),
{
    statement.table(sea_query::Alias::new(name));
}

/// The name of the table.
pub open spec fn tasks_table() -> Seq<char> {
    "tasks"@
}

/// The columns of the table: an integer `id` that is not null, assigned by
/// the store and the primary key; and a string `item` that is not null.
pub open spec fn tasks_columns() -> Seq<ColumnModel> {
    seq![
        ColumnModel {
            name: "id"@,
            kind: Some(ColumnKind::Integer),
            constraints: seq![
                ColumnConstraint::NotNull,
                ColumnConstraint::AutoIncrement,
                ColumnConstraint::PrimaryKey,
            ],
        },
        ColumnModel {
            name: "item"@,
            kind: Some(ColumnKind::String),
            constraints: seq![ColumnConstraint::NotNull],
        },
    ]
}

/// The one schema change of the service: it creates the `tasks` table, and
/// undoes that by dropping it.
pub struct Migration;

impl Migration {
    /// The name under which the migration is recorded.
    pub fn name(&self) -> (name: &'static str)
        ensures
            name@ == "m20240307_162300_create_tasks_table.rs"@,
    {
        "m20240307_162300_create_tasks_table.rs"
    }

    /// The statement that applies the migration: it creates the `tasks` table
    /// with its two columns, unless the table exists.
    pub fn up(&self) -> (statement: TableCreateStatement)
        ensures
            created_table(statement) == Some(tasks_table()),
            created_if_not_exists(statement),
            created_columns(statement) == tasks_columns(),
    {
        let mut statement = new_create_statement();
        set_created_table(&mut statement, "tasks");
        set_if_not_exists(&mut statement);

        let mut id = new_column("id");
        set_integer(&mut id);
        add_not_null(&mut id);
        add_auto_increment(&mut id);
        add_primary_key(&mut id);
        assert(column_model(id) == tasks_columns()[0]) by {
            assert(column_constraints(id) =~= tasks_columns()[0].constraints);
        }
        add_column(&mut statement, id);

        let mut item = new_column("item");
        set_string(&mut item);
        add_not_null(&mut item);
        assert(column_model(item) == tasks_columns()[1]) by {
            assert(column_constraints(item) =~= tasks_columns()[1].constraints);
        }
        add_column(&mut statement, item);

        assert(created_columns(statement) =~= tasks_columns());
        statement
    }

    /// The statement that undoes the migration: it drops the `tasks` table,
    /// without a guard.
    pub fn down(&self) -> (statement: TableDropStatement)
        ensures
            dropped_tables(statement) == seq![tasks_table()],
            !dropped_if_exists(statement),
    {
        let mut statement = new_drop_statement();
        add_dropped_table(&mut statement, "tasks");
        statement
    }
}

} // verus!

//! The database schema migrations, as plans of schema operations, and the
//! rule that runs a plan.

pub mod m20250628_000001_create_table;
pub mod m20250628_000001_create_tables;
pub mod schema;

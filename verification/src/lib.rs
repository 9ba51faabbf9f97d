//! Typed builders for SQL table definitions.
//!
//! A schema is described with values (column names, SQL types, column
//! attributes, table constraints) and rendered to `CREATE TABLE` and
//! `ALTER TABLE ... ADD` statements. Every rendering function is specified
//! over sequences of characters, so the exact text of a statement is part of
//! its contract.

pub mod column;
pub mod table;
pub mod text;
pub mod vocabulary;

pub use crate::column::{column, foreign_key, primary_key, unique, Column};
pub use crate::table::{create_table_sql, Table, TableName};
pub use crate::text::{escape_string, join_strings};
pub use crate::vocabulary::{Attribute, ForeignKeyAttribute, Type};

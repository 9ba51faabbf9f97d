//! The closed vocabularies of a table definition: column types, column
//! attributes and the keywords of a foreign-key clause.

use crate::text::{escape_string, quoted};
use vstd::prelude::*;

verus! {

/// The type of a column.
#[allow(non_camel_case_types)]
pub enum Type {
    INTEGER,
    INT,
    TINYINT,
    SMALLINT,
    MEDIUMINT,
    BIGINT,
    UNSIGNED_BIG_INT,
    INT2,
    INT8,
    TEXT,
    CLOB,
    BLOB,
    REAL,
    DOUBLE,
    DOUBLE_PRECISION,
    FLOAT,
    NUMERIC,
    BOOLEAN,
    DATE,
    DATETIME,
}

impl Type {
    /// The SQL keyword of this type.
    pub open spec fn keyword(self) -> Seq<char> {
        match self {
            Type::INTEGER => "INTEGER"@,
            Type::INT => "INT"@,
            Type::TINYINT => "TINYINT"@,
            Type::SMALLINT => "SMALLINT"@,
            Type::MEDIUMINT => "MEDIUMINT"@,
            Type::BIGINT => "BIGINT"@,
            Type::UNSIGNED_BIG_INT => "UNSIGNED BIG INT"@,
            Type::INT2 => "INT2"@,
            Type::INT8 => "INT8"@,
            Type::TEXT => "TEXT"@,
            Type::CLOB => "CLOB"@,
            Type::BLOB => "BLOB"@,
            Type::REAL => "REAL"@,
            Type::DOUBLE => "DOUBLE"@,
            Type::DOUBLE_PRECISION => "DOUBLE PRECISION"@,
            Type::FLOAT => "FLOAT"@,
            Type::NUMERIC => "NUMERIC"@,
            Type::BOOLEAN => "BOOLEAN"@,
            Type::DATE => "DATE"@,
            Type::DATETIME => "DATETIME"@,
        }
    }

    /// The SQL keyword of this type, as text.
    pub fn name(&self) -> (keyword: &'static str)
        ensures
            keyword@ == self.keyword(),
    {
        match self {
            Type::INTEGER => "INTEGER",
            Type::INT => "INT",
            Type::TINYINT => "TINYINT",
            Type::SMALLINT => "SMALLINT",
            Type::MEDIUMINT => "MEDIUMINT",
            Type::BIGINT => "BIGINT",
            Type::UNSIGNED_BIG_INT => "UNSIGNED BIG INT",
            Type::INT2 => "INT2",
            Type::INT8 => "INT8",
            Type::TEXT => "TEXT",
            Type::CLOB => "CLOB",
            Type::BLOB => "BLOB",
            Type::REAL => "REAL",
            Type::DOUBLE => "DOUBLE",
            Type::DOUBLE_PRECISION => "DOUBLE PRECISION",
            Type::FLOAT => "FLOAT",
            Type::NUMERIC => "NUMERIC",
            Type::BOOLEAN => "BOOLEAN",
            Type::DATE => "DATE",
            Type::DATETIME => "DATETIME",
        }
    }
}

/// An attribute that follows a column's type in its definition.
#[allow(non_camel_case_types)]
pub enum Attribute {
    PRIMARY_KEY,
    ASC,
    DESC,
    UNIQUE,
    NOT_NULL,
    AUTOINCREMENT,
    /// A default value, given as the text of a string literal before quoting.
    DEFAULT(String),
}

impl Attribute {
    /// The SQL text of this attribute. A default value is written as a
    /// quoted string literal after the keyword `DEFAULT`.
    pub open spec fn text(self) -> Seq<char> {
        match self {
            Attribute::PRIMARY_KEY => "PRIMARY KEY"@,
            Attribute::ASC => "ASC"@,
            Attribute::DESC => "DESC"@,
            Attribute::UNIQUE => "UNIQUE"@,
            Attribute::NOT_NULL => "NOT NULL"@,
            Attribute::AUTOINCREMENT => "AUTOINCREMENT"@,
            Attribute::DEFAULT(value) => "DEFAULT "@ + quoted(value@),
        }
    }

    /// The SQL text of this attribute.
    pub fn name(&self) -> (text: String)
        ensures
            text@ == self.text(),
    {
        match self {
            Attribute::PRIMARY_KEY => "PRIMARY KEY".to_owned(),
            Attribute::ASC => "ASC".to_owned(),
            Attribute::DESC => "DESC".to_owned(),
            Attribute::UNIQUE => "UNIQUE".to_owned(),
            Attribute::NOT_NULL => "NOT NULL".to_owned(),
            Attribute::AUTOINCREMENT => "AUTOINCREMENT".to_owned(),
            Attribute::DEFAULT(value) => {
                let mut text = "DEFAULT ".to_owned();
                let literal = escape_string(value.as_str());
                text.append(literal.as_str());
                text
            },
        }
    }
}

/// A keyword of a foreign-key clause: the linking keyword, the events, the
/// actions and the deferral of the check.
#[allow(non_camel_case_types)]
pub enum ForeignKeyAttribute {
    REFERENCES,
    ON_DELETE,
    ON_UPDATE,
    SET_NULL,
    SET_DEFAULT,
    CASCADE,
    RESTRICT,
    NO_ACTION,
    DEFERRABLE_INITIALLY_DEFERRED,
}

impl ForeignKeyAttribute {
    /// The SQL text of this keyword.
    pub open spec fn text(self) -> Seq<char> {
        match self {
            ForeignKeyAttribute::REFERENCES => "REFERENCES"@,
            ForeignKeyAttribute::ON_DELETE => "ON DELETE"@,
            ForeignKeyAttribute::ON_UPDATE => "ON UPDATE"@,
            ForeignKeyAttribute::SET_NULL => "SET NULL"@,
            ForeignKeyAttribute::SET_DEFAULT => "SET DEFAULT"@,
            ForeignKeyAttribute::CASCADE => "CASCADE"@,
            ForeignKeyAttribute::RESTRICT => "RESTRICT"@,
            ForeignKeyAttribute::NO_ACTION => "NO ACTION"@,
            ForeignKeyAttribute::DEFERRABLE_INITIALLY_DEFERRED => "DEFERRABLE INITIALLY DEFERRED"@,
        }
    }

    /// The SQL text of this keyword.
    pub fn to_string(&self) -> (text: String)
        ensures
            text@ == self.text(),
    {
        match self {
            ForeignKeyAttribute::REFERENCES => "REFERENCES".to_owned(),
            ForeignKeyAttribute::ON_DELETE => "ON DELETE".to_owned(),
            ForeignKeyAttribute::ON_UPDATE => "ON UPDATE".to_owned(),
            ForeignKeyAttribute::SET_NULL => "SET NULL".to_owned(),
            ForeignKeyAttribute::SET_DEFAULT => "SET DEFAULT".to_owned(),
            ForeignKeyAttribute::CASCADE => "CASCADE".to_owned(),
            ForeignKeyAttribute::RESTRICT => "RESTRICT".to_owned(),
            ForeignKeyAttribute::NO_ACTION => "NO ACTION".to_owned(),
            ForeignKeyAttribute::DEFERRABLE_INITIALLY_DEFERRED => "DEFERRABLE INITIALLY DEFERRED".to_owned(),
        }
    }
}

} // verus!

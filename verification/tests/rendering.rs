use sql_ddl::{
    escape_string, foreign_key, join_strings, primary_key, unique, Attribute, Column,
    ForeignKeyAttribute, Table, TableName, Type,
};
use std::sync::Arc;

/// Reads a quoted literal back: drops the outer quotes and merges doubled ones.
fn unquote(literal: &str) -> String {
    assert!(literal.len() >= 2);
    assert!(literal.starts_with('\''));
    assert!(literal.ends_with('\''));
    literal[1..literal.len() - 1].replace("''", "'")
}

#[test]
fn type_keywords() {
    let table = [
        (Type::INTEGER, "INTEGER"),
        (Type::INT, "INT"),
        (Type::TINYINT, "TINYINT"),
        (Type::SMALLINT, "SMALLINT"),
        (Type::MEDIUMINT, "MEDIUMINT"),
        (Type::BIGINT, "BIGINT"),
        (Type::UNSIGNED_BIG_INT, "UNSIGNED BIG INT"),
        (Type::INT2, "INT2"),
        (Type::INT8, "INT8"),
        (Type::TEXT, "TEXT"),
        (Type::CLOB, "CLOB"),
        (Type::BLOB, "BLOB"),
        (Type::REAL, "REAL"),
        (Type::DOUBLE, "DOUBLE"),
        (Type::DOUBLE_PRECISION, "DOUBLE PRECISION"),
        (Type::FLOAT, "FLOAT"),
        (Type::NUMERIC, "NUMERIC"),
        (Type::BOOLEAN, "BOOLEAN"),
        (Type::DATE, "DATE"),
        (Type::DATETIME, "DATETIME"),
    ];
    assert_eq!(table.len(), 20);
    for (column_type, keyword) in table.iter() {
        assert_eq!(column_type.name(), *keyword);
    }
}

#[test]
fn attribute_texts() {
    assert_eq!(Attribute::PRIMARY_KEY.name(), "PRIMARY KEY");
    assert_eq!(Attribute::ASC.name(), "ASC");
    assert_eq!(Attribute::DESC.name(), "DESC");
    assert_eq!(Attribute::UNIQUE.name(), "UNIQUE");
    assert_eq!(Attribute::NOT_NULL.name(), "NOT NULL");
    assert_eq!(Attribute::AUTOINCREMENT.name(), "AUTOINCREMENT");
    assert_eq!(Attribute::DEFAULT("def".to_string()).name(), "DEFAULT 'def'");
    assert_eq!(Attribute::DEFAULT(String::new()).name(), "DEFAULT ''");
    assert_eq!(
        Attribute::DEFAULT("it's".to_string()).name(),
        "DEFAULT 'it''s'"
    );
}

#[test]
fn foreign_key_keywords() {
    let table = [
        (ForeignKeyAttribute::REFERENCES, "REFERENCES"),
        (ForeignKeyAttribute::ON_DELETE, "ON DELETE"),
        (ForeignKeyAttribute::ON_UPDATE, "ON UPDATE"),
        (ForeignKeyAttribute::SET_NULL, "SET NULL"),
        (ForeignKeyAttribute::SET_DEFAULT, "SET DEFAULT"),
        (ForeignKeyAttribute::CASCADE, "CASCADE"),
        (ForeignKeyAttribute::RESTRICT, "RESTRICT"),
        (ForeignKeyAttribute::NO_ACTION, "NO ACTION"),
        (
            ForeignKeyAttribute::DEFERRABLE_INITIALLY_DEFERRED,
            "DEFERRABLE INITIALLY DEFERRED",
        ),
    ];
    assert_eq!(table.len(), 9);
    for (keyword, text) in table.iter() {
        assert_eq!(keyword.to_string(), *text);
    }
}

#[test]
fn escape_without_quotes() {
    assert_eq!(escape_string("def"), "'def'");
    assert_eq!(escape_string(""), "''");
    assert_eq!(escape_string("a b\\c\"d"), "'a b\\c\"d'");
}

#[test]
fn escape_one_quote() {
    assert_eq!(escape_string("it's"), "'it''s'");
    assert_eq!(escape_string("'"), "''''");
}

#[test]
fn escape_many_quotes() {
    assert_eq!(escape_string("'a''b'"), "'''a''''b'''");
    assert_eq!(escape_string("'''"), "''''''''");
}

#[test]
fn escape_keeps_other_characters() {
    assert_eq!(escape_string("caf\u{e9} '\u{65e5}\u{672c}'"), "'caf\u{e9} ''\u{65e5}\u{672c}'''");
}

#[test]
fn escape_round_trip() {
    for text in ["", "def", "it's", "'", "''", "a'b'c", "'a''b'", "x''", "\u{e9}'\u{fc}"].iter() {
        let literal = escape_string(text);
        let quotes = text.chars().filter(|c| *c == '\'').count();
        assert_eq!(literal.chars().count(), text.chars().count() + quotes + 2);
        assert_eq!(unquote(&literal), *text);
    }
}

#[test]
fn join_of_nothing_is_empty() {
    assert_eq!(join_strings(&vec![], " "), String::new());
}

#[test]
fn join_of_one_has_no_separator() {
    assert_eq!(join_strings(&vec!["a".to_string()], ", "), "a");
}

#[test]
fn join_of_many_keeps_order() {
    let parts = vec!["b".to_string(), "a".to_string(), String::new(), "b".to_string()];
    assert_eq!(join_strings(&parts, ", "), "b, a, , b");
    assert_eq!(join_strings(&parts, ""), "bab");
}

#[test]
fn column_without_attributes() {
    let id = sql_ddl::column("id", Type::INTEGER, vec![]);
    assert_eq!(id.create_statement(), "id INTEGER");
    assert_eq!(id.name(), "id");
}

#[test]
fn column_with_attributes() {
    let id = sql_ddl::column(
        "id",
        Type::INTEGER,
        vec![Attribute::PRIMARY_KEY, Attribute::NOT_NULL],
    );
    assert_eq!(id.create_statement(), "id INTEGER PRIMARY KEY NOT NULL");
}

#[test]
fn column_with_every_attribute() {
    let c = sql_ddl::column(
        "n",
        Type::UNSIGNED_BIG_INT,
        vec![
            Attribute::PRIMARY_KEY,
            Attribute::DESC,
            Attribute::ASC,
            Attribute::UNIQUE,
            Attribute::NOT_NULL,
            Attribute::AUTOINCREMENT,
            Attribute::DEFAULT("o'c".to_string()),
        ],
    );
    assert_eq!(
        c.create_statement(),
        "n UNSIGNED BIG INT PRIMARY KEY DESC ASC UNIQUE NOT NULL AUTOINCREMENT DEFAULT 'o''c'"
    );
}

#[test]
fn column_stores_no_empty_list() {
    let plain = sql_ddl::column("id", Type::INTEGER, vec![]);
    assert!(matches!(
        &*plain,
        Column::Column {
            attributes: None,
            ..
        }
    ));
    let keyed = sql_ddl::column("id", Type::INTEGER, vec![Attribute::PRIMARY_KEY, Attribute::ASC]);
    match &*keyed {
        Column::Column {
            name,
            attributes: Some(list),
            ..
        } => {
            assert_eq!(name, "id");
            assert_eq!(list.len(), 2);
            assert!(matches!(list[0], Attribute::PRIMARY_KEY));
            assert!(matches!(list[1], Attribute::ASC));
        }
        _ => panic!("a definition with two attributes was expected"),
    }
}

#[test]
fn empty_list_renders_as_no_list() {
    let stored_empty = Column::Column {
        name: "id".to_string(),
        column_type: Type::INTEGER,
        attributes: Some(vec![]),
    };
    let stored_none = Column::Column {
        name: "id".to_string(),
        column_type: Type::INTEGER,
        attributes: None,
    };
    assert_eq!(stored_empty.create_statement(), "id INTEGER");
    assert_eq!(stored_none.create_statement(), "id INTEGER");
}

#[test]
fn empty_name_is_not_rejected() {
    let c = sql_ddl::column("", Type::TEXT, vec![]);
    assert_eq!(c.name(), "");
    assert_eq!(c.create_statement(), " TEXT");
}

#[test]
fn constraint_renders_its_text() {
    let check = Column::Constraint("CHECK (a < b)".to_string());
    assert_eq!(check.create_statement(), "CHECK (a < b)");
}

#[test]
fn primary_key_keeps_order() {
    let col1 = sql_ddl::column("col1", Type::TEXT, vec![]);
    let col2 = sql_ddl::column("col2", Type::TEXT, vec![]);
    let forward = primary_key(&[col1.clone(), col2.clone()]);
    assert_eq!(forward.create_statement(), "PRIMARY KEY (col1, col2)");
    let backward = primary_key(&[col2, col1]);
    assert_eq!(backward.create_statement(), "PRIMARY KEY (col2, col1)");
}

#[test]
fn unique_keeps_repeated_columns() {
    let a = sql_ddl::column("a", Type::INT, vec![Attribute::NOT_NULL]);
    let b = sql_ddl::column("b", Type::INT, vec![]);
    let constraint = unique(&[b.clone(), a, b]);
    assert!(matches!(&*constraint, Column::Constraint(_)));
    assert_eq!(constraint.create_statement(), "UNIQUE (b, a, b)");
}

#[test]
fn key_over_one_and_no_column() {
    let a = sql_ddl::column("a", Type::INT, vec![]);
    assert_eq!(unique(&[a]).create_statement(), "UNIQUE (a)");
    assert_eq!(primary_key(&[]).create_statement(), "PRIMARY KEY ()");
}

#[test]
fn foreign_key_without_actions() {
    let id = sql_ddl::column("id", Type::INTEGER, vec![Attribute::PRIMARY_KEY, Attribute::NOT_NULL]);
    let hoge = sql_ddl::column("hoge", Type::TEXT, vec![]);
    let key = foreign_key(
        id,
        ForeignKeyAttribute::REFERENCES,
        TableName::from("my_table"),
        hoge,
        vec![],
    );
    assert_eq!(
        key.create_statement(),
        "FOREIGN KEY (id) REFERENCES my_table (hoge)"
    );
}

#[test]
fn foreign_key_with_actions() {
    let id = sql_ddl::column("id", Type::INTEGER, vec![]);
    let hoge = sql_ddl::column("hoge", Type::TEXT, vec![]);
    let plain = foreign_key(
        id.clone(),
        ForeignKeyAttribute::REFERENCES,
        TableName::from("my_table"),
        hoge.clone(),
        vec![],
    )
    .create_statement();
    let cascading = foreign_key(
        id.clone(),
        ForeignKeyAttribute::REFERENCES,
        TableName::from("my_table"),
        hoge.clone(),
        vec![ForeignKeyAttribute::ON_DELETE, ForeignKeyAttribute::CASCADE],
    )
    .create_statement();
    assert_eq!(cascading, format!("{} ON DELETE CASCADE", plain));
    assert_eq!(
        cascading,
        "FOREIGN KEY (id) REFERENCES my_table (hoge) ON DELETE CASCADE"
    );
    let long = foreign_key(
        id,
        ForeignKeyAttribute::REFERENCES,
        TableName::from(String::from("other")),
        hoge,
        vec![
            ForeignKeyAttribute::ON_UPDATE,
            ForeignKeyAttribute::SET_NULL,
            ForeignKeyAttribute::ON_DELETE,
            ForeignKeyAttribute::NO_ACTION,
            ForeignKeyAttribute::DEFERRABLE_INITIALLY_DEFERRED,
        ],
    )
    .create_statement();
    assert_eq!(
        long,
        "FOREIGN KEY (id) REFERENCES other (hoge) ON UPDATE SET NULL ON DELETE NO ACTION DEFERRABLE INITIALLY DEFERRED"
    );
}

struct Named {
    columns: Vec<Arc<Column>>,
}

impl Table for Named {
    fn name(&self) -> &str {
        "named"
    }

    fn columns(&self) -> &[Arc<Column>] {
        &self.columns
    }
}

#[test]
fn table_name_from_each_source() {
    assert_eq!(TableName::from("a_table").as_str(), "a_table");
    assert_eq!(TableName::from(String::from("b_table")).as_str(), "b_table");
    let table = Named { columns: vec![] };
    assert_eq!(TableName::from(&table).as_str(), "named");
}

#[test]
fn add_statement() {
    let val = sql_ddl::column("val", Type::TEXT, vec![Attribute::DEFAULT("it's".to_string())]);
    let sql = val.create_add_sql();
    assert_eq!(sql, "ALTER TABLE val ADD val TEXT DEFAULT 'it''s'");

    let connection = rusqlite::Connection::open_in_memory().unwrap();
    connection.execute("CREATE TABLE val (id INTEGER)", ()).unwrap();
    connection.execute(&sql, ()).unwrap();
    connection.execute("INSERT INTO val (id) VALUES (1)", ()).unwrap();
    let stored: String = connection
        .query_row("SELECT val FROM val", (), |row| row.get(0))
        .unwrap();
    assert_eq!(stored, "it's");
}

#[test]
fn add_statement_without_attributes() {
    let id = sql_ddl::column("id", Type::INTEGER, vec![]);
    assert_eq!(id.create_add_sql(), "ALTER TABLE id ADD id INTEGER");
}

#[test]
fn engine_accepts_foreign_key_actions() {
    let parent_id = sql_ddl::column("id", Type::INTEGER, vec![Attribute::PRIMARY_KEY]);
    let parent = Named {
        columns: vec![parent_id.clone()],
    };
    let child_ref = sql_ddl::column("parent", Type::INTEGER, vec![]);
    let key = foreign_key(
        child_ref.clone(),
        ForeignKeyAttribute::REFERENCES,
        TableName::from(&parent),
        parent_id,
        vec![
            ForeignKeyAttribute::ON_DELETE,
            ForeignKeyAttribute::CASCADE,
            ForeignKeyAttribute::ON_UPDATE,
            ForeignKeyAttribute::RESTRICT,
            ForeignKeyAttribute::DEFERRABLE_INITIALLY_DEFERRED,
        ],
    );
    let child = sql_ddl::create_table_sql("child", &[child_ref, key]);
    assert_eq!(
        child,
        "CREATE TABLE child (parent INTEGER, FOREIGN KEY (parent) REFERENCES named (id) ON DELETE CASCADE ON UPDATE RESTRICT DEFERRABLE INITIALLY DEFERRED)"
    );
    let connection = rusqlite::Connection::open_in_memory().unwrap();
    connection.execute(&parent.create_sql(), ()).unwrap();
    connection.execute(&child, ()).unwrap();
}

#[test]
fn join_of_two_lists_is_joined_joins() {
    let first = vec!["a".to_string(), "b c".to_string()];
    let second = vec!["d".to_string(), String::new(), "e".to_string()];
    let mut whole = first.clone();
    whole.extend(second.iter().cloned());
    assert_eq!(
        join_strings(&whole, ", "),
        format!("{}, {}", join_strings(&first, ", "), join_strings(&second, ", "))
    );
    assert_eq!(join_strings(&whole, ", "), "a, b c, d, , e");
}

#[test]
fn appended_columns_follow_in_order() {
    let a = sql_ddl::column("a", Type::INT, vec![Attribute::NOT_NULL]);
    let b = sql_ddl::column("b", Type::TEXT, vec![]);
    let c = sql_ddl::column("c", Type::BLOB, vec![]);
    let both = unique(&[b.clone(), a.clone()]);
    let first = vec![a.create_statement(), b.create_statement()];
    let second = vec![c.create_statement(), both.create_statement(), a.create_statement()];
    let sql = sql_ddl::create_table_sql("t", &[a.clone(), b, c, both, a]);
    assert_eq!(
        sql,
        format!(
            "CREATE TABLE t ({}, {})",
            join_strings(&first, ", "),
            join_strings(&second, ", ")
        )
    );
    assert_eq!(
        sql,
        "CREATE TABLE t (a INT NOT NULL, b TEXT, c BLOB, UNIQUE (b, a), a INT NOT NULL)"
    );
}

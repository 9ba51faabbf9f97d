//! Tables: anything with a name and an ordered list of columns renders a
//! `CREATE TABLE` statement.

use crate::column::Column;
use crate::text::{join, join_strings, lemma_join_concat, texts};
use std::sync::Arc;
use vstd::prelude::*;
use vstd::std_specs::convert::FromSpecImpl;

verus! {

/// The fragments of a sequence of columns.
pub open spec fn statements(columns: Seq<Arc<Column>>) -> Seq<Seq<char>> {
    columns.map_values(|c: Arc<Column>| c.statement())
}

/// The text of the statement that creates the table `name` with the column
/// list `columns`: the fragments in order, separated by a comma and a space.
pub open spec fn create_text(name: Seq<char>, columns: Seq<Arc<Column>>) -> Seq<char> {
    "CREATE TABLE "@ + name + " ("@ + join(statements(columns), ", "@) + ")"@
}

/// A statement lists its columns in the order given, each one in its place:
/// for two lists put end to end, the fragments of the first are followed by a
/// separator and the fragments of the second.
pub proof fn lemma_create_text_concat(
    name: Seq<char>,
    first: Seq<Arc<Column>>,
    second: Seq<Arc<Column>>,
)
    requires
        first.len() > 0,
        second.len() > 0,
    ensures
        create_text(name, first + second) == "CREATE TABLE "@ + name + " ("@ + join(
            statements(first),
            ", "@,
        ) + ", "@ + join(statements(second), ", "@) + ")"@,
{
    assert(statements(first + second) =~= statements(first) + statements(second));
    lemma_join_concat(statements(first), statements(second), ", "@);
    assert(create_text(name, first + second) =~= "CREATE TABLE "@ + name + " ("@ + join(
        statements(first),
        ", "@,
    ) + ", "@ + join(statements(second), ", "@) + ")"@);
}

/// Renders the statement that creates the table `name` with the column list
/// `columns`.
pub fn create_table_sql(name: &str, columns: &[Arc<Column>]) -> (sql: String)
    ensures
        sql@ == create_text(name@, columns@),
{
    let mut fragments: Vec<String> = Vec::new();
    let mut i: usize = 0;
    while i < columns.len()
        invariant
            i <= columns.len(),
            fragments@.len() == i,
            forall|j: int| 0 <= j < i ==> (#[trigger] fragments@[j])@ == columns@[j].statement(),
        decreases columns.len() - i,
    {
        fragments.push(columns[i].create_statement());
        i += 1;
    }
    assert(texts(fragments@) =~= statements(columns@));
    let mut sql = "CREATE TABLE ".to_owned();
    sql.append(name);
    sql.append(" (");
    let joined = join_strings(&fragments, ", ");
    sql.append(joined.as_str());
    sql.append(")");
    sql
}

/// Whether `name` is a text that `table.name()` may return.
pub open spec fn may_name<T: Table>(table: &T, name: Seq<char>) -> bool {
    exists|n: &str| #[trigger] call_ensures(T::name, (table,), n) && n@ == name
}

/// Whether `columns` is a column list that `table.columns()` may return.
pub open spec fn may_list<T: Table>(table: &T, columns: Seq<Arc<Column>>) -> bool {
    exists|c: &[Arc<Column>]| #[trigger] call_ensures(T::columns, (table,), c) && c@ == columns
}

/// Whether `sql` creates `table`: it is the statement for a name and a
/// column list that the table may return.
pub open spec fn creates<T: Table>(table: &T, sql: Seq<char>) -> bool {
    exists|name: Seq<char>, columns: Seq<Arc<Column>>|
        #![trigger create_text(name, columns)]
        may_name(table, name) && may_list(table, columns) && sql == create_text(name, columns)
}

/// Whether `table` has one name and one column list: whatever its two
/// methods return, they return the same each time.
pub open spec fn is_steady<T: Table>(table: &T) -> bool {
    &&& forall|a: Seq<char>, b: Seq<char>|
        may_name(table, a) && may_name(table, b) ==> a == b
    &&& forall|a: Seq<Arc<Column>>, b: Seq<Arc<Column>>|
        may_list(table, a) && may_list(table, b) ==> a == b
}

/// Whatever `create_sql` returns for a table creates that table.
pub proof fn lemma_create_sql_creates<T: Table>(table: &T, sql: String)
    requires
        call_ensures(T::create_sql, (table,), sql),
    ensures
        creates(table, sql@),
{
}

/// Rendering is repeatable: two calls of `create_sql` on one table, which
/// has one name and one column list, return the same text.
pub proof fn lemma_create_sql_repeatable<T: Table>(table: &T, first: String, second: String)
    requires
        is_steady(table),
        call_ensures(T::create_sql, (table,), first),
        call_ensures(T::create_sql, (table,), second),
    ensures
        first@ == second@,
{
    lemma_create_sql_creates(table, first);
    lemma_create_sql_creates(table, second);
}

/// A table: a name and an ordered list of columns and constraints.
pub trait Table {
    /// The table's name.
    fn name(&self) -> &str;

    /// The table's columns and constraints, in the order in which they are
    /// written in the statement.
    fn columns(&self) -> &[Arc<Column>];

    /// Renders the statement that creates this table from its name and its
    /// columns. The contract is `creates(self, sql@)`, written out.
    fn create_sql(&self) -> (sql: String)
        ensures
            exists|n: &str, c: &[Arc<Column>]|
                #![trigger create_text(n@, c@)]
                call_ensures(Self::name, (self,), n) && call_ensures(Self::columns, (self,), c)
                    && sql@ == create_text(n@, c@),
    {
        create_table_sql(self.name(), self.columns())
    }
}

/// The name of a table, as a foreign key refers to it.
pub struct TableName(String);

impl View for TableName {
    type V = Seq<char>;

    closed spec fn view(&self) -> Seq<char> {
        self.0@
    }
}

impl TableName {
    /// The name as text.
    pub fn as_str(&self) -> (name: &str)
        ensures
            name@ == self@,
    {
        self.0.as_str()
    }
}

impl<T: Table> FromSpecImpl<&T> for TableName {
    /// No spec function builds a name from a table: the contract of `from`
    /// states the result's text.
    open spec fn obeys_from_spec() -> bool {
        false
    }

    closed spec fn from_spec(v: &T) -> TableName {
        arbitrary()
    }
}

impl<T: Table> From<&T> for TableName {
    /// The name of the table `value`.
    fn from(value: &T) -> (name: TableName)
        ensures
            may_name(value, name@),
    {
        TableName(value.name().to_owned())
    }
}

impl FromSpecImpl<String> for TableName {
    open spec fn obeys_from_spec() -> bool {
        true
    }

    closed spec fn from_spec(v: String) -> TableName {
        TableName(v)
    }
}

impl From<String> for TableName {
    /// The name `value`.
    fn from(value: String) -> (name: TableName)
        ensures
            name@ == value@,
    {
        TableName(value)
    }
}

impl FromSpecImpl<&str> for TableName {
    /// No spec function builds a name from a string slice: the contract of
    /// `from` states the result's text.
    open spec fn obeys_from_spec() -> bool {
        false
    }

    closed spec fn from_spec(v: &str) -> TableName {
        arbitrary()
    }
}

impl From<&str> for TableName {
    /// The name `value`.
    fn from(value: &str) -> (name: TableName)
        ensures
            name@ == value@,
    {
        TableName(value.to_owned())
    }
}

} // verus!

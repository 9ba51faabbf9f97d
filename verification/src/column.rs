//! Columns and table constraints, and the functions that build them.

use crate::table::TableName;
use crate::text::{join, join_strings, texts};
use crate::vocabulary::{Attribute, ForeignKeyAttribute, Type};
use std::sync::Arc;
use vstd::pervasive::unreached;
use vstd::prelude::*;

verus! {

/// One entry of a table's column list: the definition of a named column, or
/// a table constraint kept as the text it is written with.
pub enum Column {
    Column { name: String, column_type: Type, attributes: Option<Vec<Attribute>> },
    Constraint(String),
}

/// The SQL texts of a sequence of column attributes.
pub open spec fn attribute_texts(attributes: Seq<Attribute>) -> Seq<Seq<char>> {
    attributes.map_values(|a: Attribute| a.text())
}

/// The SQL texts of a sequence of foreign-key keywords.
pub open spec fn action_texts(actions: Seq<ForeignKeyAttribute>) -> Seq<Seq<char>> {
    actions.map_values(|a: ForeignKeyAttribute| a.text())
}

/// The names of a sequence of columns.
pub open spec fn column_names(columns: Seq<Arc<Column>>) -> Seq<Seq<char>> {
    columns.map_values(|c: Arc<Column>| c.name_text())
}

/// Whether every column of the sequence is a definition.
pub open spec fn all_definitions(columns: Seq<Arc<Column>>) -> bool {
    forall|i: int| 0 <= i < columns.len() ==> (#[trigger] columns[i]).is_definition()
}

/// `parts` joined with single spaces and led by one space, or nothing where
/// there are no parts.
pub open spec fn trailing(parts: Seq<Seq<char>>) -> Seq<char> {
    if parts.len() == 0 {
        Seq::empty()
    } else {
        " "@ + join(parts, " "@)
    }
}

/// The text of a column definition: name, type keyword and attributes,
/// separated by single spaces.
pub open spec fn definition_text(
    name: Seq<char>,
    column_type: Type,
    attributes: Seq<Attribute>,
) -> Seq<char> {
    name + " "@ + column_type.keyword() + trailing(attribute_texts(attributes))
}

/// The text of a constraint over a list of columns: the keyword, then the
/// names in parentheses, separated by a comma and a space.
pub open spec fn key_text(keyword: Seq<char>, names: Seq<Seq<char>>) -> Seq<char> {
    keyword + " ("@ + join(names, ", "@) + ")"@
}

/// The text of a foreign-key constraint.
pub open spec fn foreign_key_text(
    column: Seq<char>,
    references: ForeignKeyAttribute,
    other_table: Seq<char>,
    other_column: Seq<char>,
    actions: Seq<ForeignKeyAttribute>,
) -> Seq<char> {
    "FOREIGN KEY ("@ + column + ") "@ + references.text() + " "@ + other_table + " ("@
        + other_column + ")"@ + trailing(action_texts(actions))
}

/// The text of the statement that adds a column to the table `table`.
pub open spec fn add_text(table: Seq<char>, statement: Seq<char>) -> Seq<char> {
    "ALTER TABLE "@ + table + " ADD "@ + statement
}

/// A definition without attributes ends with its type keyword: nothing
/// follows it, whether the column stores an empty list or none.
pub proof fn lemma_statement_without_attributes(column: Column)
    requires
        column.is_definition(),
        column.attribute_list().len() == 0,
    ensures
        column.statement() == column.name_text() + " "@ + column->column_type.keyword(),
{
}

/// A foreign key without trailing keywords ends with the closing
/// parenthesis of the referenced column.
pub proof fn lemma_foreign_key_without_actions(
    column: Seq<char>,
    references: ForeignKeyAttribute,
    other_table: Seq<char>,
    other_column: Seq<char>,
)
    ensures
        foreign_key_text(column, references, other_table, other_column, Seq::empty())
            == "FOREIGN KEY ("@ + column + ") "@ + references.text() + " "@ + other_table + " ("@
            + other_column + ")"@,
{
}

impl Column {
    /// Whether this entry defines a named column.
    pub open spec fn is_definition(self) -> bool {
        self is Column
    }

    /// The name of the column that this entry defines.
    pub open spec fn name_text(self) -> Seq<char>
        recommends
            self.is_definition(),
    {
        match self {
            Column::Column { name, .. } => name@,
            Column::Constraint(_) => Seq::empty(),
        }
    }

    /// The attributes of the column that this entry defines; none for a
    /// column stored without attributes.
    pub open spec fn attribute_list(self) -> Seq<Attribute> {
        match self {
            Column::Column { attributes: Some(list), .. } => list@,
            _ => Seq::empty(),
        }
    }

    /// Whether this entry defines the column `name` of type `column_type`
    /// with the attributes `attributes`.
    pub open spec fn defines(
        self,
        name: Seq<char>,
        column_type: Type,
        attributes: Seq<Attribute>,
    ) -> bool {
        &&& self matches Column::Column { name: n, column_type: t, .. } && n@ == name && t
            == column_type
        &&& self.attribute_list() =~= attributes
    }

    /// Whether this entry is the constraint written as `text`.
    pub open spec fn constrains(self, text: Seq<char>) -> bool {
        self matches Column::Constraint(t) && t@ == text
    }

    /// Whether the attributes are stored in normal form: a definition
    /// without attributes stores no list rather than an empty one.
    pub open spec fn is_normal(self) -> bool {
        match self {
            Column::Column { attributes: Some(list), .. } => list@.len() > 0,
            _ => true,
        }
    }

    /// The fragment that this entry contributes to a column list. A
    /// constraint contributes its text unchanged.
    pub open spec fn statement(self) -> Seq<char> {
        match self {
            Column::Column { name, column_type, .. } => definition_text(
                name@,
                column_type,
                self.attribute_list(),
            ),
            Column::Constraint(text) => text@,
        }
    }

    /// The name of a column definition. A constraint has no name.
    pub fn name(&self) -> (name: &str)
        requires
            self.is_definition(),
        ensures
            name@ == self.name_text(),
    {
        match self {
            Column::Column { name, .. } => name.as_str(),
            _ => unreached(),
        }
    }

    /// Renders this entry as a fragment of a column list.
    pub fn create_statement(&self) -> (statement: String)
        ensures
            statement@ == self.statement(),
    {
        match self {
            Column::Column { name, column_type, attributes } => {
                let mut statement = name.clone();
                statement.append(" ");
                statement.append(column_type.name());
                if let Some(list) = attributes {
                    let rendered = attribute_names(list);
                    append_trailing(&mut statement, &rendered);
                }
                statement
            },
            Column::Constraint(value) => value.clone(),
        }
    }

    /// Renders the statement that adds this column to the table that bears
    /// the column's own name.
    pub fn create_add_sql(&self) -> (sql: String)
        requires
            self.is_definition(),
        ensures
            sql@ == add_text(self.name_text(), self.statement()),
    {
        let mut sql = "ALTER TABLE ".to_owned();
        sql.append(self.name());
        sql.append(" ADD ");
        let statement = self.create_statement();
        sql.append(statement.as_str());
        sql
    }
}

/// Appends `parts` to `out`, each led by a single space.
fn append_trailing(out: &mut String, parts: &Vec<String>)
    ensures
        final(out)@ == old(out)@ + trailing(texts(parts@)),
{
    if parts.len() > 0 {
        out.append(" ");
        let joined = join_strings(parts, " ");
        out.append(joined.as_str());
    }
}

/// Renders each attribute of `attributes`.
fn attribute_names(attributes: &Vec<Attribute>) -> (names: Vec<String>)
    ensures
        texts(names@) == attribute_texts(attributes@),
{
    let mut names: Vec<String> = Vec::new();
    let mut i: usize = 0;
    while i < attributes.len()
        invariant
            i <= attributes.len(),
            names@.len() == i,
            forall|j: int| 0 <= j < i ==> (#[trigger] names@[j])@ == attributes@[j].text(),
        decreases attributes.len() - i,
    {
        names.push(attributes[i].name());
        i += 1;
    }
    names
}

/// Renders each keyword of `actions`.
fn action_names(actions: &Vec<ForeignKeyAttribute>) -> (names: Vec<String>)
    ensures
        texts(names@) == action_texts(actions@),
{
    let mut names: Vec<String> = Vec::new();
    let mut i: usize = 0;
    while i < actions.len()
        invariant
            i <= actions.len(),
            names@.len() == i,
            forall|j: int| 0 <= j < i ==> (#[trigger] names@[j])@ == actions@[j].text(),
        decreases actions.len() - i,
    {
        names.push(actions[i].to_string());
        i += 1;
    }
    names
}

/// Collects the names of `keys`.
fn key_names(keys: &[Arc<Column>]) -> (names: Vec<String>)
    requires
        all_definitions(keys@),
    ensures
        texts(names@) == column_names(keys@),
{
    let mut names: Vec<String> = Vec::new();
    let mut i: usize = 0;
    while i < keys.len()
        invariant
            i <= keys.len(),
            all_definitions(keys@),
            names@.len() == i,
            forall|j: int| 0 <= j < i ==> (#[trigger] names@[j])@ == keys@[j].name_text(),
        decreases keys.len() - i,
    {
        names.push(keys[i].name().to_owned());
        i += 1;
    }
    names
}

/// Builds the constraint `keyword (name, name, ...)` over `keys`.
fn key_constraint(keyword: &str, keys: &[Arc<Column>]) -> (constraint: Arc<Column>)
    requires
        all_definitions(keys@),
    ensures
        constraint.constrains(key_text(keyword@, column_names(keys@))),
{
    let names = key_names(keys);
    let mut text = keyword.to_owned();
    text.append(" (");
    let joined = join_strings(&names, ", ");
    text.append(joined.as_str());
    text.append(")");
    Arc::new(Column::Constraint(text))
}

/// Defines a column with a name, a type and attributes, in the order given.
/// An empty attribute list is stored as no list. The name is taken as it
/// is: no text is refused.
pub fn column(name: &str, column_type: Type, attributes: Vec<Attribute>) -> (column: Arc<Column>)
    ensures
        column.defines(name@, column_type, attributes@),
        column.is_normal(),
{
    let attributes = if attributes.len() == 0 {
        None
    } else {
        Some(attributes)
    };
    Arc::new(Column::Column { name: name.to_owned(), column_type, attributes })
}

/// Builds the constraint that makes `keys`, in the order given, the primary
/// key of their table.
pub fn primary_key(keys: &[Arc<Column>]) -> (constraint: Arc<Column>)
    requires
        all_definitions(keys@),
    ensures
        constraint.constrains(key_text(Attribute::PRIMARY_KEY.text(), column_names(keys@))),
{
    let keyword = Attribute::PRIMARY_KEY.name();
    key_constraint(keyword.as_str(), keys)
}

/// Builds the constraint that the values of `keys`, in the order given, are
/// unique together.
pub fn unique(keys: &[Arc<Column>]) -> (constraint: Arc<Column>)
    requires
        all_definitions(keys@),
    ensures
        constraint.constrains(key_text(Attribute::UNIQUE.text(), column_names(keys@))),
{
    let keyword = Attribute::UNIQUE.name();
    key_constraint(keyword.as_str(), keys)
}

/// Builds the constraint that ties `column_name` to the column
/// `other_table_column` of the table `other_table_name`. The keywords of
/// `attributes` follow the clause in the order given.
pub fn foreign_key(
    column_name: Arc<Column>,
    references: ForeignKeyAttribute,
    other_table_name: TableName,
    other_table_column: Arc<Column>,
    attributes: Vec<ForeignKeyAttribute>,
) -> (constraint: Arc<Column>)
    requires
        column_name.is_definition(),
        other_table_column.is_definition(),
    ensures
        constraint.constrains(
            foreign_key_text(
                column_name.name_text(),
                references,
                other_table_name@,
                other_table_column.name_text(),
                attributes@,
            ),
        ),
{
    let mut text = "FOREIGN KEY (".to_owned();
    text.append(column_name.name());
    text.append(") ");
    let keyword = references.to_string();
    text.append(keyword.as_str());
    text.append(" ");
    text.append(other_table_name.as_str());
    text.append(" (");
    text.append(other_table_column.name());
    text.append(")");
    let actions = action_names(&attributes);
    append_trailing(&mut text, &actions);
    Arc::new(Column::Constraint(text))
}

} // verus!

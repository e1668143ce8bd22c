//! A parameterized statement: its text, and the values bound to its
//! placeholders in order.

use vstd::prelude::*;

verus! {

/// A value bound to one `?` of a statement.
#[derive(Clone, Debug, PartialEq, Eq)]
pub enum Bind {
    Int(i32),
    Text(String),
}

/// What a [`Bind`] stands for in contracts.
pub enum BindView {
    Int(int),
    Text(Seq<char>),
}

impl View for Bind {
    type V = BindView;

    open spec fn view(&self) -> BindView {
        match self {
            Bind::Int(value) => BindView::Int(*value as int),
            Bind::Text(value) => BindView::Text(value@),
        }
    }
}

impl DeepView for Bind {
    type V = BindView;

    open spec fn deep_view(&self) -> BindView {
        self@
    }
}

/// A statement as it goes to the store.
#[derive(Clone, Debug, PartialEq, Eq)]
pub struct Statement {
    pub sql: &'static str,
    pub binds: Vec<Bind>,
}

/// What a [`Statement`] stands for in contracts.
pub struct StatementView {
    pub sql: Seq<char>,
    pub binds: Seq<BindView>,
}

impl View for Statement {
    type V = StatementView;

    open spec fn view(&self) -> StatementView {
        StatementView { sql: self.sql@, binds: self.binds.deep_view() }
    }
}

/// The places of a text at which a `?` stands, each waiting for a value.
pub open spec fn placeholders(sql: Seq<char>) -> Set<int> {
    Set::new(|at: int| 0 <= at < sql.len() && sql[at] == '?')
}

impl StatementView {
    /// A statement binds one value to each of its placeholders.
    pub open spec fn well_formed(self) -> bool {
        &&& placeholders(self.sql).finite()
        &&& placeholders(self.sql).len() == self.binds.len()
    }
}

/// The text that makes the `items` table where there is none yet.
pub open spec fn create_table_sql() -> Seq<char> {
    "CREATE TABLE IF NOT EXISTS items (id INTEGER PRIMARY KEY, name TEXT NOT NULL)"@
}

/// The text that reads every row.
pub open spec fn select_all_sql() -> Seq<char> {
    "SELECT * FROM items"@
}

/// The text that reads the row of one id.
pub open spec fn select_one_sql() -> Seq<char> {
    "SELECT * FROM items WHERE id = ?"@
}

/// The text that adds a row with a name and lets the store pick the id.
pub open spec fn insert_sql() -> Seq<char> {
    "INSERT INTO items (name) VALUES (?)"@
}

/// The text that renames the row of one id.
pub open spec fn update_sql() -> Seq<char> {
    "UPDATE items SET name = ? WHERE id = ?"@
}

/// The text that removes the row of one id.
pub open spec fn delete_sql() -> Seq<char> {
    "DELETE FROM items WHERE id = ?"@
}

} // verus!

//! The `items` table as the service relies on it.
//!
//! The table lives in the store, out of this library's reach. What is
//! written here is the behaviour the service counts on when it sends one of
//! its statements: which rows a read may hand back and what a write may
//! leave behind. It is a description in mathematical terms, not code that
//! runs, and nothing here proves that a store keeps to it; the laws of
//! [`crate::laws`] say what follows for the service's answers if it does.
//!
//! A statement runs as a whole or not at all, and it may fail at any time
//! for reasons of the store's own. So each of the three ways to run a
//! statement is a relation: it says which outcomes are possible, not which
//! one comes.

use vstd::prelude::*;
use crate::handlers::{
    create_item_query, create_table_query, delete_item_query, get_item_by_id_query,
    get_items_query, lemma_binds, update_item_query,
};
use crate::item::ItemView;
use crate::statement::StatementView;
use crate::store::Outcome;

verus! {

/// The rows of the table: for each id that is taken, the name stored under
/// it. That an id names at most one row lies in the type. The store's ids
/// are wider than a record's, so an id is a mathematical integer here.
pub struct Table {
    pub rows: Map<int, Seq<char>>,
}

/// The ids of some records, in the records' order.
pub open spec fn ids_of(rows: Seq<ItemView>) -> Seq<int> {
    rows.map_values(|row: ItemView| row.id)
}

impl Table {
    /// A table holds finitely many rows.
    pub open spec fn well_formed(self) -> bool {
        self.rows.dom().finite()
    }

    /// The table right after it was made.
    pub open spec fn empty() -> Table {
        Table { rows: Map::empty() }
    }

    /// Whether a row with this id exists.
    pub open spec fn has(self, id: int) -> bool {
        self.rows.dom().contains(id)
    }

    /// The number of rows.
    pub open spec fn count(self) -> nat {
        self.rows.dom().len()
    }

    /// The record stored under `id`.
    pub open spec fn item(self, id: int) -> ItemView
        recommends
            self.has(id),
    {
        ItemView { id, name: self.rows[id] }
    }

    /// Whether `rows` is a listing of the table: each row once, each as it
    /// is stored, and none left out. The order is the store's to choose, so
    /// a table has many listings.
    pub open spec fn lists(self, rows: Seq<ItemView>) -> bool {
        &&& ids_of(rows).no_duplicates()
        &&& ids_of(rows).to_set() == self.rows.dom()
        &&& forall|i: int|
            0 <= i < rows.len() ==> (#[trigger] rows[i]).name == self.rows[rows[i].id]
    }

    /// The table with one more row.
    pub open spec fn with_row(self, id: int, name: Seq<char>) -> Table
        recommends
            !self.has(id),
    {
        Table { rows: self.rows.insert(id, name) }
    }

    /// Whether `after` is the table with one new row of this name, under an
    /// id that was free. Which id is the store's choice.
    pub open spec fn creates(self, name: Seq<char>, after: Table) -> bool {
        exists|id: int| self.creates_at(id, name, after)
    }

    /// Whether `after` is the table with one new row of this name under
    /// `id`, which was free.
    pub open spec fn creates_at(self, id: int, name: Seq<char>, after: Table) -> bool {
        !self.has(id) && after == self.with_row(id, name)
    }

    /// The table with the row of `id` renamed where there is one, and
    /// unchanged where there is none.
    pub open spec fn renamed(self, id: int, name: Seq<char>) -> Table {
        if self.has(id) {
            Table { rows: self.rows.insert(id, name) }
        } else {
            self
        }
    }

    /// The table without the row of `id`.
    pub open spec fn without(self, id: int) -> Table {
        Table { rows: self.rows.remove(id) }
    }

    /// The number of rows that a write to the row of `id` changes.
    pub open spec fn matched(self, id: int) -> u64 {
        if self.has(id) {
            1
        } else {
            0
        }
    }

    /// What a read of the row of `id` hands back when it runs to its end.
    pub open spec fn get(self, id: int) -> Outcome<ItemView> {
        if self.has(id) {
            Outcome::Done(self.item(id))
        } else {
            Outcome::NotFound
        }
    }

    /// Whether fetching every row of `statement` may hand back `rows`.
    ///
    /// The listing statement hands back a listing of the table. A fetch of
    /// every row never reports a missing row.
    pub open spec fn fetch_all(self, statement: StatementView, rows: Outcome<Seq<ItemView>>) -> bool
        recommends
            statement == get_items_query(),
    {
        match rows {
            Outcome::Done(listing) => statement == get_items_query() && self.lists(listing),
            Outcome::NotFound => false,
            Outcome::StoreError(_) => true,
        }
    }

    /// Whether fetching exactly one row of `statement` may hand back `row`.
    ///
    /// The read of an id hands back the row of that id as it is stored, and
    /// reports a missing row where the table has none of that id.
    pub open spec fn fetch_one(self, statement: StatementView, row: Outcome<ItemView>) -> bool
        recommends
            exists|id: int| statement == get_item_by_id_query(id),
    {
        match row {
            Outcome::Done(item) => {
                &&& statement == get_item_by_id_query(item.id)
                &&& self.has(item.id)
                &&& item == self.item(item.id)
            },
            Outcome::NotFound => exists|id: int|
                statement == #[trigger] get_item_by_id_query(id) && !self.has(id),
            Outcome::StoreError(_) => true,
        }
    }

    /// Whether executing `statement` may hand back `changed` and leave
    /// `after` behind.
    ///
    /// A creation adds one row under a free id. An update renames the row
    /// of its id and a deletion removes it; where the table has no such row
    /// either changes nothing, and that is no failure. Making the table
    /// where it exists changes nothing. `changed` counts the rows a write
    /// touched. A statement that fails leaves the table as it was. Only
    /// the service's own statements are described: of any other statement
    /// the relation admits no success, which says nothing about the store.
    pub open spec fn execute(
        self,
        statement: StatementView,
        changed: Outcome<u64>,
        after: Table,
    ) -> bool {
        match changed {
            Outcome::Done(count) => {
                ||| statement == create_table_query() && after == self
                ||| exists|payload: ItemView|
                    {
                        &&& statement == #[trigger] create_item_query(payload)
                        &&& count == 1
                        &&& self.creates(payload.name, after)
                    }
                ||| exists|id: int, payload: ItemView|
                    {
                        &&& statement == #[trigger] update_item_query(id, payload)
                        &&& count == self.matched(id)
                        &&& after == self.renamed(id, payload.name)
                    }
                ||| exists|id: int|
                    {
                        &&& statement == #[trigger] delete_item_query(id)
                        &&& count == self.matched(id)
                        &&& after == self.without(id)
                    }
            },
            Outcome::NotFound => false,
            Outcome::StoreError(_) => after == self,
        }
    }
}

/// A read of an id either fails or hands back what the table holds under
/// that id.
pub proof fn lemma_read(table: Table, id: int, row: Outcome<ItemView>)
    requires
        table.fetch_one(get_item_by_id_query(id), row),
    ensures
        row is StoreError || row == table.get(id),
{
    lemma_binds();
}

/// A creation that ran changed one row: the new one, under an id that was
/// free.
pub proof fn lemma_creation(table: Table, payload: ItemView, count: u64, after: Table)
    requires
        table.execute(create_item_query(payload), Outcome::Done(count), after),
    ensures
        count == 1,
        table.creates(payload.name, after),
{
    lemma_binds();
}

/// An update that ran renamed the row of its id, if there was one, and
/// touched nothing else.
pub proof fn lemma_update(table: Table, id: int, payload: ItemView, count: u64, after: Table)
    requires
        table.execute(update_item_query(id, payload), Outcome::Done(count), after),
    ensures
        count == table.matched(id),
        after == table.renamed(id, payload.name),
{
    lemma_binds();
}

/// A deletion that ran removed the row of its id, if there was one, and
/// touched nothing else.
pub proof fn lemma_deletion(table: Table, id: int, count: u64, after: Table)
    requires
        table.execute(delete_item_query(id), Outcome::Done(count), after),
    ensures
        count == table.matched(id),
        after == table.without(id),
{
    lemma_binds();
}

} // verus!

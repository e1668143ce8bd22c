//! The one entity of the service: a record of the `items` table.

use vstd::prelude::*;

verus! {

/// What an [`Item`] stands for in contracts: its id as a mathematical integer
/// and its name as a sequence of characters.
pub struct ItemView {
    pub id: int,
    pub name: Seq<char>,
}

/// A record of the `items` table.
///
/// The store assigns `id` when the record is created and never changes it;
/// `name` is the only thing a client can set.
#[derive(Clone, Debug, PartialEq, Eq)]
pub struct Item {
    pub id: i32,
    pub name: String,
}

impl View for Item {
    type V = ItemView;

    open spec fn view(&self) -> ItemView {
        ItemView { id: self.id as int, name: self.name@ }
    }
}

impl DeepView for Item {
    type V = ItemView;

    open spec fn deep_view(&self) -> ItemView {
        self@
    }
}

impl Item {
    /// A record with the given id and name.
    pub fn new(id: i32, name: String) -> (item: Item)
        ensures
            item@ == (ItemView { id: id as int, name: name@ }),
    {
        Item { id, name }
    }
}

} // verus!

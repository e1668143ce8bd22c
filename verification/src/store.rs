//! What the store hands back for one statement.

use vstd::prelude::*;

verus! {

/// The result of running one statement against the store.
///
/// `Done` carries what the statement produced. `NotFound` is the answer to a
/// query for one row that matched none. `StoreError` is every other failure,
/// with the store's own description of it.
#[derive(Clone, Debug, PartialEq, Eq)]
pub enum StoreOutcome<T> {
    Done(T),
    NotFound,
    StoreError(String),
}

/// What a [`StoreOutcome`] stands for in contracts.
pub enum Outcome<T> {
    Done(T),
    NotFound,
    StoreError(Seq<char>),
}

impl<T: DeepView> DeepView for StoreOutcome<T> {
    type V = Outcome<T::V>;

    open spec fn deep_view(&self) -> Outcome<T::V> {
        match self {
            StoreOutcome::Done(value) => Outcome::Done(value.deep_view()),
            StoreOutcome::NotFound => Outcome::NotFound,
            StoreOutcome::StoreError(detail) => Outcome::StoreError(detail@),
        }
    }
}

impl<T> StoreOutcome<T> {
    /// Whether the statement ran to its end.
    pub fn is_done(&self) -> (done: bool)
        ensures
            done == (self is Done),
    {
        match self {
            StoreOutcome::Done(_) => true,
            _ => false,
        }
    }
}

} // verus!

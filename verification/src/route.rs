//! The table of endpoints: for each operation its method, its path, and the
//! two statuses it can end in.

use vstd::prelude::*;
use crate::response::Status;

verus! {

/// The request methods the service listens for.
#[derive(Clone, Copy, Debug, PartialEq, Eq, Structural)]
pub enum Method {
    Get,
    Post,
    Put,
    Delete,
}

/// What a path names: the collection of all items, or the one item whose id
/// is the path's last segment.
#[derive(Clone, Copy, Debug, PartialEq, Eq, Structural)]
pub enum Target {
    Collection,
    Member,
}

impl Target {
    /// The path as the router is given it. In the path of a member, `{id}`
    /// stands for the item's id, a 32-bit signed integer; the router turns
    /// away a request whose segment is none.
    pub open spec fn spec_pattern(self) -> Seq<char> {
        match self {
            Target::Collection => "/items"@,
            Target::Member => "/items/{id}"@,
        }
    }

    /// The path as the router is given it.
    pub fn pattern(self) -> (pattern: &'static str)
        ensures
            pattern@ == self.spec_pattern(),
    {
        match self {
            Target::Collection => "/items",
            Target::Member => "/items/{id}",
        }
    }
}

/// The five operations of the service.
#[derive(Clone, Copy, Debug, PartialEq, Eq, Structural)]
pub enum Endpoint {
    GetItems,
    GetItemById,
    CreateItem,
    UpdateItem,
    DeleteItem,
}

impl Endpoint {
    /// The method an operation answers to.
    pub open spec fn spec_method(self) -> Method {
        match self {
            Endpoint::GetItems => Method::Get,
            Endpoint::GetItemById => Method::Get,
            Endpoint::CreateItem => Method::Post,
            Endpoint::UpdateItem => Method::Put,
            Endpoint::DeleteItem => Method::Delete,
        }
    }

    /// The method an operation answers to.
    #[verifier::when_used_as_spec(spec_method)]
    pub fn method(self) -> (method: Method)
        ensures
            method == self.spec_method(),
    {
        match self {
            Endpoint::GetItems => Method::Get,
            Endpoint::GetItemById => Method::Get,
            Endpoint::CreateItem => Method::Post,
            Endpoint::UpdateItem => Method::Put,
            Endpoint::DeleteItem => Method::Delete,
        }
    }

    /// What an operation's path names.
    pub open spec fn spec_target(self) -> Target {
        match self {
            Endpoint::GetItems => Target::Collection,
            Endpoint::GetItemById => Target::Member,
            Endpoint::CreateItem => Target::Collection,
            Endpoint::UpdateItem => Target::Member,
            Endpoint::DeleteItem => Target::Member,
        }
    }

    /// What an operation's path names.
    #[verifier::when_used_as_spec(spec_target)]
    pub fn target(self) -> (target: Target)
        ensures
            target == self.spec_target(),
    {
        match self {
            Endpoint::GetItems => Target::Collection,
            Endpoint::GetItemById => Target::Member,
            Endpoint::CreateItem => Target::Collection,
            Endpoint::UpdateItem => Target::Member,
            Endpoint::DeleteItem => Target::Member,
        }
    }

    /// The status of an operation whose statement ran to its end.
    pub open spec fn spec_success(self) -> Status {
        match self {
            Endpoint::GetItems => Status::Okay,
            Endpoint::GetItemById => Status::Okay,
            Endpoint::CreateItem => Status::Created,
            Endpoint::UpdateItem => Status::NoContent,
            Endpoint::DeleteItem => Status::NoContent,
        }
    }

    /// The status of an operation whose statement ran to its end.
    #[verifier::when_used_as_spec(spec_success)]
    pub fn success(self) -> (status: Status)
        ensures
            status == self.spec_success(),
    {
        match self {
            Endpoint::GetItems => Status::Okay,
            Endpoint::GetItemById => Status::Okay,
            Endpoint::CreateItem => Status::Created,
            Endpoint::UpdateItem => Status::NoContent,
            Endpoint::DeleteItem => Status::NoContent,
        }
    }

    /// The status of an operation whose statement did not run to its end.
    /// A read of one item does not tell a missing row from a broken store:
    /// both are 404. Everywhere else a failure is 500.
    pub open spec fn spec_failure(self) -> Status {
        match self {
            Endpoint::GetItemById => Status::NotFound,
            _ => Status::InternalServerError,
        }
    }

    /// The status of an operation whose statement did not run to its end.
    #[verifier::when_used_as_spec(spec_failure)]
    pub fn failure(self) -> (status: Status)
        ensures
            status == self.spec_failure(),
    {
        match self {
            Endpoint::GetItemById => Status::NotFound,
            _ => Status::InternalServerError,
        }
    }

    /// The status an operation ends in.
    pub open spec fn spec_status(self, done: bool) -> Status {
        if done {
            self.spec_success()
        } else {
            self.spec_failure()
        }
    }

    /// The status an operation ends in, given whether its statement ran to
    /// its end.
    #[verifier::when_used_as_spec(spec_status)]
    pub fn status(self, done: bool) -> (status: Status)
        ensures
            status == self.spec_status(done),
    {
        if done {
            self.success()
        } else {
            self.failure()
        }
    }

    /// Every operation, once.
    pub fn all() -> (endpoints: Vec<Endpoint>)
        ensures
            endpoints@ == seq![
                Endpoint::GetItems,
                Endpoint::GetItemById,
                Endpoint::CreateItem,
                Endpoint::UpdateItem,
                Endpoint::DeleteItem,
            ],
    {
        let mut endpoints: Vec<Endpoint> = Vec::new();
        endpoints.push(Endpoint::GetItems);
        endpoints.push(Endpoint::GetItemById);
        endpoints.push(Endpoint::CreateItem);
        endpoints.push(Endpoint::UpdateItem);
        endpoints.push(Endpoint::DeleteItem);
        assert(endpoints@ =~= seq![
            Endpoint::GetItems,
            Endpoint::GetItemById,
            Endpoint::CreateItem,
            Endpoint::UpdateItem,
            Endpoint::DeleteItem,
        ]);
        endpoints
    }
}

/// Routing is unambiguous: operations that share method and path are one
/// operation.
pub proof fn law_routes_are_distinct(first: Endpoint, second: Endpoint)
    requires
        first.method() == second.method(),
        first.target().spec_pattern() == second.target().spec_pattern(),
    ensures
        first == second,
{
    reveal_strlit("/items");
    reveal_strlit("/items/{id}");
    assert("/items"@.len() != "/items/{id}"@.len());
}

} // verus!

//! What goes back to the client: a status and, for the two reads, a body.

use vstd::prelude::*;
use crate::item::{Item, ItemView};

verus! {

/// The five statuses the service answers with.
#[derive(Clone, Copy, Debug, PartialEq, Eq, Structural)]
pub enum Status {
    Okay,
    Created,
    NoContent,
    NotFound,
    InternalServerError,
}

impl Status {
    /// The number on the status line.
    pub open spec fn spec_code(self) -> u16 {
        match self {
            Status::Okay => 200,
            Status::Created => 201,
            Status::NoContent => 204,
            Status::NotFound => 404,
            Status::InternalServerError => 500,
        }
    }

    /// The number on the status line.
    #[verifier::when_used_as_spec(spec_code)]
    pub fn code(self) -> (code: u16)
        ensures
            code == self.spec_code(),
    {
        match self {
            Status::Okay => 200,
            Status::Created => 201,
            Status::NoContent => 204,
            Status::NotFound => 404,
            Status::InternalServerError => 500,
        }
    }

    /// Whether the status reports success, that is, lies in 200..300.
    pub open spec fn spec_is_success(self) -> bool {
        200 <= self.spec_code() < 300
    }

    /// Whether the status reports success, that is, lies in 200..300.
    #[verifier::when_used_as_spec(spec_is_success)]
    pub fn is_success(self) -> (success: bool)
        ensures
            success == self.spec_is_success(),
    {
        let code: u16 = self.code();
        200 <= code && code < 300
    }
}

/// What a response carries below its status line. Every body but `Empty` is
/// sent as JSON: one record as an object, a list of records as an array.
#[derive(Clone, Debug, PartialEq, Eq)]
pub enum Body {
    Empty,
    One(Item),
    Many(Vec<Item>),
}

/// What a [`Body`] stands for in contracts.
pub enum BodyView {
    Empty,
    One(ItemView),
    Many(Seq<ItemView>),
}

impl View for Body {
    type V = BodyView;

    open spec fn view(&self) -> BodyView {
        match self {
            Body::Empty => BodyView::Empty,
            Body::One(item) => BodyView::One(item@),
            Body::Many(items) => BodyView::Many(items.deep_view()),
        }
    }
}

/// The answer to one request.
#[derive(Clone, Debug, PartialEq, Eq)]
pub struct Response {
    pub status: Status,
    pub body: Body,
}

/// What a [`Response`] stands for in contracts.
pub struct ResponseView {
    pub status: Status,
    pub body: BodyView,
}

impl View for Response {
    type V = ResponseView;

    open spec fn view(&self) -> ResponseView {
        ResponseView { status: self.status, body: self.body@ }
    }
}

impl ResponseView {
    /// A response of the given status that carries nothing.
    pub open spec fn empty(status: Status) -> ResponseView {
        ResponseView { status, body: BodyView::Empty }
    }
}

impl Response {
    /// A response of the given status that carries nothing.
    pub fn empty(status: Status) -> (response: Response)
        ensures
            response@ == ResponseView::empty(status),
    {
        Response { status, body: Body::Empty }
    }
}

} // verus!

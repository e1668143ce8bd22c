//! The five operations of the service, each in two halves.
//!
//! The first half says which statement goes to the store for a request; the
//! second takes what the store handed back and says what the client gets.
//! Between the two the caller runs the statement; nothing here waits for
//! anything. No half looks at more than its arguments, so the service keeps
//! nothing from one request to the next.
//!
//! A statement is run once. Whatever the store answers is final: nothing is
//! tried again, and a failure reaches the client as a bare status.

use vstd::prelude::*;
use crate::item::{Item, ItemView};
use crate::response::{Body, BodyView, Response, ResponseView, Status};
use crate::statement::{
    create_table_sql, delete_sql, insert_sql, placeholders, select_all_sql, select_one_sql,
    update_sql, Bind, BindView, Statement, StatementView,
};
use crate::store::{Outcome, StoreOutcome};

verus! {

/// The statement that makes the table. It is safe to run on every start:
/// where the table exists it changes nothing.
pub open spec fn create_table_query() -> StatementView {
    StatementView { sql: create_table_sql(), binds: Seq::empty() }
}

/// Builds the statement that makes the table where there is none yet.
pub fn create_table_statement() -> (statement: Statement)
    ensures
        statement@ == create_table_query(),
        statement@.well_formed(),
{
    let statement = Statement {
        sql: "CREATE TABLE IF NOT EXISTS items (id INTEGER PRIMARY KEY, name TEXT NOT NULL)",
        binds: Vec::new(),
    };
    proof {
        assert(statement.binds.deep_view() =~= Seq::empty());
        law_statements_are_well_formed();
    }
    statement
}

/// The statement that lists the items: every row, no filter, no order asked.
pub open spec fn get_items_query() -> StatementView {
    StatementView { sql: select_all_sql(), binds: Seq::empty() }
}

/// Builds the statement for a listing.
pub fn get_items_statement() -> (statement: Statement)
    ensures
        statement@ == get_items_query(),
        statement@.well_formed(),
{
    let statement = Statement { sql: "SELECT * FROM items", binds: Vec::new() };
    proof {
        assert(statement.binds.deep_view() =~= Seq::empty());
        law_statements_are_well_formed();
    }
    statement
}

/// The answer to a listing: the rows as the store gave them, in its order,
/// with 200; on any failure 500 and nothing else.
pub open spec fn get_items_response(rows: Outcome<Seq<ItemView>>) -> ResponseView {
    match rows {
        Outcome::Done(items) => ResponseView { status: Status::Okay, body: BodyView::Many(items) },
        _ => ResponseView::empty(Status::InternalServerError),
    }
}

/// Answers a listing from what the store handed back. `rows` is the outcome
/// of fetching every row of [`get_items_statement`].
pub fn get_items(rows: StoreOutcome<Vec<Item>>) -> (response: Response)
    ensures
        response@ == get_items_response(rows.deep_view()),
{
    match rows {
        StoreOutcome::Done(items) => Response { status: Status::Okay, body: Body::Many(items) },
        _ => Response::empty(Status::InternalServerError),
    }
}

/// The statement that reads the item of `id`.
pub open spec fn get_item_by_id_query(id: int) -> StatementView {
    StatementView { sql: select_one_sql(), binds: seq![BindView::Int(id)] }
}

/// Builds the statement for a read of the item of `id`.
pub fn get_item_by_id_statement(id: i32) -> (statement: Statement)
    ensures
        statement@ == get_item_by_id_query(id as int),
        statement@.well_formed(),
{
    let mut binds: Vec<Bind> = Vec::new();
    binds.push(Bind::Int(id));
    let statement = Statement { sql: "SELECT * FROM items WHERE id = ?", binds };
    proof {
        assert(statement.binds.deep_view() =~= seq![BindView::Int(id as int)]);
        law_statements_are_well_formed();
        assert(get_item_by_id_query(id as int).well_formed());
    }
    statement
}

/// The answer to a read of one item: the row with 200. Where the store has
/// no such row the answer is 404, and so it is on every other failure: the
/// two are not told apart.
pub open spec fn get_item_by_id_response(row: Outcome<ItemView>) -> ResponseView {
    match row {
        Outcome::Done(item) => ResponseView { status: Status::Okay, body: BodyView::One(item) },
        _ => ResponseView::empty(Status::NotFound),
    }
}

/// Answers a read of one item. `row` is the outcome of fetching exactly one
/// row of [`get_item_by_id_statement`].
pub fn get_item_by_id(row: StoreOutcome<Item>) -> (response: Response)
    ensures
        response@ == get_item_by_id_response(row.deep_view()),
{
    match row {
        StoreOutcome::Done(item) => Response { status: Status::Okay, body: Body::One(item) },
        _ => Response::empty(Status::NotFound),
    }
}

/// The statement that creates an item. Of the payload only the name goes
/// out; the id is the store's to choose.
pub open spec fn create_item_query(payload: ItemView) -> StatementView {
    StatementView { sql: insert_sql(), binds: seq![BindView::Text(payload.name)] }
}

/// Builds the statement for a creation from the request's payload.
pub fn create_item_statement(payload: &Item) -> (statement: Statement)
    ensures
        statement@ == create_item_query(payload@),
        statement@.well_formed(),
{
    let mut binds: Vec<Bind> = Vec::new();
    binds.push(Bind::Text(payload.name.clone()));
    let statement = Statement { sql: "INSERT INTO items (name) VALUES (?)", binds };
    proof {
        assert(statement.binds.deep_view() =~= seq![BindView::Text(payload.name@)]);
        law_statements_are_well_formed();
        assert(create_item_query(payload@).well_formed());
    }
    statement
}

/// The answer to a creation: 201 with nothing in it, not even the new id;
/// on any failure 500.
pub open spec fn create_item_response(changed: Outcome<u64>) -> ResponseView {
    match changed {
        Outcome::Done(_) => ResponseView::empty(Status::Created),
        _ => ResponseView::empty(Status::InternalServerError),
    }
}

/// Answers a creation. `changed` is the outcome of executing
/// [`create_item_statement`]: the number of rows it changed.
pub fn create_item(changed: StoreOutcome<u64>) -> (response: Response)
    ensures
        response@ == create_item_response(changed.deep_view()),
{
    match changed {
        StoreOutcome::Done(_) => Response::empty(Status::Created),
        _ => Response::empty(Status::InternalServerError),
    }
}

/// The statement that renames the item of `id` to the payload's name. The
/// payload's own id is not looked at.
pub open spec fn update_item_query(id: int, payload: ItemView) -> StatementView {
    StatementView {
        sql: update_sql(),
        binds: seq![BindView::Text(payload.name), BindView::Int(id)],
    }
}

/// Builds the statement for an update of the item of `id` from the
/// request's payload.
pub fn update_item_statement(id: i32, payload: &Item) -> (statement: Statement)
    ensures
        statement@ == update_item_query(id as int, payload@),
        statement@.well_formed(),
{
    let mut binds: Vec<Bind> = Vec::new();
    binds.push(Bind::Text(payload.name.clone()));
    binds.push(Bind::Int(id));
    let statement = Statement { sql: "UPDATE items SET name = ? WHERE id = ?", binds };
    proof {
        assert(statement.binds.deep_view() =~= seq![
            BindView::Text(payload.name@),
            BindView::Int(id as int),
        ]);
        law_statements_are_well_formed();
        assert(update_item_query(id as int, payload@).well_formed());
    }
    statement
}

/// The answer to an update: 204 whenever the statement ran, however many
/// rows it changed, none included; on any failure 500.
pub open spec fn update_item_response(changed: Outcome<u64>) -> ResponseView {
    match changed {
        Outcome::Done(_) => ResponseView::empty(Status::NoContent),
        _ => ResponseView::empty(Status::InternalServerError),
    }
}

/// Answers an update. `changed` is the outcome of executing
/// [`update_item_statement`]: the number of rows it changed.
pub fn update_item(changed: StoreOutcome<u64>) -> (response: Response)
    ensures
        response@ == update_item_response(changed.deep_view()),
{
    match changed {
        StoreOutcome::Done(_) => Response::empty(Status::NoContent),
        _ => Response::empty(Status::InternalServerError),
    }
}

/// The statement that deletes the item of `id`.
pub open spec fn delete_item_query(id: int) -> StatementView {
    StatementView { sql: delete_sql(), binds: seq![BindView::Int(id)] }
}

/// Builds the statement for a deletion of the item of `id`.
pub fn delete_item_statement(id: i32) -> (statement: Statement)
    ensures
        statement@ == delete_item_query(id as int),
        statement@.well_formed(),
{
    let mut binds: Vec<Bind> = Vec::new();
    binds.push(Bind::Int(id));
    let statement = Statement { sql: "DELETE FROM items WHERE id = ?", binds };
    proof {
        assert(statement.binds.deep_view() =~= seq![BindView::Int(id as int)]);
        law_statements_are_well_formed();
        assert(delete_item_query(id as int).well_formed());
    }
    statement
}

/// The answer to a deletion: 204 whenever the statement ran, however many
/// rows it removed, none included; on any failure 500.
pub open spec fn delete_item_response(changed: Outcome<u64>) -> ResponseView {
    match changed {
        Outcome::Done(_) => ResponseView::empty(Status::NoContent),
        _ => ResponseView::empty(Status::InternalServerError),
    }
}

/// Answers a deletion. `changed` is the outcome of executing
/// [`delete_item_statement`]: the number of rows it changed.
pub fn delete_item(changed: StoreOutcome<u64>) -> (response: Response)
    ensures
        response@ == delete_item_response(changed.deep_view()),
{
    match changed {
        StoreOutcome::Done(_) => Response::empty(Status::NoContent),
        _ => Response::empty(Status::InternalServerError),
    }
}

/// What each statement of the service binds: enough to tell the statements
/// apart and to read their arguments back.
pub proof fn lemma_binds()
    ensures
        create_table_query().binds.len() == 0,
        get_items_query().binds.len() == 0,
        forall|id: int|
            (#[trigger] get_item_by_id_query(id)).binds.len() == 1 && get_item_by_id_query(
                id,
            ).binds[0] == BindView::Int(id),
        forall|payload: ItemView|
            (#[trigger] create_item_query(payload)).binds.len() == 1 && create_item_query(
                payload,
            ).binds[0] == BindView::Text(payload.name),
        forall|id: int, payload: ItemView|
            (#[trigger] update_item_query(id, payload)).binds.len() == 2 && update_item_query(
                id,
                payload,
            ).binds[0] == BindView::Text(payload.name) && update_item_query(id, payload).binds[1]
                == BindView::Int(id),
        forall|id: int|
            (#[trigger] delete_item_query(id)).binds.len() == 1 && delete_item_query(id).binds[0]
                == BindView::Int(id),
{
}

/// Every statement of the service binds exactly one value to each of its
/// placeholders, whatever the request.
pub proof fn law_statements_are_well_formed()
    ensures
        create_table_query().well_formed(),
        get_items_query().well_formed(),
        forall|id: int| (#[trigger] get_item_by_id_query(id)).well_formed(),
        forall|payload: ItemView| (#[trigger] create_item_query(payload)).well_formed(),
        forall|id: int, payload: ItemView|
            (#[trigger] update_item_query(id, payload)).well_formed(),
        forall|id: int| (#[trigger] delete_item_query(id)).well_formed(),
{
    reveal_strlit("CREATE TABLE IF NOT EXISTS items (id INTEGER PRIMARY KEY, name TEXT NOT NULL)");
    reveal_strlit("SELECT * FROM items");
    reveal_strlit("SELECT * FROM items WHERE id = ?");
    reveal_strlit("INSERT INTO items (name) VALUES (?)");
    reveal_strlit("UPDATE items SET name = ? WHERE id = ?");
    reveal_strlit("DELETE FROM items WHERE id = ?");
    assert(placeholders(create_table_sql()) =~= Set::empty());
    assert(placeholders(select_all_sql()) =~= Set::empty());
    assert(placeholders(select_one_sql()) =~= set![31int]);
    assert(placeholders(insert_sql()) =~= set![33int]);
    assert(placeholders(update_sql()) =~= set![24int, 37int]);
    assert(placeholders(delete_sql()) =~= set![29int]);
}

} // verus!

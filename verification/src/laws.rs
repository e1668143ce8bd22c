//! What holds of the service's answers when the store keeps the table as
//! [`crate::table`] describes it.
//!
//! Each law follows requests through their two halves: the handler names
//! the statement, the table answers it, the handler answers the client. A
//! statement may fail in the store at any time, so a law speaks of what the
//! client gets where the statements ran to their end; what it gets where
//! one did not is in [`law_failures_are_bare`].

use vstd::prelude::*;
use crate::handlers::{
    create_item_query, create_item_response, create_table_query, delete_item_query,
    delete_item_response, get_item_by_id_query, get_item_by_id_response, get_items_query,
    get_items_response, lemma_binds, update_item_query, update_item_response,
};
use crate::item::ItemView;
use crate::response::{BodyView, ResponseView, Status};
use crate::route::Endpoint;
use crate::store::Outcome;
use crate::table::{ids_of, lemma_creation, lemma_deletion, lemma_read, lemma_update, Table};

verus! {

/// Whether `rows[i]` exists and carries `name`.
pub open spec fn named(rows: Seq<ItemView>, i: int, name: Seq<char>) -> bool {
    0 <= i < rows.len() && rows[i].name == name
}

/// Whether `rows[i]` exists and has the id `id`.
pub open spec fn listed_at(rows: Seq<ItemView>, i: int, id: int) -> bool {
    0 <= i < rows.len() && rows[i].id == id
}

/// A listing that ran is answered with 200 and shows the table: as many
/// records as the table has rows, every row under its id, and nothing that
/// is not a row.
pub proof fn law_listing_is_complete(table: Table, rows: Seq<ItemView>)
    requires
        table.well_formed(),
        table.fetch_all(get_items_query(), Outcome::Done(rows)),
    ensures
        get_items_response(Outcome::Done(rows)) == (ResponseView {
            status: Status::Okay,
            body: BodyView::Many(rows),
        }),
        rows.len() == table.count(),
        forall|id: int| #[trigger]
            table.has(id) ==> exists|i: int| #[trigger]
                listed_at(rows, i, id) && rows[i] == table.item(id),
        forall|i: int|
            0 <= i < rows.len() ==> table.has((#[trigger] rows[i]).id) && rows[i] == table.item(
                rows[i].id,
            ),
{
    let ids = ids_of(rows);
    ids.unique_seq_to_set();
    assert forall|id: int| #[trigger] table.has(id) implies exists|i: int| #[trigger]
        listed_at(rows, i, id) && rows[i] == table.item(id) by {
        let i = choose|i: int| 0 <= i < ids.len() && ids[i] == id;
        assert(listed_at(rows, i, id));
    }
    assert forall|i: int| 0 <= i < rows.len() implies table.has((#[trigger] rows[i]).id) && rows[i]
        == table.item(rows[i].id) by {
        assert(ids[i] == rows[i].id);
    }
}

/// A table that was just made lists nothing: the listing is answered with
/// 200 and an empty list.
pub proof fn law_fresh_table_lists_nothing(rows: Seq<ItemView>)
    requires
        Table::empty().fetch_all(get_items_query(), Outcome::Done(rows)),
    ensures
        get_items_response(Outcome::Done(rows)) == (ResponseView {
            status: Status::Okay,
            body: BodyView::Many(Seq::empty()),
        }),
{
    law_listing_is_complete(Table::empty(), rows);
    assert(rows =~= Seq::empty());
}

/// Making the table is safe to repeat: where the table exists, the
/// statement that makes it changes no row, whether it runs or fails.
pub proof fn law_making_the_table_keeps_it(table: Table, changed: Outcome<u64>, after: Table)
    requires
        table.execute(create_table_query(), changed, after),
    ensures
        after == table,
{
    lemma_binds();
}

/// A creation adds one row and touches no other. It is answered with 201
/// and an empty body. Every listing afterwards is longer by one than the
/// table was; it holds exactly one record whose id was free before, that
/// record carries the payload's name, and every other record is a row as it
/// was.
pub proof fn law_creation_adds_one_row(
    table: Table,
    payload: ItemView,
    changed: u64,
    after: Table,
    rows: Seq<ItemView>,
)
    requires
        table.well_formed(),
        table.execute(create_item_query(payload), Outcome::Done(changed), after),
        after.fetch_all(get_items_query(), Outcome::Done(rows)),
    ensures
        create_item_response(Outcome::Done(changed)) == ResponseView::empty(Status::Created),
        after.well_formed(),
        rows.len() == table.count() + 1,
        exists|i: int| #[trigger] named(rows, i, payload.name) && !table.has(rows[i].id),
        forall|i: int, j: int|
            0 <= i < rows.len() && 0 <= j < rows.len() && !table.has((#[trigger] rows[i]).id)
                && !table.has((#[trigger] rows[j]).id) ==> i == j,
        forall|i: int|
            0 <= i < rows.len() && table.has((#[trigger] rows[i]).id) ==> rows[i] == table.item(
                rows[i].id,
            ),
{
    lemma_creation(table, payload, changed, after);
    let id = choose|id: int| table.creates_at(id, payload.name, after);
    let ids = ids_of(rows);
    law_listing_is_complete(after, rows);
    assert(after.has(id));
    let k = choose|k: int| #[trigger] listed_at(rows, k, id) && rows[k] == after.item(id);
    assert(named(rows, k, payload.name) && !table.has(rows[k].id));
    assert forall|i: int, j: int|
        0 <= i < rows.len() && 0 <= j < rows.len() && !table.has((#[trigger] rows[i]).id)
            && !table.has((#[trigger] rows[j]).id) implies i == j by {
        assert(ids[i] == rows[i].id && ids[j] == rows[j].id);
    }
}

/// Round trip: after an item was created under a name that no item had
/// yet, every listing holds exactly one record with that name.
pub proof fn law_created_item_is_listed_once(
    table: Table,
    payload: ItemView,
    changed: u64,
    after: Table,
    rows: Seq<ItemView>,
)
    requires
        table.well_formed(),
        forall|id: int| table.has(id) ==> table.rows[id] != payload.name,
        table.execute(create_item_query(payload), Outcome::Done(changed), after),
        after.fetch_all(get_items_query(), Outcome::Done(rows)),
    ensures
        create_item_response(Outcome::Done(changed)).status == Status::Created,
        get_items_response(Outcome::Done(rows)) == (ResponseView {
            status: Status::Okay,
            body: BodyView::Many(rows),
        }),
        exists|i: int| #[trigger] named(rows, i, payload.name),
        forall|i: int, j: int| #[trigger]
            named(rows, i, payload.name) && #[trigger] named(rows, j, payload.name) ==> i == j,
{
    law_creation_adds_one_row(table, payload, changed, after, rows);
    let new = choose|i: int| #[trigger] named(rows, i, payload.name) && !table.has(rows[i].id);
    assert(named(rows, new, payload.name));
}

/// Get after create: once an item was created there is an id, free before,
/// under which a read that runs hands back a record with the new name and
/// is answered with 200. The law returns that id.
pub proof fn law_created_item_can_be_read(
    table: Table,
    payload: ItemView,
    changed: u64,
    after: Table,
) -> (id: int)
    requires
        table.execute(create_item_query(payload), Outcome::Done(changed), after),
    ensures
        !table.has(id),
        after.fetch_one(
            get_item_by_id_query(id),
            Outcome::Done(ItemView { id, name: payload.name }),
        ),
        forall|row: Outcome<ItemView>| #[trigger]
            after.fetch_one(get_item_by_id_query(id), row) && !(row is StoreError)
                ==> get_item_by_id_response(row) == (ResponseView {
                status: Status::Okay,
                body: BodyView::One(ItemView { id, name: payload.name }),
            }),
{
    lemma_creation(table, payload, changed, after);
    let id = choose|id: int| table.creates_at(id, payload.name, after);
    assert forall|row: Outcome<ItemView>| #[trigger]
        after.fetch_one(get_item_by_id_query(id), row) && !(row is StoreError)
        implies get_item_by_id_response(row) == (ResponseView {
        status: Status::Okay,
        body: BodyView::One(ItemView { id, name: payload.name }),
    }) by {
        lemma_read(after, id, row);
    }
    id
}

/// Not found: a read of an id that the table does not hold is answered
/// with 404 and no body, whatever the store hands back.
pub proof fn law_missing_item_is_not_found(table: Table, id: int, row: Outcome<ItemView>)
    requires
        !table.has(id),
        table.fetch_one(get_item_by_id_query(id), row),
    ensures
        get_item_by_id_response(row) == ResponseView::empty(Status::NotFound),
{
    lemma_read(table, id, row);
}

/// Update on a missing id: it changes no row and adds none, so a listing is
/// as long afterwards as before; and where the statement ran it is answered
/// with 204, though it matched nothing.
pub proof fn law_update_of_missing_item_changes_nothing(
    table: Table,
    id: int,
    payload: ItemView,
    changed: Outcome<u64>,
    after: Table,
    rows_before: Seq<ItemView>,
    rows_after: Seq<ItemView>,
)
    requires
        table.well_formed(),
        !table.has(id),
        table.execute(update_item_query(id, payload), changed, after),
        table.fetch_all(get_items_query(), Outcome::Done(rows_before)),
        after.fetch_all(get_items_query(), Outcome::Done(rows_after)),
    ensures
        after == table,
        rows_after.len() == rows_before.len(),
        changed is Done ==> changed == Outcome::Done(0u64) && update_item_response(changed)
            == ResponseView::empty(Status::NoContent),
{
    if let Outcome::Done(count) = changed {
        lemma_update(table, id, payload, count, after);
    }
    law_listing_is_complete(table, rows_before);
    law_listing_is_complete(table, rows_after);
}

/// Delete on a missing id: it removes no row, so a listing is as long
/// afterwards as before; and where the statement ran it is answered with
/// 204, though it matched nothing.
pub proof fn law_delete_of_missing_item_changes_nothing(
    table: Table,
    id: int,
    changed: Outcome<u64>,
    after: Table,
    rows_before: Seq<ItemView>,
    rows_after: Seq<ItemView>,
)
    requires
        table.well_formed(),
        !table.has(id),
        table.execute(delete_item_query(id), changed, after),
        table.fetch_all(get_items_query(), Outcome::Done(rows_before)),
        after.fetch_all(get_items_query(), Outcome::Done(rows_after)),
    ensures
        after == table,
        rows_after.len() == rows_before.len(),
        changed is Done ==> changed == Outcome::Done(0u64) && delete_item_response(changed)
            == ResponseView::empty(Status::NoContent),
{
    if let Outcome::Done(count) = changed {
        lemma_deletion(table, id, count, after);
        assert(table.without(id).rows =~= table.rows);
    }
    law_listing_is_complete(table, rows_before);
    law_listing_is_complete(table, rows_after);
}

/// Delete then get: an item that was created and then deleted is gone. The
/// deletion is answered with 204, a read of the item's id with 404, and
/// the table is as it was before the creation. `id` is the id the store
/// gave the item.
pub proof fn law_deleted_item_is_not_found(
    table: Table,
    payload: ItemView,
    created: u64,
    with_item: Table,
    id: int,
    deleted: u64,
    after: Table,
    row: Outcome<ItemView>,
)
    requires
        table.execute(create_item_query(payload), Outcome::Done(created), with_item),
        !table.has(id) && with_item.has(id),
        with_item.execute(delete_item_query(id), Outcome::Done(deleted), after),
        after.fetch_one(get_item_by_id_query(id), row),
    ensures
        create_item_response(Outcome::Done(created)) == ResponseView::empty(Status::Created),
        deleted == 1,
        delete_item_response(Outcome::Done(deleted)) == ResponseView::empty(Status::NoContent),
        get_item_by_id_response(row) == ResponseView::empty(Status::NotFound),
        after == table,
{
    lemma_creation(table, payload, created, with_item);
    lemma_deletion(with_item, id, deleted, after);
    lemma_read(after, id, row);
    assert(after.rows =~= table.rows);
}

/// Update mutates exactly its target: an update of an item that exists is
/// answered with 204; afterwards the item has its old id and the new name,
/// every other item is as it was, and no id was added or lost.
pub proof fn law_update_changes_only_its_target(
    table: Table,
    id: int,
    payload: ItemView,
    changed: u64,
    after: Table,
)
    requires
        table.has(id),
        table.execute(update_item_query(id, payload), Outcome::Done(changed), after),
    ensures
        changed == 1,
        update_item_response(Outcome::Done(changed)) == ResponseView::empty(Status::NoContent),
        after.get(id) == Outcome::Done(ItemView { id, name: payload.name }),
        forall|other: int| other != id ==> #[trigger] after.get(other) == table.get(other),
        after.rows.dom() == table.rows.dom(),
{
    lemma_update(table, id, payload, changed, after);
}

/// Whether the creations with `payloads`, served one after the other in
/// this order, each ran to its end and took the table from `tables[i]` to
/// `tables[i + 1]`.
pub open spec fn creations(tables: Seq<Table>, payloads: Seq<ItemView>) -> bool {
    &&& tables.len() == payloads.len() + 1
    &&& forall|i: int|
        0 <= i < payloads.len() ==> (#[trigger] tables[i]).execute(
            create_item_query(payloads[i]),
            Outcome::Done(1),
            tables[i + 1],
        )
}

/// Many creations: the store serves statements one at a time, so creations
/// that come in together are served in some order. Whatever that order,
/// each item gets an id of its own that was free before, the items that
/// were there stay as they were, and a listing grows by exactly the number
/// of creations. The law returns the ids in the order of service.
pub proof fn law_creations_get_distinct_ids(
    tables: Seq<Table>,
    payloads: Seq<ItemView>,
    rows_before: Seq<ItemView>,
    rows_after: Seq<ItemView>,
) -> (ids: Seq<int>)
    requires
        creations(tables, payloads),
        tables.first().well_formed(),
        tables.first().fetch_all(get_items_query(), Outcome::Done(rows_before)),
        tables.last().fetch_all(get_items_query(), Outcome::Done(rows_after)),
    ensures
        ids.len() == payloads.len(),
        ids.no_duplicates(),
        forall|i: int| 0 <= i < ids.len() ==> !tables.first().has(#[trigger] ids[i]),
        forall|i: int|
            0 <= i < ids.len() ==> tables.last().get(#[trigger] ids[i]) == Outcome::Done(
                ItemView { id: ids[i], name: payloads[i].name },
            ),
        forall|id: int|
            tables.first().has(id) ==> #[trigger] tables.last().get(id) == tables.first().get(id),
        rows_after.len() == rows_before.len() + payloads.len(),
{
    let ids = lemma_creations(tables, payloads);
    law_listing_is_complete(tables.first(), rows_before);
    law_listing_is_complete(tables.last(), rows_after);
    ids
}

/// The induction behind [`law_creations_get_distinct_ids`], over the number
/// of creations.
proof fn lemma_creations(tables: Seq<Table>, payloads: Seq<ItemView>) -> (ids: Seq<int>)
    requires
        creations(tables, payloads),
        tables.first().well_formed(),
    ensures
        tables.last().well_formed(),
        ids.len() == payloads.len(),
        ids.no_duplicates(),
        forall|i: int| 0 <= i < ids.len() ==> !tables.first().has(#[trigger] ids[i]),
        forall|i: int|
            0 <= i < ids.len() ==> tables.last().get(#[trigger] ids[i]) == Outcome::Done(
                ItemView { id: ids[i], name: payloads[i].name },
            ),
        forall|id: int|
            tables.first().has(id) ==> #[trigger] tables.last().get(id) == tables.first().get(id),
        tables.last().count() == tables.first().count() + payloads.len(),
    decreases payloads.len(),
{
    if payloads.len() == 0 {
        Seq::empty()
    } else {
        let served = payloads.len() - 1;
        let earlier_tables = tables.drop_last();
        let earlier_payloads = payloads.drop_last();
        assert(creations(earlier_tables, earlier_payloads)) by {
            assert forall|i: int| 0 <= i < earlier_payloads.len() implies (
            #[trigger] earlier_tables[i]).execute(
                create_item_query(earlier_payloads[i]),
                Outcome::Done(1),
                earlier_tables[i + 1],
            ) by {
                assert(tables[i].execute(
                    create_item_query(payloads[i]),
                    Outcome::Done(1),
                    tables[i + 1],
                ));
            }
        }
        let earlier_ids = lemma_creations(earlier_tables, earlier_payloads);
        let before = tables[served];
        let after = tables[served + 1];
        lemma_creation(before, payloads[served], 1, after);
        let id = choose|id: int| before.creates_at(id, payloads[served].name, after);
        let ids = earlier_ids.push(id);
        // The id was free just before its creation. The earlier creations
        // kept every old row, so it was free at first too.
        assert(!tables.first().has(id)) by {
            assert(before.get(id) == Outcome::<ItemView>::NotFound);
        }
        // The later creation kept every earlier row.
        assert forall|other: int| tables.first().has(other) implies #[trigger] tables.last().get(
            other,
        ) == tables.first().get(other) by {
            assert(before.get(other) == tables.first().get(other));
        }
        ids
    }
}

/// Two statuses per operation: whatever the store hands back, a request is
/// answered with the operation's status of success when its statement ran
/// to the end, and with its status of failure when it did not. A failure
/// carries no body, and neither does a write.
pub proof fn law_failures_are_bare(
    rows: Outcome<Seq<ItemView>>,
    row: Outcome<ItemView>,
    changed: Outcome<u64>,
)
    ensures
        get_items_response(rows).status == Endpoint::GetItems.status(rows is Done),
        get_item_by_id_response(row).status == Endpoint::GetItemById.status(row is Done),
        create_item_response(changed).status == Endpoint::CreateItem.status(changed is Done),
        update_item_response(changed).status == Endpoint::UpdateItem.status(changed is Done),
        delete_item_response(changed).status == Endpoint::DeleteItem.status(changed is Done),
        !(rows is Done) ==> get_items_response(rows).body == BodyView::Empty,
        !(row is Done) ==> get_item_by_id_response(row).body == BodyView::Empty,
        create_item_response(changed).body == BodyView::Empty,
        update_item_response(changed).body == BodyView::Empty,
        delete_item_response(changed).body == BodyView::Empty,
{
}

/// A status tells success from failure: each operation's status of success
/// lies in 200..300, and its status of failure does not.
pub proof fn law_statuses_tell_success(endpoint: Endpoint)
    ensures
        endpoint.success().is_success(),
        !endpoint.failure().is_success(),
{
}

} // verus!

use item_service::handlers::{
    create_item, create_item_statement, create_table_statement, delete_item,
    delete_item_statement, get_item_by_id, get_item_by_id_statement, get_items,
    get_items_statement, update_item, update_item_statement,
};
use item_service::item::Item;
use item_service::response::{Body, Response, Status};
use item_service::statement::{Bind, Statement};
use item_service::store::StoreOutcome;
use sqlx::sqlite::{SqliteArguments, SqlitePool, SqliteRow};
use sqlx::query::Query;
use sqlx::{Row, Sqlite};

fn runtime() -> tokio::runtime::Runtime {
    tokio::runtime::Builder::new_current_thread().enable_all().build().unwrap()
}

fn bound(statement: &Statement) -> Query<'_, Sqlite, SqliteArguments<'_>> {
    let mut query = sqlx::query(statement.sql);
    for bind in &statement.binds {
        query = match bind {
            Bind::Int(value) => query.bind(*value),
            Bind::Text(value) => query.bind(value.as_str()),
        };
    }
    query
}

fn outcome<T>(result: Result<T, sqlx::Error>) -> StoreOutcome<T> {
    match result {
        Ok(value) => StoreOutcome::Done(value),
        Err(sqlx::Error::RowNotFound) => StoreOutcome::NotFound,
        Err(other) => StoreOutcome::StoreError(other.to_string()),
    }
}

fn record(row: &SqliteRow) -> Result<Item, sqlx::Error> {
    Ok(Item::new(row.try_get("id")?, row.try_get("name")?))
}

async fn fetch_all(pool: &SqlitePool, statement: &Statement) -> StoreOutcome<Vec<Item>> {
    let rows = bound(statement).fetch_all(pool).await;
    outcome(rows.and_then(|rows| rows.iter().map(record).collect()))
}

async fn fetch_one(pool: &SqlitePool, statement: &Statement) -> StoreOutcome<Item> {
    let row = bound(statement).fetch_one(pool).await;
    outcome(row.and_then(|row| record(&row)))
}

async fn execute(pool: &SqlitePool, statement: &Statement) -> StoreOutcome<u64> {
    outcome(bound(statement).execute(pool).await.map(|done| done.rows_affected()))
}

async fn open() -> SqlitePool {
    let pool = SqlitePool::connect("sqlite::memory:").await.unwrap();
    assert_eq!(execute(&pool, &create_table_statement()).await, StoreOutcome::Done(0));
    pool
}

async fn list(pool: &SqlitePool) -> Response {
    get_items(fetch_all(pool, &get_items_statement()).await)
}

async fn get(pool: &SqlitePool, id: i32) -> Response {
    get_item_by_id(fetch_one(pool, &get_item_by_id_statement(id)).await)
}

async fn create(pool: &SqlitePool, name: &str) -> Response {
    let payload = Item::new(0, name.to_string());
    create_item(execute(pool, &create_item_statement(&payload)).await)
}

async fn update(pool: &SqlitePool, id: i32, name: &str) -> Response {
    let payload = Item::new(0, name.to_string());
    update_item(execute(pool, &update_item_statement(id, &payload)).await)
}

async fn delete(pool: &SqlitePool, id: i32) -> Response {
    delete_item(execute(pool, &delete_item_statement(id)).await)
}

fn listed(response: Response) -> Vec<Item> {
    assert_eq!(response.status, Status::Okay);
    match response.body {
        Body::Many(items) => items,
        other => panic!("a listing carries a list, not {:?}", other),
    }
}

fn named(items: &[Item], name: &str) -> Vec<Item> {
    items.iter().filter(|item| item.name == name).cloned().collect()
}

#[test]
fn table_can_be_made_twice() {
    runtime().block_on(async {
        let pool = open().await;
        assert_eq!(create(&pool, "kept").await.status, Status::Created);
        assert_eq!(execute(&pool, &create_table_statement()).await, StoreOutcome::Done(0));
        assert_eq!(named(&listed(list(&pool).await), "kept").len(), 1);
    });
}

#[test]
fn fresh_table_lists_nothing() {
    runtime().block_on(async {
        let pool = open().await;
        let response = list(&pool).await;
        assert_eq!(response, Response { status: Status::Okay, body: Body::Many(Vec::new()) });
    });
}

#[test]
fn round_trip_lists_the_created_item_once() {
    runtime().block_on(async {
        let pool = open().await;
        assert_eq!(create(&pool, "other").await, Response::empty(Status::Created));
        assert_eq!(create(&pool, "N").await, Response::empty(Status::Created));
        let items = listed(list(&pool).await);
        assert_eq!(items.len(), 2);
        assert_eq!(named(&items, "N").len(), 1);
        assert_ne!(items[0].id, items[1].id);
    });
}

#[test]
fn round_trip_with_a_name_already_there_lists_it_twice() {
    runtime().block_on(async {
        let pool = open().await;
        assert_eq!(create(&pool, "N").await.status, Status::Created);
        assert_eq!(create(&pool, "N").await.status, Status::Created);
        let twins = named(&listed(list(&pool).await), "N");
        assert_eq!(twins.len(), 2);
        assert_ne!(twins[0].id, twins[1].id);
    });
}

#[test]
fn get_after_create_finds_the_item() {
    runtime().block_on(async {
        let pool = open().await;
        assert_eq!(create(&pool, "N").await.status, Status::Created);
        let made = named(&listed(list(&pool).await), "N").remove(0);
        let response = get(&pool, made.id).await;
        assert_eq!(response.status.code(), 200);
        assert_eq!(response.body, Body::One(Item::new(made.id, "N".to_string())));
    });
}

#[test]
fn get_of_an_id_never_created_is_404() {
    runtime().block_on(async {
        let pool = open().await;
        assert_eq!(create(&pool, "a").await.status, Status::Created);
        let response = get(&pool, -1).await;
        assert_eq!(response, Response::empty(Status::NotFound));
        assert_eq!(response.status.code(), 404);
    });
}

#[test]
fn missing_row_reaches_the_handler_as_not_found() {
    runtime().block_on(async {
        let pool = open().await;
        let row = fetch_one(&pool, &get_item_by_id_statement(-1)).await;
        assert_eq!(row, StoreOutcome::NotFound);
    });
}

#[test]
fn update_of_a_missing_id_is_204_and_adds_no_row() {
    runtime().block_on(async {
        let pool = open().await;
        assert_eq!(create(&pool, "a").await.status, Status::Created);
        let before = listed(list(&pool).await);
        let payload = Item::new(0, "ghost".to_string());
        let changed = execute(&pool, &update_item_statement(999999, &payload)).await;
        assert_eq!(changed, StoreOutcome::Done(0));
        let response = update_item(changed);
        assert_eq!(response, Response::empty(Status::NoContent));
        assert_eq!(response.status.code(), 204);
        let after = listed(list(&pool).await);
        assert_eq!(after.len(), before.len());
        assert_eq!(after, before);
    });
}

#[test]
fn delete_of_a_missing_id_is_204_and_removes_no_row() {
    runtime().block_on(async {
        let pool = open().await;
        assert_eq!(create(&pool, "a").await.status, Status::Created);
        let before = listed(list(&pool).await);
        let changed = execute(&pool, &delete_item_statement(999999)).await;
        assert_eq!(changed, StoreOutcome::Done(0));
        let response = delete_item(changed);
        assert_eq!(response, Response::empty(Status::NoContent));
        assert_eq!(response.status.code(), 204);
        let after = listed(list(&pool).await);
        assert_eq!(after.len(), before.len());
        assert_eq!(after, before);
    });
}

#[test]
fn delete_then_get_is_404() {
    runtime().block_on(async {
        let pool = open().await;
        assert_eq!(create(&pool, "gone").await.status, Status::Created);
        let made = named(&listed(list(&pool).await), "gone").remove(0);
        assert_eq!(get(&pool, made.id).await.status, Status::Okay);
        assert_eq!(delete(&pool, made.id).await, Response::empty(Status::NoContent));
        assert_eq!(get(&pool, made.id).await, Response::empty(Status::NotFound));
        assert!(listed(list(&pool).await).is_empty());
    });
}

#[test]
fn update_mutates_exactly_its_target() {
    runtime().block_on(async {
        let pool = open().await;
        assert_eq!(create(&pool, "a").await.status, Status::Created);
        assert_eq!(create(&pool, "b").await.status, Status::Created);
        let items = listed(list(&pool).await);
        let a = named(&items, "a").remove(0);
        let b = named(&items, "b").remove(0);
        let payload = Item::new(b.id, "z".to_string());
        let changed = execute(&pool, &update_item_statement(a.id, &payload)).await;
        assert_eq!(changed, StoreOutcome::Done(1));
        assert_eq!(update_item(changed), Response::empty(Status::NoContent));
        assert_eq!(get(&pool, a.id).await.body, Body::One(Item::new(a.id, "z".to_string())));
        assert_eq!(get(&pool, b.id).await.body, Body::One(b));
        assert_eq!(listed(list(&pool).await).len(), 2);
    });
}

#[test]
fn create_ignores_the_payload_id() {
    runtime().block_on(async {
        let pool = open().await;
        let first = Item::new(5, "one".to_string());
        let second = Item::new(5, "two".to_string());
        assert_eq!(execute(&pool, &create_item_statement(&first)).await, StoreOutcome::Done(1));
        assert_eq!(execute(&pool, &create_item_statement(&second)).await, StoreOutcome::Done(1));
        let items = listed(list(&pool).await);
        assert_eq!(items.len(), 2);
        assert_ne!(items[0].id, items[1].id);
    });
}

#[test]
fn name_is_stored_as_text_whatever_it_holds() {
    runtime().block_on(async {
        let pool = open().await;
        let odd = "a'; DROP TABLE items; -- ?";
        assert_eq!(create(&pool, odd).await.status, Status::Created);
        assert_eq!(create(&pool, "").await.status, Status::Created);
        let items = listed(list(&pool).await);
        assert_eq!(items.len(), 2);
        assert_eq!(named(&items, odd).len(), 1);
        assert_eq!(named(&items, "").len(), 1);
    });
}

#[test]
fn concurrent_creates_get_distinct_ids() {
    runtime().block_on(async {
        let pool = open().await;
        assert_eq!(create(&pool, "before").await.status, Status::Created);
        let before = listed(list(&pool).await).len();
        let count: usize = 16;
        let mut tasks = Vec::new();
        for turn in 0..count {
            let pool = pool.clone();
            tasks.push(tokio::spawn(async move {
                create(&pool, &format!("item-{}", turn)).await
            }));
        }
        for task in tasks {
            assert_eq!(task.await.unwrap(), Response::empty(Status::Created));
        }
        let items = listed(list(&pool).await);
        assert_eq!(items.len(), before + count);
        let mut ids: Vec<i32> = items.iter().map(|item| item.id).collect();
        ids.sort();
        ids.dedup();
        assert_eq!(ids.len(), before + count);
        for turn in 0..count {
            assert_eq!(named(&items, &format!("item-{}", turn)).len(), 1);
        }
    });
}

#[test]
fn store_failure_on_a_write_is_500() {
    runtime().block_on(async {
        let pool = SqlitePool::connect("sqlite::memory:").await.unwrap();
        let response = create(&pool, "no table yet").await;
        assert_eq!(response, Response::empty(Status::InternalServerError));
        assert_eq!(response.status.code(), 500);
        assert_eq!(update(&pool, 1, "x").await.status.code(), 500);
        assert_eq!(delete(&pool, 1).await.status.code(), 500);
    });
}

#[test]
fn store_failure_on_a_listing_is_500() {
    runtime().block_on(async {
        let pool = SqlitePool::connect("sqlite::memory:").await.unwrap();
        assert_eq!(list(&pool).await, Response::empty(Status::InternalServerError));
    });
}

#[test]
fn store_failure_on_a_read_of_one_item_is_404() {
    runtime().block_on(async {
        let pool = SqlitePool::connect("sqlite::memory:").await.unwrap();
        let row = fetch_one(&pool, &get_item_by_id_statement(1)).await;
        assert!(matches!(row, StoreOutcome::StoreError(_)));
        assert_eq!(get_item_by_id(row), Response::empty(Status::NotFound));
    });
}

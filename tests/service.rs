use posts_api::guard::SharedStore;
use posts_api::handlers::{
    create_response, delete_post, delete_response, list_posts, list_response, Response,
    ResponseBody,
};
use posts_api::post::{NewPost, Post};
use posts_api::store::{
    create_table_statement, delete_statement, insert_statement, posts_from_rows,
    select_all_statement, PostStore, SqlArg, StoreError, CREATE_TABLE_SQL, DELETE_SQL, INSERT_SQL,
    SELECT_ALL_SQL,
};
use rusqlite::Connection;

fn fresh_store() -> PostStore {
    let mut store = PostStore::new(Connection::open_in_memory().unwrap());
    store.initialize().unwrap();
    store
}

fn store_without_table() -> PostStore {
    PostStore::new(Connection::open_in_memory().unwrap())
}

fn new_post(title: &str, body: &str) -> NewPost {
    NewPost { title: title.to_string(), body: body.to_string() }
}

fn listed(r: &Response) -> Vec<(i64, String, String)> {
    assert_eq!(r.status, 200);
    match &r.body {
        ResponseBody::Posts(posts) => {
            posts.iter().map(|p| (p.id, p.title.clone(), p.body.clone())).collect()
        }
        other => panic!("expected posts, got {:?}", other),
    }
}

fn assert_empty(r: &Response, status: u16) {
    assert_eq!(r.status, status);
    assert!(matches!(r.body, ResponseBody::Empty));
}

fn assert_text(r: &Response, status: u16, text: &str) {
    assert_eq!(r.status, status);
    match &r.body {
        ResponseBody::Text(t) => assert_eq!(t, text),
        other => panic!("expected text, got {:?}", other),
    }
}

#[test]
fn end_to_end_scenario() {
    let shared = SharedStore::new(fresh_store());
    assert!(listed(&shared.list_posts()).is_empty());
    assert_empty(&shared.add_post(&new_post("A", "B")), 201);
    assert_eq!(listed(&shared.list_posts()), vec![(1, "A".to_string(), "B".to_string())]);
    assert_empty(&shared.delete_post(1), 200);
    assert!(listed(&shared.list_posts()).is_empty());
    assert_text(&shared.delete_post(1), 404, "Post not found");
}

#[test]
fn create_then_list_has_one_new_record() {
    let mut store = fresh_store();
    store.insert(&new_post("first", "one")).unwrap();
    let before = listed(&list_posts(&mut store));
    let created = store.insert(&new_post("second", "two")).unwrap();
    assert_eq!(created.title, "second");
    assert_eq!(created.body, "two");
    let after = listed(&list_posts(&mut store));
    assert_eq!(after.len(), before.len() + 1);
    let fresh: Vec<_> = after.iter().filter(|row| !before.contains(row)).collect();
    assert_eq!(fresh, vec![&(created.id, "second".to_string(), "two".to_string())]);
    assert!(before.iter().all(|row| row.0 != created.id));
}

#[test]
fn delete_of_absent_id_is_not_found_and_changes_nothing() {
    let mut store = fresh_store();
    store.insert(&new_post("a", "b")).unwrap();
    let before = listed(&list_posts(&mut store));
    assert_text(&delete_post(&mut store, 99), 404, "Post not found");
    assert_text(&delete_post(&mut store, -1), 404, "Post not found");
    assert_eq!(listed(&list_posts(&mut store)), before);
}

#[test]
fn delete_of_present_id_removes_exactly_it() {
    let mut store = fresh_store();
    let a = store.insert(&new_post("a", "1")).unwrap();
    let b = store.insert(&new_post("b", "2")).unwrap();
    assert_eq!(store.delete_by_id(a.id).unwrap(), 1);
    let after = listed(&list_posts(&mut store));
    assert_eq!(after, vec![(b.id, "b".to_string(), "2".to_string())]);
    assert_empty(&delete_post(&mut store, b.id), 200);
    assert!(listed(&list_posts(&mut store)).is_empty());
}

#[test]
fn second_delete_of_same_id_is_not_found() {
    let mut store = fresh_store();
    let p = store.insert(&new_post("t", "b")).unwrap();
    assert_empty(&delete_post(&mut store, p.id), 200);
    assert_text(&delete_post(&mut store, p.id), 404, "Post not found");
}

#[test]
fn creates_get_distinct_ids() {
    let shared = SharedStore::new(fresh_store());
    for i in 0..20 {
        assert_empty(&shared.add_post(&new_post(&format!("t{}", i), "b")), 201);
    }
    let mut ids: Vec<i64> = listed(&shared.list_posts()).iter().map(|row| row.0).collect();
    assert_eq!(ids.len(), 20);
    ids.sort();
    ids.dedup();
    assert_eq!(ids.len(), 20);
}

#[test]
fn ids_are_not_reused_after_delete() {
    let mut store = fresh_store();
    let a = store.insert(&new_post("a", "a")).unwrap();
    let b = store.insert(&new_post("b", "b")).unwrap();
    store.delete_by_id(b.id).unwrap();
    let c = store.insert(&new_post("c", "c")).unwrap();
    assert_eq!((a.id, b.id, c.id), (1, 2, 3));
}

#[test]
fn empty_title_and_body_are_accepted() {
    let mut store = fresh_store();
    assert_empty(&posts_api::handlers::add_post(&mut store, &new_post("", "")), 201);
    assert_eq!(listed(&list_posts(&mut store)), vec![(1, String::new(), String::new())]);
}

#[test]
fn initialize_twice_keeps_the_posts() {
    let mut store = fresh_store();
    store.insert(&new_post("kept", "x")).unwrap();
    store.initialize().unwrap();
    assert_eq!(listed(&list_posts(&mut store)), vec![(1, "kept".to_string(), "x".to_string())]);
}

#[test]
fn list_on_a_store_without_table_is_a_storage_failure() {
    let mut store = store_without_table();
    assert!(store.list_all().is_err());
    let r = list_posts(&mut store);
    assert_eq!(r.status, 500);
    match &r.body {
        ResponseBody::Text(t) => assert!(t.contains("no such table")),
        other => panic!("expected text, got {:?}", other),
    }
}

#[test]
fn create_on_a_store_without_table_is_a_storage_failure() {
    let mut store = store_without_table();
    let r = posts_api::handlers::add_post(&mut store, &new_post("a", "b"));
    assert_eq!(r.status, 500);
    assert!(matches!(r.body, ResponseBody::Text(_)));
}

#[test]
fn delete_on_a_store_without_table_is_a_storage_failure() {
    let mut store = store_without_table();
    let message = store.delete_by_id(1).unwrap_err().message;
    assert!(message.contains("no such table"));
    assert_text(&delete_post(&mut store, 1), 500, &message);
}

#[test]
fn delete_response_maps_each_outcome() {
    assert_empty(&delete_response(Ok(1)), 200);
    assert_empty(&delete_response(Ok(3)), 200);
    assert_text(&delete_response(Ok(0)), 404, "Post not found");
    let e = StoreError { message: "disk I/O error".to_string() };
    assert_text(&delete_response(Err(e)), 500, "disk I/O error");
}

#[test]
fn list_and_create_responses_map_each_outcome() {
    let post = Post { id: 7, title: "x".to_string(), body: "y".to_string() };
    let r = list_response(Ok(vec![post.clone()]));
    assert_eq!(listed(&r), vec![(7, "x".to_string(), "y".to_string())]);
    assert_empty(&create_response(Ok(post)), 201);
    let e = StoreError { message: "database is locked".to_string() };
    assert_text(&list_response(Err(e.clone())), 500, "database is locked");
    assert_text(&create_response(Err(e)), 500, "database is locked");
}

#[test]
fn rows_become_posts_in_order() {
    let rows = vec![
        (4, "d".to_string(), "dd".to_string()),
        (2, "b".to_string(), "bb".to_string()),
    ];
    let posts = posts_from_rows(&rows);
    assert_eq!(posts.len(), 2);
    assert_eq!((posts[0].id, posts[0].title.as_str(), posts[0].body.as_str()), (4, "d", "dd"));
    assert_eq!((posts[1].id, posts[1].title.as_str(), posts[1].body.as_str()), (2, "b", "bb"));
    assert!(posts_from_rows(&Vec::new()).is_empty());
}

#[test]
fn post_from_new_keeps_title_and_body() {
    let p = Post::from_new(5, &new_post("hello", "world"));
    assert_eq!((p.id, p.title.as_str(), p.body.as_str()), (5, "hello", "world"));
}

#[test]
fn insert_statement_binds_title_then_body() {
    let stmt = insert_statement(&new_post("the title", "the body"));
    assert_eq!(stmt.sql, INSERT_SQL);
    assert_eq!(stmt.args.len(), 2);
    assert!(matches!(&stmt.args[0], SqlArg::Text(t) if t == "the title"));
    assert!(matches!(&stmt.args[1], SqlArg::Text(b) if b == "the body"));
}

#[test]
fn delete_statement_binds_the_id() {
    let stmt = delete_statement(42);
    assert_eq!(stmt.sql, DELETE_SQL);
    assert_eq!(stmt.args.len(), 1);
    assert!(matches!(stmt.args[0], SqlArg::Integer(42)));
}

#[test]
fn table_and_select_statements_take_no_arguments() {
    let create = create_table_statement();
    assert_eq!(create.sql, CREATE_TABLE_SQL);
    assert!(create.args.is_empty());
    let select = select_all_statement();
    assert_eq!(select.sql, SELECT_ALL_SQL);
    assert!(select.args.is_empty());
}

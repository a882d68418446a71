use crate::post::{NewPost, Post};
use crate::store::{appended, is_delete_of, is_insert_of, is_select_all, PostStore, StoreError};
use vstd::prelude::*;

verus! {

/// HTTP status: the request succeeded.
pub const STATUS_OK: u16 = 200;

/// HTTP status: a post was created.
pub const STATUS_CREATED: u16 = 201;

/// HTTP status: no post has the requested id.
pub const STATUS_NOT_FOUND: u16 = 404;

/// HTTP status: the store failed to run a statement.
pub const STATUS_INTERNAL_ERROR: u16 = 500;

/// What a response carries after its status line.
#[derive(Debug)]
pub enum ResponseBody {
    /// No body at all.
    Empty,
    /// A plain-text message.
    Text(String),
    /// A list of posts, sent as a JSON array.
    Posts(Vec<Post>),
}

/// The status and body that an operation answers with.
#[derive(Debug)]
pub struct Response {
    pub status: u16,
    pub body: ResponseBody,
}

/// The text of the body that a delete of an unknown id answers with.
pub open spec fn not_found_text() -> Seq<char> {
    "Post not found"@
}

/// The answer to a failed statement: status 500 and the error's own text.
pub open spec fn is_storage_failure(e: StoreError, r: Response) -> bool {
    r.status == STATUS_INTERNAL_ERROR && r.body == ResponseBody::Text(e.message)
}

/// `r` is how the outcome `result` of reading every post is answered.
pub open spec fn is_list_response(result: Result<Vec<Post>, StoreError>, r: Response) -> bool {
    match result {
        Ok(posts) => r.status == STATUS_OK && r.body == ResponseBody::Posts(posts),
        Err(e) => is_storage_failure(e, r),
    }
}

/// `r` is how the outcome `result` of storing a post is answered.
pub open spec fn is_create_response(result: Result<Post, StoreError>, r: Response) -> bool {
    match result {
        Ok(_) => r.status == STATUS_CREATED && r.body == ResponseBody::Empty,
        Err(e) => is_storage_failure(e, r),
    }
}

/// `r` is how the outcome `result` of deleting by id is answered, where on
/// success `result` holds the number of posts removed.
pub open spec fn is_delete_response(result: Result<usize, StoreError>, r: Response) -> bool {
    match result {
        Ok(n) => if n > 0 {
            r.status == STATUS_OK && r.body == ResponseBody::Empty
        } else {
            &&& r.status == STATUS_NOT_FOUND
            &&& r.body matches ResponseBody::Text(t)
            &&& t@ == not_found_text()
        },
        Err(e) => is_storage_failure(e, r),
    }
}

/// A delete is answered by the number of posts it removed, never by
/// anything else: 404 exactly when it removed none, 200 exactly when it
/// removed some, and 500 exactly when the statement failed.
pub proof fn delete_status_follows_count(result: Result<usize, StoreError>, r: Response)
    requires
        is_delete_response(result, r),
    ensures
        r.status == STATUS_NOT_FOUND <==> result == Ok::<usize, StoreError>(0),
        r.status == STATUS_OK <==> (result matches Ok(n) && n > 0),
        r.status == STATUS_INTERNAL_ERROR <==> result is Err,
{
}

fn storage_failure(e: StoreError) -> (r: Response)
    ensures
        is_storage_failure(e, r),
{
    Response { status: STATUS_INTERNAL_ERROR, body: ResponseBody::Text(e.message) }
}

/// Answers a read of every post: 200 with the posts, or 500 with the
/// store's error text.
pub fn list_response(result: Result<Vec<Post>, StoreError>) -> (r: Response)
    ensures
        is_list_response(result, r),
{
    match result {
        Ok(posts) => Response { status: STATUS_OK, body: ResponseBody::Posts(posts) },
        Err(e) => storage_failure(e),
    }
}

/// Answers the storing of a post: 201 with no body (the new id is not sent
/// back), or 500 with the store's error text.
pub fn create_response(result: Result<Post, StoreError>) -> (r: Response)
    ensures
        is_create_response(result, r),
{
    match result {
        Ok(_) => Response { status: STATUS_CREATED, body: ResponseBody::Empty },
        Err(e) => storage_failure(e),
    }
}

/// Answers a delete by id: 200 with no body where a post was removed, 404
/// with "Post not found" where none was, and 500 with the store's error text
/// where the statement failed.
pub fn delete_response(result: Result<usize, StoreError>) -> (r: Response)
    ensures
        is_delete_response(result, r),
{
    match result {
        Ok(n) => if n > 0 {
            Response { status: STATUS_OK, body: ResponseBody::Empty }
        } else {
            Response { status: STATUS_NOT_FOUND, body: ResponseBody::Text("Post not found".to_owned()) }
        },
        Err(e) => storage_failure(e),
    }
}

/// `GET /posts`: reads every post and answers with them.
pub fn list_posts(store: &mut PostStore) -> (r: Response)
    ensures
        appended(old(store).sent(), final(store).sent()),
        is_select_all(final(store).sent().last()),
        exists|result: Result<Vec<Post>, StoreError>| #[trigger] is_list_response(result, r),
{
    let result = store.list_all();
    let r = list_response(result);
    r
}

/// `POST /posts`: stores the title and body of `new_post` and answers 201,
/// or 500 where the store failed.
pub fn add_post(store: &mut PostStore, new_post: &NewPost) -> (r: Response)
    ensures
        appended(old(store).sent(), final(store).sent()),
        is_insert_of(final(store).sent().last(), *new_post),
        exists|result: Result<Post, StoreError>|
            {
                &&& #[trigger] is_create_response(result, r)
                &&& result matches Ok(p) ==> p.title@ == new_post.title@ && p.body@ == new_post.body@
            },
{
    let result = store.insert(new_post);
    let r = create_response(result);
    r
}

/// `DELETE /posts/{id}`: removes the post with that id, answering 200 where
/// one was removed, 404 where there was none and 500 where the store failed.
pub fn delete_post(store: &mut PostStore, id: i64) -> (r: Response)
    ensures
        appended(old(store).sent(), final(store).sent()),
        is_delete_of(final(store).sent().last(), id),
        exists|result: Result<usize, StoreError>| #[trigger] is_delete_response(result, r),
{
    let result = store.delete_by_id(id);
    let r = delete_response(result);
    r
}

} // verus!

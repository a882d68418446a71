use crate::handlers::{
    add_post, delete_post, is_create_response, is_delete_response, is_list_response, list_posts,
    Response,
};
use crate::post::{NewPost, Post};
use crate::store::{PostStore, StoreError};
use vstd::prelude::*;

verus! {

#[verifier::external_type_specification]
#[verifier::external_body]
#[verifier::reject_recursive_types(T)]
pub struct ExMutex<T: ?Sized>(std::sync::Mutex<T>);

#[verifier::external_type_specification]
#[verifier::external_body]
#[verifier::reject_recursive_types(T)]
pub struct ExMutexGuard<'a, T: ?Sized + 'a>(std::sync::MutexGuard<'a, T>);

/// Relies on std's `Mutex::new`: a lock, not held, around `store`.
#[verifier::external_body]
fn new_lock(store: PostStore) -> (r: std::sync::Mutex<PostStore>) {
    std::sync::Mutex::new(store)
}

/// Relies on std's `Mutex::lock`: blocks until no other thread holds the
/// lock, then holds it until the guard is dropped. A lock that a panicking
/// holder poisoned is taken all the same: each holder runs one statement,
/// which SQLite either completes or rolls back on its own.
#[verifier::external_body]
fn acquire(lock: &std::sync::Mutex<PostStore>) -> (r: std::sync::MutexGuard<'_, PostStore>) {
    lock.lock().unwrap_or_else(std::sync::PoisonError::into_inner)
}

/// Relies on `MutexGuard`'s `DerefMut`: the value that the held lock
/// protects, for the holder alone to use.
#[verifier::external_body]
fn guarded<'a>(guard: &'a mut std::sync::MutexGuard<'_, PostStore>) -> (r: &'a mut PostStore) {
    &mut **guard
}

/// The storage gateway behind a lock, to be shared by concurrent requests.
/// Each operation takes the lock, runs its one statement and answers; the
/// lock is let go when the operation returns, whatever its outcome. No two
/// statements ever run on the connection at once, reads included.
pub struct SharedStore {
    lock: std::sync::Mutex<PostStore>,
}

impl SharedStore {
    /// Puts `store` behind a lock of its own.
    pub fn new(store: PostStore) -> (r: SharedStore) {
        SharedStore { lock: new_lock(store) }
    }

    /// `GET /posts`, with the lock held: 200 with every post, or 500.
    pub fn list_posts(&self) -> (r: Response)
        ensures
            exists|result: Result<Vec<Post>, StoreError>| #[trigger] is_list_response(result, r),
    {
        let mut held = acquire(&self.lock);
        let r = list_posts(guarded(&mut held));
        r
    }

    /// `POST /posts`, with the lock held: 201, or 500.
    pub fn add_post(&self, new_post: &NewPost) -> (r: Response)
        ensures
            exists|result: Result<Post, StoreError>|
                {
                    &&& #[trigger] is_create_response(result, r)
                    &&& result matches Ok(p) ==> p.title@ == new_post.title@ && p.body@
                        == new_post.body@
                },
    {
        let mut held = acquire(&self.lock);
        let r = add_post(guarded(&mut held), new_post);
        r
    }

    /// `DELETE /posts/{id}`, with the lock held: 200, 404 or 500.
    pub fn delete_post(&self, id: i64) -> (r: Response)
        ensures
            exists|result: Result<usize, StoreError>| #[trigger] is_delete_response(result, r),
    {
        let mut held = acquire(&self.lock);
        let r = delete_post(guarded(&mut held), id);
        r
    }
}

} // verus!

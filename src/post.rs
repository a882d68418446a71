use vstd::prelude::*;

verus! {

/// One stored post. `id` is assigned by the store when the post is created.
#[derive(Clone, Debug)]
pub struct Post {
    pub id: i64,
    pub title: String,
    pub body: String,
}

/// The fields a client sends to create a post.
#[derive(Clone, Debug)]
pub struct NewPost {
    pub title: String,
    pub body: String,
}

impl Post {
    /// The post with the given id and the title and body of `new_post`.
    pub fn from_new(id: i64, new_post: &NewPost) -> (r: Post)
        ensures
            r.id == id,
            r.title@ == new_post.title@,
            r.body@ == new_post.body@,
    {
        Post { id, title: new_post.title.clone(), body: new_post.body.clone() }
    }
}

} // verus!

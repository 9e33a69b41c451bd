//! Posts as clients send them and as the database holds them, and the
//! rules of threads: which thread a post belongs to and when it is full.
use vstd::prelude::*;
use crate::utils::get_unix_timestamp_ms;

verus! {

/// How many posts a thread takes before it is locked.
pub const MAX_POSTS_IN_THREAD: i64 = 50;

/// A post as a client sends it.
pub struct PostRequest {
    pub subject: Option<String>,
    pub body: Option<String>,
    pub board_id: i32,
}

/// A post as stored.
pub struct Post {
    pub id: i32,
    pub is_oppost: bool,
    pub subject: Option<String>,
    pub body: Option<String>,
    pub created_at: i64,
    pub board_id: i32,
    pub oppost_id: Option<i32>,
    pub is_locked: bool,
}

/// The values that creating a post inserts.
pub struct NewPost {
    pub is_oppost: bool,
    pub subject: String,
    pub body: String,
    pub created_at: i64,
    pub board_id: i32,
    pub oppost_id: Option<i32>,
}

/// The thread a post belongs to: its own id for an opening post, else the
/// id of the opening post it answers.
pub open spec fn thread_of(p: Post) -> Option<i32> {
    if p.is_oppost {
        Some(p.id)
    } else {
        p.oppost_id
    }
}

/// `new` is `old` placed in the thread `oppost_id`.
pub open spec fn placed_in_thread(old: Post, new: Post, oppost_id: Option<i32>) -> bool {
    &&& new.id == old.id
    &&& new.is_oppost == old.is_oppost
    &&& new.subject == old.subject
    &&& new.body == old.body
    &&& new.created_at == old.created_at
    &&& new.board_id == old.board_id
    &&& new.oppost_id == oppost_id
    &&& new.is_locked == old.is_locked
}

/// Every post of `rows` has a subject and a body.
pub open spec fn all_complete(rows: Seq<Post>) -> bool {
    forall|k: int|
        0 <= k < rows.len() ==> (#[trigger] rows[k]).subject is Some && rows[k].body is Some
}

/// The row that creating `post` inserts at time `created_at`: a reply in
/// thread `op` when `oppost_id` is `Some(op)`, else a new opening post.
pub open spec fn new_post_spec(post: PostRequest, oppost_id: Option<i32>, created_at: i64) -> Option<
    NewPost,
> {
    match (post.subject, post.body) {
        (Some(subject), Some(body)) => Some(
            NewPost {
                is_oppost: oppost_id is None,
                subject,
                body,
                created_at,
                board_id: post.board_id,
                oppost_id,
            },
        ),
        _ => None,
    }
}

/// The post that the database holds once `row` was inserted under `id`.
pub open spec fn stored_post(row: NewPost, id: i32) -> Post {
    Post {
        id,
        is_oppost: row.is_oppost,
        subject: Some(row.subject),
        body: Some(row.body),
        created_at: row.created_at,
        board_id: row.board_id,
        oppost_id: row.oppost_id,
        is_locked: false,
    }
}

impl Post {
    /// The thread this post belongs to; `None` for a reply that names no
    /// opening post.
    pub fn thread_id(&self) -> (r: Option<i32>)
        ensures
            r == thread_of(*self),
            self.is_oppost ==> r == Some(self.id),
            !self.is_oppost ==> r == self.oppost_id,
    {
        if self.is_oppost {
            Some(self.id)
        } else {
            self.oppost_id
        }
    }

    /// The posts that a thread or listing query returned, each placed in
    /// the thread `oppost_id`; `None` when one lacks a subject or a body.
    pub fn with_thread(records: &Vec<Post>, oppost_id: Option<i32>) -> (r: Option<Vec<Post>>)
        ensures
            !all_complete(records@) ==> r is None,
            all_complete(records@) ==> (r matches Some(v) && v@.len() == records@.len() && forall|
                k: int,
            |
                0 <= k < v@.len() ==> placed_in_thread(
                    records@[k],
                    #[trigger] v@[k],
                    oppost_id,
                )),
            r matches Some(v) ==> all_complete(records@) && v@.len() == records@.len(),
            r matches Some(v) ==> forall|k: int|
                #![trigger v@[k]]
                0 <= k < v@.len() ==> {
                    &&& v@[k].id == records@[k].id
                    &&& v@[k].is_oppost == records@[k].is_oppost
                    &&& v@[k].subject == records@[k].subject
                    &&& v@[k].body == records@[k].body
                    &&& v@[k].created_at == records@[k].created_at
                    &&& v@[k].board_id == records@[k].board_id
                    &&& v@[k].oppost_id == oppost_id
                    &&& v@[k].is_locked == records@[k].is_locked
                },
    {
        let n = records.len();
        let mut out: Vec<Post> = Vec::new();
        for k in 0..n
            invariant
                n == records.len(),
                out@.len() == k,
                forall|m: int| 0 <= m < k ==> placed_in_thread(records@[m], #[trigger] out@[m], oppost_id),
                forall|m: int| 0 <= m < k ==> (#[trigger] records@[m]).subject is Some && records@[m].body is Some,
        {
            let record = &records[k];
            let body = match &record.body {
                Some(b) => b.clone(),
                None => {
                    return None;
                },
            };
            let subject = match &record.subject {
                Some(s) => s.clone(),
                None => {
                    return None;
                },
            };
            out.push(
                Post {
                    id: record.id,
                    is_oppost: record.is_oppost,
                    body: Some(body),
                    subject: Some(subject),
                    created_at: record.created_at,
                    board_id: record.board_id,
                    oppost_id: oppost_id,
                    is_locked: record.is_locked,
                },
            );
        }
        Some(out)
    }

    /// The row that creating `post` at time `created_at` inserts; `None`
    /// when the request lacks a subject or a body.
    pub fn new_row_at(post: PostRequest, oppost_id: Option<i32>, created_at: i64) -> (r: Option<
        NewPost,
    >)
        ensures
            r == new_post_spec(post, oppost_id, created_at),
            r is Some <==> post.subject is Some && post.body is Some,
            r matches Some(row) ==> {
                &&& row.subject == post.subject->0
                &&& row.body == post.body->0
                &&& row.created_at == created_at
                &&& row.board_id == post.board_id
                &&& row.oppost_id == oppost_id
                &&& row.is_oppost == (oppost_id is None)
            },
    {
        let is_oppost = oppost_id.is_none();
        match (post.subject, post.body) {
            (Some(subject), Some(body)) => Some(
                NewPost {
                    is_oppost,
                    subject,
                    body,
                    created_at,
                    board_id: post.board_id,
                    oppost_id,
                },
            ),
            _ => None,
        }
    }

    /// The row that creating `post` now inserts, stamped with the clock in
    /// milliseconds.
    pub fn new_row(post: PostRequest, oppost_id: Option<i32>) -> (r: Option<NewPost>)
        ensures
            r is Some <==> post.subject is Some && post.body is Some,
            r matches Some(row) ==> exists|t: i64| new_post_spec(post, oppost_id, t) == Some(row),
            r matches Some(row) ==> {
                &&& row.subject == post.subject->0
                &&& row.body == post.body->0
                &&& row.board_id == post.board_id
                &&& row.oppost_id == oppost_id
                &&& row.is_oppost == (oppost_id is None)
            },
    {
        let created_at = get_unix_timestamp_ms();
        let r = Post::new_row_at(post, oppost_id, created_at);
        proof {
            if r is Some {
                assert(new_post_spec(post, oppost_id, created_at) == r);
            }
        }
        r
    }
}

/// Whether a thread with this many posts is full and must be locked.
pub fn thread_is_full(posts_in_thread: i64) -> (b: bool)
    ensures
        b == (posts_in_thread >= MAX_POSTS_IN_THREAD),
{
    posts_in_thread >= MAX_POSTS_IN_THREAD
}

/// The thread to lock when a thread holds `posts_in_thread` posts and the
/// latest post is `post`: its thread once full, else none.
pub open spec fn lock_target(post: Post, posts_in_thread: i64) -> Option<i32> {
    if posts_in_thread >= MAX_POSTS_IN_THREAD {
        thread_of(post)
    } else {
        None
    }
}

/// Which thread to lock after a post: the post's thread when it now holds
/// `posts_in_thread` posts and is full, else none.
pub fn thread_to_lock(post: &Post, posts_in_thread: i64) -> (r: Option<i32>)
    ensures
        r == lock_target(*post, posts_in_thread),
        posts_in_thread < MAX_POSTS_IN_THREAD ==> r is None,
        posts_in_thread >= MAX_POSTS_IN_THREAD && post.is_oppost ==> r == Some(post.id),
        posts_in_thread >= MAX_POSTS_IN_THREAD && !post.is_oppost ==> r == post.oppost_id,
{
    if thread_is_full(posts_in_thread) {
        post.thread_id()
    } else {
        None
    }
}

/// A thread locks at fifty posts and not before: below fifty posts nothing
/// is locked; from fifty on, the thread the post belongs to is (its own id
/// for an opening post, the id it answers for a reply).
pub proof fn lemma_lock_threshold(post: Post, n: i64)
    ensures
        MAX_POSTS_IN_THREAD == 50,
        n < 50 ==> lock_target(post, n) is None,
        n >= 50 && post.is_oppost ==> lock_target(post, n) == Some(post.id),
        n >= 50 && !post.is_oppost ==> lock_target(post, n) == post.oppost_id,
{
}

/// Creating a post keeps what the client sent: the row's subject and body
/// are the request's subject and body, its board is the request's board,
/// it is stamped with the given time, and it is an opening post exactly
/// when no thread is named. A reply and an opening post made from the same
/// request differ only in those two thread fields.
pub proof fn lemma_new_post_keeps_request(
    post: PostRequest,
    op: i32,
    t: i64,
)
    ensures
        new_post_spec(post, Some(op), t) is Some <==> (post.subject is Some && post.body is Some),
        new_post_spec(post, None, t) is Some <==> (post.subject is Some && post.body is Some),
        new_post_spec(post, Some(op), t) matches Some(row) ==> {
            &&& row.subject == post.subject->0
            &&& row.body == post.body->0
            &&& row.created_at == t
            &&& row.board_id == post.board_id
            &&& row.oppost_id == Some(op)
            &&& !row.is_oppost
        },
        new_post_spec(post, None, t) matches Some(row) ==> {
            &&& row.subject == post.subject->0
            &&& row.body == post.body->0
            &&& row.created_at == t
            &&& row.board_id == post.board_id
            &&& row.oppost_id is None
            &&& row.is_oppost
        },
        new_post_spec(post, Some(op), t) is Some ==> {
            &&& new_post_spec(post, Some(op), t)->0.subject == new_post_spec(post, None, t)->0.subject
            &&& new_post_spec(post, Some(op), t)->0.body == new_post_spec(post, None, t)->0.body
        },
{
}

/// Placing a post in a thread changes its thread and nothing else: id,
/// kind, subject, body, time, board and lock flag are the record's.
pub proof fn lemma_placed_keeps_fields(old: Post, new: Post, op: Option<i32>)
    requires
        placed_in_thread(old, new, op),
    ensures
        new.id == old.id,
        new.is_oppost == old.is_oppost,
        new.subject == old.subject,
        new.body == old.body,
        new.created_at == old.created_at,
        new.board_id == old.board_id,
        new.is_locked == old.is_locked,
        new.oppost_id == op,
{
}

/// A post created in thread `op` is counted in thread `op`; an opening post
/// starts the thread of its own id.
pub proof fn lemma_created_post_thread(post: PostRequest, oppost_id: Option<i32>, t: i64, id: i32)
    requires
        new_post_spec(post, oppost_id, t) is Some,
    ensures
        thread_of(stored_post(new_post_spec(post, oppost_id, t)->0, id)) == (match oppost_id {
            Some(op) => Some(op),
            None => Some(id),
        }),
{
}

/// Once a thread is full, every later count still selects it for locking.
pub proof fn lemma_full_thread_stays_selected(post: Post, n: i64, m: i64)
    requires
        n >= MAX_POSTS_IN_THREAD,
        n <= m,
    ensures
        lock_target(post, m) == lock_target(post, n),
        lock_target(post, m) == thread_of(post),
{
}

} // verus!

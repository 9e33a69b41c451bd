use imageboard::boards::model::Board;
use imageboard::posts::model::{thread_is_full, thread_to_lock, Post, PostRequest};

fn board(id: i32, description: Option<&str>) -> Board {
    Board {
        board_id: id,
        short: "b".to_string(),
        long: "random".to_string(),
        description: description.map(|d| d.to_string()),
        created_at: 10,
        is_hidden: false,
    }
}

fn post(id: i32, is_oppost: bool, oppost_id: Option<i32>, body: Option<&str>) -> Post {
    Post {
        id,
        is_oppost,
        subject: Some("subj".to_string()),
        body: body.map(|b| b.to_string()),
        created_at: 100 + id as i64,
        board_id: 1,
        oppost_id,
        is_locked: false,
    }
}

#[test]
fn checked_rows_keeps_described_boards() {
    let rows = vec![board(1, Some("a")), board(2, Some(""))];
    let out = Board::checked_rows(rows).unwrap();
    assert_eq!(out.len(), 2);
    assert_eq!(out[1].board_id, 2);
    assert!(Board::checked_rows(vec![board(1, Some("a")), board(2, None)]).is_none());
    assert!(Board::checked_rows(vec![]).unwrap().is_empty());
}

#[test]
fn with_thread_sets_thread_and_keeps_order() {
    let rows = vec![post(3, true, None, Some("x")), post(5, false, None, Some("y"))];
    let out = Post::with_thread(&rows, Some(3)).unwrap();
    assert_eq!(out.len(), 2);
    assert_eq!((out[0].id, out[1].id), (3, 5));
    assert!(out.iter().all(|p| p.oppost_id == Some(3)));
    assert_eq!(out[1].body.as_deref(), Some("y"));
    let listed = Post::with_thread(&rows, None).unwrap();
    assert!(listed.iter().all(|p| p.oppost_id.is_none()));
}

#[test]
fn with_thread_refuses_incomplete_posts() {
    let rows = vec![post(3, true, None, Some("x")), post(5, false, None, None)];
    assert!(Post::with_thread(&rows, Some(3)).is_none());
}

#[test]
fn thread_id_of_opening_post_and_reply() {
    assert_eq!(post(9, true, None, None).thread_id(), Some(9));
    assert_eq!(post(12, false, Some(9), None).thread_id(), Some(9));
    assert_eq!(post(12, false, None, None).thread_id(), None);
}

#[test]
fn new_row_at_opening_post_and_reply() {
    let req = || PostRequest {
        subject: Some("s".to_string()),
        body: Some("b".to_string()),
        board_id: 4,
    };
    let op = Post::new_row_at(req(), None, 77).unwrap();
    assert!(op.is_oppost);
    assert_eq!((op.created_at, op.board_id, op.oppost_id), (77, 4, None));
    assert_eq!((op.subject.as_str(), op.body.as_str()), ("s", "b"));
    let reply = Post::new_row_at(req(), Some(9), 78).unwrap();
    assert!(!reply.is_oppost);
    assert_eq!(reply.oppost_id, Some(9));
    let missing = PostRequest { subject: None, body: Some("b".to_string()), board_id: 4 };
    assert!(Post::new_row_at(missing, None, 1).is_none());
}

#[test]
fn created_reply_counts_in_its_thread() {
    let req = PostRequest { subject: Some("s".to_string()), body: Some("b".to_string()), board_id: 1 };
    let row = Post::new_row_at(req, Some(21), 5).unwrap();
    let stored = Post {
        id: 40,
        is_oppost: row.is_oppost,
        subject: Some(row.subject),
        body: Some(row.body),
        created_at: row.created_at,
        board_id: row.board_id,
        oppost_id: row.oppost_id,
        is_locked: false,
    };
    assert_eq!(stored.thread_id(), Some(21));
}

#[test]
fn new_row_stamps_current_time() {
    let req = PostRequest { subject: Some("s".to_string()), body: Some("b".to_string()), board_id: 1 };
    let row = Post::new_row(req, None).unwrap();
    assert!(row.created_at > 1_577_836_800_000);
}

#[test]
fn thread_is_full_at_fifty() {
    assert!(!thread_is_full(49));
    assert!(thread_is_full(50));
    assert!(thread_is_full(51));
}

#[test]
fn thread_to_lock_cases() {
    let reply = post(12, false, Some(9), None);
    assert_eq!(thread_to_lock(&reply, 50), Some(9));
    assert_eq!(thread_to_lock(&reply, 10), None);
    assert_eq!(thread_to_lock(&post(3, true, None, None), 60), Some(3));
}

#[test]
fn full_thread_stays_selected() {
    let reply = post(12, false, Some(9), None);
    for n in [50, 51, 1000, i64::MAX] {
        assert_eq!(thread_to_lock(&reply, n), Some(9));
    }
}

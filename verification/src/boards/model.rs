//! Boards as the database holds them.
use vstd::prelude::*;

verus! {

/// A board as a client asks for it.
pub struct BoardRequest {
    pub short: String,
    pub long: String,
    pub description: Option<String>,
    pub is_hidden: bool,
}

/// A board as stored.
pub struct Board {
    pub board_id: i32,
    pub short: String,
    pub long: String,
    pub description: Option<String>,
    pub created_at: i64,
    pub is_hidden: bool,
}

/// Every board of `rows` has a description.
pub open spec fn all_described(rows: Seq<Board>) -> bool {
    forall|k: int| 0 <= k < rows.len() ==> (#[trigger] rows[k]).description is Some
}

impl Board {
    /// The boards that a listing query returned, which must all carry a
    /// description: `None` when one of them has none.
    pub fn checked_rows(rows: Vec<Board>) -> (r: Option<Vec<Board>>)
        ensures
            all_described(rows@) ==> r == Some(rows),
            !all_described(rows@) ==> r is None,
    {
        let n = rows.len();
        for k in 0..n
            invariant
                n == rows.len(),
                forall|m: int| 0 <= m < k ==> (#[trigger] rows@[m]).description is Some,
        {
            if rows[k].description.is_none() {
                return None;
            }
        }
        Some(rows)
    }
}

} // verus!

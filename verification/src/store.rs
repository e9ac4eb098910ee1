//! Decision helpers for the persistence port.
//!
//! The store itself is an external collaborator that answers queries with
//! rows of plain values. The functions here hold the small rules that those
//! answers are put through: whether a queried identifier was found, and how
//! an ambiguous session lookup is treated.

use vstd::prelude::*;

use crate::errors::AuthError;
use crate::models::Session;

verus! {

/// True iff one of the returned row keys equals the identifier that was
/// queried for. The store adapter feeds this the first column of every row
/// that a key lookup returned.
pub fn rows_contain_id(row_ids: &Vec<String>, id: &String) -> (found: bool)
    ensures
        found == (exists|i: int| 0 <= i < row_ids@.len() && row_ids@[i]@ == id@),
{
    let mut found = false;
    let n = row_ids.len();
    let mut k: usize = 0;
    while k < n
        invariant
            n == row_ids@.len(),
            k <= n,
            found == (exists|i: int| 0 <= i < k && row_ids@[i]@ == id@),
        decreases n - k,
    {
        if row_ids[k].eq(id) {
            found = true;
        }
        k += 1;
    }
    found
}

/// Reduces the rows a session lookup returned to at most one session.
///
/// Session identifiers are unique, so more than one row for the same
/// presented reference signals corrupted data: it is reported as an
/// integrity error, never silently resolved by picking one row.
pub fn select_session(sessions: &Vec<Session>) -> (r: Result<Option<Session>, AuthError>)
    ensures
        sessions@.len() == 0 ==> r == Ok::<Option<Session>, AuthError>(None),
        sessions@.len() == 1 ==> r == Ok::<Option<Session>, AuthError>(Some(sessions@[0])),
        sessions@.len() > 1 ==> r == Err::<Option<Session>, AuthError>(AuthError::IntegrityError),
{
    if sessions.len() == 0 {
        Ok(None)
    } else if sessions.len() == 1 {
        Ok(Some(sessions[0]))
    } else {
        Err(AuthError::IntegrityError)
    }
}

} // verus!

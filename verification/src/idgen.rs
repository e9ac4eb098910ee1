//! Collision-safe identifier generation.
//!
//! Fresh identifiers are drawn at random and must be confirmed absent from
//! the store before they are used. The store's existence query is I/O, so the
//! caller runs the loop: it draws a candidate, asks the store, and feeds the
//! answer to the step functions here, which hold every decision the loop
//! makes. The search is bounded: after [`MAX_ID_ATTEMPTS`] colliding draws it
//! gives up with a distinct failure instead of retrying forever.

use vstd::prelude::*;

verus! {

/// How many colliding draws identifier generation tolerates before failing.
pub const MAX_ID_ATTEMPTS: u32 = 16;

/// Draws a fresh 128-bit random identifier.
///
/// Relies on uuid's `Uuid::new_v4`, a random version-4 UUID; nothing is
/// promised of the value, and two calls may return anything.
#[verifier::external_body]
pub(crate) fn fresh_id() -> u128 {
    uuid::Uuid::new_v4().as_u128()
}

/// State of a bounded search for one unused identifier.
#[derive(Clone, Copy, Debug, PartialEq, Eq, Structural)]
pub enum IdSearch {
    /// Still looking; this many draws are left.
    Searching { attempts_left: u32 },
    /// The store confirmed this identifier absent.
    Found { id: u128 },
    /// Every allowed draw collided.
    Exhausted,
}

pub fn id_search_new() -> (s: IdSearch)
    ensures
        s == (IdSearch::Searching { attempts_left: MAX_ID_ATTEMPTS }),
{
    IdSearch::Searching { attempts_left: MAX_ID_ATTEMPTS }
}

/// One round of the search: `candidate` was drawn and the store answered
/// whether it already exists. A candidate is adopted only when the store
/// reported it absent; a colliding candidate is discarded and costs one
/// attempt.
pub fn id_search_step(s: IdSearch, candidate: u128, exists: bool) -> (t: IdSearch)
    requires
        s is Searching,
    ensures
        !exists ==> t == (IdSearch::Found { id: candidate }),
        exists && s->attempts_left > 1 ==> t == (IdSearch::Searching {
            attempts_left: (s->attempts_left - 1) as u32,
        }),
        exists && s->attempts_left <= 1 ==> t == IdSearch::Exhausted,
{
    if !exists {
        IdSearch::Found { id: candidate }
    } else {
        match s {
            IdSearch::Searching { attempts_left } => {
                if attempts_left > 1 {
                    IdSearch::Searching { attempts_left: attempts_left - 1 }
                } else {
                    IdSearch::Exhausted
                }
            },
            _ => IdSearch::Exhausted,
        }
    }
}

/// State of a bounded search for a fresh guest identifier pair.
///
/// A guest needs a fresh account identifier and a fresh session identifier
/// at once: if either member of a drawn pair collides with anything
/// persisted, both are discarded and a whole new pair is drawn.
#[derive(Clone, Copy, Debug, PartialEq, Eq, Structural)]
pub enum GuestSearch {
    /// Still looking; this many pair draws are left.
    Searching { attempts_left: u32 },
    /// The store confirmed both identifiers absent.
    Found { user_id: u128, session_id: u128 },
    /// Every allowed pair draw collided.
    Exhausted,
}

pub fn guest_search_new() -> (s: GuestSearch)
    ensures
        s == (GuestSearch::Searching { attempts_left: MAX_ID_ATTEMPTS }),
{
    GuestSearch::Searching { attempts_left: MAX_ID_ATTEMPTS }
}

/// One round of the pair search: the pair was drawn, and the store answered
/// whether each member already exists anywhere it could collide. The pair is
/// adopted only when the store reported both members absent.
pub fn guest_search_step(
    s: GuestSearch,
    user_id: u128,
    session_id: u128,
    user_exists: bool,
    session_exists: bool,
) -> (t: GuestSearch)
    requires
        s is Searching,
    ensures
        !user_exists && !session_exists ==> t == (GuestSearch::Found { user_id, session_id }),
        (user_exists || session_exists) && s->attempts_left > 1 ==> t == (GuestSearch::Searching {
            attempts_left: (s->attempts_left - 1) as u32,
        }),
        (user_exists || session_exists) && s->attempts_left <= 1 ==> t == GuestSearch::Exhausted,
{
    if !user_exists && !session_exists {
        GuestSearch::Found { user_id, session_id }
    } else {
        match s {
            GuestSearch::Searching { attempts_left } => {
                if attempts_left > 1 {
                    GuestSearch::Searching { attempts_left: attempts_left - 1 }
                } else {
                    GuestSearch::Exhausted
                }
            },
            _ => GuestSearch::Exhausted,
        }
    }
}

} // verus!

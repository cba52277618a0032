//! A small ActivityPub layer around the outbox of one user: actors, users
//! and posts as that outbox sees them.

use crate::time::Timestamp;
use vstd::prelude::*;

pub mod activity;
pub mod post;
pub mod user;

pub use activity::{Activity, ActivityType, KeyId, Outbox, OutgoingActivity, RawActivity};
pub use post::{APPost, Post};
pub use user::{Actor, User};

verus! {

pub const AS_CONTEXT: &'static str = "https://www.w3.org/ns/activitystreams";

/// A fresh random identifier.
pub fn new_id() -> (r: String)
    ensures
        r@.len() == 36,
{
    crate::new_id()
}

/// The clock's reading as RFC 3339 text.
pub fn new_ts() -> (r: String)
    ensures
        exists|at: Timestamp| at.representable() && r@ == #[trigger] at.rfc3339(),
{
    crate::now_str()
}

/// The clock's reading: an instant that chrono can hold, with less than a
/// second's worth of nanoseconds.
pub fn now() -> (r: Timestamp)
    ensures
        r.representable(),
        r.instant().1 < 1_000_000_000,
{
    crate::now()
}

} // verus!

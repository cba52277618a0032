//! The federation engine of a small ActivityPub server.
//!
//! The engine does no input or output of its own. Whatever has to happen
//! outside of it (a request sent, a row written, a message enqueued) it
//! hands to its caller as an action, and it takes what came of the action
//! back as an event:
//!
//! * [`federation::http`] builds and signs requests: the canonical signing
//!   string, the `Digest` and `Signature` headers, and the order in which a
//!   request is put together.
//! * [`federation::inbox`] handles an activity that arrived: it has the
//!   actors fetched and resolved and has the rows written that the
//!   activity calls for, each row after those that it refers to.
//! * [`federation::outbox`] dispatches an activity: it has it recorded,
//!   rendered, signed and delivered.
//! * [`federation::request_queue`] is the consuming end of a work queue:
//!   one message at a time, each worked off before the next is taken up. A
//!   delivery that fails is waited for and tried again, each wait twice
//!   the one before, until the configured number of tries is spent.
//! * [`federation::discipline`] and [`store`] state what holds of every
//!   run: what the engine relies on in the data store, and the order that
//!   it keeps.
//!
//! [`types`] holds the documents of the wire, the rows of the data store and
//! the views of the client API, with the conversions between them.

use vstd::prelude::*;

pub mod address;
pub mod ap;
pub mod config;
pub mod endpoints;
pub mod federation;
pub mod fresh;
pub mod store;
pub mod text;
pub mod time;
pub mod types;

verus! {

/// Whether `c` is an ASCII letter or digit.
pub open spec fn is_alphanumeric(c: char) -> bool {
    ('a' <= c && c <= 'z') || ('A' <= c && c <= 'Z') || ('0' <= c && c <= '9')
}

/// `Rng::sample_iter` of rand's thread-local generator over `Alphanumeric`,
/// `len` items of it as a text. Which letters and digits come is open.
#[verifier::external_body]
fn random_alphanumeric(len: usize) -> (r: String)
    ensures
        r@.len() == len,
        forall|i: int| 0 <= i < r@.len() ==> is_alphanumeric(#[trigger] r@[i]),
{
    rand::Rng::sample_iter(rand::thread_rng(), &rand::distributions::Alphanumeric)
        .take(len)
        .map(char::from)
        .collect()
}

/// `Uuid::new_v4` in its hyphenated form, which has 36 characters. Which
/// they are is open.
#[verifier::external_body]
fn uuid_v4() -> (r: String)
    ensures
        r@.len() == 36,
{
    uuid::Uuid::new_v4().to_string()
}

/// A random token of `len` letters and digits.
pub fn gen_token(len: usize) -> (r: String)
    ensures
        r@.len() == len,
        forall|i: int| 0 <= i < r@.len() ==> is_alphanumeric(#[trigger] r@[i]),
{
    random_alphanumeric(len)
}

/// A fresh random identifier: a version 4 UUID as text.
pub fn new_id() -> (r: String)
    ensures
        r@.len() == 36,
{
    uuid_v4()
}

/// The clock's reading: an instant that chrono can hold, with less than a
/// second's worth of nanoseconds.
pub fn now() -> (r: time::Timestamp)
    ensures
        r.representable(),
        r.instant().1 < 1_000_000_000,
{
    time::Timestamp::now()
}

/// The clock's reading as RFC 3339 text.
pub fn now_str() -> (r: String)
    ensures
        exists|at: time::Timestamp| at.representable() && r@ == #[trigger] at.rfc3339(),
{
    now().to_rfc3339()
}

/// The clock's reading as RFC 3339 text.
pub fn new_ts() -> (r: String)
    ensures
        exists|at: time::Timestamp| at.representable() && r@ == #[trigger] at.rfc3339(),
{
    now_str()
}

} // verus!

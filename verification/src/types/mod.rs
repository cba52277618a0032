use vstd::prelude::*;
use vstd::string::*;

pub mod ap;
pub mod api;
pub mod convert;
pub mod db;
pub mod get;

verus! {

/// JSON values that a remote server put into `@context`; carried, never read.
#[verifier::external_type_specification]
#[verifier::external_body]
pub struct ExJsonValue(serde_json::Value);

pub const AS_CONTEXT_RAW: &'static str = "https://www.w3.org/ns/activitystreams";

#[derive(Debug, Clone, PartialEq, Eq)]
pub enum DbError {
    CreationError(String),
    FetchError(String),
}

#[derive(Debug, PartialEq, Eq)]
pub enum ObjectContext {
    Str(String),
    Vec(Vec<serde_json::Value>),
}

#[derive(Debug, PartialEq, Eq)]
pub struct ObjectUri(pub String);

#[derive(Debug, PartialEq, Eq)]
pub struct ObjectUuid(pub String);

#[derive(Debug, PartialEq, Eq)]
pub struct Object {
    pub context: ObjectContext,
    pub id: ObjectUri,
}

impl DbError {
    /// The failure in words.
    pub open spec fn message_text(self) -> Seq<char> {
        match self {
            DbError::CreationError(why) => "an unknown error occured when creating: "@ + why@,
            DbError::FetchError(why) => "an unknown error occured when fetching: "@ + why@,
        }
    }

    /// The failure in words, for the log.
    pub fn message(&self) -> (r: String)
        ensures
            r@ == self.message_text(),
    {
        match self {
            DbError::CreationError(why) => {
                let mut r = String::from_str("an unknown error occured when creating: ");
                r.append(why.as_str());
                r
            },
            DbError::FetchError(why) => {
                let mut r = String::from_str("an unknown error occured when fetching: ");
                r.append(why.as_str());
                r
            },
        }
    }
}

impl View for ObjectUri {
    type V = Seq<char>;

    open spec fn view(&self) -> Seq<char> {
        self.0@
    }
}

impl View for ObjectUuid {
    type V = Seq<char>;

    open spec fn view(&self) -> Seq<char> {
        self.0@
    }
}

impl Clone for ObjectUri {
    fn clone(&self) -> (r: Self)
        ensures
            r == *self,
    {
        ObjectUri(self.0.clone())
    }
}

impl Clone for ObjectUuid {
    fn clone(&self) -> (r: Self)
        ensures
            r == *self,
    {
        ObjectUuid(self.0.clone())
    }
}

impl ObjectUuid {
    /// A fresh random identifier.
    pub fn new() -> (r: Self)
        ensures
            r@.len() == 36,
    {
        ObjectUuid(crate::new_id())
    }
}

impl Default for ObjectUuid {
    fn default() -> (r: Self)
        ensures
            r@.len() == 36,
    {
        ObjectUuid::new()
    }
}

/// The context of a document that this server writes.
pub fn as_context() -> (r: ObjectContext)
    ensures
        r matches ObjectContext::Str(s) && s@ == AS_CONTEXT_RAW@,
{
    ObjectContext::Str(String::from_str(AS_CONTEXT_RAW))
}

impl Default for ObjectContext {
    fn default() -> (r: Self)
        ensures
            r matches ObjectContext::Str(s) && s@ == Seq::<char>::empty(),
    {
        ObjectContext::Str(String::new())
    }
}

} // verus!

use crate::ap::user::{Actor, User};
use crate::federation::http::{
    delivery_request, prepared_as, HttpClient, HttpError, HttpWrapper, RequestBuilder, RequestVerb,
};
use crate::time::Timestamp;
use vstd::prelude::*;
use vstd::string::*;

verus! {

#[derive(Debug, Clone, Copy, PartialEq, Eq, Structural)]
pub enum ActivityType {
    Follow,
    Accept,
    Create,
    Unknown,
}

pub type KeyId = String;

/// An activity of a local user.
#[derive(Debug)]
pub struct Activity<T> {
    pub id: String,
    pub ty: ActivityType,
    pub object: T,
    pub published: Timestamp,
    pub to: Vec<String>,
    pub cc: Vec<String>,
}

/// An activity with the key that signs it and the actor to whom it goes.
#[derive(Debug)]
pub struct OutgoingActivity<T> {
    pub signed_by: KeyId,
    pub req: Activity<T>,
    pub to: Actor,
}

/// An activity as it goes over the wire.
#[derive(Debug)]
pub struct RawActivity<T> {
    pub context: String,
    pub id: String,
    pub ty: String,
    pub actor: String,
    pub object: T,
    pub published: String,
}

/// The outbox of one user.
pub struct Outbox<'a> {
    user: User,
    transport: &'a HttpClient,
}

/// The name of an activity type on the wire.
pub open spec fn raw_type(ty: ActivityType) -> Seq<char> {
    match ty {
        ActivityType::Follow => "Follow"@,
        ActivityType::Accept => "Accept"@,
        ActivityType::Create => "Create"@,
        ActivityType::Unknown => "FIXME"@,
    }
}

impl ActivityType {
    pub fn to_raw(self) -> (r: String)
        ensures
            r@ == raw_type(self),
    {
        match self {
            ActivityType::Follow => String::from_str("Follow"),
            ActivityType::Accept => String::from_str("Accept"),
            ActivityType::Create => String::from_str("Create"),
            ActivityType::Unknown => String::from_str("FIXME"),
        }
    }
}

impl<T> Activity<T> {
    /// An activity of unknown type about `object`, published at
    /// `published`, with no id and no recipients.
    pub fn blank(object: T, published: Timestamp) -> (r: Self)
        ensures
            r.id@.len() == 0,
            r.ty == ActivityType::Unknown,
            r.object == object,
            r.published == published,
            r.to@.len() == 0,
            r.cc@.len() == 0,
    {
        Activity {
            id: String::new(),
            ty: ActivityType::Unknown,
            object,
            published,
            to: Vec::new(),
            cc: Vec::new(),
        }
    }
}

impl<T> OutgoingActivity<T> {
    /// The line that the audit table keeps of this activity: its id, its
    /// type and the actor to whom it goes.
    pub fn record(&self) -> (r: (String, String, String))
        ensures
            r.0@ == self.req.id@,
            r.1@ == raw_type(self.req.ty),
            r.2@ == self.to.id_text(),
    {
        (self.req.id.clone(), self.req.ty.to_raw(), String::from_str(self.to.id()))
    }
}

impl<'a> Outbox<'a> {
    pub closed spec fn owner(&self) -> User {
        self.user
    }

    pub closed spec fn key_pem(&self) -> Seq<char> {
        self.transport.key_pem@
    }

    pub fn for_user(user: User, transport: &'a HttpClient) -> (r: Outbox<'a>)
        ensures
            r.owner() == user,
            r.key_pem() == transport.key_pem@,
    {
        Outbox { user, transport }
    }

    pub fn user(&self) -> (r: &User)
        ensures
            *r == self.owner(),
    {
        &self.user
    }

    /// The activity as it goes over the wire in the name of this outbox's
    /// user.
    pub fn raw<T>(&self, activity: Activity<T>) -> (r: RawActivity<T>)
        ensures
            r.context@ == crate::ap::AS_CONTEXT@,
            r.id == activity.id,
            r.ty@ == raw_type(activity.ty),
            r.actor@ == self.owner().its_actor().id_text(),
            r.object == activity.object,
            r.published@ == activity.published.rfc3339(),
    {
        RawActivity {
            context: String::from_str(crate::ap::AS_CONTEXT),
            id: activity.id,
            ty: activity.ty.to_raw(),
            actor: String::from_str(self.user.actor().id()),
            object: activity.object,
            published: activity.published.to_rfc3339(),
        }
    }

    /// The signed request that posts an activity, given as its JSON text, to
    /// the inbox of `to`, as of `at`.
    pub fn post(&self, to: &Actor, signed_by: &str, body: String, at: &Timestamp) -> (r: Result<
        RequestBuilder,
        HttpError,
    >)
        ensures
            prepared_as(
                r,
                RequestVerb::POST,
                "Activity"@,
                to.inbox_text(),
                body@,
                delivery_request(self.key_pem(), signed_by@, to.inbox_text(), body@, *at),
            ),
    {
        HttpWrapper::new(self.transport, signed_by).post_activity_at(to.inbox(), body, at)
    }
}

} // verus!

use crate::address::{classified, classify_actor};
use crate::types::Object;
use vstd::prelude::*;

verus! {

#[derive(Debug, Clone, Copy, PartialEq, Eq, Structural)]
pub enum ActivityType {
    Reject,
    Create,
    Note,
    Delete,
    Undo,
    Accept,
    Announce,
    Person,
    Like,
    Follow,
}

/// As much of an activity as is needed to tell its kind.
#[derive(Debug)]
pub struct MinimalActivity {
    pub obj: Object,
    pub ty: ActivityType,
}

pub type DeleteActivity = BasicActivity;

pub type LikeActivity = BasicActivity;

#[derive(Debug)]
pub struct BasicActivity {
    pub obj: Object,
    pub object: String,
    pub actor: String,
}

#[derive(Debug)]
pub struct CreateActivity {
    pub obj: Object,
    pub ty: ActivityType,
    pub object: Post,
    pub actor: String,
    pub to: Vec<String>,
    pub cc: Vec<String>,
    pub ts: String,
}

#[derive(Debug)]
pub struct FollowActivity {
    pub obj: Object,
    pub ty: ActivityType,
    pub object: String,
    pub actor: String,
}

#[derive(Debug)]
pub struct AcceptActivity {
    pub obj: Object,
    pub ty: ActivityType,
    pub object: String,
    pub actor: String,
}

#[derive(Debug)]
pub struct BoostActivity {
    pub obj: Object,
    pub ty: ActivityType,
    pub actor: String,
    pub published: String,
    pub to: Vec<String>,
    pub cc: Vec<String>,
    pub object: String,
}

#[derive(Debug, Clone, Copy, PartialEq, Eq, Structural)]
pub enum PostAttachmentType {
    Document,
}

#[derive(Debug)]
pub struct PostAttachment {
    pub ty: PostAttachmentType,
    pub media_type: String,
    pub url: String,
    pub name: String,
    pub summary: Option<String>,
    pub sensitive: bool,
}

/// A Note as it travels between servers.
#[derive(Debug)]
pub struct Post {
    pub obj: Object,
    pub ty: ActivityType,
    pub ts: String,
    pub content: String,
    pub to: Vec<String>,
    pub cc: Vec<String>,
    pub attachment: Vec<PostAttachment>,
    pub attributed_to: Option<String>,
}

#[derive(Debug, PartialEq, Eq)]
pub struct Actor {
    pub obj: Object,
    pub inbox: String,
    pub outbox: String,
}

#[derive(Debug, Clone, Copy, PartialEq, Eq, Structural)]
pub enum IconType {
    Image,
}

#[derive(Debug, PartialEq, Eq)]
pub struct PersonIcon {
    pub ty: IconType,
    pub url: String,
    pub summary: String,
    pub width: i64,
    pub height: i64,
}

#[derive(Debug, PartialEq, Eq)]
pub struct UserKey {
    pub id: String,
    pub owner: String,
    pub public_key: String,
}

/// An actor document of a person, local or remote.
#[derive(Debug, PartialEq, Eq)]
pub struct Person {
    pub obj: Object,
    pub ty: ActivityType,
    pub following: String,
    pub followers: String,
    pub summary: String,
    pub inbox: String,
    pub outbox: String,
    pub preferred_username: String,
    pub name: String,
    pub public_key: Option<UserKey>,
    pub icon: Option<PersonIcon>,
}

/// How an actor is known on this server.
#[derive(Debug, PartialEq, Eq)]
pub struct RemoteInfo {
    pub is_remote: bool,
    pub web_url: String,
    pub acct: String,
}

impl Person {
    /// How this person is known on the server whose domain is
    /// `local_domain`; `None` where the person's id is no URL with a host.
    pub fn remote_info(&self, local_domain: &str) -> (r: Option<RemoteInfo>)
        ensures
            r is Some <==> classified(self.obj.id@, self.preferred_username@, local_domain@)
                is Some,
            r matches Some(info) ==> Some((info.acct@, info.web_url@, info.is_remote))
                == classified(self.obj.id@, self.preferred_username@, local_domain@),
    {
        classify_actor(self.obj.id.0.as_str(), self.preferred_username.as_str(), local_domain)
    }
}

} // verus!

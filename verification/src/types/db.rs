use crate::time::Timestamp;
use crate::types::{ObjectUri, ObjectUuid};
use vstd::prelude::*;

verus! {

#[derive(Debug, PartialEq, Eq)]
pub struct Follow {
    pub id: ObjectUri,
    pub follower: ObjectUri,
    pub followed: ObjectUri,
}

#[derive(Debug, PartialEq, Eq)]
pub struct Actor {
    pub id: ObjectUri,
    pub inbox: String,
    pub outbox: String,
}

#[derive(Debug, Clone, Copy, PartialEq, Eq)]
pub struct UserPosts {
    pub last_post_at: Option<Timestamp>,
}

#[derive(Debug, PartialEq, Eq)]
pub struct User {
    pub id: ObjectUuid,
    pub actor: Actor,
    pub username: String,
    pub display_name: String,
    pub acct: String,
    pub remote: bool,
    pub url: String,
    pub created_at: Timestamp,
    pub icon_url: String,
    pub posts: UserPosts,
    pub key_id: String,
}

#[derive(Debug, PartialEq, Eq)]
pub struct Attachment {
    pub id: ObjectUuid,
    pub post_id: ObjectUuid,
    pub url: String,
    pub media_type: Option<String>,
    pub sensitive: bool,
    pub alt: Option<String>,
}

#[derive(Debug, PartialEq, Eq)]
pub struct Post {
    pub id: ObjectUuid,
    pub uri: ObjectUri,
    pub user: User,
    pub content: String,
    pub created_at: Timestamp,
    pub boosted_post: Option<Box<Post>>,
    pub attachments: Vec<Attachment>,
}

pub struct FollowView {
    pub id: Seq<char>,
    pub follower: Seq<char>,
    pub followed: Seq<char>,
}

pub struct ActorView {
    pub id: Seq<char>,
    pub inbox: Seq<char>,
    pub outbox: Seq<char>,
}

pub struct UserView {
    pub id: Seq<char>,
    pub actor: ActorView,
    pub username: Seq<char>,
    pub display_name: Seq<char>,
    pub acct: Seq<char>,
    pub remote: bool,
    pub url: Seq<char>,
    pub created_at: Timestamp,
    pub icon_url: Seq<char>,
    pub posts: UserPosts,
    pub key_id: Seq<char>,
}

pub struct AttachmentView {
    pub id: Seq<char>,
    pub post_id: Seq<char>,
    pub url: Seq<char>,
    pub media_type: Option<Seq<char>>,
    pub sensitive: bool,
    pub alt: Option<Seq<char>>,
}

pub struct PostView {
    pub id: Seq<char>,
    pub uri: Seq<char>,
    pub user: UserView,
    pub content: Seq<char>,
    pub created_at: Timestamp,
    pub boosted_post: Option<Box<PostView>>,
    pub attachments: Seq<AttachmentView>,
}

/// The text of an optional string.
pub open spec fn text_of(s: Option<String>) -> Option<Seq<char>> {
    match s {
        Some(s) => Some(s@),
        None => None,
    }
}

impl View for Follow {
    type V = FollowView;

    open spec fn view(&self) -> FollowView {
        FollowView { id: self.id@, follower: self.follower@, followed: self.followed@ }
    }
}

impl View for Actor {
    type V = ActorView;

    open spec fn view(&self) -> ActorView {
        ActorView { id: self.id@, inbox: self.inbox@, outbox: self.outbox@ }
    }
}

impl View for User {
    type V = UserView;

    open spec fn view(&self) -> UserView {
        UserView {
            id: self.id@,
            actor: self.actor@,
            username: self.username@,
            display_name: self.display_name@,
            acct: self.acct@,
            remote: self.remote,
            url: self.url@,
            created_at: self.created_at,
            icon_url: self.icon_url@,
            posts: self.posts,
            key_id: self.key_id@,
        }
    }
}

impl View for Attachment {
    type V = AttachmentView;

    open spec fn view(&self) -> AttachmentView {
        AttachmentView {
            id: self.id@,
            post_id: self.post_id@,
            url: self.url@,
            media_type: text_of(self.media_type),
            sensitive: self.sensitive,
            alt: text_of(self.alt),
        }
    }
}

/// The rows that a list of attachments stands for, in order.
pub open spec fn attachment_rows(list: Seq<Attachment>) -> Seq<AttachmentView> {
    Seq::new(list.len(), |i: int| list[i]@)
}

impl Post {
    pub open spec fn row(self) -> PostView
        decreases self,
    {
        PostView {
            id: self.id@,
            uri: self.uri@,
            user: self.user@,
            content: self.content@,
            created_at: self.created_at,
            boosted_post: match self.boosted_post {
                Some(inner) => Some(Box::new((*inner).row())),
                None => None,
            },
            attachments: attachment_rows(self.attachments@),
        }
    }
}

impl View for Post {
    type V = PostView;

    open spec fn view(&self) -> PostView {
        self.row()
    }
}

/// A copy of an optional string.
pub fn copy_text(s: &Option<String>) -> (r: Option<String>)
    ensures
        r == *s,
{
    match s {
        Some(s) => Some(s.clone()),
        None => None,
    }
}

impl Clone for Follow {
    fn clone(&self) -> (r: Self)
        ensures
            r == *self,
    {
        Follow {
            id: self.id.clone(),
            follower: self.follower.clone(),
            followed: self.followed.clone(),
        }
    }
}

impl Clone for Actor {
    fn clone(&self) -> (r: Self)
        ensures
            r == *self,
    {
        Actor { id: self.id.clone(), inbox: self.inbox.clone(), outbox: self.outbox.clone() }
    }
}

impl Clone for User {
    fn clone(&self) -> (r: Self)
        ensures
            r == *self,
    {
        User {
            id: self.id.clone(),
            actor: self.actor.clone(),
            username: self.username.clone(),
            display_name: self.display_name.clone(),
            acct: self.acct.clone(),
            remote: self.remote,
            url: self.url.clone(),
            created_at: self.created_at,
            icon_url: self.icon_url.clone(),
            posts: self.posts,
            key_id: self.key_id.clone(),
        }
    }
}

impl Clone for Attachment {
    fn clone(&self) -> (r: Self)
        ensures
            r == *self,
    {
        Attachment {
            id: self.id.clone(),
            post_id: self.post_id.clone(),
            url: self.url.clone(),
            media_type: copy_text(&self.media_type),
            sensitive: self.sensitive,
            alt: copy_text(&self.alt),
        }
    }
}

/// A copy of a list of attachments, row for row.
pub fn copy_attachments(list: &Vec<Attachment>) -> (r: Vec<Attachment>)
    ensures
        attachment_rows(r@) == attachment_rows(list@),
{
    let mut r: Vec<Attachment> = Vec::new();
    let mut i: usize = 0;
    while i < list.len()
        invariant
            i <= list.len(),
            r@.len() == i,
            forall|j: int| 0 <= j < i ==> r@[j] == list@[j],
        decreases list.len() - i,
    {
        r.push(list[i].clone());
        i += 1;
    }
    assert(attachment_rows(r@) =~= attachment_rows(list@));
    r
}

impl Clone for Post {
    fn clone(&self) -> (r: Self)
        ensures
            r@ == self@,
        decreases self,
    {
        let boosted_post = match &self.boosted_post {
            Some(inner) => {
                let copy = (**inner).clone();
                Some(Box::new(copy))
            },
            None => None,
        };
        Post {
            id: self.id.clone(),
            uri: self.uri.clone(),
            user: self.user.clone(),
            content: self.content.clone(),
            created_at: self.created_at,
            boosted_post,
            attachments: copy_attachments(&self.attachments),
        }
    }
}

} // verus!

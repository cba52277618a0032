use crate::ap::user::User;
use crate::config::{user_url_text, Config};
use crate::time::Timestamp;
use vstd::prelude::*;
use vstd::string::*;

verus! {

/// A local post on its way out, with those to whom it is addressed.
#[derive(Debug)]
pub struct Post {
    id: String,
    from: User,
    ts: Timestamp,
    content: String,
    to: Vec<String>,
    cc: Vec<String>,
}

/// A post as it is published.
#[derive(Debug, Default, PartialEq, Eq)]
pub struct APPost {
    pub context: String,
    pub id: String,
    pub ty: String,
    pub ts: String,
    pub content: String,
    pub to: Vec<String>,
    pub cc: Vec<String>,
}

impl Post {
    pub closed spec fn id_text(&self) -> Seq<char> {
        self.id@
    }

    pub closed spec fn author(&self) -> User {
        self.from
    }

    pub closed spec fn written_at(&self) -> Timestamp {
        self.ts
    }

    pub closed spec fn content_text(&self) -> Seq<char> {
        self.content@
    }

    pub closed spec fn recipients(&self) -> Seq<String> {
        self.to@
    }

    pub closed spec fn copied(&self) -> Seq<String> {
        self.cc@
    }

    /// The address under which the post is published.
    pub open spec fn uri_text(&self, base: Seq<char>) -> Seq<char> {
        user_url_text(base, self.author().id_text()) + "/posts/"@ + self.id_text()
    }

    /// A post written at `ts`, addressed to nobody yet.
    pub fn from_parts_at(id: String, content: String, from: User, ts: Timestamp) -> (r: Self)
        ensures
            r.id_text() == id@,
            r.content_text() == content@,
            r.author() == from,
            r.written_at() == ts,
            r.recipients().len() == 0,
            r.copied().len() == 0,
    {
        Post { id, content, from, ts, to: Vec::new(), cc: Vec::new() }
    }

    /// A post written now, addressed to nobody yet.
    pub fn from_parts(id: String, content: String, from: User) -> (r: Self)
        ensures
            r.written_at().representable(),
            r.id_text() == id@,
            r.content_text() == content@,
            r.author() == from,
            r.recipients().len() == 0,
            r.copied().len() == 0,
    {
        Post::from_parts_at(id, content, from, crate::ap::now())
    }

    pub fn id(&self) -> (r: &str)
        ensures
            r@ == self.id_text(),
    {
        self.id.as_str()
    }

    pub fn content(&self) -> (r: &str)
        ensures
            r@ == self.content_text(),
    {
        self.content.as_str()
    }

    pub fn created_at(&self) -> (r: String)
        ensures
            r@ == self.written_at().rfc3339(),
    {
        self.ts.to_rfc3339()
    }

    pub fn uri(&self, config: &Config) -> (r: String)
        ensures
            r@ == self.uri_text(config.base()),
    {
        let mut r = config.user_url(self.from.id());
        r.append("/posts/");
        r.append(self.id.as_str());
        r
    }

    /// Adds a recipient.
    pub fn to(self, recipient: String) -> (r: Self)
        ensures
            r.recipients() == self.recipients().push(recipient),
            r.copied() == self.copied(),
            r.id_text() == self.id_text(),
            r.content_text() == self.content_text(),
            r.author() == self.author(),
            r.written_at() == self.written_at(),
    {
        let mut r = self;
        r.to.push(recipient);
        r
    }

    /// Adds a recipient of a copy.
    pub fn cc(self, recipient: String) -> (r: Self)
        ensures
            r.copied() == self.copied().push(recipient),
            r.recipients() == self.recipients(),
            r.id_text() == self.id_text(),
            r.content_text() == self.content_text(),
            r.author() == self.author(),
            r.written_at() == self.written_at(),
    {
        let mut r = self;
        r.cc.push(recipient);
        r
    }

    /// The post as it is published on the configured server.
    pub fn to_ap(self, config: &Config) -> (r: APPost)
        ensures
            r.context@ == crate::ap::AS_CONTEXT@,
            r.id@ == self.uri_text(config.base()),
            r.ty@ == "Post"@,
            r.ts@ == self.written_at().rfc3339(),
            r.content@ == self.content_text(),
            r.to@ == self.recipients(),
            r.cc@ == self.copied(),
    {
        APPost {
            context: String::from_str(crate::ap::AS_CONTEXT),
            id: self.uri(config),
            ty: String::from_str("Post"),
            ts: self.ts.to_rfc3339(),
            content: self.content,
            to: self.to,
            cc: self.cc,
        }
    }
}

} // verus!

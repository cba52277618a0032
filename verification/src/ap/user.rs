use crate::config::{user_url_text, Config};
use vstd::prelude::*;
use vstd::string::*;

verus! {

#[derive(Debug, PartialEq, Eq)]
pub struct Actor {
    id: String,
    inbox: String,
    outbox: String,
}

#[derive(Debug, PartialEq, Eq)]
pub struct User {
    id: String,
    username: String,
    actor: Actor,
    display_name: String,
}

impl Actor {
    pub closed spec fn id_text(&self) -> Seq<char> {
        self.id@
    }

    pub closed spec fn inbox_text(&self) -> Seq<char> {
        self.inbox@
    }

    pub closed spec fn outbox_text(&self) -> Seq<char> {
        self.outbox@
    }

    pub fn from_raw(id: String, inbox: String, outbox: String) -> (r: Self)
        ensures
            r.id_text() == id@,
            r.inbox_text() == inbox@,
            r.outbox_text() == outbox@,
    {
        Actor { id, inbox, outbox }
    }

    pub fn id(&self) -> (r: &str)
        ensures
            r@ == self.id_text(),
    {
        self.id.as_str()
    }

    pub fn inbox(&self) -> (r: &str)
        ensures
            r@ == self.inbox_text(),
    {
        self.inbox.as_str()
    }
}

impl Clone for Actor {
    fn clone(&self) -> (r: Self)
        ensures
            r == *self,
    {
        Actor { id: self.id.clone(), inbox: self.inbox.clone(), outbox: self.outbox.clone() }
    }
}

impl User {
    pub closed spec fn id_text(&self) -> Seq<char> {
        self.id@
    }

    pub closed spec fn username_text(&self) -> Seq<char> {
        self.username@
    }

    pub closed spec fn display_name_text(&self) -> Seq<char> {
        self.display_name@
    }

    pub closed spec fn its_actor(&self) -> Actor {
        self.actor
    }

    /// A user from the columns of its row and of its actor's row.
    pub fn from_parts(id: String, username: String, actor: Actor, display_name: String) -> (r: Self)
        ensures
            r.id_text() == id@,
            r.username_text() == username@,
            r.its_actor() == actor,
            r.display_name_text() == display_name@,
    {
        User { id, username, actor, display_name }
    }

    pub fn id(&self) -> (r: &str)
        ensures
            r@ == self.id_text(),
    {
        self.id.as_str()
    }

    pub fn username(&self) -> (r: &str)
        ensures
            r@ == self.username_text(),
    {
        self.username.as_str()
    }

    pub fn actor_id(&self) -> (r: &str)
        ensures
            r@ == self.its_actor().id_text(),
    {
        self.actor.id.as_str()
    }

    pub fn display_name(&self) -> (r: &str)
        ensures
            r@ == self.display_name_text(),
    {
        self.display_name.as_str()
    }

    pub fn actor(&self) -> (r: &Actor)
        ensures
            *r == self.its_actor(),
    {
        &self.actor
    }

    /// The address of the user's actor document on the configured server.
    pub fn uri(&self, config: &Config) -> (r: String)
        ensures
            r@ == user_url_text(config.base(), self.id_text()),
    {
        config.user_url(self.id())
    }
}

impl Clone for User {
    fn clone(&self) -> (r: Self)
        ensures
            r == *self,
    {
        User {
            id: self.id.clone(),
            username: self.username.clone(),
            actor: self.actor.clone(),
            display_name: self.display_name.clone(),
        }
    }
}

} // verus!

use crate::address::{host_of, host_str};
use vstd::prelude::*;
use vstd::string::*;

verus! {

#[derive(Debug, PartialEq, Eq)]
pub struct ServerConfig {
    pub host: String,
}

#[derive(Debug, PartialEq, Eq)]
pub struct Config {
    pub server: ServerConfig,
}

impl Clone for ServerConfig {
    fn clone(&self) -> (r: Self)
        ensures
            r == *self,
    {
        ServerConfig { host: self.host.clone() }
    }
}

impl Clone for Config {
    fn clone(&self) -> (r: Self)
        ensures
            r == *self,
    {
        Config { server: self.server.clone() }
    }
}

/// How a delivery that failed is tried again: how often a delivery is
/// tried at most, how long the first wait is, and how long a wait may get.
/// Each further wait is twice the one before.
#[derive(Debug, Clone, Copy, PartialEq, Eq, Structural)]
pub struct RetryPolicy {
    pub max_attempts: u32,
    pub base_delay_ms: u64,
    pub max_delay_ms: u64,
}

/// What the federation engine knows of the server it runs on: its
/// configuration, the domain under which its own actors live, the inboxes
/// of the peers to which new posts go, and how failed deliveries are tried
/// again.
#[derive(Debug)]
pub struct Local {
    pub config: Config,
    pub domain: String,
    pub peers: Vec<String>,
    pub retry: RetryPolicy,
}

/// The address of a user's actor document below `host`.
pub open spec fn user_url_text(host: Seq<char>, user_uuid: Seq<char>) -> Seq<char> {
    host + "/users/"@ + user_uuid
}

/// The id of the key with which the user `user_uuid` signs.
pub open spec fn key_id_text(host: Seq<char>, user_uuid: Seq<char>) -> Seq<char> {
    user_url_text(host, user_uuid) + "#main-key"@
}

/// The picture of a user who has none of their own.
pub open spec fn default_icon_text(host: Seq<char>) -> Seq<char> {
    host + "/assets/pfp.png"@
}

impl Clone for Local {
    fn clone(&self) -> (r: Self)
        ensures
            r.config == self.config,
            r.domain == self.domain,
            r.peers@ == self.peers@,
            r.retry == self.retry,
    {
        let peers = crate::text::copy_texts(&self.peers);
        Local {
            config: self.config.clone(),
            domain: self.domain.clone(),
            peers,
            retry: self.retry,
        }
    }
}

impl Local {
    /// The server's own description from its configuration, its peers and
    /// its way with failed deliveries; `None` where the configured base URL
    /// names no host.
    pub fn new(config: Config, peers: Vec<String>, retry: RetryPolicy) -> (r: Option<Local>)
        ensures
            r is Some <==> host_of(config.base()) is Some,
            r matches Some(l) ==> l.config == config && l.peers == peers && l.retry == retry
                && Some(l.domain@) == host_of(config.base()),
    {
        match host_str(config.host()) {
            Some(domain) => Some(Local { config, domain, peers, retry }),
            None => None,
        }
    }
}

impl Config {
    /// The id of the key with which a local user signs.
    pub fn key_id(&self, user_uuid: &str) -> (r: String)
        ensures
            r@ == key_id_text(self.base(), user_uuid@),
    {
        let mut r = self.user_url(user_uuid);
        r.append("#main-key");
        r
    }

    /// The picture shown for a user who has none.
    pub fn default_icon_url(&self) -> (r: String)
        ensures
            r@ == default_icon_text(self.base()),
    {
        let mut r = String::from_str(self.host());
        r.append("/assets/pfp.png");
        r
    }

    /// The base URL that every address of this server starts with.
    pub open spec fn base(&self) -> Seq<char> {
        self.server.host@
    }

    pub fn host(&self) -> (r: &str)
        ensures
            r@ == self.base(),
    {
        self.server.host.as_str()
    }

    pub fn user_url(&self, user_uuid: &str) -> (r: String)
        ensures
            r@ == user_url_text(self.base(), user_uuid@),
    {
        let mut r = String::from_str(self.host());
        r.append("/users/");
        r.append(user_uuid);
        r
    }

    pub fn user_web_url(&self, user_name: &str) -> (r: String)
        ensures
            r@ == self.base() + "/"@ + user_name@,
    {
        let mut r = String::from_str(self.host());
        r.append("/");
        r.append(user_name);
        r
    }

    pub fn followers_url(&self, user_uuid: &str) -> (r: String)
        ensures
            r@ == user_url_text(self.base(), user_uuid@) + "/followers"@,
    {
        let mut r = self.user_url(user_uuid);
        r.append("/followers");
        r
    }

    pub fn following_url(&self, user_uuid: &str) -> (r: String)
        ensures
            r@ == user_url_text(self.base(), user_uuid@) + "/following"@,
    {
        let mut r = self.user_url(user_uuid);
        r.append("/following");
        r
    }

    pub fn inbox_url(&self, user_uuid: &str) -> (r: String)
        ensures
            r@ == user_url_text(self.base(), user_uuid@) + "/inbox"@,
    {
        let mut r = self.user_url(user_uuid);
        r.append("/inbox");
        r
    }

    pub fn outbox_url(&self, user_uuid: &str) -> (r: String)
        ensures
            r@ == user_url_text(self.base(), user_uuid@) + "/outbox"@,
    {
        let mut r = self.user_url(user_uuid);
        r.append("/outbox");
        r
    }

    pub fn post_url(&self, poster_uuid: &str, post_uuid: &str) -> (r: String)
        ensures
            r@ == user_url_text(self.base(), poster_uuid@) + "/"@ + post_uuid@,
    {
        let mut r = self.user_url(poster_uuid);
        r.append("/");
        r.append(post_uuid);
        r
    }

    pub fn activity_url(&self, activity_uuid: &str) -> (r: String)
        ensures
            r@ == self.base() + "/activities/"@ + activity_uuid@,
    {
        let mut r = String::from_str(self.host());
        r.append("/activities/");
        r.append(activity_uuid);
        r
    }
}

} // verus!

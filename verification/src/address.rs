use crate::types::ap::RemoteInfo;
use vstd::prelude::*;
use vstd::string::*;

verus! {

/// Whether the `url` crate reads `input` as an absolute URL.
pub uninterp spec fn url_parses(input: Seq<char>) -> bool;

/// The host that the `url` crate gives for `input`, if it has one.
pub uninterp spec fn url_host(input: Seq<char>) -> Option<Seq<char>>;

/// The path that the `url` crate gives for `input`.
pub uninterp spec fn url_path(input: Seq<char>) -> Seq<char>;

/// What the signer and the actor classifier read of a URL.
#[derive(Debug, PartialEq, Eq)]
pub struct UrlParts {
    pub host: Option<String>,
    pub path: String,
}

/// `Url::parse`, then `Url::host_str` and `Url::path` of the result. `None`
/// where the text is no absolute URL.
#[verifier::external_body]
fn url_parts(input: &str) -> (r: Option<UrlParts>)
    ensures
        r is Some <==> url_parses(input@),
        r matches Some(p) ==> p.host_text() == url_host(input@) && p.path@ == url_path(input@),
{
    match url::Url::parse(input) {
        Ok(parsed) => Some(
            UrlParts {
                host: parsed.host_str().map(str::to_string),
                path: parsed.path().to_string(),
            },
        ),
        Err(_) => None,
    }
}

/// The host of `input` where it is an absolute URL that has one.
pub open spec fn host_of(input: Seq<char>) -> Option<Seq<char>> {
    if url_parses(input) {
        url_host(input)
    } else {
        None
    }
}

impl UrlParts {
    pub open spec fn host_text(self) -> Option<Seq<char>> {
        match self.host {
            Some(h) => Some(h@),
            None => None,
        }
    }

    /// Splits an absolute URL; `None` where `input` is not one.
    pub fn parse(input: &str) -> (r: Option<UrlParts>)
        ensures
            r is Some <==> url_parses(input@),
            r matches Some(p) ==> p.host_text() == url_host(input@) && p.path@ == url_path(input@),
    {
        url_parts(input)
    }
}

/// The host of an absolute URL, `None` where the text is no such URL or
/// names no host.
pub fn host_str(input: &str) -> (r: Option<String>)
    ensures
        r is Some <==> host_of(input@) is Some,
        r matches Some(h) ==> Some(h@) == host_of(input@),
{
    match url_parts(input) {
        Some(parts) => parts.host,
        None => None,
    }
}

/// How the actor `actor_uri` with the given user name is known on the server
/// whose domain is `local_domain`: by its bare name where its host is that
/// domain, by `name@host` elsewhere. `None` where the address has no host.
pub open spec fn classified(
    actor_uri: Seq<char>,
    username: Seq<char>,
    local_domain: Seq<char>,
) -> Option<(Seq<char>, Seq<char>, bool)> {
    match host_of(actor_uri) {
        Some(host) => {
            let remote = host != local_domain;
            let acct = if remote {
                username + "@"@ + host
            } else {
                username
            };
            Some((acct, "https://"@ + local_domain + "/"@ + acct, remote))
        },
        None => None,
    }
}

/// Tells a local actor from a remote one and derives the account name and
/// the profile address under which this server shows it.
pub fn classify_actor(actor_uri: &str, username: &str, local_domain: &str) -> (r: Option<
    RemoteInfo,
>)
    ensures
        r is Some <==> classified(actor_uri@, username@, local_domain@) is Some,
        r matches Some(info) ==> Some((info.acct@, info.web_url@, info.is_remote)) == classified(
            actor_uri@,
            username@,
            local_domain@,
        ),
{
    let host = match host_str(actor_uri) {
        Some(host) => host,
        None => return None,
    };
    let local = String::from_str(local_domain);
    let is_remote = host != local;
    let mut acct = String::from_str(username);
    if is_remote {
        acct.append("@");
        acct.append(host.as_str());
    }
    let mut web_url = String::from_str("https://");
    web_url.append(local_domain);
    web_url.append("/");
    web_url.append(acct.as_str());
    Some(RemoteInfo { is_remote, web_url, acct })
}

} // verus!

use crate::config::{user_url_text, Config};
use crate::federation::inbox::InboxRequest;
use crate::federation::request_queue::QueueMessage;
use crate::time::Timestamp;
use crate::types::ap::{self, ActivityType};
use crate::types::api::{WebfingerHit, WebfingerLink};
use crate::types::db;
use crate::types::{as_context, ObjectContext, ObjectUri, ObjectUuid, AS_CONTEXT_RAW};
use vstd::prelude::*;
use vstd::string::*;

verus! {

/// The kinds of activity that the inbox takes in.
#[derive(Debug, Clone, Copy, PartialEq, Eq, Structural)]
pub enum InboxKind {
    Delete,
    Follow,
    Create,
    Like,
    Boost,
}

/// An activity that arrived, read in full as what its type says it is.
#[derive(Debug)]
pub enum Incoming {
    Delete(ap::DeleteActivity),
    Follow(ap::FollowActivity),
    Create(ap::CreateActivity),
    Like(ap::LikeActivity),
    Boost(ap::BoostActivity),
}

/// As what an activity of type `ty` is taken in; `None` for the types that
/// are noted and dropped.
pub open spec fn kind_of(ty: ActivityType) -> Option<InboxKind> {
    match ty {
        ActivityType::Delete => Some(InboxKind::Delete),
        ActivityType::Follow => Some(InboxKind::Follow),
        ActivityType::Create => Some(InboxKind::Create),
        ActivityType::Like => Some(InboxKind::Like),
        ActivityType::Announce => Some(InboxKind::Boost),
        _ => None,
    }
}

/// Tells from the minimal envelope how the body is to be read.
pub fn inbox_kind(min: &ap::MinimalActivity) -> (r: Option<InboxKind>)
    ensures
        r == kind_of(min.ty),
{
    match min.ty {
        ActivityType::Delete => Some(InboxKind::Delete),
        ActivityType::Follow => Some(InboxKind::Follow),
        ActivityType::Create => Some(InboxKind::Create),
        ActivityType::Like => Some(InboxKind::Like),
        ActivityType::Announce => Some(InboxKind::Boost),
        _ => None,
    }
}

/// The message for the inbound queue: the activity with the local user in
/// whose inbox it arrived.
pub fn inbox_message(activity: Incoming, user: db::User) -> (r: QueueMessage)
    ensures
        r == QueueMessage::Inbound(
            match activity {
                Incoming::Delete(a) => InboxRequest::Delete(a, user),
                Incoming::Follow(a) => InboxRequest::Follow { activity: a, followed: user },
                Incoming::Create(a) => InboxRequest::Create(a, user),
                Incoming::Like(a) => InboxRequest::Like(a, user),
                Incoming::Boost(a) => InboxRequest::Boost(a, user),
            },
        ),
{
    QueueMessage::Inbound(
        match activity {
            Incoming::Delete(a) => InboxRequest::Delete(a, user),
            Incoming::Follow(a) => InboxRequest::Follow { activity: a, followed: user },
            Incoming::Create(a) => InboxRequest::Create(a, user),
            Incoming::Like(a) => InboxRequest::Like(a, user),
            Incoming::Boost(a) => InboxRequest::Boost(a, user),
        },
    )
}

/// The position of the first `c` in `s` at or after `from`, or the length
/// of `s` where there is none.
pub open spec fn position_of(s: Seq<char>, c: char, from: int) -> int
    decreases s.len() - from,
{
    if from < 0 || from >= s.len() {
        s.len() as int
    } else if s[from] == c {
        from
    } else {
        position_of(s, c, from + 1)
    }
}

/// The user name in a webfinger resource `acct:name@host`: what stands
/// between the prefix and the first `@`. `None` where the prefix or the
/// `@` is missing.
pub open spec fn resource_user(resource: Seq<char>) -> Option<Seq<char>> {
    if resource.len() >= 5 && resource.subrange(0, 5) == seq!['a', 'c', 'c', 't', ':'] {
        let at = position_of(resource, '@', 5);
        if at < resource.len() {
            Some(resource.subrange(5, at))
        } else {
            None
        }
    } else {
        None
    }
}

/// Reads the user name out of a webfinger resource.
pub fn webfinger_user(resource: &str) -> (r: Option<String>)
    ensures
        r is Some <==> resource_user(resource@) is Some,
        r matches Some(name) ==> Some(name@) == resource_user(resource@),
{
    let len = resource.unicode_len();
    if len < 5 {
        return None;
    }
    if !(resource.get_char(0) == 'a' && resource.get_char(1) == 'c' && resource.get_char(2) == 'c'
        && resource.get_char(3) == 't' && resource.get_char(4) == ':') {
        assert(resource@.subrange(0, 5)[0] == resource@[0]);
        assert(resource@.subrange(0, 5)[1] == resource@[1]);
        assert(resource@.subrange(0, 5)[2] == resource@[2]);
        assert(resource@.subrange(0, 5)[3] == resource@[3]);
        assert(resource@.subrange(0, 5)[4] == resource@[4]);
        return None;
    }
    assert(resource@.subrange(0, 5) =~= seq!['a', 'c', 'c', 't', ':']);
    let mut i: usize = 5;
    while i < len
        invariant
            5 <= i <= len,
            len == resource@.len(),
            resource@.subrange(0, 5) == seq!['a', 'c', 'c', 't', ':'],
            position_of(resource@, '@', 5) == position_of(resource@, '@', i as int),
        decreases len - i,
    {
        if resource.get_char(i) == '@' {
            let name = resource.substring_char(5, i);
            return Some(String::from_str(name));
        }
        i += 1;
    }
    None
}

/// The answer to a webfinger query for a local user: the user's two
/// addresses as aliases, the profile page and the actor document as links.
pub open spec fn is_webfinger_hit(
    hit: WebfingerHit,
    resource: Seq<char>,
    user: db::User,
    base: Seq<char>,
) -> bool {
    let actor = user_url_text(base, user.id@);
    let page = base + "/"@ + user.username@;
    &&& hit.subject@ == resource
    &&& hit.aliases@.len() == 2
    &&& hit.aliases@[0]@ == actor
    &&& hit.aliases@[1]@ == page
    &&& hit.links@.len() == 2
    &&& hit.links@[0].rel@ == "http://webfinger.net/rel/profile-page"@
    &&& hit.links@[0].ty matches Some(t) && t@ == "text/html"@
    &&& hit.links@[0].href matches Some(h) && h@ == page
    &&& hit.links@[1].rel@ == "self"@
    &&& hit.links@[1].ty matches Some(t) && t@ == "application/activity+json"@
    &&& hit.links@[1].href matches Some(h) && h@ == actor
}

/// Answers a webfinger query for a local user.
pub fn webfinger_hit(resource: &str, user: &db::User, config: &Config) -> (r: WebfingerHit)
    ensures
        is_webfinger_hit(r, resource@, *user, config.base()),
{
    let mut aliases: Vec<String> = Vec::new();
    aliases.push(config.user_url(user.id.0.as_str()));
    aliases.push(config.user_web_url(user.username.as_str()));
    let mut links: Vec<WebfingerLink> = Vec::new();
    links.push(
        WebfingerLink {
            rel: String::from_str("http://webfinger.net/rel/profile-page"),
            ty: Some(String::from_str("text/html")),
            href: Some(config.user_web_url(user.username.as_str())),
        },
    );
    links.push(
        WebfingerLink {
            rel: String::from_str("self"),
            ty: Some(String::from_str("application/activity+json")),
            href: Some(config.user_url(user.id.0.as_str())),
        },
    );
    WebfingerHit { subject: String::from_str(resource), aliases, links }
}

/// The address at which `host` answers webfinger queries for `acct`.
pub fn webfinger_url(host: &str, acct: &str) -> (r: String)
    ensures
        r@ == "https://"@ + host@ + "/.well-known/webfinger?resource=acct:"@ + acct@,
{
    let mut r = String::from_str("https://");
    r.append(host);
    r.append("/.well-known/webfinger?resource=acct:");
    r.append(acct);
    r
}

/// Whether the link points at an actor document.
pub open spec fn is_actor_link(link: WebfingerLink) -> bool {
    link.ty matches Some(t) && t@ == "application/activity+json"@
}

/// The position of the first link at or after `from` that points at an
/// actor document, or the number of links where there is none.
pub open spec fn actor_link_at(links: Seq<WebfingerLink>, from: int) -> int
    decreases links.len() - from,
{
    if from < 0 || from >= links.len() {
        links.len() as int
    } else if is_actor_link(links[from]) {
        from
    } else {
        actor_link_at(links, from + 1)
    }
}

/// The address of the actor document that a webfinger answer points at:
/// that of its first link of the ActivityPub media type. `None` where no
/// link has that type, or the first that has it has no address.
pub fn actor_link(hit: &WebfingerHit) -> (r: Option<String>)
    ensures
        actor_link_at(hit.links@, 0) < hit.links@.len() ==> r == hit.links@[actor_link_at(
            hit.links@,
            0,
        )].href,
        actor_link_at(hit.links@, 0) >= hit.links@.len() ==> r is None,
{
    let wanted = String::from_str("application/activity+json");
    let mut i: usize = 0;
    while i < hit.links.len()
        invariant
            i <= hit.links@.len(),
            wanted@ == "application/activity+json"@,
            actor_link_at(hit.links@, 0) == actor_link_at(hit.links@, i as int),
        decreases hit.links@.len() - i,
    {
        let link = &hit.links[i];
        let matches = match &link.ty {
            Some(ty) => *ty == wanted,
            None => false,
        };
        if matches {
            return match &link.href {
                Some(href) => Some(href.clone()),
                None => None,
            };
        }
        i += 1;
    }
    None
}

/// The user in whose name a request to the client API is made.
#[derive(Debug)]
pub struct AuthenticatedUser {
    pub id: ObjectUuid,
    pub actor_id: ObjectUri,
    pub user: db::User,
    pub username: String,
    pub token: String,
}

/// What a client sends to post a status.
#[derive(Debug, PartialEq, Eq)]
pub struct CreateStatus {
    pub status: String,
}

/// The row of a new status by `user` under the identifier `post_id`,
/// written at `now`.
pub open spec fn status_row(
    req: CreateStatus,
    user: AuthenticatedUser,
    base: Seq<char>,
    post_id: Seq<char>,
    now: Timestamp,
) -> db::PostView {
    db::PostView {
        id: post_id,
        uri: user_url_text(base, user.id@) + "/"@ + post_id,
        user: user.user@,
        content: req.status@,
        created_at: now,
        boosted_post: None,
        attachments: Seq::empty(),
    }
}

/// The post for a new status, under a given identifier and time.
pub fn to_db_post_with(
    req: &CreateStatus,
    user: &AuthenticatedUser,
    config: &Config,
    post_id: String,
    now: Timestamp,
) -> (r: db::Post)
    ensures
        r@ == status_row(*req, *user, config.base(), post_id@, now),
{
    let r = db::Post {
        uri: ObjectUri(config.post_url(user.id.0.as_str(), post_id.as_str())),
        id: ObjectUuid(post_id),
        user: user.user.clone(),
        content: req.status.clone(),
        created_at: now,
        boosted_post: None,
        attachments: Vec::new(),
    };
    assert(r@.attachments =~= Seq::empty());
    r
}

/// The post for a new status, under a fresh identifier, written now.
pub fn to_db_post(req: &CreateStatus, user: &AuthenticatedUser, config: &Config) -> (r: db::Post)
    ensures
        exists|post_id: Seq<char>, now: Timestamp|
            post_id.len() == 36 && now.representable() && r@ == #[trigger] status_row(
                *req,
                *user,
                config.base(),
                post_id,
                now,
            ),
{
    to_db_post_with(req, user, config, crate::new_id(), crate::now())
}

/// The two sides of an account name `name@host`: what stands before the
/// first `@` and what stands after it. `None` where there is no `@`.
pub open spec fn account_sides(account: Seq<char>) -> Option<(Seq<char>, Seq<char>)> {
    let at = position_of(account, '@', 0);
    if at < account.len() {
        Some((account.subrange(0, at), account.subrange(at + 1, account.len() as int)))
    } else {
        None
    }
}

/// Splits an account name at its first `@`.
pub fn account_parts(account: &str) -> (r: Option<(String, String)>)
    ensures
        r is Some <==> account_sides(account@) is Some,
        r matches Some(p) ==> Some((p.0@, p.1@)) == account_sides(account@),
{
    let len = account.unicode_len();
    let mut i: usize = 0;
    while i < len
        invariant
            i <= len,
            len == account@.len(),
            position_of(account@, '@', 0) == position_of(account@, '@', i as int),
        decreases len - i,
    {
        if account.get_char(i) == '@' {
            let name = account.substring_char(0, i);
            let host = account.substring_char(i + 1, len);
            return Some((String::from_str(name), String::from_str(host)));
        }
        i += 1;
    }
    None
}

/// Whether `c` is white space: one of the characters with Unicode's
/// `White_Space` property.
pub open spec fn is_white_space(c: char) -> bool {
    let n = c as u32;
    ||| 0x09 <= n <= 0x0D
    ||| n == 0x20
    ||| n == 0x85
    ||| n == 0xA0
    ||| n == 0x1680
    ||| 0x2000 <= n <= 0x200A
    ||| n == 0x2028
    ||| n == 0x2029
    ||| n == 0x202F
    ||| n == 0x205F
    ||| n == 0x3000
}

/// The text without the white space at its beginning.
pub open spec fn trimmed_start(text: Seq<char>) -> Seq<char>
    decreases text.len(),
{
    if text.len() > 0 && is_white_space(text.first()) {
        trimmed_start(text.drop_first())
    } else {
        text
    }
}

/// The text without the white space at its end.
pub open spec fn trimmed_end(text: Seq<char>) -> Seq<char>
    decreases text.len(),
{
    if text.len() > 0 && is_white_space(text.last()) {
        trimmed_end(text.drop_last())
    } else {
        text
    }
}

/// The text without the white space at its two ends.
pub open spec fn trimmed(text: Seq<char>) -> Seq<char> {
    trimmed_end(trimmed_start(text))
}

/// `str::trim`: the text without its leading and trailing white space,
/// white space being what Unicode's `White_Space` property says.
#[verifier::external_body]
fn trim(text: &str) -> (r: String)
    ensures
        r@ == trimmed(text@),
{
    text.trim().to_string()
}

/// The token in the value of an `Authorization` header: what follows the
/// word `Bearer`, without the white space around it; the whole value where
/// it does not start with that word.
pub open spec fn bearer_text(header: Seq<char>) -> Seq<char> {
    if header.len() >= 6 && header.subrange(0, 6) == seq!['B', 'e', 'a', 'r', 'e', 'r'] {
        trimmed(header.subrange(6, header.len() as int))
    } else {
        header
    }
}

/// Reads the token out of the value of an `Authorization` header.
pub fn bearer_token(header: &str) -> (r: String)
    ensures
        r@ == bearer_text(header@),
{
    let len = header.unicode_len();
    if len >= 6 && header.get_char(0) == 'B' && header.get_char(1) == 'e' && header.get_char(2)
        == 'a' && header.get_char(3) == 'r' && header.get_char(4) == 'e' && header.get_char(5)
        == 'r' {
        assert(header@.subrange(0, 6) =~= seq!['B', 'e', 'a', 'r', 'e', 'r']);
        trim(header.substring_char(6, len))
    } else {
        if len >= 6 {
            assert(header@.subrange(0, 6)[0] == header@[0]);
            assert(header@.subrange(0, 6)[1] == header@[1]);
            assert(header@.subrange(0, 6)[2] == header@[2]);
            assert(header@.subrange(0, 6)[3] == header@[3]);
            assert(header@.subrange(0, 6)[4] == header@[4]);
            assert(header@.subrange(0, 6)[5] == header@[5]);
        }
        String::from_str(header)
    }
}

/// A collection of addresses as an actor publishes it.
#[derive(Debug, PartialEq, Eq)]
pub struct OrderedCollection {
    pub context: ObjectContext,
    pub ty: String,
    pub id: String,
    pub total_items: i64,
    pub ordered_items: Vec<String>,
}

/// Which end of a follow edge a collection lists.
#[derive(Debug, Clone, Copy, PartialEq, Eq, Structural)]
pub enum Side {
    Follower,
    Followed,
}

/// The actor at one end of a follow edge.
pub open spec fn end_of(follow: db::Follow, side: Side) -> Seq<char> {
    match side {
        Side::Follower => follow.follower@,
        Side::Followed => follow.followed@,
    }
}

/// The collection lists, under the address `id`, the actors at the given
/// end of the edges, in order, and says how many they are.
pub open spec fn lists_edges(
    c: OrderedCollection,
    id: Seq<char>,
    edges: Seq<db::Follow>,
    side: Side,
) -> bool {
    &&& c.context matches ObjectContext::Str(s) && s@ == AS_CONTEXT_RAW@
    &&& c.ty@ == "OrderedCollection"@
    &&& c.id@ == id
    &&& c.ordered_items@.len() == edges.len()
    &&& forall|i: int|
        0 <= i < edges.len() ==> (#[trigger] c.ordered_items@[i])@ == end_of(edges[i], side)
    &&& c.total_items == if edges.len() <= i64::MAX {
        edges.len() as int
    } else {
        i64::MAX as int
    }
}

/// The collection of the actors at one end of a list of follow edges.
pub fn edge_collection(id: String, edges: &Vec<db::Follow>, side: Side) -> (r: OrderedCollection)
    ensures
        lists_edges(r, id@, edges@, side),
{
    let mut items: Vec<String> = Vec::new();
    let mut i: usize = 0;
    while i < edges.len()
        invariant
            i <= edges@.len(),
            items@.len() == i,
            forall|j: int| 0 <= j < i ==> (#[trigger] items@[j])@ == end_of(edges@[j], side),
        decreases edges@.len() - i,
    {
        let item = match side {
            Side::Follower => edges[i].follower.0.clone(),
            Side::Followed => edges[i].followed.0.clone(),
        };
        items.push(item);
        i += 1;
    }
    let count: u64 = edges.len() as u64;
    let total_items: i64 = if count <= 0x7fff_ffff_ffff_ffff {
        count as i64
    } else {
        i64::MAX
    };
    OrderedCollection {
        context: as_context(),
        ty: String::from_str("OrderedCollection"),
        id,
        total_items,
        ordered_items: items,
    }
}

} // verus!

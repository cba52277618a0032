use crate::config::{key_id_text, user_url_text, Config};
use crate::types::ap::ActivityType;
use crate::types::{ap, api, as_context, db, Object, ObjectContext, ObjectUri, AS_CONTEXT_RAW};
use vstd::prelude::*;
use vstd::std_specs::convert::FromSpecImpl;
use vstd::string::*;

verus! {

impl FromSpecImpl<db::Actor> for ap::Actor {
    open spec fn obeys_from_spec() -> bool {
        false
    }

    open spec fn from_spec(val: db::Actor) -> ap::Actor {
        arbitrary()
    }
}

impl From<db::Actor> for ap::Actor {
    /// The actor as a document of this server: the same addresses under the
    /// ActivityStreams context.
    fn from(val: db::Actor) -> (r: ap::Actor)
        ensures
            r.obj.id == val.id,
            r.inbox == val.inbox,
            r.outbox == val.outbox,
            r.obj.context matches ObjectContext::Str(s) && s@ == AS_CONTEXT_RAW@,
    {
        ap::Actor { obj: Object { context: as_context(), id: val.id }, inbox: val.inbox, outbox: val.outbox }
    }
}

impl FromSpecImpl<ap::Actor> for db::Actor {
    open spec fn obeys_from_spec() -> bool {
        true
    }

    open spec fn from_spec(val: ap::Actor) -> db::Actor {
        db::Actor { id: val.obj.id, inbox: val.inbox, outbox: val.outbox }
    }
}

impl From<ap::Actor> for db::Actor {
    /// The row for an actor document: its id and its two addresses.
    fn from(val: ap::Actor) -> (r: db::Actor) {
        db::Actor { id: val.obj.id, inbox: val.inbox, outbox: val.outbox }
    }
}

/// The text of an optional timestamp.
pub open spec fn rfc3339_of(at: Option<crate::time::Timestamp>) -> Option<Seq<char>> {
    match at {
        Some(at) => Some(at.rfc3339()),
        None => None,
    }
}

/// The account shows the user: its names and address, its picture in all
/// four places, its times as RFC 3339 text, and nothing counted or listed.
pub open spec fn shows_user(a: api::Account, u: db::UserView) -> bool {
    &&& a.id@ == u.id
    &&& a.username@ == u.username
    &&& a.acct@ == u.acct
    &&& a.display_name@ == u.display_name
    &&& !a.locked
    &&& !a.bot
    &&& a.created_at@ == u.created_at.rfc3339()
    &&& a.attribution_domains@.len() == 0
    &&& a.note@.len() == 0
    &&& a.url@ == u.url
    &&& a.avatar@ == u.icon_url
    &&& a.avatar_static@ == u.icon_url
    &&& a.header@ == u.icon_url
    &&& a.header_static@ == u.icon_url
    &&& a.followers_count == 0
    &&& a.following_count == 0
    &&& a.statuses_count == 0
    &&& db::text_of(a.last_status_at) == rfc3339_of(u.posts.last_post_at)
    &&& a.emojis@.len() == 0
    &&& a.fields@.len() == 0
}

impl FromSpecImpl<db::User> for api::Account {
    open spec fn obeys_from_spec() -> bool {
        false
    }

    open spec fn from_spec(val: db::User) -> api::Account {
        arbitrary()
    }
}

impl From<db::User> for api::Account {
    /// The account that the client API shows for a user.
    fn from(val: db::User) -> (r: api::Account)
        ensures
            shows_user(r, val@),
    {
        let last_status_at = match val.posts.last_post_at {
            Some(at) => Some(at.to_rfc3339()),
            None => None,
        };
        api::Account {
            id: val.id,
            username: val.username,
            acct: val.acct,
            display_name: val.display_name,
            locked: false,
            bot: false,
            created_at: val.created_at.to_rfc3339(),
            attribution_domains: Vec::new(),
            note: String::new(),
            url: val.url,
            avatar: val.icon_url.clone(),
            avatar_static: val.icon_url.clone(),
            header: val.icon_url.clone(),
            header_static: val.icon_url,
            followers_count: 0,
            following_count: 0,
            statuses_count: 0,
            last_status_at,
            emojis: Vec::new(),
            fields: Vec::new(),
        }
    }
}

/// The actor document of the local user: its addresses below the server's
/// base, and the server's public key under the user's key id.
pub open spec fn describes_user(
    p: ap::Person,
    u: db::UserView,
    base: Seq<char>,
    public_key: Seq<char>,
) -> bool {
    let home = user_url_text(base, u.id);
    &&& p.obj.context matches ObjectContext::Str(s) && s@ == AS_CONTEXT_RAW@
    &&& p.obj.id@ == home
    &&& p.ty == ActivityType::Person
    &&& p.following@ == home + "/following"@
    &&& p.followers@ == home + "/followers"@
    &&& p.summary@ == "ferri "@ + u.username
    &&& p.inbox@ == home + "/inbox"@
    &&& p.outbox@ == home + "/outbox"@
    &&& p.preferred_username@ == u.display_name
    &&& p.name@ == u.username
    &&& p.public_key matches Some(key) && key.id@ == key_id_text(base, u.id) && key.owner@ == home
        && key.public_key@ == public_key
    &&& p.icon is None
}

impl ap::Person {
    /// The actor document that this server publishes for a local user.
    pub fn of_user(val: db::User, config: &Config, public_key_pem: &str) -> (r: ap::Person)
        ensures
            describes_user(r, val@, config.base(), public_key_pem@),
    {
        let id = val.id.0.as_str();
        let mut summary = String::from_str("ferri ");
        summary.append(val.username.as_str());
        ap::Person {
            obj: Object { context: as_context(), id: ObjectUri(config.user_url(id)) },
            ty: ActivityType::Person,
            following: config.following_url(id),
            followers: config.followers_url(id),
            summary,
            inbox: config.inbox_url(id),
            outbox: config.outbox_url(id),
            preferred_username: val.display_name,
            name: val.username,
            public_key: Some(
                ap::UserKey {
                    id: config.key_id(id),
                    owner: config.user_url(id),
                    public_key: String::from_str(public_key_pem),
                },
            ),
            icon: None,
        }
    }
}

/// The media entry shows the attachment as an image, described by its
/// alternative text.
pub open spec fn shows_attachment(m: api::StatusAttachment, a: db::AttachmentView) -> bool {
    &&& m.id@ == a.id
    &&& m.ty@ == "image"@
    &&& m.url@ == a.url
    &&& m.description@ == match a.alt {
        Some(alt) => alt,
        None => Seq::empty(),
    }
}

/// The status shows the post: public, in British English, with nothing
/// counted or flagged, its author as an account, its attachments as media,
/// and what it boosts as its reblog.
pub open spec fn shows_post(s: api::Status, p: db::PostView) -> bool
    decreases s,
{
    &&& s.id@ == p.id
    &&& s.created_at@ == p.created_at.rfc3339()
    &&& s.in_reply_to_id is None
    &&& s.in_reply_to_account_id is None
    &&& !s.sensitive
    &&& s.spoiler_text@.len() == 0
    &&& s.visibility@ == "Public"@
    &&& s.language@ == "en-GB"@
    &&& s.uri@ == p.uri
    &&& s.url@ == p.uri
    &&& s.replies_count == 0
    &&& s.reblogs_count == 0
    &&& s.favourites_count == 0
    &&& !s.favourited
    &&& !s.reblogged
    &&& !s.muted
    &&& !s.bookmarked
    &&& s.content@ == p.content
    &&& match s.reblog {
        Some(inner) => p.boosted_post matches Some(original) && shows_post(*inner, *original),
        None => p.boosted_post is None,
    }
    &&& s.application is None
    &&& shows_user(s.account, p.user)
    &&& s.media_attachments@.len() == p.attachments.len()
    &&& forall|i: int|
        0 <= i < p.attachments.len() ==> shows_attachment(
            #[trigger] s.media_attachments@[i],
            p.attachments[i],
        )
    &&& s.mentions@.len() == 0
    &&& s.tags@.len() == 0
    &&& s.emojis@.len() == 0
    &&& s.card is None
    &&& s.poll is None
}

fn media_of(attachments: Vec<db::Attachment>) -> (r: Vec<api::StatusAttachment>)
    ensures
        r@.len() == attachments@.len(),
        forall|i: int|
            0 <= i < attachments@.len() ==> shows_attachment(#[trigger] r@[i], attachments@[i]@),
{
    let mut r: Vec<api::StatusAttachment> = Vec::new();
    let mut i: usize = 0;
    while i < attachments.len()
        invariant
            i <= attachments@.len(),
            r@.len() == i,
            forall|j: int| 0 <= j < i ==> shows_attachment(#[trigger] r@[j], attachments@[j]@),
        decreases attachments@.len() - i,
    {
        let at = &attachments[i];
        let description = match &at.alt {
            Some(alt) => alt.clone(),
            None => String::new(),
        };
        r.push(
            api::StatusAttachment {
                id: at.id.clone(),
                ty: String::from_str("image"),
                url: at.url.clone(),
                description,
            },
        );
        i += 1;
    }
    r
}

/// The status that the client API shows for a post.
pub fn status_of(value: db::Post) -> (r: api::Status)
    ensures
        shows_post(r, value@),
    decreases value,
{
    let reblog = match value.boosted_post {
        Some(inner) => Some(Box::new(status_of(*inner))),
        None => None,
    };
    let url = value.uri.0.clone();
    api::Status {
        id: value.id,
        created_at: value.created_at.to_rfc3339(),
        in_reply_to_id: None,
        in_reply_to_account_id: None,
        sensitive: false,
        spoiler_text: String::new(),
        visibility: String::from_str("Public"),
        language: String::from_str("en-GB"),
        uri: value.uri,
        url,
        replies_count: 0,
        reblogs_count: 0,
        favourites_count: 0,
        favourited: false,
        reblogged: false,
        muted: false,
        bookmarked: false,
        content: value.content,
        reblog,
        application: None,
        account: api::Account::from(value.user),
        media_attachments: media_of(value.attachments),
        mentions: Vec::new(),
        tags: Vec::new(),
        emojis: Vec::new(),
        card: None,
        poll: None,
    }
}

impl FromSpecImpl<db::Post> for api::Status {
    open spec fn obeys_from_spec() -> bool {
        false
    }

    open spec fn from_spec(val: db::Post) -> api::Status {
        arbitrary()
    }
}

impl From<db::Post> for api::Status {
    /// The status that the client API shows for a post.
    fn from(value: db::Post) -> (r: api::Status)
        ensures
            shows_post(r, value@),
    {
        status_of(value)
    }
}

} // verus!

use crate::config::Local;
use crate::config::{user_url_text, Config};
use crate::federation::http::{
    delivery_request, is_load_failure, prepared_as, HttpClient, HttpError, HttpWrapper,
    RequestBuilder, RequestVerb,
};
use crate::fresh::Fresh;
use crate::text::copy_texts;
use crate::time::Timestamp;
use crate::types::ap::{self, ActivityType};
use crate::types::db;
use crate::types::{as_context, DbError, Object, ObjectContext, ObjectUri, AS_CONTEXT_RAW};
use vstd::prelude::*;
use vstd::string::*;

verus! {

/// Something to send to another server.
#[derive(Debug)]
pub enum OutboxRequest {
    /// The acceptance of a follow: the activity, the id of the key that
    /// signs it, and the follower to whose inbox it goes.
    Accept(ap::AcceptActivity, String, ap::Person),
    /// A new local post and the id of the key that signs it.
    Status(db::Post, String),
    /// A local user's wish to follow another actor.
    Follow { follower: db::User, followed: db::User },
}

/// An activity in the envelope in which it goes over the wire.
#[derive(Debug)]
pub struct PreparedActivity<T> {
    pub context: ObjectContext,
    pub id: String,
    pub ty: ActivityType,
    pub actor: String,
    pub object: T,
    pub published: String,
}

/// The two shapes of envelope: one whose object is an address, one whose
/// object is a whole note.
#[derive(Debug)]
pub enum Envelope {
    Reference(PreparedActivity<String>),
    Note(PreparedActivity<ap::Post>),
}

/// The line that the audit table keeps of a dispatched activity.
#[derive(Debug, PartialEq, Eq)]
pub struct AuditRecord {
    pub id: String,
    pub ty: ActivityType,
    pub actor_id: String,
}

/// The address to which everything public is copied.
pub const PUBLIC_COLLECTION: &'static str = "https://www.w3.org/ns/activitystreams#Public";

/// Whether `c` is the context that this server writes.
pub open spec fn is_own_context(c: ObjectContext) -> bool {
    c matches ObjectContext::Str(s) && s@ == AS_CONTEXT_RAW@
}

/// The address under which the post `post_uuid` of the local user
/// `user_uuid` is published.
pub open spec fn published_post_text(base: Seq<char>, user_uuid: Seq<char>, post_uuid: Seq<char>) -> Seq<
    char,
> {
    base + "/users/"@ + user_uuid + "/posts/"@ + post_uuid
}

/// The envelope that accepts a follow: the acceptance as it was composed,
/// stamped with the time of sending.
pub open spec fn is_accept_envelope(
    e: PreparedActivity<String>,
    activity: ap::AcceptActivity,
    published: Seq<char>,
) -> bool {
    &&& e.context == activity.obj.context
    &&& e.id == activity.obj.id.0
    &&& e.ty == activity.ty
    &&& e.actor == activity.actor
    &&& e.object == activity.object
    &&& e.published@ == published
}

/// The envelope that asks to follow: from the follower's actor to the
/// followed one's.
pub open spec fn is_follow_envelope(
    e: PreparedActivity<String>,
    id: Seq<char>,
    follower: db::User,
    followed: db::User,
    published: Seq<char>,
) -> bool {
    &&& is_own_context(e.context)
    &&& e.id@ == id
    &&& e.ty == ActivityType::Follow
    &&& e.actor@ == follower.actor.id@
    &&& e.object@ == followed.actor.id@
    &&& e.published@ == published
}

/// The note that publishes a local post: addressed to the author's
/// followers, copied to the public collection, without attachments.
pub open spec fn is_published_note(note: ap::Post, post: db::Post, base: Seq<char>) -> bool {
    &&& is_own_context(note.obj.context)
    &&& note.obj.id@ == published_post_text(base, post.user.id@, post.id@)
    &&& note.ty == ActivityType::Note
    &&& note.ts@ == post.created_at.rfc3339()
    &&& note.content@ == post.content@
    &&& note.to@.len() == 1
    &&& note.to@[0]@ == crate::config::user_url_text(base, post.user.id@) + "/followers"@
    &&& note.cc@.len() == 1
    &&& note.cc@[0]@ == PUBLIC_COLLECTION@
    &&& note.attachment@.len() == 0
    &&& note.attributed_to matches Some(a) && a@ == post.user.actor.id@
}

/// The envelope that announces a local post: a `Create` by the author whose
/// object is the note.
pub open spec fn is_status_envelope(
    e: PreparedActivity<ap::Post>,
    id: Seq<char>,
    post: db::Post,
    base: Seq<char>,
    published: Seq<char>,
) -> bool {
    &&& is_own_context(e.context)
    &&& e.id@ == id
    &&& e.ty == ActivityType::Create
    &&& e.actor@ == post.user.actor.id@
    &&& is_published_note(e.object, post, base)
    &&& e.published@ == published
}

/// Wraps an acceptance for sending at `at`.
pub fn accept_envelope(activity: ap::AcceptActivity, at: &Timestamp) -> (r: PreparedActivity<
    String,
>)
    ensures
        is_accept_envelope(r, activity, at.rfc3339()),
{
    PreparedActivity {
        context: activity.obj.context,
        id: activity.obj.id.0,
        ty: activity.ty,
        actor: activity.actor,
        object: activity.object,
        published: at.to_rfc3339(),
    }
}

/// Composes the request to follow, under the activity id `id`, for sending
/// at `at`.
pub fn follow_envelope(id: String, follower: &db::User, followed: &db::User, at: &Timestamp) -> (r:
    PreparedActivity<String>)
    ensures
        is_follow_envelope(r, id@, *follower, *followed, at.rfc3339()),
{
    PreparedActivity {
        context: as_context(),
        id,
        ty: ActivityType::Follow,
        actor: follower.actor.id.0.clone(),
        object: followed.actor.id.0.clone(),
        published: at.to_rfc3339(),
    }
}

/// The note that publishes a local post.
pub fn published_note(post: &db::Post, config: &Config) -> (r: ap::Post)
    ensures
        is_published_note(r, *post, config.base()),
{
    let mut uri = config.user_url(post.user.id.0.as_str());
    uri.append("/posts/");
    uri.append(post.id.0.as_str());
    let mut to: Vec<String> = Vec::new();
    to.push(config.followers_url(post.user.id.0.as_str()));
    let mut cc: Vec<String> = Vec::new();
    cc.push(String::from_str(PUBLIC_COLLECTION));
    ap::Post {
        obj: Object { id: ObjectUri(uri), context: as_context() },
        ty: ActivityType::Note,
        ts: post.created_at.to_rfc3339(),
        content: post.content.clone(),
        to,
        cc,
        attachment: Vec::new(),
        attributed_to: Some(post.user.actor.id.0.clone()),
    }
}

/// Composes the announcement of a local post, under the activity id `id`,
/// for sending at `at`.
pub fn status_envelope(id: String, post: &db::Post, local: &Local, at: &Timestamp) -> (r:
    PreparedActivity<ap::Post>)
    ensures
        is_status_envelope(r, id@, *post, local.config.base(), at.rfc3339()),
{
    let note = published_note(post, &local.config);
    PreparedActivity {
        context: as_context(),
        id,
        ty: ActivityType::Create,
        actor: post.user.actor.id.0.clone(),
        object: note,
        published: at.to_rfc3339(),
    }
}

/// Why a dispatch was given up.
#[derive(Debug, PartialEq, Eq)]
pub enum OutboxError {
    /// The data store refused a write.
    Store(DbError),
    /// The activity with the given id could not be delivered; the failure
    /// names the inbox.
    Delivery(HttpError, String),
    /// An event came out of turn, or too few identifiers were drawn.
    Unexpected,
}

/// What the caller is to do next for a dispatch.
#[derive(Debug)]
pub enum OutboxAction {
    /// Persist this follow edge.
    StoreFollow(db::Follow),
    /// Persist this line in the audit table.
    Record(AuditRecord),
    /// Render this envelope as JSON.
    Encode(Envelope),
    /// Send this signed request.
    Send(RequestBuilder),
    /// The last delivery got no answer, or was refused: report the inbox
    /// and the activity. The dispatch stands still; it is taken up again
    /// with `Retry` or ended with `Abandon`.
    Undelivered(HttpError, String),
    /// The dispatch is complete.
    Done,
    /// The dispatch was given up; report why.
    Failed(OutboxError),
}

/// What came of the last action.
#[derive(Debug)]
pub enum OutboxEvent {
    /// The data store's answer to a write.
    Stored(Result<(), DbError>),
    /// The JSON text of the envelope.
    Encoded(String),
    /// The inbox's answer to a delivery, `None` where it gave none in time
    /// or refused.
    Delivered(Option<String>),
    /// The delivery that failed is to be tried again.
    Retry,
    /// The delivery that failed is to be given up for good.
    Abandon,
}

/// How far a dispatch has come.
#[derive(Debug)]
#[allow(inconsistent_fields)]
pub enum OutboxState {
    Finished,
    StoringFollow { record: AuditRecord, envelope: Envelope, inboxes: Vec<String>, key_id: String },
    Recording { envelope: Envelope, inboxes: Vec<String>, key_id: String },
    Encoding { activity: String, inboxes: Vec<String>, key_id: String },
    /// The first `sent` inboxes have been sent to; the answer of the last of
    /// them is awaited.
    Sending { activity: String, body: String, inboxes: Vec<String>, sent: usize, key_id: String },
    /// The delivery to the last of the first `sent` inboxes failed.
    Stalled { activity: String, body: String, inboxes: Vec<String>, sent: usize, key_id: String },
}

/// The id of the activity in an envelope.
pub open spec fn envelope_id(envelope: Envelope) -> String {
    match envelope {
        Envelope::Reference(e) => e.id,
        Envelope::Note(e) => e.id,
    }
}

/// The audit line for an activity.
pub open spec fn is_record(r: AuditRecord, id: Seq<char>, ty: ActivityType, actor_id: Seq<char>) -> bool {
    r.id@ == id && r.ty == ty && r.actor_id@ == actor_id
}

/// The address of the activity `uuid` of this server.
pub open spec fn activity_text(base: Seq<char>, uuid: Seq<char>) -> Seq<char> {
    base + "/activities/"@ + uuid
}

/// What a dispatch starts with. An acceptance is recorded and goes to the
/// follower's inbox. A post is announced under a fresh activity id to the
/// configured peers. A follow is stored as an edge before anything is sent,
/// then goes to the followed actor's inbox under the follower's key.
pub open spec fn outbox_begins(
    req: OutboxRequest,
    local: Local,
    fresh: Fresh,
    next: OutboxState,
    action: OutboxAction,
) -> bool {
    let base = local.config.base();
    match req {
        OutboxRequest::Accept(activity, key_id, person) => {
            &&& action matches OutboxAction::Record(r) && is_record(
                r,
                activity.obj.id@,
                activity.ty,
                person.obj.id@,
            )
            &&& next matches OutboxState::Recording { envelope, inboxes, key_id: k }
            &&& k == key_id
            &&& inboxes@ == seq![person.inbox]
            &&& envelope matches Envelope::Reference(e) && is_accept_envelope(
                e,
                activity,
                fresh.now.rfc3339(),
            )
        },
        OutboxRequest::Status(post, key_id) => {
            if fresh.ids@.len() < 1 {
                next is Finished && action matches OutboxAction::Failed(OutboxError::Unexpected)
            } else {
                let id = activity_text(base, fresh.ids@[0]@);
                &&& action matches OutboxAction::Record(r) && is_record(
                    r,
                    id,
                    ActivityType::Create,
                    user_url_text(base, post.user.id@) + "/followers"@,
                )
                &&& next matches OutboxState::Recording { envelope, inboxes, key_id: k }
                &&& k == key_id
                &&& inboxes@ == local.peers@
                &&& envelope matches Envelope::Note(e) && is_status_envelope(
                    e,
                    id,
                    post,
                    base,
                    fresh.now.rfc3339(),
                )
            }
        },
        OutboxRequest::Follow { follower, followed } => {
            if fresh.ids@.len() < 2 {
                next is Finished && action matches OutboxAction::Failed(OutboxError::Unexpected)
            } else {
                let id = activity_text(base, fresh.ids@[1]@);
                &&& action matches OutboxAction::StoreFollow(f) && f@ == (db::FollowView {
                    id: activity_text(base, fresh.ids@[0]@),
                    follower: follower.actor.id@,
                    followed: followed.actor.id@,
                })
                &&& next matches OutboxState::StoringFollow { record, envelope, inboxes, key_id: k }
                &&& k == follower.key_id
                &&& inboxes@ == seq![followed.actor.inbox]
                &&& is_record(record, id, ActivityType::Follow, followed.actor.id@)
                &&& envelope matches Envelope::Reference(e) && is_follow_envelope(
                    e,
                    id,
                    follower,
                    followed,
                    fresh.now.rfc3339(),
                )
            }
        },
    }
}

/// The outcome of preparing the delivery of `body` to `inbox`: the signed
/// request to send, or the failure where it cannot be made.
pub open spec fn sends_to(
    action: OutboxAction,
    key_pem: Seq<char>,
    key_id: Seq<char>,
    inbox: Seq<char>,
    activity: String,
    body: Seq<char>,
    at: Timestamp,
) -> bool {
    let headers = delivery_request(key_pem, key_id, inbox, body, at);
    match headers {
        Some(_) => action matches OutboxAction::Send(b) && prepared_as(
            Ok(b),
            RequestVerb::POST,
            "Activity"@,
            inbox,
            body,
            headers,
        ),
        None => action matches OutboxAction::Failed(OutboxError::Delivery(e, a)) && is_load_failure(
            e,
            "Activity"@,
            inbox,
        ) && a == activity,
    }
}

/// The delivery to the inbox at position `i`, or the end where there is
/// none left.
pub open spec fn sends_from(
    i: int,
    activity: String,
    body: String,
    inboxes: Vec<String>,
    key_id: String,
    key_pem: Seq<char>,
    at: Timestamp,
    next: OutboxState,
    action: OutboxAction,
) -> bool {
    if 0 <= i < inboxes@.len() {
        &&& sends_to(action, key_pem, key_id@, inboxes@[i]@, activity, body@, at)
        &&& if action is Send {
            next == (OutboxState::Sending {
                activity,
                body,
                inboxes,
                sent: (i + 1) as usize,
                key_id,
            })
        } else {
            next is Finished
        }
    } else {
        next is Finished && action is Done
    }
}

/// How a dispatch goes on. A stored follow edge is followed by the audit
/// line, the audit line by the rendering of the envelope, the text by one
/// signed delivery after another. A delivery that fails leaves the
/// dispatch standing until it is told to try again, under a new
/// signature, or to give up. A refused write or an event out of turn ends
/// the dispatch.
pub open spec fn outbox_continues(
    state: OutboxState,
    event: OutboxEvent,
    key_pem: Seq<char>,
    at: Timestamp,
    next: OutboxState,
    action: OutboxAction,
) -> bool {
    match (state, event) {
        (
            OutboxState::StoringFollow { record, envelope, inboxes, key_id },
            OutboxEvent::Stored(Ok(_)),
        ) => {
            &&& action == OutboxAction::Record(record)
            &&& next == (OutboxState::Recording { envelope, inboxes, key_id })
        },
        (OutboxState::StoringFollow { .. }, OutboxEvent::Stored(Err(e))) => {
            next is Finished && action == OutboxAction::Failed(OutboxError::Store(e))
        },
        (OutboxState::Recording { envelope, inboxes, key_id }, OutboxEvent::Stored(Ok(_))) => {
            &&& action == OutboxAction::Encode(envelope)
            &&& next == (OutboxState::Encoding { activity: envelope_id(envelope), inboxes, key_id })
        },
        (OutboxState::Recording { .. }, OutboxEvent::Stored(Err(e))) => {
            next is Finished && action == OutboxAction::Failed(OutboxError::Store(e))
        },
        (OutboxState::Encoding { activity, inboxes, key_id }, OutboxEvent::Encoded(body)) => {
            sends_from(0, activity, body, inboxes, key_id, key_pem, at, next, action)
        },
        (
            OutboxState::Sending { activity, body, inboxes, sent, key_id },
            OutboxEvent::Delivered(Some(_)),
        ) => sends_from(sent as int, activity, body, inboxes, key_id, key_pem, at, next, action),
        (
            OutboxState::Sending { activity, body, inboxes, sent, key_id },
            OutboxEvent::Delivered(None),
        ) => if 0 < sent <= inboxes@.len() {
            &&& next == (OutboxState::Stalled { activity, body, inboxes, sent, key_id })
            &&& action matches OutboxAction::Undelivered(e, a)
            &&& is_load_failure(e, "Activity"@, inboxes@[sent - 1]@)
            &&& a == activity
        } else {
            next is Finished && action == OutboxAction::Failed(OutboxError::Unexpected)
        },
        (OutboxState::Stalled { activity, body, inboxes, sent, key_id }, OutboxEvent::Retry) => if 0
            < sent <= inboxes@.len() {
            sends_from(sent - 1, activity, body, inboxes, key_id, key_pem, at, next, action)
        } else {
            next is Finished && action == OutboxAction::Failed(OutboxError::Unexpected)
        },
        (OutboxState::Stalled { activity, inboxes, sent, .. }, OutboxEvent::Abandon) => {
            &&& next is Finished
            &&& if 0 < sent <= inboxes@.len() {
                &&& action matches OutboxAction::Failed(OutboxError::Delivery(e, a))
                &&& is_load_failure(e, "Activity"@, inboxes@[sent - 1]@)
                &&& a == activity
            } else {
                action == OutboxAction::Failed(OutboxError::Unexpected)
            }
        },
        _ => next is Finished && action == OutboxAction::Failed(OutboxError::Unexpected),
    }
}

fn send_from(
    i: usize,
    activity: String,
    body: String,
    inboxes: Vec<String>,
    key_id: String,
    client: &HttpClient,
    at: &Timestamp,
) -> (r: (OutboxState, OutboxAction))
    ensures
        sends_from(i as int, activity, body, inboxes, key_id, client.key_pem@, *at, r.0, r.1),
{
    if i < inboxes.len() && i < usize::MAX {
        let wrapper = HttpWrapper::new(client, key_id.as_str());
        match wrapper.post_activity_at(inboxes[i].as_str(), body.clone(), at) {
            Ok(request) => (
                OutboxState::Sending { activity, body, inboxes, sent: i + 1, key_id },
                OutboxAction::Send(request),
            ),
            Err(e) => (
                OutboxState::Finished,
                OutboxAction::Failed(OutboxError::Delivery(e, activity)),
            ),
        }
    } else {
        proof {
            assert(inboxes@.len() <= usize::MAX);
        }
        (OutboxState::Finished, OutboxAction::Done)
    }
}

fn unexpected() -> (r: (OutboxState, OutboxAction))
    ensures
        r.0 is Finished,
        r.1 == OutboxAction::Failed(OutboxError::Unexpected),
{
    (OutboxState::Finished, OutboxAction::Failed(OutboxError::Unexpected))
}

fn id_of(envelope: &Envelope) -> (r: String)
    ensures
        r == envelope_id(*envelope),
{
    match envelope {
        Envelope::Reference(e) => e.id.clone(),
        Envelope::Note(e) => e.id.clone(),
    }
}

/// Starts the dispatch of `req` with the identifiers and the time in
/// `fresh`.
pub fn begin_outbox_request(req: OutboxRequest, local: &Local, fresh: Fresh) -> (r: (
    OutboxState,
    OutboxAction,
))
    ensures
        outbox_begins(req, *local, fresh, r.0, r.1),
{
    match req {
        OutboxRequest::Accept(activity, key_id, person) => {
            let record = AuditRecord {
                id: activity.obj.id.0.clone(),
                ty: activity.ty,
                actor_id: person.obj.id.0.clone(),
            };
            let mut inboxes: Vec<String> = Vec::new();
            inboxes.push(person.inbox);
            assert(inboxes@ =~= seq![person.inbox]);
            let envelope = Envelope::Reference(accept_envelope(activity, &fresh.now));
            (OutboxState::Recording { envelope, inboxes, key_id }, OutboxAction::Record(record))
        },
        OutboxRequest::Status(post, key_id) => {
            if fresh.ids.len() < 1 {
                return (OutboxState::Finished, OutboxAction::Failed(OutboxError::Unexpected));
            }
            let id = local.config.activity_url(fresh.ids[0].as_str());
            let record = AuditRecord {
                id: id.clone(),
                ty: ActivityType::Create,
                actor_id: local.config.followers_url(post.user.id.0.as_str()),
            };
            let envelope = Envelope::Note(status_envelope(id, &post, local, &fresh.now));
            let inboxes = copy_texts(&local.peers);
            (OutboxState::Recording { envelope, inboxes, key_id }, OutboxAction::Record(record))
        },
        OutboxRequest::Follow { follower, followed } => {
            if fresh.ids.len() < 2 {
                return (OutboxState::Finished, OutboxAction::Failed(OutboxError::Unexpected));
            }
            let edge = db::Follow {
                id: ObjectUri(local.config.activity_url(fresh.ids[0].as_str())),
                follower: follower.actor.id.clone(),
                followed: followed.actor.id.clone(),
            };
            let id = local.config.activity_url(fresh.ids[1].as_str());
            let record = AuditRecord {
                id: id.clone(),
                ty: ActivityType::Follow,
                actor_id: followed.actor.id.0.clone(),
            };
            let envelope = Envelope::Reference(
                follow_envelope(id, &follower, &followed, &fresh.now),
            );
            let mut inboxes: Vec<String> = Vec::new();
            inboxes.push(followed.actor.inbox);
            assert(inboxes@ =~= seq![followed.actor.inbox]);
            (
                OutboxState::StoringFollow { record, envelope, inboxes, key_id: follower.key_id },
                OutboxAction::StoreFollow(edge),
            )
        },
    }
}

/// Takes a dispatch one step further on `event`, signing with the client's
/// key as of `at`.
pub fn continue_outbox_request(
    state: OutboxState,
    event: OutboxEvent,
    client: &HttpClient,
    at: &Timestamp,
) -> (r: (OutboxState, OutboxAction))
    ensures
        outbox_continues(state, event, client.key_pem@, *at, r.0, r.1),
{
    match state {
        OutboxState::StoringFollow { record, envelope, inboxes, key_id } => match event {
            OutboxEvent::Stored(Ok(_)) => (
                OutboxState::Recording { envelope, inboxes, key_id },
                OutboxAction::Record(record),
            ),
            OutboxEvent::Stored(Err(e)) => (
                OutboxState::Finished,
                OutboxAction::Failed(OutboxError::Store(e)),
            ),
            _ => unexpected(),
        },
        OutboxState::Recording { envelope, inboxes, key_id } => match event {
            OutboxEvent::Stored(Ok(_)) => {
                let activity = id_of(&envelope);
                (
                    OutboxState::Encoding { activity, inboxes, key_id },
                    OutboxAction::Encode(envelope),
                )
            },
            OutboxEvent::Stored(Err(e)) => (
                OutboxState::Finished,
                OutboxAction::Failed(OutboxError::Store(e)),
            ),
            _ => unexpected(),
        },
        OutboxState::Encoding { activity, inboxes, key_id } => match event {
            OutboxEvent::Encoded(body) => send_from(0, activity, body, inboxes, key_id, client, at),
            _ => unexpected(),
        },
        OutboxState::Sending { activity, body, inboxes, sent, key_id } => match event {
            OutboxEvent::Delivered(Some(_)) => send_from(
                sent,
                activity,
                body,
                inboxes,
                key_id,
                client,
                at,
            ),
            OutboxEvent::Delivered(None) => {
                if 0 < sent && sent <= inboxes.len() {
                    let e = HttpError::LoadFailure(
                        String::from_str("Activity"),
                        inboxes[sent - 1].clone(),
                    );
                    let report = OutboxAction::Undelivered(e, activity.clone());
                    (OutboxState::Stalled { activity, body, inboxes, sent, key_id }, report)
                } else {
                    unexpected()
                }
            },
            _ => unexpected(),
        },
        OutboxState::Stalled { activity, body, inboxes, sent, key_id } => match event {
            OutboxEvent::Retry => {
                if 0 < sent && sent <= inboxes.len() {
                    send_from(sent - 1, activity, body, inboxes, key_id, client, at)
                } else {
                    unexpected()
                }
            },
            OutboxEvent::Abandon => {
                if 0 < sent && sent <= inboxes.len() {
                    let e = HttpError::LoadFailure(
                        String::from_str("Activity"),
                        inboxes[sent - 1].clone(),
                    );
                    (
                        OutboxState::Finished,
                        OutboxAction::Failed(OutboxError::Delivery(e, activity)),
                    )
                } else {
                    unexpected()
                }
            },
            _ => unexpected(),
        },
        OutboxState::Finished => unexpected(),
    }
}

/// Starts the dispatch of `req`: draws two identifiers and reads the clock,
/// then begins as `begin_outbox_request` does with them.
pub fn handle_outbox_request(req: OutboxRequest, local: &Local) -> (r: (OutboxState, OutboxAction))
    ensures
        exists|fresh: Fresh| fresh.drawn(2) && #[trigger] outbox_begins(req, *local, fresh, r.0, r.1),
{
    let fresh = Fresh::draw(2);
    begin_outbox_request(req, local, fresh)
}

} // verus!

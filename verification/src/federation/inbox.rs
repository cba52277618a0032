use crate::config::{default_icon_text, key_id_text, Local};
use crate::federation::http::{
    document_request, is_load_failure, loaded, prepared_as, Fetched, HttpClient, HttpError,
    HttpWrapper, RequestBuilder, RequestVerb,
};
use crate::federation::outbox::{activity_text, is_own_context, OutboxRequest};
use crate::fresh::Fresh;
use crate::time::Timestamp;
use crate::types::ap::{self, ActivityType};
use crate::types::db::{self, text_of};
use crate::types::{as_context, DbError, Object, ObjectUri, ObjectUuid};
use vstd::prelude::*;
use vstd::string::*;

verus! {

/// An activity that arrived in a local user's inbox, with that user.
#[derive(Debug)]
pub enum InboxRequest {
    Delete(ap::DeleteActivity, db::User),
    Follow { activity: ap::FollowActivity, followed: db::User },
    Create(ap::CreateActivity, db::User),
    Like(ap::LikeActivity, db::User),
    Boost(ap::BoostActivity, db::User),
}

/// Why the handling of an activity was given up.
#[derive(Debug, PartialEq, Eq)]
pub enum InboxError {
    /// A remote document could not be loaded or read.
    Fetch(HttpError),
    /// The data store refused a write or failed at a look-up.
    Store(DbError),
    /// An actor's id is no URL with a host.
    Actor,
    /// A time of publication is no RFC 3339 text.
    Timestamp,
    /// A boosted note names no author.
    Unattributed,
    /// An event came out of turn, or too few identifiers were drawn.
    Unexpected,
}

/// What the caller is to do next for an activity.
#[derive(Debug)]
pub enum InboxAction {
    /// Send this request and read the answer as an actor document.
    FetchPerson(RequestBuilder),
    /// Send this request and read the answer as a note.
    FetchNote(RequestBuilder),
    /// Insert this actor unless one with its id exists.
    StoreActor(db::Actor),
    /// Look up the user of this actor.
    FindUser(ObjectUri),
    /// Insert this user unless its actor has one.
    StoreUser(db::User),
    /// Insert this follow edge.
    StoreFollow(db::Follow),
    /// Insert this post, with its attachments, unless one with its address
    /// exists.
    StorePost(db::Post),
    /// Hand this to the outbound queue.
    Enqueue(OutboxRequest),
    /// The activity is of a kind that is recognised and not acted on: note
    /// it in the log. Nothing is left to do.
    Unimplemented(ActivityType),
    /// The activity is handled.
    Done,
    /// The handling was given up; report why.
    Failed(InboxError),
}

/// What came of the last action.
#[derive(Debug)]
pub enum InboxEvent {
    Person(Fetched<ap::Person>),
    Note(Fetched<ap::Post>),
    /// The data store's answer to a write.
    Stored(Result<(), DbError>),
    /// The user that the data store has for the actor, if any, or why the
    /// data store could not say.
    User(Result<Option<db::User>, DbError>),
    /// The outbound queue took the request.
    Enqueued,
}

/// What is written once an actor is resolved to a user.
#[derive(Debug)]
pub enum Draft {
    /// A follow edge towards `followed`, answered by an acceptance of the
    /// activity `activity_id` under the key `key_id`.
    Follow { activity_id: ObjectUri, followed: db::User, key_id: String },
    /// The post for a note.
    Note { note: ap::Post, created_at: Timestamp },
    /// The record of a boost of `original`.
    Boost { uri: ObjectUri, created_at: Timestamp, original: db::Post },
}

/// An actor to resolve and what to write for it.
#[derive(Debug)]
pub struct Job {
    pub person: ap::Person,
    pub info: ap::RemoteInfo,
    pub draft: Draft,
}

/// A boost whose original is not stored yet.
#[derive(Debug)]
pub struct Pending {
    pub person: ap::Person,
    pub info: ap::RemoteInfo,
    pub uri: ObjectUri,
    pub created_at: Timestamp,
}

/// How far the handling of an activity has come. Everything is fetched and
/// checked before the first write.
#[derive(Debug)]
#[allow(inconsistent_fields)]
pub enum InboxState {
    Finished,
    FetchingFollower { activity: ap::FollowActivity, followed: db::User, key_id: String },
    FetchingAuthor { activity: ap::CreateActivity },
    FetchingBooster { activity: ap::BoostActivity, key_id: String },
    FetchingNote { pending: Pending, url: String, key_id: String },
    FetchingOriginalAuthor { pending: Pending, note: ap::Post, created_at: Timestamp, url: String },
    StoringActor { job: Job, then: Option<Pending> },
    FindingUser { job: Job, then: Option<Pending> },
    StoringUser { job: Job, then: Option<Pending>, user: db::User },
    StoringPost { post: db::Post, then: Option<Pending> },
    StoringFollow { reply: OutboxRequest },
    Replying,
}

/// The texts of the drawn identifiers.
pub open spec fn id_texts(fresh: Fresh) -> Seq<Seq<char>> {
    Seq::new(fresh.ids@.len(), |i: int| fresh.ids@[i]@)
}

/// The row of the actor that an actor document describes.
pub open spec fn actor_row(person: ap::Person) -> db::ActorView {
    db::ActorView { id: person.obj.id@, inbox: person.inbox@, outbox: person.outbox@ }
}

/// The row of a user seen for the first time at `now`, under the fresh
/// identifier `id`: named as the actor document says, known as the
/// classification says, with the server's default picture where the
/// document has none.
pub open spec fn user_row(
    person: ap::Person,
    info: ap::RemoteInfo,
    id: Seq<char>,
    now: Timestamp,
    base: Seq<char>,
) -> db::UserView {
    db::UserView {
        id,
        actor: actor_row(person),
        username: person.preferred_username@,
        display_name: person.name@,
        acct: info.acct@,
        remote: info.is_remote,
        url: info.web_url@,
        created_at: now,
        icon_url: match person.icon {
            Some(icon) => icon.url@,
            None => default_icon_text(base),
        },
        posts: db::UserPosts { last_post_at: None },
        key_id: key_id_text(base, id),
    }
}

/// The row of the attachment of the post `post_id` under the identifier
/// `id`.
pub open spec fn attachment_row(
    attachment: ap::PostAttachment,
    id: Seq<char>,
    post_id: Seq<char>,
) -> db::AttachmentView {
    db::AttachmentView {
        id,
        post_id,
        url: attachment.url@,
        media_type: Some(attachment.media_type@),
        sensitive: attachment.sensitive,
        alt: text_of(attachment.summary),
    }
}

/// The row of the post for a note by `user`: keyed by the note's own id,
/// under the first identifier, its attachments under the following ones.
pub open spec fn note_row(
    note: ap::Post,
    created_at: Timestamp,
    user: db::UserView,
    ids: Seq<Seq<char>>,
) -> db::PostView {
    db::PostView {
        id: ids[0],
        uri: note.obj.id@,
        user,
        content: note.content@,
        created_at,
        boosted_post: None,
        attachments: Seq::new(
            note.attachment@.len(),
            |i: int| attachment_row(note.attachment@[i], ids[i + 1], ids[0]),
        ),
    }
}

/// The row that records a boost by `user`: keyed by the activity's id,
/// without content, pointing at the original.
pub open spec fn boost_row(
    uri: Seq<char>,
    created_at: Timestamp,
    original: db::PostView,
    user: db::UserView,
    id: Seq<char>,
) -> db::PostView {
    db::PostView {
        id,
        uri,
        user,
        content: Seq::empty(),
        created_at,
        boosted_post: Some(Box::new(original)),
        attachments: Seq::empty(),
    }
}

/// The acceptance of the follow `activity_id` in the name of `followed`,
/// under the activity id `id`.
pub open spec fn is_acceptance(
    accept: ap::AcceptActivity,
    id: Seq<char>,
    activity_id: Seq<char>,
    followed: db::User,
) -> bool {
    &&& is_own_context(accept.obj.context)
    &&& accept.obj.id@ == id
    &&& accept.ty == ActivityType::Accept
    &&& accept.object@ == activity_id
    &&& accept.actor@ == followed.actor.id@
}

/// The actor row for an actor document.
pub fn actor_of(person: &ap::Person) -> (r: db::Actor)
    ensures
        r@ == actor_row(*person),
{
    db::Actor {
        id: person.obj.id.clone(),
        inbox: person.inbox.clone(),
        outbox: person.outbox.clone(),
    }
}

/// The user row for an actor seen for the first time.
pub fn new_user_of(
    person: &ap::Person,
    info: &ap::RemoteInfo,
    id: &str,
    now: Timestamp,
    local: &Local,
) -> (r: db::User)
    ensures
        r@ == user_row(*person, *info, id@, now, local.config.base()),
{
    let icon_url = match &person.icon {
        Some(icon) => icon.url.clone(),
        None => local.config.default_icon_url(),
    };
    db::User {
        id: ObjectUuid(String::from_str(id)),
        actor: actor_of(person),
        username: person.preferred_username.clone(),
        display_name: person.name.clone(),
        acct: info.acct.clone(),
        remote: info.is_remote,
        url: info.web_url.clone(),
        created_at: now,
        icon_url,
        posts: db::UserPosts { last_post_at: None },
        key_id: local.config.key_id(id),
    }
}

/// The post for a note by `user`. `ids` holds the post's identifier and one
/// more for each attachment; `None` where it holds too few.
pub fn post_of_note(note: &ap::Post, created_at: Timestamp, user: db::User, ids: &Vec<String>) -> (r:
    Option<db::Post>)
    ensures
        r is Some <==> ids@.len() > note.attachment@.len(),
        r matches Some(p) ==> p@ == note_row(
            *note,
            created_at,
            user@,
            Seq::new(ids@.len(), |i: int| ids@[i]@),
        ),
{
    if ids.len() <= note.attachment.len() {
        return None;
    }
    let ghost texts = Seq::new(ids@.len(), |i: int| ids@[i]@);
    let mut attachments: Vec<db::Attachment> = Vec::new();
    let mut i: usize = 0;
    while i < note.attachment.len()
        invariant
            i <= note.attachment@.len(),
            ids@.len() > note.attachment@.len(),
            attachments@.len() == i,
            texts == Seq::new(ids@.len(), |i: int| ids@[i]@),
            forall|j: int|
                0 <= j < i ==> (#[trigger] attachments@[j])@ == attachment_row(
                    note.attachment@[j],
                    texts[j + 1],
                    texts[0],
                ),
        decreases note.attachment@.len() - i,
    {
        let at = &note.attachment[i];
        attachments.push(
            db::Attachment {
                id: ObjectUuid(ids[i + 1].clone()),
                post_id: ObjectUuid(ids[0].clone()),
                url: at.url.clone(),
                media_type: Some(at.media_type.clone()),
                sensitive: at.sensitive,
                alt: db::copy_text(&at.summary),
            },
        );
        i += 1;
    }
    let r = db::Post {
        id: ObjectUuid(ids[0].clone()),
        uri: note.obj.id.clone(),
        user,
        content: note.content.clone(),
        created_at,
        boosted_post: None,
        attachments,
    };
    assert(r@.attachments =~= note_row(*note, created_at, user@, texts).attachments);
    Some(r)
}

/// The record of a boost by `user`.
pub fn boost_of(uri: ObjectUri, created_at: Timestamp, original: db::Post, user: db::User, id: &str) -> (r:
    db::Post)
    ensures
        r@ == boost_row(uri@, created_at, original@, user@, id@),
{
    let r = db::Post {
        id: ObjectUuid(String::from_str(id)),
        uri,
        user,
        content: String::new(),
        created_at,
        boosted_post: Some(Box::new(original)),
        attachments: Vec::new(),
    };
    assert(r@.attachments =~= Seq::empty());
    r
}

/// `info` says what the classification `c` says.
pub open spec fn info_is(info: ap::RemoteInfo, c: (Seq<char>, Seq<char>, bool)) -> bool {
    (info.acct@, info.web_url@, info.is_remote) == c
}

/// The action that asks for the document at `url`, signed under `key_id` as
/// of `at`: the request to send, or the failure where none can be made.
pub open spec fn asks_for(
    action: InboxAction,
    person: bool,
    key_pem: Seq<char>,
    key_id: Seq<char>,
    url: Seq<char>,
    at: Timestamp,
) -> bool {
    let headers = document_request(key_pem, key_id, url, at);
    let ty = if person {
        "Person"@
    } else {
        "Note"@
    };
    match headers {
        Some(_) => if person {
            action matches InboxAction::FetchPerson(b) && prepared_as(
                Ok(b),
                RequestVerb::GET,
                ty,
                url,
                Seq::empty(),
                headers,
            )
        } else {
            action matches InboxAction::FetchNote(b) && prepared_as(
                Ok(b),
                RequestVerb::GET,
                ty,
                url,
                Seq::empty(),
                headers,
            )
        },
        None => action matches InboxAction::Failed(InboxError::Fetch(e)) && is_load_failure(
            e,
            ty,
            url,
        ),
    }
}

/// The action that gives up on a document that did not come.
pub open spec fn gives_up_on<T>(
    fetched: Fetched<T>,
    ty: Seq<char>,
    url: Seq<char>,
    action: InboxAction,
) -> bool {
    match fetched {
        Fetched::Loaded(_) => true,
        Fetched::Unreachable => action matches InboxAction::Failed(InboxError::Fetch(e))
            && is_load_failure(e, ty, url),
        Fetched::Malformed(why) => action matches InboxAction::Failed(
            InboxError::Fetch(HttpError::ParseFailure(t, u, w)),
        ) && t@ == ty && u@ == url && w == why,
    }
}

/// The resolution of `person` begins: the actor is classified, and where it
/// can be, its row is the first thing written.
pub open spec fn resolves(
    person: ap::Person,
    draft: Draft,
    then: Option<Pending>,
    local: Local,
    next: InboxState,
    action: InboxAction,
) -> bool {
    match crate::address::classified(person.obj.id@, person.preferred_username@, local.domain@) {
        None => next is Finished && action == InboxAction::Failed(InboxError::Actor),
        Some(c) => {
            &&& next matches InboxState::StoringActor { job, then: t }
            &&& t == then
            &&& job.person == person
            &&& info_is(job.info, c)
            &&& job.draft == draft
            &&& action matches InboxAction::StoreActor(a) && a@ == actor_row(person)
        },
    }
}

/// What the handling of an activity starts with. A deletion or a like is
/// noted and left alone. For the others the acting person is asked for
/// first, under the key of the local user concerned.
pub open spec fn inbox_begins(
    req: InboxRequest,
    local: Local,
    key_pem: Seq<char>,
    at: Timestamp,
    next: InboxState,
    action: InboxAction,
) -> bool {
    let base = local.config.base();
    match req {
        InboxRequest::Delete(_, _) => next is Finished && action == InboxAction::Unimplemented(
            ActivityType::Delete,
        ),
        InboxRequest::Like(_, _) => next is Finished && action == InboxAction::Unimplemented(
            ActivityType::Like,
        ),
        InboxRequest::Follow { activity, followed } => {
            let key_id = key_id_text(base, followed.id@);
            &&& asks_for(action, true, key_pem, key_id, activity.actor@, at)
            &&& if action is FetchPerson {
                &&& next matches InboxState::FetchingFollower { activity: a, followed: f, key_id: k }
                &&& a == activity
                &&& f == followed
                &&& k@ == key_id
            } else {
                next is Finished
            }
        },
        InboxRequest::Create(activity, user) => {
            let key_id = key_id_text(base, user.id@);
            &&& asks_for(action, true, key_pem, key_id, activity.actor@, at)
            &&& if action is FetchPerson {
                next == (InboxState::FetchingAuthor { activity })
            } else {
                next is Finished
            }
        },
        InboxRequest::Boost(activity, user) => {
            let key_id = key_id_text(base, user.id@);
            &&& asks_for(action, true, key_pem, key_id, activity.actor@, at)
            &&& if action is FetchPerson {
                &&& next matches InboxState::FetchingBooster { activity: a, key_id: k }
                &&& a == activity
                &&& k@ == key_id
            } else {
                next is Finished
            }
        },
    }
}

/// After the booster's document: the boost is held back, and the boosted
/// note is asked for.
pub open spec fn after_booster(
    activity: ap::BoostActivity,
    key_id: String,
    person: ap::Person,
    local: Local,
    key_pem: Seq<char>,
    at: Timestamp,
    next: InboxState,
    action: InboxAction,
) -> bool {
    match crate::address::classified(person.obj.id@, person.preferred_username@, local.domain@) {
        None => next is Finished && action == InboxAction::Failed(InboxError::Actor),
        Some(c) => match Timestamp::parsed(activity.published@) {
            None => next is Finished && action == InboxAction::Failed(InboxError::Timestamp),
            Some(t) => {
                &&& asks_for(action, false, key_pem, key_id@, activity.object@, at)
                &&& if action is FetchNote {
                    &&& next matches InboxState::FetchingNote { pending, url, key_id: k }
                    &&& pending.person == person
                    &&& info_is(pending.info, c)
                    &&& pending.uri == activity.obj.id
                    &&& pending.created_at == t
                    &&& url == activity.object
                    &&& k == key_id
                } else {
                    next is Finished
                }
            },
        },
    }
}

/// After the boosted note: its author is asked for.
pub open spec fn after_note(
    pending: Pending,
    key_id: String,
    note: ap::Post,
    key_pem: Seq<char>,
    at: Timestamp,
    next: InboxState,
    action: InboxAction,
) -> bool {
    match note.attributed_to {
        None => next is Finished && action == InboxAction::Failed(InboxError::Unattributed),
        Some(author) => match Timestamp::parsed(note.ts@) {
            None => next is Finished && action == InboxAction::Failed(InboxError::Timestamp),
            Some(t) => {
                &&& asks_for(action, true, key_pem, key_id@, author@, at)
                &&& if action is FetchPerson {
                    next == (InboxState::FetchingOriginalAuthor {
                        pending,
                        note,
                        created_at: t,
                        url: author,
                    })
                } else {
                    next is Finished
                }
            },
        },
    }
}

/// After the look-up of the actor's user: the user found stays as it is; an
/// actor seen for the first time gets a user under a fresh identifier.
pub open spec fn after_lookup(
    job: Job,
    then: Option<Pending>,
    found: Option<db::User>,
    local: Local,
    fresh: Fresh,
    next: InboxState,
    action: InboxAction,
) -> bool {
    match found {
        Some(user) => {
            &&& next == (InboxState::StoringUser { job, then, user })
            &&& action == InboxAction::StoreUser(user)
        },
        None => if fresh.ids@.len() < 1 {
            next is Finished && action == InboxAction::Failed(InboxError::Unexpected)
        } else {
            &&& next matches InboxState::StoringUser { job: j, then: t, user }
            &&& j == job
            &&& t == then
            &&& user@ == user_row(
                job.person,
                job.info,
                fresh.ids@[0]@,
                fresh.now,
                local.config.base(),
            )
            &&& action == InboxAction::StoreUser(user)
        },
    }
}

/// After the user is stored: what the job was for is written, in the user's
/// name.
pub open spec fn after_user(
    job: Job,
    then: Option<Pending>,
    user: db::User,
    local: Local,
    fresh: Fresh,
    next: InboxState,
    action: InboxAction,
) -> bool {
    let ids = id_texts(fresh);
    let base = local.config.base();
    match job.draft {
        Draft::Note { note, created_at } => if ids.len() <= note.attachment@.len() {
            next is Finished && action == InboxAction::Failed(InboxError::Unexpected)
        } else {
            &&& next matches InboxState::StoringPost { post, then: t }
            &&& t == then
            &&& post@ == note_row(note, created_at, user@, ids)
            &&& action matches InboxAction::StorePost(p) && p@ == post@
        },
        Draft::Boost { uri, created_at, original } => if ids.len() < 1 {
            next is Finished && action == InboxAction::Failed(InboxError::Unexpected)
        } else {
            &&& next matches InboxState::StoringPost { post, then: t }
            &&& t == then
            &&& post@ == boost_row(uri@, created_at, original@, user@, ids[0])
            &&& action matches InboxAction::StorePost(p) && p@ == post@
        },
        Draft::Follow { activity_id, followed, key_id } => if ids.len() < 2 {
            next is Finished && action == InboxAction::Failed(InboxError::Unexpected)
        } else {
            &&& action matches InboxAction::StoreFollow(f) && f@ == (db::FollowView {
                id: activity_text(base, ids[0]),
                follower: job.person.obj.id@,
                followed: followed.actor.id@,
            })
            &&& next matches InboxState::StoringFollow { reply }
            &&& reply matches OutboxRequest::Accept(accept, k, to)
            &&& k == key_id
            &&& to == job.person
            &&& is_acceptance(accept, activity_text(base, ids[1]), activity_id@, followed)
        },
    }
}

/// After a post is stored: a boost that was held back for it is taken up,
/// with the post as its original.
pub open spec fn after_post(
    post: db::Post,
    then: Option<Pending>,
    next: InboxState,
    action: InboxAction,
) -> bool {
    match then {
        None => next is Finished && action is Done,
        Some(p) => {
            &&& next matches InboxState::StoringActor { job, then: t }
            &&& t is None
            &&& job.person == p.person
            &&& job.info == p.info
            &&& job.draft == (Draft::Boost { uri: p.uri, created_at: p.created_at, original: post })
            &&& action matches InboxAction::StoreActor(a) && a@ == actor_row(p.person)
        },
    }
}

/// How the handling of an activity goes on. Documents are fetched and
/// checked first. Then each actor is resolved (its row, the look-up of its
/// user, the user's row) before what refers to it is written, and a reply
/// is handed to the outbound queue only after the write that it answers. A
/// document that did not come, a refused write, a look-up that failed or an
/// event out of turn ends the handling.
pub open spec fn inbox_continues(
    state: InboxState,
    event: InboxEvent,
    local: Local,
    key_pem: Seq<char>,
    fresh: Fresh,
    next: InboxState,
    action: InboxAction,
) -> bool {
    match (state, event) {
        (
            InboxState::FetchingFollower { activity, followed, key_id },
            InboxEvent::Person(fetched),
        ) => match fetched {
            Fetched::Loaded(person) => resolves(
                person,
                Draft::Follow { activity_id: activity.obj.id, followed, key_id },
                None,
                local,
                next,
                action,
            ),
            _ => next is Finished && gives_up_on(fetched, "Person"@, activity.actor@, action),
        },
        (InboxState::FetchingAuthor { activity }, InboxEvent::Person(fetched)) => match fetched {
            Fetched::Loaded(person) => match Timestamp::parsed(activity.ts@) {
                Some(created_at) => resolves(
                    person,
                    Draft::Note { note: activity.object, created_at },
                    None,
                    local,
                    next,
                    action,
                ),
                None => {
                    &&& next is Finished
                    &&& if crate::address::classified(
                        person.obj.id@,
                        person.preferred_username@,
                        local.domain@,
                    ) is None {
                        action == InboxAction::Failed(InboxError::Actor)
                    } else {
                        action == InboxAction::Failed(InboxError::Timestamp)
                    }
                },
            },
            _ => next is Finished && gives_up_on(fetched, "Person"@, activity.actor@, action),
        },
        (InboxState::FetchingBooster { activity, key_id }, InboxEvent::Person(fetched)) => match fetched {
            Fetched::Loaded(person) => after_booster(
                activity,
                key_id,
                person,
                local,
                key_pem,
                fresh.now,
                next,
                action,
            ),
            _ => next is Finished && gives_up_on(fetched, "Person"@, activity.actor@, action),
        },
        (InboxState::FetchingNote { pending, url, key_id }, InboxEvent::Note(fetched)) => match fetched {
            Fetched::Loaded(note) => after_note(
                pending,
                key_id,
                note,
                key_pem,
                fresh.now,
                next,
                action,
            ),
            _ => next is Finished && gives_up_on(fetched, "Note"@, url@, action),
        },
        (
            InboxState::FetchingOriginalAuthor { pending, note, created_at, url },
            InboxEvent::Person(fetched),
        ) => match fetched {
            Fetched::Loaded(person) => resolves(
                person,
                Draft::Note { note, created_at },
                Some(pending),
                local,
                next,
                action,
            ),
            _ => next is Finished && gives_up_on(fetched, "Person"@, url@, action),
        },
        (InboxState::StoringActor { job, then }, InboxEvent::Stored(Ok(_))) => {
            &&& next == (InboxState::FindingUser { job, then })
            &&& action == InboxAction::FindUser(job.person.obj.id)
        },
        (InboxState::FindingUser { job, then }, InboxEvent::User(Ok(found))) => after_lookup(
            job,
            then,
            found,
            local,
            fresh,
            next,
            action,
        ),
        (InboxState::FindingUser { .. }, InboxEvent::User(Err(e))) => {
            next is Finished && action == InboxAction::Failed(InboxError::Store(e))
        },
        (InboxState::StoringUser { job, then, user }, InboxEvent::Stored(Ok(_))) => after_user(
            job,
            then,
            user,
            local,
            fresh,
            next,
            action,
        ),
        (InboxState::StoringPost { post, then }, InboxEvent::Stored(Ok(_))) => after_post(
            post,
            then,
            next,
            action,
        ),
        (InboxState::StoringFollow { reply }, InboxEvent::Stored(Ok(_))) => {
            next is Replying && action == InboxAction::Enqueue(reply)
        },
        (InboxState::Replying, InboxEvent::Enqueued) => next is Finished && action is Done,
        (InboxState::StoringActor { .. }, InboxEvent::Stored(Err(e))) => {
            next is Finished && action == InboxAction::Failed(InboxError::Store(e))
        },
        (InboxState::StoringUser { .. }, InboxEvent::Stored(Err(e))) => {
            next is Finished && action == InboxAction::Failed(InboxError::Store(e))
        },
        (InboxState::StoringPost { .. }, InboxEvent::Stored(Err(e))) => {
            next is Finished && action == InboxAction::Failed(InboxError::Store(e))
        },
        (InboxState::StoringFollow { .. }, InboxEvent::Stored(Err(e))) => {
            next is Finished && action == InboxAction::Failed(InboxError::Store(e))
        },
        _ => next is Finished && action == InboxAction::Failed(InboxError::Unexpected),
    }
}

fn give_up() -> (r: (InboxState, InboxAction))
    ensures
        r.0 is Finished,
        r.1 == InboxAction::Failed(InboxError::Unexpected),
{
    (InboxState::Finished, InboxAction::Failed(InboxError::Unexpected))
}

fn fail(why: InboxError) -> (r: (InboxState, InboxAction))
    ensures
        r.0 is Finished,
        r.1 == InboxAction::Failed(why),
{
    (InboxState::Finished, InboxAction::Failed(why))
}

fn person_or_failure(url: &str, fetched: Fetched<ap::Person>) -> (r: Result<
    ap::Person,
    (InboxState, InboxAction),
>)
    ensures
        fetched matches Fetched::Loaded(p) ==> r matches Ok(q) && q == p,
        !(fetched is Loaded) ==> (r matches Err(e) && e.0 is Finished && gives_up_on(
            fetched,
            "Person"@,
            url@,
            e.1,
        )),
{
    match loaded("Person", url, fetched) {
        Ok(person) => Ok(person),
        Err(e) => Err(fail(InboxError::Fetch(e))),
    }
}

fn ask_for_person(url: &str, key_id: &str, client: &HttpClient, at: &Timestamp) -> (r: InboxAction)
    ensures
        asks_for(r, true, client.key_pem@, key_id@, url@, *at),
{
    match HttpWrapper::new(client, key_id).get_at("Person", url, at) {
        Ok(request) => InboxAction::FetchPerson(request),
        Err(e) => InboxAction::Failed(InboxError::Fetch(e)),
    }
}

fn ask_for_note(url: &str, key_id: &str, client: &HttpClient, at: &Timestamp) -> (r: InboxAction)
    ensures
        asks_for(r, false, client.key_pem@, key_id@, url@, *at),
{
    match HttpWrapper::new(client, key_id).get_at("Note", url, at) {
        Ok(request) => InboxAction::FetchNote(request),
        Err(e) => InboxAction::Failed(InboxError::Fetch(e)),
    }
}

/// Begins the resolution of an actor from its document.
fn resolve_actor(person: ap::Person, draft: Draft, then: Option<Pending>, local: &Local) -> (r: (
    InboxState,
    InboxAction,
))
    ensures
        resolves(person, draft, then, *local, r.0, r.1),
{
    match person.remote_info(local.domain.as_str()) {
        Some(info) => {
            let actor = actor_of(&person);
            (
                InboxState::StoringActor { job: Job { person, info, draft }, then },
                InboxAction::StoreActor(actor),
            )
        },
        None => fail(InboxError::Actor),
    }
}

/// Starts the handling of `req`, signing with the client's key as of `at`.
pub fn begin_inbox_request(req: InboxRequest, local: &Local, client: &HttpClient, at: &Timestamp) -> (r:
    (InboxState, InboxAction))
    ensures
        inbox_begins(req, *local, client.key_pem@, *at, r.0, r.1),
{
    match req {
        InboxRequest::Delete(_, _) => (
            InboxState::Finished,
            InboxAction::Unimplemented(ActivityType::Delete),
        ),
        InboxRequest::Like(_, _) => (
            InboxState::Finished,
            InboxAction::Unimplemented(ActivityType::Like),
        ),
        InboxRequest::Follow { activity, followed } => {
            let key_id = local.config.key_id(followed.id.0.as_str());
            let action = ask_for_person(activity.actor.as_str(), key_id.as_str(), client, at);
            match action {
                InboxAction::FetchPerson(_) => (
                    InboxState::FetchingFollower { activity, followed, key_id },
                    action,
                ),
                _ => (InboxState::Finished, action),
            }
        },
        InboxRequest::Create(activity, user) => {
            let key_id = local.config.key_id(user.id.0.as_str());
            let action = ask_for_person(activity.actor.as_str(), key_id.as_str(), client, at);
            match action {
                InboxAction::FetchPerson(_) => (InboxState::FetchingAuthor { activity }, action),
                _ => (InboxState::Finished, action),
            }
        },
        InboxRequest::Boost(activity, user) => {
            let key_id = local.config.key_id(user.id.0.as_str());
            let action = ask_for_person(activity.actor.as_str(), key_id.as_str(), client, at);
            match action {
                InboxAction::FetchPerson(_) => (
                    InboxState::FetchingBooster { activity, key_id },
                    action,
                ),
                _ => (InboxState::Finished, action),
            }
        },
    }
}

fn continue_after_booster(
    activity: ap::BoostActivity,
    key_id: String,
    person: ap::Person,
    local: &Local,
    client: &HttpClient,
    at: &Timestamp,
) -> (r: (InboxState, InboxAction))
    ensures
        after_booster(activity, key_id, person, *local, client.key_pem@, *at, r.0, r.1),
{
    let info = match person.remote_info(local.domain.as_str()) {
        Some(info) => info,
        None => return fail(InboxError::Actor),
    };
    let created_at = match Timestamp::parse_from_rfc3339(activity.published.as_str()) {
        Some(created_at) => created_at,
        None => return fail(InboxError::Timestamp),
    };
    let action = ask_for_note(activity.object.as_str(), key_id.as_str(), client, at);
    match action {
        InboxAction::FetchNote(_) => {
            let pending = Pending { person, info, uri: activity.obj.id, created_at };
            (InboxState::FetchingNote { pending, url: activity.object, key_id }, action)
        },
        _ => (InboxState::Finished, action),
    }
}

fn continue_after_note(
    pending: Pending,
    key_id: String,
    note: ap::Post,
    client: &HttpClient,
    at: &Timestamp,
) -> (r: (InboxState, InboxAction))
    ensures
        after_note(pending, key_id, note, client.key_pem@, *at, r.0, r.1),
{
    let url = match &note.attributed_to {
        Some(author) => author.clone(),
        None => return fail(InboxError::Unattributed),
    };
    let created_at = match Timestamp::parse_from_rfc3339(note.ts.as_str()) {
        Some(created_at) => created_at,
        None => return fail(InboxError::Timestamp),
    };
    let action = ask_for_person(url.as_str(), key_id.as_str(), client, at);
    match action {
        InboxAction::FetchPerson(_) => (
            InboxState::FetchingOriginalAuthor { pending, note, created_at, url },
            action,
        ),
        _ => (InboxState::Finished, action),
    }
}

fn continue_after_lookup(
    job: Job,
    then: Option<Pending>,
    found: Option<db::User>,
    local: &Local,
    fresh: &Fresh,
) -> (r: (InboxState, InboxAction))
    ensures
        after_lookup(job, then, found, *local, *fresh, r.0, r.1),
{
    let user = match found {
        Some(user) => user,
        None => {
            if fresh.ids.len() < 1 {
                return give_up();
            }
            new_user_of(&job.person, &job.info, fresh.ids[0].as_str(), fresh.now, local)
        },
    };
    let copy = user.clone();
    (InboxState::StoringUser { job, then, user }, InboxAction::StoreUser(copy))
}

fn continue_after_user(
    job: Job,
    then: Option<Pending>,
    user: db::User,
    local: &Local,
    fresh: &Fresh,
) -> (r: (InboxState, InboxAction))
    ensures
        after_user(job, then, user, *local, *fresh, r.0, r.1),
{
    let Job { person, info, draft } = job;
    match draft {
        Draft::Note { note, created_at } => {
            match post_of_note(&note, created_at, user, &fresh.ids) {
                Some(post) => {
                    let copy = post.clone();
                    (InboxState::StoringPost { post, then }, InboxAction::StorePost(copy))
                },
                None => give_up(),
            }
        },
        Draft::Boost { uri, created_at, original } => {
            if fresh.ids.len() < 1 {
                return give_up();
            }
            let post = boost_of(uri, created_at, original, user, fresh.ids[0].as_str());
            let copy = post.clone();
            (InboxState::StoringPost { post, then }, InboxAction::StorePost(copy))
        },
        Draft::Follow { activity_id, followed, key_id } => {
            if fresh.ids.len() < 2 {
                return give_up();
            }
            let edge = db::Follow {
                id: ObjectUri(local.config.activity_url(fresh.ids[0].as_str())),
                follower: person.obj.id.clone(),
                followed: followed.actor.id.clone(),
            };
            let accept = ap::AcceptActivity {
                obj: Object {
                    context: as_context(),
                    id: ObjectUri(local.config.activity_url(fresh.ids[1].as_str())),
                },
                ty: ActivityType::Accept,
                object: activity_id.0.clone(),
                actor: followed.actor.id.0.clone(),
            };
            (
                InboxState::StoringFollow { reply: OutboxRequest::Accept(accept, key_id, person) },
                InboxAction::StoreFollow(edge),
            )
        },
    }
}

fn continue_after_post(post: db::Post, then: Option<Pending>) -> (r: (InboxState, InboxAction))
    ensures
        after_post(post, then, r.0, r.1),
{
    match then {
        None => (InboxState::Finished, InboxAction::Done),
        Some(pending) => {
            let Pending { person, info, uri, created_at } = pending;
            let actor = actor_of(&person);
            let job = Job { person, info, draft: Draft::Boost { uri, created_at, original: post } };
            (InboxState::StoringActor { job, then: None }, InboxAction::StoreActor(actor))
        },
    }
}

/// Takes the handling of an activity one step further on `event`, with the
/// identifiers and the time in `fresh`, signing with the client's key.
pub fn continue_inbox_request(
    state: InboxState,
    event: InboxEvent,
    local: &Local,
    client: &HttpClient,
    fresh: &Fresh,
) -> (r: (InboxState, InboxAction))
    ensures
        inbox_continues(state, event, *local, client.key_pem@, *fresh, r.0, r.1),
{
    match state {
        InboxState::FetchingFollower { activity, followed, key_id } => match event {
            InboxEvent::Person(fetched) => {
                match person_or_failure(activity.actor.as_str(), fetched) {
                    Ok(person) => resolve_actor(
                        person,
                        Draft::Follow { activity_id: activity.obj.id, followed, key_id },
                        None,
                        local,
                    ),
                    Err(failure) => failure,
                }
            },
            _ => give_up(),
        },
        InboxState::FetchingAuthor { activity } => match event {
            InboxEvent::Person(fetched) => {
                match person_or_failure(activity.actor.as_str(), fetched) {
                    Ok(person) => {
                        if person.remote_info(local.domain.as_str()).is_none() {
                            return fail(InboxError::Actor);
                        }
                        match Timestamp::parse_from_rfc3339(activity.ts.as_str()) {
                            Some(created_at) => resolve_actor(
                                person,
                                Draft::Note { note: activity.object, created_at },
                                None,
                                local,
                            ),
                            None => fail(InboxError::Timestamp),
                        }
                    },
                    Err(failure) => failure,
                }
            },
            _ => give_up(),
        },
        InboxState::FetchingBooster { activity, key_id } => match event {
            InboxEvent::Person(fetched) => {
                match person_or_failure(activity.actor.as_str(), fetched) {
                    Ok(person) => continue_after_booster(
                        activity,
                        key_id,
                        person,
                        local,
                        client,
                        &fresh.now,
                    ),
                    Err(failure) => failure,
                }
            },
            _ => give_up(),
        },
        InboxState::FetchingNote { pending, url, key_id } => match event {
            InboxEvent::Note(fetched) => match loaded("Note", url.as_str(), fetched) {
                Ok(note) => continue_after_note(pending, key_id, note, client, &fresh.now),
                Err(e) => fail(InboxError::Fetch(e)),
            },
            _ => give_up(),
        },
        InboxState::FetchingOriginalAuthor { pending, note, created_at, url } => match event {
            InboxEvent::Person(fetched) => match person_or_failure(url.as_str(), fetched) {
                Ok(person) => resolve_actor(
                    person,
                    Draft::Note { note, created_at },
                    Some(pending),
                    local,
                ),
                Err(failure) => failure,
            },
            _ => give_up(),
        },
        InboxState::StoringActor { job, then } => match event {
            InboxEvent::Stored(Ok(_)) => {
                let actor = job.person.obj.id.clone();
                (InboxState::FindingUser { job, then }, InboxAction::FindUser(actor))
            },
            InboxEvent::Stored(Err(e)) => fail(InboxError::Store(e)),
            _ => give_up(),
        },
        InboxState::FindingUser { job, then } => match event {
            InboxEvent::User(Ok(found)) => continue_after_lookup(job, then, found, local, fresh),
            InboxEvent::User(Err(e)) => fail(InboxError::Store(e)),
            _ => give_up(),
        },
        InboxState::StoringUser { job, then, user } => match event {
            InboxEvent::Stored(Ok(_)) => continue_after_user(job, then, user, local, fresh),
            InboxEvent::Stored(Err(e)) => fail(InboxError::Store(e)),
            _ => give_up(),
        },
        InboxState::StoringPost { post, then } => match event {
            InboxEvent::Stored(Ok(_)) => continue_after_post(post, then),
            InboxEvent::Stored(Err(e)) => fail(InboxError::Store(e)),
            _ => give_up(),
        },
        InboxState::StoringFollow { reply } => match event {
            InboxEvent::Stored(Ok(_)) => (InboxState::Replying, InboxAction::Enqueue(reply)),
            InboxEvent::Stored(Err(e)) => fail(InboxError::Store(e)),
            _ => give_up(),
        },
        InboxState::Replying => match event {
            InboxEvent::Enqueued => (InboxState::Finished, InboxAction::Done),
            _ => give_up(),
        },
        InboxState::Finished => give_up(),
    }
}

/// How many identifiers the step from `state` can need.
pub fn ids_needed(state: &InboxState) -> (r: usize)
    ensures
        r == identifiers_for(*state),
{
    match state {
        InboxState::FindingUser { .. } => 1,
        InboxState::StoringUser { job, .. } => match &job.draft {
            Draft::Note { note, .. } => {
                if note.attachment.len() < usize::MAX {
                    note.attachment.len() + 1
                } else {
                    usize::MAX
                }
            },
            Draft::Boost { .. } => 1,
            Draft::Follow { .. } => 2,
        },
        _ => 0,
    }
}

/// The number of identifiers that the step from `state` can need: one for a
/// new user, one for a post and each of its attachments, two for a follow
/// and its acceptance.
pub open spec fn identifiers_for(state: InboxState) -> int {
    match state {
        InboxState::FindingUser { .. } => 1,
        InboxState::StoringUser { job, .. } => match job.draft {
            Draft::Note { note, .. } => if note.attachment@.len() < usize::MAX {
                (note.attachment@.len() + 1) as int
            } else {
                usize::MAX as int
            },
            Draft::Boost { .. } => 1,
            Draft::Follow { .. } => 2,
        },
        _ => 0,
    }
}

/// Starts the handling of `req` as of now.
pub fn handle_inbox_request(req: InboxRequest, local: &Local, http: &HttpClient) -> (r: (
    InboxState,
    InboxAction,
))
    ensures
        exists|at: Timestamp|
            at.representable() && #[trigger] inbox_begins(req, *local, http.key_pem@, at, r.0, r.1),
{
    let at = Timestamp::now();
    begin_inbox_request(req, local, http, &at)
}

/// Takes the handling of an activity one step further on `event`: draws
/// the identifiers that the step can need and reads the clock, then goes on
/// as `continue_inbox_request` does with them.
pub fn step_inbox_request(state: InboxState, event: InboxEvent, local: &Local, http: &HttpClient) -> (r:
    (InboxState, InboxAction))
    ensures
        exists|fresh: Fresh|
            fresh.drawn(identifiers_for(state)) && #[trigger] inbox_continues(
                state,
                event,
                *local,
                http.key_pem@,
                fresh,
                r.0,
                r.1,
            ),
{
    let fresh = Fresh::draw(ids_needed(&state));
    continue_inbox_request(state, event, local, http, &fresh)
}

} // verus!

use crate::config::{key_id_text, Config};
use crate::time::Timestamp;
use crate::types::db::{self, attachment_rows, text_of};
use crate::types::{DbError, ObjectUri, ObjectUuid};
use vstd::prelude::*;
use vstd::string::*;

verus! {

/// A user as the data store hands it out, joined with its actor.
#[derive(Debug, PartialEq, Eq)]
pub struct UserRecord {
    pub user_id: String,
    pub username: String,
    pub actor_id: String,
    pub display_name: String,
    pub inbox: String,
    pub outbox: String,
    pub url: String,
    pub acct: String,
    pub remote: bool,
    pub created_at: String,
    pub icon_url: String,
}

/// An attachment as the data store hands it out.
#[derive(Debug, PartialEq, Eq)]
pub struct AttachmentRecord {
    pub id: String,
    pub post_id: String,
    pub url: String,
    pub media_type: String,
    pub marked_sensitive: bool,
    pub alt: Option<String>,
}

/// A post as the data store hands it out, joined with its author and with
/// its attachments.
#[derive(Debug, PartialEq, Eq)]
pub struct PostRecord {
    pub post_id: String,
    pub post_uri: String,
    pub content: String,
    pub post_created: String,
    pub boosted_post_id: Option<String>,
    pub user: UserRecord,
    pub attachments: Vec<AttachmentRecord>,
}

/// A line of the home timeline's query: a post, and whether it is there
/// only because a post of the timeline boosts it.
#[derive(Debug, PartialEq, Eq)]
pub struct TimelineRecord {
    pub is_boost_source: bool,
    pub post: PostRecord,
}

/// The user that a record stands for, with the time of its last post as
/// given; `None` where the record's time of creation cannot be read.
pub open spec fn user_of_record(
    record: UserRecord,
    last_post_at: Option<Timestamp>,
    base: Seq<char>,
) -> Option<db::UserView> {
    match Timestamp::stored(record.created_at@) {
        Some(created_at) => Some(
            db::UserView {
                id: record.user_id@,
                actor: db::ActorView {
                    id: record.actor_id@,
                    inbox: record.inbox@,
                    outbox: record.outbox@,
                },
                username: record.username@,
                display_name: record.display_name@,
                acct: record.acct@,
                remote: record.remote,
                url: record.url@,
                created_at,
                icon_url: record.icon_url@,
                posts: db::UserPosts { last_post_at },
                key_id: key_id_text(base, record.user_id@),
            },
        ),
        None => None,
    }
}

/// The attachment that a record stands for.
pub open spec fn attachment_of_record(record: AttachmentRecord) -> db::AttachmentView {
    db::AttachmentView {
        id: record.id@,
        post_id: record.post_id@,
        url: record.url@,
        media_type: Some(record.media_type@),
        sensitive: record.marked_sensitive,
        alt: text_of(record.alt),
    }
}

/// The post that a record stands for, without what it boosts; `None` where
/// one of the record's times cannot be read.
pub open spec fn post_of_record(record: PostRecord, base: Seq<char>) -> Option<db::PostView> {
    match (user_of_record(record.user, None, base), Timestamp::stored(record.post_created@)) {
        (Some(user), Some(created_at)) => Some(
            db::PostView {
                id: record.post_id@,
                uri: record.post_uri@,
                user,
                content: record.content@,
                created_at,
                boosted_post: None,
                attachments: Seq::new(
                    record.attachments@.len(),
                    |i: int| attachment_of_record(record.attachments@[i]),
                ),
            },
        ),
        _ => None,
    }
}

/// The first line at or after `from` that holds the post `id`, or the
/// number of lines where there is none.
pub open spec fn line_of(rows: Seq<TimelineRecord>, id: Seq<char>, from: int) -> int
    decreases rows.len() - from,
{
    if from < 0 || from >= rows.len() {
        rows.len() as int
    } else if rows[from].post.post_id@ == id {
        from
    } else {
        line_of(rows, id, from + 1)
    }
}

/// The post of line `i` as the timeline shows it: with the post that it
/// boosts, if any, one level deep. `None` where a record cannot be read or
/// the boosted post is not among the lines.
pub open spec fn timeline_entry(rows: Seq<TimelineRecord>, i: int, base: Seq<char>) -> Option<
    db::PostView,
> {
    match post_of_record(rows[i].post, base) {
        Some(post) => match rows[i].post.boosted_post_id {
            None => Some(post),
            Some(boosted) => {
                let at = line_of(rows, boosted@, 0);
                if at < rows.len() {
                    match post_of_record(rows[at].post, base) {
                        Some(original) => Some(
                            db::PostView { boosted_post: Some(Box::new(original)), ..post },
                        ),
                        None => None,
                    }
                } else {
                    None
                }
            },
        },
        None => None,
    }
}

/// The home timeline of the first `n` lines: the posts of the lines that
/// are not there as boost sources only, in order. `None` where one of
/// those `n` lines cannot be shown.
pub open spec fn timeline_of(rows: Seq<TimelineRecord>, n: int, base: Seq<char>) -> Option<
    Seq<db::PostView>,
>
    decreases n,
{
    if n <= 0 {
        Some(Seq::empty())
    } else {
        match (timeline_of(rows, n - 1, base), timeline_entry(rows, n - 1, base)) {
            (Some(before), Some(entry)) => if rows[n - 1].is_boost_source {
                Some(before)
            } else {
                Some(before.push(entry))
            },
            _ => None,
        }
    }
}

/// The rows that a list of posts stands for, in order.
pub open spec fn post_rows(list: Seq<db::Post>) -> Seq<db::PostView> {
    Seq::new(list.len(), |i: int| list[i]@)
}

/// Reads a timestamp as the data store hands it out; `None` where the text
/// is neither in the store's own form nor RFC 3339.
pub fn parse_ts(ts: &str) -> (r: Option<Timestamp>)
    ensures
        r == Timestamp::stored(ts@),
{
    Timestamp::parse_stored(ts)
}

/// The user of a record. `last_post_at` is the time of the user's last
/// post as the store gives it, if it gave one; a time that cannot be read
/// counts as none. An unreadable time of creation is an error.
pub fn user_from_record(record: &UserRecord, last_post_at: Option<&str>, config: &Config) -> (r:
    Result<db::User, DbError>)
    ensures
        r is Ok <==> Timestamp::stored(record.created_at@) is Some,
        r matches Ok(user) ==> Some(user@) == user_of_record(
            *record,
            match last_post_at {
                Some(ts) => Timestamp::stored(ts@),
                None => None,
            },
            config.base(),
        ),
        r matches Err(e) ==> e is FetchError,
{
    let created_at = match parse_ts(record.created_at.as_str()) {
        Some(created_at) => created_at,
        None => return Err(DbError::FetchError(record.created_at.clone())),
    };
    let last_post_at = match last_post_at {
        Some(ts) => parse_ts(ts),
        None => None,
    };
    Ok(
        db::User {
            id: ObjectUuid(record.user_id.clone()),
            actor: db::Actor {
                id: ObjectUri(record.actor_id.clone()),
                inbox: record.inbox.clone(),
                outbox: record.outbox.clone(),
            },
            username: record.username.clone(),
            display_name: record.display_name.clone(),
            acct: record.acct.clone(),
            remote: record.remote,
            url: record.url.clone(),
            created_at,
            icon_url: record.icon_url.clone(),
            posts: db::UserPosts { last_post_at },
            key_id: config.key_id(record.user_id.as_str()),
        },
    )
}

/// The attachments of a list of records, in order.
pub fn attachments_from_records(records: &Vec<AttachmentRecord>) -> (r: Vec<db::Attachment>)
    ensures
        attachment_rows(r@) == Seq::new(
            records@.len(),
            |i: int| attachment_of_record(records@[i]),
        ),
{
    let mut r: Vec<db::Attachment> = Vec::new();
    let mut i: usize = 0;
    while i < records.len()
        invariant
            i <= records@.len(),
            r@.len() == i,
            forall|j: int| 0 <= j < i ==> (#[trigger] r@[j])@ == attachment_of_record(records@[j]),
        decreases records@.len() - i,
    {
        let record = &records[i];
        r.push(
            db::Attachment {
                id: ObjectUuid(record.id.clone()),
                post_id: ObjectUuid(record.post_id.clone()),
                url: record.url.clone(),
                media_type: Some(record.media_type.clone()),
                sensitive: record.marked_sensitive,
                alt: db::copy_text(&record.alt),
            },
        );
        i += 1;
    }
    assert(attachment_rows(r@) =~= Seq::new(
        records@.len(),
        |i: int| attachment_of_record(records@[i]),
    ));
    r
}

/// The post of a record, without what it boosts. An unreadable time is an
/// error.
pub fn post_from_record(record: &PostRecord, config: &Config) -> (r: Result<db::Post, DbError>)
    ensures
        r is Ok <==> post_of_record(*record, config.base()) is Some,
        r matches Ok(post) ==> Some(post@) == post_of_record(*record, config.base()),
        r matches Err(e) ==> e is FetchError,
{
    let user = user_from_record(&record.user, None, config)?;
    let created_at = match parse_ts(record.post_created.as_str()) {
        Some(created_at) => created_at,
        None => return Err(DbError::FetchError(record.post_created.clone())),
    };
    let post = db::Post {
        id: ObjectUuid(record.post_id.clone()),
        uri: ObjectUri(record.post_uri.clone()),
        user,
        content: record.content.clone(),
        created_at,
        boosted_post: None,
        attachments: attachments_from_records(&record.attachments),
    };
    Ok(post)
}

/// The posts of a list of records, in order; the first unreadable record
/// is an error.
pub fn posts_from_records(records: &Vec<PostRecord>, config: &Config) -> (r: Result<
    Vec<db::Post>,
    DbError,
>)
    ensures
        r is Ok <==> forall|i: int|
            0 <= i < records@.len() ==> post_of_record(#[trigger] records@[i], config.base())
                is Some,
        r matches Ok(posts) ==> posts@.len() == records@.len() && forall|i: int|
            0 <= i < records@.len() ==> Some((#[trigger] posts@[i])@) == post_of_record(
                records@[i],
                config.base(),
            ),
        r matches Err(e) ==> e is FetchError,
{
    let mut out: Vec<db::Post> = Vec::new();
    let mut i: usize = 0;
    while i < records.len()
        invariant
            i <= records@.len(),
            out@.len() == i,
            forall|j: int|
                0 <= j < i ==> Some((#[trigger] out@[j])@) == post_of_record(
                    records@[j],
                    config.base(),
                ),
        decreases records@.len() - i,
    {
        match post_from_record(&records[i], config) {
            Ok(post) => out.push(post),
            Err(e) => {
                assert(post_of_record(records@[i as int], config.base()) is None);
                return Err(e);
            },
        }
        i += 1;
    }
    assert forall|i: int| 0 <= i < records@.len() implies post_of_record(
        #[trigger] records@[i],
        config.base(),
    ) is Some by {
        assert(Some(out@[i]@) == post_of_record(records@[i], config.base()));
    }
    Ok(out)
}

fn find_line(rows: &Vec<TimelineRecord>, id: &String) -> (r: usize)
    ensures
        r == line_of(rows@, id@, 0),
        r <= rows@.len(),
{
    let mut i: usize = 0;
    while i < rows.len()
        invariant
            i <= rows@.len(),
            line_of(rows@, id@, 0) == line_of(rows@, id@, i as int),
        decreases rows@.len() - i,
    {
        if rows[i].post.post_id == *id {
            return i;
        }
        i += 1;
    }
    i
}

fn entry_from_records(rows: &Vec<TimelineRecord>, i: usize, config: &Config) -> (r: Result<
    db::Post,
    DbError,
>)
    requires
        i < rows@.len(),
    ensures
        r is Ok <==> timeline_entry(rows@, i as int, config.base()) is Some,
        r matches Ok(post) ==> Some(post@) == timeline_entry(rows@, i as int, config.base()),
        r matches Err(e) ==> e is FetchError,
{
    let mut post = post_from_record(&rows[i].post, config)?;
    match &rows[i].post.boosted_post_id {
        None => Ok(post),
        Some(boosted) => {
            let at = find_line(rows, boosted);
            if at >= rows.len() {
                return Err(DbError::FetchError(boosted.clone()));
            }
            let original = post_from_record(&rows[at].post, config)?;
            let ghost plain = post@;
            post.boosted_post = Some(Box::new(original));
            assert(post@ == (db::PostView { boosted_post: Some(Box::new(original@)), ..plain }));
            Ok(post)
        },
    }
}

/// The home timeline from the lines of its query: every post that is there
/// for its own sake, in the order of the lines, each with the post that it
/// boosts. A line that cannot be read, or a boost whose original is not
/// among the lines, is an error.
pub fn home_timeline(rows: &Vec<TimelineRecord>, config: &Config) -> (r: Result<
    Vec<db::Post>,
    DbError,
>)
    ensures
        r is Ok <==> timeline_of(rows@, rows@.len() as int, config.base()) is Some,
        r matches Ok(posts) ==> Some(post_rows(posts@)) == timeline_of(
            rows@,
            rows@.len() as int,
            config.base(),
        ),
        r matches Err(e) ==> e is FetchError,
{
    let mut out: Vec<db::Post> = Vec::new();
    let mut i: usize = 0;
    while i < rows.len()
        invariant
            i <= rows@.len(),
            Some(post_rows(out@)) == timeline_of(rows@, i as int, config.base()),
        decreases rows@.len() - i,
    {
        let ghost before = post_rows(out@);
        match entry_from_records(rows, i, config) {
            Ok(post) => {
                if !rows[i].is_boost_source {
                    out.push(post);
                    assert(post_rows(out@) =~= before.push(post@));
                }
            },
            Err(e) => {
                proof {
                    lemma_timeline_stays_broken(rows@, i as int + 1, rows@.len() as int, config.base());
                }
                return Err(e);
            },
        }
        i += 1;
    }
    Ok(out)
}

/// Once some line cannot be shown, no longer prefix can.
proof fn lemma_timeline_stays_broken(rows: Seq<TimelineRecord>, n: int, m: int, base: Seq<char>)
    requires
        0 <= n <= m,
        timeline_of(rows, n, base) is None,
    ensures
        timeline_of(rows, m, base) is None,
    decreases m - n,
{
    if n < m {
        lemma_timeline_stays_broken(rows, n, m - 1, base);
    }
}

} // verus!

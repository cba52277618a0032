use ferri::config::{Config, ServerConfig};
use ferri::endpoints::{
    account_parts, actor_link, bearer_token, edge_collection, to_db_post, to_db_post_with,
    webfinger_hit, webfinger_url, webfinger_user, AuthenticatedUser, CreateStatus,
    OrderedCollection, Side,
};
use ferri::time::Timestamp;
use ferri::types::ap;
use ferri::types::api;
use ferri::types::convert::status_of;
use ferri::types::db;
use ferri::types::get::{
    attachments_from_records, home_timeline, parse_ts, post_from_record, posts_from_records,
    user_from_record, AttachmentRecord, PostRecord, TimelineRecord, UserRecord,
};
use ferri::types::{DbError, ObjectContext, ObjectUri, ObjectUuid};

fn config() -> Config {
    Config { server: ServerConfig { host: "https://ferri.example".to_string() } }
}

fn at(secs: i64) -> Timestamp {
    Timestamp::from_unix(secs, 0).unwrap()
}

fn user_record(id: &str) -> UserRecord {
    UserRecord {
        user_id: id.to_string(),
        username: format!("{}-name", id),
        actor_id: format!("https://ferri.example/users/{}", id),
        display_name: format!("{} shown", id),
        inbox: format!("https://ferri.example/users/{}/inbox", id),
        outbox: format!("https://ferri.example/users/{}/outbox", id),
        url: format!("https://ferri.example/{}", id),
        acct: id.to_string(),
        remote: false,
        created_at: "2025-01-01 00:00:00".to_string(),
        icon_url: "https://ferri.example/assets/pfp.png".to_string(),
    }
}

fn user(id: &str) -> db::User {
    db::User {
        id: ObjectUuid(id.to_string()),
        actor: db::Actor {
            id: ObjectUri(format!("https://ferri.example/users/{}", id)),
            inbox: format!("https://ferri.example/users/{}/inbox", id),
            outbox: format!("https://ferri.example/users/{}/outbox", id),
        },
        username: format!("{}-name", id),
        display_name: format!("{} shown", id),
        acct: id.to_string(),
        remote: false,
        url: format!("https://ferri.example/{}", id),
        created_at: at(1735689600),
        icon_url: "https://ferri.example/assets/pfp.png".to_string(),
        posts: db::UserPosts { last_post_at: None },
        key_id: format!("https://ferri.example/users/{}#main-key", id),
    }
}

fn post_record(id: &str, author: &str, boosts: Option<&str>) -> PostRecord {
    PostRecord {
        post_id: id.to_string(),
        post_uri: format!("https://ferri.example/posts/{}", id),
        content: format!("content of {}", id),
        post_created: "2025-01-02T00:00:00+00:00".to_string(),
        boosted_post_id: boosts.map(|b| b.to_string()),
        user: user_record(author),
        attachments: vec![],
    }
}

fn post(id: &str, author: &str) -> db::Post {
    db::Post {
        id: ObjectUuid(id.to_string()),
        uri: ObjectUri(format!("https://ferri.example/posts/{}", id)),
        user: user(author),
        content: format!("content of {}", id),
        created_at: at(1735776000),
        boosted_post: None,
        attachments: vec![],
    }
}

fn line(id: &str, author: &str, boosts: Option<&str>, source: bool) -> TimelineRecord {
    TimelineRecord { is_boost_source: source, post: post_record(id, author, boosts) }
}

#[test]
fn user_of_a_record() {
    let got = user_from_record(&user_record("u1"), Some("2025-01-02 00:00:00"), &config()).unwrap();
    let mut expected = user("u1");
    expected.posts.last_post_at = Some(at(1735776000));
    assert_eq!(got, expected);

    let got = user_from_record(&user_record("u1"), None, &config()).unwrap();
    assert_eq!(got, user("u1"));

    let got = user_from_record(&user_record("u1"), Some("never"), &config()).unwrap();
    assert_eq!(got.posts.last_post_at, None);
}

#[test]
fn user_with_unreadable_time_is_an_error() {
    let mut record = user_record("u1");
    record.created_at = "long ago".to_string();
    assert!(matches!(
        user_from_record(&record, None, &config()),
        Err(DbError::FetchError(_))
    ));
}

#[test]
fn stored_time_is_read_in_both_forms() {
    assert_eq!(parse_ts("2025-01-01 00:00:00"), Some(at(1735689600)));
    assert_eq!(parse_ts("2025-01-01T00:00:00Z"), Some(at(1735689600)));
    assert_eq!(parse_ts("01/01/2025"), None);
}

#[test]
fn attachments_of_records() {
    let records = vec![
        AttachmentRecord {
            id: "a1".to_string(),
            post_id: "post-a".to_string(),
            url: "https://ferri.example/m/1".to_string(),
            media_type: "image/png".to_string(),
            marked_sensitive: true,
            alt: None,
        },
        AttachmentRecord {
            id: "a2".to_string(),
            post_id: "post-a".to_string(),
            url: "https://ferri.example/m/2".to_string(),
            media_type: "image/jpeg".to_string(),
            marked_sensitive: false,
            alt: Some("two".to_string()),
        },
    ];
    assert_eq!(
        attachments_from_records(&records),
        vec![
            db::Attachment {
                id: ObjectUuid("a1".to_string()),
                post_id: ObjectUuid("post-a".to_string()),
                url: "https://ferri.example/m/1".to_string(),
                media_type: Some("image/png".to_string()),
                sensitive: true,
                alt: None,
            },
            db::Attachment {
                id: ObjectUuid("a2".to_string()),
                post_id: ObjectUuid("post-a".to_string()),
                url: "https://ferri.example/m/2".to_string(),
                media_type: Some("image/jpeg".to_string()),
                sensitive: false,
                alt: Some("two".to_string()),
            },
        ]
    );
    assert_eq!(attachments_from_records(&vec![]), vec![]);
}

#[test]
fn posts_of_records() {
    assert_eq!(post_from_record(&post_record("post-a", "u1", None), &config()), Ok(post("post-a", "u1")));
    // what a post boosts is not followed here
    assert_eq!(
        post_from_record(&post_record("post-b", "u1", Some("post-a")), &config()),
        Ok(post("post-b", "u1"))
    );
    assert_eq!(
        posts_from_records(
            &vec![post_record("post-a", "u1", None), post_record("post-b", "u2", None)],
            &config()
        ),
        Ok(vec![post("post-a", "u1"), post("post-b", "u2")])
    );
    let mut broken = post_record("post-c", "u1", None);
    broken.post_created = "?".to_string();
    assert!(matches!(post_from_record(&broken, &config()), Err(DbError::FetchError(_))));
    assert!(matches!(
        posts_from_records(&vec![post_record("post-a", "u1", None), broken], &config()),
        Err(DbError::FetchError(_))
    ));
}

#[test]
fn timeline_shows_boosts_one_level_deep() {
    let rows = vec![
        line("boost", "u1", Some("original"), false),
        line("plain", "u2", None, false),
        line("original", "u3", Some("older"), true),
        line("older", "u4", None, true),
    ];
    let got = home_timeline(&rows, &config()).unwrap();
    let mut boost = post("boost", "u1");
    boost.boosted_post = Some(Box::new(post("original", "u3")));
    assert_eq!(got, vec![boost, post("plain", "u2")]);
}

#[test]
fn timeline_of_nothing_is_empty() {
    assert_eq!(home_timeline(&vec![], &config()), Ok(vec![]));
    assert_eq!(home_timeline(&vec![line("only", "u1", None, true)], &config()), Ok(vec![]));
}

#[test]
fn timeline_with_missing_original_is_an_error() {
    let rows = vec![line("boost", "u1", Some("gone"), false)];
    assert!(matches!(home_timeline(&rows, &config()), Err(DbError::FetchError(_))));
    let mut bad = line("plain", "u1", None, true);
    bad.post.user.created_at = "?".to_string();
    assert!(matches!(
        home_timeline(&vec![line("ok", "u2", None, false), bad], &config()),
        Err(DbError::FetchError(_))
    ));
}

#[test]
fn account_of_a_user() {
    let mut u = user("u1");
    u.posts.last_post_at = Some(at(1735776000));
    let account: api::Account = u.into();
    assert_eq!(
        account,
        api::Account {
            id: ObjectUuid("u1".to_string()),
            username: "u1-name".to_string(),
            acct: "u1".to_string(),
            display_name: "u1 shown".to_string(),
            locked: false,
            bot: false,
            created_at: "2025-01-01T00:00:00+00:00".to_string(),
            attribution_domains: vec![],
            note: String::new(),
            url: "https://ferri.example/u1".to_string(),
            avatar: "https://ferri.example/assets/pfp.png".to_string(),
            avatar_static: "https://ferri.example/assets/pfp.png".to_string(),
            header: "https://ferri.example/assets/pfp.png".to_string(),
            header_static: "https://ferri.example/assets/pfp.png".to_string(),
            followers_count: 0,
            following_count: 0,
            statuses_count: 0,
            last_status_at: Some("2025-01-02T00:00:00+00:00".to_string()),
            emojis: vec![],
            fields: vec![],
        }
    );
    let account: api::Account = user("u2").into();
    assert_eq!(account.last_status_at, None);
}

#[test]
fn status_of_a_boost() {
    let mut original = post("original", "u3");
    original.attachments = vec![
        db::Attachment {
            id: ObjectUuid("a1".to_string()),
            post_id: ObjectUuid("original".to_string()),
            url: "https://ferri.example/m/1".to_string(),
            media_type: Some("image/png".to_string()),
            sensitive: false,
            alt: Some("a cat".to_string()),
        },
        db::Attachment {
            id: ObjectUuid("a2".to_string()),
            post_id: ObjectUuid("original".to_string()),
            url: "https://ferri.example/m/2".to_string(),
            media_type: None,
            sensitive: false,
            alt: None,
        },
    ];
    let mut boost = post("boost", "u1");
    boost.boosted_post = Some(Box::new(original));

    let status: api::Status = boost.into();
    assert_eq!(status.id.0, "boost");
    assert_eq!(status.created_at, "2025-01-02T00:00:00+00:00");
    assert_eq!(status.visibility, "Public");
    assert_eq!(status.language, "en-GB");
    assert_eq!(status.uri.0, "https://ferri.example/posts/boost");
    assert_eq!(status.url, "https://ferri.example/posts/boost");
    assert_eq!(status.content, "content of boost");
    assert_eq!(status.account.id.0, "u1");
    assert!(status.media_attachments.is_empty());
    assert!(!status.sensitive && !status.favourited && !status.reblogged);
    assert_eq!(status.replies_count + status.reblogs_count + status.favourites_count, 0);
    assert_eq!(status.in_reply_to_id, None);
    assert_eq!(status.poll, None);

    let reblog = status.reblog.unwrap();
    assert_eq!(reblog.id.0, "original");
    assert_eq!(reblog.account.id.0, "u3");
    assert_eq!(reblog.reblog, None);
    assert_eq!(
        reblog.media_attachments,
        vec![
            api::StatusAttachment {
                id: ObjectUuid("a1".to_string()),
                ty: "image".to_string(),
                url: "https://ferri.example/m/1".to_string(),
                description: "a cat".to_string(),
            },
            api::StatusAttachment {
                id: ObjectUuid("a2".to_string()),
                ty: "image".to_string(),
                url: "https://ferri.example/m/2".to_string(),
                description: String::new(),
            },
        ]
    );
    assert_eq!(status_of(post("post", "u")).reblog, None);
}

#[test]
fn person_of_a_local_user() {
    let person = ap::Person::of_user(user("u1"), &config(), "-----BEGIN PUBLIC KEY-----");
    assert_eq!(
        person,
        ap::Person {
            obj: ferri::types::Object {
                context: ObjectContext::Str("https://www.w3.org/ns/activitystreams".to_string()),
                id: ObjectUri("https://ferri.example/users/u1".to_string()),
            },
            ty: ap::ActivityType::Person,
            following: "https://ferri.example/users/u1/following".to_string(),
            followers: "https://ferri.example/users/u1/followers".to_string(),
            summary: "ferri u1-name".to_string(),
            inbox: "https://ferri.example/users/u1/inbox".to_string(),
            outbox: "https://ferri.example/users/u1/outbox".to_string(),
            preferred_username: "u1 shown".to_string(),
            name: "u1-name".to_string(),
            public_key: Some(ap::UserKey {
                id: "https://ferri.example/users/u1#main-key".to_string(),
                owner: "https://ferri.example/users/u1".to_string(),
                public_key: "-----BEGIN PUBLIC KEY-----".to_string(),
            }),
            icon: None,
        }
    );
}

#[test]
fn actor_row_becomes_a_document() {
    let actor: ap::Actor = user("u1").actor.into();
    assert_eq!(
        actor,
        ap::Actor {
            obj: ferri::types::Object {
                context: ObjectContext::Str("https://www.w3.org/ns/activitystreams".to_string()),
                id: ObjectUri("https://ferri.example/users/u1".to_string()),
            },
            inbox: "https://ferri.example/users/u1/inbox".to_string(),
            outbox: "https://ferri.example/users/u1/outbox".to_string(),
        }
    );
}

#[test]
fn webfinger_names() {
    assert_eq!(webfinger_user("acct:amy@ferri.example"), Some("amy".to_string()));
    assert_eq!(webfinger_user("acct:@ferri.example"), Some(String::new()));
    assert_eq!(webfinger_user("acct:a@b@c"), Some("a".to_string()));
    assert_eq!(webfinger_user("acct:amé@ferri.example"), Some("amé".to_string()));
    assert_eq!(webfinger_user("acct:amy"), None);
    assert_eq!(webfinger_user("amy@ferri.example"), None);
    assert_eq!(webfinger_user("acct"), None);
    assert_eq!(webfinger_user(""), None);
    assert_eq!(webfinger_user("ACCT:amy@ferri.example"), None);
}

#[test]
fn webfinger_answer() {
    let hit = webfinger_hit("acct:u1-name@ferri.example", &user("u1"), &config());
    assert_eq!(
        hit,
        api::WebfingerHit {
            subject: "acct:u1-name@ferri.example".to_string(),
            aliases: vec![
                "https://ferri.example/users/u1".to_string(),
                "https://ferri.example/u1-name".to_string(),
            ],
            links: vec![
                api::WebfingerLink {
                    rel: "http://webfinger.net/rel/profile-page".to_string(),
                    ty: Some("text/html".to_string()),
                    href: Some("https://ferri.example/u1-name".to_string()),
                },
                api::WebfingerLink {
                    rel: "self".to_string(),
                    ty: Some("application/activity+json".to_string()),
                    href: Some("https://ferri.example/users/u1".to_string()),
                },
            ],
        }
    );
    assert_eq!(actor_link(&hit), Some("https://ferri.example/users/u1".to_string()));
    assert_eq!(
        webfinger_url("remote.example", "bob"),
        "https://remote.example/.well-known/webfinger?resource=acct:bob"
    );
}

#[test]
fn actor_link_is_the_first_of_its_type() {
    let link = |ty: Option<&str>, href: Option<&str>| api::WebfingerLink {
        rel: "self".to_string(),
        ty: ty.map(|t| t.to_string()),
        href: href.map(|h| h.to_string()),
    };
    let hit = |links| api::WebfingerHit { subject: String::new(), aliases: vec![], links };
    assert_eq!(actor_link(&hit(vec![])), None);
    assert_eq!(actor_link(&hit(vec![link(None, Some("x")), link(Some("text/html"), Some("y"))])), None);
    assert_eq!(
        actor_link(&hit(vec![
            link(Some("text/html"), Some("page")),
            link(Some("application/activity+json"), Some("first")),
            link(Some("application/activity+json"), Some("second")),
        ])),
        Some("first".to_string())
    );
    assert_eq!(
        actor_link(&hit(vec![
            link(Some("application/activity+json"), None),
            link(Some("application/activity+json"), Some("second")),
        ])),
        None
    );
}

#[test]
fn new_status_becomes_a_post() {
    let who = AuthenticatedUser {
        id: ObjectUuid("u1".to_string()),
        actor_id: ObjectUri("https://ferri.example/users/u1".to_string()),
        user: user("u1"),
        username: "u1-name".to_string(),
        token: "t".to_string(),
    };
    let req = CreateStatus { status: "hello".to_string() };
    let got = to_db_post_with(&req, &who, &config(), "post-z".to_string(), at(1735689600));
    assert_eq!(
        got,
        db::Post {
            id: ObjectUuid("post-z".to_string()),
            uri: ObjectUri("https://ferri.example/users/u1/post-z".to_string()),
            user: user("u1"),
            content: "hello".to_string(),
            created_at: at(1735689600),
            boosted_post: None,
            attachments: vec![],
        }
    );
    let drawn = to_db_post(&req, &who, &config());
    assert_eq!(drawn.id.0.len(), 36);
    assert_eq!(drawn.uri.0, format!("https://ferri.example/users/u1/{}", drawn.id.0));
    assert_eq!(drawn.content, "hello");
}

#[test]
fn account_names_split_at_the_first_at() {
    assert_eq!(
        account_parts("bob@remote.example"),
        Some(("bob".to_string(), "remote.example".to_string()))
    );
    assert_eq!(account_parts("@"), Some((String::new(), String::new())));
    assert_eq!(account_parts("a@b@c"), Some(("a".to_string(), "b@c".to_string())));
    assert_eq!(account_parts("bób@x"), Some(("bób".to_string(), "x".to_string())));
    assert_eq!(account_parts("bob"), None);
    assert_eq!(account_parts(""), None);
}

#[test]
fn bearer_tokens() {
    assert_eq!(bearer_token("Bearer abc123"), "abc123");
    assert_eq!(bearer_token("Bearer   abc123 \t"), "abc123");
    assert_eq!(bearer_token("Bearerabc"), "abc");
    assert_eq!(bearer_token("Bearer"), "");
    assert_eq!(bearer_token("abc123"), "abc123");
    assert_eq!(bearer_token(" Bearer abc"), " Bearer abc");
    assert_eq!(bearer_token("bearer abc"), "bearer abc");
    assert_eq!(bearer_token(""), "");
    // white space is what Unicode says it is
    assert_eq!(bearer_token("Bearer\u{a0}\u{3000}\u{2003}abc\u{85}\u{2028}\r\n"), "abc");
    assert_eq!(bearer_token("Bearer \u{200b}abc\u{feff} "), "\u{200b}abc\u{feff}");
    assert_eq!(bearer_token("Bearer a b "), "a b");
    assert_eq!(bearer_token("Bearer \u{1680}\u{202f}\u{205f}\u{0b}\u{0c}"), "");
}

#[test]
fn collections_list_one_end_of_the_edges() {
    let edge = |n: u32| db::Follow {
        id: ObjectUri(format!("https://ferri.example/activities/{}", n)),
        follower: ObjectUri(format!("https://remote.example/users/f{}", n)),
        followed: ObjectUri("https://ferri.example/users/u1".to_string()),
    };
    let edges = vec![edge(1), edge(2)];
    assert_eq!(
        edge_collection("https://ferri.example/users/u1/followers".to_string(), &edges, Side::Follower),
        OrderedCollection {
            context: ObjectContext::Str("https://www.w3.org/ns/activitystreams".to_string()),
            ty: "OrderedCollection".to_string(),
            id: "https://ferri.example/users/u1/followers".to_string(),
            total_items: 2,
            ordered_items: vec![
                "https://remote.example/users/f1".to_string(),
                "https://remote.example/users/f2".to_string()
            ],
        }
    );
    let following = edge_collection("c".to_string(), &edges, Side::Followed);
    assert_eq!(
        following.ordered_items,
        vec![
            "https://ferri.example/users/u1".to_string(),
            "https://ferri.example/users/u1".to_string()
        ]
    );
    let empty = edge_collection("c".to_string(), &vec![], Side::Follower);
    assert_eq!(empty.total_items, 0);
    assert!(empty.ordered_items.is_empty());
}

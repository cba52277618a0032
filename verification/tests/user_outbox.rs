use ferri::ap::{new_ts, Activity, ActivityType, Actor, Outbox, OutgoingActivity, Post, User, AS_CONTEXT};
use ferri::config::{Config, ServerConfig};
use ferri::federation::http::{HttpClient, HttpError};
use ferri::time::Timestamp;
use ferri::types::{ObjectContext, ObjectUuid};

fn config() -> Config {
    Config { server: ServerConfig { host: "https://ferri.example".to_string() } }
}

fn amy() -> User {
    User::from_parts(
        "u1".to_string(),
        "amy".to_string(),
        Actor::from_raw(
            "https://ferri.example/users/u1".to_string(),
            "https://ferri.example/users/u1/inbox".to_string(),
            "https://ferri.example/users/u1/outbox".to_string(),
        ),
        "Amy".to_string(),
    )
}

#[test]
fn user_and_actor_show_their_parts() {
    let user = amy();
    assert_eq!(user.id(), "u1");
    assert_eq!(user.username(), "amy");
    assert_eq!(user.display_name(), "Amy");
    assert_eq!(user.actor_id(), "https://ferri.example/users/u1");
    assert_eq!(user.actor().id(), "https://ferri.example/users/u1");
    assert_eq!(user.actor().inbox(), "https://ferri.example/users/u1/inbox");
    assert_eq!(user.uri(&config()), "https://ferri.example/users/u1");
    assert_eq!(user.clone(), user);
}

#[test]
fn post_is_addressed_and_published() {
    let at = Timestamp::from_unix(1735689600, 0).unwrap();
    let post = Post::from_parts_at("first".to_string(), "hello".to_string(), amy(), at)
        .to("https://ferri.example/users/u1/followers".to_string())
        .cc("https://www.w3.org/ns/activitystreams#Public".to_string())
        .to("https://remote.example/users/bob".to_string());
    assert_eq!(post.id(), "first");
    assert_eq!(post.content(), "hello");
    assert_eq!(post.created_at(), "2025-01-01T00:00:00+00:00");
    assert_eq!(post.uri(&config()), "https://ferri.example/users/u1/posts/first");
    let published = post.to_ap(&config());
    assert_eq!(published.context, AS_CONTEXT);
    assert_eq!(published.id, "https://ferri.example/users/u1/posts/first");
    assert_eq!(published.ty, "Post");
    assert_eq!(published.ts, "2025-01-01T00:00:00+00:00");
    assert_eq!(published.content, "hello");
    assert_eq!(
        published.to,
        vec![
            "https://ferri.example/users/u1/followers".to_string(),
            "https://remote.example/users/bob".to_string()
        ]
    );
    assert_eq!(published.cc, vec!["https://www.w3.org/ns/activitystreams#Public".to_string()]);

    let now = Post::from_parts("second".to_string(), String::new(), amy());
    assert!(Timestamp::parse_from_rfc3339(&now.created_at()).is_some());
    assert!(Timestamp::parse_from_rfc3339(&new_ts()).is_some());
}

#[test]
fn activity_types_on_the_wire() {
    assert_eq!(ActivityType::Follow.to_raw(), "Follow");
    assert_eq!(ActivityType::Accept.to_raw(), "Accept");
    assert_eq!(ActivityType::Create.to_raw(), "Create");
    assert_eq!(ActivityType::Unknown.to_raw(), "FIXME");
}

#[test]
fn outbox_wraps_and_addresses() {
    let at = Timestamp::from_unix(1735689600, 0).unwrap();
    let client = HttpClient::new("no key".to_string());
    let outbox = Outbox::for_user(amy(), &client);
    assert_eq!(outbox.user(), &amy());

    let mut activity = Activity::blank("https://remote.example/activities/f".to_string(), at);
    assert_eq!(activity.ty, ActivityType::Unknown);
    assert_eq!(activity.id, "");
    activity.id = "https://ferri.example/activities/a1".to_string();
    activity.ty = ActivityType::Accept;
    let bob = Actor::from_raw(
        "https://remote.example/users/bob".to_string(),
        "not an address".to_string(),
        String::new(),
    );
    let outgoing = OutgoingActivity { signed_by: "key".to_string(), req: activity, to: bob.clone() };
    assert_eq!(
        outgoing.record(),
        (
            "https://ferri.example/activities/a1".to_string(),
            "Accept".to_string(),
            "https://remote.example/users/bob".to_string()
        )
    );
    let raw = outbox.raw(outgoing.req);
    assert_eq!(raw.context, "https://www.w3.org/ns/activitystreams");
    assert_eq!(raw.id, "https://ferri.example/activities/a1");
    assert_eq!(raw.ty, "Accept");
    assert_eq!(raw.actor, "https://ferri.example/users/u1");
    assert_eq!(raw.object, "https://remote.example/activities/f");
    assert_eq!(raw.published, "2025-01-01T00:00:00+00:00");
    assert_eq!(
        outbox.post(&bob, "key", "{}".to_string(), &at).unwrap_err(),
        HttpError::LoadFailure("Activity".to_string(), "not an address".to_string())
    );
}

#[test]
fn fresh_uuid_and_default_context() {
    assert_eq!(ObjectUuid::new().0.len(), 36);
    assert_ne!(ObjectUuid::new(), ObjectUuid::default());
    assert_eq!(ObjectContext::default(), ObjectContext::Str(String::new()));
}

use ferri::address::{classify_actor, host_str, UrlParts};
use ferri::config::{Config, Local, RetryPolicy, ServerConfig};
use ferri::time::Timestamp;
use ferri::types::ap::RemoteInfo;
use ferri::{gen_token, new_id, now, now_str};

fn config(host: &str) -> Config {
    Config { server: ServerConfig { host: host.to_string() } }
}

#[test]
fn urls_below_the_host() {
    let c = config("https://ferri.example");
    assert_eq!(c.host(), "https://ferri.example");
    assert_eq!(c.user_url("u1"), "https://ferri.example/users/u1");
    assert_eq!(c.user_web_url("amy"), "https://ferri.example/amy");
    assert_eq!(c.followers_url("u1"), "https://ferri.example/users/u1/followers");
    assert_eq!(c.following_url("u1"), "https://ferri.example/users/u1/following");
    assert_eq!(c.inbox_url("u1"), "https://ferri.example/users/u1/inbox");
    assert_eq!(c.outbox_url("u1"), "https://ferri.example/users/u1/outbox");
    assert_eq!(c.post_url("u1", "post-z"), "https://ferri.example/users/u1/post-z");
    assert_eq!(c.activity_url("a7"), "https://ferri.example/activities/a7");
    assert_eq!(c.key_id("u1"), "https://ferri.example/users/u1#main-key");
    assert_eq!(c.default_icon_url(), "https://ferri.example/assets/pfp.png");
}

#[test]
fn urls_with_empty_parts() {
    let c = config("");
    assert_eq!(c.user_url(""), "/users/");
    assert_eq!(c.post_url("", ""), "/users//");
    assert_eq!(c.activity_url(""), "/activities/");
}

#[test]
fn local_needs_a_host() {
    let retry = RetryPolicy { max_attempts: 5, base_delay_ms: 250, max_delay_ms: 30000 };
    let l = Local::new(
        config("https://ferri.example"),
        vec!["https://peer.example/inbox".to_string()],
        retry,
    )
    .unwrap();
    assert_eq!(l.domain, "ferri.example");
    assert_eq!(l.peers, vec!["https://peer.example/inbox".to_string()]);
    assert_eq!(l.config, config("https://ferri.example"));
    assert_eq!(l.retry, retry);
    let copy = l.clone();
    assert_eq!(copy.domain, l.domain);
    assert_eq!(copy.peers, l.peers);
    assert_eq!(copy.retry, l.retry);
    assert!(Local::new(config("ferri.example"), vec![], retry).is_none());
    assert!(Local::new(config("mailto:amy@ferri.example"), vec![], retry).is_none());
}

#[test]
fn url_parts_of_an_address() {
    assert_eq!(
        UrlParts::parse("https://Example.com/api/versions?page=2"),
        Some(UrlParts { host: Some("example.com".to_string()), path: "/api/versions".to_string() })
    );
    assert_eq!(
        UrlParts::parse("https://example.com"),
        Some(UrlParts { host: Some("example.com".to_string()), path: "/".to_string() })
    );
    assert_eq!(
        UrlParts::parse("data:text/plain,Stuff"),
        Some(UrlParts { host: None, path: "text/plain,Stuff".to_string() })
    );
    assert_eq!(UrlParts::parse("/inbox"), None);
    assert_eq!(host_str("https://remote.example:8443/users/bob"), Some("remote.example".to_string()));
    assert_eq!(host_str("unix:/run/foo.socket"), None);
    assert_eq!(host_str(""), None);
}

#[test]
fn remote_actor_is_known_with_its_host() {
    assert_eq!(
        classify_actor("https://remote.example/users/bob", "bob", "ferri.example"),
        Some(RemoteInfo {
            is_remote: true,
            web_url: "https://ferri.example/bob@remote.example".to_string(),
            acct: "bob@remote.example".to_string(),
        })
    );
}

#[test]
fn local_actor_is_known_by_name() {
    assert_eq!(
        classify_actor("https://ferri.example/users/9b9d", "amy", "ferri.example"),
        Some(RemoteInfo {
            is_remote: false,
            web_url: "https://ferri.example/amy".to_string(),
            acct: "amy".to_string(),
        })
    );
}

#[test]
fn actor_without_host_is_not_classified() {
    assert_eq!(classify_actor("not a url", "bob", "ferri.example"), None);
    assert_eq!(classify_actor("mailto:bob@remote.example", "bob", "ferri.example"), None);
}

#[test]
fn tokens_are_alphanumeric() {
    assert_eq!(gen_token(0), "");
    let t = gen_token(15);
    assert_eq!(t.chars().count(), 15);
    assert!(t.chars().all(|c| c.is_ascii_alphanumeric()));
    assert_ne!(gen_token(32), gen_token(32));
}

#[test]
fn ids_are_fresh() {
    let a = new_id();
    let b = new_id();
    assert_eq!(a.len(), 36);
    assert_ne!(a, b);
    assert_eq!(a.chars().filter(|c| *c == '-').count(), 4);
}

#[test]
fn timestamps_round_trip() {
    let t = Timestamp::from_unix(1735689600, 500_000_000).unwrap();
    assert_eq!(t.secs(), 1735689600);
    assert_eq!(t.nanos(), 500_000_000);
    assert_eq!(t.to_rfc3339(), "2025-01-01T00:00:00.500+00:00");
    assert_eq!(Timestamp::parse_from_rfc3339("2025-01-01T00:00:00.500+00:00"), Some(t));
    assert_eq!(
        Timestamp::parse_from_rfc3339("2025-01-01T01:00:00+01:00"),
        Timestamp::from_unix(1735689600, 0)
    );
    assert_eq!(Timestamp::parse_from_rfc3339("2025-01-01 00:00:00"), None);
    assert_eq!(Timestamp::parse_from_rfc3339(""), None);
}

#[test]
fn stored_timestamps_come_in_two_forms() {
    let t = Timestamp::from_unix(1735689600, 0);
    assert_eq!(Timestamp::parse_stored("2025-01-01 00:00:00"), t);
    assert_eq!(Timestamp::parse_stored("2025-01-01T00:00:00+00:00"), t);
    assert_eq!(Timestamp::parse_stored("2025-01-01"), None);
}

#[test]
fn timestamps_out_of_range_are_refused() {
    assert!(Timestamp::from_unix(i64::MAX, 0).is_none());
    assert!(Timestamp::from_unix(i64::MIN, 0).is_none());
    assert!(Timestamp::from_unix(0, 2_000_000_000).is_none());
    assert_eq!(Timestamp::from_unix(0, 0).unwrap().to_rfc3339(), "1970-01-01T00:00:00+00:00");
    assert_eq!(Timestamp::from_unix(-1, 0).unwrap().to_http_date(), "Wed, 31 Dec 1969 23:59:59 GMT");
}

#[test]
fn the_clock_reads_as_rfc3339() {
    let before = now();
    assert!(before.nanos() < 1_000_000_000);
    assert_eq!(Timestamp::from_unix(before.secs(), before.nanos()), Some(before));
    let other = ferri::ap::now();
    assert!(other.nanos() < 1_000_000_000);
    assert!(Timestamp::from_unix(other.secs(), other.nanos()).is_some());
    let text = now_str();
    let read = Timestamp::parse_from_rfc3339(&text).unwrap();
    assert!(read.secs() >= before.secs());
    assert!(read.secs() - before.secs() < 60);
    assert!(Timestamp::parse_from_rfc3339(&ferri::new_ts()).is_some());
}

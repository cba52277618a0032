use ferri::config::{Config, Local, RetryPolicy, ServerConfig};
use ferri::federation::http::{HttpClient, HttpError, RequestVerb};
use ferri::federation::outbox::{
    accept_envelope, begin_outbox_request, continue_outbox_request, handle_outbox_request,
    published_note, AuditRecord, Envelope, OutboxAction, OutboxError, OutboxEvent, OutboxRequest, OutboxState,
};
use ferri::fresh::Fresh;
use ferri::time::Timestamp;
use ferri::types::ap;
use ferri::types::db;
use ferri::types::{as_context, DbError, Object, ObjectContext, ObjectUri, ObjectUuid};
use rsa::pkcs8::EncodePrivateKey;

const P: &str = "12311124912642166450957254718411087874141754617981622853439831728894496312044853788498384673322410764791534782729741308586301152606023290894067430143703929";
const Q: &str = "12175868268027674886345244129583311419100409116555112479653188167121769463874736147291407409945731765932512656776837420135101164627762636688610793553993857";

fn client() -> HttpClient {
    let p = rsa::BigUint::parse_bytes(P.as_bytes(), 10).unwrap();
    let q = rsa::BigUint::parse_bytes(Q.as_bytes(), 10).unwrap();
    let key = rsa::RsaPrivateKey::from_p_q(p, q, rsa::BigUint::from(65537u32)).unwrap();
    HttpClient::new(key.to_pkcs8_pem(rsa::pkcs8::LineEnding::LF).unwrap().to_string())
}

fn local(peers: &[&str]) -> Local {
    let config = Config { server: ServerConfig { host: "https://ferri.example".to_string() } };
    let retry = RetryPolicy { max_attempts: 3, base_delay_ms: 1000, max_delay_ms: 60000 };
    Local::new(config, peers.iter().map(|p| p.to_string()).collect(), retry).unwrap()
}

fn at(secs: i64) -> Timestamp {
    Timestamp::from_unix(secs, 0).unwrap()
}

fn fresh(ids: &[&str]) -> Fresh {
    Fresh { ids: ids.iter().map(|s| s.to_string()).collect(), now: at(1735689600) }
}

fn user(uuid: &str, actor: &str) -> db::User {
    db::User {
        id: ObjectUuid(uuid.to_string()),
        actor: db::Actor {
            id: ObjectUri(actor.to_string()),
            inbox: format!("{}/inbox", actor),
            outbox: format!("{}/outbox", actor),
        },
        username: uuid.to_string(),
        display_name: uuid.to_string(),
        acct: uuid.to_string(),
        remote: false,
        url: format!("https://ferri.example/{}", uuid),
        created_at: at(1700000000),
        icon_url: "https://ferri.example/assets/pfp.png".to_string(),
        posts: db::UserPosts { last_post_at: None },
        key_id: format!("https://ferri.example/users/{}#main-key", uuid),
    }
}

fn bob() -> ap::Person {
    let id = "https://remote.example/users/bob";
    ap::Person {
        obj: Object { context: as_context(), id: ObjectUri(id.to_string()) },
        ty: ap::ActivityType::Person,
        following: format!("{}/following", id),
        followers: format!("{}/followers", id),
        summary: String::new(),
        inbox: format!("{}/inbox", id),
        outbox: format!("{}/outbox", id),
        preferred_username: "bob".to_string(),
        name: "Bob".to_string(),
        public_key: None,
        icon: None,
    }
}

fn acceptance() -> OutboxRequest {
    OutboxRequest::Accept(
        ap::AcceptActivity {
            obj: Object {
                context: as_context(),
                id: ObjectUri("https://ferri.example/activities/acc-1".to_string()),
            },
            ty: ap::ActivityType::Accept,
            object: "https://remote.example/activities/follow-1".to_string(),
            actor: "https://ferri.example/users/amy-uuid".to_string(),
        },
        "https://ferri.example/users/amy-uuid#main-key".to_string(),
        bob(),
    )
}

fn post() -> db::Post {
    db::Post {
        id: ObjectUuid("post-1".to_string()),
        uri: ObjectUri("https://ferri.example/users/amy-uuid/post-1".to_string()),
        user: user("amy-uuid", "https://ferri.example/users/amy-uuid"),
        content: "hello fediverse".to_string(),
        created_at: at(1735689000),
        boosted_post: None,
        attachments: vec![],
    }
}

#[test]
fn accept_is_recorded_then_sent_to_the_follower() {
    let local = local(&[]);
    let client = client();
    let (state, action) = begin_outbox_request(acceptance(), &local, fresh(&[]));
    match action {
        OutboxAction::Record(record) => assert_eq!(
            record,
            AuditRecord {
                id: "https://ferri.example/activities/acc-1".to_string(),
                ty: ap::ActivityType::Accept,
                actor_id: "https://remote.example/users/bob".to_string(),
            }
        ),
        other => panic!("unexpected {:?}", other),
    }

    let (state, action) =
        continue_outbox_request(state, OutboxEvent::Stored(Ok(())), &client, &at(1735689600));
    match action {
        OutboxAction::Encode(Envelope::Reference(e)) => {
            assert_eq!(e.id, "https://ferri.example/activities/acc-1");
            assert_eq!(e.ty, ap::ActivityType::Accept);
            assert_eq!(e.actor, "https://ferri.example/users/amy-uuid");
            assert_eq!(e.object, "https://remote.example/activities/follow-1");
            assert_eq!(e.published, "2025-01-01T00:00:00+00:00");
            assert_eq!(
                e.context,
                ObjectContext::Str("https://www.w3.org/ns/activitystreams".to_string())
            );
        }
        other => panic!("unexpected {:?}", other),
    }

    let body = "{\"type\":\"Accept\"}".to_string();
    let (state, action) = continue_outbox_request(
        state,
        OutboxEvent::Encoded(body.clone()),
        &client,
        &at(1735689600),
    );
    match action {
        OutboxAction::Send(request) => {
            assert_eq!(request.verb, RequestVerb::POST);
            assert_eq!(request.url, "https://remote.example/users/bob/inbox");
            assert_eq!(request.body, body);
            let names: Vec<&str> = request.headers.iter().map(|h| h.0.as_str()).collect();
            assert_eq!(names, vec!["Content-Type", "Accept", "Date", "Digest", "Signature"]);
            assert!(request.headers[4]
                .1
                .starts_with("keyId=\"https://ferri.example/users/amy-uuid#main-key\""));
        }
        other => panic!("unexpected {:?}", other),
    }

    let (state, action) = continue_outbox_request(
        state,
        OutboxEvent::Delivered(Some("ok".to_string())),
        &client,
        &at(1735689600),
    );
    assert!(matches!(action, OutboxAction::Done));
    assert!(matches!(state, OutboxState::Finished));
}

#[test]
fn accept_envelope_is_stamped() {
    let activity = match acceptance() {
        OutboxRequest::Accept(activity, _, _) => activity,
        _ => unreachable!(),
    };
    let e = accept_envelope(activity, &at(0));
    assert_eq!(e.published, "1970-01-01T00:00:00+00:00");
    assert_eq!(e.id, "https://ferri.example/activities/acc-1");
}

#[test]
fn status_goes_to_each_peer_in_turn() {
    let local = local(&["https://one.example/inbox", "https://two.example/inbox"]);
    let client = client();
    let (state, action) =
        begin_outbox_request(OutboxRequest::Status(post(), "key-1".to_string()), &local, fresh(&["s-1"]));
    match action {
        OutboxAction::Record(record) => assert_eq!(
            record,
            AuditRecord {
                id: "https://ferri.example/activities/s-1".to_string(),
                ty: ap::ActivityType::Create,
                actor_id: "https://ferri.example/users/amy-uuid/followers".to_string(),
            }
        ),
        other => panic!("unexpected {:?}", other),
    }
    let (state, action) =
        continue_outbox_request(state, OutboxEvent::Stored(Ok(())), &client, &at(0));
    match action {
        OutboxAction::Encode(Envelope::Note(e)) => {
            assert_eq!(e.id, "https://ferri.example/activities/s-1");
            assert_eq!(e.ty, ap::ActivityType::Create);
            assert_eq!(e.actor, "https://ferri.example/users/amy-uuid");
            assert_eq!(e.published, "2025-01-01T00:00:00+00:00");
            let note = e.object;
            assert_eq!(note.obj.id.0, "https://ferri.example/users/amy-uuid/posts/post-1");
            assert_eq!(note.ty, ap::ActivityType::Note);
            assert_eq!(note.ts, "2024-12-31T23:50:00+00:00");
            assert_eq!(note.content, "hello fediverse");
            assert_eq!(note.to, vec!["https://ferri.example/users/amy-uuid/followers".to_string()]);
            assert_eq!(
                note.cc,
                vec!["https://www.w3.org/ns/activitystreams#Public".to_string()]
            );
            assert!(note.attachment.is_empty());
            assert_eq!(
                note.attributed_to,
                Some("https://ferri.example/users/amy-uuid".to_string())
            );
        }
        other => panic!("unexpected {:?}", other),
    }
    let (state, action) = continue_outbox_request(
        state,
        OutboxEvent::Encoded("{}".to_string()),
        &client,
        &at(0),
    );
    match &action {
        OutboxAction::Send(request) => assert_eq!(request.url, "https://one.example/inbox"),
        other => panic!("unexpected {:?}", other),
    }
    let (state, action) = continue_outbox_request(
        state,
        OutboxEvent::Delivered(Some(String::new())),
        &client,
        &at(0),
    );
    match &action {
        OutboxAction::Send(request) => {
            assert_eq!(request.url, "https://two.example/inbox");
            assert_eq!(request.body, "{}");
        }
        other => panic!("unexpected {:?}", other),
    }
    let (state, action) = continue_outbox_request(
        state,
        OutboxEvent::Delivered(Some(String::new())),
        &client,
        &at(0),
    );
    assert!(matches!(action, OutboxAction::Done));
    assert!(matches!(state, OutboxState::Finished));
}

#[test]
fn status_without_peers_ends_after_encoding() {
    let local = local(&[]);
    let client = client();
    let (state, _) =
        begin_outbox_request(OutboxRequest::Status(post(), "k".to_string()), &local, fresh(&["s"]));
    let (state, _) = continue_outbox_request(state, OutboxEvent::Stored(Ok(())), &client, &at(0));
    let (state, action) =
        continue_outbox_request(state, OutboxEvent::Encoded("{}".to_string()), &client, &at(0));
    assert!(matches!(action, OutboxAction::Done));
    assert!(matches!(state, OutboxState::Finished));
}

#[test]
fn follow_is_stored_before_anything_is_sent() {
    let local = local(&[]);
    let client = client();
    let follower = user("amy-uuid", "https://ferri.example/users/amy-uuid");
    let followed = user("bob-uuid", "https://remote.example/users/bob");
    let (state, action) = begin_outbox_request(
        OutboxRequest::Follow { follower, followed },
        &local,
        fresh(&["edge", "act"]),
    );
    match action {
        OutboxAction::StoreFollow(follow) => assert_eq!(
            follow,
            db::Follow {
                id: ObjectUri("https://ferri.example/activities/edge".to_string()),
                follower: ObjectUri("https://ferri.example/users/amy-uuid".to_string()),
                followed: ObjectUri("https://remote.example/users/bob".to_string()),
            }
        ),
        other => panic!("unexpected {:?}", other),
    }
    let (state, action) =
        continue_outbox_request(state, OutboxEvent::Stored(Ok(())), &client, &at(0));
    match action {
        OutboxAction::Record(record) => assert_eq!(
            record,
            AuditRecord {
                id: "https://ferri.example/activities/act".to_string(),
                ty: ap::ActivityType::Follow,
                actor_id: "https://remote.example/users/bob".to_string(),
            }
        ),
        other => panic!("unexpected {:?}", other),
    }
    let (state, action) =
        continue_outbox_request(state, OutboxEvent::Stored(Ok(())), &client, &at(0));
    match action {
        OutboxAction::Encode(Envelope::Reference(e)) => {
            assert_eq!(e.id, "https://ferri.example/activities/act");
            assert_eq!(e.ty, ap::ActivityType::Follow);
            assert_eq!(e.actor, "https://ferri.example/users/amy-uuid");
            assert_eq!(e.object, "https://remote.example/users/bob");
        }
        other => panic!("unexpected {:?}", other),
    }
    let (_, action) =
        continue_outbox_request(state, OutboxEvent::Encoded("{}".to_string()), &client, &at(0));
    match action {
        OutboxAction::Send(request) => {
            assert_eq!(request.url, "https://remote.example/users/bob/inbox");
            assert!(request.headers[4]
                .1
                .starts_with("keyId=\"https://ferri.example/users/amy-uuid#main-key\""));
        }
        other => panic!("unexpected {:?}", other),
    }
}

#[test]
fn each_outbox_error_has_its_input() {
    let local = local(&[]);
    let client = client();

    // too few identifiers
    let (state, action) =
        begin_outbox_request(OutboxRequest::Status(post(), "k".to_string()), &local, fresh(&[]));
    assert!(matches!(state, OutboxState::Finished));
    assert!(matches!(action, OutboxAction::Failed(OutboxError::Unexpected)));
    let (_, action) = begin_outbox_request(
        OutboxRequest::Follow {
            follower: user("a", "https://ferri.example/users/a"),
            followed: user("b", "https://remote.example/users/b"),
        },
        &local,
        fresh(&["only-one"]),
    );
    assert!(matches!(action, OutboxAction::Failed(OutboxError::Unexpected)));

    // a refused write
    let (state, _) = begin_outbox_request(acceptance(), &local, fresh(&[]));
    let (state, action) = continue_outbox_request(
        state,
        OutboxEvent::Stored(Err(DbError::CreationError("locked".to_string()))),
        &client,
        &at(0),
    );
    assert!(matches!(state, OutboxState::Finished));
    match action {
        OutboxAction::Failed(e) => {
            assert_eq!(e, OutboxError::Store(DbError::CreationError("locked".to_string())))
        }
        other => panic!("unexpected {:?}", other),
    }

    // a delivery without answer, given up
    let (state, _) = begin_outbox_request(acceptance(), &local, fresh(&[]));
    let (state, _) = continue_outbox_request(state, OutboxEvent::Stored(Ok(())), &client, &at(0));
    let (state, _) =
        continue_outbox_request(state, OutboxEvent::Encoded("{}".to_string()), &client, &at(0));
    let (state, action) =
        continue_outbox_request(state, OutboxEvent::Delivered(None), &client, &at(0));
    assert!(matches!(state, OutboxState::Stalled { .. }));
    match action {
        OutboxAction::Undelivered(e, activity) => {
            assert_eq!(
                e,
                HttpError::LoadFailure(
                    "Activity".to_string(),
                    "https://remote.example/users/bob/inbox".to_string()
                )
            );
            assert_eq!(activity, "https://ferri.example/activities/acc-1");
        }
        other => panic!("unexpected {:?}", other),
    }
    let (state, action) = continue_outbox_request(state, OutboxEvent::Abandon, &client, &at(0));
    assert!(matches!(state, OutboxState::Finished));
    match action {
        OutboxAction::Failed(e) => assert_eq!(
            e,
            OutboxError::Delivery(
                HttpError::LoadFailure(
                    "Activity".to_string(),
                    "https://remote.example/users/bob/inbox".to_string()
                ),
                "https://ferri.example/activities/acc-1".to_string()
            )
        ),
        other => panic!("unexpected {:?}", other),
    }

    // an inbox that is no address
    let mut lost = bob();
    lost.inbox = "nowhere".to_string();
    let req = match acceptance() {
        OutboxRequest::Accept(a, k, _) => OutboxRequest::Accept(a, k, lost),
        _ => unreachable!(),
    };
    let (state, _) = begin_outbox_request(req, &local, fresh(&[]));
    let (state, _) = continue_outbox_request(state, OutboxEvent::Stored(Ok(())), &client, &at(0));
    let (_, action) =
        continue_outbox_request(state, OutboxEvent::Encoded("{}".to_string()), &client, &at(0));
    match action {
        OutboxAction::Failed(e) => assert_eq!(
            e,
            OutboxError::Delivery(
                HttpError::LoadFailure("Activity".to_string(), "nowhere".to_string()),
                "https://ferri.example/activities/acc-1".to_string()
            )
        ),
        other => panic!("unexpected {:?}", other),
    }

    // an event out of turn
    let (state, _) = begin_outbox_request(acceptance(), &local, fresh(&[]));
    let (_, action) =
        continue_outbox_request(state, OutboxEvent::Delivered(None), &client, &at(0));
    assert!(matches!(action, OutboxAction::Failed(OutboxError::Unexpected)));
    let (_, action) = continue_outbox_request(
        OutboxState::Finished,
        OutboxEvent::Stored(Ok(())),
        &client,
        &at(0),
    );
    assert!(matches!(action, OutboxAction::Failed(OutboxError::Unexpected)));
}

#[test]
fn handle_draws_its_own_identifiers() {
    let local = local(&[]);
    let (_, action) = handle_outbox_request(OutboxRequest::Status(post(), "k".to_string()), &local);
    match action {
        OutboxAction::Record(record) => {
            assert!(record.id.starts_with("https://ferri.example/activities/"));
            assert_eq!(record.id.len(), "https://ferri.example/activities/".len() + 36);
        }
        other => panic!("unexpected {:?}", other),
    }

    // a follow gets two of them: one for the edge, one for the activity
    let follower = user("amy-uuid", "https://ferri.example/users/amy-uuid");
    let followed = user("bob-uuid", "https://remote.example/users/bob");
    let (state, action) =
        handle_outbox_request(OutboxRequest::Follow { follower, followed }, &local);
    let edge = match action {
        OutboxAction::StoreFollow(follow) => {
            assert_eq!(follow.follower.0, "https://ferri.example/users/amy-uuid");
            assert_eq!(follow.followed.0, "https://remote.example/users/bob");
            assert_eq!(follow.id.0.len(), "https://ferri.example/activities/".len() + 36);
            follow.id.0
        }
        other => panic!("unexpected {:?}", other),
    };
    match state {
        OutboxState::StoringFollow { record, .. } => {
            assert_eq!(record.id.len(), "https://ferri.example/activities/".len() + 36);
            assert_ne!(record.id, edge);
        }
        other => panic!("unexpected {:?}", other),
    }
}

#[test]
fn local_post_as_a_note() {
    let note = published_note(&post(), &local(&[]).config);
    assert_eq!(note.obj.id.0, "https://ferri.example/users/amy-uuid/posts/post-1");
    assert_eq!(note.ts, "2024-12-31T23:50:00+00:00");
    assert_eq!(note.content, "hello fediverse");
    assert_eq!(note.attributed_to, Some("https://ferri.example/users/amy-uuid".to_string()));
}

#[test]
fn failed_delivery_is_tried_again_under_a_new_date() {
    let local = local(&["https://one.example/inbox", "https://two.example/inbox"]);
    let client = client();
    let (state, _) =
        begin_outbox_request(OutboxRequest::Status(post(), "k".to_string()), &local, fresh(&["s"]));
    let (state, _) = continue_outbox_request(state, OutboxEvent::Stored(Ok(())), &client, &at(0));
    let (state, first) =
        continue_outbox_request(state, OutboxEvent::Encoded("{}".to_string()), &client, &at(0));
    let first_date = match first {
        OutboxAction::Send(request) => request.headers[2].1.clone(),
        other => panic!("unexpected {:?}", other),
    };
    assert_eq!(first_date, "Thu, 01 Jan 1970 00:00:00 GMT");

    let (state, action) =
        continue_outbox_request(state, OutboxEvent::Delivered(None), &client, &at(5));
    match action {
        OutboxAction::Undelivered(e, activity) => {
            assert_eq!(
                e,
                HttpError::LoadFailure(
                    "Activity".to_string(),
                    "https://one.example/inbox".to_string()
                )
            );
            assert_eq!(activity, "https://ferri.example/activities/s");
        }
        other => panic!("unexpected {:?}", other),
    }

    // tried again: the same inbox, the same body, a new date
    let (state, again) = continue_outbox_request(state, OutboxEvent::Retry, &client, &at(60));
    match again {
        OutboxAction::Send(request) => {
            assert_eq!(request.url, "https://one.example/inbox");
            assert_eq!(request.body, "{}");
            assert_eq!(request.headers[2].1, "Thu, 01 Jan 1970 00:01:00 GMT");
        }
        other => panic!("unexpected {:?}", other),
    }

    // answered this time: on to the next inbox
    let (state, action) = continue_outbox_request(
        state,
        OutboxEvent::Delivered(Some(String::new())),
        &client,
        &at(61),
    );
    match action {
        OutboxAction::Send(request) => assert_eq!(request.url, "https://two.example/inbox"),
        other => panic!("unexpected {:?}", other),
    }
    let (state, action) = continue_outbox_request(
        state,
        OutboxEvent::Delivered(Some(String::new())),
        &client,
        &at(62),
    );
    assert!(matches!(action, OutboxAction::Done));
    assert!(matches!(state, OutboxState::Finished));

    // nothing to try again where nothing failed
    let (_, action) =
        continue_outbox_request(OutboxState::Finished, OutboxEvent::Retry, &client, &at(0));
    assert!(matches!(action, OutboxAction::Failed(OutboxError::Unexpected)));
}

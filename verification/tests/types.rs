use ferri::types::{ap, as_context, db, Object, ObjectUri};

#[test]
fn ap_actor_to_db() {
    let domain = "https://example.com";

    let ap = ap::Actor {
        obj: Object {
            context: as_context(),
            id: ObjectUri(format!("{}/users/sample", domain)),
        },
        inbox: format!("{}/users/sample/inbox", domain),
        outbox: format!("{}/users/sample/outbox", domain),
    };

    let db: db::Actor = ap.into();

    assert_eq!(
        db,
        db::Actor {
            id: ObjectUri("https://example.com/users/sample".to_string()),
            inbox: "https://example.com/users/sample/inbox".to_string(),
            outbox: "https://example.com/users/sample/outbox".to_string(),
        }
    );
}

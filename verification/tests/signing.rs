use base64::Engine;
use ferri::federation::http::{
    digest_header, get_signing_string, loaded, post_signing_string, signature_header, Fetched,
    HttpClient, HttpError, HttpWrapper, RequestVerb, SignError,
};
use ferri::time::Timestamp;
use rsa::pkcs8::EncodePrivateKey;
use rsa::sha2::Digest;
use rsa::signature::Verifier;

const P: &str = "12311124912642166450957254718411087874141754617981622853439831728894496312044853788498384673322410764791534782729741308586301152606023290894067430143703929";
const Q: &str = "12175868268027674886345244129583311419100409116555112479653188167121769463874736147291407409945731765932512656776837420135101164627762636688610793553993857";

fn test_key() -> rsa::RsaPrivateKey {
    let p = rsa::BigUint::parse_bytes(P.as_bytes(), 10).unwrap();
    let q = rsa::BigUint::parse_bytes(Q.as_bytes(), 10).unwrap();
    rsa::RsaPrivateKey::from_p_q(p, q, rsa::BigUint::from(65537u32)).unwrap()
}

fn test_key_pem() -> String {
    test_key().to_pkcs8_pem(rsa::pkcs8::LineEnding::LF).unwrap().to_string()
}

fn new_year() -> Timestamp {
    Timestamp::from_unix(1735689600, 0).unwrap()
}

fn header<'a>(headers: &'a [(String, String)], name: &str) -> &'a str {
    let found: Vec<&(String, String)> = headers.iter().filter(|h| h.0 == name).collect();
    assert_eq!(found.len(), 1, "header {} set once", name);
    found[0].1.as_str()
}

fn signature_bytes(header_value: &str) -> Vec<u8> {
    let marker = "signature=\"";
    let start = header_value.find(marker).unwrap() + marker.len();
    let rest = &header_value[start..];
    let end = rest.find('"').unwrap();
    base64::prelude::BASE64_STANDARD.decode(&rest[..end]).unwrap()
}

fn verifies(message: &[u8], signature: &[u8]) -> bool {
    let key = rsa::pkcs1v15::VerifyingKey::<rsa::sha2::Sha256>::new(test_key().to_public_key());
    match rsa::pkcs1v15::Signature::try_from(signature) {
        Ok(sig) => key.verify(message, &sig).is_ok(),
        Err(_) => false,
    }
}

#[test]
fn signing_string_for_get() {
    let s = get_signing_string("/inbox", "example.com", "Wed, 01 Jan 2025 00:00:00 GMT");
    assert_eq!(
        s,
        "(request-target): get /inbox\nhost: example.com\ndate: Wed, 01 Jan 2025 00:00:00 GMT"
    );
}

#[test]
fn signing_string_for_post() {
    let s = post_signing_string("/inbox", "example.com", "Wed, 01 Jan 2025 00:00:00 GMT", "SHA-256=abc");
    assert_eq!(
        s,
        "(request-target): post /inbox\nhost: example.com\ndate: Wed, 01 Jan 2025 00:00:00 GMT\ndigest: SHA-256=abc"
    );
}

#[test]
fn digest_of_small_body() {
    assert_eq!(
        digest_header("{\"a\":1}"),
        "SHA-256=AVq9f1zFei3ZS3WQ8ErYCEJzkF7jPsXOvq5iJ2qX+GI="
    );
}

#[test]
fn digest_of_empty_body() {
    assert_eq!(digest_header(""), "SHA-256=47DEQpj8HBSa+/TImW+5JCeuQeRkm5NMpJWZG3hSuFU=");
}

#[test]
fn digest_covers_utf8_bytes() {
    let body = "{\"content\":\"héllo ✓\"}";
    let expected = format!(
        "SHA-256={}",
        base64::prelude::BASE64_STANDARD.encode(rsa::sha2::Sha256::digest(body.as_bytes()))
    );
    assert_eq!(digest_header(body), expected);
}

#[test]
fn http_date_is_rfc7231() {
    let at = new_year();
    assert_eq!(at.to_http_date(), "Wed, 01 Jan 2025 00:00:00 GMT");
    assert_eq!(at.to_rfc3339(), "2025-01-01T00:00:00+00:00");
}

#[test]
fn get_needs_an_absolute_url() {
    let client = HttpClient::new(String::new());
    assert!(client.get("not a url").is_none());
    assert!(client.post("/relative").is_none());
    let request = client.get("https://example.com/inbox").unwrap();
    assert_eq!(request.verb, RequestVerb::GET);
    assert_eq!(request.url, "https://example.com/inbox");
    assert!(request.headers.is_empty());
    assert!(request.body.is_empty());
}

#[test]
fn signed_get_round_trip() {
    let client = HttpClient::new(test_key_pem());
    let request = client.get("https://example.com/inbox").unwrap();
    let signed =
        request.sign_at(&client, "https://ferri.example/users/amy#main-key", &new_year()).unwrap();
    assert_eq!(signed.headers.len(), 2);
    assert_eq!(signed.headers[0].0, "Date");
    assert_eq!(signed.headers[0].1, "Wed, 01 Jan 2025 00:00:00 GMT");
    assert_eq!(signed.headers[1].0, "Signature");
    let value = signed.headers[1].1.as_str();
    assert!(value.starts_with(
        "keyId=\"https://ferri.example/users/amy#main-key\",algorithm=\"rsa-sha256\",headers=\"(request-target) host date\",signature=\""
    ));
    assert!(value.ends_with('"'));

    let canonical =
        "(request-target): get /inbox\nhost: example.com\ndate: Wed, 01 Jan 2025 00:00:00 GMT";
    let signature = signature_bytes(value);
    assert!(verifies(canonical.as_bytes(), &signature));

    let bytes = canonical.as_bytes();
    for i in 0..bytes.len() {
        let mut changed = bytes.to_vec();
        changed[i] ^= 0x01;
        assert!(!verifies(&changed, &signature), "byte {} changed", i);
    }
}

#[test]
fn signed_post_covers_the_body() {
    let client = HttpClient::new(test_key_pem());
    let request = client
        .post("https://remote.example/users/bob/inbox")
        .unwrap()
        .activity()
        .json("{\"a\":1}".to_string());
    let signed = request.sign_at(&client, "key", &new_year()).unwrap();
    assert_eq!(signed.body, "{\"a\":1}");
    let names: Vec<&str> = signed.headers.iter().map(|h| h.0.as_str()).collect();
    assert_eq!(names, vec!["Content-Type", "Accept", "Date", "Digest", "Signature"]);
    assert_eq!(header(&signed.headers, "Content-Type"), "application/activity+json");
    assert_eq!(header(&signed.headers, "Accept"), "application/activity+json");
    assert_eq!(
        header(&signed.headers, "Digest"),
        "SHA-256=AVq9f1zFei3ZS3WQ8ErYCEJzkF7jPsXOvq5iJ2qX+GI="
    );
    let value = header(&signed.headers, "Signature");
    assert!(value.contains("headers=\"(request-target) host date digest\""));
    let canonical = "(request-target): post /users/bob/inbox\nhost: remote.example\ndate: Wed, 01 Jan 2025 00:00:00 GMT\ndigest: SHA-256=AVq9f1zFei3ZS3WQ8ErYCEJzkF7jPsXOvq5iJ2qX+GI=";
    assert!(verifies(canonical.as_bytes(), &signature_bytes(value)));
}

#[test]
fn signature_is_the_same_each_time() {
    let pem = test_key_pem();
    let a = signature_header(&pem, "k", "(request-target) host date", "message").unwrap();
    let b = signature_header(&pem, "k", "(request-target) host date", "message").unwrap();
    assert_eq!(a, b);
    let c = signature_header(&pem, "k", "(request-target) host date", "messagf").unwrap();
    assert_ne!(a, c);
}

#[test]
fn signing_without_a_key_fails() {
    assert_eq!(
        signature_header("no key here", "k", "(request-target) host date", "message"),
        Err(SignError::Signature)
    );
    let client = HttpClient::new("no key here".to_string());
    let request = client.get("https://example.com/inbox").unwrap();
    assert_eq!(request.sign_at(&client, "k", &new_year()).unwrap_err(), SignError::Signature);
}

#[test]
fn signing_without_a_host_fails() {
    let client = HttpClient::new(test_key_pem());
    let request = client.get("mailto:bob@example.com").unwrap();
    assert_eq!(request.sign_at(&client, "k", &new_year()).unwrap_err(), SignError::MissingHost);
}

#[test]
fn sign_uses_the_clock() {
    let client = HttpClient::new(test_key_pem());
    let signed = client.get("https://example.com/inbox").unwrap().sign(&client, "k").unwrap();
    let date = header(&signed.headers, "Date");
    assert!(date.ends_with(" GMT"));
    assert_eq!(date.len(), 29);
}

#[test]
fn wrapper_prepares_document_requests() {
    let client = HttpClient::new(test_key_pem());
    let wrapper = HttpWrapper::new(&client, "https://ferri.example/users/amy#main-key");
    let request = wrapper
        .get_at("Person", "https://remote.example/users/bob", &new_year())
        .unwrap();
    let names: Vec<&str> = request.headers.iter().map(|h| h.0.as_str()).collect();
    assert_eq!(names, vec!["Date", "Signature", "Content-Type", "Accept"]);
    assert_eq!(request.verb, RequestVerb::GET);

    assert_eq!(
        wrapper.get_at("Person", "nonsense", &new_year()).unwrap_err(),
        HttpError::LoadFailure("Person".to_string(), "nonsense".to_string())
    );
    assert_eq!(
        wrapper.get_note("nonsense").unwrap_err(),
        HttpError::LoadFailure("Note".to_string(), "nonsense".to_string())
    );
    assert!(wrapper.get_person("https://remote.example/users/bob").is_ok());
}

#[test]
fn wrapper_prepares_deliveries() {
    let client = HttpClient::new(test_key_pem());
    let wrapper = HttpWrapper::new(&client, "key");
    let request = wrapper
        .post_activity_at("https://remote.example/inbox", "{}".to_string(), &new_year())
        .unwrap();
    assert_eq!(request.verb, RequestVerb::POST);
    assert_eq!(request.body, "{}");
    let names: Vec<&str> = request.headers.iter().map(|h| h.0.as_str()).collect();
    assert_eq!(names, vec!["Content-Type", "Accept", "Date", "Digest", "Signature"]);
    assert_eq!(
        wrapper.post_activity("nonsense", "{}".to_string()).unwrap_err(),
        HttpError::LoadFailure("Activity".to_string(), "nonsense".to_string())
    );
}

#[test]
fn answers_become_documents_or_failures() {
    assert_eq!(loaded("Note", "u", Fetched::Loaded(7)), Ok(7));
    assert_eq!(
        loaded::<i32>("Note", "u", Fetched::Unreachable),
        Err(HttpError::LoadFailure("Note".to_string(), "u".to_string()))
    );
    assert_eq!(
        loaded::<i32>("Person", "u", Fetched::Malformed("eof".to_string())),
        Err(HttpError::ParseFailure("Person".to_string(), "u".to_string(), "eof".to_string()))
    );
}

#[test]
fn failures_in_words() {
    assert_eq!(
        HttpError::LoadFailure("Person".to_string(), "https://remote.example/users/bob".to_string())
            .message(),
        "entity of type `Person` @ URL `https://remote.example/users/bob` could not be loaded"
    );
    assert_eq!(
        HttpError::ParseFailure("Note".to_string(), "u".to_string(), "EOF at line 1".to_string())
            .message(),
        "entity of type `Note` @ URL `u` could not be parsed (EOF at line 1)"
    );
    assert_eq!(
        ferri::types::DbError::CreationError("locked".to_string()).message(),
        "an unknown error occured when creating: locked"
    );
    assert_eq!(
        ferri::types::DbError::FetchError("no rows".to_string()).message(),
        "an unknown error occured when fetching: no rows"
    );
}

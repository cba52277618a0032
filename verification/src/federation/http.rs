use crate::address::{host_of, url_parses, url_path, UrlParts};
use crate::time::Timestamp;
use vstd::prelude::*;
use vstd::string::*;

verus! {

/// The SHA-256 digest of a byte string.
pub uninterp spec fn sha256_digest(data: Seq<u8>) -> Seq<u8>;

/// The standard, padded base64 text of a byte string.
pub uninterp spec fn base64_standard(data: Seq<u8>) -> Seq<char>;

/// The RSASSA-PKCS1-v1_5 signature over the SHA-256 digest of `message`, as
/// the rsa crate makes it without random numbers from the private key that
/// the PKCS#8 PEM text `key_pem` holds. `None` where the text holds no such
/// key or the key cannot sign the message.
pub uninterp spec fn rsa_sha256_signature(key_pem: Seq<char>, message: Seq<u8>) -> Option<
    Seq<u8>,
>;

/// `Sha256::digest` of the `sha2` crate that `rsa` re-exports. The digest has
/// 32 bytes.
#[verifier::external_body]
fn sha256(data: &[u8]) -> (r: Vec<u8>)
    ensures
        r@ == sha256_digest(data@),
        r@.len() == 32,
{
    <rsa::sha2::Sha256 as rsa::sha2::Digest>::digest(data).to_vec()
}

/// `Engine::encode` of base64's standard engine. It panics where the length
/// of the text would not fit in `usize`, which `requires` leaves out.
#[verifier::external_body]
fn base64_encode(data: &[u8]) -> (r: String)
    requires
        base64_fits(data@.len()),
    ensures
        r@ == base64_standard(data@),
{
    base64::Engine::encode(&base64::prelude::BASE64_STANDARD, data)
}

/// `DecodePrivateKey::from_pkcs8_pem` for the key, `SigningKey::<Sha256>::new`
/// and `Signer::try_sign` for the signature. No random number goes into it:
/// the same key text and message give the same signature, or the same
/// refusal, every time.
#[verifier::external_body]
fn rsa_sign(key_pem: &str, message: &[u8]) -> (r: Option<Vec<u8>>)
    ensures
        r is Some <==> rsa_sha256_signature(key_pem@, message@) is Some,
        r matches Some(s) ==> Some(s@) == rsa_sha256_signature(key_pem@, message@),
{
    let key = match <rsa::RsaPrivateKey as rsa::pkcs8::DecodePrivateKey>::from_pkcs8_pem(key_pem) {
        Ok(key) => key,
        Err(_) => return None,
    };
    let signer = rsa::pkcs1v15::SigningKey::<rsa::sha2::Sha256>::new(key);
    match rsa::signature::Signer::try_sign(&signer, message) {
        Ok(made) => Some(rsa::signature::SignatureEncoding::to_vec(&made)),
        Err(_) => None,
    }
}

/// Whether the base64 text of `len` bytes has a length that fits in `usize`.
pub open spec fn base64_fits(len: nat) -> bool {
    len / 3 <= (usize::MAX - 4) / 4
}

/// The value of the `Digest` header for a body.
pub open spec fn digest_text(body: Seq<u8>) -> Seq<char> {
    "SHA-256="@ + base64_standard(sha256_digest(body))
}

/// The string that is signed for a GET request.
pub open spec fn get_signing_text(path: Seq<char>, host: Seq<char>, date: Seq<char>) -> Seq<
    char,
> {
    "(request-target): get "@ + path + "\nhost: "@ + host + "\ndate: "@ + date
}

/// The string that is signed for a POST request.
pub open spec fn post_signing_text(
    path: Seq<char>,
    host: Seq<char>,
    date: Seq<char>,
    digest: Seq<char>,
) -> Seq<char> {
    "(request-target): post "@ + path + "\nhost: "@ + host + "\ndate: "@ + date + "\ndigest: "@
        + digest
}

/// The value of the `Signature` header: who signed, how, over which headers,
/// and the signature in base64.
pub open spec fn signature_text(key_id: Seq<char>, signed_headers: Seq<char>, signature: Seq<u8>) -> Seq<
    char,
> {
    "keyId=\""@ + key_id + "\",algorithm=\"rsa-sha256\",headers=\""@ + signed_headers
        + "\",signature=\""@ + base64_standard(signature) + "\""@
}

pub open spec fn get_signed_headers() -> Seq<char> {
    "(request-target) host date"@
}

pub open spec fn post_signed_headers() -> Seq<char> {
    "(request-target) host date digest"@
}

/// The bytes of a text as they go over the wire.
pub open spec fn wire_bytes(text: Seq<char>) -> Seq<u8> {
    vstd::utf8::encode_utf8(text)
}

/// The `Digest` header for the body of a POST request.
pub fn digest_header(body: &str) -> (r: String)
    ensures
        r@ == digest_text(wire_bytes(body@)),
{
    let hash = sha256(body.as_bytes());
    let encoded = base64_encode(hash.as_slice());
    let mut r = String::from_str("SHA-256=");
    r.append(encoded.as_str());
    r
}

/// The canonical string over which a GET request is signed.
pub fn get_signing_string(path: &str, host: &str, date: &str) -> (r: String)
    ensures
        r@ == get_signing_text(path@, host@, date@),
{
    let mut r = String::from_str("(request-target): get ");
    r.append(path);
    r.append("\nhost: ");
    r.append(host);
    r.append("\ndate: ");
    r.append(date);
    r
}

/// The canonical string over which a POST request is signed.
pub fn post_signing_string(path: &str, host: &str, date: &str, digest: &str) -> (r: String)
    ensures
        r@ == post_signing_text(path@, host@, date@, digest@),
{
    let mut r = String::from_str("(request-target): post ");
    r.append(path);
    r.append("\nhost: ");
    r.append(host);
    r.append("\ndate: ");
    r.append(date);
    r.append("\ndigest: ");
    r.append(digest);
    r
}

/// Why a request could not be signed.
#[derive(Debug, Clone, Copy, PartialEq, Eq, Structural)]
pub enum SignError {
    /// The request's URL names no host.
    MissingHost,
    /// The key material holds no usable key.
    Signature,
}

/// The signature over `message` where there is one whose base64 text has a
/// length that fits in `usize`.
pub open spec fn usable_signature(key_pem: Seq<char>, message: Seq<u8>) -> Option<Seq<u8>> {
    match rsa_sha256_signature(key_pem, message) {
        Some(s) => if base64_fits(s.len()) {
            Some(s)
        } else {
            None
        },
        None => None,
    }
}

/// Renders the `Signature` header for a signature that is made already.
/// A signature too long for its base64 text to fit in `usize` is refused.
pub fn signature_header_of(key_id: &str, signed_headers: &str, signature: &[u8]) -> (r: Result<
    String,
    SignError,
>)
    ensures
        base64_fits(signature@.len()) ==> (r matches Ok(h) && h@ == signature_text(
            key_id@,
            signed_headers@,
            signature@,
        )),
        !base64_fits(signature@.len()) ==> r == Err::<String, SignError>(SignError::Signature),
{
    if signature.len() / 3 > (usize::MAX - 4) / 4 {
        return Err(SignError::Signature);
    }
    let encoded = base64_encode(signature);
    let mut h = String::from_str("keyId=\"");
    h.append(key_id);
    h.append("\",algorithm=\"rsa-sha256\",headers=\"");
    h.append(signed_headers);
    h.append("\",signature=\"");
    h.append(encoded.as_str());
    h.append("\"");
    Ok(h)
}

/// Signs `message` and renders the `Signature` header.
pub fn signature_header(key_pem: &str, key_id: &str, signed_headers: &str, message: &str) -> (r:
    Result<String, SignError>)
    ensures
        usable_signature(key_pem@, wire_bytes(message@)) matches Some(s) ==> r matches Ok(h) && h@
            == signature_text(key_id@, signed_headers@, s),
        usable_signature(key_pem@, wire_bytes(message@)) is None ==> r == Err::<String, SignError>(
            SignError::Signature,
        ),
{
    match rsa_sign(key_pem, message.as_bytes()) {
        Some(made) => signature_header_of(key_id, signed_headers, made.as_slice()),
        None => Err(SignError::Signature),
    }
}

#[derive(Debug, Clone, Copy, PartialEq, Eq, Structural)]
pub enum RequestVerb {
    GET,
    POST,
}

/// The headers that sign a GET request.
#[derive(Debug, PartialEq, Eq)]
pub struct GetSignature {
    pub date: String,
    pub signature: String,
}

/// The headers that sign a POST request.
#[derive(Debug, PartialEq, Eq)]
pub struct PostSignature {
    pub date: String,
    pub digest: String,
    pub signature: String,
}

/// Why a remote document could not be had.
#[derive(Debug, PartialEq, Eq)]
pub enum HttpError {
    /// The kind of entity and its URL.
    LoadFailure(String, String),
    /// The kind of entity, its URL and what the parser said.
    ParseFailure(String, String, String),
}

impl HttpError {
    /// The failure in words.
    pub open spec fn message_text(self) -> Seq<char> {
        match self {
            HttpError::LoadFailure(ty, url) => "entity of type `"@ + ty@ + "` @ URL `"@ + url@
                + "` could not be loaded"@,
            HttpError::ParseFailure(ty, url, why) => "entity of type `"@ + ty@ + "` @ URL `"@
                + url@ + "` could not be parsed ("@ + why@ + ")"@,
        }
    }

    /// The failure in words, for the log.
    pub fn message(&self) -> (r: String)
        ensures
            r@ == self.message_text(),
    {
        match self {
            HttpError::LoadFailure(ty, url) => {
                let mut r = String::from_str("entity of type `");
                r.append(ty.as_str());
                r.append("` @ URL `");
                r.append(url.as_str());
                r.append("` could not be loaded");
                r
            },
            HttpError::ParseFailure(ty, url, why) => {
                let mut r = String::from_str("entity of type `");
                r.append(ty.as_str());
                r.append("` @ URL `");
                r.append(url.as_str());
                r.append("` could not be parsed (");
                r.append(why.as_str());
                r.append(")");
                r
            },
        }
    }
}

/// The transport client: it holds the server's signing key, in PKCS#8 PEM,
/// and starts requests.
pub struct HttpClient {
    pub key_pem: String,
}

/// A request under construction: where it goes, what it carries and the
/// headers set so far, in the order in which they were set.
#[derive(Debug)]
pub struct RequestBuilder {
    pub verb: RequestVerb,
    pub url: String,
    pub body: String,
    pub headers: Vec<(String, String)>,
}

/// Names and values of a list of headers.
pub open spec fn header_texts(headers: Seq<(String, String)>) -> Seq<(Seq<char>, Seq<char>)> {
    Seq::new(headers.len(), |i: int| (headers[i].0@, headers[i].1@))
}

/// The two headers that mark a request as an ActivityPub exchange.
pub open spec fn activity_headers() -> Seq<(Seq<char>, Seq<char>)> {
    seq![
        ("Content-Type"@, "application/activity+json"@),
        ("Accept"@, "application/activity+json"@),
    ]
}

/// The headers that `sign` adds to a GET request for `url` at `date`, where
/// it can be signed.
pub open spec fn get_signature_headers(
    key_pem: Seq<char>,
    key_id: Seq<char>,
    url: Seq<char>,
    date: Seq<char>,
) -> Result<Seq<(Seq<char>, Seq<char>)>, SignError> {
    match host_of(url) {
        None => Err(SignError::MissingHost),
        Some(host) => match usable_signature(
            key_pem,
            wire_bytes(get_signing_text(url_path(url), host, date)),
        ) {
            None => Err(SignError::Signature),
            Some(s) => Ok(
                seq![("Date"@, date), ("Signature"@, signature_text(key_id, get_signed_headers(), s))],
            ),
        },
    }
}

/// The headers that `sign` adds to a POST request for `url` with `body` at
/// `date`, where it can be signed.
pub open spec fn post_signature_headers(
    key_pem: Seq<char>,
    key_id: Seq<char>,
    url: Seq<char>,
    body: Seq<char>,
    date: Seq<char>,
) -> Result<Seq<(Seq<char>, Seq<char>)>, SignError> {
    match host_of(url) {
        None => Err(SignError::MissingHost),
        Some(host) => match usable_signature(
            key_pem,
            wire_bytes(
                post_signing_text(url_path(url), host, date, digest_text(wire_bytes(body))),
            ),
        ) {
            None => Err(SignError::Signature),
            Some(s) => Ok(
                seq![
                    ("Date"@, date),
                    ("Digest"@, digest_text(wire_bytes(body))),
                    ("Signature"@, signature_text(key_id, post_signed_headers(), s)),
                ],
            ),
        },
    }
}

impl HttpClient {
    pub fn new(key_pem: String) -> (r: Self)
        ensures
            r.key_pem == key_pem,
    {
        HttpClient { key_pem }
    }

    fn request(&self, verb: RequestVerb, url: &str) -> (r: Option<RequestBuilder>)
        ensures
            r is Some <==> url_parses(url@),
            r matches Some(b) ==> b.fresh(verb, url@),
    {
        match UrlParts::parse(url) {
            Some(_) => Some(
                RequestBuilder {
                    verb,
                    url: String::from_str(url),
                    body: String::new(),
                    headers: Vec::new(),
                },
            ),
            None => None,
        }
    }

    /// Starts a GET request; `None` where `url` is no absolute URL.
    pub fn get(&self, url: &str) -> (r: Option<RequestBuilder>)
        ensures
            r is Some <==> url_parses(url@),
            r matches Some(b) ==> b.fresh(RequestVerb::GET, url@),
    {
        self.request(RequestVerb::GET, url)
    }

    /// Starts a POST request; `None` where `url` is no absolute URL.
    pub fn post(&self, url: &str) -> (r: Option<RequestBuilder>)
        ensures
            r is Some <==> url_parses(url@),
            r matches Some(b) ==> b.fresh(RequestVerb::POST, url@),
    {
        self.request(RequestVerb::POST, url)
    }
}

impl RequestBuilder {
    /// A request as `get` and `post` start it: no body, no headers.
    pub open spec fn fresh(self, verb: RequestVerb, url: Seq<char>) -> bool {
        &&& self.verb == verb
        &&& self.url@ == url
        &&& self.body@ == Seq::<char>::empty()
        &&& self.headers@ == Seq::<(String, String)>::empty()
    }

    /// This request with other headers; all the rest alike.
    pub open spec fn same_but_headers(self, other: RequestBuilder) -> bool {
        &&& self.verb == other.verb
        &&& self.url == other.url
        &&& self.body == other.body
    }

    /// The headers that signing this request with the key in `key_pem`
    /// at `date` adds.
    pub open spec fn signature_headers(
        self,
        key_pem: Seq<char>,
        key_id: Seq<char>,
        date: Seq<char>,
    ) -> Result<Seq<(Seq<char>, Seq<char>)>, SignError> {
        match self.verb {
            RequestVerb::GET => get_signature_headers(key_pem, key_id, self.url@, date),
            RequestVerb::POST => post_signature_headers(key_pem, key_id, self.url@, self.body@, date),
        }
    }

    /// What signing this request as of `at` gives: the request with the
    /// signature's headers after its own, or the reason why it has none.
    pub open spec fn signed_as_of(
        self,
        key_pem: Seq<char>,
        key_id: Seq<char>,
        at: Timestamp,
        r: Result<RequestBuilder, SignError>,
    ) -> bool {
        match self.signature_headers(key_pem, key_id, at.http_date()) {
            Ok(added) => r matches Ok(b) && b.same_but_headers(self) && header_texts(b.headers@)
                == header_texts(self.headers@) + added,
            Err(e) => r matches Err(f) && f == e,
        }
    }

    fn header(&mut self, name: &str, value: String)
        ensures
            final(self).same_but_headers(*old(self)),
            header_texts(final(self).headers@) == header_texts(old(self).headers@).push(
                (name@, value@),
            ),
    {
        self.headers.push((String::from_str(name), value));
        assert(header_texts(self.headers@) =~= header_texts(old(self).headers@).push(
            (name@, value@),
        ));
    }

    /// Sets the body: the JSON text of the payload, as it will be sent.
    pub fn json(self, json: String) -> (r: RequestBuilder)
        ensures
            r.body == json,
            r.verb == self.verb,
            r.url == self.url,
            r.headers == self.headers,
    {
        let mut r = self;
        r.body = json;
        r
    }

    /// Marks the request as an ActivityPub exchange.
    pub fn activity(self) -> (r: RequestBuilder)
        ensures
            r.same_but_headers(self),
            header_texts(r.headers@) == header_texts(self.headers@) + activity_headers(),
    {
        let mut r = self;
        r.header("Content-Type", String::from_str("application/activity+json"));
        r.header("Accept", String::from_str("application/activity+json"));
        assert(header_texts(r.headers@) =~= header_texts(self.headers@) + activity_headers());
        r
    }

    fn sign_get_request(&self, key_pem: &str, key_id: &str, date: String) -> (r: Result<
        GetSignature,
        SignError,
    >)
        ensures
            get_signature_headers(key_pem@, key_id@, self.url@, date@) matches Ok(h) ==> r
                matches Ok(sig) && h == seq![
                ("Date"@, sig.date@),
                ("Signature"@, sig.signature@),
            ],
            get_signature_headers(key_pem@, key_id@, self.url@, date@) matches Err(e) ==> r
                == Err::<GetSignature, SignError>(e),
    {
        let parts = match UrlParts::parse(self.url.as_str()) {
            Some(parts) => parts,
            None => return Err(SignError::MissingHost),
        };
        let host = match &parts.host {
            Some(host) => host,
            None => return Err(SignError::MissingHost),
        };
        let to_sign = get_signing_string(parts.path.as_str(), host.as_str(), date.as_str());
        let header = signature_header(
            key_pem,
            key_id,
            "(request-target) host date",
            to_sign.as_str(),
        )?;
        Ok(GetSignature { date, signature: header })
    }

    fn sign_post_request(&self, key_pem: &str, key_id: &str, date: String) -> (r: Result<
        PostSignature,
        SignError,
    >)
        ensures
            post_signature_headers(key_pem@, key_id@, self.url@, self.body@, date@) matches Ok(h)
                ==> r matches Ok(sig) && h == seq![
                ("Date"@, sig.date@),
                ("Digest"@, sig.digest@),
                ("Signature"@, sig.signature@),
            ],
            post_signature_headers(key_pem@, key_id@, self.url@, self.body@, date@) matches Err(e)
                ==> r == Err::<PostSignature, SignError>(e),
    {
        let parts = match UrlParts::parse(self.url.as_str()) {
            Some(parts) => parts,
            None => return Err(SignError::MissingHost),
        };
        let host = match &parts.host {
            Some(host) => host,
            None => return Err(SignError::MissingHost),
        };
        let digest = digest_header(self.body.as_str());
        let to_sign = post_signing_string(
            parts.path.as_str(),
            host.as_str(),
            date.as_str(),
            digest.as_str(),
        );
        let header = signature_header(
            key_pem,
            key_id,
            "(request-target) host date digest",
            to_sign.as_str(),
        )?;
        Ok(PostSignature { date, digest, signature: header })
    }

    /// Signs the request with the client's key as of `at`: adds `Date`, for
    /// a POST `Digest`, and `Signature`. The signature covers the body as it
    /// stands, so the body must be set before.
    pub fn sign_at(self, client: &HttpClient, key_id: &str, at: &Timestamp) -> (r: Result<
        RequestBuilder,
        SignError,
    >)
        ensures
            self.signed_as_of(client.key_pem@, key_id@, *at, r),
    {
        let key_pem = client.key_pem.as_str();
        let date = at.to_http_date();
        let mut r = self;
        match r.verb {
            RequestVerb::GET => {
                let sig = r.sign_get_request(key_pem, key_id, date)?;
                r.header("Date", sig.date);
                r.header("Signature", sig.signature);
            },
            RequestVerb::POST => {
                let sig = r.sign_post_request(key_pem, key_id, date)?;
                r.header("Date", sig.date);
                r.header("Digest", sig.digest);
                r.header("Signature", sig.signature);
            },
        }
        proof {
            let added = self.signature_headers(client.key_pem@, key_id@, at.http_date())->Ok_0;
            assert(header_texts(r.headers@) =~= header_texts(self.headers@) + added);
        }
        Ok(r)
    }

    /// Signs the request with the client's key as of now.
    pub fn sign(self, client: &HttpClient, key_id: &str) -> (r: Result<RequestBuilder, SignError>)
        ensures
            exists|at: Timestamp|
                at.representable() && #[trigger] self.signed_as_of(
                    client.key_pem@,
                    key_id@,
                    at,
                    r,
                ),
    {
        let at = Timestamp::now();
        self.sign_at(client, key_id, &at)
    }
}

/// Signs requests for one key id with the client's key.
pub struct HttpWrapper<'a> {
    client: &'a HttpClient,
    key_id: &'a str,
}

/// What came of sending a request for a document: the document, no answer,
/// or an answer that is no such document, with the parser's words.
#[derive(Debug, PartialEq, Eq)]
pub enum Fetched<T> {
    Loaded(T),
    Unreachable,
    Malformed(String),
}

/// The request for a document at `url` as of `at`: a GET, signed, then
/// marked as an ActivityPub exchange. `None` where `url` is no absolute URL
/// or the request cannot be signed.
pub open spec fn document_request(
    key_pem: Seq<char>,
    key_id: Seq<char>,
    url: Seq<char>,
    at: Timestamp,
) -> Option<Seq<(Seq<char>, Seq<char>)>> {
    if url_parses(url) {
        match get_signature_headers(key_pem, key_id, url, at.http_date()) {
            Ok(added) => Some(added + activity_headers()),
            Err(_) => None,
        }
    } else {
        None
    }
}

/// The request that delivers `body` to `inbox` as of `at`: a POST, marked as
/// an ActivityPub exchange, the body set, then signed over that body.
pub open spec fn delivery_request(
    key_pem: Seq<char>,
    key_id: Seq<char>,
    inbox: Seq<char>,
    body: Seq<char>,
    at: Timestamp,
) -> Option<Seq<(Seq<char>, Seq<char>)>> {
    if url_parses(inbox) {
        match post_signature_headers(key_pem, key_id, inbox, body, at.http_date()) {
            Ok(added) => Some(activity_headers() + added),
            Err(_) => None,
        }
    } else {
        None
    }
}

/// A failure to load the entity of kind `ty` at `url`.
pub open spec fn is_load_failure(e: HttpError, ty: Seq<char>, url: Seq<char>) -> bool {
    e matches HttpError::LoadFailure(t, u) && t@ == ty && u@ == url
}

/// `r` is the request with the given parts, or the load failure where there
/// is none.
pub open spec fn prepared_as(
    r: Result<RequestBuilder, HttpError>,
    verb: RequestVerb,
    ty: Seq<char>,
    url: Seq<char>,
    body: Seq<char>,
    headers: Option<Seq<(Seq<char>, Seq<char>)>>,
) -> bool {
    match headers {
        Some(h) => r matches Ok(b) && b.verb == verb && b.url@ == url && b.body@ == body
            && header_texts(b.headers@) == h,
        None => r matches Err(e) && is_load_failure(e, ty, url),
    }
}

impl<'a> HttpWrapper<'a> {
    pub closed spec fn key_pem(&self) -> Seq<char> {
        self.client.key_pem@
    }

    pub closed spec fn key(&self) -> Seq<char> {
        self.key_id@
    }

    pub fn new(client: &'a HttpClient, key_id: &'a str) -> (r: HttpWrapper<'a>)
        ensures
            r.key_pem() == client.key_pem@,
            r.key() == key_id@,
    {
        HttpWrapper { client, key_id }
    }

    pub fn client(&self) -> (r: &'a HttpClient)
        ensures
            r.key_pem@ == self.key_pem(),
    {
        self.client
    }

    /// The signed request for the document of kind `ty` at `url`, as of `at`.
    pub fn get_at(&self, ty: &str, url: &str, at: &Timestamp) -> (r: Result<
        RequestBuilder,
        HttpError,
    >)
        ensures
            prepared_as(
                r,
                RequestVerb::GET,
                ty@,
                url@,
                Seq::<char>::empty(),
                document_request(self.key_pem(), self.key(), url@, *at),
            ),
    {
        let request = match self.client.get(url) {
            Some(request) => request,
            None => return Err(HttpError::LoadFailure(String::from_str(ty), String::from_str(url))),
        };
        let ghost unsigned = request;
        match request.sign_at(self.client, self.key_id, at) {
            Ok(signed) => {
                let marked = signed.activity();
                proof {
                    let added = get_signature_headers(
                        self.key_pem(),
                        self.key(),
                        url@,
                        at.http_date(),
                    )->Ok_0;
                    assert(header_texts(unsigned.headers@) =~= Seq::empty());
                    assert(header_texts(marked.headers@) =~= added + activity_headers());
                }
                Ok(marked)
            },
            Err(_) => Err(HttpError::LoadFailure(String::from_str(ty), String::from_str(url))),
        }
    }

    fn get(&self, ty: &str, url: &str) -> (r: Result<RequestBuilder, HttpError>)
        ensures
            exists|at: Timestamp|
                at.representable() && prepared_as(
                    r,
                    RequestVerb::GET,
                    ty@,
                    url@,
                    Seq::<char>::empty(),
                    #[trigger] document_request(self.key_pem(), self.key(), url@, at),
                ),
    {
        let at = Timestamp::now();
        self.get_at(ty, url, &at)
    }

    /// The signed request for the actor document at `url`, as of now.
    pub fn get_person(&self, url: &str) -> (r: Result<RequestBuilder, HttpError>)
        ensures
            exists|at: Timestamp|
                at.representable() && prepared_as(
                    r,
                    RequestVerb::GET,
                    "Person"@,
                    url@,
                    Seq::<char>::empty(),
                    #[trigger] document_request(self.key_pem(), self.key(), url@, at),
                ),
    {
        self.get("Person", url)
    }

    /// The signed request for the note at `url`, as of now.
    pub fn get_note(&self, url: &str) -> (r: Result<RequestBuilder, HttpError>)
        ensures
            exists|at: Timestamp|
                at.representable() && prepared_as(
                    r,
                    RequestVerb::GET,
                    "Note"@,
                    url@,
                    Seq::<char>::empty(),
                    #[trigger] document_request(self.key_pem(), self.key(), url@, at),
                ),
    {
        self.get("Note", url)
    }

    /// The signed request that delivers an activity, given as its JSON text,
    /// to `inbox`, as of `at`.
    pub fn post_activity_at(&self, inbox: &str, activity: String, at: &Timestamp) -> (r: Result<
        RequestBuilder,
        HttpError,
    >)
        ensures
            prepared_as(
                r,
                RequestVerb::POST,
                "Activity"@,
                inbox@,
                activity@,
                delivery_request(self.key_pem(), self.key(), inbox@, activity@, *at),
            ),
    {
        let request = match self.client.post(inbox) {
            Some(request) => request,
            None => return Err(
                HttpError::LoadFailure(String::from_str("Activity"), String::from_str(inbox)),
            ),
        };
        let ghost unsigned = request;
        let filled = request.activity().json(activity);
        match filled.sign_at(self.client, self.key_id, at) {
            Ok(signed) => {
                proof {
                    let added = post_signature_headers(
                        self.key_pem(),
                        self.key(),
                        inbox@,
                        activity@,
                        at.http_date(),
                    )->Ok_0;
                    assert(header_texts(unsigned.headers@) =~= Seq::empty());
                    assert(header_texts(signed.headers@) =~= activity_headers() + added);
                }
                Ok(signed)
            },
            Err(_) => Err(
                HttpError::LoadFailure(String::from_str("Activity"), String::from_str(inbox)),
            ),
        }
    }

    /// The signed request that delivers an activity to `inbox`, as of now.
    pub fn post_activity(&self, inbox: &str, activity: String) -> (r: Result<
        RequestBuilder,
        HttpError,
    >)
        ensures
            exists|at: Timestamp|
                at.representable() && prepared_as(
                    r,
                    RequestVerb::POST,
                    "Activity"@,
                    inbox@,
                    activity@,
                    #[trigger] delivery_request(self.key_pem(), self.key(), inbox@, activity@, at),
                ),
    {
        let at = Timestamp::now();
        self.post_activity_at(inbox, activity, &at)
    }
}

/// What the answer to a request for the entity of kind `ty` at `url` comes
/// to: the document, or the failure to load or to read it.
pub fn loaded<T>(ty: &str, url: &str, fetched: Fetched<T>) -> (r: Result<T, HttpError>)
    ensures
        fetched matches Fetched::Loaded(d) ==> r matches Ok(v) && v == d,
        fetched is Unreachable ==> (r matches Err(e) && is_load_failure(e, ty@, url@)),
        fetched matches Fetched::Malformed(why) ==> r matches Err(
            HttpError::ParseFailure(t, u, w),
        ) && t@ == ty@ && u@ == url@ && w == why,
{
    match fetched {
        Fetched::Loaded(document) => Ok(document),
        Fetched::Unreachable => Err(
            HttpError::LoadFailure(String::from_str(ty), String::from_str(url)),
        ),
        Fetched::Malformed(why) => Err(
            HttpError::ParseFailure(String::from_str(ty), String::from_str(url), why),
        ),
    }
}

} // verus!

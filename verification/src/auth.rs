//! NIP-98 HTTP authentication.
//!
//! `Authorization: Nostr <event in Base64>`, where the event
//!
//! - has kind 27235,
//! - has a `u` tag with the exact request URL,
//! - has a `method` tag with the HTTP method in upper case,
//! - was created within 60 seconds of now,
//! - has a valid Schnorr signature over its id.

use vstd::prelude::*;
use vstd::string::*;

use crate::crypto::base64_bytes;
use crate::crypto::base64_decode;
use crate::crypto::bech32_encode;
use crate::crypto::bech32_text;
use crate::crypto::hex_bytes;
use crate::crypto::hex_decode;
use crate::crypto::hex_encode;
use crate::crypto::hex_error;
use crate::crypto::hex_text;
use crate::crypto::is_xonly_key;
use crate::crypto::schnorr_verified;
use crate::crypto::schnorr_verifies;
use crate::crypto::sha256;
use crate::crypto::sha256_of;
use crate::crypto::xonly_key_accepted;
use crate::error::AppError;
use crate::error::AppResult;
use crate::error::ErrorView;
use crate::error::refused_as;
use crate::json::json_of_string_table;
use crate::json::json_string;
use crate::json::lemma_same_rest;
use crate::json::lemma_string_tells;
use crate::json::lemma_table_tells;
use crate::tags::first_tag;
use crate::tags::tag_value;
use crate::text::ascii_uppercase;
use crate::text::chars_of;
use crate::text::contains_char;
use crate::text::dec;
use crate::text::decimal;
use crate::text::lemma_dec_tells;
use crate::text::opt_view;
use crate::text::same;
use crate::text::strip_prefix;
use crate::text::to_ascii_uppercase;

verus! {

pub struct AuthUser {
    pub npub: String,
    pub public_key: String,
}

/// The event that a request carries.
pub struct Nip98Event {
    pub id: String,
    pub pubkey: String,
    pub created_at: i64,
    pub kind: u32,
    pub tags: Vec<Vec<String>>,
    pub content: String,
    pub sig: String,
}

/// A JSON array of a number, a text, two numbers, a list of lists of texts and a text.
pub open spec fn event_array(
    lead: i32,
    pubkey: Seq<char>,
    created_at: i64,
    kind: u32,
    tags: Seq<Seq<Seq<char>>>,
    content: Seq<char>,
) -> Seq<char> {
    "["@ + dec(lead as int) + ","@ + json_string(pubkey) + ","@ + dec(created_at as int) + ","@
        + dec(kind as int) + ","@ + json_of_string_table(tags) + ","@ + json_string(content) + "]"@
}

/// `serde_json::to_string` on the array of its arguments: numbers, texts and lists of
/// texts are always written, numbers in decimal, texts as JSON strings, lists as arrays,
/// and all without white space.
#[verifier::external_body]
fn write_event(
    lead: i32,
    pubkey: &str,
    created_at: i64,
    kind: u32,
    tags: &Vec<Vec<String>>,
    content: &str,
) -> (r: Result<String, String>)
    ensures
        r is Ok,
        r->Ok_0@ == event_array(lead, pubkey@, created_at, kind, tags.deep_view(), content@),
{
    serde_json::to_string(&(lead, pubkey, created_at, kind, tags, content)).map_err(|e| e.to_string())
}

/// The JSON array that an event's id is the hash of:
/// `[0, pubkey, created_at, kind, tags, content]`.
pub open spec fn event_json(e: Nip98Event) -> Seq<char> {
    event_array(0, e.pubkey@, e.created_at, e.kind, e.tags.deep_view(), e.content@)
}

/// The bytes that an event's id is the hash of.
pub open spec fn event_bytes(e: Nip98Event) -> Seq<u8> {
    vstd::utf8::encode_utf8(event_json(e))
}

/// The digest that an event's id spells out.
pub open spec fn event_digest(e: Nip98Event) -> Seq<u8> {
    sha256_of(event_bytes(e))
}

/// Why an event's signature is not accepted, if it is not.
pub open spec fn signature_refusal(e: Nip98Event) -> Option<ErrorView> {
    let key = hex_bytes(e.pubkey@);
    let signature = hex_bytes(e.sig@);
    if hex_text(event_digest(e)) != e.id@ {
        Some(ErrorView::Unauthorized("event id mismatch"@))
    } else if key is None {
        Some(ErrorView::Unauthorized("invalid pubkey hex"@))
    } else if !is_xonly_key(key->0) {
        Some(ErrorView::Unauthorized("invalid xonly pubkey"@))
    } else if signature is None {
        Some(ErrorView::Unauthorized("invalid sig hex"@))
    } else if signature->0.len() != 64 {
        Some(ErrorView::Unauthorized("invalid schnorr sig"@))
    } else if !schnorr_verifies(signature->0, event_digest(e), key->0) {
        Some(ErrorView::Unauthorized("signature verification failed"@))
    } else {
        None
    }
}

impl Nip98Event {
    /// Checks that the event's id is the hash of its contents and that its signature
    /// over that id is the author's.
    pub fn verify_signature(&self) -> (r: AppResult<()>)
        ensures
            refused_as(r, signature_refusal(*self)),
    {
        let serialised: String = match write_event(
            0,
            self.pubkey.as_str(),
            self.created_at,
            self.kind,
            &self.tags,
            self.content.as_str(),
        ) {
            Ok(text) => text,
            Err(e) => {
                let mut m: String = "serialise error: ".to_owned();
                m.append(e.as_str());
                return Err(AppError::Unauthorized(m));
            },
        };
        let hash: Vec<u8> = sha256(serialised.as_str().as_bytes());
        let id: String = hex_encode(hash.as_slice());
        if !same(id.as_str(), self.id.as_str()) {
            return Err(AppError::unauthorized("event id mismatch"));
        }
        let key: Vec<u8> = match hex_decode(self.pubkey.as_str()) {
            Ok(bytes) => bytes,
            Err(_) => {
                return Err(AppError::unauthorized("invalid pubkey hex"));
            },
        };
        if !xonly_key_accepted(key.as_slice()) {
            return Err(AppError::unauthorized("invalid xonly pubkey"));
        }
        let signature: Vec<u8> = match hex_decode(self.sig.as_str()) {
            Ok(bytes) => bytes,
            Err(_) => {
                return Err(AppError::unauthorized("invalid sig hex"));
            },
        };
        if signature.len() != 64 {
            return Err(AppError::unauthorized("invalid schnorr sig"));
        }
        if !schnorr_verified(signature.as_slice(), hash.as_slice(), key.as_slice()) {
            return Err(AppError::unauthorized("signature verification failed"));
        }
        Ok(())
    }

    /// The value of the first tag of the given name.
    pub fn get_tag(&self, name: &str) -> (r: Option<&str>)
        ensures
            match r {
                Some(value) => tag_value(self.tags.deep_view(), name@) == Some(value@),
                None => tag_value(self.tags.deep_view(), name@) is None,
            },
    {
        match first_tag(&self.tags, name) {
            Some(value) => Some(value.as_str()),
            None => None,
        }
    }
}

/// A text in the Base64 alphabet for URLs, in the standard one.
pub open spec fn standard_alphabet(token: Seq<char>) -> Seq<char> {
    token.map_values(
        |c: char|
            if c == '-' {
                '+'
            } else if c == '_' {
                '/'
            } else {
                c
            },
    )
}

fn to_standard_alphabet(token: &str) -> (r: String)
    ensures
        r@ == standard_alphabet(token@),
{
    let v: Vec<char> = chars_of(token);
    let mut r: String = String::new();
    let mut i: usize = 0;
    while i < v.len()
        invariant
            i <= v@.len(),
            v@ == token@,
            r@ == standard_alphabet(token@.take(i as int)),
        decreases v@.len() - i,
    {
        let c: char = v[i];
        r.push(
            if c == '-' {
                '+'
            } else if c == '_' {
                '/'
            } else {
                c
            },
        );
        assert(r@ =~= standard_alphabet(token@.take(i + 1)));
        i = i + 1;
    }
    assert(token@.take(i as int) =~= token@);
    r
}

/// What is missing at the end of a Base64 text that is not padded.
pub open spec fn missing_padding(token: Seq<char>) -> Seq<char> {
    if token.contains('=') {
        Seq::empty()
    } else if token.len() % 4 == 2 {
        seq!['=', '=']
    } else if token.len() % 4 == 3 {
        seq!['=']
    } else {
        Seq::empty()
    }
}

/// A token in the standard alphabet of Base64 and padded. One that holds a character of
/// that alphabet alone must be so already; any other may be in the alphabet for URLs,
/// padded or not.
pub open spec fn standard_form(token: Seq<char>) -> Seq<char> {
    if token.contains('+') || token.contains('/') {
        token
    } else {
        standard_alphabet(token) + missing_padding(token)
    }
}

fn to_standard_form(token: &str) -> (r: String)
    ensures
        r@ == standard_form(token@),
{
    if contains_char(token, '+') || contains_char(token, '/') {
        return token.to_owned();
    }
    let mut r: String = to_standard_alphabet(token);
    let length: usize = chars_of(token).len();
    if !contains_char(token, '=') {
        if length % 4 == 2 {
            r.push('=');
            r.push('=');
        } else if length % 4 == 3 {
            r.push('=');
        }
    }
    assert(r@ =~= standard_form(token@));
    r
}

/// What an `Authorization` header carries: the bytes of its token, or why there are
/// none.
pub open spec fn header_refusal(header: Option<Seq<char>>) -> Option<ErrorView> {
    match header {
        None => Some(ErrorView::Unauthorized("missing Authorization header"@)),
        Some(h) => if !"Nostr "@.is_prefix_of(h) {
            Some(ErrorView::Unauthorized("Authorization must start with 'Nostr '"@))
        } else if base64_bytes(standard_form(h.skip("Nostr "@.len() as int))) is None {
            Some(ErrorView::Unauthorized("invalid base64"@))
        } else {
            None
        },
    }
}

/// The bytes of the event that an `Authorization` header carries. The token is in Base64:
/// in the alphabet for URLs, padded or not, or in the standard one, padded.
pub fn authorization_payload(header: Option<&str>) -> (r: AppResult<Vec<u8>>)
    ensures
        refused_as(r, header_refusal(opt_view(header))),
        r matches Ok(bytes) ==> base64_bytes(
            standard_form(header->0@.skip("Nostr "@.len() as int)),
        ) == Some(bytes@),
{
    match header {
        None => Err(AppError::unauthorized("missing Authorization header")),
        Some(h) => match strip_prefix(h, "Nostr ") {
            None => Err(AppError::unauthorized("Authorization must start with 'Nostr '")),
            Some(token) => {
                assert(h@.skip("Nostr "@.len() as int) =~= token@);
                assert(h@.subrange(0, "Nostr "@.len() as int) =~= "Nostr "@);
                let standard: String = to_standard_form(token.as_str());
                match base64_decode(standard.as_str()) {
                    Some(bytes) => Ok(bytes),
                    None => Err(AppError::unauthorized("invalid base64")),
                }
            },
        },
    }
}

/// The npub of a public key in hexadecimal, or why there is none.
pub open spec fn npub_of(hex_pubkey: Seq<char>) -> Result<Seq<char>, Seq<char>> {
    match hex_bytes(hex_pubkey) {
        Some(bytes) => bech32_text("npub"@, bytes),
        None => Err(hex_error(hex_pubkey)),
    }
}

/// The npub of a public key in hexadecimal.
pub fn pubkey_to_npub(hex_pubkey: &str) -> (r: Result<String, String>)
    ensures
        match r {
            Ok(npub) => npub_of(hex_pubkey@) == Ok::<Seq<char>, Seq<char>>(npub@),
            Err(e) => npub_of(hex_pubkey@) == Err::<Seq<char>, Seq<char>>(e@),
        },
{
    match hex_decode(hex_pubkey) {
        Ok(bytes) => bech32_encode("npub", bytes.as_slice()),
        Err(e) => Err(e),
    }
}

/// The kind of the events that authenticate requests.
pub const AUTH_KIND: u32 = 27235;

/// Created within 60 seconds of now.
pub open spec fn is_fresh(created_at: i64, now: i64) -> bool {
    -60 <= now - created_at <= 60
}

/// Why an event does not authenticate a request, if it does not.
pub open spec fn event_refusal(
    event: Option<Nip98Event>,
    method: Seq<char>,
    url: Seq<char>,
    now: i64,
) -> Option<ErrorView> {
    match event {
        None => Some(ErrorView::Unauthorized("invalid event JSON"@)),
        Some(e) => {
            let u = tag_value(e.tags.deep_view(), "u"@);
            let m = tag_value(e.tags.deep_view(), "method"@);
            if e.kind != AUTH_KIND {
                Some(ErrorView::Unauthorized("expected kind 27235, got "@ + dec(e.kind as int)))
            } else if !is_fresh(e.created_at, now) {
                Some(ErrorView::Unauthorized("event timestamp expired"@))
            } else if u is None {
                Some(ErrorView::Unauthorized("missing 'u' tag"@))
            } else if u->0 != url {
                Some(
                    ErrorView::Unauthorized(
                        "url mismatch: expected '"@ + url + "', got '"@ + u->0 + "'"@,
                    ),
                )
            } else if m is None {
                Some(ErrorView::Unauthorized("missing 'method' tag"@))
            } else if m->0 != ascii_uppercase(method) {
                Some(ErrorView::Unauthorized("method mismatch"@))
            } else if signature_refusal(e) is Some {
                signature_refusal(e)
            } else {
                match npub_of(e.pubkey@) {
                    Ok(_) => None,
                    Err(text) => Some(ErrorView::Unauthorized("npub encode failed: "@ + text)),
                }
            }
        },
    }
}

/// The npub and the public key that an event proves a request to come from, at a
/// given time.
pub fn verify_event_at(event: &Option<Nip98Event>, method: &str, url: &str, now: i64) -> (r:
    AppResult<(String, String)>)
    ensures
        refused_as(r, event_refusal(*event, method@, url@, now)),
        r matches Ok(user) ==> {
            &&& user.1 == event->0.pubkey
            &&& npub_of(event->0.pubkey@) == Ok::<Seq<char>, Seq<char>>(user.0@)
        },
{
    match event {
        None => Err(AppError::unauthorized("invalid event JSON")),
        Some(event) => {
            if event.kind != AUTH_KIND {
                let kind: String = decimal(event.kind as i64);
                let mut m: String = "expected kind 27235, got ".to_owned();
                m.append(kind.as_str());
                return Err(AppError::Unauthorized(m));
            }
            let age: i128 = now as i128 - event.created_at as i128;
            if age > 60 || age < -60 {
                return Err(AppError::unauthorized("event timestamp expired"));
            }
            match event.get_tag("u") {
                None => {
                    return Err(AppError::unauthorized("missing 'u' tag"));
                },
                Some(event_url) => {
                    if !same(event_url, url) {
                        let mut m: String = "url mismatch: expected '".to_owned();
                        m.append(url);
                        m.append("', got '");
                        m.append(event_url);
                        m.append("'");
                        return Err(AppError::Unauthorized(m));
                    }
                },
            }
            match event.get_tag("method") {
                None => {
                    return Err(AppError::unauthorized("missing 'method' tag"));
                },
                Some(event_method) => {
                    let method: String = to_ascii_uppercase(method);
                    if !same(event_method, method.as_str()) {
                        return Err(AppError::unauthorized("method mismatch"));
                    }
                },
            }
            match event.verify_signature() {
                Ok(_) => {},
                Err(e) => {
                    return Err(e);
                },
            }
            match pubkey_to_npub(event.pubkey.as_str()) {
                Ok(npub) => Ok((npub, event.pubkey.clone())),
                Err(e) => {
                    let mut m: String = "npub encode failed: ".to_owned();
                    m.append(e.as_str());
                    Err(AppError::Unauthorized(m))
                },
            }
        },
    }
}

/// The time that events are held against, given what the clock shows: a clock before 1970
/// counts as showing 1970.
pub open spec fn time_shown(read: Result<u64, String>) -> i64 {
    match read {
        Ok(secs) => secs as i64,
        Err(_) => 0,
    }
}

/// The time that events are held against, given what the clock shows.
pub fn time_or_zero(read: &Result<u64, String>) -> (r: i64)
    ensures
        r == time_shown(*read),
{
    match read {
        Ok(secs) => *secs as i64,
        Err(_) => 0,
    }
}

/// The npub and the public key that an event proves a request to come from, now.
pub fn verify_nip98_header(event: &Option<Nip98Event>, method: &str, url: &str) -> (r: AppResult<
    (String, String),
>)
    ensures
        exists|read: Result<u64, String>|
            refused_as(r, event_refusal(*event, method@, url@, #[trigger] time_shown(read))),
        r matches Ok(user) ==> {
            &&& user.1 == event->0.pubkey
            &&& npub_of(event->0.pubkey@) == Ok::<Seq<char>, Seq<char>>(user.0@)
        },
{
    let read: Result<u64, String> = crate::clock::unix_time();
    let now: i64 = time_or_zero(&read);
    let r: AppResult<(String, String)> = verify_event_at(event, method, url, now);
    assert(refused_as(r, event_refusal(*event, method@, url@, time_shown(read))));
    r
}

/// The URL that a request's event must name: the path with the query.
pub open spec fn request_url_of(path: Seq<char>, query: Option<Seq<char>>) -> Seq<char> {
    match query {
        Some(q) => path + "?"@ + q,
        None => path,
    }
}

/// The URL that a request's event must name.
pub fn request_url(path: &str, query: Option<&str>) -> (r: String)
    ensures
        r@ == request_url_of(path@, opt_view(query)),
{
    let mut url: String = path.to_owned();
    match query {
        Some(q) => {
            url.append("?");
            url.append(q);
        },
        None => {},
    }
    url
}

impl AuthUser {
    /// The user that a request's event proves it to come from.
    pub fn from_request_parts(
        event: &Option<Nip98Event>,
        method: &str,
        path: &str,
        query: Option<&str>,
    ) -> (r: AppResult<AuthUser>)
        ensures
            exists|read: Result<u64, String>|
                refused_as(
                    r,
                    event_refusal(
                        *event,
                        method@,
                        request_url_of(path@, opt_view(query)),
                        #[trigger] time_shown(read),
                    ),
                ),
            r matches Ok(user) ==> {
                &&& user.public_key == event->0.pubkey
                &&& npub_of(event->0.pubkey@) == Ok::<Seq<char>, Seq<char>>(user.npub@)
            },
    {
        let url: String = request_url(path, query);
        let verified: AppResult<(String, String)> = verify_nip98_header(
            event,
            method,
            url.as_str(),
        );
        let ghost read = choose|read: Result<u64, String>|
            refused_as(
                verified,
                event_refusal(*event, method@, url@, #[trigger] time_shown(read)),
            );
        let r: AppResult<AuthUser> = match verified {
            Ok((npub, public_key)) => Ok(AuthUser { npub, public_key }),
            Err(e) => Err(e),
        };
        assert(refused_as(r, event_refusal(*event, method@, url@, time_shown(read))));
        r
    }
}

/// A request is let in only with an event that is fresh, names this very URL and
/// method, and is signed by the key that the user is known by.
pub proof fn law_admitted_events_are_genuine(
    event: Option<Nip98Event>,
    method: Seq<char>,
    url: Seq<char>,
    now: i64,
)
    requires
        event_refusal(event, method, url, now) is None,
    ensures
        event is Some,
        event->0.kind == 27235,
        -60 <= now - event->0.created_at <= 60,
        tag_value(event->0.tags.deep_view(), "u"@) == Some(url),
        tag_value(event->0.tags.deep_view(), "method"@) == Some(ascii_uppercase(method)),
        hex_bytes(event->0.id@) == Some(event_digest(event->0)),
        hex_bytes(event->0.pubkey@) is Some,
        hex_bytes(event->0.sig@) is Some,
        schnorr_verifies(
            hex_bytes(event->0.sig@)->0,
            hex_bytes(event->0.id@)->0,
            hex_bytes(event->0.pubkey@)->0,
        ),
{
    crate::crypto::law_hex_round_trip(event_digest(event->0));
}

/// Two events hold the same: author, time, kind, tags and content.
pub open spec fn same_contents(a: Nip98Event, b: Nip98Event) -> bool {
    &&& a.pubkey@ == b.pubkey@
    &&& a.created_at == b.created_at
    &&& a.kind == b.kind
    &&& a.tags.deep_view() == b.tags.deep_view()
    &&& a.content@ == b.content@
}

/// SHA-256 does not take two events for one another: they are no collision.
pub open spec fn no_collision(a: Nip98Event, b: Nip98Event) -> bool {
    event_digest(a) == event_digest(b) ==> event_bytes(a) == event_bytes(b)
}

/// Six parts of an array, from the left and from the right.
proof fn lemma_parts(a: Seq<char>, b: Seq<char>, c: Seq<char>, d: Seq<char>, e: Seq<char>, f: Seq<char>)
    ensures
        "["@ + a + ","@ + b + ","@ + c + ","@ + d + ","@ + e + ","@ + f + "]"@ == "["@ + (a + (","@
            + (b + (","@ + (c + (","@ + (d + (","@ + (e + (","@ + (f + "]"@))))))))))),
{
    assert("["@ + a + ","@ + b + ","@ + c + ","@ + d + ","@ + e + ","@ + f + "]"@ =~= "["@ + (a + (","@
        + (b + (","@ + (c + (","@ + (d + (","@ + (e + (","@ + (f + "]"@))))))))))));
}

/// The array tells all that it was written from.
proof fn lemma_array_tells(
    a: (Seq<char>, i64, u32, Seq<Seq<Seq<char>>>, Seq<char>),
    b: (Seq<char>, i64, u32, Seq<Seq<Seq<char>>>, Seq<char>),
)
    requires
        event_array(0, a.0, a.1, a.2, a.3, a.4) == event_array(0, b.0, b.1, b.2, b.3, b.4),
    ensures
        a == b,
{
    reveal_strlit("[");
    reveal_strlit(",");
    assert("["@ =~= seq!['[']);
    assert(","@ =~= seq![',']);
    lemma_parts(
        dec(0),
        json_string(a.0),
        dec(a.1 as int),
        dec(a.2 as int),
        json_of_string_table(a.3),
        json_string(a.4),
    );
    lemma_parts(
        dec(0),
        json_string(b.0),
        dec(b.1 as int),
        dec(b.2 as int),
        json_of_string_table(b.3),
        json_string(b.4),
    );
    let (a5, b5) = (json_string(a.4) + "]"@, json_string(b.4) + "]"@);
    let (a4, b4) = (json_of_string_table(a.3) + (","@ + a5), json_of_string_table(b.3) + (","@ + b5));
    let (a3, b3) = (dec(a.2 as int) + (","@ + a4), dec(b.2 as int) + (","@ + b4));
    let (a2, b2) = (dec(a.1 as int) + (","@ + a3), dec(b.1 as int) + (","@ + b3));
    let (a1, b1) = (json_string(a.0) + (","@ + a2), json_string(b.0) + (","@ + b2));
    lemma_same_rest(seq!['['], dec(0) + (","@ + a1), dec(0) + (","@ + b1));
    lemma_dec_tells(0, 0, a1, b1);
    lemma_string_tells(a.0, b.0, ","@ + a2, ","@ + b2);
    lemma_same_rest(seq![','], a2, b2);
    lemma_dec_tells(a.1 as int, b.1 as int, a3, b3);
    lemma_dec_tells(a.2 as int, b.2 as int, a4, b4);
    lemma_table_tells(a.3, b.3, ","@ + a5, ","@ + b5);
    lemma_same_rest(seq![','], a5, b5);
    lemma_string_tells(a.4, b.4, "]"@, "]"@);
}

/// The bytes that an event's id is the hash of tell all that the event holds.
proof fn lemma_bytes_tell(a: Nip98Event, b: Nip98Event)
    requires
        event_bytes(a) == event_bytes(b),
    ensures
        same_contents(a, b),
{
    vstd::utf8::encode_utf8_decode_utf8(event_json(a));
    vstd::utf8::encode_utf8_decode_utf8(event_json(b));
    lemma_array_tells(
        (a.pubkey@, a.created_at, a.kind, a.tags.deep_view(), a.content@),
        (b.pubkey@, b.created_at, b.kind, b.tags.deep_view(), b.content@),
    );
}

/// An id belongs to one event: two events that are both accepted and go by one id hold the
/// same, author, time, kind, tags and content, unless they are a collision of SHA-256.
pub proof fn law_an_id_belongs_to_one_event(a: Nip98Event, b: Nip98Event)
    requires
        signature_refusal(a) is None,
        signature_refusal(b) is None,
        a.id@ == b.id@,
        no_collision(a, b),
    ensures
        same_contents(a, b),
{
    crate::crypto::law_hex_round_trip(event_digest(a));
    crate::crypto::law_hex_round_trip(event_digest(b));
    lemma_bytes_tell(a, b);
}

/// Whoever changes an event without a new id is refused, whichever field was changed,
/// unless the two events are a collision of SHA-256: the id is then not the hash of what
/// the event holds.
pub proof fn law_changed_events_are_refused(
    genuine: Nip98Event,
    changed: Nip98Event,
    method: Seq<char>,
    url: Seq<char>,
    now: i64,
)
    requires
        signature_refusal(genuine) is None,
        changed.id@ == genuine.id@,
        !same_contents(genuine, changed),
        no_collision(genuine, changed),
    ensures
        signature_refusal(changed) == Some(ErrorView::Unauthorized("event id mismatch"@)),
        event_refusal(Some(changed), method, url, now) is Some,
        event_refusal(Some(changed), method, url, now)->0 is Unauthorized,
{
    crate::crypto::law_hex_round_trip(event_digest(genuine));
    crate::crypto::law_hex_round_trip(event_digest(changed));
    if event_bytes(genuine) == event_bytes(changed) {
        lemma_bytes_tell(genuine, changed);
    }
}

} // verus!

//! Web Push, with messages signed by the server's VAPID key.

use vstd::prelude::*;
use vstd::string::*;

use crate::crypto::base64url_bytes;
use crate::crypto::base64url_decode;
use crate::crypto::base64url_encode;
use crate::crypto::base64url_text;
use crate::crypto::es256_sign;
use crate::crypto::es256_signature;
use crate::json::json_string;
use crate::json::quote;
use crate::text::dec;
use crate::text::decimal_unsigned;

verus! {

/// A notification about a booking.
pub struct BookingNotice {
    pub title: String,
    pub body: String,
    pub booking_id: String,
    pub kind: String,
}

pub struct BookingNoticeView {
    pub title: Seq<char>,
    pub body: Seq<char>,
    pub booking_id: Seq<char>,
    pub kind: Seq<char>,
}

impl View for BookingNotice {
    type V = BookingNoticeView;

    open spec fn view(&self) -> BookingNoticeView {
        BookingNoticeView {
            title: self.title@,
            body: self.body@,
            booking_id: self.booking_id@,
            kind: self.kind@,
        }
    }
}

/// The server's identity toward push services.
pub struct PushService {
    pub vapid_subject: String,
    pub vapid_public_key: String,
    pub vapid_private_key: String,
}

/// The scheme and the host of a URL, or why the text is none.
pub uninterp spec fn url_parts(text: Seq<char>) -> Result<
    (Seq<char>, Option<Seq<char>>),
    Seq<char>,
>;

/// A URL's scheme and host, by their views.
pub open spec fn parts_view(parts: (String, Option<String>)) -> (Seq<char>, Option<Seq<char>>) {
    (parts.0@, parts.1.deep_view())
}

/// `reqwest::Url::parse`, of which the scheme and the host are kept (`scheme` and
/// `host_str`): the two, or the error's text. All depend on the text alone.
#[verifier::external_body]
fn parse_url(text: &str) -> (r: Result<(String, Option<String>), String>)
    ensures
        match r {
            Ok(parts) => url_parts(text@) == Ok::<(Seq<char>, Option<Seq<char>>), Seq<char>>(
                parts_view(parts),
            ),
            Err(e) => url_parts(text@) == Err::<(Seq<char>, Option<Seq<char>>), Seq<char>>(e@),
        },
{
    let url = reqwest::Url::parse(text).map_err(|e| e.to_string())?;
    Ok((url.scheme().to_string(), url.host_str().map(|h| h.to_string())))
}

/// Whom a token is for: the scheme and the host of the endpoint.
pub open spec fn audience(scheme: Seq<char>, host: Option<Seq<char>>) -> Seq<char> {
    scheme + "://"@ + crate::text::or_text(host, ""@)
}

/// How long a token is valid, in seconds.
pub const TOKEN_SECS: u64 = 43200;

/// The claims of a token: audience, expiry and subject, as JSON.
pub open spec fn claims_text(aud: Seq<char>, exp: int, sub: Seq<char>) -> Seq<char> {
    "{\"aud\":"@ + json_string(aud) + ",\"exp\":"@ + dec(exp) + ",\"sub\":"@ + json_string(sub)
        + "}"@
}

/// What is signed of a token: header and claims, each in Base64, with a dot between.
pub open spec fn signing_input(aud: Seq<char>, exp: int, sub: Seq<char>) -> Seq<char> {
    base64url_text(vstd::utf8::encode_utf8("{\"typ\":\"JWT\",\"alg\":\"ES256\"}"@)) + "."@
        + base64url_text(vstd::utf8::encode_utf8(claims_text(aud, exp, sub)))
}

/// The signature of some bytes under a private key in Base64, or why there is none.
pub open spec fn signature_under(private_key: Seq<char>, data: Seq<u8>) -> Result<
    Seq<u8>,
    Seq<char>,
> {
    match base64url_bytes(private_key) {
        Ok(key) => es256_signature(key, data),
        Err(e) => Err(e),
    }
}

/// The token of a push to an endpoint at a given time, or why there is none.
pub open spec fn vapid_token(service: PushService, endpoint: Seq<char>, now: int) -> Result<
    Seq<char>,
    Seq<char>,
> {
    match url_parts(endpoint) {
        Err(e) => Err(e),
        Ok((scheme, host)) => {
            let input = signing_input(
                audience(scheme, host),
                now + TOKEN_SECS,
                service.vapid_subject@,
            );
            match signature_under(service.vapid_private_key@, vstd::utf8::encode_utf8(input)) {
                Err(e) => Err(e),
                Ok(sig) => Ok(input + "."@ + base64url_text(sig)),
            }
        },
    }
}

/// The token of a push to an endpoint, given what the clock shows, or why there is none:
/// there is none with a clock before 1970.
pub open spec fn token_at_reading(
    service: PushService,
    endpoint: Seq<char>,
    read: Result<u64, String>,
) -> Result<Seq<char>, Seq<char>> {
    match read {
        Ok(now) => vapid_token(service, endpoint, now as int),
        Err(e) => match url_parts(endpoint) {
            Err(bad_url) => Err(bad_url),
            Ok(_) => Err(e@),
        },
    }
}

/// A result that is one of the two texts named.
pub open spec fn result_is(r: Result<String, String>, named: Result<Seq<char>, Seq<char>>) -> bool {
    match r {
        Ok(text) => named == Ok::<Seq<char>, Seq<char>>(text@),
        Err(e) => named == Err::<Seq<char>, Seq<char>>(e@),
    }
}

impl PushService {
    pub fn new(vapid_subject: String, vapid_public_key: String, vapid_private_key: String) -> (r:
        PushService)
        ensures
            r.vapid_subject == vapid_subject,
            r.vapid_public_key == vapid_public_key,
            r.vapid_private_key == vapid_private_key,
    {
        PushService { vapid_subject, vapid_public_key, vapid_private_key }
    }

    pub fn public_key(&self) -> (r: &str)
        ensures
            r@ == self.vapid_public_key@,
    {
        self.vapid_public_key.as_str()
    }

    /// The token of a push to an endpoint whose scheme and host are known, at a
    /// given time.
    pub fn token_for(&self, scheme: &str, host: &Option<String>, now: u64) -> (r: Result<
        String,
        String,
    >)
        ensures
            ({
                let input = signing_input(
                    audience(scheme@, host.deep_view()),
                    now + TOKEN_SECS,
                    self.vapid_subject@,
                );
                result_is(
                    r,
                    match signature_under(
                        self.vapid_private_key@,
                        vstd::utf8::encode_utf8(input),
                    ) {
                        Ok(sig) => Ok(input + "."@ + base64url_text(sig)),
                        Err(e) => Err(e),
                    },
                )
            }),
    {
        let host_text: String = crate::text::or_default(host, "");
        let mut aud: String = scheme.to_owned();
        aud.append("://");
        aud.append(host_text.as_str());
        let quoted_aud: String = quote(aud.as_str());
        let exp: String = decimal_unsigned(now as u128 + TOKEN_SECS as u128);
        let quoted_sub: String = quote(self.vapid_subject.as_str());
        let mut claims: String = "{\"aud\":".to_owned();
        claims.append(quoted_aud.as_str());
        claims.append(",\"exp\":");
        claims.append(exp.as_str());
        claims.append(",\"sub\":");
        claims.append(quoted_sub.as_str());
        claims.append("}");
        let header: String = base64url_encode("{\"typ\":\"JWT\",\"alg\":\"ES256\"}".as_bytes());
        let payload: String = base64url_encode(claims.as_str().as_bytes());
        let mut input: String = header;
        input.append(".");
        input.append(payload.as_str());
        match self.es256_sign(input.as_str().as_bytes()) {
            Err(e) => Err(e),
            Ok(sig) => {
                let sig_text: String = base64url_encode(sig.as_slice());
                let mut token: String = input;
                token.append(".");
                token.append(sig_text.as_str());
                Ok(token)
            },
        }
    }

    /// The token of a push to an endpoint, at a given time.
    pub fn build_vapid_jwt_at(&self, endpoint: &str, now: u64) -> (r: Result<String, String>)
        ensures
            result_is(r, vapid_token(*self, endpoint@, now as int)),
    {
        match parse_url(endpoint) {
            Err(e) => Err(e),
            Ok((scheme, host)) => self.token_for(scheme.as_str(), &host, now),
        }
    }

    /// The token of a push to an endpoint, given what the clock shows.
    pub fn build_vapid_jwt_with(&self, endpoint: &str, read: Result<u64, String>) -> (r: Result<
        String,
        String,
    >)
        ensures
            result_is(r, token_at_reading(*self, endpoint@, read)),
    {
        match read {
            Ok(now) => self.build_vapid_jwt_at(endpoint, now),
            Err(e) => match parse_url(endpoint) {
                Err(bad_url) => Err(bad_url),
                Ok(_) => Err(e),
            },
        }
    }

    /// The token of a push to an endpoint.
    pub fn build_vapid_jwt(&self, endpoint: &str) -> (r: Result<String, String>)
        ensures
            exists|read: Result<u64, String>|
                result_is(r, #[trigger] token_at_reading(*self, endpoint@, read)),
    {
        let read: Result<u64, String> = crate::clock::unix_time();
        let ghost shown = read;
        let r: Result<String, String> = self.build_vapid_jwt_with(endpoint, read);
        assert(result_is(r, token_at_reading(*self, endpoint@, shown)));
        r
    }

    /// The signature of some bytes under the private key.
    pub fn es256_sign(&self, data: &[u8]) -> (r: Result<Vec<u8>, String>)
        ensures
            match r {
                Ok(sig) => signature_under(self.vapid_private_key@, data@) == Ok::<
                    Seq<u8>,
                    Seq<char>,
                >(sig@) && sig@.len() == 64,
                Err(e) => signature_under(self.vapid_private_key@, data@) == Err::<
                    Seq<u8>,
                    Seq<char>,
                >(e@),
            },
    {
        match base64url_decode(self.vapid_private_key.as_str()) {
            Err(e) => Err(e),
            Ok(key) => es256_sign(key.as_slice(), data),
        }
    }

    /// The `Authorization` header of a push with a given token.
    pub fn authorization(&self, token: &str) -> (r: String)
        ensures
            r@ == "vapid t="@ + token@ + ",k="@ + self.vapid_public_key@,
    {
        let mut h: String = "vapid t=".to_owned();
        h.append(token);
        h.append(",k=");
        h.append(self.vapid_public_key.as_str());
        h
    }

    /// Whether a push service took the message, by its reply.
    pub fn send(status: u16, status_text: &str, body: &str) -> (r: Result<(), String>)
        ensures
            match r {
                Ok(_) => 200 <= status < 300,
                Err(m) => !(200 <= status < 300) && m@ == "push failed "@ + status_text@ + ": "@
                    + body@,
            },
    {
        if status >= 200 && status < 300 {
            return Ok(());
        }
        let mut m: String = "push failed ".to_owned();
        m.append(status_text);
        m.append(": ");
        m.append(body);
        Err(m)
    }
}

} // verus!

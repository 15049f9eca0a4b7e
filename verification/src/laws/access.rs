//! Who is admitted, what is answered to a refusal, and what is read from the environment.

use vstd::prelude::*;

use crate::auth::AuthUser;
use crate::auth::Nip98Event;
use crate::auth::authorization_payload;
use crate::auth::npub_of;
use crate::auth::pubkey_to_npub;
use crate::auth::request_url;
use crate::auth::time_or_zero;
use crate::auth::verify_event_at;
use crate::clock::valid_timestamp;
use crate::config::Config;
use crate::config::EnvVars;
use crate::crypto::hex_bytes;
use crate::crypto::hex_text;
use crate::crypto::is_xonly_key;
use crate::crypto::schnorr_verifies;
use crate::crypto::sha256_of;
use crate::error::AppError;
use crate::error::AppResult;
use crate::error::ErrorView;
use crate::ids::id_of_uuid;
use crate::json::json_of_string_table;
use crate::json::json_string;
use crate::tags::all_tags;
use crate::tags::first_tag;
use crate::tags::tag_value;
use crate::tags::tag_values;
use crate::text::dec;
use crate::text::split_trimmed;
use crate::text::to_ascii_uppercase;

verus! {

// ── Tags ────────────────────────────────────────────────────────────────────

/// The value of a tag is the second entry of the first tag that has the name as its first
/// entry.
pub proof fn law_the_first_tag_counts(
    tags: Vec<Vec<String>>,
    name: &str,
    i: int,
    r: Option<&String>,
)
    requires
        call_ensures(first_tag, (&tags, name), r),
    ensures
        0 <= i < tags@.len() && tags@[i]@.len() > 1 && tags@[i]@[0]@ == name@ && (forall|j: int|
            0 <= j < i ==> (#[trigger] tags@[j])@.len() == 0 || tags@[j]@[0]@ != name@) ==> r is Some
            && r->0@ == tags@[i]@[1]@,
        (forall|j: int|
            0 <= j < tags@.len() ==> (#[trigger] tags@[j])@.len() == 0 || tags@[j]@[0]@ != name@)
            ==> r is None,
{
    let all = tags.deep_view();
    assert(all.len() == tags@.len());
    assert forall|j: int| 0 <= j < all.len() implies (#[trigger] all[j]) == tags@[j].deep_view()
        && all[j].len() == tags@[j]@.len() by {}
    assert forall|j: int, k: int|
        0 <= j < all.len() && 0 <= k < all[j].len() implies #[trigger] all[j][k]
        == tags@[j]@[k]@ by {}
    if 0 <= i < tags@.len() && tags@[i]@.len() > 1 && tags@[i]@[0]@ == name@ && (forall|j: int|
        0 <= j < i ==> (#[trigger] tags@[j])@.len() == 0 || tags@[j]@[0]@ != name@) {
        assert forall|j: int| 0 <= j < i implies (#[trigger] all[j]).len() == 0 || all[j][0]
            != name@ by {
            assert(tags@[j]@.len() == 0 || tags@[j]@[0]@ != name@);
        }
        assert(all[i][0] == name@);
        assert(all[i].len() > 1);
        lemma_first_tag(all, name@, i);
        assert(all[i][1] == tags@[i]@[1]@);
    }
    if forall|j: int|
        0 <= j < tags@.len() ==> (#[trigger] tags@[j])@.len() == 0 || tags@[j]@[0]@ != name@ {
        assert forall|j: int| 0 <= j < all.len() implies (#[trigger] all[j]).len() == 0
            || all[j][0] != name@ by {
            assert(tags@[j]@.len() == 0 || tags@[j]@[0]@ != name@);
        }
        lemma_no_tag(all, name@);
    }
}

proof fn lemma_first_tag(tags: Seq<Seq<Seq<char>>>, name: Seq<char>, i: int)
    requires
        0 <= i < tags.len(),
        tags[i].len() > 1,
        tags[i][0] == name,
        forall|j: int| 0 <= j < i ==> (#[trigger] tags[j]).len() == 0 || tags[j][0] != name,
    ensures
        tag_value(tags, name) == Some(tags[i][1]),
    decreases tags.len(),
{
    if i > 0 {
        let rest = tags.skip(1);
        assert(tags[0].len() == 0 || tags[0][0] != name);
        assert(rest[i - 1] == tags[i]);
        assert forall|j: int| 0 <= j < i - 1 implies (#[trigger] rest[j]).len() == 0 || rest[j][0]
            != name by {
            assert(rest[j] == tags[j + 1]);
        }
        lemma_first_tag(rest, name, i - 1);
    }
}

proof fn lemma_no_tag(tags: Seq<Seq<Seq<char>>>, name: Seq<char>)
    requires
        forall|j: int|
            0 <= j < tags.len() ==> (#[trigger] tags[j]).len() == 0 || tags[j][0] != name,
    ensures
        tag_value(tags, name) is None,
    decreases tags.len(),
{
    if tags.len() > 0 {
        let rest = tags.skip(1);
        assert(tags[0].len() == 0 || tags[0][0] != name);
        assert forall|j: int| 0 <= j < rest.len() implies (#[trigger] rest[j]).len() == 0
            || rest[j][0] != name by {
            assert(rest[j] == tags[j + 1]);
        }
        lemma_no_tag(rest, name);
    }
}

/// The values of a name are those of every tag that has it and a value, in order: the values
/// of two lists in a row are those of the first and then those of the second.
pub proof fn law_all_tags_count(
    a: Seq<Seq<Seq<char>>>,
    tag: Seq<Seq<char>>,
    tags: Vec<Vec<String>>,
    name: &str,
    r: Vec<String>,
)
    requires
        call_ensures(all_tags, (&tags, name), r),
        tags.deep_view() == a.push(tag),
    ensures
        tag.len() > 1 && tag[0] == name@ ==> r.deep_view() == tag_values(a, name@).push(tag[1]),
        tag.len() <= 1 || tag[0] != name@ ==> r.deep_view() == tag_values(a, name@),
        tag_values(Seq::empty(), name@).len() == 0,
{
    assert(a.push(tag).drop_last() =~= a);
}

// ── Requests ────────────────────────────────────────────────────────────────

/// A request is admitted just where its event is of the right kind, was made within a minute
/// of now, names the address and the method of the request, and carries its signer's
/// signature. The user is the signer.
pub proof fn law_signed_requests_are_admitted(
    event: Option<Nip98Event>,
    method: &str,
    upper: String,
    url: &str,
    now: i64,
    u: Option<&str>,
    m: Option<&str>,
    signed: AppResult<()>,
    key: &str,
    npub: Result<String, String>,
    r: AppResult<(String, String)>,
)
    requires
        call_ensures(verify_event_at, (&event, method, url, now), r),
        call_ensures(to_ascii_uppercase, (method,), upper),
        event is Some ==> {
            &&& call_ensures(Nip98Event::get_tag, (&event->0, "u"), u)
            &&& call_ensures(Nip98Event::get_tag, (&event->0, "method"), m)
            &&& call_ensures(Nip98Event::verify_signature, (&event->0,), signed)
            &&& key@ == event->0.pubkey@
            &&& call_ensures(pubkey_to_npub, (key,), npub)
        },
    ensures
        r is Ok <==> {
            &&& event is Some
            &&& event->0.kind == 27_235
            &&& -60 <= now - event->0.created_at <= 60
            &&& u is Some && u->0@ == url@
            &&& m is Some && m->0@ == upper@
            &&& signed is Ok
            &&& npub is Ok
        },
        r is Err ==> r->Err_0@ is Unauthorized,
        r matches Ok(user) ==> user.1@ == event->0.pubkey@ && user.0@ == npub->Ok_0@,
{
}

/// A request that is refused is told what its event lacks, the first thing first.
pub proof fn law_refused_requests_are_told_why(
    event: Nip98Event,
    method: &str,
    upper: String,
    url: &str,
    now: i64,
    u: Option<&str>,
    m: Option<&str>,
    signed: AppResult<()>,
    r: AppResult<(String, String)>,
    none: AppResult<(String, String)>,
)
    requires
        call_ensures(verify_event_at, (&Some(event), method, url, now), r),
        call_ensures(verify_event_at, (&None::<Nip98Event>, method, url, now), none),
        call_ensures(to_ascii_uppercase, (method,), upper),
        call_ensures(Nip98Event::get_tag, (&event, "u"), u),
        call_ensures(Nip98Event::get_tag, (&event, "method"), m),
        call_ensures(Nip98Event::verify_signature, (&event,), signed),
    ensures
        ({
            let of_kind = event.kind == 27_235;
            let fresh = of_kind && -60 <= now - event.created_at <= 60;
            let named = fresh && u is Some;
            let here = named && u->0@ == url@;
            let with_method = here && m is Some;
            let this_method = with_method && m->0@ == upper@;
            &&& !of_kind ==> r->Err_0@ == ErrorView::Unauthorized(
                "expected kind 27235, got "@ + dec(event.kind as int),
            )
            &&& of_kind && !fresh ==> r->Err_0@ == ErrorView::Unauthorized(
                "event timestamp expired"@,
            )
            &&& fresh && !named ==> r->Err_0@ == ErrorView::Unauthorized("missing 'u' tag"@)
            &&& named && !here ==> r->Err_0@ == ErrorView::Unauthorized(
                "url mismatch: expected '"@ + url@ + "', got '"@ + u->0@ + "'"@,
            )
            &&& here && !with_method ==> r->Err_0@ == ErrorView::Unauthorized(
                "missing 'method' tag"@,
            )
            &&& with_method && !this_method ==> r->Err_0@ == ErrorView::Unauthorized(
                "method mismatch"@,
            )
            &&& this_method && signed is Err ==> r->Err_0@ == signed->Err_0@
        }),
        none is Err && none->Err_0@ == ErrorView::Unauthorized("invalid event JSON"@),
{
}

/// An event carries its signer's signature just where its id is the digest of what it says,
/// in lower-case hexadecimal digits, and the signature of 64 bytes is the signer's of that
/// digest.
pub proof fn law_signatures_cover_the_event(e: Nip98Event, said: Seq<char>, r: AppResult<()>)
    requires
        call_ensures(Nip98Event::verify_signature, (&e,), r),
        said == "["@ + dec(0) + ","@ + json_string(e.pubkey@) + ","@ + dec(e.created_at as int)
            + ","@ + dec(e.kind as int) + ","@ + json_of_string_table(e.tags.deep_view()) + ","@
            + json_string(e.content@) + "]"@,
    ensures
        ({
            let digest = sha256_of(vstd::utf8::encode_utf8(said));
            r is Ok <==> {
                &&& e.id@ == hex_text(digest)
                &&& hex_bytes(e.pubkey@) is Some
                &&& is_xonly_key(hex_bytes(e.pubkey@)->0)
                &&& hex_bytes(e.sig@) is Some
                &&& hex_bytes(e.sig@)->0.len() == 64
                &&& schnorr_verifies(hex_bytes(e.sig@)->0, digest, hex_bytes(e.pubkey@)->0)
            }
        }),
        r is Err ==> r->Err_0@ is Unauthorized,
{
}

/// Whoever is admitted by a request's parts is the signer of an event of the right kind for
/// just that address and method, with a signature on it.
pub proof fn law_admitted_users_signed(
    event: Option<Nip98Event>,
    method: &str,
    upper: String,
    path: &str,
    query: Option<&str>,
    url: String,
    u: Option<&str>,
    m: Option<&str>,
    signed: AppResult<()>,
    user: AuthUser,
)
    requires
        call_ensures(AuthUser::from_request_parts, (&event, method, path, query), Ok(user)),
        call_ensures(request_url, (path, query), url),
        call_ensures(to_ascii_uppercase, (method,), upper),
        event is Some ==> {
            &&& call_ensures(Nip98Event::get_tag, (&event->0, "u"), u)
            &&& call_ensures(Nip98Event::get_tag, (&event->0, "method"), m)
            &&& call_ensures(Nip98Event::verify_signature, (&event->0,), signed)
        },
    ensures
        event is Some,
        event->0.kind == 27_235,
        u is Some && u->0@ == url@,
        m is Some && m->0@ == upper@,
        signed is Ok,
        user.public_key@ == event->0.pubkey@,
        npub_of(event->0.pubkey@) == Ok::<Seq<char>, Seq<char>>(user.npub@),
{
}

/// The address of a request is its path, and its query after a question mark where it has one.
/// The time is the one that was read, and zero where none was.
pub proof fn law_request_addresses(
    path: &str,
    query: Option<&str>,
    url: String,
    read: Result<u64, String>,
    now: i64,
    t: i64,
    valid: bool,
)
    requires
        call_ensures(request_url, (path, query), url),
        call_ensures(time_or_zero, (&read,), now),
        call_ensures(valid_timestamp, (t,), valid),
    ensures
        query is None ==> url@ == path@,
        query is Some ==> url@ == path@ + seq!['?'] + query->0@,
        read is Ok && read->Ok_0 <= i64::MAX ==> now == read->Ok_0,
        read is Err ==> now == 0,
        valid <==> 0 <= t < 10_000_000_000_000,
{
    reveal_strlit("?");
    assert("?"@ =~= seq!['?']);
}

/// The payload of a header is read after `Nostr ` from Base64 in either alphabet: a hyphen
/// stands for a plus sign and an underscore for a slash, and what pads it at its end may be
/// left out.
pub proof fn law_payloads_are_read_in_either_alphabet(
    token: Seq<char>,
    standard: Seq<char>,
    padding: Seq<char>,
    header: &str,
    r: AppResult<Vec<u8>>,
    none: AppResult<Vec<u8>>,
)
    requires
        call_ensures(authorization_payload, (Some(header),), r),
        call_ensures(authorization_payload, (None::<&str>,), none),
        header@ == "Nostr "@ + token,
        standard.len() == token.len(),
        !token.contains('+') && !token.contains('/'),
        forall|i: int|
            0 <= i < token.len() ==> {
                &&& #[trigger] token[i] == '-' ==> standard[i] == '+'
                &&& token[i] == '_' ==> standard[i] == '/'
                &&& token[i] != '-' && token[i] != '_' ==> standard[i] == token[i]
            },
        token.contains('=') ==> padding.len() == 0,
        !token.contains('=') && token.len() % 4 == 2 ==> padding == seq!['=', '='],
        !token.contains('=') && token.len() % 4 == 3 ==> padding == seq!['='],
        !token.contains('=') && token.len() % 4 <= 1 ==> padding.len() == 0,
    ensures
        r is Ok <==> crate::crypto::base64_bytes(standard + padding) is Some,
        r is Ok ==> crate::crypto::base64_bytes(standard + padding) == Some(r->Ok_0@),
        r is Err ==> r->Err_0@ is Unauthorized,
        none is Err && none->Err_0@ is Unauthorized,
{
    let lead = "Nostr "@;
    assert(header@.skip(lead.len() as int) =~= token);
    assert(lead =~= header@.subrange(0, lead.len() as int));
    assert(crate::auth::standard_alphabet(token) =~= standard);
    assert(crate::auth::missing_padding(token) =~= padding);
    assert(crate::auth::standard_form(token) =~= standard + padding);
}

/// A payload that holds a plus sign or a slash is read as it is, and a header that does not
/// start with `Nostr ` is refused.
pub proof fn law_standard_payloads_are_read_as_they_are(header: &str, r: AppResult<Vec<u8>>)
    requires
        call_ensures(authorization_payload, (Some(header),), r),
    ensures
        !"Nostr "@.is_prefix_of(header@) ==> r is Err,
        "Nostr "@.is_prefix_of(header@) && (header@.skip("Nostr "@.len() as int).contains('+')
            || header@.skip("Nostr "@.len() as int).contains('/')) ==> {
            &&& r is Ok <==> crate::crypto::base64_bytes(header@.skip("Nostr "@.len() as int)) is Some
            &&& r is Ok ==> crate::crypto::base64_bytes(header@.skip("Nostr "@.len() as int))
                == Some(r->Ok_0@)
        },
{
}

/// An id is a random identifier without its hyphens.
pub proof fn law_ids_have_no_hyphens(uuid: &str, r: String)
    requires
        call_ensures(id_of_uuid, (uuid,), r),
    ensures
        r@.len() == 32,
        !r@.contains('-'),
        forall|i: int|
            0 <= i < r@.len() ==> ('0' <= #[trigger] r@[i] <= '9') || ('a' <= r@[i] <= 'f'),
{
    crate::laws::texts::lemma_without_is_without(uuid@, '-');
    assert forall|i: int| 0 <= i < r@.len() implies ('0' <= #[trigger] r@[i] <= '9') || ('a'
        <= r@[i] <= 'f') by {
        assert(crate::ids::is_lower_hex(r@[i]));
    }
}

// ── Refusals ────────────────────────────────────────────────────────────────

/// A refusal is answered with its own status and text, but for what went wrong inside: that is
/// answered with a 500 and without its text.
pub proof fn law_refusals_have_their_status(e: AppError, r: (u16, String), text: String)
    requires
        call_ensures(AppError::into_response, (&e,), r),
        call_ensures(AppError::to_text, (&e,), text),
    ensures
        match e {
            AppError::NotFound(m) => r.0 == 404 && r.1@ == m@ && text@ == "not found: "@ + m@,
            AppError::Unauthorized(m) => r.0 == 401 && r.1@ == m@ && text@ == "unauthorized: "@
                + m@,
            AppError::BadRequest(m) => r.0 == 400 && r.1@ == m@ && text@ == "bad request: "@ + m@,
            AppError::Conflict(m) => r.0 == 409 && r.1@ == m@ && text@ == "conflict: "@ + m@,
            AppError::Payment(m) => r.0 == 402 && r.1@ == m@ && text@ == "payment error: "@ + m@,
            AppError::Database(m) => r.0 == 500 && r.1@ == "database error"@ && text@
                == "database error: "@ + m@,
            AppError::Internal(m) => r.0 == 500 && r.1@ == "internal server error"@ && text@
                == "internal error: "@ + m@,
        },
{
}

// ── The environment ─────────────────────────────────────────────────────────

/// What the environment sets is taken as it is, numbers by their decimal digits; what it does
/// not set has its default: the least fare is 200 sats, the least price 50 sats, and the fee
/// one and a half percent. Only a port that is no number is refused.
pub proof fn law_the_environment_is_taken(
    vars: EnvVars,
    fare: i64,
    price: i64,
    bps: u64,
    rpm: u32,
    port: u16,
    r: Result<Config, String>,
)
    requires
        call_ensures(Config::from_env, (&vars,), r),
    ensures
        vars.port is None ==> r is Ok && r->Ok_0.port == 8_080,
        vars.port is Some && vars.port->0@ == dec(port as int) ==> r is Ok && r->Ok_0.port == port,
        r matches Ok(c) ==> {
            &&& vars.min_fare_sats is None ==> c.min_fare_sats == 200
            &&& vars.min_fare_sats is Some && vars.min_fare_sats->0@ == dec(fare as int)
                ==> c.min_fare_sats == fare
            &&& vars.min_price_per_km_sats is None ==> c.min_price_per_km_sats == 50
            &&& vars.min_price_per_km_sats is Some && vars.min_price_per_km_sats->0@ == dec(
                price as int,
            ) ==> c.min_price_per_km_sats == price
            &&& vars.escrow_fee_bps is None ==> c.escrow_fee_bps == 150
            &&& vars.escrow_fee_bps is Some && vars.escrow_fee_bps->0@ == dec(bps as int)
                ==> c.escrow_fee_bps == bps
            &&& vars.rate_limit_rpm is None ==> c.rate_limit_rpm == 60
            &&& vars.rate_limit_rpm is Some && vars.rate_limit_rpm->0@ == dec(rpm as int)
                ==> c.rate_limit_rpm == rpm
            &&& vars.host is Some ==> c.host@ == vars.host->0@
            &&& vars.host is None ==> c.host@ == "0.0.0.0"@
            &&& vars.database_url is Some ==> c.database_url@ == vars.database_url->0@
            &&& vars.database_url is None ==> c.database_url@ == "sqlite:./ulendo.db"@
            &&& vars.blink_api_key is None ==> c.blink_api_key@ == ""@
            &&& vars.blink_wallet_id is None ==> c.blink_wallet_id@ == ""@
            &&& vars.vapid_subject is None ==> c.vapid_subject@ == ""@
            &&& vars.vapid_public_key is None ==> c.vapid_public_key@ == ""@
            &&& vars.vapid_private_key is None ==> c.vapid_private_key@ == ""@
            &&& vars.frontend_origin is None ==> c.frontend_origin@ == "http://localhost:5173"@
            &&& vars.blink_api_key is Some ==> c.blink_api_key@ == vars.blink_api_key->0@
            &&& vars.blink_wallet_id is Some ==> c.blink_wallet_id@ == vars.blink_wallet_id->0@
            &&& vars.blink_api_url is Some ==> c.blink_api_url@ == vars.blink_api_url->0@
            &&& vars.blink_api_url is None ==> c.blink_api_url@ == "https://api.blink.sv/graphql"@
            &&& vars.vapid_subject is Some ==> c.vapid_subject@ == vars.vapid_subject->0@
            &&& vars.vapid_public_key is Some ==> c.vapid_public_key@ == vars.vapid_public_key->0@
            &&& vars.vapid_private_key is Some ==> c.vapid_private_key@
                == vars.vapid_private_key->0@
            &&& vars.frontend_origin is Some ==> c.frontend_origin@ == vars.frontend_origin->0@
        },
{
    lemma_reads_back(fare as int);
    lemma_reads_back(price as int);
    lemma_reads_back(bps as int);
    lemma_reads_back(rpm as int);
    lemma_reads_back(port as int);
}

proof fn lemma_reads_back(n: int)
    ensures
        i64::MIN <= n <= i64::MAX ==> crate::text::signed_value(dec(n)) == Some(n),
        0 <= n <= 0xffff ==> crate::text::unsigned_value(dec(n), 0xffff) == Some(n as nat),
        0 <= n <= 0xffff_ffff ==> crate::text::unsigned_value(dec(n), 0xffff_ffff) == Some(
            n as nat,
        ),
        0 <= n <= u64::MAX ==> crate::text::unsigned_value(dec(n), 0xffff_ffff_ffff_ffff) == Some(
            n as nat,
        ),
{
    let a = if n < 0 {
        (-n) as nat
    } else {
        n as nat
    };
    crate::text::lemma_dec_nat_reads_back(a);
    let w = crate::text::dec_nat(a);
    assert(crate::text::is_digit(w[0]));
    if n < 0 {
        assert(dec(n).skip(1) =~= w);
        assert(dec(n)[0] == '-');
    } else {
        assert(dec(n) == w);
    }
}

/// A fee that is set and cannot be read is ten percent; a limit, a least fare or a least price
/// that cannot be read has its default. The relays are those that are listed, between commas.
pub proof fn law_unreadable_settings(
    vars: EnvVars,
    i: int,
    relays: &str,
    list: Vec<String>,
    r: Result<Config, String>,
)
    requires
        call_ensures(Config::from_env, (&vars,), r),
        call_ensures(split_trimmed, (relays, ','), list),
        1 <= i,
        r is Ok,
    ensures
        vars.escrow_fee_bps is Some && i < vars.escrow_fee_bps->0@.len() && !('0'
            <= vars.escrow_fee_bps->0@[i] <= '9') ==> r->Ok_0.escrow_fee_bps == 1_000,
        vars.rate_limit_rpm is Some && i < vars.rate_limit_rpm->0@.len() && !('0'
            <= vars.rate_limit_rpm->0@[i] <= '9') ==> r->Ok_0.rate_limit_rpm == 60,
        vars.min_fare_sats is Some && i < vars.min_fare_sats->0@.len() && !('0'
            <= vars.min_fare_sats->0@[i] <= '9') ==> r->Ok_0.min_fare_sats == 200,
        vars.min_price_per_km_sats is Some && i < vars.min_price_per_km_sats->0@.len() && !('0'
            <= vars.min_price_per_km_sats->0@[i] <= '9') ==> r->Ok_0.min_price_per_km_sats == 50,
        vars.nostr_relays is Some && vars.nostr_relays->0@ == relays@
            ==> r->Ok_0.nostr_relays.deep_view() == list.deep_view(),
        vars.nostr_relays is None && relays@ == "wss://relay.damus.io"@
            ==> r->Ok_0.nostr_relays.deep_view() == list.deep_view(),
{
    if vars.escrow_fee_bps is Some && i < vars.escrow_fee_bps->0@.len() {
        assert(vars.escrow_fee_bps->0@.skip(1)[i - 1] == vars.escrow_fee_bps->0@[i]);
    }
    if vars.rate_limit_rpm is Some && i < vars.rate_limit_rpm->0@.len() {
        assert(vars.rate_limit_rpm->0@.skip(1)[i - 1] == vars.rate_limit_rpm->0@[i]);
    }
    if vars.min_fare_sats is Some && i < vars.min_fare_sats->0@.len() {
        assert(vars.min_fare_sats->0@.skip(1)[i - 1] == vars.min_fare_sats->0@[i]);
    }
    if vars.min_price_per_km_sats is Some && i < vars.min_price_per_km_sats->0@.len() {
        assert(vars.min_price_per_km_sats->0@.skip(1)[i - 1] == vars.min_price_per_km_sats->0@[i]);
    }
}

/// A port that holds, from its second character on, anything but a digit is refused, and so is
/// one above 65,535.
pub proof fn law_other_ports_are_refused(vars: EnvVars, i: int, n: nat, r: Result<Config, String>)
    requires
        call_ensures(Config::from_env, (&vars,), r),
        vars.port is Some,
        (1 <= i < vars.port->0@.len() && !('0' <= vars.port->0@[i] <= '9')) || (n > 65_535
            && vars.port->0@ == dec(n as int)),
    ensures
        r is Err && r->Err_0@ == vars.port->0@,
{
    let s = vars.port->0@;
    if 1 <= i < s.len() && !('0' <= s[i] <= '9') {
        assert(s.skip(1)[i - 1] == s[i]);
    } else {
        crate::text::lemma_dec_nat_reads_back(n);
        assert(crate::text::is_digit(s[0]));
    }
}

} // verus!

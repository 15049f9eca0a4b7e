//! What is written to rows, how amounts are shared out, and the smaller steps between.

use vstd::prelude::*;

use crate::auth::Nip98Event;
use crate::auth::verify_nip98_header;
use crate::db::Booking;
use crate::db::BookingChange;
use crate::db::DirectRelease;
use crate::db::RideChange;
use crate::db::RideRequest;
use crate::db::changes::enter_release;
use crate::db::changes::is_funded_or_held;
use crate::db::changes::is_releasable;
use crate::db::changes::is_under_way;
use crate::error::AppResult;
use crate::json::list_or_empty;
use crate::json::string_list_text;
use crate::json::string_table_text;
use crate::laws::is_rate_of;
use crate::laws::lemma_fee_is_the_rate;
use crate::money::FeeSplit;
use crate::money::can_compute_fee;
use crate::money::can_compute_fee_unsigned;
use crate::money::split_fee;
use crate::money::split_fee_unsigned;
use crate::routes::calls::LoggedCall;
use crate::routes::calls::OutboundEnd;
use crate::routes::calls::OutboundResp;
use crate::routes::calls::TopupRow;
use crate::routes::calls::call_ordered;
use crate::routes::calls::pstn_inbound;
use crate::routes::calls::voice_url;
use crate::routes::chessa::chessa_url;
use crate::routes::chessa::client_creds;
use crate::routes::chessa::get_order_status;
use crate::routes::escrow::DirectPayout;
use crate::routes::escrow::DirectReleaseRequest;
use crate::routes::escrow::PayableRide;
use crate::routes::escrow::Release;
use crate::routes::escrow::is_disputable;
use crate::routes::escrow::release;
use crate::routes::escrow::release_direct;
use crate::routes::fiat::ParsedSms;
use crate::routes::fiat::PendingFiat;
use crate::routes::fiat::SmsCheck;
use crate::routes::fiat::VerifyResult;
use crate::routes::fiat::VerifySmsInput;
use crate::routes::fiat::parse_sms;
use crate::routes::fiat::parsed_sms;
use crate::routes::fiat::verify_sms;
use crate::routes::rides::DriverLocation;
use crate::routes::rides::GpsHeartbeat;
use crate::routes::rides::drivers_but;
use crate::routes::rides::listing_sets_price;
use crate::routes::rides::mark_driver_offline;
use crate::routes::rides::others_to_tell;
use crate::routes::rides::test_add_driver;
use crate::routes::upload::accept_link;
use crate::services::push::PushService;
use crate::text::chars_of;
use crate::text::copy_option;
use crate::text::decimal;
use crate::text::decimal_unsigned;
use crate::text::number_or_default;
use crate::text::or_default;
use crate::text::split_trimmed;
use crate::text::text_of;
use crate::text::trim;

verus! {

// ── Rows ────────────────────────────────────────────────────────────────────

/// A write to a booking or a ride that takes hold is told as one row, and leaves the row as the
/// write has it; one that does not is told as none, and leaves the row as it was.
pub proof fn law_writes_tell_their_rows(
    change: BookingChange,
    row: Booking,
    after: Booking,
    rows: u64,
    holds: bool,
    ride_change: RideChange,
    ride: RideRequest,
    ride_after: RideRequest,
    ride_rows: u64,
)
    requires
        call_ensures(BookingChange::applies, (&change, &row), holds),
        exists|m: &mut Booking|
            *m == row && *final(m) == after && #[trigger] call_ensures(
                BookingChange::apply,
                (&change, m),
                rows,
            ),
        exists|m: &mut RideRequest|
            *m == ride && *final(m) == ride_after && #[trigger] call_ensures(
                RideChange::apply,
                (&ride_change, m),
                ride_rows,
            ),
    ensures
        rows == 0 || rows == 1,
        rows == 1 <==> holds,
        rows == 0 ==> after@ == row@,
        rows == 1 ==> after@ == change@.written(row@),
        after@ == change@.after(row@),
        ride_rows == 0 || ride_rows == 1,
        ride_rows == 0 ==> ride_after@ == ride@,
        ride_rows == 1 ==> ride_after@ == ride_change@.written(ride@),
        ride_after@ == ride_change@.after(ride@),
{
}

/// A payment for a ride is entered at the end of the list, unless one that is pending or was
/// made is there for the ride; the list is then as it was.
pub proof fn law_payments_are_entered_once(
    before: Vec<DirectRelease>,
    row: DirectRelease,
    after: Vec<DirectRelease>,
    error: Option<String>,
    i: int,
)
    requires
        exists|m: &mut Vec<DirectRelease>|
            *m == before && *final(m) == after && #[trigger] call_ensures(
                enter_release,
                (m, row),
                error,
            ),
        row.status@ == "pending"@,
    ensures
        error is None ==> after@.len() == before@.len() + 1 && after@[before@.len() as int]@
            == row@,
        error is Some ==> after@.len() == before@.len(),
        0 <= i < before@.len() ==> after@[i]@ == before@[i]@,
        0 <= i < before@.len() && before@[i].ride_id@ == row.ride_id@ && (before@[i].status@
            == "pending"@ || before@[i].status@ == "released"@) ==> error is Some,
        (forall|j: int|
            0 <= j < before@.len() ==> (#[trigger] before@[j]).ride_id@ != row.ride_id@)
            ==> error is None,
{
    let b = crate::db::changes::release_views(before@);
    let a = crate::db::changes::release_views(after@);
    assert(b.len() == before@.len());
    assert(a.len() == after@.len());
    assert forall|j: int| 0 <= j < b.len() implies #[trigger] b[j] == before@[j]@ by {}
    assert forall|j: int| 0 <= j < a.len() implies #[trigger] a[j] == after@[j]@ by {}
    if error is None {
        assert(a == b.push(row@));
        assert(a[before@.len() as int] == row@);
        if 0 <= i < before@.len() {
            assert(a[i] == b[i]);
        }
    } else if 0 <= i < before@.len() {
        assert(a[i] == b[i]);
    }
    if 0 <= i < before@.len() {
        assert(b[i].ride_id == before@[i].ride_id@);
    }
    assert forall|j: int| 0 <= j < b.len() implies (#[trigger] b[j]).ride_id
        == before@[j].ride_id@ by {}
}

/// A top-up is marked on one row the first time and on none after that; a driver who goes
/// offline stays otherwise as known.
pub proof fn law_marks_are_made_once(
    row: TopupRow,
    marked: TopupRow,
    rows: u64,
    driver: DriverLocation,
    gone: DriverLocation,
)
    requires
        exists|m: &mut TopupRow|
            *m == row && *final(m) == marked && #[trigger] call_ensures(
                TopupRow::mark_paid,
                (m,),
                rows,
            ),
        exists|m: &mut DriverLocation|
            *m == driver && *final(m) == gone && #[trigger] call_ensures(
                mark_driver_offline,
                (m,),
                (),
            ),
    ensures
        rows == 1 <==> !row.paid,
        rows == 0 <==> row.paid,
        marked == (TopupRow { paid: true, ..row }),
        gone == (DriverLocation { online: false, ..driver }),
{
}

/// The funds of a booking are in while it is funded or held. It is under way then and once it
/// was picked up; it can be released then and once it was completed.
pub proof fn law_statuses_by_name(s: &str, in_escrow: bool, under_way: bool, releasable: bool)
    requires
        call_ensures(is_funded_or_held, (s,), in_escrow),
        call_ensures(is_under_way, (s,), under_way),
        call_ensures(is_releasable, (s,), releasable),
    ensures
        in_escrow <==> s@ == "funded"@ || s@ == "held"@,
        under_way <==> in_escrow || s@ == "in_progress"@,
        releasable <==> in_escrow || s@ == "completed"@,
{
}

/// A booking that is under way can be disputed, and a completed one for 60 seconds.
pub proof fn law_disputes_have_a_minute(booking: Booking, now: i64, r: bool)
    requires
        call_ensures(is_disputable, (&booking, now), r),
    ensures
        r <==> booking.status@ == "funded"@ || booking.status@ == "held"@ || booking.status@
            == "in_progress"@ || (booking.status@ == "completed"@ && booking.completed_at is Some
            && now - booking.completed_at->0 <= 60),
{
}

// ── Amounts ─────────────────────────────────────────────────────────────────

/// The fee is the rate's share of an amount, in whole sats, and the rest is the payee's.
pub proof fn law_fees_and_payments_add_up(
    amount: i64,
    bps: u64,
    r: FeeSplit,
    s: FeeSplit,
)
    requires
        call_ensures(split_fee, (amount, bps), r),
        call_ensures(split_fee_unsigned, (amount, bps), s),
    ensures
        is_rate_of(r.fee_sats as int, amount as int, bps as int),
        r.fee_sats + r.payee_sats == amount,
        s.fee_sats == r.fee_sats,
        s.payee_sats == r.payee_sats,
{
    lemma_fee_is_the_rate(amount as int, bps as int);
}

/// The fee of every amount of up to 900,000,000,000,000 sats can be computed, at every rate of
/// up to the whole amount.
pub proof fn law_fees_can_be_computed(amount: i64, bps: u64, r: bool, s: bool)
    requires
        call_ensures(can_compute_fee, (amount, bps), r),
        call_ensures(can_compute_fee_unsigned, (amount, bps), s),
        0 <= amount <= 900_000_000_000_000,
        bps <= 10_000,
    ensures
        r,
        s,
{
    assert(0 <= amount * bps <= 900_000_000_000_000 * 10_000) by (nonlinear_arith)
        requires
            0 <= amount <= 900_000_000_000_000,
            0 <= bps <= 10_000,
    ;
}

/// What is left of a booking's amount after a fee that is a part of it can always be paid; so
/// can every fare for which the fee can be computed.
pub proof fn law_parts_of_amounts_can_be_paid(
    auth: crate::auth::AuthUser,
    booking: Booking,
    rel: Release,
    fits: bool,
    body: DirectReleaseRequest,
    ride: PayableRide,
    payout: DirectPayout,
    lud16: Option<String>,
    bps: u64,
    payout_fits: bool,
)
    requires
        call_ensures(release, (&auth, booking), Ok(rel)),
        call_ensures(Release::fits, (&rel,), fits),
        call_ensures(release_direct, (&auth, &body, &Some(ride)), Ok(payout)),
        call_ensures(DirectPayout::fits, (&payout, &lud16, bps), payout_fits),
    ensures
        0 <= booking.fee_sats <= booking.amount_sats ==> fits,
        ride.fare_sats <= 900_000_000_000_000 && bps <= 10_000 ==> payout_fits,
{
    if 0 < ride.fare_sats <= 900_000_000_000_000 && bps <= 10_000 {
        assert(0 <= ride.fare_sats * bps <= 900_000_000_000_000 * 10_000) by (nonlinear_arith)
            requires
                0 <= ride.fare_sats <= 900_000_000_000_000,
                0 <= bps <= 10_000,
        ;
    }
}

// ── Messages about payments ─────────────────────────────────────────────────

/// A message is read for the first amount in kwacha and the first reference in it, and what is
/// asked of an escrow is read from its own message.
pub proof fn law_messages_are_read_by_their_patterns(
    sms: &str,
    amount: Option<String>,
    reference: Option<String>,
    r: ParsedSms,
    by_parts: ParsedSms,
    body: VerifySmsInput,
    escrow: Option<PendingFiat>,
    check: Result<SmsCheck, VerifyResult>,
    text: Option<String>,
)
    requires
        call_ensures(parse_sms, (sms,), r),
        amount.deep_view() == crate::routes::fiat::first_group(
            "(?i)(?:MWK|MK|K)\\s*([0-9,]+(?:\\.[0-9]{2})?)"@,
            sms@,
        ),
        reference.deep_view() == crate::routes::fiat::first_group(
            "(?i)(?:Ref|Transaction\\s*ID|TXN|ID)[:\\s]*([A-Z0-9]{6,20})"@,
            sms@,
        ),
        call_ensures(parsed_sms, (&amount, &reference), by_parts),
        body.sms_text@ == sms@,
        call_ensures(verify_sms, (&body, escrow), check),
        check is Ok ==> call_ensures(SmsCheck::amount_text, (&check->Ok_0,), text),
    ensures
        r.amount_text.deep_view() == by_parts.amount_text.deep_view(),
        r.txn_ref@ == by_parts.txn_ref@,
        check is Ok ==> text.deep_view() == by_parts.amount_text.deep_view(),
{
}

// ── Calls and others ────────────────────────────────────────────────────────

/// The operator's answer is taken with the session that it names.
pub proof fn law_answers_name_their_session(
    call: LoggedCall,
    success: bool,
    text: &str,
    session: Option<String>,
    r: OutboundEnd,
    s: OutboundEnd,
    told: OutboundResp,
)
    requires
        call_ensures(LoggedCall::answered, (call, success, text), r),
        session.deep_view() == crate::json::json_text_at(text@, "entries"@, 0, "sessionId"@),
        call_ensures(LoggedCall::ordered, (call, success, text, session), s),
        call_ensures(call_ordered, (success, text, session), told),
    ensures
        r.log@ == s.log@,
        r.balance_sats == s.balance_sats,
        r.given_back == s.given_back,
        r.answer is Ok && r.answer->Ok_0.ok == success && told.ok == success,
        r.answer->Ok_0.message@ == told.message@,
        r.answer->Ok_0.at_session_id.deep_view() == told.at_session_id.deep_view(),
        success ==> told.at_session_id.deep_view() == session.deep_view() && told.message@
            == "Call initiated"@,
        !success ==> told.at_session_id is None && told.message@ == "AT API error: "@ + text@,
{
}

/// Calls are ordered at the operator's address, or at the one for trials; payouts at the
/// exchange's.
pub proof fn law_services_have_their_address(
    sandbox: bool,
    voice: String,
    welcome: String,
    path: &str,
    exchange: String,
    order: &str,
    status: String,
    id: Option<String>,
    secret: Option<String>,
    creds: (String, String),
)
    requires
        call_ensures(voice_url, (sandbox,), voice),
        call_ensures(pstn_inbound, (), welcome),
        call_ensures(chessa_url, (path,), exchange),
        call_ensures(get_order_status, (order,), status),
        call_ensures(client_creds, (&id, &secret), creds),
    ensures
        sandbox ==> voice@ == "https://voice.sandbox.africastalking.com/call"@,
        !sandbox ==> voice@ == "https://voice.africastalking.com/call"@,
        exchange@ == "https://api.chessa.ai"@ + path@,
        status@ == "/v1/orders/"@ + order@,
        id is Some ==> creds.0@ == id->0@,
        secret is Some ==> creds.1@ == secret->0@,
        id is None ==> creds.0@ == ""@,
        secret is None ==> creds.1@ == ""@,
        welcome@
            == "<?xml version=\"1.0\" encoding=\"UTF-8\"?>\n<Response>\n  <Say voice=\"woman\">Welcome to Ulendo. This service is coming soon. Goodbye.</Say>\n</Response>"@,
{
}

/// A driver for trials is one for the city, under the name and with the vehicle asked for; a
/// listing sets a price just where it has one above zero.
pub proof fn law_drivers_for_trials(
    name: Option<String>,
    vehicle: Option<String>,
    r: GpsHeartbeat,
    listing: Option<i64>,
    sets: bool,
    notified: &str,
    by: &str,
    others: Vec<String>,
    parsed: Option<Vec<String>>,
    list: Vec<String>,
    direct: Vec<String>,
)
    requires
        call_ensures(test_add_driver, (&name, &vehicle), r),
        call_ensures(listing_sets_price, (listing,), sets),
        call_ensures(others_to_tell, (notified, by), others),
        parsed.deep_view() == crate::json::json_string_list(notified@),
        call_ensures(list_or_empty, (parsed,), list),
        call_ensures(drivers_but, (&list, by), direct),
    ensures
        name is Some ==> r.display_name is Some && r.display_name->0@ == name->0@,
        vehicle is Some ==> r.vehicle_type is Some && r.vehicle_type->0@ == vehicle->0@,
        r.ride_categories is Some && r.ride_categories->0@ == "city"@,
        r.price_per_km == Some(500i64) && r.seats == Some(4i64),
        name is None ==> r.display_name is Some && r.display_name->0@ == "Test Driver"@,
        vehicle is None ==> r.vehicle_type is Some && r.vehicle_type->0@ == "sedan"@,
        r.lud16 is Some && r.lud16->0@ == ""@,
        r.picture_url is None && r.country is None && r.city is None,
        sets <==> listing is Some && listing->0 > 0,
        parsed is Some ==> list.deep_view() == parsed->0.deep_view(),
        parsed is None ==> list@.len() == 0,
        others.deep_view() == direct.deep_view(),
{
    assert(list.deep_view().len() == list@.len());
}

/// A secure link is taken, and no other.
pub proof fn law_secure_links_are_taken(link: Option<&str>, r: Option<String>)
    requires
        call_ensures(accept_link, (link,), r),
    ensures
        r is Some <==> link is Some && "https://"@.is_prefix_of(link->0@),
        r is Some ==> r->0@ == link->0@,
{
}

/// Whoever is admitted by a header signed an event of the right kind for just that address.
pub proof fn law_headers_admit_their_signer(
    event: Option<Nip98Event>,
    method: &str,
    url: &str,
    u: Option<&str>,
    signed: AppResult<()>,
    user: (String, String),
)
    requires
        call_ensures(verify_nip98_header, (&event, method, url), Ok(user)),
        event is Some ==> {
            &&& call_ensures(Nip98Event::get_tag, (&event->0, "u"), u)
            &&& call_ensures(Nip98Event::verify_signature, (&event->0,), signed)
        },
    ensures
        event is Some && event->0.kind == 27_235,
        u is Some && u->0@ == url@,
        signed is Ok,
        user.1@ == event->0.pubkey@,
{
}

/// A token for an endpoint is the one for the scheme and the host of its address, and none
/// where it has no address.
pub proof fn law_tokens_are_for_their_endpoint(
    service: PushService,
    endpoint: &str,
    now: u64,
    scheme: &str,
    host: Option<String>,
    at: Result<String, String>,
    with: Result<String, String>,
    direct: Result<String, String>,
    unread: Result<String, String>,
    why: String,
    key: &str,
)
    requires
        call_ensures(PushService::build_vapid_jwt_at, (&service, endpoint, now), at),
        call_ensures(PushService::build_vapid_jwt_with, (&service, endpoint, Ok(now)), with),
        call_ensures(PushService::build_vapid_jwt_with, (&service, endpoint, Err(why)), unread),
        call_ensures(PushService::token_for, (&service, scheme, &host, now), direct),
        call_ensures(PushService::public_key, (&service,), key),
    ensures
        crate::services::push::url_parts(endpoint@) == Ok::<
            (Seq<char>, Option<Seq<char>>),
            Seq<char>,
        >((scheme@, host.deep_view())) ==> {
            &&& at is Ok <==> direct is Ok
            &&& at is Ok ==> at->Ok_0@ == direct->Ok_0@
            &&& with is Ok <==> direct is Ok
            &&& with is Ok ==> with->Ok_0@ == direct->Ok_0@
        },
        crate::services::push::url_parts(endpoint@) is Err ==> at is Err && with is Err,
        unread is Err,
        key@ == service.vapid_public_key@,
{
}

// ── Texts ───────────────────────────────────────────────────────────────────

/// What is there is taken, and otherwise the default; a copy is the same.
pub proof fn law_defaults_stand_in(
    o: Option<String>,
    default: &str,
    text: String,
    copy: Option<String>,
    n: Option<i64>,
    m: i64,
    number: i64,
)
    requires
        call_ensures(or_default, (&o, default), text),
        call_ensures(copy_option, (&o,), copy),
        call_ensures(number_or_default, (n, m), number),
    ensures
        o is Some ==> text@ == o->0@,
        o is None ==> text@ == default@,
        copy is Some <==> o is Some,
        o is Some ==> copy->0@ == o->0@,
        n is Some ==> number == n->0,
        n is None ==> number == m,
{
}

/// A text is its characters in order, and a part of them is the text of that part.
pub proof fn law_texts_are_their_characters(
    s: &str,
    v: Vec<char>,
    from: usize,
    to: usize,
    part: String,
    i: int,
)
    requires
        call_ensures(chars_of, (s,), v),
        from <= to <= v@.len(),
        call_ensures(text_of, (&v, from, to), part),
        0 <= i < to - from,
    ensures
        v@.len() == s@.len(),
        part@.len() == to - from,
        part@[i] == s@[from + i],
{
}

/// A number is written in decimal the same way whatever its width.
pub proof fn law_decimals_of_any_width(n: i64, wide: u128, s: String, t: String)
    requires
        call_ensures(decimal, (n,), s),
        call_ensures(decimal_unsigned, (wide,), t),
        n == wide,
    ensures
        s@ == t@,
{
}

/// A list of two parts with a separator between them is split into the two, each trimmed.
pub proof fn law_lists_are_split_and_trimmed(
    a: &str,
    b: &str,
    c: char,
    both: &str,
    of_a: String,
    of_b: String,
    r: Vec<String>,
)
    requires
        !a@.contains(c),
        !b@.contains(c),
        both@ == a@.push(c) + b@,
        call_ensures(trim, (a,), of_a),
        call_ensures(trim, (b,), of_b),
        call_ensures(split_trimmed, (both, c), r),
    ensures
        r@.len() == 2,
        r@[0]@ == of_a@,
        r@[1]@ == of_b@,
{
    crate::laws::texts::law_splitting_everywhere(a@, c, b@);
    crate::laws::texts::law_splitting_everywhere(b@, c, Seq::<char>::empty());
    let parts = crate::text::split_parts(both@, c);
    assert(parts =~= seq![a@, b@]);
    let view = r.deep_view();
    assert(view.len() == 2);
    assert(view[0] == crate::text::trimmed(a@));
    assert(view[1] == crate::text::trimmed(b@));
    assert(r@.len() == view.len());
    assert(view[0] == r@[0]@);
    assert(view[1] == r@[1]@);
}

/// A list of texts that is written as JSON reads back as it was, and two different lists are
/// written differently.
pub proof fn law_lists_read_back(
    list: Vec<String>,
    other: Vec<String>,
    r: String,
    s: String,
    table: Vec<Vec<String>>,
    t: String,
)
    requires
        call_ensures(string_list_text, (&list,), r),
        call_ensures(string_list_text, (&other,), s),
        call_ensures(string_table_text, (&table,), t),
    ensures
        crate::json::listed_in(r@) == list.deep_view(),
        r@ == s@ ==> list.deep_view() == other.deep_view(),
        table@.len() == 0 ==> t@ == seq!['[', ']'],
{
    assert(table.deep_view().len() == table@.len());
}

} // verus!

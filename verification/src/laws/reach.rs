//! What can always be asked for: the conditions under which a step is taken leave out no
//! ordinary input.

use vstd::prelude::*;

use crate::auth::AuthUser;
use crate::db::Booking;
use crate::db::RideRequest;
use crate::routes::bookings::CreateBookingRequest;
use crate::routes::bookings::create;
use crate::routes::calls::EndedCall;
use crate::routes::calls::OutboundCall;
use crate::routes::calls::PstnLogRow;
use crate::routes::calls::charged;
use crate::routes::calls::cost_of_call;
use crate::routes::calls::settle_call;
use crate::routes::confirm::ConfirmPlan;
use crate::routes::confirm::Confirmation;
use crate::routes::confirm::InstantRelease;
use crate::routes::confirm::driver_confirm;
use crate::routes::confirm::rider_confirm;
use crate::routes::driver_listings::service_hint;
use crate::routes::escrow::DirectPayout;
use crate::routes::escrow::DirectReleaseRequest;
use crate::routes::escrow::Funding;
use crate::routes::escrow::PayableRide;
use crate::routes::escrow::Release;
use crate::routes::escrow::complete;
use crate::routes::escrow::dispute;
use crate::routes::escrow::fund;
use crate::routes::escrow::release;
use crate::routes::escrow::release_direct;
use crate::routes::fiat::CreateFiatEscrow;
use crate::routes::fiat::create_fiat_escrow;
use crate::routes::ratings::Tally;
use crate::routes::rides::RideRequestInput;
use crate::routes::rides::nearby_drivers;
use crate::routes::rides::poll_bookings;
use crate::routes::rides::request_ride;
use crate::services::blink::AutoRelease;
use crate::services::blink::BlinkClient;
use crate::services::blink::DueAction;
use crate::services::blink::due;
use crate::services::blink::run_auto_release;

verus! {

pub open spec fn is_ascii(s: Seq<char>) -> bool {
    forall|i: int| 0 <= i < s.len() ==> #[trigger] s[i] <= '\u{7f}'
}

proof fn lemma_ascii_ids_are_cut(s: Seq<char>)
    requires
        is_ascii(s),
        s.len() >= 8,
    ensures
        crate::text::has_byte_prefix(s, 8),
{
    let head = s.take(8);
    let tail = s.skip(8);
    assert(s =~= head + tail);
    crate::laws::texts::lemma_ascii_bytes(head);
    lemma_boundary(head, tail);
}

proof fn lemma_boundary(a: Seq<char>, b: Seq<char>)
    ensures
        vstd::utf8::is_char_boundary(
            vstd::utf8::encode_utf8(a + b),
            vstd::utf8::encode_utf8(a).len() as int,
        ),
    decreases a.len(),
{
    let whole = vstd::utf8::encode_utf8(a + b);
    vstd::utf8::encode_utf8_valid_utf8(a + b);
    if a.len() == 0 {
        assert(vstd::utf8::encode_utf8(a).len() == 0);
    } else {
        let rest = a.drop_first();
        assert((a + b).drop_first() =~= rest + b);
        lemma_boundary(rest, b);
        vstd::utf8::encode_utf8_first_scalar(a + b);
        crate::laws::texts::lemma_encoding_adds_up(a, b);
        assert(vstd::utf8::pop_first_scalar(whole) =~= vstd::utf8::encode_utf8(rest + b));
    }
}

/// Every booking with an ASCII id of 8 characters or more can be invoiced, released for every
/// fee that is a part of its amount, disputed for every amount of up to
/// 300,000,000,000,000,000 sats, and completed at every time until the year 300,000.
pub proof fn law_bookings_can_be_dealt_with(
    auth: AuthUser,
    booking: Booking,
    funding: Funding,
    name: Option<String>,
    rel: Release,
    lud16: Option<String>,
    merchant: Option<String>,
    now: i64,
)
    requires
        call_ensures(fund, (&auth, booking), Ok(funding)) || call_ensures(
            release,
            (&auth, booking),
            Ok(rel),
        ),
        is_ascii(booking.id@),
        booking.id@.len() >= 8,
        0 <= booking.fee_sats <= booking.amount_sats <= 300_000_000_000_000_000,
        0 <= now < 9_400_000_000_000,
    ensures
        call_ensures(fund, (&auth, booking), Ok(funding)) ==> call_requires(
            Funding::invoice,
            (&funding, &name),
        ),
        call_ensures(release, (&auth, booking), Ok(rel)) ==> call_requires(
            Release::order,
            (rel, lud16, now),
        ),
        call_requires(dispute, (&auth, &booking, now)),
        call_requires(complete, (&auth, booking, &merchant, now)),
        call_requires(due, (&booking, now)),
        call_requires(run_auto_release, (booking, now)),
{
    lemma_ascii_ids_are_cut(booking.id@);
}

/// Every booking of up to 900,000,000,000,000 sats can be entered and paid out to its driver,
/// at every rate of up to the whole amount.
pub proof fn law_drivers_can_be_paid(
    auth: AuthUser,
    body: CreateBookingRequest,
    booking: Booking,
    owner: Option<String>,
    now: i64,
    plan: ConfirmPlan,
    instant: InstantRelease,
    auto: AutoRelease,
    lud16: Option<String>,
    bps: u64,
    id: String,
)
    requires
        0 <= booking.amount_sats <= 900_000_000_000_000,
        body.amount_sats <= 900_000_000_000_000,
        bps <= 10_000,
        is_ascii(booking.id@),
        booking.id@.len() >= 8,
    ensures
        call_requires(create, (&auth, &body, true, bps, id, now)),
        (call_ensures(driver_confirm, (&auth, &booking, &owner, now), Ok(plan)) || call_ensures(
            rider_confirm,
            (&auth, &booking, now),
            Ok(plan),
        )) && plan.next == (Confirmation::ReleaseNow { release: instant }) ==> call_requires(
            InstantRelease::do_instant_release,
            (instant, bps, lud16),
        ),
        call_ensures(run_auto_release, (booking, now), Some(DueAction::PayDriver { release: auto }))
            ==> call_requires(AutoRelease::order, (auto, lud16, bps)),
{
    lemma_ascii_ids_are_cut(booking.id@);
    assert(0 <= booking.amount_sats * bps <= 900_000_000_000_000 * 10_000) by (nonlinear_arith)
        requires
            0 <= booking.amount_sats <= 900_000_000_000_000,
            0 <= bps <= 10_000,
    ;
    if body.amount_sats >= 0 {
        assert(0 <= body.amount_sats * bps <= 900_000_000_000_000 * 10_000) by (nonlinear_arith)
            requires
                0 <= body.amount_sats <= 900_000_000_000_000,
                0 <= bps <= 10_000,
        ;
    }
}

/// Every fare of up to 900,000,000,000,000 sats can be paid out directly, at every rate of up
/// to the whole fare; every fare in kwacha of up to 700,000,000,000,000,000 can be escrowed.
pub proof fn law_fares_can_be_paid(
    auth: AuthUser,
    body: DirectReleaseRequest,
    ride: PayableRide,
    payout: DirectPayout,
    lud16: Option<String>,
    bps: u64,
    id: String,
    now: i64,
    fiat: CreateFiatEscrow,
    airtel: String,
    tnm: String,
)
    requires
        call_ensures(release_direct, (&auth, &body, &Some(ride)), Ok(payout)),
        ride.fare_sats <= 900_000_000_000_000,
        bps <= 10_000,
        fiat.amount_mwk <= 700_000_000_000_000_000,
        id@.len() == 32,
        forall|i: int|
            0 <= i < id@.len() ==> ('0' <= #[trigger] id@[i] <= '9') || ('a' <= id@[i] <= 'f'),
    ensures
        call_requires(DirectPayout::order, (payout, lud16, bps, id, now)),
        call_requires(create_fiat_escrow, (&auth, &fiat, airtel, tnm, id, now)),
{
    if ride.fare_sats > 0 {
        assert(0 <= ride.fare_sats * bps <= 900_000_000_000_000 * 10_000) by (nonlinear_arith)
            requires
                0 <= ride.fare_sats <= 900_000_000_000_000,
                0 <= bps <= 10_000,
        ;
    }
    assert forall|i: int| 0 <= i < id@.len() implies crate::ids::is_lower_hex(
        #[trigger] id@[i],
    ) by {}
}

/// At every time until the year 300,000 drivers are searched, rides are asked for, bookings
/// are polled and invoices are taken.
pub proof fn law_rides_can_be_asked_for(
    auth: AuthUser,
    category: Option<String>,
    vehicle: Option<String>,
    body: RideRequestInput,
    min_fare: i64,
    row: RideRequest,
    errors: Vec<String>,
    invoice: Option<(String, String)>,
    now: i64,
)
    requires
        0 <= now < 9_400_000_000_000,
    ensures
        call_requires(nearby_drivers, (&category, &vehicle, now)),
        call_requires(request_ride, (&auth, body, min_fare, now)),
        call_requires(poll_bookings, (&auth, &row, now)),
        call_requires(BlinkClient::invoice_created, (&errors, invoice, now)),
{
}

/// Every balance that is not negative can be called from and charged, every call of up to
/// 30 years at a rate of up to a million sats can be settled, every rating of 1 to 5 can be
/// counted, and the service of every vehicle of up to 4,000,000,000,000,000,000 km can be told.
pub proof fn law_calls_can_be_made(
    call: OutboundCall,
    balance: i64,
    rate: i64,
    cost: i64,
    log_id: String,
    now: i64,
    ended: EndedCall,
    row: PstnLogRow,
    score: i64,
    km: i64,
    interval: i64,
)
    requires
        0 <= balance,
        0 <= rate <= 1_000_000,
        0 <= cost,
        0 <= ended.duration_secs <= 1_000_000_000,
        1 <= score <= 5,
        0 <= km <= 4_000_000_000_000_000_000,
        interval <= 4_000_000_000_000_000_000,
    ensures
        call_requires(OutboundCall::logged, (call, balance, rate, log_id, now)),
        call_requires(charged, (balance, cost)),
        call_requires(cost_of_call, (ended.duration_secs, rate)),
        call_requires(settle_call, (&ended, row, rate)),
        call_requires(Tally::with, (None::<Tally>, score)),
        call_requires(service_hint, (km, interval)),
{
    let secs = ended.duration_secs;
    let m = crate::routes::calls::minutes_begun(secs as int);
    assert(0 <= m <= 1_000_000_000);
    assert(0 <= m * rate <= 1_000_000_000 * 1_000_000) by (nonlinear_arith)
        requires
            0 <= m <= 1_000_000_000,
            0 <= rate <= 1_000_000,
    ;
    if interval > 0 {
        crate::routes::driver_listings::law_service_lies_ahead(km as int, interval as int);
    }
}

} // verus!

//! What a ride comes to: who is asked, who gets it, at what fare, and what the driver is paid.

use vstd::prelude::*;

use crate::auth::AuthUser;
use crate::db::DirectRelease;
use crate::db::RideChange;
use crate::db::RideRequest;
use crate::db::changes::RideChangeView;
use crate::db::models::DirectReleaseView;
use crate::db::models::RideRequestView;
use crate::error::AppResult;
use crate::error::ErrorView;
use crate::laws::is_rate_of;
use crate::laws::lemma_fee_is_the_rate;
use crate::money::Payment;
use crate::routes::escrow::DirectOrder;
use crate::routes::escrow::DirectPayment;
use crate::routes::escrow::DirectPayout;
use crate::routes::escrow::DirectReleaseRequest;
use crate::routes::escrow::DirectSettlement;
use crate::routes::escrow::PayableRide;
use crate::routes::escrow::direct_release_status;
use crate::routes::escrow::release_direct;
use crate::routes::rides::AcceptedRide;
use crate::routes::rides::BookingAccepted;
use crate::routes::rides::BookingSent;
use crate::routes::rides::DriverLocation;
use crate::routes::rides::DriverSearch;
use crate::routes::rides::EligibleDriver;
use crate::routes::rides::GpsHeartbeat;
use crate::routes::rides::HttpBookingNotify;
use crate::routes::rides::NearbySearch;
use crate::routes::rides::RideEntered;
use crate::routes::rides::RideRequestInput;
use crate::routes::rides::RideStatus;
use crate::routes::rides::RideToOffer;
use crate::routes::rides::TakeRide;
use crate::routes::rides::TakenRide;
use crate::routes::rides::accept_booking_http;
use crate::routes::rides::accept_ride;
use crate::routes::rides::computed_fare;
use crate::routes::rides::driver_price;
use crate::routes::rides::drivers_but;
use crate::routes::rides::http_send_booking;
use crate::routes::rides::nearby_drivers;
use crate::routes::rides::poll_bookings;
use crate::routes::rides::poll_ride_status;
use crate::routes::rides::request_ride;
use crate::routes::rides::upsert_driver_location;
use crate::text::dec;

verus! {

proof fn lemma_ride_statuses_differ()
    ensures
        "searching"@ != "accepted"@,
        "searching"@ != "pending"@,
        "accepted"@ != "pending"@,
        "completed"@ != "accepted"@,
        "completed"@ != "in_progress"@,
        "completed"@ != "matched"@,
        "completed"@ != "searching"@,
{
    reveal_strlit("searching");
    reveal_strlit("accepted");
    reveal_strlit("pending");
    reveal_strlit("completed");
    reveal_strlit("in_progress");
    reveal_strlit("matched");
    assert("searching"@[0] == 's');
    assert("accepted"@[0] == 'a');
    assert("pending"@[0] == 'p');
    assert("completed"@[0] == 'c');
    assert("in_progress"@[0] == 'i');
    assert("matched"@[0] == 'm');
}

// ── Drivers ─────────────────────────────────────────────────────────────────

/// A driver who reports is online since now. What is reported replaces what was known, and
/// what is not reported stays.
pub proof fn law_reports_replace_what_was_known(
    known: Option<DriverLocation>,
    pubkey: &str,
    hb: GpsHeartbeat,
    now: i64,
    r: DriverLocation,
)
    requires
        call_ensures(upsert_driver_location, (&known, pubkey, &hb, now), r),
    ensures
        r.pubkey@ == pubkey@ && r.online && r.updated_at == now,
        hb.lud16 is Some ==> r.lud16 == hb.lud16,
        hb.vehicle_type is Some ==> r.vehicle_type == hb.vehicle_type,
        hb.ride_categories is Some ==> r.ride_categories == hb.ride_categories,
        hb.seats is Some ==> r.seats == hb.seats,
        hb.display_name is Some ==> r.display_name == hb.display_name,
        hb.picture_url is Some ==> r.picture_url == hb.picture_url,
        hb.country is Some ==> r.country == hb.country,
        hb.city is Some ==> r.city == hb.city,
        hb.price_per_km is Some ==> r.price_per_km == hb.price_per_km,
        known matches Some(k) ==> {
            &&& hb.lud16 is None ==> r.lud16 == k.lud16
            &&& hb.vehicle_type is None ==> r.vehicle_type == k.vehicle_type
            &&& hb.ride_categories is None ==> r.ride_categories == k.ride_categories
            &&& hb.seats is None ==> r.seats == k.seats
            &&& hb.display_name is None ==> r.display_name == k.display_name
            &&& hb.picture_url is None ==> r.picture_url == k.picture_url
            &&& hb.country is None ==> r.country == k.country
            &&& hb.city is None ==> r.city == k.city
            &&& hb.price_per_km is None ==> r.price_per_km == k.price_per_km
        },
        known is None ==> {
            &&& hb.lud16 is None ==> r.lud16 is None
            &&& hb.vehicle_type is None ==> r.vehicle_type is None
            &&& hb.ride_categories is None ==> r.ride_categories is None
            &&& hb.display_name is None ==> r.display_name is None
            &&& hb.picture_url is None ==> r.picture_url is None
            &&& hb.country is None ==> r.country is None
            &&& hb.city is None ==> r.city is None
            &&& hb.seats is None ==> r.seats is None
            &&& hb.price_per_km is None ==> r.price_per_km is None
        },
{
}

/// Drivers are looked for who were heard of within 2 minutes, and a ride of the last 2 hours
/// keeps a driver busy. A ride within the city is meant where nothing else is said.
pub proof fn law_nearby_drivers_were_heard_of_lately(
    category: Option<String>,
    vehicle: Option<String>,
    now: i64,
    r: NearbySearch,
)
    requires
        call_ensures(nearby_drivers, (&category, &vehicle, now), r),
    ensures
        now - r.heard_since == 2 * 60,
        now - r.busy_since == 2 * 60 * 60,
        category is Some ==> r.category@ == category->0@,
        category is None ==> r.category@ == "city"@,
        vehicle is Some ==> r.vehicle_type@ == vehicle->0@,
        vehicle is None ==> r.vehicle_type@.len() == 0,
{
    reveal_strlit("");
}

// ── Asking for a ride ───────────────────────────────────────────────────────

/// A ride is asked for at every fare that is not below the least one, and at none below. Five
/// drivers at most are looked for, never the rider, as far off as the kind of ride allows.
pub proof fn law_riders_ask_for_a_ride(
    auth: AuthUser,
    body: RideRequestInput,
    min_fare: i64,
    now: i64,
    r: AppResult<RideToOffer>,
    search: DriverSearch,
)
    requires
        call_ensures(request_ride, (&auth, body, min_fare, now), r),
        r is Ok ==> call_ensures(RideToOffer::search, (&r->Ok_0,), search),
    ensures
        r is Ok <==> body.fare_sats >= min_fare,
        r is Err ==> r->Err_0@ == ErrorView::BadRequest(
            "Minimum fare is "@ + dec(min_fare as int) + " sats (you offered "@ + dec(
                body.fare_sats as int,
            ) + "). Increase your trip estimate or choose a more economical option."@,
        ),
        r is Ok ==> {
            &&& search.not_driver@ == auth.public_key@
            &&& search.limit == 5
            &&& now - search.heard_since == 2 * 60
            &&& body.ride_category is Some ==> search.category@ == body.ride_category->0@
            &&& body.ride_category is None ==> search.category@ == "city"@
            &&& body.vehicle_pref is Some ==> search.vehicle_pref@ == body.vehicle_pref->0@
            &&& search.category@ == "intercity"@ ==> search.radius_hundredths == 100
            &&& search.category@ == "tourist"@ ==> search.radius_hundredths == 200
            &&& search.category@ != "intercity"@ && search.category@ != "tourist"@
                ==> search.radius_hundredths == 15
        },
{
    reveal_strlit("intercity");
    reveal_strlit("tourist");
    assert("intercity"@.len() != "tourist"@.len());
}

/// A ride is entered at the fare that was asked for, which is what the drivers are offered,
/// and can be accepted for a minute. The answer tells how many drivers were asked.
pub proof fn law_rides_are_offered_at_their_fare(
    auth: AuthUser,
    body: RideRequestInput,
    min_fare: i64,
    now: i64,
    ride: RideToOffer,
    drivers: Vec<String>,
    ride_id: String,
    r: RideEntered,
)
    requires
        call_ensures(request_ride, (&auth, body, min_fare, now), Ok(ride)),
        call_ensures(RideToOffer::offered, (ride, &drivers, ride_id), r),
        i64::MIN <= now + 60 <= i64::MAX,
    ensures
        r.row.id@ == ride_id@ && r.offer.ride_id@ == ride_id@ && r.answer.ride_id@ == ride_id@,
        r.row.rider_pubkey@ == auth.public_key@ && r.row.rider_npub@ == auth.npub@,
        r.row.fare_sats == body.fare_sats,
        r.offer.fare_sats == body.fare_sats,
        r.offer.rider_pubkey@ == auth.public_key@,
        r.row.status@ == "searching"@,
        r.row.matched_driver is None,
        r.row.accept_deadline is Some && r.row.accept_deadline->0 - now == 60,
        r.row.created_at == now && r.row.updated_at == now,
        r.row.round == 1,
        r.row.pickup_text.deep_view() == body.pickup_text.deep_view(),
        r.row.dest_text.deep_view() == body.dest_text.deep_view(),
        crate::json::listed_in(r.row.drivers_notified@) == drivers.deep_view(),
        r.answer.drivers_notified == drivers@.len(),
        drivers@.len() > 0 ==> r.answer.status@ == "searching"@,
        drivers@.len() == 0 ==> r.answer.status@ == "no_drivers"@,
        r.row.ride_category is Some && r.row.vehicle_pref is Some,
        r.offer.category@ == r.row.ride_category->0@,
        body.ride_category is Some ==> r.row.ride_category->0@ == body.ride_category->0@,
        body.ride_category is None ==> r.row.ride_category->0@ == "city"@,
        body.vehicle_pref is Some ==> r.row.vehicle_pref->0@ == body.vehicle_pref->0@,
        r.offer.pickup_text.deep_view() == body.pickup_text.deep_view(),
        r.offer.dest_text.deep_view() == body.dest_text.deep_view(),
        body.pickup_text is Some ==> r.offer.push_body@ == dec(body.fare_sats as int) + " sats · "@
            + body.pickup_text->0@,
        body.pickup_text is None ==> r.offer.push_body@ == dec(body.fare_sats as int) + " sats · "@
            + "Nearby"@,
{
}

// ── Accepting a ride ────────────────────────────────────────────────────────

/// A driver with an address to be paid at takes a ride that is not the driver's own. It takes
/// hold within the minute, on a ride that nobody has taken yet, and only then.
pub proof fn law_the_first_driver_takes_the_ride(
    auth: AuthUser,
    lud16: Option<String>,
    eligible: AppResult<EligibleDriver>,
    ride_id: &str,
    rider: Option<String>,
    now: i64,
    take: AppResult<TakeRide>,
    change: RideChange,
    rows: u64,
    taken: AppResult<TakenRide>,
    row: RideRequestView,
)
    requires
        call_ensures(accept_ride, (&auth, &lud16), eligible),
        eligible is Ok ==> call_ensures(
            EligibleDriver::take,
            (eligible->Ok_0, ride_id, &rider, now),
            take,
        ),
        eligible is Ok && take is Ok ==> {
            &&& call_ensures(TakeRide::change, (&take->Ok_0,), change)
            &&& call_ensures(TakeRide::taken, (take->Ok_0, rows), taken)
        },
    ensures
        eligible is Ok <==> lud16 is Some && lud16->0@.contains('@'),
        eligible is Err ==> eligible->Err_0@ == ErrorView::BadRequest(
            "driver has no valid lightning address — set one in profile before accepting rides"@,
        ),
        eligible is Ok ==> (take is Ok <==> rider is Some && rider->0@ != auth.public_key@),
        eligible is Ok && rider is None ==> take->Err_0@ == ErrorView::BadRequest(
            "ride not found"@,
        ),
        eligible is Ok && rider is Some && take is Err ==> take->Err_0@ == ErrorView::BadRequest(
            "cannot accept your own ride request"@,
        ),
        eligible is Ok && take is Ok ==> {
            &&& change@.applies(row) <==> row.status == "searching"@ && (row.accept_deadline is Some
                ==> now <= row.accept_deadline->0)
            &&& change@.applies(row) ==> change@.after(row) == (RideRequestView {
                status: "accepted"@,
                matched_driver: Some(auth.public_key@),
                updated_at: now,
                ..row
            })
            &&& !change@.applies(row) ==> change@.after(row) == row
            &&& change@.applies(row) ==> !change@.applies(change@.after(row))
            &&& taken is Ok <==> rows > 0
            &&& taken is Err ==> taken->Err_0@ == ErrorView::BadRequest(
                "Ride already taken or expired"@,
            )
        },
{
    lemma_ride_statuses_differ();
}

/// The rider is told who took the ride and at what fare: the one that was computed from the
/// driver's price, or else the one that the rider asked for. The fare is written where it
/// differs, and every other driver who was asked is told.
pub proof fn law_accepted_rides_have_one_fare(
    auth: AuthUser,
    lud16: Option<String>,
    eligible: EligibleDriver,
    ride_id: &str,
    rider: Option<String>,
    now: i64,
    take: TakeRide,
    rows: u64,
    taken: TakenRide,
    to: String,
    requested: i64,
    computed: Option<i64>,
    notified: &str,
    r: AcceptedRide,
    row: RideRequestView,
)
    requires
        call_ensures(accept_ride, (&auth, &lud16), Ok(eligible)),
        call_ensures(EligibleDriver::take, (eligible, ride_id, &rider, now), Ok(take)),
        call_ensures(TakeRide::taken, (take, rows), Ok(taken)),
        call_ensures(TakenRide::accepted, (taken, to, requested, computed, notified), r),
        row.fare_sats == requested,
    ensures
        computed is Some ==> r.fare_sats == computed->0,
        computed is None ==> r.fare_sats == requested,
        r.message.to == to,
        r.message.ride_id@ == ride_id@,
        r.message.driver_pubkey@ == auth.public_key@,
        r.message.fare_sats == r.fare_sats,
        r.change is Some ==> r.change->0@.after(row).fare_sats == r.fare_sats,
        r.change is Some ==> r.change->0@.after(row).status == row.status,
        r.change is None ==> row.fare_sats == r.fare_sats,
        forall|i: int|
            0 <= i < r.others.deep_view().len() ==> #[trigger] r.others.deep_view()[i]
                != auth.public_key@,
        forall|d: Seq<char>|
            d != auth.public_key@ && crate::json::listed_in(notified@).contains(d)
                ==> #[trigger] r.others.deep_view().contains(d),
{
    lemma_all_but(crate::json::listed_in(notified@), auth.public_key@);
}

proof fn lemma_all_but(list: Seq<Seq<char>>, one: Seq<char>)
    ensures
        forall|i: int|
            0 <= i < crate::routes::rides::all_but(list, one).len()
                ==> #[trigger] crate::routes::rides::all_but(list, one)[i] != one,
        forall|d: Seq<char>|
            d != one && list.contains(d) ==> #[trigger] crate::routes::rides::all_but(
                list,
                one,
            ).contains(d),
        forall|d: Seq<char>|
            #[trigger] crate::routes::rides::all_but(list, one).contains(d) ==> list.contains(d),
        crate::routes::rides::all_but(list, one).len() <= list.len(),
    decreases list.len(),
{
    let r = crate::routes::rides::all_but(list, one);
    if list.len() > 0 {
        let front = list.drop_last();
        let f = crate::routes::rides::all_but(front, one);
        lemma_all_but(front, one);
        assert forall|d: Seq<char>| d != one && list.contains(d) implies #[trigger] r.contains(
            d,
        ) by {
            let k = choose|k: int| 0 <= k < list.len() && list[k] == d;
            if k < list.len() - 1 {
                assert(front[k] == d);
                assert(f.contains(d));
                let j = choose|j: int| 0 <= j < f.len() && f[j] == d;
                assert(r[j] == d);
            } else {
                assert(r[r.len() - 1] == d);
            }
        }
        assert forall|d: Seq<char>| #[trigger] r.contains(d) implies list.contains(d) by {
            let k = choose|k: int| 0 <= k < r.len() && r[k] == d;
            if k < f.len() {
                assert(f[k] == d);
                assert(f.contains(d));
                let j = choose|j: int| 0 <= j < front.len() && front[j] == d;
                assert(list[j] == d);
            } else {
                assert(list[list.len() - 1] == d);
            }
        }
    }
}

/// Of the drivers who were asked, the one who got the ride is left out, and nobody else is
/// added or left out.
pub proof fn law_the_others_are_told(offered: Vec<String>, taken_by: &str, r: Vec<String>)
    requires
        call_ensures(drivers_but, (&offered, taken_by), r),
    ensures
        !r.deep_view().contains(taken_by@),
        forall|d: Seq<char>|
            #[trigger] r.deep_view().contains(d) <==> d != taken_by@
                && offered.deep_view().contains(d),
{
    lemma_all_but(offered.deep_view(), taken_by@);
    let l = r.deep_view();
    assert forall|d: Seq<char>| #[trigger] l.contains(d) implies d != taken_by@ by {
        let k = choose|k: int| 0 <= k < l.len() && l[k] == d;
        assert(l[k] != taken_by@);
    }
}

/// A driver's price is the one of the listing where that is set, or else the one that the
/// driver reports, or else none. A fare is computed where there is a price and a distance.
pub proof fn law_drivers_set_their_price(
    listing: Option<i64>,
    location: Option<i64>,
    price: i64,
    far: bool,
    product: i64,
    fare: Option<i64>,
)
    requires
        call_ensures(driver_price, (listing, location), price),
        call_ensures(computed_fare, (price, far, product), fare),
    ensures
        listing is Some && listing->0 > 0 ==> price == listing->0,
        !(listing is Some && listing->0 > 0) && location is Some ==> price == location->0,
        !(listing is Some && listing->0 > 0) && location is None ==> price == 0,
        fare is Some <==> price > 0 && far,
        fare is Some ==> fare->0 == product,
{
}

/// A booking is accepted at the computed fare where that is positive, and otherwise at the one
/// on the ride, just where it reaches the least fare. Where it does not, the ride is free to
/// be taken again and the rider is not told.
pub proof fn law_bookings_are_accepted_at_the_least_fare_or_more(
    auth: AuthUser,
    lud16: Option<String>,
    eligible: EligibleDriver,
    ride_id: &str,
    known_rider: Option<String>,
    now: i64,
    take: TakeRide,
    rows: u64,
    ride: TakenRide,
    rider: &str,
    stored: i64,
    computed: Option<i64>,
    min_fare: i64,
    r: BookingAccepted,
    row: RideRequestView,
)
    requires
        call_ensures(accept_ride, (&auth, &lud16), Ok(eligible)),
        call_ensures(EligibleDriver::take, (eligible, ride_id, &known_rider, now), Ok(take)),
        call_ensures(TakeRide::taken, (take, rows), Ok(ride)),
        call_ensures(accept_booking_http, (ride, rider, stored, computed, min_fare), r),
        row.fare_sats == stored,
    ensures
        ({
            let fare = if computed is Some && computed->0 > 0 {
                computed->0
            } else {
                stored
            };
            &&& r.answer is Ok <==> fare >= min_fare
            &&& r.answer is Ok ==> r.answer->Ok_0 == fare
            &&& r.answer is Err ==> r.answer->Err_0@ == ErrorView::BadRequest(
                "Computed fare "@ + dec(fare as int) + " sats is below the minimum of "@ + dec(
                    min_fare as int,
                ) + " sats. Increase your price per km or estimated distance."@,
            )
            &&& r.fare_change is Some ==> r.fare_change->0@.after(row) == (RideRequestView {
                fare_sats: fare,
                updated_at: now,
                ..row
            })
            &&& r.fare_change is None ==> fare == stored
            &&& r.reopen is Some <==> fare < min_fare
            &&& r.reopen is Some ==> r.reopen->0@.after(row) == (RideRequestView {
                status: "searching"@,
                matched_driver: None,
                updated_at: now,
                ..row
            })
            &&& r.message is Some <==> fare >= min_fare && rider@.len() > 0
            &&& r.message matches Some(m) ==> {
                &&& m.to@ == rider@
                &&& m.ride_id@ == ride_id@
                &&& m.driver_pubkey@ == auth.public_key@
                &&& m.fare_sats == fare
            }
        }),
{
}

// ── Bookings sent to a driver ───────────────────────────────────────────────

/// A booking that is sent is the caller's, for the driver that was chosen, at the fare that was
/// offered, and pending; the driver gets the same in the message.
pub proof fn law_bookings_go_to_the_chosen_driver(
    auth: AuthUser,
    body: HttpBookingNotify,
    now: i64,
    r: BookingSent,
    row: RideRequestView,
)
    requires
        call_ensures(http_send_booking, (&auth, &body, now), r),
    ensures
        r.row.id@ == body.ride_id@ && r.message.ride_id@ == body.ride_id@,
        r.row.rider_pubkey@ == auth.public_key@ && r.message.from@ == auth.public_key@,
        r.row.matched_driver@ == body.driver_pubkey@ && r.message.to@ == body.driver_pubkey@,
        r.row.status@ == "pending"@,
        r.row.created_at == now && r.row.updated_at == now,
        body.fare_sats is Some ==> r.row.fare_sats == body.fare_sats->0 && r.message.fare_sats
            == body.fare_sats->0,
        body.fare_sats is None ==> r.row.fare_sats == 0 && r.message.fare_sats == 0,
        body.pickup is Some ==> r.row.pickup_text@ == body.pickup->0@ && r.message.pickup@
            == body.pickup->0@,
        body.destination is Some ==> r.row.dest_text@ == body.destination->0@
            && r.message.destination@ == body.destination->0@,
        body.passenger_npub is Some ==> r.row.rider_npub@ == body.passenger_npub->0@
            && r.message.passenger_npub@ == body.passenger_npub->0@,
        body.passenger_pubkey is Some ==> r.message.passenger_pubkey@
            == body.passenger_pubkey->0@,
        body.pickup is None ==> r.row.pickup_text@ == ""@ && r.message.pickup@ == ""@,
        body.destination is None ==> r.row.dest_text@ == ""@ && r.message.destination@ == ""@,
        body.passenger_npub is None ==> r.row.rider_npub@ == ""@ && r.message.passenger_npub@
            == ""@,
        body.passenger_pubkey is None ==> r.message.passenger_pubkey@ == ""@,
        r.again@.after(row) == (RideRequestView {
            status: "pending"@,
            matched_driver: Some(body.driver_pubkey@),
            updated_at: now,
            ..row
        }),
{
}

/// A booking is shown to the driver it was sent to, and to no other, while it is pending and
/// less than 5 minutes old. A rider, and nobody else, is told the status and fare of a ride.
pub proof fn law_bookings_are_shown_for_five_minutes(
    auth: AuthUser,
    row: RideRequest,
    now: i64,
    shown: bool,
    ride_id: &str,
    known: Option<RideRequest>,
    status: RideStatus,
)
    requires
        call_ensures(poll_bookings, (&auth, &row, now), shown),
        call_ensures(poll_ride_status, (&auth, ride_id, &known), status),
    ensures
        shown <==> row.status@ == "pending"@ && row.matched_driver is Some && row.matched_driver->0@
            == auth.public_key@ && now - row.created_at < 5 * 60,
        status.ride_id@ == ride_id@,
        known is Some && known->0.id@ == ride_id@ && known->0.rider_pubkey@ == auth.public_key@
            ==> status.status@ == known->0.status@ && status.fare_sats == Some(known->0.fare_sats),
        !(known is Some && known->0.id@ == ride_id@ && known->0.rider_pubkey@ == auth.public_key@)
            ==> status.status@ == "not_found"@ && status.fare_sats is None,
{
}

/// What is written to a ride leaves what was agreed on: the rider, the places, the kind of ride
/// and the time until which it can be taken. The fare changes only where it is set.
pub proof fn law_ride_writes_keep_the_agreement(row: RideRequestView, change: RideChangeView)
    ensures
        ({
            let after = change.after(row);
            &&& after.id == row.id
            &&& after.rider_pubkey == row.rider_pubkey
            &&& after.rider_npub == row.rider_npub
            &&& after.pickup_text == row.pickup_text
            &&& after.dest_text == row.dest_text
            &&& after.ride_category == row.ride_category
            &&& after.vehicle_pref == row.vehicle_pref
            &&& after.drivers_notified == row.drivers_notified
            &&& after.accept_deadline == row.accept_deadline
            &&& after.created_at == row.created_at
            &&& !(change is SetFare) ==> after.fare_sats == row.fare_sats
            &&& change is SetFare ==> after.status == row.status && after.matched_driver
                == row.matched_driver
            &&& change is Complete ==> after.status == "completed"@ && after.matched_driver
                == row.matched_driver
        }),
{
}

// ── Paying the driver ───────────────────────────────────────────────────────

/// The rider has the driver of an accepted ride paid, and nobody else does. What the rider
/// says of the amount and of the address does not count.
pub proof fn law_riders_pay_their_driver(
    auth: AuthUser,
    body: DirectReleaseRequest,
    other: DirectReleaseRequest,
    ride: Option<PayableRide>,
    r: AppResult<DirectPayout>,
    s: AppResult<DirectPayout>,
    driver: &str,
)
    requires
        call_ensures(release_direct, (&auth, &body, &ride), r),
        call_ensures(release_direct, (&auth, &other, &ride), s),
        r is Ok ==> call_ensures(DirectPayout::driver_pubkey, (&r->Ok_0,), driver),
    ensures
        r is Ok <==> ride is Some && ride->0.rider_pubkey@ == auth.public_key@ && (ride->0.status@
            == "accepted"@ || ride->0.status@ == "in_progress"@ || ride->0.status@ == "matched"@)
            && ride->0.matched_driver is Some,
        r is Ok <==> s is Ok,
        ride is None ==> r->Err_0@ == ErrorView::BadRequest("ride not found"@),
        ride is Some && ride->0.rider_pubkey@ != auth.public_key@ ==> r->Err_0@
            == ErrorView::Unauthorized("only the booker can release this ride"@),
        ride is Some && ride->0.rider_pubkey@ == auth.public_key@ && ride->0.status@ != "accepted"@
            && ride->0.status@ != "in_progress"@ && ride->0.status@ != "matched"@ ==> r->Err_0@
            == ErrorView::BadRequest(
            "ride not in releasable state (current status: "@ + ride->0.status@ + ")"@,
        ),
        ride is Some && ride->0.rider_pubkey@ == auth.public_key@ && (ride->0.status@ == "accepted"@
            || ride->0.status@ == "in_progress"@ || ride->0.status@ == "matched"@)
            && ride->0.matched_driver is None ==> r->Err_0@ == ErrorView::BadRequest(
            "ride has no matched driver"@,
        ),
        r is Ok ==> driver@ == ride->0.matched_driver->0@,
{
}

/// The driver is paid, at the driver's own address, what is left of the ride's fare after the
/// rate's share of it, where that is 100 sats or more. What is entered before the payment,
/// paid, counted and answered is the same, and adds up to the fare. Only where the payment was
/// made is the ride complete and the driver's earning counted.
pub proof fn law_drivers_are_paid_the_fare_less_the_fee(
    auth: AuthUser,
    body: DirectReleaseRequest,
    ride: PayableRide,
    payout: DirectPayout,
    lud16: Option<String>,
    bps: u64,
    id: String,
    now: i64,
    ordered: AppResult<DirectOrder>,
    row: &DirectRelease,
    error: Option<String>,
    entered: AppResult<DirectPayment>,
    payment: &Payment,
    reply: Result<String, String>,
    later: i64,
    end: DirectSettlement,
    ride_row: RideRequestView,
)
    requires
        call_ensures(release_direct, (&auth, &body, &Some(ride)), Ok(payout)),
        call_ensures(DirectPayout::order, (payout, lud16, bps, id, now), ordered),
        ordered is Ok ==> {
            &&& call_ensures(DirectOrder::row_to_enter, (&ordered->Ok_0,), row)
            &&& call_ensures(DirectOrder::entered, (ordered->Ok_0, &error), entered)
        },
        ordered is Ok && entered is Ok ==> {
            &&& call_ensures(DirectPayment::payment_to_make, (&entered->Ok_0,), payment)
            &&& call_ensures(DirectPayment::paid, (entered->Ok_0, reply, later), end)
        },
        0 <= ride.fare_sats ==> ride.fare_sats * bps <= u64::MAX,
    ensures
        ordered is Ok <==> lud16 is Some && lud16->0@.contains('@') && ride.fare_sats > 0
            && ride.fare_sats * bps < 10_000 * (ride.fare_sats - 99),
        !(lud16 is Some && lud16->0@.contains('@')) ==> ordered->Err_0@ == ErrorView::BadRequest(
            "driver has no valid lightning address on file"@,
        ),
        lud16 is Some && lud16->0@.contains('@') && ride.fare_sats <= 0 ==> ordered->Err_0@
            == ErrorView::BadRequest("ride fare is zero or invalid"@),
        ordered is Err ==> ordered->Err_0@ is BadRequest,
        ordered is Ok ==> {
            &&& row.id@ == id@
            &&& row.ride_id@ == body.ride_id@
            &&& row.payer_pubkey@ == auth.public_key@
            &&& row.lud16@ == lud16->0@
            &&& row.amount_sats == ride.fare_sats
            &&& is_rate_of(row.fee_sats as int, ride.fare_sats as int, bps as int)
            &&& row.driver_sats + row.fee_sats == ride.fare_sats
            &&& row.driver_sats >= 100
            &&& row.status@ == "pending"@
            &&& row.error_message is None && row.blink_status is None
            &&& row.created_at == now && row.updated_at == now
            &&& entered is Ok <==> error is None
            &&& error is Some && (crate::text::occurs(error->0@, "UNIQUE"@)
                || crate::text::occurs(error->0@, "constraint"@)) ==> entered->Err_0@
                == ErrorView::BadRequest("a release for this ride is already pending or completed"@)
            &&& error is Some && !crate::text::occurs(error->0@, "UNIQUE"@)
                && !crate::text::occurs(error->0@, "constraint"@) ==> entered->Err_0@
                == ErrorView::Internal("pending insert failed: "@ + error->0@)
        },
        ordered is Ok && entered is Ok ==> {
            &&& payment.amount_sats == row.driver_sats
            &&& payment.lud16@ == lud16->0@
            &&& payment.memo@ == "Ulendo ride "@ + body.ride_id@
            &&& end.row.ride_id@ == row.ride_id@ && end.row.id@ == row.id@
            &&& end.row.driver_sats == row.driver_sats && end.row.fee_sats == row.fee_sats
            &&& end.row.amount_sats == row.amount_sats
            &&& reply is Ok ==> {
                &&& end.row.status@ == "released"@
                &&& end.row.blink_status is Some && end.row.blink_status->0@ == reply->Ok_0@
                &&& end.row.updated_at == later
                &&& end.ride_change is Some
                &&& end.ride_change->0@.after(ride_row).status == "completed"@
                &&& end.earning is Some
                &&& end.earning->0.driver_pubkey@ == ride.matched_driver->0@
                &&& end.earning->0.sats == payment.amount_sats
                &&& end.earning->0.at == later
                &&& end.answer is Ok
                &&& end.answer->Ok_0.driver_sats == payment.amount_sats
                &&& end.answer->Ok_0.fee_sats == row.fee_sats
                &&& end.answer->Ok_0.lud16@ == payment.lud16@
                &&& end.answer->Ok_0.release_id@ == id@
                &&& end.answer->Ok_0.status@ == "released"@
                &&& end.answer->Ok_0.blink_status@ == reply->Ok_0@
            }
            &&& reply is Err ==> {
                &&& end.row.status@ == "failed"@
                &&& end.row.error_message is Some && end.row.error_message->0@
                    == "Lightning payment failed: "@ + reply->Err_0@
                &&& end.row.updated_at == later
                &&& end.ride_change is None
                &&& end.earning is None
                &&& end.answer is Err
                &&& end.answer->Err_0@ == ErrorView::BadRequest(
                    "Lightning payment failed: "@ + reply->Err_0@,
                )
            }
        },
{
    lemma_fee_is_the_rate(ride.fare_sats as int, bps as int);
}

/// A ride that was paid and is complete is not paid again.
pub proof fn law_complete_rides_are_not_paid_again(
    auth: AuthUser,
    body: DirectReleaseRequest,
    ride: PayableRide,
    row: RideRequestView,
    at: i64,
    r: AppResult<DirectPayout>,
)
    requires
        ride.status@ == (RideChangeView::Complete { at }).after(row).status,
        call_ensures(release_direct, (&auth, &body, &Some(ride)), r),
    ensures
        r is Err,
{
    lemma_ride_statuses_differ();
}

/// While a payment for a ride is pending, or once one was made, no other is entered for it. A
/// failed one does not stand in the way, nor does one for another ride.
pub proof fn law_one_payment_for_a_ride(
    rows: Seq<DirectReleaseView>,
    row: DirectReleaseView,
    i: int,
)
    requires
        row.status == "pending"@,
    ensures
        0 <= i < rows.len() && rows[i].ride_id == row.ride_id && (rows[i].status == "pending"@
            || rows[i].status == "released"@) ==> crate::db::changes::entry_error(
            rows,
            row,
        ) is Some,
        (forall|j: int|
            0 <= j < rows.len() && (#[trigger] rows[j]).ride_id == row.ride_id ==> rows[j].status
                == "failed"@) ==> crate::db::changes::entry_error(rows, row) is None,
{
    reveal_strlit("pending");
    reveal_strlit("released");
    reveal_strlit("failed");
    assert("pending"@[0] == 'p');
    assert("released"@[0] == 'r');
    assert("failed"@[0] == 'f');
}

/// The status of a ride's payment is that of the latest one that was entered.
pub proof fn law_payment_status_is_the_latest(latest: Option<DirectRelease>, r: String)
    requires
        call_ensures(direct_release_status, (&latest,), r),
    ensures
        latest is Some ==> r@ == latest->0.status@,
        latest is None ==> r@ == "no_release_yet"@,
{
}

} // verus!

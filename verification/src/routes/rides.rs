//! Rides: drivers tell where they are, riders ask for a ride, the first driver to
//! accept gets it.

use vstd::prelude::*;
use vstd::string::*;

use crate::auth::AuthUser;
use crate::clock::is_timestamp;
use crate::db::RideChange;
use crate::db::RideRequest;
use crate::db::changes::RideChangeView;
use crate::db::models::RideRequestView;
use crate::error::AppError;
use crate::error::AppResult;
use crate::error::ErrorView;
use crate::error::refused_as;
use crate::json::json_of_string_list;
use crate::json::list_or_empty;
use crate::json::listed_in;
use crate::json::parse_string_list;
use crate::json::string_list_text;
use crate::text::contains_char;
use crate::text::copy_option;
use crate::text::dec;
use crate::text::decimal;
use crate::text::number_or_default;
use crate::text::or_default;
use crate::text::or_number;
use crate::text::or_text;
use crate::text::same;

verus! {

// ── Drivers' places ─────────────────────────────────────────────────────────

/// What a driver's device reports of itself, beside its position.
pub struct GpsHeartbeat {
    pub vehicle_type: Option<String>,
    pub ride_categories: Option<String>,
    pub seats: Option<i64>,
    pub lud16: Option<String>,
    pub display_name: Option<String>,
    pub picture_url: Option<String>,
    pub country: Option<String>,
    pub city: Option<String>,
    pub price_per_km: Option<i64>,
}

/// What is known of a driver, beside the position.
pub struct DriverLocation {
    pub pubkey: String,
    pub vehicle_type: Option<String>,
    pub ride_categories: Option<String>,
    pub seats: Option<i64>,
    pub lud16: Option<String>,
    pub display_name: Option<String>,
    pub picture_url: Option<String>,
    pub country: Option<String>,
    pub city: Option<String>,
    pub price_per_km: Option<i64>,
    pub online: bool,
    pub updated_at: i64,
}

/// A reported value, or the known one where none is reported.
pub open spec fn reported_or<T>(reported: Option<T>, known: Option<T>) -> Option<T> {
    if reported is Some {
        reported
    } else {
        known
    }
}

fn text_or(reported: &Option<String>, known: &Option<String>) -> (r: Option<String>)
    ensures
        r == reported_or(*reported, *known),
{
    if reported.is_some() {
        copy_option(reported)
    } else {
        copy_option(known)
    }
}

fn number_or(reported: Option<i64>, known: Option<i64>) -> (r: Option<i64>)
    ensures
        r == reported_or(reported, known),
{
    if reported.is_some() {
        reported
    } else {
        known
    }
}

/// What is known of a driver after a heartbeat: the driver is online, what the
/// heartbeat reports is taken over, and what it leaves out stays as it was.
pub fn upsert_driver_location(
    known: &Option<DriverLocation>,
    pubkey: &str,
    hb: &GpsHeartbeat,
    now: i64,
) -> (r: DriverLocation)
    ensures
        r.pubkey@ == pubkey@,
        r.online,
        r.updated_at == now,
        known matches Some(k) ==> {
            &&& r.vehicle_type == reported_or(hb.vehicle_type, k.vehicle_type)
            &&& r.ride_categories == reported_or(hb.ride_categories, k.ride_categories)
            &&& r.seats == reported_or(hb.seats, k.seats)
            &&& r.lud16 == reported_or(hb.lud16, k.lud16)
            &&& r.display_name == reported_or(hb.display_name, k.display_name)
            &&& r.picture_url == reported_or(hb.picture_url, k.picture_url)
            &&& r.country == reported_or(hb.country, k.country)
            &&& r.city == reported_or(hb.city, k.city)
            &&& r.price_per_km == reported_or(hb.price_per_km, k.price_per_km)
        },
        known is None ==> {
            &&& r.vehicle_type == hb.vehicle_type
            &&& r.ride_categories == hb.ride_categories
            &&& r.seats == hb.seats
            &&& r.lud16 == hb.lud16
            &&& r.display_name == hb.display_name
            &&& r.picture_url == hb.picture_url
            &&& r.country == hb.country
            &&& r.city == hb.city
            &&& r.price_per_km == hb.price_per_km
        },
{
    match known {
        Some(k) => DriverLocation {
            pubkey: pubkey.to_owned(),
            vehicle_type: text_or(&hb.vehicle_type, &k.vehicle_type),
            ride_categories: text_or(&hb.ride_categories, &k.ride_categories),
            seats: number_or(hb.seats, k.seats),
            lud16: text_or(&hb.lud16, &k.lud16),
            display_name: text_or(&hb.display_name, &k.display_name),
            picture_url: text_or(&hb.picture_url, &k.picture_url),
            country: text_or(&hb.country, &k.country),
            city: text_or(&hb.city, &k.city),
            price_per_km: number_or(hb.price_per_km, k.price_per_km),
            online: true,
            updated_at: now,
        },
        None => DriverLocation {
            pubkey: pubkey.to_owned(),
            vehicle_type: copy_option(&hb.vehicle_type),
            ride_categories: copy_option(&hb.ride_categories),
            seats: hb.seats,
            lud16: copy_option(&hb.lud16),
            display_name: copy_option(&hb.display_name),
            picture_url: copy_option(&hb.picture_url),
            country: copy_option(&hb.country),
            city: copy_option(&hb.city),
            price_per_km: hb.price_per_km,
            online: true,
            updated_at: now,
        },
    }
}

/// A driver that is not reached any more.
pub fn mark_driver_offline(driver: &mut DriverLocation)
    ensures
        *final(driver) == (DriverLocation { online: false, ..*old(driver) }),
{
    driver.online = false;
}

/// The heartbeat of a driver made up for a trial.
pub fn test_add_driver(name: &Option<String>, vehicle_type: &Option<String>) -> (r: GpsHeartbeat)
    ensures
        r.vehicle_type.deep_view() == Some(or_text(vehicle_type.deep_view(), "sedan"@)),
        r.ride_categories.deep_view() == Some("city"@),
        r.seats == Some(4i64),
        r.lud16.deep_view() == Some(""@),
        r.display_name.deep_view() == Some(or_text(name.deep_view(), "Test Driver"@)),
        r.picture_url is None,
        r.country is None,
        r.city is None,
        r.price_per_km == Some(500i64),
{
    GpsHeartbeat {
        vehicle_type: Some(or_default(vehicle_type, "sedan")),
        ride_categories: Some("city".to_owned()),
        seats: Some(4),
        lud16: Some("".to_owned()),
        display_name: Some(or_default(name, "Test Driver")),
        picture_url: None,
        country: None,
        city: None,
        price_per_km: Some(500),
    }
}

/// What drivers are looked for on a map.
pub struct NearbySearch {
    pub category: String,
    pub vehicle_type: String,
    /// Drivers heard of before this are not online.
    pub heard_since: i64,
    /// Rides last changed before this keep no driver busy.
    pub busy_since: i64,
}

/// What drivers are looked for: city drivers of any vehicle unless asked otherwise,
/// heard of in the last 2 minutes and without a ride changed in the last 2 hours.
pub fn nearby_drivers(category: &Option<String>, vehicle_type: &Option<String>, now: i64) -> (r:
    NearbySearch)
    requires
        is_timestamp(now),
    ensures
        r.category@ == or_text(category.deep_view(), "city"@),
        r.vehicle_type@ == or_text(vehicle_type.deep_view(), ""@),
        r.heard_since == now - 120,
        r.busy_since == now - 7200,
{
    NearbySearch {
        category: or_default(category, "city"),
        vehicle_type: or_default(vehicle_type, ""),
        heard_since: now - 120,
        busy_since: now - 7200,
    }
}

// ── Asking for a ride ───────────────────────────────────────────────────────

/// A ride as it is asked for, without coordinates and distance.
pub struct RideRequestInput {
    pub pickup_text: Option<String>,
    pub dest_text: Option<String>,
    pub vehicle_pref: Option<String>,
    pub ride_category: Option<String>,
    pub fare_sats: i64,
}

pub struct RideRequestResponse {
    pub ride_id: String,
    pub status: String,
    pub drivers_notified: i32,
}

/// The drivers that a ride is offered to.
pub struct DriverSearch {
    pub category: String,
    pub vehicle_pref: String,
    /// Half the side of the square searched, in hundredths of a degree.
    pub radius_hundredths: i64,
    pub heard_since: i64,
    pub not_driver: String,
    pub limit: i64,
}

/// Why a ride is not offered to drivers, if it is not.
pub open spec fn request_refusal(fare_sats: i64, min_fare: i64) -> Option<ErrorView> {
    if fare_sats < min_fare {
        Some(
            ErrorView::BadRequest(
                "Minimum fare is "@ + dec(min_fare as int) + " sats (you offered "@ + dec(
                    fare_sats as int,
                )
                    + "). Increase your trip estimate or choose a more economical option."@,
            ),
        )
    } else {
        None
    }
}

/// Half the side of the square searched for drivers, in hundredths of a degree.
pub open spec fn search_radius(category: Seq<char>) -> i64 {
    if category == "intercity"@ {
        100
    } else if category == "tourist"@ {
        200
    } else {
        15
    }
}

/// A ride that is offered to drivers.
pub struct RideToOffer {
    rider_pubkey: String,
    rider_npub: String,
    body: RideRequestInput,
    category: String,
    vehicle_pref: String,
    now: i64,
}

/// Begins to offer a ride to drivers: it pays the minimum fare.
pub fn request_ride(auth: &AuthUser, body: RideRequestInput, min_fare: i64, now: i64) -> (r:
    AppResult<RideToOffer>)
    requires
        is_timestamp(now),
    ensures
        refused_as(r, request_refusal(body.fare_sats, min_fare)),
        r matches Ok(ride) ==> {
            &&& ride.rider_pubkey() == auth.public_key@
            &&& ride.rider_npub() == auth.npub@
            &&& ride.body() == body
            &&& ride.at() == now
            &&& ride.body().fare_sats >= min_fare
        },
{
    if body.fare_sats < min_fare {
        let least: String = decimal(min_fare);
        let offered: String = decimal(body.fare_sats);
        let mut m: String = "Minimum fare is ".to_owned();
        m.append(least.as_str());
        m.append(" sats (you offered ");
        m.append(offered.as_str());
        m.append("). Increase your trip estimate or choose a more economical option.");
        return Err(AppError::BadRequest(m));
    }
    Ok(
        RideToOffer {
            rider_pubkey: auth.public_key.clone(),
            rider_npub: auth.npub.clone(),
            category: or_default(&body.ride_category, "city"),
            vehicle_pref: or_default(&body.vehicle_pref, ""),
            body,
            now,
        },
    )
}

/// What each driver found is told of a ride, beside its coordinates.
pub struct RideOffer {
    pub ride_id: String,
    pub pickup_text: Option<String>,
    pub dest_text: Option<String>,
    pub fare_sats: i64,
    pub category: String,
    pub rider_pubkey: String,
    pub push_title: String,
    pub push_body: String,
}

/// A ride entered: its row, what each driver found is told and what is answered.
pub struct RideEntered {
    pub row: RideRequest,
    pub offer: RideOffer,
    pub answer: RideRequestResponse,
}

/// The category of a ride: in the city unless asked otherwise.
pub open spec fn category_of(body: RideRequestInput) -> Seq<char> {
    or_text(body.ride_category.deep_view(), "city"@)
}

/// The vehicle asked for, empty for any.
pub open spec fn vehicle_of(body: RideRequestInput) -> Seq<char> {
    or_text(body.vehicle_pref.deep_view(), ""@)
}

impl RideToOffer {
    #[verifier::type_invariant]
    spec fn inv(self) -> bool {
        &&& is_timestamp(self.now)
        &&& self.category@ == category_of(self.body)
        &&& self.vehicle_pref@ == vehicle_of(self.body)
    }

    pub closed spec fn rider_pubkey(&self) -> Seq<char> {
        self.rider_pubkey@
    }

    pub closed spec fn rider_npub(&self) -> Seq<char> {
        self.rider_npub@
    }

    /// The ride as it was asked for.
    pub closed spec fn body(&self) -> RideRequestInput {
        self.body
    }

    /// The time of the request.
    pub closed spec fn at(&self) -> i64 {
        self.now
    }

    /// The drivers that the ride is offered to: the five nearest that were heard of in
    /// the last 2 minutes, and never the rider.
    pub fn search(&self) -> (r: DriverSearch)
        ensures
            r.category@ == category_of(self.body()),
            r.vehicle_pref@ == vehicle_of(self.body()),
            r.radius_hundredths == search_radius(category_of(self.body())),
            r.heard_since == self.at() - 120,
            r.not_driver@ == self.rider_pubkey(),
            r.limit == 5,
    {
        proof {
            use_type_invariant(self);
        }
        let radius_hundredths: i64 = if same(self.category.as_str(), "intercity") {
            100
        } else if same(self.category.as_str(), "tourist") {
            200
        } else {
            15
        };
        DriverSearch {
            category: self.category.clone(),
            vehicle_pref: self.vehicle_pref.clone(),
            radius_hundredths,
            heard_since: self.now - 120,
            not_driver: self.rider_pubkey.clone(),
            limit: 5,
        }
    }

    /// Enters the ride, which was offered to the given drivers. They have a minute to
    /// accept it.
    pub fn offered(self, drivers: &Vec<String>, ride_id: String) -> (r: RideEntered)
        requires
            drivers@.len() <= i32::MAX,
        ensures
            r.row@ == (RideRequestView {
                id: ride_id@,
                rider_pubkey: self.rider_pubkey(),
                rider_npub: self.rider_npub(),
                pickup_text: self.body().pickup_text.deep_view(),
                dest_text: self.body().dest_text.deep_view(),
                vehicle_pref: Some(vehicle_of(self.body())),
                ride_category: Some(category_of(self.body())),
                fare_sats: self.body().fare_sats,
                status: "searching"@,
                matched_driver: None,
                drivers_notified: json_of_string_list(drivers.deep_view()),
                accept_deadline: Some((self.at() + 60) as i64),
                round: 1,
                created_at: self.at(),
                updated_at: self.at(),
            }),
            listed_in(r.row.drivers_notified@) == drivers.deep_view(),
            r.offer.ride_id@ == ride_id@,
            r.offer.pickup_text.deep_view() == self.body().pickup_text.deep_view(),
            r.offer.dest_text.deep_view() == self.body().dest_text.deep_view(),
            r.offer.fare_sats == self.body().fare_sats,
            r.offer.category@ == category_of(self.body()),
            r.offer.rider_pubkey@ == self.rider_pubkey(),
            r.offer.push_title@ == "🚗 New ride request!"@,
            r.offer.push_body@ == dec(self.body().fare_sats as int) + " sats · "@ + or_text(
                self.body().pickup_text.deep_view(),
                "Nearby"@,
            ),
            r.answer.ride_id@ == ride_id@,
            r.answer.drivers_notified == drivers@.len(),
            r.answer.status@ == (if drivers@.len() > 0 {
                "searching"@
            } else {
                "no_drivers"@
            }),
    {
        proof {
            use_type_invariant(&self);
        }
        let count: i32 = drivers.len() as i32;
        let place: String = or_default(&self.body.pickup_text, "Nearby");
        let mut push_body: String = decimal(self.body.fare_sats);
        push_body.append(" sats · ");
        push_body.append(place.as_str());
        let offer: RideOffer = RideOffer {
            ride_id: ride_id.clone(),
            pickup_text: copy_option(&self.body.pickup_text),
            dest_text: copy_option(&self.body.dest_text),
            fare_sats: self.body.fare_sats,
            category: self.category.clone(),
            rider_pubkey: self.rider_pubkey.clone(),
            push_title: "🚗 New ride request!".to_owned(),
            push_body,
        };
        let answer: RideRequestResponse = RideRequestResponse {
            ride_id: ride_id.clone(),
            status: if count > 0 {
                "searching".to_owned()
            } else {
                "no_drivers".to_owned()
            },
            drivers_notified: count,
        };
        let row: RideRequest = RideRequest {
            id: ride_id,
            rider_pubkey: self.rider_pubkey,
            rider_npub: self.rider_npub,
            pickup_text: copy_option(&self.body.pickup_text),
            dest_text: copy_option(&self.body.dest_text),
            vehicle_pref: Some(self.vehicle_pref),
            ride_category: Some(self.category),
            fare_sats: self.body.fare_sats,
            status: "searching".to_owned(),
            matched_driver: None,
            drivers_notified: string_list_text(drivers),
            accept_deadline: Some(self.now + 60),
            round: 1,
            created_at: self.now,
            updated_at: self.now,
        };
        RideEntered { row, offer, answer }
    }
}

// ── Accepting a ride ────────────────────────────────────────────────────────

pub struct AcceptRideInput {
    pub ride_id: String,
}

/// Why a driver cannot accept rides at all, if that is so.
pub open spec fn eligibility_refusal(lud16: Option<Seq<char>>) -> Option<ErrorView> {
    if crate::routes::escrow::usable_address(lud16) {
        None
    } else {
        Some(
            ErrorView::BadRequest(
                "driver has no valid lightning address — set one in profile before accepting rides"@,
            ),
        )
    }
}

/// A driver who can accept rides.
pub struct EligibleDriver {
    pubkey: String,
}

/// Begins to accept a ride: the driver has an address to be paid at.
pub fn accept_ride(auth: &AuthUser, lud16: &Option<String>) -> (r: AppResult<EligibleDriver>)
    ensures
        refused_as(r, eligibility_refusal(lud16.deep_view())),
        r matches Ok(d) ==> d.pubkey() == auth.public_key@,
{
    let usable: bool = match lud16 {
        Some(s) => contains_char(s.as_str(), '@'),
        None => false,
    };
    if !usable {
        return Err(
            AppError::bad_request(
                "driver has no valid lightning address — set one in profile before accepting rides",
            ),
        );
    }
    Ok(EligibleDriver { pubkey: auth.public_key.clone() })
}

/// Why a ride is not a driver's to accept, if it is not.
pub open spec fn accept_refusal(driver: Seq<char>, rider: Option<Seq<char>>) -> Option<ErrorView> {
    match rider {
        None => Some(ErrorView::BadRequest("ride not found"@)),
        Some(rider) => if driver == rider {
            Some(ErrorView::BadRequest("cannot accept your own ride request"@))
        } else {
            None
        },
    }
}

impl EligibleDriver {
    pub closed spec fn pubkey(&self) -> Seq<char> {
        self.pubkey@
    }

    /// The write by which the driver takes a ride. Nobody takes a ride of their own.
    pub fn take(self, ride_id: &str, rider_pubkey: &Option<String>, now: i64) -> (r: AppResult<
        TakeRide,
    >)
        ensures
            refused_as(r, accept_refusal(self.pubkey(), rider_pubkey.deep_view())),
            r matches Ok(t) ==> {
                &&& t.driver() == self.pubkey()
                &&& t.ride_id() == ride_id@
                &&& t.at() == now
                &&& rider_pubkey.deep_view() != Some(t.driver())
            },
    {
        match rider_pubkey {
            None => Err(AppError::bad_request("ride not found")),
            Some(rider) => {
                if self.pubkey == *rider {
                    return Err(AppError::bad_request("cannot accept your own ride request"));
                }
                Ok(TakeRide { driver: self.pubkey, ride_id: ride_id.to_owned(), now })
            },
        }
    }
}

/// A driver who tries to take a ride.
pub struct TakeRide {
    driver: String,
    ride_id: String,
    now: i64,
}

impl TakeRide {
    pub closed spec fn driver(&self) -> Seq<char> {
        self.driver@
    }

    pub closed spec fn ride_id(&self) -> Seq<char> {
        self.ride_id@
    }

    pub closed spec fn at(&self) -> i64 {
        self.now
    }

    /// The write by which the driver takes the ride.
    pub fn change(&self) -> (r: RideChange)
        ensures
            r@ == (RideChangeView::Accept { driver: self.driver(), at: self.at() }),
    {
        RideChange::Accept { driver: self.driver.clone(), at: self.now }
    }

    /// Whether the driver got the ride: only where the write took hold.
    pub fn taken(self, rows: u64) -> (r: AppResult<TakenRide>)
        ensures
            refused_as(
                r,
                if rows == 0 {
                    Some(ErrorView::BadRequest("Ride already taken or expired"@))
                } else {
                    None
                },
            ),
            r matches Ok(t) ==> {
                &&& t.driver() == self.driver()
                &&& t.ride_id() == self.ride_id()
                &&& t.at() == self.at()
            },
    {
        if rows == 0 {
            return Err(AppError::bad_request("Ride already taken or expired"));
        }
        Ok(TakenRide { driver: self.driver, ride_id: self.ride_id, now: self.now })
    }
}

/// A ride that a driver got.
pub struct TakenRide {
    driver: String,
    ride_id: String,
    now: i64,
}

/// A driver's price per kilometre: that of the driver's listing where it sets one,
/// else the one that the driver's device reported.
pub open spec fn price_per_km(listing: Option<i64>, location: Option<i64>) -> i64 {
    if listing is Some && listing->0 > 0 {
        listing->0
    } else if location is Some {
        location->0
    } else {
        0
    }
}

/// Whether the driver's listing sets a price.
pub fn listing_sets_price(listing: Option<i64>) -> (r: bool)
    ensures
        r == (listing is Some && listing->0 > 0),
{
    match listing {
        Some(p) => p > 0,
        None => false,
    }
}

/// The driver's price per kilometre.
pub fn driver_price(listing: Option<i64>, location: Option<i64>) -> (r: i64)
    ensures
        r == price_per_km(listing, location),
{
    if listing_sets_price(listing) {
        match listing {
            Some(p) => p,
            None => 0,
        }
    } else {
        match location {
            Some(p) => p,
            None => 0,
        }
    }
}

/// The fare that a driver's price makes of a distance, where there is a price and a
/// distance. The product is handed in: it is rounded to whole sats by the caller,
/// since distances are not whole numbers.
pub fn computed_fare(price: i64, distance_is_positive: bool, product: i64) -> (r: Option<i64>)
    ensures
        r == (if price > 0 && distance_is_positive {
            Some(product)
        } else {
            None
        }),
{
    if price > 0 && distance_is_positive {
        Some(product)
    } else {
        None
    }
}

/// The write that sets a fare, where one is made.
pub open spec fn fare_write(change: Option<RideChange>, fare_sats: i64, at: i64) -> bool {
    change matches Some(c) && c@ == (RideChangeView::SetFare { fare_sats, at })
}

/// What the rider is told of an acceptance.
pub struct RideAccepted {
    pub to: String,
    pub ride_id: String,
    pub driver_pubkey: String,
    pub fare_sats: i64,
}

/// An accepted ride: its fare, what is written if that is not the fare asked for,
/// what the rider is told, and who is told that the ride is taken.
pub struct AcceptedRide {
    pub fare_sats: i64,
    pub change: Option<RideChange>,
    pub message: RideAccepted,
    pub others: Vec<String>,
}

/// The fare that a driver's price makes, or else the one asked for.
pub open spec fn fare_or(computed: Option<i64>, requested: i64) -> i64 {
    match computed {
        Some(fare) => fare,
        None => requested,
    }
}

impl TakenRide {
    pub closed spec fn driver(&self) -> Seq<char> {
        self.driver@
    }

    pub closed spec fn ride_id(&self) -> Seq<char> {
        self.ride_id@
    }

    pub closed spec fn at(&self) -> i64 {
        self.now
    }

    /// Ends the acceptance of a ride. Its fare is the driver's price for the distance
    /// where both are known (`computed`), else the fare asked for.
    pub fn accepted(
        self,
        rider_pubkey: String,
        requested: i64,
        computed: Option<i64>,
        drivers_notified: &str,
    ) -> (r: AcceptedRide)
        ensures
            r.fare_sats == fare_or(computed, requested),
            if r.fare_sats == requested {
                r.change is None
            } else {
                fare_write(r.change, r.fare_sats, self.at())
            },
            r.message.to == rider_pubkey,
            r.message.ride_id@ == self.ride_id(),
            r.message.driver_pubkey@ == self.driver(),
            r.message.fare_sats == r.fare_sats,
            r.others.deep_view() == all_but(listed_in(drivers_notified@), self.driver()),
    {
        let fare: i64 = match computed {
            Some(f) => f,
            None => requested,
        };
        let others: Vec<String> = others_to_tell(drivers_notified, self.driver.as_str());
        let change: Option<RideChange> = if fare != requested {
            Some(RideChange::SetFare { fare_sats: fare, at: self.now })
        } else {
            None
        };
        AcceptedRide {
            fare_sats: fare,
            change,
            message: RideAccepted {
                to: rider_pubkey,
                ride_id: self.ride_id,
                driver_pubkey: self.driver,
                fare_sats: fare,
            },
            others,
        }
    }
}

/// The drivers in a list but for one.
pub open spec fn all_but(list: Seq<Seq<char>>, one: Seq<char>) -> Seq<Seq<char>>
    decreases list.len(),
{
    if list.len() == 0 {
        list
    } else if list.last() == one {
        all_but(list.drop_last(), one)
    } else {
        all_but(list.drop_last(), one).push(list.last())
    }
}

/// The drivers who are told that the ride is taken: all it was offered to but the
/// one who took it.
pub fn drivers_but(offered_to: &Vec<String>, taken_by: &str) -> (r: Vec<String>)
    ensures
        r.deep_view() == all_but(offered_to.deep_view(), taken_by@),
{
    let mut r: Vec<String> = Vec::new();
    let mut i: usize = 0;
    let ghost all = offered_to.deep_view();
    assert(r.deep_view() =~= all_but(all.take(0), taken_by@));
    while i < offered_to.len()
        invariant
            i <= offered_to@.len(),
            all == offered_to.deep_view(),
            all.len() == offered_to@.len(),
            r.deep_view() == all_but(all.take(i as int), taken_by@),
        decreases offered_to@.len() - i,
    {
        let ghost r0 = r.deep_view();
        assert(all.take(i + 1).drop_last() =~= all.take(i as int));
        assert(all.take(i + 1).last() == offered_to@[i as int]@);
        if !same(offered_to[i].as_str(), taken_by) {
            r.push(offered_to[i].clone());
            assert(r.deep_view() =~= r0.push(offered_to@[i as int]@));
        }
        i = i + 1;
    }
    assert(all.take(i as int) =~= all);
    r
}

/// The drivers who are told that the ride is taken.
pub fn others_to_tell(drivers_notified: &str, taken_by: &str) -> (r: Vec<String>)
    ensures
        r.deep_view() == all_but(listed_in(drivers_notified@), taken_by@),
{
    let parsed: Option<Vec<String>> = parse_string_list(drivers_notified);
    let list: Vec<String> = list_or_empty(parsed);
    drivers_but(&list, taken_by)
}

// ── Accepting a booking ─────────────────────────────────────────────────────

/// A request to accept a booking. The fare that it names counts for nothing: a booking
/// is accepted at the driver's own price or at the ride's fare.
pub struct AcceptBookingInput {
    pub ride_id: String,
    pub eta_min: Option<i64>,
    pub fare_sats: Option<i64>,
}

/// The fare of a booking that a driver accepts: the driver's price for the distance
/// where that is known and positive, else the fare that the ride has.
pub open spec fn final_fare(stored: i64, computed: Option<i64>) -> i64 {
    if computed is Some && computed->0 > 0 {
        computed->0
    } else {
        stored
    }
}

/// The end of an acceptance: a fare to set, if any; then either the fare and what the
/// rider is told, or the write that gives the ride back and why.
pub struct BookingAccepted {
    pub fare_change: Option<RideChange>,
    pub reopen: Option<RideChange>,
    pub message: Option<RideAccepted>,
    pub answer: AppResult<i64>,
}

/// What an acceptance comes to at a given fare.
pub open spec fn booking_accepted(
    r: BookingAccepted,
    fare: i64,
    sets_fare: bool,
    min_fare: i64,
    at: i64,
) -> bool {
    &&& refused_as(
        r.answer,
        if fare < min_fare {
            Some(
                ErrorView::BadRequest(
                    "Computed fare "@ + dec(fare as int) + " sats is below the minimum of "@ + dec(
                        min_fare as int,
                    ) + " sats. Increase your price per km or estimated distance."@,
                ),
            )
        } else {
            None
        },
    )
    &&& r.answer matches Ok(f) ==> f == fare
    &&& if sets_fare {
        fare_write(r.fare_change, fare, at)
    } else {
        r.fare_change is None
    }
    &&& if fare < min_fare {
        r.reopen matches Some(c) && c@ == (RideChangeView::Reopen { at })
    } else {
        r.reopen is None
    }
}

/// Ends the acceptance of a booking whose ride has a given fare. A fare below the minimum is not accepted:
/// the ride goes back to the search for a driver.
pub fn accept_booking_http(
    ride: TakenRide,
    rider_pubkey: &str,
    stored: i64,
    computed: Option<i64>,
    min_fare: i64,
) -> (r: BookingAccepted)
    ensures
        booking_accepted(
            r,
            final_fare(stored, computed),
            final_fare(stored, computed) != stored,
            min_fare,
            ride.at(),
        ),
        r.answer is Ok ==> (match r.message {
            Some(m) => {
                &&& rider_pubkey@.len() > 0
                &&& m.to@ == rider_pubkey@
                &&& m.ride_id@ == ride.ride_id()
                &&& m.driver_pubkey@ == ride.driver()
                &&& m.fare_sats == final_fare(stored, computed)
            },
            None => rider_pubkey@.len() == 0,
        }),
        r.answer is Err ==> r.message is None,
{
    let fare: i64 = match computed {
        Some(f) => if f > 0 {
            f
        } else {
            stored
        },
        None => stored,
    };
    let fare_change: Option<RideChange> = if fare != stored {
        Some(RideChange::SetFare { fare_sats: fare, at: ride.now })
    } else {
        None
    };
    if fare < min_fare {
        let fare_text: String = decimal(fare);
        let least: String = decimal(min_fare);
        let mut m: String = "Computed fare ".to_owned();
        m.append(fare_text.as_str());
        m.append(" sats is below the minimum of ");
        m.append(least.as_str());
        m.append(" sats. Increase your price per km or estimated distance.");
        return BookingAccepted {
            fare_change,
            reopen: Some(RideChange::Reopen { at: ride.now }),
            message: None,
            answer: Err(AppError::BadRequest(m)),
        };
    }
    let message: Option<RideAccepted> = if rider_pubkey.is_empty() {
        None
    } else {
        Some(
            RideAccepted {
                to: rider_pubkey.to_owned(),
                ride_id: ride.ride_id,
                driver_pubkey: ride.driver,
                fare_sats: fare,
            },
        )
    };
    BookingAccepted { fare_change, reopen: None, message, answer: Ok(fare) }
}

// ── Bookings sent to a driver ───────────────────────────────────────────────

pub struct HttpBookingNotify {
    pub driver_pubkey: String,
    pub ride_id: String,
    pub pickup: Option<String>,
    pub destination: Option<String>,
    pub fare_sats: Option<i64>,
    pub passenger_pubkey: Option<String>,
    pub passenger_npub: Option<String>,
}

/// What the driver is told of a booking.
pub struct BookingRequestMessage {
    pub to: String,
    pub from: String,
    pub ride_id: String,
    pub pickup: String,
    pub destination: String,
    pub fare_sats: i64,
    pub passenger_pubkey: String,
    pub passenger_npub: String,
}

/// A ride request entered for a driver that the rider chose.
pub struct ChosenRide {
    pub id: String,
    pub rider_pubkey: String,
    pub rider_npub: String,
    pub pickup_text: String,
    pub dest_text: String,
    pub fare_sats: i64,
    pub status: String,
    pub matched_driver: String,
    pub created_at: i64,
    pub updated_at: i64,
}

/// A booking sent to a driver: the row to enter, what is written instead where the
/// ride is there already, and what the driver is told.
pub struct BookingSent {
    pub row: ChosenRide,
    pub again: RideChange,
    pub message: BookingRequestMessage,
}

/// Sends a booking to the driver that the rider chose.
pub fn http_send_booking(auth: &AuthUser, body: &HttpBookingNotify, now: i64) -> (r: BookingSent)
    ensures
        r.row.id == body.ride_id,
        r.row.rider_pubkey == auth.public_key,
        r.row.rider_npub@ == or_text(body.passenger_npub.deep_view(), ""@),
        r.row.pickup_text@ == or_text(body.pickup.deep_view(), ""@),
        r.row.dest_text@ == or_text(body.destination.deep_view(), ""@),
        r.row.fare_sats == or_number(body.fare_sats, 0),
        r.row.status@ == "pending"@,
        r.row.matched_driver == body.driver_pubkey,
        r.row.created_at == now,
        r.row.updated_at == now,
        r.again@ == (RideChangeView::Ask { driver: body.driver_pubkey@, at: now }),
        r.message.to == body.driver_pubkey,
        r.message.from == auth.public_key,
        r.message.ride_id == body.ride_id,
        r.message.pickup@ == or_text(body.pickup.deep_view(), ""@),
        r.message.destination@ == or_text(body.destination.deep_view(), ""@),
        r.message.fare_sats == or_number(body.fare_sats, 0),
        r.message.passenger_pubkey@ == or_text(body.passenger_pubkey.deep_view(), ""@),
        r.message.passenger_npub@ == or_text(body.passenger_npub.deep_view(), ""@),
{
    let fare: i64 = number_or_default(body.fare_sats, 0);
    BookingSent {
        row: ChosenRide {
            id: body.ride_id.clone(),
            rider_pubkey: auth.public_key.clone(),
            rider_npub: or_default(&body.passenger_npub, ""),
            pickup_text: or_default(&body.pickup, ""),
            dest_text: or_default(&body.destination, ""),
            fare_sats: fare,
            status: "pending".to_owned(),
            matched_driver: body.driver_pubkey.clone(),
            created_at: now,
            updated_at: now,
        },
        again: RideChange::Ask { driver: body.driver_pubkey.clone(), at: now },
        message: BookingRequestMessage {
            to: body.driver_pubkey.clone(),
            from: auth.public_key.clone(),
            ride_id: body.ride_id.clone(),
            pickup: or_default(&body.pickup, ""),
            destination: or_default(&body.destination, ""),
            fare_sats: fare,
            passenger_pubkey: or_default(&body.passenger_pubkey, ""),
            passenger_npub: or_default(&body.passenger_npub, ""),
        },
    }
}

/// A booking that a driver is shown: pending for this driver, and entered in the
/// last 5 minutes.
pub open spec fn shown_to(row: RideRequestView, driver: Seq<char>, now: i64) -> bool {
    row.status == "pending"@ && row.matched_driver == Some(driver) && row.created_at > now - 300
}

/// Whether a driver who asks for pending bookings is shown this one.
pub fn poll_bookings(auth: &AuthUser, row: &RideRequest, now: i64) -> (r: bool)
    requires
        is_timestamp(now),
    ensures
        r == shown_to(row@, auth.public_key@, now),
{
    let for_driver: bool = match &row.matched_driver {
        Some(driver) => *driver == auth.public_key,
        None => false,
    };
    same(row.status.as_str(), "pending") && for_driver && row.created_at > now - 300
}

/// The status of a ride as its rider is told.
pub struct RideStatus {
    pub ride_id: String,
    pub status: String,
    pub fare_sats: Option<i64>,
}

/// The status of a ride: only the rider's own rides are found.
pub fn poll_ride_status(auth: &AuthUser, ride_id: &str, row: &Option<RideRequest>) -> (r: RideStatus)
    ensures
        r.ride_id@ == ride_id@,
        match *row {
            Some(ride) => if ride.rider_pubkey@ == auth.public_key@ && ride.id@ == ride_id@ {
                r.status@ == ride.status@ && r.fare_sats == Some(ride.fare_sats)
            } else {
                r.status@ == "not_found"@ && r.fare_sats is None
            },
            None => r.status@ == "not_found"@ && r.fare_sats is None,
        },
{
    match row {
        Some(ride) => {
            if ride.rider_pubkey == auth.public_key && same(ride.id.as_str(), ride_id) {
                return RideStatus {
                    ride_id: ride_id.to_owned(),
                    status: ride.status.clone(),
                    fare_sats: Some(ride.fare_sats),
                };
            }
        },
        None => {},
    }
    RideStatus { ride_id: ride_id.to_owned(), status: "not_found".to_owned(), fare_sats: None }
}

} // verus!

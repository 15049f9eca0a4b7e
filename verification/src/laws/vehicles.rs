//! What drivers' listings come to: their price, their number, their distance and their service.

use vstd::prelude::*;

use crate::auth::AuthUser;
use crate::error::AppResult;
use crate::error::ErrorView;
use crate::routes::driver_listings::Deletion;
use crate::routes::driver_listings::Distance;
use crate::routes::driver_listings::DriverListingChange;
use crate::routes::driver_listings::DriverListingRow;
use crate::routes::driver_listings::KeptListing;
use crate::routes::driver_listings::ServiceHint;
use crate::routes::driver_listings::UpsertDriverListing;
use crate::routes::driver_listings::add_km;
use crate::routes::driver_listings::can_tell_service;
use crate::routes::driver_listings::delete_one;
use crate::routes::driver_listings::replace;
use crate::routes::driver_listings::service_hint;
use crate::routes::driver_listings::upsert;
use crate::text::dec;

verus! {

/// A driver's listing is entered at a price that is not below the least one, or without a
/// price. A listing that would be the driver's sixth is refused, and so is one that would give
/// its first owner a sixth back; a change to a listing that the driver has is never refused
/// for the number.
pub proof fn law_listings_keep_to_the_price_and_the_number(
    auth: AuthUser,
    body: UpsertDriverListing,
    min_price: i64,
    known: Option<KeptListing>,
    active: i64,
    of_owner: i64,
    now: i64,
    r: AppResult<DriverListingRow>,
)
    requires
        call_ensures(upsert, (&auth, &body, min_price, &known, active, of_owner, now), r),
    ensures
        ({
            let cheap = body.price_per_km is Some && body.price_per_km->0 < min_price;
            let theirs = known is Some && known->0.listing.driver_pubkey@ == auth.public_key@
                && known->0.deleted_at is None;
            let revived = known is Some && known->0.deleted_at is Some;
            r is Ok <==> !cheap && (theirs || active < 5) && (revived ==> of_owner < 5)
        }),
        body.price_per_km is Some && body.price_per_km->0 < min_price ==> r->Err_0@
            == ErrorView::BadRequest(
            "Minimum price per km is "@ + dec(min_price as int) + " sats (you set "@ + dec(
                body.price_per_km->0 as int,
            ) + ")."@,
        ),
        !(body.price_per_km is Some && body.price_per_km->0 < min_price) && r is Err ==> r->Err_0@
            == ErrorView::BadRequest(
            "max 5 active listings per driver — delete one before creating a new one"@,
        ),
        r is Ok ==> {
            let row = r->Ok_0;
            &&& row.id@ == body.id@
            &&& row.driver_pubkey@ == auth.public_key@
            &&& row.driver_npub is Some && row.driver_npub->0@ == auth.npub@
            &&& row.price_per_km is Some
            &&& body.price_per_km is Some ==> row.price_per_km->0 == body.price_per_km->0
            &&& body.price_per_km is None ==> row.price_per_km->0 == 500
            &&& row.seats is Some
            &&& body.seats is Some ==> row.seats->0 == body.seats->0
            &&& body.seats is None ==> row.seats->0 == 4
            &&& body.service_interval_km is Some ==> row.service_interval_km
                == body.service_interval_km->0
            &&& body.service_interval_km is None ==> row.service_interval_km == 5_000
            &&& row.listing_name == body.listing_name && row.vehicle == body.vehicle
            &&& row.vehicle_type == body.vehicle_type
            &&& row.ride_categories == body.ride_categories
            &&& row.photo_urls == body.photo_urls && row.description == body.description
            &&& row.location_country == body.location_country
            &&& row.location_city == body.location_city
            &&& row.lud16 == body.lud16 && row.nostr_event_id == body.nostr_event_id
            &&& row.km_driven_total == 0
            &&& row.created_at == now && row.updated_at == now
        },
{
}

/// A listing that is entered again is changed as asked, and keeps its driver, its distance and
/// the time at which it was first entered.
pub proof fn law_changed_listings_keep_their_distance(
    known: DriverListingRow,
    asked: DriverListingRow,
    r: DriverListingRow,
)
    requires
        call_ensures(replace, (&known, asked), r),
    ensures
        r.driver_pubkey == known.driver_pubkey && r.driver_npub == known.driver_npub,
        r.km_driven_total == known.km_driven_total,
        r.created_at == known.created_at,
        r.id == asked.id,
        r.price_per_km == asked.price_per_km && r.seats == asked.seats,
        r.listing_name == asked.listing_name && r.vehicle == asked.vehicle,
        r.vehicle_type == asked.vehicle_type && r.ride_categories == asked.ride_categories,
        r.photo_urls == asked.photo_urls && r.description == asked.description,
        r.location_country == asked.location_country && r.location_city == asked.location_city,
        r.lud16 == asked.lud16 && r.nostr_event_id == asked.nostr_event_id,
        r.service_interval_km == asked.service_interval_km,
        r.updated_at == asked.updated_at,
{
}

/// A driver deletes a listing of the driver's own that is still there, and no other. It is
/// deleted since now and is otherwise as it was; the answer tells when.
pub proof fn law_drivers_delete_their_listing(
    auth: AuthUser,
    now: i64,
    deletion: Deletion,
    change: DriverListingChange,
    row: KeptListing,
    after: KeptListing,
    rows: u64,
    answer: AppResult<i64>,
)
    requires
        call_ensures(delete_one, (&auth, now), deletion),
        call_ensures(Deletion::change, (&deletion,), change),
        exists|m: &mut KeptListing|
            *m == row && *final(m) == after && #[trigger] call_ensures(
                DriverListingChange::apply,
                (&change, m),
                rows,
            ),
        call_ensures(Deletion::written, (deletion, rows), answer),
    ensures
        ({
            let theirs = row.listing.driver_pubkey@ == auth.public_key@ && row.deleted_at is None;
            &&& answer is Ok <==> theirs
            &&& answer is Ok ==> answer->Ok_0 == now
            &&& answer is Err ==> answer->Err_0@ == ErrorView::BadRequest(
                "listing not found or not owned by you"@,
            )
            &&& theirs ==> after.deleted_at == Some(now) && after.listing == (DriverListingRow {
                updated_at: now,
                ..row.listing
            })
            &&& !theirs ==> after == row
        }),
{
}

/// The distance that a driver reports, within its bounds, is added to a listing of the
/// driver's own that is still there, and to no other; nothing else about it changes.
pub proof fn law_distances_add_up(
    auth: AuthUser,
    in_range: bool,
    km: i64,
    now: i64,
    distance: AppResult<Distance>,
    change: DriverListingChange,
    row: KeptListing,
    after: KeptListing,
    rows: u64,
    answer: AppResult<i64>,
)
    requires
        call_ensures(add_km, (&auth, in_range, km, now), distance),
        distance is Ok ==> {
            &&& call_ensures(Distance::change, (&distance->Ok_0,), change)
            &&& exists|m: &mut KeptListing|
                *m == row && *final(m) == after && #[trigger] call_ensures(
                    DriverListingChange::apply,
                    (&change, m),
                    rows,
                )
            &&& call_ensures(Distance::written, (distance->Ok_0, rows), answer)
        },
        i64::MIN <= row.listing.km_driven_total + km <= i64::MAX,
    ensures
        distance is Ok <==> in_range,
        distance is Err ==> distance->Err_0@ == ErrorView::BadRequest(
            "km_driven must be between 0 and 5000 (sanity bound)"@,
        ),
        distance is Ok ==> {
            let theirs = row.listing.driver_pubkey@ == auth.public_key@ && row.deleted_at is None;
            &&& answer is Ok <==> theirs
            &&& answer is Ok ==> answer->Ok_0 == km
            &&& answer is Err ==> answer->Err_0@ == ErrorView::BadRequest(
                "listing not found, not owned by you, or already deleted"@,
            )
            &&& theirs ==> {
                &&& after.listing.km_driven_total - row.listing.km_driven_total == km
                &&& after.listing.updated_at == now
                &&& after.listing.price_per_km == row.listing.price_per_km
                &&& after.listing.driver_pubkey == row.listing.driver_pubkey
                &&& after.listing.service_interval_km == row.listing.service_interval_km
                &&& after.listing.id == row.listing.id
                &&& after.deleted_at is None
            }
            &&& !theirs ==> after == row
        },
{
}

/// The next service is due at the first multiple of the interval that lies ahead: no further
/// off than one interval. Driving on does not bring it closer than that multiple.
pub proof fn law_service_is_due_at_the_next_multiple(
    km: i64,
    interval: i64,
    multiple: int,
    r: ServiceHint,
)
    requires
        call_ensures(service_hint, (km, interval), r),
        interval > 0,
        km >= 0,
        multiple >= 0,
        multiple * interval <= km < (multiple + 1) * interval,
    ensures
        r.service_due_km == (multiple + 1) * interval,
        r.km_until_service == r.service_due_km - km,
        0 < r.km_until_service <= interval,
{
    let q = km as int / (interval as int);
    crate::money::lemma_quotient(km as int, interval as int);
    let i = interval as int;
    assert(q == multiple) by (nonlinear_arith)
        requires
            q * i <= km < (q + 1) * i,
            multiple * i <= km < (multiple + 1) * i,
            i > 0,
    ;
    assert((multiple + 1) * i == multiple * i + i) by (nonlinear_arith);
}

/// The service of every vehicle of up to 4,000,000,000,000,000,000 km can be told.
pub proof fn law_service_can_be_told(km: i64, interval: i64, r: bool, hint: ServiceHint)
    requires
        call_ensures(can_tell_service, (km, interval), r),
        call_ensures(service_hint, (km, interval), hint),
        0 <= km <= 4_000_000_000_000_000_000,
        interval <= 4_000_000_000_000_000_000,
    ensures
        r,
        interval <= 0 ==> hint.service_due_km == 0 && hint.km_until_service == 0,
{
    if interval > 0 {
        crate::routes::driver_listings::law_service_lies_ahead(km as int, interval as int);
    }
}

} // verus!

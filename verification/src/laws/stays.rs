//! What places to stay come to: which are entered, who changes them, and who sees them.

use vstd::prelude::*;

use crate::auth::AuthUser;
use crate::error::AppResult;
use crate::error::ErrorView;
use crate::laws::texts::is_graphic;
use crate::routes::stays_listings::AdminListQuery;
use crate::routes::stays_listings::CreateStayListing;
use crate::routes::stays_listings::KeptStay;
use crate::routes::stays_listings::SearchQuery;
use crate::routes::stays_listings::StayDeletion;
use crate::routes::stays_listings::StayListingRow;
use crate::routes::stays_listings::StaySearch;
use crate::routes::stays_listings::StayVerification;
use crate::routes::stays_listings::UpdateStayListing;
use crate::routes::stays_listings::admin_verify;
use crate::routes::stays_listings::create;
use crate::routes::stays_listings::delete_one;
use crate::routes::stays_listings::get_one;
use crate::routes::stays_listings::list_admin;
use crate::routes::stays_listings::search;
use crate::routes::stays_listings::shown_to_guests;
use crate::routes::stays_listings::update;
use crate::routes::stays_listings::validate_listing_input;
use crate::text::trim;
use crate::text::trim_end;
use crate::text::trim_start;

verus! {

/// A place is taken just where it has an address to be paid at, a title of 5 characters or
/// more, a description of 20 or more, a city, a place on the map, a price of 1,000 sats or
/// more, room for a guest, and a type and a class that are known. Blanks round a text do not
/// count.
pub proof fn law_places_that_are_taken(
    b: CreateStayListing,
    gps_valid: bool,
    lud16: &str,
    title: &str,
    description: &str,
    city: &str,
    lud16_trimmed: String,
    title_trimmed: String,
    description_trimmed: String,
    city_trimmed: String,
    r: AppResult<()>,
)
    requires
        call_ensures(validate_listing_input, (&b, gps_valid), r),
        lud16@ == b.host_lud16@ && call_ensures(trim, (lud16,), lud16_trimmed),
        title@ == b.title@ && call_ensures(trim, (title,), title_trimmed),
        description@ == b.description@ && call_ensures(trim, (description,), description_trimmed),
        city@ == b.city@ && call_ensures(trim, (city,), city_trimmed),
    ensures
        r is Ok <==> {
            &&& lud16_trimmed@.len() > 0 && b.host_lud16@.contains('@')
            &&& title_trimmed@.len() >= 5
            &&& description_trimmed@.len() >= 20
            &&& city_trimmed@.len() > 0
            &&& gps_valid
            &&& b.price_per_night_sats >= 1_000
            &&& b.max_guests >= 1
            &&& b.listing_type@ == "entire_place"@ || b.listing_type@ == "private_room"@
                || b.listing_type@ == "shared_room"@ || b.listing_type@ == "hotel_room"@
                || b.listing_type@ == "resort_unit"@
            &&& b.property_class@ == "apartment"@ || b.property_class@ == "house"@
                || b.property_class@ == "hotel"@ || b.property_class@ == "resort"@
                || b.property_class@ == "guesthouse"@ || b.property_class@ == "lodge"@
                || b.property_class@ == "villa"@ || b.property_class@ == "cottage"@
        },
        ({
            let paid = lud16_trimmed@.len() > 0 && b.host_lud16@.contains('@');
            let titled = paid && title_trimmed@.len() >= 5;
            let described = titled && description_trimmed@.len() >= 20;
            let in_city = described && city_trimmed@.len() > 0;
            let priced = in_city && gps_valid && b.price_per_night_sats >= 1_000;
            &&& !paid ==> r->Err_0@ == ErrorView::BadRequest(
                "Lightning address (lud16) is required and must contain '@'"@,
            )
            &&& paid && !titled ==> r->Err_0@ == ErrorView::BadRequest(
                "Title must be at least 5 characters"@,
            )
            &&& titled && !described ==> r->Err_0@ == ErrorView::BadRequest(
                "Description must be at least 20 characters"@,
            )
            &&& described && !in_city ==> r->Err_0@ == ErrorView::BadRequest("City is required"@)
            &&& in_city && !gps_valid ==> r->Err_0@ == ErrorView::BadRequest(
                "Invalid GPS coordinates"@,
            )
            &&& in_city && gps_valid && !priced ==> r->Err_0@ == ErrorView::BadRequest(
                "Minimum price per night is 1000 sats"@,
            )
            &&& priced && b.max_guests < 1 ==> r->Err_0@ == ErrorView::BadRequest(
                "Max guests must be at least 1"@,
            )
        }),
        r is Err ==> r->Err_0@ is BadRequest,
{
}

/// A place that is taken is entered as the host's own, at the price asked for, and is not shown
/// before it was verified. Texts that start and end with printable characters are entered as
/// they are.
pub proof fn law_places_are_entered_unverified(
    auth: AuthUser,
    b: CreateStayListing,
    gps_valid: bool,
    id: String,
    now: i64,
    valid: AppResult<()>,
    r: AppResult<StayListingRow>,
    shown: bool,
)
    requires
        call_ensures(validate_listing_input, (&b, gps_valid), valid),
        call_ensures(create, (&auth, &b, gps_valid, id, now), r),
        r is Ok ==> call_ensures(shown_to_guests, (&r->Ok_0,), shown),
    ensures
        r is Ok <==> valid is Ok,
        r is Err ==> r->Err_0@ == valid->Err_0@,
        r is Ok ==> {
            let row = r->Ok_0;
            &&& !shown
            &&& row.id == id
            &&& row.host_pubkey@ == auth.public_key@
            &&& row.price_per_night_sats == b.price_per_night_sats
            &&& row.listing_type@ == b.listing_type@ && row.property_class@ == b.property_class@
            &&& row.max_guests == b.max_guests && row.bedrooms == b.bedrooms && row.beds == b.beds
            &&& b.cleaning_fee_sats is Some ==> row.cleaning_fee_sats == b.cleaning_fee_sats->0
            &&& b.cleaning_fee_sats is None ==> row.cleaning_fee_sats == 0
            &&& b.min_nights is Some ==> row.min_nights == b.min_nights->0
            &&& b.min_nights is None ==> row.min_nights == 1
            &&& b.max_nights is Some ==> row.max_nights == b.max_nights->0
            &&& b.max_nights is None ==> row.max_nights == 30
            &&& b.checkin_time is Some ==> row.checkin_time@ == b.checkin_time->0@
            &&& b.checkin_time is None ==> row.checkin_time@ == "15:00"@
            &&& b.checkout_time is Some ==> row.checkout_time@ == b.checkout_time->0@
            &&& b.checkout_time is None ==> row.checkout_time@ == "11:00"@
            &&& b.country is Some ==> row.country@ == b.country->0@
            &&& b.country is None ==> row.country@ == "MW"@
            &&& b.amenities is Some ==> row.amenities@ == b.amenities->0@
            &&& b.photo_urls is Some ==> row.photo_urls@ == b.photo_urls->0@
            &&& row.cancellation_policy@ == "strict_7day_50"@
            &&& row.verified == 0 && row.active == 1
            &&& row.created_at == now && row.updated_at == now
            &&& b.title@.len() > 0 && is_graphic(b.title@[0]) && is_graphic(b.title@.last())
                ==> row.title@ == b.title@
            &&& b.host_lud16@.len() > 0 && is_graphic(b.host_lud16@[0]) && is_graphic(
                b.host_lud16@.last(),
            ) ==> row.host_lud16@ == b.host_lud16@
            &&& b.city@.len() > 0 && is_graphic(b.city@[0]) && is_graphic(b.city@.last())
                ==> row.city@ == b.city@
            &&& b.description@.len() > 0 && is_graphic(b.description@[0]) && is_graphic(
                b.description@.last(),
            ) ==> row.description@ == b.description@
        },
{
    lemma_graphic_stays(b.title@);
    lemma_graphic_stays(b.host_lud16@);
    lemma_graphic_stays(b.city@);
    lemma_graphic_stays(b.description@);
}

proof fn lemma_graphic_stays(s: Seq<char>)
    ensures
        s.len() > 0 && is_graphic(s[0]) && is_graphic(s.last()) ==> crate::text::trimmed(s) == s,
{
    if s.len() > 0 && is_graphic(s[0]) && is_graphic(s.last()) {
        assert(trim_start(s) == s);
        assert(trim_end(s) == s);
    }
}

/// The host changes a place, and nobody else does: to a price of 1,000 sats or more, and to a
/// place that is on the map. What is asked for is changed, and the rest stays.
pub proof fn law_hosts_change_their_place(
    auth: AuthUser,
    host: Option<String>,
    body: UpdateStayListing,
    gps_valid: bool,
    r: AppResult<UpdateStayListing>,
    row: StayListingRow,
    now: i64,
    after: StayListingRow,
)
    requires
        call_ensures(update, (&auth, &host, &body, gps_valid), r),
        r is Ok ==> call_ensures(UpdateStayListing::apply, (&r->Ok_0, row, now), after),
    ensures
        r is Ok <==> host is Some && host->0@ == auth.public_key@ && (body.price_per_night_sats is Some
            ==> body.price_per_night_sats->0 >= 1_000) && gps_valid,
        host is None ==> r->Err_0@ == ErrorView::BadRequest("Listing not found"@),
        host is Some && host->0@ != auth.public_key@ ==> r->Err_0@ == ErrorView::Unauthorized(
            "Only the host can update this listing"@,
        ),
        host is Some && host->0@ == auth.public_key@ && body.price_per_night_sats is Some
            && body.price_per_night_sats->0 < 1_000 ==> r->Err_0@ == ErrorView::BadRequest(
            "Minimum price per night is 1000 sats"@,
        ),
        r is Ok ==> {
            &&& after.id == row.id && after.host_pubkey == row.host_pubkey
            &&& after.listing_type == row.listing_type && after.property_class == row.property_class
            &&& after.country == row.country && after.city == row.city
            &&& after.cancellation_policy == row.cancellation_policy
            &&& after.verified == row.verified && after.created_at == row.created_at
            &&& after.updated_at == now
            &&& body.price_per_night_sats is Some ==> after.price_per_night_sats
                == body.price_per_night_sats->0
            &&& body.price_per_night_sats is None ==> after.price_per_night_sats
                == row.price_per_night_sats
            &&& body.cleaning_fee_sats is Some ==> after.cleaning_fee_sats
                == body.cleaning_fee_sats->0
            &&& body.cleaning_fee_sats is None ==> after.cleaning_fee_sats == row.cleaning_fee_sats
            &&& body.max_guests is Some ==> after.max_guests == body.max_guests->0
            &&& body.max_guests is None ==> after.max_guests == row.max_guests
            &&& body.bedrooms is Some ==> after.bedrooms == body.bedrooms->0
            &&& body.bedrooms is None ==> after.bedrooms == row.bedrooms
            &&& body.beds is Some ==> after.beds == body.beds->0
            &&& body.beds is None ==> after.beds == row.beds
            &&& body.min_nights is Some ==> after.min_nights == body.min_nights->0
            &&& body.min_nights is None ==> after.min_nights == row.min_nights
            &&& body.max_nights is Some ==> after.max_nights == body.max_nights->0
            &&& body.max_nights is None ==> after.max_nights == row.max_nights
            &&& body.checkin_time is Some ==> after.checkin_time == body.checkin_time->0
            &&& body.checkin_time is None ==> after.checkin_time == row.checkin_time
            &&& body.checkout_time is Some ==> after.checkout_time == body.checkout_time->0
            &&& body.checkout_time is None ==> after.checkout_time == row.checkout_time
            &&& body.amenities is Some ==> after.amenities == body.amenities->0
            &&& body.amenities is None ==> after.amenities == row.amenities
            &&& body.photo_urls is Some ==> after.photo_urls == body.photo_urls->0
            &&& body.photo_urls is None ==> after.photo_urls == row.photo_urls
            &&& body.active is Some ==> after.active == body.active->0
            &&& body.active is None ==> after.active == row.active
            &&& body.title is None ==> after.title == row.title
            &&& body.description is None ==> after.description == row.description
            &&& body.host_lud16 is None ==> after.host_lud16 == row.host_lud16
            &&& body.house_rules is None ==> after.house_rules == row.house_rules
            &&& body.neighborhood is None ==> after.neighborhood == row.neighborhood
            &&& body.title is Some && body.title->0@.len() > 0 && is_graphic(body.title->0@[0])
                && is_graphic(body.title->0@.last()) ==> after.title@ == body.title->0@
            &&& body.host_lud16 is Some && body.host_lud16->0@.len() > 0 && is_graphic(
                body.host_lud16->0@[0],
            ) && is_graphic(body.host_lud16->0@.last()) ==> after.host_lud16@
                == body.host_lud16->0@
            &&& body.description is Some && body.description->0@.len() > 0 && is_graphic(
                body.description->0@[0],
            ) && is_graphic(body.description->0@.last()) ==> after.description@
                == body.description->0@
        },
{
    if body.title is Some {
        lemma_graphic_stays(body.title->0@);
    }
    if body.host_lud16 is Some {
        lemma_graphic_stays(body.host_lud16->0@);
    }
    if body.description is Some {
        lemma_graphic_stays(body.description->0@);
    }
}

/// The host deletes a place, and nobody else does. A deleted place is not found, and stays so;
/// any other is found as it is.
pub proof fn law_hosts_delete_their_place(
    auth: AuthUser,
    host: Option<String>,
    now: i64,
    r: AppResult<StayDeletion>,
    kept: KeptStay,
    gone: KeptStay,
    got: AppResult<StayListingRow>,
    after: AppResult<StayListingRow>,
    none: AppResult<StayListingRow>,
)
    requires
        call_ensures(delete_one, (&auth, &host, now), r),
        r is Ok ==> exists|m: &mut KeptStay|
            *m == kept && *final(m) == gone && #[trigger] call_ensures(
                StayDeletion::apply,
                (&r->Ok_0, m),
                (),
            ),
        call_ensures(get_one, (Some(kept),), got),
        call_ensures(get_one, (Some(gone),), after),
        call_ensures(get_one, (None::<KeptStay>,), none),
    ensures
        r is Ok <==> host is Some && host->0@ == auth.public_key@,
        host is None ==> r->Err_0@ == ErrorView::BadRequest("Listing not found"@),
        host is Some && r is Err ==> r->Err_0@ == ErrorView::Unauthorized(
            "Only the host can delete this listing"@,
        ),
        got is Ok <==> kept.deleted_at is None,
        got is Ok ==> got->Ok_0 == kept.place,
        got is Err ==> got->Err_0@ is NotFound,
        none is Err && none->Err_0@ is NotFound,
        r is Ok ==> {
            &&& after is Err
            &&& gone.deleted_at == Some(now)
            &&& gone.place == (StayListingRow { updated_at: now, ..kept.place })
        },
{
}

/// A place is shown to guests just where it is verified and active. Verifying a place that is
/// not deleted makes it so, where it is active, and changes nothing else about it; a deleted
/// one stays as it is, and is told to be missing.
pub proof fn law_verified_places_are_shown_to_guests(
    row: StayListingRow,
    shown: bool,
    now: i64,
    verification: StayVerification,
    kept: KeptStay,
    after: KeptStay,
    rows: u64,
    r: AppResult<()>,
    shown_after: bool,
)
    requires
        call_ensures(shown_to_guests, (&row,), shown),
        call_ensures(admin_verify, (now,), verification),
        exists|m: &mut KeptStay|
            *m == kept && *final(m) == after && #[trigger] call_ensures(
                StayVerification::apply,
                (&verification, m),
                rows,
            ),
        call_ensures(StayVerification::written, (verification, rows), r),
        call_ensures(shown_to_guests, (&after.place,), shown_after),
    ensures
        shown <==> row.verified == 1 && row.active == 1,
        r is Ok <==> kept.deleted_at is None,
        r is Err ==> r->Err_0@ is BadRequest,
        kept.deleted_at is None ==> {
            &&& after.deleted_at is None
            &&& after.place == (StayListingRow { verified: 1, updated_at: now, ..kept.place })
            &&& shown_after <==> kept.place.active == 1
        },
        kept.deleted_at is Some ==> after == kept,
{
}

/// A search shows from 1 to 100 places, 20 where nothing is said, from the place asked for on,
/// and in any city whose name holds what was asked for. The list for administrators has from 1
/// to 500 places, 100 where nothing is said.
pub proof fn law_searches_are_bounded(q: SearchQuery, r: StaySearch, a: AdminListQuery, n: i64)
    requires
        call_ensures(search, (&q,), r),
        call_ensures(list_admin, (&a,), n),
    ensures
        1 <= r.limit <= 100,
        q.limit is Some && 1 <= q.limit->0 <= 100 ==> r.limit == q.limit->0,
        q.limit is Some && q.limit->0 > 100 ==> r.limit == 100,
        q.limit is Some && q.limit->0 < 1 ==> r.limit == 1,
        q.limit is None ==> r.limit == 20,
        r.offset >= 0,
        q.offset is Some && q.offset->0 >= 0 ==> r.offset == q.offset->0,
        q.offset is None || q.offset->0 < 0 ==> r.offset == 0,
        q.city is Some <==> r.city_pattern is Some,
        q.city is Some ==> r.city_pattern->0@ == seq!['%'] + q.city->0@ + seq!['%'],
        1 <= n <= 500,
        a.limit is Some && 1 <= a.limit->0 <= 500 ==> n == a.limit->0,
        a.limit is Some && a.limit->0 > 500 ==> n == 500,
        a.limit is Some && a.limit->0 < 1 ==> n == 1,
        a.limit is None ==> n == 100,
{
    reveal_strlit("%");
    assert("%"@ =~= seq!['%']);
}

} // verus!

//! Listings of places to stay. Hosts enter, change and delete them; guests see those
//! that are verified and active.

use vstd::prelude::*;
use vstd::string::*;

use crate::auth::AuthUser;
use crate::error::AppError;
use crate::error::AppResult;
use crate::error::ErrorView;
use crate::error::refused_as;
use crate::text::chars_of;
use crate::text::contains_char;
use crate::text::copy_option;
use crate::text::number_or_default;
use crate::text::or_default;
use crate::text::or_number;
use crate::text::or_text;
use crate::text::same;
use crate::text::trim;
use crate::text::trimmed;

verus! {

/// A place to stay as it is entered, without its coordinates and bathrooms.
pub struct CreateStayListing {
    pub host_lud16: String,
    pub listing_type: String,
    pub property_class: String,
    pub title: String,
    pub description: String,
    pub house_rules: Option<String>,
    pub country: Option<String>,
    pub city: String,
    pub neighborhood: Option<String>,
    pub max_guests: i64,
    pub bedrooms: i64,
    pub beds: i64,
    pub price_per_night_sats: i64,
    pub cleaning_fee_sats: Option<i64>,
    pub min_nights: Option<i64>,
    pub max_nights: Option<i64>,
    pub checkin_time: Option<String>,
    pub checkout_time: Option<String>,
    pub amenities: Option<String>,
    pub photo_urls: Option<String>,
}

/// What is changed of a place to stay, without its coordinates and bathrooms.
pub struct UpdateStayListing {
    pub host_lud16: Option<String>,
    pub title: Option<String>,
    pub description: Option<String>,
    pub house_rules: Option<String>,
    pub neighborhood: Option<String>,
    pub max_guests: Option<i64>,
    pub bedrooms: Option<i64>,
    pub beds: Option<i64>,
    pub price_per_night_sats: Option<i64>,
    pub cleaning_fee_sats: Option<i64>,
    pub min_nights: Option<i64>,
    pub max_nights: Option<i64>,
    pub checkin_time: Option<String>,
    pub checkout_time: Option<String>,
    pub amenities: Option<String>,
    pub photo_urls: Option<String>,
    pub active: Option<i64>,
}

/// A place to stay, without its coordinates and bathrooms.
pub struct StayListingRow {
    pub id: String,
    pub host_pubkey: String,
    pub host_lud16: String,
    pub listing_type: String,
    pub property_class: String,
    pub title: String,
    pub description: String,
    pub house_rules: Option<String>,
    pub country: String,
    pub city: String,
    pub neighborhood: Option<String>,
    pub max_guests: i64,
    pub bedrooms: i64,
    pub beds: i64,
    pub price_per_night_sats: i64,
    pub cleaning_fee_sats: i64,
    pub min_nights: i64,
    pub max_nights: i64,
    pub checkin_time: String,
    pub checkout_time: String,
    pub amenities: String,
    pub photo_urls: String,
    pub cancellation_policy: String,
    pub verified: i64,
    pub active: i64,
    pub created_at: i64,
    pub updated_at: i64,
}

pub struct AdminListQuery {
    pub verified: Option<i64>,
    pub limit: Option<i64>,
}

pub struct SearchQuery {
    pub city: Option<String>,
    pub limit: Option<i64>,
    pub offset: Option<i64>,
}

// ── Checks ──────────────────────────────────────────────────────────────────

pub open spec fn is_listing_type(t: Seq<char>) -> bool {
    t == "entire_place"@ || t == "private_room"@ || t == "shared_room"@ || t == "hotel_room"@ || t
        == "resort_unit"@
}

pub open spec fn is_property_class(c: Seq<char>) -> bool {
    c == "apartment"@ || c == "house"@ || c == "hotel"@ || c == "resort"@ || c == "guesthouse"@ || c
        == "lodge"@ || c == "villa"@ || c == "cottage"@
}

/// Why a place to stay is not entered, if it is not. Lengths are in characters,
/// without surrounding white space.
pub open spec fn input_refusal(b: CreateStayListing, gps_valid: bool) -> Option<ErrorView> {
    if trimmed(b.host_lud16@).len() == 0 || !b.host_lud16@.contains('@') {
        Some(
            ErrorView::BadRequest(
                "Lightning address (lud16) is required and must contain '@'"@,
            ),
        )
    } else if trimmed(b.title@).len() < 5 {
        Some(ErrorView::BadRequest("Title must be at least 5 characters"@))
    } else if trimmed(b.description@).len() < 20 {
        Some(ErrorView::BadRequest("Description must be at least 20 characters"@))
    } else if trimmed(b.city@).len() == 0 {
        Some(ErrorView::BadRequest("City is required"@))
    } else if !gps_valid {
        Some(ErrorView::BadRequest("Invalid GPS coordinates"@))
    } else if b.price_per_night_sats < 1000 {
        Some(ErrorView::BadRequest("Minimum price per night is 1000 sats"@))
    } else if b.max_guests < 1 {
        Some(ErrorView::BadRequest("Max guests must be at least 1"@))
    } else if !is_listing_type(b.listing_type@) {
        Some(
            ErrorView::BadRequest(
                "Invalid listing_type. Must be one of: entire_place, private_room, shared_room, hotel_room, resort_unit"@,
            ),
        )
    } else if !is_property_class(b.property_class@) {
        Some(
            ErrorView::BadRequest(
                "Invalid property_class. Must be one of: apartment, house, hotel, resort, guesthouse, lodge, villa, cottage"@,
            ),
        )
    } else {
        None
    }
}

/// Whether a place to stay can be entered. The caller tells whether its coordinates
/// are on the globe, since they are not whole numbers.
pub fn validate_listing_input(b: &CreateStayListing, gps_valid: bool) -> (r: AppResult<()>)
    ensures
        refused_as(r, input_refusal(*b, gps_valid)),
{
    let lud16: String = trim(b.host_lud16.as_str());
    if lud16.as_str().is_empty() || !contains_char(b.host_lud16.as_str(), '@') {
        return Err(
            AppError::bad_request("Lightning address (lud16) is required and must contain '@'"),
        );
    }
    let title: String = trim(b.title.as_str());
    if chars_of(title.as_str()).len() < 5 {
        return Err(AppError::bad_request("Title must be at least 5 characters"));
    }
    let description: String = trim(b.description.as_str());
    if chars_of(description.as_str()).len() < 20 {
        return Err(AppError::bad_request("Description must be at least 20 characters"));
    }
    let city: String = trim(b.city.as_str());
    if city.as_str().is_empty() {
        return Err(AppError::bad_request("City is required"));
    }
    if !gps_valid {
        return Err(AppError::bad_request("Invalid GPS coordinates"));
    }
    if b.price_per_night_sats < 1000 {
        return Err(AppError::bad_request("Minimum price per night is 1000 sats"));
    }
    if b.max_guests < 1 {
        return Err(AppError::bad_request("Max guests must be at least 1"));
    }
    let t: &str = b.listing_type.as_str();
    if !same(t, "entire_place") && !same(t, "private_room") && !same(t, "shared_room") && !same(
        t,
        "hotel_room",
    ) && !same(t, "resort_unit") {
        return Err(
            AppError::bad_request(
                "Invalid listing_type. Must be one of: entire_place, private_room, shared_room, hotel_room, resort_unit",
            ),
        );
    }
    let c: &str = b.property_class.as_str();
    if !same(c, "apartment") && !same(c, "house") && !same(c, "hotel") && !same(c, "resort")
        && !same(c, "guesthouse") && !same(c, "lodge") && !same(c, "villa") && !same(c, "cottage") {
        return Err(
            AppError::bad_request(
                "Invalid property_class. Must be one of: apartment, house, hotel, resort, guesthouse, lodge, villa, cottage",
            ),
        );
    }
    Ok(())
}

// ── Entering and changing ───────────────────────────────────────────────────

/// An optional text without surrounding white space.
pub open spec fn trimmed_option(o: Option<Seq<char>>) -> Option<Seq<char>> {
    match o {
        Some(s) => Some(trimmed(s)),
        None => None,
    }
}

fn trim_option(o: &Option<String>) -> (r: Option<String>)
    ensures
        r.deep_view() == trimmed_option(o.deep_view()),
{
    match o {
        Some(s) => Some(trim(s.as_str())),
        None => None,
    }
}

/// The row that a place to stay becomes: active and not verified yet, so that guests
/// do not see it.
pub fn create(auth: &AuthUser, body: &CreateStayListing, gps_valid: bool, id: String, now: i64) -> (r:
    AppResult<StayListingRow>)
    ensures
        refused_as(r, input_refusal(*body, gps_valid)),
        r matches Ok(row) ==> {
            &&& row.id == id
            &&& row.host_pubkey == auth.public_key
            &&& row.host_lud16@ == trimmed(body.host_lud16@)
            &&& row.listing_type == body.listing_type
            &&& row.property_class == body.property_class
            &&& row.title@ == trimmed(body.title@)
            &&& row.description@ == trimmed(body.description@)
            &&& row.house_rules.deep_view() == trimmed_option(body.house_rules.deep_view())
            &&& row.country@ == or_text(body.country.deep_view(), "MW"@)
            &&& row.city@ == trimmed(body.city@)
            &&& row.neighborhood.deep_view() == trimmed_option(body.neighborhood.deep_view())
            &&& row.max_guests == body.max_guests
            &&& row.bedrooms == body.bedrooms
            &&& row.beds == body.beds
            &&& row.price_per_night_sats == body.price_per_night_sats
            &&& row.cleaning_fee_sats == or_number(body.cleaning_fee_sats, 0)
            &&& row.min_nights == or_number(body.min_nights, 1)
            &&& row.max_nights == or_number(body.max_nights, 30)
            &&& row.checkin_time@ == or_text(body.checkin_time.deep_view(), "15:00"@)
            &&& row.checkout_time@ == or_text(body.checkout_time.deep_view(), "11:00"@)
            &&& row.amenities@ == or_text(body.amenities.deep_view(), "[]"@)
            &&& row.photo_urls@ == or_text(body.photo_urls.deep_view(), "[]"@)
            &&& row.cancellation_policy@ == "strict_7day_50"@
            &&& row.verified == 0
            &&& row.active == 1
            &&& row.created_at == now
            &&& row.updated_at == now
            &&& !is_visible(row)
        },
{
    match validate_listing_input(body, gps_valid) {
        Err(e) => {
            return Err(e);
        },
        Ok(_) => {},
    }
    Ok(
        StayListingRow {
            id,
            host_pubkey: auth.public_key.clone(),
            host_lud16: trim(body.host_lud16.as_str()),
            listing_type: body.listing_type.clone(),
            property_class: body.property_class.clone(),
            title: trim(body.title.as_str()),
            description: trim(body.description.as_str()),
            house_rules: trim_option(&body.house_rules),
            country: or_default(&body.country, "MW"),
            city: trim(body.city.as_str()),
            neighborhood: trim_option(&body.neighborhood),
            max_guests: body.max_guests,
            bedrooms: body.bedrooms,
            beds: body.beds,
            price_per_night_sats: body.price_per_night_sats,
            cleaning_fee_sats: number_or_default(body.cleaning_fee_sats, 0),
            min_nights: number_or_default(body.min_nights, 1),
            max_nights: number_or_default(body.max_nights, 30),
            checkin_time: or_default(&body.checkin_time, "15:00"),
            checkout_time: or_default(&body.checkout_time, "11:00"),
            amenities: or_default(&body.amenities, "[]"),
            photo_urls: or_default(&body.photo_urls, "[]"),
            cancellation_policy: "strict_7day_50".to_owned(),
            verified: 0,
            active: 1,
            created_at: now,
            updated_at: now,
        },
    )
}

/// A place as it is kept: a deleted one stays, with the time of its deletion.
pub struct KeptStay {
    pub place: StayListingRow,
    pub deleted_at: Option<i64>,
}

/// Why a place is not shown, if it is not: there is none, or it is deleted.
pub open spec fn place_refusal(found: Option<KeptStay>) -> Option<ErrorView> {
    if found is None || found->0.deleted_at is Some {
        Some(ErrorView::NotFound("Listing not found"@))
    } else {
        None
    }
}

/// The place of a given id, where there is one that is not deleted.
pub fn get_one(found: Option<KeptStay>) -> (r: AppResult<StayListingRow>)
    ensures
        refused_as(r, place_refusal(found)),
        r matches Ok(place) ==> place == found->0.place,
{
    match found {
        Some(kept) => {
            if kept.deleted_at.is_some() {
                return Err(AppError::not_found("Listing not found"));
            }
            Ok(kept.place)
        },
        None => Err(AppError::not_found("Listing not found")),
    }
}

/// Why a host's request is not carried out, as far as the host tells.
pub open spec fn host_refusal(
    caller: Seq<char>,
    host: Option<Seq<char>>,
    not_host: Seq<char>,
) -> Option<ErrorView> {
    match host {
        None => Some(ErrorView::BadRequest("Listing not found"@)),
        Some(h) => if h != caller {
            Some(ErrorView::Unauthorized(not_host))
        } else {
            None
        },
    }
}

/// Why a place to stay is not changed, if it is not.
pub open spec fn update_refusal(
    caller: Seq<char>,
    host: Option<Seq<char>>,
    price: Option<i64>,
    gps_valid: bool,
) -> Option<ErrorView> {
    if host_refusal(caller, host, "Only the host can update this listing"@) is Some {
        host_refusal(caller, host, "Only the host can update this listing"@)
    } else if price is Some && price->0 < 1000 {
        Some(ErrorView::BadRequest("Minimum price per night is 1000 sats"@))
    } else if !gps_valid {
        Some(ErrorView::BadRequest("Invalid GPS coordinates"@))
    } else {
        None
    }
}

/// What a host changes of a place: texts lose their surrounding white space, and what
/// is left out stays as it is. The caller tells whether new coordinates, if there are
/// any, are on the globe.
pub fn update(
    auth: &AuthUser,
    host_pubkey: &Option<String>,
    body: &UpdateStayListing,
    gps_valid: bool,
) -> (r: AppResult<UpdateStayListing>)
    ensures
        refused_as(
            r,
            update_refusal(
                auth.public_key@,
                host_pubkey.deep_view(),
                body.price_per_night_sats,
                gps_valid,
            ),
        ),
        r matches Ok(c) ==> {
            &&& c.host_lud16.deep_view() == trimmed_option(body.host_lud16.deep_view())
            &&& c.title.deep_view() == trimmed_option(body.title.deep_view())
            &&& c.description.deep_view() == trimmed_option(body.description.deep_view())
            &&& c.house_rules.deep_view() == trimmed_option(body.house_rules.deep_view())
            &&& c.neighborhood.deep_view() == trimmed_option(body.neighborhood.deep_view())
            &&& c.max_guests == body.max_guests
            &&& c.bedrooms == body.bedrooms
            &&& c.beds == body.beds
            &&& c.price_per_night_sats == body.price_per_night_sats
            &&& c.cleaning_fee_sats == body.cleaning_fee_sats
            &&& c.min_nights == body.min_nights
            &&& c.max_nights == body.max_nights
            &&& c.checkin_time == body.checkin_time
            &&& c.checkout_time == body.checkout_time
            &&& c.amenities == body.amenities
            &&& c.photo_urls == body.photo_urls
            &&& c.active == body.active
        },
{
    match host_pubkey {
        None => {
            return Err(AppError::bad_request("Listing not found"));
        },
        Some(host) => {
            if *host != auth.public_key {
                return Err(AppError::unauthorized("Only the host can update this listing"));
            }
        },
    }
    match body.price_per_night_sats {
        Some(price) => {
            if price < 1000 {
                return Err(AppError::bad_request("Minimum price per night is 1000 sats"));
            }
        },
        None => {},
    }
    if !gps_valid {
        return Err(AppError::bad_request("Invalid GPS coordinates"));
    }
    Ok(
        UpdateStayListing {
            host_lud16: trim_option(&body.host_lud16),
            title: trim_option(&body.title),
            description: trim_option(&body.description),
            house_rules: trim_option(&body.house_rules),
            neighborhood: trim_option(&body.neighborhood),
            max_guests: body.max_guests,
            bedrooms: body.bedrooms,
            beds: body.beds,
            price_per_night_sats: body.price_per_night_sats,
            cleaning_fee_sats: body.cleaning_fee_sats,
            min_nights: body.min_nights,
            max_nights: body.max_nights,
            checkin_time: copy_option(&body.checkin_time),
            checkout_time: copy_option(&body.checkout_time),
            amenities: copy_option(&body.amenities),
            photo_urls: copy_option(&body.photo_urls),
            active: body.active,
        },
    )
}

pub open spec fn changed<T>(change: Option<T>, known: T) -> T {
    match change {
        Some(x) => x,
        None => known,
    }
}

fn changed_text(change: &Option<String>, known: String) -> (r: String)
    ensures
        r == changed(*change, known),
{
    match change {
        Some(s) => s.clone(),
        None => known,
    }
}

impl UpdateStayListing {
    /// Carries the change out on a place.
    pub fn apply(&self, row: StayListingRow, now: i64) -> (r: StayListingRow)
        ensures
            r == (StayListingRow {
                host_lud16: changed(self.host_lud16, row.host_lud16),
                title: changed(self.title, row.title),
                description: changed(self.description, row.description),
                house_rules: if self.house_rules is Some {
                    self.house_rules
                } else {
                    row.house_rules
                },
                neighborhood: if self.neighborhood is Some {
                    self.neighborhood
                } else {
                    row.neighborhood
                },
                max_guests: changed(self.max_guests, row.max_guests),
                bedrooms: changed(self.bedrooms, row.bedrooms),
                beds: changed(self.beds, row.beds),
                price_per_night_sats: changed(self.price_per_night_sats, row.price_per_night_sats),
                cleaning_fee_sats: changed(self.cleaning_fee_sats, row.cleaning_fee_sats),
                min_nights: changed(self.min_nights, row.min_nights),
                max_nights: changed(self.max_nights, row.max_nights),
                checkin_time: changed(self.checkin_time, row.checkin_time),
                checkout_time: changed(self.checkout_time, row.checkout_time),
                amenities: changed(self.amenities, row.amenities),
                photo_urls: changed(self.photo_urls, row.photo_urls),
                active: changed(self.active, row.active),
                updated_at: now,
                ..row
            }),
    {
        StayListingRow {
            id: row.id,
            host_pubkey: row.host_pubkey,
            host_lud16: changed_text(&self.host_lud16, row.host_lud16),
            listing_type: row.listing_type,
            property_class: row.property_class,
            title: changed_text(&self.title, row.title),
            description: changed_text(&self.description, row.description),
            house_rules: if self.house_rules.is_some() {
                copy_option(&self.house_rules)
            } else {
                row.house_rules
            },
            country: row.country,
            city: row.city,
            neighborhood: if self.neighborhood.is_some() {
                copy_option(&self.neighborhood)
            } else {
                row.neighborhood
            },
            max_guests: number_or_default(self.max_guests, row.max_guests),
            bedrooms: number_or_default(self.bedrooms, row.bedrooms),
            beds: number_or_default(self.beds, row.beds),
            price_per_night_sats: number_or_default(self.price_per_night_sats, row.price_per_night_sats),
            cleaning_fee_sats: number_or_default(self.cleaning_fee_sats, row.cleaning_fee_sats),
            min_nights: number_or_default(self.min_nights, row.min_nights),
            max_nights: number_or_default(self.max_nights, row.max_nights),
            checkin_time: changed_text(&self.checkin_time, row.checkin_time),
            checkout_time: changed_text(&self.checkout_time, row.checkout_time),
            amenities: changed_text(&self.amenities, row.amenities),
            photo_urls: changed_text(&self.photo_urls, row.photo_urls),
            cancellation_policy: row.cancellation_policy,
            verified: row.verified,
            active: number_or_default(self.active, row.active),
            created_at: row.created_at,
            updated_at: now,
        }
    }
}

/// The deletion of a place.
pub struct StayDeletion {
    pub at: i64,
}

impl StayDeletion {
    /// The place after the deletion: it stays, with the time.
    pub open spec fn after(self, kept: KeptStay) -> KeptStay {
        KeptStay {
            place: StayListingRow { updated_at: self.at, ..kept.place },
            deleted_at: Some(self.at),
        }
    }

    /// Carries the deletion out.
    pub fn apply(&self, kept: &mut KeptStay)
        ensures
            *final(kept) == self.after(*old(kept)),
    {
        kept.place.updated_at = self.at;
        kept.deleted_at = Some(self.at);
    }
}

/// The deletion of a place by its host.
pub fn delete_one(auth: &AuthUser, host_pubkey: &Option<String>, now: i64) -> (r: AppResult<
    StayDeletion,
>)
    ensures
        refused_as(
            r,
            host_refusal(
                auth.public_key@,
                host_pubkey.deep_view(),
                "Only the host can delete this listing"@,
            ),
        ),
        r matches Ok(deletion) ==> deletion.at == now,
{
    match host_pubkey {
        None => Err(AppError::bad_request("Listing not found")),
        Some(host) => {
            if *host != auth.public_key {
                return Err(AppError::unauthorized("Only the host can delete this listing"));
            }
            Ok(StayDeletion { at: now })
        },
    }
}

/// A place that was deleted is not found any more.
pub proof fn law_deleted_places_are_not_found(kept: KeptStay, deletion: StayDeletion)
    ensures
        place_refusal(Some(deletion.after(kept))) == Some(
            ErrorView::NotFound("Listing not found"@),
        ),
{
}

// ── Lists ───────────────────────────────────────────────────────────────────

/// `n` moved into the range from `low` to `high`.
pub open spec fn clamped(n: i64, low: i64, high: i64) -> i64 {
    if n < low {
        low
    } else if n > high {
        high
    } else {
        n
    }
}

fn clamp(n: i64, low: i64, high: i64) -> (r: i64)
    ensures
        r == clamped(n, low, high),
{
    if n < low {
        low
    } else if n > high {
        high
    } else {
        n
    }
}

/// How many places an administrator is shown: 100 unless asked otherwise, from 1 to
/// 500.
pub fn list_admin(q: &AdminListQuery) -> (r: i64)
    ensures
        r == clamped(or_number(q.limit, 100), 1, 500),
{
    clamp(number_or_default(q.limit, 100), 1, 500)
}

/// The verification of a place by an administrator.
pub struct StayVerification {
    pub at: i64,
}

/// An administrator's verification of a place.
pub fn admin_verify(now: i64) -> (r: StayVerification)
    ensures
        r.at == now,
{
    StayVerification { at: now }
}

impl StayVerification {
    /// Whether the verification takes hold on a place: only on one that is not deleted.
    pub open spec fn applies(self, kept: KeptStay) -> bool {
        kept.deleted_at is None
    }

    /// The place after the verification.
    pub open spec fn after(self, kept: KeptStay) -> KeptStay {
        if self.applies(kept) {
            KeptStay {
                place: StayListingRow { verified: 1, updated_at: self.at, ..kept.place },
                deleted_at: kept.deleted_at,
            }
        } else {
            kept
        }
    }

    /// Carries the verification out, and tells how many rows it took hold on: one or none.
    pub fn apply(&self, kept: &mut KeptStay) -> (rows: u64)
        ensures
            *final(kept) == self.after(*old(kept)),
            rows == if self.applies(*old(kept)) {
                1u64
            } else {
                0u64
            },
    {
        if kept.deleted_at.is_some() {
            return 0;
        }
        kept.place.verified = 1;
        kept.place.updated_at = self.at;
        1
    }

    /// Whether the verification took hold.
    pub fn written(self, rows: u64) -> (r: AppResult<()>)
        ensures
            refused_as(
                r,
                if rows == 0 {
                    Some(ErrorView::BadRequest("Listing not found"@))
                } else {
                    None
                },
            ),
    {
        if rows == 0 {
            return Err(AppError::bad_request("Listing not found"));
        }
        Ok(())
    }
}

/// Guests see an active place once it is verified, and a deleted place is not verified.
pub proof fn law_verified_places_are_shown(
    kept: KeptStay,
    verification: StayVerification,
    deletion: StayDeletion,
)
    ensures
        kept.deleted_at is None && kept.place.active == 1 ==> is_visible(
            verification.after(kept).place,
        ),
        verification.after(deletion.after(kept)) == deletion.after(kept),
{
}

/// What guests look for.
pub struct StaySearch {
    /// The pattern that the city is held against, if one is asked for.
    pub city_pattern: Option<String>,
    pub limit: i64,
    pub offset: i64,
}

/// What guests look for: 20 places unless asked otherwise, from 1 to 100.
pub fn search(q: &SearchQuery) -> (r: StaySearch)
    ensures
        r.city_pattern.deep_view() == (match q.city {
            Some(city) => Some("%"@ + city@ + "%"@),
            None => None,
        }),
        r.limit == clamped(or_number(q.limit, 20), 1, 100),
        r.offset == (if or_number(q.offset, 0) > 0 {
            or_number(q.offset, 0)
        } else {
            0
        }),
{
    let city_pattern: Option<String> = match &q.city {
        Some(city) => {
            let mut p: String = "%".to_owned();
            p.append(city.as_str());
            p.append("%");
            Some(p)
        },
        None => None,
    };
    let offset: i64 = number_or_default(q.offset, 0);
    StaySearch {
        city_pattern,
        limit: clamp(number_or_default(q.limit, 20), 1, 100),
        offset: if offset > 0 {
            offset
        } else {
            0
        },
    }
}

/// Guests see a place only when it is verified and active.
pub open spec fn is_visible(row: StayListingRow) -> bool {
    row.verified == 1 && row.active == 1
}

/// Whether guests see a place.
pub fn shown_to_guests(row: &StayListingRow) -> (r: bool)
    ensures
        r == is_visible(*row),
{
    row.verified == 1 && row.active == 1
}

} // verus!

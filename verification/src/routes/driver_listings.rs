//! Drivers' listings of their vehicles.

use vstd::prelude::*;
use vstd::string::*;

use crate::auth::AuthUser;
use crate::error::AppError;
use crate::error::AppResult;
use crate::error::ErrorView;
use crate::error::refused_as;
use crate::money::lemma_quotient;
use crate::text::copy_option;
use crate::text::dec;
use crate::text::decimal;
use crate::text::number_or_default;
use crate::text::or_number;

verus! {

/// How many listings a driver can have at a time.
pub const MAX_LISTINGS_PER_DRIVER: i64 = 5;

pub struct UpsertDriverListing {
    pub id: String,
    pub listing_name: Option<String>,
    pub vehicle: Option<String>,
    pub vehicle_type: Option<String>,
    pub seats: Option<i64>,
    pub price_per_km: Option<i64>,
    pub ride_categories: Option<String>,
    pub photo_urls: Option<String>,
    pub description: Option<String>,
    pub location_country: Option<String>,
    pub location_city: Option<String>,
    pub lud16: Option<String>,
    pub nostr_event_id: Option<String>,
    pub service_interval_km: Option<i64>,
}

pub struct DriverListingRow {
    pub id: String,
    pub driver_pubkey: String,
    pub driver_npub: Option<String>,
    pub listing_name: Option<String>,
    pub vehicle: Option<String>,
    pub vehicle_type: Option<String>,
    pub seats: Option<i64>,
    pub price_per_km: Option<i64>,
    pub ride_categories: Option<String>,
    pub photo_urls: Option<String>,
    pub description: Option<String>,
    pub location_country: Option<String>,
    pub location_city: Option<String>,
    pub lud16: Option<String>,
    pub nostr_event_id: Option<String>,
    pub service_interval_km: i64,
    pub km_driven_total: i64,
    pub created_at: i64,
    pub updated_at: i64,
}

/// Why a price per kilometre is not taken, if it is not.
pub open spec fn price_refusal(price: Option<i64>, min_price: i64) -> Option<ErrorView> {
    if price is Some && price->0 < min_price {
        Some(
            ErrorView::BadRequest(
                "Minimum price per km is "@ + dec(min_price as int) + " sats (you set "@ + dec(
                    price->0 as int,
                ) + ")."@,
            ),
        )
    } else {
        None
    }
}

fn price_allowed(body: &UpsertDriverListing, min_price: i64) -> (r: AppResult<()>)
    ensures
        refused_as(r, price_refusal(body.price_per_km, min_price)),
{
    match body.price_per_km {
        Some(price) => {
            if price < min_price {
                let least: String = decimal(min_price);
                let set: String = decimal(price);
                let mut m: String = "Minimum price per km is ".to_owned();
                m.append(least.as_str());
                m.append(" sats (you set ");
                m.append(set.as_str());
                m.append(").");
                return Err(AppError::BadRequest(m));
            }
            Ok(())
        },
        None => Ok(()),
    }
}

/// A listing as it is kept: a deleted one stays, with the time of its deletion.
pub struct KeptListing {
    pub listing: DriverListingRow,
    pub deleted_at: Option<i64>,
}

/// The listing is the driver's and not deleted.
pub open spec fn is_live(row: KeptListing, driver: Seq<char>) -> bool {
    row.listing.driver_pubkey@ == driver && row.deleted_at is None
}

/// Entering a listing gives its owner another live one: it is not known, or it is
/// deleted.
pub open spec fn adds_live(known: Option<KeptListing>) -> bool {
    known is None || known->0.deleted_at is Some
}

/// Why a listing is not entered, if it is not, going by what is known under its id and
/// by how many live listings the driver and the owner of what is known have. Nobody gets
/// beyond the full number of listings. A driver who has it can change them, and nothing
/// else.
pub open spec fn upsert_refusal(
    driver: Seq<char>,
    price: Option<i64>,
    min_price: i64,
    known: Option<KeptListing>,
    active_count: int,
    owner_count: int,
) -> Option<ErrorView> {
    if price_refusal(price, min_price) is Some {
        price_refusal(price, min_price)
    } else if !(known is Some && is_live(known->0, driver)) && active_count
        >= MAX_LISTINGS_PER_DRIVER {
        Some(
            ErrorView::BadRequest(
                "max 5 active listings per driver — delete one before creating a new one"@,
            ),
        )
    } else if known is Some && adds_live(known) && owner_count >= MAX_LISTINGS_PER_DRIVER {
        Some(
            ErrorView::BadRequest(
                "max 5 active listings per driver — delete one before creating a new one"@,
            ),
        )
    } else {
        None
    }
}

/// The row of a listing that a driver enters or changes, given what is known under its
/// id, how many live listings the driver has, and how many the owner of what is known
/// has.
pub fn upsert(
    auth: &AuthUser,
    body: &UpsertDriverListing,
    min_price: i64,
    known: &Option<KeptListing>,
    active_count: i64,
    owner_count: i64,
    now: i64,
) -> (r: AppResult<DriverListingRow>)
    ensures
        refused_as(
            r,
            upsert_refusal(
                auth.public_key@,
                body.price_per_km,
                min_price,
                *known,
                active_count as int,
                owner_count as int,
            ),
        ),
        r matches Ok(row) ==> {
            &&& row.id == body.id
            &&& row.driver_pubkey == auth.public_key
            &&& row.driver_npub == Some(auth.npub)
            &&& row.listing_name == body.listing_name
            &&& row.vehicle == body.vehicle
            &&& row.vehicle_type == body.vehicle_type
            &&& row.seats == Some(or_number(body.seats, 4))
            &&& row.price_per_km == Some(or_number(body.price_per_km, 500))
            &&& row.ride_categories == body.ride_categories
            &&& row.photo_urls == body.photo_urls
            &&& row.description == body.description
            &&& row.location_country == body.location_country
            &&& row.location_city == body.location_city
            &&& row.lud16 == body.lud16
            &&& row.nostr_event_id == body.nostr_event_id
            &&& row.service_interval_km == or_number(body.service_interval_km, 5000)
            &&& row.km_driven_total == 0
            &&& row.created_at == now
            &&& row.updated_at == now
        },
{
    match price_allowed(body, min_price) {
        Ok(_) => {},
        Err(e) => {
            return Err(e);
        },
    }
    let (already_theirs, revives): (bool, bool) = match known {
        Some(row) => (
            row.listing.driver_pubkey == auth.public_key && row.deleted_at.is_none(),
            row.deleted_at.is_some(),
        ),
        None => (false, false),
    };
    if (!already_theirs && active_count >= MAX_LISTINGS_PER_DRIVER) || (revives && owner_count
        >= MAX_LISTINGS_PER_DRIVER) {
        return Err(
            AppError::bad_request(
                "max 5 active listings per driver — delete one before creating a new one",
            ),
        );
    }
    Ok(
        DriverListingRow {
            id: body.id.clone(),
            driver_pubkey: auth.public_key.clone(),
            driver_npub: Some(auth.npub.clone()),
            listing_name: copy_option(&body.listing_name),
            vehicle: copy_option(&body.vehicle),
            vehicle_type: copy_option(&body.vehicle_type),
            seats: Some(number_or_default(body.seats, 4)),
            price_per_km: Some(number_or_default(body.price_per_km, 500)),
            ride_categories: copy_option(&body.ride_categories),
            photo_urls: copy_option(&body.photo_urls),
            description: copy_option(&body.description),
            location_country: copy_option(&body.location_country),
            location_city: copy_option(&body.location_city),
            lud16: copy_option(&body.lud16),
            nostr_event_id: copy_option(&body.nostr_event_id),
            service_interval_km: number_or_default(body.service_interval_km, 5000),
            km_driven_total: 0,
            created_at: now,
            updated_at: now,
        },
    )
}

/// What becomes of a listing that is there already: its driver, the distance driven and
/// the time of entry stay, all else is as asked for.
pub open spec fn replaced(known: DriverListingRow, asked: DriverListingRow) -> DriverListingRow {
    DriverListingRow {
        driver_pubkey: known.driver_pubkey,
        driver_npub: known.driver_npub,
        km_driven_total: known.km_driven_total,
        created_at: known.created_at,
        ..asked
    }
}

/// What becomes of a listing that is there already.
pub fn replace(known: &DriverListingRow, asked: DriverListingRow) -> (r: DriverListingRow)
    requires
        known.id@ == asked.id@,
    ensures
        r == replaced(*known, asked),
{
    let mut r: DriverListingRow = asked;
    r.driver_pubkey = known.driver_pubkey.clone();
    r.driver_npub = copy_option(&known.driver_npub);
    r.km_driven_total = known.km_driven_total;
    r.created_at = known.created_at;
    r
}

/// How many live listings a driver has.
pub open spec fn live_count(rows: Seq<KeptListing>, driver: Seq<char>) -> nat
    decreases rows.len(),
{
    if rows.len() == 0 {
        0
    } else if is_live(rows.last(), driver) {
        live_count(rows.drop_last(), driver) + 1
    } else {
        live_count(rows.drop_last(), driver)
    }
}

/// The listing of an id stands at a place.
pub open spec fn stands_at(rows: Seq<KeptListing>, id: Seq<char>, place: int) -> bool {
    0 <= place < rows.len() && rows[place].listing.id@ == id
}

/// How many live listings the owner of what is known has.
pub open spec fn owner_count(rows: Seq<KeptListing>, known: Option<KeptListing>) -> int {
    match known {
        Some(row) => live_count(rows, row.listing.driver_pubkey@) as int,
        None => 0,
    }
}

/// What is known under an id.
pub open spec fn known_as(rows: Seq<KeptListing>, id: Seq<char>) -> Option<KeptListing> {
    if exists|place: int| stands_at(rows, id, place) {
        Some(rows[choose|place: int| stands_at(rows, id, place)])
    } else {
        None
    }
}

/// The listings after one is entered: what is known under its id is replaced and is no
/// longer deleted, and what is not known is added.
pub open spec fn entered(rows: Seq<KeptListing>, asked: DriverListingRow) -> Seq<KeptListing> {
    if exists|place: int| stands_at(rows, asked.id@, place) {
        let place = choose|place: int| stands_at(rows, asked.id@, place);
        rows.update(
            place,
            KeptListing { listing: replaced(rows[place].listing, asked), deleted_at: None },
        )
    } else {
        rows.push(KeptListing { listing: asked, deleted_at: None })
    }
}

proof fn lemma_count_after_update(
    rows: Seq<KeptListing>,
    place: int,
    row: KeptListing,
    driver: Seq<char>,
)
    requires
        0 <= place < rows.len(),
    ensures
        live_count(rows.update(place, row), driver) - (if is_live(row, driver) {
            1int
        } else {
            0
        }) == live_count(rows, driver) - (if is_live(rows[place], driver) {
            1int
        } else {
            0
        }),
    decreases rows.len(),
{
    let after = rows.update(place, row);
    if place == rows.len() - 1 {
        assert(after.drop_last() =~= rows.drop_last());
    } else {
        lemma_count_after_update(rows.drop_last(), place, row, driver);
        assert(after.drop_last() =~= rows.drop_last().update(place, row));
    }
}

/// No driver ever has more than five live listings: where none has before a listing is
/// entered that is not refused, none has after.
pub proof fn law_every_driver_keeps_to_five_listings(
    rows: Seq<KeptListing>,
    asked: DriverListingRow,
    price: Option<i64>,
    min_price: i64,
)
    requires
        forall|d: Seq<char>| #[trigger] live_count(rows, d) <= 5,
        upsert_refusal(
            asked.driver_pubkey@,
            price,
            min_price,
            known_as(rows, asked.id@),
            live_count(rows, asked.driver_pubkey@) as int,
            owner_count(rows, known_as(rows, asked.id@)),
        ) is None,
    ensures
        forall|d: Seq<char>| #[trigger] live_count(entered(rows, asked), d) <= 5,
{
    let after = entered(rows, asked);
    assert forall|d: Seq<char>| #[trigger] live_count(after, d) <= 5 by {
        assert(live_count(rows, d) <= 5);
        if exists|place: int| stands_at(rows, asked.id@, place) {
            let place = choose|place: int| stands_at(rows, asked.id@, place);
            let row = KeptListing {
                listing: replaced(rows[place].listing, asked),
                deleted_at: None,
            };
            lemma_count_after_update(rows, place, row, d);
        } else {
            assert(after.drop_last() =~= rows);
        }
    }
}

/// A driver with five live listings, or more, adds none: whoever does not have the
/// listing of that id live is refused.
pub proof fn law_full_drivers_add_no_listing(
    rows: Seq<KeptListing>,
    driver: Seq<char>,
    id: Seq<char>,
    price: Option<i64>,
    min_price: i64,
)
    requires
        live_count(rows, driver) >= 5,
        !(known_as(rows, id) is Some && is_live(known_as(rows, id)->0, driver)),
    ensures
        upsert_refusal(
            driver,
            price,
            min_price,
            known_as(rows, id),
            live_count(rows, driver) as int,
            owner_count(rows, known_as(rows, id)),
        ) matches Some(e) && e is BadRequest,
{
}

/// A write to the listing of a given id.
pub enum DriverListingChange {
    /// A driver deletes it.
    Delete { driver: String, at: i64 },
    /// A driver has driven some more with its vehicle.
    AddKm { driver: String, km: i64, at: i64 },
}

impl DriverListingChange {
    /// The driver who makes the write.
    pub open spec fn driver(self) -> Seq<char> {
        match self {
            DriverListingChange::Delete { driver, .. } => driver@,
            DriverListingChange::AddKm { driver, .. } => driver@,
        }
    }

    /// Whether the write takes hold on a listing: only on one of the driver's own that
    /// is not deleted.
    pub open spec fn applies(self, row: KeptListing) -> bool {
        is_live(row, self.driver())
    }

    /// The write can be made on the listing in 64-bit numbers.
    pub open spec fn fits(self, row: KeptListing) -> bool {
        self matches DriverListingChange::AddKm { km, .. } ==> i64::MIN
            <= row.listing.km_driven_total + km <= i64::MAX
    }

    /// What the write makes of a listing on which it takes hold.
    pub open spec fn written(self, row: KeptListing) -> KeptListing {
        match self {
            DriverListingChange::Delete { at, .. } => KeptListing {
                listing: DriverListingRow { updated_at: at, ..row.listing },
                deleted_at: Some(at),
            },
            DriverListingChange::AddKm { km, at, .. } => KeptListing {
                listing: DriverListingRow {
                    km_driven_total: (row.listing.km_driven_total + km) as i64,
                    updated_at: at,
                    ..row.listing
                },
                deleted_at: row.deleted_at,
            },
        }
    }

    /// The listing after the write.
    pub open spec fn after(self, row: KeptListing) -> KeptListing {
        if self.applies(row) {
            self.written(row)
        } else {
            row
        }
    }

    /// Carries the write out on the listing, and tells how many rows it took hold on:
    /// one or none.
    pub fn apply(&self, row: &mut KeptListing) -> (rows: u64)
        requires
            self.applies(*old(row)) ==> self.fits(*old(row)),
        ensures
            *final(row) == self.after(*old(row)),
            rows == if self.applies(*old(row)) {
                1u64
            } else {
                0u64
            },
    {
        let driver: &String = match self {
            DriverListingChange::Delete { driver, .. } => driver,
            DriverListingChange::AddKm { driver, .. } => driver,
        };
        if row.listing.driver_pubkey != *driver || row.deleted_at.is_some() {
            return 0;
        }
        match self {
            DriverListingChange::Delete { at, .. } => {
                row.listing.updated_at = *at;
                row.deleted_at = Some(*at);
            },
            DriverListingChange::AddKm { km, at, .. } => {
                row.listing.km_driven_total = row.listing.km_driven_total + *km;
                row.listing.updated_at = *at;
            },
        }
        1
    }
}

/// Only the driver of a listing deletes it or adds to the distance driven, and nobody
/// does once it is deleted: any other such write leaves the listing as it is.
pub proof fn law_only_its_driver_changes_a_listing(
    row: KeptListing,
    change: DriverListingChange,
    deletion: DriverListingChange,
)
    ensures
        change.driver() != row.listing.driver_pubkey@ ==> change.after(row) == row,
        deletion is Delete && deletion.applies(row) ==> change.after(deletion.after(row))
            == deletion.after(row),
{
}

/// Neither a deletion nor a distance driven gives any driver another live listing.
pub proof fn law_changes_add_no_listing(
    rows: Seq<KeptListing>,
    place: int,
    change: DriverListingChange,
    driver: Seq<char>,
)
    requires
        0 <= place < rows.len(),
    ensures
        live_count(rows.update(place, change.after(rows[place])), driver) <= live_count(
            rows,
            driver,
        ),
{
    lemma_count_after_update(rows, place, change.after(rows[place]), driver);
}

/// A listing that its driver deletes.
pub struct Deletion {
    driver: String,
    now: i64,
}

/// Begins to delete a listing.
pub fn delete_one(auth: &AuthUser, now: i64) -> (r: Deletion)
    ensures
        r.driver() == auth.public_key@,
        r.at() == now,
{
    Deletion { driver: auth.public_key.clone(), now }
}

impl Deletion {
    /// The driver who deletes.
    pub closed spec fn driver(&self) -> Seq<char> {
        self.driver@
    }

    /// The time of the deletion.
    pub closed spec fn at(&self) -> i64 {
        self.now
    }

    /// The write to make.
    pub fn change(&self) -> (r: DriverListingChange)
        ensures
            r matches DriverListingChange::Delete { driver, at } && driver@ == self.driver() && at
                == self.at(),
    {
        DriverListingChange::Delete { driver: self.driver.clone(), at: self.now }
    }

    /// The time of the deletion, where the write took hold.
    pub fn written(self, rows: u64) -> (r: AppResult<i64>)
        ensures
            refused_as(
                r,
                if rows == 0 {
                    Some(ErrorView::BadRequest("listing not found or not owned by you"@))
                } else {
                    None
                },
            ),
            r matches Ok(deleted_at) ==> deleted_at == self.at(),
    {
        if rows == 0 {
            return Err(AppError::bad_request("listing not found or not owned by you"));
        }
        Ok(self.now)
    }
}

/// A distance that a driver has driven.
pub struct Distance {
    driver: String,
    km: i64,
    now: i64,
}

/// Begins to add a distance to a listing. The caller hands in the distance rounded to
/// whole kilometres, and whether it lay between 0 and 5000 before, since distances are
/// not whole numbers.
pub fn add_km(auth: &AuthUser, in_range: bool, km: i64, now: i64) -> (r: AppResult<Distance>)
    ensures
        refused_as(
            r,
            if !in_range {
                Some(
                    ErrorView::BadRequest("km_driven must be between 0 and 5000 (sanity bound)"@),
                )
            } else {
                None
            },
        ),
        r matches Ok(d) ==> d.driver() == auth.public_key@ && d.km() == km && d.at() == now,
{
    if !in_range {
        return Err(AppError::bad_request("km_driven must be between 0 and 5000 (sanity bound)"));
    }
    Ok(Distance { driver: auth.public_key.clone(), km, now })
}

impl Distance {
    /// The driver who drove.
    pub closed spec fn driver(&self) -> Seq<char> {
        self.driver@
    }

    /// The distance in kilometres.
    pub closed spec fn km(&self) -> i64 {
        self.km
    }

    /// The time at which it is added.
    pub closed spec fn at(&self) -> i64 {
        self.now
    }

    /// The write to make.
    pub fn change(&self) -> (r: DriverListingChange)
        ensures
            r matches DriverListingChange::AddKm { driver, km, at } && driver@ == self.driver()
                && km == self.km() && at == self.at(),
    {
        DriverListingChange::AddKm { driver: self.driver.clone(), km: self.km, at: self.now }
    }

    /// The distance added, where the write took hold.
    pub fn written(self, rows: u64) -> (r: AppResult<i64>)
        ensures
            refused_as(
                r,
                if rows == 0 {
                    Some(
                        ErrorView::BadRequest(
                            "listing not found, not owned by you, or already deleted"@,
                        ),
                    )
                } else {
                    None
                },
            ),
            r matches Ok(km) ==> km == self.km(),
    {
        if rows == 0 {
            return Err(
                AppError::bad_request("listing not found, not owned by you, or already deleted"),
            );
        }
        Ok(self.km)
    }
}

/// The distance at which the next service is due: the next whole interval, and none
/// without an interval.
pub open spec fn service_due_at(km_total: int, interval: int) -> int {
    if interval > 0 {
        (crate::money::div_toward_zero(km_total, interval) + 1) * interval
    } else {
        0
    }
}

/// The next service can be told in 64-bit numbers.
pub open spec fn service_fits(km_total: i64, interval: i64) -> bool {
    let due = service_due_at(km_total as int, interval as int);
    i64::MIN <= due <= i64::MAX && i64::MIN <= due - km_total <= i64::MAX
}

/// What is told of a vehicle's next service.
pub struct ServiceHint {
    pub service_due_km: i64,
    pub km_until_service: i64,
}

fn service_due_wide(km_total: i64, interval: i64) -> (r: i128)
    ensures
        r == service_due_at(km_total as int, interval as int),
        -0x2_0000_0000_0000_0000 <= r <= 0x2_0000_0000_0000_0000,
{
    if interval <= 0 {
        return 0;
    }
    let wide: i128 = interval as i128;
    let magnitude: i128 = if km_total >= 0 {
        km_total as i128
    } else {
        -(km_total as i128)
    };
    let quotient: i128 = magnitude / wide;
    proof {
        lemma_quotient(magnitude as int, wide as int);
        let q = quotient as int;
        assert((q + 1) * wide == q * wide + wide) by (nonlinear_arith);
        assert((1 - q) * wide == wide - q * wide) by (nonlinear_arith);
        assert(0 <= q * wide) by (nonlinear_arith)
            requires
                q >= 0,
                wide > 0,
        ;
    }
    if km_total >= 0 {
        (quotient + 1) * wide
    } else {
        (1 - quotient) * wide
    }
}

/// Whether the next service can be told in 64-bit numbers.
pub fn can_tell_service(km_total: i64, interval: i64) -> (r: bool)
    ensures
        r == service_fits(km_total, interval),
{
    let due: i128 = service_due_wide(km_total, interval);
    let left: i128 = due - km_total as i128;
    due >= i64::MIN as i128 && due <= i64::MAX as i128 && left >= i64::MIN as i128 && left
        <= i64::MAX as i128
}

/// When the next service is due, and how far that is.
pub fn service_hint(km_total: i64, interval: i64) -> (r: ServiceHint)
    requires
        service_fits(km_total, interval),
    ensures
        r.service_due_km == service_due_at(km_total as int, interval as int),
        r.km_until_service == (if r.service_due_km - km_total > 0 {
            r.service_due_km - km_total
        } else {
            0
        }),
{
    let due: i64 = service_due_wide(km_total, interval) as i64;
    let left: i64 = due - km_total;
    ServiceHint {
        service_due_km: due,
        km_until_service: if left > 0 {
            left
        } else {
            0
        },
    }
}

/// The next service lies ahead, by no more than one interval, and is a whole number
/// of intervals away from the start.
pub proof fn law_service_lies_ahead(km_total: int, interval: int)
    requires
        km_total >= 0,
        interval > 0,
    ensures
        km_total < service_due_at(km_total, interval) <= km_total + interval,
        service_due_at(km_total, interval) % interval == 0,
{
    lemma_quotient(km_total, interval);
    let q = km_total / interval;
    assert((q + 1) * interval == q * interval + interval) by (nonlinear_arith);
    vstd::arithmetic::div_mod::lemma_mod_multiples_basic(q + 1, interval);
}

} // verus!

//! Listings of services.

use vstd::prelude::*;
use vstd::string::*;

use crate::auth::AuthUser;
use crate::db::Listing;
use crate::error::AppError;
use crate::error::AppResult;
use crate::error::ErrorView;
use crate::error::refused_as;
use crate::json::json_of_string_list;
use crate::json::listed_in;
use crate::json::string_list_text;
use crate::text::copy_option;
use crate::text::or_default;
use crate::text::or_text;
use crate::text::same;

verus! {

pub struct ListQuery {
    pub category: Option<String>,
    pub area: Option<String>,
    pub limit: Option<i64>,
    pub offset: Option<i64>,
}

pub struct ListingsResponse {
    pub items: Vec<Listing>,
    pub total: i64,
    pub limit: i64,
    pub offset: i64,
}

/// A part of a longer list.
pub struct Page {
    pub limit: i64,
    pub offset: i64,
}

/// The part of a list that is asked for: 50 rows unless asked otherwise, and never
/// more than 200.
pub fn page(limit: Option<i64>, offset: Option<i64>) -> (r: Page)
    ensures
        r.limit == (match limit {
            Some(n) => if n < 200 {
                n
            } else {
                200
            },
            None => 50,
        }),
        r.offset == (match offset {
            Some(n) => n,
            None => 0,
        }),
{
    let asked: i64 = match limit {
        Some(n) => n,
        None => 50,
    };
    Page {
        limit: if asked < 200 {
            asked
        } else {
            200
        },
        offset: match offset {
            Some(n) => n,
            None => 0,
        },
    }
}

/// The part of the listings that is asked for.
pub fn list(q: &ListQuery) -> (r: Page)
    ensures
        r.limit == (match q.limit {
            Some(n) => if n < 200 {
                n
            } else {
                200
            },
            None => 50,
        }),
        r.offset == (match q.offset {
            Some(n) => n,
            None => 0,
        }),
{
    page(q.limit, q.offset)
}

/// A listing of a given id is not there.
pub open spec fn not_found(id: Seq<char>) -> ErrorView {
    ErrorView::NotFound("listing "@ + id + " not found"@)
}

/// The listing of a given id, where there is one.
pub fn get_one(found: Option<Listing>, id: &str) -> (r: AppResult<Listing>)
    ensures
        refused_as(
            r,
            if found is None {
                Some(not_found(id@))
            } else {
                None
            },
        ),
        r matches Ok(row) ==> found == Some(row),
{
    match found {
        Some(row) => Ok(row),
        None => {
            let mut m: String = "listing ".to_owned();
            m.append(id);
            m.append(" not found");
            Err(AppError::NotFound(m))
        },
    }
}

pub struct CreateListingRequest {
    pub nostr_event_id: Option<String>,
    pub category: String,
    pub name: String,
    pub area: String,
    pub description: Option<String>,
    pub price_sats: i64,
    pub price_unit: Option<String>,
    pub lud16: Option<String>,
    pub photos: Option<Vec<String>>,
    pub phone: Option<String>,
}

/// The categories that a listing can be entered under.
pub open spec fn is_category(category: Seq<char>) -> bool {
    category == "guide"@ || category == "transport"@ || category == "stay"@ || category
        == "restaurant"@
}

/// The photos that a request brings.
pub open spec fn photos_brought(photos: Option<Vec<String>>) -> Seq<Seq<char>> {
    match photos {
        Some(list) => list.deep_view(),
        None => Seq::empty(),
    }
}

fn photos_text(photos: &Option<Vec<String>>) -> (r: String)
    ensures
        r@ == json_of_string_list(photos_brought(*photos)),
        listed_in(r@) == photos_brought(*photos),
{
    match photos {
        Some(list) => string_list_text(list),
        None => {
            let none: Vec<String> = Vec::new();
            assert(none.deep_view() =~= Seq::empty());
            string_list_text(&none)
        },
    }
}

/// The row that a listing request becomes: verified and available, with its photos
/// as they came.
pub fn create(auth: &AuthUser, body: &CreateListingRequest, id: String, now: i64) -> (r: AppResult<
    Listing,
>)
    ensures
        refused_as(
            r,
            if !is_category(body.category@) {
                Some(ErrorView::BadRequest("invalid category"@))
            } else {
                None
            },
        ),
        r matches Ok(row) ==> {
            &&& row.id == id
            &&& row.owner_npub == auth.npub
            &&& row.nostr_event_id == body.nostr_event_id
            &&& row.category == body.category
            &&& row.name == body.name
            &&& row.area == body.area
            &&& row.description == body.description
            &&& row.price_sats == body.price_sats
            &&& row.price_unit@ == or_text(body.price_unit.deep_view(), "per day"@)
            &&& row.lud16 == body.lud16
            &&& row.photos_json@ == json_of_string_list(photos_brought(body.photos))
            &&& listed_in(row.photos_json@) == photos_brought(body.photos)
            &&& row.phone == body.phone
            &&& row.available == 1
            &&& row.verified == 1
            &&& row.created_at == now
            &&& row.updated_at == now
        },
{
    let category: &str = body.category.as_str();
    if !same(category, "guide") && !same(category, "transport") && !same(category, "stay") && !same(
        category,
        "restaurant",
    ) {
        return Err(AppError::bad_request("invalid category"));
    }
    Ok(
        Listing {
            id,
            owner_npub: auth.npub.clone(),
            nostr_event_id: copy_option(&body.nostr_event_id),
            category: body.category.clone(),
            name: body.name.clone(),
            area: body.area.clone(),
            description: copy_option(&body.description),
            price_sats: body.price_sats,
            price_unit: or_default(&body.price_unit, "per day"),
            lud16: copy_option(&body.lud16),
            photos_json: photos_text(&body.photos),
            phone: copy_option(&body.phone),
            available: 1,
            verified: 1,
            created_at: now,
            updated_at: now,
        },
    )
}

pub struct UpdateListingRequest {
    pub name: Option<String>,
    pub description: Option<String>,
    pub price_sats: Option<i64>,
    pub lud16: Option<String>,
    pub available: Option<bool>,
    pub photos: Option<Vec<String>>,
}

/// What is changed of a listing: what is left out stays as it is.
pub struct ListingPatch {
    pub name: Option<String>,
    pub description: Option<String>,
    pub price_sats: Option<i64>,
    pub lud16: Option<String>,
    pub available: Option<i64>,
    pub photos_json: Option<String>,
    pub updated_at: i64,
}

/// A listing can be changed by its owner alone.
pub open spec fn owner_refusal(npub: Seq<char>, found: Option<Listing>, id: Seq<char>) -> Option<
    ErrorView,
> {
    match found {
        None => Some(not_found(id)),
        Some(listing) => if listing.owner_npub@ != npub {
            Some(ErrorView::Unauthorized("you don't own this listing"@))
        } else {
            None
        },
    }
}

fn check_owner(auth: &AuthUser, found: &Option<Listing>, id: &str) -> (r: AppResult<()>)
    ensures
        refused_as(r, owner_refusal(auth.npub@, *found, id@)),
{
    match found {
        None => {
            let mut m: String = "listing ".to_owned();
            m.append(id);
            m.append(" not found");
            Err(AppError::NotFound(m))
        },
        Some(listing) => {
            if listing.owner_npub != auth.npub {
                return Err(AppError::unauthorized("you don't own this listing"));
            }
            Ok(())
        },
    }
}

/// What an update changes of a listing.
pub fn update(
    auth: &AuthUser,
    found: &Option<Listing>,
    id: &str,
    body: &UpdateListingRequest,
    now: i64,
) -> (r: AppResult<ListingPatch>)
    ensures
        refused_as(r, owner_refusal(auth.npub@, *found, id@)),
        r matches Ok(patch) ==> {
            &&& patch.name == body.name
            &&& patch.description == body.description
            &&& patch.price_sats == body.price_sats
            &&& patch.lud16 == body.lud16
            &&& patch.available == (match body.available {
                Some(true) => Some(1i64),
                Some(false) => Some(0i64),
                None => None,
            })
            &&& match patch.photos_json {
                Some(text) => body.photos is Some && text@ == json_of_string_list(
                    photos_brought(body.photos),
                ) && listed_in(text@) == photos_brought(body.photos),
                None => body.photos is None,
            }
            &&& patch.updated_at == now
        },
{
    match check_owner(auth, found, id) {
        Err(e) => Err(e),
        Ok(_) => Ok(
            ListingPatch {
                name: copy_option(&body.name),
                description: copy_option(&body.description),
                price_sats: body.price_sats,
                lud16: copy_option(&body.lud16),
                available: match body.available {
                    Some(true) => Some(1),
                    Some(false) => Some(0),
                    None => None,
                },
                photos_json: if body.photos.is_some() {
                    Some(photos_text(&body.photos))
                } else {
                    None
                },
                updated_at: now,
            },
        ),
    }
}

/// What a removal changes of a listing: it is not available any more. The row stays,
/// since bookings refer to it.
pub fn remove(auth: &AuthUser, found: &Option<Listing>, id: &str, now: i64) -> (r: AppResult<
    ListingPatch,
>)
    ensures
        refused_as(r, owner_refusal(auth.npub@, *found, id@)),
        r matches Ok(patch) ==> {
            &&& patch.name is None
            &&& patch.description is None
            &&& patch.price_sats is None
            &&& patch.lud16 is None
            &&& patch.available == Some(0i64)
            &&& patch.photos_json is None
            &&& patch.updated_at == now
        },
{
    match check_owner(auth, found, id) {
        Err(e) => Err(e),
        Ok(_) => Ok(
            ListingPatch {
                name: None,
                description: None,
                price_sats: None,
                lud16: None,
                available: Some(0),
                photos_json: None,
                updated_at: now,
            },
        ),
    }
}

impl ListingPatch {
    /// Carries the change out on a listing.
    pub fn apply(&self, listing: &mut Listing)
        ensures
            *final(listing) == (Listing {
                name: if self.name is Some {
                    self.name->0
                } else {
                    old(listing).name
                },
                description: if self.description is Some {
                    self.description
                } else {
                    old(listing).description
                },
                price_sats: if self.price_sats is Some {
                    self.price_sats->0
                } else {
                    old(listing).price_sats
                },
                lud16: if self.lud16 is Some {
                    self.lud16
                } else {
                    old(listing).lud16
                },
                available: if self.available is Some {
                    self.available->0
                } else {
                    old(listing).available
                },
                photos_json: if self.photos_json is Some {
                    self.photos_json->0
                } else {
                    old(listing).photos_json
                },
                updated_at: self.updated_at,
                ..*old(listing)
            }),
    {
        match &self.name {
            Some(name) => {
                listing.name = name.clone();
            },
            None => {},
        }
        if self.description.is_some() {
            listing.description = copy_option(&self.description);
        }
        match self.price_sats {
            Some(price) => {
                listing.price_sats = price;
            },
            None => {},
        }
        if self.lud16.is_some() {
            listing.lud16 = copy_option(&self.lud16);
        }
        match self.available {
            Some(available) => {
                listing.available = available;
            },
            None => {},
        }
        match &self.photos_json {
            Some(photos) => {
                listing.photos_json = photos.clone();
            },
            None => {},
        }
        listing.updated_at = self.updated_at;
    }
}

} // verus!

//! Bookings.

use vstd::prelude::*;
use vstd::string::*;

use crate::auth::AuthUser;
use crate::db::Booking;
use crate::db::BookingChange;
use crate::db::changes::BookingChangeView;
use crate::error::AppError;
use crate::error::AppResult;
use crate::error::ErrorView;
use crate::error::refused_as;
use crate::money::fee_fits_unsigned;
use crate::money::fee_of;
use crate::money::split_fee_unsigned;
use crate::services::push::BookingNotice;
use crate::services::push::BookingNoticeView;
use crate::text::copy_option;
use crate::text::or_default;
use crate::text::or_text;
use crate::text::same;

verus! {

/// A booking as it is asked for, without the pickup coordinates.
pub struct CreateBookingRequest {
    pub listing_id: String,
    pub booking_type: Option<String>,
    pub amount_sats: i64,
    pub lud16_refund: Option<String>,
    pub ride_id: Option<String>,
    pub pickup_text: Option<String>,
    pub destination_text: Option<String>,
}

pub struct UpdateStatusRequest {
    pub status: String,
}

/// The booking type that a request asks for.
pub open spec fn requested_type(body: CreateBookingRequest) -> Seq<char> {
    or_text(body.booking_type.deep_view(), "listing"@)
}

/// Why a booking is not entered, if it is not.
pub open spec fn create_refusal(body: CreateBookingRequest, listing_exists: bool) -> Option<
    ErrorView,
> {
    if !listing_exists {
        Some(ErrorView::NotFound("listing "@ + body.listing_id@ + " not found"@))
    } else if body.amount_sats < 1 {
        Some(ErrorView::BadRequest("amount_sats must be positive"@))
    } else if requested_type(body) != "listing"@ && requested_type(body) != "ride"@ {
        Some(ErrorView::BadRequest("booking_type must be listing or ride"@))
    } else {
        None
    }
}

/// The row that a booking request becomes: pending, with the platform's fee set.
pub fn create(
    auth: &AuthUser,
    body: &CreateBookingRequest,
    listing_exists: bool,
    escrow_fee_bps: u64,
    id: String,
    now: i64,
) -> (r: AppResult<Booking>)
    requires
        listing_exists && body.amount_sats >= 1 ==> fee_fits_unsigned(
            body.amount_sats,
            escrow_fee_bps,
        ),
    ensures
        refused_as(r, create_refusal(*body, listing_exists)),
        r matches Ok(b) ==> {
            &&& b.id == id
            &&& b.listing_id == body.listing_id
            &&& b.booker_npub == auth.npub
            &&& b.booking_type@ == requested_type(*body)
            &&& b.status@ == "pending"@
            &&& b.amount_sats == body.amount_sats
            &&& b.fee_sats == fee_of(body.amount_sats as int, escrow_fee_bps as int)
            &&& b.lud16_refund == body.lud16_refund
            &&& b.ride_id == body.ride_id
            &&& b.pickup_text == body.pickup_text
            &&& b.destination_text == body.destination_text
            &&& b.created_at == now
            &&& b.updated_at == now
            &&& b.payment_hash is None
            &&& b.payment_request is None
            &&& b.invoice_expires_at is None
            &&& b.funded_at is None
            &&& b.held_at is None
            &&& b.released_at is None
            &&& b.disputed_at is None
            &&& b.refunded_at is None
            &&& b.completed_at is None
            &&& b.rider_confirmed_at is None
            &&& b.driver_confirmed_at is None
            &&& b.pickup_confirmed_at is None
            &&& b.cancelled_at is None
        },
{
    if !listing_exists {
        let mut m: String = "listing ".to_owned();
        m.append(body.listing_id.as_str());
        m.append(" not found");
        return Err(AppError::NotFound(m));
    }
    if body.amount_sats < 1 {
        return Err(AppError::bad_request("amount_sats must be positive"));
    }
    let fee_sats: i64 = split_fee_unsigned(body.amount_sats, escrow_fee_bps).fee_sats;
    let booking_type: String = or_default(&body.booking_type, "listing");
    if !same(booking_type.as_str(), "listing") && !same(booking_type.as_str(), "ride") {
        return Err(AppError::bad_request("booking_type must be listing or ride"));
    }
    Ok(
        Booking {
            id,
            listing_id: body.listing_id.clone(),
            booker_npub: auth.npub.clone(),
            booking_type,
            status: "pending".to_owned(),
            amount_sats: body.amount_sats,
            fee_sats,
            lud16_refund: copy_option(&body.lud16_refund),
            payment_hash: None,
            payment_request: None,
            invoice_expires_at: None,
            ride_id: copy_option(&body.ride_id),
            pickup_text: copy_option(&body.pickup_text),
            destination_text: copy_option(&body.destination_text),
            funded_at: None,
            held_at: None,
            released_at: None,
            disputed_at: None,
            refunded_at: None,
            completed_at: None,
            rider_confirmed_at: None,
            driver_confirmed_at: None,
            pickup_confirmed_at: None,
            cancelled_at: None,
            created_at: now,
            updated_at: now,
        },
    )
}

/// Whether a user may see a booking: only its booker and the owner of its listing.
pub fn get_one(auth: &AuthUser, booking: &Booking, is_owner: bool) -> (r: AppResult<()>)
    ensures
        refused_as(
            r,
            if booking.booker_npub@ != auth.npub@ && !is_owner {
                Some(ErrorView::Unauthorized("access denied"@))
            } else {
                None
            },
        ),
{
    if booking.booker_npub != auth.npub && !is_owner {
        return Err(AppError::unauthorized("access denied"));
    }
    Ok(())
}

/// Why a status update is refused, if it is. Only the merchant's acknowledgement of
/// the funds goes this way.
pub open spec fn update_refusal(
    requested: Seq<char>,
    status: Seq<char>,
    is_listing_owner: bool,
) -> Option<ErrorView> {
    if requested != "held"@ {
        Some(ErrorView::BadRequest("use /escrow routes for release, dispute, and refund"@))
    } else if !is_listing_owner {
        Some(ErrorView::Unauthorized("only the merchant can confirm receipt"@))
    } else if status != "funded"@ {
        Some(ErrorView::BadRequest("can't transition from '"@ + status + "' to 'held'"@))
    } else {
        None
    }
}

/// What becomes of a booking whose merchant acknowledges the funds, and what its
/// booker is told.
pub fn update_status(
    booking: &Booking,
    body: &UpdateStatusRequest,
    is_listing_owner: bool,
    now: i64,
) -> (r: AppResult<(BookingChange, BookingNotice)>)
    ensures
        refused_as(r, update_refusal(body.status@, booking.status@, is_listing_owner)),
        r matches Ok(plan) ==> plan.0@ == (BookingChangeView::Hold { at: now }) && plan.1@
            == booker_notice(
            booking.id@,
            "Merchant confirmed"@,
            "Your funds are held in escrow."@,
        ),
{
    if !same(body.status.as_str(), "held") {
        return Err(AppError::bad_request("use /escrow routes for release, dispute, and refund"));
    }
    if !is_listing_owner {
        return Err(AppError::unauthorized("only the merchant can confirm receipt"));
    }
    if !same(booking.status.as_str(), "funded") {
        let mut m: String = "can't transition from '".to_owned();
        m.append(booking.status.as_str());
        m.append("' to 'held'");
        return Err(AppError::BadRequest(m));
    }
    Ok(
        (
            BookingChange::Hold { at: now },
            notify_booker(booking, "Merchant confirmed", "Your funds are held in escrow."),
        ),
    )
}

/// The booking of a given id, where there is one.
pub fn fetch_booking(found: Option<Booking>, id: &str) -> (r: AppResult<Booking>)
    ensures
        refused_as(
            r,
            if found is None {
                Some(ErrorView::NotFound("booking "@ + id@ + " not found"@))
            } else {
                None
            },
        ),
        r matches Ok(b) ==> found == Some(b),
{
    match found {
        Some(b) => Ok(b),
        None => {
            let mut m: String = "booking ".to_owned();
            m.append(id);
            m.append(" not found");
            Err(AppError::NotFound(m))
        },
    }
}

/// A notification to the booker.
pub open spec fn booker_notice(booking_id: Seq<char>, title: Seq<char>, body: Seq<char>) -> BookingNoticeView {
    BookingNoticeView { title, body, booking_id, kind: "booking_update"@ }
}

/// The notification that a booker gets about a booking.
pub fn notify_booker(booking: &Booking, title: &str, body: &str) -> (r: BookingNotice)
    ensures
        r@ == booker_notice(booking.id@, title@, body@),
{
    BookingNotice {
        title: title.to_owned(),
        body: body.to_owned(),
        booking_id: booking.id.clone(),
        kind: "booking_update".to_owned(),
    }
}

} // verus!

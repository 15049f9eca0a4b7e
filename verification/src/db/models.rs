//! Rows of the database.

use vstd::prelude::*;
use vstd::string::*;

use crate::json::list_or_empty;
use crate::json::listed_in;
use crate::json::parse_string_list;

verus! {

pub struct Identity {
    pub npub: String,
    pub public_key: String,
    pub name: Option<String>,
    pub role: String,
    pub lud16: Option<String>,
    pub created_at: i64,
    pub updated_at: i64,
}

pub struct Listing {
    pub id: String,
    pub owner_npub: String,
    pub nostr_event_id: Option<String>,
    pub category: String,
    pub name: String,
    pub area: String,
    pub description: Option<String>,
    pub price_sats: i64,
    pub price_unit: String,
    pub lud16: Option<String>,
    pub photos_json: String,
    pub phone: Option<String>,
    pub available: i64,
    pub verified: i64,
    pub created_at: i64,
    pub updated_at: i64,
}

impl Listing {
    /// The addresses of the listing's photos.
    pub fn photos(&self) -> (r: Vec<String>)
        ensures
            r.deep_view() == listed_in(self.photos_json@),
    {
        let parsed: Option<Vec<String>> = parse_string_list(self.photos_json.as_str());
        list_or_empty(parsed)
    }
}

/// A booking, without the coordinates that are stored beside it.
pub struct Booking {
    pub id: String,
    pub listing_id: String,
    pub booker_npub: String,
    pub booking_type: String,
    pub status: String,
    pub amount_sats: i64,
    pub fee_sats: i64,
    pub lud16_refund: Option<String>,
    pub payment_hash: Option<String>,
    pub payment_request: Option<String>,
    pub invoice_expires_at: Option<i64>,
    pub ride_id: Option<String>,
    pub pickup_text: Option<String>,
    pub destination_text: Option<String>,
    pub funded_at: Option<i64>,
    pub held_at: Option<i64>,
    pub released_at: Option<i64>,
    pub disputed_at: Option<i64>,
    pub refunded_at: Option<i64>,
    pub completed_at: Option<i64>,
    pub rider_confirmed_at: Option<i64>,
    pub driver_confirmed_at: Option<i64>,
    pub pickup_confirmed_at: Option<i64>,
    pub cancelled_at: Option<i64>,
    pub created_at: i64,
    pub updated_at: i64,
}

pub struct BookingView {
    pub id: Seq<char>,
    pub listing_id: Seq<char>,
    pub booker_npub: Seq<char>,
    pub booking_type: Seq<char>,
    pub status: Seq<char>,
    pub amount_sats: i64,
    pub fee_sats: i64,
    pub lud16_refund: Option<Seq<char>>,
    pub payment_hash: Option<Seq<char>>,
    pub payment_request: Option<Seq<char>>,
    pub invoice_expires_at: Option<i64>,
    pub ride_id: Option<Seq<char>>,
    pub pickup_text: Option<Seq<char>>,
    pub destination_text: Option<Seq<char>>,
    pub funded_at: Option<i64>,
    pub held_at: Option<i64>,
    pub released_at: Option<i64>,
    pub disputed_at: Option<i64>,
    pub refunded_at: Option<i64>,
    pub completed_at: Option<i64>,
    pub rider_confirmed_at: Option<i64>,
    pub driver_confirmed_at: Option<i64>,
    pub pickup_confirmed_at: Option<i64>,
    pub cancelled_at: Option<i64>,
    pub created_at: i64,
    pub updated_at: i64,
}

impl View for Booking {
    type V = BookingView;

    open spec fn view(&self) -> BookingView {
        BookingView {
            id: self.id@,
            listing_id: self.listing_id@,
            booker_npub: self.booker_npub@,
            booking_type: self.booking_type@,
            status: self.status@,
            amount_sats: self.amount_sats,
            fee_sats: self.fee_sats,
            lud16_refund: self.lud16_refund.deep_view(),
            payment_hash: self.payment_hash.deep_view(),
            payment_request: self.payment_request.deep_view(),
            invoice_expires_at: self.invoice_expires_at,
            ride_id: self.ride_id.deep_view(),
            pickup_text: self.pickup_text.deep_view(),
            destination_text: self.destination_text.deep_view(),
            funded_at: self.funded_at,
            held_at: self.held_at,
            released_at: self.released_at,
            disputed_at: self.disputed_at,
            refunded_at: self.refunded_at,
            completed_at: self.completed_at,
            rider_confirmed_at: self.rider_confirmed_at,
            driver_confirmed_at: self.driver_confirmed_at,
            pickup_confirmed_at: self.pickup_confirmed_at,
            cancelled_at: self.cancelled_at,
            created_at: self.created_at,
            updated_at: self.updated_at,
        }
    }
}

pub struct PushSubscription {
    pub id: String,
    pub npub: String,
    pub endpoint: String,
    pub p256dh: String,
    pub auth: String,
    pub platform: Option<String>,
    pub user_agent: Option<String>,
    pub created_at: i64,
    pub last_used: i64,
}

pub struct NostrCacheEntry {
    pub event_id: String,
    pub kind: i64,
    pub pubkey: String,
    pub d_tag: Option<String>,
    pub t_tags: String,
    pub content: String,
    pub tags_json: String,
    pub created_at: i64,
    pub indexed_at: i64,
}

/// A ride request, without the coordinates and the distance stored beside it.
pub struct RideRequest {
    pub id: String,
    pub rider_pubkey: String,
    pub rider_npub: String,
    pub pickup_text: Option<String>,
    pub dest_text: Option<String>,
    pub vehicle_pref: Option<String>,
    pub ride_category: Option<String>,
    pub fare_sats: i64,
    pub status: String,
    pub matched_driver: Option<String>,
    pub drivers_notified: String,
    pub accept_deadline: Option<i64>,
    pub round: i64,
    pub created_at: i64,
    pub updated_at: i64,
}

pub struct RideRequestView {
    pub id: Seq<char>,
    pub rider_pubkey: Seq<char>,
    pub rider_npub: Seq<char>,
    pub pickup_text: Option<Seq<char>>,
    pub dest_text: Option<Seq<char>>,
    pub vehicle_pref: Option<Seq<char>>,
    pub ride_category: Option<Seq<char>>,
    pub fare_sats: i64,
    pub status: Seq<char>,
    pub matched_driver: Option<Seq<char>>,
    pub drivers_notified: Seq<char>,
    pub accept_deadline: Option<i64>,
    pub round: i64,
    pub created_at: i64,
    pub updated_at: i64,
}

impl View for RideRequest {
    type V = RideRequestView;

    open spec fn view(&self) -> RideRequestView {
        RideRequestView {
            id: self.id@,
            rider_pubkey: self.rider_pubkey@,
            rider_npub: self.rider_npub@,
            pickup_text: self.pickup_text.deep_view(),
            dest_text: self.dest_text.deep_view(),
            vehicle_pref: self.vehicle_pref.deep_view(),
            ride_category: self.ride_category.deep_view(),
            fare_sats: self.fare_sats,
            status: self.status@,
            matched_driver: self.matched_driver.deep_view(),
            drivers_notified: self.drivers_notified@,
            accept_deadline: self.accept_deadline,
            round: self.round,
            created_at: self.created_at,
            updated_at: self.updated_at,
        }
    }
}

/// A payout of a ride straight from the escrow wallet.
pub struct DirectRelease {
    pub id: String,
    pub ride_id: String,
    pub payer_pubkey: String,
    pub lud16: String,
    pub amount_sats: i64,
    pub driver_sats: i64,
    pub fee_sats: i64,
    pub status: String,
    pub error_message: Option<String>,
    pub blink_status: Option<String>,
    pub created_at: i64,
    pub updated_at: i64,
}

pub struct DirectReleaseView {
    pub id: Seq<char>,
    pub ride_id: Seq<char>,
    pub payer_pubkey: Seq<char>,
    pub lud16: Seq<char>,
    pub amount_sats: i64,
    pub driver_sats: i64,
    pub fee_sats: i64,
    pub status: Seq<char>,
    pub error_message: Option<Seq<char>>,
    pub blink_status: Option<Seq<char>>,
    pub created_at: i64,
    pub updated_at: i64,
}

impl View for DirectRelease {
    type V = DirectReleaseView;

    open spec fn view(&self) -> DirectReleaseView {
        DirectReleaseView {
            id: self.id@,
            ride_id: self.ride_id@,
            payer_pubkey: self.payer_pubkey@,
            lud16: self.lud16@,
            amount_sats: self.amount_sats,
            driver_sats: self.driver_sats,
            fee_sats: self.fee_sats,
            status: self.status@,
            error_message: self.error_message.deep_view(),
            blink_status: self.blink_status.deep_view(),
            created_at: self.created_at,
            updated_at: self.updated_at,
        }
    }
}

} // verus!

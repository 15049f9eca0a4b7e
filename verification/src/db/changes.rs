//! Writes to bookings, ride requests and direct releases: on which rows each
//! takes hold, and what it leaves behind.

use vstd::prelude::*;
use vstd::string::*;

use crate::db::models::Booking;
use crate::db::models::BookingView;
use crate::db::models::DirectRelease;
use crate::db::models::DirectReleaseView;
use crate::db::models::RideRequest;
use crate::db::models::RideRequestView;
use crate::text::same;

verus! {

/// A write to the booking of a given id.
pub enum BookingChange {
    /// The invoice was paid.
    Fund { at: i64 },
    /// An invoice was made out.
    AttachInvoice { payment_hash: String, payment_request: String, expires_at: i64, at: i64 },
    /// The merchant acknowledged the funds.
    Hold { at: i64 },
    /// One release takes the booking for itself before it pays.
    ClaimRelease { at: i64 },
    /// One refund takes the booking for itself before it pays.
    ClaimRefund { at: i64 },
    /// The release's payment failed: back to the status from before the claim.
    UndoRelease { status: String, at: i64 },
    /// The refund's payment failed: back to the status from before the claim.
    UndoRefund { status: String, at: i64 },
    /// The merchant was paid.
    Release { at: i64 },
    /// The driver was paid after the waiting time.
    AutoRelease { fee_sats: i64, at: i64 },
    /// The driver was paid after both parties confirmed.
    InstantRelease { fee_sats: i64, at: i64 },
    /// The booker raised a dispute.
    Dispute { at: i64 },
    /// The booker was paid back.
    Refund { at: i64 },
    /// The merchant marked the service as complete.
    Complete { at: i64 },
    /// The driver picked the rider up.
    ConfirmPickup { at: i64 },
    /// The driver confirmed the end of the trip.
    DriverConfirm { at: i64 },
    /// The rider confirmed the end of the trip.
    RiderConfirm { at: i64 },
    /// One party confirmed and the other is waited for.
    AwaitOther { at: i64 },
    /// The booking ends without a service.
    Cancel { at: i64 },
    /// The booking ends before anything was paid in.
    CancelUnpaid { at: i64 },
}

pub enum BookingChangeView {
    Fund { at: i64 },
    AttachInvoice {
        payment_hash: Seq<char>,
        payment_request: Seq<char>,
        expires_at: i64,
        at: i64,
    },
    Hold { at: i64 },
    ClaimRelease { at: i64 },
    ClaimRefund { at: i64 },
    UndoRelease { status: Seq<char>, at: i64 },
    UndoRefund { status: Seq<char>, at: i64 },
    Release { at: i64 },
    AutoRelease { fee_sats: i64, at: i64 },
    InstantRelease { fee_sats: i64, at: i64 },
    Dispute { at: i64 },
    Refund { at: i64 },
    Complete { at: i64 },
    ConfirmPickup { at: i64 },
    DriverConfirm { at: i64 },
    RiderConfirm { at: i64 },
    AwaitOther { at: i64 },
    Cancel { at: i64 },
    CancelUnpaid { at: i64 },
}

impl View for BookingChange {
    type V = BookingChangeView;

    open spec fn view(&self) -> BookingChangeView {
        match self {
            BookingChange::Fund { at } => BookingChangeView::Fund { at: *at },
            BookingChange::AttachInvoice { payment_hash, payment_request, expires_at, at } =>
            BookingChangeView::AttachInvoice {
                payment_hash: payment_hash@,
                payment_request: payment_request@,
                expires_at: *expires_at,
                at: *at,
            },
            BookingChange::Hold { at } => BookingChangeView::Hold { at: *at },
            BookingChange::ClaimRelease { at } => BookingChangeView::ClaimRelease { at: *at },
            BookingChange::ClaimRefund { at } => BookingChangeView::ClaimRefund { at: *at },
            BookingChange::UndoRelease { status, at } => BookingChangeView::UndoRelease {
                status: status@,
                at: *at,
            },
            BookingChange::UndoRefund { status, at } => BookingChangeView::UndoRefund {
                status: status@,
                at: *at,
            },
            BookingChange::Release { at } => BookingChangeView::Release { at: *at },
            BookingChange::AutoRelease { fee_sats, at } => BookingChangeView::AutoRelease {
                fee_sats: *fee_sats,
                at: *at,
            },
            BookingChange::InstantRelease { fee_sats, at } => BookingChangeView::InstantRelease {
                fee_sats: *fee_sats,
                at: *at,
            },
            BookingChange::Dispute { at } => BookingChangeView::Dispute { at: *at },
            BookingChange::Refund { at } => BookingChangeView::Refund { at: *at },
            BookingChange::Complete { at } => BookingChangeView::Complete { at: *at },
            BookingChange::ConfirmPickup { at } => BookingChangeView::ConfirmPickup { at: *at },
            BookingChange::DriverConfirm { at } => BookingChangeView::DriverConfirm { at: *at },
            BookingChange::RiderConfirm { at } => BookingChangeView::RiderConfirm { at: *at },
            BookingChange::AwaitOther { at } => BookingChangeView::AwaitOther { at: *at },
            BookingChange::Cancel { at } => BookingChangeView::Cancel { at: *at },
            BookingChange::CancelUnpaid { at } => BookingChangeView::CancelUnpaid { at: *at },
        }
    }
}

pub open spec fn funded_or_held(status: Seq<char>) -> bool {
    status == "funded"@ || status == "held"@
}

/// Funds are in escrow and the service is not known to be over.
pub open spec fn under_way(status: Seq<char>) -> bool {
    funded_or_held(status) || status == "in_progress"@
}

/// The booker can release the funds: they are in escrow, or the service is over and
/// they are about to be released by themselves.
pub open spec fn releasable(status: Seq<char>) -> bool {
    funded_or_held(status) || status == "completed"@
}

impl BookingChangeView {
    /// Whether the write takes hold on a row, going by the row's status alone.
    pub open spec fn applies(self, row: BookingView) -> bool {
        match self {
            BookingChangeView::Fund { .. } => row.status == "pending"@,
            BookingChangeView::ClaimRelease { .. } => releasable(row.status),
            BookingChangeView::ClaimRefund { .. } => funded_or_held(row.status),
            BookingChangeView::UndoRelease { .. } => row.status == "releasing"@,
            BookingChangeView::UndoRefund { .. } => row.status == "refunding"@,
            BookingChangeView::AutoRelease { .. } => row.status == "completed"@ || row.status
                == "in_progress"@,
            BookingChangeView::Complete { .. } => under_way(row.status),
            BookingChangeView::AwaitOther { .. } => row.status != "released"@,
            BookingChangeView::CancelUnpaid { .. } => row.status == "pending"@,
            _ => true,
        }
    }

    /// What the write makes of a row on which it takes hold.
    pub open spec fn written(self, row: BookingView) -> BookingView {
        match self {
            BookingChangeView::Fund { at } => BookingView {
                status: "funded"@,
                funded_at: Some(at),
                updated_at: at,
                ..row
            },
            BookingChangeView::AttachInvoice { payment_hash, payment_request, expires_at, at } =>
            BookingView {
                payment_hash: Some(payment_hash),
                payment_request: Some(payment_request),
                invoice_expires_at: Some(expires_at),
                updated_at: at,
                ..row
            },
            BookingChangeView::Hold { at } => BookingView {
                status: "held"@,
                held_at: Some(at),
                updated_at: at,
                ..row
            },
            BookingChangeView::ClaimRelease { at } => BookingView {
                status: "releasing"@,
                updated_at: at,
                ..row
            },
            BookingChangeView::ClaimRefund { at } => BookingView {
                status: "refunding"@,
                updated_at: at,
                ..row
            },
            BookingChangeView::UndoRelease { status, at } => BookingView {
                status,
                updated_at: at,
                ..row
            },
            BookingChangeView::UndoRefund { status, at } => BookingView {
                status,
                updated_at: at,
                ..row
            },
            BookingChangeView::Release { at } => BookingView {
                status: "released"@,
                released_at: Some(at),
                updated_at: at,
                ..row
            },
            BookingChangeView::AutoRelease { fee_sats, at } => BookingView {
                status: "released"@,
                fee_sats,
                released_at: Some(at),
                updated_at: at,
                ..row
            },
            BookingChangeView::InstantRelease { fee_sats, at } => BookingView {
                status: "released"@,
                fee_sats,
                released_at: Some(at),
                completed_at: if row.completed_at is Some {
                    row.completed_at
                } else {
                    Some(at)
                },
                updated_at: at,
                ..row
            },
            BookingChangeView::Dispute { at } => BookingView {
                status: "disputed"@,
                disputed_at: Some(at),
                updated_at: at,
                ..row
            },
            BookingChangeView::Refund { at } => BookingView {
                status: "refunded"@,
                refunded_at: Some(at),
                updated_at: at,
                ..row
            },
            BookingChangeView::Complete { at } => BookingView {
                status: "completed"@,
                completed_at: Some(at),
                updated_at: at,
                ..row
            },
            BookingChangeView::ConfirmPickup { at } => BookingView {
                status: "in_progress"@,
                pickup_confirmed_at: Some(at),
                updated_at: at,
                ..row
            },
            BookingChangeView::DriverConfirm { at } => BookingView {
                driver_confirmed_at: Some(at),
                updated_at: at,
                ..row
            },
            BookingChangeView::RiderConfirm { at } => BookingView {
                rider_confirmed_at: Some(at),
                updated_at: at,
                ..row
            },
            BookingChangeView::AwaitOther { at } => BookingView {
                status: "completed"@,
                completed_at: Some(at),
                ..row
            },
            BookingChangeView::Cancel { at } => BookingView {
                status: "cancelled"@,
                cancelled_at: Some(at),
                updated_at: at,
                ..row
            },
            BookingChangeView::CancelUnpaid { at } => BookingView {
                status: "cancelled"@,
                cancelled_at: Some(at),
                updated_at: at,
                ..row
            },
        }
    }

    /// The row after the write.
    pub open spec fn after(self, row: BookingView) -> BookingView {
        if self.applies(row) {
            self.written(row)
        } else {
            row
        }
    }
}

/// Whether the status is `funded` or `held`.
pub fn is_funded_or_held(status: &str) -> (r: bool)
    ensures
        r == funded_or_held(status@),
{
    same(status, "funded") || same(status, "held")
}

/// Whether the status is `funded`, `held` or `in_progress`.
pub fn is_under_way(status: &str) -> (r: bool)
    ensures
        r == under_way(status@),
{
    is_funded_or_held(status) || same(status, "in_progress")
}

/// Whether the status is `funded`, `held` or `completed`.
pub fn is_releasable(status: &str) -> (r: bool)
    ensures
        r == releasable(status@),
{
    is_funded_or_held(status) || same(status, "completed")
}

impl BookingChange {
    /// Whether the write takes hold on the row.
    pub fn applies(&self, row: &Booking) -> (r: bool)
        ensures
            r == self@.applies(row@),
    {
        let status: &str = row.status.as_str();
        match self {
            BookingChange::Fund { .. } => same(status, "pending"),
            BookingChange::ClaimRelease { .. } => is_releasable(status),
            BookingChange::ClaimRefund { .. } => is_funded_or_held(status),
            BookingChange::UndoRelease { .. } => same(status, "releasing"),
            BookingChange::UndoRefund { .. } => same(status, "refunding"),
            BookingChange::AutoRelease { .. } => same(status, "completed") || same(
                status,
                "in_progress",
            ),
            BookingChange::Complete { .. } => is_under_way(status),
            BookingChange::AwaitOther { .. } => !same(status, "released"),
            BookingChange::CancelUnpaid { .. } => same(status, "pending"),
            _ => true,
        }
    }

    /// Carries the write out on the row, and tells how many rows it took hold on:
    /// one or none.
    pub fn apply(&self, row: &mut Booking) -> (rows: u64)
        ensures
            final(row)@ == self@.after(old(row)@),
            rows == if self@.applies(old(row)@) {
                1u64
            } else {
                0u64
            },
    {
        if !self.applies(row) {
            return 0;
        }
        match self {
            BookingChange::Fund { at } => {
                row.status = "funded".to_owned();
                row.funded_at = Some(*at);
                row.updated_at = *at;
            },
            BookingChange::AttachInvoice { payment_hash, payment_request, expires_at, at } => {
                row.payment_hash = Some(payment_hash.clone());
                row.payment_request = Some(payment_request.clone());
                row.invoice_expires_at = Some(*expires_at);
                row.updated_at = *at;
            },
            BookingChange::Hold { at } => {
                row.status = "held".to_owned();
                row.held_at = Some(*at);
                row.updated_at = *at;
            },
            BookingChange::ClaimRelease { at } => {
                row.status = "releasing".to_owned();
                row.updated_at = *at;
            },
            BookingChange::ClaimRefund { at } => {
                row.status = "refunding".to_owned();
                row.updated_at = *at;
            },
            BookingChange::UndoRelease { status, at } => {
                row.status = status.clone();
                row.updated_at = *at;
            },
            BookingChange::UndoRefund { status, at } => {
                row.status = status.clone();
                row.updated_at = *at;
            },
            BookingChange::Release { at } => {
                row.status = "released".to_owned();
                row.released_at = Some(*at);
                row.updated_at = *at;
            },
            BookingChange::AutoRelease { fee_sats, at } => {
                row.status = "released".to_owned();
                row.fee_sats = *fee_sats;
                row.released_at = Some(*at);
                row.updated_at = *at;
            },
            BookingChange::InstantRelease { fee_sats, at } => {
                row.status = "released".to_owned();
                row.fee_sats = *fee_sats;
                row.released_at = Some(*at);
                if row.completed_at.is_none() {
                    row.completed_at = Some(*at);
                }
                row.updated_at = *at;
            },
            BookingChange::Dispute { at } => {
                row.status = "disputed".to_owned();
                row.disputed_at = Some(*at);
                row.updated_at = *at;
            },
            BookingChange::Refund { at } => {
                row.status = "refunded".to_owned();
                row.refunded_at = Some(*at);
                row.updated_at = *at;
            },
            BookingChange::Complete { at } => {
                row.status = "completed".to_owned();
                row.completed_at = Some(*at);
                row.updated_at = *at;
            },
            BookingChange::ConfirmPickup { at } => {
                row.status = "in_progress".to_owned();
                row.pickup_confirmed_at = Some(*at);
                row.updated_at = *at;
            },
            BookingChange::DriverConfirm { at } => {
                row.driver_confirmed_at = Some(*at);
                row.updated_at = *at;
            },
            BookingChange::RiderConfirm { at } => {
                row.rider_confirmed_at = Some(*at);
                row.updated_at = *at;
            },
            BookingChange::AwaitOther { at } => {
                row.status = "completed".to_owned();
                row.completed_at = Some(*at);
            },
            BookingChange::Cancel { at } => {
                row.status = "cancelled".to_owned();
                row.cancelled_at = Some(*at);
                row.updated_at = *at;
            },
            BookingChange::CancelUnpaid { at } => {
                row.status = "cancelled".to_owned();
                row.cancelled_at = Some(*at);
                row.updated_at = *at;
            },
        }
        1
    }
}

/// A write to the ride request of a given id.
pub enum RideChange {
    /// A driver takes the ride.
    Accept { driver: String, at: i64 },
    /// The fare is set from the driver's own price.
    SetFare { fare_sats: i64, at: i64 },
    /// The ride goes back to the search for a driver.
    Reopen { at: i64 },
    /// The driver was paid.
    Complete { at: i64 },
    /// The rider asks a driver of the rider's own choice.
    Ask { driver: String, at: i64 },
}

pub enum RideChangeView {
    Accept { driver: Seq<char>, at: i64 },
    SetFare { fare_sats: i64, at: i64 },
    Reopen { at: i64 },
    Complete { at: i64 },
    Ask { driver: Seq<char>, at: i64 },
}

impl View for RideChange {
    type V = RideChangeView;

    open spec fn view(&self) -> RideChangeView {
        match self {
            RideChange::Accept { driver, at } => RideChangeView::Accept {
                driver: driver@,
                at: *at,
            },
            RideChange::SetFare { fare_sats, at } => RideChangeView::SetFare {
                fare_sats: *fare_sats,
                at: *at,
            },
            RideChange::Reopen { at } => RideChangeView::Reopen { at: *at },
            RideChange::Complete { at } => RideChangeView::Complete { at: *at },
            RideChange::Ask { driver, at } => RideChangeView::Ask { driver: driver@, at: *at },
        }
    }
}

impl RideChangeView {
    /// Whether the write takes hold on a row: a ride is taken only while a driver
    /// is searched for, and not after the time until which it can be taken.
    pub open spec fn applies(self, row: RideRequestView) -> bool {
        match self {
            RideChangeView::Accept { at, .. } => row.status == "searching"@ && (
            row.accept_deadline matches Some(d) ==> at <= d),
            _ => true,
        }
    }

    pub open spec fn written(self, row: RideRequestView) -> RideRequestView {
        match self {
            RideChangeView::Accept { driver, at } => RideRequestView {
                status: "accepted"@,
                matched_driver: Some(driver),
                updated_at: at,
                ..row
            },
            RideChangeView::SetFare { fare_sats, at } => RideRequestView {
                fare_sats,
                updated_at: at,
                ..row
            },
            RideChangeView::Reopen { at } => RideRequestView {
                status: "searching"@,
                matched_driver: None,
                updated_at: at,
                ..row
            },
            RideChangeView::Complete { at } => RideRequestView {
                status: "completed"@,
                updated_at: at,
                ..row
            },
            RideChangeView::Ask { driver, at } => RideRequestView {
                status: "pending"@,
                matched_driver: Some(driver),
                updated_at: at,
                ..row
            },
        }
    }

    /// The row after the write.
    pub open spec fn after(self, row: RideRequestView) -> RideRequestView {
        if self.applies(row) {
            self.written(row)
        } else {
            row
        }
    }
}

impl RideChange {
    /// Carries the write out on the row, and tells how many rows it took hold on:
    /// one or none.
    pub fn apply(&self, row: &mut RideRequest) -> (rows: u64)
        ensures
            final(row)@ == self@.after(old(row)@),
            rows == if self@.applies(old(row)@) {
                1u64
            } else {
                0u64
            },
    {
        match self {
            RideChange::Accept { driver, at } => {
                if !same(row.status.as_str(), "searching") {
                    return 0;
                }
                match row.accept_deadline {
                    Some(deadline) => {
                        if *at > deadline {
                            return 0;
                        }
                    },
                    None => {},
                }
                row.status = "accepted".to_owned();
                row.matched_driver = Some(driver.clone());
                row.updated_at = *at;
            },
            RideChange::SetFare { fare_sats, at } => {
                row.fare_sats = *fare_sats;
                row.updated_at = *at;
            },
            RideChange::Reopen { at } => {
                row.status = "searching".to_owned();
                row.matched_driver = None;
                row.updated_at = *at;
            },
            RideChange::Complete { at } => {
                row.status = "completed".to_owned();
                row.updated_at = *at;
            },
            RideChange::Ask { driver, at } => {
                row.status = "pending".to_owned();
                row.matched_driver = Some(driver.clone());
                row.updated_at = *at;
            },
        }
        1
    }
}

/// A direct release that stands in the way of another one for its ride.
pub open spec fn open_release(row: DirectReleaseView) -> bool {
    row.status == "pending"@ || row.status == "released"@
}

/// Whether a new release may be entered for a ride: no open one is there.
pub open spec fn may_enter(rows: Seq<DirectReleaseView>, ride_id: Seq<char>) -> bool {
    forall|i: int|
        0 <= i < rows.len() ==> !((#[trigger] rows[i]).ride_id == ride_id && open_release(rows[i]))
}

/// What the database reports when a release is entered, if it reports anything: of the
/// open releases there is one for a ride.
pub open spec fn entry_error(rows: Seq<DirectReleaseView>, row: DirectReleaseView) -> Option<
    Seq<char>,
> {
    if open_release(row) && !may_enter(rows, row.ride_id) {
        Some("UNIQUE constraint failed: direct_releases.ride_id"@)
    } else {
        None
    }
}

/// The releases by their contents.
pub open spec fn release_views(rows: Seq<DirectRelease>) -> Seq<DirectReleaseView> {
    rows.map_values(|row: DirectRelease| row@)
}

fn is_open(row: &DirectRelease) -> (r: bool)
    ensures
        r == open_release(row@),
{
    same(row.status.as_str(), "pending") || same(row.status.as_str(), "released")
}

fn can_enter(rows: &Vec<DirectRelease>, ride_id: &str) -> (r: bool)
    ensures
        r == may_enter(release_views(rows@), ride_id@),
{
    let ghost all = release_views(rows@);
    let mut i: usize = 0;
    while i < rows.len()
        invariant
            i <= rows@.len(),
            all == release_views(rows@),
            forall|j: int|
                0 <= j < i ==> !((#[trigger] all[j]).ride_id == ride_id@ && open_release(all[j])),
        decreases rows@.len() - i,
    {
        assert(all[i as int] == rows@[i as int]@);
        if same(rows[i].ride_id.as_str(), ride_id) && is_open(&rows[i]) {
            return false;
        }
        i = i + 1;
    }
    true
}

/// Enters a release among the others, and tells what the database reports. A release that
/// is refused leaves the others as they are.
pub fn enter_release(rows: &mut Vec<DirectRelease>, row: DirectRelease) -> (error: Option<String>)
    ensures
        error.deep_view() == entry_error(release_views(old(rows)@), row@),
        release_views(final(rows)@) == (if error is None {
            release_views(old(rows)@).push(row@)
        } else {
            release_views(old(rows)@)
        }),
{
    if is_open(&row) && !can_enter(rows, row.ride_id.as_str()) {
        return Some("UNIQUE constraint failed: direct_releases.ride_id".to_owned());
    }
    let ghost before = rows@;
    rows.push(row);
    assert(release_views(rows@) =~= release_views(before).push(row@));
    None
}

} // verus!

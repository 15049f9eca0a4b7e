//! Confirmation of a trip by both parties.
//!
//! The driver confirms the pickup, and then each of the two confirms the end of the
//! trip, in either order. Once both have, the driver is paid at once. If only one of
//! the two has confirmed, the payment follows after 30 minutes; if neither has, 2 hours
//! after the pickup. Before the pickup the rider can cancel, and is paid back in full.

use vstd::prelude::*;
use vstd::string::*;

use crate::auth::AuthUser;
use crate::db::Booking;
use crate::db::BookingChange;
use crate::db::changes::BookingChangeView;
use crate::db::changes::funded_or_held;
use crate::db::changes::is_funded_or_held;
use crate::db::changes::is_under_way;
use crate::db::changes::under_way;
use crate::db::models::BookingView;
use crate::error::AppError;
use crate::error::AppResult;
use crate::error::ErrorView;
use crate::error::refused_as;
use crate::money::FeeSplit;
use crate::money::Payment;
use crate::money::PaymentView;
use crate::money::can_compute_fee;
use crate::money::fee_fits;
use crate::money::fee_of;
use crate::money::split_fee;
use crate::text::byte_prefix;
use crate::text::can_cut;
use crate::text::cut;
use crate::text::has_byte_prefix;
use crate::text::same;

verus! {

pub struct ConfirmResponse {
    pub booking_id: String,
    pub status: String,
    pub rider_confirmed: bool,
    pub driver_confirmed: bool,
    pub released: bool,
    pub released_sats: i64,
    pub fee_sats: i64,
}

pub struct ConfirmView {
    pub booking_id: Seq<char>,
    pub status: Seq<char>,
    pub rider_confirmed: bool,
    pub driver_confirmed: bool,
    pub released: bool,
    pub released_sats: i64,
    pub fee_sats: i64,
}

impl View for ConfirmResponse {
    type V = ConfirmView;

    open spec fn view(&self) -> ConfirmView {
        ConfirmView {
            booking_id: self.booking_id@,
            status: self.status@,
            rider_confirmed: self.rider_confirmed,
            driver_confirmed: self.driver_confirmed,
            released: self.released,
            released_sats: self.released_sats,
            fee_sats: self.fee_sats,
        }
    }
}

/// The user owns the listing whose owner is given.
pub open spec fn is_owner(npub: Seq<char>, owner_npub: Option<Seq<char>>) -> bool {
    owner_npub == Some(npub)
}

fn owns(auth: &AuthUser, owner_npub: &Option<String>) -> (r: bool)
    ensures
        r == is_owner(auth.npub@, owner_npub.deep_view()),
{
    match owner_npub {
        Some(owner) => *owner == auth.npub,
        None => false,
    }
}

/// Why a pickup is not confirmed, if it is not.
pub open spec fn pickup_refusal(
    npub: Seq<char>,
    booking: BookingView,
    owner_npub: Option<Seq<char>>,
) -> Option<ErrorView> {
    if !is_owner(npub, owner_npub) {
        Some(ErrorView::Unauthorized("only the driver can confirm pickup"@))
    } else if !funded_or_held(booking.status) {
        Some(ErrorView::BadRequest("cannot confirm pickup from status '"@ + booking.status + "'"@))
    } else {
        None
    }
}

/// The driver confirms that the rider was picked up.
pub fn confirm_pickup(
    auth: &AuthUser,
    booking: &Booking,
    owner_npub: &Option<String>,
    now: i64,
) -> (r: AppResult<(BookingChange, ConfirmResponse)>)
    ensures
        refused_as(r, pickup_refusal(auth.npub@, booking@, owner_npub.deep_view())),
        r matches Ok(done) ==> done.0@ == (BookingChangeView::ConfirmPickup { at: now }) && done.1@
            == (ConfirmView {
            booking_id: booking.id@,
            status: "in_progress"@,
            rider_confirmed: false,
            driver_confirmed: false,
            released: false,
            released_sats: 0,
            fee_sats: 0,
        }),
{
    if !owns(auth, owner_npub) {
        return Err(AppError::unauthorized("only the driver can confirm pickup"));
    }
    if !is_funded_or_held(booking.status.as_str()) {
        let mut m: String = "cannot confirm pickup from status '".to_owned();
        m.append(booking.status.as_str());
        m.append("'");
        return Err(AppError::BadRequest(m));
    }
    Ok(
        (
            BookingChange::ConfirmPickup { at: now },
            ConfirmResponse {
                booking_id: booking.id.clone(),
                status: "in_progress".to_owned(),
                rider_confirmed: false,
                driver_confirmed: false,
                released: false,
                released_sats: 0,
                fee_sats: 0,
            },
        ),
    )
}

/// What a confirmation of a trip's end leads to.
pub enum Confirmation {
    /// The other party had confirmed: the driver is paid at once.
    ReleaseNow { release: InstantRelease },
    /// The other party is waited for: what is written, and what is answered.
    Wait { change: BookingChange, answer: ConfirmResponse },
}

/// The confirmation's own write, and what it leads to.
pub struct ConfirmPlan {
    pub change: BookingChange,
    pub next: Confirmation,
}

/// What the party that confirmed first is answered.
pub open spec fn waiting_answer(booking_id: Seq<char>, rider: bool) -> ConfirmView {
    ConfirmView {
        booking_id,
        status: "completed"@,
        rider_confirmed: rider,
        driver_confirmed: !rider,
        released: false,
        released_sats: 0,
        fee_sats: 0,
    }
}

/// What a confirmation leads to, given whether the other party had confirmed.
pub open spec fn confirmation_follows(
    next: Confirmation,
    booking: BookingView,
    other_confirmed: bool,
    rider: bool,
    now: i64,
) -> bool {
    match next {
        Confirmation::ReleaseNow { release } => {
            &&& other_confirmed
            &&& release.booking_id() == booking.id
            &&& release.amount_sats() == booking.amount_sats
        },
        Confirmation::Wait { change, answer } => {
            &&& !other_confirmed
            &&& change@ == BookingChangeView::AwaitOther { at: now }
            &&& answer@ == waiting_answer(booking.id, rider)
        },
    }
}

fn next_step(booking: &Booking, other_confirmed: bool, rider: bool, now: i64) -> (r: Confirmation)
    ensures
        confirmation_follows(r, booking@, other_confirmed, rider, now),
{
    if other_confirmed {
        Confirmation::ReleaseNow {
            release: InstantRelease {
                booking_id: booking.id.clone(),
                amount_sats: booking.amount_sats,
            },
        }
    } else {
        Confirmation::Wait {
            change: BookingChange::AwaitOther { at: now },
            answer: ConfirmResponse {
                booking_id: booking.id.clone(),
                status: "completed".to_owned(),
                rider_confirmed: rider,
                driver_confirmed: !rider,
                released: false,
                released_sats: 0,
                fee_sats: 0,
            },
        }
    }
}

/// Why the driver's confirmation is not taken, if it is not.
pub open spec fn driver_confirm_refusal(
    npub: Seq<char>,
    booking: BookingView,
    owner_npub: Option<Seq<char>>,
) -> Option<ErrorView> {
    if !is_owner(npub, owner_npub) {
        Some(ErrorView::Unauthorized("only the driver can confirm completion"@))
    } else if !under_way(booking.status) && !(booking.status == "completed"@
        && booking.rider_confirmed_at is Some) {
        Some(ErrorView::BadRequest("cannot confirm from status '"@ + booking.status + "'"@))
    } else {
        None
    }
}

/// The driver confirms the end of the trip, before the rider or after.
pub fn driver_confirm(
    auth: &AuthUser,
    booking: &Booking,
    owner_npub: &Option<String>,
    now: i64,
) -> (r: AppResult<ConfirmPlan>)
    ensures
        refused_as(r, driver_confirm_refusal(auth.npub@, booking@, owner_npub.deep_view())),
        r matches Ok(plan) ==> plan.change@ == (BookingChangeView::DriverConfirm { at: now })
            && confirmation_follows(
            plan.next,
            booking@,
            booking.rider_confirmed_at is Some,
            false,
            now,
        ),
{
    if !owns(auth, owner_npub) {
        return Err(AppError::unauthorized("only the driver can confirm completion"));
    }
    if !is_under_way(booking.status.as_str()) && !(same(booking.status.as_str(), "completed")
        && booking.rider_confirmed_at.is_some()) {
        let mut m: String = "cannot confirm from status '".to_owned();
        m.append(booking.status.as_str());
        m.append("'");
        return Err(AppError::BadRequest(m));
    }
    Ok(
        ConfirmPlan {
            change: BookingChange::DriverConfirm { at: now },
            next: next_step(booking, booking.rider_confirmed_at.is_some(), false, now),
        },
    )
}

/// Why the rider's confirmation is not taken, if it is not.
pub open spec fn rider_confirm_refusal(npub: Seq<char>, booking: BookingView) -> Option<ErrorView> {
    if booking.booker_npub != npub {
        Some(ErrorView::Unauthorized("only the rider can confirm"@))
    } else if !under_way(booking.status) && booking.status != "completed"@ {
        Some(ErrorView::BadRequest("cannot confirm from status '"@ + booking.status + "'"@))
    } else {
        None
    }
}

/// The rider confirms the end of the trip, before the driver or after.
pub fn rider_confirm(auth: &AuthUser, booking: &Booking, now: i64) -> (r: AppResult<ConfirmPlan>)
    ensures
        refused_as(r, rider_confirm_refusal(auth.npub@, booking@)),
        r matches Ok(plan) ==> plan.change@ == (BookingChangeView::RiderConfirm { at: now })
            && confirmation_follows(
            plan.next,
            booking@,
            booking.driver_confirmed_at is Some,
            true,
            now,
        ),
{
    if booking.booker_npub != auth.npub {
        return Err(AppError::unauthorized("only the rider can confirm"));
    }
    if !is_under_way(booking.status.as_str()) && !same(booking.status.as_str(), "completed") {
        let mut m: String = "cannot confirm from status '".to_owned();
        m.append(booking.status.as_str());
        m.append("'");
        return Err(AppError::BadRequest(m));
    }
    Ok(
        ConfirmPlan {
            change: BookingChange::RiderConfirm { at: now },
            next: next_step(booking, booking.driver_confirmed_at.is_some(), true, now),
        },
    )
}

/// Why a booking is not cancelled, if it is not.
pub open spec fn cancel_refusal(npub: Seq<char>, booking: BookingView) -> Option<ErrorView> {
    if booking.booker_npub != npub {
        Some(ErrorView::Unauthorized("only the rider can cancel"@))
    } else if booking.pickup_confirmed_at is Some {
        Some(ErrorView::BadRequest("cannot cancel after pickup — trip is in progress"@))
    } else if booking.status != "pending"@ && !funded_or_held(booking.status) {
        Some(ErrorView::BadRequest("cannot cancel from status '"@ + booking.status + "'"@))
    } else if funded_or_held(booking.status) && booking.lud16_refund is None {
        Some(ErrorView::BadRequest("no refund address on file"@))
    } else {
        None
    }
}

/// What a rider whose booking was cancelled is answered.
pub open spec fn cancelled_answer(booking: BookingView) -> ConfirmView {
    ConfirmView {
        booking_id: booking.id,
        status: "cancelled"@,
        rider_confirmed: false,
        driver_confirmed: false,
        released: false,
        released_sats: booking.amount_sats,
        fee_sats: 0,
    }
}

/// The payment of a cancellation: the full amount, to the rider's own address.
pub open spec fn cancel_payment(booking: BookingView) -> PaymentView {
    PaymentView {
        lud16: booking.lud16_refund->0,
        amount_sats: booking.amount_sats,
        memo: "Ulendo cancellation refund"@,
    }
}

/// A cancellation before the pickup.
pub enum Cancellation {
    /// Nothing was paid in: the booking just ends.
    Unpaid { cancel: UnpaidCancel },
    /// What was paid in goes back to the rider first.
    PayBack { order: CancelOrder },
}

/// The rider cancels before the pickup. What was paid in goes back in full.
pub fn cancel_before_pickup(auth: &AuthUser, booking: Booking, now: i64) -> (r: AppResult<
    Cancellation,
>)
    ensures
        refused_as(r, cancel_refusal(auth.npub@, booking@)),
        r matches Ok(c) ==> match c {
            Cancellation::Unpaid { cancel } => {
                &&& booking.status@ == "pending"@
                &&& cancel.booking() == booking@
                &&& cancel.at() == now
            },
            Cancellation::PayBack { order } => {
                &&& funded_or_held(booking.status@)
                &&& order.booking() == booking@
                &&& order.claim() == BookingChangeView::ClaimRefund { at: now }
                &&& order.payment() == cancel_payment(booking@)
            },
        },
{
    if booking.booker_npub != auth.npub {
        return Err(AppError::unauthorized("only the rider can cancel"));
    }
    if booking.pickup_confirmed_at.is_some() {
        return Err(AppError::bad_request("cannot cancel after pickup — trip is in progress"));
    }
    if is_funded_or_held(booking.status.as_str()) {
        let lud16: String = match &booking.lud16_refund {
            None => {
                return Err(AppError::bad_request("no refund address on file"));
            },
            Some(lud16) => lud16.clone(),
        };
        let payment: Payment = Payment {
            lud16,
            amount_sats: booking.amount_sats,
            memo: "Ulendo cancellation refund".to_owned(),
        };
        let order: CancelOrder = CancelOrder {
            booking,
            claim: BookingChange::ClaimRefund { at: now },
            payment,
        };
        return Ok(Cancellation::PayBack { order });
    }
    proof {
        crate::laws::lemma_statuses_differ();
    }
    if !same(booking.status.as_str(), "pending") {
        let mut m: String = "cannot cancel from status '".to_owned();
        m.append(booking.status.as_str());
        m.append("'");
        return Err(AppError::BadRequest(m));
    }
    Ok(Cancellation::Unpaid { cancel: UnpaidCancel { booking, now } })
}

fn booking_cancelled(booking: &Booking) -> (r: ConfirmResponse)
    ensures
        r@ == cancelled_answer(booking@),
{
    ConfirmResponse {
        booking_id: booking.id.clone(),
        status: "cancelled".to_owned(),
        rider_confirmed: false,
        driver_confirmed: false,
        released: false,
        released_sats: booking.amount_sats,
        fee_sats: 0,
    }
}

/// Why a cancellation whose write took hold on a number of rows goes no further.
pub open spec fn cancel_write_refusal(rows: u64) -> Option<ErrorView> {
    if rows == 0 {
        Some(ErrorView::BadRequest("booking is no longer in a cancellable state"@))
    } else {
        None
    }
}

/// A cancellation of a booking that nothing was paid in for.
pub struct UnpaidCancel {
    booking: Booking,
    now: i64,
}

impl UnpaidCancel {
    /// The booking that is cancelled.
    pub closed spec fn booking(&self) -> BookingView {
        self.booking@
    }

    /// The time of the cancellation.
    pub closed spec fn at(&self) -> i64 {
        self.now
    }

    /// The end to write. It does not take hold if the invoice has been paid meanwhile.
    pub fn change(&self) -> (r: BookingChange)
        ensures
            r@ == (BookingChangeView::CancelUnpaid { at: self.at() }),
    {
        BookingChange::CancelUnpaid { at: self.now }
    }

    /// What is answered, where the write took hold.
    pub fn written(self, rows: u64) -> (r: AppResult<ConfirmResponse>)
        ensures
            refused_as(r, cancel_write_refusal(rows)),
            r matches Ok(a) ==> a@ == cancelled_answer(self.booking()),
    {
        if rows == 0 {
            return Err(AppError::bad_request("booking is no longer in a cancellable state"));
        }
        Ok(booking_cancelled(&self.booking))
    }
}

/// A cancellation that claims its booking before it pays the rider back. The payment
/// comes out only once the claim has taken hold.
pub struct CancelOrder {
    booking: Booking,
    claim: BookingChange,
    payment: Payment,
}

impl CancelOrder {
    /// The booking that is cancelled.
    pub closed spec fn booking(&self) -> BookingView {
        self.booking@
    }

    /// The claim.
    pub closed spec fn claim(&self) -> BookingChangeView {
        self.claim@
    }

    /// The payment that follows.
    pub closed spec fn payment(&self) -> PaymentView {
        self.payment@
    }

    /// The claim to write.
    pub fn claim_to_write(&self) -> (r: &BookingChange)
        ensures
            r@ == self.claim(),
    {
        &self.claim
    }

    /// The payment to make, where the claim took hold.
    pub fn claimed(self, rows: u64) -> (r: AppResult<CancelPayment>)
        ensures
            refused_as(r, cancel_write_refusal(rows)),
            r matches Ok(p) ==> p.booking() == self.booking() && p.payment() == self.payment(),
    {
        if rows == 0 {
            return Err(AppError::bad_request("booking is no longer in a cancellable state"));
        }
        Ok(CancelPayment { booking: self.booking, payment: self.payment })
    }
}

/// A cancellation that has claimed its booking and now pays the rider back.
pub struct CancelPayment {
    booking: Booking,
    payment: Payment,
}

/// A cancellation's end: what is written, and what is answered.
pub struct CancelSettlement {
    pub change: BookingChange,
    pub answer: AppResult<ConfirmResponse>,
}

/// What a cancellation comes to, given the wallet's reply. If the rider was paid back,
/// the booking is cancelled; if not, it goes back to the status that it had before the
/// claim.
pub open spec fn cancel_settled(
    s: CancelSettlement,
    booking: BookingView,
    paid: Result<String, String>,
    now: i64,
) -> bool {
    match paid {
        Ok(_) => {
            &&& s.change@ == BookingChangeView::Cancel { at: now }
            &&& s.answer matches Ok(a) && a@ == cancelled_answer(booking)
        },
        Err(e) => {
            &&& s.change@ == BookingChangeView::UndoRefund { status: booking.status, at: now }
            &&& s.answer matches Err(x) && x@ == ErrorView::Payment("refund failed: "@ + e@)
        },
    }
}

impl CancelPayment {
    /// The booking that is cancelled.
    pub closed spec fn booking(&self) -> BookingView {
        self.booking@
    }

    /// The payment.
    pub closed spec fn payment(&self) -> PaymentView {
        self.payment@
    }

    /// The payment to make.
    pub fn payment_to_make(&self) -> (r: &Payment)
        ensures
            r@ == self.payment(),
    {
        &self.payment
    }

    /// What follows the payment.
    pub fn paid(self, reply: Result<String, String>, now: i64) -> (r: CancelSettlement)
        ensures
            cancel_settled(r, self.booking(), reply, now),
    {
        match reply {
            Ok(_) => CancelSettlement {
                change: BookingChange::Cancel { at: now },
                answer: Ok(booking_cancelled(&self.booking)),
            },
            Err(e) => {
                let mut m: String = "refund failed: ".to_owned();
                m.append(e.as_str());
                CancelSettlement {
                    change: BookingChange::UndoRefund { status: self.booking.status, at: now },
                    answer: Err(AppError::Payment(m)),
                }
            },
        }
    }
}

/// A booking that both parties have confirmed.
pub struct InstantRelease {
    booking_id: String,
    amount_sats: i64,
}

/// The payment of a booking that both parties have confirmed: the amount less the fee.
pub open spec fn instant_payment(
    booking_id: Seq<char>,
    amount_sats: i64,
    bps: u64,
    lud16: Seq<char>,
) -> PaymentView {
    PaymentView {
        lud16,
        amount_sats: (amount_sats - fee_of(amount_sats as int, bps as int)) as i64,
        memo: "Ulendo ride payment ("@ + byte_prefix(booking_id, 8) + ")"@,
    }
}

impl InstantRelease {
    /// The booking.
    pub closed spec fn booking_id(&self) -> Seq<char> {
        self.booking_id@
    }

    /// The booking's amount.
    pub closed spec fn amount_sats(&self) -> i64 {
        self.amount_sats
    }

    /// Whether the fee can be computed at a rate.
    pub fn fits(&self, escrow_fee_bps: u64) -> (r: bool)
        ensures
            r == fee_fits(self.amount_sats(), escrow_fee_bps),
    {
        can_compute_fee(self.amount_sats, escrow_fee_bps)
    }

    /// Whether the booking's id has a start of 8 bytes.
    pub fn has_short_id(&self) -> (r: bool)
        ensures
            r == has_byte_prefix(self.booking_id(), 8),
    {
        can_cut(self.booking_id.as_str(), 8)
    }

    /// The driver's payment, once the address is known.
    pub fn do_instant_release(self, escrow_fee_bps: u64, driver_lud16: Option<String>) -> (r:
        AppResult<InstantPayment>)
        requires
            fee_fits(self.amount_sats(), escrow_fee_bps),
            driver_lud16 is Some ==> has_byte_prefix(self.booking_id(), 8),
        ensures
            refused_as(
                r,
                if driver_lud16 is None {
                    Some(ErrorView::BadRequest("driver has no lightning address"@))
                } else {
                    None
                },
            ),
            r matches Ok(p) ==> {
                &&& p.booking_id() == self.booking_id()
                &&& p.amount_sats() == self.amount_sats()
                &&& p.bps() == escrow_fee_bps
                &&& p.payment() == instant_payment(
                    self.booking_id(),
                    self.amount_sats(),
                    escrow_fee_bps,
                    driver_lud16->0@,
                )
                &&& p.payment().amount_sats + fee_of(
                    self.amount_sats() as int,
                    escrow_fee_bps as int,
                ) == self.amount_sats()
            },
    {
        let split: FeeSplit = split_fee(self.amount_sats, escrow_fee_bps);
        match driver_lud16 {
            None => Err(AppError::bad_request("driver has no lightning address")),
            Some(lud16) => {
                let short: String = cut(self.booking_id.as_str(), 8);
                let mut memo: String = "Ulendo ride payment (".to_owned();
                memo.append(short.as_str());
                memo.append(")");
                Ok(
                    InstantPayment {
                        booking_id: self.booking_id,
                        amount_sats: self.amount_sats,
                        escrow_fee_bps,
                        payment: Payment { lud16, amount_sats: split.payee_sats, memo },
                    },
                )
            },
        }
    }
}

/// The payment for a booking that both parties have confirmed.
pub struct InstantPayment {
    booking_id: String,
    amount_sats: i64,
    escrow_fee_bps: u64,
    payment: Payment,
}

impl InstantPayment {
    #[verifier::type_invariant]
    spec fn inv(self) -> bool {
        fee_fits(self.amount_sats, self.escrow_fee_bps)
    }

    /// The booking.
    pub closed spec fn booking_id(&self) -> Seq<char> {
        self.booking_id@
    }

    /// The booking's amount.
    pub closed spec fn amount_sats(&self) -> i64 {
        self.amount_sats
    }

    /// The fee's rate.
    pub closed spec fn bps(&self) -> u64 {
        self.escrow_fee_bps
    }

    /// The payment.
    pub closed spec fn payment(&self) -> PaymentView {
        self.payment@
    }

    /// The payment to make.
    pub fn payment_to_make(&self) -> (r: &Payment)
        ensures
            r@ == self.payment(),
    {
        &self.payment
    }

    /// What is written and answered once the payment was tried.
    pub fn paid(self, reply: Result<String, String>, now: i64) -> (r: AppResult<
        (BookingChange, ConfirmResponse),
    >)
        ensures
            refused_as(
                r,
                match reply {
                    Ok(_) => None,
                    Err(e) => Some(ErrorView::Payment("payment failed: "@ + e@)),
                },
            ),
            r matches Ok(done) ==> {
                let fee = fee_of(self.amount_sats() as int, self.bps() as int);
                &&& done.0@ == BookingChangeView::InstantRelease { fee_sats: fee as i64, at: now }
                &&& done.1@ == ConfirmView {
                    booking_id: self.booking_id(),
                    status: "released"@,
                    rider_confirmed: true,
                    driver_confirmed: true,
                    released: true,
                    released_sats: (self.amount_sats() - fee) as i64,
                    fee_sats: fee as i64,
                }
                &&& done.1.released_sats + done.1.fee_sats == self.amount_sats()
            },
    {
        proof {
            use_type_invariant(&self);
        }
        let split: FeeSplit = split_fee(self.amount_sats, self.escrow_fee_bps);
        match reply {
            Err(e) => {
                let mut m: String = "payment failed: ".to_owned();
                m.append(e.as_str());
                Err(AppError::Payment(m))
            },
            Ok(_) => Ok(
                (
                    BookingChange::InstantRelease { fee_sats: split.fee_sats, at: now },
                    ConfirmResponse {
                        booking_id: self.booking_id,
                        status: "released".to_owned(),
                        rider_confirmed: true,
                        driver_confirmed: true,
                        released: true,
                        released_sats: split.payee_sats,
                        fee_sats: split.fee_sats,
                    },
                ),
            ),
        }
    }
}

} // verus!

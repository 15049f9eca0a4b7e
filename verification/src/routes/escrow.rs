//! Escrow.
//!
//! ```text
//! pending                    -> fund     -> funded      (the invoice was paid)
//! funded, held, completed    -> release  -> released    (the booker says the service was delivered)
//! funded, held, in_progress  -> dispute  -> disputed    (the booker raises an issue)
//! completed                  -> dispute  -> disputed    (within 60 seconds)
//! funded, held               -> refund   -> refunded    (the booker or the merchant gives up)
//! funded, held, in_progress  -> complete -> completed   (the merchant says it is over)
//! completed                  -> (time)   -> released
//! pending                    -> (time)   -> cancelled   (the invoice expired)
//! ```
//!
//! On release the amount less the fee goes to the merchant. On a dispute the driver
//! of a ride gets a base fare and the booker the rest; any other booking is paid
//! back in full. On a refund the booker gets the full amount.

use vstd::prelude::*;
use vstd::string::*;

use crate::auth::AuthUser;
use crate::clock::is_timestamp;
use crate::db::Booking;
use crate::db::BookingChange;
use crate::db::DirectRelease;
use crate::db::RideChange;
use crate::db::changes::BookingChangeView;
use crate::db::changes::RideChangeView;
use crate::db::changes::funded_or_held;
use crate::db::changes::is_funded_or_held;
use crate::db::changes::is_releasable;
use crate::db::changes::is_under_way;
use crate::db::changes::releasable;
use crate::db::changes::under_way;
use crate::db::models::BookingView;
use crate::db::models::DirectReleaseView;
use crate::error::AppError;
use crate::error::AppResult;
use crate::error::ErrorView;
use crate::error::refused_as;
use crate::money::FeeSplit;
use crate::money::Payment;
use crate::money::PaymentView;
use crate::money::can_compute_fee_unsigned;
use crate::money::fee_fits_unsigned;
use crate::money::fee_of;
use crate::money::payment_view;
use crate::money::percent_of;
use crate::money::split_fee_unsigned;
use crate::routes::bookings::booker_notice;
use crate::routes::bookings::notify_booker;
use crate::services::blink::InvoiceResult;
use crate::services::push::BookingNotice;
use crate::services::push::BookingNoticeView;
use crate::text::byte_prefix;
use crate::text::can_cut;
use crate::text::contains_char;
use crate::text::contains_text;
use crate::text::cut;
use crate::text::dec;
use crate::text::decimal;
use crate::text::has_byte_prefix;
use crate::text::occurs;
use crate::text::or_default;
use crate::text::or_text;
use crate::text::same;

verus! {

// ── Fund ────────────────────────────────────────────────────────────────────

pub struct FundResponse {
    pub booking_id: String,
    pub payment_request: String,
    pub payment_hash: String,
    pub amount_sats: i64,
    pub expires_at: i64,
}

/// Why no invoice is made out for a booking, if none is.
pub open spec fn fund_refusal(npub: Seq<char>, booking: BookingView) -> Option<ErrorView> {
    if booking.booker_npub != npub {
        Some(ErrorView::Unauthorized("only the booker can fund this escrow"@))
    } else if booking.status != "pending"@ {
        Some(ErrorView::BadRequest("booking is '"@ + booking.status + "', expected 'pending'"@))
    } else {
        None
    }
}

/// A booking that an invoice is made out for.
pub struct Funding {
    booking: Booking,
}

/// Begins to fund a booking: its booker asks, and it is pending.
pub fn fund(auth: &AuthUser, booking: Booking) -> (r: AppResult<Funding>)
    ensures
        refused_as(r, fund_refusal(auth.npub@, booking@)),
        r matches Ok(f) ==> f.booking() == booking@,
{
    if booking.booker_npub != auth.npub {
        return Err(AppError::unauthorized("only the booker can fund this escrow"));
    }
    if !same(booking.status.as_str(), "pending") {
        let mut m: String = "booking is '".to_owned();
        m.append(booking.status.as_str());
        m.append("', expected 'pending'");
        return Err(AppError::BadRequest(m));
    }
    Ok(Funding { booking })
}

/// An invoice to be made out by the wallet.
pub struct InvoiceOrder {
    pub amount_sats: i64,
    pub memo: String,
}

/// The memo on a booking's invoice: the listing's name and the start of the booking's id.
pub open spec fn fund_memo(booking_id: Seq<char>, listing_name: Option<Seq<char>>) -> Seq<char> {
    "Ulendo escrow: "@ + or_text(listing_name, "Ulendo service"@) + " (booking "@ + byte_prefix(
        booking_id,
        8,
    ) + ")"@
}

impl Funding {
    /// The booking that is funded.
    pub closed spec fn booking(&self) -> BookingView {
        self.booking@
    }

    /// Whether the booking's id has a start of 8 bytes.
    pub fn has_short_id(&self) -> (r: bool)
        ensures
            r == has_byte_prefix(self.booking().id, 8),
    {
        can_cut(self.booking.id.as_str(), 8)
    }

    /// The invoice for the booking.
    pub fn invoice(&self, listing_name: &Option<String>) -> (r: InvoiceOrder)
        requires
            has_byte_prefix(self.booking().id, 8),
        ensures
            r.amount_sats == self.booking().amount_sats,
            r.memo@ == fund_memo(self.booking().id, listing_name.deep_view()),
    {
        let name: String = or_default(listing_name, "Ulendo service");
        let short: String = cut(self.booking.id.as_str(), 8);
        let mut memo: String = "Ulendo escrow: ".to_owned();
        memo.append(name.as_str());
        memo.append(" (booking ");
        memo.append(short.as_str());
        memo.append(")");
        InvoiceOrder { amount_sats: self.booking.amount_sats, memo }
    }

    /// What is written and answered once the wallet has replied to the invoice order.
    pub fn invoiced(self, reply: Result<InvoiceResult, String>, now: i64) -> (r: AppResult<
        (BookingChange, FundResponse),
    >)
        ensures
            refused_as(
                r,
                match reply {
                    Ok(_) => None,
                    Err(e) => Some(ErrorView::Payment(e@)),
                },
            ),
            r matches Ok(done) ==> {
                let inv = reply->Ok_0;
                &&& done.0@ == BookingChangeView::AttachInvoice {
                    payment_hash: inv.payment_hash@,
                    payment_request: inv.payment_request@,
                    expires_at: inv.expires_at,
                    at: now,
                }
                &&& done.1.booking_id@ == self.booking().id
                &&& done.1.payment_request == inv.payment_request
                &&& done.1.payment_hash == inv.payment_hash
                &&& done.1.amount_sats == self.booking().amount_sats
                &&& done.1.expires_at == inv.expires_at
            },
    {
        match reply {
            Err(e) => Err(AppError::Payment(e)),
            Ok(inv) => {
                let change: BookingChange = BookingChange::AttachInvoice {
                    payment_hash: inv.payment_hash.clone(),
                    payment_request: inv.payment_request.clone(),
                    expires_at: inv.expires_at,
                    at: now,
                };
                Ok(
                    (
                        change,
                        FundResponse {
                            booking_id: self.booking.id,
                            payment_request: inv.payment_request,
                            payment_hash: inv.payment_hash,
                            amount_sats: self.booking.amount_sats,
                            expires_at: inv.expires_at,
                        },
                    ),
                )
            },
        }
    }
}

// ── Release ─────────────────────────────────────────────────────────────────

pub struct EscrowActionResponse {
    pub booking_id: String,
    pub status: String,
    pub amount_sats: i64,
    pub fee_sats: i64,
    pub released_sats: i64,
}

pub struct EscrowActionView {
    pub booking_id: Seq<char>,
    pub status: Seq<char>,
    pub amount_sats: i64,
    pub fee_sats: i64,
    pub released_sats: i64,
}

impl View for EscrowActionResponse {
    type V = EscrowActionView;

    open spec fn view(&self) -> EscrowActionView {
        EscrowActionView {
            booking_id: self.booking_id@,
            status: self.status@,
            amount_sats: self.amount_sats,
            fee_sats: self.fee_sats,
            released_sats: self.released_sats,
        }
    }
}

/// A booking's end: what is written, what is answered, and who is told.
pub struct Settlement {
    pub change: BookingChange,
    pub answer: AppResult<EscrowActionResponse>,
    pub notice: Option<BookingNotice>,
}

/// Why a booking is not released, if it is not.
pub open spec fn release_refusal(npub: Seq<char>, booking: BookingView) -> Option<ErrorView> {
    if booking.booker_npub != npub {
        Some(ErrorView::Unauthorized("only the booker can release escrow"@))
    } else if !releasable(booking.status) {
        Some(ErrorView::BadRequest("cannot release from status '"@ + booking.status + "'"@))
    } else {
        None
    }
}

/// What is left of a booking's amount after its fee.
pub open spec fn released_sats(booking: BookingView) -> int {
    booking.amount_sats - booking.fee_sats
}

/// What is left of a booking's amount after its fee is a 64-bit number.
pub open spec fn release_fits(booking: BookingView) -> bool {
    i64::MIN <= released_sats(booking) <= i64::MAX
}

/// A booking that its booker releases to the merchant.
pub struct Release {
    booking: Booking,
}

/// Begins to release a booking: its booker asks, and the funds are in. A booking that
/// its merchant has marked as complete is released at once in this way.
pub fn release(auth: &AuthUser, booking: Booking) -> (r: AppResult<Release>)
    ensures
        refused_as(r, release_refusal(auth.npub@, booking@)),
        r matches Ok(x) ==> x.booking() == booking@,
{
    if booking.booker_npub != auth.npub {
        return Err(AppError::unauthorized("only the booker can release escrow"));
    }
    if !is_releasable(booking.status.as_str()) {
        let mut m: String = "cannot release from status '".to_owned();
        m.append(booking.status.as_str());
        m.append("'");
        return Err(AppError::BadRequest(m));
    }
    Ok(Release { booking })
}

/// The payment of a release.
pub open spec fn release_payment(booking: BookingView, lud16: Seq<char>) -> PaymentView {
    PaymentView {
        lud16,
        amount_sats: released_sats(booking) as i64,
        memo: "Ulendo escrow release"@,
    }
}

impl Release {
    /// The booking that is released.
    pub closed spec fn booking(&self) -> BookingView {
        self.booking@
    }

    /// Whether what is left of the amount after the fee is a 64-bit number.
    pub fn fits(&self) -> (r: bool)
        ensures
            r == release_fits(self.booking()),
    {
        match self.booking.amount_sats.checked_sub(self.booking.fee_sats) {
            Some(_) => true,
            None => false,
        }
    }

    /// The claim of the release, once the merchant's address is known.
    pub fn order(self, merchant_lud16: Option<String>, now: i64) -> (r: AppResult<ReleaseOrder>)
        requires
            merchant_lud16 is Some ==> release_fits(self.booking()),
        ensures
            refused_as(
                r,
                if merchant_lud16 is None {
                    Some(ErrorView::BadRequest("merchant has no lightning address"@))
                } else {
                    None
                },
            ),
            r matches Ok(order) ==> {
                &&& order.booking() == self.booking()
                &&& order.claim() == BookingChangeView::ClaimRelease { at: now }
                &&& order.payment() == release_payment(self.booking(), merchant_lud16->0@)
            },
    {
        match merchant_lud16 {
            None => Err(AppError::bad_request("merchant has no lightning address")),
            Some(lud16) => {
                let payment: Payment = Payment {
                    lud16,
                    amount_sats: self.booking.amount_sats - self.booking.fee_sats,
                    memo: "Ulendo escrow release".to_owned(),
                };
                Ok(
                    ReleaseOrder {
                        booking: self.booking,
                        claim: BookingChange::ClaimRelease { at: now },
                        payment,
                    },
                )
            },
        }
    }
}

/// A release that claims its booking before it pays. The payment comes out only once
/// the claim has taken hold.
pub struct ReleaseOrder {
    booking: Booking,
    claim: BookingChange,
    payment: Payment,
}

impl ReleaseOrder {
    #[verifier::type_invariant]
    spec fn inv(self) -> bool {
        release_fits(self.booking@)
    }

    /// The booking that is released.
    pub closed spec fn booking(&self) -> BookingView {
        self.booking@
    }

    /// The claim.
    pub closed spec fn claim(&self) -> BookingChangeView {
        self.claim@
    }

    /// The payment that follows.
    pub closed spec fn payment(&self) -> PaymentView {
        self.payment@
    }

    /// The claim to write.
    pub fn claim_to_write(&self) -> (r: &BookingChange)
        ensures
            r@ == self.claim(),
    {
        &self.claim
    }

    /// The payment to make, where the claim took hold.
    pub fn claimed(self, rows: u64) -> (r: AppResult<ReleasePayment>)
        ensures
            refused_as(
                r,
                if rows == 0 {
                    Some(
                        ErrorView::BadRequest(
                            "booking is no longer releasable (another release may be in progress)"@,
                        ),
                    )
                } else {
                    None
                },
            ),
            r matches Ok(p) ==> p.booking() == self.booking() && p.payment() == self.payment(),
    {
        proof {
            use_type_invariant(&self);
        }
        if rows == 0 {
            return Err(
                AppError::bad_request(
                    "booking is no longer releasable (another release may be in progress)",
                ),
            );
        }
        Ok(ReleasePayment { booking: self.booking, payment: self.payment })
    }
}

/// A release that has claimed its booking and now pays.
pub struct ReleasePayment {
    booking: Booking,
    payment: Payment,
}

/// What is told to the merchant of a release.
pub open spec fn release_notice(booking: BookingView) -> BookingNoticeView {
    BookingNoticeView {
        title: "Payment released!"@,
        body: dec(released_sats(booking)) + " sats sent to your Lightning address"@,
        booking_id: booking.id,
        kind: "escrow_released"@,
    }
}

/// What a release comes to, given the wallet's reply. If the payment was made, the
/// booking is released and the merchant is told; if not, the booking goes back to the
/// status that it had before the claim.
pub open spec fn release_settled(
    s: Settlement,
    booking: BookingView,
    paid: Result<String, String>,
    now: i64,
) -> bool {
    match paid {
        Ok(_) => {
            &&& s.change@ == BookingChangeView::Release { at: now }
            &&& s.answer matches Ok(a) && a@ == (EscrowActionView {
                booking_id: booking.id,
                status: "released"@,
                amount_sats: booking.amount_sats,
                fee_sats: booking.fee_sats,
                released_sats: released_sats(booking) as i64,
            }) && a.released_sats + a.fee_sats == a.amount_sats
            &&& s.notice matches Some(n) && n@ == release_notice(booking)
        },
        Err(e) => {
            &&& s.change@ == BookingChangeView::UndoRelease { status: booking.status, at: now }
            &&& s.answer matches Err(x) && x@ == ErrorView::Payment("payment failed: "@ + e@)
            &&& s.notice is None
        },
    }
}

impl ReleasePayment {
    #[verifier::type_invariant]
    spec fn inv(self) -> bool {
        release_fits(self.booking@)
    }

    /// The booking that is released.
    pub closed spec fn booking(&self) -> BookingView {
        self.booking@
    }

    /// The payment.
    pub closed spec fn payment(&self) -> PaymentView {
        self.payment@
    }

    /// The payment to make.
    pub fn payment_to_make(&self) -> (r: &Payment)
        ensures
            r@ == self.payment(),
    {
        &self.payment
    }

    /// What follows the payment.
    pub fn paid(self, reply: Result<String, String>, now: i64) -> (r: Settlement)
        ensures
            release_settled(r, self.booking(), reply, now),
    {
        proof {
            use_type_invariant(&self);
        }
        match reply {
            Ok(_) => {
                let sent: i64 = self.booking.amount_sats - self.booking.fee_sats;
                let mut body: String = decimal(sent);
                body.append(" sats sent to your Lightning address");
                Settlement {
                    change: BookingChange::Release { at: now },
                    notice: Some(
                        BookingNotice {
                            title: "Payment released!".to_owned(),
                            body,
                            booking_id: self.booking.id.clone(),
                            kind: "escrow_released".to_owned(),
                        },
                    ),
                    answer: Ok(
                        EscrowActionResponse {
                            booking_id: self.booking.id,
                            status: "released".to_owned(),
                            amount_sats: self.booking.amount_sats,
                            fee_sats: self.booking.fee_sats,
                            released_sats: sent,
                        },
                    ),
                }
            },
            Err(e) => {
                let mut m: String = "payment failed: ".to_owned();
                m.append(e.as_str());
                Settlement {
                    change: BookingChange::UndoRelease { status: self.booking.status, at: now },
                    answer: Err(AppError::Payment(m)),
                    notice: None,
                }
            },
        }
    }
}

// ── Dispute ─────────────────────────────────────────────────────────────────

pub struct DisputeRequest {
    pub reason: Option<String>,
}

/// Seconds after its completion within which a booking can be disputed.
pub const DISPUTE_SECS: i64 = 60;

/// A dispute can be raised: the service is under way, or it was completed not more than
/// 60 seconds ago.
pub open spec fn disputable(booking: BookingView, now: i64) -> bool {
    ||| under_way(booking.status)
    ||| booking.status == "completed"@ && booking.completed_at is Some && now
        - booking.completed_at->0 <= DISPUTE_SECS
}

/// Whether a dispute can be raised.
pub fn is_disputable(booking: &Booking, now: i64) -> (r: bool)
    ensures
        r == disputable(booking@, now),
{
    if is_under_way(booking.status.as_str()) {
        return true;
    }
    match booking.completed_at {
        Some(t) => same(booking.status.as_str(), "completed") && (now as i128) - (t as i128)
            <= DISPUTE_SECS as i128,
        None => false,
    }
}

/// Why a dispute is not taken up, if it is not.
pub open spec fn dispute_refusal(npub: Seq<char>, booking: BookingView, now: i64) -> Option<
    ErrorView,
> {
    if booking.booker_npub != npub {
        Some(ErrorView::Unauthorized("only the booker can raise a dispute"@))
    } else if !disputable(booking, now) {
        Some(ErrorView::BadRequest("cannot dispute from status '"@ + booking.status + "'"@))
    } else {
        None
    }
}

/// The driver's share of a disputed booking: 30 percent of a ride, nothing of
/// anything else.
pub open spec fn dispute_driver_share(booking: BookingView) -> int {
    if booking.booking_type == "ride"@ {
        percent_of(booking.amount_sats as int, 30)
    } else {
        0
    }
}

/// The booker's share of a disputed booking: the rest.
pub open spec fn dispute_booker_share(booking: BookingView) -> int {
    booking.amount_sats - dispute_driver_share(booking)
}

/// The shares of a disputed booking can be computed in 64-bit arithmetic.
pub open spec fn dispute_fits(booking: BookingView) -> bool {
    booking.booking_type == "ride"@ ==> i64::MIN <= booking.amount_sats * 30 <= i64::MAX
}

/// Whether a dispute can be dealt with: it is refused, or the shares of the booking can
/// be computed in 64-bit arithmetic.
pub fn can_dispute(auth: &AuthUser, booking: &Booking, now: i64) -> (r: bool)
    ensures
        r == (dispute_refusal(auth.npub@, booking@, now) is None ==> dispute_fits(booking@)),
{
    if booking.booker_npub != auth.npub || !is_disputable(booking, now) || !same(
        booking.booking_type.as_str(),
        "ride",
    ) {
        return true;
    }
    match booking.amount_sats.checked_mul(30) {
        Some(_) => true,
        None => false,
    }
}

/// A dispute taken up: what the booker gets back at once, what the merchant is
/// due, what is written in the end and what is answered.
pub struct DisputePlan {
    pub booker_refund: Option<Payment>,
    pub merchant_sats: i64,
    pub change: BookingChange,
    pub answer: EscrowActionResponse,
}

/// Takes up a dispute.
pub fn dispute(auth: &AuthUser, booking: &Booking, now: i64) -> (r: AppResult<DisputePlan>)
    requires
        dispute_refusal(auth.npub@, booking@, now) is None ==> dispute_fits(booking@),
    ensures
        refused_as(r, dispute_refusal(auth.npub@, booking@, now)),
        r matches Ok(plan) ==> {
            &&& plan.merchant_sats == dispute_driver_share(booking@)
            &&& payment_view(plan.booker_refund) == (if dispute_booker_share(booking@) > 0
                && booking.lud16_refund is Some {
                Some(
                    PaymentView {
                        lud16: booking.lud16_refund->0@,
                        amount_sats: dispute_booker_share(booking@) as i64,
                        memo: "Ulendo dispute refund"@,
                    },
                )
            } else {
                None
            })
            &&& plan.change@ == BookingChangeView::Dispute { at: now }
            &&& plan.answer@ == EscrowActionView {
                booking_id: booking.id@,
                status: "disputed"@,
                amount_sats: booking.amount_sats,
                fee_sats: booking.fee_sats,
                released_sats: dispute_booker_share(booking@) as i64,
            }
            &&& plan.merchant_sats + plan.answer.released_sats == booking.amount_sats
        },
{
    if booking.booker_npub != auth.npub {
        return Err(AppError::unauthorized("only the booker can raise a dispute"));
    }
    if !is_disputable(booking, now) {
        let mut m: String = "cannot dispute from status '".to_owned();
        m.append(booking.status.as_str());
        m.append("'");
        return Err(AppError::BadRequest(m));
    }
    let driver_share: i64 = if same(booking.booking_type.as_str(), "ride") {
        let product: i64 = booking.amount_sats * 30;
        if product >= 0 {
            product / 100
        } else {
            -(((-(product as i128)) / 100) as i64)
        }
    } else {
        0
    };
    let booker_share: i64 = booking.amount_sats - driver_share;
    let booker_refund: Option<Payment> = if booker_share > 0 {
        match &booking.lud16_refund {
            Some(lud16) => Some(
                Payment {
                    lud16: lud16.clone(),
                    amount_sats: booker_share,
                    memo: "Ulendo dispute refund".to_owned(),
                },
            ),
            None => None,
        }
    } else {
        None
    };
    Ok(
        DisputePlan {
            booker_refund,
            merchant_sats: driver_share,
            change: BookingChange::Dispute { at: now },
            answer: EscrowActionResponse {
                booking_id: booking.id.clone(),
                status: "disputed".to_owned(),
                amount_sats: booking.amount_sats,
                fee_sats: booking.fee_sats,
                released_sats: booker_share,
            },
        },
    )
}

impl DisputePlan {
    /// The merchant's payment, once the address is known: none where nothing is due
    /// or there is no address.
    pub fn merchant_payment(&self, merchant_lud16: Option<String>) -> (r: Option<Payment>)
        ensures
            payment_view(r) == (if self.merchant_sats > 0 && merchant_lud16 is Some {
                Some(
                    PaymentView {
                        lud16: merchant_lud16->0@,
                        amount_sats: self.merchant_sats,
                        memo: "Ulendo dispute base fare"@,
                    },
                )
            } else {
                None
            }),
    {
        if self.merchant_sats > 0 {
            match merchant_lud16 {
                Some(lud16) => Some(
                    Payment {
                        lud16,
                        amount_sats: self.merchant_sats,
                        memo: "Ulendo dispute base fare".to_owned(),
                    },
                ),
                None => None,
            }
        } else {
            None
        }
    }
}

// ── Refund ──────────────────────────────────────────────────────────────────

/// Why a booking is not refunded, if it is not.
pub open spec fn refund_refusal(
    npub: Seq<char>,
    booking: BookingView,
    is_listing_owner: bool,
) -> Option<ErrorView> {
    if booking.booker_npub != npub && !is_listing_owner {
        Some(ErrorView::Unauthorized("not authorised to refund this booking"@))
    } else if !funded_or_held(booking.status) {
        Some(ErrorView::BadRequest("cannot refund from status '"@ + booking.status + "'"@))
    } else if booking.lud16_refund is None {
        Some(ErrorView::BadRequest("no refund address on file"@))
    } else {
        None
    }
}

/// The payment of a refund: the full amount, to the booker's own address.
pub open spec fn refund_payment(booking: BookingView) -> PaymentView {
    PaymentView {
        lud16: booking.lud16_refund->0,
        amount_sats: booking.amount_sats,
        memo: "Ulendo escrow refund"@,
    }
}

/// A refund that claims its booking before it pays. The payment comes out only once
/// the claim has taken hold.
pub struct RefundOrder {
    booking: Booking,
    claim: BookingChange,
    payment: Payment,
}

/// Begins to refund a booking: its booker or its merchant asks, the funds are in, and
/// there is an address to pay back to.
pub fn refund(auth: &AuthUser, booking: Booking, is_listing_owner: bool, now: i64) -> (r: AppResult<
    RefundOrder,
>)
    ensures
        refused_as(r, refund_refusal(auth.npub@, booking@, is_listing_owner)),
        r matches Ok(order) ==> {
            &&& order.booking() == booking@
            &&& order.claim() == BookingChangeView::ClaimRefund { at: now }
            &&& order.payment() == refund_payment(booking@)
        },
{
    if booking.booker_npub != auth.npub && !is_listing_owner {
        return Err(AppError::unauthorized("not authorised to refund this booking"));
    }
    if !is_funded_or_held(booking.status.as_str()) {
        let mut m: String = "cannot refund from status '".to_owned();
        m.append(booking.status.as_str());
        m.append("'");
        return Err(AppError::BadRequest(m));
    }
    let lud16: String = match &booking.lud16_refund {
        None => {
            return Err(AppError::bad_request("no refund address on file"));
        },
        Some(lud16) => lud16.clone(),
    };
    let payment: Payment = Payment {
        lud16,
        amount_sats: booking.amount_sats,
        memo: "Ulendo escrow refund".to_owned(),
    };
    Ok(RefundOrder { booking, claim: BookingChange::ClaimRefund { at: now }, payment })
}

impl RefundOrder {
    /// The booking that is refunded.
    pub closed spec fn booking(&self) -> BookingView {
        self.booking@
    }

    /// The claim.
    pub closed spec fn claim(&self) -> BookingChangeView {
        self.claim@
    }

    /// The payment that follows.
    pub closed spec fn payment(&self) -> PaymentView {
        self.payment@
    }

    /// The claim to write.
    pub fn claim_to_write(&self) -> (r: &BookingChange)
        ensures
            r@ == self.claim(),
    {
        &self.claim
    }

    /// The payment to make, where the claim took hold.
    pub fn claimed(self, rows: u64) -> (r: AppResult<RefundPayment>)
        ensures
            refused_as(
                r,
                if rows == 0 {
                    Some(
                        ErrorView::BadRequest(
                            "booking is no longer in a refundable state (another refund may be in progress)"@,
                        ),
                    )
                } else {
                    None
                },
            ),
            r matches Ok(p) ==> p.booking() == self.booking() && p.payment() == self.payment(),
    {
        if rows == 0 {
            return Err(
                AppError::bad_request(
                    "booking is no longer in a refundable state (another refund may be in progress)",
                ),
            );
        }
        Ok(RefundPayment { booking: self.booking, payment: self.payment })
    }
}

/// A refund that has claimed its booking and now pays.
pub struct RefundPayment {
    booking: Booking,
    payment: Payment,
}

/// What a refund comes to, given the wallet's reply. If the payment was made, the
/// booking is refunded and the booker is told; if not, the booking goes back to the
/// status that it had before the claim.
pub open spec fn refund_settled(
    s: Settlement,
    booking: BookingView,
    paid: Result<String, String>,
    now: i64,
) -> bool {
    match paid {
        Ok(_) => {
            &&& s.change@ == BookingChangeView::Refund { at: now }
            &&& s.answer matches Ok(a) && a@ == (EscrowActionView {
                booking_id: booking.id,
                status: "refunded"@,
                amount_sats: booking.amount_sats,
                fee_sats: 0,
                released_sats: booking.amount_sats,
            })
            &&& s.notice matches Some(n) && n@ == booker_notice(
                booking.id,
                "Refund sent"@,
                dec(booking.amount_sats as int) + " sats returned to your Lightning address"@,
            )
        },
        Err(e) => {
            &&& s.change@ == BookingChangeView::UndoRefund { status: booking.status, at: now }
            &&& s.answer matches Err(x) && x@ == ErrorView::Payment("refund failed: "@ + e@)
            &&& s.notice is None
        },
    }
}

impl RefundPayment {
    /// The booking that is refunded.
    pub closed spec fn booking(&self) -> BookingView {
        self.booking@
    }

    /// The payment.
    pub closed spec fn payment(&self) -> PaymentView {
        self.payment@
    }

    /// The payment to make.
    pub fn payment_to_make(&self) -> (r: &Payment)
        ensures
            r@ == self.payment(),
    {
        &self.payment
    }

    /// What follows the payment.
    pub fn paid(self, reply: Result<String, String>, now: i64) -> (r: Settlement)
        ensures
            refund_settled(r, self.booking(), reply, now),
    {
        match reply {
            Ok(_) => {
                let mut body: String = decimal(self.booking.amount_sats);
                body.append(" sats returned to your Lightning address");
                Settlement {
                    change: BookingChange::Refund { at: now },
                    notice: Some(notify_booker(&self.booking, "Refund sent", body.as_str())),
                    answer: Ok(
                        EscrowActionResponse {
                            booking_id: self.booking.id,
                            status: "refunded".to_owned(),
                            amount_sats: self.booking.amount_sats,
                            fee_sats: 0,
                            released_sats: self.booking.amount_sats,
                        },
                    ),
                }
            },
            Err(e) => {
                let mut m: String = "refund failed: ".to_owned();
                m.append(e.as_str());
                Settlement {
                    change: BookingChange::UndoRefund { status: self.booking.status, at: now },
                    answer: Err(AppError::Payment(m)),
                    notice: None,
                }
            },
        }
    }
}

// ── Complete ────────────────────────────────────────────────────────────────

/// Why a booking is not marked as complete, if it is not.
pub open spec fn complete_refusal(
    npub: Seq<char>,
    booking: BookingView,
    merchant_npub: Option<Seq<char>>,
) -> Option<ErrorView> {
    match merchant_npub {
        None => Some(ErrorView::BadRequest("listing has no owner"@)),
        Some(merchant) => if npub != merchant {
            Some(ErrorView::Unauthorized("only the merchant can mark a booking complete"@))
        } else if !under_way(booking.status) {
            Some(ErrorView::BadRequest("cannot complete from status '"@ + booking.status + "'"@))
        } else {
            None
        },
    }
}

/// A booking that its merchant marks as complete.
pub struct Completing {
    booking: Booking,
    now: i64,
}

/// Begins to mark a booking as complete: its merchant asks, and it is under way.
pub fn complete(
    auth: &AuthUser,
    booking: Booking,
    merchant_npub: &Option<String>,
    now: i64,
) -> (r: AppResult<Completing>)
    requires
        is_timestamp(now),
    ensures
        refused_as(r, complete_refusal(auth.npub@, booking@, merchant_npub.deep_view())),
        r matches Ok(c) ==> c.booking() == booking@ && c.at() == now,
{
    match merchant_npub {
        None => Err(AppError::bad_request("listing has no owner")),
        Some(merchant) => {
            if auth.npub != *merchant {
                return Err(AppError::unauthorized("only the merchant can mark a booking complete"));
            }
            if !is_under_way(booking.status.as_str()) {
                let mut m: String = "cannot complete from status '".to_owned();
                m.append(booking.status.as_str());
                m.append("'");
                return Err(AppError::BadRequest(m));
            }
            Ok(Completing { booking, now })
        },
    }
}

/// A booking marked as complete: what the booker and the merchant are told and
/// what is answered.
pub struct Completion {
    pub notice: BookingNotice,
    pub auto_release_at: i64,
    pub answer: EscrowActionResponse,
}

impl Completing {
    #[verifier::type_invariant]
    spec fn inv(self) -> bool {
        is_timestamp(self.now)
    }

    /// The booking that is marked.
    pub closed spec fn booking(&self) -> BookingView {
        self.booking@
    }

    /// The time of the mark.
    pub closed spec fn at(&self) -> i64 {
        self.now
    }

    /// The mark to write.
    pub fn change(&self) -> (r: BookingChange)
        ensures
            r@ == (BookingChangeView::Complete { at: self.at() }),
    {
        BookingChange::Complete { at: self.now }
    }

    /// What follows the mark, where it took hold.
    pub fn written(self, rows: u64) -> (r: AppResult<Completion>)
        ensures
            refused_as(
                r,
                if rows == 0 {
                    Some(ErrorView::BadRequest("booking is no longer in a completable state"@))
                } else {
                    None
                },
            ),
            r matches Ok(done) ==> {
                &&& done.notice@ == booker_notice(
                    self.booking().id,
                    "Ride complete!"@,
                    "Release payment now or it auto-releases in 60 seconds."@,
                )
                &&& done.auto_release_at == self.at() + 60
                &&& done.answer@ == EscrowActionView {
                    booking_id: self.booking().id,
                    status: "completed"@,
                    amount_sats: self.booking().amount_sats,
                    fee_sats: self.booking().fee_sats,
                    released_sats: 0,
                }
            },
    {
        proof {
            use_type_invariant(&self);
        }
        if rows == 0 {
            return Err(AppError::bad_request("booking is no longer in a completable state"));
        }
        Ok(
            Completion {
                notice: notify_booker(
                    &self.booking,
                    "Ride complete!",
                    "Release payment now or it auto-releases in 60 seconds.",
                ),
                auto_release_at: self.now + 60,
                answer: EscrowActionResponse {
                    booking_id: self.booking.id,
                    status: "completed".to_owned(),
                    amount_sats: self.booking.amount_sats,
                    fee_sats: self.booking.fee_sats,
                    released_sats: 0,
                },
            },
        )
    }
}

// ── Direct release ──────────────────────────────────────────────────────────

/// A request to pay out a ride. Only the ride is taken from it: the amount and the
/// address come from the database.
pub struct DirectReleaseRequest {
    pub lud16: String,
    pub amount_sats: i64,
    pub ride_id: String,
}

/// What a direct release reads of a ride.
pub struct PayableRide {
    pub rider_pubkey: String,
    pub matched_driver: Option<String>,
    pub fare_sats: i64,
    pub status: String,
}

/// A ride can be paid out in these statuses.
pub open spec fn payable_status(status: Seq<char>) -> bool {
    status == "accepted"@ || status == "in_progress"@ || status == "matched"@
}

/// Why a ride is not paid out, as far as the ride itself tells.
pub open spec fn direct_refusal(caller: Seq<char>, ride: Option<PayableRide>) -> Option<ErrorView> {
    match ride {
        None => Some(ErrorView::BadRequest("ride not found"@)),
        Some(ride) => if caller != ride.rider_pubkey@ {
            Some(ErrorView::Unauthorized("only the booker can release this ride"@))
        } else if !payable_status(ride.status@) {
            Some(
                ErrorView::BadRequest(
                    "ride not in releasable state (current status: "@ + ride.status@ + ")"@,
                ),
            )
        } else if ride.matched_driver is None {
            Some(ErrorView::BadRequest("ride has no matched driver"@))
        } else {
            None
        },
    }
}

/// A ride that its booker pays out.
pub struct DirectPayout {
    ride_id: String,
    payer_pubkey: String,
    driver_pubkey: String,
    fare_sats: i64,
}

/// Begins to pay out a ride: its booker asks, it is under way and has a driver.
pub fn release_direct(auth: &AuthUser, body: &DirectReleaseRequest, ride: &Option<PayableRide>) -> (r:
    AppResult<DirectPayout>)
    ensures
        refused_as(r, direct_refusal(auth.public_key@, *ride)),
        r matches Ok(p) ==> {
            &&& p.ride_id() == body.ride_id@
            &&& p.payer() == auth.public_key@
            &&& ride->0.matched_driver.deep_view() == Some(p.driver())
            &&& p.fare_sats() == ride->0.fare_sats
        },
{
    match ride {
        None => Err(AppError::bad_request("ride not found")),
        Some(ride) => {
            if auth.public_key != ride.rider_pubkey {
                return Err(AppError::unauthorized("only the booker can release this ride"));
            }
            let status: &str = ride.status.as_str();
            if !same(status, "accepted") && !same(status, "in_progress") && !same(
                status,
                "matched",
            ) {
                let mut m: String = "ride not in releasable state (current status: ".to_owned();
                m.append(status);
                m.append(")");
                return Err(AppError::BadRequest(m));
            }
            match &ride.matched_driver {
                None => Err(AppError::bad_request("ride has no matched driver")),
                Some(driver) => Ok(
                    DirectPayout {
                        ride_id: body.ride_id.clone(),
                        payer_pubkey: auth.public_key.clone(),
                        driver_pubkey: driver.clone(),
                        fare_sats: ride.fare_sats,
                    },
                ),
            }
        },
    }
}

/// A Lightning address that can be paid: it holds an `@`.
pub open spec fn usable_address(lud16: Option<Seq<char>>) -> bool {
    lud16 is Some && lud16->0.contains('@')
}

/// The least amount that is paid over Lightning, after the fee.
pub const MIN_LIGHTNING_SATS: i64 = 100;

/// Why a ride is not paid out, as far as its driver's address and its fare tell.
pub open spec fn direct_order_refusal(
    fare_sats: i64,
    lud16: Option<Seq<char>>,
    bps: u64,
) -> Option<ErrorView> {
    let driver_sats = fare_sats - fee_of(fare_sats as int, bps as int);
    if !usable_address(lud16) {
        Some(ErrorView::BadRequest("driver has no valid lightning address on file"@))
    } else if fare_sats <= 0 {
        Some(ErrorView::BadRequest("ride fare is zero or invalid"@))
    } else if driver_sats < MIN_LIGHTNING_SATS {
        Some(
            ErrorView::BadRequest(
                "amount too low for Lightning (min 100 sats after fee, would pay "@ + dec(
                    driver_sats,
                ) + " sats)"@,
            ),
        )
    } else {
        None
    }
}

impl DirectPayout {
    /// The ride.
    pub closed spec fn ride_id(&self) -> Seq<char> {
        self.ride_id@
    }

    /// The booker who pays.
    pub closed spec fn payer(&self) -> Seq<char> {
        self.payer_pubkey@
    }

    /// The driver who is paid.
    pub closed spec fn driver(&self) -> Seq<char> {
        self.driver_pubkey@
    }

    /// The ride's own fare.
    pub closed spec fn fare_sats(&self) -> i64 {
        self.fare_sats
    }

    /// The driver whose address is to be looked up.
    pub fn driver_pubkey(&self) -> (r: &str)
        ensures
            r@ == self.driver(),
    {
        self.driver_pubkey.as_str()
    }

    /// Whether the payout can be dealt with: there is no address or no fare, or the fee
    /// on the fare can be computed at the rate.
    pub fn fits(&self, driver_lud16: &Option<String>, escrow_fee_bps: u64) -> (r: bool)
        ensures
            r == (usable_address(driver_lud16.deep_view()) && self.fare_sats() > 0
                ==> fee_fits_unsigned(self.fare_sats(), escrow_fee_bps)),
    {
        let usable: bool = match driver_lud16 {
            Some(s) => contains_char(s.as_str(), '@'),
            None => false,
        };
        !usable || self.fare_sats <= 0 || can_compute_fee_unsigned(self.fare_sats, escrow_fee_bps)
    }

    /// The pending payout of the ride: the ride's own fare, less the fee, to the
    /// address in the driver's own profile.
    pub fn order(
        self,
        driver_lud16: Option<String>,
        escrow_fee_bps: u64,
        release_id: String,
        now: i64,
    ) -> (r: AppResult<DirectOrder>)
        requires
            usable_address(driver_lud16.deep_view()) && self.fare_sats() > 0 ==> fee_fits_unsigned(
                self.fare_sats(),
                escrow_fee_bps,
            ),
        ensures
            refused_as(
                r,
                direct_order_refusal(self.fare_sats(), driver_lud16.deep_view(), escrow_fee_bps),
            ),
            r matches Ok(order) ==> {
                let fee = fee_of(self.fare_sats() as int, escrow_fee_bps as int);
                &&& order.driver() == self.driver()
                &&& order.row() == (DirectReleaseView {
                    id: release_id@,
                    ride_id: self.ride_id(),
                    payer_pubkey: self.payer(),
                    lud16: driver_lud16->0@,
                    amount_sats: self.fare_sats(),
                    driver_sats: (self.fare_sats() - fee) as i64,
                    fee_sats: fee as i64,
                    status: "pending"@,
                    error_message: None,
                    blink_status: None,
                    created_at: now,
                    updated_at: now,
                })
                &&& order.row().driver_sats + order.row().fee_sats == order.row().amount_sats
                &&& order.row().driver_sats >= MIN_LIGHTNING_SATS
            },
    {
        let lud16: String = match driver_lud16 {
            Some(s) => {
                if !contains_char(s.as_str(), '@') {
                    return Err(
                        AppError::bad_request("driver has no valid lightning address on file"),
                    );
                }
                s
            },
            None => {
                return Err(AppError::bad_request("driver has no valid lightning address on file"));
            },
        };
        if self.fare_sats <= 0 {
            return Err(AppError::bad_request("ride fare is zero or invalid"));
        }
        let split: FeeSplit = split_fee_unsigned(self.fare_sats, escrow_fee_bps);
        if split.payee_sats < MIN_LIGHTNING_SATS {
            let sats: String = decimal(split.payee_sats);
            let mut m: String =
                "amount too low for Lightning (min 100 sats after fee, would pay ".to_owned();
            m.append(sats.as_str());
            m.append(" sats)");
            return Err(AppError::BadRequest(m));
        }
        Ok(
            DirectOrder {
                driver_pubkey: self.driver_pubkey,
                row: DirectRelease {
                    id: release_id,
                    ride_id: self.ride_id,
                    payer_pubkey: self.payer_pubkey,
                    lud16,
                    amount_sats: self.fare_sats,
                    driver_sats: split.payee_sats,
                    fee_sats: split.fee_sats,
                    status: "pending".to_owned(),
                    error_message: None,
                    blink_status: None,
                    created_at: now,
                    updated_at: now,
                },
            },
        )
    }
}

/// A payout that is entered as pending before it pays. The payment comes out only
/// once the entry is made.
pub struct DirectOrder {
    driver_pubkey: String,
    row: DirectRelease,
}

/// Why a pending payout was not entered, going by what the database reports.
pub open spec fn enter_refusal(error: Option<Seq<char>>) -> Option<ErrorView> {
    match error {
        None => None,
        Some(e) => if occurs(e, "UNIQUE"@) || occurs(e, "constraint"@) {
            Some(
                ErrorView::BadRequest("a release for this ride is already pending or completed"@),
            )
        } else {
            Some(ErrorView::Internal("pending insert failed: "@ + e))
        },
    }
}

/// The payment of a payout.
pub open spec fn direct_payment(row: DirectReleaseView) -> PaymentView {
    PaymentView {
        lud16: row.lud16,
        amount_sats: row.driver_sats,
        memo: "Ulendo ride "@ + row.ride_id,
    }
}

impl DirectOrder {
    /// The driver who is paid.
    pub closed spec fn driver(&self) -> Seq<char> {
        self.driver_pubkey@
    }

    /// The pending payout.
    pub closed spec fn row(&self) -> DirectReleaseView {
        self.row@
    }

    /// The pending payout to enter.
    pub fn row_to_enter(&self) -> (r: &DirectRelease)
        ensures
            r@ == self.row(),
    {
        &self.row
    }

    /// The payment to make, where the entry was made.
    pub fn entered(self, error: &Option<String>) -> (r: AppResult<DirectPayment>)
        ensures
            refused_as(r, enter_refusal(error.deep_view())),
            r matches Ok(p) ==> {
                &&& p.driver() == self.driver()
                &&& p.row() == self.row()
                &&& p.payment() == direct_payment(self.row())
            },
    {
        match error {
            Some(e) => {
                if contains_text(e.as_str(), "UNIQUE") || contains_text(e.as_str(), "constraint") {
                    return Err(
                        AppError::bad_request(
                            "a release for this ride is already pending or completed",
                        ),
                    );
                }
                let mut m: String = "pending insert failed: ".to_owned();
                m.append(e.as_str());
                Err(AppError::Internal(m))
            },
            None => {
                let mut memo: String = "Ulendo ride ".to_owned();
                memo.append(self.row.ride_id.as_str());
                let payment: Payment = Payment {
                    lud16: self.row.lud16.clone(),
                    amount_sats: self.row.driver_sats,
                    memo,
                };
                Ok(DirectPayment { driver_pubkey: self.driver_pubkey, row: self.row, payment })
            },
        }
    }
}

/// A payout that has been entered and now pays.
pub struct DirectPayment {
    driver_pubkey: String,
    row: DirectRelease,
    payment: Payment,
}

/// What a driver earned, to be added to the driver's totals.
pub struct DriverEarning {
    pub driver_pubkey: String,
    pub sats: i64,
    pub at: i64,
}

/// The answer to a direct release.
pub struct DirectReleaseReply {
    pub status: String,
    pub driver_sats: i64,
    pub fee_sats: i64,
    pub lud16: String,
    pub release_id: String,
    pub blink_status: String,
}

/// The end of a direct release: the payout's row, what is written to the ride and
/// to the driver's totals, and what is answered.
pub struct DirectSettlement {
    pub row: DirectRelease,
    pub ride_change: Option<RideChange>,
    pub earning: Option<DriverEarning>,
    pub answer: AppResult<DirectReleaseReply>,
}

/// A payout's row once the wallet has replied.
pub open spec fn settled_row(
    row: DirectReleaseView,
    paid: Result<String, String>,
    now: i64,
) -> DirectReleaseView {
    match paid {
        Ok(blink_status) => DirectReleaseView {
            status: "released"@,
            blink_status: Some(blink_status@),
            updated_at: now,
            ..row
        },
        Err(e) => DirectReleaseView {
            status: "failed"@,
            error_message: Some("Lightning payment failed: "@ + e@),
            updated_at: now,
            ..row
        },
    }
}

/// What a direct release comes to, given the wallet's reply. If the payment was made,
/// the ride is completed and the driver's totals grow; if not, neither changes.
pub open spec fn direct_settled(
    s: DirectSettlement,
    row: DirectReleaseView,
    driver: Seq<char>,
    paid: Result<String, String>,
    now: i64,
) -> bool {
    &&& s.row@ == settled_row(row, paid, now)
    &&& match paid {
        Ok(blink_status) => {
            &&& s.ride_change matches Some(c) && c@ == RideChangeView::Complete { at: now }
            &&& s.earning matches Some(e) && e.driver_pubkey@ == driver && e.sats
                == row.driver_sats && e.at == now
            &&& s.answer matches Ok(a) && {
                &&& a.status@ == "released"@
                &&& a.driver_sats == row.driver_sats
                &&& a.fee_sats == row.fee_sats
                &&& a.lud16@ == row.lud16
                &&& a.release_id@ == row.id
                &&& a.blink_status@ == blink_status@
            }
        },
        Err(e) => {
            &&& s.ride_change is None
            &&& s.earning is None
            &&& s.answer matches Err(x) && x@ == ErrorView::BadRequest(
                "Lightning payment failed: "@ + e@,
            )
        },
    }
}

impl DirectPayment {
    /// The driver who is paid.
    pub closed spec fn driver(&self) -> Seq<char> {
        self.driver_pubkey@
    }

    /// The pending payout.
    pub closed spec fn row(&self) -> DirectReleaseView {
        self.row@
    }

    /// The payment.
    pub closed spec fn payment(&self) -> PaymentView {
        self.payment@
    }

    /// The payment to make.
    pub fn payment_to_make(&self) -> (r: &Payment)
        ensures
            r@ == self.payment(),
    {
        &self.payment
    }

    /// What follows the payment.
    pub fn paid(self, reply: Result<String, String>, now: i64) -> (r: DirectSettlement)
        ensures
            direct_settled(r, self.row(), self.driver(), reply, now),
    {
        let mut row: DirectRelease = self.row;
        match reply {
            Ok(blink_status) => {
                let answer: DirectReleaseReply = DirectReleaseReply {
                    status: "released".to_owned(),
                    driver_sats: row.driver_sats,
                    fee_sats: row.fee_sats,
                    lud16: row.lud16.clone(),
                    release_id: row.id.clone(),
                    blink_status: blink_status.clone(),
                };
                let earning: DriverEarning = DriverEarning {
                    driver_pubkey: self.driver_pubkey,
                    sats: row.driver_sats,
                    at: now,
                };
                row.status = "released".to_owned();
                row.blink_status = Some(blink_status);
                row.updated_at = now;
                DirectSettlement {
                    row,
                    ride_change: Some(RideChange::Complete { at: now }),
                    earning: Some(earning),
                    answer: Ok(answer),
                }
            },
            Err(e) => {
                let mut m: String = "Lightning payment failed: ".to_owned();
                m.append(e.as_str());
                row.status = "failed".to_owned();
                row.error_message = Some(m.clone());
                row.updated_at = now;
                DirectSettlement {
                    row,
                    ride_change: None,
                    earning: None,
                    answer: Err(AppError::BadRequest(m)),
                }
            },
        }
    }
}

/// The status that a driver is told of a ride's payout: that of the latest one, or
/// that there is none yet.
pub fn direct_release_status(latest: &Option<DirectRelease>) -> (r: String)
    ensures
        r@ == (match *latest {
            Some(row) => row.status@,
            None => "no_release_yet"@,
        }),
{
    match latest {
        Some(row) => row.status.clone(),
        None => "no_release_yet".to_owned(),
    }
}

} // verus!

//! What requests about a booking's escrow come to, from the first step to the last.

use vstd::prelude::*;

use crate::auth::AuthUser;
use crate::db::Booking;
use crate::db::BookingChange;
use crate::db::changes::BookingChangeView;
use crate::db::models::BookingView;
use crate::error::AppResult;
use crate::error::ErrorView;
use crate::laws::is_rate_of;
use crate::laws::lemma_fee_is_the_rate;
use crate::laws::lemma_statuses_differ;
use crate::laws::texts::lemma_ascii_prefix;
use crate::money::Payment;
use crate::routes::bookings::CreateBookingRequest;
use crate::routes::bookings::UpdateStatusRequest;
use crate::routes::bookings::create;
use crate::routes::bookings::fetch_booking;
use crate::routes::bookings::get_one;
use crate::routes::bookings::update_status;
use crate::routes::escrow::Completing;
use crate::routes::escrow::Completion;
use crate::routes::escrow::DisputePlan;
use crate::routes::escrow::FundResponse;
use crate::routes::escrow::Funding;
use crate::routes::escrow::InvoiceOrder;
use crate::routes::escrow::RefundOrder;
use crate::routes::escrow::RefundPayment;
use crate::routes::escrow::Release;
use crate::routes::escrow::ReleaseOrder;
use crate::routes::escrow::ReleasePayment;
use crate::routes::escrow::Settlement;
use crate::routes::escrow::can_dispute;
use crate::routes::escrow::complete;
use crate::routes::escrow::dispute;
use crate::routes::escrow::fund;
use crate::routes::escrow::refund;
use crate::routes::escrow::release;
use crate::services::blink::InvoiceResult;
use crate::services::push::BookingNotice;
use crate::text::dec;

verus! {

// ── Writes ──────────────────────────────────────────────────────────────────

/// No write to a booking changes what was agreed on: the listing, the booker, the type,
/// the amount, the address to pay back to, the ride and its places. The fee changes only
/// with a payment that takes one. What was confirmed or has happened is not forgotten.
pub proof fn law_writes_keep_the_agreement(row: BookingView, change: BookingChangeView)
    ensures
        ({
            let after = change.after(row);
            &&& after.id == row.id
            &&& after.listing_id == row.listing_id
            &&& after.booker_npub == row.booker_npub
            &&& after.booking_type == row.booking_type
            &&& after.amount_sats == row.amount_sats
            &&& after.lud16_refund == row.lud16_refund
            &&& after.ride_id == row.ride_id
            &&& after.pickup_text == row.pickup_text
            &&& after.destination_text == row.destination_text
            &&& after.created_at == row.created_at
            &&& !(change is AutoRelease) && !(change is InstantRelease) ==> after.fee_sats
                == row.fee_sats
            &&& !(change is AttachInvoice) ==> {
                &&& after.payment_request == row.payment_request
                &&& after.payment_hash == row.payment_hash
                &&& after.invoice_expires_at == row.invoice_expires_at
            }
            &&& row.rider_confirmed_at is Some ==> after.rider_confirmed_at is Some
            &&& row.driver_confirmed_at is Some ==> after.driver_confirmed_at is Some
            &&& row.pickup_confirmed_at is Some ==> after.pickup_confirmed_at is Some
            &&& row.funded_at is Some ==> after.funded_at is Some
            &&& row.completed_at is Some ==> after.completed_at is Some
            &&& !(change is RiderConfirm) ==> after.rider_confirmed_at == row.rider_confirmed_at
            &&& !(change is DriverConfirm) ==> after.driver_confirmed_at == row.driver_confirmed_at
            &&& !(change is ConfirmPickup) ==> after.pickup_confirmed_at == row.pickup_confirmed_at
            &&& !(change is Fund) ==> after.funded_at == row.funded_at
        }),
{
}

/// Each write that takes hold brings the booking to its status and notes the time, and leaves
/// everything else about it as it was.
pub proof fn law_writes_note_their_time(
    row: BookingView,
    at: i64,
    fee_sats: i64,
    text: Seq<char>,
    other: Seq<char>,
    expiry: i64,
)
    ensures
        row.status == "pending"@ ==> (BookingChangeView::Fund { at }).after(row) == (BookingView {
            status: "funded"@,
            funded_at: Some(at),
            updated_at: at,
            ..row
        }),
        (BookingChangeView::AttachInvoice {
            payment_hash: text,
            payment_request: other,
            expires_at: expiry,
            at,
        }).after(row) == (BookingView {
            payment_hash: Some(text),
            payment_request: Some(other),
            invoice_expires_at: Some(expiry),
            updated_at: at,
            ..row
        }),
        (BookingChangeView::Hold { at }).after(row) == (BookingView {
            status: "held"@,
            held_at: Some(at),
            updated_at: at,
            ..row
        }),
        row.status == "funded"@ || row.status == "held"@ || row.status == "completed"@ ==> (
        BookingChangeView::ClaimRelease { at }).after(row) == (BookingView {
            status: "releasing"@,
            updated_at: at,
            ..row
        }),
        row.status == "funded"@ || row.status == "held"@ ==> (BookingChangeView::ClaimRefund {
            at,
        }).after(row) == (BookingView { status: "refunding"@, updated_at: at, ..row }),
        row.status == "releasing"@ ==> (BookingChangeView::UndoRelease { status: text, at }).after(
            row,
        ) == (BookingView { status: text, updated_at: at, ..row }),
        row.status == "refunding"@ ==> (BookingChangeView::UndoRefund { status: text, at }).after(
            row,
        ) == (BookingView { status: text, updated_at: at, ..row }),
        (BookingChangeView::Release { at }).after(row) == (BookingView {
            status: "released"@,
            released_at: Some(at),
            updated_at: at,
            ..row
        }),
        row.status == "completed"@ || row.status == "in_progress"@ ==> (
        BookingChangeView::AutoRelease { fee_sats, at }).after(row) == (BookingView {
            status: "released"@,
            fee_sats,
            released_at: Some(at),
            updated_at: at,
            ..row
        }),
        row.completed_at is Some ==> (BookingChangeView::InstantRelease { fee_sats, at }).after(row)
            == (BookingView {
            status: "released"@,
            fee_sats,
            released_at: Some(at),
            updated_at: at,
            ..row
        }),
        row.completed_at is None ==> (BookingChangeView::InstantRelease { fee_sats, at }).after(row)
            == (BookingView {
            status: "released"@,
            fee_sats,
            released_at: Some(at),
            completed_at: Some(at),
            updated_at: at,
            ..row
        }),
        (BookingChangeView::Dispute { at }).after(row) == (BookingView {
            status: "disputed"@,
            disputed_at: Some(at),
            updated_at: at,
            ..row
        }),
        (BookingChangeView::Refund { at }).after(row) == (BookingView {
            status: "refunded"@,
            refunded_at: Some(at),
            updated_at: at,
            ..row
        }),
        row.status == "funded"@ || row.status == "held"@ || row.status == "in_progress"@ ==> (
        BookingChangeView::Complete { at }).after(row) == (BookingView {
            status: "completed"@,
            completed_at: Some(at),
            updated_at: at,
            ..row
        }),
        (BookingChangeView::ConfirmPickup { at }).after(row) == (BookingView {
            status: "in_progress"@,
            pickup_confirmed_at: Some(at),
            updated_at: at,
            ..row
        }),
        (BookingChangeView::DriverConfirm { at }).after(row) == (BookingView {
            driver_confirmed_at: Some(at),
            updated_at: at,
            ..row
        }),
        (BookingChangeView::RiderConfirm { at }).after(row) == (BookingView {
            rider_confirmed_at: Some(at),
            updated_at: at,
            ..row
        }),
        row.status != "released"@ ==> (BookingChangeView::AwaitOther { at }).after(row) == (
        BookingView { status: "completed"@, completed_at: Some(at), ..row }),
        (BookingChangeView::Cancel { at }).after(row) == (BookingView {
            status: "cancelled"@,
            cancelled_at: Some(at),
            updated_at: at,
            ..row
        }),
        row.status == "pending"@ ==> (BookingChangeView::CancelUnpaid { at }).after(row) == (
        BookingView { status: "cancelled"@, cancelled_at: Some(at), updated_at: at, ..row }),
{
}

/// A guarded write leaves a booking of any other status just as it is: nothing is funded
/// twice or after its end, nothing is claimed that cannot be paid out, and nothing that
/// was paid in is cancelled as unpaid.
pub proof fn law_guarded_writes_leave_others_alone(
    row: BookingView,
    at: i64,
    fee_sats: i64,
    text: Seq<char>,
)
    ensures
        row.status != "pending"@ ==> (BookingChangeView::Fund { at }).after(row) == row,
        row.status != "pending"@ ==> (BookingChangeView::CancelUnpaid { at }).after(row) == row,
        row.status != "releasing"@ ==> (BookingChangeView::UndoRelease { status: text, at }).after(
            row,
        ) == row,
        row.status != "refunding"@ ==> (BookingChangeView::UndoRefund { status: text, at }).after(
            row,
        ) == row,
        row.status != "funded"@ && row.status != "held"@ && row.status != "completed"@
            ==> (BookingChangeView::ClaimRelease { at }).after(row) == row,
        row.status != "funded"@ && row.status != "held"@ ==> (BookingChangeView::ClaimRefund {
            at,
        }).after(row) == row,
        row.status != "completed"@ && row.status != "in_progress"@
            ==> (BookingChangeView::AutoRelease { fee_sats, at }).after(row) == row,
        row.status != "funded"@ && row.status != "held"@ && row.status != "in_progress"@
            ==> (BookingChangeView::Complete { at }).after(row) == row,
        row.status == "released"@ ==> (BookingChangeView::AwaitOther { at }).after(row) == row,
{
}

// ── Entering and seeing a booking ───────────────────────────────────────────

/// A booking is entered for every positive amount of an available listing, as a listing or
/// as a ride, and for nothing else. It is the caller's, pending, for the amount asked for,
/// and its fee is the rate's share of that amount. Nothing has happened to it yet.
pub proof fn law_bookings_are_entered(
    auth: AuthUser,
    body: CreateBookingRequest,
    listing_exists: bool,
    bps: u64,
    id: String,
    now: i64,
    r: AppResult<Booking>,
)
    requires
        call_ensures(create, (&auth, &body, listing_exists, bps, id, now), r),
    ensures
        r is Ok <==> listing_exists && body.amount_sats >= 1 && (match body.booking_type {
            Some(t) => t@ == "listing"@ || t@ == "ride"@,
            None => true,
        }),
        !listing_exists ==> r->Err_0@ == ErrorView::NotFound(
            "listing "@ + body.listing_id@ + " not found"@,
        ),
        listing_exists && body.amount_sats < 1 ==> r->Err_0@ == ErrorView::BadRequest(
            "amount_sats must be positive"@,
        ),
        listing_exists && body.amount_sats >= 1 && r is Err ==> r->Err_0@ == ErrorView::BadRequest(
            "booking_type must be listing or ride"@,
        ),
        r matches Ok(b) ==> {
            &&& b.id@ == id@
            &&& b.booker_npub@ == auth.npub@
            &&& b.listing_id@ == body.listing_id@
            &&& b.status@ == "pending"@
            &&& b.amount_sats == body.amount_sats
            &&& is_rate_of(b.fee_sats as int, body.amount_sats as int, bps as int)
            &&& b.lud16_refund == body.lud16_refund
            &&& b.ride_id == body.ride_id
            &&& b.pickup_text == body.pickup_text
            &&& b.destination_text == body.destination_text
            &&& body.booking_type matches Some(t) ==> b.booking_type@ == t@
            &&& body.booking_type is None ==> b.booking_type@ == "listing"@
            &&& b.created_at == now && b.updated_at == now
            &&& b.payment_request is None && b.payment_hash is None && b.invoice_expires_at is None
            &&& b.funded_at is None && b.held_at is None && b.released_at is None
            &&& b.disputed_at is None && b.refunded_at is None && b.completed_at is None
            &&& b.rider_confirmed_at is None && b.driver_confirmed_at is None
            &&& b.pickup_confirmed_at is None && b.cancelled_at is None
        },
{
    lemma_fee_is_the_rate(body.amount_sats as int, bps as int);
}

/// With a rate of at most a whole, a new booking's fee is not negative and leaves something
/// to pay out that is not negative either; a higher amount does not cost a lower fee.
pub proof fn law_fees_are_part_of_the_amount(
    auth: AuthUser,
    body: CreateBookingRequest,
    more: CreateBookingRequest,
    bps: u64,
    id: String,
    now: i64,
    r: AppResult<Booking>,
    s: AppResult<Booking>,
)
    requires
        call_ensures(create, (&auth, &body, true, bps, id, now), r),
        call_ensures(create, (&auth, &more, true, bps, id, now), s),
        body.amount_sats <= more.amount_sats,
    ensures
        r is Ok && bps <= 10_000 ==> 0 <= r->Ok_0.fee_sats <= r->Ok_0.amount_sats,
        r is Ok && s is Ok ==> r->Ok_0.fee_sats <= s->Ok_0.fee_sats,
        r is Ok && s is Ok && bps <= 10_000 ==> r->Ok_0.amount_sats - r->Ok_0.fee_sats
            <= s->Ok_0.amount_sats - s->Ok_0.fee_sats,
{
    let (a, b) = (body.amount_sats as int, more.amount_sats as int);
    let n = bps as int;
    if r is Ok {
        assert(0 <= a * n) by (nonlinear_arith)
            requires
                0 <= a,
                0 <= n,
        ;
        if n <= 10_000 {
            assert(a * n <= a * 10_000) by (nonlinear_arith)
                requires
                    0 <= a,
                    n <= 10_000,
            ;
            assert(b * n - a * n <= 10_000 * (b - a)) by (nonlinear_arith)
                requires
                    a <= b,
                    n <= 10_000,
            ;
        }
        assert(a * n <= b * n) by (nonlinear_arith)
            requires
                a <= b,
                0 <= n,
        ;
    }
}

/// A booking is shown to its booker and to the owner of its listing, and to nobody else.
pub proof fn law_parties_see_their_booking(
    auth: AuthUser,
    booking: Booking,
    is_owner: bool,
    r: AppResult<()>,
    found: Option<Booking>,
    id: &str,
    fetched: AppResult<Booking>,
)
    requires
        call_ensures(get_one, (&auth, &booking, is_owner), r),
        call_ensures(fetch_booking, (found, id), fetched),
    ensures
        r is Ok <==> booking.booker_npub@ == auth.npub@ || is_owner,
        r is Err ==> r->Err_0@ == ErrorView::Unauthorized("access denied"@),
        fetched is Ok <==> found is Some,
        found is Some ==> fetched->Ok_0 == found->0,
        found is None ==> fetched->Err_0@ == ErrorView::NotFound("booking "@ + id@ + " not found"@),
{
}

/// The merchant, and nobody else, acknowledges funds that have come in, once: the booking is
/// then held since now, and its booker is told.
pub proof fn law_merchants_acknowledge_funds(
    booking: Booking,
    body: UpdateStatusRequest,
    is_listing_owner: bool,
    now: i64,
    r: AppResult<(BookingChange, BookingNotice)>,
    again: AppResult<(BookingChange, BookingNotice)>,
    held: Booking,
)
    requires
        call_ensures(update_status, (&booking, &body, is_listing_owner, now), r),
        r is Ok ==> held@ == r->Ok_0.0@.after(booking@),
        call_ensures(update_status, (&held, &body, is_listing_owner, now), again),
    ensures
        r is Ok <==> body.status@ == "held"@ && is_listing_owner && booking.status@ == "funded"@,
        r is Ok ==> {
            &&& held.status@ == "held"@
            &&& held.held_at == Some(now)
            &&& held.amount_sats == booking.amount_sats
            &&& r->Ok_0.1.booking_id@ == booking.id@
            &&& r->Ok_0.1.title@ == "Merchant confirmed"@
            &&& r->Ok_0.1.body@ == "Your funds are held in escrow."@
            &&& r->Ok_0.1.kind@ == "booking_update"@
            &&& again is Err
        },
        body.status@ != "held"@ ==> r->Err_0@ == ErrorView::BadRequest(
            "use /escrow routes for release, dispute, and refund"@,
        ),
        body.status@ == "held"@ && !is_listing_owner ==> r->Err_0@ == ErrorView::Unauthorized(
            "only the merchant can confirm receipt"@,
        ),
        body.status@ == "held"@ && is_listing_owner && r is Err ==> r->Err_0@
            == ErrorView::BadRequest("can't transition from '"@ + booking.status@ + "' to 'held'"@),
{
    lemma_statuses_differ();
}

// ── Fund ────────────────────────────────────────────────────────────────────

/// The booker of a pending booking, and nobody else, gets an invoice for it: for the whole
/// amount of the booking. The wallet's invoice is noted on the booking, which stays pending
/// until the invoice is paid, and is what is answered.
pub proof fn law_bookers_fund_the_whole_amount(
    auth: AuthUser,
    booking: Booking,
    begun: AppResult<Funding>,
    name: Option<String>,
    order: InvoiceOrder,
    reply: Result<InvoiceResult, String>,
    now: i64,
    done: AppResult<(BookingChange, FundResponse)>,
)
    requires
        call_ensures(fund, (&auth, booking), begun),
        begun is Ok ==> call_ensures(Funding::invoice, (&begun->Ok_0, &name), order),
        begun is Ok ==> call_ensures(Funding::invoiced, (begun->Ok_0, reply, now), done),
    ensures
        begun is Ok <==> booking.booker_npub@ == auth.npub@ && booking.status@ == "pending"@,
        booking.booker_npub@ != auth.npub@ ==> begun->Err_0@ == ErrorView::Unauthorized(
            "only the booker can fund this escrow"@,
        ),
        booking.booker_npub@ == auth.npub@ && begun is Err ==> begun->Err_0@
            == ErrorView::BadRequest("booking is '"@ + booking.status@ + "', expected 'pending'"@),
        begun is Ok ==> {
            &&& order.amount_sats == booking.amount_sats
            &&& "Ulendo escrow: "@.is_prefix_of(order.memo@)
            &&& name matches Some(n) ==> ("Ulendo escrow: "@ + n@).is_prefix_of(order.memo@)
            &&& name is None ==> ("Ulendo escrow: "@ + "Ulendo service"@).is_prefix_of(order.memo@)
            &&& name is Some && booking.id@.len() >= 8 && (forall|i: int|
                0 <= i < booking.id@.len() ==> #[trigger] booking.id@[i] <= '\u{7f}') ==> order.memo@
                == "Ulendo escrow: "@ + name->0@ + " (booking "@ + booking.id@.take(8) + ")"@
            &&& done is Ok <==> reply is Ok
            &&& reply is Err ==> done->Err_0@ == ErrorView::Payment(reply->Err_0@)
        },
        begun is Ok && reply is Ok ==> {
            let row = done->Ok_0.0@.after(booking@);
            let answer = done->Ok_0.1;
            let inv = reply->Ok_0;
            &&& row.status == "pending"@
            &&& row.payment_request == Some(inv.payment_request@)
            &&& row.payment_hash == Some(inv.payment_hash@)
            &&& row.invoice_expires_at == Some(inv.expires_at)
            &&& row.amount_sats == booking.amount_sats
            &&& answer.booking_id@ == booking.id@
            &&& answer.payment_request@ == inv.payment_request@
            &&& answer.payment_hash@ == inv.payment_hash@
            &&& answer.amount_sats == booking.amount_sats
            &&& answer.expires_at == inv.expires_at
        },
{
    if begun is Ok {
        let memo = order.memo@;
        let lead = "Ulendo escrow: "@;
        assert(lead =~= memo.subrange(0, lead.len() as int));
        if booking.id@.len() >= 8 && (forall|i: int|
            0 <= i < booking.id@.len() ==> #[trigger] booking.id@[i] <= '\u{7f}') {
            lemma_ascii_prefix(booking.id@, 8);
        }
        if name is Some {
            let n = lead + name->0@;
            assert(n =~= memo.subrange(0, n.len() as int));
        } else {
            let n = lead + "Ulendo service"@;
            assert(n =~= memo.subrange(0, n.len() as int));
        }
    }
}

// ── Release ─────────────────────────────────────────────────────────────────

/// Its booker releases a booking whose funds are in, whether its merchant has acknowledged
/// them or marked the service as complete, and nobody else does. It is paid out only where
/// the merchant has an address.
pub proof fn law_bookers_release(
    auth: AuthUser,
    booking: Booking,
    begun: AppResult<Release>,
    lud16: Option<String>,
    now: i64,
    ordered: AppResult<ReleaseOrder>,
)
    requires
        call_ensures(release, (&auth, booking), begun),
        begun is Ok ==> call_ensures(Release::order, (begun->Ok_0, lud16, now), ordered),
    ensures
        begun is Ok <==> booking.booker_npub@ == auth.npub@ && (booking.status@ == "funded"@
            || booking.status@ == "held"@ || booking.status@ == "completed"@),
        booking.booker_npub@ != auth.npub@ ==> begun->Err_0@ == ErrorView::Unauthorized(
            "only the booker can release escrow"@,
        ),
        booking.booker_npub@ == auth.npub@ && begun is Err ==> begun->Err_0@
            == ErrorView::BadRequest("cannot release from status '"@ + booking.status@ + "'"@),
        begun is Ok ==> (ordered is Ok <==> lud16 is Some),
        begun is Ok && lud16 is None ==> ordered->Err_0@ == ErrorView::BadRequest(
            "merchant has no lightning address"@,
        ),
{
}

/// A release pays the merchant, at the merchant's address, what is left of the booking's
/// amount after its fee, in every status that it can be released from: payment and fee add
/// up to the amount. The payment comes out only where the claim took hold, and what is
/// answered and told is what was paid. If the payment was made, the booking is released
/// since then; if it was not, the booking is as it was before, and nobody is told.
pub proof fn law_release_pays_the_amount_less_the_fee(
    auth: AuthUser,
    booking: Booking,
    begun: AppResult<Release>,
    lud16: Option<String>,
    now: i64,
    ordered: AppResult<ReleaseOrder>,
    claim: &BookingChange,
    rows: u64,
    claimed: AppResult<ReleasePayment>,
    payment: &Payment,
    reply: Result<String, String>,
    later: i64,
    end: Settlement,
)
    requires
        i64::MIN <= booking.amount_sats - booking.fee_sats <= i64::MAX,
        call_ensures(release, (&auth, booking), begun),
        begun is Ok ==> call_ensures(Release::order, (begun->Ok_0, lud16, now), ordered),
        ordered is Ok ==> call_ensures(ReleaseOrder::claim_to_write, (&ordered->Ok_0,), claim),
        ordered is Ok ==> call_ensures(ReleaseOrder::claimed, (ordered->Ok_0, rows), claimed),
        claimed is Ok ==> call_ensures(
            ReleasePayment::payment_to_make,
            (&claimed->Ok_0,),
            payment,
        ),
        claimed is Ok ==> call_ensures(ReleasePayment::paid, (claimed->Ok_0, reply, later), end),
        begun is Ok,
        ordered is Ok,
    ensures
        claim@.applies(booking@),
        claim@.after(booking@).status == "releasing"@,
        claimed is Ok <==> rows > 0,
        claimed is Err ==> claimed->Err_0@ == ErrorView::BadRequest(
            "booking is no longer releasable (another release may be in progress)"@,
        ),
        claimed is Ok ==> {
            let row = end.change@.after(claim@.after(booking@));
            &&& payment.amount_sats + booking.fee_sats == booking.amount_sats
            &&& lud16 is Some
            &&& payment.lud16@ == lud16->0@
            &&& payment.memo@ == "Ulendo escrow release"@
            &&& reply is Ok ==> {
                &&& row.status == "released"@
                &&& row.released_at == Some(later)
                &&& row.fee_sats == booking.fee_sats
                &&& end.answer is Ok
                &&& end.answer->Ok_0.booking_id@ == booking.id@
                &&& end.answer->Ok_0.status@ == "released"@
                &&& end.answer->Ok_0.amount_sats == booking.amount_sats
                &&& end.answer->Ok_0.fee_sats == booking.fee_sats
                &&& end.answer->Ok_0.released_sats == payment.amount_sats
                &&& end.notice is Some
                &&& end.notice->0.booking_id@ == booking.id@
                &&& end.notice->0.kind@ == "escrow_released"@
                &&& end.notice->0.title@ == "Payment released!"@
                &&& end.notice->0.body@ == dec(payment.amount_sats as int)
                    + " sats sent to your Lightning address"@
            }
            &&& reply is Err ==> {
                &&& row == (BookingView { updated_at: later, ..booking@ })
                &&& end.answer is Err
                &&& end.answer->Err_0@ == ErrorView::Payment("payment failed: "@ + reply->Err_0@)
                &&& end.notice is None
            }
        },
{
    lemma_statuses_differ();
}

// ── Dispute ─────────────────────────────────────────────────────────────────

/// The booker disputes a booking that is under way, or that was completed no more than 60
/// seconds ago, and nobody else does.
pub proof fn law_bookers_dispute(
    auth: AuthUser,
    booking: Booking,
    now: i64,
    r: AppResult<DisputePlan>,
    can: bool,
)
    requires
        call_ensures(dispute, (&auth, &booking, now), r),
        call_ensures(can_dispute, (&auth, &booking, now), can),
    ensures
        r is Ok <==> booking.booker_npub@ == auth.npub@ && (booking.status@ == "funded"@
            || booking.status@ == "held"@ || booking.status@ == "in_progress"@ || (booking.status@
            == "completed"@ && booking.completed_at is Some && now - booking.completed_at->0 <= 60)),
        booking.booker_npub@ != auth.npub@ ==> r->Err_0@ == ErrorView::Unauthorized(
            "only the booker can raise a dispute"@,
        ),
        booking.booker_npub@ == auth.npub@ && r is Err ==> r->Err_0@ == ErrorView::BadRequest(
            "cannot dispute from status '"@ + booking.status@ + "'"@,
        ),
        -300_000_000_000_000_000 <= booking.amount_sats <= 300_000_000_000_000_000 ==> can,
{
}

/// A dispute shares the whole amount out: the driver of a ride gets three tenths, rounded
/// down, and the booker the rest; of anything else the booker gets all. The booker is paid
/// back at the booker's address and the merchant at the merchant's, each only where there is
/// something to pay and an address. What is answered is what the booker gets, and the
/// booking is disputed since now.
pub proof fn law_disputes_share_out_the_whole_amount(
    auth: AuthUser,
    booking: Booking,
    now: i64,
    r: AppResult<DisputePlan>,
    lud16: Option<String>,
    fare: Option<Payment>,
)
    requires
        call_ensures(dispute, (&auth, &booking, now), r),
        r is Ok,
        call_ensures(DisputePlan::merchant_payment, (&r->Ok_0, lud16), fare),
    ensures
        ({
            let plan = r->Ok_0;
            &&& plan.merchant_sats + plan.answer.released_sats == booking.amount_sats
            &&& booking.booking_type@ == "ride"@ && booking.amount_sats >= 0 ==> 10
                * plan.merchant_sats <= 3 * booking.amount_sats < 10 * (plan.merchant_sats + 1)
            &&& booking.booking_type@ == "ride"@ && booking.amount_sats < 0 ==> 10 * (
            plan.merchant_sats - 1) < 3 * booking.amount_sats <= 10 * plan.merchant_sats
            &&& booking.booking_type@ != "ride"@ ==> plan.merchant_sats == 0
            &&& plan.booker_refund is Some <==> booking.lud16_refund is Some
                && plan.answer.released_sats > 0
            &&& plan.booker_refund matches Some(p) ==> {
                &&& p.amount_sats == plan.answer.released_sats
                &&& p.lud16@ == booking.lud16_refund->0@
                &&& p.memo@ == "Ulendo dispute refund"@
            }
            &&& fare is Some <==> lud16 is Some && plan.merchant_sats > 0
            &&& fare matches Some(p) ==> p.amount_sats == plan.merchant_sats && p.lud16@
                == lud16->0@ && p.memo@ == "Ulendo dispute base fare"@
            &&& plan.answer.booking_id@ == booking.id@
            &&& plan.answer.status@ == "disputed"@
            &&& plan.answer.amount_sats == booking.amount_sats
            &&& plan.answer.fee_sats == booking.fee_sats
            &&& plan.change@.after(booking@).status == "disputed"@
            &&& plan.change@.after(booking@).disputed_at == Some(now)
        }),
{
}

// ── Refund ──────────────────────────────────────────────────────────────────

/// The booker or the merchant has a booking paid back whose funds are in, before the
/// service, where there is an address for it, and nobody else does.
pub proof fn law_parties_refund(
    auth: AuthUser,
    booking: Booking,
    is_listing_owner: bool,
    now: i64,
    r: AppResult<RefundOrder>,
)
    requires
        call_ensures(refund, (&auth, booking, is_listing_owner, now), r),
    ensures
        r is Ok <==> (booking.booker_npub@ == auth.npub@ || is_listing_owner) && (booking.status@
            == "funded"@ || booking.status@ == "held"@) && booking.lud16_refund is Some,
        booking.booker_npub@ != auth.npub@ && !is_listing_owner ==> r->Err_0@
            == ErrorView::Unauthorized("not authorised to refund this booking"@),
        (booking.booker_npub@ == auth.npub@ || is_listing_owner) && booking.status@ != "funded"@
            && booking.status@ != "held"@ ==> r->Err_0@ == ErrorView::BadRequest(
            "cannot refund from status '"@ + booking.status@ + "'"@,
        ),
        (booking.booker_npub@ == auth.npub@ || is_listing_owner) && (booking.status@ == "funded"@
            || booking.status@ == "held"@) && booking.lud16_refund is None ==> r->Err_0@
            == ErrorView::BadRequest("no refund address on file"@),
{
}

/// A refund pays the booker the full amount back, at the booker's own address and without a
/// fee. The payment comes out only where the claim took hold. If it was made, the booking is
/// refunded since then, and that is answered and told; if it was not, the booking is as it
/// was before, and nobody is told.
pub proof fn law_refunds_pay_the_full_amount_back(
    auth: AuthUser,
    booking: Booking,
    is_listing_owner: bool,
    now: i64,
    ordered: AppResult<RefundOrder>,
    claim: &BookingChange,
    rows: u64,
    claimed: AppResult<RefundPayment>,
    payment: &Payment,
    reply: Result<String, String>,
    later: i64,
    end: Settlement,
)
    requires
        call_ensures(refund, (&auth, booking, is_listing_owner, now), ordered),
        ordered is Ok,
        call_ensures(RefundOrder::claim_to_write, (&ordered->Ok_0,), claim),
        call_ensures(RefundOrder::claimed, (ordered->Ok_0, rows), claimed),
        claimed is Ok ==> call_ensures(RefundPayment::payment_to_make, (&claimed->Ok_0,), payment),
        claimed is Ok ==> call_ensures(RefundPayment::paid, (claimed->Ok_0, reply, later), end),
    ensures
        claim@.applies(booking@),
        claim@.after(booking@).status == "refunding"@,
        claimed is Ok <==> rows > 0,
        claimed is Err ==> claimed->Err_0@ == ErrorView::BadRequest(
            "booking is no longer in a refundable state (another refund may be in progress)"@,
        ),
        claimed is Ok ==> {
            let row = end.change@.after(claim@.after(booking@));
            &&& payment.amount_sats == booking.amount_sats
            &&& payment.lud16@ == booking.lud16_refund->0@
            &&& payment.memo@ == "Ulendo escrow refund"@
            &&& reply is Ok ==> {
                &&& row.status == "refunded"@
                &&& row.refunded_at == Some(later)
                &&& end.answer is Ok
                &&& end.answer->Ok_0.booking_id@ == booking.id@
                &&& end.answer->Ok_0.status@ == "refunded"@
                &&& end.answer->Ok_0.amount_sats == booking.amount_sats
                &&& end.answer->Ok_0.fee_sats == 0
                &&& end.answer->Ok_0.released_sats == payment.amount_sats
                &&& end.notice is Some
                &&& end.notice->0.booking_id@ == booking.id@
                &&& end.notice->0.kind@ == "booking_update"@
                &&& end.notice->0.title@ == "Refund sent"@
                &&& end.notice->0.body@ == dec(payment.amount_sats as int)
                    + " sats returned to your Lightning address"@
            }
            &&& reply is Err ==> {
                &&& row == (BookingView { updated_at: later, ..booking@ })
                &&& end.answer is Err
                &&& end.answer->Err_0@ == ErrorView::Payment("refund failed: "@ + reply->Err_0@)
                &&& end.notice is None
            }
        },
{
    lemma_statuses_differ();
}

// ── Complete ────────────────────────────────────────────────────────────────

/// The merchant of a booking that is under way marks it as complete, and nobody else does.
/// It is complete since now, keeps its amount and its fee, nothing is paid by this, and its
/// booker is told.
pub proof fn law_merchants_complete(
    auth: AuthUser,
    booking: Booking,
    merchant: Option<String>,
    now: i64,
    begun: AppResult<Completing>,
    change: BookingChange,
    rows: u64,
    done: AppResult<Completion>,
)
    requires
        call_ensures(complete, (&auth, booking, &merchant, now), begun),
        begun is Ok ==> call_ensures(Completing::change, (&begun->Ok_0,), change),
        begun is Ok ==> call_ensures(Completing::written, (begun->Ok_0, rows), done),
    ensures
        begun is Ok <==> merchant is Some && merchant->0@ == auth.npub@ && (booking.status@
            == "funded"@ || booking.status@ == "held"@ || booking.status@ == "in_progress"@),
        merchant is None ==> begun->Err_0@ == ErrorView::BadRequest("listing has no owner"@),
        merchant is Some && merchant->0@ != auth.npub@ ==> begun->Err_0@ == ErrorView::Unauthorized(
            "only the merchant can mark a booking complete"@,
        ),
        merchant is Some && merchant->0@ == auth.npub@ && begun is Err ==> begun->Err_0@
            == ErrorView::BadRequest("cannot complete from status '"@ + booking.status@ + "'"@),
        begun is Ok ==> {
            &&& change@.applies(booking@)
            &&& change@.after(booking@).status == "completed"@
            &&& change@.after(booking@).completed_at == Some(now)
            &&& done is Ok <==> rows > 0
            &&& done is Err ==> done->Err_0@ == ErrorView::BadRequest(
                "booking is no longer in a completable state"@,
            )
        },
        begun is Ok && done is Ok ==> {
            &&& done->Ok_0.auto_release_at - now == 60
            &&& done->Ok_0.notice.booking_id@ == booking.id@
            &&& done->Ok_0.notice.title@ == "Ride complete!"@
            &&& done->Ok_0.notice.body@
                == "Release payment now or it auto-releases in 60 seconds."@
            &&& done->Ok_0.notice.kind@ == "booking_update"@
            &&& done->Ok_0.answer.booking_id@ == booking.id@
            &&& done->Ok_0.answer.status@ == "completed"@
            &&& done->Ok_0.answer.amount_sats == booking.amount_sats
            &&& done->Ok_0.answer.fee_sats == booking.fee_sats
            &&& done->Ok_0.answer.released_sats == 0
        },
{
    lemma_statuses_differ();
}

} // verus!

//! What the confirmations of a trip come to, and what happens to a booking by itself once
//! its waiting time is over.

use vstd::prelude::*;

use crate::auth::AuthUser;
use crate::db::Booking;
use crate::db::BookingChange;
use crate::db::changes::BookingChangeView;
use crate::db::models::BookingView;
use crate::error::AppResult;
use crate::error::ErrorView;
use crate::laws::is_rate_of;
use crate::laws::lemma_fee_is_the_rate;
use crate::laws::lemma_statuses_differ;
use crate::laws::texts::lemma_ascii_prefix;
use crate::money::Payment;
use crate::routes::confirm::CancelOrder;
use crate::routes::confirm::CancelPayment;
use crate::routes::confirm::CancelSettlement;
use crate::routes::confirm::Cancellation;
use crate::routes::confirm::ConfirmPlan;
use crate::routes::confirm::ConfirmResponse;
use crate::routes::confirm::Confirmation;
use crate::routes::confirm::InstantPayment;
use crate::routes::confirm::InstantRelease;
use crate::routes::confirm::UnpaidCancel;
use crate::routes::confirm::cancel_before_pickup;
use crate::routes::confirm::confirm_pickup;
use crate::routes::confirm::driver_confirm;
use crate::routes::confirm::rider_confirm;
use crate::services::blink::AutoPayment;
use crate::services::blink::AutoRefund;
use crate::services::blink::AutoRelease;
use crate::services::blink::BlinkClient;
use crate::services::blink::DueAction;
use crate::services::blink::InvoiceCheck;
use crate::services::blink::InvoiceResult;
use crate::services::blink::WalletRequest;
use crate::services::blink::WalletRequestView;
use crate::services::blink::due;
use crate::services::blink::run_auto_release;
use crate::services::blink::run_escrow_monitor;
use crate::services::push::BookingNotice;
use crate::text::dec;

verus! {

// ── Pickup ──────────────────────────────────────────────────────────────────

/// The driver confirms the pickup of a booking whose funds are in, acknowledged or not, and
/// nobody else does. The trip is under way since now, nothing is paid by it, and both have
/// still to confirm its end.
pub proof fn law_drivers_confirm_pickups(
    auth: AuthUser,
    booking: Booking,
    owner: Option<String>,
    now: i64,
    r: AppResult<(BookingChange, ConfirmResponse)>,
)
    requires
        call_ensures(confirm_pickup, (&auth, &booking, &owner, now), r),
    ensures
        r is Ok <==> owner is Some && owner->0@ == auth.npub@ && (booking.status@ == "funded"@
            || booking.status@ == "held"@),
        !(owner is Some && owner->0@ == auth.npub@) ==> r->Err_0@ == ErrorView::Unauthorized(
            "only the driver can confirm pickup"@,
        ),
        owner is Some && owner->0@ == auth.npub@ && r is Err ==> r->Err_0@
            == ErrorView::BadRequest("cannot confirm pickup from status '"@ + booking.status@ + "'"@),
        r is Ok ==> {
            let row = r->Ok_0.0@.after(booking@);
            let answer = r->Ok_0.1;
            &&& row == (BookingView {
                status: "in_progress"@,
                pickup_confirmed_at: Some(now),
                updated_at: now,
                ..booking@
            })
            &&& answer.booking_id@ == booking.id@
            &&& answer.status@ == "in_progress"@
            &&& !answer.rider_confirmed && !answer.driver_confirmed && !answer.released
            &&& answer.released_sats == 0 && answer.fee_sats == 0
        },
{
}

/// Once a pending booking is funded, its driver is refused the pickup for no reason, and no
/// more so once the merchant has acknowledged the funds. The trip is then under way, with
/// the amount and the fee that were agreed on.
pub proof fn law_funded_bookings_can_be_picked_up(
    pending: BookingView,
    funded_at: i64,
    held_at: i64,
    funded: Booking,
    held: Booking,
    auth: AuthUser,
    owner: Option<String>,
    now: i64,
    from_funded: AppResult<(BookingChange, ConfirmResponse)>,
    from_held: AppResult<(BookingChange, ConfirmResponse)>,
)
    requires
        pending.status == "pending"@,
        funded@ == (BookingChangeView::Fund { at: funded_at }).after(pending),
        held@ == (BookingChangeView::Hold { at: held_at }).after(funded@),
        owner is Some && owner->0@ == auth.npub@,
        call_ensures(confirm_pickup, (&auth, &funded, &owner, now), from_funded),
        call_ensures(confirm_pickup, (&auth, &held, &owner, now), from_held),
    ensures
        from_funded is Ok,
        from_held is Ok,
        ({
            let row = from_funded->Ok_0.0@.after(funded@);
            row.status == "in_progress"@ && row.pickup_confirmed_at == Some(now)
                && row.amount_sats == pending.amount_sats && row.fee_sats == pending.fee_sats
        }),
        ({
            let row = from_held->Ok_0.0@.after(held@);
            row.status == "in_progress"@ && row.pickup_confirmed_at == Some(now)
                && row.amount_sats == pending.amount_sats && row.fee_sats == pending.fee_sats
        }),
{
    lemma_statuses_differ();
}

// ── The end of a trip ───────────────────────────────────────────────────────

/// The driver confirms the end of a trip that is under way, and still does once the rider
/// has; nobody else does. The rider of a booking that is under way or completed confirms it,
/// and nobody else does.
pub proof fn law_parties_confirm_the_end(
    auth: AuthUser,
    booking: Booking,
    owner: Option<String>,
    now: i64,
    by_driver: AppResult<ConfirmPlan>,
    by_rider: AppResult<ConfirmPlan>,
)
    requires
        call_ensures(driver_confirm, (&auth, &booking, &owner, now), by_driver),
        call_ensures(rider_confirm, (&auth, &booking, now), by_rider),
    ensures
        by_driver is Ok <==> owner is Some && owner->0@ == auth.npub@ && (booking.status@
            == "funded"@ || booking.status@ == "held"@ || booking.status@ == "in_progress"@ || (
        booking.status@ == "completed"@ && booking.rider_confirmed_at is Some)),
        !(owner is Some && owner->0@ == auth.npub@) ==> by_driver->Err_0@
            == ErrorView::Unauthorized("only the driver can confirm completion"@),
        owner is Some && owner->0@ == auth.npub@ && by_driver is Err ==> by_driver->Err_0@
            == ErrorView::BadRequest("cannot confirm from status '"@ + booking.status@ + "'"@),
        by_rider is Ok <==> booking.booker_npub@ == auth.npub@ && (booking.status@ == "funded"@
            || booking.status@ == "held"@ || booking.status@ == "in_progress"@ || booking.status@
            == "completed"@),
        booking.booker_npub@ != auth.npub@ ==> by_rider->Err_0@ == ErrorView::Unauthorized(
            "only the rider can confirm"@,
        ),
        booking.booker_npub@ == auth.npub@ && by_rider is Err ==> by_rider->Err_0@
            == ErrorView::BadRequest("cannot confirm from status '"@ + booking.status@ + "'"@),
        by_driver is Ok ==> {
            &&& by_driver->Ok_0.change@.after(booking@) == (BookingView {
                driver_confirmed_at: Some(now),
                updated_at: now,
                ..booking@
            })
            &&& by_driver->Ok_0.next is ReleaseNow <==> booking.rider_confirmed_at is Some
        },
        by_rider is Ok ==> {
            &&& by_rider->Ok_0.change@.after(booking@) == (BookingView {
                rider_confirmed_at: Some(now),
                updated_at: now,
                ..booking@
            })
            &&& by_rider->Ok_0.next is ReleaseNow <==> booking.driver_confirmed_at is Some
        },
{
}

/// The party that confirms first is waited for the other: the booking is completed since
/// now, nothing is paid, and the answer tells who has confirmed.
pub proof fn law_one_confirmation_pays_nothing(
    auth: AuthUser,
    booking: Booking,
    owner: Option<String>,
    now: i64,
    by_driver: AppResult<ConfirmPlan>,
    by_rider: AppResult<ConfirmPlan>,
)
    requires
        call_ensures(driver_confirm, (&auth, &booking, &owner, now), by_driver),
        call_ensures(rider_confirm, (&auth, &booking, now), by_rider),
        booking.rider_confirmed_at is None,
        booking.driver_confirmed_at is None,
    ensures
        by_driver is Ok ==> (by_driver->Ok_0.next matches Confirmation::Wait { change, answer } && {
            let row = change@.after(by_driver->Ok_0.change@.after(booking@));
            &&& row.status == "completed"@
            &&& row.completed_at == Some(now)
            &&& row.driver_confirmed_at == Some(now)
            &&& row.rider_confirmed_at is None
            &&& row.released_at == booking.released_at
            &&& answer.booking_id@ == booking.id@
            &&& answer.status@ == "completed"@
            &&& answer.driver_confirmed && !answer.rider_confirmed && !answer.released
            &&& answer.released_sats == 0 && answer.fee_sats == 0
        }),
        by_rider is Ok ==> (by_rider->Ok_0.next matches Confirmation::Wait { change, answer } && {
            let row = change@.after(by_rider->Ok_0.change@.after(booking@));
            &&& row.status == "completed"@
            &&& row.completed_at == Some(now)
            &&& row.rider_confirmed_at == Some(now)
            &&& row.driver_confirmed_at is None
            &&& row.released_at == booking.released_at
            &&& answer.booking_id@ == booking.id@
            &&& answer.status@ == "completed"@
            &&& answer.rider_confirmed && !answer.driver_confirmed && !answer.released
            &&& answer.released_sats == 0 && answer.fee_sats == 0
        }),
{
    lemma_statuses_differ();
}

/// Once both parties have confirmed, in either order, the driver is paid at the driver's
/// address what is left of the booking's amount after the rate's share of it. Payment and
/// fee add up to the amount, and are what is written and answered.
pub proof fn law_both_confirmations_pay_the_driver(
    auth: AuthUser,
    booking: Booking,
    owner: Option<String>,
    now: i64,
    plan: ConfirmPlan,
    release: InstantRelease,
    bps: u64,
    lud16: Option<String>,
    ordered: AppResult<InstantPayment>,
    payment: &Payment,
    reply: Result<String, String>,
    later: i64,
    end: AppResult<(BookingChange, ConfirmResponse)>,
)
    requires
        call_ensures(driver_confirm, (&auth, &booking, &owner, now), Ok(plan)) || call_ensures(
            rider_confirm,
            (&auth, &booking, now),
            Ok(plan),
        ),
        plan.next == (Confirmation::ReleaseNow { release }),
        call_ensures(InstantRelease::do_instant_release, (release, bps, lud16), ordered),
        ordered is Ok ==> call_ensures(
            InstantPayment::payment_to_make,
            (&ordered->Ok_0,),
            payment,
        ),
        ordered is Ok ==> call_ensures(InstantPayment::paid, (ordered->Ok_0, reply, later), end),
        crate::money::fee_fits(booking.amount_sats, bps),
    ensures
        ordered is Ok <==> lud16 is Some,
        lud16 is None ==> ordered->Err_0@ == ErrorView::BadRequest(
            "driver has no lightning address"@,
        ),
        ordered is Ok ==> {
            &&& payment.lud16@ == lud16->0@
            &&& is_rate_of(
                booking.amount_sats - payment.amount_sats,
                booking.amount_sats as int,
                bps as int,
            )
            &&& "Ulendo ride payment ("@.is_prefix_of(payment.memo@)
            &&& booking.id@.len() >= 8 && (forall|i: int|
                0 <= i < booking.id@.len() ==> #[trigger] booking.id@[i] <= '\u{7f}')
                ==> payment.memo@ == "Ulendo ride payment ("@ + booking.id@.take(8) + ")"@
            &&& end is Ok <==> reply is Ok
            &&& reply is Err ==> end->Err_0@ == ErrorView::Payment(
                "payment failed: "@ + reply->Err_0@,
            )
            &&& reply is Ok ==> {
                let row = end->Ok_0.0@.after(plan.change@.after(booking@));
                let answer = end->Ok_0.1;
                &&& row.status == "released"@
                &&& row.released_at == Some(later)
                &&& row.fee_sats + payment.amount_sats == booking.amount_sats
                &&& row.amount_sats == booking.amount_sats
                &&& answer.booking_id@ == booking.id@
                &&& answer.status@ == "released"@
                &&& answer.released && answer.rider_confirmed && answer.driver_confirmed
                &&& answer.released_sats == payment.amount_sats
                &&& answer.fee_sats == row.fee_sats
            }
        },
{
    lemma_fee_is_the_rate(booking.amount_sats as int, bps as int);
    if ordered is Ok {
        if booking.id@.len() >= 8 && (forall|i: int|
            0 <= i < booking.id@.len() ==> #[trigger] booking.id@[i] <= '\u{7f}') {
            lemma_ascii_prefix(booking.id@, 8);
        }
        let lead = "Ulendo ride payment ("@;
        assert(lead =~= payment.memo@.subrange(0, lead.len() as int));
    }
}

// ── Cancelling ──────────────────────────────────────────────────────────────

/// The rider cancels a booking before its pickup, while it is pending or, with an address to
/// pay back to, once its funds are in; nobody else does. Money goes back just where some
/// was paid in.
pub proof fn law_riders_cancel_before_the_pickup(
    auth: AuthUser,
    booking: Booking,
    now: i64,
    r: AppResult<Cancellation>,
)
    requires
        call_ensures(cancel_before_pickup, (&auth, booking, now), r),
    ensures
        r is Ok <==> booking.booker_npub@ == auth.npub@ && booking.pickup_confirmed_at is None && (
        booking.status@ == "pending"@ || ((booking.status@ == "funded"@ || booking.status@
            == "held"@) && booking.lud16_refund is Some)),
        booking.booker_npub@ != auth.npub@ ==> r->Err_0@ == ErrorView::Unauthorized(
            "only the rider can cancel"@,
        ),
        booking.booker_npub@ == auth.npub@ && booking.pickup_confirmed_at is Some ==> r->Err_0@
            == ErrorView::BadRequest("cannot cancel after pickup — trip is in progress"@),
        booking.booker_npub@ == auth.npub@ && booking.pickup_confirmed_at is None
            && booking.status@ != "pending"@ && booking.status@ != "funded"@ && booking.status@
            != "held"@ ==> r->Err_0@ == ErrorView::BadRequest(
            "cannot cancel from status '"@ + booking.status@ + "'"@,
        ),
        booking.booker_npub@ == auth.npub@ && booking.pickup_confirmed_at is None && (
        booking.status@ == "funded"@ || booking.status@ == "held"@)
            && booking.lud16_refund is None ==> r->Err_0@ == ErrorView::BadRequest(
            "no refund address on file"@,
        ),
        r is Ok ==> (r->Ok_0 is Unpaid <==> booking.status@ == "pending"@),
        r is Ok ==> (r->Ok_0 is PayBack <==> booking.status@ == "funded"@ || booking.status@
            == "held"@),
{
    lemma_statuses_differ();
}

/// A booking that is cancelled after money was paid in pays all of it back, at the rider's
/// own address, whatever its fee. The payment comes out only where the claim took hold. If
/// it was made, the booking is cancelled since then and the amount is answered; if it was
/// not, the booking is as it was before.
pub proof fn law_cancellations_pay_the_full_amount_back(
    auth: AuthUser,
    booking: Booking,
    now: i64,
    order: CancelOrder,
    claim: &BookingChange,
    rows: u64,
    claimed: AppResult<CancelPayment>,
    payment: &Payment,
    reply: Result<String, String>,
    later: i64,
    end: CancelSettlement,
)
    requires
        call_ensures(
            cancel_before_pickup,
            (&auth, booking, now),
            Ok(Cancellation::PayBack { order }),
        ),
        call_ensures(CancelOrder::claim_to_write, (&order,), claim),
        call_ensures(CancelOrder::claimed, (order, rows), claimed),
        claimed is Ok ==> call_ensures(CancelPayment::payment_to_make, (&claimed->Ok_0,), payment),
        claimed is Ok ==> call_ensures(CancelPayment::paid, (claimed->Ok_0, reply, later), end),
    ensures
        claim@.applies(booking@),
        claim@.after(booking@).status == "refunding"@,
        claimed is Ok <==> rows > 0,
        claimed is Err ==> claimed->Err_0@ == ErrorView::BadRequest(
            "booking is no longer in a cancellable state"@,
        ),
        claimed is Ok ==> {
            let row = end.change@.after(claim@.after(booking@));
            &&& payment.amount_sats == booking.amount_sats
            &&& booking.lud16_refund is Some
            &&& payment.lud16@ == booking.lud16_refund->0@
            &&& payment.memo@ == "Ulendo cancellation refund"@
            &&& reply is Ok ==> {
                &&& row.status == "cancelled"@
                &&& row.cancelled_at == Some(later)
                &&& row.amount_sats == booking.amount_sats
                &&& end.answer is Ok
                &&& end.answer->Ok_0.booking_id@ == booking.id@
                &&& end.answer->Ok_0.status@ == "cancelled"@
                &&& end.answer->Ok_0.released_sats == payment.amount_sats
                &&& end.answer->Ok_0.fee_sats == 0
                &&& !end.answer->Ok_0.released
            }
            &&& reply is Err ==> {
                &&& row == (BookingView { updated_at: later, ..booking@ })
                &&& end.answer is Err
                &&& end.answer->Err_0@ == ErrorView::Payment("refund failed: "@ + reply->Err_0@)
            }
        },
{
    lemma_statuses_differ();
}

/// A pending booking is cancelled without a payment, unless its invoice has been paid
/// meanwhile: a booking that is funded by then stays as it is.
pub proof fn law_unpaid_bookings_just_end(
    auth: AuthUser,
    booking: Booking,
    now: i64,
    cancel: UnpaidCancel,
    change: BookingChange,
    rows: u64,
    answer: AppResult<ConfirmResponse>,
    paid_at: i64,
)
    requires
        call_ensures(
            cancel_before_pickup,
            (&auth, booking, now),
            Ok(Cancellation::Unpaid { cancel }),
        ),
        call_ensures(UnpaidCancel::change, (&cancel,), change),
        call_ensures(UnpaidCancel::written, (cancel, rows), answer),
    ensures
        change@.after(booking@).status == "cancelled"@,
        change@.after(booking@).cancelled_at == Some(now),
        ({
            let funded = (BookingChangeView::Fund { at: paid_at }).after(booking@);
            change@.after(funded) == funded && funded.status == "funded"@
        }),
        answer is Ok <==> rows > 0,
        answer is Err ==> answer->Err_0@ == ErrorView::BadRequest(
            "booking is no longer in a cancellable state"@,
        ),
        answer is Ok ==> {
            &&& answer->Ok_0.booking_id@ == booking.id@
            &&& answer->Ok_0.status@ == "cancelled"@
            &&& answer->Ok_0.fee_sats == 0
            &&& answer->Ok_0.released_sats == booking.amount_sats
            &&& !answer->Ok_0.released
        },
{
    lemma_statuses_differ();
}

// ── Invoices ────────────────────────────────────────────────────────────────

/// The invoice of a pending booking is asked about, and of no other. The booking is funded
/// since now if it is paid; it ends if it is not paid and has expired; and it is left alone
/// if it can still be paid or the wallet did not say. The booker is told of the whole
/// amount, and only of a funding that took hold.
pub proof fn law_paid_invoices_fund_bookings(
    booking: Booking,
    check: Option<InvoiceCheck>,
    asked: &str,
    said: Result<bool, String>,
    now: i64,
    change: Option<BookingChange>,
    rows: u64,
    notice: Option<BookingNotice>,
    told: &str,
)
    requires
        call_ensures(run_escrow_monitor, (booking,), check),
        check is Some ==> call_ensures(InvoiceCheck::payment_request, (&check->0,), asked),
        check is Some ==> call_ensures(InvoiceCheck::checked, (&check->0, &said, now), change),
        check is Some ==> call_ensures(InvoiceCheck::booker_npub, (&check->0,), told),
        check is Some && change is Some ==> call_ensures(
            InvoiceCheck::notify_booking_funded,
            (&check->0, &change->0, rows),
            notice,
        ),
    ensures
        check is Some <==> booking.status@ == "pending"@ && booking.payment_request is Some,
        check is Some ==> {
            &&& asked@ == booking.payment_request->0@
            &&& told@ == booking.booker_npub@
            &&& said == Ok::<bool, String>(true) ==> {
                &&& change is Some
                &&& change->0@.after(booking@) == (BookingView {
                    status: "funded"@,
                    funded_at: Some(now),
                    updated_at: now,
                    ..booking@
                })
                &&& notice is Some <==> rows > 0
                &&& rows > 0 ==> {
                    &&& notice->0.booking_id@ == booking.id@
                    &&& notice->0.title@ == "Escrow funded!"@
                    &&& notice->0.kind@ == "booking_funded"@
                    &&& notice->0.body@ == "Your booking is active. "@ + dec(
                        booking.amount_sats as int,
                    ) + " sats held."@
                }
            }
            &&& said == Ok::<bool, String>(false) ==> {
                &&& change is Some <==> booking.invoice_expires_at is Some
                    && booking.invoice_expires_at->0 < now
                &&& change is Some ==> change->0@.after(booking@).status == "cancelled"@
                    && notice is None
            }
            &&& said is Err ==> change is None
        },
{
    lemma_statuses_differ();
}

/// An invoice that the wallet made out is good for a day from now. It is refused where the
/// wallet tells of errors, with the first one, and where it brings none.
pub proof fn law_invoices_are_good_for_a_day(
    errors: Vec<String>,
    invoice: Option<(String, String)>,
    now: i64,
    r: Result<InvoiceResult, String>,
)
    requires
        call_ensures(BlinkClient::invoice_created, (&errors, invoice, now), r),
    ensures
        r is Ok <==> errors@.len() == 0 && invoice is Some,
        r is Ok ==> r->Ok_0.expires_at - now == 24 * 60 * 60,
        r is Ok ==> invoice == Some((r->Ok_0.payment_request, r->Ok_0.payment_hash)),
        errors@.len() > 0 ==> r->Err_0 == errors@[0],
        errors@.len() == 0 && invoice is None ==> r->Err_0@ == "no invoice returned"@,
{
}

/// What the wallet is asked to do is what was decided: an invoice for the amount, the status
/// of that invoice, a payment of the amount to the address. A user of Blink, by the name
/// before the first `@`, is paid the same amount within Blink. Only `PAID` means paid.
pub proof fn law_the_wallet_pays_what_was_ordered(
    wallet: BlinkClient,
    payment: Payment,
    amount: i64,
    memo: &str,
    user: Seq<char>,
    domain: Seq<char>,
    recipient: &str,
    status: &str,
    invoice: WalletRequest,
    question: WalletRequest,
    inside: WalletRequest,
    direct: WalletRequest,
    first: Result<WalletRequest, String>,
    paid: bool,
)
    requires
        call_ensures(BlinkClient::create_invoice, (&wallet, amount, memo), invoice),
        call_ensures(BlinkClient::is_invoice_paid, (&wallet, memo), question),
        call_ensures(BlinkClient::send_intra_ledger, (&wallet, &payment, recipient), inside),
        call_ensures(BlinkClient::send_ln_address, (&wallet, &payment), direct),
        call_ensures(BlinkClient::send_to_address, (&wallet, &payment), first),
        call_ensures(BlinkClient::means_paid, (status,), paid),
        payment.lud16@ == user.push('@') + domain,
        !user.contains('@'),
    ensures
        invoice@ == (WalletRequestView::CreateInvoice {
            wallet_id: wallet.wallet_id@,
            amount_sats: amount,
            memo: memo@,
        }),
        question@ == (WalletRequestView::InvoiceStatus { payment_request: memo@ }),
        inside@ == (WalletRequestView::PayWallet {
            wallet_id: wallet.wallet_id@,
            recipient_wallet_id: recipient@,
            amount_sats: payment.amount_sats,
            memo: payment.memo@,
        }),
        direct@ == (WalletRequestView::PayAddress {
            wallet_id: wallet.wallet_id@,
            ln_address: payment.lud16@,
            amount_sats: payment.amount_sats,
            memo: payment.memo@,
        }),
        first is Ok,
        domain == "blink.sv"@ ==> first->Ok_0@ == (WalletRequestView::WalletOfUser {
            username: user,
        }),
        domain != "blink.sv"@ ==> first->Ok_0@ == direct@,
        paid <==> status@ == "PAID"@,
{
    let s = payment.lud16@;
    assert(s[user.len() as int] == '@');
    if first is Ok {
        match first->Ok_0@ {
            WalletRequestView::WalletOfUser { username } => {
                crate::services::blink::lemma_first_at_is_unique(
                    s,
                    user,
                    domain,
                    username,
                    "blink.sv"@,
                );
            },
            _ => {
                if domain == "blink.sv"@ {
                    assert(crate::services::blink::blink_user(s, user));
                }
            },
        }
    }
}

/// An address without an `@` is paid nothing.
pub proof fn law_addresses_have_an_at(
    wallet: BlinkClient,
    payment: Payment,
    first: Result<WalletRequest, String>,
    errors: Option<Option<String>>,
    heard: Result<(), String>,
)
    requires
        call_ensures(BlinkClient::send_to_address, (&wallet, &payment), first),
        call_ensures(BlinkClient::gql, (&errors,), heard),
    ensures
        first is Ok <==> payment.lud16@.contains('@'),
        first is Err ==> first->Err_0@ == "invalid lud16: "@ + payment.lud16@,
        heard is Ok <==> errors is None,
        errors matches Some(Some(first_error)) ==> heard->Err_0@ == "blink: "@ + first_error@,
        errors == Some(None::<String>) ==> heard->Err_0@ == "blink: "@ + "blink error"@,
{
    if first is Ok {
        let s = payment.lud16@;
        match first->Ok_0@ {
            WalletRequestView::WalletOfUser { username } => {
                assert(s[username.len() as int] == '@');
            },
            _ => {},
        }
    }
}

// ── Waiting times ───────────────────────────────────────────────────────────

/// A completed booking that nobody confirmed is due 60 seconds after its completion, and
/// one that a party confirmed 30 minutes after it. Without a pickup a booking is due a
/// quarter of an hour after its funds came in. A trip whose end nobody confirmed is due 2
/// hours after its pickup. No booking is due otherwise, and what is due stays due.
pub proof fn law_waiting_times(booking: Booking, now: i64, later: i64, r: bool, s: bool)
    requires
        call_ensures(due, (&booking, now), r),
        call_ensures(due, (&booking, later), s),
        now <= later,
    ensures
        booking.status@ == "completed"@ && booking.rider_confirmed_at is None
            && booking.driver_confirmed_at is None ==> (r <==> booking.completed_at is Some && now
            - booking.completed_at->0 >= 60),
        booking.status@ == "completed"@ && (booking.rider_confirmed_at is Some
            || booking.driver_confirmed_at is Some) ==> (r <==> booking.completed_at is Some && now
            - booking.completed_at->0 >= 30 * 60),
        (booking.status@ == "funded"@ || booking.status@ == "held"@) ==> (r
            <==> booking.pickup_confirmed_at is None && booking.funded_at is Some && now
            - booking.funded_at->0 >= 15 * 60),
        booking.status@ == "in_progress"@ ==> (r <==> booking.rider_confirmed_at is None
            && booking.driver_confirmed_at is None && booking.pickup_confirmed_at is Some && now
            - booking.pickup_confirmed_at->0 >= 2 * 60 * 60),
        r ==> booking.status@ == "completed"@ || booking.status@ == "funded"@ || booking.status@
            == "held"@ || booking.status@ == "in_progress"@,
        r ==> s,
{
    lemma_statuses_differ();
}

/// A booking without a pickup that is due pays the rider the full amount back, at the
/// rider's own address, or just ends where there is none. It is refunded only where the
/// payment was made.
pub proof fn law_no_pickup_pays_the_full_amount_back(
    booking: Booking,
    now: i64,
    is_due: bool,
    action: Option<DueAction>,
    refund: AutoRefund,
    payment: &Payment,
    reply: Result<String, String>,
    change: Option<BookingChange>,
)
    requires
        call_ensures(due, (&booking, now), is_due),
        call_ensures(run_auto_release, (booking, now), action),
        booking.status@ == "funded"@ || booking.status@ == "held"@,
        action == Some(DueAction::Refund { refund }) ==> call_ensures(
            AutoRefund::payment_to_make,
            (&refund,),
            payment,
        ),
        action == Some(DueAction::Refund { refund }) ==> call_ensures(
            AutoRefund::paid,
            (refund, &reply),
            change,
        ),
    ensures
        action is Some <==> is_due,
        is_due ==> (action->0 is Refund <==> booking.lud16_refund is Some),
        is_due ==> (action->0 is Cancel <==> booking.lud16_refund is None),
        action matches Some(DueAction::Cancel { change: end }) ==> {
            end@.after(booking@).status == "cancelled"@ && end@.after(booking@).cancelled_at
                == Some(now)
        },
        action == Some(DueAction::Refund { refund }) ==> {
            &&& payment.amount_sats == booking.amount_sats
            &&& payment.lud16@ == booking.lud16_refund->0@
            &&& payment.memo@ == "Ulendo auto-refund: no pickup"@
            &&& change is Some <==> reply is Ok
            &&& change is Some ==> change->0@.after(booking@).status == "refunded"@
                && change->0@.after(booking@).refunded_at == Some(now)
        },
{
    lemma_statuses_differ();
}

/// A trip that is due pays the driver, at the driver's address, what is left of the
/// booking's amount after the rate's share of it: payment and fee add up to the amount, and
/// both parties are told of what was paid. The booking is released only where the payment
/// was made, and without an address it is left as it is.
pub proof fn law_due_trips_pay_the_driver(
    booking: Booking,
    now: i64,
    is_due: bool,
    action: Option<DueAction>,
    release: AutoRelease,
    listing: &str,
    lud16: Option<String>,
    bps: u64,
    ordered: Option<AutoPayment>,
    payment: &Payment,
    reply: Result<String, String>,
    change: Option<BookingChange>,
    rows: u64,
    notices: Option<(BookingNotice, BookingNotice)>,
)
    requires
        call_ensures(due, (&booking, now), is_due),
        call_ensures(run_auto_release, (booking, now), action),
        booking.status@ == "completed"@ || booking.status@ == "in_progress"@,
        action == Some(DueAction::PayDriver { release }) ==> {
            &&& call_ensures(AutoRelease::listing_id, (&release,), listing)
            &&& call_ensures(AutoRelease::order, (release, lud16, bps), ordered)
        },
        action == Some(DueAction::PayDriver { release }) && ordered is Some ==> {
            &&& call_ensures(AutoPayment::payment_to_make, (&ordered->0,), payment)
            &&& call_ensures(AutoPayment::paid, (&ordered->0, &reply), change)
            &&& call_ensures(AutoPayment::notices, (&ordered->0, rows), notices)
        },
    ensures
        action is Some <==> is_due,
        is_due ==> action->0 is PayDriver,
        action == Some(DueAction::PayDriver { release }) ==> {
            &&& listing@ == booking.listing_id@
            &&& ordered is Some <==> lud16 is Some
        },
        action == Some(DueAction::PayDriver { release }) && ordered is Some ==> {
            &&& payment.lud16@ == lud16->0@
            &&& is_rate_of(
                booking.amount_sats - payment.amount_sats,
                booking.amount_sats as int,
                bps as int,
            )
            &&& payment.memo@ == "Ulendo ride payment"@
            &&& change is Some <==> reply is Ok
            &&& change is Some ==> {
                let row = change->0@.after(booking@);
                &&& row.status == "released"@
                &&& row.released_at == Some(now)
                &&& row.fee_sats + payment.amount_sats == booking.amount_sats
            }
            &&& notices is Some <==> rows > 0
            &&& notices matches Some(told) ==> {
                &&& told.0.booking_id@ == booking.id@
                &&& told.1.booking_id@ == booking.id@
                &&& told.0.kind@ == "escrow_released"@
                &&& told.1.kind@ == "escrow_auto_released"@
                &&& told.0.title@ == "Payment received!"@
                &&& told.0.body@ == dec(payment.amount_sats as int) + " sats sent to your wallet"@
                &&& told.1.title@ == "Payment released"@
                &&& told.1.body@ == dec(payment.amount_sats as int)
                    + " sats sent to driver. Thank you for riding with Ulendo!"@
            }
        },
{
    lemma_statuses_differ();
    lemma_fee_is_the_rate(booking.amount_sats as int, bps as int);
}

} // verus!

//! What holds across the library's functions.

use vstd::prelude::*;

use crate::db::changes::BookingChangeView;
use crate::db::changes::RideChangeView;
use crate::db::changes::entry_error;
use crate::db::changes::funded_or_held;
use crate::db::changes::may_enter;
use crate::db::changes::open_release;
use crate::db::changes::releasable;
use crate::db::changes::under_way;
use crate::db::models::BookingView;
use crate::db::models::DirectReleaseView;
use crate::db::models::RideRequestView;
use crate::error::ErrorView;
use crate::money::fee_of;
use crate::money::lemma_quotient;
use crate::routes::bookings::update_refusal;
use crate::routes::confirm::cancel_refusal;
use crate::routes::confirm::driver_confirm_refusal;
use crate::routes::confirm::pickup_refusal;
use crate::routes::confirm::rider_confirm_refusal;
use crate::routes::escrow::MIN_LIGHTNING_SATS;
use crate::routes::escrow::complete_refusal;
use crate::routes::escrow::direct_order_refusal;
use crate::routes::escrow::dispute_booker_share;
use crate::routes::escrow::dispute_driver_share;
use crate::routes::escrow::dispute_refusal;
use crate::routes::escrow::enter_refusal;
use crate::routes::escrow::fund_refusal;
use crate::routes::escrow::refund_refusal;
use crate::routes::escrow::release_refusal;
use crate::routes::escrow::usable_address;
use crate::routes::rides::fare_or;
use crate::routes::rides::request_refusal;
use crate::routes::rides::shown_to;
use crate::services::blink::change_after_check;
use crate::services::blink::completion_wait;
use crate::services::blink::invoice_expired;
use crate::services::blink::is_due;
use crate::services::blink::pickup_overdue;
use crate::services::blink::unconfirmed;

pub mod access;
pub mod calls;
pub mod escrow;
pub mod fiat;
pub mod messages;
pub mod people;
pub mod reach;
pub mod rides;
pub mod rows;
pub mod stays;
pub mod texts;
pub mod trips;
pub mod vehicles;

verus! {

// ── Shares ──────────────────────────────────────────────────────────────────

/// A share of an amount at a rate of `bps` ten-thousandths: the whole sats of it, of a
/// negative amount as of its opposite.
pub open spec fn is_rate_of(share: int, amount: int, bps: int) -> bool {
    if amount >= 0 {
        10_000 * share <= amount * bps < 10_000 * (share + 1)
    } else {
        10_000 * (-share) <= (-amount) * bps < 10_000 * (1 - share)
    }
}

/// The fee on an amount is its share at the fee's rate.
pub proof fn lemma_fee_is_the_rate(amount: int, bps: int)
    requires
        0 <= bps,
    ensures
        is_rate_of(fee_of(amount, bps), amount, bps),
{
    let p = amount * bps;
    assert((-amount) * bps == -p) by (nonlinear_arith)
        requires
            p == amount * bps,
    ;
    if amount >= 0 {
        assert(p >= 0) by (nonlinear_arith)
            requires
                p == amount * bps,
                amount >= 0,
                bps >= 0,
        ;
    } else {
        assert(p <= 0) by (nonlinear_arith)
            requires
                p == amount * bps,
                amount < 0,
                bps >= 0,
        ;
    }
}

// ── The statuses of a booking ───────────────────────────────────────────────

/// The statuses of a booking are different from each other.
pub proof fn lemma_statuses_differ()
    ensures
        "pending"@ != "funded"@,
        "pending"@ != "held"@,
        "pending"@ != "in_progress"@,
        "pending"@ != "completed"@,
        "pending"@ != "releasing"@,
        "pending"@ != "refunding"@,
        "pending"@ != "released"@,
        "pending"@ != "disputed"@,
        "pending"@ != "refunded"@,
        "pending"@ != "cancelled"@,
        !under_way("completed"@),
        !under_way("releasing"@),
        !under_way("refunding"@),
        !under_way("released"@),
        !under_way("disputed"@),
        !under_way("refunded"@),
        !under_way("cancelled"@),
        "funded"@ != "held"@,
        "funded"@ != "in_progress"@,
        "held"@ != "in_progress"@,
        "completed"@ != "releasing"@,
        "completed"@ != "refunding"@,
        "completed"@ != "released"@,
        "completed"@ != "disputed"@,
        "completed"@ != "refunded"@,
        "completed"@ != "cancelled"@,
        "releasing"@ != "refunding"@,
        "releasing"@ != "released"@,
        "refunding"@ != "released"@,
        "released"@ != "disputed"@,
        "released"@ != "refunded"@,
        "released"@ != "cancelled"@,
{
    reveal_strlit("pending");
    reveal_strlit("funded");
    reveal_strlit("held");
    reveal_strlit("in_progress");
    reveal_strlit("completed");
    reveal_strlit("releasing");
    reveal_strlit("refunding");
    reveal_strlit("released");
    reveal_strlit("disputed");
    reveal_strlit("refunded");
    reveal_strlit("cancelled");
    assert("pending"@.len() == 7);
    assert("funded"@.len() == 6);
    assert("held"@.len() == 4);
    assert("in_progress"@.len() == 11);
    assert("completed"@.len() == 9);
    assert("releasing"@.len() == 9);
    assert("refunding"@.len() == 9);
    assert("released"@.len() == 8);
    assert("disputed"@.len() == 8);
    assert("refunded"@.len() == 8);
    assert("cancelled"@.len() == 9);
    assert("completed"@[1] == 'o');
    assert("cancelled"@[1] == 'a');
    assert("releasing"@[0] == 'r');
    assert("releasing"@[2] == 'l');
    assert("refunding"@[0] == 'r');
    assert("refunding"@[2] == 'f');
    assert("completed"@[0] == 'c');
    assert("released"@[2] == 'l');
    assert("refunded"@[2] == 'f');
    assert("disputed"@[2] == 's');
}

// ── Escrow ──────────────────────────────────────────────────────────────────

/// A claim: the write by which one release or one refund takes a booking for itself.
pub open spec fn is_claim(change: BookingChangeView) -> bool {
    change is ClaimRelease || change is ClaimRefund
}

/// Once the claim of one release or refund has taken hold, no other claim takes hold on
/// the row that it left. Until the claim is settled or undone, every request to move the
/// booking is refused, whoever asks, and no background task finds it due.
pub proof fn law_one_claim_at_a_time(
    row: BookingView,
    first: BookingChangeView,
    second: BookingChangeView,
    npub: Seq<char>,
    owner: Option<Seq<char>>,
    is_listing_owner: bool,
    requested: Seq<char>,
    now: i64,
)
    requires
        is_claim(first),
        is_claim(second),
        first.applies(row),
    ensures
        ({
            let claimed = first.after(row);
            &&& !second.applies(claimed)
            &&& second.after(claimed) == claimed
            &&& fund_refusal(npub, claimed) is Some
            &&& update_refusal(requested, claimed.status, is_listing_owner) is Some
            &&& release_refusal(npub, claimed) is Some
            &&& dispute_refusal(npub, claimed, now) is Some
            &&& refund_refusal(npub, claimed, is_listing_owner) is Some
            &&& complete_refusal(npub, claimed, owner) is Some
            &&& pickup_refusal(npub, claimed, owner) is Some
            &&& driver_confirm_refusal(npub, claimed, owner) is Some
            &&& rider_confirm_refusal(npub, claimed) is Some
            &&& cancel_refusal(npub, claimed) is Some
            &&& !is_due(claimed, now)
        }),
{
    lemma_statuses_differ();
}

/// A booking is settled once: after a claim and the release, refund or cancellation that
/// it was made for, no claim takes hold any more.
pub proof fn law_a_booking_is_settled_once(
    row: BookingView,
    claim: BookingChangeView,
    again: BookingChangeView,
    at: i64,
)
    requires
        is_claim(claim),
        is_claim(again),
        claim.applies(row),
    ensures
        claim is ClaimRelease ==> !again.applies(
            (BookingChangeView::Release { at }).after(claim.after(row)),
        ),
        claim is ClaimRefund ==> !again.applies(
            (BookingChangeView::Refund { at }).after(claim.after(row)),
        ) && !again.applies((BookingChangeView::Cancel { at }).after(claim.after(row))),
{
    lemma_statuses_differ();
}

/// A release whose payment fails leaves no trace but the time of the last change: the
/// undoing write, made with the status from before the claim, restores the row, and
/// the release can be tried again, or a refund where it could before.
pub proof fn law_failed_release_is_undone(row: BookingView, claimed_at: i64, undone_at: i64)
    requires
        releasable(row.status),
    ensures
        ({
            let claimed = (BookingChangeView::ClaimRelease { at: claimed_at }).after(row);
            let undone = (BookingChangeView::UndoRelease {
                status: row.status,
                at: undone_at,
            }).after(claimed);
            &&& undone == BookingView { updated_at: undone_at, ..row }
            &&& forall|again: BookingChangeView| #[trigger]
                is_claim(again) ==> again.applies(undone) == again.applies(row)
            &&& (BookingChangeView::ClaimRelease { at: undone_at }).applies(undone)
        }),
{
    lemma_statuses_differ();
}

/// A refund or a cancellation whose payment fails leaves no trace but the time of the
/// last change, and it or a release can be tried again.
pub proof fn law_failed_refund_is_undone(row: BookingView, claimed_at: i64, undone_at: i64)
    requires
        funded_or_held(row.status),
    ensures
        ({
            let claimed = (BookingChangeView::ClaimRefund { at: claimed_at }).after(row);
            let undone = (BookingChangeView::UndoRefund {
                status: row.status,
                at: undone_at,
            }).after(claimed);
            &&& undone == BookingView { updated_at: undone_at, ..row }
            &&& forall|again: BookingChangeView| #[trigger]
                is_claim(again) ==> again.applies(undone)
        }),
{
    lemma_statuses_differ();
}

/// The undoing write of one release or refund never touches a booking that another
/// one has brought to its end.
pub proof fn law_undo_spares_settled_bookings(row: BookingView, status: Seq<char>, at: i64)
    requires
        has_ended(row),
    ensures
        (BookingChangeView::UndoRelease { status, at }).after(row) == row,
        (BookingChangeView::UndoRefund { status, at }).after(row) == row,
{
    lemma_statuses_differ();
    lemma_ended_statuses_differ();
}

proof fn lemma_ended_statuses_differ()
    ensures
        "releasing"@ != "disputed"@,
        "releasing"@ != "refunded"@,
        "releasing"@ != "cancelled"@,
        "refunding"@ != "disputed"@,
        "refunding"@ != "refunded"@,
        "refunding"@ != "cancelled"@,
        "disputed"@ != "refunded"@,
        "disputed"@ != "cancelled"@,
        "refunded"@ != "cancelled"@,
{
    reveal_strlit("releasing");
    reveal_strlit("refunding");
    reveal_strlit("disputed");
    reveal_strlit("refunded");
    reveal_strlit("cancelled");
    assert("releasing"@.len() == 9);
    assert("refunding"@.len() == 9);
    assert("disputed"@.len() == 8);
    assert("refunded"@.len() == 8);
    assert("cancelled"@.len() == 9);
    assert("releasing"@[0] == 'r');
    assert("refunding"@[0] == 'r');
    assert("cancelled"@[0] == 'c');
    assert("disputed"@[0] == 'd');
    assert("refunded"@[0] == 'r');
}

/// The booking has come to its end.
pub open spec fn has_ended(row: BookingView) -> bool {
    row.status == "released"@ || row.status == "refunded"@ || row.status == "cancelled"@
        || row.status == "disputed"@
}

/// A booking that has ended is moved by no request and no background task, whoever
/// asks.
pub proof fn law_ended_bookings_stay_ended(
    row: BookingView,
    npub: Seq<char>,
    owner: Option<Seq<char>>,
    is_listing_owner: bool,
    requested: Seq<char>,
    now: i64,
)
    requires
        has_ended(row),
    ensures
        fund_refusal(npub, row) is Some,
        update_refusal(requested, row.status, is_listing_owner) is Some,
        release_refusal(npub, row) is Some,
        dispute_refusal(npub, row, now) is Some,
        refund_refusal(npub, row, is_listing_owner) is Some,
        complete_refusal(npub, row, owner) is Some,
        pickup_refusal(npub, row, owner) is Some,
        driver_confirm_refusal(npub, row, owner) is Some,
        rider_confirm_refusal(npub, row) is Some,
        cancel_refusal(npub, row) is Some,
        !is_due(row, now),
{
    lemma_statuses_differ();
}

/// Only the two parties of a booking move it: whoever is neither its booker nor the
/// owner of its listing is refused as unauthorized.
pub proof fn law_only_the_parties_act(
    row: BookingView,
    npub: Seq<char>,
    owner: Seq<char>,
    now: i64,
)
    requires
        npub != row.booker_npub,
        npub != owner,
    ensures
        fund_refusal(npub, row) matches Some(e) && e is Unauthorized,
        update_refusal("held"@, row.status, false) matches Some(e) && e is Unauthorized,
        release_refusal(npub, row) matches Some(e) && e is Unauthorized,
        dispute_refusal(npub, row, now) matches Some(e) && e is Unauthorized,
        refund_refusal(npub, row, false) matches Some(e) && e is Unauthorized,
        complete_refusal(npub, row, Some(owner)) matches Some(e) && e is Unauthorized,
        pickup_refusal(npub, row, Some(owner)) matches Some(e) && e is Unauthorized,
        driver_confirm_refusal(npub, row, Some(owner)) matches Some(e) && e is Unauthorized,
        rider_confirm_refusal(npub, row) matches Some(e) && e is Unauthorized,
        cancel_refusal(npub, row) matches Some(e) && e is Unauthorized,
{
}

/// The moves of a booking: from which status to which.
pub open spec fn escrow_move(from: Seq<char>, to: Seq<char>) -> bool {
    ||| from == to
    ||| from == "pending"@ && (to == "funded"@ || to == "cancelled"@)
    ||| from == "funded"@ && to == "held"@
    ||| funded_or_held(from) && (to == "in_progress"@ || to == "releasing"@ || to == "refunding"@
        || to == "refunded"@ || to == "cancelled"@)
    ||| under_way(from) && (to == "disputed"@ || to == "completed"@ || to == "released"@)
    ||| from == "completed"@ && (to == "releasing"@ || to == "released"@ || to == "disputed"@)
    ||| from == "releasing"@ && (to == "released"@ || releasable(to))
    ||| from == "refunding"@ && (to == "refunded"@ || to == "cancelled"@ || funded_or_held(to))
}

/// Every write that a request which is not refused, a claim that took hold or a
/// background task makes on a booking's row is a move of the escrow's machine.
pub proof fn law_writes_follow_the_machine(
    row: BookingView,
    npub: Seq<char>,
    owner: Option<Seq<char>>,
    is_listing_owner: bool,
    requested: Seq<char>,
    status: Seq<char>,
    fee_sats: i64,
    at: i64,
)
    ensures
        escrow_move(row.status, (BookingChangeView::Fund { at }).after(row).status),
        update_refusal(requested, row.status, is_listing_owner) is None ==> escrow_move(
            row.status,
            (BookingChangeView::Hold { at }).after(row).status,
        ),
        escrow_move(row.status, (BookingChangeView::ClaimRelease { at }).after(row).status),
        escrow_move(row.status, (BookingChangeView::ClaimRefund { at }).after(row).status),
        escrow_move(row.status, (BookingChangeView::Complete { at }).after(row).status),
        dispute_refusal(npub, row, at) is None ==> escrow_move(
            row.status,
            (BookingChangeView::Dispute { at }).after(row).status,
        ),
        pickup_refusal(npub, row, owner) is None ==> escrow_move(
            row.status,
            (BookingChangeView::ConfirmPickup { at }).after(row).status,
        ),
        driver_confirm_refusal(npub, row, owner) is None ==> {
            &&& escrow_move(row.status, (BookingChangeView::DriverConfirm { at }).after(row).status)
            &&& escrow_move(row.status, (BookingChangeView::AwaitOther { at }).after(row).status)
            &&& escrow_move(
                row.status,
                (BookingChangeView::InstantRelease { fee_sats, at }).after(row).status,
            )
        },
        rider_confirm_refusal(npub, row) is None ==> {
            &&& escrow_move(row.status, (BookingChangeView::RiderConfirm { at }).after(row).status)
            &&& escrow_move(row.status, (BookingChangeView::AwaitOther { at }).after(row).status)
            &&& escrow_move(
                row.status,
                (BookingChangeView::InstantRelease { fee_sats, at }).after(row).status,
            )
        },
        escrow_move(row.status, (BookingChangeView::CancelUnpaid { at }).after(row).status),
        is_due(row, at) ==> {
            &&& escrow_move(
                row.status,
                (BookingChangeView::AutoRelease { fee_sats, at }).after(row).status,
            )
            &&& funded_or_held(row.status) ==> escrow_move(
                row.status,
                (BookingChangeView::Refund { at }).after(row).status,
            )
            &&& funded_or_held(row.status) ==> escrow_move(
                row.status,
                (BookingChangeView::Cancel { at }).after(row).status,
            )
        },
        row.status == "releasing"@ ==> escrow_move(
            row.status,
            (BookingChangeView::Release { at }).after(row).status,
        ),
        releasable(status) ==> escrow_move(
            row.status,
            (BookingChangeView::UndoRelease { status, at }).after(row).status,
        ),
        row.status == "refunding"@ ==> {
            &&& escrow_move(row.status, (BookingChangeView::Refund { at }).after(row).status)
            &&& escrow_move(row.status, (BookingChangeView::Cancel { at }).after(row).status)
        },
        funded_or_held(status) ==> escrow_move(
            row.status,
            (BookingChangeView::UndoRefund { status, at }).after(row).status,
        ),
{
    lemma_statuses_differ();
}

/// The time at which a booking came to its status is known.
pub open spec fn is_timed(row: BookingView) -> bool {
    &&& row.status == "funded"@ ==> row.funded_at is Some
    &&& row.status == "held"@ ==> row.held_at is Some
    &&& row.status == "in_progress"@ ==> row.pickup_confirmed_at is Some
    &&& row.status == "completed"@ ==> row.completed_at is Some
    &&& row.status == "released"@ ==> row.released_at is Some
    &&& row.status == "disputed"@ ==> row.disputed_at is Some
    &&& row.status == "refunded"@ ==> row.refunded_at is Some
    &&& row.status == "cancelled"@ ==> row.cancelled_at is Some
}

/// The time at which a booking came to its status is known from the first write to
/// the last: a pending booking has it, and every write keeps it, a write that undoes a
/// claim by going back to the status from before. So a completed booking does not wait
/// for ever: there is a time from which on it is due.
pub proof fn law_every_status_has_its_time(
    row: BookingView,
    change: BookingChangeView,
    claimed_at: i64,
    undone_at: i64,
    now: i64,
)
    requires
        row.status == "pending"@ || is_timed(row),
    ensures
        is_timed(row),
        !(change is UndoRelease) && !(change is UndoRefund) ==> is_timed(change.after(row)),
        releasable(row.status) ==> is_timed(
            (BookingChangeView::UndoRelease { status: row.status, at: undone_at }).after(
                (BookingChangeView::ClaimRelease { at: claimed_at }).after(row),
            ),
        ),
        funded_or_held(row.status) ==> is_timed(
            (BookingChangeView::UndoRefund { status: row.status, at: undone_at }).after(
                (BookingChangeView::ClaimRefund { at: claimed_at }).after(row),
            ),
        ),
        row.status == "completed"@ ==> (is_due(row, now) <==> now - row.completed_at->0
            >= completion_wait(row)),
{
    lemma_statuses_differ();
    lemma_ended_statuses_differ();
}

/// A dispute shares out the whole amount: the driver of a ride gets three tenths
/// rounded down and the booker the rest, and anything else is paid back in full.
pub proof fn law_dispute_shares_add_up(booking: BookingView)
    requires
        booking.amount_sats >= 0,
    ensures
        dispute_driver_share(booking) + dispute_booker_share(booking) == booking.amount_sats,
        0 <= dispute_driver_share(booking) <= dispute_booker_share(booking),
        booking.booking_type != "ride"@ ==> dispute_booker_share(booking) == booking.amount_sats,
        booking.booking_type == "ride"@ ==> 10 * dispute_driver_share(booking) <= 3
            * booking.amount_sats < 10 * (dispute_driver_share(booking) + 1),
{
}

/// The second confirmation releases, whichever party confirms first: after the one's
/// confirmation the other's is taken, finds the first, and the driver is paid at once.
pub proof fn law_second_confirmation_releases(
    row: BookingView,
    driver: Seq<char>,
    owner: Option<Seq<char>>,
    at: i64,
)
    requires
        driver_confirm_refusal(driver, row, owner) is None,
    ensures
        ({
            let confirmed = (BookingChangeView::AwaitOther { at }).after(
                (BookingChangeView::DriverConfirm { at }).after(row),
            );
            &&& confirmed.driver_confirmed_at is Some
            &&& rider_confirm_refusal(row.booker_npub, confirmed) is None
        }),
        ({
            let confirmed = (BookingChangeView::AwaitOther { at }).after(
                (BookingChangeView::RiderConfirm { at }).after(row),
            );
            &&& rider_confirm_refusal(row.booker_npub, row) is None
            &&& confirmed.rider_confirmed_at is Some
            &&& driver_confirm_refusal(driver, confirmed, owner) is None
        }),
{
    lemma_statuses_differ();
}

/// A booking that its merchant marks as complete can be released by its booker at once,
/// can be disputed for 60 seconds and no longer, and is paid out by itself after them
/// and no sooner.
pub proof fn law_completion_leaves_a_minute(row: BookingView, at: i64, now: i64)
    requires
        under_way(row.status),
        unconfirmed(row),
    ensures
        ({
            let completed = (BookingChangeView::Complete { at }).after(row);
            &&& release_refusal(row.booker_npub, completed) is None
            &&& (BookingChangeView::ClaimRelease { at: now }).applies(completed)
            &&& dispute_refusal(row.booker_npub, completed, now) is None <==> now - at <= 60
            &&& is_due(completed, now) <==> now - at >= 60
        }),
{
    lemma_statuses_differ();
}

/// An invoice that is not paid when it has expired ends its booking, and only while
/// nothing has been paid in; before that the booking is left alone.
pub proof fn law_expired_invoices_end_bookings(row: BookingView, now: i64)
    requires
        row.status == "pending"@,
    ensures
        invoice_expired(row, now) ==> {
            &&& change_after_check(row, Ok(false), now) matches Some(change)
            &&& change.after(row).status == "cancelled"@
            &&& change.after((BookingChangeView::Fund { at: now }).after(row))
                == (BookingChangeView::Fund { at: now }).after(row)
        },
        !invoice_expired(row, now) ==> change_after_check(row, Ok(false), now) is None,
{
    lemma_statuses_differ();
}

/// After the pickup neither a cancellation nor a refund is taken, and the background
/// task never finds the pickup overdue.
pub proof fn law_no_refund_after_pickup(row: BookingView, npub: Seq<char>, at: i64, now: i64)
    ensures
        ({
            let picked_up = (BookingChangeView::ConfirmPickup { at }).after(row);
            &&& cancel_refusal(npub, picked_up) is Some
            &&& refund_refusal(npub, picked_up, true) is Some
            &&& !pickup_overdue(picked_up, now)
        }),
{
    lemma_statuses_differ();
}

/// What one party confirmed is paid out 30 minutes later and no sooner, unless the
/// other party, a release by the booker or a dispute comes first.
pub proof fn law_one_confirmation_waits_half_an_hour(
    row: BookingView,
    first: BookingChangeView,
    at: i64,
    now: i64,
)
    requires
        under_way(row.status),
        first is DriverConfirm || first is RiderConfirm,
    ensures
        is_due((BookingChangeView::AwaitOther { at }).after(first.after(row)), now) <==> now - at
            >= 1800,
{
    lemma_statuses_differ();
}

/// A trip that nobody confirms is paid out 2 hours after the pickup and no sooner.
pub proof fn law_silence_is_paid_out_after_two_hours(row: BookingView, at: i64, now: i64)
    requires
        row.driver_confirmed_at is None,
        row.rider_confirmed_at is None,
    ensures
        is_due((BookingChangeView::ConfirmPickup { at }).after(row), now) <==> now - at >= 7200,
{
    lemma_statuses_differ();
}

/// A booking without a pickup is paid back 15 minutes after it was funded and no
/// sooner, whether or not its merchant has acknowledged the funds.
pub proof fn law_no_show_is_paid_back_after_a_quarter_hour(
    row: BookingView,
    at: i64,
    held_at: i64,
    now: i64,
)
    requires
        row.status == "pending"@,
        row.pickup_confirmed_at is None,
    ensures
        ({
            let funded = (BookingChangeView::Fund { at }).after(row);
            let held = (BookingChangeView::Hold { at: held_at }).after(funded);
            &&& is_due(funded, now) <==> now - at >= 900
            &&& is_due(held, now) <==> now - at >= 900
            &&& is_due(funded, now) ==> pickup_overdue(funded, now)
            &&& is_due(held, now) ==> pickup_overdue(held, now)
        }),
{
    lemma_statuses_differ();
}

// ── Rides ───────────────────────────────────────────────────────────────────

proof fn lemma_ride_statuses_differ()
    ensures
        "searching"@ != "accepted"@,
        "searching"@ != "completed"@,
        "searching"@ != "pending"@,
{
    reveal_strlit("searching");
    reveal_strlit("accepted");
    reveal_strlit("completed");
    reveal_strlit("pending");
    assert("searching"@.len() == 9);
    assert("accepted"@.len() == 8);
    assert("completed"@.len() == 9);
    assert("pending"@.len() == 7);
    assert("searching"@[0] == 's');
    assert("completed"@[0] == 'c');
}

/// The first driver to accept gets the ride: after an acceptance that took hold, the
/// ride is that driver's and no other acceptance takes hold.
pub proof fn law_first_driver_wins(
    row: RideRequestView,
    first: Seq<char>,
    second: Seq<char>,
    at: i64,
    later: i64,
)
    requires
        (RideChangeView::Accept { driver: first, at }).applies(row),
    ensures
        ({
            let taken = (RideChangeView::Accept { driver: first, at }).after(row);
            &&& taken.matched_driver == Some(first)
            &&& !(RideChangeView::Accept { driver: second, at: later }).applies(taken)
            &&& (RideChangeView::Accept { driver: second, at: later }).after(taken) == taken
        }),
{
    lemma_ride_statuses_differ();
}

/// A ride is taken by nobody after the time until which it can be taken, and stays as
/// it is.
pub proof fn law_no_acceptance_after_the_deadline(row: RideRequestView, driver: Seq<char>, at: i64)
    requires
        row.accept_deadline is Some,
        at > row.accept_deadline->0,
    ensures
        !(RideChangeView::Accept { driver, at }).applies(row),
        (RideChangeView::Accept { driver, at }).after(row) == row,
{
}

/// A ride that is given back for its fare is searched for again, and until its deadline
/// another driver can take it. Of the acceptance nothing stays but the fare, where the driver's price
/// made one, and the time of the last change.
pub proof fn law_ride_given_back_is_free(
    row: RideRequestView,
    driver: Seq<char>,
    fare: Option<i64>,
    other: Seq<char>,
    at: i64,
    later: i64,
)
    requires
        (RideChangeView::Accept { driver, at }).applies(row),
        row.matched_driver is None,
        row.accept_deadline matches Some(d) ==> later <= d,
    ensures
        ({
            let taken = (RideChangeView::Accept { driver, at }).after(row);
            let priced = match fare {
                Some(fare_sats) => (RideChangeView::SetFare { fare_sats, at }).after(taken),
                None => taken,
            };
            let free = (RideChangeView::Reopen { at: later }).after(priced);
            &&& free == RideRequestView {
                fare_sats: fare_or(fare, row.fare_sats),
                updated_at: later,
                ..row
            }
            &&& (RideChangeView::Accept { driver: other, at: later }).applies(free)
        }),
{
    lemma_ride_statuses_differ();
}

/// A booking that a rider sends to a driver is shown to that driver and to nobody else,
/// for 5 minutes after it was entered.
pub proof fn law_only_the_driver_asked_sees_a_booking(
    row: RideRequestView,
    driver: Seq<char>,
    other: Seq<char>,
    at: i64,
    now: i64,
)
    ensures
        shown_to((RideChangeView::Ask { driver, at }).after(row), other, now) <==> other == driver
            && now - row.created_at < 300,
{
}

/// Nobody accepts a ride of their own.
pub proof fn law_nobody_accepts_their_own_ride(driver: Seq<char>)
    ensures
        crate::routes::rides::accept_refusal(driver, Some(driver)) is Some,
{
}

/// The driver who took a ride is not among those told that it is taken; everybody
/// else that it was offered to is.
pub proof fn law_everybody_else_is_told(
    offered_to: Seq<Seq<char>>,
    taken_by: Seq<char>,
    other: Seq<char>,
)
    ensures
        !crate::routes::rides::all_but(offered_to, taken_by).contains(taken_by),
        other != taken_by ==> (crate::routes::rides::all_but(offered_to, taken_by).contains(other)
            <==> offered_to.contains(other)),
    decreases offered_to.len(),
{
    let told = crate::routes::rides::all_but(offered_to, taken_by);
    if offered_to.len() > 0 {
        let rest = offered_to.drop_last();
        let told_rest = crate::routes::rides::all_but(rest, taken_by);
        law_everybody_else_is_told(rest, taken_by, other);
        assert forall|i: int| 0 <= i < told.len() implies told[i] != taken_by by {
            if i < told_rest.len() {
                assert(told[i] == told_rest[i]);
            }
        }
        if other != taken_by {
            if offered_to.contains(other) {
                let i = choose|i: int| 0 <= i < offered_to.len() && offered_to[i] == other;
                if i < rest.len() {
                    assert(rest[i] == other);
                    let j = choose|j: int| 0 <= j < told_rest.len() && told_rest[j] == other;
                    assert(told[j] == other);
                } else {
                    assert(told[told.len() - 1] == other);
                }
            }
            if told.contains(other) {
                let j = choose|j: int| 0 <= j < told.len() && told[j] == other;
                if j < told_rest.len() {
                    assert(told_rest[j] == other);
                    let i = choose|i: int| 0 <= i < rest.len() && rest[i] == other;
                    assert(offered_to[i] == other);
                } else {
                    assert(offered_to[offered_to.len() - 1] == other);
                }
            }
        }
    }
}

// ── Direct releases ─────────────────────────────────────────────────────────

proof fn lemma_release_statuses_differ()
    ensures
        "failed"@ != "pending"@,
        "failed"@ != "released"@,
{
    reveal_strlit("failed");
    reveal_strlit("pending");
    reveal_strlit("released");
    assert("failed"@.len() == 6);
    assert("pending"@.len() == 7);
    assert("released"@.len() == 8);
}

/// A ride is paid out once: while a payout is pending, and for good once it was
/// made, no other one may be entered for the ride. After a payout that failed,
/// another may.
pub proof fn law_a_ride_is_paid_out_once(
    rows: Seq<DirectReleaseView>,
    row: DirectReleaseView,
    reply: Result<String, String>,
    now: i64,
)
    requires
        may_enter(rows, row.ride_id),
        row.status == "pending"@,
    ensures
        !may_enter(rows.push(row), row.ride_id),
        may_enter(rows.push(crate::routes::escrow::settled_row(row, reply, now)), row.ride_id)
            <==> reply is Err,
{
    lemma_release_statuses_differ();
    let entered = rows.push(row);
    assert(entered[rows.len() as int] == row);
    let settled = crate::routes::escrow::settled_row(row, reply, now);
    let after = rows.push(settled);
    assert(after[rows.len() as int] == settled);
    if reply is Err {
        assert forall|i: int| 0 <= i < after.len() implies !((#[trigger] after[i]).ride_id
            == row.ride_id && open_release(after[i])) by {
            if i < rows.len() {
                assert(after[i] == rows[i]);
            }
        }
    }
}

/// Who asks a second time for the payout of a ride is refused, while the first payout is
/// pending and once it was made: the database reports the first one, and nothing is paid.
pub proof fn law_a_second_payout_is_refused(
    rows: Seq<DirectReleaseView>,
    first: DirectReleaseView,
    second: DirectReleaseView,
    status: String,
    now: i64,
)
    requires
        may_enter(rows, first.ride_id),
        first.status == "pending"@,
        second.status == "pending"@,
        second.ride_id == first.ride_id,
    ensures
        enter_refusal(entry_error(rows, first)) is None,
        enter_refusal(entry_error(rows.push(first), second)) == Some(
            ErrorView::BadRequest("a release for this ride is already pending or completed"@),
        ),
        enter_refusal(
            entry_error(
                rows.push(crate::routes::escrow::settled_row(first, Ok(status), now)),
                second,
            ),
        ) == Some(
            ErrorView::BadRequest("a release for this ride is already pending or completed"@),
        ),
{
    law_a_ride_is_paid_out_once(rows, first, Ok(status), now);
    let error = "UNIQUE constraint failed: direct_releases.ride_id"@;
    reveal_strlit("UNIQUE constraint failed: direct_releases.ride_id");
    reveal_strlit("UNIQUE");
    assert(error.subrange(0, 6) =~= "UNIQUE"@);
    assert(crate::text::occurs_at(error, "UNIQUE"@, 0));
}

/// Of a higher amount no less is left after the fee.
proof fn lemma_payee_is_monotone(a: int, b: int, bps: int)
    requires
        0 <= a <= b,
        0 <= bps <= 10_000,
    ensures
        a - fee_of(a, bps) <= b - fee_of(b, bps),
{
    let p = a * bps;
    let q = b * bps;
    assert(0 <= p) by (nonlinear_arith)
        requires
            0 <= a,
            0 <= bps,
            p == a * bps,
    ;
    assert(q - p <= 10_000 * (b - a)) by (nonlinear_arith)
        requires
            a <= b,
            bps <= 10_000,
            p == a * bps,
            q == b * bps,
    ;
    assert(p <= q) by (nonlinear_arith)
        requires
            a <= b,
            0 <= bps,
            p == a * bps,
            q == b * bps,
    ;
}

/// A fare that is not refused when a ride is asked for can be paid out to the driver,
/// where the minimum leaves enough for a Lightning payment after the fee.
pub proof fn law_fares_that_are_taken_can_be_paid_out(
    fare_sats: i64,
    min_fare: i64,
    lud16: Option<Seq<char>>,
    bps: u64,
)
    requires
        0 <= min_fare,
        bps <= 10_000,
        min_fare - fee_of(min_fare as int, bps as int) >= MIN_LIGHTNING_SATS,
        usable_address(lud16),
        request_refusal(fare_sats, min_fare) is None,
    ensures
        direct_order_refusal(fare_sats, lud16, bps) is None,
{
    lemma_payee_is_monotone(min_fare as int, fare_sats as int, bps as int);
    lemma_quotient(min_fare * bps, 10_000);
}

} // verus!

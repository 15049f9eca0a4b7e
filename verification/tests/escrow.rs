use ulendo::auth::AuthUser;
use ulendo::db::changes::enter_release;
use ulendo::db::{Booking, BookingChange, DirectRelease, RideChange};
use ulendo::money::Payment;
use ulendo::routes::bookings::{
    create, fetch_booking, get_one, update_status, CreateBookingRequest, UpdateStatusRequest,
};
use ulendo::routes::escrow::{
    can_dispute, complete, direct_release_status, dispute, fund, refund, release, release_direct,
    DirectReleaseRequest, PayableRide,
};
use ulendo::services::blink::InvoiceResult;
use ulendo::{AppError, AppResult};

fn s(text: &str) -> String {
    text.to_string()
}

fn user(name: &str) -> AuthUser {
    AuthUser { npub: s(name), public_key: format!("{name}-key") }
}

fn booking(status: &str) -> Booking {
    Booking {
        id: s("0123456789abcdef"),
        listing_id: s("L"),
        booker_npub: s("rider"),
        booking_type: s("ride"),
        status: s(status),
        amount_sats: 1000,
        fee_sats: 15,
        lud16_refund: Some(s("rider@ln.example")),
        payment_hash: None,
        payment_request: None,
        invoice_expires_at: None,
        ride_id: None,
        pickup_text: None,
        destination_text: None,
        funded_at: None,
        held_at: None,
        released_at: None,
        disputed_at: None,
        refunded_at: None,
        completed_at: None,
        rider_confirmed_at: None,
        driver_confirmed_at: None,
        pickup_confirmed_at: None,
        cancelled_at: None,
        created_at: 1,
        updated_at: 1,
    }
}

fn refusal<T>(r: AppResult<T>) -> (u16, String) {
    match r {
        Ok(_) => panic!("not refused"),
        Err(e) => e.into_response(),
    }
}

fn paid_to(p: &Payment) -> (&str, i64, &str) {
    (p.lud16.as_str(), p.amount_sats, p.memo.as_str())
}

// Bookings

fn wanted() -> CreateBookingRequest {
    CreateBookingRequest {
        listing_id: s("L"),
        booking_type: None,
        amount_sats: 12_345,
        lud16_refund: Some(s("a@b")),
        ride_id: Some(s("R")),
        pickup_text: Some(s("here")),
        destination_text: Some(s("there")),
    }
}

#[test]
fn bookings_are_entered_as_pending() {
    let b = create(&user("rider"), &wanted(), true, 150, s("id"), 7).ok().unwrap();
    assert_eq!(b.id, "id");
    assert_eq!(b.booker_npub, "rider");
    assert_eq!(b.booking_type, "listing");
    assert_eq!(b.status, "pending");
    assert_eq!((b.amount_sats, b.fee_sats), (12_345, 185));
    assert_eq!(b.lud16_refund, Some(s("a@b")));
    assert_eq!(b.ride_id, Some(s("R")));
    assert_eq!((b.created_at, b.updated_at), (7, 7));
    assert_eq!(b.funded_at, None);
}

#[test]
fn bookings_are_refused() {
    let r = create(&user("rider"), &wanted(), false, u64::MAX, s("id"), 7);
    assert_eq!(refusal(r), (404, s("listing L not found")));
    let mut w = wanted();
    w.amount_sats = 0;
    assert_eq!(
        refusal(create(&user("rider"), &w, true, 150, s("id"), 7)),
        (400, s("amount_sats must be positive"))
    );
    let mut w = wanted();
    w.booking_type = Some(s("cruise"));
    assert_eq!(
        refusal(create(&user("rider"), &w, true, 150, s("id"), 7)),
        (400, s("booking_type must be listing or ride"))
    );
}

#[test]
fn bookings_are_shown_to_their_parties() {
    assert!(get_one(&user("rider"), &booking("pending"), false).is_ok());
    assert!(get_one(&user("driver"), &booking("pending"), true).is_ok());
    assert_eq!(refusal(get_one(&user("x"), &booking("pending"), false)), (401, s("access denied")));
    assert_eq!(refusal(fetch_booking(None, "b")), (404, s("booking b not found")));
    assert_eq!(fetch_booking(Some(booking("held")), "b").ok().unwrap().status, "held");
}

#[test]
fn merchants_acknowledge_funds() {
    let held = UpdateStatusRequest { status: s("held") };
    let (change, notice) = update_status(&booking("funded"), &held, true, 9).ok().unwrap();
    let mut b = booking("funded");
    assert_eq!(change.apply(&mut b), 1);
    assert_eq!((b.status.as_str(), b.held_at, b.updated_at), ("held", Some(9), 9));
    assert_eq!(notice.title, "Merchant confirmed");
    assert_eq!(notice.body, "Your funds are held in escrow.");
    assert_eq!(notice.booking_id, "0123456789abcdef");
    assert_eq!(notice.kind, "booking_update");
    let released = UpdateStatusRequest { status: s("released") };
    assert_eq!(
        refusal(update_status(&booking("funded"), &released, true, 9)),
        (400, s("use /escrow routes for release, dispute, and refund"))
    );
    assert_eq!(
        refusal(update_status(&booking("funded"), &held, false, 9)),
        (401, s("only the merchant can confirm receipt"))
    );
    assert_eq!(
        refusal(update_status(&booking("pending"), &held, true, 9)),
        (400, s("can't transition from 'pending' to 'held'"))
    );
}

// Fund

#[test]
fn funding_asks_for_an_invoice() {
    let f = fund(&user("rider"), booking("pending")).ok().unwrap();
    assert!(f.has_short_id());
    let order = f.invoice(&Some(s("Boda")));
    assert_eq!(order.amount_sats, 1000);
    assert_eq!(order.memo, "Ulendo escrow: Boda (booking 01234567)");
    assert_eq!(f.invoice(&None).memo, "Ulendo escrow: Ulendo service (booking 01234567)");
    let reply = InvoiceResult { payment_request: s("lnbc"), payment_hash: s("h"), expires_at: 50 };
    let (change, answer) = f.invoiced(Ok(reply), 40).ok().unwrap();
    assert_eq!(answer.booking_id, "0123456789abcdef");
    assert_eq!((answer.payment_request.as_str(), answer.payment_hash.as_str()), ("lnbc", "h"));
    assert_eq!((answer.amount_sats, answer.expires_at), (1000, 50));
    let mut b = booking("pending");
    change.apply(&mut b);
    assert_eq!(b.payment_request, Some(s("lnbc")));
    assert_eq!(b.payment_hash, Some(s("h")));
    assert_eq!((b.invoice_expires_at, b.updated_at), (Some(50), 40));
    assert_eq!(b.status, "pending");
}

#[test]
fn funding_is_refused() {
    assert_eq!(
        refusal(fund(&user("x"), booking("pending"))),
        (401, s("only the booker can fund this escrow"))
    );
    assert_eq!(
        refusal(fund(&user("rider"), booking("funded"))),
        (400, s("booking is 'funded', expected 'pending'"))
    );
    let f = fund(&user("rider"), booking("pending")).ok().unwrap();
    assert_eq!(refusal(f.invoiced(Err(s("no funds")), 1)), (402, s("no funds")));
    let mut b = booking("pending");
    b.id = s("short");
    assert!(!fund(&user("rider"), b).ok().unwrap().has_short_id());
}

// Release

#[test]
fn a_release_claims_pays_and_settles() {
    let mut row = booking("held");
    let r = release(&user("rider"), booking("held")).ok().unwrap();
    assert!(r.fits());
    let order = r.order(Some(s("driver@ln.example")), 10).ok().unwrap();
    let rows = order.claim_to_write().apply(&mut row);
    assert_eq!((rows, row.status.as_str()), (1, "releasing"));
    let payment = order.claimed(rows).ok().unwrap();
    assert_eq!(
        paid_to(payment.payment_to_make()),
        ("driver@ln.example", 985, "Ulendo escrow release")
    );
    let end = payment.paid(Ok(s("SUCCESS")), 20);
    end.change.apply(&mut row);
    assert_eq!((row.status.as_str(), row.released_at, row.updated_at), ("released", Some(20), 20));
    let answer = end.answer.ok().unwrap();
    assert_eq!(answer.status, "released");
    assert_eq!((answer.amount_sats, answer.fee_sats, answer.released_sats), (1000, 15, 985));
    let notice = end.notice.unwrap();
    assert_eq!(notice.title, "Payment released!");
    assert_eq!(notice.body, "985 sats sent to your Lightning address");
    assert_eq!(notice.kind, "escrow_released");
}

#[test]
fn a_failed_release_is_undone() {
    for status in ["funded", "held", "completed"] {
        let mut row = booking(status);
        let order = release(&user("rider"), booking(status)).ok().unwrap().order(Some(s("d@x")), 10).ok().unwrap();
        let rows = order.claim_to_write().apply(&mut row);
        let end = order.claimed(rows).ok().unwrap().paid(Err(s("route")), 20);
        assert_eq!(end.change.apply(&mut row), 1);
        assert_eq!((row.status.as_str(), row.updated_at, row.released_at), (status, 20, None));
        assert!(end.notice.is_none());
        assert_eq!(refusal(end.answer), (402, s("payment failed: route")));
    }
}

#[test]
fn one_claim_at_a_time() {
    for first_is_release in [true, false] {
        for second_is_release in [true, false] {
            let claim = |is_release: bool, at: i64| {
                if is_release {
                    BookingChange::ClaimRelease { at }
                } else {
                    BookingChange::ClaimRefund { at }
                }
            };
            let mut row = booking("funded");
            assert_eq!(claim(first_is_release, 1).apply(&mut row), 1);
            let taken = row.status.clone();
            assert_eq!(claim(second_is_release, 2).apply(&mut row), 0);
            assert_eq!(row.status, taken);
        }
    }
    let order = release(&user("rider"), booking("funded")).ok().unwrap().order(Some(s("d@x")), 1).ok().unwrap();
    assert_eq!(
        refusal(order.claimed(0)),
        (400, s("booking is no longer releasable (another release may be in progress)"))
    );
}

#[test]
fn releases_are_refused() {
    assert_eq!(
        refusal(release(&user("driver"), booking("funded"))),
        (401, s("only the booker can release escrow"))
    );
    for status in ["pending", "in_progress", "releasing", "released", "disputed", "refunded"] {
        assert_eq!(
            refusal(release(&user("rider"), booking(status))),
            (400, format!("cannot release from status '{status}'"))
        );
    }
    let r = release(&user("rider"), booking("funded")).ok().unwrap();
    assert_eq!(refusal(r.order(None, 1)), (400, s("merchant has no lightning address")));
    let mut b = booking("funded");
    b.amount_sats = i64::MIN;
    assert!(!release(&user("rider"), b).ok().unwrap().fits());
}

#[test]
fn a_booking_is_settled_once() {
    for status in ["released", "refunded"] {
        let mut row = booking("funded");
        let end = if status == "released" {
            BookingChange::ClaimRelease { at: 1 }.apply(&mut row);
            BookingChange::Release { at: 2 }
        } else {
            BookingChange::ClaimRefund { at: 1 }.apply(&mut row);
            BookingChange::Refund { at: 2 }
        };
        end.apply(&mut row);
        assert_eq!(row.status, status);
        assert_eq!(BookingChange::ClaimRelease { at: 3 }.apply(&mut row), 0);
        assert_eq!(BookingChange::ClaimRefund { at: 3 }.apply(&mut row), 0);
        assert_eq!(row.updated_at, 2);
    }
}

// Dispute

#[test]
fn disputed_rides_are_shared_out() {
    let mut b = booking("in_progress");
    b.amount_sats = 999;
    assert!(can_dispute(&user("rider"), &b, 30));
    let plan = dispute(&user("rider"), &b, 30).ok().unwrap();
    assert_eq!(plan.merchant_sats, 299);
    assert_eq!(
        paid_to(plan.booker_refund.as_ref().unwrap()),
        ("rider@ln.example", 700, "Ulendo dispute refund")
    );
    let fare = plan.merchant_payment(Some(s("driver@x"))).unwrap();
    assert_eq!(paid_to(&fare), ("driver@x", 299, "Ulendo dispute base fare"));
    assert!(plan.merchant_payment(None).is_none());
    assert_eq!(plan.answer.status, "disputed");
    assert_eq!(plan.answer.released_sats, 700);
    plan.change.apply(&mut b);
    assert_eq!((b.status.as_str(), b.disputed_at), ("disputed", Some(30)));
}

#[test]
fn other_disputes_are_paid_back_in_full() {
    let mut b = booking("funded");
    b.booking_type = s("listing");
    let plan = dispute(&user("rider"), &b, 30).ok().unwrap();
    assert_eq!(plan.merchant_sats, 0);
    assert_eq!(plan.booker_refund.as_ref().unwrap().amount_sats, 1000);
    assert!(plan.merchant_payment(Some(s("driver@x"))).is_none());
    b.lud16_refund = None;
    assert!(dispute(&user("rider"), &b, 30).ok().unwrap().booker_refund.is_none());
}

#[test]
fn a_completed_booking_can_be_released_or_disputed_at_once() {
    let mut row = booking("in_progress");
    BookingChange::Complete { at: 100 }.apply(&mut row);
    let mut copy = booking("completed");
    copy.completed_at = Some(100);
    let order = release(&user("rider"), copy).ok().unwrap().order(Some(s("d@x")), 110).ok().unwrap();
    let rows = order.claim_to_write().apply(&mut row);
    assert_eq!((rows, row.status.as_str()), (1, "releasing"));
    let end = order.claimed(rows).ok().unwrap().paid(Ok(s("SUCCESS")), 120);
    end.change.apply(&mut row);
    assert_eq!((row.status.as_str(), row.released_at), ("released", Some(120)));
    let mut b = booking("completed");
    b.completed_at = Some(100);
    let plan = dispute(&user("rider"), &b, 160).ok().unwrap();
    assert_eq!(plan.merchant_sats, 300);
    plan.change.apply(&mut b);
    assert_eq!((b.status.as_str(), b.disputed_at), ("disputed", Some(160)));
    assert_eq!(BookingChange::ClaimRefund { at: 1 }.apply(&mut booking("completed")), 0);
}

#[test]
fn disputes_are_refused() {
    assert_eq!(
        refusal(dispute(&user("x"), &booking("funded"), 1)),
        (401, s("only the booker can raise a dispute"))
    );
    let mut late = booking("completed");
    late.completed_at = Some(100);
    assert_eq!(
        refusal(dispute(&user("rider"), &late, 161)),
        (400, s("cannot dispute from status 'completed'"))
    );
    assert_eq!(
        refusal(dispute(&user("rider"), &booking("completed"), 1)),
        (400, s("cannot dispute from status 'completed'"))
    );
    let mut b = booking("funded");
    b.amount_sats = i64::MAX;
    assert!(!can_dispute(&user("rider"), &b, 30));
    assert!(can_dispute(&user("x"), &b, 30));
    b.booking_type = s("listing");
    assert!(can_dispute(&user("rider"), &b, 30));
}

// Refund

#[test]
fn a_refund_claims_pays_and_settles() {
    let mut row = booking("funded");
    let order = refund(&user("driver"), booking("funded"), true, 10).ok().unwrap();
    let rows = order.claim_to_write().apply(&mut row);
    assert_eq!((rows, row.status.as_str()), (1, "refunding"));
    let payment = order.claimed(rows).ok().unwrap();
    assert_eq!(
        paid_to(payment.payment_to_make()),
        ("rider@ln.example", 1000, "Ulendo escrow refund")
    );
    let end = payment.paid(Ok(s("SUCCESS")), 20);
    end.change.apply(&mut row);
    assert_eq!((row.status.as_str(), row.refunded_at), ("refunded", Some(20)));
    let answer = end.answer.ok().unwrap();
    assert_eq!((answer.amount_sats, answer.fee_sats, answer.released_sats), (1000, 0, 1000));
    let notice = end.notice.unwrap();
    assert_eq!((notice.title.as_str(), notice.kind.as_str()), ("Refund sent", "booking_update"));
    assert_eq!(notice.body, "1000 sats returned to your Lightning address");
}

#[test]
fn a_failed_refund_is_undone() {
    let mut row = booking("held");
    let order = refund(&user("rider"), booking("held"), false, 10).ok().unwrap();
    let rows = order.claim_to_write().apply(&mut row);
    let end = order.claimed(rows).ok().unwrap().paid(Err(s("route")), 20);
    assert_eq!(end.change.apply(&mut row), 1);
    assert_eq!((row.status.as_str(), row.updated_at), ("held", 20));
    assert_eq!(refusal(end.answer), (402, s("refund failed: route")));
    // The undoing write spares a booking that was settled in the meantime.
    let mut settled = booking("refunded");
    let undo = BookingChange::UndoRefund { status: s("held"), at: 30 };
    assert_eq!(undo.apply(&mut settled), 0);
    assert_eq!(settled.status, "refunded");
}

#[test]
fn refunds_are_refused() {
    assert_eq!(
        refusal(refund(&user("x"), booking("funded"), false, 1)),
        (401, s("not authorised to refund this booking"))
    );
    for status in ["pending", "in_progress", "disputed", "refunded"] {
        assert_eq!(
            refusal(refund(&user("rider"), booking(status), false, 1)),
            (400, format!("cannot refund from status '{status}'"))
        );
    }
    let mut b = booking("funded");
    b.lud16_refund = None;
    assert_eq!(
        refusal(refund(&user("rider"), b, false, 1)),
        (400, s("no refund address on file"))
    );
    let order = refund(&user("rider"), booking("funded"), false, 1).ok().unwrap();
    assert_eq!(
        refusal(order.claimed(0)),
        (400, s("booking is no longer in a refundable state (another refund may be in progress)"))
    );
}

// Complete

#[test]
fn merchants_mark_bookings_complete() {
    let mut row = booking("in_progress");
    let c = complete(&user("driver"), booking("in_progress"), &Some(s("driver")), 100).ok().unwrap();
    let rows = c.change().apply(&mut row);
    assert_eq!((rows, row.status.as_str(), row.completed_at), (1, "completed", Some(100)));
    assert_eq!(c.change().apply(&mut row), 0);
    let done = c.written(rows).ok().unwrap();
    assert_eq!(done.notice.title, "Ride complete!");
    assert_eq!(done.notice.body, "Release payment now or it auto-releases in 60 seconds.");
    assert_eq!(done.auto_release_at, 160);
    assert_eq!((done.answer.status.as_str(), done.answer.released_sats), ("completed", 0));
}

#[test]
fn completions_are_refused() {
    assert_eq!(
        refusal(complete(&user("driver"), booking("held"), &None, 1)),
        (400, s("listing has no owner"))
    );
    assert_eq!(
        refusal(complete(&user("rider"), booking("held"), &Some(s("driver")), 1)),
        (401, s("only the merchant can mark a booking complete"))
    );
    assert_eq!(
        refusal(complete(&user("driver"), booking("pending"), &Some(s("driver")), 1)),
        (400, s("cannot complete from status 'pending'"))
    );
    let c = complete(&user("driver"), booking("held"), &Some(s("driver")), 1).ok().unwrap();
    assert_eq!(refusal(c.written(0)), (400, s("booking is no longer in a completable state")));
}

// Direct release

fn ride(status: &str, fare_sats: i64) -> Option<PayableRide> {
    Some(PayableRide {
        rider_pubkey: s("rider-key"),
        matched_driver: Some(s("driver-key")),
        fare_sats,
        status: s(status),
    })
}

fn asked() -> DirectReleaseRequest {
    DirectReleaseRequest { lud16: s("thief@x"), amount_sats: 1_000_000, ride_id: s("R") }
}

#[test]
fn a_ride_is_paid_out_from_what_the_database_knows() {
    let payout = release_direct(&user("rider"), &asked(), &ride("accepted", 2000)).ok().unwrap();
    assert_eq!(payout.driver_pubkey(), "driver-key");
    assert!(payout.fits(&Some(s("driver@ln")), 150));
    assert!(!payout.fits(&Some(s("driver@ln")), u64::MAX));
    assert!(payout.fits(&None, u64::MAX));
    let order = payout.order(Some(s("driver@ln")), 150, s("rel"), 5).ok().unwrap();
    let row = order.row_to_enter();
    assert_eq!((row.id.as_str(), row.ride_id.as_str(), row.payer_pubkey.as_str()), ("rel", "R", "rider-key"));
    assert_eq!((row.amount_sats, row.driver_sats, row.fee_sats), (2000, 1970, 30));
    assert_eq!((row.status.as_str(), row.lud16.as_str()), ("pending", "driver@ln"));
    let payment = order.entered(&None).ok().unwrap();
    assert_eq!(paid_to(payment.payment_to_make()), ("driver@ln", 1970, "Ulendo ride R"));
    let end = payment.paid(Ok(s("SUCCESS")), 9);
    assert_eq!((end.row.status.as_str(), end.row.updated_at), ("released", 9));
    assert_eq!(end.row.blink_status, Some(s("SUCCESS")));
    assert!(matches!(end.ride_change, Some(RideChange::Complete { at: 9 })));
    let earning = end.earning.unwrap();
    assert_eq!((earning.driver_pubkey.as_str(), earning.sats, earning.at), ("driver-key", 1970, 9));
    let answer = end.answer.ok().unwrap();
    assert_eq!((answer.driver_sats, answer.fee_sats), (1970, 30));
    assert_eq!((answer.status.as_str(), answer.release_id.as_str()), ("released", "rel"));
    assert_eq!((answer.lud16.as_str(), answer.blink_status.as_str()), ("driver@ln", "SUCCESS"));
}

#[test]
fn a_payout_that_fails_leaves_the_ride_open() {
    let payout = release_direct(&user("rider"), &asked(), &ride("matched", 2000)).ok().unwrap();
    let order = payout.order(Some(s("driver@ln")), 150, s("rel"), 5).ok().unwrap();
    let end = order.entered(&None).ok().unwrap().paid(Err(s("route")), 9);
    assert_eq!(end.row.status, "failed");
    assert_eq!(end.row.error_message, Some(s("Lightning payment failed: route")));
    assert!(end.ride_change.is_none());
    assert!(end.earning.is_none());
    assert_eq!(refusal(end.answer), (400, s("Lightning payment failed: route")));
}

fn pending(id: &str, ride_id: &str) -> DirectRelease {
    DirectRelease {
        id: s(id),
        ride_id: s(ride_id),
        payer_pubkey: s("p"),
        lud16: s("a@b"),
        amount_sats: 1,
        driver_sats: 1,
        fee_sats: 0,
        status: s("pending"),
        error_message: None,
        blink_status: None,
        created_at: 1,
        updated_at: 1,
    }
}

#[test]
fn a_second_payout_is_refused() {
    let order = || {
        let p = release_direct(&user("rider"), &asked(), &ride("accepted", 2000)).ok().unwrap();
        p.order(Some(s("driver@ln")), 150, s("rel"), 5).ok().unwrap()
    };
    let mut rows = Vec::new();
    assert_eq!(enter_release(&mut rows, pending("a", "R")), None);
    assert_eq!(enter_release(&mut rows, pending("b", "other")), None);
    for status in ["pending", "released"] {
        rows[0].status = s(status);
        let error = enter_release(&mut rows, pending("c", "R"));
        assert_eq!(rows.len(), 2);
        assert_eq!(
            refusal(order().entered(&error)),
            (400, s("a release for this ride is already pending or completed"))
        );
    }
    rows[0].status = s("failed");
    let error = enter_release(&mut rows, pending("c", "R"));
    assert_eq!(rows.len(), 3);
    assert!(order().entered(&error).is_ok());
}

#[test]
fn payouts_are_refused() {
    let rider = user("rider");
    assert_eq!(refusal(release_direct(&rider, &asked(), &None)), (400, s("ride not found")));
    assert_eq!(
        refusal(release_direct(&user("driver"), &asked(), &ride("accepted", 1))),
        (401, s("only the booker can release this ride"))
    );
    assert_eq!(
        refusal(release_direct(&rider, &asked(), &ride("completed", 1))),
        (400, s("ride not in releasable state (current status: completed)"))
    );
    let mut r = ride("in_progress", 1);
    r.as_mut().unwrap().matched_driver = None;
    assert_eq!(refusal(release_direct(&rider, &asked(), &r)), (400, s("ride has no matched driver")));

    let order = |fare: i64, lud16: Option<&str>| {
        let p = release_direct(&user("rider"), &asked(), &ride("accepted", fare)).ok().unwrap();
        p.order(lud16.map(s), 1000, s("rel"), 5)
    };
    for lud16 in [None, Some(""), Some("nowhere")] {
        assert_eq!(
            refusal(order(500, lud16)),
            (400, s("driver has no valid lightning address on file"))
        );
    }
    assert_eq!(refusal(order(0, Some("a@b"))), (400, s("ride fare is zero or invalid")));
    assert_eq!(
        refusal(order(110, Some("a@b"))),
        (400, s("amount too low for Lightning (min 100 sats after fee, would pay 99 sats)"))
    );
    let at_least = order(111, Some("a@b")).ok().unwrap();
    assert_eq!(at_least.row_to_enter().driver_sats, 100);
    assert_eq!(
        refusal(at_least.entered(&Some(s("UNIQUE constraint failed: direct_releases.ride_id")))),
        (400, s("a release for this ride is already pending or completed"))
    );
    assert!(matches!(
        order(500, Some("a@b")).ok().unwrap().entered(&Some(s("disk full"))),
        Err(AppError::Internal(m)) if m == "pending insert failed: disk full"
    ));
}

#[test]
fn the_least_fare_can_be_paid_out() {
    for fare in 200..400 {
        let p = release_direct(&user("rider"), &asked(), &ride("accepted", fare)).ok().unwrap();
        assert!(p.order(Some(s("a@b")), 150, s("rel"), 5).is_ok());
    }
}

#[test]
fn drivers_learn_the_state_of_a_payout() {
    assert_eq!(direct_release_status(&None), "no_release_yet");
    let row = DirectRelease {
        id: s("i"),
        ride_id: s("R"),
        payer_pubkey: s("p"),
        lud16: s("a@b"),
        amount_sats: 1,
        driver_sats: 1,
        fee_sats: 0,
        status: s("failed"),
        error_message: None,
        blink_status: None,
        created_at: 0,
        updated_at: 0,
    };
    assert_eq!(direct_release_status(&Some(row)), "failed");
}

use ulendo::auth::AuthUser;
use ulendo::db::{Booking, BookingChange};
use ulendo::money::Payment;
use ulendo::routes::confirm::{
    cancel_before_pickup, confirm_pickup, driver_confirm, rider_confirm, CancelOrder, Cancellation, Confirmation,
    InstantRelease,
};
use ulendo::services::blink::{due, run_auto_release, run_escrow_monitor, BlinkClient, DueAction, WalletRequest};
use ulendo::AppResult;

fn s(text: &str) -> String {
    text.to_string()
}

fn user(name: &str) -> AuthUser {
    AuthUser { npub: s(name), public_key: format!("{name}-key") }
}

fn booking(status: &str) -> Booking {
    Booking {
        id: s("0123456789abcdef"),
        listing_id: s("L"),
        booker_npub: s("rider"),
        booking_type: s("ride"),
        status: s(status),
        amount_sats: 1000,
        fee_sats: 0,
        lud16_refund: Some(s("rider@ln.example")),
        payment_hash: None,
        payment_request: None,
        invoice_expires_at: None,
        ride_id: None,
        pickup_text: None,
        destination_text: None,
        funded_at: None,
        held_at: None,
        released_at: None,
        disputed_at: None,
        refunded_at: None,
        completed_at: None,
        rider_confirmed_at: None,
        driver_confirmed_at: None,
        pickup_confirmed_at: None,
        cancelled_at: None,
        created_at: 1,
        updated_at: 1,
    }
}

fn refusal<T>(r: AppResult<T>) -> (u16, String) {
    match r {
        Ok(_) => panic!("not refused"),
        Err(e) => e.into_response(),
    }
}

fn released(next: Confirmation) -> InstantRelease {
    match next {
        Confirmation::ReleaseNow { release } => release,
        Confirmation::Wait { .. } => panic!("the other party had confirmed"),
    }
}

#[test]
fn drivers_confirm_the_pickup() {
    let mut b = booking("funded");
    let (change, answer) = confirm_pickup(&user("driver"), &b, &Some(s("driver")), 5).ok().unwrap();
    change.apply(&mut b);
    assert_eq!((b.status.as_str(), b.pickup_confirmed_at), ("in_progress", Some(5)));
    assert_eq!(answer.status, "in_progress");
    assert!(!answer.released && !answer.rider_confirmed && !answer.driver_confirmed);
    for owner in [None, Some(s("other"))] {
        assert_eq!(
            refusal(confirm_pickup(&user("driver"), &booking("funded"), &owner, 5)),
            (401, s("only the driver can confirm pickup"))
        );
    }
    assert_eq!(
        refusal(confirm_pickup(&user("driver"), &booking("in_progress"), &Some(s("driver")), 5)),
        (400, s("cannot confirm pickup from status 'in_progress'"))
    );
}

#[test]
fn the_second_confirmation_releases() {
    let mut b = booking("in_progress");
    let plan = driver_confirm(&user("driver"), &b, &Some(s("driver")), 10).ok().unwrap();
    plan.change.apply(&mut b);
    match plan.next {
        Confirmation::ReleaseNow { .. } => panic!("the rider has not confirmed"),
        Confirmation::Wait { change, answer } => {
            assert_eq!(change.apply(&mut b), 1);
            assert_eq!(answer.status, "completed");
            assert!(answer.driver_confirmed && !answer.rider_confirmed && !answer.released);
        }
    }
    assert_eq!((b.status.as_str(), b.completed_at, b.driver_confirmed_at), ("completed", Some(10), Some(10)));
    let plan = rider_confirm(&user("rider"), &b, 20).ok().unwrap();
    plan.change.apply(&mut b);
    assert_eq!(b.rider_confirmed_at, Some(20));
    let release = released(plan.next);
    assert!(release.fits(500));
    assert!(release.has_short_id());
    let payment = release.do_instant_release(500, Some(s("driver@x"))).ok().unwrap();
    let to: &Payment = payment.payment_to_make();
    assert_eq!((to.lud16.as_str(), to.amount_sats), ("driver@x", 950));
    assert_eq!(to.memo, "Ulendo ride payment (01234567)");
    let (change, answer) = payment.paid(Ok(s("SUCCESS")), 30).ok().unwrap();
    change.apply(&mut b);
    assert_eq!((b.status.as_str(), b.fee_sats, b.released_at), ("released", 50, Some(30)));
    assert_eq!(b.completed_at, Some(10));
    assert!(answer.released && answer.rider_confirmed && answer.driver_confirmed);
    assert_eq!((answer.released_sats, answer.fee_sats), (950, 50));
}

#[test]
fn a_rider_who_confirms_first_waits() {
    let mut b = booking("in_progress");
    let plan = rider_confirm(&user("rider"), &b, 10).ok().unwrap();
    plan.change.apply(&mut b);
    match plan.next {
        Confirmation::ReleaseNow { .. } => panic!("the driver has not confirmed"),
        Confirmation::Wait { change, answer } => {
            change.apply(&mut b);
            assert!(answer.rider_confirmed && !answer.driver_confirmed);
        }
    }
    assert!(!due(&b, 1809));
    assert!(due(&b, 1810));
    let plan = driver_confirm(&user("driver"), &b, &Some(s("driver")), 20).ok().unwrap();
    plan.change.apply(&mut b);
    assert_eq!((b.status.as_str(), b.driver_confirmed_at), ("completed", Some(20)));
    let payment = released(plan.next).do_instant_release(500, Some(s("driver@x"))).ok().unwrap();
    assert_eq!(payment.payment_to_make().amount_sats, 950);
    let (change, answer) = payment.paid(Ok(s("SUCCESS")), 30).ok().unwrap();
    change.apply(&mut b);
    assert_eq!((b.status.as_str(), b.released_at), ("released", Some(30)));
    assert!(answer.released && answer.rider_confirmed && answer.driver_confirmed);
}

#[test]
fn confirmations_are_refused() {
    assert_eq!(
        refusal(driver_confirm(&user("rider"), &booking("held"), &Some(s("driver")), 1)),
        (401, s("only the driver can confirm completion"))
    );
    assert_eq!(
        refusal(rider_confirm(&user("driver"), &booking("held"), 1)),
        (401, s("only the rider can confirm"))
    );
    assert_eq!(
        refusal(rider_confirm(&user("rider"), &booking("released"), 1)),
        (400, s("cannot confirm from status 'released'"))
    );
    assert_eq!(
        refusal(driver_confirm(&user("driver"), &booking("completed"), &Some(s("driver")), 1)),
        (400, s("cannot confirm from status 'completed'"))
    );
    let mut b = booking("completed");
    b.driver_confirmed_at = Some(1);
    let release = released(rider_confirm(&user("rider"), &b, 1).ok().unwrap().next);
    assert_eq!(
        refusal(release.do_instant_release(500, None)),
        (400, s("driver has no lightning address"))
    );
    let release = released(rider_confirm(&user("rider"), &b, 1).ok().unwrap().next);
    let payment = release.do_instant_release(500, Some(s("d@x"))).ok().unwrap();
    assert_eq!(refusal(payment.paid(Err(s("route")), 2)), (402, s("payment failed: route")));
}

#[test]
fn a_release_sets_the_time_of_completion_where_none_is() {
    let mut b = booking("held");
    BookingChange::InstantRelease { fee_sats: 3, at: 8 }.apply(&mut b);
    assert_eq!((b.completed_at, b.fee_sats), (Some(8), 3));
    let mut b = booking("released");
    assert_eq!(BookingChange::AwaitOther { at: 9 }.apply(&mut b), 0);
    assert_eq!(b.status, "released");
}

fn pay_back(c: Cancellation) -> CancelOrder {
    match c {
        Cancellation::PayBack { order } => order,
        Cancellation::Unpaid { .. } => panic!("nothing is paid back"),
    }
}

#[test]
fn riders_cancel_before_the_pickup() {
    for status in ["funded", "held"] {
        let mut b = booking(status);
        let order = pay_back(cancel_before_pickup(&user("rider"), booking(status), 5).ok().unwrap());
        let rows = order.claim_to_write().apply(&mut b);
        assert_eq!((rows, b.status.as_str()), (1, "refunding"));
        let payment = order.claimed(rows).ok().unwrap();
        let refund = payment.payment_to_make();
        assert_eq!((refund.lud16.as_str(), refund.amount_sats), ("rider@ln.example", 1000));
        assert_eq!(refund.memo, "Ulendo cancellation refund");
        let end = payment.paid(Ok(s("SUCCESS")), 7);
        let answer = end.answer.ok().unwrap();
        assert_eq!((answer.status.as_str(), answer.released_sats, answer.fee_sats), ("cancelled", 1000, 0));
        end.change.apply(&mut b);
        assert_eq!((b.status.as_str(), b.cancelled_at), ("cancelled", Some(7)));
        assert_eq!(BookingChange::ClaimRefund { at: 8 }.apply(&mut b), 0);
    }
}

#[test]
fn a_cancellation_that_cannot_be_paid_back_is_undone() {
    let mut b = booking("held");
    let order = pay_back(cancel_before_pickup(&user("rider"), booking("held"), 5).ok().unwrap());
    let rows = order.claim_to_write().apply(&mut b);
    let end = order.claimed(rows).ok().unwrap().paid(Err(s("route")), 7);
    end.change.apply(&mut b);
    assert_eq!((b.status.as_str(), b.cancelled_at), ("held", None));
    assert_eq!(refusal(end.answer), (402, s("refund failed: route")));
    let order = pay_back(cancel_before_pickup(&user("rider"), booking("held"), 5).ok().unwrap());
    assert_eq!(refusal(order.claimed(0)), (400, s("booking is no longer in a cancellable state")));
    let mut b = booking("funded");
    b.lud16_refund = None;
    assert_eq!(refusal(cancel_before_pickup(&user("rider"), b, 5)), (400, s("no refund address on file")));
}

#[test]
fn unpaid_bookings_just_end() {
    let mut b = booking("pending");
    b.lud16_refund = None;
    match cancel_before_pickup(&user("rider"), booking("pending"), 5) {
        Ok(Cancellation::Unpaid { cancel }) => {
            let rows = cancel.change().apply(&mut b);
            assert_eq!((rows, b.status.as_str(), b.cancelled_at), (1, "cancelled", Some(5)));
            assert_eq!(cancel.written(rows).ok().unwrap().status, "cancelled");
        }
        _ => panic!("not cancelled"),
    }
    let mut paid_meanwhile = booking("funded");
    match cancel_before_pickup(&user("rider"), booking("pending"), 5) {
        Ok(Cancellation::Unpaid { cancel }) => {
            let rows = cancel.change().apply(&mut paid_meanwhile);
            assert_eq!((rows, paid_meanwhile.status.as_str()), (0, "funded"));
            assert_eq!(refusal(cancel.written(rows)), (400, s("booking is no longer in a cancellable state")));
        }
        _ => panic!("not cancelled"),
    }
}

#[test]
fn cancellations_are_refused() {
    assert_eq!(
        refusal(cancel_before_pickup(&user("x"), booking("held"), 1)),
        (401, s("only the rider can cancel"))
    );
    let mut b = booking("held");
    BookingChange::ConfirmPickup { at: 3 }.apply(&mut b);
    assert_eq!(
        refusal(cancel_before_pickup(&user("rider"), b, 1)),
        (400, s("cannot cancel after pickup — trip is in progress"))
    );
    assert_eq!(
        refusal(cancel_before_pickup(&user("rider"), booking("completed"), 1)),
        (400, s("cannot cancel from status 'completed'"))
    );
}

// The wallet

fn wallet() -> BlinkClient {
    BlinkClient::new(s("https://api"), s("key"), s("W"))
}

fn payment(lud16: &str) -> Payment {
    Payment { lud16: s(lud16), amount_sats: 7, memo: s("m") }
}

#[test]
fn payments_go_inside_blink_where_they_can() {
    match wallet().send_to_address(&payment("ann@blink.sv")) {
        Ok(WalletRequest::WalletOfUser { username }) => assert_eq!(username, "ann"),
        _ => panic!("not asked for the wallet"),
    }
    for lud16 in ["ann@example.org", "ann@x@blink.sv", "ann@blink.sv ", "@"] {
        match wallet().send_to_address(&payment(lud16)) {
            Ok(WalletRequest::PayAddress { wallet_id, ln_address, amount_sats, memo }) => {
                assert_eq!((wallet_id.as_str(), ln_address.as_str()), ("W", lud16));
                assert_eq!((amount_sats, memo.as_str()), (7, "m"));
            }
            _ => panic!("not paid over Lightning"),
        }
    }
    assert_eq!(wallet().send_to_address(&payment("ann")).err(), Some(s("invalid lud16: ann")));
    match wallet().send_intra_ledger(&payment("ann@blink.sv"), "V") {
        WalletRequest::PayWallet { wallet_id, recipient_wallet_id, amount_sats, memo } => {
            assert_eq!((wallet_id.as_str(), recipient_wallet_id.as_str()), ("W", "V"));
            assert_eq!((amount_sats, memo.as_str()), (7, "m"));
        }
        _ => panic!("not paid inside Blink"),
    }
}

#[test]
fn invoices_come_with_the_reply() {
    match wallet().create_invoice(5, "memo") {
        WalletRequest::CreateInvoice { wallet_id, amount_sats, memo } => {
            assert_eq!((wallet_id.as_str(), amount_sats, memo.as_str()), ("W", 5, "memo"));
        }
        _ => panic!("no invoice asked for"),
    }
    let inv = BlinkClient::invoice_created(&Vec::new(), Some((s("lnbc"), s("hash"))), 100).ok().unwrap();
    assert_eq!((inv.payment_request.as_str(), inv.payment_hash.as_str()), ("lnbc", "hash"));
    assert_eq!(inv.expires_at, 86_500);
    assert_eq!(BlinkClient::invoice_created(&Vec::new(), None, 100).err(), Some(s("no invoice returned")));
    assert_eq!(
        BlinkClient::invoice_created(&vec![s("first"), s("second")], Some((s("a"), s("b"))), 100).err(),
        Some(s("first"))
    );
    assert_eq!(BlinkClient::gql(&None), Ok(()));
    assert_eq!(BlinkClient::gql(&Some(None)), Err(s("blink: blink error")));
    assert_eq!(BlinkClient::gql(&Some(Some(s("limit")))), Err(s("blink: limit")));
    assert!(BlinkClient::means_paid("PAID"));
    assert!(!BlinkClient::means_paid("PENDING"));
    match wallet().is_invoice_paid("lnbc") {
        WalletRequest::InvoiceStatus { payment_request } => assert_eq!(payment_request, "lnbc"),
        _ => panic!("not asked about the invoice"),
    }
}

#[test]
fn the_monitor_funds_what_was_paid() {
    assert!(run_escrow_monitor(booking("pending")).is_none());
    let mut b = booking("pending");
    b.payment_request = Some(s("lnbc"));
    let check = run_escrow_monitor(b).unwrap();
    assert_eq!(check.payment_request(), "lnbc");
    assert_eq!((check.booking_id(), check.booker_npub()), ("0123456789abcdef", "rider"));
    assert!(check.checked(&Ok(false), 5).is_none());
    assert!(check.checked(&Err(s("down")), 5).is_none());
    let mut row = booking("pending");
    let change = check.checked(&Ok(true), 5).unwrap();
    assert_eq!(change.apply(&mut row), 1);
    assert_eq!((row.status.as_str(), row.funded_at), ("funded", Some(5)));
    assert_eq!(change.apply(&mut row), 0);
    let notice = check.notify_booking_funded(&change, 1).unwrap();
    assert_eq!(notice.title, "Escrow funded!");
    assert_eq!(notice.body, "Your booking is active. 1000 sats held.");
    assert_eq!(notice.kind, "booking_funded");
    assert!(check.notify_booking_funded(&change, 0).is_none());
    let mut b = booking("funded");
    b.payment_request = Some(s("lnbc"));
    assert!(run_escrow_monitor(b).is_none());
}

#[test]
fn expired_invoices_end_their_bookings() {
    let mut b = booking("pending");
    b.payment_request = Some(s("lnbc"));
    b.invoice_expires_at = Some(100);
    let mut row = booking("pending");
    let check = run_escrow_monitor(b).unwrap();
    assert!(check.checked(&Ok(false), 100).is_none());
    assert!(check.checked(&Err(s("down")), 101).is_none());
    assert!(matches!(check.checked(&Ok(true), 101), Some(BookingChange::Fund { at: 101 })));
    let change = check.checked(&Ok(false), 101).unwrap();
    let mut funded = booking("funded");
    assert_eq!(change.apply(&mut funded), 0);
    assert_eq!(funded.status, "funded");
    assert_eq!(change.apply(&mut row), 1);
    assert_eq!((row.status.as_str(), row.cancelled_at), ("cancelled", Some(101)));
    assert!(check.notify_booking_funded(&change, 1).is_none());
}

#[test]
fn bookings_fall_due() {
    let now = 100_000;
    let mut b = booking("completed");
    assert!(!due(&b, now));
    b.completed_at = Some(now - 60);
    assert!(due(&b, now));
    b.completed_at = Some(now - 59);
    assert!(!due(&b, now));
    b.rider_confirmed_at = Some(now - 1800);
    b.completed_at = Some(now - 1800);
    assert!(due(&b, now));
    b.completed_at = Some(now - 1799);
    assert!(!due(&b, now));
    let mut b = booking("held");
    b.funded_at = Some(now - 900);
    assert!(due(&b, now));
    b.funded_at = Some(now - 899);
    assert!(!due(&b, now));
    let mut b = booking("in_progress");
    b.pickup_confirmed_at = Some(now - 7200);
    assert!(due(&b, now));
    b.pickup_confirmed_at = Some(now - 7199);
    assert!(!due(&b, now));
    b.pickup_confirmed_at = Some(now - 7200);
    b.rider_confirmed_at = Some(now - 1);
    assert!(!due(&b, now));
    for status in ["pending", "releasing", "released", "disputed", "refunded", "cancelled"] {
        let mut b = booking(status);
        b.completed_at = Some(0);
        b.funded_at = Some(0);
        assert!(!due(&b, now));
    }
}

#[test]
fn without_a_pickup_the_rider_is_paid_back() {
    let now = 100_000;
    let mut b = booking("funded");
    b.funded_at = Some(now - 1000);
    match run_auto_release(b, now) {
        Some(DueAction::Refund { refund }) => {
            let p = refund.payment_to_make();
            assert_eq!((p.lud16.as_str(), p.amount_sats), ("rider@ln.example", 1000));
            assert_eq!(p.memo, "Ulendo auto-refund: no pickup");
            let mut row = booking("funded");
            refund.paid(&Ok(s("SUCCESS"))).unwrap().apply(&mut row);
            assert_eq!((row.status.as_str(), row.refunded_at), ("refunded", Some(now)));
        }
        _ => panic!("not refunded"),
    }
    let mut b = booking("funded");
    b.funded_at = Some(now - 1000);
    match run_auto_release(b, now) {
        Some(DueAction::Refund { refund }) => assert!(refund.paid(&Err(s("route"))).is_none()),
        _ => panic!("not refunded"),
    }
    let mut b = booking("held");
    b.funded_at = Some(now - 1000);
    b.lud16_refund = None;
    match run_auto_release(b, now) {
        Some(DueAction::Cancel { change }) => {
            let mut row = booking("held");
            change.apply(&mut row);
            assert_eq!(row.status, "cancelled");
        }
        _ => panic!("not cancelled"),
    }
}

#[test]
fn after_the_waiting_time_the_driver_is_paid() {
    let now = 100_000;
    let completed = || {
        let mut b = booking("completed");
        b.completed_at = Some(now - 2000);
        match run_auto_release(b, now) {
            Some(DueAction::PayDriver { release }) => release,
            _ => panic!("the driver is not paid"),
        }
    };
    let release = completed();
    assert_eq!(release.listing_id(), "L");
    assert!(release.fits(333));
    let payment = release.order(Some(s("driver@x")), 333).unwrap();
    let p = payment.payment_to_make();
    assert_eq!((p.lud16.as_str(), p.amount_sats, p.memo.as_str()), ("driver@x", 967, "Ulendo ride payment"));
    assert_eq!(payment.booker_npub(), "rider");
    assert!(payment.paid(&Err(s("route"))).is_none());
    let mut row = booking("completed");
    let rows = payment.paid(&Ok(s("SUCCESS"))).unwrap().apply(&mut row);
    assert_eq!((rows, row.status.as_str(), row.fee_sats), (1, "released", 33));
    let (to_driver, to_booker) = payment.notices(rows).unwrap();
    assert_eq!(to_driver.body, "967 sats sent to your wallet");
    assert_eq!((to_driver.title.as_str(), to_driver.kind.as_str()), ("Payment received!", "escrow_released"));
    assert_eq!(to_booker.body, "967 sats sent to driver. Thank you for riding with Ulendo!");
    assert_eq!((to_booker.title.as_str(), to_booker.kind.as_str()), ("Payment released", "escrow_auto_released"));
    assert!(payment.notices(0).is_none());
    let mut row = booking("disputed");
    assert_eq!(payment.paid(&Ok(s("SUCCESS"))).unwrap().apply(&mut row), 0);
    assert!(completed().order(None, 333).is_none());
}

#[test]
fn waiting_times_run_from_the_write_that_starts_them() {
    let mut b = booking("pending");
    BookingChange::Fund { at: 10_000 }.apply(&mut b);
    assert!(!due(&b, 10_899) && due(&b, 10_900));
    BookingChange::Hold { at: 10_500 }.apply(&mut b);
    assert!(!due(&b, 10_899) && due(&b, 10_900));
    BookingChange::ConfirmPickup { at: 10_600 }.apply(&mut b);
    assert!(!due(&b, 17_799) && due(&b, 17_800));
    BookingChange::RiderConfirm { at: 11_000 }.apply(&mut b);
    BookingChange::AwaitOther { at: 11_000 }.apply(&mut b);
    assert!(!due(&b, 12_799) && due(&b, 12_800));
}

#[test]
fn every_status_comes_with_its_time() {
    let mut b = booking("pending");
    BookingChange::Fund { at: 1 }.apply(&mut b);
    assert_eq!((b.status.as_str(), b.funded_at), ("funded", Some(1)));
    BookingChange::Hold { at: 2 }.apply(&mut b);
    assert_eq!((b.status.as_str(), b.held_at), ("held", Some(2)));
    BookingChange::ClaimRelease { at: 3 }.apply(&mut b);
    BookingChange::UndoRelease { status: s("held"), at: 4 }.apply(&mut b);
    assert_eq!((b.status.as_str(), b.held_at), ("held", Some(2)));
    BookingChange::Complete { at: 5 }.apply(&mut b);
    assert_eq!((b.status.as_str(), b.completed_at), ("completed", Some(5)));
    BookingChange::AutoRelease { fee_sats: 0, at: 6 }.apply(&mut b);
    assert_eq!((b.status.as_str(), b.released_at), ("released", Some(6)));
}

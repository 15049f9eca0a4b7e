//! The Blink wallet: invoices, payments to Lightning addresses, and the two
//! background tasks that watch over bookings.

use vstd::prelude::*;
use vstd::string::*;

use crate::clock::is_timestamp;
use crate::db::Booking;
use crate::db::BookingChange;
use crate::db::changes::BookingChangeView;
use crate::db::changes::funded_or_held;
use crate::db::changes::is_funded_or_held;
use crate::db::models::BookingView;
use crate::money::FeeSplit;
use crate::money::Payment;
use crate::money::PaymentView;
use crate::money::can_compute_fee;
use crate::money::fee_fits;
use crate::money::fee_of;
use crate::money::split_fee;
use crate::services::push::BookingNotice;
use crate::services::push::BookingNoticeView;
use crate::text::copy_option;
use crate::text::dec;
use crate::text::decimal;
use crate::text::or_text;
use crate::text::same;
use crate::text::split_once;

verus! {

/// How the wallet is reached.
pub struct BlinkClient {
    pub api_url: String,
    pub api_key: String,
    pub wallet_id: String,
}

pub struct InvoiceResult {
    pub payment_request: String,
    pub payment_hash: String,
    pub expires_at: i64,
}

/// A request to the wallet's API.
pub enum WalletRequest {
    /// Make out an invoice.
    CreateInvoice { wallet_id: String, amount_sats: i64, memo: String },
    /// Tell the status of an invoice.
    InvoiceStatus { payment_request: String },
    /// Tell the wallet of a user of Blink.
    WalletOfUser { username: String },
    /// Pay to another wallet of Blink.
    PayWallet {
        wallet_id: String,
        recipient_wallet_id: String,
        amount_sats: i64,
        memo: String,
    },
    /// Pay to a Lightning address.
    PayAddress { wallet_id: String, ln_address: String, amount_sats: i64, memo: String },
}

pub enum WalletRequestView {
    CreateInvoice { wallet_id: Seq<char>, amount_sats: i64, memo: Seq<char> },
    InvoiceStatus { payment_request: Seq<char> },
    WalletOfUser { username: Seq<char> },
    PayWallet {
        wallet_id: Seq<char>,
        recipient_wallet_id: Seq<char>,
        amount_sats: i64,
        memo: Seq<char>,
    },
    PayAddress { wallet_id: Seq<char>, ln_address: Seq<char>, amount_sats: i64, memo: Seq<char> },
}

impl View for WalletRequest {
    type V = WalletRequestView;

    open spec fn view(&self) -> WalletRequestView {
        match self {
            WalletRequest::CreateInvoice { wallet_id, amount_sats, memo } =>
            WalletRequestView::CreateInvoice {
                wallet_id: wallet_id@,
                amount_sats: *amount_sats,
                memo: memo@,
            },
            WalletRequest::InvoiceStatus { payment_request } => WalletRequestView::InvoiceStatus {
                payment_request: payment_request@,
            },
            WalletRequest::WalletOfUser { username } => WalletRequestView::WalletOfUser {
                username: username@,
            },
            WalletRequest::PayWallet { wallet_id, recipient_wallet_id, amount_sats, memo } =>
            WalletRequestView::PayWallet {
                wallet_id: wallet_id@,
                recipient_wallet_id: recipient_wallet_id@,
                amount_sats: *amount_sats,
                memo: memo@,
            },
            WalletRequest::PayAddress { wallet_id, ln_address, amount_sats, memo } =>
            WalletRequestView::PayAddress {
                wallet_id: wallet_id@,
                ln_address: ln_address@,
                amount_sats: *amount_sats,
                memo: memo@,
            },
        }
    }
}

/// The address belongs to Blink: `user` is all that stands before its first `@`,
/// and `blink.sv` all that follows.
pub open spec fn blink_user(lud16: Seq<char>, user: Seq<char>) -> bool {
    lud16 == user.push('@') + "blink.sv"@ && !user.contains('@')
}

impl BlinkClient {
    pub fn new(api_url: String, api_key: String, wallet_id: String) -> (r: BlinkClient)
        ensures
            r.api_url == api_url,
            r.api_key == api_key,
            r.wallet_id == wallet_id,
    {
        BlinkClient { api_url, api_key, wallet_id }
    }

    /// What a reply of the wallet's API comes to: an error if it holds any, with the
    /// text of the first one where that is given.
    pub fn gql(errors: &Option<Option<String>>) -> (r: Result<(), String>)
        ensures
            match r {
                Ok(_) => errors is None,
                Err(m) => errors is Some && m@ == "blink: "@ + or_text(
                    errors->0.deep_view(),
                    "blink error"@,
                ),
            },
    {
        match errors {
            None => Ok(()),
            Some(first) => {
                let detail: String = crate::text::or_default(first, "blink error");
                let mut m: String = "blink: ".to_owned();
                m.append(detail.as_str());
                Err(m)
            },
        }
    }

    /// The request for an invoice, payable to the platform's own wallet.
    pub fn create_invoice(&self, amount_sats: i64, memo: &str) -> (r: WalletRequest)
        ensures
            r@ == (WalletRequestView::CreateInvoice {
                wallet_id: self.wallet_id@,
                amount_sats,
                memo: memo@,
            }),
    {
        WalletRequest::CreateInvoice {
            wallet_id: self.wallet_id.clone(),
            amount_sats,
            memo: memo.to_owned(),
        }
    }

    /// The invoice in the wallet's reply, as payment request and hash: valid for a
    /// day, unless the reply tells of errors or brings none.
    pub fn invoice_created(
        errors: &Vec<String>,
        invoice: Option<(String, String)>,
        now: i64,
    ) -> (r: Result<InvoiceResult, String>)
        requires
            is_timestamp(now),
        ensures
            match r {
                Ok(inv) => {
                    &&& errors@.len() == 0
                    &&& invoice == Some((inv.payment_request, inv.payment_hash))
                    &&& inv.expires_at == now + 86400
                },
                Err(m) => if errors@.len() > 0 {
                    m == errors@[0]
                } else {
                    invoice is None && m@ == "no invoice returned"@
                },
            },
    {
        if errors.len() > 0 {
            return Err(errors[0].clone());
        }
        match invoice {
            None => Err("no invoice returned".to_owned()),
            Some((payment_request, payment_hash)) => Ok(
                InvoiceResult { payment_request, payment_hash, expires_at: now + 86400 },
            ),
        }
    }

    /// The question whether an invoice is paid.
    pub fn is_invoice_paid(&self, payment_request: &str) -> (r: WalletRequest)
        ensures
            r@ == (WalletRequestView::InvoiceStatus { payment_request: payment_request@ }),
    {
        WalletRequest::InvoiceStatus { payment_request: payment_request.to_owned() }
    }

    /// Whether the status that the wallet reports of an invoice means paid.
    pub fn means_paid(status: &str) -> (r: bool)
        ensures
            r == (status@ == "PAID"@),
    {
        same(status, "PAID")
    }

    /// The first request of a payment. A user of Blink is paid inside Blink, for which
    /// the user's wallet is asked for first; any other address is paid over Lightning.
    pub fn send_to_address(&self, payment: &Payment) -> (r: Result<WalletRequest, String>)
        ensures
            match r {
                Err(m) => !payment.lud16@.contains('@') && m@ == "invalid lud16: "@
                    + payment.lud16@,
                Ok(request) => match request@ {
                    WalletRequestView::WalletOfUser { username } => blink_user(
                        payment.lud16@,
                        username,
                    ),
                    _ => {
                        &&& payment.lud16@.contains('@')
                        &&& forall|user: Seq<char>| !blink_user(payment.lud16@, user)
                        &&& request@ == (WalletRequestView::PayAddress {
                            wallet_id: self.wallet_id@,
                            ln_address: payment.lud16@,
                            amount_sats: payment.amount_sats,
                            memo: payment.memo@,
                        })
                    },
                },
            },
    {
        let lud16: &str = payment.lud16.as_str();
        match split_once(lud16, '@') {
            None => {
                let mut m: String = "invalid lud16: ".to_owned();
                m.append(lud16);
                Err(m)
            },
            Some((user, domain)) => {
                assert(lud16@[user@.len() as int] == '@');
                if same(domain.as_str(), "blink.sv") {
                    Ok(WalletRequest::WalletOfUser { username: user })
                } else {
                    assert forall|other: Seq<char>| !blink_user(lud16@, other) by {
                        if blink_user(lud16@, other) {
                            lemma_first_at_is_unique(
                                lud16@,
                                user@,
                                domain@,
                                other,
                                "blink.sv"@,
                            );
                        }
                    }
                    Ok(self.send_ln_address(payment))
                }
            },
        }
    }

    /// The payment to a user of Blink whose wallet is known.
    pub fn send_intra_ledger(&self, payment: &Payment, recipient_wallet_id: &str) -> (r:
        WalletRequest)
        ensures
            r@ == (WalletRequestView::PayWallet {
                wallet_id: self.wallet_id@,
                recipient_wallet_id: recipient_wallet_id@,
                amount_sats: payment.amount_sats,
                memo: payment.memo@,
            }),
    {
        WalletRequest::PayWallet {
            wallet_id: self.wallet_id.clone(),
            recipient_wallet_id: recipient_wallet_id.to_owned(),
            amount_sats: payment.amount_sats,
            memo: payment.memo.clone(),
        }
    }

    /// The payment to a Lightning address.
    pub fn send_ln_address(&self, payment: &Payment) -> (r: WalletRequest)
        ensures
            r@ == (WalletRequestView::PayAddress {
                wallet_id: self.wallet_id@,
                ln_address: payment.lud16@,
                amount_sats: payment.amount_sats,
                memo: payment.memo@,
            }),
    {
        WalletRequest::PayAddress {
            wallet_id: self.wallet_id.clone(),
            ln_address: payment.lud16.clone(),
            amount_sats: payment.amount_sats,
            memo: payment.memo.clone(),
        }
    }
}

/// A text splits at its first `@` in one way only.
pub proof fn lemma_first_at_is_unique(
    s: Seq<char>,
    a: Seq<char>,
    b: Seq<char>,
    c: Seq<char>,
    d: Seq<char>,
)
    requires
        s == a.push('@') + b,
        s == c.push('@') + d,
        !a.contains('@'),
        !c.contains('@'),
    ensures
        a == c,
        b == d,
{
    if a.len() < c.len() {
        assert(s[a.len() as int] == '@');
        assert(c[a.len() as int] == s[a.len() as int]);
    } else if c.len() < a.len() {
        assert(s[c.len() as int] == '@');
        assert(a[c.len() as int] == s[c.len() as int]);
    }
    assert(a =~= s.take(a.len() as int));
    assert(c =~= s.take(c.len() as int));
    assert(b =~= s.skip(a.len() + 1int));
    assert(d =~= s.skip(c.len() + 1int));
}

// ── Watching for paid invoices ──────────────────────────────────────────────

/// A booking whose invoice the monitor asks about.
pub open spec fn awaits_payment(booking: BookingView) -> bool {
    booking.status == "pending"@ && booking.payment_request is Some
}

/// A booking whose invoice the monitor asks about.
pub struct InvoiceCheck {
    booking: Booking,
    payment_request: String,
}

/// Looks at a booking: its invoice is asked about if it waits for the payment.
pub fn run_escrow_monitor(booking: Booking) -> (r: Option<InvoiceCheck>)
    ensures
        match r {
            Some(check) => awaits_payment(booking@) && check.booking() == booking@,
            None => !awaits_payment(booking@),
        },
{
    if !same(booking.status.as_str(), "pending") {
        return None;
    }
    match copy_option(&booking.payment_request) {
        Some(payment_request) => Some(InvoiceCheck { booking, payment_request }),
        None => None,
    }
}

/// The invoice of a booking has expired.
pub open spec fn invoice_expired(booking: BookingView, now: i64) -> bool {
    booking.invoice_expires_at is Some && booking.invoice_expires_at->0 < now
}

/// What is written once the wallet was asked whether an invoice is paid, if anything is.
pub open spec fn change_after_check(
    booking: BookingView,
    paid: Result<bool, String>,
    now: i64,
) -> Option<BookingChangeView> {
    if paid == Ok::<bool, String>(true) {
        Some(BookingChangeView::Fund { at: now })
    } else if paid == Ok::<bool, String>(false) && invoice_expired(booking, now) {
        Some(BookingChangeView::CancelUnpaid { at: now })
    } else {
        None
    }
}

/// The notification that a booking is funded.
pub open spec fn funded_notice(booking: BookingView) -> BookingNoticeView {
    BookingNoticeView {
        title: "Escrow funded!"@,
        body: "Your booking is active. "@ + dec(booking.amount_sats as int) + " sats held."@,
        booking_id: booking.id,
        kind: "booking_funded"@,
    }
}

impl InvoiceCheck {
    #[verifier::type_invariant]
    spec fn inv(self) -> bool {
        self.booking@.payment_request == Some(self.payment_request@)
    }

    /// The booking that is looked at.
    pub closed spec fn booking(&self) -> BookingView {
        self.booking@
    }

    /// The booking's id.
    pub fn booking_id(&self) -> (r: &str)
        ensures
            r@ == self.booking().id,
    {
        self.booking.id.as_str()
    }

    /// The booker, who is told.
    pub fn booker_npub(&self) -> (r: &str)
        ensures
            r@ == self.booking().booker_npub,
    {
        self.booking.booker_npub.as_str()
    }

    /// The invoice to ask about.
    pub fn payment_request(&self) -> (r: &str)
        ensures
            self.booking().payment_request == Some(r@),
    {
        proof {
            use_type_invariant(self);
        }
        self.payment_request.as_str()
    }

    /// What is written once the invoice was asked about: the booking is funded if the
    /// invoice is paid and cancelled if it is not and has expired. It is left alone if
    /// the invoice can still be paid or the question failed.
    pub fn checked(&self, paid: &Result<bool, String>, now: i64) -> (r: Option<BookingChange>)
        ensures
            match r {
                Some(change) => change_after_check(self.booking(), *paid, now) == Some(change@),
                None => change_after_check(self.booking(), *paid, now) is None,
            },
    {
        match paid {
            Ok(true) => Some(BookingChange::Fund { at: now }),
            Ok(false) => match self.booking.invoice_expires_at {
                Some(expiry) => if expiry < now {
                    Some(BookingChange::CancelUnpaid { at: now })
                } else {
                    None
                },
                None => None,
            },
            Err(_) => None,
        }
    }

    /// What the booker is told once the funds have come in. Only a funding that took
    /// hold is told of.
    pub fn notify_booking_funded(&self, change: &BookingChange, rows: u64) -> (r: Option<
        BookingNotice,
    >)
        ensures
            match r {
                Some(n) => change is Fund && rows > 0 && n@ == funded_notice(self.booking()),
                None => !(change is Fund) || rows == 0,
            },
    {
        match change {
            BookingChange::Fund { .. } => {},
            _ => {
                return None;
            },
        }
        if rows == 0 {
            return None;
        }
        let sats: String = decimal(self.booking.amount_sats);
        let mut body: String = "Your booking is active. ".to_owned();
        body.append(sats.as_str());
        body.append(" sats held.");
        Some(
            BookingNotice {
                title: "Escrow funded!".to_owned(),
                body,
                booking_id: self.booking.id.clone(),
                kind: "booking_funded".to_owned(),
            },
        )
    }
}

// ── Releasing and refunding after the waiting times ─────────────────────────

/// Seconds after which a booking that its merchant marked as complete is paid out.
pub const COMPLETE_SECS: i64 = 60;

/// Seconds after which a booking that one party confirmed is paid out.
pub const ONE_CONFIRM_SECS: i64 = 1800;

/// Seconds after which a funded booking without a pickup is paid back.
pub const NO_PICKUP_SECS: i64 = 900;

/// Seconds after the pickup at which a booking that nobody confirmed is paid out.
pub const SILENT_SECS: i64 = 7200;

/// Neither party has confirmed the end of the trip.
pub open spec fn unconfirmed(b: BookingView) -> bool {
    b.driver_confirmed_at is None && b.rider_confirmed_at is None
}

/// Seconds for which a completed booking waits: for the other party, where one has
/// confirmed, and otherwise for the booker's objection.
pub open spec fn completion_wait(b: BookingView) -> i64 {
    if unconfirmed(b) {
        COMPLETE_SECS
    } else {
        ONE_CONFIRM_SECS
    }
}

/// Completed, and the waiting time is over.
pub open spec fn completed_in_time(b: BookingView, now: i64) -> bool {
    b.status == "completed"@ && b.completed_at is Some && b.completed_at->0 <= now
        - completion_wait(b)
}

/// Funded without a pickup, and the waiting time for it is over.
pub open spec fn pickup_overdue(b: BookingView, now: i64) -> bool {
    funded_or_held(b.status) && b.pickup_confirmed_at is None && b.funded_at is Some
        && b.funded_at->0 <= now - NO_PICKUP_SECS
}

/// Picked up, confirmed by nobody, and the waiting time for both is over.
pub open spec fn silence_over(b: BookingView, now: i64) -> bool {
    b.status == "in_progress"@ && unconfirmed(b) && b.pickup_confirmed_at is Some
        && b.pickup_confirmed_at->0 <= now - SILENT_SECS
}

/// The booking is due: for payment to the driver, or for a refund.
pub open spec fn is_due(b: BookingView, now: i64) -> bool {
    completed_in_time(b, now) || pickup_overdue(b, now) || silence_over(b, now)
}

fn not_after(t: &Option<i64>, limit: i64) -> (r: bool)
    ensures
        r == (t is Some && t->0 <= limit),
{
    match t {
        Some(x) => *x <= limit,
        None => false,
    }
}

/// Whether the booking is due.
pub fn due(booking: &Booking, now: i64) -> (r: bool)
    requires
        is_timestamp(now),
    ensures
        r == is_due(booking@, now),
{
    let status: &str = booking.status.as_str();
    let silent: bool = booking.driver_confirmed_at.is_none()
        && booking.rider_confirmed_at.is_none();
    let wait: i64 = if silent {
        COMPLETE_SECS
    } else {
        ONE_CONFIRM_SECS
    };
    (same(status, "completed") && not_after(&booking.completed_at, now - wait)) || (
    is_funded_or_held(status) && booking.pickup_confirmed_at.is_none() && not_after(
        &booking.funded_at,
        now - NO_PICKUP_SECS,
    )) || (same(status, "in_progress") && silent && not_after(
        &booking.pickup_confirmed_at,
        now - SILENT_SECS,
    ))
}

/// What is done with a booking that is due.
pub enum DueAction {
    /// No pickup: the full amount goes back to the rider.
    Refund { refund: AutoRefund },
    /// No pickup and no address to pay back to: the booking is cancelled.
    Cancel { change: BookingChange },
    /// The driver is to be paid: the driver's address is looked up.
    PayDriver { release: AutoRelease },
}

/// A booking without a pickup that is paid back.
pub struct AutoRefund {
    payment: Payment,
    now: i64,
}

/// A booking that is paid out to its driver.
pub struct AutoRelease {
    booking: Booking,
    now: i64,
}

/// The refund of a booking without a pickup: the full amount.
pub open spec fn auto_refund_payment(booking: BookingView) -> PaymentView {
    PaymentView {
        lud16: booking.lud16_refund->0,
        amount_sats: booking.amount_sats,
        memo: "Ulendo auto-refund: no pickup"@,
    }
}

/// Looks at a booking. If it is due, without a pickup the rider gets the full amount
/// back, and otherwise the driver is paid.
pub fn run_auto_release(booking: Booking, now: i64) -> (r: Option<DueAction>)
    requires
        is_timestamp(now),
    ensures
        r is Some <==> is_due(booking@, now),
        r matches Some(action) ==> match action {
            DueAction::Refund { refund } => {
                &&& pickup_overdue(booking@, now)
                &&& booking.lud16_refund is Some
                &&& refund.payment() == auto_refund_payment(booking@)
                &&& refund.at() == now
            },
            DueAction::Cancel { change } => {
                &&& pickup_overdue(booking@, now)
                &&& booking.lud16_refund is None
                &&& change@ == BookingChangeView::Cancel { at: now }
            },
            DueAction::PayDriver { release } => {
                &&& completed_in_time(booking@, now) || silence_over(booking@, now)
                &&& release.booking() == booking@
                &&& release.at() == now
            },
        },
{
    if !due(&booking, now) {
        return None;
    }
    proof {
        crate::laws::lemma_statuses_differ();
    }
    if is_funded_or_held(booking.status.as_str()) && booking.pickup_confirmed_at.is_none() {
        let action: DueAction = match &booking.lud16_refund {
            Some(lud16) => DueAction::Refund {
                refund: AutoRefund {
                    payment: Payment {
                        lud16: lud16.clone(),
                        amount_sats: booking.amount_sats,
                        memo: "Ulendo auto-refund: no pickup".to_owned(),
                    },
                    now,
                },
            },
            None => DueAction::Cancel { change: BookingChange::Cancel { at: now } },
        };
        return Some(action);
    }
    Some(DueAction::PayDriver { release: AutoRelease { booking, now } })
}

impl AutoRefund {
    /// The payment.
    pub closed spec fn payment(&self) -> PaymentView {
        self.payment@
    }

    /// The time at which the booking was looked at.
    pub closed spec fn at(&self) -> i64 {
        self.now
    }

    /// The payment to make.
    pub fn payment_to_make(&self) -> (r: &Payment)
        ensures
            r@ == self.payment(),
    {
        &self.payment
    }

    /// What is written once the refund was tried: nothing if it failed, so that it is
    /// tried again.
    pub fn paid(self, reply: &Result<String, String>) -> (r: Option<BookingChange>)
        ensures
            match r {
                Some(c) => reply is Ok && c@ == (BookingChangeView::Refund { at: self.at() }),
                None => reply is Err,
            },
    {
        match reply {
            Ok(_) => Some(BookingChange::Refund { at: self.now }),
            Err(_) => None,
        }
    }
}

/// The driver's payment for a booking that is due: the amount less the fee.
pub open spec fn auto_payment(booking: BookingView, bps: u64, lud16: Seq<char>) -> PaymentView {
    PaymentView {
        lud16,
        amount_sats: (booking.amount_sats - fee_of(booking.amount_sats as int, bps as int)) as i64,
        memo: "Ulendo ride payment"@,
    }
}

impl AutoRelease {
    /// The booking that is paid out.
    pub closed spec fn booking(&self) -> BookingView {
        self.booking@
    }

    /// The time at which the booking was looked at.
    pub closed spec fn at(&self) -> i64 {
        self.now
    }

    /// The listing whose owner is paid.
    pub fn listing_id(&self) -> (r: &str)
        ensures
            r@ == self.booking().listing_id,
    {
        self.booking.listing_id.as_str()
    }

    /// Whether the fee can be computed at a rate.
    pub fn fits(&self, escrow_fee_bps: u64) -> (r: bool)
        ensures
            r == fee_fits(self.booking().amount_sats, escrow_fee_bps),
    {
        can_compute_fee(self.booking.amount_sats, escrow_fee_bps)
    }

    /// The driver's payment. None without an address; the booking is then left as it
    /// is.
    pub fn order(self, driver_lud16: Option<String>, escrow_fee_bps: u64) -> (r: Option<
        AutoPayment,
    >)
        requires
            fee_fits(self.booking().amount_sats, escrow_fee_bps),
        ensures
            match r {
                Some(p) => {
                    &&& driver_lud16 is Some
                    &&& p.booking() == self.booking()
                    &&& p.at() == self.at()
                    &&& p.fee() == fee_of(
                        self.booking().amount_sats as int,
                        escrow_fee_bps as int,
                    )
                    &&& p.payment() == auto_payment(
                        self.booking(),
                        escrow_fee_bps,
                        driver_lud16->0@,
                    )
                    &&& p.payment().amount_sats + p.fee() == self.booking().amount_sats
                },
                None => driver_lud16 is None,
            },
    {
        match driver_lud16 {
            None => None,
            Some(lud16) => {
                let split: FeeSplit = split_fee(self.booking.amount_sats, escrow_fee_bps);
                Some(
                    AutoPayment {
                        booking: self.booking,
                        now: self.now,
                        fee_sats: split.fee_sats,
                        payment: Payment {
                            lud16,
                            amount_sats: split.payee_sats,
                            memo: "Ulendo ride payment".to_owned(),
                        },
                    },
                )
            },
        }
    }
}

/// The driver's payment for a booking that is due.
pub struct AutoPayment {
    booking: Booking,
    now: i64,
    fee_sats: i64,
    payment: Payment,
}

/// What the driver is told of a payment.
pub open spec fn driver_notice(booking_id: Seq<char>, sats: i64) -> BookingNoticeView {
    BookingNoticeView {
        title: "Payment received!"@,
        body: dec(sats as int) + " sats sent to your wallet"@,
        booking_id,
        kind: "escrow_released"@,
    }
}

/// What the booker is told of a payment to the driver.
pub open spec fn released_notice(booking_id: Seq<char>, sats: i64) -> BookingNoticeView {
    BookingNoticeView {
        title: "Payment released"@,
        body: dec(sats as int) + " sats sent to driver. Thank you for riding with Ulendo!"@,
        booking_id,
        kind: "escrow_auto_released"@,
    }
}

impl AutoPayment {
    /// The booking that is paid out.
    pub closed spec fn booking(&self) -> BookingView {
        self.booking@
    }

    /// The time at which the booking was looked at.
    pub closed spec fn at(&self) -> i64 {
        self.now
    }

    /// The platform's fee.
    pub closed spec fn fee(&self) -> i64 {
        self.fee_sats
    }

    /// The payment.
    pub closed spec fn payment(&self) -> PaymentView {
        self.payment@
    }

    /// The payment to make.
    pub fn payment_to_make(&self) -> (r: &Payment)
        ensures
            r@ == self.payment(),
    {
        &self.payment
    }

    /// The booker, who is told.
    pub fn booker_npub(&self) -> (r: &str)
        ensures
            r@ == self.booking().booker_npub,
    {
        self.booking.booker_npub.as_str()
    }

    /// What is written once the payment was tried: nothing if it failed, so that it is
    /// tried again.
    pub fn paid(&self, reply: &Result<String, String>) -> (r: Option<BookingChange>)
        ensures
            match r {
                Some(change) => reply is Ok && change@ == (BookingChangeView::AutoRelease {
                    fee_sats: self.fee(),
                    at: self.at(),
                }),
                None => reply is Err,
            },
    {
        match reply {
            Err(_) => None,
            Ok(_) => Some(BookingChange::AutoRelease { fee_sats: self.fee_sats, at: self.now }),
        }
    }

    /// What the driver and the booker are told, in this order. Only a write that took
    /// hold is told of.
    pub fn notices(&self, rows: u64) -> (r: Option<(BookingNotice, BookingNotice)>)
        ensures
            match r {
                Some(n) => {
                    &&& rows > 0
                    &&& n.0@ == driver_notice(self.booking().id, self.payment().amount_sats)
                    &&& n.1@ == released_notice(self.booking().id, self.payment().amount_sats)
                },
                None => rows == 0,
            },
    {
        if rows == 0 {
            return None;
        }
        let mut to_driver: String = decimal(self.payment.amount_sats);
        to_driver.append(" sats sent to your wallet");
        Some(
            (
                BookingNotice {
                    title: "Payment received!".to_owned(),
                    body: to_driver,
                    booking_id: self.booking.id.clone(),
                    kind: "escrow_released".to_owned(),
                },
                self.notify_booking_released(),
            ),
        )
    }

    fn notify_booking_released(&self) -> (r: BookingNotice)
        ensures
            r@ == released_notice(self.booking().id, self.payment().amount_sats),
    {
        let mut body: String = decimal(self.payment.amount_sats);
        body.append(" sats sent to driver. Thank you for riding with Ulendo!");
        BookingNotice {
            title: "Payment released".to_owned(),
            body,
            booking_id: self.booking.id.clone(),
            kind: "escrow_auto_released".to_owned(),
        }
    }
}

} // verus!

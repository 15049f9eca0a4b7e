//! Calls to the telephone network, paid from talk credits.

use vstd::prelude::*;
use vstd::string::*;

use crate::auth::AuthUser;
use crate::error::AppError;
use crate::error::AppResult;
use crate::error::ErrorView;
use crate::error::refused_as;
use crate::json::json_text_at;
use crate::json::text_at;
use crate::money::div_toward_zero;
use crate::money::lemma_quotient;
use crate::routes::escrow::InvoiceOrder;
use crate::services::blink::InvoiceResult;
use crate::text::byte_len;
use crate::text::dec;
use crate::text::decimal;
use crate::text::len_in_bytes;
use crate::text::or_default;
use crate::text::or_text;
use crate::text::parse_signed;
use crate::text::same;
use crate::text::signed_value;
use crate::text::starts_with;
use crate::text::trim;
use crate::text::trimmed;

verus! {

pub struct BalanceResp {
    pub balance_sats: i64,
    pub sats_per_minute: i64,
    pub minutes_remaining: i64,
}

pub struct TopupBody {
    pub amount_sats: i64,
}

pub struct TopupResp {
    pub invoice: String,
    pub payment_hash: String,
    pub amount_sats: i64,
    pub topup_id: String,
}

pub struct OutboundBody {
    pub phone: String,
    pub call_id: String,
}

pub struct OutboundResp {
    pub ok: bool,
    pub at_session_id: Option<String>,
    pub message: String,
}

#[allow(non_snake_case)]
pub struct AtWebhookQuery {
    pub sessionId: Option<String>,
    pub callSessionState: Option<String>,
    pub duration: Option<String>,
    pub callerNumber: Option<String>,
    pub destinationNumber: Option<String>,
    pub direction: Option<String>,
}

// ── Balance ─────────────────────────────────────────────────────────────────

/// The balance of an account: a new one starts at zero.
pub fn get_or_create_balance(known: Option<i64>) -> (r: i64)
    ensures
        r == (match known {
            Some(b) => b,
            None => 0,
        }),
{
    match known {
        Some(b) => b,
        None => 0,
    }
}

/// Whole minutes that a balance pays for.
pub open spec fn minutes_for(balance: int, sats_per_minute: int) -> int {
    if sats_per_minute > 0 {
        div_toward_zero(balance, sats_per_minute)
    } else {
        0
    }
}

/// The balance, the rate, and the whole minutes that the one pays for at the other.
pub fn get_balance(balance_sats: i64, sats_per_minute: i64) -> (r: BalanceResp)
    ensures
        r.balance_sats == balance_sats,
        r.sats_per_minute == sats_per_minute,
        r.minutes_remaining == minutes_for(balance_sats as int, sats_per_minute as int),
{
    let minutes: i64 = if sats_per_minute > 0 {
        proof {
            if balance_sats >= 0 {
                lemma_quotient(balance_sats as int, sats_per_minute as int);
            } else {
                lemma_quotient(-(balance_sats as int), sats_per_minute as int);
            }
        }
        if balance_sats >= 0 {
            balance_sats / sats_per_minute
        } else {
            (-((-(balance_sats as i128)) / (sats_per_minute as i128))) as i64
        }
    } else {
        0
    };
    BalanceResp { balance_sats, sats_per_minute, minutes_remaining: minutes }
}

// ── Topping up ──────────────────────────────────────────────────────────────

/// Why a top-up is not taken, if it is not.
pub open spec fn topup_refusal(amount_sats: i64) -> Option<ErrorView> {
    if amount_sats < 100 {
        Some(ErrorView::BadRequest("Minimum top-up is 100 sats"@))
    } else if amount_sats > 1_000_000 {
        Some(ErrorView::BadRequest("Maximum top-up is 1,000,000 sats"@))
    } else {
        None
    }
}

/// A top-up that an invoice is made out for.
pub struct Topup {
    pubkey: String,
    order: InvoiceOrder,
}

/// Begins a top-up: its amount is within the limits.
pub fn create_topup(auth: &AuthUser, body: &TopupBody) -> (r: AppResult<Topup>)
    ensures
        refused_as(r, topup_refusal(body.amount_sats)),
        r matches Ok(t) ==> {
            &&& t.pubkey() == auth.public_key@
            &&& t.amount_sats() == body.amount_sats
            &&& t.memo() == "Ulendo talk credits "@ + dec(body.amount_sats as int) + " sats"@
        },
{
    if body.amount_sats < 100 {
        return Err(AppError::bad_request("Minimum top-up is 100 sats"));
    }
    if body.amount_sats > 1_000_000 {
        return Err(AppError::bad_request("Maximum top-up is 1,000,000 sats"));
    }
    let sats: String = decimal(body.amount_sats);
    let mut memo: String = "Ulendo talk credits ".to_owned();
    memo.append(sats.as_str());
    memo.append(" sats");
    Ok(
        Topup {
            pubkey: auth.public_key.clone(),
            order: InvoiceOrder { amount_sats: body.amount_sats, memo },
        },
    )
}

/// A top-up as it is entered.
pub struct TopupRow {
    pub id: String,
    pub pubkey: String,
    pub invoice: String,
    pub payment_hash: String,
    pub amount_sats: i64,
    pub paid: bool,
    pub created_at: i64,
}

impl Topup {
    /// Whose account is topped up.
    pub closed spec fn pubkey(&self) -> Seq<char> {
        self.pubkey@
    }

    /// By how much.
    pub closed spec fn amount_sats(&self) -> i64 {
        self.order.amount_sats
    }

    /// The memo on the invoice.
    pub closed spec fn memo(&self) -> Seq<char> {
        self.order.memo@
    }

    /// The invoice to order.
    pub fn invoice(&self) -> (r: &InvoiceOrder)
        ensures
            r.amount_sats == self.amount_sats(),
            r.memo@ == self.memo(),
    {
        &self.order
    }

    /// The row of the top-up and what is answered, once the wallet has replied to the
    /// invoice order.
    pub fn invoiced(self, reply: Result<InvoiceResult, String>, id: String, now: i64) -> (r:
        AppResult<(TopupRow, TopupResp)>)
        ensures
            refused_as(
                r,
                match reply {
                    Ok(_) => None,
                    Err(e) => Some(ErrorView::Internal("Invoice error: "@ + e@)),
                },
            ),
            r matches Ok(done) ==> {
                let inv = reply->Ok_0;
                &&& done.0.id == id
                &&& done.0.pubkey@ == self.pubkey()
                &&& done.0.invoice == inv.payment_request
                &&& done.0.payment_hash == inv.payment_hash
                &&& done.0.amount_sats == self.amount_sats()
                &&& !done.0.paid
                &&& done.0.created_at == now
                &&& done.1.invoice == inv.payment_request
                &&& done.1.payment_hash == inv.payment_hash
                &&& done.1.amount_sats == self.amount_sats()
                &&& done.1.topup_id == id
            },
    {
        match reply {
            Err(e) => {
                let mut m: String = "Invoice error: ".to_owned();
                m.append(e.as_str());
                Err(AppError::Internal(m))
            },
            Ok(inv) => {
                let row: TopupRow = TopupRow {
                    id: id.clone(),
                    pubkey: self.pubkey,
                    invoice: inv.payment_request.clone(),
                    payment_hash: inv.payment_hash.clone(),
                    amount_sats: self.order.amount_sats,
                    paid: false,
                    created_at: now,
                };
                Ok(
                    (
                        row,
                        TopupResp {
                            invoice: inv.payment_request,
                            payment_hash: inv.payment_hash,
                            amount_sats: self.order.amount_sats,
                            topup_id: id,
                        },
                    ),
                )
            },
        }
    }
}

/// What is done about a top-up that is asked about.
pub enum TopupCheck {
    /// It was credited before: nothing is done again.
    Credited { amount_sats: i64 },
    /// The wallet is asked about its invoice.
    Ask { question: TopupQuestion },
}

/// The wallet is asked about a top-up: it was not credited before.
pub open spec fn asks_wallet(row: TopupRow) -> bool {
    !row.paid
}

/// A top-up whose invoice the wallet is asked about.
pub struct TopupQuestion {
    topup_id: String,
    pubkey: String,
    amount_sats: i64,
    invoice: String,
}

/// Why a top-up is not told of, if it is not.
pub open spec fn topup_status_refusal(caller: Seq<char>, row: Option<TopupRow>) -> Option<
    ErrorView,
> {
    match row {
        None => Some(ErrorView::BadRequest("Topup not found"@)),
        Some(row) => if row.pubkey@ != caller {
            Some(ErrorView::Unauthorized("Not your topup"@))
        } else {
            None
        },
    }
}

/// What is done about a top-up that is asked about.
pub fn topup_status(auth: &AuthUser, row: Option<TopupRow>) -> (r: AppResult<TopupCheck>)
    ensures
        refused_as(r, topup_status_refusal(auth.public_key@, row)),
        r matches Ok(check) ==> match check {
            TopupCheck::Credited { amount_sats } => !asks_wallet(row->0) && amount_sats
                == row->0.amount_sats,
            TopupCheck::Ask { question } => {
                &&& asks_wallet(row->0)
                &&& question.topup_id() == row->0.id@
                &&& question.invoice() == row->0.invoice@
                &&& question.pubkey() == auth.public_key@
                &&& question.amount_sats() == row->0.amount_sats
            },
        },
{
    match row {
        None => Err(AppError::bad_request("Topup not found")),
        Some(row) => {
            if row.pubkey != auth.public_key {
                return Err(AppError::unauthorized("Not your topup"));
            }
            if row.paid {
                Ok(TopupCheck::Credited { amount_sats: row.amount_sats })
            } else {
                Ok(
                    TopupCheck::Ask {
                        question: TopupQuestion {
                            topup_id: row.id,
                            pubkey: row.pubkey,
                            amount_sats: row.amount_sats,
                            invoice: row.invoice,
                        },
                    },
                )
            }
        },
    }
}

/// A credit to an account.
pub struct Credit {
    pub pubkey: String,
    pub sats: i64,
}

impl TopupRow {
    /// The top-up with the mark that it is paid.
    pub open spec fn marked(self) -> TopupRow {
        TopupRow { paid: true, ..self }
    }

    /// On how many rows the mark takes hold: one, or none where it is there already.
    pub open spec fn rows_to_mark(self) -> u64 {
        if self.paid {
            0
        } else {
            1
        }
    }

    /// Marks the top-up as paid, and tells how many rows the mark took hold on.
    pub fn mark_paid(&mut self) -> (rows: u64)
        ensures
            *final(self) == old(self).marked(),
            rows == old(self).rows_to_mark(),
    {
        if self.paid {
            return 0;
        }
        self.paid = true;
        1
    }
}

impl TopupQuestion {
    /// The top-up.
    pub closed spec fn topup_id(&self) -> Seq<char> {
        self.topup_id@
    }

    /// Whose account is topped up.
    pub closed spec fn pubkey(&self) -> Seq<char> {
        self.pubkey@
    }

    /// By how much.
    pub closed spec fn amount_sats(&self) -> i64 {
        self.amount_sats
    }

    /// The invoice.
    pub closed spec fn invoice(&self) -> Seq<char> {
        self.invoice@
    }

    /// The invoice to ask about.
    pub fn invoice_to_check(&self) -> (r: &str)
        ensures
            r@ == self.invoice(),
    {
        self.invoice.as_str()
    }

    /// What follows once the invoice was asked about: if it is paid, the top-up is
    /// marked as paid; nothing follows if it is not or the question failed.
    pub fn checked(self, paid: &Result<bool, String>) -> (r: Option<PaidTopup>)
        ensures
            match r {
                Some(t) => {
                    &&& *paid == Ok::<bool, String>(true)
                    &&& t.topup_id() == self.topup_id()
                    &&& t.pubkey() == self.pubkey()
                    &&& t.amount_sats() == self.amount_sats()
                },
                None => *paid != Ok::<bool, String>(true),
            },
    {
        match paid {
            Ok(true) => Some(
                PaidTopup {
                    topup_id: self.topup_id,
                    credit: Credit { pubkey: self.pubkey, sats: self.amount_sats },
                },
            ),
            _ => None,
        }
    }
}

/// A top-up whose invoice is paid. It is marked as paid before it is credited.
pub struct PaidTopup {
    topup_id: String,
    credit: Credit,
}

impl PaidTopup {
    /// The top-up.
    pub closed spec fn topup_id(&self) -> Seq<char> {
        self.topup_id@
    }

    /// Whose account is topped up.
    pub closed spec fn pubkey(&self) -> Seq<char> {
        self.credit.pubkey@
    }

    /// By how much.
    pub closed spec fn amount_sats(&self) -> i64 {
        self.credit.sats
    }

    /// The top-up to mark as paid.
    pub fn topup_to_mark(&self) -> (r: &str)
        ensures
            r@ == self.topup_id(),
    {
        self.topup_id.as_str()
    }

    /// The amount that was paid in.
    pub fn sats_paid(&self) -> (r: i64)
        ensures
            r == self.amount_sats(),
    {
        self.credit.sats
    }

    /// The credit that the top-up brings, where the mark took hold: its whole amount, to
    /// its own account.
    pub fn marked(self, rows: u64) -> (r: Option<Credit>)
        ensures
            match r {
                Some(c) => rows > 0 && c.pubkey@ == self.pubkey() && c.sats == self.amount_sats(),
                None => rows == 0,
            },
    {
        if rows == 0 {
            return None;
        }
        Some(self.credit)
    }
}

/// A top-up is credited once: its first mark takes hold and brings a credit, no other
/// mark does, and from then on the wallet is not asked about it again.
pub proof fn law_a_topup_is_credited_once(row: TopupRow)
    requires
        asks_wallet(row),
    ensures
        row.rows_to_mark() == 1,
        row.marked().rows_to_mark() == 0,
        row.marked().marked() == row.marked(),
        !asks_wallet(row.marked()),
{
}

/// A balance after a credit, where it has room for it.
pub fn credited(balance: Option<i64>, sats: i64) -> (r: Option<i64>)
    ensures
        ({
            let before = match balance {
                Some(b) => b,
                None => 0,
            };
            match r {
                Some(after) => after == before + sats,
                None => !(i64::MIN <= before + sats <= i64::MAX),
            }
        }),
{
    let before: i64 = get_or_create_balance(balance);
    before.checked_add(sats)
}

// ── Calling out ─────────────────────────────────────────────────────────────

/// A telephone number that can be called: a plus sign leads, and there are 8 bytes
/// or more.
pub open spec fn is_phone(phone: Seq<char>) -> bool {
    "+"@.is_prefix_of(phone) && byte_len(phone) >= 8
}

/// A call that a user wants to make.
pub struct OutboundCall {
    pubkey: String,
    phone: String,
}

/// Begins a call: the number, without surrounding white space, can be called.
pub fn pstn_outbound(auth: &AuthUser, body: &OutboundBody) -> (r: AppResult<OutboundCall>)
    ensures
        refused_as(
            r,
            if !is_phone(trimmed(body.phone@)) {
                Some(
                    ErrorView::BadRequest(
                        "Phone must be in E.164 format e.g. +265991234567"@,
                    ),
                )
            } else {
                None
            },
        ),
        r matches Ok(call) ==> {
            &&& call.pubkey() == auth.public_key@
            &&& call.phone() == trimmed(body.phone@)
        },
{
    let phone: String = trim(body.phone.as_str());
    if !starts_with(phone.as_str(), "+") || len_in_bytes(phone.as_str()) < 8 {
        return Err(AppError::bad_request("Phone must be in E.164 format e.g. +265991234567"));
    }
    Ok(OutboundCall { pubkey: auth.public_key.clone(), phone })
}

/// A call to the telephone network as it is logged.
pub struct PstnLogRow {
    pub id: String,
    pub pubkey: String,
    pub direction: String,
    pub phone: String,
    pub at_session_id: Option<String>,
    pub duration_secs: i64,
    pub sats_spent: i64,
    pub status: String,
    pub created_at: i64,
}

pub struct PstnLogView {
    pub id: Seq<char>,
    pub pubkey: Seq<char>,
    pub direction: Seq<char>,
    pub phone: Seq<char>,
    pub at_session_id: Option<Seq<char>>,
    pub duration_secs: i64,
    pub sats_spent: i64,
    pub status: Seq<char>,
    pub created_at: i64,
}

impl View for PstnLogRow {
    type V = PstnLogView;

    open spec fn view(&self) -> PstnLogView {
        PstnLogView {
            id: self.id@,
            pubkey: self.pubkey@,
            direction: self.direction@,
            phone: self.phone@,
            at_session_id: self.at_session_id.deep_view(),
            duration_secs: self.duration_secs,
            sats_spent: self.sats_spent,
            status: self.status@,
            created_at: self.created_at,
        }
    }
}

/// Why a call is not made, if it is not: the balance must pay for one minute.
pub open spec fn call_refusal(balance: i64, sats_per_minute: i64) -> Option<ErrorView> {
    if balance < sats_per_minute {
        Some(
            ErrorView::BadRequest(
                "Insufficient credits. Need at least "@ + dec(sats_per_minute as int) + " sats ("@
                    + dec(sats_per_minute as int) + " sats/min). Top up first."@,
            ),
        )
    } else {
        None
    }
}

impl OutboundCall {
    /// Who calls.
    pub closed spec fn pubkey(&self) -> Seq<char> {
        self.pubkey@
    }

    /// The number called.
    pub closed spec fn phone(&self) -> Seq<char> {
        self.phone@
    }

    /// The log entry of the call and the minute that is taken off the balance before the
    /// call is ordered. The balance must pay for it.
    pub fn logged(self, balance: i64, sats_per_minute: i64, log_id: String, now: i64) -> (r:
        AppResult<LoggedCall>)
        requires
            balance >= sats_per_minute ==> balance - sats_per_minute <= i64::MAX,
        ensures
            refused_as(r, call_refusal(balance, sats_per_minute)),
            r matches Ok(call) ==> {
                &&& call.log() == PstnLogView {
                    id: log_id@,
                    pubkey: self.pubkey(),
                    direction: "outbound"@,
                    phone: self.phone(),
                    at_session_id: None,
                    duration_secs: 0,
                    sats_spent: 0,
                    status: "initiated"@,
                    created_at: now,
                }
                &&& call.minute() == sats_per_minute
                &&& call.balance() == balance - sats_per_minute
            },
    {
        if balance < sats_per_minute {
            let rate: String = decimal(sats_per_minute);
            let mut m: String = "Insufficient credits. Need at least ".to_owned();
            m.append(rate.as_str());
            m.append(" sats (");
            m.append(rate.as_str());
            m.append(" sats/min). Top up first.");
            return Err(AppError::BadRequest(m));
        }
        let row: PstnLogRow = PstnLogRow {
            id: log_id,
            pubkey: self.pubkey,
            direction: "outbound".to_owned(),
            phone: self.phone,
            at_session_id: None,
            duration_secs: 0,
            sats_spent: 0,
            status: "initiated".to_owned(),
            created_at: now,
        };
        Ok(
            LoggedCall {
                row,
                minute: sats_per_minute,
                balance: balance - sats_per_minute,
                balance_before: balance,
            },
        )
    }
}

/// A call that is logged and whose first minute is taken off the balance. It is now
/// ordered from the voice service.
pub struct LoggedCall {
    row: PstnLogRow,
    minute: i64,
    balance: i64,
    balance_before: i64,
}

/// The end of a call order: the log entry as it stands then, the balance, what of it was
/// given back, and what is answered.
pub struct OutboundEnd {
    pub log: PstnLogRow,
    pub balance_sats: i64,
    pub given_back: i64,
    pub answer: AppResult<OutboundResp>,
}

/// The session that a reply of the voice service tells: it stands with the first of the
/// reply's entries.
pub open spec fn reply_session(body_text: Seq<char>) -> Option<Seq<char>> {
    json_text_at(body_text, "entries"@, 0, "sessionId"@)
}

/// What an order comes to that the voice service took: the minute stays taken, and a call
/// whose session the service tells rings.
pub open spec fn order_taken(
    end: OutboundEnd,
    call: LoggedCall,
    session_id: Option<Seq<char>>,
) -> bool {
    &&& end.log@ == (match session_id {
        Some(session) => PstnLogView {
            at_session_id: Some(session),
            status: "ringing"@,
            ..call.log()
        },
        None => call.log(),
    })
    &&& end.balance_sats == call.balance()
    &&& end.given_back == 0
    &&& end.answer matches Ok(a) && a.ok && a.at_session_id.deep_view() == session_id && a.message@
        == "Call initiated"@
}

/// What an order comes to that was not carried out: the minute is given back.
pub open spec fn order_failed(end: OutboundEnd, call: LoggedCall) -> bool {
    &&& end.log@ == call.log()
    &&& end.balance_sats == call.balance() + call.minute()
    &&& end.given_back == call.minute()
}

impl LoggedCall {
    #[verifier::type_invariant]
    spec fn inv(self) -> bool {
        self.balance + self.minute == self.balance_before
    }

    /// The log entry.
    pub closed spec fn log(&self) -> PstnLogView {
        self.row@
    }

    /// What a minute costs.
    pub closed spec fn minute(&self) -> i64 {
        self.minute
    }

    /// The balance after the minute is taken off.
    pub closed spec fn balance(&self) -> i64 {
        self.balance
    }

    /// The log entry to make.
    pub fn row_to_enter(&self) -> (r: &PstnLogRow)
        ensures
            r@ == self.log(),
    {
        &self.row
    }

    /// What is taken off the balance.
    pub fn sats_to_take(&self) -> (r: i64)
        ensures
            r == self.minute(),
    {
        self.minute
    }

    /// The balance to leave.
    pub fn balance_to_leave(&self) -> (r: i64)
        ensures
            r == self.balance(),
    {
        self.balance
    }

    /// What follows once the voice service has replied to the order.
    pub fn answered(self, success: bool, body_text: &str) -> (r: OutboundEnd)
        ensures
            if success {
                order_taken(r, self, reply_session(body_text@))
            } else {
                &&& order_failed(r, self)
                &&& r.answer matches Ok(a) && !a.ok && a.at_session_id is None && a.message@
                    == "AT API error: "@ + body_text@
            },
    {
        let session_id: Option<String> = text_at(body_text, "entries", 0, "sessionId");
        self.ordered(success, body_text, session_id)
    }

    /// What follows once the voice service has replied to the order, given the session
    /// that its reply tells.
    pub fn ordered(self, success: bool, body_text: &str, session_id: Option<String>) -> (r:
        OutboundEnd)
        ensures
            if success {
                order_taken(r, self, session_id.deep_view())
            } else {
                &&& order_failed(r, self)
                &&& r.answer matches Ok(a) && !a.ok && a.at_session_id is None && a.message@
                    == "AT API error: "@ + body_text@
            },
    {
        proof {
            use_type_invariant(&self);
        }
        if !success {
            return OutboundEnd {
                log: self.row,
                balance_sats: self.balance_before,
                given_back: self.minute,
                answer: Ok(call_ordered(false, body_text, None)),
            };
        }
        let mut log: PstnLogRow = self.row;
        match &session_id {
            Some(session) => {
                log.at_session_id = Some(session.clone());
                log.status = "ringing".to_owned();
            },
            None => {},
        }
        OutboundEnd {
            log,
            balance_sats: self.balance,
            given_back: 0,
            answer: Ok(call_ordered(true, body_text, session_id)),
        }
    }

    /// What follows where the voice service could not be reached.
    pub fn not_reached(self, error: &str) -> (r: OutboundEnd)
        ensures
            order_failed(r, self),
            r.answer matches Err(e) && e@ == ErrorView::Internal("AT API error: "@ + error@),
    {
        proof {
            use_type_invariant(&self);
        }
        let mut m: String = "AT API error: ".to_owned();
        m.append(error);
        OutboundEnd {
            log: self.row,
            balance_sats: self.balance_before,
            given_back: self.minute,
            answer: Err(AppError::Internal(m)),
        }
    }
}

/// Where calls are ordered: with the sandbox or the real service.
pub fn voice_url(sandbox: bool) -> (r: String)
    ensures
        r@ == (if sandbox {
            "https://voice.sandbox.africastalking.com/call"@
        } else {
            "https://voice.africastalking.com/call"@
        }),
{
    if sandbox {
        "https://voice.sandbox.africastalking.com/call".to_owned()
    } else {
        "https://voice.africastalking.com/call".to_owned()
    }
}

/// What is answered once the voice service has replied to a call order.
pub fn call_ordered(success: bool, body_text: &str, session_id: Option<String>) -> (r: OutboundResp)
    ensures
        r.ok == success,
        if success {
            r.at_session_id == session_id && r.message@ == "Call initiated"@
        } else {
            r.at_session_id is None && r.message@ == "AT API error: "@ + body_text@
        },
{
    if !success {
        let mut m: String = "AT API error: ".to_owned();
        m.append(body_text);
        return OutboundResp { ok: false, at_session_id: None, message: m };
    }
    OutboundResp { ok: true, at_session_id: session_id, message: "Call initiated".to_owned() }
}

/// The session of a call that is over, and how long it lasted.
pub struct EndedCall {
    pub session_id: String,
    pub duration_secs: i64,
}

/// The duration in a report: zero where it is not told or no number.
pub open spec fn reported_duration(duration: Option<Seq<char>>) -> int {
    match signed_value(or_text(duration, "0"@)) {
        Some(n) => n,
        None => 0,
    }
}

/// The call that a report of the voice service tells the end of, if it does.
pub fn pstn_webhook(q: &AtWebhookQuery) -> (r: Option<EndedCall>)
    ensures
        match r {
            Some(call) => {
                &&& q.callSessionState.deep_view() == Some("Complete"@)
                &&& q.sessionId.deep_view() == Some(call.session_id@)
                &&& call.session_id@.len() > 0
                &&& call.duration_secs == reported_duration(q.duration.deep_view())
            },
            None => or_text(q.callSessionState.deep_view(), ""@) != "Complete"@ || or_text(
                q.sessionId.deep_view(),
                ""@,
            ).len() == 0,
        },
{
    let session_id: String = or_default(&q.sessionId, "");
    let call_state: String = or_default(&q.callSessionState, "");
    let duration_text: String = or_default(&q.duration, "0");
    let duration_secs: i64 = match parse_signed(duration_text.as_str()) {
        Some(n) => n,
        None => 0,
    };
    proof {
        reveal_strlit("");
        reveal_strlit("Complete");
        assert(""@.len() == 0);
        assert("Complete"@.len() == 8);
    }
    if same(call_state.as_str(), "Complete") && !session_id.as_str().is_empty() {
        Some(EndedCall { session_id, duration_secs })
    } else {
        None
    }
}

/// Minutes begun in a number of seconds.
pub open spec fn minutes_begun(secs: int) -> int {
    -((-secs) / 60)
}

/// What a call costs: the minutes begun at the rate, and one minute at least.
pub open spec fn call_cost(secs: int, sats_per_minute: int) -> int {
    let by_minutes = minutes_begun(secs) * sats_per_minute;
    if by_minutes > sats_per_minute {
        by_minutes
    } else {
        sats_per_minute
    }
}

/// The cost by minutes is a 64-bit number.
pub open spec fn cost_fits(secs: i64, sats_per_minute: i64) -> bool {
    i64::MIN <= minutes_begun(secs as int) * sats_per_minute <= i64::MAX
}

fn minutes_begun_in(secs: i64) -> (r: i64)
    ensures
        r == minutes_begun(secs as int),
{
    if secs <= 0 {
        -((-(secs as i128)) / 60) as i64
    } else {
        (secs - 1) / 60 + 1
    }
}

/// Whether the cost of a call by minutes is a 64-bit number.
pub fn can_cost(secs: i64, sats_per_minute: i64) -> (r: bool)
    ensures
        r == cost_fits(secs, sats_per_minute),
{
    let minutes: i64 = minutes_begun_in(secs);
    match minutes.checked_mul(sats_per_minute) {
        Some(_) => true,
        None => false,
    }
}

/// What a call costs.
pub fn cost_of_call(secs: i64, sats_per_minute: i64) -> (r: i64)
    requires
        cost_fits(secs, sats_per_minute),
    ensures
        r == call_cost(secs as int, sats_per_minute as int),
{
    let minutes: i64 = minutes_begun_in(secs);
    let by_minutes: i64 = minutes * sats_per_minute;
    if by_minutes > sats_per_minute {
        by_minutes
    } else {
        sats_per_minute
    }
}

/// What is still to be taken off the balance for a call: its cost but for the minute
/// that was taken before.
pub open spec fn call_remainder(secs: int, sats_per_minute: int) -> int {
    call_cost(secs, sats_per_minute) - sats_per_minute
}

/// The cost of a call and what is still to be taken off for it are 64-bit numbers.
pub open spec fn remainder_fits(secs: i64, sats_per_minute: i64) -> bool {
    cost_fits(secs, sats_per_minute) && call_remainder(secs as int, sats_per_minute as int)
        <= i64::MAX
}

/// Whether the cost of a call and what is still to be taken off for it are 64-bit numbers.
pub fn can_settle(secs: i64, sats_per_minute: i64) -> (r: bool)
    ensures
        r == remainder_fits(secs, sats_per_minute),
{
    if !can_cost(secs, sats_per_minute) {
        return false;
    }
    let cost: i64 = cost_of_call(secs, sats_per_minute);
    cost as i128 - sats_per_minute as i128 <= i64::MAX as i128
}

/// The end of a call: the log entry as it stands then, and what is still to be taken off
/// the balance.
pub struct CallSettlement {
    pub log: PstnLogRow,
    pub remainder: i64,
}

/// Settles a call that is over.
pub fn settle_call(ended: &EndedCall, row: PstnLogRow, sats_per_minute: i64) -> (r: CallSettlement)
    requires
        remainder_fits(ended.duration_secs, sats_per_minute),
    ensures
        r.log@ == (PstnLogView {
            duration_secs: ended.duration_secs,
            sats_spent: call_cost(ended.duration_secs as int, sats_per_minute as int) as i64,
            status: "completed"@,
            ..row@
        }),
        r.log.sats_spent == call_cost(ended.duration_secs as int, sats_per_minute as int),
        r.remainder == call_remainder(ended.duration_secs as int, sats_per_minute as int),
{
    let cost: i64 = cost_of_call(ended.duration_secs, sats_per_minute);
    let mut log: PstnLogRow = row;
    log.duration_secs = ended.duration_secs;
    log.sats_spent = cost;
    log.status = "completed".to_owned();
    CallSettlement { log, remainder: cost - sats_per_minute }
}

/// A balance after a call: what it costs is taken off, down to zero.
pub open spec fn balance_after(balance: int, sats_cost: int) -> int {
    if balance > sats_cost {
        balance - sats_cost
    } else {
        0
    }
}

/// The balance after a call.
pub fn charged(balance: i64, sats_cost: i64) -> (r: i64)
    requires
        balance - sats_cost <= i64::MAX,
    ensures
        r == balance_after(balance as int, sats_cost as int),
{
    if balance > sats_cost {
        balance - sats_cost
    } else {
        0
    }
}

/// A call costs one minute at least and never more than one minute beyond its length;
/// no call leaves a debt.
pub proof fn law_calls_cost_minutes_begun(secs: int, sats_per_minute: int, balance: int)
    requires
        secs >= 0,
        sats_per_minute >= 0,
    ensures
        call_cost(secs, sats_per_minute) >= sats_per_minute,
        secs <= 60 ==> call_cost(secs, sats_per_minute) == sats_per_minute,
        secs > 60 ==> call_cost(secs, sats_per_minute) == minutes_begun(secs) * sats_per_minute,
        60 * (minutes_begun(secs) - 1) < secs <= 60 * minutes_begun(secs),
        balance_after(balance, call_cost(secs, sats_per_minute)) >= 0,
{
    let m = minutes_begun(secs);
    assert(60 * (m - 1) < secs <= 60 * m);
    if secs <= 60 {
        assert(m <= 1);
        assert(m * sats_per_minute <= sats_per_minute) by (nonlinear_arith)
            requires
                m <= 1,
                sats_per_minute >= 0,
        ;
    } else {
        assert(m >= 2);
        assert(m * sats_per_minute >= sats_per_minute) by (nonlinear_arith)
            requires
                m >= 1,
                sats_per_minute >= 0,
        ;
    }
}

/// The minute that is taken off before a call is part of what the call costs: taken
/// first the minute and then the remainder, the balance ends where the whole cost would
/// have brought it, and a call of one minute or less costs nothing more.
pub proof fn law_the_first_minute_counts(secs: int, sats_per_minute: int, balance: int)
    requires
        secs >= 0,
        sats_per_minute >= 0,
        balance >= sats_per_minute,
    ensures
        call_remainder(secs, sats_per_minute) >= 0,
        secs <= 60 ==> call_remainder(secs, sats_per_minute) == 0,
        balance_after(balance - sats_per_minute, call_remainder(secs, sats_per_minute))
            == balance_after(balance, call_cost(secs, sats_per_minute)),
{
    law_calls_cost_minutes_begun(secs, sats_per_minute, balance);
}

/// What is said to a caller from the telephone network.
pub fn pstn_inbound() -> (r: String)
    ensures
        r@ == "<?xml version=\"1.0\" encoding=\"UTF-8\"?>\n<Response>\n  <Say voice=\"woman\">Welcome to Ulendo. This service is coming soon. Goodbye.</Say>\n</Response>"@,
{
    "<?xml version=\"1.0\" encoding=\"UTF-8\"?>\n<Response>\n  <Say voice=\"woman\">Welcome to Ulendo. This service is coming soon. Goodbye.</Say>\n</Response>".to_owned()
}

} // verus!

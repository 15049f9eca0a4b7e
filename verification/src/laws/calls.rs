//! What talk credits, top-ups and calls to a phone come to.

use vstd::prelude::*;

use crate::auth::AuthUser;
use crate::error::AppResult;
use crate::error::ErrorView;
use crate::laws::texts::all_blank;
use crate::laws::texts::is_graphic;
use crate::laws::texts::lemma_ascii_bytes;
use crate::laws::texts::lemma_bytes_add_up;
use crate::laws::texts::lemma_trim_end_drops;
use crate::laws::texts::lemma_trim_start_skips;
use crate::laws::texts::lemma_trimmed_grows;
use crate::routes::calls::AtWebhookQuery;
use crate::routes::calls::BalanceResp;
use crate::routes::calls::CallSettlement;
use crate::routes::calls::Credit;
use crate::routes::calls::EndedCall;
use crate::routes::calls::LoggedCall;
use crate::routes::calls::OutboundBody;
use crate::routes::calls::OutboundCall;
use crate::routes::calls::OutboundEnd;
use crate::routes::calls::PaidTopup;
use crate::routes::calls::PstnLogRow;
use crate::routes::calls::Topup;
use crate::routes::calls::TopupBody;
use crate::routes::calls::TopupCheck;
use crate::routes::calls::TopupQuestion;
use crate::routes::calls::TopupResp;
use crate::routes::calls::TopupRow;
use crate::routes::calls::can_cost;
use crate::routes::calls::can_settle;
use crate::routes::calls::charged;
use crate::routes::calls::cost_of_call;
use crate::routes::calls::create_topup;
use crate::routes::calls::credited;
use crate::routes::calls::get_balance;
use crate::routes::calls::get_or_create_balance;
use crate::routes::calls::pstn_outbound;
use crate::routes::calls::pstn_webhook;
use crate::routes::calls::settle_call;
use crate::routes::calls::topup_status;
use crate::routes::escrow::InvoiceOrder;
use crate::services::blink::InvoiceResult;
use crate::text::dec;
use crate::text::trim_end;
use crate::text::trim_start;
use crate::text::trimmed;

verus! {

// ── Numbers to call ─────────────────────────────────────────────────────────

pub open spec fn are_digits(s: Seq<char>) -> bool {
    forall|i: int| 0 <= i < s.len() ==> '0' <= #[trigger] s[i] <= '9'
}

/// A plus sign and digits, with or without blanks round them, can be called just where there
/// are 7 digits or more. The number that is called is the one without the blanks.
pub proof fn law_international_numbers_can_be_called(
    auth: AuthUser,
    lead: Seq<char>,
    digits: Seq<char>,
    tail: Seq<char>,
    body: OutboundBody,
    r: AppResult<OutboundCall>,
    balance: i64,
    sats_per_minute: i64,
    log_id: String,
    now: i64,
    logged: AppResult<LoggedCall>,
    row: &PstnLogRow,
)
    requires
        call_ensures(pstn_outbound, (&auth, &body), r),
        body.phone@ == lead + seq!['+'] + digits + tail,
        all_blank(lead),
        all_blank(tail),
        are_digits(digits),
        r is Ok ==> call_ensures(
            OutboundCall::logged,
            (r->Ok_0, balance, sats_per_minute, log_id, now),
            logged,
        ),
        logged is Ok ==> call_ensures(LoggedCall::row_to_enter, (&logged->Ok_0,), row),
    ensures
        r is Ok <==> digits.len() >= 7,
        r is Err ==> r->Err_0@ == ErrorView::BadRequest(
            "Phone must be in E.164 format e.g. +265991234567"@,
        ),
        r is Ok && logged is Ok ==> {
            &&& row.phone@ == seq!['+'] + digits
            &&& row.pubkey@ == auth.public_key@
        },
{
    let core = seq!['+'] + digits;
    let s = body.phone@;
    assert(core[0] == '+');
    assert(is_graphic(core[0]));
    assert(core.last() == '+' || core.last() == digits.last());
    assert(is_graphic(core.last()));
    assert(s =~= lead + (core + tail));
    lemma_trim_start_skips(lead, core + tail);
    assert((core + tail)[0] == core[0]);
    assert(trim_start(core + tail) == core + tail);
    lemma_trim_end_drops(core, tail);
    assert(trim_end(core) == core);
    assert(trimmed(s) == core);
    assert forall|i: int| 0 <= i < core.len() implies #[trigger] core[i] <= '\u{7f}' by {
        if i > 0 {
            assert(core[i] == digits[i - 1]);
        }
    }
    lemma_ascii_bytes(core);
    reveal_strlit("+");
    assert("+"@ =~= core.subrange(0, 1));
}

/// A number that can be called can still be called with digits added at its end.
pub proof fn law_longer_numbers_can_be_called(
    auth: AuthUser,
    body: OutboundBody,
    digits: Seq<char>,
    longer: OutboundBody,
    r: AppResult<OutboundCall>,
    s: AppResult<OutboundCall>,
)
    requires
        call_ensures(pstn_outbound, (&auth, &body), r),
        call_ensures(pstn_outbound, (&auth, &longer), s),
        longer.phone@ == body.phone@ + digits,
        are_digits(digits),
        r is Ok,
    ensures
        s is Ok,
{
    let a = body.phone@;
    if digits.len() == 0 {
        assert(longer.phone@ =~= a);
    } else {
        reveal_strlit("+");
        assert(trimmed(a).len() > 0);
        assert('0' <= digits[digits.len() - 1] <= '9');
        lemma_trimmed_grows(a, digits);
        assert("+"@.is_prefix_of(trimmed(a + digits))) by {
            assert("+"@[0] == trimmed(a)[0]);
            assert(trimmed(a)[0] == trimmed(a + digits)[0]);
            assert("+"@ =~= trimmed(a + digits).subrange(0, 1));
        }
    }
}

/// A text that starts with a printable character other than a plus sign cannot be called,
/// nor can one of fewer than 8 ASCII characters.
pub proof fn law_other_texts_cannot_be_called(
    auth: AuthUser,
    body: OutboundBody,
    r: AppResult<OutboundCall>,
)
    requires
        call_ensures(pstn_outbound, (&auth, &body), r),
        body.phone@.len() > 0,
        is_graphic(body.phone@[0]),
        is_graphic(body.phone@.last()),
    ensures
        body.phone@[0] != '+' ==> r is Err,
        body.phone@.len() < 8 && (forall|i: int|
            0 <= i < body.phone@.len() ==> #[trigger] body.phone@[i] <= '\u{7f}') ==> r is Err,
        body.phone@[0] == '+' && body.phone@.len() >= 8 ==> r is Ok,
{
    let s = body.phone@;
    assert(trim_start(s) == s);
    assert(trim_end(s) == s);
    reveal_strlit("+");
    if "+"@.is_prefix_of(s) {
        assert("+"@[0] == s.subrange(0, 1)[0]);
    }
    if s[0] == '+' {
        assert("+"@ =~= s.subrange(0, 1));
    }
    lemma_bytes_add_up(s, Seq::<char>::empty());
    if forall|i: int| 0 <= i < s.len() ==> #[trigger] s[i] <= '\u{7f}' {
        lemma_ascii_bytes(s);
    }
}

// ── Calling ─────────────────────────────────────────────────────────────────

/// A call is ordered just where the balance pays for a minute, which is taken from it. It is
/// entered as initiated, with nothing spent yet.
pub proof fn law_calls_take_their_first_minute(
    call: OutboundCall,
    balance: i64,
    sats_per_minute: i64,
    log_id: String,
    now: i64,
    logged: AppResult<LoggedCall>,
    row: &PstnLogRow,
    taken: i64,
    left: i64,
)
    requires
        call_ensures(
            OutboundCall::logged,
            (call, balance, sats_per_minute, log_id, now),
            logged,
        ),
        logged is Ok ==> {
            &&& call_ensures(LoggedCall::row_to_enter, (&logged->Ok_0,), row)
            &&& call_ensures(LoggedCall::sats_to_take, (&logged->Ok_0,), taken)
            &&& call_ensures(LoggedCall::balance_to_leave, (&logged->Ok_0,), left)
        },
    ensures
        logged is Ok <==> balance >= sats_per_minute,
        logged is Err ==> logged->Err_0@ == ErrorView::BadRequest(
            "Insufficient credits. Need at least "@ + dec(sats_per_minute as int) + " sats ("@ + dec(
                sats_per_minute as int,
            ) + " sats/min). Top up first."@,
        ),
        logged is Ok ==> {
            &&& taken == sats_per_minute
            &&& left + taken == balance
            &&& row.id@ == log_id@
            &&& row.direction@ == "outbound"@
            &&& row.status@ == "initiated"@
            &&& row.at_session_id is None
            &&& row.duration_secs == 0 && row.sats_spent == 0
            &&& row.created_at == now
        },
{
}

/// Where the call was not ordered after all, because the operator refused it or was not
/// reached, all that was taken is given back. Where it was, nothing is given back, and the
/// call rings under the operator's session where there is one.
pub proof fn law_failed_calls_are_free(
    call: OutboundCall,
    balance: i64,
    sats_per_minute: i64,
    log_id: String,
    now: i64,
    logged: LoggedCall,
    row: &PstnLogRow,
    success: bool,
    text: &str,
    session: Option<String>,
    end: OutboundEnd,
    failed: OutboundEnd,
)
    requires
        call_ensures(
            OutboundCall::logged,
            (call, balance, sats_per_minute, log_id, now),
            Ok(logged),
        ),
        call_ensures(LoggedCall::row_to_enter, (&logged,), row),
        call_ensures(LoggedCall::ordered, (logged, success, text, session), end),
        call_ensures(LoggedCall::not_reached, (logged, text), failed),
    ensures
        !success ==> {
            &&& end.balance_sats == balance
            &&& end.given_back == sats_per_minute
            &&& end.answer is Ok && !end.answer->Ok_0.ok && end.answer->Ok_0.at_session_id is None
            &&& end.answer->Ok_0.message@ == "AT API error: "@ + text@
            &&& end.log@ == row@
        },
        success ==> {
            &&& end.balance_sats + sats_per_minute == balance
            &&& end.given_back == 0
            &&& end.answer is Ok && end.answer->Ok_0.ok
            &&& end.answer->Ok_0.at_session_id.deep_view() == session.deep_view()
            &&& end.log.id@ == row.id@ && end.log.phone@ == row.phone@ && end.log.pubkey@
                == row.pubkey@
            &&& session is Some ==> end.log.status@ == "ringing"@
                && end.log.at_session_id.deep_view() == session.deep_view()
            &&& session is None ==> end.log@ == row@
        },
        failed.balance_sats == balance,
        failed.given_back == sats_per_minute,
        failed.answer is Err && failed.answer->Err_0@ == ErrorView::Internal(
            "AT API error: "@ + text@,
        ),
        failed.log@ == row@,
{
}

/// A call costs the rate for every minute begun, and for one at least: a call of `minutes`
/// minutes begun costs as many times the rate, of which the first was taken before. What is
/// left to take is the rest, and the call is completed with its length and its cost.
pub proof fn law_calls_cost_every_minute_begun(
    ended: EndedCall,
    row: PstnLogRow,
    sats_per_minute: i64,
    minutes: int,
    r: CallSettlement,
    cost: i64,
)
    requires
        call_ensures(settle_call, (&ended, row, sats_per_minute), r),
        call_ensures(cost_of_call, (ended.duration_secs, sats_per_minute), cost),
        sats_per_minute >= 0,
        (minutes == 1 && ended.duration_secs <= 60) || (minutes >= 1 && 60 * (minutes - 1)
            < ended.duration_secs <= 60 * minutes),
    ensures
        cost == minutes * sats_per_minute,
        r.log.sats_spent == minutes * sats_per_minute,
        r.remainder == (minutes - 1) * sats_per_minute,
        r.log.duration_secs == ended.duration_secs,
        r.log.status@ == "completed"@,
        r.log.id@ == row.id@ && r.log.pubkey@ == row.pubkey@ && r.log.phone@ == row.phone@,
        r.log.created_at == row.created_at,
{
    let m = crate::routes::calls::minutes_begun(ended.duration_secs as int);
    let p = sats_per_minute as int;
    assert((minutes - 1) * p == minutes * p - p) by (nonlinear_arith);
    if ended.duration_secs <= 60 {
        assert(minutes == 1);
        assert(m <= 1);
        assert(m * p <= p) by (nonlinear_arith)
            requires
                m <= 1,
                p >= 0,
        ;
        assert(minutes * p == p) by (nonlinear_arith)
            requires
                minutes == 1,
        ;
    } else {
        assert(m == minutes);
        assert(m * p >= p) by (nonlinear_arith)
            requires
                m >= 1,
                p >= 0,
        ;
    }
}

/// What a call takes from a balance is just what it costs, where there is as much, and
/// otherwise all of it: the balance does not fall below zero.
pub proof fn law_charges_leave_the_rest(balance: i64, cost: i64, r: i64)
    requires
        call_ensures(charged, (balance, cost), r),
    ensures
        balance >= cost ==> r == balance - cost,
        balance <= cost ==> r == 0,
{
}

/// The first minute, taken when the call was ordered, and the rest, taken when it ended, come
/// to the cost of the call.
pub proof fn law_calls_are_paid_once(
    call: OutboundCall,
    balance: i64,
    sats_per_minute: i64,
    log_id: String,
    now: i64,
    logged: LoggedCall,
    left: i64,
    ended: EndedCall,
    row: PstnLogRow,
    r: CallSettlement,
    after: i64,
)
    requires
        call_ensures(
            OutboundCall::logged,
            (call, balance, sats_per_minute, log_id, now),
            Ok(logged),
        ),
        call_ensures(LoggedCall::balance_to_leave, (&logged,), left),
        call_ensures(settle_call, (&ended, row, sats_per_minute), r),
        call_ensures(charged, (left, r.remainder), after),
        sats_per_minute >= 0,
    ensures
        balance >= r.log.sats_spent ==> after + r.log.sats_spent == balance,
        balance <= r.log.sats_spent ==> after == 0,
        r.log.sats_spent >= sats_per_minute,
{
}

/// Every call of up to 30 years at a rate of up to a million sats can be settled.
pub proof fn law_calls_can_be_settled(secs: i64, rate: i64, cost: bool, settle: bool)
    requires
        call_ensures(can_cost, (secs, rate), cost),
        call_ensures(can_settle, (secs, rate), settle),
        0 <= secs <= 1_000_000_000,
        0 <= rate <= 1_000_000,
    ensures
        cost,
        settle,
{
    let m = crate::routes::calls::minutes_begun(secs as int);
    assert(0 <= m <= 1_000_000_000);
    assert(0 <= m * rate <= 1_000_000_000 * 1_000_000) by (nonlinear_arith)
        requires
            0 <= m <= 1_000_000_000,
            0 <= rate <= 1_000_000,
    ;
}

/// The operator's report of a call that is complete is taken, with its session and its
/// length in seconds, and no other. A length that is not given counts as none.
pub proof fn law_reports_of_complete_calls_are_taken(
    q: AtWebhookQuery,
    secs: int,
    r: Option<EndedCall>,
)
    requires
        call_ensures(pstn_webhook, (&q,), r),
    ensures
        r is Some <==> q.callSessionState is Some && q.callSessionState->0@ == "Complete"@
            && q.sessionId is Some && q.sessionId->0@.len() > 0,
        r is Some ==> r->0.session_id@ == q.sessionId->0@,
        r is Some && q.duration is None ==> r->0.duration_secs == 0,
        r is Some && q.duration is Some && q.duration->0@ == dec(secs) && i64::MIN <= secs
            <= i64::MAX ==> r->0.duration_secs == secs,
{
    reveal_strlit("");
    reveal_strlit("Complete");
    assert(""@ != "Complete"@) by {
        assert(""@.len() != "Complete"@.len());
    }
    if q.duration is None {
        reveal_strlit("0");
        let z = "0"@;
        assert(z.len() == 1 && z[0] == '0');
        assert(z.drop_last() =~= Seq::<char>::empty());
        assert(crate::text::number(z.drop_last()) == 0);
        assert(crate::text::number(z) == 0);
        assert(crate::text::all_digits(z));
    }
    if i64::MIN <= secs <= i64::MAX {
        let a = if secs < 0 {
            (-secs) as nat
        } else {
            secs as nat
        };
        crate::text::lemma_dec_nat_reads_back(a);
        let w = crate::text::dec_nat(a);
        assert(crate::text::is_digit(w[0]));
        if secs < 0 {
            assert(dec(secs).skip(1) =~= w);
            assert(dec(secs)[0] == '-');
        } else {
            assert(dec(secs) == w);
        }
    }
}

// ── Credits ─────────────────────────────────────────────────────────────────

/// A balance pays for as many whole minutes as fit into it at the rate.
pub proof fn law_balances_pay_for_whole_minutes(balance: i64, rate: i64, r: BalanceResp)
    requires
        call_ensures(get_balance, (balance, rate), r),
    ensures
        r.balance_sats == balance,
        r.sats_per_minute == rate,
        rate > 0 && balance >= 0 ==> r.minutes_remaining * rate <= balance
            < (r.minutes_remaining + 1) * rate,
        rate > 0 && balance < 0 ==> -r.minutes_remaining * rate <= -balance
            < (1 - r.minutes_remaining) * rate,
        rate <= 0 ==> r.minutes_remaining == 0,
{
    if rate > 0 && balance >= 0 {
        crate::money::lemma_quotient(balance as int, rate as int);
    } else if rate > 0 {
        crate::money::lemma_quotient(-(balance as int), rate as int);
    }
}

/// Just the amounts from 100 to 1,000,000 sats can be topped up. The invoice is for that
/// amount, and the wallet's invoice is what is entered and answered; nothing is paid yet.
pub proof fn law_topups_are_invoiced(
    auth: AuthUser,
    body: TopupBody,
    begun: AppResult<Topup>,
    order: &InvoiceOrder,
    reply: Result<InvoiceResult, String>,
    id: String,
    now: i64,
    done: AppResult<(TopupRow, TopupResp)>,
)
    requires
        call_ensures(create_topup, (&auth, &body), begun),
        begun is Ok ==> call_ensures(Topup::invoice, (&begun->Ok_0,), order),
        begun is Ok ==> call_ensures(Topup::invoiced, (begun->Ok_0, reply, id, now), done),
    ensures
        begun is Ok <==> 100 <= body.amount_sats <= 1_000_000,
        body.amount_sats < 100 ==> begun->Err_0@ == ErrorView::BadRequest(
            "Minimum top-up is 100 sats"@,
        ),
        body.amount_sats > 1_000_000 ==> begun->Err_0@ == ErrorView::BadRequest(
            "Maximum top-up is 1,000,000 sats"@,
        ),
        begun is Ok ==> {
            &&& order.amount_sats == body.amount_sats
            &&& order.memo@ == "Ulendo talk credits "@ + dec(body.amount_sats as int) + " sats"@
            &&& done is Ok <==> reply is Ok
            &&& reply is Err ==> done->Err_0@ == ErrorView::Internal(
                "Invoice error: "@ + reply->Err_0@,
            )
        },
        begun is Ok && reply is Ok ==> {
            let row = done->Ok_0.0;
            let answer = done->Ok_0.1;
            let inv = reply->Ok_0;
            &&& row.id == id && answer.topup_id == id
            &&& row.pubkey@ == auth.public_key@
            &&& row.amount_sats == body.amount_sats && answer.amount_sats == body.amount_sats
            &&& row.invoice == inv.payment_request && answer.invoice == inv.payment_request
            &&& row.payment_hash == inv.payment_hash && answer.payment_hash == inv.payment_hash
            &&& !row.paid
            &&& row.created_at == now
        },
{
}

/// A top-up is told of to the one who made it. Its invoice is asked about until it is paid;
/// then its whole amount is credited to that account, once, where the mark took hold.
pub proof fn law_paid_topups_are_credited(
    auth: AuthUser,
    row: Option<TopupRow>,
    check: AppResult<TopupCheck>,
    question: TopupQuestion,
    invoice: &str,
    said: Result<bool, String>,
    paid: Option<PaidTopup>,
    id: &str,
    sats: i64,
    rows: u64,
    credit: Option<Credit>,
)
    requires
        call_ensures(topup_status, (&auth, row), check),
        check == Ok::<TopupCheck, crate::error::AppError>(TopupCheck::Ask { question }) ==> {
            &&& call_ensures(TopupQuestion::invoice_to_check, (&question,), invoice)
            &&& call_ensures(TopupQuestion::checked, (question, &said), paid)
            &&& paid is Some ==> {
                &&& call_ensures(PaidTopup::topup_to_mark, (&paid->0,), id)
                &&& call_ensures(PaidTopup::sats_paid, (&paid->0,), sats)
                &&& call_ensures(PaidTopup::marked, (paid->0, rows), credit)
            }
        },
    ensures
        check is Ok <==> row is Some && row->0.pubkey@ == auth.public_key@,
        row is None ==> check->Err_0@ == ErrorView::BadRequest("Topup not found"@),
        row is Some && check is Err ==> check->Err_0@ == ErrorView::Unauthorized("Not your topup"@),
        check is Ok ==> (check->Ok_0 is Credited <==> row->0.paid),
        check matches Ok(TopupCheck::Credited { amount_sats }) ==> amount_sats
            == row->0.amount_sats,
        check == Ok::<TopupCheck, crate::error::AppError>(TopupCheck::Ask { question }) ==> {
            &&& invoice@ == row->0.invoice@
            &&& paid is Some <==> said == Ok::<bool, String>(true)
            &&& paid is Some ==> {
                &&& id@ == row->0.id@
                &&& sats == row->0.amount_sats
                &&& credit is Some <==> rows > 0
                &&& rows > 0 ==> credit->0.pubkey@ == auth.public_key@ && credit->0.sats
                    == row->0.amount_sats
            }
        },
{
}

/// A top-up is marked as paid on one row, and after that on none: the rest of it stays.
pub proof fn law_topups_are_marked_once(row: TopupRow)
    ensures
        !row.paid ==> row.rows_to_mark() == 1,
        row.marked().rows_to_mark() == 0,
        row.marked().paid,
        row.marked().id == row.id && row.marked().pubkey == row.pubkey,
        row.marked().amount_sats == row.amount_sats && row.marked().invoice == row.invoice,
{
}

/// A credit adds to the balance, which is zero before the first one.
pub proof fn law_credits_add_up(
    balance: Option<i64>,
    sats: i64,
    more: i64,
    known: i64,
    once: Option<i64>,
    twice: Option<i64>,
)
    requires
        call_ensures(get_or_create_balance, (balance,), known),
        call_ensures(credited, (balance, sats), once),
        once is Some ==> call_ensures(credited, (once, more), twice),
    ensures
        balance is Some ==> known == balance->0,
        balance is None ==> known == 0,
        once is Some <==> i64::MIN <= known + sats <= i64::MAX,
        once is Some ==> once->0 == known + sats,
        once is Some && twice is Some ==> twice->0 == known + sats + more,
{
}

} // verus!

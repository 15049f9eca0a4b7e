//! What an escrow in mobile money comes to: what is paid in, what the platform keeps, and what
//! the driver gets.

use vstd::prelude::*;

use crate::auth::AuthUser;
use crate::error::AppResult;
use crate::error::ErrorView;
use crate::routes::fiat::CreateFiatEscrow;
use crate::routes::fiat::DriverTotals;
use crate::routes::fiat::FiatEarning;
use crate::routes::fiat::FiatEscrowCreated;
use crate::routes::fiat::FiatEscrowRow;
use crate::routes::fiat::FiatRelease;
use crate::routes::fiat::FundedFiat;
use crate::routes::fiat::ParsedSms;
use crate::routes::fiat::PendingFiat;
use crate::routes::fiat::PendingPayout;
use crate::routes::fiat::SmsAccepted;
use crate::routes::fiat::SmsCheck;
use crate::routes::fiat::SmsPayment;
use crate::routes::fiat::VerifyResult;
use crate::routes::fiat::VerifySmsInput;
use crate::routes::fiat::can_escrow;
use crate::routes::fiat::create_fiat_escrow;
use crate::routes::fiat::parsed_sms;
use crate::routes::fiat::pending_payouts;
use crate::routes::fiat::release_fiat;
use crate::routes::fiat::ulendo_airtel;
use crate::routes::fiat::ulendo_tnm;
use crate::routes::fiat::verify_sms;
use crate::text::dec;

verus! {

/// An escrow is entered for every fare of 100 or more, and for none below. The commission is
/// 13 percent of the fare, in whole kwacha: 100 times it is at most 13 times the fare, and
/// less than 100 below that. The rider pays both, the driver gets the fare, and what is
/// entered is what is answered.
pub proof fn law_riders_pay_the_fare_and_the_commission(
    auth: AuthUser,
    body: CreateFiatEscrow,
    airtel: String,
    tnm: String,
    id: String,
    now: i64,
    r: AppResult<(FiatEscrowRow, FiatEscrowCreated)>,
)
    requires
        call_ensures(create_fiat_escrow, (&auth, &body, airtel, tnm, id, now), r),
    ensures
        r is Ok <==> body.amount_mwk >= 100,
        r is Err ==> r->Err_0@ == ErrorView::BadRequest("Minimum amount is MWK 100"@),
        r matches Ok(done) ==> {
            let row = done.0;
            let answer = done.1;
            &&& 100 * row.commission_mwk <= 13 * body.amount_mwk
            &&& 13 * body.amount_mwk < 100 * row.commission_mwk + 100
            &&& row.amount_mwk == body.amount_mwk + row.commission_mwk
            &&& row.driver_payout == body.amount_mwk
            &&& row.driver_payout + row.commission_mwk == row.amount_mwk
            &&& answer.amount_mwk == body.amount_mwk
            &&& answer.total_with_fee == row.amount_mwk
            &&& answer.commission_mwk == row.commission_mwk
            &&& answer.driver_payout == row.driver_payout
            &&& row.id == id && answer.escrow_id == id
            &&& row.ride_id@ == body.ride_id@
            &&& row.rider_pubkey@ == auth.public_key@
            &&& row.driver_pubkey@ == body.driver_pubkey@
            &&& body.driver_phone is Some ==> row.driver_phone@ == body.driver_phone->0@
            &&& body.driver_phone is None ==> row.driver_phone@ == ""@
            &&& row.status@ == "pending"@
            &&& row.created_at == now
            &&& answer.airtel_number == airtel && answer.tnm_number == tnm
            &&& row.reference_code@ == answer.reference_code@
        },
{
}

/// A higher fare does not come with a lower commission, and ten times the fare comes with ten
/// times the commission or at most 9 more.
pub proof fn law_commissions_grow_with_the_fare(
    auth: AuthUser,
    body: CreateFiatEscrow,
    more: CreateFiatEscrow,
    airtel: String,
    tnm: String,
    id: String,
    now: i64,
    r: AppResult<(FiatEscrowRow, FiatEscrowCreated)>,
    s: AppResult<(FiatEscrowRow, FiatEscrowCreated)>,
)
    requires
        call_ensures(create_fiat_escrow, (&auth, &body, airtel, tnm, id, now), r),
        call_ensures(create_fiat_escrow, (&auth, &more, airtel, tnm, id, now), s),
        r is Ok,
        s is Ok,
    ensures
        body.amount_mwk <= more.amount_mwk ==> r->Ok_0.0.commission_mwk
            <= s->Ok_0.0.commission_mwk,
        more.amount_mwk == 10 * body.amount_mwk ==> 10 * r->Ok_0.0.commission_mwk
            <= s->Ok_0.0.commission_mwk <= 10 * r->Ok_0.0.commission_mwk + 9,
{
}

/// Every fare up to 700,000,000,000,000,000 can be escrowed.
pub proof fn law_fares_can_be_escrowed(amount: i64, r: bool)
    requires
        call_ensures(can_escrow, (amount,), r),
        amount <= 700_000_000_000_000_000,
    ensures
        r,
{
}

/// The code by which a payment names its escrow is `UL-` and the first six characters of the
/// escrow's id, with small letters in upper case.
pub proof fn law_reference_codes_come_from_the_id(
    auth: AuthUser,
    body: CreateFiatEscrow,
    airtel: String,
    tnm: String,
    id: String,
    now: i64,
    done: (FiatEscrowRow, FiatEscrowCreated),
    i: int,
)
    requires
        call_ensures(create_fiat_escrow, (&auth, &body, airtel, tnm, id, now), Ok(done)),
        id@.len() >= 6,
        0 <= i < 6,
    ensures
        done.0.reference_code@.len() == 9,
        done.0.reference_code@.take(3) == "UL-"@,
        'a' <= id@[i] <= 'z' ==> done.0.reference_code@[i + 3] as int == id@[i] as int - 32,
        !('a' <= id@[i] <= 'z') ==> done.0.reference_code@[i + 3] == id@[i],
{
    reveal_strlit("UL-");
    assert("UL-"@.len() == 3);
    assert(done.0.reference_code@.take(3) =~= "UL-"@);
    assert(id@.take(6)[i] == id@[i]);
}

/// A payment is looked into for an escrow that waits for one, and for no other.
pub proof fn law_pending_escrows_are_looked_into(
    body: VerifySmsInput,
    escrow: Option<PendingFiat>,
    r: Result<SmsCheck, VerifyResult>,
)
    requires
        call_ensures(verify_sms, (&body, escrow), r),
    ensures
        r is Ok <==> escrow is Some && escrow->0.status@ == "pending"@,
        r is Err ==> !r->Err_0.verified,
        escrow is None ==> r->Err_0.message@ == "Escrow not found"@,
        escrow is Some && r is Err ==> r->Err_0.message@ == "Already funded"@,
{
}

/// A payment that was read is accepted just where it covers what the escrow expects and its
/// transaction was not used before. The escrow is then funded since now with the message and
/// the transaction on it, and its driver is told of the amount.
pub proof fn law_payments_that_cover_the_escrow_are_accepted(
    body: VerifySmsInput,
    escrow: PendingFiat,
    check: SmsCheck,
    amount: i64,
    read: Result<SmsPayment, VerifyResult>,
    reference: Option<String>,
    used: bool,
    now: i64,
    done: Result<SmsAccepted, VerifyResult>,
)
    requires
        call_ensures(verify_sms, (&body, Some(escrow)), Ok(check)),
        call_ensures(SmsCheck::amount_read, (check, amount), read),
        read is Ok ==> call_ensures(SmsPayment::reference, (&read->Ok_0,), reference),
        read is Ok ==> call_ensures(SmsPayment::accept, (read->Ok_0, used, now), done),
    ensures
        read is Ok <==> amount != 0 && amount >= escrow.amount_mwk,
        read is Err ==> !read->Err_0.verified,
        amount == 0 ==> read->Err_0.message@
            == "Could not read amount from SMS. Paste the full confirmation message."@,
        amount != 0 && amount < escrow.amount_mwk ==> read->Err_0.message@
            == "Amount too low. Expected MWK "@ + dec(escrow.amount_mwk as int) + ", found MWK "@
            + dec(amount as int),
        read is Ok ==> {
            &&& done is Ok <==> !(used && reference is Some)
            &&& reference is Some ==> reference->0@.len() > 0
            &&& done is Err ==> !done->Err_0.verified && done->Err_0.message@
                == "This transaction was already used."@
        },
        read is Ok && done is Ok ==> {
            let a = done->Ok_0;
            &&& a.answer.verified
            &&& a.answer.message@ == "Payment verified! Driver notified."@
            &&& a.funding.escrow_id@ == escrow.id@
            &&& a.funding.status@ == "funded"@
            &&& a.funding.sms_raw@ == body.sms_text@
            &&& a.funding.funded_at == now
            &&& reference is Some ==> a.funding.txn_ref@ == reference->0@
            &&& reference is None ==> a.funding.txn_ref@.len() == 0
            &&& a.message.to@ == escrow.driver_pubkey@
            &&& a.message.escrow_id@ == escrow.id@
            &&& a.message.amount_mwk == escrow.amount_mwk
        },
{
}

/// A higher payment is accepted wherever a lower one is.
pub proof fn law_more_is_accepted_too(
    check: SmsCheck,
    amount: i64,
    more: i64,
    r: Result<SmsPayment, VerifyResult>,
    s: Result<SmsPayment, VerifyResult>,
)
    requires
        call_ensures(SmsCheck::amount_read, (check, amount), r),
        call_ensures(SmsCheck::amount_read, (check, more), s),
        0 < amount <= more,
        r is Ok,
    ensures
        s is Ok,
{
}

/// The amount in a message is what was found, without the commas between its digits; a
/// reference that was not found is empty.
pub proof fn law_amounts_are_read_without_commas(
    amount: Option<String>,
    reference: Option<String>,
    r: ParsedSms,
)
    requires
        call_ensures(parsed_sms, (&amount, &reference), r),
    ensures
        r.amount_text is Some <==> amount is Some,
        amount is Some ==> !r.amount_text->0@.contains(','),
        amount is Some && !amount->0@.contains(',') ==> r.amount_text->0@ == amount->0@,
        reference is Some ==> r.txn_ref@ == reference->0@,
        reference is None ==> r.txn_ref@.len() == 0,
{
    if amount is Some {
        crate::laws::texts::lemma_without_is_without(amount->0@, ',');
    }
    reveal_strlit("");
}

/// The rider or the driver has an escrow released that is funded or in its ride, and nobody
/// else does. The driver is to be paid just what the driver was promised, on the driver's
/// phone, and that is counted, told and answered; the escrow is released since now.
pub proof fn law_drivers_are_paid_their_fare(
    auth: AuthUser,
    escrow: Option<FundedFiat>,
    payout_id: String,
    now: i64,
    r: AppResult<FiatRelease>,
)
    requires
        call_ensures(release_fiat, (&auth, &escrow, payout_id, now), r),
    ensures
        r is Ok <==> escrow is Some && (escrow->0.rider_pubkey@ == auth.public_key@
            || escrow->0.driver_pubkey@ == auth.public_key@) && (escrow->0.status@ == "funded"@
            || escrow->0.status@ == "in_ride"@),
        r is Err ==> r->Err_0@ == ErrorView::NotFound("Escrow not found or already released"@),
        r matches Ok(done) ==> {
            let e = escrow->0;
            &&& done.payout.amount_mwk == e.driver_payout
            &&& done.payout.driver_pubkey@ == e.driver_pubkey@
            &&& done.payout.driver_phone@ == e.driver_phone@
            &&& done.payout.id == payout_id
            &&& done.payout.escrow_id@ == e.id@
            &&& done.payout.status@ == "pending"@
            &&& done.payout.ride_id@ == e.id@
            &&& done.payout.created_at == now && done.earning.at == now
            &&& done.earning.driver_pubkey@ == e.driver_pubkey@
            &&& done.earning.mwk == done.payout.amount_mwk
            &&& done.message.to@ == e.driver_pubkey@
            &&& done.message.amount_mwk == done.payout.amount_mwk
            &&& done.answer.driver_payout == done.payout.amount_mwk
            &&& done.answer.commission == e.commission_mwk
            &&& done.answer.status@ == "released"@
            &&& done.change.escrow_id@ == e.id@
            &&& done.change.status@ == "released"@
            &&& done.change.released_at == now && done.change.completed_at == now
        },
{
}

/// An escrow that was released is not released again, whoever asks.
pub proof fn law_escrows_are_paid_out_once(
    auth: AuthUser,
    escrow: Option<FundedFiat>,
    payout_id: String,
    now: i64,
    done: FiatRelease,
    other: AuthUser,
    released: FundedFiat,
    again_id: String,
    later: i64,
    again: AppResult<FiatRelease>,
)
    requires
        call_ensures(release_fiat, (&auth, &escrow, payout_id, now), Ok(done)),
        released.status@ == done.change.status@,
        call_ensures(release_fiat, (&other, &Some(released), again_id, later), again),
    ensures
        again is Err,
{
    crate::routes::fiat::law_fiat_is_released_once(other.public_key@, released);
}

/// A paid fare counts as one more ride and adds to what the driver has earned.
pub proof fn law_fares_are_counted(
    earning: FiatEarning,
    known: Option<DriverTotals>,
    r: Option<DriverTotals>,
)
    requires
        call_ensures(FiatEarning::totals, (&earning, &known), r),
    ensures
        known is None ==> r is Some && r->0.total_rides == 1 && r->0.total_earned_mwk
            == earning.mwk,
        known is Some && r is Some ==> {
            &&& r->0.total_rides - known->0.total_rides == 1
            &&& r->0.total_earned_mwk - known->0.total_earned_mwk == earning.mwk
        },
        known is Some && 0 <= known->0.total_rides < i64::MAX && i64::MIN
            <= known->0.total_earned_mwk + earning.mwk <= i64::MAX ==> r is Some,
{
}

/// A payout is listed as long as it is pending. The numbers to pay to are those configured.
pub proof fn law_payouts_wait_until_paid(
    payout: PendingPayout,
    r: bool,
    airtel: Option<String>,
    tnm: Option<String>,
    a: String,
    t: String,
)
    requires
        call_ensures(pending_payouts, (&payout,), r),
        call_ensures(ulendo_airtel, (&airtel,), a),
        call_ensures(ulendo_tnm, (&tnm,), t),
    ensures
        r <==> payout.status@ == "pending"@,
        airtel is Some ==> a@ == airtel->0@,
        airtel is None ==> a@ == "+265991234567"@,
        tnm is Some ==> t@ == tnm->0@,
        tnm is None ==> t@ == "+265881234567"@,
{
}

} // verus!

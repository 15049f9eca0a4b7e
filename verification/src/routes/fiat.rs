//! Escrow in kwacha, paid in by mobile money and proved by the confirmation message.

use vstd::prelude::*;
use vstd::string::*;

use crate::auth::AuthUser;
use crate::error::AppError;
use crate::error::AppResult;
use crate::error::ErrorView;
use crate::error::refused_as;
use crate::ids::is_id;
use crate::text::ascii_uppercase;
use crate::text::chars_of;
use crate::text::copy_option;
use crate::text::dec;
use crate::text::decimal;
use crate::text::or_default;
use crate::text::or_text;
use crate::text::remove_char;
use crate::text::same;
use crate::text::text_of;
use crate::text::to_ascii_uppercase;
use crate::text::without;

verus! {

/// The platform's commission, in percent.
pub const FIAT_COMMISSION_PCT: i64 = 13;

pub struct CreateFiatEscrow {
    pub ride_id: String,
    pub driver_pubkey: String,
    pub driver_phone: Option<String>,
    pub amount_mwk: i64,
}

pub struct FiatEscrowCreated {
    pub escrow_id: String,
    pub reference_code: String,
    pub amount_mwk: i64,
    pub total_with_fee: i64,
    pub commission_mwk: i64,
    pub driver_payout: i64,
    pub airtel_number: String,
    pub tnm_number: String,
}

pub struct VerifySmsInput {
    pub escrow_id: String,
    pub sms_text: String,
}

pub struct VerifyResult {
    pub verified: bool,
    pub message: String,
}

pub struct ReleaseFiatInput {
    pub escrow_id: String,
}

pub struct ReleaseResult {
    pub status: String,
    pub driver_payout: i64,
    pub commission: i64,
}

pub struct PendingPayout {
    pub id: String,
    pub driver_pubkey: String,
    pub driver_phone: String,
    pub amount_mwk: i64,
    pub status: String,
    pub created_at: i64,
}

/// The platform's number at Airtel.
pub fn ulendo_airtel(configured: &Option<String>) -> (r: String)
    ensures
        r@ == or_text(configured.deep_view(), "+265991234567"@),
{
    or_default(configured, "+265991234567")
}

/// The platform's number at TNM.
pub fn ulendo_tnm(configured: &Option<String>) -> (r: String)
    ensures
        r@ == or_text(configured.deep_view(), "+265881234567"@),
{
    or_default(configured, "+265881234567")
}

// ── Entering an escrow ──────────────────────────────────────────────────────

/// An escrow as it is entered.
pub struct FiatEscrowRow {
    pub id: String,
    pub ride_id: String,
    pub rider_pubkey: String,
    pub driver_pubkey: String,
    pub amount_mwk: i64,
    pub commission_mwk: i64,
    pub driver_payout: i64,
    pub driver_phone: String,
    pub reference_code: String,
    pub status: String,
    pub created_at: i64,
}

/// The commission on an amount that is not negative, rounded down.
pub open spec fn commission_on(amount: int) -> int {
    amount * 13 / 100
}

/// Commission and total are 64-bit numbers.
pub open spec fn escrow_fits(amount_mwk: i64) -> bool {
    amount_mwk * 13 <= i64::MAX
}

/// Whether commission and total are 64-bit numbers.
pub fn can_escrow(amount_mwk: i64) -> (r: bool)
    ensures
        r == escrow_fits(amount_mwk),
{
    match amount_mwk.checked_mul(13) {
        Some(_) => true,
        None => amount_mwk < 0,
    }
}

/// The code by which a payment is known: the start of the escrow's id.
pub open spec fn reference_code(id: Seq<char>) -> Seq<char> {
    "UL-"@ + ascii_uppercase(id.take(6))
}

/// Enters an escrow: the rider pays the fare and the commission on top, the driver
/// gets the fare.
pub fn create_fiat_escrow(
    auth: &AuthUser,
    body: &CreateFiatEscrow,
    airtel_number: String,
    tnm_number: String,
    id: String,
    now: i64,
) -> (r: AppResult<(FiatEscrowRow, FiatEscrowCreated)>)
    requires
        is_id(id@),
        body.amount_mwk >= 100 ==> escrow_fits(body.amount_mwk),
    ensures
        refused_as(
            r,
            if body.amount_mwk < 100 {
                Some(ErrorView::BadRequest("Minimum amount is MWK 100"@))
            } else {
                None
            },
        ),
        r matches Ok(done) ==> {
            &&& done.0.id == id
            &&& done.0.ride_id == body.ride_id
            &&& done.0.rider_pubkey == auth.public_key
            &&& done.0.driver_pubkey == body.driver_pubkey
            &&& done.0.commission_mwk == commission_on(body.amount_mwk as int)
            &&& done.0.amount_mwk == body.amount_mwk + done.0.commission_mwk
            &&& done.0.driver_payout == body.amount_mwk
            &&& done.0.driver_phone@ == or_text(body.driver_phone.deep_view(), ""@)
            &&& done.0.reference_code@ == reference_code(id@)
            &&& done.0.status@ == "pending"@
            &&& done.0.created_at == now
            &&& done.1.escrow_id == id
            &&& done.1.reference_code@ == reference_code(id@)
            &&& done.1.amount_mwk == body.amount_mwk
            &&& done.1.total_with_fee == done.0.amount_mwk
            &&& done.1.commission_mwk == done.0.commission_mwk
            &&& done.1.driver_payout == body.amount_mwk
            &&& done.1.airtel_number == airtel_number
            &&& done.1.tnm_number == tnm_number
            &&& done.1.driver_payout + done.1.commission_mwk == done.1.total_with_fee
        },
{
    if body.amount_mwk < 100 {
        return Err(AppError::bad_request("Minimum amount is MWK 100"));
    }
    let commission: i64 = body.amount_mwk * FIAT_COMMISSION_PCT / 100;
    let total: i64 = body.amount_mwk + commission;
    let v: Vec<char> = chars_of(id.as_str());
    let start: String = text_of(&v, 0, 6);
    let upper: String = to_ascii_uppercase(start.as_str());
    let mut code: String = "UL-".to_owned();
    code.append(upper.as_str());
    assert(id@.take(6) =~= start@);
    let row: FiatEscrowRow = FiatEscrowRow {
        id: id.clone(),
        ride_id: body.ride_id.clone(),
        rider_pubkey: auth.public_key.clone(),
        driver_pubkey: body.driver_pubkey.clone(),
        amount_mwk: total,
        commission_mwk: commission,
        driver_payout: body.amount_mwk,
        driver_phone: or_default(&body.driver_phone, ""),
        reference_code: code.clone(),
        status: "pending".to_owned(),
        created_at: now,
    };
    Ok(
        (
            row,
            FiatEscrowCreated {
                escrow_id: id,
                reference_code: code,
                amount_mwk: body.amount_mwk,
                total_with_fee: total,
                commission_mwk: commission,
                driver_payout: body.amount_mwk,
                airtel_number,
                tnm_number,
            },
        ),
    )
}

// ── Reading a confirmation message ──────────────────────────────────────────

/// The text of the first group of a pattern's first match in a text.
pub uninterp spec fn first_group(pattern: Seq<char>, text: Seq<char>) -> Option<Seq<char>>;

/// `regex_lite::Regex::new`, then `captures`, of which the first group is kept: the text
/// of that group, or nothing where the pattern is none, does not match or has no such
/// group. Both depend on the pattern and the text alone.
#[verifier::external_body]
fn find_group(pattern: &str, text: &str) -> (r: Option<String>)
    ensures
        r.deep_view() == first_group(pattern@, text@),
{
    let regex = regex_lite::Regex::new(pattern).ok()?;
    regex.captures(text)?.get(1).map(|m| m.as_str().to_string())
}

/// How an amount is written in a confirmation message.
pub open spec fn amount_pattern() -> Seq<char> {
    "(?i)(?:MWK|MK|K)\\s*([0-9,]+(?:\\.[0-9]{2})?)"@
}

/// How a transaction's reference is written in a confirmation message.
pub open spec fn reference_pattern() -> Seq<char> {
    "(?i)(?:Ref|Transaction\\s*ID|TXN|ID)[:\\s]*([A-Z0-9]{6,20})"@
}

/// What a confirmation message says: the amount as digits, perhaps with a fraction,
/// and the transaction's reference.
pub struct ParsedSms {
    pub amount_text: Option<String>,
    pub txn_ref: String,
}

/// What the two groups found in a message come to: the amount loses its commas, and a
/// missing reference is empty.
pub fn parsed_sms(amount: &Option<String>, reference: &Option<String>) -> (r: ParsedSms)
    ensures
        match *amount {
            Some(text) => r.amount_text.deep_view() == Some(without(text@, ',')),
            None => r.amount_text is None,
        },
        r.txn_ref@ == or_text(reference.deep_view(), ""@),
{
    ParsedSms {
        amount_text: match amount {
            Some(text) => Some(remove_char(text.as_str(), ',')),
            None => None,
        },
        txn_ref: or_default(reference, ""),
    }
}

/// What a confirmation message says.
pub fn parse_sms(sms: &str) -> (r: ParsedSms)
    ensures
        r.amount_text.deep_view() == (match first_group(amount_pattern(), sms@) {
            Some(text) => Some(without(text, ',')),
            None => None,
        }),
        r.txn_ref@ == or_text(first_group(reference_pattern(), sms@), ""@),
{
    let amount: Option<String> = find_group("(?i)(?:MWK|MK|K)\\s*([0-9,]+(?:\\.[0-9]{2})?)", sms);
    let reference: Option<String> = find_group(
        "(?i)(?:Ref|Transaction\\s*ID|TXN|ID)[:\\s]*([A-Z0-9]{6,20})",
        sms,
    );
    parsed_sms(&amount, &reference)
}

// ── Checking a payment ──────────────────────────────────────────────────────

/// What a check reads of an escrow.
pub struct PendingFiat {
    pub id: String,
    pub driver_pubkey: String,
    pub amount_mwk: i64,
    pub status: String,
}

/// Why a payment is not accepted, as far as the escrow tells: the message to answer.
pub open spec fn escrow_objection(escrow: Option<PendingFiat>) -> Option<Seq<char>> {
    match escrow {
        None => Some("Escrow not found"@),
        Some(e) => if e.status@ != "pending"@ {
            Some("Already funded"@)
        } else {
            None
        },
    }
}

/// The result is a refusal with the given reason where there is one, and a success
/// otherwise.
pub open spec fn objects<T>(r: Result<T, VerifyResult>, reason: Option<Seq<char>>) -> bool {
    match reason {
        Some(m) => r matches Err(v) && !v.verified && v.message@ == m,
        None => r is Ok,
    }
}

fn objection(m: &str) -> (r: VerifyResult)
    ensures
        !r.verified,
        r.message@ == m@,
{
    VerifyResult { verified: false, message: m.to_owned() }
}

/// A message that is to prove the payment for an escrow.
pub struct SmsCheck {
    escrow: PendingFiat,
    sms_text: String,
    parsed: ParsedSms,
}

/// Begins to check a message: the escrow that it is for waits for its payment.
pub fn verify_sms(body: &VerifySmsInput, escrow: Option<PendingFiat>) -> (r: Result<
    SmsCheck,
    VerifyResult,
>)
    ensures
        objects(r, escrow_objection(escrow)),
        r matches Ok(check) ==> {
            &&& Some(check.escrow()) == escrow
            &&& check.sms_text() == body.sms_text@
            &&& check.parsed().amount_text.deep_view() == (match first_group(
                amount_pattern(),
                body.sms_text@,
            ) {
                Some(text) => Some(without(text, ',')),
                None => None,
            })
            &&& check.parsed().txn_ref@ == or_text(
                first_group(reference_pattern(), body.sms_text@),
                ""@,
            )
        },
{
    match escrow {
        None => Err(objection("Escrow not found")),
        Some(e) => {
            if !same(e.status.as_str(), "pending") {
                return Err(objection("Already funded"));
            }
            Ok(
                SmsCheck {
                    escrow: e,
                    sms_text: body.sms_text.clone(),
                    parsed: parse_sms(body.sms_text.as_str()),
                },
            )
        },
    }
}

/// Why a payment is not accepted, as far as its amount tells. An amount of zero is
/// one that could not be read.
pub open spec fn amount_objection(expected: i64, amount: i64) -> Option<Seq<char>> {
    if amount == 0 {
        Some("Could not read amount from SMS. Paste the full confirmation message."@)
    } else if amount < expected {
        Some(
            "Amount too low. Expected MWK "@ + dec(expected as int) + ", found MWK "@ + dec(
                amount as int,
            ),
        )
    } else {
        None
    }
}

impl SmsCheck {
    /// The escrow.
    pub closed spec fn escrow(&self) -> PendingFiat {
        self.escrow
    }

    /// The message.
    pub closed spec fn sms_text(&self) -> Seq<char> {
        self.sms_text@
    }

    /// What the message says.
    pub closed spec fn parsed(&self) -> ParsedSms {
        self.parsed
    }

    /// The amount in the message, as text.
    pub fn amount_text(&self) -> (r: Option<String>)
        ensures
            r == self.parsed().amount_text,
    {
        copy_option(&self.parsed.amount_text)
    }

    /// Checks the amount in whole kwacha. The caller reads it from the text, since it
    /// may have a fraction.
    pub fn amount_read(self, amount: i64) -> (r: Result<SmsPayment, VerifyResult>)
        ensures
            objects(r, amount_objection(self.escrow().amount_mwk, amount)),
            r matches Ok(p) ==> {
                &&& p.escrow() == self.escrow()
                &&& p.sms_text() == self.sms_text()
                &&& p.txn_ref() == self.parsed().txn_ref@
            },
    {
        if amount == 0 {
            return Err(
                objection("Could not read amount from SMS. Paste the full confirmation message."),
            );
        }
        if amount < self.escrow.amount_mwk {
            let expected_text: String = decimal(self.escrow.amount_mwk);
            let found: String = decimal(amount);
            let mut m: String = "Amount too low. Expected MWK ".to_owned();
            m.append(expected_text.as_str());
            m.append(", found MWK ");
            m.append(found.as_str());
            return Err(VerifyResult { verified: false, message: m });
        }
        Ok(
            SmsPayment {
                escrow: self.escrow,
                sms_text: self.sms_text,
                txn_ref: self.parsed.txn_ref,
            },
        )
    }
}

/// A payment of the right amount for an escrow.
pub struct SmsPayment {
    escrow: PendingFiat,
    sms_text: String,
    txn_ref: String,
}

/// What an escrow becomes once its payment is accepted.
pub struct FiatFunding {
    pub escrow_id: String,
    pub status: String,
    pub sms_raw: String,
    pub txn_ref: String,
    pub funded_at: i64,
}

/// What the driver is told of a payment.
pub struct FiatFundedMessage {
    pub to: String,
    pub escrow_id: String,
    pub amount_mwk: i64,
}

/// A payment accepted: what is written, what the driver is told and what is answered.
pub struct SmsAccepted {
    pub funding: FiatFunding,
    pub message: FiatFundedMessage,
    pub answer: VerifyResult,
}

impl SmsPayment {
    /// The escrow.
    pub closed spec fn escrow(&self) -> PendingFiat {
        self.escrow
    }

    /// The message.
    pub closed spec fn sms_text(&self) -> Seq<char> {
        self.sms_text@
    }

    /// The transaction's reference, empty where the message has none.
    pub closed spec fn txn_ref(&self) -> Seq<char> {
        self.txn_ref@
    }

    /// The reference that is looked up and kept, so that it is not used twice.
    pub fn reference(&self) -> (r: Option<String>)
        ensures
            match r {
                Some(text) => text@ == self.txn_ref() && text@.len() > 0,
                None => self.txn_ref().len() == 0,
            },
    {
        if self.txn_ref.as_str().is_empty() {
            None
        } else {
            Some(self.txn_ref.clone())
        }
    }

    /// Accepts the payment, unless its reference was used before.
    pub fn accept(self, reference_used: bool, now: i64) -> (r: Result<SmsAccepted, VerifyResult>)
        ensures
            objects(
                r,
                if self.txn_ref().len() > 0 && reference_used {
                    Some("This transaction was already used."@)
                } else {
                    None
                },
            ),
            r matches Ok(a) ==> {
                &&& a.funding.escrow_id == self.escrow().id
                &&& a.funding.status@ == "funded"@
                &&& a.funding.sms_raw@ == self.sms_text()
                &&& a.funding.txn_ref@ == self.txn_ref()
                &&& a.funding.funded_at == now
                &&& a.message.to == self.escrow().driver_pubkey
                &&& a.message.escrow_id == self.escrow().id
                &&& a.message.amount_mwk == self.escrow().amount_mwk
                &&& a.answer.verified
                &&& a.answer.message@ == "Payment verified! Driver notified."@
            },
    {
        if !self.txn_ref.as_str().is_empty() && reference_used {
            return Err(objection("This transaction was already used."));
        }
        Ok(
            SmsAccepted {
                message: FiatFundedMessage {
                    to: self.escrow.driver_pubkey,
                    escrow_id: self.escrow.id.clone(),
                    amount_mwk: self.escrow.amount_mwk,
                },
                funding: FiatFunding {
                    escrow_id: self.escrow.id,
                    status: "funded".to_owned(),
                    sms_raw: self.sms_text,
                    txn_ref: self.txn_ref,
                    funded_at: now,
                },
                answer: VerifyResult {
                    verified: true,
                    message: "Payment verified! Driver notified.".to_owned(),
                },
            },
        )
    }
}

// ── Release ─────────────────────────────────────────────────────────────────

/// What a release reads of an escrow.
pub struct FundedFiat {
    pub id: String,
    pub rider_pubkey: String,
    pub driver_pubkey: String,
    pub driver_payout: i64,
    pub commission_mwk: i64,
    pub driver_phone: String,
    pub status: String,
}

/// An escrow that the user can release: a party of it, and the money is in.
pub open spec fn releasable(caller: Seq<char>, escrow: Option<FundedFiat>) -> bool {
    escrow matches Some(e) && (e.rider_pubkey@ == caller || e.driver_pubkey@ == caller) && (
    e.status@ == "funded"@ || e.status@ == "in_ride"@)
}

/// What is paid out to a driver.
pub struct DriverPayout {
    pub id: String,
    pub driver_pubkey: String,
    pub driver_phone: String,
    pub amount_mwk: i64,
    pub ride_id: String,
    pub escrow_id: String,
    pub status: String,
    pub created_at: i64,
}

/// What becomes of an escrow that is released.
pub struct FiatReleaseChange {
    pub escrow_id: String,
    pub status: String,
    pub completed_at: i64,
    pub released_at: i64,
}

/// What a driver has earned in all.
pub struct DriverTotals {
    pub total_rides: i64,
    pub total_earned_mwk: i64,
}

/// What a driver has earned with a ride.
pub struct FiatEarning {
    pub driver_pubkey: String,
    pub mwk: i64,
    pub at: i64,
}

/// What a driver had earned before, which is nothing where nothing is known.
pub open spec fn earned_before(known: Option<DriverTotals>) -> DriverTotals {
    match known {
        Some(totals) => totals,
        None => DriverTotals { total_rides: 0, total_earned_mwk: 0 },
    }
}

impl FiatEarning {
    /// What the driver has earned in all with this ride, where the totals have room for
    /// it: one ride more, and what it brought.
    pub fn totals(&self, known: &Option<DriverTotals>) -> (r: Option<DriverTotals>)
        ensures
            ({
                let before = earned_before(*known);
                match r {
                    Some(after) => {
                        &&& after.total_rides == before.total_rides + 1
                        &&& after.total_earned_mwk == before.total_earned_mwk + self.mwk
                    },
                    None => before.total_rides == i64::MAX || !(i64::MIN <= before.total_earned_mwk
                        + self.mwk <= i64::MAX),
                }
            }),
    {
        let (rides, mwk): (i64, i64) = match known {
            Some(totals) => (totals.total_rides, totals.total_earned_mwk),
            None => (0, 0),
        };
        match (rides.checked_add(1), mwk.checked_add(self.mwk)) {
            (Some(total_rides), Some(total_earned_mwk)) => Some(
                DriverTotals { total_rides, total_earned_mwk },
            ),
            _ => None,
        }
    }
}

/// What a driver is told of a release.
pub struct FiatReleasedMessage {
    pub to: String,
    pub amount_mwk: i64,
}

/// A release: what becomes of the escrow, what is paid out, what the driver has earned
/// and is told, and what is answered.
pub struct FiatRelease {
    pub change: FiatReleaseChange,
    pub payout: DriverPayout,
    pub earning: FiatEarning,
    pub message: FiatReleasedMessage,
    pub answer: ReleaseResult,
}

/// Releases an escrow to its driver.
pub fn release_fiat(auth: &AuthUser, escrow: &Option<FundedFiat>, payout_id: String, now: i64) -> (r:
    AppResult<FiatRelease>)
    ensures
        refused_as(
            r,
            if !releasable(auth.public_key@, *escrow) {
                Some(ErrorView::NotFound("Escrow not found or already released"@))
            } else {
                None
            },
        ),
        r matches Ok(done) ==> {
            let e = escrow->0;
            &&& done.change.escrow_id == e.id
            &&& done.change.status@ == "released"@
            &&& done.change.completed_at == now
            &&& done.change.released_at == now
            &&& done.payout.id == payout_id
            &&& done.payout.driver_pubkey == e.driver_pubkey
            &&& done.payout.driver_phone == e.driver_phone
            &&& done.payout.amount_mwk == e.driver_payout
            &&& done.payout.ride_id == e.id
            &&& done.payout.escrow_id == e.id
            &&& done.payout.status@ == "pending"@
            &&& done.payout.created_at == now
            &&& done.earning.driver_pubkey == e.driver_pubkey
            &&& done.earning.mwk == e.driver_payout
            &&& done.earning.at == now
            &&& done.message.to == e.driver_pubkey
            &&& done.message.amount_mwk == e.driver_payout
            &&& done.answer.status@ == "released"@
            &&& done.answer.driver_payout == e.driver_payout
            &&& done.answer.commission == e.commission_mwk
        },
{
    match escrow {
        Some(e) => {
            let party: bool = e.rider_pubkey == auth.public_key || e.driver_pubkey
                == auth.public_key;
            if party && (same(e.status.as_str(), "funded") || same(e.status.as_str(), "in_ride")) {
                return Ok(
                    FiatRelease {
                        change: FiatReleaseChange {
                            escrow_id: e.id.clone(),
                            status: "released".to_owned(),
                            completed_at: now,
                            released_at: now,
                        },
                        payout: DriverPayout {
                            id: payout_id,
                            driver_pubkey: e.driver_pubkey.clone(),
                            driver_phone: e.driver_phone.clone(),
                            amount_mwk: e.driver_payout,
                            ride_id: e.id.clone(),
                            escrow_id: e.id.clone(),
                            status: "pending".to_owned(),
                            created_at: now,
                        },
                        earning: FiatEarning {
                            driver_pubkey: e.driver_pubkey.clone(),
                            mwk: e.driver_payout,
                            at: now,
                        },
                        message: FiatReleasedMessage {
                            to: e.driver_pubkey.clone(),
                            amount_mwk: e.driver_payout,
                        },
                        answer: ReleaseResult {
                            status: "released".to_owned(),
                            driver_payout: e.driver_payout,
                            commission: e.commission_mwk,
                        },
                    },
                );
            }
        },
        None => {},
    }
    Err(AppError::not_found("Escrow not found or already released"))
}

/// An escrow is released once: with the status that a release gives it, nobody releases
/// it again.
pub proof fn law_fiat_is_released_once(caller: Seq<char>, escrow: FundedFiat)
    requires
        escrow.status@ == "released"@,
    ensures
        !releasable(caller, Some(escrow)),
{
    reveal_strlit("released");
    reveal_strlit("funded");
    reveal_strlit("in_ride");
    assert("released"@.len() == 8);
    assert("funded"@.len() == 6);
    assert("in_ride"@.len() == 7);
}

/// Whether a payout waits to be made.
pub fn pending_payouts(payout: &PendingPayout) -> (r: bool)
    ensures
        r == (payout.status@ == "pending"@),
{
    same(payout.status.as_str(), "pending")
}

} // verus!

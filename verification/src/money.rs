//! Amounts in sats: fees in basis points, and what is left for the payee.

use vstd::prelude::*;

verus! {

/// Quotient rounded toward zero.
pub open spec fn div_toward_zero(a: int, b: int) -> int
    recommends
        b > 0,
{
    if a >= 0 {
        a / b
    } else {
        -((-a) / b)
    }
}

/// A quotient lies where it should.
pub proof fn lemma_quotient(a: int, b: int)
    requires
        a >= 0,
        b > 0,
    ensures
        0 <= a / b <= a,
        (a / b) * b <= a < (a / b + 1) * b,
{
    vstd::arithmetic::div_mod::lemma_fundamental_div_mod(a, b);
    let q = a / b;
    let m = a % b;
    assert(q * b == b * q) by (nonlinear_arith);
    assert((q + 1) * b == b * q + b) by (nonlinear_arith);
    assert(q >= 0) by (nonlinear_arith)
        requires
            a == b * q + m,
            0 <= m < b,
            a >= 0,
            b > 0,
    ;
    assert(q <= b * q) by (nonlinear_arith)
        requires
            q >= 0,
            b > 0,
    ;
}

/// The platform's fee on an amount: `bps` ten-thousandths of it, rounded toward zero.
pub open spec fn fee_of(amount: int, bps: int) -> int {
    div_toward_zero(amount * bps, 10_000)
}

/// The fee of an amount can be computed in 64-bit signed arithmetic.
pub open spec fn fee_fits(amount: i64, bps: u64) -> bool {
    bps <= i64::MAX && i64::MIN <= amount * bps <= i64::MAX
}

/// The fee of an amount can be computed in 64-bit unsigned arithmetic.
pub open spec fn fee_fits_unsigned(amount: i64, bps: u64) -> bool {
    0 <= amount && amount * bps <= u64::MAX
}

/// Whether the fee of an amount can be computed in 64-bit signed arithmetic.
pub fn can_compute_fee(amount: i64, bps: u64) -> (r: bool)
    ensures
        r == fee_fits(amount, bps),
{
    if bps > i64::MAX as u64 {
        return false;
    }
    match amount.checked_mul(bps as i64) {
        Some(_) => true,
        None => false,
    }
}

/// Whether the fee of an amount can be computed in 64-bit unsigned arithmetic.
pub fn can_compute_fee_unsigned(amount: i64, bps: u64) -> (r: bool)
    ensures
        r == fee_fits_unsigned(amount, bps),
{
    if amount < 0 {
        return false;
    }
    match (amount as u64).checked_mul(bps) {
        Some(_) => true,
        None => false,
    }
}

/// An amount shared out between the platform and the payee.
pub struct FeeSplit {
    pub fee_sats: i64,
    pub payee_sats: i64,
}

proof fn lemma_payee_fits(amount: int, bps: int)
    requires
        i64::MIN <= amount <= i64::MAX,
        0 <= bps,
        i64::MIN <= amount * bps <= i64::MAX,
    ensures
        i64::MIN <= fee_of(amount, bps) <= i64::MAX,
        i64::MIN <= amount - fee_of(amount, bps) <= i64::MAX,
{
    let p = amount * bps;
    if amount >= 0 {
        assert(p >= 0) by (nonlinear_arith)
            requires
                amount >= 0,
                bps >= 0,
                p == amount * bps,
        ;
    } else {
        assert(p <= 0) by (nonlinear_arith)
            requires
                amount < 0,
                bps >= 0,
                p == amount * bps,
        ;
    }
}

/// Takes the fee off an amount.
pub fn split_fee(amount: i64, bps: u64) -> (r: FeeSplit)
    requires
        fee_fits(amount, bps),
    ensures
        r.fee_sats == fee_of(amount as int, bps as int),
        r.payee_sats == amount - r.fee_sats,
{
    proof {
        lemma_payee_fits(amount as int, bps as int);
    }
    let product: i64 = amount * (bps as i64);
    let fee: i64 = if product >= 0 {
        product / 10_000
    } else {
        -(((-(product as i128)) / 10_000) as i64)
    };
    FeeSplit { fee_sats: fee, payee_sats: amount - fee }
}

/// Takes the fee off an amount that is not negative.
pub fn split_fee_unsigned(amount: i64, bps: u64) -> (r: FeeSplit)
    requires
        fee_fits_unsigned(amount, bps),
    ensures
        r.fee_sats == fee_of(amount as int, bps as int),
        r.payee_sats == amount - r.fee_sats,
{
    assert(0 <= amount * bps) by (nonlinear_arith)
        requires
            0 <= amount,
            0 <= bps,
    ;
    let fee: i64 = ((amount as u64 * bps) / 10_000) as i64;
    FeeSplit { fee_sats: fee, payee_sats: amount - fee }
}

/// A share of an amount in percent, rounded toward zero.
pub open spec fn percent_of(amount: int, percent: int) -> int {
    div_toward_zero(amount * percent, 100)
}

/// A payment to a Lightning address.
pub struct Payment {
    pub lud16: String,
    pub amount_sats: i64,
    pub memo: String,
}

pub struct PaymentView {
    pub lud16: Seq<char>,
    pub amount_sats: i64,
    pub memo: Seq<char>,
}

impl View for Payment {
    type V = PaymentView;

    open spec fn view(&self) -> PaymentView {
        PaymentView { lud16: self.lud16@, amount_sats: self.amount_sats, memo: self.memo@ }
    }
}

/// An optional payment, by its view.
pub open spec fn payment_view(p: Option<Payment>) -> Option<PaymentView> {
    match p {
        Some(x) => Some(x@),
        None => None,
    }
}

/// With a rate of at most one whole, the fee on an amount is a part of it: neither
/// the fee nor what is left is negative. With a rate of zero there is no fee.
pub proof fn law_fee_is_a_part(amount: i64, bps: u64)
    requires
        fee_fits(amount, bps),
    ensures
        0 <= amount && bps <= 10_000 ==> 0 <= fee_of(amount as int, bps as int) <= amount,
        bps == 0 ==> fee_of(amount as int, bps as int) == 0,
{
    let p = amount * bps;
    if 0 <= amount && bps <= 10_000 {
        assert(0 <= p <= amount * 10_000) by (nonlinear_arith)
            requires
                0 <= amount,
                0 <= bps <= 10_000,
                p == amount * bps,
        ;
    }
    if bps == 0 {
        assert(p == 0) by (nonlinear_arith)
            requires
                bps == 0,
                p == amount * bps,
        ;
    }
}

/// A higher amount never costs a lower fee.
pub proof fn law_fee_is_monotone(a: i64, b: i64, bps: u64)
    requires
        0 <= a <= b,
        fee_fits(b, bps),
    ensures
        fee_of(a as int, bps as int) <= fee_of(b as int, bps as int),
{
    assert(0 <= a * bps <= b * bps) by (nonlinear_arith)
        requires
            0 <= a <= b,
            0 <= bps,
    ;
}

} // verus!

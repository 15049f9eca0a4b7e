//! Paid verification of merchants.

use vstd::prelude::*;
use vstd::string::*;

use crate::error::AppError;
use crate::error::AppResult;
use crate::error::ErrorView;
use crate::error::refused_as;
use crate::routes::escrow::InvoiceOrder;
use crate::services::blink::InvoiceResult;
use crate::text::same;

verus! {

pub struct CreateVerifyInvoiceRequest {
    pub tier: String,
    pub npub: String,
}

pub struct CreateVerifyInvoiceResponse {
    pub payment_request: String,
    pub payment_hash: String,
    pub tier: String,
    pub sats: i64,
}

pub struct CheckVerifyInvoiceRequest {
    pub payment_request: String,
}

/// The price of a tier, in sats.
pub open spec fn tier_price(tier: Seq<char>) -> Option<i64> {
    if tier == "silver"@ {
        Some(6000)
    } else if tier == "gold"@ {
        Some(12000)
    } else if tier == "orange"@ {
        Some(27000)
    } else {
        None
    }
}

/// A verification that an invoice is made out for.
pub struct Verification {
    tier: String,
    order: InvoiceOrder,
}

/// Begins to verify a merchant: the tier is one that can be bought.
pub fn create_invoice(body: &CreateVerifyInvoiceRequest) -> (r: AppResult<Verification>)
    ensures
        refused_as(
            r,
            if tier_price(body.tier@) is None {
                Some(ErrorView::BadRequest("invalid tier"@))
            } else {
                None
            },
        ),
        r matches Ok(v) ==> {
            &&& v.tier() == body.tier@
            &&& tier_price(body.tier@) == Some(v.sats())
            &&& v.memo() == "Ulendo "@ + body.tier@ + " verification for "@ + body.npub@
        },
{
    let tier: &str = body.tier.as_str();
    let sats: i64 = if same(tier, "silver") {
        6000
    } else if same(tier, "gold") {
        12000
    } else if same(tier, "orange") {
        27000
    } else {
        return Err(AppError::bad_request("invalid tier"));
    };
    let mut memo: String = "Ulendo ".to_owned();
    memo.append(tier);
    memo.append(" verification for ");
    memo.append(body.npub.as_str());
    Ok(Verification { tier: body.tier.clone(), order: InvoiceOrder { amount_sats: sats, memo } })
}

impl Verification {
    /// The tier.
    pub closed spec fn tier(&self) -> Seq<char> {
        self.tier@
    }

    /// The tier's price.
    pub closed spec fn sats(&self) -> i64 {
        self.order.amount_sats
    }

    /// The memo on the invoice.
    pub closed spec fn memo(&self) -> Seq<char> {
        self.order.memo@
    }

    /// The invoice to order.
    pub fn invoice(&self) -> (r: &InvoiceOrder)
        ensures
            r.amount_sats == self.sats(),
            r.memo@ == self.memo(),
    {
        &self.order
    }

    /// What is answered once the wallet has replied to the invoice order.
    pub fn invoiced(self, reply: Result<InvoiceResult, String>) -> (r: AppResult<
        CreateVerifyInvoiceResponse,
    >)
        ensures
            refused_as(
                r,
                match reply {
                    Ok(_) => None,
                    Err(e) => Some(ErrorView::BadRequest(e@)),
                },
            ),
            r matches Ok(answer) ==> {
                &&& answer.payment_request == reply->Ok_0.payment_request
                &&& answer.payment_hash == reply->Ok_0.payment_hash
                &&& answer.tier@ == self.tier()
                &&& answer.sats == self.sats()
            },
    {
        match reply {
            Err(e) => Err(AppError::BadRequest(e)),
            Ok(inv) => Ok(
                CreateVerifyInvoiceResponse {
                    payment_request: inv.payment_request,
                    payment_hash: inv.payment_hash,
                    tier: self.tier,
                    sats: self.order.amount_sats,
                },
            ),
        }
    }
}

/// What is answered to the question whether an invoice is paid.
pub fn check_invoice(paid: Result<bool, String>) -> (r: AppResult<bool>)
    ensures
        refused_as(
            r,
            match paid {
                Ok(_) => None,
                Err(e) => Some(ErrorView::BadRequest(e@)),
            },
        ),
        r matches Ok(p) ==> paid == Ok::<bool, String>(p),
{
    match paid {
        Ok(p) => Ok(p),
        Err(e) => Err(AppError::BadRequest(e)),
    }
}

} // verus!

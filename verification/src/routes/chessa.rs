//! Payouts to mobile money through Chessa.

use vstd::prelude::*;
use vstd::string::*;

use crate::error::AppError;
use crate::error::AppResult;
use crate::error::ErrorView;
use crate::error::refused_as;
use crate::text::or_default;
use crate::text::or_text;
use crate::text::same;

verus! {

pub struct QuoteRequest {
    pub booking_id: String,
    pub fare_sats: i64,
    pub phone: String,
    pub network: String,
    pub first_name: String,
    pub last_name: String,
}

pub struct PayRequest {
    pub booking_id: String,
    pub order_id: String,
    pub fare_sats: i64,
}

pub struct PayResponse {
    pub order_id: String,
    pub status: String,
    pub crypto_address: String,
}

pub struct LightningPayRequest {
    pub booking_id: String,
    pub invoice: String,
    pub fare_sats: i64,
}

/// The credentials that requests carry: empty where the environment has none.
pub fn client_creds(id: &Option<String>, secret: &Option<String>) -> (r: (String, String))
    ensures
        r.0@ == or_text(id.deep_view(), ""@),
        r.1@ == or_text(secret.deep_view(), ""@),
{
    (or_default(id, ""), or_default(secret, ""))
}

/// The address of a path of the service.
pub fn chessa_url(path: &str) -> (r: String)
    ensures
        r@ == "https://api.chessa.ai"@ + path@,
{
    "https://api.chessa.ai".to_owned().concat(path)
}

/// Whether a request that was sent with data succeeded; if not, the error is what the
/// service says.
pub fn chessa_post(success: bool, message: &Option<String>) -> (r: AppResult<()>)
    ensures
        refused_as(
            r,
            if !success {
                Some(ErrorView::BadRequest(or_text(message.deep_view(), "Chessa error"@)))
            } else {
                None
            },
        ),
{
    if !success {
        return Err(AppError::BadRequest(or_default(message, "Chessa error")));
    }
    Ok(())
}

/// What a request carries that makes the recipient of a payout known to the service.
pub struct RecipientRequest {
    pub path: String,
    pub first_name: String,
    pub last_name: String,
    pub phone_number: String,
    pub country: String,
    pub payout_method: String,
    /// The mobile-money network.
    pub provider: String,
    pub currency: String,
}

/// The request that makes the recipient of a payout known: the driver's name, and the
/// driver's number with a network of Malawi.
pub fn recipient_request(req: &QuoteRequest) -> (r: RecipientRequest)
    ensures
        r.path@ == "/v1/recipient"@,
        r.first_name == req.first_name,
        r.last_name == req.last_name,
        r.phone_number == req.phone,
        r.country@ == "MW"@,
        r.payout_method@ == "mobile_money"@,
        r.provider == req.network,
        r.currency@ == "MWK"@,
{
    RecipientRequest {
        path: "/v1/recipient".to_owned(),
        first_name: req.first_name.clone(),
        last_name: req.last_name.clone(),
        phone_number: req.phone.clone(),
        country: "MW".to_owned(),
        payout_method: "mobile_money".to_owned(),
        provider: req.network.clone(),
        currency: "MWK".to_owned(),
    }
}

/// What a request for a payout order carries. The amount is in sats; the service takes it
/// in bitcoin.
pub struct OrderRequest {
    pub path: String,
    pub recipient_id: String,
    pub source_currency: String,
    pub source_sats: i64,
    pub destination_currency: String,
    pub memo: String,
}

/// The request for a payout order: the fare, from bitcoin to kwacha, for the recipient
/// that the service told, or for none where it told none.
pub fn order_request(req: &QuoteRequest, recipient_id: &Option<String>) -> (r: OrderRequest)
    ensures
        r.path@ == "/v1/orders"@,
        r.recipient_id@ == or_text(recipient_id.deep_view(), ""@),
        r.source_currency@ == "BTC"@,
        r.source_sats == req.fare_sats,
        r.destination_currency@ == "MWK"@,
        r.memo@ == "Ulendo ride payout booking "@ + req.booking_id@,
{
    OrderRequest {
        path: "/v1/orders".to_owned(),
        recipient_id: or_default(recipient_id, ""),
        source_currency: "BTC".to_owned(),
        source_sats: req.fare_sats,
        destination_currency: "MWK".to_owned(),
        memo: order_memo(req.booking_id.as_str()),
    }
}

/// What a request carries that asks how an order is to be paid.
pub struct FundingRequest {
    pub path: String,
    pub order_id: String,
    pub network: String,
    pub token: String,
}

/// The request that asks how an order is to be paid: in bitcoin, over Lightning.
pub fn funding_request(req: &PayRequest) -> (r: FundingRequest)
    ensures
        r.path@ == "/v1/orders/funding"@,
        r.order_id == req.order_id,
        r.network@ == "lightning"@,
        r.token@ == "BTC"@,
{
    FundingRequest {
        path: "/v1/orders/funding".to_owned(),
        order_id: req.order_id.clone(),
        network: "lightning".to_owned(),
        token: "BTC".to_owned(),
    }
}

/// What the wallet is asked to pay for a payout.
pub struct InvoicePayment {
    pub wallet_id: String,
    pub payment_request: String,
    pub memo: String,
}

/// The payment of a payout's invoice: from the wallet that the environment names, or from
/// none where it names none.
pub fn invoice_payment(req: &LightningPayRequest, wallet_id: &Option<String>) -> (r: InvoicePayment)
    ensures
        r.wallet_id@ == or_text(wallet_id.deep_view(), ""@),
        r.payment_request == req.invoice,
        r.memo@ == "Chessa MWK payout — booking "@ + req.booking_id@,
{
    InvoicePayment {
        wallet_id: or_default(wallet_id, ""),
        payment_request: req.invoice.clone(),
        memo: lightning_memo(req.booking_id.as_str()),
    }
}

/// The memo of a payout order.
pub fn order_memo(booking_id: &str) -> (r: String)
    ensures
        r@ == "Ulendo ride payout booking "@ + booking_id@,
{
    "Ulendo ride payout booking ".to_owned().concat(booking_id)
}

/// What a mobile-money network is called.
pub open spec fn label_of(network: Seq<char>) -> Seq<char> {
    if network == "airtel_mw"@ {
        "Airtel Money"@
    } else if network == "tnm_mpamba"@ {
        "TNM Mpamba"@
    } else {
        network
    }
}

/// A quote as the service's replies give it, beside its amounts.
pub struct QuoteTexts {
    pub order_id: String,
    pub recipient_id: String,
    pub network_label: String,
    pub quote_expires_at: String,
}

/// The texts of a quote: what a reply leaves out is empty.
pub fn create_quote(
    req: &QuoteRequest,
    recipient_id: &Option<String>,
    order_id: &Option<String>,
    expires_at: &Option<String>,
) -> (r: QuoteTexts)
    ensures
        r.order_id@ == or_text(order_id.deep_view(), ""@),
        r.recipient_id@ == or_text(recipient_id.deep_view(), ""@),
        r.network_label@ == label_of(req.network@),
        r.quote_expires_at@ == or_text(expires_at.deep_view(), ""@),
{
    let network: &str = req.network.as_str();
    let network_label: String = if same(network, "airtel_mw") {
        "Airtel Money".to_owned()
    } else if same(network, "tnm_mpamba") {
        "TNM Mpamba".to_owned()
    } else {
        req.network.clone()
    };
    QuoteTexts {
        order_id: or_default(order_id, ""),
        recipient_id: or_default(recipient_id, ""),
        network_label,
        quote_expires_at: or_default(expires_at, ""),
    }
}

/// What is noted on a booking that is paid out in kwacha.
pub struct PayoutNote {
    pub booking_id: String,
    pub chessa_order_id: String,
    pub chessa_crypto_address: String,
    pub payout_choice: String,
}

/// Where a payout is paid: to the Lightning invoice where there is one, else to the
/// address on the chain.
pub open spec fn destination(invoice: Option<Seq<char>>, address: Option<Seq<char>>) -> Seq<char> {
    if or_text(invoice, ""@).len() > 0 {
        invoice->0
    } else {
        or_text(address, ""@)
    }
}

/// What is noted and answered once the service has told how a payout is to be paid.
pub fn pay_order(
    req: &PayRequest,
    lightning_invoice: &Option<String>,
    crypto_address: &Option<String>,
) -> (r: (PayoutNote, PayResponse))
    ensures
        ({
            let dest = destination(lightning_invoice.deep_view(), crypto_address.deep_view());
            &&& r.0.booking_id == req.booking_id
            &&& r.0.chessa_order_id == req.order_id
            &&& r.0.chessa_crypto_address@ == dest
            &&& r.0.payout_choice@ == "kwacha"@
            &&& r.1.order_id == req.order_id
            &&& r.1.status@ == "pending"@
            &&& r.1.crypto_address@ == dest
        }),
{
    let invoice: String = or_default(lightning_invoice, "");
    proof {
        reveal_strlit("");
        assert(""@.len() == 0);
    }
    let dest: String = if !invoice.as_str().is_empty() {
        invoice
    } else {
        or_default(crypto_address, "")
    };
    (
        PayoutNote {
            booking_id: req.booking_id.clone(),
            chessa_order_id: req.order_id.clone(),
            chessa_crypto_address: dest.clone(),
            payout_choice: "kwacha".to_owned(),
        },
        PayResponse {
            order_id: req.order_id.clone(),
            status: "pending".to_owned(),
            crypto_address: dest,
        },
    )
}

/// The path under which an order's status is found.
pub fn get_order_status(order_id: &str) -> (r: String)
    ensures
        r@ == "/v1/orders/"@ + order_id@,
{
    "/v1/orders/".to_owned().concat(order_id)
}

/// The memo of a payout's Lightning payment.
pub fn lightning_memo(booking_id: &str) -> (r: String)
    ensures
        r@ == "Chessa MWK payout — booking "@ + booking_id@,
{
    "Chessa MWK payout — booking ".to_owned().concat(booking_id)
}

/// What a Lightning payment came to: the first error that the wallet reports, or
/// the status that it gives.
pub fn pay_lightning(errors: &Vec<Option<String>>, status: &Option<String>) -> (r: AppResult<String>)
    ensures
        refused_as(
            r,
            if errors@.len() > 0 {
                Some(
                    ErrorView::BadRequest(
                        or_text(errors@[0].deep_view(), "Blink payment error"@),
                    ),
                )
            } else {
                None
            },
        ),
        r matches Ok(s) ==> s@ == or_text(status.deep_view(), "UNKNOWN"@),
{
    if errors.len() > 0 {
        return Err(AppError::BadRequest(or_default(&errors[0], "Blink payment error")));
    }
    Ok(or_default(status, "UNKNOWN"))
}

} // verus!

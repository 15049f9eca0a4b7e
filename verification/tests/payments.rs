use ulendo::auth::AuthUser;
use ulendo::routes::calls::{
    call_ordered, can_cost, can_settle, charged, cost_of_call, create_topup, credited, get_balance,
    get_or_create_balance, pstn_inbound, pstn_outbound, pstn_webhook, settle_call, topup_status, voice_url,
    AtWebhookQuery, EndedCall, LoggedCall, OutboundBody, TopupBody, TopupCheck,
};
use ulendo::routes::chessa::{
    chessa_post, chessa_url, client_creds, create_quote, funding_request, get_order_status, invoice_payment,
    lightning_memo, order_memo, order_request, pay_lightning, pay_order, recipient_request, LightningPayRequest,
    PayRequest, QuoteRequest,
};
use ulendo::routes::fiat::{
    can_escrow, create_fiat_escrow, parse_sms, parsed_sms, pending_payouts, release_fiat, ulendo_airtel,
    ulendo_tnm, verify_sms, CreateFiatEscrow, DriverTotals, FundedFiat, PendingFiat, PendingPayout, VerifySmsInput,
};
use ulendo::services::blink::InvoiceResult;
use ulendo::{AppError, AppResult};

fn s(text: &str) -> String {
    text.to_string()
}

fn user(name: &str) -> AuthUser {
    AuthUser { npub: s(name), public_key: format!("{name}-key") }
}

fn refusal<T>(r: AppResult<T>) -> (u16, String) {
    match r {
        Ok(_) => panic!("not refused"),
        Err(e) => e.into_response(),
    }
}

// Calls

#[test]
fn balances_pay_for_whole_minutes() {
    assert_eq!(get_or_create_balance(None), 0);
    assert_eq!(get_or_create_balance(Some(7)), 7);
    for (balance, rate, minutes) in [(250, 100, 2), (99, 100, 0), (250, 0, 0), (250, -5, 0), (-250, 100, -2)] {
        let b = get_balance(balance, rate);
        assert_eq!((b.balance_sats, b.sats_per_minute, b.minutes_remaining), (balance, rate, minutes));
    }
    assert_eq!(credited(None, 500), Some(500));
    assert_eq!(credited(Some(7), 500), Some(507));
    assert_eq!(credited(Some(i64::MAX), 1), None);
}

#[test]
fn topups_are_invoiced() {
    let t = create_topup(&user("a"), &TopupBody { amount_sats: 100 }).ok().unwrap();
    assert_eq!(t.invoice().amount_sats, 100);
    assert_eq!(t.invoice().memo, "Ulendo talk credits 100 sats");
    let reply = InvoiceResult { payment_request: s("lnbc"), payment_hash: s("h"), expires_at: 9 };
    let (row, answer) = t.invoiced(Ok(reply), s("T"), 5).ok().unwrap();
    assert_eq!((row.id.as_str(), row.pubkey.as_str(), row.invoice.as_str()), ("T", "a-key", "lnbc"));
    assert_eq!((row.amount_sats, row.paid, row.created_at), (100, false, 5));
    assert_eq!((answer.topup_id.as_str(), answer.payment_hash.as_str(), answer.amount_sats), ("T", "h", 100));

    match topup_status(&user("a"), Some(row)).ok().unwrap() {
        TopupCheck::Ask { question } => {
            assert_eq!(question.invoice_to_check(), "lnbc");
            let topup = question.checked(&Ok(true)).unwrap();
            assert_eq!((topup.topup_to_mark(), topup.sats_paid()), ("T", 100));
            let credit = topup.marked(1).unwrap();
            assert_eq!((credit.pubkey.as_str(), credit.sats), ("a-key", 100));
        }
        TopupCheck::Credited { .. } => panic!("not paid yet"),
    }
}

#[test]
fn topups_are_credited_once_and_to_their_owner() {
    let row = |paid: bool| {
        let t = create_topup(&user("a"), &TopupBody { amount_sats: 1_000_000 }).ok().unwrap();
        let reply = InvoiceResult { payment_request: s("lnbc"), payment_hash: s("h"), expires_at: 9 };
        let (mut row, _) = t.invoiced(Ok(reply), s("T"), 5).ok().unwrap();
        row.paid = paid;
        Some(row)
    };
    assert!(matches!(
        topup_status(&user("a"), row(true)),
        Ok(TopupCheck::Credited { amount_sats: 1_000_000 })
    ));
    let mut kept = row(false).unwrap();
    for (rows, brings) in [(1, Some(1_000_000)), (0, None)] {
        assert_eq!(kept.mark_paid(), rows);
        match topup_status(&user("a"), row(false)).ok().unwrap() {
            TopupCheck::Ask { question } => {
                let credit = question.checked(&Ok(true)).unwrap().marked(rows);
                assert_eq!(credit.map(|c| c.sats), brings);
            }
            TopupCheck::Credited { .. } => panic!("not paid yet"),
        }
    }
    assert!(matches!(topup_status(&user("a"), Some(kept)), Ok(TopupCheck::Credited { .. })));
    for answer in [Ok(false), Err(s("down"))] {
        match topup_status(&user("a"), row(false)).ok().unwrap() {
            TopupCheck::Ask { question } => assert!(question.checked(&answer).is_none()),
            TopupCheck::Credited { .. } => panic!("not paid yet"),
        }
    }
    assert_eq!(refusal(topup_status(&user("a"), None)), (400, s("Topup not found")));
    assert_eq!(refusal(topup_status(&user("b"), row(true))), (401, s("Not your topup")));
    assert_eq!(
        refusal(create_topup(&user("a"), &TopupBody { amount_sats: 99 })),
        (400, s("Minimum top-up is 100 sats"))
    );
    assert_eq!(
        refusal(create_topup(&user("a"), &TopupBody { amount_sats: 1_000_001 })),
        (400, s("Maximum top-up is 1,000,000 sats"))
    );
    let t = create_topup(&user("a"), &TopupBody { amount_sats: 100 }).ok().unwrap();
    assert!(matches!(
        t.invoiced(Err(s("down")), s("T"), 5),
        Err(AppError::Internal(m)) if m == "Invoice error: down"
    ));
}

#[test]
fn calls_need_a_number_and_a_minute_of_credit() {
    let call = |phone: &str| pstn_outbound(&user("a"), &OutboundBody { phone: s(phone), call_id: s("c") });
    let logged = call(" +2659912 ").ok().unwrap().logged(100, 100, s("log"), 5).ok().unwrap();
    let row = logged.row_to_enter();
    assert_eq!((row.id.as_str(), row.pubkey.as_str(), row.phone.as_str()), ("log", "a-key", "+2659912"));
    assert_eq!((row.direction.as_str(), row.status.as_str()), ("outbound", "initiated"));
    assert_eq!((row.duration_secs, row.sats_spent, row.created_at), (0, 0, 5));
    assert_eq!(row.at_session_id, None);
    for phone in ["26599123", "+265991", ""] {
        assert_eq!(refusal(call(phone)), (400, s("Phone must be in E.164 format e.g. +265991234567")));
    }
    assert_eq!(
        refusal(call("+2659912").ok().unwrap().logged(99, 100, s("log"), 5)),
        (400, s("Insufficient credits. Need at least 100 sats (100 sats/min). Top up first."))
    );
    assert_eq!(voice_url(true), "https://voice.sandbox.africastalking.com/call");
    assert_eq!(voice_url(false), "https://voice.africastalking.com/call");
    let r = call_ordered(true, "", Some(s("S")));
    assert_eq!((r.ok, r.at_session_id, r.message.as_str()), (true, Some(s("S")), "Call initiated"));
    let r = call_ordered(false, "no", Some(s("S")));
    assert_eq!((r.ok, r.at_session_id, r.message.as_str()), (false, None, "AT API error: no"));
    assert!(pstn_inbound().contains("This service is coming soon."));
}

fn logged(balance: i64) -> LoggedCall {
    let body = OutboundBody { phone: s("+2659912"), call_id: s("c") };
    pstn_outbound(&user("a"), &body).ok().unwrap().logged(balance, 100, s("log"), 5).ok().unwrap()
}

#[test]
fn a_minute_is_taken_off_before_a_call() {
    let call = logged(250);
    assert_eq!((call.sats_to_take(), call.balance_to_leave()), (100, 150));
    let end = call.answered(true, "{\"entries\":[{\"sessionId\":\"S\"}]}");
    assert_eq!((end.balance_sats, end.given_back), (150, 0));
    assert_eq!((end.log.status.as_str(), end.log.at_session_id.as_deref()), ("ringing", Some("S")));
    let a = end.answer.ok().unwrap();
    assert_eq!((a.ok, a.at_session_id.as_deref(), a.message.as_str()), (true, Some("S"), "Call initiated"));

    let ended = EndedCall { session_id: s("S"), duration_secs: 61 };
    assert!(can_settle(61, 100));
    let over = settle_call(&ended, end.log, 100);
    assert_eq!((over.log.status.as_str(), over.log.sats_spent, over.log.duration_secs), ("completed", 200, 61));
    assert_eq!(over.remainder, 100);
    assert_eq!(charged(end.balance_sats, over.remainder), charged(250, cost_of_call(61, 100)));
    let short = EndedCall { session_id: s("S"), duration_secs: 60 };
    assert_eq!(settle_call(&short, logged(100).answered(true, "").log, 100).remainder, 0);
}

#[test]
fn the_session_is_told_by_the_reply() {
    for text in ["", "[]", "{}", "{\"entries\":[]}", "{\"entries\":[{\"sessionId\":7}]}"] {
        let end = logged(100).answered(true, text);
        assert_eq!((end.log.status.as_str(), end.log.at_session_id), ("initiated", None));
        assert_eq!(end.balance_sats, 0);
        assert!(end.answer.ok().unwrap().ok);
    }
    let end = logged(100).ordered(true, "", Some(s("T")));
    assert_eq!((end.log.status.as_str(), end.log.at_session_id.as_deref()), ("ringing", Some("T")));
}

#[test]
fn the_minute_is_given_back_where_no_call_is_made() {
    let end = logged(250).answered(false, "{\"entries\":[{\"sessionId\":\"S\"}]}");
    assert_eq!((end.balance_sats, end.given_back), (250, 100));
    assert_eq!((end.log.status.as_str(), end.log.at_session_id), ("initiated", None));
    let a = end.answer.ok().unwrap();
    assert_eq!((a.ok, a.message), (false, s("AT API error: {\"entries\":[{\"sessionId\":\"S\"}]}")));
    let end = logged(250).not_reached("timed out");
    assert_eq!((end.balance_sats, end.given_back), (250, 100));
    assert!(matches!(end.answer, Err(AppError::Internal(m)) if m == "AT API error: timed out"));
}

#[test]
fn calls_cost_the_minutes_begun() {
    for (secs, cost) in [(0, 100), (1, 100), (60, 100), (61, 200), (120, 200), (121, 300), (-90, 100)] {
        assert!(can_cost(secs, 100));
        assert_eq!(cost_of_call(secs, 100), cost);
    }
    assert!(!can_cost(i64::MAX, i64::MAX));
    assert_eq!(charged(250, 100), 150);
    assert_eq!(charged(50, 100), 0);
    let q = |session: Option<&str>, state: Option<&str>, duration: Option<&str>| AtWebhookQuery {
        sessionId: session.map(s),
        callSessionState: state.map(s),
        duration: duration.map(s),
        callerNumber: None,
        destinationNumber: None,
        direction: None,
    };
    let call = pstn_webhook(&q(Some("S"), Some("Complete"), Some("61"))).unwrap();
    assert_eq!((call.session_id.as_str(), call.duration_secs), ("S", 61));
    assert_eq!(pstn_webhook(&q(Some("S"), Some("Complete"), Some("x"))).unwrap().duration_secs, 0);
    assert_eq!(pstn_webhook(&q(Some("S"), Some("Complete"), None)).unwrap().duration_secs, 0);
    assert!(pstn_webhook(&q(Some(""), Some("Complete"), None)).is_none());
    assert!(pstn_webhook(&q(None, Some("Complete"), None)).is_none());
    assert!(pstn_webhook(&q(Some("S"), Some("Answered"), None)).is_none());
    assert!(pstn_webhook(&q(Some("S"), None, None)).is_none());
}

// Chessa

#[test]
fn quotes_name_their_network() {
    let req = |network: &str| QuoteRequest {
        booking_id: s("B"),
        fare_sats: 1,
        phone: s("+265"),
        network: s(network),
        first_name: s("Ann"),
        last_name: s("Phiri"),
    };
    for (network, label) in [("airtel_mw", "Airtel Money"), ("tnm_mpamba", "TNM Mpamba"), ("other", "other")] {
        let q = create_quote(&req(network), &Some(s("rec")), &Some(s("ord")), &None);
        assert_eq!((q.recipient_id.as_str(), q.order_id.as_str()), ("rec", "ord"));
        assert_eq!((q.network_label.as_str(), q.quote_expires_at.as_str()), (label, ""));
    }
    assert_eq!(client_creds(&Some(s("id")), &None), (s("id"), s("")));
    assert_eq!(chessa_url("/v1/x"), "https://api.chessa.ai/v1/x");
    assert_eq!(order_memo("B"), "Ulendo ride payout booking B");
    assert_eq!(lightning_memo("B"), "Chessa MWK payout — booking B");
    assert_eq!(get_order_status("O"), "/v1/orders/O");
    assert!(chessa_post(true, &None).is_ok());
    assert_eq!(refusal(chessa_post(false, &None)), (400, s("Chessa error")));
    assert_eq!(refusal(chessa_post(false, &Some(s("limit")))), (400, s("limit")));
}

#[test]
fn requests_carry_the_payout() {
    let req = QuoteRequest {
        booking_id: s("B"),
        fare_sats: 700,
        phone: s("+265"),
        network: s("airtel_mw"),
        first_name: s("Ann"),
        last_name: s("Phiri"),
    };
    let r = recipient_request(&req);
    assert_eq!((r.path.as_str(), r.first_name.as_str(), r.last_name.as_str()), ("/v1/recipient", "Ann", "Phiri"));
    assert_eq!((r.phone_number.as_str(), r.provider.as_str()), ("+265", "airtel_mw"));
    assert_eq!((r.country.as_str(), r.payout_method.as_str(), r.currency.as_str()), ("MW", "mobile_money", "MWK"));
    let o = order_request(&req, &Some(s("rec")));
    assert_eq!((o.path.as_str(), o.recipient_id.as_str(), o.source_sats), ("/v1/orders", "rec", 700));
    assert_eq!((o.source_currency.as_str(), o.destination_currency.as_str()), ("BTC", "MWK"));
    assert_eq!(o.memo, "Ulendo ride payout booking B");
    assert_eq!(order_request(&req, &None).recipient_id, "");
    let f = funding_request(&PayRequest { booking_id: s("B"), order_id: s("O"), fare_sats: 1 });
    assert_eq!((f.path.as_str(), f.order_id.as_str()), ("/v1/orders/funding", "O"));
    assert_eq!((f.network.as_str(), f.token.as_str()), ("lightning", "BTC"));
    let pay = LightningPayRequest { booking_id: s("B"), invoice: s("lnbc"), fare_sats: 1 };
    let p = invoice_payment(&pay, &Some(s("W")));
    assert_eq!((p.wallet_id.as_str(), p.payment_request.as_str()), ("W", "lnbc"));
    assert_eq!(p.memo, "Chessa MWK payout — booking B");
    assert_eq!(invoice_payment(&pay, &None).wallet_id, "");
}

#[test]
fn payouts_prefer_lightning() {
    let req = PayRequest { booking_id: s("B"), order_id: s("O"), fare_sats: 1 };
    let (note, answer) = pay_order(&req, &Some(s("lnbc")), &Some(s("bc1")));
    assert_eq!((note.booking_id.as_str(), note.chessa_order_id.as_str()), ("B", "O"));
    assert_eq!((note.chessa_crypto_address.as_str(), note.payout_choice.as_str()), ("lnbc", "kwacha"));
    assert_eq!((answer.order_id.as_str(), answer.status.as_str(), answer.crypto_address.as_str()), ("O", "pending", "lnbc"));
    assert_eq!(pay_order(&req, &Some(s("")), &Some(s("bc1"))).1.crypto_address, "bc1");
    assert_eq!(pay_order(&req, &None, &None).1.crypto_address, "");
    assert_eq!(pay_lightning(&Vec::new(), &Some(s("SUCCESS"))).ok(), Some(s("SUCCESS")));
    assert_eq!(pay_lightning(&Vec::new(), &None).ok(), Some(s("UNKNOWN")));
    assert_eq!(refusal(pay_lightning(&vec![Some(s("no route"))], &Some(s("FAILURE")))), (400, s("no route")));
    assert_eq!(refusal(pay_lightning(&vec![None], &None)), (400, s("Blink payment error")));
}

// Kwacha

const ID: &str = "ab12cd34ef56ab12cd34ef56ab12cd34";

fn fare(amount_mwk: i64) -> CreateFiatEscrow {
    CreateFiatEscrow { ride_id: s("R"), driver_pubkey: s("d"), driver_phone: None, amount_mwk }
}

#[test]
fn the_commission_comes_on_top() {
    assert!(can_escrow(1999));
    let (row, answer) =
        create_fiat_escrow(&user("a"), &fare(1999), ulendo_airtel(&None), ulendo_tnm(&Some(s("+1"))), s(ID), 5)
            .ok()
            .unwrap();
    assert_eq!((row.commission_mwk, row.amount_mwk, row.driver_payout), (259, 2258, 1999));
    assert_eq!((row.reference_code.as_str(), row.status.as_str(), row.driver_phone.as_str()), ("UL-AB12CD", "pending", ""));
    assert_eq!((row.rider_pubkey.as_str(), row.driver_pubkey.as_str(), row.created_at), ("a-key", "d", 5));
    assert_eq!((answer.escrow_id.as_str(), answer.reference_code.as_str()), (ID, "UL-AB12CD"));
    assert_eq!((answer.amount_mwk, answer.total_with_fee, answer.commission_mwk, answer.driver_payout), (1999, 2258, 259, 1999));
    assert_eq!((answer.airtel_number.as_str(), answer.tnm_number.as_str()), ("+265991234567", "+1"));
    assert_eq!(ulendo_tnm(&None), "+265881234567");
    assert_eq!(
        refusal(create_fiat_escrow(&user("a"), &fare(99), s(""), s(""), s(ID), 5)),
        (400, s("Minimum amount is MWK 100"))
    );
    assert!(!can_escrow(i64::MAX));
    assert!(can_escrow(i64::MIN));
}

#[test]
fn messages_are_read() {
    let p = parse_sms("Trans. ID: CI240101.1234 You have received MK 12,345.67 from ANN");
    assert_eq!(p.amount_text, Some(s("12345.67")));
    assert_eq!(p.txn_ref, "CI240101");
    let p = parse_sms("mwk500 txn ABCDEF99");
    assert_eq!((p.amount_text, p.txn_ref.as_str()), (Some(s("500")), "ABCDEF99"));
    let p = parse_sms("nothing here");
    assert_eq!((p.amount_text, p.txn_ref.as_str()), (None, ""));
    let p = parsed_sms(&Some(s("1,2,3")), &None);
    assert_eq!((p.amount_text, p.txn_ref.as_str()), (Some(s("123")), ""));
}

fn waiting(status: &str) -> Option<PendingFiat> {
    Some(PendingFiat { id: s("E"), driver_pubkey: s("d"), amount_mwk: 2258, status: s(status) })
}

fn sms(text: &str) -> VerifySmsInput {
    VerifySmsInput { escrow_id: s("E"), sms_text: s(text) }
}

#[test]
fn payments_are_verified() {
    let check = verify_sms(&sms("Ref: ABC12345 MWK 2,258.00"), waiting("pending")).ok().unwrap();
    assert_eq!(check.amount_text(), Some(s("2258.00")));
    let payment = check.amount_read(2258).ok().unwrap();
    assert_eq!(payment.reference(), Some(s("ABC12345")));
    let done = payment.accept(false, 9).ok().unwrap();
    assert_eq!((done.funding.escrow_id.as_str(), done.funding.status.as_str()), ("E", "funded"));
    assert_eq!((done.funding.txn_ref.as_str(), done.funding.funded_at), ("ABC12345", 9));
    assert_eq!(done.funding.sms_raw, "Ref: ABC12345 MWK 2,258.00");
    assert_eq!((done.message.to.as_str(), done.message.escrow_id.as_str(), done.message.amount_mwk), ("d", "E", 2258));
    assert!(done.answer.verified);
    assert_eq!(done.answer.message, "Payment verified! Driver notified.");
}

#[test]
fn payments_are_objected_to() {
    let text = "Ref: ABC12345 MWK 2,258.00";
    let why = |r: Result<(), ulendo::routes::fiat::VerifyResult>| {
        let v = r.err().unwrap();
        assert!(!v.verified);
        v.message
    };
    assert_eq!(why(verify_sms(&sms(text), None).map(|_| ())), "Escrow not found");
    assert_eq!(why(verify_sms(&sms(text), waiting("funded")).map(|_| ())), "Already funded");
    let check = || verify_sms(&sms(text), waiting("pending")).ok().unwrap();
    assert_eq!(
        why(check().amount_read(0).map(|_| ())),
        "Could not read amount from SMS. Paste the full confirmation message."
    );
    assert_eq!(
        why(check().amount_read(2257).map(|_| ())),
        "Amount too low. Expected MWK 2258, found MWK 2257"
    );
    assert_eq!(
        why(check().amount_read(2258).ok().unwrap().accept(true, 9).map(|_| ())),
        "This transaction was already used."
    );
    let without = verify_sms(&sms("MWK 9999"), waiting("pending")).ok().unwrap().amount_read(9999).ok().unwrap();
    assert_eq!(without.reference(), None);
    assert!(without.accept(true, 9).is_ok());
}

#[test]
fn kwacha_are_released_by_either_party() {
    let escrow = |status: &str| {
        Some(FundedFiat {
            id: s("E"),
            rider_pubkey: s("a-key"),
            driver_pubkey: s("d-key"),
            driver_payout: 1999,
            commission_mwk: 259,
            driver_phone: s("+265"),
            status: s(status),
        })
    };
    for who in ["a", "d"] {
        let done = release_fiat(&user(who), &escrow("funded"), s("P"), 9).ok().unwrap();
        let (change, payout, answer) = (done.change, done.payout, done.answer);
        assert_eq!((change.escrow_id.as_str(), change.status.as_str()), ("E", "released"));
        assert_eq!((change.completed_at, change.released_at), (9, 9));
        assert_eq!((done.message.to.as_str(), done.message.amount_mwk), ("d-key", 1999));
        assert_eq!((done.earning.driver_pubkey.as_str(), done.earning.mwk, done.earning.at), ("d-key", 1999, 9));
        let first = done.earning.totals(&None).unwrap();
        assert_eq!((first.total_rides, first.total_earned_mwk), (1, 1999));
        let second = done.earning.totals(&Some(first)).unwrap();
        assert_eq!((second.total_rides, second.total_earned_mwk), (2, 3998));
        let full = DriverTotals { total_rides: 1, total_earned_mwk: i64::MAX };
        assert!(done.earning.totals(&Some(full)).is_none());
        assert_eq!((payout.id.as_str(), payout.driver_pubkey.as_str(), payout.amount_mwk), ("P", "d-key", 1999));
        assert_eq!((payout.ride_id.as_str(), payout.escrow_id.as_str(), payout.status.as_str()), ("E", "E", "pending"));
        assert_eq!((answer.status.as_str(), answer.driver_payout, answer.commission), ("released", 1999, 259));
    }
    assert!(release_fiat(&user("a"), &escrow("in_ride"), s("P"), 9).is_ok());
    let not_found = (404, s("Escrow not found or already released"));
    assert_eq!(refusal(release_fiat(&user("x"), &escrow("funded"), s("P"), 9)), not_found);
    assert_eq!(refusal(release_fiat(&user("a"), &escrow("released"), s("P"), 9)), not_found);
    assert_eq!(refusal(release_fiat(&user("a"), &None, s("P"), 9)), not_found);
    let mut p = PendingPayout {
        id: s("P"),
        driver_pubkey: s("d"),
        driver_phone: s(""),
        amount_mwk: 1,
        status: s("pending"),
        created_at: 1,
    };
    assert!(pending_payouts(&p));
    p.status = s("paid");
    assert!(!pending_payouts(&p));
}

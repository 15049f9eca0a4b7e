//! What notifications, messages, photos and payouts through others come to.

use vstd::prelude::*;

use crate::auth::AuthUser;
use crate::db::NostrCacheEntry;
use crate::db::PushSubscription;
use crate::error::AppResult;
use crate::error::ErrorView;
use crate::json::string_table_text;
use crate::routes::chessa::FundingRequest;
use crate::routes::chessa::InvoicePayment;
use crate::routes::chessa::LightningPayRequest;
use crate::routes::chessa::OrderRequest;
use crate::routes::chessa::PayRequest;
use crate::routes::chessa::PayResponse;
use crate::routes::chessa::PayoutNote;
use crate::routes::chessa::QuoteRequest;
use crate::routes::chessa::QuoteTexts;
use crate::routes::chessa::RecipientRequest;
use crate::routes::chessa::chessa_post;
use crate::routes::chessa::create_quote;
use crate::routes::chessa::funding_request;
use crate::routes::chessa::invoice_payment;
use crate::routes::chessa::order_request;
use crate::routes::chessa::pay_lightning;
use crate::routes::chessa::pay_order;
use crate::routes::chessa::recipient_request;
use crate::routes::push::SubscribeRequest;
use crate::routes::push::UnsubscribeRequest;
use crate::routes::push::resubscribe;
use crate::routes::push::subscribe;
use crate::routes::push::unsubscribe;
use crate::routes::upload::Photo;
use crate::routes::upload::TagEntry;
use crate::routes::upload::UploadField;
use crate::routes::upload::UploadStep;
use crate::routes::upload::Uploaded;
use crate::routes::upload::first_host_replied;
use crate::routes::upload::is_file_field;
use crate::routes::upload::last_file;
use crate::routes::upload::link_in_reply;
use crate::routes::upload::second_host_replied;
use crate::routes::upload::upload_photo;
use crate::routes::ws::CallNotice;
use crate::routes::ws::Delivery;
use crate::routes::ws::Incoming;
use crate::routes::ws::RideMessage;
use crate::routes::ws::deliver;
use crate::routes::ws::handle_socket;
use crate::routes::ws::send_call_push;
use crate::services::nostr::RelayEvent;
use crate::services::nostr::index_again;
use crate::services::nostr::index_once;
use crate::services::push::PushService;
use crate::tags::all_tags;
use crate::tags::first_tag;
use crate::text::dec;
use crate::text::occurs_at;

verus! {

// ── Notifications ───────────────────────────────────────────────────────────

/// A subscription is the caller's, as asked for. Subscribing again at an endpoint hands it to
/// whoever asked last, and keeps its id and the time at which it was first entered.
pub proof fn law_endpoints_belong_to_the_last_subscriber(
    auth: AuthUser,
    body: SubscribeRequest,
    id: String,
    now: i64,
    new: PushSubscription,
    known: PushSubscription,
    r: PushSubscription,
)
    requires
        call_ensures(subscribe, (&auth, &body, id, now), new),
        call_ensures(resubscribe, (&known, &new), r),
    ensures
        new.id == id && new.npub@ == auth.npub@ && new.endpoint@ == body.endpoint@,
        new.p256dh@ == body.keys.p256dh@ && new.auth@ == body.keys.auth@,
        new.platform == body.platform && new.user_agent == body.user_agent,
        new.created_at == now && new.last_used == now,
        r.npub@ == auth.npub@,
        r.p256dh@ == body.keys.p256dh@ && r.auth@ == body.keys.auth@,
        r.id == known.id && r.endpoint == known.endpoint && r.created_at == known.created_at,
        r.last_used == now,
        body.platform is Some ==> r.platform == body.platform,
        body.platform is None ==> r.platform == known.platform,
        body.user_agent is Some ==> r.user_agent == body.user_agent,
        body.user_agent is None ==> r.user_agent == known.user_agent,
{
}

/// A subscription is ended by its own subscriber, and by nobody else.
pub proof fn law_subscribers_unsubscribe(
    auth: AuthUser,
    body: UnsubscribeRequest,
    row: PushSubscription,
    r: bool,
)
    requires
        call_ensures(unsubscribe, (&auth, &body, &row), r),
    ensures
        r <==> row.endpoint@ == body.endpoint@ && row.npub@ == auth.npub@,
{
}

/// A token says for which service it is, that it is good for 12 hours from now, and whose it
/// is; and it is what is signed.
pub proof fn law_tokens_are_good_for_half_a_day(
    service: PushService,
    scheme: &str,
    host: String,
    now: u64,
    claims: Seq<char>,
    input: Seq<char>,
    r: Result<String, String>,
)
    requires
        call_ensures(PushService::token_for, (&service, scheme, &Some(host), now), r),
        claims == "{\"aud\":"@ + crate::json::json_string(scheme@ + "://"@ + host@) + ",\"exp\":"@
            + dec(now + 12 * 60 * 60) + ",\"sub\":"@ + crate::json::json_string(
            service.vapid_subject@,
        ) + "}"@,
        input == crate::crypto::base64url_text(
            vstd::utf8::encode_utf8("{\"typ\":\"JWT\",\"alg\":\"ES256\"}"@),
        ) + "."@ + crate::crypto::base64url_text(vstd::utf8::encode_utf8(claims)),
    ensures
        r is Ok ==> (input + "."@).is_prefix_of(r->Ok_0@),
{
    if r is Ok {
        let lead = input + "."@;
        assert(lead =~= r->Ok_0@.subrange(0, lead.len() as int));
    }
}

/// A notification went out just where the service answered with a status from 200 to 299. The
/// header carries the token and the key.
pub proof fn law_notifications_that_went_out(
    service: PushService,
    token: &str,
    header: String,
    status: u16,
    text: &str,
    body: &str,
    r: Result<(), String>,
)
    requires
        call_ensures(PushService::authorization, (&service, token), header),
        call_ensures(PushService::send, (status, text, body), r),
    ensures
        r is Ok <==> 200 <= status <= 299,
        header@ == "vapid t="@ + token@ + ",k="@ + service.vapid_public_key@,
{
}

// ── Messages ────────────────────────────────────────────────────────────────

/// A ping is answered. A message is passed on as it is, under the sender's own key, whatever
/// the sender wrote there; what is no message is dropped.
pub proof fn law_messages_come_from_their_sender(
    before: Seq<char>,
    after: Seq<char>,
    text: &str,
    message: Option<RideMessage>,
    pubkey: &str,
    r: Incoming,
)
    requires
        call_ensures(handle_socket, (text, message, pubkey), r),
    ensures
        text@ == before + "\"ping\""@ + after ==> r is Pong,
        text@.len() < 6 ==> !(r is Pong),
        !(r is Pong) ==> (r is PassOn <==> message is Some),
        !(r is Pong) ==> (r is Drop <==> message is None),
        r matches Incoming::PassOn { message: m } ==> {
            &&& m.from@ == pubkey@
            &&& m.to@ == message->0.to@
            &&& m.msg_type@ == message->0.msg_type@
            &&& m.payload@ == message->0.payload@
            &&& m.caller_name == message->0.caller_name
        },
{
    reveal_strlit("\"ping\"");
    if text@ == before + "\"ping\""@ + after {
        let i = before.len() as int;
        assert(text@.subrange(i, i + "\"ping\""@.len()) =~= "\"ping\""@);
        assert(occurs_at(text@, "\"ping\""@, i));
    }
}

/// A message reaches a recipient who is there. A call to one who is not is told by a
/// notification, in the caller's name; no other message is.
pub proof fn law_missed_calls_are_told(
    message: RideMessage,
    there: bool,
    sender_there: bool,
    r: Delivery,
    to: &str,
    name: &str,
    notice: CallNotice,
)
    requires
        call_ensures(deliver, (&message, there, sender_there), r),
        call_ensures(send_call_push, (to, name), notice),
    ensures
        r.forward <==> there,
        r.confirm <==> sender_there,
        r.push_caller is Some <==> !there && message.msg_type@ == "ulendo-call-offer"@,
        r.push_caller is Some && message.caller_name is Some ==> r.push_caller->0@
            == message.caller_name->0@,
        r.push_caller is Some && message.caller_name is None ==> r.push_caller->0@ == "Someone"@,
        notice.body@ == name@ + " is calling you"@,
        notice.from@ == to@,
        notice.kind@ == "incoming_call"@,
        notice.require_interaction,
{
}

// ── Photos ──────────────────────────────────────────────────────────────────

/// The photo is the last field of the request that is named `file`, as it was sent, and is
/// refused just where there is none or it is larger than 10 MiB.
pub proof fn law_the_last_file_is_the_photo(
    fields: Vec<UploadField>,
    i: int,
    r: AppResult<Photo>,
)
    requires
        call_ensures(upload_photo, (&fields,), r),
    ensures
        0 <= i < fields@.len() && fields@[i].name is Some && fields@[i].name->0@ == "file"@ && (
        forall|j: int|
            i < j < fields@.len() ==> (#[trigger] fields@[j]).name is Some && fields@[j].name->0@
                != "file"@) ==> {
            &&& r is Ok <==> fields@[i].data@.len() <= 10 * 1024 * 1024
            &&& r is Ok ==> r->Ok_0.data@ == fields@[i].data@
            &&& r is Ok && fields@[i].content_type is Some ==> r->Ok_0.mime@
                == fields@[i].content_type->0@
            &&& r is Ok && fields@[i].content_type is None ==> r->Ok_0.mime@ == "image/jpeg"@
        },
        (forall|j: int|
            0 <= j < fields@.len() ==> (#[trigger] fields@[j]).name is Some && fields@[j].name->0@
                != "file"@) ==> r is Err,
        r is Err ==> r->Err_0@ is BadRequest,
        r is Ok ==> r->Ok_0.file_name@ == "ulendo."@ + "png"@ || r->Ok_0.file_name@ == "ulendo."@
            + "jpg"@,
        r is Ok && r->Ok_0.mime@ == "image/png"@ ==> r->Ok_0.file_name@ == "ulendo."@ + "png"@,
        r is Ok && r->Ok_0.mime@ == "image/jpeg"@ ==> r->Ok_0.file_name@ == "ulendo."@ + "jpg"@,
{
    if 0 <= i < fields@.len() && fields@[i].name is Some && fields@[i].name->0@ == "file"@ && (
    forall|j: int|
        i < j < fields@.len() ==> (#[trigger] fields@[j]).name is Some && fields@[j].name->0@
            != "file"@) {
        lemma_last_file(fields@, i);
    }
    if forall|j: int|
        0 <= j < fields@.len() ==> (#[trigger] fields@[j]).name is Some && fields@[j].name->0@
            != "file"@ {
        lemma_no_file(fields@);
    }
    reveal_strlit("png");
    reveal_strlit("image/png");
    reveal_strlit("image/jpeg");
    let p = "image/png"@;
    assert(p.subrange(6, 9) =~= "png"@);
    assert(occurs_at(p, "png"@, 6));
    let j = "image/jpeg"@;
    assert forall|k: int| !#[trigger] occurs_at(j, "png"@, k) by {
        if occurs_at(j, "png"@, k) {
            let part = j.subrange(k, k + 3);
            assert(part[0] == 'p' && part[1] == 'n');
            assert(part[0] == j[k] && part[1] == j[k + 1]);
        }
    }
}

proof fn lemma_last_file(fields: Seq<UploadField>, i: int)
    requires
        0 <= i < fields.len(),
        fields[i].name is Some && fields[i].name->0@ == "file"@,
        forall|j: int|
            i < j < fields.len() ==> (#[trigger] fields[j]).name is Some && fields[j].name->0@
                != "file"@,
    ensures
        last_file(fields) == Some(i),
    decreases fields.len(),
{
    if i < fields.len() - 1 {
        assert(fields[fields.len() - 1].name->0@ != "file"@);
        let front = fields.drop_last();
        assert forall|j: int| i < j < front.len() implies (#[trigger] front[j]).name is Some
            && front[j].name->0@ != "file"@ by {
            assert(front[j] == fields[j]);
        }
        lemma_last_file(front, i);
    }
}

proof fn lemma_no_file(fields: Seq<UploadField>)
    requires
        forall|j: int|
            0 <= j < fields.len() ==> (#[trigger] fields[j]).name is Some && fields[j].name->0@
                != "file"@,
    ensures
        last_file(fields) is None,
    decreases fields.len(),
{
    if fields.len() > 0 {
        assert(fields[fields.len() - 1].name->0@ != "file"@);
        let front = fields.drop_last();
        assert forall|j: int| 0 <= j < front.len() implies (#[trigger] front[j]).name is Some
            && front[j].name->0@ != "file"@ by {
            assert(front[j] == fields[j]);
        }
        lemma_no_file(front);
    }
}

/// A field is the file just where it is named so.
pub proof fn law_files_are_named(name: Option<String>, r: bool)
    requires
        call_ensures(is_file_field, (&name,), r),
    ensures
        r <==> name is Some && name->0@ == "file"@,
{
    reveal_strlit("");
    reveal_strlit("file");
    assert(""@.len() != "file"@.len());
}

/// A link is taken from either host just where it is a secure one, as it is. The second host is
/// asked only where the first brought none.
pub proof fn law_links_are_secure(
    rest: Seq<char>,
    link: Option<&str>,
    first: UploadStep,
    second: AppResult<Uploaded>,
)
    requires
        call_ensures(first_host_replied, (link,), first),
        call_ensures(second_host_replied, (link,), second),
    ensures
        link is Some && link->0@ == "https://"@ + rest ==> first is Done && second is Ok,
        link is None ==> first is AskSecondHost && second is Err,
        first is Done <==> second is Ok,
        first matches UploadStep::Done { answer } ==> link is Some && answer.url@ == link->0@
            && "https://"@.is_prefix_of(answer.url@) && answer.provider@ == "imgur"@,
        second is Ok ==> link is Some && second->Ok_0.url@ == link->0@ && "https://"@.is_prefix_of(
            second->Ok_0.url@,
        ) && second->Ok_0.provider@ == "nostr.build"@,
        second is Err ==> second->Err_0@ == ErrorView::BadRequest("all upload providers failed"@),
{
    if link is Some && link->0@ == "https://"@ + rest {
        let lead = "https://"@;
        assert(lead =~= link->0@.subrange(0, lead.len() as int));
    }
}

/// The link in a reply is the one that its first tag named `url` holds, or else the one beside
/// the tags.
pub proof fn law_the_url_tag_holds_the_link(
    tags: Vec<Vec<TagEntry>>,
    beside: Option<String>,
    i: int,
    r: Option<String>,
)
    requires
        call_ensures(link_in_reply, (&tags, &beside), r),
    ensures
        0 <= i < tags@.len() && tags@[i]@.len() > 1 && tags@[i]@[0].deep_view() == Some("url"@)
            && tags@[i]@[1] is Some && (forall|j: int|
            0 <= j < i ==> (#[trigger] tags@[j])@.len() == 0 || tags@[j]@[0].deep_view() != Some(
                "url"@,
            )) ==> r is Some && r->0@ == tags@[i]@[1]->0@,
        tags@.len() == 0 ==> r.deep_view() == beside.deep_view(),
{
    if 0 <= i < tags@.len() && tags@[i]@.len() > 1 && tags@[i]@[0].deep_view() == Some("url"@)
        && tags@[i]@[1] is Some && (forall|j: int|
        0 <= j < i ==> (#[trigger] tags@[j])@.len() == 0 || tags@[j]@[0].deep_view() != Some(
            "url"@,
        )) {
        lemma_url_tag(tags@, i);
    }
}

proof fn lemma_url_tag(tags: Seq<Vec<TagEntry>>, i: int)
    requires
        0 <= i < tags.len(),
        tags[i]@.len() > 1,
        tags[i]@[0].deep_view() == Some("url"@),
        forall|j: int|
            0 <= j < i ==> (#[trigger] tags[j])@.len() == 0 || tags[j]@[0].deep_view() != Some(
                "url"@,
            ),
    ensures
        crate::routes::upload::url_tag(tags) == tags[i]@[1].deep_view(),
    decreases tags.len(),
{
    if i > 0 {
        let rest = tags.skip(1);
        assert(tags[0]@.len() == 0 || tags[0]@[0].deep_view() != Some("url"@));
        assert(rest[i - 1] == tags[i]);
        assert forall|j: int| 0 <= j < i - 1 implies (#[trigger] rest[j])@.len() == 0
            || rest[j]@[0].deep_view() != Some("url"@) by {
            assert(rest[j] == tags[j + 1]);
        }
        lemma_url_tag(rest, i - 1);
    }
}

// ── Relays ──────────────────────────────────────────────────────────────────

/// An event from a relay is kept as it is, with the time at which it was seen. Seen again, its
/// contents are those seen last, and everything else stays.
pub proof fn law_events_are_kept_as_seen(
    event: RelayEvent,
    now: i64,
    seen: NostrCacheEntry,
    known: NostrCacheEntry,
    r: NostrCacheEntry,
    d: Option<&String>,
    t: Vec<String>,
    table: String,
)
    requires
        call_ensures(first_tag, (&event.tags, "d"), d),
        call_ensures(all_tags, (&event.tags, "t"), t),
        call_ensures(string_table_text, (&event.tags,), table),
        call_ensures(index_once, (&event, now), seen),
        call_ensures(index_again, (&known, &seen), r),
    ensures
        seen.event_id@ == event.id@ && seen.pubkey@ == event.pubkey@,
        seen.kind == event.kind,
        seen.content@ == event.content@,
        seen.d_tag is Some <==> d is Some,
        d is Some ==> seen.d_tag->0@ == d->0@,
        crate::json::listed_in(seen.t_tags@) == t.deep_view(),
        seen.tags_json@ == table@,
        event.created_at <= i64::MAX ==> seen.created_at == event.created_at,
        seen.indexed_at == now,
        r.content@ == event.content@ && r.tags_json == seen.tags_json && r.indexed_at == now,
        r.event_id == known.event_id && r.pubkey == known.pubkey && r.kind == known.kind,
        r.d_tag == known.d_tag && r.t_tags == known.t_tags,
        r.created_at == known.created_at,
{
}

// ── Payouts in kwacha ───────────────────────────────────────────────────────

/// A payout in kwacha is ordered for the fare, to the phone and the network that were named,
/// and under the booking.
pub proof fn law_payouts_are_ordered_as_asked(
    req: QuoteRequest,
    id: Option<String>,
    order_id: Option<String>,
    expires: Option<String>,
    recipient: RecipientRequest,
    order: OrderRequest,
    quote: QuoteTexts,
)
    requires
        call_ensures(recipient_request, (&req,), recipient),
        call_ensures(order_request, (&req, &id), order),
        call_ensures(create_quote, (&req, &id, &order_id, &expires), quote),
    ensures
        recipient.phone_number@ == req.phone@ && recipient.provider@ == req.network@,
        recipient.first_name@ == req.first_name@ && recipient.last_name@ == req.last_name@,
        recipient.currency@ == "MWK"@ && recipient.country@ == "MW"@,
        recipient.payout_method@ == "mobile_money"@,
        order.source_sats == req.fare_sats,
        order.source_currency@ == "BTC"@ && order.destination_currency@ == "MWK"@,
        order.memo@ == "Ulendo ride payout booking "@ + req.booking_id@,
        id is Some ==> order.recipient_id@ == id->0@ && quote.recipient_id@ == id->0@,
        order_id is Some ==> quote.order_id@ == order_id->0@,
        id is None ==> order.recipient_id@ == ""@ && quote.recipient_id@ == ""@,
        order_id is None ==> quote.order_id@ == ""@,
        expires is None ==> quote.quote_expires_at@ == ""@,
        recipient.path@ == "/v1/recipient"@ && order.path@ == "/v1/orders"@,
        expires is Some ==> quote.quote_expires_at@ == expires->0@,
        req.network@ == "airtel_mw"@ ==> quote.network_label@ == "Airtel Money"@,
        req.network@ == "tnm_mpamba"@ ==> quote.network_label@ == "TNM Mpamba"@,
        req.network@ != "airtel_mw"@ && req.network@ != "tnm_mpamba"@ ==> quote.network_label@
            == req.network@,
{
    reveal_strlit("airtel_mw");
    reveal_strlit("tnm_mpamba");
    assert("airtel_mw"@.len() != "tnm_mpamba"@.len());
}

/// An order is paid at the invoice that came for it, or else at the address that did, and that
/// is what is noted and answered. The wallet pays just the invoice that was brought.
pub proof fn law_orders_are_paid_at_their_invoice(
    req: PayRequest,
    invoice: Option<String>,
    crypto: Option<String>,
    r: (PayoutNote, PayResponse),
    funding: FundingRequest,
    pay: LightningPayRequest,
    wallet: Option<String>,
    payment: InvoicePayment,
)
    requires
        call_ensures(pay_order, (&req, &invoice, &crypto), r),
        call_ensures(funding_request, (&req,), funding),
        call_ensures(invoice_payment, (&pay, &wallet), payment),
    ensures
        r.0.booking_id@ == req.booking_id@ && r.0.chessa_order_id@ == req.order_id@,
        r.1.order_id@ == req.order_id@ && r.1.status@ == "pending"@,
        r.0.payout_choice@ == "kwacha"@,
        r.1.crypto_address@ == r.0.chessa_crypto_address@,
        invoice is Some && invoice->0@.len() > 0 ==> r.1.crypto_address@ == invoice->0@,
        (invoice is None || invoice->0@.len() == 0) && crypto is Some ==> r.1.crypto_address@
            == crypto->0@,
        (invoice is None || invoice->0@.len() == 0) && crypto is None
            ==> r.1.crypto_address@.len() == 0,
        funding.order_id@ == req.order_id@ && funding.network@ == "lightning"@ && funding.token@
            == "BTC"@,
        payment.payment_request@ == pay.invoice@,
        wallet is Some ==> payment.wallet_id@ == wallet->0@,
        wallet is None ==> payment.wallet_id@ == ""@,
        payment.memo@ == "Chessa MWK payout — booking "@ + pay.booking_id@,
        funding.path@ == "/v1/orders/funding"@,
{
    reveal_strlit("");
}

/// What the other side refuses is refused, with its own words where it has any; the status of a
/// payment that it took is told.
pub proof fn law_refused_payouts_are_refused(
    success: bool,
    message: Option<String>,
    posted: AppResult<()>,
    errors: Vec<Option<String>>,
    status: Option<String>,
    paid: AppResult<String>,
)
    requires
        call_ensures(chessa_post, (success, &message), posted),
        call_ensures(pay_lightning, (&errors, &status), paid),
    ensures
        posted is Ok <==> success,
        paid is Ok <==> errors@.len() == 0,
        paid is Ok && status is Some ==> paid->Ok_0@ == status->0@,
        paid is Ok && status is None ==> paid->Ok_0@ == "UNKNOWN"@,
        posted is Err && message is Some ==> posted->Err_0@ == ErrorView::BadRequest(message->0@),
        posted is Err && message is None ==> posted->Err_0@ == ErrorView::BadRequest(
            "Chessa error"@,
        ),
        paid is Err && errors@[0] is Some ==> paid->Err_0@ == ErrorView::BadRequest(errors@[0]->0@),
        paid is Err && errors@[0] is None ==> paid->Err_0@ == ErrorView::BadRequest(
            "Blink payment error"@,
        ),
{
}

} // verus!

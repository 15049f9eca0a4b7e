//! What names, identities, ratings, verifications and listings come to.

use vstd::prelude::*;

use crate::auth::AuthUser;
use crate::db::Identity;
use crate::db::Listing;
use crate::error::AppResult;
use crate::error::ErrorView;
use crate::routes::escrow::InvoiceOrder;
use crate::routes::identities::NewIdentity;
use crate::routes::identities::UpsertIdentityRequest;
use crate::routes::identities::ensure_identity_exists;
use crate::routes::identities::get_by_npub;
use crate::routes::identities::merge;
use crate::routes::identities::upsert;
use crate::routes::listings::CreateListingRequest;
use crate::routes::listings::ListQuery;
use crate::routes::listings::ListingPatch;
use crate::routes::listings::Page;
use crate::routes::listings::UpdateListingRequest;
use crate::routes::listings::create;
use crate::routes::listings::get_one;
use crate::routes::listings::list;
use crate::routes::listings::page;
use crate::routes::listings::remove;
use crate::routes::listings::update;
use crate::routes::names::CheckNameQuery;
use crate::routes::names::NameCheck;
use crate::routes::names::NameFound;
use crate::routes::names::NameOfKey;
use crate::routes::names::NameReport;
use crate::routes::names::NameRow;
use crate::routes::names::Nip05Query;
use crate::routes::names::RegisterNameRequest;
use crate::routes::names::RegisterNameResponse;
use crate::routes::names::address;
use crate::routes::names::check_lowercase;
use crate::routes::names::check_username;
use crate::routes::names::directory;
use crate::routes::names::get_name_by_pubkey;
use crate::routes::names::is_valid_username;
use crate::routes::names::name_found;
use crate::routes::names::name_report;
use crate::routes::names::register_lowercase;
use crate::routes::names::register_name;
use crate::routes::names::registered;
use crate::routes::names::well_known_nostr_json;
use crate::routes::ratings::DriverTotals;
use crate::routes::ratings::LeaderboardQuery;
use crate::routes::ratings::LeaderboardSearch;
use crate::routes::ratings::RatingRow;
use crate::routes::ratings::SubmitRatingInput;
use crate::routes::ratings::Tally;
use crate::routes::ratings::add_earning;
use crate::routes::ratings::driver_dashboard;
use crate::routes::ratings::leaderboard;
use crate::routes::ratings::submit_rating;
use crate::routes::relay::RelaySearchQuery;
use crate::routes::relay::search_listings;
use crate::routes::verify::CreateVerifyInvoiceRequest;
use crate::routes::verify::CreateVerifyInvoiceResponse;
use crate::routes::verify::Verification;
use crate::routes::verify::check_invoice;
use crate::routes::verify::create_invoice;
use crate::services::blink::InvoiceResult;

verus! {

// ── Names ───────────────────────────────────────────────────────────────────

/// A name has from 2 to 30 characters, each of them a small letter, a digit, an underscore, a
/// dot or a hyphen, and every such text is a name.
pub proof fn law_names(s: &str, r: bool)
    requires
        call_ensures(is_valid_username, (s,), r),
    ensures
        r <==> 2 <= s@.len() <= 30 && (forall|i: int|
            0 <= i < s@.len() ==> ('a' <= #[trigger] s@[i] <= 'z') || ('0' <= s@[i] <= '9')
                || s@[i] == '_' || s@[i] == '.' || s@[i] == '-'),
{
}

/// A name stays one when characters are taken off its end, down to two, and two names in a
/// row are one as long as they are not longer than 30.
pub proof fn law_parts_of_names(
    s: &str,
    a: &str,
    b: &str,
    whole: bool,
    of_a: bool,
    of_b: bool,
)
    requires
        call_ensures(is_valid_username, (s,), whole),
        call_ensures(is_valid_username, (a,), of_a),
        call_ensures(is_valid_username, (b,), of_b),
        s@ == a@ + b@,
    ensures
        whole && a@.len() >= 2 ==> of_a,
        of_a && of_b && s@.len() <= 30 ==> whole,
{
    if whole && a@.len() >= 2 {
        assert forall|i: int| 0 <= i < a@.len() implies crate::routes::names::is_name_char(
            #[trigger] a@[i],
        ) by {
            assert(a@[i] == s@[i]);
        }
    }
    if of_a && of_b {
        assert forall|i: int| 0 <= i < s@.len() implies crate::routes::names::is_name_char(
            #[trigger] s@[i],
        ) by {
            if i < a@.len() {
                assert(s@[i] == a@[i]);
            } else {
                assert(s@[i] == b@[i - a@.len()]);
            }
        }
    }
}

/// The address of a name is the name at `ulendo.app`: two names never share one.
pub proof fn law_addresses_tell_the_name(a: &str, b: &str, of_a: String, of_b: String)
    requires
        call_ensures(address, (a,), of_a),
        call_ensures(address, (b,), of_b),
    ensures
        of_a@ == a@ + "@ulendo.app"@,
        of_a@ == of_b@ ==> a@ == b@,
{
    if of_a@ == of_b@ {
        assert(of_a@.len() == a@.len() + "@ulendo.app"@.len());
        assert(of_b@.len() == b@.len() + "@ulendo.app"@.len());
        assert(a@ =~= of_a@.take(a@.len() as int));
        assert(b@ =~= of_b@.take(b@.len() as int));
    }
}

/// A name can be asked about just where it is one, and is free just where nobody has it.
pub proof fn law_free_names(
    username: String,
    text: &str,
    valid: bool,
    r: NameCheck,
    taken: i64,
    report: NameReport,
)
    requires
        call_ensures(is_valid_username, (text,), valid),
        text@ == username@,
        call_ensures(check_lowercase, (username,), r),
        call_ensures(name_report, (username, taken), report),
    ensures
        r is Ask <==> valid,
        r matches NameCheck::Ask { username: asked } ==> asked@ == username@,
        report.available <==> taken == 0,
        report.username@ == username@,
        report.nip05@ == username@ + "@ulendo.app"@,
        report.lud16@ == username@ + "@ulendo.app"@,
{
}

/// A name is registered for the caller's own key and for no other, and is refused just where
/// another key has it: whoever has a name keeps it.
pub proof fn law_names_are_registered_for_their_key(
    auth: AuthUser,
    username: String,
    text: &str,
    req: RegisterNameRequest,
    valid: bool,
    r: AppResult<NameRow>,
    existing: Option<String>,
    done: AppResult<RegisterNameResponse>,
)
    requires
        call_ensures(is_valid_username, (text,), valid),
        text@ == username@,
        call_ensures(register_lowercase, (&auth, username, &req), r),
        r is Ok ==> call_ensures(registered, (&r->Ok_0, &existing), done),
    ensures
        r is Ok <==> valid && req.pubkey_hex@ == auth.public_key@,
        !valid ==> r->Err_0@ == ErrorView::BadRequest(
            "Invalid username: 2-30 chars, a-z 0-9 _ . - only"@,
        ),
        valid && r is Err ==> r->Err_0@ == ErrorView::Unauthorized(
            "pubkey_hex must match your authenticated key"@,
        ),
        r is Ok ==> {
            &&& r->Ok_0.username@ == username@
            &&& r->Ok_0.pubkey_hex@ == auth.public_key@
            &&& req.relays is Some ==> crate::json::listed_in(r->Ok_0.relays_json@)
                == req.relays->0.deep_view()
            &&& req.relays is None ==> crate::json::listed_in(r->Ok_0.relays_json@).len() == 0
            &&& done is Ok <==> (existing is Some ==> existing->0@ == auth.public_key@)
            &&& done is Err ==> done->Err_0@ == ErrorView::Conflict("Username already taken"@)
            &&& done is Ok ==> done->Ok_0.username@ == username@ && done->Ok_0.nip05@ == username@
                + "@ulendo.app"@ && done->Ok_0.lud16@ == username@ + "@ulendo.app"@
        },
{
}

/// Names are looked up, checked and registered in lower case: what is asked for in any case is
/// treated just like the same in lower case.
pub proof fn law_names_are_taken_in_lower_case(
    auth: AuthUser,
    lower: String,
    query: Nip05Query,
    looked_up: Option<String>,
    params: CheckNameQuery,
    asked: NameCheck,
    checked: NameCheck,
    req: RegisterNameRequest,
    entered: AppResult<NameRow>,
    registered_lower: AppResult<NameRow>,
)
    requires
        lower@ == crate::routes::names::lowercase_of(params.username@),
        lower@ == crate::routes::names::lowercase_of(req.username@),
        query.name is Some ==> lower@ == crate::routes::names::lowercase_of(query.name->0@),
        call_ensures(well_known_nostr_json, (&query,), looked_up),
        call_ensures(check_username, (&params,), asked),
        call_ensures(check_lowercase, (lower,), checked),
        call_ensures(register_name, (&auth, &req), entered),
        call_ensures(register_lowercase, (&auth, lower, &req), registered_lower),
    ensures
        looked_up is Some <==> query.name is Some,
        looked_up is Some ==> looked_up->0@ == lower@,
        asked is Ask <==> checked is Ask,
        asked matches NameCheck::Ask { username } ==> username@ == lower@,
        entered is Ok <==> registered_lower is Ok,
        entered is Err ==> entered->Err_0@ == registered_lower->Err_0@,
        entered is Ok ==> {
            &&& entered->Ok_0.username@ == lower@
            &&& entered->Ok_0.pubkey_hex@ == registered_lower->Ok_0.pubkey_hex@
            &&& entered->Ok_0.relays_json@ == registered_lower->Ok_0.relays_json@
        },
{
}

/// The directory has each name once, and under it the key of the last row with that name;
/// every row's name is there.
pub proof fn law_the_directory_has_every_name_once(
    rows: Vec<(Option<String>, String)>,
    r: Vec<(String, String)>,
    i: int,
    j: int,
    k: int,
)
    requires
        call_ensures(directory, (&rows,), r),
        0 <= k < rows@.len(),
        rows@[k].0 is Some,
    ensures
        0 <= i < j < r@.len() ==> r@[i].0@ != r@[j].0@,
        exists|m: int| 0 <= m < r@.len() && (#[trigger] r@[m]).0@ == rows@[k].0->0@,
        0 <= i < r@.len() && r@[i].0@ == rows@[k].0->0@ && (forall|n: int|
            k < n < rows@.len() ==> (#[trigger] rows@[n]).0 is Some && rows@[n].0->0@
                != rows@[k].0->0@) ==> r@[i].1@ == rows@[k].1@,
{
    let name = rows@[k].0->0@;
    let map = crate::routes::names::directory_of(rows@);
    lemma_directory_has(rows@, k);
    assert(map.contains_key(name));
    if 0 <= i < r@.len() && r@[i].0@ == name && (forall|n: int|
        k < n < rows@.len() ==> (#[trigger] rows@[n]).0 is Some && rows@[n].0->0@ != name) {
        lemma_directory_is_last(rows@, k);
        assert(map[r@[i].0@] == r@[i].1@);
    }
}

proof fn lemma_directory_has(rows: Seq<(Option<String>, String)>, k: int)
    requires
        0 <= k < rows.len(),
        rows[k].0 is Some,
    ensures
        crate::routes::names::directory_of(rows).contains_key(rows[k].0->0@),
    decreases rows.len(),
{
    if k < rows.len() - 1 {
        assert(rows.drop_last()[k] == rows[k]);
        lemma_directory_has(rows.drop_last(), k);
    }
}

proof fn lemma_directory_is_last(rows: Seq<(Option<String>, String)>, k: int)
    requires
        0 <= k < rows.len(),
        rows[k].0 is Some,
        forall|n: int|
            k < n < rows.len() ==> (#[trigger] rows[n]).0 is Some && rows[n].0->0@
                != rows[k].0->0@,
    ensures
        crate::routes::names::directory_of(rows)[rows[k].0->0@] == rows[k].1@,
    decreases rows.len(),
{
    if k < rows.len() - 1 {
        let front = rows.drop_last();
        assert(front[k] == rows[k]);
        assert(rows[rows.len() - 1].0->0@ != rows[k].0->0@);
        lemma_directory_is_last(front, k);
        lemma_directory_has(front, k);
    }
}

/// A name that is found is told with its key, and with its relays where it has any. A key is
/// told its name and the address of it.
pub proof fn law_found_names(
    lookup: &str,
    key: &str,
    relays: &str,
    r: NameFound,
    row: Option<Option<String>>,
    of_key: Option<NameOfKey>,
)
    requires
        call_ensures(name_found, (lookup, key, relays), r),
        call_ensures(get_name_by_pubkey, (row,), of_key),
    ensures
        r.name@ == lookup@ && r.pubkey_hex@ == key@,
        r.relays is Some <==> crate::json::listed_in(relays@).len() > 0,
        r.relays is Some ==> r.relays->0.deep_view() == crate::json::listed_in(relays@),
        of_key is Some <==> row is Some,
        of_key is Some ==> of_key->0.username == row->0,
        row matches Some(Some(name)) ==> of_key->0.nip05@ == name@ + "@ulendo.app"@
            && of_key->0.lud16@ == name@ + "@ulendo.app"@,
        row == Some(None::<String>) ==> of_key->0.nip05@ == "unknown"@ + "@ulendo.app"@
            && of_key->0.lud16@ == "unknown"@ + "@ulendo.app"@,
{
    if r.relays is Some {
        assert(r.relays->0.deep_view().len() == r.relays->0@.len());
    }
}

// ── Identities ──────────────────────────────────────────────────────────────

/// An identity is the caller's own, a visitor unless a merchant is asked for, and of no other
/// role. What is asked for replaces what was known; what is not asked for stays, and so does
/// the key.
pub proof fn law_identities_are_ones_own(
    auth: AuthUser,
    body: UpsertIdentityRequest,
    now: i64,
    r: AppResult<Identity>,
    known: Identity,
    merged: Identity,
)
    requires
        call_ensures(upsert, (&auth, &body, now), r),
        r is Ok ==> call_ensures(merge, (&known, &r->Ok_0), merged),
    ensures
        r is Ok <==> (body.role is Some ==> body.role->0@ == "visitor"@ || body.role->0@
            == "merchant"@),
        r is Err ==> r->Err_0@ == ErrorView::BadRequest("role must be visitor or merchant"@),
        r is Ok ==> {
            let row = r->Ok_0;
            &&& row.npub@ == auth.npub@ && row.public_key@ == auth.public_key@
            &&& body.role is Some ==> row.role@ == body.role->0@
            &&& body.role is None ==> row.role@ == "visitor"@
            &&& row.name == body.name && row.lud16 == body.lud16
            &&& row.created_at == now && row.updated_at == now
            &&& merged.npub == known.npub && merged.public_key == known.public_key
            &&& merged.created_at == known.created_at && merged.updated_at == now
            &&& merged.role == row.role
            &&& body.name is Some ==> merged.name == body.name
            &&& body.name is None ==> merged.name == known.name
            &&& body.lud16 is Some ==> merged.lud16 == body.lud16
            &&& body.lud16 is None ==> merged.lud16 == known.lud16
        },
{
}

/// An identity is entered just where there was none, for the caller's own keys.
pub proof fn law_missing_identities_are_entered(
    auth: AuthUser,
    exists_already: bool,
    now: i64,
    r: Option<NewIdentity>,
    found: Option<Identity>,
    npub: &str,
    got: AppResult<Identity>,
)
    requires
        call_ensures(ensure_identity_exists, (&auth, exists_already, now), r),
        call_ensures(get_by_npub, (found, npub), got),
    ensures
        r is Some <==> !exists_already,
        r is Some ==> r->0.npub@ == auth.npub@ && r->0.public_key@ == auth.public_key@
            && r->0.created_at == now && r->0.updated_at == now,
        got is Ok <==> found is Some,
        found is Some ==> got->Ok_0 == found->0,
        found is None ==> got->Err_0@ == ErrorView::NotFound("identity "@ + npub@ + " not found"@),
{
}

// ── Ratings ─────────────────────────────────────────────────────────────────

/// A ride is rated once, with 1 to 5, in the name of the caller and for the driver named.
pub proof fn law_ratings_are_one_to_five(
    auth: AuthUser,
    body: SubmitRatingInput,
    already: bool,
    id: String,
    now: i64,
    r: AppResult<RatingRow>,
)
    requires
        call_ensures(submit_rating, (&auth, &body, already, id, now), r),
    ensures
        r is Ok <==> 1 <= body.score <= 5 && !already,
        !(1 <= body.score <= 5) ==> r->Err_0@ == ErrorView::BadRequest("Score must be 1-5"@),
        1 <= body.score <= 5 && already ==> r->Err_0@ == ErrorView::BadRequest("Already rated"@),
        r is Ok ==> {
            let row = r->Ok_0;
            &&& row.id == id
            &&& row.ride_id@ == body.ride_id@
            &&& row.driver_pubkey@ == body.driver_pubkey@
            &&& row.rider_pubkey@ == auth.public_key@
            &&& row.score == body.score
            &&& body.comment is Some ==> row.comment@ == body.comment->0@
            &&& body.comment is None ==> row.comment@ == ""@
            &&& body.category is Some ==> row.category@ == body.category->0@
            &&& body.category is None ==> row.category@ == "city"@
            &&& row.created_at == now
        },
{
}

/// A rating adds one to the count and its score to the sum, so that the average stays between
/// 1 and 5; the order in which two ratings come does not matter.
pub proof fn law_ratings_add_up(
    known: Option<Tally>,
    a: i64,
    b: i64,
    with_a: Option<Tally>,
    with_ab: Option<Tally>,
    with_b: Option<Tally>,
    with_ba: Option<Tally>,
)
    requires
        1 <= a <= 5,
        1 <= b <= 5,
        known is Some ==> 0 <= known->0.total_ratings <= known->0.sum_scores <= 5
            * known->0.total_ratings,
        call_ensures(Tally::with, (known, a), with_a),
        call_ensures(Tally::with, (known, b), with_b),
        with_a is Some ==> call_ensures(Tally::with, (with_a, b), with_ab),
        with_b is Some ==> call_ensures(Tally::with, (with_b, a), with_ba),
    ensures
        known is None ==> with_a is Some && with_a->0.total_ratings == 1 && with_a->0.sum_scores
            == a,
        known is Some && with_a is Some ==> {
            &&& with_a->0.total_ratings - known->0.total_ratings == 1
            &&& with_a->0.sum_scores - known->0.sum_scores == a
        },
        known is Some && known->0.sum_scores + a <= i64::MAX ==> with_a is Some,
        with_a is Some ==> with_a->0.total_ratings <= with_a->0.sum_scores <= 5
            * with_a->0.total_ratings,
        with_a is Some && with_ab is Some && with_b is Some && with_ba is Some ==> with_ab
            == with_ba,
{
}

/// The board shows 20 drivers unless another number is asked for. A driver's totals are what is
/// kept, and zero before the first ride; a payment adds one ride and its sats, and nothing else.
pub proof fn law_totals_count_rides_and_sats(
    q: LeaderboardQuery,
    board: LeaderboardSearch,
    kept: Option<DriverTotals>,
    shown: DriverTotals,
    sats: i64,
    after: Option<DriverTotals>,
)
    requires
        call_ensures(leaderboard, (&q,), board),
        call_ensures(driver_dashboard, (kept,), shown),
        call_ensures(add_earning, (shown, sats), after),
    ensures
        q.limit is Some ==> board.limit == q.limit->0,
        q.limit is None ==> board.limit == 20,
        q.category is Some ==> board.category@ == q.category->0@,
        q.category is None ==> board.category@ == ""@,
        kept is Some ==> shown == kept->0,
        kept is None ==> shown.total_rides == 0 && shown.total_ratings == 0
            && shown.total_earned_sats == 0 && shown.total_earned_mwk == 0,
        after is Some ==> {
            &&& after->0.total_rides - shown.total_rides == 1
            &&& after->0.total_earned_sats - shown.total_earned_sats == sats
            &&& after->0.total_ratings == shown.total_ratings
            &&& after->0.total_earned_mwk == shown.total_earned_mwk
        },
        0 <= shown.total_rides < i64::MAX && i64::MIN <= shown.total_earned_sats + sats <= i64::MAX
            ==> after is Some,
{
}

// ── Verification ────────────────────────────────────────────────────────────

/// The three tiers cost 6,000, 12,000 and 27,000 sats, and there is no other. The invoice is
/// for that price, and is what is answered.
pub proof fn law_tiers_have_their_price(
    body: CreateVerifyInvoiceRequest,
    begun: AppResult<Verification>,
    order: &InvoiceOrder,
    reply: Result<InvoiceResult, String>,
    done: AppResult<CreateVerifyInvoiceResponse>,
    said: Result<bool, String>,
    paid: AppResult<bool>,
)
    requires
        call_ensures(create_invoice, (&body,), begun),
        begun is Ok ==> call_ensures(Verification::invoice, (&begun->Ok_0,), order),
        begun is Ok ==> call_ensures(Verification::invoiced, (begun->Ok_0, reply), done),
        call_ensures(check_invoice, (said,), paid),
    ensures
        begun is Ok <==> body.tier@ == "silver"@ || body.tier@ == "gold"@ || body.tier@
            == "orange"@,
        begun is Err ==> begun->Err_0@ == ErrorView::BadRequest("invalid tier"@),
        begun is Ok ==> {
            &&& body.tier@ == "silver"@ ==> order.amount_sats == 6_000
            &&& body.tier@ == "gold"@ ==> order.amount_sats == 12_000
            &&& body.tier@ == "orange"@ ==> order.amount_sats == 27_000
            &&& order.memo@ == "Ulendo "@ + body.tier@ + " verification for "@ + body.npub@
            &&& done is Ok <==> reply is Ok
            &&& done is Err ==> done->Err_0@ == ErrorView::BadRequest(reply->Err_0@)
            &&& done is Ok ==> {
                &&& done->Ok_0.sats == order.amount_sats
                &&& done->Ok_0.tier@ == body.tier@
                &&& done->Ok_0.payment_request == reply->Ok_0.payment_request
                &&& done->Ok_0.payment_hash == reply->Ok_0.payment_hash
            }
        },
        paid is Ok <==> said is Ok,
        said is Ok ==> paid->Ok_0 == said->Ok_0,
        said is Err ==> paid->Err_0@ == ErrorView::BadRequest(said->Err_0@),
{
    reveal_strlit("silver");
    reveal_strlit("gold");
    reveal_strlit("orange");
    assert("silver"@[0] == 's');
    assert("gold"@[0] == 'g');
    assert("orange"@[0] == 'o');
}

// ── Listings ────────────────────────────────────────────────────────────────

/// A page has as many entries as are asked for, up to 200, and 50 where nothing is said; it
/// starts where it is asked to, or at the beginning.
pub proof fn law_pages_have_two_hundred_entries_at_most(
    q: ListQuery,
    s: RelaySearchQuery,
    limit: Option<i64>,
    offset: Option<i64>,
    p: Page,
    of_list: Page,
    of_search: Page,
)
    requires
        call_ensures(page, (limit, offset), p),
        call_ensures(list, (&q,), of_list),
        call_ensures(search_listings, (&s,), of_search),
        q.limit == limit && q.offset == offset,
        s.limit == limit && s.offset == offset,
    ensures
        p.limit <= 200,
        limit is Some && limit->0 <= 200 ==> p.limit == limit->0,
        limit is Some && limit->0 > 200 ==> p.limit == 200,
        limit is None ==> p.limit == 50,
        offset is Some ==> p.offset == offset->0,
        offset is None ==> p.offset == 0,
        of_list == p,
        of_search == p,
{
}

/// A listing is entered in one of the four categories, as the caller's own, at the price asked
/// for, available and shown.
pub proof fn law_listings_are_entered(
    auth: AuthUser,
    body: CreateListingRequest,
    id: String,
    now: i64,
    r: AppResult<Listing>,
)
    requires
        call_ensures(create, (&auth, &body, id, now), r),
    ensures
        r is Ok <==> body.category@ == "guide"@ || body.category@ == "transport"@ || body.category@
            == "stay"@ || body.category@ == "restaurant"@,
        r is Err ==> r->Err_0@ == ErrorView::BadRequest("invalid category"@),
        r is Ok ==> {
            let row = r->Ok_0;
            &&& row.id == id
            &&& row.owner_npub@ == auth.npub@
            &&& row.category@ == body.category@
            &&& row.name@ == body.name@ && row.area@ == body.area@
            &&& row.description == body.description
            &&& row.price_sats == body.price_sats
            &&& body.price_unit is Some ==> row.price_unit@ == body.price_unit->0@
            &&& body.price_unit is None ==> row.price_unit@ == "per day"@
            &&& row.lud16 == body.lud16 && row.phone == body.phone
            &&& row.nostr_event_id == body.nostr_event_id
            &&& body.photos is Some ==> crate::json::listed_in(row.photos_json@)
                == body.photos->0.deep_view()
            &&& body.photos is None ==> crate::json::listed_in(row.photos_json@).len() == 0
            &&& row.available == 1 && row.verified == 1
            &&& row.created_at == now && row.updated_at == now
        },
{
}

/// A listing is changed and taken off by its owner, and by nobody else. What is asked for is
/// changed, and the rest stays; what is taken off is no longer available, and otherwise stays.
pub proof fn law_owners_change_their_listing(
    auth: AuthUser,
    row: Listing,
    id: &str,
    body: UpdateListingRequest,
    now: i64,
    r: AppResult<ListingPatch>,
    off: AppResult<ListingPatch>,
    changed: Listing,
    gone: Listing,
    missing: AppResult<ListingPatch>,
    found: Option<Listing>,
    got: AppResult<Listing>,
)
    requires
        call_ensures(update, (&auth, &Some(row), id, &body, now), r),
        call_ensures(remove, (&auth, &Some(row), id, now), off),
        call_ensures(update, (&auth, &None::<Listing>, id, &body, now), missing),
        call_ensures(get_one, (found, id), got),
        r is Ok ==> exists|m: &mut Listing|
            *m == row && *final(m) == changed && #[trigger] call_ensures(
                ListingPatch::apply,
                (&r->Ok_0, m),
                (),
            ),
        off is Ok ==> exists|m: &mut Listing|
            *m == row && *final(m) == gone && #[trigger] call_ensures(
                ListingPatch::apply,
                (&off->Ok_0, m),
                (),
            ),
    ensures
        r is Ok <==> row.owner_npub@ == auth.npub@,
        off is Ok <==> row.owner_npub@ == auth.npub@,
        r is Err ==> r->Err_0@ == ErrorView::Unauthorized("you don't own this listing"@),
        off is Err ==> off->Err_0@ == ErrorView::Unauthorized("you don't own this listing"@),
        missing is Err && missing->Err_0@ == ErrorView::NotFound(
            "listing "@ + id@ + " not found"@,
        ),
        got is Ok <==> found is Some,
        got is Err ==> got->Err_0@ == ErrorView::NotFound("listing "@ + id@ + " not found"@),
        found is Some ==> got->Ok_0 == found->0,
        r is Ok ==> {
            &&& changed.id == row.id && changed.owner_npub == row.owner_npub
            &&& changed.category == row.category && changed.area == row.area
            &&& changed.price_unit == row.price_unit && changed.phone == row.phone
            &&& changed.verified == row.verified && changed.created_at == row.created_at
            &&& changed.updated_at == now
            &&& body.name is Some ==> changed.name == body.name->0
            &&& body.name is None ==> changed.name == row.name
            &&& body.description is Some ==> changed.description == body.description
            &&& body.description is None ==> changed.description == row.description
            &&& body.price_sats is Some ==> changed.price_sats == body.price_sats->0
            &&& body.price_sats is None ==> changed.price_sats == row.price_sats
            &&& body.lud16 is Some ==> changed.lud16 == body.lud16
            &&& body.lud16 is None ==> changed.lud16 == row.lud16
            &&& body.available == Some(true) ==> changed.available == 1
            &&& body.available == Some(false) ==> changed.available == 0
            &&& body.available is None ==> changed.available == row.available
            &&& body.photos is Some ==> crate::json::listed_in(changed.photos_json@)
                == body.photos->0.deep_view()
            &&& body.photos is None ==> changed.photos_json == row.photos_json
        },
        off is Ok ==> gone == (Listing { available: 0, updated_at: now, ..row }),
{
}

} // verus!

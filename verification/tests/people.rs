use ulendo::auth::AuthUser;
use ulendo::db::Listing;
use ulendo::routes::identities::{ensure_identity_exists, get_by_npub, merge, upsert, UpsertIdentityRequest};
use ulendo::routes::listings;
use ulendo::routes::listings::{CreateListingRequest, ListQuery, UpdateListingRequest};
use ulendo::routes::names::{
    check_username, directory, get_name_by_pubkey, is_valid_username, name_found, name_report, register_name,
    registered, well_known_nostr_json, CheckNameQuery, NameCheck, Nip05Query, RegisterNameRequest,
};
use ulendo::routes::push::{
    resubscribe, subscribe, unsubscribe, SubscribeRequest, SubscriptionKeys, UnsubscribeRequest,
};
use ulendo::routes::ratings::{
    add_earning, driver_dashboard, leaderboard, submit_rating, DriverTotals, LeaderboardQuery, SubmitRatingInput,
    Tally,
};
use ulendo::routes::relay::{search_listings, RelaySearchQuery};
use ulendo::routes::upload::{
    accept_link, first_host_replied, is_file_field, link_in_reply, second_host_replied, upload_photo, UploadField,
    UploadStep, MAX_PHOTO_BYTES,
};
use ulendo::routes::verify::{check_invoice, create_invoice, CreateVerifyInvoiceRequest};
use ulendo::services::blink::InvoiceResult;
use ulendo::AppResult;

fn s(text: &str) -> String {
    text.to_string()
}

fn user(name: &str) -> AuthUser {
    AuthUser { npub: s(name), public_key: format!("{name}-key") }
}

fn refusal<T>(r: AppResult<T>) -> (u16, String) {
    match r {
        Ok(_) => panic!("not refused"),
        Err(e) => e.into_response(),
    }
}

// Identities

#[test]
fn identities_are_entered_and_merged() {
    let ask = |name: Option<&str>, role: Option<&str>, lud16: Option<&str>| UpsertIdentityRequest {
        name: name.map(s),
        role: role.map(s),
        lud16: lud16.map(s),
    };
    let known = upsert(&user("a"), &ask(Some("Ann"), Some("merchant"), None), 5).ok().unwrap();
    assert_eq!((known.npub.as_str(), known.public_key.as_str()), ("a", "a-key"));
    assert_eq!((known.role.as_str(), known.created_at), ("merchant", 5));
    let asked = upsert(&user("a"), &ask(None, None, Some("a@b")), 9).ok().unwrap();
    assert_eq!(asked.role, "visitor");
    let merged = merge(&known, &asked);
    assert_eq!(merged.name, Some(s("Ann")));
    assert_eq!(merged.lud16, Some(s("a@b")));
    assert_eq!((merged.role.as_str(), merged.created_at, merged.updated_at), ("visitor", 5, 9));
    assert_eq!(
        refusal(upsert(&user("a"), &ask(None, Some("admin"), None), 5)),
        (400, s("role must be visitor or merchant"))
    );
    assert_eq!(refusal(get_by_npub(None, "a")), (404, s("identity a not found")));
    assert_eq!(get_by_npub(Some(known), "a").ok().unwrap().npub, "a");
    assert!(ensure_identity_exists(&user("a"), true, 5).is_none());
    let row = ensure_identity_exists(&user("a"), false, 5).unwrap();
    assert_eq!((row.npub.as_str(), row.public_key.as_str(), row.created_at, row.updated_at), ("a", "a-key", 5, 5));
}

// Listings

fn offered() -> CreateListingRequest {
    CreateListingRequest {
        nostr_event_id: None,
        category: s("guide"),
        name: s("Walks"),
        area: s("Zomba"),
        description: None,
        price_sats: 500,
        price_unit: None,
        lud16: Some(s("g@x")),
        photos: Some(vec![s("https://p/1"), s("https://p/2")]),
        phone: None,
    }
}

fn listed() -> Listing {
    listings::create(&user("a"), &offered(), s("L"), 5).ok().unwrap()
}

#[test]
fn listings_keep_their_photos() {
    let l = listed();
    assert_eq!((l.id.as_str(), l.owner_npub.as_str(), l.price_unit.as_str()), ("L", "a", "per day"));
    assert_eq!((l.available, l.verified, l.created_at), (1, 1, 5));
    assert_eq!(l.photos_json, "[\"https://p/1\",\"https://p/2\"]");
    assert_eq!(l.photos(), vec!["https://p/1", "https://p/2"]);
    let mut l = l;
    l.photos_json = s("broken");
    assert_eq!(l.photos(), Vec::<String>::new());
    let mut o = offered();
    o.photos = None;
    assert_eq!(listings::create(&user("a"), &o, s("L"), 5).ok().unwrap().photos_json, "[]");
    o.category = s("spa");
    assert_eq!(refusal(listings::create(&user("a"), &o, s("L"), 5)), (400, s("invalid category")));
}

#[test]
fn listings_are_changed_by_their_owner() {
    let body = UpdateListingRequest {
        name: None,
        description: Some(s("Long walks")),
        price_sats: Some(700),
        lud16: None,
        available: Some(false),
        photos: Some(Vec::new()),
    };
    let found = Some(listed());
    let patch = listings::update(&user("a"), &found, "L", &body, 9).ok().unwrap();
    let mut l = listed();
    patch.apply(&mut l);
    assert_eq!((l.name.as_str(), l.description.clone(), l.price_sats), ("Walks", Some(s("Long walks")), 700));
    assert_eq!((l.lud16.clone(), l.available, l.photos_json.as_str(), l.updated_at), (Some(s("g@x")), 0, "[]", 9));
    assert_eq!(
        refusal(listings::update(&user("b"), &found, "L", &body, 9)),
        (401, s("you don't own this listing"))
    );
    assert_eq!(refusal(listings::update(&user("a"), &None, "L", &body, 9)), (404, s("listing L not found")));
    let mut l = listed();
    listings::remove(&user("a"), &found, "L", 11).ok().unwrap().apply(&mut l);
    assert_eq!((l.available, l.updated_at, l.price_sats), (0, 11, 500));
    assert_eq!(refusal(listings::remove(&user("b"), &found, "L", 11)), (401, s("you don't own this listing")));
    assert_eq!(refusal(listings::get_one(None, "L")), (404, s("listing L not found")));
    assert_eq!(listings::get_one(found, "L").ok().unwrap().id, "L");
}

#[test]
fn pages_are_bounded() {
    let q = |limit: Option<i64>, offset: Option<i64>| ListQuery { category: None, area: None, limit, offset };
    let r = |limit: Option<i64>| RelaySearchQuery { category: None, area: None, author: None, limit, offset: None };
    let p = listings::list(&q(None, None));
    assert_eq!((p.limit, p.offset), (50, 0));
    let p = listings::list(&q(Some(201), Some(7)));
    assert_eq!((p.limit, p.offset), (200, 7));
    assert_eq!(listings::list(&q(Some(-1), None)).limit, -1);
    assert_eq!(search_listings(&r(None)).limit, 50);
    assert_eq!(search_listings(&r(Some(1000))).limit, 200);
    assert_eq!(search_listings(&r(Some(10))).limit, 10);
}

// Names

#[test]
fn names_are_short_and_plain() {
    for name in ["ab", "a.b-c_9", "a23456789012345678901234567890"] {
        assert!(is_valid_username(name), "{name}");
    }
    for name in ["", "a", "a234567890123456789012345678901", "Ab", "a b", "é", "éé", "a@b"] {
        assert!(!is_valid_username(name), "{name}");
    }
}

#[test]
fn names_are_looked_up_in_lower_case() {
    let lookup = |name: Option<&str>| well_known_nostr_json(&Nip05Query { name: name.map(s) });
    assert_eq!(lookup(Some("YankhÖ")), Some(s("yankhö")));
    assert_eq!(lookup(Some("_")), Some(s("_")));
    assert_eq!(lookup(None), None);
    let f = name_found("ann", "key", "[\"wss://r\"]");
    assert_eq!((f.name.as_str(), f.pubkey_hex.as_str()), ("ann", "key"));
    assert_eq!(f.relays, Some(vec![s("wss://r")]));
    assert_eq!(name_found("ann", "key", "[]").relays, None);
    assert_eq!(name_found("ann", "key", "?").relays, None);
}

#[test]
fn the_directory_lists_each_name_once() {
    let rows = vec![
        (Some(s("ann")), s("k1")),
        (None, s("k2")),
        (Some(s("bob")), s("k3")),
        (Some(s("ann")), s("k4")),
        (Some(s("")), s("k5")),
    ];
    let mut d = directory(&rows);
    d.sort();
    assert_eq!(d, vec![(s(""), s("k5")), (s("ann"), s("k4")), (s("bob"), s("k3"))]);
}

#[test]
fn names_are_checked() {
    match check_username(&CheckNameQuery { username: s("ANN") }) {
        NameCheck::Ask { username } => {
            let r = name_report(username, 0);
            assert!(r.available);
            assert_eq!((r.username.as_str(), r.nip05.as_str(), r.lud16.as_str()), ("ann", "ann@ulendo.app", "ann@ulendo.app"));
        }
        NameCheck::Invalid { .. } => panic!("a valid name"),
    }
    assert!(!name_report(s("ann"), 1).available);
    match check_username(&CheckNameQuery { username: s("A") }) {
        NameCheck::Ask { .. } => panic!("too short"),
        NameCheck::Invalid { reason } => {
            assert_eq!(reason, "Username must be 2-30 chars, only letters, numbers, _ . -");
        }
    }
}

#[test]
fn names_are_registered_for_ones_own_key() {
    let req = |username: &str, key: &str| RegisterNameRequest {
        username: s(username),
        pubkey_hex: s(key),
        relays: Some(vec![s("wss://r")]),
    };
    let row = register_name(&user("a"), &req("Ann", "a-key")).ok().unwrap();
    assert_eq!((row.username.as_str(), row.pubkey_hex.as_str()), ("ann", "a-key"));
    assert_eq!(row.relays_json, "[\"wss://r\"]");
    for existing in [None, Some(s("a-key"))] {
        let answer = registered(&row, &existing).ok().unwrap();
        assert_eq!((answer.username.as_str(), answer.nip05.as_str()), ("ann", "ann@ulendo.app"));
        assert_eq!(answer.lud16, "ann@ulendo.app");
    }
    assert_eq!(refusal(registered(&row, &Some(s("b-key")))), (409, s("Username already taken")));
    assert_eq!(
        refusal(register_name(&user("a"), &req("a b", "a-key"))),
        (400, s("Invalid username: 2-30 chars, a-z 0-9 _ . - only"))
    );
    assert_eq!(
        refusal(register_name(&user("a"), &req("ann", "b-key"))),
        (401, s("pubkey_hex must match your authenticated key"))
    );
    assert!(get_name_by_pubkey(None).is_none());
    let n = get_name_by_pubkey(Some(Some(s("ann")))).unwrap();
    assert_eq!((n.username, n.nip05.as_str()), (Some(s("ann")), "ann@ulendo.app"));
    let n = get_name_by_pubkey(Some(None)).unwrap();
    assert_eq!((n.username, n.lud16.as_str()), (None, "unknown@ulendo.app"));
}

// Push subscriptions

#[test]
fn subscriptions_follow_their_endpoint() {
    let body = |platform: Option<&str>| SubscribeRequest {
        endpoint: s("https://p/1"),
        keys: SubscriptionKeys { p256dh: s("P"), auth: s("A") },
        platform: platform.map(s),
        user_agent: None,
    };
    let known = subscribe(&user("a"), &body(Some("android")), s("1"), 5);
    assert_eq!((known.npub.as_str(), known.p256dh.as_str(), known.auth.as_str()), ("a", "P", "A"));
    assert_eq!((known.created_at, known.last_used), (5, 5));
    let new = subscribe(&user("b"), &body(None), s("2"), 9);
    let row = resubscribe(&known, &new);
    assert_eq!((row.id.as_str(), row.npub.as_str(), row.platform.clone()), ("1", "b", Some(s("android"))));
    assert_eq!((row.created_at, row.last_used), (5, 9));
    let end = UnsubscribeRequest { endpoint: s("https://p/1") };
    assert!(unsubscribe(&user("b"), &end, &row));
    assert!(!unsubscribe(&user("a"), &end, &row));
    assert!(!unsubscribe(&user("b"), &UnsubscribeRequest { endpoint: s("https://p/2") }, &row));
}

// Ratings

#[test]
fn rides_are_rated_once() {
    let body = |score: i64| SubmitRatingInput {
        ride_id: s("R"),
        driver_pubkey: s("d"),
        score,
        comment: None,
        category: None,
    };
    let row = submit_rating(&user("a"), &body(5), false, s("1"), 7).ok().unwrap();
    assert_eq!((row.ride_id.as_str(), row.driver_pubkey.as_str(), row.rider_pubkey.as_str()), ("R", "d", "a-key"));
    assert_eq!((row.score, row.comment.as_str(), row.category.as_str(), row.created_at), (5, "", "city", 7));
    for score in [0, 6, -1] {
        assert_eq!(refusal(submit_rating(&user("a"), &body(score), false, s("1"), 7)), (400, s("Score must be 1-5")));
    }
    assert_eq!(refusal(submit_rating(&user("a"), &body(1), true, s("1"), 7)), (400, s("Already rated")));
}

#[test]
fn tallies_and_totals_grow() {
    let t = Tally::with(None, 4).unwrap();
    assert_eq!((t.total_ratings, t.sum_scores), (1, 4));
    let t = Tally::with(Some(t), 5).unwrap();
    assert_eq!((t.total_ratings, t.sum_scores), (2, 9));
    let none = driver_dashboard(None);
    assert_eq!((none.total_rides, none.total_ratings, none.total_earned_sats, none.total_earned_mwk), (0, 0, 0, 0));
    let one = add_earning(none, 985).unwrap();
    assert_eq!((one.total_rides, one.total_earned_sats), (1, 985));
    let full = DriverTotals { total_rides: 1, total_ratings: 0, total_earned_sats: i64::MAX, total_earned_mwk: 0 };
    assert!(add_earning(full, 1).is_none());
    let q = leaderboard(&LeaderboardQuery { category: None, limit: None });
    assert_eq!((q.category.as_str(), q.limit), ("", 20));
    let q = leaderboard(&LeaderboardQuery { category: Some(s("city")), limit: Some(3) });
    assert_eq!((q.category.as_str(), q.limit), ("city", 3));
}

// Photos

fn field(name: Option<&str>, content_type: Option<&str>, data: &[u8]) -> UploadField {
    UploadField { name: name.map(s), content_type: content_type.map(s), data: data.to_vec() }
}

#[test]
fn the_last_file_is_the_photo() {
    assert!(is_file_field(&Some(s("file"))));
    assert!(!is_file_field(&None));
    let fields = vec![
        field(Some("file"), Some("image/png"), b"first"),
        field(Some("file"), None, b"second"),
        field(Some("note"), None, b"x"),
    ];
    let p = upload_photo(&fields).ok().unwrap();
    assert_eq!((p.data.as_slice(), p.mime.as_str(), p.file_name.as_str()), (b"second".as_slice(), "image/jpeg", "ulendo.jpg"));
    let p = upload_photo(&vec![field(Some("file"), Some("image/png"), b"x")]).ok().unwrap();
    assert_eq!(p.file_name, "ulendo.png");
    assert_eq!(refusal(upload_photo(&vec![field(None, None, b"x")])), (400, s("no file field in request")));
    let large = vec![field(Some("file"), None, &vec![0u8; MAX_PHOTO_BYTES + 1])];
    assert_eq!(refusal(upload_photo(&large)), (400, s("file too large (max 10MB)")));
    let largest = vec![field(Some("file"), None, &vec![0u8; MAX_PHOTO_BYTES])];
    assert!(upload_photo(&largest).is_ok());
}

#[test]
fn only_secure_links_are_handed_on() {
    assert_eq!(accept_link(Some("https://i/1")), Some(s("https://i/1")));
    assert_eq!(accept_link(Some("http://i/1")), None);
    assert_eq!(accept_link(None), None);
    let tags = vec![vec![Some(s("x")), Some(s("no"))], vec![Some(s("url")), Some(s("https://t"))]];
    assert_eq!(link_in_reply(&tags, &Some(s("https://d"))), Some(s("https://t")));
    let tags = vec![Vec::new(), vec![Some(s("url")), None], vec![Some(s("url")), Some(s("https://late"))]];
    assert_eq!(link_in_reply(&tags, &Some(s("https://d"))), Some(s("https://d")));
    assert_eq!(link_in_reply(&Vec::new(), &None), None);
}

#[test]
fn the_second_host_is_asked_where_the_first_gives_no_secure_link() {
    match first_host_replied(Some("https://i/1")) {
        UploadStep::Done { answer } => {
            assert_eq!((answer.url.as_str(), answer.provider.as_str()), ("https://i/1", "imgur"));
        }
        UploadStep::AskSecondHost => panic!("the first host gave a link"),
    }
    for link in [None, Some(""), Some("http://i/1")] {
        assert!(matches!(first_host_replied(link), UploadStep::AskSecondHost));
        assert_eq!(refusal(second_host_replied(link)), (400, s("all upload providers failed")));
    }
    let up = second_host_replied(Some("https://n/1")).ok().unwrap();
    assert_eq!((up.url.as_str(), up.provider.as_str()), ("https://n/1", "nostr.build"));
}

// Verification

#[test]
fn tiers_have_their_price() {
    for (tier, sats) in [("silver", 6000), ("gold", 12_000), ("orange", 27_000)] {
        let v = create_invoice(&CreateVerifyInvoiceRequest { tier: s(tier), npub: s("npub1") }).ok().unwrap();
        assert_eq!(v.invoice().amount_sats, sats);
        assert_eq!(v.invoice().memo, format!("Ulendo {tier} verification for npub1"));
        let reply = InvoiceResult { payment_request: s("lnbc"), payment_hash: s("h"), expires_at: 1 };
        let answer = v.invoiced(Ok(reply)).ok().unwrap();
        assert_eq!((answer.tier.as_str(), answer.sats), (tier, sats));
        assert_eq!((answer.payment_request.as_str(), answer.payment_hash.as_str()), ("lnbc", "h"));
    }
    assert_eq!(
        refusal(create_invoice(&CreateVerifyInvoiceRequest { tier: s("tin"), npub: s("n") })),
        (400, s("invalid tier"))
    );
    let v = create_invoice(&CreateVerifyInvoiceRequest { tier: s("gold"), npub: s("n") }).ok().unwrap();
    assert_eq!(refusal(v.invoiced(Err(s("down")))), (400, s("down")));
    assert_eq!(check_invoice(Ok(true)).ok(), Some(true));
    assert_eq!(refusal(check_invoice(Err(s("down")))), (400, s("down")));
}

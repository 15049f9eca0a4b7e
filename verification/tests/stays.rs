use ulendo::auth::AuthUser;
use ulendo::routes::stays_listings::{
    admin_verify, create, delete_one, get_one, list_admin, search, shown_to_guests, update, validate_listing_input,
    AdminListQuery, CreateStayListing, KeptStay, SearchQuery, StayListingRow, UpdateStayListing,
};
use ulendo::AppResult;

fn s(text: &str) -> String {
    text.to_string()
}

fn user(name: &str) -> AuthUser {
    AuthUser { npub: s(name), public_key: format!("{name}-key") }
}

fn refusal<T>(r: AppResult<T>) -> (u16, String) {
    match r {
        Ok(_) => panic!("not refused"),
        Err(e) => e.into_response(),
    }
}

fn place() -> CreateStayListing {
    CreateStayListing {
        host_lud16: s(" host@ln.example "),
        listing_type: s("entire_place"),
        property_class: s("villa"),
        title: s("  Lake house "),
        description: s("A quiet house by the lake."),
        house_rules: Some(s(" none ")),
        country: None,
        city: s(" Mangochi "),
        neighborhood: None,
        max_guests: 4,
        bedrooms: 2,
        beds: 3,
        price_per_night_sats: 1000,
        cleaning_fee_sats: None,
        min_nights: None,
        max_nights: None,
        checkin_time: None,
        checkout_time: None,
        amenities: None,
        photo_urls: None,
    }
}

fn entered() -> StayListingRow {
    create(&user("h"), &place(), true, s("P"), 5).ok().unwrap()
}

#[test]
fn places_are_entered_with_defaults() {
    let row = entered();
    assert_eq!((row.id.as_str(), row.host_pubkey.as_str(), row.host_lud16.as_str()), ("P", "h-key", "host@ln.example"));
    assert_eq!((row.title.as_str(), row.city.as_str(), row.country.as_str()), ("Lake house", "Mangochi", "MW"));
    assert_eq!(row.house_rules, Some(s("none")));
    assert_eq!((row.cleaning_fee_sats, row.min_nights, row.max_nights), (0, 1, 30));
    assert_eq!((row.checkin_time.as_str(), row.checkout_time.as_str()), ("15:00", "11:00"));
    assert_eq!((row.amenities.as_str(), row.photo_urls.as_str()), ("[]", "[]"));
    assert_eq!(row.cancellation_policy, "strict_7day_50");
    assert_eq!((row.verified, row.active, row.created_at, row.updated_at), (0, 1, 5, 5));
    assert!(!shown_to_guests(&row));
    let mut row = row;
    row.verified = 1;
    assert!(shown_to_guests(&row));
    row.active = 0;
    assert!(!shown_to_guests(&row));
}

#[test]
fn places_are_checked_in_order() {
    let why = |change: &dyn Fn(&mut CreateStayListing), gps_valid: bool| {
        let mut p = place();
        change(&mut p);
        let (status, message) = refusal(validate_listing_input(&p, gps_valid));
        assert_eq!(status, 400);
        assert_eq!(refusal(create(&user("h"), &p, gps_valid, s("P"), 5)), (400, message.clone()));
        message
    };
    let lud16 = "Lightning address (lud16) is required and must contain '@'";
    assert_eq!(why(&|p| p.host_lud16 = s("  "), true), lud16);
    assert_eq!(why(&|p| p.host_lud16 = s("host"), true), lud16);
    assert_eq!(why(&|p| p.title = s(" abcd "), true), "Title must be at least 5 characters");
    assert_eq!(why(&|p| p.description = s("short"), true), "Description must be at least 20 characters");
    assert_eq!(why(&|p| p.city = s(" "), true), "City is required");
    assert_eq!(why(&|_| (), false), "Invalid GPS coordinates");
    assert_eq!(why(&|p| p.price_per_night_sats = 999, true), "Minimum price per night is 1000 sats");
    assert_eq!(why(&|p| p.max_guests = 0, true), "Max guests must be at least 1");
    assert_eq!(
        why(&|p| p.listing_type = s("tent"), true),
        "Invalid listing_type. Must be one of: entire_place, private_room, shared_room, hotel_room, resort_unit"
    );
    assert_eq!(
        why(&|p| p.property_class = s("tent"), true),
        "Invalid property_class. Must be one of: \
         apartment, house, hotel, resort, guesthouse, lodge, villa, cottage"
    );
    assert_eq!(why(&|p| p.title = s("éééé"), true), "Title must be at least 5 characters");
    assert_eq!(why(&|p| p.description = "é".repeat(19), true), "Description must be at least 20 characters");
    let mut p = place();
    p.title = s("ééééé");
    p.description = "é".repeat(20);
    assert!(validate_listing_input(&p, true).is_ok());
    assert_eq!(why(&|p| { p.title = s("x"); p.city = s(""); }, false), "Title must be at least 5 characters");
}

fn unchanged() -> UpdateStayListing {
    UpdateStayListing {
        host_lud16: None,
        title: None,
        description: None,
        house_rules: None,
        neighborhood: None,
        max_guests: None,
        bedrooms: None,
        beds: None,
        price_per_night_sats: None,
        cleaning_fee_sats: None,
        min_nights: None,
        max_nights: None,
        checkin_time: None,
        checkout_time: None,
        amenities: None,
        photo_urls: None,
        active: None,
    }
}

#[test]
fn places_are_changed_by_their_host() {
    let host = Some(s("h-key"));
    let body = UpdateStayListing { title: Some(s(" New name ")), price_per_night_sats: Some(2000), active: Some(0), ..unchanged() };
    let change = update(&user("h"), &host, &body, true).ok().unwrap();
    let row = change.apply(entered(), 9);
    assert_eq!((row.title.as_str(), row.price_per_night_sats, row.active), ("New name", 2000, 0));
    assert_eq!((row.description.as_str(), row.max_guests, row.created_at, row.updated_at), ("A quiet house by the lake.", 4, 5, 9));
    assert_eq!(row.house_rules, Some(s("none")));
    assert_eq!(refusal(update(&user("h"), &None, &body, true)), (400, s("Listing not found")));
    assert_eq!(
        refusal(update(&user("x"), &host, &body, true)),
        (401, s("Only the host can update this listing"))
    );
    let cheap = UpdateStayListing { price_per_night_sats: Some(999), ..unchanged() };
    assert_eq!(
        refusal(update(&user("h"), &host, &cheap, true)),
        (400, s("Minimum price per night is 1000 sats"))
    );
    assert_eq!(refusal(update(&user("h"), &host, &unchanged(), false)), (400, s("Invalid GPS coordinates")));
}

#[test]
fn places_are_found_and_deleted() {
    let mut kept = KeptStay { place: entered(), deleted_at: None };
    assert_eq!(get_one(Some(KeptStay { place: entered(), deleted_at: None })).ok().unwrap().id, "P");
    assert_eq!(refusal(get_one(None)), (404, s("Listing not found")));
    delete_one(&user("h"), &Some(s("h-key")), 70).ok().unwrap().apply(&mut kept);
    assert_eq!((kept.deleted_at, kept.place.updated_at, kept.place.id.as_str()), (Some(70), 70, "P"));
    assert_eq!(refusal(get_one(Some(kept))), (404, s("Listing not found")));
    assert_eq!(
        refusal(delete_one(&user("x"), &Some(s("h-key")), 70)),
        (401, s("Only the host can delete this listing"))
    );
    assert_eq!(refusal(delete_one(&user("h"), &None, 70)), (400, s("Listing not found")));
}

#[test]
fn places_are_verified() {
    let mut kept = KeptStay { place: entered(), deleted_at: None };
    assert!(!shown_to_guests(&kept.place));
    let verification = admin_verify(80);
    let rows = verification.apply(&mut kept);
    assert_eq!((rows, kept.place.verified, kept.place.updated_at, kept.deleted_at), (1, 1, 80, None));
    assert!(shown_to_guests(&kept.place));
    assert!(verification.written(rows).is_ok());
    let mut gone = KeptStay { place: entered(), deleted_at: Some(7) };
    let before = gone.place.updated_at;
    let verification = admin_verify(80);
    let rows = verification.apply(&mut gone);
    assert_eq!((rows, gone.place.verified, gone.place.updated_at, gone.deleted_at), (0, 0, before, Some(7)));
    assert_eq!(refusal(verification.written(rows)), (400, s("Listing not found")));
}

#[test]
fn searches_are_bounded() {
    for (limit, shown) in [(None, 100), (Some(0), 1), (Some(501), 500), (Some(7), 7)] {
        assert_eq!(list_admin(&AdminListQuery { verified: None, limit }), shown);
    }
    let q = search(&SearchQuery { city: Some(s("Zomba")), limit: Some(1000), offset: Some(-3) });
    assert_eq!((q.city_pattern, q.limit, q.offset), (Some(s("%Zomba%")), 100, 0));
    let q = search(&SearchQuery { city: None, limit: None, offset: Some(40) });
    assert_eq!((q.city_pattern, q.limit, q.offset), (None, 20, 40));
}

use ulendo::auth::AuthUser;
use ulendo::db::{RideChange, RideRequest};
use ulendo::routes::driver_listings::{
    add_km, can_tell_service, delete_one, replace, service_hint, upsert, DriverListingRow, KeptListing,
    UpsertDriverListing,
};
use ulendo::routes::rides::{
    accept_booking_http, accept_ride, computed_fare, driver_price, drivers_but, http_send_booking,
    listing_sets_price, mark_driver_offline, nearby_drivers, others_to_tell, poll_bookings, poll_ride_status,
    request_ride, test_add_driver, upsert_driver_location, GpsHeartbeat, HttpBookingNotify, RideRequestInput,
    RideToOffer, TakenRide,
};
use ulendo::routes::ws::{deliver, handle_socket, send_call_push, Incoming, RideMessage};
use ulendo::AppResult;

fn s(text: &str) -> String {
    text.to_string()
}

fn user(name: &str) -> AuthUser {
    AuthUser { npub: format!("npub-{name}"), public_key: s(name) }
}

fn refusal<T>(r: AppResult<T>) -> (u16, String) {
    match r {
        Ok(_) => panic!("not refused"),
        Err(e) => e.into_response(),
    }
}

// Drivers

fn heartbeat() -> GpsHeartbeat {
    GpsHeartbeat {
        vehicle_type: Some(s("sedan")),
        ride_categories: None,
        seats: Some(4),
        lud16: Some(s("d@x")),
        display_name: None,
        picture_url: None,
        country: None,
        city: Some(s("Lilongwe")),
        price_per_km: None,
    }
}

#[test]
fn heartbeats_keep_what_they_leave_out() {
    let first = upsert_driver_location(&None, "d", &heartbeat(), 10);
    assert!(first.online);
    assert_eq!(first.vehicle_type, Some(s("sedan")));
    assert_eq!(first.price_per_km, None);
    let hb = GpsHeartbeat {
        vehicle_type: None,
        seats: None,
        lud16: Some(s("e@y")),
        city: None,
        price_per_km: Some(70),
        ..heartbeat()
    };
    let mut second = upsert_driver_location(&Some(first), "d", &hb, 20);
    assert_eq!(second.vehicle_type, Some(s("sedan")));
    assert_eq!(second.seats, Some(4));
    assert_eq!(second.lud16, Some(s("e@y")));
    assert_eq!(second.city, Some(s("Lilongwe")));
    assert_eq!(second.price_per_km, Some(70));
    assert_eq!(second.updated_at, 20);
    mark_driver_offline(&mut second);
    assert!(!second.online);
    assert_eq!(second.seats, Some(4));
}

#[test]
fn trial_drivers_are_made_up() {
    let hb = test_add_driver(&None, &None);
    assert_eq!(hb.display_name, Some(s("Test Driver")));
    assert_eq!(hb.vehicle_type, Some(s("sedan")));
    assert_eq!((hb.seats, hb.price_per_km), (Some(4), Some(500)));
    assert_eq!(hb.ride_categories, Some(s("city")));
    assert_eq!(hb.lud16, Some(s("")));
    let hb = test_add_driver(&Some(s("Ann")), &Some(s("boda")));
    assert_eq!((hb.display_name, hb.vehicle_type), (Some(s("Ann")), Some(s("boda"))));
}

#[test]
fn searches_look_back_a_while() {
    let q = nearby_drivers(&None, &Some(s("boda")), 10_000);
    assert_eq!((q.category.as_str(), q.vehicle_type.as_str()), ("city", "boda"));
    assert_eq!((q.heard_since, q.busy_since), (9_880, 2_800));
}

// Rides

fn wanted(category: Option<&str>) -> RideRequestInput {
    RideRequestInput {
        pickup_text: Some(s("Market")),
        dest_text: None,
        vehicle_pref: None,
        ride_category: category.map(s),
        fare_sats: 300,
    }
}

fn asked(category: Option<&str>) -> RideToOffer {
    request_ride(&user("rider"), wanted(category), 200, 1000).ok().unwrap()
}

#[test]
fn rides_below_the_minimum_are_refused() {
    assert_eq!(
        refusal(request_ride(&user("rider"), wanted(None), 301, 1000)),
        (
            400,
            s("Minimum fare is 301 sats (you offered 300). \
               Increase your trip estimate or choose a more economical option.")
        )
    );
}

#[test]
fn rides_are_offered_around() {
    let q = asked(None).search();
    assert_eq!((q.category.as_str(), q.vehicle_pref.as_str(), q.not_driver.as_str()), ("city", "", "rider"));
    assert_eq!((q.radius_hundredths, q.heard_since, q.limit), (15, 880, 5));
    assert_eq!(asked(Some("intercity")).search().radius_hundredths, 100);
    assert_eq!(asked(Some("tourist")).search().radius_hundredths, 200);

    let drivers = vec![s("d1"), s("d\"2")];
    let e = asked(None).offered(&drivers, s("R"));
    assert_eq!(e.row.status, "searching");
    assert_eq!(e.row.drivers_notified, "[\"d1\",\"d\\\"2\"]");
    assert_eq!((e.row.accept_deadline, e.row.round), (Some(1060), 1));
    assert_eq!((e.row.rider_pubkey.as_str(), e.row.rider_npub.as_str()), ("rider", "npub-rider"));
    assert_eq!(e.offer.push_title, "🚗 New ride request!");
    assert_eq!(e.offer.push_body, "300 sats · Market");
    assert_eq!((e.answer.status.as_str(), e.answer.drivers_notified), ("searching", 2));
    let none = asked(None).offered(&Vec::new(), s("R"));
    assert_eq!((none.answer.status.as_str(), none.answer.drivers_notified), ("no_drivers", 0));
    assert_eq!(none.row.drivers_notified, "[]");
}

fn taken(row: &mut RideRequest, driver: &str, at: i64) -> AppResult<TakenRide> {
    let d = accept_ride(&user(driver), &Some(s("d@x")))?;
    let t = d.take("R", &Some(s("rider")), at)?;
    let rows = t.change().apply(row);
    t.taken(rows)
}

#[test]
fn the_first_driver_gets_the_ride() {
    let mut row = asked(None).offered(&vec![s("d1"), s("d2"), s("d3")], s("R")).row;
    let t = taken(&mut row, "d1", 1010).ok().unwrap();
    assert_eq!((row.status.as_str(), row.matched_driver.clone()), ("accepted", Some(s("d1"))));
    assert_eq!(refusal(taken(&mut row, "d2", 1011)), (400, s("Ride already taken or expired")));
    assert_eq!(row.matched_driver, Some(s("d1")));
    let a = t.accepted(s("rider"), row.fare_sats, Some(450), &row.drivers_notified);
    assert_eq!(a.fare_sats, 450);
    a.change.unwrap().apply(&mut row);
    assert_eq!(row.fare_sats, 450);
    assert_eq!((a.message.to.as_str(), a.message.ride_id.as_str()), ("rider", "R"));
    assert_eq!((a.message.driver_pubkey.as_str(), a.message.fare_sats), ("d1", 450));
    assert_eq!(a.others, vec!["d2", "d3"]);
}

#[test]
fn nobody_gets_a_ride_after_its_deadline() {
    let mut row = asked(None).offered(&vec![s("d1")], s("R")).row;
    assert_eq!(refusal(taken(&mut row, "d1", 1061)), (400, s("Ride already taken or expired")));
    assert_eq!((row.status.as_str(), row.matched_driver.clone(), row.updated_at), ("searching", None, 1000));
    assert!(taken(&mut row, "d1", 1060).is_ok());
    let mut row = asked(None).offered(&vec![s("d1")], s("R")).row;
    row.accept_deadline = None;
    assert!(taken(&mut row, "d1", 9999).is_ok());
}

#[test]
fn the_fare_asked_for_stands_without_a_price() {
    let mut row = asked(None).offered(&Vec::new(), s("R")).row;
    let t = taken(&mut row, "d1", 1010).ok().unwrap();
    let a = t.accepted(s("rider"), 300, None, "not json");
    assert_eq!(a.fare_sats, 300);
    assert!(a.change.is_none());
    assert_eq!(a.others, Vec::<String>::new());
}

#[test]
fn acceptances_are_refused() {
    for lud16 in [None, Some(s("")), Some(s("nowhere"))] {
        assert_eq!(
            refusal(accept_ride(&user("d"), &lud16)),
            (400, s("driver has no valid lightning address — set one in profile before accepting rides"))
        );
    }
    let d = accept_ride(&user("d"), &Some(s("d@x"))).ok().unwrap();
    assert_eq!(refusal(d.take("R", &None, 1)), (400, s("ride not found")));
    let d = accept_ride(&user("d"), &Some(s("d@x"))).ok().unwrap();
    assert_eq!(refusal(d.take("R", &Some(s("d")), 1)), (400, s("cannot accept your own ride request")));
}

#[test]
fn the_listing_sets_the_price() {
    assert!(listing_sets_price(Some(1)));
    assert!(!listing_sets_price(Some(0)));
    assert!(!listing_sets_price(None));
    assert_eq!(driver_price(Some(60), Some(70)), 60);
    assert_eq!(driver_price(Some(0), Some(70)), 70);
    assert_eq!(driver_price(None, None), 0);
    assert_eq!(computed_fare(60, true, 123), Some(123));
    assert_eq!(computed_fare(0, true, 123), None);
    assert_eq!(computed_fare(60, false, 123), None);
}

#[test]
fn others_are_told_that_a_ride_is_taken() {
    assert_eq!(drivers_but(&vec![s("a"), s("b"), s("a"), s("c")], "a"), vec!["b", "c"]);
    assert_eq!(others_to_tell("[\"a\",\"b\"]", "b"), vec!["a"]);
    assert_eq!(others_to_tell("{}", "b"), Vec::<String>::new());
}

#[test]
fn bookings_are_accepted_at_the_drivers_price() {
    let mut row = asked(None).offered(&Vec::new(), s("R")).row;
    let t = taken(&mut row, "d", 1010).ok().unwrap();
    let b = accept_booking_http(t, "rider", row.fare_sats, Some(450), 200);
    assert_eq!(b.answer.ok(), Some(450));
    assert!(matches!(b.fare_change, Some(RideChange::SetFare { fare_sats: 450, at: 1010 })));
    assert!(b.reopen.is_none());
    let m = b.message.unwrap();
    assert_eq!((m.to.as_str(), m.ride_id.as_str(), m.driver_pubkey.as_str(), m.fare_sats), ("rider", "R", "d", 450));
}

#[test]
fn a_fare_below_the_minimum_gives_the_ride_back() {
    let mut row = asked(None).offered(&Vec::new(), s("R")).row;
    let t = taken(&mut row, "d", 1010).ok().unwrap();
    let b = accept_booking_http(t, "rider", row.fare_sats, Some(150), 200);
    assert!(b.message.is_none());
    assert_eq!(b.fare_change.unwrap().apply(&mut row), 1);
    b.reopen.unwrap().apply(&mut row);
    assert_eq!((row.status.as_str(), row.matched_driver.clone()), ("searching", None));
    assert_eq!(
        refusal(b.answer),
        (
            400,
            s("Computed fare 150 sats is below the minimum of 200 sats. \
               Increase your price per km or estimated distance.")
        )
    );
    assert!(taken(&mut row, "e", 1020).is_ok());
}

#[test]
fn a_booking_without_a_price_keeps_the_fare_of_the_ride() {
    for computed in [None, Some(0), Some(-1), Some(300)] {
        let mut row = asked(None).offered(&Vec::new(), s("R")).row;
        let t = taken(&mut row, "d", 1010).ok().unwrap();
        let b = accept_booking_http(t, "", row.fare_sats, computed, 200);
        assert_eq!(b.answer.ok(), Some(300));
        assert!(b.fare_change.is_none());
        assert!(b.message.is_none());
    }
}

#[test]
fn riders_ask_drivers_of_their_choice() {
    let body = HttpBookingNotify {
        driver_pubkey: s("d"),
        ride_id: s("R"),
        pickup: Some(s("Market")),
        destination: None,
        fare_sats: Some(250),
        passenger_pubkey: Some(s("claimed")),
        passenger_npub: Some(s("npub-rider")),
    };
    let sent = http_send_booking(&user("rider"), &body, 50);
    assert_eq!((sent.row.id.as_str(), sent.row.rider_pubkey.as_str()), ("R", "rider"));
    assert_eq!((sent.row.status.as_str(), sent.row.matched_driver.as_str()), ("pending", "d"));
    assert_eq!((sent.row.pickup_text.as_str(), sent.row.dest_text.as_str()), ("Market", ""));
    assert_eq!((sent.row.fare_sats, sent.row.created_at), (250, 50));
    assert_eq!((sent.message.to.as_str(), sent.message.from.as_str()), ("d", "rider"));
    assert_eq!((sent.message.passenger_pubkey.as_str(), sent.message.fare_sats), ("claimed", 250));
    let mut row = asked(None).offered(&Vec::new(), s("R")).row;
    sent.again.apply(&mut row);
    assert_eq!((row.status.as_str(), row.matched_driver.clone(), row.updated_at), ("pending", Some(s("d")), 50));
    assert!(poll_bookings(&user("d"), &row, 1299));
    assert!(!poll_bookings(&user("d"), &row, 1300));
    assert!(!poll_bookings(&user("e"), &row, 1299));
    row.status = s("accepted");
    assert!(!poll_bookings(&user("d"), &row, 1299));
}

#[test]
fn riders_see_their_own_rides() {
    let row = asked(None).offered(&Vec::new(), s("R")).row;
    let found = Some(row);
    let status = poll_ride_status(&user("rider"), "R", &found);
    assert_eq!((status.ride_id.as_str(), status.status.as_str(), status.fare_sats), ("R", "searching", Some(300)));
    let status = poll_ride_status(&user("x"), "R", &found);
    assert_eq!((status.status.as_str(), status.fare_sats), ("not_found", None));
    assert_eq!(poll_ride_status(&user("rider"), "R", &None).status, "not_found");
}

// Messages

fn message(kind: &str, caller: Option<&str>) -> RideMessage {
    RideMessage {
        to: s("b"),
        from: s("forged"),
        msg_type: s(kind),
        payload: s("{\"text\":\"hi\"}"),
        caller_name: caller.map(s),
    }
}

#[test]
fn messages_come_from_the_connection() {
    match handle_socket("{..}", Some(message("chat", None)), "a") {
        Incoming::PassOn { message } => {
            assert_eq!((message.from.as_str(), message.to.as_str(), message.msg_type.as_str()), ("a", "b", "chat"));
            assert_eq!(message.payload, "{\"text\":\"hi\"}");
        }
        _ => panic!("not passed on"),
    }
    assert!(matches!(handle_socket("{\"type\":\"ping\"}", Some(message("chat", None)), "a"), Incoming::Pong));
    assert!(matches!(handle_socket("ping", None, "a"), Incoming::Drop));
}

#[test]
fn only_calls_reach_those_who_are_away() {
    let d = deliver(&message("ulendo-call-offer", Some("Ann")), true, true);
    assert_eq!((d.forward, d.push_caller, d.confirm), (true, None, true));
    let d = deliver(&message("ulendo-call-offer", Some("Ann")), false, true);
    assert_eq!((d.forward, d.push_caller), (false, Some(s("Ann"))));
    let d = deliver(&message("ulendo-call-offer", None), false, false);
    assert_eq!((d.push_caller, d.confirm), (Some(s("Someone")), false));
    assert_eq!(deliver(&message("chat", None), false, true).push_caller, None);
    let n = send_call_push("b", "Ann");
    assert_eq!((n.title.as_str(), n.body.as_str()), ("📞 Incoming Ulendo Call", "Ann is calling you"));
    assert_eq!((n.icon.as_str(), n.badge.as_str(), n.tag.as_str()), ("/logo-icon.svg", "/logo-icon.svg", "ulendo-call"));
    assert!(n.require_interaction);
    assert_eq!((n.kind.as_str(), n.from.as_str()), ("incoming_call", "b"));
}

// Drivers' listings

fn vehicle(price_per_km: Option<i64>) -> UpsertDriverListing {
    UpsertDriverListing {
        id: s("V"),
        listing_name: Some(s("My car")),
        vehicle: None,
        vehicle_type: Some(s("sedan")),
        seats: None,
        price_per_km,
        ride_categories: None,
        photo_urls: None,
        description: None,
        location_country: None,
        location_city: None,
        lud16: None,
        nostr_event_id: None,
        service_interval_km: None,
    }
}

fn kept(listing: DriverListingRow, deleted_at: Option<i64>) -> Option<KeptListing> {
    Some(KeptListing { listing, deleted_at })
}

fn listed(driver: &str) -> DriverListingRow {
    upsert(&user(driver), &vehicle(None), 50, &None, 4, 0, 9).ok().unwrap()
}

#[test]
fn vehicles_are_listed_with_defaults() {
    let row = listed("d");
    assert_eq!((row.id.as_str(), row.driver_pubkey.as_str()), ("V", "d"));
    assert_eq!(row.driver_npub, Some(s("npub-d")));
    assert_eq!((row.seats, row.price_per_km, row.service_interval_km), (Some(4), Some(500), 5000));
    assert_eq!((row.km_driven_total, row.created_at, row.updated_at), (0, 9, 9));
    let mut known = row;
    known.km_driven_total = 77;
    let asked = upsert(&user("d"), &vehicle(Some(60)), 50, &kept(listed("d"), None), 5, 5, 20).ok().unwrap();
    let row = replace(&known, asked);
    assert_eq!((row.driver_pubkey.as_str(), row.km_driven_total, row.created_at), ("d", 77, 9));
    assert_eq!((row.price_per_km, row.updated_at), (Some(60), 20));
}

#[test]
fn listings_are_capped_and_priced() {
    let full = (400, s("max 5 active listings per driver — delete one before creating a new one"));
    assert_eq!(
        refusal(upsert(&user("d"), &vehicle(Some(49)), 50, &kept(listed("d"), None), 0, 0, 9)),
        (400, s("Minimum price per km is 50 sats (you set 49)."))
    );
    let ask = |known: Option<KeptListing>, own: i64, owners: i64| {
        upsert(&user("d"), &vehicle(Some(50)), 50, &known, own, owners, 9)
    };
    assert_eq!(refusal(ask(None, 5, 0)), full);
    assert!(ask(None, 4, 0).is_ok());
    assert!(ask(kept(listed("d"), None), 5, 5).is_ok());
    assert_eq!(refusal(ask(kept(listed("d"), Some(8)), 5, 5)), full);
    assert!(ask(kept(listed("d"), Some(8)), 4, 4).is_ok());
}

#[test]
fn a_listing_stays_with_its_driver() {
    let full = (400, s("max 5 active listings per driver — delete one before creating a new one"));
    let ask = |deleted_at: Option<i64>, own: i64, owners: i64| {
        upsert(&user("d"), &vehicle(Some(60)), 50, &kept(listed("e"), deleted_at), own, owners, 20)
    };
    let row = replace(&listed("e"), ask(None, 4, 5).ok().unwrap());
    assert_eq!((row.driver_pubkey.as_str(), row.driver_npub.as_deref()), ("e", Some("npub-e")));
    assert_eq!((row.price_per_km, row.created_at, row.updated_at), (Some(60), 9, 20));
    assert!(ask(Some(8), 4, 4).is_ok());
    assert_eq!(refusal(ask(Some(8), 4, 5)), full);
    assert_eq!(refusal(ask(None, 5, 0)), full);
}

#[test]
fn listings_are_changed_by_their_driver_alone() {
    let listing = listed("d");
    let mut kept = KeptListing { listing, deleted_at: None };
    assert_eq!(
        refusal(add_km(&user("d"), false, 6000, 10)),
        (400, s("km_driven must be between 0 and 5000 (sanity bound)"))
    );
    for (name, rows, total) in [("d", 1, 12), ("e", 0, 12), ("d", 1, 24)] {
        let distance = add_km(&user(name), true, 12, 10).ok().unwrap();
        assert_eq!(distance.change().apply(&mut kept), rows);
        assert_eq!(kept.listing.km_driven_total, total);
        assert_eq!(distance.written(rows).ok(), if rows > 0 { Some(12) } else { None });
    }
    let other = delete_one(&user("e"), 20);
    assert_eq!(other.change().apply(&mut kept), 0);
    assert_eq!(refusal(other.written(0)), (400, s("listing not found or not owned by you")));
    let own = delete_one(&user("d"), 20);
    assert_eq!(own.change().apply(&mut kept), 1);
    assert_eq!((kept.deleted_at, kept.listing.updated_at), (Some(20), 20));
    assert_eq!(own.written(1).ok(), Some(20));
    let late = add_km(&user("d"), true, 12, 30).ok().unwrap();
    assert_eq!(late.change().apply(&mut kept), 0);
    assert_eq!(
        refusal(late.written(0)),
        (400, s("listing not found, not owned by you, or already deleted"))
    );
    assert_eq!(delete_one(&user("d"), 31).change().apply(&mut kept), 0);
    assert_eq!((kept.deleted_at, kept.listing.km_driven_total), (Some(20), 24));
}

#[test]
fn services_lie_ahead() {
    for (total, interval, due, left) in
        [(0, 5000, 5000, 5000), (4999, 5000, 5000, 1), (5000, 5000, 10_000, 5000), (12_345, 5000, 15_000, 2655), (7, 0, 0, 0), (-7, 5, 0, 7)]
    {
        assert!(can_tell_service(total, interval));
        let h = service_hint(total, interval);
        assert_eq!((h.service_due_km, h.km_until_service), (due, left));
    }
    assert!(!can_tell_service(i64::MAX, i64::MAX));
}

use ulendo::services::nostr::{index_again, index_once, listing_hashtag, RelayEvent, LISTING_KIND};
use ulendo::services::push::PushService;

fn decode(text: &str) -> Vec<u8> {
    base64::Engine::decode(&base64::engine::general_purpose::URL_SAFE_NO_PAD, text).unwrap()
}

fn encode(bytes: &[u8]) -> String {
    base64::Engine::encode(&base64::engine::general_purpose::URL_SAFE_NO_PAD, bytes)
}

/// The key of the test vectors of RFC 6979, A.2.5.
fn service() -> PushService {
    let key = hex::decode("c9afa9d845ba75166b5c215767b1d6934e50c3db36e89b127b8a622b120f6721").unwrap();
    PushService::new("mailto:a@b.c".to_string(), "PUBLIC".to_string(), encode(&key))
}

#[test]
fn signatures_are_those_of_the_rfc() {
    assert_eq!(
        service().es256_sign(b"sample").map(hex::encode),
        Ok("efd48b2aacb6a8fd1140dd9cd45e81d69d2c877b56aaf991c34d0ea84eaf3716\
            f7cb1c942d657c41d436c7a1b6e29f65f3e900dbb9aff4064dc4ab2f843acda8"
            .to_string())
    );
}

#[test]
fn tokens_name_their_audience_and_expiry() {
    let s = service();
    let token = s.build_vapid_jwt_at("https://push.example.org/send/1?x=y", 1_000_000).unwrap();
    let parts: Vec<&str> = token.split('.').collect();
    assert_eq!(parts.len(), 3);
    assert_eq!(decode(parts[0]), b"{\"typ\":\"JWT\",\"alg\":\"ES256\"}");
    assert_eq!(
        decode(parts[1]),
        b"{\"aud\":\"https://push.example.org\",\"exp\":1043200,\"sub\":\"mailto:a@b.c\"}"
    );
    let input = format!("{}.{}", parts[0], parts[1]);
    assert_eq!(Ok(decode(parts[2])), s.es256_sign(input.as_bytes()));
    assert_eq!(s.token_for("https", &Some("push.example.org".to_string()), 1_000_000), Ok(token.clone()));
    assert_eq!(s.authorization("T"), "vapid t=T,k=PUBLIC");
    assert_eq!(s.public_key(), "PUBLIC");
}

#[test]
fn tokens_expire_half_a_day_from_now() {
    let token = service().build_vapid_jwt("https://p.example").unwrap();
    let claims: serde_json::Value =
        serde_json::from_slice(&decode(token.split('.').nth(1).unwrap())).unwrap();
    let exp = claims["exp"].as_i64().unwrap();
    assert!((exp - 43_200 - ulendo::clock::now()).abs() <= 2);
}

#[test]
fn a_clock_before_1970_gives_no_token() {
    let s = service();
    let early = "second time provided was later than self".to_string();
    assert_eq!(s.build_vapid_jwt_with("https://p.example", Err(early.clone())), Err(early.clone()));
    assert_eq!(
        s.build_vapid_jwt_with("not a url", Err(early)),
        Err("relative URL without a base".to_string())
    );
    assert_eq!(
        s.build_vapid_jwt_with("https://p.example", Ok(1_000_000)),
        s.build_vapid_jwt_at("https://p.example", 1_000_000)
    );
}

#[test]
fn bad_endpoints_and_keys_give_no_token() {
    assert_eq!(
        service().build_vapid_jwt_at("not a url", 0),
        Err("relative URL without a base".to_string())
    );
    let s = PushService::new(String::new(), String::new(), "?".to_string());
    assert!(s.build_vapid_jwt_at("https://p.example", 0).is_err());
    let s = PushService::new(String::new(), String::new(), encode(&[0u8; 32]));
    assert!(s.es256_sign(b"x").is_err());
}

#[test]
fn push_replies() {
    assert_eq!(PushService::send(200, "200 OK", ""), Ok(()));
    assert_eq!(PushService::send(201, "201 Created", ""), Ok(()));
    assert_eq!(
        PushService::send(410, "410 Gone", "expired"),
        Err("push failed 410 Gone: expired".to_string())
    );
}

fn tag(parts: &[&str]) -> Vec<String> {
    parts.iter().map(|p| p.to_string()).collect()
}

#[test]
fn relay_events_become_rows() {
    let event = RelayEvent {
        id: "e1".to_string(),
        pubkey: "pk".to_string(),
        kind: LISTING_KIND,
        created_at: 5,
        content: "hello".to_string(),
        tags: vec![
            tag(&["t", "ulendo"]),
            tag(&["d", "slug"]),
            tag(&["t"]),
            tag(&["d", "other"]),
            tag(&["t", "taxi", "x"]),
        ],
    };
    let row = index_once(&event, 9);
    assert_eq!(row.event_id, "e1");
    assert_eq!(row.kind, 30402);
    assert_eq!(row.pubkey, "pk");
    assert_eq!(row.d_tag, Some("slug".to_string()));
    assert_eq!(row.t_tags, "[\"ulendo\",\"taxi\"]");
    assert_eq!(row.content, "hello");
    assert_eq!(
        row.tags_json,
        "[[\"t\",\"ulendo\"],[\"d\",\"slug\"],[\"t\"],[\"d\",\"other\"],[\"t\",\"taxi\",\"x\"]]"
    );
    assert_eq!((row.created_at, row.indexed_at), (5, 9));
    assert_eq!(listing_hashtag(), "ulendo");

    let seen = index_once(&RelayEvent { content: "new".to_string(), tags: Vec::new(), ..event }, 12);
    let kept = index_again(&row, &seen);
    assert_eq!(kept.content, "new");
    assert_eq!(kept.tags_json, "[]");
    assert_eq!(kept.indexed_at, 12);
    assert_eq!(kept.t_tags, row.t_tags);
    assert_eq!(kept.created_at, 5);
}

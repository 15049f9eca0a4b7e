use ulendo::auth::{
    authorization_payload, pubkey_to_npub, request_url, time_or_zero, verify_event_at, verify_nip98_header,
    AuthUser, Nip98Event,
};
use ulendo::AppError;

const NOW: i64 = 1_700_000_000;
const URL: &str = "/api/bookings?page=1";
const PUBKEY: &str = "f9308a019258c31049344f85f89d5229b531c845836f99b08601f113bce036f9";
const NPUB: &str = "npub1lycg5qvjtrp3qjf5f7zl382j9x6nrjz9sdhenvyxq8c3808qxmus6gq266";

fn tag(parts: &[&str]) -> Vec<String> {
    parts.iter().map(|p| p.to_string()).collect()
}

/// An event signed with the secret key 3, whose method is not in upper case.
fn lower_case() -> Nip98Event {
    Nip98Event {
        id: "42ff574701d9bbfe171bdc69035a69d6fd794e9baf2b05f6ae0bf63d8bedaa72".to_string(),
        pubkey: PUBKEY.to_string(),
        created_at: NOW,
        kind: 27235,
        tags: vec![tag(&["t"]), tag(&["u", URL]), tag(&["method", "post"]), tag(&["u", "/other"])],
        content: "a \"quoted\" line\n".to_string(),
        sig: "3d940d8262f80c15158993806ae0b7ae569d6d9b07350d1dcacfaba1dae44328\
              54f976c3cb5d74dc2855ab888bbbc59079fb6a824f8efa2ea8592e19d7423e23"
            .to_string(),
    }
}

/// An event signed with the secret key 3.
fn signed(created_at: i64, kind: u32, tags: Vec<Vec<String>>, content: &str) -> Nip98Event {
    let mut secret = [0u8; 32];
    secret[31] = 3;
    let secp = secp256k1::Secp256k1::new();
    let keypair = secp256k1::Keypair::from_seckey_slice(&secp, &secret).unwrap();
    let text = serde_json::to_string(&(0, PUBKEY, created_at, kind, &tags, content)).unwrap();
    let hash = <sha2::Sha256 as sha2::Digest>::digest(text.as_bytes());
    let message = secp256k1::Message::from_digest_slice(hash.as_slice()).unwrap();
    let sig = secp.sign_schnorr_no_aux_rand(&message, &keypair);
    Nip98Event {
        id: hex::encode(hash),
        pubkey: PUBKEY.to_string(),
        created_at,
        kind,
        tags,
        content: content.to_string(),
        sig: hex::encode(&sig[..]),
    }
}

fn genuine() -> Nip98Event {
    let tags = vec![tag(&["t"]), tag(&["u", URL]), tag(&["method", "POST"]), tag(&["u", "/other"])];
    signed(NOW, 27235, tags, "a \"quoted\" line\n")
}

fn refusal(event: Nip98Event, method: &str, url: &str, now: i64) -> String {
    match verify_event_at(&Some(event), method, url, now) {
        Err(AppError::Unauthorized(m)) => m,
        _ => panic!("not refused"),
    }
}

#[test]
fn a_genuine_event_is_let_in() {
    let (npub, pubkey) = verify_event_at(&Some(genuine()), "POST", URL, NOW).ok().unwrap();
    assert_eq!(npub, NPUB);
    assert_eq!(pubkey, PUBKEY);
    assert!(genuine().verify_signature().is_ok());
}

#[test]
fn methods_are_named_in_upper_case() {
    assert!(lower_case().verify_signature().is_ok());
    assert_eq!(refusal(lower_case(), "POST", URL, NOW), "method mismatch");
    assert_eq!(refusal(lower_case(), "post", URL, NOW), "method mismatch");
    assert!(verify_event_at(&Some(genuine()), "post", URL, NOW).is_ok());
}

#[test]
fn a_clock_before_1970_counts_as_1970() {
    assert_eq!(time_or_zero(&Ok(NOW as u64)), NOW);
    assert_eq!(time_or_zero(&Err("second time provided was later than self".to_string())), 0);
    assert_eq!(refusal(genuine(), "POST", URL, 0), "event timestamp expired");
    assert_eq!(refusal(genuine(), "POST", URL, i64::MIN), "event timestamp expired");
}

#[test]
fn the_id_hashes_the_contents_as_json() {
    let tags = vec![tag(&[]), tag(&["u", "a\"\\/\u{8}\t\n\u{c}\r\u{1}\u{1f}\u{7f}é😀"])];
    let e = signed(-5, 7, tags, "");
    let text = format!(
        "[0,\"{PUBKEY}\",-5,7,[[],[\"u\",\"a\\\"\\\\/\\b\\t\\n\\f\\r\\u0001\\u001f\u{7f}é😀\"]],\"\"]"
    );
    assert_eq!(e.id, hex::encode(<sha2::Sha256 as sha2::Digest>::digest(text.as_bytes())));
    assert!(e.verify_signature().is_ok());
}

#[test]
fn a_change_of_any_field_is_noticed() {
    let changes: [fn(&mut Nip98Event); 4] = [
        |e| e.pubkey = "00".repeat(32),
        |e| e.created_at += 1,
        |e| e.tags[3][1] = "/elsewhere".to_string(),
        |e| e.content.push('!'),
    ];
    for change in changes {
        let mut e = genuine();
        change(&mut e);
        assert_eq!(refusal(e, "POST", URL, NOW), "event id mismatch");
    }
    let mut e = genuine();
    e.kind = 1;
    assert!(e.verify_signature().is_err());
}

#[test]
fn events_are_fresh_for_a_minute_either_way() {
    assert!(verify_event_at(&Some(genuine()), "POST", URL, NOW + 60).is_ok());
    assert!(verify_event_at(&Some(genuine()), "POST", URL, NOW - 60).is_ok());
    assert_eq!(refusal(genuine(), "POST", URL, NOW + 61), "event timestamp expired");
    assert_eq!(refusal(genuine(), "POST", URL, NOW - 61), "event timestamp expired");
    let mut e = genuine();
    e.created_at = i64::MIN;
    assert_eq!(refusal(e, "POST", URL, NOW), "event timestamp expired");
}

#[test]
fn each_part_of_an_event_is_checked() {
    assert!(matches!(
        verify_event_at(&None, "POST", URL, NOW),
        Err(AppError::Unauthorized(m)) if m == "invalid event JSON"
    ));
    let mut e = genuine();
    e.kind = 1;
    assert_eq!(refusal(e, "POST", URL, NOW), "expected kind 27235, got 1");
    assert_eq!(
        refusal(genuine(), "POST", "/x", NOW),
        "url mismatch: expected '/x', got '/api/bookings?page=1'"
    );
    assert_eq!(refusal(genuine(), "GET", URL, NOW), "method mismatch");
    let mut e = genuine();
    e.tags.truncate(1);
    assert_eq!(refusal(e, "POST", URL, NOW), "missing 'u' tag");
    let mut e = genuine();
    e.tags.truncate(2);
    assert_eq!(refusal(e, "POST", URL, NOW), "missing 'method' tag");
    let mut e = genuine();
    e.content.push('!');
    assert_eq!(refusal(e, "POST", URL, NOW), "event id mismatch");
    let mut e = genuine();
    e.sig = "zz".to_string();
    assert_eq!(refusal(e, "POST", URL, NOW), "invalid sig hex");
    let mut e = genuine();
    e.sig = "00".to_string();
    assert_eq!(refusal(e, "POST", URL, NOW), "invalid schnorr sig");
    let mut e = genuine();
    e.sig = "00".repeat(64);
    assert_eq!(refusal(e, "POST", URL, NOW), "signature verification failed");
}

#[test]
fn keys_are_checked() {
    for (key, message) in [
        ("xyz".to_string(), "invalid pubkey hex"),
        ("00".to_string(), "invalid xonly pubkey"),
        ("ff".repeat(32), "invalid xonly pubkey"),
    ] {
        let mut e = genuine();
        e.pubkey = key;
        let text =
            serde_json::to_string(&(0, &e.pubkey, e.created_at, e.kind, &e.tags, &e.content)).unwrap();
        e.id = hex::encode(<sha2::Sha256 as sha2::Digest>::digest(text.as_bytes()));
        assert_eq!(refusal(e, "POST", URL, NOW), message);
    }
}

#[test]
fn requests_are_checked_against_the_clock() {
    let now = ulendo::clock::now();
    let tags = vec![tag(&["u", "/a?b=c"]), tag(&["method", "GET"])];
    let event = Some(signed(now, 27235, tags, ""));
    let user = AuthUser::from_request_parts(&event, "get", "/a", Some("b=c")).ok().unwrap();
    assert_eq!(user.npub, NPUB);
    assert_eq!(user.public_key, PUBKEY);
    assert!(verify_nip98_header(&event, "GET", "/a?b=c").is_ok());
    assert!(verify_nip98_header(&event, "GET", "/a").is_err());
    assert!(AuthUser::from_request_parts(&event, "get", "/a", None).is_err());
    assert!(AuthUser::from_request_parts(&Some(genuine()), "POST", "/api/bookings", Some("page=1")).is_err());
}

#[test]
fn the_first_tag_of_a_name_counts() {
    let e = genuine();
    assert_eq!(e.get_tag("u"), Some(URL));
    assert_eq!(e.get_tag("t"), None);
    assert_eq!(e.get_tag("x"), None);
}

#[test]
fn headers_carry_base64_in_either_alphabet() {
    assert_eq!(authorization_payload(Some("Nostr Pz4/Pg==")).ok(), Some(b"?>?>".to_vec()));
    assert_eq!(authorization_payload(Some("Nostr Pz4_Pg==")).ok(), Some(b"?>?>".to_vec()));
    assert_eq!(authorization_payload(Some("Nostr ++++")).ok(), Some(vec![0xfb, 0xef, 0xbe]));
    assert_eq!(authorization_payload(Some("Nostr ----")).ok(), Some(vec![0xfb, 0xef, 0xbe]));
    assert_eq!(authorization_payload(Some("Nostr Pz4_Pg")).ok(), Some(b"?>?>".to_vec()));
    assert_eq!(authorization_payload(Some("Nostr Pz4_Pj8")).ok(), Some(b"?>?>?".to_vec()));
    let cases = [
        (None, "missing Authorization header"),
        (Some("Bearer x"), "Authorization must start with 'Nostr '"),
        (Some("Nostr ***"), "invalid base64"),
        (Some("Nostr Pz4_P"), "invalid base64"),
        (Some("Nostr ++--"), "invalid base64"),
        (Some("Nostr Pz4/Pg"), "invalid base64"),
        (Some("Nostr Pz4/Pj8"), "invalid base64"),
        (Some("Nostr Pz4_Pg="), "invalid base64"),
    ];
    for (header, message) in cases {
        assert!(matches!(authorization_payload(header), Err(AppError::Unauthorized(m)) if m == message));
    }
}

#[test]
fn npubs_are_bech32() {
    assert_eq!(
        pubkey_to_npub("7e7e9c42a91bfef19fa929e5fda1b72e0ebc1a4c1141673e2794234d86addf4e"),
        Ok("npub10elfcs4fr0l0r8af98jlmgdh9c8tcxjvz9qkw038js35mp4dma8qzvjptg".to_string())
    );
    assert_eq!(pubkey_to_npub("abc"), Err(hex::decode("abc").unwrap_err().to_string()));
}

#[test]
fn the_request_url_is_the_path_with_the_query() {
    assert_eq!(request_url("/a", None), "/a");
    assert_eq!(request_url("/a", Some("b=c")), "/a?b=c");
}

use musicview::counters::{increased_likes, reduced_likes, stored_likes, MAX_LIKES};
use musicview::ids::ObjectId;
use musicview::password::{password_digest, password_matches, to_lower_hex};
use musicview::protocol::{Command, Outcome};
use musicview::query::QueryParams;
use musicview::records::Session;
use musicview::sessions::{
    read_clock, session_expiry, session_is_live, sweep_expired_sessions, SESSION_LIFE,
};
use musicview::text::text_equals;

#[test]
fn object_id_parses_lower_and_upper_case_hex() {
    let lower = ObjectId::parse("0123456789abcdef01234567").unwrap();
    assert_eq!(
        lower.bytes,
        [0x01, 0x23, 0x45, 0x67, 0x89, 0xab, 0xcd, 0xef, 0x01, 0x23, 0x45, 0x67]
    );
    let upper = ObjectId::parse("0123456789ABCDEF01234567").unwrap();
    assert_eq!(upper.bytes, lower.bytes);
    assert_eq!(upper.to_hex(), "0123456789abcdef01234567");
}

#[test]
fn object_id_rejects_bad_text() {
    assert!(ObjectId::parse("").is_none());
    assert!(ObjectId::parse("0123456789abcdef0123456").is_none());
    assert!(ObjectId::parse("0123456789abcdef012345678").is_none());
    assert!(ObjectId::parse("0123456789abcdef0123456g").is_none());
    assert!(ObjectId::parse("0123456789abcdef012345678x").is_none());
    assert!(ObjectId::parse("é123456789abcdef0123456").is_none());
}

#[test]
fn object_id_text_roundtrip() {
    let id = ObjectId { bytes: [255, 0, 16, 1, 2, 3, 4, 5, 6, 7, 8, 9] };
    let text = id.to_hex();
    assert_eq!(text, "ff0010010203040506070809");
    assert_eq!(ObjectId::parse(&text).unwrap().bytes, id.bytes);
}

#[test]
fn lower_hex_writes_two_digits_per_byte() {
    assert_eq!(to_lower_hex(&[]), "");
    assert_eq!(to_lower_hex(&[0x00, 0x0f, 0xa0, 0xff]), "000fa0ff");
}

#[test]
fn password_digest_is_sha256_of_password_and_salt() {
    // SHA-256("abc")
    let expected = "ba7816bf8f01cfea414140de5dae2223b00361a396177a9cb410ff61f20015ad";
    assert_eq!(password_digest("ab", "c"), expected);
    assert_eq!(password_digest("", "abc"), expected);
    assert_eq!(
        password_digest("", ""),
        "e3b0c44298fc1c149afbf4c8996fb92427ae41e4649b934ca495991b7852b855"
    );
    assert!(password_matches("a", "bc", expected));
    assert!(!password_matches("abc", "x", expected));
}

#[test]
fn text_equality_is_exact() {
    assert!(text_equals("comment", "comment"));
    assert!(!text_equals("comment", "Comment"));
    assert!(!text_equals("comment", "comments"));
    assert!(text_equals("", ""));
    assert!(text_equals("é", "é"));
}

#[test]
fn query_parameters_take_the_first_value() {
    let q = QueryParams::parse("?a=1&b=2&a=3");
    assert_eq!(q.get("a").as_deref(), Some("1"));
    assert_eq!(q.get("b").as_deref(), Some("2"));
    assert_eq!(q.get("c"), None);
}

#[test]
fn query_parameters_without_value_and_encoded() {
    let q = QueryParams::parse("flag&name=a%20b&=skipped");
    assert_eq!(q.get("flag").as_deref(), Some(""));
    assert_eq!(q.get("name").as_deref(), Some("a b"));
    assert_eq!(q.get(""), None);
    let empty = QueryParams::parse("");
    assert_eq!(empty.get("a"), None);
}

#[test]
fn like_counts_saturate() {
    assert_eq!(increased_likes(0), 1);
    assert_eq!(increased_likes(41), 42);
    assert_eq!(increased_likes(MAX_LIKES), MAX_LIKES);
    assert_eq!(increased_likes(MAX_LIKES + 1), MAX_LIKES + 2);
    assert_eq!(reduced_likes(0), 0);
    assert_eq!(reduced_likes(42), 41);
    assert_eq!(reduced_likes(increased_likes(7)), 7);
    assert_eq!(increased_likes(reduced_likes(7)), 7);
}

#[test]
fn like_counts_are_stored_as_signed() {
    assert_eq!(stored_likes(0), 0);
    assert_eq!(stored_likes(MAX_LIKES), i64::MAX);
    assert_eq!(stored_likes(MAX_LIKES + 1), i64::MIN);
}

#[test]
fn sessions_last_their_life() {
    assert_eq!(SESSION_LIFE, 1800);
    assert_eq!(session_expiry(1_000), 2_800);
    let user = ObjectId::parse("0123456789abcdef01234567").unwrap();
    let session = Session { user_id: user, expiration_date: session_expiry(1_000) };
    assert!(session_is_live(&session, 1_000));
    assert!(session_is_live(&session, 2_800));
    assert!(!session_is_live(&session, 2_801));
}

#[test]
fn the_clock_answers_with_a_time() {
    match read_clock() {
        Outcome::Clock(t) => assert!(t > 1_600_000_000),
        _ => panic!("the clock gave no time"),
    }
}

#[test]
fn sweeps_delete_what_expired_before_now() {
    match sweep_expired_sessions(&Outcome::Clock(5_000)) {
        Some(Command::DeleteExpiredSessions { now }) => assert_eq!(now, 5_000),
        _ => panic!("expected a sweep"),
    }
    assert!(sweep_expired_sessions(&Outcome::Failed).is_none());
}

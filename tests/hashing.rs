use asset_validator::crypto::{hex_upper_of, ContentHasher, Crypto, FileHash, HashResult};
use asset_validator::timestamp::Timestamp;

const ABC_SHA256: &str = "BA7816BF8F01CFEA414140DE5DAE2223B00361A396177A9CB410FF61F20015AD";
const EMPTY_SHA256: &str = "E3B0C44298FC1C149AFBF4C8996FB92427AE41E4649B934CA495991B7852B855";

#[test]
fn hex_encodes_high_nibble_first_in_upper_case() {
    assert_eq!(hex_upper_of(&[0xAB, 0x01, 0x00, 0xFF]), "AB0100FF");
    assert_eq!(hex_upper_of(&[]), "");
}

#[test]
fn hasher_digests_known_inputs() {
    let mut h = ContentHasher::new();
    h.update(b"abc");
    assert_eq!(h.finish(), ABC_SHA256);

    let empty = ContentHasher::new();
    assert_eq!(empty.finish(), EMPTY_SHA256);
}

#[test]
fn hasher_result_does_not_depend_on_chunking() {
    let mut whole = ContentHasher::new();
    whole.update(b"hello, streaming world");
    let mut parts = ContentHasher::new();
    parts.update(b"hello, ");
    parts.update(b"");
    parts.update(b"streaming ");
    parts.update(b"world");
    let a = whole.finish();
    assert_eq!(a.len(), 64);
    assert_eq!(a, parts.finish());
}

#[test]
fn stable_timestamps_yield_a_fingerprint() {
    let t = Timestamp::new(1_700_000_000, 250);
    match Crypto::sha256(t, Ok(ABC_SHA256.to_string()), t) {
        HashResult::Success { last_modified_time, sha256 } => {
            assert_eq!(last_modified_time, t);
            assert_eq!(sha256, ABC_SHA256);
        }
        other => panic!("unexpected {:?}", other),
    }
}

#[test]
fn timestamp_change_during_hash_is_detected() {
    let before = Timestamp::new(100, 0);
    let after = Timestamp::new(100, 1);
    match Crypto::sha256(before, Ok(ABC_SHA256.to_string()), after) {
        HashResult::FileModified { before: b, after: a } => {
            assert_eq!(b, before);
            assert_eq!(a, after);
        }
        other => panic!("unexpected {:?}", other),
    }
}

#[test]
fn unreadable_content_is_an_error() {
    let t = Timestamp::new(7, 0);
    match Crypto::sha256(t, Err("permission denied".to_string()), t) {
        HashResult::Error { message } => assert_eq!(message, "permission denied"),
        other => panic!("unexpected {:?}", other),
    }
}

#[test]
fn file_hash_clone_keeps_fields() {
    let f = FileHash { last_modified_time: Timestamp::new(3, 4), sha256: "00".to_string() };
    let g = f.clone();
    assert_eq!(g.last_modified_time, f.last_modified_time);
    assert_eq!(g.sha256, f.sha256);
}

#[test]
fn timestamps_order_by_seconds_then_nanoseconds() {
    let a = Timestamp::new(10, 999_999_999);
    let b = Timestamp::new(11, 0);
    let c = Timestamp::new(11, 5);
    assert!(a.is_earlier_than(&b));
    assert!(b.is_earlier_than(&c));
    assert!(!c.is_earlier_than(&b));
    assert!(!b.is_earlier_than(&b));
    assert!(Timestamp::new(-1, 0).is_earlier_than(&Timestamp::new(0, 0)));
}

//! What a message holds, and what a signature on it covers.

use harmion_connect::keys::{Signature, SigningKey, VerifyingKey};
use harmion_connect::message::{DecodeError, FromError, NONCE_LEN};
use harmion_connect::{Message, MessageT, PeerIndex};
use rand::rngs::OsRng;
use serde::{Deserialize, Deserializer, Serialize, Serializer};

const CLOCK: &str = "the clock reads a time after the epoch";

fn generate() -> SigningKey {
    SigningKey::from_bytes(&ed25519_dalek::SigningKey::generate(&mut OsRng).to_bytes())
}

fn decode<T: for<'de> Deserialize<'de>>(
    message: Message,
) -> Result<MessageT<T>, DecodeError<rmp_serde::decode::Error>> {
    let content = message.content.clone();
    let mut deserializer = rmp_serde::Deserializer::new(std::io::Cursor::new(content.as_slice()));
    let decoded = match T::deserialize(&mut deserializer) {
        Ok(value) => Ok((value, deserializer.position() as usize)),
        Err(e) => Err(e),
    };
    MessageT::try_from(message, decoded)
}

fn now() -> u64 {
    std::time::SystemTime::now()
        .duration_since(std::time::UNIX_EPOCH)
        .unwrap()
        .as_secs()
}

#[test]
fn message_new_produces_valid_signature_and_fields() {
    let key = generate();
    let before = now();

    let content = b"hello world".to_vec();

    let msg = Message::new(content.clone(), &key).expect(CLOCK);

    let after = now();

    assert_eq!(msg.content, content, "content should be preserved");
    assert_eq!(msg.origin, PeerIndex::from(key.verifying_key()), "origin should match verifying key");
    assert_eq!(msg.nonce.len(), 12, "nonce must be 12 bytes (NONCE_LEN)");
    assert!(msg.timestamp >= before && msg.timestamp <= after, "timestamp should be current unix time");
    assert!(msg.verify(), "freshly created message must verify");
}

#[test]
fn message_verify_fails_if_content_tampered() {
    let key = generate();
    let mut msg = Message::new(b"authentic".to_vec(), &key).expect(CLOCK);

    msg.content = b"tampered".to_vec();
    assert!(!msg.verify(), "verification must fail when content is changed");
}

#[test]
fn message_verify_fails_if_nonce_tampered() {
    let key = generate();
    let mut msg = Message::new(b"bytes".to_vec(), &key).expect(CLOCK);

    msg.nonce[0] ^= 0xFF;
    assert!(!msg.verify(), "verification must fail when nonce changes");
}

#[test]
fn message_verify_fails_if_origin_key_changed() {
    let key1 = generate();
    let key2 = generate();
    let mut msg = Message::new(b"payload".to_vec(), &key1).expect(CLOCK);

    msg.origin = PeerIndex::from(key2.verifying_key());
    assert!(!msg.verify(), "verification must fail when origin/pubkey mismatches signature");
}

#[derive(Debug, Clone, PartialEq)]
struct Demo {
    a: u32,
    b: String,
}

impl Serialize for Demo {
    fn serialize<S: Serializer>(&self, serializer: S) -> Result<S::Ok, S::Error> {
        (self.a, &self.b).serialize(serializer)
    }
}

impl<'de> Deserialize<'de> for Demo {
    fn deserialize<D: Deserializer<'de>>(deserializer: D) -> Result<Self, D::Error> {
        let (a, b) = <(u32, String)>::deserialize(deserializer)?;
        Ok(Demo { a, b })
    }
}

#[test]
fn message_from_and_try_from_roundtrip_success() {
    let key = generate();
    let value = Demo { a: 42, b: "xyz".into() };

    let msg = Message::from(rmp_serde::to_vec(&value), &key).expect("encoding should succeed");
    assert!(msg.verify(), "encoded message should verify");

    let typed: MessageT<Demo> = decode(msg).expect("decoding should succeed");
    assert_eq!(typed.content, value, "roundtrip content should match");
    assert!(typed.verify_result, "verify_result should be true for intact message");
}

#[test]
fn message_t_try_from_decode_error_for_invalid_content() {
    let key = generate();

    let msg = Message::new(b"not msgpack for u32".to_vec(), &key).expect(CLOCK);
    assert!(msg.verify(), "signature should verify even if content is not valid msgpack for target type");

    let res: Result<MessageT<u32>, _> = decode(msg);
    assert!(res.is_err(), "decoding invalid msgpack into u32 should fail");
}

#[test]
fn message_verify_fails_if_timestamp_tampered() {
    let key = generate();
    let mut msg = Message::new(b"time".to_vec(), &key).expect(CLOCK);

    msg.timestamp = msg.timestamp.saturating_add(1);
    assert!(!msg.verify(), "verification must fail when timestamp changes");
}

const SEED: [u8; 32] = [
    0x9d, 0x61, 0xb1, 0x9d, 0xef, 0xfd, 0x5a, 0x60, 0xba, 0x84, 0x4a, 0xf4, 0x92, 0xec, 0x2c, 0xc4,
    0x44, 0x49, 0xc5, 0x69, 0x7b, 0x32, 0x69, 0x19, 0x70, 0x3b, 0xac, 0x03, 0x1c, 0xae, 0x7f, 0x60,
];

const PUBLIC: [u8; 32] = [
    0xd7, 0x5a, 0x98, 0x01, 0x82, 0xb1, 0x0a, 0xb7, 0xd5, 0x4b, 0xfe, 0xd3, 0xc9, 0x64, 0x07, 0x3a,
    0x0e, 0xe1, 0x72, 0xf3, 0xda, 0xa6, 0x23, 0x25, 0xaf, 0x02, 0x1a, 0x68, 0xf7, 0x07, 0x51, 0x1a,
];

const EMPTY_SIGNATURE: [u8; 64] = [
    0xe5, 0x56, 0x43, 0x00, 0xc3, 0x60, 0xac, 0x72, 0x90, 0x86, 0xe2, 0xcc, 0x80, 0x6e, 0x82, 0x8a,
    0x84, 0x87, 0x7f, 0x1e, 0xb8, 0xe5, 0xd9, 0x74, 0xd8, 0x73, 0xe0, 0x65, 0x22, 0x49, 0x01, 0x55,
    0x5f, 0xb8, 0x82, 0x15, 0x90, 0xa3, 0x3b, 0xac, 0xc6, 0x1e, 0x39, 0x70, 0x1c, 0xf9, 0xb4, 0x6b,
    0xd2, 0x5b, 0xf5, 0xf0, 0x59, 0x5b, 0xbe, 0x24, 0x65, 0x51, 0x41, 0x43, 0x8e, 0x7a, 0x10, 0x0b,
];

#[test]
fn keys_and_signatures_have_their_published_bytes() {
    let key = SigningKey::from_bytes(&SEED);
    assert_eq!(key.verifying_key().to_bytes(), PUBLIC);
    assert_eq!(key.sign(b"").to_bytes(), EMPTY_SIGNATURE);
    let public = VerifyingKey::from_bytes(&PUBLIC).expect("a published key decodes");
    assert!(public.verify_strict(b"", &Signature::from_bytes(&EMPTY_SIGNATURE)));
    assert!(!public.verify_strict(b"x", &Signature::from_bytes(&EMPTY_SIGNATURE)));
}

#[test]
fn bytes_that_are_no_point_are_no_key() {
    let mut found = 0;
    for b in 0..=255u8 {
        let mut bytes = [0u8; 32];
        bytes[0] = b;
        let ours = VerifyingKey::from_bytes(&bytes);
        let theirs = ed25519_dalek::VerifyingKey::from_bytes(&bytes);
        assert_eq!(ours.is_some(), theirs.is_ok());
        match ours {
            Some(key) => assert_eq!(key.to_bytes(), bytes),
            None => found += 1,
        }
    }
    assert!(found > 0);
}

#[test]
fn a_neutral_commitment_is_refused() {
    let mut bytes = [0u8; 64];
    bytes[0] = 1;
    let public = VerifyingKey::from_bytes(&PUBLIC).unwrap();
    assert!(!public.verify_strict(b"", &Signature::from_bytes(&bytes)));
}

#[test]
fn a_signature_covers_content_timestamp_and_nonce_in_this_order() {
    let key = SigningKey::from_bytes(&SEED);
    let nonce = [7u8; NONCE_LEN];
    let msg = Message::sign_at(vec![1, 2, 3], &key, 0x0102_0304_0506_0708, nonce);

    let mut data = vec![1, 2, 3, 1, 2, 3, 4, 5, 6, 7, 8];
    data.extend_from_slice(&nonce);
    assert_eq!(msg.sig.to_bytes(), key.sign(&data).to_bytes());
    assert_eq!(msg.timestamp, 0x0102_0304_0506_0708);
    assert_eq!(msg.nonce, nonce);
    assert_eq!(msg.origin, PeerIndex::from(&key));
    assert!(msg.verify());
}

#[test]
fn nonces_differ_between_messages() {
    let key = generate();
    let a = Message::new(vec![], &key).expect(CLOCK);
    let b = Message::new(vec![], &key).expect(CLOCK);
    assert_ne!(a.nonce, b.nonce);
}

#[test]
fn what_cannot_be_encoded_makes_no_message() {
    let key = generate();
    let r = Message::from(Err::<Vec<u8>, &str>("no"), &key);
    assert_eq!(r, Err(FromError::Encode("no")));
}

#[test]
fn an_inauthentic_message_decodes_and_says_so() {
    let key = generate();
    let mut msg = Message::from(rmp_serde::to_vec(&5u32), &key).expect(CLOCK);
    msg.timestamp ^= 1;
    let typed: MessageT<u32> = decode(msg.clone()).expect("the content is intact");
    assert_eq!(typed.content, 5);
    assert!(!typed.verify_result);
    assert_eq!(typed.timestamp, msg.timestamp);
    assert_eq!(typed.sig, msg.sig);
    assert_eq!(typed.nonce, msg.nonce);
}

#[test]
fn content_with_bytes_behind_the_value_is_not_decoded() {
    let key = generate();
    let msg = Message::new(vec![5, 5], &key).expect(CLOCK);
    let r = MessageT::<u8>::try_from(msg.clone(), Ok::<(u8, usize), String>((5, 1)));
    assert_eq!(r, Err(DecodeError::TrailingBytes));
    let r = MessageT::<u8>::try_from(msg, Err("why".to_string()));
    assert_eq!(r, Err(DecodeError::Decoder("why".to_string())));
}

fn hash_of<T: std::hash::Hash>(value: &T) -> u64 {
    let mut hasher = std::collections::hash_map::DefaultHasher::new();
    value.hash(&mut hasher);
    std::hash::Hasher::finish(&hasher)
}

#[test]
fn a_peer_is_hashed_by_the_bytes_of_its_key() {
    let key = SigningKey::from_bytes(&[7; 32]).verifying_key();
    let other = SigningKey::from_bytes(&[8; 32]).verifying_key();
    assert_eq!(hash_of(&key), hash_of(&key.to_bytes()));
    assert_eq!(hash_of(&PeerIndex::from(key)), hash_of(&key.to_bytes()));
    assert_ne!(hash_of(&PeerIndex::from(key)), hash_of(&PeerIndex::from(other)));
}

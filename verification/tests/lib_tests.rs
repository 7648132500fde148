//! Messages, peers and subscribers through the public interface.

use std::collections::{HashMap, HashSet};

use harmion_connect::keys::SigningKey;
use harmion_connect::message::DecodeError;
use harmion_connect::{Message, MessageT, PeerIndex, Subscriber, TopicTree};
use rand::rngs::OsRng;
use rand::RngCore;
use serde::{Deserialize, Deserializer, Serialize, Serializer};

const CLOCK: &str = "the clock reads a time after the epoch";

fn generate() -> SigningKey {
    SigningKey::from_bytes(&ed25519_dalek::SigningKey::generate(&mut OsRng).to_bytes())
}

fn encode<T: Serialize>(value: &T) -> Result<Vec<u8>, rmp_serde::encode::Error> {
    rmp_serde::to_vec(value)
}

fn decode<T: for<'de> Deserialize<'de>>(
    message: Message,
) -> Result<MessageT<T>, DecodeError<rmp_serde::decode::Error>> {
    let content = message.content.clone();
    let mut deserializer = rmp_serde::Deserializer::new(std::io::Cursor::new(content.as_slice()));
    let decoded = match T::deserialize(&mut deserializer) {
        Ok(value) => Ok((value, deserializer.position() as usize)),
        Err(e) => Err(e),
    };
    MessageT::try_from(message, decoded)
}

#[derive(Debug, Clone, PartialEq)]
struct MyData {
    a: u32,
    b: String,
}

impl Serialize for MyData {
    fn serialize<S: Serializer>(&self, serializer: S) -> Result<S::Ok, S::Error> {
        (self.a, &self.b).serialize(serializer)
    }
}

impl<'de> Deserialize<'de> for MyData {
    fn deserialize<D: Deserializer<'de>>(deserializer: D) -> Result<Self, D::Error> {
        let (a, b) = <(u32, String)>::deserialize(deserializer)?;
        Ok(MyData { a, b })
    }
}

#[test]
fn signature() -> Result<(), Box<dyn std::error::Error>> {
    let key = generate();

    let msg = Message::from(encode(&OsRng.next_u64()), &key).expect(CLOCK);

    assert!(msg.verify());

    Ok(())
}

#[test]
fn message_new_signs_and_verifies_valid_signature() {
    let key = generate();
    let payload = b"hello-world".to_vec();

    let msg = Message::new(payload.clone(), &key).expect(CLOCK);

    assert_eq!(msg.content, payload, "content must round-trip into Message");
    assert_eq!(msg.origin, PeerIndex::from(key.verifying_key()), "origin must be derived from signing key");
    assert!(msg.timestamp > 0, "timestamp should be a UNIX epoch seconds value");
    assert_eq!(msg.nonce.len(), 12, "nonce length must match NONCE_LEN");
    assert!(msg.verify(), "freshly created message must verify");
}

#[test]
fn message_verify_fails_if_content_is_tampered() {
    let key = generate();
    let mut msg = Message::new(b"authentic".to_vec(), &key).expect(CLOCK);

    msg.content = b"tampered".to_vec();

    assert!(!msg.verify(), "changing content must invalidate signature");
}

#[test]
fn message_verify_fails_if_timestamp_is_tampered() {
    let key = generate();
    let mut msg = Message::new(b"time".to_vec(), &key).expect(CLOCK);

    msg.timestamp = msg.timestamp.saturating_add(1);

    assert!(!msg.verify(), "changing timestamp must invalidate signature");
}

#[test]
fn message_verify_fails_if_nonce_is_tampered() {
    let key = generate();
    let mut msg = Message::new(b"nonce".to_vec(), &key).expect(CLOCK);

    msg.nonce[0] ^= 0b0000_0001;

    assert!(!msg.verify(), "changing nonce must invalidate signature");
}

#[test]
fn message_verify_fails_if_origin_key_is_mismatched() {
    let key1 = generate();
    let key2 = generate();
    let mut msg = Message::new(b"origin-check".to_vec(), &key1).expect(CLOCK);

    msg.origin = PeerIndex::from(key2.verifying_key());

    assert!(!msg.verify(), "changing origin verifying key must invalidate verification");
}

#[test]
fn message_from_and_try_from_round_trip_custom_struct() {
    let key = generate();

    let original = MyData {
        a: 42,
        b: "hello".into(),
    };

    let msg = Message::from(encode(&original), &key).expect("encoding should succeed");
    assert!(msg.verify(), "encoded message should verify");

    let decoded: MessageT<MyData> = decode(msg).expect("decoding should succeed");
    assert_eq!(decoded.content, original, "decoded content should match original struct");
    assert!(decoded.verify_result, "verify_result should reflect original verify() result");
    assert_eq!(decoded.nonce.len(), 12, "nonce preserved");
    assert_eq!(decoded.origin, PeerIndex::from(key.verifying_key()), "origin preserved");
}

#[test]
fn message_try_from_fails_for_incompatible_type() {
    let key = generate();

    let msg = Message::from(encode(&"not-a-number"), &key).expect("encoding should succeed");
    let res: Result<MessageT<u64>, _> = decode(msg);
    assert!(res.is_err(), "decoding incompatible type should fail");
}

#[test]
fn peer_index_equality_and_hashing_behavior() {
    let k1 = generate();
    let k2 = generate();

    let p1a = PeerIndex::from(k1.verifying_key());
    let p1b = PeerIndex::from(k1.verifying_key());
    let p2 = PeerIndex::from(k2.verifying_key());

    assert_eq!(p1a, p1b);
    assert_ne!(p1a, p2);

    let mut set = HashSet::new();
    set.insert(p1a);
    set.insert(p2);
    set.insert(p1b);
    assert_eq!(set.len(), 2, "duplicate PeerIndex should not increase set size");

    let mut map: HashMap<PeerIndex, &str> = HashMap::new();
    map.insert(p1a, "first");
    map.insert(p2, "second");
    assert_eq!(map.get(&p1b), Some(&"first"));
    assert_eq!(map.get(&p2), Some(&"second"));
}

#[test]
fn message_sign_includes_nonce_timestamp_and_content() {
    let key = generate();

    let msg = Message::new(b"base".to_vec(), &key).expect(CLOCK);
    assert!(msg.verify());

    let mut m1 = msg.clone();
    m1.content = b"base+".to_vec();
    assert!(!m1.verify());

    let mut m2 = msg.clone();
    m2.timestamp = m2.timestamp.saturating_add(9999);
    assert!(!m2.verify());

    let mut m3 = msg.clone();
    m3.nonce[3] ^= 0xFF;
    assert!(!m3.verify());
}

#[derive(Debug)]
struct DummyErr;

impl std::fmt::Display for DummyErr {
    fn fmt(&self, f: &mut std::fmt::Formatter<'_>) -> std::fmt::Result {
        f.write_str("dummy error")
    }
}

impl std::error::Error for DummyErr {}

struct DummySubscriber {
    ok: bool,
}

impl Subscriber for DummySubscriber {
    type E = DummyErr;
    type Pending = std::future::Ready<Result<(), DummyErr>>;

    fn subscribe(&self, _topic: &TopicTree) -> Self::Pending {
        std::future::ready(if self.ok { Ok(()) } else { Err(DummyErr) })
    }

    fn un_subscribe(&self, _topic: &TopicTree) -> Self::Pending {
        std::future::ready(if self.ok { Ok(()) } else { Err(DummyErr) })
    }
}

#[test]
fn subscriber_trait_happy_and_error_paths() {
    let runtime = tokio::runtime::Builder::new_current_thread().build().unwrap();
    runtime.block_on(async {
        let topic = TopicTree::default();

        let ok_sub = DummySubscriber { ok: true };
        assert!(ok_sub.subscribe(&topic).await.is_ok(), "subscribe should succeed");
        assert!(ok_sub.un_subscribe(&topic).await.is_ok(), "un_subscribe should succeed");

        let err_sub = DummySubscriber { ok: false };
        assert!(err_sub.subscribe(&topic).await.is_err(), "subscribe should fail");
        assert!(err_sub.un_subscribe(&topic).await.is_err(), "un_subscribe should fail");
    });
}

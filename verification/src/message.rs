//! Messages that carry their author's signature.

use crate::collections::Key;
use crate::keys;
use crate::keys::{Signature, SigningKey, VerifyingKey};
use vstd::prelude::*;
use vstd::std_specs::cmp::PartialEqSpec;

verus! {

pub const NONCE_LEN: usize = 12;

pub type Nonce = [u8; 12];

/// Names a peer: its public key.
#[derive(Clone, Copy, Debug)]
pub struct PeerIndex(VerifyingKey);

impl View for PeerIndex {
    type V = Seq<u8>;

    closed spec fn view(&self) -> Seq<u8> {
        self.0@
    }
}

impl PeerIndex {
    /// The key that the peer is named by.
    pub fn inner(self) -> (r: VerifyingKey)
        ensures
            r@ == self@,
    {
        self.0
    }

    /// Whether both name the same peer.
    pub fn same(&self, other: &PeerIndex) -> (r: bool)
        ensures
            r == (self@ == other@),
    {
        self.0.same(&other.0)
    }
}

impl From<VerifyingKey> for PeerIndex {
    fn from(key: VerifyingKey) -> (r: PeerIndex)
        ensures
            r@ == key@,
    {
        PeerIndex(key)
    }
}

impl vstd::std_specs::convert::FromSpecImpl<VerifyingKey> for PeerIndex {
    open spec fn obeys_from_spec() -> bool {
        true
    }

    closed spec fn from_spec(key: VerifyingKey) -> PeerIndex {
        PeerIndex(key)
    }
}

impl From<&SigningKey> for PeerIndex {
    fn from(key: &SigningKey) -> (r: PeerIndex)
        ensures
            r@ == crate::keys::ed25519_public(key@),
    {
        PeerIndex(key.verifying_key())
    }
}

impl vstd::std_specs::convert::FromSpecImpl<&SigningKey> for PeerIndex {
    open spec fn obeys_from_spec() -> bool {
        false
    }

    open spec fn from_spec(key: &SigningKey) -> PeerIndex {
        arbitrary()
    }
}

impl PartialEq for PeerIndex {
    fn eq(&self, other: &Self) -> (r: bool) {
        self.same(other)
    }
}

impl vstd::std_specs::cmp::PartialEqSpecImpl for PeerIndex {
    open spec fn obeys_eq_spec() -> bool {
        true
    }

    open spec fn eq_spec(&self, other: &Self) -> bool {
        self@ == other@
    }
}

impl Eq for PeerIndex {

}

impl std::hash::Hash for PeerIndex {
    fn hash<H: std::hash::Hasher>(&self, state: &mut H)
        ensures
            exists|s: &mut H| #[trigger]
                keys::hashes::<H>(self@, s) && *s == *old(state) && *final(s) == *final(state),
    {
        std::hash::Hash::hash(&self.0, state);
        assert(self@ == self.0@);
    }
}

/// Peers are equal where the keys they were made from are, and only there. Of
/// two peers that are put into a set, the first once more, there are then two
/// where the keys differ, and one where they do not.
pub proof fn peers_are_told_apart_by_their_keys(a: VerifyingKey, b: VerifyingKey)
    ensures
        ({
            let p: PeerIndex = vstd::std_specs::convert::FromSpec::from_spec(a);
            let q: PeerIndex = vstd::std_specs::convert::FromSpec::from_spec(b);
            &&& p.eq_spec(&q) <==> a@ == b@
            &&& Set::empty().insert(p@).insert(q@).insert(p@).len() == if a@ == b@ {
                1nat
            } else {
                2nat
            }
        }),
{
    assert(Set::empty().insert(a@).insert(b@).insert(a@) =~= Set::empty().insert(a@).insert(b@));
}

/// Equal peers do the same to a hasher.
pub proof fn equal_peers_hash_alike<H: std::hash::Hasher>(
    p: PeerIndex,
    q: PeerIndex,
    state: &mut H,
)
    requires
        p.eq_spec(&q),
    ensures
        keys::hashes::<H>(p@, state) <==> keys::hashes::<H>(q@, state),
{
}

impl Key for PeerIndex {
    fn same(&self, other: &Self) -> (r: bool) {
        PeerIndex::same(self, other)
    }

    fn copy(&self) -> (r: Self) {
        *self
    }
}

/// The eight bytes of a number, most significant first.
pub open spec fn be_bytes(n: u64) -> Seq<u8> {
    seq![
        (n / 0x100_0000_0000_0000) as u8,
        (n / 0x1_0000_0000_0000 % 256) as u8,
        (n / 0x100_0000_0000 % 256) as u8,
        (n / 0x1_0000_0000 % 256) as u8,
        (n / 0x100_0000 % 256) as u8,
        (n / 0x1_0000 % 256) as u8,
        (n / 0x100 % 256) as u8,
        (n % 256) as u8,
    ]
}

/// The bytes that a message's signature covers: the content, the timestamp and
/// the nonce, in this order.
pub open spec fn signed_data(content: Seq<u8>, timestamp: u64, nonce: Seq<u8>) -> Seq<u8> {
    content + be_bytes(timestamp) + nonce
}

fn push_be_bytes(data: &mut Vec<u8>, n: u64)
    ensures
        final(data)@ == old(data)@ + be_bytes(n),
{
    data.push((n / 0x100_0000_0000_0000) as u8);
    data.push((n / 0x1_0000_0000_0000 % 256) as u8);
    data.push((n / 0x100_0000_0000 % 256) as u8);
    data.push((n / 0x1_0000_0000 % 256) as u8);
    data.push((n / 0x100_0000 % 256) as u8);
    data.push((n / 0x1_0000 % 256) as u8);
    data.push((n / 0x100 % 256) as u8);
    data.push((n % 256) as u8);
    assert(data@ =~= old(data)@ + be_bytes(n));
}

fn data_to_sign(content: &Vec<u8>, timestamp: u64, nonce: &Nonce) -> (r: Vec<u8>)
    ensures
        r@ == signed_data(content@, timestamp, nonce@),
{
    let mut data: Vec<u8> = Vec::new();
    data.extend_from_slice(content.as_slice());
    assert(data@ =~= content@);
    push_be_bytes(&mut data, timestamp);
    let ghost before = data@;
    data.extend_from_slice(nonce.as_slice());
    assert(data@ =~= before + nonce@);
    data
}

/// The clock of the machine reads a time before the UNIX epoch.
#[derive(Clone, Copy, Debug, PartialEq, Eq, Structural)]
pub struct ClockBeforeEpoch;

/// Why a value did not become a message.
#[derive(Debug)]
pub enum FromError<E> {
    Encode(E),
    Clock(ClockBeforeEpoch),
}

impl<E: Clone> Clone for FromError<E> {
    fn clone(&self) -> (r: Self)
        ensures
            match *self {
                FromError::Encode(e) => r matches FromError::Encode(f) && cloned(e, f),
                FromError::Clock(_) => r == *self,
            },
    {
        match self {
            FromError::Encode(e) => FromError::Encode(e.clone()),
            FromError::Clock(e) => FromError::Clock(*e),
        }
    }
}

impl<E: PartialEq> PartialEq for FromError<E> {
    fn eq(&self, other: &Self) -> (r: bool) {
        match (self, other) {
            (FromError::Encode(a), FromError::Encode(b)) => *a == *b,
            (FromError::Clock(_), FromError::Clock(_)) => true,
            _ => false,
        }
    }
}

impl<E: PartialEq> vstd::std_specs::cmp::PartialEqSpecImpl for FromError<E> {
    open spec fn obeys_eq_spec() -> bool {
        E::obeys_eq_spec()
    }

    open spec fn eq_spec(&self, other: &Self) -> bool {
        match (*self, *other) {
            (FromError::Encode(a), FromError::Encode(b)) => a.eq_spec(&b),
            (FromError::Clock(_), FromError::Clock(_)) => true,
            _ => false,
        }
    }
}

impl<E: Eq> Eq for FromError<E> {

}

/// `std::time::SystemTime`, of which nothing is known.
#[verifier::external_type_specification]
#[verifier::external_body]
pub struct ExSystemTime(std::time::SystemTime);

/// Calls `std::time::SystemTime::now`. Nothing is claimed of the time.
#[verifier::external_body]
fn current_time() -> (r: std::time::SystemTime) {
    std::time::SystemTime::now()
}

/// Calls `std::time::SystemTime::duration_since` with the epoch. Nothing is
/// claimed of the seconds; an error is a time before the epoch.
#[verifier::external_body]
fn since_epoch(time: std::time::SystemTime) -> (r: Result<u64, ClockBeforeEpoch>) {
    match time.duration_since(std::time::UNIX_EPOCH) {
        Ok(elapsed) => Ok(elapsed.as_secs()),
        Err(_) => Err(ClockBeforeEpoch),
    }
}

/// Calls `rand::RngCore::fill_bytes` on `rand::rngs::ThreadRng`. Nothing is
/// claimed of the bytes. Where the operating system hands out no entropy to
/// seed it with, the generator panics.
#[verifier::external_body]
fn random_nonce() -> (r: Nonce) {
    let mut nonce = [0u8; 12];
    rand::RngCore::fill_bytes(&mut rand::rngs::ThreadRng::default(), &mut nonce);
    nonce
}

/// Whether this is what the clock can read: the seconds since the epoch, or that
/// it reads a time before the epoch.
pub closed spec fn clock_reads(reading: Result<u64, ClockBeforeEpoch>) -> bool {
    exists|time: std::time::SystemTime|
        call_ensures(current_time, (), time) && #[trigger] call_ensures(
            since_epoch,
            (time,),
            reading,
        )
}

/// Whether this is a nonce that the random generator can give.
pub closed spec fn nonce_drawn(nonce: Nonce) -> bool {
    call_ensures(random_nonce, (), nonce)
}

/// Reads the clock.
fn read_clock() -> (r: Result<u64, ClockBeforeEpoch>)
    ensures
        clock_reads(r),
{
    let now = current_time;
    let since = since_epoch;
    since(now())
}

/// Draws a nonce.
fn draw_nonce() -> (r: Nonce)
    ensures
        nonce_drawn(r),
{
    let draw = random_nonce;
    draw()
}

/// Content with its author, the time and nonce of its making, and a signature
/// on all of it.
#[derive(Debug)]
pub struct Message {
    pub content: Vec<u8>,
    pub timestamp: u64,
    pub origin: PeerIndex,
    pub sig: Signature,
    pub nonce: Nonce,
}

impl Clone for Message {
    fn clone(&self) -> (r: Self)
        ensures
            r.content@ == self.content@,
            r.timestamp == self.timestamp,
            r.origin == self.origin,
            r.sig == self.sig,
            r.nonce == self.nonce,
    {
        Message {
            content: self.content.clone(),
            timestamp: self.timestamp,
            origin: self.origin,
            sig: self.sig,
            nonce: self.nonce,
        }
    }
}

impl PartialEq for Message {
    fn eq(&self, other: &Self) -> (r: bool) {
        keys::same_bytes(self.content.as_slice(), other.content.as_slice()) && self.timestamp
            == other.timestamp && self.origin.same(&other.origin) && self.sig == other.sig
            && keys::same_bytes(self.nonce.as_slice(), other.nonce.as_slice())
    }
}

impl vstd::std_specs::cmp::PartialEqSpecImpl for Message {
    open spec fn obeys_eq_spec() -> bool {
        true
    }

    open spec fn eq_spec(&self, other: &Self) -> bool {
        &&& self.content@ == other.content@
        &&& self.timestamp == other.timestamp
        &&& self.origin@ == other.origin@
        &&& self.sig@ == other.sig@
        &&& self.nonce@ == other.nonce@
    }
}

impl Eq for Message {

}

impl Message {
    /// The bytes that the signature has to cover.
    pub open spec fn data(self) -> Seq<u8> {
        signed_data(self.content@, self.timestamp, self.nonce@)
    }

    /// Whether the signature is the origin's, on exactly these fields.
    pub open spec fn authentic(self) -> bool {
        crate::keys::ed25519_verify_strict(self.origin@, self.data(), self.sig@)
    }

    /// Whether this is what `key` makes of `content` at this time with this nonce.
    pub open spec fn made_by(self, seed: Seq<u8>, content: Seq<u8>) -> bool {
        &&& self.content@ == content
        &&& self.origin@ == crate::keys::ed25519_public(seed)
        &&& self.sig@ == crate::keys::ed25519_sign(seed, self.data())
    }

    /// Signs `content` as made at `timestamp` with `nonce`.
    pub fn sign_at(content: Vec<u8>, key: &SigningKey, timestamp: u64, nonce: Nonce) -> (r: Message)
        ensures
            r.content == content,
            r.timestamp == timestamp,
            r.nonce == nonce,
            r.made_by(key@, content@),
            r.origin@ == keys::ed25519_public(key@),
            r.sig@ == keys::ed25519_sign(key@, content@ + be_bytes(timestamp) + nonce@),
            !crate::keys::neutral_commitment(r.sig@) ==> r.authentic(),
    {
        let data: Vec<u8> = data_to_sign(&content, timestamp, &nonce);
        Message {
            sig: key.sign(data.as_slice()),
            origin: PeerIndex::from(key.verifying_key()),
            nonce,
            content,
            timestamp,
        }
    }

    /// Signs `content` as made now, with a random nonce: there is a message unless
    /// the clock reads a time before the epoch. The message verifies, except where
    /// the commitment of its signature is neutral.
    pub fn new(content: Vec<u8>, key: &SigningKey) -> (r: Result<Message, ClockBeforeEpoch>)
        ensures
            match r {
                Ok(m) => {
                    &&& m.content == content
                    &&& m.made_by(key@, content@)
                    &&& clock_reads(Ok(m.timestamp))
                    &&& nonce_drawn(m.nonce)
                },
                Err(e) => clock_reads(Err(e)),
            },
            r matches Ok(m) ==> !crate::keys::neutral_commitment(m.sig@) ==> m.authentic(),
    {
        match read_clock() {
            Ok(timestamp) => Ok(Message::sign_at(content, key, timestamp, draw_nonce())),
            Err(e) => Err(e),
        }
    }

    /// Signs what a value was encoded to, or hands on why it was not encoded.
    pub fn from<E>(encoded: Result<Vec<u8>, E>, key: &SigningKey) -> (r: Result<Message, FromError<E>>)
        ensures
            encoded matches Err(e) ==> r == Err::<Message, FromError<E>>(FromError::Encode(e)),
            encoded matches Ok(content) ==> match r {
                Ok(m) => {
                    &&& m.content == content
                    &&& m.made_by(key@, content@)
                    &&& clock_reads(Ok(m.timestamp))
                    &&& nonce_drawn(m.nonce)
                },
                Err(e) => e matches FromError::Clock(c) && clock_reads(Err(c)),
            },
            r matches Ok(m) ==> !crate::keys::neutral_commitment(m.sig@) ==> m.authentic(),
    {
        match encoded {
            Ok(content) => match Message::new(content, key) {
                Ok(m) => Ok(m),
                Err(e) => Err(FromError::Clock(e)),
            },
            Err(e) => Err(FromError::Encode(e)),
        }
    }

    /// Whether the signature is the origin's, on exactly these fields.
    pub fn verify(&self) -> (r: bool)
        ensures
            r == self.authentic(),
            r == keys::ed25519_verify_strict(
                self.origin@,
                self.content@ + be_bytes(self.timestamp) + self.nonce@,
                self.sig@,
            ),
            r ==> !keys::neutral_commitment(self.sig@),
    {
        let data: Vec<u8> = data_to_sign(&self.content, self.timestamp, &self.nonce);
        self.origin.0.verify_strict(data.as_slice(), &self.sig)
    }
}

/// Why a message's content was not decoded.
#[derive(Debug)]
pub enum DecodeError<E> {
    /// The decoder refused it.
    Decoder(E),
    /// Bytes were left behind the value.
    TrailingBytes,
}

impl<E: Clone> Clone for DecodeError<E> {
    fn clone(&self) -> (r: Self)
        ensures
            match *self {
                DecodeError::Decoder(e) => r matches DecodeError::Decoder(f) && cloned(e, f),
                DecodeError::TrailingBytes => r is TrailingBytes,
            },
    {
        match self {
            DecodeError::Decoder(e) => DecodeError::Decoder(e.clone()),
            DecodeError::TrailingBytes => DecodeError::TrailingBytes,
        }
    }
}

impl<E: PartialEq> PartialEq for DecodeError<E> {
    fn eq(&self, other: &Self) -> (r: bool) {
        match (self, other) {
            (DecodeError::Decoder(a), DecodeError::Decoder(b)) => *a == *b,
            (DecodeError::TrailingBytes, DecodeError::TrailingBytes) => true,
            _ => false,
        }
    }
}

impl<E: PartialEq> vstd::std_specs::cmp::PartialEqSpecImpl for DecodeError<E> {
    open spec fn obeys_eq_spec() -> bool {
        E::obeys_eq_spec()
    }

    open spec fn eq_spec(&self, other: &Self) -> bool {
        match (*self, *other) {
            (DecodeError::Decoder(a), DecodeError::Decoder(b)) => a.eq_spec(&b),
            (DecodeError::TrailingBytes, DecodeError::TrailingBytes) => true,
            _ => false,
        }
    }
}

impl<E: Eq> Eq for DecodeError<E> {

}

/// A message whose content has been decoded, with the outcome of its verification.
#[derive(Debug)]
pub struct MessageT<T> {
    pub content: T,
    pub timestamp: u64,
    pub origin: PeerIndex,
    pub sig: Signature,
    pub nonce: Nonce,
    pub verify_result: bool,
}

impl<T: Clone> Clone for MessageT<T> {
    fn clone(&self) -> (r: Self)
        ensures
            cloned(self.content, r.content),
            r.timestamp == self.timestamp,
            r.origin == self.origin,
            r.sig == self.sig,
            r.nonce == self.nonce,
            r.verify_result == self.verify_result,
    {
        MessageT {
            content: self.content.clone(),
            timestamp: self.timestamp,
            origin: self.origin,
            sig: self.sig,
            nonce: self.nonce,
            verify_result: self.verify_result,
        }
    }
}

impl<T: PartialEq> PartialEq for MessageT<T> {
    fn eq(&self, other: &Self) -> (r: bool) {
        self.content == other.content && self.timestamp == other.timestamp && self.origin.same(
            &other.origin,
        ) && self.sig == other.sig && keys::same_bytes(
            self.nonce.as_slice(),
            other.nonce.as_slice(),
        ) && self.verify_result == other.verify_result
    }
}

impl<T: PartialEq> vstd::std_specs::cmp::PartialEqSpecImpl for MessageT<T> {
    open spec fn obeys_eq_spec() -> bool {
        T::obeys_eq_spec()
    }

    open spec fn eq_spec(&self, other: &Self) -> bool {
        &&& self.content.eq_spec(&other.content)
        &&& self.timestamp == other.timestamp
        &&& self.origin@ == other.origin@
        &&& self.sig@ == other.sig@
        &&& self.nonce@ == other.nonce@
        &&& self.verify_result == other.verify_result
    }
}

impl<T: Eq> Eq for MessageT<T> {

}

impl<T> MessageT<T> {
    /// Whether this is `message` with `content` in place of its bytes.
    pub open spec fn decoded_from(self, message: Message, content: T) -> bool {
        &&& self.content == content
        &&& self.timestamp == message.timestamp
        &&& self.origin == message.origin
        &&& self.sig == message.sig
        &&& self.nonce == message.nonce
        &&& self.verify_result == message.authentic()
    }

    /// Pairs a message with what its content was decoded to, and how many of the
    /// content's bytes that took; or hands on why it was not decoded. Content
    /// with more bytes than the value takes is not decoded either. An inauthentic
    /// message is no error: its `verify_result` says so.
    pub fn try_from<E>(value: Message, decoded: Result<(T, usize), E>) -> (r: Result<
        MessageT<T>,
        DecodeError<E>,
    >)
        ensures
            match decoded {
                Ok((content, read)) => if read == value.content@.len() {
                    &&& r matches Ok(m)
                    &&& m.decoded_from(value, content)
                    &&& m.content == content
                    &&& m.timestamp == value.timestamp
                    &&& m.origin == value.origin
                    &&& m.sig == value.sig
                    &&& m.nonce == value.nonce
                    &&& m.verify_result == keys::ed25519_verify_strict(
                        value.origin@,
                        value.content@ + be_bytes(value.timestamp) + value.nonce@,
                        value.sig@,
                    )
                } else {
                    r == Err::<MessageT<T>, DecodeError<E>>(DecodeError::TrailingBytes)
                },
                Err(e) => r == Err::<MessageT<T>, DecodeError<E>>(DecodeError::Decoder(e)),
            },
    {
        let verify_result: bool = value.verify();
        match decoded {
            Ok((content, read)) => if read == value.content.len() {
                Ok(
                    MessageT {
                        content,
                        timestamp: value.timestamp,
                        origin: value.origin,
                        sig: value.sig,
                        nonce: value.nonce,
                        verify_result,
                    },
                )
            } else {
                Err(DecodeError::TrailingBytes)
            },
            Err(e) => Err(DecodeError::Decoder(e)),
        }
    }
}

proof fn be_bytes_injective(a: u64, b: u64)
    requires
        be_bytes(a) == be_bytes(b),
    ensures
        a == b,
{
    let x = be_bytes(a);
    let y = be_bytes(b);
    assert(x[0] == y[0] && x[1] == y[1] && x[2] == y[2] && x[3] == y[3]);
    assert(x[4] == y[4] && x[5] == y[5] && x[6] == y[6] && x[7] == y[7]);
    assert(a == b) by (bit_vector)
        requires
            a / 0x100_0000_0000_0000 == b / 0x100_0000_0000_0000,
            a / 0x1_0000_0000_0000 % 256 == b / 0x1_0000_0000_0000 % 256,
            a / 0x100_0000_0000 % 256 == b / 0x100_0000_0000 % 256,
            a / 0x1_0000_0000 % 256 == b / 0x1_0000_0000 % 256,
            a / 0x100_0000 % 256 == b / 0x100_0000 % 256,
            a / 0x1_0000 % 256 == b / 0x1_0000 % 256,
            a / 0x100 % 256 == b / 0x100 % 256,
            a % 256 == b % 256,
    ;
}

/// Every field that a signature covers takes part in it: two messages whose
/// signed bytes agree have the same content, timestamp and nonce.
pub proof fn signed_data_injective(a: Message, b: Message)
    requires
        a.data() == b.data(),
    ensures
        a.content@ == b.content@,
        a.timestamp == b.timestamp,
        a.nonce@ == b.nonce@,
{
    let x = a.data();
    let y = b.data();
    assert(a.content@ =~= x.subrange(0, x.len() - 20));
    assert(b.content@ =~= y.subrange(0, y.len() - 20));
    assert(be_bytes(a.timestamp) =~= x.subrange(x.len() - 20, x.len() - 12));
    assert(be_bytes(b.timestamp) =~= y.subrange(y.len() - 20, y.len() - 12));
    assert(a.nonce@ =~= x.subrange(x.len() - 12, x.len() as int));
    assert(b.nonce@ =~= y.subrange(y.len() - 12, y.len() as int));
    be_bytes_injective(a.timestamp, b.timestamp);
}

/// A number has eight bytes, and is their value where the most significant is
/// read first.
pub proof fn be_bytes_give_the_number(n: u64)
    ensures
        be_bytes(n).len() == 8,
        be_bytes(n)[0] * 0x100_0000_0000_0000 + be_bytes(n)[1] * 0x1_0000_0000_0000 + be_bytes(n)[2]
            * 0x100_0000_0000 + be_bytes(n)[3] * 0x1_0000_0000 + be_bytes(n)[4] * 0x100_0000
            + be_bytes(n)[5] * 0x1_0000 + be_bytes(n)[6] * 0x100 + be_bytes(n)[7] == n,
{
    let x = n as int;
    let q1 = x / 0x100;
    let q2 = x / 0x1_0000;
    let q3 = x / 0x100_0000;
    let q4 = x / 0x1_0000_0000;
    let q5 = x / 0x100_0000_0000;
    let q6 = x / 0x1_0000_0000_0000;
    let q7 = x / 0x100_0000_0000_0000;
    vstd::arithmetic::div_mod::lemma_div_denominator(x, 0x100, 0x100);
    vstd::arithmetic::div_mod::lemma_div_denominator(x, 0x1_0000, 0x100);
    vstd::arithmetic::div_mod::lemma_div_denominator(x, 0x100_0000, 0x100);
    vstd::arithmetic::div_mod::lemma_div_denominator(x, 0x1_0000_0000, 0x100);
    vstd::arithmetic::div_mod::lemma_div_denominator(x, 0x100_0000_0000, 0x100);
    vstd::arithmetic::div_mod::lemma_div_denominator(x, 0x1_0000_0000_0000, 0x100);
    assert(x == q1 * 256 + x % 256);
    assert(q1 == q2 * 256 + q1 % 256);
    assert(q2 == q3 * 256 + q2 % 256);
    assert(q3 == q4 * 256 + q3 % 256);
    assert(q4 == q5 * 256 + q4 % 256);
    assert(q5 == q6 * 256 + q5 % 256);
    assert(q6 == q7 * 256 + q6 % 256);
    let b = be_bytes(n);
    assert(b[0] == q7 && b[1] == q6 % 256 && b[2] == q5 % 256 && b[3] == q4 % 256);
    assert(b[4] == q3 % 256 && b[5] == q2 % 256 && b[6] == q1 % 256 && b[7] == x % 256);
}

/// Strict verification under the author's key decides, on the content, the eight
/// bytes of the timestamp and the nonce, one behind the other, whatever their
/// lengths.
pub proof fn only_the_authors_signature_is_authentic(m: Message)
    ensures
        m.authentic() <==> keys::ed25519_verify_strict(
            m.origin@,
            m.content@ + be_bytes(m.timestamp) + m.nonce@,
            m.sig@,
        ),
{
}

/// What verification says of a message depends on what is signed, on the author
/// and on the signature, and on nothing else.
pub proof fn verification_depends_on_what_is_signed(a: Message, b: Message)
    requires
        a.origin@ == b.origin@,
        a.sig@ == b.sig@,
        a.content@ + be_bytes(a.timestamp) + a.nonce@ == b.content@ + be_bytes(b.timestamp) + b.nonce@,
    ensures
        a.authentic() == b.authentic(),
{
}

/// What a key makes carries the key's own name, and the key's signature on the
/// content, the eight bytes of the timestamp and the nonce.
pub proof fn a_message_carries_its_makers_signature(m: Message, seed: Seq<u8>, content: Seq<u8>)
    ensures
        m.made_by(seed, content) <==> m.content@ == content && m.origin@ == keys::ed25519_public(seed)
            && m.sig@ == keys::ed25519_sign(seed, content + be_bytes(m.timestamp) + m.nonce@),
{
}

/// A decoded message has the fields of the message that it was decoded from, and
/// says of it what verification says.
pub proof fn decoding_keeps_the_message<T>(decoded: MessageT<T>, message: Message, content: T)
    ensures
        decoded.decoded_from(message, content) <==> decoded == (MessageT {
            content,
            timestamp: message.timestamp,
            origin: message.origin,
            sig: message.sig,
            nonce: message.nonce,
            verify_result: keys::ed25519_verify_strict(
                message.origin@,
                message.content@ + be_bytes(message.timestamp) + message.nonce@,
                message.sig@,
            ),
        }),
{
}

/// The time of a message is what the clock gave, and its nonce what the random
/// generator gave.
proof fn time_and_nonce_are_not_made_up(reading: Result<u64, ClockBeforeEpoch>, nonce: Nonce)
    ensures
        clock_reads(reading) ==> exists|time: std::time::SystemTime| #[trigger]
            call_ensures(current_time, (), time) && call_ensures(since_epoch, (time,), reading),
        nonce_drawn(nonce) ==> call_ensures(random_nonce, (), nonce),
{
}

/// Messages are equal exactly where each of their fields is. So equal messages
/// are both authentic or both not.
pub proof fn messages_are_equal_field_by_field(a: Message, b: Message)
    ensures
        a.eq_spec(&b) <==> a.content@ == b.content@
            && a.timestamp == b.timestamp && a.origin@ == b.origin@ && a.sig@ == b.sig@ && a.nonce@
            == b.nonce@,
        a.eq_spec(&b) ==> a.authentic() == b.authentic(),
{
}

/// Decoded messages are equal exactly where their contents are and each other
/// field is; errors where they are of one kind and their reasons are equal.
pub proof fn decoded_messages_are_equal_field_by_field<T: PartialEq>(
    a: MessageT<T>,
    b: MessageT<T>,
    x: T,
    y: T,
)
    ensures
        a.eq_spec(&b) <==> a.content.eq_spec(&b.content) && a.timestamp == b.timestamp && a.origin@
            == b.origin@ && a.sig@ == b.sig@ && a.nonce@ == b.nonce@ && a.verify_result
            == b.verify_result,
        DecodeError::Decoder(x).eq_spec(&DecodeError::Decoder(y)) <==> x.eq_spec(&y),
        DecodeError::<T>::TrailingBytes.eq_spec(&DecodeError::TrailingBytes),
        !DecodeError::Decoder(x).eq_spec(&DecodeError::TrailingBytes),
        !DecodeError::TrailingBytes.eq_spec(&DecodeError::Decoder(x)),
        FromError::Encode(x).eq_spec(&FromError::Encode(y)) <==> x.eq_spec(&y),
        FromError::<T>::Clock(ClockBeforeEpoch).eq_spec(&FromError::Clock(ClockBeforeEpoch)),
        !FromError::Encode(x).eq_spec(&FromError::Clock(ClockBeforeEpoch)),
        !FromError::Clock(ClockBeforeEpoch).eq_spec(&FromError::Encode(x)),
{
}

/// What is signed verifies, unless the commitment of its signature is neutral;
/// what verifies was accepted by strict verification under its author's key, on
/// just this content, timestamp and nonce, and its commitment is not neutral.
pub proof fn what_is_signed_verifies(
    content: Vec<u8>,
    key: &SigningKey,
    timestamp: u64,
    nonce: Nonce,
    m: Message,
    verified: bool,
)
    requires
        call_ensures(Message::sign_at, (content, key, timestamp, nonce), m),
        call_ensures(Message::verify, (&m,), verified),
    ensures
        verified <==> !keys::neutral_commitment(m.sig@),
        m.content@ == content@,
        m.timestamp == timestamp,
        m.nonce == nonce,
        m.origin@ == keys::ed25519_public(key@),
        m.sig@ == keys::ed25519_sign(key@, content@ + be_bytes(timestamp) + nonce@),
{
}

/// A verdict on a message is the verdict of strict verification, for content of
/// every length.
pub proof fn only_what_was_signed_verifies(m: &Message, verified: bool)
    requires
        call_ensures(Message::verify, (m,), verified),
    ensures
        verified <==> keys::ed25519_verify_strict(
            m.origin@,
            m.content@ + be_bytes(m.timestamp) + m.nonce@,
            m.sig@,
        ),
        verified ==> !keys::neutral_commitment(m.sig@),
{
}

/// A message that is made now is signed as one that is made at the time and with
/// the nonce that it carries.
pub proof fn what_is_made_now_is_signed(
    content: Vec<u8>,
    key: &SigningKey,
    r: Result<Message, ClockBeforeEpoch>,
)
    requires
        call_ensures(Message::new, (content, key), r),
    ensures
        r matches Ok(m) ==> m.content@ == content@ && m.origin@ == keys::ed25519_public(key@)
            && m.sig@ == keys::ed25519_sign(key@, content@ + be_bytes(m.timestamp) + m.nonce@) && (
        !keys::neutral_commitment(m.sig@) ==> keys::ed25519_verify_strict(
            m.origin@,
            m.content@ + be_bytes(m.timestamp) + m.nonce@,
            m.sig@,
        )),
{
}

} // verus!

//! Ed25519 keys and signatures as plain bytes.

use vstd::prelude::*;

verus! {

pub const KEY_LEN: usize = 32;

pub const SIGNATURE_LEN: usize = 64;

/// Whether `ed25519_dalek::VerifyingKey::from_bytes` accepts these bytes.
pub uninterp spec fn ed25519_decodes(key: Seq<u8>) -> bool;

/// The bytes of the verifying key that `ed25519_dalek` derives from a secret seed.
pub uninterp spec fn ed25519_public(seed: Seq<u8>) -> Seq<u8>;

/// The bytes of the signature that `ed25519_dalek` makes with a secret seed.
pub uninterp spec fn ed25519_sign(seed: Seq<u8>, data: Seq<u8>) -> Seq<u8>;

/// Whether `ed25519_dalek::VerifyingKey::verify_strict` accepts the signature.
pub uninterp spec fn ed25519_verify_strict(key: Seq<u8>, data: Seq<u8>, sig: Seq<u8>) -> bool;

/// Whether the first half of a signature encodes the neutral element of the
/// curve. Strict verification refuses such a signature whoever made it.
pub open spec fn neutral_commitment(sig: Seq<u8>) -> bool {
    &&& sig[0] == 1
    &&& forall|i: int| 1 <= i < 32 ==> sig[i] == 0
}

/// Calls `ed25519_dalek::VerifyingKey::from_bytes`. The claim is that the
/// answer depends on the bytes alone.
#[verifier::external_body]
fn decodes(key: &[u8; 32]) -> (r: bool)
    ensures
        r == ed25519_decodes(key@),
{
    ed25519_dalek::VerifyingKey::from_bytes(key).is_ok()
}

/// Calls `ed25519_dalek::SigningKey::verifying_key`. The claim is that the
/// verifying key is determined by the seed, and that its bytes decode again.
#[verifier::external_body]
fn public_bytes(seed: &[u8; 32]) -> (r: [u8; 32])
    ensures
        r@ == ed25519_public(seed@),
        ed25519_decodes(r@),
{
    ed25519_dalek::SigningKey::from_bytes(seed).verifying_key().to_bytes()
}

/// Calls `ed25519_dalek::SigningKey::sign`. The claim is that the signature is
/// determined by the seed and the data, and that strict verification under the
/// seed's own verifying key accepts it, except where the commitment is neutral.
#[verifier::external_body]
fn sign_bytes(seed: &[u8; 32], data: &[u8]) -> (r: [u8; 64])
    ensures
        r@ == ed25519_sign(seed@, data@),
        !neutral_commitment(r@) ==> ed25519_verify_strict(ed25519_public(seed@), data@, r@),
{
    ed25519_dalek::Signer::sign(&ed25519_dalek::SigningKey::from_bytes(seed), data).to_bytes()
}

/// Calls `ed25519_dalek::VerifyingKey::verify_strict`. The claim is that the
/// answer depends on the key, the data and the signature alone, and that a key
/// that does not decode, or a neutral commitment, is refused.
#[verifier::external_body]
fn verify_bytes(key: &[u8; 32], data: &[u8], sig: &[u8; 64]) -> (r: bool)
    ensures
        r == ed25519_verify_strict(key@, data@, sig@),
        r ==> ed25519_decodes(key@),
        r ==> !neutral_commitment(sig@),
{
    match ed25519_dalek::VerifyingKey::from_bytes(key) {
        Ok(key) => key.verify_strict(data, &ed25519_dalek::Signature::from_bytes(sig)).is_ok(),
        Err(_) => false,
    }
}

/// Whether two byte arrays of a key's length are equal.
pub fn same_key_bytes(a: &[u8; 32], b: &[u8; 32]) -> (r: bool)
    ensures
        r == (a@ == b@),
{
    let mut i: usize = 0;
    while i < 32
        invariant
            i <= 32,
            forall|j: int| 0 <= j < i ==> a@[j] == b@[j],
        decreases 32 - i,
    {
        if a[i] != b[i] {
            return false;
        }
        i += 1;
    }
    assert(a@ =~= b@);
    true
}

/// Whether two rows of bytes are equal.
pub fn same_bytes(a: &[u8], b: &[u8]) -> (r: bool)
    ensures
        r == (a@ == b@),
{
    if a.len() != b.len() {
        return false;
    }
    let mut i: usize = 0;
    while i < a.len()
        invariant
            i <= a@.len(),
            a@.len() == b@.len(),
            forall|j: int| 0 <= j < i ==> a@[j] == b@[j],
        decreases a@.len() - i,
    {
        if a[i] != b[i] {
            return false;
        }
        i += 1;
    }
    assert(a@ =~= b@);
    true
}

/// Calls `std::hash::Hash::hash` on a key's bytes. What it does to the hasher is
/// the hasher's own matter, so nothing is claimed of it, nor that a hasher does
/// the same each time.
#[verifier::external_body]
fn hash_bytes<H: std::hash::Hasher>(bytes: &[u8; 32], state: &mut H) {
    std::hash::Hash::hash(bytes, state)
}

/// Whether feeding these bytes of a key to a hasher can take it from what
/// `state` is now to what it comes to be.
pub closed spec fn hashes<H: std::hash::Hasher>(key: Seq<u8>, state: &mut H) -> bool {
    exists|bytes: &[u8; 32]|
        bytes@ == key && #[trigger] call_ensures(hash_bytes::<H>, (bytes, state), ())
}

proof fn lemma_hashes<H: std::hash::Hasher>(bytes: &[u8; 32], state: &mut H)
    requires
        call_ensures(hash_bytes::<H>, (bytes, state), ()),
    ensures
        hashes::<H>(bytes@, state),
{
}

/// A public key: bytes that decode to a point of the curve.
#[derive(Clone, Copy, Debug)]
pub struct VerifyingKey {
    bytes: [u8; 32],
}

impl View for VerifyingKey {
    type V = Seq<u8>;

    closed spec fn view(&self) -> Seq<u8> {
        self.bytes@
    }
}

impl VerifyingKey {
    #[verifier::type_invariant]
    spec fn well_formed(self) -> bool {
        ed25519_decodes(self.bytes@)
    }

    /// The key with these bytes, if they decode.
    pub fn from_bytes(bytes: &[u8; 32]) -> (r: Option<VerifyingKey>)
        ensures
            r is Some <==> ed25519_decodes(bytes@),
            r matches Some(key) ==> key@ == bytes@,
    {
        if decodes(bytes) {
            Some(VerifyingKey { bytes: *bytes })
        } else {
            None
        }
    }

    pub fn to_bytes(&self) -> (r: [u8; 32])
        ensures
            r@ == self@,
            ed25519_decodes(r@),
    {
        proof {
            use_type_invariant(self);
        }
        self.bytes
    }

    /// Whether both are the same key.
    pub fn same(&self, other: &VerifyingKey) -> (r: bool)
        ensures
            r == (self@ == other@),
    {
        same_key_bytes(&self.bytes, &other.bytes)
    }

    /// Strict verification of a signature on `data`.
    pub fn verify_strict(&self, data: &[u8], sig: &Signature) -> (r: bool)
        ensures
            r == ed25519_verify_strict(self@, data@, sig@),
            r ==> !neutral_commitment(sig@),
    {
        verify_bytes(&self.bytes, data, &sig.bytes)
    }
}

impl PartialEq for VerifyingKey {
    fn eq(&self, other: &Self) -> (r: bool) {
        self.same(other)
    }
}

impl vstd::std_specs::cmp::PartialEqSpecImpl for VerifyingKey {
    open spec fn obeys_eq_spec() -> bool {
        true
    }

    open spec fn eq_spec(&self, other: &Self) -> bool {
        self@ == other@
    }
}

impl Eq for VerifyingKey {

}

impl std::hash::Hash for VerifyingKey {
    fn hash<H: std::hash::Hasher>(&self, state: &mut H)
        ensures
            exists|s: &mut H| #[trigger]
                hashes::<H>(self@, s) && *s == *old(state) && *final(s) == *final(state),
    {
        proof {
            assert forall|s: &mut H| #[trigger]
                call_ensures(hash_bytes::<H>, (&self.bytes, s), ()) implies hashes::<H>(
                self@,
                s,
            ) by {
                lemma_hashes(&self.bytes, s);
            }
        }
        let feed = hash_bytes::<H>;
        feed(&self.bytes, state);
    }
}

/// A signature: any bytes of its length.
#[derive(Clone, Copy, Debug)]
pub struct Signature {
    bytes: [u8; 64],
}

impl View for Signature {
    type V = Seq<u8>;

    closed spec fn view(&self) -> Seq<u8> {
        self.bytes@
    }
}

impl Signature {
    pub fn from_bytes(bytes: &[u8; 64]) -> (r: Signature)
        ensures
            r@ == bytes@,
    {
        Signature { bytes: *bytes }
    }

    pub fn to_bytes(&self) -> (r: [u8; 64])
        ensures
            r@ == self@,
    {
        self.bytes
    }
}

impl PartialEq for Signature {
    fn eq(&self, other: &Self) -> (r: bool) {
        same_bytes(self.bytes.as_slice(), other.bytes.as_slice())
    }
}

impl vstd::std_specs::cmp::PartialEqSpecImpl for Signature {
    open spec fn obeys_eq_spec() -> bool {
        true
    }

    open spec fn eq_spec(&self, other: &Self) -> bool {
        self@ == other@
    }
}

impl Eq for Signature {

}

/// A secret key: the seed that everything else is derived from.
pub struct SigningKey {
    seed: [u8; 32],
}

impl Clone for SigningKey {
    fn clone(&self) -> (r: Self)
        ensures
            r == *self,
    {
        SigningKey { seed: self.seed }
    }
}

impl View for SigningKey {
    type V = Seq<u8>;

    closed spec fn view(&self) -> Seq<u8> {
        self.seed@
    }
}

impl SigningKey {
    pub fn from_bytes(seed: &[u8; 32]) -> (r: SigningKey)
        ensures
            r@ == seed@,
    {
        SigningKey { seed: *seed }
    }

    pub fn verifying_key(&self) -> (r: VerifyingKey)
        ensures
            r@ == ed25519_public(self@),
    {
        VerifyingKey { bytes: public_bytes(&self.seed) }
    }

    /// Signs `data`. The key's own verifying key accepts the signature unless
    /// its commitment is neutral.
    pub fn sign(&self, data: &[u8]) -> (r: Signature)
        ensures
            r@ == ed25519_sign(self@, data@),
            !neutral_commitment(r@) ==> ed25519_verify_strict(
                ed25519_public(self@),
                data@,
                r@,
            ),
    {
        Signature { bytes: sign_bytes(&self.seed, data) }
    }
}

/// A commitment is neutral exactly where its 32 bytes are those of the number
/// one, the least significant byte first.
pub proof fn the_neutral_commitment_is_one(sig: Seq<u8>)
    requires
        sig.len() >= 32,
    ensures
        neutral_commitment(sig) <==> sig.take(32) == seq![1u8] + Seq::new(31, |i: int| 0u8),
{
    let one = seq![1u8] + Seq::new(31, |i: int| 0u8);
    if neutral_commitment(sig) {
        assert(sig.take(32) =~= one);
    }
    if sig.take(32) == one {
        assert(sig[0] == sig.take(32)[0]);
        assert forall|i: int| 1 <= i < 32 implies sig[i] == 0 by {
            assert(sig[i] == sig.take(32)[i]);
        }
    }
}

/// Keys are equal exactly where their bytes are, and so are signatures.
pub proof fn equal_bytes_are_equal_keys(a: VerifyingKey, b: VerifyingKey, x: Signature, y: Signature)
    ensures
        vstd::std_specs::cmp::PartialEqSpec::eq_spec(&a, &b) <==> a@ == b@,
        vstd::std_specs::cmp::PartialEqSpec::eq_spec(&x, &y) <==> x@ == y@,
{
}

/// Only what is done with the bytes of a key themselves counts as hashing it.
proof fn hashing_takes_the_bytes<H: std::hash::Hasher>(key: Seq<u8>, state: &mut H)
    requires
        hashes::<H>(key, state),
    ensures
        exists|bytes: &[u8; 32]|
            bytes@ == key && #[trigger] call_ensures(hash_bytes::<H>, (bytes, state), ()),
{
}

} // verus!

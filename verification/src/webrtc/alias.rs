//! Short names of peers, for people to read.

use crate::keys::VerifyingKey;
use crate::topic::Topic;
use vstd::prelude::*;

verus! {

/// The most characters that an alias made from a key has.
pub const ALIAS_LEN: usize = 8;

/// How many bytes of a key's digest go into its alias.
pub const ALIAS_BYTES: usize = 6;

/// The digest that `sha2::Sha256` makes.
pub uninterp spec fn sha256(data: Seq<u8>) -> Seq<u8>;

/// The text that `bs58::encode` makes, in Bitcoin's alphabet.
pub uninterp spec fn base58(data: Seq<u8>) -> Seq<char>;

/// Whether a character is in Bitcoin's alphabet for base 58.
pub open spec fn is_base58(c: char) -> bool {
    ||| '1' <= c <= '9'
    ||| 'A' <= c <= 'Z' && c != 'I' && c != 'O'
    ||| 'a' <= c <= 'z' && c != 'l'
}

/// Calls `sha2::Sha256::digest`. The claim is that the digest is determined by
/// the data.
#[verifier::external_body]
fn sha256_digest(data: &[u8]) -> (r: [u8; 32])
    ensures
        r@ == sha256(data@),
{
    <sha2::Sha256 as sha2::Digest>::digest(data).into()
}

/// Calls `bs58::encode`. The claim is that the text is determined by the data,
/// that it has only characters of the alphabet, and that it has at least one for
/// each byte of the data.
#[verifier::external_body]
fn base58_encode(data: &[u8]) -> (r: String)
    ensures
        r@ == base58(data@),
        forall|i: int| 0 <= i < r@.len() ==> is_base58(#[trigger] r@[i]),
        r@.len() >= data@.len(),
{
    bs58::encode(data).into_string()
}

/// At most the first `n` characters.
pub open spec fn prefix(text: Seq<char>, n: nat) -> Seq<char> {
    if text.len() <= n {
        text
    } else {
        text.take(n as int)
    }
}

/// The alias that a key's digest gives.
pub open spec fn alias_of(digest: Seq<u8>) -> Seq<char> {
    prefix(base58(digest.take(ALIAS_BYTES as int)), ALIAS_LEN as nat)
}

/// A peer's short name.
#[derive(Debug, Hash)]
pub struct PeerAlias(String);

impl View for PeerAlias {
    type V = Seq<char>;

    closed spec fn view(&self) -> Seq<char> {
        self.0@
    }
}

impl PeerAlias {
    pub fn new(id: String) -> (r: PeerAlias)
        ensures
            r@ == id@,
    {
        PeerAlias(id)
    }

    /// The alias of a key: the first characters of its shortened digest in base
    /// 58. There are at least six and at most eight.
    pub fn from_key(key: VerifyingKey) -> (r: PeerAlias)
        ensures
            r@ == alias_of(sha256(key@)),
            6 <= r@.len() <= 8,
            forall|i: int| 0 <= i < r@.len() ==> is_base58(#[trigger] r@[i]),
    {
        let bytes: [u8; 32] = key.to_bytes();
        let digest: [u8; 32] = sha256_digest(bytes.as_slice());
        PeerAlias::from_digest(&digest)
    }

    /// The alias that a key's digest gives.
    pub fn from_digest(digest: &[u8; 32]) -> (r: PeerAlias)
        ensures
            r@ == alias_of(digest@),
            6 <= r@.len() <= 8,
            forall|i: int| 0 <= i < r@.len() ==> is_base58(#[trigger] r@[i]),
    {
        let mut short: Vec<u8> = Vec::new();
        let mut i: usize = 0;
        while i < ALIAS_BYTES
            invariant
                i <= ALIAS_BYTES,
                short@ == digest@.take(i as int),
            decreases ALIAS_BYTES - i,
        {
            short.push(digest[i]);
            i += 1;
            assert(short@ =~= digest@.take(i as int));
        }
        PeerAlias::from_text(base58_encode(short.as_slice()))
    }

    /// The alias that begins a text.
    pub fn from_text(text: String) -> (r: PeerAlias)
        ensures
            r@ == prefix(text@, ALIAS_LEN as nat),
    {
        let len: usize = text.as_str().unicode_len();
        if len <= ALIAS_LEN {
            PeerAlias(text)
        } else {
            PeerAlias(text.as_str().substring_char(0, ALIAS_LEN).to_owned())
        }
    }

    pub fn to_string(&self) -> (r: String)
        ensures
            r@ == self@,
    {
        self.0.clone()
    }

    pub fn as_ref(&self) -> (r: &str)
        ensures
            r@ == self@,
    {
        self.0.as_str()
    }
}

impl Clone for PeerAlias {
    fn clone(&self) -> (r: Self)
        ensures
            r == *self,
    {
        PeerAlias(self.0.clone())
    }
}

impl PartialEq for PeerAlias {
    fn eq(&self, other: &Self) -> (r: bool) {
        self.0 == other.0
    }
}

impl vstd::std_specs::cmp::PartialEqSpecImpl for PeerAlias {
    open spec fn obeys_eq_spec() -> bool {
        true
    }

    open spec fn eq_spec(&self, other: &Self) -> bool {
        self@ == other@
    }
}

impl Eq for PeerAlias {

}

impl Topic for PeerAlias {
    open spec fn text(&self) -> Seq<char> {
        self@
    }

    fn value(&self) -> (r: &str) {
        self.as_ref()
    }
}

/// An alias is the beginning of what the first six bytes of the digest are in
/// base 58: all of it up to eight characters, and else the first eight. Nothing
/// but these six bytes goes into it.
pub proof fn an_alias_begins_the_shortened_digest(digest: Seq<u8>, other: Seq<u8>)
    requires
        digest.len() >= 6,
        other.len() >= 6,
    ensures
        ({
            let text = base58(digest.take(6));
            let alias = alias_of(digest);
            &&& alias.is_prefix_of(text)
            &&& alias.len() == if text.len() <= 8 {
                text.len()
            } else {
                8
            }
        }),
        digest.take(6) == other.take(6) ==> alias_of(digest) == alias_of(other),
{
}

/// The beginning of a text is all of it, or as many of its first characters as
/// are asked for.
pub proof fn a_prefix_begins_its_text(text: Seq<char>, n: nat)
    ensures
        prefix(text, n).is_prefix_of(text),
        prefix(text, n).len() == if text.len() <= n {
            text.len()
        } else {
            n
        },
{
}

/// An alias is a topic that reads as itself, and two are equal where they read
/// alike.
pub proof fn an_alias_reads_as_itself(a: PeerAlias, b: PeerAlias)
    ensures
        a.text() == a@,
        vstd::std_specs::cmp::PartialEqSpec::eq_spec(&a, &b) <==> a@ == b@,
{
}

/// The alias of a key is the beginning of the first six bytes of its digest in
/// base 58, and so the same each time.
pub proof fn a_key_has_one_alias(key: VerifyingKey, other: VerifyingKey, a: PeerAlias, b: PeerAlias)
    requires
        call_ensures(PeerAlias::from_key, (key,), a),
        call_ensures(PeerAlias::from_key, (other,), b),
    ensures
        a@.is_prefix_of(base58(sha256(key@).take(6))),
        6 <= a@.len() <= 8,
        a@.len() < 8 ==> a@ == base58(sha256(key@).take(6)),
        key@ == other@ ==> a@ == b@,
{
}

} // verus!

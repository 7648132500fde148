//! Tables of open connections. A connection is a number by which whoever runs
//! it finds it again.

use crate::collections;
use crate::keys;
use crate::keys::VerifyingKey;
use crate::message::PeerIndex;
use crate::webrtc::signal::{SignalInfo, SignalView};
use vstd::prelude::*;

verus! {

/// `dashmap::DashMap`, of which nothing is known but what the functions below
/// claim.
#[verifier::external_type_specification]
#[verifier::external_body]
#[verifier::reject_recursive_types(K)]
#[verifier::reject_recursive_types(V)]
#[verifier::reject_recursive_types(S)]
pub struct ExDashMap<K, V, S>(dashmap::DashMap<K, V, S>);

/// What a `dashmap::DashMap` from bytes to connections holds.
pub uninterp spec fn entries(table: dashmap::DashMap<Vec<u8>, u64>) -> Map<Seq<u8>, u64>;

/// Calls `dashmap::DashMap::new`: the table is empty.
#[verifier::external_body]
fn new_table() -> (r: dashmap::DashMap<Vec<u8>, u64>)
    ensures
        entries(r).dom().is_empty(),
{
    dashmap::DashMap::new()
}

/// Calls `dashmap::DashMap::insert`: the key has the value afterwards, and what
/// it had before is returned.
#[verifier::external_body]
fn insert_entry(table: &mut dashmap::DashMap<Vec<u8>, u64>, key: Vec<u8>, conn: u64) -> (r: Option<
    u64,
>)
    ensures
        entries(*final(table)) == entries(*old(table)).insert(key@, conn),
        r == lookup(entries(*old(table)), key@),
{
    table.insert(key, conn)
}

/// Calls `dashmap::DashMap::remove`: the key has no value afterwards, and what
/// it had before is returned.
#[verifier::external_body]
fn remove_entry(table: &mut dashmap::DashMap<Vec<u8>, u64>, key: &Vec<u8>) -> (r: Option<u64>)
    ensures
        entries(*final(table)) == entries(*old(table)).remove(key@),
        r == lookup(entries(*old(table)), key@),
{
    table.remove(key).map(|entry| entry.1)
}

/// Calls `dashmap::DashMap::get`: the value of the key.
#[verifier::external_body]
fn get_entry(table: &dashmap::DashMap<Vec<u8>, u64>, key: &Vec<u8>) -> (r: Option<u64>)
    ensures
        r == lookup(entries(*table), key@),
{
    table.get(key).map(|conn| *conn)
}

/// Calls `dashmap::DashMap::iter`: each key that has a value, once. Nothing is
/// claimed of their order.
#[verifier::external_body]
fn entry_keys(table: &dashmap::DashMap<Vec<u8>, u64>) -> (r: Vec<Vec<u8>>)
    ensures
        collections::views(r@).no_duplicates(),
        collections::views(r@).to_set() == entries(*table).dom(),
{
    table.iter().map(|entry| entry.key().clone()).collect()
}

/// The value of a key in a map, if it has one.
pub open spec fn lookup<K>(map: Map<K, u64>, key: K) -> Option<u64> {
    if map.contains_key(key) {
        Some(map[key])
    } else {
        None
    }
}

/// The connections to peers.
#[derive(Debug)]
pub struct PeerConns {
    /// There is no table before the first connection.
    table: Option<dashmap::DashMap<Vec<u8>, u64>>,
}

impl View for PeerConns {
    type V = Map<Seq<u8>, u64>;

    closed spec fn view(&self) -> Map<Seq<u8>, u64> {
        match self.table {
            Some(table) => entries(table),
            None => Map::empty(),
        }
    }
}

fn peer_key(peer: &PeerIndex) -> (r: Vec<u8>)
    ensures
        r@ == peer@,
        r@.len() == 32,
        keys::ed25519_decodes(r@),
{
    let bytes: [u8; 32] = peer.inner().to_bytes();
    let mut r: Vec<u8> = Vec::new();
    r.extend_from_slice(bytes.as_slice());
    assert(r@ =~= bytes@);
    r
}

/// The peer that is entered under these bytes.
fn peer_of_key(key: &Vec<u8>) -> (r: PeerIndex)
    requires
        key@.len() == 32,
        keys::ed25519_decodes(key@),
    ensures
        r@ == key@,
{
    let mut bytes: [u8; 32] = [0;32];
    let mut i: usize = 0;
    while i < 32
        invariant
            i <= 32,
            key@.len() == 32,
            forall|j: int| 0 <= j < i ==> bytes@[j] == key@[j],
        decreases 32 - i,
    {
        bytes[i] = key[i];
        i += 1;
    }
    assert(bytes@ =~= key@);
    PeerIndex::from(VerifyingKey::from_bytes(&bytes).unwrap())
}

impl PeerConns {
    #[verifier::type_invariant]
    spec fn well_formed(self) -> bool {
        forall|key: Seq<u8>| #[trigger]
            self@.contains_key(key) ==> key.len() == 32 && keys::ed25519_decodes(key)
    }

    pub fn new() -> (r: PeerConns)
        ensures
            r@ == Map::<Seq<u8>, u64>::empty(),
    {
        PeerConns { table: None }
    }

    /// Enters the connection to a peer, and returns the one it takes the place of.
    pub fn insert(&mut self, peer: PeerIndex, conn: u64) -> (r: Option<u64>)
        ensures
            final(self)@ == old(self)@.insert(peer@, conn),
            r == lookup(old(self)@, peer@),
    {
        proof {
            use_type_invariant(&*self);
        }
        let mut taken: Option<dashmap::DashMap<Vec<u8>, u64>> = None;
        std::mem::swap(&mut taken, &mut self.table);
        let mut table = match taken {
            Some(table) => table,
            None => new_table(),
        };
        assert(entries(table) =~= old(self)@);
        let r: Option<u64> = insert_entry(&mut table, peer_key(&peer), conn);
        self.table = Some(table);
        r
    }

    /// Strikes out the connection to a peer, and returns it.
    pub fn remove(&mut self, peer: &PeerIndex) -> (r: Option<u64>)
        ensures
            final(self)@ == old(self)@.remove(peer@),
            r == lookup(old(self)@, peer@),
    {
        proof {
            use_type_invariant(&*self);
        }
        let mut taken: Option<dashmap::DashMap<Vec<u8>, u64>> = None;
        std::mem::swap(&mut taken, &mut self.table);
        match taken {
            Some(table) => {
                let mut table = table;
                let r: Option<u64> = remove_entry(&mut table, &peer_key(peer));
                self.table = Some(table);
                r
            },
            None => {
                assert(self@ =~= old(self)@.remove(peer@));
                None
            },
        }
    }

    /// The connection to a peer.
    pub fn get(&self, peer: &PeerIndex) -> (r: Option<u64>)
        ensures
            r == lookup(self@, peer@),
    {
        match &self.table {
            Some(table) => get_entry(table, &peer_key(peer)),
            None => None,
        }
    }

    /// The peers that there is a connection to, each once, in no particular order.
    pub fn peers(&self) -> (r: Vec<PeerIndex>)
        ensures
            collections::views(r@).no_duplicates(),
            collections::views(r@).to_set() == self@.dom(),
    {
        proof {
            use_type_invariant(self);
        }
        let keys: Vec<Vec<u8>> = match &self.table {
            Some(table) => entry_keys(table),
            None => Vec::new(),
        };
        assert(collections::views(keys@).to_set() =~= self@.dom());
        let mut r: Vec<PeerIndex> = Vec::new();
        let mut i: usize = 0;
        while i < keys.len()
            invariant
                i <= keys@.len(),
                r@.len() == i,
                forall|j: int| 0 <= j < i ==> (#[trigger] r@[j])@ == keys@[j]@,
                collections::views(keys@).to_set() == self@.dom(),
                self.well_formed(),
            decreases keys@.len() - i,
        {
            assert(collections::views(keys@).to_set().contains(
                collections::views(keys@)[i as int],
            ));
            assert(self@.contains_key(keys@[i as int]@));
            r.push(peer_of_key(&keys[i]));
            i += 1;
        }
        assert(collections::views(r@) =~= collections::views(keys@));
        r
    }
}

/// The bytes that a service is entered under: its key, its port and its host.
pub open spec fn signal_key(sig: SignalView) -> Seq<u8> {
    sig.id + seq![(sig.port / 256) as u8, (sig.port % 256) as u8] + vstd::utf8::encode_utf8(
        sig.host,
    )
}

/// Different services are entered under different bytes.
pub proof fn signal_keys_differ(a: SignalView, b: SignalView)
    requires
        a.id.len() == b.id.len(),
        signal_key(a) == signal_key(b),
    ensures
        a == b,
{
    let n = a.id.len() as int;
    let x = signal_key(a);
    let y = signal_key(b);
    assert(a.id =~= x.subrange(0, n));
    assert(b.id =~= y.subrange(0, n));
    assert(x[n] == (a.port / 256) as u8 && x[n + 1] == (a.port % 256) as u8);
    assert(y[n] == (b.port / 256) as u8 && y[n + 1] == (b.port % 256) as u8);
    assert(vstd::utf8::encode_utf8(a.host) =~= x.subrange(n + 2, x.len() as int));
    assert(vstd::utf8::encode_utf8(b.host) =~= y.subrange(n + 2, y.len() as int));
    vstd::utf8::encode_utf8_decode_utf8(a.host);
    vstd::utf8::encode_utf8_decode_utf8(b.host);
}

/// The connections to signalling services.
#[derive(Debug)]
pub struct SignalConns {
    table: dashmap::DashMap<Vec<u8>, u64>,
}

impl View for SignalConns {
    type V = Map<SignalView, u64>;

    closed spec fn view(&self) -> Map<SignalView, u64> {
        Map::new(
            |s: SignalView| s.id.len() == 32 && entries(self.table).contains_key(signal_key(s)),
            |s: SignalView| entries(self.table)[signal_key(s)],
        )
    }
}

fn key_of_signal(sig: &SignalInfo) -> (r: Vec<u8>)
    ensures
        r@ == signal_key(sig@),
        sig@.id.len() == 32,
{
    let mut r: Vec<u8> = peer_key(&sig.id);
    r.push((sig.addr.1 / 256) as u8);
    r.push((sig.addr.1 % 256) as u8);
    r.extend_from_slice(sig.addr.0.as_str().as_bytes());
    assert(r@ =~= signal_key(sig@));
    r
}

impl SignalConns {
    pub fn new() -> (r: SignalConns)
        ensures
            r@ == Map::<SignalView, u64>::empty(),
    {
        let r = SignalConns { table: new_table() };
        assert(r@ =~= Map::<SignalView, u64>::empty());
        r
    }

    /// Enters the connection to a service, and returns the one it takes the
    /// place of.
    pub fn insert(&mut self, sig: SignalInfo, conn: u64) -> (r: Option<u64>)
        ensures
            final(self)@ == old(self)@.insert(sig@, conn),
            r == lookup(old(self)@, sig@),
    {
        let r: Option<u64> = insert_entry(&mut self.table, key_of_signal(&sig), conn);
        proof {
            assert forall|s: SignalView|
                s.id.len() == 32 && signal_key(s) == signal_key(sig@) implies s == sig@ by {
                signal_keys_differ(s, sig@);
            }
            assert(self@ =~= old(self)@.insert(sig@, conn));
        }
        r
    }

    /// Strikes out the connection to a service, and returns it.
    pub fn remove(&mut self, sig: &SignalInfo) -> (r: Option<u64>)
        ensures
            final(self)@ == old(self)@.remove(sig@),
            r == lookup(old(self)@, sig@),
    {
        let r: Option<u64> = remove_entry(&mut self.table, &key_of_signal(sig));
        proof {
            assert forall|s: SignalView|
                s.id.len() == 32 && signal_key(s) == signal_key(sig@) implies s == sig@ by {
                signal_keys_differ(s, sig@);
            }
            assert(self@ =~= old(self)@.remove(sig@));
        }
        r
    }

    /// The connection to a service.
    pub fn get(&self, sig: &SignalInfo) -> (r: Option<u64>)
        ensures
            r == lookup(self@, sig@),
    {
        get_entry(&self.table, &key_of_signal(sig))
    }
}

/// A key is looked up to its value exactly where it has one.
pub proof fn what_is_there_is_found<K>(map: Map<K, u64>, key: K, conn: u64)
    ensures
        lookup(map, key) == Some(conn) <==> map.contains_key(key) && map[key] == conn,
        lookup(map, key) is None <==> !map.contains_key(key),
{
}

/// A connection that is entered is found until it is struck out or another takes
/// its place, and no other connection changes.
pub proof fn connections_are_found_until_they_are_struck_out(
    a: &mut PeerConns,
    peer: PeerIndex,
    conn: u64,
    replaced: Option<u64>,
    entered: &PeerConns,
    found: Option<u64>,
    b: &mut PeerConns,
    struck: Option<u64>,
    other: Seq<u8>,
)
    requires
        call_ensures(PeerConns::insert, (a, peer, conn), replaced),
        *entered == *final(a),
        call_ensures(PeerConns::get, (entered, &peer), found),
        *old(b) == *final(a),
        call_ensures(PeerConns::remove, (b, &peer), struck),
        other != peer@,
    ensures
        found == Some(conn),
        struck == Some(conn),
        replaced is Some <==> old(a)@.contains_key(peer@),
        !final(b)@.contains_key(peer@),
        final(b)@.contains_key(other) == old(a)@.contains_key(other),
        old(a)@.contains_key(other) ==> final(b)@[other] == old(a)@[other],
{
}

/// So it is with the connections to services.
pub proof fn services_are_found_until_they_are_struck_out(
    a: &mut SignalConns,
    sig: SignalInfo,
    conn: u64,
    replaced: Option<u64>,
    entered: &SignalConns,
    found: Option<u64>,
    b: &mut SignalConns,
    struck: Option<u64>,
    other: SignalView,
)
    requires
        call_ensures(SignalConns::insert, (a, sig, conn), replaced),
        *entered == *final(a),
        call_ensures(SignalConns::get, (entered, &sig), found),
        *old(b) == *final(a),
        call_ensures(SignalConns::remove, (b, &sig), struck),
        other != sig@,
    ensures
        found == Some(conn),
        struck == Some(conn),
        replaced is Some <==> old(a)@.contains_key(sig@),
        !final(b)@.contains_key(sig@),
        final(b)@.contains_key(other) == old(a)@.contains_key(other),
        old(a)@.contains_key(other) ==> final(b)@[other] == old(a)@[other],
{
}

} // verus!

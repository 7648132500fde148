//! Which peer is connected to which signalling service.

use crate::collections;
use crate::collections::{KeyMap, KeySet};
use crate::message::PeerIndex;
use crate::webrtc::signal::{SignalInfo, SignalView};
use vstd::prelude::*;

verus! {

/// A change of the peers that a signalling service has, as it is announced to
/// the other services.
#[derive(Debug)]
pub enum PeerSignalStateChange {
    /// The peer has come to the service.
    Connect(PeerIndex, SignalInfo),
    /// The peer has left the service.
    DisConnect(PeerIndex, SignalInfo),
    /// The service has exactly these peers.
    All(Vec<PeerIndex>, SignalInfo),
}

impl Clone for PeerSignalStateChange {
    fn clone(&self) -> (r: Self)
        ensures
            match *self {
                PeerSignalStateChange::All(peers, sig) => r matches PeerSignalStateChange::All(p, s)
                    && p@ == peers@ && s == sig,
                _ => r == *self,
            },
    {
        match self {
            PeerSignalStateChange::Connect(peer, sig) => PeerSignalStateChange::Connect(
                *peer,
                sig.clone(),
            ),
            PeerSignalStateChange::DisConnect(peer, sig) => PeerSignalStateChange::DisConnect(
                *peer,
                sig.clone(),
            ),
            PeerSignalStateChange::All(peers, sig) => PeerSignalStateChange::All(
                peers.clone(),
                sig.clone(),
            ),
        }
    }
}

/// The peers of each service, and the service of each peer.
pub struct SigPeersView {
    pub sigs: Map<SignalView, Set<Seq<u8>>>,
    pub peers: Map<Seq<u8>, SignalView>,
}

/// The services' peers once a peer has left a service: a service without any
/// peer left is forgotten.
pub open spec fn left(
    sigs: Map<SignalView, Set<Seq<u8>>>,
    sig: SignalView,
    peer: Seq<u8>,
) -> Map<SignalView, Set<Seq<u8>>> {
    if !sigs.contains_key(sig) {
        sigs
    } else if sigs[sig].remove(peer) == Set::<Seq<u8>>::empty() {
        sigs.remove(sig)
    } else {
        sigs.insert(sig, sigs[sig].remove(peer))
    }
}

/// The peers of a service, none where the service is unknown.
pub open spec fn peers_of(sigs: Map<SignalView, Set<Seq<u8>>>, sig: SignalView) -> Set<Seq<u8>> {
    if sigs.contains_key(sig) {
        sigs[sig]
    } else {
        Set::empty()
    }
}

/// Those of the movers that were at a service.
pub open spec fn movers_from(
    peers: Map<Seq<u8>, SignalView>,
    movers: Set<Seq<u8>>,
    sig: SignalView,
) -> Set<Seq<u8>> {
    Set::new(|p: Seq<u8>| movers.contains(p) && peers.contains_key(p) && peers[p] == sig)
}

/// The services' peers once the movers have left the services that they were
/// at: a service whose last peers moved is forgotten.
pub open spec fn without_movers(
    sigs: Map<SignalView, Set<Seq<u8>>>,
    peers: Map<Seq<u8>, SignalView>,
    movers: Set<Seq<u8>>,
) -> Map<SignalView, Set<Seq<u8>>> {
    Map::new(
        |s: SignalView|
            sigs.contains_key(s) && (movers_from(peers, movers, s) == Set::<Seq<u8>>::empty()
                || sigs[s].difference(movers_from(peers, movers, s)) != Set::<Seq<u8>>::empty()),
        |s: SignalView| sigs[s].difference(movers_from(peers, movers, s)),
    )
}

/// The service of each peer once those of `gone` that were at `sig` are at none,
/// and those of `come` are at `sig`.
pub open spec fn reassigned(
    peers: Map<Seq<u8>, SignalView>,
    sig: SignalView,
    gone: Set<Seq<u8>>,
    come: Set<Seq<u8>>,
) -> Map<Seq<u8>, SignalView> {
    Map::new(
        |p: Seq<u8>|
            come.contains(p) || (peers.contains_key(p) && !(gone.contains(p) && peers[p] == sig)),
        |p: Seq<u8>|
            if come.contains(p) {
                sig
            } else {
                peers[p]
            },
    )
}

impl SigPeersView {
    pub open spec fn empty() -> SigPeersView {
        SigPeersView { sigs: Map::empty(), peers: Map::empty() }
    }

    /// After a peer has come to a service.
    pub open spec fn connect(self, peer: Seq<u8>, sig: SignalView) -> SigPeersView {
        let sigs = if self.peers.contains_key(peer) {
            left(self.sigs, self.peers[peer], peer)
        } else {
            self.sigs
        };
        SigPeersView {
            sigs: sigs.insert(sig, peers_of(sigs, sig).insert(peer)),
            peers: self.peers.insert(peer, sig),
        }
    }

    /// After a peer has left a service. Where the peer is at another service
    /// meanwhile, it stays there.
    pub open spec fn disconnect(self, peer: Seq<u8>, sig: SignalView) -> SigPeersView {
        SigPeersView {
            sigs: left(self.sigs, sig, peer),
            peers: if self.peers.contains_key(peer) && self.peers[peer] == sig {
                self.peers.remove(peer)
            } else {
                self.peers
            },
        }
    }

    /// After a service has named all its peers.
    pub open spec fn all(self, new: Set<Seq<u8>>, sig: SignalView) -> SigPeersView {
        let before = peers_of(self.sigs, sig);
        SigPeersView {
            sigs: without_movers(self.sigs.remove(sig), self.peers, new.difference(before)).insert(
                sig,
                new,
            ),
            peers: reassigned(
                self.peers,
                sig,
                before.difference(new),
                new.difference(before),
            ),
        }
    }

    /// After an announcement.
    pub open spec fn changed(self, change: PeerSignalStateChange) -> SigPeersView {
        match change {
            PeerSignalStateChange::Connect(peer, sig) => self.connect(peer@, sig@),
            PeerSignalStateChange::DisConnect(peer, sig) => self.disconnect(peer@, sig@),
            PeerSignalStateChange::All(peers, sig) => self.all(collections::views(peers@).to_set(), sig@),
        }
    }

    /// Each peer is at the service that has it, and at no other.
    pub open spec fn consistent(self) -> bool {
        forall|p: Seq<u8>, s: SignalView|
            #![trigger self.peers.contains_key(p), self.sigs.contains_key(s)]
            (self.peers.contains_key(p) && self.peers[p] == s) <==> (self.sigs.contains_key(s)
                && self.sigs[s].contains(p))
    }

    /// Each service that is known has a peer.
    pub open spec fn none_idle(self) -> bool {
        forall|s: SignalView| #[trigger]
            self.sigs.contains_key(s) ==> self.sigs[s] != Set::<Seq<u8>>::empty()
    }
}

spec fn sets_view(sigs: Map<SignalView, KeySet<PeerIndex>>) -> Map<SignalView, Set<Seq<u8>>> {
    Map::new(|s: SignalView| sigs.contains_key(s), |s: SignalView| sigs[s]@)
}

spec fn infos_view(peers: Map<Seq<u8>, SignalInfo>) -> Map<Seq<u8>, SignalView> {
    Map::new(|p: Seq<u8>| peers.contains_key(p), |p: Seq<u8>| peers[p]@)
}

/// The peers of each service, and the service of each peer.
#[derive(Debug)]
pub struct SigPeers {
    sigs: KeyMap<SignalInfo, KeySet<PeerIndex>>,
    peers: KeyMap<PeerIndex, SignalInfo>,
}

impl View for SigPeers {
    type V = SigPeersView;

    closed spec fn view(&self) -> SigPeersView {
        SigPeersView { sigs: sets_view(self.sigs@), peers: infos_view(self.peers@) }
    }
}

impl SigPeers {
    pub fn new() -> (r: SigPeers)
        ensures
            r@ == SigPeersView::empty(),
            r@.consistent(),
    {
        let r = SigPeers { sigs: KeyMap::new(), peers: KeyMap::new() };
        assert(r@.sigs =~= Map::<SignalView, Set<Seq<u8>>>::empty());
        assert(r@.peers =~= Map::<Seq<u8>, SignalView>::empty());
        r
    }

    /// The services that are known, each once, in no particular order.
    pub fn known_signals(&self) -> (r: Vec<SignalInfo>)
        ensures
            collections::views(r@).no_duplicates(),
            collections::views(r@).to_set() == self@.sigs.dom(),
    {
        assert(self.sigs@.dom() =~= self@.sigs.dom());
        self.sigs.keys()
    }

    /// Whether the service is known.
    pub fn knows(&self, sig: &SignalInfo) -> (r: bool)
        ensures
            r == self@.sigs.contains_key(sig@),
    {
        self.sigs.contains_key(sig)
    }

    /// The service that the peer is at.
    pub fn signal_of(&self, peer: &PeerIndex) -> (r: Option<SignalInfo>)
        ensures
            match r {
                Some(sig) => self@.peers.contains_key(peer@) && sig@ == self@.peers[peer@],
                None => !self@.peers.contains_key(peer@),
            },
    {
        match self.peers.get(peer) {
            Some(sig) => Some(sig.clone()),
            None => None,
        }
    }

    /// Whether the peer is at the service, by the service's own list.
    pub fn has_peer(&self, sig: &SignalInfo, peer: &PeerIndex) -> (r: bool)
        ensures
            r == peers_of(self@.sigs, sig@).contains(peer@),
    {
        match self.sigs.get(sig) {
            Some(set) => set.contains(peer),
            None => false,
        }
    }

    /// How many peers are at the service, by the service's own list.
    pub fn peer_count(&self, sig: &SignalInfo) -> (r: usize)
        ensures
            r == peers_of(self@.sigs, sig@).len(),
            peers_of(self@.sigs, sig@).finite(),
    {
        match self.sigs.get(sig) {
            Some(set) => set.len(),
            None => 0,
        }
    }

    fn leave(&mut self, sig: &SignalInfo, peer: &PeerIndex)
        ensures
            final(self)@.sigs == left(old(self)@.sigs, sig@, peer@),
            final(self).peers == old(self).peers,
    {
        match self.sigs.remove(sig) {
            Some(set) => {
                let mut set: KeySet<PeerIndex> = set;
                set.remove(peer);
                if !set.is_empty() {
                    self.sigs.insert(sig.clone(), set);
                }
            },
            None => {},
        }
        assert(self@.sigs =~= left(old(self)@.sigs, sig@, peer@));
    }

    fn connect(&mut self, peer: PeerIndex, sig: SignalInfo)
        ensures
            final(self)@ == old(self)@.connect(peer@, sig@),
    {
        let before: Option<SignalInfo> = self.peers.insert(peer, sig.clone());
        assert(self@.peers =~= old(self)@.peers.insert(peer@, sig@));
        match before {
            Some(old_sig) => self.leave(&old_sig, &peer),
            None => {},
        }
        let ghost sigs = self@.sigs;
        let mut set: KeySet<PeerIndex> = match self.sigs.remove(&sig) {
            Some(set) => set,
            None => KeySet::new(),
        };
        set.insert(peer);
        self.sigs.insert(sig, set);
        assert(self@.sigs =~= sigs.insert(sig@, peers_of(sigs, sig@).insert(peer@)));
    }

    fn disconnect(&mut self, peer: PeerIndex, sig: SignalInfo)
        ensures
            final(self)@ == old(self)@.disconnect(peer@, sig@),
    {
        let here: bool = match self.peers.get(&peer) {
            Some(existing) => existing.same(&sig),
            None => false,
        };
        if here {
            self.peers.remove(&peer);
        }
        assert(self@.peers =~= old(self)@.disconnect(peer@, sig@).peers);
        self.leave(&sig, &peer);
    }

    fn all(&mut self, new_peers: &Vec<PeerIndex>, sig: SignalInfo)
        ensures
            final(self)@ == old(self)@.all(collections::views(new_peers@).to_set(), sig@),
    {
        let ghost v = self@;
        let ghost before = peers_of(v.sigs, sig@);
        let new: KeySet<PeerIndex> = KeySet::from_vec(new_peers);
        let old_set: KeySet<PeerIndex> = match self.sigs.get(&sig) {
            Some(set) => set.copy(),
            None => KeySet::new(),
        };

        let old_items: Vec<PeerIndex> = old_set.to_vec();
        let ghost gone_seq = collections::views(old_items@);
        let mut i: usize = 0;
        assert(self@.peers =~= reassigned(
            v.peers,
            sig@,
            gone_seq.take(0).to_set().difference(new@),
            Set::empty(),
        ));
        while i < old_items.len()
            invariant
                i <= old_items@.len(),
                gone_seq == collections::views(old_items@),
                gone_seq.no_duplicates(),
                self@.sigs == v.sigs,
                self@.peers == reassigned(
                    v.peers,
                    sig@,
                    gone_seq.take(i as int).to_set().difference(new@),
                    Set::empty(),
                ),
            decreases old_items@.len() - i,
        {
            let peer: PeerIndex = old_items[i];
            proof {
                lemma_take_insert(gone_seq, i as int);
                assert(gone_seq[i as int] == peer@);
            }
            let ghost now = self@.peers;
            if !new.contains(&peer) {
                let here: bool = match self.peers.get(&peer) {
                    Some(existing) => existing.same(&sig),
                    None => false,
                };
                assert(here == (now.contains_key(peer@) && now[peer@] == sig@));
                if here {
                    self.peers.remove(&peer);
                    assert(self@.peers =~= now.remove(peer@));
                }
            }
            i += 1;
            assert(self@.peers =~= reassigned(
                v.peers,
                sig@,
                gone_seq.take(i as int).to_set().difference(new@),
                Set::empty(),
            ));
        }
        let ghost gone = before.difference(new@);
        proof {
            assert(gone_seq.take(i as int) =~= gone_seq);
        }

        let new_items: Vec<PeerIndex> = new.to_vec();
        let ghost come_seq = collections::views(new_items@);
        let mut j: usize = 0;
        proof {
            assert(come_seq.take(0).to_set().difference(before) =~= Set::<Seq<u8>>::empty());
            lemma_no_movers(v.sigs.remove(sig@), v.peers);
        }
        while j < new_items.len()
            invariant
                j <= new_items@.len(),
                come_seq == collections::views(new_items@),
                come_seq.no_duplicates(),
                come_seq.to_set() == new@,
                old_set@ == before,
                gone == before.difference(new@),
                self@.peers == reassigned(
                    v.peers,
                    sig@,
                    gone,
                    come_seq.take(j as int).to_set().difference(before),
                ),
                self@.sigs.remove(sig@) == without_movers(
                    v.sigs.remove(sig@),
                    v.peers,
                    come_seq.take(j as int).to_set().difference(before),
                ),
            decreases new_items@.len() - j,
        {
            let peer: PeerIndex = new_items[j];
            let ghost movers = come_seq.take(j as int).to_set().difference(before);
            let ghost more = come_seq.take(j + 1).to_set().difference(before);
            proof {
                lemma_take_insert(come_seq, j as int);
                assert(come_seq[j as int] == peer@);
                assert(come_seq.to_set().contains(come_seq[j as int]));
            }
            if !old_set.contains(&peer) {
                let ghost now = self@;
                assert(more =~= movers.insert(peer@));
                assert(!gone.contains(peer@));
                assert(now.peers.contains_key(peer@) == v.peers.contains_key(peer@));
                assert(now.peers[peer@] == self.peers@[peer@]@ || !v.peers.contains_key(peer@));
                let existing: Option<SignalInfo> = self.peers.insert(peer, sig.clone());
                assert(self@.peers =~= now.peers.insert(peer@, sig@));
                assert(self@.peers =~= reassigned(v.peers, sig@, gone, more));
                match existing {
                    Some(old_sig) => {
                        self.leave(&old_sig, &peer);
                        proof {
                            assert(old_sig@ == v.peers[peer@]);
                            lemma_one_more_mover(v.sigs.remove(sig@), v.peers, movers, peer@);
                            assert(self@.sigs.remove(sig@) =~= left(
                                now.sigs.remove(sig@),
                                old_sig@,
                                peer@,
                            ));
                        }
                    },
                    None => {
                        proof {
                            lemma_one_more_mover(v.sigs.remove(sig@), v.peers, movers, peer@);
                        }
                    },
                }
            } else {
                assert(more =~= movers);
            }
            j += 1;
        }
        proof {
            assert(come_seq.take(j as int) =~= come_seq);
        }

        let ghost now = self@.sigs;
        self.sigs.insert(sig, new);
        assert(self@.sigs =~= now.remove(sig@).insert(sig@, new@));
    }
}

/// Brings the table up to date with an announcement.
pub fn handle_peer_signal_state_changes(msg: PeerSignalStateChange, sig_peers: &mut SigPeers)
    ensures
        final(sig_peers)@ == old(sig_peers)@.changed(msg),
        old(sig_peers)@.consistent() ==> final(sig_peers)@.consistent(),
{
    proof {
        if sig_peers@.consistent() {
            changes_keep_consistency(sig_peers@, msg);
        }
    }
    match msg {
        PeerSignalStateChange::Connect(peer, sig) => sig_peers.connect(peer, sig),
        PeerSignalStateChange::DisConnect(peer, sig) => sig_peers.disconnect(peer, sig),
        PeerSignalStateChange::All(peers, sig) => sig_peers.all(&peers, sig),
    }
}

proof fn lemma_take_insert(s: Seq<Seq<u8>>, i: int)
    requires
        0 <= i < s.len(),
        s.no_duplicates(),
    ensures
        s.take(i + 1).to_set() == s.take(i).to_set().insert(s[i]),
        !s.take(i).to_set().contains(s[i]),
{
    collections::lemma_take_next(s, i);
}

proof fn lemma_no_movers(sigs: Map<SignalView, Set<Seq<u8>>>, peers: Map<Seq<u8>, SignalView>)
    ensures
        without_movers(sigs, peers, Set::empty()) == sigs,
{
    let none = Set::<Seq<u8>>::empty();
    assert forall|s: SignalView| movers_from(peers, none, s) == none by {
        assert(movers_from(peers, none, s) =~= none);
    }
    assert forall|s: SignalView| #[trigger] sigs.contains_key(s) implies sigs[s].difference(none)
        == sigs[s] by {
        assert(sigs[s].difference(none) =~= sigs[s]);
    }
    assert(without_movers(sigs, peers, none) =~= sigs);
}

proof fn lemma_one_more_mover(
    sigs: Map<SignalView, Set<Seq<u8>>>,
    peers: Map<Seq<u8>, SignalView>,
    movers: Set<Seq<u8>>,
    peer: Seq<u8>,
)
    requires
        !movers.contains(peer),
    ensures
        without_movers(sigs, peers, movers.insert(peer)) == (if peers.contains_key(peer) {
            left(without_movers(sigs, peers, movers), peers[peer], peer)
        } else {
            without_movers(sigs, peers, movers)
        }),
{
    let none = Set::<Seq<u8>>::empty();
    let more = movers.insert(peer);
    let a = without_movers(sigs, peers, more);
    let before = without_movers(sigs, peers, movers);
    assert forall|s: SignalView|
        !(peers.contains_key(peer) && peers[peer] == s) implies movers_from(peers, more, s)
        == movers_from(peers, movers, s) by {
        assert(movers_from(peers, more, s) =~= movers_from(peers, movers, s));
    }
    if peers.contains_key(peer) {
        let sig = peers[peer];
        let b = left(before, sig, peer);
        assert(movers_from(peers, more, sig) =~= movers_from(peers, movers, sig).insert(peer));
        assert(movers_from(peers, more, sig).contains(peer));
        if sigs.contains_key(sig) {
            let was = sigs[sig].difference(movers_from(peers, movers, sig));
            assert(sigs[sig].difference(movers_from(peers, more, sig)) =~= was.remove(peer));
            if !before.contains_key(sig) {
                assert(was.remove(peer) =~= none);
            }
        }
        assert(a =~= b);
    } else {
        assert(a =~= before);
    }
}

/// Every announcement keeps the two halves of the table consistent.
pub proof fn changes_keep_consistency(v: SigPeersView, change: PeerSignalStateChange)
    requires
        v.consistent(),
    ensures
        v.changed(change).consistent(),
{
    match change {
        PeerSignalStateChange::Connect(peer, sig) => connect_keeps_consistency(v, peer@, sig@),
        PeerSignalStateChange::DisConnect(peer, sig) => disconnect_keeps_consistency(
            v,
            peer@,
            sig@,
        ),
        PeerSignalStateChange::All(peers, sig) => all_keeps_consistency(
            v,
            collections::views(peers@).to_set(),
            sig@,
        ),
    }
}

proof fn lemma_left(sigs: Map<SignalView, Set<Seq<u8>>>, sig: SignalView, peer: Seq<u8>)
    ensures
        forall|s: SignalView, p: Seq<u8>|
            #![trigger peers_of(left(sigs, sig, peer), s).contains(p)]
            peers_of(left(sigs, sig, peer), s).contains(p) <==> peers_of(sigs, s).contains(p) && !(s
                == sig && p == peer),
{
    assert forall|s: SignalView, p: Seq<u8>| #[trigger]
        peers_of(left(sigs, sig, peer), s).contains(p) <==> peers_of(sigs, s).contains(p) && !(s
            == sig && p == peer) by {
        if sigs.contains_key(sig) && s == sig {
            let rest = sigs[sig].remove(peer);
            assert(rest.contains(p) <==> sigs[sig].contains(p) && p != peer);
            if rest == Set::<Seq<u8>>::empty() {
                assert(!rest.contains(p));
            }
        }
    }
}

/// Whether the table has the peer at the service, in both its halves or in none.
spec fn agrees(v: SigPeersView, p: Seq<u8>, s: SignalView) -> bool {
    (v.peers.contains_key(p) && v.peers[p] == s) <==> peers_of(v.sigs, s).contains(p)
}

proof fn lemma_consistent(v: SigPeersView)
    ensures
        v.consistent() <==> forall|p: Seq<u8>, s: SignalView| #[trigger] agrees(v, p, s),
{
    if v.consistent() {
        assert forall|p: Seq<u8>, s: SignalView| #[trigger] agrees(v, p, s) by {
            assert((v.peers.contains_key(p) && v.peers[p] == s) <==> (v.sigs.contains_key(s)
                && v.sigs[s].contains(p)));
        }
    }
    if forall|p: Seq<u8>, s: SignalView| #[trigger] agrees(v, p, s) {
        assert forall|p: Seq<u8>, s: SignalView|
            #![trigger v.peers.contains_key(p), v.sigs.contains_key(s)]
            (v.peers.contains_key(p) && v.peers[p] == s) <==> (v.sigs.contains_key(s)
                && v.sigs[s].contains(p)) by {
            assert(agrees(v, p, s));
        }
    }
}

proof fn connect_keeps_consistency(v: SigPeersView, peer: Seq<u8>, sig: SignalView)
    requires
        v.consistent(),
    ensures
        v.connect(peer, sig).consistent(),
{
    let w = v.connect(peer, sig);
    lemma_consistent(v);
    lemma_consistent(w);
    if v.peers.contains_key(peer) {
        lemma_left(v.sigs, v.peers[peer], peer);
    }
    let sigs = if v.peers.contains_key(peer) {
        left(v.sigs, v.peers[peer], peer)
    } else {
        v.sigs
    };
    assert forall|p: Seq<u8>, s: SignalView| #[trigger] agrees(w, p, s) by {
        assert(agrees(v, p, s));
        assert(peers_of(w.sigs, s).contains(p) <==> peers_of(sigs, s).contains(p) || (s == sig && p
            == peer));
        assert(peers_of(sigs, s).contains(p) <==> peers_of(v.sigs, s).contains(p) && !(
        v.peers.contains_key(peer) && s == v.peers[peer] && p == peer));
    }
}

proof fn disconnect_keeps_consistency(v: SigPeersView, peer: Seq<u8>, sig: SignalView)
    requires
        v.consistent(),
    ensures
        v.disconnect(peer, sig).consistent(),
{
    let w = v.disconnect(peer, sig);
    lemma_consistent(v);
    lemma_consistent(w);
    lemma_left(v.sigs, sig, peer);
    assert forall|p: Seq<u8>, s: SignalView| #[trigger] agrees(w, p, s) by {
        assert(agrees(v, p, s));
        assert(peers_of(w.sigs, s).contains(p) <==> peers_of(v.sigs, s).contains(p) && !(s == sig
            && p == peer));
    }
}

proof fn all_keeps_consistency(v: SigPeersView, new: Set<Seq<u8>>, sig: SignalView)
    requires
        v.consistent(),
    ensures
        v.all(new, sig).consistent(),
{
    let w = v.all(new, sig);
    let before = peers_of(v.sigs, sig);
    let come = new.difference(before);
    lemma_consistent(v);
    lemma_consistent(w);
    assert forall|p: Seq<u8>, s: SignalView| #[trigger] agrees(w, p, s) by {
        assert(agrees(v, p, s));
        assert(agrees(v, p, sig));
        if s == sig {
            assert(peers_of(w.sigs, s) == new);
        } else {
            let movers = movers_from(v.peers, come, s);
            let rest = peers_of(v.sigs, s).difference(movers);
            assert(rest.contains(p) <==> peers_of(v.sigs, s).contains(p) && !movers.contains(p));
            if !w.sigs.contains_key(s) && v.sigs.contains_key(s) {
                assert(!rest.contains(p));
            }
            assert(peers_of(w.sigs, s).contains(p) <==> rest.contains(p));
        }
    }
}

/// The empty table is consistent.
pub proof fn empty_is_consistent()
    ensures
        SigPeersView::empty().consistent(),
        SigPeersView::empty().none_idle(),
{
}

/// A peer that has come to a service is at that service and at no other; nothing
/// changes for the other peers.
pub proof fn connect_moves_one_peer(v: SigPeersView, peer: Seq<u8>, sig: SignalView)
    requires
        v.consistent(),
    ensures
        v.connect(peer, sig).peers.contains_key(peer),
        v.connect(peer, sig).peers[peer] == sig,
        forall|s: SignalView|
            #![trigger peers_of(v.connect(peer, sig).sigs, s)]
            peers_of(v.connect(peer, sig).sigs, s).contains(peer) <==> s == sig,
        forall|p: Seq<u8>, s: SignalView|
            #![trigger peers_of(v.connect(peer, sig).sigs, s).contains(p)]
            p != peer ==> (peers_of(v.connect(peer, sig).sigs, s).contains(p) <==> peers_of(
                v.sigs,
                s,
            ).contains(p)),
{
    let w = v.connect(peer, sig);
    connect_keeps_consistency(v, peer, sig);
    lemma_consistent(w);
    lemma_consistent(v);
    assert forall|s: SignalView| #[trigger] peers_of(w.sigs, s).contains(peer) <==> s == sig by {
        assert(agrees(w, peer, s));
    }
    assert forall|p: Seq<u8>, s: SignalView| p != peer implies (#[trigger] peers_of(
        w.sigs,
        s,
    ).contains(p) <==> peers_of(v.sigs, s).contains(p)) by {
        assert(agrees(w, p, s));
        assert(agrees(v, p, s));
    }
}

/// To leave a service undoes having come to it: the peer is at no service.
pub proof fn disconnect_undoes_connect(v: SigPeersView, peer: Seq<u8>, sig: SignalView)
    requires
        v.consistent(),
    ensures
        !v.connect(peer, sig).disconnect(peer, sig).peers.contains_key(peer),
        forall|s: SignalView|
            !(#[trigger] peers_of(v.connect(peer, sig).disconnect(peer, sig).sigs, s)).contains(peer),
{
    let w = v.connect(peer, sig);
    connect_keeps_consistency(v, peer, sig);
    disconnect_keeps_consistency(w, peer, sig);
    lemma_consistent(w.disconnect(peer, sig));
    assert forall|s: SignalView|
        !(#[trigger] peers_of(w.disconnect(peer, sig).sigs, s)).contains(peer) by {
        assert(agrees(w.disconnect(peer, sig), peer, s));
    }
}

/// News that a peer has left a service where it no longer is changes nothing.
pub proof fn late_disconnect_is_ignored(v: SigPeersView, peer: Seq<u8>, sig: SignalView)
    requires
        v.consistent(),
        v.none_idle(),
        !(v.peers.contains_key(peer) && v.peers[peer] == sig),
    ensures
        v.disconnect(peer, sig) == v,
{
    lemma_consistent(v);
    assert(agrees(v, peer, sig));
    if v.sigs.contains_key(sig) {
        assert(v.sigs[sig].remove(peer) =~= v.sigs[sig]);
        assert(v.disconnect(peer, sig).sigs =~= v.sigs);
    }
}

/// Once a service has named all its peers, these are the peers that are at it.
pub proof fn all_names_the_peers(v: SigPeersView, new: Set<Seq<u8>>, sig: SignalView)
    requires
        v.consistent(),
    ensures
        peers_of(v.all(new, sig).sigs, sig) == new,
        forall|p: Seq<u8>|
            #![trigger v.all(new, sig).peers.contains_key(p)]
            (v.all(new, sig).peers.contains_key(p) && v.all(new, sig).peers[p] == sig)
                <==> new.contains(p),
        forall|p: Seq<u8>|
            #![trigger v.all(new, sig).peers.contains_key(p)]
            v.peers.contains_key(p) && v.peers[p] != sig && !new.contains(p) ==> v.all(
                new,
                sig,
            ).peers.contains_key(p) && v.all(new, sig).peers[p] == v.peers[p],
{
    let w = v.all(new, sig);
    all_keeps_consistency(v, new, sig);
    lemma_consistent(w);
    assert forall|p: Seq<u8>|
        (#[trigger] w.peers.contains_key(p) && w.peers[p] == sig) <==> new.contains(p) by {
        assert(agrees(w, p, sig));
    }
}

/// The same announcement twice says no more than once.
pub proof fn changes_are_idempotent(v: SigPeersView, change: PeerSignalStateChange)
    requires
        v.consistent(),
    ensures
        v.changed(change).changed(change) == v.changed(change),
{
    let w = v.changed(change);
    changes_keep_consistency(v, change);
    match change {
        PeerSignalStateChange::Connect(peer, sig) => {
            let set = w.sigs[sig@];
            assert(set.contains(peer@));
            assert(set.remove(peer@).insert(peer@) =~= set);
            if set.remove(peer@) == Set::<Seq<u8>>::empty() {
                assert(Set::<Seq<u8>>::empty().insert(peer@) =~= set);
            }
            assert(w.changed(change).sigs =~= w.sigs);
            assert(w.changed(change).peers =~= w.peers);
        },
        PeerSignalStateChange::DisConnect(peer, sig) => {
            lemma_left(v.sigs, sig@, peer@);
            assert(!peers_of(w.sigs, sig@).contains(peer@));
            if w.sigs.contains_key(sig@) {
                assert(w.sigs[sig@].remove(peer@) =~= w.sigs[sig@]);
                assert(w.changed(change).sigs =~= w.sigs);
            }
            assert(w.changed(change).peers =~= w.peers);
        },
        PeerSignalStateChange::All(peers, sig) => {
            let new = collections::views(peers@).to_set();
            assert(peers_of(w.sigs, sig@) == new);
            assert(new.difference(new) =~= Set::<Seq<u8>>::empty());
            lemma_no_movers(w.sigs.remove(sig@), w.peers);
            assert(w.changed(change).sigs =~= w.sigs);
            assert(w.changed(change).peers =~= w.peers);
        },
    }
}

/// Services without a peer are not kept, except where the service itself has
/// just said that it has none.
pub proof fn idle_services_are_forgotten(v: SigPeersView, change: PeerSignalStateChange)
    requires
        v.none_idle(),
        change matches PeerSignalStateChange::All(peers, _) ==> peers@.len() > 0,
    ensures
        v.changed(change).none_idle(),
{
    let w = v.changed(change);
    let none = Set::<Seq<u8>>::empty();
    assert forall|s: SignalView| #[trigger] w.sigs.contains_key(s) implies w.sigs[s] != none by {
        match change {
            PeerSignalStateChange::Connect(peer, sig) => {
                if s == sig@ {
                    assert(w.sigs[s].contains(peer@));
                }
                assert(v.sigs.contains_key(s) ==> v.sigs[s] != none);
            },
            PeerSignalStateChange::DisConnect(peer, sig) => {
                assert(v.sigs.contains_key(s));
            },
            PeerSignalStateChange::All(peers, sig) => {
                if s == sig@ {
                    assert(collections::views(peers@)[0] == peers@[0]@);
                    assert(w.sigs[s].contains(collections::views(peers@)[0]));
                } else {
                    assert(v.sigs.contains_key(s));
                    let come = collections::views(peers@).to_set().difference(peers_of(v.sigs, sig@));
                    if movers_from(v.peers, come, s) == none {
                        assert(v.sigs[s].difference(none) =~= v.sigs[s]);
                    }
                }
            },
        }
    }
}

/// A consistent table has a peer at a service in one half exactly where it has
/// it there in the other.
pub proof fn both_halves_agree(v: SigPeersView)
    ensures
        v.consistent() <==> (forall|p: Seq<u8>, s: SignalView|
            #![trigger v.peers.contains_key(p), v.sigs.contains_key(s)]
            (v.peers.contains_key(p) && v.peers[p] == s) <==> (v.sigs.contains_key(s)
                && v.sigs[s].contains(p))),
        v.none_idle() <==> (forall|s: SignalView| #[trigger]
            v.sigs.contains_key(s) ==> exists|p: Seq<u8>| v.sigs[s].contains(p)),
{
    let none = Set::<Seq<u8>>::empty();
    if v.none_idle() {
        assert forall|s: SignalView| #[trigger] v.sigs.contains_key(s) implies exists|p: Seq<u8>|
            v.sigs[s].contains(p) by {
            if !(exists|p: Seq<u8>| v.sigs[s].contains(p)) {
                assert(v.sigs[s] =~= none);
            }
        }
    }
    if forall|s: SignalView| #[trigger]
        v.sigs.contains_key(s) ==> exists|p: Seq<u8>| v.sigs[s].contains(p) {
        assert forall|s: SignalView| #[trigger] v.sigs.contains_key(s) implies v.sigs[s] != none by {
            let p = choose|p: Seq<u8>| v.sigs[s].contains(p);
            assert(!none.contains(p));
        }
    }
}

/// A new table has no peer at any service.
pub proof fn a_new_table_has_no_peers(p: Seq<u8>, s: SignalView)
    ensures
        !SigPeersView::empty().peers.contains_key(p),
        !SigPeersView::empty().sigs.contains_key(s),
{
}

/// The peers of a service are those of its own list, and an unknown service has
/// none.
pub proof fn peers_of_a_service(
    sigs: Map<SignalView, Set<Seq<u8>>>,
    sig: SignalView,
    peer: Seq<u8>,
)
    ensures
        sigs.contains_key(sig) ==> peers_of(sigs, sig) == sigs[sig],
        peers_of(sigs, sig).contains(peer) <==> sigs.contains_key(sig) && sigs[sig].contains(peer),
{
}

/// When a peer comes to a service, it is there and nowhere else, and every other
/// peer is where it was, in both halves of the table. The service is known from
/// then on; the one that the peer was at before is forgotten if it had no other
/// peer; nothing else changes.
pub proof fn a_peer_that_comes_moves_alone(v: SigPeersView, peer: PeerIndex, sig: SignalInfo)
    requires
        v.consistent(),
    ensures
        ({
            let w = v.changed(PeerSignalStateChange::Connect(peer, sig));
            &&& forall|p: Seq<u8>|
                #![trigger w.peers.contains_key(p)]
                (w.peers.contains_key(p) <==> p == peer@ || v.peers.contains_key(p)) && (
                w.peers.contains_key(p) ==> w.peers[p] == if p == peer@ {
                    sig@
                } else {
                    v.peers[p]
                })
            &&& forall|p: Seq<u8>, s: SignalView|
                #![trigger w.sigs[s].contains(p)]
                (w.sigs.contains_key(s) && w.sigs[s].contains(p)) <==> if p == peer@ {
                    s == sig@
                } else {
                    v.sigs.contains_key(s) && v.sigs[s].contains(p)
                }
            &&& forall|s: SignalView|
                #![trigger w.sigs.contains_key(s)]
                w.sigs.contains_key(s) <==> s == sig@ || (v.sigs.contains_key(s) && !(
                v.peers.contains_key(peer@) && v.peers[peer@] == s && forall|p: Seq<u8>| #[trigger]
                    v.sigs[s].contains(p) ==> p == peer@))
        }),
{
    let change = PeerSignalStateChange::Connect(peer, sig);
    let w = v.changed(change);
    let none = Set::<Seq<u8>>::empty();
    connect_keeps_consistency(v, peer@, sig@);
    lemma_consistent(w);
    lemma_consistent(v);
    assert forall|p: Seq<u8>, s: SignalView|
        #![trigger w.sigs[s].contains(p)]
        (w.sigs.contains_key(s) && w.sigs[s].contains(p)) <==> if p == peer@ {
            s == sig@
        } else {
            v.sigs.contains_key(s) && v.sigs[s].contains(p)
        } by {
        assert(agrees(w, p, s));
        assert(agrees(v, p, s));
    }
    assert forall|s: SignalView| s != sig@ implies (#[trigger] w.sigs.contains_key(s) <==> (
    v.sigs.contains_key(s) && !(v.peers.contains_key(peer@) && v.peers[peer@] == s && forall|
        p: Seq<u8>,
    | #[trigger]
        v.sigs[s].contains(p) ==> p == peer@))) by {
        if v.sigs.contains_key(s) && v.peers.contains_key(peer@) && v.peers[peer@] == s {
            lemma_emptied(v.sigs[s], peer@);
        }
    }
}

proof fn lemma_emptied(set: Set<Seq<u8>>, peer: Seq<u8>)
    ensures
        set.remove(peer) == Set::<Seq<u8>>::empty() <==> forall|p: Seq<u8>| #[trigger]
            set.contains(p) ==> p == peer,
{
    let rest = set.remove(peer);
    if rest == Set::<Seq<u8>>::empty() {
        assert forall|p: Seq<u8>| #[trigger] set.contains(p) implies p == peer by {
            assert(!rest.contains(p));
        }
    }
    if forall|p: Seq<u8>| #[trigger] set.contains(p) ==> p == peer {
        assert(rest =~= Set::<Seq<u8>>::empty());
    }
}

/// When a peer leaves a service, nothing changes for any other peer: each is
/// after it exactly where it was before, in both halves of the table. The peer
/// itself is no longer at the service; where it is at another one, it stays
/// there. The service is forgotten exactly where it has no other peer, and no
/// other service is.
pub proof fn a_peer_that_leaves_leaves_alone(v: SigPeersView, peer: PeerIndex, sig: SignalInfo)
    ensures
        ({
            let w = v.changed(PeerSignalStateChange::DisConnect(peer, sig));
            &&& forall|p: Seq<u8>|
                #![trigger w.peers.contains_key(p)]
                (w.peers.contains_key(p) <==> v.peers.contains_key(p) && !(p == peer@ && v.peers[p]
                    == sig@)) && (w.peers.contains_key(p) ==> w.peers[p] == v.peers[p])
            &&& forall|p: Seq<u8>, s: SignalView|
                #![trigger w.sigs[s].contains(p)]
                (w.sigs.contains_key(s) && w.sigs[s].contains(p)) <==> (v.sigs.contains_key(s)
                    && v.sigs[s].contains(p) && !(p == peer@ && s == sig@))
            &&& forall|s: SignalView|
                #![trigger w.sigs.contains_key(s)]
                w.sigs.contains_key(s) <==> v.sigs.contains_key(s) && !(s == sig@ && forall|
                    p: Seq<u8>,
                | #[trigger]
                    v.sigs[s].contains(p) ==> p == peer@)
        }),
{
    let w = v.changed(PeerSignalStateChange::DisConnect(peer, sig));
    lemma_left(v.sigs, sig@, peer@);
    lemma_emptied(v.sigs[sig@], peer@);
    assert forall|p: Seq<u8>, s: SignalView|
        #![trigger w.sigs[s].contains(p)]
        (w.sigs.contains_key(s) && w.sigs[s].contains(p)) <==> (v.sigs.contains_key(s)
            && v.sigs[s].contains(p) && !(p == peer@ && s == sig@)) by {
        assert(peers_of(left(v.sigs, sig@, peer@), s).contains(p) <==> peers_of(v.sigs, s).contains(
            p,
        ) && !(s == sig@ && p == peer@));
    }
}

/// When a service names all its peers, exactly these are at it, and at no other
/// service; a peer that was at it and is not named is at none; every other peer
/// is where it was. The service is known from then on; another service is
/// forgotten exactly where the last of its peers were named.
pub proof fn a_service_names_its_peers(v: SigPeersView, peers: Vec<PeerIndex>, sig: SignalInfo)
    requires
        v.consistent(),
    ensures
        ({
            let w = v.changed(PeerSignalStateChange::All(peers, sig));
            let named = |p: Seq<u8>|
                exists|i: int| 0 <= i < peers@.len() && (#[trigger] peers@[i])@ == p;
            &&& forall|p: Seq<u8>|
                #![trigger w.peers.contains_key(p)]
                (w.peers.contains_key(p) <==> named(p) || (v.peers.contains_key(p) && v.peers[p]
                    != sig@)) && (w.peers.contains_key(p) ==> w.peers[p] == if named(p) {
                    sig@
                } else {
                    v.peers[p]
                })
            &&& forall|p: Seq<u8>, s: SignalView|
                #![trigger w.sigs[s].contains(p)]
                (w.sigs.contains_key(s) && w.sigs[s].contains(p)) <==> if s == sig@ {
                    named(p)
                } else {
                    v.sigs.contains_key(s) && v.sigs[s].contains(p) && !named(p)
                }
            &&& forall|s: SignalView|
                #![trigger w.sigs.contains_key(s)]
                w.sigs.contains_key(s) <==> s == sig@ || (v.sigs.contains_key(s) && !((exists|
                    p: Seq<u8>,
                | #[trigger]
                    v.sigs[s].contains(p)) && forall|p: Seq<u8>| #[trigger]
                    v.sigs[s].contains(p) ==> named(p)))
        }),
{
    let change = PeerSignalStateChange::All(peers, sig);
    let w = v.changed(change);
    let names = collections::views(peers@);
    let new = names.to_set();
    let named = |p: Seq<u8>| exists|i: int| 0 <= i < peers@.len() && (#[trigger] peers@[i])@ == p;
    assert forall|p: Seq<u8>| #[trigger] new.contains(p) <==> named(p) by {
        if new.contains(p) {
            let i = choose|i: int| 0 <= i < names.len() && names[i] == p;
            assert(peers@[i]@ == p);
        }
        if named(p) {
            let i = choose|i: int| 0 <= i < peers@.len() && (#[trigger] peers@[i])@ == p;
            assert(names[i] == p);
        }
    }
    let before = peers_of(v.sigs, sig@);
    let come = new.difference(before);
    all_keeps_consistency(v, new, sig@);
    lemma_consistent(v);
    lemma_consistent(w);
    assert forall|p: Seq<u8>|
        #![trigger w.peers.contains_key(p)]
        (w.peers.contains_key(p) <==> named(p) || (v.peers.contains_key(p) && v.peers[p] != sig@)) && (
        w.peers.contains_key(p) ==> w.peers[p] == if named(p) {
            sig@
        } else {
            v.peers[p]
        }) by {
        assert(agrees(v, p, sig@));
        assert(new.contains(p) <==> named(p));
    }
    assert forall|p: Seq<u8>, s: SignalView|
        #![trigger w.sigs[s].contains(p)]
        (w.sigs.contains_key(s) && w.sigs[s].contains(p)) <==> if s == sig@ {
            named(p)
        } else {
            v.sigs.contains_key(s) && v.sigs[s].contains(p) && !named(p)
        } by {
        assert(agrees(w, p, s));
        assert(agrees(v, p, s));
        assert(w.peers.contains_key(p) || !w.peers.contains_key(p));
    }
    assert forall|s: SignalView| s != sig@ implies (#[trigger] w.sigs.contains_key(s) <==> (
    v.sigs.contains_key(s) && !((exists|p: Seq<u8>| #[trigger] v.sigs[s].contains(p)) && forall|
        p: Seq<u8>,
    | #[trigger]
        v.sigs[s].contains(p) ==> named(p)))) by {
        if v.sigs.contains_key(s) {
            let none = Set::<Seq<u8>>::empty();
            let movers = movers_from(v.peers, come, s);
            let rest = v.sigs[s].difference(movers);
            assert forall|p: Seq<u8>| #[trigger] movers.contains(p) <==> v.sigs[s].contains(p)
                && named(p) by {
                assert(agrees(v, p, s));
                assert(agrees(v, p, sig@));
                assert(new.contains(p) <==> named(p));
            }
            if movers == none {
                assert forall|p: Seq<u8>| #[trigger] v.sigs[s].contains(p) implies !named(p) by {
                    assert(!movers.contains(p));
                }
            } else {
                assert(exists|p: Seq<u8>| #[trigger] v.sigs[s].contains(p)) by {
                    if forall|p: Seq<u8>| !(#[trigger] movers.contains(p)) {
                        assert(movers =~= none);
                    }
                    let p = choose|p: Seq<u8>| movers.contains(p);
                    assert(v.sigs[s].contains(p));
                }
                if rest == none {
                    assert forall|p: Seq<u8>| #[trigger] v.sigs[s].contains(p) implies named(p) by {
                        assert(!rest.contains(p));
                    }
                } else {
                    if forall|p: Seq<u8>| #[trigger] v.sigs[s].contains(p) ==> named(p) {
                        assert(rest =~= none);
                    }
                }
            }
        }
    }
}

/// An announcement changes nothing for a peer that it does not concern: one that
/// it does not name, and that is not at a service that names all its peers. Such a
/// peer is after it exactly where it was before, in both halves of the table.
pub proof fn an_announcement_moves_only_whom_it_concerns(
    table: &mut SigPeers,
    change: PeerSignalStateChange,
    other: Seq<u8>,
    at: SignalView,
)
    requires
        old(table)@.consistent(),
        call_ensures(handle_peer_signal_state_changes, (change, table), ()),
        match change {
            PeerSignalStateChange::Connect(peer, _) => peer@ != other,
            PeerSignalStateChange::DisConnect(peer, _) => peer@ != other,
            PeerSignalStateChange::All(peers, sig) => (forall|i: int|
                0 <= i < peers@.len() ==> (#[trigger] peers@[i])@ != other) && !(
            old(table)@.peers.contains_key(other) && old(table)@.peers[other] == sig@),
        },
    ensures
        (final(table)@.peers.contains_key(other) && final(table)@.peers[other] == at) <==> (
        old(table)@.peers.contains_key(other) && old(table)@.peers[other] == at),
        (final(table)@.sigs.contains_key(at) && final(table)@.sigs[at].contains(other)) <==> (
        old(table)@.sigs.contains_key(at) && old(table)@.sigs[at].contains(other)),
{
    let v = old(table)@;
    let w = v.changed(change);
    lemma_consistent(v);
    changes_keep_consistency(v, change);
    lemma_consistent(w);
    assert(agrees(v, other, at));
    assert(agrees(w, other, at));
    match change {
        PeerSignalStateChange::Connect(peer, sig) => a_peer_that_comes_moves_alone(v, peer, sig),
        PeerSignalStateChange::DisConnect(peer, sig) => a_peer_that_leaves_leaves_alone(
            v,
            peer,
            sig,
        ),
        PeerSignalStateChange::All(peers, sig) => a_service_names_its_peers(v, peers, sig),
    }
    assert(w.peers.contains_key(other) || !w.peers.contains_key(other));
}

/// An announcement is taken at its word: a peer that came is at the service, one
/// that left is not, and of all peers those that are named are there and no
/// others.
pub proof fn an_announcement_is_taken_at_its_word(
    table: &mut SigPeers,
    change: PeerSignalStateChange,
    peer: Seq<u8>,
)
    requires
        old(table)@.consistent(),
        call_ensures(handle_peer_signal_state_changes, (change, table), ()),
    ensures
        change matches PeerSignalStateChange::Connect(p, sig) ==> p@ == peer ==> final(table)@.peers.contains_key(peer) && final(table)@.peers[peer] == sig@ && final(table)@.sigs.contains_key(sig@) && final(table)@.sigs[sig@].contains(peer),
        change matches PeerSignalStateChange::DisConnect(p, sig) ==> p@ == peer ==> !(final(table)@.peers.contains_key(peer) && final(table)@.peers[peer] == sig@) && !(final(table)@.sigs.contains_key(sig@) && final(table)@.sigs[sig@].contains(peer)),
        change matches PeerSignalStateChange::All(peers, sig) ==> {
            let named = exists|i: int| 0 <= i < peers@.len() && (#[trigger] peers@[i])@ == peer;
            &&& named <==> final(table)@.peers.contains_key(peer) && final(table)@.peers[peer]
                == sig@
            &&& named <==> final(table)@.sigs.contains_key(sig@) && final(table)@.sigs[sig@].contains(peer)
        },
        final(table)@.consistent(),
{
    let v = old(table)@;
    let w = v.changed(change);
    changes_keep_consistency(v, change);
    lemma_consistent(v);
    lemma_consistent(w);
    match change {
        PeerSignalStateChange::Connect(p, sig) => {
            a_peer_that_comes_moves_alone(v, p, sig);
            assert(agrees(w, peer, sig@));
            assert(w.peers.contains_key(p@));
        },
        PeerSignalStateChange::DisConnect(p, sig) => {
            a_peer_that_leaves_leaves_alone(v, p, sig);
            assert(agrees(w, peer, sig@));
            assert(w.peers.contains_key(peer) ==> w.peers[peer] == v.peers[peer]);
        },
        PeerSignalStateChange::All(peers, sig) => {
            a_service_names_its_peers(v, peers, sig);
            assert(agrees(w, peer, sig@));
            assert(w.peers.contains_key(peer) || !w.peers.contains_key(peer));
        },
    }
}

} // verus!

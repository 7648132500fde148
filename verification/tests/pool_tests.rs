//! A pool hands out what it has room for, and the node's own pool of peers.

use harmion_connect::keys::SigningKey;
use harmion_connect::message::{Message, MessageT, PeerIndex};
use harmion_connect::webrtc::pool::{
    answer, bridge_step, offer_config, offer_step, peer_task_step, BridgeEvent, BridgeStep, Center,
    CenterEvent, CenterStep, OfferEvent, OfferStep, PeerPool, PeerTaskEvent, PeerTaskStep, PoolError,
    SignalTask, SignalTaskEvent, SignalTaskStep,
};
use harmion_connect::webrtc::signal::client::SignalCError;
use harmion_connect::webrtc::signal::{
    IceCandidate, SdpType, SessionDescription, SignalData, SignalInfo, SignalMessage,
};
use harmion_connect::webrtc::simple::{Config, PeerError};


#[derive(Debug, Clone, Copy, PartialEq, Eq)]
struct Dummy(u32);

#[derive(Debug)]
struct MiniPool {
    items: Vec<Dummy>,
    cap: usize,
}
impl MiniPool {
    fn with_capacity(cap: usize) -> Self { Self { items: Vec::new(), cap } }
    fn capacity(&self) -> usize { self.cap }
    fn len(&self) -> usize { self.items.len() }
    fn is_empty(&self) -> bool { self.items.is_empty() }
    fn acquire(&mut self, id: u32) -> Result<(), &'static str> {
        if self.items.len() >= self.cap { return Err("pool full"); }
        self.items.push(Dummy(id));
        Ok(())
    }
    fn release(&mut self, id: u32) -> bool {
        if let Some(i) = self.items.iter().position(|d| d.0 == id) {
            self.items.remove(i);
            true
        } else { false }
    }
}

#[test]
fn new_pool_is_empty_and_has_capacity() {
    let p = MiniPool::with_capacity(2);
    assert!(p.is_empty());
    assert_eq!(p.capacity(), 2);
}

#[test]
fn acquire_within_capacity_succeeds_and_increments_length() {
    let mut p = MiniPool::with_capacity(2);
    assert!(p.acquire(1).is_ok());
    assert!(p.acquire(2).is_ok());
    assert_eq!(p.len(), 2);
}

#[test]
fn acquire_beyond_capacity_fails_with_specific_error() {
    let mut p = MiniPool::with_capacity(1);
    p.acquire(9).unwrap();
    assert_eq!(p.acquire(10).unwrap_err(), "pool full");
}

#[test]
fn release_removes_existing_and_reports_missing() {
    let mut p = MiniPool::with_capacity(2);
    p.acquire(7).unwrap();
    assert!(p.release(7));
    assert!(!p.release(8));
    assert!(p.is_empty());
}

fn key(n: u8) -> SigningKey {
    SigningKey::from_bytes(&[n; 32])
}

fn peer(n: u8) -> PeerIndex {
    PeerIndex::from(&key(n))
}

fn sig(n: u8) -> SignalInfo {
    SignalInfo { addr: ("host".to_string(), 1), id: peer(n) }
}

fn sdp(text: &str) -> SessionDescription {
    SessionDescription { sdp_type: SdpType::Offer, sdp: text.to_string() }
}

fn ice(text: &str) -> IceCandidate {
    IceCandidate { candidate: text.to_string(), ..IceCandidate::default() }
}

fn note(origin: u8, to: u8, data: SignalData) -> SignalMessage {
    SignalMessage { origin: peer(origin), to: peer(to), data }
}

fn heard(message: SignalMessage) -> SignalTaskEvent {
    let m = Message::sign_at(vec![], &key(1), 0, [0; 12]);
    let typed = MessageT::try_from(m, Ok::<(SignalMessage, usize), ()>((message, 0))).unwrap();
    SignalTaskEvent::Incoming(Ok(Some(typed)))
}

#[test]
fn the_signalling_client_runs_once_at_a_time() {
    let mut pool = PeerPool::new(peer(1), key(1));
    assert!(matches!(pool.disconnect_from_sig(), Err(PoolError::SignalNotConnected)));
    assert!(matches!(pool.add_signal(sig(9)), Ok(true)));
    assert!(matches!(pool.add_signal(sig(9)), Ok(false)));

    let client = pool.connect_to_sig(7).unwrap();
    assert_eq!(client.signal_count(), 1);
    assert!(client.origin() == peer(1));
    assert!(matches!(pool.connect_to_sig(8), Err(PoolError::SignalConnected)));
    assert!(matches!(pool.add_signal(sig(8)), Err(PoolError::SignalConnected)));
    assert!(matches!(pool.disconnect_from_sig(), Ok(7)));

    pool.signal_stopped(client);
    assert!(matches!(pool.disconnect_from_sig(), Err(PoolError::SignalNotConnected)));
    assert_eq!(pool.connect_to_sig(9).unwrap().signal_count(), 1);
}

#[test]
fn the_center_starts_once() {
    let mut pool = PeerPool::new(peer(1), key(1));
    assert!(matches!(pool.start(3), Ok(true)));
    assert!(matches!(pool.start(4), Ok(false)));
}

#[test]
fn peers_are_found_once_connected() {
    let mut pool = PeerPool::new(peer(1), key(1));
    assert_eq!(pool.peer(&peer(2)), None);
    pool.peer_connected(peer(2), 5);
    assert_eq!(pool.peer(&peer(2)), Some(5));
    pool.peer_connected(peer(2), 6);
    assert_eq!(pool.peer(&peer(2)), Some(6));
    assert_eq!(pool.peer(&peer(3)), None);
}

#[test]
fn strangers_can_only_make_offers() {
    let mut task = SignalTask::new();
    assert!(matches!(
        task.step(heard(note(2, 1, SignalData::Sdp(Box::new(sdp("v=0")))))),
        SignalTaskStep::Offer(m) if m.origin == peer(2)
    ));
    assert!(matches!(
        task.step(heard(note(2, 1, SignalData::Ice(ice("c"))))),
        SignalTaskStep::Wait
    ));
    assert!(matches!(task.step(SignalTaskEvent::Peer(Some((peer(2), 4)))), SignalTaskStep::Wait));
    assert!(matches!(
        task.step(heard(note(2, 1, SignalData::Sdp(Box::new(sdp("v=0")))))),
        SignalTaskStep::Forward(4, _)
    ));
    assert!(matches!(
        task.step(heard(note(3, 1, SignalData::Sdp(Box::new(sdp("v=0")))))),
        SignalTaskStep::Offer(_)
    ));
}

#[test]
fn the_signal_task_ends_with_its_channels() {
    let mut task = SignalTask::new();
    assert!(matches!(task.step(SignalTaskEvent::Peer(None)), SignalTaskStep::Stop));
    assert!(matches!(task.step(SignalTaskEvent::Outgoing(None)), SignalTaskStep::Stop));
    assert!(matches!(task.step(SignalTaskEvent::Incoming(Ok(None))), SignalTaskStep::Stop));
    assert!(matches!(task.step(SignalTaskEvent::Cancelled), SignalTaskStep::Stop));
    assert!(matches!(
        task.step(SignalTaskEvent::Incoming(Err(SignalCError::NotConnected))),
        SignalTaskStep::Fail(SignalCError::NotConnected)
    ));
    let m = note(1, 2, SignalData::Ice(ice("c")));
    assert!(matches!(
        task.step(SignalTaskEvent::Outgoing(Some(m.clone()))),
        SignalTaskStep::Send(sent) if sent == m
    ));
}

#[test]
fn an_answer_goes_back_to_the_offerer() {
    let offer = note(2, 1, SignalData::Sdp(Box::new(sdp("offer"))));
    match offer_step(OfferEvent::Offer(Some(offer))) {
        OfferStep::Answer { offer, to, origin } => {
            assert_eq!(offer.sdp, "offer");
            let reply = answer(origin, to, sdp("answer"));
            assert!(reply == note(1, 2, SignalData::Sdp(Box::new(sdp("answer")))));
        }
        _ => panic!("an offer is to be answered"),
    }
    assert!(matches!(
        offer_step(OfferEvent::Offer(Some(note(2, 1, SignalData::Ice(ice("c")))))),
        OfferStep::Wait
    ));
    assert!(matches!(offer_step(OfferEvent::Offer(None)), OfferStep::Stop));
    assert!(matches!(offer_step(OfferEvent::Cancelled), OfferStep::Stop));
}

#[test]
fn candidates_cross_the_bridge_both_ways() {
    assert!(matches!(
        bridge_step(peer(1), peer(2), BridgeEvent::FromSignal(Some(note(2, 1, SignalData::Ice(ice("c")))))),
        BridgeStep::ToPeer(c) if c == ice("c")
    ));
    assert!(matches!(
        bridge_step(
            peer(1),
            peer(2),
            BridgeEvent::FromSignal(Some(note(2, 1, SignalData::Sdp(Box::new(sdp("s"))))))
        ),
        BridgeStep::Wait
    ));
    assert!(matches!(
        bridge_step(peer(1), peer(2), BridgeEvent::FromPeer(Some(ice("d")))),
        BridgeStep::ToSignal(m) if m == note(1, 2, SignalData::Ice(ice("d")))
    ));
    assert!(matches!(bridge_step(peer(1), peer(2), BridgeEvent::FromPeer(None)), BridgeStep::Stop));
    assert!(matches!(bridge_step(peer(1), peer(2), BridgeEvent::FromSignal(None)), BridgeStep::Stop));
    assert!(matches!(bridge_step(peer(1), peer(2), BridgeEvent::Cancelled), BridgeStep::Stop));
}

#[test]
fn an_answering_peer_trickles() {
    let config = offer_config(3);
    assert_eq!(config.signal, Some(3));
    assert_eq!(config.stun, Config::default().stun);
}

#[test]
fn a_peers_task_reports_sends_and_fails() {
    let m = Message::sign_at(vec![1], &key(1), 0, [0; 12]);
    assert!(matches!(
        peer_task_step(peer(2), PeerTaskEvent::Received(Ok(Some(m.clone())))),
        PeerTaskStep::Report(Some((id, got))) if id == peer(2) && got == m
    ));
    assert!(matches!(
        peer_task_step(peer(2), PeerTaskEvent::Received(Ok(None))),
        PeerTaskStep::Report(None)
    ));
    assert!(matches!(
        peer_task_step(peer(2), PeerTaskEvent::Received(Err(PeerError::Other))),
        PeerTaskStep::Fail(PoolError::Peer(PeerError::Other))
    ));
    assert!(matches!(
        peer_task_step(peer(2), PeerTaskEvent::ToSend(Some(m))),
        PeerTaskStep::Send(_)
    ));
    assert!(matches!(peer_task_step(peer(2), PeerTaskEvent::ToSend(None)), PeerTaskStep::Stop));
    assert!(matches!(peer_task_step(peer(2), PeerTaskEvent::Sent(Ok(()))), PeerTaskStep::Wait));
    assert!(matches!(
        peer_task_step(peer(2), PeerTaskEvent::Sent(Err(PeerError::PeerNotConnected))),
        PeerTaskStep::Fail(PoolError::Peer(PeerError::PeerNotConnected))
    ));
}

#[test]
fn the_center_sends_to_connected_peers_only() {
    let mut center = Center::new();
    let m = Message::sign_at(vec![1], &key(1), 0, [0; 12]);
    assert!(matches!(
        center.step(CenterEvent::ToSend(Some((peer(2), m.clone())))),
        CenterStep::NotConnected(id) if id == peer(2)
    ));
    assert!(matches!(
        center.step(CenterEvent::Peer(Some((peer(2), 5)))),
        CenterStep::Spawn(id, 5) if id == peer(2)
    ));
    assert!(matches!(center.step(CenterEvent::Channel(Some((peer(2), 6)))), CenterStep::Wait));
    assert!(matches!(center.step(CenterEvent::Channel(Some((peer(2), 7)))), CenterStep::Wait));
    assert!(matches!(
        center.step(CenterEvent::ToSend(Some((peer(2), m.clone())))),
        CenterStep::Send(5, got) if got == m
    ));
    center.step(CenterEvent::Peer(Some((peer(2), 8))));
    assert!(matches!(
        center.step(CenterEvent::ToSend(Some((peer(2), m)))),
        CenterStep::Send(8, _)
    ));
    assert!(matches!(center.step(CenterEvent::Peer(None)), CenterStep::Stop));
    assert!(matches!(center.step(CenterEvent::Channel(None)), CenterStep::Stop));
    assert!(matches!(center.step(CenterEvent::ToSend(None)), CenterStep::Stop));
}

#[test]
fn pool_errors_in_words() {
    assert_eq!(
        PoolError::Signal(SignalCError::Untrust).text(),
        "failed to connect to Signalling service: invalid message signature"
    );
    assert_eq!(
        PoolError::Peer(PeerError::Other).text(),
        "failed to keep or create connection via WebRTC: Something were wrong"
    );
    assert_eq!(
        PoolError::SignalConnected.text(),
        "cannot connect to Signalling service or edit SignalClient when connected to the service"
    );
    assert_eq!(
        PoolError::SignalNotConnected.text(),
        "cannot disconnect when client is not connected to Signalling service"
    );
}

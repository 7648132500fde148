//! Signalling: what is told, who is trusted, and where messages go.

use harmion_connect::keys::SigningKey;
use harmion_connect::message::{DecodeError, FromError, Message, PeerIndex};
use harmion_connect::text::format_duration_human;
use harmion_connect::webrtc::conns::{PeerConns, SignalConns};
use harmion_connect::webrtc::signal::client::{
    AwaitingHandshake, ClientStep, ConnectStart, Dialing, GreetingOutcome, ProbeStep, SignalCError,
    SignalClient, PROBES_AT_ONCE, PROBE_TIMEOUT_SECS,
};
use harmion_connect::webrtc::signal::roster::{
    handle_peer_signal_state_changes, PeerSignalStateChange, SigPeers,
};
use harmion_connect::webrtc::signal::server::{
    outbound, AcceptedClient, ClientLink, InitSignalClientToSignal, InitSignalToSignalClient,
    Outbound, Route, ServerInfo, ServerStep, Signal, SignalError, SignalLink, SignalRefused,
    SignalToSignal,
};
use harmion_connect::webrtc::signal::wire::{
    open, sender_step, Frame, LinkEvent, SenderAction, SenderEvent,
};
use harmion_connect::webrtc::signal::{
    IceCandidate, InitClientToSig, InitSigToClient, SdpType, SessionDescription, SignalData,
    SignalInfo, SignalMessage,
};

fn has_required_keys(msg: &str, required: &[&str]) -> bool {
    required.iter().all(|k| msg.contains(k))
}

#[test]
fn offer_signal_contains_type_and_sdp() {
    let msg = r#"{"type":"offer","sdp":"v=0\r\n..."}"#;
    assert!(has_required_keys(msg, &["type","sdp"]));
    assert!(msg.contains("\"offer\""));
}

#[test]
fn answer_signal_contains_type_and_sdp() {
    let msg = r#"{"type":"answer","sdp":"v=0\r\n..."}"#;
    assert!(has_required_keys(msg, &["type","sdp"]));
    assert!(msg.contains("\"answer\""));
}

#[test]
fn ice_candidate_signal_has_candidate_field() {
    let msg = r#"{"type":"candidate","candidate":"candidate:1 1 UDP 2122252543 203.0.113.1 3478 typ host"}"#;
    assert!(has_required_keys(msg, &["type","candidate"]));
}

#[test]
fn invalid_signal_missing_type_is_detected_by_structure_checks() {
    let msg = r#"{"sdp":"v=0"}"#;
    assert!(!has_required_keys(msg, &["type"]));
}

#[test]
fn empty_payload_is_invalid() {
    let msg = "";
    assert!(msg.is_empty());
}

fn key(n: u8) -> SigningKey {
    SigningKey::from_bytes(&[n; 32])
}

fn peer(n: u8) -> PeerIndex {
    PeerIndex::from(&key(n))
}

fn sig(host: &str, port: u16, id: u8) -> SignalInfo {
    SignalInfo { addr: (host.to_string(), port), id: peer(id) }
}

fn ice(text: &str) -> SignalData {
    SignalData::Ice(IceCandidate { candidate: text.to_string(), ..IceCandidate::default() })
}

fn sdp(sdp_type: SdpType, text: &str) -> SignalData {
    SignalData::Sdp(Box::new(SessionDescription { sdp_type, sdp: text.to_string() }))
}

fn note(origin: u8, to: u8, text: &str) -> SignalMessage {
    SignalMessage { origin: peer(origin), to: peer(to), data: ice(text) }
}

/// A frame with this content, signed by the key `n`.
fn frame<T>(n: u8, content: T) -> Frame<T> {
    Frame::Data(Ok((Message::sign_at(vec![], &key(n), 0, [0; 12]), Ok((content, 0)))))
}

/// The same, but changed after it was signed.
fn forged<T>(n: u8, content: T) -> Frame<T> {
    Frame::Data(Ok((
        Message { timestamp: 1, ..Message::sign_at(vec![], &key(n), 0, [0; 12]) },
        Ok((content, 0)),
    )))
}

fn garbled<T>() -> Frame<T> {
    Frame::Data(Err("garbled".to_string()))
}

fn garbled_content<T>(n: u8) -> Frame<T> {
    Frame::Data(Ok((Message::sign_at(vec![], &key(n), 0, [0; 12]), Err("content".to_string()))))
}

#[test]
fn signal_info_to_http_ws_should_format_correctly() {
    let s = sig("127.0.0.1", 8080, 1);
    assert_eq!(s.to_http(), "http://127.0.0.1:8080");
    assert_eq!(s.to_ws(), "ws://127.0.0.1:8080");

    let s2 = sig("example.com", 65535, 42);
    assert_eq!(s2.to_http(), "http://example.com:65535");
    assert_eq!(s2.to_ws(), "ws://example.com:65535");
}

#[test]
fn connect_adds_peer_and_signal_mappings() {
    let mut sig_peers = SigPeers::new();
    let s = sig("host", 1000, 99);

    handle_peer_signal_state_changes(PeerSignalStateChange::Connect(peer(7), s.clone()), &mut sig_peers);

    assert_eq!(sig_peers.signal_of(&peer(7)), Some(s.clone()));
    assert!(sig_peers.knows(&s), "signal entry");
    assert!(sig_peers.has_peer(&s, &peer(7)));
}

#[test]
fn connect_switching_signal_moves_peer_and_removes_empty_signal() {
    let s_old = sig("old", 1, 1);
    let s_new = sig("new", 2, 1);

    let mut sig_peers = SigPeers::new();
    handle_peer_signal_state_changes(PeerSignalStateChange::Connect(peer(1), s_old.clone()), &mut sig_peers);

    handle_peer_signal_state_changes(PeerSignalStateChange::Connect(peer(1), s_new.clone()), &mut sig_peers);

    assert_eq!(sig_peers.signal_of(&peer(1)), Some(s_new.clone()));
    assert!(!sig_peers.knows(&s_old));
    assert!(sig_peers.knows(&s_new), "new signal entry");
    assert!(sig_peers.has_peer(&s_new, &peer(1)));
}

#[test]
fn disconnect_removes_peer_and_cleans_signal_when_empty() {
    let s = sig("h", 2, 2);
    let mut sig_peers = SigPeers::new();
    handle_peer_signal_state_changes(
        PeerSignalStateChange::All(vec![peer(10), peer(11)], s.clone()),
        &mut sig_peers,
    );

    handle_peer_signal_state_changes(PeerSignalStateChange::DisConnect(peer(10), s.clone()), &mut sig_peers);

    assert!(sig_peers.signal_of(&peer(10)).is_none());
    assert_eq!(sig_peers.signal_of(&peer(11)), Some(s.clone()));
    assert!(!sig_peers.has_peer(&s, &peer(10)) && sig_peers.has_peer(&s, &peer(11)));

    handle_peer_signal_state_changes(PeerSignalStateChange::DisConnect(peer(11), s.clone()), &mut sig_peers);

    assert!(sig_peers.signal_of(&peer(11)).is_none());
    assert!(!sig_peers.knows(&s));
}

#[test]
fn disconnect_with_wrong_signal_does_not_remove_peer_mapping() {
    let s_real = sig("real", 3, 3);
    let s_wrong = sig("wrong", 4, 3);

    let mut sig_peers = SigPeers::new();
    handle_peer_signal_state_changes(PeerSignalStateChange::Connect(peer(20), s_real.clone()), &mut sig_peers);

    handle_peer_signal_state_changes(
        PeerSignalStateChange::DisConnect(peer(20), s_wrong.clone()),
        &mut sig_peers,
    );

    assert_eq!(sig_peers.signal_of(&peer(20)), Some(s_real.clone()));
    assert!(sig_peers.has_peer(&s_real, &peer(20)));
    assert!(!sig_peers.knows(&s_wrong));
}

#[test]
fn all_replaces_signal_set_connects_and_disconnects_accordingly() {
    let s_a = sig("A", 10, 1);
    let s_b = sig("B", 20, 1);

    let mut sig_peers = SigPeers::new();
    handle_peer_signal_state_changes(
        PeerSignalStateChange::All(vec![peer(1), peer(2)], s_a.clone()),
        &mut sig_peers,
    );
    handle_peer_signal_state_changes(PeerSignalStateChange::All(vec![peer(3)], s_b.clone()), &mut sig_peers);

    handle_peer_signal_state_changes(
        PeerSignalStateChange::All(vec![peer(2), peer(3), peer(4)], s_a.clone()),
        &mut sig_peers,
    );

    assert_eq!(sig_peers.peer_count(&s_a), 3);
    assert!(
        sig_peers.has_peer(&s_a, &peer(2))
            && sig_peers.has_peer(&s_a, &peer(3))
            && sig_peers.has_peer(&s_a, &peer(4))
    );
    assert!(!sig_peers.has_peer(&s_a, &peer(1)));
    assert_eq!(sig_peers.signal_of(&peer(2)), Some(s_a.clone()));
    assert_eq!(sig_peers.signal_of(&peer(3)), Some(s_a.clone()));
    assert_eq!(sig_peers.signal_of(&peer(4)), Some(s_a.clone()));
    assert!(sig_peers.signal_of(&peer(1)).is_none());
    assert!(!sig_peers.knows(&s_b));
}

#[test]
fn heartbeat_zero_and_millis_only_cases() {
    assert_eq!(format_duration_human(0, 0), "0s");

    let b2 = format_duration_human(0, 5);
    assert!(b2.ends_with("ms") && b2.contains('5'));
}

#[test]
fn heartbeat_composite_format_includes_all_components_when_nonzero() {
    let body = format_duration_human(1 * 3600 + 2 * 60 + 3, 45);
    assert!(body.contains('h'), "missing hours in {body}");
    assert!(body.contains('m'), "missing minutes in {body}");
    assert!(body.contains('s'), "missing seconds in {body}");
    assert!(body.contains("ms"), "missing millis in {body}");
    assert_eq!(body, "1h2m3s45ms");
}

#[test]
fn durations_leave_out_what_is_zero() {
    assert_eq!(format_duration_human(3600, 0), "1h");
    assert_eq!(format_duration_human(3605, 0), "1h5s");
    assert_eq!(format_duration_human(60, 7), "1m7ms");
    assert_eq!(format_duration_human(1, 200), "1s200ms");
    assert_eq!(format_duration_human(0, 999), "999ms");
    assert_eq!(format_duration_human(u64::MAX, 0), "5124095576030431h15s");
}

#[test]
fn descriptions_are_alike_by_their_text_candidates_by_all_fields() {
    assert!(sdp(SdpType::Offer, "x") == sdp(SdpType::Answer, "x"));
    assert!(sdp(SdpType::Offer, "x") != sdp(SdpType::Offer, "y"));
    assert!(ice("x") == ice("x"));
    assert!(ice("x") != ice("y"));
    assert!(ice("x") != sdp(SdpType::Offer, "x"));
    let full = IceCandidate {
        candidate: "c".to_string(),
        sdp_mid: Some("m".to_string()),
        sdp_mline_index: Some(1),
        username_fragment: Some("u".to_string()),
    };
    assert_eq!(full, full.clone());
    assert_ne!(full, IceCandidate { sdp_mid: None, ..full.clone() });
    assert_ne!(full, IceCandidate { sdp_mline_index: Some(2), ..full.clone() });
    assert_ne!(full, IceCandidate { username_fragment: Some("v".to_string()), ..full.clone() });
    assert!(sdp(SdpType::Offer, "x").is_sdp() && !sdp(SdpType::Offer, "x").is_ice());
    assert!(ice("x").is_ice() && !ice("x").is_sdp());
    assert!(note(1, 2, "x") == note(1, 2, "x").clone());
    assert!(note(1, 2, "x") != note(1, 3, "x"));
}

#[test]
fn connection_tables_find_what_was_entered_last() {
    let mut peers = PeerConns::new();
    assert_eq!(peers.insert(peer(1), 10), None);
    assert_eq!(peers.insert(peer(2), 20), None);
    assert_eq!(peers.insert(peer(1), 11), Some(10));
    assert_eq!(peers.get(&peer(1)), Some(11));
    let mut all = peers.peers();
    all.sort_by_key(|p| p.inner().to_bytes());
    let mut expected = vec![peer(1), peer(2)];
    expected.sort_by_key(|p| p.inner().to_bytes());
    assert_eq!(all, expected);
    assert_eq!(peers.remove(&peer(1)), Some(11));
    assert_eq!(peers.remove(&peer(1)), None);
    assert_eq!(peers.get(&peer(1)), None);
    assert_eq!(peers.peers(), vec![peer(2)]);

    let mut signals = SignalConns::new();
    assert_eq!(signals.insert(sig("h", 1, 1), 5), None);
    assert_eq!(signals.insert(sig("h", 2, 1), 6), None);
    assert_eq!(signals.insert(sig("h", 1, 1), 7), Some(5));
    assert_eq!(signals.get(&sig("h", 1, 1)), Some(7));
    assert_eq!(signals.get(&sig("h", 1, 2)), None);
    assert_eq!(signals.get(&sig("g", 1, 1)), None);
    assert_eq!(signals.remove(&sig("h", 2, 1)), Some(6));
    assert_eq!(signals.get(&sig("h", 2, 1)), None);
}

#[test]
fn announcements_can_be_copied_and_peers_counted() {
    let s = sig("s", 1, 1);
    let change = PeerSignalStateChange::All(vec![peer(3), peer(3), peer(4)], s.clone());
    let mut table = SigPeers::new();
    assert_eq!(table.peer_count(&s), 0);
    handle_peer_signal_state_changes(change.clone(), &mut table);
    assert_eq!(table.peer_count(&s), 2);
    handle_peer_signal_state_changes(change, &mut table);
    assert_eq!(table.peer_count(&s), 2);
    let gone = PeerSignalStateChange::DisConnect(peer(3), s.clone());
    handle_peer_signal_state_changes(gone.clone(), &mut table);
    assert_eq!(table.peer_count(&s), 1);
    let back = PeerSignalStateChange::Connect(peer(3), s.clone());
    handle_peer_signal_state_changes(back.clone(), &mut table);
    assert_eq!(table.peer_count(&s), 2);
}

#[test]
fn announcements_twice_say_no_more_than_once() {
    let s = sig("s", 1, 1);
    let t = sig("t", 1, 2);
    let mut table = SigPeers::new();
    for _ in 0..2 {
        handle_peer_signal_state_changes(
            PeerSignalStateChange::All(vec![peer(3), peer(3), peer(4)], s.clone()),
            &mut table,
        );
    }
    assert_eq!(table.known_signals(), vec![s.clone()]);
    for _ in 0..2 {
        handle_peer_signal_state_changes(PeerSignalStateChange::Connect(peer(3), t.clone()), &mut table);
    }
    assert!(!table.has_peer(&s, &peer(3)) && table.has_peer(&t, &peer(3)));
    for _ in 0..2 {
        handle_peer_signal_state_changes(PeerSignalStateChange::DisConnect(peer(3), t.clone()), &mut table);
    }
    assert_eq!(table.known_signals(), vec![s.clone()]);
    handle_peer_signal_state_changes(PeerSignalStateChange::All(vec![], t.clone()), &mut table);
    assert!(table.knows(&t), "a service that says that it has no peers is known");
}

#[test]
fn frames_open_or_say_why_not() {
    match frame(1, 5u8) {
        Frame::Data(data) => {
            let m = open(data).unwrap();
            assert_eq!(m.content, 5);
            assert!(m.verify_result);
            assert!(m.origin == peer(1));
        }
        _ => panic!("a data frame"),
    }
    match forged(1, 5u8) {
        Frame::Data(data) => assert!(!open(data).unwrap().verify_result),
        _ => panic!("a data frame"),
    }
    assert_eq!(
        open::<u8>(Err("garbled".to_string())).unwrap_err(),
        DecodeError::Decoder("garbled".to_string())
    );
    let m = Message::sign_at(vec![1, 2], &key(1), 0, [0; 12]);
    assert_eq!(open(Ok((m, Ok((1u8, 1))))).unwrap_err(), DecodeError::TrailingBytes);
    assert_eq!(DecodeError::<String>::TrailingBytes.text(), "trailing bytes");
}

#[test]
fn senders_pass_over_what_cannot_be_encoded_and_end_on_what_cannot_be_sent() {
    assert!(matches!(sender_step(SenderEvent::Item(3)), SenderAction::Send(3)));
    assert!(matches!(sender_step::<u8>(SenderEvent::Sent), SenderAction::Wait));
    assert!(matches!(sender_step::<u8>(SenderEvent::NotEncoded), SenderAction::Wait));
    assert!(matches!(sender_step::<u8>(SenderEvent::NotSent), SenderAction::Close));
    assert!(matches!(sender_step::<u8>(SenderEvent::Exhausted), SenderAction::Close));
    assert!(matches!(sender_step::<u8>(SenderEvent::Cancelled), SenderAction::Close));

    assert!(matches!(
        outbound(Outbound::Message(Some(note(1, 2, "x")))),
        SenderEvent::Item(SignalToSignal::Signal(m)) if *m == note(1, 2, "x")
    ));
    assert!(matches!(
        outbound(Outbound::Change(Some(PeerSignalStateChange::All(vec![], sig("h", 1, 1))))),
        SenderEvent::Item(SignalToSignal::State(PeerSignalStateChange::All(_, _)))
    ));
    assert!(matches!(outbound(Outbound::Message(None)), SenderEvent::Exhausted));
    assert!(matches!(outbound(Outbound::Change(None)), SenderEvent::Exhausted));
    assert!(matches!(outbound(Outbound::Cancelled), SenderEvent::Cancelled));
}

fn client(n: u8) -> SignalClient {
    SignalClient::new(peer(n), key(n))
}

fn dial(c: &mut SignalClient, to: SignalInfo) -> Dialing {
    match c.connect(Some(to)) {
        ConnectStart::Dial(dialing) => dialing,
        ConnectStart::Probe(_, _) => panic!("the given service is dialed"),
    }
}

/// Asks the services that the client knows; only this one is alive.
fn probe(c: &mut SignalClient, alive: SignalInfo) -> Dialing {
    match c.connect(None) {
        ConnectStart::Probe(probes, probing) => {
            assert!(probes.iter().any(|p| p.sig == alive));
            match probing.answered(Some(Some(alive))) {
                Ok(ProbeStep::Dial(dialing)) => dialing,
                _ => panic!("the living service is dialed"),
            }
        }
        ConnectStart::Dial(_) => panic!("without a service given, all are asked"),
    }
}

/// Greets the service that is dialed.
fn greet(c: &SignalClient, dialing: Dialing) -> (AwaitingHandshake, InitClientToSig) {
    let (greeting, init) = dialing.dialed(c, Ok(())).unwrap();
    (greeting.done(GreetingOutcome::Sent).unwrap(), init)
}

#[test]
fn a_client_probes_what_it_knows_and_dials_the_first_alive() {
    let mut c = client(1);
    assert!(c.insert_signal(sig("a", 1, 5)));
    assert!(c.insert_signal(sig("b", 2, 6)));
    assert!(!c.insert_signal(sig("b", 2, 6)));
    assert_eq!(c.signal_count(), 2);
    let probing = match c.connect(None) {
        ConnectStart::Probe(probes, probing) => {
            let mut urls: Vec<String> = probes.iter().map(|p| p.url.clone()).collect();
            urls.sort();
            assert_eq!(urls, vec!["http://a:1/heartbeat", "http://b:2/heartbeat"]);
            for p in probes {
                assert_eq!(p.url, p.sig.to_http() + "/heartbeat");
            }
            probing
        }
        ConnectStart::Dial(_) => panic!("without a service given, all are asked"),
    };
    let probing = match probing.answered(Some(None)) {
        Ok(ProbeStep::Next(probing)) => probing,
        _ => panic!("the next answer is waited for"),
    };
    assert!(matches!(
        probing.answered(Some(Some(sig("b", 2, 6)))),
        Ok(ProbeStep::Dial(dialing)) if dialing.url() == "ws://b:2/client"
    ));
    assert_eq!(PROBE_TIMEOUT_SECS, 5);
    assert_eq!(PROBES_AT_ONCE, 10);
}

#[test]
fn a_client_without_a_living_service_does_not_connect() {
    let mut c = client(1);
    match c.connect(None) {
        ConnectStart::Probe(probes, probing) => {
            assert!(probes.is_empty());
            assert!(matches!(probing.answered(None), Err(SignalCError::NoSignalAvailable)));
        }
        ConnectStart::Dial(_) => panic!("no service is known"),
    }
    match c.connect(None) {
        ConnectStart::Probe(_, probing) => {
            let e = probing.cannot_ask("x".to_string());
            assert!(matches!(e, SignalCError::Request(e) if e == "x"));
        }
        ConnectStart::Dial(_) => panic!("no service is known"),
    }
}

#[test]
fn a_client_dials_and_greets_the_given_service() {
    let mut c = client(1);
    c.insert_signal(sig("a", 1, 5));
    let dialing = dial(&mut c, sig("c", 3, 7));
    assert_eq!(c.signal_count(), 2);
    assert_eq!(dialing.url(), "ws://c:3/client");
    assert!(matches!(
        dialing.dialed(&c, Err("x".to_string())),
        Err(SignalCError::Ws(e)) if e == "x"
    ));

    let (greeting, init) = dial(&mut c, sig("c", 3, 7)).dialed(&c, Ok(())).unwrap();
    assert_eq!(c.signal_count(), 2);
    assert_eq!(init.known_signals.len(), 2);
    assert!(init.known_signals.contains(&sig("a", 1, 5)));
    assert!(init.known_signals.contains(&sig("c", 3, 7)));
    assert!(matches!(
        greeting.done(GreetingOutcome::NotSent("x".to_string())),
        Err(SignalCError::Ws(e)) if e == "x"
    ));
    let (greeting, _) = dial(&mut c, sig("c", 3, 7)).dialed(&c, Ok(())).unwrap();
    assert!(matches!(
        greeting.done(GreetingOutcome::NotEncoded("x".to_string())),
        Err(SignalCError::Convertfailed(e)) if e == "x"
    ));
}

#[test]
fn a_client_trusts_only_the_service_that_it_dialed() {
    let known = || InitSigToClient { known_signals: vec![sig("x", 9, 9), sig("a", 1, 5)] };
    let mut c = client(1);
    c.insert_signal(sig("a", 1, 5));
    let attempt = |c: &mut SignalClient, frame| {
        let dialing = dial(c, sig("a", 1, 5));
        let (awaiting, _) = greet(c, dialing);
        awaiting.handshake(c, frame, 3)
    };
    assert!(matches!(attempt(&mut c, Frame::Ended), Err(SignalCError::NoHandshake)));
    assert!(matches!(attempt(&mut c, Frame::Close), Err(SignalCError::NoHandshake)));
    assert!(matches!(
        attempt(&mut c, garbled()),
        Err(SignalCError::InvailedHandshake(DecodeError::Decoder(e))) if e == "garbled"
    ));
    assert!(matches!(
        attempt(&mut c, garbled_content(5)),
        Err(SignalCError::InvailedHandshake(DecodeError::Decoder(e))) if e == "content"
    ));
    assert!(matches!(attempt(&mut c, forged(5, known())), Err(SignalCError::Untrust)));
    assert!(matches!(attempt(&mut c, frame(6, known())), Err(SignalCError::Untrust)));
    assert_eq!(c.signal_count(), 1);
    assert!(c.connected_to().is_none());
    assert!(matches!(c.recv(), Err(SignalCError::NotConnected)));
    assert!(matches!(c.send(note(1, 2, "x")), Err(SignalCError::NotConnected)));

    assert!(attempt(&mut c, frame(5, known())).is_ok());
    assert_eq!(c.signal_count(), 2);
    assert_eq!(c.known_signals().len(), 2);
    assert_eq!(c.connected_to(), Some(sig("a", 1, 5)));
    assert!(matches!(c.recv(), Ok(3)));
    assert!(matches!(c.send(note(1, 2, "x")), Ok((3, m)) if m == note(1, 2, "x")));

    assert_eq!(c.disconnect(), Some(3));
    assert_eq!(c.disconnect(), None);
    assert!(c.connected_to().is_none());
    assert_eq!(c.signal_count(), 2);
}

#[test]
fn a_connected_client_hands_on_what_decodes() {
    assert!(matches!(SignalClient::incoming(LinkEvent::Cancelled), ClientStep::Stop));
    assert!(matches!(SignalClient::incoming(LinkEvent::Frame(Frame::Ended)), ClientStep::Stop));
    assert!(matches!(SignalClient::incoming(LinkEvent::Frame(Frame::Close)), ClientStep::Stop));
    assert!(matches!(SignalClient::incoming(LinkEvent::Frame(garbled())), ClientStep::Skip));
    assert!(matches!(
        SignalClient::incoming(LinkEvent::Frame(forged(2, note(2, 1, "x")))),
        ClientStep::Forward(m) if !m.verify_result && m.content == note(2, 1, "x")
    ));
    assert!(matches!(SignalClient::received(None), Err(SignalCError::NotConnected)));
    assert!(SignalClient::sent(Ok(())).is_ok());
    assert!(matches!(
        SignalClient::sent(Err(note(1, 2, "x"))),
        Err(SignalCError::Send(m)) if *m == note(1, 2, "x")
    ));
}

#[test]
fn clients_and_services_sign_with_their_own_keys() {
    let m = client(1).sign(Ok::<Vec<u8>, ()>(vec![1])).unwrap();
    assert!(m.verify());
    assert!(m.origin == peer(1));
    let m = Signal::new(0, peer(2), key(2)).sign(Ok::<Vec<u8>, ()>(vec![1])).unwrap();
    assert!(m.verify());
    assert!(m.origin == peer(2));
    assert!(matches!(client(1).sign(Err("x")), Err(FromError::Encode("x"))));
}

#[test]
fn signalling_errors_in_words() {
    let x = || "x".to_string();
    assert_eq!(SignalCError::Request(x()).text(), "failed to send http request: x");
    assert_eq!(SignalCError::NoSignalAvailable.text(), "Signalling service is unavailable");
    assert_eq!(SignalCError::Ws(x()).text(), "failed to connect via ws: x");
    assert_eq!(
        SignalCError::InvailedHandshake(DecodeError::Decoder(x())).text(),
        "The first message is not the handshake: x"
    );
    assert_eq!(
        SignalCError::Convertfailed(x()).text(),
        "failed to convert SignalMessage to MessagePack: x"
    );
    assert_eq!(SignalCError::NoHandshake.text(), "No handshake or websocket error");
    assert_eq!(SignalCError::Untrust.text(), "invalid message signature");
    assert_eq!(SignalCError::NotConnected.text(), "Not connected to a Signalling service");
    assert_eq!(
        SignalCError::Send(Box::new(note(1, 2, "x"))).text(),
        "fialed to send message: channel closed"
    );
    assert_eq!(SignalError::ServerRunning.text(), "the Signalling Server is already running");
    assert_eq!(SignalError::Io(x()).text(), "io error: x");
    assert_eq!(SignalError::Ws(x()).text(), "failed to connect via ws: x");
}

#[test]
fn a_service_runs_once_at_a_time() {
    let mut s = Signal::new(0, peer(1), key(1));
    assert!(s.info().is_none());
    assert!(matches!(s.port_to_bind(), Ok(0)));
    assert!(matches!(s.run("h", Err("busy".to_string())), Err(SignalError::Io(e)) if e == "busy"));
    assert!(s.info().is_none());
    assert!(s.run("h", Ok(77)).is_ok());
    assert_eq!(s.info(), Some(sig("h", 77, 1)));
    assert!(matches!(s.port_to_bind(), Err(SignalError::ServerRunning)));
    assert!(matches!(s.run("g", Ok(78)), Err(SignalError::ServerRunning)));
    assert_eq!(s.info(), Some(sig("h", 77, 1)));
    assert!(s.shutdown());
    assert!(!s.shutdown());
    assert!(s.info().is_none());
    assert!(s.run("g", Ok(78)).is_ok());
    assert_eq!(Signal::dial_url(&sig("h", 77, 1)), "ws://h:77/signal");
}

fn greeting(known_signals: Vec<SignalInfo>) -> InitClientToSig {
    InitClientToSig { known_signals }
}

#[test]
fn a_service_accepts_authentic_clients_and_dials_what_is_news() {
    let mut s = ServerInfo::new(sig("own", 1, 1));
    s.apply(PeerSignalStateChange::Connect(peer(8), sig("known", 2, 2)));
    assert!(matches!(s.accept_client(Frame::Ended), Err(SignalCError::NoHandshake)));
    assert!(matches!(s.accept_client(Frame::Close), Err(SignalCError::NoHandshake)));
    assert!(matches!(s.accept_client(garbled()), Err(SignalCError::InvailedHandshake(_))));
    assert!(matches!(s.accept_client(garbled_content(3)), Err(SignalCError::InvailedHandshake(_))));
    assert!(matches!(
        s.accept_client(forged(3, greeting(vec![]))),
        Err(SignalCError::Untrust)
    ));

    let accepted = s
        .accept_client(frame(
            3,
            greeting(vec![
                sig("own", 1, 1),
                sig("new", 3, 3),
                sig("known", 2, 2),
                sig("own", 2, 1),
                sig("new", 3, 3),
            ]),
        ))
        .unwrap();
    assert!(accepted.link.origin() == peer(3));
    assert_eq!(accepted.dial, vec![sig("new", 3, 3), sig("own", 2, 1), sig("new", 3, 3)]);
    assert!(matches!(
        accepted.announce,
        PeerSignalStateChange::Connect(p, i) if p == peer(3) && i == sig("own", 1, 1)
    ));
    assert_eq!(s.greet_client().known_signals, vec![sig("known", 2, 2)]);
}

#[test]
fn a_service_accepts_the_services_that_prove_themselves() {
    let s = ServerInfo::new(sig("own", 1, 1));
    let from_dialed = || InitSignalToSignalClient {
        known_signals: vec![sig("own", 1, 1), sig("new", 3, 3)],
        all: PeerSignalStateChange::All(vec![peer(9)], sig("other", 2, 2)),
    };
    let other = || sig("other", 2, 2);
    assert!(matches!(
        s.accept_dialed(other(), Frame::Close),
        Err(SignalRefused::Handshake(SignalCError::NoHandshake))
    ));
    assert!(matches!(
        s.accept_dialed(other(), Frame::Ended),
        Err(SignalRefused::Handshake(SignalCError::NoHandshake))
    ));
    assert!(matches!(s.accept_dialed(other(), garbled()), Err(SignalRefused::Decode(_))));
    assert!(matches!(
        s.accept_dialed(other(), frame(4, from_dialed())),
        Err(SignalRefused::Handshake(SignalCError::Untrust))
    ));
    assert!(matches!(
        s.accept_dialed(other(), forged(2, from_dialed())),
        Err(SignalRefused::Handshake(SignalCError::Untrust))
    ));
    let accepted = s.accept_dialed(other(), frame(2, from_dialed())).unwrap();
    assert_eq!(accepted.link.origin(), other());
    assert_eq!(accepted.dial, vec![sig("new", 3, 3)]);
    assert!(matches!(accepted.state, PeerSignalStateChange::All(p, _) if p == vec![peer(9)]));

    let from_dialer = || InitSignalClientToSignal {
        known_signals: vec![],
        all: PeerSignalStateChange::All(vec![], sig("other", 2, 2)),
        me: sig("other", 2, 2),
    };
    assert!(matches!(
        s.accept_dialer(Frame::Ended),
        Err(SignalRefused::Handshake(SignalCError::NoHandshake))
    ));
    assert!(matches!(
        s.accept_dialer(Frame::Close),
        Err(SignalRefused::Handshake(SignalCError::NoHandshake))
    ));
    assert!(matches!(s.accept_dialer(garbled_content(2)), Err(SignalRefused::Decode(_))));
    assert!(matches!(
        s.accept_dialer(forged(2, from_dialer())),
        Err(SignalRefused::Handshake(SignalCError::Untrust))
    ));
    assert_eq!(s.accept_dialer(frame(2, from_dialer())).unwrap().link.origin(), other());
}

fn client_link(s: &ServerInfo, n: u8) -> ClientLink {
    s.accept_client(frame(n, greeting(vec![]))).unwrap().link
}

fn signal_link(s: &ServerInfo, n: u8, me: SignalInfo) -> SignalLink {
    let all = PeerSignalStateChange::All(vec![], me.clone());
    let hello = InitSignalClientToSignal { known_signals: vec![], all, me };
    s.accept_dialer(frame(n, hello)).unwrap().link
}

#[test]
fn a_service_routes_only_what_the_client_wrote_and_signed() {
    let mut s = ServerInfo::new(sig("own", 1, 1));
    let link_3 = client_link(&s, 3);
    let link_4 = client_link(&s, 4);
    s.client_connected(&link_3, 30);
    s.client_connected(&link_4, 40);
    let step = |s: &ServerInfo, f| s.from_client(&link_3, LinkEvent::Frame(f));
    assert!(matches!(
        step(&s, frame(3, note(3, 4, "x"))),
        ServerStep::Deliver(Route::Peer(40), m) if m == note(3, 4, "x")
    ));
    assert!(matches!(step(&s, frame(3, note(5, 4, "x"))), ServerStep::Skip));
    assert!(matches!(step(&s, frame(5, note(3, 4, "x"))), ServerStep::Skip));
    assert!(matches!(step(&s, forged(3, note(3, 4, "x"))), ServerStep::Skip));
    assert!(matches!(step(&s, frame(3, note(3, 6, "x"))), ServerStep::Skip));
    assert!(matches!(step(&s, garbled()), ServerStep::Skip));
    assert!(matches!(step(&s, Frame::Close), ServerStep::Stop));
    assert!(matches!(step(&s, Frame::Ended), ServerStep::Stop));
    assert!(matches!(s.from_client(&link_3, LinkEvent::Cancelled), ServerStep::Stop));

    assert!(matches!(
        s.client_gone(link_4),
        PeerSignalStateChange::DisConnect(p, i) if p == peer(4) && i == sig("own", 1, 1)
    ));
    assert!(matches!(step(&s, frame(3, note(3, 4, "x"))), ServerStep::Skip));

    s.apply(PeerSignalStateChange::Connect(peer(4), sig("other", 2, 2)));
    assert!(matches!(step(&s, frame(3, note(3, 4, "x"))), ServerStep::Skip));
    let other = signal_link(&s, 2, sig("other", 2, 2));
    s.signal_connected(&other, 22);
    assert!(matches!(
        step(&s, frame(3, note(3, 4, "x"))),
        ServerStep::Deliver(Route::Signal(22), _)
    ));
    s.signal_gone(other);
    assert!(matches!(step(&s, frame(3, note(3, 4, "x"))), ServerStep::Skip));
}

#[test]
fn a_service_hears_another_only_by_its_own_key() {
    let mut s = ServerInfo::new(sig("own", 1, 1));
    let link_4 = client_link(&s, 4);
    s.client_connected(&link_4, 40);
    let other = signal_link(&s, 2, sig("other", 2, 2));
    let step = |s: &ServerInfo, f| s.from_signal(&other, LinkEvent::Frame(f));
    let signal = |to| SignalToSignal::Signal(Box::new(note(3, to, "x")));
    let state = || {
        SignalToSignal::State(PeerSignalStateChange::Connect(peer(5), sig("other", 2, 2)))
    };
    assert!(matches!(
        step(&s, frame(2, signal(4))),
        ServerStep::Deliver(Route::Peer(40), m) if m == note(3, 4, "x")
    ));
    assert!(matches!(step(&s, frame(2, signal(5))), ServerStep::Skip));
    assert!(matches!(
        step(&s, frame(2, state())),
        ServerStep::Apply(PeerSignalStateChange::Connect(_, _))
    ));
    assert!(matches!(step(&s, frame(3, state())), ServerStep::Skip));
    assert!(matches!(step(&s, forged(2, state())), ServerStep::Skip));
    assert!(matches!(step(&s, garbled()), ServerStep::Skip));
    assert!(matches!(step(&s, Frame::Close), ServerStep::Stop));
    assert!(matches!(step(&s, Frame::Ended), ServerStep::Stop));
    assert!(matches!(s.from_signal(&other, LinkEvent::Cancelled), ServerStep::Stop));
}

/// Lets a client in: both sides greet, and both are taken at their word.
fn let_in(
    server: &mut ServerInfo,
    server_key: u8,
    dialing: Dialing,
    c: &mut SignalClient,
    n: u8,
) -> AcceptedClient {
    let (awaiting, init) = greet(c, dialing);
    let answer = server.greet_client();
    let accepted = server.accept_client(frame(n, init)).unwrap();
    awaiting.handshake(c, frame(server_key, answer), n as u64).unwrap();
    server.client_connected(&accepted.link, n as u64);
    accepted
}

#[test]
fn integrated_signal() {
    let mut sig_a = Signal::new(0, peer(101), key(101));
    let mut sig_b = Signal::new(0, peer(102), key(102));

    let mut a = sig_a.run("127.0.0.1", Ok(1001)).unwrap();
    let mut b = sig_b.run("127.0.0.1", Ok(1002)).unwrap();
    let info_a = sig_a.info().unwrap();
    let info_b = sig_b.info().unwrap();

    let mut peer_1 = client(1);
    let mut peer_2 = client(2);
    let mut peer_3 = client(3);

    peer_1.insert_signal(sig_a.info().unwrap());
    peer_1.insert_signal(sig_b.info().unwrap());

    peer_2.insert_signal(sig_a.info().unwrap());

    peer_3.insert_signal(sig_b.info().unwrap());

    assert_eq!(peer_1.signal_count(), 2);
    assert_eq!(peer_2.signal_count(), 1);
    assert_eq!(peer_3.signal_count(), 1);

    let dialing = dial(&mut peer_1, sig_a.info().unwrap());
    let first = let_in(&mut a, 101, dialing, &mut peer_1, 1);
    assert_eq!(first.dial, vec![info_b.clone()]);

    // The first service dials the second.
    let hello = a.greet_dialed();
    let answer = b.greet_dialer();
    let of_b = a.accept_dialed(info_b.clone(), frame(102, answer)).unwrap();
    let of_a = b.accept_dialer(frame(101, hello)).unwrap();
    assert_eq!(of_a.link.origin(), info_a);
    assert_eq!(of_b.link.origin(), info_b);
    a.apply(of_b.state);
    b.apply(of_a.state);
    a.signal_connected(&of_b.link, 12);
    b.signal_connected(&of_a.link, 21);

    let dialing = probe(&mut peer_2, info_a.clone());
    let_in(&mut a, 101, dialing, &mut peer_2, 2);
    let dialing = probe(&mut peer_3, info_b.clone());
    let third = let_in(&mut b, 102, dialing, &mut peer_3, 3);
    let news = SignalToSignal::State(third.announce);
    match a.from_signal(&of_b.link, LinkEvent::Frame(frame(102, news))) {
        ServerStep::Apply(change) => a.apply(change),
        _ => panic!("an announcement is taken over"),
    }
    let news = SignalToSignal::State(PeerSignalStateChange::Connect(peer(2), info_a.clone()));
    match b.from_signal(&of_a.link, LinkEvent::Frame(frame(101, news))) {
        ServerStep::Apply(change) => b.apply(change),
        _ => panic!("an announcement is taken over"),
    }

    assert_eq!(peer_1.signal_count(), 2);
    assert_eq!(peer_2.signal_count(), 2);
    assert_eq!(peer_3.signal_count(), 2);

    let data = SignalData::Ice(Default::default());

    let to_2 = SignalMessage { origin: peer_1.origin(), to: peer_2.origin(), data: data.clone() };
    let (_, sent) = peer_1.send(to_2.clone()).unwrap();
    let delivered = match a.from_client(&first.link, LinkEvent::Frame(frame(1, sent))) {
        ServerStep::Deliver(Route::Peer(2), m) => m,
        _ => panic!("the second peer is at the same service"),
    };
    match SignalClient::incoming(LinkEvent::Frame(frame(101, delivered))) {
        ClientStep::Forward(m) => {
            assert_eq!(SignalClient::received(Some(m)).unwrap().unwrap().content, to_2)
        }
        _ => panic!("the message is handed on"),
    }

    let to_3 = SignalMessage { origin: peer_1.origin(), to: peer_3.origin(), data: data.clone() };
    let (_, sent) = peer_1.send(to_3.clone()).unwrap();
    let crossing = match a.from_client(&first.link, LinkEvent::Frame(frame(1, sent))) {
        ServerStep::Deliver(Route::Signal(12), m) => SignalToSignal::Signal(Box::new(m)),
        _ => panic!("the third peer is at the other service"),
    };
    match b.from_signal(&of_a.link, LinkEvent::Frame(frame(101, crossing))) {
        ServerStep::Deliver(Route::Peer(3), m) => assert_eq!(m, to_3),
        _ => panic!("the third peer is here"),
    }

    let to_2 = SignalMessage { origin: peer_3.origin(), to: peer_2.origin(), data: data.clone() };
    let (_, sent) = peer_3.send(to_2.clone()).unwrap();
    let crossing = match b.from_client(&third.link, LinkEvent::Frame(frame(3, sent))) {
        ServerStep::Deliver(Route::Signal(21), m) => SignalToSignal::Signal(Box::new(m)),
        _ => panic!("the second peer is at the other service"),
    };
    match a.from_signal(&of_b.link, LinkEvent::Frame(frame(102, crossing))) {
        ServerStep::Deliver(Route::Peer(2), m) => assert_eq!(m, to_2),
        _ => panic!("the second peer is here"),
    }

    peer_1.disconnect();
    peer_2.disconnect();
    peer_3.disconnect();

    assert!(sig_a.shutdown());
    assert!(sig_b.shutdown());
}

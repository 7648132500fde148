//! One peer's connection to another, and its alias.

use harmion_connect::keys::SigningKey;
use harmion_connect::message::Message;
use harmion_connect::webrtc::signal::{IceCandidate, SdpType, SessionDescription};
use harmion_connect::webrtc::simple::{
    candidate_step, candidate_to_send, message_received, CandidateEvent, CandidateStep,
    ChannelState, Config, Connected, ConnectionState, Link, Negotiation, Peer, PeerAlias,
    PeerError, PeerEvent, PeerState, Role, Stage, WaitingAnswer, WaitingICE, DATA_CHANNEL,
    GOOGLE_STUN_LIST,
};
use rand::rngs::StdRng;
use rand::{RngCore, SeedableRng};

#[test]
fn google_stun_list_has_expected_length_and_contents() {
    assert_eq!(GOOGLE_STUN_LIST.len(), 10, "Expected 10 Google STUN entries");
    let expected = [
        "stun:stun.1.google.com:19302",
        "stun:stun.1.google.com:5349",
        "stun:stun1.1.google.com:3478",
        "stun:stun1.1.google.com:5349",
        "stun:stun2.1.google.com:19302",
        "stun:stun2.1.google.com:5349",
        "stun:stun3.1.google.com:3478",
        "stun:stun3.1.google.com:5349",
        "stun:stun4.1.google.com:19302",
        "stun:stun4.1.google.com:5349",
    ];
    for item in expected {
        assert!(GOOGLE_STUN_LIST.contains(&item), "Missing STUN entry: {item}");
    }
}

#[test]
fn config_default_populates_stun_from_google_list() {
    let cfg = Config::default();
    assert_eq!(cfg.stun.len(), GOOGLE_STUN_LIST.len());
    for (i, s) in GOOGLE_STUN_LIST.iter().enumerate() {
        assert_eq!(&cfg.stun[i], s);
    }
}

#[test]
fn peer_error_display_messages_are_meaningful() {
    let e = PeerError::PeerNotConnected;
    assert!(e.text().to_lowercase().contains("peer not connected"));

    let e = PeerError::DataChannelNotAvailable;
    assert!(e.text().to_lowercase().contains("data channel"));

    let e = PeerError::ConnectionFailed;
    assert!(e.text().to_lowercase().contains("failed"));

    let e = PeerError::Other;
    assert!(!e.text().is_empty());
}

#[test]
fn peer_alias_new_and_display_roundtrip() {
    let a = PeerAlias::new("alias-1234".to_string());
    assert_eq!(a.as_ref(), "alias-1234");
    assert_eq!(a.to_string(), "alias-1234");
}

#[test]
fn peer_alias_from_key_generates_expected_size() {
    let mut rng = StdRng::seed_from_u64(42);
    let mut sk_bytes = [0u8; ed25519_dalek::SECRET_KEY_LENGTH];
    rng.fill_bytes(&mut sk_bytes);
    let sk = SigningKey::from_bytes(&sk_bytes);
    let vk = sk.verifying_key();

    let alias = PeerAlias::from_key(vk);
    let s = alias.to_string();
    assert!(!s.is_empty());
    assert!(s.len() <= 8, "Alias should be at most 8 characters, got {}", s.len());
    bs58::decode(&s).into_vec().expect("alias must be valid base58 prefix");
}

#[test]
fn sdp_text_must_start_with_version_and_use_crlf() {
    let sdp = "v=0\r\no=- 0 0 IN IP4 127.0.0.1\r\ns=-\r\nt=0 0\r\na=group:BUNDLE 0\r\n";
    assert!(sdp.starts_with("v=0"), "SDP should start with version line");
    assert!(sdp.contains("\r\n"), "SDP lines must be CRLF terminated");
}

#[test]
fn ice_candidate_text_contains_required_tokens() {
    let cand = "candidate:842163049 1 udp 1677729535 192.168.1.2 54321 typ srflx raddr 0.0.0.0 rport 0";
    assert!(cand.starts_with("candidate:"), "ICE candidate should start with 'candidate:'");
    assert!(cand.contains(" typ "), "ICE candidate must include a type");
}

#[test]
fn saturating_math_prevents_overflow() {
    let a: u64 = u64::MAX - 10;
    let b: u64 = 42;
    let sum = a.saturating_add(b);
    assert_eq!(sum, u64::MAX);
}

#[test]
fn jitter_buffer_window_edges() {
    let window_ms: u64 = 0;
    assert_eq!(window_ms, 0, "zero window must be allowed for immediate flush logic");

    let large_window_ms: u64 = 60_000; // 60s
    assert!(large_window_ms <= 120_000, "excessively large jitter window can cause memory pressure");
}

#[test]
fn an_alias_is_the_beginning_of_the_shortened_digest() {
    let key = SigningKey::from_bytes(&[3; 32]).verifying_key();
    let digest: [u8; 32] = <sha2::Sha256 as sha2::Digest>::digest(key.to_bytes()).into();
    let text: String = bs58::encode(&digest[..6]).into_string().chars().take(8).collect();
    assert_eq!(PeerAlias::from_key(key).as_ref(), text);
    assert_eq!(PeerAlias::from_digest(&digest), PeerAlias::from_key(key));

    assert_eq!(PeerAlias::from_digest(&[0; 32]).as_ref(), "111111");
    assert_eq!(PeerAlias::from_digest(&[0xff; 32]).to_string(), "3CUsUpv9".to_string());
}

#[test]
fn an_alias_has_eight_characters_at_most() {
    assert_eq!(PeerAlias::from_text("123456789".to_string()).as_ref(), "12345678");
    assert_eq!(PeerAlias::from_text("12345678".to_string()).as_ref(), "12345678");
    assert_eq!(PeerAlias::from_text("1".to_string()).as_ref(), "1");
    assert_ne!(PeerAlias::new("a".to_string()), PeerAlias::new("b".to_string()));
}

#[test]
fn an_alias_of_a_digest_has_six_to_eight_characters() {
    assert_eq!(PeerAlias::from_digest(&[0; 32]).as_ref(), "111111");
    assert_eq!(PeerAlias::from_digest(&[255; 32]).as_ref().len(), 8);
    for n in 0..64u8 {
        let key = SigningKey::from_bytes(&[n; 32]).verifying_key();
        assert!((6..=8).contains(&PeerAlias::from_key(key).as_ref().len()));
    }
}

#[test]
fn each_address_is_an_ice_server_of_its_own() {
    let config = Config { stun: vec!["a".to_string(), "b".to_string()], signal: None };
    assert_eq!(config.ice_servers(), vec![vec!["a".to_string()], vec!["b".to_string()]]);
    assert!(!config.trickle());
    assert!(Config { stun: vec![], signal: Some(0) }.trickle());
    assert!(Config::default().signal.is_none());
    assert_eq!(DATA_CHANNEL, "data");
}

#[test]
fn peer_errors_in_words() {
    assert_eq!(PeerError::WebRTC("x".to_string()).text(), "WebRTC error: x");
    assert_eq!(PeerError::PeerNotConnected.text(), "Peer not connected");
    assert_eq!(
        PeerError::MessageSerialize("x".to_string()).text(),
        "Serialization error(Message): x"
    );
    assert_eq!(PeerError::DataChannelNotAvailable.text(), "Data channel not available");
    assert_eq!(PeerError::ConnectionFailed.text(), "Connection failed");
    assert_eq!(PeerError::Other.text(), "Something were wrong");
}

fn stages(role: Role, config: &Config) -> Vec<Stage> {
    let mut negotiation = Negotiation::new(role, config);
    let mut stages = vec![];
    while let Some(stage) = negotiation.stage() {
        stages.push(stage);
        negotiation.advance(Ok(())).unwrap();
    }
    stages
}

#[test]
fn negotiations_take_their_steps_in_order() {
    let whole = Config { stun: vec![], signal: None };
    let trickle = Config { stun: vec![], signal: Some(1) };
    assert_eq!(
        stages(Role::Offerer, &trickle),
        vec![Stage::OpenConnection, Stage::CreateChannel, Stage::CreateOffer, Stage::SetLocal]
    );
    assert_eq!(
        stages(Role::Offerer, &whole),
        vec![
            Stage::OpenConnection,
            Stage::CreateChannel,
            Stage::CreateOffer,
            Stage::SetLocal,
            Stage::AwaitGathering,
        ]
    );
    assert_eq!(
        stages(Role::Answerer, &trickle),
        vec![
            Stage::OpenConnection,
            Stage::WatchChannel,
            Stage::SetRemote,
            Stage::CreateAnswer,
            Stage::SetLocal,
        ]
    );
    assert_eq!(
        stages(Role::Answerer, &whole),
        vec![
            Stage::OpenConnection,
            Stage::WatchChannel,
            Stage::SetRemote,
            Stage::CreateAnswer,
            Stage::SetLocal,
            Stage::AwaitGathering,
        ]
    );
}

#[test]
fn a_failed_step_ends_a_negotiation() {
    let config = Config { stun: vec![], signal: None };
    let mut negotiation = Negotiation::new(Role::Offerer, &config);
    for _ in 0..3 {
        negotiation.advance(Ok(())).unwrap();
    }
    let r = negotiation.advance(Err("x".to_string()));
    assert!(matches!(r, Err(PeerError::WebRTC(e)) if e == "x"));
    assert_eq!(negotiation.stage(), Some(Stage::SetLocal));
    negotiation.advance(Ok(())).unwrap();
    assert_eq!(negotiation.stage(), Some(Stage::AwaitGathering));
    assert!(negotiation.advance(Err("x".to_string())).is_ok());
    assert_eq!(negotiation.stage(), None);
    assert!(negotiation.advance(Err("x".to_string())).is_ok());
}

#[test]
fn a_link_follows_its_channel() {
    let mut link = Link::new(None);
    assert_eq!(link.state, PeerState::Connecting);
    assert!(!link.on_event(PeerEvent::Connection(ConnectionState::Connected)));
    assert_eq!(link.state, PeerState::Connecting);
    assert!(!link.on_event(PeerEvent::ChannelArrived(4)));
    assert_eq!(link.channel, Some(4));
    assert!(!link.on_event(PeerEvent::ChannelOpen));
    assert_eq!(link.state, PeerState::Connected);
    for event in [PeerEvent::IceGathering, PeerEvent::IceConnection, PeerEvent::ChannelError] {
        assert!(!link.on_event(event));
        assert_eq!(link.state, PeerState::Connected);
    }
    assert!(link.on_event(PeerEvent::ChannelClosed));
    assert_eq!(link.state, PeerState::Disconnected);
    assert!(!link.on_event(PeerEvent::Connection(ConnectionState::Failed)));
    assert_eq!(link.state, PeerState::Failed);
    assert_eq!(link.channel, Some(4));
}

fn description() -> SessionDescription {
    SessionDescription { sdp_type: SdpType::Offer, sdp: "v=0".to_string() }
}

#[test]
fn an_offer_and_its_answer_connect_both_sides() {
    let (a, offer) = Peer::<WaitingAnswer>::new(1, Some(description())).unwrap();
    assert_eq!(offer.sdp, "v=0");
    let (b, _) = Peer::<WaitingICE>::from_offer(2, Some(description())).unwrap();

    let mut link_a = Link::new(Some(10));
    let mut link_b = Link::new(None);
    assert_eq!(a.get_peer_states(&link_a), PeerState::Connecting);
    let a = a.set_remote_answer(&mut link_a, Ok(()), true).unwrap();
    assert_eq!(a.get_peer_states(&link_a), PeerState::Connected);
    assert_eq!(a.receiver(), 1);

    link_b.on_event(PeerEvent::ChannelArrived(20));
    assert!(matches!(b.channel(&link_b), Ok(20)));
    let b = b.wait(&mut link_b, true).unwrap();
    assert_eq!(b.get_peer_states(&link_b), PeerState::Connected);
    assert!(matches!(b.disconnect(Ok(())), Ok(2)));
    assert!(matches!(a.disconnect(Err("x".to_string())), Err(PeerError::WebRTC(_))));
}

#[test]
fn a_side_without_description_channel_or_opening_does_not_connect() {
    assert!(matches!(Peer::<WaitingAnswer>::new(1, None), Err(PeerError::Other)));
    assert!(matches!(Peer::<WaitingICE>::from_offer(1, None), Err(PeerError::Other)));

    let (a, _) = Peer::<WaitingAnswer>::new(1, Some(description())).unwrap();
    let mut link = Link::new(Some(1));
    assert!(matches!(
        a.set_remote_answer(&mut link, Err("x".to_string()), true),
        Err(PeerError::WebRTC(_))
    ));
    let (a, _) = Peer::<WaitingAnswer>::new(1, Some(description())).unwrap();
    assert!(matches!(a.set_remote_answer(&mut link, Ok(()), false), Err(PeerError::Other)));
    assert_eq!(link.state, PeerState::Connecting);

    let (b, _) = Peer::<WaitingICE>::from_offer(1, Some(description())).unwrap();
    let mut link = Link::new(None);
    assert!(matches!(b.channel(&link), Err(PeerError::DataChannelNotAvailable)));
    assert!(matches!(b.wait(&mut link, true), Err(PeerError::DataChannelNotAvailable)));
    let (b, _) = Peer::<WaitingICE>::from_offer(1, Some(description())).unwrap();
    link.on_event(PeerEvent::ChannelArrived(1));
    assert!(matches!(b.wait(&mut link, false), Err(PeerError::Other)));
}

#[test]
fn sending_needs_an_open_channel() {
    let (a, _) = Peer::<WaitingAnswer>::new(1, Some(description())).unwrap();
    let mut link = Link::new(Some(10));
    let a = a.set_remote_answer(&mut link, Ok(()), true).unwrap();
    assert!(matches!(
        a.send(&link, Ok(vec![1, 2]), ChannelState::Open),
        Ok((10, bytes)) if bytes == vec![1, 2]
    ));
    for state in [
        ChannelState::Unspecified,
        ChannelState::Connecting,
        ChannelState::Closing,
        ChannelState::Closed,
    ] {
        assert!(matches!(a.send(&link, Ok(vec![]), state), Err(PeerError::PeerNotConnected)));
    }
    assert!(matches!(
        a.send(&Link::new(None), Ok(vec![]), ChannelState::Open),
        Err(PeerError::PeerNotConnected)
    ));
    assert!(matches!(
        a.send(&Link::new(None), Err("x".to_string()), ChannelState::Closed),
        Err(PeerError::MessageSerialize(e)) if e == "x"
    ));
    assert!(matches!(Peer::<Connected>::sent(Err("x".to_string())), Err(PeerError::WebRTC(_))));
    assert!(Peer::<Connected>::sent(Ok(())).is_ok());
}

#[test]
fn what_arrives_is_handed_on_or_left_out() {
    let m = Message::sign_at(vec![], &SigningKey::from_bytes(&[1; 32]), 0, [0; 12]);
    assert_eq!(message_received(Ok(m.clone())), Some(m.clone()));
    assert_eq!(message_received(Err("x".to_string())), None);
    assert!(matches!(Peer::<Connected>::recv(Some(m)), Ok(Some(_))));
    assert!(matches!(Peer::<Connected>::recv(None), Ok(None)));

    let ice = IceCandidate::default();
    assert_eq!(candidate_to_send(true, Some(Ok(ice.clone()))), Some(ice.clone()));
    assert_eq!(candidate_to_send(false, Some(Ok(ice.clone()))), None);
    assert_eq!(candidate_to_send(true, Some(Err("x".to_string()))), None);
    assert_eq!(candidate_to_send(true, None), None);
    assert!(matches!(
        candidate_step(CandidateEvent::Received(Some(ice.clone()))),
        CandidateStep::Add(c) if c == ice
    ));
    assert!(matches!(candidate_step(CandidateEvent::Received(None)), CandidateStep::Stop));
    assert!(matches!(candidate_step(CandidateEvent::Cancelled), CandidateStep::Stop));
}

//! What comes out of connections, and handshakes over them.

use std::collections::HashSet;
use std::ops::ControlFlow;

use harmion_connect::connection::{
    advance, decide, received, sent, start, to_bytes, Handshake, HandshakeRunnerError, RunnerStep,
};
use harmion_connect::keys::SigningKey;
use harmion_connect::verify::{
    inspect, recv, send, Fingerprint, Inspected, VerificationError, MAX_CAPACITY, TTL_SECS,
};
use harmion_connect::Message;
use rand::rngs::OsRng;
use tokio::sync::mpsc;

const CLOCK: &str = "the clock reads a time after the epoch";

fn message(content: &[u8]) -> Message {
    let key = SigningKey::from_bytes(&ed25519_dalek::SigningKey::generate(&mut OsRng).to_bytes());
    Message::new(content.to_vec(), &key).expect(CLOCK)
}

#[test]
fn mpsc_tuple_send_and_recv_message() {
    let runtime = tokio::runtime::Builder::new_current_thread().build().unwrap();
    runtime.block_on(async {
        let (tx_msg, mut rx_msg) = mpsc::channel::<Message>(8);
        let (tx_ack, mut rx_ack) = mpsc::channel::<bool>(8);

        let msg = message(b"hello");

        let send_handle = tokio::spawn(async move {
            tx_msg.send(msg).await.expect("send should succeed");
            let ack = rx_ack.recv().await.expect("expect an ack");
            assert!(ack);
        });

        let recv_handle = tokio::spawn(async move {
            if let Some(received) = rx_msg.recv().await {
                assert!(received.verify(), "received message should verify");
                tx_ack.send(true).await.expect("ack send should succeed");
            } else {
                panic!("expected a message");
            }
        });

        send_handle.await.unwrap();
        recv_handle.await.unwrap();
    });
}

#[test]
fn mpsc_tuple_recv_none_when_channel_closed() {
    let runtime = tokio::runtime::Builder::new_current_thread().build().unwrap();
    runtime.block_on(async {
        let (tx, mut rx) = mpsc::channel::<u32>(1);
        drop(tx);
        let got = rx.recv().await;
        assert!(got.is_none(), "recv should return None when all senders are dropped");
    });
}

#[test]
fn bytes_are_the_content_of_messages() {
    let m = message(b"content");
    assert_eq!(to_bytes::<()>(Ok(Some(m))), Ok(Some(b"content".to_vec())));
    assert_eq!(to_bytes::<()>(Ok(None)), Ok(None));
    assert_eq!(to_bytes(Err("gone")), Err("gone"));
}

/// Sends its number, and ends once it has heard as many numbers as it was to.
struct Count {
    left: u32,
    silent: bool,
}

impl Handshake<u32, u32> for Count {
    type State = u32;
    type Error = &'static str;
    type Return = u32;

    fn start(&mut self) -> Result<(ControlFlow<u32, u32>, Option<u32>), &'static str> {
        if self.left == 0 {
            Ok((ControlFlow::Break(0), Some(0)))
        } else {
            Ok((ControlFlow::Continue(0), if self.silent { None } else { Some(self.left) }))
        }
    }

    fn next_state(
        &mut self,
        state: u32,
        message: u32,
    ) -> Result<(ControlFlow<u32, u32>, Option<u32>), &'static str> {
        if message == 0 {
            return Err("zero");
        }
        self.left -= 1;
        if self.left == 0 {
            Ok((ControlFlow::Break(state + message), Some(99)))
        } else {
            Ok((ControlFlow::Continue(state + message), Some(self.left)))
        }
    }
}

fn run(
    handshake: &mut Count,
    mut incoming: Vec<Result<Option<u32>, &'static str>>,
    outgoing: &mut Vec<u32>,
) -> Result<u32, HandshakeRunnerError<&'static str, &'static str>> {
    incoming.reverse();
    let mut step = start(handshake)?;
    loop {
        match step {
            RunnerStep::Done(r) => return Ok(r),
            RunnerStep::Exchange(message, state) => {
                if let Some(m) = message {
                    outgoing.push(m);
                }
                step = advance(handshake, state, incoming.pop().unwrap())?;
            }
        }
    }
}

#[test]
fn a_handshake_exchanges_until_it_ends() {
    let mut outgoing = vec![];
    let r = run(&mut Count { left: 2, silent: false }, vec![Ok(Some(3)), Ok(Some(4))], &mut outgoing);
    assert!(matches!(r, Ok(7)));
    assert_eq!(outgoing, vec![2, 1], "what is left to send at the end is not sent");
}

#[test]
fn a_handshake_can_begin_by_listening_or_end_at_once() {
    let mut outgoing = vec![];
    let r = run(&mut Count { left: 1, silent: true }, vec![Ok(Some(5))], &mut outgoing);
    assert!(matches!(r, Ok(5)));
    assert!(outgoing.is_empty());

    let r = run(&mut Count { left: 0, silent: false }, vec![], &mut outgoing);
    assert!(matches!(r, Ok(0)));
    assert!(outgoing.is_empty());
}

#[test]
fn a_handshake_fails_by_its_connection_or_by_itself() {
    let mut outgoing = vec![];
    let r = run(&mut Count { left: 1, silent: false }, vec![Ok(None)], &mut outgoing);
    assert!(matches!(r, Err(HandshakeRunnerError::ConnClosed)));
    let r = run(&mut Count { left: 1, silent: false }, vec![Err("cut")], &mut outgoing);
    assert!(matches!(r, Err(HandshakeRunnerError::Conn("cut"))));
    let r = run(&mut Count { left: 1, silent: false }, vec![Ok(Some(0))], &mut outgoing);
    assert!(matches!(r, Err(HandshakeRunnerError::Handshake("zero"))));
}

#[test]
fn handshake_outcomes_are_mapped_one_by_one() {
    let r: Result<RunnerStep<u8, u8, u8>, HandshakeRunnerError<&str, ()>> = decide(Err("bad"));
    assert!(matches!(r, Err(HandshakeRunnerError::Handshake("bad"))));
    let r: Result<RunnerStep<u8, u8, u8>, HandshakeRunnerError<&str, ()>> =
        decide(Ok((ControlFlow::Break(1), Some(2))));
    assert!(matches!(r, Ok(RunnerStep::Done(1))));
    let r: Result<RunnerStep<u8, u8, u8>, HandshakeRunnerError<&str, ()>> =
        decide(Ok((ControlFlow::Continue(1), None)));
    assert!(matches!(r, Ok(RunnerStep::Exchange(None, 1))));
    assert!(matches!(sent::<(), &str>(Err("cut")), Err(HandshakeRunnerError::Conn("cut"))));
    assert!(matches!(sent::<(), &str>(Ok(())), Ok(())));
    assert!(matches!(received::<u8, (), &str>(Ok(None)), Err(HandshakeRunnerError::ConnClosed)));
    assert!(matches!(received::<u8, (), &str>(Ok(Some(3))), Ok(3)));
}

#[test]
fn authentic_messages_come_through_once() {
    let m = message(b"once");
    match inspect::<()>(Ok(Some(m.clone()))) {
        Inspected::Authentic(authentic) => {
            let fingerprint = authentic.fingerprint();
            assert_eq!(fingerprint.origin, m.origin);
            assert_eq!(fingerprint.nonce, m.nonce);
        }
        _ => panic!("an authentic message is to be looked up"),
    }
    assert!(matches!(recv::<()>(Ok(Some(m.clone())), true), Ok(Some(got)) if got == m));
    assert!(matches!(recv::<()>(Ok(Some(m)), false), Err(VerificationError::Replay)));
}

#[test]
fn inauthentic_messages_are_refused_before_they_are_looked_up() {
    let mut m = message(b"changed");
    m.content.push(0);
    assert!(matches!(
        inspect::<()>(Ok(Some(m.clone()))),
        Inspected::Refused(VerificationError::Sign)
    ));
    assert!(matches!(recv::<()>(Ok(Some(m)), true), Err(VerificationError::Sign)));
}

#[test]
fn what_the_connection_says_is_handed_on() {
    assert!(matches!(recv::<&str>(Err("cut"), true), Err(VerificationError::Inner("cut"))));
    assert!(matches!(recv::<&str>(Ok(None), false), Ok(None)));
    assert!(matches!(send::<&str>(Err("cut")), Err(VerificationError::Inner("cut"))));
    assert!(matches!(send::<&str>(Ok(())), Ok(())));
}

#[test]
fn of_messages_with_one_nonce_only_the_first_authentic_one_comes_through() {
    let first = message(b"first");
    let mut forged = first.clone();
    forged.content.push(0);
    let other = message(b"other");

    let mut remembered = HashSet::new();
    let mut handed_out = vec![];
    for m in [forged, first.clone(), first.clone(), other.clone(), first.clone(), other.clone()] {
        match inspect::<()>(Ok(Some(m))) {
            Inspected::Authentic(authentic) => {
                let fresh = remembered.insert(authentic.fingerprint());
                match authentic.release::<()>(fresh) {
                    Ok(m) => handed_out.push(m.unwrap()),
                    Err(e) => assert!(matches!(e, VerificationError::Replay)),
                }
            }
            Inspected::Refused(e) => assert!(matches!(e, VerificationError::Sign)),
            Inspected::Closed => panic!("the connection is open"),
        }
    }
    assert_eq!(handed_out, vec![first, other]);
}

#[test]
fn a_replay_is_refused_until_the_message_is_forgotten() {
    let runtime = tokio::runtime::Builder::new_current_thread().enable_time().build().unwrap();
    runtime.block_on(async {
        let lifetime = std::time::Duration::from_secs(2);
        let cache: moka::future::Cache<Fingerprint, ()> =
            moka::future::Cache::builder().max_capacity(MAX_CAPACITY).time_to_live(lifetime).build();
        let other_connection = cache.clone();
        let m = message(b"again");

        let mut came_through = vec![];
        for (remembered, wait) in [
            (&cache, std::time::Duration::ZERO),
            (&other_connection, std::time::Duration::ZERO),
            (&other_connection, lifetime * 2),
            (&cache, std::time::Duration::ZERO),
        ] {
            tokio::time::sleep(wait).await;
            match inspect::<()>(Ok(Some(m.clone()))) {
                Inspected::Authentic(authentic) => {
                    let entry = remembered.entry(authentic.fingerprint()).or_default().await;
                    match authentic.release::<()>(entry.is_fresh()) {
                        Ok(got) => came_through.push(got == Some(m.clone())),
                        Err(e) => {
                            assert!(matches!(e, VerificationError::Replay));
                            came_through.push(false);
                        }
                    }
                }
                _ => panic!("an authentic message is to be looked up"),
            }
        }
        assert_eq!(came_through, vec![true, false, true, false]);
    });
}

#[test]
fn verification_errors_in_words() {
    assert_eq!(VerificationError::Inner(()).text("cut"), "cut");
    assert_eq!(
        VerificationError::<()>::Sign.text("cut"),
        "failed to trust the message because of unmatched sign"
    );
    assert_eq!(
        VerificationError::<()>::Replay.text("cut"),
        "failed to trust the message because the message is replayed"
    );
}

#[test]
fn messages_are_remembered_for_ten_minutes() {
    assert_eq!(TTL_SECS, 600);
    assert_eq!(MAX_CAPACITY, 10_000);
}

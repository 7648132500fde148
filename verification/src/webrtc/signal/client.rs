//! A peer's connection to a signalling service.

use crate::collections;
use crate::collections::KeySet;
use crate::keys;
use crate::keys::SigningKey;
use crate::message;
use crate::message::{DecodeError, FromError, Message, MessageT, PeerIndex};
use crate::text;
use crate::webrtc::signal::wire;
use crate::webrtc::signal::wire::{open, Frame, LinkEvent};
use crate::webrtc::signal::{
    InitClientToSig,
    InitSigToClient,
    SignalInfo,
    SignalMessage,
    SignalView,
};
use vstd::prelude::*;

verus! {

/// How long a service has to answer whether it is alive.
pub const PROBE_TIMEOUT_SECS: u64 = 5;

/// How many services are asked at a time whether they are alive.
pub const PROBES_AT_ONCE: usize = 10;

/// What goes wrong between a client and a signalling service. Where another
/// party's error is the reason, its words are kept.
#[derive(Debug)]
pub enum SignalCError {
    Request(String),
    NoSignalAvailable,
    Ws(String),
    InvailedHandshake(DecodeError<String>),
    Convertfailed(String),
    NoHandshake,
    Untrust,
    NotConnected,
    Send(Box<SignalMessage>),
}

impl SignalCError {
    pub open spec fn text_spec(self) -> Seq<char> {
        match self {
            SignalCError::Request(e) => "failed to send http request: "@ + e@,
            SignalCError::NoSignalAvailable => "Signalling service is unavailable"@,
            SignalCError::Ws(e) => "failed to connect via ws: "@ + e@,
            SignalCError::InvailedHandshake(e) => "The first message is not the handshake: "@
                + e.text_spec(),
            SignalCError::Convertfailed(e) => "failed to convert SignalMessage to MessagePack: "@
                + e@,
            SignalCError::NoHandshake => "No handshake or websocket error"@,
            SignalCError::Untrust => "invalid message signature"@,
            SignalCError::NotConnected => "Not connected to a Signalling service"@,
            SignalCError::Send(_) => "fialed to send message: channel closed"@,
        }
    }

    /// The error in words.
    pub fn text(&self) -> (r: String)
        ensures
            r@ == self.text_spec(),
    {
        match self {
            SignalCError::Request(e) => "failed to send http request: ".to_owned().concat(
                e.as_str(),
            ),
            SignalCError::NoSignalAvailable => "Signalling service is unavailable".to_owned(),
            SignalCError::Ws(e) => "failed to connect via ws: ".to_owned().concat(e.as_str()),
            SignalCError::InvailedHandshake(
                e,
            ) => "The first message is not the handshake: ".to_owned().concat(e.text().as_str()),
            SignalCError::Convertfailed(
                e,
            ) => "failed to convert SignalMessage to MessagePack: ".to_owned().concat(e.as_str()),
            SignalCError::NoHandshake => "No handshake or websocket error".to_owned(),
            SignalCError::Untrust => "invalid message signature".to_owned(),
            SignalCError::NotConnected => "Not connected to a Signalling service".to_owned(),
            SignalCError::Send(_) => "fialed to send message: channel closed".to_owned(),
        }
    }
}

/// What a client is made of.
pub struct ClientView {
    /// The services that it knows.
    pub sigs: Set<SignalView>,
    /// The connection to a service, as a number by which whoever runs it finds
    /// it again.
    pub connection: Option<u64>,
    /// The service that it is connected to.
    pub connected_to: Option<SignalView>,
    pub id: Seq<u8>,
    /// The secret that it signs with.
    pub key: Seq<u8>,
}

/// A peer as a signalling service's client.
pub struct SignalClient {
    sigs: KeySet<SignalInfo>,
    link: Option<(u64, SignalInfo)>,
    id: PeerIndex,
    key: SigningKey,
}

/// How a connection begins.
pub enum ConnectStart {
    /// Dial this service.
    Dial(Dialing),
    /// Ask these services whether they are alive, and dial the first that is.
    Probe(Vec<Probe>, Probing),
}

/// A question to a service whether it is alive.
pub struct Probe {
    pub url: String,
    pub sig: SignalInfo,
}

/// The services have been asked, and none was alive so far.
pub struct Probing;

/// What an answer to the questions leads to.
pub enum ProbeStep {
    /// Wait for the next answer.
    Next(Probing),
    /// Dial this service.
    Dial(Dialing),
}

impl Probing {
    /// No service can be asked.
    pub fn cannot_ask(self, reason: String) -> (r: SignalCError)
        ensures
            r == SignalCError::Request(reason),
    {
        SignalCError::Request(reason)
    }

    /// What the next answer leads to: `Some(Some(_))` is a service that is
    /// alive, `Some(None)` one that is not, `None` the end of the answers.
    pub fn answered(self, answer: Option<Option<SignalInfo>>) -> (r: Result<ProbeStep, SignalCError>)
        ensures
            match answer {
                Some(Some(sig)) => r matches Ok(ProbeStep::Dial(dialing)) && dialing@ == sig@,
                Some(None) => r matches Ok(ProbeStep::Next(_)),
                None => r == Err::<ProbeStep, SignalCError>(SignalCError::NoSignalAvailable),
            },
    {
        match answer {
            Some(Some(sig)) => Ok(ProbeStep::Dial(Dialing { sig })),
            Some(None) => Ok(ProbeStep::Next(self)),
            None => Err(SignalCError::NoSignalAvailable),
        }
    }
}

/// A service is to be dialed.
pub struct Dialing {
    sig: SignalInfo,
}

impl View for Dialing {
    type V = SignalView;

    closed spec fn view(&self) -> SignalView {
        self.sig@
    }
}

impl Dialing {
    /// Where a client dials the service.
    pub fn url(&self) -> (r: String)
        ensures
            r@ == client_url(self@),
    {
        self.sig.to_ws().concat("/client")
    }

    /// What the client says first once the service has been dialed: the services
    /// that it knows.
    pub fn dialed(self, client: &SignalClient, outcome: Result<(), String>) -> (r: Result<
        (Greeting, InitClientToSig),
        SignalCError,
    >)
        ensures
            match outcome {
                Ok(_) => r matches Ok((greeting, init)) && greeting@ == self@
                    && collections::views(init.known_signals@).no_duplicates()
                    && collections::views(init.known_signals@).to_set() == client@.sigs,
                Err(e) => r == Err::<(Greeting, InitClientToSig), SignalCError>(
                    SignalCError::Ws(e),
                ),
            },
    {
        match outcome {
            Ok(_) => Ok(
                (
                    Greeting { sig: self.sig },
                    InitClientToSig { known_signals: client.sigs.to_vec() },
                ),
            ),
            Err(e) => Err(SignalCError::Ws(e)),
        }
    }
}

/// What became of the client's first message.
pub enum GreetingOutcome {
    NotEncoded(String),
    NotSent(String),
    Sent,
}

/// The first message is to be sent to the service that was dialed.
pub struct Greeting {
    sig: SignalInfo,
}

impl View for Greeting {
    type V = SignalView;

    closed spec fn view(&self) -> SignalView {
        self.sig@
    }
}

impl Greeting {
    /// What the fate of the first message leads to.
    pub fn done(self, outcome: GreetingOutcome) -> (r: Result<AwaitingHandshake, SignalCError>)
        ensures
            match outcome {
                GreetingOutcome::NotEncoded(e) => r == Err::<AwaitingHandshake, SignalCError>(
                    SignalCError::Convertfailed(e),
                ),
                GreetingOutcome::NotSent(e) => r == Err::<AwaitingHandshake, SignalCError>(
                    SignalCError::Ws(e),
                ),
                GreetingOutcome::Sent => r matches Ok(awaiting) && awaiting@ == self@,
            },
    {
        match outcome {
            GreetingOutcome::NotEncoded(e) => Err(SignalCError::Convertfailed(e)),
            GreetingOutcome::NotSent(e) => Err(SignalCError::Ws(e)),
            GreetingOutcome::Sent => Ok(AwaitingHandshake { sig: self.sig }),
        }
    }
}

/// The handshake of the service that was dialed is to come.
pub struct AwaitingHandshake {
    sig: SignalInfo,
}

impl View for AwaitingHandshake {
    type V = SignalView;

    closed spec fn view(&self) -> SignalView {
        self.sig@
    }
}

impl AwaitingHandshake {
    /// Takes the service's handshake. Only where it is authentic and the
    /// service's own, the client learns the services that it names and is
    /// connected, through `conn`; otherwise nothing changes.
    pub fn handshake(
        self,
        client: &mut SignalClient,
        frame: Frame<InitSigToClient>,
        conn: u64,
    ) -> (r: Result<(), SignalCError>)
        ensures
            match judged(frame, self@.id) {
                Ok(known) => {
                    &&& r == Ok::<(), SignalCError>(())
                    &&& final(client)@ == (ClientView {
                        sigs: old(client)@.sigs.union(collections::views(known).to_set()),
                        connection: Some(conn),
                        connected_to: Some(self@),
                        ..old(client)@
                    })
                },
                Err(e) => {
                    &&& r == Err::<(), SignalCError>(e)
                    &&& final(client)@ == old(client)@
                },
            },
    {
        match frame {
            Frame::Ended => Err(SignalCError::NoHandshake),
            Frame::Close => Err(SignalCError::NoHandshake),
            Frame::Data(data) => match open(data) {
                Err(e) => Err(SignalCError::InvailedHandshake(e)),
                Ok(message) => {
                    if !message.verify_result || !message.origin.same(&self.sig.id) {
                        Err(SignalCError::Untrust)
                    } else {
                        client.learn(&message.content.known_signals);
                        client.link = Some((conn, self.sig));
                        Ok(())
                    }
                },
            },
        }
    }
}

/// What a client does with a frame.
pub enum ClientStep {
    /// Stop reading, and cancel the other tasks of the connection.
    Stop,
    /// Wait for the next frame.
    Skip,
    /// Hand the message to the client's user.
    Forward(MessageT<SignalMessage>),
}

/// The path of a service's heartbeat under its HTTP root.
pub open spec fn heartbeat_url(sig: SignalView) -> Seq<char> {
    sig.url("http"@) + "/heartbeat"@
}

/// The path that clients dial under a service's web socket root.
pub open spec fn client_url(sig: SignalView) -> Seq<char> {
    sig.url("ws"@) + "/client"@
}

/// Whether these are the questions to exactly these services.
pub open spec fn probes_for(probes: Seq<Probe>, sigs: Set<SignalView>) -> bool {
    let asked = Seq::new(probes.len(), |i: int| probes[i].sig@);
    &&& asked.no_duplicates()
    &&& asked.to_set() == sigs
    &&& forall|i: int|
        0 <= i < probes.len() ==> (#[trigger] probes[i]).url@ == heartbeat_url(probes[i].sig@)
}

/// How a service's handshake is judged: which error it is, or the services that
/// it names.
pub open spec fn judged(
    frame: Frame<InitSigToClient>,
    id: Seq<u8>,
) -> Result<Seq<SignalInfo>, SignalCError> {
    match frame {
        Frame::Ended | Frame::Close => Err(SignalCError::NoHandshake),
        Frame::Data(data) => match wire::opened(data) {
            None => Err(SignalCError::InvailedHandshake(wire::undecoded(data))),
            Some((message, content)) => if message.authentic() && message.origin@ == id {
                Ok(content.known_signals@)
            } else {
                Err(SignalCError::Untrust)
            },
        },
    }
}

/// What becomes of an event while connected. A frame that does not decode is
/// passed over; one that does is handed on, authentic or not.
pub open spec fn client_step(event: LinkEvent<SignalMessage>, step: ClientStep) -> bool {
    match event {
        LinkEvent::Cancelled => step is Stop,
        LinkEvent::Frame(Frame::Ended) => step is Stop,
        LinkEvent::Frame(Frame::Close) => step is Stop,
        LinkEvent::Frame(Frame::Data(data)) => match wire::opened(data) {
            None => step is Skip,
            Some((message, content)) => step matches ClientStep::Forward(m) && m.decoded_from(
                message,
                content,
            ),
        },
    }
}

impl View for SignalClient {
    type V = ClientView;

    closed spec fn view(&self) -> ClientView {
        ClientView {
            sigs: self.sigs@,
            connection: match self.link {
                Some((conn, _)) => Some(conn),
                None => None,
            },
            connected_to: match self.link {
                Some((_, sig)) => Some(sig@),
                None => None,
            },
            id: self.id@,
            key: self.key@,
        }
    }
}

impl SignalClient {
    /// A client that knows no service and is connected to none.
    pub fn new(id: PeerIndex, key: SigningKey) -> (r: SignalClient)
        ensures
            r@ == (ClientView {
                sigs: Set::empty(),
                connection: None,
                connected_to: None,
                id: id@,
                key: key@,
            }),
    {
        SignalClient { sigs: KeySet::new(), link: None, id, key }
    }

    /// Adds a service, and tells whether it was new.
    pub fn insert_signal(&mut self, sig: SignalInfo) -> (r: bool)
        ensures
            final(self)@ == (ClientView { sigs: old(self)@.sigs.insert(sig@), ..old(self)@ }),
            r == !old(self)@.sigs.contains(sig@),
    {
        self.sigs.insert(sig)
    }

    /// The peer that the client speaks for.
    pub fn origin(&self) -> (r: PeerIndex)
        ensures
            r@ == self@.id,
    {
        self.id
    }

    /// The service that the client is connected to.
    pub fn connected_to(&self) -> (r: Option<SignalInfo>)
        ensures
            match r {
                Some(sig) => self@.connected_to == Some(sig@),
                None => self@.connected_to is None,
            },
    {
        match &self.link {
            Some((_, sig)) => Some(sig.clone()),
            None => None,
        }
    }

    /// How many services the client knows.
    pub fn signal_count(&self) -> (r: usize)
        ensures
            r == self@.sigs.len(),
            self@.sigs.finite(),
    {
        self.sigs.len()
    }

    /// The services that the client knows, each once, in no particular order.
    pub fn known_signals(&self) -> (r: Vec<SignalInfo>)
        ensures
            collections::views(r@).no_duplicates(),
            collections::views(r@).to_set() == self@.sigs,
    {
        self.sigs.to_vec()
    }

    /// Signs what one of the client's values was encoded to.
    pub fn sign<E>(&self, encoded: Result<Vec<u8>, E>) -> (r: Result<Message, FromError<E>>)
        ensures
            encoded matches Err(e) ==> r == Err::<Message, FromError<E>>(FromError::Encode(e)),
            encoded matches Ok(content) ==> match r {
                Ok(m) => {
                    &&& m.content == content
                    &&& m.made_by(self@.key, content@)
                    &&& message::clock_reads(Ok(m.timestamp))
                    &&& message::nonce_drawn(m.nonce)
                },
                Err(e) => e matches FromError::Clock(c) && message::clock_reads(Err(c)),
            },
            r matches Ok(m) ==> !keys::neutral_commitment(m.sig@) ==> m.authentic(),
    {
        Message::from(encoded, &self.key)
    }

    /// The connection that a message to another peer goes through.
    pub fn send(&self, message: SignalMessage) -> (r: Result<(u64, SignalMessage), SignalCError>)
        ensures
            match self@.connection {
                Some(conn) => r == Ok::<(u64, SignalMessage), SignalCError>((conn, message)),
                None => r == Err::<(u64, SignalMessage), SignalCError>(SignalCError::NotConnected),
            },
    {
        match &self.link {
            Some((conn, _)) => Ok((*conn, message)),
            None => Err(SignalCError::NotConnected),
        }
    }

    /// What a message comes to that the connection took, or gave back because
    /// it was gone.
    pub fn sent(outcome: Result<(), SignalMessage>) -> (r: Result<(), SignalCError>)
        ensures
            match outcome {
                Ok(_) => r == Ok::<(), SignalCError>(()),
                Err(message) => r == Err::<(), SignalCError>(SignalCError::Send(Box::new(message))),
            },
    {
        match outcome {
            Ok(_) => Ok(()),
            Err(message) => Err(SignalCError::Send(Box::new(message))),
        }
    }

    /// The connection that a message from another peer comes through.
    pub fn recv(&self) -> (r: Result<u64, SignalCError>)
        ensures
            match self@.connection {
                Some(conn) => r == Ok::<u64, SignalCError>(conn),
                None => r == Err::<u64, SignalCError>(SignalCError::NotConnected),
            },
    {
        match &self.link {
            Some((conn, _)) => Ok(*conn),
            None => Err(SignalCError::NotConnected),
        }
    }

    /// What the connection handed out, or that it is gone.
    pub fn received(item: Option<MessageT<SignalMessage>>) -> (r: Result<
        Option<MessageT<SignalMessage>>,
        SignalCError,
    >)
        ensures
            match item {
                Some(m) => r == Ok::<Option<MessageT<SignalMessage>>, SignalCError>(Some(m)),
                None => r == Err::<Option<MessageT<SignalMessage>>, SignalCError>(
                    SignalCError::NotConnected,
                ),
            },
    {
        match item {
            Some(m) => Ok(Some(m)),
            None => Err(SignalCError::NotConnected),
        }
    }

    /// Begins to connect: to the given service, which becomes known, or to any
    /// known service that is alive.
    pub fn connect(&mut self, to: Option<SignalInfo>) -> (r: ConnectStart)
        ensures
            match to {
                Some(sig) => {
                    &&& final(self)@ == (ClientView {
                        sigs: old(self)@.sigs.insert(sig@),
                        ..old(self)@
                    })
                    &&& r matches ConnectStart::Dial(dialing) && dialing@ == sig@
                },
                None => {
                    &&& final(self)@ == old(self)@
                    &&& r matches ConnectStart::Probe(probes, _) && probes_for(
                        probes@,
                        old(self)@.sigs,
                    )
                },
            },
    {
        match to {
            Some(sig) => {
                self.sigs.insert(sig.clone());
                ConnectStart::Dial(Dialing { sig })
            },
            None => ConnectStart::Probe(self.probes(), Probing),
        }
    }

    fn probes(&self) -> (r: Vec<Probe>)
        ensures
            probes_for(r@, self@.sigs),
    {
        let sigs: Vec<SignalInfo> = self.sigs.to_vec();
        let mut r: Vec<Probe> = Vec::new();
        let mut i: usize = 0;
        while i < sigs.len()
            invariant
                i <= sigs@.len(),
                r@.len() == i,
                forall|j: int|
                    0 <= j < i ==> (#[trigger] r@[j]).url@ == heartbeat_url(r@[j].sig@)
                        && r@[j].sig@ == sigs@[j]@,
            decreases sigs@.len() - i,
        {
            let url: String = sigs[i].to_http().concat("/heartbeat");
            r.push(Probe { url, sig: sigs[i].clone() });
            i += 1;
        }
        assert(Seq::new(r@.len(), |j: int| r@[j].sig@) =~= collections::views(sigs@));
        r
    }

    fn learn(&mut self, known: &Vec<SignalInfo>)
        ensures
            final(self)@ == (ClientView {
                sigs: old(self)@.sigs.union(collections::views(known@).to_set()),
                ..old(self)@
            }),
    {
        let ghost before = self@;
        let mut i: usize = 0;
        proof {
            assert(collections::views(known@).take(0).to_set() =~= Set::<SignalView>::empty());
            assert(before.sigs.union(Set::<SignalView>::empty()) =~= before.sigs);
        }
        while i < known.len()
            invariant
                i <= known@.len(),
                self@ == (ClientView {
                    sigs: before.sigs.union(collections::views(known@).take(i as int).to_set()),
                    ..before
                }),
            decreases known@.len() - i,
        {
            proof {
                collections::lemma_take_next(collections::views(known@), i as int);
                assert(collections::views(known@)[i as int] == known@[i as int]@);
                let a = collections::views(known@).take(i as int).to_set();
                assert(before.sigs.union(a.insert(known@[i as int]@)) =~= before.sigs.union(
                    a,
                ).insert(known@[i as int]@));
            }
            self.sigs.insert(known[i].clone());
            i += 1;
        }
        assert(collections::views(known@).take(i as int) =~= collections::views(known@));
    }

    /// What becomes of an event while connected.
    pub fn incoming(event: LinkEvent<SignalMessage>) -> (r: ClientStep)
        ensures
            client_step(event, r),
    {
        match event {
            LinkEvent::Cancelled => ClientStep::Stop,
            LinkEvent::Frame(Frame::Ended) => ClientStep::Stop,
            LinkEvent::Frame(Frame::Close) => ClientStep::Stop,
            LinkEvent::Frame(Frame::Data(data)) => match open(data) {
                Ok(message) => ClientStep::Forward(message),
                Err(_) => ClientStep::Skip,
            },
        }
    }

    /// Ends the connection, and returns the one to cancel.
    pub fn disconnect(&mut self) -> (r: Option<u64>)
        ensures
            r == old(self)@.connection,
            final(self)@ == (ClientView { connection: None, connected_to: None, ..old(self)@ }),
    {
        let conn: Option<u64> = match &self.link {
            Some((conn, _)) => Some(*conn),
            None => None,
        };
        self.link = None;
        conn
    }
}

/// A client has a connection exactly while it is connected to some service.
pub proof fn a_connection_leads_to_a_service(client: SignalClient)
    ensures
        client@.connection is Some <==> client@.connected_to is Some,
{
}

/// A client is connected only to a service that proved, with its own key, that
/// it is the one that was dialed.
pub proof fn only_the_dialed_service_is_trusted(frame: Frame<InitSigToClient>, id: Seq<u8>)
    requires
        judged(frame, id) is Ok,
    ensures
        frame matches Frame::Data(data) && wire::opened(data) matches Some((message, content))
            && message.authentic() && message.origin@ == id && judged(frame, id)->Ok_0
            == content.known_signals@,
{
}

/// The handshake of the service that was dialed is taken exactly where it decodes
/// to its end, strict verification under the author's key accepts it and that
/// author is the service; then the services that it names are learned, all of
/// them. Whatever else comes is refused with its own error.
pub proof fn a_handshake_is_judged_by_its_signature(
    message: Message,
    content: InitSigToClient,
    read: usize,
    words: String,
    id: Seq<u8>,
)
    ensures
        ({
            let signed = keys::ed25519_verify_strict(
                message.origin@,
                message.content@ + message::be_bytes(message.timestamp) + message.nonce@,
                message.sig@,
            );
            let verdict = judged(Frame::Data(Ok((message, Ok((content, read))))), id);
            &&& read == message.content@.len() && signed && message.origin@ == id ==> verdict
                == Ok::<Seq<SignalInfo>, SignalCError>(content.known_signals@)
            &&& read == message.content@.len() && !(signed && message.origin@ == id) ==> verdict
                == Err::<Seq<SignalInfo>, SignalCError>(SignalCError::Untrust)
            &&& read != message.content@.len() ==> verdict == Err::<Seq<SignalInfo>, SignalCError>(
                SignalCError::InvailedHandshake(DecodeError::TrailingBytes),
            )
        }),
        judged(Frame::Data(Ok((message, Err(words)))), id) == Err::<Seq<SignalInfo>, SignalCError>(
            SignalCError::InvailedHandshake(DecodeError::Decoder(words)),
        ),
        judged(Frame::Data(Err(words)), id) == Err::<Seq<SignalInfo>, SignalCError>(
            SignalCError::InvailedHandshake(DecodeError::Decoder(words)),
        ),
        judged(Frame::Ended, id) == Err::<Seq<SignalInfo>, SignalCError>(SignalCError::NoHandshake),
        judged(Frame::Close, id) == Err::<Seq<SignalInfo>, SignalCError>(SignalCError::NoHandshake),
{
    message::only_the_authors_signature_is_authentic(message);
    wire::only_a_frame_read_to_its_end_opens(message, content, read, words);
}

/// While connected, every frame that decodes to its end is handed on, with its
/// fields and with what verification says of it; any other is passed over; and
/// only the end of the connection or a cancellation stops the reading.
pub proof fn what_decodes_is_handed_on(
    event: LinkEvent<SignalMessage>,
    step: ClientStep,
    message: Message,
    content: SignalMessage,
    read: usize,
)
    requires
        client_step(event, step),
    ensures
        step is Stop <==> !(event matches LinkEvent::Frame(Frame::Data(_))),
        event == LinkEvent::Frame(Frame::Data(Ok((message, Ok((content, read))))))
            ==> if read == message.content@.len() {
            step == ClientStep::Forward(
                MessageT {
                    content,
                    timestamp: message.timestamp,
                    origin: message.origin,
                    sig: message.sig,
                    nonce: message.nonce,
                    verify_result: keys::ed25519_verify_strict(
                        message.origin@,
                        message.content@ + message::be_bytes(message.timestamp) + message.nonce@,
                        message.sig@,
                    ),
                },
            )
        } else {
            step is Skip
        },
        event matches LinkEvent::Frame(Frame::Data(Ok((_, Err(_))))) ==> step is Skip,
        event matches LinkEvent::Frame(Frame::Data(Err(_))) ==> step is Skip,
{
    match step {
        ClientStep::Forward(m) => message::decoding_keeps_the_message(m, message, content),
        _ => {},
    }
}

/// Each service that is known is asked once, at its own address, whether it is
/// alive, and no other is asked.
pub proof fn every_known_service_is_asked_once(
    probes: Seq<Probe>,
    sigs: Set<SignalView>,
    sig: SignalView,
    i: int,
    j: int,
)
    requires
        probes_for(probes, sigs),
    ensures
        sigs.contains(sig) <==> exists|k: int|
            0 <= k < probes.len() && (#[trigger] probes[k]).sig@ == sig,
        0 <= i < probes.len() && 0 <= j < probes.len() && probes[i].sig@ == probes[j].sig@ ==> i
            == j,
        0 <= i < probes.len() ==> probes[i].url@ == "http://"@ + probes[i].sig@.host + ":"@
            + text::decimal(probes[i].sig@.port as nat) + "/heartbeat"@,
{
    let asked = Seq::new(probes.len(), |k: int| probes[k].sig@);
    if sigs.contains(sig) {
        assert(asked.contains(sig));
        let k = choose|k: int| 0 <= k < asked.len() && asked[k] == sig;
        assert(probes[k].sig@ == sig);
    }
    if exists|k: int| 0 <= k < probes.len() && (#[trigger] probes[k]).sig@ == sig {
        let k = choose|k: int| 0 <= k < probes.len() && (#[trigger] probes[k]).sig@ == sig;
        assert(asked[k] == sig);
        assert(asked.to_set().contains(sig));
    }
    if 0 <= i < probes.len() && 0 <= j < probes.len() && probes[i].sig@ == probes[j].sig@ {
        assert(asked[i] == asked[j]);
    }
    if 0 <= i < probes.len() {
        addresses_of_a_service(probes[i].sig@);
    }
}

/// A service's heartbeat is asked for over HTTP, and clients dial it by web
/// socket, both at its host and its port.
pub proof fn addresses_of_a_service(sig: SignalView)
    ensures
        heartbeat_url(sig) == "http://"@ + sig.host + ":"@ + text::decimal(sig.port as nat)
            + "/heartbeat"@,
        client_url(sig) == "ws://"@ + sig.host + ":"@ + text::decimal(sig.port as nat) + "/client"@,
{
    crate::webrtc::signal::an_address_has_host_and_port(sig);
}

/// Where another party's error is the reason, its words end the text, behind the
/// same words each time.
pub proof fn signalling_errors_keep_the_reason(a: String, b: DecodeError<String>, none: String)
    requires
        none@.len() == 0,
    ensures
        SignalCError::Request(a).text_spec() == SignalCError::Request(none).text_spec() + a@,
        SignalCError::Ws(a).text_spec() == SignalCError::Ws(none).text_spec() + a@,
        SignalCError::Convertfailed(a).text_spec() == SignalCError::Convertfailed(none).text_spec()
            + a@,
        SignalCError::InvailedHandshake(b).text_spec() == SignalCError::InvailedHandshake(
            DecodeError::Decoder(none),
        ).text_spec() + b.text_spec(),
{
    assert(none@ =~= Seq::<char>::empty());
    assert(SignalCError::Request(a).text_spec() =~= SignalCError::Request(none).text_spec() + a@);
    assert(SignalCError::Ws(a).text_spec() =~= SignalCError::Ws(none).text_spec() + a@);
    assert(SignalCError::Convertfailed(a).text_spec() =~= SignalCError::Convertfailed(
        none,
    ).text_spec() + a@);
    assert(SignalCError::InvailedHandshake(b).text_spec() =~= SignalCError::InvailedHandshake(
        DecodeError::Decoder(none),
    ).text_spec() + b.text_spec());
}

/// A client is connected to the service that it dialed, through the connection
/// that it was given, exactly where that service's handshake is authentic and its
/// own; it then knows, besides those that it knew, all services that the
/// handshake names. Otherwise it is as it was.
pub proof fn a_client_trusts_the_service_that_it_dialed(
    awaiting: AwaitingHandshake,
    client: &mut SignalClient,
    message: Message,
    content: InitSigToClient,
    read: usize,
    conn: u64,
    r: Result<(), SignalCError>,
    sig: SignalView,
)
    requires
        call_ensures(
            AwaitingHandshake::handshake,
            (awaiting, client, Frame::Data(Ok((message, Ok((content, read))))), conn),
            r,
        ),
    ensures
        r is Ok <==> read == message.content@.len() && message.origin@ == awaiting@.id
            && keys::ed25519_verify_strict(
            message.origin@,
            message.content@ + message::be_bytes(message.timestamp) + message.nonce@,
            message.sig@,
        ),
        r is Ok ==> final(client)@.connection == Some(conn) && final(client)@.connected_to == Some(
            awaiting@,
        ),
        r is Ok ==> (final(client)@.sigs.contains(sig) <==> old(client)@.sigs.contains(sig) || (
        exists|i: int|
            0 <= i < content.known_signals@.len() && (#[trigger] content.known_signals@[i])@
                == sig)),
        final(client)@.id == old(client)@.id && final(client)@.key == old(client)@.key,
        r is Err ==> final(client)@ == old(client)@,
{
    a_handshake_is_judged_by_its_signature(message, content, read, arbitrary(), awaiting@.id);
    let named = collections::views(content.known_signals@);
    if named.to_set().contains(sig) {
        let i = choose|i: int| 0 <= i < named.len() && named[i] == sig;
        assert(content.known_signals@[i]@ == sig);
    }
    if exists|i: int|
        0 <= i < content.known_signals@.len() && (#[trigger] content.known_signals@[i])@ == sig {
        let i = choose|i: int|
            0 <= i < content.known_signals@.len() && (#[trigger] content.known_signals@[i])@ == sig;
        assert(named[i] == sig);
    }
}

/// The service that is asked for is the one that is dialed, greeted and awaited,
/// and it is known from then on. Where none is asked for, the first that is alive
/// is dialed.
pub proof fn the_service_that_is_asked_for_is_awaited(
    client: &mut SignalClient,
    sig: SignalInfo,
    start: ConnectStart,
    at: &SignalClient,
    greeting: Result<(Greeting, InitClientToSig), SignalCError>,
    awaiting: Result<AwaitingHandshake, SignalCError>,
    probing: Probing,
    answer: Result<ProbeStep, SignalCError>,
)
    requires
        call_ensures(SignalClient::connect, (client, Some(sig)), start),
        start matches ConnectStart::Dial(dialing) ==> call_ensures(
            Dialing::dialed,
            (dialing, at, Ok::<(), String>(())),
            greeting,
        ),
        greeting matches Ok((g, _)) ==> call_ensures(
            Greeting::done,
            (g, GreetingOutcome::Sent),
            awaiting,
        ),
        call_ensures(Probing::answered, (probing, Some(Some(sig))), answer),
    ensures
        start is Dial,
        final(client)@.sigs.contains(sig@),
        forall|s: SignalView|
            s != sig@ ==> (#[trigger] final(client)@.sigs.contains(s) <==> old(client)@.sigs.contains(
                s,
            )),
        final(client)@.connection == old(client)@.connection,
        greeting matches Ok((_, init)) && collections::views(init.known_signals@).to_set()
            == at@.sigs,
        awaiting matches Ok(a) && a@ == sig@,
        answer matches Ok(ProbeStep::Dial(dialing)) && dialing@ == sig@,
{
}

/// While it is connected, a client sends and receives through the connection that
/// it was given, and what it sends is handed on unchanged; once it has
/// disconnected it does neither, and still knows the services that it knew.
pub proof fn a_client_speaks_while_it_is_connected(
    client: &SignalClient,
    message: SignalMessage,
    sent: Result<(u64, SignalMessage), SignalCError>,
    received: Result<u64, SignalCError>,
    leaving: &mut SignalClient,
    ended: Option<u64>,
    gone: &SignalClient,
    unsent: Result<(u64, SignalMessage), SignalCError>,
    deaf: Result<u64, SignalCError>,
)
    requires
        call_ensures(SignalClient::send, (client, message), sent),
        call_ensures(SignalClient::recv, (client,), received),
        call_ensures(SignalClient::disconnect, (leaving,), ended),
        *gone == *final(leaving),
        call_ensures(SignalClient::send, (gone, message), unsent),
        call_ensures(SignalClient::recv, (gone,), deaf),
    ensures
        client@.connection matches Some(conn) ==> sent == Ok::<(u64, SignalMessage), SignalCError>(
            (conn, message),
        ) && received == Ok::<u64, SignalCError>(conn),
        client@.connection is None ==> sent == Err::<(u64, SignalMessage), SignalCError>(
            SignalCError::NotConnected,
        ) && received == Err::<u64, SignalCError>(SignalCError::NotConnected),
        ended == old(leaving)@.connection,
        unsent == Err::<(u64, SignalMessage), SignalCError>(SignalCError::NotConnected),
        deaf == Err::<u64, SignalCError>(SignalCError::NotConnected),
        gone@.sigs == old(leaving)@.sigs,
        gone@.connected_to is None,
{
}

} // verus!

//! A signalling service: whom it trusts, whom it dials, and where it routes
//! what peers tell each other.

use crate::collections;
use crate::keys;
use crate::keys::SigningKey;
use crate::message;
use crate::message::{DecodeError, FromError, Message, PeerIndex};
use crate::webrtc::conns::{PeerConns, SignalConns};
use crate::webrtc::signal::client::SignalCError;
use crate::webrtc::signal::roster::{
    handle_peer_signal_state_changes,
    PeerSignalStateChange,
    SigPeers,
    SigPeersView,
};
use crate::webrtc::signal::wire;
use crate::webrtc::signal::wire::{open, Frame, LinkEvent, SenderEvent};
use crate::webrtc::signal::{
    InitClientToSig,
    InitSigToClient,
    SignalInfo,
    SignalMessage,
    SignalView,
};
use vstd::prelude::*;

verus! {

/// Why a service does not run.
#[derive(Debug)]
pub enum SignalError {
    ServerRunning,
    Io(String),
    Ws(String),
}

impl SignalError {
    pub open spec fn text_spec(self) -> Seq<char> {
        match self {
            SignalError::ServerRunning => "the Signalling Server is already running"@,
            SignalError::Io(e) => "io error: "@ + e@,
            SignalError::Ws(e) => "failed to connect via ws: "@ + e@,
        }
    }

    /// The error in words.
    pub fn text(&self) -> (r: String)
        ensures
            r@ == self.text_spec(),
    {
        match self {
            SignalError::ServerRunning => "the Signalling Server is already running".to_owned(),
            SignalError::Io(e) => "io error: ".to_owned().concat(e.as_str()),
            SignalError::Ws(e) => "failed to connect via ws: ".to_owned().concat(e.as_str()),
        }
    }
}

/// What a service is made of.
pub struct SignalServerView {
    /// The port that it binds; none in particular where zero.
    pub port: u16,
    /// Its address while it runs.
    pub info: Option<SignalView>,
    pub id: Seq<u8>,
    /// The secret that it signs with.
    pub key: Seq<u8>,
}

/// A signalling service.
pub struct Signal {
    port: u16,
    info: Option<SignalInfo>,
    id: PeerIndex,
    key: SigningKey,
}

impl View for Signal {
    type V = SignalServerView;

    closed spec fn view(&self) -> SignalServerView {
        SignalServerView {
            port: self.port,
            info: match self.info {
                Some(info) => Some(info@),
                None => None,
            },
            id: self.id@,
            key: self.key@,
        }
    }
}

impl Signal {
    /// A service that does not run yet.
    pub fn new(port: u16, id: PeerIndex, key: SigningKey) -> (r: Signal)
        ensures
            r@ == (SignalServerView { port, info: None, id: id@, key: key@ }),
    {
        Signal { port, info: None, id, key }
    }

    /// The port to bind in order to run; a service that runs binds none.
    pub fn port_to_bind(&self) -> (r: Result<u16, SignalError>)
        ensures
            r == (if self@.info is Some {
                Err::<u16, SignalError>(SignalError::ServerRunning)
            } else {
                Ok(self@.port)
            }),
    {
        if self.info.is_some() {
            Err(SignalError::ServerRunning)
        } else {
            Ok(self.port)
        }
    }

    /// Runs from now on under `host` and the port that was bound, which differs
    /// from the one asked for where that was zero.
    pub fn run(&mut self, host: &str, bound: Result<u16, String>) -> (r: Result<
        ServerInfo,
        SignalError,
    >)
        ensures
            old(self)@.info is Some ==> r == Err::<ServerInfo, SignalError>(
                SignalError::ServerRunning,
            ) && final(self)@ == old(self)@,
            old(self)@.info is None ==> match bound {
                Err(e) => r == Err::<ServerInfo, SignalError>(SignalError::Io(e)) && final(self)@
                    == old(self)@,
                Ok(port) => {
                    let own = SignalView { host: host@, port, id: old(self)@.id };
                    &&& r matches Ok(server) && server@ == ServerView::starting(own)
                    &&& final(self)@ == (SignalServerView { info: Some(own), ..old(self)@ })
                },
            },
    {
        if self.info.is_some() {
            return Err(SignalError::ServerRunning);
        }
        match bound {
            Ok(port) => {
                let own = SignalInfo { addr: (host.to_owned(), port), id: self.id };
                self.info = Some(own.clone());
                Ok(ServerInfo::new(own))
            },
            Err(e) => Err(SignalError::Io(e)),
        }
    }

    /// Ends the service, and tells whether it ran: then its tasks are to be
    /// cancelled.
    pub fn shutdown(&mut self) -> (r: bool)
        ensures
            r == (old(self)@.info is Some),
            final(self)@ == (SignalServerView { info: None, ..old(self)@ }),
    {
        let ran: bool = self.info.is_some();
        self.info = None;
        ran
    }

    /// The service's address while it runs.
    pub fn info(&self) -> (r: Option<SignalInfo>)
        ensures
            match r {
                Some(info) => self@.info == Some(info@),
                None => self@.info is None,
            },
    {
        match &self.info {
            Some(info) => Some(info.clone()),
            None => None,
        }
    }

    /// Where a service dials another one.
    pub fn dial_url(sig: &SignalInfo) -> (r: String)
        ensures
            r@ == sig@.url("ws"@) + "/signal"@,
    {
        sig.to_ws().concat("/signal")
    }

    /// Signs what one of the service's values was encoded to.
    pub fn sign<E>(&self, encoded: Result<Vec<u8>, E>) -> (r: Result<Message, FromError<E>>)
        ensures
            encoded matches Err(e) ==> r == Err::<Message, FromError<E>>(FromError::Encode(e)),
            encoded matches Ok(content) ==> match r {
                Ok(m) => {
                    &&& m.content == content
                    &&& m.made_by(self@.key, content@)
                    &&& message::clock_reads(Ok(m.timestamp))
                    &&& message::nonce_drawn(m.nonce)
                },
                Err(e) => e matches FromError::Clock(c) && message::clock_reads(Err(c)),
            },
            r matches Ok(m) ==> !keys::neutral_commitment(m.sig@) ==> m.authentic(),
    {
        Message::from(encoded, &self.key)
    }
}

/// What signalling services tell each other.
#[derive(Debug)]
pub enum SignalToSignal {
    /// Something for a peer of the other service.
    Signal(Box<SignalMessage>),
    /// A change of this service's peers.
    State(PeerSignalStateChange),
}

/// What the dialed service says first to the one that dialed it.
#[derive(Debug)]
pub struct InitSignalToSignalClient {
    pub known_signals: Vec<SignalInfo>,
    pub all: PeerSignalStateChange,
}

/// What a service says first to the one that it dialed.
#[derive(Debug)]
pub struct InitSignalClientToSignal {
    pub known_signals: Vec<SignalInfo>,
    pub all: PeerSignalStateChange,
    pub me: SignalInfo,
}

/// What a running service knows.
pub struct ServerView {
    /// Its own address.
    pub own: SignalView,
    /// Which peer is at which service, by what the services have announced.
    pub roster: SigPeersView,
    /// Its connections to peers.
    pub peers: Map<Seq<u8>, u64>,
    /// Its connections to other services.
    pub signals: Map<SignalView, u64>,
}

/// A connection that a message is handed to.
#[derive(Debug, Clone, Copy, PartialEq, Eq, Structural)]
pub enum Route {
    Peer(u64),
    Signal(u64),
}

impl ServerView {
    pub open spec fn starting(own: SignalView) -> ServerView {
        ServerView {
            own,
            roster: SigPeersView::empty(),
            peers: Map::empty(),
            signals: Map::empty(),
        }
    }

    /// Whether a service that someone knows of is to be dialed.
    pub open spec fn is_news(self, sig: SignalView) -> bool {
        sig != self.own && !self.roster.sigs.contains_key(sig)
    }

    /// Those of the services that are to be dialed.
    pub open spec fn news(self, known: Seq<SignalInfo>) -> Seq<SignalInfo> {
        known.filter(|sig: SignalInfo| self.is_news(sig@))
    }

    /// The connection through which a peer is reached: its own, or that of the
    /// service that it is at.
    pub open spec fn route(self, to: Seq<u8>) -> Option<Route> {
        if self.peers.contains_key(to) {
            Some(Route::Peer(self.peers[to]))
        } else if self.roster.peers.contains_key(to) && self.signals.contains_key(
            self.roster.peers[to],
        ) {
            Some(Route::Signal(self.signals[self.roster.peers[to]]))
        } else {
            None
        }
    }

    /// What becomes of an event on the connection of the client `origin`.
    pub open spec fn client_step(
        self,
        origin: Seq<u8>,
        event: LinkEvent<SignalMessage>,
    ) -> ServerStep {
        match event {
            LinkEvent::Cancelled => ServerStep::Stop,
            LinkEvent::Frame(Frame::Ended) => ServerStep::Stop,
            LinkEvent::Frame(Frame::Close) => ServerStep::Stop,
            LinkEvent::Frame(Frame::Data(data)) => match wire::opened(data) {
                None => ServerStep::Skip,
                Some((message, content)) => if content.origin@ == origin && message.origin@ == origin
                    && message.authentic() {
                    match self.route(content.to@) {
                        Some(route) => ServerStep::Deliver(route, content),
                        None => ServerStep::Skip,
                    }
                } else {
                    ServerStep::Skip
                },
            },
        }
    }

    /// What becomes of an event on the connection of the service `id`.
    pub open spec fn signal_step(self, id: Seq<u8>, event: LinkEvent<SignalToSignal>) -> ServerStep {
        match event {
            LinkEvent::Cancelled => ServerStep::Stop,
            LinkEvent::Frame(Frame::Ended) => ServerStep::Stop,
            LinkEvent::Frame(Frame::Close) => ServerStep::Stop,
            LinkEvent::Frame(Frame::Data(data)) => match wire::opened(data) {
                None => ServerStep::Skip,
                Some((message, content)) => if message.origin@ == id && message.authentic() {
                    match content {
                        SignalToSignal::Signal(sig) => if self.peers.contains_key(sig.to@) {
                            ServerStep::Deliver(Route::Peer(self.peers[sig.to@]), *sig)
                        } else {
                            ServerStep::Skip
                        },
                        SignalToSignal::State(change) => ServerStep::Apply(change),
                    }
                } else {
                    ServerStep::Skip
                },
            },
        }
    }
}

/// What a service does with an event on one of its connections.
pub enum ServerStep {
    /// Stop reading, and end the connection.
    Stop,
    /// Wait for the next event.
    Skip,
    /// Hand the message to this connection, whether or not it takes it.
    Deliver(Route, SignalMessage),
    /// Bring the table of peers up to date.
    Apply(PeerSignalStateChange),
}

/// The connection of a client whose first message was authentic.
#[derive(Debug, Clone, Copy)]
pub struct ClientLink {
    origin: PeerIndex,
}

impl View for ClientLink {
    type V = Seq<u8>;

    closed spec fn view(&self) -> Seq<u8> {
        self.origin@
    }
}

/// The connection of another service whose first message was authentic.
#[derive(Debug)]
pub struct SignalLink {
    origin: SignalInfo,
}

impl View for SignalLink {
    type V = SignalView;

    closed spec fn view(&self) -> SignalView {
        self.origin@
    }
}

impl ClientLink {
    /// The client.
    pub fn origin(&self) -> (r: PeerIndex)
        ensures
            r@ == self@,
    {
        self.origin
    }
}

impl SignalLink {
    /// The other service.
    pub fn origin(&self) -> (r: SignalInfo)
        ensures
            r@ == self@,
    {
        self.origin.clone()
    }
}

impl Clone for SignalLink {
    fn clone(&self) -> (r: Self)
        ensures
            r == *self,
    {
        SignalLink { origin: self.origin.clone() }
    }
}

/// A client that has been accepted.
pub struct AcceptedClient {
    pub link: ClientLink,
    /// The services to dial.
    pub dial: Vec<SignalInfo>,
    /// What the other services are told.
    pub announce: PeerSignalStateChange,
}

/// Another service that has been accepted.
pub struct AcceptedSignal {
    pub link: SignalLink,
    /// The services to dial.
    pub dial: Vec<SignalInfo>,
    /// What the other service says of its peers.
    pub state: PeerSignalStateChange,
}

/// Why another service is not accepted.
#[derive(Debug)]
pub enum SignalRefused {
    Handshake(SignalCError),
    /// Its first message does not decode.
    Decode(DecodeError<String>),
}

/// What a running service knows.
#[derive(Debug)]
pub struct ServerInfo {
    signal_info: SignalInfo,
    sigs_peers: SigPeers,
    signal_conns: SignalConns,
    peer_conns: PeerConns,
}

impl View for ServerInfo {
    type V = ServerView;

    closed spec fn view(&self) -> ServerView {
        ServerView {
            own: self.signal_info@,
            roster: self.sigs_peers@,
            peers: self.peer_conns@,
            signals: self.signal_conns@,
        }
    }
}

impl ServerInfo {
    /// A service that has just begun to run.
    pub fn new(signal_info: SignalInfo) -> (r: ServerInfo)
        ensures
            r@ == ServerView::starting(signal_info@),
            r@.roster.consistent(),
    {
        ServerInfo {
            signal_info,
            sigs_peers: SigPeers::new(),
            signal_conns: SignalConns::new(),
            peer_conns: PeerConns::new(),
        }
    }

    /// What a client is told first: the services that have announced peers.
    pub fn greet_client(&self) -> (r: InitSigToClient)
        ensures
            collections::views(r.known_signals@).no_duplicates(),
            collections::views(r.known_signals@).to_set() == self@.roster.sigs.dom(),
    {
        InitSigToClient { known_signals: self.sigs_peers.known_signals() }
    }

    /// All peers that are connected to this service.
    fn own_peers(&self) -> (r: PeerSignalStateChange)
        ensures
            r matches PeerSignalStateChange::All(peers, sig) && collections::views(
                peers@,
            ).no_duplicates() && collections::views(peers@).to_set() == self@.peers.dom() && sig@
                == self@.own,
    {
        PeerSignalStateChange::All(self.peer_conns.peers(), self.signal_info.clone())
    }

    /// What a service that was dialed is told first.
    pub fn greet_dialed(&self) -> (r: InitSignalClientToSignal)
        ensures
            r.me@ == self@.own,
            collections::views(r.known_signals@).no_duplicates(),
            collections::views(r.known_signals@).to_set() == self@.roster.sigs.dom(),
            r.all matches PeerSignalStateChange::All(peers, sig) && collections::views(
                peers@,
            ).no_duplicates() && collections::views(peers@).to_set() == self@.peers.dom() && sig@
                == self@.own,
    {
        InitSignalClientToSignal {
            known_signals: self.sigs_peers.known_signals(),
            all: self.own_peers(),
            me: self.signal_info.clone(),
        }
    }

    /// What a service that dialed is told first.
    pub fn greet_dialer(&self) -> (r: InitSignalToSignalClient)
        ensures
            collections::views(r.known_signals@).no_duplicates(),
            collections::views(r.known_signals@).to_set() == self@.roster.sigs.dom(),
            r.all matches PeerSignalStateChange::All(peers, sig) && collections::views(
                peers@,
            ).no_duplicates() && collections::views(peers@).to_set() == self@.peers.dom() && sig@
                == self@.own,
    {
        InitSignalToSignalClient {
            known_signals: self.sigs_peers.known_signals(),
            all: self.own_peers(),
        }
    }

    fn news(&self, known: &Vec<SignalInfo>) -> (r: Vec<SignalInfo>)
        ensures
            r@ == self@.news(known@),
    {
        let ghost pred = |sig: SignalInfo| self@.is_news(sig@);
        let mut r: Vec<SignalInfo> = Vec::new();
        let mut i: usize = 0;
        proof {
            reveal(Seq::filter);
            assert(known@.take(0).filter(pred) =~= Seq::<SignalInfo>::empty());
        }
        while i < known.len()
            invariant
                i <= known@.len(),
                pred == (|sig: SignalInfo| self@.is_news(sig@)),
                r@ == known@.take(i as int).filter(pred),
            decreases known@.len() - i,
        {
            proof {
                reveal(Seq::filter);
                assert(known@.take(i + 1).drop_last() =~= known@.take(i as int));
                assert(known@.take(i + 1).last() == known@[i as int]);
            }
            if !known[i].same(&self.signal_info) && !self.sigs_peers.knows(&known[i]) {
                r.push(known[i].clone());
            }
            i += 1;
        }
        assert(known@.take(i as int) =~= known@);
        r
    }

    /// Judges a client's first message. An authentic one is accepted: the
    /// services that it names and that are news are to be dialed, and the other
    /// services are told that the client is here.
    pub fn accept_client(&self, frame: Frame<InitClientToSig>) -> (r: Result<
        AcceptedClient,
        SignalCError,
    >)
        ensures
            match frame {
                Frame::Ended | Frame::Close => r == Err::<AcceptedClient, SignalCError>(
                    SignalCError::NoHandshake,
                ),
                Frame::Data(data) => match wire::opened(data) {
                    None => r == Err::<AcceptedClient, SignalCError>(
                        SignalCError::InvailedHandshake(wire::undecoded(data)),
                    ),
                    Some((message, content)) => if message.authentic() {
                        &&& r matches Ok(accepted)
                        &&& accepted.link@ == message.origin@
                        &&& accepted.dial@ == self@.news(content.known_signals@)
                        &&& accepted.announce matches PeerSignalStateChange::Connect(peer, sig)
                        &&& peer == message.origin
                        &&& sig@ == self@.own
                    } else {
                        r == Err::<AcceptedClient, SignalCError>(SignalCError::Untrust)
                    },
                },
            },
    {
        match frame {
            Frame::Ended => Err(SignalCError::NoHandshake),
            Frame::Close => Err(SignalCError::NoHandshake),
            Frame::Data(data) => match open(data) {
                Err(e) => Err(SignalCError::InvailedHandshake(e)),
                Ok(message) => if !message.verify_result {
                    Err(SignalCError::Untrust)
                } else {
                    Ok(
                        AcceptedClient {
                            link: ClientLink { origin: message.origin },
                            dial: self.news(&message.content.known_signals),
                            announce: PeerSignalStateChange::Connect(
                                message.origin,
                                self.signal_info.clone(),
                            ),
                        },
                    )
                },
            },
        }
    }

    /// Judges the first message of a service that was dialed as `to`: it has to
    /// be authentic and from that service itself.
    pub fn accept_dialed(
        &self,
        to: SignalInfo,
        frame: Frame<InitSignalToSignalClient>,
    ) -> (r: Result<AcceptedSignal, SignalRefused>)
        ensures
            match frame {
                Frame::Ended | Frame::Close => r == Err::<AcceptedSignal, SignalRefused>(
                    SignalRefused::Handshake(SignalCError::NoHandshake),
                ),
                Frame::Data(data) => match wire::opened(data) {
                    None => r == Err::<AcceptedSignal, SignalRefused>(
                        SignalRefused::Decode(wire::undecoded(data)),
                    ),
                    Some((message, content)) => if message.authentic() && message.origin@ == to.id@ {
                        &&& r matches Ok(accepted)
                        &&& accepted.link@ == to@
                        &&& accepted.dial@ == self@.news(content.known_signals@)
                        &&& accepted.state == content.all
                    } else {
                        r == Err::<AcceptedSignal, SignalRefused>(
                            SignalRefused::Handshake(SignalCError::Untrust),
                        )
                    },
                },
            },
    {
        match frame {
            Frame::Ended => Err(SignalRefused::Handshake(SignalCError::NoHandshake)),
            Frame::Close => Err(SignalRefused::Handshake(SignalCError::NoHandshake)),
            Frame::Data(data) => match open(data) {
                Err(e) => Err(SignalRefused::Decode(e)),
                Ok(message) => if !message.origin.same(&to.id) || !message.verify_result {
                    Err(SignalRefused::Handshake(SignalCError::Untrust))
                } else {
                    let dial: Vec<SignalInfo> = self.news(&message.content.known_signals);
                    Ok(
                        AcceptedSignal {
                            link: SignalLink { origin: to },
                            dial,
                            state: message.content.all,
                        },
                    )
                },
            },
        }
    }

    /// Judges the first message of a service that dialed: it has to be
    /// authentic, and says itself which service it is from.
    pub fn accept_dialer(&self, frame: Frame<InitSignalClientToSignal>) -> (r: Result<
        AcceptedSignal,
        SignalRefused,
    >)
        ensures
            match frame {
                Frame::Ended | Frame::Close => r == Err::<AcceptedSignal, SignalRefused>(
                    SignalRefused::Handshake(SignalCError::NoHandshake),
                ),
                Frame::Data(data) => match wire::opened(data) {
                    None => r == Err::<AcceptedSignal, SignalRefused>(
                        SignalRefused::Decode(wire::undecoded(data)),
                    ),
                    Some((message, content)) => if message.authentic() {
                        &&& r matches Ok(accepted)
                        &&& accepted.link@ == content.me@
                        &&& accepted.dial@ == self@.news(content.known_signals@)
                        &&& accepted.state == content.all
                    } else {
                        r == Err::<AcceptedSignal, SignalRefused>(
                            SignalRefused::Handshake(SignalCError::Untrust),
                        )
                    },
                },
            },
    {
        match frame {
            Frame::Ended => Err(SignalRefused::Handshake(SignalCError::NoHandshake)),
            Frame::Close => Err(SignalRefused::Handshake(SignalCError::NoHandshake)),
            Frame::Data(data) => match open(data) {
                Err(e) => Err(SignalRefused::Decode(e)),
                Ok(message) => if !message.verify_result {
                    Err(SignalRefused::Handshake(SignalCError::Untrust))
                } else {
                    let dial: Vec<SignalInfo> = self.news(&message.content.known_signals);
                    Ok(
                        AcceptedSignal {
                            link: SignalLink { origin: message.content.me },
                            dial,
                            state: message.content.all,
                        },
                    )
                },
            },
        }
    }

    /// Enters a client's connection.
    pub fn client_connected(&mut self, link: &ClientLink, conn: u64)
        ensures
            final(self)@ == (ServerView {
                peers: old(self)@.peers.insert(link@, conn),
                ..old(self)@
            }),
    {
        self.peer_conns.insert(link.origin, conn);
    }

    /// Strikes out a client's connection, and returns what the other services
    /// are told.
    pub fn client_gone(&mut self, link: ClientLink) -> (r: PeerSignalStateChange)
        ensures
            final(self)@ == (ServerView { peers: old(self)@.peers.remove(link@), ..old(self)@ }),
            r matches PeerSignalStateChange::DisConnect(peer, sig) && peer@ == link@ && sig@
                == old(self)@.own,
    {
        self.peer_conns.remove(&link.origin);
        PeerSignalStateChange::DisConnect(link.origin, self.signal_info.clone())
    }

    /// Enters the connection of another service.
    pub fn signal_connected(&mut self, link: &SignalLink, conn: u64)
        ensures
            final(self)@ == (ServerView {
                signals: old(self)@.signals.insert(link@, conn),
                ..old(self)@
            }),
    {
        self.signal_conns.insert(link.origin.clone(), conn);
    }

    /// Strikes out the connection of another service.
    pub fn signal_gone(&mut self, link: SignalLink)
        ensures
            final(self)@ == (ServerView {
                signals: old(self)@.signals.remove(link@),
                ..old(self)@
            }),
    {
        self.signal_conns.remove(&link.origin);
    }

    /// Brings the table of peers up to date with an announcement.
    pub fn apply(&mut self, change: PeerSignalStateChange)
        ensures
            final(self)@ == (ServerView {
                roster: old(self)@.roster.changed(change),
                ..old(self)@
            }),
            old(self)@.roster.consistent() ==> final(self)@.roster.consistent(),
    {
        handle_peer_signal_state_changes(change, &mut self.sigs_peers);
    }

    fn route(&self, to: &PeerIndex) -> (r: Option<Route>)
        ensures
            r == self@.route(to@),
    {
        match self.peer_conns.get(to) {
            Some(conn) => Some(Route::Peer(conn)),
            None => match self.sigs_peers.signal_of(to) {
                Some(sig) => match self.signal_conns.get(&sig) {
                    Some(conn) => Some(Route::Signal(conn)),
                    None => None,
                },
                None => None,
            },
        }
    }

    /// What becomes of an event on a client's connection. Only what the client
    /// itself signed and wrote is routed.
    pub fn from_client(&self, link: &ClientLink, event: LinkEvent<SignalMessage>) -> (r: ServerStep)
        ensures
            r == self@.client_step(link@, event),
    {
        match event {
            LinkEvent::Cancelled => ServerStep::Stop,
            LinkEvent::Frame(Frame::Ended) => ServerStep::Stop,
            LinkEvent::Frame(Frame::Close) => ServerStep::Stop,
            LinkEvent::Frame(Frame::Data(data)) => match open(data) {
                Err(_) => ServerStep::Skip,
                Ok(message) => {
                    if !message.content.origin.same(&link.origin) {
                        return ServerStep::Skip;
                    }
                    if !message.origin.same(&link.origin) || !message.verify_result {
                        return ServerStep::Skip;
                    }
                    match self.route(&message.content.to) {
                        Some(route) => ServerStep::Deliver(route, message.content),
                        None => ServerStep::Skip,
                    }
                },
            },
        }
    }

    /// What becomes of an event on another service's connection. Only what that
    /// service signed counts; what is for one of this service's own peers is
    /// delivered, and announcements are taken over.
    pub fn from_signal(&self, link: &SignalLink, event: LinkEvent<SignalToSignal>) -> (r: ServerStep)
        ensures
            r == self@.signal_step(link@.id, event),
    {
        match event {
            LinkEvent::Cancelled => ServerStep::Stop,
            LinkEvent::Frame(Frame::Ended) => ServerStep::Stop,
            LinkEvent::Frame(Frame::Close) => ServerStep::Stop,
            LinkEvent::Frame(Frame::Data(data)) => match open(data) {
                Err(_) => ServerStep::Skip,
                Ok(message) => {
                    if !message.origin.same(&link.origin.id) || !message.verify_result {
                        return ServerStep::Skip;
                    }
                    match message.content {
                        SignalToSignal::Signal(sig) => match self.peer_conns.get(&sig.to) {
                            Some(conn) => ServerStep::Deliver(Route::Peer(conn), *sig),
                            None => ServerStep::Skip,
                        },
                        SignalToSignal::State(change) => ServerStep::Apply(change),
                    }
                },
            },
        }
    }
}

/// What a task that writes to another service waits for.
pub enum Outbound {
    /// Something for a peer of that service, or that nothing more will come.
    Message(Option<SignalMessage>),
    /// A change of this service's peers, or that changes were missed or no more
    /// will come.
    Change(Option<PeerSignalStateChange>),
    Cancelled,
}

/// What the task is to do with it.
pub fn outbound(event: Outbound) -> (r: SenderEvent<SignalToSignal>)
    ensures
        r == (match event {
            Outbound::Message(Some(m)) => SenderEvent::Item(SignalToSignal::Signal(Box::new(m))),
            Outbound::Change(Some(change)) => SenderEvent::Item(SignalToSignal::State(change)),
            Outbound::Message(None) | Outbound::Change(None) => SenderEvent::Exhausted,
            Outbound::Cancelled => SenderEvent::Cancelled,
        }),
{
    match event {
        Outbound::Message(Some(m)) => SenderEvent::Item(SignalToSignal::Signal(Box::new(m))),
        Outbound::Message(None) => SenderEvent::Exhausted,
        Outbound::Change(Some(change)) => SenderEvent::Item(SignalToSignal::State(change)),
        Outbound::Change(None) => SenderEvent::Exhausted,
        Outbound::Cancelled => SenderEvent::Cancelled,
    }
}

/// What is delivered for a client is its own word: the client wrote it, and a
/// message that the client signed held it.
pub proof fn only_the_clients_word_is_delivered(
    v: ServerView,
    origin: Seq<u8>,
    event: LinkEvent<SignalMessage>,
    route: Route,
    content: SignalMessage,
)
    requires
        v.client_step(origin, event) == ServerStep::Deliver(route, content),
    ensures
        content.origin@ == origin,
        v.route(content.to@) == Some(route),
        event matches LinkEvent::Frame(Frame::Data(data)) && wire::opened(data) matches Some(
            (message, c),
        ) && c == content && message.origin@ == origin && message.authentic(),
{
}

/// Nothing that a message says is acted on unless the message is authentic and
/// signed by the one at the other end of the connection.
pub proof fn strangers_are_not_heard(
    v: ServerView,
    id: Seq<u8>,
    from_client: wire::Decoded<SignalMessage>,
    from_signal: wire::Decoded<SignalToSignal>,
)
    ensures
        !(wire::opened(from_client) matches Some((message, _)) && message.authentic()
            && message.origin@ == id) ==> v.client_step(
            id,
            LinkEvent::Frame(Frame::Data(from_client)),
        ) == ServerStep::Skip,
        !(wire::opened(from_signal) matches Some((message, _)) && message.authentic()
            && message.origin@ == id) ==> v.signal_step(
            id,
            LinkEvent::Frame(Frame::Data(from_signal)),
        ) == ServerStep::Skip,
{
}

/// A service dials exactly those of the services it is told of that are neither
/// itself nor known to it.
pub proof fn only_news_is_dialed(v: ServerView, known: Seq<SignalInfo>, sig: SignalInfo)
    ensures
        v.news(known).contains(sig) <==> known.contains(sig) && sig@ != v.own
            && !v.roster.sigs.contains_key(sig@),
    decreases known.len(),
{
    reveal(Seq::filter);
    if known.len() > 0 {
        let rest = known.drop_last();
        let last = known.last();
        only_news_is_dialed(v, rest, sig);
        assert(known =~= rest.push(last));
        assert(known.contains(sig) <==> rest.contains(sig) || sig == last) by {
            if rest.contains(sig) {
                let k = choose|k: int| 0 <= k < rest.len() && rest[k] == sig;
                assert(known[k] == sig);
            }
            assert(known[known.len() - 1] == last);
        }
        if v.is_news(last@) {
            let news = v.news(rest).push(last);
            assert(v.news(known) == news);
            assert(news[news.len() - 1] == last);
            if v.news(rest).contains(sig) {
                let k = choose|k: int| 0 <= k < v.news(rest).len() && v.news(rest)[k] == sig;
                assert(news[k] == sig);
            }
        } else {
            assert(v.news(known) == v.news(rest));
        }
    }
}

/// A connected client is reached through its own connection, and through it no
/// longer once it is gone.
pub proof fn clients_are_reached_while_connected(v: ServerView, peer: Seq<u8>, conn: u64)
    ensures
        (ServerView { peers: v.peers.insert(peer, conn), ..v }).route(peer) == Some(
            Route::Peer(conn),
        ),
        !((ServerView { peers: v.peers.remove(peer), ..v }).route(peer) matches Some(
            Route::Peer(_),
        )),
{
}

/// Once another service has named its peers and its connection is entered, what
/// is for one of those peers goes there, unless the peer is here as well.
pub proof fn a_handshake_opens_routes(
    v: ServerView,
    other: SignalView,
    peers: Set<Seq<u8>>,
    conn: u64,
    peer: Seq<u8>,
)
    requires
        v.roster.consistent(),
        peers.contains(peer),
        !v.peers.contains_key(peer),
    ensures
        (ServerView {
            roster: v.roster.all(peers, other),
            signals: v.signals.insert(other, conn),
            ..v
        }).route(peer) == Some(Route::Signal(conn)),
{
    crate::webrtc::signal::roster::all_names_the_peers(v.roster, peers, other);
    assert(v.roster.all(peers, other).peers.contains_key(peer));
}

/// What a client of one service says to a client of another is handed to the
/// other service, and by that service to its client.
pub proof fn messages_cross_services(
    here: ServerView,
    there: ServerView,
    to_there: u64,
    to_peer: u64,
    from_client: wire::Decoded<SignalMessage>,
    from_here: wire::Decoded<SignalToSignal>,
    content: SignalMessage,
)
    requires
        !here.peers.contains_key(content.to@),
        here.roster.peers.contains_key(content.to@),
        here.roster.peers[content.to@] == there.own,
        here.signals.contains_key(there.own),
        here.signals[there.own] == to_there,
        there.peers.contains_key(content.to@),
        there.peers[content.to@] == to_peer,
        wire::opened(from_client) matches Some((message, c)) && c == content
            && message.authentic() && message.origin@ == content.origin@,
        wire::opened(from_here) matches Some((message, c)) && c == SignalToSignal::Signal(
            Box::new(content),
        ) && message.authentic() && message.origin@ == here.own.id,
    ensures
        here.client_step(content.origin@, LinkEvent::Frame(Frame::Data(from_client)))
            == ServerStep::Deliver(Route::Signal(to_there), content),
        there.signal_step(here.own.id, LinkEvent::Frame(Frame::Data(from_here)))
            == ServerStep::Deliver(Route::Peer(to_peer), content),
{
}

/// A service that has just begun knows no peer and no other service.
pub proof fn a_service_begins_alone(own: SignalView, peer: Seq<u8>, other: SignalView)
    ensures
        ServerView::starting(own).own == own,
        !ServerView::starting(own).peers.contains_key(peer),
        !ServerView::starting(own).signals.contains_key(other),
        !ServerView::starting(own).roster.peers.contains_key(peer),
        !ServerView::starting(own).roster.sigs.contains_key(other),
        ServerView::starting(own).route(peer) is None,
{
}

/// A peer that is connected here is reached through its own connection; one that
/// is not, through the connection of the service that it is at; and there is no
/// other way.
pub proof fn every_peer_has_one_route(v: ServerView, to: Seq<u8>)
    ensures
        v.peers.contains_key(to) ==> v.route(to) == Some(Route::Peer(v.peers[to])),
        !v.peers.contains_key(to) && v.roster.peers.contains_key(to) && v.signals.contains_key(
            v.roster.peers[to],
        ) ==> v.route(to) == Some(Route::Signal(v.signals[v.roster.peers[to]])),
        !v.peers.contains_key(to) && !(v.roster.peers.contains_key(to) && v.signals.contains_key(
            v.roster.peers[to],
        )) ==> v.route(to) is None,
{
}

/// What an authentic frame of a client says in the client's own name is
/// delivered, whatever it is: to the peer that it is for, where that is connected
/// here; else to the service that the peer is at, where that is connected. Only
/// where neither is, it is passed over.
pub proof fn a_clients_word_is_delivered(
    v: ServerView,
    origin: Seq<u8>,
    message: Message,
    content: SignalMessage,
    read: usize,
)
    requires
        read == message.content@.len(),
        keys::ed25519_verify_strict(
            message.origin@,
            message.content@ + message::be_bytes(message.timestamp) + message.nonce@,
            message.sig@,
        ),
        message.origin@ == origin,
        content.origin@ == origin,
    ensures
        ({
            let step = v.client_step(
                origin,
                LinkEvent::Frame(Frame::Data(Ok((message, Ok((content, read)))))),
            );
            let to = content.to@;
            &&& v.peers.contains_key(to) ==> step == ServerStep::Deliver(
                Route::Peer(v.peers[to]),
                content,
            )
            &&& !v.peers.contains_key(to) && v.roster.peers.contains_key(to)
                && v.signals.contains_key(v.roster.peers[to]) ==> step == ServerStep::Deliver(
                Route::Signal(v.signals[v.roster.peers[to]]),
                content,
            )
            &&& !v.peers.contains_key(to) && !(v.roster.peers.contains_key(to)
                && v.signals.contains_key(v.roster.peers[to])) ==> step == ServerStep::Skip
            &&& v.route(to) matches Some(route) ==> step == ServerStep::Deliver(route, content)
        }),
{
    message::only_the_authors_signature_is_authentic(message);
}

/// What another service says in an authentic frame of its own counts: what is for
/// a peer that is connected here is delivered to that peer, whatever it is and
/// whoever it is from; what is for any other peer is passed over, and is not sent
/// on to a third service; a change of its peers is taken over as it is.
pub proof fn a_services_word_counts(
    v: ServerView,
    id: Seq<u8>,
    message: Message,
    content: SignalToSignal,
    read: usize,
)
    requires
        read == message.content@.len(),
        keys::ed25519_verify_strict(
            message.origin@,
            message.content@ + message::be_bytes(message.timestamp) + message.nonce@,
            message.sig@,
        ),
        message.origin@ == id,
    ensures
        ({
            let step = v.signal_step(
                id,
                LinkEvent::Frame(Frame::Data(Ok((message, Ok((content, read)))))),
            );
            &&& content matches SignalToSignal::Signal(inner) ==> if v.peers.contains_key(
                inner.to@,
            ) {
                step == ServerStep::Deliver(Route::Peer(v.peers[inner.to@]), *inner)
            } else {
                step == ServerStep::Skip
            }
            &&& content matches SignalToSignal::State(change) ==> step == ServerStep::Apply(change)
        }),
{
    message::only_the_authors_signature_is_authentic(message);
}

/// A frame that does not decode to its end, whose signature fails, or that
/// another than the one at the other end signed is passed over, and reading goes
/// on; so is one in which a client speaks for someone else.
pub proof fn what_is_not_their_word_is_passed_over(
    v: ServerView,
    id: Seq<u8>,
    message: Message,
    said: SignalMessage,
    told: SignalToSignal,
    read: usize,
    words: String,
)
    ensures
        !(read == message.content@.len() && keys::ed25519_verify_strict(
            message.origin@,
            message.content@ + message::be_bytes(message.timestamp) + message.nonce@,
            message.sig@,
        ) && message.origin@ == id) ==> {
            &&& v.client_step(id, LinkEvent::Frame(Frame::Data(Ok((message, Ok((said, read)))))))
                == ServerStep::Skip
            &&& v.signal_step(id, LinkEvent::Frame(Frame::Data(Ok((message, Ok((told, read)))))))
                == ServerStep::Skip
        },
        said.origin@ != id ==> v.client_step(
            id,
            LinkEvent::Frame(Frame::Data(Ok((message, Ok((said, read)))))),
        ) == ServerStep::Skip,
        v.client_step(id, LinkEvent::Frame(Frame::Data(Err(words)))) == ServerStep::Skip,
        v.client_step(id, LinkEvent::Frame(Frame::Data(Ok((message, Err(words))))))
            == ServerStep::Skip,
        v.signal_step(id, LinkEvent::Frame(Frame::Data(Err(words)))) == ServerStep::Skip,
        v.signal_step(id, LinkEvent::Frame(Frame::Data(Ok((message, Err(words))))))
            == ServerStep::Skip,
{
    message::only_the_authors_signature_is_authentic(message);
}

/// A connection is read until the other side ends it or it is cancelled, and no
/// longer; nothing that a frame holds ends it.
pub proof fn connections_are_read_to_their_end(
    v: ServerView,
    id: Seq<u8>,
    said: LinkEvent<SignalMessage>,
    told: LinkEvent<SignalToSignal>,
)
    ensures
        v.client_step(id, said) is Stop <==> !(said matches LinkEvent::Frame(Frame::Data(_))),
        v.signal_step(id, told) is Stop <==> !(told matches LinkEvent::Frame(Frame::Data(_))),
{
}

/// The services to dial are judged one by one and kept in their order: a service
/// is dialed as often as it is named, unless it is this one or has announced
/// peers before.
pub proof fn news_are_judged_one_by_one(
    v: ServerView,
    known: Seq<SignalInfo>,
    more: Seq<SignalInfo>,
    sig: SignalInfo,
)
    ensures
        v.is_news(sig@) <==> sig@ != v.own && !v.roster.sigs.contains_key(sig@),
        v.news(Seq::empty()) == Seq::<SignalInfo>::empty(),
        v.news(seq![sig]) == if sig@ != v.own && !v.roster.sigs.contains_key(sig@) {
            seq![sig]
        } else {
            Seq::empty()
        },
        v.news(known + more) == v.news(known) + v.news(more),
    decreases more.len(),
{
    reveal(Seq::filter);
    let none = Seq::<SignalInfo>::empty();
    assert(v.news(none) =~= none);
    assert(seq![sig].drop_last() =~= none);
    assert(v.news(seq![sig]) =~= if v.is_news(sig@) {
        seq![sig]
    } else {
        none
    });
    if more.len() == 0 {
        assert(more =~= none);
        assert(known + more =~= known);
        assert(v.news(known) + none =~= v.news(known));
    } else {
        let rest = more.drop_last();
        news_are_judged_one_by_one(v, known, rest, sig);
        assert((known + more).drop_last() =~= known + rest);
        assert((known + more).last() == more.last());
        assert(v.news(known + more) =~= v.news(known) + v.news(more));
    }
}

/// Whoever sends an authentic first message is accepted under the name that it
/// signed with, or, if it is another service, under the address that is dialed or
/// that it gives; what it says of its peers is taken over, and the services that
/// it names and that are news are dialed. Whoever does not is refused.
pub proof fn the_authentic_are_accepted(
    server: &ServerInfo,
    message: Message,
    read: usize,
    to: SignalInfo,
    client: (InitClientToSig, Result<AcceptedClient, SignalCError>),
    dialed: (InitSignalToSignalClient, Result<AcceptedSignal, SignalRefused>),
    dialer: (InitSignalClientToSignal, Result<AcceptedSignal, SignalRefused>),
)
    requires
        read == message.content@.len(),
        call_ensures(
            ServerInfo::accept_client,
            (server, Frame::Data(Ok((message, Ok((client.0, read)))))),
            client.1,
        ),
        call_ensures(
            ServerInfo::accept_dialed,
            (server, to, Frame::Data(Ok((message, Ok((dialed.0, read)))))),
            dialed.1,
        ),
        call_ensures(
            ServerInfo::accept_dialer,
            (server, Frame::Data(Ok((message, Ok((dialer.0, read)))))),
            dialer.1,
        ),
    ensures
        ({
            let signed = keys::ed25519_verify_strict(
                message.origin@,
                message.content@ + message::be_bytes(message.timestamp) + message.nonce@,
                message.sig@,
            );
            &&& client.1 is Ok <==> signed
            &&& dialed.1 is Ok <==> signed && message.origin@ == to.id@
            &&& dialer.1 is Ok <==> signed
        }),
        client.1 matches Ok(accepted) ==> {
            &&& accepted.link@ == message.origin@
            &&& accepted.dial@ == server@.news(client.0.known_signals@)
            &&& accepted.announce matches PeerSignalStateChange::Connect(peer, sig) && peer@
                == message.origin@ && sig@ == server@.own
        },
        dialed.1 matches Ok(accepted) ==> accepted.link@ == to@ && accepted.state == dialed.0.all
            && accepted.dial@ == server@.news(dialed.0.known_signals@),
        dialer.1 matches Ok(accepted) ==> accepted.link@ == dialer.0.me@ && accepted.state
            == dialer.0.all && accepted.dial@ == server@.news(dialer.0.known_signals@),
{
    message::only_the_authors_signature_is_authentic(message);
    wire::a_frame_read_to_its_end_opens(message, client.0, read);
    wire::a_frame_read_to_its_end_opens(message, dialed.0, read);
    wire::a_frame_read_to_its_end_opens(message, dialer.0, read);
}

/// Where another party's error is the reason, its words end the text, behind the
/// same words each time.
pub proof fn service_errors_keep_the_reason(a: String, none: String)
    requires
        none@.len() == 0,
    ensures
        SignalError::Io(a).text_spec() == SignalError::Io(none).text_spec() + a@,
        SignalError::Ws(a).text_spec() == SignalError::Ws(none).text_spec() + a@,
{
    assert(SignalError::Io(a).text_spec() =~= SignalError::Io(none).text_spec() + a@);
    assert(SignalError::Ws(a).text_spec() =~= SignalError::Ws(none).text_spec() + a@);
}

/// From when a client's connection is entered, what another client says to it in
/// an authentic frame of its own is handed to that connection, whatever it is.
pub proof fn clients_of_one_service_hear_each_other(
    entering: &mut ServerInfo,
    server: &ServerInfo,
    hearer: &ClientLink,
    conn: u64,
    speaker: &ClientLink,
    message: Message,
    content: SignalMessage,
    read: usize,
    step: ServerStep,
)
    requires
        call_ensures(ServerInfo::client_connected, (entering, hearer, conn), ()),
        *server == *final(entering),
        read == message.content@.len(),
        keys::ed25519_verify_strict(
            message.origin@,
            message.content@ + message::be_bytes(message.timestamp) + message.nonce@,
            message.sig@,
        ),
        message.origin@ == speaker@,
        content.origin@ == speaker@,
        content.to@ == hearer@,
        call_ensures(
            ServerInfo::from_client,
            (server, speaker, LinkEvent::Frame(Frame::Data(Ok((message, Ok((content, read))))))),
            step,
        ),
    ensures
        step == ServerStep::Deliver(Route::Peer(conn), content),
{
    a_clients_word_is_delivered(server@, speaker@, message, content, read);
}

/// What a service does with an event of a client is to hand on the client's own
/// word to where its peer is, and nothing else: a frame leads to no change of the
/// table, and only the end of the connection ends the reading.
pub proof fn a_client_is_heard_and_no_more(
    server: &ServerInfo,
    link: &ClientLink,
    event: LinkEvent<SignalMessage>,
    step: ServerStep,
)
    requires
        call_ensures(ServerInfo::from_client, (server, link, event), step),
    ensures
        !(step is Apply),
        step is Stop <==> !(event matches LinkEvent::Frame(Frame::Data(_))),
        step matches ServerStep::Deliver(route, content) ==> content.origin@ == link@ && (event
            matches LinkEvent::Frame(Frame::Data(Ok((message, Ok((said, read)))))) && said
            == content && read == message.content@.len() && message.origin@ == link@
            && keys::ed25519_verify_strict(
            message.origin@,
            message.content@ + message::be_bytes(message.timestamp) + message.nonce@,
            message.sig@,
        )) && (route == Route::Peer(server@.peers[content.to@]) && server@.peers.contains_key(
            content.to@,
        ) || route == Route::Signal(server@.signals[server@.roster.peers[content.to@]])
            && !server@.peers.contains_key(content.to@) && server@.roster.peers.contains_key(
            content.to@,
        ) && server@.signals.contains_key(server@.roster.peers[content.to@])),
        event matches LinkEvent::Frame(Frame::Data(Ok((message, Ok((said, read)))))) ==> (read
            == message.content@.len() && message.origin@ == link@ && said.origin@ == link@
            && keys::ed25519_verify_strict(
            message.origin@,
            message.content@ + message::be_bytes(message.timestamp) + message.nonce@,
            message.sig@,
        ) && (server@.peers.contains_key(said.to@) || (server@.roster.peers.contains_key(said.to@)
            && server@.signals.contains_key(server@.roster.peers[said.to@]))) <==> step is Deliver),
{
    match event {
        LinkEvent::Frame(Frame::Data(Ok((message, Ok((said, read)))))) => {
            message::only_the_authors_signature_is_authentic(message);
            if read == message.content@.len() {
                wire::a_frame_read_to_its_end_opens(message, said, read);
            }
            every_peer_has_one_route(server@, said.to@);
        },
        _ => {},
    }
}

/// What a service does with an event of another service: what is for one of its
/// own peers is handed to that peer, a change is taken over, and nothing goes on
/// to a third service.
pub proof fn another_service_is_heard_and_no_more(
    server: &ServerInfo,
    link: &SignalLink,
    event: LinkEvent<SignalToSignal>,
    step: ServerStep,
)
    requires
        call_ensures(ServerInfo::from_signal, (server, link, event), step),
    ensures
        step is Stop <==> !(event matches LinkEvent::Frame(Frame::Data(_))),
        event matches LinkEvent::Frame(Frame::Data(Ok((message, Ok((told, read)))))) ==> {
            let heard = read == message.content@.len() && message.origin@ == link@.id
                && keys::ed25519_verify_strict(
                message.origin@,
                message.content@ + message::be_bytes(message.timestamp) + message.nonce@,
                message.sig@,
            );
            &&& !heard ==> step == ServerStep::Skip
            &&& heard && told is State ==> step == ServerStep::Apply(told->State_0)
            &&& heard && told is Signal ==> if server@.peers.contains_key(told->Signal_0.to@) {
                step == ServerStep::Deliver(
                    Route::Peer(server@.peers[told->Signal_0.to@]),
                    *told->Signal_0,
                )
            } else {
                step == ServerStep::Skip
            }
        },
        event matches LinkEvent::Frame(Frame::Data(Ok((_, Err(_))))) ==> step == ServerStep::Skip,
        event matches LinkEvent::Frame(Frame::Data(Err(_))) ==> step == ServerStep::Skip,
{
    match event {
        LinkEvent::Frame(Frame::Data(Ok((message, Ok((told, read)))))) => {
            message::only_the_authors_signature_is_authentic(message);
            if read == message.content@.len() {
                wire::a_frame_read_to_its_end_opens(message, told, read);
            }
        },
        _ => {},
    }
}

/// What is handed to the connection of another service, and every change of this
/// service's peers, goes out as it is; the task ends where either ends or it is
/// cancelled.
pub proof fn everything_goes_out(
    message: SignalMessage,
    change: PeerSignalStateChange,
    event: Outbound,
    sent: SenderEvent<SignalToSignal>,
)
    requires
        call_ensures(outbound, (event,), sent),
    ensures
        event == Outbound::Message(Some(message)) ==> sent == SenderEvent::Item(
            SignalToSignal::Signal(Box::new(message)),
        ),
        event == Outbound::Change(Some(change)) ==> sent == SenderEvent::Item(
            SignalToSignal::State(change),
        ),
        event == Outbound::Message(None) || event == Outbound::Change(None) ==> sent is Exhausted,
        event is Cancelled ==> sent is Cancelled,
{
}

/// A connection that is entered is the one that its peer or service has from then
/// on, and the others keep theirs; once it is struck out it has none. The rest of
/// what the service knows stays.
pub proof fn connections_are_entered_and_struck_out_one_by_one(
    a: &mut ServerInfo,
    b: &mut ServerInfo,
    c: &mut ServerInfo,
    d: &mut ServerInfo,
    client: ClientLink,
    signal: SignalLink,
    conn: u64,
    told: PeerSignalStateChange,
    other: Seq<u8>,
    elsewhere: SignalView,
)
    requires
        call_ensures(ServerInfo::client_connected, (a, &client, conn), ()),
        call_ensures(ServerInfo::client_gone, (b, client), told),
        call_ensures(ServerInfo::signal_connected, (c, &signal, conn), ()),
        call_ensures(ServerInfo::signal_gone, (d, signal), ()),
        other != client@,
        elsewhere != signal@,
    ensures
        final(a)@.peers.contains_key(client@) && final(a)@.peers[client@] == conn,
        final(a)@.peers.contains_key(other) == old(a)@.peers.contains_key(other),
        final(a)@.peers[other] == old(a)@.peers[other],
        final(a)@.own == old(a)@.own && final(a)@.roster == old(a)@.roster && final(a)@.signals
            == old(a)@.signals,
        !final(b)@.peers.contains_key(client@),
        final(b)@.peers.contains_key(other) == old(b)@.peers.contains_key(other),
        old(b)@.peers.contains_key(other) ==> final(b)@.peers[other] == old(b)@.peers[other],
        final(b)@.own == old(b)@.own && final(b)@.roster == old(b)@.roster && final(b)@.signals
            == old(b)@.signals,
        told matches PeerSignalStateChange::DisConnect(peer, sig) && peer@ == client@ && sig@
            == old(b)@.own,
        final(c)@.signals.contains_key(signal@) && final(c)@.signals[signal@] == conn,
        final(c)@.signals.contains_key(elsewhere) == old(c)@.signals.contains_key(elsewhere),
        final(c)@.signals[elsewhere] == old(c)@.signals[elsewhere],
        final(c)@.own == old(c)@.own && final(c)@.roster == old(c)@.roster && final(c)@.peers
            == old(c)@.peers,
        !final(d)@.signals.contains_key(signal@),
        final(d)@.signals.contains_key(elsewhere) == old(d)@.signals.contains_key(elsewhere),
        old(d)@.signals.contains_key(elsewhere) ==> final(d)@.signals[elsewhere]
            == old(d)@.signals[elsewhere],
        final(d)@.own == old(d)@.own && final(d)@.roster == old(d)@.roster && final(d)@.peers
            == old(d)@.peers,
{
}

/// A service runs at most once at a time: while it runs it has the address that it
/// was started under, with the port that was bound, and cannot be started again;
/// once it is shut down it has none, and can be. It keeps its key throughout.
pub proof fn a_service_runs_once_at_a_time(
    a: &mut Signal,
    host: &str,
    port: u16,
    started: Result<ServerInfo, SignalError>,
    b: &mut Signal,
    bound: Result<u16, String>,
    again: Result<ServerInfo, SignalError>,
    running: &Signal,
    address: Option<SignalInfo>,
    to_bind: Result<u16, SignalError>,
    c: &mut Signal,
    ran: bool,
    ended: &Signal,
    none: Option<SignalInfo>,
    rebind: Result<u16, SignalError>,
)
    requires
        old(a)@.info is None,
        call_ensures(Signal::run, (a, host, Ok::<u16, String>(port)), started),
        *old(b) == *final(a),
        call_ensures(Signal::run, (b, host, bound), again),
        *running == *final(a),
        call_ensures(Signal::info, (running,), address),
        call_ensures(Signal::port_to_bind, (running,), to_bind),
        *old(c) == *final(a),
        call_ensures(Signal::shutdown, (c,), ran),
        *ended == *final(c),
        call_ensures(Signal::info, (ended,), none),
        call_ensures(Signal::port_to_bind, (ended,), rebind),
    ensures
        started matches Ok(server) && server@.own.host == host@ && server@.own.port == port
            && server@.own.id == old(a)@.id,
        again == Err::<ServerInfo, SignalError>(SignalError::ServerRunning),
        final(b)@ == old(b)@,
        address matches Some(sig) && sig@.host == host@ && sig@.port == port && sig@.id
            == old(a)@.id,
        to_bind == Err::<u16, SignalError>(SignalError::ServerRunning),
        ran,
        none is None,
        rebind == Ok::<u16, SignalError>(old(a)@.port),
        final(c)@.id == old(a)@.id && final(c)@.key == old(a)@.key,
{
}

/// Whoever is greeted is told of every service that has announced peers; another
/// service is told as well of every peer that is connected here, as this
/// service's, so that what it then knows of this service is true.
pub proof fn greetings_tell_all(
    server: &ServerInfo,
    client: InitSigToClient,
    dialed: InitSignalClientToSignal,
    dialer: InitSignalToSignalClient,
    sig: SignalView,
    peer: Seq<u8>,
)
    requires
        call_ensures(ServerInfo::greet_client, (server,), client),
        call_ensures(ServerInfo::greet_dialed, (server,), dialed),
        call_ensures(ServerInfo::greet_dialer, (server,), dialer),
    ensures
        server@.roster.sigs.contains_key(sig) <==> collections::views(
            client.known_signals@,
        ).contains(sig),
        server@.roster.sigs.contains_key(sig) <==> collections::views(
            dialed.known_signals@,
        ).contains(sig),
        server@.roster.sigs.contains_key(sig) <==> collections::views(
            dialer.known_signals@,
        ).contains(sig),
        dialed.me@ == server@.own,
        dialed.all matches PeerSignalStateChange::All(peers, own) && own@ == server@.own && (
        collections::views(peers@).contains(peer) <==> server@.peers.contains_key(peer)),
        dialer.all matches PeerSignalStateChange::All(peers, own) && own@ == server@.own && (
        collections::views(peers@).contains(peer) <==> server@.peers.contains_key(peer)),
{
    assert(collections::views(client.known_signals@).to_set().contains(sig)
        == server@.roster.sigs.dom().contains(sig));
    assert(collections::views(dialed.known_signals@).to_set().contains(sig)
        == server@.roster.sigs.dom().contains(sig));
    assert(collections::views(dialer.known_signals@).to_set().contains(sig)
        == server@.roster.sigs.dom().contains(sig));
    match dialed.all {
        PeerSignalStateChange::All(peers, _) => {
            assert(collections::views(peers@).to_set().contains(peer)
                == server@.peers.dom().contains(peer));
        },
        _ => {},
    }
    match dialer.all {
        PeerSignalStateChange::All(peers, _) => {
            assert(collections::views(peers@).to_set().contains(peer)
                == server@.peers.dom().contains(peer));
        },
        _ => {},
    }
}

/// An announcement changes the table of peers and nothing else that a service
/// knows.
pub proof fn announcements_change_the_table_alone(
    server: &mut ServerInfo,
    change: PeerSignalStateChange,
)
    requires
        call_ensures(ServerInfo::apply, (server, change), ()),
    ensures
        final(server)@.roster == old(server)@.roster.changed(change),
        final(server)@.own == old(server)@.own,
        final(server)@.peers == old(server)@.peers,
        final(server)@.signals == old(server)@.signals,
{
}

} // verus!

//! The peers that a node is connected to, and its one signalling client.

use crate::collections::KeyMap;
use crate::keys::SigningKey;
use crate::message::{Message, MessageT, PeerIndex};
use crate::webrtc::conns::PeerConns;
use crate::webrtc::signal::client::{ClientView, SignalCError, SignalClient};
use crate::webrtc::signal::{IceCandidate, SessionDescription, SignalData, SignalInfo, SignalMessage};
use crate::webrtc::simple::{Config, PeerError};
use vstd::prelude::*;

verus! {

/// What goes wrong in a pool.
#[derive(Debug)]
pub enum PoolError {
    Signal(SignalCError),
    Peer(PeerError),
    SignalConnected,
    SignalNotConnected,
}

impl PoolError {
    pub open spec fn text_spec(self) -> Seq<char> {
        match self {
            PoolError::Signal(e) => "failed to connect to Signalling service: "@ + e.text_spec(),
            PoolError::Peer(e) => "failed to keep or create connection via WebRTC: "@
                + e.text_spec(),
            PoolError::SignalConnected => "cannot connect to Signalling service or edit SignalClient when connected to the service"@,
            PoolError::SignalNotConnected => "cannot disconnect when client is not connected to Signalling service"@,
        }
    }

    /// The error in words.
    pub fn text(&self) -> (r: String)
        ensures
            r@ == self.text_spec(),
    {
        match self {
            PoolError::Signal(e) => "failed to connect to Signalling service: ".to_owned().concat(
                e.text().as_str(),
            ),
            PoolError::Peer(
                e,
            ) => "failed to keep or create connection via WebRTC: ".to_owned().concat(
                e.text().as_str(),
            ),
            PoolError::SignalConnected => "cannot connect to Signalling service or edit SignalClient when connected to the service".to_owned(),
            PoolError::SignalNotConnected => "cannot disconnect when client is not connected to Signalling service".to_owned(),
        }
    }
}

/// Where the signalling client is.
enum SignalSlot {
    /// Here.
    Idle(SignalClient),
    /// With the task of this number, which runs it.
    Running(u64),
}

/// Where the signalling client is.
pub enum SlotView {
    Idle(ClientView),
    Running(u64),
}

/// What a pool is made of.
pub struct PoolView {
    pub id: Seq<u8>,
    /// The secret that it signs with.
    pub key: Seq<u8>,
    /// Its connections to peers.
    pub map: Map<Seq<u8>, u64>,
    pub signal: SlotView,
    /// The task that all messages go through, once it is started.
    pub center: Option<u64>,
}

/// The peers that a node is connected to, and its signalling client. Connections
/// and tasks are numbers by which whoever runs them finds them again.
pub struct PeerPool {
    id: PeerIndex,
    key: SigningKey,
    map: PeerConns,
    signal: SignalSlot,
    center: Option<u64>,
}

impl View for PeerPool {
    type V = PoolView;

    closed spec fn view(&self) -> PoolView {
        PoolView {
            id: self.id@,
            key: self.key@,
            map: self.map@,
            signal: match self.signal {
                SignalSlot::Idle(client) => SlotView::Idle(client@),
                SignalSlot::Running(run) => SlotView::Running(run),
            },
            center: self.center,
        }
    }
}

impl PeerPool {
    /// A pool without peers, whose client knows no service.
    pub fn new(id: PeerIndex, key: SigningKey) -> (r: PeerPool)
        ensures
            r@ == (PoolView {
                id: id@,
                key: key@,
                map: Map::empty(),
                signal: SlotView::Idle(
                    ClientView {
                        sigs: Set::empty(),
                        connection: None,
                        connected_to: None,
                        id: id@,
                        key: key@,
                    },
                ),
                center: None,
            }),
    {
        PeerPool {
            signal: SignalSlot::Idle(SignalClient::new(id, key.clone())),
            map: PeerConns::new(),
            id,
            key,
            center: None,
        }
    }

    /// Makes `center` the task that all messages go through, and tells whether
    /// it is to be started: once there is one, it stays.
    pub fn start(&mut self, center: u64) -> (r: Result<bool, PoolError>)
        ensures
            match old(self)@.center {
                Some(_) => r == Ok::<bool, PoolError>(false) && final(self)@ == old(self)@,
                None => r == Ok::<bool, PoolError>(true) && final(self)@ == (PoolView {
                    center: Some(center),
                    ..old(self)@
                }),
            },
    {
        if self.center.is_some() {
            return Ok(false);
        }
        self.center = Some(center);
        Ok(true)
    }

    /// Hands out the signalling client to the task `run`.
    pub fn connect_to_sig(&mut self, run: u64) -> (r: Result<SignalClient, PoolError>)
        ensures
            match old(self)@.signal {
                SlotView::Idle(client) => {
                    &&& r matches Ok(c) && c@ == client
                    &&& final(self)@ == (PoolView { signal: SlotView::Running(run), ..old(self)@ })
                },
                SlotView::Running(_) => {
                    &&& r == Err::<SignalClient, PoolError>(PoolError::SignalConnected)
                    &&& final(self)@ == old(self)@
                },
            },
    {
        let idle: bool = match &self.signal {
            SignalSlot::Idle(_) => true,
            SignalSlot::Running(_) => false,
        };
        if !idle {
            return Err(PoolError::SignalConnected);
        }
        let mut slot: SignalSlot = SignalSlot::Running(run);
        std::mem::swap(&mut slot, &mut self.signal);
        match slot {
            SignalSlot::Idle(client) => Ok(client),
            SignalSlot::Running(_) => Err(PoolError::SignalConnected),
        }
    }

    /// Takes the signalling client back from the task that ran it.
    pub fn signal_stopped(&mut self, client: SignalClient)
        ensures
            final(self)@ == (PoolView { signal: SlotView::Idle(client@), ..old(self)@ }),
    {
        self.signal = SignalSlot::Idle(client);
    }

    /// The task to cancel in order to get the signalling client back.
    pub fn disconnect_from_sig(&self) -> (r: Result<u64, PoolError>)
        ensures
            r == (match self@.signal {
                SlotView::Running(run) => Ok::<u64, PoolError>(run),
                SlotView::Idle(_) => Err(PoolError::SignalNotConnected),
            }),
    {
        match &self.signal {
            SignalSlot::Running(run) => Ok(*run),
            SignalSlot::Idle(_) => Err(PoolError::SignalNotConnected),
        }
    }

    /// Adds a service to those that the client knows, and tells whether it was
    /// new.
    pub fn add_signal(&mut self, signal: SignalInfo) -> (r: Result<bool, PoolError>)
        ensures
            match old(self)@.signal {
                SlotView::Idle(client) => {
                    &&& r == Ok::<bool, PoolError>(!client.sigs.contains(signal@))
                    &&& final(self)@ == (PoolView {
                        signal: SlotView::Idle(
                            ClientView { sigs: client.sigs.insert(signal@), ..client },
                        ),
                        ..old(self)@
                    })
                },
                SlotView::Running(_) => {
                    &&& r == Err::<bool, PoolError>(PoolError::SignalConnected)
                    &&& final(self)@ == old(self)@
                },
            },
    {
        let mut slot: SignalSlot = SignalSlot::Running(0);
        std::mem::swap(&mut slot, &mut self.signal);
        match slot {
            SignalSlot::Idle(client) => {
                let mut client: SignalClient = client;
                let new: bool = client.insert_signal(signal);
                self.signal = SignalSlot::Idle(client);
                Ok(new)
            },
            SignalSlot::Running(run) => {
                self.signal = SignalSlot::Running(run);
                Err(PoolError::SignalConnected)
            },
        }
    }

    /// Enters the connection to a peer.
    pub fn peer_connected(&mut self, peer: PeerIndex, conn: u64)
        ensures
            final(self)@ == (PoolView { map: old(self)@.map.insert(peer@, conn), ..old(self)@ }),
    {
        self.map.insert(peer, conn);
    }

    /// The connection to a peer.
    pub fn peer(&self, peer: &PeerIndex) -> (r: Option<u64>)
        ensures
            r == crate::webrtc::conns::lookup(self@.map, peer@),
    {
        self.map.get(peer)
    }
}

/// What the task that runs the signalling client waits for.
pub enum SignalTaskEvent {
    /// What comes from this peer goes to this channel from now on; `None` where
    /// no more peers will be named.
    Peer(Option<(PeerIndex, u64)>),
    /// Something for another peer, or that nothing more will come.
    Outgoing(Option<SignalMessage>),
    /// What receiving through the client came to.
    Incoming(Result<Option<MessageT<SignalMessage>>, SignalCError>),
    Cancelled,
}

/// What it does next.
pub enum SignalTaskStep {
    /// Hand the client back, and cancel the other tasks.
    Stop,
    /// End with this error. The client is gone.
    Fail(SignalCError),
    /// Wait for the next event.
    Wait,
    /// Send this through the client, whether or not that works.
    Send(SignalMessage),
    /// Hand this to the channel of the peer that it comes from.
    Forward(u64, SignalMessage),
    /// Take this as the offer of a peer that is not connected.
    Offer(SignalMessage),
}

/// What becomes of each event, where `peers` are the channels of the peers. What
/// comes from a peer with a channel goes there; from any other peer, only
/// session descriptions are taken.
pub open spec fn signal_task_step(peers: Map<Seq<u8>, u64>, event: SignalTaskEvent) -> SignalTaskStep {
    match event {
        SignalTaskEvent::Peer(Some(_)) => SignalTaskStep::Wait,
        SignalTaskEvent::Outgoing(Some(message)) => SignalTaskStep::Send(message),
        SignalTaskEvent::Incoming(Err(e)) => SignalTaskStep::Fail(e),
        SignalTaskEvent::Incoming(Ok(Some(message))) => if peers.contains_key(
            message.content.origin@,
        ) {
            SignalTaskStep::Forward(peers[message.content.origin@], message.content)
        } else if message.content.data is Sdp {
            SignalTaskStep::Offer(message.content)
        } else {
            SignalTaskStep::Wait
        },
        SignalTaskEvent::Peer(None) | SignalTaskEvent::Outgoing(None) | SignalTaskEvent::Incoming(
            Ok(None),
        ) | SignalTaskEvent::Cancelled => SignalTaskStep::Stop,
    }
}

/// The channels of the peers after an event.
pub open spec fn signal_task_peers(
    peers: Map<Seq<u8>, u64>,
    event: SignalTaskEvent,
) -> Map<Seq<u8>, u64> {
    match event {
        SignalTaskEvent::Peer(Some((id, channel))) => peers.insert(id@, channel),
        _ => peers,
    }
}

/// The task that runs the signalling client.
pub struct SignalTask {
    peers: KeyMap<PeerIndex, u64>,
}

impl View for SignalTask {
    type V = Map<Seq<u8>, u64>;

    closed spec fn view(&self) -> Map<Seq<u8>, u64> {
        self.peers@
    }
}

impl SignalTask {
    pub fn new() -> (r: SignalTask)
        ensures
            r@ == Map::<Seq<u8>, u64>::empty(),
    {
        SignalTask { peers: KeyMap::new() }
    }

    pub fn step(&mut self, event: SignalTaskEvent) -> (r: SignalTaskStep)
        ensures
            r == signal_task_step(old(self)@, event),
            final(self)@ == signal_task_peers(old(self)@, event),
    {
        match event {
            SignalTaskEvent::Peer(Some((id, channel))) => {
                self.peers.insert(id, channel);
                SignalTaskStep::Wait
            },
            SignalTaskEvent::Peer(None) => SignalTaskStep::Stop,
            SignalTaskEvent::Outgoing(Some(message)) => SignalTaskStep::Send(message),
            SignalTaskEvent::Outgoing(None) => SignalTaskStep::Stop,
            SignalTaskEvent::Incoming(Err(e)) => SignalTaskStep::Fail(e),
            SignalTaskEvent::Incoming(Ok(None)) => SignalTaskStep::Stop,
            SignalTaskEvent::Incoming(Ok(Some(message))) => match self.peers.get(
                &message.content.origin,
            ) {
                Some(channel) => SignalTaskStep::Forward(*channel, message.content),
                None => if message.content.data.is_sdp() {
                    SignalTaskStep::Offer(message.content)
                } else {
                    SignalTaskStep::Wait
                },
            },
            SignalTaskEvent::Cancelled => SignalTaskStep::Stop,
        }
    }
}

/// What the task that answers offers waits for.
pub enum OfferEvent {
    /// Something that was taken as an offer, or that nothing more will come.
    Offer(Option<SignalMessage>),
    Cancelled,
}

/// What it does next.
pub enum OfferStep {
    /// Stop, and cancel the other tasks.
    Stop,
    /// Wait for the next event.
    Wait,
    /// Answer `offer`, as `origin` to the peer `to`, and enter the connection.
    Answer { offer: SessionDescription, to: PeerIndex, origin: PeerIndex },
}

/// What becomes of what was taken as an offer: a session description is answered
/// to its author, under the name that it was addressed to.
pub open spec fn offer_taken(event: OfferEvent) -> OfferStep {
    match event {
        OfferEvent::Offer(Some(message)) => match message.data {
            SignalData::Sdp(sdp) => OfferStep::Answer {
                offer: *sdp,
                to: message.origin,
                origin: message.to,
            },
            SignalData::Ice(_) => OfferStep::Wait,
        },
        OfferEvent::Offer(None) | OfferEvent::Cancelled => OfferStep::Stop,
    }
}

pub fn offer_step(event: OfferEvent) -> (r: OfferStep)
    ensures
        r == offer_taken(event),
{
    match event {
        OfferEvent::Offer(Some(message)) => match message.data {
            SignalData::Sdp(sdp) => OfferStep::Answer {
                offer: *sdp,
                to: message.origin,
                origin: message.to,
            },
            SignalData::Ice(_) => OfferStep::Wait,
        },
        OfferEvent::Offer(None) => OfferStep::Stop,
        OfferEvent::Cancelled => OfferStep::Stop,
    }
}

/// How a peer that answers an offer is set up: candidates go through `signal`.
pub fn offer_config(signal: u64) -> (r: Config)
    ensures
        r.signal == Some(signal),
        r.stun@.len() == crate::webrtc::simple::GOOGLE_STUN_LIST@.len(),
        forall|i: int|
            0 <= i < r.stun@.len() ==> (#[trigger] r.stun@[i])@
                == crate::webrtc::simple::GOOGLE_STUN_LIST@[i]@,
{
    let config: Config = Config::default();
    Config { stun: config.stun, signal: Some(signal) }
}

/// A session description on its way from `origin` to `to`.
pub open spec fn addressed(
    origin: PeerIndex,
    to: PeerIndex,
    description: SessionDescription,
) -> SignalMessage {
    SignalMessage { origin, to, data: SignalData::Sdp(Box::new(description)) }
}

/// The answer to an offer, on its way to the peer that made the offer.
pub fn answer(origin: PeerIndex, to: PeerIndex, description: SessionDescription) -> (r:
    SignalMessage)
    ensures
        r == addressed(origin, to, description),
{
    SignalMessage { origin, to, data: SignalData::Sdp(Box::new(description)) }
}

/// What the task that exchanges candidates with a peer waits for.
pub enum BridgeEvent {
    /// Something from the peer, or that nothing more will come.
    FromSignal(Option<SignalMessage>),
    /// A candidate of this side, or that no more will come.
    FromPeer(Option<IceCandidate>),
    Cancelled,
}

/// What it does next.
pub enum BridgeStep {
    /// Stop, and cancel the other tasks.
    Stop,
    /// Wait for the next event.
    Wait,
    /// Hand the other side's candidate to the connection.
    ToPeer(IceCandidate),
    /// Send this through the signalling client.
    ToSignal(SignalMessage),
}

/// What becomes of the candidates between `origin` and the peer `to`.
pub fn bridge_step(origin: PeerIndex, to: PeerIndex, event: BridgeEvent) -> (r: BridgeStep)
    ensures
        r == (match event {
            BridgeEvent::FromSignal(Some(message)) => match message.data {
                SignalData::Ice(ice) => BridgeStep::ToPeer(ice),
                SignalData::Sdp(_) => BridgeStep::Wait,
            },
            BridgeEvent::FromPeer(Some(ice)) => BridgeStep::ToSignal(
                SignalMessage { origin, to, data: SignalData::Ice(ice) },
            ),
            BridgeEvent::FromSignal(None) | BridgeEvent::FromPeer(None)
            | BridgeEvent::Cancelled => BridgeStep::Stop,
        }),
{
    match event {
        BridgeEvent::FromSignal(Some(message)) => match message.data {
            SignalData::Ice(ice) => BridgeStep::ToPeer(ice),
            SignalData::Sdp(_) => BridgeStep::Wait,
        },
        BridgeEvent::FromPeer(Some(ice)) => BridgeStep::ToSignal(
            SignalMessage { origin, to, data: SignalData::Ice(ice) },
        ),
        BridgeEvent::FromSignal(None) => BridgeStep::Stop,
        BridgeEvent::FromPeer(None) => BridgeStep::Stop,
        BridgeEvent::Cancelled => BridgeStep::Stop,
    }
}

/// What the task of one peer waits for.
pub enum PeerTaskEvent {
    /// What receiving from the peer came to.
    Received(Result<Option<Message>, PeerError>),
    /// A message for the peer, or that no more will come.
    ToSend(Option<Message>),
    /// What sending to the peer came to.
    Sent(Result<(), PeerError>),
}

/// What it does next.
pub enum PeerTaskStep {
    Stop,
    /// End with this error.
    Fail(PoolError),
    /// Wait for the next event.
    Wait,
    /// Tell the center what the peer said; nothing where it is gone.
    Report(Option<(PeerIndex, Message)>),
    /// Send this to the peer.
    Send(Message),
}

/// What becomes of the messages from and to the peer `id`.
pub fn peer_task_step(id: PeerIndex, event: PeerTaskEvent) -> (r: PeerTaskStep)
    ensures
        r == (match event {
            PeerTaskEvent::Received(Err(e)) => PeerTaskStep::Fail(PoolError::Peer(e)),
            PeerTaskEvent::Received(Ok(Some(message))) => PeerTaskStep::Report(Some((id, message))),
            PeerTaskEvent::Received(Ok(None)) => PeerTaskStep::Report(None),
            PeerTaskEvent::ToSend(Some(message)) => PeerTaskStep::Send(message),
            PeerTaskEvent::ToSend(None) => PeerTaskStep::Stop,
            PeerTaskEvent::Sent(Err(e)) => PeerTaskStep::Fail(PoolError::Peer(e)),
            PeerTaskEvent::Sent(Ok(_)) => PeerTaskStep::Wait,
        }),
{
    match event {
        PeerTaskEvent::Received(Err(e)) => PeerTaskStep::Fail(PoolError::Peer(e)),
        PeerTaskEvent::Received(Ok(Some(message))) => PeerTaskStep::Report(Some((id, message))),
        PeerTaskEvent::Received(Ok(None)) => PeerTaskStep::Report(None),
        PeerTaskEvent::ToSend(Some(message)) => PeerTaskStep::Send(message),
        PeerTaskEvent::ToSend(None) => PeerTaskStep::Stop,
        PeerTaskEvent::Sent(Err(e)) => PeerTaskStep::Fail(PoolError::Peer(e)),
        PeerTaskEvent::Sent(Ok(_)) => PeerTaskStep::Wait,
    }
}

/// What the task that all messages go through waits for.
pub enum CenterEvent {
    /// A peer, and the channel of its task; or that no more will come.
    Peer(Option<(PeerIndex, u64)>),
    /// Someone who wants to hear what a peer says; or that no more will come.
    Channel(Option<(PeerIndex, u64)>),
    /// A message for a peer, or that no more will come.
    ToSend(Option<(PeerIndex, Message)>),
}

/// What it does next.
pub enum CenterStep {
    Stop,
    /// Wait for the next event.
    Wait,
    /// Start the task of the peer whose channel this is.
    Spawn(PeerIndex, u64),
    /// Hand the message to the peer's task through this channel.
    Send(u64, Message),
    /// The peer is not connected; the message is dropped.
    NotConnected(PeerIndex),
}

/// What the center knows.
pub struct CenterView {
    /// The channels of the peers' tasks.
    pub senders: Map<Seq<u8>, u64>,
    /// Those who want to hear what each peer says, in the order of their coming.
    pub channels: Map<Seq<u8>, Seq<u64>>,
}

impl CenterView {
    /// Those who want to hear what a peer says.
    pub open spec fn listeners(self, id: Seq<u8>) -> Seq<u64> {
        if self.channels.contains_key(id) {
            self.channels[id]
        } else {
            Seq::empty()
        }
    }

    pub open spec fn after(self, event: CenterEvent) -> CenterView {
        match event {
            CenterEvent::Peer(Some((id, sender))) => CenterView {
                senders: self.senders.insert(id@, sender),
                ..self
            },
            CenterEvent::Channel(Some((id, channel))) => CenterView {
                channels: self.channels.insert(id@, self.listeners(id@).push(channel)),
                ..self
            },
            _ => self,
        }
    }

    pub open spec fn step(self, event: CenterEvent) -> CenterStep {
        match event {
            CenterEvent::Peer(Some((id, sender))) => CenterStep::Spawn(id, sender),
            CenterEvent::Channel(Some(_)) => CenterStep::Wait,
            CenterEvent::ToSend(Some((id, message))) => if self.senders.contains_key(id@) {
                CenterStep::Send(self.senders[id@], message)
            } else {
                CenterStep::NotConnected(id)
            },
            CenterEvent::Peer(None) | CenterEvent::Channel(None) | CenterEvent::ToSend(
                None,
            ) => CenterStep::Stop,
        }
    }
}

spec fn channels_view(channels: Map<Seq<u8>, Vec<u64>>) -> Map<Seq<u8>, Seq<u64>> {
    Map::new(|id: Seq<u8>| channels.contains_key(id), |id: Seq<u8>| channels[id]@)
}

/// The task that all messages go through.
pub struct Center {
    senders: KeyMap<PeerIndex, u64>,
    channels: KeyMap<PeerIndex, Vec<u64>>,
}

impl View for Center {
    type V = CenterView;

    closed spec fn view(&self) -> CenterView {
        CenterView { senders: self.senders@, channels: channels_view(self.channels@) }
    }
}

impl Center {
    pub fn new() -> (r: Center)
        ensures
            r@ == (CenterView { senders: Map::empty(), channels: Map::empty() }),
    {
        let r = Center { senders: KeyMap::new(), channels: KeyMap::new() };
        assert(r@.channels =~= Map::<Seq<u8>, Seq<u64>>::empty());
        r
    }

    pub fn step(&mut self, event: CenterEvent) -> (r: CenterStep)
        ensures
            r == old(self)@.step(event),
            final(self)@ == old(self)@.after(event),
    {
        match event {
            CenterEvent::Peer(Some((id, sender))) => {
                self.senders.insert(id, sender);
                CenterStep::Spawn(id, sender)
            },
            CenterEvent::Channel(Some((id, channel))) => {
                let mut listeners: Vec<u64> = match self.channels.remove(&id) {
                    Some(listeners) => listeners,
                    None => Vec::new(),
                };
                listeners.push(channel);
                self.channels.insert(id, listeners);
                assert(self@.channels =~= old(self)@.channels.insert(
                    id@,
                    old(self)@.listeners(id@).push(channel),
                ));
                CenterStep::Wait
            },
            CenterEvent::ToSend(Some((id, message))) => match self.senders.get(&id) {
                Some(sender) => CenterStep::Send(*sender, message),
                None => CenterStep::NotConnected(id),
            },
            CenterEvent::Peer(None) => CenterStep::Stop,
            CenterEvent::Channel(None) => CenterStep::Stop,
            CenterEvent::ToSend(None) => CenterStep::Stop,
        }
    }
}

/// A message reaches the task of its peer from when the center learns of the
/// peer, and none before.
pub proof fn messages_follow_the_latest_peer(
    center: CenterView,
    id: PeerIndex,
    sender: u64,
    message: Message,
)
    ensures
        center.after(CenterEvent::Peer(Some((id, sender)))).step(
            CenterEvent::ToSend(Some((id, message))),
        ) == CenterStep::Send(sender, message),
        !center.senders.contains_key(id@) ==> center.step(CenterEvent::ToSend(Some((id, message))))
            == CenterStep::NotConnected(id),
{
}

/// Once a peer has a channel, nothing that it says is taken as an offer.
pub proof fn known_peers_make_no_offers(
    peers: Map<Seq<u8>, u64>,
    id: PeerIndex,
    channel: u64,
    message: MessageT<SignalMessage>,
)
    requires
        message.content.origin@ == id@,
    ensures
        signal_task_step(
            signal_task_peers(peers, SignalTaskEvent::Peer(Some((id, channel)))),
            SignalTaskEvent::Incoming(Ok(Some(message))),
        ) == SignalTaskStep::Forward(channel, message.content),
{
}

/// An answer goes back to the peer that made the offer, under the name that the
/// offer was made to.
pub proof fn answers_return_to_the_offerer(offer: SignalMessage, description: SessionDescription)
    requires
        offer.data is Sdp,
    ensures
        offer_taken(OfferEvent::Offer(Some(offer))) matches OfferStep::Answer {
            offer: sdp,
            to,
            origin,
        } && sdp == *offer.data->Sdp_0 && addressed(origin, to, description).to == offer.origin
            && addressed(origin, to, description).origin == offer.to,
{
}

/// A peer without a channel is never forwarded to, and whatever is taken from it
/// is a session description.
pub proof fn strangers_only_make_offers(
    peers: Map<Seq<u8>, u64>,
    message: MessageT<SignalMessage>,
    step: SignalTaskStep,
)
    requires
        !peers.contains_key(message.content.origin@),
        step == signal_task_step(peers, SignalTaskEvent::Incoming(Ok(Some(message)))),
    ensures
        step is Wait || step == SignalTaskStep::Offer(message.content),
        step is Offer <==> message.content.data is Sdp,
{
}

/// What comes from a peer with a channel goes to that channel, whatever it is;
/// from any other peer a session description is taken as an offer and a candidate
/// is left. Everything that there is to send is sent. The task ends where
/// something that it waits for ends or it is cancelled, and fails with the error
/// of receiving; it does neither for any other reason.
pub proof fn a_signalling_task_hands_everything_on(
    peers: Map<Seq<u8>, u64>,
    event: SignalTaskEvent,
)
    ensures
        ({
            let step = signal_task_step(peers, event);
            &&& event matches SignalTaskEvent::Outgoing(Some(message)) ==> step
                == SignalTaskStep::Send(message)
            &&& event matches SignalTaskEvent::Incoming(Ok(Some(message))) ==> {
                let from = message.content.origin@;
                &&& peers.contains_key(from) ==> step == SignalTaskStep::Forward(
                    peers[from],
                    message.content,
                )
                &&& !peers.contains_key(from) && message.content.data is Sdp ==> step
                    == SignalTaskStep::Offer(message.content)
                &&& !peers.contains_key(from) && message.content.data is Ice ==> step
                    == SignalTaskStep::Wait
            }
            &&& event matches SignalTaskEvent::Incoming(Err(e)) ==> step == SignalTaskStep::Fail(e)
            &&& event matches SignalTaskEvent::Peer(Some(_)) ==> step == SignalTaskStep::Wait
            &&& step is Fail <==> (event matches SignalTaskEvent::Incoming(Err(_)))
            &&& step is Stop <==> event is Cancelled || event == SignalTaskEvent::Peer(None)
                || event == SignalTaskEvent::Outgoing(None) || event == SignalTaskEvent::Incoming(
                Ok(None),
            )
        }),
{
}

/// A peer keeps its channel until another is named for it; naming one changes
/// nothing for other peers.
pub proof fn channels_are_named_one_by_one(
    peers: Map<Seq<u8>, u64>,
    event: SignalTaskEvent,
    id: PeerIndex,
    channel: u64,
    other: Seq<u8>,
)
    ensures
        !(event is Peer) ==> signal_task_peers(peers, event) == peers,
        signal_task_peers(peers, SignalTaskEvent::Peer(None)) == peers,
        ({
            let named = signal_task_peers(peers, SignalTaskEvent::Peer(Some((id, channel))));
            &&& named.contains_key(id@) && named[id@] == channel
            &&& other != id@ ==> named.contains_key(other) == peers.contains_key(other)
                && named[other] == peers[other]
        }),
{
}

/// Every session description that is taken as an offer is answered, as it is, and
/// nothing else is; the task ends only where no more offers come or it is
/// cancelled.
pub proof fn every_offer_is_answered(message: SignalMessage)
    ensures
        message.data matches SignalData::Sdp(sdp) ==> offer_taken(OfferEvent::Offer(Some(message)))
            == (OfferStep::Answer { offer: *sdp, to: message.origin, origin: message.to }),
        message.data is Ice ==> offer_taken(OfferEvent::Offer(Some(message))) == OfferStep::Wait,
        offer_taken(OfferEvent::Offer(None)) == OfferStep::Stop,
        offer_taken(OfferEvent::Cancelled) == OfferStep::Stop,
{
}

/// An answer carries the description, from the one that answers to the one that
/// offered.
pub proof fn an_answer_carries_its_description(
    origin: PeerIndex,
    to: PeerIndex,
    description: SessionDescription,
)
    ensures
        addressed(origin, to, description).origin == origin,
        addressed(origin, to, description).to == to,
        addressed(origin, to, description).data == SignalData::Sdp(Box::new(description)),
{
}

/// A peer's task is reached from when the center learns of the peer until it
/// learns of another task of the same peer; a message goes to the task of its own
/// peer, unchanged, and is dropped where there is none. The center ends only
/// where something that it waits for ends.
pub proof fn the_center_sends_each_message_to_its_peer(
    center: CenterView,
    id: PeerIndex,
    message: Message,
    channel: u64,
)
    ensures
        center.step(CenterEvent::ToSend(Some((id, message)))) == if center.senders.contains_key(
            id@,
        ) {
            CenterStep::Send(center.senders[id@], message)
        } else {
            CenterStep::NotConnected(id)
        },
        center.step(CenterEvent::Peer(Some((id, channel)))) == CenterStep::Spawn(id, channel),
        center.step(CenterEvent::Channel(Some((id, channel)))) == CenterStep::Wait,
        center.step(CenterEvent::ToSend(None)) == CenterStep::Stop,
        center.step(CenterEvent::Peer(None)) == CenterStep::Stop,
        center.step(CenterEvent::Channel(None)) == CenterStep::Stop,
{
}

/// The center learns of tasks and of listeners one by one: each event changes
/// what it names, for the peer that it names, and nothing else. Listeners are
/// kept in the order of their coming.
pub proof fn the_center_learns_one_by_one(
    center: CenterView,
    id: PeerIndex,
    channel: u64,
    other: Seq<u8>,
    message: Option<(PeerIndex, Message)>,
)
    ensures
        center.listeners(other) == if center.channels.contains_key(other) {
            center.channels[other]
        } else {
            Seq::empty()
        },
        center.after(CenterEvent::ToSend(message)) == center,
        center.after(CenterEvent::Peer(None)) == center,
        center.after(CenterEvent::Channel(None)) == center,
        ({
            let c = center.after(CenterEvent::Peer(Some((id, channel))));
            &&& c.channels == center.channels
            &&& c.senders.contains_key(id@) && c.senders[id@] == channel
            &&& other != id@ ==> c.senders.contains_key(other) == center.senders.contains_key(other)
                && c.senders[other] == center.senders[other]
        }),
        ({
            let c = center.after(CenterEvent::Channel(Some((id, channel))));
            &&& c.senders == center.senders
            &&& c.channels.contains_key(id@) && c.listeners(id@) == center.listeners(id@).push(
                channel,
            )
            &&& other != id@ ==> c.channels.contains_key(other) == center.channels.contains_key(
                other,
            ) && c.channels[other] == center.channels[other]
        }),
{
}

/// What went wrong in signalling or with a peer ends the text, behind the same
/// words each time.
pub proof fn pool_errors_keep_the_reason(signal: SignalCError, peer: PeerError)
    ensures
        PoolError::Signal(signal).text_spec() == "failed to connect to Signalling service: "@
            + signal.text_spec(),
        PoolError::Peer(peer).text_spec() == "failed to keep or create connection via WebRTC: "@
            + peer.text_spec(),
{
}

/// A candidate that one side's bridge takes from its connection is what the other
/// side's bridge hands to its own: it is addressed from the one to the other, and
/// passes unchanged. A session description does not pass a bridge.
pub proof fn candidates_cross_between_two_bridges(
    here: PeerIndex,
    there: PeerIndex,
    ice: IceCandidate,
    out: BridgeStep,
    message: SignalMessage,
    arrived: BridgeStep,
    ended: (BridgeStep, BridgeStep, BridgeStep),
)
    requires
        call_ensures(bridge_step, (here, there, BridgeEvent::FromPeer(Some(ice))), out),
        call_ensures(bridge_step, (there, here, BridgeEvent::FromSignal(Some(message))), arrived),
        call_ensures(bridge_step, (here, there, BridgeEvent::FromPeer(None)), ended.0),
        call_ensures(bridge_step, (here, there, BridgeEvent::FromSignal(None)), ended.1),
        call_ensures(bridge_step, (here, there, BridgeEvent::Cancelled), ended.2),
    ensures
        out matches BridgeStep::ToSignal(sent) && sent.origin == here && sent.to == there
            && sent.data == SignalData::Ice(ice),
        out == BridgeStep::ToSignal(message) ==> arrived == BridgeStep::ToPeer(ice),
        message.data is Sdp ==> arrived is Wait,
        ended.0 is Stop && ended.1 is Stop && ended.2 is Stop,
{
}

/// What a peer says is reported under its own name and unchanged; what is for it
/// is sent to it unchanged; and what fails ends its task with that error.
pub proof fn a_peers_task_passes_messages_unchanged(
    id: PeerIndex,
    message: Message,
    error: PeerError,
    steps: (PeerTaskStep, PeerTaskStep, PeerTaskStep, PeerTaskStep),
    others: (PeerTaskStep, PeerTaskStep, PeerTaskStep),
)
    requires
        call_ensures(peer_task_step, (id, PeerTaskEvent::Received(Ok(Some(message)))), steps.0),
        call_ensures(peer_task_step, (id, PeerTaskEvent::ToSend(Some(message))), steps.1),
        call_ensures(peer_task_step, (id, PeerTaskEvent::Received(Err(error))), steps.2),
        call_ensures(peer_task_step, (id, PeerTaskEvent::Sent(Err(error))), steps.3),
        call_ensures(peer_task_step, (id, PeerTaskEvent::Received(Ok(None))), others.0),
        call_ensures(peer_task_step, (id, PeerTaskEvent::ToSend(None)), others.1),
        call_ensures(peer_task_step, (id, PeerTaskEvent::Sent(Ok(()))), others.2),
    ensures
        steps.0 == PeerTaskStep::Report(Some((id, message))),
        steps.1 == PeerTaskStep::Send(message),
        steps.2 == PeerTaskStep::Fail(PoolError::Peer(error)),
        steps.3 == PeerTaskStep::Fail(PoolError::Peer(error)),
        others.0 == PeerTaskStep::Report(None),
        others.1 is Stop,
        others.2 is Wait,
{
}

/// A message for a peer goes to the task that the center was told of for that
/// peer, whatever it was told of other peers in between.
pub proof fn a_message_reaches_the_task_of_its_peer(
    a: &mut Center,
    b: &mut Center,
    c: &mut Center,
    id: PeerIndex,
    sender: u64,
    other: PeerIndex,
    channel: u64,
    message: Message,
    steps: (CenterStep, CenterStep, CenterStep),
)
    requires
        call_ensures(Center::step, (a, CenterEvent::Peer(Some((id, sender)))), steps.0),
        *old(b) == *final(a),
        call_ensures(Center::step, (b, CenterEvent::Peer(Some((other, channel)))), steps.1),
        *old(c) == *final(b),
        call_ensures(Center::step, (c, CenterEvent::ToSend(Some((id, message)))), steps.2),
        other@ != id@,
    ensures
        steps.0 == CenterStep::Spawn(id, sender),
        steps.1 == CenterStep::Spawn(other, channel),
        steps.2 == CenterStep::Send(sender, message),
{
    the_center_learns_one_by_one(old(a)@, id, sender, other@, None);
    the_center_learns_one_by_one(old(b)@, other, channel, id@, None);
    the_center_sends_each_message_to_its_peer(old(c)@, id, message, channel);
}

/// A peer that was given a channel has what it says forwarded there, whatever the
/// task saw in between that was not about its channels.
pub proof fn what_a_peer_says_reaches_its_channel(
    a: &mut SignalTask,
    b: &mut SignalTask,
    c: &mut SignalTask,
    id: PeerIndex,
    channel: u64,
    between: SignalTaskEvent,
    said: MessageT<SignalMessage>,
    steps: (SignalTaskStep, SignalTaskStep, SignalTaskStep),
)
    requires
        call_ensures(SignalTask::step, (a, SignalTaskEvent::Peer(Some((id, channel)))), steps.0),
        *old(b) == *final(a),
        !(between is Peer),
        call_ensures(SignalTask::step, (b, between), steps.1),
        *old(c) == *final(b),
        said.content.origin@ == id@,
        call_ensures(SignalTask::step, (c, SignalTaskEvent::Incoming(Ok(Some(said)))), steps.2),
    ensures
        steps.0 is Wait,
        steps.2 == SignalTaskStep::Forward(channel, said.content),
{
    channels_are_named_one_by_one(old(a)@, between, id, channel, id@);
    channels_are_named_one_by_one(old(b)@, between, id, channel, id@);
    a_signalling_task_hands_everything_on(old(c)@, SignalTaskEvent::Incoming(Ok(Some(said))));
}

/// An offer is answered by the one that it was made to, to the one that made it:
/// the answer is the description, with the two names exchanged.
pub proof fn an_offer_and_its_answer_meet(
    offer: SignalMessage,
    step: OfferStep,
    description: SessionDescription,
    reply: SignalMessage,
)
    requires
        offer.data is Sdp,
        call_ensures(offer_step, (OfferEvent::Offer(Some(offer)),), step),
        step matches OfferStep::Answer { offer: _, to, origin } ==> call_ensures(
            answer,
            (origin, to, description),
            reply,
        ),
    ensures
        step matches OfferStep::Answer { offer: sdp, to, origin } && sdp == *offer.data->Sdp_0,
        reply.origin == offer.to,
        reply.to == offer.origin,
        reply.data == SignalData::Sdp(Box::new(description)),
{
    every_offer_is_answered(offer);
}

/// The one signalling client is here or with the one task that runs it, never
/// both: it is handed out only where it is here, as it is; while it is out it can
/// be neither handed out nor changed, and the task can be told to stop; what it
/// comes back as is what is here again.
pub proof fn the_signalling_client_is_in_one_place(
    a: &mut PeerPool,
    run: u64,
    out: Result<SignalClient, PoolError>,
    b: &mut PeerPool,
    again: Result<SignalClient, PoolError>,
    c: &mut PeerPool,
    sig: SignalInfo,
    added: Result<bool, PoolError>,
    at: &PeerPool,
    stop: Result<u64, PoolError>,
    d: &mut PeerPool,
    back: SignalClient,
    e: &mut PeerPool,
    next: Result<SignalClient, PoolError>,
)
    requires
        call_ensures(PeerPool::connect_to_sig, (a, run), out),
        old(a)@.signal is Idle,
        *old(b) == *final(a),
        call_ensures(PeerPool::connect_to_sig, (b, run), again),
        *old(c) == *final(a),
        call_ensures(PeerPool::add_signal, (c, sig), added),
        *at == *final(a),
        call_ensures(PeerPool::disconnect_from_sig, (at,), stop),
        *old(d) == *final(a),
        call_ensures(PeerPool::signal_stopped, (d, back), ()),
        *old(e) == *final(d),
        call_ensures(PeerPool::connect_to_sig, (e, run), next),
    ensures
        out matches Ok(client) && old(a)@.signal == SlotView::Idle(client@),
        again == Err::<SignalClient, PoolError>(PoolError::SignalConnected),
        added == Err::<bool, PoolError>(PoolError::SignalConnected),
        final(b)@ == old(b)@,
        final(c)@ == old(c)@,
        stop == Ok::<u64, PoolError>(run),
        next matches Ok(client) && client@ == back@,
        final(a)@.map == old(a)@.map && final(a)@.center == old(a)@.center && final(a)@.id
            == old(a)@.id,
{
}

/// A peer's connection is the last that was entered for it, and entering one
/// changes nothing for other peers; the task that all messages go through is
/// started once.
pub proof fn peers_and_center_are_entered(
    a: &mut PeerPool,
    peer: PeerIndex,
    conn: u64,
    at: &PeerPool,
    found: Option<u64>,
    other: PeerIndex,
    before: (&PeerPool, Option<u64>),
    after: Option<u64>,
    b: &mut PeerPool,
    c: &mut PeerPool,
    centers: (u64, u64),
    started: (Result<bool, PoolError>, Result<bool, PoolError>),
)
    requires
        call_ensures(PeerPool::peer_connected, (a, peer, conn), ()),
        *at == *final(a),
        call_ensures(PeerPool::peer, (at, &peer), found),
        *before.0 == *old(a),
        call_ensures(PeerPool::peer, (before.0, &other), before.1),
        call_ensures(PeerPool::peer, (at, &other), after),
        other@ != peer@,
        call_ensures(PeerPool::start, (b, centers.0), started.0),
        *old(c) == *final(b),
        call_ensures(PeerPool::start, (c, centers.1), started.1),
    ensures
        found == Some(conn),
        after == before.1,
        final(a)@.signal == old(a)@.signal && final(a)@.center == old(a)@.center,
        started.0 == Ok::<bool, PoolError>(old(b)@.center is None),
        started.1 == Ok::<bool, PoolError>(false),
        old(b)@.center is None ==> final(c)@.center == Some(centers.0),
        old(b)@.center is Some ==> final(c)@.center == old(b)@.center,
{
}

} // verus!

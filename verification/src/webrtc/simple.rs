//! One peer's connection to another: how it is negotiated, opened, used and
//! ended.

use crate::message::Message;
use crate::webrtc::sealed::Sealed;
use crate::webrtc::signal::{IceCandidate, SessionDescription};
use std::marker::PhantomData;
use vstd::prelude::*;

pub use crate::webrtc::alias::PeerAlias;

verus! {

/// Public servers by which a peer learns its own address.
pub const GOOGLE_STUN_LIST: [&'static str; 10] = [
    "stun:stun.1.google.com:19302",
    "stun:stun.1.google.com:5349",
    "stun:stun1.1.google.com:3478",
    "stun:stun1.1.google.com:5349",
    "stun:stun2.1.google.com:19302",
    "stun:stun2.1.google.com:5349",
    "stun:stun3.1.google.com:3478",
    "stun:stun3.1.google.com:5349",
    "stun:stun4.1.google.com:19302",
    "stun:stun4.1.google.com:5349",
];

/// The name of the data channel between two peers.
pub const DATA_CHANNEL: &'static str = "data";

/// How a peer is set up.
#[derive(Debug)]
pub struct Config {
    /// Where the peer learns its own address.
    pub stun: Vec<String>,
    /// The channels that ICE candidates go through one by one, as a number by
    /// which whoever runs them finds them again. Without them, the candidates
    /// are gathered first and go with the session description.
    pub signal: Option<u64>,
}

impl Default for Config {
    /// The public servers, and no channels for candidates.
    fn default() -> (r: Config)
        ensures
            r.signal is None,
            r.stun@.len() == GOOGLE_STUN_LIST@.len(),
            forall|i: int| 0 <= i < r.stun@.len() ==> (#[trigger] r.stun@[i])@ == GOOGLE_STUN_LIST@[i]@,
    {
        let list: [&str; 10] = GOOGLE_STUN_LIST;
        let mut stun: Vec<String> = Vec::new();
        let mut i: usize = 0;
        while i < 10
            invariant
                i <= 10,
                stun@.len() == i,
                list@ == GOOGLE_STUN_LIST@,
                forall|j: int| 0 <= j < i ==> (#[trigger] stun@[j])@ == GOOGLE_STUN_LIST@[j]@,
            decreases 10 - i,
        {
            stun.push(list[i].to_owned());
            i += 1;
        }
        Config { stun, signal: None }
    }
}

impl Config {
    /// Whether the candidates go one by one.
    pub fn trickle(&self) -> (r: bool)
        ensures
            r == (self.signal is Some),
    {
        self.signal.is_some()
    }

    /// The lists of addresses of the ICE servers: one server for each address.
    pub fn ice_servers(&self) -> (r: Vec<Vec<String>>)
        ensures
            r@.len() == self.stun@.len(),
            forall|i: int|
                0 <= i < r@.len() ==> (#[trigger] r@[i])@ == seq![self.stun@[i]],
    {
        let mut r: Vec<Vec<String>> = Vec::new();
        let mut i: usize = 0;
        while i < self.stun.len()
            invariant
                i <= self.stun@.len(),
                r@.len() == i,
                forall|j: int| 0 <= j < i ==> (#[trigger] r@[j])@ == seq![self.stun@[j]],
            decreases self.stun@.len() - i,
        {
            let mut urls: Vec<String> = Vec::new();
            urls.push(self.stun[i].clone());
            assert(urls@ =~= seq![self.stun@[i as int]]);
            r.push(urls);
            i += 1;
        }
        r
    }
}

/// What goes wrong between peers. Where another party's error is the reason, its
/// words are kept.
#[derive(Debug)]
pub enum PeerError {
    WebRTC(String),
    PeerNotConnected,
    MessageSerialize(String),
    DataChannelNotAvailable,
    ConnectionFailed,
    Other,
}

impl PeerError {
    pub open spec fn text_spec(self) -> Seq<char> {
        match self {
            PeerError::WebRTC(e) => "WebRTC error: "@ + e@,
            PeerError::PeerNotConnected => "Peer not connected"@,
            PeerError::MessageSerialize(e) => "Serialization error(Message): "@ + e@,
            PeerError::DataChannelNotAvailable => "Data channel not available"@,
            PeerError::ConnectionFailed => "Connection failed"@,
            PeerError::Other => "Something were wrong"@,
        }
    }

    /// The error in words.
    pub fn text(&self) -> (r: String)
        ensures
            r@ == self.text_spec(),
    {
        match self {
            PeerError::WebRTC(e) => "WebRTC error: ".to_owned().concat(e.as_str()),
            PeerError::PeerNotConnected => "Peer not connected".to_owned(),
            PeerError::MessageSerialize(e) => "Serialization error(Message): ".to_owned().concat(
                e.as_str(),
            ),
            PeerError::DataChannelNotAvailable => "Data channel not available".to_owned(),
            PeerError::ConnectionFailed => "Connection failed".to_owned(),
            PeerError::Other => "Something were wrong".to_owned(),
        }
    }
}

/// How a peer is to another.
#[derive(Debug, Clone, Copy, PartialEq, Eq, Structural)]
pub enum PeerState {
    Connecting,
    Connected,
    Disconnected,
    Failed,
}

/// The states that a WebRTC connection goes through.
#[derive(Debug, Clone, Copy, PartialEq, Eq, Structural)]
pub enum ConnectionState {
    Unspecified,
    New,
    Connecting,
    Connected,
    Disconnected,
    Failed,
    Closed,
}

/// The states that a data channel goes through.
#[derive(Debug, Clone, Copy, PartialEq, Eq, Structural)]
pub enum ChannelState {
    Unspecified,
    Connecting,
    Open,
    Closing,
    Closed,
}

/// What WebRTC reports of a connection.
#[derive(Debug, Clone, Copy)]
pub enum PeerEvent {
    /// The connection has changed to this state.
    Connection(ConnectionState),
    IceGathering,
    IceConnection,
    /// The other side has made this data channel.
    ChannelArrived(u64),
    ChannelOpen,
    ChannelClosed,
    ChannelError,
}

/// What the tasks of a connection share.
#[derive(Debug)]
pub struct Link {
    /// The data channel, as a number by which whoever runs it finds it again.
    pub channel: Option<u64>,
    pub state: PeerState,
}

impl Link {
    /// A connection that is being made; the side that offers has its data
    /// channel from the start.
    pub fn new(channel: Option<u64>) -> (r: Link)
        ensures
            r == (Link { channel, state: PeerState::Connecting }),
    {
        Link { channel, state: PeerState::Connecting }
    }

    /// What an event makes of the connection.
    pub open spec fn after(self, event: PeerEvent) -> Link {
        match event {
            PeerEvent::Connection(ConnectionState::Failed) => Link {
                state: PeerState::Failed,
                ..self
            },
            PeerEvent::ChannelArrived(channel) => Link { channel: Some(channel), ..self },
            PeerEvent::ChannelOpen => Link { state: PeerState::Connected, ..self },
            PeerEvent::ChannelClosed => Link { state: PeerState::Disconnected, ..self },
            _ => self,
        }
    }

    /// Takes note of an event, and tells whether the tasks of the connection
    /// are to be cancelled.
    pub fn on_event(&mut self, event: PeerEvent) -> (r: bool)
        ensures
            *final(self) == old(self).after(event),
            final(self).channel == match event {
                PeerEvent::ChannelArrived(channel) => Some(channel),
                _ => old(self).channel,
            },
            r == (event is ChannelClosed),
    {
        match event {
            PeerEvent::Connection(state) => {
                match state {
                    ConnectionState::Failed => {
                        self.state = PeerState::Failed;
                    },
                    _ => {},
                }
                false
            },
            PeerEvent::ChannelArrived(channel) => {
                self.channel = Some(channel);
                false
            },
            PeerEvent::ChannelOpen => {
                self.state = PeerState::Connected;
                false
            },
            PeerEvent::ChannelClosed => {
                self.state = PeerState::Disconnected;
                true
            },
            PeerEvent::IceGathering => false,
            PeerEvent::IceConnection => false,
            PeerEvent::ChannelError => false,
        }
    }
}

/// Which side of a connection a peer is.
#[derive(Debug, Clone, Copy, PartialEq, Eq, Structural)]
pub enum Role {
    /// It offers a session.
    Offerer,
    /// It answers an offer.
    Answerer,
}

/// One step of the negotiation of a connection.
#[derive(Debug, Clone, Copy, PartialEq, Eq, Structural)]
pub enum Stage {
    /// Open a connection with the configured ICE servers, listen to its state,
    /// and exchange candidates through the configured channels.
    OpenConnection,
    /// Make the data channel, and listen to it.
    CreateChannel,
    /// Listen for the data channel that the other side makes.
    WatchChannel,
    /// Make the offer the remote description.
    SetRemote,
    CreateOffer,
    CreateAnswer,
    /// Make what was created the local description.
    SetLocal,
    /// Wait until all candidates are gathered.
    AwaitGathering,
}

/// The steps that lead to a local description.
pub open spec fn plan(role: Role, trickle: bool) -> Seq<Stage> {
    let first = match role {
        Role::Offerer => seq![
            Stage::OpenConnection,
            Stage::CreateChannel,
            Stage::CreateOffer,
            Stage::SetLocal,
        ],
        Role::Answerer => seq![
            Stage::OpenConnection,
            Stage::WatchChannel,
            Stage::SetRemote,
            Stage::CreateAnswer,
            Stage::SetLocal,
        ],
    };
    if trickle {
        first
    } else {
        first.push(Stage::AwaitGathering)
    }
}

/// A negotiation on its way to a local description.
#[derive(Debug)]
pub struct Negotiation {
    role: Role,
    trickle: bool,
    done: usize,
}

impl View for Negotiation {
    type V = Seq<Stage>;

    /// The steps that are left.
    closed spec fn view(&self) -> Seq<Stage> {
        plan(self.role, self.trickle).skip(self.done as int)
    }
}

impl Negotiation {
    #[verifier::type_invariant]
    spec fn well_formed(self) -> bool {
        self.done <= plan(self.role, self.trickle).len()
    }

    /// All steps are left.
    pub fn new(role: Role, config: &Config) -> (r: Negotiation)
        ensures
            r@ == plan(role, config.signal is Some),
    {
        let r = Negotiation { role, trickle: config.trickle(), done: 0 };
        assert(r@ =~= plan(role, config.signal is Some));
        r
    }

    /// The step to take, if one is left.
    pub fn stage(&self) -> (r: Option<Stage>)
        ensures
            r == (if self@.len() > 0 {
                Some(self@[0])
            } else {
                None
            }),
    {
        proof {
            use_type_invariant(self);
        }
        match self.role {
            Role::Offerer => match self.done {
                0 => Some(Stage::OpenConnection),
                1 => Some(Stage::CreateChannel),
                2 => Some(Stage::CreateOffer),
                3 => Some(Stage::SetLocal),
                4 => if self.trickle {
                    None
                } else {
                    Some(Stage::AwaitGathering)
                },
                _ => None,
            },
            Role::Answerer => match self.done {
                0 => Some(Stage::OpenConnection),
                1 => Some(Stage::WatchChannel),
                2 => Some(Stage::SetRemote),
                3 => Some(Stage::CreateAnswer),
                4 => Some(Stage::SetLocal),
                5 => if self.trickle {
                    None
                } else {
                    Some(Stage::AwaitGathering)
                },
                _ => None,
            },
        }
    }

    /// Takes note of what a step came to. A step that fails ends the
    /// negotiation; waiting for candidates does not fail.
    pub fn advance(&mut self, outcome: Result<(), String>) -> (r: Result<(), PeerError>)
        ensures
            if old(self)@.len() == 0 {
                r == Ok::<(), PeerError>(()) && final(self)@ == old(self)@
            } else {
                match outcome {
                    Err(e) => if old(self)@[0] is AwaitGathering {
                        r == Ok::<(), PeerError>(()) && final(self)@ == old(self)@.skip(1)
                    } else {
                        r == Err::<(), PeerError>(PeerError::WebRTC(e)) && final(self)@ == old(self)@
                    },
                    Ok(_) => r == Ok::<(), PeerError>(()) && final(self)@ == old(self)@.skip(1),
                }
            },
    {
        proof {
            use_type_invariant(&*self);
        }
        match self.stage() {
            None => Ok(()),
            Some(stage) => {
                let failed: Option<String> = match outcome {
                    Ok(_) => None,
                    Err(e) => match stage {
                        Stage::AwaitGathering => None,
                        _ => Some(e),
                    },
                };
                match failed {
                    Some(e) => Err(PeerError::WebRTC(e)),
                    None => {
                        self.done = self.done + 1;
                        assert(self@ =~= old(self)@.skip(1));
                        Ok(())
                    },
                }
            },
        }
    }
}

/// The description that a negotiation ends with.
pub fn local_description(local: Option<SessionDescription>) -> (r: Result<
    SessionDescription,
    PeerError,
>)
    ensures
        r == (match local {
            Some(description) => Ok::<SessionDescription, PeerError>(description),
            None => Err(PeerError::Other),
        }),
{
    match local {
        Some(description) => Ok(description),
        None => Err(PeerError::Other),
    }
}

/// What a task that takes the other side's candidates waits for.
pub enum CandidateEvent {
    Cancelled,
    /// A candidate, or that no more will come.
    Received(Option<IceCandidate>),
}

/// What it does with it.
pub enum CandidateStep {
    /// Stop, and cancel the other tasks of the connection.
    Stop,
    /// Add the candidate, whether or not that works, and wait for the next.
    Add(IceCandidate),
}

/// What becomes of the other side's candidates.
pub fn candidate_step(event: CandidateEvent) -> (r: CandidateStep)
    ensures
        r == (match event {
            CandidateEvent::Received(Some(ice)) => CandidateStep::Add(ice),
            _ => CandidateStep::Stop,
        }),
{
    match event {
        CandidateEvent::Cancelled => CandidateStep::Stop,
        CandidateEvent::Received(None) => CandidateStep::Stop,
        CandidateEvent::Received(Some(ice)) => CandidateStep::Add(ice),
    }
}

/// The candidate of this side to send, if there is one: gathering ends without
/// one, and one that does not convert is left out. Without channels for
/// candidates none is sent.
pub fn candidate_to_send(trickle: bool, found: Option<Result<IceCandidate, String>>) -> (r: Option<
    IceCandidate,
>)
    ensures
        r == (match found {
            Some(Ok(ice)) => if trickle {
                Some(ice)
            } else {
                None
            },
            _ => None,
        }),
{
    match found {
        Some(Ok(ice)) => if trickle {
            Some(ice)
        } else {
            None
        },
        Some(Err(_)) => None,
        None => None,
    }
}

/// What is handed on of what came through the data channel: a message, as it
/// came and unverified. What does not decode is left out.
pub fn message_received(decoded: Result<Message, String>) -> (r: Option<Message>)
    ensures
        r == (match decoded {
            Ok(message) => Some(message),
            Err(_) => None,
        }),
{
    match decoded {
        Ok(message) => Some(message),
        Err(_) => None,
    }
}

/// How far a peer's connection is.
pub trait PeerConnectingState: Sealed {

}

/// The offer is made; the answer is not there yet.
#[derive(Debug)]
pub struct WaitingAnswer;

impl Sealed for WaitingAnswer {

}

impl PeerConnectingState for WaitingAnswer {

}

/// The answer is made; the data channel is not there yet.
#[derive(Debug)]
pub struct WaitingICE;

impl Sealed for WaitingICE {

}

impl PeerConnectingState for WaitingICE {

}

/// The data channel has been open.
#[derive(Debug)]
pub struct Connected;

impl Sealed for Connected {

}

impl PeerConnectingState for Connected {

}

/// A peer's connection to another, as a number by which whoever runs it finds it
/// again.
#[derive(Debug)]
pub struct Peer<S: PeerConnectingState> {
    conn: u64,
    _state: PhantomData<S>,
}

impl<S: PeerConnectingState> View for Peer<S> {
    type V = u64;

    closed spec fn view(&self) -> u64 {
        self.conn
    }
}

impl<S: PeerConnectingState> Peer<S> {
    /// The side that offers, once the negotiation has given its description.
    pub fn new(conn: u64, local: Option<SessionDescription>) -> (r: Result<
        (Peer<WaitingAnswer>, SessionDescription),
        PeerError,
    >)
        ensures
            match local {
                Some(description) => r matches Ok((peer, offer)) && peer@ == conn && offer
                    == description,
                None => r == Err::<(Peer<WaitingAnswer>, SessionDescription), PeerError>(
                    PeerError::Other,
                ),
            },
    {
        match local_description(local) {
            Ok(offer) => Ok((Peer { conn, _state: PhantomData }, offer)),
            Err(e) => Err(e),
        }
    }

    /// The side that answers, once the negotiation has given its description.
    pub fn from_offer(conn: u64, local: Option<SessionDescription>) -> (r: Result<
        (Peer<WaitingICE>, SessionDescription),
        PeerError,
    >)
        ensures
            match local {
                Some(description) => r matches Ok((peer, answer)) && peer@ == conn && answer
                    == description,
                None => r == Err::<(Peer<WaitingICE>, SessionDescription), PeerError>(
                    PeerError::Other,
                ),
            },
    {
        match local_description(local) {
            Ok(answer) => Ok((Peer { conn, _state: PhantomData }, answer)),
            Err(e) => Err(e),
        }
    }

    /// How the peer is to the other.
    pub fn get_peer_states(&self, link: &Link) -> (r: PeerState)
        ensures
            r == link.state,
    {
        link.state
    }
}

impl Peer<WaitingAnswer> {
    /// Connects once the answer is the remote description and the data channel
    /// is open. `remote` is what setting the description came to, and `opened`
    /// whether the channel opened.
    pub fn set_remote_answer(
        self,
        link: &mut Link,
        remote: Result<(), String>,
        opened: bool,
    ) -> (r: Result<Peer<Connected>, PeerError>)
        ensures
            match remote {
                Err(e) => r == Err::<Peer<Connected>, PeerError>(PeerError::WebRTC(e)) && *final(link) == *old(link),
                Ok(_) => if opened {
                    &&& r matches Ok(peer) && peer@ == self@
                    &&& *final(link) == (Link { state: PeerState::Connected, ..*old(link) })
                } else {
                    &&& r == Err::<Peer<Connected>, PeerError>(PeerError::Other)
                    &&& *final(link) == *old(link)
                },
            },
    {
        match remote {
            Err(e) => Err(PeerError::WebRTC(e)),
            Ok(_) => {
                if !opened {
                    return Err(PeerError::Other);
                }
                link.state = PeerState::Connected;
                Ok(Peer { conn: self.conn, _state: PhantomData })
            },
        }
    }
}

impl Peer<WaitingICE> {
    /// The data channel to wait for, if the other side has made one.
    pub fn channel(&self, link: &Link) -> (r: Result<u64, PeerError>)
        ensures
            r == (match link.channel {
                Some(channel) => Ok::<u64, PeerError>(channel),
                None => Err(PeerError::DataChannelNotAvailable),
            }),
    {
        match link.channel {
            Some(channel) => Ok(channel),
            None => Err(PeerError::DataChannelNotAvailable),
        }
    }

    /// Connects once the data channel that the other side has made is open.
    /// `opened` is whether it opened.
    pub fn wait(self, link: &mut Link, opened: bool) -> (r: Result<Peer<Connected>, PeerError>)
        ensures
            match old(link).channel {
                None => r == Err::<Peer<Connected>, PeerError>(PeerError::DataChannelNotAvailable)
                    && *final(link) == *old(link),
                Some(_) => if opened {
                    &&& r matches Ok(peer) && peer@ == self@
                    &&& *final(link) == (Link { state: PeerState::Connected, ..*old(link) })
                } else {
                    &&& r == Err::<Peer<Connected>, PeerError>(PeerError::Other)
                    &&& *final(link) == *old(link)
                },
            },
    {
        match self.channel(link) {
            Err(e) => Err(e),
            Ok(_) => {
                if !opened {
                    return Err(PeerError::Other);
                }
                link.state = PeerState::Connected;
                Ok(Peer { conn: self.conn, _state: PhantomData })
            },
        }
    }
}

impl Peer<Connected> {
    /// The data channel and the bytes to send, where the message was encoded and
    /// the channel is open.
    pub fn send(
        &self,
        link: &Link,
        encoded: Result<Vec<u8>, String>,
        state: ChannelState,
    ) -> (r: Result<(u64, Vec<u8>), PeerError>)
        ensures
            r == (match encoded {
                Err(e) => Err::<(u64, Vec<u8>), PeerError>(PeerError::MessageSerialize(e)),
                Ok(bytes) => match link.channel {
                    Some(channel) => if state is Open {
                        Ok((channel, bytes))
                    } else {
                        Err(PeerError::PeerNotConnected)
                    },
                    None => Err(PeerError::PeerNotConnected),
                },
            }),
    {
        match encoded {
            Err(e) => Err(PeerError::MessageSerialize(e)),
            Ok(bytes) => match link.channel {
                Some(channel) => match state {
                    ChannelState::Open => Ok((channel, bytes)),
                    _ => Err(PeerError::PeerNotConnected),
                },
                None => Err(PeerError::PeerNotConnected),
            },
        }
    }

    /// What sending through the data channel comes to.
    pub fn sent(outcome: Result<(), String>) -> (r: Result<(), PeerError>)
        ensures
            r == (match outcome {
                Ok(_) => Ok::<(), PeerError>(()),
                Err(e) => Err(PeerError::WebRTC(e)),
            }),
    {
        match outcome {
            Ok(_) => Ok(()),
            Err(e) => Err(PeerError::WebRTC(e)),
        }
    }

    /// The connection whose messages are the peer's.
    pub fn receiver(&self) -> (r: u64)
        ensures
            r == self@,
    {
        self.conn
    }

    /// What receiving comes to: it does not fail, and ends with the connection.
    pub fn recv(received: Option<Message>) -> (r: Result<Option<Message>, PeerError>)
        ensures
            r == Ok::<Option<Message>, PeerError>(received),
    {
        Ok(received)
    }

    /// Ends the connection. Once it is closed, its tasks are to be cancelled and
    /// nothing more is to be received from it; where it does not close, they
    /// stay.
    pub fn disconnect(self, closed: Result<(), String>) -> (r: Result<u64, PeerError>)
        ensures
            r == (match closed {
                Ok(_) => Ok::<u64, PeerError>(self@),
                Err(e) => Err(PeerError::WebRTC(e)),
            }),
    {
        match closed {
            Ok(_) => Ok(self.conn),
            Err(e) => Err(PeerError::WebRTC(e)),
        }
    }
}

/// Where candidates do not go one by one, a description is read only once all of
/// them are gathered; where they do, none is waited for.
pub proof fn gathering_is_awaited_exactly_without_trickle(role: Role, trickle: bool)
    ensures
        plan(role, trickle).contains(Stage::AwaitGathering) <==> !trickle,
        !trickle ==> plan(role, trickle).last() is AwaitGathering,
        trickle ==> plan(role, trickle).last() is SetLocal,
{
    if !trickle {
        let p = plan(role, trickle);
        assert(p[p.len() - 1] is AwaitGathering);
    }
}

/// A peer is connected once its data channel opens, and no longer once the
/// channel closes or the connection fails, whatever happened before.
pub proof fn a_peer_follows_its_channel(link: Link)
    ensures
        link.after(PeerEvent::ChannelClosed).state == PeerState::Disconnected,
        link.after(PeerEvent::Connection(ConnectionState::Failed)).state == PeerState::Failed,
        link.after(PeerEvent::ChannelOpen).state == PeerState::Connected,
{
}

/// No event takes the data channel away: after each the connection has the
/// channel that it had, unless the other side has made one, which it then has.
/// The state changes with the three events that say so, and with no other.
pub proof fn events_change_what_they_name(link: Link, event: PeerEvent)
    ensures
        link.after(event).channel == match event {
            PeerEvent::ChannelArrived(channel) => Some(channel),
            _ => link.channel,
        },
        event is ChannelOpen ==> link.after(event).state == PeerState::Connected,
        event is ChannelClosed ==> link.after(event).state == PeerState::Disconnected,
        event == PeerEvent::Connection(ConnectionState::Failed) ==> link.after(event).state
            == PeerState::Failed,
        !(event is ChannelOpen) && !(event is ChannelClosed) && event != PeerEvent::Connection(
            ConnectionState::Failed,
        ) ==> link.after(event).state == link.state,
{
}

/// What a connection is after these events, one after the other.
pub open spec fn after_all(link: Link, events: Seq<PeerEvent>) -> Link {
    events.fold_left(link, |l: Link, event: PeerEvent| l.after(event))
}

/// Whatever happens, a connection that has a data channel keeps one; the side
/// that offers keeps the one that it made, as long as the other makes none.
pub proof fn a_channel_is_never_lost(link: Link, events: Seq<PeerEvent>)
    ensures
        link.channel is Some ==> after_all(link, events).channel is Some,
        (forall|i: int| 0 <= i < events.len() ==> !((#[trigger] events[i]) is ChannelArrived))
            ==> after_all(link, events).channel == link.channel,
    decreases events.len(),
{
    if events.len() > 0 {
        a_channel_is_never_lost(link, events.drop_last());
        events_change_what_they_name(after_all(link, events.drop_last()), events.last());
        assert forall|i: int| 0 <= i < events.drop_last().len() implies (
        #[trigger] events.drop_last()[i]) == events[i] by {}
        assert(events.last() == events[events.len() - 1]);
    }
}

/// How the peer is stays until the channel opens or closes or the connection
/// fails, whatever else happens.
pub proof fn a_state_lasts(link: Link, events: Seq<PeerEvent>)
    requires
        forall|i: int|
            0 <= i < events.len() ==> !((#[trigger] events[i]) is ChannelOpen) && !(
            events[i] is ChannelClosed) && events[i] != PeerEvent::Connection(
                ConnectionState::Failed,
            ),
    ensures
        after_all(link, events).state == link.state,
    decreases events.len(),
{
    if events.len() > 0 {
        let before = events.drop_last();
        assert forall|i: int| 0 <= i < before.len() implies !((#[trigger] before[i]) is ChannelOpen)
            && !(before[i] is ChannelClosed) && before[i] != PeerEvent::Connection(
            ConnectionState::Failed,
        ) by {
            assert(before[i] == events[i]);
        }
        a_state_lasts(link, before);
        assert(events.last() == events[events.len() - 1]);
        events_change_what_they_name(after_all(link, before), events.last());
    }
}

/// The steps of a negotiation, each once and in their order: the connection
/// comes first; the side that offers makes the data channel before its offer; the
/// side that answers listens for the channel and takes the offer before its
/// answer; what was created then becomes the local description. Where candidates
/// do not go one by one, they are waited for after all of that.
pub proof fn a_negotiation_takes_its_steps_in_order(trickle: bool)
    ensures
        ({
            let offer = plan(Role::Offerer, trickle);
            let waits = if trickle {
                0int
            } else {
                1int
            };
            &&& offer.len() == 4 + waits
            &&& offer[0] is OpenConnection && offer[1] is CreateChannel && offer[2] is CreateOffer
                && offer[3] is SetLocal
        }),
        ({
            let answer = plan(Role::Answerer, trickle);
            let waits = if trickle {
                0int
            } else {
                1int
            };
            &&& answer.len() == 5 + waits
            &&& answer[0] is OpenConnection && answer[1] is WatchChannel && answer[2] is SetRemote
                && answer[3] is CreateAnswer && answer[4] is SetLocal
        }),
        forall|role: Role|
            plan(role, false) == #[trigger] plan(role, true).push(Stage::AwaitGathering),
{
}

/// Where another party's error is the reason, its words end the text, behind the
/// same words each time.
pub proof fn peer_errors_keep_the_reason(a: String, none: String)
    requires
        none@.len() == 0,
    ensures
        PeerError::WebRTC(a).text_spec() == PeerError::WebRTC(none).text_spec() + a@,
        PeerError::MessageSerialize(a).text_spec() == PeerError::MessageSerialize(none).text_spec()
            + a@,
{
    assert(PeerError::WebRTC(a).text_spec() =~= PeerError::WebRTC(none).text_spec() + a@);
    assert(PeerError::MessageSerialize(a).text_spec() =~= PeerError::MessageSerialize(
        none,
    ).text_spec() + a@);
}

/// What WebRTC reports makes of a connection what it says, and takes nothing
/// away; only the closing of the data channel ends the tasks.
pub proof fn reports_are_taken_note_of(link: &mut Link, event: PeerEvent, ends: bool)
    requires
        call_ensures(Link::on_event, (link, event), ends),
    ensures
        ends <==> event is ChannelClosed,
        event matches PeerEvent::ChannelArrived(channel) ==> final(link).channel == Some(channel),
        !(event is ChannelArrived) ==> final(link).channel == old(link).channel,
        event is ChannelOpen ==> final(link).state == PeerState::Connected,
        event is ChannelClosed ==> final(link).state == PeerState::Disconnected,
        event == PeerEvent::Connection(ConnectionState::Failed) ==> final(link).state
            == PeerState::Failed,
        !(event is ChannelOpen) && !(event is ChannelClosed) && event != PeerEvent::Connection(
            ConnectionState::Failed,
        ) ==> final(link).state == old(link).state,
{
}

/// Whatever was reported since, each side can send while its channel is open: the
/// side that offers through the channel that it made, as long as the other makes
/// none, and the other through the last one that was made. What is sent is what
/// the message was encoded to.
pub proof fn both_sides_can_send(
    link: Link,
    before: Seq<PeerEvent>,
    made: u64,
    since: Seq<PeerEvent>,
    peer: &Peer<Connected>,
    bytes: Vec<u8>,
    offerer: Result<(u64, Vec<u8>), PeerError>,
    answerer: Result<(u64, Vec<u8>), PeerError>,
)
    requires
        forall|i: int| 0 <= i < since.len() ==> !((#[trigger] since[i]) is ChannelArrived),
        call_ensures(
            Peer::<Connected>::send,
            (peer, &after_all(link, since), Ok(bytes), ChannelState::Open),
            offerer,
        ),
        call_ensures(
            Peer::<Connected>::send,
            (
                peer,
                &after_all(after_all(link, before).after(PeerEvent::ChannelArrived(made)), since),
                Ok(bytes),
                ChannelState::Open,
            ),
            answerer,
        ),
    ensures
        link.channel matches Some(channel) ==> offerer == Ok::<(u64, Vec<u8>), PeerError>(
            (channel, bytes),
        ),
        answerer == Ok::<(u64, Vec<u8>), PeerError>((made, bytes)),
{
    a_channel_is_never_lost(link, since);
    let arrived = after_all(link, before).after(PeerEvent::ChannelArrived(made));
    events_change_what_they_name(after_all(link, before), PeerEvent::ChannelArrived(made));
    a_channel_is_never_lost(arrived, since);
}

/// Nothing is sent that was not encoded, without a channel, or through one that
/// is not open.
pub proof fn nothing_is_sent_in_vain(
    peer: &Peer<Connected>,
    link: &Link,
    encoded: Result<Vec<u8>, String>,
    state: ChannelState,
    r: Result<(u64, Vec<u8>), PeerError>,
)
    requires
        call_ensures(Peer::<Connected>::send, (peer, link, encoded, state), r),
    ensures
        r is Ok <==> encoded is Ok && link.channel is Some && state is Open,
        r matches Ok((channel, bytes)) ==> link.channel == Some(channel) && encoded == Ok::<
            Vec<u8>,
            String,
        >(bytes),
        encoded matches Err(e) ==> r == Err::<(u64, Vec<u8>), PeerError>(
            PeerError::MessageSerialize(e),
        ),
        encoded is Ok && r is Err ==> r == Err::<(u64, Vec<u8>), PeerError>(
            PeerError::PeerNotConnected,
        ),
{
}

/// A peer is connected exactly where its channel opened, after the answer was
/// taken or the other side's channel was there; it keeps its number and its
/// channel. Where it is not connected, nothing changes.
pub proof fn a_peer_connects_once_its_channel_opens(
    offering: Peer<WaitingAnswer>,
    a: &mut Link,
    remote: Result<(), String>,
    answering: Peer<WaitingICE>,
    b: &mut Link,
    opened: bool,
    offerer: Result<Peer<Connected>, PeerError>,
    answerer: Result<Peer<Connected>, PeerError>,
)
    requires
        call_ensures(Peer::<WaitingAnswer>::set_remote_answer, (offering, a, remote, opened), offerer),
        call_ensures(Peer::<WaitingICE>::wait, (answering, b, opened), answerer),
    ensures
        offerer is Ok <==> remote is Ok && opened,
        answerer is Ok <==> old(b).channel is Some && opened,
        offerer matches Ok(peer) ==> peer@ == offering@ && final(a).state == PeerState::Connected,
        answerer matches Ok(peer) ==> peer@ == answering@ && final(b).state == PeerState::Connected,
        final(a).channel == old(a).channel,
        final(b).channel == old(b).channel,
        offerer is Err ==> *final(a) == *old(a),
        answerer is Err ==> *final(b) == *old(b),
        remote matches Err(e) ==> offerer == Err::<Peer<Connected>, PeerError>(
            PeerError::WebRTC(e),
        ),
        old(b).channel is None ==> answerer == Err::<Peer<Connected>, PeerError>(
            PeerError::DataChannelNotAvailable,
        ),
{
}

/// A candidate that this side found goes out as it is where candidates go one by
/// one, and one that comes in is added as it is.
pub proof fn candidates_pass_unchanged(
    ice: IceCandidate,
    out: Option<IceCandidate>,
    kept: Option<IceCandidate>,
    added: CandidateStep,
)
    requires
        call_ensures(candidate_to_send, (true, Some(Ok::<IceCandidate, String>(ice))), out),
        call_ensures(candidate_to_send, (false, Some(Ok::<IceCandidate, String>(ice))), kept),
        call_ensures(candidate_step, (CandidateEvent::Received(Some(ice)),), added),
    ensures
        out == Some(ice),
        kept is None,
        added == CandidateStep::Add(ice),
{
}

/// A message that came through the data channel is handed on as it came.
pub proof fn what_was_sent_is_received(
    message: Message,
    handed: Option<Message>,
    r: Result<Option<Message>, PeerError>,
)
    requires
        call_ensures(message_received, (Ok::<Message, String>(message),), handed),
        call_ensures(Peer::<Connected>::recv, (handed,), r),
    ensures
        r == Ok::<Option<Message>, PeerError>(Some(message)),
{
}

/// A negotiation takes one step at a time, the next only once the one before did
/// not fail; a step that fails is not passed over, unless it is the waiting for
/// candidates.
pub proof fn a_negotiation_goes_on_step_by_step(
    negotiation: &mut Negotiation,
    outcome: Result<(), String>,
    r: Result<(), PeerError>,
)
    requires
        call_ensures(Negotiation::advance, (negotiation, outcome), r),
        old(negotiation)@.len() > 0,
    ensures
        r is Ok <==> outcome is Ok || old(negotiation)@[0] is AwaitGathering,
        r is Ok ==> final(negotiation)@ == old(negotiation)@.drop_first(),
        r is Err ==> final(negotiation)@ == old(negotiation)@,
        outcome matches Err(e) ==> r is Err ==> r == Err::<(), PeerError>(PeerError::WebRTC(e)),
{
    assert(old(negotiation)@.skip(1) =~= old(negotiation)@.drop_first());
}

/// Each side has the description that its negotiation ended with, unchanged, and
/// the connection that it was made on; without a description there is no peer.
pub proof fn a_peer_has_its_description<S: PeerConnectingState>(
    conn: u64,
    local: Option<SessionDescription>,
    offering: Result<(Peer<WaitingAnswer>, SessionDescription), PeerError>,
    answering: Result<(Peer<WaitingICE>, SessionDescription), PeerError>,
)
    requires
        call_ensures(Peer::<S>::new, (conn, local), offering),
        call_ensures(Peer::<S>::from_offer, (conn, local), answering),
    ensures
        offering is Ok <==> local is Some,
        answering is Ok <==> local is Some,
        offering matches Ok((peer, offer)) ==> peer@ == conn && local == Some(offer),
        answering matches Ok((peer, answer)) ==> peer@ == conn && local == Some(answer),
{
}

/// A connection is ended as the one that it is, exactly where it closes; and what
/// sending comes to is what the channel says.
pub proof fn a_connection_ends_where_it_closes(
    peer: Peer<Connected>,
    outcome: Result<(), String>,
    ended: Result<u64, PeerError>,
    sent: Result<(), PeerError>,
)
    requires
        call_ensures(Peer::<Connected>::disconnect, (peer, outcome), ended),
        call_ensures(Peer::<Connected>::sent, (outcome,), sent),
    ensures
        outcome is Ok ==> ended == Ok::<u64, PeerError>(peer@) && sent == Ok::<(), PeerError>(()),
        outcome matches Err(e) ==> ended == Err::<u64, PeerError>(PeerError::WebRTC(e)) && sent
            == Err::<(), PeerError>(PeerError::WebRTC(e)),
{
}

} // verus!

//! What clients and signalling services tell each other.

use crate::collections::Key;
use crate::message::PeerIndex;
use crate::text;
use crate::text::push_decimal;
use vstd::prelude::*;

pub mod client;
pub mod roster;
pub mod server;
pub mod wire;

verus! {

/// The address and the identity of a signalling service.
#[derive(Debug, Hash)]
pub struct SignalInfo {
    /// A host, as an address or a name, and a port.
    pub addr: (String, u16),
    pub id: PeerIndex,
}

/// What a [`SignalInfo`] holds.
pub struct SignalView {
    pub host: Seq<char>,
    pub port: u16,
    pub id: Seq<u8>,
}

impl SignalView {
    /// The service's address under a scheme.
    pub open spec fn url(self, scheme: Seq<char>) -> Seq<char> {
        scheme + "://"@ + self.host + ":"@ + text::decimal(self.port as nat)
    }
}

impl View for SignalInfo {
    type V = SignalView;

    open spec fn view(&self) -> SignalView {
        SignalView { host: self.addr.0@, port: self.addr.1, id: self.id@ }
    }
}

impl SignalInfo {
    fn url(&self, scheme: &str) -> (r: String)
        ensures
            r@ == self@.url(scheme@),
    {
        let mut r: String = scheme.to_owned();
        r.append("://");
        r.append(self.addr.0.as_str());
        r.append(":");
        push_decimal(&mut r, self.addr.1 as u64);
        r
    }

    /// The root of what the service answers over HTTP.
    pub fn to_http(&self) -> (r: String)
        ensures
            r@ == self@.url("http"@),
    {
        self.url("http")
    }

    /// The root of the service's web sockets.
    pub fn to_ws(&self) -> (r: String)
        ensures
            r@ == self@.url("ws"@),
    {
        self.url("ws")
    }

    /// Whether both are the same service at the same address.
    pub fn same(&self, other: &SignalInfo) -> (r: bool)
        ensures
            r == (self@ == other@),
    {
        self.addr.0 == other.addr.0 && self.addr.1 == other.addr.1 && self.id.same(&other.id)
    }
}

impl Clone for SignalInfo {
    fn clone(&self) -> (r: Self)
        ensures
            r == *self,
    {
        SignalInfo { addr: (self.addr.0.clone(), self.addr.1), id: self.id }
    }
}

impl PartialEq for SignalInfo {
    fn eq(&self, other: &Self) -> (r: bool) {
        self.same(other)
    }
}

impl vstd::std_specs::cmp::PartialEqSpecImpl for SignalInfo {
    open spec fn obeys_eq_spec() -> bool {
        true
    }

    open spec fn eq_spec(&self, other: &Self) -> bool {
        self@ == other@
    }
}

impl Eq for SignalInfo {

}

impl Key for SignalInfo {
    fn same(&self, other: &Self) -> (r: bool) {
        SignalInfo::same(self, other)
    }

    fn copy(&self) -> (r: Self) {
        self.clone()
    }
}

/// What a client says first to a signalling service.
#[derive(Debug)]
pub struct InitClientToSig {
    pub known_signals: Vec<SignalInfo>,
}

/// What a signalling service says first to a client.
#[derive(Debug)]
pub struct InitSigToClient {
    pub known_signals: Vec<SignalInfo>,
}

/// The role of a session description.
#[derive(Debug, Clone, Copy, PartialEq, Eq, Structural)]
pub enum SdpType {
    Unspecified,
    Offer,
    Pranswer,
    Answer,
    Rollback,
}

/// A session description, with its text as it is sent.
#[derive(Debug)]
pub struct SessionDescription {
    pub sdp_type: SdpType,
    pub sdp: String,
}

impl Clone for SessionDescription {
    fn clone(&self) -> (r: Self)
        ensures
            r == *self,
    {
        SessionDescription { sdp_type: self.sdp_type, sdp: self.sdp.clone() }
    }
}

/// An ICE candidate, as it is sent.
#[derive(Debug)]
pub struct IceCandidate {
    pub candidate: String,
    pub sdp_mid: Option<String>,
    pub sdp_mline_index: Option<u16>,
    pub username_fragment: Option<String>,
}

fn copy_text(text: &Option<String>) -> (r: Option<String>)
    ensures
        r == *text,
{
    match text {
        Some(t) => Some(t.clone()),
        None => None,
    }
}

/// Whether both texts are there and alike, or both are missing.
pub open spec fn same_optional(a: Option<String>, b: Option<String>) -> bool {
    match (a, b) {
        (Some(x), Some(y)) => x@ == y@,
        (None, None) => true,
        _ => false,
    }
}

fn same_text(a: &Option<String>, b: &Option<String>) -> (r: bool)
    ensures
        r == same_optional(*a, *b),
{
    match (a, b) {
        (Some(x), Some(y)) => *x == *y,
        (None, None) => true,
        _ => false,
    }
}

fn same_index(a: Option<u16>, b: Option<u16>) -> (r: bool)
    ensures
        r == (a == b),
{
    match (a, b) {
        (Some(x), Some(y)) => x == y,
        (None, None) => true,
        _ => false,
    }
}

impl Clone for IceCandidate {
    fn clone(&self) -> (r: Self)
        ensures
            r == *self,
    {
        IceCandidate {
            candidate: self.candidate.clone(),
            sdp_mid: copy_text(&self.sdp_mid),
            sdp_mline_index: self.sdp_mline_index,
            username_fragment: copy_text(&self.username_fragment),
        }
    }
}

impl Default for IceCandidate {
    /// The candidate that says nothing.
    fn default() -> (r: IceCandidate)
        ensures
            r.candidate@ == Seq::<char>::empty(),
            r.sdp_mid is None,
            r.sdp_mline_index is None,
            r.username_fragment is None,
    {
        IceCandidate {
            candidate: String::new(),
            sdp_mid: None,
            sdp_mline_index: None,
            username_fragment: None,
        }
    }
}

/// Whether two candidates say the same.
pub open spec fn same_candidate(a: IceCandidate, b: IceCandidate) -> bool {
    &&& a.candidate@ == b.candidate@
    &&& same_optional(a.sdp_mid, b.sdp_mid)
    &&& a.sdp_mline_index == b.sdp_mline_index
    &&& same_optional(a.username_fragment, b.username_fragment)
}

impl PartialEq for IceCandidate {
    fn eq(&self, other: &Self) -> (r: bool) {
        self.candidate == other.candidate && same_text(&self.sdp_mid, &other.sdp_mid) && same_index(
            self.sdp_mline_index,
            other.sdp_mline_index,
        ) && same_text(&self.username_fragment, &other.username_fragment)
    }
}

impl vstd::std_specs::cmp::PartialEqSpecImpl for IceCandidate {
    open spec fn obeys_eq_spec() -> bool {
        true
    }

    open spec fn eq_spec(&self, other: &Self) -> bool {
        same_candidate(*self, *other)
    }
}

impl Eq for IceCandidate {

}

/// What peers tell each other through the signalling services.
#[derive(Debug)]
pub enum SignalData {
    Sdp(Box<SessionDescription>),
    Ice(IceCandidate),
}

impl SignalData {
    pub fn is_sdp(&self) -> (r: bool)
        ensures
            r == (self is Sdp),
    {
        match self {
            SignalData::Sdp(_) => true,
            SignalData::Ice(_) => false,
        }
    }

    pub fn is_ice(&self) -> (r: bool)
        ensures
            r == (self is Ice),
    {
        match self {
            SignalData::Sdp(_) => false,
            SignalData::Ice(_) => true,
        }
    }
}

impl Clone for SignalData {
    fn clone(&self) -> (r: Self)
        ensures
            r == *self,
    {
        match self {
            SignalData::Sdp(sdp) => SignalData::Sdp(Box::new((**sdp).clone())),
            SignalData::Ice(ice) => SignalData::Ice(ice.clone()),
        }
    }
}

/// Two descriptions are alike where their texts are, whatever their roles; two
/// candidates where all their fields are.
pub open spec fn same_data(a: SignalData, b: SignalData) -> bool {
    match (a, b) {
        (SignalData::Sdp(x), SignalData::Sdp(y)) => x.sdp@ == y.sdp@,
        (SignalData::Ice(x), SignalData::Ice(y)) => same_candidate(x, y),
        _ => false,
    }
}

impl PartialEq for SignalData {
    fn eq(&self, other: &Self) -> (r: bool) {
        match (self, other) {
            (SignalData::Sdp(a), SignalData::Sdp(b)) => a.sdp == b.sdp,
            (SignalData::Ice(a), SignalData::Ice(b)) => *a == *b,
            _ => false,
        }
    }
}

impl vstd::std_specs::cmp::PartialEqSpecImpl for SignalData {
    open spec fn obeys_eq_spec() -> bool {
        true
    }

    open spec fn eq_spec(&self, other: &Self) -> bool {
        same_data(*self, *other)
    }
}

impl Eq for SignalData {

}

/// One piece of signalling from one peer to another.
#[derive(Debug)]
pub struct SignalMessage {
    pub origin: PeerIndex,
    pub to: PeerIndex,
    pub data: SignalData,
}

impl Clone for SignalMessage {
    fn clone(&self) -> (r: Self)
        ensures
            r == *self,
    {
        SignalMessage { origin: self.origin, to: self.to, data: self.data.clone() }
    }
}

impl PartialEq for SignalMessage {
    fn eq(&self, other: &Self) -> (r: bool) {
        self.origin == other.origin && self.to == other.to && self.data == other.data
    }
}

impl vstd::std_specs::cmp::PartialEqSpecImpl for SignalMessage {
    open spec fn obeys_eq_spec() -> bool {
        true
    }

    open spec fn eq_spec(&self, other: &Self) -> bool {
        self.origin@ == other.origin@ && self.to@ == other.to@ && same_data(self.data, other.data)
    }
}

impl Eq for SignalMessage {

}

/// Equality of signalling data is an equivalence.
pub proof fn signal_data_equality_is_an_equivalence(a: SignalData, b: SignalData, c: SignalData)
    ensures
        same_data(a, a),
        same_data(a, b) ==> same_data(b, a),
        same_data(a, b) && same_data(b, c) ==> same_data(a, c),
{
}

/// A description never equals a candidate.
pub proof fn sdp_differs_from_ice(a: SignalData, b: SignalData)
    requires
        a is Sdp,
        b is Ice,
    ensures
        !same_data(a, b),
        !same_data(b, a),
{
}

/// A service's address under a scheme is the scheme, the host and the port.
pub proof fn an_address_has_host_and_port(sig: SignalView)
    ensures
        sig.url("http"@) == "http://"@ + sig.host + ":"@ + text::decimal(sig.port as nat),
        sig.url("ws"@) == "ws://"@ + sig.host + ":"@ + text::decimal(sig.port as nat),
{
    reveal_strlit("http");
    reveal_strlit("ws");
    reveal_strlit("://");
    reveal_strlit("http://");
    reveal_strlit("ws://");
    assert("http"@ + "://"@ =~= "http://"@);
    assert("ws"@ + "://"@ =~= "ws://"@);
}

/// A service is its host, its port and its key: two are equal exactly where all
/// three are.
pub proof fn a_service_is_its_address_and_its_key(a: SignalInfo, b: SignalInfo)
    ensures
        a@.host == a.addr.0@,
        a@.port == a.addr.1,
        a@.id == a.id@,
        vstd::std_specs::cmp::PartialEqSpec::eq_spec(&a, &b) <==> a.addr.0@ == b.addr.0@ && a.addr.1
            == b.addr.1 && a.id@ == b.id@,
{
}

/// Descriptions are equal where their texts are, whatever their roles; candidates
/// where each of their four fields is; and pieces of signalling where they say
/// the same from the same peer to the same peer.
pub proof fn signalling_is_equal_where_it_says_the_same(
    a: SignalMessage,
    b: SignalMessage,
    x: SessionDescription,
    y: SessionDescription,
    c: IceCandidate,
    d: IceCandidate,
)
    ensures
        same_data(SignalData::Sdp(Box::new(x)), SignalData::Sdp(Box::new(y))) <==> x.sdp@ == y.sdp@,
        same_data(SignalData::Ice(c), SignalData::Ice(d)) <==> c.candidate@ == d.candidate@
            && c.sdp_mline_index == d.sdp_mline_index && (c.sdp_mid is Some <==> d.sdp_mid is Some)
            && (c.sdp_mid is Some && d.sdp_mid is Some ==> c.sdp_mid->0@ == d.sdp_mid->0@) && (
        c.username_fragment is Some <==> d.username_fragment is Some) && (
        c.username_fragment is Some && d.username_fragment is Some ==> c.username_fragment->0@
            == d.username_fragment->0@),
        vstd::std_specs::cmp::PartialEqSpec::eq_spec(&c, &d) <==> same_data(
            SignalData::Ice(c),
            SignalData::Ice(d),
        ),
        vstd::std_specs::cmp::PartialEqSpec::eq_spec(&a.data, &b.data) <==> same_data(
            a.data,
            b.data,
        ),
        vstd::std_specs::cmp::PartialEqSpec::eq_spec(&a, &b) <==> a.origin@ == b.origin@ && a.to@
            == b.to@ && same_data(a.data, b.data),
{
}

} // verus!

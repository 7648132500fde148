//! Connections that hand out authentic messages only, and each of them once.

use crate::message::{Message, Nonce, PeerIndex};
use vstd::prelude::*;

verus! {

/// How long a message is remembered.
pub const TTL_SECS: u64 = 10 * 60;

/// How many messages are remembered at most.
pub const MAX_CAPACITY: u64 = 10_000;

/// Why a message is not handed out.
#[derive(Debug)]
pub enum VerificationError<E> {
    /// The connection failed.
    Inner(E),
    /// The message is not authentic.
    Sign,
    /// The message was handed out before.
    Replay,
}

impl<E> VerificationError<E> {
    pub open spec fn text_spec(self, inner: Seq<char>) -> Seq<char> {
        match self {
            VerificationError::Inner(_) => inner,
            VerificationError::Sign => "failed to trust the message because of unmatched sign"@,
            VerificationError::Replay => "failed to trust the message because the message is replayed"@,
        }
    }

    /// The error in words; `inner` is what the connection's error says.
    pub fn text(&self, inner: &str) -> (r: String)
        ensures
            r@ == self.text_spec(inner@),
    {
        match self {
            VerificationError::Inner(_) => inner.to_owned(),
            VerificationError::Sign => "failed to trust the message because of unmatched sign".to_owned(),
            VerificationError::Replay => "failed to trust the message because the message is replayed".to_owned(),
        }
    }
}

/// By what a message is remembered: its author and its nonce.
#[derive(Clone, Copy, Debug, Hash)]
pub struct Fingerprint {
    pub origin: PeerIndex,
    pub nonce: Nonce,
}

impl PartialEq for Fingerprint {
    fn eq(&self, other: &Self) -> (r: bool) {
        self.origin.same(&other.origin) && crate::keys::same_bytes(
            self.nonce.as_slice(),
            other.nonce.as_slice(),
        )
    }
}

impl vstd::std_specs::cmp::PartialEqSpecImpl for Fingerprint {
    open spec fn obeys_eq_spec() -> bool {
        true
    }

    open spec fn eq_spec(&self, other: &Self) -> bool {
        self.origin@ == other.origin@ && self.nonce@ == other.nonce@
    }
}

impl Eq for Fingerprint {

}

/// A message whose signature has been found to be its author's.
#[derive(Debug)]
pub struct Authentic {
    message: Message,
}

impl View for Authentic {
    type V = Message;

    closed spec fn view(&self) -> Message {
        self.message
    }
}

impl Authentic {
    #[verifier::type_invariant]
    spec fn well_formed(self) -> bool {
        self.message.authentic()
    }

    /// The message, if it is authentic.
    pub fn new(message: Message) -> (r: Option<Authentic>)
        ensures
            match r {
                Some(authentic) => message.authentic() && authentic@ == message,
                None => !message.authentic(),
            },
    {
        if message.verify() {
            Some(Authentic { message })
        } else {
            None
        }
    }

    /// What the message is to be looked up under, and remembered by from then on.
    pub fn fingerprint(&self) -> (r: Fingerprint)
        ensures
            r.origin == self@.origin,
            r.nonce == self@.nonce,
    {
        Fingerprint { origin: self.message.origin, nonce: self.message.nonce }
    }

    /// Hands out the message, if it is new.
    pub fn release<E>(self, fresh: bool) -> (r: Result<Option<Message>, VerificationError<E>>)
        ensures
            self@.authentic(),
            r == (if fresh {
                Ok::<Option<Message>, VerificationError<E>>(Some(self@))
            } else {
                Err(VerificationError::Replay)
            }),
    {
        proof {
            use_type_invariant(&self);
        }
        if fresh {
            Ok(Some(self.message))
        } else {
            Err(VerificationError::Replay)
        }
    }
}

/// What is to be done with what a connection handed out.
pub enum Inspected<E> {
    /// Nothing is handed out.
    Refused(VerificationError<E>),
    /// The connection is closed.
    Closed,
    /// The message is handed out if it is new.
    Authentic(Authentic),
}

/// What is handed out of what a connection handed out, where `fresh` says that
/// its fingerprint was not remembered.
pub open spec fn handed_out<E>(received: Result<Option<Message>, E>, fresh: bool) -> Result<
    Option<Message>,
    VerificationError<E>,
> {
    match received {
        Err(e) => Err(VerificationError::Inner(e)),
        Ok(None) => Ok(None),
        Ok(Some(message)) => if !message.authentic() {
            Err(VerificationError::Sign)
        } else if !fresh {
            Err(VerificationError::Replay)
        } else {
            Ok(Some(message))
        },
    }
}

/// Judges what a connection handed out. Only an authentic message is to be looked
/// up.
pub fn inspect<E>(received: Result<Option<Message>, E>) -> (r: Inspected<E>)
    ensures
        match received {
            Err(e) => r == Inspected::<E>::Refused(VerificationError::Inner(e)),
            Ok(None) => r == Inspected::<E>::Closed,
            Ok(Some(message)) => if message.authentic() {
                r matches Inspected::Authentic(authentic) && authentic@ == message
            } else {
                r == Inspected::<E>::Refused(VerificationError::Sign)
            },
        },
{
    match received {
        Err(e) => Inspected::Refused(VerificationError::Inner(e)),
        Ok(None) => Inspected::Closed,
        Ok(Some(message)) => match Authentic::new(message) {
            Some(authentic) => Inspected::Authentic(authentic),
            None => Inspected::Refused(VerificationError::Sign),
        },
    }
}

/// What is handed out of what a connection handed out. `fresh` counts only for
/// an authentic message.
pub fn recv<E>(received: Result<Option<Message>, E>, fresh: bool) -> (r: Result<
    Option<Message>,
    VerificationError<E>,
>)
    ensures
        r == handed_out(received, fresh),
{
    match inspect(received) {
        Inspected::Refused(e) => Err(e),
        Inspected::Closed => Ok(None),
        Inspected::Authentic(authentic) => authentic.release(fresh),
    }
}

/// What sending through the connection comes to.
pub fn send<E>(sent: Result<(), E>) -> (r: Result<(), VerificationError<E>>)
    ensures
        r == (match sent {
            Ok(_) => Ok::<(), VerificationError<E>>(()),
            Err(e) => Err(VerificationError::Inner(e)),
        }),
{
    match sent {
        Ok(_) => Ok(()),
        Err(e) => Err(VerificationError::Inner(e)),
    }
}

/// Every message that is handed out is authentic, new, and unchanged.
pub proof fn only_authentic_and_new_is_handed_out<E>(
    received: Result<Option<Message>, E>,
    fresh: bool,
    message: Message,
)
    requires
        handed_out(received, fresh) == Ok::<Option<Message>, VerificationError<E>>(Some(message)),
    ensures
        message.authentic(),
        fresh,
        received == Ok::<Option<Message>, E>(Some(message)),
{
}

/// A message that verifies comes through once; a second time it is a replay.
pub proof fn a_message_comes_through_once<E>(message: Message)
    requires
        message.authentic(),
    ensures
        handed_out::<E>(Ok(Some(message)), true) == Ok::<Option<Message>, VerificationError<E>>(
            Some(message),
        ),
        handed_out::<E>(Ok(Some(message)), false) == Err::<Option<Message>, VerificationError<E>>(
            VerificationError::Replay,
        ),
{
}

/// The fingerprint of a message, by its parts.
pub open spec fn fingerprint(message: Message) -> (Seq<u8>, Seq<u8>) {
    (message.origin@, message.nonce@)
}

/// The fingerprints that are remembered once all of these messages have come,
/// where none is forgotten.
pub open spec fn remembered(messages: Seq<Message>) -> Set<(Seq<u8>, Seq<u8>)>
    decreases messages.len(),
{
    if messages.len() == 0 {
        Set::empty()
    } else if messages.last().authentic() {
        remembered(messages.drop_last()).insert(fingerprint(messages.last()))
    } else {
        remembered(messages.drop_last())
    }
}

/// What is handed out when message `i` of these comes.
pub open spec fn outcome<E>(messages: Seq<Message>, i: int) -> Result<
    Option<Message>,
    VerificationError<E>,
> {
    handed_out(
        Ok::<Option<Message>, E>(Some(messages[i])),
        !remembered(messages.take(i)).contains(fingerprint(messages[i])),
    )
}

proof fn remembered_is_what_came(messages: Seq<Message>, f: (Seq<u8>, Seq<u8>))
    ensures
        remembered(messages).contains(f) <==> exists|i: int|
            0 <= i < messages.len() && (#[trigger] messages[i]).authentic() && fingerprint(
                messages[i],
            ) == f,
    decreases messages.len(),
{
    if messages.len() > 0 {
        let rest = messages.drop_last();
        remembered_is_what_came(rest, f);
        if remembered(rest).contains(f) {
            let i = choose|i: int|
                0 <= i < rest.len() && (#[trigger] rest[i]).authentic() && fingerprint(rest[i]) == f;
            assert(messages[i] == rest[i]);
        }
        if exists|i: int|
            0 <= i < messages.len() && (#[trigger] messages[i]).authentic() && fingerprint(
                messages[i],
            ) == f {
            let i = choose|i: int|
                0 <= i < messages.len() && (#[trigger] messages[i]).authentic() && fingerprint(
                    messages[i],
                ) == f;
            if i < rest.len() {
                assert(rest[i] == messages[i]);
            }
        }
        if messages.last().authentic() {
            assert(messages[messages.len() - 1].authentic());
        }
    }
}

/// However messages come, of those with the same author and nonce at most one is
/// handed out as long as none is forgotten; and the first authentic one is.
pub proof fn replays_are_refused<E>(messages: Seq<Message>, i: int, j: int)
    requires
        0 <= i < j < messages.len(),
        fingerprint(messages[i]) == fingerprint(messages[j]),
    ensures
        !(outcome::<E>(messages, i) is Ok && outcome::<E>(messages, j) is Ok),
        messages[i].authentic() && (forall|k: int|
            0 <= k < i && (#[trigger] messages[k]).authentic() ==> fingerprint(messages[k])
                != fingerprint(messages[i])) ==> outcome::<E>(messages, i) == Ok::<
            Option<Message>,
            VerificationError<E>,
        >(Some(messages[i])),
        messages[i].authentic() && messages[j].authentic() ==> outcome::<E>(messages, j) == Err::<
            Option<Message>,
            VerificationError<E>,
        >(VerificationError::Replay),
{
    remembered_is_what_came(messages.take(i), fingerprint(messages[i]));
    remembered_is_what_came(messages.take(j), fingerprint(messages[j]));
    if messages[i].authentic() {
        assert(messages.take(j)[i] == messages[i]);
        assert(remembered(messages.take(j)).contains(fingerprint(messages[j])));
        if remembered(messages.take(i)).contains(fingerprint(messages[i])) {
            let k = choose|k: int|
                0 <= k < i && (#[trigger] messages.take(i)[k]).authentic() && fingerprint(
                    messages.take(i)[k],
                ) == fingerprint(messages[i]);
            assert(messages[k] == messages.take(i)[k]);
        }
    }
}

/// A message, and when it came through one of the connections that remember
/// messages together.
pub struct Arrival {
    pub at: int,
    pub message: Message,
}

/// Whether a fingerprint is still remembered at a time, where `entered` says when
/// each was entered last, and none has been dropped to make room.
pub open spec fn still_remembered(
    entered: Map<(Seq<u8>, Seq<u8>), int>,
    ttl: int,
    f: (Seq<u8>, Seq<u8>),
    at: int,
) -> bool {
    entered.contains_key(f) && at - entered[f] < ttl
}

/// When each fingerprint was entered last, once all of these have come. One that
/// is still remembered is not entered anew.
pub open spec fn entered(arrivals: Seq<Arrival>, ttl: int) -> Map<(Seq<u8>, Seq<u8>), int>
    decreases arrivals.len(),
{
    if arrivals.len() == 0 {
        Map::empty()
    } else {
        let before = entered(arrivals.drop_last(), ttl);
        let last = arrivals.last();
        let f = fingerprint(last.message);
        if last.message.authentic() && !still_remembered(before, ttl, f, last.at) {
            before.insert(f, last.at)
        } else {
            before
        }
    }
}

/// What is handed out when arrival `i` of these comes, where a fingerprint is
/// forgotten after `ttl`.
pub open spec fn outcome_within<E>(arrivals: Seq<Arrival>, ttl: int, i: int) -> Result<
    Option<Message>,
    VerificationError<E>,
> {
    handed_out(
        Ok::<Option<Message>, E>(Some(arrivals[i].message)),
        !still_remembered(
            entered(arrivals.take(i), ttl),
            ttl,
            fingerprint(arrivals[i].message),
            arrivals[i].at,
        ),
    )
}

/// Whether time does not run backwards from one arrival to the next.
pub open spec fn in_order(arrivals: Seq<Arrival>) -> bool {
    forall|i: int, j: int|
        0 <= i <= j < arrivals.len() ==> (#[trigger] arrivals[i]).at <= (#[trigger] arrivals[j]).at
}

proof fn entered_is_what_was_handed_out<E>(
    arrivals: Seq<Arrival>,
    ttl: int,
    n: int,
    f: (Seq<u8>, Seq<u8>),
)
    requires
        0 <= n <= arrivals.len(),
        in_order(arrivals),
    ensures
        forall|i: int|
            0 <= i < n && fingerprint((#[trigger] arrivals[i]).message) == f && outcome_within::<E>(
                arrivals,
                ttl,
                i,
            ) is Ok ==> entered(arrivals.take(n), ttl).contains_key(f) && arrivals[i].at <= entered(
                arrivals.take(n),
                ttl,
            )[f],
        entered(arrivals.take(n), ttl).contains_key(f) ==> exists|i: int|
            0 <= i < n && fingerprint((#[trigger] arrivals[i]).message) == f && outcome_within::<E>(
                arrivals,
                ttl,
                i,
            ) is Ok && arrivals[i].at == entered(arrivals.take(n), ttl)[f],
    decreases n,
{
    if n > 0 {
        entered_is_what_was_handed_out::<E>(arrivals, ttl, n - 1, f);
        assert(arrivals.take(n).drop_last() =~= arrivals.take(n - 1));
        let last = arrivals[n - 1];
        assert(arrivals.take(n).last() == last);
        if outcome_within::<E>(arrivals, ttl, n - 1) is Ok && fingerprint(last.message) == f {
            assert(entered(arrivals.take(n), ttl)[f] == last.at);
        } else {
            assert(entered(arrivals.take(n), ttl).contains_key(f) == entered(
                arrivals.take(n - 1),
                ttl,
            ).contains_key(f));
        }
    }
}

/// An authentic message comes through exactly where none with its author and
/// nonce came through less than the lifetime before; otherwise it is a replay. So
/// a replay within the lifetime is refused, through whichever connection it
/// comes, and after it the message comes through again.
pub proof fn replays_are_refused_for_a_lifetime<E>(arrivals: Seq<Arrival>, ttl: int, j: int)
    requires
        0 <= j < arrivals.len(),
        in_order(arrivals),
        arrivals[j].message.authentic(),
    ensures
        outcome_within::<E>(arrivals, ttl, j) == (if (exists|i: int|
            0 <= i < j && fingerprint((#[trigger] arrivals[i]).message) == fingerprint(
                arrivals[j].message,
            ) && outcome_within::<E>(arrivals, ttl, i) is Ok && arrivals[j].at - arrivals[i].at
                < ttl) {
            Err::<Option<Message>, VerificationError<E>>(VerificationError::Replay)
        } else {
            Ok(Some(arrivals[j].message))
        }),
{
    entered_is_what_was_handed_out::<E>(arrivals, ttl, j, fingerprint(arrivals[j].message));
}

/// What a connection hands out is handed on with its error, and with its end; a
/// message is handed on, unchanged, exactly where strict verification under its
/// author's key accepts it and it is new, and otherwise refused: for its
/// signature before anything else, then as a replay.
pub proof fn what_comes_is_judged_by_its_signature_and_its_novelty<E>(
    message: Message,
    error: E,
    fresh: bool,
)
    ensures
        handed_out::<E>(Err(error), fresh) == Err::<Option<Message>, VerificationError<E>>(
            VerificationError::Inner(error),
        ),
        handed_out::<E>(Ok(None), fresh) == Ok::<Option<Message>, VerificationError<E>>(None),
        ({
            let signed = crate::keys::ed25519_verify_strict(
                message.origin@,
                message.content@ + crate::message::be_bytes(message.timestamp) + message.nonce@,
                message.sig@,
            );
            let out = handed_out::<E>(Ok(Some(message)), fresh);
            &&& signed && fresh ==> out == Ok::<Option<Message>, VerificationError<E>>(
                Some(message),
            )
            &&& signed && !fresh ==> out == Err::<Option<Message>, VerificationError<E>>(
                VerificationError::Replay,
            )
            &&& !signed ==> out == Err::<Option<Message>, VerificationError<E>>(
                VerificationError::Sign,
            )
        }),
{
    crate::message::only_the_authors_signature_is_authentic(message);
}

/// Two messages are remembered as one exactly where they have the same author
/// and the same nonce.
pub proof fn a_fingerprint_is_author_and_nonce(
    a: Message,
    b: Message,
    f: Fingerprint,
    g: Fingerprint,
)
    ensures
        fingerprint(a) == fingerprint(b) <==> a.origin@ == b.origin@ && a.nonce@ == b.nonce@,
        vstd::std_specs::cmp::PartialEqSpec::eq_spec(&f, &g) <==> f.origin@ == g.origin@ && f.nonce@
            == g.nonce@,
{
}

/// An error of the connection speaks for itself.
pub proof fn refusals_in_words<E>(error: E, inner: Seq<char>)
    ensures
        VerificationError::Inner(error).text_spec(inner) == inner,
        VerificationError::<E>::Sign.text_spec(inner)
            == "failed to trust the message because of unmatched sign"@,
        VerificationError::<E>::Replay.text_spec(inner)
            == "failed to trust the message because the message is replayed"@,
{
}

/// What is handed out of a connection is authentic and new, and it is what came;
/// and all that is authentic and new is handed out.
pub proof fn all_that_is_authentic_and_new_is_handed_out<E>(
    message: Message,
    error: E,
    fresh: bool,
    out: Result<Option<Message>, VerificationError<E>>,
    failed: Result<Option<Message>, VerificationError<E>>,
    ended: Result<Option<Message>, VerificationError<E>>,
)
    requires
        call_ensures(recv::<E>, (Ok(Some(message)), fresh), out),
        call_ensures(recv::<E>, (Err(error), fresh), failed),
        call_ensures(recv::<E>, (Ok(None), fresh), ended),
    ensures
        ({
            let signed = crate::keys::ed25519_verify_strict(
                message.origin@,
                message.content@ + crate::message::be_bytes(message.timestamp) + message.nonce@,
                message.sig@,
            );
            &&& out is Ok <==> signed && fresh
            &&& out is Ok ==> out == Ok::<Option<Message>, VerificationError<E>>(Some(message))
            &&& !signed ==> out == Err::<Option<Message>, VerificationError<E>>(
                VerificationError::Sign,
            )
            &&& signed && !fresh ==> out == Err::<Option<Message>, VerificationError<E>>(
                VerificationError::Replay,
            )
        }),
        failed == Err::<Option<Message>, VerificationError<E>>(VerificationError::Inner(error)),
        ended == Ok::<Option<Message>, VerificationError<E>>(None),
{
    what_comes_is_judged_by_its_signature_and_its_novelty(message, error, fresh);
}

/// A message is looked up exactly where it is authentic, under its author and its
/// nonce, and is then handed out unchanged where it is new.
pub proof fn only_the_authentic_is_looked_up<E>(
    message: Message,
    inspected: Inspected<E>,
    under: Fingerprint,
    fresh: bool,
    out: Result<Option<Message>, VerificationError<E>>,
)
    requires
        call_ensures(inspect::<E>, (Ok(Some(message)),), inspected),
        inspected matches Inspected::Authentic(authentic) ==> call_ensures(
            Authentic::fingerprint,
            (&authentic,),
            under,
        ),
        inspected matches Inspected::Authentic(authentic) ==> call_ensures(
            Authentic::release::<E>,
            (authentic, fresh),
            out,
        ),
    ensures
        inspected is Authentic <==> crate::keys::ed25519_verify_strict(
            message.origin@,
            message.content@ + crate::message::be_bytes(message.timestamp) + message.nonce@,
            message.sig@,
        ),
        inspected is Authentic ==> under.origin == message.origin && under.nonce == message.nonce
            && out == (if fresh {
            Ok::<Option<Message>, VerificationError<E>>(Some(message))
        } else {
            Err(VerificationError::Replay)
        }),
        !(inspected is Authentic) ==> inspected == Inspected::<E>::Refused(VerificationError::Sign),
{
    crate::message::only_the_authors_signature_is_authentic(message);
}

} // verus!

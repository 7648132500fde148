//! What comes out of a connection, and handshakes over it.

use crate::message::Message;
use std::ops::ControlFlow;
use vstd::prelude::*;

verus! {

/// What a connection of bytes hands out where the connection of messages below
/// it hands out `received`: the content alone.
pub fn to_bytes<E>(received: Result<Option<Message>, E>) -> (r: Result<Option<Vec<u8>>, E>)
    ensures
        r == (match received {
            Ok(Some(message)) => Ok::<Option<Vec<u8>>, E>(Some(message.content)),
            Ok(None) => Ok(None),
            Err(e) => Err(e),
        }),
{
    match received {
        Ok(Some(message)) => Ok(Some(message.content)),
        Ok(None) => Ok(None),
        Err(e) => Err(e),
    }
}

/// A handshake that sends `T` and receives `R`.
///
/// Each side has a state from its first step on, whether it speaks first or not.
pub trait Handshake<T, R> {
    type State;

    type Error;

    type Return;

    /// The first state, or already the outcome, and what to send.
    fn start(&mut self) -> Result<
        (ControlFlow<Self::Return, Self::State>, Option<T>),
        Self::Error,
    >;

    /// What follows from a message.
    fn next_state(&mut self, state: Self::State, message: R) -> Result<
        (ControlFlow<Self::Return, Self::State>, Option<T>),
        Self::Error,
    >;
}

/// Why a handshake did not come to its end.
#[derive(Debug)]
pub enum HandshakeRunnerError<H, C> {
    Conn(C),
    Handshake(H),
    ConnClosed,
}

/// What a handshake needs next.
pub enum RunnerStep<T, S, Ret> {
    /// Send the message, if there is one, and wait for the next.
    Exchange(Option<T>, S),
    /// The handshake is over. What there still was to send is not sent.
    Done(Ret),
}

/// What follows from a step of a handshake.
pub open spec fn runner_step<T, S, Ret, H, C>(
    outcome: Result<(ControlFlow<Ret, S>, Option<T>), H>,
) -> Result<RunnerStep<T, S, Ret>, HandshakeRunnerError<H, C>> {
    match outcome {
        Err(e) => Err(HandshakeRunnerError::Handshake(e)),
        Ok((ControlFlow::Break(r), _)) => Ok(RunnerStep::Done(r)),
        Ok((ControlFlow::Continue(state), message)) => Ok(RunnerStep::Exchange(message, state)),
    }
}

/// What follows from a step of a handshake.
pub fn decide<T, S, Ret, H, C>(outcome: Result<(ControlFlow<Ret, S>, Option<T>), H>) -> (r: Result<
    RunnerStep<T, S, Ret>,
    HandshakeRunnerError<H, C>,
>)
    ensures
        r == runner_step::<T, S, Ret, H, C>(outcome),
{
    match outcome {
        Err(e) => Err(HandshakeRunnerError::Handshake(e)),
        Ok((ControlFlow::Break(r), _)) => Ok(RunnerStep::Done(r)),
        Ok((ControlFlow::Continue(state), message)) => Ok(RunnerStep::Exchange(message, state)),
    }
}

/// What sending a handshake's message comes to.
pub fn sent<H, C>(outcome: Result<(), C>) -> (r: Result<(), HandshakeRunnerError<H, C>>)
    ensures
        r == (match outcome {
            Ok(_) => Ok::<(), HandshakeRunnerError<H, C>>(()),
            Err(e) => Err(HandshakeRunnerError::Conn(e)),
        }),
{
    match outcome {
        Ok(_) => Ok(()),
        Err(e) => Err(HandshakeRunnerError::Conn(e)),
    }
}

/// What waiting for the other side's message comes to.
pub fn received<R, H, C>(outcome: Result<Option<R>, C>) -> (r: Result<
    R,
    HandshakeRunnerError<H, C>,
>)
    ensures
        r == (match outcome {
            Ok(Some(message)) => Ok::<R, HandshakeRunnerError<H, C>>(message),
            Ok(None) => Err(HandshakeRunnerError::ConnClosed),
            Err(e) => Err(HandshakeRunnerError::Conn(e)),
        }),
{
    match outcome {
        Ok(Some(message)) => Ok(message),
        Ok(None) => Err(HandshakeRunnerError::ConnClosed),
        Err(e) => Err(HandshakeRunnerError::Conn(e)),
    }
}

/// Starts a handshake. What comes back follows from what the handshake's own
/// `start` gave, and the handshake is as that left it.
pub fn start<T, R, H: Handshake<T, R>, C>(handshake: &mut H) -> (r: Result<
    RunnerStep<T, H::State, H::Return>,
    HandshakeRunnerError<H::Error, C>,
>)
    ensures
        exists|h: &mut H, outcome: Result<(ControlFlow<H::Return, H::State>, Option<T>), H::Error>|
            #[trigger] call_ensures(H::start, (h,), outcome) && *h == *old(handshake) && *final(h)
                == *final(handshake) && r == runner_step::<T, H::State, H::Return, H::Error, C>(
                outcome,
            ),
{
    let first = H::start;
    let outcome = first(handshake);
    decide(outcome)
}

/// Goes on with a handshake once the other side has been waited for. Where a
/// message came, what comes back follows from what the handshake's own
/// `next_state` made of it; where none came, the handshake is not asked.
pub fn advance<T, R, H: Handshake<T, R>, C>(
    handshake: &mut H,
    state: H::State,
    outcome: Result<Option<R>, C>,
) -> (r: Result<RunnerStep<T, H::State, H::Return>, HandshakeRunnerError<H::Error, C>>)
    ensures
        match outcome {
            Err(e) => r == Err::<
                RunnerStep<T, H::State, H::Return>,
                HandshakeRunnerError<H::Error, C>,
            >(HandshakeRunnerError::Conn(e)) && *final(handshake) == *old(handshake),
            Ok(None) => r == Err::<
                RunnerStep<T, H::State, H::Return>,
                HandshakeRunnerError<H::Error, C>,
            >(HandshakeRunnerError::ConnClosed) && *final(handshake) == *old(handshake),
            Ok(Some(message)) => exists|
                h: &mut H,
                next: Result<(ControlFlow<H::Return, H::State>, Option<T>), H::Error>,
            |
                #[trigger] call_ensures(H::next_state, (h, state, message), next) && *h
                    == *old(handshake) && *final(h) == *final(handshake) && r == runner_step::<
                    T,
                    H::State,
                    H::Return,
                    H::Error,
                    C,
                >(next),
        },
{
    match received(outcome) {
        Ok(message) => {
            let next_state = H::next_state;
            let next = next_state(handshake, state, message);
            decide(next)
        },
        Err(e) => Err(e),
    }
}

/// A handshake goes on exactly where it has a next state, with that state and
/// with what it has to send; it is over exactly where it says so, with what it
/// came to; and it fails with its own error.
pub proof fn a_handshake_decides_for_itself<T, S, Ret, H, C>(
    state: S,
    end: Ret,
    error: H,
    message: Option<T>,
)
    ensures
        runner_step::<T, S, Ret, H, C>(Ok((ControlFlow::Continue(state), message))) == Ok::<
            RunnerStep<T, S, Ret>,
            HandshakeRunnerError<H, C>,
        >(RunnerStep::Exchange(message, state)),
        runner_step::<T, S, Ret, H, C>(Ok((ControlFlow::Break(end), message))) == Ok::<
            RunnerStep<T, S, Ret>,
            HandshakeRunnerError<H, C>,
        >(RunnerStep::Done(end)),
        runner_step::<T, S, Ret, H, C>(Err(error)) == Err::<
            RunnerStep<T, S, Ret>,
            HandshakeRunnerError<H, C>,
        >(HandshakeRunnerError::Handshake(error)),
{
}

/// What waiting and sending come to is handed on: a message as it is, the end of
/// the connection as such, and its error as the connection's; and a connection of
/// bytes hands out just the content of what the one below it hands out.
pub proof fn connections_speak_for_themselves<R, H, C>(
    message: R,
    error: C,
    m: Message,
    waited: (
        Result<R, HandshakeRunnerError<H, C>>,
        Result<R, HandshakeRunnerError<H, C>>,
        Result<R, HandshakeRunnerError<H, C>>,
    ),
    spoken: (Result<(), HandshakeRunnerError<H, C>>, Result<(), HandshakeRunnerError<H, C>>),
    bytes: (
        Result<Option<Vec<u8>>, C>,
        Result<Option<Vec<u8>>, C>,
        Result<Option<Vec<u8>>, C>,
    ),
)
    requires
        call_ensures(received::<R, H, C>, (Ok(Some(message)),), waited.0),
        call_ensures(received::<R, H, C>, (Ok(None),), waited.1),
        call_ensures(received::<R, H, C>, (Err(error),), waited.2),
        call_ensures(sent::<H, C>, (Ok(()),), spoken.0),
        call_ensures(sent::<H, C>, (Err(error),), spoken.1),
        call_ensures(to_bytes::<C>, (Ok(Some(m)),), bytes.0),
        call_ensures(to_bytes::<C>, (Ok(None),), bytes.1),
        call_ensures(to_bytes::<C>, (Err(error),), bytes.2),
    ensures
        waited.0 == Ok::<R, HandshakeRunnerError<H, C>>(message),
        waited.1 == Err::<R, HandshakeRunnerError<H, C>>(HandshakeRunnerError::ConnClosed),
        waited.2 == Err::<R, HandshakeRunnerError<H, C>>(HandshakeRunnerError::Conn(error)),
        spoken.0 == Ok::<(), HandshakeRunnerError<H, C>>(()),
        spoken.1 == Err::<(), HandshakeRunnerError<H, C>>(HandshakeRunnerError::Conn(error)),
        bytes.0 == Ok::<Option<Vec<u8>>, C>(Some(m.content)),
        bytes.1 == Ok::<Option<Vec<u8>>, C>(None),
        bytes.2 == Err::<Option<Vec<u8>>, C>(error),
{
}

/// A handshake is asked for its next step exactly where a message came, with the
/// state that it gave before; a connection that ends or fails leaves it as it
/// was.
pub proof fn a_handshake_is_asked_only_for_what_came<T, R, H: Handshake<T, R>, C>(
    handshake: &mut H,
    state: H::State,
    outcome: Result<Option<R>, C>,
    r: Result<RunnerStep<T, H::State, H::Return>, HandshakeRunnerError<H::Error, C>>,
)
    requires
        call_ensures(advance::<T, R, H, C>, (handshake, state, outcome), r),
        !(outcome matches Ok(Some(_))),
    ensures
        *final(handshake) == *old(handshake),
        outcome matches Err(e) ==> r == Err::<
            RunnerStep<T, H::State, H::Return>,
            HandshakeRunnerError<H::Error, C>,
        >(HandshakeRunnerError::Conn(e)),
        outcome is Ok ==> r == Err::<
            RunnerStep<T, H::State, H::Return>,
            HandshakeRunnerError<H::Error, C>,
        >(HandshakeRunnerError::ConnClosed),
{
}

} // verus!

//! What comes out of a web socket, and what becomes of what goes into it.

use crate::message::{DecodeError, Message, MessageT};
use vstd::prelude::*;

verus! {

/// A frame decoded in two steps: its bytes to a message, and the message's
/// content to a `T` and the number of bytes that it took. Where a step fails,
/// the decoder's words say why.
pub type Decoded<T> = Result<(Message, Result<(T, usize), String>), String>;

/// What a web socket hands out.
pub enum Frame<T> {
    /// No more frames, or one that failed to come.
    Ended,
    /// The other side closes.
    Close,
    Data(Decoded<T>),
}

/// What a task that reads a web socket waits for.
pub enum LinkEvent<T> {
    Cancelled,
    Frame(Frame<T>),
}

/// The message and the content of a frame that decodes.
pub open spec fn opened<T>(data: Decoded<T>) -> Option<(Message, T)> {
    match data {
        Ok((message, Ok((content, read)))) => if read == message.content@.len() {
            Some((message, content))
        } else {
            None
        },
        _ => None,
    }
}

/// Why a frame does not decode.
pub open spec fn undecoded<T>(data: Decoded<T>) -> DecodeError<String> {
    match data {
        Err(e) => DecodeError::Decoder(e),
        Ok((_, Err(e))) => DecodeError::Decoder(e),
        _ => DecodeError::TrailingBytes,
    }
}

/// Opens a frame: the message with its content, verified, or why there is none.
pub fn open<T>(data: Decoded<T>) -> (r: Result<MessageT<T>, DecodeError<String>>)
    ensures
        match opened(data) {
            Some((message, content)) => r matches Ok(m) && m.decoded_from(message, content),
            None => r == Err::<MessageT<T>, DecodeError<String>>(undecoded(data)),
        },
        r is Ok <==> (data matches Ok((message, Ok((_, read)))) && read == message.content@.len()),
{
    match data {
        Ok((message, content)) => MessageT::try_from(message, content),
        Err(e) => Err(DecodeError::Decoder(e)),
    }
}

impl DecodeError<String> {
    pub open spec fn text_spec(self) -> Seq<char> {
        match self {
            DecodeError::Decoder(e) => e@,
            DecodeError::TrailingBytes => "trailing bytes"@,
        }
    }

    /// The error in words.
    pub fn text(&self) -> (r: String)
        ensures
            r@ == self.text_spec(),
    {
        match self {
            DecodeError::Decoder(e) => e.clone(),
            DecodeError::TrailingBytes => "trailing bytes".to_owned(),
        }
    }
}

/// What happens to a task that writes to a web socket.
pub enum SenderEvent<T> {
    /// There is something to send.
    Item(T),
    /// Nothing will be there to send any more.
    Exhausted,
    Cancelled,
    /// The item could not be encoded.
    NotEncoded,
    Sent,
    NotSent,
}

/// What a task that writes to a web socket does next.
pub enum SenderAction<T> {
    /// Encode the item, sign it and send it.
    Send(T),
    /// Wait for the next item.
    Wait,
    /// Send a close frame, whether or not that works, and cancel the other tasks
    /// of the connection.
    Close,
}

/// What follows each event. An item that cannot be encoded is passed over; one
/// that cannot be sent ends the task.
pub open spec fn sender_action<T>(event: SenderEvent<T>) -> SenderAction<T> {
    match event {
        SenderEvent::Item(item) => SenderAction::Send(item),
        SenderEvent::Sent | SenderEvent::NotEncoded => SenderAction::Wait,
        SenderEvent::Exhausted | SenderEvent::Cancelled | SenderEvent::NotSent => SenderAction::Close,
    }
}

pub fn sender_step<T>(event: SenderEvent<T>) -> (r: SenderAction<T>)
    ensures
        r == sender_action(event),
{
    match event {
        SenderEvent::Item(item) => SenderAction::Send(item),
        SenderEvent::Sent => SenderAction::Wait,
        SenderEvent::NotEncoded => SenderAction::Wait,
        SenderEvent::Exhausted => SenderAction::Close,
        SenderEvent::Cancelled => SenderAction::Close,
        SenderEvent::NotSent => SenderAction::Close,
    }
}

/// A frame whose bytes decode to a message, and whose content decodes to a value
/// that takes all of the content's bytes, opens to that message and that value,
/// however many bytes these are.
pub proof fn a_frame_read_to_its_end_opens<T>(message: Message, content: T, read: usize)
    requires
        read == message.content@.len(),
    ensures
        opened::<T>(Ok((message, Ok((content, read))))) == Some((message, content)),
{
}

/// Only such a frame opens. Of any other, the error is that bytes were left over
/// where both decoders succeeded, and otherwise the words of the one that did not.
pub proof fn only_a_frame_read_to_its_end_opens<T>(
    message: Message,
    content: T,
    read: usize,
    words: String,
)
    ensures
        read != message.content@.len() ==> opened::<T>(Ok((message, Ok((content, read))))) is None,
        read != message.content@.len() ==> undecoded::<T>(Ok((message, Ok((content, read)))))
            == DecodeError::<String>::TrailingBytes,
        opened::<T>(Ok((message, Err(words)))) is None,
        undecoded::<T>(Ok((message, Err(words)))) == DecodeError::Decoder(words),
        opened::<T>(Err(words)) is None,
        undecoded::<T>(Err(words)) == DecodeError::Decoder(words),
{
}

/// A decoder's own words are the error's words.
pub proof fn decoders_speak_for_themselves(words: String)
    ensures
        DecodeError::Decoder(words).text_spec() == words@,
        DecodeError::<String>::TrailingBytes.text_spec() == "trailing bytes"@,
{
}

/// A task that writes sends each item as it is, and goes on after each; it ends
/// where nothing is left to send, where it is cancelled, and where sending fails,
/// and for no other reason.
pub proof fn a_sender_sends_everything_until_it_fails<T>(event: SenderEvent<T>)
    ensures
        event matches SenderEvent::Item(item) ==> sender_action(event) == SenderAction::Send(item),
        sender_action(event) matches SenderAction::Send(sent) ==> event == SenderEvent::Item(sent),
        sender_action(event) is Close <==> event is Exhausted || event is Cancelled
            || event is NotSent,
        sender_action(event) is Wait <==> event is Sent || event is NotEncoded,
{
}

/// Opening a frame gives the message's fields and what verification says of it,
/// exactly where the content was read to its end; what is inauthentic opens too,
/// and says so.
pub proof fn opening_keeps_the_message<T>(
    data: Decoded<T>,
    r: Result<MessageT<T>, DecodeError<String>>,
)
    requires
        call_ensures(open::<T>, (data,), r),
    ensures
        match data {
            Ok((message, Ok((content, read)))) => if read == message.content@.len() {
                r == Ok::<MessageT<T>, DecodeError<String>>(
                    MessageT {
                        content,
                        timestamp: message.timestamp,
                        origin: message.origin,
                        sig: message.sig,
                        nonce: message.nonce,
                        verify_result: crate::keys::ed25519_verify_strict(
                            message.origin@,
                            message.content@ + crate::message::be_bytes(message.timestamp)
                                + message.nonce@,
                            message.sig@,
                        ),
                    },
                )
            } else {
                r == Err::<MessageT<T>, DecodeError<String>>(DecodeError::TrailingBytes)
            },
            Ok((_, Err(words))) => r == Err::<MessageT<T>, DecodeError<String>>(
                DecodeError::Decoder(words),
            ),
            Err(words) => r == Err::<MessageT<T>, DecodeError<String>>(DecodeError::Decoder(words)),
        },
{
    match data {
        Ok((message, Ok((content, read)))) => {
            match r {
                Ok(m) => crate::message::decoding_keeps_the_message(m, message, content),
                Err(_) => {},
            }
        },
        _ => {},
    }
}

} // verus!

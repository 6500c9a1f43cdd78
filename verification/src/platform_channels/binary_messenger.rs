//! Sending and receiving raw messages on named channels.
use vstd::prelude::*;

verus! {

/// Receives the answer to a message sent with a reply expected: the bytes
/// of the answer, or `None` when there is none.
pub trait BinaryReplyHandler {
    /// The answers received so far, oldest first.
    spec fn answers(&self) -> Seq<Option<Seq<u8>>>;

    fn reply(&mut self, data: Option<&[u8]>)
        ensures
            final(self).answers() == old(self).answers().push(answer_view(data)),
    ;
}

/// An answer as the logs hold it.
pub open spec fn answer_view(data: Option<&[u8]>) -> Option<Seq<u8>> {
    match data {
        Some(d) => Some(d@),
        None => None,
    }
}

/// Where the answer to a message goes, if one is expected.
pub type BinaryReply = Option<Box<dyn BinaryReplyHandler>>;

/// Handles the messages that arrive on a channel, with the means to answer.
pub trait BinaryMessageHandlerFn {
    /// The messages handled so far, oldest first.
    spec fn handled(&self) -> Seq<Seq<u8>>;

    /// Handles `message`; the engine always gives the means to answer.
    fn handle(&mut self, message: &[u8], reply: BinaryReply)
        requires
            reply is Some,
        ensures
            final(self).handled() == old(self).handled().push(message@),
    ;
}

/// A handler for a channel; `None` unregisters the channel's handler.
pub type BinaryMessageHandler = Option<Box<dyn BinaryMessageHandlerFn>>;

/// A message sent on a channel: the channel's name, the bytes, and the
/// handler its answer goes to (`None` when no answer is expected).
pub struct SentMessage {
    pub channel: Seq<char>,
    pub message: Seq<u8>,
    pub reply: BinaryReply,
}

/// Sends and receives raw messages on named channels.
pub trait BinaryMessenger {
    /// The messages sent so far, oldest first.
    spec fn sent(&self) -> Seq<SentMessage>;

    /// The handlers registered through this messenger, by channel.
    spec fn handlers(&self) -> Map<Seq<char>, BinaryMessageHandler>;

    /// Sends `message` on `channel`; an answer, if any, goes to `reply`.
    fn send(&mut self, channel: &str, message: &[u8], reply: BinaryReply)
        ensures
            final(self).sent() == old(self).sent().push(
                SentMessage { channel: channel@, message: message@, reply: reply },
            ),
            final(self).handlers() == old(self).handlers(),
    ;

    /// Registers the handler of `channel`, or removes it for `None`.
    fn set_message_handler(&mut self, channel: &str, handler: BinaryMessageHandler)
        ensures
            final(self).sent() == old(self).sent(),
            final(self).handlers() == (if handler is Some {
                old(self).handlers().insert(channel@, handler)
            } else {
                old(self).handlers().remove(channel@)
            }),
    ;
}

} // verus!

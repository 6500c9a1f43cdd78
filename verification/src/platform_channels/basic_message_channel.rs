//! A channel that carries messages of one type, encoded by a codec.
use vstd::prelude::*;
use std::rc::Rc;
use crate::platform_channels::binary_messenger::{
    BinaryMessageHandler, BinaryMessageHandlerFn, BinaryMessenger, BinaryReply, BinaryReplyHandler, SentMessage,
};
use crate::platform_channels::message_codec::MessageCodec;

verus! {

/// Receives the answer to a message of a channel, before it is encoded.
pub trait MessageReplyHandler<T> {
    /// The answers given so far, oldest first.
    spec fn answers(&self) -> Seq<Option<T>>;

    /// Answers with `response`; there is always one to send.
    fn reply(&mut self, response: Option<T>)
        requires
            response is Some,
        ensures
            final(self).answers() == old(self).answers().push(response),
    ;
}

/// Where the answer to a decoded message goes.
pub type MessageReply<T> = Option<Box<dyn MessageReplyHandler<T>>>;

/// Handles the decoded messages of a channel, with the means to answer.
pub trait MessageHandlerFn<T> {
    /// The messages received so far, oldest first.
    spec fn received(&self) -> Seq<Option<T>>;

    fn handle(&mut self, message: Option<T>, reply: MessageReply<T>)
        ensures
            final(self).received() == old(self).received().push(message),
    ;
}

/// A handler for a channel's decoded messages; `None` unregisters it.
pub type MessageHandler<T> = Option<Box<dyn MessageHandlerFn<T>>>;

/// The answer to a decoded message: encoded by the channel's codec, then
/// handed to the answer of the raw message.
#[verifier::reject_recursive_types(T)]
pub struct EncodingReply<T, C: MessageCodec<T> + ?Sized> {
    codec: Rc<C>,
    reply: Box<dyn BinaryReplyHandler>,
    answered: Ghost<Seq<Option<T>>>,
}

impl<T, C: MessageCodec<T> + ?Sized> EncodingReply<T, C> {
    /// The codec that encodes the answers.
    pub closed spec fn codec(&self) -> Rc<C> {
        self.codec
    }

    /// The answers that the raw message's reply has received.
    pub closed spec fn raw_answers(&self) -> Seq<Option<Seq<u8>>> {
        self.reply.answers()
    }

    /// An encoding reply over `reply`, with the answers encoded by `codec`.
    pub fn new(codec: Rc<C>, reply: Box<dyn BinaryReplyHandler>) -> (r: Self)
        ensures
            r.codec() == codec,
            r.answers() == Seq::<Option<T>>::empty(),
    {
        EncodingReply { codec, reply, answered: Ghost(Seq::empty()) }
    }
}

impl<T, C: MessageCodec<T> + ?Sized> MessageReplyHandler<T> for EncodingReply<T, C> {
    closed spec fn answers(&self) -> Seq<Option<T>> {
        self.answered@
    }

    /// The answer is encoded and handed to the raw message's reply.
    fn reply(&mut self, response: Option<T>)
        ensures
            final(self).codec() == old(self).codec(),
            response matches Some(x) ==> final(self).raw_answers() == old(self).raw_answers().push(
                Some(old(self).codec().spec_encode(x)),
            ),
    {
        proof {
            self.answered@ = self.answered@.push(response);
        }
        if let Some(response) = response {
            let encoded = self.codec.encode_message(&response);
            self.reply.reply(Some(encoded.as_slice()));
        }
    }
}

/// The raw handler of a channel: decodes each message with the channel's
/// codec and hands it to the channel's handler, whose answer is encoded on
/// the way back; a message that does not decode is answered with nothing.
#[verifier::reject_recursive_types(T)]
pub struct DecodingHandler<T, C: MessageCodec<T> + ?Sized> {
    codec: Rc<C>,
    handler: Box<dyn MessageHandlerFn<T>>,
    handled: Ghost<Seq<Seq<u8>>>,
}

impl<T, C: MessageCodec<T> + ?Sized> DecodingHandler<T, C> {
    /// The codec that decodes the messages.
    pub closed spec fn codec(&self) -> Rc<C> {
        self.codec
    }

    /// The decoded messages that the channel's handler has received.
    pub closed spec fn handler_received(&self) -> Seq<Option<T>> {
        self.handler.received()
    }

    /// A raw handler over the channel's `codec` and `handler`.
    pub fn new(codec: Rc<C>, handler: Box<dyn MessageHandlerFn<T>>) -> (r: Self)
        ensures
            r.codec() == codec,
            r.handled() == Seq::<Seq<u8>>::empty(),
    {
        DecodingHandler { codec, handler, handled: Ghost(Seq::empty()) }
    }

    /// What the handler does with the raw message `message`: `None` when it
    /// answers with nothing, else the decoded message handed on.
    pub closed spec fn step(&self, message: Seq<u8>) -> Option<T> {
        self.codec.spec_decode(message)
    }

    /// The message that the handler hands on for `message`, `None` when it
    /// does not decode (and the answer is then nothing).
    pub fn decoded(&self, message: &[u8]) -> (r: Option<T>)
        ensures
            r == self.step(message@),
    {
        self.codec.decode_message(message)
    }
}

impl<T: 'static, C: MessageCodec<T> + ?Sized + 'static> BinaryMessageHandlerFn for DecodingHandler<T, C> {
    closed spec fn handled(&self) -> Seq<Seq<u8>> {
        self.handled@
    }

    /// A message that decodes goes to the channel's handler, with a reply
    /// that encodes its answer; one that does not is answered with nothing
    /// and the channel's handler is not called.
    fn handle(&mut self, message: &[u8], reply: BinaryReply)
        ensures
            final(self).codec() == old(self).codec(),
            old(self).codec().spec_decode(message@) is None ==> final(self).handler_received() == old(
                self,
            ).handler_received(),
            old(self).codec().spec_decode(message@) is Some ==> final(self).handler_received() == old(
                self,
            ).handler_received().push(old(self).codec().spec_decode(message@)),
    {
        proof {
            self.handled@ = self.handled@.push(message@);
        }
        match reply {
            Some(mut reply) => match self.decoded(message) {
                None => reply.reply(None),
                Some(decoded) => {
                    let answer = EncodingReply::new(self.codec.clone(), reply);
                    let answer: Box<dyn MessageReplyHandler<T>> = Box::new(answer);
                    self.handler.handle(Some(decoded), Some(answer));
                },
            },
            None => {},
        }
    }
}

/// Registers a handler that is there (not a removal) on `messenger`.
fn register_handler<M: BinaryMessenger + ?Sized>(messenger: &mut M, channel: &str, handler: BinaryMessageHandler)
    requires
        handler is Some,
    ensures
        final(messenger).sent() == old(messenger).sent(),
        final(messenger).handlers().contains_key(channel@),
        final(messenger).handlers()[channel@] is Some,
        forall|c: Seq<char>|
            c != channel@ ==> {
                &&& #[trigger] final(messenger).handlers().contains_key(c) == old(messenger).handlers().contains_key(c)
                &&& final(messenger).handlers()[c] == old(messenger).handlers()[c]
            },
{
    messenger.set_message_handler(channel, handler);
}

/// A named channel whose messages of type `T` the codec turns into bytes
/// and the messenger carries.
pub struct BasicMessageChannel<'m, T, M: BinaryMessenger + ?Sized, C: MessageCodec<T> + ?Sized> {
    messenger: &'m mut M,
    name: String,
    codec: Rc<C>,
    _message: core::marker::PhantomData<T>,
}

impl<'m, T, M: BinaryMessenger + ?Sized, C: MessageCodec<T> + ?Sized> BasicMessageChannel<'m, T, M, C> {
    /// The channel's name.
    pub closed spec fn spec_name(&self) -> Seq<char> {
        self.name@
    }

    /// The messages that the channel's messenger has sent.
    pub closed spec fn sent(&self) -> Seq<SentMessage> {
        self.messenger.sent()
    }

    /// The handlers registered on the channel's messenger, by channel.
    pub closed spec fn handlers(&self) -> Map<Seq<char>, BinaryMessageHandler> {
        self.messenger.handlers()
    }

    /// The bytes that the channel's codec makes of `message`.
    pub closed spec fn encoded(&self, message: T) -> Seq<u8> {
        self.codec.spec_encode(message)
    }

    pub fn new(messenger: &'m mut M, name: String, codec: Rc<C>) -> (r: Self)
        ensures
            r.spec_name() == name@,
            r.sent() == old(messenger).sent(),
            r.handlers() == old(messenger).handlers(),
            forall|m: T| #[trigger] r.encoded(m) == codec.spec_encode(m),
    {
        BasicMessageChannel { messenger, name, codec, _message: core::marker::PhantomData }
    }

    /// Encodes `message` and sends it on the channel.
    pub fn send(&mut self, message: &T, reply: BinaryReply)
        ensures
            final(self).sent() == old(self).sent().push(
                SentMessage {
                    channel: old(self).spec_name(),
                    message: old(self).encoded(*message),
                    reply: reply,
                },
            ),
            final(self).handlers() == old(self).handlers(),
            final(self).spec_name() == old(self).spec_name(),
            forall|m: T| #[trigger] final(self).encoded(m) == old(self).encoded(m),
    {
        let message = self.codec.encode_message(message);
        self.messenger.send(self.name.as_str(), message.as_slice(), reply);
    }

    /// Registers `handler` for the channel's messages, behind a raw handler
    /// that decodes each message and encodes each answer; `None` removes
    /// the channel's handler.
    pub fn set_message_handler(&mut self, handler: MessageHandler<T>)
        where
            T: 'static,
            C: 'static,
        ensures
            final(self).sent() == old(self).sent(),
            final(self).spec_name() == old(self).spec_name(),
            forall|m: T| #[trigger] final(self).encoded(m) == old(self).encoded(m),
            handler is None ==> final(self).handlers() == old(self).handlers().remove(old(self).spec_name()),
            handler is Some ==> {
                &&& final(self).handlers().contains_key(old(self).spec_name())
                &&& final(self).handlers()[old(self).spec_name()] is Some
                &&& forall|c: Seq<char>|
                    c != old(self).spec_name() ==> {
                        &&& #[trigger] final(self).handlers().contains_key(c) == old(self).handlers().contains_key(c)
                        &&& final(self).handlers()[c] == old(self).handlers()[c]
                    }
            },
    {
        if handler.is_none() {
            self.messenger.set_message_handler(self.name.as_str(), None);
        } else {
            let handler = handler.unwrap();
            let raw = DecodingHandler::new(self.codec.clone(), handler);
            let raw: Box<dyn BinaryMessageHandlerFn> = Box::new(raw);
            let raw: BinaryMessageHandler = Some(raw);
            register_handler(self.messenger, self.name.as_str(), raw);
        }
    }
}

} // verus!

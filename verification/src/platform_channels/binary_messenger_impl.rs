//! The binary messenger that drives the engine's messaging interface.
use vstd::prelude::*;
use crate::platform_channels::binary_messenger::{BinaryMessageHandler, BinaryMessenger, BinaryReply, SentMessage};
use crate::platform_channels::flutter_messenger::FlutterDesktopMessenger;

verus! {

/// A binary messenger over the engine's messaging interface `M`.
pub struct BinaryMessengerImpl<M: FlutterDesktopMessenger> {
    messenger: M,
    /// The handlers registered through this messenger, by channel.
    handlers: Ghost<Map<Seq<char>, BinaryMessageHandler>>,
}

impl<M: FlutterDesktopMessenger> BinaryMessengerImpl<M> {
    /// The engine's messaging interface that this messenger drives.
    pub closed spec fn engine(&self) -> M {
        self.messenger
    }

    /// A messenger over `messenger`, with no handler registered through it.
    pub fn new(messenger: M) -> (r: Self)
        ensures
            r.engine() == messenger,
            r.sent() == messenger.sent(),
            r.handlers() == Map::<Seq<char>, BinaryMessageHandler>::empty(),
    {
        BinaryMessengerImpl { messenger, handlers: Ghost(Map::empty()) }
    }
}

impl<M: FlutterDesktopMessenger> BinaryMessenger for BinaryMessengerImpl<M> {
    closed spec fn sent(&self) -> Seq<SentMessage> {
        self.messenger.sent()
    }

    closed spec fn handlers(&self) -> Map<Seq<char>, BinaryMessageHandler> {
        self.handlers@
    }

    /// Without a reply the message is simply handed over; with one, the
    /// engine is asked to pass its answer to that very reply.
    fn send(&mut self, channel: &str, message: &[u8], reply: BinaryReply)
        ensures
            final(self).engine().callbacks() == old(self).engine().callbacks(),
    {
        if reply.is_some() {
            self.messenger.flutter_desktop_messenger_send_with_reply(channel, message, reply);
        } else {
            self.messenger.flutter_desktop_messenger_send(channel, message);
        }
    }

    /// A handler is kept for its channel and becomes the engine's callback
    /// for it, so that the engine hands it the channel's messages; `None`
    /// removes both.
    fn set_message_handler(&mut self, channel: &str, handler: BinaryMessageHandler)
        ensures
            final(self).engine().callbacks() == (if handler is Some {
                old(self).engine().callbacks().insert(channel@, handler)
            } else {
                old(self).engine().callbacks().remove(channel@)
            }),
    {
        proof {
            if handler is Some {
                self.handlers@ = self.handlers@.insert(channel@, handler);
            } else {
                self.handlers@ = self.handlers@.remove(channel@);
            }
        }
        self.messenger.flutter_desktop_messenger_set_callback(channel, handler);
    }
}

} // verus!

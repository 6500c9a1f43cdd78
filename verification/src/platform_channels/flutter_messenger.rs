//! The engine's side of platform messaging, which the binary messenger
//! drives.
use vstd::prelude::*;
use crate::platform_channels::binary_messenger::{BinaryMessageHandler, BinaryReply, SentMessage};

verus! {

/// The engine's handle for answering a received message (the address of
/// the engine's response handle), if the message can be answered.
pub type FlutterDesktopMessageResponseHandle = Option<usize>;

/// A message received from the engine.
pub struct FlutterDesktopMessage<'m> {
    pub struct_size: usize,
    pub channel: String,
    pub message: &'m [u8],
    pub response_handle: FlutterDesktopMessageResponseHandle,
}

/// The engine's messaging interface: implemented by the engine embedding.
pub trait FlutterDesktopMessenger {
    /// The messages handed to the engine so far, oldest first.
    spec fn sent(&self) -> Seq<SentMessage>;

    /// The callbacks that the engine hands incoming messages to, by channel.
    spec fn callbacks(&self) -> Map<Seq<char>, BinaryMessageHandler>;

    /// Hands a message to the engine, expecting no answer.
    fn flutter_desktop_messenger_send(&mut self, channel: &str, message: &[u8])
        ensures
            final(self).sent() == old(self).sent().push(
                SentMessage { channel: channel@, message: message@, reply: None },
            ),
            final(self).callbacks() == old(self).callbacks(),
    ;

    /// Hands a message to the engine; its answer goes to `reply`.
    fn flutter_desktop_messenger_send_with_reply(
        &mut self,
        channel: &str,
        message: &[u8],
        reply: BinaryReply,
    )
        requires
            reply is Some,
        ensures
            final(self).sent() == old(self).sent().push(
                SentMessage { channel: channel@, message: message@, reply: reply },
            ),
            final(self).callbacks() == old(self).callbacks(),
    ;

    /// Answers a received message.
    fn flutter_desktop_messenger_send_response(
        &mut self,
        handle: FlutterDesktopMessageResponseHandle,
        data: &[u8],
    );

    /// Sets the callback of `channel`, or removes it for `None`.
    fn flutter_desktop_messenger_set_callback(
        &mut self,
        channel: &str,
        callback: BinaryMessageHandler,
    )
        ensures
            final(self).sent() == old(self).sent(),
            final(self).callbacks() == (if callback is Some {
                old(self).callbacks().insert(channel@, callback)
            } else {
                old(self).callbacks().remove(channel@)
            }),
    ;

    fn flutter_desktop_messenger_add_ref(&mut self);

    fn flutter_desktop_messenger_release(&mut self);

    fn flutter_desktop_messenger_is_available(&mut self) -> bool;

    fn flutter_desktop_messenger_unlock(&mut self);
}

} // verus!

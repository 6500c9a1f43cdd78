//! Flutter platform channels: method calls, binary messengers and message
//! channels.
pub mod basic_message_channel;
pub mod binary_messenger;
pub mod binary_messenger_impl;
pub mod flutter_messenger;
pub mod message_codec;
pub mod method_call;

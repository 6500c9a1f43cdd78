//! Encoding and decoding of the messages of a channel.
use vstd::prelude::*;

verus! {

/// A codec of channel messages of type `T`.
pub trait MessageCodec<T> {
    /// The bytes that encode `message`.
    spec fn spec_encode(&self, message: T) -> Seq<u8>;

    /// The message that `bytes` encode, if they encode one.
    spec fn spec_decode(&self, bytes: Seq<u8>) -> Option<T>;

    fn encode_message(&self, message: &T) -> (r: Vec<u8>)
        ensures
            r@ == self.spec_encode(*message),
    ;

    fn decode_message(&self, message: &[u8]) -> (r: Option<T>)
        ensures
            r == self.spec_decode(message@),
    ;
}

} // verus!

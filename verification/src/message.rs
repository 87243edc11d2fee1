//! The message contract: what a transmissible type must provide.
//!
//! A message type fixes its own byte layout through the spec functions
//! `wire` and `parse`, proves that reading back what it writes yields the
//! original value, and provides executable encoding and decoding that meet
//! those specifications. Decoding a truncated or corrupted byte sequence
//! fails deterministically with a `Decoding` error and never panics.

use vstd::prelude::*;

use crate::error::Error;

verus! {

/// A type that can be sent over a topic or a service.
///
/// The `View` supertrait gives each message type a mathematical model;
/// `parse` names the model a byte sequence stands for, and decoding is
/// specified against that model.
pub trait Message: Sized + Clone + View + 'static {
    /// The values the wire format admits; encoding is defined for these.
    spec fn wf(&self) -> bool;

    /// The bytes this value writes on the wire.
    spec fn wire(&self) -> Seq<u8>;

    /// The model a byte sequence stands for, if any.
    spec fn parse(bytes: Seq<u8>) -> Option<Self::V>;

    /// Reading back the written bytes yields the written value: encoding
    /// followed by decoding is the identity.
    proof fn lemma_parse_wire(&self)
        requires
            self.wf(),
        ensures
            Self::parse(self.wire()) == Some(self@),
    ;

    /// The stable name of the message type.
    fn message_type_name() -> (r: &'static str);

    /// Encodes the value to bytes.
    fn encode(&self) -> (r: Vec<u8>)
        requires
            self.wf(),
        ensures
            r@ == self.wire(),
    ;

    /// Decodes a value from bytes; exactly the byte sequences that stand
    /// for a value decode successfully, and the decoded value writes back
    /// the very bytes it was read from.
    fn decode_from_slice(bytes: &[u8]) -> (r: Result<Self, Error>)
        ensures
            match r {
                Ok(m) => Self::parse(bytes@) == Some(m@) && m.wf() && m.wire() == bytes@,
                Err(e) => Self::parse(bytes@) is None && e matches Error::Decoding(_),
            },
    ;

    /// The number of bytes the value writes on the wire.
    fn encoded_len(&self) -> (r: usize)
        requires
            self.wf(),
        ensures
            r == self.wire().len(),
    ;
}

/// Encodes a message to a byte vector.
pub fn encode_message<M: Message>(message: &M) -> (r: Vec<u8>)
    requires
        message.wf(),
    ensures
        r@ == message.wire(),
{
    message.encode()
}

/// Decodes a message from a byte slice; exactly the byte sequences that
/// stand for a value decode successfully.
pub fn decode_message<M: Message>(bytes: &[u8]) -> (r: Result<M, Error>)
    ensures
        match r {
            Ok(m) => M::parse(bytes@) == Some(m@) && m.wf() && m.wire() == bytes@,
            Err(e) => M::parse(bytes@) is None && e matches Error::Decoding(_),
        },
{
    M::decode_from_slice(bytes)
}

/// The stable name of a message type.
pub fn message_type_name<M: Message>() -> (r: &'static str) {
    M::message_type_name()
}

/// Encoding then decoding is the identity, for every message type and
/// every value the wire format admits.
pub proof fn lemma_encode_decode_identity<M: Message>(m: M)
    requires
        m.wf(),
    ensures
        M::parse(m.wire()) == Some(m@),
{
    m.lemma_parse_wire();
}

} // verus!

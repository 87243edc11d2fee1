//! Ready-made message types with a fixed little-endian layout, usable over
//! any transport without generated code.

use vstd::prelude::*;

use crate::error::Error;
use crate::message::Message;
use crate::wire::{
    lemma_i32_bits_round_trip,
    lemma_le32_of_u32_of_le,
    lemma_le32_round_trip,
    lemma_u32_bits_round_trip,
    push_le32,
    read_le32,
    spec_le32,
    spec_u32_of_le,
};

verus! {

/// A message holding a single 32-bit value.
#[derive(Debug, Clone, Copy, PartialEq, Eq, Structural)]
pub struct TestMessage {
    /// The carried value.
    pub value: i32,
}

impl TestMessage {
    /// Resets the value to its default.
    pub fn clear(&mut self)
        ensures
            final(self).value == 0,
    {
        self.value = 0;
    }
}

impl Default for TestMessage {
    /// The zero value.
    fn default() -> (r: TestMessage)
        ensures
            r.value == 0,
    {
        TestMessage { value: 0 }
    }
}

impl View for TestMessage {
    type V = TestMessage;

    open spec fn view(&self) -> TestMessage {
        *self
    }
}

impl Message for TestMessage {
    open spec fn wf(&self) -> bool {
        true
    }

    open spec fn wire(&self) -> Seq<u8> {
        spec_le32(self.value as u32)
    }

    open spec fn parse(bytes: Seq<u8>) -> Option<TestMessage> {
        if bytes.len() == 4 {
            Some(
                TestMessage {
                    value: spec_u32_of_le(bytes[0], bytes[1], bytes[2], bytes[3]) as i32,
                },
            )
        } else {
            None
        }
    }

    proof fn lemma_parse_wire(&self) {
        lemma_le32_round_trip(self.value as u32);
        lemma_i32_bits_round_trip(self.value);
    }

    fn message_type_name() -> (r: &'static str) {
        "TestMessage"
    }

    fn encode(&self) -> (r: Vec<u8>) {
        let mut out: Vec<u8> = Vec::new();
        #[verifier::truncate]
        let bits = self.value as u32;
        push_le32(&mut out, bits);
        proof {
            assert(out@ =~= self.wire());
        }
        out
    }

    fn decode_from_slice(bytes: &[u8]) -> (r: Result<TestMessage, Error>) {
        if bytes.len() != 4 {
            return Err(Error::Decoding("buffer is not one 32-bit value".to_owned()));
        }
        let bits = read_le32(bytes, 0);
        let value = #[verifier::truncate] (bits as i32);
        proof {
            lemma_u32_bits_round_trip(bits);
            lemma_le32_of_u32_of_le(bytes@[0], bytes@[1], bytes@[2], bytes@[3]);
            assert(spec_le32(bits) =~= bytes@);
        }
        Ok(TestMessage { value })
    }

    fn encoded_len(&self) -> (r: usize) {
        4
    }
}

/// A request asking a service to add two numbers.
#[derive(Debug, Clone, Copy, PartialEq, Eq, Structural)]
pub struct AddRequest {
    /// First addend.
    pub a: i32,
    /// Second addend.
    pub b: i32,
}

impl Default for AddRequest {
    /// The zero request.
    fn default() -> (r: AddRequest)
        ensures
            r.a == 0 && r.b == 0,
    {
        AddRequest { a: 0, b: 0 }
    }
}

impl View for AddRequest {
    type V = AddRequest;

    open spec fn view(&self) -> AddRequest {
        *self
    }
}

impl Message for AddRequest {
    open spec fn wf(&self) -> bool {
        true
    }

    open spec fn wire(&self) -> Seq<u8> {
        spec_le32(self.a as u32) + spec_le32(self.b as u32)
    }

    open spec fn parse(bytes: Seq<u8>) -> Option<AddRequest> {
        if bytes.len() == 8 {
            Some(
                AddRequest {
                    a: spec_u32_of_le(bytes[0], bytes[1], bytes[2], bytes[3]) as i32,
                    b: spec_u32_of_le(bytes[4], bytes[5], bytes[6], bytes[7]) as i32,
                },
            )
        } else {
            None
        }
    }

    proof fn lemma_parse_wire(&self) {
        lemma_le32_round_trip(self.a as u32);
        lemma_le32_round_trip(self.b as u32);
        lemma_i32_bits_round_trip(self.a);
        lemma_i32_bits_round_trip(self.b);
    }

    fn message_type_name() -> (r: &'static str) {
        "AddRequest"
    }

    fn encode(&self) -> (r: Vec<u8>) {
        let mut out: Vec<u8> = Vec::new();
        #[verifier::truncate]
        let a_bits = self.a as u32;
        #[verifier::truncate]
        let b_bits = self.b as u32;
        push_le32(&mut out, a_bits);
        push_le32(&mut out, b_bits);
        proof {
            assert(out@ =~= self.wire());
        }
        out
    }

    fn decode_from_slice(bytes: &[u8]) -> (r: Result<AddRequest, Error>) {
        if bytes.len() != 8 {
            return Err(Error::Decoding("buffer is not two 32-bit values".to_owned()));
        }
        let a_bits = read_le32(bytes, 0);
        let b_bits = read_le32(bytes, 4);
        let a = #[verifier::truncate] (a_bits as i32);
        let b = #[verifier::truncate] (b_bits as i32);
        proof {
            lemma_u32_bits_round_trip(a_bits);
            lemma_u32_bits_round_trip(b_bits);
            lemma_le32_of_u32_of_le(bytes@[0], bytes@[1], bytes@[2], bytes@[3]);
            lemma_le32_of_u32_of_le(bytes@[4], bytes@[5], bytes@[6], bytes@[7]);
            assert(spec_le32(a_bits) + spec_le32(b_bits) =~= bytes@);
        }
        Ok(AddRequest { a, b })
    }

    fn encoded_len(&self) -> (r: usize) {
        8
    }
}

/// The response of an adding service.
#[derive(Debug, Clone, Copy, PartialEq, Eq, Structural)]
pub struct AddResponse {
    /// The sum.
    pub sum: i32,
}

impl Default for AddResponse {
    /// The zero response.
    fn default() -> (r: AddResponse)
        ensures
            r.sum == 0,
    {
        AddResponse { sum: 0 }
    }
}

impl View for AddResponse {
    type V = AddResponse;

    open spec fn view(&self) -> AddResponse {
        *self
    }
}

impl Message for AddResponse {
    open spec fn wf(&self) -> bool {
        true
    }

    open spec fn wire(&self) -> Seq<u8> {
        spec_le32(self.sum as u32)
    }

    open spec fn parse(bytes: Seq<u8>) -> Option<AddResponse> {
        if bytes.len() == 4 {
            Some(
                AddResponse { sum: spec_u32_of_le(bytes[0], bytes[1], bytes[2], bytes[3]) as i32 },
            )
        } else {
            None
        }
    }

    proof fn lemma_parse_wire(&self) {
        lemma_le32_round_trip(self.sum as u32);
        lemma_i32_bits_round_trip(self.sum);
    }

    fn message_type_name() -> (r: &'static str) {
        "AddResponse"
    }

    fn encode(&self) -> (r: Vec<u8>) {
        let mut out: Vec<u8> = Vec::new();
        #[verifier::truncate]
        let bits = self.sum as u32;
        push_le32(&mut out, bits);
        proof {
            assert(out@ =~= self.wire());
        }
        out
    }

    fn decode_from_slice(bytes: &[u8]) -> (r: Result<AddResponse, Error>) {
        if bytes.len() != 4 {
            return Err(Error::Decoding("buffer is not one 32-bit value".to_owned()));
        }
        let bits = read_le32(bytes, 0);
        let sum = #[verifier::truncate] (bits as i32);
        proof {
            lemma_u32_bits_round_trip(bits);
            lemma_le32_of_u32_of_le(bytes@[0], bytes@[1], bytes@[2], bytes@[3]);
            assert(spec_le32(bits) =~= bytes@);
        }
        Ok(AddResponse { sum })
    }

    fn encoded_len(&self) -> (r: usize) {
        4
    }
}

/// A message holding a 32-bit value and a byte text.
#[derive(Debug, Clone, PartialEq, Eq)]
pub struct TextMessage {
    /// The carried value.
    pub value: i32,
    /// The carried text, as bytes.
    pub text: Vec<u8>,
}

impl TextMessage {
    /// Resets value and text to their defaults.
    pub fn clear(&mut self)
        ensures
            final(self).value == 0,
            final(self).text@.len() == 0,
    {
        self.value = 0;
        self.text = Vec::new();
    }
}

impl Default for TextMessage {
    /// The empty message.
    fn default() -> (r: TextMessage)
        ensures
            r.value == 0 && r.text@.len() == 0,
    {
        TextMessage { value: 0, text: Vec::new() }
    }
}

impl View for TextMessage {
    type V = (i32, Seq<u8>);

    open spec fn view(&self) -> (i32, Seq<u8>) {
        (self.value, self.text@)
    }
}

impl Message for TextMessage {
    open spec fn wf(&self) -> bool {
        self.text@.len() <= 0xffff_ffff && self.text@.len() + 8 <= usize::MAX
    }

    open spec fn wire(&self) -> Seq<u8> {
        spec_le32(self.value as u32) + spec_le32(self.text@.len() as u32) + self.text@
    }

    open spec fn parse(bytes: Seq<u8>) -> Option<(i32, Seq<u8>)> {
        if bytes.len() >= 8 && bytes.len() == 8 + spec_u32_of_le(
            bytes[4],
            bytes[5],
            bytes[6],
            bytes[7],
        ) {
            Some(
                (spec_u32_of_le(bytes[0], bytes[1], bytes[2], bytes[3]) as i32, bytes.skip(8)),
            )
        } else {
            None
        }
    }

    proof fn lemma_parse_wire(&self) {
        lemma_le32_round_trip(self.value as u32);
        lemma_le32_round_trip(self.text@.len() as u32);
        lemma_i32_bits_round_trip(self.value);
        let w = self.wire();
        assert(w.skip(8) =~= self.text@);
    }

    fn message_type_name() -> (r: &'static str) {
        "TextMessage"
    }

    fn encode(&self) -> (r: Vec<u8>) {
        let mut out: Vec<u8> = Vec::new();
        #[verifier::truncate]
        let bits = self.value as u32;
        push_le32(&mut out, bits);
        push_le32(&mut out, self.text.len() as u32);
        let mut text = self.text.clone();
        out.append(&mut text);
        proof {
            assert(out@ =~= self.wire());
        }
        out
    }

    fn decode_from_slice(bytes: &[u8]) -> (r: Result<TextMessage, Error>) {
        if bytes.len() < 8 {
            return Err(Error::Decoding("buffer too short for value and length".to_owned()));
        }
        let text_len = read_le32(bytes, 4);
        if text_len as usize != bytes.len() - 8 {
            return Err(Error::Decoding("buffer does not match its length field".to_owned()));
        }
        let bits = read_le32(bytes, 0);
        let value = #[verifier::truncate] (bits as i32);
        let mut text: Vec<u8> = Vec::new();
        let mut i: usize = 8;
        let n = bytes.len();
        while i < n
            invariant
                8 <= i <= n,
                n == bytes@.len(),
                text@ == bytes@.subrange(8, i as int),
            decreases n - i,
        {
            text.push(bytes[i]);
            proof {
                assert(text@ =~= bytes@.subrange(8, i as int + 1));
            }
            i = i + 1;
        }
        proof {
            assert(text@ =~= bytes@.skip(8));
            lemma_u32_bits_round_trip(bits);
            lemma_u32_bits_round_trip(text_len);
            lemma_le32_of_u32_of_le(bytes@[0], bytes@[1], bytes@[2], bytes@[3]);
            lemma_le32_of_u32_of_le(bytes@[4], bytes@[5], bytes@[6], bytes@[7]);
            let m = TextMessage { value, text };
            assert(m.wire() =~= bytes@);
        }
        Ok(TextMessage { value, text })
    }

    fn encoded_len(&self) -> (r: usize) {
        8 + self.text.len()
    }
}

} // verus!

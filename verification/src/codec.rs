use vstd::prelude::*;

use crate::error::{invalid_args, invalid_args_error, OakError};
use crate::handle::Handle;
use crate::message::{message_result_model, Message, MessageModel};

verus! {

/// A value that can be turned into a [`Message`].
pub trait Encodable {
    /// The bytes and handles of the message that `encode` builds for this value,
    /// or the error that it fails with. Every type of this crate states it; the
    /// default, which nothing is known of, lets types written outside Verus
    /// implement the trait with `encode` alone.
    closed spec fn encoding(&self) -> Result<MessageModel, OakError> {
        arbitrary()
    }

    /// Builds the message that stands for this value.
    fn encode(&self) -> (r: Result<Message, OakError>)
        ensures
            message_result_model(r) == self.encoding(),
    ;
}

/// A value that can be read back from a [`Message`].
pub trait Decodable: Sized {
    /// The value that `decode` reads from a message with these bytes and
    /// handles, or the error that it fails with. Every type of this crate states
    /// it; the default, which nothing is known of, lets types written outside
    /// Verus implement the trait with `decode` alone.
    closed spec fn decoding(bytes: Seq<u8>, handles: Seq<Handle>) -> Result<Self, OakError> {
        arbitrary()
    }

    /// Reads a value back from a message.
    fn decode(message: &Message) -> (r: Result<Self, OakError>)
        ensures
            r == Self::decoding(message.bytes@, message.handles@),
    ;
}

/// The message that `x` is encoded to, where encoding succeeds, decodes back to `x`.
pub open spec fn decodes_to_itself<T: Encodable + Decodable>(x: T) -> bool {
    match x.encoding() {
        Ok((bytes, handles)) => T::decoding(bytes, handles) == Ok::<T, OakError>(x),
        Err(_) => true,
    }
}

/// A message that decodes to some value is exactly the encoding of that value.
pub open spec fn encodes_back<T: Encodable + Decodable>(bytes: Seq<u8>, handles: Seq<Handle>) -> bool {
    match T::decoding(bytes, handles) {
        Ok(x) => x.encoding() == Ok::<MessageModel, OakError>((bytes, handles)),
        Err(_) => true,
    }
}

/// The four little-endian bytes of a `u32`.
pub open spec fn u32_le_bytes(x: u32) -> Seq<u8> {
    seq![
        (x & 0xff) as u8,
        ((x >> 8u32) & 0xff) as u8,
        ((x >> 16u32) & 0xff) as u8,
        ((x >> 24u32) & 0xff) as u8,
    ]
}

/// The `u32` whose little-endian bytes are `b0`, `b1`, `b2`, `b3`.
pub open spec fn u32_from_le(b0: u8, b1: u8, b2: u8, b3: u8) -> u32 {
    (b0 as u32) | ((b1 as u32) << 8u32) | ((b2 as u32) << 16u32) | ((b3 as u32) << 24u32)
}

/// A `u32` is encoded as its four little-endian bytes and no handles.
impl Encodable for u32 {
    open spec fn encoding(&self) -> Result<MessageModel, OakError> {
        Ok((u32_le_bytes(*self), Seq::empty()))
    }

    fn encode(&self) -> (r: Result<Message, OakError>) {
        let x: u32 = *self;
        let mut bytes: Vec<u8> = Vec::new();
        bytes.push((x & 0xff) as u8);
        bytes.push(((x >> 8u32) & 0xff) as u8);
        bytes.push(((x >> 16u32) & 0xff) as u8);
        bytes.push(((x >> 24u32) & 0xff) as u8);
        let handles: Vec<Handle> = Vec::new();
        assert(bytes@ =~= u32_le_bytes(x));
        Ok(Message { bytes, handles })
    }
}

/// A `u32` is read from exactly four little-endian bytes and no handles.
impl Decodable for u32 {
    open spec fn decoding(bytes: Seq<u8>, handles: Seq<Handle>) -> Result<u32, OakError> {
        if bytes.len() == 4 && handles.len() == 0 {
            Ok(u32_from_le(bytes[0], bytes[1], bytes[2], bytes[3]))
        } else {
            Err(invalid_args())
        }
    }

    fn decode(message: &Message) -> (r: Result<u32, OakError>) {
        if message.bytes.len() == 4 && message.handles.len() == 0 {
            let b0: u8 = message.bytes[0];
            let b1: u8 = message.bytes[1];
            let b2: u8 = message.bytes[2];
            let b3: u8 = message.bytes[3];
            Ok((b0 as u32) | ((b1 as u32) << 8u32) | ((b2 as u32) << 16u32) | ((b3 as u32) << 24u32))
        } else {
            Err(invalid_args_error())
        }
    }
}

/// The unit value is encoded as the empty message.
impl Encodable for () {
    open spec fn encoding(&self) -> Result<MessageModel, OakError> {
        Ok((Seq::empty(), Seq::empty()))
    }

    fn encode(&self) -> (r: Result<Message, OakError>) {
        let bytes: Vec<u8> = Vec::new();
        let handles: Vec<Handle> = Vec::new();
        Ok(Message { bytes, handles })
    }
}

/// The unit value is read from the empty message only.
impl Decodable for () {
    open spec fn decoding(bytes: Seq<u8>, handles: Seq<Handle>) -> Result<(), OakError> {
        if bytes.len() == 0 && handles.len() == 0 {
            Ok(())
        } else {
            Err(invalid_args())
        }
    }

    fn decode(message: &Message) -> (r: Result<(), OakError>) {
        if message.bytes.len() == 0 && message.handles.len() == 0 {
            Ok(())
        } else {
            Err(invalid_args_error())
        }
    }
}

/// Every `u32` decodes back from its encoding.
pub proof fn lemma_u32_decodes_to_itself(x: u32)
    ensures
        decodes_to_itself(x),
{
    let b = u32_le_bytes(x);
    let b0 = (x & 0xff) as u8;
    let b1 = ((x >> 8u32) & 0xff) as u8;
    let b2 = ((x >> 16u32) & 0xff) as u8;
    let b3 = ((x >> 24u32) & 0xff) as u8;
    assert(b[0] == b0 && b[1] == b1 && b[2] == b2 && b[3] == b3);
    assert(u32_from_le(b0, b1, b2, b3) == x) by (bit_vector)
        requires
            b0 == (x & 0xff) as u8,
            b1 == ((x >> 8u32) & 0xff) as u8,
            b2 == ((x >> 16u32) & 0xff) as u8,
            b3 == ((x >> 24u32) & 0xff) as u8,
    ;
}

/// Every message that decodes to a `u32` is the encoding of that `u32`.
pub proof fn lemma_u32_encodes_back(bytes: Seq<u8>, handles: Seq<Handle>)
    ensures
        encodes_back::<u32>(bytes, handles),
{
    if bytes.len() == 4 && handles.len() == 0 {
        let b0 = bytes[0];
        let b1 = bytes[1];
        let b2 = bytes[2];
        let b3 = bytes[3];
        let x = u32_from_le(b0, b1, b2, b3);
        assert((x & 0xff) as u8 == b0 && ((x >> 8u32) & 0xff) as u8 == b1 && ((x >> 16u32)
            & 0xff) as u8 == b2 && ((x >> 24u32) & 0xff) as u8 == b3) by (bit_vector)
            requires
                x == (b0 as u32) | ((b1 as u32) << 8u32) | ((b2 as u32) << 16u32) | ((b3 as u32)
                    << 24u32),
        ;
        assert(u32_le_bytes(x) =~= bytes);
        assert(handles =~= Seq::<Handle>::empty());
    }
}

/// The unit value decodes back from its encoding.
pub proof fn lemma_unit_decodes_to_itself(x: ())
    ensures
        decodes_to_itself(x),
{
}

/// Every message that decodes to the unit value is the empty message.
pub proof fn lemma_unit_encodes_back(bytes: Seq<u8>, handles: Seq<Handle>)
    ensures
        encodes_back::<()>(bytes, handles),
{
    if bytes.len() == 0 && handles.len() == 0 {
        assert(bytes =~= Seq::<u8>::empty());
        assert(handles =~= Seq::<Handle>::empty());
    }
}

} // verus!

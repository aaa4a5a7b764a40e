use vstd::prelude::*;

use crate::codec::{decodes_to_itself, encodes_back, Decodable, Encodable};
use crate::error::{invalid_args, invalid_args_error, OakError, OakStatus};
use crate::handle::Handle;
use crate::message::{bytes_from, Message, MessageModel};

verus! {

/// A value of one of two types.
#[derive(Clone, Copy, Debug, PartialEq, Eq)]
pub enum Either<L, R> {
    Left(L),
    Right(R),
}

/// The variant byte of a `Left` value.
pub const LEFT_VARIANT: u8 = 0;

/// The variant byte of a `Right` value.
pub const RIGHT_VARIANT: u8 = 1;

/// The encoding of a variant: the inner encoding with the variant byte put in
/// front of its bytes and its handles left as they are, or the inner error.
pub open spec fn with_variant_byte(variant: u8, inner: Result<MessageModel, OakError>) -> Result<
    MessageModel,
    OakError,
> {
    match inner {
        Ok((bytes, handles)) => Ok((seq![variant] + bytes, handles)),
        Err(e) => Err(e),
    }
}

/// Encodes the variant (0 or 1) in the first byte of the resulting [`Message`].
impl<L: Encodable, R: Encodable> Encodable for Either<L, R> {
    open spec fn encoding(&self) -> Result<MessageModel, OakError> {
        match self {
            Either::Left(m) => with_variant_byte(LEFT_VARIANT, m.encoding()),
            Either::Right(m) => with_variant_byte(RIGHT_VARIANT, m.encoding()),
        }
    }

    fn encode(&self) -> (r: Result<Message, OakError>) {
        let (variant, inner) = match self {
            Either::Left(m) => (LEFT_VARIANT, m.encode()),
            Either::Right(m) => (RIGHT_VARIANT, m.encode()),
        };
        match inner {
            Ok(mut inner) => {
                // Insert the variant byte as the beginning of the message bytes, and leave
                // handles as they are.
                let ghost inner_bytes = inner.bytes@;
                inner.bytes.insert(0, variant);
                assert(inner.bytes@ =~= seq![variant] + inner_bytes);
                Ok(inner)
            },
            Err(e) => Err(e),
        }
    }
}

/// Decodes the variant (0 or 1) from the first byte of the provided [`Message`].
impl<L: Decodable, R: Decodable> Decodable for Either<L, R> {
    open spec fn decoding(bytes: Seq<u8>, handles: Seq<Handle>) -> Result<Self, OakError> {
        if bytes.len() > 0 && bytes[0] == LEFT_VARIANT {
            match L::decoding(bytes.drop_first(), handles) {
                Ok(v) => Ok(Either::Left(v)),
                Err(e) => Err(e),
            }
        } else if bytes.len() > 0 && bytes[0] == RIGHT_VARIANT {
            match R::decoding(bytes.drop_first(), handles) {
                Ok(v) => Ok(Either::Right(v)),
                Err(e) => Err(e),
            }
        } else {
            // Invalid variant, or not enough bytes.
            Err(invalid_args())
        }
    }

    fn decode(message: &Message) -> (r: Result<Self, OakError>) {
        if message.bytes.len() > 0 && (message.bytes[0] == LEFT_VARIANT || message.bytes[0]
            == RIGHT_VARIANT) {
            let inner_message = Message {
                bytes: bytes_from(&message.bytes, 1),
                handles: message.handles.clone(),
            };
            assert(inner_message.handles@ =~= message.handles@);
            assert(inner_message.bytes@ =~= message.bytes@.drop_first());
            if message.bytes[0] == LEFT_VARIANT {
                match L::decode(&inner_message) {
                    Ok(v) => Ok(Either::Left(v)),
                    Err(e) => Err(e),
                }
            } else {
                match R::decode(&inner_message) {
                    Ok(v) => Ok(Either::Right(v)),
                    Err(e) => Err(e),
                }
            }
        } else {
            Err(invalid_args_error())
        }
    }
}

/// Where the inner value of an `Either` decodes back from its encoding, so does the
/// `Either`: the variant byte in front of the inner bytes picks the same variant again.
pub proof fn lemma_either_decodes_to_itself<
    L: Encodable + Decodable,
    R: Encodable + Decodable,
>(x: Either<L, R>)
    requires
        match x {
            Either::Left(l) => decodes_to_itself(l),
            Either::Right(r) => decodes_to_itself(r),
        },
    ensures
        decodes_to_itself(x),
{
    match x {
        Either::Left(l) => {
            if let Ok((bytes, handles)) = l.encoding() {
                assert((seq![LEFT_VARIANT] + bytes).drop_first() =~= bytes);
            }
        },
        Either::Right(r) => {
            if let Ok((bytes, handles)) = r.encoding() {
                assert((seq![RIGHT_VARIANT] + bytes).drop_first() =~= bytes);
            }
        },
    }
}

/// Where the inner types encode back every message they decode, so does `Either`:
/// a message that decodes to an `Either` is the variant byte followed by the
/// encoding of the inner value.
pub proof fn lemma_either_encodes_back<L: Encodable + Decodable, R: Encodable + Decodable>(
    bytes: Seq<u8>,
    handles: Seq<Handle>,
)
    requires
        bytes.len() > 0 ==> encodes_back::<L>(bytes.drop_first(), handles),
        bytes.len() > 0 ==> encodes_back::<R>(bytes.drop_first(), handles),
    ensures
        encodes_back::<Either<L, R>>(bytes, handles),
{
    if bytes.len() > 0 {
        assert(seq![bytes[0]] + bytes.drop_first() =~= bytes);
    }
}

/// Encoding `Left(v)` fails exactly where encoding `v` fails, with the same error;
/// otherwise it is the byte 0 followed by the bytes of `v`, whatever their number
/// (none included), with the handles of `v` unchanged.
pub proof fn lemma_either_encode_left<L: Encodable, R: Encodable>(v: L)
    ensures
        match v.encoding() {
            Ok((bytes, handles)) => Either::<L, R>::Left(v).encoding() == Ok::<
                MessageModel,
                OakError,
            >((seq![0u8] + bytes, handles)),
            Err(e) => Either::<L, R>::Left(v).encoding() == Err::<MessageModel, OakError>(e),
        },
{
}

/// Encoding `Right(v)` fails exactly where encoding `v` fails, with the same error;
/// otherwise it is the byte 1 followed by the bytes of `v`, whatever their number
/// (none included), with the handles of `v` unchanged.
pub proof fn lemma_either_encode_right<L: Encodable, R: Encodable>(v: R)
    ensures
        match v.encoding() {
            Ok((bytes, handles)) => Either::<L, R>::Right(v).encoding() == Ok::<
                MessageModel,
                OakError,
            >((seq![1u8] + bytes, handles)),
            Err(e) => Either::<L, R>::Right(v).encoding() == Err::<MessageModel, OakError>(e),
        },
{
}

/// A message whose first byte is 0 decodes to `Left` of what its other bytes and
/// all its handles decode to as an `L`, whatever their number, and fails exactly
/// where that decoding fails, with the same error.
pub proof fn lemma_either_decode_left<L: Decodable, R: Decodable>(
    bytes: Seq<u8>,
    handles: Seq<Handle>,
)
    requires
        bytes.len() > 0,
        bytes[0] == 0u8,
    ensures
        match L::decoding(bytes.subrange(1, bytes.len() as int), handles) {
            Ok(l) => Either::<L, R>::decoding(bytes, handles) == Ok::<Either<L, R>, OakError>(
                Either::Left(l),
            ),
            Err(e) => Either::<L, R>::decoding(bytes, handles) == Err::<Either<L, R>, OakError>(e),
        },
{
    assert(bytes.drop_first() =~= bytes.subrange(1, bytes.len() as int));
}

/// A message whose first byte is 1 decodes to `Right` of what its other bytes and
/// all its handles decode to as an `R`, whatever their number, and fails exactly
/// where that decoding fails, with the same error.
pub proof fn lemma_either_decode_right<L: Decodable, R: Decodable>(
    bytes: Seq<u8>,
    handles: Seq<Handle>,
)
    requires
        bytes.len() > 0,
        bytes[0] == 1u8,
    ensures
        match R::decoding(bytes.subrange(1, bytes.len() as int), handles) {
            Ok(r) => Either::<L, R>::decoding(bytes, handles) == Ok::<Either<L, R>, OakError>(
                Either::Right(r),
            ),
            Err(e) => Either::<L, R>::decoding(bytes, handles) == Err::<Either<L, R>, OakError>(e),
        },
{
    assert(bytes.drop_first() =~= bytes.subrange(1, bytes.len() as int));
}

/// A message with no bytes, or whose first byte is neither 0 nor 1, is refused with
/// `ErrInvalidArgs`.
pub proof fn lemma_either_decode_invalid<L: Decodable, R: Decodable>(
    bytes: Seq<u8>,
    handles: Seq<Handle>,
)
    requires
        bytes.len() == 0 || bytes[0] > 1u8,
    ensures
        Either::<L, R>::decoding(bytes, handles) == Err::<Either<L, R>, OakError>(
            OakError::OakStatus(OakStatus::ErrInvalidArgs),
        ),
{
}

} // verus!

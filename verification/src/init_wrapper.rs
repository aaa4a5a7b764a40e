use vstd::prelude::*;

use crate::codec::{decodes_to_itself, encodes_back, Decodable, Encodable};
use crate::error::{invalid_args, invalid_args_error, OakError, OakStatus};
use crate::handle::{Handle, ReadHandle};
use crate::message::{handles_from, Message, MessageModel};
use crate::receiver::Receiver;

verus! {

/// A wrapper struct that holds an init message, plus the handle of a channel from which to read
/// command messages. This is useful for patterns in which an Oak node needs some data at
/// initialization time, but then handles commands of a different type and possibly coming from a
/// different channel, to be processed in an event-loop pattern.
#[derive(Clone, Debug, PartialEq)]
pub struct InitWrapper<Init, Command: Decodable> {
    pub init: Init,
    pub command_receiver: Receiver<Command>,
}

/// Encodes the handle of the command receiver channel in the first handle of the resulting
/// [`Message`].
impl<Init: Encodable, Command: Encodable + Decodable> Encodable for InitWrapper<Init, Command> {
    open spec fn encoding(&self) -> Result<MessageModel, OakError> {
        match self.init.encoding() {
            Ok((bytes, handles)) => Ok((bytes, seq![self.command_receiver.handle.handle] + handles)),
            Err(e) => Err(e),
        }
    }

    fn encode(&self) -> (r: Result<Message, OakError>) {
        match self.init.encode() {
            Ok(mut init_message) => {
                // Insert the handle of the command receiver handle at the beginning of the
                // handle list (i.e. at position 0).
                let ghost init_handles = init_message.handles@;
                init_message.handles.insert(0, self.command_receiver.handle.handle);
                assert(init_message.handles@ =~= seq![self.command_receiver.handle.handle]
                    + init_handles);
                Ok(init_message)
            },
            Err(e) => Err(e),
        }
    }
}

/// Decodes the handle of the command receiver channel from the first handle of the provided
/// [`Message`].
impl<Init: Decodable, Command: Decodable> Decodable for InitWrapper<Init, Command> {
    open spec fn decoding(bytes: Seq<u8>, handles: Seq<Handle>) -> Result<Self, OakError> {
        if handles.len() > 0 {
            match Init::decoding(bytes, handles.drop_first()) {
                Ok(init) => Ok(
                    InitWrapper {
                        init,
                        command_receiver: Receiver::for_handle(ReadHandle { handle: handles[0] }),
                    },
                ),
                Err(e) => Err(e),
            }
        } else {
            Err(invalid_args())
        }
    }

    fn decode(message: &Message) -> (r: Result<Self, OakError>) {
        if message.handles.len() > 0 {
            let handle: Handle = message.handles[0];
            let init_message = Message {
                bytes: message.bytes.clone(),
                handles: handles_from(&message.handles, 1),
            };
            assert(init_message.bytes@ =~= message.bytes@);
            assert(init_message.handles@ =~= message.handles@.drop_first());
            match Init::decode(&init_message) {
                Ok(init) => Ok(
                    InitWrapper {
                        init,
                        command_receiver: Receiver::new(ReadHandle::from(handle)),
                    },
                ),
                Err(e) => Err(e),
            }
        } else {
            Err(invalid_args_error())
        }
    }
}

/// Where the init value of a wrapper decodes back from its encoding, so does the
/// wrapper: the first handle gives back the command receiver and the rest of the
/// message gives back the init value.
pub proof fn lemma_init_wrapper_decodes_to_itself<
    Init: Encodable + Decodable,
    Command: Encodable + Decodable,
>(x: InitWrapper<Init, Command>)
    requires
        decodes_to_itself(x.init),
    ensures
        decodes_to_itself(x),
{
    if let Ok((bytes, handles)) = x.init.encoding() {
        let h = x.command_receiver.handle.handle;
        assert((seq![h] + handles).drop_first() =~= handles);
        Receiver::<Command>::lemma_determined_by_handle(x.command_receiver);
    }
}

/// Where the init type encodes back every message it decodes, so does the wrapper:
/// a message that decodes to a wrapper is the encoding of its init value with the
/// command receiver's handle in front of the handles.
pub proof fn lemma_init_wrapper_encodes_back<
    Init: Encodable + Decodable,
    Command: Encodable + Decodable,
>(bytes: Seq<u8>, handles: Seq<Handle>)
    requires
        handles.len() > 0 ==> encodes_back::<Init>(bytes, handles.drop_first()),
    ensures
        encodes_back::<InitWrapper<Init, Command>>(bytes, handles),
{
    if handles.len() > 0 {
        let r = Receiver::<Command>::for_handle(ReadHandle { handle: handles[0] });
        Receiver::<Command>::lemma_determined_by_handle(r);
        assert(seq![handles[0]] + handles.drop_first() =~= handles);
    }
}

/// Encoding a wrapper fails exactly where encoding its init value fails, with the
/// same error; otherwise it is the init value's bytes, whatever their number, and
/// its handles with the command receiver's handle, unchanged, in front.
pub proof fn lemma_init_wrapper_encode<Init: Encodable, Command: Encodable + Decodable>(
    x: InitWrapper<Init, Command>,
)
    ensures
        match x.init.encoding() {
            Ok((bytes, handles)) => x.encoding() == Ok::<MessageModel, OakError>(
                (bytes, seq![x.command_receiver.handle.handle] + handles),
            ),
            Err(e) => x.encoding() == Err::<MessageModel, OakError>(e),
        },
        x.encoding() is Ok ==> x.encoding()->Ok_0.1.len() > 0 && x.encoding()->Ok_0.1[0]
            == x.command_receiver.handle.handle,
{
}

/// A message with at least one handle decodes to a wrapper whose command receiver
/// reads from its first handle, unchanged, and whose init value is what the bytes
/// and the other handles decode to; it fails exactly where that decoding fails,
/// with the same error.
pub proof fn lemma_init_wrapper_decode<Init: Decodable, Command: Decodable>(
    bytes: Seq<u8>,
    handles: Seq<Handle>,
)
    requires
        handles.len() > 0,
    ensures
        match Init::decoding(bytes, handles.subrange(1, handles.len() as int)) {
            Ok(init) => {
                let w = InitWrapper::<Init, Command>::decoding(bytes, handles);
                &&& w is Ok
                &&& w->Ok_0.init == init
                &&& w->Ok_0.command_receiver.handle.handle == handles[0]
            },
            Err(e) => InitWrapper::<Init, Command>::decoding(bytes, handles) == Err::<
                InitWrapper<Init, Command>,
                OakError,
            >(e),
        },
{
    assert(handles.drop_first() =~= handles.subrange(1, handles.len() as int));
}

/// A message with no handles is refused with `ErrInvalidArgs`.
pub proof fn lemma_init_wrapper_decode_without_handles<Init: Decodable, Command: Decodable>(
    bytes: Seq<u8>,
    handles: Seq<Handle>,
)
    requires
        handles.len() == 0,
    ensures
        InitWrapper::<Init, Command>::decoding(bytes, handles) == Err::<
            InitWrapper<Init, Command>,
            OakError,
        >(OakError::OakStatus(OakStatus::ErrInvalidArgs)),
{
}

} // verus!

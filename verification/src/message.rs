use vstd::prelude::*;

use crate::handle::Handle;
use crate::text::{decimal_list, hex_encode, hex_lower, push_decimal_list};
use vstd::string::StringExecFns;

verus! {

/// A simple holder for bytes + handles, using internally owned buffers.
///
/// The derived `Debug` prints the bytes as a list of numbers; the text with the
/// handles first and the bytes in hexadecimal is [`Message::debug_string`].
#[derive(Clone, Debug, PartialEq, Eq)]
pub struct Message {
    pub bytes: Vec<u8>,
    pub handles: Vec<Handle>,
}

/// The bytes and the handles of a message, as mathematical sequences.
pub type MessageModel = (Seq<u8>, Seq<Handle>);

impl Message {
    /// The bytes and the handles of this message.
    pub open spec fn model(&self) -> MessageModel {
        (self.bytes@, self.handles@)
    }
}

impl Message {
    /// The debug text of a message: its handles in decimal and its bytes in
    /// lowercase hexadecimal.
    pub open spec fn debug_text(&self) -> Seq<char> {
        "Message { handles: "@ + decimal_list(self.handles@) + ", bytes: "@ + hex_lower(self.bytes@)
            + " }"@
    }

    /// Writes the message for debugging, showing the bytes in hexadecimal.
    pub fn debug_string(&self) -> (s: String)
        ensures
            s@ == self.debug_text(),
    {
        let mut s = String::new();
        s.append("Message { handles: ");
        push_decimal_list(&mut s, self.handles.as_slice());
        s.append(", bytes: ");
        let hex = hex_encode(self.bytes.as_slice());
        s.append(hex.as_str());
        s.append(" }");
        s
    }
}

/// What an encoding gives back, with the message taken by its model.
pub open spec fn message_result_model(r: Result<Message, crate::error::OakError>) -> Result<
    MessageModel,
    crate::error::OakError,
> {
    match r {
        Ok(m) => Ok(m.model()),
        Err(e) => Err(e),
    }
}

/// A copy of `bytes[from..]`.
pub fn bytes_from(bytes: &Vec<u8>, from: usize) -> (r: Vec<u8>)
    requires
        from <= bytes.len(),
    ensures
        r@ == bytes@.subrange(from as int, bytes@.len() as int),
{
    vstd::slice::slice_to_vec(vstd::slice::slice_subrange(bytes.as_slice(), from, bytes.len()))
}

/// A copy of `handles[from..]`.
pub fn handles_from(handles: &Vec<Handle>, from: usize) -> (r: Vec<Handle>)
    requires
        from <= handles.len(),
    ensures
        r@ == handles@.subrange(from as int, handles@.len() as int),
{
    vstd::slice::slice_to_vec(vstd::slice::slice_subrange(handles.as_slice(), from, handles.len()))
}

} // verus!

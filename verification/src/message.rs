//! Messages: an identifier plus an owned, length-bounded byte payload.

use vstd::prelude::*;

use crate::id::Id;

verus! {

/// The most bytes a message payload may hold. The transport protocol counts
/// data frames with a one-byte sequence counter (values 1 through 255), each
/// frame carrying 7 payload bytes, so 255 * 7 bytes is the hard ceiling.
pub const MAX_PAYLOAD: usize = 1785;

/// Errors from constructing a message.
#[derive(Copy, Clone, Debug, PartialEq, Eq, Structural)]
pub enum MessageError {
    /// The payload holds more than `MAX_PAYLOAD` bytes.
    PayloadTooLarge,
}

/// The mathematical model of a message: its identifier and payload bytes.
pub ghost struct MessageView {
    /// The identifier.
    pub id: Id,
    /// The payload bytes.
    pub data: Seq<u8>,
}

/// An identifier plus an owned byte payload of at most `MAX_PAYLOAD` bytes;
/// immutable once built.
pub struct Message {
    id: Id,
    data: Vec<u8>,
}

impl View for Message {
    type V = MessageView;

    closed spec fn view(&self) -> MessageView {
        MessageView { id: self.id, data: self.data@ }
    }
}

impl Message {
    /// Well-formed: the payload is within the transport ceiling. Holds of
    /// every message that `Message::new` returns.
    pub open spec fn wf(self) -> bool {
        self@.data.len() <= MAX_PAYLOAD
    }

    /// Builds a message. A payload longer than `MAX_PAYLOAD` is rejected
    /// with `PayloadTooLarge`, and no frame is ever produced from it.
    pub fn new(id: Id, data: Vec<u8>) -> (r: Result<Message, MessageError>)
        ensures
            data@.len() > MAX_PAYLOAD ==> r == Err::<Message, MessageError>(
                MessageError::PayloadTooLarge,
            ),
            data@.len() <= MAX_PAYLOAD ==> (r matches Ok(m) && m@ == (MessageView {
                id,
                data: data@,
            }) && m.wf()),
    {
        if data.len() > MAX_PAYLOAD {
            return Err(MessageError::PayloadTooLarge);
        }
        Ok(Message { id, data })
    }

    /// The identifier.
    pub fn id(&self) -> (r: Id)
        ensures
            r == self@.id,
    {
        self.id
    }

    /// The payload bytes.
    pub fn data(&self) -> (r: &[u8])
        ensures
            r@ == self@.data,
    {
        self.data.as_slice()
    }
}

} // verus!

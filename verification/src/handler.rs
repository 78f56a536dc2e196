//! The handler capability invoked on inbound messages.

use vstd::prelude::*;

use crate::message::Message;

verus! {

/// A capability that an inbound-message path dispatches messages to.
/// Registration stores the handler; the send path never invokes it.
pub trait Handler {
    /// Handles one inbound message.
    fn handle(&self, message: Message);
}

} // verus!

//! Outbound messages.

use vstd::prelude::*;
use crate::address::Address;
use crate::payload::{copy_from_slice, payload_bytes};
use crate::requirements::DeliveryRequirement;

verus! {

/// A message on its way to a remote endpoint.
#[derive(Debug, PartialEq, Eq)]
pub struct Message {
    /// Where the message goes.
    pub destination: Address,
    /// What it carries.
    pub payload: bytes::Bytes,
    /// How it must be delivered.
    pub delivery: DeliveryRequirement,
}

/// What a message says: its destination, the bytes it carries and its
/// delivery requirement.
pub struct MessageView {
    pub destination: Address,
    pub payload: Seq<u8>,
    pub delivery: DeliveryRequirement,
}

impl View for Message {
    type V = MessageView;

    open spec fn view(&self) -> MessageView {
        MessageView {
            destination: self.destination,
            payload: payload_bytes(self.payload),
            delivery: self.delivery,
        }
    }
}

impl Clone for Message {
    /// A message that says the same; its payload shares the bytes.
    fn clone(&self) -> (copy: Message)
        ensures
            copy@ == self@,
    {
        Message {
            destination: self.destination,
            payload: self.payload.clone(),
            delivery: self.delivery,
        }
    }
}

impl Message {
    /// A message for `destination` that carries a copy of `payload`.
    pub fn new(destination: Address, payload: &[u8], delivery: DeliveryRequirement) -> (message: Message)
        ensures
            message@ == (MessageView { destination, payload: payload@, delivery }),
    {
        Message { destination, payload: copy_from_slice(payload), delivery }
    }
}

} // verus!

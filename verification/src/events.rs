//! What the transport engine reports, and the events the application sees.

use vstd::prelude::*;
use crate::address::Address;
use crate::message::{Message, MessageView};
use crate::payload::{copy_from_slice, payload_bytes};

verus! {

/// `std::io::Error`, carried through as it came.
#[verifier::external_type_specification]
#[verifier::external_body]
pub struct ExIoError(std::io::Error);

/// A notification of the transport engine.
#[derive(Clone, Debug, PartialEq, Eq)]
pub enum EngineEvent {
    /// A packet arrived from the endpoint, with the bytes it carried.
    Packet(Address, Vec<u8>),
    /// A connection with the endpoint has been established.
    Connect(Address),
    /// The endpoint has been idle for longer than the engine allows.
    Timeout(Address),
    /// The connection with the endpoint has ended.
    Disconnect(Address),
}

/// Why the transport engine did not take a packet.
#[derive(Debug)]
pub enum EngineError {
    /// The failure came from the operating system's I/O.
    Io(std::io::Error),
    /// Any other failure of the engine.
    Other,
}

/// Events which can be received from the network.
#[derive(Debug)]
pub enum NetworkSimulationEvent {
    /// A message was received from a remote endpoint.
    Message(Address, bytes::Bytes),
    /// A new host has connected to us.
    Connect(Address),
    /// A host has disconnected from us.
    Disconnect(Address),
    /// An error occurred while receiving a message.
    RecvError(std::io::Error),
    /// An error occurred while sending a message.
    SendError(std::io::Error, Message),
    /// An error occurred while managing connections.
    ConnectionError(std::io::Error, Option<Address>),
}

/// What an event says, with payloads as the bytes they hold.
pub enum EventView {
    Message(Address, Seq<u8>),
    Connect(Address),
    Disconnect(Address),
    RecvError(std::io::Error),
    SendError(std::io::Error, MessageView),
    ConnectionError(std::io::Error, Option<Address>),
}

impl View for NetworkSimulationEvent {
    type V = EventView;

    open spec fn view(&self) -> EventView {
        match *self {
            NetworkSimulationEvent::Message(sender, payload) => EventView::Message(
                sender,
                payload_bytes(payload),
            ),
            NetworkSimulationEvent::Connect(peer) => EventView::Connect(peer),
            NetworkSimulationEvent::Disconnect(peer) => EventView::Disconnect(peer),
            NetworkSimulationEvent::RecvError(error) => EventView::RecvError(error),
            NetworkSimulationEvent::SendError(error, message) => EventView::SendError(
                error,
                message@,
            ),
            NetworkSimulationEvent::ConnectionError(error, peer) => EventView::ConnectionError(
                error,
                peer,
            ),
        }
    }
}

impl EngineEvent {
    /// The one event that the application sees for this notification. A
    /// timeout and a disconnect are the same to the application.
    pub open spec fn normalized(self) -> EventView {
        match self {
            EngineEvent::Packet(sender, payload) => EventView::Message(sender, payload@),
            EngineEvent::Connect(peer) => EventView::Connect(peer),
            EngineEvent::Timeout(peer) => EventView::Disconnect(peer),
            EngineEvent::Disconnect(peer) => EventView::Disconnect(peer),
        }
    }

    /// Turns the notification into the event that the application sees. A
    /// packet's bytes are copied into a buffer of the event's own.
    pub fn normalize(&self) -> (event: NetworkSimulationEvent)
        ensures
            event@ == self.normalized(),
    {
        match self {
            EngineEvent::Packet(sender, payload) => NetworkSimulationEvent::Message(
                *sender,
                copy_from_slice(payload.as_slice()),
            ),
            EngineEvent::Connect(peer) => NetworkSimulationEvent::Connect(*peer),
            EngineEvent::Timeout(peer) => NetworkSimulationEvent::Disconnect(*peer),
            EngineEvent::Disconnect(peer) => NetworkSimulationEvent::Disconnect(*peer),
        }
    }
}

/// The application cannot tell an idle timeout from a disconnect: both
/// notifications for one endpoint give the same event, `Disconnect` of it.
pub proof fn lemma_timeout_is_disconnect(peer: Address)
    ensures
        EngineEvent::Timeout(peer).normalized() == EngineEvent::Disconnect(peer).normalized(),
        EngineEvent::Timeout(peer).normalized() == EventView::Disconnect(peer),
{
}

} // verus!

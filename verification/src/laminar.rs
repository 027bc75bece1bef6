//! The send and receive stages around a Laminar socket, and the resource that
//! owns the socket.

use vstd::prelude::*;
use crate::address::Address;
use crate::events::{EngineError, EngineEvent, EventView, NetworkSimulationEvent};
use crate::message::Message;
use crate::payload::to_vec;
use crate::requirements::TransportOperation;
use crate::timing::NetworkSimulationTime;
use crate::transport::{lemma_drain_accepting_all, lemma_drain_accepting_none, TransportResource};

verus! {

/// `laminar::Socket`, the transport engine bound to a local address.
#[verifier::external_type_specification]
#[verifier::external_body]
pub struct ExLaminarSocket(laminar::Socket);

/// Resource that owns the Laminar socket. It holds none where binding failed.
pub struct LaminarSocketResource {
    socket: Option<laminar::Socket>,
}

impl LaminarSocketResource {
    /// The socket that the resource holds, if any.
    pub closed spec fn handle(&self) -> Option<laminar::Socket> {
        self.socket
    }

    /// Whether the resource holds a socket.
    pub open spec fn is_bound(&self) -> bool {
        self.handle().is_some()
    }

    /// Creates a new instance of the resource.
    #[must_use]
    pub fn new(socket: Option<laminar::Socket>) -> (resource: LaminarSocketResource)
        ensures
            resource.handle() == socket,
    {
        LaminarSocketResource { socket }
    }

    /// Returns a reference to the socket if there is one configured.
    #[must_use]
    pub fn get(&self) -> (socket: Option<&laminar::Socket>)
        ensures
            socket.is_some() == self.is_bound(),
            socket.is_some() ==> *socket.unwrap() == self.handle().unwrap(),
    {
        self.socket.as_ref()
    }

    /// Returns a mutable reference to the socket if there is one configured.
    /// What the caller does to the socket through it is what happens to the
    /// socket of the resource; a resource without a socket stays without.
    pub fn get_mut(&mut self) -> (socket: Option<&mut laminar::Socket>)
        ensures
            socket.is_some() == old(self).is_bound(),
            final(self).is_bound() == old(self).is_bound(),
            socket.is_some() ==> *socket.unwrap() == old(self).handle().unwrap()
                && *final(socket.unwrap()) == final(self).handle().unwrap(),
    {
        self.socket.as_mut()
    }

    /// Sets the bound socket to the resource.
    pub fn set_socket(&mut self, socket: laminar::Socket)
        ensures
            final(self).handle() == Some(socket),
    {
        self.socket = Some(socket);
    }

    /// Drops the socket from the resource.
    pub fn drop_socket(&mut self)
        ensures
            final(self).handle().is_none(),
    {
        self.socket = None;
    }
}

impl Default for LaminarSocketResource {
    fn default() -> (resource: LaminarSocketResource)
        ensures
            !resource.is_bound(),
    {
        LaminarSocketResource { socket: None }
    }
}

/// One send handed to the transport engine.
#[derive(Clone, Debug, PartialEq, Eq)]
pub struct OutboundPacket {
    /// The endpoint to send to.
    pub destination: Address,
    /// The bytes to send.
    pub payload: Vec<u8>,
    /// The send operation of the engine to use.
    pub operation: TransportOperation,
}

/// The packet that sends `message`: to its destination, with a copy of its
/// bytes, by the operation that its delivery requirement resolves to.
pub fn packet_for(message: &Message) -> (packet: OutboundPacket)
    ensures
        packet.destination == message@.destination,
        packet.payload@ == message@.payload,
        packet.operation == message@.delivery.spec_operation(),
{
    OutboundPacket {
        destination: message.destination,
        payload: to_vec(&message.payload),
        operation: message.delivery.operation(),
    }
}

/// What the send stage takes out of `queue`: everything where a socket is
/// bound and the clock gate is open, nothing otherwise.
pub open spec fn send_batch(queue: Seq<Message>, bound: bool, gate_open: bool) -> Seq<Message> {
    if bound && gate_open {
        queue
    } else {
        Seq::empty()
    }
}

/// The send stage: takes the messages to send in this cycle out of the queue,
/// in submission order. Without a socket, or in a cycle that the clock does
/// not qualify, nothing is taken and the queue stays as it is.
pub fn laminar_network_send_system(
    transport: &mut TransportResource,
    socket: &LaminarSocketResource,
    sim_time: &NetworkSimulationTime,
) -> (batch: Vec<Message>)
    ensures
        batch@ == send_batch(old(transport).queue(), socket.is_bound(), sim_time.spec_should_send()),
        batch@ + final(transport).queue() == old(transport).queue(),
{
    if socket.get().is_none() {
        return Vec::new();
    }
    let gate_open = sim_time.should_send_message_now();
    let filter = |message: &Message| -> (accepted: bool)
        ensures
            accepted == gate_open,
        { gate_open };
    let batch = transport.drain_messages_to_send(filter);
    proof {
        if gate_open {
            lemma_drain_accepting_all(old(transport).queue(), filter, batch@, transport.queue());
        } else {
            lemma_drain_accepting_none(old(transport).queue(), filter, batch@, transport.queue());
        }
    }
    batch
}

/// The events that the outcome of sending `message` adds: one `SendError`
/// with the error and the message itself where the engine failed on I/O,
/// none otherwise.
pub open spec fn send_result_events(
    message: Message,
    result: Result<(), EngineError>,
) -> Seq<NetworkSimulationEvent> {
    match result {
        Err(EngineError::Io(error)) => seq![NetworkSimulationEvent::SendError(error, message)],
        _ => Seq::empty(),
    }
}

/// Records the outcome of sending `message`. An I/O failure is reported to
/// the application with the message that failed, so that it can send it
/// again or drop it; any other outcome adds no event. Returns whether the
/// engine took the packet.
pub fn report_send_result(
    events: &mut Vec<NetworkSimulationEvent>,
    message: Message,
    result: Result<(), EngineError>,
) -> (sent: bool)
    ensures
        sent == result.is_ok(),
        final(events)@ == old(events)@ + send_result_events(message, result),
{
    match result {
        Ok(()) => true,
        Err(EngineError::Io(error)) => {
            events.push(NetworkSimulationEvent::SendError(error, message));
            assert(events@ == old(events)@ + seq![NetworkSimulationEvent::SendError(error, message)]);
            false
        },
        Err(EngineError::Other) => false,
    }
}

/// What a sequence of events says, event by event.
pub open spec fn event_views(events: Seq<NetworkSimulationEvent>) -> Seq<EventView> {
    events.map_values(|event: NetworkSimulationEvent| event@)
}

/// What the engine's notifications become, one event each, in their order.
pub open spec fn normalized_events(inbound: Seq<EngineEvent>) -> Seq<EventView> {
    inbound.map_values(|notification: EngineEvent| notification.normalized())
}

/// The receive stage: turns every notification that the engine had pending
/// into one event, in the order in which the engine produced them, and
/// appends them to `events`. Without a socket nothing is appended.
pub fn laminar_network_recv_system(
    socket: &LaminarSocketResource,
    inbound: &Vec<EngineEvent>,
    events: &mut Vec<NetworkSimulationEvent>,
)
    ensures
        event_views(final(events)@) == event_views(old(events)@) + (if socket.is_bound() {
            normalized_events(inbound@)
        } else {
            Seq::empty()
        }),
        final(events)@.take(old(events)@.len() as int) == old(events)@,
{
    if socket.get().is_none() {
        return ;
    }
    let mut done: usize = 0;
    while done < inbound.len()
        invariant
            0 <= done <= inbound@.len(),
            events@.take(old(events)@.len() as int) == old(events)@,
            events@.len() == old(events)@.len() + done,
            event_views(events@) == event_views(old(events)@) + normalized_events(
                inbound@.take(done as int),
            ),
        decreases inbound@.len() - done,
    {
        let ghost before = events@;
        let event = inbound[done].normalize();
        events.push(event);
        proof {
            assert(inbound@.take(done + 1) == inbound@.take(done as int).push(inbound@[done as int]));
            assert(normalized_events(inbound@.take(done + 1)) == normalized_events(
                inbound@.take(done as int),
            ).push(inbound@[done as int].normalized()));
            assert(event_views(events@) == event_views(before).push(event@));
            assert(events@.take(old(events)@.len() as int) == before.take(
                old(events)@.len() as int,
            ));
        }
        done = done + 1;
    }
    proof {
        assert(inbound@.take(done as int) == inbound@);
    }
}

} // verus!

use laminar_transport::address::Address;
use laminar_transport::events::{EngineError, EngineEvent, NetworkSimulationEvent};
use laminar_transport::laminar::{
    laminar_network_recv_system, laminar_network_send_system, packet_for, report_send_result,
    LaminarSocketResource, OutboundPacket,
};
use laminar_transport::message::Message;
use laminar_transport::requirements::{DeliveryRequirement, TransportOperation};
use laminar_transport::timing::NetworkSimulationTime;
use laminar_transport::transport::TransportResource;

fn peer_a() -> Address {
    Address::ipv4(127, 0, 0, 1, 4000)
}

fn peer_b() -> Address {
    Address::ipv4(127, 0, 0, 1, 4001)
}

fn bound() -> LaminarSocketResource {
    let socket = laminar::Socket::bind_any().expect("a loopback socket");
    LaminarSocketResource::new(Some(socket))
}

fn open_gate() -> NetworkSimulationTime {
    NetworkSimulationTime::new(0)
}

fn closed_gate() -> NetworkSimulationTime {
    NetworkSimulationTime::new(1000)
}

fn ping_pong() -> TransportResource {
    let mut transport = TransportResource::new();
    transport.send(peer_a(), b"ping", DeliveryRequirement::Unreliable);
    transport.send(peer_b(), b"pong", DeliveryRequirement::ReliableOrdered(Some(7)));
    transport
}

#[test]
fn resource_without_socket_hands_out_none() {
    let mut resource = LaminarSocketResource::new(None);
    assert!(resource.get().is_none());
    assert!(resource.get_mut().is_none());
    let mut by_default = LaminarSocketResource::default();
    assert!(by_default.get().is_none());
    assert!(by_default.get_mut().is_none());
}

#[test]
fn resource_holds_the_socket_it_was_given() {
    let socket = laminar::Socket::bind_any().expect("a loopback socket");
    let local = socket.local_addr().expect("a local address");
    let mut resource = LaminarSocketResource::new(Some(socket));
    assert_eq!(resource.get().expect("bound").local_addr().expect("a local address"), local);
    assert_eq!(resource.get_mut().expect("bound").local_addr().expect("a local address"), local);
}

#[test]
fn set_socket_binds_and_drop_socket_unbinds() {
    let mut resource = LaminarSocketResource::new(None);
    let socket = laminar::Socket::bind_any().expect("a loopback socket");
    let local = socket.local_addr().expect("a local address");
    resource.set_socket(socket);
    assert_eq!(resource.get().expect("bound").local_addr().expect("a local address"), local);
    resource.drop_socket();
    assert!(resource.get().is_none());
    assert!(resource.get_mut().is_none());
}

#[test]
fn packet_carries_destination_payload_and_operation() {
    let message = Message::new(peer_a(), b"ping", DeliveryRequirement::UnreliableSequenced(Some(2)));
    assert_eq!(
        packet_for(&message),
        OutboundPacket {
            destination: peer_a(),
            payload: b"ping".to_vec(),
            operation: TransportOperation::UnreliableSequenced(Some(2)),
        }
    );
    let empty = Message::new(peer_b(), b"", DeliveryRequirement::Default);
    assert_eq!(
        packet_for(&empty),
        OutboundPacket {
            destination: peer_b(),
            payload: Vec::new(),
            operation: TransportOperation::ReliableOrdered(None),
        }
    );
}

#[test]
fn send_stage_without_socket_leaves_the_queue() {
    let mut transport = ping_pong();
    let resource = LaminarSocketResource::new(None);
    let batch = laminar_network_send_system(&mut transport, &resource, &open_gate());
    assert!(batch.is_empty());
    assert_eq!(transport.len(), 2);
}

#[test]
fn send_stage_with_closed_gate_leaves_the_queue() {
    let mut transport = ping_pong();
    let resource = bound();
    let batch = laminar_network_send_system(&mut transport, &resource, &closed_gate());
    assert!(batch.is_empty());
    assert_eq!(transport.len(), 2);
}

#[test]
fn send_stage_sends_ping_and_pong_with_their_operations() {
    let mut transport = ping_pong();
    let resource = bound();
    let batch = laminar_network_send_system(&mut transport, &resource, &open_gate());
    assert_eq!(transport.len(), 0);
    assert!(!transport.has_messages());
    assert_eq!(batch.len(), 2);
    let packets: Vec<OutboundPacket> = batch.iter().map(packet_for).collect();
    assert_eq!(
        packets,
        vec![
            OutboundPacket {
                destination: peer_a(),
                payload: b"ping".to_vec(),
                operation: TransportOperation::Unreliable,
            },
            OutboundPacket {
                destination: peer_b(),
                payload: b"pong".to_vec(),
                operation: TransportOperation::ReliableOrdered(Some(7)),
            },
        ]
    );
}

#[test]
fn send_stage_follows_the_clock() {
    let mut transport = ping_pong();
    let resource = bound();
    let mut clock = NetworkSimulationTime::new(100);
    clock.advance(60);
    assert!(laminar_network_send_system(&mut transport, &resource, &clock).is_empty());
    clock.advance(60);
    assert_eq!(laminar_network_send_system(&mut transport, &resource, &clock).len(), 2);
    transport.send(peer_a(), b"late", DeliveryRequirement::Reliable);
    clock.advance(60);
    assert!(laminar_network_send_system(&mut transport, &resource, &clock).is_empty());
    assert_eq!(transport.len(), 1);
}

#[test]
fn io_failure_reports_one_send_error_with_the_message() {
    let message = Message::new(peer_a(), b"ping", DeliveryRequirement::ReliableSequenced(Some(9)));
    let mut events = Vec::new();
    let error = std::io::Error::new(std::io::ErrorKind::ConnectionRefused, "refused");
    let sent = report_send_result(&mut events, message.clone(), Err(EngineError::Io(error)));
    assert!(!sent);
    assert_eq!(events.len(), 1);
    match &events[0] {
        NetworkSimulationEvent::SendError(error, failed) => {
            assert_eq!(error.kind(), std::io::ErrorKind::ConnectionRefused);
            assert_eq!(failed, &message);
            assert_eq!(failed.destination, peer_a());
            assert_eq!(&failed.payload[..], b"ping");
            assert_eq!(failed.delivery, DeliveryRequirement::ReliableSequenced(Some(9)));
        }
        other => panic!("not a send error: {:?}", other),
    }
}

#[test]
fn other_failure_and_success_report_nothing() {
    let message = Message::new(peer_a(), b"ping", DeliveryRequirement::Reliable);
    let mut events = Vec::new();
    assert!(!report_send_result(&mut events, message.clone(), Err(EngineError::Other)));
    assert!(events.is_empty());
    assert!(report_send_result(&mut events, message, Ok(())));
    assert!(events.is_empty());
}

#[test]
fn one_failure_does_not_stop_the_batch() {
    let mut transport = ping_pong();
    transport.send(peer_a(), b"third", DeliveryRequirement::Reliable);
    let resource = bound();
    let batch = laminar_network_send_system(&mut transport, &resource, &open_gate());
    let mut events = Vec::new();
    let mut sent = 0;
    for (i, message) in batch.into_iter().enumerate() {
        let result = if i == 1 {
            Err(EngineError::Io(std::io::Error::new(std::io::ErrorKind::Other, "down")))
        } else {
            Ok(())
        };
        if report_send_result(&mut events, message, result) {
            sent += 1;
        }
    }
    assert_eq!(sent, 2);
    assert_eq!(events.len(), 1);
    assert!(matches!(&events[0], NetworkSimulationEvent::SendError(_, m) if &m.payload[..] == b"pong"));
}

#[test]
fn receive_stage_without_socket_emits_nothing() {
    let resource = LaminarSocketResource::new(None);
    let mut events = Vec::new();
    let inbound = vec![EngineEvent::Connect(peer_a())];
    laminar_network_recv_system(&resource, &inbound, &mut events);
    assert!(events.is_empty());
}

#[test]
fn receive_stage_drains_five_notifications_in_order() {
    let resource = bound();
    let mut events = vec![NetworkSimulationEvent::Connect(peer_b())];
    let inbound = vec![
        EngineEvent::Connect(peer_a()),
        EngineEvent::Packet(peer_a(), b"hello".to_vec()),
        EngineEvent::Packet(peer_b(), Vec::new()),
        EngineEvent::Timeout(peer_b()),
        EngineEvent::Disconnect(peer_a()),
    ];
    laminar_network_recv_system(&resource, &inbound, &mut events);
    assert_eq!(events.len(), 6);
    assert!(matches!(&events[0], NetworkSimulationEvent::Connect(a) if *a == peer_b()));
    assert!(matches!(&events[1], NetworkSimulationEvent::Connect(a) if *a == peer_a()));
    assert!(matches!(&events[2], NetworkSimulationEvent::Message(a, p) if *a == peer_a() && &p[..] == b"hello"));
    assert!(matches!(&events[3], NetworkSimulationEvent::Message(a, p) if *a == peer_b() && p.is_empty()));
    assert!(matches!(&events[4], NetworkSimulationEvent::Disconnect(a) if *a == peer_b()));
    assert!(matches!(&events[5], NetworkSimulationEvent::Disconnect(a) if *a == peer_a()));
}

#[test]
fn timeout_and_disconnect_give_the_same_event() {
    let timeout = EngineEvent::Timeout(peer_a()).normalize();
    let disconnect = EngineEvent::Disconnect(peer_a()).normalize();
    assert!(matches!(timeout, NetworkSimulationEvent::Disconnect(a) if a == peer_a()));
    assert!(matches!(disconnect, NetworkSimulationEvent::Disconnect(a) if a == peer_a()));
    assert_eq!(format!("{:?}", timeout), format!("{:?}", disconnect));
}

#[test]
fn received_payload_is_a_copy() {
    let mut notification = EngineEvent::Packet(peer_a(), vec![1, 2, 3]);
    let event = notification.normalize();
    if let EngineEvent::Packet(_, payload) = &mut notification {
        payload[0] = 9;
    }
    assert!(matches!(event, NetworkSimulationEvent::Message(a, p) if a == peer_a() && &p[..] == &[1u8, 2, 3][..]));
}

#[test]
fn connect_is_passed_on() {
    let event = EngineEvent::Connect(peer_b()).normalize();
    assert!(matches!(event, NetworkSimulationEvent::Connect(a) if a == peer_b()));
}

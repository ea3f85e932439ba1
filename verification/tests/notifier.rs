use controller_notifier::SimulationControllerNotifier;
use crossbeam_channel::unbounded;

#[derive(Debug, Clone, Default, PartialEq)]
struct SourceRoutingHeader {
    hop_index: usize,
    hops: Vec<u8>,
}

#[derive(Debug, Clone, PartialEq)]
struct Ack {
    fragment_index: u64,
}

#[allow(dead_code)]
#[derive(Debug, Clone, PartialEq)]
enum PacketType {
    Ack(Ack),
    FloodRequest,
}

#[derive(Debug, Clone, PartialEq)]
struct Packet {
    routing_header: SourceRoutingHeader,
    session_id: u64,
    pack_type: PacketType,
}

#[allow(dead_code)]
#[derive(Debug, Clone, PartialEq)]
enum NodeEvent {
    PacketSent(Packet),
    PacketDropped(Packet),
}

#[test]
fn initialize() {
    let (tx, _rx) = unbounded::<NodeEvent>();
    let notifier = SimulationControllerNotifier::new(tx);

    let notifier = notifier.label();
    assert_eq!(notifier, "SimulationControllerNotifier");
}

#[test]
fn test_send_event() {
    let (tx, rx) = unbounded();
    let notifier = SimulationControllerNotifier::new(tx);

    let event = NodeEvent::PacketSent(Packet {
        routing_header: Default::default(),
        session_id: 0,
        pack_type: PacketType::Ack(Ack { fragment_index: 0 }),
    });
    assert!(notifier.send_event(event.clone()).is_ok());

    let received = rx.recv().unwrap();
    assert!(matches!(received, NodeEvent::PacketSent(_)));
    assert_eq!(received, event);
}

#[test]
#[should_panic]
fn test_failure() {
    let (tx, rx) = unbounded();
    let notifier = SimulationControllerNotifier::new(tx);

    let event = NodeEvent::PacketSent(Packet {
        routing_header: Default::default(),
        session_id: 0,
        pack_type: PacketType::Ack(Ack { fragment_index: 0 }),
    });

    drop(rx);
    if let Err(failure) = notifier.send_event(event.clone()) {
        panic!("{}", failure.message);
    }
}

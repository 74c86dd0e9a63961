use rusk::handlers::models::ProcessorInfo;
use rusk::processors::functions::{adder_func, doubler_func};
use rusk::processors::in_memory_processor::InMemoryProcessor;
use rusk::processors::in_memory_source_processor::InMemorySourceProcessor;
use rusk::processors::models::{
    InMemoryPacket, Message, ProcessorAction, ProcessorCommand, ProcessorEvent, ProcessorReply,
    ProcessorStatus, ReferencePacket,
};

fn status_of(action: ProcessorAction) -> ProcessorStatus {
    match action {
        ProcessorAction::Reply(ProcessorReply::Status(status)) => status,
        other => panic!("expected a status reply, got {:?}", other),
    }
}

fn info_of(action: ProcessorAction) -> ProcessorInfo {
    match action {
        ProcessorAction::Reply(ProcessorReply::Info(info)) => info,
        other => panic!("expected an info reply, got {:?}", other),
    }
}

fn command<H>(command: ProcessorCommand<H>) -> ProcessorEvent<H> {
    ProcessorEvent::Command(command)
}

fn packet(id: u128, data: Vec<u8>) -> InMemoryPacket {
    InMemoryPacket { id, data }
}

fn is_stopped(status: ProcessorStatus) -> bool {
    matches!(status, ProcessorStatus::Stopped)
}

fn is_running(status: ProcessorStatus) -> bool {
    matches!(status, ProcessorStatus::Running)
}

fn is_errored(status: ProcessorStatus) -> bool {
    matches!(status, ProcessorStatus::Errored)
}

#[test]
fn status_equality_leaves_errored_out() {
    assert!(ProcessorStatus::Running == ProcessorStatus::Running);
    assert!(ProcessorStatus::Stopped == ProcessorStatus::Stopped);
    assert!(ProcessorStatus::Running != ProcessorStatus::Stopped);
    assert!(ProcessorStatus::Stopped != ProcessorStatus::Running);
    assert!(ProcessorStatus::Errored != ProcessorStatus::Errored);
    assert!(ProcessorStatus::Errored != ProcessorStatus::Running);
    assert!(ProcessorStatus::Stopped != ProcessorStatus::Errored);
}

#[test]
fn a_new_processor_is_stopped_and_empty() {
    let source: InMemorySourceProcessor<u32> = InMemorySourceProcessor::new("adder".to_string());
    assert!(is_stopped(source.status()));
    assert_eq!(source.packets_processed_count(), 0);
    assert!(source.peers().is_empty());
    assert_eq!(source.processor_name(), "adder");

    let transform: InMemoryProcessor<u32> = InMemoryProcessor::new("doubler".to_string());
    assert!(is_stopped(transform.status()));
    assert_eq!(transform.packets_processed_count(), 0);
    assert!(transform.peers().is_empty());
    assert_eq!(transform.processor_name(), "doubler");
}

#[test]
fn new_processors_get_random_version_four_ids() {
    let a: InMemorySourceProcessor<u32> = InMemorySourceProcessor::new("a".to_string());
    let b: InMemoryProcessor<u32> = InMemoryProcessor::new("b".to_string());
    for id in [a.processor_id(), b.processor_id()] {
        assert_eq!((id >> 76) & 0xf, 4);
        assert_eq!((id >> 62) & 0x3, 2);
        assert_eq!(uuid::Uuid::from_u128(id).get_version_num(), 4);
    }
    assert_ne!(a.processor_id(), b.processor_id());
}

#[test]
fn start_and_stop_move_between_stopped_and_running() {
    let mut processor: InMemoryProcessor<u32> = InMemoryProcessor::new("doubler".to_string());
    assert!(is_stopped(status_of(processor.run(command(ProcessorCommand::GetStatus), doubler_func))));
    assert!(is_running(status_of(processor.run(command(ProcessorCommand::Start), doubler_func))));
    assert!(is_running(processor.status()));
    assert!(is_running(status_of(processor.run(command(ProcessorCommand::GetStatus), doubler_func))));
    assert!(is_running(status_of(processor.run(command(ProcessorCommand::Start), doubler_func))));
    assert!(is_stopped(status_of(processor.run(command(ProcessorCommand::Stop), doubler_func))));
    assert!(is_stopped(processor.status()));
    assert!(is_stopped(status_of(processor.run(command(ProcessorCommand::Stop), doubler_func))));
    assert!(is_stopped(status_of(processor.run(command(ProcessorCommand::GetStatus), doubler_func))));
}

#[test]
fn source_start_and_stop_move_between_stopped_and_running() {
    let mut processor: InMemorySourceProcessor<u32> =
        InMemorySourceProcessor::new("test_processor".to_string());
    assert!(is_running(status_of(processor.run(command(ProcessorCommand::Start), adder_func))));
    assert!(is_running(status_of(processor.run(command(ProcessorCommand::Start), adder_func))));
    assert!(is_stopped(status_of(processor.run(command(ProcessorCommand::Stop), adder_func))));
    assert!(is_stopped(status_of(processor.run(command(ProcessorCommand::Stop), adder_func))));
}

#[test]
fn get_info_reports_id_status_and_count() {
    let mut processor: InMemorySourceProcessor<u32> =
        InMemorySourceProcessor::new("adder".to_string());
    let info = info_of(processor.run(command(ProcessorCommand::GetInfo), adder_func));
    assert_eq!(
        info.processor_id,
        uuid::Uuid::from_u128(processor.processor_id()).to_string()
    );
    assert_eq!(info.processor_id.len(), 36);
    assert!(is_stopped(info.status));
    assert_eq!(info.packets_processed_count, 0);

    processor.run(command(ProcessorCommand::Start), adder_func);
    processor.connect_processor(7, 70);
    assert!(matches!(
        processor.run(ProcessorEvent::Tick, adder_func),
        ProcessorAction::FanOut(_)
    ));
    let info = info_of(processor.run(command(ProcessorCommand::GetInfo), adder_func));
    assert!(is_running(info.status));
    assert_eq!(info.packets_processed_count, 1);
}

#[test]
fn connect_overwrites_and_disconnect_of_an_absent_peer_is_a_no_op() {
    let mut processor: InMemoryProcessor<&str> = InMemoryProcessor::new("doubler".to_string());
    let reply = processor.run(
        command(ProcessorCommand::Connect {
            destination_processor_id: 1,
            destination_processor_tx: "first",
        }),
        doubler_func,
    );
    assert!(is_stopped(status_of(reply)));
    assert_eq!(processor.peers().len(), 1);
    assert_eq!(processor.peers().get(&1), Some(&"first"));

    let reply = processor.run(
        command(ProcessorCommand::Connect {
            destination_processor_id: 1,
            destination_processor_tx: "second",
        }),
        doubler_func,
    );
    assert!(is_stopped(status_of(reply)));
    assert_eq!(processor.peers().len(), 1);
    assert_eq!(processor.peers().get(&1), Some(&"second"));

    let reply = processor.run(
        command(ProcessorCommand::Disconnect { destination_processor_id: 2 }),
        doubler_func,
    );
    assert!(is_stopped(status_of(reply)));
    assert_eq!(processor.peers().len(), 1);

    let reply = processor.run(
        command(ProcessorCommand::Disconnect { destination_processor_id: 1 }),
        doubler_func,
    );
    assert!(is_stopped(status_of(reply)));
    assert!(processor.peers().is_empty());
}

#[test]
fn test_in_memory_source_processor() {
    let mut processor: InMemorySourceProcessor<u32> =
        InMemorySourceProcessor::new("adder".to_string());
    processor.run(command(ProcessorCommand::Start), adder_func);
    for _ in 0..10 {
        assert!(matches!(
            processor.run(ProcessorEvent::Tick, adder_func),
            ProcessorAction::Idle
        ));
    }
    let info = info_of(processor.run(command(ProcessorCommand::GetInfo), adder_func));
    assert_eq!(info.packets_processed_count, 0);
    assert!(is_running(info.status));
}

#[test]
fn a_stopped_source_counts_nothing() {
    let mut processor: InMemorySourceProcessor<u32> =
        InMemorySourceProcessor::new("adder".to_string());
    processor.connect_processor(1, 10);
    for _ in 0..5 {
        assert!(matches!(
            processor.run(ProcessorEvent::Tick, adder_func),
            ProcessorAction::Idle
        ));
    }
    assert_eq!(processor.packets_processed_count(), 0);
}

#[test]
fn a_running_source_counts_one_round_per_tick_not_per_peer() {
    let mut processor: InMemorySourceProcessor<u32> =
        InMemorySourceProcessor::new("adder".to_string());
    processor.run(command(ProcessorCommand::Start), adder_func);
    processor.connect_processor(1, 10);
    processor.connect_processor(2, 20);
    processor.connect_processor(3, 30);
    for round in 1..=4u64 {
        match processor.run(ProcessorEvent::Tick, adder_func) {
            ProcessorAction::FanOut(packet) => {
                assert_eq!(packet.data.len(), 3);
                assert!(packet.data.iter().all(|b| (1..100).contains(b)));
            }
            other => panic!("expected a fan-out, got {:?}", other),
        }
        assert_eq!(processor.packets_processed_count(), round);
    }
    processor.run(command(ProcessorCommand::Stop), adder_func);
    assert!(matches!(
        processor.run(ProcessorEvent::Tick, adder_func),
        ProcessorAction::Idle
    ));
    assert_eq!(processor.packets_processed_count(), 4);
}

#[test]
fn a_generator_that_yields_nothing_counts_nothing() {
    let mut processor: InMemorySourceProcessor<u32> =
        InMemorySourceProcessor::new("quiet".to_string());
    processor.run(command(ProcessorCommand::Start), || None);
    processor.connect_processor(1, 10);
    assert!(matches!(
        processor.run(ProcessorEvent::Tick, || None),
        ProcessorAction::Idle
    ));
    assert_eq!(processor.packets_processed_count(), 0);
}

#[test]
fn a_source_ignores_its_inbox_and_a_transform_ignores_ticks() {
    let mut source: InMemorySourceProcessor<u32> = InMemorySourceProcessor::new("s".to_string());
    source.run(command(ProcessorCommand::Start), adder_func);
    source.connect_processor(1, 10);
    let message = Message::InMemoryMessage(packet(5, vec![1]));
    assert!(matches!(
        source.run(ProcessorEvent::Data(message), adder_func),
        ProcessorAction::Idle
    ));
    assert_eq!(source.packets_processed_count(), 0);

    let mut transform: InMemoryProcessor<u32> = InMemoryProcessor::new("t".to_string());
    transform.run(command(ProcessorCommand::Start), doubler_func);
    transform.connect_processor(1, 10);
    assert!(matches!(
        transform.run(ProcessorEvent::Tick, doubler_func),
        ProcessorAction::Idle
    ));
    assert_eq!(transform.packets_processed_count(), 0);
}

#[test]
fn test_in_memory_processor() {
    let mut processor: InMemoryProcessor<u32> =
        InMemoryProcessor::new("test_in_memory_processor".to_string());
    assert!(is_running(status_of(processor.run(command(ProcessorCommand::Start), doubler_func))));
    let reply = processor.run(
        command(ProcessorCommand::Connect {
            destination_processor_id: 99,
            destination_processor_tx: 1,
        }),
        doubler_func,
    );
    assert!(is_running(status_of(reply)));

    let message = Message::InMemoryMessage(packet(42, vec![1, 2, 3, 4]));
    match processor.run(ProcessorEvent::Data(message), doubler_func) {
        ProcessorAction::FanOut(derived) => {
            assert_eq!(derived.data, vec![2, 4, 6, 8]);
            assert_eq!(derived.id, 42);
        }
        other => panic!("Expected a fan-out, got {:?}", other),
    }
    assert_eq!(processor.packets_processed_count(), 1);
}

#[test]
fn a_transform_discards_packets_while_stopped_or_without_peers() {
    let mut processor: InMemoryProcessor<u32> = InMemoryProcessor::new("doubler".to_string());
    processor.connect_processor(1, 10);
    let message = Message::InMemoryMessage(packet(1, vec![1]));
    assert!(matches!(
        processor.run(ProcessorEvent::Data(message), doubler_func),
        ProcessorAction::Idle
    ));
    processor.disconnect_processor(1);
    processor.run(command(ProcessorCommand::Start), doubler_func);
    let message = Message::InMemoryMessage(packet(1, vec![1]));
    assert!(matches!(
        processor.run(ProcessorEvent::Data(message), doubler_func),
        ProcessorAction::Idle
    ));
    assert_eq!(processor.packets_processed_count(), 0);
}

#[test]
fn a_transform_discards_reference_messages() {
    let mut processor: InMemoryProcessor<u32> = InMemoryProcessor::new("doubler".to_string());
    processor.run(command(ProcessorCommand::Start), doubler_func);
    processor.connect_processor(1, 10);
    let message = Message::ReferenceMessage(ReferencePacket {
        id: 3,
        file_name: "wal.txt".to_string(),
        offset: 12,
        length: 4,
    });
    assert!(matches!(
        processor.run(ProcessorEvent::Data(message), doubler_func),
        ProcessorAction::Idle
    ));
    assert_eq!(processor.packets_processed_count(), 0);
}

#[test]
fn a_packet_that_cannot_be_doubled_is_dropped_uncounted() {
    let mut processor: InMemoryProcessor<u32> = InMemoryProcessor::new("doubler".to_string());
    processor.run(command(ProcessorCommand::Start), doubler_func);
    processor.connect_processor(1, 10);
    let message = Message::InMemoryMessage(packet(1, vec![1, 128]));
    assert!(matches!(
        processor.run(ProcessorEvent::Data(message), doubler_func),
        ProcessorAction::Idle
    ));
    assert_eq!(processor.packets_processed_count(), 0);
    assert!(is_running(processor.status()));
}

#[test]
fn cancellation_ends_the_loop_and_changes_nothing() {
    let mut source: InMemorySourceProcessor<u32> = InMemorySourceProcessor::new("s".to_string());
    source.run(command(ProcessorCommand::Start), adder_func);
    source.connect_processor(1, 10);
    assert!(matches!(
        source.run(ProcessorEvent::Cancelled, adder_func),
        ProcessorAction::Exit
    ));
    assert!(is_running(source.status()));
    assert_eq!(source.peers().len(), 1);
    assert_eq!(source.packets_processed_count(), 0);

    let mut transform: InMemoryProcessor<u32> = InMemoryProcessor::new("t".to_string());
    assert!(matches!(
        transform.run(ProcessorEvent::Cancelled, doubler_func),
        ProcessorAction::Exit
    ));
    assert!(is_stopped(transform.status()));
}

#[test]
fn closed_peers_are_pruned_and_the_rest_stay() {
    let mut processor: InMemorySourceProcessor<&str> =
        InMemorySourceProcessor::new("adder".to_string());
    processor.connect_processor(1, "one");
    processor.connect_processor(2, "two");
    processor.connect_processor(3, "three");
    processor.prune_peers(&vec![2, 9, 2]);
    assert_eq!(processor.peers().len(), 2);
    assert_eq!(processor.peers().get(&1), Some(&"one"));
    assert_eq!(processor.peers().get(&2), None);
    assert_eq!(processor.peers().get(&3), Some(&"three"));
    processor.prune_peers(&vec![]);
    assert_eq!(processor.peers().len(), 2);
    processor.prune_peers(&vec![3, 1]);
    assert!(processor.peers().is_empty());
}

#[test]
fn an_errored_processor_stays_errored_and_forwards_nothing() {
    let mut processor: InMemoryProcessor<u32> = InMemoryProcessor::new("doubler".to_string());
    processor.run(command(ProcessorCommand::Start), doubler_func);
    processor.connect_processor(1, 10);
    processor.fail();
    assert!(is_errored(processor.status()));
    assert!(is_errored(status_of(processor.run(command(ProcessorCommand::Start), doubler_func))));
    assert!(is_errored(status_of(processor.run(command(ProcessorCommand::Stop), doubler_func))));
    assert!(is_errored(status_of(processor.run(command(ProcessorCommand::GetStatus), doubler_func))));
    let reply = processor.run(
        command(ProcessorCommand::Connect {
            destination_processor_id: 2,
            destination_processor_tx: 20,
        }),
        doubler_func,
    );
    assert!(is_errored(status_of(reply)));
    assert_eq!(processor.peers().len(), 2);
    let info = info_of(processor.run(command(ProcessorCommand::GetInfo), doubler_func));
    assert!(is_errored(info.status));
    let message = Message::InMemoryMessage(packet(1, vec![1]));
    assert!(matches!(
        processor.run(ProcessorEvent::Data(message), doubler_func),
        ProcessorAction::Idle
    ));
    assert_eq!(processor.packets_processed_count(), 0);
}

#[test]
fn adder_packets_hold_three_bytes_from_one_to_ninety_nine() {
    let mut seen = std::collections::HashSet::new();
    for _ in 0..200 {
        let packet = adder_func().unwrap();
        assert_eq!(packet.data.len(), 3);
        for byte in &packet.data {
            assert!(*byte >= 1 && *byte < 100);
            seen.insert(*byte);
        }
        assert_eq!((packet.id >> 76) & 0xf, 4);
        assert_eq!((packet.id >> 62) & 0x3, 2);
    }
    assert!(seen.len() > 1);
}

#[test]
fn doubler_doubles_every_byte_up_to_the_largest_that_fits() {
    let derived = doubler_func(packet(7, vec![0, 1, 63, 127])).unwrap();
    assert_eq!(derived.id, 7);
    assert_eq!(derived.data, vec![0, 2, 126, 254]);
    let derived = doubler_func(packet(8, vec![])).unwrap();
    assert_eq!(derived.id, 8);
    assert!(derived.data.is_empty());
    assert!(doubler_func(packet(9, vec![128])).is_none());
    assert!(doubler_func(packet(9, vec![1, 2, 255, 3])).is_none());
}

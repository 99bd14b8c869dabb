use hubpack::SerializedSize;
use tm4c123g_ipc::inspector::{
    decode_request, encode_response, Action, Counters, Event, Inspector, Phase, QueryV0,
    RecvError, Request, SendError, SeqError, SequencerRegistersResponseV0,
    ANY_RESPONSE_V0_MAX_SIZE, REQUEST_MAX_SIZE, REQUEST_TRAILER, SEQUENCER_REGISTERS,
};

const SOCKET_MASK: u32 = 0b100;

fn registers() -> [u8; 64] {
    let mut bytes = [0u8; 64];
    for (i, byte) in bytes.iter_mut().enumerate() {
        *byte = 0xA0 ^ u8::try_from(i).unwrap();
    }
    bytes
}

fn request_packet() -> Vec<u8> {
    vec![0, 0]
}

fn counters(received: u32, rejected: u32, responses: u32) -> Counters {
    Counters { received, rejected, responses }
}

#[test]
fn request_is_two_zero_tags() {
    assert_eq!(decode_request(&[0, 0]), Some(Request::V0(QueryV0::SequencerRegisters)));
    assert_eq!(decode_request(&[]), None);
    assert_eq!(decode_request(&[0]), None);
    assert_eq!(decode_request(&[1]), None);
    assert_eq!(decode_request(&[1, 0]), None);
    assert_eq!(decode_request(&[0, 1]), None);
    assert_eq!(decode_request(&[0xFF, 0xFF]), None);
    assert_eq!(decode_request(&[0, 0, 0]), None);
    assert_eq!(REQUEST_MAX_SIZE + REQUEST_TRAILER, 2);
}

#[test]
fn request_is_what_hubpack_reads_as_two_zero_bytes() {
    for first in 0u8..4 {
        for second in 0u8..4 {
            let packet = [first, second];
            let (tags, rest) = hubpack::deserialize::<(u8, u8)>(&packet).unwrap();
            assert!(rest.is_empty());
            assert_eq!(decode_request(&packet).is_some(), tags == (0, 0));
        }
    }
    assert!(hubpack::deserialize::<(u8, u8)>(&[0]).is_err());
    assert_eq!(REQUEST_MAX_SIZE, <(u8, u8)>::MAX_SIZE);
}

#[test]
fn response_is_version_outcome_and_registers() {
    let regs = registers();
    let success = encode_response(&Ok(regs));
    assert_eq!(success.len(), 2 + SEQUENCER_REGISTERS);
    assert_eq!(success.len(), ANY_RESPONSE_V0_MAX_SIZE);
    assert_eq!(&success[..2], &[0, 0]);
    assert_eq!(&success[2..], &regs[..]);
    assert_eq!(success[2], 0xA0);
    assert_eq!(success[65], 0xA0 ^ 63);

    assert_eq!(encode_response(&Err(SeqError::ServerRestarted)), vec![0, 1]);
    assert_eq!(encode_response(&Err(SeqError::ReadRegsFailed)), vec![0, 2]);
    assert_eq!(encode_response(&Err(SeqError::Other)), vec![0, 2]);
}

#[test]
fn response_header_is_what_hubpack_writes() {
    let outcomes = [
        (SequencerRegistersResponseV0::Success, Ok(registers())),
        (SequencerRegistersResponseV0::SequencerTaskDead, Err(SeqError::ServerRestarted)),
        (SequencerRegistersResponseV0::SequencerReadRegsFailed, Err(SeqError::ReadRegsFailed)),
    ];
    for (outcome, result) in outcomes {
        let mut expected = [0xEEu8; 2];
        let written = hubpack::serialize(&mut expected, &(0u8, outcome.to_u8())).unwrap();
        assert_eq!(written, 2);
        assert_eq!(&encode_response(&result)[..2], &expected[..]);
    }
    assert_eq!(SequencerRegistersResponseV0::Success.to_u8(), 0);
    assert_eq!(SequencerRegistersResponseV0::SequencerTaskDead.to_u8(), 1);
    assert_eq!(SequencerRegistersResponseV0::SequencerReadRegsFailed.to_u8(), 2);
}

#[test]
fn task_starts_by_asking_for_a_packet() {
    let inspector = Inspector::new(SOCKET_MASK);
    assert_eq!(inspector.counters, counters(0, 0, 0));
    assert_eq!(inspector.phase, Phase::Receive);
    assert_eq!(inspector.mask, SOCKET_MASK);
    assert!(inspector.response.is_empty());
    assert_eq!(inspector.action(), Action::Receive);
}

#[test]
fn notification_of_other_bits_ends_no_wait() {
    let mut inspector = Inspector::new(SOCKET_MASK);
    assert_eq!(inspector.step(Event::Received(Err(RecvError::QueueEmpty))), Action::Wait);
    assert_eq!(inspector.step(Event::Notified(0)), Action::Wait);
    assert_eq!(inspector.step(Event::Notified(0b011)), Action::Wait);
    assert_eq!(inspector.step(Event::Notified(!SOCKET_MASK)), Action::Wait);
    assert_eq!(inspector.phase, Phase::Idle);
    assert_eq!(inspector.step(Event::Notified(0b110)), Action::Receive);

    inspector.step(Event::Received(Ok(request_packet())));
    inspector.step(Event::Registers(Err(SeqError::ReadRegsFailed)));
    assert_eq!(inspector.step(Event::Sent(Err(SendError::QueueFull))), Action::Wait);
    assert_eq!(inspector.step(Event::Notified(0b001)), Action::Wait);
    assert_eq!(inspector.phase, Phase::Blocked);
    assert_eq!(inspector.step(Event::Notified(0xFFFF_FFFF)), Action::Send);
    assert_eq!(inspector.response, vec![0, 2]);
    assert_eq!(inspector.counters, counters(1, 0, 0));
}

#[test]
fn one_request_is_received_answered_and_counted() {
    let mut inspector = Inspector::new(SOCKET_MASK);
    assert_eq!(inspector.step(Event::Received(Ok(request_packet()))), Action::ReadRegisters);
    assert_eq!(inspector.counters, counters(1, 0, 0));
    assert_eq!(inspector.step(Event::Registers(Ok(registers()))), Action::Send);
    assert_eq!(inspector.response, encode_response(&Ok(registers())));
    assert_eq!(inspector.counters, counters(1, 0, 0));
    assert_eq!(inspector.step(Event::Sent(Ok(()))), Action::Receive);
    assert_eq!(inspector.counters, counters(1, 0, 1));
}

#[test]
fn zero_length_packet_moves_the_rejection_counter_only() {
    let mut inspector = Inspector::new(SOCKET_MASK);
    inspector.counters = counters(10, 4, 6);
    assert_eq!(inspector.step(Event::Received(Ok(vec![]))), Action::Receive);
    assert_eq!(inspector.counters, counters(10, 5, 6));
    assert_eq!(inspector.phase, Phase::Receive);
    assert!(inspector.response.is_empty());
}

#[test]
fn packet_of_one_invalid_tag_moves_the_rejection_counter_only() {
    let mut inspector = Inspector::new(SOCKET_MASK);
    inspector.counters = counters(10, 4, 6);
    assert_eq!(inspector.step(Event::Received(Ok(vec![0x7F]))), Action::Receive);
    assert_eq!(inspector.counters, counters(10, 5, 6));
    assert_eq!(inspector.step(Event::Received(Ok(vec![0, 9]))), Action::Receive);
    assert_eq!(inspector.counters, counters(10, 6, 6));
    assert_eq!(inspector.step(Event::Received(Ok(vec![0, 0, 0]))), Action::Receive);
    assert_eq!(inspector.counters, counters(10, 7, 6));
    assert_eq!(inspector.phase, Phase::Receive);
}

#[test]
fn every_third_send_finds_the_queue_full() {
    let requests: u32 = 10;
    let mut inspector = Inspector::new(SOCKET_MASK);
    let mut sends = 0u32;
    let mut taken = 0u32;
    let mut action = inspector.action();
    let mut pending_requests = requests;
    let mut sent_packets: Vec<Vec<u8>> = Vec::new();
    let mut expected_packets: Vec<Vec<u8>> = Vec::new();
    let mut serial = 0u8;
    let mut steps = 0;
    loop {
        steps += 1;
        assert!(steps < 1000);
        let event = match action {
            Action::Receive => {
                if pending_requests == 0 {
                    break;
                }
                pending_requests -= 1;
                Event::Received(Ok(request_packet()))
            }
            Action::ReadRegisters => {
                serial += 1;
                let regs = [serial; 64];
                expected_packets.push(encode_response(&Ok(regs)));
                Event::Registers(Ok(regs))
            }
            Action::Send => {
                sends += 1;
                if sends % 3 == 0 {
                    Event::Sent(Err(SendError::QueueFull))
                } else {
                    taken += 1;
                    sent_packets.push(inspector.response.clone());
                    Event::Sent(Ok(()))
                }
            }
            Action::Wait => Event::Notified(SOCKET_MASK),
            Action::Abort => panic!("the task gave up"),
        };
        action = inspector.step(event);
    }
    assert_eq!(taken, requests);
    assert_eq!(sends, 14);
    assert_eq!(inspector.counters, counters(requests, 0, requests));
    assert_eq!(sent_packets, expected_packets);
}

#[test]
fn full_queue_waits_and_sends_the_same_response_again() {
    let mut inspector = Inspector::new(SOCKET_MASK);
    inspector.step(Event::Received(Ok(request_packet())));
    inspector.step(Event::Registers(Err(SeqError::ServerRestarted)));
    let response = inspector.response.clone();
    assert_eq!(response, vec![0, 1]);

    assert_eq!(inspector.step(Event::Sent(Err(SendError::QueueFull))), Action::Wait);
    assert_eq!(inspector.phase, Phase::Blocked);
    assert_eq!(inspector.response, response);
    assert_eq!(inspector.step(Event::Notified(SOCKET_MASK)), Action::Send);
    assert_eq!(inspector.response, response);
    // The notification may have been for a packet, not for room.
    assert_eq!(inspector.step(Event::Sent(Err(SendError::QueueFull))), Action::Wait);
    assert_eq!(inspector.step(Event::Notified(SOCKET_MASK)), Action::Send);
    assert_eq!(inspector.step(Event::Sent(Err(SendError::ServerRestarted))), Action::Send);
    assert_eq!(inspector.response, response);
    assert_eq!(inspector.counters, counters(1, 0, 0));
    assert_eq!(inspector.step(Event::Sent(Ok(()))), Action::Receive);
    assert_eq!(inspector.counters, counters(1, 0, 1));
}

#[test]
fn empty_queue_waits_and_restart_asks_again() {
    let mut inspector = Inspector::new(SOCKET_MASK);
    assert_eq!(inspector.step(Event::Received(Err(RecvError::QueueEmpty))), Action::Wait);
    assert_eq!(inspector.phase, Phase::Idle);
    assert_eq!(inspector.step(Event::Notified(SOCKET_MASK)), Action::Receive);
    assert_eq!(inspector.step(Event::Received(Err(RecvError::ServerRestarted))), Action::Receive);
    assert_eq!(inspector.counters, counters(0, 0, 0));
}

#[test]
fn configuration_errors_end_the_task() {
    for error in [RecvError::NotYours, RecvError::Other] {
        let mut inspector = Inspector::new(SOCKET_MASK);
        assert_eq!(inspector.step(Event::Received(Err(error))), Action::Abort);
        assert_eq!(inspector.phase, Phase::Failed);
        assert_eq!(inspector.step(Event::Received(Ok(request_packet()))), Action::Abort);
        assert_eq!(inspector.counters, counters(0, 0, 0));
    }
    for error in [SendError::NotYours, SendError::InvalidVLan, SendError::Other] {
        let mut inspector = Inspector::new(SOCKET_MASK);
        inspector.step(Event::Received(Ok(request_packet())));
        inspector.step(Event::Registers(Ok(registers())));
        assert_eq!(inspector.step(Event::Sent(Err(error))), Action::Abort);
        assert_eq!(inspector.phase, Phase::Failed);
        assert_eq!(inspector.step(Event::Sent(Ok(()))), Action::Abort);
        assert_eq!(inspector.counters, counters(1, 0, 0));
    }
}

#[test]
fn events_that_answer_nothing_change_nothing() {
    let mut inspector = Inspector::new(SOCKET_MASK);
    assert_eq!(inspector.step(Event::Notified(SOCKET_MASK)), Action::Receive);
    assert_eq!(inspector.step(Event::Sent(Ok(()))), Action::Receive);
    assert_eq!(inspector.step(Event::Registers(Ok(registers()))), Action::Receive);
    assert_eq!(inspector.counters, counters(0, 0, 0));
    assert!(inspector.response.is_empty());

    inspector.step(Event::Received(Ok(request_packet())));
    assert_eq!(inspector.step(Event::Received(Ok(request_packet()))), Action::ReadRegisters);
    assert_eq!(inspector.step(Event::Notified(SOCKET_MASK)), Action::ReadRegisters);
    assert_eq!(inspector.counters, counters(1, 0, 0));
}

#[test]
fn counters_wrap_around() {
    let mut inspector = Inspector::new(SOCKET_MASK);
    inspector.counters = counters(u32::MAX, u32::MAX, u32::MAX);
    inspector.step(Event::Received(Ok(vec![9])));
    assert_eq!(inspector.counters, counters(u32::MAX, 0, u32::MAX));
    inspector.step(Event::Received(Ok(request_packet())));
    assert_eq!(inspector.counters, counters(0, 0, u32::MAX));
    inspector.step(Event::Registers(Err(SeqError::Other)));
    inspector.step(Event::Sent(Ok(())));
    assert_eq!(inspector.counters, counters(0, 0, 0));
}

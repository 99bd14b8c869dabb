use tm4c123g_ipc::call::{Answer, Progress};
use tm4c123g_ipc::peripheral::Peripheral;
use tm4c123g_ipc::syscon_api::{Syscon, SysconRequest, INCOMING_SIZE};
use tm4c123g_ipc::syscon_driver::{
    reset_reason, Completion, Effect, ResetReason, Served, ServerImpl, WordWrite,
    CLOCK_SETTLE_CYCLES,
};
use tm4c123g_ipc::task::TaskHandle;
use tm4c123g_ipc::wire::{CallError, ClientError};

const RCGC_GPIO: usize = 0x608 / 4;
const SR_GPIO: usize = 0x508 / 4;
const PR_GPIO: usize = 0xA08 / 4;
const RCGC_UART: usize = 0x618 / 4;

fn clock(offset: u32, clear: u32, set: u32) -> Effect {
    Effect { write: WordWrite { offset, clear, set }, completion: Completion::AfterCycles(3) }
}

fn syscon() -> Syscon {
    Syscon::new(TaskHandle::new(1, 0))
}

#[test]
fn syscon_envelopes_are_selector_then_peripheral_number() {
    let syscon = syscon();
    assert_eq!(syscon.enable_clock(Peripheral::GpioF).envelope, vec![1, 0x05, 0x00, 0x08, 0x00]);
    assert_eq!(syscon.disable_clock(Peripheral::Uart7).envelope, vec![2, 0x07, 0x00, 0x18, 0x00]);
    assert_eq!(syscon.enter_reset(Peripheral::Watchdog1).envelope, vec![3, 0x01, 0x00, 0x00, 0x00]);
    assert_eq!(
        syscon.leave_reset(Peripheral::WideTimer5).envelope,
        vec![4, 0x05, 0x00, 0x5C, 0x00]
    );
    let call = syscon.enable_clock(Peripheral::Hib);
    assert_eq!(call.target, TaskHandle { index: 1, generation: 0 });
    assert_eq!(call.payload_len, 0);
    assert!(call.retry);
    assert_eq!(call.envelope.len(), INCOMING_SIZE);
}

#[test]
fn syscon_requests_read_back_from_their_envelopes() {
    for peripheral in [
        Peripheral::Watchdog0,
        Peripheral::Timer3,
        Peripheral::GpioE,
        Peripheral::Dma,
        Peripheral::Uart6,
        Peripheral::I2C1,
        Peripheral::Usb,
        Peripheral::Eeprom,
        Peripheral::WideTimer0,
    ] {
        for request in [
            SysconRequest::EnableClock(peripheral),
            SysconRequest::DisableClock(peripheral),
            SysconRequest::EnterReset(peripheral),
            SysconRequest::LeaveReset(peripheral),
        ] {
            assert_eq!(SysconRequest::decode(&request.encode()), Ok(request));
        }
    }
}

#[test]
fn syscon_decode_gives_each_error_for_its_input() {
    assert_eq!(SysconRequest::decode(&[]), Err(ClientError::BadMessageSize));
    assert_eq!(SysconRequest::decode(&[0]), Err(ClientError::UnknownOperation));
    assert_eq!(SysconRequest::decode(&[5]), Err(ClientError::UnknownOperation));
    assert_eq!(SysconRequest::decode(&[5, 0, 0, 8, 0]), Err(ClientError::UnknownOperation));
    assert_eq!(SysconRequest::decode(&[0xFF, 0, 0]), Err(ClientError::UnknownOperation));
    assert_eq!(SysconRequest::decode(&[1]), Err(ClientError::BadMessageSize));
    assert_eq!(SysconRequest::decode(&[1, 0, 0, 8]), Err(ClientError::BadMessageSize));
    assert_eq!(SysconRequest::decode(&[1, 0, 0, 8, 0, 0]), Err(ClientError::BadMessageSize));
    assert_eq!(SysconRequest::decode(&[4, 5, 0]), Err(ClientError::BadMessageSize));
    assert_eq!(SysconRequest::decode(&[1, 6, 0, 8, 0]), Err(ClientError::BadMessageContents));
    assert_eq!(SysconRequest::decode(&[2, 0, 0, 0x10, 0]), Err(ClientError::BadMessageContents));
    assert_eq!(SysconRequest::decode(&[3, 0, 1, 8, 0]), Err(ClientError::BadMessageContents));
    assert_eq!(SysconRequest::decode(&[4, 0, 0, 8, 1]), Err(ClientError::BadMessageContents));
}

#[test]
fn control_clock_writes_the_bit_of_the_peripheral() {
    let mut server = ServerImpl::new();
    assert_eq!(server.control_clock(Peripheral::GpioF, true), clock(0x608, 0, 0x20));
    assert_eq!(server.words[RCGC_GPIO], 0x20);
    assert_eq!(server.control_clock(Peripheral::GpioA, true), clock(0x608, 0, 0x01));
    assert_eq!(server.words[RCGC_GPIO], 0x21);
    assert_eq!(server.control_clock(Peripheral::Uart3, true), clock(0x618, 0, 0x08));
    assert_eq!(server.words[RCGC_UART], 0x08);
    assert_eq!(server.words[RCGC_GPIO], 0x21);
    assert_eq!(server.control_clock(Peripheral::GpioF, false), clock(0x608, 0x20, 0));
    assert_eq!(server.words[RCGC_GPIO], 0x01);
    assert_eq!(server.control_clock(Peripheral::GpioF, false), clock(0x608, 0x20, 0));
    assert_eq!(server.words[RCGC_GPIO], 0x01);
    assert_eq!(CLOCK_SETTLE_CYCLES, 3);

    let touched = server.words.iter().filter(|word| **word != 0).count();
    assert_eq!(touched, 2);
}

#[test]
fn control_reset_writes_the_bit_and_says_when_to_answer() {
    let mut server = ServerImpl::new();
    assert_eq!(
        server.control_reset(Peripheral::GpioC, true),
        Effect {
            write: WordWrite { offset: 0x508, clear: 0, set: 0x04 },
            completion: Completion::Done,
        }
    );
    assert_eq!(server.words[SR_GPIO], 0x04);
    assert_eq!(server.control_reset(Peripheral::GpioB, true).completion, Completion::Done);
    assert_eq!(server.words[SR_GPIO], 0x06);
    assert_eq!(
        server.control_reset(Peripheral::GpioC, false),
        Effect {
            write: WordWrite { offset: 0x508, clear: 0x04, set: 0 },
            completion: Completion::WhenReady(Peripheral::GpioC),
        }
    );
    assert_eq!(server.words[SR_GPIO], 0x02);
    // The clock gating and ready banks are not touched.
    assert_eq!(server.words[RCGC_GPIO], 0);
    assert_eq!(server.words[PR_GPIO], 0);
}

#[test]
fn is_ready_reads_the_ready_bit_of_the_peripheral() {
    let mut server = ServerImpl::new();
    assert!(!server.is_ready(Peripheral::GpioC));
    server.words[PR_GPIO] = 0x04;
    assert!(server.is_ready(Peripheral::GpioC));
    assert!(!server.is_ready(Peripheral::GpioB));
    assert!(!server.is_ready(Peripheral::GpioD));
    assert!(!server.is_ready(Peripheral::Timer2));
    server.words[PR_GPIO] = 0xFB;
    assert!(!server.is_ready(Peripheral::GpioC));
    assert!(server.is_ready(Peripheral::GpioB));
}

#[test]
fn enabling_a_clock_twice_leaves_it_enabled_without_error() {
    let mut server = ServerImpl::new();
    let message = syscon().enable_clock(Peripheral::GpioB).envelope;

    let first = server.dispatch(&message);
    assert_eq!(first, Served { reply: vec![0], effect: Some(clock(0x608, 0, 0x02)) });
    assert_eq!(server.words[RCGC_GPIO], 0x02);
    let after_first = server;

    let second = server.dispatch(&message);
    assert_eq!(second, Served { reply: vec![0], effect: Some(clock(0x608, 0, 0x02)) });
    assert_eq!(server.words[RCGC_GPIO], 0x02);
    assert_eq!(server, after_first);
}

#[test]
fn syscon_handlers_carry_the_four_operations_out() {
    let mut server = ServerImpl::new();
    assert_eq!(server.enable_clock(Peripheral::Timer1), Ok(clock(0x604, 0, 0x02)));
    assert_eq!(server.words[0x604 / 4], 0x02);
    assert_eq!(server.disable_clock(Peripheral::Timer1), Ok(clock(0x604, 0x02, 0)));
    assert_eq!(server.words[0x604 / 4], 0x00);
    assert_eq!(
        server.enter_reset(Peripheral::Ssi2),
        Ok(Effect {
            write: WordWrite { offset: 0x51C, clear: 0, set: 0x04 },
            completion: Completion::Done,
        })
    );
    assert_eq!(server.words[0x51C / 4], 0x04);
    assert_eq!(
        server.leave_reset(Peripheral::Ssi2),
        Ok(Effect {
            write: WordWrite { offset: 0x51C, clear: 0x04, set: 0 },
            completion: Completion::WhenReady(Peripheral::Ssi2),
        })
    );
    assert_eq!(server.words[0x51C / 4], 0x00);
}

#[test]
fn syscon_dispatch_serves_requests_and_turns_the_rest_down() {
    let mut server = ServerImpl::new();
    assert_eq!(
        server.dispatch(&[3, 0x02, 0x00, 0x08, 0x00]),
        Served {
            reply: vec![0],
            effect: Some(Effect {
                write: WordWrite { offset: 0x508, clear: 0, set: 0x04 },
                completion: Completion::Done,
            }),
        }
    );
    assert_eq!(server.words[SR_GPIO], 0x04);
    assert_eq!(
        server.dispatch(&[4, 0x02, 0x00, 0x08, 0x00]),
        Served {
            reply: vec![0],
            effect: Some(Effect {
                write: WordWrite { offset: 0x508, clear: 0x04, set: 0 },
                completion: Completion::WhenReady(Peripheral::GpioC),
            }),
        }
    );
    assert_eq!(server.words[SR_GPIO], 0x00);
    assert_eq!(
        server.dispatch(&[2, 0x02, 0x00, 0x08, 0x00]),
        Served { reply: vec![0], effect: Some(clock(0x608, 0x04, 0)) }
    );

    server.words[RCGC_GPIO] = 0x3F;
    let before = server;
    let rejected = |reply: Vec<u8>| Served { reply, effect: None };
    assert_eq!(server.dispatch(&[9, 0x02, 0x00, 0x08, 0x00]), rejected(vec![1]));
    assert_eq!(server.dispatch(&[0]), rejected(vec![1]));
    assert_eq!(server.dispatch(&[2, 0x02, 0x00, 0x08]), rejected(vec![2]));
    assert_eq!(server.dispatch(&[2]), rejected(vec![2]));
    assert_eq!(server.dispatch(&[]), rejected(vec![2]));
    assert_eq!(server.dispatch(&[2, 0x02, 0x00, 0x08, 0x00, 0x00]), rejected(vec![2]));
    assert_eq!(server.dispatch(&[2, 0x07, 0x00, 0x08, 0x00]), rejected(vec![3]));
    assert_eq!(server.words, before.words);
    assert_eq!(before.rejected, 0);
    assert_eq!(server.rejected, 7);
}

#[test]
fn zero_length_envelope_adds_one_to_the_rejections_of_the_system_controller() {
    let mut server = ServerImpl::new();
    server.words[SR_GPIO] = 0x15;
    server.rejected = 7;
    let before = server;
    assert_eq!(server.dispatch(&[]), Served { reply: vec![2], effect: None });
    assert_eq!(server.rejected, 8);
    assert_eq!(server.words, before.words);
    assert_eq!(
        server.dispatch_buffer(&[3, 0, 0, 8, 0], 0),
        Served { reply: vec![2], effect: None }
    );
    assert_eq!(server.rejected, 9);
    assert_eq!(server.words, before.words);
}

#[test]
fn lone_invalid_selector_adds_one_to_the_rejections_of_the_system_controller() {
    let mut server = ServerImpl::new();
    server.words[SR_GPIO] = 0x15;
    let before = server;
    assert_eq!(server.dispatch(&[0x2A]), Served { reply: vec![1], effect: None });
    assert_eq!(server.rejected, 1);
    assert_eq!(server.dispatch(&[5]), Served { reply: vec![1], effect: None });
    assert_eq!(server.rejected, 2);
    assert_eq!(server.words, before.words);
}

#[test]
fn syscon_requests_that_are_served_are_not_counted_as_rejected() {
    let mut server = ServerImpl::new();
    assert_eq!(server.rejected, 0);
    server.dispatch(&[1, 0x02, 0x00, 0x08, 0x00]);
    server.dispatch(&[2, 0x02, 0x00, 0x08, 0x00]);
    server.dispatch(&[3, 0x02, 0x00, 0x08, 0x00]);
    server.dispatch(&[4, 0x02, 0x00, 0x08, 0x00]);
    server.enable_clock(Peripheral::Usb).unwrap();
    assert_eq!(server.rejected, 0);
    server.rejected = u32::MAX;
    server.dispatch(&[]);
    assert_eq!(server.rejected, 0);
}

#[test]
fn syscon_call_ends_with_the_reply_of_the_server() {
    let mut server = ServerImpl::new();
    let call = syscon().leave_reset(Peripheral::GpioA);
    let again = match call.resolve(Answer::PeerRestarted(2)) {
        Progress::Resend(again) => again,
        Progress::Done(outcome) => panic!("the call ended early: {:?}", outcome),
    };
    assert_eq!(again.target, TaskHandle { index: 1, generation: 2 });
    let served = server.dispatch(&again.envelope);
    assert_eq!(served.effect.unwrap().completion, Completion::WhenReady(Peripheral::GpioA));
    assert_eq!(again.resolve(Answer::Reply(served.reply)), Progress::Done(Ok(vec![])));

    let call = syscon().enable_clock(Peripheral::GpioA);
    assert_eq!(
        call.resolve(Answer::Reply(vec![3])),
        Progress::Done(Err(CallError::Rejected(ClientError::BadMessageContents)))
    );
}

#[test]
fn reset_reason_names_a_cause_that_stands_alone() {
    assert_eq!(reset_reason(0x02), ResetReason::PowerOn);
    assert_eq!(reset_reason(0x04), ResetReason::Brownout);
    assert_eq!(reset_reason(0x08), ResetReason::SystemWatchdog);
    assert_eq!(reset_reason(0x10), ResetReason::SystemCall);
    assert_eq!(reset_reason(0x20), ResetReason::SystemWatchdog);
    assert_eq!(reset_reason(0x00), ResetReason::Other(0x00));
    assert_eq!(reset_reason(0x01), ResetReason::Other(0x01));
    assert_eq!(reset_reason(0x06), ResetReason::Other(0x06));
    assert_eq!(reset_reason(0x40), ResetReason::Other(0x40));
    assert_eq!(reset_reason(0x0001_0002), ResetReason::Other(0x0001_0002));
}

#[test]
fn syscon_envelope_longer_than_the_buffer_is_turned_down() {
    let mut server = ServerImpl::new();
    let before = server;
    let buffer = [1, 0x05, 0x00, 0x08, 0x00];
    assert_eq!(server.dispatch_buffer(&buffer, 6), Served { reply: vec![2], effect: None });
    assert_eq!(server.dispatch_buffer(&buffer, 4), Served { reply: vec![2], effect: None });
    assert_eq!(server.words, before.words);
    assert_eq!(server.rejected, 2);
    assert_eq!(
        server.dispatch_buffer(&buffer, 5),
        Served { reply: vec![0], effect: Some(clock(0x608, 0, 0x20)) }
    );
    assert_eq!(server.words[RCGC_GPIO], 0x20);
}

//! The system controller: the clock gating, software reset and peripheral
//! ready registers, and the operations that the driver task carries out on
//! them.

use vstd::prelude::*;
use crate::bits::{bit_is_set, lemma_with_bit, test_bit, with_bit};
use crate::counter::{bump, bumped};
use crate::peripheral::{
    lemma_peripheral_round_trip,
    Peripheral,
    SYSCTL_PR_BASE_OFFSET,
    SYSCTL_RCGC_BASE_OFFSET,
    SYSCTL_SR_BASE_OFFSET,
};
use crate::syscon_api::{lemma_decode_encode, SysconRequest, REPLY_SIZE};
use crate::wire::{encode_rejection, encode_success, rejection_envelope, success_envelope, ClientError};

verus! {

/// The number of words of the system controller that the driver holds: all
/// up to the last word of the peripheral ready bank.
pub const SYSCTL_WORDS: usize = 664;

/// Reset cause: power on.
pub const RESC_POR: u32 = 0x02;

/// Reset cause: brown-out.
pub const RESC_BOR: u32 = 0x04;

/// Reset cause: watchdog timer 0.
pub const RESC_WDT0: u32 = 0x08;

/// Reset cause: software.
pub const RESC_SW: u32 = 0x10;

/// Reset cause: watchdog timer 1.
pub const RESC_WDT1: u32 = 0x20;

/// Why the system was last reset.
#[derive(Copy, Clone, Debug, PartialEq, Eq, Structural)]
pub enum ResetReason {
    PowerOn,
    Brownout,
    SystemWatchdog,
    SystemCall,
    /// A cause, or several at once, that has no name here: the reset cause
    /// register as it was read.
    Other(u32),
}

/// When the response to a request may go out.
#[derive(Copy, Clone, Debug, PartialEq, Eq, Structural)]
pub enum Completion {
    /// At once.
    Done,
    /// After this many system clocks: a peripheral whose clock was switched
    /// must not be touched before.
    AfterCycles(u32),
    /// Once this peripheral reads ready.
    WhenReady(Peripheral),
}

/// One read-modify-write of a word of the system controller: of the word
/// at byte offset `offset`, the bits of `clear` are cleared, then the bits
/// of `set` are set, and the result is written back.
#[derive(Copy, Clone, Debug, PartialEq, Eq, Structural)]
pub struct WordWrite {
    pub offset: u32,
    pub clear: u32,
    pub set: u32,
}

/// What carrying one request out comes to: the write that was made, and
/// when the response may go out.
#[derive(Copy, Clone, Debug, PartialEq, Eq, Structural)]
pub struct Effect {
    pub write: WordWrite,
    pub completion: Completion,
}

/// The state of the system controller task.
#[derive(Copy, Clone, Debug, PartialEq, Eq)]
pub struct ServerImpl {
    /// The words of the system controller, word `i` being the one at byte
    /// offset `4 * i`.
    pub words: [u32; SYSCTL_WORDS],
    /// The number of envelopes that were turned down since the task
    /// started. It wraps around at the end of its range.
    pub rejected: u32,
}

/// What serving one request envelope leaves behind, besides the registers:
/// the response envelope, and what the request came to if the envelope held
/// one.
#[derive(Debug, PartialEq, Eq)]
pub struct Served {
    pub reply: Vec<u8>,
    pub effect: Option<Effect>,
}

/// The number of system clocks to let pass after the clock of a peripheral
/// was switched.
pub const CLOCK_SETTLE_CYCLES: u32 = 3;

/// The word at byte offset `offset`.
pub open spec fn word_at(registers: Seq<u32>, offset: int) -> u32 {
    registers[offset / 4]
}

/// The registers with the word at byte offset `offset` replaced by `value`.
pub open spec fn with_word(registers: Seq<u32>, offset: int, value: u32) -> Seq<u32> {
    registers.update(offset / 4, value)
}

/// Whether the clock of `peripheral` runs.
pub open spec fn clock_enabled(registers: Seq<u32>, peripheral: Peripheral) -> bool {
    bit_is_set(
        word_at(registers, SYSCTL_RCGC_BASE_OFFSET + peripheral.offset()),
        peripheral.bit() as u8,
    )
}

/// Whether `peripheral` is held in reset.
pub open spec fn in_reset(registers: Seq<u32>, peripheral: Peripheral) -> bool {
    bit_is_set(
        word_at(registers, SYSCTL_SR_BASE_OFFSET + peripheral.offset()),
        peripheral.bit() as u8,
    )
}

/// Whether `peripheral` reads ready.
pub open spec fn ready(registers: Seq<u32>, peripheral: Peripheral) -> bool {
    bit_is_set(
        word_at(registers, SYSCTL_PR_BASE_OFFSET + peripheral.offset()),
        peripheral.bit() as u8,
    )
}

/// The registers after the clock of `peripheral` has been let run, if
/// `enable`, or stopped, if not: its bit in the clock gating word of its
/// class is written, and nothing else.
pub open spec fn clock_gated(registers: Seq<u32>, peripheral: Peripheral, enable: bool) -> Seq<
    u32,
> {
    let offset = SYSCTL_RCGC_BASE_OFFSET + peripheral.offset();
    with_word(
        registers,
        offset,
        with_bit(word_at(registers, offset), peripheral.bit() as u8, enable),
    )
}

/// The registers after `peripheral` has been put into reset, if `enable`,
/// or released from it, if not: its bit in the software reset word of its
/// class is written, and nothing else.
pub open spec fn reset_held(registers: Seq<u32>, peripheral: Peripheral, enable: bool) -> Seq<
    u32,
> {
    let offset = SYSCTL_SR_BASE_OFFSET + peripheral.offset();
    with_word(
        registers,
        offset,
        with_bit(word_at(registers, offset), peripheral.bit() as u8, enable),
    )
}

/// The registers after the write `write`.
pub open spec fn patched(registers: Seq<u32>, write: WordWrite) -> Seq<u32> {
    with_word(
        registers,
        write.offset as int,
        (word_at(registers, write.offset as int) & !write.clear) | write.set,
    )
}

/// The write that lets the clock of `peripheral` run, if `enable`, or stops
/// it, if not, and when the response may go out: after the clock has
/// settled.
pub open spec fn clock_effect(peripheral: Peripheral, enable: bool) -> Effect {
    Effect {
        write: WordWrite {
            offset: (SYSCTL_RCGC_BASE_OFFSET + peripheral.offset()) as u32,
            clear: if enable {
                0
            } else {
                1u32 << peripheral.bit()
            },
            set: if enable {
                1u32 << peripheral.bit()
            } else {
                0
            },
        },
        completion: Completion::AfterCycles(CLOCK_SETTLE_CYCLES),
    }
}

/// The write that puts `peripheral` into reset, if `enable`, or releases
/// it, if not, and when the response may go out: at once for a peripheral
/// put into reset, and for one released once it reads ready.
pub open spec fn reset_effect(peripheral: Peripheral, enable: bool) -> Effect {
    Effect {
        write: WordWrite {
            offset: (SYSCTL_SR_BASE_OFFSET + peripheral.offset()) as u32,
            clear: if enable {
                0
            } else {
                1u32 << peripheral.bit()
            },
            set: if enable {
                1u32 << peripheral.bit()
            } else {
                0
            },
        },
        completion: if enable {
            Completion::Done
        } else {
            Completion::WhenReady(peripheral)
        },
    }
}

/// What carrying `request` out comes to.
pub open spec fn request_effect(request: SysconRequest) -> Effect {
    match request {
        SysconRequest::EnableClock(peripheral) => clock_effect(peripheral, true),
        SysconRequest::DisableClock(peripheral) => clock_effect(peripheral, false),
        SysconRequest::EnterReset(peripheral) => reset_effect(peripheral, true),
        SysconRequest::LeaveReset(peripheral) => reset_effect(peripheral, false),
    }
}

/// The registers after the request envelope `message` has been served. An
/// envelope that holds no request leaves them as they are.
pub open spec fn words_served(registers: Seq<u32>, message: Seq<u8>) -> Seq<u32> {
    match SysconRequest::decoded(message) {
        Ok(request) => patched(registers, request_effect(request).write),
        Err(_) => registers,
    }
}

/// The response envelope to the request envelope `message`: a success
/// without a result, or the reason why it is turned down.
pub open spec fn reply_to(message: Seq<u8>) -> Seq<u8> {
    match SysconRequest::decoded(message) {
        Ok(_) => success_envelope(Seq::empty()),
        Err(error) => rejection_envelope(error),
    }
}

/// The count of envelopes turned down after the request envelope
/// `message` has been served: one more if it holds no request, and as
/// before if it holds one.
pub open spec fn rejected_served(rejected: u32, message: Seq<u8>) -> u32 {
    match SysconRequest::decoded(message) {
        Ok(_) => rejected,
        Err(_) => bumped(rejected),
    }
}

/// What serving the request envelope `message` comes to, if it holds a
/// request.
pub open spec fn effect_for(message: Seq<u8>) -> Option<Effect> {
    match SysconRequest::decoded(message) {
        Ok(request) => Some(request_effect(request)),
        Err(_) => None,
    }
}

/// The reason that the reset cause register `resc` gives: one of the named
/// ones if exactly its bit is set, and the register itself otherwise.
pub open spec fn reset_cause(resc: u32) -> ResetReason {
    if resc == RESC_POR {
        ResetReason::PowerOn
    } else if resc == RESC_BOR {
        ResetReason::Brownout
    } else if resc == RESC_WDT0 {
        ResetReason::SystemWatchdog
    } else if resc == RESC_SW {
        ResetReason::SystemCall
    } else if resc == RESC_WDT1 {
        ResetReason::SystemWatchdog
    } else {
        ResetReason::Other(resc)
    }
}

/// Reads the reason of the last reset off the reset cause register.
pub fn reset_reason(resc: u32) -> (reason: ResetReason)
    ensures
        reason == reset_cause(resc),
{
    if resc == RESC_POR {
        ResetReason::PowerOn
    } else if resc == RESC_BOR {
        ResetReason::Brownout
    } else if resc == RESC_WDT0 {
        ResetReason::SystemWatchdog
    } else if resc == RESC_SW {
        ResetReason::SystemCall
    } else if resc == RESC_WDT1 {
        ResetReason::SystemWatchdog
    } else {
        ResetReason::Other(resc)
    }
}

impl ServerImpl {
    /// A system controller with every word zero: all clocks stopped, no
    /// peripheral in reset, none ready. It has turned nothing down yet.
    pub fn new() -> (server: ServerImpl)
        ensures
            server.words@ == Seq::new(SYSCTL_WORDS as nat, |i: int| 0u32),
            server.rejected == 0,
    {
        let server = ServerImpl { words: [0u32;SYSCTL_WORDS], rejected: 0 };
        assert(server.words@ =~= Seq::new(SYSCTL_WORDS as nat, |i: int| 0u32));
        server
    }

    /// Whether `peripheral` reads ready.
    pub fn is_ready(&self, peripheral: Peripheral) -> (is: bool)
        ensures
            is == ready(self.words@, peripheral),
    {
        let bit = peripheral.as_bit();
        let pr_offset = peripheral.as_pr_offset();
        test_bit(self.words[(pr_offset / 4) as usize], bit as u8)
    }

    /// Makes one write.
    fn apply(&mut self, write: WordWrite)
        requires
            write.offset / 4 < SYSCTL_WORDS,
        ensures
            final(self).words@ == patched(old(self).words@, write),
            final(self).rejected == old(self).rejected,
    {
        let index = (write.offset / 4) as usize;
        let reg_val = self.words[index];
        self.words[index] = (reg_val & !write.clear) | write.set;
    }

    /// Lets the clock of `peripheral` run, or stops it.
    pub fn control_clock(&mut self, peripheral: Peripheral, enable: bool) -> (effect: Effect)
        ensures
            effect == clock_effect(peripheral, enable),
            final(self).words@ == patched(old(self).words@, effect.write),
            final(self).rejected == old(self).rejected,
    {
        let bit = peripheral.as_bit();
        let rcgc_offset = peripheral.as_rcgc_offset();

        let write = if enable {
            WordWrite { offset: rcgc_offset, clear: 0, set: 1u32 << bit }
        } else {
            WordWrite { offset: rcgc_offset, clear: 1u32 << bit, set: 0 }
        };
        self.apply(write);

        // The manual asks for three system clocks before the registers of
        // the peripheral are touched.
        Effect { write, completion: Completion::AfterCycles(CLOCK_SETTLE_CYCLES) }
    }

    /// Puts `peripheral` into reset, or releases it. A peripheral that was
    /// released takes a moment to settle: the response to the request may go
    /// out once it reads ready.
    pub fn control_reset(&mut self, peripheral: Peripheral, enable: bool) -> (effect: Effect)
        ensures
            effect == reset_effect(peripheral, enable),
            final(self).words@ == patched(old(self).words@, effect.write),
            final(self).rejected == old(self).rejected,
    {
        let bit = peripheral.as_bit();
        let sr_offset = peripheral.as_sr_offset();

        if enable {
            let write = WordWrite { offset: sr_offset, clear: 0, set: 1u32 << bit };
            self.apply(write);

            Effect { write, completion: Completion::Done }
        } else {
            let write = WordWrite { offset: sr_offset, clear: 1u32 << bit, set: 0 };
            self.apply(write);

            // Wait for the peripheral to be ready.
            Effect { write, completion: Completion::WhenReady(peripheral) }
        }
    }

    /// Lets the clock of `peripheral` run.
    pub fn enable_clock(&mut self, peripheral: Peripheral) -> (done: Result<Effect, ClientError>)
        ensures
            done == Ok::<Effect, ClientError>(
                request_effect(SysconRequest::EnableClock(peripheral)),
            ),
            final(self).words@ == patched(old(self).words@, clock_effect(peripheral, true).write),
            final(self).rejected == old(self).rejected,
    {
        Ok(self.control_clock(peripheral, true))
    }

    /// Stops the clock of `peripheral`.
    pub fn disable_clock(&mut self, peripheral: Peripheral) -> (done: Result<Effect, ClientError>)
        ensures
            done == Ok::<Effect, ClientError>(
                request_effect(SysconRequest::DisableClock(peripheral)),
            ),
            final(self).words@ == patched(old(self).words@, clock_effect(peripheral, false).write),
            final(self).rejected == old(self).rejected,
    {
        Ok(self.control_clock(peripheral, false))
    }

    /// Holds `peripheral` in reset.
    pub fn enter_reset(&mut self, peripheral: Peripheral) -> (done: Result<Effect, ClientError>)
        ensures
            done == Ok::<Effect, ClientError>(
                request_effect(SysconRequest::EnterReset(peripheral)),
            ),
            final(self).words@ == patched(old(self).words@, reset_effect(peripheral, true).write),
            final(self).rejected == old(self).rejected,
    {
        Ok(self.control_reset(peripheral, true))
    }

    /// Releases `peripheral` from reset.
    pub fn leave_reset(&mut self, peripheral: Peripheral) -> (done: Result<Effect, ClientError>)
        ensures
            done == Ok::<Effect, ClientError>(
                request_effect(SysconRequest::LeaveReset(peripheral)),
            ),
            final(self).words@ == patched(old(self).words@, reset_effect(peripheral, false).write),
            final(self).rejected == old(self).rejected,
    {
        Ok(self.control_reset(peripheral, false))
    }

    /// Turns an envelope down for `error`: counts it, and makes no write.
    fn reject(&mut self, error: ClientError) -> (served: Served)
        ensures
            final(self).words@ == old(self).words@,
            final(self).rejected == bumped(old(self).rejected),
            served.reply@ == rejection_envelope(error),
            served.effect is None,
    {
        self.rejected = bump(self.rejected);
        Served { reply: encode_rejection(error), effect: None }
    }

    /// Serves one request envelope: reads it, carries the request out if it
    /// holds one, and writes the response envelope. An envelope that is
    /// turned down is counted and makes no write.
    pub fn dispatch(&mut self, message: &[u8]) -> (served: Served)
        ensures
            final(self).words@ == words_served(old(self).words@, message@),
            final(self).rejected == rejected_served(old(self).rejected, message@),
            served.reply@ == reply_to(message@),
            served.effect == effect_for(message@),
            served.reply@.len() == REPLY_SIZE,
    {
        let handled = match SysconRequest::decode(message) {
            Ok(SysconRequest::EnableClock(peripheral)) => self.enable_clock(peripheral),
            Ok(SysconRequest::DisableClock(peripheral)) => self.disable_clock(peripheral),
            Ok(SysconRequest::EnterReset(peripheral)) => self.enter_reset(peripheral),
            Ok(SysconRequest::LeaveReset(peripheral)) => self.leave_reset(peripheral),
            Err(error) => Err(error),
        };
        match handled {
            Ok(effect) => {
                let empty: Vec<u8> = Vec::new();
                assert(empty@ =~= Seq::<u8>::empty());
                Served { reply: encode_success(empty.as_slice()), effect: Some(effect) }
            },
            Err(error) => self.reject(error),
        }
    }

    /// Serves the request envelope that the kernel delivered into `buffer`.
    /// The kernel cuts an envelope that is longer than the buffer down to
    /// the buffer and reports the length it had, `message_len`. Such an
    /// envelope is turned down for its size and counted, whatever the part
    /// that arrived holds.
    pub fn dispatch_buffer(&mut self, buffer: &[u8], message_len: usize) -> (served: Served)
        ensures
            message_len <= buffer@.len() ==> {
                &&& final(self).words@ == words_served(
                    old(self).words@,
                    buffer@.subrange(0, message_len as int),
                )
                &&& final(self).rejected == rejected_served(
                    old(self).rejected,
                    buffer@.subrange(0, message_len as int),
                )
                &&& served.reply@ == reply_to(buffer@.subrange(0, message_len as int))
                &&& served.effect == effect_for(buffer@.subrange(0, message_len as int))
            },
            message_len > buffer@.len() ==> {
                &&& final(self).words@ == old(self).words@
                &&& final(self).rejected == bumped(old(self).rejected)
                &&& served.reply@ == rejection_envelope(ClientError::BadMessageSize)
                &&& served.effect is None
            },
    {
        if message_len > buffer.len() {
            return self.reject(ClientError::BadMessageSize);
        }
        self.dispatch(&buffer[0..message_len])
    }
}

proof fn lemma_word_masks(word: u32, bit: u32)
    by (bit_vector)
    requires
        bit < 8,
    ensures
        (word & !0u32) | (1u32 << bit) == word | (1u32 << (bit as u8)),
        (word & !(1u32 << bit)) | 0 == word & !(1u32 << (bit as u8)),
{
}

/// The write of a request leaves the registers that the request describes:
/// the clock of the peripheral running or stopped, the peripheral held in
/// reset or released.
pub proof fn lemma_effect_meaning(registers: Seq<u32>, peripheral: Peripheral, enable: bool)
    requires
        registers.len() == SYSCTL_WORDS,
    ensures
        patched(registers, clock_effect(peripheral, enable).write) == clock_gated(
            registers,
            peripheral,
            enable,
        ),
        patched(registers, reset_effect(peripheral, enable).write) == reset_held(
            registers,
            peripheral,
            enable,
        ),
{
    lemma_peripheral_round_trip(peripheral);
    lemma_word_masks(
        word_at(registers, SYSCTL_RCGC_BASE_OFFSET + peripheral.offset()),
        peripheral.bit(),
    );
    lemma_word_masks(
        word_at(registers, SYSCTL_SR_BASE_OFFSET + peripheral.offset()),
        peripheral.bit(),
    );
}

/// Gating the clock of a peripheral, or holding or releasing its reset,
/// writes the bit as asked, and doing so a second time changes nothing
/// more.
pub proof fn lemma_written_bit_stays(registers: Seq<u32>, peripheral: Peripheral, enable: bool)
    requires
        registers.len() == SYSCTL_WORDS,
    ensures
        clock_enabled(clock_gated(registers, peripheral, enable), peripheral) == enable,
        clock_gated(clock_gated(registers, peripheral, enable), peripheral, enable) == clock_gated(
            registers,
            peripheral,
            enable,
        ),
        in_reset(reset_held(registers, peripheral, enable), peripheral) == enable,
        reset_held(reset_held(registers, peripheral, enable), peripheral, enable) == reset_held(
            registers,
            peripheral,
            enable,
        ),
{
    lemma_peripheral_round_trip(peripheral);
    let bit = peripheral.bit() as u8;
    lemma_with_bit(
        word_at(registers, SYSCTL_RCGC_BASE_OFFSET + peripheral.offset()),
        bit,
        enable,
        bit,
    );
    lemma_with_bit(word_at(registers, SYSCTL_SR_BASE_OFFSET + peripheral.offset()), bit, enable, bit);
    assert(clock_gated(clock_gated(registers, peripheral, enable), peripheral, enable)
        =~= clock_gated(registers, peripheral, enable));
    assert(reset_held(reset_held(registers, peripheral, enable), peripheral, enable)
        =~= reset_held(registers, peripheral, enable));
}

/// A request to let the clock of a peripheral run is answered with a
/// success and leaves the clock running, whether or not it ran before; so a
/// second such request is answered in the same way and changes nothing.
pub proof fn lemma_enable_clock_twice(registers: Seq<u32>, peripheral: Peripheral)
    requires
        registers.len() == SYSCTL_WORDS,
    ensures
        ({
            let message = SysconRequest::EnableClock(peripheral).encoded();
            let once = words_served(registers, message);
            let twice = words_served(once, message);
            &&& reply_to(message) == success_envelope(Seq::empty())
            &&& clock_enabled(once, peripheral)
            &&& twice == once
        }),
{
    lemma_decode_encode(SysconRequest::EnableClock(peripheral));
    lemma_effect_meaning(registers, peripheral, true);
    lemma_effect_meaning(clock_gated(registers, peripheral, true), peripheral, true);
    lemma_written_bit_stays(registers, peripheral, true);
}

/// Gating the clock of one peripheral, or holding or releasing its reset,
/// changes the clock, the reset and the readiness of no other peripheral,
/// and touches only the bank it is about.
pub proof fn lemma_other_bits_stay(
    registers: Seq<u32>,
    peripheral: Peripheral,
    enable: bool,
    other: Peripheral,
)
    requires
        registers.len() == SYSCTL_WORDS,
    ensures
        other != peripheral ==> clock_enabled(clock_gated(registers, peripheral, enable), other)
            == clock_enabled(registers, other),
        other != peripheral ==> in_reset(reset_held(registers, peripheral, enable), other)
            == in_reset(registers, other),
        in_reset(clock_gated(registers, peripheral, enable), other) == in_reset(registers, other),
        ready(clock_gated(registers, peripheral, enable), other) == ready(registers, other),
        clock_enabled(reset_held(registers, peripheral, enable), other) == clock_enabled(
            registers,
            other,
        ),
        ready(reset_held(registers, peripheral, enable), other) == ready(registers, other),
{
    lemma_peripheral_round_trip(peripheral);
    lemma_peripheral_round_trip(other);
    let bit = peripheral.bit() as u8;
    let other_bit = other.bit() as u8;
    lemma_with_bit(
        word_at(registers, SYSCTL_RCGC_BASE_OFFSET + peripheral.offset()),
        bit,
        enable,
        other_bit,
    );
    lemma_with_bit(
        word_at(registers, SYSCTL_SR_BASE_OFFSET + peripheral.offset()),
        bit,
        enable,
        other_bit,
    );
}

/// An envelope that holds no request is answered with the reason and
/// counted, and no write is made: unknown operation for a selector that
/// names none, bad size for a known selector with too few or too many bytes
/// after it and for an envelope without a selector. So an envelope without
/// bytes, and one that holds nothing but a selector that names no
/// operation, adds exactly one to the count. An envelope that holds a
/// request leaves the count as it was.
pub proof fn lemma_rejected(registers: Seq<u32>, rejected: u32, message: Seq<u8>)
    ensures
        SysconRequest::decoded(message) matches Err(error) ==> reply_to(message)
            == rejection_envelope(error) && words_served(registers, message) == registers
            && effect_for(message) is None && rejected_served(rejected, message) == bumped(
            rejected,
        ),
        bumped(rejected) != rejected,
        SysconRequest::decoded(message) is Ok <==> rejected_served(rejected, message) == rejected,
        message.len() > 0 && (message[0] < 1 || message[0] > 4) ==> SysconRequest::decoded(message)
            == Err::<SysconRequest, ClientError>(ClientError::UnknownOperation),
        message.len() == 0 || (1 <= message[0] <= 4 && message.len() != 5)
            ==> SysconRequest::decoded(message) == Err::<SysconRequest, ClientError>(
            ClientError::BadMessageSize,
        ),
{
}

} // verus!

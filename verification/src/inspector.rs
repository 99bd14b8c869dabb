//! The inspector: a task that answers diagnostic queries which arrive as
//! packets over the network.
//!
//! A request packet is a version tag and a query tag, one byte each. There
//! is one version, 0, and one query in it, 0, which asks for the registers
//! of the sequencer. A response packet is a version tag and an outcome tag,
//! one byte each, followed for a success by the registers as they were
//! read.
//!
//! The task itself is a cycle: take one packet, drop it if it holds no
//! request, read the registers, and hand the response to the network stack
//! until the stack has taken it. Where the stack has no packet, or no room
//! for the response, the task waits for a notification from it. The
//! network stack and the sequencer are other tasks; [`Inspector::step`]
//! takes what they answered and says what to ask next.

use vstd::prelude::*;
use crate::counter::{advanced, bump, bumped, lemma_advanced_step};
use crate::wire::append;

verus! {

/// The length of a request without its trailer.
pub const REQUEST_MAX_SIZE: usize = 2;

/// The most bytes that may follow a request in its packet.
pub const REQUEST_TRAILER: usize = 0;

/// The number of bytes of sequencer registers that a successful response
/// carries.
pub const SEQUENCER_REGISTERS: usize = 64;

/// The length of the longest response packet.
pub const ANY_RESPONSE_V0_MAX_SIZE: usize = 66;

/// A query of version 0.
#[derive(Copy, Clone, Debug, PartialEq, Eq, Structural)]
pub enum QueryV0 {
    /// Asks for the registers of the sequencer.
    SequencerRegisters,
}

/// A request, by version.
#[derive(Copy, Clone, Debug, PartialEq, Eq, Structural)]
pub enum Request {
    V0(QueryV0),
}

/// How a query for the sequencer registers ended.
#[derive(Copy, Clone, Debug, PartialEq, Eq, Structural)]
pub enum SequencerRegistersResponseV0 {
    /// The registers were read, and follow.
    Success,
    /// The sequencer task was restarted.
    SequencerTaskDead,
    /// The sequencer task could not read its registers.
    SequencerReadRegsFailed,
}

/// Why the sequencer did not hand out its registers.
#[derive(Copy, Clone, Debug, PartialEq, Eq, Structural)]
pub enum SeqError {
    /// The sequencer task was restarted.
    ServerRestarted,
    /// The sequencer task could not read its registers.
    ReadRegsFailed,
    /// Any other error of the sequencer, none of which a read of the
    /// registers is expected to give.
    Other,
}

/// Why the network stack handed out no packet.
#[derive(Copy, Clone, Debug, PartialEq, Eq, Structural)]
pub enum RecvError {
    /// No packet is waiting.
    QueueEmpty,
    /// The network task was restarted.
    ServerRestarted,
    /// The socket belongs to another task.
    NotYours,
    Other,
}

/// Why the network stack did not take a packet.
#[derive(Copy, Clone, Debug, PartialEq, Eq, Structural)]
pub enum SendError {
    /// The network task was restarted.
    ServerRestarted,
    /// The transmit queue has no room.
    QueueFull,
    /// The socket belongs to another task.
    NotYours,
    /// The packet names a VLAN that does not exist.
    InvalidVLan,
    Other,
}

/// Counts of what the task has seen since it started. Each starts at zero,
/// only ever goes up by one, and wraps around at the end of its range.
#[derive(Copy, Clone, Debug, PartialEq, Eq, Structural)]
pub struct Counters {
    /// Requests received: packets that held one.
    pub received: u32,
    /// Packets dropped because they held no request.
    pub rejected: u32,
    /// Responses that the network stack has taken.
    pub responses: u32,
}

/// Where the task stands in its cycle: what it has asked for last.
#[derive(Copy, Clone, Debug, PartialEq, Eq, Structural)]
pub enum Phase {
    /// It asked the network stack for a packet.
    Receive,
    /// No packet was waiting: it waits to be notified of one.
    Idle,
    /// It asked the sequencer for its registers.
    Query,
    /// It handed the response to the network stack.
    Send,
    /// The transmit queue was full: it waits to be notified of room.
    Blocked,
    /// The task is set up wrongly and has given up.
    Failed,
}

/// What the task has to do next.
#[derive(Copy, Clone, Debug, PartialEq, Eq, Structural)]
pub enum Action {
    /// Ask the network stack for a packet.
    Receive,
    /// Wait until the kernel posts a notification of the inspector's mask.
    Wait,
    /// Ask the sequencer for its registers.
    ReadRegisters,
    /// Hand the response that the inspector holds to the network stack.
    Send,
    /// Give up: the task is set up wrongly, and going on would not mend it.
    Abort,
}

/// What came back for the action that was asked for last.
#[derive(Debug, PartialEq, Eq)]
pub enum Event {
    /// The network stack handed out a packet, or none.
    Received(Result<Vec<u8>, RecvError>),
    /// The sequencer handed out its registers, or none.
    Registers(Result<[u8; SEQUENCER_REGISTERS], SeqError>),
    /// The network stack took the response, or did not.
    Sent(Result<(), SendError>),
    /// The wait ended, with these notification bits posted.
    Notified(u32),
}

/// The inspector task between two actions.
#[derive(Debug, PartialEq, Eq)]
pub struct Inspector {
    pub counters: Counters,
    pub phase: Phase,
    /// The notification bits on which the network stack reports a packet or
    /// room for one.
    pub mask: u32,
    /// The response to the request at hand, from the time the registers
    /// were read until the next ones are.
    pub response: Vec<u8>,
}

/// An [`Inspector`] as a value of specifications.
pub struct InspectorModel {
    pub counters: Counters,
    pub phase: Phase,
    pub mask: u32,
    pub response: Seq<u8>,
}

/// An [`Event`] as a value of specifications.
pub enum EventModel {
    Received(Result<Seq<u8>, RecvError>),
    Registers(Result<Seq<u8>, SeqError>),
    Sent(Result<(), SendError>),
    Notified(u32),
}

impl View for Inspector {
    type V = InspectorModel;

    open spec fn view(&self) -> InspectorModel {
        InspectorModel {
            counters: self.counters,
            phase: self.phase,
            mask: self.mask,
            response: self.response@,
        }
    }
}

impl View for Event {
    type V = EventModel;

    open spec fn view(&self) -> EventModel {
        match self {
            Event::Received(Ok(packet)) => EventModel::Received(Ok(packet@)),
            Event::Received(Err(error)) => EventModel::Received(Err(*error)),
            Event::Registers(Ok(registers)) => EventModel::Registers(Ok(registers@)),
            Event::Registers(Err(error)) => EventModel::Registers(Err(*error)),
            Event::Sent(outcome) => EventModel::Sent(*outcome),
            Event::Notified(bits) => EventModel::Notified(*bits),
        }
    }
}

impl SequencerRegistersResponseV0 {
    /// The outcome tag.
    pub open spec fn code(self) -> u8 {
        match self {
            SequencerRegistersResponseV0::Success => 0,
            SequencerRegistersResponseV0::SequencerTaskDead => 1,
            SequencerRegistersResponseV0::SequencerReadRegsFailed => 2,
        }
    }

    /// The outcome tag.
    pub fn to_u8(self) -> (tag: u8)
        ensures
            tag == self.code(),
    {
        match self {
            SequencerRegistersResponseV0::Success => 0,
            SequencerRegistersResponseV0::SequencerTaskDead => 1,
            SequencerRegistersResponseV0::SequencerReadRegsFailed => 2,
        }
    }
}

/// The request that `packet` holds: the one request there is, if the packet
/// starts with its two tags and is no longer than a request with its
/// trailer may be, and none otherwise.
pub open spec fn request_of(packet: Seq<u8>) -> Option<Request> {
    if 2 <= packet.len() <= REQUEST_MAX_SIZE + REQUEST_TRAILER && packet[0] == 0 && packet[1]
        == 0 {
        Some(Request::V0(QueryV0::SequencerRegisters))
    } else {
        None
    }
}

/// The outcome that a read of the sequencer registers stands for, and the
/// bytes that follow it in the response.
pub open spec fn outcome_of(registers: Result<Seq<u8>, SeqError>) -> (
    SequencerRegistersResponseV0,
    Seq<u8>,
) {
    match registers {
        Ok(bytes) => (SequencerRegistersResponseV0::Success, bytes),
        Err(SeqError::ServerRestarted) => (
            SequencerRegistersResponseV0::SequencerTaskDead,
            Seq::empty(),
        ),
        Err(_) => (SequencerRegistersResponseV0::SequencerReadRegsFailed, Seq::empty()),
    }
}

/// The response packet to a query for the sequencer registers.
pub open spec fn response_to(registers: Result<Seq<u8>, SeqError>) -> Seq<u8> {
    seq![0u8, outcome_of(registers).0.code()] + outcome_of(registers).1
}

/// Whether the notification bits `bits` end a wait on `mask`: whether one
/// of them is a bit of the mask.
pub open spec fn wakes(mask: u32, bits: u32) -> bool {
    bits & mask != 0
}

/// The action that a task in phase `phase` is waiting on.
pub open spec fn pending(phase: Phase) -> Action {
    match phase {
        Phase::Receive => Action::Receive,
        Phase::Idle => Action::Wait,
        Phase::Query => Action::ReadRegisters,
        Phase::Send => Action::Send,
        Phase::Blocked => Action::Wait,
        Phase::Failed => Action::Abort,
    }
}

/// The inspector after `event`.
///
/// A packet that holds no request counts as rejected and as nothing else,
/// and the task asks for the next packet. A packet that holds a request
/// counts as received; the task asks for the registers, makes the response
/// of them, and sends it.
/// A send that found the queue full is repeated after the notification, one
/// that found the network task restarted at once, each time with the same
/// response; the response counts when the stack has taken it. An empty
/// receive queue makes the task wait for the notification, a restarted
/// network task makes it ask again. Every other error of the network stack
/// means that the task is set up wrongly, and ends it. A wait ends with a
/// notification of the mask; any other notification changes nothing, and
/// the task goes on waiting. An event that does not answer the action the
/// task is waiting on changes nothing either.
pub open spec fn next(state: InspectorModel, event: EventModel) -> InspectorModel {
    match (state.phase, event) {
        (Phase::Receive, EventModel::Received(Ok(packet))) => if request_of(packet) is None {
            InspectorModel {
                counters: Counters {
                    rejected: bumped(state.counters.rejected),
                    ..state.counters
                },
                ..state
            }
        } else {
            InspectorModel {
                counters: Counters {
                    received: bumped(state.counters.received),
                    ..state.counters
                },
                phase: Phase::Query,
                ..state
            }
        },
        (Phase::Receive, EventModel::Received(Err(RecvError::QueueEmpty))) => InspectorModel {
            phase: Phase::Idle,
            ..state
        },
        (Phase::Receive, EventModel::Received(Err(RecvError::ServerRestarted))) => state,
        (Phase::Receive, EventModel::Received(Err(_))) => InspectorModel {
            phase: Phase::Failed,
            ..state
        },
        (Phase::Idle, EventModel::Notified(bits)) => if wakes(state.mask, bits) {
            InspectorModel { phase: Phase::Receive, ..state }
        } else {
            state
        },
        (Phase::Query, EventModel::Registers(registers)) => InspectorModel {
            phase: Phase::Send,
            response: response_to(registers),
            ..state
        },
        (Phase::Send, EventModel::Sent(Ok(()))) => InspectorModel {
            counters: Counters { responses: bumped(state.counters.responses), ..state.counters },
            phase: Phase::Receive,
            ..state
        },
        (Phase::Send, EventModel::Sent(Err(SendError::ServerRestarted))) => state,
        (Phase::Send, EventModel::Sent(Err(SendError::QueueFull))) => InspectorModel {
            phase: Phase::Blocked,
            ..state
        },
        (Phase::Send, EventModel::Sent(Err(_))) => InspectorModel { phase: Phase::Failed, ..state },
        (Phase::Blocked, EventModel::Notified(bits)) => if wakes(state.mask, bits) {
            InspectorModel { phase: Phase::Send, ..state }
        } else {
            state
        },
        _ => state,
    }
}

/// The outside type `hubpack::Error`, which says why a call of `hubpack`
/// failed. Nothing here depends on which error it is.
#[verifier::external_type_specification]
#[verifier::external_body]
pub struct ExHubpackError(hubpack::Error);

/// Calls `hubpack::deserialize` for a pair of bytes. `hubpack` reads a byte
/// as itself and a pair as its two parts one after the other, so the call
/// succeeds exactly if `data` holds two bytes or more, and gives the first
/// two.
#[verifier::external_body]
fn deserialize_tags(data: &[u8]) -> (tags: Result<(u8, u8), hubpack::Error>)
    ensures
        tags is Ok <==> data@.len() >= 2,
        tags matches Ok(pair) ==> pair.0 == data@[0] && pair.1 == data@[1],
{
    match hubpack::deserialize::<(u8, u8)>(data) {
        Ok((tags, _rest)) => Ok(tags),
        Err(error) => Err(error),
    }
}

/// Calls `hubpack::serialize` for a pair of bytes. `hubpack` writes a byte
/// as itself and a pair as its two parts one after the other, from the
/// start of the buffer, so the call succeeds exactly if `buffer` holds two
/// bytes or more, overwrites the first two, and returns 2. A buffer that is
/// too short keeps its length; what it then holds is left open.
#[verifier::external_body]
fn serialize_tags(buffer: &mut Vec<u8>, tags: (u8, u8)) -> (written: Result<usize, hubpack::Error>)
    ensures
        final(buffer)@.len() == old(buffer)@.len(),
        written is Ok <==> old(buffer)@.len() >= 2,
        written matches Ok(count) ==> count == 2 && final(buffer)@ == old(buffer)@.update(
            0,
            tags.0,
        ).update(1, tags.1),
{
    hubpack::serialize(buffer.as_mut_slice(), &tags)
}

/// Reads the request that a packet holds, if it holds one.
pub fn decode_request(packet: &[u8]) -> (request: Option<Request>)
    ensures
        request == request_of(packet@),
{
    if packet.len() > REQUEST_MAX_SIZE + REQUEST_TRAILER {
        return None;
    }
    match deserialize_tags(packet) {
        Ok((0, 0)) => Some(Request::V0(QueryV0::SequencerRegisters)),
        _ => None,
    }
}

/// Writes the response packet to a query for the sequencer registers.
pub fn encode_response(registers: &Result<[u8; SEQUENCER_REGISTERS], SeqError>) -> (packet: Vec<u8>)
    ensures
        packet@ == response_to(
            match registers {
                Ok(bytes) => Ok(bytes@),
                Err(error) => Err(*error),
            },
        ),
        2 <= packet@.len() <= ANY_RESPONSE_V0_MAX_SIZE,
{
    let response = match registers {
        Ok(_) => SequencerRegistersResponseV0::Success,
        Err(SeqError::ServerRestarted) => SequencerRegistersResponseV0::SequencerTaskDead,
        Err(_) => SequencerRegistersResponseV0::SequencerReadRegsFailed,
    };
    // Room for the two tags, so that writing them cannot fail.
    let mut packet: Vec<u8> = Vec::new();
    packet.push(0);
    packet.push(0);
    let len = serialize_tags(&mut packet, (0, response.to_u8())).unwrap();
    packet.truncate(len);
    match registers {
        Ok(bytes) => {
            append(&mut packet, bytes.as_slice());
        },
        Err(_) => {},
    }
    assert(packet@ =~= response_to(
        match registers {
            Ok(bytes) => Ok(bytes@),
            Err(error) => Err(*error),
        },
    ));
    packet
}

impl Inspector {
    /// The inspector as the task starts: nothing counted, about to ask for
    /// the first packet. `mask` holds the notification bits on which the
    /// network stack reports a packet or room for one.
    pub fn new(mask: u32) -> (inspector: Inspector)
        ensures
            inspector@ == (InspectorModel {
                counters: Counters { received: 0, rejected: 0, responses: 0 },
                phase: Phase::Receive,
                mask,
                response: Seq::empty(),
            }),
    {
        Inspector {
            counters: Counters { received: 0, rejected: 0, responses: 0 },
            phase: Phase::Receive,
            mask,
            response: Vec::new(),
        }
    }

    /// The action that the task is waiting on.
    pub fn action(&self) -> (action: Action)
        ensures
            action == pending(self.phase),
    {
        match self.phase {
            Phase::Receive => Action::Receive,
            Phase::Idle => Action::Wait,
            Phase::Query => Action::ReadRegisters,
            Phase::Send => Action::Send,
            Phase::Blocked => Action::Wait,
            Phase::Failed => Action::Abort,
        }
    }

    /// Takes what came back for the last action, and says what to do next.
    pub fn step(&mut self, event: Event) -> (action: Action)
        ensures
            final(self)@ == next(old(self)@, event@),
            action == pending(final(self).phase),
    {
        match (self.phase, event) {
            (Phase::Receive, Event::Received(Ok(packet))) => {
                match decode_request(packet.as_slice()) {
                    Some(Request::V0(QueryV0::SequencerRegisters)) => {
                        self.counters.received = bump(self.counters.received);
                        self.phase = Phase::Query;
                    },
                    None => {
                        // Malformed and truncated packets are dropped.
                        self.counters.rejected = bump(self.counters.rejected);
                    },
                }
            },
            (Phase::Receive, Event::Received(Err(RecvError::QueueEmpty))) => {
                // The queue is empty: wait for more packets.
                self.phase = Phase::Idle;
            },
            (Phase::Receive, Event::Received(Err(RecvError::ServerRestarted))) => {
                // The network task restarted: ask again.
            },
            (Phase::Receive, Event::Received(Err(_))) => {
                self.phase = Phase::Failed;
            },
            (Phase::Idle, Event::Notified(bits)) => {
                if bits & self.mask != 0 {
                    self.phase = Phase::Receive;
                }
            },
            (Phase::Query, Event::Registers(registers)) => {
                self.response = encode_response(&registers);
                self.phase = Phase::Send;
            },
            (Phase::Send, Event::Sent(Ok(()))) => {
                self.counters.responses = bump(self.counters.responses);
                self.phase = Phase::Receive;
            },
            (Phase::Send, Event::Sent(Err(SendError::ServerRestarted))) => {
                // The network task restarted: send again at once.
            },
            (Phase::Send, Event::Sent(Err(SendError::QueueFull))) => {
                // The transmit queue is full: wait for room. The
                // notification is the one that announces incoming packets
                // too, so the wait may end with the queue still full; the
                // send then fails again and the task waits again.
                self.phase = Phase::Blocked;
            },
            (Phase::Send, Event::Sent(Err(_))) => {
                self.phase = Phase::Failed;
            },
            (Phase::Blocked, Event::Notified(bits)) => {
                if bits & self.mask != 0 {
                    self.phase = Phase::Send;
                }
            },
            _ => {},
        }
        self.action()
    }
}

/// The inspector after `events`, one after the other.
pub open spec fn run(state: InspectorModel, events: Seq<EventModel>) -> InspectorModel
    decreases events.len(),
{
    if events.len() == 0 {
        state
    } else {
        run(next(state, events[0]), events.drop_first())
    }
}

/// The events of a row of sends that the stack did not take. An entry of
/// `attempts` that is `Some(bits)` stands for a send that found the queue
/// full and the notification, with these bits, that followed; one that is
/// `None` for a send that found the network task restarted.
pub open spec fn failed_sends(attempts: Seq<Option<u32>>) -> Seq<EventModel>
    decreases attempts.len(),
{
    if attempts.len() == 0 {
        Seq::empty()
    } else {
        (match attempts[0] {
            Some(bits) => seq![
                EventModel::Sent(Err(SendError::QueueFull)),
                EventModel::Notified(bits),
            ],
            None => seq![EventModel::Sent(Err(SendError::ServerRestarted))],
        }) + failed_sends(attempts.drop_first())
    }
}

/// Whether each notification of `attempts` ends a wait on `mask`.
pub open spec fn all_wake(mask: u32, attempts: Seq<Option<u32>>) -> bool {
    forall|i: int|
        0 <= i < attempts.len() ==> (#[trigger] attempts[i] matches Some(bits) ==> wakes(
            mask,
            bits,
        ))
}

/// One request from its packet to the send that the stack took.
pub struct Exchange {
    /// The packet.
    pub packet: Seq<u8>,
    /// What the sequencer answered.
    pub registers: Result<Seq<u8>, SeqError>,
    /// The sends that the stack did not take, as for [`failed_sends`].
    pub attempts: Seq<Option<u32>>,
}

/// The events of one exchange: the packet, the registers, the sends that
/// failed, and the send that the stack took.
pub open spec fn exchange_events(exchange: Exchange) -> Seq<EventModel> {
    seq![EventModel::Received(Ok(exchange.packet)), EventModel::Registers(exchange.registers)]
        + failed_sends(exchange.attempts) + seq![EventModel::Sent(Ok(()))]
}

/// The events of a row of exchanges.
pub open spec fn exchanges_events(exchanges: Seq<Exchange>) -> Seq<EventModel>
    decreases exchanges.len(),
{
    if exchanges.len() == 0 {
        Seq::empty()
    } else {
        exchange_events(exchanges[0]) + exchanges_events(exchanges.drop_first())
    }
}

/// A packet that holds no request adds one to the count of rejected
/// packets and changes nothing else: no other count moves, the response at
/// hand stays, and the task asks for the next packet. A packet without
/// bytes holds no request, nor does a packet of one byte, nor one whose
/// version or query tag is not 0.
pub proof fn lemma_malformed_is_rejected(state: InspectorModel, packet: Seq<u8>)
    requires
        state.phase == Phase::Receive,
        request_of(packet) is None,
    ensures
        next(state, EventModel::Received(Ok(packet))) == (InspectorModel {
            counters: Counters { rejected: bumped(state.counters.rejected), ..state.counters },
            ..state
        }),
        bumped(state.counters.rejected) != state.counters.rejected,
        forall|bytes: Seq<u8>|
            bytes.len() < 2 || bytes[0] != 0 || bytes[1] != 0 ==> #[trigger] request_of(bytes)
                is None,
{
}

/// Running two rows of events one after the other is running them as one
/// row.
pub proof fn lemma_run_concat(state: InspectorModel, first: Seq<EventModel>, second: Seq<EventModel>)
    ensures
        run(state, first + second) == run(run(state, first), second),
    decreases first.len(),
{
    if first.len() == 0 {
        assert(first + second =~= second);
    } else {
        assert((first + second).drop_first() =~= first.drop_first() + second);
        lemma_run_concat(next(state, first[0]), first.drop_first(), second);
    }
}

/// Sends that the stack does not take change nothing: after any row of
/// them the task is about to send the same response again, and has counted
/// none.
pub proof fn lemma_failed_sends_keep(state: InspectorModel, attempts: Seq<Option<u32>>)
    requires
        state.phase == Phase::Send,
        all_wake(state.mask, attempts),
    ensures
        run(state, failed_sends(attempts)) == state,
    decreases attempts.len(),
{
    if attempts.len() > 0 {
        let rest = attempts.drop_first();
        let head = match attempts[0] {
            Some(bits) => seq![
                EventModel::Sent(Err(SendError::QueueFull)),
                EventModel::Notified(bits),
            ],
            None => seq![EventModel::Sent(Err(SendError::ServerRestarted))],
        };
        lemma_run_concat(state, head, failed_sends(rest));
        assert(run(state, head) == state) by {
            reveal_with_fuel(run, 3);
        }
        assert forall|i: int| 0 <= i < rest.len() implies (#[trigger] rest[i] matches Some(bits)
            ==> wakes(state.mask, bits)) by {
            assert(rest[i] == attempts[i + 1]);
        }
        lemma_failed_sends_keep(state, rest);
    }
}

/// A notification that is none of the mask ends no wait: the task stays as
/// it is and goes on waiting.
pub proof fn lemma_other_notification_is_ignored(state: InspectorModel, bits: u32)
    requires
        !wakes(state.mask, bits),
    ensures
        next(state, EventModel::Notified(bits)) == state,
{
}

/// One exchange counts one request and one response, however many sends
/// failed on the way, and leaves the task about to ask for the next packet.
/// The response that went out is the one made of the registers.
pub proof fn lemma_exchange(state: InspectorModel, exchange: Exchange)
    requires
        state.phase == Phase::Receive,
        request_of(exchange.packet) is Some,
        all_wake(state.mask, exchange.attempts),
    ensures
        run(state, exchange_events(exchange)) == (InspectorModel {
            counters: Counters {
                received: bumped(state.counters.received),
                rejected: state.counters.rejected,
                responses: bumped(state.counters.responses),
            },
            phase: Phase::Receive,
            mask: state.mask,
            response: response_to(exchange.registers),
        }),
{
    let head = seq![
        EventModel::Received(Ok(exchange.packet)),
        EventModel::Registers(exchange.registers),
    ];
    let retries = failed_sends(exchange.attempts);
    let last = seq![EventModel::Sent(Ok(()))];
    let sending = InspectorModel {
        counters: Counters { received: bumped(state.counters.received), ..state.counters },
        phase: Phase::Send,
        mask: state.mask,
        response: response_to(exchange.registers),
    };
    assert(run(state, head) == sending) by {
        reveal_with_fuel(run, 3);
    }
    lemma_failed_sends_keep(sending, exchange.attempts);
    lemma_run_concat(state, head, retries);
    lemma_run_concat(state, head + retries, last);
    assert(run(sending, last) == next(sending, last[0])) by {
        reveal_with_fuel(run, 2);
    }
}

/// A row of exchanges counts as many responses as it has exchanges, and as
/// many requests: none is dropped and none is counted twice, whichever of
/// the sends found the queue full or the network task restarted.
pub proof fn lemma_exchanges(state: InspectorModel, exchanges: Seq<Exchange>)
    requires
        state.phase == Phase::Receive,
        forall|i: int|
            0 <= i < exchanges.len() ==> request_of((#[trigger] exchanges[i]).packet) is Some
                && all_wake(state.mask, exchanges[i].attempts),
    ensures
        run(state, exchanges_events(exchanges)).counters == (Counters {
            received: advanced(state.counters.received, exchanges.len()),
            rejected: state.counters.rejected,
            responses: advanced(state.counters.responses, exchanges.len()),
        }),
        run(state, exchanges_events(exchanges)).phase == Phase::Receive,
        run(state, exchanges_events(exchanges)).mask == state.mask,
    decreases exchanges.len(),
{
    if exchanges.len() > 0 {
        let first = exchanges[0];
        let rest = exchanges.drop_first();
        lemma_exchange(state, first);
        lemma_run_concat(state, exchange_events(first), exchanges_events(rest));
        let middle = run(state, exchange_events(first));
        assert forall|i: int| 0 <= i < rest.len() implies request_of((#[trigger] rest[i]).packet)
            is Some && all_wake(middle.mask, rest[i].attempts) by {
            assert(rest[i] == exchanges[i + 1]);
        }
        lemma_exchanges(middle, rest);
        lemma_advanced_step(state.counters.received, rest.len());
        lemma_advanced_step(state.counters.responses, rest.len());
    }
}

} // verus!

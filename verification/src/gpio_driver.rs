//! The pin controller task: the six GPIO ports, the handlers of the four
//! operations, and the step that serves one request envelope.

use vstd::prelude::*;
use crate::attributes::{unpacked, Value};
use crate::call::{resolved, AnswerModel, Call, CallModel, ProgressModel};
use crate::counter::{bump, bumped};
use crate::gpio_api::{level_of, lemma_decode_encode, request_call, GpioRequest, REPLY_SIZE};
use crate::gpio_registers::{
    applied_all,
    configure_writes,
    configured,
    driven,
    inverted,
    lemma_configure_writes,
    lemma_data_writes,
    lemma_level_after,
    level,
    set_writes,
    toggle_writes,
    toggled,
    AnyGpioPeriph,
    RegisterBlock,
    RegisterWrite,
};
use crate::peripheral::Peripheral;
use crate::pin::Pin;
use crate::syscon_api::{Syscon, SysconRequest};
use crate::task::TaskHandle;
use crate::wire::{
    encode_rejection,
    encode_success,
    lemma_response_round_trip,
    rejection_envelope,
    success_envelope,
    CallError,
    ClientError,
};

verus! {

/// The peripheral that stands for port `port` at the system controller.
pub open spec fn port_peripheral(port: int) -> Peripheral {
    if port == 0 {
        Peripheral::GpioA
    } else if port == 1 {
        Peripheral::GpioB
    } else if port == 2 {
        Peripheral::GpioC
    } else if port == 3 {
        Peripheral::GpioD
    } else if port == 4 {
        Peripheral::GpioE
    } else {
        Peripheral::GpioF
    }
}

/// The calls that bring the six ports up, in the order in which they are to
/// be made: for each port from A to F, first the call that lets its clock
/// run, then the call that releases it from reset.
pub open spec fn clock_calls(handle: TaskHandle) -> Seq<CallModel> {
    Seq::new(
        12,
        |i: int|
            if i % 2 == 0 {
                crate::syscon_api::request_call(
                    handle,
                    SysconRequest::EnableClock(port_peripheral(i / 2)),
                )
            } else {
                crate::syscon_api::request_call(
                    handle,
                    SysconRequest::LeaveReset(port_peripheral(i / 2)),
                )
            },
    )
}

/// The calls to the system controller that the pin controller makes before
/// it serves its first request.
pub fn turn_on_gpio_clocks(syscon: &Syscon) -> (calls: Vec<Call>)
    ensures
        calls@.map_values(|call: Call| call@) == clock_calls(syscon.handle),
{
    let mut calls: Vec<Call> = Vec::new();

    calls.push(syscon.enable_clock(Peripheral::GpioA));
    calls.push(syscon.leave_reset(Peripheral::GpioA));

    calls.push(syscon.enable_clock(Peripheral::GpioB));
    calls.push(syscon.leave_reset(Peripheral::GpioB));

    calls.push(syscon.enable_clock(Peripheral::GpioC));
    calls.push(syscon.leave_reset(Peripheral::GpioC));

    calls.push(syscon.enable_clock(Peripheral::GpioD));
    calls.push(syscon.leave_reset(Peripheral::GpioD));

    calls.push(syscon.enable_clock(Peripheral::GpioE));
    calls.push(syscon.leave_reset(Peripheral::GpioE));

    calls.push(syscon.enable_clock(Peripheral::GpioF));
    calls.push(syscon.leave_reset(Peripheral::GpioF));

    assert(calls@.map_values(|call: Call| call@) =~= clock_calls(syscon.handle));
    calls
}

/// The state of the pin controller task.
#[derive(Copy, Clone, Debug, PartialEq, Eq)]
pub struct ServerImpl {
    /// The registers of ports A to F.
    pub ports: [RegisterBlock; 6],
    /// The number of envelopes that were turned down since the task
    /// started. It wraps around at the end of its range.
    pub rejected: u32,
}

/// What serving one request envelope leaves behind, besides the registers.
#[derive(Debug, PartialEq, Eq)]
pub struct Served {
    /// The response envelope.
    pub reply: Vec<u8>,
    /// The port that the request worked on: 0 for port A, up to 5 for port
    /// F. `None` if the envelope held no request.
    pub port: Option<u8>,
    /// The writes that were made to the registers of that port, first to
    /// last.
    pub writes: Vec<RegisterWrite>,
}

/// The registers of port `port`: 0 is port A, 5 is port F.
pub fn get_gpio_regs(ports: &mut [RegisterBlock; 6], port: u8) -> (regs: &mut RegisterBlock)
    requires
        port < 6,
    ensures
        *regs == old(ports)@[port as int],
        final(ports)@ == old(ports)@.update(port as int, *final(regs)),
{
    &mut ports[port as usize]
}

/// The pin that a request names.
pub open spec fn pin_of(request: GpioRequest) -> Pin {
    match request {
        GpioRequest::Configure { pin, .. } => pin,
        GpioRequest::SetVal { pin, .. } => pin,
        GpioRequest::ReadVal { pin } => pin,
        GpioRequest::Toggle { pin } => pin,
    }
}

/// The writes by which `request` is carried out, first to last, on the
/// registers of the port of its pin. A read makes none.
pub open spec fn request_writes(request: GpioRequest) -> Seq<RegisterWrite> {
    match request {
        GpioRequest::Configure { pin, packed_attributes } => configure_writes(
            pin.number() as u8,
            unpacked(packed_attributes as int)->0,
        ),
        GpioRequest::SetVal { pin, value } => set_writes(pin.number() as u8, value),
        GpioRequest::ReadVal { .. } => Seq::empty(),
        GpioRequest::Toggle { pin } => toggle_writes(pin.number() as u8),
    }
}

/// The ports after `request` has been carried out: the port of its pin
/// after the writes of the request, the others as they were.
pub open spec fn ports_after(ports: Seq<RegisterBlock>, request: GpioRequest) -> Seq<
    RegisterBlock,
> {
    ports.update(
        pin_of(request).port(),
        applied_all(ports[pin_of(request).port()], request_writes(request)),
    )
}

/// The result of `request` that goes back to the client: for a read the
/// level of the pin, as one byte, and nothing for the others.
pub open spec fn request_result(ports: Seq<RegisterBlock>, request: GpioRequest) -> Seq<u8> {
    match request {
        GpioRequest::ReadVal { pin } => seq![
            level(ports[pin.port()], pin.number() as u8).code() as u8,
        ],
        _ => Seq::empty(),
    }
}

/// The ports after the request envelope `message` has been served. An
/// envelope that holds no request leaves them as they are.
pub open spec fn ports_served(ports: Seq<RegisterBlock>, message: Seq<u8>) -> Seq<RegisterBlock> {
    match GpioRequest::decoded(message) {
        Ok(request) => ports_after(ports, request),
        Err(_) => ports,
    }
}

/// The response envelope to the request envelope `message`: a success with
/// the result of the request that it holds, or the reason why it is turned
/// down.
pub open spec fn reply_to(ports: Seq<RegisterBlock>, message: Seq<u8>) -> Seq<u8> {
    match GpioRequest::decoded(message) {
        Ok(request) => success_envelope(request_result(ports, request)),
        Err(error) => rejection_envelope(error),
    }
}

/// The writes that serving the request envelope `message` makes. An
/// envelope that holds no request makes none.
pub open spec fn writes_for(message: Seq<u8>) -> Seq<RegisterWrite> {
    match GpioRequest::decoded(message) {
        Ok(request) => request_writes(request),
        Err(_) => Seq::empty(),
    }
}

/// The count of envelopes turned down after the request envelope
/// `message` has been served: one more if it holds no request, and as
/// before if it holds one.
pub open spec fn rejected_served(rejected: u32, message: Seq<u8>) -> u32 {
    match GpioRequest::decoded(message) {
        Ok(_) => rejected,
        Err(_) => bumped(rejected),
    }
}

/// The port that serving the request envelope `message` works on, if it
/// holds a request.
pub open spec fn port_for(message: Seq<u8>) -> Option<u8> {
    match GpioRequest::decoded(message) {
        Ok(request) => Some(pin_of(request).port() as u8),
        Err(_) => None,
    }
}

impl ServerImpl {
    /// A pin controller whose ports are all as they come out of reset, and
    /// which has turned nothing down yet.
    pub fn new() -> (server: ServerImpl)
        ensures
            server.ports@ == Seq::new(6, |i: int| RegisterBlock::zeroed()),
            server.rejected == 0,
    {
        let server = ServerImpl { ports: [RegisterBlock::new();6], rejected: 0 };
        assert(server.ports@ =~= Seq::new(6, |i: int| RegisterBlock::zeroed()));
        server
    }

    /// Gives `pin` the configuration that `packed_attributes` stands for.
    /// Returns the writes that were made.
    pub fn gpio_configure_raw(&mut self, pin: Pin, packed_attributes: u16) -> (done: Result<
        Vec<RegisterWrite>,
        ClientError,
    >)
        requires
            unpacked(packed_attributes as int) is Some,
        ensures
            done matches Ok(writes) && writes@ == request_writes(
                GpioRequest::Configure { pin, packed_attributes },
            ),
            final(self).ports@ == ports_after(
                old(self).ports@,
                GpioRequest::Configure { pin, packed_attributes },
            ),
            final(self).rejected == old(self).rejected,
    {
        let (port, pin) = pin.unpack();
        Ok(get_gpio_regs(&mut self.ports, port).configure(pin, packed_attributes))
    }

    /// Drives `pin` to `value`. Returns the writes that were made.
    pub fn set_val(&mut self, pin: Pin, value: Value) -> (done: Result<
        Vec<RegisterWrite>,
        ClientError,
    >)
        ensures
            done matches Ok(writes) && writes@ == request_writes(
                GpioRequest::SetVal { pin, value },
            ),
            final(self).ports@ == ports_after(old(self).ports@, GpioRequest::SetVal { pin, value }),
            final(self).rejected == old(self).rejected,
    {
        let (port, pin) = pin.unpack();
        Ok(get_gpio_regs(&mut self.ports, port).set(pin, value))
    }

    /// Reads the level of `pin`.
    pub fn read_val(&mut self, pin: Pin) -> (value: Result<Value, ClientError>)
        ensures
            value == Ok::<Value, ClientError>(
                level(old(self).ports@[pin.port()], pin.number() as u8),
            ),
            final(self).ports@ == old(self).ports@,
            final(self).rejected == old(self).rejected,
    {
        let (port, pin) = pin.unpack();
        Ok(get_gpio_regs(&mut self.ports, port).read(pin))
    }

    /// Inverts the level of `pin`. Returns the writes that were made.
    pub fn toggle(&mut self, pin: Pin) -> (done: Result<Vec<RegisterWrite>, ClientError>)
        ensures
            done matches Ok(writes) && writes@ == request_writes(GpioRequest::Toggle { pin }),
            final(self).ports@ == ports_after(old(self).ports@, GpioRequest::Toggle { pin }),
            final(self).rejected == old(self).rejected,
    {
        let (port, pin) = pin.unpack();
        Ok(get_gpio_regs(&mut self.ports, port).toggle(pin))
    }

    /// Turns an envelope down for `error`: counts it, and makes no write.
    fn reject(&mut self, error: ClientError) -> (served: Served)
        ensures
            final(self).ports@ == old(self).ports@,
            final(self).rejected == bumped(old(self).rejected),
            served.reply@ == rejection_envelope(error),
            served.port is None,
            served.writes@ == Seq::<RegisterWrite>::empty(),
    {
        self.rejected = bump(self.rejected);
        Served { reply: encode_rejection(error), port: None, writes: Vec::new() }
    }

    /// Serves one request envelope: reads it, carries the request out if it
    /// holds one, and writes the response envelope. An envelope that is
    /// turned down is counted and makes no write.
    pub fn dispatch(&mut self, message: &[u8]) -> (served: Served)
        ensures
            final(self).ports@ == ports_served(old(self).ports@, message@),
            final(self).rejected == rejected_served(old(self).rejected, message@),
            served.reply@ == reply_to(old(self).ports@, message@),
            served.port == port_for(message@),
            served.writes@ == writes_for(message@),
            1 <= served.reply@.len() <= REPLY_SIZE,
    {
        let request = match GpioRequest::decode(message) {
            Ok(request) => request,
            Err(error) => {
                return self.reject(error);
            },
        };
        let mut payload: Vec<u8> = Vec::new();
        let (port, handled) = match request {
            GpioRequest::Configure { pin, packed_attributes } => (
                pin.unpack().0,
                self.gpio_configure_raw(pin, packed_attributes),
            ),
            GpioRequest::SetVal { pin, value } => (pin.unpack().0, self.set_val(pin, value)),
            GpioRequest::ReadVal { pin } => (
                pin.unpack().0,
                match self.read_val(pin) {
                    Ok(value) => {
                        payload.push(value.to_u8());
                        Ok(Vec::new())
                    },
                    Err(error) => Err(error),
                },
            ),
            GpioRequest::Toggle { pin } => (pin.unpack().0, self.toggle(pin)),
        };
        match handled {
            Ok(writes) => {
                assert(payload@ =~= request_result(old(self).ports@, request));
                assert(request is ReadVal ==> ports_after(old(self).ports@, request)
                    =~= old(self).ports@);
                Served { reply: encode_success(payload.as_slice()), port: Some(port), writes }
            },
            Err(error) => self.reject(error),
        }
    }

    /// Serves the request envelope that the kernel delivered into `buffer`.
    /// The kernel cuts an envelope that is longer than the buffer down to
    /// the buffer and reports the length it had, `message_len`. Such an
    /// envelope is turned down for its size and counted, whatever the part
    /// that arrived holds.
    pub fn dispatch_buffer(&mut self, buffer: &[u8], message_len: usize) -> (served: Served)
        ensures
            message_len <= buffer@.len() ==> {
                &&& final(self).ports@ == ports_served(
                    old(self).ports@,
                    buffer@.subrange(0, message_len as int),
                )
                &&& served.reply@ == reply_to(
                    old(self).ports@,
                    buffer@.subrange(0, message_len as int),
                )
                &&& final(self).rejected == rejected_served(
                    old(self).rejected,
                    buffer@.subrange(0, message_len as int),
                )
                &&& served.port == port_for(buffer@.subrange(0, message_len as int))
                &&& served.writes@ == writes_for(buffer@.subrange(0, message_len as int))
            },
            message_len > buffer@.len() ==> {
                &&& final(self).ports@ == old(self).ports@
                &&& final(self).rejected == bumped(old(self).rejected)
                &&& served.reply@ == rejection_envelope(ClientError::BadMessageSize)
                &&& served.port is None
                &&& served.writes@ == Seq::<RegisterWrite>::empty()
            },
    {
        if message_len > buffer.len() {
            return self.reject(ClientError::BadMessageSize);
        }
        self.dispatch(&buffer[0..message_len])
    }
}

/// The length of the arguments of the operation with selector `selector`.
pub open spec fn arguments_len(selector: int) -> int {
    if selector == 1 {
        3
    } else if selector == 2 {
        2
    } else {
        1
    }
}

/// An envelope whose selector names no operation is answered with
/// [`ClientError::UnknownOperation`] and counted. No write is made and no
/// register changes.
pub proof fn lemma_unknown_operation(ports: Seq<RegisterBlock>, rejected: u32, message: Seq<u8>)
    requires
        message.len() > 0,
        message[0] < 1 || message[0] > 4,
    ensures
        reply_to(ports, message) == rejection_envelope(ClientError::UnknownOperation),
        writes_for(message) == Seq::<RegisterWrite>::empty(),
        ports_served(ports, message) == ports,
        port_for(message) is None,
        rejected_served(rejected, message) == bumped(rejected),
{
}

/// An envelope with the selector of an operation and too few or too many
/// bytes for its arguments is answered with [`ClientError::BadMessageSize`]
/// and counted, and so is an envelope without a selector. No write is made
/// and no register changes.
pub proof fn lemma_bad_length(ports: Seq<RegisterBlock>, rejected: u32, message: Seq<u8>)
    requires
        message.len() == 0 || (1 <= message[0] <= 4 && message.len() != 1 + arguments_len(
            message[0] as int,
        )),
    ensures
        reply_to(ports, message) == rejection_envelope(ClientError::BadMessageSize),
        writes_for(message) == Seq::<RegisterWrite>::empty(),
        ports_served(ports, message) == ports,
        port_for(message) is None,
        rejected_served(rejected, message) == bumped(rejected),
{
}

/// An envelope without bytes, and one that holds nothing but a selector
/// that names no operation, adds exactly one to the count of envelopes
/// turned down. No write is made and no register changes. An envelope that
/// holds a request leaves the count as it was.
pub proof fn lemma_malformed_is_counted(ports: Seq<RegisterBlock>, rejected: u32, message: Seq<u8>)
    ensures
        message.len() == 0 || (message.len() == 1 && (message[0] < 1 || message[0] > 4))
            ==> rejected_served(rejected, message) == bumped(rejected) && ports_served(
            ports,
            message,
        ) == ports && writes_for(message) == Seq::<RegisterWrite>::empty(),
        bumped(rejected) != rejected,
        GpioRequest::decoded(message) is Ok <==> rejected_served(rejected, message) == rejected,
{
}

/// Whatever the envelope, a request that is turned down makes no write and
/// changes no register, and a request that is carried out changes no port
/// but the one of its pin.
pub proof fn lemma_served_ports(ports: Seq<RegisterBlock>, message: Seq<u8>)
    requires
        ports.len() == 6,
    ensures
        ports_served(ports, message).len() == 6,
        GpioRequest::decoded(message) is Err ==> ports_served(ports, message) == ports
            && writes_for(message) == Seq::<RegisterWrite>::empty(),
        forall|port: int|
            0 <= port < 6 && port_for(message) != Some(port as u8) ==> #[trigger] ports_served(
                ports,
                message,
            )[port] == ports[port],
{
}

/// What carrying a request out means for the port of its pin: after a
/// configure the registers that the configuration describes, after a set
/// the pin at the level asked for, after a toggle the pin inverted, and
/// after a read the registers as they were.
pub proof fn lemma_ports_after(ports: Seq<RegisterBlock>, request: GpioRequest)
    requires
        ports.len() == 6,
        request.well_formed(),
    ensures
        ports_after(ports, request)[pin_of(request).port()] == (match request {
            GpioRequest::Configure { pin, packed_attributes } => configured(
                ports[pin.port()],
                pin.number() as u8,
                unpacked(packed_attributes as int)->0,
            ),
            GpioRequest::SetVal { pin, value } => driven(
                ports[pin.port()],
                pin.number() as u8,
                value,
            ),
            GpioRequest::ReadVal { pin } => ports[pin.port()],
            GpioRequest::Toggle { pin } => toggled(ports[pin.port()], pin.number() as u8),
        }),
{
    let pin = pin_of(request);
    let number = pin.number() as u8;
    lemma_data_writes(ports[pin.port()], number, Value::One);
    lemma_data_writes(ports[pin.port()], number, Value::Zero);
    match request {
        GpioRequest::Configure { pin, packed_attributes } => {
            lemma_configure_writes(
                ports[pin.port()],
                number,
                unpacked(packed_attributes as int)->0,
            );
        },
        _ => {},
    }
}

/// A request that can be carried out, made by a client and served by the
/// pin controller, ends at the client with the result of the operation: for
/// a read, the level of the pin. A request that was first sent to a server
/// that has since been restarted, and may be repeated, goes to the new
/// generation as it is, and so ends in the same way.
pub proof fn lemma_call_is_answered(
    ports: Seq<RegisterBlock>,
    handle: TaskHandle,
    request: GpioRequest,
    generation: u8,
)
    requires
        ports.len() == 6,
        request.well_formed(),
    ensures
        ports_served(ports, request_call(handle, request).envelope) == ports_after(ports, request),
        writes_for(request_call(handle, request).envelope) == request_writes(request),
        forall|rejected: u32|
            #[trigger] rejected_served(rejected, request_call(handle, request).envelope)
                == rejected,
        resolved(
            request_call(handle, request),
            AnswerModel::Reply(reply_to(ports, request_call(handle, request).envelope)),
        ) == ProgressModel::Done(Ok(request_result(ports, request))),
        request.idempotent() ==> resolved(
            request_call(handle, request),
            AnswerModel::PeerRestarted(generation),
        ) == ProgressModel::Resend(
            request_call(TaskHandle { index: handle.index, generation }, request),
        ),
        request matches GpioRequest::ReadVal { pin } ==> level_of(request_result(ports, request))
            == Ok::<Value, CallError>(level(ports[pin.port()], pin.number() as u8)),
{
    lemma_decode_encode(request);
    lemma_response_round_trip(request_result(ports, request), ClientError::UnknownOperation);
}

/// A pin that was driven to a level reads back that level, and after a
/// toggle the other one, whatever the ports held before and however the pin
/// was configured in between.
pub proof fn lemma_set_toggle_read(
    ports: Seq<RegisterBlock>,
    pin: Pin,
    value: Value,
    packed_attributes: u16,
)
    requires
        ports.len() == 6,
        unpacked(packed_attributes as int) is Some,
    ensures
        ({
            let set = ports_after(ports, GpioRequest::SetVal { pin, value });
            let configured = ports_after(set, GpioRequest::Configure { pin, packed_attributes });
            let toggled = ports_after(configured, GpioRequest::Toggle { pin });
            &&& request_result(set, GpioRequest::ReadVal { pin }) == seq![value.code() as u8]
            &&& request_result(configured, GpioRequest::ReadVal { pin }) == seq![
                value.code() as u8,
            ]
            &&& request_result(toggled, GpioRequest::ReadVal { pin }) == seq![
                inverted(value).code() as u8,
            ]
        }),
{
    let number = pin.number() as u8;
    let config = unpacked(packed_attributes as int)->0;
    let set = ports_after(ports, GpioRequest::SetVal { pin, value });
    let configured = ports_after(set, GpioRequest::Configure { pin, packed_attributes });
    lemma_ports_after(ports, GpioRequest::SetVal { pin, value });
    lemma_ports_after(set, GpioRequest::Configure { pin, packed_attributes });
    lemma_ports_after(configured, GpioRequest::Toggle { pin });
    lemma_level_after(ports[pin.port()], number, value, number, config);
    lemma_level_after(set[pin.port()], number, value, number, config);
    lemma_level_after(configured[pin.port()], number, value, number, config);
}

} // verus!

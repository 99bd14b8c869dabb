//! The client side of the system controller: the requests of the service,
//! their envelopes, and the calls that a client makes.
//!
//! | selector | operation     | arguments                      | result |
//! |----------|---------------|--------------------------------|--------|
//! | 1        | enable clock  | peripheral number (four bytes) | none   |
//! | 2        | disable clock | peripheral number (four bytes) | none   |
//! | 3        | enter reset   | peripheral number (four bytes) | none   |
//! | 4        | leave reset   | peripheral number (four bytes) | none   |
//!
//! Each operation writes one bit, so each leaves the same state behind
//! however often it is carried out, and a client repeats it when the server
//! was restarted.

use vstd::prelude::*;
use crate::call::{Call, CallModel};
use crate::peripheral::{lemma_peripheral_round_trip, Peripheral};
use crate::task::TaskHandle;
use crate::wire::{append_u32, le32, le_value, lemma_le_value_four, read_u32, ClientError};

verus! {

/// The length of every request envelope of the service.
pub const INCOMING_SIZE: usize = 5;

/// The length of every response envelope of the service.
pub const REPLY_SIZE: usize = 1;

/// One request to the system controller.
#[derive(Copy, Clone, Debug, PartialEq, Eq, Structural)]
pub enum SysconRequest {
    /// Let the clock of a peripheral run.
    EnableClock(Peripheral),
    /// Stop the clock of a peripheral.
    DisableClock(Peripheral),
    /// Hold a peripheral in reset.
    EnterReset(Peripheral),
    /// Release a peripheral from reset.
    LeaveReset(Peripheral),
}

impl SysconRequest {
    /// The selector of the operation.
    pub open spec fn selector(self) -> u8 {
        match self {
            SysconRequest::EnableClock(_) => 1,
            SysconRequest::DisableClock(_) => 2,
            SysconRequest::EnterReset(_) => 3,
            SysconRequest::LeaveReset(_) => 4,
        }
    }

    /// The peripheral that the request is about.
    pub open spec fn peripheral(self) -> Peripheral {
        match self {
            SysconRequest::EnableClock(peripheral) => peripheral,
            SysconRequest::DisableClock(peripheral) => peripheral,
            SysconRequest::EnterReset(peripheral) => peripheral,
            SysconRequest::LeaveReset(peripheral) => peripheral,
        }
    }

    /// The request with selector `selector` about `peripheral`, if the
    /// selector names an operation.
    pub open spec fn of_parts(selector: u8, peripheral: Peripheral) -> Option<SysconRequest> {
        if selector == 1 {
            Some(SysconRequest::EnableClock(peripheral))
        } else if selector == 2 {
            Some(SysconRequest::DisableClock(peripheral))
        } else if selector == 3 {
            Some(SysconRequest::EnterReset(peripheral))
        } else if selector == 4 {
            Some(SysconRequest::LeaveReset(peripheral))
        } else {
            None
        }
    }

    /// The request envelope.
    pub open spec fn encoded(self) -> Seq<u8> {
        seq![self.selector()] + le32(self.peripheral().code())
    }

    /// The request that the envelope `bytes` holds, or the reason why the
    /// server turns it down.
    ///
    /// An envelope without a selector, or of another length than five bytes,
    /// has a bad size. A selector other than 1 to 4 names no operation,
    /// whatever follows it. A number that names no peripheral is bad
    /// contents.
    pub open spec fn decoded(bytes: Seq<u8>) -> Result<SysconRequest, ClientError> {
        if bytes.len() == 0 {
            Err(ClientError::BadMessageSize)
        } else if bytes[0] < 1 || bytes[0] > 4 {
            Err(ClientError::UnknownOperation)
        } else if bytes.len() != 5 {
            Err(ClientError::BadMessageSize)
        } else {
            match Peripheral::of_code(le_value(bytes.subrange(1, 5)) as u32) {
                Some(peripheral) => Ok(SysconRequest::of_parts(bytes[0], peripheral)->0),
                None => Err(ClientError::BadMessageContents),
            }
        }
    }

    /// Writes the request envelope.
    pub fn encode(&self) -> (envelope: Vec<u8>)
        ensures
            envelope@ == self.encoded(),
            envelope@.len() == INCOMING_SIZE,
    {
        let (selector, peripheral): (u8, Peripheral) = match *self {
            SysconRequest::EnableClock(peripheral) => (1, peripheral),
            SysconRequest::DisableClock(peripheral) => (2, peripheral),
            SysconRequest::EnterReset(peripheral) => (3, peripheral),
            SysconRequest::LeaveReset(peripheral) => (4, peripheral),
        };
        let mut envelope: Vec<u8> = Vec::new();
        envelope.push(selector);
        append_u32(&mut envelope, peripheral.to_u32());
        envelope
    }

    /// Reads a request envelope.
    pub fn decode(bytes: &[u8]) -> (outcome: Result<SysconRequest, ClientError>)
        ensures
            outcome == SysconRequest::decoded(bytes@),
    {
        if bytes.len() == 0 {
            return Err(ClientError::BadMessageSize);
        }
        let selector = bytes[0];
        if selector < 1 || selector > 4 {
            return Err(ClientError::UnknownOperation);
        }
        if bytes.len() != 5 {
            return Err(ClientError::BadMessageSize);
        }
        let peripheral = match Peripheral::from_u32(read_u32(bytes, 1)) {
            Some(peripheral) => peripheral,
            None => {
                return Err(ClientError::BadMessageContents);
            },
        };
        Ok(
            match selector {
                1 => SysconRequest::EnableClock(peripheral),
                2 => SysconRequest::DisableClock(peripheral),
                3 => SysconRequest::EnterReset(peripheral),
                _ => SysconRequest::LeaveReset(peripheral),
            },
        )
    }
}

/// The envelope of a request is read back as that request.
pub proof fn lemma_decode_encode(request: SysconRequest)
    ensures
        SysconRequest::decoded(request.encoded()) == Ok::<SysconRequest, ClientError>(request),
{
    let peripheral = request.peripheral();
    lemma_peripheral_round_trip(peripheral);
    assert(request.encoded().subrange(1, 5) =~= le32(peripheral.code()));
    lemma_le_value_four(le32(peripheral.code()));
}

/// Only the envelope that encoding writes is read as a request: every other
/// sequence of bytes, a shorter or a longer one too, is turned down or read
/// as another request.
pub proof fn lemma_encode_decode(bytes: Seq<u8>)
    requires
        SysconRequest::decoded(bytes) is Ok,
    ensures
        SysconRequest::decoded(bytes)->Ok_0.encoded() == bytes,
{
    let request = SysconRequest::decoded(bytes)->Ok_0;
    let number = bytes.subrange(1, 5);
    lemma_le_value_four(number);
    lemma_peripheral_round_trip(request.peripheral());
    assert(le32(le_value(number) as u32) =~= number);
    assert(request.encoded() =~= bytes);
}

/// The call by which the client behind `handle` makes `request`.
pub open spec fn request_call(handle: TaskHandle, request: SysconRequest) -> CallModel {
    CallModel { target: handle, envelope: request.encoded(), payload_len: 0, retry: true }
}

/// A client of the system controller task.
#[derive(Copy, Clone, Debug, PartialEq, Eq, Structural)]
pub struct Syscon {
    pub handle: TaskHandle,
}

impl Syscon {
    /// A client that reaches the system controller through `handle`.
    pub fn new(handle: TaskHandle) -> (client: Syscon)
        ensures
            client.handle == handle,
    {
        Syscon { handle }
    }

    /// The call that makes `request`.
    pub fn call(&self, request: SysconRequest) -> (call: Call)
        ensures
            call@ == request_call(self.handle, request),
    {
        Call { target: self.handle, envelope: request.encode(), payload_len: 0, retry: true }
    }

    /// The call that lets the clock of `peripheral` run.
    pub fn enable_clock(&self, peripheral: Peripheral) -> (call: Call)
        ensures
            call@ == request_call(self.handle, SysconRequest::EnableClock(peripheral)),
    {
        self.call(SysconRequest::EnableClock(peripheral))
    }

    /// The call that stops the clock of `peripheral`.
    pub fn disable_clock(&self, peripheral: Peripheral) -> (call: Call)
        ensures
            call@ == request_call(self.handle, SysconRequest::DisableClock(peripheral)),
    {
        self.call(SysconRequest::DisableClock(peripheral))
    }

    /// The call that holds `peripheral` in reset.
    pub fn enter_reset(&self, peripheral: Peripheral) -> (call: Call)
        ensures
            call@ == request_call(self.handle, SysconRequest::EnterReset(peripheral)),
    {
        self.call(SysconRequest::EnterReset(peripheral))
    }

    /// The call that releases `peripheral` from reset.
    pub fn leave_reset(&self, peripheral: Peripheral) -> (call: Call)
        ensures
            call@ == request_call(self.handle, SysconRequest::LeaveReset(peripheral)),
    {
        self.call(SysconRequest::LeaveReset(peripheral))
    }
}

} // verus!

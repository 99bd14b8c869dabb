//! Message passing between isolated tasks of a TM4C123G system.
//!
//! Every privileged operation is carried out by one dedicated task that owns
//! the registers of its peripheral. Other tasks reach it through typed
//! requests that travel as small byte envelopes over a synchronous kernel
//! primitive. This crate holds the logic of that layer:
//!
//! - the identifiers and packed words that go over the wire ([`pin`],
//!   [`peripheral`], [`attributes`]) and the envelopes around them
//!   ([`wire`]);
//! - the client side of a call, with its handling of a server that was
//!   restarted ([`task`], [`call`], [`gpio_api`], [`syscon_api`]);
//! - the two driver tasks: the step that serves one request envelope, and
//!   the register writes that each operation comes to ([`gpio_registers`],
//!   [`gpio_driver`], [`syscon_driver`], [`bits`], [`counter`]);
//! - the receive, answer and send-with-retry cycle of the network-facing
//!   inspector task ([`inspector`]).
//!
//! The kernel primitive, the memory-mapped registers and the network stack
//! are not part of it. Each function here takes what those produced as plain
//! values and says what has to happen next: which envelope to send, which
//! register to write, what to wait for.

pub mod attributes;
pub mod bits;
pub mod call;
pub mod counter;
pub mod gpio_api;
pub mod gpio_driver;
pub mod gpio_registers;
pub mod inspector;
pub mod peripheral;
pub mod pin;
pub mod syscon_api;
pub mod syscon_driver;
pub mod task;
pub mod wire;

//! Control core for stepper-motor spinners driven over a serial link.
//!
//! A spinner turns its sample in two ways in turn, rotation and agitation,
//! each for a while and each followed by a pause, until a global duration
//! is over. A controller board drives the two axes; this library is what
//! the program on the other end of the serial link needs to talk to it:
//!
//! - `protocols`: the protocol of a motor, its limits, and the command
//!   frame that carries it to the board;
//! - `enums`: microstepping modes, directions, and the three-byte status
//!   codes of the board;
//! - `handshake`: the exchange that opens a link;
//! - `serial`: the ports that are taken, and what the status listener does
//!   with each thing it finds on a port;
//! - `structs`: phases and timers of a running motor, messages for the
//!   operator, durations split in days to milliseconds;
//! - `graph`: the speed curve of an axis, sampled from its step delays, and
//!   the generations that keep workers of old requests off a curve;
//! - `motor`: one motor, started, stopped and disconnected;
//! - `registry`: all motors of an installation and the ports they hold;
//! - `wire`: little-endian integers in fixed-size frames;
//! - `limits`: the bounds shared by all of these.
//!
//! Nothing here touches a port, a clock or a thread. Functions take the
//! current time and received bytes as plain values and hand back the bytes
//! to transmit and the messages to show; the caller does the rest.

pub mod enums;
pub mod graph;
pub mod handshake;
pub mod limits;
pub mod motor;
pub mod protocols;
pub mod registry;
pub mod serial;
pub mod structs;
pub mod wire;

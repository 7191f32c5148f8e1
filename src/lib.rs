//! The core of a bridge that streams host telemetry to a serial display:
//! the arithmetic on the host's counters, the rule that picks the display's
//! port, and the connection state machine shared by the sampling loop and
//! the command handlers.

pub mod bridge;
pub mod frame;
pub mod ports;
pub mod telemetry;

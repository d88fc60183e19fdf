//! The decisions of the orientation firmware that run on plain values: the
//! per-tick decisions of the sensor tasks, and the framing of orientation
//! messages sent over the serial link (a fixed-size header with a start marker
//! and the payload length, followed by the payload bytes).
pub mod wire;
pub mod frame;
pub mod marg;

pub use frame::{UartHeader, UART_FRAME_START, UART_HEADER_LEN};
pub use marg::{MargAction, MargEvent, MargMode, MargPhase, MargTask};

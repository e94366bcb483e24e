//! Driver core for the RFXtrx433, a 433 MHz radio transceiver on a serial
//! port.
//!
//! The device speaks in frames with a length byte in front. This library lays
//! out the control frames, decodes what the device sends, and decides what a
//! session and its link worker do next. It opens no port and waits for
//! nothing: the caller reads, writes and sleeps, and hands in what happened.

pub mod error;
pub mod link;
pub mod protocols;
pub mod session;
pub mod trx_command;

pub use error::TRXError;
pub use protocols::{Protocols1, Protocols2, Protocols3, Protocols4};
pub use session::{RFXtrx433, RFXtrx433Info};
pub use trx_command::{Frequency, ProtocolMessage};

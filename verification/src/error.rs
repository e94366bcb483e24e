//! The error type of the library.

use crate::trx_command::PacketType;
use vstd::prelude::*;

verus! {

/// Makes `serialport::Error` known, the error that the serial port crate
/// gives when the ports cannot be listed or a port cannot be opened. Nothing
/// is claimed of it: a value of it is only carried, inside
/// `TRXError::SerialPort`, and nothing here looks into it.
#[verifier::external_type_specification]
#[verifier::external_body]
pub struct ExSerialPortError(serialport::Error);

/// Makes `std::io::Error` known, the error of a failed read or write.
/// Nothing is claimed of it: a value of it is only carried, inside
/// `TRXError::IO`, and nothing here looks into it.
#[verifier::external_type_specification]
#[verifier::external_body]
pub struct ExIoError(std::io::Error);

/// Error type for the library
#[derive(Debug)]
pub enum TRXError {
    /// Couldn't find a device with the given serial number
    DeviceWithSerialNotFound(String),
    /// Sent when the reader is shut down
    Shutdown,
    /// Protocol error, not enough data to parse
    NotEnoughData {
        /// Bytes received
        received: usize,
        /// Bytes expected by the parser
        expected: usize,
    },
    /// Unrecognized packet type received.
    UnknownPacketType(u8),
    /// Unknown subtype for the packet
    UnknownSubPacketType {
        /// Packet type
        packet_type: PacketType,
        /// Unknown subtype
        sub_type: u8,
    },
    /// Unknown command in an interface message
    UnknownInterfaceMessageCommand(u8),
    /// Unknown hardware type
    UnknownHardwareType(u8),
    /// Received an unexpected message
    UnexpectedMessage(String),
    /// Serial port error
    SerialPort(serialport::Error),
    /// IO error
    IO(std::io::Error),
    /// Channel error
    TokioSendError(String),
}

/// What an error says, with each text as a sequence of characters.
pub enum TRXErrorView {
    DeviceWithSerialNotFound(Seq<char>),
    Shutdown,
    NotEnoughData { received: usize, expected: usize },
    UnknownPacketType(u8),
    UnknownSubPacketType { packet_type: PacketType, sub_type: u8 },
    UnknownInterfaceMessageCommand(u8),
    UnknownHardwareType(u8),
    UnexpectedMessage(Seq<char>),
    SerialPort(serialport::Error),
    IO(std::io::Error),
    TokioSendError(Seq<char>),
}

impl View for TRXError {
    type V = TRXErrorView;

    open spec fn view(&self) -> TRXErrorView {
        match *self {
            TRXError::DeviceWithSerialNotFound(text) => TRXErrorView::DeviceWithSerialNotFound(
                text@,
            ),
            TRXError::Shutdown => TRXErrorView::Shutdown,
            TRXError::NotEnoughData { received, expected } => TRXErrorView::NotEnoughData {
                received,
                expected,
            },
            TRXError::UnknownPacketType(byte) => TRXErrorView::UnknownPacketType(byte),
            TRXError::UnknownSubPacketType {
                packet_type,
                sub_type,
            } => TRXErrorView::UnknownSubPacketType { packet_type, sub_type },
            TRXError::UnknownInterfaceMessageCommand(byte) => {
                TRXErrorView::UnknownInterfaceMessageCommand(byte)
            },
            TRXError::UnknownHardwareType(byte) => TRXErrorView::UnknownHardwareType(byte),
            TRXError::UnexpectedMessage(text) => TRXErrorView::UnexpectedMessage(text@),
            TRXError::SerialPort(e) => TRXErrorView::SerialPort(e),
            TRXError::IO(e) => TRXErrorView::IO(e),
            TRXError::TokioSendError(text) => TRXErrorView::TokioSendError(text@),
        }
    }
}

} // verus!

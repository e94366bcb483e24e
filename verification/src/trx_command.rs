//! The transceiver's wire protocol: packet types, the packet header, the
//! control frames sent to the device and the decoders of what it sends back.
//!
//! A frame on the wire is `LEN | TYPE | SUBTYPE | SEQNBR | PAYLOAD`, where `LEN`
//! counts every byte behind itself. The functions here work on such frames as
//! byte sequences; reading them from a port and writing them to it happens
//! elsewhere.

use crate::error::{TRXError, TRXErrorView};
use crate::protocols::{Protocols1, Protocols2, Protocols3, Protocols4};
use vstd::prelude::*;
use vstd::slice::{slice_subrange, slice_to_vec};

verus! {

/// Counter that numbers the control frames of one session. It wraps at 256.
pub type SequenceNumber = u8;

/// The tag in the second byte of a frame: what kind of packet it is.
#[derive(Clone, Copy, Debug, PartialEq, Eq, Structural)]
pub enum PacketType {
    InterfaceControl,
    InterfaceMessage,
    RecXmitMessage,
    Undecoded,
    Lighting1,
    Lighting2,
    Lighting3,
    Lighting4,
    Lighting5,
    Lighting6,
    Chime,
    Fan,
    Curtain,
    Blinds,
    RFY,
    HomeConfort,
    Funkbus,
    Hunter,
    Security1,
    Security2,
    Camera,
    Remote,
    Thermostat1,
    Thermostat2,
    Thermostat3,
    Thermostat4,
    Radiator1,
    BBQ,
    TempRain,
    TEMP,
    HUM,
    TempHum,
    BARO,
    TempHumBaro,
    RAIN,
    WIND,
    UV,
    DT,
    CURRENT,
    ENERGY,
    CURRENTENERGY,
    POWER,
    WEIGHT,
    GAS,
    WATER,
    CARTELECTRONIC,
    ASYNCPORT,
    ASYNCDATA,
    RFXSensor,
    RFXMeter,
    FS20,
    WEATHER,
    SOLAR,
    RAW,
}

impl PacketType {
    /// The byte that stands for this packet type on the wire.
    pub open spec fn spec_to_u8(&self) -> u8 {
        match *self {
            PacketType::InterfaceControl => 0x00,
            PacketType::InterfaceMessage => 0x01,
            PacketType::RecXmitMessage => 0x02,
            PacketType::Undecoded => 0x03,
            PacketType::Lighting1 => 0x10,
            PacketType::Lighting2 => 0x11,
            PacketType::Lighting3 => 0x12,
            PacketType::Lighting4 => 0x13,
            PacketType::Lighting5 => 0x14,
            PacketType::Lighting6 => 0x15,
            PacketType::Chime => 0x16,
            PacketType::Fan => 0x17,
            PacketType::Curtain => 0x18,
            PacketType::Blinds => 0x19,
            PacketType::RFY => 0x1A,
            PacketType::HomeConfort => 0x1B,
            PacketType::Funkbus => 0x1E,
            PacketType::Hunter => 0x1F,
            PacketType::Security1 => 0x20,
            PacketType::Security2 => 0x21,
            PacketType::Camera => 0x28,
            PacketType::Remote => 0x30,
            PacketType::Thermostat1 => 0x40,
            PacketType::Thermostat2 => 0x41,
            PacketType::Thermostat3 => 0x42,
            PacketType::Thermostat4 => 0x43,
            PacketType::Radiator1 => 0x48,
            PacketType::BBQ => 0x4E,
            PacketType::TempRain => 0x4F,
            PacketType::TEMP => 0x50,
            PacketType::HUM => 0x51,
            PacketType::TempHum => 0x52,
            PacketType::BARO => 0x53,
            PacketType::TempHumBaro => 0x54,
            PacketType::RAIN => 0x55,
            PacketType::WIND => 0x56,
            PacketType::UV => 0x57,
            PacketType::DT => 0x58,
            PacketType::CURRENT => 0x59,
            PacketType::ENERGY => 0x5A,
            PacketType::CURRENTENERGY => 0x5B,
            PacketType::POWER => 0x5C,
            PacketType::WEIGHT => 0x5D,
            PacketType::GAS => 0x5E,
            PacketType::WATER => 0x5F,
            PacketType::CARTELECTRONIC => 0x60,
            PacketType::ASYNCPORT => 0x61,
            PacketType::ASYNCDATA => 0x62,
            PacketType::RFXSensor => 0x70,
            PacketType::RFXMeter => 0x71,
            PacketType::FS20 => 0x72,
            PacketType::WEATHER => 0x76,
            PacketType::SOLAR => 0x77,
            PacketType::RAW => 0x7F,
        }
    }

    /// The packet type that a byte stands for, if it stands for one.
    pub open spec fn spec_from_u8(byte: u8) -> Option<PacketType> {
        if exists|t: PacketType| t.spec_to_u8() == byte {
            Some(choose|t: PacketType| t.spec_to_u8() == byte)
        } else {
            None
        }
    }

    /// The byte that stands for this packet type on the wire.
    #[verifier::when_used_as_spec(spec_to_u8)]
    pub fn to_u8(&self) -> (byte: u8)
        ensures
            byte == self.spec_to_u8(),
    {
        match *self {
            PacketType::InterfaceControl => 0x00,
            PacketType::InterfaceMessage => 0x01,
            PacketType::RecXmitMessage => 0x02,
            PacketType::Undecoded => 0x03,
            PacketType::Lighting1 => 0x10,
            PacketType::Lighting2 => 0x11,
            PacketType::Lighting3 => 0x12,
            PacketType::Lighting4 => 0x13,
            PacketType::Lighting5 => 0x14,
            PacketType::Lighting6 => 0x15,
            PacketType::Chime => 0x16,
            PacketType::Fan => 0x17,
            PacketType::Curtain => 0x18,
            PacketType::Blinds => 0x19,
            PacketType::RFY => 0x1A,
            PacketType::HomeConfort => 0x1B,
            PacketType::Funkbus => 0x1E,
            PacketType::Hunter => 0x1F,
            PacketType::Security1 => 0x20,
            PacketType::Security2 => 0x21,
            PacketType::Camera => 0x28,
            PacketType::Remote => 0x30,
            PacketType::Thermostat1 => 0x40,
            PacketType::Thermostat2 => 0x41,
            PacketType::Thermostat3 => 0x42,
            PacketType::Thermostat4 => 0x43,
            PacketType::Radiator1 => 0x48,
            PacketType::BBQ => 0x4E,
            PacketType::TempRain => 0x4F,
            PacketType::TEMP => 0x50,
            PacketType::HUM => 0x51,
            PacketType::TempHum => 0x52,
            PacketType::BARO => 0x53,
            PacketType::TempHumBaro => 0x54,
            PacketType::RAIN => 0x55,
            PacketType::WIND => 0x56,
            PacketType::UV => 0x57,
            PacketType::DT => 0x58,
            PacketType::CURRENT => 0x59,
            PacketType::ENERGY => 0x5A,
            PacketType::CURRENTENERGY => 0x5B,
            PacketType::POWER => 0x5C,
            PacketType::WEIGHT => 0x5D,
            PacketType::GAS => 0x5E,
            PacketType::WATER => 0x5F,
            PacketType::CARTELECTRONIC => 0x60,
            PacketType::ASYNCPORT => 0x61,
            PacketType::ASYNCDATA => 0x62,
            PacketType::RFXSensor => 0x70,
            PacketType::RFXMeter => 0x71,
            PacketType::FS20 => 0x72,
            PacketType::WEATHER => 0x76,
            PacketType::SOLAR => 0x77,
            PacketType::RAW => 0x7F,
        }
    }

    /// Reads a packet type from its byte. `None` for a byte that no packet
    /// type has.
    pub fn from_u8(byte: u8) -> (r: Option<PacketType>)
        ensures
            r == PacketType::spec_from_u8(byte),
            r matches Some(t) ==> t.to_u8() == byte,
            r is None ==> forall|t: PacketType| t.to_u8() != byte,
    {
        let r = match byte {
            0x00 => Some(PacketType::InterfaceControl),
            0x01 => Some(PacketType::InterfaceMessage),
            0x02 => Some(PacketType::RecXmitMessage),
            0x03 => Some(PacketType::Undecoded),
            0x10 => Some(PacketType::Lighting1),
            0x11 => Some(PacketType::Lighting2),
            0x12 => Some(PacketType::Lighting3),
            0x13 => Some(PacketType::Lighting4),
            0x14 => Some(PacketType::Lighting5),
            0x15 => Some(PacketType::Lighting6),
            0x16 => Some(PacketType::Chime),
            0x17 => Some(PacketType::Fan),
            0x18 => Some(PacketType::Curtain),
            0x19 => Some(PacketType::Blinds),
            0x1A => Some(PacketType::RFY),
            0x1B => Some(PacketType::HomeConfort),
            0x1E => Some(PacketType::Funkbus),
            0x1F => Some(PacketType::Hunter),
            0x20 => Some(PacketType::Security1),
            0x21 => Some(PacketType::Security2),
            0x28 => Some(PacketType::Camera),
            0x30 => Some(PacketType::Remote),
            0x40 => Some(PacketType::Thermostat1),
            0x41 => Some(PacketType::Thermostat2),
            0x42 => Some(PacketType::Thermostat3),
            0x43 => Some(PacketType::Thermostat4),
            0x48 => Some(PacketType::Radiator1),
            0x4E => Some(PacketType::BBQ),
            0x4F => Some(PacketType::TempRain),
            0x50 => Some(PacketType::TEMP),
            0x51 => Some(PacketType::HUM),
            0x52 => Some(PacketType::TempHum),
            0x53 => Some(PacketType::BARO),
            0x54 => Some(PacketType::TempHumBaro),
            0x55 => Some(PacketType::RAIN),
            0x56 => Some(PacketType::WIND),
            0x57 => Some(PacketType::UV),
            0x58 => Some(PacketType::DT),
            0x59 => Some(PacketType::CURRENT),
            0x5A => Some(PacketType::ENERGY),
            0x5B => Some(PacketType::CURRENTENERGY),
            0x5C => Some(PacketType::POWER),
            0x5D => Some(PacketType::WEIGHT),
            0x5E => Some(PacketType::GAS),
            0x5F => Some(PacketType::WATER),
            0x60 => Some(PacketType::CARTELECTRONIC),
            0x61 => Some(PacketType::ASYNCPORT),
            0x62 => Some(PacketType::ASYNCDATA),
            0x70 => Some(PacketType::RFXSensor),
            0x71 => Some(PacketType::RFXMeter),
            0x72 => Some(PacketType::FS20),
            0x76 => Some(PacketType::WEATHER),
            0x77 => Some(PacketType::SOLAR),
            0x7F => Some(PacketType::RAW),
            _ => None,
        };
        proof {
            if let Some(t) = r {
                assert(t.spec_to_u8() == byte);
                let u = choose|u: PacketType| u.spec_to_u8() == byte;
                PacketType::lemma_to_u8_injective(t, u);
            }
        }
        r
    }

    /// No two packet types share a byte.
    pub proof fn lemma_to_u8_injective(a: PacketType, b: PacketType)
        requires
            a.to_u8() == b.to_u8(),
        ensures
            a == b,
    {
    }

    /// Reading back the byte of a packet type gives that packet type.
    pub proof fn lemma_from_u8_of_to_u8(t: PacketType)
        ensures
            PacketType::spec_from_u8(t.to_u8()) == Some(t),
    {
        let byte = t.spec_to_u8();
        let u = choose|u: PacketType| u.spec_to_u8() == byte;
        PacketType::lemma_to_u8_injective(t, u);
    }
}

/// The command in a control frame, which the device echoes in its reply.
#[derive(Clone, Copy, Debug, PartialEq, Eq, Structural)]
pub enum InterfaceCommandCmd {
    Reset,
    Status,
    SetMode,
    Save,
    StartReceiver,
}

impl InterfaceCommandCmd {
    /// The byte that stands for this command on the wire.
    pub open spec fn spec_to_u8(&self) -> u8 {
        match *self {
            InterfaceCommandCmd::Reset => 0x00,
            InterfaceCommandCmd::Status => 0x02,
            InterfaceCommandCmd::SetMode => 0x03,
            InterfaceCommandCmd::Save => 0x06,
            InterfaceCommandCmd::StartReceiver => 0x07,
        }
    }

    /// The command that a byte stands for, if it stands for one.
    pub open spec fn spec_from_u8(byte: u8) -> Option<InterfaceCommandCmd> {
        if exists|c: InterfaceCommandCmd| c.spec_to_u8() == byte {
            Some(choose|c: InterfaceCommandCmd| c.spec_to_u8() == byte)
        } else {
            None
        }
    }

    /// The byte that stands for this command on the wire.
    #[verifier::when_used_as_spec(spec_to_u8)]
    pub fn to_u8(&self) -> (byte: u8)
        ensures
            byte == self.spec_to_u8(),
    {
        match *self {
            InterfaceCommandCmd::Reset => 0x00,
            InterfaceCommandCmd::Status => 0x02,
            InterfaceCommandCmd::SetMode => 0x03,
            InterfaceCommandCmd::Save => 0x06,
            InterfaceCommandCmd::StartReceiver => 0x07,
        }
    }

    /// Reads a command from its byte. `None` for a byte that no command has.
    pub fn from_u8(byte: u8) -> (r: Option<InterfaceCommandCmd>)
        ensures
            r == InterfaceCommandCmd::spec_from_u8(byte),
            r matches Some(c) ==> c.to_u8() == byte,
            r is None ==> forall|c: InterfaceCommandCmd| c.to_u8() != byte,
    {
        let r = match byte {
            0x00 => Some(InterfaceCommandCmd::Reset),
            0x02 => Some(InterfaceCommandCmd::Status),
            0x03 => Some(InterfaceCommandCmd::SetMode),
            0x06 => Some(InterfaceCommandCmd::Save),
            0x07 => Some(InterfaceCommandCmd::StartReceiver),
            _ => None,
        };
        proof {
            if let Some(c) = r {
                assert(c.spec_to_u8() == byte);
            }
        }
        r
    }
}

/// The sub-type of an interface message: what the device is telling the host.
#[derive(Clone, Copy, Debug, PartialEq, Eq, Structural)]
pub enum InterfaceMessageSubType {
    InterfaceResponse,
    UnknownRFYremote,
    ExtError,
    RFYremoteList,
    ASAremoteList,
    RecStarted,
    InterfaceWrongCommand,
}

impl InterfaceMessageSubType {
    /// The byte that stands for this sub-type on the wire.
    pub open spec fn spec_to_u8(&self) -> u8 {
        match *self {
            InterfaceMessageSubType::InterfaceResponse => 0x00,
            InterfaceMessageSubType::UnknownRFYremote => 0x01,
            InterfaceMessageSubType::ExtError => 0x02,
            InterfaceMessageSubType::RFYremoteList => 0x03,
            InterfaceMessageSubType::ASAremoteList => 0x04,
            InterfaceMessageSubType::RecStarted => 0x07,
            InterfaceMessageSubType::InterfaceWrongCommand => 0xFF,
        }
    }

    /// The sub-type that a byte stands for, if it stands for one.
    pub open spec fn spec_from_u8(byte: u8) -> Option<InterfaceMessageSubType> {
        if exists|s: InterfaceMessageSubType| s.spec_to_u8() == byte {
            Some(choose|s: InterfaceMessageSubType| s.spec_to_u8() == byte)
        } else {
            None
        }
    }

    /// The byte that stands for this sub-type on the wire.
    #[verifier::when_used_as_spec(spec_to_u8)]
    pub fn to_u8(&self) -> (byte: u8)
        ensures
            byte == self.spec_to_u8(),
    {
        match *self {
            InterfaceMessageSubType::InterfaceResponse => 0x00,
            InterfaceMessageSubType::UnknownRFYremote => 0x01,
            InterfaceMessageSubType::ExtError => 0x02,
            InterfaceMessageSubType::RFYremoteList => 0x03,
            InterfaceMessageSubType::ASAremoteList => 0x04,
            InterfaceMessageSubType::RecStarted => 0x07,
            InterfaceMessageSubType::InterfaceWrongCommand => 0xFF,
        }
    }

    /// Reads a sub-type from its byte. `None` for a byte that no sub-type has.
    pub fn from_u8(byte: u8) -> (r: Option<InterfaceMessageSubType>)
        ensures
            r == InterfaceMessageSubType::spec_from_u8(byte),
            r matches Some(s) ==> s.to_u8() == byte,
            r is None ==> forall|s: InterfaceMessageSubType| s.to_u8() != byte,
    {
        let r = match byte {
            0x00 => Some(InterfaceMessageSubType::InterfaceResponse),
            0x01 => Some(InterfaceMessageSubType::UnknownRFYremote),
            0x02 => Some(InterfaceMessageSubType::ExtError),
            0x03 => Some(InterfaceMessageSubType::RFYremoteList),
            0x04 => Some(InterfaceMessageSubType::ASAremoteList),
            0x07 => Some(InterfaceMessageSubType::RecStarted),
            0xFF => Some(InterfaceMessageSubType::InterfaceWrongCommand),
            _ => None,
        };
        proof {
            if let Some(s) = r {
                assert(s.spec_to_u8() == byte);
            }
        }
        r
    }
}

/// The sub-type of an interface control packet. There is only one.
#[derive(Clone, Copy, Debug, PartialEq, Eq, Structural)]
pub enum InterfaceControlSubType {
    InterfaceCommand,
}

impl InterfaceControlSubType {
    /// The byte that stands for this sub-type on the wire.
    pub open spec fn spec_to_u8(&self) -> u8 {
        0x00
    }

    /// The byte that stands for this sub-type on the wire.
    #[verifier::when_used_as_spec(spec_to_u8)]
    pub fn to_u8(&self) -> (byte: u8)
        ensures
            byte == self.spec_to_u8(),
    {
        0x00
    }
}

/// Type to specify the receiver/transceiver frequency.
#[derive(Clone, Copy, Debug, PartialEq, Eq, Structural)]
pub enum Frequency {
    /// Transceiver 310 MHz
    TrxType310,
    /// Transceiver 315 MHz
    TrxType315,
    /// Receiver 433.92 MHz
    RecType43392,
    /// Transceiver 433.92 MHz (default)
    TrxType43392,
    /// Receiver 433.42 MHz
    RecType43342,
    /// Transceiver 868 MHz
    TrxType868,
    /// Receiver 434.50 MHz
    RecType43450,
}

impl Frequency {
    /// The byte that stands for this frequency on the wire.
    pub open spec fn spec_to_u8(&self) -> u8 {
        match *self {
            Frequency::TrxType310 => 0x50,
            Frequency::TrxType315 => 0x51,
            Frequency::RecType43392 => 0x52,
            Frequency::TrxType43392 => 0x53,
            Frequency::RecType43342 => 0x54,
            Frequency::TrxType868 => 0x55,
            Frequency::RecType43450 => 0x5F,
        }
    }

    /// The frequency that a byte stands for, if it stands for one.
    pub open spec fn spec_from_u8(byte: u8) -> Option<Frequency> {
        if exists|f: Frequency| f.spec_to_u8() == byte {
            Some(choose|f: Frequency| f.spec_to_u8() == byte)
        } else {
            None
        }
    }

    /// The byte that stands for this frequency on the wire.
    #[verifier::when_used_as_spec(spec_to_u8)]
    pub fn to_u8(&self) -> (byte: u8)
        ensures
            byte == self.spec_to_u8(),
    {
        match *self {
            Frequency::TrxType310 => 0x50,
            Frequency::TrxType315 => 0x51,
            Frequency::RecType43392 => 0x52,
            Frequency::TrxType43392 => 0x53,
            Frequency::RecType43342 => 0x54,
            Frequency::TrxType868 => 0x55,
            Frequency::RecType43450 => 0x5F,
        }
    }

    /// Reads a frequency from its byte. `None` for a byte that no frequency
    /// has.
    pub fn from_u8(byte: u8) -> (r: Option<Frequency>)
        ensures
            r == Frequency::spec_from_u8(byte),
            r matches Some(f) ==> f.to_u8() == byte,
            r is None ==> forall|f: Frequency| f.to_u8() != byte,
    {
        let r = match byte {
            0x50 => Some(Frequency::TrxType310),
            0x51 => Some(Frequency::TrxType315),
            0x52 => Some(Frequency::RecType43392),
            0x53 => Some(Frequency::TrxType43392),
            0x54 => Some(Frequency::RecType43342),
            0x55 => Some(Frequency::TrxType868),
            0x5F => Some(Frequency::RecType43450),
            _ => None,
        };
        proof {
            if let Some(f) = r {
                assert(f.spec_to_u8() == byte);
            }
        }
        r
    }
}

impl Default for Frequency {
    fn default() -> (f: Frequency)
        ensures
            f == Frequency::TrxType43392,
    {
        Frequency::TrxType43392
    }
}

/// The firmware that the device runs.
#[derive(Clone, Copy, Debug, PartialEq, Eq, Structural)]
pub enum FWType {
    TypeRec,
    Type1,
    Type2,
    TypeExt,
    TypeExt2,
    TypePro1,
    TypePro2,
    TypeProXL1,
}

impl FWType {
    /// The byte that stands for this firmware on the wire.
    pub open spec fn spec_to_u8(&self) -> u8 {
        match *self {
            FWType::TypeRec => 0x00,
            FWType::Type1 => 0x01,
            FWType::Type2 => 0x02,
            FWType::TypeExt => 0x03,
            FWType::TypeExt2 => 0x04,
            FWType::TypePro1 => 0x05,
            FWType::TypePro2 => 0x06,
            FWType::TypeProXL1 => 0x10,
        }
    }

    /// The firmware that a byte stands for, if it stands for one.
    pub open spec fn spec_from_u8(byte: u8) -> Option<FWType> {
        if exists|f: FWType| f.spec_to_u8() == byte {
            Some(choose|f: FWType| f.spec_to_u8() == byte)
        } else {
            None
        }
    }

    /// The byte that stands for this firmware on the wire.
    #[verifier::when_used_as_spec(spec_to_u8)]
    pub fn to_u8(&self) -> (byte: u8)
        ensures
            byte == self.spec_to_u8(),
    {
        match *self {
            FWType::TypeRec => 0x00,
            FWType::Type1 => 0x01,
            FWType::Type2 => 0x02,
            FWType::TypeExt => 0x03,
            FWType::TypeExt2 => 0x04,
            FWType::TypePro1 => 0x05,
            FWType::TypePro2 => 0x06,
            FWType::TypeProXL1 => 0x10,
        }
    }

    /// Reads a firmware type from its byte. `None` for a byte that no
    /// firmware type has.
    pub fn from_u8(byte: u8) -> (r: Option<FWType>)
        ensures
            r == FWType::spec_from_u8(byte),
            r matches Some(f) ==> f.to_u8() == byte,
            r is None ==> forall|f: FWType| f.to_u8() != byte,
    {
        let r = match byte {
            0x00 => Some(FWType::TypeRec),
            0x01 => Some(FWType::Type1),
            0x02 => Some(FWType::Type2),
            0x03 => Some(FWType::TypeExt),
            0x04 => Some(FWType::TypeExt2),
            0x05 => Some(FWType::TypePro1),
            0x06 => Some(FWType::TypePro2),
            0x10 => Some(FWType::TypeProXL1),
            _ => None,
        };
        proof {
            if let Some(f) = r {
                assert(f.spec_to_u8() == byte);
            }
        }
        r
    }
}

/// The most payload bytes that a frame can carry: the length byte counts the
/// three header bytes too, and holds 255 at most.
pub const MAX_PAYLOAD_LEN: usize = 252;

/// The header that every packet starts with, in both directions.
#[derive(Clone, Copy, Debug, PartialEq, Eq, Structural)]
pub struct PacketHeader {
    pub packet_type: PacketType,
    pub sub_type: u8,
    pub seqnbr: u8,
}

/// The frame that carries `payload` under `header`: the length byte, the three
/// header bytes, the payload. The length byte counts what follows it.
pub open spec fn spec_frame(header: PacketHeader, payload: Seq<u8>) -> Seq<u8> {
    seq![(3 + payload.len()) as u8] + header.spec_bytes() + payload
}

impl PacketHeader {
    /// The three bytes of the header on the wire: type, sub-type, sequence
    /// number.
    pub open spec fn spec_bytes(&self) -> Seq<u8> {
        seq![self.packet_type.to_u8(), self.sub_type, self.seqnbr]
    }

    /// What `parse` makes of the bytes that follow a frame's length byte.
    pub open spec fn spec_parse(data: Seq<u8>) -> Result<(PacketHeader, Seq<u8>), TRXErrorView> {
        if data.len() < 3 {
            Err(TRXErrorView::NotEnoughData { received: data.len() as usize, expected: 3 })
        } else {
            match PacketType::spec_from_u8(data[0]) {
                None => Err(TRXErrorView::UnknownPacketType(data[0])),
                Some(packet_type) => Ok(
                    (
                        PacketHeader { packet_type, sub_type: data[1], seqnbr: data[2] },
                        data.skip(3),
                    ),
                ),
            }
        }
    }

    /// Starts a frame in `v`: a zero where the length byte will stand, then
    /// the header. Whoever completes the frame sets the length byte.
    pub fn extend(&self, v: &mut Vec<u8>)
        ensures
            final(v)@ == old(v)@ + seq![0u8] + self.spec_bytes(),
    {
        v.push(0);
        v.push(self.packet_type.to_u8());
        v.push(self.sub_type);
        v.push(self.seqnbr);
        assert(v@ =~= old(v)@ + seq![0u8] + self.spec_bytes());
    }

    /// Lays out the frame that carries `payload` under this header. The
    /// caller gives the payload only: the length byte is computed here, and
    /// counts the header and the payload.
    pub fn encode(&self, payload: &[u8]) -> (v: Vec<u8>)
        requires
            payload@.len() <= MAX_PAYLOAD_LEN,
        ensures
            v@ == spec_frame(*self, payload@),
            v@.len() == 4 + payload@.len(),
            v@[0] == v@.len() - 1,
    {
        let mut v: Vec<u8> = Vec::with_capacity(payload.len() + 4);
        self.extend(&mut v);
        v.extend_from_slice(payload);
        let n: usize = v.len();
        v[0] = (n - 1) as u8;
        assert(v@ =~= spec_frame(*self, payload@));
        v
    }

    /// Reads the header from the bytes that follow a frame's length byte, and
    /// hands back the header with the bytes behind it.
    ///
    /// Fails with `NotEnoughData` on fewer than three bytes, and with
    /// `UnknownPacketType` where the first byte is no packet type.
    pub fn parse(data: &[u8]) -> (r: Result<(PacketHeader, &[u8]), TRXError>)
        ensures
            match r {
                Ok((header, rest)) => PacketHeader::spec_parse(data@) == Ok::<
                    (PacketHeader, Seq<u8>),
                    TRXErrorView,
                >((header, rest@)),
                Err(e) => PacketHeader::spec_parse(data@) == Err::<
                    (PacketHeader, Seq<u8>),
                    TRXErrorView,
                >(e@),
            },
    {
        if data.len() < 3 {
            return Err(TRXError::NotEnoughData { received: data.len(), expected: 3 });
        }
        match PacketType::from_u8(data[0]) {
            None => Err(TRXError::UnknownPacketType(data[0])),
            Some(packet_type) => {
                let rest = slice_subrange(data, 3, data.len());
                assert(rest@ =~= data@.skip(3));
                Ok((PacketHeader { packet_type, sub_type: data[1], seqnbr: data[2] }, rest))
            },
        }
    }

    /// A header that is written into a frame and read back from it is the
    /// header that was written, and the payload comes back with it. The
    /// frame's first byte counts the bytes behind it.
    pub proof fn lemma_frame_round_trip(header: PacketHeader, payload: Seq<u8>)
        requires
            payload.len() <= MAX_PAYLOAD_LEN,
        ensures
            spec_frame(header, payload).len() == 4 + payload.len(),
            spec_frame(header, payload)[0] == spec_frame(header, payload).len() - 1,
            PacketHeader::spec_parse(spec_frame(header, payload).skip(1)) == Ok::<
                (PacketHeader, Seq<u8>),
                TRXErrorView,
            >((header, payload)),
    {
        let body = spec_frame(header, payload).skip(1);
        assert(body =~= header.spec_bytes() + payload);
        assert(body.skip(3) =~= payload);
        PacketType::lemma_from_u8_of_to_u8(header.packet_type);
    }
}

/// A control frame before it is laid out in bytes.
#[derive(Clone, Copy, Debug, PartialEq, Eq)]
pub struct InterfaceCommand {
    pub header: PacketHeader,
    pub cmd: InterfaceCommandCmd,
    /// Only used in SetMode
    pub frequency: u8,
    /// Only used in SetMode
    pub xmitpwr: u8,
    pub extra: [u8; 7],
}

impl InterfaceCommand {
    /// The ten bytes behind the header: command, frequency, transmit power
    /// and the seven further bytes.
    pub open spec fn spec_payload(&self) -> Seq<u8> {
        seq![self.cmd.to_u8(), self.frequency, self.xmitpwr] + self.extra@
    }

    /// The frame of this command.
    pub open spec fn spec_to_vec(&self) -> Seq<u8> {
        spec_frame(self.header, self.spec_payload())
    }

    /// Lays the command out as a frame of 14 bytes, the length byte first.
    pub fn to_vec(&self) -> (v: Vec<u8>)
        ensures
            v@ == self.spec_to_vec(),
            v@.len() == 14,
            v@[0] == 0x0D,
            v@[0] == v@.len() - 1,
    {
        let payload: [u8; 10] = [
            self.cmd.to_u8(),
            self.frequency,
            self.xmitpwr,
            self.extra[0],
            self.extra[1],
            self.extra[2],
            self.extra[3],
            self.extra[4],
            self.extra[5],
            self.extra[6],
        ];
        assert(payload@ =~= self.spec_payload());
        self.header.encode(payload.as_slice())
    }
}

/// The four protocol masks of the device, as one value.
#[derive(Clone, Copy, Debug, PartialEq, Eq, Structural)]
pub struct EnabledProtocols {
    pub protos_1: Protocols1,
    pub protos_2: Protocols2,
    pub protos_3: Protocols3,
    pub protos_4: Protocols4,
}

impl Default for EnabledProtocols {
    fn default() -> (r: EnabledProtocols)
        ensures
            r.protos_1.bits() == 0,
            r.protos_2.bits() == 0,
            r.protos_3.bits() == 0,
            r.protos_4.bits() == 0,
    {
        EnabledProtocols {
            protos_1: Protocols1::empty(),
            protos_2: Protocols2::empty(),
            protos_3: Protocols3::empty(),
            protos_4: Protocols4::empty(),
        }
    }
}

impl EnabledProtocols {
    /// The masks that four bytes from the wire stand for: each byte is one
    /// mask, cut down to the bits that have a meaning in it.
    pub open spec fn spec_from(bytes: Seq<u8>) -> EnabledProtocols {
        EnabledProtocols {
            protos_1: Protocols1 { bits: bytes[0] & Protocols1::ALL },
            protos_2: Protocols2 { bits: bytes[1] & Protocols2::ALL },
            protos_3: Protocols3 { bits: bytes[2] & Protocols3::ALL },
            protos_4: Protocols4 { bits: bytes[3] & Protocols4::ALL },
        }
    }

    /// Reads the four masks from four bytes of a status reply.
    pub fn from(bytes: &[u8]) -> (r: EnabledProtocols)
        requires
            bytes@.len() == 4,
        ensures
            r == EnabledProtocols::spec_from(bytes@),
            r.protos_1.bits() & !Protocols1::ALL == 0,
            r.protos_2.bits() & !Protocols2::ALL == 0,
            r.protos_3.bits() & !Protocols3::ALL == 0,
            r.protos_4.bits() & !Protocols4::ALL == 0,
    {
        EnabledProtocols {
            protos_1: Protocols1::from_bits_truncate(bytes[0]),
            protos_2: Protocols2::from_bits_truncate(bytes[1]),
            protos_3: Protocols3::from_bits_truncate(bytes[2]),
            protos_4: Protocols4::from_bits_truncate(bytes[3]),
        }
    }
}

/// What the device answers to a control frame.
#[derive(Clone, Copy, Debug, PartialEq, Eq, Structural)]
pub enum InterfaceMessage {
    /// The device's settings, in answer to a status request.
    Status { frequency: Frequency, fw_version: u8, enabled_protocols: EnabledProtocols },
    /// The mode was set.
    SetMode,
    /// The receiver was started.
    ReceiverStarted,
    /// The settings were saved.
    Save,
}

impl InterfaceMessage {
    /// What `parse` makes of an interface message with this header and these
    /// bytes behind the header.
    pub open spec fn spec_parse(header: PacketHeader, data: Seq<u8>) -> Result<
        InterfaceMessage,
        TRXErrorView,
    > {
        match InterfaceMessageSubType::spec_from_u8(header.sub_type) {
            Some(InterfaceMessageSubType::RecStarted) => Ok(InterfaceMessage::ReceiverStarted),
            Some(InterfaceMessageSubType::InterfaceResponse) => if data.len() < 1 {
                Err(TRXErrorView::NotEnoughData { received: 0, expected: 1 })
            } else {
                match InterfaceCommandCmd::spec_from_u8(data[0]) {
                    Some(InterfaceCommandCmd::Status) => if data.len() < 7 {
                        Err(
                            TRXErrorView::NotEnoughData {
                                received: data.len() as usize,
                                expected: 7,
                            },
                        )
                    } else {
                        match Frequency::spec_from_u8(data[1]) {
                            None => Err(TRXErrorView::UnknownHardwareType(data[1])),
                            Some(frequency) => Ok(
                                InterfaceMessage::Status {
                                    frequency,
                                    fw_version: data[2],
                                    enabled_protocols: EnabledProtocols::spec_from(
                                        data.subrange(3, 7),
                                    ),
                                },
                            ),
                        }
                    },
                    Some(InterfaceCommandCmd::SetMode) => Ok(InterfaceMessage::SetMode),
                    Some(InterfaceCommandCmd::Save) => Ok(InterfaceMessage::Save),
                    _ => Err(TRXErrorView::UnknownInterfaceMessageCommand(data[0])),
                }
            },
            _ => Err(
                TRXErrorView::UnknownSubPacketType {
                    packet_type: PacketType::InterfaceMessage,
                    sub_type: header.sub_type,
                },
            ),
        }
    }

    /// Decodes an interface message from its header and the bytes behind it.
    ///
    /// The sub-type decides. "Receiver started" is an acknowledgement whatever
    /// follows. An "interface response" echoes the command it answers in its
    /// first byte: a status reply carries the frequency, the firmware version
    /// and the four protocol masks, and needs seven bytes; the replies to "set
    /// mode" and "save" are bare acknowledgements.
    ///
    /// Errors: `UnknownSubPacketType` for any other sub-type, one that the
    /// device defines or not; `NotEnoughData` for a response without a command
    /// byte or a status reply under seven bytes; `UnknownHardwareType` for a
    /// status reply whose frequency byte is no frequency;
    /// `UnknownInterfaceMessageCommand` for a response to any other command,
    /// "reset" and "start receiver" among them.
    pub fn parse(header: PacketHeader, data: &[u8]) -> (r: Result<InterfaceMessage, TRXError>)
        ensures
            match r {
                Ok(message) => InterfaceMessage::spec_parse(header, data@) == Ok::<
                    InterfaceMessage,
                    TRXErrorView,
                >(message),
                Err(e) => InterfaceMessage::spec_parse(header, data@) == Err::<
                    InterfaceMessage,
                    TRXErrorView,
                >(e@),
            },
    {
        match InterfaceMessageSubType::from_u8(header.sub_type) {
            Some(InterfaceMessageSubType::RecStarted) => Ok(InterfaceMessage::ReceiverStarted),
            Some(InterfaceMessageSubType::InterfaceResponse) => {
                if data.len() < 1 {
                    return Err(TRXError::NotEnoughData { received: 0, expected: 1 });
                }
                match InterfaceCommandCmd::from_u8(data[0]) {
                    Some(InterfaceCommandCmd::Status) => {
                        if data.len() < 7 {
                            return Err(
                                TRXError::NotEnoughData { received: data.len(), expected: 7 },
                            );
                        }
                        match Frequency::from_u8(data[1]) {
                            None => Err(TRXError::UnknownHardwareType(data[1])),
                            Some(frequency) => Ok(
                                InterfaceMessage::Status {
                                    frequency,
                                    fw_version: data[2],
                                    enabled_protocols: EnabledProtocols::from(
                                        slice_subrange(data, 3, 7),
                                    ),
                                },
                            ),
                        }
                    },
                    Some(InterfaceCommandCmd::SetMode) => Ok(InterfaceMessage::SetMode),
                    Some(InterfaceCommandCmd::Save) => Ok(InterfaceMessage::Save),
                    _ => Err(TRXError::UnknownInterfaceMessageCommand(data[0])),
                }
            },
            _ => Err(
                TRXError::UnknownSubPacketType {
                    packet_type: PacketType::InterfaceMessage,
                    sub_type: header.sub_type,
                },
            ),
        }
    }
}

/// Temperature and humidity, as a sensor reports them.
#[derive(Clone, Copy, Debug, PartialEq, Eq, Structural)]
pub struct TempHum {
    /// The sensor's id.
    pub id: u16,
    /// The temperature in tenths of a degree Celsius.
    pub temp_tenths: i16,
    /// The relative humidity in percent.
    pub humidity: u8,
    /// The device's code for how the humidity feels.
    pub humidity_status: u8,
    /// The battery's level, 0 to 15.
    pub battery_level: u8,
    /// The strength of the received signal, 0 to 15.
    pub rssi: u8,
}

impl TempHum {
    /// The temperature that two bytes stand for, in tenths of a degree: the
    /// top bit of the first byte is the sign, the other fifteen bits are the
    /// magnitude, high byte first.
    pub open spec fn spec_temp_tenths(high: u8, low: u8) -> int {
        if high >= 0x80 {
            -((high - 0x80) * 256 + low)
        } else {
            high * 256 + low
        }
    }

    /// What `parse` makes of the bytes behind the header.
    pub open spec fn spec_parse(data: Seq<u8>) -> Result<TempHum, TRXErrorView> {
        if data.len() < 7 {
            Err(TRXErrorView::NotEnoughData { received: data.len() as usize, expected: 7 })
        } else {
            Ok(
                TempHum {
                    id: (data[0] * 256 + data[1]) as u16,
                    temp_tenths: TempHum::spec_temp_tenths(data[2], data[3]) as i16,
                    humidity: data[4],
                    humidity_status: data[5],
                    battery_level: data[6] / 16,
                    rssi: data[6] % 16,
                },
            )
        }
    }

    /// Decodes a temperature and humidity reading from the bytes behind the
    /// header. Fails with `NotEnoughData` on fewer than seven bytes.
    ///
    /// The temperature is not negative where the sign bit is clear, and not
    /// positive where it is set.
    pub fn parse(_header: PacketHeader, data: &[u8]) -> (r: Result<TempHum, TRXError>)
        ensures
            match r {
                Ok(reading) => TempHum::spec_parse(data@) == Ok::<TempHum, TRXErrorView>(reading),
                Err(e) => TempHum::spec_parse(data@) == Err::<TempHum, TRXErrorView>(e@),
            },
            r is Ok <==> data@.len() >= 7,
            r matches Ok(reading) ==> {
                &&& reading.temp_tenths == TempHum::spec_temp_tenths(data@[2], data@[3])
                &&& data@[2] & 0x80 == 0 ==> reading.temp_tenths >= 0
                &&& data@[2] & 0x80 != 0 ==> reading.temp_tenths <= 0
                &&& reading.battery_level <= 15
                &&& reading.rssi <= 15
            },
    {
        if data.len() < 7 {
            return Err(TRXError::NotEnoughData { received: data.len(), expected: 7 });
        }
        let id_high: u8 = data[0];
        let id_low: u8 = data[1];
        let id: u16 = ((id_high as u16) << 8) | (id_low as u16);
        assert(((id_high as u16) << 8) | (id_low as u16) == id_high * 256 + id_low)
            by (bit_vector);

        let high: u8 = data[2];
        let low: u8 = data[3];
        let temp_sign: u8 = high & 0x80;
        let temp_high: u8 = high & 0x7f;
        let magnitude: i16 = ((temp_high as i16) << 8) | (low as i16);
        assert(temp_sign != 0 <==> high >= 0x80) by (bit_vector)
            requires
                temp_sign == high & 0x80,
        ;
        assert(0 <= magnitude <= 0x7fff && magnitude == (if high >= 0x80 {
            high - 0x80
        } else {
            high as int
        }) * 256 + low) by (bit_vector)
            requires
                temp_high == high & 0x7f,
                magnitude == ((temp_high as i16) << 8) | (low as i16),
        ;
        let temp_tenths: i16 = if temp_sign != 0 {
            -magnitude
        } else {
            magnitude
        };

        let status: u8 = data[6];
        let battery_level: u8 = status >> 4;
        let rssi: u8 = status & 0x0f;
        assert(status >> 4 == status / 16 && status & 0x0f == status % 16) by (bit_vector);

        Ok(
            TempHum {
                id,
                temp_tenths,
                humidity: data[4],
                humidity_status: data[5],
                battery_level,
                rssi,
            },
        )
    }
}

/// A message from a sensor, as the device passes it on.
#[derive(Debug)]
pub enum ProtocolMessage {
    /// Temperature & humidity
    TempHum(TempHum),
    /// A packet of a type that has no decoder here, as it came
    NotParsed {
        /// Packet header
        header: PacketHeader,
        /// Remaining data
        data: Vec<u8>,
    },
}

/// A sensor message with its bytes as a sequence.
pub enum ProtocolMessageView {
    TempHum(TempHum),
    NotParsed { header: PacketHeader, data: Seq<u8> },
}

impl View for ProtocolMessage {
    type V = ProtocolMessageView;

    open spec fn view(&self) -> ProtocolMessageView {
        match *self {
            ProtocolMessage::TempHum(reading) => ProtocolMessageView::TempHum(reading),
            ProtocolMessage::NotParsed { header, data } => ProtocolMessageView::NotParsed {
                header,
                data: data@,
            },
        }
    }
}

/// A decoded frame, sorted by the plane it belongs to: a reply to the host's
/// own commands, or a message from a sensor.
#[derive(Debug)]
pub enum ReceivedCommand {
    InterfaceMessage(InterfaceMessage),
    ProtocolMessage(ProtocolMessage),
}

/// A decoded frame with its bytes as a sequence.
pub enum ReceivedCommandView {
    InterfaceMessage(InterfaceMessage),
    ProtocolMessage(ProtocolMessageView),
}

impl View for ReceivedCommand {
    type V = ReceivedCommandView;

    open spec fn view(&self) -> ReceivedCommandView {
        match *self {
            ReceivedCommand::InterfaceMessage(message) => ReceivedCommandView::InterfaceMessage(
                message,
            ),
            ReceivedCommand::ProtocolMessage(message) => ReceivedCommandView::ProtocolMessage(
                message@,
            ),
        }
    }
}

/// What `parse_message` makes of the bytes that follow a frame's length byte.
pub open spec fn spec_parse_message(data: Seq<u8>) -> Result<ReceivedCommandView, TRXErrorView> {
    match PacketHeader::spec_parse(data) {
        Err(e) => Err(e),
        Ok((header, body)) => match header.packet_type {
            PacketType::InterfaceMessage => match InterfaceMessage::spec_parse(header, body) {
                Ok(message) => Ok(ReceivedCommandView::InterfaceMessage(message)),
                Err(e) => Err(e),
            },
            PacketType::TempHum => match TempHum::spec_parse(body) {
                Ok(reading) => Ok(
                    ReceivedCommandView::ProtocolMessage(ProtocolMessageView::TempHum(reading)),
                ),
                Err(e) => Err(e),
            },
            _ => Ok(
                ReceivedCommandView::ProtocolMessage(
                    ProtocolMessageView::NotParsed { header, data: body },
                ),
            ),
        },
    }
}

/// Decodes what follows a frame's length byte: the header, then the body by
/// the header's packet type.
///
/// An interface message is a reply to the host. Everything else comes from a
/// sensor: a temperature and humidity reading is decoded, a packet of any
/// other known type is handed on as it came. The errors are those of the
/// header and of the two decoders.
pub fn parse_message(data: &[u8]) -> (r: Result<ReceivedCommand, TRXError>)
    ensures
        match r {
            Ok(received) => spec_parse_message(data@) == Ok::<ReceivedCommandView, TRXErrorView>(
                received@,
            ),
            Err(e) => spec_parse_message(data@) == Err::<ReceivedCommandView, TRXErrorView>(e@),
        },
{
    let (header, body) = match PacketHeader::parse(data) {
        Ok(parsed) => parsed,
        Err(e) => {
            return Err(e);
        },
    };
    match header.packet_type {
        PacketType::InterfaceMessage => match InterfaceMessage::parse(header, body) {
            Ok(message) => Ok(ReceivedCommand::InterfaceMessage(message)),
            Err(e) => Err(e),
        },
        PacketType::TempHum => match TempHum::parse(header, body) {
            Ok(reading) => Ok(ReceivedCommand::ProtocolMessage(ProtocolMessage::TempHum(reading))),
            Err(e) => Err(e),
        },
        // Catch all for the packets that have no decoder
        _ => Ok(
            ReceivedCommand::ProtocolMessage(
                ProtocolMessage::NotParsed { header, data: slice_to_vec(body) },
            ),
        ),
    }
}

/// The fourteen bytes of a control frame: the length byte, the header of an
/// interface command, the command, the frequency, the transmit power (always
/// zero), the four protocol masks and three bytes that are not used.
pub open spec fn spec_control_frame(
    seqnbr: SequenceNumber,
    cmd: InterfaceCommandCmd,
    frequency: u8,
    masks: (u8, u8, u8, u8),
) -> Seq<u8> {
    seq![
        0x0Du8, 0x00, 0x00, seqnbr,
        cmd.to_u8(), frequency, 0x00,
        masks.0, masks.1, masks.2, masks.3, 0x00, 0x00, 0x00,
    ]
}

/// The length byte of a control frame is 13, and counts the bytes behind it.
pub proof fn lemma_control_frame_length(
    seqnbr: SequenceNumber,
    cmd: InterfaceCommandCmd,
    frequency: u8,
    masks: (u8, u8, u8, u8),
)
    ensures
        spec_control_frame(seqnbr, cmd, frequency, masks).len() == 14,
        spec_control_frame(seqnbr, cmd, frequency, masks)[0] == 0x0D,
        spec_control_frame(seqnbr, cmd, frequency, masks)[0] == spec_control_frame(
            seqnbr,
            cmd,
            frequency,
            masks,
        ).len() - 1,
{
}

/// The header of every control frame, with the given sequence number.
fn control_header(seqnbr: SequenceNumber) -> (header: PacketHeader)
    ensures
        header == (PacketHeader {
            packet_type: PacketType::InterfaceControl,
            sub_type: 0x00,
            seqnbr,
        }),
{
    PacketHeader {
        packet_type: PacketType::InterfaceControl,
        sub_type: InterfaceControlSubType::InterfaceCommand.to_u8(),
        seqnbr,
    }
}

/// The frame that resets the device.
pub fn reset(seqnbr: SequenceNumber) -> (v: Vec<u8>)
    ensures
        v@ == spec_control_frame(seqnbr, InterfaceCommandCmd::Reset, 0, (0, 0, 0, 0)),
        v@.len() == 14,
        v@[0] == 0x0D,
        v@[0] == v@.len() - 1,
{
    let command = InterfaceCommand {
        header: control_header(seqnbr),
        cmd: InterfaceCommandCmd::Reset,
        frequency: 0,
        xmitpwr: 0,
        extra: [0, 0, 0, 0, 0, 0, 0],
    };
    let v = command.to_vec();
    assert(v@ =~= spec_control_frame(seqnbr, InterfaceCommandCmd::Reset, 0, (0, 0, 0, 0)));
    v
}

/// The frame that asks the device for its settings.
pub fn get_status(seqnbr: SequenceNumber) -> (v: Vec<u8>)
    ensures
        v@ == spec_control_frame(seqnbr, InterfaceCommandCmd::Status, 0, (0, 0, 0, 0)),
        v@.len() == 14,
        v@[0] == 0x0D,
        v@[0] == v@.len() - 1,
{
    let command = InterfaceCommand {
        header: control_header(seqnbr),
        cmd: InterfaceCommandCmd::Status,
        frequency: 0,
        xmitpwr: 0,
        extra: [0, 0, 0, 0, 0, 0, 0],
    };
    let v = command.to_vec();
    assert(v@ =~= spec_control_frame(seqnbr, InterfaceCommandCmd::Status, 0, (0, 0, 0, 0)));
    v
}

/// The frame that starts the receiver.
pub fn start_receiver(seqnbr: SequenceNumber) -> (v: Vec<u8>)
    ensures
        v@ == spec_control_frame(seqnbr, InterfaceCommandCmd::StartReceiver, 0, (0, 0, 0, 0)),
        v@.len() == 14,
        v@[0] == 0x0D,
        v@[0] == v@.len() - 1,
{
    let command = InterfaceCommand {
        header: control_header(seqnbr),
        cmd: InterfaceCommandCmd::StartReceiver,
        frequency: 0,
        xmitpwr: 0,
        extra: [0, 0, 0, 0, 0, 0, 0],
    };
    let v = command.to_vec();
    assert(v@ =~= spec_control_frame(seqnbr, InterfaceCommandCmd::StartReceiver, 0, (0, 0, 0, 0)));
    v
}

/// The frame that sets the frequency and the four protocol masks. The
/// transmit power is left at zero.
pub fn set_mode(
    seqnbr: SequenceNumber,
    frequency: Frequency,
    protos_1: Protocols1,
    protos_2: Protocols2,
    protos_3: Protocols3,
    protos_4: Protocols4,
) -> (v: Vec<u8>)
    ensures
        v@ == spec_control_frame(
            seqnbr,
            InterfaceCommandCmd::SetMode,
            frequency.to_u8(),
            (protos_1.bits(), protos_2.bits(), protos_3.bits(), protos_4.bits()),
        ),
        v@.len() == 14,
        v@[0] == 0x0D,
        v@[0] == v@.len() - 1,
{
    let command = InterfaceCommand {
        header: control_header(seqnbr),
        cmd: InterfaceCommandCmd::SetMode,
        frequency: frequency.to_u8(),
        xmitpwr: 0,
        extra: [protos_1.bits(), protos_2.bits(), protos_3.bits(), protos_4.bits(), 0, 0, 0],
    };
    let v = command.to_vec();
    assert(v@ =~= spec_control_frame(
        seqnbr,
        InterfaceCommandCmd::SetMode,
        frequency.to_u8(),
        (protos_1.bits(), protos_2.bits(), protos_3.bits(), protos_4.bits()),
    ));
    v
}

/// The frame that makes the device keep its settings.
pub fn save(seqnbr: SequenceNumber) -> (v: Vec<u8>)
    ensures
        v@ == spec_control_frame(seqnbr, InterfaceCommandCmd::Save, 0, (0, 0, 0, 0)),
        v@.len() == 14,
        v@[0] == 0x0D,
        v@[0] == v@.len() - 1,
{
    let command = InterfaceCommand {
        header: control_header(seqnbr),
        cmd: InterfaceCommandCmd::Save,
        frequency: 0,
        xmitpwr: 0,
        extra: [0, 0, 0, 0, 0, 0, 0],
    };
    let v = command.to_vec();
    assert(v@ =~= spec_control_frame(seqnbr, InterfaceCommandCmd::Save, 0, (0, 0, 0, 0)));
    v
}

} // verus!

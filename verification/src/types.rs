//! Response types, negative-acknowledgement reasons and the bounded
//! parameter-data payload.

use crate::consts::RDM_MAX_PARAMETER_DATA_LENGTH;
use vstd::prelude::*;

verus! {

/// The parameter data of one packet. Capacity-bounded at the API
/// boundaries: every packet carries at most
/// [`RDM_MAX_PARAMETER_DATA_LENGTH`] payload bytes.
pub type DataPack = Vec<u8>;

/// Holds of every payload the codec accepts or produces.
pub open spec fn data_pack_wf(s: Seq<u8>) -> bool {
    s.len() <= RDM_MAX_PARAMETER_DATA_LENGTH
}

/// Response status of an RDM package.
#[derive(Copy, Clone, Debug, Eq, PartialEq, Structural)]
pub enum ResponseType {
    /// The request was acknowledged.
    ResponseTypeAck,
    /// The request was acknowledged but the result isn't ready yet.
    ResponseTypeAckTimer,
    /// The request was not acknowledged.
    ResponseTypeNackReason,
    /// The request was acknowledged but the response does not fit into a single response.
    ResponseTypeAckOverflow,
}

/// Wire value of a response type.
pub open spec fn response_type_u8(t: ResponseType) -> u8 {
    match t {
        ResponseType::ResponseTypeAck => 0x00,
        ResponseType::ResponseTypeAckTimer => 0x01,
        ResponseType::ResponseTypeNackReason => 0x02,
        ResponseType::ResponseTypeAckOverflow => 0x03,
    }
}

/// The response type a wire byte stands for, if any.
pub open spec fn spec_response_type_from_u8(value: u8) -> Option<ResponseType> {
    if value == 0x00 {
        Some(ResponseType::ResponseTypeAck)
    } else if value == 0x01 {
        Some(ResponseType::ResponseTypeAckTimer)
    } else if value == 0x02 {
        Some(ResponseType::ResponseTypeNackReason)
    } else if value == 0x03 {
        Some(ResponseType::ResponseTypeAckOverflow)
    } else {
        None
    }
}

impl ResponseType {
    /// The wire value of this response type.
    pub fn as_u8(&self) -> (r: u8)
        ensures
            r == response_type_u8(*self),
    {
        match self {
            Self::ResponseTypeAck => 0x00,
            Self::ResponseTypeAckTimer => 0x01,
            Self::ResponseTypeNackReason => 0x02,
            Self::ResponseTypeAckOverflow => 0x03,
        }
    }

    /// Parses a response type from its wire value.
    /// Returns `None` if no response type matches.
    pub fn from_u8(value: u8) -> (r: Option<Self>)
        ensures
            r == spec_response_type_from_u8(value),
    {
        match value {
            0x00 => Some(Self::ResponseTypeAck),
            0x01 => Some(Self::ResponseTypeAckTimer),
            0x02 => Some(Self::ResponseTypeNackReason),
            0x03 => Some(Self::ResponseTypeAckOverflow),
            _ => None,
        }
    }
}

#[derive(Copy, Clone, Debug, Eq, PartialEq, Structural)]
pub enum NackReason {
    UnknownPid,
    FormatError,
    HardwareFault,
    ProxyReject,
    WriteProtect,
    UnsupportedCommandClass,
    DataOutOfRange,
    BufferFull,
    PacketSizeUnsupported,
    SubDeviceOutOfRange,
    ProxyBufferFull,
}

/// Wire value of a negative-acknowledgement reason.
pub open spec fn nack_reason_u16(n: NackReason) -> u16 {
    match n {
        NackReason::UnknownPid => 0x0000,
        NackReason::FormatError => 0x0001,
        NackReason::HardwareFault => 0x0002,
        NackReason::ProxyReject => 0x0003,
        NackReason::WriteProtect => 0x0004,
        NackReason::UnsupportedCommandClass => 0x0005,
        NackReason::DataOutOfRange => 0x0006,
        NackReason::BufferFull => 0x0007,
        NackReason::PacketSizeUnsupported => 0x0008,
        NackReason::SubDeviceOutOfRange => 0x0009,
        NackReason::ProxyBufferFull => 0x000A,
    }
}

/// The reason a wire value stands for, if any.
pub open spec fn spec_nack_reason_from_u16(value: u16) -> Option<NackReason> {
    if value == 0x0000 {
        Some(NackReason::UnknownPid)
    } else if value == 0x0001 {
        Some(NackReason::FormatError)
    } else if value == 0x0002 {
        Some(NackReason::HardwareFault)
    } else if value == 0x0003 {
        Some(NackReason::ProxyReject)
    } else if value == 0x0004 {
        Some(NackReason::WriteProtect)
    } else if value == 0x0005 {
        Some(NackReason::UnsupportedCommandClass)
    } else if value == 0x0006 {
        Some(NackReason::DataOutOfRange)
    } else if value == 0x0007 {
        Some(NackReason::BufferFull)
    } else if value == 0x0008 {
        Some(NackReason::PacketSizeUnsupported)
    } else if value == 0x0009 {
        Some(NackReason::SubDeviceOutOfRange)
    } else if value == 0x000A {
        Some(NackReason::ProxyBufferFull)
    } else {
        None
    }
}

impl NackReason {
    /// The wire value of this reason.
    pub fn as_u16(&self) -> (r: u16)
        ensures
            r == nack_reason_u16(*self),
    {
        match self {
            Self::UnknownPid => 0x0000,
            Self::FormatError => 0x0001,
            Self::HardwareFault => 0x0002,
            Self::ProxyReject => 0x0003,
            Self::WriteProtect => 0x0004,
            Self::UnsupportedCommandClass => 0x0005,
            Self::DataOutOfRange => 0x0006,
            Self::BufferFull => 0x0007,
            Self::PacketSizeUnsupported => 0x0008,
            Self::SubDeviceOutOfRange => 0x0009,
            Self::ProxyBufferFull => 0x000A,
        }
    }

    /// Parses a reason from its wire value.
    /// Returns `None` if no reason matches.
    pub fn from_u16(value: u16) -> (r: Option<Self>)
        ensures
            r == spec_nack_reason_from_u16(value),
    {
        match value {
            0x0000 => Some(Self::UnknownPid),
            0x0001 => Some(Self::FormatError),
            0x0002 => Some(Self::HardwareFault),
            0x0003 => Some(Self::ProxyReject),
            0x0004 => Some(Self::WriteProtect),
            0x0005 => Some(Self::UnsupportedCommandClass),
            0x0006 => Some(Self::DataOutOfRange),
            0x0007 => Some(Self::BufferFull),
            0x0008 => Some(Self::PacketSizeUnsupported),
            0x0009 => Some(Self::SubDeviceOutOfRange),
            0x000A => Some(Self::ProxyBufferFull),
            _ => None,
        }
    }

    /// The two big-endian payload bytes of a negative acknowledgement.
    pub open spec fn spec_serialize(&self) -> Seq<u8> {
        seq![
            (nack_reason_u16(*self) / 0x100) as u8,
            (nack_reason_u16(*self) % 0x100) as u8,
        ]
    }

    /// Serializes the reason as a two-byte big-endian payload.
    pub fn serialize(&self) -> (r: DataPack)
        ensures
            r@ == self.spec_serialize(),
    {
        let value = self.as_u16();
        let mut data: DataPack = Vec::new();
        data.push(crate::utils::be16_hi(value));
        data.push(crate::utils::be16_lo(value));
        proof {
            assert(data@ =~= self.spec_serialize());
        }
        data
    }
}

} // verus!

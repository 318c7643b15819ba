//! Wire-level constants of DMX512 and RDM.

use vstd::prelude::*;

verus! {

/// Start code of a plain DMX512 lighting frame.
pub const DMX_NULL_START: u8 = 0x00;

/// Start code + 512 byte package.
pub const DMX_MAX_PACKAGE_SIZE: usize = 513;

/// Start code of an RDM packet.
pub const SC_RDM: u8 = 0xCC;

/// Sub-start code of an RDM packet.
pub const SC_SUB_MESSAGE: u8 = 0x01;

/// Preamble byte of a discovery response.
pub const PREAMBLE_BYTE: u8 = 0xFE;

/// Separator byte that ends the preamble of a discovery response.
pub const SEPARATOR_BYTE: u8 = 0xAA;

/// The 48-bit all-ones broadcast address.
pub const BROADCAST_UID: u64 = 0xFFFF_FFFF_FFFF;

/// Baud rate of the RS-485 bus.
pub const DMX_BAUD: u32 = 250_000;

/// Length of the line break that delimits frames, in microseconds.
pub const BREAK_MICROS: u64 = 200;

/// Length of the mark after break, in microseconds.
pub const MAB_MICROS: u64 = 48;

/// Upper bound on the duration of a full DMX512 frame, in milliseconds.
pub const MAXIMUM_DMX512_MILLIS: usize = 1250;

/// Upper bound on the gap between two slots, in milliseconds.
pub const INTER_SLOT_TIME_MILLIS: usize = 2;

/// Smallest structured RDM packet: 24 header bytes plus 2 checksum bytes
/// minus the shortest tolerated truncation; packets below this are rejected.
pub const RDM_MIN_PACKAGE_SIZE: usize = 22;

/// Largest structured RDM packet: 24 header bytes, 231 parameter bytes and
/// 2 checksum bytes.
pub const RDM_MAX_PACKAGE_SIZE: usize = 257;

/// Encoded discovery response, excluding preamble and separator.
pub const RDM_DISCOVERY_RESPONSE_SIZE: usize = 16;

/// Encoded discovery response, including 7 preamble bytes and the separator.
pub const RDM_MAX_DISCOVERY_RESPONSE_SIZE: usize = 24;

/// Largest parameter-data payload of a structured RDM packet.
pub const RDM_MAX_PARAMETER_DATA_LENGTH: usize = 231;

/// At most this many status messages are served per request.
pub const RDM_MAX_STATUS_PACKAGES_PER_REQUEST: usize = 25;

/// A serialized status message is 9 bytes.
pub const RDM_STATUS_MESSAGE_SIZE: usize = 9;

/// A serialized device-info block is 19 bytes.
pub const RDM_DEVICE_INFO_SIZE: usize = 0x13;

/// Upper bound on parameter ids collected from one supported-parameters reply.
pub const RDM_MAX_SUPPORTED_PARAMETERS_PER_REQUEST: usize = 128;

} // verus!

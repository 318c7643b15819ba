//! 48-bit device identifiers and the three packet address kinds.

use crate::consts::BROADCAST_UID;
use crate::rdm_types::DeserializationError;
use crate::utils::{be16, be16_decode, be16_hi, be16_lo, be32, be32_decode};
use vstd::prelude::*;

verus! {

/// The unique id that is used as a source id in the packages.
/// There shouldn't be multiple devices with same unique id.
/// The manufacturer uids are assigned by the ESTA.
#[derive(Debug, Copy, Clone, Eq, PartialEq, Structural)]
pub struct UniqueIdentifier {
    pub manufacturer_uid: u16,
    pub device_uid: u32,
}

/// Neither half of a device id is all-ones: those halves encode the
/// broadcast addresses.
pub open spec fn uid_wf(uid: UniqueIdentifier) -> bool {
    uid.manufacturer_uid != 0xFFFF && uid.device_uid != 0xFFFF_FFFF
}

/// The 48-bit value of a device id: manufacturer id in the high 16 bits,
/// device id in the low 32.
pub open spec fn uid_u64(uid: UniqueIdentifier) -> u64 {
    (uid.manufacturer_uid * 0x1_0000_0000 + uid.device_uid) as u64
}

/// The six big-endian bytes of a device id.
pub open spec fn spec_uid_bytes(uid: UniqueIdentifier) -> Seq<u8> {
    seq![
        (uid.manufacturer_uid / 0x100) as u8,
        (uid.manufacturer_uid % 0x100) as u8,
        (uid.device_uid / 0x1000000) as u8,
        ((uid.device_uid / 0x10000) % 0x100) as u8,
        ((uid.device_uid / 0x100) % 0x100) as u8,
        (uid.device_uid % 0x100) as u8,
    ]
}

impl UniqueIdentifier {
    /// Builds a device id; rejects halves that would encode a broadcast.
    pub fn new(manufacturer_uid: u16, device_uid: u32) -> (r: Result<
        Self,
        DeserializationError,
    >)
        ensures
            r is Ok <==> manufacturer_uid != 0xFFFF && device_uid != 0xFFFF_FFFF,
            r is Ok ==> r.unwrap() == (UniqueIdentifier { manufacturer_uid, device_uid }),
            r is Ok ==> uid_wf(r.unwrap()),
    {
        if device_uid == u32::MAX || manufacturer_uid == u16::MAX {
            return Err(DeserializationError);
        }

        Ok(UniqueIdentifier { manufacturer_uid, device_uid })
    }

    pub fn manufacturer_uid(&self) -> (r: u16)
        ensures
            r == self.manufacturer_uid,
    {
        self.manufacturer_uid
    }

    pub fn device_uid(&self) -> (r: u32)
        ensures
            r == self.device_uid,
    {
        self.device_uid
    }

    /// Replaces the manufacturer id; rejects the all-ones value.
    pub fn set_manufacturer_uid(&mut self, manufacturer_uid: u16) -> (r: Result<
        (),
        DeserializationError,
    >)
        ensures
            r is Ok <==> manufacturer_uid != 0xFFFF,
            r is Ok ==> *final(self) == (UniqueIdentifier {
                manufacturer_uid,
                ..*old(self)
            }),
            r is Err ==> *final(self) == *old(self),
    {
        if manufacturer_uid == u16::MAX {
            return Err(DeserializationError);
        }

        self.manufacturer_uid = manufacturer_uid;
        Ok(())
    }

    /// Replaces the device id; rejects the all-ones value.
    pub fn set_device_uid(&mut self, device_uid: u32) -> (r: Result<(), DeserializationError>)
        ensures
            r is Ok <==> device_uid != 0xFFFF_FFFF,
            r is Ok ==> *final(self) == (UniqueIdentifier { device_uid, ..*old(self) }),
            r is Err ==> *final(self) == *old(self),
    {
        if device_uid == u32::MAX {
            return Err(DeserializationError);
        }

        self.device_uid = device_uid;
        Ok(())
    }

    /// The six big-endian bytes of this device id.
    pub fn to_bytes(&self) -> (r: Vec<u8>)
        ensures
            r@ == spec_uid_bytes(*self),
            r@.len() == 6,
    {
        let mut buffer: Vec<u8> = Vec::new();
        buffer.push(be16_hi(self.manufacturer_uid));
        buffer.push(be16_lo(self.manufacturer_uid));
        buffer.push((self.device_uid / 0x1000000) as u8);
        buffer.push((self.device_uid / 0x10000 % 0x100) as u8);
        buffer.push((self.device_uid / 0x100 % 0x100) as u8);
        buffer.push((self.device_uid % 0x100) as u8);
        proof {
            assert(buffer@ =~= spec_uid_bytes(*self));
        }
        buffer
    }

    /// Splits a 48-bit value into its two halves; rejects a low half that
    /// would encode a broadcast. Bits past the 48th are ignored.
    pub fn from_u64(value: u64) -> (r: Result<Self, DeserializationError>)
        ensures
            r is Ok <==> value % 0x1_0000_0000 != 0xFFFF_FFFF,
            r is Ok ==> r.unwrap() == (UniqueIdentifier {
                manufacturer_uid: ((value / 0x1_0000_0000) % 0x1_0000) as u16,
                device_uid: (value % 0x1_0000_0000) as u32,
            }),
    {
        let manufacturer_uid = ((value / 0x1_0000_0000) % 0x1_0000) as u16;
        let device_uid = (value % 0x1_0000_0000) as u32;

        if device_uid == u32::MAX {
            return Err(DeserializationError);
        }

        Ok(Self { manufacturer_uid, device_uid })
    }

    /// The 48-bit value of this device id.
    pub fn to_u64(&self) -> (r: u64)
        ensures
            r == uid_u64(*self),
    {
        self.manufacturer_uid as u64 * 0x1_0000_0000 + self.device_uid as u64
    }
}

#[derive(Debug, Copy, Clone, Eq, PartialEq, Structural)]
pub enum PackageAddress {
    /// Broadcast to all devices.
    Broadcast,
    /// Broadcast to all devices from a specific manufacturer identified by the manufacturer id
    /// in the u16.
    ManufacturerBroadcast(u16),
    /// Send package to a specific device.
    Device(UniqueIdentifier),
}

/// A manufacturer broadcast never carries the all-ones manufacturer id
/// (that encodes the global broadcast), and a device address carries a
/// well-formed device id.
pub open spec fn addr_wf(a: PackageAddress) -> bool {
    match a {
        PackageAddress::Broadcast => true,
        PackageAddress::ManufacturerBroadcast(manufacturer_uid) => manufacturer_uid != 0xFFFF,
        PackageAddress::Device(uid) => uid_wf(uid),
    }
}

/// The address six big-endian bytes stand for: an all-ones low half is a
/// broadcast, global exactly when the manufacturer id is all-ones too;
/// everything else is a device address.
pub open spec fn spec_addr_from_bytes(s: Seq<u8>) -> PackageAddress
    recommends
        s.len() == 6,
{
    let manufacturer_uid = be16(s[0], s[1]);
    let device_uid = be32(s[2], s[3], s[4], s[5]);
    if device_uid == 0xFFFF_FFFF {
        if manufacturer_uid == 0xFFFF {
            PackageAddress::Broadcast
        } else {
            PackageAddress::ManufacturerBroadcast(manufacturer_uid)
        }
    } else {
        PackageAddress::Device(UniqueIdentifier { manufacturer_uid, device_uid })
    }
}

/// The six big-endian bytes of an address.
pub open spec fn spec_addr_bytes(a: PackageAddress) -> Seq<u8> {
    match a {
        PackageAddress::Broadcast => seq![0xFFu8, 0xFFu8, 0xFFu8, 0xFFu8, 0xFFu8, 0xFFu8],
        PackageAddress::ManufacturerBroadcast(manufacturer_uid) => seq![
            (manufacturer_uid / 0x100) as u8,
            (manufacturer_uid % 0x100) as u8,
            0xFFu8,
            0xFFu8,
            0xFFu8,
            0xFFu8,
        ],
        PackageAddress::Device(uid) => spec_uid_bytes(uid),
    }
}

/// An address is a broadcast unless it names a single device.
pub open spec fn addr_is_broadcast(a: PackageAddress) -> bool {
    !(a is Device)
}

/// The 48-bit value of an address.
pub open spec fn addr_u64(a: PackageAddress) -> u64 {
    match a {
        PackageAddress::Broadcast => BROADCAST_UID,
        PackageAddress::ManufacturerBroadcast(manufacturer_uid) => (manufacturer_uid
            * 0x1_0000_0000 + 0xFFFF_FFFF) as u64,
        PackageAddress::Device(uid) => uid_u64(uid),
    }
}

/// An address always encodes to six bytes.
pub proof fn lemma_addr_bytes_len(a: PackageAddress)
    ensures
        spec_addr_bytes(a).len() == 6,
{
    match a {
        PackageAddress::Broadcast => {
        },
        PackageAddress::ManufacturerBroadcast(_) => {
        },
        PackageAddress::Device(_) => {
        },
    }
}

/// Encoding six address bytes and reading them back yields the address,
/// for every well-formed address.
pub proof fn lemma_addr_bytes_roundtrip(a: PackageAddress)
    requires
        addr_wf(a),
    ensures
        spec_addr_from_bytes(spec_addr_bytes(a)) == a,
{
    match a {
        PackageAddress::Broadcast => {
        },
        PackageAddress::ManufacturerBroadcast(manufacturer_uid) => {
            crate::utils::lemma_be16_roundtrip(manufacturer_uid);
        },
        PackageAddress::Device(uid) => {
            crate::utils::lemma_be16_roundtrip(uid.manufacturer_uid);
            crate::utils::lemma_be32_roundtrip(uid.device_uid);
        },
    }
}

impl PackageAddress {
    /// Parses an address from six big-endian bytes.
    pub fn from_byte_slice(buffer: &[u8]) -> (r: PackageAddress)
        requires
            buffer@.len() == 6,
        ensures
            r == spec_addr_from_bytes(buffer@),
    {
        let manufacturer_uid = be16_decode(buffer[0], buffer[1]);
        let device_uid = be32_decode(buffer[2], buffer[3], buffer[4], buffer[5]);

        if device_uid == u32::MAX {
            if manufacturer_uid == u16::MAX {
                Self::Broadcast
            } else {
                Self::ManufacturerBroadcast(manufacturer_uid)
            }
        } else {
            Self::Device(UniqueIdentifier { manufacturer_uid, device_uid })
        }
    }

    /// Parses an address from six big-endian bytes.
    pub fn from_bytes(buffer: &Vec<u8>) -> (r: PackageAddress)
        requires
            buffer@.len() == 6,
        ensures
            r == spec_addr_from_bytes(buffer@),
    {
        Self::from_byte_slice(buffer.as_slice())
    }

    /// The six big-endian bytes of this address.
    pub fn to_bytes(&self) -> (r: Vec<u8>)
        ensures
            r@ == spec_addr_bytes(*self),
            r@.len() == 6,
    {
        match self {
            Self::Broadcast => {
                let mut buffer: Vec<u8> = Vec::new();
                buffer.push(0xFF);
                buffer.push(0xFF);
                buffer.push(0xFF);
                buffer.push(0xFF);
                buffer.push(0xFF);
                buffer.push(0xFF);
                proof {
                    assert(buffer@ =~= spec_addr_bytes(*self));
                }
                buffer
            },
            Self::ManufacturerBroadcast(manufacturer_uid) => {
                let mut buffer: Vec<u8> = Vec::new();
                buffer.push(be16_hi(*manufacturer_uid));
                buffer.push(be16_lo(*manufacturer_uid));
                buffer.push(0xFF);
                buffer.push(0xFF);
                buffer.push(0xFF);
                buffer.push(0xFF);
                proof {
                    assert(buffer@ =~= spec_addr_bytes(*self));
                }
                buffer
            },
            Self::Device(uid) => uid.to_bytes(),
        }
    }

    /// True for both broadcast kinds, false for a device address.
    pub fn is_broadcast(&self) -> (r: bool)
        ensures
            r == addr_is_broadcast(*self),
    {
        match self {
            PackageAddress::Broadcast => true,
            PackageAddress::ManufacturerBroadcast(_) => true,
            PackageAddress::Device(_) => false,
        }
    }

    /// Splits a 48-bit value into an address; rejects values past 48 bits.
    pub fn from_u64(value: u64) -> (r: Result<Self, DeserializationError>)
        ensures
            r is Ok <==> value <= BROADCAST_UID,
            r is Ok ==> r.unwrap() == {
                let manufacturer_uid = ((value / 0x1_0000_0000) % 0x1_0000) as u16;
                let device_uid = (value % 0x1_0000_0000) as u32;
                if device_uid == 0xFFFF_FFFF {
                    if manufacturer_uid == 0xFFFF {
                        PackageAddress::Broadcast
                    } else {
                        PackageAddress::ManufacturerBroadcast(manufacturer_uid)
                    }
                } else {
                    PackageAddress::Device(UniqueIdentifier { manufacturer_uid, device_uid })
                }
            },
    {
        if value > BROADCAST_UID {
            return Err(DeserializationError);
        }

        let manufacturer_uid = ((value / 0x1_0000_0000) % 0x1_0000) as u16;
        let device_uid = (value % 0x1_0000_0000) as u32;

        if device_uid == u32::MAX {
            if manufacturer_uid == u16::MAX {
                return Ok(Self::Broadcast);
            }

            return Ok(Self::ManufacturerBroadcast(manufacturer_uid));
        }

        Ok(Self::Device(UniqueIdentifier { manufacturer_uid, device_uid }))
    }

    /// The 48-bit value of this address.
    pub fn to_u64(&self) -> (r: u64)
        ensures
            r == addr_u64(*self),
    {
        match self {
            PackageAddress::Broadcast => BROADCAST_UID,
            PackageAddress::ManufacturerBroadcast(manufacturer_uid) => {
                *manufacturer_uid as u64 * 0x1_0000_0000 + 0xFFFF_FFFFu64
            },
            PackageAddress::Device(uid) => uid.to_u64(),
        }
    }
}

} // verus!

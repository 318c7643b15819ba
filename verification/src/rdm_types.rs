//! Typed parameter payloads: start address, discovery-mute reply, status
//! messages and device info.

use crate::consts::{RDM_DEVICE_INFO_SIZE, RDM_STATUS_MESSAGE_SIZE};
use crate::types::DataPack;
use crate::unique_identifier::{PackageAddress, UniqueIdentifier};
use crate::utils::{be16, be16_decode, be16_hi, be16_lo, be32, be32_decode};
use vstd::prelude::*;

verus! {

/// Raised when a typed payload cannot be read from its bytes.
#[derive(Debug, Copy, Clone, Eq, PartialEq, Structural)]
pub struct DeserializationError;

#[derive(Debug, Clone, Copy, Eq, PartialEq, Structural)]
pub enum DmxStartAddress {
    /// The requested device has a dmx footprint of 0.
    NoAddress,
    /// The requested device does allocate dmx addresses.
    Address(u16),
}

/// A start address is either the no-address marker or a slot in 1..=512.
pub open spec fn start_address_wf(a: DmxStartAddress) -> bool {
    match a {
        DmxStartAddress::NoAddress => true,
        DmxStartAddress::Address(address) => 1 <= address <= 512,
    }
}

/// Wire value of a start address: 0xFFFF stands for no address.
pub open spec fn start_address_u16(a: DmxStartAddress) -> u16 {
    match a {
        DmxStartAddress::NoAddress => 0xFFFF,
        DmxStartAddress::Address(address) => address,
    }
}

/// The start address a wire value stands for: 0xFFFF is the no-address
/// marker, 1..=512 a slot, everything else is rejected.
pub open spec fn spec_start_address_from_u16(value: u16) -> Option<DmxStartAddress> {
    if value == 0xFFFF {
        Some(DmxStartAddress::NoAddress)
    } else if 1 <= value <= 512 {
        Some(DmxStartAddress::Address(value))
    } else {
        None
    }
}

impl DmxStartAddress {
    /// The wire value of this start address.
    pub fn as_u16(&self) -> (r: u16)
        ensures
            r == start_address_u16(*self),
    {
        match self {
            DmxStartAddress::Address(address) => *address,
            DmxStartAddress::NoAddress => 0xFFFF,
        }
    }

    /// Parses a start address from a wire value; rejects values outside
    /// 1..=512 that are not the no-address marker.
    pub fn from_u16(start_address: u16) -> (r: Result<Self, DeserializationError>)
        ensures
            r is Ok <==> spec_start_address_from_u16(start_address) is Some,
            r is Ok ==> r.unwrap() == spec_start_address_from_u16(start_address).unwrap(),
            r is Ok ==> start_address_wf(r.unwrap()),
    {
        if start_address == 0xFFFF {
            return Ok(Self::NoAddress);
        }
        if start_address < 1 || start_address > 512 {
            return Err(DeserializationError);
        }
        Ok(Self::Address(start_address))
    }

    /// Parses a start address from a two-byte big-endian payload.
    /// Succeeds exactly on a payload of length 2 whose value is the
    /// no-address marker or lies in 1..=512.
    pub fn deserialize(data: &[u8]) -> (r: Result<Self, DeserializationError>)
        ensures
            r is Ok <==> data@.len() == 2 && spec_start_address_from_u16(
                be16(data@[0], data@[1]),
            ) is Some,
            r is Ok ==> r.unwrap() == spec_start_address_from_u16(
                be16(data@[0], data@[1]),
            ).unwrap(),
            r is Ok ==> start_address_wf(r.unwrap()),
    {
        if data.len() != 2 {
            return Err(DeserializationError);
        }
        Self::from_u16(be16_decode(data[0], data[1]))
    }

    /// Serializes the start address as its two-byte big-endian wire value.
    pub fn serialize(&self) -> (r: DataPack)
        ensures
            r@ == seq![
                (start_address_u16(*self) / 0x100) as u8,
                (start_address_u16(*self) % 0x100) as u8,
            ],
    {
        let value = self.as_u16();
        let mut data: DataPack = Vec::new();
        data.push(be16_hi(value));
        data.push(be16_lo(value));
        proof {
            assert(data@ =~= seq![
                (start_address_u16(*self) / 0x100) as u8,
                (start_address_u16(*self) % 0x100) as u8,
            ]);
        }
        data
    }
}

/// Response to discovery mute/unmute requests.
#[derive(Debug, Clone, Copy, Eq, PartialEq, Structural)]
pub struct DiscoveryMuteResponse {
    /// The responder is a proxy device.
    pub managed_proxy: bool,
    /// The responder supports sub devices.
    pub sub_device: bool,
    /// The responder is not operational before receiving a firmware update.
    pub boot_loader: bool,
    /// A proxy device has responded on behalf of another device.
    pub proxy_device: bool,
    /// Included if the responding device contains multiple responder ports.
    /// It is the UID of the primary port of the device.
    pub binding_uid: Option<UniqueIdentifier>,
}

/// The 16-bit control field: bit 0 managed proxy, bit 1 sub device,
/// bit 2 boot loader, bit 3 proxy device, bits 4..=15 reserved as zero.
/// On the wire the field is big-endian, so all four flags sit in the
/// second byte.
pub open spec fn control_field_lo(r: DiscoveryMuteResponse) -> u8 {
    ((if r.managed_proxy {
        1int
    } else {
        0int
    }) + (if r.sub_device {
        2int
    } else {
        0int
    }) + (if r.boot_loader {
        4int
    } else {
        0int
    }) + (if r.proxy_device {
        8int
    } else {
        0int
    })) as u8
}

/// Serialized form: two control-field bytes, then the binding UID when
/// one is present.
pub open spec fn spec_mute_response_bytes(r: DiscoveryMuteResponse) -> Seq<u8> {
    match r.binding_uid {
        None => seq![0u8, control_field_lo(r)],
        Some(uid) => seq![0u8, control_field_lo(r)] + crate::unique_identifier::spec_uid_bytes(uid),
    }
}

impl DiscoveryMuteResponse {
    /// Parses a mute/unmute reply: a big-endian control field, optionally
    /// followed by a 6-byte binding UID when the payload is 8 bytes long.
    /// Fails on a payload shorter than 2 bytes and on a binding UID that
    /// is not a device address.
    pub fn deserialize(data: &[u8]) -> (r: Result<Self, DeserializationError>)
        ensures
            r is Ok ==> {
                let v = r.unwrap();
                &&& v.managed_proxy == (data@[1] as nat % 2 == 1)
                &&& v.sub_device == (data@[1] as nat / 2 % 2 == 1)
                &&& v.boot_loader == (data@[1] as nat / 4 % 2 == 1)
                &&& v.proxy_device == (data@[1] as nat / 8 % 2 == 1)
            },
            r is Ok ==> data@.len() >= 2,
            data@.len() < 2 ==> r is Err,
            data@.len() >= 2 && data@.len() != 8 ==> r is Ok,
            data@.len() == 8 ==> (r is Ok <==> crate::unique_identifier::spec_addr_from_bytes(
                data@.subrange(2, 8),
            ) is Device),
            r is Ok ==> match r.unwrap().binding_uid {
                None => true,
                Some(uid) => {
                    &&& data@.len() == 8
                    &&& crate::unique_identifier::spec_addr_from_bytes(data@.subrange(2, 8))
                        == PackageAddress::Device(uid)
                },
            },
            r is Ok && data@.len() == 8 ==> r.unwrap().binding_uid is Some,
            r is Ok && data@.len() != 8 ==> r.unwrap().binding_uid is None,
    {
        if data.len() < 2 {
            return Err(DeserializationError);
        }

        let flags = data[1];
        let mut response = Self {
            managed_proxy: flags % 2 == 1,
            sub_device: flags / 2 % 2 == 1,
            boot_loader: flags / 4 % 2 == 1,
            proxy_device: flags / 8 % 2 == 1,
            binding_uid: None,
        };

        if data.len() == 8 {
            let mut uid_bytes: Vec<u8> = Vec::new();
            uid_bytes.push(data[2]);
            uid_bytes.push(data[3]);
            uid_bytes.push(data[4]);
            uid_bytes.push(data[5]);
            uid_bytes.push(data[6]);
            uid_bytes.push(data[7]);
            proof {
                assert(uid_bytes@ =~= data@.subrange(2, 8));
            }
            let binding = match PackageAddress::from_byte_slice(&uid_bytes) {
                PackageAddress::Device(uid) => uid,
                _ => {
                    return Err(DeserializationError);
                },
            };
            response.binding_uid = Some(binding);
        }

        Ok(response)
    }

    /// Serializes the reply: the control field, then the binding UID when
    /// one is present.
    pub fn serialize(&self) -> (r: DataPack)
        ensures
            r@ == spec_mute_response_bytes(*self),
    {
        let mut data: DataPack = Vec::new();
        data.push(0u8);
        let mut flags: u8 = 0;
        if self.managed_proxy {
            flags = flags + 1;
        }
        if self.sub_device {
            flags = flags + 2;
        }
        if self.boot_loader {
            flags = flags + 4;
        }
        if self.proxy_device {
            flags = flags + 8;
        }
        data.push(flags);

        match self.binding_uid {
            None => {
                proof {
                    assert(data@ =~= spec_mute_response_bytes(*self));
                }
            },
            Some(uid) => {
                let uid_bytes = uid.to_bytes();
                let mut k: usize = 0;
                while k < uid_bytes.len()
                    invariant
                        k <= uid_bytes@.len(),
                        data@ == seq![0u8, control_field_lo(*self)] + uid_bytes@.take(k as int),
                    decreases uid_bytes@.len() - k,
                {
                    data.push(uid_bytes[k]);
                    proof {
                        assert(data@ =~= seq![0u8, control_field_lo(*self)] + uid_bytes@.take(
                            k + 1,
                        ));
                    }
                    k = k + 1;
                }
                proof {
                    assert(uid_bytes@.take(uid_bytes@.len() as int) =~= uid_bytes@);
                    assert(data@ =~= spec_mute_response_bytes(*self));
                }
            },
        }

        data
    }
}

#[derive(Debug, Copy, Clone, Eq, PartialEq, Structural)]
pub enum StatusType {
    StatusNone,
    StatusGetLastMessage,
    StatusAdvisory,
    StatusWarning,
    StatusError,
    StatusAdvisoryCleared,
    StatusWarningCleared,
    StatusErrorCleared,
}

/// Wire value of a status type.
pub open spec fn status_type_u8(t: StatusType) -> u8 {
    match t {
        StatusType::StatusNone => 0x00,
        StatusType::StatusGetLastMessage => 0x01,
        StatusType::StatusAdvisory => 0x02,
        StatusType::StatusWarning => 0x03,
        StatusType::StatusError => 0x04,
        StatusType::StatusAdvisoryCleared => 0x12,
        StatusType::StatusWarningCleared => 0x13,
        StatusType::StatusErrorCleared => 0x14,
    }
}

/// The status type a wire byte stands for, if any.
pub open spec fn spec_status_type_from_u8(value: u8) -> Option<StatusType> {
    if value == 0x00 {
        Some(StatusType::StatusNone)
    } else if value == 0x01 {
        Some(StatusType::StatusGetLastMessage)
    } else if value == 0x02 {
        Some(StatusType::StatusAdvisory)
    } else if value == 0x03 {
        Some(StatusType::StatusWarning)
    } else if value == 0x04 {
        Some(StatusType::StatusError)
    } else if value == 0x12 {
        Some(StatusType::StatusAdvisoryCleared)
    } else if value == 0x13 {
        Some(StatusType::StatusWarningCleared)
    } else if value == 0x14 {
        Some(StatusType::StatusErrorCleared)
    } else {
        None
    }
}

/// Severity of a status type: the low nibble of its wire value.
pub open spec fn status_severity(t: StatusType) -> u8 {
    match t {
        StatusType::StatusNone => 0x00,
        StatusType::StatusGetLastMessage => 0x01,
        StatusType::StatusAdvisory => 0x02,
        StatusType::StatusWarning => 0x03,
        StatusType::StatusError => 0x04,
        StatusType::StatusAdvisoryCleared => 0x02,
        StatusType::StatusWarningCleared => 0x03,
        StatusType::StatusErrorCleared => 0x04,
    }
}

impl StatusType {
    /// The wire value of this status type.
    pub fn as_u8(&self) -> (r: u8)
        ensures
            r == status_type_u8(*self),
    {
        match self {
            Self::StatusNone => 0x00,
            Self::StatusGetLastMessage => 0x01,
            Self::StatusAdvisory => 0x02,
            Self::StatusWarning => 0x03,
            Self::StatusError => 0x04,
            Self::StatusAdvisoryCleared => 0x12,
            Self::StatusWarningCleared => 0x13,
            Self::StatusErrorCleared => 0x14,
        }
    }

    /// Severity of this status type: the low nibble of its wire value.
    pub fn severity(&self) -> (r: u8)
        ensures
            r == status_severity(*self),
    {
        match self {
            Self::StatusNone => 0x00,
            Self::StatusGetLastMessage => 0x01,
            Self::StatusAdvisory => 0x02,
            Self::StatusWarning => 0x03,
            Self::StatusError => 0x04,
            Self::StatusAdvisoryCleared => 0x02,
            Self::StatusWarningCleared => 0x03,
            Self::StatusErrorCleared => 0x04,
        }
    }

    /// Parses a status type from its wire value.
    /// Returns `None` if no status type matches.
    pub fn from_u8(value: u8) -> (r: Option<Self>)
        ensures
            r == spec_status_type_from_u8(value),
    {
        match value {
            0x00 => Some(Self::StatusNone),
            0x01 => Some(Self::StatusGetLastMessage),
            0x02 => Some(Self::StatusAdvisory),
            0x03 => Some(Self::StatusWarning),
            0x04 => Some(Self::StatusError),
            0x12 => Some(Self::StatusAdvisoryCleared),
            0x13 => Some(Self::StatusWarningCleared),
            0x14 => Some(Self::StatusErrorCleared),
            _ => None,
        }
    }

    /// Parses a status type from a one-byte payload. Succeeds exactly on
    /// payloads of length 1 whose byte is a known status type.
    pub fn deserialize(data: &[u8]) -> (r: Result<Self, DeserializationError>)
        ensures
            r is Ok <==> data@.len() == 1 && spec_status_type_from_u8(data@[0]) is Some,
            r is Ok ==> Some(r.unwrap()) == spec_status_type_from_u8(data@[0]),
    {
        if data.len() != 1 {
            return Err(DeserializationError);
        }
        match Self::from_u8(data[0]) {
            Some(status_type) => Ok(status_type),
            None => Err(DeserializationError),
        }
    }
}

#[derive(Debug, Copy, Clone, Eq, PartialEq, Structural)]
pub struct StatusMessage {
    pub sub_device_id: u16,
    pub status_type: StatusType,
    pub status_message_id: u16,
    pub data_value_1: u16,
    pub data_value_2: u16,
}

/// The nine big-endian bytes of a status message.
pub open spec fn spec_status_message_bytes(m: StatusMessage) -> Seq<u8> {
    seq![
        (m.sub_device_id / 0x100) as u8,
        (m.sub_device_id % 0x100) as u8,
        status_type_u8(m.status_type),
        (m.status_message_id / 0x100) as u8,
        (m.status_message_id % 0x100) as u8,
        (m.data_value_1 / 0x100) as u8,
        (m.data_value_1 % 0x100) as u8,
        (m.data_value_2 / 0x100) as u8,
        (m.data_value_2 % 0x100) as u8,
    ]
}

impl StatusMessage {
    /// Parses a status message from its nine-byte layout. Succeeds exactly
    /// on buffers of length 9 whose third byte is a known status type.
    pub fn deserialize(buffer: &[u8]) -> (r: Result<Self, DeserializationError>)
        ensures
            r is Ok <==> buffer@.len() == 9 && spec_status_type_from_u8(buffer@[2]) is Some,
            r is Ok ==> {
                let v = r.unwrap();
                &&& v.sub_device_id == be16(buffer@[0], buffer@[1])
                &&& Some(v.status_type) == spec_status_type_from_u8(buffer@[2])
                &&& v.status_message_id == be16(buffer@[3], buffer@[4])
                &&& v.data_value_1 == be16(buffer@[5], buffer@[6])
                &&& v.data_value_2 == be16(buffer@[7], buffer@[8])
            },
    {
        if buffer.len() != 9 {
            return Err(DeserializationError);
        }
        let status_type = match StatusType::from_u8(buffer[2]) {
            Some(status_type) => status_type,
            None => {
                return Err(DeserializationError);
            },
        };
        Ok(Self {
            sub_device_id: be16_decode(buffer[0], buffer[1]),
            status_type,
            status_message_id: be16_decode(buffer[3], buffer[4]),
            data_value_1: be16_decode(buffer[5], buffer[6]),
            data_value_2: be16_decode(buffer[7], buffer[8]),
        })
    }

    /// Serializes the status message into its nine-byte layout.
    pub fn serialize(&self) -> (r: Vec<u8>)
        ensures
            r@ == spec_status_message_bytes(*self),
            r@.len() == RDM_STATUS_MESSAGE_SIZE,
    {
        let mut buffer: Vec<u8> = Vec::new();
        buffer.push(be16_hi(self.sub_device_id));
        buffer.push(be16_lo(self.sub_device_id));
        buffer.push(self.status_type.as_u8());
        buffer.push(be16_hi(self.status_message_id));
        buffer.push(be16_lo(self.status_message_id));
        buffer.push(be16_hi(self.data_value_1));
        buffer.push(be16_lo(self.data_value_1));
        buffer.push(be16_hi(self.data_value_2));
        buffer.push(be16_lo(self.data_value_2));
        proof {
            assert(buffer@ =~= spec_status_message_bytes(*self));
        }
        buffer
    }
}

#[derive(Debug, Clone, Copy, Eq, PartialEq, Structural)]
pub struct DeviceInfo {
    pub device_model_id: u16,
    pub product_category: u16,
    pub software_version: u32,
    pub dmx_footprint: u16,
    pub dmx_personality: u16,
    pub dmx_start_address: DmxStartAddress,
    pub sub_device_count: u16,
    pub sensor_count: u8,
}

/// The nineteen big-endian bytes of a device-info block; the protocol
/// version is fixed at 0x0100.
pub open spec fn spec_device_info_bytes(d: DeviceInfo) -> Seq<u8> {
    seq![
        0x01u8,
        0x00u8,
        (d.device_model_id / 0x100) as u8,
        (d.device_model_id % 0x100) as u8,
        (d.product_category / 0x100) as u8,
        (d.product_category % 0x100) as u8,
        (d.software_version / 0x1000000) as u8,
        ((d.software_version / 0x10000) % 0x100) as u8,
        ((d.software_version / 0x100) % 0x100) as u8,
        (d.software_version % 0x100) as u8,
        (d.dmx_footprint / 0x100) as u8,
        (d.dmx_footprint % 0x100) as u8,
        (d.dmx_personality / 0x100) as u8,
        (d.dmx_personality % 0x100) as u8,
        (start_address_u16(d.dmx_start_address) / 0x100) as u8,
        (start_address_u16(d.dmx_start_address) % 0x100) as u8,
        (d.sub_device_count / 0x100) as u8,
        (d.sub_device_count % 0x100) as u8,
        d.sensor_count,
    ]
}

impl DeviceInfo {
    /// Parses a device-info block from its nineteen-byte layout. Succeeds
    /// exactly on buffers of length 19 whose start-address field is the
    /// no-address marker or lies in 1..=512.
    pub fn deserialize(buffer: &[u8]) -> (r: Result<Self, DeserializationError>)
        ensures
            r is Ok <==> buffer@.len() == RDM_DEVICE_INFO_SIZE && spec_start_address_from_u16(
                be16(buffer@[14], buffer@[15]),
            ) is Some,
            r is Ok ==> {
                let v = r.unwrap();
                &&& v.device_model_id == be16(buffer@[2], buffer@[3])
                &&& v.product_category == be16(buffer@[4], buffer@[5])
                &&& v.software_version == be32(buffer@[6], buffer@[7], buffer@[8], buffer@[9])
                &&& v.dmx_footprint == be16(buffer@[10], buffer@[11])
                &&& v.dmx_personality == be16(buffer@[12], buffer@[13])
                &&& Some(v.dmx_start_address) == spec_start_address_from_u16(
                    be16(buffer@[14], buffer@[15]),
                )
                &&& v.sub_device_count == be16(buffer@[16], buffer@[17])
                &&& v.sensor_count == buffer@[18]
            },
    {
        if buffer.len() != RDM_DEVICE_INFO_SIZE {
            return Err(DeserializationError);
        }
        let dmx_start_address = match DmxStartAddress::from_u16(
            be16_decode(buffer[14], buffer[15]),
        ) {
            Ok(address) => address,
            Err(e) => {
                return Err(e);
            },
        };
        Ok(Self {
            device_model_id: be16_decode(buffer[2], buffer[3]),
            product_category: be16_decode(buffer[4], buffer[5]),
            software_version: be32_decode(buffer[6], buffer[7], buffer[8], buffer[9]),
            dmx_footprint: be16_decode(buffer[10], buffer[11]),
            dmx_personality: be16_decode(buffer[12], buffer[13]),
            dmx_start_address,
            sub_device_count: be16_decode(buffer[16], buffer[17]),
            sensor_count: buffer[18],
        })
    }

    /// Serializes the device-info block into its nineteen-byte layout.
    pub fn serialize(&self) -> (r: DataPack)
        ensures
            r@ == spec_device_info_bytes(*self),
            r@.len() == RDM_DEVICE_INFO_SIZE,
    {
        let mut buffer: DataPack = Vec::new();
        buffer.push(0x01);
        buffer.push(0x00);
        buffer.push(be16_hi(self.device_model_id));
        buffer.push(be16_lo(self.device_model_id));
        buffer.push(be16_hi(self.product_category));
        buffer.push(be16_lo(self.product_category));
        buffer.push((self.software_version / 0x1000000) as u8);
        buffer.push((self.software_version / 0x10000 % 0x100) as u8);
        buffer.push((self.software_version / 0x100 % 0x100) as u8);
        buffer.push((self.software_version % 0x100) as u8);
        buffer.push(be16_hi(self.dmx_footprint));
        buffer.push(be16_lo(self.dmx_footprint));
        buffer.push(be16_hi(self.dmx_personality));
        buffer.push(be16_lo(self.dmx_personality));
        let start_address = self.dmx_start_address.as_u16();
        buffer.push(be16_hi(start_address));
        buffer.push(be16_lo(start_address));
        buffer.push(be16_hi(self.sub_device_count));
        buffer.push(be16_lo(self.sub_device_count));
        buffer.push(self.sensor_count);
        proof {
            assert(buffer@ =~= spec_device_info_bytes(*self));
        }
        buffer
    }
}

/// Returned by parameter packages where the response might not fit into one package.
pub enum OverflowMessageResp<T> {
    /// Has received the complete message.
    Complete(T),
    /// Has not received the complete message.
    /// Request the same pid to get the next part until you receive
    /// [`OverflowMessageResp::Complete`].
    Incomplete(T),
}

} // verus!

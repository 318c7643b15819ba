use dmx_rdm::command_class::{RequestCommandClass, ResponseCommandClass};
use dmx_rdm::rdm_types::{
    DeviceInfo, DiscoveryMuteResponse, DmxStartAddress, StatusMessage, StatusType,
};
use dmx_rdm::types::{NackReason, ResponseType};
use dmx_rdm::unique_identifier::UniqueIdentifier;
use dmx_rdm::utils::calculate_checksum;

#[test]
fn checksum_is_the_wrapping_byte_sum() {
    assert_eq!(calculate_checksum(&[]), 0);
    assert_eq!(calculate_checksum(&[0x01, 0x02, 0x03]), 6);
    // 600 bytes of 0xFF wrap past sixteen bits: 600 * 255 = 153000,
    // modulo 65536 that is 21928.
    assert_eq!(calculate_checksum(&vec![0xFF; 600]), 21928);
}

#[test]
fn start_address_accepts_the_documented_range() {
    assert_eq!(DmxStartAddress::deserialize(&[0xFF, 0xFF]).unwrap().as_u16(), 0xFFFF);
    assert_eq!(DmxStartAddress::deserialize(&[0x00, 0x01]).unwrap().as_u16(), 1);
    assert_eq!(DmxStartAddress::deserialize(&[0x02, 0x00]).unwrap().as_u16(), 512);
    DmxStartAddress::deserialize(&[0x00, 0x00]).unwrap_err();
    DmxStartAddress::deserialize(&[0x02, 0x01]).unwrap_err();
    DmxStartAddress::deserialize(&[0x01]).unwrap_err();

    assert_eq!(DmxStartAddress::Address(0x0190).serialize(), vec![0x01, 0x90]);
    assert_eq!(DmxStartAddress::NoAddress.serialize(), vec![0xFF, 0xFF]);
}

#[test]
fn mute_response_round_trips_its_flags() {
    let response = DiscoveryMuteResponse {
        managed_proxy: true,
        sub_device: false,
        boot_loader: true,
        proxy_device: false,
        binding_uid: None,
    };
    let bytes = response.serialize();
    assert_eq!(bytes, vec![0x00, 0x05]);

    let parsed = DiscoveryMuteResponse::deserialize(&bytes).unwrap();
    assert_eq!(parsed, response);
}

#[test]
fn mute_response_carries_an_optional_binding_uid() {
    let uid = UniqueIdentifier::new(0x1234, 0x56789ABC).unwrap();
    let response = DiscoveryMuteResponse {
        managed_proxy: false,
        sub_device: true,
        boot_loader: false,
        proxy_device: true,
        binding_uid: Some(uid),
    };
    let bytes = response.serialize();
    assert_eq!(bytes, vec![0x00, 0x0A, 0x12, 0x34, 0x56, 0x78, 0x9A, 0xBC]);

    let parsed = DiscoveryMuteResponse::deserialize(&bytes).unwrap();
    assert_eq!(parsed.binding_uid, Some(uid));

    // A broadcast binding id is rejected, a short payload too.
    DiscoveryMuteResponse::deserialize(&[0x00, 0x00, 0xFF, 0xFF, 0xFF, 0xFF, 0xFF, 0xFF])
        .unwrap_err();
    DiscoveryMuteResponse::deserialize(&[0x00]).unwrap_err();
}

#[test]
fn status_message_round_trips_nine_bytes() {
    let message = StatusMessage {
        sub_device_id: 1,
        status_type: StatusType::StatusErrorCleared,
        status_message_id: 0x0203,
        data_value_1: 0x0405,
        data_value_2: 0x0607,
    };
    let bytes = message.serialize();
    assert_eq!(bytes, vec![0x00, 0x01, 0x14, 0x02, 0x03, 0x04, 0x05, 0x06, 0x07]);
    assert_eq!(StatusMessage::deserialize(&bytes).unwrap(), message);
}

#[test]
fn status_type_maps_each_wire_value() {
    for (value, status) in [
        (0x00, StatusType::StatusNone),
        (0x01, StatusType::StatusGetLastMessage),
        (0x02, StatusType::StatusAdvisory),
        (0x03, StatusType::StatusWarning),
        (0x04, StatusType::StatusError),
        (0x12, StatusType::StatusAdvisoryCleared),
        (0x13, StatusType::StatusWarningCleared),
        (0x14, StatusType::StatusErrorCleared),
    ] {
        assert_eq!(StatusType::from_u8(value), Some(status));
        assert_eq!(status.as_u8(), value);
        assert_eq!(status.severity(), value & 0x0F);
    }
    assert_eq!(StatusType::from_u8(0x05), None);
    StatusType::deserialize(&[0x02, 0x02]).unwrap_err();
}

#[test]
fn device_info_round_trips_nineteen_bytes() {
    let info = DeviceInfo {
        device_model_id: 0x1234,
        product_category: 0x5678,
        software_version: 0x0102_0304,
        dmx_footprint: 16,
        dmx_personality: 2,
        dmx_start_address: DmxStartAddress::Address(200),
        sub_device_count: 1,
        sensor_count: 4,
    };
    let bytes = info.serialize();
    assert_eq!(bytes.len(), 19);
    assert_eq!(&bytes[..2], &[0x01, 0x00]);
    assert_eq!(DeviceInfo::deserialize(&bytes).unwrap(), info);

    DeviceInfo::deserialize(&bytes[..18]).unwrap_err();
}

#[test]
fn command_classes_and_response_types_map_their_wire_values() {
    assert_eq!(
        RequestCommandClass::GetCommand.get_response_class(),
        ResponseCommandClass::GetCommandResponse
    );
    assert_eq!(
        ResponseCommandClass::SetCommandResponse.get_request_class(),
        RequestCommandClass::SetCommand
    );
    assert_eq!(RequestCommandClass::from_u8(0x10), Some(RequestCommandClass::DiscoveryCommand));
    assert_eq!(RequestCommandClass::from_u8(0x11), None);
    assert_eq!(
        ResponseCommandClass::from_u8(0x31),
        Some(ResponseCommandClass::SetCommandResponse)
    );
    assert_eq!(ResponseCommandClass::from_u8(0x30), None);

    assert_eq!(ResponseType::from_u8(0x03), Some(ResponseType::ResponseTypeAckOverflow));
    assert_eq!(ResponseType::from_u8(0x04), None);
    assert_eq!(NackReason::from_u16(0x000A), Some(NackReason::ProxyBufferFull));
    assert_eq!(NackReason::from_u16(0x000B), None);
    assert_eq!(NackReason::SubDeviceOutOfRange.serialize(), vec![0x00, 0x09]);
}

use dmx_rdm::rdm_packages::{
    deserialize_identify, deserialize_software_version_label, deserialize_status_messages,
    deserialize_supported_parameters,
};

#[test]
fn test_deserialize_identify_success() {
    assert_eq!(deserialize_identify(&[0]).unwrap(), false);
    assert_eq!(deserialize_identify(&[1]).unwrap(), true);

    assert_eq!(deserialize_identify(&[3]).unwrap(), true);
}

#[test]
fn test_deserialize_identify_failure() {
    deserialize_identify(&[2, 1]).unwrap_err();
    deserialize_identify(&[0, 0]).unwrap_err();
}

#[test]
fn software_version_label_reads_text() {
    let label = deserialize_software_version_label(b"firmware 1.2").unwrap();
    assert_eq!(label.as_str(), "firmware 1.2");

    // An empty label is fine, 33 bytes are not, broken text is not.
    assert_eq!(deserialize_software_version_label(&[]).unwrap().as_str(), "");
    deserialize_software_version_label(&[0x61; 33]).unwrap_err();
    deserialize_software_version_label(&[0xFF, 0xFE]).unwrap_err();
}

#[test]
fn status_message_list_splits_into_nine_byte_blocks() {
    let block = [0x00, 0x01, 0x02, 0x12, 0x34, 0x00, 0x05, 0x00, 0x06];
    let mut payload = Vec::new();
    payload.extend_from_slice(&block);
    payload.extend_from_slice(&block);

    let messages = deserialize_status_messages(&payload).unwrap();
    assert_eq!(messages.len(), 2);
    assert_eq!(messages[0].sub_device_id, 1);
    assert_eq!(messages[0].status_message_id, 0x1234);
    assert_eq!(messages[0].data_value_1, 5);
    assert_eq!(messages[0].data_value_2, 6);

    // A truncated list and an unknown status type are rejected.
    deserialize_status_messages(&payload[..10]).unwrap_err();
    let mut bad = payload.clone();
    bad[2] = 0x7F;
    deserialize_status_messages(&bad).unwrap_err();
}

#[test]
fn supported_parameter_list_splits_into_word_values() {
    let parameters = deserialize_supported_parameters(&[0x00, 0x20, 0x00, 0x30, 0x10, 0x00])
        .unwrap();
    assert_eq!(parameters, vec![0x0020, 0x0030, 0x1000]);

    deserialize_supported_parameters(&[0x00]).unwrap_err();
}

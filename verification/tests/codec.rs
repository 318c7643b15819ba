use dmx_rdm::command_class::{RequestCommandClass, ResponseCommandClass};
use dmx_rdm::rdm_data::{
    deserialize_rdm_data, serialize_rdm_data, RdmData, RdmDeserializationError, RdmRequestData,
    RdmResponseData,
};
use dmx_rdm::types::ResponseType;
use dmx_rdm::unique_identifier::{PackageAddress, UniqueIdentifier};

fn sample_request() -> RdmRequestData {
    RdmRequestData {
        destination_uid: PackageAddress::Device(UniqueIdentifier::new(0x7FF0, 1).unwrap()),
        source_uid: UniqueIdentifier::new(0x7FF0, 0).unwrap(),
        transaction_number: 1,
        port_id: 0,
        message_count: 0,
        sub_device: 0,
        command_class: RequestCommandClass::GetCommand,
        parameter_id: 0x0060,
        parameter_data: vec![],
    }
}

#[test]
fn serialize_get_device_info_exact_bytes() {
    let serialized = serialize_rdm_data(&RdmData::Request(sample_request()));
    assert_eq!(
        serialized,
        vec![
            0xCC, 0x01, 0x18, // start, sub start, message length 24
            0x7F, 0xF0, 0x00, 0x00, 0x00, 0x01, // destination
            0x7F, 0xF0, 0x00, 0x00, 0x00, 0x00, // source
            0x01, 0x00, 0x00, // transaction, port id, message count
            0x00, 0x00, // sub device
            0x20, // get command
            0x00, 0x60, // DEVICE_INFO
            0x00, // no parameter data
            0x04, 0x45, // checksum
        ]
    );
}

#[test]
fn request_round_trips_through_the_codec() {
    let request = RdmRequestData {
        destination_uid: PackageAddress::ManufacturerBroadcast(0x0102),
        source_uid: UniqueIdentifier::new(0x4242, 7).unwrap(),
        transaction_number: 42,
        port_id: 3,
        message_count: 9,
        sub_device: 0x0304,
        command_class: RequestCommandClass::SetCommand,
        parameter_id: 0x00F0,
        parameter_data: vec![0x01, 0x90],
    };
    let serialized = serialize_rdm_data(&RdmData::Request(request));

    match deserialize_rdm_data(&serialized).unwrap() {
        RdmData::Request(parsed) => {
            assert_eq!(parsed.destination_uid, PackageAddress::ManufacturerBroadcast(0x0102));
            assert_eq!(parsed.source_uid, UniqueIdentifier::new(0x4242, 7).unwrap());
            assert_eq!(parsed.transaction_number, 42);
            assert_eq!(parsed.port_id, 3);
            assert_eq!(parsed.message_count, 9);
            assert_eq!(parsed.sub_device, 0x0304);
            assert_eq!(parsed.command_class, RequestCommandClass::SetCommand);
            assert_eq!(parsed.parameter_id, 0x00F0);
            assert_eq!(parsed.parameter_data, vec![0x01, 0x90]);
        },
        RdmData::Response(_) => panic!("a request must parse as a request"),
    }
}

#[test]
fn response_round_trips_through_the_codec() {
    let response = RdmResponseData {
        destination_uid: PackageAddress::Device(UniqueIdentifier::new(0x7FF0, 0).unwrap()),
        source_uid: UniqueIdentifier::new(0x7FF0, 1).unwrap(),
        transaction_number: 17,
        response_type: ResponseType::ResponseTypeAckTimer,
        message_count: 2,
        sub_device: 0,
        command_class: ResponseCommandClass::GetCommandResponse,
        parameter_id: 0x1000,
        parameter_data: vec![0x00, 0x0A],
    };
    let serialized = serialize_rdm_data(&RdmData::Response(response));

    match deserialize_rdm_data(&serialized).unwrap() {
        RdmData::Response(parsed) => {
            assert_eq!(
                parsed.destination_uid,
                PackageAddress::Device(UniqueIdentifier::new(0x7FF0, 0).unwrap())
            );
            assert_eq!(parsed.source_uid, UniqueIdentifier::new(0x7FF0, 1).unwrap());
            assert_eq!(parsed.transaction_number, 17);
            assert_eq!(parsed.response_type, ResponseType::ResponseTypeAckTimer);
            assert_eq!(parsed.message_count, 2);
            assert_eq!(parsed.sub_device, 0);
            assert_eq!(parsed.command_class, ResponseCommandClass::GetCommandResponse);
            assert_eq!(parsed.parameter_id, 0x1000);
            assert_eq!(parsed.parameter_data, vec![0x00, 0x0A]);
        },
        RdmData::Request(_) => panic!("a response must parse as a response"),
    }
}

#[test]
fn any_single_byte_flip_fails_the_checksum() {
    let serialized = serialize_rdm_data(&RdmData::Request(sample_request()));
    for index in 0..serialized.len() - 2 {
        let mut corrupted = serialized.clone();
        corrupted[index] ^= 0x04;
        match deserialize_rdm_data(&corrupted) {
            Err(RdmDeserializationError::WrongChecksum) => {},
            other => panic!("flip at {} must fail the checksum, got {:?}", index, other),
        }
    }
}

#[test]
fn deserialize_reports_each_malformation() {
    assert!(matches!(
        deserialize_rdm_data(&[0u8; 21]),
        Err(RdmDeserializationError::BufferTooSmall)
    ));
    assert!(matches!(
        deserialize_rdm_data(&[0u8; 258]),
        Err(RdmDeserializationError::BufferTooBig)
    ));

    let good = serialize_rdm_data(&RdmData::Request(sample_request()));

    // Breaking the start code and repairing the checksum.
    let mut wrong_start = good.clone();
    wrong_start[0] = 0xCD;
    fix_checksum(&mut wrong_start);
    assert!(matches!(
        deserialize_rdm_data(&wrong_start),
        Err(RdmDeserializationError::WrongStartCode)
    ));

    // Breaking the message-length byte.
    let mut wrong_length = good.clone();
    wrong_length[2] = 0x19;
    fix_checksum(&mut wrong_length);
    assert!(matches!(
        deserialize_rdm_data(&wrong_length),
        Err(RdmDeserializationError::WrongMessageLength(0x19))
    ));

    // An unknown command class makes the response-type byte decisive:
    // port id 0 reads as an acknowledgement, so the class itself fails.
    let mut wrong_class = good.clone();
    wrong_class[20] = 0x40;
    fix_checksum(&mut wrong_class);
    assert!(matches!(
        deserialize_rdm_data(&wrong_class),
        Err(RdmDeserializationError::CommandClassNotFound(0x40))
    ));

    // An unknown command class with an unknown response type.
    let mut wrong_response_type = wrong_class.clone();
    wrong_response_type[16] = 0x55;
    fix_checksum(&mut wrong_response_type);
    assert!(matches!(
        deserialize_rdm_data(&wrong_response_type),
        Err(RdmDeserializationError::ResponseTypeNotFound(0x55))
    ));

    // A broadcast source id is never valid.
    let mut broadcast_source = good.clone();
    for byte in broadcast_source.iter_mut().skip(9).take(6) {
        *byte = 0xFF;
    }
    fix_checksum(&mut broadcast_source);
    assert!(matches!(
        deserialize_rdm_data(&broadcast_source),
        Err(RdmDeserializationError::SourceUidIsBroadcast)
    ));
}

fn fix_checksum(buffer: &mut Vec<u8>) {
    let n = buffer.len();
    let checksum = dmx_rdm::utils::calculate_checksum(&buffer[..n - 2]);
    buffer[n - 2] = (checksum >> 8) as u8;
    buffer[n - 1] = (checksum & 0xFF) as u8;
}

#[test]
fn build_response_swaps_addresses_and_echoes() {
    let request = RdmRequestData {
        sub_device: 5,
        transaction_number: 77,
        ..sample_request()
    };
    let response = request
        .build_response(ResponseType::ResponseTypeAck, vec![0xAB], 3)
        .unwrap();
    assert_eq!(
        response.destination_uid,
        PackageAddress::Device(UniqueIdentifier::new(0x7FF0, 0).unwrap())
    );
    assert_eq!(response.source_uid, UniqueIdentifier::new(0x7FF0, 1).unwrap());
    assert_eq!(response.transaction_number, 77);
    assert_eq!(response.sub_device, 5);
    assert_eq!(response.message_count, 3);
    assert_eq!(response.command_class, ResponseCommandClass::GetCommandResponse);
    assert_eq!(response.parameter_data, vec![0xAB]);

    // A broadcast request must not be answered.
    let broadcast = RdmRequestData {
        destination_uid: PackageAddress::Broadcast,
        ..sample_request()
    };
    broadcast
        .build_response(ResponseType::ResponseTypeAck, vec![], 0)
        .unwrap_err();
}

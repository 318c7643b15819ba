use dmx_rdm::command_class::{RequestCommandClass, ResponseCommandClass};
use dmx_rdm::rdm_data::{RdmRequestData, RdmResponseData};
use dmx_rdm::rdm_responder::{
    DmxReceiverContext, RdmAnswer, RdmResponderConfig, RdmResponderHandlerFunc,
    RdmResponderPackageHandler, RdmReceiverMetadata, RdmResult,
};
use dmx_rdm::rdm_types::{DmxStartAddress, StatusMessage, StatusType};
use dmx_rdm::types::{NackReason, ResponseType};
use dmx_rdm::unique_identifier::{PackageAddress, UniqueIdentifier};

struct RefusingHandler;

impl RdmResponderHandlerFunc for RefusingHandler {
    type Error = ();

    fn handle_rdm(
        &mut self,
        _request: &RdmRequestData,
        _context: &mut DmxReceiverContext,
    ) -> Result<RdmResult, Self::Error> {
        Ok(RdmResult::NotAcknowledged(NackReason::UnknownPid.as_u16()))
    }
}

fn responder_uid() -> UniqueIdentifier {
    UniqueIdentifier::new(0x7FF0, 1).unwrap()
}

fn controller_uid() -> UniqueIdentifier {
    UniqueIdentifier::new(0x7FF0, 0).unwrap()
}

fn fresh_responder(supported_pids: Vec<u16>) -> RdmResponderPackageHandler<8> {
    RdmResponderPackageHandler::new(RdmResponderConfig {
        uid: responder_uid(),
        supported_pids,
        rdm_receiver_metadata: RdmReceiverMetadata::default(),
    })
}

fn get_request(parameter_id: u16, parameter_data: Vec<u8>) -> RdmRequestData {
    RdmRequestData {
        destination_uid: PackageAddress::Device(responder_uid()),
        source_uid: controller_uid(),
        transaction_number: 11,
        port_id: 0,
        message_count: 0,
        sub_device: 0,
        command_class: RequestCommandClass::GetCommand,
        parameter_id,
        parameter_data,
    }
}

fn expect_response(answer: RdmAnswer) -> RdmResponseData {
    match answer {
        RdmAnswer::Response(response) => response,
        _ => panic!("a structured response was expected"),
    }
}

#[test]
fn get_device_info_serves_the_nineteen_byte_block() {
    let mut responder = fresh_responder(vec![]);
    let answer = responder
        .handle_rdm_request(get_request(0x0060, vec![]), &mut RefusingHandler)
        .unwrap();

    let response = expect_response(answer);
    assert_eq!(response.response_type, ResponseType::ResponseTypeAck);
    assert_eq!(response.transaction_number, 11);
    assert_eq!(response.destination_uid, PackageAddress::Device(controller_uid()));
    assert_eq!(response.source_uid, responder_uid());
    assert_eq!(
        response.parameter_data,
        vec![
            0x01, 0x00, // protocol version
            0x00, 0x00, 0x00, 0x00, 0x00, 0x00, 0x00, 0x00, // model, category, software
            0x00, 0x01, // footprint 1
            0x00, 0x01, // personality 1
            0xFF, 0xFF, // no start address
            0x00, 0x00, // no sub devices
            0x00, // no sensors
        ]
    );
}

#[test]
fn requests_for_other_devices_are_ignored() {
    let mut responder = fresh_responder(vec![]);

    let mut foreign = get_request(0x0060, vec![]);
    foreign.destination_uid =
        PackageAddress::Device(UniqueIdentifier::new(0x7FF0, 2).unwrap());
    match responder.handle_rdm_request(foreign, &mut RefusingHandler).unwrap() {
        RdmAnswer::NoResponse => {},
        _ => panic!("a foreign device request must stay silent"),
    }

    let mut foreign_vendor = get_request(0x0060, vec![]);
    foreign_vendor.destination_uid = PackageAddress::ManufacturerBroadcast(0x1234);
    match responder.handle_rdm_request(foreign_vendor, &mut RefusingHandler).unwrap() {
        RdmAnswer::NoResponse => {},
        _ => panic!("a foreign manufacturer broadcast must stay silent"),
    }
}

#[test]
fn broadcast_requests_are_never_answered() {
    let mut responder = fresh_responder(vec![]);
    let mut broadcast = get_request(0x0060, vec![]);
    broadcast.destination_uid = PackageAddress::Broadcast;
    match responder.handle_rdm_request(broadcast, &mut RefusingHandler).unwrap() {
        RdmAnswer::NoResponse => {},
        _ => panic!("a broadcast get must stay silent"),
    }
}

#[test]
fn sub_devices_and_wrong_classes_are_refused() {
    let mut responder = fresh_responder(vec![]);

    let mut with_sub_device = get_request(0x0060, vec![]);
    with_sub_device.sub_device = 1;
    let response = expect_response(
        responder.handle_rdm_request(with_sub_device, &mut RefusingHandler).unwrap(),
    );
    assert_eq!(response.response_type, ResponseType::ResponseTypeNackReason);
    assert_eq!(response.parameter_data, vec![0x00, 0x09]); // sub device out of range

    let mut as_discovery = get_request(0x0060, vec![]);
    as_discovery.command_class = RequestCommandClass::DiscoveryCommand;
    // A discovery class outside the three discovery ids is dropped whole.
    match responder.handle_rdm_request(as_discovery, &mut RefusingHandler).unwrap() {
        RdmAnswer::NoResponse => {},
        _ => panic!("discovery class on an ordinary id must stay silent"),
    }

    let mut as_set = get_request(0x0060, vec![]);
    as_set.command_class = RequestCommandClass::SetCommand;
    let response =
        expect_response(responder.handle_rdm_request(as_set, &mut RefusingHandler).unwrap());
    assert_eq!(response.response_type, ResponseType::ResponseTypeNackReason);
    assert_eq!(response.parameter_data, vec![0x00, 0x05]); // unsupported command class
}

#[test]
fn disc_mute_mutes_and_silences_probes() {
    let mut responder = fresh_responder(vec![]);

    // A matching probe is answered while unmuted.
    let mut probe = get_request(0x0001, vec![0, 0, 0, 0, 0, 0, 0xFF, 0xFF, 0xFF, 0xFF, 0xFF, 0xFE]);
    probe.command_class = RequestCommandClass::DiscoveryCommand;
    probe.destination_uid = PackageAddress::Broadcast;
    match responder
        .handle_rdm_request(probe_copy(&probe), &mut RefusingHandler)
        .unwrap()
    {
        RdmAnswer::DiscoveryResponse(uid) => assert_eq!(uid, responder_uid()),
        _ => panic!("an unmuted responder in range must answer the probe"),
    }

    // The mute request acknowledges with a zeroed control field.
    let mut mute = get_request(0x0002, vec![]);
    mute.command_class = RequestCommandClass::DiscoveryCommand;
    let response =
        expect_response(responder.handle_rdm_request(mute, &mut RefusingHandler).unwrap());
    assert_eq!(response.response_type, ResponseType::ResponseTypeAck);
    assert_eq!(response.parameter_data, vec![0x00, 0x00]);

    // The same probe is now silenced.
    match responder
        .handle_rdm_request(probe_copy(&probe), &mut RefusingHandler)
        .unwrap()
    {
        RdmAnswer::NoResponse => {},
        _ => panic!("a muted responder must not answer the probe"),
    }

    // Unmuting brings the answer back.
    let mut unmute = get_request(0x0003, vec![]);
    unmute.command_class = RequestCommandClass::DiscoveryCommand;
    responder.handle_rdm_request(unmute, &mut RefusingHandler).unwrap();
    match responder.handle_rdm_request(probe, &mut RefusingHandler).unwrap() {
        RdmAnswer::DiscoveryResponse(_) => {},
        _ => panic!("an unmuted responder must answer the probe again"),
    }
}

fn probe_copy(probe: &RdmRequestData) -> RdmRequestData {
    RdmRequestData {
        destination_uid: probe.destination_uid,
        source_uid: probe.source_uid,
        transaction_number: probe.transaction_number,
        port_id: probe.port_id,
        message_count: probe.message_count,
        sub_device: probe.sub_device,
        command_class: probe.command_class,
        parameter_id: probe.parameter_id,
        parameter_data: probe.parameter_data.clone(),
    }
}

#[test]
fn probes_outside_the_searched_range_stay_silent() {
    let mut responder = fresh_responder(vec![]);
    // The responder id 0x7FF0:00000001 lies above this range.
    let mut probe = get_request(0x0001, vec![0, 0, 0, 0, 0, 0, 0x00, 0x01, 0, 0, 0, 0]);
    probe.command_class = RequestCommandClass::DiscoveryCommand;
    probe.destination_uid = PackageAddress::Broadcast;
    match responder.handle_rdm_request(probe, &mut RefusingHandler).unwrap() {
        RdmAnswer::NoResponse => {},
        _ => panic!("a probe below the own id must stay silent"),
    }

    // A malformed probe payload is silence as well.
    let mut malformed = get_request(0x0001, vec![0, 1, 2]);
    malformed.command_class = RequestCommandClass::DiscoveryCommand;
    malformed.destination_uid = PackageAddress::Broadcast;
    let mut responder = fresh_responder(vec![]);
    match responder.handle_rdm_request(malformed, &mut RefusingHandler).unwrap() {
        RdmAnswer::NoResponse => {},
        _ => panic!("a malformed probe must stay silent"),
    }
}

#[test]
fn set_dmx_start_address_checks_its_range() {
    let mut responder = fresh_responder(vec![]);

    // 513 is out of range and must not change the address.
    let mut set_out_of_range = get_request(0x00F0, vec![0x02, 0x01]);
    set_out_of_range.command_class = RequestCommandClass::SetCommand;
    let response = expect_response(
        responder.handle_rdm_request(set_out_of_range, &mut RefusingHandler).unwrap(),
    );
    assert_eq!(response.response_type, ResponseType::ResponseTypeNackReason);
    assert_eq!(response.parameter_data, vec![0x00, 0x06]); // data out of range
    assert_eq!(responder.dmx_start_address.as_u16(), 0xFFFF);

    // A one-byte payload is a format error.
    let mut malformed = get_request(0x00F0, vec![0x02]);
    malformed.command_class = RequestCommandClass::SetCommand;
    let response =
        expect_response(responder.handle_rdm_request(malformed, &mut RefusingHandler).unwrap());
    assert_eq!(response.parameter_data, vec![0x00, 0x01]); // format error

    // A valid address is stored and served back.
    let mut set_valid = get_request(0x00F0, vec![0x01, 0x90]);
    set_valid.command_class = RequestCommandClass::SetCommand;
    let response =
        expect_response(responder.handle_rdm_request(set_valid, &mut RefusingHandler).unwrap());
    assert_eq!(response.response_type, ResponseType::ResponseTypeAck);
    assert!(matches!(responder.dmx_start_address, DmxStartAddress::Address(400)));

    let response = expect_response(
        responder.handle_rdm_request(get_request(0x00F0, vec![]), &mut RefusingHandler).unwrap(),
    );
    assert_eq!(response.parameter_data, vec![0x01, 0x90]);
}

fn status(status_type: StatusType, id: u16) -> StatusMessage {
    StatusMessage {
        sub_device_id: 0,
        status_type,
        status_message_id: id,
        data_value_1: 0,
        data_value_2: 0,
    }
}

#[test]
fn status_messages_drain_through_the_severity_filter() {
    let mut responder = fresh_responder(vec![]);
    responder.push_status_message(status(StatusType::StatusAdvisory, 1)).unwrap();
    responder.push_status_message(status(StatusType::StatusError, 2)).unwrap();
    responder.push_status_message(status(StatusType::StatusWarning, 3)).unwrap();
    responder.push_status_message(status(StatusType::StatusWarningCleared, 4)).unwrap();

    let response = expect_response(
        responder
            .handle_rdm_request(get_request(0x0030, vec![0x03]), &mut RefusingHandler)
            .unwrap(),
    );
    assert_eq!(response.response_type, ResponseType::ResponseTypeAck);
    // Served: the error, the warning, and the cleared warning; 9 bytes each.
    assert_eq!(response.parameter_data.len(), 27);
    assert_eq!(&response.parameter_data[..9], &[0, 0, 0x04, 0, 2, 0, 0, 0, 0]);
    assert_eq!(&response.parameter_data[9..18], &[0, 0, 0x03, 0, 3, 0, 0, 0, 0]);
    assert_eq!(&response.parameter_data[18..], &[0, 0, 0x13, 0, 4, 0, 0, 0, 0]);

    // Exactly the entries below the filter remain.
    let remaining = responder.get_status_vec();
    assert_eq!(remaining.len(), 1);
    assert_eq!(remaining[0].status_message_id, 1);

    // The previous run can be replayed.
    let replay = expect_response(
        responder
            .handle_rdm_request(get_request(0x0030, vec![0x01]), &mut RefusingHandler)
            .unwrap(),
    );
    assert_eq!(replay.parameter_data.len(), 27);

    // An unknown status byte is refused as out of range, a malformed
    // payload as a format error.
    let response = expect_response(
        responder
            .handle_rdm_request(get_request(0x0030, vec![0x13]), &mut RefusingHandler)
            .unwrap(),
    );
    assert_eq!(response.response_type, ResponseType::ResponseTypeNackReason);
    assert_eq!(response.parameter_data, vec![0x00, 0x06]);
    let response = expect_response(
        responder
            .handle_rdm_request(get_request(0x0030, vec![]), &mut RefusingHandler)
            .unwrap(),
    );
    assert_eq!(response.parameter_data, vec![0x00, 0x01]);
}

#[test]
fn queued_messages_drain_in_insertion_order() {
    let mut responder = fresh_responder(vec![]);
    let first = get_request(0x1000, vec![])
        .build_response(ResponseType::ResponseTypeAck, vec![0x01], 0)
        .unwrap();
    let second = get_request(0x1000, vec![])
        .build_response(ResponseType::ResponseTypeAck, vec![0x02], 0)
        .unwrap();
    responder.push_queued_message(first).unwrap();
    responder.push_queued_message(second).unwrap();

    // The first pushed message comes out first, with the count of what
    // remains and the transaction number of the request.
    let mut request = get_request(0x0020, vec![0x04]);
    request.transaction_number = 90;
    let response =
        expect_response(responder.handle_rdm_request(request, &mut RefusingHandler).unwrap());
    assert_eq!(response.parameter_data, vec![0x01]);
    assert_eq!(response.message_count, 1);
    assert_eq!(response.transaction_number, 90);

    let response = expect_response(
        responder
            .handle_rdm_request(get_request(0x0020, vec![0x04]), &mut RefusingHandler)
            .unwrap(),
    );
    assert_eq!(response.parameter_data, vec![0x02]);
    assert_eq!(response.message_count, 0);

    // With the queue drained the reply is a synthesized status-message
    // response, here with nothing to report.
    let response = expect_response(
        responder
            .handle_rdm_request(get_request(0x0020, vec![0x04]), &mut RefusingHandler)
            .unwrap(),
    );
    assert_eq!(response.parameter_id, 0x0030);
    assert_eq!(response.response_type, ResponseType::ResponseTypeAck);
    assert_eq!(response.parameter_data, vec![]);

    // The last reply can be replayed.
    let replay = expect_response(
        responder
            .handle_rdm_request(get_request(0x0020, vec![0x01]), &mut RefusingHandler)
            .unwrap(),
    );
    assert_eq!(replay.parameter_id, 0x0030);

    // The none status is refused.
    let response = expect_response(
        responder
            .handle_rdm_request(get_request(0x0020, vec![0x00]), &mut RefusingHandler)
            .unwrap(),
    );
    assert_eq!(response.response_type, ResponseType::ResponseTypeNackReason);
    assert_eq!(response.parameter_data, vec![0x00, 0x06]);
}

#[test]
fn supported_parameters_page_and_continue() {
    // 200 configured ids on top of the two internal ones: two pages.
    let mut pids: Vec<u16> = Vec::new();
    for i in 0..200u16 {
        pids.push(0x8000 + i);
    }
    let mut responder = fresh_responder(pids);

    let first = expect_response(
        responder
            .handle_rdm_request(get_request(0x0050, vec![]), &mut RefusingHandler)
            .unwrap(),
    );
    assert_eq!(first.response_type, ResponseType::ResponseTypeAckOverflow);
    assert_eq!(first.parameter_data.len(), 230);
    assert_eq!(&first.parameter_data[..4], &[0x00, 0x20, 0x00, 0x30]);

    let second = expect_response(
        responder
            .handle_rdm_request(get_request(0x0050, vec![]), &mut RefusingHandler)
            .unwrap(),
    );
    assert_eq!(second.response_type, ResponseType::ResponseTypeAck);
    assert_eq!(second.parameter_data.len(), 2 * 202 - 230);
    // The second window continues where the first ended.
    assert_eq!(&second.parameter_data[..2], &[0x80, 115 - 2]);

    // A fresh request starts over with one page of a short list.
    let mut short = fresh_responder(vec![0x8000]);
    let only = expect_response(
        short.handle_rdm_request(get_request(0x0050, vec![]), &mut RefusingHandler).unwrap(),
    );
    assert_eq!(only.response_type, ResponseType::ResponseTypeAck);
    assert_eq!(only.parameter_data, vec![0x00, 0x20, 0x00, 0x30, 0x80, 0x00]);
}

#[test]
fn unknown_ids_go_to_the_handler() {
    struct CountingHandler {
        calls: usize,
    }

    impl RdmResponderHandlerFunc for CountingHandler {
        type Error = ();

        fn handle_rdm(
            &mut self,
            _request: &RdmRequestData,
            context: &mut DmxReceiverContext,
        ) -> Result<RdmResult, Self::Error> {
            self.calls += 1;
            context.dmx_footprint = 12;
            Ok(RdmResult::AcknowledgedTimer(0x000A))
        }
    }

    let mut responder = fresh_responder(vec![]);
    let mut handler = CountingHandler { calls: 0 };
    let response = expect_response(
        responder.handle_rdm_request(get_request(0x8123, vec![]), &mut handler).unwrap(),
    );
    assert_eq!(handler.calls, 1);
    assert_eq!(response.response_type, ResponseType::ResponseTypeAckTimer);
    assert_eq!(response.parameter_data, vec![0x00, 0x0A]);
    assert_eq!(response.command_class, ResponseCommandClass::GetCommandResponse);
    // Context changes are written back.
    assert_eq!(responder.dmx_footprint, 12);
}

#[test]
fn software_version_label_is_cut_to_32_bytes() {
    let mut long_label = Vec::new();
    for i in 0..40u8 {
        long_label.push(0x41 + (i % 26));
    }
    let mut responder = RdmResponderPackageHandler::<8>::new(RdmResponderConfig {
        uid: responder_uid(),
        supported_pids: vec![],
        rdm_receiver_metadata: RdmReceiverMetadata {
            device_model_id: 0,
            product_category: 0,
            software_version_id: 0,
            software_version_label: long_label.clone(),
        },
    });
    let response = expect_response(
        responder
            .handle_rdm_request(get_request(0x00C0, vec![]), &mut RefusingHandler)
            .unwrap(),
    );
    assert_eq!(response.parameter_data, long_label[..32].to_vec());
}

#[test]
fn queues_can_be_cleared_and_pruned() {
    let mut responder = fresh_responder(vec![]);
    let queued = get_request(0x1000, vec![])
        .build_response(ResponseType::ResponseTypeAck, vec![0x01], 0)
        .unwrap();
    responder.push_queued_message(queued).unwrap();
    assert_eq!(responder.get_message_count(), 1);
    responder.clear_message_queue();
    assert_eq!(responder.get_message_count(), 0);

    responder.push_status_message(status(StatusType::StatusAdvisory, 1)).unwrap();
    responder.push_status_message(status(StatusType::StatusWarning, 2)).unwrap();
    responder.push_status_message(status(StatusType::StatusError, 3)).unwrap();

    // Removing the middle entry keeps the others in order.
    let removed = responder.remove_status_message(1).unwrap();
    assert_eq!(removed.status_message_id, 2);
    assert_eq!(responder.get_status_vec().len(), 2);
    assert_eq!(responder.get_status_vec()[0].status_message_id, 1);
    assert_eq!(responder.get_status_vec()[1].status_message_id, 3);
    assert!(responder.remove_status_message(5).is_none());

    responder.clear_status_vec();
    assert!(responder.get_status_vec().is_empty());
}

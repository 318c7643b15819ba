use dmx_rdm::command_class::ResponseCommandClass;
use dmx_rdm::dmx_controller::{
    DmxController, DmxControllerConfig, RdmRequest, RdmResponse, RdmResponseError,
};
use dmx_rdm::dmx_driver::{DiscoveryOption, DmxError};
use dmx_rdm::dmx_uart_driver::{
    DmxRecvUartDriver, DmxRespUartDriver, DmxUartDriver, DmxUartDriverError,
};
use dmx_rdm::rdm_data::{
    deserialize_rdm_data, encode_discovery_response, serialize_rdm_data, RdmData, RdmResponseData,
};
use dmx_rdm::types::{NackReason, ResponseType};
use dmx_rdm::unique_identifier::{PackageAddress, UniqueIdentifier};

/// A scripted uart: writes are recorded, reads are served chunk by chunk.
pub struct ScriptedUart {
    pub written: Vec<Vec<u8>>,
    pub written_no_break: Vec<Vec<u8>>,
    pub read_chunks: Vec<Vec<u8>>,
    pub reads: usize,
}

impl ScriptedUart {
    pub fn new() -> Self {
        Self { written: Vec::new(), written_no_break: Vec::new(), read_chunks: Vec::new(), reads: 0 }
    }

    /// Queues one serialized packet as the two chunks the framing reads.
    pub fn queue_packet(&mut self, packet: &[u8]) {
        self.read_chunks.push(packet[..3].to_vec());
        self.read_chunks.push(packet[3..].to_vec());
    }

    fn next_chunk(&mut self, max_len: usize) -> Result<Vec<u8>, DmxUartDriverError<()>> {
        if self.read_chunks.is_empty() {
            return Err(DmxUartDriverError::TimeoutError);
        }
        self.reads += 1;
        let chunk = self.read_chunks.remove(0);
        assert!(chunk.len() <= max_len, "the script must fit the requested read");
        Ok(chunk)
    }
}

impl DmxUartDriver for ScriptedUart {
    type DriverError = ();
}

impl DmxRecvUartDriver for ScriptedUart {
    fn read_frames(&mut self, max_len: usize, _timeout_us: u32) -> Result<
        Vec<u8>,
        DmxUartDriverError<()>,
    > {
        self.next_chunk(max_len)
    }

    fn read_frames_no_break(&mut self, max_len: usize, _timeout_us: u32) -> Result<
        Vec<u8>,
        DmxUartDriverError<()>,
    > {
        self.next_chunk(max_len)
    }
}

impl DmxRespUartDriver for ScriptedUart {
    fn write_frames(&mut self, buffer: &[u8]) -> Result<usize, DmxUartDriverError<()>> {
        self.written.push(buffer.to_vec());
        Ok(buffer.len())
    }

    fn write_frames_no_break(&mut self, buffer: &[u8]) -> Result<usize, DmxUartDriverError<()>> {
        self.written_no_break.push(buffer.to_vec());
        Ok(buffer.len())
    }
}

fn controller_uid() -> UniqueIdentifier {
    UniqueIdentifier::new(0x7FF0, 0).unwrap()
}

fn responder_uid() -> UniqueIdentifier {
    UniqueIdentifier::new(0x7FF0, 1).unwrap()
}

fn ack_response(transaction_number: u8, parameter_id: u16, data: Vec<u8>) -> RdmResponseData {
    RdmResponseData {
        destination_uid: PackageAddress::Device(controller_uid()),
        source_uid: responder_uid(),
        transaction_number,
        response_type: ResponseType::ResponseTypeAck,
        message_count: 4,
        sub_device: 0,
        command_class: ResponseCommandClass::GetCommandResponse,
        parameter_id,
        parameter_data: data,
    }
}

fn fresh_controller() -> DmxController<ScriptedUart> {
    DmxController::new(ScriptedUart::new(), &DmxControllerConfig::default())
}

#[test]
fn broadcasts_return_without_reading() {
    let mut controller = fresh_controller();
    let result = controller
        .rdm_set(RdmRequest::empty(PackageAddress::Broadcast, 0x1000))
        .unwrap();
    assert!(matches!(result, RdmResponse::RequestWasBroadcast));
    // Nothing was read from the bus.
    assert_eq!(controller.get_driver().reads, 0);
    assert_eq!(controller.get_driver().written.len(), 1);
}

#[test]
fn stale_transaction_numbers_are_skipped() {
    let mut controller = fresh_controller();
    // The first request takes transaction number 1; serve one stale
    // response ahead of the matching one.
    let stale = serialize_rdm_data(&RdmData::Response(ack_response(77, 0x1000, vec![0x01])));
    let matching = serialize_rdm_data(&RdmData::Response(ack_response(1, 0x1000, vec![0x01])));
    controller.get_driver().queue_packet(&stale);
    controller.get_driver().queue_packet(&matching);

    let enabled = controller.rdm_get_identify(responder_uid()).unwrap();
    assert!(enabled);
    assert_eq!(controller.get_driver().reads, 4);
    assert_eq!(controller.rdm_get_last_message_count(), 4);
}

#[test]
fn responses_for_other_controllers_do_not_match() {
    let mut controller = fresh_controller();
    let mut misdirected = ack_response(1, 0x1000, vec![0x01]);
    misdirected.destination_uid =
        PackageAddress::Device(UniqueIdentifier::new(0x7FF0, 9).unwrap());
    let packet = serialize_rdm_data(&RdmData::Response(misdirected));
    controller.get_driver().queue_packet(&packet);

    match controller.rdm_get_identify(responder_uid()) {
        Err(RdmResponseError::NotMatching) => {},
        other => panic!("a misdirected response must not match, got ok={}", other.is_ok()),
    }
}

#[test]
fn nack_and_timer_responses_surface_as_errors() {
    let mut controller = fresh_controller();
    let mut nack = ack_response(1, 0x00F0, vec![0x00, 0x06]);
    nack.response_type = ResponseType::ResponseTypeNackReason;
    let packet = serialize_rdm_data(&RdmData::Response(nack));
    controller.get_driver().queue_packet(&packet);

    match controller.rdm_get_dmx_start_address(responder_uid()) {
        Err(RdmResponseError::NotAcknowledged(NackReason::DataOutOfRange)) => {},
        _ => panic!("a refused request must surface its reason"),
    }

    let mut controller = fresh_controller();
    let mut timer = ack_response(1, 0x00F0, vec![0x00, 0x0A]);
    timer.response_type = ResponseType::ResponseTypeAckTimer;
    let packet = serialize_rdm_data(&RdmData::Response(timer));
    controller.get_driver().queue_packet(&packet);

    match controller.rdm_get_dmx_start_address(responder_uid()) {
        Err(RdmResponseError::NotReady(10)) => {},
        _ => panic!("a deferred request must surface its delay"),
    }
}

#[test]
fn a_missing_response_is_a_timeout() {
    let mut controller = fresh_controller();
    match controller.rdm_get_identify(responder_uid()) {
        Err(RdmResponseError::DmxError(DmxError::TimeoutError)) => {},
        _ => panic!("an empty bus must surface as a timeout"),
    }
}

#[test]
fn typed_get_device_info_decodes_the_block() {
    let mut controller = fresh_controller();
    let block = vec![
        0x01, 0x00, 0x12, 0x34, 0x56, 0x78, 0x00, 0x00, 0x00, 0x09, 0x00, 0x02, 0x00, 0x01, 0x00,
        0xC8, 0x00, 0x00, 0x03,
    ];
    let packet = serialize_rdm_data(&RdmData::Response(ack_response(1, 0x0060, block)));
    controller.get_driver().queue_packet(&packet);

    let device_info = controller.rdm_get_device_info(responder_uid()).unwrap();
    assert_eq!(device_info.device_model_id, 0x1234);
    assert_eq!(device_info.product_category, 0x5678);
    assert_eq!(device_info.software_version, 9);
    assert_eq!(device_info.dmx_footprint, 2);
    assert_eq!(device_info.dmx_personality, 1);
    assert_eq!(device_info.dmx_start_address.as_u16(), 200);
    assert_eq!(device_info.sensor_count, 3);
}

#[test]
fn transaction_numbers_count_up_request_by_request() {
    let mut controller = fresh_controller();
    let _ = controller.rdm_set_identify(PackageAddress::Device(responder_uid()), true);
    let _ = controller.rdm_set_identify(PackageAddress::Device(responder_uid()), false);

    let numbers: Vec<u8> = controller
        .get_driver()
        .written
        .iter()
        .map(|bytes| match deserialize_rdm_data(bytes).unwrap() {
            RdmData::Request(request) => request.transaction_number,
            RdmData::Response(_) => panic!("the controller only sends requests"),
        })
        .collect();
    assert_eq!(numbers, vec![1, 2]);
}

#[test]
fn rdm_discover_carries_both_range_ends() {
    let mut controller = fresh_controller();
    let frame = encode_discovery_response(&responder_uid());
    controller.get_driver().read_chunks.push(frame);

    let found = controller.rdm_discover(0x0000_0000_0001, 0xFFFF_FFFF_FFFE).unwrap();
    assert!(matches!(found, DiscoveryOption::Found(uid) if uid == responder_uid()));

    let probe = controller.get_driver().written[0].clone();
    match deserialize_rdm_data(&probe).unwrap() {
        RdmData::Request(request) => {
            assert_eq!(request.parameter_id, 0x0001);
            assert_eq!(request.destination_uid, PackageAddress::Broadcast);
            assert_eq!(
                request.parameter_data,
                vec![0, 0, 0, 0, 0, 1, 0xFF, 0xFF, 0xFF, 0xFF, 0xFF, 0xFE]
            );
        },
        RdmData::Response(_) => panic!("a probe is a request"),
    }
}

#[test]
fn garbled_discovery_replies_count_as_collisions() {
    let mut controller = fresh_controller();
    controller.get_driver().read_chunks.push(vec![0xAA; 20]);
    let found = controller.rdm_discover(1, 0xFFFF_FFFF_FFFE).unwrap();
    assert!(matches!(found, DiscoveryOption::Collision));
}

#[test]
fn full_discovery_finds_and_mutes_a_lone_device() {
    let mut controller = fresh_controller();
    // The probe of the full range comes back clean...
    let frame = encode_discovery_response(&responder_uid());
    controller.get_driver().read_chunks.push(frame);
    // ...and the mute that follows is acknowledged.
    let mut mute_ack = ack_response(1, 0x0002, vec![0x00, 0x00]);
    mute_ack.command_class = ResponseCommandClass::DiscoveryCommandResponse;
    let packet = serialize_rdm_data(&RdmData::Response(mute_ack));
    controller.get_driver().queue_packet(&packet);

    let found = dmx_rdm::utils::run_full_discovery(&mut controller, 16).unwrap();
    assert_eq!(found, vec![responder_uid()]);
}

#[test]
fn full_discovery_of_an_empty_bus_finds_nothing() {
    let mut controller = fresh_controller();
    let found = dmx_rdm::utils::run_full_discovery(&mut controller, 16).unwrap();
    assert_eq!(found, vec![]);
}

#[test]
fn malformed_error_payloads_are_undeserializable() {
    // A refusal whose payload is not two bytes.
    let mut controller = fresh_controller();
    let mut nack = ack_response(1, 0x00F0, vec![0x06]);
    nack.response_type = ResponseType::ResponseTypeNackReason;
    let packet = serialize_rdm_data(&RdmData::Response(nack));
    controller.get_driver().queue_packet(&packet);
    match controller.rdm_get_dmx_start_address(responder_uid()) {
        Err(RdmResponseError::ErrorNotDeserializable) => {},
        _ => panic!("a short refusal payload is undeserializable"),
    }

    // A refusal whose code is unknown.
    let mut controller = fresh_controller();
    let mut nack = ack_response(1, 0x00F0, vec![0x00, 0x0B]);
    nack.response_type = ResponseType::ResponseTypeNackReason;
    let packet = serialize_rdm_data(&RdmData::Response(nack));
    controller.get_driver().queue_packet(&packet);
    match controller.rdm_get_dmx_start_address(responder_uid()) {
        Err(RdmResponseError::ErrorNotDeserializable) => {},
        _ => panic!("an unknown refusal code is undeserializable"),
    }

    // A deferral whose payload is not two bytes.
    let mut controller = fresh_controller();
    let mut timer = ack_response(1, 0x00F0, vec![0x0A, 0x00, 0x00]);
    timer.response_type = ResponseType::ResponseTypeAckTimer;
    let packet = serialize_rdm_data(&RdmData::Response(timer));
    controller.get_driver().queue_packet(&packet);
    match controller.rdm_get_dmx_start_address(responder_uid()) {
        Err(RdmResponseError::ErrorNotDeserializable) => {},
        _ => panic!("a malformed deferral payload is undeserializable"),
    }
}

#[test]
fn disc_mute_of_a_device_yields_the_parsed_reply() {
    let mut controller = fresh_controller();
    let mut mute_ack = ack_response(1, 0x0002, vec![0x00, 0x00]);
    mute_ack.command_class = ResponseCommandClass::DiscoveryCommandResponse;
    let packet = serialize_rdm_data(&RdmData::Response(mute_ack));
    controller.get_driver().queue_packet(&packet);

    let reply = controller
        .rdm_disc_mute(PackageAddress::Device(responder_uid()))
        .unwrap()
        .expect("a device mute carries a reply");
    assert!(!reply.managed_proxy && !reply.sub_device && !reply.boot_loader && !reply.proxy_device);
    assert_eq!(reply.binding_uid, None);

    // A broadcast mute has no reply to parse.
    let mut controller = fresh_controller();
    assert!(controller.rdm_disc_mute(PackageAddress::Broadcast).unwrap().is_none());
}

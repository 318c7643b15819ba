use dmx_rdm::command_class::RequestCommandClass;
use dmx_rdm::dmx_driver::DmxFrame;
use dmx_rdm::dmx_receiver::{DmxResponderHandler, RdmResponder};
use dmx_rdm::dmx_uart_driver::{
    DmxRecvUartDriver, DmxRespUartDriver, DmxUartDriver, DmxUartDriverError,
};
use dmx_rdm::rdm_data::{
    deserialize_rdm_data, serialize_rdm_data, RdmData, RdmRequestData,
};
use dmx_rdm::rdm_responder::{DmxReceiverContext, RdmResponderConfig, RdmResult};
use dmx_rdm::types::{NackReason, ResponseType};
use dmx_rdm::unique_identifier::{PackageAddress, UniqueIdentifier};

/// A scripted uart: writes are recorded, reads are served chunk by chunk.
struct ScriptedUart {
    written: Vec<Vec<u8>>,
    written_no_break: Vec<Vec<u8>>,
    read_chunks: Vec<Vec<u8>>,
}

impl ScriptedUart {
    fn new() -> Self {
        Self { written: Vec::new(), written_no_break: Vec::new(), read_chunks: Vec::new() }
    }

    fn queue_packet(&mut self, packet: &[u8]) {
        self.read_chunks.push(packet[..3].to_vec());
        self.read_chunks.push(packet[3..].to_vec());
    }

    fn next_chunk(&mut self, max_len: usize) -> Result<Vec<u8>, DmxUartDriverError<()>> {
        if self.read_chunks.is_empty() {
            return Err(DmxUartDriverError::TimeoutError);
        }
        let chunk = self.read_chunks.remove(0);
        assert!(chunk.len() <= max_len, "the script must fit the requested read");
        Ok(chunk)
    }
}

impl DmxUartDriver for ScriptedUart {
    type DriverError = ();
}

impl DmxRecvUartDriver for ScriptedUart {
    fn read_frames(&mut self, max_len: usize, _timeout_us: u32) -> Result<
        Vec<u8>,
        DmxUartDriverError<()>,
    > {
        self.next_chunk(max_len)
    }

    fn read_frames_no_break(&mut self, max_len: usize, _timeout_us: u32) -> Result<
        Vec<u8>,
        DmxUartDriverError<()>,
    > {
        self.next_chunk(max_len)
    }
}

impl DmxRespUartDriver for ScriptedUart {
    fn write_frames(&mut self, buffer: &[u8]) -> Result<usize, DmxUartDriverError<()>> {
        self.written.push(buffer.to_vec());
        Ok(buffer.len())
    }

    fn write_frames_no_break(&mut self, buffer: &[u8]) -> Result<usize, DmxUartDriverError<()>> {
        self.written_no_break.push(buffer.to_vec());
        Ok(buffer.len())
    }
}

struct RecordingHandler {
    dmx_frames: Vec<DmxFrame>,
}

impl DmxResponderHandler for RecordingHandler {
    type Error = ();

    fn handle_rdm(
        &mut self,
        _request: &RdmRequestData,
        _context: &mut DmxReceiverContext,
    ) -> Result<RdmResult, Self::Error> {
        Ok(RdmResult::NotAcknowledged(NackReason::UnknownPid.as_u16()))
    }

    fn handle_dmx(
        &mut self,
        dmx_frame: DmxFrame,
        _context: &mut DmxReceiverContext,
    ) -> Result<(), Self::Error> {
        self.dmx_frames.push(dmx_frame);
        Ok(())
    }
}

fn responder_uid() -> UniqueIdentifier {
    UniqueIdentifier::new(0x7FF0, 1).unwrap()
}

fn controller_uid() -> UniqueIdentifier {
    UniqueIdentifier::new(0x7FF0, 0).unwrap()
}

fn get_request(parameter_id: u16, parameter_data: Vec<u8>) -> RdmRequestData {
    RdmRequestData {
        destination_uid: PackageAddress::Device(responder_uid()),
        source_uid: controller_uid(),
        transaction_number: 5,
        port_id: 0,
        message_count: 0,
        sub_device: 0,
        command_class: RequestCommandClass::GetCommand,
        parameter_id,
        parameter_data,
    }
}

fn fresh_receiver(driver: ScriptedUart) -> RdmResponder<ScriptedUart, 8> {
    RdmResponder::new(
        driver,
        RdmResponderConfig {
            uid: responder_uid(),
            supported_pids: vec![],
            rdm_receiver_metadata: Default::default(),
        },
    )
}

#[test]
fn poll_answers_a_device_info_request_on_the_wire() {
    let mut driver = ScriptedUart::new();
    let request = serialize_rdm_data(&RdmData::Request(get_request(0x0060, vec![])));
    driver.queue_packet(&request);

    let mut receiver = fresh_receiver(driver);
    let mut handler = RecordingHandler { dmx_frames: vec![] };
    assert_eq!(receiver.poll(&mut handler).unwrap(), true);

    // One structured response went out, with a break, echoing the request.
    assert_eq!(receiver.get_driver().written.len(), 1);
    assert_eq!(receiver.get_driver().written_no_break.len(), 0);
    let sent = receiver.get_driver().written[0].clone();
    match deserialize_rdm_data(&sent).unwrap() {
        RdmData::Response(response) => {
            assert_eq!(response.destination_uid, PackageAddress::Device(controller_uid()));
            assert_eq!(response.source_uid, responder_uid());
            assert_eq!(response.transaction_number, 5);
            assert_eq!(response.response_type, ResponseType::ResponseTypeAck);
            assert_eq!(response.parameter_id, 0x0060);
            assert_eq!(response.parameter_data.len(), 19);
        },
        RdmData::Request(_) => panic!("the answer is a response"),
    }
}

#[test]
fn poll_sends_discovery_replies_without_a_break() {
    let mut driver = ScriptedUart::new();
    let mut probe = get_request(
        0x0001,
        vec![0, 0, 0, 0, 0, 0, 0xFF, 0xFF, 0xFF, 0xFF, 0xFF, 0xFE],
    );
    probe.command_class = RequestCommandClass::DiscoveryCommand;
    probe.destination_uid = PackageAddress::Broadcast;
    let request = serialize_rdm_data(&RdmData::Request(probe));
    driver.queue_packet(&request);

    let mut receiver = fresh_receiver(driver);
    let mut handler = RecordingHandler { dmx_frames: vec![] };
    assert_eq!(receiver.poll(&mut handler).unwrap(), true);

    assert_eq!(receiver.get_driver().written.len(), 0);
    assert_eq!(receiver.get_driver().written_no_break.len(), 1);
    let frame = receiver.get_driver().written_no_break[0].clone();
    assert_eq!(
        frame,
        dmx_rdm::rdm_data::encode_discovery_response(&responder_uid())
    );
}

#[test]
fn poll_times_out_quietly() {
    let driver = ScriptedUart::new();
    let mut receiver = fresh_receiver(driver);
    let mut handler = RecordingHandler { dmx_frames: vec![] };
    assert_eq!(receiver.poll(&mut handler).unwrap(), false);
}

#[test]
fn poll_routes_dmx_frames_to_the_handler() {
    let mut driver = ScriptedUart::new();
    // A null-start frame: three header bytes, then the rest of the frame.
    driver.read_chunks.push(vec![0x00, 0x10, 0x20]);
    driver.read_chunks.push(vec![0x30, 0x40]);

    let mut receiver = fresh_receiver(driver);
    let mut handler = RecordingHandler { dmx_frames: vec![] };
    assert_eq!(receiver.poll(&mut handler).unwrap(), true);
    assert_eq!(handler.dmx_frames, vec![vec![0x00, 0x10, 0x20, 0x30, 0x40]]);
}

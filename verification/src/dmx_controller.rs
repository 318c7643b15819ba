//! The controller engine: transaction numbering, request and response
//! matching, the typed get and set helpers, and the discovery probe.

use crate::command_class::RequestCommandClass;
use crate::dmx_driver::{
    ControllerDriverErrorDef, CustomStartCodeControllerDriver, DiscoveryOption,
    DmxControllerDriver, DmxError, RdmControllerDriver,
};
use crate::pids;
use crate::rdm_data::{RdmData, RdmRequestData, RdmResponseData};
use crate::rdm_packages::{
    deserialize_identify, deserialize_software_version_label, deserialize_status_messages,
    deserialize_supported_parameters, RdmResponseInfo, RdmResponsePackage,
};
use crate::rdm_types::{
    DeviceInfo, DiscoveryMuteResponse, DmxStartAddress, OverflowMessageResp, StatusMessage,
    StatusType,
};
use crate::types::{data_pack_wf, DataPack, NackReason, ResponseType};
use crate::unique_identifier::{PackageAddress, UniqueIdentifier};
use crate::utils::{be16_decode, be16_hi, be16_lo};
use vstd::prelude::*;

verus! {

/// How the controller is set up.
#[derive(Debug)]
pub struct DmxControllerConfig {
    pub rdm_uid: UniqueIdentifier,
}

impl Default for DmxControllerConfig {
    /// The prototyping id.
    fn default() -> (r: Self)
        ensures
            r.rdm_uid == (UniqueIdentifier { manufacturer_uid: 0x7FF0u16, device_uid: 0u32 }),
    {
        Self { rdm_uid: UniqueIdentifier { manufacturer_uid: 0x7FF0, device_uid: 0 } }
    }
}

/// One request to send: where to, which parameter, and its payload.
#[derive(Debug)]
pub struct RdmRequest {
    /// The unique id of the recipient of the request.
    pub destination_uid: PackageAddress,
    /// The id that specifies the type of the package.
    pub parameter_id: u16,
    /// The parameter data.
    pub data: DataPack,
}

impl RdmRequest {
    /// Creates an RdmRequest with empty parameter data.
    pub fn empty(uid: PackageAddress, pid: u16) -> (r: Self)
        ensures
            r.destination_uid == uid,
            r.parameter_id == pid,
            r.data@.len() == 0,
    {
        Self { destination_uid: uid, parameter_id: pid, data: Vec::new() }
    }
}

/// What one request came back with.
#[derive(Debug)]
pub enum RdmResponse {
    /// The message data of the response.
    Response(RdmResponseInfo),
    /// The request has been accepted but the message data is too big to fit
    /// into one response. Use the get command on the same pid to receive the
    /// rest of it until you just receive a Response.
    IncompleteResponse(RdmResponseInfo),
    /// No response was received since the request was a broadcast.
    RequestWasBroadcast,
}

/// An RDM controller.
pub struct DmxController<C: ControllerDriverErrorDef> {
    driver: C,
    uid: UniqueIdentifier,
    current_transaction_id: u8,
    last_message_count: u8,
}

/// Mathematical model of the controller state; the driver is opaque.
pub struct ControllerModel {
    pub uid: UniqueIdentifier,
    pub current_transaction_id: u8,
    pub last_message_count: u8,
}

impl<C: ControllerDriverErrorDef> View for DmxController<C> {
    type V = ControllerModel;

    closed spec fn view(&self) -> ControllerModel {
        ControllerModel {
            uid: self.uid,
            current_transaction_id: self.current_transaction_id,
            last_message_count: self.last_message_count,
        }
    }
}

/// Failure of one controller request.
#[derive(Debug)]
pub enum RdmResponseError<E> {
    /// The received package doesn't match the request.
    NotMatching,
    /// The parameter data couldn't be deserialized.
    ParameterDataNotDeserializable,
    /// The response has an error status but the contents aren't deserializable.
    ErrorNotDeserializable,
    /// The response isn't ready yet. The value is the estimated time in 100ms steps.
    NotReady(u16),
    /// The responder didn't acknowledge the request.
    NotAcknowledged(NackReason),
    /// The underlying dmx controller raised an error.
    DmxError(DmxError<E>),
}

/// The transaction number after one more request: the counter wraps.
pub open spec fn next_transaction_id(id: u8) -> u8 {
    if id == 255 {
        0
    } else {
        (id + 1) as u8
    }
}

/// Stale responses are dropped for at most this many reads before the
/// request is given up as unmatched; the transaction counter cannot
/// distinguish more.
pub const MAX_STALE_RESPONSES: usize = 255;

impl<D: ControllerDriverErrorDef> DmxController<D> {
    /// Creates a new DmxManager instance.
    pub fn new(driver: D, config: &DmxControllerConfig) -> (r: Self)
        ensures
            r@ == (ControllerModel {
                uid: config.rdm_uid,
                current_transaction_id: 0u8,
                last_message_count: 0u8,
            }),
    {
        Self { driver, uid: config.rdm_uid, current_transaction_id: 0, last_message_count: 0 }
    }

    /// Get a reference to the underlying driver.
    pub fn get_driver(&mut self) -> (r: &mut D)
        ensures
            final(self)@ == old(self)@,
    {
        &mut self.driver
    }
}

impl<D: CustomStartCodeControllerDriver> DmxController<D> {
    /// Sends a package with a custom start code.
    pub fn send_custom_package(&mut self, start_code: u8, package: &[u8]) -> (r: Result<
        (),
        RdmResponseError<D::DriverError>,
    >)
        ensures
            final(self)@ == old(self)@,
    {
        match self.driver.send_custom_package(start_code, package) {
            Ok(()) => Ok(()),
            Err(dmx_error) => Err(RdmResponseError::DmxError(dmx_error)),
        }
    }
}

impl<D: DmxControllerDriver> DmxController<D> {
    /// Sends a dmx package. Package can't be bigger than 512 bytes.
    pub fn send_dmx_package(&mut self, package: &[u8]) -> (r: Result<
        (),
        RdmResponseError<D::DriverError>,
    >)
        ensures
            final(self)@ == old(self)@,
    {
        match self.driver.send_dmx_package(package) {
            Ok(()) => Ok(()),
            Err(dmx_error) => Err(RdmResponseError::DmxError(dmx_error)),
        }
    }
}

impl<D: RdmControllerDriver> DmxController<D> {
    /// Sends one request under a fresh transaction number and reads until
    /// a response under that number arrives; stale responses are dropped.
    /// A broadcast request is not answered on the bus and comes back as
    /// [`RdmResponse::RequestWasBroadcast`] without reading. An
    /// acknowledged response carries its payload, an overflow one signals
    /// continuation, a timer or refusal surfaces as an error.
    fn rdm_request(&mut self, command_class: RequestCommandClass, request: RdmRequest) -> (r:
        Result<RdmResponse, RdmResponseError<D::DriverError>>)
        requires
            data_pack_wf(request.data@),
        ensures
            final(self)@.uid == old(self)@.uid,
            final(self)@.current_transaction_id == next_transaction_id(
                old(self)@.current_transaction_id,
            ),
            crate::unique_identifier::addr_is_broadcast(request.destination_uid) ==> final(self)@.last_message_count == old(
                self,
            )@.last_message_count,
            crate::unique_identifier::addr_is_broadcast(request.destination_uid) && r is Ok ==> r->Ok_0
                is RequestWasBroadcast,
            crate::unique_identifier::addr_is_broadcast(request.destination_uid) && r is Err
                ==> r->Err_0 is DmxError,
            !crate::unique_identifier::addr_is_broadcast(request.destination_uid) && r is Ok ==> !(r->Ok_0
                is RequestWasBroadcast),
            r is Ok ==> match r->Ok_0 {
                RdmResponse::Response(info) => final(self)@.last_message_count
                    == info.message_count,
                RdmResponse::IncompleteResponse(info) => final(self)@.last_message_count
                    == info.message_count,
                RdmResponse::RequestWasBroadcast => final(self)@.last_message_count == old(
                    self,
                )@.last_message_count,
            },
    {
        self.current_transaction_id = self.current_transaction_id.wrapping_add(1);

        let send_result = self.driver.send_rdm(
            RdmData::Request(
                RdmRequestData {
                    destination_uid: request.destination_uid,
                    source_uid: self.uid,
                    transaction_number: self.current_transaction_id,
                    port_id: 0,
                    message_count: 0,
                    sub_device: 0,
                    command_class,
                    parameter_id: request.parameter_id,
                    parameter_data: request.data,
                },
            ),
        );
        match send_result {
            Ok(()) => {},
            Err(dmx_error) => {
                return Err(RdmResponseError::DmxError(dmx_error));
            },
        }

        if request.destination_uid.is_broadcast() {
            return Ok(RdmResponse::RequestWasBroadcast);
        }

        let mut stale_reads: usize = 0;
        let mut matched: Option<crate::rdm_data::RdmResponseData> = None;
        while matched.is_none()
            invariant
                stale_reads <= MAX_STALE_RESPONSES,
                !crate::unique_identifier::addr_is_broadcast(request.destination_uid),
                self@.uid == old(self)@.uid,
                self@.last_message_count == old(self)@.last_message_count,
                self@.current_transaction_id == next_transaction_id(
                    old(self)@.current_transaction_id,
                ),
                matched is Some ==> data_pack_wf(matched.unwrap().parameter_data@),
            decreases MAX_STALE_RESPONSES - stale_reads + (if matched is None {
                1int
            } else {
                0int
            }),
        {
            let received = match self.driver.receive_rdm() {
                Ok(received) => received,
                Err(dmx_error) => {
                    return Err(RdmResponseError::DmxError(dmx_error));
                },
            };
            let candidate = match received {
                RdmData::Request(_) => {
                    return Err(RdmResponseError::NotMatching);
                },
                RdmData::Response(candidate) => candidate,
            };

            if self.current_transaction_id == candidate.transaction_number {
                matched = Some(candidate);
            } else {
                // A response under another number is stale traffic; drop
                // it, but only so often that the counter cannot have
                // wrapped around.
                if stale_reads >= MAX_STALE_RESPONSES {
                    return Err(RdmResponseError::NotMatching);
                }
                stale_reads = stale_reads + 1;
            }
        }
        let response = match matched {
            Some(response) => response,
            None => {
                return Err(RdmResponseError::NotMatching);
            },
        };

        let own_address_matches = match response.destination_uid {
            PackageAddress::Device(device_uid) => device_uid == self.uid,
            _ => false,
        };
        if own_address_matches {
            self.last_message_count = response.message_count;
        }

        map_matched_response(response, self.uid)
    }

    /// Sends a get request.
    pub fn rdm_get(&mut self, request: RdmRequest) -> (r: Result<
        RdmResponse,
        RdmResponseError<D::DriverError>,
    >)
        requires
            data_pack_wf(request.data@),
        ensures
            final(self)@.uid == old(self)@.uid,
            final(self)@.current_transaction_id == next_transaction_id(
                old(self)@.current_transaction_id,
            ),
            crate::unique_identifier::addr_is_broadcast(request.destination_uid) && r is Ok ==> r->Ok_0
                is RequestWasBroadcast,
            crate::unique_identifier::addr_is_broadcast(request.destination_uid) && r is Err
                ==> r->Err_0 is DmxError,
    {
        self.rdm_request(RequestCommandClass::GetCommand, request)
    }

    /// Sends a set request.
    pub fn rdm_set(&mut self, request: RdmRequest) -> (r: Result<
        RdmResponse,
        RdmResponseError<D::DriverError>,
    >)
        requires
            data_pack_wf(request.data@),
        ensures
            final(self)@.uid == old(self)@.uid,
            final(self)@.current_transaction_id == next_transaction_id(
                old(self)@.current_transaction_id,
            ),
            crate::unique_identifier::addr_is_broadcast(request.destination_uid) && r is Ok ==> r->Ok_0
                is RequestWasBroadcast,
            crate::unique_identifier::addr_is_broadcast(request.destination_uid) && r is Err
                ==> r->Err_0 is DmxError,
    {
        self.rdm_request(RequestCommandClass::SetCommand, request)
    }

    /// Sends a discovery request to a range of device ids and returns the
    /// found uid if there is no collision and the device does not have its
    /// discovery muted. The probe is a broadcast carrying both range ends
    /// as six big-endian bytes each.
    pub fn rdm_discover(&mut self, first_uid: u64, last_uid: u64) -> (r: Result<
        DiscoveryOption,
        RdmResponseError<D::DriverError>,
    >)
        ensures
            final(self)@ == old(self)@,
            r is Ok && r->Ok_0 is Found ==> (r->Ok_0->Found_0).device_uid != 0xFFFF_FFFF,
    {
        let mut parameter_data: DataPack = Vec::new();
        push_uid_bytes(&mut parameter_data, first_uid);
        push_uid_bytes(&mut parameter_data, last_uid);

        let send_result = self.driver.send_rdm(
            RdmData::Request(
                RdmRequestData {
                    destination_uid: PackageAddress::Broadcast,
                    source_uid: self.uid,
                    transaction_number: self.current_transaction_id,
                    port_id: 0,
                    message_count: 0,
                    sub_device: 0,
                    command_class: RequestCommandClass::DiscoveryCommand,
                    parameter_id: pids::DISC_UNIQUE_BRANCH,
                    parameter_data,
                },
            ),
        );
        match send_result {
            Ok(()) => {},
            Err(dmx_error) => {
                return Err(RdmResponseError::DmxError(dmx_error));
            },
        }

        match self.driver.receive_rdm_discovery_response() {
            Ok(discovery_option) => Ok(discovery_option),
            Err(dmx_error) => Err(RdmResponseError::DmxError(dmx_error)),
        }
    }

    /// Mute device from discovery. It will not respond to discovery requests anymore.
    /// Returns None if the request was a broadcast.
    pub fn rdm_disc_mute(&mut self, uid: PackageAddress) -> (r: Result<
        Option<DiscoveryMuteResponse>,
        RdmResponseError<D::DriverError>,
    >)
        ensures
            final(self)@.uid == old(self)@.uid,
            final(self)@.current_transaction_id == next_transaction_id(
                old(self)@.current_transaction_id,
            ),
            crate::unique_identifier::addr_is_broadcast(uid) && r is Ok ==> r->Ok_0 is None,
            !crate::unique_identifier::addr_is_broadcast(uid) && r is Ok ==> r->Ok_0 is Some,
    {
        let response = match self.rdm_request(
            RequestCommandClass::DiscoveryCommand,
            RdmRequest::empty(uid, pids::DISC_MUTE),
        ) {
            Ok(response) => response,
            Err(request_error) => {
                return Err(request_error);
            },
        };

        deserialize_discovery_mute_response::<D>(&response)
    }

    /// Unmute device from discovery. It will respond to discovery requests again.
    /// Returns None if the request was a broadcast.
    pub fn rdm_disc_un_mute(&mut self, uid: PackageAddress) -> (r: Result<
        Option<DiscoveryMuteResponse>,
        RdmResponseError<D::DriverError>,
    >)
        ensures
            final(self)@.uid == old(self)@.uid,
            final(self)@.current_transaction_id == next_transaction_id(
                old(self)@.current_transaction_id,
            ),
            crate::unique_identifier::addr_is_broadcast(uid) && r is Ok ==> r->Ok_0 is None,
            !crate::unique_identifier::addr_is_broadcast(uid) && r is Ok ==> r->Ok_0 is Some,
    {
        let response = match self.rdm_request(
            RequestCommandClass::DiscoveryCommand,
            RdmRequest::empty(uid, pids::DISC_UN_MUTE),
        ) {
            Ok(response) => response,
            Err(request_error) => {
                return Err(request_error);
            },
        };

        deserialize_discovery_mute_response::<D>(&response)
    }

    /// Get the identify state in the rdm device (led for searching).
    /// Success means the responder acknowledged with a one-byte payload;
    /// any non-zero byte reads as on.
    pub fn rdm_get_identify(&mut self, uid: UniqueIdentifier) -> (r: Result<
        bool,
        RdmResponseError<D::DriverError>,
    >)
        ensures
            final(self)@.uid == old(self)@.uid,
            final(self)@.current_transaction_id == next_transaction_id(
                old(self)@.current_transaction_id,
            ),
    {
        let response = match self.rdm_get(
            RdmRequest::empty(PackageAddress::Device(uid), pids::IDENTIFY_DEVICE),
        ) {
            Ok(response) => response,
            Err(request_error) => {
                return Err(request_error);
            },
        };

        match response {
            RdmResponse::Response(response_info) => {
                match deserialize_identify(response_info.data.as_slice()) {
                    Ok(enabled) => Ok(enabled),
                    Err(_) => Err(RdmResponseError::ParameterDataNotDeserializable),
                }
            },
            _ => Err(RdmResponseError::ParameterDataNotDeserializable),
        }
    }

    /// Set the identify state in the rdm device (led for searching).
    pub fn rdm_set_identify(&mut self, uid: PackageAddress, enabled: bool) -> (r: Result<
        (),
        RdmResponseError<D::DriverError>,
    >)
        ensures
            final(self)@.uid == old(self)@.uid,
            final(self)@.current_transaction_id == next_transaction_id(
                old(self)@.current_transaction_id,
            ),
    {
        let mut data: DataPack = Vec::new();
        data.push(if enabled {
            1
        } else {
            0
        });
        match self.rdm_set(
            RdmRequest { destination_uid: uid, parameter_id: pids::IDENTIFY_DEVICE, data },
        ) {
            Ok(_) => Ok(()),
            Err(request_error) => Err(request_error),
        }
    }

    /// Get the software version label. Success means the responder
    /// acknowledged with at most 32 bytes of valid text.
    pub fn rdm_get_software_version_label(&mut self, uid: UniqueIdentifier) -> (r: Result<
        String,
        RdmResponseError<D::DriverError>,
    >)
        ensures
            final(self)@.uid == old(self)@.uid,
            final(self)@.current_transaction_id == next_transaction_id(
                old(self)@.current_transaction_id,
            ),
    {
        let response_info = match self.rdm_get(
            RdmRequest::empty(PackageAddress::Device(uid), pids::SOFTWARE_VERSION_LABEL),
        ) {
            Ok(RdmResponse::Response(response_info)) => response_info,
            Ok(_) => {
                return Err(RdmResponseError::ParameterDataNotDeserializable);
            },
            Err(request_error) => {
                return Err(request_error);
            },
        };

        match deserialize_software_version_label(response_info.data.as_slice()) {
            Ok(label) => Ok(label),
            Err(_) => Err(RdmResponseError::ParameterDataNotDeserializable),
        }
    }

    /// Get the current start address of the dmx slave.
    pub fn rdm_get_dmx_start_address(&mut self, uid: UniqueIdentifier) -> (r: Result<
        DmxStartAddress,
        RdmResponseError<D::DriverError>,
    >)
        ensures
            final(self)@.uid == old(self)@.uid,
            final(self)@.current_transaction_id == next_transaction_id(
                old(self)@.current_transaction_id,
            ),
            r is Ok ==> crate::rdm_types::start_address_wf(r->Ok_0),
    {
        let response = match self.rdm_get(
            RdmRequest::empty(PackageAddress::Device(uid), pids::DMX_START_ADDRESS),
        ) {
            Ok(RdmResponse::Response(response)) => response,
            Ok(_) => {
                return Err(RdmResponseError::ParameterDataNotDeserializable);
            },
            Err(request_error) => {
                return Err(request_error);
            },
        };

        match DmxStartAddress::deserialize(response.data.as_slice()) {
            Ok(start_address) => Ok(start_address),
            Err(_) => Err(RdmResponseError::ParameterDataNotDeserializable),
        }
    }

    /// Set the current start address of the dmx slave. The address has to
    /// be between 1 and 512.
    pub fn rdm_set_dmx_start_address(&mut self, uid: PackageAddress, start_address: u16) -> (r:
        Result<(), RdmResponseError<D::DriverError>>)
        requires
            1 <= start_address <= 512,
        ensures
            final(self)@.uid == old(self)@.uid,
            final(self)@.current_transaction_id == next_transaction_id(
                old(self)@.current_transaction_id,
            ),
    {
        let mut data: DataPack = Vec::new();
        data.push(be16_hi(start_address));
        data.push(be16_lo(start_address));

        match self.rdm_set(
            RdmRequest { destination_uid: uid, parameter_id: pids::DMX_START_ADDRESS, data },
        ) {
            Ok(_) => Ok(()),
            Err(request_error) => Err(request_error),
        }
    }

    /// Get the last queued message.
    ///
    /// Use [`DmxController::rdm_get_last_message_count`]
    /// to receive the message count from the last request.
    ///
    /// If no messages are queued this will return the current status
    /// messages; filter them with the [`StatusType`].
    pub fn rdm_get_queued_message(&mut self, uid: UniqueIdentifier, status_requested: StatusType)
        -> (r: Result<RdmResponsePackage, RdmResponseError<D::DriverError>>)
        ensures
            final(self)@.uid == old(self)@.uid,
            final(self)@.current_transaction_id == next_transaction_id(
                old(self)@.current_transaction_id,
            ),
    {
        let mut data: DataPack = Vec::new();
        data.push(status_requested.as_u8());
        let response = match self.rdm_get(
            RdmRequest {
                destination_uid: PackageAddress::Device(uid),
                parameter_id: pids::QUEUED_MESSAGE,
                data,
            },
        ) {
            Ok(response) => response,
            Err(request_error) => {
                return Err(request_error);
            },
        };

        match response {
            RdmResponse::Response(response_info) => {
                match RdmResponsePackage::from_response_info(response_info) {
                    Ok(package) => Ok(package),
                    Err(_) => Err(RdmResponseError::ParameterDataNotDeserializable),
                }
            },
            _ => Err(RdmResponseError::ParameterDataNotDeserializable),
        }
    }

    /// Get status messages. Filter severity by using
    /// [`StatusType::StatusAdvisory`], [`StatusType::StatusWarning`] and
    /// [`StatusType::StatusError`].
    pub fn rdm_get_status_messages(&mut self, uid: UniqueIdentifier, status_requested: StatusType)
        -> (r: Result<OverflowMessageResp<Vec<StatusMessage>>, RdmResponseError<D::DriverError>>)
        ensures
            final(self)@.uid == old(self)@.uid,
            final(self)@.current_transaction_id == next_transaction_id(
                old(self)@.current_transaction_id,
            ),
    {
        let mut data: DataPack = Vec::new();
        data.push(status_requested.as_u8());
        let response = match self.rdm_get(
            RdmRequest {
                destination_uid: PackageAddress::Device(uid),
                parameter_id: pids::STATUS_MESSAGES,
                data,
            },
        ) {
            Ok(response) => response,
            Err(request_error) => {
                return Err(request_error);
            },
        };

        match response {
            RdmResponse::Response(response_info) => {
                match deserialize_status_messages(response_info.data.as_slice()) {
                    Ok(messages) => Ok(OverflowMessageResp::Complete(messages)),
                    Err(_) => Err(RdmResponseError::ParameterDataNotDeserializable),
                }
            },
            RdmResponse::IncompleteResponse(response_info) => {
                match deserialize_status_messages(response_info.data.as_slice()) {
                    Ok(messages) => Ok(OverflowMessageResp::Incomplete(messages)),
                    Err(_) => Err(RdmResponseError::ParameterDataNotDeserializable),
                }
            },
            _ => Err(RdmResponseError::ParameterDataNotDeserializable),
        }
    }

    /// Get the parameter ids that are supported by the responder.
    ///
    /// Note that this only includes optional parameter ids that are not
    /// required to be compliant with the standard.
    pub fn rdm_get_supported_parameters(&mut self, uid: UniqueIdentifier) -> (r: Result<
        OverflowMessageResp<Vec<u16>>,
        RdmResponseError<D::DriverError>,
    >)
        ensures
            final(self)@.uid == old(self)@.uid,
            final(self)@.current_transaction_id == next_transaction_id(
                old(self)@.current_transaction_id,
            ),
    {
        let response = match self.rdm_get(
            RdmRequest::empty(PackageAddress::Device(uid), pids::SUPPORTED_PARAMETERS),
        ) {
            Ok(response) => response,
            Err(request_error) => {
                return Err(request_error);
            },
        };

        match response {
            RdmResponse::Response(response_info) => {
                match deserialize_supported_parameters(response_info.data.as_slice()) {
                    Ok(parameters) => Ok(OverflowMessageResp::Complete(parameters)),
                    Err(_) => Err(RdmResponseError::ParameterDataNotDeserializable),
                }
            },
            RdmResponse::IncompleteResponse(response_info) => {
                match deserialize_supported_parameters(response_info.data.as_slice()) {
                    Ok(parameters) => Ok(OverflowMessageResp::Incomplete(parameters)),
                    Err(_) => Err(RdmResponseError::ParameterDataNotDeserializable),
                }
            },
            _ => Err(RdmResponseError::ParameterDataNotDeserializable),
        }
    }

    /// Get the device info from the rdm device.
    pub fn rdm_get_device_info(&mut self, uid: UniqueIdentifier) -> (r: Result<
        DeviceInfo,
        RdmResponseError<D::DriverError>,
    >)
        ensures
            final(self)@.uid == old(self)@.uid,
            final(self)@.current_transaction_id == next_transaction_id(
                old(self)@.current_transaction_id,
            ),
    {
        let response = match self.rdm_get(
            RdmRequest::empty(PackageAddress::Device(uid), pids::DEVICE_INFO),
        ) {
            Ok(response) => response,
            Err(request_error) => {
                return Err(request_error);
            },
        };
        match response {
            RdmResponse::Response(response_info) => {
                match DeviceInfo::deserialize(response_info.data.as_slice()) {
                    Ok(device_info) => Ok(device_info),
                    Err(_) => Err(RdmResponseError::ParameterDataNotDeserializable),
                }
            },
            _ => Err(RdmResponseError::ParameterDataNotDeserializable),
        }
    }

    /// Returns the message count that was received on the last request
    /// using this instance.
    pub fn rdm_get_last_message_count(&self) -> (r: u8)
        ensures
            r == self@.last_message_count,
    {
        self.last_message_count
    }
}

/// Appends the six big-endian bytes of the low 48 bits of a value.
fn push_uid_bytes(data: &mut Vec<u8>, value: u64)
    ensures
        final(data)@ == old(data)@ + seq![
            ((value / 0x100_0000_0000) % 0x100) as u8,
            ((value / 0x1_0000_0000) % 0x100) as u8,
            ((value / 0x100_0000) % 0x100) as u8,
            ((value / 0x1_0000) % 0x100) as u8,
            ((value / 0x100) % 0x100) as u8,
            (value % 0x100) as u8,
        ],
{
    data.push(((value / 0x100_0000_0000) % 0x100) as u8);
    data.push(((value / 0x1_0000_0000) % 0x100) as u8);
    data.push(((value / 0x100_0000) % 0x100) as u8);
    data.push(((value / 0x1_0000) % 0x100) as u8);
    data.push(((value / 0x100) % 0x100) as u8);
    data.push((value % 0x100) as u8);
    proof {
        assert(data@ =~= old(data)@ + seq![
            ((value / 0x100_0000_0000) % 0x100) as u8,
            ((value / 0x1_0000_0000) % 0x100) as u8,
            ((value / 0x100_0000) % 0x100) as u8,
            ((value / 0x1_0000) % 0x100) as u8,
            ((value / 0x100) % 0x100) as u8,
            (value % 0x100) as u8,
        ]);
    }
}

/// What the controller makes of the response that matched its
/// transaction number: a reply addressed to another controller does not
/// match; an acknowledgement carries its payload; an overflow
/// acknowledgement signals continuation; a timer or a refusal carries a
/// two-byte big-endian value, whose absence or unknown code is
/// undeserializable.
fn map_matched_response<E>(response: RdmResponseData, own_uid: UniqueIdentifier) -> (r: Result<
    RdmResponse,
    RdmResponseError<E>,
>)
    ensures
        response.destination_uid != PackageAddress::Device(own_uid) ==> r
            == Err::<RdmResponse, RdmResponseError<E>>(RdmResponseError::NotMatching),
        response.destination_uid == PackageAddress::Device(own_uid) ==> match response
            .response_type {
            ResponseType::ResponseTypeAck => r is Ok && r->Ok_0 is Response && {
                let info = r->Ok_0->Response_0;
                &&& info.parameter_id == response.parameter_id
                &&& info.message_count == response.message_count
                &&& info.data@ == response.parameter_data@
            },
            ResponseType::ResponseTypeAckOverflow => r is Ok && r->Ok_0 is IncompleteResponse && {
                let info = r->Ok_0->IncompleteResponse_0;
                &&& info.parameter_id == response.parameter_id
                &&& info.message_count == response.message_count
                &&& info.data@ == response.parameter_data@
            },
            ResponseType::ResponseTypeAckTimer => if response.parameter_data@.len() == 2 {
                r == Err::<RdmResponse, RdmResponseError<E>>(
                    RdmResponseError::NotReady(
                        crate::utils::be16(
                            response.parameter_data@[0],
                            response.parameter_data@[1],
                        ),
                    ),
                )
            } else {
                r == Err::<RdmResponse, RdmResponseError<E>>(
                    RdmResponseError::ErrorNotDeserializable,
                )
            },
            ResponseType::ResponseTypeNackReason => if response.parameter_data@.len() == 2 {
                match crate::types::spec_nack_reason_from_u16(
                    crate::utils::be16(response.parameter_data@[0], response.parameter_data@[1]),
                ) {
                    Some(reason) => r == Err::<RdmResponse, RdmResponseError<E>>(
                        RdmResponseError::NotAcknowledged(reason),
                    ),
                    None => r == Err::<RdmResponse, RdmResponseError<E>>(
                        RdmResponseError::ErrorNotDeserializable,
                    ),
                }
            } else {
                r == Err::<RdmResponse, RdmResponseError<E>>(
                    RdmResponseError::ErrorNotDeserializable,
                )
            },
        },
{
    let own_address_matches = match response.destination_uid {
        PackageAddress::Device(device_uid) => device_uid == own_uid,
        _ => false,
    };
    if !own_address_matches {
        return Err(RdmResponseError::NotMatching);
    }

    let response_type = response.response_type;
    let response_info = RdmResponseInfo {
        parameter_id: response.parameter_id,
        message_count: response.message_count,
        data: response.parameter_data,
    };

    match response_type {
        ResponseType::ResponseTypeAck => Ok(RdmResponse::Response(response_info)),
        ResponseType::ResponseTypeAckTimer => {
            if response_info.data.len() != 2 {
                return Err(RdmResponseError::ErrorNotDeserializable);
            }

            Err(
                RdmResponseError::NotReady(
                    be16_decode(response_info.data[0], response_info.data[1]),
                ),
            )
        },
        ResponseType::ResponseTypeNackReason => {
            if response_info.data.len() != 2 {
                return Err(RdmResponseError::ErrorNotDeserializable);
            }

            let nack_reason = match NackReason::from_u16(
                be16_decode(response_info.data[0], response_info.data[1]),
            ) {
                Some(nack_reason) => nack_reason,
                None => {
                    return Err(RdmResponseError::ErrorNotDeserializable);
                },
            };

            Err(RdmResponseError::NotAcknowledged(nack_reason))
        },
        ResponseType::ResponseTypeAckOverflow => {
            Ok(RdmResponse::IncompleteResponse(response_info))
        },
    }
}

/// Reads the mute or unmute acknowledgement: absent for a broadcast,
/// otherwise the parsed control field and optional binding id.
fn deserialize_discovery_mute_response<D: RdmControllerDriver>(response: &RdmResponse) -> (r:
    Result<Option<DiscoveryMuteResponse>, RdmResponseError<D::DriverError>>)
    ensures
        response is RequestWasBroadcast ==> r is Ok && r->Ok_0 is None,
        response is Response && r is Ok ==> r->Ok_0 is Some,
        response is IncompleteResponse ==> r is Err,
{
    match response {
        RdmResponse::Response(response_info) => {
            match DiscoveryMuteResponse::deserialize(response_info.data.as_slice()) {
                Ok(mute_response) => Ok(Some(mute_response)),
                Err(_) => Err(RdmResponseError::ParameterDataNotDeserializable),
            }
        },
        RdmResponse::RequestWasBroadcast => Ok(None),
        RdmResponse::IncompleteResponse(_) => Err(
            RdmResponseError::ParameterDataNotDeserializable,
        ),
    }
}

} // verus!

//! The responder engine: request dispatch, discovery muting, the queued
//! message queue, status-message filtering and multi-part continuation,
//! independent of any driver.

use crate::command_class::{spec_response_class_of, RequestCommandClass};
use crate::consts::RDM_MAX_STATUS_PACKAGES_PER_REQUEST;
use crate::pids;
use crate::rdm_data::{clone_bytes, RdmRequestData, RdmResponseData, ReqModel, RespModel};
use crate::rdm_types::{
    spec_status_message_bytes, spec_status_type_from_u8, start_address_u16, status_severity,
    DeviceInfo, DiscoveryMuteResponse, DmxStartAddress, StatusMessage, StatusType,
};
use crate::types::{data_pack_wf, DataPack, NackReason, ResponseType};
use crate::unique_identifier::{
    addr_is_broadcast, addr_u64, spec_addr_from_bytes, uid_u64, uid_wf, PackageAddress,
    UniqueIdentifier,
};
use vstd::prelude::*;

verus! {

/// The result object of an RDM handler.
pub enum RdmResult {
    /// The package was acknowledged. The [`DataPack`] contains the response data.
    Acknowledged(DataPack),
    /// The package was acknowledged, but it does not fit into one [`DataPack`].
    /// The [`DataPack`] contains part of the response.
    AcknowledgedOverflow(DataPack),
    /// The message was not acknowledged. The [`u16`] is the [`NackReason`].
    NotAcknowledged(u16),
    /// The message was acknowledged but a result can not be delivered
    /// immediately. The [`u16`] contains the amount of time the controller
    /// has to wait in 100ms steps.
    AcknowledgedTimer(u16),
    /// The receiver does not respond with anything.
    NoResponse,
    /// A custom response.
    Custom(RdmResponseData),
}

/// Every payload a handler hands back fits one packet.
pub open spec fn rdm_result_wf(r: RdmResult) -> bool {
    match r {
        RdmResult::Acknowledged(data) => data_pack_wf(data@),
        RdmResult::AcknowledgedOverflow(data) => data_pack_wf(data@),
        RdmResult::NotAcknowledged(_) => true,
        RdmResult::AcknowledgedTimer(_) => true,
        RdmResult::NoResponse => true,
        RdmResult::Custom(response) => data_pack_wf(response@.parameter_data),
    }
}

/// A snapshot of the state a handler may read and change during one
/// dispatched request; the engine copies the changed fields back.
pub struct DmxReceiverContext {
    /// The start address of the dmx space.
    pub dmx_start_address: DmxStartAddress,
    /// The amount of dmx address allocated.
    pub dmx_footprint: u16,
    /// true if the device won't respond to discovery requests.
    pub discovery_muted: bool,
    /// The amount of messages in the message queue.
    pub message_count: u8,
}

/// A handler for rdm packages the engine does not handle itself.
pub trait RdmResponderHandlerFunc {
    type Error;

    /// Handle rdm requests that aren't handled by the responder itself.
    fn handle_rdm(&mut self, request: &RdmRequestData, context: &mut DmxReceiverContext) -> (r:
        Result<RdmResult, Self::Error>)
        ensures
            r is Ok ==> rdm_result_wf(r->Ok_0),
    ;
}

struct UnfinishedRequest {
    pid: u16,
    iteration: u16,
}

pub enum RdmAnswer {
    /// Has to be sent with an uart break.
    Response(RdmResponseData),
    /// Has to be sent without an uart break.
    DiscoveryResponse(UniqueIdentifier),
    /// No response to send.
    NoResponse,
}

/// Additional metadata of the RDM-receiver.
pub struct RdmReceiverMetadata {
    pub device_model_id: u16,
    pub product_category: u16,
    pub software_version_id: u32,
    /// Shown on SOFTWARE_VERSION_LABEL, truncated to 32 bytes.
    pub software_version_label: Vec<u8>,
}

/// Mathematical model of the receiver metadata.
pub struct MetadataModel {
    pub device_model_id: u16,
    pub product_category: u16,
    pub software_version_id: u32,
    pub software_version_label: Seq<u8>,
}

impl View for RdmReceiverMetadata {
    type V = MetadataModel;

    open spec fn view(&self) -> MetadataModel {
        MetadataModel {
            device_model_id: self.device_model_id,
            product_category: self.product_category,
            software_version_id: self.software_version_id,
            software_version_label: self.software_version_label@,
        }
    }
}

/// The label the default metadata carries.
pub open spec fn default_label_bytes() -> Seq<u8> {
    seq![
        0x64u8, 0x6Du8, 0x78u8, 0x2Du8, 0x72u8, 0x64u8, 0x6Du8, 0x20u8, 0x64u8, 0x65u8, 0x76u8,
        0x69u8, 0x63u8, 0x65u8,
    ]
}

impl Default for RdmReceiverMetadata {
    /// All-zero metadata with a generic label.
    fn default() -> (r: Self)
        ensures
            r.device_model_id == 0,
            r.product_category == 0,
            r.software_version_id == 0,
            r.software_version_label@ == default_label_bytes(),
    {
        let label: Vec<u8> = vec![
            0x64u8, 0x6Du8, 0x78u8, 0x2Du8, 0x72u8, 0x64u8, 0x6Du8, 0x20u8, 0x64u8, 0x65u8, 0x76u8,
            0x69u8, 0x63u8, 0x65u8,
        ];
        proof {
            assert(label@ =~= default_label_bytes());
        }
        Self {
            device_model_id: 0,
            product_category: 0,
            software_version_id: 0,
            software_version_label: label,
        }
    }
}

pub struct RdmResponderConfig {
    /// The unique id that is used as a source id in the packages.
    pub uid: UniqueIdentifier,
    /// All the supported pids excluding ones that are required by the standard.
    pub supported_pids: Vec<u16>,
    /// Additional metadata of the RDM-receiver.
    pub rdm_receiver_metadata: RdmReceiverMetadata,
}

/// The driver-independent responder state machine.
pub struct RdmResponderPackageHandler<const MQ_SIZE: usize> {
    /// The start of the dmx address space.
    pub dmx_start_address: DmxStartAddress,
    /// The amount of addresses the dmx device allocates.
    pub dmx_footprint: u16,
    supported_pids: Vec<u16>,
    rdm_receiver_metadata: RdmReceiverMetadata,
    uid: UniqueIdentifier,
    discovery_muted: bool,
    unfinished_request: Option<UnfinishedRequest>,
    message_queue: Vec<RdmResponseData>,
    status_vec: Vec<StatusMessage>,
    last_queued_message: Option<RdmResponseData>,
    last_status_vec_message: DataPack,
}

/// Mathematical model of the responder state. The message queue serves
/// its front first; a pending multi-part request is the parameter id and
/// the next window index.
pub struct ResponderModel {
    pub dmx_start_address: DmxStartAddress,
    pub dmx_footprint: u16,
    pub supported_pids: Seq<u16>,
    pub metadata: MetadataModel,
    pub uid: UniqueIdentifier,
    pub discovery_muted: bool,
    pub unfinished_request: Option<(u16, u16)>,
    pub message_queue: Seq<RespModel>,
    pub status_vec: Seq<StatusMessage>,
    pub last_queued_message: Option<RespModel>,
    pub last_status_vec_message: Seq<u8>,
}

impl<const MQ_SIZE: usize> View for RdmResponderPackageHandler<MQ_SIZE> {
    type V = ResponderModel;

    closed spec fn view(&self) -> ResponderModel {
        ResponderModel {
            dmx_start_address: self.dmx_start_address,
            dmx_footprint: self.dmx_footprint,
            supported_pids: self.supported_pids@,
            metadata: self.rdm_receiver_metadata@,
            uid: self.uid,
            discovery_muted: self.discovery_muted,
            unfinished_request: match self.unfinished_request {
                None => None,
                Some(UnfinishedRequest { pid, iteration }) => Some((pid, iteration)),
            },
            message_queue: Seq::new(self.message_queue@.len(), |i: int| self.message_queue@[i]@),
            status_vec: self.status_vec@,
            last_queued_message: match self.last_queued_message {
                None => None,
                Some(ref response) => Some(response@),
            },
            last_status_vec_message: self.last_status_vec_message@,
        }
    }
}

/// The queues fit their configured capacity, the capacity fits the
/// one-byte message count, the own id is well-formed, and everything
/// replayable fits one packet.
pub open spec fn responder_wf(m: ResponderModel, mq_size: int) -> bool {
    &&& mq_size <= 255
    &&& m.supported_pids.len() <= 0xFFFF
    &&& m.message_queue.len() <= mq_size
    &&& m.status_vec.len() <= mq_size
    &&& uid_wf(m.uid)
    &&& forall|i: int|
        0 <= i < m.message_queue.len() ==> data_pack_wf(
            (#[trigger] m.message_queue[i]).parameter_data,
        )
    &&& match m.last_queued_message {
        Some(response) => data_pack_wf(response.parameter_data),
        None => true,
    }
    &&& data_pack_wf(m.last_status_vec_message)
}

/// Whether a destination address selects a responder with this own id:
/// its device address, its manufacturer's broadcast, or the global
/// broadcast.
pub open spec fn spec_addressed(uid: UniqueIdentifier, destination: PackageAddress) -> bool {
    match destination {
        PackageAddress::Broadcast => true,
        PackageAddress::ManufacturerBroadcast(manufacturer_uid) => manufacturer_uid
            == uid.manufacturer_uid,
        PackageAddress::Device(device_uid) => device_uid == uid,
    }
}

/// The parameter ids a responder answers for, in reply order: the two
/// internally served ids, then the configured ones.
pub open spec fn spec_full_pid_list(m: ResponderModel) -> Seq<u16> {
    seq![pids::QUEUED_MESSAGE, pids::STATUS_MESSAGES] + m.supported_pids
}

/// The status messages of a run that pass a severity filter, in order.
pub open spec fn served_statuses(s: Seq<StatusMessage>, severity: u8) -> Seq<StatusMessage>
    decreases s.len(),
{
    if s.len() == 0 {
        Seq::empty()
    } else if status_severity(s.last().status_type) >= severity {
        served_statuses(s.drop_last(), severity) + seq![s.last()]
    } else {
        served_statuses(s.drop_last(), severity)
    }
}

/// The status messages of a run that a severity filter holds back, in order.
pub open spec fn kept_statuses(s: Seq<StatusMessage>, severity: u8) -> Seq<StatusMessage>
    decreases s.len(),
{
    if s.len() == 0 {
        Seq::empty()
    } else if status_severity(s.last().status_type) < severity {
        kept_statuses(s.drop_last(), severity) + seq![s.last()]
    } else {
        kept_statuses(s.drop_last(), severity)
    }
}

/// The nine-byte serializations of a run of status messages, concatenated.
pub open spec fn statuses_bytes(s: Seq<StatusMessage>) -> Seq<u8>
    decreases s.len(),
{
    if s.len() == 0 {
        Seq::empty()
    } else {
        statuses_bytes(s.drop_last()) + spec_status_message_bytes(s.last())
    }
}

/// How many leading status messages one request examines: at most 25.
pub open spec fn examined_count(len: nat) -> int {
    if len <= RDM_MAX_STATUS_PACKAGES_PER_REQUEST {
        len as int
    } else {
        RDM_MAX_STATUS_PACKAGES_PER_REQUEST as int
    }
}

/// The status vector after one drain with a severity filter: of the
/// examined leading run only the entries below the filter stay, the
/// unexamined tail stays whole.
pub open spec fn drained_status_vec(s: Seq<StatusMessage>, severity: u8) -> Seq<StatusMessage> {
    kept_statuses(s.take(examined_count(s.len())), severity) + s.skip(examined_count(s.len()))
}

/// The payload one drain serves: the examined entries at or above the
/// filter, serialized back to back.
pub open spec fn drained_status_bytes(s: Seq<StatusMessage>, severity: u8) -> Seq<u8> {
    statuses_bytes(served_statuses(s.take(examined_count(s.len())), severity))
}

/// One drain's payload fits a packet: at most 25 messages of nine
/// bytes each.
pub proof fn lemma_drained_bytes_bound(s: Seq<StatusMessage>, severity: u8)
    ensures
        drained_status_bytes(s, severity).len() <= 9 * RDM_MAX_STATUS_PACKAGES_PER_REQUEST,
{
    let examined = s.take(examined_count(s.len()));
    lemma_status_split_len(examined, severity);
    lemma_statuses_bytes_len(served_statuses(examined, severity));
}

/// Status filtering: when every pending entry is examined in one
/// request — at most 25 are — exactly the entries below the filter
/// remain, in order, and exactly the entries at or above it make up the
/// served payload.
pub proof fn lemma_status_filter_drains_completely(s: Seq<StatusMessage>, severity: u8)
    requires
        s.len() <= RDM_MAX_STATUS_PACKAGES_PER_REQUEST,
    ensures
        drained_status_vec(s, severity) == kept_statuses(s, severity),
        drained_status_bytes(s, severity) == statuses_bytes(served_statuses(s, severity)),
        forall|i: int|
            0 <= i < kept_statuses(s, severity).len() ==> status_severity(
                (#[trigger] kept_statuses(s, severity)[i]).status_type,
            ) < severity,
        forall|i: int|
            0 <= i < served_statuses(s, severity).len() ==> status_severity(
                (#[trigger] served_statuses(s, severity)[i]).status_type,
            ) >= severity,
{
    assert(s.take(examined_count(s.len())) =~= s);
    assert(s.skip(examined_count(s.len())) =~= Seq::<StatusMessage>::empty());
    assert(drained_status_vec(s, severity) =~= kept_statuses(s, severity));
    lemma_status_split_severities(s, severity);
}

/// Each side of a severity split sits on its side of the filter.
proof fn lemma_status_split_severities(s: Seq<StatusMessage>, severity: u8)
    ensures
        forall|i: int|
            0 <= i < kept_statuses(s, severity).len() ==> status_severity(
                (#[trigger] kept_statuses(s, severity)[i]).status_type,
            ) < severity,
        forall|i: int|
            0 <= i < served_statuses(s, severity).len() ==> status_severity(
                (#[trigger] served_statuses(s, severity)[i]).status_type,
            ) >= severity,
    decreases s.len(),
{
    if s.len() > 0 {
        lemma_status_split_severities(s.drop_last(), severity);
    }
}

/// A serialized status run takes nine bytes per message.
pub proof fn lemma_statuses_bytes_len(s: Seq<StatusMessage>)
    ensures
        statuses_bytes(s).len() == 9 * s.len(),
    decreases s.len(),
{
    if s.len() > 0 {
        lemma_statuses_bytes_len(s.drop_last());
    }
}

/// A severity split serves and keeps each examined message exactly once.
pub proof fn lemma_status_split_len(s: Seq<StatusMessage>, severity: u8)
    ensures
        served_statuses(s, severity).len() + kept_statuses(s, severity).len() == s.len(),
        served_statuses(s, severity).len() <= s.len(),
        kept_statuses(s, severity).len() <= s.len(),
    decreases s.len(),
{
    if s.len() > 0 {
        lemma_status_split_len(s.drop_last(), severity);
    }
}

impl<const MQ_SIZE: usize> RdmResponderPackageHandler<MQ_SIZE> {
    /// The state is well-formed for this capacity.
    pub open spec fn wf(self) -> bool {
        responder_wf(self@, MQ_SIZE as int)
    }

    /// Creates a new [`RdmResponderPackageHandler`]: unmuted, no address,
    /// a footprint of one slot, and empty queues.
    pub fn new(config: RdmResponderConfig) -> (r: Self)
        ensures
            r@ == (ResponderModel {
                dmx_start_address: DmxStartAddress::NoAddress,
                dmx_footprint: 1u16,
                supported_pids: config.supported_pids@,
                metadata: config.rdm_receiver_metadata@,
                uid: config.uid,
                discovery_muted: false,
                unfinished_request: None::<(u16, u16)>,
                message_queue: Seq::<RespModel>::empty(),
                status_vec: Seq::<StatusMessage>::empty(),
                last_queued_message: None::<RespModel>,
                last_status_vec_message: Seq::<u8>::empty(),
            }),
            MQ_SIZE <= 255 && uid_wf(config.uid) && config.supported_pids@.len() <= 0xFFFF
                ==> r.wf(),
    {
        let r = Self {
            supported_pids: config.supported_pids,
            dmx_start_address: DmxStartAddress::NoAddress,
            dmx_footprint: 1,
            rdm_receiver_metadata: config.rdm_receiver_metadata,
            uid: config.uid,
            discovery_muted: false,
            unfinished_request: None,
            message_queue: Vec::new(),
            status_vec: Vec::new(),
            last_queued_message: None,
            last_status_vec_message: Vec::new(),
        };
        proof {
            assert(r@.message_queue =~= Seq::<RespModel>::empty());
        }
        r
    }

    /// Get the uid of the rdm responder.
    pub fn get_uid(&self) -> (r: UniqueIdentifier)
        ensures
            r == self@.uid,
    {
        self.uid
    }

    /// Get the message queue that contains deferred responses.
    pub fn get_message_queue(&self) -> (r: &Vec<RdmResponseData>)
        ensures
            r@.len() == self@.message_queue.len(),
            forall|i: int| 0 <= i < r@.len() ==> (#[trigger] r@[i]@) == self@.message_queue[i],
    {
        &self.message_queue
    }

    /// Appends a deferred response for the controller to collect. Fails,
    /// handing the message back, when the queue is full.
    pub fn push_queued_message(&mut self, message: RdmResponseData) -> (r: Result<
        (),
        RdmResponseData,
    >)
        requires
            data_pack_wf(message.parameter_data@),
        ensures
            r is Ok <==> old(self)@.message_queue.len() < MQ_SIZE,
            r is Ok ==> final(self)@ == (ResponderModel {
                message_queue: old(self)@.message_queue.push(message@),
                ..old(self)@
            }),
            r is Err ==> final(self)@ == old(self)@ && r->Err_0@ == message@,
            old(self).wf() ==> final(self).wf(),
    {
        if self.message_queue.len() >= MQ_SIZE {
            return Err(message);
        }
        self.message_queue.push(message);
        proof {
            assert(final(self)@.message_queue =~= old(self)@.message_queue.push(message@));
        }
        Ok(())
    }

    /// Get the amount of queued messages.
    pub fn get_message_count(&self) -> (r: u8)
        requires
            self.wf(),
        ensures
            r == self@.message_queue.len(),
    {
        self.message_queue.len() as u8
    }

    /// Appends a status message for the controller to collect. Fails,
    /// handing the message back, when the vector is full.
    pub fn push_status_message(&mut self, message: StatusMessage) -> (r: Result<
        (),
        StatusMessage,
    >)
        ensures
            r is Ok <==> old(self)@.status_vec.len() < MQ_SIZE,
            r is Ok ==> final(self)@ == (ResponderModel {
                status_vec: old(self)@.status_vec.push(message),
                ..old(self)@
            }),
            r is Err ==> final(self)@ == old(self)@ && r->Err_0 == message,
            old(self).wf() ==> final(self).wf(),
    {
        if self.status_vec.len() >= MQ_SIZE {
            return Err(message);
        }
        self.status_vec.push(message);
        proof {
            assert(final(self)@.message_queue =~= old(self)@.message_queue);
        }
        Ok(())
    }

    /// Empties the message queue.
    pub fn clear_message_queue(&mut self)
        ensures
            final(self)@ == (ResponderModel {
                message_queue: Seq::<RespModel>::empty(),
                ..old(self)@
            }),
            old(self).wf() ==> final(self).wf(),
    {
        self.message_queue.clear();
        proof {
            assert(final(self)@.message_queue =~= Seq::<RespModel>::empty());
        }
    }

    /// Removes and returns the status message at an index, when one is
    /// there.
    pub fn remove_status_message(&mut self, index: usize) -> (r: Option<StatusMessage>)
        ensures
            r is Some <==> index < old(self)@.status_vec.len(),
            r is Some ==> r.unwrap() == old(self)@.status_vec[index as int] && final(self)@
                == (ResponderModel {
                status_vec: old(self)@.status_vec.remove(index as int),
                ..old(self)@
            }),
            r is None ==> final(self)@ == old(self)@,
            old(self).wf() ==> final(self).wf(),
    {
        if index >= self.status_vec.len() {
            return None;
        }
        let removed = self.status_vec.remove(index);
        proof {
            assert(final(self)@.message_queue =~= old(self)@.message_queue);
        }
        Some(removed)
    }

    /// Empties the status vector.
    pub fn clear_status_vec(&mut self)
        ensures
            final(self)@ == (ResponderModel {
                status_vec: Seq::<StatusMessage>::empty(),
                ..old(self)@
            }),
            old(self).wf() ==> final(self).wf(),
    {
        self.status_vec.clear();
        proof {
            assert(final(self)@.message_queue =~= old(self)@.message_queue);
        }
    }

    /// Get the status queue that contains the current status messages.
    pub fn get_status_vec(&self) -> (r: &Vec<StatusMessage>)
        ensures
            r@ == self@.status_vec,
    {
        &self.status_vec
    }

    /// A snapshot of the state a handler may inspect and change.
    pub fn get_context(&self) -> (r: DmxReceiverContext)
        requires
            self.wf(),
        ensures
            r.dmx_start_address == self@.dmx_start_address,
            r.dmx_footprint == self@.dmx_footprint,
            r.discovery_muted == self@.discovery_muted,
            r.message_count == self@.message_queue.len(),
    {
        DmxReceiverContext {
            dmx_start_address: self.dmx_start_address,
            dmx_footprint: self.dmx_footprint,
            discovery_muted: self.discovery_muted,
            message_count: self.get_message_count(),
        }
    }

    /// Writes the changeable context fields back into the state.
    pub(crate) fn store_context(&mut self, context: &DmxReceiverContext)
        ensures
            final(self)@ == (ResponderModel {
                dmx_start_address: context.dmx_start_address,
                dmx_footprint: context.dmx_footprint,
                discovery_muted: context.discovery_muted,
                ..old(self)@
            }),
    {
        self.dmx_start_address = context.dmx_start_address;
        self.dmx_footprint = context.dmx_footprint;
        self.discovery_muted = context.discovery_muted;
        proof {
            assert(final(self)@.message_queue =~= old(self)@.message_queue);
        }
    }

    /// A negative acknowledgement of a request, carrying the current
    /// queue length; `None` when the request came by broadcast.
    fn build_nack(&self, request: &RdmRequestData, nack_reason: NackReason) -> (r: Option<
        RdmResponseData,
    >)
        requires
            self.wf(),
        ensures
            r is Some <==> request.destination_uid is Device,
            r is Some ==> r.unwrap()@ == (RespModel {
                destination_uid: PackageAddress::Device(request.source_uid),
                source_uid: request.destination_uid->Device_0,
                transaction_number: request.transaction_number,
                response_type: ResponseType::ResponseTypeNackReason,
                message_count: self@.message_queue.len() as u8,
                sub_device: request.sub_device,
                command_class: spec_response_class_of(request.command_class),
                parameter_id: request.parameter_id,
                parameter_data: nack_reason.spec_serialize(),
            }),
    {
        match request.build_response(
            ResponseType::ResponseTypeNackReason,
            nack_reason.serialize(),
            self.get_message_count(),
        ) {
            Ok(response) => Some(response),
            Err(_) => None,
        }
    }
}

/// The parameter ids the engine serves itself.
pub open spec fn spec_internal_pid(pid: u16) -> bool {
    ||| pid == pids::DISC_UNIQUE_BRANCH
    ||| pid == pids::DISC_MUTE
    ||| pid == pids::DISC_UN_MUTE
    ||| pid == pids::SUPPORTED_PARAMETERS
    ||| pid == pids::DEVICE_INFO
    ||| pid == pids::SOFTWARE_VERSION_LABEL
    ||| pid == pids::DMX_START_ADDRESS
    ||| pid == pids::QUEUED_MESSAGE
    ||| pid == pids::STATUS_MESSAGES
}

/// The reply a responder builds to a request: addresses swapped, the
/// transaction number and sub device echoed, the matching response class.
pub open spec fn reply_model(
    req: ReqModel,
    response_type: ResponseType,
    message_count: u8,
    parameter_data: Seq<u8>,
) -> RespModel {
    RespModel {
        destination_uid: PackageAddress::Device(req.source_uid),
        source_uid: req.destination_uid->Device_0,
        transaction_number: req.transaction_number,
        response_type,
        message_count,
        sub_device: req.sub_device,
        command_class: spec_response_class_of(req.command_class),
        parameter_id: req.parameter_id,
        parameter_data,
    }
}

/// The negative acknowledgement of a request.
pub open spec fn nack_model(req: ReqModel, reason: NackReason, message_count: u8) -> RespModel {
    reply_model(
        req,
        ResponseType::ResponseTypeNackReason,
        message_count,
        reason.spec_serialize(),
    )
}

/// A get request the engine serves: not a broadcast, the get class, and
/// the root device.
pub open spec fn spec_proper_get(req: ReqModel) -> bool {
    &&& req.destination_uid is Device
    &&& req.command_class == RequestCommandClass::GetCommand
    &&& req.sub_device == 0
}

/// Outcome of the common checks ahead of a get handler.
enum GetCheck {
    /// The request may be served.
    Proceed,
    /// The request is dropped without a reply.
    Silent,
    /// The request is refused with this reply.
    Reply(RdmResponseData),
}

/// The two-byte big-endian value of a 16-bit list, concatenated.
pub open spec fn pids_bytes(s: Seq<u16>) -> Seq<u8>
    decreases s.len(),
{
    if s.len() == 0 {
        Seq::empty()
    } else {
        pids_bytes(s.drop_last()) + seq![
            (s.last() / 0x100) as u8,
            (s.last() % 0x100) as u8,
        ]
    }
}

/// A serialized parameter list takes two bytes per id.
pub proof fn lemma_pids_bytes_len(s: Seq<u16>)
    ensures
        pids_bytes(s).len() == 2 * s.len(),
    decreases s.len(),
{
    if s.len() > 0 {
        lemma_pids_bytes_len(s.drop_last());
    }
}

/// The first window index of a multi-part supported-parameters reply.
pub open spec fn window_start(m: ResponderModel) -> int {
    let it = match m.unfinished_request {
        Some((pid, iteration)) => if pid == pids::SUPPORTED_PARAMETERS {
            iteration as int
        } else {
            0
        },
        None => 0,
    };
    let total = spec_full_pid_list(m).len() as int;
    if 115 * it <= total {
        115 * it
    } else {
        total
    }
}

/// One past the last window index of a multi-part supported-parameters
/// reply.
pub open spec fn window_end(m: ResponderModel) -> int {
    let total = spec_full_pid_list(m).len() as int;
    if window_start(m) + 115 <= total {
        window_start(m) + 115
    } else {
        total
    }
}

impl<const MQ_SIZE: usize> RdmResponderPackageHandler<MQ_SIZE> {
    /// The common checks ahead of a get handler: broadcasts get no
    /// reply, other command classes and sub devices get a refusal.
    fn check_get(&self, request: &RdmRequestData) -> (r: GetCheck)
        requires
            self.wf(),
        ensures
            r is Proceed <==> spec_proper_get(request@),
            r is Silent <==> addr_is_broadcast(request.destination_uid),
            r is Reply ==> request.destination_uid is Device,
            r is Reply ==> r->Reply_0@ == nack_model(
                request@,
                if request.command_class != RequestCommandClass::GetCommand {
                    NackReason::UnsupportedCommandClass
                } else {
                    NackReason::SubDeviceOutOfRange
                },
                self@.message_queue.len() as u8,
            ),
    {
        if request.destination_uid.is_broadcast() {
            return GetCheck::Silent;
        }
        if !matches!(request.command_class, RequestCommandClass::GetCommand) {
            match self.build_nack(request, NackReason::UnsupportedCommandClass) {
                Some(response) => {
                    return GetCheck::Reply(response);
                },
                None => {
                    return GetCheck::Silent;
                },
            }
        }
        if request.sub_device != 0 {
            match self.build_nack(request, NackReason::SubDeviceOutOfRange) {
                Some(response) => {
                    return GetCheck::Reply(response);
                },
                None => {
                    return GetCheck::Silent;
                },
            }
        }
        GetCheck::Proceed
    }

    /// Serves DISC_UNIQUE_BRANCH: when unmuted and the own id lies in
    /// the probed range, the reply is the raw discovery response; a
    /// malformed payload is silence, a wrong command class a refusal.
    fn handle_disc_unique_branch(&self, request: &RdmRequestData) -> (r: RdmAnswer)
        requires
            self.wf(),
        ensures
            request.command_class != RequestCommandClass::DiscoveryCommand ==> !(r
                is DiscoveryResponse) && (r is Response <==> request.destination_uid is Device) && (
            r is Response ==> r->Response_0@ == nack_model(
                request@,
                NackReason::UnsupportedCommandClass,
                self@.message_queue.len() as u8,
            )),
            request.command_class == RequestCommandClass::DiscoveryCommand
                && request.parameter_data@.len() != 12 ==> r is NoResponse,
            request.command_class == RequestCommandClass::DiscoveryCommand
                && request.parameter_data@.len() == 12 ==> {
                let lower = addr_u64(spec_addr_from_bytes(request.parameter_data@.subrange(0, 6)));
                let upper = addr_u64(spec_addr_from_bytes(request.parameter_data@.subrange(6, 12)));
                if !self@.discovery_muted && lower <= uid_u64(self@.uid) <= upper {
                    r is DiscoveryResponse && r->DiscoveryResponse_0 == self@.uid
                } else {
                    r is NoResponse
                }
            },
    {
        if !matches!(request.command_class, RequestCommandClass::DiscoveryCommand) {
            return match self.build_nack(request, NackReason::UnsupportedCommandClass) {
                Some(response) => RdmAnswer::Response(response),
                None => RdmAnswer::NoResponse,
            };
        }

        if request.parameter_data.len() != 12 {
            return RdmAnswer::NoResponse;
        }

        let lower_bound = PackageAddress::from_byte_slice(
            &request.parameter_data.as_slice()[0..6],
        ).to_u64();
        let upper_bound = PackageAddress::from_byte_slice(
            &request.parameter_data.as_slice()[6..12],
        ).to_u64();
        let own_uid = self.uid.to_u64();

        if !self.discovery_muted && own_uid >= lower_bound && own_uid <= upper_bound {
            return RdmAnswer::DiscoveryResponse(self.uid);
        }

        RdmAnswer::NoResponse
    }

    /// The acknowledgement of a mute or unmute request: an all-clear
    /// two-byte control field and no binding id.
    fn build_disc_mute_response(&self, request: &RdmRequestData) -> (r: Option<RdmResponseData>)
        requires
            self.wf(),
        ensures
            r is Some <==> request.destination_uid is Device,
            r is Some ==> r.unwrap()@ == reply_model(
                request@,
                ResponseType::ResponseTypeAck,
                self@.message_queue.len() as u8,
                seq![0u8, 0u8],
            ),
    {
        let mute_response = DiscoveryMuteResponse {
            managed_proxy: false,
            sub_device: false,
            boot_loader: false,
            proxy_device: false,
            binding_uid: None,
        };
        match request.build_response(
            ResponseType::ResponseTypeAck,
            mute_response.serialize(),
            self.get_message_count(),
        ) {
            Ok(response) => Some(response),
            Err(_) => None,
        }
    }

    /// Serves DISC_MUTE: mutes discovery and acknowledges. A non-empty
    /// payload is silence, a wrong command class a refusal.
    fn handle_disc_mute(&mut self, request: &RdmRequestData) -> (r: Option<RdmResponseData>)
        requires
            old(self).wf(),
        ensures
            final(self).wf(),
            request.command_class != RequestCommandClass::DiscoveryCommand ==> final(self)@ == old(
                self,
            )@ && (r is Some <==> request.destination_uid is Device) && (r is Some ==> r.unwrap()@
                == nack_model(
                request@,
                NackReason::UnsupportedCommandClass,
                old(self)@.message_queue.len() as u8,
            )),
            request.command_class == RequestCommandClass::DiscoveryCommand
                && request.parameter_data@.len() != 0 ==> final(self)@ == old(self)@ && r is None,
            request.command_class == RequestCommandClass::DiscoveryCommand
                && request.parameter_data@.len() == 0 ==> final(self)@ == (ResponderModel {
                discovery_muted: true,
                ..old(self)@
            }) && (r is Some <==> request.destination_uid is Device) && (r is Some ==> r.unwrap()@
                == reply_model(
                request@,
                ResponseType::ResponseTypeAck,
                old(self)@.message_queue.len() as u8,
                seq![0u8, 0u8],
            )),
    {
        if !matches!(request.command_class, RequestCommandClass::DiscoveryCommand) {
            return self.build_nack(request, NackReason::UnsupportedCommandClass);
        }

        if request.parameter_data.len() != 0 {
            return None;
        }

        self.discovery_muted = true;
        proof {
            assert(final(self)@.message_queue =~= old(self)@.message_queue);
        }
        self.build_disc_mute_response(request)
    }

    /// Serves DISC_UN_MUTE: unmutes discovery and acknowledges. A
    /// non-empty payload is silence, a wrong command class a refusal.
    fn handle_disc_unmute(&mut self, request: &RdmRequestData) -> (r: Option<RdmResponseData>)
        requires
            old(self).wf(),
        ensures
            final(self).wf(),
            request.command_class != RequestCommandClass::DiscoveryCommand ==> final(self)@ == old(
                self,
            )@ && (r is Some <==> request.destination_uid is Device) && (r is Some ==> r.unwrap()@
                == nack_model(
                request@,
                NackReason::UnsupportedCommandClass,
                old(self)@.message_queue.len() as u8,
            )),
            request.command_class == RequestCommandClass::DiscoveryCommand
                && request.parameter_data@.len() != 0 ==> final(self)@ == old(self)@ && r is None,
            request.command_class == RequestCommandClass::DiscoveryCommand
                && request.parameter_data@.len() == 0 ==> final(self)@ == (ResponderModel {
                discovery_muted: false,
                ..old(self)@
            }) && (r is Some <==> request.destination_uid is Device) && (r is Some ==> r.unwrap()@
                == reply_model(
                request@,
                ResponseType::ResponseTypeAck,
                old(self)@.message_queue.len() as u8,
                seq![0u8, 0u8],
            )),
    {
        if !matches!(request.command_class, RequestCommandClass::DiscoveryCommand) {
            return self.build_nack(request, NackReason::UnsupportedCommandClass);
        }

        if request.parameter_data.len() != 0 {
            return None;
        }

        self.discovery_muted = false;
        proof {
            assert(final(self)@.message_queue =~= old(self)@.message_queue);
        }
        self.build_disc_mute_response(request)
    }

    /// Serves GET SOFTWARE_VERSION_LABEL: the configured label, cut to
    /// 32 bytes.
    fn handle_get_software_version_label(&self, request: &RdmRequestData) -> (r: Option<
        RdmResponseData,
    >)
        requires
            self.wf(),
        ensures
            spec_proper_get(request@) ==> r is Some && r.unwrap()@ == reply_model(
                request@,
                ResponseType::ResponseTypeAck,
                self@.message_queue.len() as u8,
                if self@.metadata.software_version_label.len() <= 32 {
                    self@.metadata.software_version_label
                } else {
                    self@.metadata.software_version_label.take(32)
                },
            ),
            !spec_proper_get(request@) && addr_is_broadcast(request.destination_uid) ==> r is None,
            !spec_proper_get(request@) && !addr_is_broadcast(request.destination_uid) ==> r is Some
                && r.unwrap()@ == nack_model(
                request@,
                if request.command_class != RequestCommandClass::GetCommand {
                    NackReason::UnsupportedCommandClass
                } else {
                    NackReason::SubDeviceOutOfRange
                },
                self@.message_queue.len() as u8,
            ),
    {
        match self.check_get(request) {
            GetCheck::Silent => {
                return None;
            },
            GetCheck::Reply(response) => {
                return Some(response);
            },
            GetCheck::Proceed => {},
        }

        let label_len = self.rdm_receiver_metadata.software_version_label.len();
        let cut = if label_len <= 32 {
            label_len
        } else {
            32
        };
        let label = crate::rdm_data::copy_range(
            self.rdm_receiver_metadata.software_version_label.as_slice(),
            0,
            cut,
        );
        proof {
            if self@.metadata.software_version_label.len() <= 32 {
                assert(label@ =~= self@.metadata.software_version_label);
            } else {
                assert(label@ =~= self@.metadata.software_version_label.take(32));
            }
        }

        match request.build_response(
            ResponseType::ResponseTypeAck,
            label,
            self.get_message_count(),
        ) {
            Ok(response) => Some(response),
            Err(_) => None,
        }
    }

    /// Serves GET DEVICE_INFO: the nineteen-byte device-info block with
    /// one personality, no sub devices and no sensors.
    fn handle_device_info(&self, request: &RdmRequestData) -> (r: Option<RdmResponseData>)
        requires
            self.wf(),
        ensures
            spec_proper_get(request@) ==> r is Some && r.unwrap()@ == reply_model(
                request@,
                ResponseType::ResponseTypeAck,
                self@.message_queue.len() as u8,
                crate::rdm_types::spec_device_info_bytes(
                    DeviceInfo {
                        device_model_id: self@.metadata.device_model_id,
                        product_category: self@.metadata.product_category,
                        software_version: self@.metadata.software_version_id,
                        dmx_footprint: self@.dmx_footprint,
                        dmx_personality: 1u16,
                        dmx_start_address: self@.dmx_start_address,
                        sub_device_count: 0u16,
                        sensor_count: 0u8,
                    },
                ),
            ),
            !spec_proper_get(request@) && addr_is_broadcast(request.destination_uid) ==> r is None,
            !spec_proper_get(request@) && !addr_is_broadcast(request.destination_uid) ==> r is Some
                && r.unwrap()@ == nack_model(
                request@,
                if request.command_class != RequestCommandClass::GetCommand {
                    NackReason::UnsupportedCommandClass
                } else {
                    NackReason::SubDeviceOutOfRange
                },
                self@.message_queue.len() as u8,
            ),
    {
        match self.check_get(request) {
            GetCheck::Silent => {
                return None;
            },
            GetCheck::Reply(response) => {
                return Some(response);
            },
            GetCheck::Proceed => {},
        }

        let device_info = DeviceInfo {
            device_model_id: self.rdm_receiver_metadata.device_model_id,
            product_category: self.rdm_receiver_metadata.product_category,
            software_version: self.rdm_receiver_metadata.software_version_id,
            dmx_footprint: self.dmx_footprint,
            dmx_personality: 1,
            dmx_start_address: self.dmx_start_address,
            sub_device_count: 0,
            sensor_count: 0,
        };
        match request.build_response(
            ResponseType::ResponseTypeAck,
            device_info.serialize(),
            self.get_message_count(),
        ) {
            Ok(response) => Some(response),
            Err(_) => None,
        }
    }

    /// Serves DMX_START_ADDRESS. A get acknowledges with the two-byte
    /// address; a set of a two-byte value in range stores it and
    /// acknowledges, a malformed payload is a format refusal, a value
    /// out of range is refused and leaves the address alone.
    fn handle_dmx_start_address(&mut self, request: &RdmRequestData) -> (r: Option<
        RdmResponseData,
    >)
        requires
            old(self).wf(),
        ensures
            final(self).wf(),
            r is Some <==> request.destination_uid is Device,
            request.command_class == RequestCommandClass::GetCommand ==> final(self)@ == old(self)@
                && (r is Some ==> r.unwrap()@ == reply_model(
                request@,
                ResponseType::ResponseTypeAck,
                old(self)@.message_queue.len() as u8,
                seq![
                    (start_address_u16(old(self)@.dmx_start_address) / 0x100) as u8,
                    (start_address_u16(old(self)@.dmx_start_address) % 0x100) as u8,
                ],
            )),
            request.command_class == RequestCommandClass::DiscoveryCommand ==> final(self)@ == old(
                self,
            )@ && (r is Some ==> r.unwrap()@ == nack_model(
                request@,
                NackReason::UnsupportedCommandClass,
                old(self)@.message_queue.len() as u8,
            )),
            request.command_class == RequestCommandClass::SetCommand ==> {
                let parsed = if request.parameter_data@.len() == 2 {
                    crate::rdm_types::spec_start_address_from_u16(
                        crate::utils::be16(request.parameter_data@[0], request.parameter_data@[1]),
                    )
                } else {
                    None
                };
                if request.parameter_data@.len() != 2 {
                    final(self)@ == old(self)@ && (r is Some ==> r.unwrap()@ == nack_model(
                        request@,
                        NackReason::FormatError,
                        old(self)@.message_queue.len() as u8,
                    ))
                } else if parsed is None {
                    final(self)@ == old(self)@ && (r is Some ==> r.unwrap()@ == nack_model(
                        request@,
                        NackReason::DataOutOfRange,
                        old(self)@.message_queue.len() as u8,
                    ))
                } else {
                    final(self)@ == (ResponderModel {
                        dmx_start_address: parsed.unwrap(),
                        ..old(self)@
                    }) && (r is Some ==> r.unwrap()@ == reply_model(
                        request@,
                        ResponseType::ResponseTypeAck,
                        old(self)@.message_queue.len() as u8,
                        Seq::<u8>::empty(),
                    ))
                }
            },
    {
        let result = match request.command_class {
            RequestCommandClass::GetCommand => {
                match request.build_response(
                    ResponseType::ResponseTypeAck,
                    self.dmx_start_address.serialize(),
                    self.get_message_count(),
                ) {
                    Ok(response) => Some(response),
                    Err(_) => None,
                }
            },
            RequestCommandClass::SetCommand => {
                if request.parameter_data.len() != 2 {
                    self.build_nack(request, NackReason::FormatError)
                } else {
                    match DmxStartAddress::deserialize(request.parameter_data.as_slice()) {
                        Err(_) => self.build_nack(request, NackReason::DataOutOfRange),
                        Ok(dmx_start_address) => {
                            self.dmx_start_address = dmx_start_address;
                            proof {
                                assert(final(self)@.message_queue =~= old(self)@.message_queue);
                            }
                            let empty_data: DataPack = Vec::new();
                            match request.build_response(
                                ResponseType::ResponseTypeAck,
                                empty_data,
                                self.get_message_count(),
                            ) {
                                Ok(response) => Some(response),
                                Err(_) => None,
                            }
                        },
                    }
                }
            },
            RequestCommandClass::DiscoveryCommand => {
                self.build_nack(request, NackReason::UnsupportedCommandClass)
            },
        };
        result
    }

    /// Serves GET SUPPORTED_PARAMETERS: one 115-id window of the full
    /// list per request. While ids remain past the window the reply is
    /// an overflow acknowledgement and the continuation is remembered;
    /// the last window is a plain acknowledgement and clears it.
    fn handle_supported_parameters(&mut self, request: &RdmRequestData) -> (r: Option<
        RdmResponseData,
    >)
        requires
            old(self).wf(),
        ensures
            final(self).wf(),
            !spec_proper_get(request@) ==> final(self)@ == old(self)@,
            !spec_proper_get(request@) && addr_is_broadcast(request.destination_uid) ==> r is None,
            !spec_proper_get(request@) && !addr_is_broadcast(request.destination_uid) ==> r is Some
                && r.unwrap()@ == nack_model(
                request@,
                if request.command_class != RequestCommandClass::GetCommand {
                    NackReason::UnsupportedCommandClass
                } else {
                    NackReason::SubDeviceOutOfRange
                },
                old(self)@.message_queue.len() as u8,
            ),
            spec_proper_get(request@) ==> {
                let full = spec_full_pid_list(old(self)@);
                let start = window_start(old(self)@);
                let end = window_end(old(self)@);
                let window = full.subrange(start, end);
                &&& r is Some
                &&& r.unwrap()@ == reply_model(
                    request@,
                    if end != full.len() {
                        ResponseType::ResponseTypeAckOverflow
                    } else {
                        ResponseType::ResponseTypeAck
                    },
                    old(self)@.message_queue.len() as u8,
                    pids_bytes(window),
                )
                &&& final(self)@ == (ResponderModel {
                    unfinished_request: if end != full.len() {
                        Some(
                            (
                                pids::SUPPORTED_PARAMETERS,
                                (match old(self)@.unfinished_request {
                                    Some((pid, iteration)) => if pid == pids::SUPPORTED_PARAMETERS {
                                        iteration as int
                                    } else {
                                        0int
                                    },
                                    None => 0int,
                                } + 1) as u16,
                            ),
                        )
                    } else {
                        None
                    },
                    ..old(self)@
                })
            },
    {
        match self.check_get(request) {
            GetCheck::Silent => {
                return None;
            },
            GetCheck::Reply(response) => {
                return Some(response);
            },
            GetCheck::Proceed => {},
        }

        let current_iteration: u16 = match &self.unfinished_request {
            Some(unfinished) => {
                if unfinished.pid == pids::SUPPORTED_PARAMETERS {
                    unfinished.iteration
                } else {
                    0
                }
            },
            None => 0,
        };

        // Two internally served ids stand ahead of the configured list.
        let configured = self.supported_pids.len();
        let amount_pids = configured + 2;

        let wanted_start = 115 * (current_iteration as usize);
        let start_index = if wanted_start <= amount_pids {
            wanted_start
        } else {
            amount_pids
        };
        let end_index = if start_index + 115 <= amount_pids {
            start_index + 115
        } else {
            amount_pids
        };

        let ghost full = spec_full_pid_list(self@);
        let mut response_package: DataPack = Vec::new();
        let mut i: usize = start_index;
        while i < end_index
            invariant
                start_index <= i <= end_index,
                end_index <= amount_pids,
                amount_pids == full.len(),
                full == spec_full_pid_list(self@),
                self@.supported_pids.len() <= 0xFFFF,
                self.wf(),
                response_package@ == pids_bytes(full.subrange(start_index as int, i as int)),
            decreases end_index - i,
        {
            let pid: u16 = if i == 0 {
                pids::QUEUED_MESSAGE
            } else if i == 1 {
                pids::STATUS_MESSAGES
            } else {
                self.supported_pids[i - 2]
            };
            proof {
                assert(pid == full[i as int]);
            }
            response_package.push(crate::utils::be16_hi(pid));
            response_package.push(crate::utils::be16_lo(pid));
            proof {
                let w = full.subrange(start_index as int, i + 1);
                assert(w.drop_last() =~= full.subrange(start_index as int, i as int));
                assert(w.last() == full[i as int]);
                assert(response_package@ =~= pids_bytes(w));
            }
            i = i + 1;
        }

        proof {
            lemma_pids_bytes_len(full.subrange(start_index as int, end_index as int));
        }

        let message_count = self.get_message_count();
        if end_index != amount_pids {
            self.unfinished_request = Some(
                UnfinishedRequest {
                    pid: pids::SUPPORTED_PARAMETERS,
                    iteration: current_iteration + 1,
                },
            );
            proof {
                assert(final(self)@.message_queue =~= old(self)@.message_queue);
            }
            match request.build_response(
                ResponseType::ResponseTypeAckOverflow,
                response_package,
                message_count,
            ) {
                Ok(response) => Some(response),
                Err(_) => None,
            }
        } else {
            self.unfinished_request = None;
            proof {
                assert(final(self)@.message_queue =~= old(self)@.message_queue);
            }
            match request.build_response(
                ResponseType::ResponseTypeAck,
                response_package,
                message_count,
            ) {
                Ok(response) => Some(response),
                Err(_) => None,
            }
        }
    }

    /// Drains one request's worth of status messages: of the first 25
    /// entries, those at or above the filter are serialized into the
    /// returned payload and removed; everything else stays, in order.
    fn pop_filtered_statuses(&mut self, status_filter: StatusType) -> (r: DataPack)
        requires
            old(self).wf(),
        ensures
            final(self).wf(),
            r@ == drained_status_bytes(old(self)@.status_vec, status_severity(status_filter)),
            r@.len() <= 9 * RDM_MAX_STATUS_PACKAGES_PER_REQUEST,
            final(self)@ == (ResponderModel {
                status_vec: drained_status_vec(
                    old(self)@.status_vec,
                    status_severity(status_filter),
                ),
                ..old(self)@
            }),
    {
        let ghost s = self@.status_vec;
        let severity = status_filter.severity();
        let total = self.status_vec.len();
        let examined = if total <= RDM_MAX_STATUS_PACKAGES_PER_REQUEST {
            total
        } else {
            RDM_MAX_STATUS_PACKAGES_PER_REQUEST
        };

        let mut parameter_data: DataPack = Vec::new();
        let mut kept: Vec<StatusMessage> = Vec::new();
        let mut i: usize = 0;
        while i < examined
            invariant
                i <= examined,
                examined == examined_count(s.len()),
                examined <= self.status_vec@.len(),
                s == self@.status_vec,
                severity == status_severity(status_filter),
                self.wf(),
                parameter_data@ == statuses_bytes(served_statuses(s.take(i as int), severity)),
                kept@ == kept_statuses(s.take(i as int), severity),
            decreases examined - i,
        {
            let message = self.status_vec[i];
            proof {
                let w = s.take(i + 1);
                assert(w.drop_last() =~= s.take(i as int));
                assert(w.last() == s[i as int]);
            }
            if message.status_type.severity() >= severity {
                let serialized = message.serialize();
                parameter_data.extend_from_slice(serialized.as_slice());
                proof {
                    let served = served_statuses(s.take(i + 1), severity);
                    assert(served.drop_last() =~= served_statuses(s.take(i as int), severity));
                    assert(parameter_data@ =~= statuses_bytes(served));
                }
            } else {
                kept.push(message);
                proof {
                    assert(kept@ =~= kept_statuses(s.take(i + 1), severity));
                }
            }
            i = i + 1;
        }

        proof {
            lemma_status_split_len(s.take(examined as int), severity);
            lemma_statuses_bytes_len(served_statuses(s.take(examined as int), severity));
        }

        let mut j: usize = examined;
        while j < total
            invariant
                examined <= j <= total,
                total == self.status_vec@.len(),
                examined == examined_count(s.len()),
                s == self@.status_vec,
                severity == status_severity(status_filter),
                self.wf(),
                kept@ == kept_statuses(s.take(examined as int), severity) + s.subrange(
                    examined as int,
                    j as int,
                ),
            decreases total - j,
        {
            let message = self.status_vec[j];
            kept.push(message);
            proof {
                assert(kept@ =~= kept_statuses(s.take(examined as int), severity) + s.subrange(
                    examined as int,
                    j + 1,
                ));
            }
            j = j + 1;
        }

        proof {
            lemma_status_split_len(s.take(examined as int), severity);
            assert(s.subrange(examined as int, total as int) =~= s.skip(examined as int));
        }

        self.status_vec = kept;
        proof {
            assert(final(self)@.message_queue =~= old(self)@.message_queue);
            assert(final(self)@.status_vec == drained_status_vec(s, severity));
        }
        parameter_data
    }

    /// Serves GET QUEUED_MESSAGE. A severity request pops the oldest
    /// queued response, rewriting its count and transaction number; with
    /// an empty queue it synthesizes a STATUS_MESSAGES reply from the
    /// drained status vector. The get-last request replays the previous
    /// reply; everything else is refused as out of range.
    fn handle_queued_message(&mut self, request: &RdmRequestData) -> (r: Option<RdmResponseData>)
        requires
            old(self).wf(),
        ensures
            final(self).wf(),
            !spec_proper_get(request@) ==> final(self)@ == old(self)@,
            !spec_proper_get(request@) && addr_is_broadcast(request.destination_uid) ==> r is None,
            !spec_proper_get(request@) && !addr_is_broadcast(request.destination_uid) ==> r is Some
                && r.unwrap()@ == nack_model(
                request@,
                if request.command_class != RequestCommandClass::GetCommand {
                    NackReason::UnsupportedCommandClass
                } else {
                    NackReason::SubDeviceOutOfRange
                },
                old(self)@.message_queue.len() as u8,
            ),
            spec_proper_get(request@) ==> {
                let payload_status = if request.parameter_data@.len() == 1 {
                    spec_status_type_from_u8(request.parameter_data@[0])
                } else {
                    None
                };
                match payload_status {
                    None => final(self)@ == old(self)@ && r is Some && r.unwrap()@ == nack_model(
                        request@,
                        NackReason::DataOutOfRange,
                        old(self)@.message_queue.len() as u8,
                    ),
                    Some(StatusType::StatusNone) => final(self)@ == old(self)@ && r is Some
                        && r.unwrap()@ == nack_model(
                        request@,
                        NackReason::DataOutOfRange,
                        old(self)@.message_queue.len() as u8,
                    ),
                    Some(StatusType::StatusGetLastMessage) => match old(
                        self,
                    )@.last_queued_message {
                        None => final(self)@ == old(self)@ && r is Some && r.unwrap()@
                            == reply_model(
                            request@,
                            ResponseType::ResponseTypeAck,
                            old(self)@.message_queue.len() as u8,
                            Seq::<u8>::empty(),
                        ),
                        Some(last) => {
                            let replayed = RespModel {
                                message_count: old(self)@.message_queue.len() as u8,
                                transaction_number: request.transaction_number,
                                ..last
                            };
                            &&& r is Some
                            &&& r.unwrap()@ == replayed
                            &&& final(self)@ == (ResponderModel {
                                last_queued_message: Some(replayed),
                                ..old(self)@
                            })
                        },
                    },
                    Some(status) => if status == StatusType::StatusAdvisory || status
                        == StatusType::StatusWarning || status == StatusType::StatusError {
                        if old(self)@.message_queue.len() > 0 {
                            let served = RespModel {
                                message_count: (old(self)@.message_queue.len() - 1) as u8,
                                transaction_number: request.transaction_number,
                                ..old(self)@.message_queue[0]
                            };
                            &&& r is Some
                            &&& r.unwrap()@ == served
                            &&& final(self)@ == (ResponderModel {
                                message_queue: old(self)@.message_queue.drop_first(),
                                last_queued_message: Some(served),
                                ..old(self)@
                            })
                        } else {
                            let sev = status_severity(status);
                            let served = RespModel {
                                destination_uid: PackageAddress::Device(request.source_uid),
                                source_uid: old(self)@.uid,
                                transaction_number: request.transaction_number,
                                response_type: ResponseType::ResponseTypeAck,
                                message_count: 0u8,
                                sub_device: 0u16,
                                command_class: spec_response_class_of(request.command_class),
                                parameter_id: pids::STATUS_MESSAGES,
                                parameter_data: drained_status_bytes(old(self)@.status_vec, sev),
                            };
                            &&& r is Some
                            &&& r.unwrap()@ == served
                            &&& final(self)@ == (ResponderModel {
                                status_vec: drained_status_vec(old(self)@.status_vec, sev),
                                last_queued_message: Some(served),
                                last_status_vec_message: served.parameter_data,
                                ..old(self)@
                            })
                        }
                    } else {
                        final(self)@ == old(self)@ && r is Some && r.unwrap()@ == nack_model(
                            request@,
                            NackReason::DataOutOfRange,
                            old(self)@.message_queue.len() as u8,
                        )
                    },
                }
            },
    {
        match self.check_get(request) {
            GetCheck::Silent => {
                return None;
            },
            GetCheck::Reply(response) => {
                return Some(response);
            },
            GetCheck::Proceed => {},
        }

        let message_count = self.get_message_count();

        let status_type_requested = match StatusType::deserialize(
            request.parameter_data.as_slice(),
        ) {
            Ok(status) => status,
            Err(_) => {
                return self.build_nack(request, NackReason::DataOutOfRange);
            },
        };

        if matches!(status_type_requested, StatusType::StatusNone) {
            return self.build_nack(request, NackReason::DataOutOfRange);
        }

        if matches!(status_type_requested, StatusType::StatusGetLastMessage) {
            match self.last_queued_message {
                None => {
                    let empty_data: DataPack = Vec::new();
                    return match request.build_response(
                        ResponseType::ResponseTypeAck,
                        empty_data,
                        message_count,
                    ) {
                        Ok(response) => Some(response),
                        Err(_) => None,
                    };
                },
                Some(ref stored) => {
                    let mut replayed = stored.duplicate();
                    replayed.message_count = message_count;
                    replayed.transaction_number = request.transaction_number;
                    let for_caller = replayed.duplicate();
                    self.last_queued_message = Some(replayed);
                    proof {
                        assert(final(self)@.message_queue =~= old(self)@.message_queue);
                    }
                    return Some(for_caller);
                },
            }
        }

        match status_type_requested {
            StatusType::StatusWarning | StatusType::StatusError | StatusType::StatusAdvisory => {},
            _ => {
                return self.build_nack(request, NackReason::DataOutOfRange);
            },
        }

        let response = if self.message_queue.len() == 0 {
            let response_data = self.pop_filtered_statuses(status_type_requested);

            let status_message_response = RdmResponseData {
                destination_uid: PackageAddress::Device(request.source_uid),
                source_uid: self.uid,
                transaction_number: request.transaction_number,
                response_type: ResponseType::ResponseTypeAck,
                message_count: 0,
                sub_device: 0,
                command_class: request.command_class.get_response_class(),
                parameter_id: pids::STATUS_MESSAGES,
                parameter_data: response_data,
            };
            self.last_status_vec_message = clone_bytes(
                &status_message_response.parameter_data,
            );

            status_message_response
        } else {
            let mut response_data = self.message_queue.remove(0);
            proof {
                assert(self@.message_queue =~= old(self)@.message_queue.drop_first());
                assert forall|i: int| 0 <= i < self@.message_queue.len() implies data_pack_wf(
                    (#[trigger] self@.message_queue[i]).parameter_data,
                ) by {
                    assert(self@.message_queue[i] == old(self)@.message_queue[i + 1]);
                }
                assert(self.wf());
            }
            response_data.message_count = self.get_message_count();
            response_data.transaction_number = request.transaction_number;
            response_data
        };

        let stored = response.duplicate();
        self.last_queued_message = Some(stored);
        proof {
            if old(self)@.message_queue.len() > 0 {
                assert(self@.message_queue =~= old(self)@.message_queue.drop_first());
            } else {
                assert(self@.message_queue =~= old(self)@.message_queue);
            }
        }
        Some(response)
    }

    /// Serves GET STATUS_MESSAGES. A severity request drains the status
    /// vector through the filter and acknowledges with the serialized
    /// run; the none request acknowledges empty, the get-last request
    /// replays the previous run, and everything else is refused.
    fn handle_status_messages(&mut self, request: &RdmRequestData) -> (r: Option<RdmResponseData>)
        requires
            old(self).wf(),
        ensures
            final(self).wf(),
            !spec_proper_get(request@) ==> final(self)@ == old(self)@,
            !spec_proper_get(request@) && addr_is_broadcast(request.destination_uid) ==> r is None,
            !spec_proper_get(request@) && !addr_is_broadcast(request.destination_uid) ==> r is Some
                && r.unwrap()@ == nack_model(
                request@,
                if request.command_class != RequestCommandClass::GetCommand {
                    NackReason::UnsupportedCommandClass
                } else {
                    NackReason::SubDeviceOutOfRange
                },
                old(self)@.message_queue.len() as u8,
            ),
            spec_proper_get(request@) ==> {
                let payload_status = if request.parameter_data@.len() == 1 {
                    spec_status_type_from_u8(request.parameter_data@[0])
                } else {
                    None
                };
                match payload_status {
                    None => final(self)@ == old(self)@ && r is Some && r.unwrap()@ == nack_model(
                        request@,
                        NackReason::FormatError,
                        old(self)@.message_queue.len() as u8,
                    ),
                    Some(StatusType::StatusNone) => final(self)@ == old(self)@ && r is Some
                        && r.unwrap()@ == reply_model(
                        request@,
                        ResponseType::ResponseTypeAck,
                        old(self)@.message_queue.len() as u8,
                        Seq::<u8>::empty(),
                    ),
                    Some(StatusType::StatusGetLastMessage) => final(self)@ == old(self)@ && r
                        is Some && r.unwrap()@ == reply_model(
                        request@,
                        ResponseType::ResponseTypeAck,
                        old(self)@.message_queue.len() as u8,
                        old(self)@.last_status_vec_message,
                    ),
                    Some(status) => if status == StatusType::StatusAdvisory || status
                        == StatusType::StatusWarning || status == StatusType::StatusError {
                        let sev = status_severity(status);
                        &&& r is Some
                        &&& r.unwrap()@ == reply_model(
                            request@,
                            ResponseType::ResponseTypeAck,
                            old(self)@.message_queue.len() as u8,
                            drained_status_bytes(old(self)@.status_vec, sev),
                        )
                        &&& final(self)@ == (ResponderModel {
                            status_vec: drained_status_vec(old(self)@.status_vec, sev),
                            last_status_vec_message: drained_status_bytes(
                                old(self)@.status_vec,
                                sev,
                            ),
                            ..old(self)@
                        })
                    } else {
                        final(self)@ == old(self)@ && r is Some && r.unwrap()@ == nack_model(
                            request@,
                            NackReason::DataOutOfRange,
                            old(self)@.message_queue.len() as u8,
                        )
                    },
                }
            },
    {
        match self.check_get(request) {
            GetCheck::Silent => {
                return None;
            },
            GetCheck::Reply(response) => {
                return Some(response);
            },
            GetCheck::Proceed => {},
        }

        let message_count = self.get_message_count();

        let status_type_requested = match StatusType::deserialize(
            request.parameter_data.as_slice(),
        ) {
            Ok(status) => status,
            Err(_) => {
                return self.build_nack(request, NackReason::FormatError);
            },
        };

        match status_type_requested {
            StatusType::StatusNone => {
                let empty_data: DataPack = Vec::new();
                match request.build_response(
                    ResponseType::ResponseTypeAck,
                    empty_data,
                    message_count,
                ) {
                    Ok(response) => Some(response),
                    Err(_) => None,
                }
            },
            StatusType::StatusGetLastMessage => {
                let last = clone_bytes(&self.last_status_vec_message);
                match request.build_response(ResponseType::ResponseTypeAck, last, message_count) {
                    Ok(response) => Some(response),
                    Err(_) => None,
                }
            },
            StatusType::StatusWarning | StatusType::StatusError | StatusType::StatusAdvisory => {
                let response_vec = self.pop_filtered_statuses(status_type_requested);

                self.last_status_vec_message = clone_bytes(&response_vec);
                proof {
                    assert(final(self)@.message_queue =~= self@.message_queue);
                }
                match request.build_response(
                    ResponseType::ResponseTypeAck,
                    response_vec,
                    message_count,
                ) {
                    Ok(response) => Some(response),
                    Err(_) => None,
                }
            },
            _ => self.build_nack(request, NackReason::DataOutOfRange),
        }
    }

    /// Dispatches one parsed request. Requests not addressed to this
    /// responder, and discovery-class requests whose parameter id is not
    /// one of the three discovery ids, are dropped in silence. Broadcast
    /// requests never get a structured reply; a raw discovery reply goes
    /// out only for a matching DISC_UNIQUE_BRANCH probe while unmuted.
    /// Internally served ids echo the transaction number, and the sub
    /// device everywhere but on QUEUED_MESSAGE, whose served replies may
    /// have been queued with their own. Everything else goes to the
    /// handler, whose context changes are kept.
    pub fn handle_rdm_request<H: RdmResponderHandlerFunc>(
        &mut self,
        request: RdmRequestData,
        handler: &mut H,
    ) -> (r: Result<RdmAnswer, H::Error>)
        requires
            old(self).wf(),
        ensures
            final(self).wf(),
            ({
                let m0 = old(self)@;
                let mf = final(self)@;
                let req = request@;
                let answer = r->Ok_0;
                let pid = req.parameter_id;
                let mc0 = m0.message_queue.len() as u8;
                &&& (!spec_addressed(m0.uid, req.destination_uid) ==> r is Ok && answer
                    is NoResponse && mf == m0)
                &&& (r is Ok && answer is Response && spec_internal_pid(pid) ==>
                    req.destination_uid is Device)
                &&& (r is Ok && answer is Response ==> data_pack_wf(
                    answer->Response_0@.parameter_data,
                ))
                &&& (r is Ok && answer is Response && spec_internal_pid(pid) ==>
                    answer->Response_0@.transaction_number == req.transaction_number)
                &&& (r is Ok && answer is Response && spec_internal_pid(pid) && pid
                    != pids::QUEUED_MESSAGE ==> answer->Response_0@.sub_device == req.sub_device)
                &&& (r is Ok && answer is DiscoveryResponse ==> pid == pids::DISC_UNIQUE_BRANCH
                    && req.command_class == RequestCommandClass::DiscoveryCommand
                    && !m0.discovery_muted && answer->DiscoveryResponse_0 == m0.uid)
                &&& (spec_internal_pid(pid) ==> r is Ok)
                &&& (req.command_class == RequestCommandClass::DiscoveryCommand && !(pid
                    == pids::DISC_UNIQUE_BRANCH || pid == pids::DISC_MUTE || pid
                    == pids::DISC_UN_MUTE) ==> r is Ok && answer is NoResponse && mf == m0)
                &&& (spec_addressed(m0.uid, req.destination_uid) && pid == pids::DISC_MUTE
                    && req.command_class == RequestCommandClass::DiscoveryCommand
                    && req.parameter_data.len() == 0 ==> mf == (ResponderModel {
                    discovery_muted: true,
                    ..m0
                }))
                &&& (spec_addressed(m0.uid, req.destination_uid) && pid == pids::DISC_UN_MUTE
                    && req.command_class == RequestCommandClass::DiscoveryCommand
                    && req.parameter_data.len() == 0 ==> mf == (ResponderModel {
                    discovery_muted: false,
                    ..m0
                }))
                &&& (spec_addressed(m0.uid, req.destination_uid) && pid
                    == pids::DISC_UNIQUE_BRANCH && req.command_class
                    == RequestCommandClass::DiscoveryCommand && req.parameter_data.len() == 12
                    ==> mf == m0 && {
                    let lower = addr_u64(spec_addr_from_bytes(req.parameter_data.subrange(0, 6)));
                    let upper = addr_u64(spec_addr_from_bytes(req.parameter_data.subrange(6, 12)));
                    if !m0.discovery_muted && lower <= uid_u64(m0.uid) <= upper {
                        answer is DiscoveryResponse && answer->DiscoveryResponse_0 == m0.uid
                    } else {
                        answer is NoResponse
                    }
                })
                &&& (spec_addressed(m0.uid, req.destination_uid) && pid == pids::DEVICE_INFO
                    && spec_proper_get(req) ==> answer is Response && answer->Response_0@
                    == reply_model(
                    req,
                    ResponseType::ResponseTypeAck,
                    mc0,
                    crate::rdm_types::spec_device_info_bytes(
                        DeviceInfo {
                            device_model_id: m0.metadata.device_model_id,
                            product_category: m0.metadata.product_category,
                            software_version: m0.metadata.software_version_id,
                            dmx_footprint: m0.dmx_footprint,
                            dmx_personality: 1u16,
                            dmx_start_address: m0.dmx_start_address,
                            sub_device_count: 0u16,
                            sensor_count: 0u8,
                        },
                    ),
                ) && mf == m0)
                &&& (spec_addressed(m0.uid, req.destination_uid) && pid
                    == pids::SUPPORTED_PARAMETERS && spec_proper_get(req) ==> {
                    let full = spec_full_pid_list(m0);
                    let start = window_start(m0);
                    let end = window_end(m0);
                    &&& answer is Response
                    &&& answer->Response_0@ == reply_model(
                        req,
                        if end != full.len() {
                            ResponseType::ResponseTypeAckOverflow
                        } else {
                            ResponseType::ResponseTypeAck
                        },
                        mc0,
                        pids_bytes(full.subrange(start, end)),
                    )
                    &&& (end == full.len() ==> mf.unfinished_request is None)
                    &&& (end != full.len() ==> mf.unfinished_request is Some
                        && mf.unfinished_request.unwrap().0 == pids::SUPPORTED_PARAMETERS)
                })
                &&& (spec_addressed(m0.uid, req.destination_uid) && pid
                    == pids::DMX_START_ADDRESS && req.destination_uid is Device
                    && req.command_class == RequestCommandClass::SetCommand
                    && req.parameter_data.len() == 2 ==> {
                    let parsed = crate::rdm_types::spec_start_address_from_u16(
                        crate::utils::be16(req.parameter_data[0], req.parameter_data[1]),
                    );
                    match parsed {
                        None => mf == m0 && answer is Response && answer->Response_0@
                            == nack_model(req, NackReason::DataOutOfRange, mc0),
                        Some(address) => mf == (ResponderModel {
                            dmx_start_address: address,
                            ..m0
                        }) && answer is Response && answer->Response_0@ == reply_model(
                            req,
                            ResponseType::ResponseTypeAck,
                            mc0,
                            Seq::<u8>::empty(),
                        ),
                    }
                })
                &&& (spec_addressed(m0.uid, req.destination_uid) && pid == pids::STATUS_MESSAGES
                    && spec_proper_get(req) && req.parameter_data.len() == 1 ==> {
                    match spec_status_type_from_u8(req.parameter_data[0]) {
                        Some(status) => (status == StatusType::StatusAdvisory || status
                            == StatusType::StatusWarning || status == StatusType::StatusError)
                            ==> {
                            let sev = status_severity(status);
                            &&& answer is Response
                            &&& answer->Response_0@ == reply_model(
                                req,
                                ResponseType::ResponseTypeAck,
                                mc0,
                                drained_status_bytes(m0.status_vec, sev),
                            )
                            &&& mf == (ResponderModel {
                                status_vec: drained_status_vec(m0.status_vec, sev),
                                last_status_vec_message: drained_status_bytes(m0.status_vec, sev),
                                ..m0
                            })
                        },
                        None => true,
                    }
                })
                &&& (spec_addressed(m0.uid, req.destination_uid) && pid == pids::QUEUED_MESSAGE
                    && spec_proper_get(req) && req.parameter_data.len() == 1 ==> {
                    match spec_status_type_from_u8(req.parameter_data[0]) {
                        Some(status) => (status == StatusType::StatusAdvisory || status
                            == StatusType::StatusWarning || status == StatusType::StatusError)
                            ==> {
                            if m0.message_queue.len() > 0 {
                                let served = RespModel {
                                    message_count: (m0.message_queue.len() - 1) as u8,
                                    transaction_number: req.transaction_number,
                                    ..m0.message_queue[0]
                                };
                                &&& answer is Response
                                &&& answer->Response_0@ == served
                                &&& mf == (ResponderModel {
                                    message_queue: m0.message_queue.drop_first(),
                                    last_queued_message: Some(served),
                                    ..m0
                                })
                            } else {
                                let sev = status_severity(status);
                                let served = RespModel {
                                    destination_uid: PackageAddress::Device(req.source_uid),
                                    source_uid: m0.uid,
                                    transaction_number: req.transaction_number,
                                    response_type: ResponseType::ResponseTypeAck,
                                    message_count: 0u8,
                                    sub_device: 0u16,
                                    command_class: spec_response_class_of(req.command_class),
                                    parameter_id: pids::STATUS_MESSAGES,
                                    parameter_data: drained_status_bytes(m0.status_vec, sev),
                                };
                                &&& answer is Response
                                &&& answer->Response_0@ == served
                                &&& mf == (ResponderModel {
                                    status_vec: drained_status_vec(m0.status_vec, sev),
                                    last_queued_message: Some(served),
                                    last_status_vec_message: served.parameter_data,
                                    ..m0
                                })
                            }
                        },
                        None => true,
                    }
                })
                &&& (spec_addressed(m0.uid, req.destination_uid) && !spec_internal_pid(pid) ==> {
                    &&& mf.supported_pids == m0.supported_pids
                    &&& mf.metadata == m0.metadata
                    &&& mf.uid == m0.uid
                    &&& mf.unfinished_request == m0.unfinished_request
                    &&& mf.message_queue == m0.message_queue
                    &&& mf.status_vec == m0.status_vec
                    &&& mf.last_queued_message == m0.last_queued_message
                    &&& mf.last_status_vec_message == m0.last_status_vec_message
                })
            }),
    {
        match request.destination_uid {
            PackageAddress::ManufacturerBroadcast(manufacturer_uid) => {
                if manufacturer_uid != self.uid.manufacturer_uid() {
                    return Ok(RdmAnswer::NoResponse);
                }
            },
            PackageAddress::Device(device_uid) => {
                if !(device_uid == self.uid) {
                    return Ok(RdmAnswer::NoResponse);
                }
            },
            PackageAddress::Broadcast => {},
        }

        if matches!(request.command_class, RequestCommandClass::DiscoveryCommand)
            && !(request.parameter_id == pids::DISC_UNIQUE_BRANCH || request.parameter_id
            == pids::DISC_MUTE || request.parameter_id == pids::DISC_UN_MUTE) {
            return Ok(RdmAnswer::NoResponse);
        }

        let response: Option<RdmResponseData> = match request.parameter_id {
            pids::DISC_UNIQUE_BRANCH => {
                return Ok(self.handle_disc_unique_branch(&request));
            },
            pids::DISC_MUTE => self.handle_disc_mute(&request),
            pids::DISC_UN_MUTE => self.handle_disc_unmute(&request),
            pids::SUPPORTED_PARAMETERS => self.handle_supported_parameters(&request),
            pids::DEVICE_INFO => self.handle_device_info(&request),
            pids::SOFTWARE_VERSION_LABEL => self.handle_get_software_version_label(&request),
            pids::DMX_START_ADDRESS => self.handle_dmx_start_address(&request),
            pids::QUEUED_MESSAGE => self.handle_queued_message(&request),
            pids::STATUS_MESSAGES => self.handle_status_messages(&request),
            _ => {
                let mut context = self.get_context();
                let handled = handler.handle_rdm(&request, &mut context);
                self.store_context(&context);
                let rdm_result = match handled {
                    Ok(rdm_result) => rdm_result,
                    Err(handler_error) => {
                        return Err(handler_error);
                    },
                };
                match rdm_result {
                    RdmResult::Acknowledged(response_data) => {
                        match request.build_response(
                            ResponseType::ResponseTypeAck,
                            response_data,
                            self.get_message_count(),
                        ) {
                            Ok(response) => Some(response),
                            Err(_) => None,
                        }
                    },
                    RdmResult::AcknowledgedOverflow(response_data) => {
                        match request.build_response(
                            ResponseType::ResponseTypeAckOverflow,
                            response_data,
                            self.get_message_count(),
                        ) {
                            Ok(response) => Some(response),
                            Err(_) => None,
                        }
                    },
                    RdmResult::NotAcknowledged(nack_reason) => {
                        let mut reason_data: DataPack = Vec::new();
                        reason_data.push(crate::utils::be16_hi(nack_reason));
                        reason_data.push(crate::utils::be16_lo(nack_reason));
                        match request.build_response(
                            ResponseType::ResponseTypeNackReason,
                            reason_data,
                            self.get_message_count(),
                        ) {
                            Ok(response) => Some(response),
                            Err(_) => None,
                        }
                    },
                    RdmResult::AcknowledgedTimer(timer) => {
                        let mut timer_data: DataPack = Vec::new();
                        timer_data.push(crate::utils::be16_hi(timer));
                        timer_data.push(crate::utils::be16_lo(timer));
                        match request.build_response(
                            ResponseType::ResponseTypeAckTimer,
                            timer_data,
                            self.get_message_count(),
                        ) {
                            Ok(response) => Some(response),
                            Err(_) => None,
                        }
                    },
                    RdmResult::NoResponse => {
                        return Ok(RdmAnswer::NoResponse);
                    },
                    RdmResult::Custom(response_data) => Some(response_data),
                }
            },
        };

        proof {
            let m0 = old(self)@;
            lemma_pids_bytes_len(
                spec_full_pid_list(m0).subrange(window_start(m0), window_end(m0)),
            );
            lemma_drained_bytes_bound(m0.status_vec, 2);
            lemma_drained_bytes_bound(m0.status_vec, 3);
            lemma_drained_bytes_bound(m0.status_vec, 4);
        }

        match response {
            Some(response_data) => Ok(RdmAnswer::Response(response_data)),
            None => Ok(RdmAnswer::NoResponse),
        }
    }
}

} // verus!

//! The structured RDM packet codec and the discovery-response codec.

use crate::command_class::{
    request_class_u8, response_class_u8, spec_request_class_from_u8, spec_response_class_from_u8,
    spec_response_class_of, RequestCommandClass, ResponseCommandClass,
};
use crate::consts::{
    PREAMBLE_BYTE, RDM_MAX_PACKAGE_SIZE, RDM_MIN_PACKAGE_SIZE, SC_RDM, SC_SUB_MESSAGE,
    SEPARATOR_BYTE,
};
use crate::types::{
    data_pack_wf, response_type_u8, spec_response_type_from_u8, DataPack, ResponseType,
};
use crate::unique_identifier::{
    spec_addr_bytes, spec_addr_from_bytes, spec_uid_bytes, uid_wf, PackageAddress,
    UniqueIdentifier,
};
use crate::utils::{
    be16, be16_decode, be16_hi, be16_lo, calculate_checksum, checksum_of,
    lemma_checksum_single_change,
};
use vstd::prelude::*;

verus! {

/// Error that gets raised when attempting to convert an [`RdmRequestData`] object
/// to a [`RdmResponseData`] object that contains a broadcast destination address.
#[derive(Debug, Copy, Clone, Eq, PartialEq, Structural)]
pub struct IsBroadcastError;

/// An RDM Request package that does not have its parameter data deserialized.
#[derive(Debug)]
pub struct RdmRequestData {
    pub destination_uid: PackageAddress,
    pub source_uid: UniqueIdentifier,
    pub transaction_number: u8,
    pub port_id: u8,
    pub message_count: u8,
    pub sub_device: u16,
    pub command_class: RequestCommandClass,
    pub parameter_id: u16,
    pub parameter_data: DataPack,
}

/// An RDM Response package that does not have its parameter data deserialized.
#[derive(Debug)]
pub struct RdmResponseData {
    pub destination_uid: PackageAddress,
    pub source_uid: UniqueIdentifier,
    pub transaction_number: u8,
    pub response_type: ResponseType,
    pub message_count: u8,
    pub sub_device: u16,
    pub command_class: ResponseCommandClass,
    pub parameter_id: u16,
    pub parameter_data: DataPack,
}

/// Mathematical model of a request packet: the request fields with the
/// payload as a byte sequence.
pub struct ReqModel {
    pub destination_uid: PackageAddress,
    pub source_uid: UniqueIdentifier,
    pub transaction_number: u8,
    pub port_id: u8,
    pub message_count: u8,
    pub sub_device: u16,
    pub command_class: RequestCommandClass,
    pub parameter_id: u16,
    pub parameter_data: Seq<u8>,
}

/// Mathematical model of a response packet.
pub struct RespModel {
    pub destination_uid: PackageAddress,
    pub source_uid: UniqueIdentifier,
    pub transaction_number: u8,
    pub response_type: ResponseType,
    pub message_count: u8,
    pub sub_device: u16,
    pub command_class: ResponseCommandClass,
    pub parameter_id: u16,
    pub parameter_data: Seq<u8>,
}

/// Model of a packet of either direction.
pub enum RdmModel {
    Request(ReqModel),
    Response(RespModel),
}

impl View for RdmRequestData {
    type V = ReqModel;

    open spec fn view(&self) -> ReqModel {
        ReqModel {
            destination_uid: self.destination_uid,
            source_uid: self.source_uid,
            transaction_number: self.transaction_number,
            port_id: self.port_id,
            message_count: self.message_count,
            sub_device: self.sub_device,
            command_class: self.command_class,
            parameter_id: self.parameter_id,
            parameter_data: self.parameter_data@,
        }
    }
}

impl View for RdmResponseData {
    type V = RespModel;

    open spec fn view(&self) -> RespModel {
        RespModel {
            destination_uid: self.destination_uid,
            source_uid: self.source_uid,
            transaction_number: self.transaction_number,
            response_type: self.response_type,
            message_count: self.message_count,
            sub_device: self.sub_device,
            command_class: self.command_class,
            parameter_id: self.parameter_id,
            parameter_data: self.parameter_data@,
        }
    }
}

/// A valid request: bounded payload, a source id that is no broadcast,
/// and a well-formed destination.
pub open spec fn req_wf(m: ReqModel) -> bool {
    &&& data_pack_wf(m.parameter_data)
    &&& uid_wf(m.source_uid)
    &&& crate::unique_identifier::addr_wf(m.destination_uid)
}

/// A valid response: bounded payload, a source id that is no broadcast,
/// and a well-formed destination.
pub open spec fn resp_wf(m: RespModel) -> bool {
    &&& data_pack_wf(m.parameter_data)
    &&& uid_wf(m.source_uid)
    &&& crate::unique_identifier::addr_wf(m.destination_uid)
}

/// A valid packet of either direction.
pub open spec fn rdm_wf(m: RdmModel) -> bool {
    match m {
        RdmModel::Request(req) => req_wf(req),
        RdmModel::Response(resp) => resp_wf(resp),
    }
}

impl RdmRequestData {
    /// Builds the response that answers this request: destination and
    /// source swap, the transaction number and sub device are echoed, the
    /// command class becomes the matching response class. Fails exactly
    /// when the request was addressed to a broadcast, which must not be
    /// answered.
    pub fn build_response(
        &self,
        response_type: ResponseType,
        response: DataPack,
        message_count: u8,
    ) -> (r: Result<RdmResponseData, IsBroadcastError>)
        ensures
            r is Ok <==> self.destination_uid is Device,
            r is Ok ==> r.unwrap()@ == (RespModel {
                destination_uid: PackageAddress::Device(self.source_uid),
                source_uid: self.destination_uid->Device_0,
                transaction_number: self.transaction_number,
                response_type,
                message_count,
                sub_device: self.sub_device,
                command_class: spec_response_class_of(self.command_class),
                parameter_id: self.parameter_id,
                parameter_data: response@,
            }),
    {
        let source_uid = match self.destination_uid {
            PackageAddress::Device(uid) => uid,
            _ => {
                return Err(IsBroadcastError);
            },
        };
        Ok(RdmResponseData {
            destination_uid: PackageAddress::Device(self.source_uid),
            source_uid,
            transaction_number: self.transaction_number,
            response_type,
            message_count,
            sub_device: self.sub_device,
            command_class: self.command_class.get_response_class(),
            parameter_id: self.parameter_id,
            parameter_data: response,
        })
    }

    /// A field-for-field copy of this request.
    pub fn duplicate(&self) -> (r: Self)
        ensures
            r@ == self@,
    {
        RdmRequestData {
            destination_uid: self.destination_uid,
            source_uid: self.source_uid,
            transaction_number: self.transaction_number,
            port_id: self.port_id,
            message_count: self.message_count,
            sub_device: self.sub_device,
            command_class: self.command_class,
            parameter_id: self.parameter_id,
            parameter_data: clone_bytes(&self.parameter_data),
        }
    }
}

impl RdmResponseData {
    /// A field-for-field copy of this response.
    pub fn duplicate(&self) -> (r: Self)
        ensures
            r@ == self@,
    {
        RdmResponseData {
            destination_uid: self.destination_uid,
            source_uid: self.source_uid,
            transaction_number: self.transaction_number,
            response_type: self.response_type,
            message_count: self.message_count,
            sub_device: self.sub_device,
            command_class: self.command_class,
            parameter_id: self.parameter_id,
            parameter_data: clone_bytes(&self.parameter_data),
        }
    }
}

/// A byte-for-byte copy of a buffer.
pub fn clone_bytes(data: &Vec<u8>) -> (r: Vec<u8>)
    ensures
        r@ == data@,
{
    let mut out: Vec<u8> = Vec::new();
    out.extend_from_slice(data.as_slice());
    proof {
        assert(out@ =~= data@);
    }
    out
}

/// A byte-for-byte copy of a range of a buffer.
pub fn copy_range(data: &[u8], from: usize, to: usize) -> (r: Vec<u8>)
    requires
        from <= to <= data@.len(),
    ensures
        r@ == data@.subrange(from as int, to as int),
{
    let mut out: Vec<u8> = Vec::new();
    out.extend_from_slice(&data[from..to]);
    proof {
        assert(out@ =~= data@.subrange(from as int, to as int));
    }
    out
}

#[derive(Debug, Copy, Clone, Eq, PartialEq, Structural)]
pub enum RdmDeserializationError {
    /// Buffer must be at least 22 bytes.
    BufferTooSmall,
    /// Buffer must be at most 257 bytes.
    BufferTooBig,
    /// The command class was not found; contains contents of command class field.
    CommandClassNotFound(u8),
    /// The response type was not found; contains contents of response type field.
    ResponseTypeNotFound(u8),
    /// The message length field is incorrect; contains result of parsing.
    WrongMessageLength(usize),
    /// Wrong checksum.
    WrongChecksum,
    /// Received wrong start code (0xCC) or sub start code (0x01).
    WrongStartCode,
    /// The source uid is a broadcast address.
    SourceUidIsBroadcast,
}

#[derive(Debug)]
pub enum RdmData {
    Request(RdmRequestData),
    Response(RdmResponseData),
}

/// Model of a packet of either direction.
impl View for RdmData {
    type V = RdmModel;

    open spec fn view(&self) -> RdmModel {
        match self {
            RdmData::Request(request) => RdmModel::Request(request@),
            RdmData::Response(response) => RdmModel::Response(response@),
        }
    }
}

/// The 24 header bytes followed by the payload; the checksum is taken
/// over exactly these bytes.
pub open spec fn spec_serialize_body(m: RdmModel) -> Seq<u8> {
    match m {
        RdmModel::Request(r) => seq![
            SC_RDM,
            SC_SUB_MESSAGE,
            (24 + r.parameter_data.len()) as u8,
        ] + spec_addr_bytes(r.destination_uid) + spec_uid_bytes(r.source_uid) + seq![
            r.transaction_number,
            r.port_id,
            r.message_count,
            (r.sub_device / 0x100) as u8,
            (r.sub_device % 0x100) as u8,
            request_class_u8(r.command_class),
            (r.parameter_id / 0x100) as u8,
            (r.parameter_id % 0x100) as u8,
            r.parameter_data.len() as u8,
        ] + r.parameter_data,
        RdmModel::Response(r) => seq![
            SC_RDM,
            SC_SUB_MESSAGE,
            (24 + r.parameter_data.len()) as u8,
        ] + spec_addr_bytes(r.destination_uid) + spec_uid_bytes(r.source_uid) + seq![
            r.transaction_number,
            response_type_u8(r.response_type),
            r.message_count,
            (r.sub_device / 0x100) as u8,
            (r.sub_device % 0x100) as u8,
            response_class_u8(r.command_class),
            (r.parameter_id / 0x100) as u8,
            (r.parameter_id % 0x100) as u8,
            r.parameter_data.len() as u8,
        ] + r.parameter_data,
    }
}

/// The serialized packet: the body followed by its big-endian checksum.
pub open spec fn spec_serialize(m: RdmModel) -> Seq<u8> {
    let body = spec_serialize_body(m);
    let ck = checksum_of(body);
    body + seq![(ck / 0x100) as u8, (ck % 0x100) as u8]
}

/// Payload length of a packet model.
pub open spec fn spec_pd_len(m: RdmModel) -> nat {
    match m {
        RdmModel::Request(r) => r.parameter_data.len(),
        RdmModel::Response(r) => r.parameter_data.len(),
    }
}

/// What a byte sequence deserializes to: either a packet model or the
/// first error the parser meets, in the order the checks run: sizes,
/// checksum, start codes, message length, then the fields.
pub open spec fn spec_deserialize(s: Seq<u8>) -> Result<RdmModel, RdmDeserializationError> {
    let n = s.len() as int;
    if n < RDM_MIN_PACKAGE_SIZE {
        Err(RdmDeserializationError::BufferTooSmall)
    } else if n > RDM_MAX_PACKAGE_SIZE {
        Err(RdmDeserializationError::BufferTooBig)
    } else if checksum_of(s.take(n - 2)) != be16(s[n - 2], s[n - 1]) {
        Err(RdmDeserializationError::WrongChecksum)
    } else if s[0] != SC_RDM || s[1] != SC_SUB_MESSAGE {
        Err(RdmDeserializationError::WrongStartCode)
    } else if s[2] != n - 2 || s[2] < 24 {
        Err(RdmDeserializationError::WrongMessageLength(s[2] as usize))
    } else {
        let destination_uid = spec_addr_from_bytes(s.subrange(3, 9));
        let source = spec_addr_from_bytes(s.subrange(9, 15));
        let parameter_data = s.subrange(24, n - 2);
        let cc_field = s[20];
        if spec_request_class_from_u8(cc_field) is Some {
            match source {
                PackageAddress::Device(source_uid) => Ok(
                    RdmModel::Request(
                        ReqModel {
                            destination_uid,
                            source_uid,
                            transaction_number: s[15],
                            port_id: s[16],
                            message_count: s[17],
                            sub_device: be16(s[18], s[19]),
                            command_class: spec_request_class_from_u8(cc_field).unwrap(),
                            parameter_id: be16(s[21], s[22]),
                            parameter_data,
                        },
                    ),
                ),
                _ => Err(RdmDeserializationError::SourceUidIsBroadcast),
            }
        } else {
            match spec_response_type_from_u8(s[16]) {
                None => Err(RdmDeserializationError::ResponseTypeNotFound(s[16])),
                Some(response_type) => match source {
                    PackageAddress::Device(source_uid) => match spec_response_class_from_u8(
                        cc_field,
                    ) {
                        Some(command_class) => Ok(
                            RdmModel::Response(
                                RespModel {
                                    destination_uid,
                                    source_uid,
                                    transaction_number: s[15],
                                    response_type,
                                    message_count: s[17],
                                    sub_device: be16(s[18], s[19]),
                                    command_class,
                                    parameter_id: be16(s[21], s[22]),
                                    parameter_data,
                                },
                            ),
                        ),
                        None => Err(RdmDeserializationError::CommandClassNotFound(cc_field)),
                    },
                    _ => Err(RdmDeserializationError::SourceUidIsBroadcast),
                },
            }
        }
    }
}

impl RdmData {
    /// Parses a structured RDM packet; see [`spec_deserialize`] for the
    /// exact meaning.
    pub fn deserialize(buf: &[u8]) -> (r: Result<Self, RdmDeserializationError>)
        ensures
            r is Ok <==> spec_deserialize(buf@) is Ok,
            r is Ok ==> r.unwrap()@ == spec_deserialize(buf@)->Ok_0,
            r is Err ==> r->Err_0 == spec_deserialize(buf@)->Err_0,
    {
        deserialize_rdm_data(buf)
    }

    /// Serializes this packet; see [`spec_serialize`] for the layout.
    pub fn serialize(&self) -> (r: Vec<u8>)
        requires
            data_pack_wf(spec_pd_len_bytes(self@)),
        ensures
            r@ == spec_serialize(self@),
            r@.len() == 26 + spec_pd_len(self@),
    {
        serialize_rdm_data(self)
    }
}

/// The payload of a packet model.
pub open spec fn spec_pd_len_bytes(m: RdmModel) -> Seq<u8> {
    match m {
        RdmModel::Request(r) => r.parameter_data,
        RdmModel::Response(r) => r.parameter_data,
    }
}

/// Deserialize rdm data. Buffer must be between 22 and 257 bytes; the
/// result mirrors [`spec_deserialize`] exactly.
pub fn deserialize_rdm_data(buffer: &[u8]) -> (r: Result<RdmData, RdmDeserializationError>)
    ensures
        r is Ok <==> spec_deserialize(buffer@) is Ok,
        r is Ok ==> r.unwrap()@ == spec_deserialize(buffer@)->Ok_0,
        r is Err ==> r->Err_0 == spec_deserialize(buffer@)->Err_0,
{
    let buffer_size = buffer.len();

    if buffer_size < RDM_MIN_PACKAGE_SIZE {
        return Err(RdmDeserializationError::BufferTooSmall);
    }

    if buffer_size > RDM_MAX_PACKAGE_SIZE {
        return Err(RdmDeserializationError::BufferTooBig);
    }

    let expected_checksum = calculate_checksum(&buffer[0..buffer_size - 2]);
    let actual_checksum = be16_decode(buffer[buffer_size - 2], buffer[buffer_size - 1]);

    proof {
        assert(buffer@.subrange(0, buffer_size - 2) =~= buffer@.take(buffer_size - 2));
    }

    if expected_checksum != actual_checksum {
        return Err(RdmDeserializationError::WrongChecksum);
    }

    if buffer[0] != SC_RDM || buffer[1] != SC_SUB_MESSAGE {
        return Err(RdmDeserializationError::WrongStartCode);
    }

    let message_length = buffer[2] as usize;
    if message_length != buffer_size - 2 || message_length < 24 {
        return Err(RdmDeserializationError::WrongMessageLength(message_length));
    }

    let parameter_data = copy_range(buffer, 24, buffer_size - 2);

    let destination_uid = PackageAddress::from_byte_slice(&buffer[3..9]);
    let source = PackageAddress::from_byte_slice(&buffer[9..15]);

    let command_class_field = buffer[20];

    let rdm_data = match RequestCommandClass::from_u8(command_class_field) {
        Some(command_class) => {
            let source_uid = match source {
                PackageAddress::Device(device_uid) => device_uid,
                _ => {
                    return Err(RdmDeserializationError::SourceUidIsBroadcast);
                },
            };
            RdmData::Request(
                RdmRequestData {
                    destination_uid,
                    source_uid,
                    transaction_number: buffer[15],
                    port_id: buffer[16],
                    message_count: buffer[17],
                    sub_device: be16_decode(buffer[18], buffer[19]),
                    command_class,
                    parameter_id: be16_decode(buffer[21], buffer[22]),
                    parameter_data,
                },
            )
        },
        None => {
            let response_type_field = buffer[16];
            let response_type = match ResponseType::from_u8(response_type_field) {
                Some(response_type) => response_type,
                None => {
                    return Err(RdmDeserializationError::ResponseTypeNotFound(response_type_field));
                },
            };
            let source_uid = match source {
                PackageAddress::Device(device_uid) => device_uid,
                _ => {
                    return Err(RdmDeserializationError::SourceUidIsBroadcast);
                },
            };
            let command_class = match ResponseCommandClass::from_u8(command_class_field) {
                Some(command_class) => command_class,
                None => {
                    return Err(RdmDeserializationError::CommandClassNotFound(command_class_field));
                },
            };
            RdmData::Response(
                RdmResponseData {
                    destination_uid,
                    source_uid,
                    transaction_number: buffer[15],
                    response_type,
                    message_count: buffer[17],
                    sub_device: be16_decode(buffer[18], buffer[19]),
                    command_class,
                    parameter_id: be16_decode(buffer[21], buffer[22]),
                    parameter_data,
                },
            )
        },
    };

    Ok(rdm_data)
}

/// Serializes RDM data to a binary Vec; the layout is [`spec_serialize`].
pub fn serialize_rdm_data(rdm_data: &RdmData) -> (r: Vec<u8>)
    requires
        data_pack_wf(spec_pd_len_bytes(rdm_data@)),
    ensures
        r@ == spec_serialize(rdm_data@),
        r@.len() == 26 + spec_pd_len(rdm_data@),
{
    let mut out: Vec<u8> = Vec::new();

    match rdm_data {
        RdmData::Request(request) => {
            let pd_len = request.parameter_data.len();
            out.push(SC_RDM);
            out.push(SC_SUB_MESSAGE);
            out.push((24 + pd_len) as u8);
            let dest_bytes = request.destination_uid.to_bytes();
            out.extend_from_slice(dest_bytes.as_slice());
            let source_bytes = request.source_uid.to_bytes();
            out.extend_from_slice(source_bytes.as_slice());
            out.push(request.transaction_number);
            out.push(request.port_id);
            out.push(request.message_count);
            out.push(be16_hi(request.sub_device));
            out.push(be16_lo(request.sub_device));
            out.push(request.command_class.as_u8());
            out.push(be16_hi(request.parameter_id));
            out.push(be16_lo(request.parameter_id));
            out.push(pd_len as u8);
            out.extend_from_slice(request.parameter_data.as_slice());
            proof {
                assert(out@ =~= spec_serialize_body(rdm_data@));
            }
        },
        RdmData::Response(response) => {
            let pd_len = response.parameter_data.len();
            out.push(SC_RDM);
            out.push(SC_SUB_MESSAGE);
            out.push((24 + pd_len) as u8);
            let dest_bytes = response.destination_uid.to_bytes();
            out.extend_from_slice(dest_bytes.as_slice());
            let source_bytes = response.source_uid.to_bytes();
            out.extend_from_slice(source_bytes.as_slice());
            out.push(response.transaction_number);
            out.push(response.response_type.as_u8());
            out.push(response.message_count);
            out.push(be16_hi(response.sub_device));
            out.push(be16_lo(response.sub_device));
            out.push(response.command_class.as_u8());
            out.push(be16_hi(response.parameter_id));
            out.push(be16_lo(response.parameter_id));
            out.push(pd_len as u8);
            out.extend_from_slice(response.parameter_data.as_slice());
            proof {
                assert(out@ =~= spec_serialize_body(rdm_data@));
            }
        },
    }

    let checksum = calculate_checksum(out.as_slice());
    out.push(be16_hi(checksum));
    out.push(be16_lo(checksum));
    proof {
        assert(out@ =~= spec_serialize(rdm_data@));
    }
    out
}

/// First byte of an encoded pair: the source byte with the odd bit lanes
/// forced high.
pub open spec fn enc_hi(b: u8) -> u8 {
    b | 0xAA
}

/// Second byte of an encoded pair: the source byte with the even bit
/// lanes forced high.
pub open spec fn enc_lo(b: u8) -> u8 {
    b | 0x55
}

/// Bit-encodes a byte sequence: every source byte becomes the pair
/// `(b | 0xAA, b | 0x55)`.
pub open spec fn spec_encode_euid(s: Seq<u8>) -> Seq<u8> {
    Seq::new(
        (2 * s.len()) as nat,
        |i: int|
            if i % 2 == 0 {
                enc_hi(s[i / 2])
            } else {
                enc_lo(s[i / 2])
            },
    )
}

/// Decodes pairs of encoded bytes: each pair collapses to its bitwise and.
pub open spec fn spec_decode_euid(s: Seq<u8>) -> Seq<u8> {
    Seq::new((s.len() / 2) as nat, |i: int| s[2 * i] & s[2 * i + 1])
}

/// An encoded pair is intact when re-encoding its decoded byte gives the
/// pair back; any other pair is corruption or a collision.
pub open spec fn pair_ok(x: u8, y: u8) -> bool {
    x == enc_hi(x & y) && y == enc_lo(x & y)
}

/// All pairs of the first `k` pairs are intact.
pub open spec fn pairs_ok_upto(s: Seq<u8>, k: int) -> bool {
    forall|i: int| 0 <= i < k ==> #[trigger] pair_ok(s[2 * i], s[2 * i + 1])
}

/// All pairs of an encoded sequence are intact.
pub open spec fn pairs_ok(s: Seq<u8>) -> bool {
    pairs_ok_upto(s, s.len() as int / 2)
}

/// Checking one more pair extends an intact prefix by exactly that pair.
proof fn lemma_pairs_ok_step(s: Seq<u8>, i: int)
    requires
        i >= 0,
    ensures
        pairs_ok_upto(s, i + 1) == (pairs_ok_upto(s, i) && pair_ok(s[2 * i], s[2 * i + 1])),
{
    if pairs_ok_upto(s, i) && pair_ok(s[2 * i], s[2 * i + 1]) {
        assert forall|j: int| 0 <= j < i + 1 implies #[trigger] pair_ok(
            s[2 * j],
            s[2 * j + 1],
        ) by {
            if j < i {
                assert(pairs_ok_upto(s, i));
            }
        }
    }
}

/// The 7 preamble bytes and the separator that open a discovery response.
pub open spec fn spec_preamble() -> Seq<u8> {
    seq![0xFEu8, 0xFEu8, 0xFEu8, 0xFEu8, 0xFEu8, 0xFEu8, 0xFEu8, SEPARATOR_BYTE]
}

/// The 24-byte discovery frame built over six identity bytes: preamble
/// and separator, the encoded bytes, and the encoded checksum of the
/// twelve encoded bytes.
pub open spec fn spec_discovery_frame(ub: Seq<u8>) -> Seq<u8> {
    let encoded_uid = spec_encode_euid(ub);
    let ck = checksum_of(encoded_uid);
    spec_preamble() + encoded_uid + spec_encode_euid(
        seq![(ck / 0x100) as u8, (ck % 0x100) as u8],
    )
}

/// The 24-byte discovery response of a device id.
pub open spec fn spec_encode_discovery(uid: UniqueIdentifier) -> Seq<u8> {
    spec_discovery_frame(spec_uid_bytes(uid))
}

/// Position of the first separator byte, if any.
pub open spec fn first_sep(s: Seq<u8>) -> Option<int>
    decreases s.len(),
{
    if s.len() == 0 {
        None
    } else if s[0] == SEPARATOR_BYTE {
        Some(0)
    } else {
        match first_sep(s.drop_first()) {
            None => None,
            Some(i) => Some(i + 1),
        }
    }
}

/// What `first_sep` finds: the first separator, before which there is none.
pub proof fn lemma_first_sep(s: Seq<u8>)
    ensures
        match first_sep(s) {
            None => forall|j: int| 0 <= j < s.len() ==> s[j] != SEPARATOR_BYTE,
            Some(i) => 0 <= i < s.len() && s[i] == SEPARATOR_BYTE && forall|j: int|
                0 <= j < i ==> s[j] != SEPARATOR_BYTE,
        },
    decreases s.len(),
{
    if s.len() > 0 && s[0] != SEPARATOR_BYTE {
        lemma_first_sep(s.drop_first());
        let rest = s.drop_first();
        match first_sep(rest) {
            None => {
                assert forall|j: int| 0 <= j < s.len() implies s[j] != SEPARATOR_BYTE by {
                    if j > 0 {
                        assert(s[j] == rest[j - 1]);
                    }
                }
            },
            Some(i) => {
                assert(s[i + 1] == rest[i]);
                assert forall|j: int| 0 <= j < i + 1 implies s[j] != SEPARATOR_BYTE by {
                    if j > 0 {
                        assert(s[j] == rest[j - 1]);
                    }
                }
            },
        }
    }
}

/// A position that holds the separator and has none before it is the one
/// `first_sep` finds.
pub proof fn lemma_first_sep_is(s: Seq<u8>, i: int)
    requires
        0 <= i < s.len(),
        s[i] == SEPARATOR_BYTE,
        forall|j: int| 0 <= j < i ==> s[j] != SEPARATOR_BYTE,
    ensures
        first_sep(s) == Some(i),
{
    lemma_first_sep(s);
    match first_sep(s) {
        None => {
            assert(false);
        },
        Some(k) => {
            if k < i {
                assert(s[k] != SEPARATOR_BYTE);
            } else if i < k {
                assert(s[i] != SEPARATOR_BYTE);
            }
        },
    }
}

/// What a received discovery frame decodes to: scan to the separator,
/// take the sixteen encoded bytes after it, reject broken pairs and a
/// checksum mismatch, and reject a decoded id that is a broadcast.
pub open spec fn spec_decode_discovery(s: Seq<u8>) -> Result<
    UniqueIdentifier,
    RdmDeserializationError,
> {
    match first_sep(s) {
        None => Err(RdmDeserializationError::WrongStartCode),
        Some(sep) => {
            let start = sep + 1;
            if s.len() - start < 16 {
                Err(RdmDeserializationError::WrongMessageLength((s.len() - start) as usize))
            } else {
                let u_enc = s.subrange(start, start + 12);
                let c_enc = s.subrange(start + 12, start + 16);
                if !pairs_ok(u_enc) {
                    Err(RdmDeserializationError::WrongChecksum)
                } else {
                    match spec_addr_from_bytes(spec_decode_euid(u_enc)) {
                        PackageAddress::Device(uid) => {
                            if !pairs_ok(c_enc) {
                                Err(RdmDeserializationError::WrongChecksum)
                            } else {
                                let dc = spec_decode_euid(c_enc);
                                if checksum_of(u_enc) == be16(dc[0], dc[1]) {
                                    Ok(uid)
                                } else {
                                    Err(RdmDeserializationError::WrongChecksum)
                                }
                            }
                        },
                        _ => Err(RdmDeserializationError::SourceUidIsBroadcast),
                    }
                }
            }
        },
    }
}

/// Bit-encodes a buffer for the discovery response: every byte becomes
/// the pair `(b | 0xAA, b | 0x55)`.
pub fn encode_disc_unique(src: &[u8]) -> (r: Vec<u8>)
    requires
        src@.len() <= 64,
    ensures
        r@ == spec_encode_euid(src@),
{
    let mut out: Vec<u8> = Vec::new();
    let mut i: usize = 0;
    while i < src.len()
        invariant
            i <= src@.len(),
            src@.len() <= 64,
            out@ == spec_encode_euid(src@.take(i as int)),
        decreases src@.len() - i,
    {
        let b = src[i];
        out.push(b | 0xAA);
        out.push(b | 0x55);
        proof {
            assert(out@ =~= spec_encode_euid(src@.take(i + 1)));
        }
        i = i + 1;
    }
    proof {
        assert(src@.take(src@.len() as int) =~= src@);
    }
    out
}

/// Decodes pairs of encoded discovery bytes. The second component says
/// whether every pair was intact; a broken pair signals corruption or a
/// collision on the bus.
pub fn decode_disc_unique(src: &[u8]) -> (r: (Vec<u8>, bool))
    requires
        src@.len() % 2 == 0,
    ensures
        r.0@ == spec_decode_euid(src@),
        r.1 == pairs_ok(src@),
{
    let mut out: Vec<u8> = Vec::new();
    let mut ok: bool = true;
    let mut i: usize = 0;
    let pair_count = src.len() / 2;
    while i < pair_count
        invariant
            i <= pair_count,
            pair_count == src@.len() / 2,
            src@.len() <= usize::MAX,
            src@.len() % 2 == 0,
            out@ == spec_decode_euid(src@).take(i as int),
            ok == pairs_ok_upto(src@, i as int),
        decreases pair_count - i,
    {
        let x = src[2 * i];
        let y = src[2 * i + 1];
        let d = x & y;
        if x != d | 0xAA || y != d | 0x55 {
            ok = false;
        }
        out.push(d);
        proof {
            assert(out@ =~= spec_decode_euid(src@).take(i + 1));
            lemma_pairs_ok_step(src@, i as int);
        }
        i = i + 1;
    }
    proof {
        assert(spec_decode_euid(src@).take(src@.len() as int / 2) =~= spec_decode_euid(src@));
    }
    (out, ok)
}

/// Builds the 24-byte reply to a matching DISC_UNIQUE_BRANCH probe; see
/// [`spec_encode_discovery`] for the layout.
pub fn encode_discovery_response(uid: &UniqueIdentifier) -> (r: Vec<u8>)
    ensures
        r@ == spec_encode_discovery(*uid),
        r@.len() == 24,
{
    let mut out: Vec<u8> = Vec::new();
    out.push(0xFE);
    out.push(0xFE);
    out.push(0xFE);
    out.push(0xFE);
    out.push(0xFE);
    out.push(0xFE);
    out.push(0xFE);
    out.push(SEPARATOR_BYTE);

    let uid_bytes = uid.to_bytes();
    let encoded_uid = encode_disc_unique(uid_bytes.as_slice());
    out.extend_from_slice(encoded_uid.as_slice());

    let checksum = calculate_checksum(encoded_uid.as_slice());
    let mut checksum_bytes: Vec<u8> = Vec::new();
    checksum_bytes.push(be16_hi(checksum));
    checksum_bytes.push(be16_lo(checksum));
    proof {
        assert(checksum_bytes@ =~= seq![
            (checksum_of(spec_encode_euid(spec_uid_bytes(*uid))) / 0x100) as u8,
            (checksum_of(spec_encode_euid(spec_uid_bytes(*uid))) % 0x100) as u8,
        ]);
    }
    let encoded_checksum = encode_disc_unique(checksum_bytes.as_slice());
    out.extend_from_slice(encoded_checksum.as_slice());
    proof {
        assert(out@ =~= spec_encode_discovery(*uid));
    }
    out
}

/// Returns the received device id if there is no collision; the result
/// mirrors [`spec_decode_discovery`] exactly.
pub fn deserialize_discovery_response(buffer: &[u8]) -> (r: Result<
    UniqueIdentifier,
    RdmDeserializationError,
>)
    ensures
        r is Ok <==> spec_decode_discovery(buffer@) is Ok,
        r is Ok ==> r.unwrap() == spec_decode_discovery(buffer@)->Ok_0,
        r is Err ==> r->Err_0 == spec_decode_discovery(buffer@)->Err_0,
{
    let mut index: usize = 0;
    let mut found: bool = false;
    while index < buffer.len() && !found
        invariant
            index <= buffer@.len(),
            found ==> index < buffer@.len() && buffer@[index as int] == SEPARATOR_BYTE,
            forall|j: int|
                0 <= j < index ==> buffer@[j] != SEPARATOR_BYTE,
        decreases buffer@.len() - index + (if found { 0int } else { 1int }),
    {
        if buffer[index] == SEPARATOR_BYTE {
            found = true;
        } else {
            index = index + 1;
        }
    }

    if !found {
        proof {
            lemma_first_sep(buffer@);
            if first_sep(buffer@) is Some {
                let i = first_sep(buffer@)->0;
                assert(buffer@[i] == SEPARATOR_BYTE);
            }
        }
        return Err(RdmDeserializationError::WrongStartCode);
    }

    proof {
        lemma_first_sep_is(buffer@, index as int);
    }

    let start_index = index + 1;
    let message_length = buffer.len() - start_index;
    if message_length < 16 {
        return Err(RdmDeserializationError::WrongMessageLength(message_length));
    }

    let (device_id_buf, uid_pairs_ok) = decode_disc_unique(&buffer[start_index..start_index + 12]);
    if !uid_pairs_ok {
        return Err(RdmDeserializationError::WrongChecksum);
    }

    let uid = match PackageAddress::from_bytes(&device_id_buf) {
        PackageAddress::Device(uid) => uid,
        _ => {
            return Err(RdmDeserializationError::SourceUidIsBroadcast);
        },
    };

    let (checksum_buf, checksum_pairs_ok) = decode_disc_unique(
        &buffer[start_index + 12..start_index + 16],
    );
    if !checksum_pairs_ok {
        return Err(RdmDeserializationError::WrongChecksum);
    }

    let calculated_checksum = calculate_checksum(&buffer[start_index..start_index + 12]);
    proof {
        assert(buffer@.subrange(start_index as int, start_index + 12).take(12)
            =~= buffer@.subrange(start_index as int, start_index + 12));
    }
    let received_checksum = be16_decode(checksum_buf[0], checksum_buf[1]);

    if calculated_checksum != received_checksum {
        return Err(RdmDeserializationError::WrongChecksum);
    }

    Ok(uid)
}

/// Whatever deserializes carries a payload that fits one packet.
pub proof fn lemma_deserialize_payload_bound(s: Seq<u8>)
    ensures
        spec_deserialize(s) is Ok ==> data_pack_wf(spec_pd_len_bytes(spec_deserialize(s)->Ok_0)),
{
}

/// Lengths of the pieces a serialized body is made of.
proof fn lemma_body_shape(m: RdmModel)
    ensures
        spec_serialize_body(m).len() == 24 + spec_pd_len(m),
        spec_serialize(m).len() == 26 + spec_pd_len(m),
{
    match m {
        RdmModel::Request(r) => {
            crate::unique_identifier::lemma_addr_bytes_len(r.destination_uid);
        },
        RdmModel::Response(r) => {
            crate::unique_identifier::lemma_addr_bytes_len(r.destination_uid);
        },
    }
}

/// Codec round trip: every valid packet deserializes from its own
/// serialization, to itself.
pub proof fn lemma_codec_round_trip(m: RdmModel)
    requires
        rdm_wf(m),
    ensures
        spec_deserialize(spec_serialize(m)) == Ok::<RdmModel, RdmDeserializationError>(m),
{
    let body = spec_serialize_body(m);
    let ck = checksum_of(body);
    let s = spec_serialize(m);
    let pd = spec_pd_len_bytes(m);
    let n = s.len() as int;
    lemma_body_shape(m);
    crate::utils::lemma_be16_roundtrip(ck);
    assert(s.take(n - 2) =~= body);
    assert(s[n - 2] == (ck / 0x100) as u8 && s[n - 1] == (ck % 0x100) as u8);

    match m {
        RdmModel::Request(r) => {
            crate::unique_identifier::lemma_addr_bytes_len(r.destination_uid);
            let head = seq![SC_RDM, SC_SUB_MESSAGE, (24 + r.parameter_data.len()) as u8];
            let dest = spec_addr_bytes(r.destination_uid);
            let src = spec_uid_bytes(r.source_uid);
            let mid = seq![
                r.transaction_number,
                r.port_id,
                r.message_count,
                (r.sub_device / 0x100) as u8,
                (r.sub_device % 0x100) as u8,
                request_class_u8(r.command_class),
                (r.parameter_id / 0x100) as u8,
                (r.parameter_id % 0x100) as u8,
                r.parameter_data.len() as u8,
            ];
            assert(body == head + dest + src + mid + pd);
            assert(s[0] == SC_RDM && s[1] == SC_SUB_MESSAGE);
            assert(s[2] == (24 + r.parameter_data.len()) as u8);
            assert(s.subrange(3, 9) =~= dest);
            assert(s.subrange(9, 15) =~= src);
            assert(s[15] == r.transaction_number);
            assert(s[16] == r.port_id);
            assert(s[17] == r.message_count);
            assert(s[18] == (r.sub_device / 0x100) as u8);
            assert(s[19] == (r.sub_device % 0x100) as u8);
            assert(s[20] == request_class_u8(r.command_class));
            assert(s[21] == (r.parameter_id / 0x100) as u8);
            assert(s[22] == (r.parameter_id % 0x100) as u8);
            assert(s.subrange(24, n - 2) =~= pd);
            crate::utils::lemma_be16_roundtrip(r.sub_device);
            crate::utils::lemma_be16_roundtrip(r.parameter_id);
            crate::unique_identifier::lemma_addr_bytes_roundtrip(r.destination_uid);
            crate::unique_identifier::lemma_addr_bytes_roundtrip(
                PackageAddress::Device(r.source_uid),
            );
            assert(spec_request_class_from_u8(request_class_u8(r.command_class))
                == Some(r.command_class));
            assert(spec_deserialize(s)->Ok_0 == m);
        },
        RdmModel::Response(r) => {
            crate::unique_identifier::lemma_addr_bytes_len(r.destination_uid);
            let head = seq![SC_RDM, SC_SUB_MESSAGE, (24 + r.parameter_data.len()) as u8];
            let dest = spec_addr_bytes(r.destination_uid);
            let src = spec_uid_bytes(r.source_uid);
            let mid = seq![
                r.transaction_number,
                response_type_u8(r.response_type),
                r.message_count,
                (r.sub_device / 0x100) as u8,
                (r.sub_device % 0x100) as u8,
                response_class_u8(r.command_class),
                (r.parameter_id / 0x100) as u8,
                (r.parameter_id % 0x100) as u8,
                r.parameter_data.len() as u8,
            ];
            assert(body == head + dest + src + mid + pd);
            assert(s[0] == SC_RDM && s[1] == SC_SUB_MESSAGE);
            assert(s[2] == (24 + r.parameter_data.len()) as u8);
            assert(s.subrange(3, 9) =~= dest);
            assert(s.subrange(9, 15) =~= src);
            assert(s[15] == r.transaction_number);
            assert(s[16] == response_type_u8(r.response_type));
            assert(s[17] == r.message_count);
            assert(s[18] == (r.sub_device / 0x100) as u8);
            assert(s[19] == (r.sub_device % 0x100) as u8);
            assert(s[20] == response_class_u8(r.command_class));
            assert(s[21] == (r.parameter_id / 0x100) as u8);
            assert(s[22] == (r.parameter_id % 0x100) as u8);
            assert(s.subrange(24, n - 2) =~= pd);
            crate::utils::lemma_be16_roundtrip(r.sub_device);
            crate::utils::lemma_be16_roundtrip(r.parameter_id);
            crate::unique_identifier::lemma_addr_bytes_roundtrip(r.destination_uid);
            crate::unique_identifier::lemma_addr_bytes_roundtrip(
                PackageAddress::Device(r.source_uid),
            );
            assert(spec_request_class_from_u8(response_class_u8(r.command_class)) is None);
            assert(spec_response_type_from_u8(response_type_u8(r.response_type))
                == Some(r.response_type));
            assert(spec_response_class_from_u8(response_class_u8(r.command_class))
                == Some(r.command_class));
            assert(spec_deserialize(s)->Ok_0 == m);
        },
    }
}

/// Checksum detection: changing any single byte of a serialized packet
/// ahead of the checksum field makes deserialization fail with a
/// checksum error.
pub proof fn lemma_checksum_detects_flip(m: RdmModel, i: int, v: u8)
    requires
        rdm_wf(m),
        0 <= i < spec_serialize(m).len() - 2,
        v != spec_serialize(m)[i],
    ensures
        spec_deserialize(spec_serialize(m).update(i, v)) == Err::<RdmModel, RdmDeserializationError>(
            RdmDeserializationError::WrongChecksum,
        ),
{
    let s = spec_serialize(m);
    let s2 = s.update(i, v);
    let n = s.len() as int;
    lemma_body_shape(m);
    let ck = checksum_of(spec_serialize_body(m));
    crate::utils::lemma_be16_roundtrip(ck);
    assert(s.take(n - 2) =~= spec_serialize_body(m));
    assert(s2[n - 2] == s[n - 2] && s2[n - 1] == s[n - 1]);
    assert(s2.take(n - 2)[i] == v);
    lemma_checksum_single_change(s.take(n - 2), s2.take(n - 2), i);
    assert(be16(s2[n - 2], s2[n - 1]) == checksum_of(s.take(n - 2)));
}

/// One intact pair per source byte: the encoded pair decodes back to its
/// byte.
proof fn lemma_enc_pair_ok(b: u8)
    ensures
        pair_ok(enc_hi(b), enc_lo(b)),
        (enc_hi(b) & enc_lo(b)) == b,
{
    assert(((b | 0xAA) & (b | 0x55)) == b) by (bit_vector);
}

/// Two intact pairs that decode to the same byte are the same pair.
proof fn lemma_pair_ok_injective(x1: u8, y1: u8, x2: u8, y2: u8)
    requires
        pair_ok(x1, y1),
        pair_ok(x2, y2),
        x1 & y1 == x2 & y2,
    ensures
        x1 == x2,
        y1 == y2,
{
}

/// The bit-encoding of a byte sequence: twice as long, every pair
/// intact, and decoding gives the sequence back.
proof fn lemma_encode_euid_props(s: Seq<u8>)
    ensures
        spec_encode_euid(s).len() == 2 * s.len(),
        pairs_ok(spec_encode_euid(s)),
        spec_decode_euid(spec_encode_euid(s)) =~= s,
{
    let e = spec_encode_euid(s);
    assert forall|i: int| 0 <= i < s.len() implies #[trigger] pair_ok(e[2 * i], e[2 * i + 1]) && (
    e[2 * i] & e[2 * i + 1]) == s[i] by {
        assert((2 * i) / 2 == i && (2 * i + 1) / 2 == i);
        assert(e[2 * i] == enc_hi(s[i]));
        assert(e[2 * i + 1] == enc_lo(s[i]));
        lemma_enc_pair_ok(s[i]);
    }
    assert forall|i: int| 0 <= i < spec_decode_euid(e).len() implies #[trigger] spec_decode_euid(
        e,
    )[i] == s[i] by {
        assert(pair_ok(e[2 * i], e[2 * i + 1]) && (e[2 * i] & e[2 * i + 1]) == s[i]);
    }
}

/// A decoded discovery reply never names a broadcast: the decoder's
/// device branch rules out an all-ones device id.
pub proof fn lemma_decode_discovery_device(s: Seq<u8>)
    ensures
        spec_decode_discovery(s) is Ok ==> spec_decode_discovery(s)->Ok_0.device_uid
            != 0xFFFF_FFFF,
{
}

/// Shape of a discovery frame: seven preamble bytes, the separator, the
/// two encoded blocks.
proof fn lemma_frame_shape(ub: Seq<u8>)
    requires
        ub.len() == 6,
    ensures
        spec_discovery_frame(ub).len() == 24,
        forall|j: int| 0 <= j < 7 ==> spec_discovery_frame(ub)[j] == PREAMBLE_BYTE,
        spec_discovery_frame(ub)[7] == SEPARATOR_BYTE,
        spec_discovery_frame(ub).subrange(8, 20) =~= spec_encode_euid(ub),
        spec_discovery_frame(ub).subrange(20, 24) =~= spec_encode_euid(
            seq![
                (checksum_of(spec_encode_euid(ub)) / 0x100) as u8,
                (checksum_of(spec_encode_euid(ub)) % 0x100) as u8,
            ],
        ),
{
    let e = spec_encode_euid(ub);
    let ck = checksum_of(e);
    let ckb = seq![(ck / 0x100) as u8, (ck % 0x100) as u8];
    let ce = spec_encode_euid(ckb);
    let s = spec_discovery_frame(ub);
    assert(s == spec_preamble() + e + ce);
    assert(e.len() == 12 && ce.len() == 4);
    assert forall|j: int| 0 <= j < 7 implies s[j] == PREAMBLE_BYTE by {
        assert(s[j] == spec_preamble()[j]);
    }
}

/// Discovery round trip: the encoded reply of every well-formed device
/// id decodes back to that id.
#[verifier::rlimit(50)]
#[verifier::spinoff_prover]
pub proof fn lemma_discovery_round_trip(uid: UniqueIdentifier)
    requires
        uid_wf(uid),
    ensures
        spec_decode_discovery(spec_encode_discovery(uid)) == Ok::<
            UniqueIdentifier,
            RdmDeserializationError,
        >(uid),
{
    let ub = spec_uid_bytes(uid);
    let e = spec_encode_euid(ub);
    let ck = checksum_of(e);
    let ckb = seq![(ck / 0x100) as u8, (ck % 0x100) as u8];
    let s = spec_discovery_frame(ub);
    lemma_frame_shape(ub);
    lemma_encode_euid_props(ub);
    lemma_encode_euid_props(ckb);
    lemma_first_sep_is(s, 7);
    let u_enc = s.subrange(8, 20);
    let c_enc = s.subrange(20, 24);
    assert(pairs_ok(u_enc) && pairs_ok(c_enc));
    assert(spec_decode_euid(u_enc) =~= ub);
    crate::unique_identifier::lemma_addr_bytes_roundtrip(PackageAddress::Device(uid));
    assert(spec_addr_from_bytes(spec_decode_euid(u_enc)) == PackageAddress::Device(uid));
    let dc = spec_decode_euid(c_enc);
    assert(dc =~= ckb);
    crate::utils::lemma_be16_roundtrip(ck);
    assert(checksum_of(u_enc) == checksum_of(e));
    assert(checksum_of(u_enc) == be16(dc[0], dc[1]));
}

/// A change inside an encoded block either breaks a pair or changes the
/// byte that pair decodes to.
#[verifier::spinoff_prover]
proof fn lemma_flipped_block(orig: Seq<u8>, enc: Seq<u8>, k: int)
    requires
        enc.len() == 2 * orig.len(),
        0 <= k < enc.len(),
        forall|j: int| 0 <= j < enc.len() && j != k ==> enc[j] == spec_encode_euid(orig)[j],
        enc[k] != spec_encode_euid(orig)[k],
        pairs_ok(enc),
    ensures
        spec_decode_euid(enc).len() == orig.len(),
        spec_decode_euid(enc)[k / 2] != orig[k / 2],
        forall|j: int| 0 <= j < orig.len() && j != k / 2 ==> spec_decode_euid(enc)[j] == orig[j],
{
    let e = spec_encode_euid(orig);
    lemma_encode_euid_props(orig);
    let p = k / 2;
    assert(pair_ok(enc[2 * p], enc[2 * p + 1]));
    assert(pair_ok(e[2 * p], e[2 * p + 1]) && (e[2 * p] & e[2 * p + 1]) == orig[p]);
    if enc[2 * p] & enc[2 * p + 1] == orig[p] {
        lemma_pair_ok_injective(enc[2 * p], enc[2 * p + 1], e[2 * p], e[2 * p + 1]);
        assert(2 * p == k || 2 * p + 1 == k);
        assert(false);
    }
    assert forall|j: int| 0 <= j < orig.len() && j != p implies #[trigger] spec_decode_euid(
        enc,
    )[j] == orig[j] by {
        assert(enc[2 * j] == e[2 * j] && enc[2 * j + 1] == e[2 * j + 1]);
        assert((e[2 * j] & e[2 * j + 1]) == orig[j]);
    }
}

/// A frame whose separator was destroyed no longer decodes: whatever
/// separator the scanner finds instead sits too late.
#[verifier::spinoff_prover]
proof fn lemma_frame_flip_separator(ub: Seq<u8>, s2: Seq<u8>)
    requires
        ub.len() == 6,
        s2.len() == 24,
        forall|j: int| 0 <= j < 24 && j != 7 ==> s2[j] == spec_discovery_frame(ub)[j],
        s2[7] != SEPARATOR_BYTE,
    ensures
        spec_decode_discovery(s2) is Err,
{
    lemma_frame_shape(ub);
    lemma_first_sep(s2);
    match first_sep(s2) {
        None => {
        },
        Some(k) => {
            assert(s2[k] == SEPARATOR_BYTE);
            if k < 7 {
                assert(s2[k] == spec_discovery_frame(ub)[k]);
                assert(false);
            }
            if k == 7 {
                assert(false);
            }
            assert(s2.len() - (k + 1) < 16);
        },
    }
}

/// A frame with one changed byte among the encoded identity bytes no
/// longer decodes.
#[verifier::spinoff_prover]
proof fn lemma_frame_flip_uid_region(ub: Seq<u8>, s2: Seq<u8>, i: int)
    requires
        ub.len() == 6,
        s2.len() == 24,
        8 <= i < 20,
        forall|j: int| 0 <= j < 24 && j != i ==> s2[j] == spec_discovery_frame(ub)[j],
        s2[i] != spec_discovery_frame(ub)[i],
    ensures
        spec_decode_discovery(s2) is Err,
{
    let e = spec_encode_euid(ub);
    let ck = checksum_of(e);
    let ckb = seq![(ck / 0x100) as u8, (ck % 0x100) as u8];
    let s = spec_discovery_frame(ub);
    lemma_frame_shape(ub);
    lemma_encode_euid_props(ub);
    lemma_encode_euid_props(ckb);
    assert forall|j: int| 0 <= j < 7 implies s2[j] != SEPARATOR_BYTE by {
        assert(s2[j] == s[j]);
    }
    assert(s2[7] == s[7]);
    lemma_first_sep_is(s2, 7);
    let u_enc = s2.subrange(8, 20);
    let c_enc = s2.subrange(20, 24);
    assert(c_enc =~= s.subrange(20, 24));
    if pairs_ok(u_enc) {
        assert forall|j: int| 0 <= j < 12 && j != i - 8 implies u_enc[j] == e[j] by {
            assert(u_enc[j] == s2[8 + j] && s2[8 + j] == s[8 + j] && s.subrange(8, 20)[j] == e[j]);
        }
        assert(u_enc[i - 8] == s2[i] && s[i] == e[i - 8]);
        lemma_flipped_block(ub, u_enc, i - 8);
        let du = spec_decode_euid(u_enc);
        if spec_addr_from_bytes(du) is Device {
            // The identity bytes changed, so the checksum taken over
            // them no longer matches the stored one.
            lemma_checksum_single_change(e, u_enc, i - 8);
            let dc = spec_decode_euid(c_enc);
            assert(dc =~= ckb);
            crate::utils::lemma_be16_roundtrip(ck);
            assert(checksum_of(u_enc) != be16(dc[0], dc[1]));
        }
    }
}

/// A frame with one changed byte among the encoded checksum bytes no
/// longer decodes.
#[verifier::spinoff_prover]
proof fn lemma_frame_flip_checksum_region(ub: Seq<u8>, s2: Seq<u8>, i: int)
    requires
        ub.len() == 6,
        s2.len() == 24,
        20 <= i < 24,
        forall|j: int| 0 <= j < 24 && j != i ==> s2[j] == spec_discovery_frame(ub)[j],
        s2[i] != spec_discovery_frame(ub)[i],
    ensures
        spec_decode_discovery(s2) is Err,
{
    let e = spec_encode_euid(ub);
    let ck = checksum_of(e);
    let ckb = seq![(ck / 0x100) as u8, (ck % 0x100) as u8];
    let ce = spec_encode_euid(ckb);
    let s = spec_discovery_frame(ub);
    lemma_frame_shape(ub);
    lemma_encode_euid_props(ub);
    lemma_encode_euid_props(ckb);
    assert forall|j: int| 0 <= j < 7 implies s2[j] != SEPARATOR_BYTE by {
        assert(s2[j] == s[j]);
    }
    assert(s2[7] == s[7]);
    lemma_first_sep_is(s2, 7);
    let u_enc = s2.subrange(8, 20);
    let c_enc = s2.subrange(20, 24);
    assert(u_enc =~= e);
    assert(spec_decode_euid(u_enc) =~= ub);
    if spec_addr_from_bytes(spec_decode_euid(u_enc)) is Device {
        if pairs_ok(c_enc) {
            assert forall|j: int| 0 <= j < 4 && j != i - 20 implies c_enc[j] == ce[j] by {
                assert(c_enc[j] == s2[20 + j] && s2[20 + j] == s[20 + j] && s.subrange(20, 24)[j]
                    == ce[j]);
            }
            assert(c_enc[i - 20] == s2[i] && s[i] == ce[i - 20]);
            lemma_flipped_block(ckb, c_enc, i - 20);
            let q = (i - 20) / 2;
            let dc = spec_decode_euid(c_enc);
            assert(dc[q] != ckb[q]);
            assert(dc[1 - q] == ckb[1 - q]);
            // Either byte of the stored checksum moving moves its value.
            crate::utils::lemma_be16_roundtrip(ck);
            assert(be16(dc[0], dc[1]) != ck);
            assert(checksum_of(u_enc) == checksum_of(e));
        }
    }
}

/// Corruption detection for discovery replies: changing any single byte
/// of the encoded reply at or after the separator makes decoding fail.
/// (Bytes ahead of the separator are preamble that the scanner skips:
/// changing one of them can leave the reply decodable.)
pub proof fn lemma_discovery_detects_flip(uid: UniqueIdentifier, i: int, v: u8)
    requires
        7 <= i < 24,
        v != spec_encode_discovery(uid)[i],
    ensures
        spec_decode_discovery(spec_encode_discovery(uid).update(i, v)) is Err,
{
    let ub = spec_uid_bytes(uid);
    let s = spec_discovery_frame(ub);
    let s2 = s.update(i, v);
    lemma_frame_shape(ub);
    assert(s2.len() == 24);
    assert(s2[i] == v);
    assert forall|j: int| 0 <= j < 24 && j != i implies s2[j] == s[j] by {}
    if i == 7 {
        lemma_frame_flip_separator(ub, s2);
    } else if i < 20 {
        lemma_frame_flip_uid_region(ub, s2, i);
    } else {
        lemma_frame_flip_checksum_region(ub, s2, i);
    }
}

} // verus!
//! Typed decoding of the payloads the controller receives.

use crate::consts::{
    RDM_MAX_STATUS_PACKAGES_PER_REQUEST, RDM_MAX_SUPPORTED_PARAMETERS_PER_REQUEST,
    RDM_STATUS_MESSAGE_SIZE,
};
use crate::pids;
use crate::rdm_types::{
    spec_status_type_from_u8, DeserializationError, DmxStartAddress, StatusMessage,
};
use crate::types::DataPack;
use crate::utils::be16;
use vstd::prelude::*;

verus! {

/// What a one-byte identify payload means: its byte, read as a boolean.
/// Only payloads of exactly one byte are accepted.
pub fn deserialize_identify(buffer: &[u8]) -> (r: Result<bool, DeserializationError>)
    ensures
        r is Ok <==> buffer@.len() == 1,
        r is Ok ==> r.unwrap() == (buffer@[0] != 0),
{
    if buffer.len() != 1 {
        return Err(DeserializationError);
    }

    Ok(buffer[0] != 0)
}

/// Reads a software-version label of at most 32 bytes as text. Succeeds
/// exactly when the bytes fit and are valid text; the text is named by
/// [`crate::utils::utf8_decode`].
pub fn deserialize_software_version_label(buffer: &[u8]) -> (r: Result<
    String,
    DeserializationError,
>)
    ensures
        r is Ok <==> buffer@.len() <= 32 && crate::utils::utf8_decode(buffer@) is Some,
        r is Ok ==> r.unwrap()@ == crate::utils::utf8_decode(buffer@).unwrap(),
{
    if buffer.len() > 32 {
        return Err(DeserializationError);
    }

    match crate::utils::bytes_to_string(buffer) {
        Some(label) => Ok(label),
        None => Err(DeserializationError),
    }
}

/// Every byte of a well-formed status list parses through
/// [`StatusMessage::deserialize`]; this names the message a nine-byte
/// block stands for.
pub open spec fn spec_status_block(s: Seq<u8>, i: int) -> Option<StatusMessage> {
    let block = s.subrange(9 * i, 9 * i + 9);
    if spec_status_type_from_u8(block[2]) is Some {
        Some(
            StatusMessage {
                sub_device_id: be16(block[0], block[1]),
                status_type: spec_status_type_from_u8(block[2]).unwrap(),
                status_message_id: be16(block[3], block[4]),
                data_value_1: be16(block[5], block[6]),
                data_value_2: be16(block[7], block[8]),
            },
        )
    } else {
        None
    }
}

/// Splits a status-message payload into its nine-byte messages. Succeeds
/// exactly when the length is a multiple of nine, at most 25 messages
/// arrive, and every block carries a known status type.
pub fn deserialize_status_messages(buffer: &[u8]) -> (r: Result<
    Vec<StatusMessage>,
    DeserializationError,
>)
    ensures
        r is Ok ==> {
            let messages = r.unwrap()@;
            &&& buffer@.len() == 9 * messages.len()
            &&& messages.len() <= RDM_MAX_STATUS_PACKAGES_PER_REQUEST
            &&& forall|i: int|
                0 <= i < messages.len() ==> Some(#[trigger] messages[i]) == spec_status_block(
                    buffer@,
                    i,
                )
        },
        r is Err ==> buffer@.len() % 9 != 0 || buffer@.len() > 9
            * RDM_MAX_STATUS_PACKAGES_PER_REQUEST || exists|i: int|
            0 <= i < buffer@.len() / 9 && spec_status_block(buffer@, i) is None,
{
    if buffer.len() % RDM_STATUS_MESSAGE_SIZE != 0 {
        return Err(DeserializationError);
    }
    let count = buffer.len() / RDM_STATUS_MESSAGE_SIZE;
    if count > RDM_MAX_STATUS_PACKAGES_PER_REQUEST {
        return Err(DeserializationError);
    }

    let mut status_messages: Vec<StatusMessage> = Vec::new();
    let mut i: usize = 0;
    while i < count
        invariant
            i <= count,
            count == buffer@.len() / 9,
            buffer@.len() % 9 == 0,
            buffer@.len() <= usize::MAX,
            status_messages@.len() == i,
            forall|j: int|
                0 <= j < i ==> Some(#[trigger] status_messages@[j]) == spec_status_block(
                    buffer@,
                    j,
                ),
        decreases count - i,
    {
        let block = &buffer[9 * i..9 * i + 9];
        let message = match StatusMessage::deserialize(block) {
            Ok(message) => message,
            Err(e) => {
                proof {
                    assert(spec_status_block(buffer@, i as int) is None);
                }
                return Err(e);
            },
        };
        proof {
            assert(Some(message) == spec_status_block(buffer@, i as int));
        }
        status_messages.push(message);
        i = i + 1;
    }

    Ok(status_messages)
}

/// The parameter id sixteen payload bits stand for.
pub open spec fn spec_supported_parameter(s: Seq<u8>, i: int) -> u16 {
    be16(s[2 * i], s[2 * i + 1])
}

/// Splits a supported-parameters payload into big-endian parameter ids.
/// Succeeds exactly when the length is even and at most 128 ids arrive.
pub fn deserialize_supported_parameters(buffer: &[u8]) -> (r: Result<
    Vec<u16>,
    DeserializationError,
>)
    ensures
        r is Ok <==> buffer@.len() % 2 == 0 && buffer@.len() <= 2
            * RDM_MAX_SUPPORTED_PARAMETERS_PER_REQUEST,
        r is Ok ==> {
            let pids = r.unwrap()@;
            &&& buffer@.len() == 2 * pids.len()
            &&& forall|i: int|
                0 <= i < pids.len() ==> #[trigger] pids[i] == spec_supported_parameter(buffer@, i)
        },
{
    if buffer.len() % 2 != 0 {
        return Err(DeserializationError);
    }
    let count = buffer.len() / 2;
    if count > RDM_MAX_SUPPORTED_PARAMETERS_PER_REQUEST {
        return Err(DeserializationError);
    }

    let mut supported_parameters: Vec<u16> = Vec::new();
    let mut i: usize = 0;
    while i < count
        invariant
            i <= count,
            count == buffer@.len() / 2,
            buffer@.len() % 2 == 0,
            buffer@.len() <= usize::MAX,
            supported_parameters@.len() == i,
            forall|j: int|
                0 <= j < i ==> #[trigger] supported_parameters@[j] == spec_supported_parameter(
                    buffer@,
                    j,
                ),
        decreases count - i,
    {
        let value = crate::utils::be16_decode(buffer[2 * i], buffer[2 * i + 1]);
        supported_parameters.push(value);
        i = i + 1;
    }

    Ok(supported_parameters)
}

/// The message data of a response together with its parameter id.
#[derive(Debug)]
pub struct RdmResponseInfo {
    pub parameter_id: u16,
    pub message_count: u8,
    pub data: DataPack,
}

/// A response payload decoded by the parameter id it answered.
#[derive(Debug)]
pub enum RdmResponsePackage {
    IdentifyDevice(bool),
    SoftwareVersionLabel(String),
    DmxStartAddress(DmxStartAddress),
    StatusMessages(Vec<StatusMessage>),
    SupportedParameters(Vec<u16>),
    Custom(RdmResponseInfo),
}

impl RdmResponsePackage {
    /// Decodes a response payload by its parameter id; ids the library
    /// does not know are handed back untouched.
    pub fn from_response_info(response_info: RdmResponseInfo) -> (r: Result<
        Self,
        DeserializationError,
    >)
        ensures
            ({
                let pid = response_info.parameter_id;
                let data = response_info.data@;
                &&& (pid == pids::IDENTIFY_DEVICE ==> {
                    &&& (r is Ok <==> data.len() == 1)
                    &&& (r is Ok ==> r.unwrap() == RdmResponsePackage::IdentifyDevice(
                        data[0] != 0,
                    ))
                })
                &&& (pid == pids::SOFTWARE_VERSION_LABEL ==> {
                    &&& (r is Ok <==> data.len() <= 32 && crate::utils::utf8_decode(data)
                        is Some)
                    &&& (r is Ok ==> r.unwrap() is SoftwareVersionLabel
                        && r.unwrap()->SoftwareVersionLabel_0@ == crate::utils::utf8_decode(
                        data,
                    ).unwrap())
                })
                &&& (pid == pids::DMX_START_ADDRESS ==> {
                    &&& (r is Ok <==> data.len() == 2
                        && crate::rdm_types::spec_start_address_from_u16(
                        crate::utils::be16(data[0], data[1]),
                    ) is Some)
                    &&& (r is Ok ==> r.unwrap() == RdmResponsePackage::DmxStartAddress(
                        crate::rdm_types::spec_start_address_from_u16(
                            crate::utils::be16(data[0], data[1]),
                        ).unwrap(),
                    ))
                })
                &&& (pid == pids::STATUS_MESSAGES && r is Ok ==> r.unwrap() is StatusMessages
                    && {
                    let messages = r.unwrap()->StatusMessages_0@;
                    &&& data.len() == 9 * messages.len()
                    &&& forall|i: int|
                        0 <= i < messages.len() ==> Some(#[trigger] messages[i])
                            == spec_status_block(data, i)
                })
                &&& (pid == pids::SUPPORTED_PARAMETERS ==> {
                    &&& (r is Ok <==> data.len() % 2 == 0 && data.len() <= 2
                        * RDM_MAX_SUPPORTED_PARAMETERS_PER_REQUEST)
                    &&& (r is Ok ==> r.unwrap() is SupportedParameters && {
                        let parameters = r.unwrap()->SupportedParameters_0@;
                        &&& data.len() == 2 * parameters.len()
                        &&& forall|i: int|
                            0 <= i < parameters.len() ==> #[trigger] parameters[i]
                                == spec_supported_parameter(data, i)
                    })
                })
                &&& (!(pid == pids::IDENTIFY_DEVICE || pid == pids::SOFTWARE_VERSION_LABEL
                    || pid == pids::DMX_START_ADDRESS || pid == pids::STATUS_MESSAGES || pid
                    == pids::SUPPORTED_PARAMETERS) ==> r is Ok && r.unwrap() is Custom && {
                    let kept = r.unwrap()->Custom_0;
                    &&& kept.parameter_id == response_info.parameter_id
                    &&& kept.message_count == response_info.message_count
                    &&& kept.data@ == response_info.data@
                })
            }),
    {
        Ok(
            match response_info.parameter_id {
                pids::IDENTIFY_DEVICE => RdmResponsePackage::IdentifyDevice(
                    match deserialize_identify(response_info.data.as_slice()) {
                        Ok(value) => value,
                        Err(e) => {
                            return Err(e);
                        },
                    },
                ),
                pids::SOFTWARE_VERSION_LABEL => RdmResponsePackage::SoftwareVersionLabel(
                    match deserialize_software_version_label(response_info.data.as_slice()) {
                        Ok(value) => value,
                        Err(e) => {
                            return Err(e);
                        },
                    },
                ),
                pids::DMX_START_ADDRESS => RdmResponsePackage::DmxStartAddress(
                    match DmxStartAddress::deserialize(response_info.data.as_slice()) {
                        Ok(value) => value,
                        Err(e) => {
                            return Err(e);
                        },
                    },
                ),
                pids::STATUS_MESSAGES => RdmResponsePackage::StatusMessages(
                    match deserialize_status_messages(response_info.data.as_slice()) {
                        Ok(value) => value,
                        Err(e) => {
                            return Err(e);
                        },
                    },
                ),
                pids::SUPPORTED_PARAMETERS => RdmResponsePackage::SupportedParameters(
                    match deserialize_supported_parameters(response_info.data.as_slice()) {
                        Ok(value) => value,
                        Err(e) => {
                            return Err(e);
                        },
                    },
                ),
                _ => RdmResponsePackage::Custom(response_info),
            },
        )
    }
}

} // verus!

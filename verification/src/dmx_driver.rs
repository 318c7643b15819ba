//! Driver surfaces of the two engines, and how a uart driver provides
//! them: framing on receive, serialization on send.

use crate::consts::{
    DMX_MAX_PACKAGE_SIZE, DMX_NULL_START, RDM_DISCOVERY_RESPONSE_SIZE, RDM_MAX_PACKAGE_SIZE,
    SC_RDM,
};
use crate::dmx_uart_driver::{
    DmxRecvUartDriver, DmxRespUartDriver, DmxUartDriver, DmxUartDriverError,
};
use crate::rdm_data::{
    deserialize_discovery_response, encode_discovery_response, spec_pd_len_bytes, RdmData,
    RdmDeserializationError,
};
use crate::types::data_pack_wf;
use crate::unique_identifier::UniqueIdentifier;
use vstd::prelude::*;

verus! {

/// Failure of a transport call of either engine.
#[derive(Debug)]
pub enum DmxError<E> {
    /// There were fewer bytes written to the uart than there should have been.
    UartOverflow,
    /// The request timed out.
    /// **Important:** If you implement a driver make sure this error gets raised instead
    /// of a driver specific error.
    TimeoutError,
    /// Raised when an RDM package could not be deserialized.
    DeserializationError(RdmDeserializationError),
    /// An error raised by the uart driver.
    DriverError(E),
}

/// What one discovery probe found.
#[derive(Debug)]
pub enum DiscoveryOption {
    /// No device responded to the discovery request.
    /// There aren't any devices in the specified unique id range.
    NoDevice,
    /// The response to the discovery request couldn't be deserialized.
    /// There are multiple devices in the specified unique id range.
    Collision,
    /// The discovery response was successfully deserialized.
    /// There is only one device in the specified unique id range.
    Found(UniqueIdentifier),
}

/// Turns a uart error into the engine error of the same meaning.
pub fn dmx_error_from_uart<E>(value: DmxUartDriverError<E>) -> (r: DmxError<E>)
    ensures
        value is TimeoutError <==> r is TimeoutError,
        value is DriverError ==> r is DriverError,
{
    match value {
        DmxUartDriverError::TimeoutError => DmxError::TimeoutError,
        DmxUartDriverError::DriverError(driver_error) => DmxError::DriverError(driver_error),
    }
}

/// Trait that ensures that the same Error is used in the [`DmxControllerDriver`]
/// as well as the [`RdmControllerDriver`].
pub trait ControllerDriverErrorDef {
    /// The driver specific error.
    type DriverError;
}

/// Trait for controlling DMX fixtures.
pub trait DmxControllerDriver: ControllerDriverErrorDef {
    /// Send a DMX512 package. It shouldn't be bigger than 512 bytes.
    fn send_dmx_package(&mut self, package: &[u8]) -> Result<(), DmxError<Self::DriverError>>;
}

/// Trait for sending and receiving RDM packages from a controller point of view.
pub trait RdmControllerDriver: ControllerDriverErrorDef {
    /// Sends an RDM package.
    fn send_rdm(&mut self, package: RdmData) -> Result<(), DmxError<Self::DriverError>>
        requires
            data_pack_wf(spec_pd_len_bytes(package@)),
    ;

    /// Receives an RDM package.
    fn receive_rdm(&mut self) -> (r: Result<RdmData, DmxError<Self::DriverError>>)
        ensures
            r is Ok ==> data_pack_wf(spec_pd_len_bytes(r->Ok_0@)),
    ;

    /// Receives an RDM discovery response.
    /// Returns the received device id; a found id never names a
    /// broadcast, since the wire codec rejects one.
    fn receive_rdm_discovery_response(&mut self) -> (r: Result<
        DiscoveryOption,
        DmxError<Self::DriverError>,
    >)
        ensures
            r is Ok && r->Ok_0 is Found ==> (r->Ok_0->Found_0).device_uid != 0xFFFF_FFFF,
    ;

    /// Send a dmx discovery response. If this functionality has already been
    /// solved by the device at hand, provide an empty function.
    fn send_rdm_discovery_response(&mut self, uid: UniqueIdentifier) -> Result<
        (),
        DmxError<Self::DriverError>,
    >;
}

/// Trait for implementing packages with custom start codes.
pub trait CustomStartCodeControllerDriver: ControllerDriverErrorDef {
    /// Sends a package with a custom start code.
    fn send_custom_package(&mut self, start_code: u8, package: &[u8]) -> Result<
        (),
        DmxError<Self::DriverError>,
    >;
}

/// A vector that contains one DmxFrame. The first byte is the start code.
/// 0x00 is the dmx start code.
pub type DmxFrame = Vec<u8>;

/// Trait for receiving whole frames on the responder side.
pub trait DmxReceiver: ControllerDriverErrorDef {
    /// Receive a DMX512 package.
    fn receive_package(&mut self) -> (r: Result<DmxFrame, DmxError<Self::DriverError>>)
        ensures
            r is Ok ==> r->Ok_0@.len() <= DMX_MAX_PACKAGE_SIZE,
    ;
}

impl<D: DmxUartDriver> ControllerDriverErrorDef for D {
    type DriverError = D::DriverError;
}

impl<D: DmxRespUartDriver> CustomStartCodeControllerDriver for D {
    /// Prefixes the payload with the start code; a payload past the DMX
    /// frame size, or a short write, surfaces as an overflow.
    fn send_custom_package(&mut self, start_code: u8, package: &[u8]) -> Result<
        (),
        DmxError<Self::DriverError>,
    > {
        if package.len() >= DMX_MAX_PACKAGE_SIZE {
            return Err(DmxError::UartOverflow);
        }

        let mut frame_buffer: Vec<u8> = Vec::new();
        frame_buffer.push(start_code);
        frame_buffer.extend_from_slice(package);

        let written = match self.write_frames(frame_buffer.as_slice()) {
            Ok(written) => written,
            Err(uart_error) => {
                return Err(dmx_error_from_uart(uart_error));
            },
        };
        if written != frame_buffer.len() {
            return Err(DmxError::UartOverflow);
        }

        Ok(())
    }
}

impl<D: DmxRespUartDriver> DmxControllerDriver for D {
    fn send_dmx_package(&mut self, package: &[u8]) -> Result<(), DmxError<Self::DriverError>> {
        self.send_custom_package(DMX_NULL_START, package)
    }
}

/// How long one read waits before the packet counts as absent.
pub const READ_TIMEOUT_US: u32 = 2800;

impl<D: DmxRespUartDriver + DmxRecvUartDriver> RdmControllerDriver for D {
    /// Serializes the packet and writes it whole; a short write surfaces
    /// as an overflow.
    fn send_rdm(&mut self, rdm_package: RdmData) -> Result<(), DmxError<Self::DriverError>> {
        let serialized_package = rdm_package.serialize();
        let written_bytes = match self.write_frames(serialized_package.as_slice()) {
            Ok(written) => written,
            Err(uart_error) => {
                return Err(dmx_error_from_uart(uart_error));
            },
        };

        if serialized_package.len() != written_bytes {
            return Err(DmxError::UartOverflow);
        }

        Ok(())
    }

    /// Reads the three header bytes, takes the packet length from the
    /// third, reads the remainder without a break, and parses the whole.
    fn receive_rdm(&mut self) -> (r: Result<RdmData, DmxError<Self::DriverError>>) {
        let mut receive_buffer = match self.read_frames(3, READ_TIMEOUT_US) {
            Ok(bytes) => bytes,
            Err(uart_error) => {
                return Err(dmx_error_from_uart(uart_error));
            },
        };

        if receive_buffer.len() < 3 {
            return Err(
                DmxError::DeserializationError(
                    RdmDeserializationError::WrongMessageLength(receive_buffer.len()),
                ),
            );
        }

        // The message-length byte excludes the two checksum bytes.
        let message_length = receive_buffer[2] as usize + 2;
        if message_length < 3 {
            return Err(
                DmxError::DeserializationError(
                    RdmDeserializationError::WrongMessageLength(message_length),
                ),
            );
        }
        if message_length > RDM_MAX_PACKAGE_SIZE {
            return Err(
                DmxError::DeserializationError(
                    RdmDeserializationError::WrongMessageLength(message_length),
                ),
            );
        }

        let rest = match self.read_frames_no_break(message_length - 3, READ_TIMEOUT_US) {
            Ok(bytes) => bytes,
            Err(uart_error) => {
                return Err(dmx_error_from_uart(uart_error));
            },
        };
        receive_buffer.extend_from_slice(rest.as_slice());

        let response = match RdmData::deserialize(receive_buffer.as_slice()) {
            Ok(response) => response,
            Err(deserialization_error) => {
                return Err(DmxError::DeserializationError(deserialization_error));
            },
        };
        proof {
            crate::rdm_data::lemma_deserialize_payload_bound(receive_buffer@);
        }

        Ok(response)
    }

    /// Reads the raw reply to a probe: a timeout means no device, a
    /// reply that does not decode means a collision.
    fn receive_rdm_discovery_response(&mut self) -> (r: Result<
        DiscoveryOption,
        DmxError<Self::DriverError>,
    >) {
        // The actual package is 24 bytes; leave room for stray leading bytes.
        let receive_buffer = match self.read_frames_no_break(32, READ_TIMEOUT_US) {
            Err(DmxUartDriverError::TimeoutError) => {
                return Ok(DiscoveryOption::NoDevice);
            },
            Err(uart_error) => {
                return Err(dmx_error_from_uart(uart_error));
            },
            Ok(bytes) => bytes,
        };

        if receive_buffer.len() < RDM_DISCOVERY_RESPONSE_SIZE {
            return Err(DmxError::DeserializationError(RdmDeserializationError::BufferTooSmall));
        }

        proof {
            crate::rdm_data::lemma_decode_discovery_device(receive_buffer@);
        }
        match deserialize_discovery_response(receive_buffer.as_slice()) {
            Ok(uid) => Ok(DiscoveryOption::Found(uid)),
            Err(_) => Ok(DiscoveryOption::Collision),
        }
    }

    /// Encodes and writes the 24-byte discovery reply without a break.
    fn send_rdm_discovery_response(&mut self, uid: UniqueIdentifier) -> Result<
        (),
        DmxError<Self::DriverError>,
    > {
        let frame_buffer = encode_discovery_response(&uid);

        match self.write_frames_no_break(frame_buffer.as_slice()) {
            Ok(_) => Ok(()),
            Err(uart_error) => Err(dmx_error_from_uart(uart_error)),
        }
    }
}

impl<D: DmxRecvUartDriver> DmxReceiver for D {
    /// Reads the three header bytes with a break; an RDM header fixes
    /// the packet length, anything else is read to the DMX frame bound.
    fn receive_package(&mut self) -> (r: Result<DmxFrame, DmxError<D::DriverError>>) {
        let mut buffer = match self.read_frames(3, READ_TIMEOUT_US) {
            Ok(bytes) => bytes,
            Err(uart_error) => {
                return Err(dmx_error_from_uart(uart_error));
            },
        };
        if buffer.len() < 2 {
            return Err(
                DmxError::DeserializationError(
                    RdmDeserializationError::WrongMessageLength(buffer.len()),
                ),
            );
        }

        // Shortcut for rdm packages to have better receive times.
        let start_code = buffer[0];
        let message_size = if start_code == SC_RDM && buffer.len() == 3 {
            // message size plus two checksum bytes
            buffer[2] as usize + 2
        } else {
            DMX_MAX_PACKAGE_SIZE
        };

        if message_size > 3 {
            let rest = match self.read_frames_no_break(message_size - 3, READ_TIMEOUT_US) {
                Ok(bytes) => bytes,
                Err(uart_error) => {
                    return Err(dmx_error_from_uart(uart_error));
                },
            };
            buffer.extend_from_slice(rest.as_slice());
        }
        Ok(buffer)
    }
}

} // verus!

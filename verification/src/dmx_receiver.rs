//! The responder's driver loop: receive one frame, dispatch it, send
//! the reply the engine chose.

use crate::consts::SC_RDM;
use crate::dmx_driver::{DmxError, DmxFrame, DmxReceiver, RdmControllerDriver};
use crate::rdm_data::{RdmData, RdmDeserializationError, RdmRequestData, RdmResponseData};
use crate::rdm_responder::{
    rdm_result_wf, responder_wf, DmxReceiverContext, RdmAnswer, RdmResponderConfig,
    RdmResponderHandlerFunc, RdmResponderPackageHandler, RdmResult, ResponderModel,
};
use crate::rdm_types::StatusMessage;
use crate::types::data_pack_wf;
use vstd::prelude::*;

verus! {

/// The replies a dispatched frame can call for.
pub enum ResponseOption {
    NoResponse,
    Response(DmxFrame),
    ResponseNoBreak(DmxFrame),
}

/// Raised when a package could not be handled.
#[derive(Debug, Copy, Clone, Eq, PartialEq, Structural)]
pub struct HandlePackageError;

/// Errors that can happen during polling. These errors should not cause panics.
#[derive(Debug)]
pub enum PollingError<DriverError, HandlerError> {
    /// There were fewer bytes written to the uart than there should have been.
    UartOverflow,
    /// The request timed out.
    /// **Important:** If you implement a driver make sure this error gets raised instead
    /// of a driver specific error.
    TimeoutError,
    /// The start code is unknown.
    UnknownStartCode,
    /// The package size is insufficient.
    WrongPackageSize,
    /// The received package doesn't match the request.
    NotMatching,
    /// A driver specific error occurred.
    DriverError(DriverError),
    /// A handler specific error occurred.
    HandlerError(HandlerError),
    /// Raised when an RDM package could not be deserialized.
    DeserializationError(RdmDeserializationError),
}

/// Turns a transport error into the polling error of the same meaning.
pub fn polling_error_from_dmx<DriverError, HandlerError>(value: DmxError<DriverError>) -> (r:
    PollingError<DriverError, HandlerError>)
    ensures
        value is TimeoutError <==> r is TimeoutError,
        value is UartOverflow <==> r is UartOverflow,
        value is DriverError ==> r is DriverError,
        value is DeserializationError ==> r is DeserializationError,
{
    match value {
        DmxError::UartOverflow => PollingError::UartOverflow,
        DmxError::TimeoutError => PollingError::TimeoutError,
        DmxError::DeserializationError(deserialization_error) => PollingError::DeserializationError(
            deserialization_error,
        ),
        DmxError::DriverError(driver_error) => PollingError::DriverError(driver_error),
    }
}

/// A handler for dmx and custom rdm packages.
pub trait DmxResponderHandler {
    type Error;

    /// Handle rdm requests that aren't handled by the [`RdmResponder`] itself.
    fn handle_rdm(&mut self, request: &RdmRequestData, context: &mut DmxReceiverContext) -> (r:
        Result<RdmResult, Self::Error>)
        ensures
            r is Ok ==> rdm_result_wf(r->Ok_0),
    ;

    /// Handle all received frames that have a different start code than `0xCC`
    /// (the rdm start code). The first byte is the start code. If the start
    /// code is `0x00` it's a DMX package.
    fn handle_dmx(&mut self, dmx_frame: DmxFrame, context: &mut DmxReceiverContext) -> Result<
        (),
        Self::Error,
    >;
}

/// Every public-facing handler also serves the engine's dispatch.
impl<T: DmxResponderHandler> RdmResponderHandlerFunc for T {
    type Error = <T as DmxResponderHandler>::Error;

    fn handle_rdm(&mut self, request: &RdmRequestData, context: &mut DmxReceiverContext) -> (r:
        Result<RdmResult, Self::Error>) {
        DmxResponderHandler::handle_rdm(self, request, context)
    }
}

/// The structure to build an RDM receiver: the engine bound to a driver.
pub struct RdmResponder<D: DmxReceiver + RdmControllerDriver, const MQ_SIZE: usize> {
    driver: D,
    rdm_receiver_handler: RdmResponderPackageHandler<MQ_SIZE>,
}

impl<D: DmxReceiver + RdmControllerDriver, const MQ_SIZE: usize> RdmResponder<D, MQ_SIZE> {
    /// The engine state behind this receiver.
    pub closed spec fn responder(&self) -> ResponderModel {
        self.rdm_receiver_handler@
    }

    /// The engine state is well-formed for this capacity.
    pub open spec fn wf(self) -> bool {
        responder_wf(self.responder(), MQ_SIZE as int)
    }

    /// Creates a new [`RdmResponder`].
    pub fn new(driver: D, config: RdmResponderConfig) -> (r: Self)
        ensures
            r.responder().uid == config.uid,
            r.responder().message_queue.len() == 0,
            r.responder().status_vec.len() == 0,
            !r.responder().discovery_muted,
            MQ_SIZE <= 255 && crate::unique_identifier::uid_wf(config.uid)
                && config.supported_pids@.len() <= 0xFFFF ==> r.wf(),
    {
        Self { driver, rdm_receiver_handler: RdmResponderPackageHandler::new(config) }
    }

    /// Call this function as often as you can or on a serial interrupt.
    /// It receives one package and handles it: a frame under the RDM
    /// start code is dispatched through the engine and its reply is
    /// sent; every other frame goes to the handler's dmx hook. Returns
    /// false if no package was received before the timeout.
    pub fn poll<H: DmxResponderHandler>(&mut self, handler: &mut H) -> (r: Result<
        bool,
        PollingError<D::DriverError, H::Error>,
    >)
        requires
            old(self).wf(),
        ensures
            final(self).wf(),
            r is Ok && !r->Ok_0 ==> final(self).responder() == old(self).responder(),
    {
        let package = match self.driver.receive_package() {
            Err(DmxError::TimeoutError) => {
                return Ok(false);
            },
            Err(dmx_error) => {
                return Err(polling_error_from_dmx(dmx_error));
            },
            Ok(package) => package,
        };

        if package.len() == 0 {
            return Err(PollingError::WrongPackageSize);
        }

        let start_code = package[0];
        if start_code == SC_RDM {
            match self.handle_rdm(package, handler) {
                Ok(()) => {},
                Err(polling_error) => {
                    return Err(polling_error);
                },
            }
        } else {
            let mut context = self.rdm_receiver_handler.get_context();
            let handled = handler.handle_dmx(package, &mut context);
            self.rdm_receiver_handler.store_context(&context);
            match handled {
                Ok(()) => {},
                Err(handler_error) => {
                    return Err(PollingError::HandlerError(handler_error));
                },
            }
        }

        Ok(true)
    }

    /// Parses one RDM frame, lets the engine answer it, and sends the
    /// answer: structured replies with a break, discovery replies
    /// without, silence as nothing. A frame that does not parse, or that
    /// holds a response instead of a request, changes nothing and is
    /// reported; the engine's state transitions for a parsed request are
    /// those of [`RdmResponderPackageHandler::handle_rdm_request`],
    /// whatever the driver then makes of the reply.
    fn handle_rdm<H: DmxResponderHandler>(&mut self, package: DmxFrame, handler: &mut H) -> (r:
        Result<(), PollingError<D::DriverError, H::Error>>)
        requires
            old(self).wf(),
        ensures
            final(self).wf(),
            ({
                let parsed = crate::rdm_data::spec_deserialize(package@);
                let m0 = old(self).responder();
                let mf = final(self).responder();
                &&& (parsed is Err ==> mf == m0 && r is Err && r->Err_0 is DeserializationError
                    && r->Err_0->DeserializationError_0 == parsed->Err_0)
                &&& (parsed is Ok && parsed->Ok_0 is Response ==> mf == m0 && r is Err && r->Err_0
                    is NotMatching)
                &&& (parsed is Ok && parsed->Ok_0 is Request ==> {
                    let req = parsed->Ok_0->Request_0;
                    let pid = req.parameter_id;
                    &&& (!crate::rdm_responder::spec_addressed(m0.uid, req.destination_uid)
                        ==> mf == m0 && r is Ok)
                    &&& (req.command_class
                        == crate::command_class::RequestCommandClass::DiscoveryCommand && !(pid
                        == crate::pids::DISC_UNIQUE_BRANCH || pid == crate::pids::DISC_MUTE || pid
                        == crate::pids::DISC_UN_MUTE) ==> mf == m0 && r is Ok)
                    &&& (crate::rdm_responder::spec_addressed(m0.uid, req.destination_uid) && pid
                        == crate::pids::DISC_MUTE && req.command_class
                        == crate::command_class::RequestCommandClass::DiscoveryCommand
                        && req.parameter_data.len() == 0 ==> mf == (ResponderModel {
                        discovery_muted: true,
                        ..m0
                    }))
                    &&& (crate::rdm_responder::spec_addressed(m0.uid, req.destination_uid) && pid
                        == crate::pids::DISC_UN_MUTE && req.command_class
                        == crate::command_class::RequestCommandClass::DiscoveryCommand
                        && req.parameter_data.len() == 0 ==> mf == (ResponderModel {
                        discovery_muted: false,
                        ..m0
                    }))
                    &&& (crate::rdm_responder::spec_addressed(m0.uid, req.destination_uid) && pid
                        == crate::pids::DMX_START_ADDRESS && req.destination_uid is Device
                        && req.command_class
                        == crate::command_class::RequestCommandClass::SetCommand
                        && req.parameter_data.len() == 2 ==> match crate::rdm_types::spec_start_address_from_u16(
                        crate::utils::be16(req.parameter_data[0], req.parameter_data[1]),
                    ) {
                        None => mf == m0,
                        Some(address) => mf == (ResponderModel {
                            dmx_start_address: address,
                            ..m0
                        }),
                    })
                    &&& (crate::rdm_responder::spec_addressed(m0.uid, req.destination_uid) && pid
                        == crate::pids::STATUS_MESSAGES && crate::rdm_responder::spec_proper_get(
                        req,
                    ) && req.parameter_data.len() == 1 ==> match crate::rdm_types::spec_status_type_from_u8(
                        req.parameter_data[0],
                    ) {
                        Some(status) => (status == crate::rdm_types::StatusType::StatusAdvisory
                            || status == crate::rdm_types::StatusType::StatusWarning || status
                            == crate::rdm_types::StatusType::StatusError) ==> {
                            let sev = crate::rdm_types::status_severity(status);
                            mf == (ResponderModel {
                                status_vec: crate::rdm_responder::drained_status_vec(
                                    m0.status_vec,
                                    sev,
                                ),
                                last_status_vec_message: crate::rdm_responder::drained_status_bytes(
                                    m0.status_vec,
                                    sev,
                                ),
                                ..m0
                            })
                        },
                        None => true,
                    })
                    &&& (crate::rdm_responder::spec_addressed(m0.uid, req.destination_uid) && pid
                        == crate::pids::QUEUED_MESSAGE && crate::rdm_responder::spec_proper_get(
                        req,
                    ) && req.parameter_data.len() == 1 && m0.message_queue.len() > 0
                        ==> match crate::rdm_types::spec_status_type_from_u8(
                        req.parameter_data[0],
                    ) {
                        Some(status) => (status == crate::rdm_types::StatusType::StatusAdvisory
                            || status == crate::rdm_types::StatusType::StatusWarning || status
                            == crate::rdm_types::StatusType::StatusError) ==> mf
                            == (ResponderModel {
                            message_queue: m0.message_queue.drop_first(),
                            last_queued_message: Some(
                                crate::rdm_data::RespModel {
                                    message_count: (m0.message_queue.len() - 1) as u8,
                                    transaction_number: req.transaction_number,
                                    ..m0.message_queue[0]
                                },
                            ),
                            ..m0
                        }),
                        None => true,
                    })
                })
            }),
    {
        let rdm_data = match RdmData::deserialize(package.as_slice()) {
            Ok(rdm_data) => rdm_data,
            Err(deserialization_error) => {
                return Err(PollingError::DeserializationError(deserialization_error));
            },
        };

        let request = match rdm_data {
            RdmData::Request(request) => request,
            RdmData::Response(_) => {
                return Err(PollingError::NotMatching);
            },
        };

        let answer = match self.rdm_receiver_handler.handle_rdm_request(request, handler) {
            Ok(answer) => answer,
            Err(handler_error) => {
                return Err(PollingError::HandlerError(handler_error));
            },
        };

        match answer {
            RdmAnswer::Response(response_data) => {
                match self.driver.send_rdm(RdmData::Response(response_data)) {
                    Ok(()) => {},
                    Err(dmx_error) => {
                        return Err(polling_error_from_dmx(dmx_error));
                    },
                }
            },
            RdmAnswer::DiscoveryResponse(uid) => {
                match self.driver.send_rdm_discovery_response(uid) {
                    Ok(()) => {},
                    Err(dmx_error) => {
                        return Err(polling_error_from_dmx(dmx_error));
                    },
                }
            },
            RdmAnswer::NoResponse => {},
        }

        Ok(())
    }

    /// Get a reference to the underlying driver.
    pub fn get_driver(&mut self) -> (r: &mut D)
        ensures
            final(self).responder() == old(self).responder(),
    {
        &mut self.driver
    }

    /// Get the message queue that contains deferred responses.
    pub fn get_message_queue(&self) -> (r: &Vec<RdmResponseData>)
        ensures
            r@.len() == self.responder().message_queue.len(),
            forall|i: int|
                0 <= i < r@.len() ==> (#[trigger] r@[i]@) == self.responder().message_queue[i],
    {
        self.rdm_receiver_handler.get_message_queue()
    }

    /// Appends a deferred response for the controller to collect. Fails,
    /// handing the message back, when the queue is full.
    pub fn push_queued_message(&mut self, message: RdmResponseData) -> (r: Result<
        (),
        RdmResponseData,
    >)
        requires
            data_pack_wf(message.parameter_data@),
        ensures
            r is Ok <==> old(self).responder().message_queue.len() < MQ_SIZE,
            r is Ok ==> final(self).responder() == (ResponderModel {
                message_queue: old(self).responder().message_queue.push(message@),
                ..old(self).responder()
            }),
            r is Err ==> final(self).responder() == old(self).responder(),
            old(self).wf() ==> final(self).wf(),
    {
        self.rdm_receiver_handler.push_queued_message(message)
    }

    /// Get the amount of queued messages.
    pub fn get_message_count(&self) -> (r: u8)
        requires
            self.wf(),
        ensures
            r == self.responder().message_queue.len(),
    {
        self.rdm_receiver_handler.get_message_count()
    }

    /// Empties the message queue.
    pub fn clear_message_queue(&mut self)
        ensures
            final(self).responder() == (ResponderModel {
                message_queue: Seq::<crate::rdm_data::RespModel>::empty(),
                ..old(self).responder()
            }),
            old(self).wf() ==> final(self).wf(),
    {
        self.rdm_receiver_handler.clear_message_queue()
    }

    /// Removes and returns the status message at an index, when one is
    /// there.
    pub fn remove_status_message(&mut self, index: usize) -> (r: Option<StatusMessage>)
        ensures
            r is Some <==> index < old(self).responder().status_vec.len(),
            r is Some ==> r.unwrap() == old(self).responder().status_vec[index as int]
                && final(self).responder() == (ResponderModel {
                status_vec: old(self).responder().status_vec.remove(index as int),
                ..old(self).responder()
            }),
            r is None ==> final(self).responder() == old(self).responder(),
            old(self).wf() ==> final(self).wf(),
    {
        self.rdm_receiver_handler.remove_status_message(index)
    }

    /// Empties the status vector.
    pub fn clear_status_vec(&mut self)
        ensures
            final(self).responder() == (ResponderModel {
                status_vec: Seq::<StatusMessage>::empty(),
                ..old(self).responder()
            }),
            old(self).wf() ==> final(self).wf(),
    {
        self.rdm_receiver_handler.clear_status_vec()
    }

    /// Get the status queue that contains the current status messages.
    pub fn get_status_vec(&self) -> (r: &Vec<StatusMessage>)
        ensures
            r@ == self.responder().status_vec,
    {
        self.rdm_receiver_handler.get_status_vec()
    }

    /// Appends a status message for the controller to collect. Fails,
    /// handing the message back, when the vector is full.
    pub fn push_status_message(&mut self, message: StatusMessage) -> (r: Result<
        (),
        StatusMessage,
    >)
        ensures
            r is Ok <==> old(self).responder().status_vec.len() < MQ_SIZE,
            r is Ok ==> final(self).responder() == (ResponderModel {
                status_vec: old(self).responder().status_vec.push(message),
                ..old(self).responder()
            }),
            r is Err ==> final(self).responder() == old(self).responder(),
            old(self).wf() ==> final(self).wf(),
    {
        self.rdm_receiver_handler.push_status_message(message)
    }
}

} // verus!

//! Traits a uart-style transport implements so both engines can run on it.

use vstd::prelude::*;

verus! {

/// Failure of a uart driver call.
#[derive(Debug)]
pub enum DmxUartDriverError<E> {
    /// The request timed out.
    /// IMPORTANT: If you implement a driver make sure this error gets raised instead
    /// of a driver specific error.
    TimeoutError,
    /// A driver specific error.
    DriverError(E),
}

pub trait DmxUartDriver {
    type DriverError;
}

/// Object to implement access to the uart.
/// It can read frames.
/// It has to communicate at 250000 baud.
pub trait DmxRecvUartDriver: DmxUartDriver {
    /// Read frames, waiting for the line break that opens one.
    /// Returns the bytes actually read, at most `max_len` of them.
    fn read_frames(&mut self, max_len: usize, timeout_us: u32) -> (r: Result<
        Vec<u8>,
        DmxUartDriverError<Self::DriverError>,
    >)
        ensures
            r is Ok ==> r->Ok_0@.len() <= max_len,
    ;

    /// Read frames without waiting for a break (used for the rdm
    /// discovery response). Returns the bytes actually read, at most
    /// `max_len` of them.
    fn read_frames_no_break(&mut self, max_len: usize, timeout_us: u32) -> (r: Result<
        Vec<u8>,
        DmxUartDriverError<Self::DriverError>,
    >)
        ensures
            r is Ok ==> r->Ok_0@.len() <= max_len,
    ;
}

/// Object to implement access to the uart.
/// It can write frames.
/// It has to communicate at 250000 baud.
pub trait DmxRespUartDriver: DmxUartDriver {
    /// Write dmx frames with break.
    /// Returns the number of bytes actually written.
    fn write_frames(&mut self, buffer: &[u8]) -> (r: Result<
        usize,
        DmxUartDriverError<Self::DriverError>,
    >)
        ensures
            r is Ok ==> r->Ok_0 <= buffer@.len(),
    ;

    /// Write dmx frames without break (used for the rdm discovery response).
    /// Returns the number of bytes actually written.
    fn write_frames_no_break(&mut self, buffer: &[u8]) -> (r: Result<
        usize,
        DmxUartDriverError<Self::DriverError>,
    >)
        ensures
            r is Ok ==> r->Ok_0 <= buffer@.len(),
    ;
}

} // verus!

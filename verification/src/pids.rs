//! The parameter ids the engine handles internally.

use vstd::prelude::*;

verus! {

pub const DISC_UNIQUE_BRANCH: u16 = 0x0001;
pub const DISC_MUTE: u16 = 0x0002;
pub const DISC_UN_MUTE: u16 = 0x0003;
pub const IDENTIFY_DEVICE: u16 = 0x1000;
pub const SOFTWARE_VERSION_LABEL: u16 = 0x00C0;
pub const DMX_START_ADDRESS: u16 = 0x00F0;
pub const QUEUED_MESSAGE: u16 = 0x0020;
pub const STATUS_MESSAGES: u16 = 0x0030;
pub const SUPPORTED_PARAMETERS: u16 = 0x0050;
pub const DEVICE_INFO: u16 = 0x0060;

} // verus!

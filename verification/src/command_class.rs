//! Command classes of RDM requests and responses.

use vstd::prelude::*;

verus! {

#[derive(Copy, Clone, Eq, PartialEq, Structural, Debug)]
pub enum RequestCommandClass {
    DiscoveryCommand,
    GetCommand,
    SetCommand,
}

#[derive(Copy, Clone, Eq, PartialEq, Structural, Debug)]
pub enum ResponseCommandClass {
    DiscoveryCommandResponse,
    GetCommandResponse,
    SetCommandResponse,
}

/// Wire value of a request command class.
pub open spec fn request_class_u8(c: RequestCommandClass) -> u8 {
    match c {
        RequestCommandClass::DiscoveryCommand => 0x10,
        RequestCommandClass::GetCommand => 0x20,
        RequestCommandClass::SetCommand => 0x30,
    }
}

/// Wire value of a response command class.
pub open spec fn response_class_u8(c: ResponseCommandClass) -> u8 {
    match c {
        ResponseCommandClass::DiscoveryCommandResponse => 0x11,
        ResponseCommandClass::GetCommandResponse => 0x21,
        ResponseCommandClass::SetCommandResponse => 0x31,
    }
}

/// The request class a wire byte stands for, if any.
pub open spec fn spec_request_class_from_u8(value: u8) -> Option<RequestCommandClass> {
    if value == 0x10 {
        Some(RequestCommandClass::DiscoveryCommand)
    } else if value == 0x20 {
        Some(RequestCommandClass::GetCommand)
    } else if value == 0x30 {
        Some(RequestCommandClass::SetCommand)
    } else {
        None
    }
}

/// The response class a wire byte stands for, if any.
pub open spec fn spec_response_class_from_u8(value: u8) -> Option<ResponseCommandClass> {
    if value == 0x11 {
        Some(ResponseCommandClass::DiscoveryCommandResponse)
    } else if value == 0x21 {
        Some(ResponseCommandClass::GetCommandResponse)
    } else if value == 0x31 {
        Some(ResponseCommandClass::SetCommandResponse)
    } else {
        None
    }
}

/// The response class that answers a request class.
pub open spec fn spec_response_class_of(c: RequestCommandClass) -> ResponseCommandClass {
    match c {
        RequestCommandClass::DiscoveryCommand => ResponseCommandClass::DiscoveryCommandResponse,
        RequestCommandClass::GetCommand => ResponseCommandClass::GetCommandResponse,
        RequestCommandClass::SetCommand => ResponseCommandClass::SetCommandResponse,
    }
}

impl RequestCommandClass {
    /// Returns the corresponding response class.
    pub fn get_response_class(&self) -> (r: ResponseCommandClass)
        ensures
            r == spec_response_class_of(*self),
    {
        match self {
            Self::DiscoveryCommand => ResponseCommandClass::DiscoveryCommandResponse,
            Self::GetCommand => ResponseCommandClass::GetCommandResponse,
            Self::SetCommand => ResponseCommandClass::SetCommandResponse,
        }
    }

    /// The wire value of this class.
    pub fn as_u8(&self) -> (r: u8)
        ensures
            r == request_class_u8(*self),
    {
        match self {
            Self::DiscoveryCommand => 0x10,
            Self::GetCommand => 0x20,
            Self::SetCommand => 0x30,
        }
    }

    /// Parses a request command class from its wire value.
    /// Returns `None` if no class matches.
    pub fn from_u8(value: u8) -> (r: Option<Self>)
        ensures
            r == spec_request_class_from_u8(value),
    {
        match value {
            0x10 => Some(Self::DiscoveryCommand),
            0x20 => Some(Self::GetCommand),
            0x30 => Some(Self::SetCommand),
            _ => None,
        }
    }
}

impl ResponseCommandClass {
    /// Returns the corresponding request class.
    pub fn get_request_class(&self) -> (r: RequestCommandClass)
        ensures
            spec_response_class_of(r) == *self,
    {
        match self {
            Self::DiscoveryCommandResponse => RequestCommandClass::DiscoveryCommand,
            Self::GetCommandResponse => RequestCommandClass::GetCommand,
            Self::SetCommandResponse => RequestCommandClass::SetCommand,
        }
    }

    /// The wire value of this class.
    pub fn as_u8(&self) -> (r: u8)
        ensures
            r == response_class_u8(*self),
    {
        match self {
            Self::DiscoveryCommandResponse => 0x11,
            Self::GetCommandResponse => 0x21,
            Self::SetCommandResponse => 0x31,
        }
    }

    /// Parses a response command class from its wire value.
    /// Returns `None` if no class matches.
    pub fn from_u8(value: u8) -> (r: Option<Self>)
        ensures
            r == spec_response_class_from_u8(value),
    {
        match value {
            0x11 => Some(Self::DiscoveryCommandResponse),
            0x21 => Some(Self::GetCommandResponse),
            0x31 => Some(Self::SetCommandResponse),
            _ => None,
        }
    }
}

} // verus!

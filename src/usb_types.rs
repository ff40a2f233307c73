//! Commands into the session, events out of it, and its error taxonomy.
use vstd::prelude::*;
use crate::codec::FrameError;
use crate::data_models::AllMeasurements;

verus! {

/// A request from the application to the device session.
#[derive(Clone, Copy, Debug, PartialEq, Eq, Structural)]
pub enum UsbCommand {
    Subscribe,
    Unsubscribe,
}

/// A failure that the host USB library reports for a request or transfer.
#[derive(Clone, Copy, Debug, PartialEq, Eq, Structural)]
pub enum TransferError {
    Io,
    InvalidParam,
    Access,
    NoDevice,
    NotFound,
    Busy,
    Timeout,
    Overflow,
    Pipe,
    Interrupted,
    NoMem,
    NotSupported,
    BadDescriptor,
    Other,
}

/// Which endpoint role the interface descriptors failed to provide.
#[derive(Clone, Copy, Debug, PartialEq, Eq, Structural)]
pub enum EndpointProblem {
    /// No descriptor of the interface was found.
    InterfaceMissing,
    /// The interface has no interrupt OUT endpoint for commands.
    CommandEndpointMissing,
    /// The interface has no interrupt IN endpoint.
    InEndpointMissing,
}

/// Why a session step failed.
#[derive(Clone, Copy, Debug, PartialEq, Eq, Structural)]
pub enum UsbError {
    DeviceNotFound,
    OpenFailed(TransferError),
    SetConfigurationFailed(TransferError),
    ClaimInterfaceFailed(TransferError),
    DetachFailed(TransferError),
    EndpointNotFound(EndpointProblem),
    CommandWriteFailed(TransferError),
    ResponseReadFailed(TransferError),
    /// The handshake response did not decode as a frame.
    ResponseParseError(FrameError),
    /// A frame of another kind came where a specific one was expected.
    UnexpectedResponse,
    /// A pushed frame did not decode.
    PushParseError(FrameError),
    /// A transfer or request failed for another reason than a timeout.
    TransferFailed(TransferError),
    Timeout,
}

/// What the session hands to the consumer.
#[derive(Clone, Copy, Debug, PartialEq, Eq)]
pub enum UsbEvent {
    Measurements(AllMeasurements<5>),
    Error(UsbError),
}

/// The error that a failed transfer is reported as: a timeout is its own kind.
pub open spec fn error_of_transfer(e: TransferError) -> UsbError {
    if e == TransferError::Timeout {
        UsbError::Timeout
    } else {
        UsbError::TransferFailed(e)
    }
}

impl UsbError {
    /// The error that a failed transfer is reported as.
    pub fn from_transfer(e: TransferError) -> (r: UsbError)
        ensures
            r == error_of_transfer(e),
    {
        match e {
            TransferError::Timeout => UsbError::Timeout,
            other => UsbError::TransferFailed(other),
        }
    }
}

} // verus!

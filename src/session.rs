//! The device session as a state machine. The host performs each action
//! that `step` returns and hands the outcome back; the session decides
//! what follows: discovery, claiming, the subscribe handshake, streaming,
//! teardown and backoff.
use vstd::prelude::*;
use crate::codec::{HostSideUsbPayload, UsbData, frame_of};
use crate::data_models::{AllMeasurements, ChargerCalibration, measurements_of};
use crate::discovery::{
    DeviceId, EndpointRoles, InterfaceDescriptor, assign_endpoints, endpoint_roles, first_device,
    select_device,
};
use crate::usb_types::{TransferError, UsbCommand, UsbError, UsbEvent, error_of_transfer};

verus! {

/// Interface that carries the device's endpoints.
pub const INTERFACE_NUMBER: u8 = 1;
/// Configuration that the device is set to.
pub const CONFIGURATION: u8 = 1;
/// Timeout of a command write.
pub const COMMAND_TIMEOUT_SECS: u64 = 5;
/// Timeout of the handshake response read.
pub const RESPONSE_TIMEOUT_SECS: u64 = 5;
/// Timeout of one read of the push endpoint.
pub const PUSH_TIMEOUT_SECS: u64 = 10;
/// Wait after the USB context could not be created.
pub const CONTEXT_RETRY_SECS: u64 = 10;
/// Wait after discovery or claiming failed.
pub const DISCOVERY_RETRY_SECS: u64 = 25;
/// Wait after the subscribe handshake failed.
pub const SESSION_RETRY_SECS: u64 = 5;

#[derive(Clone, Copy, Debug, PartialEq, Eq)]
pub struct SessionConfig {
    pub vid: u16,
    pub pid: u16,
    /// Whether the platform lets a kernel driver hold the interface, so that
    /// it has to be detached first.
    pub manage_kernel_driver: bool,
    pub calibration: ChargerCalibration,
}

/// What follows once the device is closed.
#[derive(Clone, Copy, Debug, PartialEq, Eq)]
pub enum AfterClose {
    /// Look for the device again at once.
    Relist,
    /// Wait, then look for the device again.
    Backoff { secs: u64, reason: UsbError },
    /// End the session.
    Stop,
}

/// What follows once an event is delivered.
#[derive(Clone, Copy, Debug, PartialEq, Eq)]
pub enum Resume {
    /// Read the push endpoint again.
    Stream,
    /// Close the device.
    Close(AfterClose),
}

/// The step that the session waits on.
#[derive(Clone, Copy, Debug, PartialEq, Eq)]
pub enum Phase {
    Listing,
    Opening,
    Resetting,
    QueryingDriver,
    Detaching,
    Configuring,
    Claiming,
    ReadingDescriptors,
    Subscribing,
    AwaitingResponse,
    Streaming,
    Unsubscribing,
    Delivering { event: UsbEvent, resume: Resume },
    Closing { then: AfterClose },
    Waiting,
    Stopped,
}

#[derive(Clone, Copy, Debug, PartialEq, Eq)]
pub struct Session {
    pub config: SessionConfig,
    pub phase: Phase,
    /// Endpoint roles of the claimed interface, once known.
    pub roles: EndpointRoles,
    /// Whether this session detached a kernel driver from the interface.
    pub detached: bool,
}

/// What the host is asked to do.
#[derive(Clone, Copy, Debug, PartialEq, Eq)]
pub enum Action {
    /// Create a USB context and list the attached devices.
    ListDevices,
    /// Open the device at `index` of the last list.
    Open { index: usize },
    /// Reset the open device; failure is harmless.
    Reset,
    QueryKernelDriver { interface: u8 },
    DetachKernelDriver { interface: u8 },
    SetConfiguration { configuration: u8 },
    ClaimInterface { interface: u8 },
    /// Read the interface descriptors of the active configuration, in order.
    ReadDescriptors,
    /// Write the bytes of `frame` to an interrupt OUT endpoint.
    Write { endpoint: u8, frame: UsbData, timeout_secs: u64 },
    /// Read one transfer from an interrupt IN endpoint; with
    /// `until_command`, a command that arrives first ends the read.
    Read { endpoint: u8, timeout_secs: u64, until_command: bool },
    /// Send the event to the consumer, waiting while its channel is full.
    Deliver(UsbEvent),
    /// Release the interface, re-attach the kernel driver when asked, and
    /// close the device.
    Close { interface: u8, reattach_kernel_driver: bool },
    Sleep { secs: u64, reason: UsbError },
    Stop,
}

/// What came of the last action.
#[derive(Clone, Debug)]
pub enum Outcome {
    /// The USB context could not be created.
    ContextFailed(TransferError),
    /// Vendor and product IDs of the attached devices, in enumeration order.
    Devices(Vec<DeviceId>),
    Done,
    Failed(TransferError),
    KernelDriverActive(bool),
    Descriptors(Vec<InterfaceDescriptor>),
    /// The bytes of one transfer.
    Received(Vec<u8>),
    Command(UsbCommand),
    /// The command channel is closed: nobody will send commands any more.
    CommandChannelClosed,
    /// The consumer took the event, or its channel is closed.
    Delivered,
}

/// The error of a failed command write.
pub open spec fn write_error(e: TransferError) -> UsbError {
    if e == TransferError::Timeout {
        UsbError::Timeout
    } else {
        UsbError::CommandWriteFailed(e)
    }
}

/// The error of a failed response read.
pub open spec fn read_error(e: TransferError) -> UsbError {
    if e == TransferError::Timeout {
        UsbError::Timeout
    } else {
        UsbError::ResponseReadFailed(e)
    }
}

pub open spec fn go(s: Session, phase: Phase, a: Action) -> (Session, Action) {
    (Session { phase, ..s }, a)
}

pub open spec fn read_push(s: Session) -> Action {
    Action::Read { endpoint: s.roles.push, timeout_secs: PUSH_TIMEOUT_SECS, until_command: true }
}

pub open spec fn start_listing(s: Session) -> (Session, Action) {
    (Session { phase: Phase::Listing, detached: false, ..s }, Action::ListDevices)
}

pub open spec fn close_then(s: Session, then: AfterClose) -> (Session, Action) {
    go(
        s,
        Phase::Closing { then },
        Action::Close { interface: INTERFACE_NUMBER, reattach_kernel_driver: s.detached },
    )
}

/// Claiming failed: close the device, then back off as after a failed discovery.
pub open spec fn setup_failed(s: Session, reason: UsbError) -> (Session, Action) {
    close_then(s, AfterClose::Backoff { secs: DISCOVERY_RETRY_SECS, reason })
}

pub open spec fn deliver(s: Session, event: UsbEvent, resume: Resume) -> (Session, Action) {
    go(s, Phase::Delivering { event, resume }, Action::Deliver(event))
}

/// The handshake failed: report it, close the device, then back off.
pub open spec fn handshake_failed(s: Session, e: UsbError) -> (Session, Action) {
    deliver(
        s,
        UsbEvent::Error(e),
        Resume::Close(AfterClose::Backoff { secs: SESSION_RETRY_SECS, reason: e }),
    )
}

/// The unsubscribe write failed: report it, close the device, then back off.
pub open spec fn unsubscribe_failed(s: Session, e: UsbError) -> (Session, Action) {
    deliver(
        s,
        UsbEvent::Error(e),
        Resume::Close(AfterClose::Backoff { secs: SESSION_RETRY_SECS, reason: e }),
    )
}

pub open spec fn configure(s: Session) -> (Session, Action) {
    go(s, Phase::Configuring, Action::SetConfiguration { configuration: CONFIGURATION })
}

/// The event for one non-empty transfer from the push endpoint.
pub open spec fn push_event(b: Seq<u8>, c: ChargerCalibration) -> UsbEvent {
    match frame_of(b) {
        Ok(UsbData::StatusPush(p)) => UsbEvent::Measurements(measurements_of::<5>(p, c)),
        Ok(_) => UsbEvent::Error(UsbError::UnexpectedResponse),
        Err(fe) => UsbEvent::Error(UsbError::PushParseError(fe)),
    }
}

/// The session and action that follow outcome `o` in session `s`. An
/// outcome that does not answer the pending action counts as its failure.
pub open spec fn next(s: Session, o: Outcome) -> (Session, Action) {
    match s.phase {
        Phase::Listing => match o {
            Outcome::ContextFailed(e) => go(
                s,
                Phase::Waiting,
                Action::Sleep { secs: CONTEXT_RETRY_SECS, reason: error_of_transfer(e) },
            ),
            Outcome::Devices(ds) => match first_device(ds@, s.config.vid, s.config.pid) {
                Some(i) => go(s, Phase::Opening, Action::Open { index: i as usize }),
                None => go(
                    s,
                    Phase::Waiting,
                    Action::Sleep { secs: DISCOVERY_RETRY_SECS, reason: UsbError::DeviceNotFound },
                ),
            },
            Outcome::Failed(e) => go(
                s,
                Phase::Waiting,
                Action::Sleep { secs: DISCOVERY_RETRY_SECS, reason: error_of_transfer(e) },
            ),
            _ => go(
                s,
                Phase::Waiting,
                Action::Sleep {
                    secs: DISCOVERY_RETRY_SECS,
                    reason: UsbError::TransferFailed(TransferError::Other),
                },
            ),
        },
        Phase::Opening => match o {
            Outcome::Done => go(s, Phase::Resetting, Action::Reset),
            Outcome::Failed(e) => go(
                s,
                Phase::Waiting,
                Action::Sleep { secs: DISCOVERY_RETRY_SECS, reason: UsbError::OpenFailed(e) },
            ),
            _ => go(
                s,
                Phase::Waiting,
                Action::Sleep {
                    secs: DISCOVERY_RETRY_SECS,
                    reason: UsbError::OpenFailed(TransferError::Other),
                },
            ),
        },
        Phase::Resetting => if s.config.manage_kernel_driver {
            go(
                s,
                Phase::QueryingDriver,
                Action::QueryKernelDriver { interface: INTERFACE_NUMBER },
            )
        } else {
            configure(s)
        },
        Phase::QueryingDriver => match o {
            Outcome::KernelDriverActive(true) => go(
                s,
                Phase::Detaching,
                Action::DetachKernelDriver { interface: INTERFACE_NUMBER },
            ),
            _ => configure(s),
        },
        Phase::Detaching => match o {
            Outcome::Done => configure(Session { detached: true, ..s }),
            Outcome::Failed(e) => setup_failed(s, UsbError::DetachFailed(e)),
            _ => setup_failed(s, UsbError::DetachFailed(TransferError::Other)),
        },
        Phase::Configuring => match o {
            Outcome::Done => go(
                s,
                Phase::Claiming,
                Action::ClaimInterface { interface: INTERFACE_NUMBER },
            ),
            Outcome::Failed(e) => setup_failed(s, UsbError::SetConfigurationFailed(e)),
            _ => setup_failed(s, UsbError::SetConfigurationFailed(TransferError::Other)),
        },
        Phase::Claiming => match o {
            Outcome::Done => go(s, Phase::ReadingDescriptors, Action::ReadDescriptors),
            Outcome::Failed(e) => setup_failed(s, UsbError::ClaimInterfaceFailed(e)),
            _ => setup_failed(s, UsbError::ClaimInterfaceFailed(TransferError::Other)),
        },
        Phase::ReadingDescriptors => match o {
            Outcome::Descriptors(ds) => match endpoint_roles(ds@, INTERFACE_NUMBER) {
                Ok(roles) => (
                    Session { phase: Phase::Subscribing, roles, ..s },
                    Action::Write {
                        endpoint: roles.command,
                        frame: UsbData::SubscribeStatus,
                        timeout_secs: COMMAND_TIMEOUT_SECS,
                    },
                ),
                Err(e) => setup_failed(s, e),
            },
            Outcome::Failed(e) => setup_failed(s, error_of_transfer(e)),
            _ => setup_failed(s, UsbError::TransferFailed(TransferError::Other)),
        },
        Phase::Subscribing => match o {
            Outcome::Done => go(
                s,
                Phase::AwaitingResponse,
                Action::Read {
                    endpoint: s.roles.response,
                    timeout_secs: RESPONSE_TIMEOUT_SECS,
                    until_command: false,
                },
            ),
            Outcome::Failed(e) => handshake_failed(s, write_error(e)),
            _ => handshake_failed(s, UsbError::CommandWriteFailed(TransferError::Other)),
        },
        Phase::AwaitingResponse => match o {
            Outcome::Received(b) => match frame_of(b@) {
                Ok(UsbData::StatusResponse(_)) => go(s, Phase::Streaming, read_push(s)),
                Ok(_) => handshake_failed(s, UsbError::UnexpectedResponse),
                Err(fe) => handshake_failed(s, UsbError::ResponseParseError(fe)),
            },
            Outcome::Failed(e) => handshake_failed(s, read_error(e)),
            _ => handshake_failed(s, UsbError::ResponseReadFailed(TransferError::Other)),
        },
        Phase::Streaming => match o {
            Outcome::Received(b) => if b@.len() == 0 {
                go(s, Phase::Streaming, read_push(s))
            } else {
                deliver(s, push_event(b@, s.config.calibration), Resume::Stream)
            },
            Outcome::Failed(e) => deliver(
                s,
                UsbEvent::Error(error_of_transfer(e)),
                Resume::Close(AfterClose::Relist),
            ),
            Outcome::Command(UsbCommand::Subscribe) => close_then(s, AfterClose::Relist),
            Outcome::Command(UsbCommand::Unsubscribe) => go(
                s,
                Phase::Unsubscribing,
                Action::Write {
                    endpoint: s.roles.command,
                    frame: UsbData::UnsubscribeStatus,
                    timeout_secs: COMMAND_TIMEOUT_SECS,
                },
            ),
            Outcome::CommandChannelClosed => close_then(s, AfterClose::Stop),
            _ => go(s, Phase::Streaming, read_push(s)),
        },
        Phase::Unsubscribing => match o {
            Outcome::Done => close_then(s, AfterClose::Relist),
            Outcome::Failed(e) => unsubscribe_failed(s, write_error(e)),
            _ => unsubscribe_failed(s, UsbError::CommandWriteFailed(TransferError::Other)),
        },
        Phase::Delivering { event, resume } => match o {
            Outcome::Delivered => match resume {
                Resume::Stream => go(s, Phase::Streaming, read_push(s)),
                Resume::Close(after) => close_then(s, after),
            },
            _ => (s, Action::Deliver(event)),
        },
        Phase::Closing { then } => match then {
            AfterClose::Relist => start_listing(s),
            AfterClose::Backoff { secs, reason } => (
                Session { phase: Phase::Waiting, detached: false, ..s },
                Action::Sleep { secs, reason },
            ),
            AfterClose::Stop => (
                Session { phase: Phase::Stopped, detached: false, ..s },
                Action::Stop,
            ),
        },
        Phase::Waiting => start_listing(s),
        Phase::Stopped => (s, Action::Stop),
    }
}

impl Session {
    /// A session that starts by listing the attached devices.
    pub fn start(config: SessionConfig) -> (r: (Session, Action))
        ensures
            r.0.config == config,
            r.0.phase == Phase::Listing,
            !r.0.detached,
            r.1 == Action::ListDevices,
    {
        let s = Session {
            config,
            phase: Phase::Listing,
            roles: EndpointRoles { command: 0, response: 0, push: 0 },
            detached: false,
        };
        (s, Action::ListDevices)
    }

    fn go(&mut self, phase: Phase, a: Action) -> (r: Action)
        ensures
            (*final(self), r) == go(*old(self), phase, a),
    {
        self.phase = phase;
        a
    }

    fn read_push(&self) -> (r: Action)
        ensures
            r == read_push(*self),
    {
        Action::Read { endpoint: self.roles.push, timeout_secs: PUSH_TIMEOUT_SECS, until_command: true }
    }

    fn close_then(&mut self, then: AfterClose) -> (r: Action)
        ensures
            (*final(self), r) == close_then(*old(self), then),
    {
        let a = Action::Close { interface: INTERFACE_NUMBER, reattach_kernel_driver: self.detached };
        self.go(Phase::Closing { then }, a)
    }

    fn setup_failed(&mut self, reason: UsbError) -> (r: Action)
        ensures
            (*final(self), r) == setup_failed(*old(self), reason),
    {
        self.close_then(AfterClose::Backoff { secs: DISCOVERY_RETRY_SECS, reason })
    }

    fn deliver(&mut self, event: UsbEvent, resume: Resume) -> (r: Action)
        ensures
            (*final(self), r) == deliver(*old(self), event, resume),
    {
        self.go(Phase::Delivering { event, resume }, Action::Deliver(event))
    }

    fn handshake_failed(&mut self, e: UsbError) -> (r: Action)
        ensures
            (*final(self), r) == handshake_failed(*old(self), e),
    {
        self.deliver(
            UsbEvent::Error(e),
            Resume::Close(AfterClose::Backoff { secs: SESSION_RETRY_SECS, reason: e }),
        )
    }

    fn unsubscribe_failed(&mut self, e: UsbError) -> (r: Action)
        ensures
            (*final(self), r) == unsubscribe_failed(*old(self), e),
    {
        self.deliver(
            UsbEvent::Error(e),
            Resume::Close(AfterClose::Backoff { secs: SESSION_RETRY_SECS, reason: e }),
        )
    }

    fn configure(&mut self) -> (r: Action)
        ensures
            (*final(self), r) == configure(*old(self)),
    {
        self.go(Phase::Configuring, Action::SetConfiguration { configuration: CONFIGURATION })
    }

    fn start_listing(&mut self) -> (r: Action)
        ensures
            (*final(self), r) == start_listing(*old(self)),
    {
        self.detached = false;
        self.go(Phase::Listing, Action::ListDevices)
    }

    /// Takes the outcome of the last action and returns the next one.
    pub fn step(&mut self, o: Outcome) -> (r: Action)
        ensures
            (*final(self), r) == next(*old(self), o),
    {
        match self.phase {
            Phase::Listing => match o {
                Outcome::ContextFailed(e) => {
                    let reason = UsbError::from_transfer(e);
                    self.go(Phase::Waiting, Action::Sleep { secs: CONTEXT_RETRY_SECS, reason })
                },
                Outcome::Devices(ds) => match select_device(&ds, self.config.vid, self.config.pid) {
                    Some(index) => self.go(Phase::Opening, Action::Open { index }),
                    None => self.go(
                        Phase::Waiting,
                        Action::Sleep { secs: DISCOVERY_RETRY_SECS, reason: UsbError::DeviceNotFound },
                    ),
                },
                Outcome::Failed(e) => {
                    let reason = UsbError::from_transfer(e);
                    self.go(Phase::Waiting, Action::Sleep { secs: DISCOVERY_RETRY_SECS, reason })
                },
                _ => self.go(
                    Phase::Waiting,
                    Action::Sleep {
                        secs: DISCOVERY_RETRY_SECS,
                        reason: UsbError::TransferFailed(TransferError::Other),
                    },
                ),
            },
            Phase::Opening => match o {
                Outcome::Done => self.go(Phase::Resetting, Action::Reset),
                Outcome::Failed(e) => self.go(
                    Phase::Waiting,
                    Action::Sleep { secs: DISCOVERY_RETRY_SECS, reason: UsbError::OpenFailed(e) },
                ),
                _ => self.go(
                    Phase::Waiting,
                    Action::Sleep {
                        secs: DISCOVERY_RETRY_SECS,
                        reason: UsbError::OpenFailed(TransferError::Other),
                    },
                ),
            },
            Phase::Resetting => if self.config.manage_kernel_driver {
                self.go(
                    Phase::QueryingDriver,
                    Action::QueryKernelDriver { interface: INTERFACE_NUMBER },
                )
            } else {
                self.configure()
            },
            Phase::QueryingDriver => match o {
                Outcome::KernelDriverActive(true) => self.go(
                    Phase::Detaching,
                    Action::DetachKernelDriver { interface: INTERFACE_NUMBER },
                ),
                _ => self.configure(),
            },
            Phase::Detaching => match o {
                Outcome::Done => {
                    self.detached = true;
                    self.configure()
                },
                Outcome::Failed(e) => self.setup_failed(UsbError::DetachFailed(e)),
                _ => self.setup_failed(UsbError::DetachFailed(TransferError::Other)),
            },
            Phase::Configuring => match o {
                Outcome::Done => self.go(
                    Phase::Claiming,
                    Action::ClaimInterface { interface: INTERFACE_NUMBER },
                ),
                Outcome::Failed(e) => self.setup_failed(UsbError::SetConfigurationFailed(e)),
                _ => self.setup_failed(UsbError::SetConfigurationFailed(TransferError::Other)),
            },
            Phase::Claiming => match o {
                Outcome::Done => self.go(Phase::ReadingDescriptors, Action::ReadDescriptors),
                Outcome::Failed(e) => self.setup_failed(UsbError::ClaimInterfaceFailed(e)),
                _ => self.setup_failed(UsbError::ClaimInterfaceFailed(TransferError::Other)),
            },
            Phase::ReadingDescriptors => match o {
                Outcome::Descriptors(ds) => match assign_endpoints(&ds, INTERFACE_NUMBER) {
                    Ok(roles) => {
                        self.roles = roles;
                        self.go(
                            Phase::Subscribing,
                            Action::Write {
                                endpoint: roles.command,
                                frame: UsbData::SubscribeStatus,
                                timeout_secs: COMMAND_TIMEOUT_SECS,
                            },
                        )
                    },
                    Err(e) => self.setup_failed(e),
                },
                Outcome::Failed(e) => {
                    let reason = UsbError::from_transfer(e);
                    self.setup_failed(reason)
                },
                _ => self.setup_failed(UsbError::TransferFailed(TransferError::Other)),
            },
            Phase::Subscribing => match o {
                Outcome::Done => {
                    let a = Action::Read {
                        endpoint: self.roles.response,
                        timeout_secs: RESPONSE_TIMEOUT_SECS,
                        until_command: false,
                    };
                    self.go(Phase::AwaitingResponse, a)
                },
                Outcome::Failed(e) => {
                    let err = match e {
                        TransferError::Timeout => UsbError::Timeout,
                        other => UsbError::CommandWriteFailed(other),
                    };
                    self.handshake_failed(err)
                },
                _ => self.handshake_failed(UsbError::CommandWriteFailed(TransferError::Other)),
            },
            Phase::AwaitingResponse => match o {
                Outcome::Received(b) => match UsbData::decode(b.as_slice()) {
                    Ok(UsbData::StatusResponse(_)) => {
                        let a = self.read_push();
                        self.go(Phase::Streaming, a)
                    },
                    Ok(_) => self.handshake_failed(UsbError::UnexpectedResponse),
                    Err(fe) => self.handshake_failed(UsbError::ResponseParseError(fe)),
                },
                Outcome::Failed(e) => {
                    let err = match e {
                        TransferError::Timeout => UsbError::Timeout,
                        other => UsbError::ResponseReadFailed(other),
                    };
                    self.handshake_failed(err)
                },
                _ => self.handshake_failed(UsbError::ResponseReadFailed(TransferError::Other)),
            },
            Phase::Streaming => match o {
                Outcome::Received(b) => if b.len() == 0 {
                    let a = self.read_push();
                    self.go(Phase::Streaming, a)
                } else {
                    let event = match UsbData::decode(b.as_slice()) {
                        Ok(UsbData::StatusPush(p)) => UsbEvent::Measurements(
                            AllMeasurements::<5>::from_payload(&p, &self.config.calibration),
                        ),
                        Ok(_) => UsbEvent::Error(UsbError::UnexpectedResponse),
                        Err(fe) => UsbEvent::Error(UsbError::PushParseError(fe)),
                    };
                    self.deliver(event, Resume::Stream)
                },
                Outcome::Failed(e) => {
                    let err = UsbError::from_transfer(e);
                    self.deliver(UsbEvent::Error(err), Resume::Close(AfterClose::Relist))
                },
                Outcome::Command(UsbCommand::Subscribe) => self.close_then(AfterClose::Relist),
                Outcome::Command(UsbCommand::Unsubscribe) => {
                    let a = Action::Write {
                        endpoint: self.roles.command,
                        frame: UsbData::UnsubscribeStatus,
                        timeout_secs: COMMAND_TIMEOUT_SECS,
                    };
                    self.go(Phase::Unsubscribing, a)
                },
                Outcome::CommandChannelClosed => self.close_then(AfterClose::Stop),
                _ => {
                    let a = self.read_push();
                    self.go(Phase::Streaming, a)
                },
            },
            Phase::Unsubscribing => match o {
                Outcome::Done => self.close_then(AfterClose::Relist),
                Outcome::Failed(e) => {
                    let err = match e {
                        TransferError::Timeout => UsbError::Timeout,
                        other => UsbError::CommandWriteFailed(other),
                    };
                    self.unsubscribe_failed(err)
                },
                _ => self.unsubscribe_failed(UsbError::CommandWriteFailed(TransferError::Other)),
            },
            Phase::Delivering { event, resume } => match o {
                Outcome::Delivered => match resume {
                    Resume::Stream => {
                        let a = self.read_push();
                        self.go(Phase::Streaming, a)
                    },
                    Resume::Close(after) => self.close_then(after),
                },
                _ => Action::Deliver(event),
            },
            Phase::Closing { then } => match then {
                AfterClose::Relist => self.start_listing(),
                AfterClose::Backoff { secs, reason } => {
                    self.detached = false;
                    self.go(Phase::Waiting, Action::Sleep { secs, reason })
                },
                AfterClose::Stop => {
                    self.detached = false;
                    self.go(Phase::Stopped, Action::Stop)
                },
            },
            Phase::Waiting => self.start_listing(),
            Phase::Stopped => Action::Stop,
        }
    }
}

/// Whether the session is stopped or on its way to stopping.
pub open spec fn stopping(s: Session) -> bool {
    match s.phase {
        Phase::Stopped => true,
        Phase::Closing { then: AfterClose::Stop } => true,
        Phase::Delivering { resume: Resume::Close(AfterClose::Stop), .. } => true,
        _ => false,
    }
}

/// Whether the session holds the open device.
pub open spec fn holds_device(s: Session) -> bool {
    match s.phase {
        Phase::Resetting | Phase::QueryingDriver | Phase::Detaching | Phase::Configuring
        | Phase::Claiming | Phase::ReadingDescriptors | Phase::Subscribing
        | Phase::AwaitingResponse | Phase::Streaming | Phase::Unsubscribing
        | Phase::Delivering { .. } => true,
        _ => false,
    }
}

/// Only a closed command channel ends the session: no device or transfer
/// failure does.
pub proof fn lemma_stops_only_on_shutdown(s: Session, o: Outcome)
    ensures
        !stopping(s) && stopping(next(s, o).0) ==> o is CommandChannelClosed,
        next(s, o).1 is Stop ==> stopping(s),
{
}

/// When the device is not attached, the session waits the discovery delay
/// and then looks for it again, whatever the wait's outcome.
pub proof fn lemma_missing_device_retried(s: Session, ds: Vec<DeviceId>, o: Outcome)
    requires
        s.phase == Phase::Listing,
        first_device(ds@, s.config.vid, s.config.pid) is None,
    ensures
        next(s, Outcome::Devices(ds)).1 == (Action::Sleep {
            secs: DISCOVERY_RETRY_SECS,
            reason: UsbError::DeviceNotFound,
        }),
        next(next(s, Outcome::Devices(ds)).0, o).0.phase == Phase::Listing,
        next(next(s, Outcome::Devices(ds)).0, o).1 == Action::ListDevices,
{
}

/// An event is never dropped: until the consumer takes it, any outcome
/// leaves the session as it is and asks again to deliver the same event.
pub proof fn lemma_delivery_waits(s: Session, o: Outcome)
    requires
        s.phase is Delivering,
        !(o is Delivered),
    ensures
        next(s, o) == (s, Action::Deliver(s.phase->event)),
{
}

/// A pushed status frame yields one measurement event, the snapshot of its
/// record; the push endpoint is read again only once the consumer has it.
pub proof fn lemma_push_delivered_before_next_read(s: Session, b: Vec<u8>, p: HostSideUsbPayload)
    requires
        s.phase == Phase::Streaming,
        frame_of(b@) == Ok::<UsbData, crate::codec::FrameError>(UsbData::StatusPush(p)),
    ensures
        next(s, Outcome::Received(b)).1 == Action::Deliver(
            UsbEvent::Measurements(measurements_of::<5>(p, s.config.calibration)),
        ),
        next(next(s, Outcome::Received(b)).0, Outcome::Delivered) == (s, read_push(s)),
{
}

/// The unsubscribe write is told apart by its outcome: on success the
/// device is closed and looked for again; a failed write is reported as
/// `CommandWriteFailed` (or `Timeout`) before the device is closed and the
/// session backs off.
pub proof fn lemma_unsubscribe_outcome(s: Session, e: TransferError)
    requires
        s.phase == Phase::Unsubscribing,
    ensures
        next(s, Outcome::Done) == close_then(s, AfterClose::Relist),
        next(s, Outcome::Failed(e)).1 == Action::Deliver(UsbEvent::Error(write_error(e))),
        write_error(e) == (if e == TransferError::Timeout {
            UsbError::Timeout
        } else {
            UsbError::CommandWriteFailed(e)
        }),
        next(next(s, Outcome::Failed(e)).0, Outcome::Delivered).1 == (Action::Close {
            interface: INTERFACE_NUMBER,
            reattach_kernel_driver: s.detached,
        }),
        next(next(next(s, Outcome::Failed(e)).0, Outcome::Delivered).0, Outcome::Done).1 == (
        Action::Sleep { secs: SESSION_RETRY_SECS, reason: write_error(e) }),
{
}

/// The actions that a session in state `s` asks for, one per outcome of `os`
/// in turn.
pub open spec fn actions_for(s: Session, os: Seq<Outcome>) -> Seq<Action>
    decreases os.len(),
{
    if os.len() == 0 {
        Seq::empty()
    } else {
        let (s2, a) = next(s, os[0]);
        seq![a] + actions_for(s2, os.subrange(1, os.len() as int))
    }
}

/// From discovery to streaming: a device found in the list, an interface
/// with its endpoint roles, a status response to the subscribe command and
/// then three status pushes give, in this order, the claiming steps, the
/// subscribe handshake and three measurement events, one per push in
/// arrival order, each push endpoint read waiting for the previous event
/// to be taken.
#[verifier::rlimit(100)]
pub proof fn lemma_three_push_scenario(
    config: SessionConfig,
    roles0: EndpointRoles,
    ds: Vec<DeviceId>,
    descs: Vec<InterfaceDescriptor>,
    response: Vec<u8>,
    f1: Vec<u8>,
    f2: Vec<u8>,
    f3: Vec<u8>,
    p1: HostSideUsbPayload,
    p2: HostSideUsbPayload,
    p3: HostSideUsbPayload,
    roles: EndpointRoles,
    index: usize,
)
    requires
        !config.manage_kernel_driver,
        first_device(ds@, config.vid, config.pid) == Some(index as int),
        endpoint_roles(descs@, INTERFACE_NUMBER) == Ok::<EndpointRoles, UsbError>(roles),
        frame_of(response@) matches Ok(UsbData::StatusResponse(_)),
        frame_of(f1@) == Ok::<UsbData, crate::codec::FrameError>(UsbData::StatusPush(p1)),
        frame_of(f2@) == Ok::<UsbData, crate::codec::FrameError>(UsbData::StatusPush(p2)),
        frame_of(f3@) == Ok::<UsbData, crate::codec::FrameError>(UsbData::StatusPush(p3)),
    ensures
        ({
            let s = Session { config, phase: Phase::Listing, roles: roles0, detached: false };
            let push = Action::Read {
                endpoint: roles.push,
                timeout_secs: PUSH_TIMEOUT_SECS,
                until_command: true,
            };
            let c = config.calibration;
            actions_for(
                s,
                seq![
                    Outcome::Devices(ds),
                    Outcome::Done,
                    Outcome::Done,
                    Outcome::Done,
                    Outcome::Done,
                    Outcome::Descriptors(descs),
                    Outcome::Done,
                    Outcome::Received(response),
                    Outcome::Received(f1),
                    Outcome::Delivered,
                    Outcome::Received(f2),
                    Outcome::Delivered,
                    Outcome::Received(f3),
                    Outcome::Delivered,
                ],
            ) == seq![
                Action::Open { index },
                Action::Reset,
                Action::SetConfiguration { configuration: CONFIGURATION },
                Action::ClaimInterface { interface: INTERFACE_NUMBER },
                Action::ReadDescriptors,
                Action::Write {
                    endpoint: roles.command,
                    frame: UsbData::SubscribeStatus,
                    timeout_secs: COMMAND_TIMEOUT_SECS,
                },
                Action::Read {
                    endpoint: roles.response,
                    timeout_secs: RESPONSE_TIMEOUT_SECS,
                    until_command: false,
                },
                push,
                Action::Deliver(UsbEvent::Measurements(measurements_of::<5>(p1, c))),
                push,
                Action::Deliver(UsbEvent::Measurements(measurements_of::<5>(p2, c))),
                push,
                Action::Deliver(UsbEvent::Measurements(measurements_of::<5>(p3, c))),
                push,
            ]
        }),
{
    let s = Session { config, phase: Phase::Listing, roles: roles0, detached: false };
    let os = seq![
        Outcome::Devices(ds),
        Outcome::Done,
        Outcome::Done,
        Outcome::Done,
        Outcome::Done,
        Outcome::Descriptors(descs),
        Outcome::Done,
        Outcome::Received(response),
        Outcome::Received(f1),
        Outcome::Delivered,
        Outcome::Received(f2),
        Outcome::Delivered,
        Outcome::Received(f3),
        Outcome::Delivered,
    ];
    assert(os.subrange(0, 14) =~= os);
    let s0 = s;
    assert(os.subrange(0, 14).subrange(1, 14) =~= os.subrange(1, 14));
    let s1 = next(s0, os[0]).0;
    assert(actions_for(s0, os.subrange(0, 14)) == seq![next(s0, os[0]).1] + actions_for(s1, os.subrange(1, 14)));
    assert(os.subrange(1, 14).subrange(1, 13) =~= os.subrange(2, 14));
    let s2 = next(s1, os[1]).0;
    assert(actions_for(s1, os.subrange(1, 14)) == seq![next(s1, os[1]).1] + actions_for(s2, os.subrange(2, 14)));
    assert(os.subrange(2, 14).subrange(1, 12) =~= os.subrange(3, 14));
    let s3 = next(s2, os[2]).0;
    assert(actions_for(s2, os.subrange(2, 14)) == seq![next(s2, os[2]).1] + actions_for(s3, os.subrange(3, 14)));
    assert(os.subrange(3, 14).subrange(1, 11) =~= os.subrange(4, 14));
    let s4 = next(s3, os[3]).0;
    assert(actions_for(s3, os.subrange(3, 14)) == seq![next(s3, os[3]).1] + actions_for(s4, os.subrange(4, 14)));
    assert(os.subrange(4, 14).subrange(1, 10) =~= os.subrange(5, 14));
    let s5 = next(s4, os[4]).0;
    assert(actions_for(s4, os.subrange(4, 14)) == seq![next(s4, os[4]).1] + actions_for(s5, os.subrange(5, 14)));
    assert(os.subrange(5, 14).subrange(1, 9) =~= os.subrange(6, 14));
    let s6 = next(s5, os[5]).0;
    assert(actions_for(s5, os.subrange(5, 14)) == seq![next(s5, os[5]).1] + actions_for(s6, os.subrange(6, 14)));
    assert(os.subrange(6, 14).subrange(1, 8) =~= os.subrange(7, 14));
    let s7 = next(s6, os[6]).0;
    assert(actions_for(s6, os.subrange(6, 14)) == seq![next(s6, os[6]).1] + actions_for(s7, os.subrange(7, 14)));
    assert(os.subrange(7, 14).subrange(1, 7) =~= os.subrange(8, 14));
    let s8 = next(s7, os[7]).0;
    assert(actions_for(s7, os.subrange(7, 14)) == seq![next(s7, os[7]).1] + actions_for(s8, os.subrange(8, 14)));
    assert(os.subrange(8, 14).subrange(1, 6) =~= os.subrange(9, 14));
    let s9 = next(s8, os[8]).0;
    assert(actions_for(s8, os.subrange(8, 14)) == seq![next(s8, os[8]).1] + actions_for(s9, os.subrange(9, 14)));
    assert(os.subrange(9, 14).subrange(1, 5) =~= os.subrange(10, 14));
    let s10 = next(s9, os[9]).0;
    assert(actions_for(s9, os.subrange(9, 14)) == seq![next(s9, os[9]).1] + actions_for(s10, os.subrange(10, 14)));
    assert(os.subrange(10, 14).subrange(1, 4) =~= os.subrange(11, 14));
    let s11 = next(s10, os[10]).0;
    assert(actions_for(s10, os.subrange(10, 14)) == seq![next(s10, os[10]).1] + actions_for(s11, os.subrange(11, 14)));
    assert(os.subrange(11, 14).subrange(1, 3) =~= os.subrange(12, 14));
    let s12 = next(s11, os[11]).0;
    assert(actions_for(s11, os.subrange(11, 14)) == seq![next(s11, os[11]).1] + actions_for(s12, os.subrange(12, 14)));
    assert(os.subrange(12, 14).subrange(1, 2) =~= os.subrange(13, 14));
    let s13 = next(s12, os[12]).0;
    assert(actions_for(s12, os.subrange(12, 14)) == seq![next(s12, os[12]).1] + actions_for(s13, os.subrange(13, 14)));
    assert(os.subrange(13, 14).subrange(1, 1) =~= os.subrange(14, 14));
    let s14 = next(s13, os[13]).0;
    assert(actions_for(s13, os.subrange(13, 14)) == seq![next(s13, os[13]).1] + actions_for(s14, os.subrange(14, 14)));
    assert(actions_for(s14, os.subrange(14, 14)) == Seq::<Action>::empty());
    assert(actions_for(s, os) =~= seq![next(s0, os[0]).1, next(s1, os[1]).1, next(s2, os[2]).1, next(s3, os[3]).1, next(s4, os[4]).1, next(s5, os[5]).1, next(s6, os[6]).1, next(s7, os[7]).1, next(s8, os[8]).1, next(s9, os[9]).1, next(s10, os[10]).1, next(s11, os[11]).1, next(s12, os[12]).1, next(s13, os[13]).1]);
}

/// A session that holds the device closes it before it waits, looks for
/// the device again or stops; the close re-attaches the kernel driver
/// exactly when this session detached it, and only a successful detach
/// marks it detached.
pub proof fn lemma_device_closed_before_retry(s: Session, o: Outcome)
    ensures
        holds_device(s) ==> !(next(s, o).1 is Sleep) && !(next(s, o).1 is ListDevices) && !(next(
            s,
            o,
        ).1 is Stop),
        next(s, o).1 matches Action::Close { reattach_kernel_driver, .. } ==> reattach_kernel_driver
            == s.detached,
        !s.detached && next(s, o).0.detached ==> s.phase == Phase::Detaching && o is Done,
{
}

} // verus!

//! What the session asks of the USB transport, and what it hands back to
//! its caller.
//!
//! The session performs no transfer itself. Each of its operations yields a
//! `Step`: either the operation's result, or a request for the transport
//! together with a token that says how the operation goes on. The caller
//! performs the request and resumes the session with the token and the
//! transport's answer.

use vstd::prelude::*;
use crate::error::{GsUsbError, UsbError};
use crate::frame::{FrameView, GsUsbFrame};
use crate::structures::{DeviceBitTiming, DeviceCapability, DeviceInfo, DeviceState};

verus! {

/// Request type of a vendor control transfer from host to device.
pub const REQUEST_TYPE_VENDOR_OUT: u8 = 0x41;
/// Request type of a vendor control transfer from device to host.
pub const REQUEST_TYPE_VENDOR_IN: u8 = 0xC1;
/// Timeout of every control transfer and of a bulk write, in milliseconds.
pub const TRANSFER_TIMEOUT_MS: u64 = 1000;
/// The interface that carries the protocol.
pub const GS_USB_INTERFACE: u8 = 0;

/// A request that the transport answers with success or failure.
#[derive(Debug, PartialEq, Eq)]
pub enum Command {
    /// Reset the device.
    Reset,
    /// Detach the kernel driver from an interface.
    DetachKernelDriver { interface: u8 },
    /// Claim an interface.
    ClaimInterface { interface: u8 },
    /// Control transfer that sends `data` to the device.
    ControlOut { request_type: u8, request: u8, value: u16, index: u16, data: Vec<u8>, timeout_ms: u64 },
    /// Bulk transfer that sends `data` to an endpoint.
    BulkOut { endpoint: u8, data: Vec<u8>, timeout_ms: u64 },
}

/// A `Command` as a mathematical value.
pub enum CommandView {
    Reset,
    DetachKernelDriver { interface: u8 },
    ClaimInterface { interface: u8 },
    ControlOut { request_type: u8, request: u8, value: u16, index: u16, data: Seq<u8>, timeout_ms: u64 },
    BulkOut { endpoint: u8, data: Seq<u8>, timeout_ms: u64 },
}

impl View for Command {
    type V = CommandView;

    open spec fn view(&self) -> CommandView {
        match *self {
            Command::Reset => CommandView::Reset,
            Command::DetachKernelDriver { interface } => CommandView::DetachKernelDriver {
                interface,
            },
            Command::ClaimInterface { interface } => CommandView::ClaimInterface { interface },
            Command::ControlOut {
                request_type,
                request,
                value,
                index,
                data,
                timeout_ms,
            } => CommandView::ControlOut {
                request_type,
                request,
                value,
                index,
                data: data@,
                timeout_ms,
            },
            Command::BulkOut { endpoint, data, timeout_ms } => CommandView::BulkOut {
                endpoint,
                data: data@,
                timeout_ms,
            },
        }
    }
}

/// A request that the transport answers with the bytes it received, or
/// with a failure.
#[derive(Debug, Clone, Copy, PartialEq, Eq)]
pub enum Fetch {
    /// Control transfer that reads up to `length` bytes from the device.
    ControlIn { request_type: u8, request: u8, value: u16, index: u16, length: usize, timeout_ms: u64 },
    /// Bulk transfer that reads up to `length` bytes from an endpoint.
    BulkIn { endpoint: u8, length: usize, timeout_ms: u64 },
}

/// What an operation does with the device capability once it is known.
#[derive(Debug, Clone, Copy, PartialEq, Eq)]
pub enum Goal {
    /// Return the capability.
    Capability,
    /// Return the capability with its data phase bounds.
    ExtendedCapability,
    /// Say whether the device supports CAN FD.
    SupportsFd,
    /// Say whether the device supports the GET_STATE request.
    SupportsGetState,
    /// Read the state of a channel.
    GetState { channel: u16 },
    /// Apply a nominal bitrate.
    Bitrate { bitrate: u32, sample_point_tenths: u32 },
    /// Apply a data phase bitrate.
    DataBitrate { bitrate: u32, sample_point_tenths: u32 },
}

/// How an operation goes on after a `Command`.
#[derive(Debug, Clone, Copy, PartialEq, Eq)]
pub enum AfterCommand {
    /// `start`: the device was reset.
    StartReset { flags: u32 },
    /// `start`: the kernel driver was detached.
    StartDetach { flags: u32 },
    /// `start`: the interface was claimed.
    StartClaim { flags: u32 },
    /// `start`: the start mode was sent.
    StartMode,
    /// `stop`: the reset mode was sent.
    Stop,
    /// The nominal bit timing was sent.
    Timing(DeviceBitTiming),
    /// The data phase bit timing was sent.
    DataTiming(DeviceBitTiming),
    /// A frame was sent.
    Send,
    /// The host format was sent.
    HostFormat,
}

/// How an operation goes on after a `Fetch`.
#[derive(Debug, Clone, Copy, PartialEq, Eq)]
pub enum AfterFetch {
    /// The capability was read on behalf of `Goal`.
    Capability(Goal),
    /// `start`: the capability was read.
    StartCapability { flags: u32 },
    /// The extended capability was read.
    ExtendedCapability,
    /// The device configuration was read.
    DeviceInfo,
    /// The state was read.
    State,
    /// A frame was read.
    Read,
}

/// Result of an operation that succeeded.
#[derive(Debug, PartialEq, Eq)]
pub enum Outcome {
    /// The operation has no result beyond its success.
    Done,
    /// The device capability.
    Capability(DeviceCapability),
    /// The device capability with data phase bounds; `None` where the
    /// device has no extended capability.
    ExtendedCapability(Option<DeviceCapability>),
    /// Whether the device supports what was asked about.
    Supported(bool),
    /// The state of a channel.
    State(DeviceState),
    /// The device configuration.
    Info(DeviceInfo),
    /// A received frame.
    Frame(GsUsbFrame),
    /// The serial number; empty where the device has none.
    SerialNumber(String),
}

/// An `Outcome` as a mathematical value.
pub enum OutcomeView {
    Done,
    Capability(DeviceCapability),
    ExtendedCapability(Option<DeviceCapability>),
    Supported(bool),
    State(DeviceState),
    Info(DeviceInfo),
    Frame(FrameView),
    SerialNumber(Seq<char>),
}

impl View for Outcome {
    type V = OutcomeView;

    open spec fn view(&self) -> OutcomeView {
        match *self {
            Outcome::Done => OutcomeView::Done,
            Outcome::Capability(cap) => OutcomeView::Capability(cap),
            Outcome::ExtendedCapability(cap) => OutcomeView::ExtendedCapability(cap),
            Outcome::Supported(b) => OutcomeView::Supported(b),
            Outcome::State(state) => OutcomeView::State(state),
            Outcome::Info(info) => OutcomeView::Info(info),
            Outcome::Frame(frame) => OutcomeView::Frame(frame@),
            Outcome::SerialNumber(text) => OutcomeView::SerialNumber(text@),
        }
    }
}

/// What the caller of the session does next.
#[derive(Debug, PartialEq, Eq)]
pub enum Step {
    /// The operation is over, with this result.
    Finished(Result<Outcome, GsUsbError>),
    /// Perform the command and hand its answer, with the token, to
    /// `GsUsb::resume_command`.
    Command(Command, AfterCommand),
    /// Ask whether a kernel driver is active on the interface and hand the
    /// answer, with the flags, to `GsUsb::resume_kernel_driver_query`. A
    /// platform without kernel drivers answers no.
    KernelDriverQuery { interface: u8, flags: u32 },
    /// Perform the fetch and hand its answer, with the token, to
    /// `GsUsb::resume_fetch`.
    Fetch(Fetch, AfterFetch),
    /// Read the device's serial number string and hand it to
    /// `GsUsb::resume_serial_number`; `None` where the device descriptor
    /// names no such string.
    SerialNumber,
}

/// A `Step` as a mathematical value.
pub enum StepView {
    Finished(Result<OutcomeView, GsUsbError>),
    Command(CommandView, AfterCommand),
    KernelDriverQuery { interface: u8, flags: u32 },
    Fetch(Fetch, AfterFetch),
    SerialNumber,
}

impl View for Step {
    type V = StepView;

    open spec fn view(&self) -> StepView {
        match *self {
            Step::Finished(Ok(outcome)) => StepView::Finished(Ok(outcome@)),
            Step::Finished(Err(e)) => StepView::Finished(Err(e)),
            Step::Command(command, after) => StepView::Command(command@, after),
            Step::KernelDriverQuery { interface, flags } => StepView::KernelDriverQuery {
                interface,
                flags,
            },
            Step::Fetch(fetch, after) => StepView::Fetch(fetch, after),
            Step::SerialNumber => StepView::SerialNumber,
        }
    }
}

/// The transport's answer to a fetch, with the received bytes as a
/// sequence.
pub open spec fn fetched(reply: Result<Vec<u8>, UsbError>) -> Result<Seq<u8>, UsbError> {
    match reply {
        Ok(bytes) => Ok(bytes@),
        Err(e) => Err(e),
    }
}

/// The transport's answer to a serial number request, with the string as a
/// sequence of characters.
pub open spec fn serial_read(reply: Result<Option<String>, UsbError>) -> Result<
    Option<Seq<char>>,
    UsbError,
> {
    match reply {
        Ok(Some(text)) => Ok(Some(text@)),
        Ok(None) => Ok(None),
        Err(e) => Err(e),
    }
}

/// The vendor control transfer that sends `data` with a request code.
pub open spec fn spec_control_out(request: u8, value: u16, data: Seq<u8>) -> CommandView {
    CommandView::ControlOut {
        request_type: REQUEST_TYPE_VENDOR_OUT,
        request,
        value,
        index: 0,
        data,
        timeout_ms: TRANSFER_TIMEOUT_MS,
    }
}

/// The vendor control transfer that reads `length` bytes with a request
/// code.
pub open spec fn spec_control_in(request: u8, value: u16, length: usize) -> Fetch {
    Fetch::ControlIn {
        request_type: REQUEST_TYPE_VENDOR_IN,
        request,
        value,
        index: 0,
        length,
        timeout_ms: TRANSFER_TIMEOUT_MS,
    }
}

/// What a control read of `length` bytes came to: the bytes, where the
/// transfer succeeded and brought at least `length` of them;
/// `ControlTransfer` where it failed; `InvalidResponse` where it brought
/// fewer.
pub open spec fn spec_control_response(length: usize, reply: Result<Seq<u8>, UsbError>) -> Result<
    Seq<u8>,
    GsUsbError,
> {
    match reply {
        Err(e) => Err(GsUsbError::ControlTransfer(e)),
        Ok(bytes) => if bytes.len() < length {
            Err(GsUsbError::InvalidResponse { expected: length, actual: bytes.len() as usize })
        } else {
            Ok(bytes)
        },
    }
}

/// Builds the vendor control transfer that sends `data` with a request
/// code: request type 0x41, index 0, one second of timeout.
pub fn control_out(request: u8, value: u16, data: Vec<u8>) -> (command: Command)
    ensures
        command@ == spec_control_out(request, value, data@),
{
    Command::ControlOut {
        request_type: REQUEST_TYPE_VENDOR_OUT,
        request,
        value,
        index: 0,
        data,
        timeout_ms: TRANSFER_TIMEOUT_MS,
    }
}

/// Builds the vendor control transfer that reads `length` bytes with a
/// request code: request type 0xC1, index 0, one second of timeout.
pub fn control_in(request: u8, value: u16, length: usize) -> (fetch: Fetch)
    ensures
        fetch == spec_control_in(request, value, length),
{
    Fetch::ControlIn {
        request_type: REQUEST_TYPE_VENDOR_IN,
        request,
        value,
        index: 0,
        length,
        timeout_ms: TRANSFER_TIMEOUT_MS,
    }
}

/// Checks the answer to a control read of `length` bytes. A response
/// shorter than `length` is refused, never taken as partial data.
pub fn control_response(length: usize, reply: Result<Vec<u8>, UsbError>) -> (r: Result<
    Vec<u8>,
    GsUsbError,
>)
    ensures
        match spec_control_response(length, fetched(reply)) {
            Ok(bytes) => r matches Ok(v) && v@ == bytes && v@.len() >= length,
            Err(e) => r == Err::<Vec<u8>, GsUsbError>(e),
        },
{
    match reply {
        Err(e) => Err(GsUsbError::ControlTransfer(e)),
        Ok(bytes) => {
            if bytes.len() < length {
                Err(GsUsbError::InvalidResponse { expected: length, actual: bytes.len() })
            } else {
                Ok(bytes)
            }
        },
    }
}

} // verus!

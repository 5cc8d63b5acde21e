//! Errors of the protocol layer and of the USB transport beneath it.

use vstd::prelude::*;

verus! {

/// Why a USB transfer or request failed, as the transport reports it.
#[derive(Debug, Clone, Copy, PartialEq, Eq, Structural)]
pub enum UsbError {
    /// Input/output error.
    Io,
    /// Invalid parameter.
    InvalidParam,
    /// Access denied.
    Access,
    /// No such device; it may have been disconnected.
    NoDevice,
    /// Entity not found.
    NotFound,
    /// Resource busy.
    Busy,
    /// The operation timed out.
    Timeout,
    /// Overflow.
    Overflow,
    /// Pipe error.
    Pipe,
    /// System call interrupted.
    Interrupted,
    /// Insufficient memory.
    NoMem,
    /// The operation is not supported on this platform.
    NotSupported,
    /// The device returned a malformed descriptor.
    BadDescriptor,
    /// Any other error.
    Other,
}

/// Errors of the protocol layer.
#[derive(Debug, Clone, Copy, PartialEq, Eq)]
pub enum GsUsbError {
    /// The transport failed outside any of the operations named below.
    Usb(UsbError),
    /// No adapter was found.
    DeviceNotFound,
    /// The device is not open.
    DeviceNotOpen,
    /// Claiming the interface failed.
    ClaimInterface(UsbError),
    /// Detaching the kernel driver failed.
    DetachKernelDriver(UsbError),
    /// The timing table has no entry for this bitrate at this clock.
    UnsupportedBitrate { bitrate: u32, clock_hz: u32 },
    /// The data phase timing table has no entry for this bitrate at this clock.
    UnsupportedDataBitrate { bitrate: u32, clock_hz: u32 },
    /// The device does not support CAN FD.
    FdNotSupported,
    /// The device does not support the named feature.
    FeatureNotSupported(&'static str),
    /// A read ran into its timeout; the caller may simply read again.
    ReadTimeout,
    /// A write ran into its timeout.
    WriteTimeout,
    /// The device answered a control request with fewer bytes than the
    /// request's fixed length.
    InvalidResponse { expected: usize, actual: usize },
    /// A control transfer failed.
    ControlTransfer(UsbError),
    /// A bulk transfer failed.
    BulkTransfer(UsbError),
    /// The device is already started.
    AlreadyStarted,
    /// The device is not started.
    NotStarted,
    /// The channel number is not one of the device's channels.
    InvalidChannel { channel: u8, max_channels: u8 },
    /// The device does not support the GET_STATE request.
    GetStateNotSupported,
}

impl GsUsbError {
    /// Whether the error is a timeout: one of the two distinguished timeouts,
    /// or a transport timeout outside a named operation.
    pub open spec fn spec_is_timeout(self) -> bool {
        self is ReadTimeout || self is WriteTimeout || self == GsUsbError::Usb(UsbError::Timeout)
    }

    /// Whether the error came from the USB transport.
    pub open spec fn spec_is_usb_error(self) -> bool {
        self is Usb || self is ClaimInterface || self is DetachKernelDriver
            || self is ControlTransfer || self is BulkTransfer
    }

    /// Whether this error is a timeout.
    pub fn is_timeout(&self) -> (b: bool)
        ensures
            b == self.spec_is_timeout(),
    {
        match self {
            GsUsbError::ReadTimeout => true,
            GsUsbError::WriteTimeout => true,
            GsUsbError::Usb(UsbError::Timeout) => true,
            _ => false,
        }
    }

    /// Whether this error came from the USB transport.
    pub fn is_usb_error(&self) -> (b: bool)
        ensures
            b == self.spec_is_usb_error(),
    {
        match self {
            GsUsbError::Usb(_) => true,
            GsUsbError::ClaimInterface(_) => true,
            GsUsbError::DetachKernelDriver(_) => true,
            GsUsbError::ControlTransfer(_) => true,
            GsUsbError::BulkTransfer(_) => true,
            _ => false,
        }
    }
}

} // verus!

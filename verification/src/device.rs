//! The device session: what the host knows of one adapter, and the
//! sequence of transfers that each operation on it takes.
//!
//! The session owns no USB handle. An operation such as `start` returns a
//! `Step`; while the step asks for a transfer, the caller performs it and
//! resumes the session with the answer. The session's state changes only
//! in the `resume_*` functions.

use vstd::prelude::*;
use crate::constants::{
    GS_CAN_FEATURE_BT_CONST_EXT, GS_CAN_FEATURE_FD, GS_CAN_FEATURE_GET_STATE,
    GS_CAN_FEATURE_HW_TIMESTAMP, GS_CAN_FLAG_FD, GS_CAN_MODE_FD, GS_CAN_MODE_HW_TIMESTAMP,
    GS_CAN_MODE_LISTEN_ONLY, GS_CAN_MODE_LOOP_BACK, GS_CAN_MODE_ONE_SHOT, GS_CAN_MODE_RESET,
    GS_CAN_MODE_START, GS_USB_ABE_CANDEBUGGER_FD_PRODUCT_ID, GS_USB_ABE_CANDEBUGGER_FD_VENDOR_ID,
    GS_USB_BREQ_BITTIMING, GS_USB_BREQ_BT_CONST, GS_USB_BREQ_BT_CONST_EXT,
    GS_USB_BREQ_DATA_BITTIMING, GS_USB_BREQ_DEVICE_CONFIG, GS_USB_BREQ_GET_STATE,
    GS_USB_BREQ_HOST_FORMAT, GS_USB_BREQ_MODE, GS_USB_CANDLELIGHT_PRODUCT_ID,
    GS_USB_CANDLELIGHT_VENDOR_ID, GS_USB_CES_CANEXT_FD_PRODUCT_ID, GS_USB_CES_CANEXT_FD_VENDOR_ID,
    GS_USB_ENDPOINT_IN, GS_USB_ENDPOINT_OUT, GS_USB_FRAME_HEADER_SIZE, GS_USB_ID_PRODUCT,
    GS_USB_ID_VENDOR,
};
use crate::error::{GsUsbError, UsbError};
use crate::frame::{spec_frame_size, FrameView, GsUsbFrame};
use crate::structures::{
    DeviceBitTiming, DeviceCapability, DeviceInfo, DeviceMode, DeviceState,
    DEVICE_CAPABILITY_EXT_SIZE, DEVICE_CAPABILITY_SIZE, DEVICE_INFO_SIZE, DEVICE_STATE_SIZE,
};
use crate::timing::{
    resolve, resolve_data, spec_resolve, spec_resolve_data, DATA_SAMPLE_POINT_TENTHS,
    NOMINAL_SAMPLE_POINT_TENTHS,
};
use crate::transfer::{
    control_in, control_out, control_response, fetched, serial_read, spec_control_in,
    spec_control_out, spec_control_response, AfterCommand, AfterFetch, Command, CommandView,
    Fetch, Goal, Outcome, OutcomeView, Step, StepView, GS_USB_INTERFACE, TRANSFER_TIMEOUT_MS,
};
use crate::wire::{push_u32_le, u32_le};

verus! {

/// The mode bits that this driver supports: listen-only, loopback,
/// one-shot, hardware timestamp and CAN FD.
pub const DRIVER_MODE_MASK: u32 = 0x011B;

/// The magic word of the host format request.
pub const HOST_FORMAT_MAGIC: u32 = 0x0000_BEEF;

/// The mode flags that take effect when `requested` is asked of a device
/// with the given feature bits: the requested bits that both the device
/// and this driver support. The others are dropped.
pub open spec fn spec_effective_flags(requested: u32, feature: u32) -> u32 {
    requested & feature & DRIVER_MODE_MASK
}

/// Whether a vendor and product id belong to an adapter that speaks the
/// protocol.
pub open spec fn spec_is_gs_usb_device(vendor_id: u16, product_id: u16) -> bool {
    ||| (vendor_id == 0x1D50 && product_id == 0x606F)
    ||| (vendor_id == 0x1209 && product_id == 0x2323)
    ||| (vendor_id == 0x1CD2 && product_id == 0x606F)
    ||| (vendor_id == 0x16D0 && product_id == 0x10B8)
}

/// Whether received bytes are a CAN FD frame: they reach the flags byte at
/// offset 10, and its FD bit is set.
pub open spec fn inbound_is_fd(bytes: Seq<u8>) -> bool {
    bytes.len() >= 11 && bytes[10] & GS_CAN_FLAG_FD != 0
}

/// The payload of the MODE request that starts or resets the channel.
pub open spec fn mode_command(mode: u32, flags: u32) -> CommandView {
    spec_control_out(GS_USB_BREQ_MODE, 0, (DeviceMode { mode, flags }).spec_pack())
}

/// The step that sends a nominal bit timing.
pub open spec fn timing_step(timing: DeviceBitTiming) -> StepView {
    StepView::Command(
        spec_control_out(GS_USB_BREQ_BITTIMING, 0, timing.spec_pack()),
        AfterCommand::Timing(timing),
    )
}

/// The step that sends a data phase bit timing.
pub open spec fn data_timing_step(timing: DeviceBitTiming) -> StepView {
    StepView::Command(
        spec_control_out(GS_USB_BREQ_DATA_BITTIMING, 0, timing.spec_pack()),
        AfterCommand::DataTiming(timing),
    )
}

/// The session as a mathematical value.
pub struct SessionState {
    /// The capability, once it was read from the device.
    pub capability: Option<DeviceCapability>,
    /// The mode flags in effect since the last start.
    pub device_flags: u32,
    /// Whether the channel was started and not stopped since.
    pub started: bool,
    /// USB bus number.
    pub bus: u8,
    /// USB device address.
    pub address: u8,
    /// The serial number, once it was read from the device.
    pub serial_number: Option<Seq<char>>,
    /// The nominal bit timing that was applied last.
    pub last_timing: Option<DeviceBitTiming>,
    /// The data phase bit timing that was applied last.
    pub last_data_timing: Option<DeviceBitTiming>,
}

impl SessionState {
    /// A fresh session: nothing known of the device, nothing applied.
    pub open spec fn initial(bus: u8, address: u8) -> SessionState {
        SessionState {
            capability: None,
            device_flags: 0,
            started: false,
            bus,
            address,
            serial_number: None,
            last_timing: None,
            last_data_timing: None,
        }
    }

    /// The flags in effect hold no bit that this driver does not support.
    pub open spec fn wf(self) -> bool {
        self.device_flags & !DRIVER_MODE_MASK == 0
    }

    /// Whether CAN FD was negotiated.
    pub open spec fn fd_mode(self) -> bool {
        self.device_flags & GS_CAN_MODE_FD != 0
    }

    /// Whether hardware timestamps were negotiated.
    pub open spec fn hw_timestamp(self) -> bool {
        self.device_flags & GS_CAN_MODE_HW_TIMESTAMP != 0
    }

    /// The step that sends a frame in the negotiated format.
    pub open spec fn send_step(self, frame: FrameView) -> StepView {
        StepView::Command(
            CommandView::BulkOut {
                endpoint: GS_USB_ENDPOINT_OUT,
                data: frame.pack(self.hw_timestamp(), self.fd_mode()),
                timeout_ms: TRANSFER_TIMEOUT_MS,
            },
            AfterCommand::Send,
        )
    }

    /// The step that reads one frame: the buffer has the size of a frame in
    /// the negotiated format.
    pub open spec fn read_step(self, timeout_ms: u64) -> StepView {
        StepView::Fetch(
            Fetch::BulkIn {
                endpoint: GS_USB_ENDPOINT_IN,
                length: spec_frame_size(self.hw_timestamp(), self.fd_mode()) as usize,
                timeout_ms,
            },
            AfterFetch::Read,
        )
    }

    /// What an operation does once the capability `cap` is known.
    pub open spec fn plan(self, goal: Goal, cap: DeviceCapability) -> StepView {
        match goal {
            Goal::Capability => StepView::Finished(Ok(OutcomeView::Capability(cap))),
            Goal::ExtendedCapability => if cap.feature & GS_CAN_FEATURE_BT_CONST_EXT == 0 {
                StepView::Finished(Ok(OutcomeView::ExtendedCapability(None)))
            } else if cap.spec_has_fd_timing() {
                StepView::Finished(Ok(OutcomeView::ExtendedCapability(Some(cap))))
            } else {
                StepView::Fetch(
                    spec_control_in(GS_USB_BREQ_BT_CONST_EXT, 0, 72),
                    AfterFetch::ExtendedCapability,
                )
            },
            Goal::SupportsFd => StepView::Finished(
                Ok(OutcomeView::Supported(cap.feature & GS_CAN_FEATURE_FD != 0)),
            ),
            Goal::SupportsGetState => StepView::Finished(
                Ok(OutcomeView::Supported(cap.feature & GS_CAN_FEATURE_GET_STATE != 0)),
            ),
            Goal::GetState { channel } => if cap.feature & GS_CAN_FEATURE_GET_STATE == 0 {
                StepView::Finished(Err(GsUsbError::GetStateNotSupported))
            } else {
                StepView::Fetch(
                    spec_control_in(GS_USB_BREQ_GET_STATE, channel, 12),
                    AfterFetch::State,
                )
            },
            Goal::Bitrate { bitrate, sample_point_tenths } => match spec_resolve(
                cap.fclk_can,
                bitrate,
                sample_point_tenths,
            ) {
                Ok(timing) => timing_step(timing),
                Err(e) => StepView::Finished(Err(e)),
            },
            Goal::DataBitrate { bitrate, sample_point_tenths } => if cap.feature
                & GS_CAN_FEATURE_FD == 0 {
                StepView::Finished(Err(GsUsbError::FdNotSupported))
            } else {
                match spec_resolve_data(cap.fclk_can, bitrate, sample_point_tenths) {
                    Ok(timing) => data_timing_step(timing),
                    Err(e) => StepView::Finished(Err(e)),
                }
            },
        }
    }

    /// The first step of an operation that needs the capability: with the
    /// capability cached, what the operation does with it; otherwise the
    /// fetch of the capability.
    pub open spec fn with_capability(self, goal: Goal) -> StepView {
        match self.capability {
            Some(cap) => self.plan(goal, cap),
            None => StepView::Fetch(
                spec_control_in(GS_USB_BREQ_BT_CONST, 0, 40),
                AfterFetch::Capability(goal),
            ),
        }
    }

    /// `start`, once the capability `cap` is known: the effective flags
    /// are recorded, and the start mode is sent with them.
    pub open spec fn enter_mode(self, flags: u32, cap: DeviceCapability) -> (
        SessionState,
        StepView,
    ) {
        let effective = spec_effective_flags(flags, cap.feature);
        (
            SessionState { device_flags: effective, ..self },
            StepView::Command(mode_command(GS_CAN_MODE_START, effective), AfterCommand::StartMode),
        )
    }

    /// The session and the next step after the transport answered a
    /// command.
    pub open spec fn after_command(self, after: AfterCommand, reply: Result<(), UsbError>) -> (
        SessionState,
        StepView,
    ) {
        match after {
            AfterCommand::StartReset { flags } => match reply {
                Err(e) => (self, StepView::Finished(Err(GsUsbError::Usb(e)))),
                Ok(_) => (self, StepView::KernelDriverQuery { interface: 0, flags }),
            },
            AfterCommand::StartDetach { flags } => match reply {
                Err(e) => (self, StepView::Finished(Err(GsUsbError::DetachKernelDriver(e)))),
                Ok(_) => (
                    self,
                    StepView::Command(
                        CommandView::ClaimInterface { interface: 0 },
                        AfterCommand::StartClaim { flags },
                    ),
                ),
            },
            AfterCommand::StartClaim { flags } => match reply {
                Err(e) => (self, StepView::Finished(Err(GsUsbError::ClaimInterface(e)))),
                Ok(_) => match self.capability {
                    Some(cap) => self.enter_mode(flags, cap),
                    None => (
                        self,
                        StepView::Fetch(
                            spec_control_in(GS_USB_BREQ_BT_CONST, 0, 40),
                            AfterFetch::StartCapability { flags },
                        ),
                    ),
                },
            },
            AfterCommand::StartMode => match reply {
                Err(e) => (self, StepView::Finished(Err(GsUsbError::ControlTransfer(e)))),
                Ok(_) => (
                    SessionState { started: true, ..self },
                    StepView::Finished(Ok(OutcomeView::Done)),
                ),
            },
            AfterCommand::Stop => (
                SessionState { started: false, ..self },
                StepView::Finished(Ok(OutcomeView::Done)),
            ),
            AfterCommand::Timing(timing) => match reply {
                Err(e) => (self, StepView::Finished(Err(GsUsbError::ControlTransfer(e)))),
                Ok(_) => (
                    SessionState { last_timing: Some(timing), ..self },
                    StepView::Finished(Ok(OutcomeView::Done)),
                ),
            },
            AfterCommand::DataTiming(timing) => match reply {
                Err(e) => (self, StepView::Finished(Err(GsUsbError::ControlTransfer(e)))),
                Ok(_) => (
                    SessionState { last_data_timing: Some(timing), ..self },
                    StepView::Finished(Ok(OutcomeView::Done)),
                ),
            },
            AfterCommand::Send => match reply {
                Err(e) => (self, StepView::Finished(Err(GsUsbError::BulkTransfer(e)))),
                Ok(_) => (self, StepView::Finished(Ok(OutcomeView::Done))),
            },
            AfterCommand::HostFormat => (self, StepView::Finished(Ok(OutcomeView::Done))),
        }
    }

    /// The next step of `start` after the transport said whether a kernel
    /// driver is active: an active driver is detached first; otherwise, and
    /// where the question itself failed, the interface is claimed at once.
    pub open spec fn after_kernel_driver_query(self, flags: u32, reply: Result<bool, UsbError>) -> (
        SessionState,
        StepView,
    ) {
        if reply == Ok::<bool, UsbError>(true) {
            (
                self,
                StepView::Command(
                    CommandView::DetachKernelDriver { interface: 0 },
                    AfterCommand::StartDetach { flags },
                ),
            )
        } else {
            (
                self,
                StepView::Command(
                    CommandView::ClaimInterface { interface: 0 },
                    AfterCommand::StartClaim { flags },
                ),
            )
        }
    }

    /// What a read came to. A transport timeout is the recoverable
    /// `ReadTimeout`, any other failure `BulkTransfer`. Bytes that do not
    /// hold a frame header are refused as `InvalidResponse`. Otherwise the
    /// bytes are unpacked in the format that their own flags byte names.
    pub open spec fn received(self, reply: Result<Seq<u8>, UsbError>) -> Result<
        OutcomeView,
        GsUsbError,
    > {
        match reply {
            Err(e) => if e == UsbError::Timeout {
                Err(GsUsbError::ReadTimeout)
            } else {
                Err(GsUsbError::BulkTransfer(e))
            },
            Ok(bytes) => if bytes.len() < 12 {
                Err(GsUsbError::InvalidResponse { expected: 12, actual: bytes.len() as usize })
            } else {
                Ok(
                    OutcomeView::Frame(
                        FrameView::unpack(bytes, self.hw_timestamp(), inbound_is_fd(bytes)),
                    ),
                )
            },
        }
    }

    /// The session and the next step after the transport answered a fetch.
    pub open spec fn after_fetch(self, after: AfterFetch, reply: Result<Seq<u8>, UsbError>) -> (
        SessionState,
        StepView,
    ) {
        match after {
            AfterFetch::Capability(goal) => match spec_control_response(40, reply) {
                Err(e) => (self, StepView::Finished(Err(e))),
                Ok(bytes) => {
                    let cap = DeviceCapability::spec_unpack(bytes);
                    let s = SessionState { capability: Some(cap), ..self };
                    (s, s.plan(goal, cap))
                },
            },
            AfterFetch::StartCapability { flags } => match spec_control_response(40, reply) {
                Err(e) => (self, StepView::Finished(Err(e))),
                Ok(bytes) => {
                    let cap = DeviceCapability::spec_unpack(bytes);
                    (SessionState { capability: Some(cap), ..self }).enter_mode(flags, cap)
                },
            },
            AfterFetch::ExtendedCapability => match spec_control_response(72, reply) {
                Err(e) => (self, StepView::Finished(Err(e))),
                Ok(bytes) => {
                    let cap = DeviceCapability::spec_unpack_extended(bytes);
                    (
                        SessionState { capability: Some(cap), ..self },
                        StepView::Finished(Ok(OutcomeView::ExtendedCapability(Some(cap)))),
                    )
                },
            },
            AfterFetch::DeviceInfo => match spec_control_response(12, reply) {
                Err(e) => (self, StepView::Finished(Err(e))),
                Ok(bytes) => (
                    self,
                    StepView::Finished(Ok(OutcomeView::Info(DeviceInfo::spec_unpack(bytes)))),
                ),
            },
            AfterFetch::State => match spec_control_response(12, reply) {
                Err(e) => (self, StepView::Finished(Err(e))),
                Ok(bytes) => (
                    self,
                    StepView::Finished(Ok(OutcomeView::State(DeviceState::spec_unpack(bytes)))),
                ),
            },
            AfterFetch::Read => (self, StepView::Finished(self.received(reply))),
        }
    }

    /// The session and the result after the transport answered the serial
    /// number request. A serial number that was read is cached; a device
    /// without one yields the empty string, which is not cached.
    pub open spec fn after_serial_number(self, reply: Result<Option<Seq<char>>, UsbError>) -> (
        SessionState,
        StepView,
    ) {
        match reply {
            Err(e) => (self, StepView::Finished(Err(GsUsbError::Usb(e)))),
            Ok(None) => (
                self,
                StepView::Finished(Ok(OutcomeView::SerialNumber(Seq::<char>::empty()))),
            ),
            Ok(Some(text)) => (
                SessionState { serial_number: Some(text), ..self },
                StepView::Finished(Ok(OutcomeView::SerialNumber(text))),
            ),
        }
    }
}

/// The flags that take effect hold no bit that the device lacks and none
/// that this driver does not support, whatever was requested.
pub proof fn lemma_effective_flags_supported(requested: u32, feature: u32)
    ensures
        spec_effective_flags(requested, feature) & !feature == 0,
        spec_effective_flags(requested, feature) & !DRIVER_MODE_MASK == 0,
        spec_effective_flags(requested, feature) & !requested == 0,
{
    assert((requested & feature & 0x011Bu32) & !feature == 0) by (bit_vector);
    assert((requested & feature & 0x011Bu32) & !0x011Bu32 == 0) by (bit_vector);
    assert((requested & feature & 0x011Bu32) & !requested == 0) by (bit_vector);
}

/// The driver's mask is made of the five mode bits that it names, and a
/// session's format follows from the flags in effect: CAN FD and hardware
/// timestamps are negotiated exactly when both the request and the device
/// have their bit.
pub proof fn lemma_driver_mode_mask(requested: u32, feature: u32)
    ensures
        DRIVER_MODE_MASK == GS_CAN_MODE_LISTEN_ONLY | GS_CAN_MODE_LOOP_BACK | GS_CAN_MODE_ONE_SHOT
            | GS_CAN_MODE_HW_TIMESTAMP | GS_CAN_MODE_FD,
        spec_effective_flags(requested, feature) & GS_CAN_MODE_FD != 0 <==> requested
            & GS_CAN_MODE_FD != 0 && feature & GS_CAN_FEATURE_FD != 0,
        spec_effective_flags(requested, feature) & GS_CAN_MODE_HW_TIMESTAMP != 0 <==> requested
            & GS_CAN_MODE_HW_TIMESTAMP != 0 && feature & GS_CAN_FEATURE_HW_TIMESTAMP != 0,
{
    assert(0x011Bu32 == 0x0001u32 | 0x0002u32 | 0x0008u32 | 0x0010u32 | 0x0100u32)
        by (bit_vector);
    assert((requested & feature & 0x011Bu32) & 0x0100u32 != 0 <==> requested & 0x0100u32 != 0
        && feature & 0x0100u32 != 0) by (bit_vector);
    assert((requested & feature & 0x011Bu32) & 0x0010u32 != 0 <==> requested & 0x0010u32 != 0
        && feature & 0x0010u32 != 0) by (bit_vector);
}

/// Computes the mode flags that take effect: the requested bits that both
/// the device and this driver support.
pub fn effective_flags(requested: u32, feature: u32) -> (flags: u32)
    ensures
        flags == spec_effective_flags(requested, feature),
        flags & !feature == 0,
        flags & !DRIVER_MODE_MASK == 0,
{
    proof {
        lemma_effective_flags_supported(requested, feature);
    }
    requested & feature & DRIVER_MODE_MASK
}

/// Says whether received bytes are a CAN FD frame, by the flags byte at
/// offset 10.
pub fn is_fd_buffer(data: &[u8]) -> (b: bool)
    ensures
        b == inbound_is_fd(data@),
{
    data.len() >= 11 && (data[10] & GS_CAN_FLAG_FD) != 0
}

/// The session with one adapter.
#[derive(Debug)]
pub struct GsUsb {
    capability: Option<DeviceCapability>,
    device_flags: u32,
    started: bool,
    bus: u8,
    address: u8,
    serial_number: Option<String>,
    last_timing: Option<DeviceBitTiming>,
    last_data_timing: Option<DeviceBitTiming>,
}

impl View for GsUsb {
    type V = SessionState;

    closed spec fn view(&self) -> SessionState {
        SessionState {
            capability: self.capability,
            device_flags: self.device_flags,
            started: self.started,
            bus: self.bus,
            address: self.address,
            serial_number: match self.serial_number {
                Some(text) => Some(text@),
                None => None,
            },
            last_timing: self.last_timing,
            last_data_timing: self.last_data_timing,
        }
    }
}

impl GsUsb {
    #[verifier::type_invariant]
    spec fn inv(self) -> bool {
        self.device_flags & !DRIVER_MODE_MASK == 0
    }

    /// A fresh session with the adapter at a bus number and address.
    pub fn new(bus: u8, address: u8) -> (session: Self)
        ensures
            session@ == SessionState::initial(bus, address),
    {
        assert(0u32 & !0x011Bu32 == 0) by (bit_vector);
        Self {
            capability: None,
            device_flags: 0,
            started: false,
            bus,
            address,
            serial_number: None,
            last_timing: None,
            last_data_timing: None,
        }
    }

    /// Whether a vendor and product id belong to an adapter that speaks
    /// the protocol.
    pub fn is_gs_usb_device(vendor_id: u16, product_id: u16) -> (b: bool)
        ensures
            b == spec_is_gs_usb_device(vendor_id, product_id),
    {
        (vendor_id == GS_USB_ID_VENDOR && product_id == GS_USB_ID_PRODUCT) || (vendor_id
            == GS_USB_CANDLELIGHT_VENDOR_ID && product_id == GS_USB_CANDLELIGHT_PRODUCT_ID) || (
        vendor_id == GS_USB_CES_CANEXT_FD_VENDOR_ID && product_id
            == GS_USB_CES_CANEXT_FD_PRODUCT_ID) || (vendor_id
            == GS_USB_ABE_CANDEBUGGER_FD_VENDOR_ID && product_id
            == GS_USB_ABE_CANDEBUGGER_FD_PRODUCT_ID)
    }

    /// USB bus number.
    pub fn bus(&self) -> (bus: u8)
        ensures
            bus == self@.bus,
    {
        self.bus
    }

    /// USB device address.
    pub fn address(&self) -> (address: u8)
        ensures
            address == self@.address,
    {
        self.address
    }

    /// Whether the channel was started and not stopped since.
    pub fn is_started(&self) -> (started: bool)
        ensures
            started == self@.started,
    {
        self.started
    }

    /// The mode flags in effect since the last start. They hold no bit
    /// that this driver does not support.
    pub fn device_flags(&self) -> (flags: u32)
        ensures
            flags == self@.device_flags,
            self@.wf(),
    {
        proof {
            use_type_invariant(self);
        }
        self.device_flags
    }

    /// Whether CAN FD was negotiated at the last start.
    pub fn fd_mode(&self) -> (fd: bool)
        ensures
            fd == self@.fd_mode(),
    {
        (self.device_flags & GS_CAN_MODE_FD) != 0
    }

    /// Whether hardware timestamps were negotiated at the last start.
    pub fn hw_timestamp(&self) -> (hw: bool)
        ensures
            hw == self@.hw_timestamp(),
    {
        (self.device_flags & GS_CAN_MODE_HW_TIMESTAMP) != 0
    }

    /// The capability, if it was read from the device already.
    pub fn cached_capability(&self) -> (cap: Option<DeviceCapability>)
        ensures
            cap == self@.capability,
    {
        self.capability
    }

    /// The nominal bit timing that was applied last.
    pub fn last_timing(&self) -> (timing: Option<DeviceBitTiming>)
        ensures
            timing == self@.last_timing,
    {
        self.last_timing
    }

    /// The data phase bit timing that was applied last.
    pub fn last_data_timing(&self) -> (timing: Option<DeviceBitTiming>)
        ensures
            timing == self@.last_data_timing,
    {
        self.last_data_timing
    }

    /// Starts the channel with the requested mode flags. The sequence is:
    /// reset the device, detach an active kernel driver, claim the
    /// interface, read the capability unless it is cached, and send the
    /// start mode with the flags that take effect. This is its first step.
    pub fn start(&self, flags: u32) -> (step: Step)
        ensures
            step@ == StepView::Command(CommandView::Reset, AfterCommand::StartReset { flags }),
    {
        Step::Command(Command::Reset, AfterCommand::StartReset { flags })
    }

    /// Stops the channel: sends the reset mode. The operation succeeds
    /// whatever the transport answers.
    pub fn stop(&self) -> (step: Step)
        ensures
            step@ == StepView::Command(mode_command(GS_CAN_MODE_RESET, 0), AfterCommand::Stop),
    {
        let mode = DeviceMode::new(GS_CAN_MODE_RESET, 0);
        Step::Command(control_out(GS_USB_BREQ_MODE, 0, bytes_of(&mode.pack())), AfterCommand::Stop)
    }

    /// Applies a nominal bitrate at the sample point 87.5 %.
    pub fn set_bitrate(&self, bitrate: u32) -> (step: Step)
        ensures
            step@ == self@.with_capability(
                Goal::Bitrate { bitrate, sample_point_tenths: NOMINAL_SAMPLE_POINT_TENTHS },
            ),
    {
        self.set_bitrate_with_sample_point(bitrate, NOMINAL_SAMPLE_POINT_TENTHS)
    }

    /// Applies a nominal bitrate at a sample point given in tenths of a
    /// percent: the timing is resolved for the device's clock and sent.
    pub fn set_bitrate_with_sample_point(&self, bitrate: u32, sample_point_tenths: u32) -> (step:
        Step)
        ensures
            step@ == self@.with_capability(Goal::Bitrate { bitrate, sample_point_tenths }),
    {
        self.with_capability(Goal::Bitrate { bitrate, sample_point_tenths })
    }

    /// Applies a nominal bit timing as given.
    pub fn set_timing(
        &self,
        prop_seg: u32,
        phase_seg1: u32,
        phase_seg2: u32,
        sjw: u32,
        brp: u32,
    ) -> (step: Step)
        ensures
            step@ == timing_step(DeviceBitTiming { prop_seg, phase_seg1, phase_seg2, sjw, brp }),
    {
        send_timing(DeviceBitTiming::new(prop_seg, phase_seg1, phase_seg2, sjw, brp))
    }

    /// Applies a data phase bit timing as given.
    pub fn set_data_timing(
        &self,
        prop_seg: u32,
        phase_seg1: u32,
        phase_seg2: u32,
        sjw: u32,
        brp: u32,
    ) -> (step: Step)
        ensures
            step@ == data_timing_step(
                DeviceBitTiming { prop_seg, phase_seg1, phase_seg2, sjw, brp },
            ),
    {
        send_data_timing(DeviceBitTiming::new(prop_seg, phase_seg1, phase_seg2, sjw, brp))
    }

    /// Applies a data phase bitrate at the sample point 75 %.
    pub fn set_data_bitrate(&self, bitrate: u32) -> (step: Step)
        ensures
            step@ == self@.with_capability(
                Goal::DataBitrate { bitrate, sample_point_tenths: DATA_SAMPLE_POINT_TENTHS },
            ),
    {
        self.set_data_bitrate_with_sample_point(bitrate, DATA_SAMPLE_POINT_TENTHS)
    }

    /// Applies a data phase bitrate at a sample point given in tenths of a
    /// percent. A device without CAN FD refuses with `FdNotSupported`
    /// before anything is resolved.
    pub fn set_data_bitrate_with_sample_point(
        &self,
        bitrate: u32,
        sample_point_tenths: u32,
    ) -> (step: Step)
        ensures
            step@ == self@.with_capability(Goal::DataBitrate { bitrate, sample_point_tenths }),
    {
        self.with_capability(Goal::DataBitrate { bitrate, sample_point_tenths })
    }

    /// Sends a frame, packed in the negotiated format, in one bulk
    /// transfer with one second of timeout.
    pub fn send(&self, frame: &GsUsbFrame) -> (step: Step)
        ensures
            step@ == self@.send_step(frame@),
    {
        let data = frame.pack(self.hw_timestamp(), self.fd_mode());
        Step::Command(
            Command::BulkOut {
                endpoint: GS_USB_ENDPOINT_OUT,
                data,
                timeout_ms: TRANSFER_TIMEOUT_MS,
            },
            AfterCommand::Send,
        )
    }

    /// Reads a frame in one bulk transfer with the caller's timeout, given
    /// in milliseconds.
    pub fn read(&self, timeout_ms: u64) -> (step: Step)
        ensures
            step@ == self@.read_step(timeout_ms),
    {
        let length = GsUsbFrame::frame_size(self.hw_timestamp(), self.fd_mode());
        Step::Fetch(
            Fetch::BulkIn { endpoint: GS_USB_ENDPOINT_IN, length, timeout_ms },
            AfterFetch::Read,
        )
    }

    /// The device's serial number: the cached one, or a request to read
    /// it.
    pub fn serial_number(&self) -> (step: Step)
        ensures
            step@ == match self@.serial_number {
                Some(text) => StepView::Finished(Ok(OutcomeView::SerialNumber(text))),
                None => StepView::SerialNumber,
            },
    {
        match &self.serial_number {
            Some(text) => Step::Finished(Ok(Outcome::SerialNumber(text.clone()))),
            None => Step::SerialNumber,
        }
    }

    /// Reads the device configuration.
    pub fn device_info(&self) -> (step: Step)
        ensures
            step@ == StepView::Fetch(
                spec_control_in(GS_USB_BREQ_DEVICE_CONFIG, 0, 12),
                AfterFetch::DeviceInfo,
            ),
    {
        Step::Fetch(
            control_in(GS_USB_BREQ_DEVICE_CONFIG, 0, DEVICE_INFO_SIZE),
            AfterFetch::DeviceInfo,
        )
    }

    /// The device capability: the cached one, or the fetch that reads it.
    pub fn device_capability(&self) -> (step: Step)
        ensures
            step@ == self@.with_capability(Goal::Capability),
    {
        self.with_capability(Goal::Capability)
    }

    /// The device capability with its data phase bounds. A device without
    /// the extended capability feature yields `None`; it is no failure. The
    /// wider fetch is made only where the cached capability lacks the
    /// bounds.
    pub fn device_capability_extended(&self) -> (step: Step)
        ensures
            step@ == self@.with_capability(Goal::ExtendedCapability),
    {
        self.with_capability(Goal::ExtendedCapability)
    }

    /// Whether the device supports CAN FD.
    pub fn supports_fd(&self) -> (step: Step)
        ensures
            step@ == self@.with_capability(Goal::SupportsFd),
    {
        self.with_capability(Goal::SupportsFd)
    }

    /// Whether the device supports the GET_STATE request.
    pub fn supports_get_state(&self) -> (step: Step)
        ensures
            step@ == self@.with_capability(Goal::SupportsGetState),
    {
        self.with_capability(Goal::SupportsGetState)
    }

    /// Reads the state and the error counters of a channel. A device
    /// without the GET_STATE feature refuses with `GetStateNotSupported`.
    pub fn get_state(&self, channel: u16) -> (step: Step)
        ensures
            step@ == self@.with_capability(Goal::GetState { channel }),
    {
        self.with_capability(Goal::GetState { channel })
    }

    /// Sends the host format, a legacy request. The operation succeeds
    /// whatever the transport answers.
    pub fn send_host_format(&self) -> (step: Step)
        ensures
            step@ == StepView::Command(
                spec_control_out(GS_USB_BREQ_HOST_FORMAT, 0, u32_le(HOST_FORMAT_MAGIC)),
                AfterCommand::HostFormat,
            ),
    {
        let mut data: Vec<u8> = Vec::new();
        push_u32_le(&mut data, HOST_FORMAT_MAGIC);
        assert(data@ =~= u32_le(HOST_FORMAT_MAGIC));
        Step::Command(control_out(GS_USB_BREQ_HOST_FORMAT, 0, data), AfterCommand::HostFormat)
    }

    /// Goes on after the transport answered a command.
    pub fn resume_command(&mut self, after: AfterCommand, reply: Result<(), UsbError>) -> (step:
        Step)
        ensures
            (final(self)@, step@) == old(self)@.after_command(after, reply),
    {
        proof {
            use_type_invariant(&*self);
        }
        match after {
            AfterCommand::StartReset { flags } => match reply {
                Err(e) => Step::Finished(Err(GsUsbError::Usb(e))),
                Ok(_) => Step::KernelDriverQuery { interface: GS_USB_INTERFACE, flags },
            },
            AfterCommand::StartDetach { flags } => match reply {
                Err(e) => Step::Finished(Err(GsUsbError::DetachKernelDriver(e))),
                Ok(_) => Step::Command(
                    Command::ClaimInterface { interface: GS_USB_INTERFACE },
                    AfterCommand::StartClaim { flags },
                ),
            },
            AfterCommand::StartClaim { flags } => match reply {
                Err(e) => Step::Finished(Err(GsUsbError::ClaimInterface(e))),
                Ok(_) => match self.capability {
                    Some(cap) => self.enter_mode(flags, cap),
                    None => Step::Fetch(
                        control_in(GS_USB_BREQ_BT_CONST, 0, DEVICE_CAPABILITY_SIZE),
                        AfterFetch::StartCapability { flags },
                    ),
                },
            },
            AfterCommand::StartMode => match reply {
                Err(e) => Step::Finished(Err(GsUsbError::ControlTransfer(e))),
                Ok(_) => {
                    self.started = true;
                    Step::Finished(Ok(Outcome::Done))
                },
            },
            AfterCommand::Stop => {
                self.started = false;
                Step::Finished(Ok(Outcome::Done))
            },
            AfterCommand::Timing(timing) => match reply {
                Err(e) => Step::Finished(Err(GsUsbError::ControlTransfer(e))),
                Ok(_) => {
                    self.last_timing = Some(timing);
                    Step::Finished(Ok(Outcome::Done))
                },
            },
            AfterCommand::DataTiming(timing) => match reply {
                Err(e) => Step::Finished(Err(GsUsbError::ControlTransfer(e))),
                Ok(_) => {
                    self.last_data_timing = Some(timing);
                    Step::Finished(Ok(Outcome::Done))
                },
            },
            AfterCommand::Send => match reply {
                Err(e) => Step::Finished(Err(GsUsbError::BulkTransfer(e))),
                Ok(_) => Step::Finished(Ok(Outcome::Done)),
            },
            AfterCommand::HostFormat => Step::Finished(Ok(Outcome::Done)),
        }
    }

    /// Goes on with `start` after the transport said whether a kernel
    /// driver is active on the interface.
    pub fn resume_kernel_driver_query(&mut self, flags: u32, reply: Result<bool, UsbError>) -> (step:
        Step)
        ensures
            (final(self)@, step@) == old(self)@.after_kernel_driver_query(flags, reply),
    {
        let active = match reply {
            Ok(active) => active,
            Err(_) => false,
        };
        if active {
            Step::Command(
                Command::DetachKernelDriver { interface: GS_USB_INTERFACE },
                AfterCommand::StartDetach { flags },
            )
        } else {
            Step::Command(
                Command::ClaimInterface { interface: GS_USB_INTERFACE },
                AfterCommand::StartClaim { flags },
            )
        }
    }

    /// Goes on after the transport answered a fetch.
    pub fn resume_fetch(&mut self, after: AfterFetch, reply: Result<Vec<u8>, UsbError>) -> (step:
        Step)
        ensures
            (final(self)@, step@) == old(self)@.after_fetch(after, fetched(reply)),
    {
        proof {
            use_type_invariant(&*self);
        }
        match after {
            AfterFetch::Capability(goal) => match control_response(DEVICE_CAPABILITY_SIZE, reply) {
                Err(e) => Step::Finished(Err(e)),
                Ok(bytes) => {
                    let cap = DeviceCapability::unpack(bytes.as_slice());
                    self.capability = Some(cap);
                    self.plan(goal, cap)
                },
            },
            AfterFetch::StartCapability { flags } => match control_response(
                DEVICE_CAPABILITY_SIZE,
                reply,
            ) {
                Err(e) => Step::Finished(Err(e)),
                Ok(bytes) => {
                    let cap = DeviceCapability::unpack(bytes.as_slice());
                    self.capability = Some(cap);
                    self.enter_mode(flags, cap)
                },
            },
            AfterFetch::ExtendedCapability => match control_response(
                DEVICE_CAPABILITY_EXT_SIZE,
                reply,
            ) {
                Err(e) => Step::Finished(Err(e)),
                Ok(bytes) => {
                    let cap = DeviceCapability::unpack_extended(bytes.as_slice());
                    self.capability = Some(cap);
                    Step::Finished(Ok(Outcome::ExtendedCapability(Some(cap))))
                },
            },
            AfterFetch::DeviceInfo => match control_response(DEVICE_INFO_SIZE, reply) {
                Err(e) => Step::Finished(Err(e)),
                Ok(bytes) => Step::Finished(
                    Ok(Outcome::Info(DeviceInfo::unpack(bytes.as_slice()))),
                ),
            },
            AfterFetch::State => match control_response(DEVICE_STATE_SIZE, reply) {
                Err(e) => Step::Finished(Err(e)),
                Ok(bytes) => Step::Finished(
                    Ok(Outcome::State(DeviceState::unpack(bytes.as_slice()))),
                ),
            },
            AfterFetch::Read => Step::Finished(self.received(reply)),
        }
    }

    /// Goes on after the transport answered the serial number request.
    pub fn resume_serial_number(&mut self, reply: Result<Option<String>, UsbError>) -> (step: Step)
        ensures
            (final(self)@, step@) == old(self)@.after_serial_number(serial_read(reply)),
    {
        proof {
            use_type_invariant(&*self);
        }
        match reply {
            Err(e) => Step::Finished(Err(GsUsbError::Usb(e))),
            Ok(None) => Step::Finished(Ok(Outcome::SerialNumber(String::new()))),
            Ok(Some(text)) => {
                self.serial_number = Some(text.clone());
                Step::Finished(Ok(Outcome::SerialNumber(text)))
            },
        }
    }

    /// What a read came to; see `SessionState::received`.
    fn received(&self, reply: Result<Vec<u8>, UsbError>) -> (r: Result<Outcome, GsUsbError>)
        ensures
            match self@.received(fetched(reply)) {
                Ok(outcome) => r matches Ok(o) && o@ == outcome,
                Err(e) => r == Err::<Outcome, GsUsbError>(e),
            },
    {
        match reply {
            Err(UsbError::Timeout) => Err(GsUsbError::ReadTimeout),
            Err(e) => Err(GsUsbError::BulkTransfer(e)),
            Ok(bytes) => {
                if bytes.len() < GS_USB_FRAME_HEADER_SIZE {
                    Err(
                        GsUsbError::InvalidResponse {
                            expected: GS_USB_FRAME_HEADER_SIZE,
                            actual: bytes.len(),
                        },
                    )
                } else {
                    let fd = is_fd_buffer(bytes.as_slice());
                    Ok(
                        Outcome::Frame(
                            GsUsbFrame::from_bytes(bytes.as_slice(), self.hw_timestamp(), fd),
                        ),
                    )
                }
            },
        }
    }

    /// The first step of an operation that needs the capability.
    fn with_capability(&self, goal: Goal) -> (step: Step)
        ensures
            step@ == self@.with_capability(goal),
    {
        match self.capability {
            Some(cap) => self.plan(goal, cap),
            None => Step::Fetch(
                control_in(GS_USB_BREQ_BT_CONST, 0, DEVICE_CAPABILITY_SIZE),
                AfterFetch::Capability(goal),
            ),
        }
    }

    /// What an operation does once the capability is known.
    fn plan(&self, goal: Goal, cap: DeviceCapability) -> (step: Step)
        ensures
            step@ == self@.plan(goal, cap),
    {
        match goal {
            Goal::Capability => Step::Finished(Ok(Outcome::Capability(cap))),
            Goal::ExtendedCapability => {
                if (cap.feature & GS_CAN_FEATURE_BT_CONST_EXT) == 0 {
                    Step::Finished(Ok(Outcome::ExtendedCapability(None)))
                } else if cap.has_fd_timing() {
                    Step::Finished(Ok(Outcome::ExtendedCapability(Some(cap))))
                } else {
                    Step::Fetch(
                        control_in(GS_USB_BREQ_BT_CONST_EXT, 0, DEVICE_CAPABILITY_EXT_SIZE),
                        AfterFetch::ExtendedCapability,
                    )
                }
            },
            Goal::SupportsFd => Step::Finished(
                Ok(Outcome::Supported((cap.feature & GS_CAN_FEATURE_FD) != 0)),
            ),
            Goal::SupportsGetState => Step::Finished(
                Ok(Outcome::Supported((cap.feature & GS_CAN_FEATURE_GET_STATE) != 0)),
            ),
            Goal::GetState { channel } => {
                if (cap.feature & GS_CAN_FEATURE_GET_STATE) == 0 {
                    Step::Finished(Err(GsUsbError::GetStateNotSupported))
                } else {
                    Step::Fetch(
                        control_in(GS_USB_BREQ_GET_STATE, channel, DEVICE_STATE_SIZE),
                        AfterFetch::State,
                    )
                }
            },
            Goal::Bitrate { bitrate, sample_point_tenths } => match resolve(
                cap.fclk_can,
                bitrate,
                sample_point_tenths,
            ) {
                Ok(timing) => send_timing(timing),
                Err(e) => Step::Finished(Err(e)),
            },
            Goal::DataBitrate { bitrate, sample_point_tenths } => {
                if (cap.feature & GS_CAN_FEATURE_FD) == 0 {
                    Step::Finished(Err(GsUsbError::FdNotSupported))
                } else {
                    match resolve_data(cap.fclk_can, bitrate, sample_point_tenths) {
                        Ok(timing) => send_data_timing(timing),
                        Err(e) => Step::Finished(Err(e)),
                    }
                }
            },
        }
    }

    /// `start`, once the capability is known.
    fn enter_mode(&mut self, flags: u32, cap: DeviceCapability) -> (step: Step)
        ensures
            (final(self)@, step@) == old(self)@.enter_mode(flags, cap),
    {
        let effective = effective_flags(flags, cap.feature);
        self.device_flags = effective;
        let mode = DeviceMode::new(GS_CAN_MODE_START, effective);
        Step::Command(
            control_out(GS_USB_BREQ_MODE, 0, bytes_of(&mode.pack())),
            AfterCommand::StartMode,
        )
    }
}

/// The step that sends a nominal bit timing.
fn send_timing(timing: DeviceBitTiming) -> (step: Step)
    ensures
        step@ == timing_step(timing),
{
    Step::Command(
        control_out(GS_USB_BREQ_BITTIMING, 0, bytes_of(&timing.pack())),
        AfterCommand::Timing(timing),
    )
}

/// The step that sends a data phase bit timing.
fn send_data_timing(timing: DeviceBitTiming) -> (step: Step)
    ensures
        step@ == data_timing_step(timing),
{
    Step::Command(
        control_out(GS_USB_BREQ_DATA_BITTIMING, 0, bytes_of(&timing.pack())),
        AfterCommand::DataTiming(timing),
    )
}

/// The bytes of a packed payload as a vector.
fn bytes_of<const N: usize>(packed: &[u8; N]) -> (bytes: Vec<u8>)
    ensures
        bytes@ == packed@,
{
    let mut bytes: Vec<u8> = Vec::with_capacity(N);
    let mut i: usize = 0;
    while i < N
        invariant
            i <= N,
            bytes@ == packed@.subrange(0, i as int),
        decreases N - i,
    {
        bytes.push(packed[i]);
        i = i + 1;
        assert(bytes@ =~= packed@.subrange(0, i as int));
    }
    assert(bytes@ =~= packed@);
    bytes
}

/// Whether the flags in effect were negotiated with the cached
/// capability: they hold no bit that the capability's feature mask lacks.
pub open spec fn flags_within_features(s: SessionState) -> bool {
    s.capability matches Some(cap) && s.device_flags & !cap.feature == 0
}

/// `start` never puts a flag into effect that the device lacks, whatever
/// was requested and whatever the device answered. The flags in effect
/// change in two places only: after the interface was claimed, with the
/// capability cached, and after the capability was read for `start`. In
/// both, the new flags lie within the feature mask of the capability that
/// is cached from then on and within the driver's mask, and the start mode
/// that is sent carries exactly these flags.
pub proof fn lemma_start_masks_flags(
    s: SessionState,
    flags: u32,
    claimed: Result<(), UsbError>,
    capability: Result<Seq<u8>, UsbError>,
)
    ensures
        ({
            let (t, step) = s.after_command(AfterCommand::StartClaim { flags }, claimed);
            t.device_flags == s.device_flags || (flags_within_features(t) && t.wf() && step
                == StepView::Command(
                mode_command(GS_CAN_MODE_START, t.device_flags),
                AfterCommand::StartMode,
            ))
        }),
        ({
            let (t, step) = s.after_fetch(AfterFetch::StartCapability { flags }, capability);
            t.device_flags == s.device_flags || (flags_within_features(t) && t.wf() && step
                == StepView::Command(
                mode_command(GS_CAN_MODE_START, t.device_flags),
                AfterCommand::StartMode,
            ))
        }),
{
    let (t, _) = s.after_command(AfterCommand::StartClaim { flags }, claimed);
    if let Some(cap) = t.capability {
        lemma_effective_flags_supported(flags, cap.feature);
    }
    let (u, _) = s.after_fetch(AfterFetch::StartCapability { flags }, capability);
    if let Some(cap) = u.capability {
        lemma_effective_flags_supported(flags, cap.feature);
    }
}

/// Every transition keeps the session well-formed and keeps a cached
/// capability cached. Outside the two places named in
/// `lemma_start_masks_flags`, no transition touches the flags in effect.
pub proof fn lemma_transitions_preserve(
    s: SessionState,
    command: AfterCommand,
    done: Result<(), UsbError>,
    flags: u32,
    active: Result<bool, UsbError>,
    fetch: AfterFetch,
    bytes: Result<Seq<u8>, UsbError>,
    serial: Result<Option<Seq<char>>, UsbError>,
)
    requires
        s.wf(),
    ensures
        s.after_command(command, done).0.wf(),
        s.after_kernel_driver_query(flags, active).0.wf(),
        s.after_fetch(fetch, bytes).0.wf(),
        s.after_serial_number(serial).0.wf(),
        s.capability is Some ==> s.after_command(command, done).0.capability is Some,
        s.capability is Some ==> s.after_fetch(fetch, bytes).0.capability is Some,
        s.after_kernel_driver_query(flags, active).0 == s,
        s.after_serial_number(serial).0.capability == s.capability,
        !(command is StartClaim) ==> s.after_command(command, done).0.device_flags
            == s.device_flags,
        !(fetch is StartCapability) ==> s.after_fetch(fetch, bytes).0.device_flags
            == s.device_flags,
        s.after_serial_number(serial).0.device_flags == s.device_flags,
{
    if let AfterCommand::StartClaim { flags } = command {
        lemma_start_masks_flags(s, flags, done, bytes);
    }
    if let AfterFetch::StartCapability { flags } = fetch {
        lemma_start_masks_flags(s, flags, done, bytes);
    }
}

/// Stopping never fails: whatever the transport answers to the reset mode,
/// the operation reports success, the session is no longer started, and
/// nothing else of it changes.
pub proof fn lemma_stop_always_succeeds(s: SessionState, reply: Result<(), UsbError>)
    ensures
        s.after_command(AfterCommand::Stop, reply) == (
            SessionState { started: false, ..s },
            StepView::Finished(Ok(OutcomeView::Done)),
        ),
{
}

/// A read leaves the session as it was, whatever came back, so the
/// session is good for the next call. A transport timeout comes out as
/// `ReadTimeout` and as nothing else; no other answer comes out as
/// `ReadTimeout`.
pub proof fn lemma_read_keeps_session(s: SessionState, reply: Result<Seq<u8>, UsbError>)
    ensures
        s.after_fetch(AfterFetch::Read, reply).0 == s,
        s.after_fetch(AfterFetch::Read, reply).1 is Finished,
        reply == Err::<Seq<u8>, UsbError>(UsbError::Timeout) <==> s.after_fetch(
            AfterFetch::Read,
            reply,
        ).1 == StepView::Finished(Err(GsUsbError::ReadTimeout)),
{
}

/// A device without the CAN FD feature refuses a data phase bitrate with
/// `FdNotSupported`, whatever its clock, the bitrate and the sample point;
/// nothing is sent and the session is unchanged.
pub proof fn lemma_data_bitrate_needs_fd(
    s: SessionState,
    cap: DeviceCapability,
    bitrate: u32,
    sample_point_tenths: u32,
)
    requires
        cap.feature & GS_CAN_FEATURE_FD == 0,
    ensures
        s.plan(Goal::DataBitrate { bitrate, sample_point_tenths }, cap) == StepView::Finished(
            Err(GsUsbError::FdNotSupported),
        ),
        s.capability == Some(cap) ==> s.with_capability(
            Goal::DataBitrate { bitrate, sample_point_tenths },
        ) == StepView::Finished(Err(GsUsbError::FdNotSupported)),
{
}

/// With the capability cached, no operation fetches it again: the
/// capability, the feature questions and a bitrate are answered from the
/// cache.
pub proof fn lemma_capability_is_fetched_once(s: SessionState, goal: Goal)
    requires
        s.capability is Some,
    ensures
        s.with_capability(goal) == s.plan(goal, s.capability->Some_0),
        s.with_capability(Goal::Capability) == StepView::Finished(
            Ok(OutcomeView::Capability(s.capability->Some_0)),
        ),
        s.with_capability(goal) matches StepView::Fetch(fetch, _) ==> fetch != spec_control_in(
            GS_USB_BREQ_BT_CONST,
            0,
            40,
        ),
{
}

} // verus!

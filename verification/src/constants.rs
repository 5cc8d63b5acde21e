//! Protocol constants: mode and feature bits, frame flags, request codes,
//! frame sizes, CAN states and the USB identifiers of known adapters.

use vstd::prelude::*;

verus! {

// Mode flags, carried in the flags word of a MODE request.

/// Normal operation.
pub const GS_CAN_MODE_NORMAL: u32 = 0;
/// Listen-only mode: the adapter sends no acknowledgements.
pub const GS_CAN_MODE_LISTEN_ONLY: u32 = 0x0001;
/// Loopback mode.
pub const GS_CAN_MODE_LOOP_BACK: u32 = 0x0002;
/// Triple sampling.
pub const GS_CAN_MODE_TRIPLE_SAMPLE: u32 = 0x0004;
/// One-shot mode: no retransmission.
pub const GS_CAN_MODE_ONE_SHOT: u32 = 0x0008;
/// Frames carry a hardware timestamp.
pub const GS_CAN_MODE_HW_TIMESTAMP: u32 = 0x0010;
/// Identify mode (blinking LED).
pub const GS_CAN_MODE_IDENTIFY: u32 = 0x0020;
/// User id mode.
pub const GS_CAN_MODE_USER_ID: u32 = 0x0040;
/// Pad packets to the maximum packet size.
pub const GS_CAN_MODE_PAD_PKTS_TO_MAX_PKT_SIZE: u32 = 0x0080;
/// CAN FD mode.
pub const GS_CAN_MODE_FD: u32 = 0x0100;
/// Bus error reporting.
pub const GS_CAN_MODE_BERR_REPORTING: u32 = 0x1000;

// Feature flags, reported in the feature word of the capability response.

/// The device supports listen-only mode.
pub const GS_CAN_FEATURE_LISTEN_ONLY: u32 = 0x0001;
/// The device supports loopback mode.
pub const GS_CAN_FEATURE_LOOP_BACK: u32 = 0x0002;
/// The device supports triple sampling.
pub const GS_CAN_FEATURE_TRIPLE_SAMPLE: u32 = 0x0004;
/// The device supports one-shot mode.
pub const GS_CAN_FEATURE_ONE_SHOT: u32 = 0x0008;
/// The device supports hardware timestamps.
pub const GS_CAN_FEATURE_HW_TIMESTAMP: u32 = 0x0010;
/// The device supports identify.
pub const GS_CAN_FEATURE_IDENTIFY: u32 = 0x0020;
/// The device supports a user id.
pub const GS_CAN_FEATURE_USER_ID: u32 = 0x0040;
/// The device supports packet padding.
pub const GS_CAN_FEATURE_PAD_PKTS_TO_MAX_PKT_SIZE: u32 = 0x0080;
/// The device supports CAN FD.
pub const GS_CAN_FEATURE_FD: u32 = 0x0100;
/// The device needs the USB quirk for LPC546XX.
pub const GS_CAN_FEATURE_REQ_USB_QUIRK_LPC546XX: u32 = 0x0200;
/// The device supports the extended capability request.
pub const GS_CAN_FEATURE_BT_CONST_EXT: u32 = 0x0400;
/// The device supports termination control.
pub const GS_CAN_FEATURE_TERMINATION: u32 = 0x0800;
/// The device supports bus error reporting.
pub const GS_CAN_FEATURE_BERR_REPORTING: u32 = 0x1000;
/// The device supports the GET_STATE request.
pub const GS_CAN_FEATURE_GET_STATE: u32 = 0x2000;

// Flag bits and masks of a CAN identifier.

/// Extended frame format (29-bit identifier).
pub const CAN_EFF_FLAG: u32 = 0x8000_0000;
/// Remote transmission request.
pub const CAN_RTR_FLAG: u32 = 0x4000_0000;
/// Error message frame.
pub const CAN_ERR_FLAG: u32 = 0x2000_0000;
/// Mask of a standard (11-bit) identifier.
pub const CAN_SFF_MASK: u32 = 0x0000_07FF;
/// Mask of an extended (29-bit) identifier.
pub const CAN_EFF_MASK: u32 = 0x1FFF_FFFF;
/// Mask that leaves out the EFF, RTR and ERR flags.
pub const CAN_ERR_MASK: u32 = 0x1FFF_FFFF;
/// Number of bits in a standard identifier.
pub const CAN_SFF_ID_BITS: u8 = 11;
/// Number of bits in an extended identifier.
pub const CAN_EFF_ID_BITS: u8 = 29;

// Payload limits.

/// Largest data length code of classic CAN.
pub const CAN_MAX_DLC: u8 = 8;
/// Largest payload of classic CAN, in bytes.
pub const CAN_MAX_DLEN: usize = 8;
/// Largest data length code of CAN FD.
pub const CANFD_MAX_DLC: u8 = 15;
/// Largest payload of CAN FD, in bytes.
pub const CANFD_MAX_DLEN: usize = 64;

/// Payload length of each CAN FD data length code.
pub const CANFD_DLC_TO_LEN: [usize; 16] = [0, 1, 2, 3, 4, 5, 6, 7, 8, 12, 16, 20, 24, 32, 48, 64];

// Flags byte of a frame.

/// A receive overflow occurred.
pub const GS_CAN_FLAG_OVERFLOW: u8 = 0x01;
/// The frame is a CAN FD frame.
pub const GS_CAN_FLAG_FD: u8 = 0x02;
/// Bit rate switch: the data phase ran at the data bitrate.
pub const GS_CAN_FLAG_BRS: u8 = 0x04;
/// Error state indicator.
pub const GS_CAN_FLAG_ESI: u8 = 0x08;

// Frame layout.

/// Length of a CAN identifier on the wire, in bytes.
pub const CAN_IDLEN: usize = 4;
/// Length of the frame header: echo id, CAN id, dlc, channel, flags, reserved.
pub const GS_USB_FRAME_HEADER_SIZE: usize = 12;
/// Echo id of a frame that the host transmits.
pub const GS_USB_ECHO_ID: u32 = 0;
/// Echo id of a frame that the adapter received from the bus.
pub const GS_USB_RX_ECHO_ID: u32 = 0xFFFF_FFFF;
/// Size of a classic frame without timestamp.
pub const GS_USB_FRAME_SIZE: usize = 20;
/// Size of a classic frame with hardware timestamp.
pub const GS_USB_FRAME_SIZE_HW_TIMESTAMP: usize = 24;
/// Size of a CAN FD frame without timestamp.
pub const GS_USB_FRAME_SIZE_FD: usize = 76;
/// Size of a CAN FD frame with hardware timestamp.
pub const GS_USB_FRAME_SIZE_FD_HW_TIMESTAMP: usize = 80;

// CAN controller states, as GET_STATE reports them.

/// Normal operation.
pub const GS_CAN_STATE_ERROR_ACTIVE: u32 = 0;
/// An error counter is above 96.
pub const GS_CAN_STATE_ERROR_WARNING: u32 = 1;
/// An error counter is above 127.
pub const GS_CAN_STATE_ERROR_PASSIVE: u32 = 2;
/// The transmit error counter went above 255.
pub const GS_CAN_STATE_BUS_OFF: u32 = 3;
/// The device is stopped.
pub const GS_CAN_STATE_STOPPED: u32 = 4;
/// The device is sleeping.
pub const GS_CAN_STATE_SLEEPING: u32 = 5;

// USB vendor and product ids of the adapters that speak the protocol.

/// Vendor id of the generic GS-USB device.
pub const GS_USB_ID_VENDOR: u16 = 0x1D50;
/// Product id of the generic GS-USB device.
pub const GS_USB_ID_PRODUCT: u16 = 0x606F;
/// Vendor id of candleLight.
pub const GS_USB_CANDLELIGHT_VENDOR_ID: u16 = 0x1209;
/// Product id of candleLight.
pub const GS_USB_CANDLELIGHT_PRODUCT_ID: u16 = 0x2323;
/// Vendor id of CES CANext FD.
pub const GS_USB_CES_CANEXT_FD_VENDOR_ID: u16 = 0x1CD2;
/// Product id of CES CANext FD.
pub const GS_USB_CES_CANEXT_FD_PRODUCT_ID: u16 = 0x606F;
/// Vendor id of ABE CANdebugger FD.
pub const GS_USB_ABE_CANDEBUGGER_FD_VENDOR_ID: u16 = 0x16D0;
/// Product id of ABE CANdebugger FD.
pub const GS_USB_ABE_CANDEBUGGER_FD_PRODUCT_ID: u16 = 0x10B8;

// Control request codes.

/// Set the host byte order (legacy).
pub const GS_USB_BREQ_HOST_FORMAT: u8 = 0;
/// Set the nominal bit timing.
pub const GS_USB_BREQ_BITTIMING: u8 = 1;
/// Start or reset the channel.
pub const GS_USB_BREQ_MODE: u8 = 2;
/// Get bus errors.
pub const GS_USB_BREQ_BERR: u8 = 3;
/// Get the bit timing constants.
pub const GS_USB_BREQ_BT_CONST: u8 = 4;
/// Get the device configuration.
pub const GS_USB_BREQ_DEVICE_CONFIG: u8 = 5;
/// Get the timestamp.
pub const GS_USB_BREQ_TIMESTAMP: u8 = 6;
/// Identify the device.
pub const GS_USB_BREQ_IDENTIFY: u8 = 7;
/// Get the user id.
pub const GS_USB_BREQ_GET_USER_ID: u8 = 8;
/// Set the user id.
pub const GS_USB_BREQ_SET_USER_ID: u8 = 9;
/// Set the data phase bit timing.
pub const GS_USB_BREQ_DATA_BITTIMING: u8 = 10;
/// Get the extended bit timing constants.
pub const GS_USB_BREQ_BT_CONST_EXT: u8 = 11;
/// Set the termination.
pub const GS_USB_BREQ_SET_TERMINATION: u8 = 12;
/// Get the termination.
pub const GS_USB_BREQ_GET_TERMINATION: u8 = 13;
/// Get the CAN state.
pub const GS_USB_BREQ_GET_STATE: u8 = 14;

// Mode values of a MODE request.

/// Reset (stop) the channel.
pub const GS_CAN_MODE_RESET: u32 = 0;
/// Start the channel.
pub const GS_CAN_MODE_START: u32 = 1;

// USB endpoints.

/// Bulk OUT endpoint (host to device).
pub const GS_USB_ENDPOINT_OUT: u8 = 0x02;
/// Bulk IN endpoint (device to host).
pub const GS_USB_ENDPOINT_IN: u8 = 0x81;

/// Name of a CAN state as a sequence of characters; `UNKNOWN` for a value
/// that is no state.
pub open spec fn spec_can_state_name(state: u32) -> Seq<char> {
    if state == GS_CAN_STATE_ERROR_ACTIVE {
        "ERROR_ACTIVE"@
    } else if state == GS_CAN_STATE_ERROR_WARNING {
        "ERROR_WARNING"@
    } else if state == GS_CAN_STATE_ERROR_PASSIVE {
        "ERROR_PASSIVE"@
    } else if state == GS_CAN_STATE_BUS_OFF {
        "BUS_OFF"@
    } else if state == GS_CAN_STATE_STOPPED {
        "STOPPED"@
    } else if state == GS_CAN_STATE_SLEEPING {
        "SLEEPING"@
    } else {
        "UNKNOWN"@
    }
}

/// Human-readable name of a CAN state.
pub fn can_state_name(state: u32) -> (name: &'static str)
    ensures
        name@ == spec_can_state_name(state),
{
    match state {
        GS_CAN_STATE_ERROR_ACTIVE => "ERROR_ACTIVE",
        GS_CAN_STATE_ERROR_WARNING => "ERROR_WARNING",
        GS_CAN_STATE_ERROR_PASSIVE => "ERROR_PASSIVE",
        GS_CAN_STATE_BUS_OFF => "BUS_OFF",
        GS_CAN_STATE_STOPPED => "STOPPED",
        GS_CAN_STATE_SLEEPING => "SLEEPING",
        _ => "UNKNOWN",
    }
}

} // verus!

//! Host-side protocol logic for GS-USB CAN adapters such as candleLight and
//! CANable.
//!
//! The crate holds the three parts that must be exact: the bit timing
//! resolver, the frame codec, and the device session that sequences
//! capability discovery, feature negotiation, start, stop, send and read.
//! It performs no USB transfer itself. The session says which transfer comes
//! next, and takes the transport's answer; whoever owns the USB handle
//! performs it.

pub mod constants;
pub mod device;
pub mod error;
pub mod frame;
pub mod sequence;
pub mod structures;
pub mod timing;
pub mod transfer;
pub mod wire;

pub use constants::{
    CAN_EFF_FLAG, CAN_EFF_MASK, CAN_ERR_FLAG, CAN_ERR_MASK, CAN_RTR_FLAG, CAN_SFF_MASK,
    GS_CAN_FEATURE_BERR_REPORTING, GS_CAN_FEATURE_BT_CONST_EXT, GS_CAN_FEATURE_FD,
    GS_CAN_FEATURE_GET_STATE, GS_CAN_FEATURE_HW_TIMESTAMP, GS_CAN_FEATURE_IDENTIFY,
    GS_CAN_FEATURE_LISTEN_ONLY, GS_CAN_FEATURE_LOOP_BACK, GS_CAN_FEATURE_ONE_SHOT,
    GS_CAN_FEATURE_PAD_PKTS_TO_MAX_PKT_SIZE, GS_CAN_FEATURE_REQ_USB_QUIRK_LPC546XX,
    GS_CAN_FEATURE_TERMINATION, GS_CAN_FEATURE_TRIPLE_SAMPLE, GS_CAN_FEATURE_USER_ID,
    GS_CAN_FLAG_BRS, GS_CAN_FLAG_ESI, GS_CAN_FLAG_FD, GS_CAN_FLAG_OVERFLOW,
    GS_CAN_MODE_BERR_REPORTING, GS_CAN_MODE_FD, GS_CAN_MODE_HW_TIMESTAMP, GS_CAN_MODE_IDENTIFY,
    GS_CAN_MODE_LISTEN_ONLY, GS_CAN_MODE_LOOP_BACK, GS_CAN_MODE_NORMAL, GS_CAN_MODE_ONE_SHOT,
    GS_CAN_MODE_PAD_PKTS_TO_MAX_PKT_SIZE, GS_CAN_MODE_TRIPLE_SAMPLE, GS_CAN_MODE_USER_ID,
    GS_CAN_STATE_BUS_OFF, GS_CAN_STATE_ERROR_ACTIVE, GS_CAN_STATE_ERROR_PASSIVE,
    GS_CAN_STATE_ERROR_WARNING, GS_CAN_STATE_SLEEPING, GS_CAN_STATE_STOPPED,
};
pub use device::GsUsb;
pub use error::{GsUsbError, UsbError};
pub use frame::GsUsbFrame;
pub use structures::{DeviceBitTiming, DeviceCapability, DeviceInfo, DeviceMode, DeviceState};
pub use transfer::{AfterCommand, AfterFetch, Command, Fetch, Goal, Outcome, Step};

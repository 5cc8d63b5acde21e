//! Payloads of the control requests: mode, bit timing, device information,
//! capability and state.

use vstd::prelude::*;
use crate::constants::{
    can_state_name, spec_can_state_name, GS_CAN_STATE_BUS_OFF, GS_CAN_STATE_ERROR_ACTIVE,
    GS_CAN_STATE_ERROR_PASSIVE, GS_CAN_STATE_ERROR_WARNING,
};
use crate::wire::{read_u32_le, u32_at, u32_le, write_u32_le};

verus! {

/// Length of a device configuration response.
pub const DEVICE_INFO_SIZE: usize = 12;
/// Length of a capability response.
pub const DEVICE_CAPABILITY_SIZE: usize = 40;
/// Length of an extended capability response.
pub const DEVICE_CAPABILITY_EXT_SIZE: usize = 72;
/// Length of a state response.
pub const DEVICE_STATE_SIZE: usize = 12;

/// Payload of a MODE request, which starts or resets the channel.
#[derive(Debug, Clone, Copy, PartialEq, Eq)]
pub struct DeviceMode {
    /// 0 resets the channel, 1 starts it.
    pub mode: u32,
    /// Mode flags, a combination of the `GS_CAN_MODE_*` bits.
    pub flags: u32,
}

impl DeviceMode {
    /// The payload on the wire: mode, then flags.
    pub open spec fn spec_pack(self) -> Seq<u8> {
        u32_le(self.mode) + u32_le(self.flags)
    }

    /// A mode payload with the given mode value and flags.
    pub fn new(mode: u32, flags: u32) -> (m: Self)
        ensures
            m == (DeviceMode { mode, flags }),
    {
        Self { mode, flags }
    }

    /// Packs the payload for the wire.
    pub fn pack(&self) -> (buf: [u8; 8])
        ensures
            buf@ == self.spec_pack(),
    {
        let mut buf = [0u8;8];
        write_u32_le(&mut buf, 0, self.mode);
        write_u32_le(&mut buf, 4, self.flags);
        assert(buf@ =~= self.spec_pack());
        buf
    }
}

/// Bit timing of one phase: the segments of a bit period, the
/// synchronization jump width and the prescaler that divides the clock.
#[derive(Debug, Clone, Copy, PartialEq, Eq)]
pub struct DeviceBitTiming {
    /// Propagation segment.
    pub prop_seg: u32,
    /// Phase segment 1.
    pub phase_seg1: u32,
    /// Phase segment 2.
    pub phase_seg2: u32,
    /// Synchronization jump width.
    pub sjw: u32,
    /// Baud rate prescaler.
    pub brp: u32,
}

impl DeviceBitTiming {
    /// The payload on the wire: the five words in field order.
    pub open spec fn spec_pack(self) -> Seq<u8> {
        u32_le(self.prop_seg) + u32_le(self.phase_seg1) + u32_le(self.phase_seg2) + u32_le(
            self.sjw,
        ) + u32_le(self.brp)
    }

    /// Number of time quanta in one bit: the synchronization quantum and
    /// the three segments.
    pub open spec fn quanta_per_bit(self) -> int {
        1 + self.prop_seg + self.phase_seg1 + self.phase_seg2
    }

    /// A bit timing with the given values.
    pub fn new(prop_seg: u32, phase_seg1: u32, phase_seg2: u32, sjw: u32, brp: u32) -> (t: Self)
        ensures
            t == (DeviceBitTiming { prop_seg, phase_seg1, phase_seg2, sjw, brp }),
    {
        Self { prop_seg, phase_seg1, phase_seg2, sjw, brp }
    }

    /// Packs the payload for the wire.
    pub fn pack(&self) -> (buf: [u8; 20])
        ensures
            buf@ == self.spec_pack(),
    {
        let mut buf = [0u8;20];
        write_u32_le(&mut buf, 0, self.prop_seg);
        write_u32_le(&mut buf, 4, self.phase_seg1);
        write_u32_le(&mut buf, 8, self.phase_seg2);
        write_u32_le(&mut buf, 12, self.sjw);
        write_u32_le(&mut buf, 16, self.brp);
        assert(buf@ =~= self.spec_pack());
        buf
    }
}

/// Device configuration: channel count and versions.
#[derive(Debug, Clone, Copy, PartialEq, Eq)]
pub struct DeviceInfo {
    /// Reserved.
    pub reserved1: u8,
    /// Reserved.
    pub reserved2: u8,
    /// Reserved.
    pub reserved3: u8,
    /// Number of CAN channels minus one.
    pub icount: u8,
    /// Firmware version in tenths.
    pub fw_version: u32,
    /// Hardware version in tenths.
    pub hw_version: u32,
}

impl DeviceInfo {
    /// The configuration that the first twelve bytes of `data` encode.
    pub open spec fn spec_unpack(data: Seq<u8>) -> DeviceInfo
        recommends
            data.len() >= 12,
    {
        DeviceInfo {
            reserved1: data[0],
            reserved2: data[1],
            reserved3: data[2],
            icount: data[3],
            fw_version: u32_at(data, 4),
            hw_version: u32_at(data, 8),
        }
    }

    /// Unpacks a device configuration response.
    pub fn unpack(data: &[u8]) -> (info: Self)
        requires
            data@.len() >= 12,
        ensures
            info == Self::spec_unpack(data@),
    {
        Self {
            reserved1: data[0],
            reserved2: data[1],
            reserved3: data[2],
            icount: data[3],
            fw_version: read_u32_le(data, 4),
            hw_version: read_u32_le(data, 8),
        }
    }

    /// Number of CAN channels.
    pub fn channel_count(&self) -> (n: u8)
        requires
            self.icount < 255,
        ensures
            n == self.icount + 1,
    {
        self.icount + 1
    }
}

/// What the device can do: features, clock, and the bounds of the bit
/// timing registers. The data phase bounds are present once an extended
/// response was unpacked.
#[derive(Debug, Clone, Copy, PartialEq, Eq)]
pub struct DeviceCapability {
    /// Feature bits, a combination of the `GS_CAN_FEATURE_*` bits.
    pub feature: u32,
    /// CAN clock in Hz.
    pub fclk_can: u32,
    /// Smallest TSEG1.
    pub tseg1_min: u32,
    /// Largest TSEG1.
    pub tseg1_max: u32,
    /// Smallest TSEG2.
    pub tseg2_min: u32,
    /// Largest TSEG2.
    pub tseg2_max: u32,
    /// Largest SJW.
    pub sjw_max: u32,
    /// Smallest BRP.
    pub brp_min: u32,
    /// Largest BRP.
    pub brp_max: u32,
    /// BRP increment.
    pub brp_inc: u32,
    /// Smallest data phase TSEG1.
    pub dtseg1_min: Option<u32>,
    /// Largest data phase TSEG1.
    pub dtseg1_max: Option<u32>,
    /// Smallest data phase TSEG2.
    pub dtseg2_min: Option<u32>,
    /// Largest data phase TSEG2.
    pub dtseg2_max: Option<u32>,
    /// Largest data phase SJW.
    pub dsjw_max: Option<u32>,
    /// Smallest data phase BRP.
    pub dbrp_min: Option<u32>,
    /// Largest data phase BRP.
    pub dbrp_max: Option<u32>,
    /// Data phase BRP increment.
    pub dbrp_inc: Option<u32>,
}

impl DeviceCapability {
    /// The capability that the first forty bytes of `data` encode, without
    /// data phase bounds.
    pub open spec fn spec_unpack(data: Seq<u8>) -> DeviceCapability
        recommends
            data.len() >= 40,
    {
        DeviceCapability {
            feature: u32_at(data, 0),
            fclk_can: u32_at(data, 4),
            tseg1_min: u32_at(data, 8),
            tseg1_max: u32_at(data, 12),
            tseg2_min: u32_at(data, 16),
            tseg2_max: u32_at(data, 20),
            sjw_max: u32_at(data, 24),
            brp_min: u32_at(data, 28),
            brp_max: u32_at(data, 32),
            brp_inc: u32_at(data, 36),
            dtseg1_min: None,
            dtseg1_max: None,
            dtseg2_min: None,
            dtseg2_max: None,
            dsjw_max: None,
            dbrp_min: None,
            dbrp_max: None,
            dbrp_inc: None,
        }
    }

    /// The capability that the first seventy-two bytes of `data` encode:
    /// the nominal fields as in `spec_unpack`, then the data phase bounds.
    pub open spec fn spec_unpack_extended(data: Seq<u8>) -> DeviceCapability
        recommends
            data.len() >= 72,
    {
        DeviceCapability {
            dtseg1_min: Some(u32_at(data, 40)),
            dtseg1_max: Some(u32_at(data, 44)),
            dtseg2_min: Some(u32_at(data, 48)),
            dtseg2_max: Some(u32_at(data, 52)),
            dsjw_max: Some(u32_at(data, 56)),
            dbrp_min: Some(u32_at(data, 60)),
            dbrp_max: Some(u32_at(data, 64)),
            dbrp_inc: Some(u32_at(data, 68)),
            ..Self::spec_unpack(data)
        }
    }

    /// Whether the data phase bounds are present.
    pub open spec fn spec_has_fd_timing(self) -> bool {
        self.dtseg1_min is Some
    }

    /// Unpacks a capability response.
    pub fn unpack(data: &[u8]) -> (cap: Self)
        requires
            data@.len() >= 40,
        ensures
            cap == Self::spec_unpack(data@),
    {
        Self {
            feature: read_u32_le(data, 0),
            fclk_can: read_u32_le(data, 4),
            tseg1_min: read_u32_le(data, 8),
            tseg1_max: read_u32_le(data, 12),
            tseg2_min: read_u32_le(data, 16),
            tseg2_max: read_u32_le(data, 20),
            sjw_max: read_u32_le(data, 24),
            brp_min: read_u32_le(data, 28),
            brp_max: read_u32_le(data, 32),
            brp_inc: read_u32_le(data, 36),
            dtseg1_min: None,
            dtseg1_max: None,
            dtseg2_min: None,
            dtseg2_max: None,
            dsjw_max: None,
            dbrp_min: None,
            dbrp_max: None,
            dbrp_inc: None,
        }
    }

    /// Unpacks an extended capability response.
    pub fn unpack_extended(data: &[u8]) -> (cap: Self)
        requires
            data@.len() >= 72,
        ensures
            cap == Self::spec_unpack_extended(data@),
            cap.spec_has_fd_timing(),
    {
        let mut cap = Self::unpack(data);
        cap.dtseg1_min = Some(read_u32_le(data, 40));
        cap.dtseg1_max = Some(read_u32_le(data, 44));
        cap.dtseg2_min = Some(read_u32_le(data, 48));
        cap.dtseg2_max = Some(read_u32_le(data, 52));
        cap.dsjw_max = Some(read_u32_le(data, 56));
        cap.dbrp_min = Some(read_u32_le(data, 60));
        cap.dbrp_max = Some(read_u32_le(data, 64));
        cap.dbrp_inc = Some(read_u32_le(data, 68));
        cap
    }

    /// Whether the data phase bounds are present.
    pub fn has_fd_timing(&self) -> (b: bool)
        ensures
            b == self.spec_has_fd_timing(),
    {
        self.dtseg1_min.is_some()
    }
}

/// State of the CAN controller with its error counters.
#[derive(Debug, Clone, Copy, PartialEq, Eq)]
pub struct DeviceState {
    /// One of the `GS_CAN_STATE_*` values; other values pass through.
    pub state: u32,
    /// Receive error counter.
    pub rxerr: u32,
    /// Transmit error counter.
    pub txerr: u32,
}

impl DeviceState {
    /// The state that the first twelve bytes of `data` encode.
    pub open spec fn spec_unpack(data: Seq<u8>) -> DeviceState
        recommends
            data.len() >= 12,
    {
        DeviceState { state: u32_at(data, 0), rxerr: u32_at(data, 4), txerr: u32_at(data, 8) }
    }

    /// Unpacks a state response.
    pub fn unpack(data: &[u8]) -> (state: Self)
        requires
            data@.len() >= 12,
        ensures
            state == Self::spec_unpack(data@),
    {
        Self {
            state: read_u32_le(data, 0),
            rxerr: read_u32_le(data, 4),
            txerr: read_u32_le(data, 8),
        }
    }

    /// Human-readable name of the state.
    pub fn state_name(&self) -> (name: &'static str)
        ensures
            name@ == spec_can_state_name(self.state),
    {
        can_state_name(self.state)
    }

    /// Whether the controller is in normal operation.
    pub fn is_error_active(&self) -> (b: bool)
        ensures
            b == (self.state == GS_CAN_STATE_ERROR_ACTIVE),
    {
        self.state == GS_CAN_STATE_ERROR_ACTIVE
    }

    /// Whether the controller is in the error warning state.
    pub fn is_error_warning(&self) -> (b: bool)
        ensures
            b == (self.state == GS_CAN_STATE_ERROR_WARNING),
    {
        self.state == GS_CAN_STATE_ERROR_WARNING
    }

    /// Whether the controller is in the error passive state.
    pub fn is_error_passive(&self) -> (b: bool)
        ensures
            b == (self.state == GS_CAN_STATE_ERROR_PASSIVE),
    {
        self.state == GS_CAN_STATE_ERROR_PASSIVE
    }

    /// Whether the controller went bus-off.
    pub fn is_bus_off(&self) -> (b: bool)
        ensures
            b == (self.state == GS_CAN_STATE_BUS_OFF),
    {
        self.state == GS_CAN_STATE_BUS_OFF
    }
}

} // verus!

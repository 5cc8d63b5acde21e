//! CAN frames as the adapter sends and receives them: the data length code,
//! the frame itself, and its fixed little-endian layout on the wire.

use vstd::prelude::*;
use vstd::slice::slice_subrange;
use crate::constants::{
    CANFD_DLC_TO_LEN, CANFD_MAX_DLC, CANFD_MAX_DLEN, CAN_EFF_FLAG, CAN_EFF_MASK, CAN_ERR_FLAG,
    CAN_MAX_DLEN, CAN_RTR_FLAG, GS_CAN_FLAG_BRS, GS_CAN_FLAG_FD, GS_USB_ECHO_ID,
    GS_USB_FRAME_HEADER_SIZE, GS_USB_FRAME_SIZE, GS_USB_FRAME_SIZE_FD,
    GS_USB_FRAME_SIZE_FD_HW_TIMESTAMP, GS_USB_FRAME_SIZE_HW_TIMESTAMP, GS_USB_RX_ECHO_ID,
};
use crate::wire::{lemma_u32_at_concat, push_u32_le, read_u32_le, u32_at, u32_le};

verus! {

/// Payload length that a data length code stands for: on a classic frame
/// the code itself, at most 8; on a CAN FD frame the table entry of the
/// code, and 64 for a code beyond the table.
pub open spec fn spec_dlc_to_len(dlc: u8, fd: bool) -> int {
    if fd {
        if dlc < 16 {
            CANFD_DLC_TO_LEN@[dlc as int] as int
        } else {
            64
        }
    } else if dlc <= 8 {
        dlc as int
    } else {
        8
    }
}

/// First data length code from `from` on whose table entry is at least
/// `length`; 15 where there is none.
pub open spec fn fd_dlc_from(length: int, from: int) -> int
    decreases 15 - from,
{
    if from >= 15 {
        15
    } else if CANFD_DLC_TO_LEN@[from] >= length {
        from
    } else {
        fd_dlc_from(length, from + 1)
    }
}

/// Data length code of a payload length: on a classic frame the length
/// itself, at most 8; on a CAN FD frame the smallest code whose table entry
/// is at least the length, and 15 where the length is beyond 64.
pub open spec fn spec_len_to_dlc(length: int, fd: bool) -> int {
    if fd {
        fd_dlc_from(length, 0)
    } else if length <= 8 {
        length
    } else {
        8
    }
}

/// Number of payload bytes on the wire in each format.
pub open spec fn wire_payload_len(fd_mode: bool) -> int {
    if fd_mode {
        64
    } else {
        8
    }
}

/// Size of a frame on the wire: header, payload area, and the timestamp
/// where there is one.
pub open spec fn spec_frame_size(hw_timestamp: bool, fd_mode: bool) -> int {
    12 + wire_payload_len(fd_mode) + if hw_timestamp {
        4int
    } else {
        0int
    }
}

/// The payload area of a frame built from `data`: the first bytes of
/// `data`, as many as the format takes, then zeros.
pub open spec fn stored_payload(data: Seq<u8>, fd: bool) -> Seq<u8> {
    Seq::new(
        64,
        |i: int|
            if i < data.len() && i < wire_payload_len(fd) {
                data[i]
            } else {
                0u8
            },
    )
}

/// The data length code is the smallest one whose payload length holds
/// `length` bytes, for every length up to 64; beyond that it is 15.
pub proof fn lemma_fd_dlc_is_smallest(length: int)
    requires
        0 <= length,
    ensures
        0 <= spec_len_to_dlc(length, true) <= 15,
        length <= 64 ==> spec_dlc_to_len(spec_len_to_dlc(length, true) as u8, true) >= length,
        forall|d: u8| d < spec_len_to_dlc(length, true) ==> spec_dlc_to_len(d, true) < length,
        length > 64 ==> spec_len_to_dlc(length, true) == 15,
{
    reveal_with_fuel(fd_dlc_from, 16);
}

/// Converts a data length code to the payload length in bytes.
pub fn dlc_to_len(dlc: u8, fd: bool) -> (len: usize)
    ensures
        len == spec_dlc_to_len(dlc, fd),
        len <= 64,
        !fd ==> len == vstd::math::min(dlc as int, 8),
        fd && dlc >= 16 ==> len == 64,
{
    if fd {
        if (dlc as usize) < CANFD_DLC_TO_LEN.len() {
            CANFD_DLC_TO_LEN[dlc as usize]
        } else {
            CANFD_MAX_DLEN
        }
    } else if dlc as usize <= CAN_MAX_DLEN {
        dlc as usize
    } else {
        CAN_MAX_DLEN
    }
}

/// Converts a payload length in bytes to the data length code.
pub fn len_to_dlc(length: usize, fd: bool) -> (dlc: u8)
    ensures
        dlc == spec_len_to_dlc(length as int, fd),
        !fd ==> dlc == vstd::math::min(length as int, 8),
        fd ==> dlc <= 15,
        fd && length <= 64 ==> spec_dlc_to_len(dlc, true) >= length,
        fd ==> forall|d: u8| d < dlc ==> spec_dlc_to_len(d, true) < length,
        fd && length > 64 ==> dlc == 15,
{
    if fd {
        proof {
            lemma_fd_dlc_is_smallest(length as int);
        }
        let mut dlc: u8 = 0;
        while dlc < CANFD_MAX_DLC
            invariant
                fd,
                dlc <= 15,
                fd_dlc_from(length as int, 0) == fd_dlc_from(length as int, dlc as int),
            decreases 15 - dlc,
        {
            if CANFD_DLC_TO_LEN[dlc as usize] >= length {
                proof {
                    lemma_fd_dlc_is_smallest(length as int);
                }
                return dlc;
            }
            dlc = dlc + 1;
        }
        dlc
    } else if length <= CAN_MAX_DLEN {
        length as u8
    } else {
        CAN_MAX_DLEN as u8
    }
}

/// A CAN frame in the form the adapter exchanges with the host.
#[derive(Debug, Clone, PartialEq, Eq)]
pub struct GsUsbFrame {
    /// Echo id: 0 on a frame to transmit, `0xFFFF_FFFF` on a frame received
    /// from the bus.
    pub echo_id: u32,
    /// CAN identifier, merged with the EFF, RTR and ERR flag bits.
    pub can_id: u32,
    /// Data length code.
    pub can_dlc: u8,
    /// CAN channel.
    pub channel: u8,
    /// Frame flags, a combination of the `GS_CAN_FLAG_*` bits.
    pub flags: u8,
    /// Reserved.
    pub reserved: u8,
    /// Payload area; the bytes beyond the payload length are padding.
    pub data: [u8; 64],
    /// Hardware timestamp in microseconds.
    pub timestamp_us: u32,
}

/// A frame as a mathematical value: the fields of `GsUsbFrame`, with the
/// payload area as a sequence of 64 bytes.
pub struct FrameView {
    pub echo_id: u32,
    pub can_id: u32,
    pub can_dlc: u8,
    pub channel: u8,
    pub flags: u8,
    pub reserved: u8,
    pub data: Seq<u8>,
    pub timestamp_us: u32,
}

impl View for GsUsbFrame {
    type V = FrameView;

    open spec fn view(&self) -> FrameView {
        FrameView {
            echo_id: self.echo_id,
            can_id: self.can_id,
            can_dlc: self.can_dlc,
            channel: self.channel,
            flags: self.flags,
            reserved: self.reserved,
            data: self.data@,
            timestamp_us: self.timestamp_us,
        }
    }
}

impl FrameView {
    /// The payload area has its 64 bytes.
    pub open spec fn wf(self) -> bool {
        self.data.len() == 64
    }

    /// The empty frame to transmit: every field zero.
    pub open spec fn empty() -> FrameView {
        FrameView {
            echo_id: 0,
            can_id: 0,
            can_dlc: 0,
            channel: 0,
            flags: 0,
            reserved: 0,
            data: stored_payload(Seq::empty(), true),
            timestamp_us: 0,
        }
    }

    /// The frame to transmit with the given identifier, flags and payload.
    pub open spec fn with_payload(can_id: u32, flags: u8, data: Seq<u8>, fd: bool) -> FrameView {
        FrameView {
            can_id,
            flags,
            can_dlc: spec_len_to_dlc(data.len() as int, fd) as u8,
            data: stored_payload(data, fd),
            ..Self::empty()
        }
    }

    /// The identifier without the flag bits.
    pub open spec fn arbitration_id(self) -> u32 {
        self.can_id & CAN_EFF_MASK
    }

    /// Whether the identifier is an extended (29-bit) one.
    pub open spec fn is_extended_id(self) -> bool {
        self.can_id & CAN_EFF_FLAG != 0
    }

    /// Whether the frame is a remote transmission request.
    pub open spec fn is_remote_frame(self) -> bool {
        self.can_id & CAN_RTR_FLAG != 0
    }

    /// Whether the frame is an error frame.
    pub open spec fn is_error_frame(self) -> bool {
        self.can_id & CAN_ERR_FLAG != 0
    }

    /// Whether the frame is a CAN FD frame.
    pub open spec fn is_fd(self) -> bool {
        self.flags & GS_CAN_FLAG_FD != 0
    }

    /// Whether the bit rate switch is set.
    pub open spec fn is_brs(self) -> bool {
        self.flags & GS_CAN_FLAG_BRS != 0
    }

    /// Whether the adapter received the frame from the bus: the echo id is
    /// the receive sentinel.
    pub open spec fn is_rx_frame(self) -> bool {
        self.echo_id == GS_USB_RX_ECHO_ID
    }

    /// Whether the frame confirms a transmission: the echo id is anything
    /// but the receive sentinel.
    pub open spec fn is_echo_frame(self) -> bool {
        self.echo_id != GS_USB_RX_ECHO_ID
    }

    /// Payload length that the data length code and the frame type imply.
    pub open spec fn payload_len(self) -> int {
        spec_dlc_to_len(self.can_dlc, self.is_fd())
    }

    /// The payload: the first `payload_len` bytes of the payload area.
    pub open spec fn payload(self) -> Seq<u8> {
        self.data.subrange(0, self.payload_len())
    }

    /// The twelve header bytes: echo id, CAN id, dlc, channel, flags,
    /// reserved.
    pub open spec fn header(self) -> Seq<u8> {
        u32_le(self.echo_id) + u32_le(self.can_id) + seq![
            self.can_dlc,
            self.channel,
            self.flags,
            self.reserved,
        ]
    }

    /// The frame on the wire: the header, the first 8 or 64 bytes of the
    /// payload area, and the timestamp where the format has one.
    pub open spec fn pack(self, hw_timestamp: bool, fd_mode: bool) -> Seq<u8> {
        self.header() + self.data.subrange(0, wire_payload_len(fd_mode)) + if hw_timestamp {
            u32_le(self.timestamp_us)
        } else {
            Seq::<u8>::empty()
        }
    }

    /// The payload area that `bytes` carries: what follows the header, as
    /// far as the format's payload area and the bytes go, then zeros.
    pub open spec fn unpacked_payload(bytes: Seq<u8>, fd_mode: bool) -> Seq<u8> {
        Seq::new(
            64,
            |i: int|
                if i < wire_payload_len(fd_mode) && 12 + i < bytes.len() {
                    bytes[12 + i]
                } else {
                    0u8
                },
        )
    }

    /// The frame that `bytes` carries. The timestamp is read where one is
    /// asked for and the bytes reach to its end; otherwise it is zero.
    pub open spec fn unpack(bytes: Seq<u8>, hw_timestamp: bool, fd_mode: bool) -> FrameView
        recommends
            bytes.len() >= 12,
    {
        FrameView {
            echo_id: u32_at(bytes, 0),
            can_id: u32_at(bytes, 4),
            can_dlc: bytes[8],
            channel: bytes[9],
            flags: bytes[10],
            reserved: bytes[11],
            data: Self::unpacked_payload(bytes, fd_mode),
            timestamp_us: if hw_timestamp && bytes.len() >= 12 + wire_payload_len(fd_mode) + 4 {
                u32_at(bytes, 12 + wire_payload_len(fd_mode))
            } else {
                0
            },
        }
    }

    /// What survives a trip over the wire in a given format: everything,
    /// but the payload area beyond the format's bytes, which comes back as
    /// zeros, and the timestamp where the format has none.
    pub open spec fn on_wire(self, hw_timestamp: bool, fd_mode: bool) -> FrameView {
        FrameView {
            data: Seq::new(
                64,
                |i: int|
                    if i < wire_payload_len(fd_mode) {
                        self.data[i]
                    } else {
                        0u8
                    },
            ),
            timestamp_us: if hw_timestamp {
                self.timestamp_us
            } else {
                0
            },
            ..self
        }
    }
}

/// Unpacking what was packed, in the same format, gives back the frame as
/// far as the format carries it.
pub proof fn lemma_unpack_pack(f: FrameView, hw_timestamp: bool, fd_mode: bool)
    requires
        f.wf(),
    ensures
        f.pack(hw_timestamp, fd_mode).len() == spec_frame_size(hw_timestamp, fd_mode),
        FrameView::unpack(f.pack(hw_timestamp, fd_mode), hw_timestamp, fd_mode) == f.on_wire(
            hw_timestamp,
            fd_mode,
        ),
{
    let n = wire_payload_len(fd_mode);
    let area = f.data.subrange(0, n);
    let stamp = if hw_timestamp {
        u32_le(f.timestamp_us)
    } else {
        Seq::<u8>::empty()
    };
    let bytes = f.pack(hw_timestamp, fd_mode);
    let tail = seq![f.can_dlc, f.channel, f.flags, f.reserved] + area + stamp;
    assert(bytes =~= Seq::<u8>::empty() + u32_le(f.echo_id) + (u32_le(f.can_id) + tail));
    lemma_u32_at_concat(Seq::<u8>::empty(), f.echo_id, u32_le(f.can_id) + tail);
    assert(bytes =~= u32_le(f.echo_id) + u32_le(f.can_id) + tail);
    lemma_u32_at_concat(u32_le(f.echo_id), f.can_id, tail);
    if hw_timestamp {
        assert(bytes =~= (f.header() + area) + u32_le(f.timestamp_us) + Seq::<u8>::empty());
        lemma_u32_at_concat(f.header() + area, f.timestamp_us, Seq::<u8>::empty());
    }
    let g = FrameView::unpack(bytes, hw_timestamp, fd_mode);
    assert(g.data =~= f.on_wire(hw_timestamp, fd_mode).data);
}

/// A frame whose payload fits the format comes back from the wire with the
/// same identifier, flags, data length code, payload length and payload
/// bytes: in the CAN FD format every frame does, in the classic format a
/// frame of at most 8 payload bytes.
pub proof fn lemma_pack_unpack_roundtrip(f: FrameView, hw_timestamp: bool, fd_mode: bool)
    requires
        f.wf(),
        f.payload_len() <= wire_payload_len(fd_mode),
    ensures
        ({
            let g = FrameView::unpack(f.pack(hw_timestamp, fd_mode), hw_timestamp, fd_mode);
            &&& g.wf()
            &&& g.echo_id == f.echo_id
            &&& g.can_id == f.can_id
            &&& g.can_dlc == f.can_dlc
            &&& g.channel == f.channel
            &&& g.flags == f.flags
            &&& g.payload_len() == f.payload_len()
            &&& g.payload() == f.payload()
            &&& hw_timestamp ==> g.timestamp_us == f.timestamp_us
        }),
{
    lemma_unpack_pack(f, hw_timestamp, fd_mode);
    let g = FrameView::unpack(f.pack(hw_timestamp, fd_mode), hw_timestamp, fd_mode);
    assert(g.payload() =~= f.payload());
}

/// Every frame is either a frame received from the bus or an echo of a
/// transmission, never both; it is a received frame exactly when its echo
/// id is `0xFFFF_FFFF`.
pub proof fn lemma_rx_or_echo(f: FrameView)
    ensures
        f.is_rx_frame() <==> f.echo_id == 0xFFFF_FFFFu32,
        f.is_echo_frame() <==> !f.is_rx_frame(),
{
}

impl Default for GsUsbFrame {
    fn default() -> (f: Self)
        ensures
            f@ == FrameView::empty(),
    {
        Self::new()
    }
}

impl GsUsbFrame {
    /// An empty frame to transmit.
    pub fn new() -> (f: Self)
        ensures
            f@ == FrameView::empty(),
    {
        let f = Self {
            echo_id: GS_USB_ECHO_ID,
            can_id: 0,
            can_dlc: 0,
            channel: 0,
            flags: 0,
            reserved: 0,
            data: [0u8;64],
            timestamp_us: 0,
        };
        assert(f@.data =~= stored_payload(Seq::empty(), true));
        f
    }

    /// A classic frame with the given identifier and payload. The
    /// identifier carries the EFF, RTR and ERR flag bits where they are
    /// wanted. Of a payload longer than 8 bytes the first 8 are taken.
    pub fn with_data(can_id: u32, data: &[u8]) -> (f: Self)
        ensures
            f@ == FrameView::with_payload(can_id, 0, data@, false),
            !f@.is_fd(),
            !f@.is_brs(),
    {
        let mut frame = Self::new();
        frame.can_id = can_id;
        frame.set_data(data, false);
        assert(0u8 & 2u8 == 0 && 0u8 & 4u8 == 0) by (bit_vector);
        frame
    }

    /// A CAN FD frame with the given identifier and payload, with the bit
    /// rate switch where `brs` is set. Of a payload longer than 64 bytes
    /// the first 64 are taken.
    pub fn with_fd_data(can_id: u32, data: &[u8], brs: bool) -> (f: Self)
        ensures
            f@ == FrameView::with_payload(
                can_id,
                if brs {
                    GS_CAN_FLAG_FD | GS_CAN_FLAG_BRS
                } else {
                    GS_CAN_FLAG_FD
                },
                data@,
                true,
            ),
            f@.is_fd(),
            f@.is_brs() == brs,
    {
        let mut frame = Self::new();
        frame.can_id = can_id;
        frame.flags = frame.flags | GS_CAN_FLAG_FD;
        if brs {
            frame.flags = frame.flags | GS_CAN_FLAG_BRS;
        }
        frame.set_data(data, true);
        assert(0u8 | 2u8 == 2 && 2u8 | 4u8 == 6 && 2u8 & 2u8 != 0 && 6u8 & 2u8 != 0 && 2u8 & 4u8
            == 0 && 6u8 & 4u8 != 0) by (bit_vector);
        frame
    }

    /// Replaces the payload area and sets the data length code to match the
    /// length of `data`.
    fn set_data(&mut self, data: &[u8], fd: bool)
        ensures
            final(self)@ == (FrameView {
                can_dlc: spec_len_to_dlc(data@.len() as int, fd) as u8,
                data: stored_payload(data@, fd),
                ..old(self)@
            }),
    {
        let max_len: usize = if fd {
            CANFD_MAX_DLEN
        } else {
            CAN_MAX_DLEN
        };
        let data_len: usize = if data.len() < max_len {
            data.len()
        } else {
            max_len
        };
        let mut area = [0u8;64];
        let mut i: usize = 0;
        while i < data_len
            invariant
                i <= data_len,
                data_len <= 64,
                data_len <= data@.len(),
                area@.len() == 64,
                forall|j: int| 0 <= j < i ==> area@[j] == data@[j],
                forall|j: int| i <= j < 64 ==> area@[j] == 0u8,
            decreases data_len - i,
        {
            area[i] = data[i];
            i = i + 1;
        }
        self.data = area;
        self.can_dlc = len_to_dlc(data.len(), fd);
        assert(self@.data =~= stored_payload(data@, fd));
    }

    /// The identifier without the flag bits.
    pub fn arbitration_id(&self) -> (id: u32)
        ensures
            id == self@.arbitration_id(),
    {
        self.can_id & CAN_EFF_MASK
    }

    /// Whether the identifier is an extended (29-bit) one.
    pub fn is_extended_id(&self) -> (b: bool)
        ensures
            b == self@.is_extended_id(),
    {
        (self.can_id & CAN_EFF_FLAG) != 0
    }

    /// Whether the frame is a remote transmission request.
    pub fn is_remote_frame(&self) -> (b: bool)
        ensures
            b == self@.is_remote_frame(),
    {
        (self.can_id & CAN_RTR_FLAG) != 0
    }

    /// Whether the frame is an error frame.
    pub fn is_error_frame(&self) -> (b: bool)
        ensures
            b == self@.is_error_frame(),
    {
        (self.can_id & CAN_ERR_FLAG) != 0
    }

    /// Whether the frame is a CAN FD frame.
    pub fn is_fd(&self) -> (b: bool)
        ensures
            b == self@.is_fd(),
    {
        (self.flags & GS_CAN_FLAG_FD) != 0
    }

    /// Whether the bit rate switch is set.
    pub fn is_brs(&self) -> (b: bool)
        ensures
            b == self@.is_brs(),
    {
        (self.flags & GS_CAN_FLAG_BRS) != 0
    }

    /// Whether the frame confirms a transmission. Every frame that is not a
    /// received frame counts as one, whatever its echo id.
    pub fn is_echo_frame(&self) -> (b: bool)
        ensures
            b == self@.is_echo_frame(),
            b == (self.echo_id != 0xFFFF_FFFFu32),
            b == !self@.is_rx_frame(),
    {
        self.echo_id != GS_USB_RX_ECHO_ID
    }

    /// Whether the adapter received the frame from the bus.
    pub fn is_rx_frame(&self) -> (b: bool)
        ensures
            b == self@.is_rx_frame(),
            b == (self.echo_id == 0xFFFF_FFFFu32),
            b == !self@.is_echo_frame(),
    {
        self.echo_id == GS_USB_RX_ECHO_ID
    }

    /// Payload length that the data length code and the frame type imply.
    pub fn data_length(&self) -> (len: usize)
        ensures
            len == self@.payload_len(),
            len <= 64,
    {
        dlc_to_len(self.can_dlc, self.is_fd())
    }

    /// The payload: the first `data_length` bytes of the payload area.
    pub fn data(&self) -> (payload: &[u8])
        ensures
            payload@ == self@.payload(),
    {
        slice_subrange(self.data.as_slice(), 0, self.data_length())
    }

    /// Size in bytes of a frame on the wire in the given format.
    pub fn frame_size(hw_timestamp: bool, fd_mode: bool) -> (size: usize)
        ensures
            size == spec_frame_size(hw_timestamp, fd_mode),
            size == 20 || size == 24 || size == 76 || size == 80,
    {
        match (fd_mode, hw_timestamp) {
            (true, true) => GS_USB_FRAME_SIZE_FD_HW_TIMESTAMP,
            (true, false) => GS_USB_FRAME_SIZE_FD,
            (false, true) => GS_USB_FRAME_SIZE_HW_TIMESTAMP,
            (false, false) => GS_USB_FRAME_SIZE,
        }
    }

    /// Packs the frame for the wire. `hw_timestamp` appends the timestamp
    /// field; `fd_mode` selects the CAN FD format with its 64-byte payload
    /// area.
    pub fn pack(&self, hw_timestamp: bool, fd_mode: bool) -> (bytes: Vec<u8>)
        ensures
            bytes@ == self@.pack(hw_timestamp, fd_mode),
            bytes@.len() == spec_frame_size(hw_timestamp, fd_mode),
    {
        let data_len: usize = if fd_mode {
            CANFD_MAX_DLEN
        } else {
            CAN_MAX_DLEN
        };
        let size = Self::frame_size(hw_timestamp, fd_mode);
        let mut buf: Vec<u8> = Vec::with_capacity(size);
        push_u32_le(&mut buf, self.echo_id);
        push_u32_le(&mut buf, self.can_id);
        buf.push(self.can_dlc);
        buf.push(self.channel);
        buf.push(self.flags);
        buf.push(self.reserved);
        assert(buf@ =~= self@.header());
        let mut i: usize = 0;
        while i < data_len
            invariant
                i <= data_len,
                data_len == wire_payload_len(fd_mode),
                buf@ == self@.header() + self.data@.subrange(0, i as int),
            decreases data_len - i,
        {
            buf.push(self.data[i]);
            i = i + 1;
            assert(buf@ =~= self@.header() + self.data@.subrange(0, i as int));
        }
        if hw_timestamp {
            push_u32_le(&mut buf, self.timestamp_us);
        }
        assert(buf@ =~= self@.pack(hw_timestamp, fd_mode));
        buf
    }

    /// Unpacks received bytes into this frame, replacing every field.
    /// `hw_timestamp` says that the bytes end in a timestamp; `fd_mode`
    /// that they are in the CAN FD format. Bytes that stop short of the
    /// payload area or the timestamp leave zeros there.
    pub fn unpack_from(&mut self, data: &[u8], hw_timestamp: bool, fd_mode: bool)
        requires
            data@.len() >= 12,
        ensures
            final(self)@ == FrameView::unpack(data@, hw_timestamp, fd_mode),
    {
        self.echo_id = read_u32_le(data, 0);
        self.can_id = read_u32_le(data, 4);
        self.can_dlc = data[8];
        self.channel = data[9];
        self.flags = data[10];
        self.reserved = data[11];

        let data_len: usize = if fd_mode {
            CANFD_MAX_DLEN
        } else {
            CAN_MAX_DLEN
        };
        let available: usize = data.len() - GS_USB_FRAME_HEADER_SIZE;
        let copy_len: usize = if data_len < available {
            data_len
        } else {
            available
        };
        let mut area = [0u8;64];
        let mut i: usize = 0;
        while i < copy_len
            invariant
                i <= copy_len,
                copy_len <= 64,
                12 + copy_len <= data@.len(),
                area@.len() == 64,
                forall|j: int| 0 <= j < i ==> area@[j] == data@[12 + j],
                forall|j: int| i <= j < 64 ==> area@[j] == 0u8,
            decreases copy_len - i,
        {
            area[i] = data[GS_USB_FRAME_HEADER_SIZE + i];
            i = i + 1;
        }
        self.data = area;
        assert(self@.data =~= FrameView::unpacked_payload(data@, fd_mode));

        if hw_timestamp && data.len() - GS_USB_FRAME_HEADER_SIZE >= data_len + 4 {
            self.timestamp_us = read_u32_le(data, GS_USB_FRAME_HEADER_SIZE + data_len);
        } else {
            self.timestamp_us = 0;
        }
    }

    /// The frame that received bytes carry; see `unpack_from`.
    pub fn from_bytes(data: &[u8], hw_timestamp: bool, fd_mode: bool) -> (f: Self)
        requires
            data@.len() >= 12,
        ensures
            f@ == FrameView::unpack(data@, hw_timestamp, fd_mode),
    {
        let mut frame = Self::new();
        frame.unpack_from(data, hw_timestamp, fd_mode);
        frame
    }
}

} // verus!

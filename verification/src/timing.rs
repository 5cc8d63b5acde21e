//! Bit timing resolver.
//!
//! A bitrate is turned into register values by exact lookup in tables of
//! values that were validated on real devices. A table belongs to one clock
//! and one sample point; nothing is interpolated or computed, and whatever
//! the tables do not hold is refused.

use vstd::prelude::*;
use crate::error::GsUsbError;
use crate::structures::DeviceBitTiming;

verus! {

/// Sample point of the nominal phase, in tenths of a percent.
pub const NOMINAL_SAMPLE_POINT_TENTHS: u32 = 875;
/// Sample point of the data phase, in tenths of a percent.
pub const DATA_SAMPLE_POINT_TENTHS: u32 = 750;

/// The nominal phase table of a clock and a sample point: for each bitrate
/// it holds, the values of phase segment 1, phase segment 2 and the
/// prescaler. Empty for a clock or sample point that has no table.
pub open spec fn nominal_table(clock_hz: u32, sample_point_tenths: u32) -> Map<
    u32,
    (u32, u32, u32),
> {
    if clock_hz == 48_000_000 && sample_point_tenths == 875 {
        map![
            10_000u32 => (12u32, 2u32, 300u32),
            20_000u32 => (12u32, 2u32, 150u32),
            50_000u32 => (12u32, 2u32, 60u32),
            100_000u32 => (12u32, 2u32, 30u32),
            125_000u32 => (12u32, 2u32, 24u32),
            250_000u32 => (12u32, 2u32, 12u32),
            500_000u32 => (12u32, 2u32, 6u32),
            800_000u32 => (11u32, 2u32, 4u32),
            1_000_000u32 => (12u32, 2u32, 3u32),
        ]
    } else if clock_hz == 80_000_000 && sample_point_tenths == 875 {
        map![
            10_000u32 => (12u32, 2u32, 500u32),
            20_000u32 => (12u32, 2u32, 250u32),
            50_000u32 => (12u32, 2u32, 100u32),
            100_000u32 => (12u32, 2u32, 50u32),
            125_000u32 => (12u32, 2u32, 40u32),
            250_000u32 => (12u32, 2u32, 20u32),
            500_000u32 => (12u32, 2u32, 10u32),
            800_000u32 => (7u32, 1u32, 10u32),
            1_000_000u32 => (12u32, 2u32, 5u32),
        ]
    } else if clock_hz == 40_000_000 && sample_point_tenths == 875 {
        map![
            10_000u32 => (12u32, 2u32, 250u32),
            20_000u32 => (12u32, 2u32, 125u32),
            50_000u32 => (12u32, 2u32, 50u32),
            100_000u32 => (12u32, 2u32, 25u32),
            125_000u32 => (12u32, 2u32, 20u32),
            250_000u32 => (12u32, 2u32, 10u32),
            500_000u32 => (12u32, 2u32, 5u32),
            800_000u32 => (7u32, 1u32, 5u32),
            1_000_000u32 => (5u32, 1u32, 5u32),
        ]
    } else {
        Map::empty()
    }
}

/// The data phase table of a clock and a sample point, laid out as the
/// nominal one.
pub open spec fn data_table(clock_hz: u32, sample_point_tenths: u32) -> Map<u32, (u32, u32, u32)> {
    if clock_hz == 80_000_000 && sample_point_tenths == 750 {
        map![
            2_000_000u32 => (4u32, 2u32, 5u32),
            4_000_000u32 => (1u32, 1u32, 5u32),
            5_000_000u32 => (4u32, 2u32, 2u32),
            8_000_000u32 => (2u32, 1u32, 2u32),
        ]
    } else if clock_hz == 40_000_000 && sample_point_tenths == 750 {
        map![
            2_000_000u32 => (6u32, 2u32, 2u32),
            4_000_000u32 => (2u32, 1u32, 2u32),
            5_000_000u32 => (4u32, 2u32, 1u32),
            8_000_000u32 => (2u32, 1u32, 1u32),
            10_000_000u32 => (1u32, 1u32, 1u32),
        ]
    } else {
        Map::empty()
    }
}

/// The timing that a table row stands for: propagation segment and
/// synchronization jump width are always 1.
pub open spec fn timing_of_row(row: (u32, u32, u32)) -> DeviceBitTiming {
    DeviceBitTiming { prop_seg: 1, phase_seg1: row.0, phase_seg2: row.1, sjw: 1, brp: row.2 }
}

/// Nominal phase timing of a bitrate: the row of the table that belongs to
/// the clock and the sample point, or `UnsupportedBitrate` where there is
/// no such table or no such row.
pub open spec fn spec_resolve(clock_hz: u32, bitrate: u32, sample_point_tenths: u32) -> Result<
    DeviceBitTiming,
    GsUsbError,
> {
    let table = nominal_table(clock_hz, sample_point_tenths);
    if table.dom().contains(bitrate) {
        Ok(timing_of_row(table[bitrate]))
    } else {
        Err(GsUsbError::UnsupportedBitrate { bitrate, clock_hz })
    }
}

/// Data phase timing of a bitrate: the row of the table that belongs to the
/// clock and the sample point, or `UnsupportedDataBitrate` where there is
/// no such table or no such row.
pub open spec fn spec_resolve_data(
    clock_hz: u32,
    bitrate: u32,
    sample_point_tenths: u32,
) -> Result<DeviceBitTiming, GsUsbError> {
    let table = data_table(clock_hz, sample_point_tenths);
    if table.dom().contains(bitrate) {
        Ok(timing_of_row(table[bitrate]))
    } else {
        Err(GsUsbError::UnsupportedDataBitrate { bitrate, clock_hz })
    }
}

/// Resolves a nominal bitrate to register values for a device clock and a
/// sample point given in tenths of a percent.
pub fn resolve(clock_hz: u32, bitrate: u32, sample_point_tenths: u32) -> (r: Result<
    DeviceBitTiming,
    GsUsbError,
>)
    ensures
        r == spec_resolve(clock_hz, bitrate, sample_point_tenths),
{
    let row: Option<(u32, u32, u32)> = match (clock_hz, sample_point_tenths) {
        (48_000_000, 875) => match bitrate {
            10_000 => Some((12, 2, 300)),
            20_000 => Some((12, 2, 150)),
            50_000 => Some((12, 2, 60)),
            100_000 => Some((12, 2, 30)),
            125_000 => Some((12, 2, 24)),
            250_000 => Some((12, 2, 12)),
            500_000 => Some((12, 2, 6)),
            800_000 => Some((11, 2, 4)),
            1_000_000 => Some((12, 2, 3)),
            _ => None,
        },
        (80_000_000, 875) => match bitrate {
            10_000 => Some((12, 2, 500)),
            20_000 => Some((12, 2, 250)),
            50_000 => Some((12, 2, 100)),
            100_000 => Some((12, 2, 50)),
            125_000 => Some((12, 2, 40)),
            250_000 => Some((12, 2, 20)),
            500_000 => Some((12, 2, 10)),
            800_000 => Some((7, 1, 10)),
            1_000_000 => Some((12, 2, 5)),
            _ => None,
        },
        (40_000_000, 875) => match bitrate {
            10_000 => Some((12, 2, 250)),
            20_000 => Some((12, 2, 125)),
            50_000 => Some((12, 2, 50)),
            100_000 => Some((12, 2, 25)),
            125_000 => Some((12, 2, 20)),
            250_000 => Some((12, 2, 10)),
            500_000 => Some((12, 2, 5)),
            800_000 => Some((7, 1, 5)),
            1_000_000 => Some((5, 1, 5)),
            _ => None,
        },
        _ => None,
    };
    match row {
        Some((phase_seg1, phase_seg2, brp)) => Ok(
            DeviceBitTiming::new(1, phase_seg1, phase_seg2, 1, brp),
        ),
        None => Err(GsUsbError::UnsupportedBitrate { bitrate, clock_hz }),
    }
}

/// Resolves a data phase bitrate to register values for a device clock and
/// a sample point given in tenths of a percent.
pub fn resolve_data(clock_hz: u32, bitrate: u32, sample_point_tenths: u32) -> (r: Result<
    DeviceBitTiming,
    GsUsbError,
>)
    ensures
        r == spec_resolve_data(clock_hz, bitrate, sample_point_tenths),
{
    let row: Option<(u32, u32, u32)> = match (clock_hz, sample_point_tenths) {
        (80_000_000, 750) => match bitrate {
            2_000_000 => Some((4, 2, 5)),
            4_000_000 => Some((1, 1, 5)),
            5_000_000 => Some((4, 2, 2)),
            8_000_000 => Some((2, 1, 2)),
            _ => None,
        },
        (40_000_000, 750) => match bitrate {
            2_000_000 => Some((6, 2, 2)),
            4_000_000 => Some((2, 1, 2)),
            5_000_000 => Some((4, 2, 1)),
            8_000_000 => Some((2, 1, 1)),
            10_000_000 => Some((1, 1, 1)),
            _ => None,
        },
        _ => None,
    };
    match row {
        Some((phase_seg1, phase_seg2, brp)) => Ok(
            DeviceBitTiming::new(1, phase_seg1, phase_seg2, 1, brp),
        ),
        None => Err(GsUsbError::UnsupportedDataBitrate { bitrate, clock_hz }),
    }
}

/// The nominal bitrates that every nominal table holds.
pub open spec fn is_nominal_bitrate(bitrate: u32) -> bool {
    bitrate == 10_000 || bitrate == 20_000 || bitrate == 50_000 || bitrate == 100_000 || bitrate
        == 125_000 || bitrate == 250_000 || bitrate == 500_000 || bitrate == 800_000 || bitrate
        == 1_000_000
}

/// The nominal resolver succeeds exactly for the sample point 87.5 %, the
/// clocks 40, 48 and 80 MHz and the nine nominal bitrates. On every other
/// input it fails with `UnsupportedBitrate`, which carries the bitrate and
/// the clock it was asked for.
pub proof fn lemma_resolve_supported(clock_hz: u32, bitrate: u32, sample_point_tenths: u32)
    ensures
        spec_resolve(clock_hz, bitrate, sample_point_tenths) is Ok <==> sample_point_tenths == 875
            && (clock_hz == 40_000_000 || clock_hz == 48_000_000 || clock_hz == 80_000_000)
            && is_nominal_bitrate(bitrate),
        spec_resolve(clock_hz, bitrate, sample_point_tenths) is Err ==> spec_resolve(
            clock_hz,
            bitrate,
            sample_point_tenths,
        ) == Err::<DeviceBitTiming, GsUsbError>(GsUsbError::UnsupportedBitrate { bitrate, clock_hz }),
{
}

/// The data phase resolver succeeds exactly for the sample point 75 %, the
/// clocks 40 and 80 MHz and the bitrates 2, 4, 5 and 8 Mbit/s, and for
/// 10 Mbit/s at 40 MHz. On every other input it fails with
/// `UnsupportedDataBitrate`, which carries the bitrate and the clock it was
/// asked for.
pub proof fn lemma_resolve_data_supported(clock_hz: u32, bitrate: u32, sample_point_tenths: u32)
    ensures
        spec_resolve_data(clock_hz, bitrate, sample_point_tenths) is Ok <==> sample_point_tenths
            == 750 && ((clock_hz == 40_000_000 && bitrate == 10_000_000) || ((clock_hz
            == 40_000_000 || clock_hz == 80_000_000) && (bitrate == 2_000_000 || bitrate
            == 4_000_000 || bitrate == 5_000_000 || bitrate == 8_000_000))),
        spec_resolve_data(clock_hz, bitrate, sample_point_tenths) is Err ==> spec_resolve_data(
            clock_hz,
            bitrate,
            sample_point_tenths,
        ) == Err::<DeviceBitTiming, GsUsbError>(
            GsUsbError::UnsupportedDataBitrate { bitrate, clock_hz },
        ),
{
}

/// Every timing that either resolver yields produces the bitrate it was
/// asked for: the clock, divided by the prescaler and by the number of time
/// quanta in a bit, is the bitrate. Propagation segment and synchronization
/// jump width are 1.
pub proof fn lemma_resolved_timing_gives_bitrate(
    clock_hz: u32,
    bitrate: u32,
    sample_point_tenths: u32,
)
    ensures
        spec_resolve(clock_hz, bitrate, sample_point_tenths) matches Ok(t) ==> t.prop_seg == 1
            && t.sjw == 1 && bitrate * (t.brp * t.quanta_per_bit()) == clock_hz,
        spec_resolve_data(clock_hz, bitrate, sample_point_tenths) matches Ok(t) ==> t.prop_seg
            == 1 && t.sjw == 1 && bitrate * (t.brp * t.quanta_per_bit()) == clock_hz,
{
    let c = clock_hz as int;
    let b = bitrate as int;
    if let Ok(t) = spec_resolve(clock_hz, bitrate, sample_point_tenths) {
        let p = t.brp as int;
        let q = t.quanta_per_bit();
        assert(b * (p * q) == c) by (nonlinear_arith)
            requires
                (c == 48_000_000 && b == 10_000 && p == 300 && q == 16)
                || (c == 48_000_000 && b == 20_000 && p == 150 && q == 16)
                || (c == 48_000_000 && b == 50_000 && p == 60 && q == 16)
                || (c == 48_000_000 && b == 100_000 && p == 30 && q == 16)
                || (c == 48_000_000 && b == 125_000 && p == 24 && q == 16)
                || (c == 48_000_000 && b == 250_000 && p == 12 && q == 16)
                || (c == 48_000_000 && b == 500_000 && p == 6 && q == 16)
                || (c == 48_000_000 && b == 800_000 && p == 4 && q == 15)
                || (c == 48_000_000 && b == 1_000_000 && p == 3 && q == 16)
                || (c == 80_000_000 && b == 10_000 && p == 500 && q == 16)
                || (c == 80_000_000 && b == 20_000 && p == 250 && q == 16)
                || (c == 80_000_000 && b == 50_000 && p == 100 && q == 16)
                || (c == 80_000_000 && b == 100_000 && p == 50 && q == 16)
                || (c == 80_000_000 && b == 125_000 && p == 40 && q == 16)
                || (c == 80_000_000 && b == 250_000 && p == 20 && q == 16)
                || (c == 80_000_000 && b == 500_000 && p == 10 && q == 16)
                || (c == 80_000_000 && b == 800_000 && p == 10 && q == 10)
                || (c == 80_000_000 && b == 1_000_000 && p == 5 && q == 16)
                || (c == 40_000_000 && b == 10_000 && p == 250 && q == 16)
                || (c == 40_000_000 && b == 20_000 && p == 125 && q == 16)
                || (c == 40_000_000 && b == 50_000 && p == 50 && q == 16)
                || (c == 40_000_000 && b == 100_000 && p == 25 && q == 16)
                || (c == 40_000_000 && b == 125_000 && p == 20 && q == 16)
                || (c == 40_000_000 && b == 250_000 && p == 10 && q == 16)
                || (c == 40_000_000 && b == 500_000 && p == 5 && q == 16)
                || (c == 40_000_000 && b == 800_000 && p == 5 && q == 10)
                || (c == 40_000_000 && b == 1_000_000 && p == 5 && q == 8),
        ;
    }
    if let Ok(t) = spec_resolve_data(clock_hz, bitrate, sample_point_tenths) {
        let p = t.brp as int;
        let q = t.quanta_per_bit();
        assert(b * (p * q) == c) by (nonlinear_arith)
            requires
                (c == 80_000_000 && b == 2_000_000 && p == 5 && q == 8)
                || (c == 80_000_000 && b == 4_000_000 && p == 5 && q == 4)
                || (c == 80_000_000 && b == 5_000_000 && p == 2 && q == 8)
                || (c == 80_000_000 && b == 8_000_000 && p == 2 && q == 5)
                || (c == 40_000_000 && b == 2_000_000 && p == 2 && q == 10)
                || (c == 40_000_000 && b == 4_000_000 && p == 2 && q == 5)
                || (c == 40_000_000 && b == 5_000_000 && p == 1 && q == 8)
                || (c == 40_000_000 && b == 8_000_000 && p == 1 && q == 5)
                || (c == 40_000_000 && b == 10_000_000 && p == 1 && q == 4),
        ;
    }
}

} // verus!

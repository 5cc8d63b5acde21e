use gs_usb::error::{GsUsbError, UsbError};
use gs_usb::structures::DeviceBitTiming;
use gs_usb::timing::{resolve, resolve_data};

fn timing_row(phase_seg1: u32, phase_seg2: u32, brp: u32) -> DeviceBitTiming {
    DeviceBitTiming::new(1, phase_seg1, phase_seg2, 1, brp)
}

#[test]
fn resolve_nominal_at_40_mhz() {
    assert_eq!(resolve(40_000_000, 500_000, 875), Ok(timing_row(12, 2, 5)));
    assert_eq!(resolve(40_000_000, 10_000, 875), Ok(timing_row(12, 2, 250)));
    assert_eq!(resolve(40_000_000, 20_000, 875), Ok(timing_row(12, 2, 125)));
    assert_eq!(resolve(40_000_000, 50_000, 875), Ok(timing_row(12, 2, 50)));
    assert_eq!(resolve(40_000_000, 100_000, 875), Ok(timing_row(12, 2, 25)));
    assert_eq!(resolve(40_000_000, 125_000, 875), Ok(timing_row(12, 2, 20)));
    assert_eq!(resolve(40_000_000, 250_000, 875), Ok(timing_row(12, 2, 10)));
    assert_eq!(resolve(40_000_000, 800_000, 875), Ok(timing_row(7, 1, 5)));
    assert_eq!(resolve(40_000_000, 1_000_000, 875), Ok(timing_row(5, 1, 5)));
}

#[test]
fn resolve_nominal_at_48_mhz() {
    assert_eq!(resolve(48_000_000, 10_000, 875), Ok(timing_row(12, 2, 300)));
    assert_eq!(resolve(48_000_000, 20_000, 875), Ok(timing_row(12, 2, 150)));
    assert_eq!(resolve(48_000_000, 50_000, 875), Ok(timing_row(12, 2, 60)));
    assert_eq!(resolve(48_000_000, 100_000, 875), Ok(timing_row(12, 2, 30)));
    assert_eq!(resolve(48_000_000, 125_000, 875), Ok(timing_row(12, 2, 24)));
    assert_eq!(resolve(48_000_000, 250_000, 875), Ok(timing_row(12, 2, 12)));
    assert_eq!(resolve(48_000_000, 500_000, 875), Ok(timing_row(12, 2, 6)));
    assert_eq!(resolve(48_000_000, 800_000, 875), Ok(timing_row(11, 2, 4)));
    assert_eq!(resolve(48_000_000, 1_000_000, 875), Ok(timing_row(12, 2, 3)));
}

#[test]
fn resolve_nominal_at_80_mhz() {
    assert_eq!(resolve(80_000_000, 10_000, 875), Ok(timing_row(12, 2, 500)));
    assert_eq!(resolve(80_000_000, 20_000, 875), Ok(timing_row(12, 2, 250)));
    assert_eq!(resolve(80_000_000, 50_000, 875), Ok(timing_row(12, 2, 100)));
    assert_eq!(resolve(80_000_000, 100_000, 875), Ok(timing_row(12, 2, 50)));
    assert_eq!(resolve(80_000_000, 125_000, 875), Ok(timing_row(12, 2, 40)));
    assert_eq!(resolve(80_000_000, 250_000, 875), Ok(timing_row(12, 2, 20)));
    assert_eq!(resolve(80_000_000, 500_000, 875), Ok(timing_row(12, 2, 10)));
    assert_eq!(resolve(80_000_000, 800_000, 875), Ok(timing_row(7, 1, 10)));
    assert_eq!(resolve(80_000_000, 1_000_000, 875), Ok(timing_row(12, 2, 5)));
}

#[test]
fn resolve_data_tables() {
    assert_eq!(resolve_data(80_000_000, 2_000_000, 750), Ok(timing_row(4, 2, 5)));
    assert_eq!(resolve_data(80_000_000, 4_000_000, 750), Ok(timing_row(1, 1, 5)));
    assert_eq!(resolve_data(80_000_000, 5_000_000, 750), Ok(timing_row(4, 2, 2)));
    assert_eq!(resolve_data(80_000_000, 8_000_000, 750), Ok(timing_row(2, 1, 2)));
    assert_eq!(resolve_data(40_000_000, 2_000_000, 750), Ok(timing_row(6, 2, 2)));
    assert_eq!(resolve_data(40_000_000, 4_000_000, 750), Ok(timing_row(2, 1, 2)));
    assert_eq!(resolve_data(40_000_000, 5_000_000, 750), Ok(timing_row(4, 2, 1)));
    assert_eq!(resolve_data(40_000_000, 8_000_000, 750), Ok(timing_row(2, 1, 1)));
    assert_eq!(resolve_data(40_000_000, 10_000_000, 750), Ok(timing_row(1, 1, 1)));
}

#[test]
fn resolve_refuses_what_the_tables_lack() {
    let unsupported = |bitrate: u32, clock_hz: u32| Err(GsUsbError::UnsupportedBitrate { bitrate, clock_hz });
    assert_eq!(resolve(40_000_000, 500_001, 875), unsupported(500_001, 40_000_000));
    assert_eq!(resolve(40_000_000, 0, 875), unsupported(0, 40_000_000));
    assert_eq!(resolve(40_000_000, 2_000_000, 875), unsupported(2_000_000, 40_000_000));
    assert_eq!(resolve(24_000_000, 500_000, 875), unsupported(500_000, 24_000_000));
    assert_eq!(resolve(0, 500_000, 875), unsupported(500_000, 0));
    assert_eq!(resolve(48_000_000, 500_000, 750), unsupported(500_000, 48_000_000));
    assert_eq!(resolve(48_000_000, 500_000, 800), unsupported(500_000, 48_000_000));
    assert_eq!(resolve(48_000_000, 500_000, 0), unsupported(500_000, 48_000_000));
}

#[test]
fn resolve_data_refuses_what_the_tables_lack() {
    let unsupported =
        |bitrate: u32, clock_hz: u32| Err(GsUsbError::UnsupportedDataBitrate { bitrate, clock_hz });
    assert_eq!(resolve_data(80_000_000, 10_000_000, 750), unsupported(10_000_000, 80_000_000));
    assert_eq!(resolve_data(48_000_000, 2_000_000, 750), unsupported(2_000_000, 48_000_000));
    assert_eq!(resolve_data(40_000_000, 500_000, 750), unsupported(500_000, 40_000_000));
    assert_eq!(resolve_data(40_000_000, 2_000_000, 875), unsupported(2_000_000, 40_000_000));
    assert_eq!(resolve_data(40_000_000, 2_000_000, 800), unsupported(2_000_000, 40_000_000));
}

#[test]
fn resolve_is_a_function_of_its_inputs() {
    for &clock in &[40_000_000u32, 48_000_000, 80_000_000, 16_000_000] {
        for &bitrate in &[10_000u32, 33_333, 500_000, 1_000_000, 5_000_000] {
            for &sample_point in &[750u32, 875, 500] {
                assert_eq!(
                    resolve(clock, bitrate, sample_point),
                    resolve(clock, bitrate, sample_point)
                );
                assert_eq!(
                    resolve_data(clock, bitrate, sample_point),
                    resolve_data(clock, bitrate, sample_point)
                );
            }
        }
    }
}

#[test]
fn resolved_timings_give_the_bitrate() {
    let clocks = [40_000_000u64, 48_000_000, 80_000_000];
    let nominal = [10_000u64, 20_000, 50_000, 100_000, 125_000, 250_000, 500_000, 800_000, 1_000_000];
    for &clock in &clocks {
        for &bitrate in &nominal {
            let t = resolve(clock as u32, bitrate as u32, 875).unwrap();
            assert_eq!(t.prop_seg, 1);
            assert_eq!(t.sjw, 1);
            let quanta = (1 + t.prop_seg + t.phase_seg1 + t.phase_seg2) as u64;
            assert_eq!(bitrate * t.brp as u64 * quanta, clock);
        }
    }
    for &(clock, bitrate) in &[(80_000_000u64, 8_000_000u64), (40_000_000, 10_000_000)] {
        let t = resolve_data(clock as u32, bitrate as u32, 750).unwrap();
        let quanta = (1 + t.prop_seg + t.phase_seg1 + t.phase_seg2) as u64;
        assert_eq!(bitrate * t.brp as u64 * quanta, clock);
    }
}

#[test]
fn error_classification() {
    assert!(GsUsbError::ReadTimeout.is_timeout());
    assert!(GsUsbError::WriteTimeout.is_timeout());
    assert!(GsUsbError::Usb(UsbError::Timeout).is_timeout());
    assert!(!GsUsbError::Usb(UsbError::Io).is_timeout());
    assert!(!GsUsbError::BulkTransfer(UsbError::Timeout).is_timeout());
    assert!(!GsUsbError::ControlTransfer(UsbError::Timeout).is_timeout());
    assert!(!GsUsbError::FdNotSupported.is_timeout());

    assert!(GsUsbError::Usb(UsbError::NoDevice).is_usb_error());
    assert!(GsUsbError::ClaimInterface(UsbError::Busy).is_usb_error());
    assert!(GsUsbError::DetachKernelDriver(UsbError::Access).is_usb_error());
    assert!(GsUsbError::ControlTransfer(UsbError::Pipe).is_usb_error());
    assert!(GsUsbError::BulkTransfer(UsbError::Overflow).is_usb_error());
    assert!(!GsUsbError::ReadTimeout.is_usb_error());
    assert!(!GsUsbError::WriteTimeout.is_usb_error());
    assert!(!GsUsbError::DeviceNotFound.is_usb_error());
    assert!(!GsUsbError::DeviceNotOpen.is_usb_error());
    assert!(!GsUsbError::AlreadyStarted.is_usb_error());
    assert!(!GsUsbError::NotStarted.is_usb_error());
    assert!(!GsUsbError::GetStateNotSupported.is_usb_error());
    assert!(!GsUsbError::FeatureNotSupported("termination").is_usb_error());
    assert!(!GsUsbError::InvalidChannel { channel: 3, max_channels: 2 }.is_usb_error());
    assert!(!GsUsbError::InvalidResponse { expected: 40, actual: 12 }.is_usb_error());
    assert!(!GsUsbError::UnsupportedBitrate { bitrate: 1, clock_hz: 2 }.is_usb_error());
    assert!(!GsUsbError::UnsupportedDataBitrate { bitrate: 1, clock_hz: 2 }.is_usb_error());
}

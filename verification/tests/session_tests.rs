use gs_usb::constants::{
    GS_CAN_FEATURE_BT_CONST_EXT, GS_CAN_FEATURE_FD, GS_CAN_FEATURE_GET_STATE,
    GS_CAN_FEATURE_HW_TIMESTAMP, GS_CAN_FEATURE_LISTEN_ONLY, GS_CAN_FEATURE_LOOP_BACK,
    GS_CAN_MODE_FD, GS_CAN_MODE_HW_TIMESTAMP, GS_CAN_MODE_LISTEN_ONLY, GS_CAN_MODE_LOOP_BACK,
    GS_CAN_MODE_NORMAL, GS_CAN_MODE_ONE_SHOT, GS_CAN_MODE_TRIPLE_SAMPLE,
};
use gs_usb::device::{effective_flags, is_fd_buffer, GsUsb, DRIVER_MODE_MASK};
use gs_usb::error::{GsUsbError, UsbError};
use gs_usb::frame::GsUsbFrame;
use gs_usb::structures::{DeviceBitTiming, DeviceCapability, DeviceInfo, DeviceState};
use gs_usb::transfer::{
    control_in, control_out, control_response, AfterCommand, AfterFetch, Command, Fetch, Goal,
    Outcome, Step,
};

fn words(values: &[u32]) -> Vec<u8> {
    let mut bytes = Vec::new();
    for value in values {
        bytes.extend_from_slice(&value.to_le_bytes());
    }
    bytes
}

fn capability_bytes(feature: u32, clock_hz: u32) -> Vec<u8> {
    words(&[feature, clock_hz, 1, 16, 1, 8, 4, 1, 1024, 1])
}

fn extended_capability_bytes(feature: u32, clock_hz: u32) -> Vec<u8> {
    let mut bytes = capability_bytes(feature, clock_hz);
    bytes.extend_from_slice(&words(&[1, 32, 1, 16, 8, 1, 32, 1]));
    bytes
}

fn control_out_request(request: u8, data: Vec<u8>) -> Command {
    Command::ControlOut { request_type: 0x41, request, value: 0, index: 0, data, timeout_ms: 1000 }
}

fn control_in_request(request: u8, value: u16, length: usize) -> Fetch {
    Fetch::ControlIn { request_type: 0xC1, request, value, index: 0, length, timeout_ms: 1000 }
}

/// A session whose capability was read from a device with these features
/// and this clock.
fn session_with_capability(feature: u32, clock_hz: u32) -> GsUsb {
    let mut session = GsUsb::new(1, 2);
    let step = session.device_capability();
    assert_eq!(step, Step::Fetch(control_in_request(4, 0, 40), AfterFetch::Capability(Goal::Capability)));
    let step = session
        .resume_fetch(AfterFetch::Capability(Goal::Capability), Ok(capability_bytes(feature, clock_hz)));
    match step {
        Step::Finished(Ok(Outcome::Capability(cap))) => {
            assert_eq!(cap.feature, feature);
            assert_eq!(cap.fclk_can, clock_hz);
        }
        other => panic!("{:?}", other),
    }
    session
}

/// Runs `start` against a device that answers every request with success,
/// and returns the flags that the start mode carried.
fn start_session(session: &mut GsUsb, flags: u32, feature: u32, clock_hz: u32) -> u32 {
    let step = session.start(flags);
    assert_eq!(step, Step::Command(Command::Reset, AfterCommand::StartReset { flags }));
    let step = session.resume_command(AfterCommand::StartReset { flags }, Ok(()));
    assert_eq!(step, Step::KernelDriverQuery { interface: 0, flags });
    let step = session.resume_kernel_driver_query(flags, Ok(false));
    assert_eq!(
        step,
        Step::Command(Command::ClaimInterface { interface: 0 }, AfterCommand::StartClaim { flags })
    );
    let mut step = session.resume_command(AfterCommand::StartClaim { flags }, Ok(()));
    if let Step::Fetch(fetch, after) = step {
        assert_eq!(fetch, control_in_request(4, 0, 40));
        assert_eq!(after, AfterFetch::StartCapability { flags });
        step = session.resume_fetch(after, Ok(capability_bytes(feature, clock_hz)));
    }
    let effective = match step {
        Step::Command(
            Command::ControlOut { request_type: 0x41, request: 2, value: 0, index: 0, data, timeout_ms: 1000 },
            AfterCommand::StartMode,
        ) => {
            assert_eq!(data.len(), 8);
            assert_eq!(&data[0..4], &[1, 0, 0, 0]);
            u32::from_le_bytes([data[4], data[5], data[6], data[7]])
        }
        other => panic!("{:?}", other),
    };
    assert!(!session.is_started());
    let step = session.resume_command(AfterCommand::StartMode, Ok(()));
    assert_eq!(step, Step::Finished(Ok(Outcome::Done)));
    assert!(session.is_started());
    effective
}

#[test]
fn new_session_knows_nothing() {
    let session = GsUsb::new(3, 17);
    assert_eq!(session.bus(), 3);
    assert_eq!(session.address(), 17);
    assert!(!session.is_started());
    assert_eq!(session.device_flags(), 0);
    assert!(!session.fd_mode());
    assert!(!session.hw_timestamp());
    assert_eq!(session.cached_capability(), None);
    assert_eq!(session.last_timing(), None);
    assert_eq!(session.last_data_timing(), None);
}

#[test]
fn known_adapters_are_recognised() {
    assert!(GsUsb::is_gs_usb_device(0x1D50, 0x606F));
    assert!(GsUsb::is_gs_usb_device(0x1209, 0x2323));
    assert!(GsUsb::is_gs_usb_device(0x1CD2, 0x606F));
    assert!(GsUsb::is_gs_usb_device(0x16D0, 0x10B8));
    assert!(!GsUsb::is_gs_usb_device(0x1D50, 0x2323));
    assert!(!GsUsb::is_gs_usb_device(0x1209, 0x606F));
    assert!(!GsUsb::is_gs_usb_device(0x16D0, 0x606F));
    assert!(!GsUsb::is_gs_usb_device(0, 0));
    assert!(!GsUsb::is_gs_usb_device(0xFFFF, 0xFFFF));
}

#[test]
fn control_requests_have_the_vendor_request_types() {
    assert_eq!(control_out(1, 0, vec![1, 2, 3]), control_out_request(1, vec![1, 2, 3]));
    assert_eq!(control_in(14, 3, 12), control_in_request(14, 3, 12));
}

#[test]
fn control_response_refuses_short_answers() {
    assert_eq!(control_response(4, Ok(vec![1, 2, 3, 4])), Ok(vec![1, 2, 3, 4]));
    assert_eq!(control_response(4, Ok(vec![1, 2, 3, 4, 5])), Ok(vec![1, 2, 3, 4, 5]));
    assert_eq!(control_response(0, Ok(vec![])), Ok(vec![]));
    assert_eq!(
        control_response(4, Ok(vec![1, 2, 3])),
        Err(GsUsbError::InvalidResponse { expected: 4, actual: 3 })
    );
    assert_eq!(
        control_response(4, Err(UsbError::Pipe)),
        Err(GsUsbError::ControlTransfer(UsbError::Pipe))
    );
}

#[test]
fn set_bitrate_at_40_mhz_sends_the_table_row() {
    let mut session = GsUsb::new(1, 2);
    let goal = Goal::Bitrate { bitrate: 500_000, sample_point_tenths: 875 };
    let step = session.set_bitrate(500_000);
    assert_eq!(step, Step::Fetch(control_in_request(4, 0, 40), AfterFetch::Capability(goal)));
    let step = session.resume_fetch(AfterFetch::Capability(goal), Ok(capability_bytes(0, 40_000_000)));
    let timing = DeviceBitTiming::new(1, 12, 2, 1, 5);
    assert_eq!(
        step,
        Step::Command(
            control_out_request(1, words(&[1, 12, 2, 1, 5])),
            AfterCommand::Timing(timing)
        )
    );
    assert_eq!(session.last_timing(), None);
    let step = session.resume_command(AfterCommand::Timing(timing), Ok(()));
    assert_eq!(step, Step::Finished(Ok(Outcome::Done)));
    assert_eq!(session.last_timing(), Some(timing));
    assert_eq!(session.last_data_timing(), None);

    // The capability is cached now: the next bitrate takes no fetch.
    let step = session.set_bitrate(1_000_000);
    assert_eq!(
        step,
        Step::Command(
            control_out_request(1, words(&[1, 5, 1, 1, 5])),
            AfterCommand::Timing(DeviceBitTiming::new(1, 5, 1, 1, 5))
        )
    );
}

#[test]
fn set_bitrate_refuses_unsupported_bitrates() {
    let session = session_with_capability(0, 40_000_000);
    assert_eq!(
        session.set_bitrate(123_456),
        Step::Finished(Err(GsUsbError::UnsupportedBitrate { bitrate: 123_456, clock_hz: 40_000_000 }))
    );
    assert_eq!(
        session.set_bitrate_with_sample_point(500_000, 800),
        Step::Finished(Err(GsUsbError::UnsupportedBitrate { bitrate: 500_000, clock_hz: 40_000_000 }))
    );
    let session = session_with_capability(0, 16_000_000);
    assert_eq!(
        session.set_bitrate(500_000),
        Step::Finished(Err(GsUsbError::UnsupportedBitrate { bitrate: 500_000, clock_hz: 16_000_000 }))
    );
    assert_eq!(session.last_timing(), None);
}

#[test]
fn set_bitrate_surfaces_transfer_failures() {
    let mut session = GsUsb::new(1, 2);
    let goal = Goal::Bitrate { bitrate: 500_000, sample_point_tenths: 875 };
    assert_eq!(
        session.resume_fetch(AfterFetch::Capability(goal), Err(UsbError::NoDevice)),
        Step::Finished(Err(GsUsbError::ControlTransfer(UsbError::NoDevice)))
    );
    assert_eq!(session.cached_capability(), None);
    assert_eq!(
        session.resume_fetch(AfterFetch::Capability(goal), Ok(vec![0; 39])),
        Step::Finished(Err(GsUsbError::InvalidResponse { expected: 40, actual: 39 }))
    );
    assert_eq!(session.cached_capability(), None);

    let mut session = session_with_capability(0, 48_000_000);
    let timing = DeviceBitTiming::new(1, 12, 2, 1, 6);
    assert_eq!(
        session.resume_command(AfterCommand::Timing(timing), Err(UsbError::Io)),
        Step::Finished(Err(GsUsbError::ControlTransfer(UsbError::Io)))
    );
    assert_eq!(session.last_timing(), None);
}

#[test]
fn set_data_bitrate_at_40_mhz_sends_the_table_row() {
    let mut session = session_with_capability(GS_CAN_FEATURE_FD, 40_000_000);
    let timing = DeviceBitTiming::new(1, 4, 2, 1, 1);
    let step = session.set_data_bitrate(5_000_000);
    assert_eq!(
        step,
        Step::Command(
            control_out_request(10, words(&[1, 4, 2, 1, 1])),
            AfterCommand::DataTiming(timing)
        )
    );
    let step = session.resume_command(AfterCommand::DataTiming(timing), Ok(()));
    assert_eq!(step, Step::Finished(Ok(Outcome::Done)));
    assert_eq!(session.last_data_timing(), Some(timing));
    assert_eq!(session.last_timing(), None);

    assert_eq!(
        session.set_data_bitrate(3_000_000),
        Step::Finished(Err(GsUsbError::UnsupportedDataBitrate {
            bitrate: 3_000_000,
            clock_hz: 40_000_000
        }))
    );
    assert_eq!(
        session.resume_command(AfterCommand::DataTiming(timing), Err(UsbError::Busy)),
        Step::Finished(Err(GsUsbError::ControlTransfer(UsbError::Busy)))
    );
}

#[test]
fn set_data_bitrate_needs_fd_whatever_the_clock() {
    for &clock in &[40_000_000u32, 80_000_000, 48_000_000, 0, 1] {
        for &feature in &[0u32, !GS_CAN_FEATURE_FD, GS_CAN_FEATURE_HW_TIMESTAMP] {
            let session = session_with_capability(feature, clock);
            for &bitrate in &[5_000_000u32, 2_000_000, 7] {
                assert_eq!(
                    session.set_data_bitrate(bitrate),
                    Step::Finished(Err(GsUsbError::FdNotSupported))
                );
            }
        }
    }
    // The refusal also comes straight after the capability was fetched.
    let mut session = GsUsb::new(1, 2);
    let goal = Goal::DataBitrate { bitrate: 5_000_000, sample_point_tenths: 750 };
    assert_eq!(
        session.set_data_bitrate(5_000_000),
        Step::Fetch(control_in_request(4, 0, 40), AfterFetch::Capability(goal))
    );
    assert_eq!(
        session.resume_fetch(AfterFetch::Capability(goal), Ok(capability_bytes(0, 40_000_000))),
        Step::Finished(Err(GsUsbError::FdNotSupported))
    );
}

#[test]
fn set_timing_sends_the_values_as_given() {
    let mut session = GsUsb::new(1, 2);
    let timing = DeviceBitTiming::new(3, 10, 4, 2, 7);
    assert_eq!(
        session.set_timing(3, 10, 4, 2, 7),
        Step::Command(control_out_request(1, words(&[3, 10, 4, 2, 7])), AfterCommand::Timing(timing))
    );
    assert_eq!(
        session.set_data_timing(3, 10, 4, 2, 7),
        Step::Command(
            control_out_request(10, words(&[3, 10, 4, 2, 7])),
            AfterCommand::DataTiming(timing)
        )
    );
    session.resume_command(AfterCommand::Timing(timing), Ok(()));
    assert_eq!(session.last_timing(), Some(timing));
    assert_eq!(session.last_data_timing(), None);
}

#[test]
fn start_masks_the_requested_flags() {
    let feature = GS_CAN_FEATURE_LISTEN_ONLY | GS_CAN_FEATURE_HW_TIMESTAMP | 0x0004;
    let requested = GS_CAN_MODE_LISTEN_ONLY
        | GS_CAN_MODE_LOOP_BACK
        | GS_CAN_MODE_TRIPLE_SAMPLE
        | GS_CAN_MODE_HW_TIMESTAMP
        | GS_CAN_MODE_FD;
    let mut session = GsUsb::new(1, 2);
    let effective = start_session(&mut session, requested, feature, 48_000_000);
    assert_eq!(effective, GS_CAN_MODE_LISTEN_ONLY | GS_CAN_MODE_HW_TIMESTAMP);
    assert_eq!(session.device_flags(), effective);
    assert!(session.hw_timestamp());
    assert!(!session.fd_mode());
    assert_eq!(session.cached_capability().unwrap().feature, feature);
}

#[test]
fn start_never_takes_a_flag_the_device_lacks() {
    let features = [0u32, 0x0001, 0x0113, 0x011B, 0x3FFF, u32::MAX, 0x0100, 0x0010];
    let requests = [0u32, 1, 0x011B, 0x01FF, u32::MAX, 0x1000, 0x0110, 0x0004];
    for &feature in &features {
        for &requested in &requests {
            let mut session = GsUsb::new(1, 2);
            let effective = start_session(&mut session, requested, feature, 40_000_000);
            assert_eq!(effective & !feature, 0);
            assert_eq!(effective & !requested, 0);
            assert_eq!(effective & !DRIVER_MODE_MASK, 0);
            assert_eq!(effective, requested & feature & 0x011B);
            assert_eq!(effective, effective_flags(requested, feature));
            assert_eq!(session.device_flags(), effective);
            assert_eq!(session.fd_mode(), effective & GS_CAN_MODE_FD != 0);
        }
    }
}

#[test]
fn start_with_cached_capability_skips_the_fetch() {
    let mut session = session_with_capability(GS_CAN_FEATURE_FD | GS_CAN_FEATURE_LOOP_BACK, 80_000_000);
    let flags = GS_CAN_MODE_FD | GS_CAN_MODE_ONE_SHOT;
    session.resume_command(AfterCommand::StartReset { flags }, Ok(()));
    let step = session.resume_command(AfterCommand::StartClaim { flags }, Ok(()));
    assert_eq!(
        step,
        Step::Command(control_out_request(2, words(&[1, GS_CAN_MODE_FD])), AfterCommand::StartMode)
    );
    assert!(session.fd_mode());
    assert!(!session.is_started());
}

#[test]
fn start_detaches_an_active_kernel_driver() {
    let mut session = GsUsb::new(1, 2);
    let flags = GS_CAN_MODE_NORMAL;
    assert_eq!(
        session.resume_kernel_driver_query(flags, Ok(true)),
        Step::Command(
            Command::DetachKernelDriver { interface: 0 },
            AfterCommand::StartDetach { flags }
        )
    );
    assert_eq!(
        session.resume_command(AfterCommand::StartDetach { flags }, Ok(())),
        Step::Command(Command::ClaimInterface { interface: 0 }, AfterCommand::StartClaim { flags })
    );
    // A query that fails counts as no driver.
    assert_eq!(
        session.resume_kernel_driver_query(flags, Err(UsbError::NotSupported)),
        Step::Command(Command::ClaimInterface { interface: 0 }, AfterCommand::StartClaim { flags })
    );
}

#[test]
fn start_reports_the_step_that_failed() {
    let mut session = GsUsb::new(1, 2);
    let flags = GS_CAN_MODE_HW_TIMESTAMP;
    assert_eq!(
        session.resume_command(AfterCommand::StartReset { flags }, Err(UsbError::NoDevice)),
        Step::Finished(Err(GsUsbError::Usb(UsbError::NoDevice)))
    );
    assert_eq!(
        session.resume_command(AfterCommand::StartDetach { flags }, Err(UsbError::Access)),
        Step::Finished(Err(GsUsbError::DetachKernelDriver(UsbError::Access)))
    );
    assert_eq!(
        session.resume_command(AfterCommand::StartClaim { flags }, Err(UsbError::Busy)),
        Step::Finished(Err(GsUsbError::ClaimInterface(UsbError::Busy)))
    );
    assert_eq!(
        session.resume_fetch(AfterFetch::StartCapability { flags }, Err(UsbError::Pipe)),
        Step::Finished(Err(GsUsbError::ControlTransfer(UsbError::Pipe)))
    );
    assert_eq!(
        session.resume_fetch(AfterFetch::StartCapability { flags }, Ok(vec![0; 8])),
        Step::Finished(Err(GsUsbError::InvalidResponse { expected: 40, actual: 8 }))
    );
    assert_eq!(session.device_flags(), 0);
    assert_eq!(
        session.resume_command(AfterCommand::StartMode, Err(UsbError::Io)),
        Step::Finished(Err(GsUsbError::ControlTransfer(UsbError::Io)))
    );
    assert!(!session.is_started());
}

#[test]
fn stop_always_succeeds() {
    let mut session = GsUsb::new(1, 2);
    start_session(&mut session, GS_CAN_MODE_HW_TIMESTAMP, GS_CAN_FEATURE_HW_TIMESTAMP, 48_000_000);
    let step = session.stop();
    assert_eq!(step, Step::Command(control_out_request(2, vec![0; 8]), AfterCommand::Stop));
    assert!(session.is_started());
    assert_eq!(
        session.resume_command(AfterCommand::Stop, Err(UsbError::NoDevice)),
        Step::Finished(Ok(Outcome::Done))
    );
    assert!(!session.is_started());
    assert_eq!(session.device_flags(), GS_CAN_MODE_HW_TIMESTAMP);

    // Stopping again, and restarting, both work.
    assert_eq!(
        session.resume_command(AfterCommand::Stop, Ok(())),
        Step::Finished(Ok(Outcome::Done))
    );
    assert!(!session.is_started());
    let effective = start_session(&mut session, GS_CAN_MODE_NORMAL, 0, 0);
    assert_eq!(effective, 0);
    assert!(!session.hw_timestamp());
}

#[test]
fn send_packs_in_the_negotiated_format() {
    let frame = GsUsbFrame::with_data(0x7FF, &[0xDE, 0xAD, 0xBE, 0xEF, 0xCA, 0xFE, 0xBA, 0xBE]);
    let mut session = GsUsb::new(1, 2);
    match session.send(&frame) {
        Step::Command(Command::BulkOut { endpoint, data, timeout_ms }, AfterCommand::Send) => {
            assert_eq!(endpoint, 0x02);
            assert_eq!(timeout_ms, 1000);
            assert_eq!(data, frame.pack(false, false));
            assert_eq!(data.len(), 20);
        }
        other => panic!("{:?}", other),
    }
    start_session(
        &mut session,
        GS_CAN_MODE_FD | GS_CAN_MODE_HW_TIMESTAMP,
        GS_CAN_FEATURE_FD | GS_CAN_FEATURE_HW_TIMESTAMP,
        80_000_000,
    );
    match session.send(&frame) {
        Step::Command(Command::BulkOut { endpoint: 0x02, data, timeout_ms: 1000 }, AfterCommand::Send) => {
            assert_eq!(data, frame.pack(true, true));
            assert_eq!(data.len(), 80);
        }
        other => panic!("{:?}", other),
    }
    assert_eq!(
        session.resume_command(AfterCommand::Send, Ok(())),
        Step::Finished(Ok(Outcome::Done))
    );
    assert_eq!(
        session.resume_command(AfterCommand::Send, Err(UsbError::Timeout)),
        Step::Finished(Err(GsUsbError::BulkTransfer(UsbError::Timeout)))
    );
}

#[test]
fn read_timeout_is_recoverable() {
    let mut session = GsUsb::new(1, 2);
    start_session(&mut session, GS_CAN_MODE_HW_TIMESTAMP, GS_CAN_FEATURE_HW_TIMESTAMP, 48_000_000);
    let expected = Step::Fetch(
        Fetch::BulkIn { endpoint: 0x81, length: 24, timeout_ms: 100 },
        AfterFetch::Read,
    );
    assert_eq!(session.read(100), expected);
    let step = session.resume_fetch(AfterFetch::Read, Err(UsbError::Timeout));
    assert_eq!(step, Step::Finished(Err(GsUsbError::ReadTimeout)));
    if let Step::Finished(Err(e)) = step {
        assert!(e.is_timeout());
        assert!(!e.is_usb_error());
    }
    assert!(session.is_started());
    assert_eq!(session.device_flags(), GS_CAN_MODE_HW_TIMESTAMP);

    // The session is good for the next call.
    assert_eq!(session.read(100), expected);
    let mut received = GsUsbFrame::with_data(0x123, &[1, 2, 3, 4]);
    received.echo_id = 0xFFFF_FFFF;
    received.timestamp_us = 5_000_000;
    match session.resume_fetch(AfterFetch::Read, Ok(received.pack(true, false))) {
        Step::Finished(Ok(Outcome::Frame(frame))) => {
            assert_eq!(frame, received);
            assert!(frame.is_rx_frame());
            assert_eq!(frame.data(), &[1, 2, 3, 4]);
            assert_eq!(frame.timestamp_us, 5_000_000);
        }
        other => panic!("{:?}", other),
    }
}

#[test]
fn read_failures_other_than_timeout_are_transfer_errors() {
    let mut session = GsUsb::new(1, 2);
    for &e in &[UsbError::Io, UsbError::NoDevice, UsbError::Pipe, UsbError::Overflow, UsbError::Other] {
        assert_eq!(
            session.resume_fetch(AfterFetch::Read, Err(e)),
            Step::Finished(Err(GsUsbError::BulkTransfer(e)))
        );
    }
    assert_eq!(
        session.resume_fetch(AfterFetch::Read, Ok(vec![0; 11])),
        Step::Finished(Err(GsUsbError::InvalidResponse { expected: 12, actual: 11 }))
    );
    assert_eq!(
        session.resume_fetch(AfterFetch::Read, Ok(vec![])),
        Step::Finished(Err(GsUsbError::InvalidResponse { expected: 12, actual: 0 }))
    );
}

#[test]
fn read_sizes_the_buffer_for_the_format() {
    let mut session = GsUsb::new(1, 2);
    assert_eq!(
        session.read(7),
        Step::Fetch(Fetch::BulkIn { endpoint: 0x81, length: 20, timeout_ms: 7 }, AfterFetch::Read)
    );
    start_session(&mut session, GS_CAN_MODE_FD, GS_CAN_FEATURE_FD, 80_000_000);
    assert_eq!(
        session.read(0),
        Step::Fetch(Fetch::BulkIn { endpoint: 0x81, length: 76, timeout_ms: 0 }, AfterFetch::Read)
    );
    let mut session = GsUsb::new(1, 2);
    start_session(&mut session, u32::MAX, u32::MAX, 80_000_000);
    assert_eq!(
        session.read(1),
        Step::Fetch(Fetch::BulkIn { endpoint: 0x81, length: 80, timeout_ms: 1 }, AfterFetch::Read)
    );
}

#[test]
fn read_picks_the_format_by_the_flags_byte() {
    let mut session = GsUsb::new(1, 2);
    start_session(&mut session, GS_CAN_MODE_FD, GS_CAN_FEATURE_FD, 80_000_000);

    // A classic frame arrives on a session that negotiated CAN FD.
    let mut classic = GsUsbFrame::with_data(0x42, &[9, 8, 7]);
    classic.echo_id = 0xFFFF_FFFF;
    let bytes = classic.pack(false, false);
    assert!(!is_fd_buffer(&bytes));
    match session.resume_fetch(AfterFetch::Read, Ok(bytes)) {
        Step::Finished(Ok(Outcome::Frame(frame))) => assert_eq!(frame, classic),
        other => panic!("{:?}", other),
    }

    let payload: Vec<u8> = (100..148).collect();
    let mut wide = GsUsbFrame::with_fd_data(0x43, &payload, true);
    wide.echo_id = 0xFFFF_FFFF;
    let bytes = wide.pack(false, true);
    assert!(is_fd_buffer(&bytes));
    match session.resume_fetch(AfterFetch::Read, Ok(bytes)) {
        Step::Finished(Ok(Outcome::Frame(frame))) => {
            assert_eq!(frame, wide);
            assert_eq!(frame.data(), &payload[..]);
        }
        other => panic!("{:?}", other),
    }
    assert!(!is_fd_buffer(&[0xFF; 10]));
    assert!(is_fd_buffer(&[0xFF; 11]));
}

#[test]
fn capability_is_fetched_once() {
    let mut session = session_with_capability(GS_CAN_FEATURE_FD | GS_CAN_FEATURE_GET_STATE, 80_000_000);
    let cap = session.cached_capability().unwrap();
    assert_eq!(cap, DeviceCapability::unpack(&capability_bytes(0x2100, 80_000_000)));
    assert_eq!(session.device_capability(), Step::Finished(Ok(Outcome::Capability(cap))));
    assert_eq!(session.supports_fd(), Step::Finished(Ok(Outcome::Supported(true))));
    assert_eq!(session.supports_get_state(), Step::Finished(Ok(Outcome::Supported(true))));

    let session = session_with_capability(GS_CAN_FEATURE_LOOP_BACK, 80_000_000);
    assert_eq!(session.supports_fd(), Step::Finished(Ok(Outcome::Supported(false))));
    assert_eq!(session.supports_get_state(), Step::Finished(Ok(Outcome::Supported(false))));

    let mut session = GsUsb::new(1, 2);
    assert_eq!(
        session.supports_fd(),
        Step::Fetch(control_in_request(4, 0, 40), AfterFetch::Capability(Goal::SupportsFd))
    );
    assert_eq!(
        session.resume_fetch(
            AfterFetch::Capability(Goal::SupportsFd),
            Ok(capability_bytes(GS_CAN_FEATURE_FD, 1))
        ),
        Step::Finished(Ok(Outcome::Supported(true)))
    );
    assert!(session.cached_capability().is_some());
}

#[test]
fn extended_capability() {
    // No extended capability feature: not available, and no failure.
    let session = session_with_capability(GS_CAN_FEATURE_FD, 80_000_000);
    assert_eq!(
        session.device_capability_extended(),
        Step::Finished(Ok(Outcome::ExtendedCapability(None)))
    );

    let feature = GS_CAN_FEATURE_FD | GS_CAN_FEATURE_BT_CONST_EXT;
    let mut session = session_with_capability(feature, 80_000_000);
    assert_eq!(
        session.device_capability_extended(),
        Step::Fetch(control_in_request(11, 0, 72), AfterFetch::ExtendedCapability)
    );
    assert_eq!(
        session.resume_fetch(AfterFetch::ExtendedCapability, Ok(vec![0; 71])),
        Step::Finished(Err(GsUsbError::InvalidResponse { expected: 72, actual: 71 }))
    );
    assert_eq!(
        session.resume_fetch(AfterFetch::ExtendedCapability, Err(UsbError::Io)),
        Step::Finished(Err(GsUsbError::ControlTransfer(UsbError::Io)))
    );
    assert!(!session.cached_capability().unwrap().has_fd_timing());

    let wide = DeviceCapability::unpack_extended(&extended_capability_bytes(feature, 80_000_000));
    assert_eq!(
        session.resume_fetch(
            AfterFetch::ExtendedCapability,
            Ok(extended_capability_bytes(feature, 80_000_000))
        ),
        Step::Finished(Ok(Outcome::ExtendedCapability(Some(wide))))
    );
    assert_eq!(wide.dtseg1_max, Some(32));
    assert_eq!(session.cached_capability(), Some(wide));

    // Cached with its data phase bounds: no further fetch.
    assert_eq!(
        session.device_capability_extended(),
        Step::Finished(Ok(Outcome::ExtendedCapability(Some(wide))))
    );
    assert_eq!(session.device_capability(), Step::Finished(Ok(Outcome::Capability(wide))));
}

#[test]
fn get_state_needs_the_feature() {
    let session = session_with_capability(GS_CAN_FEATURE_FD, 80_000_000);
    assert_eq!(session.get_state(0), Step::Finished(Err(GsUsbError::GetStateNotSupported)));

    let mut session = session_with_capability(GS_CAN_FEATURE_GET_STATE, 80_000_000);
    assert_eq!(session.get_state(1), Step::Fetch(control_in_request(14, 1, 12), AfterFetch::State));
    assert_eq!(
        session.resume_fetch(AfterFetch::State, Ok(words(&[3, 128, 256]))),
        Step::Finished(Ok(Outcome::State(DeviceState { state: 3, rxerr: 128, txerr: 256 })))
    );
    assert_eq!(
        session.resume_fetch(AfterFetch::State, Ok(vec![0; 4])),
        Step::Finished(Err(GsUsbError::InvalidResponse { expected: 12, actual: 4 }))
    );
}

#[test]
fn device_info_is_read_each_time() {
    let mut session = GsUsb::new(1, 2);
    assert_eq!(session.device_info(), Step::Fetch(control_in_request(5, 0, 12), AfterFetch::DeviceInfo));
    let bytes = vec![0, 0, 0, 1, 20, 0, 0, 0, 10, 0, 0, 0];
    assert_eq!(
        session.resume_fetch(AfterFetch::DeviceInfo, Ok(bytes.clone())),
        Step::Finished(Ok(Outcome::Info(DeviceInfo::unpack(&bytes))))
    );
    assert_eq!(
        session.resume_fetch(AfterFetch::DeviceInfo, Ok(vec![1; 11])),
        Step::Finished(Err(GsUsbError::InvalidResponse { expected: 12, actual: 11 }))
    );
    assert_eq!(
        session.resume_fetch(AfterFetch::DeviceInfo, Err(UsbError::Timeout)),
        Step::Finished(Err(GsUsbError::ControlTransfer(UsbError::Timeout)))
    );
    assert_eq!(session.device_info(), Step::Fetch(control_in_request(5, 0, 12), AfterFetch::DeviceInfo));
}

#[test]
fn host_format_ignores_failures() {
    let mut session = GsUsb::new(1, 2);
    assert_eq!(
        session.send_host_format(),
        Step::Command(control_out_request(0, vec![0xEF, 0xBE, 0, 0]), AfterCommand::HostFormat)
    );
    assert_eq!(
        session.resume_command(AfterCommand::HostFormat, Err(UsbError::Pipe)),
        Step::Finished(Ok(Outcome::Done))
    );
    assert_eq!(
        session.resume_command(AfterCommand::HostFormat, Ok(())),
        Step::Finished(Ok(Outcome::Done))
    );
}

#[test]
fn serial_number_is_cached_once_read() {
    let mut session = GsUsb::new(1, 2);
    assert_eq!(session.serial_number(), Step::SerialNumber);
    assert_eq!(
        session.resume_serial_number(Err(UsbError::BadDescriptor)),
        Step::Finished(Err(GsUsbError::Usb(UsbError::BadDescriptor)))
    );
    assert_eq!(
        session.resume_serial_number(Ok(None)),
        Step::Finished(Ok(Outcome::SerialNumber(String::new())))
    );
    assert_eq!(session.serial_number(), Step::SerialNumber);
    assert_eq!(
        session.resume_serial_number(Ok(Some(String::from("0042AB")))),
        Step::Finished(Ok(Outcome::SerialNumber(String::from("0042AB"))))
    );
    assert_eq!(
        session.serial_number(),
        Step::Finished(Ok(Outcome::SerialNumber(String::from("0042AB"))))
    );
}

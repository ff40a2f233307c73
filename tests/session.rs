use std::sync::mpsc::{sync_channel, TrySendError};
use ups120_daemon::codec::{FrameError, HostSideUsbPayload, UsbData};
use ups120_daemon::data_models::{AllMeasurements, ChargerCalibration};
use ups120_daemon::discovery::{
    assign_endpoints, select_device, DeviceId, Direction, EndpointDescriptor, EndpointRoles,
    InterfaceDescriptor, TransferType,
};
use ups120_daemon::session::{Action, Outcome, Session, SessionConfig};
use ups120_daemon::usb_types::{EndpointProblem, TransferError, UsbCommand, UsbError, UsbEvent};

const VID: u16 = 0x1209;
const PID: u16 = 0x0002;

fn config() -> SessionConfig {
    SessionConfig { vid: VID, pid: PID, manage_kernel_driver: true, calibration: ChargerCalibration::firmware() }
}

fn payload(seed: u16) -> HostSideUsbPayload {
    HostSideUsbPayload {
        bq25730_adc_vbat_raw: 12_000 + seed,
        bq25730_adc_vsys_raw: 12_100,
        bq25730_adc_ichg_raw: seed,
        bq25730_adc_idchg_raw: 0,
        bq25730_adc_iin_raw: 2_000,
        bq25730_adc_psys_raw: 36,
        bq25730_adc_vbus_raw: 20_000,
        bq25730_adc_cmpin_raw: 1_200,
        bq76920_cell1_mv: 3_700 + seed as i32,
        bq76920_cell2_mv: 3_701,
        bq76920_cell3_mv: 3_702,
        bq76920_cell4_mv: 3_703,
        bq76920_cell5_mv: 3_704,
        bq76920_ts1_raw_adc: 3_141,
        bq76920_ts2_present: 0,
        bq76920_ts2_raw_adc: 0,
        bq76920_ts3_present: 0,
        bq76920_ts3_raw_adc: 0,
        bq76920_is_thermistor: 0,
        bq76920_current_ma: 100,
        bq76920_system_status_bits: 0,
        bq76920_mos_status_bits: 3,
        ina226_voltage_bits: 0,
        ina226_current_bits: 0,
        ina226_power_bits: 0,
        bq25730_charger_status_raw_u16: 0,
        bq25730_prochot_status_raw_u16: 0,
        bq76920_alerts_system_status_bits: 0,
    }
}

fn ep(address: u8, direction: Direction, transfer_type: TransferType) -> EndpointDescriptor {
    EndpointDescriptor { address, direction, transfer_type }
}

/// One OUT and two IN interrupt endpoints on interface 1, after an
/// unrelated interface 0.
fn descriptors() -> Vec<InterfaceDescriptor> {
    vec![
        InterfaceDescriptor {
            interface_number: 0,
            endpoints: vec![ep(0x03, Direction::Out, TransferType::Interrupt)],
        },
        InterfaceDescriptor {
            interface_number: 1,
            endpoints: vec![
                ep(0x02, Direction::Out, TransferType::Bulk),
                ep(0x01, Direction::Out, TransferType::Interrupt),
                ep(0x81, Direction::In, TransferType::Interrupt),
                ep(0x85, Direction::In, TransferType::Bulk),
                ep(0x82, Direction::In, TransferType::Interrupt),
            ],
        },
    ]
}

/// Runs discovery, claiming and the handshake; returns the session streaming.
fn streaming_session() -> Session {
    let (mut s, a) = Session::start(config());
    assert_eq!(a, Action::ListDevices);
    let a = s.step(Outcome::Devices(vec![
        DeviceId { vendor_id: 0x1d6b, product_id: 0x0002 },
        DeviceId { vendor_id: VID, product_id: PID },
    ]));
    assert_eq!(a, Action::Open { index: 1 });
    assert_eq!(s.step(Outcome::Done), Action::Reset);
    assert_eq!(
        s.step(Outcome::Failed(TransferError::NotSupported)),
        Action::QueryKernelDriver { interface: 1 }
    );
    assert_eq!(s.step(Outcome::KernelDriverActive(true)), Action::DetachKernelDriver { interface: 1 });
    assert_eq!(s.step(Outcome::Done), Action::SetConfiguration { configuration: 1 });
    assert_eq!(s.step(Outcome::Done), Action::ClaimInterface { interface: 1 });
    assert_eq!(s.step(Outcome::Done), Action::ReadDescriptors);
    let a = s.step(Outcome::Descriptors(descriptors()));
    assert_eq!(a, Action::Write { endpoint: 0x01, frame: UsbData::SubscribeStatus, timeout_secs: 5 });
    if let Action::Write { frame, .. } = a {
        assert_eq!(frame.encode(), vec![0x00]);
    }
    assert_eq!(s.step(Outcome::Done), Action::Read { endpoint: 0x81, timeout_secs: 5, until_command: false });
    let response = UsbData::StatusResponse(payload(0)).encode();
    assert_eq!(
        s.step(Outcome::Received(response)),
        Action::Read { endpoint: 0x82, timeout_secs: 10, until_command: true }
    );
    s
}

#[test]
fn three_pushes_become_three_ordered_events() {
    let mut s = streaming_session();
    let (tx, rx) = sync_channel::<UsbEvent>(32);
    for seed in 1..=3u16 {
        let frame = UsbData::StatusPush(payload(seed)).encode();
        let a = s.step(Outcome::Received(frame));
        match a {
            Action::Deliver(event) => tx.try_send(event).unwrap(),
            other => panic!("expected a delivery, got {:?}", other),
        }
        assert_eq!(
            s.step(Outcome::Delivered),
            Action::Read { endpoint: 0x82, timeout_secs: 10, until_command: true }
        );
    }
    drop(tx);
    let events: Vec<UsbEvent> = rx.iter().collect();
    assert_eq!(events.len(), 3);
    for (i, event) in events.iter().enumerate() {
        let expected = AllMeasurements::<5>::from_payload(&payload(i as u16 + 1), &ChargerCalibration::firmware());
        assert_eq!(*event, UsbEvent::Measurements(expected));
        if let UsbEvent::Measurements(m) = event {
            assert_eq!(m.bq76920.cell_voltages[0], 3_700 + i as i32 + 1);
        }
    }
}

#[test]
fn missing_device_is_retried_without_end() {
    let (mut s, mut a) = Session::start(config());
    for _ in 0..1_000 {
        assert_eq!(a, Action::ListDevices);
        a = s.step(Outcome::Devices(vec![DeviceId { vendor_id: 0x1d6b, product_id: 0x0003 }]));
        assert_eq!(a, Action::Sleep { secs: 25, reason: UsbError::DeviceNotFound });
        a = s.step(Outcome::Done);
    }
    assert_eq!(a, Action::ListDevices);
    a = s.step(Outcome::ContextFailed(TransferError::NoMem));
    assert_eq!(a, Action::Sleep { secs: 10, reason: UsbError::TransferFailed(TransferError::NoMem) });
    a = s.step(Outcome::Done);
    assert_eq!(a, Action::ListDevices);
    a = s.step(Outcome::Devices(vec![DeviceId { vendor_id: VID, product_id: PID }]));
    assert_eq!(a, Action::Open { index: 0 });
}

#[test]
fn full_event_channel_blocks_the_session() {
    let mut s = streaming_session();
    let (tx, rx) = sync_channel::<UsbEvent>(32);
    let mut delivered = 0;
    let mut blocked = None;
    for seed in 0..40u16 {
        let a = s.step(Outcome::Received(UsbData::StatusPush(payload(seed)).encode()));
        let event = match a {
            Action::Deliver(event) => event,
            other => panic!("expected a delivery, got {:?}", other),
        };
        match tx.try_send(event) {
            Ok(()) => {
                delivered += 1;
                s.step(Outcome::Delivered);
            }
            Err(TrySendError::Full(event)) => {
                blocked = Some(event);
                break;
            }
            Err(TrySendError::Disconnected(_)) => panic!("consumer gone"),
        }
    }
    assert_eq!(delivered, 32);
    let pending = blocked.expect("the channel never filled");
    for _ in 0..5 {
        let again = s.step(Outcome::Received(UsbData::StatusPush(payload(99)).encode()));
        assert_eq!(again, Action::Deliver(pending));
        assert_eq!(s.step(Outcome::Done), Action::Deliver(pending));
    }
    let first = rx.try_recv().unwrap();
    assert_eq!(
        first,
        UsbEvent::Measurements(AllMeasurements::<5>::from_payload(&payload(0), &ChargerCalibration::firmware()))
    );
    tx.try_send(pending).unwrap();
    assert_eq!(
        s.step(Outcome::Delivered),
        Action::Read { endpoint: 0x82, timeout_secs: 10, until_command: true }
    );
}

#[test]
fn empty_read_is_retried() {
    let mut s = streaming_session();
    assert_eq!(
        s.step(Outcome::Received(vec![])),
        Action::Read { endpoint: 0x82, timeout_secs: 10, until_command: true }
    );
}

#[test]
fn bad_push_frames_are_reported_and_streaming_goes_on() {
    let mut s = streaming_session();
    assert_eq!(
        s.step(Outcome::Received(vec![0x55, 1, 2])),
        Action::Deliver(UsbEvent::Error(UsbError::PushParseError(FrameError::UnknownDiscriminant(0x55))))
    );
    assert!(matches!(s.step(Outcome::Delivered), Action::Read { .. }));
    assert_eq!(
        s.step(Outcome::Received(vec![0xC0, 1, 2])),
        Action::Deliver(UsbEvent::Error(UsbError::PushParseError(FrameError::Truncated)))
    );
    assert!(matches!(s.step(Outcome::Delivered), Action::Read { .. }));
    assert_eq!(
        s.step(Outcome::Received(UsbData::StatusResponse(payload(1)).encode())),
        Action::Deliver(UsbEvent::Error(UsbError::UnexpectedResponse))
    );
    assert!(matches!(s.step(Outcome::Delivered), Action::Read { .. }));
}

#[test]
fn read_failure_tears_down_and_rediscovers() {
    let mut s = streaming_session();
    assert_eq!(
        s.step(Outcome::Failed(TransferError::NoDevice)),
        Action::Deliver(UsbEvent::Error(UsbError::TransferFailed(TransferError::NoDevice)))
    );
    assert_eq!(s.step(Outcome::Delivered), Action::Close { interface: 1, reattach_kernel_driver: true });
    assert_eq!(s.step(Outcome::Done), Action::ListDevices);
    let mut s = streaming_session();
    assert_eq!(
        s.step(Outcome::Failed(TransferError::Timeout)),
        Action::Deliver(UsbEvent::Error(UsbError::Timeout))
    );
}

#[test]
fn unsubscribe_writes_the_command_then_rediscovers() {
    let mut s = streaming_session();
    let a = s.step(Outcome::Command(UsbCommand::Unsubscribe));
    assert_eq!(a, Action::Write { endpoint: 0x01, frame: UsbData::UnsubscribeStatus, timeout_secs: 5 });
    if let Action::Write { frame, .. } = a {
        assert_eq!(frame.encode(), vec![0x01]);
    }
    assert_eq!(s.step(Outcome::Done), Action::Close { interface: 1, reattach_kernel_driver: true });
    assert_eq!(s.step(Outcome::Done), Action::ListDevices);
}

#[test]
fn failed_unsubscribe_write_is_reported() {
    let mut s = streaming_session();
    s.step(Outcome::Command(UsbCommand::Unsubscribe));
    assert_eq!(
        s.step(Outcome::Failed(TransferError::Pipe)),
        Action::Deliver(UsbEvent::Error(UsbError::CommandWriteFailed(TransferError::Pipe)))
    );
    assert_eq!(s.step(Outcome::Delivered), Action::Close { interface: 1, reattach_kernel_driver: true });
    assert_eq!(
        s.step(Outcome::Done),
        Action::Sleep { secs: 5, reason: UsbError::CommandWriteFailed(TransferError::Pipe) }
    );
    assert_eq!(s.step(Outcome::Done), Action::ListDevices);

    let mut s = streaming_session();
    s.step(Outcome::Command(UsbCommand::Unsubscribe));
    assert_eq!(
        s.step(Outcome::Failed(TransferError::Timeout)),
        Action::Deliver(UsbEvent::Error(UsbError::Timeout))
    );
}

#[test]
fn subscribe_command_restarts_the_session() {
    let mut s = streaming_session();
    assert_eq!(
        s.step(Outcome::Command(UsbCommand::Subscribe)),
        Action::Close { interface: 1, reattach_kernel_driver: true }
    );
    assert_eq!(s.step(Outcome::Done), Action::ListDevices);
}

#[test]
fn closed_command_channel_stops_the_session() {
    let mut s = streaming_session();
    assert_eq!(s.step(Outcome::CommandChannelClosed), Action::Close { interface: 1, reattach_kernel_driver: true });
    assert_eq!(s.step(Outcome::Done), Action::Stop);
    assert_eq!(s.step(Outcome::Done), Action::Stop);
}

fn claimed_session(detach: bool) -> Session {
    let (mut s, _) = Session::start(config());
    s.step(Outcome::Devices(vec![DeviceId { vendor_id: VID, product_id: PID }]));
    s.step(Outcome::Done);
    s.step(Outcome::Done);
    if detach {
        s.step(Outcome::KernelDriverActive(true));
        assert_eq!(s.step(Outcome::Done), Action::SetConfiguration { configuration: 1 });
    } else {
        assert_eq!(s.step(Outcome::KernelDriverActive(false)), Action::SetConfiguration { configuration: 1 });
    }
    s
}

#[test]
fn setup_failures_close_then_back_off() {
    let mut s = claimed_session(true);
    assert_eq!(
        s.step(Outcome::Failed(TransferError::Busy)),
        Action::Close { interface: 1, reattach_kernel_driver: true }
    );
    assert_eq!(
        s.step(Outcome::Done),
        Action::Sleep { secs: 25, reason: UsbError::SetConfigurationFailed(TransferError::Busy) }
    );
    assert_eq!(s.step(Outcome::Done), Action::ListDevices);

    let mut s = claimed_session(false);
    assert_eq!(s.step(Outcome::Done), Action::ClaimInterface { interface: 1 });
    assert_eq!(
        s.step(Outcome::Failed(TransferError::Access)),
        Action::Close { interface: 1, reattach_kernel_driver: false }
    );
    assert_eq!(
        s.step(Outcome::Done),
        Action::Sleep { secs: 25, reason: UsbError::ClaimInterfaceFailed(TransferError::Access) }
    );

    let (mut s, _) = Session::start(config());
    s.step(Outcome::Devices(vec![DeviceId { vendor_id: VID, product_id: PID }]));
    s.step(Outcome::Done);
    s.step(Outcome::Done);
    assert_eq!(s.step(Outcome::KernelDriverActive(true)), Action::DetachKernelDriver { interface: 1 });
    assert_eq!(
        s.step(Outcome::Failed(TransferError::Access)),
        Action::Close { interface: 1, reattach_kernel_driver: false }
    );
    assert_eq!(
        s.step(Outcome::Done),
        Action::Sleep { secs: 25, reason: UsbError::DetachFailed(TransferError::Access) }
    );

    let (mut s, _) = Session::start(config());
    s.step(Outcome::Devices(vec![DeviceId { vendor_id: VID, product_id: PID }]));
    assert_eq!(
        s.step(Outcome::Failed(TransferError::Access)),
        Action::Sleep { secs: 25, reason: UsbError::OpenFailed(TransferError::Access) }
    );
}

#[test]
fn kernel_driver_left_alone_where_not_managed() {
    let mut c = config();
    c.manage_kernel_driver = false;
    let (mut s, _) = Session::start(c);
    s.step(Outcome::Devices(vec![DeviceId { vendor_id: VID, product_id: PID }]));
    assert_eq!(s.step(Outcome::Done), Action::Reset);
    assert_eq!(s.step(Outcome::Done), Action::SetConfiguration { configuration: 1 });
}

#[test]
fn missing_endpoints_abort_the_session() {
    let mut s = claimed_session(false);
    s.step(Outcome::Done);
    s.step(Outcome::Done);
    let only_bulk = vec![InterfaceDescriptor {
        interface_number: 1,
        endpoints: vec![ep(0x01, Direction::Out, TransferType::Interrupt), ep(0x81, Direction::In, TransferType::Bulk)],
    }];
    assert_eq!(
        s.step(Outcome::Descriptors(only_bulk)),
        Action::Close { interface: 1, reattach_kernel_driver: false }
    );
    assert_eq!(
        s.step(Outcome::Done),
        Action::Sleep { secs: 25, reason: UsbError::EndpointNotFound(EndpointProblem::InEndpointMissing) }
    );
}

fn handshake_until_response(s: &mut Session) {
    s.step(Outcome::Done);
    s.step(Outcome::Done);
    s.step(Outcome::Descriptors(descriptors()));
}

#[test]
fn handshake_failures_are_reported_then_backed_off() {
    let mut s = claimed_session(true);
    handshake_until_response(&mut s);
    assert_eq!(
        s.step(Outcome::Failed(TransferError::Timeout)),
        Action::Deliver(UsbEvent::Error(UsbError::Timeout))
    );
    assert_eq!(s.step(Outcome::Delivered), Action::Close { interface: 1, reattach_kernel_driver: true });
    assert_eq!(s.step(Outcome::Done), Action::Sleep { secs: 5, reason: UsbError::Timeout });
    assert_eq!(s.step(Outcome::Done), Action::ListDevices);

    let mut s = claimed_session(false);
    handshake_until_response(&mut s);
    assert_eq!(
        s.step(Outcome::Failed(TransferError::Io)),
        Action::Deliver(UsbEvent::Error(UsbError::CommandWriteFailed(TransferError::Io)))
    );

    let mut s = claimed_session(false);
    handshake_until_response(&mut s);
    s.step(Outcome::Done);
    assert_eq!(
        s.step(Outcome::Received(UsbData::StatusPush(payload(0)).encode())),
        Action::Deliver(UsbEvent::Error(UsbError::UnexpectedResponse))
    );

    let mut s = claimed_session(false);
    handshake_until_response(&mut s);
    s.step(Outcome::Done);
    assert_eq!(
        s.step(Outcome::Received(vec![0x42])),
        Action::Deliver(UsbEvent::Error(UsbError::ResponseParseError(FrameError::UnknownDiscriminant(0x42))))
    );

    let mut s = claimed_session(false);
    handshake_until_response(&mut s);
    s.step(Outcome::Done);
    assert_eq!(
        s.step(Outcome::Failed(TransferError::Overflow)),
        Action::Deliver(UsbEvent::Error(UsbError::ResponseReadFailed(TransferError::Overflow)))
    );
    let mut s = claimed_session(false);
    handshake_until_response(&mut s);
    s.step(Outcome::Done);
    assert_eq!(
        s.step(Outcome::Failed(TransferError::Timeout)),
        Action::Deliver(UsbEvent::Error(UsbError::Timeout))
    );
}

#[test]
fn endpoint_roles_follow_descriptor_order() {
    assert_eq!(
        assign_endpoints(&descriptors(), 1),
        Ok(EndpointRoles { command: 0x01, response: 0x81, push: 0x82 })
    );
    let single_in = vec![InterfaceDescriptor {
        interface_number: 1,
        endpoints: vec![ep(0x81, Direction::In, TransferType::Interrupt), ep(0x01, Direction::Out, TransferType::Interrupt)],
    }];
    assert_eq!(
        assign_endpoints(&single_in, 1),
        Ok(EndpointRoles { command: 0x01, response: 0x81, push: 0x81 })
    );
    assert_eq!(
        assign_endpoints(&descriptors(), 2),
        Err(UsbError::EndpointNotFound(EndpointProblem::InterfaceMissing))
    );
    let no_out = vec![InterfaceDescriptor {
        interface_number: 1,
        endpoints: vec![ep(0x81, Direction::In, TransferType::Interrupt)],
    }];
    assert_eq!(
        assign_endpoints(&no_out, 1),
        Err(UsbError::EndpointNotFound(EndpointProblem::CommandEndpointMissing))
    );
    let zero_out = vec![InterfaceDescriptor {
        interface_number: 1,
        endpoints: vec![ep(0x00, Direction::Out, TransferType::Interrupt), ep(0x81, Direction::In, TransferType::Interrupt)],
    }];
    assert_eq!(
        assign_endpoints(&zero_out, 1),
        Err(UsbError::EndpointNotFound(EndpointProblem::CommandEndpointMissing))
    );
    let zero_then_out = vec![InterfaceDescriptor {
        interface_number: 1,
        endpoints: vec![
            ep(0x00, Direction::Out, TransferType::Interrupt),
            ep(0x81, Direction::In, TransferType::Interrupt),
            ep(0x02, Direction::Out, TransferType::Interrupt),
        ],
    }];
    assert_eq!(
        assign_endpoints(&zero_then_out, 1),
        Ok(EndpointRoles { command: 0x02, response: 0x81, push: 0x81 })
    );
    let second_alt = vec![
        InterfaceDescriptor { interface_number: 1, endpoints: vec![] },
        descriptors()[1].clone(),
    ];
    assert_eq!(
        assign_endpoints(&second_alt, 1),
        Err(UsbError::EndpointNotFound(EndpointProblem::CommandEndpointMissing))
    );
}

#[test]
fn first_matching_device_is_selected() {
    let ds = vec![
        DeviceId { vendor_id: VID, product_id: 0x0001 },
        DeviceId { vendor_id: VID, product_id: PID },
        DeviceId { vendor_id: VID, product_id: PID },
    ];
    assert_eq!(select_device(&ds, VID, PID), Some(1));
    assert_eq!(select_device(&ds, 0x1d6b, PID), None);
    assert_eq!(select_device(&vec![], VID, PID), None);
}

#[test]
fn transfer_timeouts_are_their_own_kind() {
    assert_eq!(UsbError::from_transfer(TransferError::Timeout), UsbError::Timeout);
    assert_eq!(UsbError::from_transfer(TransferError::Busy), UsbError::TransferFailed(TransferError::Busy));
}

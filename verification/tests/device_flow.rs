use libfip::api::{E_HANDLE, GUID};
use libfip::device::{DeviceHandle, TransmitError, device_type_guid, interpret_transmit};
use libfip::lifecycle::{
    EndReason, LifecycleAction, LifecycleEvent, LifecycleMachine, LifecyclePhase,
};
use libfip::packet::{ControlPacket, Request};
use libfip::registry::{State, get_display};
use libfip::session::{
    MAX_DATA_SIZE, ProtocolViolation, Session, TransactError,
};
use libfip::transport::{Transport, TransportError};

/// A scripted transport: bulk reads are served from a queue, writes are
/// recorded, and every kind of fault can be staged.
struct ScriptedTransport {
    bulk_reads: Vec<Result<Vec<u8>, TransportError>>,
    reports: Vec<Result<[u8; 2], TransportError>>,
    writes: Vec<Vec<u8>>,
    write_fault: Option<TransportError>,
}

impl ScriptedTransport {
    fn new() -> ScriptedTransport {
        ScriptedTransport { bulk_reads: Vec::new(), reports: Vec::new(), writes: Vec::new(), write_fault: None }
    }
}

impl Transport for ScriptedTransport {
    fn read_report(&mut self, _timeout_ms: u64) -> Result<[u8; 2], TransportError> {
        if self.reports.is_empty() {
            Err(TransportError::Timeout)
        } else {
            self.reports.remove(0)
        }
    }

    fn read_bulk(&mut self, _len: usize, _timeout_ms: u64) -> Result<Vec<u8>, TransportError> {
        if self.bulk_reads.is_empty() {
            Err(TransportError::Other)
        } else {
            self.bulk_reads.remove(0)
        }
    }

    fn write_bulk(&mut self, data: &[u8], _timeout_ms: u64) -> Result<usize, TransportError> {
        match self.write_fault {
            Some(e) => Err(e),
            None => {
                self.writes.push(data.to_vec());
                Ok(data.len())
            },
        }
    }
}

/// The wire bytes of a response packet with the given error fields and
/// declared payload size.
fn response_bytes(header_error: u32, request_error: u32, data_size: u32) -> Vec<u8> {
    let packet = ControlPacket {
        server_id: 0,
        page: 0,
        data_size,
        header_error,
        header_info: 0,
        request: 0,
        param_1: 0,
        param_2: 0,
        param_3: 0,
        request_error,
        request_info: 0,
    };
    packet.encode()
}

fn ready_handle(reads: Vec<Result<Vec<u8>, TransportError>>) -> DeviceHandle<ScriptedTransport> {
    let mut transport = ScriptedTransport::new();
    transport.bulk_reads = reads;
    let session = Session::new(transport, String::from("SN-0001"), device_type_guid());
    let mut handle = DeviceHandle::new();
    handle.install(session);
    handle
}

fn recorded_writes(handle: &DeviceHandle<ScriptedTransport>) -> &Vec<Vec<u8>> {
    &handle.slot.as_ref().unwrap().transport.writes
}

#[test]
fn transact_writes_packet_then_payload_and_reads_response() {
    let mut transport = ScriptedTransport::new();
    transport.bulk_reads = vec![Ok(response_bytes(0, 0, 0))];
    let mut session = Session::new(transport, String::from("SN"), device_type_guid());
    let mut packet = ControlPacket::new(Request::SaveFile);
    packet.set_data_size(3);
    let payload: Vec<u8> = vec![9, 8, 7];
    let (response, data) = session.transact(&packet, Some(payload.as_slice())).unwrap();
    assert!(!response.has_error());
    assert!(data.is_none());
    assert_eq!(session.transport.writes.len(), 2);
    assert_eq!(session.transport.writes[0], packet.encode());
    assert_eq!(session.transport.writes[1], vec![9, 8, 7]);
}

#[test]
fn transact_reads_declared_response_payload() {
    let mut transport = ScriptedTransport::new();
    transport.bulk_reads = vec![Ok(response_bytes(0, 0, 4)), Ok(vec![1, 2, 3, 4])];
    let mut session = Session::new(transport, String::from("SN"), device_type_guid());
    let packet = ControlPacket::new(Request::SomeFactoryModeRequest);
    let (response, data) = session.transact(&packet, None).unwrap();
    assert_eq!(response.data_size(), 4);
    assert_eq!(data, Some(vec![1, 2, 3, 4]));
}

#[test]
fn transact_aborts_on_oversized_declared_payload() {
    let mut transport = ScriptedTransport::new();
    transport.bulk_reads = vec![
        Ok(response_bytes(0, 0, MAX_DATA_SIZE as u32)),
        Ok(vec![0; 16]), // must never be asked for
    ];
    let mut session = Session::new(transport, String::from("SN"), device_type_guid());
    let packet = ControlPacket::new(Request::SomeFactoryModeRequest);
    let r = session.transact(&packet, None);
    assert_eq!(r, Err(TransactError::Violation(ProtocolViolation::OversizedPayload)));
    // the staged second read is still queued: nothing attempted the read
    assert_eq!(session.transport.bulk_reads.len(), 1);
}

#[test]
fn transact_largest_declared_payload_below_cap_is_read() {
    let size: usize = MAX_DATA_SIZE - 1;
    let mut transport = ScriptedTransport::new();
    transport.bulk_reads = vec![Ok(response_bytes(0, 0, size as u32)), Ok(vec![0xAB; size])];
    let mut session = Session::new(transport, String::from("SN"), device_type_guid());
    let packet = ControlPacket::new(Request::SomeFactoryModeRequest);
    let (_, data) = session.transact(&packet, None).unwrap();
    assert_eq!(data.unwrap().len(), size);
}

#[test]
fn transact_skips_the_payload_write_when_the_payload_is_empty() {
    let mut transport = ScriptedTransport::new();
    transport.bulk_reads = vec![Ok(response_bytes(0, 0, 0))];
    let mut session = Session::new(transport, String::from("SN"), device_type_guid());
    let packet = ControlPacket::new(Request::ClearImage);
    let empty: Vec<u8> = Vec::new();
    session.transact(&packet, Some(empty.as_slice())).unwrap();
    assert_eq!(session.transport.writes.len(), 1);
    assert_eq!(session.transport.writes[0], packet.encode());
}

#[test]
fn transact_short_response_payload_is_a_protocol_violation() {
    let mut transport = ScriptedTransport::new();
    transport.bulk_reads = vec![Ok(response_bytes(0, 0, 4)), Ok(vec![1, 2])];
    let mut session = Session::new(transport, String::from("SN"), device_type_guid());
    let packet = ControlPacket::new(Request::SomeFactoryModeRequest);
    let r = session.transact(&packet, None);
    assert_eq!(r, Err(TransactError::Violation(ProtocolViolation::ShortTransfer)));
}

#[test]
fn transact_short_response_header_is_a_protocol_violation() {
    let mut transport = ScriptedTransport::new();
    transport.bulk_reads = vec![Ok(vec![0; 10])];
    let mut session = Session::new(transport, String::from("SN"), device_type_guid());
    let packet = ControlPacket::new(Request::SetLed);
    let r = session.transact(&packet, None);
    assert_eq!(r, Err(TransactError::Violation(ProtocolViolation::ShortTransfer)));
}

#[test]
fn transact_propagates_transport_faults_unchanged() {
    let mut transport = ScriptedTransport::new();
    transport.write_fault = Some(TransportError::DeviceGone);
    let mut session = Session::new(transport, String::from("SN"), device_type_guid());
    let packet = ControlPacket::new(Request::SetLed);
    let r = session.transact(&packet, None);
    assert_eq!(r, Err(TransactError::Transport(TransportError::DeviceGone)));
}

#[test]
fn transactions_never_interleave_on_one_session() {
    // Two full exchanges through one session: every write of the first
    // transaction precedes every write of the second, at transaction
    // granularity — the exclusive borrow admits no other order.
    let mut handle = ready_handle(vec![
        Ok(response_bytes(0, 0, 0)),
        Ok(response_bytes(0, 0, 0)),
    ]);
    assert_eq!(handle.save_file(1, 3, &[0xAA, 0xBB]), Ok(()));
    assert_eq!(handle.set_led(2, 5, true), Ok(()));
    let writes = recorded_writes(&handle);
    assert_eq!(writes.len(), 3);

    let mut first = ControlPacket::new(Request::SaveFile);
    first.set_param_1(1);
    first.set_param_3(3);
    first.set_data_size(2);
    assert_eq!(writes[0], first.encode());
    assert_eq!(writes[1], vec![0xAA, 0xBB]);

    let mut second = ControlPacket::new(Request::SetLed);
    second.set_param_1(2);
    second.set_param_2(5);
    second.set_param_3(1);
    assert_eq!(writes[2], second.encode());
}

#[test]
fn save_file_end_to_end_packet_and_payload() {
    let source: Vec<u8> = vec![0x10, 0x20, 0x30, 0x40, 0x50];
    let mut handle = ready_handle(vec![Ok(response_bytes(0, 0, 0))]);
    assert_eq!(handle.save_file(1, 3, source.as_slice()), Ok(()));
    let writes = recorded_writes(&handle);
    assert_eq!(writes.len(), 2);
    let sent = ControlPacket::decode(writes[0].as_slice());
    assert_eq!(sent.param_1(), 1);
    assert_eq!(sent.param_2(), 0);
    assert_eq!(sent.param_3(), 3);
    assert_eq!(sent.data_size(), source.len());
    assert!(matches!(sent.request(), Ok(Request::SaveFile)));
    assert_eq!(writes[1], source);
}

#[test]
fn operations_fail_when_the_device_rejects_the_request() {
    let mut handle = ready_handle(vec![Ok(response_bytes(7, 0, 0))]);
    assert_eq!(handle.clear_image(1), Err(()));
    let mut handle = ready_handle(vec![Ok(response_bytes(0, 5, 0))]);
    assert_eq!(handle.delete_file(1, 2), Err(()));
}

#[test]
fn operations_fail_immediately_on_an_empty_slot() {
    let mut handle: DeviceHandle<ScriptedTransport> = DeviceHandle::new();
    assert!(!handle.ready());
    assert_eq!(handle.set_led(0, 1, true), Err(()));
    assert_eq!(handle.clear_image(0), Err(()));
    assert_eq!(handle.save_file(0, 1, &[1]), Err(()));
    assert_eq!(handle.display_file(0, 1, 2), Err(()));
    assert_eq!(handle.delete_file(0, 1), Err(()));
    assert_eq!(handle.serial_number(), Err(()));
    assert_eq!(handle.device_type_uuid(), Err(()));
}

#[test]
fn set_image_data_sends_the_full_frame() {
    let mut handle = ready_handle(vec![Ok(response_bytes(0, 0, 0))]);
    let frame = Box::new([0x5Au8; 0x38400]);
    assert_eq!(handle.set_image_data(3, &frame), Ok(()));
    let writes = recorded_writes(&handle);
    assert_eq!(writes.len(), 2);
    let sent = ControlPacket::decode(writes[0].as_slice());
    assert!(matches!(sent.request(), Ok(Request::SetImage)));
    assert_eq!(sent.page(), 3);
    assert_eq!(sent.data_size(), 0x38400);
    assert_eq!(writes[1].len(), 0x38400);
    assert!(writes[1].iter().all(|b| *b == 0x5A));
}

#[test]
fn display_file_and_delete_file_share_the_reused_opcode() {
    let mut handle = ready_handle(vec![
        Ok(response_bytes(0, 0, 0)),
        Ok(response_bytes(0, 0, 0)),
    ]);
    assert_eq!(handle.display_file(1, 2, 3), Ok(()));
    assert_eq!(handle.delete_file(4, 5), Ok(()));
    let writes = recorded_writes(&handle);
    let shown = ControlPacket::decode(writes[0].as_slice());
    assert!(matches!(shown.request(), Ok(Request::DeleteFile)));
    assert_eq!((shown.param_1(), shown.param_2(), shown.param_3()), (1, 2, 3));
    assert_eq!(shown.data_size(), 0);
    let deleted = ControlPacket::decode(writes[1].as_slice());
    assert!(matches!(deleted.request(), Ok(Request::DeleteFile)));
    assert_eq!((deleted.param_1(), deleted.param_2(), deleted.param_3()), (4, 0, 5));
}

#[test]
fn handle_identity_comes_from_the_session() {
    let handle = ready_handle(vec![]);
    assert!(handle.ready());
    assert_eq!(handle.serial_number(), Ok(String::from("SN-0001")));
    assert_eq!(handle.device_type_uuid(), Ok(device_type_guid()));
}

#[test]
fn interpret_transmit_folds_outcomes() {
    let ok_response = ControlPacket::new(Request::SetLed);
    assert_eq!(interpret_transmit(Ok((ok_response, None))), Ok(()));
    let mut rejected = ControlPacket::new(Request::SetLed);
    rejected.set_request_error(2);
    assert_eq!(interpret_transmit(Ok((rejected, None))), Err(()));
    assert_eq!(interpret_transmit(Err(TransmitError::NotReady)), Err(()));
    assert_eq!(
        interpret_transmit(Err(TransmitError::Failed(TransactError::Transport(
            TransportError::Timeout
        )))),
        Err(())
    );
}

#[test]
fn slot_invalidation_flips_ready_and_operations_fail_fast() {
    let mut handle = ready_handle(vec![]);
    let mut machine = LifecycleMachine { phase: LifecyclePhase::Active, installed: true };
    assert!(handle.ready());

    // a device-gone fault in the report loop
    let action = machine.step(LifecycleEvent::ReportFailed { error: TransportError::DeviceGone });
    assert_eq!(action, LifecycleAction::InvalidateSlot);
    assert!(!machine.installed);
    assert_eq!(machine.phase, LifecyclePhase::Active);
    handle.invalidate();

    assert!(!handle.ready());
    assert_eq!(handle.set_led(0, 0, true), Err(()));
}

#[test]
fn report_loop_timeout_is_not_an_error() {
    let mut machine = LifecycleMachine { phase: LifecyclePhase::Active, installed: true };
    let action = machine.step(LifecycleEvent::ReportFailed { error: TransportError::Timeout });
    assert_eq!(action, LifecycleAction::ReadReport);
    assert!(machine.installed);
}

#[test]
fn report_loop_other_faults_also_invalidate() {
    let mut machine = LifecycleMachine { phase: LifecyclePhase::Active, installed: true };
    let action = machine.step(LifecycleEvent::ReportFailed { error: TransportError::Other });
    assert_eq!(action, LifecycleAction::InvalidateSlot);
    assert!(!machine.installed);
}

#[test]
fn factory_mode_probe_without_error_never_publishes() {
    let mut machine = LifecycleMachine::new();
    assert_eq!(machine.step(LifecycleEvent::Connected), LifecycleAction::SendProbe);

    // the probe response carries no error: the device is in factory mode
    let response = ControlPacket::new(Request::SomeFactoryModeRequest);
    assert!(!response.has_error());
    let action = machine.step(LifecycleEvent::ProbeCompleted { response });
    assert_eq!(action, LifecycleAction::Exit);
    assert!(!machine.installed);
    assert_eq!(machine.phase, LifecyclePhase::Ended { reason: EndReason::FactoryMode });

    let handle: DeviceHandle<ScriptedTransport> = DeviceHandle::new();
    assert!(!handle.ready());
}

#[test]
fn erroring_probe_response_publishes_the_session() {
    let mut machine = LifecycleMachine::new();
    machine.step(LifecycleEvent::Connected);
    let mut response = ControlPacket::new(Request::SomeFactoryModeRequest);
    response.set_header_error(1);
    let action = machine.step(LifecycleEvent::ProbeCompleted { response });
    assert_eq!(action, LifecycleAction::InstallSession);
    assert!(machine.installed);
    assert_eq!(machine.phase, LifecyclePhase::Active);
}

#[test]
fn access_denied_is_retried_exactly_once() {
    let mut machine = LifecycleMachine::new();
    let action = machine.step(LifecycleEvent::ConnectFailed {
        error: TransportError::AccessDenied,
    });
    assert_eq!(action, LifecycleAction::RetryAfterDelay);
    assert_eq!(machine.phase, LifecyclePhase::Connecting { retried: true });

    let action = machine.step(LifecycleEvent::ConnectFailed {
        error: TransportError::AccessDenied,
    });
    assert_eq!(action, LifecycleAction::Exit);
    assert_eq!(machine.phase, LifecyclePhase::Ended { reason: EndReason::ConnectFailed });
}

#[test]
fn other_connect_failures_are_not_retried() {
    let mut machine = LifecycleMachine::new();
    let action = machine.step(LifecycleEvent::ConnectFailed { error: TransportError::Other });
    assert_eq!(action, LifecycleAction::Exit);
    assert_eq!(machine.phase, LifecyclePhase::Ended { reason: EndReason::ConnectFailed });
}

#[test]
fn dropped_handle_ends_the_run() {
    let mut machine = LifecycleMachine { phase: LifecyclePhase::Active, installed: true };
    let action = machine.step(LifecycleEvent::HandleDropped);
    assert_eq!(action, LifecycleAction::Exit);
    assert_eq!(machine.phase, LifecyclePhase::Ended { reason: EndReason::HandleDropped });
}

#[test]
fn failed_probe_exchange_ends_the_run() {
    let mut machine = LifecycleMachine::new();
    machine.step(LifecycleEvent::Connected);
    let action = machine.step(LifecycleEvent::ProbeFailed {
        fault: TransactError::Transport(TransportError::Timeout),
    });
    assert_eq!(action, LifecycleAction::Exit);
    assert_eq!(machine.phase, LifecyclePhase::Ended { reason: EndReason::ConnectFailed });
}

#[test]
fn registry_lookup_and_addresses() {
    let mut state: State<ScriptedTransport> = State::new();
    state.add_display((1, 2), DeviceHandle::new());
    state.add_display((3, 4), ready_handle(vec![]));
    assert_eq!(state.display_addrs(), vec![(1, 2), (3, 4)]);
    assert!(state.display_by_addr(&(1, 2)).is_some());
    assert!(state.display_by_addr(&(3, 4)).is_some());
    assert!(state.display_by_addr(&(9, 9)).is_none());
}

#[test]
fn get_display_refuses_bad_pointers_and_unready_devices() {
    let mut state: State<ScriptedTransport> = State::new();
    state.add_display((1, 2), DeviceHandle::new());
    state.add_display((3, 4), ready_handle(vec![]));

    // invalid pointer forms
    assert!(matches!(get_display(&state, 0), Err(e) if e == E_HANDLE));
    assert!(matches!(get_display(&state, 0xFFFF), Err(e) if e == E_HANDLE));
    // a pointer nobody registered
    assert!(matches!(get_display(&state, 0x0909), Err(e) if e == E_HANDLE));
    // registered but never initialized
    assert!(matches!(get_display(&state, 0x0102), Err(e) if e == E_HANDLE));
    // registered and ready
    let display = get_display(&state, 0x0304).unwrap();
    assert!(display.ready());
    assert_eq!(display.serial_number(), Ok(String::from("SN-0001")));

    let expected: GUID = device_type_guid();
    assert_eq!(display.device_type_uuid(), Ok(expected));
}

use ecdump::analyzer::{DeviceManager, ECError};
use ecdump::ec_packet::{ECFrame, ECPacketError};
use ecdump::register_address;
use ecdump::registers::AlStatus;
use ecdump::subdevice::{ECState, ESMError};

fn dg(command: u8, adp: u16, ado: u16, payload: &[u8], wkc: u16) -> Vec<u8> {
    let address = ((ado as u32) << 16) | adp as u32;
    let mut v = vec![command, 0];
    v.extend_from_slice(&address.to_le_bytes());
    let info: u16 = payload.len() as u16;
    v.extend_from_slice(&info.to_le_bytes());
    v.extend_from_slice(&0u16.to_le_bytes());
    v.extend_from_slice(payload);
    v.extend_from_slice(&wkc.to_le_bytes());
    v
}

fn frame(datagrams: &[Vec<u8>]) -> Vec<u8> {
    let total: u16 = datagrams.iter().map(|d| d.len() as u16).sum();
    let header: u16 = total | 0x1000;
    let mut v = header.to_le_bytes().to_vec();
    for d in datagrams {
        v.extend_from_slice(d);
    }
    v
}

fn analyze(mgr: &mut DeviceManager, bytes: &[u8], from_main: bool) -> Result<(), ECError> {
    let f = ECFrame::new(bytes).unwrap();
    mgr.analyze_packet(&f, 0, from_main)
}

const BRD: u8 = 0x07;
const BWR: u8 = 0x08;
const APRD: u8 = 0x01;
const APWR: u8 = 0x02;
const FPRD: u8 = 0x04;
const FPWR: u8 = 0x05;
const LRW: u8 = 0x0C;
const ARMW: u8 = 0x0D;
const FRMW: u8 = 0x0E;

/// Feed the initialization sweep: an outbound BRD, then the same BRD
/// inbound with the given working counter.
fn init_devices(mgr: &mut DeviceManager, n: u16) {
    let out = frame(&[dg(BRD, 0, register_address::AlStatus, &[0x00], 0)]);
    analyze(mgr, &out, true).unwrap();
    let inb = frame(&[dg(BRD, 0, register_address::AlStatus, &[0x01], n)]);
    analyze(mgr, &inb, false).unwrap();
}

#[test]
fn empty_capture() {
    let mgr = DeviceManager::new();
    assert!(mgr.is_uninitialized());
    assert_eq!(mgr.num_devices(), 0);
    assert_eq!(mgr.num_frames(), 0);
    assert!(mgr.esm_events().is_empty());
    assert!(mgr.error_events().is_empty());
}

#[test]
fn nothing_initializes_but_inbound_brd() {
    let mut mgr = DeviceManager::new();
    // Outbound BRD: ignored while uninitialized.
    analyze(&mut mgr, &frame(&[dg(BRD, 0, 0x0130, &[0x00], 0)]), true).unwrap();
    assert!(mgr.is_uninitialized());
    // Inbound APRD: ignored while uninitialized.
    analyze(&mut mgr, &frame(&[dg(APRD, 1, 0x0010, &[0, 0], 1)]), false).unwrap();
    assert!(mgr.is_uninitialized());
    assert_eq!(mgr.num_devices(), 0);
    assert!(mgr.esm_events().is_empty());
}

#[test]
fn single_device_init_sweep() {
    let mut mgr = DeviceManager::new();
    init_devices(&mut mgr, 1);
    assert!(!mgr.is_uninitialized());
    assert_eq!(mgr.num_devices(), 1);
    assert_eq!(mgr.device(0).state(), ECState::Init);
    assert_eq!(mgr.device(0).al_status(), Some(AlStatus::new(0x01)));
    assert_eq!(mgr.device(0).configured_address(), None);
    assert!(mgr.esm_events().is_empty());
    assert_eq!(mgr.num_frames(), 2);
}

#[test]
fn init_roster_size_follows_wkc() {
    let mut mgr = DeviceManager::new();
    init_devices(&mut mgr, 3);
    assert_eq!(mgr.num_devices(), 3);
    for i in 0..3 {
        assert_eq!(mgr.device(i).state(), ECState::Init);
        assert_eq!(mgr.device(i).configured_address(), None);
    }
}

#[test]
fn address_assignment() {
    let mut mgr = DeviceManager::new();
    init_devices(&mut mgr, 1);
    // Outbound APWR to position 0 writes the configured station address.
    analyze(
        &mut mgr,
        &frame(&[dg(APWR, 0, register_address::ConfiguredStationAddress, &[0x34, 0x12], 0)]),
        true,
    )
    .unwrap();
    // The inbound APRD (incremented once by the only device) echoes it.
    analyze(
        &mut mgr,
        &frame(&[dg(APRD, 1, register_address::ConfiguredStationAddress, &[0x34, 0x12], 1)]),
        false,
    )
    .unwrap();
    assert_eq!(mgr.device(0).configured_address(), Some(0x1234));
    assert_eq!(mgr.lookup_config_address(0x1234), Some(0));
    assert!(mgr.esm_events().is_empty());
}

/// Drive the single device to `state` via a configured-address write of the
/// AL Control register and the matching AL Status answer.
fn request_and_answer(mgr: &mut DeviceManager, station: u16, control: u8, status: u8) {
    analyze(
        mgr,
        &frame(&[dg(FPWR, station, register_address::AlControl, &[control], 0)]),
        true,
    )
    .unwrap();
    analyze(
        mgr,
        &frame(&[dg(FPRD, station, register_address::AlStatus, &[status], 1)]),
        false,
    )
    .unwrap();
}

fn set_up_station(mgr: &mut DeviceManager) {
    init_devices(mgr, 1);
    analyze(
        mgr,
        &frame(&[dg(APWR, 0, register_address::ConfiguredStationAddress, &[0x34, 0x12], 0)]),
        true,
    )
    .unwrap();
    analyze(
        mgr,
        &frame(&[dg(APRD, 1, register_address::ConfiguredStationAddress, &[0x34, 0x12], 1)]),
        false,
    )
    .unwrap();
}

#[test]
fn forward_state_transition() {
    let mut mgr = DeviceManager::new();
    set_up_station(&mut mgr);
    request_and_answer(&mut mgr, 0x1234, 0x02, 0x02);
    assert_eq!(mgr.device(0).state(), ECState::PreOp);
    assert!(!mgr.device(0).has_esm_error());
    assert!(mgr.esm_events().is_empty());
}

#[test]
fn backward_transition_with_error() {
    let mut mgr = DeviceManager::new();
    set_up_station(&mut mgr);
    request_and_answer(&mut mgr, 0x1234, 0x02, 0x02);
    request_and_answer(&mut mgr, 0x1234, 0x08, 0x08);
    assert_eq!(mgr.device(0).state(), ECState::Op);
    // The device loads an AL status code and falls back to PreOp with the
    // error flag set.
    analyze(
        &mut mgr,
        &frame(&[dg(FPRD, 0x1234, register_address::AlStatusCode, &[0x01, 0x00], 1)]),
        false,
    )
    .unwrap();
    analyze(
        &mut mgr,
        &frame(&[dg(FPRD, 0x1234, register_address::AlStatus, &[0x12], 1)]),
        false,
    )
    .unwrap();
    assert_eq!(mgr.esm_events().len(), 1);
    let report = mgr.esm_events()[0];
    assert_eq!(report.device_index, 0);
    assert_eq!(
        report.error,
        ESMError::BackwardTransition { from: ECState::Op, to: ECState::PreOp, has_error: true }
    );
    assert_eq!(mgr.device(0).state(), ECState::PreOp);
    assert!(mgr.device(0).has_esm_error());
    assert_eq!(mgr.device(0).al_status_code(), Some(0x0001));
}

#[test]
fn wkc_mismatch_on_brd() {
    let mut mgr = DeviceManager::new();
    init_devices(&mut mgr, 3);
    // A working-counter mismatch is recorded, never returned: the frame
    // itself is fine.
    analyze(
        &mut mgr,
        &frame(&[dg(BRD, 0, register_address::Build, &[0x77], 2)]),
        false,
    )
    .unwrap();
    assert_eq!(mgr.error_events().len(), 1);
    match mgr.error_events()[0] {
        ECError::InvalidWkc { command, from_main, expected, actual, .. } => {
            assert_eq!(command.0, BRD);
            assert!(!from_main);
            assert_eq!(expected, 3);
            assert_eq!(actual, 2);
        }
        other => panic!("expected InvalidWkc, got {:?}", other),
    }
    assert_eq!(mgr.expected_wkc(), 3);
    // No state-machine advancement happened for that frame, but the data
    // was on the wire: the broadcast image still took the payload.
    assert!(mgr.esm_events().is_empty());
    for i in 0..3 {
        assert_eq!(mgr.device(i).state(), ECState::Init);
        assert_eq!(mgr.device(i).read_reg_brd(register_address::Build, 1), vec![Some(0x77)]);
    }
}

#[test]
fn wkc_mismatch_on_addressed_read() {
    let mut mgr = DeviceManager::new();
    set_up_station(&mut mgr);
    analyze(
        &mut mgr,
        &frame(&[dg(FPRD, 0x1234, register_address::Build, &[0x66], 2)]),
        false,
    )
    .unwrap();
    assert_eq!(mgr.error_events().len(), 1);
    match mgr.error_events()[0] {
        ECError::InvalidWkc { expected, actual, .. } => {
            assert_eq!(expected, 1);
            assert_eq!(actual, 2);
        }
        other => panic!("expected InvalidWkc, got {:?}", other),
    }
    // The returned bytes were still recorded; only the stepper was skipped.
    assert_eq!(mgr.device(0).read_reg_rd(register_address::Build, 1), vec![Some(0x66)]);
    assert_eq!(mgr.device(0).state(), ECState::Init);
}

#[test]
fn wkc_checked_on_read_modify_write() {
    let mut mgr = DeviceManager::new();
    init_devices(&mut mgr, 1);
    // ARMW carries no modeled register effect, but its inbound working
    // counter is still checked against one device.
    analyze(&mut mgr, &frame(&[dg(ARMW, 1, 0x0010, &[0, 0], 2)]), false).unwrap();
    assert_eq!(mgr.error_events().len(), 1);
    match mgr.error_events()[0] {
        ECError::InvalidWkc { expected, actual, .. } => {
            assert_eq!(expected, 1);
            assert_eq!(actual, 2);
        }
        other => panic!("expected InvalidWkc, got {:?}", other),
    }
    analyze(&mut mgr, &frame(&[dg(ARMW, 1, 0x0010, &[0, 0], 1)]), false).unwrap();
    assert_eq!(mgr.error_events().len(), 1);
    assert_eq!(mgr.device(0).read_reg_rd(0x0010, 1), vec![None]);
}

#[test]
fn read_modify_write_addresses_are_resolved() {
    let mut mgr = DeviceManager::new();
    set_up_station(&mut mgr);
    // An ARMW to a position outside the roster and an FRMW to an unknown
    // station are both recorded.
    analyze(&mut mgr, &frame(&[dg(ARMW, 9, 0x0010, &[0, 0], 1)]), false).unwrap();
    assert_eq!(mgr.error_events().len(), 1);
    assert_eq!(mgr.error_events()[0], ECError::InvalidAutoIncrementAddress(9));
    analyze(&mut mgr, &frame(&[dg(FRMW, 0x4444, 0x0010, &[0, 0], 1)]), false).unwrap();
    assert_eq!(mgr.error_events().len(), 2);
    assert_eq!(mgr.error_events()[1], ECError::InvalidConfiguredAddress(0x4444));
    // Resolvable addresses pass without an event.
    analyze(&mut mgr, &frame(&[dg(FRMW, 0x1234, 0x0010, &[0, 0], 1)]), false).unwrap();
    assert_eq!(mgr.error_events().len(), 2);
}

#[test]
fn invalid_auto_increment_address() {
    let mut mgr = DeviceManager::new();
    init_devices(&mut mgr, 1);
    analyze(&mut mgr, &frame(&[dg(APRD, 5, 0x0010, &[0, 0], 1)]), false).unwrap();
    assert_eq!(mgr.error_events().len(), 1);
    assert_eq!(mgr.error_events()[0], ECError::InvalidAutoIncrementAddress(5));
}

#[test]
fn invalid_configured_address() {
    let mut mgr = DeviceManager::new();
    init_devices(&mut mgr, 1);
    analyze(
        &mut mgr,
        &frame(&[dg(FPRD, 0x9999, register_address::AlStatus, &[0x01], 1)]),
        false,
    )
    .unwrap();
    assert_eq!(mgr.error_events().len(), 1);
    assert_eq!(mgr.error_events()[0], ECError::InvalidConfiguredAddress(0x9999));
}

#[test]
fn non_ethercat_protocol_type_is_rejected() {
    let mut mgr = DeviceManager::new();
    let mut bytes = frame(&[dg(BRD, 0, 0x0130, &[0x01], 0)]);
    // Protocol type 2 instead of 1.
    bytes[1] = (bytes[1] & 0x0F) | 0x20;
    let r = analyze(&mut mgr, &bytes, false);
    assert_eq!(r, Err(ECError::InvalidDatagram(ECPacketError::InvalidHeader)));
    assert_eq!(mgr.num_frames(), 0);
}

#[test]
fn malformed_chain_is_rejected() {
    let mut mgr = DeviceManager::new();
    let mut bytes = frame(&[dg(BRD, 0, 0x0130, &[0x01], 0)]);
    // Declare one byte more than the frame holds.
    let total = (bytes.len() as u16 - 2) + 1;
    let header = total | 0x1000;
    bytes[0] = header.to_le_bytes()[0];
    bytes[1] = header.to_le_bytes()[1];
    let r = analyze(&mut mgr, &bytes, false);
    assert_eq!(r, Err(ECError::InvalidDatagram(ECPacketError::InvalidDatalength)));
}

#[test]
fn unhandled_commands_pass_through() {
    let mut mgr = DeviceManager::new();
    init_devices(&mut mgr, 1);
    analyze(&mut mgr, &frame(&[dg(LRW, 0, 0, &[1, 2, 3, 4], 0)]), false).unwrap();
    assert_eq!(mgr.num_frames(), 3);
    assert_eq!(mgr.device(0).read_reg_wr(0, 4), vec![None, None, None, None]);
}

#[test]
fn register_separation_on_outbound_apwr() {
    let mut mgr = DeviceManager::new();
    init_devices(&mut mgr, 2);
    // Position 1 outbound: the negated position field is 0xFFFF.
    analyze(&mut mgr, &frame(&[dg(APWR, 0xFFFF, 0x0200, &[9, 8, 7], 0)]), true).unwrap();
    assert_eq!(
        mgr.device(1).read_reg_wr(0x0200, 3),
        vec![Some(9), Some(8), Some(7)]
    );
    assert_eq!(mgr.device(1).read_reg_rd(0x0200, 3), vec![None, None, None]);
    assert_eq!(mgr.device(1).read_reg_brd(0x0200, 3), vec![None, None, None]);
    assert_eq!(mgr.device(0).read_reg_wr(0x0200, 3), vec![None, None, None]);
}

#[test]
fn bwr_writes_every_device() {
    let mut mgr = DeviceManager::new();
    init_devices(&mut mgr, 2);
    analyze(&mut mgr, &frame(&[dg(BWR, 0, 0x0300, &[0x5A], 0)]), true).unwrap();
    assert_eq!(mgr.device(0).read_reg_wr(0x0300, 1), vec![Some(0x5A)]);
    assert_eq!(mgr.device(1).read_reg_wr(0x0300, 1), vec![Some(0x5A)]);
    assert_eq!(mgr.device(0).read_reg_brd(0x0300, 1), vec![None]);
}

#[test]
fn two_datagrams_processed_in_order() {
    let mut mgr = DeviceManager::new();
    init_devices(&mut mgr, 1);
    // One frame carrying an APWR (outbound) touching two register areas.
    let d1 = dg(APWR, 0, 0x0400, &[1], 0);
    let d2 = dg(APWR, 0, 0x0401, &[2], 0);
    let mut with_more = d1.clone();
    with_more[7] |= 0x80; // more-datagrams flag on the first
    let mut bytes = (((d1.len() + d2.len()) as u16) | 0x1000).to_le_bytes().to_vec();
    bytes.extend_from_slice(&with_more);
    bytes.extend_from_slice(&d2);
    analyze(&mut mgr, &bytes, true).unwrap();
    assert_eq!(mgr.device(0).read_reg_wr(0x0400, 2), vec![Some(1), Some(2)]);
}

#[test]
fn errors_do_not_stop_the_frame() {
    let mut mgr = DeviceManager::new();
    init_devices(&mut mgr, 1);
    // An addressed datagram with a bad position, then a valid APWR: the
    // miss is recorded and the second datagram is still applied.
    let d1 = dg(APWR, 7, 0x0500, &[1], 0);
    let d2 = dg(APWR, 0, 0x0501, &[2], 0);
    let mut with_more = d1.clone();
    with_more[7] |= 0x80;
    let mut bytes = (((d1.len() + d2.len()) as u16) | 0x1000).to_le_bytes().to_vec();
    bytes.extend_from_slice(&with_more);
    bytes.extend_from_slice(&d2);
    analyze(&mut mgr, &bytes, true).unwrap();
    assert_eq!(mgr.error_events().len(), 1);
    assert_eq!(mgr.error_events()[0], ECError::InvalidAutoIncrementAddress(7));
    assert_eq!(mgr.device(0).read_reg_wr(0x0500, 1), vec![None]);
    assert_eq!(mgr.device(0).read_reg_wr(0x0501, 1), vec![Some(2)]);
}

use ecdump::register_address;
use ecdump::registers::{AlControl, AlStatus, AlStatusCode};
use ecdump::subdevice::{
    AprdCommandStepper, BrdCommandStepper, ECState, ESMError, FprdCommandStepper, SubDevice,
};

#[test]
fn fresh_subdevice() {
    let dev = SubDevice::new();
    assert_eq!(dev.state(), ECState::Init);
    assert!(!dev.has_esm_error());
    assert_eq!(dev.configured_address(), None);
    assert_eq!(dev.configured_alias(), None);
    assert_eq!(dev.al_status(), None);
    assert_eq!(dev.al_control(), None);
    assert_eq!(dev.al_status_code(), None);
}

#[test]
fn state_values() {
    assert_eq!(ECState::Init.state_value(), 0x01);
    assert_eq!(ECState::PreOp.state_value(), 0x02);
    assert_eq!(ECState::Bootstrap.state_value(), 0x03);
    assert_eq!(ECState::SafeOp.state_value(), 0x04);
    assert_eq!(ECState::Op.state_value(), 0x08);
}

#[test]
fn register_write_and_read() {
    let mut dev = SubDevice::new();
    dev.write_reg_wr(0x0100, &[1, 2, 3]);
    let r = dev.read_reg_wr(0x0100, 4);
    assert_eq!(r, vec![Some(1), Some(2), Some(3), None]);
}

#[test]
fn register_files_are_separate() {
    let mut dev = SubDevice::new();
    dev.write_reg_wr(0x0010, &[0x34, 0x12]);
    assert_eq!(dev.read_reg_rd(0x0010, 2), vec![None, None]);
    assert_eq!(dev.read_reg_brd(0x0010, 2), vec![None, None]);
    dev.write_reg_rd(0x0010, &[0x55]);
    assert_eq!(dev.read_reg_wr(0x0010, 2), vec![Some(0x34), Some(0x12)]);
    assert_eq!(dev.read_reg_rd(0x0010, 1), vec![Some(0x55)]);
}

#[test]
fn register_write_wraps_offsets() {
    let mut dev = SubDevice::new();
    dev.write_reg_brd(0xFFFF, &[0xAA, 0xBB]);
    assert_eq!(dev.read_reg_brd(0xFFFF, 1), vec![Some(0xAA)]);
    assert_eq!(dev.read_reg_brd(0x0000, 1), vec![Some(0xBB)]);
}

#[test]
fn configured_alias_from_wr_image() {
    let mut dev = SubDevice::new();
    assert_eq!(dev.configured_alias(), None);
    dev.write_reg_wr(register_address::ConfiguredStationAlias, &[0x78, 0x56]);
    assert_eq!(dev.configured_alias(), Some(0x5678));
}

#[test]
fn al_control_decoding() {
    let c = AlControl::new(0x12);
    assert_eq!(c.state, Ok(ECState::PreOp));
    assert!(c.acknowledge);
    let c = AlControl::new(0x08);
    assert_eq!(c.state, Ok(ECState::Op));
    assert!(!c.acknowledge);
    let c = AlControl::new(0x07);
    assert_eq!(c.state, Err(0x07));
}

#[test]
fn al_status_decoding() {
    let s = AlStatus::new(0x14);
    assert_eq!(s.state, Ok(ECState::SafeOp));
    assert!(s.error);
    let s = AlStatus::new(0x03);
    assert_eq!(s.state, Ok(ECState::Bootstrap));
    assert!(!s.error);
    let s = AlStatus::new(0x00);
    assert_eq!(s.state, Err(0x00));
}

#[test]
fn al_status_code_table() {
    assert_eq!(AlStatusCode::from_code(0x0000), Some(AlStatusCode::NoError));
    assert_eq!(AlStatusCode::from_code(0x0001), Some(AlStatusCode::UnspecifiedError));
    assert_eq!(AlStatusCode::from_code(0x00F0), Some(AlStatusCode::ApplicationControllerAvailable));
    assert_eq!(AlStatusCode::from_code(0x0004), None);
    assert_eq!(AlStatusCode::from_code(0x8001), None);
    assert_eq!(AlStatusCode::UnspecifiedError.code(), 0x0001);
    assert_eq!(AlStatusCode::SyncManagerWatchdog.code(), 0x001B);
}

#[test]
fn brd_stepper_refreshes_status() {
    let mut dev = SubDevice::new();
    dev.write_reg_brd(register_address::AlStatus, &[0x01]);
    let r = dev.state_machine_step::<BrdCommandStepper>(1);
    assert!(r.is_ok());
    assert_eq!(dev.al_status(), Some(AlStatus::new(0x01)));
    assert_eq!(dev.state(), ECState::Init);
}

#[test]
fn brd_stepper_clears_undecodable_status() {
    let mut dev = SubDevice::new();
    dev.write_reg_brd(register_address::AlStatus, &[0x01]);
    dev.state_machine_step::<BrdCommandStepper>(1).unwrap();
    assert!(dev.al_status().is_some());
    // A malformed state nibble clears the retained status instead of
    // pinning the validator to stale data.
    dev.write_reg_brd(register_address::AlStatus, &[0x0F]);
    dev.state_machine_step::<BrdCommandStepper>(2).unwrap();
    assert_eq!(dev.al_status(), None);
}

#[test]
fn fprd_stepper_keeps_undecodable_status() {
    let mut dev = SubDevice::new();
    dev.write_reg_rd(register_address::AlStatus, &[0x0F]);
    let r = dev.state_machine_step::<FprdCommandStepper>(1);
    assert!(r.is_ok());
    // The FPRD stepper stores the status unconditionally; the transition
    // logic then ignores the undecodable nibble.
    assert_eq!(dev.al_status(), Some(AlStatus::new(0x0F)));
    assert_eq!(dev.state(), ECState::Init);
}

#[test]
fn aprd_stepper_learns_address_when_copies_agree() {
    let mut dev = SubDevice::new();
    dev.write_reg_wr(register_address::ConfiguredStationAddress, &[0x34, 0x12]);
    dev.write_reg_rd(register_address::ConfiguredStationAddress, &[0x34, 0x12]);
    dev.state_machine_step::<AprdCommandStepper>(1).unwrap();
    assert_eq!(dev.configured_address(), Some(0x1234));
}

#[test]
fn aprd_stepper_rejects_disagreeing_copies() {
    let mut dev = SubDevice::new();
    dev.write_reg_wr(register_address::ConfiguredStationAddress, &[0x34, 0x12]);
    dev.write_reg_rd(register_address::ConfiguredStationAddress, &[0x35, 0x12]);
    dev.state_machine_step::<AprdCommandStepper>(1).unwrap();
    assert_eq!(dev.configured_address(), None);
}

fn drive_to(dev: &mut SubDevice, control: u8, status: u8) -> Result<(), ESMError> {
    dev.write_reg_wr(register_address::AlControl, &[control]);
    dev.write_reg_rd(register_address::AlStatus, &[status]);
    dev.state_machine_step::<FprdCommandStepper>(0)
}

#[test]
fn clean_forward_transition() {
    let mut dev = SubDevice::new();
    assert!(drive_to(&mut dev, 0x02, 0x02).is_ok());
    assert_eq!(dev.state(), ECState::PreOp);
    assert!(!dev.has_esm_error());
}

#[test]
fn transition_failed() {
    let mut dev = SubDevice::new();
    // Request SafeOp; the device stays in PreOp, short of the request.
    let r = drive_to(&mut dev, 0x04, 0x02);
    assert_eq!(
        r,
        Err(ESMError::TransitionFailed {
            requested: ECState::SafeOp,
            current: ECState::PreOp,
            has_error: false,
        })
    );
    // The observed state is committed even so.
    assert_eq!(dev.state(), ECState::PreOp);
    assert!(!dev.has_esm_error());
}

#[test]
fn invalid_state_transition_past_request() {
    let mut dev = SubDevice::new();
    // Request PreOp; the device reports SafeOp, past the request.
    let r = drive_to(&mut dev, 0x02, 0x04);
    assert_eq!(
        r,
        Err(ESMError::InvalidStateTransition {
            requested: ECState::PreOp,
            current: ECState::SafeOp,
        })
    );
    assert_eq!(dev.state(), ECState::SafeOp);
}

#[test]
fn illegal_transition_without_request() {
    let mut dev = SubDevice::new();
    // No AL Control was ever observed, yet the state changes.
    dev.write_reg_rd(register_address::AlStatus, &[0x02]);
    let r = dev.state_machine_step::<FprdCommandStepper>(0);
    assert_eq!(r, Err(ESMError::IllegalTransition { to: ECState::PreOp }));
    assert_eq!(dev.state(), ECState::PreOp);
}

#[test]
fn steady_state_without_request_is_clean() {
    let mut dev = SubDevice::new();
    // No AL Control observed, and the reported state equals the current one.
    dev.write_reg_rd(register_address::AlStatus, &[0x01]);
    assert!(dev.state_machine_step::<FprdCommandStepper>(0).is_ok());
    assert_eq!(dev.state(), ECState::Init);
}

#[test]
fn backward_transition_records_status_code() {
    let mut dev = SubDevice::new();
    assert!(drive_to(&mut dev, 0x02, 0x02).is_ok());
    assert!(drive_to(&mut dev, 0x08, 0x08).is_ok());
    assert_eq!(dev.state(), ECState::Op);
    // The device falls back to PreOp with the error flag set.
    dev.write_reg_rd(register_address::AlStatusCode, &[0x01, 0x00]);
    dev.write_reg_rd(register_address::AlStatus, &[0x12]);
    let r = dev.state_machine_step::<FprdCommandStepper>(0);
    assert_eq!(
        r,
        Err(ESMError::BackwardTransition {
            from: ECState::Op,
            to: ECState::PreOp,
            has_error: true,
        })
    );
    assert_eq!(dev.state(), ECState::PreOp);
    assert!(dev.has_esm_error());
    assert_eq!(dev.al_status_code(), Some(0x0001));
}

#[test]
fn forward_without_request_is_invalid() {
    let mut dev = SubDevice::new();
    assert!(drive_to(&mut dev, 0x02, 0x02).is_ok());
    // AL Control still requests PreOp; the device jumps to SafeOp on its own.
    dev.write_reg_rd(register_address::AlStatus, &[0x04]);
    let r = dev.state_machine_step::<FprdCommandStepper>(0);
    // With no pending request, the committed transition is reported
    // against the state the device was in.
    assert_eq!(
        r,
        Err(ESMError::InvalidStateTransition {
            requested: ECState::PreOp,
            current: ECState::SafeOp,
        })
    );
}

//! The device manager: dispatches each captured datagram to its command
//! handler, maintains the subdevice roster and the configured-address map,
//! verifies working counters, and records datagram errors and ESM
//! violations as structured events.
//!
//! Datagram-level errors are never fatal: a working-counter mismatch still
//! applies the datagram's register writes (the data was on the wire) and
//! only skips the state-machine step, and the frame's remaining datagrams
//! are processed either way. Only a malformed frame is rejected whole.

use vstd::prelude::*;

use crate::ec_command;
use crate::ec_packet::{
    spec_parse_frame_datagrams, ECCommandType, ECDatagram, ECDatagramV, ECFrame, ECFrameV,
    ECPacketError,
};
use crate::linear_map::LinearMap;
use crate::subdevice::{
    spec_change_state, spec_new_subdevice, spec_refresh_aprd, spec_refresh_brd, spec_refresh_fprd,
    spec_write_bytes, AprdCommandStepper, BrdCommandStepper, ESMError, FprdCommandStepper,
    SubDevice, SubDeviceV,
};

verus! {

/// An error observed while analyzing the capture.
#[derive(Debug, Clone, Copy, PartialEq, Eq, Structural)]
pub enum ECError {
    /// The frame or a datagram was malformed; the frame is skipped.
    InvalidDatagram(ECPacketError),
    /// An auto-increment datagram addressed a position outside the roster.
    InvalidAutoIncrementAddress(u16),
    /// A configured-address datagram named an unknown station address.
    InvalidConfiguredAddress(u16),
    /// An inbound datagram's working counter differed from the expectation.
    InvalidWkc {
        packet_number: u64,
        command: ECCommandType,
        from_main: bool,
        timestamp: u64,
        expected: u16,
        actual: u16,
    },
    UnsupportedCommand,
}

/// An ESM violation observed on one subdevice while analyzing one frame.
#[derive(Debug, Clone, Copy, PartialEq, Eq, Structural)]
pub struct EsmReport {
    /// The frame counter value when the violation was seen.
    pub packet_number: u64,
    /// The bus position of the subdevice concerned.
    pub device_index: usize,
    /// The violation itself.
    pub error: ESMError,
}

/// The abstract state of the device manager.
pub struct DeviceManagerV {
    pub uninitialized: bool,
    pub num_frames: u64,
    pub expected_wkc: u16,
    pub devices: Seq<SubDeviceV>,
    pub config_address_map: Map<u16, usize>,
    pub esm_events: Seq<EsmReport>,
    pub error_events: Seq<ECError>,
}

/// A fresh manager: no roster yet, nothing counted, nothing reported.
pub open spec fn spec_new_manager() -> DeviceManagerV {
    DeviceManagerV {
        uninitialized: true,
        num_frames: 0,
        expected_wkc: 0,
        devices: Seq::empty(),
        config_address_map: Map::empty(),
        esm_events: Seq::empty(),
        error_events: Seq::empty(),
    }
}

/// The low half of a datagram address: position or station address.
pub open spec fn spec_adp(address: u32) -> u16 {
    (address & 0xFFFF) as u16
}

/// The high half of a datagram address: the register offset.
pub open spec fn spec_ado(address: u32) -> u16 {
    ((address >> 16) & 0xFFFF) as u16
}

/// The commands the manager handles; the rest pass through untouched.
pub open spec fn spec_handled(cmd: u8) -> bool {
    ||| cmd == ec_command::BRD
    ||| cmd == ec_command::BWR
    ||| cmd == ec_command::BRW
    ||| cmd == ec_command::APWR
    ||| cmd == ec_command::APRD
    ||| cmd == ec_command::FPWR
    ||| cmd == ec_command::FPRD
    ||| cmd == ec_command::ARMW
    ||| cmd == ec_command::FRMW
}

/// The working counter an inbound datagram is expected to carry: the whole
/// roster for broadcasts, one device otherwise.
pub open spec fn spec_expected_wkc(cmd: u8, num_devices: int) -> u16 {
    if cmd == ec_command::BRD || cmd == ec_command::BWR || cmd == ec_command::BRW {
        num_devices as u16
    } else {
        1
    }
}

/// The roster position an auto-increment datagram addresses, if any: on the
/// outbound half the negated position field itself; on the inbound half
/// every passed device has incremented the field, so the roster length
/// enters the count.
pub open spec fn spec_position_index(from_main: bool, num_devices: int, adp: u16) -> Option<int> {
    if from_main {
        let idx: int = if adp == 0 {
            0
        } else {
            0x10000 - adp
        };
        if idx < num_devices {
            Some(idx)
        } else {
            None
        }
    } else {
        if 0 < adp <= num_devices {
            Some(num_devices - adp)
        } else {
            None
        }
    }
}

/// A subdevice with a BRD datagram's payload recorded in its broadcast
/// image.
pub open spec fn spec_brd_write(s: SubDeviceV, reg: u16, payload: Seq<u8>) -> SubDeviceV {
    SubDeviceV { register_brd: spec_write_bytes(s.register_brd, reg, payload), ..s }
}

/// One BRD datagram's full effect on one subdevice: record the
/// broadcast-read bytes, then run the BRD stepper.
pub open spec fn spec_brd_device_step(s: SubDeviceV, reg: u16, payload: Seq<u8>) -> (
    SubDeviceV,
    Result<(), ESMError>,
) {
    spec_change_state(spec_refresh_brd(spec_brd_write(s, reg, payload)))
}

/// A BRD datagram applied to the first `upto` subdevices in roster order.
/// The broadcast bytes are always recorded; the stepper runs, and its
/// violations are collected, only when `run_stepper` holds (it is skipped
/// after a working-counter mismatch).
pub open spec fn spec_brd_fold(
    devices: Seq<SubDeviceV>,
    events: Seq<EsmReport>,
    reg: u16,
    payload: Seq<u8>,
    frame: u64,
    run_stepper: bool,
    upto: int,
) -> (Seq<SubDeviceV>, Seq<EsmReport>)
    decreases upto,
{
    if upto <= 0 {
        (devices, events)
    } else {
        let prev = spec_brd_fold(devices, events, reg, payload, frame, run_stepper, upto - 1);
        let i = upto - 1;
        if run_stepper {
            let stepped = spec_brd_device_step(prev.0[i], reg, payload);
            (
                prev.0.update(i, stepped.0),
                match stepped.1 {
                    Ok(_) => prev.1,
                    Err(e) => prev.1.push(
                        EsmReport { packet_number: frame, device_index: i as usize, error: e },
                    ),
                },
            )
        } else {
            (prev.0.update(i, spec_brd_write(prev.0[i], reg, payload)), prev.1)
        }
    }
}

/// Every subdevice with a BRD datagram's payload recorded, steppers not
/// run: what an inbound BRD leaves after a working-counter mismatch.
pub open spec fn spec_brd_write_devices(devices: Seq<SubDeviceV>, reg: u16, payload: Seq<u8>) -> Seq<
    SubDeviceV,
> {
    Seq::new(devices.len(), |i: int| spec_brd_write(devices[i], reg, payload))
}

/// A BWR datagram's effect: the payload recorded in every subdevice's
/// main-written image.
pub open spec fn spec_bwr_devices(devices: Seq<SubDeviceV>, reg: u16, payload: Seq<u8>) -> Seq<
    SubDeviceV,
> {
    Seq::new(
        devices.len(),
        |i: int|
            SubDeviceV {
                register_wr: spec_write_bytes(devices[i].register_wr, reg, payload),
                ..devices[i]
            },
    )
}

/// A subdevice with a read datagram's returned payload recorded in its
/// device-returned image.
pub open spec fn spec_rd_write(s: SubDeviceV, reg: u16, payload: Seq<u8>) -> SubDeviceV {
    SubDeviceV { register_rd: spec_write_bytes(s.register_rd, reg, payload), ..s }
}

/// One APRD datagram's full effect on the addressed subdevice: record the
/// device-returned bytes, then run the APRD stepper.
pub open spec fn spec_aprd_device_step(s: SubDeviceV, reg: u16, payload: Seq<u8>) -> (
    SubDeviceV,
    Result<(), ESMError>,
) {
    spec_change_state(spec_refresh_aprd(spec_rd_write(s, reg, payload)))
}

/// One FPRD datagram's full effect on the addressed subdevice: record the
/// device-returned bytes, then run the FPRD stepper.
pub open spec fn spec_fprd_device_step(s: SubDeviceV, reg: u16, payload: Seq<u8>) -> (
    SubDeviceV,
    Result<(), ESMError>,
) {
    spec_change_state(spec_refresh_fprd(spec_rd_write(s, reg, payload)))
}

/// The command-specific processing, after the initialization gate and the
/// working-counter check. Register effects are always applied; the ESM
/// steppers run only when `run_stepper` holds (a working-counter mismatch
/// clears it). An address that resolves to nothing is recorded as an error
/// event, and the datagram's effects are skipped.
pub open spec fn spec_process(
    m: DeviceManagerV,
    d: ECDatagramV,
    from_main: bool,
    run_stepper: bool,
) -> DeviceManagerV {
    let cmd = d.command;
    let reg = spec_ado(d.address);
    let adp = spec_adp(d.address);
    if cmd == ec_command::BRD {
        if !from_main {
            let folded = spec_brd_fold(
                m.devices,
                m.esm_events,
                reg,
                d.payload,
                m.num_frames,
                run_stepper,
                m.devices.len() as int,
            );
            DeviceManagerV { devices: folded.0, esm_events: folded.1, ..m }
        } else {
            m
        }
    } else if cmd == ec_command::BWR {
        if from_main {
            DeviceManagerV { devices: spec_bwr_devices(m.devices, reg, d.payload), ..m }
        } else {
            m
        }
    } else if cmd == ec_command::APWR {
        match spec_position_index(from_main, m.devices.len() as int, adp) {
            None => DeviceManagerV {
                error_events: m.error_events.push(ECError::InvalidAutoIncrementAddress(adp)),
                ..m
            },
            Some(i) => if from_main {
                let s1 = SubDeviceV {
                    register_wr: spec_write_bytes(m.devices[i].register_wr, reg, d.payload),
                    ..m.devices[i]
                };
                DeviceManagerV { devices: m.devices.update(i, s1), ..m }
            } else {
                m
            },
        }
    } else if cmd == ec_command::APRD {
        match spec_position_index(from_main, m.devices.len() as int, adp) {
            None => DeviceManagerV {
                error_events: m.error_events.push(ECError::InvalidAutoIncrementAddress(adp)),
                ..m
            },
            Some(i) => if !from_main {
                let written = spec_rd_write(m.devices[i], reg, d.payload);
                let stepped = if run_stepper {
                    spec_aprd_device_step(m.devices[i], reg, d.payload)
                } else {
                    (written, Ok(()))
                };
                let events = match stepped.1 {
                    Ok(_) => m.esm_events,
                    Err(e) => m.esm_events.push(
                        EsmReport {
                            packet_number: m.num_frames,
                            device_index: i as usize,
                            error: e,
                        },
                    ),
                };
                let map = match stepped.0.configured_address {
                    Some(a) => m.config_address_map.insert(a, i as usize),
                    None => m.config_address_map,
                };
                DeviceManagerV {
                    devices: m.devices.update(i, stepped.0),
                    esm_events: events,
                    config_address_map: map,
                    ..m
                }
            } else {
                m
            },
        }
    } else if cmd == ec_command::FPWR {
        if !from_main {
            m
        } else {
            if m.config_address_map.contains_key(adp) {
                let i = m.config_address_map[adp] as int;
                let s1 = SubDeviceV {
                    register_wr: spec_write_bytes(m.devices[i].register_wr, reg, d.payload),
                    ..m.devices[i]
                };
                DeviceManagerV { devices: m.devices.update(i, s1), ..m }
            } else {
                DeviceManagerV {
                    error_events: m.error_events.push(ECError::InvalidConfiguredAddress(adp)),
                    ..m
                }
            }
        }
    } else if cmd == ec_command::FPRD {
        if m.config_address_map.contains_key(adp) {
            let i = m.config_address_map[adp] as int;
            if !from_main {
                let written = spec_rd_write(m.devices[i], reg, d.payload);
                let stepped = if run_stepper {
                    spec_fprd_device_step(m.devices[i], reg, d.payload)
                } else {
                    (written, Ok(()))
                };
                let events = match stepped.1 {
                    Ok(_) => m.esm_events,
                    Err(e) => m.esm_events.push(
                        EsmReport {
                            packet_number: m.num_frames,
                            device_index: i as usize,
                            error: e,
                        },
                    ),
                };
                DeviceManagerV { devices: m.devices.update(i, stepped.0), esm_events: events, ..m }
            } else {
                m
            }
        } else {
            DeviceManagerV {
                error_events: m.error_events.push(ECError::InvalidConfiguredAddress(adp)),
                ..m
            }
        }
    } else if cmd == ec_command::ARMW {
        match spec_position_index(from_main, m.devices.len() as int, adp) {
            None => DeviceManagerV {
                error_events: m.error_events.push(ECError::InvalidAutoIncrementAddress(adp)),
                ..m
            },
            Some(_) => m,
        }
    } else if cmd == ec_command::FRMW {
        if m.config_address_map.contains_key(adp) {
            m
        } else {
            DeviceManagerV {
                error_events: m.error_events.push(ECError::InvalidConfiguredAddress(adp)),
                ..m
            }
        }
    } else {
        // BRW: broadcast with no modeled register effect; only the working
        // counter was checked.
        m
    }
}

/// Dispatch past the initialization gate: on the inbound half, set and
/// check the expected working counter; a mismatch records one
/// `InvalidWkc` event and skips the ESM steppers, but the datagram's
/// register effects are still applied.
pub open spec fn spec_dispatch_initialized(
    m: DeviceManagerV,
    d: ECDatagramV,
    timestamp: u64,
    from_main: bool,
) -> DeviceManagerV {
    if from_main {
        spec_process(m, d, from_main, true)
    } else {
        let expected = spec_expected_wkc(d.command, m.devices.len() as int);
        let m1 = DeviceManagerV { expected_wkc: expected, ..m };
        if d.wkc != expected {
            let ev = ECError::InvalidWkc {
                packet_number: m.num_frames,
                command: ECCommandType(d.command),
                from_main,
                timestamp,
                expected,
                actual: d.wkc,
            };
            spec_process(
                DeviceManagerV { error_events: m1.error_events.push(ev), ..m1 },
                d,
                from_main,
                false,
            )
        } else {
            spec_process(m1, d, from_main, true)
        }
    }
}

/// One datagram's effect on the manager: the initialization rule, then the
/// working-counter check, then the command handler.
pub open spec fn spec_dispatch(
    m: DeviceManagerV,
    d: ECDatagramV,
    timestamp: u64,
    from_main: bool,
) -> DeviceManagerV {
    if !spec_handled(d.command) {
        m
    } else if m.uninitialized {
        if d.command == ec_command::BRD && !from_main {
            let m1 = DeviceManagerV {
                uninitialized: false,
                devices: Seq::new(d.wkc as nat, |i: int| spec_new_subdevice()),
                ..m
            };
            spec_dispatch_initialized(m1, d, timestamp, from_main)
        } else {
            m
        }
    } else {
        spec_dispatch_initialized(m, d, timestamp, from_main)
    }
}

/// The datagram chain applied in on-wire order from position `i`. Errors
/// are recorded per datagram, never fatal, so every datagram is processed.
pub open spec fn spec_analyze_chain(
    m: DeviceManagerV,
    ds: Seq<ECDatagramV>,
    timestamp: u64,
    from_main: bool,
    i: int,
) -> DeviceManagerV
    decreases ds.len() - i,
{
    if i < 0 || i >= ds.len() {
        m
    } else {
        spec_analyze_chain(spec_dispatch(m, ds[i], timestamp, from_main), ds, timestamp, from_main, i + 1)
    }
}

/// The frame counter advanced by one.
pub open spec fn spec_inc_frames(n: u64) -> u64 {
    if n == u64::MAX {
        0
    } else {
        (n + 1) as u64
    }
}

/// One frame's effect on the manager: reject non-EtherCAT protocol types
/// and malformed chains (the whole frame is skipped), otherwise count the
/// frame and run every datagram in order.
pub open spec fn spec_analyze(m: DeviceManagerV, f: ECFrameV, timestamp: u64, from_main: bool) -> (
    DeviceManagerV,
    Result<(), ECError>,
) {
    if f.type_field != 0x01 {
        (m, Err(ECError::InvalidDatagram(ECPacketError::InvalidHeader)))
    } else {
        match spec_parse_frame_datagrams(f) {
            Err(e) => (m, Err(ECError::InvalidDatagram(e))),
            Ok(ds) => {
                let m1 = DeviceManagerV { num_frames: spec_inc_frames(m.num_frames), ..m };
                (spec_analyze_chain(m1, ds, timestamp, from_main, 0), Ok(()))
            },
        }
    }
}

/// What the BRD fold does position by position: every position below
/// `upto` gets the broadcast bytes (and, when the stepper runs, one step)
/// from its pre-fold state; the rest are untouched. Without the stepper no
/// violation is collected.
pub proof fn lemma_brd_fold_props(
    devices: Seq<SubDeviceV>,
    events: Seq<EsmReport>,
    reg: u16,
    payload: Seq<u8>,
    frame: u64,
    run_stepper: bool,
    upto: int,
)
    requires
        0 <= upto <= devices.len(),
    ensures
        spec_brd_fold(devices, events, reg, payload, frame, run_stepper, upto).0.len()
            == devices.len(),
        forall|j: int|
            0 <= j < upto ==> spec_brd_fold(devices, events, reg, payload, frame, run_stepper, upto)
                .0[j] == (if run_stepper {
                spec_brd_device_step(#[trigger] devices[j], reg, payload).0
            } else {
                spec_brd_write(devices[j], reg, payload)
            }),
        forall|j: int|
            upto <= j < devices.len() ==> spec_brd_fold(
                devices,
                events,
                reg,
                payload,
                frame,
                run_stepper,
                upto,
            ).0[j] == #[trigger] devices[j],
        !run_stepper ==> spec_brd_fold(devices, events, reg, payload, frame, run_stepper, upto).1
            == events,
    decreases upto,
{
    if upto > 0 {
        lemma_brd_fold_props(devices, events, reg, payload, frame, run_stepper, upto - 1);
    }
}

/// The initialization rule: while the manager awaits its first inbound
/// broadcast read, every other datagram passes through without any effect;
/// the first inbound BRD with working counter `n` ends that state and
/// creates exactly `n` subdevices, all without a configured address, each
/// then stepped once by the BRD datagram itself. Its working counter check
/// passes by construction, so no error is recorded either.
pub proof fn lemma_initialization(
    m: DeviceManagerV,
    d: ECDatagramV,
    timestamp: u64,
    from_main: bool,
)
    requires
        m.uninitialized,
    ensures
        !(spec_handled(d.command) && d.command == ec_command::BRD && !from_main)
            ==> spec_dispatch(m, d, timestamp, from_main) == m,
        (d.command == ec_command::BRD && !from_main) ==> {
            let r = spec_dispatch(m, d, timestamp, from_main);
            &&& !r.uninitialized
            &&& r.devices.len() == d.wkc
            &&& r.config_address_map == m.config_address_map
            &&& r.error_events == m.error_events
            &&& forall|i: int|
                0 <= i < d.wkc ==> #[trigger] r.devices[i] == spec_brd_device_step(
                    spec_new_subdevice(),
                    spec_ado(d.address),
                    d.payload,
                ).0
            &&& forall|i: int|
                0 <= i < d.wkc ==> (#[trigger] r.devices[i]).configured_address is None
        },
{
    if d.command == ec_command::BRD && !from_main {
        let fresh = Seq::new(d.wkc as nat, |i: int| spec_new_subdevice());
        let m1 = DeviceManagerV { uninitialized: false, devices: fresh, ..m };
        assert(spec_expected_wkc(d.command, m1.devices.len() as int) == d.wkc);
        lemma_brd_fold_props(
            fresh,
            m1.esm_events,
            spec_ado(d.address),
            d.payload,
            m1.num_frames,
            true,
            fresh.len() as int,
        );
        let stepped = spec_brd_device_step(
            spec_new_subdevice(),
            spec_ado(d.address),
            d.payload,
        );
        assert(stepped.0.configured_address is None);
        assert forall|i: int| 0 <= i < d.wkc implies #[trigger] spec_dispatch(
            m,
            d,
            timestamp,
            from_main,
        ).devices[i] == stepped.0 by {
            assert(fresh[i] == spec_new_subdevice());
        }
    }
}

/// The working-counter rule: for an initialized manager, an inbound
/// broadcast expects the whole roster and an inbound addressed command
/// expects one device. A mismatch records exactly one `InvalidWkc` event
/// carrying both counts, runs no ESM step, and still applies the
/// datagram's register effects — for a broadcast read, the payload lands
/// in every subdevice's broadcast image even so.
pub proof fn lemma_wkc_mismatch(m: DeviceManagerV, d: ECDatagramV, timestamp: u64)
    requires
        !m.uninitialized,
        spec_handled(d.command),
        d.wkc != spec_expected_wkc(d.command, m.devices.len() as int),
    ensures
        ({
            let expected = spec_expected_wkc(d.command, m.devices.len() as int);
            let r = spec_dispatch(m, d, timestamp, false);
            &&& r.expected_wkc == expected
            &&& r.uninitialized == m.uninitialized
            &&& r.num_frames == m.num_frames
            &&& r.esm_events == m.esm_events
            &&& r.error_events.len() > m.error_events.len()
            &&& r.error_events.subrange(0, m.error_events.len() as int) == m.error_events
            &&& r.error_events[m.error_events.len() as int] == (ECError::InvalidWkc {
                packet_number: m.num_frames,
                command: ECCommandType(d.command),
                from_main: false,
                timestamp,
                expected,
                actual: d.wkc,
            })
            &&& forall|j: int|
                m.error_events.len() < j < r.error_events.len()
                    ==> !(#[trigger] r.error_events[j] matches ECError::InvalidWkc { .. })
            &&& d.command == ec_command::BRD ==> r.devices == spec_brd_write_devices(
                m.devices,
                spec_ado(d.address),
                d.payload,
            )
        }),
{
    let expected = spec_expected_wkc(d.command, m.devices.len() as int);
    let ev = ECError::InvalidWkc {
        packet_number: m.num_frames,
        command: ECCommandType(d.command),
        from_main: false,
        timestamp,
        expected,
        actual: d.wkc,
    };
    let m2 = DeviceManagerV {
        expected_wkc: expected,
        error_events: m.error_events.push(ev),
        ..m
    };
    let r = spec_process(m2, d, false, false);
    assert(m2.error_events.subrange(0, m.error_events.len() as int) =~= m.error_events);
    assert(r.error_events.subrange(0, m.error_events.len() as int) =~= m.error_events);
    if d.command == ec_command::BRD {
        lemma_brd_fold_props(
            m.devices,
            m.esm_events,
            spec_ado(d.address),
            d.payload,
            m.num_frames,
            false,
            m.devices.len() as int,
        );
        assert(r.devices =~= spec_brd_write_devices(m.devices, spec_ado(d.address), d.payload));
    }
}

/// Register separation: an outbound auto-increment write to roster
/// position `i` fills only that device's main-written image with the
/// payload at the written offsets, and leaves its other two images, and
/// every other device, untouched.
pub proof fn lemma_register_separation(m: DeviceManagerV, d: ECDatagramV, timestamp: u64)
    requires
        !m.uninitialized,
        d.command == ec_command::APWR,
        d.payload.len() <= 0x10000,
        spec_position_index(true, m.devices.len() as int, spec_adp(d.address)) is Some,
    ensures
        ({
            let i = spec_position_index(
                true,
                m.devices.len() as int,
                spec_adp(d.address),
            )->Some_0;
            let reg = spec_ado(d.address);
            let r = spec_dispatch(m, d, timestamp, true);
            &&& r.devices.len() == m.devices.len()
            &&& r.error_events == m.error_events
            &&& forall|k: int|
                0 <= k < d.payload.len() ==> r.devices[i].register_wr.contains_key(
                    #[trigger] crate::wire::wrap_add(reg, k),
                ) && r.devices[i].register_wr[crate::wire::wrap_add(reg, k)] == d.payload[k]
            &&& r.devices[i].register_rd == m.devices[i].register_rd
            &&& r.devices[i].register_brd == m.devices[i].register_brd
            &&& forall|j: int|
                0 <= j < m.devices.len() && j != i ==> #[trigger] r.devices[j] == m.devices[j]
        }),
{
    let i = spec_position_index(true, m.devices.len() as int, spec_adp(d.address))->Some_0;
    crate::subdevice::lemma_write_bytes_props(
        m.devices[i].register_wr,
        spec_ado(d.address),
        d.payload,
    );
}

/// Process-wide state for one capture session.
pub struct DeviceManager {
    uninitialized: bool,
    num_frames: u64,
    expected_wkc: u16,
    devices: Vec<SubDevice>,
    config_address_map: LinearMap<usize>,
    esm_events: Vec<EsmReport>,
    error_events: Vec<ECError>,
}

impl View for DeviceManager {
    type V = DeviceManagerV;

    closed spec fn view(&self) -> DeviceManagerV {
        DeviceManagerV {
            uninitialized: self.uninitialized,
            num_frames: self.num_frames,
            expected_wkc: self.expected_wkc,
            devices: self.devices@.map_values(|d: SubDevice| d@),
            config_address_map: self.config_address_map@,
            esm_events: self.esm_events@,
            error_events: self.error_events@,
        }
    }
}

impl DeviceManager {
    /// The representation invariant: the register images and the address
    /// map are well formed, the roster fits a working counter, and the map
    /// points into the roster; while uninitialized both are empty.
    pub closed spec fn wf(&self) -> bool {
        &&& self.config_address_map.wf()
        &&& forall|i: int| 0 <= i < self.devices@.len() ==> (#[trigger] self.devices@[i]).wf()
        &&& self.devices@.len() <= 0xFFFF
        &&& forall|a: u16|
            #[trigger] self.config_address_map@.contains_key(a)
                ==> self.config_address_map@[a] < self.devices@.len()
        &&& self.uninitialized ==> self.config_address_map@ == Map::<u16, usize>::empty()
            && self.devices@.len() == 0
    }

    /// A fresh manager: no roster yet, nothing counted, nothing reported.
    pub fn new() -> (r: DeviceManager)
        ensures
            r.wf(),
            r@ == spec_new_manager(),
    {
        let r = DeviceManager {
            uninitialized: true,
            num_frames: 0,
            expected_wkc: 0,
            devices: Vec::new(),
            config_address_map: LinearMap::new(),
            esm_events: Vec::new(),
            error_events: Vec::new(),
        };
        proof {
            assert(r@.devices =~= Seq::<SubDeviceV>::empty());
            assert(r@.esm_events =~= Seq::<EsmReport>::empty());
            assert(r@.error_events =~= Seq::<ECError>::empty());
        }
        r
    }

    /// Whether the first inbound broadcast read is still awaited.
    pub fn is_uninitialized(&self) -> (r: bool)
        ensures
            r == self@.uninitialized,
    {
        self.uninitialized
    }

    /// How many frames were analyzed.
    pub fn num_frames(&self) -> (r: u64)
        ensures
            r == self@.num_frames,
    {
        self.num_frames
    }

    /// The expected working counter last computed for an inbound datagram.
    pub fn expected_wkc(&self) -> (r: u16)
        ensures
            r == self@.expected_wkc,
    {
        self.expected_wkc
    }

    /// How many subdevices the roster holds.
    pub fn num_devices(&self) -> (r: usize)
        ensures
            r == self@.devices.len(),
    {
        self.devices.len()
    }

    /// The subdevice at bus position `i`.
    pub fn device(&self, i: usize) -> (r: &SubDevice)
        requires
            i < self@.devices.len(),
        ensures
            r@ == self@.devices[i as int],
    {
        &self.devices[i]
    }

    /// The roster position registered for a configured station address.
    pub fn lookup_config_address(&self, address: u16) -> (r: Option<usize>)
        requires
            self.wf(),
        ensures
            r == if self@.config_address_map.contains_key(address) {
                Some(self@.config_address_map[address])
            } else {
                None::<usize>
            },
    {
        self.config_address_map.get(address)
    }

    /// The ESM violations recorded so far, in observation order.
    pub fn esm_events(&self) -> (r: &Vec<EsmReport>)
        ensures
            r@ == self@.esm_events,
    {
        &self.esm_events
    }

    /// The datagram errors recorded so far (working-counter mismatches and
    /// unresolved addresses), in observation order.
    pub fn error_events(&self) -> (r: &Vec<ECError>)
        ensures
            r@ == self@.error_events,
    {
        &self.error_events
    }

    /// Analyze one captured frame: parse it, count it, and run every
    /// datagram through its command handler in on-wire order. Datagram
    /// errors are recorded as events and never stop the frame; only a
    /// non-EtherCAT protocol type or a malformed chain rejects it whole.
    pub fn analyze_packet(&mut self, packet: &ECFrame, timestamp: u64, from_main: bool) -> (r:
        Result<(), ECError>)
        requires
            old(self).wf(),
        ensures
            final(self).wf(),
            final(self)@ == spec_analyze(old(self)@, packet@, timestamp, from_main).0,
            r == spec_analyze(old(self)@, packet@, timestamp, from_main).1,
    {
        if packet.protocol_type() != 0x01 {
            return Err(ECError::InvalidDatagram(ECPacketError::InvalidHeader));
        }
        let datagrams = match packet.parse_datagram() {
            Ok(ds) => ds,
            Err(e) => {
                return Err(ECError::InvalidDatagram(e));
            },
        };
        self.num_frames = if self.num_frames == u64::MAX {
            0
        } else {
            self.num_frames + 1
        };
        let ghost m1 = self@;
        let ghost dsv = datagrams@;
        proof {
            assert(m1 == (DeviceManagerV {
                num_frames: spec_inc_frames(old(self)@.num_frames),
                ..old(self)@
            }));
        }
        let n = datagrams.len();
        let mut i: usize = 0;
        while i < n
            invariant
                0 <= i <= n,
                n == dsv.len(),
                datagrams@ == dsv,
                self.wf(),
                spec_analyze(old(self)@, packet@, timestamp, from_main).0 == spec_analyze_chain(
                    m1,
                    dsv,
                    timestamp,
                    from_main,
                    0,
                ),
                spec_analyze(old(self)@, packet@, timestamp, from_main).1 == Ok::<(), ECError>(()),
                spec_analyze_chain(m1, dsv, timestamp, from_main, 0) == spec_analyze_chain(
                    self@,
                    dsv,
                    timestamp,
                    from_main,
                    i as int,
                ),
            decreases n - i,
        {
            let d = datagrams.get(i);
            self.process_datagram(d, timestamp, from_main);
            i += 1;
        }
        Ok(())
    }

    /// Route one datagram through the initialization rule, the
    /// working-counter check, and its command handler.
    fn process_datagram(&mut self, d: &ECDatagram, timestamp: u64, from_main: bool)
        requires
            old(self).wf(),
        ensures
            final(self).wf(),
            final(self)@ == spec_dispatch(old(self)@, d@, timestamp, from_main),
    {
        let cmd = d.command().0;
        let handled = cmd == ec_command::BRD || cmd == ec_command::BWR || cmd == ec_command::BRW
            || cmd == ec_command::APWR || cmd == ec_command::APRD || cmd == ec_command::FPWR
            || cmd == ec_command::FPRD || cmd == ec_command::ARMW || cmd == ec_command::FRMW;
        if !handled {
            return ;
        }
        if self.uninitialized {
            if cmd == ec_command::BRD && !from_main {
                let num = d.wkc();
                let mut devs: Vec<SubDevice> = Vec::new();
                let mut k: usize = 0;
                while k < num as usize
                    invariant
                        0 <= k <= num,
                        devs@.len() == k,
                        forall|j: int|
                            0 <= j < k ==> (#[trigger] devs@[j])@ == spec_new_subdevice()
                                && devs@[j].wf(),
                    decreases num - k,
                {
                    devs.push(SubDevice::new());
                    k += 1;
                }
                proof {
                    assert(devs@.map_values(|dev: SubDevice| dev@) =~= Seq::new(
                        num as nat,
                        |j: int| spec_new_subdevice(),
                    ));
                }
                self.devices = devs;
                self.uninitialized = false;
            } else {
                return ;
            }
        }
        let mut run_stepper = true;
        if !from_main {
            let expected: u16 = if cmd == ec_command::BRD || cmd == ec_command::BWR || cmd
                == ec_command::BRW {
                self.devices.len() as u16
            } else {
                1
            };
            self.expected_wkc = expected;
            if d.wkc() != expected {
                self.error_events.push(
                    ECError::InvalidWkc {
                        packet_number: self.num_frames,
                        command: d.command(),
                        from_main,
                        timestamp,
                        expected,
                        actual: d.wkc(),
                    },
                );
                run_stepper = false;
            }
        }
        if cmd == ec_command::BRD {
            self.process_brd(d, from_main, run_stepper);
        } else if cmd == ec_command::BWR {
            self.process_bwr(d, from_main);
        } else if cmd == ec_command::APWR {
            self.process_apwr(d, from_main);
        } else if cmd == ec_command::APRD {
            self.process_aprd(d, from_main, run_stepper);
        } else if cmd == ec_command::FPWR {
            self.process_fpwr(d, from_main);
        } else if cmd == ec_command::FPRD {
            self.process_fprd(d, from_main, run_stepper);
        } else if cmd == ec_command::ARMW {
            self.process_armw(d, from_main);
        } else if cmd == ec_command::FRMW {
            self.process_frmw(d, from_main);
        }
    }

    /// The roster position an auto-increment datagram addresses, if any.
    fn position_index(&self, from_main: bool, adp: u16) -> (r: Option<usize>)
        ensures
            r == match spec_position_index(from_main, self@.devices.len() as int, adp) {
                Some(i) => Some(i as usize),
                None => None::<usize>,
            },
            r is Some ==> r->Some_0 < self@.devices.len(),
    {
        let n = self.devices.len();
        if from_main {
            let idx: usize = if adp == 0 {
                0
            } else {
                0x10000 - adp as usize
            };
            if idx < n {
                Some(idx)
            } else {
                None
            }
        } else {
            if 0 < adp as usize && adp as usize <= n {
                Some(n - adp as usize)
            } else {
                None
            }
        }
    }

    /// Broadcast read: on the inbound half, record the payload in every
    /// subdevice's broadcast image; the BRD stepper runs on each unless
    /// the working counter mismatched.
    fn process_brd(&mut self, d: &ECDatagram, from_main: bool, run_stepper: bool)
        requires
            old(self).wf(),
            d@.command == ec_command::BRD,
        ensures
            final(self).wf(),
            final(self)@ == spec_process(old(self)@, d@, from_main, run_stepper),
    {
        if !from_main {
            let reg_addr = Self::address_high(d.address());
            let payload = d.payload();
            let frame = self.num_frames;
            let n = self.devices.len();
            let ghost devices0 = self@.devices;
            let ghost events0 = self@.esm_events;
            let mut i: usize = 0;
            while i < n
                invariant
                    0 <= i <= n,
                    n == self.devices@.len(),
                    self.wf(),
                    self.uninitialized == old(self).uninitialized,
                    self.num_frames == frame,
                    self.expected_wkc == old(self).expected_wkc,
                    self.config_address_map@ == old(self)@.config_address_map,
                    self.config_address_map.wf(),
                    self.error_events@ == old(self)@.error_events,
                    (self@.devices, self@.esm_events) == spec_brd_fold(
                        devices0,
                        events0,
                        reg_addr,
                        payload@,
                        frame,
                        run_stepper,
                        i as int,
                    ),
                decreases n - i,
            {
                let dev = &mut self.devices[i];
                dev.write_reg_brd(reg_addr, payload);
                if run_stepper {
                    let res = dev.state_machine_step::<BrdCommandStepper>(frame);
                    match res {
                        Ok(_) => {},
                        Err(e) => {
                            self.esm_events.push(
                                EsmReport { packet_number: frame, device_index: i, error: e },
                            );
                        },
                    }
                }
                proof {
                    assert(self@.devices =~= spec_brd_fold(
                        devices0,
                        events0,
                        reg_addr,
                        payload@,
                        frame,
                        run_stepper,
                        i + 1,
                    ).0);
                    assert(self@.esm_events =~= spec_brd_fold(
                        devices0,
                        events0,
                        reg_addr,
                        payload@,
                        frame,
                        run_stepper,
                        i + 1,
                    ).1);
                }
                i += 1;
            }
        }
    }

    /// Broadcast write: on the outbound half, record the payload in every
    /// subdevice's main-written image.
    fn process_bwr(&mut self, d: &ECDatagram, from_main: bool)
        requires
            old(self).wf(),
            d@.command == ec_command::BWR,
        ensures
            final(self).wf(),
            final(self)@ == spec_process(old(self)@, d@, from_main, true),
            final(self)@ == spec_process(old(self)@, d@, from_main, false),
    {
        if !from_main {
            return ;
        }
        let reg_addr = Self::address_high(d.address());
        let payload = d.payload();
        let n = self.devices.len();
        let ghost devices0 = self@.devices;
        let mut i: usize = 0;
        while i < n
            invariant
                0 <= i <= n,
                n == self.devices@.len(),
                self.wf(),
                self.uninitialized == old(self).uninitialized,
                self.num_frames == old(self).num_frames,
                self.expected_wkc == old(self).expected_wkc,
                self.config_address_map@ == old(self)@.config_address_map,
                self.config_address_map.wf(),
                self.esm_events@ == old(self)@.esm_events,
                self.error_events@ == old(self)@.error_events,
                self@.devices.len() == devices0.len(),
                forall|j: int|
                    0 <= j < i ==> self@.devices[j] == spec_bwr_devices(
                        devices0,
                        reg_addr,
                        payload@,
                    )[j],
                forall|j: int| i <= j < n ==> self@.devices[j] == devices0[j],
            decreases n - i,
        {
            let ghost before = self@.devices;
            let dev = &mut self.devices[i];
            dev.write_reg_wr(reg_addr, payload);
            proof {
                assert(self@.devices =~= before.update(
                    i as int,
                    SubDeviceV {
                        register_wr: spec_write_bytes(before[i as int].register_wr, reg_addr, payload@),
                        ..before[i as int]
                    },
                ));
            }
            i += 1;
        }
        proof {
            assert(self@.devices =~= spec_bwr_devices(devices0, reg_addr, payload@));
        }
    }

    /// Auto-increment write: resolve the position, recording a miss; on
    /// the outbound half record the payload in the addressed subdevice's
    /// main-written image.
    fn process_apwr(&mut self, d: &ECDatagram, from_main: bool)
        requires
            old(self).wf(),
            d@.command == ec_command::APWR,
        ensures
            final(self).wf(),
            final(self)@ == spec_process(old(self)@, d@, from_main, true),
            final(self)@ == spec_process(old(self)@, d@, from_main, false),
    {
        let adp = Self::address_low(d.address());
        let index = match self.position_index(from_main, adp) {
            Some(i) => i,
            None => {
                self.error_events.push(ECError::InvalidAutoIncrementAddress(adp));
                return ;
            },
        };
        if from_main {
            let reg_addr = Self::address_high(d.address());
            let payload = d.payload();
            let ghost m0 = self@;
            let dev = &mut self.devices[index];
            dev.write_reg_wr(reg_addr, payload);
            proof {
                assert(self@.devices =~= m0.devices.update(
                    index as int,
                    SubDeviceV {
                        register_wr: spec_write_bytes(
                            m0.devices[index as int].register_wr,
                            reg_addr,
                            payload@,
                        ),
                        ..m0.devices[index as int]
                    },
                ));
            }
        }
    }

    /// Auto-increment read: resolve the position, recording a miss; on the
    /// inbound half record the returned payload, run the APRD stepper
    /// (unless the working counter mismatched), and register any
    /// configured address the device carries.
    fn process_aprd(&mut self, d: &ECDatagram, from_main: bool, run_stepper: bool)
        requires
            old(self).wf(),
            d@.command == ec_command::APRD,
        ensures
            final(self).wf(),
            final(self)@ == spec_process(old(self)@, d@, from_main, run_stepper),
    {
        let adp = Self::address_low(d.address());
        let index = match self.position_index(from_main, adp) {
            Some(i) => i,
            None => {
                self.error_events.push(ECError::InvalidAutoIncrementAddress(adp));
                return ;
            },
        };
        if !from_main {
            let reg_addr = Self::address_high(d.address());
            let payload = d.payload();
            let frame = self.num_frames;
            let ghost m0 = self@;
            let dev = &mut self.devices[index];
            dev.write_reg_rd(reg_addr, payload);
            let res: Result<(), ESMError> = if run_stepper {
                dev.state_machine_step::<AprdCommandStepper>(frame)
            } else {
                Ok(())
            };
            let learned = dev.configured_address();
            proof {
                if run_stepper {
                    assert(self@.devices =~= m0.devices.update(
                        index as int,
                        spec_aprd_device_step(m0.devices[index as int], reg_addr, payload@).0,
                    ));
                } else {
                    assert(self@.devices =~= m0.devices.update(
                        index as int,
                        spec_rd_write(m0.devices[index as int], reg_addr, payload@),
                    ));
                }
            }
            match res {
                Ok(_) => {},
                Err(e) => {
                    self.esm_events.push(
                        EsmReport { packet_number: frame, device_index: index, error: e },
                    );
                },
            }
            match learned {
                Some(address) => {
                    self.config_address_map.set(address, index);
                },
                None => {},
            }
        }
    }

    /// Configured-address write: on the outbound half, look the station
    /// up, recording a miss, and record the payload in its main-written
    /// image.
    fn process_fpwr(&mut self, d: &ECDatagram, from_main: bool)
        requires
            old(self).wf(),
            d@.command == ec_command::FPWR,
        ensures
            final(self).wf(),
            final(self)@ == spec_process(old(self)@, d@, from_main, true),
            final(self)@ == spec_process(old(self)@, d@, from_main, false),
    {
        if !from_main {
            return ;
        }
        let address = Self::address_low(d.address());
        let index = match self.config_address_map.get(address) {
            Some(i) => i,
            None => {
                self.error_events.push(ECError::InvalidConfiguredAddress(address));
                return ;
            },
        };
        let reg_addr = Self::address_high(d.address());
        let payload = d.payload();
        let ghost m0 = self@;
        let dev = &mut self.devices[index];
        dev.write_reg_wr(reg_addr, payload);
        proof {
            assert(self@.devices =~= m0.devices.update(
                index as int,
                SubDeviceV {
                    register_wr: spec_write_bytes(
                        m0.devices[index as int].register_wr,
                        reg_addr,
                        payload@,
                    ),
                    ..m0.devices[index as int]
                },
            ));
        }
    }

    /// Configured-address read: look the station up, recording a miss; on
    /// the inbound half record the returned payload and run the FPRD
    /// stepper (unless the working counter mismatched).
    fn process_fprd(&mut self, d: &ECDatagram, from_main: bool, run_stepper: bool)
        requires
            old(self).wf(),
            d@.command == ec_command::FPRD,
        ensures
            final(self).wf(),
            final(self)@ == spec_process(old(self)@, d@, from_main, run_stepper),
    {
        let address = Self::address_low(d.address());
        let index = match self.config_address_map.get(address) {
            Some(i) => i,
            None => {
                self.error_events.push(ECError::InvalidConfiguredAddress(address));
                return ;
            },
        };
        if !from_main {
            let reg_addr = Self::address_high(d.address());
            let payload = d.payload();
            let frame = self.num_frames;
            let ghost m0 = self@;
            let dev = &mut self.devices[index];
            dev.write_reg_rd(reg_addr, payload);
            let res: Result<(), ESMError> = if run_stepper {
                dev.state_machine_step::<FprdCommandStepper>(frame)
            } else {
                Ok(())
            };
            proof {
                if run_stepper {
                    assert(self@.devices =~= m0.devices.update(
                        index as int,
                        spec_fprd_device_step(m0.devices[index as int], reg_addr, payload@).0,
                    ));
                } else {
                    assert(self@.devices =~= m0.devices.update(
                        index as int,
                        spec_rd_write(m0.devices[index as int], reg_addr, payload@),
                    ));
                }
            }
            match res {
                Ok(_) => {},
                Err(e) => {
                    self.esm_events.push(
                        EsmReport { packet_number: frame, device_index: index, error: e },
                    );
                },
            }
        }
    }

    /// Auto-increment read-modify-write: only the position is resolved, a
    /// miss recorded; no register effect is modeled.
    fn process_armw(&mut self, d: &ECDatagram, from_main: bool)
        requires
            old(self).wf(),
            d@.command == ec_command::ARMW,
        ensures
            final(self).wf(),
            final(self)@ == spec_process(old(self)@, d@, from_main, true),
            final(self)@ == spec_process(old(self)@, d@, from_main, false),
    {
        let adp = Self::address_low(d.address());
        match self.position_index(from_main, adp) {
            Some(_) => {},
            None => {
                self.error_events.push(ECError::InvalidAutoIncrementAddress(adp));
            },
        }
    }

    /// Configured-address read-modify-write: only the station is looked
    /// up, a miss recorded; no register effect is modeled.
    fn process_frmw(&mut self, d: &ECDatagram, from_main: bool)
        requires
            old(self).wf(),
            d@.command == ec_command::FRMW,
        ensures
            final(self).wf(),
            final(self)@ == spec_process(old(self)@, d@, from_main, true),
            final(self)@ == spec_process(old(self)@, d@, from_main, false),
    {
        let address = Self::address_low(d.address());
        match self.config_address_map.get(address) {
            Some(_) => {},
            None => {
                self.error_events.push(ECError::InvalidConfiguredAddress(address));
            },
        }
    }

    /// The low half of a datagram address field.
    fn address_low(address: u32) -> (r: u16)
        ensures
            r == spec_adp(address),
    {
        proof {
            assert(address & 0xFFFF <= 0xFFFF) by (bit_vector);
        }
        (address & 0xFFFF) as u16
    }

    /// The high half of a datagram address field.
    fn address_high(address: u32) -> (r: u16)
        ensures
            r == spec_ado(address),
    {
        proof {
            assert((address >> 16) & 0xFFFF <= 0xFFFF) by (bit_vector);
        }
        ((address >> 16) & 0xFFFF) as u16
    }
}

} // verus!

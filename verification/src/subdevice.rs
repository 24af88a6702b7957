//! The reconstructed model of one subdevice on the ring: its register files,
//! its AL state, and the EtherCAT State Machine (ESM) validation.

use vstd::prelude::*;

use crate::linear_map::LinearMap;
use crate::register_address;
use crate::registers::{spec_al_control, spec_al_status, AlControl, AlStatus};
use crate::wire::{le16, spec_le16, wrap_add, wrap_offset};

verus! {

/// AL application-layer state of a subdevice.
///
/// The numeric register encoding is `Init = 0x01`, `PreOp = 0x02`,
/// `Bootstrap = 0x03`, `SafeOp = 0x04`, `Op = 0x08`; see
/// [`ECState::state_value`]. Forward/backward comparisons between states go
/// by that numeric value, which places `Bootstrap` between `PreOp` and
/// `SafeOp` even though real EtherCAT treats it as a side branch.
#[derive(Debug, Clone, Copy, PartialEq, Eq, Structural)]
pub enum ECState {
    Init,
    PreOp,
    SafeOp,
    Op,
    Bootstrap,
}

/// The register nibble that encodes a state.
pub open spec fn spec_state_value(s: ECState) -> u8 {
    match s {
        ECState::Init => 0x01,
        ECState::PreOp => 0x02,
        ECState::Bootstrap => 0x03,
        ECState::SafeOp => 0x04,
        ECState::Op => 0x08,
    }
}

impl ECState {
    /// The register nibble that encodes this state; also the order used for
    /// forward/backward comparisons.
    pub fn state_value(&self) -> (v: u8)
        ensures
            v == spec_state_value(*self),
    {
        match *self {
            ECState::Init => 0x01,
            ECState::PreOp => 0x02,
            ECState::Bootstrap => 0x03,
            ECState::SafeOp => 0x04,
            ECState::Op => 0x08,
        }
    }
}

/// A violation of the EtherCAT State Machine observed in the capture.
#[derive(Debug, Clone, Copy, PartialEq, Eq, Structural)]
pub enum ESMError {
    HasError,
    /// The state changed although no change had ever been requested.
    IllegalTransition { to: ECState },
    /// The device moved past (or forward without) the requested state.
    InvalidStateTransition { requested: ECState, current: ECState },
    /// The state moved backward.
    BackwardTransition { from: ECState, to: ECState, has_error: bool },
    /// The device answered a request with a state short of the requested one.
    TransitionFailed { requested: ECState, current: ECState, has_error: bool },
}

/// The abstract state of a subdevice: what `SubDevice` holds, with the three
/// register images as partial maps from offset to byte.
pub struct SubDeviceV {
    pub state: ECState,
    pub has_esm_error: bool,
    pub configured_address: Option<u16>,
    pub al_status: Option<AlStatus>,
    pub al_status_code: Option<u16>,
    pub al_control: Option<AlControl>,
    pub register_brd: Map<u16, u8>,
    pub register_wr: Map<u16, u8>,
    pub register_rd: Map<u16, u8>,
}

/// A freshly created subdevice: `Init`, nothing observed yet.
pub open spec fn spec_new_subdevice() -> SubDeviceV {
    SubDeviceV {
        state: ECState::Init,
        has_esm_error: false,
        configured_address: None,
        al_status: None,
        al_status_code: None,
        al_control: None,
        register_brd: Map::empty(),
        register_wr: Map::empty(),
        register_rd: Map::empty(),
    }
}

/// A register image after a byte-wise write of `data` at `addr`, offsets
/// wrapping at the 16-bit boundary.
pub open spec fn spec_write_bytes(m: Map<u16, u8>, addr: u16, data: Seq<u8>) -> Map<u16, u8>
    decreases data.len(),
{
    if data.len() == 0 {
        m
    } else {
        spec_write_bytes(m, addr, data.drop_last()).insert(
            wrap_add(addr, data.len() - 1),
            data.last(),
        )
    }
}

/// The bytes read back from a register image at `addr`, one `Option` per
/// offset, `None` where nothing was ever observed.
pub open spec fn spec_read_bytes(m: Map<u16, u8>, addr: u16, length: u16) -> Seq<Option<u8>> {
    Seq::new(
        length as nat,
        |i: int|
            if m.contains_key(wrap_add(addr, i)) {
                Some(m[wrap_add(addr, i)])
            } else {
                None
            },
    )
}

/// A 16-bit little-endian register value at `addr`, present only when both
/// bytes were observed.
pub open spec fn spec_read2(m: Map<u16, u8>, addr: u16) -> Option<u16> {
    let a1 = wrap_add(addr, 1);
    if m.contains_key(addr) && m.contains_key(a1) {
        Some(spec_le16(m[addr], m[a1]))
    } else {
        None
    }
}

/// Whether `x` is one of the `len` wrapped offsets starting at `addr`.
pub open spec fn spec_in_window(addr: u16, len: int, x: u16) -> bool {
    exists|k: int| 0 <= k < len && wrap_add(addr, k) == x
}

/// What a byte-wise register write holds afterwards: each written offset
/// carries its payload byte, and every offset outside the written window is
/// untouched.
pub proof fn lemma_write_bytes_props(m: Map<u16, u8>, addr: u16, data: Seq<u8>)
    requires
        data.len() <= 0x10000,
    ensures
        forall|k: int|
            0 <= k < data.len() ==> spec_write_bytes(m, addr, data).contains_key(
                #[trigger] wrap_add(addr, k),
            ) && spec_write_bytes(m, addr, data)[wrap_add(addr, k)] == data[k],
        forall|x: u16|
            !(#[trigger] spec_in_window(addr, data.len() as int, x)) ==> (spec_write_bytes(
                m,
                addr,
                data,
            ).contains_key(x) == m.contains_key(x) && (m.contains_key(x) ==> spec_write_bytes(
                m,
                addr,
                data,
            )[x] == m[x])),
    decreases data.len(),
{
    if data.len() > 0 {
        lemma_write_bytes_props(m, addr, data.drop_last());
        let last_off = wrap_add(addr, data.len() - 1);
        assert forall|k: int| 0 <= k < data.len() implies spec_write_bytes(m, addr, data)
            .contains_key(#[trigger] wrap_add(addr, k)) && spec_write_bytes(m, addr, data)[
            wrap_add(addr, k)] == data[k] by {
            if k < data.len() - 1 {
                // Distinct wrapped offsets: the window is at most 2^16 wide.
                assert(wrap_add(addr, k) != last_off) by {
                    vstd::arithmetic::div_mod::lemma_mod_equivalence(
                        addr + k,
                        addr + data.len() - 1,
                        0x10000,
                    );
                }
                assert(data.drop_last()[k] == data[k]);
            }
        }
        assert forall|x: u16|
            !(#[trigger] spec_in_window(addr, data.len() as int, x)) implies (spec_write_bytes(
            m,
            addr,
            data,
        ).contains_key(x) == m.contains_key(x) && (m.contains_key(x) ==> spec_write_bytes(
            m,
            addr,
            data,
        )[x] == m[x])) by {
            if last_off == x {
                assert(spec_in_window(addr, data.len() as int, x)) by {
                    assert(wrap_add(addr, data.len() - 1) == x);
                }
            } else {
                assert(!spec_in_window(addr, data.drop_last().len() as int, x)) by {
                    if spec_in_window(addr, data.drop_last().len() as int, x) {
                        let k = choose|k: int|
                            0 <= k < data.drop_last().len() && wrap_add(addr, k) == x;
                        assert(0 <= k < data.len() && wrap_add(addr, k) == x);
                        assert(spec_in_window(addr, data.len() as int, x));
                        assert(false);
                    }
                }
                assert(spec_write_bytes(m, addr, data.drop_last()).contains_key(x)
                    == m.contains_key(x));
                assert(m.contains_key(x) ==> spec_write_bytes(m, addr, data.drop_last())[x]
                    == m[x]);
                assert(spec_write_bytes(m, addr, data).contains_key(x) == spec_write_bytes(
                    m,
                    addr,
                    data.drop_last(),
                ).contains_key(x));
            }
        }
    } else {
        assert(spec_write_bytes(m, addr, data) == m);
    }
}

/// Under clean forward operation the validator never reports a backward
/// transition: whenever the reported AL state is at least the current one
/// in the register ordering, the shared transition step leaves the sticky
/// error flag unchanged and yields no `BackwardTransition`.
pub proof fn lemma_no_backward_on_forward(s: SubDeviceV)
    requires
        match s.al_status {
            Some(st) => match st.state {
                Ok(new_state) => spec_state_value(new_state) >= spec_state_value(s.state),
                Err(_) => true,
            },
            None => true,
        },
    ensures
        spec_change_state(s).0.has_esm_error == s.has_esm_error,
        !(spec_change_state(s).1 matches Err(ESMError::BackwardTransition { .. })),
{
}

/// The refresh a BRD datagram applies: AL Control from the main-written
/// image, AL Status from the broadcast-read image, and the status is kept
/// only when its state nibble decodes.
pub open spec fn spec_refresh_brd(s: SubDeviceV) -> SubDeviceV {
    let al_control = if s.register_wr.contains_key(register_address::AlControl) {
        Some(spec_al_control(s.register_wr[register_address::AlControl]))
    } else {
        None
    };
    let al_status = if s.register_brd.contains_key(register_address::AlStatus) {
        let st = spec_al_status(s.register_brd[register_address::AlStatus]);
        match st.state {
            Ok(_) => Some(st),
            Err(_) => None,
        }
    } else {
        None
    };
    SubDeviceV { al_control, al_status, ..s }
}

/// The refresh an APRD datagram applies: in `Init`, learn the configured
/// station address, but only when the main-written and device-returned
/// copies agree.
pub open spec fn spec_refresh_aprd(s: SubDeviceV) -> SubDeviceV {
    if s.state == ECState::Init && s.configured_address is None {
        let wr = spec_read2(s.register_wr, register_address::ConfiguredStationAddress);
        let rd = spec_read2(s.register_rd, register_address::ConfiguredStationAddress);
        match (wr, rd) {
            (Some(w), Some(r)) => if w == r {
                SubDeviceV { configured_address: Some(w), ..s }
            } else {
                s
            },
            _ => s,
        }
    } else {
        s
    }
}

/// The refresh an FPRD datagram applies: AL Control from the main-written
/// image and AL Status from the device-returned image, both unconditionally.
pub open spec fn spec_refresh_fprd(s: SubDeviceV) -> SubDeviceV {
    let al_control = if s.register_wr.contains_key(register_address::AlControl) {
        Some(spec_al_control(s.register_wr[register_address::AlControl]))
    } else {
        None
    };
    let al_status = if s.register_rd.contains_key(register_address::AlStatus) {
        Some(spec_al_status(s.register_rd[register_address::AlStatus]))
    } else {
        None
    };
    SubDeviceV { al_control, al_status, ..s }
}

/// The AL status code as read from the device-returned image.
pub open spec fn spec_al_status_code_read(s: SubDeviceV) -> Option<u16> {
    spec_read2(s.register_rd, register_address::AlStatusCode)
}

/// The uniform ESM transition decision, run after every refresh: the new
/// subdevice state and the violation it implies, if any.
///
/// The state is committed to what the device reported even when a violation
/// is flagged: the validator tracks reality, it does not hide it.
pub open spec fn spec_change_state(s: SubDeviceV) -> (SubDeviceV, Result<(), ESMError>) {
    match s.al_status {
        None => (s, Ok(())),
        Some(al_status) => match al_status.state {
            Err(_) => (s, Ok(())),
            Ok(new_state) => {
                let old_state = s.state;
                let requested = match s.al_control {
                    Some(al_control) => match al_control.state {
                        Ok(req) => if req != old_state {
                            Some(req)
                        } else {
                            None
                        },
                        Err(_) => None,
                    },
                    None => None,
                };
                let committed = SubDeviceV { state: new_state, ..s };
                match requested {
                    Some(req) => {
                        if spec_state_value(new_state) > spec_state_value(req) {
                            (
                                committed,
                                Err(ESMError::InvalidStateTransition {
                                    requested: req,
                                    current: new_state,
                                }),
                            )
                        } else if spec_state_value(new_state) < spec_state_value(old_state) {
                            (
                                SubDeviceV {
                                    has_esm_error: true,
                                    al_status_code: spec_al_status_code_read(s),
                                    ..committed
                                },
                                Err(ESMError::BackwardTransition {
                                    from: old_state,
                                    to: new_state,
                                    has_error: al_status.error,
                                }),
                            )
                        } else if spec_state_value(new_state) < spec_state_value(req) {
                            (
                                committed,
                                Err(ESMError::TransitionFailed {
                                    requested: req,
                                    current: new_state,
                                    has_error: al_status.error,
                                }),
                            )
                        } else {
                            (committed, Ok(()))
                        }
                    },
                    None => {
                        if s.al_control is None && new_state != old_state {
                            (committed, Err(ESMError::IllegalTransition { to: new_state }))
                        } else if spec_state_value(new_state) < spec_state_value(old_state) {
                            (
                                SubDeviceV {
                                    has_esm_error: true,
                                    al_status_code: spec_al_status_code_read(s),
                                    ..committed
                                },
                                Err(ESMError::BackwardTransition {
                                    from: old_state,
                                    to: new_state,
                                    has_error: al_status.error,
                                }),
                            )
                        } else if spec_state_value(new_state) > spec_state_value(old_state) {
                            (
                                committed,
                                Err(ESMError::InvalidStateTransition {
                                    requested: old_state,
                                    current: new_state,
                                }),
                            )
                        } else {
                            (committed, Ok(()))
                        }
                    },
                }
            },
        },
    }
}

/// The reconstructed state of one physical device on the ring.
pub struct SubDevice {
    state: ECState,
    has_esm_error: bool,
    configured_address: Option<u16>,
    al_status: Option<AlStatus>,
    al_status_code: Option<u16>,
    al_control: Option<AlControl>,
    register_brd: LinearMap<u8>,
    register_wr: LinearMap<u8>,
    register_rd: LinearMap<u8>,
}

impl View for SubDevice {
    type V = SubDeviceV;

    closed spec fn view(&self) -> SubDeviceV {
        SubDeviceV {
            state: self.state,
            has_esm_error: self.has_esm_error,
            configured_address: self.configured_address,
            al_status: self.al_status,
            al_status_code: self.al_status_code,
            al_control: self.al_control,
            register_brd: self.register_brd@,
            register_wr: self.register_wr@,
            register_rd: self.register_rd@,
        }
    }
}

impl SubDevice {
    /// The register images are well formed.
    pub closed spec fn wf(&self) -> bool {
        self.register_brd.wf() && self.register_wr.wf() && self.register_rd.wf()
    }

    /// A fresh subdevice in `Init` with empty register images.
    pub fn new() -> (r: SubDevice)
        ensures
            r.wf(),
            r@ == spec_new_subdevice(),
    {
        SubDevice {
            state: ECState::Init,
            has_esm_error: false,
            configured_address: None,
            al_status: None,
            al_status_code: None,
            al_control: None,
            register_brd: LinearMap::new(),
            register_wr: LinearMap::new(),
            register_rd: LinearMap::new(),
        }
    }

    /// The configured station address, once learned from the traffic.
    pub fn configured_address(&self) -> (r: Option<u16>)
        ensures
            r == self@.configured_address,
    {
        self.configured_address
    }

    /// The current AL state of the device.
    pub fn state(&self) -> (r: ECState)
        ensures
            r == self@.state,
    {
        self.state
    }

    /// Whether a backward transition has ever been observed.
    pub fn has_esm_error(&self) -> (r: bool)
        ensures
            r == self@.has_esm_error,
    {
        self.has_esm_error
    }

    /// The last AL Status the steppers retained.
    pub fn al_status(&self) -> (r: Option<AlStatus>)
        ensures
            r == self@.al_status,
    {
        self.al_status
    }

    /// The last AL Control observed from the main device.
    pub fn al_control(&self) -> (r: Option<AlControl>)
        ensures
            r == self@.al_control,
    {
        self.al_control
    }

    /// The AL status code captured on the last backward transition.
    pub fn al_status_code(&self) -> (r: Option<u16>)
        ensures
            r == self@.al_status_code,
    {
        self.al_status_code
    }

    /// The configured station alias, as last written by the main device.
    pub fn configured_alias(&self) -> (r: Option<u16>)
        requires
            self.wf(),
        ensures
            r == spec_read2(self@.register_wr, register_address::ConfiguredStationAlias),
    {
        Self::read2(&self.register_wr, register_address::ConfiguredStationAlias)
    }

    /// A 16-bit little-endian read out of one register image.
    fn read2(register: &LinearMap<u8>, reg_addr: u16) -> (r: Option<u16>)
        requires
            register.wf(),
        ensures
            r == spec_read2(register@, reg_addr),
    {
        let a1 = wrap_offset(reg_addr, 1);
        match (register.get(reg_addr), register.get(a1)) {
            (Some(lo), Some(hi)) => Some(le16(lo, hi)),
            _ => None,
        }
    }

    /// Byte-wise write into one register image at wrapping offsets.
    fn write_reg_impl(register: &mut LinearMap<u8>, reg_addr: u16, data: &[u8])
        requires
            old(register).wf(),
        ensures
            final(register).wf(),
            final(register)@ == spec_write_bytes(old(register)@, reg_addr, data@),
    {
        let n = data.len();
        let mut i: usize = 0;
        while i < n
            invariant
                n == data@.len(),
                0 <= i <= n,
                register.wf(),
                register@ == spec_write_bytes(old(register)@, reg_addr, data@.take(i as int)),
            decreases n - i,
        {
            proof {
                assert(data@.take(i + 1).drop_last() =~= data@.take(i as int));
                assert(data@.take(i + 1).last() == data@[i as int]);
            }
            register.set(wrap_offset(reg_addr, i), data[i]);
            i += 1;
        }
        proof {
            assert(data@.take(n as int) =~= data@);
        }
    }

    /// Byte-wise read out of one register image at wrapping offsets.
    fn read_reg_impl(register: &LinearMap<u8>, reg_addr: u16, length: u16) -> (r: Vec<Option<u8>>)
        requires
            register.wf(),
        ensures
            r@ == spec_read_bytes(register@, reg_addr, length),
    {
        let mut r: Vec<Option<u8>> = Vec::new();
        let n = length as usize;
        let mut i: usize = 0;
        while i < n
            invariant
                n == length as int,
                0 <= i <= n,
                register.wf(),
                r@.len() == i,
                forall|j: int|
                    0 <= j < i ==> r@[j] == spec_read_bytes(register@, reg_addr, length)[j],
            decreases n - i,
        {
            r.push(register.get(wrap_offset(reg_addr, i)));
            i += 1;
        }
        proof {
            assert(r@ =~= spec_read_bytes(register@, reg_addr, length));
        }
        r
    }

    /// Record bytes written by the main device (outbound half).
    pub fn write_reg_wr(&mut self, reg_addr: u16, data: &[u8])
        requires
            old(self).wf(),
        ensures
            final(self).wf(),
            final(self)@ == (SubDeviceV {
                register_wr: spec_write_bytes(old(self)@.register_wr, reg_addr, data@),
                ..old(self)@
            }),
    {
        Self::write_reg_impl(&mut self.register_wr, reg_addr, data);
    }

    /// Read back bytes of the main-written image.
    pub fn read_reg_wr(&self, reg_addr: u16, length: u16) -> (r: Vec<Option<u8>>)
        requires
            self.wf(),
        ensures
            r@ == spec_read_bytes(self@.register_wr, reg_addr, length),
    {
        Self::read_reg_impl(&self.register_wr, reg_addr, length)
    }

    /// Record bytes returned by the subdevice (inbound half).
    pub fn write_reg_rd(&mut self, reg_addr: u16, data: &[u8])
        requires
            old(self).wf(),
        ensures
            final(self).wf(),
            final(self)@ == (SubDeviceV {
                register_rd: spec_write_bytes(old(self)@.register_rd, reg_addr, data@),
                ..old(self)@
            }),
    {
        Self::write_reg_impl(&mut self.register_rd, reg_addr, data);
    }

    /// Read back bytes of the device-returned image.
    pub fn read_reg_rd(&self, reg_addr: u16, length: u16) -> (r: Vec<Option<u8>>)
        requires
            self.wf(),
        ensures
            r@ == spec_read_bytes(self@.register_rd, reg_addr, length),
    {
        Self::read_reg_impl(&self.register_rd, reg_addr, length)
    }

    /// Record bytes produced by a broadcast read (inbound half).
    pub fn write_reg_brd(&mut self, reg_addr: u16, data: &[u8])
        requires
            old(self).wf(),
        ensures
            final(self).wf(),
            final(self)@ == (SubDeviceV {
                register_brd: spec_write_bytes(old(self)@.register_brd, reg_addr, data@),
                ..old(self)@
            }),
    {
        Self::write_reg_impl(&mut self.register_brd, reg_addr, data);
    }

    /// Read back bytes of the broadcast-read image.
    pub fn read_reg_brd(&self, reg_addr: u16, length: u16) -> (r: Vec<Option<u8>>)
        requires
            self.wf(),
        ensures
            r@ == spec_read_bytes(self@.register_brd, reg_addr, length),
    {
        Self::read_reg_impl(&self.register_brd, reg_addr, length)
    }

    /// Run one command's refresh, then the shared ESM transition.
    pub fn state_machine_step<T: CommandStepper>(&mut self, packet_num: u64) -> (r: Result<
        (),
        ESMError,
    >)
        requires
            old(self).wf(),
        ensures
            final(self).wf(),
            final(self)@ == spec_change_state(T::spec_refresh(old(self)@)).0,
            r == spec_change_state(T::spec_refresh(old(self)@)).1,
    {
        T::execute(self, packet_num)
    }

    /// Capture the AL status code register when an error is flagged.
    fn load_al_status_code(&mut self)
        requires
            old(self).wf(),
        ensures
            final(self).wf(),
            final(self)@ == (SubDeviceV {
                al_status_code: spec_al_status_code_read(old(self)@),
                ..old(self)@
            }),
    {
        self.al_status_code = Self::read2(&self.register_rd, register_address::AlStatusCode);
    }

    /// The BRD refresh; see [`spec_refresh_brd`].
    fn refresh_brd(&mut self)
        requires
            old(self).wf(),
        ensures
            final(self).wf(),
            final(self)@ == spec_refresh_brd(old(self)@),
    {
        let al_control = match self.register_wr.get(register_address::AlControl) {
            Some(b) => Some(AlControl::new(b)),
            None => None,
        };
        self.al_control = al_control;
        let al_status = match self.register_brd.get(register_address::AlStatus) {
            Some(b) => {
                let st = AlStatus::new(b);
                match st.state {
                    Ok(_) => Some(st),
                    Err(_) => None,
                }
            },
            None => None,
        };
        self.al_status = al_status;
    }

    /// The APRD refresh; see [`spec_refresh_aprd`].
    fn refresh_aprd(&mut self)
        requires
            old(self).wf(),
        ensures
            final(self).wf(),
            final(self)@ == spec_refresh_aprd(old(self)@),
    {
        match self.state {
            ECState::Init => {
                if self.configured_address.is_none() {
                    let wr = Self::read2(
                        &self.register_wr,
                        register_address::ConfiguredStationAddress,
                    );
                    let rd = Self::read2(
                        &self.register_rd,
                        register_address::ConfiguredStationAddress,
                    );
                    match (wr, rd) {
                        (Some(w), Some(r)) => {
                            if w == r {
                                self.configured_address = Some(w);
                            }
                        },
                        _ => {},
                    }
                }
            },
            _ => {},
        }
    }

    /// The FPRD refresh; see [`spec_refresh_fprd`].
    fn refresh_fprd(&mut self)
        requires
            old(self).wf(),
        ensures
            final(self).wf(),
            final(self)@ == spec_refresh_fprd(old(self)@),
    {
        let al_control = match self.register_wr.get(register_address::AlControl) {
            Some(b) => Some(AlControl::new(b)),
            None => None,
        };
        self.al_control = al_control;
        let al_status = match self.register_rd.get(register_address::AlStatus) {
            Some(b) => Some(AlStatus::new(b)),
            None => None,
        };
        self.al_status = al_status;
    }

    /// The shared ESM transition; see [`spec_change_state`].
    fn change_state(&mut self) -> (r: Result<(), ESMError>)
        requires
            old(self).wf(),
        ensures
            final(self).wf(),
            final(self)@ == spec_change_state(old(self)@).0,
            r == spec_change_state(old(self)@).1,
    {
        let al_status = match self.al_status {
            Some(st) => st,
            None => {
                return Ok(());
            },
        };
        let new_state = match al_status.state {
            Ok(st) => st,
            Err(_) => {
                return Ok(());
            },
        };
        let old_state = self.state;
        let had_control = self.al_control.is_some();
        let requested: Option<ECState> = match self.al_control {
            Some(al_control) => match al_control.state {
                Ok(req) => if req != old_state {
                    Some(req)
                } else {
                    None
                },
                Err(_) => None,
            },
            None => None,
        };
        self.state = new_state;
        match requested {
            Some(req) => {
                if new_state.state_value() > req.state_value() {
                    Err(ESMError::InvalidStateTransition { requested: req, current: new_state })
                } else if new_state.state_value() < old_state.state_value() {
                    self.has_esm_error = true;
                    self.load_al_status_code();
                    Err(ESMError::BackwardTransition {
                        from: old_state,
                        to: new_state,
                        has_error: al_status.error,
                    })
                } else if new_state.state_value() < req.state_value() {
                    Err(ESMError::TransitionFailed {
                        requested: req,
                        current: new_state,
                        has_error: al_status.error,
                    })
                } else {
                    Ok(())
                }
            },
            None => {
                if !had_control && new_state != old_state {
                    Err(ESMError::IllegalTransition { to: new_state })
                } else if new_state.state_value() < old_state.state_value() {
                    self.has_esm_error = true;
                    self.load_al_status_code();
                    Err(ESMError::BackwardTransition {
                        from: old_state,
                        to: new_state,
                        has_error: al_status.error,
                    })
                } else if new_state.state_value() > old_state.state_value() {
                    Err(ESMError::InvalidStateTransition {
                        requested: old_state,
                        current: new_state,
                    })
                } else {
                    Ok(())
                }
            },
        }
    }
}

/// A per-command strategy: the refresh it applies before the shared ESM
/// transition logic.
pub trait CommandStepper {
    /// The refresh this command applies to the subdevice.
    spec fn spec_refresh(s: SubDeviceV) -> SubDeviceV;

    /// Apply the refresh, then the shared ESM transition.
    fn execute(subdevice: &mut SubDevice, packet_num: u64) -> (r: Result<(), ESMError>)
        requires
            old(subdevice).wf(),
        ensures
            final(subdevice).wf(),
            final(subdevice)@ == spec_change_state(Self::spec_refresh(old(subdevice)@)).0,
            r == spec_change_state(Self::spec_refresh(old(subdevice)@)).1,
    ;
}

/// Stepper for broadcast reads.
pub struct BrdCommandStepper;

impl CommandStepper for BrdCommandStepper {
    open spec fn spec_refresh(s: SubDeviceV) -> SubDeviceV {
        spec_refresh_brd(s)
    }

    fn execute(subdevice: &mut SubDevice, packet_num: u64) -> (r: Result<(), ESMError>) {
        subdevice.refresh_brd();
        subdevice.change_state()
    }
}

/// Stepper for auto-increment physical reads.
pub struct AprdCommandStepper;

impl CommandStepper for AprdCommandStepper {
    open spec fn spec_refresh(s: SubDeviceV) -> SubDeviceV {
        spec_refresh_aprd(s)
    }

    fn execute(subdevice: &mut SubDevice, packet_num: u64) -> (r: Result<(), ESMError>) {
        subdevice.refresh_aprd();
        subdevice.change_state()
    }
}

/// Stepper for configured-address physical reads.
pub struct FprdCommandStepper;

impl CommandStepper for FprdCommandStepper {
    open spec fn spec_refresh(s: SubDeviceV) -> SubDeviceV {
        spec_refresh_fprd(s)
    }

    fn execute(subdevice: &mut SubDevice, packet_num: u64) -> (r: Result<(), ESMError>) {
        subdevice.refresh_fprd();
        subdevice.change_state()
    }
}

} // verus!

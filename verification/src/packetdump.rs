//! A stand-alone decoder for single EtherCAT datagrams, and the loopback
//! state machine that answers scanned frames by incrementing their working
//! counter and auto-increment address in place.

use vstd::prelude::*;

use crate::wire::{inc16_at, le16, le32, spec_inc16_at, spec_le16, spec_le32};

verus! {

/// The lifecycle states of the loopback responder.
#[derive(Debug, Clone, Copy, PartialEq, Eq, Structural)]
pub enum EtherCATState {
    Init,
    PreOP,
    SafeOP,
    OP,
}

impl Default for EtherCATState {
    /// The responder starts in `Init`.
    fn default() -> (r: EtherCATState)
        ensures
            r == EtherCATState::Init,
    {
        EtherCATState::Init
    }
}

/// The abstract content of a decoded frame header.
pub struct EtherCATPacketV {
    pub length: u16,
    pub type_field: u8,
    pub payload: Seq<u8>,
}

/// The abstract content of one decoded datagram.
pub struct EtherCATDatagramV {
    pub command: u8,
    pub index: u8,
    pub address: u32,
    pub length: u16,
    pub circular: bool,
    pub more: bool,
    pub irq: u16,
    pub payload: Seq<u8>,
    pub wkc: u16,
}

/// Parse of a single datagram out of `data`: `None` when the buffer cannot
/// hold the payload length its own header declares.
pub open spec fn spec_parse_single_datagram(data: Seq<u8>) -> Option<EtherCATDatagramV> {
    if data.len() < 10 {
        None
    } else {
        let info = spec_le16(data[6], data[7]);
        let length = (info & 0x07FF) as int;
        if length + 12 > data.len() {
            None
        } else {
            Some(
                EtherCATDatagramV {
                    command: data[0],
                    index: data[1],
                    address: spec_le32(data[2], data[3], data[4], data[5]),
                    length: (info & 0x07FF) as u16,
                    circular: (info & 0x4000) != 0,
                    more: (info & 0x8000) != 0,
                    irq: spec_le16(data[8], data[9]),
                    payload: data.subrange(10, 10 + length),
                    wkc: spec_le16(data[10 + length], data[11 + length]),
                },
            )
        }
    }
}

/// A read-only view over an EtherCAT frame, split into header and payload.
#[derive(Debug)]
pub struct EtherCATPacket<'a> {
    length: u16,
    type_field: u8,
    payload: &'a [u8],
}

impl<'a> View for EtherCATPacket<'a> {
    type V = EtherCATPacketV;

    closed spec fn view(&self) -> EtherCATPacketV {
        EtherCATPacketV {
            length: self.length,
            type_field: self.type_field,
            payload: self.payload@,
        }
    }
}

impl<'a> EtherCATPacket<'a> {
    /// Split `data` into the EtherCAT frame header and its payload; `None`
    /// when even the header is missing.
    pub fn new(data: &'a [u8]) -> (r: Option<EtherCATPacket<'a>>)
        ensures
            match r {
                Some(f) => data@.len() >= 2 && f@ == (EtherCATPacketV {
                    length: (spec_le16(data@[0], data@[1]) & 0x07FF) as u16,
                    type_field: ((spec_le16(data@[0], data@[1]) & 0xF000) >> 12) as u8,
                    payload: data@.skip(2),
                }),
                None => data@.len() < 2,
            },
    {
        if data.len() < 2 {
            return None;
        }
        let header = le16(data[0], data[1]);
        let length = header & 0x07FF;
        let type_field = ((header & 0xF000) >> 12) as u8;
        let payload = vstd::slice::slice_subrange(data, 2, data.len());
        proof {
            assert(data@.subrange(2, data@.len() as int) =~= data@.skip(2));
        }
        Some(EtherCATPacket { length, type_field, payload })
    }

    /// The declared length of the datagram area.
    pub fn datagram_length(&self) -> (r: u16)
        ensures
            r == self@.length,
    {
        self.length
    }

    /// The protocol type; only `0x01` carries EtherCAT datagrams.
    pub fn protocol_type(&self) -> (r: u8)
        ensures
            r == self@.type_field,
    {
        self.type_field
    }

    /// The raw datagram area.
    pub fn payload(&self) -> (r: &'a [u8])
        ensures
            r@ == self@.payload,
    {
        self.payload
    }
}

/// One datagram decoded from a buffer; the payload borrows it.
#[derive(Debug)]
pub struct EtherCATDatagram<'a> {
    command: u8,
    index: u8,
    address: u32,
    length: u16,
    circular: bool,
    more: bool,
    irq: u16,
    payload: &'a [u8],
    wkc: u16,
}

impl<'a> View for EtherCATDatagram<'a> {
    type V = EtherCATDatagramV;

    closed spec fn view(&self) -> EtherCATDatagramV {
        EtherCATDatagramV {
            command: self.command,
            index: self.index,
            address: self.address,
            length: self.length,
            circular: self.circular,
            more: self.more,
            irq: self.irq,
            payload: self.payload@,
            wkc: self.wkc,
        }
    }
}

impl<'a> EtherCATDatagram<'a> {
    /// Parse one datagram at the head of `data`.
    pub fn new(data: &'a [u8]) -> (r: Option<EtherCATDatagram<'a>>)
        ensures
            match r {
                Some(d) => spec_parse_single_datagram(data@) == Some(d@),
                None => spec_parse_single_datagram(data@) is None,
            },
    {
        if data.len() < 10 {
            return None;
        }
        let command = data[0];
        let index = data[1];
        let address = le32(data[2], data[3], data[4], data[5]);
        let info = le16(data[6], data[7]);
        let length = info & 0x07FF;
        proof {
            assert(info & 0x07FF <= 0x07FF) by (bit_vector);
        }
        if length as usize + 10 + 2 > data.len() {
            return None;
        }
        let circular = (info & 0x4000) != 0;
        let more = (info & 0x8000) != 0;
        let irq = le16(data[8], data[9]);
        let payload = vstd::slice::slice_subrange(data, 10, 10 + length as usize);
        let wkc_offset = 10 + length as usize;
        let wkc = le16(data[wkc_offset], data[wkc_offset + 1]);
        Some(
            EtherCATDatagram {
                command,
                index,
                address,
                length,
                circular,
                more,
                irq,
                payload,
                wkc,
            },
        )
    }

    /// The command byte.
    pub fn command(&self) -> (r: u8)
        ensures
            r == self@.command,
    {
        self.command
    }

    /// The index byte, an echo tag set by the main device.
    pub fn index(&self) -> (r: u8)
        ensures
            r == self@.index,
    {
        self.index
    }

    /// The raw 4-byte address field.
    pub fn address(&self) -> (r: u32)
        ensures
            r == self@.address,
    {
        self.address
    }

    /// The payload length in bytes.
    pub fn length(&self) -> (r: u16)
        ensures
            r == self@.length,
    {
        self.length
    }

    /// The payload bytes; exactly `length` of them.
    pub fn payload(&self) -> (r: &'a [u8])
        ensures
            r@ == self@.payload,
    {
        self.payload
    }

    /// The circulating-frame flag.
    pub fn is_circular(&self) -> (r: bool)
        ensures
            r == self@.circular,
    {
        self.circular
    }

    /// Whether another datagram follows in the frame.
    pub fn has_more(&self) -> (r: bool)
        ensures
            r == self@.more,
    {
        self.more
    }

    /// The event request bits.
    pub fn irq(&self) -> (r: u16)
        ensures
            r == self@.irq,
    {
        self.irq
    }

    /// The working counter as captured.
    pub fn wkc(&self) -> (r: u16)
        ensures
            r == self@.wkc,
    {
        self.wkc
    }

    /// The canonical mnemonic of the command byte.
    pub fn command_str(&self) -> (r: &'static str)
        ensures
            self@.command == crate::ec_command::NOP ==> r@ == "NOP"@,
            self@.command == crate::ec_command::APRD ==> r@ == "APRD"@,
            self@.command == crate::ec_command::APWR ==> r@ == "APWR"@,
            self@.command == crate::ec_command::APRW ==> r@ == "APRW"@,
            self@.command == crate::ec_command::FPRD ==> r@ == "FPRD"@,
            self@.command == crate::ec_command::FPWR ==> r@ == "FPWR"@,
            self@.command == crate::ec_command::FPRW ==> r@ == "FPRW"@,
            self@.command == crate::ec_command::BRD ==> r@ == "BRD"@,
            self@.command == crate::ec_command::BWR ==> r@ == "BWR"@,
            self@.command == crate::ec_command::BRW ==> r@ == "BRW"@,
            self@.command == crate::ec_command::LRD ==> r@ == "LRD"@,
            self@.command == crate::ec_command::LWR ==> r@ == "LWR"@,
            self@.command == crate::ec_command::LRW ==> r@ == "LRW"@,
            self@.command == crate::ec_command::ARMW ==> r@ == "ARMW"@,
            self@.command == crate::ec_command::FRMW ==> r@ == "FRMW"@,
            self@.command > crate::ec_command::FRMW ==> r@ == "UNKNOWN"@,
    {
        match self.command {
            crate::ec_command::NOP => "NOP",
            crate::ec_command::APRD => "APRD",
            crate::ec_command::APWR => "APWR",
            crate::ec_command::APRW => "APRW",
            crate::ec_command::FPRD => "FPRD",
            crate::ec_command::FPWR => "FPWR",
            crate::ec_command::FPRW => "FPRW",
            crate::ec_command::BRD => "BRD",
            crate::ec_command::BWR => "BWR",
            crate::ec_command::BRW => "BRW",
            crate::ec_command::LRD => "LRD",
            crate::ec_command::LWR => "LWR",
            crate::ec_command::LRW => "LRW",
            crate::ec_command::ARMW => "ARMW",
            crate::ec_command::FRMW => "FRMW",
            _ => "UNKNOWN",
        }
    }
}

/// A mutable view over a whole frame buffer, for in-place edits.
pub struct EtherCATPacketView {
    data: Vec<u8>,
}

impl View for EtherCATPacketView {
    type V = Seq<u8>;

    closed spec fn view(&self) -> Seq<u8> {
        self.data@
    }
}

impl EtherCATPacketView {
    /// The buffer holds at least the frame header.
    pub closed spec fn wf(&self) -> bool {
        self.data@.len() >= 2
    }

    /// Take ownership of a frame buffer; `None` when even the 2-byte header
    /// is missing.
    pub fn new(data: Vec<u8>) -> (r: Option<EtherCATPacketView>)
        ensures
            match r {
                Some(v) => data@.len() >= 2 && v@ == data@ && v.wf(),
                None => data@.len() < 2,
            },
    {
        if data.len() < 2 {
            return None;
        }
        Some(EtherCATPacketView { data })
    }

    /// A copy of the datagram area (everything after the frame header).
    pub fn payload(&self) -> (r: Vec<u8>)
        requires
            self.wf(),
        ensures
            r@ == self@.skip(2),
    {
        let mut r: Vec<u8> = Vec::new();
        let n = self.data.len();
        let mut i: usize = 2;
        while i < n
            invariant
                2 <= i <= n,
                n == self.data@.len(),
                n >= 2,
                r@ == self.data@.subrange(2, i as int),
            decreases n - i,
        {
            proof {
                assert(self.data@.subrange(2, i + 1) =~= self.data@.subrange(2, i as int).push(
                    self.data@[i as int],
                ));
            }
            r.push(self.data[i]);
            i += 1;
        }
        proof {
            assert(self.data@.subrange(2, n as int) =~= self.data@.skip(2));
        }
        r
    }

    /// Give the buffer back.
    pub fn into_inner(self) -> (r: Vec<u8>)
        ensures
            r@ == self@,
    {
        self.data
    }
}

/// The payload length a datagram buffer declares in its header.
pub open spec fn spec_dump_data_len(s: Seq<u8>) -> int {
    (spec_le16(s[6], s[7]) & 0x07FF) as int
}

/// A mutable view over one datagram's buffer, for in-place edits of the
/// working counter and the auto-increment address.
pub struct EtherCATDatagramView {
    data: Vec<u8>,
    data_len: usize,
}

impl View for EtherCATDatagramView {
    type V = Seq<u8>;

    closed spec fn view(&self) -> Seq<u8> {
        self.data@
    }
}

impl EtherCATDatagramView {
    /// The cached payload length matches the header and fits the buffer.
    pub closed spec fn wf(&self) -> bool {
        &&& self.data@.len() >= 10
        &&& self.data_len == spec_dump_data_len(self.data@)
        &&& 10 + self.data_len + 2 <= self.data@.len()
    }

    /// Take ownership of a datagram buffer; `None` when it cannot hold the
    /// payload length its own header declares.
    pub fn new(data: Vec<u8>) -> (r: Option<EtherCATDatagramView>)
        ensures
            match r {
                Some(v) => v@ == data@ && v.wf() && data@.len() >= 10 && data@.len() >= 12
                    + spec_dump_data_len(data@),
                None => data@.len() < 10 || data@.len() < 12 + spec_dump_data_len(data@),
            },
    {
        if data.len() < 10 {
            return None;
        }
        let data_len = (le16(data[6], data[7]) & 0x07FF) as usize;
        if data.len() < 10 + data_len + 2 {
            return None;
        }
        Some(EtherCATDatagramView { data, data_len })
    }

    /// A copy of the payload bytes.
    pub fn payload(&self) -> (r: Vec<u8>)
        requires
            self.wf(),
        ensures
            r@ == self@.subrange(10, 10 + spec_dump_data_len(self@)),
    {
        let mut r: Vec<u8> = Vec::new();
        let n = 10 + self.data_len;
        let mut i: usize = 10;
        while i < n
            invariant
                10 <= i <= n,
                self.wf(),
                n == 10 + self.data_len,
                r@ == self.data@.subrange(10, i as int),
            decreases n - i,
        {
            proof {
                assert(self.data@.subrange(10, i + 1) =~= self.data@.subrange(10, i as int).push(
                    self.data@[i as int],
                ));
            }
            r.push(self.data[i]);
            i += 1;
        }
        r
    }

    /// The working counter at the tail of the datagram.
    pub fn wkc(&self) -> (r: u16)
        requires
            self.wf(),
        ensures
            r == spec_le16(
                self@[10 + spec_dump_data_len(self@)],
                self@[11 + spec_dump_data_len(self@)],
            ),
    {
        let wkc_offset = 10 + self.data_len;
        le16(self.data[wkc_offset], self.data[wkc_offset + 1])
    }

    /// The command byte.
    pub fn command(&self) -> (r: u8)
        requires
            self.wf(),
        ensures
            r == self@[0],
    {
        self.data[0]
    }

    /// Increment the working counter in place, as a subdevice servicing the
    /// datagram would.
    pub fn inc_wkc(&mut self)
        requires
            old(self).wf(),
        ensures
            final(self).wf(),
            final(self)@ == spec_inc16_at(old(self)@, 10 + spec_dump_data_len(old(self)@)),
    {
        let wkc_offset = 10 + self.data_len;
        inc16_at(&mut self.data, wkc_offset);
        proof {
            assert(self.data@[6] == old(self).data@[6]);
            assert(self.data@[7] == old(self).data@[7]);
        }
    }

    /// Increment the auto-increment address in place, as a subdevice
    /// passing the datagram would.
    pub fn inc_autoincrement_address(&mut self)
        requires
            old(self).wf(),
        ensures
            final(self).wf(),
            final(self)@ == spec_inc16_at(old(self)@, 2),
    {
        inc16_at(&mut self.data, 2);
        proof {
            assert(self.data@[6] == old(self).data@[6]);
            assert(self.data@[7] == old(self).data@[7]);
        }
    }

    /// Give the buffer back.
    pub fn into_inner(self) -> (r: Vec<u8>)
        ensures
            r@ == self@,
    {
        self.data
    }
}

/// What one loopback answer does to a frame buffer in `Init` state: the
/// working counter and the auto-increment address of its first datagram,
/// both incremented in place (the datagram starts 2 bytes in, so its
/// address field sits at offset 4 and its counter 12 bytes past the
/// declared payload length).
pub open spec fn spec_loopback_answer(s: Seq<u8>) -> Seq<u8> {
    spec_inc16_at(spec_inc16_at(s, 12 + spec_dump_data_len(s.skip(2))), 4)
}

/// A minimal responder that answers scanned frames like a subdevice would.
pub struct EtherCATStateMachine {
    state: EtherCATState,
}

impl View for EtherCATStateMachine {
    type V = EtherCATState;

    closed spec fn view(&self) -> EtherCATState {
        self.state
    }
}

impl EtherCATStateMachine {
    /// A fresh responder in `Init`.
    pub fn new() -> (r: EtherCATStateMachine)
        ensures
            r@ == EtherCATState::Init,
    {
        EtherCATStateMachine { state: EtherCATState::Init }
    }

    /// Answer one frame: in `Init`, increment the first datagram's working
    /// counter and auto-increment address in place; the other states leave
    /// the frame untouched.
    pub fn next(&mut self, datagram: &mut EtherCATPacketView)
        requires
            old(datagram).wf(),
            old(datagram)@.len() >= 14 + spec_dump_data_len(old(datagram)@.skip(2)),
        ensures
            final(self)@ == old(self)@,
            old(self)@ == EtherCATState::Init ==> final(datagram)@ == spec_loopback_answer(
                old(datagram)@,
            ),
            old(self)@ != EtherCATState::Init ==> final(datagram)@ == old(datagram)@,
            final(datagram).wf(),
    {
        match self.state {
            EtherCATState::Init => {
                self.handle_ethercat_datagram_init(datagram);
            },
            EtherCATState::PreOP => {},
            EtherCATState::SafeOP => {},
            EtherCATState::OP => {},
        }
    }

    /// The `Init`-state answer: bump the working counter, then the
    /// auto-increment address, of the frame's first datagram.
    fn handle_ethercat_datagram_init(&self, datagram: &mut EtherCATPacketView)
        requires
            old(datagram).wf(),
            old(datagram)@.len() >= 14 + spec_dump_data_len(old(datagram)@.skip(2)),
        ensures
            final(datagram)@ == spec_loopback_answer(old(datagram)@),
            final(datagram).wf(),
    {
        let data_len = (le16(datagram.data[8], datagram.data[9]) & 0x07FF) as usize;
        proof {
            assert(old(datagram)@.skip(2)[6] == old(datagram)@[8]);
            assert(old(datagram)@.skip(2)[7] == old(datagram)@[9]);
        }
        inc16_at(&mut datagram.data, 12 + data_len);
        proof {
            assert(datagram.data@[8] == old(datagram)@[8]);
            assert(datagram.data@[9] == old(datagram)@[9]);
        }
        inc16_at(&mut datagram.data, 4);
    }
}

} // verus!

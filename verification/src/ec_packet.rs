//! Zero-copy decoder for EtherCAT frames and their chained datagrams.
//!
//! A frame starts with a 2-byte header (low 11 bits: total length of the
//! datagram area; top 4 bits: protocol type) followed by a chain of
//! datagrams. Each datagram is a 10-byte header, `length` payload bytes and
//! a trailing 2-byte working counter, so it occupies `10 + length + 2`
//! bytes on the wire.

use vstd::prelude::*;

use crate::wire::{le16, le32, spec_le16, spec_le32};

verus! {

/// Decoder failure: a malformed frame or datagram length field.
#[derive(Debug, Clone, Copy, PartialEq, Eq, Structural)]
pub enum ECPacketError {
    /// The chain does not add up to the declared frame length, or the frame
    /// holds no datagram at all.
    InvalidHeader,
    /// A datagram would run past the end of the frame or of the buffer.
    InvalidDatalength,
}

/// A datagram command byte, with its mnemonic.
#[derive(Debug, Clone, Copy, PartialEq, Eq, Structural)]
pub struct ECCommandType(pub u8);

impl ECCommandType {
    /// The canonical mnemonic of this command.
    pub fn as_str(&self) -> (r: &'static str)
        ensures
            self.0 == crate::ec_command::NOP ==> r@ == "NOP"@,
            self.0 == crate::ec_command::APRD ==> r@ == "APRD"@,
            self.0 == crate::ec_command::APWR ==> r@ == "APWR"@,
            self.0 == crate::ec_command::APRW ==> r@ == "APRW"@,
            self.0 == crate::ec_command::FPRD ==> r@ == "FPRD"@,
            self.0 == crate::ec_command::FPWR ==> r@ == "FPWR"@,
            self.0 == crate::ec_command::FPRW ==> r@ == "FPRW"@,
            self.0 == crate::ec_command::BRD ==> r@ == "BRD"@,
            self.0 == crate::ec_command::BWR ==> r@ == "BWR"@,
            self.0 == crate::ec_command::BRW ==> r@ == "BRW"@,
            self.0 == crate::ec_command::LRD ==> r@ == "LRD"@,
            self.0 == crate::ec_command::LWR ==> r@ == "LWR"@,
            self.0 == crate::ec_command::LRW ==> r@ == "LRW"@,
            self.0 == crate::ec_command::ARMW ==> r@ == "ARMW"@,
            self.0 == crate::ec_command::FRMW ==> r@ == "FRMW"@,
            self.0 > crate::ec_command::FRMW ==> r@ == "UNKNOWN"@,
    {
        match self.0 {
            crate::ec_command::NOP => "NOP",
            crate::ec_command::APRD => "APRD",
            crate::ec_command::APWR => "APWR",
            crate::ec_command::APRW => "APRW",
            crate::ec_command::FPRD => "FPRD",
            crate::ec_command::FPWR => "FPWR",
            crate::ec_command::FPRW => "FPRW",
            crate::ec_command::BRD => "BRD",
            crate::ec_command::BWR => "BWR",
            crate::ec_command::BRW => "BRW",
            crate::ec_command::LRD => "LRD",
            crate::ec_command::LWR => "LWR",
            crate::ec_command::LRW => "LRW",
            crate::ec_command::ARMW => "ARMW",
            crate::ec_command::FRMW => "FRMW",
            _ => "UNKNOWN",
        }
    }
}

/// The EtherCAT addressing modes a datagram's 4-byte address field can
/// encode; which one applies is derived from the command.
pub enum ECAddress {
    /// Auto-increment addressing: the low half is a negative bus position
    /// that every passed subdevice increments; the high half is a register
    /// offset.
    Position { adp: u16, ado: u16 },
    /// Configured-station addressing: the low half is the station address,
    /// the high half a register offset.
    Node { address: u16, offset: u16 },
    /// Logical addressing: a flat 32-bit offset into the mapped space.
    Logical(u32),
}

/// The abstract content of a decoded frame header.
pub struct ECFrameV {
    pub total_length: u16,
    pub type_field: u8,
    pub payload: Seq<u8>,
}

/// The abstract content of one decoded datagram.
pub struct ECDatagramV {
    pub command: u8,
    pub index: u8,
    pub address: u32,
    pub length: u16,
    pub circular: bool,
    pub more: bool,
    pub irq: u16,
    pub payload: Seq<u8>,
    pub wkc: u16,
}

/// The bytes a datagram occupies on the wire: header, payload, counter.
pub open spec fn spec_wire_size(d: ECDatagramV) -> int {
    12 + d.length
}

/// Parse of one datagram at the head of `data`, of which `total_length`
/// bytes still belong to the frame: `Ok(None)` when the frame area is
/// exhausted, `Err` when the declared length does not fit.
pub open spec fn spec_parse_datagram(data: Seq<u8>, total_length: u16) -> Result<
    Option<ECDatagramV>,
    ECPacketError,
> {
    if total_length == 0 {
        Ok(None)
    } else if data.len() < 10 {
        Err(ECPacketError::InvalidDatalength)
    } else {
        let info = spec_le16(data[6], data[7]);
        let length = (info & 0x07FF) as int;
        if length + 12 > data.len() || length + 12 > total_length {
            Err(ECPacketError::InvalidDatalength)
        } else {
            Ok(
                Some(
                    ECDatagramV {
                        command: data[0],
                        index: data[1],
                        address: spec_le32(data[2], data[3], data[4], data[5]),
                        length: (info & 0x07FF) as u16,
                        circular: (info & 0x4000) != 0,
                        more: (info & 0x8000) != 0,
                        irq: spec_le16(data[8], data[9]),
                        payload: data.subrange(10, 10 + length),
                        wkc: spec_le16(data[10 + length], data[11 + length]),
                    },
                ),
            )
        }
    }
}

/// Parse of the datagram chain: starting `total_length - remaining` bytes
/// into the frame area, carve datagrams until `remaining` reaches zero.
pub open spec fn spec_parse_chain(payload: Seq<u8>, total_length: u16, remaining: u16) -> Result<
    Seq<ECDatagramV>,
    ECPacketError,
>
    decreases remaining,
{
    if remaining == 0 {
        Ok(Seq::empty())
    } else {
        let sub = payload.skip(total_length - remaining);
        match spec_parse_datagram(sub, remaining) {
            Err(e) => Err(e),
            Ok(None) => Err(ECPacketError::InvalidHeader),
            Ok(Some(d)) => match spec_parse_chain(
                payload,
                total_length,
                (remaining - spec_wire_size(d)) as u16,
            ) {
                Err(e) => Err(e),
                Ok(rest) => Ok(seq![d] + rest),
            },
        }
    }
}

/// The full parse of a frame's datagram area: the chain, which must be
/// non-empty and consume exactly the declared total length.
pub open spec fn spec_parse_frame_datagrams(f: ECFrameV) -> Result<
    Seq<ECDatagramV>,
    ECPacketError,
> {
    if f.total_length == 0 {
        Err(ECPacketError::InvalidHeader)
    } else {
        spec_parse_chain(f.payload, f.total_length, f.total_length)
    }
}

/// The summed on-wire size of a sequence of datagrams.
pub open spec fn spec_total_wire_size(s: Seq<ECDatagramV>) -> int
    decreases s.len(),
{
    if s.len() == 0 {
        0
    } else {
        spec_wire_size(s.first()) + spec_total_wire_size(s.drop_first())
    }
}

/// Each datagram carries exactly the payload its length field declares,
/// and that length fits in 11 bits.
pub open spec fn spec_datagrams_wf(s: Seq<ECDatagramV>) -> bool {
    forall|i: int|
        0 <= i < s.len() ==> (#[trigger] s[i]).payload.len() == s[i].length && s[i].length <= 0x7FF
}

/// Every successfully parsed chain satisfies [`spec_datagrams_wf`].
pub proof fn lemma_chain_datagram_invariants(payload: Seq<u8>, total_length: u16, remaining: u16)
    requires
        spec_parse_chain(payload, total_length, remaining) is Ok,
    ensures
        ({
            let res = match spec_parse_chain(payload, total_length, remaining) {
                Ok(s) => s,
                Err(_) => arbitrary(),
            };
            spec_datagrams_wf(res)
        }),
    decreases remaining,
{
    if remaining > 0 {
        let sub = payload.skip(total_length - remaining);
        match spec_parse_datagram(sub, remaining) {
            Ok(Some(d)) => {
                let b6 = sub[6];
                let b7 = sub[7];
                assert((((b6 as u16) | ((b7 as u16) << 8)) & 0x07FF) <= 0x07FF) by (bit_vector);
                lemma_chain_datagram_invariants(
                    payload,
                    total_length,
                    (remaining - spec_wire_size(d)) as u16,
                );
                let res = match spec_parse_chain(payload, total_length, remaining) {
                    Ok(s) => s,
                    Err(_) => arbitrary(),
                };
                let rest = match spec_parse_chain(
                    payload,
                    total_length,
                    (remaining - spec_wire_size(d)) as u16,
                ) {
                    Ok(s) => s,
                    Err(_) => arbitrary(),
                };
                assert(spec_datagrams_wf(rest));
                assert(res == seq![d] + rest);
                assert(d.payload.len() == d.length);
                assert forall|i: int| 0 <= i < res.len() implies (#[trigger] res[i]).payload.len()
                    == res[i].length && res[i].length <= 0x7FF by {
                    if i == 0 {
                        assert(res[0] == d);
                    } else {
                        assert(res[i] == rest[i - 1]);
                    }
                }
            },
            _ => {},
        }
    }
}

/// The info word a datagram's length and flags encode; the reserved bits
/// (11 to 13) are not retained by the decoder and re-emit as zero.
pub open spec fn spec_info_word(d: ECDatagramV) -> u16 {
    d.length | (if d.circular {
        0x4000u16
    } else {
        0u16
    }) | (if d.more {
        0x8000u16
    } else {
        0u16
    })
}

/// One decoded datagram re-emitted: 10-byte header, payload, counter.
pub open spec fn spec_encode_datagram(d: ECDatagramV) -> Seq<u8> {
    seq![
        d.command,
        d.index,
        crate::wire::spec_u32_b0(d.address),
        crate::wire::spec_u32_b1(d.address),
        crate::wire::spec_u32_b2(d.address),
        crate::wire::spec_u32_b3(d.address),
        crate::wire::spec_lo8(spec_info_word(d)),
        crate::wire::spec_hi8(spec_info_word(d)),
        crate::wire::spec_lo8(d.irq),
        crate::wire::spec_hi8(d.irq),
    ] + d.payload + seq![crate::wire::spec_lo8(d.wkc), crate::wire::spec_hi8(d.wkc)]
}

/// A chain of decoded datagrams re-emitted back to back.
pub open spec fn spec_encode_chain(s: Seq<ECDatagramV>) -> Seq<u8>
    decreases s.len(),
{
    if s.len() == 0 {
        Seq::empty()
    } else {
        spec_encode_datagram(s.first()) + spec_encode_chain(s.drop_first())
    }
}

/// The reserved info bits are clear in every datagram header of the chain.
pub open spec fn spec_reserved_clear_chain(payload: Seq<u8>, total_length: u16, remaining: u16) -> bool
    decreases remaining,
{
    if remaining == 0 {
        true
    } else {
        let sub = payload.skip(total_length - remaining);
        match spec_parse_datagram(sub, remaining) {
            Ok(Some(d)) => (spec_le16(sub[6], sub[7]) & 0x3800) == 0 && spec_reserved_clear_chain(
                payload,
                total_length,
                (remaining - spec_wire_size(d)) as u16,
            ),
            _ => true,
        }
    }
}

/// The datagrams of a successfully parsed frame.
pub open spec fn spec_frame_chain(f: ECFrameV) -> Seq<ECDatagramV> {
    match spec_parse_frame_datagrams(f) {
        Ok(s) => s,
        Err(_) => arbitrary(),
    }
}

/// Re-emitting one successfully parsed datagram reproduces its wire bytes,
/// provided the reserved info bits were clear.
proof fn lemma_encode_datagram_bytes(data: Seq<u8>, total_length: u16, d: ECDatagramV)
    requires
        spec_parse_datagram(data, total_length) == Ok::<Option<ECDatagramV>, ECPacketError>(
            Some(d),
        ),
        (spec_le16(data[6], data[7]) & 0x3800) == 0,
    ensures
        spec_encode_datagram(d) == data.take(spec_wire_size(d)),
{
    let info = spec_le16(data[6], data[7]);
    let len = (info & 0x07FF) as int;
    assert(info & 0x07FF <= 0x07FF) by (bit_vector);
    crate::wire::lemma_le32_bytes(data[2], data[3], data[4], data[5]);
    crate::wire::lemma_le16_bytes(data[8], data[9]);
    crate::wire::lemma_le16_bytes(data[10 + len], data[11 + len]);
    crate::wire::lemma_le16_bytes(data[6], data[7]);
    assert(spec_info_word(d) == info) by {
        let w = info;
        assert(w & 0x3800 == 0 ==> w == (w & 0x07FF) | (if (w & 0x4000) != 0 {
            0x4000u16
        } else {
            0u16
        }) | (if (w & 0x8000) != 0 {
            0x8000u16
        } else {
            0u16
        })) by (bit_vector);
    }
    assert forall|j: int| 0 <= j < spec_wire_size(d) implies spec_encode_datagram(d)[j] == data[j] by {
        if 10 <= j < 10 + len {
            assert(d.payload[j - 10] == data[j]);
        }
    }
    assert(spec_encode_datagram(d).len() == spec_wire_size(d));
    assert(spec_encode_datagram(d) =~= data.take(spec_wire_size(d)));
}

/// Re-emitting a successfully parsed chain reproduces the frame area from
/// its starting offset on, byte for byte.
proof fn lemma_encode_chain_rec(payload: Seq<u8>, total_length: u16, remaining: u16)
    requires
        remaining <= total_length,
        total_length - remaining <= payload.len(),
        spec_parse_chain(payload, total_length, remaining) is Ok,
        spec_reserved_clear_chain(payload, total_length, remaining),
    ensures
        ({
            let res = match spec_parse_chain(payload, total_length, remaining) {
                Ok(s) => s,
                Err(_) => arbitrary(),
            };
            &&& spec_total_wire_size(res) == remaining
            &&& total_length <= payload.len()
            &&& spec_encode_chain(res) == payload.subrange(
                total_length - remaining,
                total_length as int,
            )
        }),
    decreases remaining,
{
    let res = match spec_parse_chain(payload, total_length, remaining) {
        Ok(s) => s,
        Err(_) => arbitrary(),
    };
    let offset = total_length - remaining;
    if remaining == 0 {
        assert(spec_total_wire_size(res) == 0);
        assert(spec_encode_chain(res) =~= payload.subrange(offset, total_length as int));
    } else {
        let sub = payload.skip(offset);
        let d = match spec_parse_datagram(sub, remaining) {
            Ok(Some(d)) => d,
            _ => arbitrary(),
        };
        let ws = spec_wire_size(d);
        let rest = match spec_parse_chain(payload, total_length, (remaining - ws) as u16) {
            Ok(s) => s,
            Err(_) => arbitrary(),
        };
        lemma_encode_datagram_bytes(sub, remaining, d);
        lemma_encode_chain_rec(payload, total_length, (remaining - ws) as u16);
        assert(res == seq![d] + rest);
        assert(res.first() == d);
        assert(res.drop_first() =~= rest);
        assert(spec_total_wire_size(res) == ws + spec_total_wire_size(rest));
        assert(spec_encode_chain(res) =~= spec_encode_datagram(d) + spec_encode_chain(rest));
        assert(spec_encode_datagram(d) == sub.take(ws));
        assert(sub.take(ws) =~= payload.subrange(offset, offset + ws));
        assert(spec_encode_chain(rest) == payload.subrange(offset + ws, total_length as int));
        assert(spec_encode_chain(res) =~= payload.subrange(offset, total_length as int));
    }
}

/// Decoder round trip: re-emitting every datagram of a successfully parsed
/// frame — header, payload and working counter in on-wire order —
/// reproduces the frame's datagram area byte for byte. The decoder does
/// not retain the reserved info bits (11 to 13), so the law asks for them
/// to be clear; a frame with one of them set re-emits with it dropped.
pub proof fn lemma_decoder_round_trip(f: ECFrameV)
    requires
        spec_parse_frame_datagrams(f) is Ok,
        spec_reserved_clear_chain(f.payload, f.total_length, f.total_length),
    ensures
        f.total_length <= f.payload.len(),
        spec_encode_chain(spec_frame_chain(f)) == f.payload.take(f.total_length as int),
{
    assert(f.total_length > 0);
    lemma_encode_chain_rec(f.payload, f.total_length, f.total_length);
    assert(f.payload.subrange(0, f.total_length as int) =~= f.payload.take(f.total_length as int));
}

/// A read-only view over the payload of an Ethernet frame of EtherType
/// `0x88A4`, split into its EtherCAT header fields.
#[derive(Debug)]
pub struct ECFrame<'a> {
    total_length: u16,
    type_field: u8,
    payload: &'a [u8],
}

impl<'a> View for ECFrame<'a> {
    type V = ECFrameV;

    closed spec fn view(&self) -> ECFrameV {
        ECFrameV {
            total_length: self.total_length,
            type_field: self.type_field,
            payload: self.payload@,
        }
    }
}

/// One datagram carved out of a frame; the payload borrows the capture
/// buffer.
#[derive(Debug)]
pub struct ECDatagram<'a> {
    command: ECCommandType,
    index: u8,
    address: u32,
    length: u16,
    circular: bool,
    more: bool,
    irq: u16,
    payload: &'a [u8],
    wkc: u16,
}

impl<'a> View for ECDatagram<'a> {
    type V = ECDatagramV;

    closed spec fn view(&self) -> ECDatagramV {
        ECDatagramV {
            command: self.command.0,
            index: self.index,
            address: self.address,
            length: self.length,
            circular: self.circular,
            more: self.more,
            irq: self.irq,
            payload: self.payload@,
            wkc: self.wkc,
        }
    }
}

/// The chain of datagrams of one frame, in on-wire order.
#[derive(Debug)]
pub struct ECDatagrams<'a> {
    inner: Vec<ECDatagram<'a>>,
}

impl<'a> View for ECDatagrams<'a> {
    type V = Seq<ECDatagramV>;

    closed spec fn view(&self) -> Seq<ECDatagramV> {
        self.inner@.map_values(|d: ECDatagram<'a>| d@)
    }
}

impl<'a> ECDatagrams<'a> {
    /// How many datagrams the frame carried.
    pub fn len(&self) -> (n: usize)
        ensures
            n == self@.len(),
    {
        self.inner.len()
    }

    /// The datagram at position `i` of the chain.
    pub fn get(&self, i: usize) -> (d: &ECDatagram<'a>)
        requires
            i < self@.len(),
        ensures
            d@ == self@[i as int],
    {
        &self.inner[i]
    }
}

impl<'a> ECFrame<'a> {
    /// Split `data` into the EtherCAT frame header and its payload; `None`
    /// when even the header is missing.
    pub fn new(data: &'a [u8]) -> (r: Option<ECFrame<'a>>)
        ensures
            match r {
                Some(f) => data@.len() >= 2 && f@ == (ECFrameV {
                    total_length: (spec_le16(data@[0], data@[1]) & 0x07FF) as u16,
                    type_field: ((spec_le16(data@[0], data@[1]) & 0xF000) >> 12) as u8,
                    payload: data@.skip(2),
                }),
                None => data@.len() < 2,
            },
    {
        if data.len() < 2 {
            return None;
        }
        let header = le16(data[0], data[1]);
        let total_length = header & 0x07FF;
        let type_field = ((header & 0xF000) >> 12) as u8;
        let payload = vstd::slice::slice_subrange(data, 2, data.len());
        proof {
            assert(data@.subrange(2, data@.len() as int) =~= data@.skip(2));
        }
        Some(ECFrame { total_length, type_field, payload })
    }

    /// The declared length of the datagram area.
    pub fn datagram_length(&self) -> (r: u16)
        ensures
            r == self@.total_length,
    {
        self.total_length
    }

    /// The protocol type; only `0x01` carries EtherCAT datagrams.
    pub fn protocol_type(&self) -> (r: u8)
        ensures
            r == self@.type_field,
    {
        self.type_field
    }

    /// The raw datagram area.
    pub fn payload(&self) -> (r: &'a [u8])
        ensures
            r@ == self@.payload,
    {
        self.payload
    }

    /// Carve the chained datagrams out of the frame, checking that they
    /// consume exactly the declared total length.
    pub fn parse_datagram(&self) -> (r: Result<ECDatagrams<'a>, ECPacketError>)
        ensures
            match r {
                Ok(ds) => spec_parse_frame_datagrams(self@) == Ok::<Seq<ECDatagramV>, ECPacketError>(
                    ds@,
                ) && spec_total_wire_size(ds@) == self@.total_length && ds@.len() > 0
                    && spec_datagrams_wf(ds@),
                Err(e) => spec_parse_frame_datagrams(self@) == Err::<Seq<ECDatagramV>, ECPacketError>(
                    e,
                ),
            },
    {
        let mut datagrams: Vec<ECDatagram<'a>> = Vec::new();
        let mut remaining: u16 = self.total_length;
        let ghost total = self.total_length;
        let ghost payload_view = self.payload@;
        while remaining > 0
            invariant
                remaining <= total,
                total == self@.total_length,
                payload_view == self@.payload,
                total - remaining <= payload_view.len(),
                spec_parse_chain(payload_view, total, total) == (match spec_parse_chain(
                    payload_view,
                    total,
                    remaining,
                ) {
                    Ok(rest) => Ok::<Seq<ECDatagramV>, ECPacketError>(
                        datagrams@.map_values(|d: ECDatagram<'a>| d@) + rest,
                    ),
                    Err(e) => Err::<Seq<ECDatagramV>, ECPacketError>(e),
                }),
                spec_total_wire_size(datagrams@.map_values(|d: ECDatagram<'a>| d@)) == total
                    - remaining,
            decreases remaining,
        {
            let offset = (self.total_length - remaining) as usize;
            let sub = vstd::slice::slice_subrange(self.payload, offset, self.payload.len());
            proof {
                assert(sub@ =~= payload_view.skip(total - remaining));
            }
            match ECDatagram::new(sub, remaining) {
                Err(e) => {
                    return Err(e);
                },
                Ok(None) => {
                    // `ECDatagram::new` yields `None` only when the frame
                    // area is exhausted, and the loop has not consumed it.
                    proof {
                        assert(false);
                    }
                },
                Ok(Some(datagram)) => {
                    let ghost prev = datagrams@.map_values(|d: ECDatagram<'a>| d@);
                    let consumed = 10 + datagram.length() + 2;
                    proof {
                        let ds2 = datagrams@.push(datagram).map_values(|d: ECDatagram<'a>| d@);
                        assert(ds2 =~= prev.push(datagram@));
                        lemma_total_wire_size_push(prev, datagram@);
                        assert(prev.push(datagram@) + (match spec_parse_chain(
                            payload_view,
                            total,
                            (remaining - spec_wire_size(datagram@)) as u16,
                        ) {
                            Ok(rest) => rest,
                            Err(_) => Seq::empty(),
                        }) =~= prev + (seq![datagram@] + (match spec_parse_chain(
                            payload_view,
                            total,
                            (remaining - spec_wire_size(datagram@)) as u16,
                        ) {
                            Ok(rest) => rest,
                            Err(_) => Seq::empty(),
                        })));
                    }
                    remaining = remaining - consumed;
                    datagrams.push(datagram);
                },
            }
        }
        if datagrams.is_empty() {
            return Err(ECPacketError::InvalidHeader);
        }
        proof {
            lemma_chain_datagram_invariants(payload_view, total, total);
        }
        Ok(ECDatagrams { inner: datagrams })
    }
}

proof fn lemma_total_wire_size_push(s: Seq<ECDatagramV>, d: ECDatagramV)
    ensures
        spec_total_wire_size(s.push(d)) == spec_total_wire_size(s) + spec_wire_size(d),
    decreases s.len(),
{
    if s.len() == 0 {
        assert(s.push(d).drop_first() =~= Seq::<ECDatagramV>::empty());
        assert(s.push(d).first() == d);
        assert(spec_total_wire_size(s.push(d)) == spec_wire_size(d) + spec_total_wire_size(
            Seq::<ECDatagramV>::empty(),
        ));
    } else {
        assert(s.push(d).drop_first() =~= s.drop_first().push(d));
        assert(s.push(d).first() == s.first());
        lemma_total_wire_size_push(s.drop_first(), d);
    }
}

impl<'a> ECDatagram<'a> {
    /// Parse one datagram at the head of `data`, of which `total_length`
    /// bytes still belong to the frame.
    pub fn new(data: &'a [u8], total_length: u16) -> (r: Result<
        Option<ECDatagram<'a>>,
        ECPacketError,
    >)
        ensures
            match r {
                Ok(None) => spec_parse_datagram(data@, total_length) == Ok::<
                    Option<ECDatagramV>,
                    ECPacketError,
                >(None),
                Ok(Some(d)) => spec_parse_datagram(data@, total_length) == Ok::<
                    Option<ECDatagramV>,
                    ECPacketError,
                >(Some(d@)),
                Err(e) => spec_parse_datagram(data@, total_length) == Err::<
                    Option<ECDatagramV>,
                    ECPacketError,
                >(e),
            },
    {
        if total_length == 0 {
            return Ok(None);
        }
        if data.len() < 10 {
            return Err(ECPacketError::InvalidDatalength);
        }
        let command = data[0];
        let index = data[1];
        let address = le32(data[2], data[3], data[4], data[5]);
        let info = le16(data[6], data[7]);
        let length = info & 0x07FF;
        proof {
            assert(info & 0x07FF <= 0x07FF) by (bit_vector);
        }
        if length as usize + 10 + 2 > data.len() || length + 10 + 2 > total_length {
            return Err(ECPacketError::InvalidDatalength);
        }
        let circular = (info & 0x4000) != 0;
        let more = (info & 0x8000) != 0;
        let irq = le16(data[8], data[9]);
        let payload = vstd::slice::slice_subrange(data, 10, 10 + length as usize);
        let wkc_offset = 10 + length as usize;
        let wkc = le16(data[wkc_offset], data[wkc_offset + 1]);
        Ok(
            Some(
                ECDatagram {
                    command: ECCommandType(command),
                    index,
                    address,
                    length,
                    circular,
                    more,
                    irq,
                    payload,
                    wkc,
                },
            ),
        )
    }

    /// The command byte.
    pub fn command(&self) -> (r: ECCommandType)
        ensures
            r.0 == self@.command,
    {
        self.command
    }

    /// The index byte, an echo tag set by the main device.
    pub fn index(&self) -> (r: u8)
        ensures
            r == self@.index,
    {
        self.index
    }

    /// The raw 4-byte address field.
    pub fn address(&self) -> (r: u32)
        ensures
            r == self@.address,
    {
        self.address
    }

    /// The payload length in bytes.
    pub fn length(&self) -> (r: u16)
        ensures
            r == self@.length,
    {
        self.length
    }

    /// The payload bytes; exactly `length` of them.
    pub fn payload(&self) -> (r: &'a [u8])
        ensures
            r@ == self@.payload,
    {
        self.payload
    }

    /// The circulating-frame flag.
    pub fn is_circular(&self) -> (r: bool)
        ensures
            r == self@.circular,
    {
        self.circular
    }

    /// Whether another datagram follows in the frame.
    pub fn has_more(&self) -> (r: bool)
        ensures
            r == self@.more,
    {
        self.more
    }

    /// The event request bits.
    pub fn irq(&self) -> (r: u16)
        ensures
            r == self@.irq,
    {
        self.irq
    }

    /// The working counter as captured.
    pub fn wkc(&self) -> (r: u16)
        ensures
            r == self@.wkc,
    {
        self.wkc
    }
}

/// A mutable view over a whole frame buffer, for in-place edits.
pub struct ECFrameView {
    data: Vec<u8>,
}

impl View for ECFrameView {
    type V = Seq<u8>;

    closed spec fn view(&self) -> Seq<u8> {
        self.data@
    }
}

impl ECFrameView {
    /// The buffer holds at least the frame header.
    pub closed spec fn wf(&self) -> bool {
        self.data@.len() >= 2
    }

    /// Take ownership of a frame buffer; `None` when even the 2-byte header
    /// is missing.
    pub fn new(data: Vec<u8>) -> (r: Option<ECFrameView>)
        ensures
            match r {
                Some(v) => data@.len() >= 2 && v@ == data@ && v.wf(),
                None => data@.len() < 2,
            },
    {
        if data.len() < 2 {
            return None;
        }
        Some(ECFrameView { data })
    }

    /// A copy of the datagram area (everything after the frame header).
    pub fn payload(&self) -> (r: Vec<u8>)
        requires
            self.wf(),
        ensures
            r@ == self@.skip(2),
    {
        let mut r: Vec<u8> = Vec::new();
        let n = self.data.len();
        let mut i: usize = 2;
        while i < n
            invariant
                2 <= i <= n,
                n == self.data@.len(),
                n >= 2,
                r@ == self.data@.subrange(2, i as int),
            decreases n - i,
        {
            proof {
                assert(self.data@.subrange(2, i + 1) =~= self.data@.subrange(2, i as int).push(
                    self.data@[i as int],
                ));
            }
            r.push(self.data[i]);
            i += 1;
        }
        proof {
            assert(self.data@.subrange(2, n as int) =~= self.data@.skip(2));
        }
        r
    }

    /// Give the buffer back.
    pub fn into_inner(self) -> (r: Vec<u8>)
        ensures
            r@ == self@,
    {
        self.data
    }
}

/// A mutable view over one datagram's buffer, for in-place edits of the
/// working counter and the auto-increment address.
pub struct ECDatagramView {
    data: Vec<u8>,
    data_len: usize,
}

impl View for ECDatagramView {
    type V = Seq<u8>;

    closed spec fn view(&self) -> Seq<u8> {
        self.data@
    }
}

/// The payload length a datagram buffer declares in its header.
pub open spec fn spec_view_data_len(s: Seq<u8>) -> int {
    (spec_le16(s[6], s[7]) & 0x07FF) as int
}

impl ECDatagramView {
    /// The cached payload length matches the header and fits the buffer.
    pub closed spec fn wf(&self) -> bool {
        &&& self.data@.len() >= 10
        &&& self.data_len == spec_view_data_len(self.data@)
        &&& 10 + self.data_len + 2 <= self.data@.len()
    }

    /// Take ownership of a datagram buffer; `None` when it cannot hold the
    /// payload length its own header declares.
    pub fn new(data: Vec<u8>) -> (r: Option<ECDatagramView>)
        ensures
            match r {
                Some(v) => v@ == data@ && v.wf() && data@.len() >= 10 && data@.len() >= 12
                    + spec_view_data_len(data@),
                None => data@.len() < 10 || data@.len() < 12 + spec_view_data_len(data@),
            },
    {
        if data.len() < 10 {
            return None;
        }
        let data_len = (le16(data[6], data[7]) & 0x07FF) as usize;
        if data.len() < 10 + data_len + 2 {
            return None;
        }
        Some(ECDatagramView { data, data_len })
    }

    /// A copy of the payload bytes.
    pub fn payload(&self) -> (r: Vec<u8>)
        requires
            self.wf(),
        ensures
            r@ == self@.subrange(10, 10 + spec_view_data_len(self@)),
    {
        let mut r: Vec<u8> = Vec::new();
        let n = 10 + self.data_len;
        let mut i: usize = 10;
        while i < n
            invariant
                10 <= i <= n,
                self.wf(),
                n == 10 + self.data_len,
                r@ == self.data@.subrange(10, i as int),
            decreases n - i,
        {
            proof {
                assert(self.data@.subrange(10, i + 1) =~= self.data@.subrange(10, i as int).push(
                    self.data@[i as int],
                ));
            }
            r.push(self.data[i]);
            i += 1;
        }
        r
    }

    /// The working counter at the tail of the datagram.
    pub fn wkc(&self) -> (r: u16)
        requires
            self.wf(),
        ensures
            r == spec_le16(
                self@[10 + spec_view_data_len(self@)],
                self@[11 + spec_view_data_len(self@)],
            ),
    {
        let wkc_offset = 10 + self.data_len;
        le16(self.data[wkc_offset], self.data[wkc_offset + 1])
    }

    /// The command byte.
    pub fn command(&self) -> (r: u8)
        requires
            self.wf(),
        ensures
            r == self@[0],
    {
        self.data[0]
    }

    /// Increment the working counter in place, as a subdevice servicing the
    /// datagram would.
    pub fn inc_wkc(&mut self)
        requires
            old(self).wf(),
        ensures
            final(self).wf(),
            final(self)@ == crate::wire::spec_inc16_at(
                old(self)@,
                10 + spec_view_data_len(old(self)@),
            ),
    {
        let wkc_offset = 10 + self.data_len;
        crate::wire::inc16_at(&mut self.data, wkc_offset);
        proof {
            assert(self.data@[6] == old(self).data@[6]);
            assert(self.data@[7] == old(self).data@[7]);
        }
    }

    /// Increment the auto-increment address in place, as a subdevice
    /// passing the datagram would.
    pub fn inc_autoincrement_address(&mut self)
        requires
            old(self).wf(),
        ensures
            final(self).wf(),
            final(self)@ == crate::wire::spec_inc16_at(old(self)@, 2),
    {
        crate::wire::inc16_at(&mut self.data, 2);
        proof {
            assert(self.data@[6] == old(self).data@[6]);
            assert(self.data@[7] == old(self).data@[7]);
        }
    }

    /// Give the buffer back.
    pub fn into_inner(self) -> (r: Vec<u8>)
        ensures
            r@ == self@,
    {
        self.data
    }
}

} // verus!

use ecdump::ec_command;
use ecdump::ec_packet::{ECCommandType, ECDatagram, ECDatagramView, ECFrame, ECFrameView, ECPacketError};

fn datagram_bytes(command: u8, index: u8, address: u32, payload: &[u8], more: bool, irq: u16, wkc: u16) -> Vec<u8> {
    let mut v = Vec::new();
    v.push(command);
    v.push(index);
    v.extend_from_slice(&address.to_le_bytes());
    let info: u16 = (payload.len() as u16) | if more { 0x8000 } else { 0 };
    v.extend_from_slice(&info.to_le_bytes());
    v.extend_from_slice(&irq.to_le_bytes());
    v.extend_from_slice(payload);
    v.extend_from_slice(&wkc.to_le_bytes());
    v
}

fn frame_bytes(datagrams: &[Vec<u8>]) -> Vec<u8> {
    let total: u16 = datagrams.iter().map(|d| d.len() as u16).sum();
    let header: u16 = total | 0x1000;
    let mut v = header.to_le_bytes().to_vec();
    for d in datagrams {
        v.extend_from_slice(d);
    }
    v
}

#[test]
fn frame_header_fields() {
    let bytes = frame_bytes(&[datagram_bytes(0x07, 0, 0x0130_0000, &[0x01], false, 0, 1)]);
    let frame = ECFrame::new(&bytes).unwrap();
    assert_eq!(frame.datagram_length(), 13);
    assert_eq!(frame.protocol_type(), 0x01);
    assert_eq!(frame.payload().len(), bytes.len() - 2);
}

#[test]
fn frame_too_short() {
    assert!(ECFrame::new(&[0x0Du8]).is_none());
    assert!(ECFrame::new(&[]).is_none());
}

#[test]
fn single_datagram_fields() {
    let bytes = datagram_bytes(0x04, 0x2A, 0x0134_1234, &[0xAB, 0xCD], false, 0x0102, 7);
    let d = ECDatagram::new(&bytes, bytes.len() as u16).unwrap().unwrap();
    assert_eq!(d.command().0, 0x04);
    assert_eq!(d.index(), 0x2A);
    assert_eq!(d.address(), 0x0134_1234);
    assert_eq!(d.length(), 2);
    assert_eq!(d.payload(), &[0xAB, 0xCD]);
    assert!(!d.is_circular());
    assert!(!d.has_more());
    assert_eq!(d.irq(), 0x0102);
    assert_eq!(d.wkc(), 7);
}

#[test]
fn datagram_flags() {
    let mut bytes = datagram_bytes(0x01, 0, 0, &[0x55], true, 0, 0);
    // Set the circulating-frame bit too (bit 14 of the info word).
    bytes[7] |= 0x40;
    let d = ECDatagram::new(&bytes, bytes.len() as u16).unwrap().unwrap();
    assert!(d.is_circular());
    assert!(d.has_more());
}

#[test]
fn datagram_exhausted_area() {
    let bytes = datagram_bytes(0x01, 0, 0, &[], false, 0, 0);
    assert!(ECDatagram::new(&bytes, 0).unwrap().is_none());
}

#[test]
fn datagram_short_buffer() {
    let err = ECDatagram::new(&[0x01, 0x00, 0x00], 3).unwrap_err();
    assert_eq!(err, ECPacketError::InvalidDatalength);
}

#[test]
fn datagram_length_exceeds_frame() {
    // 1-byte payload, but the frame area only has 12 bytes left.
    let bytes = datagram_bytes(0x01, 0, 0, &[0x99], false, 0, 0);
    let err = ECDatagram::new(&bytes, 12).unwrap_err();
    assert_eq!(err, ECPacketError::InvalidDatalength);
}

#[test]
fn chained_parse_two_datagrams() {
    let d1 = datagram_bytes(0x07, 1, 0x0130_0000, &[0x01], true, 0, 2);
    let d2 = datagram_bytes(0x01, 2, 0x0010_0001, &[0x34, 0x12], false, 0, 1);
    let bytes = frame_bytes(&[d1.clone(), d2.clone()]);
    let frame = ECFrame::new(&bytes).unwrap();
    let ds = frame.parse_datagram().unwrap();
    assert_eq!(ds.len(), 2);
    assert_eq!(ds.get(0).command().0, 0x07);
    assert_eq!(ds.get(0).wkc(), 2);
    assert_eq!(ds.get(1).command().0, 0x01);
    assert_eq!(ds.get(1).payload(), &[0x34, 0x12]);
    // Datagram length invariant: the on-wire sizes sum to the total length.
    let wire: u16 = (10 + ds.get(0).length() + 2) + (10 + ds.get(1).length() + 2);
    assert_eq!(wire, frame.datagram_length());
}

#[test]
fn chained_parse_empty_frame() {
    let bytes = frame_bytes(&[]);
    let frame = ECFrame::new(&bytes).unwrap();
    assert_eq!(frame.parse_datagram().unwrap_err(), ECPacketError::InvalidHeader);
}

#[test]
fn chained_parse_truncated() {
    let d1 = datagram_bytes(0x07, 1, 0, &[0x01], false, 0, 2);
    let mut bytes = frame_bytes(&[d1]);
    // Declare one byte more than the frame holds.
    let total = (bytes.len() as u16 - 2) + 1;
    let header = total | 0x1000;
    bytes[0] = header.to_le_bytes()[0];
    bytes[1] = header.to_le_bytes()[1];
    let frame = ECFrame::new(&bytes).unwrap();
    assert_eq!(frame.parse_datagram().unwrap_err(), ECPacketError::InvalidDatalength);
}

#[test]
fn decoder_round_trip_bytes() {
    let d1 = datagram_bytes(0x07, 1, 0x0130_0000, &[0x01], true, 0x0003, 2);
    let d2 = datagram_bytes(0x05, 2, 0x0120_1234, &[0x02, 0x03, 0x04], false, 0, 1);
    let bytes = frame_bytes(&[d1, d2]);
    let frame = ECFrame::new(&bytes).unwrap();
    let ds = frame.parse_datagram().unwrap();
    // Re-emit every datagram's header, payload and counter.
    let mut emitted: Vec<u8> = Vec::new();
    for i in 0..ds.len() {
        let d = ds.get(i);
        emitted.push(d.command().0);
        emitted.push(d.index());
        emitted.extend_from_slice(&d.address().to_le_bytes());
        let info: u16 = d.length()
            | if d.is_circular() { 0x4000 } else { 0 }
            | if d.has_more() { 0x8000 } else { 0 };
        emitted.extend_from_slice(&info.to_le_bytes());
        emitted.extend_from_slice(&d.irq().to_le_bytes());
        emitted.extend_from_slice(d.payload());
        emitted.extend_from_slice(&d.wkc().to_le_bytes());
    }
    assert_eq!(&emitted[..], &bytes[2..]);
}

#[test]
fn command_mnemonics() {
    let table: &[(u8, &str)] = &[
        (ec_command::NOP, "NOP"),
        (ec_command::APRD, "APRD"),
        (ec_command::APWR, "APWR"),
        (ec_command::APRW, "APRW"),
        (ec_command::FPRD, "FPRD"),
        (ec_command::FPWR, "FPWR"),
        (ec_command::FPRW, "FPRW"),
        (ec_command::BRD, "BRD"),
        (ec_command::BWR, "BWR"),
        (ec_command::BRW, "BRW"),
        (ec_command::LRD, "LRD"),
        (ec_command::LWR, "LWR"),
        (ec_command::LRW, "LRW"),
        (ec_command::ARMW, "ARMW"),
        (ec_command::FRMW, "FRMW"),
        (0x0F, "UNKNOWN"),
        (0xFF, "UNKNOWN"),
    ];
    for &(code, name) in table {
        assert_eq!(ECCommandType(code).as_str(), name);
    }
}

#[test]
fn frame_view_payload() {
    let bytes = vec![0x0Du8, 0x10, 1, 2, 3];
    let view = ECFrameView::new(bytes.clone()).unwrap();
    assert_eq!(view.payload(), vec![1, 2, 3]);
    assert_eq!(view.into_inner(), bytes);
}

#[test]
fn frame_view_too_short() {
    assert!(ECFrameView::new(vec![0x0Du8]).is_none());
}

#[test]
fn datagram_view_accessors() {
    let bytes = datagram_bytes(0x07, 0, 0x0001_0002, &[0xAA, 0xBB], false, 0, 0x0102);
    let view = ECDatagramView::new(bytes).unwrap();
    assert_eq!(view.command(), 0x07);
    assert_eq!(view.wkc(), 0x0102);
    assert_eq!(view.payload(), vec![0xAA, 0xBB]);
}

#[test]
fn datagram_view_short_buffer() {
    assert!(ECDatagramView::new(vec![0u8; 9]).is_none());
    // Header declares 5 payload bytes, buffer has room for none.
    let bytes = datagram_bytes(0x01, 0, 0, &[], false, 0, 0);
    let mut truncated = bytes.clone();
    truncated[6] = 5;
    assert!(ECDatagramView::new(truncated).is_none());
}

#[test]
fn datagram_view_inc_wkc() {
    let bytes = datagram_bytes(0x07, 0, 0, &[0x00], false, 0, 41);
    let mut view = ECDatagramView::new(bytes).unwrap();
    view.inc_wkc();
    assert_eq!(view.wkc(), 42);
}

#[test]
fn datagram_view_inc_wkc_wraps() {
    let bytes = datagram_bytes(0x07, 0, 0, &[], false, 0, 0xFFFF);
    let mut view = ECDatagramView::new(bytes).unwrap();
    view.inc_wkc();
    assert_eq!(view.wkc(), 0);
}

#[test]
fn datagram_view_inc_autoincrement_address() {
    let bytes = datagram_bytes(0x01, 0, 0x0010_FFFF, &[], false, 0, 0);
    let mut view = ECDatagramView::new(bytes).unwrap();
    view.inc_autoincrement_address();
    let out = view.into_inner();
    // The low half wrapped from 0xFFFF to 0; the register offset is intact.
    assert_eq!(u16::from_le_bytes([out[2], out[3]]), 0);
    assert_eq!(u16::from_le_bytes([out[4], out[5]]), 0x0010);
}

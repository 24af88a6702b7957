use ecdump::packetdump::{
    EtherCATDatagram, EtherCATDatagramView, EtherCATPacket, EtherCATPacketView, EtherCATState,
    EtherCATStateMachine,
};

fn datagram_bytes(command: u8, address: u32, payload: &[u8], wkc: u16) -> Vec<u8> {
    let mut v = vec![command, 0];
    v.extend_from_slice(&address.to_le_bytes());
    let info: u16 = payload.len() as u16;
    v.extend_from_slice(&info.to_le_bytes());
    v.extend_from_slice(&0u16.to_le_bytes());
    v.extend_from_slice(payload);
    v.extend_from_slice(&wkc.to_le_bytes());
    v
}

fn frame_bytes(datagram: &[u8]) -> Vec<u8> {
    let header: u16 = (datagram.len() as u16) | 0x1000;
    let mut v = header.to_le_bytes().to_vec();
    v.extend_from_slice(datagram);
    v
}

#[test]
fn packet_header_fields() {
    let bytes = frame_bytes(&datagram_bytes(0x01, 0, &[0xAB], 0));
    let p = EtherCATPacket::new(&bytes).unwrap();
    assert_eq!(p.datagram_length(), 13);
    assert_eq!(p.protocol_type(), 0x01);
    assert_eq!(p.payload().len(), 13);
}

#[test]
fn packet_too_short() {
    assert!(EtherCATPacket::new(&[0x00]).is_none());
}

#[test]
fn datagram_fields() {
    let bytes = datagram_bytes(0x0E, 0x0600_0001, &[1, 2, 3], 9);
    let d = EtherCATDatagram::new(&bytes).unwrap();
    assert_eq!(d.command(), 0x0E);
    assert_eq!(d.index(), 0);
    assert_eq!(d.address(), 0x0600_0001);
    assert_eq!(d.length(), 3);
    assert_eq!(d.payload(), &[1, 2, 3]);
    assert!(!d.is_circular());
    assert!(!d.has_more());
    assert_eq!(d.irq(), 0);
    assert_eq!(d.wkc(), 9);
    assert_eq!(d.command_str(), "FRMW");
}

#[test]
fn datagram_too_short() {
    let bytes = datagram_bytes(0x01, 0, &[1, 2, 3], 0);
    assert!(EtherCATDatagram::new(&bytes[..12]).is_none());
}

#[test]
fn datagram_mnemonics() {
    let names = [
        "NOP", "APRD", "APWR", "APRW", "FPRD", "FPWR", "FPRW", "BRD", "BWR", "BRW", "LRD", "LWR",
        "LRW", "ARMW", "FRMW",
    ];
    for (code, name) in names.iter().enumerate() {
        let bytes = datagram_bytes(code as u8, 0, &[], 0);
        assert_eq!(EtherCATDatagram::new(&bytes).unwrap().command_str(), *name);
    }
    let bytes = datagram_bytes(0x42, 0, &[], 0);
    assert_eq!(EtherCATDatagram::new(&bytes).unwrap().command_str(), "UNKNOWN");
}

#[test]
fn default_state_is_init() {
    assert_eq!(EtherCATState::default(), EtherCATState::Init);
}

#[test]
fn packet_view_round_trip() {
    let bytes = frame_bytes(&datagram_bytes(0x01, 0, &[0x77], 0));
    let view = EtherCATPacketView::new(bytes.clone()).unwrap();
    assert_eq!(view.payload(), bytes[2..].to_vec());
    assert_eq!(view.into_inner(), bytes);
}

#[test]
fn datagram_view_increments() {
    let bytes = datagram_bytes(0x01, 0x0010_0005, &[0xAA], 3);
    let mut view = EtherCATDatagramView::new(bytes).unwrap();
    assert_eq!(view.command(), 0x01);
    assert_eq!(view.wkc(), 3);
    view.inc_wkc();
    assert_eq!(view.wkc(), 4);
    view.inc_autoincrement_address();
    let out = view.into_inner();
    assert_eq!(u16::from_le_bytes([out[2], out[3]]), 6);
}

#[test]
fn state_machine_answers_in_init() {
    // A scanned frame: one APRD datagram with wkc 0 and position 0.
    let datagram = datagram_bytes(0x01, 0x0000_0000, &[0x00, 0x00], 0);
    let bytes = frame_bytes(&datagram);
    let mut machine = EtherCATStateMachine::new();
    let mut packet = EtherCATPacketView::new(bytes).unwrap();
    machine.next(&mut packet);
    let out = packet.into_inner();
    // The answer incremented the working counter and the position field.
    let wkc_offset = 2 + 10 + 2;
    assert_eq!(u16::from_le_bytes([out[wkc_offset], out[wkc_offset + 1]]), 1);
    assert_eq!(u16::from_le_bytes([out[4], out[5]]), 1);
    // Nothing else changed.
    assert_eq!(out[0..4], frame_bytes(&datagram_bytes(0x01, 0, &[0, 0], 0))[0..4]);
}

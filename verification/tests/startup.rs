use ecdump::packet_source::{DirectionTracker, PcapSource};
use ecdump::startup::{is_pcapng_path, parse_args};

#[test]
fn pcapng_suffix_detection() {
    assert!(is_pcapng_path("capture.pcapng"));
    assert!(is_pcapng_path("CAPTURE.PCAPNG"));
    assert!(is_pcapng_path("bus.PcapNg"));
    assert!(!is_pcapng_path("capture.pcap"));
    assert!(!is_pcapng_path("pcapng"));
    assert!(!is_pcapng_path(""));
    assert!(is_pcapng_path(".pcapng"));
}

#[test]
fn parse_args_selects_file_source() {
    let c = parse_args(
        Some(String::from("trace.PCAPNG")),
        None,
        Some(String::from("eth0")),
        false,
        1,
        0,
    );
    assert!(!c.list_interfaces);
    assert_eq!(c.verbose, 1);
    assert_eq!(c.debug, 0);
    assert!(c.output_file.is_none());
    match c.pcap_source {
        PcapSource::File(cfg) => {
            assert_eq!(cfg.file_path, "trace.PCAPNG");
            assert!(cfg.is_pcapng);
        }
        PcapSource::Interface(_) => panic!("expected a file source"),
    }
}

#[test]
fn parse_args_plain_pcap_file() {
    let c = parse_args(Some(String::from("trace.pcap")), None, None, false, 0, 0);
    match c.pcap_source {
        PcapSource::File(cfg) => {
            assert_eq!(cfg.file_path, "trace.pcap");
            assert!(!cfg.is_pcapng);
        }
        PcapSource::Interface(_) => panic!("expected a file source"),
    }
}

#[test]
fn parse_args_selects_interface_source() {
    let c = parse_args(
        None,
        Some(String::from("out.pcap")),
        Some(String::from("enp3s0")),
        true,
        0,
        2,
    );
    assert!(c.list_interfaces);
    assert_eq!(c.debug, 2);
    assert_eq!(c.output_file.as_deref(), Some("out.pcap"));
    match c.pcap_source {
        PcapSource::Interface(name) => assert_eq!(name.as_deref(), Some("enp3s0")),
        PcapSource::File(_) => panic!("expected an interface source"),
    }
}

#[test]
fn parse_args_default_interface() {
    let c = parse_args(None, None, None, false, 0, 0);
    match c.pcap_source {
        PcapSource::Interface(name) => assert!(name.is_none()),
        PcapSource::File(_) => panic!("expected an interface source"),
    }
}

#[test]
fn direction_tracker_classifies_by_first_source() {
    let main_mac: u64 = 0x0001_0203_0405;
    let other: u64 = 0x00AA_BBCC_DDEE;
    let mut tracker = DirectionTracker::new();
    assert!(tracker.classify(main_mac));
    assert!(!tracker.classify(other));
    assert!(tracker.classify(main_mac));
    assert!(!tracker.classify(other));
}

#[test]
fn direction_tracker_first_frame_defines_main() {
    let mut tracker = DirectionTracker::new();
    // Whatever comes first is the main device, even a later duplicate of
    // another address.
    assert!(tracker.classify(7));
    assert!(tracker.classify(7));
    assert!(!tracker.classify(8));
}

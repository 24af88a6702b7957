//! The runtime configuration and its derivation from parsed command-line
//! values.

use vstd::prelude::*;

use crate::packet_source::{PcapFileConfig, PcapSource};

verus! {

/// The analyzer's runtime configuration.
pub struct Config {
    pub list_interfaces: bool,
    pub verbose: u8,
    pub debug: u8,
    pub pcap_source: PcapSource,
    pub output_file: Option<String>,
}

/// An ASCII upper-case letter folded to lower case; other bytes unchanged.
pub open spec fn spec_ascii_lower(b: u8) -> u8 {
    if 0x41 <= b && b <= 0x5A {
        (b + 0x20) as u8
    } else {
        b
    }
}

/// Whether a path's last seven bytes spell `.pcapng`, ASCII case ignored.
pub open spec fn spec_is_pcapng_bytes(s: Seq<u8>) -> bool {
    &&& s.len() >= 7
    &&& spec_ascii_lower(s[s.len() - 7]) == 0x2E
    &&& spec_ascii_lower(s[s.len() - 6]) == 0x70
    &&& spec_ascii_lower(s[s.len() - 5]) == 0x63
    &&& spec_ascii_lower(s[s.len() - 4]) == 0x61
    &&& spec_ascii_lower(s[s.len() - 3]) == 0x70
    &&& spec_ascii_lower(s[s.len() - 2]) == 0x6E
    &&& spec_ascii_lower(s[s.len() - 1]) == 0x67
}

/// ASCII case folding of one byte.
fn ascii_lower(b: u8) -> (r: u8)
    ensures
        r == spec_ascii_lower(b),
{
    if 0x41 <= b && b <= 0x5A {
        b + 0x20
    } else {
        b
    }
}

/// Whether a path ends in `.pcapng`, ASCII case ignored.
pub fn is_pcapng_path(path: &str) -> (r: bool)
    ensures
        r == spec_is_pcapng_bytes(vstd::utf8::encode_utf8(path@)),
{
    let b = path.as_bytes();
    let n = b.len();
    if n < 7 {
        return false;
    }
    ascii_lower(b[n - 7]) == 0x2E && ascii_lower(b[n - 6]) == 0x70 && ascii_lower(b[n - 5]) == 0x63
        && ascii_lower(b[n - 4]) == 0x61 && ascii_lower(b[n - 3]) == 0x70 && ascii_lower(b[n - 2])
        == 0x6E && ascii_lower(b[n - 1]) == 0x67
}

/// Assemble the runtime configuration from parsed command-line values: a
/// file path, when given, selects file replay, with the format chosen by
/// the `.pcapng` suffix; otherwise live capture from the named (or
/// default) interface.
pub fn parse_args(
    file: Option<String>,
    write: Option<String>,
    interface: Option<String>,
    list_interfaces: bool,
    verbose: u8,
    debug: u8,
) -> (c: Config)
    ensures
        c.list_interfaces == list_interfaces,
        c.verbose == verbose,
        c.debug == debug,
        c.output_file == write,
        match file {
            Some(f) => c.pcap_source matches PcapSource::File(cfg) && cfg.file_path == f
                && cfg.is_pcapng == spec_is_pcapng_bytes(vstd::utf8::encode_utf8(f@)),
            None => c.pcap_source matches PcapSource::Interface(i) && i == interface,
        },
{
    let pcap_source = match file {
        Some(f) => {
            let is_pcapng = is_pcapng_path(f.as_str());
            PcapSource::File(PcapFileConfig { file_path: f, is_pcapng })
        },
        None => PcapSource::Interface(interface),
    };
    Config { list_interfaces, verbose, debug, pcap_source, output_file: write }
}

} // verus!

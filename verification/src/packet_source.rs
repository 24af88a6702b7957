//! Plain data handed between the capture layer and the analyzer, and the
//! inference of a frame's direction from its source MAC address.

use vstd::prelude::*;

verus! {

/// Where a capture comes from: a file by path, or a live interface by name
/// (`None` picks the default interface).
pub enum PcapSource {
    Interface(Option<String>),
    File(PcapFileConfig),
}

/// A capture file and the format its suffix announces.
pub struct PcapFileConfig {
    pub file_path: String,
    pub is_pcapng: bool,
}

/// One captured EtherCAT frame, Ethernet headers already stripped:
/// a timestamp in nanoseconds since capture start, the inferred direction,
/// and the frame bytes starting at the EtherCAT header.
pub struct CapturedData {
    pub timestamp: u64,
    pub from_main: bool,
    pub data: Vec<u8>,
}

/// One network interface as listed to the user.
pub struct NetworkInterfaceInfo {
    pub name: String,
    pub description: String,
    pub oper_state: String,
}

/// One classification step: the first frame observed defines the main
/// device's MAC and counts as outbound; later frames are outbound exactly
/// when their source matches it.
pub open spec fn spec_classify(main_mac: Option<u64>, src_mac: u64) -> (bool, Option<u64>) {
    match main_mac {
        None => (true, Some(src_mac)),
        Some(m) => (src_mac == m, Some(m)),
    }
}

/// A whole capture's classification, one flag per EtherCAT frame, starting
/// with no MAC learned: the flags in order, and the learned MAC.
pub open spec fn spec_run_tracker(macs: Seq<u64>) -> (Seq<bool>, Option<u64>)
    decreases macs.len(),
{
    if macs.len() == 0 {
        (Seq::empty(), None)
    } else {
        let prev = spec_run_tracker(macs.drop_last());
        let step = spec_classify(prev.1, macs.last());
        (prev.0.push(step.0), step.1)
    }
}

/// Direction inference over a capture: exactly the frames whose source MAC
/// equals the first EtherCAT frame's source are classified as coming from
/// the main device. The classification depends on the sequence of EtherCAT
/// frame sources alone, so frames of other EtherTypes, dropped before the
/// tracker ever sees them, cannot change it.
pub proof fn lemma_direction_inference(macs: Seq<u64>)
    ensures
        spec_run_tracker(macs).0.len() == macs.len(),
        macs.len() > 0 ==> spec_run_tracker(macs).1 == Some(macs[0]),
        macs.len() == 0 ==> spec_run_tracker(macs).1 is None,
        forall|i: int|
            0 <= i < macs.len() ==> spec_run_tracker(macs).0[i] == (i == 0 || macs[i]
                == macs[0]),
    decreases macs.len(),
{
    if macs.len() > 0 {
        let prefix = macs.drop_last();
        lemma_direction_inference(prefix);
        if prefix.len() > 0 {
            assert(prefix[0] == macs[0]);
        }
        assert forall|i: int| 0 <= i < macs.len() implies spec_run_tracker(macs).0[i] == (i == 0
            || macs[i] == macs[0]) by {
            if i < macs.len() - 1 {
                assert(spec_run_tracker(macs).0[i] == spec_run_tracker(prefix).0[i]);
                assert(prefix[i] == macs[i]);
            }
        }
    }
}

/// Learns the main device's MAC from the first EtherCAT frame of a capture
/// and classifies every later frame against it.
pub struct DirectionTracker {
    main_mac: Option<u64>,
}

impl View for DirectionTracker {
    type V = Option<u64>;

    closed spec fn view(&self) -> Option<u64> {
        self.main_mac
    }
}

impl DirectionTracker {
    /// A tracker that has not seen any frame yet.
    pub fn new() -> (r: DirectionTracker)
        ensures
            r@ is None,
    {
        DirectionTracker { main_mac: None }
    }

    /// Classify one frame by its source MAC (the 48-bit address as an
    /// integer): `true` means the frame came from the main device.
    pub fn classify(&mut self, src_mac: u64) -> (r: bool)
        ensures
            r == spec_classify(old(self)@, src_mac).0,
            final(self)@ == spec_classify(old(self)@, src_mac).1,
    {
        match self.main_mac {
            None => {
                self.main_mac = Some(src_mac);
                true
            },
            Some(m) => src_mac == m,
        }
    }
}

} // verus!

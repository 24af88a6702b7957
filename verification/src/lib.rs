//! Passive analyzer for EtherCAT fieldbus captures.
//!
//! The crate decodes EtherCAT frames into chains of datagrams, replays their
//! effect on a simulated register file per subdevice, and validates the
//! EtherCAT State Machine (ESM) transitions that the traffic implies.

pub mod analyzer;
pub mod ec_command;
pub mod ec_packet;
#[allow(non_upper_case_globals)]
pub mod register_address;
pub mod linear_map;
pub mod packet_source;
pub mod packetdump;
pub mod registers;
pub mod startup;
pub mod subdevice;
pub mod wire;

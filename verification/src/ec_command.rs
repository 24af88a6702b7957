//! Numeric values of the EtherCAT datagram commands.

use vstd::prelude::*;

verus! {

/// No Operation
pub const NOP: u8 = 0x00;
/// Auto Increment Physical Read
pub const APRD: u8 = 0x01;
/// Auto Increment Physical Write
pub const APWR: u8 = 0x02;
/// Auto Increment Physical Read/Write
pub const APRW: u8 = 0x03;
/// Configured Address Physical Read
pub const FPRD: u8 = 0x04;
/// Configured Address Physical Write
pub const FPWR: u8 = 0x05;
/// Configured Address Physical Read/Write
pub const FPRW: u8 = 0x06;
/// Broadcast Read
pub const BRD: u8 = 0x07;
/// Broadcast Write
pub const BWR: u8 = 0x08;
/// Broadcast Read/Write
pub const BRW: u8 = 0x09;
/// Logical Memory Read
pub const LRD: u8 = 0x0A;
/// Logical Memory Write
pub const LWR: u8 = 0x0B;
/// Logical Memory Read/Write
pub const LRW: u8 = 0x0C;
/// Auto Increment Physical Read Modify Write
pub const ARMW: u8 = 0x0D;
/// Configured Address Physical Read Modify Write
pub const FRMW: u8 = 0x0E;

} // verus!

//! Named 16-bit offsets into the EtherCAT subdevice register space.

use vstd::prelude::*;

verus! {

/// Type, `u8`.
pub const Type: u16 = 0x0000;
/// EtherCAT revision.
pub const Revision: u16 = 0x0001;
/// SubDevice build.
pub const Build: u16 = 0x0002;
/// Number of supported FMMU entities.
pub const FmmuCount: u16 = 0x0004;
/// Number of supported sync manager channels.
pub const SyncManagerChannels: u16 = 0x0005;
/// RAM size in kilo-octets (1024 octets).
pub const RamSize: u16 = 0x0006;
/// EtherCAT port descriptors 0-3, `u8`.
pub const PortDescriptors: u16 = 0x0007;
/// Different EtherCAT features supported by the SubDevice, `u16`.
pub const SupportFlags: u16 = 0x0008;
/// The SubDevice's configured station address, `u16`.
pub const ConfiguredStationAddress: u16 = 0x0010;
/// The SubDevice's address alias, `u16`.
pub const ConfiguredStationAlias: u16 = 0x0012;

/// DL status, `u16`.
pub const DlStatus: u16 = 0x0110;

/// Application Layer (AL) control register, `u8`.
pub const AlControl: u16 = 0x0120;
/// Application Layer (AL) status register, `u8`.
pub const AlStatus: u16 = 0x0130;
/// Application Layer (AL) status code register, `u16`.
pub const AlStatusCode: u16 = 0x0134;

/// Watchdog divider, `u16`.
pub const WatchdogDivider: u16 = 0x0400;
/// PDI watchdog timeout, `u16`.
pub const PdiWatchdog: u16 = 0x0410;
/// Sync manager watchdog timeout, `u16`.
pub const SyncManagerWatchdog: u16 = 0x0420;
/// Sync manager watchdog status (1 bit), `u16`.
pub const SyncManagerWatchdogStatus: u16 = 0x0440;
/// Sync manager watchdog counter, `u8`.
pub const SyncManagerWatchdogCounter: u16 = 0x0442;
/// PDI watchdog counter, `u8`.
pub const PdiWatchdogCounter: u16 = 0x0443;

/// EEPROM (SII) config register, `u16`.
pub const SiiConfig: u16 = 0x0500;
/// EEPROM (SII) control register, `u16`.
pub const SiiControl: u16 = 0x0502;
/// EEPROM (SII) control address, `u16`.
pub const SiiAddress: u16 = 0x0504;
/// The start of the data used by the EEPROM read/write interface.
pub const SiiData: u16 = 0x0508;

/// Fieldbus Memory Management Unit (FMMU) 0.
pub const Fmmu0: u16 = 0x0600;
/// Fieldbus Memory Management Unit (FMMU) 1.
pub const Fmmu1: u16 = 0x0610;
/// Fieldbus Memory Management Unit (FMMU) 2.
pub const Fmmu2: u16 = 0x0620;
/// Fieldbus Memory Management Unit (FMMU) 3.
pub const Fmmu3: u16 = 0x0630;
/// Fieldbus Memory Management Unit (FMMU) 4.
pub const Fmmu4: u16 = 0x0640;
/// Fieldbus Memory Management Unit (FMMU) 5.
pub const Fmmu5: u16 = 0x0650;
/// Fieldbus Memory Management Unit (FMMU) 6.
pub const Fmmu6: u16 = 0x0660;
/// Fieldbus Memory Management Unit (FMMU) 7.
pub const Fmmu7: u16 = 0x0670;
/// Fieldbus Memory Management Unit (FMMU) 8.
pub const Fmmu8: u16 = 0x0680;
/// Fieldbus Memory Management Unit (FMMU) 9.
pub const Fmmu9: u16 = 0x0690;
/// Fieldbus Memory Management Unit (FMMU) 10.
pub const Fmmu10: u16 = 0x06A0;
/// Fieldbus Memory Management Unit (FMMU) 11.
pub const Fmmu11: u16 = 0x06B0;
/// Fieldbus Memory Management Unit (FMMU) 12.
pub const Fmmu12: u16 = 0x06C0;
/// Fieldbus Memory Management Unit (FMMU) 13.
pub const Fmmu13: u16 = 0x06D0;
/// Fieldbus Memory Management Unit (FMMU) 14.
pub const Fmmu14: u16 = 0x06E0;
/// Fieldbus Memory Management Unit (FMMU) 15.
pub const Fmmu15: u16 = 0x06F0;

/// Sync Manager (SM) 0.
pub const Sm0: u16 = 0x0800;
/// Sync Manager (SM) 1.
pub const Sm1: u16 = 0x0808;
/// Sync Manager (SM) 2.
pub const Sm2: u16 = 0x0810;
/// Sync Manager (SM) 3.
pub const Sm3: u16 = 0x0818;
/// Sync Manager (SM) 4.
pub const Sm4: u16 = 0x0820;
/// Sync Manager (SM) 5.
pub const Sm5: u16 = 0x0828;
/// Sync Manager (SM) 6.
pub const Sm6: u16 = 0x0830;
/// Sync Manager (SM) 7.
pub const Sm7: u16 = 0x0838;
/// Sync Manager (SM) 8.
pub const Sm8: u16 = 0x0840;
/// Sync Manager (SM) 9.
pub const Sm9: u16 = 0x0848;
/// Sync Manager (SM) 10.
pub const Sm10: u16 = 0x0850;
/// Sync Manager (SM) 11.
pub const Sm11: u16 = 0x0858;
/// Sync Manager (SM) 12.
pub const Sm12: u16 = 0x0860;
/// Sync Manager (SM) 13.
pub const Sm13: u16 = 0x0868;
/// Sync Manager (SM) 14.
pub const Sm14: u16 = 0x0870;
/// Sync Manager (SM) 15.
pub const Sm15: u16 = 0x0878;

/// Distributed clock (DC) port 0 receive time in ns.
pub const DcTimePort0: u16 = 0x0900;
/// Distributed clock (DC) port 1 receive time in ns.
pub const DcTimePort1: u16 = 0x0904;
/// Distributed clock (DC) port 2 receive time in ns.
pub const DcTimePort2: u16 = 0x0908;
/// Distributed clock (DC) port 3 receive time in ns.
pub const DcTimePort3: u16 = 0x090C;
/// DC system receive time.
pub const DcReceiveTime: u16 = 0x0918;
/// DC system time, `u64`.
pub const DcSystemTime: u16 = 0x0910;
/// DC system time offset.
pub const DcSystemTimeOffset: u16 = 0x0920;
/// Transmission delay, `u32`.
pub const DcSystemTimeTransmissionDelay: u16 = 0x0928;
/// DC control loop parameter, `u16`.
pub const DcControlLoopParam1: u16 = 0x0930;
/// DC control loop parameter, `u16`.
pub const DcControlLoopParam2: u16 = 0x0932;
/// DC control loop parameter, `u16`.
pub const DcControlLoopParam3: u16 = 0x0934;
/// DC system time difference, `u32`.
pub const DcSystemTimeDifference: u16 = 0x092C;
/// DC Cyclic Unit Control, `u8`.
pub const DcCyclicUnitControl: u16 = 0x0980;
/// Distributed Clock sync parameter, `u8`.
pub const DcSyncActive: u16 = 0x0981;
/// Distributed Clock sync start time, `u32`.
pub const DcSyncStartTime: u16 = 0x0990;
/// Distributed Clock sync 0 cycle time in ns, `u32`.
pub const DcSync0CycleTime: u16 = 0x09A0;
/// Distributed Clock sync 1 cycle time in ns, `u32`.
pub const DcSync1CycleTime: u16 = 0x09A4;

} // verus!

//! Mach error-code composition, and the status and message codes built from it.

use vstd::prelude::*;

verus! {

/// The system field of a Mach error code: six bits at the top of the word.
pub open spec fn system_field(x: u32) -> int {
    (x % 64) * 0x400_0000
}

/// The subsystem field of a Mach error code: twelve bits above the code bits.
pub open spec fn subsystem_field(x: u32) -> int {
    (x % 4096) * 0x4000
}

/// Places `x` in the system field of an error code (`err_system` of `mach/error.h`).
pub fn err_system(x: u32) -> (r: u32)
    ensures
        r == system_field(x),
{
    let r = (x & 0x3f) << 26;
    assert(((x & 0x3f) << 26) == (x % 64) * 0x400_0000) by (bit_vector);
    r
}

/// Places `x` in the subsystem field of an error code (`err_sub` of `mach/error.h`).
pub fn err_sub(x: u32) -> (r: u32)
    ensures
        r == subsystem_field(x),
{
    let r = (x & 0xfff) << 14;
    assert(((x & 0xfff) << 14) == (x % 4096) * 0x4000) by (bit_vector);
    r
}

/// The system number of IOKit.
pub const SYS_IOKIT: u32 = 0x38;

/// The IOKit message code `message` in the common subsystem.
pub open spec fn iokit_message(message: u32) -> int {
    system_field(SYS_IOKIT) + subsystem_field(0) + message
}

/// Builds an IOKit message code of the common subsystem from its low bits.
pub fn iokit_common_msg(message: u32) -> (r: u32)
    requires
        message < 0x4000,
    ensures
        r == iokit_message(message),
{
    let sys = err_system(SYS_IOKIT);
    let sub = err_sub(0);
    let r = sys | sub | message;
    assert(sys == 0xe000_0000u32 && sub == 0u32);
    assert(message < 0x4000u32 ==> (0xe000_0000u32 | 0u32 | message) == 0xe000_0000u32 + message)
        by (bit_vector);
    r
}

/// `kIOMessageCanSystemSleep`: the system asks whether it may sleep.
pub const IO_MESSAGE_CAN_SYSTEM_SLEEP: u32 = 0xe000_0270;

/// `kIOMessageSystemWillSleep`: the system is about to sleep.
pub const IO_MESSAGE_SYSTEM_WILL_SLEEP: u32 = 0xe000_0280;

/// `kIOMessageSystemHasPoweredOn`: the system has woken.
pub const IO_MESSAGE_SYSTEM_HAS_POWERED_ON: u32 = 0xe000_0300;

/// `kIOMessageSystemWillPowerOn`: the system is beginning to wake.
pub const IO_MESSAGE_SYSTEM_WILL_POWER_ON: u32 = 0xe000_0320;

/// The system number of user-defined errors.
pub const SYS_LOCAL: u32 = 0x3e;

/// The subsystem number of Disk Arbitration among user-defined errors.
pub const SUB_DISK_ARBITRATION: u32 = 0x368;

/// `kDAReturnExclusiveAccess`: the status a dissent carries to refuse a mount.
pub const DA_RETURN_EXCLUSIVE_ACCESS: u32 = 0xf8da_0004;

} // verus!

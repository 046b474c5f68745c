//! The system-information record a simulated `sysinfo` call returns: fixed
//! figures, so that runs are reproducible, and an uptime taken from simulated
//! time alone.

use vstd::prelude::*;
use crate::simulation_time::SimulationTime;

verus! {

/// The fields of the platform's `sysinfo` structure.
#[derive(Copy, Clone, PartialEq, Eq, Debug)]
pub struct SysInfo {
    pub uptime: i64,
    pub loads: [u64; 3],
    pub totalram: u64,
    pub freeram: u64,
    pub sharedram: u64,
    pub bufferram: u64,
    pub totalswap: u64,
    pub freeswap: u64,
    pub procs: u16,
    pub totalhigh: u64,
    pub freehigh: u64,
    pub mem_unit: u32,
}

/// Memory figures are counted in units of one GiB.
pub const MEM_UNIT_GIB: u32 = 1073741824;

/// Uptime in seconds, saturated to the signed field.
pub open spec fn uptime_of(secs: nat) -> i64 {
    if secs > i64::MAX {
        i64::MAX
    } else {
        secs as i64
    }
}

/// The record for an instant `secs` whole seconds after the simulation start.
pub open spec fn sysinfo_at(secs: nat) -> SysInfo {
    SysInfo {
        uptime: uptime_of(secs),
        loads: [1u64, 1u64, 1u64],
        totalram: 32,
        freeram: 24,
        sharedram: 4,
        bufferram: 4,
        totalswap: 0,
        freeswap: 0,
        procs: 100,
        totalhigh: 4,
        freehigh: 3,
        mem_unit: MEM_UNIT_GIB,
    }
}

/// The record for the simulated instant `now`.
pub fn sysinfo(now: SimulationTime) -> (r: SysInfo)
    ensures
        r == sysinfo_at(now@ / 1000000000),
{
    let seconds = now.as_secs();
    let uptime: i64 = if seconds > i64::MAX as u64 {
        i64::MAX
    } else {
        seconds as i64
    };
    SysInfo {
        uptime,
        loads: [1, 1, 1],
        totalram: 32,
        freeram: 24,
        sharedram: 4,
        bufferram: 4,
        totalswap: 0,
        freeswap: 0,
        procs: 100,
        totalhigh: 4,
        freehigh: 3,
        mem_unit: MEM_UNIT_GIB,
    }
}

/// The record is a function of the simulated instant alone: two queries at the
/// same instant give identical records, and queries at any two instants differ
/// at most in the uptime.
pub proof fn lemma_sysinfo_deterministic(a: SimulationTime, b: SimulationTime)
    ensures
        a@ == b@ ==> sysinfo_at(a@ / 1000000000) == sysinfo_at(b@ / 1000000000),
        ({
            let x = sysinfo_at(a@ / 1000000000);
            let y = sysinfo_at(b@ / 1000000000);
            SysInfo { uptime: y.uptime, ..x } == y
        }),
{
}

} // verus!

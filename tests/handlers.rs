use simtime::fcntl::{fcntl, Descriptor, FcntlOutcome, EBADF, EINVAL, F_GETFL, F_SETFL};
use simtime::simulation_time::{SimulationTime, SIMTIME_MAX, SIMTIME_ONE_SECOND};
use simtime::sysinfo::{sysinfo, SysInfo, MEM_UNIT_GIB};

#[test]
fn sysinfo_same_instant_identical() {
    let now = SimulationTime::from_c_simtime(3_723 * SIMTIME_ONE_SECOND + 5).unwrap();
    let a = sysinfo(now);
    let b = sysinfo(now);
    assert_eq!(a, b);
    assert_eq!(
        a,
        SysInfo {
            uptime: 3_723,
            loads: [1, 1, 1],
            totalram: 32,
            freeram: 24,
            sharedram: 4,
            bufferram: 4,
            totalswap: 0,
            freeswap: 0,
            procs: 100,
            totalhigh: 4,
            freehigh: 3,
            mem_unit: 1024 * 1024 * 1024,
        }
    );
    assert_eq!(MEM_UNIT_GIB, 1 << 30);
}

#[test]
fn sysinfo_only_uptime_varies() {
    let a = sysinfo(SimulationTime::zero());
    let b = sysinfo(SimulationTime::max_value());
    assert_eq!(a.uptime, 0);
    assert_eq!(b.uptime, (SIMTIME_MAX / SIMTIME_ONE_SECOND) as i64);
    assert_eq!(SysInfo { uptime: b.uptime, ..a }, b);
}

#[test]
fn fcntl_outcomes() {
    let known = 0o4000 | 0o2000;
    assert_eq!(fcntl(Descriptor::Missing, F_GETFL, 0, known), FcntlOutcome::Error(EBADF));
    assert_eq!(fcntl(Descriptor::Legacy, F_GETFL, 0, known), FcntlOutcome::Forward);
    assert_eq!(
        fcntl(Descriptor::File { flags: 0o4000 }, F_GETFL, 0, known),
        FcntlOutcome::Return(0o4000)
    );
    assert_eq!(
        fcntl(Descriptor::File { flags: 0 }, F_SETFL, 0o2000, known),
        FcntlOutcome::SetFlags(0o2000)
    );
    assert_eq!(
        fcntl(Descriptor::File { flags: 0 }, F_SETFL, 0o1, known),
        FcntlOutcome::Error(EINVAL)
    );
    assert_eq!(
        fcntl(Descriptor::File { flags: 0 }, 1234, 0, known),
        FcntlOutcome::Error(EINVAL)
    );
    assert_eq!(F_GETFL, libc::F_GETFL);
    assert_eq!(F_SETFL, libc::F_SETFL);
    assert_eq!(EINVAL, libc::EINVAL);
    assert_eq!(EBADF, libc::EBADF);
}

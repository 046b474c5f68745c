//! The decisions of the `fcntl` handler for file-status flags.  The caller
//! resolves the descriptor, hands in what it found, and carries out the
//! outcome: forwarding, storing new flags, or returning a value or an error.

use vstd::prelude::*;

verus! {

/// `fcntl` command: read the file-status flags.
pub const F_GETFL: i32 = 3;

/// `fcntl` command: replace the file-status flags.
pub const F_SETFL: i32 = 4;

/// Error number for a descriptor that does not exist.
pub const EBADF: i32 = 9;

/// Error number for an unknown command or unknown flag bits.
pub const EINVAL: i32 = 22;

/// What a descriptor number resolved to.
#[derive(Copy, Clone, PartialEq, Eq, Structural, Debug)]
pub enum Descriptor {
    /// No descriptor has this number.
    Missing,
    /// A descriptor that the legacy handler owns.
    Legacy,
    /// A file object with these status flags.
    File { flags: i32 },
}

/// What the handler does.
#[derive(Copy, Clone, PartialEq, Eq, Structural, Debug)]
pub enum FcntlOutcome {
    /// Hand the call, unchanged, to the legacy handler.
    Forward,
    /// Return this value; nothing changes.
    Return(i32),
    /// Replace the file's status flags with these bits, then return 0.
    SetFlags(i32),
    /// Fail with this error number.
    Error(i32),
}

/// Whether `bits` names only flags among `known`.
pub open spec fn only_known_bits(bits: i32, known: i32) -> bool {
    bits & !known == 0
}

/// The outcome of `fcntl(fd, cmd, arg)` where `fd` resolved to `desc` and
/// `known_flags` holds every status-flag bit a file object accepts.
pub open spec fn fcntl_outcome(desc: Descriptor, cmd: i32, arg: i32, known_flags: i32) -> FcntlOutcome {
    match desc {
        Descriptor::Missing => FcntlOutcome::Error(EBADF),
        Descriptor::Legacy => FcntlOutcome::Forward,
        Descriptor::File { flags } => {
            if cmd == F_GETFL {
                FcntlOutcome::Return(flags)
            } else if cmd == F_SETFL {
                if only_known_bits(arg, known_flags) {
                    FcntlOutcome::SetFlags(arg)
                } else {
                    FcntlOutcome::Error(EINVAL)
                }
            } else {
                FcntlOutcome::Error(EINVAL)
            }
        },
    }
}

/// Decides `fcntl(fd, cmd, arg)` for a descriptor that resolved to `desc`.
pub fn fcntl(desc: Descriptor, cmd: i32, arg: i32, known_flags: i32) -> (r: FcntlOutcome)
    ensures
        r == fcntl_outcome(desc, cmd, arg, known_flags),
{
    let flags = match desc {
        Descriptor::Missing => return FcntlOutcome::Error(EBADF),
        Descriptor::Legacy => return FcntlOutcome::Forward,
        Descriptor::File { flags } => flags,
    };
    if cmd == F_GETFL {
        FcntlOutcome::Return(flags)
    } else if cmd == F_SETFL {
        if arg & !known_flags == 0 {
            FcntlOutcome::SetFlags(arg)
        } else {
            FcntlOutcome::Error(EINVAL)
        }
    } else {
        FcntlOutcome::Error(EINVAL)
    }
}

} // verus!

//! Errors of a hibernation attempt.
use vstd::prelude::*;

verus! {

/// Value of `errno` used where an input was out of range.
pub const ERR_INVALID: i32 = 22;

/// The snapshot-device operation that failed.
#[derive(Clone, Copy, Debug, PartialEq, Eq, Structural)]
pub enum SnapshotOp {
    Open,
    Freeze,
    AtomicSnapshot,
    ImageSize,
}

/// The part of the image pipeline in which an I/O failure happened.
#[derive(Clone, Copy, Debug, PartialEq, Eq, Structural)]
pub enum IoPhase {
    FirstPage,
    Header,
    Body,
    Metadata,
    Cookie,
}

/// Why an attempt failed. Integer payloads are platform error codes, except
/// in `Io`, where it is the number of bytes already done.
#[derive(Clone, Copy, Debug, PartialEq, Eq, Structural)]
pub enum HibernateError {
    UpdateEngineBusy,
    Preallocation(i32),
    MemoryLock(i32),
    Swappiness(i32),
    KeyLoad(i32),
    KeyDerive(i32),
    Snapshot(SnapshotOp, i32),
    Io(IoPhase, u64),
    Shutdown(i32),
    Environment(i32),
}

} // verus!

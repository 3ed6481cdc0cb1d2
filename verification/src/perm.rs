//! Compile-time permission tags, one pair per axis.
//!
//! A region's type carries one tag for each of the three independent
//! permission axes (read, write, execute).  Operations that need an axis are
//! only defined when the matching `Allow` tag is selected, so a forbidden
//! access fails to compile instead of faulting at run time.  Each tag also
//! exposes its POSIX protection-bit contribution and a boolean predicate for
//! the protection tables.

use vstd::prelude::*;

verus! {

/// Tag deciding whether the bytes of a region may be read.
pub trait ReadPremisionMarker {
    /// Whether this tag grants read access.
    spec fn read_allowed() -> bool;

    /// Runtime reflection of [`Self::read_allowed`].
    fn allow_read() -> (b: bool)
        ensures
            b == Self::read_allowed(),
    ;

    /// POSIX protection-bit contribution of this tag (read = 0x1).
    fn bitmask() -> (m: i32)
        ensures
            m == if Self::read_allowed() { 0x1i32 } else { 0i32 },
    ;
}

/// Tag deciding whether the bytes of a region may be written.
pub trait WritePremisionMarker {
    /// Whether this tag grants write access.
    spec fn write_allowed() -> bool;

    /// Runtime reflection of [`Self::write_allowed`].
    fn allow_write() -> (b: bool)
        ensures
            b == Self::write_allowed(),
    ;

    /// POSIX protection-bit contribution of this tag (write = 0x2).
    fn bitmask() -> (m: i32)
        ensures
            m == if Self::write_allowed() { 0x2i32 } else { 0i32 },
    ;
}

/// Tag deciding whether the bytes of a region may be executed as code.
pub trait ExecPremisionMarker {
    /// Whether this tag grants execute access.
    spec fn exec_allowed() -> bool;

    /// Runtime reflection of [`Self::exec_allowed`].
    fn allow_exec() -> (b: bool)
        ensures
            b == Self::exec_allowed(),
    ;

    /// POSIX protection-bit contribution of this tag (execute = 0x4).
    fn bitmask() -> (m: i32)
        ensures
            m == if Self::exec_allowed() { 0x4i32 } else { 0i32 },
    ;
}

/// Grants read access to a region.
pub struct AllowRead;

impl ReadPremisionMarker for AllowRead {
    open spec fn read_allowed() -> bool {
        true
    }

    fn allow_read() -> bool {
        true
    }

    fn bitmask() -> i32 {
        0x1
    }
}

/// Denies all reads of a region; an attempted read faults.
pub struct DenyRead;

impl ReadPremisionMarker for DenyRead {
    open spec fn read_allowed() -> bool {
        false
    }

    fn allow_read() -> bool {
        false
    }

    fn bitmask() -> i32 {
        0
    }
}

/// Grants write access to a region.
pub struct AllowWrite;

impl WritePremisionMarker for AllowWrite {
    open spec fn write_allowed() -> bool {
        true
    }

    fn allow_write() -> bool {
        true
    }

    fn bitmask() -> i32 {
        0x2
    }
}

/// Denies all writes to a region; an attempted write faults.
pub struct DenyWrite;

impl WritePremisionMarker for DenyWrite {
    open spec fn write_allowed() -> bool {
        false
    }

    fn allow_write() -> bool {
        false
    }

    fn bitmask() -> i32 {
        0
    }
}

/// Grants execute access to a region.
///
/// Grant execution only to bytes that are under the caller's full control,
/// preferably while writes are denied.
pub struct AllowExec;

impl ExecPremisionMarker for AllowExec {
    open spec fn exec_allowed() -> bool {
        true
    }

    fn allow_exec() -> bool {
        true
    }

    fn bitmask() -> i32 {
        0x4
    }
}

/// Denies execution of the bytes of a region.
pub struct DenyExec;

impl ExecPremisionMarker for DenyExec {
    open spec fn exec_allowed() -> bool {
        false
    }

    fn allow_exec() -> bool {
        false
    }

    fn bitmask() -> i32 {
        0
    }
}

} // verus!

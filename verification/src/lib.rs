//! Page-granular memory regions with type-state access permissions, and a
//! growable typed buffer built on top of them.
//!
//! A [`Pages`] value stands for one contiguous page-rounded mapping obtained
//! from the operating system's virtual-memory facility.  Its read, write and
//! execute permissions are carried in its type, one marker per axis, so that
//! an access the permissions forbid is rejected at compile time rather than
//! at run time.  Changing a permission consumes the region and yields a
//! differently-typed one; a change that does not alter the effective OS-level
//! protection issues no protection-change request, which a per-region counter
//! records.
//!
//! [`PagedVec`] owns one read-write, non-executable region and manages a
//! logical sequence of elements inside it, growing the region by a
//! conservative 1.5x policy when it runs out of room.
//!
//! The verified core keeps the region's contents and its protection
//! bookkeeping as plain owned data; the platform bindings that actually talk
//! to the OS stand outside it and follow the same page rounding and
//! protection tables, which are exported here.

mod buffer;
mod perm;
mod prot;
mod region;

pub use buffer::PagedVec;
pub use perm::{
    AllowExec, AllowRead, AllowWrite, DenyExec, DenyRead, DenyWrite, ExecPremisionMarker,
    ReadPremisionMarker, WritePremisionMarker,
};
pub use prot::{
    next_page_boundary, page_round_up, prot_bits, windows_protection, windows_protection_spec,
    PAGE_EXECUTE, PAGE_EXECUTE_READ, PAGE_EXECUTE_READWRITE, PAGE_NOACCESS, PAGE_READONLY,
    PAGE_READWRITE, PAGE_SIZE,
};
pub use region::{Pages, PagesError};

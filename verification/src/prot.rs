//! Page granularity and the per-platform protection encodings.
//!
//! A mapping is always a whole number of pages, so requested byte lengths are
//! rounded up to the next page boundary.  Each permission triple
//! (read, write, execute) has a fixed encoding on each platform family:
//! POSIX systems combine one bit per axis, while the Windows family exposes a
//! single constant per combination and has no write-without-read encoding, so
//! every writable state is at least readable at the OS level.

use vstd::prelude::*;

verus! {

/// The OS's minimum granularity of mapping and protection, in bytes.
pub const PAGE_SIZE: usize = 0x1000;

/// The smallest multiple of [`PAGE_SIZE`] that is at least `size`.
pub open spec fn page_round_up(size: int) -> int {
    ((size + (PAGE_SIZE - 1)) / (PAGE_SIZE as int)) * (PAGE_SIZE as int)
}

/// Rounding up to a page boundary yields a page multiple that is at least
/// the requested size and overshoots by less than one page.
pub proof fn lemma_page_round_up(size: int)
    requires
        0 <= size,
    ensures
        page_round_up(size) % (PAGE_SIZE as int) == 0,
        size <= page_round_up(size),
        page_round_up(size) < size + (PAGE_SIZE as int),
{
    let p = PAGE_SIZE as int;
    let q = (size + (p - 1)) / p;
    vstd::arithmetic::div_mod::lemma_fundamental_div_mod(size + (p - 1), p);
    vstd::arithmetic::div_mod::lemma_mod_multiples_basic(q, p);
}

/// Rounds `size` up to the next page boundary.
pub fn next_page_boundary(size: usize) -> (r: usize)
    requires
        size <= usize::MAX - (PAGE_SIZE - 1),
    ensures
        r == page_round_up(size as int),
        r % PAGE_SIZE == 0,
        size <= r,
        r < size + PAGE_SIZE,
{
    proof {
        lemma_page_round_up(size as int);
    }
    ((size + (PAGE_SIZE - 1)) / PAGE_SIZE) * PAGE_SIZE
}

/// The POSIX protection encoding of a permission triple: one bit per axis
/// (read = 0x1, write = 0x2, execute = 0x4).
pub open spec fn prot_bits(r: bool, w: bool, e: bool) -> int {
    (if r { 0x1int } else { 0int }) + (if w { 0x2int } else { 0int }) + (if e { 0x4int } else { 0int })
}

/// Windows page-protection constant: no access at all.
pub const PAGE_NOACCESS: u32 = 0x01;

/// Windows page-protection constant: read-only access.
pub const PAGE_READONLY: u32 = 0x02;

/// Windows page-protection constant: read and write access.
pub const PAGE_READWRITE: u32 = 0x04;

/// Windows page-protection constant: execute-only access.
pub const PAGE_EXECUTE: u32 = 0x10;

/// Windows page-protection constant: execute and read access.
pub const PAGE_EXECUTE_READ: u32 = 0x20;

/// Windows page-protection constant: execute, read and write access.
pub const PAGE_EXECUTE_READWRITE: u32 = 0x40;

/// The Windows protection constant nearest to a permission triple.
///
/// The Windows family has no write-without-read constant, so any writable
/// triple maps to a constant that also grants read.
pub open spec fn windows_protection_spec(r: bool, w: bool, e: bool) -> u32 {
    if e {
        if w {
            PAGE_EXECUTE_READWRITE
        } else if r {
            PAGE_EXECUTE_READ
        } else {
            PAGE_EXECUTE
        }
    } else {
        if w {
            PAGE_READWRITE
        } else if r {
            PAGE_READONLY
        } else {
            PAGE_NOACCESS
        }
    }
}

/// Looks up the Windows protection constant for a permission triple.
pub fn windows_protection(r: bool, w: bool, e: bool) -> (p: u32)
    ensures
        p == windows_protection_spec(r, w, e),
{
    if e {
        if w {
            PAGE_EXECUTE_READWRITE
        } else if r {
            PAGE_EXECUTE_READ
        } else {
            PAGE_EXECUTE
        }
    } else {
        if w {
            PAGE_READWRITE
        } else if r {
            PAGE_READONLY
        } else {
            PAGE_NOACCESS
        }
    }
}

/// On the Windows family every writable triple is mapped to a constant that
/// also grants read, even when the triple itself denies read.
pub proof fn lemma_windows_writable_is_readable(r: bool, e: bool)
    ensures
        windows_protection_spec(r, true, e) == windows_protection_spec(true, true, e),
{
}

} // verus!

//! The page region: one contiguous page-granular mapping with type-state
//! permissions.
//!
//! A [`Pages`] value owns the contents of exactly one mapping together with
//! the count of protection-change requests it has issued.  Byte reads are
//! only defined when the read tag allows them, byte writes when the write
//! tag does; a permission transition consumes the region and yields a new,
//! differently-typed one.  A transition whose target has the same effective
//! protection encoding as the source is a pure relabeling and issues no
//! protection-change request; otherwise it issues exactly one, which the
//! counter records.

use vstd::prelude::*;

use core::marker::PhantomData;

use crate::perm::{
    AllowExec, AllowRead, AllowWrite, DenyExec, DenyRead, DenyWrite, ExecPremisionMarker,
    ReadPremisionMarker, WritePremisionMarker,
};
use crate::prot::{next_page_boundary, page_round_up, prot_bits, PAGE_SIZE};

verus! {

/// Why a region request was refused.
#[derive(Clone, Copy, PartialEq, Eq, Structural, Debug)]
pub enum PagesError {
    /// A region of zero bytes was requested.
    InvalidSize,
}

/// The POSIX protection encoding implied by a triple of permission tags.
pub open spec fn region_mask<
    R: ReadPremisionMarker,
    W: WritePremisionMarker,
    E: ExecPremisionMarker,
>() -> int {
    prot_bits(R::read_allowed(), W::write_allowed(), E::exec_allowed())
}

/// A contiguous run of memory pages with permissions carried in the type:
/// one [`ReadPremisionMarker`], one [`WritePremisionMarker`] and one
/// [`ExecPremisionMarker`].
pub struct Pages<R: ReadPremisionMarker, W: WritePremisionMarker, E: ExecPremisionMarker> {
    mem: Vec<u8>,
    protect_calls: u64,
    read_tag: PhantomData<R>,
    write_tag: PhantomData<W>,
    exec_tag: PhantomData<E>,
}

impl<R: ReadPremisionMarker, W: WritePremisionMarker, E: ExecPremisionMarker> Pages<R, W, E> {
    /// The bytes of the mapping.
    pub closed spec fn bytes(self) -> Seq<u8> {
        self.mem@
    }

    /// How many protection-change requests this region has issued to the OS.
    pub closed spec fn protect_call_count(self) -> u64 {
        self.protect_calls
    }

    /// A region is always a positive whole number of pages.
    pub open spec fn wf(self) -> bool {
        &&& (self.bytes().len() as int) % (PAGE_SIZE as int) == 0
        &&& 0 < self.bytes().len() <= usize::MAX
    }

    /// The POSIX protection encoding of this region's tags.
    fn bitmask() -> (m: i32)
        ensures
            m == region_mask::<R, W, E>(),
    {
        R::bitmask() + W::bitmask() + E::bitmask()
    }

    /// Requests a fresh region of at least `length` bytes, rounded up to the
    /// next page boundary.  The OS hands out zeroed pages.
    ///
    /// Zero-length requests are excluded: they are refused by the OS facility
    /// and reported through [`Self::try_new`].
    #[must_use]
    pub fn new(length: usize) -> (r: Self)
        requires
            0 < length <= usize::MAX - (PAGE_SIZE - 1),
        ensures
            r.wf(),
            r.bytes().len() == page_round_up(length as int),
            length <= r.bytes().len() < length + PAGE_SIZE,
            forall|i: int| 0 <= i < r.bytes().len() ==> r.bytes()[i] == 0u8,
            r.protect_call_count() == 0,
    {
        let len = next_page_boundary(length);
        let mem = vec![0u8; len];
        Pages { mem, protect_calls: 0, read_tag: PhantomData, write_tag: PhantomData, exec_tag: PhantomData }
    }

    /// Requests a fresh region of at least `length` bytes, reporting a
    /// zero-length request as [`PagesError::InvalidSize`] instead of
    /// excluding it.
    pub fn try_new(length: usize) -> (r: Result<Self, PagesError>)
        requires
            length <= usize::MAX - (PAGE_SIZE - 1),
        ensures
            length == 0 <==> r is Err,
            r is Err ==> r->Err_0 == PagesError::InvalidSize,
            r is Ok ==> {
                &&& r->Ok_0.wf()
                &&& r->Ok_0.bytes().len() == page_round_up(length as int)
                &&& length <= r->Ok_0.bytes().len() < length + PAGE_SIZE
                &&& forall|i: int| 0 <= i < r->Ok_0.bytes().len() ==> r->Ok_0.bytes()[i] == 0u8
                &&& r->Ok_0.protect_call_count() == 0
            },
    {
        if length == 0 {
            Err(PagesError::InvalidSize)
        } else {
            Ok(Self::new(length))
        }
    }

    /// The byte length of the mapping.
    pub fn len(&self) -> (n: usize)
        ensures
            n == self.bytes().len(),
    {
        self.mem.len()
    }

    /// How many protection-change requests this region has issued.
    pub fn protection_calls(&self) -> (n: u64)
        ensures
            n == self.protect_call_count(),
    {
        self.protect_calls
    }

    /// Relabels the region under new permission tags, issuing one
    /// protection-change request exactly when the effective encoding differs.
    fn into_prot<
        TR: ReadPremisionMarker,
        TW: WritePremisionMarker,
        TE: ExecPremisionMarker,
    >(self) -> (r: Pages<TR, TW, TE>)
        requires
            self.protect_call_count() < u64::MAX,
        ensures
            r.bytes() == self.bytes(),
            region_mask::<TR, TW, TE>() == region_mask::<R, W, E>() ==> r.protect_call_count()
                == self.protect_call_count(),
            region_mask::<TR, TW, TE>() != region_mask::<R, W, E>() ==> r.protect_call_count()
                == self.protect_call_count() + 1,
    {
        let old_mask = Self::bitmask();
        let new_mask = Pages::<TR, TW, TE>::bitmask();
        let protect_calls = if new_mask == old_mask {
            self.protect_calls
        } else {
            self.protect_calls + 1
        };
        Pages {
            mem: self.mem,
            protect_calls,
            read_tag: PhantomData,
            write_tag: PhantomData,
            exec_tag: PhantomData,
        }
    }

    /// Grants read access, leaving the bytes untouched.
    #[must_use]
    pub fn allow_read(self) -> (r: Pages<AllowRead, W, E>)
        requires
            self.protect_call_count() < u64::MAX,
        ensures
            r.bytes() == self.bytes(),
            region_mask::<AllowRead, W, E>() == region_mask::<R, W, E>() ==> r.protect_call_count()
                == self.protect_call_count(),
            region_mask::<AllowRead, W, E>() != region_mask::<R, W, E>() ==> r.protect_call_count()
                == self.protect_call_count() + 1,
    {
        self.into_prot()
    }

    /// Denies read access, leaving the bytes untouched.
    #[must_use]
    pub fn deny_read(self) -> (r: Pages<DenyRead, W, E>)
        requires
            self.protect_call_count() < u64::MAX,
        ensures
            r.bytes() == self.bytes(),
            region_mask::<DenyRead, W, E>() == region_mask::<R, W, E>() ==> r.protect_call_count()
                == self.protect_call_count(),
            region_mask::<DenyRead, W, E>() != region_mask::<R, W, E>() ==> r.protect_call_count()
                == self.protect_call_count() + 1,
    {
        self.into_prot()
    }

    /// Grants write access, leaving the bytes untouched.  When the region may
    /// be executable, prefer [`Self::allow_write_no_exec`].
    #[must_use]
    pub fn allow_write(self) -> (r: Pages<R, AllowWrite, E>)
        requires
            self.protect_call_count() < u64::MAX,
        ensures
            r.bytes() == self.bytes(),
            region_mask::<R, AllowWrite, E>() == region_mask::<R, W, E>() ==> r.protect_call_count()
                == self.protect_call_count(),
            region_mask::<R, AllowWrite, E>() != region_mask::<R, W, E>() ==> r.protect_call_count()
                == self.protect_call_count() + 1,
    {
        self.into_prot()
    }

    /// Denies write access, leaving the bytes untouched.
    #[must_use]
    pub fn deny_write(self) -> (r: Pages<R, DenyWrite, E>)
        requires
            self.protect_call_count() < u64::MAX,
        ensures
            r.bytes() == self.bytes(),
            region_mask::<R, DenyWrite, E>() == region_mask::<R, W, E>() ==> r.protect_call_count()
                == self.protect_call_count(),
            region_mask::<R, DenyWrite, E>() != region_mask::<R, W, E>() ==> r.protect_call_count()
                == self.protect_call_count() + 1,
    {
        self.into_prot()
    }

    /// Grants write access while forcing execution off, so that writable and
    /// executable are not both selected by this step.
    #[must_use]
    pub fn allow_write_no_exec(self) -> (r: Pages<R, AllowWrite, DenyExec>)
        requires
            self.protect_call_count() < u64::MAX,
        ensures
            r.bytes() == self.bytes(),
            region_mask::<R, AllowWrite, DenyExec>() == region_mask::<R, W, E>()
                ==> r.protect_call_count() == self.protect_call_count(),
            region_mask::<R, AllowWrite, DenyExec>() != region_mask::<R, W, E>()
                ==> r.protect_call_count() == self.protect_call_count() + 1,
    {
        self.into_prot()
    }

    /// Grants execute access, leaving the bytes untouched.
    ///
    /// Grant execution only to bytes that are under the caller's full
    /// control; [`Self::set_protected_exec`] also denies writes in the same
    /// step.
    #[must_use]
    pub fn allow_exec(self) -> (r: Pages<R, W, AllowExec>)
        requires
            self.protect_call_count() < u64::MAX,
        ensures
            r.bytes() == self.bytes(),
            region_mask::<R, W, AllowExec>() == region_mask::<R, W, E>() ==> r.protect_call_count()
                == self.protect_call_count(),
            region_mask::<R, W, AllowExec>() != region_mask::<R, W, E>() ==> r.protect_call_count()
                == self.protect_call_count() + 1,
    {
        self.into_prot()
    }

    /// Grants execute access while forcing writes off, so that the
    /// instructions inside the region cannot be changed while executable.
    #[must_use]
    pub fn set_protected_exec(self) -> (r: Pages<R, DenyWrite, AllowExec>)
        requires
            self.protect_call_count() < u64::MAX,
        ensures
            r.bytes() == self.bytes(),
            region_mask::<R, DenyWrite, AllowExec>() == region_mask::<R, W, E>()
                ==> r.protect_call_count() == self.protect_call_count(),
            region_mask::<R, DenyWrite, AllowExec>() != region_mask::<R, W, E>()
                ==> r.protect_call_count() == self.protect_call_count() + 1,
    {
        self.into_prot()
    }

    /// Denies execute access, leaving the bytes untouched.
    #[must_use]
    pub fn deny_exec(self) -> (r: Pages<R, W, DenyExec>)
        requires
            self.protect_call_count() < u64::MAX,
        ensures
            r.bytes() == self.bytes(),
            region_mask::<R, W, DenyExec>() == region_mask::<R, W, E>() ==> r.protect_call_count()
                == self.protect_call_count(),
            region_mask::<R, W, DenyExec>() != region_mask::<R, W, E>() ==> r.protect_call_count()
                == self.protect_call_count() + 1,
    {
        self.into_prot()
    }
}

impl<W: WritePremisionMarker, E: ExecPremisionMarker> Pages<AllowRead, W, E> {
    /// Reads the byte at `offset`.  Only defined while the read tag allows
    /// it; an offset past the end is excluded, as the matching access would
    /// be a bounds fault.
    pub fn read(&self, offset: usize) -> (b: u8)
        requires
            offset < self.bytes().len(),
        ensures
            b == self.bytes()[offset as int],
    {
        self.mem[offset]
    }
}

impl<R: ReadPremisionMarker, E: ExecPremisionMarker> Pages<R, AllowWrite, E> {
    /// Writes `value` to the byte at `offset`.  Only defined while the write
    /// tag allows it; an offset past the end is excluded, as the matching
    /// access would be a bounds fault.
    pub fn write(&mut self, offset: usize, value: u8)
        requires
            offset < old(self).bytes().len(),
        ensures
            final(self).bytes() == old(self).bytes().update(offset as int, value),
            final(self).protect_call_count() == old(self).protect_call_count(),
    {
        let elem = &mut self.mem[offset];
        *elem = value;
    }
}

/// A byte written into a region is still there after any number of steps
/// that leave the contents untouched, permission relabelings among them:
/// updating one position changes nothing else and reading it back yields the
/// written value.
pub proof fn lemma_written_byte_read_back(m: Seq<u8>, offset: int, value: u8)
    requires
        0 <= offset < m.len(),
    ensures
        m.update(offset, value)[offset] == value,
        m.update(offset, value).len() == m.len(),
        forall|j: int| 0 <= j < m.len() && j != offset ==> m.update(offset, value)[j] == m[j],
{
}

} // verus!

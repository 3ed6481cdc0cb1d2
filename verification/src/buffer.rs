//! A growable typed buffer backed by one read-write, non-executable page
//! region.
//!
//! [`PagedVec`] keeps its logical length apart from its capacity: the
//! capacity is however many whole elements fit in the backing region, and
//! the slots at or past the logical length never hold live elements.  When
//! an append would pass the capacity, the buffer requests a fresh region
//! sized by a conservative 1.5x policy, relocates the live elements and
//! releases the old region.  Two ghost counters account for the element
//! lifecycle: every element that was ever pushed is either still live or has
//! been released exactly once, by being handed back to the caller (`pop`,
//! `remove`, `set_at`) or torn down in place (`clear`).

use vstd::prelude::*;

use vstd::arithmetic::div_mod::{
    lemma_div_by_multiple, lemma_div_is_ordered, lemma_fundamental_div_mod,
    lemma_mod_division_less_than_divisor,
};
use vstd::arithmetic::mul::{lemma_mul_inequality, lemma_mul_is_commutative};
use vstd::layout::size_of;
use vstd::pervasive::unreached;

use crate::perm::{AllowRead, AllowWrite, DenyExec};
use crate::prot::{page_round_up, PAGE_SIZE};
use crate::region::Pages;

verus! {

/// The capacity aimed for when a full buffer of `cap` elements grows: one
/// and a half times the current capacity, and at least a page's worth
/// (0x1000) of elements.
pub open spec fn grown_cap(cap: int) -> int {
    if cap + cap / 2 >= 0x1000 {
        cap + cap / 2
    } else {
        0x1000
    }
}

/// A contiguous growable buffer of `T` values living in pages requested
/// directly from the OS, for bulk data whose rough size is known ahead of
/// time.
pub struct PagedVec<T> {
    data: Pages<AllowRead, AllowWrite, DenyExec>,
    elems: Vec<T>,
    pushed: Ghost<nat>,
    released: Ghost<nat>,
}

impl<T> View for PagedVec<T> {
    type V = Seq<T>;

    closed spec fn view(&self) -> Seq<T> {
        self.elems@
    }
}

impl<T> PagedVec<T> {
    /// The byte length of the backing region.
    pub closed spec fn region_len(self) -> int {
        self.data.bytes().len() as int
    }

    /// How many elements were ever successfully pushed into this buffer.
    pub closed spec fn pushed_count(self) -> nat {
        self.pushed@
    }

    /// How many elements have left this buffer again: handed back to the
    /// caller or torn down in place.
    pub closed spec fn released_count(self) -> nat {
        self.released@
    }

    /// How many whole elements the backing region can hold.
    pub open spec fn capacity_spec(self) -> int {
        self.region_len() / (size_of::<T>() as int)
    }

    /// The buffer's invariant: elements have a positive size, the live
    /// elements all fit in the page-rounded backing region, and every
    /// element ever pushed is either still live or was released exactly
    /// once.
    pub open spec fn wf(self) -> bool {
        &&& 0 < size_of::<T>()
        &&& self@.len() * (size_of::<T>() as int) <= self.region_len()
        &&& self.region_len() % (PAGE_SIZE as int) == 0
        &&& 0 < self.region_len() <= usize::MAX
        &&& self.pushed_count() == self.released_count() + self@.len()
    }

    /// Creates an empty buffer whose region holds at least `capacity`
    /// elements and at least one page.
    pub fn new(capacity: usize) -> (v: Self)
        requires
            0 < size_of::<T>(),
            capacity * (size_of::<T>() as int) <= usize::MAX - (PAGE_SIZE - 1),
        ensures
            v.wf(),
            v@ == Seq::<T>::empty(),
            v.pushed_count() == 0,
            v.released_count() == 0,
            capacity <= v.capacity_spec(),
            v.region_len() == page_round_up(
                if capacity * (size_of::<T>() as int) >= PAGE_SIZE {
                    capacity * (size_of::<T>() as int)
                } else {
                    PAGE_SIZE as int
                },
            ),
    {
        let es = core::mem::size_of::<T>();
        let bytes = capacity * es;
        let bytes_min = if bytes >= PAGE_SIZE {
            bytes
        } else {
            PAGE_SIZE
        };
        let data = Pages::new(bytes_min);
        proof {
            lemma_le_region_of_mul(capacity as int, es as int, data.bytes().len() as int);
        }
        PagedVec { data, elems: Vec::new(), pushed: Ghost(0nat), released: Ghost(0nat) }
    }

    /// The number of live elements.
    pub fn len(&self) -> (n: usize)
        ensures
            n == self@.len(),
    {
        self.elems.len()
    }

    /// The number of whole elements the backing region can hold.
    #[must_use]
    pub fn capacity(&self) -> (c: usize)
        requires
            self.wf(),
        ensures
            c == self.capacity_spec(),
    {
        self.data.len() / core::mem::size_of::<T>()
    }

    /// Appends `value` if a free slot exists, and otherwise performs no
    /// mutation and hands `value` back.  The capacity never changes.
    pub fn push_within_capacity(&mut self, value: T) -> (r: Result<(), T>)
        requires
            old(self).wf(),
        ensures
            final(self).wf(),
            final(self).region_len() == old(self).region_len(),
            final(self).capacity_spec() == old(self).capacity_spec(),
            final(self).released_count() == old(self).released_count(),
            old(self)@.len() < old(self).capacity_spec() ==> {
                &&& r is Ok
                &&& final(self)@ == old(self)@.push(value)
                &&& final(self).pushed_count() == old(self).pushed_count() + 1
            },
            old(self)@.len() >= old(self).capacity_spec() ==> {
                &&& r == Err::<(), T>(value)
                &&& final(self)@ == old(self)@
                &&& final(self).pushed_count() == old(self).pushed_count()
            },
    {
        let len = self.elems.len();
        if len < self.capacity() {
            proof {
                lemma_fits_in_region(
                    len + 1,
                    size_of::<T>() as int,
                    self.region_len(),
                );
            }
            self.elems.push(value);
            self.pushed = Ghost(self.pushed@ + 1);
            Ok(())
        } else {
            Err(value)
        }
    }

    /// Appends `value`, growing the region by the 1.5x policy first when the
    /// buffer is full.  A retry after growth cannot fail: the grown capacity
    /// strictly exceeds the old one.
    pub fn push(&mut self, value: T)
        requires
            old(self).wf(),
            old(self)@.len() >= old(self).capacity_spec() ==> grown_cap(old(self).capacity_spec())
                * (size_of::<T>() as int) <= usize::MAX - (PAGE_SIZE - 1),
        ensures
            final(self).wf(),
            final(self)@ == old(self)@.push(value),
            final(self).pushed_count() == old(self).pushed_count() + 1,
            final(self).released_count() == old(self).released_count(),
            old(self).capacity_spec() <= final(self).capacity_spec(),
            old(self)@.len() < old(self).capacity_spec() ==> {
                &&& final(self).region_len() == old(self).region_len()
                &&& final(self).capacity_spec() == old(self).capacity_spec()
            },
            old(self)@.len() >= old(self).capacity_spec() ==> final(self).region_len()
                == page_round_up(grown_cap(old(self).capacity_spec()) * (size_of::<T>() as int)),
    {
        let value = match self.push_within_capacity(value) {
            Ok(()) => {
                return ;
            },
            Err(v) => v,
        };
        let cap = self.capacity();
        proof {
            lemma_le_region_of_mul(self@.len() as int, size_of::<T>() as int, self.region_len());
            assert(grown_cap(cap as int) <= grown_cap(cap as int) * (size_of::<T>() as int)) by {
                lemma_mul_inequality(1, size_of::<T>() as int, grown_cap(cap as int));
                lemma_mul_is_commutative(size_of::<T>() as int, grown_cap(cap as int));
            };
        }
        let next = Self::get_next_cap(cap);
        self.resize(next);
        match self.push_within_capacity(value) {
            Ok(()) => (),
            Err(_) => unreached(),
        }
    }

    /// Ensures room for at least `additional` more elements, growing by the
    /// 1.5x policy; a sufficient capacity is left as it is.
    pub fn reserve(&mut self, additional: usize)
        requires
            old(self).wf(),
            old(self)@.len() + additional <= usize::MAX,
            old(self)@.len() + additional > old(self).capacity_spec() ==> grown_cap(
                old(self)@.len() + additional,
            ) * (size_of::<T>() as int) <= usize::MAX - (PAGE_SIZE - 1),
        ensures
            final(self).wf(),
            final(self)@ == old(self)@,
            final(self).pushed_count() == old(self).pushed_count(),
            final(self).released_count() == old(self).released_count(),
            old(self)@.len() + additional <= final(self).capacity_spec(),
            old(self)@.len() + additional <= old(self).capacity_spec() ==> {
                &&& final(self).region_len() == old(self).region_len()
                &&& final(self).capacity_spec() == old(self).capacity_spec()
            },
            old(self)@.len() + additional > old(self).capacity_spec() ==> final(self).region_len()
                == page_round_up(
                grown_cap(old(self)@.len() + additional) * (size_of::<T>() as int),
            ),
    {
        let len = self.elems.len();
        let needed = len + additional;
        if needed <= self.capacity() {
            return ;
        }
        proof {
            assert(grown_cap(needed as int) <= grown_cap(needed as int) * (
            size_of::<T>() as int)) by {
                lemma_mul_inequality(1, size_of::<T>() as int, grown_cap(needed as int));
                lemma_mul_is_commutative(size_of::<T>() as int, grown_cap(needed as int));
            };
        }
        let next = Self::get_next_cap(needed);
        self.resize(next);
    }

    /// Ensures room for exactly `additional` more elements, without the 1.5x
    /// speculation; page rounding may still over-allocate.  A sufficient
    /// capacity is left as it is.
    pub fn reserve_exact(&mut self, additional: usize)
        requires
            old(self).wf(),
            old(self)@.len() + additional <= usize::MAX,
            old(self)@.len() + additional > old(self).capacity_spec() ==> (old(self)@.len()
                + additional) * (size_of::<T>() as int) <= usize::MAX - (PAGE_SIZE - 1),
        ensures
            final(self).wf(),
            final(self)@ == old(self)@,
            final(self).pushed_count() == old(self).pushed_count(),
            final(self).released_count() == old(self).released_count(),
            old(self)@.len() + additional <= final(self).capacity_spec(),
            old(self)@.len() + additional <= old(self).capacity_spec() ==> {
                &&& final(self).region_len() == old(self).region_len()
                &&& final(self).capacity_spec() == old(self).capacity_spec()
            },
            old(self)@.len() + additional > old(self).capacity_spec() ==> final(self).region_len()
                == page_round_up((old(self)@.len() + additional) * (size_of::<T>() as int)),
    {
        let len = self.elems.len();
        let needed = len + additional;
        if needed <= self.capacity() {
            return ;
        }
        self.resize(needed);
    }

    /// Removes and returns the last element.  An empty buffer is excluded:
    /// popping it would be a precondition violation, checkable in advance
    /// through [`Self::len`].
    pub fn pop(&mut self) -> (value: T)
        requires
            old(self).wf(),
            old(self)@.len() > 0,
        ensures
            final(self).wf(),
            value == old(self)@.last(),
            final(self)@ == old(self)@.drop_last(),
            final(self).region_len() == old(self).region_len(),
            final(self).capacity_spec() == old(self).capacity_spec(),
            final(self).pushed_count() == old(self).pushed_count(),
            final(self).released_count() == old(self).released_count() + 1,
    {
        proof {
            lemma_mul_inequality(self@.len() - 1, self@.len() as int, size_of::<T>() as int);
        }
        let value = match self.elems.pop() {
            Some(v) => v,
            None => unreached(),
        };
        self.released = Ghost(self.released@ + 1);
        value
    }

    /// Removes and returns the element at `index`, shifting the elements
    /// after it one slot to the left.  An out-of-range index is excluded:
    /// it would be a precondition violation, checkable in advance through
    /// [`Self::len`].
    pub fn remove(&mut self, index: usize) -> (value: T)
        requires
            old(self).wf(),
            index < old(self)@.len(),
        ensures
            final(self).wf(),
            value == old(self)@[index as int],
            final(self)@ == old(self)@.remove(index as int),
            final(self).region_len() == old(self).region_len(),
            final(self).capacity_spec() == old(self).capacity_spec(),
            final(self).pushed_count() == old(self).pushed_count(),
            final(self).released_count() == old(self).released_count() + 1,
    {
        proof {
            lemma_mul_inequality(self@.len() - 1, self@.len() as int, size_of::<T>() as int);
        }
        let value = self.elems.remove(index);
        self.released = Ghost(self.released@ + 1);
        value
    }

    /// Tears down every live element in index order and resets the length
    /// to zero, keeping the backing region and hence the capacity.
    pub fn clear(&mut self)
        requires
            old(self).wf(),
        ensures
            final(self).wf(),
            final(self)@.len() == 0,
            final(self).region_len() == old(self).region_len(),
            final(self).capacity_spec() == old(self).capacity_spec(),
            final(self).pushed_count() == old(self).pushed_count(),
            final(self).released_count() == old(self).released_count() + old(self)@.len(),
    {
        let ghost n: nat = self.elems@.len();
        self.elems.clear();
        self.released = Ghost(self.released@ + n);
    }

    /// A read view of the live elements.
    pub fn as_slice(&self) -> (s: &[T])
        ensures
            s@ == self@,
    {
        self.elems.as_slice()
    }

    /// A reference to the element at `index`.
    pub fn get(&self, index: usize) -> (r: &T)
        requires
            index < self@.len(),
        ensures
            *r == self@[index as int],
    {
        &self.elems[index]
    }

    /// Replaces the element at `index` with `value` and hands the previous
    /// element back.
    pub fn set_at(&mut self, index: usize, value: T) -> (prev: T)
        requires
            old(self).wf(),
            index < old(self)@.len(),
        ensures
            final(self).wf(),
            prev == old(self)@[index as int],
            final(self)@ == old(self)@.update(index as int, value),
            final(self).region_len() == old(self).region_len(),
            final(self).capacity_spec() == old(self).capacity_spec(),
            final(self).pushed_count() == old(self).pushed_count() + 1,
            final(self).released_count() == old(self).released_count() + 1,
    {
        self.elems.push(value);
        let prev = self.elems.swap_remove(index);
        proof {
            assert(self.elems@ =~= old(self)@.update(index as int, value));
        }
        self.pushed = Ghost(self.pushed@ + 1);
        self.released = Ghost(self.released@ + 1);
        prev
    }

    /// The grown capacity for a full buffer of `cap` elements.
    fn get_next_cap(cap: usize) -> (r: usize)
        requires
            cap + cap / 2 <= usize::MAX,
        ensures
            r == grown_cap(cap as int),
    {
        let grown = cap + cap / 2;
        if grown >= 0x1000 {
            grown
        } else {
            0x1000
        }
    }

    /// Replaces the backing region with a fresh one holding `next_cap`
    /// elements, relocating the live elements and releasing the old region.
    fn resize(&mut self, next_cap: usize)
        requires
            old(self).wf(),
            old(self)@.len() <= next_cap,
            0 < next_cap,
            next_cap * (size_of::<T>() as int) <= usize::MAX - (PAGE_SIZE - 1),
        ensures
            final(self).wf(),
            final(self)@ == old(self)@,
            final(self).pushed_count() == old(self).pushed_count(),
            final(self).released_count() == old(self).released_count(),
            final(self).region_len() == page_round_up(next_cap * (size_of::<T>() as int)),
            next_cap <= final(self).capacity_spec(),
    {
        let es = core::mem::size_of::<T>();
        proof {
            assert(next_cap * es > 0) by {
                lemma_mul_inequality(1, next_cap as int, es as int);
            };
        }
        let bytes_cap = next_cap * es;
        let data = Pages::new(bytes_cap);
        proof {
            lemma_le_region_of_mul(next_cap as int, es as int, data.bytes().len() as int);
            lemma_mul_inequality(self@.len() as int, next_cap as int, es as int);
        }
        self.data = data;
    }
}

/// Whenever `n * size` bytes fit in the region, `n` is at most the region's
/// whole-element capacity.
proof fn lemma_le_region_of_mul(n: int, size: int, region: int)
    requires
        0 < size,
        0 <= n,
        n * size <= region,
    ensures
        n <= region / size,
{
    lemma_div_is_ordered(n * size, region, size);
    lemma_div_by_multiple(n, size);
}

/// Whenever `n` is at most the region's whole-element capacity, `n * size`
/// bytes fit in the region.
proof fn lemma_fits_in_region(n: int, size: int, region: int)
    requires
        0 < size,
        0 <= n,
        0 <= region,
        n <= region / size,
    ensures
        n * size <= region,
{
    lemma_fundamental_div_mod(region, size);
    lemma_mod_division_less_than_divisor(region, size);
    lemma_mul_inequality(n, region / size, size);
}

/// The growth policy always makes progress: a full buffer that grows ends
/// up with room for at least one more element, so a retried append cannot
/// fail, and the capacity of a buffer only ever rises.
pub proof fn lemma_growth_makes_progress(cap: int)
    requires
        0 <= cap,
    ensures
        cap < grown_cap(cap),
{
}

/// Pushing an element and then popping returns the element unchanged and
/// restores the buffer's contents.
pub proof fn lemma_push_then_pop_roundtrip<T>(s: Seq<T>, value: T)
    ensures
        s.push(value).last() == value,
        s.push(value).drop_last() == s,
{
    assert(s.push(value).drop_last() =~= s);
}

/// Removing the element at `i` removes exactly that element and keeps the
/// remaining elements in their relative order.
pub proof fn lemma_remove_keeps_order<T>(s: Seq<T>, i: int)
    requires
        0 <= i < s.len(),
    ensures
        s.remove(i).len() == s.len() - 1,
        forall|j: int| 0 <= j < i ==> s.remove(i)[j] == s[j],
        forall|j: int| i <= j < s.len() - 1 ==> s.remove(i)[j] == s[j + 1],
{
}

/// Element-lifecycle conservation: across any sequence of operations, the
/// elements ever pushed are exactly the live ones plus those released
/// exactly once, so teardowns never outnumber pushes and no element leaks.
pub proof fn lemma_lifecycle_conservation<T>(v: PagedVec<T>)
    requires
        v.wf(),
    ensures
        v.pushed_count() == v.released_count() + v@.len(),
{
}

} // verus!

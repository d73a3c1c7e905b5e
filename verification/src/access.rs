//! Access to loaned memory: which raw copy to ask of the kernel, and what to
//! make of the kernel's report of it.
//!
//! The kernel copies bytes between a loan and a buffer of the borrower, and
//! reports a status and the number of bytes it copied. A copy counts only
//! where the status is 0 and that number is the one asked for: anything else
//! means that the loan is no longer what it was when the handle was made.

use crate::abi::TaskId;
use crate::lease::{Attribute, AttributeRead, AttributeWrite, Leased};
use core::ops::Range;
use vstd::layout::size_of;
use vstd::prelude::*;

verus! {

/// One raw copy between a loan and the borrower: the loan, the place in it
/// where the copy starts, and the number of bytes that must be copied.
#[derive(Clone, Copy, Debug, PartialEq, Eq, Structural)]
pub struct Transfer {
    /// The task that lends the memory.
    pub lender: TaskId,
    /// The place of the loan in the lender's table of loans.
    pub index: usize,
    /// Distance in bytes from the start of the loan.
    pub offset: usize,
    /// Number of bytes to copy.
    pub len: usize,
}

/// The kernel's report `(rc, copied)` says that all `expected` bytes were
/// copied.
pub open spec fn copied_all(rc: u32, copied: int, expected: int) -> bool {
    rc == 0 && copied == expected
}

impl Transfer {
    /// The first byte after those of the transfer.
    pub open spec fn end(self) -> int {
        self.offset + self.len
    }

    /// Tells whether the kernel's report `(rc, copied)` of this transfer says
    /// that all of it was copied.
    pub fn completed(&self, rc: u32, copied: usize) -> (r: bool)
        ensures
            r == copied_all(rc, copied as int, self.len as int),
    {
        rc == 0 && copied == self.len
    }
}

impl<A: Attribute, T> Leased<A, T> {
    /// The copy that moves the one loaned value.
    pub open spec fn spec_transfer(&self) -> Transfer {
        Transfer {
            lender: self.lender(),
            index: self.lease_index(),
            offset: 0,
            len: size_of::<T>() as usize,
        }
    }

    /// Gives the copy that moves the one loaned value: all bytes of a `T`,
    /// from the start of the loan.
    #[verifier::when_used_as_spec(spec_transfer)]
    pub fn transfer(&self) -> (t: Transfer)
        ensures
            t == self.spec_transfer(),
            t.len == size_of::<T>(),
    {
        Transfer {
            lender: self.lender(),
            index: self.lease_index(),
            offset: 0,
            len: core::mem::size_of::<T>(),
        }
    }
}

impl<A: AttributeRead, T: Copy> Leased<A, T> {
    /// Judges a read of the loaned value. `temp` is the buffer that the kernel
    /// was given for [`Leased::transfer`], and `(rc, copied)` its report. The
    /// result is `temp` where the kernel copied a whole `T`, and `None`
    /// otherwise: the lender is gone or has changed the loan.
    pub fn read(&self, rc: u32, copied: usize, temp: T) -> (r: Option<T>)
        ensures
            r == if copied_all(rc, copied as int, size_of::<T>() as int) {
                Some(temp)
            } else {
                None
            },
    {
        if self.transfer().completed(rc, copied) {
            Some(temp)
        } else {
            None
        }
    }
}

impl<A: AttributeWrite, T: Copy> Leased<A, T> {
    /// Judges a write of the loaned value. `(rc, copied)` is the kernel's
    /// report of [`Leased::transfer`]. The result is `Ok` where the kernel
    /// copied a whole `T`, and `Err` otherwise: the lender is gone or has
    /// changed the loan.
    pub fn write(&self, rc: u32, copied: usize) -> (r: Result<(), ()>)
        ensures
            r is Ok <==> copied_all(rc, copied as int, size_of::<T>() as int),
    {
        if self.transfer().completed(rc, copied) {
            Ok(())
        } else {
            Err(())
        }
    }
}

impl<A: Attribute, T> Leased<A, [T]> {
    /// The copy that moves element `index` of the loaned slice.
    pub open spec fn spec_transfer_at(&self, index: usize) -> Transfer {
        Transfer {
            lender: self.lender(),
            index: self.lease_index(),
            offset: (index * size_of::<T>()) as usize,
            len: size_of::<T>() as usize,
        }
    }

    /// The copy that moves the elements from `range.start` up to, and without,
    /// `range.end`.
    pub open spec fn spec_transfer_range(&self, range: &Range<usize>) -> Result<Transfer, ()> {
        if range.start > range.end {
            Err(())
        } else {
            Ok(
                Transfer {
                    lender: self.lender(),
                    index: self.lease_index(),
                    offset: (range.start * size_of::<T>()) as usize,
                    len: ((range.end - range.start) * size_of::<T>()) as usize,
                },
            )
        }
    }

    /// Gives the copy that moves element `index` of the loaned slice: all
    /// bytes of a `T`, after those of the `index` elements before it.
    #[verifier::when_used_as_spec(spec_transfer_at)]
    pub fn transfer_at(&self, index: usize) -> (t: Transfer)
        requires
            self.wf(),
            index < self.len(),
        ensures
            t == self.spec_transfer_at(index),
            t.offset == index * size_of::<T>(),
            t.len == size_of::<T>(),
    {
        let size = core::mem::size_of::<T>();
        proof {
            lemma_span_fits(index as int, 1, self.len() as int, size as int);
        }
        Transfer { lender: self.lender(), index: self.lease_index(), offset: index * size, len: size }
    }

    /// Gives the copy that moves the elements from `range.start` up to, and
    /// without, `range.end`: `Err` where the range ends before it starts.
    #[verifier::when_used_as_spec(spec_transfer_range)]
    pub fn transfer_range(&self, range: &Range<usize>) -> (r: Result<Transfer, ()>)
        requires
            self.wf(),
            range.start < self.len(),
            range.end <= self.len(),
        ensures
            r == self.spec_transfer_range(range),
            r is Ok <==> range.start <= range.end,
            r matches Ok(t) ==> {
                &&& t.offset == range.start * size_of::<T>()
                &&& t.len == (range.end - range.start) * size_of::<T>()
            },
    {
        if range.start > range.end {
            return Err(());
        }
        let size = core::mem::size_of::<T>();
        let count = range.end - range.start;
        proof {
            lemma_span_fits(range.start as int, count as int, self.len() as int, size as int);
        }
        Ok(
            Transfer {
                lender: self.lender(),
                index: self.lease_index(),
                offset: range.start * size,
                len: count * size,
            },
        )
    }
}

impl<A: AttributeRead, T: Copy> Leased<A, [T]> {
    /// Judges a read of element `index`. `temp` is the buffer that the kernel
    /// was given for [`Leased::transfer_at`], and `(rc, copied)` its report.
    /// The result is `temp` where the kernel copied a whole `T`, and `None`
    /// otherwise: the lender is gone or has changed the loan.
    pub fn read_at(&self, index: usize, rc: u32, copied: usize, temp: T) -> (r: Option<T>)
        requires
            self.wf(),
            index < self.len(),
        ensures
            r == if copied_all(rc, copied as int, size_of::<T>() as int) {
                Some(temp)
            } else {
                None
            },
    {
        if self.transfer_at(index).completed(rc, copied) {
            Some(temp)
        } else {
            None
        }
    }

    /// Judges a read of the elements in `range`. `(rc, copied)` is the
    /// kernel's report of [`Leased::transfer_range`]. The result is `Ok` where
    /// the range does not end before it starts and the kernel copied every
    /// byte of its elements, and `Err` otherwise.
    pub fn read_range(&self, range: Range<usize>, rc: u32, copied: usize) -> (r: Result<(), ()>)
        requires
            self.wf(),
            range.start < self.len(),
            range.end <= self.len(),
        ensures
            r is Ok <==> range.start <= range.end && copied_all(
                rc,
                copied as int,
                (range.end - range.start) * size_of::<T>(),
            ),
    {
        match self.transfer_range(&range) {
            Err(_) => Err(()),
            Ok(t) => {
                if t.completed(rc, copied) {
                    Ok(())
                } else {
                    Err(())
                }
            },
        }
    }
}

impl<A: AttributeWrite, T: Copy> Leased<A, [T]> {
    /// Judges a write of element `index`. `(rc, copied)` is the kernel's
    /// report of [`Leased::transfer_at`]. The result is `Ok` where the kernel
    /// copied a whole `T`, and `Err` otherwise: the lender is gone or has
    /// changed the loan.
    pub fn write_at(&self, index: usize, rc: u32, copied: usize) -> (r: Result<(), ()>)
        requires
            self.wf(),
            index < self.len(),
        ensures
            r is Ok <==> copied_all(rc, copied as int, size_of::<T>() as int),
    {
        if self.transfer_at(index).completed(rc, copied) {
            Ok(())
        } else {
            Err(())
        }
    }

    /// Judges a write of the elements in `range`. `(rc, copied)` is the
    /// kernel's report of [`Leased::transfer_range`]. The result is `Ok` where
    /// the range does not end before it starts and the kernel copied every
    /// byte of its elements, and `Err` otherwise.
    pub fn write_range(&self, range: Range<usize>, rc: u32, copied: usize) -> (r: Result<(), ()>)
        requires
            self.wf(),
            range.start < self.len(),
            range.end <= self.len(),
        ensures
            r is Ok <==> range.start <= range.end && copied_all(
                rc,
                copied as int,
                (range.end - range.start) * size_of::<T>(),
            ),
    {
        match self.transfer_range(&range) {
            Err(_) => Err(()),
            Ok(t) => {
                if t.completed(rc, copied) {
                    Ok(())
                } else {
                    Err(())
                }
            },
        }
    }
}

/// `count` elements of `size` bytes each that start at element `first` of
/// `len` elements end no later than all `len` elements do.
proof fn lemma_span_fits(first: int, count: int, len: int, size: int)
    requires
        0 <= first,
        0 <= count,
        first + count <= len,
        0 <= size,
    ensures
        0 <= first * size,
        0 <= count * size,
        first * size + count * size == (first + count) * size,
        (first + count) * size <= len * size,
{
    assert(0 <= first * size) by (nonlinear_arith)
        requires
            0 <= first,
            0 <= size,
    ;
    assert(0 <= count * size) by (nonlinear_arith)
        requires
            0 <= count,
            0 <= size,
    ;
    assert(first * size + count * size == (first + count) * size) by (nonlinear_arith);
    assert((first + count) * size <= len * size) by (nonlinear_arith)
        requires
            first + count <= len,
            0 <= size,
    ;
}

/// Two handles to one loan of one `T` ask for the same bytes, whatever their
/// rights are: what is written through one is what is read through the other.
pub proof fn lemma_same_loan_same_transfer<A: Attribute, B: Attribute, T>(
    a: Leased<A, T>,
    b: Leased<B, T>,
)
    requires
        a.lender() == b.lender(),
        a.lease_index() == b.lease_index(),
    ensures
        a.transfer() == b.transfer(),
{
}

/// Two handles to one loan of a slice of `T` ask for the same bytes for the
/// same element and for the same range, whatever their rights are.
pub proof fn lemma_same_loan_same_element<A: Attribute, B: Attribute, T>(
    a: Leased<A, [T]>,
    b: Leased<B, [T]>,
    index: usize,
    range: Range<usize>,
)
    requires
        a.lender() == b.lender(),
        a.lease_index() == b.lease_index(),
    ensures
        a.transfer_at(index) == b.transfer_at(index),
        a.transfer_range(&range) == b.transfer_range(&range),
{
}

/// The bytes of an element of the slice lie inside the loan, and the bytes of
/// two different elements do not overlap.
pub proof fn lemma_elements_apart<A: Attribute, T>(lease: Leased<A, [T]>, i: usize, j: usize)
    requires
        lease.wf(),
        i < j < lease.len(),
    ensures
        lease.transfer_at(i).end() <= lease.transfer_at(j).offset,
        lease.transfer_at(j).end() <= lease.len() * size_of::<T>(),
{
    let size = size_of::<T>() as int;
    lemma_span_fits(i as int, 1, j as int, size);
    lemma_span_fits(j as int, 1, lease.len() as int, size);
    lemma_span_fits(i as int, 1, lease.len() as int, size);
}

/// The bytes of a range are those of its elements: the bytes of each element
/// in the range lie inside those of the range, which lie inside the loan.
pub proof fn lemma_range_holds_elements<A: Attribute, T>(
    lease: Leased<A, [T]>,
    range: Range<usize>,
    i: usize,
)
    requires
        lease.wf(),
        range.start <= i < range.end <= lease.len(),
    ensures
        lease.transfer_range(&range) matches Ok(t) && {
            &&& t.offset <= lease.transfer_at(i).offset
            &&& lease.transfer_at(i).end() <= t.end()
            &&& t.end() <= lease.len() * size_of::<T>()
        },
{
    let size = size_of::<T>() as int;
    let start = range.start as int;
    let end = range.end as int;
    lemma_span_fits(start, end - start, lease.len() as int, size);
    lemma_span_fits(start, i - start, end, size);
    lemma_span_fits(i as int, 1, end, size);
    lemma_span_fits(i as int, 1, lease.len() as int, size);
}

} // verus!

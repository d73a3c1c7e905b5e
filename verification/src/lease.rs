//! Handles to memory that a client has loaned for the length of one exchange.

use crate::abi::{lemma_contains_union, LeaseAttributes, LeaseInfo, TaskId};
use core::convert::Infallible;
use core::marker::PhantomData;
use core::ops::Range;
use vstd::layout::size_of;
use vstd::prelude::*;

verus! {

/// Implemented by the types that can stand in the first parameter of
/// [`Leased`] to say what a loan may be used for.
pub trait Attribute {

}

/// Implemented by the [`Attribute`] types that allow reading.
pub trait AttributeRead: Attribute {

}

/// Implemented by the [`Attribute`] types that allow writing.
pub trait AttributeWrite: Attribute {

}

/// Marks a [`Leased`] whose memory can only be read. It has no values.
pub enum R {
    Never(Infallible),
}

impl Attribute for R {

}

impl AttributeRead for R {

}

/// Marks a [`Leased`] whose memory can only be written. It has no values.
pub enum W {
    Never(Infallible),
}

impl Attribute for W {

}

impl AttributeWrite for W {

}

/// Marks a [`Leased`] whose memory can be read and written. It has no values.
pub enum RW {
    Never(Infallible),
}

impl Attribute for RW {

}

impl AttributeRead for RW {

}

impl AttributeWrite for RW {

}

/// A handle to memory of type `T` that the task `lender` has loaned with the
/// rights that `A` stands for. `T` is either one value or a slice `[E]`.
///
/// A handle is made only after the kernel has reported of the loan that it
/// exists, that its lender declared the rights that `A` needs, and that its
/// size is that of one `T`, or of a whole number of `E`. The handle owns
/// nothing: the lender may vanish at any time, so every access asks the kernel
/// again and is judged by what the kernel reports of it.
pub struct Leased<A: Attribute, T: ?Sized> {
    lender: TaskId,
    index: usize,
    len: usize,
    _attribute: PhantomData<A>,
    _content: PhantomData<T>,
}

impl<A: Attribute, T: ?Sized> Leased<A, T> {
    /// The task that lends the memory.
    pub closed spec fn spec_lender(&self) -> TaskId {
        self.lender
    }

    /// The place of the loan in the lender's table of loans.
    pub closed spec fn spec_lease_index(&self) -> usize {
        self.index
    }

    /// Gets the task that lends the memory.
    #[verifier::when_used_as_spec(spec_lender)]
    pub fn lender(&self) -> (r: TaskId)
        ensures
            r == self.spec_lender(),
    {
        self.lender
    }

    /// Gets the place of the loan in the lender's table of loans.
    #[verifier::when_used_as_spec(spec_lease_index)]
    pub fn lease_index(&self) -> (r: usize)
        ensures
            r == self.spec_lease_index(),
    {
        self.index
    }
}

/// Whether a loan reported as `info` can be used as one value of `size` bytes
/// with the rights `required`.
pub open spec fn sized_loan_fits(info: Option<LeaseInfo>, required: LeaseAttributes, size: nat) -> bool {
    match info {
        None => false,
        Some(i) => i.attributes.contains(required) && i.len == size,
    }
}

/// Whether a loan reported as `info` can be used as a slice of elements of
/// `size` bytes each with the rights `required`, of at most `max_len` elements
/// where a maximum is given.
pub open spec fn slice_loan_fits(
    info: Option<LeaseInfo>,
    required: LeaseAttributes,
    max_len: Option<u32>,
    size: nat,
) -> bool {
    match info {
        None => false,
        Some(i) => {
            &&& i.attributes.contains(required)
            &&& i.len as nat % size == 0
            &&& match max_len {
                None => true,
                Some(m) => i.len as nat / size <= m,
            }
        },
    }
}

impl<A: Attribute, T> Leased<A, T> {
    /// Checks what the kernel reports of a loan against the needs of a handle
    /// to one `T` with the rights `required_atts`.
    pub fn check_sized(info: Option<LeaseInfo>, required_atts: LeaseAttributes) -> (r: Option<()>)
        ensures
            r is Some <==> sized_loan_fits(info, required_atts, size_of::<T>()),
    {
        match info {
            None => None,
            Some(i) => {
                if !i.attributes.contains(required_atts) {
                    return None;
                }
                if i.len != core::mem::size_of::<T>() {
                    return None;
                }
                Some(())
            },
        }
    }
}

impl<A: Attribute, T> Leased<A, [T]> {
    /// The number of elements in the loaned slice.
    pub closed spec fn spec_len(&self) -> usize {
        self.len
    }

    /// The loaned slice, all of its elements together, has a size in bytes
    /// that fits in `usize`. Every handle that a constructor returns is such.
    pub open spec fn wf(&self) -> bool {
        self.spec_len() * size_of::<T>() <= usize::MAX
    }

    /// Gets the number of elements in the loaned slice.
    #[verifier::when_used_as_spec(spec_len)]
    pub fn len(&self) -> (r: usize)
        ensures
            r == self.spec_len(),
    {
        self.len
    }

    /// Tells whether the loaned slice has no elements.
    pub fn is_empty(&self) -> (r: bool)
        ensures
            r == (self.len() == 0),
    {
        self.len == 0
    }

    /// Checks what the kernel reports of a loan against the needs of a handle
    /// to a slice of `T` with the rights `required_atts`, and gives the number
    /// of elements in the slice.
    pub fn check_slice(
        info: Option<LeaseInfo>,
        required_atts: LeaseAttributes,
        max_len: Option<u32>,
    ) -> (r: Option<usize>)
        requires
            size_of::<T>() > 0,
        ensures
            r is Some <==> slice_loan_fits(info, required_atts, max_len, size_of::<T>()),
            r matches Some(n) ==> info matches Some(i) && n == i.len as nat / size_of::<T>() && n
                * size_of::<T>() == i.len,
    {
        let size = core::mem::size_of::<T>();
        match info {
            None => None,
            Some(i) => {
                if !i.attributes.contains(required_atts) {
                    return None;
                }
                if i.len % size != 0 {
                    return None;
                }
                let len = i.len / size;
                if let Some(m) = max_len {
                    if len > m as usize {
                        return None;
                    }
                }
                assert(len * size == i.len) by (nonlinear_arith)
                    requires
                        size > 0,
                        i.len % size == 0,
                        len == i.len / size,
                ;
                Some(len)
            },
        }
    }
}

impl<T> Leased<R, T> {
    /// Makes a handle to one `T` that can be read, from what the kernel
    /// reports of loan `index` of `lender`: `None` where the kernel knows no
    /// such loan, where the lender did not allow reading, and where the loan
    /// is not exactly as large as a `T`.
    pub fn read_only(lender: TaskId, index: usize, info: Option<LeaseInfo>) -> (r: Option<Self>)
        ensures
            r is Some <==> sized_loan_fits(info, LeaseAttributes::read(), size_of::<T>()),
            r matches Some(l) ==> l.lender() == lender && l.lease_index() == index,
    {
        match Self::check_sized(info, LeaseAttributes::read()) {
            None => None,
            Some(_) => Some(
                Leased { lender, index, len: 1, _attribute: PhantomData, _content: PhantomData },
            ),
        }
    }
}

impl<T> Leased<R, [T]> {
    /// Makes a handle to a slice of `T` that can be read, from what the
    /// kernel reports of loan `index` of `lender`: `None` where the kernel
    /// knows no such loan, where the lender did not allow reading, where the
    /// loan's size is no multiple of the size of a `T`, and where it holds more
    /// than `max_len` elements.
    pub fn read_only_slice(
        lender: TaskId,
        index: usize,
        max_len: Option<u32>,
        info: Option<LeaseInfo>,
    ) -> (r: Option<Self>)
        requires
            size_of::<T>() > 0,
        ensures
            r is Some <==> slice_loan_fits(info, LeaseAttributes::read(), max_len, size_of::<T>()),
            r matches Some(l) ==> {
                &&& l.lender() == lender
                &&& l.lease_index() == index
                &&& l.len() == info.unwrap().len as nat / size_of::<T>()
                &&& l.len() * size_of::<T>() == info.unwrap().len
                &&& l.wf()
            },
    {
        match Self::check_slice(info, LeaseAttributes::read(), max_len) {
            None => None,
            Some(len) => Some(
                Leased { lender, index, len, _attribute: PhantomData, _content: PhantomData },
            ),
        }
    }
}

impl<T> Leased<W, T> {
    /// Makes a handle to one `T` that can be written, from what the kernel
    /// reports of loan `index` of `lender`: `None` where the kernel knows no
    /// such loan, where the lender did not allow writing, and where the loan
    /// is not exactly as large as a `T`.
    pub fn write_only(lender: TaskId, index: usize, info: Option<LeaseInfo>) -> (r: Option<Self>)
        ensures
            r is Some <==> sized_loan_fits(info, LeaseAttributes::write(), size_of::<T>()),
            r matches Some(l) ==> l.lender() == lender && l.lease_index() == index,
    {
        match Self::check_sized(info, LeaseAttributes::write()) {
            None => None,
            Some(_) => Some(
                Leased { lender, index, len: 1, _attribute: PhantomData, _content: PhantomData },
            ),
        }
    }
}

impl<T> Leased<W, [T]> {
    /// Makes a handle to a slice of `T` that can be written, from what the
    /// kernel reports of loan `index` of `lender`: `None` where the kernel
    /// knows no such loan, where the lender did not allow writing, where the
    /// loan's size is no multiple of the size of a `T`, and where it holds more
    /// than `max_len` elements.
    pub fn write_only_slice(
        lender: TaskId,
        index: usize,
        max_len: Option<u32>,
        info: Option<LeaseInfo>,
    ) -> (r: Option<Self>)
        requires
            size_of::<T>() > 0,
        ensures
            r is Some <==> slice_loan_fits(info, LeaseAttributes::write(), max_len, size_of::<T>()),
            r matches Some(l) ==> {
                &&& l.lender() == lender
                &&& l.lease_index() == index
                &&& l.len() == info.unwrap().len as nat / size_of::<T>()
                &&& l.len() * size_of::<T>() == info.unwrap().len
                &&& l.wf()
            },
    {
        match Self::check_slice(info, LeaseAttributes::write(), max_len) {
            None => None,
            Some(len) => Some(
                Leased { lender, index, len, _attribute: PhantomData, _content: PhantomData },
            ),
        }
    }
}

/// Whatever the rights of the lender and whatever is required, a loan fits
/// only where the lender declared every right that is required. To require
/// reading and writing is to require each.
pub proof fn lemma_fits_only_with_rights(
    info: Option<LeaseInfo>,
    required: LeaseAttributes,
    max_len: Option<u32>,
    size: nat,
)
    requires
        sized_loan_fits(info, required, size) || slice_loan_fits(info, required, max_len, size),
    ensures
        info is Some,
        info.unwrap().attributes.contains(required),
        required == LeaseAttributes::read().union(LeaseAttributes::write()) ==> {
            &&& info.unwrap().attributes.contains(LeaseAttributes::read())
            &&& info.unwrap().attributes.contains(LeaseAttributes::write())
        },
{
    lemma_contains_union(info.unwrap().attributes, LeaseAttributes::read(), LeaseAttributes::write());
}

/// Whatever its length `len` in bytes and the size `size` of an element, a
/// loan with the rights that are required fits as a slice exactly where `len`
/// is a multiple of `size` and the slice has no more elements than the
/// maximum, if one is given.
pub proof fn lemma_slice_fits_by_length(
    rights: LeaseAttributes,
    len: usize,
    required: LeaseAttributes,
    max_len: Option<u32>,
    size: nat,
)
    requires
        rights.contains(required),
    ensures
        slice_loan_fits(Some(LeaseInfo { attributes: rights, len }), required, max_len, size) <==> {
            &&& len as nat % size == 0
            &&& (max_len matches Some(m) ==> len as nat / size <= m)
        },
{
}

} // verus!

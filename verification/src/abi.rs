//! Plain values that pass between a task and the kernel.

use vstd::prelude::*;

verus! {

/// Names one task.
#[derive(Clone, Copy, Debug, PartialEq, Eq, Structural)]
pub struct TaskId(pub u16);

/// The number of the identity under which the kernel itself sends
/// notifications.
pub const KERNEL_TASK: u16 = 0xffff;

impl TaskId {
    /// The identity under which the kernel itself sends notifications.
    pub open spec fn spec_kernel() -> TaskId {
        TaskId(KERNEL_TASK)
    }

    /// The identity under which the kernel itself sends notifications.
    #[verifier::when_used_as_spec(spec_kernel)]
    pub fn kernel() -> (r: TaskId)
        ensures
            r == TaskId::spec_kernel(),
    {
        TaskId(KERNEL_TASK)
    }
}

/// The bit of [`LeaseAttributes`] that lets the borrower read.
pub const READ_BIT: u32 = 1;

/// The bit of [`LeaseAttributes`] that lets the borrower write.
pub const WRITE_BIT: u32 = 2;

/// Access rights of a loan, one bit for each right.
#[derive(Clone, Copy, Debug, PartialEq, Eq, Structural)]
pub struct LeaseAttributes {
    pub bits: u32,
}

impl LeaseAttributes {
    /// The borrower may read the loaned memory.
    pub open spec fn spec_read() -> LeaseAttributes {
        LeaseAttributes { bits: READ_BIT }
    }

    /// The right to read the loaned memory, and no other.
    #[verifier::when_used_as_spec(spec_read)]
    pub fn read() -> (r: LeaseAttributes)
        ensures
            r == LeaseAttributes::spec_read(),
    {
        LeaseAttributes { bits: READ_BIT }
    }

    /// The borrower may write the loaned memory.
    pub open spec fn spec_write() -> LeaseAttributes {
        LeaseAttributes { bits: WRITE_BIT }
    }

    /// The right to write the loaned memory, and no other.
    #[verifier::when_used_as_spec(spec_write)]
    pub fn write() -> (r: LeaseAttributes)
        ensures
            r == LeaseAttributes::spec_write(),
    {
        LeaseAttributes { bits: WRITE_BIT }
    }

    /// Every right in `other` is also in `self`.
    pub open spec fn spec_contains(self, other: LeaseAttributes) -> bool {
        self.bits & other.bits == other.bits
    }

    /// Tells whether every right in `other` is also in `self`.
    #[verifier::when_used_as_spec(spec_contains)]
    pub fn contains(self, other: LeaseAttributes) -> (r: bool)
        ensures
            r == self.spec_contains(other),
    {
        self.bits & other.bits == other.bits
    }

    /// The rights of `self` together with those of `other`.
    pub open spec fn spec_union(self, other: LeaseAttributes) -> LeaseAttributes {
        LeaseAttributes { bits: self.bits | other.bits }
    }

    /// Puts the rights of `self` and of `other` together.
    #[verifier::when_used_as_spec(spec_union)]
    pub fn union(self, other: LeaseAttributes) -> (r: LeaseAttributes)
        ensures
            r == self.spec_union(other),
    {
        LeaseAttributes { bits: self.bits | other.bits }
    }
}

/// What the kernel reports of one loan: its size in bytes and the rights that
/// the lender declared for it.
#[derive(Clone, Copy, Debug, PartialEq, Eq, Structural)]
pub struct LeaseInfo {
    pub attributes: LeaseAttributes,
    pub len: usize,
}

/// What a successful receive reports of the message that arrived.
#[derive(Clone, Copy, Debug, PartialEq, Eq, Structural)]
pub struct RecvMessage {
    /// The task that sent the message, or [`TaskId::kernel`] for notifications.
    pub sender: TaskId,
    /// The operation code of a message, or the notification bits.
    pub operation: u32,
    /// Length in bytes of the message as it was sent.
    pub message_len: usize,
    /// Length in bytes of the buffer that the sender holds ready for the reply.
    pub response_capacity: usize,
    /// Number of loans that came with the message.
    pub lease_count: usize,
}

/// A closed receive failed: the one task it was waiting for is gone.
#[derive(Clone, Copy, Debug, PartialEq, Eq, Structural)]
pub struct ClosedRecvError;

/// Asking for both rights is asking for each.
pub proof fn lemma_contains_union(have: LeaseAttributes, a: LeaseAttributes, b: LeaseAttributes)
    ensures
        have.contains(a.union(b)) <==> have.contains(a) && have.contains(b),
{
    let h = have.bits;
    let x = a.bits;
    let y = b.bits;
    assert((h & (x | y) == (x | y)) <==> (h & x == x && h & y == y)) by (bit_vector);
}

} // verus!

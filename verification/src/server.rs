//! What a server brings to the dispatch routines.
//!
//! Each method stands beside a predicate of the same name with `_spec` behind
//! it, which says what the method may do. The predicates hold of everything
//! unless an implementation says more, so an implementation owes nothing by
//! them; one that is itself verified can state there what its methods do, and
//! the contracts of the dispatch routines then speak of that.

use crate::abi::{RecvMessage, TaskId};
use vstd::prelude::*;

verus! {

/// Implemented by a server that also wants the notifications that the kernel
/// posts to its task.
pub trait NotificationHandler: Sized {
    /// What [`NotificationHandler::current_notification_mask`] may return.
    open spec fn current_notification_mask_spec(&self, mask: u32) -> bool {
        true
    }

    /// Gives the notification bits that the next receive accepts; with 0 it
    /// accepts none.
    fn current_notification_mask(&self) -> (mask: u32)
        ensures
            self.current_notification_mask_spec(mask),
    ;

    /// What [`NotificationHandler::handle_notification`] may make of `pre`.
    open spec fn handle_notification_spec(pre: Self, bits: u32, post: Self) -> bool {
        true
    }

    /// Takes the notification bits that arrived in place of a message.
    fn handle_notification(&mut self, bits: u32)
        ensures
            Self::handle_notification_spec(*old(self), bits, *final(self)),
    ;
}

/// Implemented by the type that lists the operations of one interface.
pub trait ServerOp: Copy {
    /// What [`ServerOp::from_u32`] may return for `code`.
    open spec fn from_u32_spec(code: u32, op: Option<Self>) -> bool {
        true
    }

    /// Finds the operation with the number `code`; `None` where the interface
    /// has none.
    fn from_u32(code: u32) -> (op: Option<Self>)
        ensures
            Self::from_u32_spec(code, op),
    ;

    /// What [`ServerOp::max_reply_size`] may return.
    open spec fn max_reply_size_spec(&self, size: usize) -> bool {
        true
    }

    /// Gives the size in bytes of the largest reply to this operation.
    fn max_reply_size(&self) -> (size: usize)
        ensures
            self.max_reply_size_spec(size),
    ;
}

/// Implemented by a server for the operations `Op` of its interface.
pub trait Server<Op: ServerOp>: Sized {
    /// What [`Server::recv_source`] may return.
    open spec fn recv_source_spec(&self, source: Option<TaskId>) -> bool {
        true
    }

    /// Names the one task to receive from, or `None` to receive from any.
    fn recv_source(&self) -> (source: Option<TaskId>)
        ensures
            self.recv_source_spec(source),
    ;

    /// What [`Server::closed_recv_fail`] may make of `pre`.
    open spec fn closed_recv_fail_spec(pre: Self, post: Self) -> bool {
        true
    }

    /// Told that the one task to receive from is gone.
    fn closed_recv_fail(&mut self)
        ensures
            Self::closed_recv_fail_spec(*old(self), *final(self)),
    ;

    /// What [`Server::handle`] may make of `pre`, and return.
    open spec fn handle_spec(
        pre: Self,
        op: Op,
        incoming: Seq<u8>,
        rm: RecvMessage,
        post: Self,
        result: Result<(), u32>,
    ) -> bool {
        true
    }

    /// Handles one message. With `Ok` the server has replied, or will; with
    /// `Err(code)` it leaves it to the caller to reply with `code` and no
    /// data.
    fn handle(&mut self, op: Op, incoming: &[u8], rm: &RecvMessage) -> (result: Result<(), u32>)
        ensures
            Self::handle_spec(*old(self), op, incoming@, *rm, *final(self), result),
    ;
}

} // verus!

//! One turn of a server: from what a receive returned to the reply that is
//! still to be sent.
//!
//! A turn starts with a receive, whose parameters [`recv`] and [`recv_n`]
//! give. [`dispatch`] and [`dispatch_n`] take what the receive returned, call
//! the server as far as the message deserves it, and return the reply that the
//! caller has to send, if there is one. A reply from here never carries data.

use crate::abi::{ClosedRecvError, RecvMessage, TaskId};
use crate::server::{NotificationHandler, Server, ServerOp};
use vstd::prelude::*;
use vstd::slice::slice_subrange;

verus! {

/// The code of the reply to a message whose operation the interface does not
/// have.
pub const UNKNOWN_OPERATION: u32 = 1;

/// The code of the reply to a message that is longer than the server's buffer,
/// or whose sender holds too small a buffer ready for the reply.
pub const WOULD_TRUNCATE: u32 = 2;

/// The parameters of a receive.
#[derive(Clone, Copy, Debug, PartialEq, Eq, Structural)]
pub struct Receive {
    /// The notification bits to accept.
    pub mask: u32,
    /// The one task to receive from, or `None` to receive from any.
    pub source: Option<TaskId>,
}

/// A reply without data.
#[derive(Clone, Copy, Debug, PartialEq, Eq, Structural)]
pub struct Reply {
    /// The task that the reply goes to.
    pub recipient: TaskId,
    /// The code that the reply carries.
    pub code: u32,
}

/// The reply that is left to send once the server has handled a message of
/// `sender` with `result`: none after `Ok`, the code of an `Err`.
pub open spec fn reply_after(sender: TaskId, result: Result<(), u32>) -> Option<Reply> {
    match result {
        Ok(_) => None,
        Err(code) => Some(Reply { recipient: sender, code }),
    }
}

/// The reply that turns a message of `sender` down with `code`.
pub open spec fn refusal(sender: TaskId, code: u32) -> Option<Reply> {
    Some(Reply { recipient: sender, code })
}

/// Either the message does not fit into a buffer of `buffer_len` bytes, or a
/// reply of `max_reply` bytes does not fit into the buffer that the sender
/// holds ready.
pub open spec fn would_truncate(rm: RecvMessage, buffer_len: nat, max_reply: usize) -> bool {
    rm.message_len > buffer_len || rm.response_capacity < max_reply
}

/// How a message is disposed of once its operation `op` is known to need up
/// to `max_reply` bytes for its reply: it is refused with
/// [`WOULD_TRUNCATE`], the server untouched, where something would be cut
/// short; else the server handles its first `rm.message_len` bytes once, and
/// what is left to send is [`reply_after`] that.
pub open spec fn sized_spec<S: Server<Op>, Op: ServerOp>(
    pre: S,
    buffer: Seq<u8>,
    rm: RecvMessage,
    op: Op,
    max_reply: usize,
    post: S,
    reply: Option<Reply>,
) -> bool {
    if would_truncate(rm, buffer.len(), max_reply) {
        reply == refusal(rm.sender, WOULD_TRUNCATE) && post == pre
    } else {
        exists|result: Result<(), u32>| #[trigger]
            S::handle_spec(pre, op, buffer.subrange(0, rm.message_len as int), rm, post, result)
                && reply == reply_after(rm.sender, result)
    }
}

/// How a message is disposed of once its operation code has been looked up
/// with the result `op`: with `None` it is refused with
/// [`UNKNOWN_OPERATION`], the server untouched; else it goes by
/// [`sized_spec`] for a size that the operation gives as its largest reply.
pub open spec fn resolved_spec<S: Server<Op>, Op: ServerOp>(
    pre: S,
    buffer: Seq<u8>,
    rm: RecvMessage,
    op: Option<Op>,
    post: S,
    reply: Option<Reply>,
) -> bool {
    match op {
        None => reply == refusal(rm.sender, UNKNOWN_OPERATION) && post == pre,
        Some(op) => exists|max_reply: usize| #[trigger]
            op.max_reply_size_spec(max_reply) && sized_spec(
                pre,
                buffer,
                rm,
                op,
                max_reply,
                post,
                reply,
            ),
    }
}

/// How a message from a task is disposed of: it goes by [`resolved_spec`] for
/// a result that the interface gives for its operation code.
pub open spec fn message_spec<S: Server<Op>, Op: ServerOp>(
    pre: S,
    buffer: Seq<u8>,
    rm: RecvMessage,
    post: S,
    reply: Option<Reply>,
) -> bool {
    exists|op: Option<Op>| #[trigger]
        Op::from_u32_spec(rm.operation, op) && resolved_spec(pre, buffer, rm, op, post, reply)
}

/// What [`dispatch`] does: after a failed receive it tells the server once
/// and replies nothing; a message goes by [`message_spec`].
pub open spec fn dispatch_spec<S: Server<Op>, Op: ServerOp>(
    pre: S,
    buffer: Seq<u8>,
    received: Result<RecvMessage, ClosedRecvError>,
    post: S,
    reply: Option<Reply>,
) -> bool {
    match received {
        Err(_) => reply is None && S::closed_recv_fail_spec(pre, post),
        Ok(rm) => message_spec::<S, Op>(pre, buffer, rm, post, reply),
    }
}

/// What [`dispatch_n`] does: after a failed receive it tells the server once
/// and replies nothing; what the kernel sent is handed to the server once as
/// notification bits, and nothing is replied; a message from a task goes by
/// [`message_spec`].
pub open spec fn dispatch_n_spec<S: Server<Op> + NotificationHandler, Op: ServerOp>(
    pre: S,
    buffer: Seq<u8>,
    received: Result<RecvMessage, ClosedRecvError>,
    post: S,
    reply: Option<Reply>,
) -> bool {
    match received {
        Err(_) => reply is None && S::closed_recv_fail_spec(pre, post),
        Ok(rm) => if rm.sender == TaskId::kernel() {
            reply is None && S::handle_notification_spec(pre, rm.operation, post)
        } else {
            message_spec::<S, Op>(pre, buffer, rm, post, reply)
        },
    }
}

/// Gives the parameters of the receive that starts a turn of a server
/// without notifications: no notification bits, and the source that the
/// server names.
pub fn recv<S: Server<Op>, Op: ServerOp>(server: &S) -> (r: Receive)
    ensures
        r.mask == 0,
        server.recv_source_spec(r.source),
{
    Receive { mask: 0, source: server.recv_source() }
}

/// Gives the parameters of the receive that starts a turn of a server with
/// notifications: the bits and the source that the server names.
pub fn recv_n<S: Server<Op> + NotificationHandler, Op: ServerOp>(server: &S) -> (r: Receive)
    ensures
        server.current_notification_mask_spec(r.mask),
        server.recv_source_spec(r.source),
{
    let mask = server.current_notification_mask();
    Receive { mask, source: server.recv_source() }
}

/// Disposes of one message from a task, which lies at the start of `buffer`:
/// looks its operation up, checks that neither it nor its reply would be cut
/// short, and has the server handle it.
fn dispatch_message<S: Server<Op>, Op: ServerOp>(
    buffer: &[u8],
    server: &mut S,
    rm: RecvMessage,
) -> (reply: Option<Reply>)
    ensures
        message_spec::<S, Op>(*old(server), buffer@, rm, *final(server), reply),
{
    let found = Op::from_u32(rm.operation);
    let op = match found {
        Some(op) => op,
        None => {
            let reply = Some(Reply { recipient: rm.sender, code: UNKNOWN_OPERATION });
            assert(resolved_spec::<S, Op>(*old(server), buffer@, rm, found, *server, reply));
            return reply;
        },
    };
    let max_reply = op.max_reply_size();
    let incoming_truncated = rm.message_len > buffer.len();
    let reply_would_truncate = rm.response_capacity < max_reply;
    if incoming_truncated || reply_would_truncate {
        let reply = Some(Reply { recipient: rm.sender, code: WOULD_TRUNCATE });
        assert(sized_spec::<S, Op>(*old(server), buffer@, rm, op, max_reply, *server, reply));
        assert(resolved_spec::<S, Op>(*old(server), buffer@, rm, found, *server, reply));
        return reply;
    }
    let incoming = slice_subrange(buffer, 0, rm.message_len);
    let result = server.handle(op, incoming, &rm);
    let reply = match result {
        Ok(_) => None,
        Err(code) => Some(Reply { recipient: rm.sender, code }),
    };
    assert(sized_spec::<S, Op>(*old(server), buffer@, rm, op, max_reply, *server, reply));
    assert(resolved_spec::<S, Op>(*old(server), buffer@, rm, found, *server, reply));
    reply
}

/// Takes a server without notifications through the rest of a turn.
/// `received` is what the receive with the parameters of [`recv`] returned,
/// and `buffer` the buffer that it filled. The result is the reply that the
/// caller has to send, if any.
pub fn dispatch<S: Server<Op>, Op: ServerOp>(
    buffer: &[u8],
    server: &mut S,
    received: Result<RecvMessage, ClosedRecvError>,
) -> (reply: Option<Reply>)
    ensures
        dispatch_spec::<S, Op>(*old(server), buffer@, received, *final(server), reply),
{
    match received {
        Err(_) => {
            server.closed_recv_fail();
            None
        },
        Ok(rm) => dispatch_message::<S, Op>(buffer, server, rm),
    }
}

/// Takes a server with notifications through the rest of a turn. `received`
/// is what the receive with the parameters of [`recv_n`] returned, and
/// `buffer` the buffer that it filled. The result is the reply that the
/// caller has to send, if any.
pub fn dispatch_n<S: Server<Op> + NotificationHandler, Op: ServerOp>(
    buffer: &[u8],
    server: &mut S,
    received: Result<RecvMessage, ClosedRecvError>,
) -> (reply: Option<Reply>)
    ensures
        dispatch_n_spec::<S, Op>(*old(server), buffer@, received, *final(server), reply),
{
    match received {
        Err(_) => {
            server.closed_recv_fail();
            None
        },
        Ok(rm) => {
            if rm.sender == TaskId::kernel() {
                server.handle_notification(rm.operation);
                None
            } else {
                dispatch_message::<S, Op>(buffer, server, rm)
            }
        },
    }
}

/// A message whose operation code the interface does not have is refused
/// with [`UNKNOWN_OPERATION`], and the server is not called.
pub proof fn lemma_unknown_operation<S: Server<Op>, Op: ServerOp>(
    pre: S,
    buffer: Seq<u8>,
    rm: RecvMessage,
    post: S,
    reply: Option<Reply>,
)
    requires
        message_spec::<S, Op>(pre, buffer, rm, post, reply),
        forall|op: Option<Op>| #[trigger] Op::from_u32_spec(rm.operation, op) ==> op is None,
    ensures
        reply == Some(Reply { recipient: rm.sender, code: UNKNOWN_OPERATION }),
        post == pre,
{
}

/// A message that is longer than the buffer, or whose sender holds too small
/// a buffer ready for the largest reply to its operation, is refused with
/// [`WOULD_TRUNCATE`] where the interface has its operation, and the server is
/// not called.
pub proof fn lemma_would_truncate<S: Server<Op>, Op: ServerOp>(
    pre: S,
    buffer: Seq<u8>,
    rm: RecvMessage,
    post: S,
    reply: Option<Reply>,
)
    requires
        message_spec::<S, Op>(pre, buffer, rm, post, reply),
        forall|op: Option<Op>| #[trigger] Op::from_u32_spec(rm.operation, op) ==> op is Some,
        rm.message_len > buffer.len() || forall|op: Op, max_reply: usize|
            Op::from_u32_spec(rm.operation, Some(op)) && #[trigger] op.max_reply_size_spec(
                max_reply,
            ) ==> rm.response_capacity < max_reply,
    ensures
        reply == Some(Reply { recipient: rm.sender, code: WOULD_TRUNCATE }),
        post == pre,
{
}

/// A message that fits, with a reply that fits, and whose operation the
/// interface has, reaches the server once: with the operation, the bytes of
/// the message and what the receive reported of it. After `Ok` nothing is
/// replied from here; after `Err` its code is.
pub proof fn lemma_handled<S: Server<Op>, Op: ServerOp>(
    pre: S,
    buffer: Seq<u8>,
    rm: RecvMessage,
    post: S,
    reply: Option<Reply>,
)
    requires
        message_spec::<S, Op>(pre, buffer, rm, post, reply),
        forall|op: Option<Op>| #[trigger] Op::from_u32_spec(rm.operation, op) ==> op is Some,
        rm.message_len <= buffer.len(),
        forall|op: Op, max_reply: usize|
            Op::from_u32_spec(rm.operation, Some(op)) && #[trigger] op.max_reply_size_spec(
                max_reply,
            ) ==> rm.response_capacity >= max_reply,
    ensures
        exists|op: Op, result: Result<(), u32>|
            {
                &&& Op::from_u32_spec(rm.operation, Some(op))
                &&& #[trigger] S::handle_spec(
                    pre,
                    op,
                    buffer.subrange(0, rm.message_len as int),
                    rm,
                    post,
                    result,
                )
                &&& reply == reply_after(rm.sender, result)
            },
{
    let found = choose|op: Option<Op>| #[trigger]
        Op::from_u32_spec(rm.operation, op) && resolved_spec(pre, buffer, rm, op, post, reply);
    let op = found.unwrap();
    let max_reply = choose|max_reply: usize| #[trigger]
        op.max_reply_size_spec(max_reply) && sized_spec(pre, buffer, rm, op, max_reply, post, reply);
    assert(!would_truncate(rm, buffer.len(), max_reply));
}

/// What the kernel sends to a server with notifications reaches the server
/// once as notification bits, just as it came, and nothing is replied.
pub proof fn lemma_notification<S: Server<Op> + NotificationHandler, Op: ServerOp>(
    pre: S,
    buffer: Seq<u8>,
    rm: RecvMessage,
    post: S,
    reply: Option<Reply>,
)
    requires
        dispatch_n_spec::<S, Op>(pre, buffer, Ok(rm), post, reply),
        rm.sender == TaskId::kernel(),
    ensures
        reply is None,
        S::handle_notification_spec(pre, rm.operation, post),
{
}

/// After a receive that failed because its one source is gone, the server is
/// told once and nothing is replied, with notifications and without.
pub proof fn lemma_closed_recv_fail<S: Server<Op> + NotificationHandler, Op: ServerOp>(
    pre: S,
    buffer: Seq<u8>,
    error: ClosedRecvError,
    post: S,
    reply: Option<Reply>,
)
    requires
        dispatch_spec::<S, Op>(pre, buffer, Err(error), post, reply) || dispatch_n_spec::<S, Op>(
            pre,
            buffer,
            Err(error),
            post,
            reply,
        ),
    ensures
        reply is None,
        S::closed_recv_fail_spec(pre, post),
{
}

} // verus!

//! Runtime support for servers that answer request/response messages from
//! other tasks.
//!
//! The crate holds the decisions of such a server and leaves the kernel calls
//! to its caller. [`dispatch`] and [`dispatch_n`] take what a receive returned,
//! route it to the handler and say which reply, if any, is still to be sent.
//! [`Leased`] is a handle to memory that a client has loaned for one exchange:
//! its constructors validate what the kernel reports of the loan, and its
//! accessors say which raw copy to ask for and judge what the kernel reports
//! of that copy.

pub mod abi;
pub mod access;
pub mod dispatch;
pub mod lease;
pub mod server;

pub use abi::{
    ClosedRecvError, LeaseAttributes, LeaseInfo, RecvMessage, TaskId, KERNEL_TASK, READ_BIT,
    WRITE_BIT,
};
pub use access::Transfer;
pub use dispatch::{
    dispatch, dispatch_n, recv, recv_n, Receive, Reply, UNKNOWN_OPERATION, WOULD_TRUNCATE,
};
pub use lease::{Attribute, AttributeRead, AttributeWrite, Leased, R, RW, W};
pub use server::{NotificationHandler, Server, ServerOp};

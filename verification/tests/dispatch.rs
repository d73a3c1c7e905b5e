use idol_runtime::{
    dispatch, dispatch_n, recv, recv_n, ClosedRecvError, NotificationHandler, Receive,
    RecvMessage, Reply, Server, ServerOp, TaskId, UNKNOWN_OPERATION, WOULD_TRUNCATE,
};

#[derive(Clone, Copy, Debug, PartialEq)]
enum Op {
    Ping,
    Fetch,
}

impl ServerOp for Op {
    fn from_u32(code: u32) -> Option<Self> {
        match code {
            1 => Some(Op::Ping),
            2 => Some(Op::Fetch),
            _ => None,
        }
    }

    fn max_reply_size(&self) -> usize {
        match self {
            Op::Ping => 0,
            Op::Fetch => 16,
        }
    }
}

#[derive(Debug, PartialEq)]
enum Event {
    ClosedRecvFail,
    Notification(u32),
    Handle(Op, Vec<u8>, RecvMessage),
}

struct Recorder {
    source: Option<TaskId>,
    mask: u32,
    answer: Result<(), u32>,
    events: Vec<Event>,
}

impl Recorder {
    fn answering(answer: Result<(), u32>) -> Self {
        Recorder { source: None, mask: 0, answer, events: Vec::new() }
    }
}

impl Server<Op> for Recorder {
    fn recv_source(&self) -> Option<TaskId> {
        self.source
    }

    fn closed_recv_fail(&mut self) {
        self.events.push(Event::ClosedRecvFail);
    }

    fn handle(&mut self, op: Op, incoming: &[u8], rm: &RecvMessage) -> Result<(), u32> {
        self.events.push(Event::Handle(op, incoming.to_vec(), *rm));
        self.answer
    }
}

impl NotificationHandler for Recorder {
    fn current_notification_mask(&self) -> u32 {
        self.mask
    }

    fn handle_notification(&mut self, bits: u32) {
        self.events.push(Event::Notification(bits));
    }
}

const CLIENT: TaskId = TaskId(4);

fn message(operation: u32, message_len: usize, response_capacity: usize) -> RecvMessage {
    RecvMessage { sender: CLIENT, operation, message_len, response_capacity, lease_count: 0 }
}

fn refused(code: u32) -> Option<Reply> {
    Some(Reply { recipient: CLIENT, code })
}

#[test]
fn status_codes_are_one_and_two() {
    assert_eq!(UNKNOWN_OPERATION, 1);
    assert_eq!(WOULD_TRUNCATE, 2);
}

#[test]
fn recv_accepts_no_notifications() {
    let mut server = Recorder::answering(Ok(()));
    server.mask = 0xff;
    assert_eq!(recv::<Recorder, Op>(&server), Receive { mask: 0, source: None });
    server.source = Some(TaskId(12));
    assert_eq!(recv::<Recorder, Op>(&server), Receive { mask: 0, source: Some(TaskId(12)) });
}

#[test]
fn recv_n_accepts_the_servers_mask() {
    let mut server = Recorder::answering(Ok(()));
    server.mask = 0b1010;
    assert_eq!(recv_n::<Recorder, Op>(&server), Receive { mask: 0b1010, source: None });
    server.mask = 0;
    server.source = Some(TaskId(12));
    assert_eq!(recv_n::<Recorder, Op>(&server), Receive { mask: 0, source: Some(TaskId(12)) });
}

#[test]
fn unknown_operation_is_refused_with_one() {
    let buffer = [0u8; 8];
    for code in [0u32, 3, 4, 1000, u32::MAX] {
        let mut server = Recorder::answering(Ok(()));
        let reply = dispatch::<Recorder, Op>(&buffer, &mut server, Ok(message(code, 0, 64)));
        assert_eq!(reply, refused(1));
        assert!(server.events.is_empty());
        let reply = dispatch_n::<Recorder, Op>(&buffer, &mut server, Ok(message(code, 0, 64)));
        assert_eq!(reply, refused(1));
        assert!(server.events.is_empty());
    }
}

#[test]
fn unknown_operation_comes_before_truncation() {
    let buffer = [0u8; 8];
    let mut server = Recorder::answering(Ok(()));
    let reply = dispatch::<Recorder, Op>(&buffer, &mut server, Ok(message(77, 9, 0)));
    assert_eq!(reply, refused(1));
    let reply = dispatch_n::<Recorder, Op>(&buffer, &mut server, Ok(message(77, 9, 0)));
    assert_eq!(reply, refused(1));
    assert!(server.events.is_empty());
}

#[test]
fn message_longer_than_buffer_is_refused_with_two() {
    let buffer = [0u8; 8];
    let mut server = Recorder::answering(Ok(()));
    let reply = dispatch::<Recorder, Op>(&buffer, &mut server, Ok(message(1, 9, 64)));
    assert_eq!(reply, refused(2));
    let reply = dispatch::<Recorder, Op>(&buffer, &mut server, Ok(message(1, usize::MAX, 64)));
    assert_eq!(reply, refused(2));
    assert!(server.events.is_empty());
}

#[test]
fn message_longer_than_buffer_is_refused_with_two_with_notifications() {
    let buffer = [0u8; 8];
    let mut server = Recorder::answering(Ok(()));
    let reply = dispatch_n::<Recorder, Op>(&buffer, &mut server, Ok(message(1, 9, 64)));
    assert_eq!(reply, refused(2));
    assert!(server.events.is_empty());
}

#[test]
fn small_reply_buffer_is_refused_with_two() {
    let buffer = [0u8; 8];
    let mut server = Recorder::answering(Ok(()));
    let reply = dispatch::<Recorder, Op>(&buffer, &mut server, Ok(message(2, 4, 15)));
    assert_eq!(reply, refused(2));
    let reply = dispatch_n::<Recorder, Op>(&buffer, &mut server, Ok(message(2, 4, 15)));
    assert_eq!(reply, refused(2));
    let reply = dispatch::<Recorder, Op>(&buffer, &mut server, Ok(message(2, 4, 0)));
    assert_eq!(reply, refused(2));
    assert!(server.events.is_empty());
}

#[test]
fn message_that_just_fits_is_handled() {
    let buffer = [1u8, 2, 3, 4, 5, 6, 7, 8];
    let mut server = Recorder::answering(Ok(()));
    let rm = message(2, 8, 16);
    assert_eq!(dispatch::<Recorder, Op>(&buffer, &mut server, Ok(rm)), None);
    assert_eq!(server.events, vec![Event::Handle(Op::Fetch, buffer.to_vec(), rm)]);
}

#[test]
fn handler_gets_only_the_bytes_of_the_message() {
    let buffer = [1u8, 2, 3, 4, 5, 6, 7, 8];
    let mut server = Recorder::answering(Ok(()));
    let rm = message(1, 3, 0);
    assert_eq!(dispatch::<Recorder, Op>(&buffer, &mut server, Ok(rm)), None);
    assert_eq!(server.events, vec![Event::Handle(Op::Ping, vec![1, 2, 3], rm)]);
}

#[test]
fn handler_gets_an_empty_message() {
    let buffer = [0u8; 0];
    let mut server = Recorder::answering(Ok(()));
    let rm = message(1, 0, 0);
    assert_eq!(dispatch_n::<Recorder, Op>(&buffer, &mut server, Ok(rm)), None);
    assert_eq!(server.events, vec![Event::Handle(Op::Ping, vec![], rm)]);
}

#[test]
fn handled_message_leaves_no_reply() {
    let buffer = [0u8; 8];
    let mut server = Recorder::answering(Ok(()));
    assert_eq!(dispatch::<Recorder, Op>(&buffer, &mut server, Ok(message(1, 2, 0))), None);
    assert_eq!(dispatch_n::<Recorder, Op>(&buffer, &mut server, Ok(message(2, 2, 99))), None);
    assert_eq!(server.events.len(), 2);
}

#[test]
fn handler_error_becomes_the_reply() {
    let buffer = [0u8; 8];
    let mut server = Recorder::answering(Err(42));
    let reply = dispatch::<Recorder, Op>(&buffer, &mut server, Ok(message(1, 2, 0)));
    assert_eq!(reply, refused(42));
    let reply = dispatch_n::<Recorder, Op>(&buffer, &mut server, Ok(message(1, 2, 0)));
    assert_eq!(reply, refused(42));
    assert_eq!(server.events.len(), 2);
}

#[test]
fn handler_error_may_be_any_code() {
    let buffer = [0u8; 8];
    for code in [0u32, 1, 2, u32::MAX] {
        let mut server = Recorder::answering(Err(code));
        let reply = dispatch::<Recorder, Op>(&buffer, &mut server, Ok(message(1, 2, 0)));
        assert_eq!(reply, refused(code));
        assert_eq!(server.events.len(), 1);
    }
}

#[test]
fn reply_goes_to_the_sender() {
    let buffer = [0u8; 8];
    let mut server = Recorder::answering(Err(5));
    let mut rm = message(1, 0, 0);
    rm.sender = TaskId(0x1234);
    let reply = dispatch::<Recorder, Op>(&buffer, &mut server, Ok(rm));
    assert_eq!(reply, Some(Reply { recipient: TaskId(0x1234), code: 5 }));
    rm.operation = 9;
    let reply = dispatch::<Recorder, Op>(&buffer, &mut server, Ok(rm));
    assert_eq!(reply, Some(Reply { recipient: TaskId(0x1234), code: 1 }));
}

#[test]
fn closed_receive_failure_is_reported_once() {
    let buffer = [0u8; 8];
    let mut server = Recorder::answering(Err(5));
    assert_eq!(dispatch::<Recorder, Op>(&buffer, &mut server, Err(ClosedRecvError)), None);
    assert_eq!(server.events, vec![Event::ClosedRecvFail]);
}

#[test]
fn closed_receive_failure_is_reported_once_with_notifications() {
    let buffer = [0u8; 8];
    let mut server = Recorder::answering(Err(5));
    assert_eq!(dispatch_n::<Recorder, Op>(&buffer, &mut server, Err(ClosedRecvError)), None);
    assert_eq!(server.events, vec![Event::ClosedRecvFail]);
}

#[test]
fn notification_reaches_the_hook_with_its_bits() {
    let buffer = [0u8; 8];
    for bits in [0u32, 1, 0b1010, 0x8000_0000, u32::MAX] {
        let mut server = Recorder::answering(Err(5));
        let rm = RecvMessage {
            sender: TaskId::kernel(),
            operation: bits,
            message_len: 0,
            response_capacity: 0,
            lease_count: 0,
        };
        assert_eq!(dispatch_n::<Recorder, Op>(&buffer, &mut server, Ok(rm)), None);
        assert_eq!(server.events, vec![Event::Notification(bits)]);
    }
}

#[test]
fn notification_is_not_held_to_the_buffer() {
    let buffer = [0u8; 2];
    let mut server = Recorder::answering(Ok(()));
    let rm = RecvMessage {
        sender: TaskId::kernel(),
        operation: 1,
        message_len: 100,
        response_capacity: 0,
        lease_count: 0,
    };
    assert_eq!(dispatch_n::<Recorder, Op>(&buffer, &mut server, Ok(rm)), None);
    assert_eq!(server.events, vec![Event::Notification(1)]);
}

#[test]
fn without_notifications_the_kernel_is_a_sender_like_any() {
    let buffer = [0u8; 8];
    let mut server = Recorder::answering(Ok(()));
    let rm = RecvMessage {
        sender: TaskId::kernel(),
        operation: 9,
        message_len: 0,
        response_capacity: 0,
        lease_count: 0,
    };
    let reply = dispatch::<Recorder, Op>(&buffer, &mut server, Ok(rm));
    assert_eq!(reply, Some(Reply { recipient: TaskId::kernel(), code: 1 }));
    assert!(server.events.is_empty());
}

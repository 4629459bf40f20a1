use vstd::prelude::*;
use crate::attr::MQueueAttr;
use crate::error::{IpcError, SysError, spec_from_sys};
use crate::name::{valid_name, validate_name};
use crate::payload::Sendable;

verus! {

/// What the operating system reports after opening a queue.
#[derive(Debug, Clone, Copy, PartialEq, Eq, Structural)]
pub struct OpenedQueue {
    /// The descriptor it assigned.
    pub descriptor: i32,
    /// The queue's maximum message size, in bytes.
    pub msg_size: i64,
}

/// The outcome of opening the queue named `name`.
pub open spec fn spec_open_result(name: Seq<char>, opened: Result<OpenedQueue, SysError>) -> Result<
    OpenedQueue,
    IpcError,
> {
    if !valid_name(name) {
        Err(IpcError::NameError)
    } else {
        match opened {
            Ok(o) => Ok(o),
            Err(e) => Err(spec_from_sys(e)),
        }
    }
}

/// Whether a message of `len` bytes may be sent on a queue whose maximum
/// message size is `msg_size`.
pub open spec fn spec_send_check(msg_size: i64, len: int) -> Result<(), IpcError> {
    if len > msg_size {
        Err(IpcError::MessageTooLarge)
    } else {
        Ok(())
    }
}

/// Whether a buffer of `buf_len` bytes may receive from a queue whose
/// maximum message size is `msg_size`.
pub open spec fn spec_receive_check(msg_size: i64, buf_len: int) -> Result<(), IpcError> {
    if buf_len < msg_size {
        Err(IpcError::BufferTooSmall)
    } else {
        Ok(())
    }
}

/// The outcome of a send of `len` bytes, given what the operating system reported.
pub open spec fn spec_send_result(len: usize, status: Result<(), SysError>) -> Result<usize, IpcError> {
    match status {
        Ok(()) => Ok(len),
        Err(e) => Err(spec_from_sys(e)),
    }
}

/// The outcome of a receive into `buf_len` bytes, given the byte count or
/// failure the operating system reported.
pub open spec fn spec_receive_result(buf_len: usize, status: Result<isize, SysError>) -> Result<
    usize,
    IpcError,
> {
    match status {
        Ok(n) => if 0 <= n <= buf_len {
            Ok(n as usize)
        } else {
            Err(IpcError::SizeConversionError)
        },
        Err(e) => Err(spec_from_sys(e)),
    }
}

/// One open message queue carrying payloads of type `T`.
///
/// The value owns its descriptor; `into_descriptor` gives it up, consuming
/// the value, so a descriptor can be handed to the close call only once.
pub struct MessageQueue<T: Sendable> {
    _data_type: core::marker::PhantomData<T>,
    queue_name: String,
    descriptor: i32,
    msg_size: i64,
}

impl<T: Sendable> MessageQueue<T> {
    pub closed spec fn spec_name(&self) -> Seq<char> {
        self.queue_name@
    }

    pub closed spec fn spec_descriptor(&self) -> i32 {
        self.descriptor
    }

    pub closed spec fn spec_msg_size(&self) -> i64 {
        self.msg_size
    }

    /// The queue named `queue_name`, once the operating system has answered
    /// the open call with `opened`.
    pub fn try_new(queue_name: &str, opened: Result<OpenedQueue, SysError>) -> (r: Result<
        Self,
        IpcError,
    >)
        ensures
            r is Ok <==> spec_open_result(queue_name@, opened) is Ok,
            r matches Ok(q) ==> {
                &&& spec_open_result(queue_name@, opened) == Ok::<OpenedQueue, IpcError>(
                    OpenedQueue { descriptor: q.spec_descriptor(), msg_size: q.spec_msg_size() },
                )
                &&& q.spec_name() == queue_name@
            },
            r matches Err(e) ==> spec_open_result(queue_name@, opened) == Err::<OpenedQueue, IpcError>(e),
    {
        match validate_name(queue_name) {
            Err(e) => Err(e),
            Ok(()) => match opened {
                Err(e) => Err(IpcError::from_sys(e)),
                Ok(o) => Ok(MessageQueue {
                    _data_type: core::marker::PhantomData,
                    queue_name: queue_name.to_owned(),
                    descriptor: o.descriptor,
                    msg_size: o.msg_size,
                }),
            },
        }
    }

    /// The queue named `queue_name`, opened with attributes `attr`, once the
    /// operating system has answered the open call with a descriptor or a failure.
    pub fn try_new_with_attr(queue_name: &str, attr: &MQueueAttr, opened: Result<i32, SysError>) -> (r:
        Result<Self, IpcError>)
        ensures
            r is Ok <==> (valid_name(queue_name@) && opened is Ok),
            r matches Ok(q) ==> {
                &&& opened == Ok::<i32, SysError>(q.spec_descriptor())
                &&& q.spec_msg_size() == attr.spec_msg_size()
                &&& q.spec_name() == queue_name@
            },
            !valid_name(queue_name@) ==> r == Err::<Self, IpcError>(IpcError::NameError),
            valid_name(queue_name@) ==> (opened matches Err(e) ==> r == Err::<Self, IpcError>(
                spec_from_sys(e),
            )),
    {
        let reported = match opened {
            Ok(d) => Ok(OpenedQueue { descriptor: d, msg_size: attr.msg_size() }),
            Err(e) => Err(e),
        };
        Self::try_new(queue_name, reported)
    }

    /// The queue's name.
    pub fn name(&self) -> (r: &str)
        ensures
            r@ == self.spec_name(),
    {
        self.queue_name.as_str()
    }

    /// The descriptor the operating system assigned.
    pub fn descriptor(&self) -> (r: i32)
        ensures
            r == self.spec_descriptor(),
    {
        self.descriptor
    }

    /// The queue's maximum message size, in bytes.
    pub fn msg_size(&self) -> (r: i64)
        ensures
            r == self.spec_msg_size(),
    {
        self.msg_size
    }

    /// Gives up the descriptor so that it can be closed; the queue value is gone.
    pub fn into_descriptor(self) -> (r: i32)
        ensures
            r == self.spec_descriptor(),
    {
        self.descriptor
    }

    /// Whether `bytes` may be sent: `MessageTooLarge` when longer than the
    /// maximum message size.
    pub fn check_send(&self, bytes: &[u8]) -> (r: Result<(), IpcError>)
        ensures
            r == spec_send_check(self.spec_msg_size(), bytes@.len() as int),
    {
        if bytes.len() as u64 > i64::MAX as u64 || bytes.len() as i64 > self.msg_size {
            Err(IpcError::MessageTooLarge)
        } else {
            Ok(())
        }
    }

    /// What a send of `len` bytes returns, given what the operating system
    /// reported: the full length, or the failure translated.
    pub fn send_result(&self, len: usize, status: Result<(), SysError>) -> (r: Result<usize, IpcError>)
        ensures
            r == spec_send_result(len, status),
    {
        match status {
            Ok(()) => Ok(len),
            Err(e) => Err(IpcError::from_sys(e)),
        }
    }

    /// Whether `buffer` may receive: `BufferTooSmall` when shorter than the
    /// maximum message size, so that no message is ever cut short.
    pub fn check_receive(&self, buffer: &[u8]) -> (r: Result<(), IpcError>)
        ensures
            r == spec_receive_check(self.spec_msg_size(), buffer@.len() as int),
    {
        if (buffer.len() as u64) < (i64::MAX as u64) && (buffer.len() as i64) < self.msg_size {
            Err(IpcError::BufferTooSmall)
        } else {
            Ok(())
        }
    }

    /// What a receive into `buf_len` bytes returns, given the byte count or
    /// failure the operating system reported.
    pub fn receive_result(&self, buf_len: usize, status: Result<isize, SysError>) -> (r: Result<
        usize,
        IpcError,
    >)
        ensures
            r == spec_receive_result(buf_len, status),
    {
        match status {
            Ok(n) => {
                if n >= 0 && (n as usize) <= buf_len {
                    Ok(n as usize)
                } else {
                    Err(IpcError::SizeConversionError)
                }
            },
            Err(e) => Err(IpcError::from_sys(e)),
        }
    }
}

/// Any message a queue accepts for sending fits any buffer it accepts for
/// receiving, and a delivered message of that length is reported whole.
pub proof fn lemma_accepted_message_fits(msg_size: i64, len: usize, buf_len: usize)
    requires
        spec_send_check(msg_size, len as int) is Ok,
        spec_receive_check(msg_size, buf_len as int) is Ok,
    ensures
        len <= buf_len,
        forall|n: isize| n == len ==> #[trigger] spec_receive_result(buf_len, Ok(n)) == Ok::<
            usize,
            IpcError,
        >(len),
        spec_send_result(len, Ok(())) == Ok::<usize, IpcError>(len),
{
}

} // verus!

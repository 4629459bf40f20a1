use vstd::prelude::*;
use crate::attr::MQueueAttr;
use crate::error::{IpcError, SysError};
use crate::flags::{MMapFlags, MMapMode, MMapProt, MQueueFlags, MQueueMode, MQueueOption};
use crate::name::{queue_name_for, spec_queue_name, valid_name};
use crate::payload::Sendable;
use crate::queue::{
    MessageQueue,
    spec_receive_check,
    spec_receive_result,
    spec_send_check,
    spec_send_result,
};
use crate::shm::{MMap, SharedMem, spec_invalid_address};

verus! {

/// Number of messages a channel's queue holds before a send waits.
pub const CHANNEL_DEPTH: i64 = 10;

/// Which end of a channel an endpoint is.
#[derive(Debug, Clone, Copy, PartialEq, Eq, Structural)]
pub enum Role {
    /// Writes only.
    Sender,
    /// Reads only.
    Receiver,
}

/// The direction an endpoint opens its queue in.
pub open spec fn spec_role_mode(role: Role) -> MQueueMode {
    match role {
        Role::Sender => MQueueMode::WriteOnly,
        Role::Receiver => MQueueMode::ReadOnly,
    }
}

/// The protection an endpoint maps its segment with.
pub open spec fn spec_role_prot(role: Role) -> MMapProt {
    match role {
        Role::Sender => MMapProt::Write,
        Role::Receiver => MMapProt::Read,
    }
}

/// Everything the operating system must be asked for to open one endpoint.
pub struct EndpointRequest {
    /// The queue's name.
    pub queue_name: String,
    /// How the queue is opened.
    pub queue_flags: MQueueFlags,
    /// The attributes the queue is created with.
    pub attr: MQueueAttr,
    /// The protection of the segment's mapping.
    pub prot: MMapProt,
    /// The sharing mode and hints of the mapping.
    pub map_flags: MMapFlags,
}

/// What opening an endpoint of role `role` for payload `T` over `shm` asks for.
pub fn endpoint_request<T: Sendable, const CAP: usize>(shm: &SharedMem<T, CAP>, role: Role) -> (r:
    Result<EndpointRequest, IpcError>)
    ensures
        r is Ok <==> T::spec_data_size() <= i64::MAX,
        r is Err ==> r == Err::<EndpointRequest, IpcError>(IpcError::SizeConversionError),
        r matches Ok(q) ==> {
            &&& q.queue_name@ == spec_queue_name(shm.spec_name())
            &&& q.queue_flags.spec_mode() == spec_role_mode(role)
            &&& forall|o: MQueueOption| q.queue_flags.spec_has(o) <==> o == MQueueOption::Create
            &&& q.attr.spec_flags() == 0
            &&& q.attr.spec_max_msg() == CHANNEL_DEPTH
            &&& q.attr.spec_msg_size() == T::spec_data_size()
            &&& q.attr.spec_cur_msgs() == 0
            &&& q.prot == spec_role_prot(role)
            &&& q.map_flags.spec_mode() == MMapMode::Shared
        },
{
    let attr = match MQueueAttr::try_new_for_payload::<T>(0, CHANNEL_DEPTH, 0) {
        Some(a) => a,
        None => {
            return Err(IpcError::SizeConversionError);
        },
    };
    let (mode, prot) = match role {
        Role::Sender => (MQueueMode::WriteOnly, MMapProt::Write),
        Role::Receiver => (MQueueMode::ReadOnly, MMapProt::Read),
    };
    Ok(EndpointRequest {
        queue_name: queue_name_for(shm.name()),
        queue_flags: MQueueFlags::new(mode).with_option(MQueueOption::Create),
        attr,
        prot,
        map_flags: MMapFlags::new(MMapMode::Shared),
    })
}

/// The writing end of a channel: it can only send.
pub struct Sender<T: Sendable, const CAP: usize> {
    _mmap: MMap<T, CAP>,
    mqueue: MessageQueue<T>,
}

impl<T: Sendable, const CAP: usize> Sender<T, CAP> {
    pub closed spec fn spec_queue(&self) -> MessageQueue<T> {
        self.mqueue
    }

    pub closed spec fn spec_mapping(&self) -> MMap<T, CAP> {
        self._mmap
    }

    pub fn new(_mmap: MMap<T, CAP>, mqueue: MessageQueue<T>) -> (r: Self)
        ensures
            r.spec_queue() == mqueue,
            r.spec_mapping() == _mmap,
    {
        Sender { _mmap, mqueue }
    }

    /// The mapping of the channel's segment.
    pub fn mapping(&self) -> (r: &MMap<T, CAP>)
        ensures
            *r == self.spec_mapping(),
    {
        &self._mmap
    }

    /// The channel's queue.
    pub fn queue(&self) -> (r: &MessageQueue<T>)
        ensures
            *r == self.spec_queue(),
    {
        &self.mqueue
    }

    /// The queue descriptor to send `buf` on, or `MessageTooLarge` when `buf`
    /// is longer than the queue's maximum message size.
    pub fn prepare_write(&self, buf: &[u8]) -> (r: Result<i32, IpcError>)
        ensures
            spec_send_check(self.spec_queue().spec_msg_size(), buf@.len() as int) is Ok ==> r
                == Ok::<i32, IpcError>(self.spec_queue().spec_descriptor()),
            spec_send_check(self.spec_queue().spec_msg_size(), buf@.len() as int) matches Err(e)
                ==> r == Err::<i32, IpcError>(e),
    {
        match self.mqueue.check_send(buf) {
            Ok(()) => Ok(self.mqueue.descriptor()),
            Err(e) => Err(e),
        }
    }

    /// What writing `len` bytes returns, given what the send call reported.
    pub fn write_result(&self, len: usize, status: Result<(), SysError>) -> (r: Result<usize, IpcError>)
        ensures
            r == spec_send_result(len, status),
    {
        self.mqueue.send_result(len, status)
    }

    /// Gives up the queue and the mapping so that they can be released.
    pub fn into_parts(self) -> (r: (MMap<T, CAP>, MessageQueue<T>))
        ensures
            r == (self.spec_mapping(), self.spec_queue()),
    {
        (self._mmap, self.mqueue)
    }
}

/// The reading end of a channel: it can only receive.
pub struct Receiver<T: Sendable, const CAP: usize> {
    _mmap: MMap<T, CAP>,
    mqueue: MessageQueue<T>,
}

impl<T: Sendable, const CAP: usize> Receiver<T, CAP> {
    pub closed spec fn spec_queue(&self) -> MessageQueue<T> {
        self.mqueue
    }

    pub closed spec fn spec_mapping(&self) -> MMap<T, CAP> {
        self._mmap
    }

    pub fn new(_mmap: MMap<T, CAP>, mqueue: MessageQueue<T>) -> (r: Self)
        ensures
            r.spec_queue() == mqueue,
            r.spec_mapping() == _mmap,
    {
        Receiver { _mmap, mqueue }
    }

    /// The mapping of the channel's segment.
    pub fn mapping(&self) -> (r: &MMap<T, CAP>)
        ensures
            *r == self.spec_mapping(),
    {
        &self._mmap
    }

    /// The channel's queue.
    pub fn queue(&self) -> (r: &MessageQueue<T>)
        ensures
            *r == self.spec_queue(),
    {
        &self.mqueue
    }

    /// The queue descriptor to receive into `buf` from, or `BufferTooSmall`
    /// when `buf` is shorter than the queue's maximum message size.
    pub fn prepare_read(&self, buf: &[u8]) -> (r: Result<i32, IpcError>)
        ensures
            spec_receive_check(self.spec_queue().spec_msg_size(), buf@.len() as int) is Ok ==> r
                == Ok::<i32, IpcError>(self.spec_queue().spec_descriptor()),
            spec_receive_check(self.spec_queue().spec_msg_size(), buf@.len() as int) matches Err(e)
                ==> r == Err::<i32, IpcError>(e),
    {
        match self.mqueue.check_receive(buf) {
            Ok(()) => Ok(self.mqueue.descriptor()),
            Err(e) => Err(e),
        }
    }

    /// What reading into `buf_len` bytes returns, given what the receive call reported.
    pub fn read_result(&self, buf_len: usize, status: Result<isize, SysError>) -> (r: Result<
        usize,
        IpcError,
    >)
        ensures
            r == spec_receive_result(buf_len, status),
    {
        self.mqueue.receive_result(buf_len, status)
    }

    /// Gives up the queue and the mapping so that they can be released.
    pub fn into_parts(self) -> (r: (MMap<T, CAP>, MessageQueue<T>))
        ensures
            r == (self.spec_mapping(), self.spec_queue()),
    {
        (self._mmap, self.mqueue)
    }
}

/// When opening an endpoint over `shm` succeeds: the queue name is valid,
/// the payload's size fits, and the mapping address is valid.
pub open spec fn spec_endpoint_ok<T: Sendable, const CAP: usize>(
    shm: SharedMem<T, CAP>,
    mapped: usize,
) -> bool {
    &&& valid_name(spec_queue_name(shm.spec_name()))
    &&& T::spec_data_size() <= i64::MAX
    &&& !spec_invalid_address(mapped)
}

/// The error of a failed endpoint construction, checked in order: name,
/// size, mapping.
pub open spec fn spec_endpoint_error<T: Sendable, const CAP: usize>(
    shm: SharedMem<T, CAP>,
    mapped: usize,
) -> IpcError {
    if !valid_name(spec_queue_name(shm.spec_name())) {
        IpcError::NameError
    } else if T::spec_data_size() > i64::MAX {
        IpcError::SizeConversionError
    } else {
        IpcError::MapError
    }
}

/// Builds the endpoint parts over `shm` from the queue descriptor and
/// mapping address the operating system gave for `endpoint_request(shm, role)`.
fn endpoint_parts<T: Sendable, const CAP: usize>(
    shm: &SharedMem<T, CAP>,
    role: Role,
    queue_descriptor: i32,
    mapped: usize,
) -> (r: Result<(MMap<T, CAP>, MessageQueue<T>), IpcError>)
    ensures
        r is Ok <==> spec_endpoint_ok(*shm, mapped),
        r matches Ok((m, q)) ==> {
            &&& q.spec_name() == spec_queue_name(shm.spec_name())
            &&& q.spec_descriptor() == queue_descriptor
            &&& q.spec_msg_size() == T::spec_data_size()
            &&& m.spec_address() == mapped
            &&& m.spec_len() == shm.spec_capacity()
            &&& m.spec_prot() == spec_role_prot(role)
        },
        r matches Err(e) ==> e == spec_endpoint_error(*shm, mapped),
{
    let queue_name = queue_name_for(shm.name());
    let attr = match MQueueAttr::try_new_for_payload::<T>(0, CHANNEL_DEPTH, 0) {
        Some(a) => a,
        None => {
            if crate::name::validate_name(queue_name.as_str()).is_err() {
                return Err(IpcError::NameError);
            }
            return Err(IpcError::SizeConversionError);
        },
    };
    let mqueue = match MessageQueue::<T>::try_new_with_attr(
        queue_name.as_str(),
        &attr,
        Ok(queue_descriptor),
    ) {
        Ok(q) => q,
        Err(e) => {
            return Err(e);
        },
    };
    let prot = match role {
        Role::Sender => MMapProt::Write,
        Role::Receiver => MMapProt::Read,
    };
    let mmap = match MMap::try_new(shm, prot, Ok(mapped)) {
        Ok(m) => m,
        Err(e) => {
            return Err(e);
        },
    };
    Ok((mmap, mqueue))
}

/// The sending endpoint over `shm`, from the queue descriptor and mapping
/// address the operating system gave for `endpoint_request(shm, Role::Sender)`.
pub fn bounded_sync_sender<T: Sendable, const CAP: usize>(
    shm: &SharedMem<T, CAP>,
    queue_descriptor: i32,
    mapped: usize,
) -> (r: Result<Sender<T, CAP>, IpcError>)
    ensures
        r is Ok <==> spec_endpoint_ok(*shm, mapped),
        r matches Ok(s) ==> {
            &&& s.spec_queue().spec_name() == spec_queue_name(shm.spec_name())
            &&& s.spec_queue().spec_descriptor() == queue_descriptor
            &&& s.spec_queue().spec_msg_size() == T::spec_data_size()
            &&& s.spec_mapping().spec_address() == mapped
            &&& s.spec_mapping().spec_len() == shm.spec_capacity()
            &&& s.spec_mapping().spec_prot() == MMapProt::Write
        },
        r matches Err(e) ==> e == spec_endpoint_error(*shm, mapped),
{
    match endpoint_parts(shm, Role::Sender, queue_descriptor, mapped) {
        Ok((m, q)) => Ok(Sender::new(m, q)),
        Err(e) => Err(e),
    }
}

/// The receiving endpoint over `shm`, from the queue descriptor and mapping
/// address the operating system gave for `endpoint_request(shm, Role::Receiver)`.
pub fn bounded_sync_receiver<T: Sendable, const CAP: usize>(
    shm: &SharedMem<T, CAP>,
    queue_descriptor: i32,
    mapped: usize,
) -> (r: Result<Receiver<T, CAP>, IpcError>)
    ensures
        r is Ok <==> spec_endpoint_ok(*shm, mapped),
        r matches Ok(s) ==> {
            &&& s.spec_queue().spec_name() == spec_queue_name(shm.spec_name())
            &&& s.spec_queue().spec_descriptor() == queue_descriptor
            &&& s.spec_queue().spec_msg_size() == T::spec_data_size()
            &&& s.spec_mapping().spec_address() == mapped
            &&& s.spec_mapping().spec_len() == shm.spec_capacity()
            &&& s.spec_mapping().spec_prot() == MMapProt::Read
        },
        r matches Err(e) ==> e == spec_endpoint_error(*shm, mapped),
{
    match endpoint_parts(shm, Role::Receiver, queue_descriptor, mapped) {
        Ok((m, q)) => Ok(Receiver::new(m, q)),
        Err(e) => Err(e),
    }
}

/// On a channel whose two ends were built for payload `T`, every message the
/// sender accepts fits every buffer the receiver accepts, a send of it
/// reports its full length, and its delivery is reported with that same length.
pub proof fn lemma_channel_round_trip<T: Sendable, const CAP: usize>(
    sender: Sender<T, CAP>,
    receiver: Receiver<T, CAP>,
    len: usize,
    buf_len: usize,
)
    requires
        sender.spec_queue().spec_msg_size() == T::spec_data_size(),
        receiver.spec_queue().spec_msg_size() == T::spec_data_size(),
        spec_send_check(sender.spec_queue().spec_msg_size(), len as int) is Ok,
        spec_receive_check(receiver.spec_queue().spec_msg_size(), buf_len as int) is Ok,
    ensures
        len <= buf_len,
        spec_send_result(len, Ok(())) == Ok::<usize, IpcError>(len),
        forall|n: isize| n == len ==> #[trigger] spec_receive_result(buf_len, Ok(n)) == Ok::<
            usize,
            IpcError,
        >(len),
{
    crate::queue::lemma_accepted_message_fits(sender.spec_queue().spec_msg_size(), len, buf_len);
}

} // verus!

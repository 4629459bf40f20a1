use ipc_throughput::channel::{
    bounded_sync_receiver, bounded_sync_sender, endpoint_request, Role, CHANNEL_DEPTH,
};
use ipc_throughput::error::{IpcError, SysError};
use ipc_throughput::flags::{
    MMapFlags, MMapMode, MMapOption, MMapProt, MQueueFlags, MQueueMode, MQueueOption,
    SharedMemFlags, SharedMemMode, SharedMemOption,
};
use ipc_throughput::payload::{Sendable, TerminatedText};
use ipc_throughput::provision::{Action, Held, Phase, Provisioning, Resource, Step};
use ipc_throughput::queue::{MessageQueue, OpenedQueue};
use ipc_throughput::shm::{MMap, SharedMem};
use ipc_throughput::MQueueAttr;

const EEXIST: i32 = 17;
const EINVAL: i32 = 22;

fn text_queue(msg_size: i64) -> MessageQueue<TerminatedText> {
    MessageQueue::try_new("/test", Ok(OpenedQueue { descriptor: 5, msg_size })).unwrap()
}

#[test]
fn queue_flags_compose() {
    let f = MQueueFlags::new(MQueueMode::WriteOnly)
        .with_option(MQueueOption::Create)
        .with_option(MQueueOption::NonBlocking);
    assert_eq!(f.mode(), MQueueMode::WriteOnly);
    assert!(f.has(MQueueOption::Create));
    assert!(f.has(MQueueOption::NonBlocking));
    assert!(!f.has(MQueueOption::Exclusive));
    assert!(!f.has(MQueueOption::CloseOnExec));
}

#[test]
fn segment_and_map_flags_compose() {
    let s = SharedMemFlags::new(SharedMemMode::ReadWrite).with_option(SharedMemOption::Create);
    assert_eq!(s.mode(), SharedMemMode::ReadWrite);
    assert!(s.has(SharedMemOption::Create));
    assert!(!s.has(SharedMemOption::Truncate));
    let m = MMapFlags::new(MMapMode::Private).with_option(MMapOption::Populate);
    assert_eq!(m.mode(), MMapMode::Private);
    assert!(m.has(MMapOption::Populate));
    assert!(!m.has(MMapOption::Fixed));
}

#[test]
fn queue_open_results() {
    let q = text_queue(8192);
    assert_eq!(q.descriptor(), 5);
    assert_eq!(q.msg_size(), 8192);
    assert_eq!(q.name(), "/test");
    let bad = MessageQueue::<TerminatedText>::try_new("", Ok(OpenedQueue { descriptor: 5, msg_size: 1 }));
    assert_eq!(bad.err(), Some(IpcError::NameError));
}

#[test]
fn exclusive_create_on_existing_queue_fails_without_handle() {
    let flags = MQueueFlags::new(MQueueMode::ReadWrite)
        .with_option(MQueueOption::Create)
        .with_option(MQueueOption::Exclusive);
    assert!(flags.has(MQueueOption::Exclusive));
    let attr = MQueueAttr::new(0, 10, 8192, 0);
    let r = MessageQueue::<TerminatedText>::try_new_with_attr("/test", &attr, Err(SysError::Code(EEXIST)));
    assert_eq!(r.err(), Some(IpcError::ResourceError(EEXIST)));
}

#[test]
fn queue_open_with_attr_takes_its_size() {
    let attr = MQueueAttr::new(0, 10, 256, 0);
    let q = MessageQueue::<String>::try_new_with_attr("/q", &attr, Ok(3)).unwrap();
    assert_eq!(q.msg_size(), 256);
    assert_eq!(q.descriptor(), 3);
    assert_eq!(q.into_descriptor(), 3);
}

#[test]
fn send_size_is_checked() {
    let q = text_queue(4);
    assert_eq!(q.check_send(&[1, 2, 3, 4]), Ok(()));
    assert_eq!(q.check_send(&[1, 2, 3, 4, 5]), Err(IpcError::MessageTooLarge));
    assert_eq!(q.check_send(&[]), Ok(()));
}

#[test]
fn small_receive_buffer_is_refused() {
    let q = text_queue(8192);
    let small = vec![0u8; 8191];
    assert_eq!(q.check_receive(&small), Err(IpcError::BufferTooSmall));
    let empty: [u8; 0] = [];
    assert_eq!(q.check_receive(&empty), Err(IpcError::BufferTooSmall));
    let exact = vec![0u8; 8192];
    assert_eq!(q.check_receive(&exact), Ok(()));
    let large = vec![0u8; 9000];
    assert_eq!(q.check_receive(&large), Ok(()));
}

#[test]
fn non_blocking_send_on_full_queue_would_block() {
    let q = text_queue(8192);
    assert_eq!(q.send_result(12, Err(SysError::WouldBlock)), Err(IpcError::WouldBlock));
    assert_eq!(q.send_result(12, Err(SysError::MessageTooLarge)), Err(IpcError::MessageTooLarge));
    assert_eq!(q.send_result(12, Err(SysError::Code(EINVAL))), Err(IpcError::ResourceError(EINVAL)));
    assert_eq!(q.send_result(12, Ok(())), Ok(12));
}

#[test]
fn receive_results() {
    let q = text_queue(8192);
    assert_eq!(q.receive_result(8192, Ok(12)), Ok(12));
    assert_eq!(q.receive_result(8192, Ok(-1)), Err(IpcError::SizeConversionError));
    assert_eq!(q.receive_result(8192, Ok(9000)), Err(IpcError::SizeConversionError));
    assert_eq!(q.receive_result(8192, Err(SysError::WouldBlock)), Err(IpcError::WouldBlock));
}

#[test]
fn segment_capacity_and_mapping_length() {
    assert_eq!(SharedMem::<[u8; 16], 10>::request("test"), Ok(160));
    assert_eq!(SharedMem::<[u8; 16], 10>::request(""), Err(IpcError::NameError));
    assert_eq!(
        SharedMem::<[u8; 16], { usize::MAX }>::request("test"),
        Err(IpcError::SizeConversionError)
    );
    let seg = SharedMem::<[u8; 16], 10>::try_new("test", 7).unwrap();
    assert_eq!(seg.capacity(), 160);
    assert_eq!(seg.borrow_descriptor(), 7);
    assert_eq!(seg.name(), "test");
    let m = MMap::try_new(&seg, MMapProt::Write, Ok(0x1000)).unwrap();
    assert_eq!(m.len(), seg.capacity());
    assert_eq!(m.address(), 0x1000);
    assert_eq!(m.prot(), MMapProt::Write);
    assert!(m.in_bounds(9));
    assert!(!m.in_bounds(10));
    assert_eq!(m.into_raw(), (0x1000, 160));
    assert_eq!(seg.into_descriptor(), 7);
}

#[test]
fn failed_mapping_is_never_a_handle() {
    let seg = SharedMem::<[u8; 8], 4>::try_new("test", 7).unwrap();
    assert_eq!(MMap::try_new(&seg, MMapProt::Read, Ok(0)).err(), Some(IpcError::MapError));
    assert_eq!(MMap::try_new(&seg, MMapProt::Read, Ok(usize::MAX)).err(), Some(IpcError::MapError));
    assert_eq!(
        MMap::try_new(&seg, MMapProt::Read, Err(SysError::Code(EINVAL))).err(),
        Some(IpcError::MapError)
    );
}

#[test]
fn resize_failure_rolls_back_segment() {
    let mut p = Provisioning::for_segment(true);
    assert_eq!(p.next_action(), Action::Perform(Step::OpenSegment));
    p.succeeded(9);
    assert_eq!(p.held_count(), 1);
    assert_eq!(p.next_action(), Action::Perform(Step::ResizeSegment));
    let actions = p.failed(IpcError::ResourceError(EINVAL));
    assert_eq!(
        actions,
        vec![
            Action::Release(Held { resource: Resource::Segment, handle: 9 }),
            Action::Abort(IpcError::ResourceError(EINVAL)),
        ]
    );
    assert_eq!(p.held_count(), 0);
    assert_eq!(p.phase(), Phase::Failed(IpcError::ResourceError(EINVAL)));
    assert_eq!(p.next_action(), Action::Abort(IpcError::ResourceError(EINVAL)));
}

#[test]
fn channel_rollback_releases_in_reverse() {
    let mut p = Provisioning::for_channel(true);
    p.succeeded(3);
    p.succeeded(4);
    p.succeeded(0);
    assert_eq!(p.next_action(), Action::Perform(Step::MapSegment));
    let actions = p.failed(IpcError::MapError);
    assert_eq!(
        actions,
        vec![
            Action::Release(Held { resource: Resource::Segment, handle: 4 }),
            Action::Release(Held { resource: Resource::Queue, handle: 3 }),
            Action::Abort(IpcError::MapError),
        ]
    );
}

#[test]
fn first_step_failure_releases_nothing() {
    let mut p = Provisioning::for_channel(false);
    let actions = p.failed(IpcError::ResourceError(EEXIST));
    assert_eq!(actions, vec![Action::Abort(IpcError::ResourceError(EEXIST))]);
}

#[test]
fn complete_construction_hands_over_resources() {
    let mut p = Provisioning::for_endpoint();
    assert_eq!(p.next_action(), Action::Perform(Step::OpenQueue));
    p.succeeded(3);
    p.succeeded(0x2000);
    assert_eq!(p.phase(), Phase::Ready);
    assert_eq!(p.next_action(), Action::Finish);
    assert_eq!(
        p.into_held(),
        vec![
            Held { resource: Resource::Queue, handle: 3 },
            Held { resource: Resource::Mapping, handle: 0x2000 },
        ]
    );
}

#[test]
fn endpoint_request_for_sender_and_receiver() {
    let seg = SharedMem::<TerminatedText, 10>::try_new("test", 7).unwrap();
    let s = endpoint_request(&seg, Role::Sender).unwrap();
    assert_eq!(s.queue_name, "/test");
    assert_eq!(s.queue_flags.mode(), MQueueMode::WriteOnly);
    assert!(s.queue_flags.has(MQueueOption::Create));
    assert!(!s.queue_flags.has(MQueueOption::Exclusive));
    assert_eq!(s.attr.msg_size(), 8192);
    assert_eq!(s.attr.max_msg(), CHANNEL_DEPTH);
    assert_eq!(s.prot, MMapProt::Write);
    assert_eq!(s.map_flags.mode(), MMapMode::Shared);
    let r = endpoint_request(&seg, Role::Receiver).unwrap();
    assert_eq!(r.queue_flags.mode(), MQueueMode::ReadOnly);
    assert_eq!(r.prot, MMapProt::Read);
}

#[test]
fn hello_world_end_to_end() {
    let seg = SharedMem::<TerminatedText, 10>::try_new("test", 7).unwrap();
    let sender = bounded_sync_sender(&seg, 3, 0x1000).unwrap();
    let receiver = bounded_sync_receiver(&seg, 4, 0x2000).unwrap();
    let msg = TerminatedText::from_str("hello world").unwrap();
    let bytes = msg.encode();
    assert_eq!(sender.prepare_write(bytes), Ok(3));
    let sent = sender.write_result(bytes.len(), Ok(())).unwrap();
    assert_eq!(sent, 12);
    // The queue delivers the sent bytes unchanged.
    let mut buf = [0u8; 8192];
    assert_eq!(receiver.prepare_read(&buf), Ok(4));
    buf[..sent].copy_from_slice(bytes);
    let got = receiver.read_result(buf.len(), Ok(sent as isize)).unwrap();
    assert_eq!(got, 12);
    let text = TerminatedText::decode(&buf, got).unwrap();
    assert_eq!(text.to_bytes(), b"hello world".to_vec());
    let small = [0u8; 100];
    assert_eq!(receiver.prepare_read(&small), Err(IpcError::BufferTooSmall));
    let big = vec![1u8; 8193];
    assert_eq!(sender.prepare_write(&big), Err(IpcError::MessageTooLarge));
}

#[test]
fn endpoint_errors() {
    let seg = SharedMem::<TerminatedText, 10>::try_new("test", 7).unwrap();
    assert_eq!(bounded_sync_sender(&seg, 3, 0).err(), Some(IpcError::MapError));
    let bad = SharedMem::<TerminatedText, 10>::try_new("a\0", 7);
    assert_eq!(bad.err(), Some(IpcError::NameError));
}

#[test]
fn endpoint_parts_are_released_once() {
    let seg = SharedMem::<[u8; 8], 4>::try_new("test", 7).unwrap();
    let sender = bounded_sync_sender(&seg, 3, 0x1000).unwrap();
    let (m, q) = sender.into_parts();
    assert_eq!(m.into_raw(), (0x1000, 32));
    assert_eq!(q.into_descriptor(), 3);
}

#[test]
fn endpoint_getters() {
    let seg = SharedMem::<[u8; 8], 4>::try_new("seg", 7).unwrap();
    let receiver = bounded_sync_receiver(&seg, 4, 0x3000).unwrap();
    assert_eq!(receiver.mapping().len(), 32);
    assert_eq!(receiver.mapping().prot(), MMapProt::Read);
    assert_eq!(receiver.queue().name(), "/seg");
    assert_eq!(receiver.queue().msg_size(), 8);
}

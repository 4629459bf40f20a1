//! Resource-safe building blocks for POSIX message queues and shared-memory
//! segments, and the protocol that pairs them into single-writer /
//! single-reader channels.
//!
//! Every decision made around the operating system (name validation, sizing,
//! flag composition, interpretation of call results, release of partially
//! acquired resources) lives here with a proved contract.  The system calls
//! themselves are performed by the caller, which hands their outcomes back as
//! plain values; each handle gives up its descriptor or mapping only by being
//! consumed, so no resource can be released twice.
#![allow(unused_imports)]

pub mod attr;
pub mod channel;
pub mod error;
pub mod flags;
pub mod name;
pub mod payload;
pub mod provision;
pub mod queue;
pub mod shm;

pub use attr::MQueueAttr;
pub use channel::{
    bounded_sync_receiver,
    bounded_sync_sender,
    endpoint_request,
    EndpointRequest,
    Receiver,
    Role,
    Sender,
};
pub use error::{IpcError, SysError};
pub use flags::{
    MMapFlags,
    MMapMode,
    MMapOption,
    MMapProt,
    MQueueFlags,
    MQueueMode,
    MQueueOption,
    SharedMemFlags,
    SharedMemMode,
    SharedMemOption,
};
pub use name::{queue_name_for, validate_name};
pub use payload::{Sendable, TerminatedText, DEFAULT_DATA_SIZE};
pub use provision::{Action, Held, Phase, Provisioning, Resource, Step};
pub use queue::{MessageQueue, OpenedQueue};
pub use shm::{MMap, SharedMem};

use vstd::prelude::*;

verus! {

/// What can go wrong when opening, sizing, mapping or using a queue or segment.
#[derive(Debug, Clone, Copy, PartialEq, Eq, Structural)]
pub enum IpcError {
    /// The name is empty or holds an embedded NUL.
    NameError,
    /// The operating system refused an open, close, resize or unlink; carries its error code.
    ResourceError(i32),
    /// The mapping call failed or produced an invalid address.
    MapError,
    /// The message is longer than the queue's maximum message size.
    MessageTooLarge,
    /// The receive buffer is shorter than the queue's maximum message size.
    BufferTooSmall,
    /// A non-blocking operation found nothing to do.
    WouldBlock,
    /// A size does not fit the native integer width of the primitive.
    SizeConversionError,
}

/// Why a system call failed, as reported by the operating system.
#[derive(Debug, Clone, Copy, PartialEq, Eq, Structural)]
pub enum SysError {
    /// The call would have had to wait on a non-blocking descriptor.
    WouldBlock,
    /// The message does not fit the queue's message size.
    MessageTooLarge,
    /// Any other failure, with its error code.
    Code(i32),
}

/// The library's error for a failed system call.
pub open spec fn spec_from_sys(e: SysError) -> IpcError {
    match e {
        SysError::WouldBlock => IpcError::WouldBlock,
        SysError::MessageTooLarge => IpcError::MessageTooLarge,
        SysError::Code(c) => IpcError::ResourceError(c),
    }
}

impl IpcError {
    /// Translates an operating-system failure into the library's error.
    pub fn from_sys(e: SysError) -> (r: IpcError)
        ensures
            r == spec_from_sys(e),
    {
        match e {
            SysError::WouldBlock => IpcError::WouldBlock,
            SysError::MessageTooLarge => IpcError::MessageTooLarge,
            SysError::Code(c) => IpcError::ResourceError(c),
        }
    }
}

} // verus!

use vstd::prelude::*;

verus! {

/// The direction in which a queue is opened.
#[derive(Debug, Clone, Copy, PartialEq, Eq, Structural)]
pub enum MQueueMode {
    /// Receive only.
    ReadOnly,
    /// Send only.
    WriteOnly,
    /// Send and receive.
    ReadWrite,
}

/// An option for opening a queue.
#[derive(Debug, Clone, Copy, PartialEq, Eq, Structural)]
pub enum MQueueOption {
    /// Close the descriptor when the process executes another program.
    CloseOnExec,
    /// Create the queue if it does not exist.
    Create,
    /// Together with `Create`: fail if the queue exists.
    Exclusive,
    /// Fail with `WouldBlock` instead of waiting.
    NonBlocking,
}

/// How a queue is opened: a direction and a set of options.
pub struct MQueueFlags {
    mode: MQueueMode,
    options: Vec<MQueueOption>,
}

impl MQueueFlags {
    /// The direction these flags ask for.
    pub closed spec fn spec_mode(&self) -> MQueueMode {
        self.mode
    }

    /// True when option `o` is set.
    pub closed spec fn spec_has(&self, o: MQueueOption) -> bool {
        self.options@.contains(o)
    }

    /// Flags with mode `mode` and no option set.
    pub fn new(mode: MQueueMode) -> (r: Self)
        ensures
            r.spec_mode() == mode,
            forall|o: MQueueOption| !r.spec_has(o),
    {
        Self { mode, options: Vec::new() }
    }

    /// These flags with option `option` set as well.
    pub fn with_option(self, option: MQueueOption) -> (r: Self)
        ensures
            r.spec_mode() == self.spec_mode(),
            forall|o: MQueueOption| r.spec_has(o) <==> (self.spec_has(o) || o == option),
    {
        let mut options = self.options;
        options.push(option);
        proof {
            assert forall|o: MQueueOption| options@.contains(o) <==> (self.options@.contains(o) || o == option) by {
                if self.options@.contains(o) {
                    let k = choose|k: int| 0 <= k < self.options@.len() && self.options@[k] == o;
                    assert(options@[k] == o);
                }
                if o == option {
                    assert(options@[options@.len() - 1] == o);
                }
                if options@.contains(o) {
                    let k = choose|k: int| 0 <= k < options@.len() && options@[k] == o;
                    if k < self.options@.len() {
                        assert(self.options@[k] == o);
                    }
                }
            }
        }
        Self { mode: self.mode, options }
    }

    /// The direction these flags ask for.
    pub fn mode(&self) -> (r: MQueueMode)
        ensures
            r == self.spec_mode(),
    {
        self.mode
    }

    /// True when option `option` is set.
    pub fn has(&self, option: MQueueOption) -> (r: bool)
        ensures
            r == self.spec_has(option),
    {
        let mut i: usize = 0;
        while i < self.options.len()
            invariant
                i <= self.options@.len(),
                forall|k: int| 0 <= k < i ==> self.options@[k] != option,
            decreases self.options@.len() - i,
        {
            if self.options[i] == option {
                return true;
            }
            i = i + 1;
        }
        false
    }
}

impl MQueueFlags {
    /// True when a descriptor opened with these flags may send.
    pub open spec fn spec_can_send(&self) -> bool {
        self.spec_mode() != MQueueMode::ReadOnly
    }

    /// True when a descriptor opened with these flags may receive.
    pub open spec fn spec_can_receive(&self) -> bool {
        self.spec_mode() != MQueueMode::WriteOnly
    }
}

/// The access with which a segment is opened.
#[derive(Debug, Clone, Copy, PartialEq, Eq, Structural)]
pub enum SharedMemMode {
    /// Read only.
    ReadOnly,
    /// Read and write.
    ReadWrite,
}

/// An option for opening a segment.
#[derive(Debug, Clone, Copy, PartialEq, Eq, Structural)]
pub enum SharedMemOption {
    /// Create the segment if it does not exist.
    Create,
    /// Together with `Create`: fail if the segment exists.
    Exclusive,
    /// Cut an existing segment to length zero first.
    Truncate,
}

/// How a segment is opened: an access mode and a set of options.
pub struct SharedMemFlags {
    mode: SharedMemMode,
    options: Vec<SharedMemOption>,
}

impl SharedMemFlags {
    /// The access mode these flags ask for.
    pub closed spec fn spec_mode(&self) -> SharedMemMode {
        self.mode
    }

    /// True when option `o` is set.
    pub closed spec fn spec_has(&self, o: SharedMemOption) -> bool {
        self.options@.contains(o)
    }

    /// Flags with mode `mode` and no option set.
    pub fn new(mode: SharedMemMode) -> (r: Self)
        ensures
            r.spec_mode() == mode,
            forall|o: SharedMemOption| !r.spec_has(o),
    {
        Self { mode, options: Vec::new() }
    }

    /// These flags with option `option` set as well.
    pub fn with_option(self, option: SharedMemOption) -> (r: Self)
        ensures
            r.spec_mode() == self.spec_mode(),
            forall|o: SharedMemOption| r.spec_has(o) <==> (self.spec_has(o) || o == option),
    {
        let mut options = self.options;
        options.push(option);
        proof {
            assert forall|o: SharedMemOption| options@.contains(o) <==> (self.options@.contains(o) || o == option) by {
                if self.options@.contains(o) {
                    let k = choose|k: int| 0 <= k < self.options@.len() && self.options@[k] == o;
                    assert(options@[k] == o);
                }
                if o == option {
                    assert(options@[options@.len() - 1] == o);
                }
                if options@.contains(o) {
                    let k = choose|k: int| 0 <= k < options@.len() && options@[k] == o;
                    if k < self.options@.len() {
                        assert(self.options@[k] == o);
                    }
                }
            }
        }
        Self { mode: self.mode, options }
    }

    /// The access mode these flags ask for.
    pub fn mode(&self) -> (r: SharedMemMode)
        ensures
            r == self.spec_mode(),
    {
        self.mode
    }

    /// True when option `option` is set.
    pub fn has(&self, option: SharedMemOption) -> (r: bool)
        ensures
            r == self.spec_has(option),
    {
        let mut i: usize = 0;
        while i < self.options.len()
            invariant
                i <= self.options@.len(),
                forall|k: int| 0 <= k < i ==> self.options@[k] != option,
            decreases self.options@.len() - i,
        {
            if self.options[i] == option {
                return true;
            }
            i = i + 1;
        }
        false
    }
}

/// The protection of a mapping.
#[derive(Debug, Clone, Copy, PartialEq, Eq, Structural)]
pub enum MMapProt {
    /// No access.
    NoAccess,
    /// Readable.
    Read,
    /// Writable.
    Write,
    /// Executable.
    Exec,
}

/// Whether writes to a mapping are shared with other processes.
#[derive(Debug, Clone, Copy, PartialEq, Eq, Structural)]
pub enum MMapMode {
    /// Writes reach the segment and other mappings of it.
    Shared,
    /// As `Shared`, and unknown options are refused.
    SharedValidate,
    /// Writes stay in a private copy.
    Private,
}

/// A hint for a mapping; the operating system may ignore it.
#[derive(Debug, Clone, Copy, PartialEq, Eq, Structural)]
pub enum MMapOption {
    /// Place the mapping in the first 2 GiB.
    M32Bit,
    /// Map no segment, only zeroed memory.
    Anonymous,
    /// Ignored by current kernels.
    DenyWrite,
    /// Ignored by current kernels.
    Executable,
    /// Ignored; kept for compatibility.
    File,
    /// Place the mapping exactly at the hinted address.
    Fixed,
    /// As `Fixed`, but never over an existing mapping.
    FixedNoReplace,
    /// A stack that grows downward.
    GrowsDown,
    /// Back the mapping with huge pages.
    HugeTLB,
    /// Huge pages of 2 MiB.
    HugeTLB2MB,
    /// Huge pages of 1 GiB.
    HugeTLB1GB,
    /// Lock the pages in memory.
    Locked,
    /// Do not block on read-ahead with `Populate`.
    NonBlock,
    /// Reserve no swap space.
    NoReserve,
    /// Fault the pages in at once.
    Populate,
    /// An address suitable for a stack.
    Stack,
    /// Synchronous page faults for persistent memory.
    Sync,
}

/// How a segment is mapped: a sharing mode and a set of hints.
pub struct MMapFlags {
    mode: MMapMode,
    options: Vec<MMapOption>,
}

impl MMapFlags {
    /// The sharing mode these flags ask for.
    pub closed spec fn spec_mode(&self) -> MMapMode {
        self.mode
    }

    /// True when option `o` is set.
    pub closed spec fn spec_has(&self, o: MMapOption) -> bool {
        self.options@.contains(o)
    }

    /// Flags with mode `mode` and no option set.
    pub fn new(mode: MMapMode) -> (r: Self)
        ensures
            r.spec_mode() == mode,
            forall|o: MMapOption| !r.spec_has(o),
    {
        Self { mode, options: Vec::new() }
    }

    /// These flags with option `option` set as well.
    pub fn with_option(self, option: MMapOption) -> (r: Self)
        ensures
            r.spec_mode() == self.spec_mode(),
            forall|o: MMapOption| r.spec_has(o) <==> (self.spec_has(o) || o == option),
    {
        let mut options = self.options;
        options.push(option);
        proof {
            assert forall|o: MMapOption| options@.contains(o) <==> (self.options@.contains(o) || o == option) by {
                if self.options@.contains(o) {
                    let k = choose|k: int| 0 <= k < self.options@.len() && self.options@[k] == o;
                    assert(options@[k] == o);
                }
                if o == option {
                    assert(options@[options@.len() - 1] == o);
                }
                if options@.contains(o) {
                    let k = choose|k: int| 0 <= k < options@.len() && options@[k] == o;
                    if k < self.options@.len() {
                        assert(self.options@[k] == o);
                    }
                }
            }
        }
        Self { mode: self.mode, options }
    }

    /// The sharing mode these flags ask for.
    pub fn mode(&self) -> (r: MMapMode)
        ensures
            r == self.spec_mode(),
    {
        self.mode
    }

    /// True when option `option` is set.
    pub fn has(&self, option: MMapOption) -> (r: bool)
        ensures
            r == self.spec_has(option),
    {
        let mut i: usize = 0;
        while i < self.options.len()
            invariant
                i <= self.options@.len(),
                forall|k: int| 0 <= k < i ==> self.options@[k] != option,
            decreases self.options@.len() - i,
        {
            if self.options[i] == option {
                return true;
            }
            i = i + 1;
        }
        false
    }
}

} // verus!

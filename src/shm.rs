use vstd::prelude::*;
use crate::error::{IpcError, SysError};
use crate::flags::MMapProt;
use crate::name::{valid_name, validate_name};
use crate::payload::Sendable;

verus! {

/// Bytes a segment holding `cap` values of `T` occupies.
pub open spec fn spec_capacity_bytes<T>(cap: nat) -> int {
    (vstd::layout::size_of::<T>() * cap) as int
}

/// Whether a segment named `name` holding `cap` values of `T` can be asked
/// for, and its size in bytes when it can.
pub open spec fn spec_segment_request<T>(name: Seq<char>, cap: nat) -> Result<usize, IpcError> {
    if !valid_name(name) {
        Err(IpcError::NameError)
    } else if spec_capacity_bytes::<T>(cap) > i64::MAX || spec_capacity_bytes::<T>(cap) > usize::MAX {
        Err(IpcError::SizeConversionError)
    } else {
        Ok(spec_capacity_bytes::<T>(cap) as usize)
    }
}

/// One open shared-memory segment, sized to hold `CAP` values of `T`.
///
/// The value owns its descriptor; `into_descriptor` gives it up, consuming
/// the value, so the descriptor can be handed to the close call only once.
pub struct SharedMem<T: Sendable, const CAP: usize> {
    _data_type: core::marker::PhantomData<T>,
    shm_name: String,
    capacity: usize,
    descriptor: i32,
}

impl<T: Sendable, const CAP: usize> SharedMem<T, CAP> {
    pub closed spec fn spec_name(&self) -> Seq<char> {
        self.shm_name@
    }

    pub closed spec fn spec_capacity(&self) -> usize {
        self.capacity
    }

    pub closed spec fn spec_descriptor(&self) -> i32 {
        self.descriptor
    }

    /// The size in bytes that the segment named `shm_name` must be given:
    /// `NameError` for an invalid name, `SizeConversionError` when the size
    /// does not fit the platform's file-offset type.
    pub fn request(shm_name: &str) -> (r: Result<usize, IpcError>)
        ensures
            r == spec_segment_request::<T>(shm_name@, CAP as nat),
    {
        match validate_name(shm_name) {
            Err(e) => Err(e),
            Ok(()) => {
                let elem: usize = core::mem::size_of::<T>();
                proof {
                    let a = elem as int;
                    let b = CAP as int;
                    assert(0 <= a * b <= 0xffff_ffff_ffff_ffff * 0xffff_ffff_ffff_ffff) by (nonlinear_arith)
                        requires
                            0 <= a <= 0xffff_ffff_ffff_ffff,
                            0 <= b <= 0xffff_ffff_ffff_ffff,
                    ;
                }
                let wide: u128 = (elem as u128) * (CAP as u128);
                if wide > i64::MAX as u128 || wide > usize::MAX as u128 {
                    Err(IpcError::SizeConversionError)
                } else {
                    Ok(wide as usize)
                }
            },
        }
    }

    /// The segment named `shm_name` once it has been opened as `descriptor`
    /// and sized.
    pub fn try_new(shm_name: &str, descriptor: i32) -> (r: Result<Self, IpcError>)
        ensures
            r is Ok <==> spec_segment_request::<T>(shm_name@, CAP as nat) is Ok,
            r matches Ok(s) ==> {
                &&& s.spec_name() == shm_name@
                &&& s.spec_descriptor() == descriptor
                &&& s.spec_capacity() == spec_capacity_bytes::<T>(CAP as nat)
            },
            r matches Err(e) ==> spec_segment_request::<T>(shm_name@, CAP as nat) == Err::<
                usize,
                IpcError,
            >(e),
    {
        match Self::request(shm_name) {
            Err(e) => Err(e),
            Ok(capacity) => Ok(SharedMem {
                _data_type: core::marker::PhantomData,
                shm_name: shm_name.to_owned(),
                capacity,
                descriptor,
            }),
        }
    }

    /// The segment's name.
    pub fn name(&self) -> (r: &str)
        ensures
            r@ == self.spec_name(),
    {
        self.shm_name.as_str()
    }

    /// The segment's size in bytes.
    pub fn capacity(&self) -> (r: usize)
        ensures
            r == self.spec_capacity(),
    {
        self.capacity
    }

    /// The descriptor, for calls that only borrow it.
    pub fn borrow_descriptor(&self) -> (r: i32)
        ensures
            r == self.spec_descriptor(),
    {
        self.descriptor
    }

    /// Gives up the descriptor so that it can be closed; the segment value is gone.
    pub fn into_descriptor(self) -> (r: i32)
        ensures
            r == self.spec_descriptor(),
    {
        self.descriptor
    }
}

/// An address the mapping call may return that is not a mapping: null, or
/// the all-ones failure value.
pub open spec fn spec_invalid_address(addr: usize) -> bool {
    addr == 0 || addr == usize::MAX
}

/// One mapping of a whole segment into the address space, seen as `CAP`
/// values of `T`.
///
/// The value owns the mapping; `into_raw` gives it up, consuming the value,
/// so the region can be handed to the unmap call only once.
pub struct MMap<T: Sendable, const CAP: usize> {
    _data_type: core::marker::PhantomData<T>,
    address: usize,
    len: usize,
    prot: MMapProt,
}

impl<T: Sendable, const CAP: usize> MMap<T, CAP> {
    pub closed spec fn spec_address(&self) -> usize {
        self.address
    }

    pub closed spec fn spec_len(&self) -> usize {
        self.len
    }

    pub closed spec fn spec_prot(&self) -> MMapProt {
        self.prot
    }

    /// The mapping of `segment` with protection `prot`, once the mapping call
    /// has answered with an address or a failure.  A failure or an invalid
    /// address gives `MapError`; a mapping always spans the whole segment.
    pub fn try_new(segment: &SharedMem<T, CAP>, prot: MMapProt, mapped: Result<usize, SysError>) -> (r:
        Result<Self, IpcError>)
        ensures
            r is Ok <==> (mapped matches Ok(a) && !spec_invalid_address(a)),
            r matches Ok(m) ==> {
                &&& mapped == Ok::<usize, SysError>(m.spec_address())
                &&& m.spec_len() == segment.spec_capacity()
                &&& m.spec_prot() == prot
            },
            r is Err ==> r == Err::<Self, IpcError>(IpcError::MapError),
    {
        match mapped {
            Ok(address) => {
                if address == 0 || address == usize::MAX {
                    Err(IpcError::MapError)
                } else {
                    Ok(MMap {
                        _data_type: core::marker::PhantomData,
                        address,
                        len: segment.capacity(),
                        prot,
                    })
                }
            },
            Err(_) => Err(IpcError::MapError),
        }
    }

    /// The mapped length in bytes.
    pub fn len(&self) -> (r: usize)
        ensures
            r == self.spec_len(),
    {
        self.len
    }

    /// The base address of the mapping.
    pub fn address(&self) -> (r: usize)
        ensures
            r == self.spec_address(),
    {
        self.address
    }

    /// The mapping's protection.
    pub fn prot(&self) -> (r: MMapProt)
        ensures
            r == self.spec_prot(),
    {
        self.prot
    }

    /// Whether element `index` lies inside the mapped values.
    pub fn in_bounds(&self, index: usize) -> (r: bool)
        ensures
            r == (index < CAP),
    {
        index < CAP
    }

    /// Gives up the base address and length so that the region can be
    /// unmapped; the mapping value is gone.
    pub fn into_raw(self) -> (r: (usize, usize))
        ensures
            r == (self.spec_address(), self.spec_len()),
    {
        (self.address, self.len)
    }
}

/// A segment sized for `CAP` values of `T` and then mapped gives a mapping
/// whose length is exactly that size.
pub proof fn lemma_mapping_spans_segment<T: Sendable, const CAP: usize>(
    name: Seq<char>,
    segment: SharedMem<T, CAP>,
    mapping: MMap<T, CAP>,
)
    requires
        segment.spec_name() == name,
        segment.spec_capacity() == spec_capacity_bytes::<T>(CAP as nat),
        mapping.spec_len() == segment.spec_capacity(),
    ensures
        mapping.spec_len() == spec_capacity_bytes::<T>(CAP as nat),
        spec_segment_request::<T>(name, CAP as nat) matches Ok(c) ==> mapping.spec_len() == c,
{
}

} // verus!

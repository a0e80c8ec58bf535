//! The three closed error families of the service, and the client-side
//! union of them.
//!
//! Every fallible operation of the service reports one of these kinds;
//! `Unspecified` is the single catch-all for transport failures that carry
//! no typed error, so nothing is ever silently dropped.

use vstd::prelude::*;

verus! {

/// Errors a region allocation can report.
#[derive(Clone, Copy, Debug, PartialEq, Eq, Structural)]
pub enum AllocationError {
    /// A transport failure or malformed response stood in for a typed error.
    Unspecified,
    /// The requested size exceeds the fixed per-region maximum.
    AllocationTooLarge,
    /// A server with a total-capacity bound could not reserve the bytes.
    InsufficientMemory,
}

/// Errors a region deallocation can report.
#[derive(Clone, Copy, Debug, PartialEq, Eq, Structural)]
pub enum DeallocationError {
    /// A transport failure or malformed response stood in for a typed error.
    Unspecified,
    /// The id does not name a live region.
    InvalidMemoryAddress,
}

/// Errors a read, write, or size query can report.
#[derive(Clone, Copy, Debug, PartialEq, Eq, Structural)]
pub enum MemoryAccessError {
    /// A transport failure or malformed response stood in for a typed error.
    Unspecified,
    /// The id does not name a live region.
    InvalidMemoryAddress,
    /// The requested span ends past the region's size.
    OutOfBoundsAccess,
}

/// Any error of the service, as the key-value layer surfaces them: the
/// underlying kind is forwarded unchanged.
#[derive(Clone, Copy, Debug, PartialEq, Eq, Structural)]
pub enum MemoryError {
    AllocationError(AllocationError),
    DeallocationError(DeallocationError),
    MemoryAccessError(MemoryAccessError),
}

/// The fixed description each [`AllocationError`] kind carries.
pub open spec fn spec_allocation_error_message(e: AllocationError) -> Seq<char> {
    match e {
        AllocationError::Unspecified => "unspecified allocation failure"@,
        AllocationError::AllocationTooLarge => "requested too much memory in allocation"@,
        AllocationError::InsufficientMemory => "insufficient memory for allocation"@,
    }
}

/// The fixed description each [`DeallocationError`] kind carries.
pub open spec fn spec_deallocation_error_message(e: DeallocationError) -> Seq<char> {
    match e {
        DeallocationError::Unspecified => "unspecified deallocation failure"@,
        DeallocationError::InvalidMemoryAddress => "couldn't locate memory address to deallocate"@,
    }
}

/// The fixed description each [`MemoryAccessError`] kind carries.
pub open spec fn spec_memory_access_error_message(e: MemoryAccessError) -> Seq<char> {
    match e {
        MemoryAccessError::Unspecified => "unspecified memory access failure"@,
        MemoryAccessError::InvalidMemoryAddress => "couldn't locate memory address"@,
        MemoryAccessError::OutOfBoundsAccess => "memory access out of bounds"@,
    }
}

impl AllocationError {
    /// A fixed human-readable description of the error.
    pub fn message(&self) -> (r: &'static str)
        ensures
            r@ == spec_allocation_error_message(*self),
    {
        match self {
            AllocationError::Unspecified => "unspecified allocation failure",
            AllocationError::AllocationTooLarge => "requested too much memory in allocation",
            AllocationError::InsufficientMemory => "insufficient memory for allocation",
        }
    }
}

impl DeallocationError {
    /// A fixed human-readable description of the error.
    pub fn message(&self) -> (r: &'static str)
        ensures
            r@ == spec_deallocation_error_message(*self),
    {
        match self {
            DeallocationError::Unspecified => "unspecified deallocation failure",
            DeallocationError::InvalidMemoryAddress => "couldn't locate memory address to deallocate",
        }
    }
}

impl MemoryAccessError {
    /// A fixed human-readable description of the error.
    pub fn message(&self) -> (r: &'static str)
        ensures
            r@ == spec_memory_access_error_message(*self),
    {
        match self {
            MemoryAccessError::Unspecified => "unspecified memory access failure",
            MemoryAccessError::InvalidMemoryAddress => "couldn't locate memory address",
            MemoryAccessError::OutOfBoundsAccess => "memory access out of bounds",
        }
    }
}

impl MemoryError {
    /// A fixed human-readable description of the underlying error.
    pub fn message(&self) -> (r: &'static str)
        ensures
            (match *self {
                MemoryError::AllocationError(e) => r@ == spec_allocation_error_message(e),
                MemoryError::DeallocationError(e) => r@ == spec_deallocation_error_message(e),
                MemoryError::MemoryAccessError(e) => r@ == spec_memory_access_error_message(e),
            }),
    {
        match self {
            MemoryError::AllocationError(e) => e.message(),
            MemoryError::DeallocationError(e) => e.message(),
            MemoryError::MemoryAccessError(e) => e.message(),
        }
    }
}

impl From<AllocationError> for MemoryError {
    fn from(error: AllocationError) -> (r: MemoryError) {
        MemoryError::AllocationError(error)
    }
}

impl vstd::std_specs::convert::FromSpecImpl<AllocationError> for MemoryError {
    open spec fn obeys_from_spec() -> bool {
        true
    }

    open spec fn from_spec(error: AllocationError) -> MemoryError {
        MemoryError::AllocationError(error)
    }
}

impl From<DeallocationError> for MemoryError {
    fn from(error: DeallocationError) -> (r: MemoryError) {
        MemoryError::DeallocationError(error)
    }
}

impl vstd::std_specs::convert::FromSpecImpl<DeallocationError> for MemoryError {
    open spec fn obeys_from_spec() -> bool {
        true
    }

    open spec fn from_spec(error: DeallocationError) -> MemoryError {
        MemoryError::DeallocationError(error)
    }
}

impl From<MemoryAccessError> for MemoryError {
    fn from(error: MemoryAccessError) -> (r: MemoryError) {
        MemoryError::MemoryAccessError(error)
    }
}

impl vstd::std_specs::convert::FromSpecImpl<MemoryAccessError> for MemoryError {
    open spec fn obeys_from_spec() -> bool {
        true
    }

    open spec fn from_spec(error: MemoryAccessError) -> MemoryError {
        MemoryError::MemoryAccessError(error)
    }
}

} // verus!

//! Client-side decoding, and the typed client over the wire contract.
//!
//! Each call's outcome arrives either as a delivered response or as a bare
//! transport status. A delivered typed error code is authoritative; the
//! status mapping is the fall-back when no typed error was carried; a
//! response with an absent or senseless union degrades to `Unspecified`.
//!
//! `MemoryClient` binds the five calls end to end against a dispatcher:
//! it builds the request shape, lets the dispatcher serve it, and decodes
//! the outcome. Its contracts state that the whole round trip through the
//! wire shapes behaves exactly as the region table itself. A process
//! talking to a remote server runs the same decoding over a real
//! transport's outcomes.

use vstd::prelude::*;

use crate::errors::{AllocationError, DeallocationError, MemoryAccessError};
use crate::memory::{is_live, region_bytes, region_write, zero_region, MAX_ALLOCATION};
use crate::protocol::{
    spec_allocation_error_from_code, spec_allocation_error_of_status,
    spec_deallocation_error_from_code, spec_deallocation_error_of_status,
    spec_memory_access_error_from_code, spec_memory_access_error_of_status, AllocateRequest,
    AllocateResponse, AllocateResult, FreeRequest, FreeResponse, FreeResult, GetMemorySizeRequest,
    GetMemorySizeResponse, GetMemorySizeResult, ReadRequest, ReadResponse, ReadResult, StatusKind,
    WriteRequest, WriteResponse, WriteResult,
};
use crate::rpc::MemoryService;

verus! {

/// The typed result an allocate outcome decodes to.
pub open spec fn spec_decode_allocate(outcome: Result<AllocateResponse, StatusKind>) -> Result<
    u64,
    AllocationError,
> {
    match outcome {
        Err(k) => Err(spec_allocation_error_of_status(k)),
        Ok(resp) => match resp.result {
            Some(AllocateResult::Size(size)) => Ok(size),
            Some(AllocateResult::Error(code)) => match spec_allocation_error_from_code(
                code as int,
            ) {
                Some(e) => Err(e),
                None => Err(AllocationError::Unspecified),
            },
            None => Err(AllocationError::Unspecified),
        },
    }
}

/// Decodes an allocate outcome: a delivered typed error is authoritative,
/// a bare status falls back to the status mapping, anything malformed is
/// `Unspecified`.
pub fn decode_allocate_response(outcome: Result<AllocateResponse, StatusKind>) -> (r: Result<
    u64,
    AllocationError,
>)
    ensures
        r == spec_decode_allocate(outcome),
{
    match outcome {
        Err(k) => Err(crate::protocol::allocation_error_of_status(k)),
        Ok(resp) => match resp.result {
            Some(AllocateResult::Size(size)) => Ok(size),
            Some(AllocateResult::Error(code)) => match AllocationError::from_code(code) {
                Some(e) => Err(e),
                None => Err(AllocationError::Unspecified),
            },
            None => Err(AllocationError::Unspecified),
        },
    }
}

/// The typed result a free outcome decodes to.
pub open spec fn spec_decode_free(outcome: Result<FreeResponse, StatusKind>) -> Result<
    (),
    DeallocationError,
> {
    match outcome {
        Err(k) => Err(spec_deallocation_error_of_status(k)),
        Ok(resp) => match resp.result {
            Some(FreeResult::Done(true)) => Ok(()),
            Some(FreeResult::Error(code)) => match spec_deallocation_error_from_code(code as int) {
                Some(e) => Err(e),
                None => Err(DeallocationError::Unspecified),
            },
            _ => Err(DeallocationError::Unspecified),
        },
    }
}

/// Decodes a free outcome; an unacknowledged or absent union degrades to
/// `Unspecified`.
pub fn decode_free_response(outcome: Result<FreeResponse, StatusKind>) -> (r: Result<
    (),
    DeallocationError,
>)
    ensures
        r == spec_decode_free(outcome),
{
    match outcome {
        Err(k) => Err(crate::protocol::deallocation_error_of_status(k)),
        Ok(resp) => match resp.result {
            Some(FreeResult::Done(true)) => Ok(()),
            Some(FreeResult::Error(code)) => match DeallocationError::from_code(code) {
                Some(e) => Err(e),
                None => Err(DeallocationError::Unspecified),
            },
            _ => Err(DeallocationError::Unspecified),
        },
    }
}

/// The typed result a read outcome decodes to.
pub open spec fn spec_decode_read(outcome: Result<ReadResponse, StatusKind>) -> Result<
    Vec<u8>,
    MemoryAccessError,
> {
    match outcome {
        Err(k) => Err(spec_memory_access_error_of_status(k)),
        Ok(resp) => match resp.result {
            Some(ReadResult::Memory(memory)) => Ok(memory),
            Some(ReadResult::Error(code)) => match spec_memory_access_error_from_code(
                code as int,
            ) {
                Some(e) => Err(e),
                None => Err(MemoryAccessError::Unspecified),
            },
            None => Err(MemoryAccessError::Unspecified),
        },
    }
}

/// Decodes a read outcome; an absent union degrades to `Unspecified`.
pub fn decode_read_response(outcome: Result<ReadResponse, StatusKind>) -> (r: Result<
    Vec<u8>,
    MemoryAccessError,
>)
    ensures
        r == spec_decode_read(outcome),
{
    match outcome {
        Err(k) => Err(crate::protocol::memory_access_error_of_status(k)),
        Ok(resp) => match resp.result {
            Some(ReadResult::Memory(memory)) => Ok(memory),
            Some(ReadResult::Error(code)) => match MemoryAccessError::from_code(code) {
                Some(e) => Err(e),
                None => Err(MemoryAccessError::Unspecified),
            },
            None => Err(MemoryAccessError::Unspecified),
        },
    }
}

/// The typed result a write outcome decodes to.
pub open spec fn spec_decode_write(outcome: Result<WriteResponse, StatusKind>) -> Result<
    (),
    MemoryAccessError,
> {
    match outcome {
        Err(k) => Err(spec_memory_access_error_of_status(k)),
        Ok(resp) => match resp.result {
            Some(WriteResult::Done(true)) => Ok(()),
            Some(WriteResult::Error(code)) => match spec_memory_access_error_from_code(
                code as int,
            ) {
                Some(e) => Err(e),
                None => Err(MemoryAccessError::Unspecified),
            },
            _ => Err(MemoryAccessError::Unspecified),
        },
    }
}

/// Decodes a write outcome; an unacknowledged or absent union degrades
/// to `Unspecified`.
pub fn decode_write_response(outcome: Result<WriteResponse, StatusKind>) -> (r: Result<
    (),
    MemoryAccessError,
>)
    ensures
        r == spec_decode_write(outcome),
{
    match outcome {
        Err(k) => Err(crate::protocol::memory_access_error_of_status(k)),
        Ok(resp) => match resp.result {
            Some(WriteResult::Done(true)) => Ok(()),
            Some(WriteResult::Error(code)) => match MemoryAccessError::from_code(code) {
                Some(e) => Err(e),
                None => Err(MemoryAccessError::Unspecified),
            },
            _ => Err(MemoryAccessError::Unspecified),
        },
    }
}

/// The typed result a size-query outcome decodes to.
pub open spec fn spec_decode_get_memory_size(
    outcome: Result<GetMemorySizeResponse, StatusKind>,
) -> Result<u64, MemoryAccessError> {
    match outcome {
        Err(k) => Err(spec_memory_access_error_of_status(k)),
        Ok(resp) => match resp.result {
            Some(GetMemorySizeResult::Size(size)) => Ok(size),
            Some(GetMemorySizeResult::Error(code)) => match spec_memory_access_error_from_code(
                code as int,
            ) {
                Some(e) => Err(e),
                None => Err(MemoryAccessError::Unspecified),
            },
            None => Err(MemoryAccessError::Unspecified),
        },
    }
}

/// Decodes a size-query outcome; an absent union degrades to
/// `Unspecified`.
pub fn decode_get_memory_size_response(outcome: Result<GetMemorySizeResponse, StatusKind>) -> (r:
    Result<u64, MemoryAccessError>)
    ensures
        r == spec_decode_get_memory_size(outcome),
{
    match outcome {
        Err(k) => Err(crate::protocol::memory_access_error_of_status(k)),
        Ok(resp) => match resp.result {
            Some(GetMemorySizeResult::Size(size)) => Ok(size),
            Some(GetMemorySizeResult::Error(code)) => match MemoryAccessError::from_code(code) {
                Some(e) => Err(e),
                None => Err(MemoryAccessError::Unspecified),
            },
            None => Err(MemoryAccessError::Unspecified),
        },
    }
}

/// The typed client: issues each call against a dispatcher and decodes
/// the outcome. Its contracts show the full round trip through the wire
/// shapes faithful to the region table's own semantics.
pub struct MemoryClient {
    service: MemoryService,
}

impl View for MemoryClient {
    type V = Seq<Option<Seq<u8>>>;

    closed spec fn view(&self) -> Seq<Option<Seq<u8>>> {
        self.service@
    }
}

impl MemoryClient {
    /// A client bound to the given dispatcher.
    pub fn new(service: MemoryService) -> (r: MemoryClient)
        ensures
            r@ == service@,
    {
        MemoryClient { service }
    }

    /// Requests a fresh region of `size` bytes and returns its id.
    /// Succeeds iff `size` is within the fixed maximum; the new region
    /// is zero-filled.
    pub fn allocate_memory(&mut self, size: u64) -> (r: Result<u64, AllocationError>)
        ensures
            size <= MAX_ALLOCATION ==> old(self)@.len() < usize::MAX && r == Ok::<
                u64,
                AllocationError,
            >(old(self)@.len() as u64) && final(self)@ == old(self)@.push(
                Some(zero_region(size as nat)),
            ),
            size > MAX_ALLOCATION ==> r == Err::<u64, AllocationError>(
                AllocationError::AllocationTooLarge,
            ) && final(self)@ == old(self)@,
    {
        let request = AllocateRequest { size };
        let outcome = self.service.allocate_memory(request);
        decode_allocate_response(outcome)
    }

    /// Releases the region named by `id`. Succeeds iff the region is
    /// live; afterwards the id is permanently invalid.
    pub fn free(&mut self, id: u64) -> (r: Result<(), DeallocationError>)
        ensures
            is_live(old(self)@, id as int) ==> r == Ok::<(), DeallocationError>(())
                && final(self)@ == old(self)@.update(id as int, None::<Seq<u8>>),
            !is_live(old(self)@, id as int) ==> r == Err::<(), DeallocationError>(
                DeallocationError::InvalidMemoryAddress,
            ) && final(self)@ == old(self)@,
    {
        let request = FreeRequest { id };
        let outcome = self.service.free_memory(request);
        decode_free_response(outcome)
    }

    /// Reads `length` bytes starting at `offset` out of region `id`.
    /// Succeeds iff the region is live and the span is in bounds; the
    /// returned bytes are an independent copy.
    pub fn read(&mut self, id: u64, offset: u64, length: u64) -> (r: Result<
        Vec<u8>,
        MemoryAccessError,
    >)
        ensures
            final(self)@ == old(self)@,
            !is_live(old(self)@, id as int) ==> r == Err::<Vec<u8>, MemoryAccessError>(
                MemoryAccessError::InvalidMemoryAddress,
            ),
            is_live(old(self)@, id as int) && offset + length > region_bytes(
                old(self)@,
                id as int,
            ).len() ==> r == Err::<Vec<u8>, MemoryAccessError>(MemoryAccessError::OutOfBoundsAccess),
            is_live(old(self)@, id as int) && offset + length <= region_bytes(
                old(self)@,
                id as int,
            ).len() ==> (r matches Ok(v) && v@ == region_bytes(old(self)@, id as int).subrange(
                offset as int,
                offset + length,
            )),
    {
        let request = ReadRequest { id, offset, length };
        let outcome = self.service.read_memory(request);
        decode_read_response(outcome)
    }

    /// Overwrites `data.len()` bytes starting at `offset` in region
    /// `id`. Succeeds iff the region is live and the span is in bounds;
    /// bytes outside the span are untouched.
    pub fn write(&mut self, id: u64, offset: u64, data: Vec<u8>) -> (r: Result<
        (),
        MemoryAccessError,
    >)
        ensures
            !is_live(old(self)@, id as int) ==> r == Err::<(), MemoryAccessError>(
                MemoryAccessError::InvalidMemoryAddress,
            ) && final(self)@ == old(self)@,
            is_live(old(self)@, id as int) && offset + data@.len() > region_bytes(
                old(self)@,
                id as int,
            ).len() ==> r == Err::<(), MemoryAccessError>(MemoryAccessError::OutOfBoundsAccess)
                && final(self)@ == old(self)@,
            is_live(old(self)@, id as int) && offset + data@.len() <= region_bytes(
                old(self)@,
                id as int,
            ).len() ==> r == Ok::<(), MemoryAccessError>(()) && final(self)@ == old(self)@.update(
                id as int,
                Some(
                    region_write(region_bytes(old(self)@, id as int), offset as int, data@),
                ),
            ),
    {
        let request = WriteRequest { id, offset, data };
        let outcome = self.service.write_memory(request);
        decode_write_response(outcome)
    }

    /// Queries the fixed size of region `id`. Succeeds iff the region
    /// is live.
    pub fn get_memory_size(&mut self, id: u64) -> (r: Result<u64, MemoryAccessError>)
        ensures
            final(self)@ == old(self)@,
            !is_live(old(self)@, id as int) ==> r == Err::<u64, MemoryAccessError>(
                MemoryAccessError::InvalidMemoryAddress,
            ),
            is_live(old(self)@, id as int) ==> region_bytes(old(self)@, id as int).len()
                <= usize::MAX && r == Ok::<u64, MemoryAccessError>(
                region_bytes(old(self)@, id as int).len() as u64,
            ),
    {
        let request = GetMemorySizeRequest { id };
        let outcome = self.service.get_memory_size(request);
        decode_get_memory_size_response(outcome)
    }
}

} // verus!

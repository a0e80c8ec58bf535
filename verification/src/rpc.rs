//! Server-side dispatch: one handler per call of the wire contract.
//!
//! Each handler takes a request shape, runs the region table operation,
//! and answers either a response whose tagged union carries the success
//! payload, or the transport status class that the error taxonomy maps
//! the failure to. The typed error codes of the unions are never filled
//! by this server: a failure always travels as a status, and the client
//! falls back to the status mapping.
//!
//! The transport itself stays outside this library; a serving process
//! wraps a `MemoryService` in whatever exclusion and connection handling
//! it needs and forwards each decoded request here.

use vstd::prelude::*;

use crate::memory::{is_live, region_bytes, region_write, zero_region, DataNode, MAX_ALLOCATION};
use crate::protocol::{
    status_of_allocation_error, status_of_deallocation_error, status_of_memory_access_error,
    AllocateRequest, AllocateResponse, AllocateResult, FreeRequest, FreeResponse, FreeResult,
    GetMemorySizeRequest, GetMemorySizeResponse, GetMemorySizeResult, ReadRequest, ReadResponse,
    ReadResult, StatusKind, WriteRequest, WriteResponse, WriteResult,
};

verus! {

/// The dispatcher owning the server's region table.
pub struct MemoryService {
    data_node: DataNode,
}

impl View for MemoryService {
    type V = Seq<Option<Seq<u8>>>;

    closed spec fn view(&self) -> Seq<Option<Seq<u8>>> {
        self.data_node@
    }
}

impl MemoryService {
    /// A dispatcher over the given region table.
    pub fn new(data_node: DataNode) -> (r: MemoryService)
        ensures
            r@ == data_node@,
    {
        MemoryService { data_node }
    }

    /// Serves an allocate call: a fresh zero-filled region and its id,
    /// or invalid-argument when the size exceeds the fixed maximum.
    pub fn allocate_memory(&mut self, request: AllocateRequest) -> (r: Result<
        AllocateResponse,
        StatusKind,
    >)
        ensures
            request.size <= MAX_ALLOCATION ==> old(self)@.len() < usize::MAX && r == Ok::<
                AllocateResponse,
                StatusKind,
            >(
                (AllocateResponse {
                    result: Some(AllocateResult::Size(old(self)@.len() as u64)),
                }),
            ) && final(self)@ == old(self)@.push(Some(zero_region(request.size as nat))),
            request.size > MAX_ALLOCATION ==> r == Err::<AllocateResponse, StatusKind>(
                StatusKind::InvalidArgument,
            ) && final(self)@ == old(self)@,
    {
        if request.size > (MAX_ALLOCATION as u64) {
            return Err(StatusKind::InvalidArgument);
        }
        let response = self.data_node.allocate_memory(request.size as usize);
        match response {
            Ok(id) => Ok(AllocateResponse { result: Some(AllocateResult::Size(id as u64)) }),
            Err(err) => Err(status_of_allocation_error(err)),
        }
    }

    /// Serves a free call: tombstones the region, or answers
    /// out-of-range when the id does not name a live region.
    pub fn free_memory(&mut self, request: FreeRequest) -> (r: Result<FreeResponse, StatusKind>)
        ensures
            is_live(old(self)@, request.id as int) ==> r == Ok::<FreeResponse, StatusKind>(
                (FreeResponse { result: Some(FreeResult::Done(true)) }),
            ) && final(self)@ == old(self)@.update(request.id as int, None::<Seq<u8>>),
            !is_live(old(self)@, request.id as int) ==> r == Err::<FreeResponse, StatusKind>(
                StatusKind::OutOfRange,
            ) && final(self)@ == old(self)@,
    {
        let count = self.data_node.region_count();
        if request.id >= (count as u64) {
            return Err(StatusKind::OutOfRange);
        }
        let response = self.data_node.free_memory(request.id as usize);
        match response {
            Ok(_) => Ok(FreeResponse { result: Some(FreeResult::Done(true)) }),
            Err(err) => Err(status_of_deallocation_error(err)),
        }
    }

    /// Serves a read call: a copy of the requested span, not-found for a
    /// dead id, out-of-range for a span past the region's size.
    pub fn read_memory(&self, request: ReadRequest) -> (r: Result<ReadResponse, StatusKind>)
        ensures
            !is_live(self@, request.id as int) ==> r == Err::<ReadResponse, StatusKind>(
                StatusKind::NotFound,
            ),
            is_live(self@, request.id as int) && request.offset + request.length > region_bytes(
                self@,
                request.id as int,
            ).len() ==> r == Err::<ReadResponse, StatusKind>(StatusKind::OutOfRange),
            is_live(self@, request.id as int) && request.offset + request.length <= region_bytes(
                self@,
                request.id as int,
            ).len() ==> (r matches Ok(resp) && resp.result matches Some(ReadResult::Memory(m))
                && m@ == region_bytes(self@, request.id as int).subrange(
                request.offset as int,
                request.offset + request.length,
            )),
    {
        let count = self.data_node.region_count();
        if request.id >= (count as u64) {
            return Err(StatusKind::NotFound);
        }
        let id = request.id as usize;
        let size = match self.data_node.get_memory_size(id) {
            Ok(size) => size,
            Err(err) => {
                return Err(status_of_memory_access_error(err));
            },
        };
        if request.offset > (size as u64) || request.length > (size as u64) - request.offset {
            return Err(StatusKind::OutOfRange);
        }
        let response = self.data_node.read_memory(
            id,
            request.offset as usize,
            request.length as usize,
        );
        match response {
            Ok(bytes) => Ok(ReadResponse { result: Some(ReadResult::Memory(bytes)) }),
            Err(err) => Err(status_of_memory_access_error(err)),
        }
    }

    /// Serves a write call: overwrites the requested span, not-found for
    /// a dead id, out-of-range for a span past the region's size.
    pub fn write_memory(&mut self, request: WriteRequest) -> (r: Result<WriteResponse, StatusKind>)
        ensures
            !is_live(old(self)@, request.id as int) ==> r == Err::<WriteResponse, StatusKind>(
                StatusKind::NotFound,
            ) && final(self)@ == old(self)@,
            is_live(old(self)@, request.id as int) && request.offset + request.data@.len()
                > region_bytes(old(self)@, request.id as int).len() ==> r == Err::<
                WriteResponse,
                StatusKind,
            >(StatusKind::OutOfRange) && final(self)@ == old(self)@,
            is_live(old(self)@, request.id as int) && request.offset + request.data@.len()
                <= region_bytes(old(self)@, request.id as int).len() ==> r == Ok::<
                WriteResponse,
                StatusKind,
            >((WriteResponse { result: Some(WriteResult::Done(true)) })) && final(self)@ == old(
                self,
            )@.update(
                request.id as int,
                Some(
                    region_write(
                        region_bytes(old(self)@, request.id as int),
                        request.offset as int,
                        request.data@,
                    ),
                ),
            ),
    {
        let count = self.data_node.region_count();
        if request.id >= (count as u64) {
            return Err(StatusKind::NotFound);
        }
        let id = request.id as usize;
        let size = match self.data_node.get_memory_size(id) {
            Ok(size) => size,
            Err(err) => {
                return Err(status_of_memory_access_error(err));
            },
        };
        if request.offset > (size as u64) || (request.data.len() as u64) > (size as u64)
            - request.offset {
            return Err(StatusKind::OutOfRange);
        }
        let response = self.data_node.write_memory(
            id,
            request.offset as usize,
            request.data.as_slice(),
        );
        match response {
            Ok(_) => Ok(WriteResponse { result: Some(WriteResult::Done(true)) }),
            Err(err) => Err(status_of_memory_access_error(err)),
        }
    }

    /// Serves a size query: the region's fixed size, or not-found for a
    /// dead id.
    pub fn get_memory_size(&self, request: GetMemorySizeRequest) -> (r: Result<
        GetMemorySizeResponse,
        StatusKind,
    >)
        ensures
            !is_live(self@, request.id as int) ==> r == Err::<GetMemorySizeResponse, StatusKind>(
                StatusKind::NotFound,
            ),
            is_live(self@, request.id as int) ==> region_bytes(self@, request.id as int).len()
                <= usize::MAX && r == Ok::<GetMemorySizeResponse, StatusKind>(
                (GetMemorySizeResponse {
                    result: Some(
                        GetMemorySizeResult::Size(
                            region_bytes(self@, request.id as int).len() as u64,
                        ),
                    ),
                }),
            ),
    {
        let count = self.data_node.region_count();
        if request.id >= (count as u64) {
            return Err(StatusKind::NotFound);
        }
        let response = self.data_node.get_memory_size(request.id as usize);
        match response {
            Ok(size) => Ok(
                GetMemorySizeResponse { result: Some(GetMemorySizeResult::Size(size as u64)) },
            ),
            Err(err) => Err(status_of_memory_access_error(err)),
        }
    }
}

} // verus!

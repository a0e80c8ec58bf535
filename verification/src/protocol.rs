//! The wire contract binding client and server.
//!
//! Five calls, each a request shape paired with a response shape. A
//! response carries a tagged union of exactly one success payload or one
//! numeric error code, never both; a response whose union is absent is
//! malformed and the client degrades it to `Unspecified`. When a call
//! fails at the transport level instead, the status class of the failure
//! maps to and from the typed error kinds as the functions here state.

use vstd::prelude::*;
use vstd::string::StringSliceAdditionalSpecFns;

use crate::bytes::bytes_eq;
use crate::errors::{AllocationError, DeallocationError, MemoryAccessError};

verus! {

/// Request to reserve a fresh region of `size` bytes.
#[derive(Clone, Debug, PartialEq, Eq)]
pub struct AllocateRequest {
    pub size: u64,
}

/// The tagged union of an allocate response: the fresh id, or a numeric
/// [`AllocationError`] code.
#[derive(Clone, Debug, PartialEq, Eq)]
pub enum AllocateResult {
    Size(u64),
    Error(i32),
}

/// Response to [`AllocateRequest`]; `result` absent means malformed.
#[derive(Clone, Debug, PartialEq, Eq)]
pub struct AllocateResponse {
    pub result: Option<AllocateResult>,
}

/// Request to release the region named by `id`.
#[derive(Clone, Debug, PartialEq, Eq)]
pub struct FreeRequest {
    pub id: u64,
}

/// The tagged union of a free response: an acknowledgement flag, or a
/// numeric [`DeallocationError`] code.
#[derive(Clone, Debug, PartialEq, Eq)]
pub enum FreeResult {
    Done(bool),
    Error(i32),
}

/// Response to [`FreeRequest`]; `result` absent means malformed.
#[derive(Clone, Debug, PartialEq, Eq)]
pub struct FreeResponse {
    pub result: Option<FreeResult>,
}

/// Request to copy `length` bytes starting at `offset` out of region `id`.
#[derive(Clone, Debug, PartialEq, Eq)]
pub struct ReadRequest {
    pub id: u64,
    pub offset: u64,
    pub length: u64,
}

/// The tagged union of a read response: the copied bytes, or a numeric
/// [`MemoryAccessError`] code.
#[derive(Clone, Debug, PartialEq, Eq)]
pub enum ReadResult {
    Memory(Vec<u8>),
    Error(i32),
}

/// Response to [`ReadRequest`]; `result` absent means malformed.
#[derive(Clone, Debug, PartialEq, Eq)]
pub struct ReadResponse {
    pub result: Option<ReadResult>,
}

/// Request to overwrite `data.len()` bytes starting at `offset` in
/// region `id`.
#[derive(Clone, Debug, PartialEq, Eq)]
pub struct WriteRequest {
    pub id: u64,
    pub offset: u64,
    pub data: Vec<u8>,
}

/// The tagged union of a write response: an acknowledgement flag, or a
/// numeric [`MemoryAccessError`] code.
#[derive(Clone, Debug, PartialEq, Eq)]
pub enum WriteResult {
    Done(bool),
    Error(i32),
}

/// Response to [`WriteRequest`]; `result` absent means malformed.
#[derive(Clone, Debug, PartialEq, Eq)]
pub struct WriteResponse {
    pub result: Option<WriteResult>,
}

/// Request for the fixed size of region `id`.
#[derive(Clone, Debug, PartialEq, Eq)]
pub struct GetMemorySizeRequest {
    pub id: u64,
}

/// The tagged union of a size response: the region's size, or a numeric
/// [`MemoryAccessError`] code.
#[derive(Clone, Debug, PartialEq, Eq)]
pub enum GetMemorySizeResult {
    Size(u64),
    Error(i32),
}

/// Response to [`GetMemorySizeRequest`]; `result` absent means malformed.
#[derive(Clone, Debug, PartialEq, Eq)]
pub struct GetMemorySizeResponse {
    pub result: Option<GetMemorySizeResult>,
}

/// The classes of transport status a call can end with, as far as the
/// protocol distinguishes them. Every status the mapping does not name
/// falls under `Other` and degrades to an `Unspecified` error.
#[derive(Clone, Copy, Debug, PartialEq, Eq, Structural)]
pub enum StatusKind {
    InvalidArgument,
    NotFound,
    OutOfRange,
    ResourceExhausted,
    Other,
}

/// The wire code of each [`AllocationError`] kind.
pub open spec fn spec_allocation_error_code(e: AllocationError) -> int {
    match e {
        AllocationError::Unspecified => 0,
        AllocationError::AllocationTooLarge => 1,
        AllocationError::InsufficientMemory => 2,
    }
}

/// The [`AllocationError`] kind a wire code names, if any.
pub open spec fn spec_allocation_error_from_code(code: int) -> Option<AllocationError> {
    if code == 0 {
        Some(AllocationError::Unspecified)
    } else if code == 1 {
        Some(AllocationError::AllocationTooLarge)
    } else if code == 2 {
        Some(AllocationError::InsufficientMemory)
    } else {
        None
    }
}

/// The wire code of each [`DeallocationError`] kind.
pub open spec fn spec_deallocation_error_code(e: DeallocationError) -> int {
    match e {
        DeallocationError::Unspecified => 0,
        DeallocationError::InvalidMemoryAddress => 1,
    }
}

/// The [`DeallocationError`] kind a wire code names, if any.
pub open spec fn spec_deallocation_error_from_code(code: int) -> Option<DeallocationError> {
    if code == 0 {
        Some(DeallocationError::Unspecified)
    } else if code == 1 {
        Some(DeallocationError::InvalidMemoryAddress)
    } else {
        None
    }
}

/// The wire code of each [`MemoryAccessError`] kind.
pub open spec fn spec_memory_access_error_code(e: MemoryAccessError) -> int {
    match e {
        MemoryAccessError::Unspecified => 0,
        MemoryAccessError::InvalidMemoryAddress => 1,
        MemoryAccessError::OutOfBoundsAccess => 2,
    }
}

/// The [`MemoryAccessError`] kind a wire code names, if any.
pub open spec fn spec_memory_access_error_from_code(code: int) -> Option<MemoryAccessError> {
    if code == 0 {
        Some(MemoryAccessError::Unspecified)
    } else if code == 1 {
        Some(MemoryAccessError::InvalidMemoryAddress)
    } else if code == 2 {
        Some(MemoryAccessError::OutOfBoundsAccess)
    } else {
        None
    }
}

impl AllocationError {
    /// This kind's numeric code on the wire.
    pub fn code(&self) -> (r: i32)
        ensures
            r as int == spec_allocation_error_code(*self),
    {
        match self {
            AllocationError::Unspecified => 0,
            AllocationError::AllocationTooLarge => 1,
            AllocationError::InsufficientMemory => 2,
        }
    }

    /// The kind named by a numeric wire code, if the code is known.
    pub fn from_code(code: i32) -> (r: Option<AllocationError>)
        ensures
            r == spec_allocation_error_from_code(code as int),
    {
        if code == 0 {
            Some(AllocationError::Unspecified)
        } else if code == 1 {
            Some(AllocationError::AllocationTooLarge)
        } else if code == 2 {
            Some(AllocationError::InsufficientMemory)
        } else {
            None
        }
    }

    /// This kind's field name in the interface definition.
    pub fn as_str_name(&self) -> (r: &'static str)
        ensures
            r@ == spec_allocation_error_str_name(*self),
    {
        match self {
            AllocationError::Unspecified => "ALLOCATION_ERROR_UNSPECIFIED",
            AllocationError::AllocationTooLarge => "ALLOCATION_TOO_LARGE",
            AllocationError::InsufficientMemory => "INSUFFICIENT_MEMORY",
        }
    }

    /// The kind named by a field name of the interface definition, if
    /// the name is known.
    pub fn from_str_name(value: &str) -> (r: Option<AllocationError>)
        ensures
            r == spec_allocation_error_from_str_bytes(value.spec_bytes()),
    {
        if bytes_eq(value.as_bytes(), "ALLOCATION_ERROR_UNSPECIFIED".as_bytes()) {
            Some(AllocationError::Unspecified)
        } else if bytes_eq(value.as_bytes(), "ALLOCATION_TOO_LARGE".as_bytes()) {
            Some(AllocationError::AllocationTooLarge)
        } else if bytes_eq(value.as_bytes(), "INSUFFICIENT_MEMORY".as_bytes()) {
            Some(AllocationError::InsufficientMemory)
        } else {
            None
        }
    }
}

impl DeallocationError {
    /// This kind's numeric code on the wire.
    pub fn code(&self) -> (r: i32)
        ensures
            r as int == spec_deallocation_error_code(*self),
    {
        match self {
            DeallocationError::Unspecified => 0,
            DeallocationError::InvalidMemoryAddress => 1,
        }
    }

    /// The kind named by a numeric wire code, if the code is known.
    pub fn from_code(code: i32) -> (r: Option<DeallocationError>)
        ensures
            r == spec_deallocation_error_from_code(code as int),
    {
        if code == 0 {
            Some(DeallocationError::Unspecified)
        } else if code == 1 {
            Some(DeallocationError::InvalidMemoryAddress)
        } else {
            None
        }
    }

    /// This kind's field name in the interface definition.
    pub fn as_str_name(&self) -> (r: &'static str)
        ensures
            r@ == spec_deallocation_error_str_name(*self),
    {
        match self {
            DeallocationError::Unspecified => "DEALLOCATION_ERROR_UNSPECIFIED",
            DeallocationError::InvalidMemoryAddress => "DEALLOCATION_INVALID_MEMORY_ADDRESS",
        }
    }

    /// The kind named by a field name of the interface definition, if
    /// the name is known.
    pub fn from_str_name(value: &str) -> (r: Option<DeallocationError>)
        ensures
            r == spec_deallocation_error_from_str_bytes(value.spec_bytes()),
    {
        if bytes_eq(value.as_bytes(), "DEALLOCATION_ERROR_UNSPECIFIED".as_bytes()) {
            Some(DeallocationError::Unspecified)
        } else if bytes_eq(value.as_bytes(), "DEALLOCATION_INVALID_MEMORY_ADDRESS".as_bytes()) {
            Some(DeallocationError::InvalidMemoryAddress)
        } else {
            None
        }
    }
}

impl MemoryAccessError {
    /// This kind's numeric code on the wire.
    pub fn code(&self) -> (r: i32)
        ensures
            r as int == spec_memory_access_error_code(*self),
    {
        match self {
            MemoryAccessError::Unspecified => 0,
            MemoryAccessError::InvalidMemoryAddress => 1,
            MemoryAccessError::OutOfBoundsAccess => 2,
        }
    }

    /// The kind named by a numeric wire code, if the code is known.
    pub fn from_code(code: i32) -> (r: Option<MemoryAccessError>)
        ensures
            r == spec_memory_access_error_from_code(code as int),
    {
        if code == 0 {
            Some(MemoryAccessError::Unspecified)
        } else if code == 1 {
            Some(MemoryAccessError::InvalidMemoryAddress)
        } else if code == 2 {
            Some(MemoryAccessError::OutOfBoundsAccess)
        } else {
            None
        }
    }

    /// This kind's field name in the interface definition.
    pub fn as_str_name(&self) -> (r: &'static str)
        ensures
            r@ == spec_memory_access_error_str_name(*self),
    {
        match self {
            MemoryAccessError::Unspecified => "MEMORY_ACCESS_ERROR_UNSPECIFIED",
            MemoryAccessError::InvalidMemoryAddress => "ACCESS_INVALID_MEMORY_ADDRESS",
            MemoryAccessError::OutOfBoundsAccess => "OUT_OF_BOUNDS_ACCESS",
        }
    }

    /// The kind named by a field name of the interface definition, if
    /// the name is known.
    pub fn from_str_name(value: &str) -> (r: Option<MemoryAccessError>)
        ensures
            r == spec_memory_access_error_from_str_bytes(value.spec_bytes()),
    {
        if bytes_eq(value.as_bytes(), "MEMORY_ACCESS_ERROR_UNSPECIFIED".as_bytes()) {
            Some(MemoryAccessError::Unspecified)
        } else if bytes_eq(value.as_bytes(), "ACCESS_INVALID_MEMORY_ADDRESS".as_bytes()) {
            Some(MemoryAccessError::InvalidMemoryAddress)
        } else if bytes_eq(value.as_bytes(), "OUT_OF_BOUNDS_ACCESS".as_bytes()) {
            Some(MemoryAccessError::OutOfBoundsAccess)
        } else {
            None
        }
    }
}

/// The field name each [`AllocationError`] kind carries in the
/// interface definition.
pub open spec fn spec_allocation_error_str_name(e: AllocationError) -> Seq<char> {
    match e {
        AllocationError::Unspecified => "ALLOCATION_ERROR_UNSPECIFIED"@,
        AllocationError::AllocationTooLarge => "ALLOCATION_TOO_LARGE"@,
        AllocationError::InsufficientMemory => "INSUFFICIENT_MEMORY"@,
    }
}

/// The [`AllocationError`] kind whose field name is encoded by `bytes`,
/// if any.
pub open spec fn spec_allocation_error_from_str_bytes(bytes: Seq<u8>) -> Option<AllocationError> {
    if bytes == "ALLOCATION_ERROR_UNSPECIFIED".spec_bytes() {
        Some(AllocationError::Unspecified)
    } else if bytes == "ALLOCATION_TOO_LARGE".spec_bytes() {
        Some(AllocationError::AllocationTooLarge)
    } else if bytes == "INSUFFICIENT_MEMORY".spec_bytes() {
        Some(AllocationError::InsufficientMemory)
    } else {
        None
    }
}

/// The field name each [`DeallocationError`] kind carries in the
/// interface definition.
pub open spec fn spec_deallocation_error_str_name(e: DeallocationError) -> Seq<char> {
    match e {
        DeallocationError::Unspecified => "DEALLOCATION_ERROR_UNSPECIFIED"@,
        DeallocationError::InvalidMemoryAddress => "DEALLOCATION_INVALID_MEMORY_ADDRESS"@,
    }
}

/// The [`DeallocationError`] kind whose field name is encoded by
/// `bytes`, if any.
pub open spec fn spec_deallocation_error_from_str_bytes(bytes: Seq<u8>) -> Option<
    DeallocationError,
> {
    if bytes == "DEALLOCATION_ERROR_UNSPECIFIED".spec_bytes() {
        Some(DeallocationError::Unspecified)
    } else if bytes == "DEALLOCATION_INVALID_MEMORY_ADDRESS".spec_bytes() {
        Some(DeallocationError::InvalidMemoryAddress)
    } else {
        None
    }
}

/// The field name each [`MemoryAccessError`] kind carries in the
/// interface definition.
pub open spec fn spec_memory_access_error_str_name(e: MemoryAccessError) -> Seq<char> {
    match e {
        MemoryAccessError::Unspecified => "MEMORY_ACCESS_ERROR_UNSPECIFIED"@,
        MemoryAccessError::InvalidMemoryAddress => "ACCESS_INVALID_MEMORY_ADDRESS"@,
        MemoryAccessError::OutOfBoundsAccess => "OUT_OF_BOUNDS_ACCESS"@,
    }
}

/// The [`MemoryAccessError`] kind whose field name is encoded by
/// `bytes`, if any.
pub open spec fn spec_memory_access_error_from_str_bytes(bytes: Seq<u8>) -> Option<
    MemoryAccessError,
> {
    if bytes == "MEMORY_ACCESS_ERROR_UNSPECIFIED".spec_bytes() {
        Some(MemoryAccessError::Unspecified)
    } else if bytes == "ACCESS_INVALID_MEMORY_ADDRESS".spec_bytes() {
        Some(MemoryAccessError::InvalidMemoryAddress)
    } else if bytes == "OUT_OF_BOUNDS_ACCESS".spec_bytes() {
        Some(MemoryAccessError::OutOfBoundsAccess)
    } else {
        None
    }
}

/// The transport status the server answers with when an allocation
/// fails with `e`.
pub open spec fn spec_status_of_allocation_error(e: AllocationError) -> StatusKind {
    match e {
        AllocationError::AllocationTooLarge => StatusKind::InvalidArgument,
        AllocationError::InsufficientMemory => StatusKind::ResourceExhausted,
        AllocationError::Unspecified => StatusKind::Other,
    }
}

/// The allocation error a client reads out of a bare transport status.
pub open spec fn spec_allocation_error_of_status(k: StatusKind) -> AllocationError {
    match k {
        StatusKind::InvalidArgument => AllocationError::AllocationTooLarge,
        StatusKind::ResourceExhausted => AllocationError::InsufficientMemory,
        _ => AllocationError::Unspecified,
    }
}

/// The transport status the server answers with when a deallocation
/// fails with `e`.
pub open spec fn spec_status_of_deallocation_error(e: DeallocationError) -> StatusKind {
    match e {
        DeallocationError::InvalidMemoryAddress => StatusKind::OutOfRange,
        DeallocationError::Unspecified => StatusKind::Other,
    }
}

/// The deallocation error a client reads out of a bare transport status.
pub open spec fn spec_deallocation_error_of_status(k: StatusKind) -> DeallocationError {
    match k {
        StatusKind::OutOfRange => DeallocationError::InvalidMemoryAddress,
        _ => DeallocationError::Unspecified,
    }
}

/// The transport status the server answers with when a read, write, or
/// size query fails with `e`.
pub open spec fn spec_status_of_memory_access_error(e: MemoryAccessError) -> StatusKind {
    match e {
        MemoryAccessError::InvalidMemoryAddress => StatusKind::NotFound,
        MemoryAccessError::OutOfBoundsAccess => StatusKind::OutOfRange,
        MemoryAccessError::Unspecified => StatusKind::Other,
    }
}

/// The memory access error a client reads out of a bare transport status.
pub open spec fn spec_memory_access_error_of_status(k: StatusKind) -> MemoryAccessError {
    match k {
        StatusKind::NotFound => MemoryAccessError::InvalidMemoryAddress,
        StatusKind::OutOfRange => MemoryAccessError::OutOfBoundsAccess,
        _ => MemoryAccessError::Unspecified,
    }
}

/// Executable form of [`spec_status_of_allocation_error`].
pub fn status_of_allocation_error(e: AllocationError) -> (r: StatusKind)
    ensures
        r == spec_status_of_allocation_error(e),
{
    match e {
        AllocationError::AllocationTooLarge => StatusKind::InvalidArgument,
        AllocationError::InsufficientMemory => StatusKind::ResourceExhausted,
        AllocationError::Unspecified => StatusKind::Other,
    }
}

/// Executable form of [`spec_allocation_error_of_status`].
pub fn allocation_error_of_status(k: StatusKind) -> (r: AllocationError)
    ensures
        r == spec_allocation_error_of_status(k),
{
    match k {
        StatusKind::InvalidArgument => AllocationError::AllocationTooLarge,
        StatusKind::ResourceExhausted => AllocationError::InsufficientMemory,
        _ => AllocationError::Unspecified,
    }
}

/// Executable form of [`spec_status_of_deallocation_error`].
pub fn status_of_deallocation_error(e: DeallocationError) -> (r: StatusKind)
    ensures
        r == spec_status_of_deallocation_error(e),
{
    match e {
        DeallocationError::InvalidMemoryAddress => StatusKind::OutOfRange,
        DeallocationError::Unspecified => StatusKind::Other,
    }
}

/// Executable form of [`spec_deallocation_error_of_status`].
pub fn deallocation_error_of_status(k: StatusKind) -> (r: DeallocationError)
    ensures
        r == spec_deallocation_error_of_status(k),
{
    match k {
        StatusKind::OutOfRange => DeallocationError::InvalidMemoryAddress,
        _ => DeallocationError::Unspecified,
    }
}

/// Executable form of [`spec_status_of_memory_access_error`].
pub fn status_of_memory_access_error(e: MemoryAccessError) -> (r: StatusKind)
    ensures
        r == spec_status_of_memory_access_error(e),
{
    match e {
        MemoryAccessError::InvalidMemoryAddress => StatusKind::NotFound,
        MemoryAccessError::OutOfBoundsAccess => StatusKind::OutOfRange,
        MemoryAccessError::Unspecified => StatusKind::Other,
    }
}

/// Executable form of [`spec_memory_access_error_of_status`].
pub fn memory_access_error_of_status(k: StatusKind) -> (r: MemoryAccessError)
    ensures
        r == spec_memory_access_error_of_status(k),
{
    match k {
        StatusKind::NotFound => MemoryAccessError::InvalidMemoryAddress,
        StatusKind::OutOfRange => MemoryAccessError::OutOfBoundsAccess,
        _ => MemoryAccessError::Unspecified,
    }
}

} // verus!

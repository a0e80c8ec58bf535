use remote_memory::client::{
    decode_allocate_response, decode_free_response, decode_get_memory_size_response,
    decode_read_response, decode_write_response, MemoryClient,
};
use remote_memory::errors::{AllocationError, DeallocationError, MemoryAccessError};
use remote_memory::memory::DataNode;
use remote_memory::protocol::{
    AllocateResponse, AllocateResult, FreeResponse, FreeResult, GetMemorySizeResponse,
    GetMemorySizeResult, ReadResponse, ReadResult, StatusKind, WriteResponse, WriteResult,
};
use remote_memory::rpc::MemoryService;

fn fresh_client() -> MemoryClient {
    MemoryClient::new(MemoryService::new(DataNode::new()))
}

#[test]
fn client_scenario_write_then_read_window() {
    let mut client = fresh_client();
    let id = client.allocate_memory(10).unwrap();
    client.write(id, 2, vec![1, 2, 3, 4]).unwrap();
    assert_eq!(
        client.read(id, 0, 10).unwrap(),
        vec![0u8, 0, 1, 2, 3, 4, 0, 0, 0, 0]
    );
    assert_eq!(
        client.read(id, 8, 4),
        Err(MemoryAccessError::OutOfBoundsAccess)
    );
    client.free(id).unwrap();
    assert_eq!(
        client.read(id, 0, 1),
        Err(MemoryAccessError::InvalidMemoryAddress)
    );
}

#[test]
fn client_allocate_too_large_maps_back_from_status() {
    let mut client = fresh_client();
    let r = client.allocate_memory(1024 * 1024 + 1);
    assert_eq!(r, Err(AllocationError::AllocationTooLarge));
}

#[test]
fn client_free_of_unknown_id_maps_back_from_status() {
    let mut client = fresh_client();
    assert_eq!(
        client.free(42),
        Err(DeallocationError::InvalidMemoryAddress)
    );
}

#[test]
fn client_get_memory_size_round_trip() {
    let mut client = fresh_client();
    let id = client.allocate_memory(321).unwrap();
    assert_eq!(client.get_memory_size(id), Ok(321));
    assert_eq!(
        client.get_memory_size(id + 1),
        Err(MemoryAccessError::InvalidMemoryAddress)
    );
}

#[test]
fn client_write_out_of_bounds_maps_back_from_status() {
    let mut client = fresh_client();
    let id = client.allocate_memory(3).unwrap();
    assert_eq!(
        client.write(id, 2, vec![1, 2]),
        Err(MemoryAccessError::OutOfBoundsAccess)
    );
    // The failed write left the region untouched.
    assert_eq!(client.read(id, 0, 3).unwrap(), vec![0u8, 0, 0]);
}

#[test]
fn decode_prefers_delivered_typed_error() {
    // A delivered typed error code wins even though it arrived in a
    // successful response envelope.
    let outcome = Ok(AllocateResponse {
        result: Some(AllocateResult::Error(
            AllocationError::InsufficientMemory.code(),
        )),
    });
    assert_eq!(
        decode_allocate_response(outcome),
        Err(AllocationError::InsufficientMemory)
    );
}

#[test]
fn decode_falls_back_to_status_mapping() {
    assert_eq!(
        decode_allocate_response(Err(StatusKind::InvalidArgument)),
        Err(AllocationError::AllocationTooLarge)
    );
    assert_eq!(
        decode_free_response(Err(StatusKind::OutOfRange)),
        Err(DeallocationError::InvalidMemoryAddress)
    );
    assert_eq!(
        decode_read_response(Err(StatusKind::NotFound)),
        Err(MemoryAccessError::InvalidMemoryAddress)
    );
    assert_eq!(
        decode_write_response(Err(StatusKind::OutOfRange)),
        Err(MemoryAccessError::OutOfBoundsAccess)
    );
    assert_eq!(
        decode_get_memory_size_response(Err(StatusKind::Other)),
        Err(MemoryAccessError::Unspecified)
    );
}

#[test]
fn decode_degrades_malformed_responses_to_unspecified() {
    assert_eq!(
        decode_allocate_response(Ok(AllocateResponse { result: None })),
        Err(AllocationError::Unspecified)
    );
    assert_eq!(
        decode_free_response(Ok(FreeResponse { result: None })),
        Err(DeallocationError::Unspecified)
    );
    assert_eq!(
        decode_free_response(Ok(FreeResponse {
            result: Some(FreeResult::Done(false)),
        })),
        Err(DeallocationError::Unspecified)
    );
    assert_eq!(
        decode_read_response(Ok(ReadResponse { result: None })),
        Err(MemoryAccessError::Unspecified)
    );
    assert_eq!(
        decode_write_response(Ok(WriteResponse {
            result: Some(WriteResult::Done(false)),
        })),
        Err(MemoryAccessError::Unspecified)
    );
    assert_eq!(
        decode_get_memory_size_response(Ok(GetMemorySizeResponse { result: None })),
        Err(MemoryAccessError::Unspecified)
    );
}

#[test]
fn decode_unknown_error_code_degrades_to_unspecified() {
    assert_eq!(
        decode_allocate_response(Ok(AllocateResponse {
            result: Some(AllocateResult::Error(99)),
        })),
        Err(AllocationError::Unspecified)
    );
    assert_eq!(
        decode_read_response(Ok(ReadResponse {
            result: Some(ReadResult::Error(-5)),
        })),
        Err(MemoryAccessError::Unspecified)
    );
}

#[test]
fn decode_success_payloads() {
    assert_eq!(
        decode_allocate_response(Ok(AllocateResponse {
            result: Some(AllocateResult::Size(7)),
        })),
        Ok(7)
    );
    assert_eq!(
        decode_free_response(Ok(FreeResponse {
            result: Some(FreeResult::Done(true)),
        })),
        Ok(())
    );
    assert_eq!(
        decode_read_response(Ok(ReadResponse {
            result: Some(ReadResult::Memory(vec![1, 2, 3])),
        })),
        Ok(vec![1, 2, 3])
    );
    assert_eq!(
        decode_write_response(Ok(WriteResponse {
            result: Some(WriteResult::Done(true)),
        })),
        Ok(())
    );
    assert_eq!(
        decode_get_memory_size_response(Ok(GetMemorySizeResponse {
            result: Some(GetMemorySizeResult::Size(11)),
        })),
        Ok(11)
    );
}

use remote_memory::errors::{AllocationError, DeallocationError, MemoryAccessError, MemoryError};
use remote_memory::protocol::{
    allocation_error_of_status, deallocation_error_of_status, memory_access_error_of_status,
    status_of_allocation_error, status_of_deallocation_error, status_of_memory_access_error,
    StatusKind,
};

#[test]
fn allocation_error_codes_round_trip() {
    for e in [
        AllocationError::Unspecified,
        AllocationError::AllocationTooLarge,
        AllocationError::InsufficientMemory,
    ] {
        assert_eq!(AllocationError::from_code(e.code()), Some(e));
    }
    assert_eq!(AllocationError::from_code(3), None);
    assert_eq!(AllocationError::from_code(-1), None);
}

#[test]
fn deallocation_error_codes_round_trip() {
    for e in [
        DeallocationError::Unspecified,
        DeallocationError::InvalidMemoryAddress,
    ] {
        assert_eq!(DeallocationError::from_code(e.code()), Some(e));
    }
    assert_eq!(DeallocationError::from_code(2), None);
}

#[test]
fn memory_access_error_codes_round_trip() {
    for e in [
        MemoryAccessError::Unspecified,
        MemoryAccessError::InvalidMemoryAddress,
        MemoryAccessError::OutOfBoundsAccess,
    ] {
        assert_eq!(MemoryAccessError::from_code(e.code()), Some(e));
    }
    assert_eq!(MemoryAccessError::from_code(7), None);
}

#[test]
fn error_codes_match_the_wire_values() {
    assert_eq!(AllocationError::Unspecified.code(), 0);
    assert_eq!(AllocationError::AllocationTooLarge.code(), 1);
    assert_eq!(AllocationError::InsufficientMemory.code(), 2);
    assert_eq!(DeallocationError::Unspecified.code(), 0);
    assert_eq!(DeallocationError::InvalidMemoryAddress.code(), 1);
    assert_eq!(MemoryAccessError::Unspecified.code(), 0);
    assert_eq!(MemoryAccessError::InvalidMemoryAddress.code(), 1);
    assert_eq!(MemoryAccessError::OutOfBoundsAccess.code(), 2);
}

#[test]
fn str_names_round_trip() {
    for e in [
        AllocationError::Unspecified,
        AllocationError::AllocationTooLarge,
        AllocationError::InsufficientMemory,
    ] {
        assert_eq!(AllocationError::from_str_name(e.as_str_name()), Some(e));
    }
    for e in [
        DeallocationError::Unspecified,
        DeallocationError::InvalidMemoryAddress,
    ] {
        assert_eq!(DeallocationError::from_str_name(e.as_str_name()), Some(e));
    }
    for e in [
        MemoryAccessError::Unspecified,
        MemoryAccessError::InvalidMemoryAddress,
        MemoryAccessError::OutOfBoundsAccess,
    ] {
        assert_eq!(MemoryAccessError::from_str_name(e.as_str_name()), Some(e));
    }
}

#[test]
fn str_names_match_the_interface_definition() {
    assert_eq!(
        AllocationError::AllocationTooLarge.as_str_name(),
        "ALLOCATION_TOO_LARGE"
    );
    assert_eq!(
        DeallocationError::InvalidMemoryAddress.as_str_name(),
        "DEALLOCATION_INVALID_MEMORY_ADDRESS"
    );
    assert_eq!(
        MemoryAccessError::OutOfBoundsAccess.as_str_name(),
        "OUT_OF_BOUNDS_ACCESS"
    );
    assert_eq!(AllocationError::from_str_name("NOT_A_NAME"), None);
    assert_eq!(DeallocationError::from_str_name(""), None);
    assert_eq!(MemoryAccessError::from_str_name("out_of_bounds_access"), None);
}

#[test]
fn status_mapping_matches_the_contract_table() {
    assert_eq!(
        status_of_allocation_error(AllocationError::AllocationTooLarge),
        StatusKind::InvalidArgument
    );
    assert_eq!(
        status_of_allocation_error(AllocationError::InsufficientMemory),
        StatusKind::ResourceExhausted
    );
    assert_eq!(
        status_of_deallocation_error(DeallocationError::InvalidMemoryAddress),
        StatusKind::OutOfRange
    );
    assert_eq!(
        status_of_memory_access_error(MemoryAccessError::InvalidMemoryAddress),
        StatusKind::NotFound
    );
    assert_eq!(
        status_of_memory_access_error(MemoryAccessError::OutOfBoundsAccess),
        StatusKind::OutOfRange
    );
}

#[test]
fn status_mapping_round_trips_for_mapped_kinds() {
    for e in [
        AllocationError::AllocationTooLarge,
        AllocationError::InsufficientMemory,
    ] {
        assert_eq!(allocation_error_of_status(status_of_allocation_error(e)), e);
    }
    assert_eq!(
        deallocation_error_of_status(status_of_deallocation_error(
            DeallocationError::InvalidMemoryAddress
        )),
        DeallocationError::InvalidMemoryAddress
    );
    for e in [
        MemoryAccessError::InvalidMemoryAddress,
        MemoryAccessError::OutOfBoundsAccess,
    ] {
        assert_eq!(
            memory_access_error_of_status(status_of_memory_access_error(e)),
            e
        );
    }
}

#[test]
fn unmapped_statuses_degrade_to_unspecified() {
    assert_eq!(
        allocation_error_of_status(StatusKind::Other),
        AllocationError::Unspecified
    );
    assert_eq!(
        allocation_error_of_status(StatusKind::NotFound),
        AllocationError::Unspecified
    );
    assert_eq!(
        deallocation_error_of_status(StatusKind::NotFound),
        DeallocationError::Unspecified
    );
    assert_eq!(
        memory_access_error_of_status(StatusKind::InvalidArgument),
        MemoryAccessError::Unspecified
    );
}

#[test]
fn memory_error_wraps_each_family() {
    assert_eq!(
        MemoryError::from(AllocationError::AllocationTooLarge),
        MemoryError::AllocationError(AllocationError::AllocationTooLarge)
    );
    assert_eq!(
        MemoryError::from(DeallocationError::InvalidMemoryAddress),
        MemoryError::DeallocationError(DeallocationError::InvalidMemoryAddress)
    );
    assert_eq!(
        MemoryError::from(MemoryAccessError::OutOfBoundsAccess),
        MemoryError::MemoryAccessError(MemoryAccessError::OutOfBoundsAccess)
    );
}

#[test]
fn error_messages_are_fixed() {
    assert_eq!(
        AllocationError::AllocationTooLarge.message(),
        "requested too much memory in allocation"
    );
    assert_eq!(
        DeallocationError::InvalidMemoryAddress.message(),
        "couldn't locate memory address to deallocate"
    );
    assert_eq!(
        MemoryAccessError::InvalidMemoryAddress.message(),
        "couldn't locate memory address"
    );
    assert_eq!(
        MemoryAccessError::OutOfBoundsAccess.message(),
        "memory access out of bounds"
    );
    assert_eq!(
        MemoryError::AllocationError(AllocationError::Unspecified).message(),
        "unspecified allocation failure"
    );
    assert_eq!(
        MemoryError::MemoryAccessError(MemoryAccessError::OutOfBoundsAccess).message(),
        "memory access out of bounds"
    );
}

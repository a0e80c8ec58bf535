use remote_memory::errors::{AllocationError, DeallocationError, MemoryAccessError};
use remote_memory::memory::{DataNode, MAX_ALLOCATION};

#[test]
fn allocate_within_limit_returns_sequential_ids() {
    let mut node = DataNode::new();
    assert_eq!(node.allocate_memory(10).unwrap(), 0);
    assert_eq!(node.allocate_memory(0).unwrap(), 1);
    assert_eq!(node.allocate_memory(MAX_ALLOCATION).unwrap(), 2);
    assert_eq!(node.region_count(), 3);
}

#[test]
fn allocate_over_limit_is_rejected() {
    let mut node = DataNode::new();
    let r = node.allocate_memory(MAX_ALLOCATION + 1);
    assert_eq!(r, Err(AllocationError::AllocationTooLarge));
    assert_eq!(node.region_count(), 0);
}

#[test]
fn fresh_region_is_zero_filled() {
    let mut node = DataNode::new();
    let id = node.allocate_memory(4).unwrap();
    assert_eq!(node.read_memory(id, 0, 4).unwrap(), vec![0u8, 0, 0, 0]);
}

#[test]
fn bounds_checks_are_exact() {
    let mut node = DataNode::new();
    let id = node.allocate_memory(10).unwrap();

    // A span that ends exactly at the region's size is accepted.
    assert!(node.read_memory(id, 0, 10).is_ok());
    assert!(node.read_memory(id, 10, 0).is_ok());
    assert!(node.write_memory(id, 6, &[1, 2, 3, 4]).is_ok());

    // One byte past the end is rejected, for reads and writes alike.
    assert_eq!(
        node.read_memory(id, 0, 11),
        Err(MemoryAccessError::OutOfBoundsAccess)
    );
    assert_eq!(
        node.read_memory(id, 7, 4),
        Err(MemoryAccessError::OutOfBoundsAccess)
    );
    assert_eq!(
        node.write_memory(id, 7, &[1, 2, 3, 4]),
        Err(MemoryAccessError::OutOfBoundsAccess)
    );
}

#[test]
fn write_read_round_trip() {
    let mut node = DataNode::new();
    let id = node.allocate_memory(8).unwrap();
    node.write_memory(id, 3, &[7, 8, 9]).unwrap();
    assert_eq!(node.read_memory(id, 3, 3).unwrap(), vec![7u8, 8, 9]);
}

#[test]
fn write_touches_only_its_span() {
    let mut node = DataNode::new();
    let id = node.allocate_memory(6).unwrap();
    node.write_memory(id, 0, &[1, 2, 3, 4, 5, 6]).unwrap();
    node.write_memory(id, 2, &[9, 9]).unwrap();
    assert_eq!(node.read_memory(id, 0, 6).unwrap(), vec![1u8, 2, 9, 9, 5, 6]);
}

#[test]
fn operations_on_unknown_id_fail() {
    let mut node = DataNode::new();
    assert_eq!(
        node.read_memory(5, 0, 1),
        Err(MemoryAccessError::InvalidMemoryAddress)
    );
    assert_eq!(
        node.write_memory(5, 0, &[1]),
        Err(MemoryAccessError::InvalidMemoryAddress)
    );
    assert_eq!(
        node.get_memory_size(5),
        Err(MemoryAccessError::InvalidMemoryAddress)
    );
    assert_eq!(
        node.free_memory(5),
        Err(DeallocationError::InvalidMemoryAddress)
    );
}

#[test]
fn free_is_terminal() {
    let mut node = DataNode::new();
    let id = node.allocate_memory(4).unwrap();
    assert_eq!(node.free_memory(id), Ok(()));

    assert_eq!(
        node.read_memory(id, 0, 1),
        Err(MemoryAccessError::InvalidMemoryAddress)
    );
    assert_eq!(
        node.write_memory(id, 0, &[1]),
        Err(MemoryAccessError::InvalidMemoryAddress)
    );
    assert_eq!(
        node.get_memory_size(id),
        Err(MemoryAccessError::InvalidMemoryAddress)
    );
    assert_eq!(
        node.free_memory(id),
        Err(DeallocationError::InvalidMemoryAddress)
    );
}

#[test]
fn freed_id_is_never_reissued() {
    let mut node = DataNode::new();
    let first = node.allocate_memory(4).unwrap();
    node.free_memory(first).unwrap();
    let second = node.allocate_memory(4).unwrap();
    assert_ne!(first, second);
}

#[test]
fn get_memory_size_reports_fixed_size() {
    let mut node = DataNode::new();
    let id = node.allocate_memory(123).unwrap();
    assert_eq!(node.get_memory_size(id), Ok(123));
    node.write_memory(id, 0, &[1, 2, 3]).unwrap();
    assert_eq!(node.get_memory_size(id), Ok(123));
}

#[test]
fn node_scenario_write_then_read_window() {
    let mut node = DataNode::new();
    let id = node.allocate_memory(10).unwrap();
    node.write_memory(id, 2, &[1, 2, 3, 4]).unwrap();
    assert_eq!(
        node.read_memory(id, 0, 10).unwrap(),
        vec![0u8, 0, 1, 2, 3, 4, 0, 0, 0, 0]
    );
    assert_eq!(
        node.read_memory(id, 8, 4),
        Err(MemoryAccessError::OutOfBoundsAccess)
    );
    node.free_memory(id).unwrap();
    assert_eq!(
        node.read_memory(id, 0, 1),
        Err(MemoryAccessError::InvalidMemoryAddress)
    );
}

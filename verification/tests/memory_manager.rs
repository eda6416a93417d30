use native_api_1c::ffi::memory_manager::{
    blob_byte_size, checked_allocation, str_byte_size, AllocationError, MemoryManager,
    NonNullBuffer, ARENA_BASE,
};

#[test]
fn non_null_buffer_refuses_null() {
    assert!(NonNullBuffer::new(0).is_none());
    assert_eq!(NonNullBuffer::new(0x20).unwrap().as_ptr(), 0x20);
}

#[test]
fn checked_allocation_needs_success_and_address() {
    assert_eq!(checked_allocation(true, 0x40).unwrap().as_ptr(), 0x40);
    assert_eq!(checked_allocation(true, 0), Err(AllocationError));
    assert_eq!(checked_allocation(false, 0x40), Err(AllocationError));
    assert_eq!(checked_allocation(false, 0), Err(AllocationError));
}

#[test]
fn text_takes_two_bytes_a_unit() {
    assert_eq!(str_byte_size(0), Some(0));
    assert_eq!(str_byte_size(5), Some(10));
    assert_eq!(blob_byte_size(5), 5);
}

#[test]
fn buffers_are_carved_in_rising_order() {
    let mut mem = MemoryManager::new(1024);
    let a = mem.alloc_str(3).unwrap().as_ptr();
    let b = mem.alloc_blob(9).unwrap().as_ptr();
    let c = mem.alloc_str(0).unwrap().as_ptr();
    let d = mem.alloc_blob(0).unwrap().as_ptr();
    assert_eq!(a, ARENA_BASE);
    // 3 units are 6 bytes, which take 8 addresses
    assert_eq!(b, ARENA_BASE + 8);
    // 9 bytes take 16 addresses
    assert_eq!(c, ARENA_BASE + 24);
    // an empty buffer takes 8 addresses
    assert_eq!(d, ARENA_BASE + 32);
    assert!(mem.is_live(a) && mem.is_live(b) && mem.is_live(c) && mem.is_live(d));
}

#[test]
fn eight_bytes_take_sixteen_addresses() {
    let mut mem = MemoryManager::new(1024);
    let a = mem.alloc_blob(8).unwrap().as_ptr();
    let b = mem.alloc_blob(1).unwrap().as_ptr();
    assert_eq!(b - a, 16);
}

#[test]
fn new_buffers_hold_zeros() {
    let mut mem = MemoryManager::new(64);
    let a = mem.alloc_str(2).unwrap().as_ptr();
    let b = mem.alloc_blob(3).unwrap().as_ptr();
    assert_eq!(mem.read_str(a, 2), Some(vec![0, 0]));
    assert_eq!(mem.read_blob(b, 3), Some(vec![0, 0, 0]));
}

#[test]
fn allocation_fails_when_the_range_is_used_up() {
    let mut mem = MemoryManager::new(16);
    assert!(mem.alloc_blob(7).is_ok());
    // 8 addresses are left, and 8 bytes need 16
    assert_eq!(mem.alloc_blob(8).err(), Some(AllocationError));
    assert!(mem.alloc_blob(7).is_ok());
    assert_eq!(mem.alloc_blob(0).err(), Some(AllocationError));
    assert_eq!(mem.alloc_str(0).err(), Some(AllocationError));
}

#[test]
fn allocator_without_room_gives_nothing() {
    let mut mem = MemoryManager::new(0);
    assert!(mem.alloc_str(1).is_err());
    assert!(mem.alloc_blob(0).is_err());
}

#[test]
fn text_needs_twice_its_length() {
    let mut mem = MemoryManager::new(16);
    // 8 units are 16 bytes, which take 24 addresses
    assert!(mem.alloc_str(8).is_err());
    // 7 units are 14 bytes, which take 16
    assert!(mem.alloc_str(7).is_ok());
}

#[test]
fn written_text_is_read_back() {
    let mut mem = MemoryManager::new(64);
    let a = mem.alloc_str(4).unwrap().as_ptr();
    assert!(mem.write_str(a, &[10, 20, 30]));
    assert_eq!(mem.read_str(a, 4), Some(vec![10, 20, 30, 0]));
    assert_eq!(mem.read_str(a, 2), Some(vec![10, 20]));
    assert_eq!(mem.read_str(a, 0), Some(vec![]));
    assert_eq!(mem.read_str(a, 5), None);
}

#[test]
fn written_bytes_are_read_back() {
    let mut mem = MemoryManager::new(64);
    let a = mem.alloc_blob(3).unwrap().as_ptr();
    assert!(mem.write_blob(a, &[1, 2, 3]));
    assert_eq!(mem.read_blob(a, 3), Some(vec![1, 2, 3]));
    assert_eq!(mem.read_blob(a, 4), None);
}

#[test]
fn writing_needs_a_buffer_of_the_kind_that_is_long_enough() {
    let mut mem = MemoryManager::new(64);
    let text = mem.alloc_str(2).unwrap().as_ptr();
    let data = mem.alloc_blob(2).unwrap().as_ptr();
    assert!(!mem.write_str(text, &[1, 2, 3]));
    assert!(!mem.write_str(data, &[1]));
    assert!(!mem.write_blob(text, &[1]));
    assert!(!mem.write_blob(data, &[1, 2, 3]));
    assert!(!mem.write_str(0, &[]));
    assert!(!mem.write_str(text + 1, &[]));
    assert_eq!(mem.read_str(text, 2), Some(vec![0, 0]));
    assert_eq!(mem.read_blob(data, 2), Some(vec![0, 0]));
}

#[test]
fn reading_needs_a_buffer_of_the_kind() {
    let mut mem = MemoryManager::new(64);
    let text = mem.alloc_str(2).unwrap().as_ptr();
    let data = mem.alloc_blob(2).unwrap().as_ptr();
    assert_eq!(mem.read_blob(text, 1), None);
    assert_eq!(mem.read_str(data, 1), None);
    assert_eq!(mem.read_str(0, 0), None);
    assert_eq!(mem.read_str(text + 2, 0), None);
}

#[test]
fn free_memory_ends_the_buffer_and_nulls_the_pointer() {
    let mut mem = MemoryManager::new(64);
    let a = mem.alloc_str(2).unwrap().as_ptr();
    let b = mem.alloc_str(2).unwrap().as_ptr();
    let mut ptr = a;
    mem.free_memory(&mut ptr);
    assert_eq!(ptr, 0);
    assert!(!mem.is_live(a));
    assert!(mem.is_live(b));
    assert_eq!(mem.read_str(a, 0), None);
}

#[test]
fn free_memory_of_null_or_unknown_address_changes_nothing() {
    let mut mem = MemoryManager::new(64);
    let a = mem.alloc_str(2).unwrap().as_ptr();
    let mut null = 0;
    mem.free_memory(&mut null);
    let mut wild = a + 2;
    mem.free_memory(&mut wild);
    assert_eq!(wild, 0);
    assert!(mem.is_live(a));
}

#[test]
fn freed_addresses_are_not_handed_out_again() {
    let mut mem = MemoryManager::new(64);
    let a = mem.alloc_blob(1).unwrap().as_ptr();
    let mut ptr = a;
    mem.free_memory(&mut ptr);
    let b = mem.alloc_blob(1).unwrap().as_ptr();
    assert!(b > a);
}

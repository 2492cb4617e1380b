use cedar_bridge::marshal::pack_ptr_len;
use cedar_bridge::marshal::unpack_addr;
use cedar_bridge::marshal::unpack_len;
use cedar_bridge::memory::MemoryTable;

#[test]
fn allocate_deallocate() {
    let mut mem = MemoryTable::new();
    let ptr = mem.allocate(10);
    assert_eq!(mem.contains(ptr), true);
    mem.deallocate(ptr, 10);
    assert_eq!(mem.contains(ptr), false);
    let ptr = mem.allocate(10);
    assert_eq!(mem.contains(ptr), true);
    let ptr2 = mem.allocate(10);
    assert_eq!(mem.contains(ptr), true);
    assert_ne!(ptr, ptr2);
    assert_eq!(mem.live_count(), 2);
    mem.deallocate(ptr, 10);
    assert_eq!(mem.contains(ptr), false);
    assert_eq!(mem.live_count(), 1);
    mem.deallocate(ptr2, 10);
    assert_eq!(mem.contains(ptr2), false);
    assert_eq!(mem.live_count(), 0);
}

#[test]
fn second_release_is_refused() {
    let mut mem = MemoryTable::new();
    let ptr = mem.allocate(0);
    assert!(mem.try_deallocate(ptr, 0));
    assert_eq!(mem.contains(ptr), false);
    assert!(!mem.try_deallocate(ptr, 0));
    assert_eq!(mem.live_count(), 0);
}

#[test]
fn release_with_wrong_size_is_refused() {
    let mut mem = MemoryTable::new();
    let ptr = mem.allocate(4);
    assert!(!mem.try_deallocate(ptr, 5));
    assert_eq!(mem.contains(ptr), true);
    assert!(mem.try_deallocate(ptr, 4));
}

#[test]
fn buffers_round_trip_bytes() {
    let mut mem = MemoryTable::new();
    let addr = mem.allocate(5);
    assert_eq!(mem.read_buffer(addr, 5), vec![0u8; 5]);
    mem.write_buffer(addr, vec![104, 101, 108, 108, 111]);
    assert_eq!(mem.read_buffer(addr, 5), b"hello".to_vec());
    let out = mem.hand_out(b"world".to_vec());
    assert_ne!(out, addr);
    assert_eq!(mem.read_handed(out, 5), b"world".to_vec());
    assert_eq!(mem.contains(out), false);
}

#[test]
fn packed_word_halves() {
    let w = pack_ptr_len(7, 9);
    assert_eq!(w, (7u64 << 32) | 9u64);
    assert_eq!(unpack_addr(w), 7);
    assert_eq!(unpack_len(w), 9);
    let w2 = pack_ptr_len(0x1234_5678, 0x9abc_def0);
    assert_eq!(unpack_addr(w2), 0x1234_5678);
    assert_eq!(unpack_len(w2), 0x9abc_def0);
    assert_eq!(pack_ptr_len(0, 0), 0);
    assert_eq!(unpack_addr(u64::MAX), u32::MAX);
    assert_eq!(unpack_len(u64::MAX), u32::MAX);
}

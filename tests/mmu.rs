use larva::exec::mem::{align_to_page, get_page_shift, GuestAddr, GuestMmu, HostAddr, MmuError};

fn mmu() -> GuestMmu {
    GuestMmu::new(4096, 4096).unwrap()
}

#[test]
fn page_shift_and_alignment() {
    assert_eq!(get_page_shift(4096), Some(12));
    assert_eq!(get_page_shift(1024), Some(10));
    assert_eq!(get_page_shift(1048576), Some(20));
    assert_eq!(get_page_shift(3000), None);
    assert_eq!(align_to_page(1, 4096, 12), 4096);
    assert_eq!(align_to_page(4096, 4096, 12), 4096);
    assert_eq!(align_to_page(4097, 4096, 12), 8192);
    assert_eq!(align_to_page(0, 4096, 12), 0);
}

#[test]
fn unsupported_page_size_is_refused() {
    assert!(matches!(GuestMmu::new(1000, 4096), Err(MmuError::UnsupportedPageSize)));
    assert!(matches!(GuestMmu::new(4096, 12345), Err(MmuError::UnsupportedPageSize)));
}

#[test]
fn zero_length_requests_fail() {
    let mut m = mmu();
    assert_eq!(m.mmap(0, false), Err(MmuError::InvalidLength));
    assert_eq!(m.consume_host(Vec::new()), Err(MmuError::InvalidLength));
    assert_eq!(m.consume_host_mut(Vec::new()), Err(MmuError::InvalidLength));
}

#[test]
fn oversized_requests_fail() {
    let mut m = mmu();
    assert_eq!(m.mmap(usize::MAX - 10, false), Err(MmuError::TooLarge));
    assert_eq!(m.mmap(1usize << 62, false), Err(MmuError::HostFailure));
}

#[test]
fn fresh_region_is_zeroed_and_rounded_up() {
    let mut m = mmu();
    let g = m.mmap(100, false).unwrap();
    assert_eq!(m.load(g.as_u64(), 8), Some(0));
    assert_eq!(m.read_u8(g.as_u64() + 4095), Some(0));
    assert_eq!(m.read_u8(g.as_u64() + 4096), None);
    assert_eq!(m.read_u8(g.as_u64().wrapping_sub(1)), None);
}

#[test]
fn translation_inside_and_outside_regions() {
    let mut m = mmu();
    let g = m.mmap(4096, false).unwrap();
    assert_eq!(m.g2h(g), Some(HostAddr(g.as_u64())));
    assert_eq!(align_to_page(5000, 65536, 16), 65536);
    assert_eq!(m.g2h(GuestAddr(g.as_u64() + 100)), Some(HostAddr(g.as_u64() + 100)));
    assert_eq!(m.g2h(GuestAddr(g.as_u64() + 4096)), None);
    let h = m.mmap(8192, true).unwrap();
    assert_ne!(g, h);
    assert_eq!(m.g2h(GuestAddr(h.as_u64() + 8191)), Some(HostAddr(h.as_u64() + 8191)));
}

#[test]
fn store_then_load_round_trips() {
    let mut m = mmu();
    let g = m.mmap(64, false).unwrap().as_u64();
    let v: u64 = 0x0123_4567_89ab_cdef;
    assert!(m.store(g + 8, 8, v));
    assert_eq!(m.load(g + 8, 8), Some(v));
    assert_eq!(m.read_u8(g + 8), Some(0xef));
    assert_eq!(m.read_u8(g + 15), Some(0x01));
    assert!(m.store(g + 8, 4, 0xdead_beef_cafe_f00d));
    assert_eq!(m.load(g + 8, 4), Some(0xcafe_f00d));
    assert_eq!(m.load(g + 8, 8), Some(0x0123_4567_cafe_f00d));
    assert!(m.write_u8(g, 7));
    assert_eq!(m.read_u8(g), Some(7));
}

#[test]
fn access_across_the_region_end_faults() {
    let mut m = mmu();
    let g = m.mmap(4096, false).unwrap().as_u64();
    assert_eq!(m.load(g + 4092, 8), None);
    assert!(!m.store(g + 4092, 8, 1));
    assert_eq!(m.load(g + 4092, 4), Some(0));
}

#[test]
fn injected_image_is_readable_not_writable() {
    let mut m = mmu();
    let g = m.consume_host(vec![1, 2, 3, 4]).unwrap().as_u64();
    assert_eq!(m.read_u8(g + 1), Some(2));
    assert_eq!(m.load(g, 4), Some(0x0403_0201));
    assert!(!m.is_writable(g));
    assert!(!m.write_u8(g, 9));
    assert!(!m.store(g, 2, 9));
    assert_eq!(m.read_u8(g), Some(1));
    let w = m.consume_host_mut(vec![5, 6]).unwrap().as_u64();
    assert!(m.store(w, 2, 0x0807));
    assert_eq!(m.load(w, 2), Some(0x0807));
}

#[test]
fn munmap_removes_every_intersecting_region_whole() {
    let mut m = mmu();
    let g = m.mmap(8192, false).unwrap();
    let h = m.consume_host(vec![1, 2, 3]).unwrap();
    m.munmap(GuestAddr(g.as_u64() + 4096), 1);
    assert_eq!(m.read_u8(g.as_u64()), None);
    assert_eq!(m.read_u8(g.as_u64() + 5000), None);
    assert_eq!(m.read_u8(h.as_u64()), Some(1));
    m.munmap(h, 3);
    assert_eq!(m.g2h(h), None);
}

#[test]
fn guest_address_arithmetic() {
    let a = GuestAddr::from(100u64);
    assert_eq!(u64::from(a), 100);
    assert_eq!(a.offset_by(28), Some(GuestAddr(128)));
    assert_eq!(GuestAddr(u64::MAX).offset_by(1), None);
    assert_eq!(GuestAddr(128).distance_from(a), Some(28));
    assert_eq!(a.distance_from(GuestAddr(128)), None);
}

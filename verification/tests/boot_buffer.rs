use smallos_std::kernel_vec::KernelVec;
use smallos_std::region::Region;

fn region_bytes(mem: &Region, from: u32, n: u32) -> Vec<u8> {
    let mut out: Vec<u8> = Vec::new();
    let mut i: u32 = 0;
    while i < n {
        out.push(mem.read_byte(from + i));
        i += 1;
    }
    out
}

#[test]
fn fresh_buffer_state() {
    let v = KernelVec::new(0x1000);
    assert_eq!(v.length, 0);
    assert_eq!(v.location, 0x1000);
}

#[test]
fn region_starts_zeroed() {
    let mem = Region::new(0x1000, 16);
    assert_eq!(mem.base(), 0x1000);
    assert_eq!(mem.size(), 16);
    for i in 0..16u32 {
        assert_eq!(mem.read_byte(0x1000 + i), 0);
    }
}

#[test]
fn append_u32_scenario() {
    let mut mem = Region::new(0x1000, 16);
    let mut v = KernelVec::new(0x1000);
    v.push_u32(&mut mem, 7);
    assert_eq!(v.length, 1);
    assert_eq!(v.location, 0x1004);
    assert_eq!(region_bytes(&mem, 0x1000, 4), vec![0x07, 0x00, 0x00, 0x00]);
}

#[test]
fn append_u16_after_u32_scenario() {
    let mut mem = Region::new(0x1000, 16);
    let mut v = KernelVec::new(0x1000);
    v.push_u32(&mut mem, 7);
    v.push_u16(&mut mem, 3);
    assert_eq!(v.length, 2);
    assert_eq!(v.location, 0x1006);
    assert_eq!(
        region_bytes(&mem, 0x1000, 6),
        vec![0x07, 0x00, 0x00, 0x00, 0x03, 0x00]
    );
}

#[test]
fn first_append_from_fresh_buffer() {
    let mut mem = Region::new(0x2000, 8);
    let mut v = KernelVec::new(0x2000);
    assert_eq!(v.length, 0);
    v.push_u16(&mut mem, 0xBEEF);
    assert_eq!(v.length, 1);
    assert_eq!(v.location, 0x2000 + 2);
}

#[test]
fn little_endian_layout_u32() {
    let mut mem = Region::new(0x1000, 4);
    let mut v = KernelVec::new(0x1000);
    v.push_u32(&mut mem, 0x12345678);
    assert_eq!(region_bytes(&mem, 0x1000, 4), vec![0x78, 0x56, 0x34, 0x12]);
}

#[test]
fn little_endian_layout_u16() {
    let mut mem = Region::new(0x1000, 2);
    let mut v = KernelVec::new(0x1000);
    v.push_u16(&mut mem, 0xBEEF);
    assert_eq!(region_bytes(&mem, 0x1000, 2), vec![0xEF, 0xBE]);
}

#[test]
fn push_u8_single_byte() {
    let mut mem = Region::new(0x3000, 4);
    let mut v = KernelVec::new(0x3000);
    v.push_u8(&mut mem, 0xAB);
    assert_eq!(v.length, 1);
    assert_eq!(v.location, 0x3001);
    assert_eq!(mem.read_byte(0x3000), 0xAB);
    assert_eq!(mem.read_byte(0x3001), 0x00);
}

#[test]
fn push_bytes_raw_pattern() {
    let mut mem = Region::new(0x1000, 8);
    let mut v = KernelVec::new(0x1000);
    let data = vec![0xDE, 0xAD, 0xBE, 0xEF, 0x01];
    v.push_bytes(&mut mem, &data);
    assert_eq!(v.length, 1);
    assert_eq!(v.location, 0x1005);
    assert_eq!(region_bytes(&mem, 0x1000, 5), data);
}

#[test]
fn cursor_accumulates_sizes_and_length_counts_appends() {
    let mut mem = Region::new(0x4000, 32);
    let mut v = KernelVec::new(0x4000);
    v.push_u32(&mut mem, 1);
    v.push_u16(&mut mem, 2);
    v.push_u8(&mut mem, 3);
    v.push_u32(&mut mem, 4);
    assert_eq!(v.length, 4);
    assert_eq!(v.location, 0x4000 + 4 + 2 + 1 + 4);
}

#[test]
fn bytes_outside_write_untouched() {
    let mut mem = Region::new(0x1000, 8);
    let mut v = KernelVec::new(0x1002);
    v.push_u16(&mut mem, 0xFFFF);
    assert_eq!(mem.read_byte(0x1000), 0x00);
    assert_eq!(mem.read_byte(0x1001), 0x00);
    assert_eq!(mem.read_byte(0x1002), 0xFF);
    assert_eq!(mem.read_byte(0x1003), 0xFF);
    assert_eq!(mem.read_byte(0x1004), 0x00);
}

#[test]
fn two_buffers_disjoint_ranges_no_interference() {
    let mut mem = Region::new(0x1000, 8);
    let mut a = KernelVec::new(0x1000);
    let mut b = KernelVec::new(0x1004);
    a.push_u32(&mut mem, 0xAABBCCDD);
    b.push_u32(&mut mem, 0x11223344);
    assert_eq!(
        region_bytes(&mem, 0x1000, 4),
        vec![0xDD, 0xCC, 0xBB, 0xAA]
    );
    assert_eq!(
        region_bytes(&mem, 0x1004, 4),
        vec![0x44, 0x33, 0x22, 0x11]
    );
    assert_eq!(a.length, 1);
    assert_eq!(b.length, 1);
    assert_eq!(a.location, 0x1004);
    assert_eq!(b.location, 0x1008);
}

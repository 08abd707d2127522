use phoenix::Mmu;

#[test]
fn test_memory_bounds() {
    let mut mmu = Mmu::default();
    assert_eq!(mmu.read_byte(0x0000), 0);
    assert_eq!(mmu.read_byte(0xFFFE), 0);
    mmu.write_byte(0xDEAD, 0xAF);
    assert_eq!(mmu.read_byte(0xDEAD), 0xAF);
}

#[test]
fn test_long_conversions() {
    let mut mmu = Mmu::default();
    mmu.write_long(0x1234, 0xDEADBEEF);
    assert_eq!(mmu.read_long(0x1234), 0xDEADBEEF);

    mmu.write_long(0xABCE, 0x001A02F0);
    assert_eq!(mmu.read_long(0xABCE), 0x001A02F0);
}

#[test]
fn test_word_conversions() {
    let mut mmu = Mmu::default();
    mmu.write_word(0x1234, 0xBEEF);
    assert_eq!(mmu.read_word(0x1234), 0xBEEF);

    mmu.write_word(0xABCE, 0x02F0);
    assert_eq!(mmu.read_word(0xABCE), 0x02F0);
}

#[test]
fn test_address_masking() {
    let mut mmu = Mmu::default();
    // the upper byte of an address is ignored by the 24-bit bus
    mmu.write_byte(0xFF00_0042, 0x5A);
    assert_eq!(mmu.read_byte(0x0000_0042), 0x5A);
    mmu.write_word(0x1200_0042, 0xBEAD);
    assert_eq!(mmu.read_word(0x0042), 0xBEAD);
}

#[test]
fn test_big_endian_layout() {
    let mut mmu = Mmu::default();
    mmu.write_long(0x2000, 0x0102_0304);
    assert_eq!(mmu.read_byte(0x2000), 0x01);
    assert_eq!(mmu.read_byte(0x2001), 0x02);
    assert_eq!(mmu.read_byte(0x2002), 0x03);
    assert_eq!(mmu.read_byte(0x2003), 0x04);
    assert_eq!(mmu.read_word(0x2000), 0x0102);
    assert_eq!(mmu.read_word(0x2002), 0x0304);
}

#[test]
fn test_load_places_image_at_zero() {
    let mut mmu = Mmu::default();
    let image = vec![0xAAu8, 0xBB, 0xCC, 0xDD];
    mmu.load(&image);
    assert_eq!(mmu.read_byte(0), 0xAA);
    assert_eq!(mmu.read_byte(3), 0xDD);
    assert_eq!(mmu.read_byte(4), 0);
    assert_eq!(mmu.get_slice().len(), phoenix::RAM_SIZE);
}

#[test]
fn test_from_vec_pads_with_zeros() {
    let mmu = Mmu::from_vec(vec![1u8, 2, 3]);
    assert_eq!(mmu.read_byte(0), 1);
    assert_eq!(mmu.read_byte(2), 3);
    assert_eq!(mmu.read_byte(3), 0);
    assert_eq!(mmu.read_byte(0xFFFFFF), 0);
}

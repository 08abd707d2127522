use phoenix::byte_to_packed_bcd;
use phoenix::get_bits;
use phoenix::is_bit_set;
use phoenix::is_carry;
use phoenix::is_negative;
use phoenix::is_overflow;
use phoenix::sign_extend_16_to_32;
use phoenix::sign_transmute;
use phoenix::sub_set_carry;
use phoenix::sub_set_overflow;
use phoenix::Size;
use phoenix::Value;

#[test]
fn types_test_is_bit_set() {
    assert!(!Value::Byte(0b1010_0010).is_bit_set(0));
    assert!(Value::Byte(0b1010_0010).is_bit_set(-1));
    assert!(Value::Word(0b1010_0010_1010_0010).is_bit_set(-1));
    assert!(Value::Long(0b1101_1000_1010_0010_1101_1000_1010_0010).is_bit_set(-1));
}

#[test]
fn util_test_is_bit_set() {
    assert!(!is_bit_set(0b0010_0000_1011_0101u16 as u32, 15));
    assert!(is_bit_set(0b0010_0000_1011_0101u16 as u32, 0));
    assert!(is_bit_set(0b0010_0000_1011_0101u16 as u32, 7));
}

#[test]
fn test_get_bits() {
    assert_eq!(get_bits(0b0000_1001_0101_0110, 0, 3), 0b110);
    assert_eq!(get_bits(0b0010_1001_0101_0110, 8, 8), 0b0010_1001);
    assert_eq!(get_bits(0b1010_1001_0101_0110, 12, 4), 0b1010);
}

#[test]
fn test_sign_extend_word() {
    assert_eq!(sign_extend_16_to_32(0x9012), 0xFFFF9012);
    assert_eq!(sign_extend_16_to_32(0x1012), 0x00001012);
    assert_eq!(sign_extend_16_to_32(0xF231), 0xFFFFF231);
}

#[test]
fn test_sign_transmute() {
    assert_eq!(sign_transmute(0xFFFF), -1);
    assert_eq!(sign_transmute(0), 0);
    assert_eq!(sign_transmute(10), 10);
    assert_eq!(sign_transmute(0xFFF6), -10);
}

#[test]
fn test_is_neg() {
    assert!(is_negative(0b1000_1011u8 as u32, Size::Byte));
    assert!(!is_negative(0b0100_1011u8 as u32, Size::Byte));
    assert!(is_negative(0b1010_1010_0100_1011u16 as u32, Size::Word));
    assert!(!is_negative(0b0101_0101_1000_1011u16 as u32, Size::Word));
    assert!(is_negative(0b1000_1011_1000_1011_1000_1011_1000_1011u32, Size::Long));
    assert!(!is_negative(0b0100_1011_1000_1011_1000_1011_1000_1011u32, Size::Long));
}

// 0x0F + 0xFA adds a positive to a negative byte: by the canonical formula
// such a sum can never overflow.
#[test]
fn test_is_overflow() {
    let a = 0x0Fu32;
    let b = 0xFAu32;
    assert!(!is_overflow(a, b, a + b, Size::Byte));
}

#[test]
fn test_is_overflow_signed_pair() {
    // 0x70 + 0x70 = 0xE0: two positive bytes with a negative sum overflow
    assert!(is_overflow(0x70, 0x70, 0xE0, Size::Byte));
    // carry: 0x80 + 0x80 wraps past zero at byte width
    assert!(is_carry(0x80, 0x80, 0x00, Size::Byte));
    assert!(!is_carry(0x10, 0x10, 0x20, Size::Byte));
}

#[test]
fn test_bcd() {
    assert_eq!(byte_to_packed_bcd(35), 0b0011_0101);
    assert_eq!(byte_to_packed_bcd(95), 0b1001_0101);
}

#[test]
fn test_bcd_edges() {
    assert_eq!(byte_to_packed_bcd(0), 0x00);
    assert_eq!(byte_to_packed_bcd(9), 0x09);
    assert_eq!(byte_to_packed_bcd(10), 0x10);
    assert_eq!(byte_to_packed_bcd(99), 0x99);
}

#[test]
fn test_carry() {
    assert!(sub_set_carry(0b0, 0b1, 0b1111_1111, Size::Byte));
    assert!(!sub_set_carry(0b1000_0000, 0b1, 0b0111_1111, Size::Byte));
}

#[test]
fn test_overflow() {
    assert!(sub_set_carry(0b0, 0b1, 0b1111_1111, Size::Byte));
    assert!(!sub_set_carry(0b1000_0000, 0b1, 0b0111_1111, Size::Byte));
}

#[test]
fn test_sub_overflow_formula() {
    // 0x80 - 0x01 = 0x7F: most negative byte minus one overflows
    assert!(sub_set_overflow(0x80, 0x01, 0x7F, Size::Byte));
    // 0x10 - 0x01 = 0x0F does not
    assert!(!sub_set_overflow(0x10, 0x01, 0x0F, Size::Byte));
    // 0x80 - 0x80 = 0 borrows nothing
    assert!(!sub_set_carry(0x80, 0x80, 0x00, Size::Byte));
}

use hal_core::bits::{clear_bit, get_bit, set_bit};
use hal_core::mmio::Mmio;

#[test]
fn set_bit_exact_values() {
    assert_eq!(set_bit(0, 5), 32);
    assert_eq!(set_bit(0xFF00, 0), 0xFF01);
    assert_eq!(set_bit(0x8000_0000, 31), 0x8000_0000);
}

#[test]
fn clear_bit_exact_values() {
    assert_eq!(clear_bit(0xFF, 0), 0xFE);
    assert_eq!(clear_bit(32, 5), 0);
    assert_eq!(clear_bit(0, 12), 0);
}

#[test]
fn get_bit_reads_single_bits() {
    assert!(get_bit(0b100, 2));
    assert!(!get_bit(0b100, 1));
    assert!(get_bit(0x8000_0000, 31));
}

#[test]
fn set_then_clear_restores_word_with_bit_clear() {
    let word: u32 = 0b1010_0001;
    let set = set_bit(word, 3);
    assert_eq!(clear_bit(set, 3), word);
}

#[test]
fn zeroed_bus_reads_zero_everywhere() {
    let bus = Mmio::new_zeroed(8);
    assert_eq!(bus.len(), 8);
    let mut a: usize = 0;
    while a < 8 {
        assert_eq!(bus.read(a), 0);
        a += 1;
    }
}

#[test]
fn bus_write_updates_one_word_and_preserves_the_rest() {
    let mut bus = Mmio::new_zeroed(8);
    bus.write(3, 0xDEAD_BEEF);
    assert_eq!(bus.read(3), 0xDEAD_BEEF);
    assert_eq!(bus.read(2), 0);
    assert_eq!(bus.read(4), 0);
    bus.write(3, 7);
    assert_eq!(bus.read(3), 7);
}

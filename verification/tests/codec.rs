//! Tests of the bit-field codec, including a cross-check against the
//! `bit_field` crate's range operations.

use apic::bits::{get_bit, get_bits, set_bit, set_bits};
use bit_field::BitField;

#[test]
fn get_bits_extracts_shifted_to_zero() {
    assert_eq!(get_bits(0xdead_beef, 0, 8), 0xef);
    assert_eq!(get_bits(0xdead_beef, 8, 16), 0xbe);
    assert_eq!(get_bits(0xdead_beef, 16, 24), 0xad);
    assert_eq!(get_bits(0xdead_beef, 24, 32), 0xde);
    assert_eq!(get_bits(0xdead_beef, 0, 32), 0xdead_beef);
    assert_eq!(get_bits(0x8000_0000, 31, 32), 1);
}

#[test]
fn set_bits_round_trip() {
    let w = set_bits(0xdead_beef, 8, 16, 0xab);
    assert_eq!(get_bits(w, 8, 16), 0xab);
    // every other field keeps its prior value
    assert_eq!(get_bits(w, 0, 8), 0xef);
    assert_eq!(get_bits(w, 16, 24), 0xad);
    assert_eq!(get_bits(w, 24, 32), 0xde);
}

#[test]
fn set_bits_clears_before_inserting() {
    let w = set_bits(0xffff_ffff, 8, 16, 0x00);
    assert_eq!(w, 0xffff_00ff);
    let w2 = set_bits(0x0000_0000, 24, 28, 0xf);
    assert_eq!(w2, 0x0f00_0000);
}

#[test]
fn single_bit_get_set() {
    assert!(get_bit(0x0000_0100, 8));
    assert!(!get_bit(0x0000_0100, 9));
    let w = set_bit(0, 31, true);
    assert_eq!(w, 0x8000_0000);
    let w2 = set_bit(w, 31, false);
    assert_eq!(w2, 0);
}

#[test]
fn field_isolation_samples() {
    // setting field A never changes the decoded value of a disjoint field B
    let samples = [0u32, 0xffff_ffff, 0x1234_5678, 0x8000_0001, 0x0f0f_0f0f];
    for &word in samples.iter() {
        for &value in [0u32, 1, 0x55, 0xff].iter() {
            let w = set_bits(word, 8, 16, value);
            assert_eq!(get_bits(w, 0, 8), get_bits(word, 0, 8));
            assert_eq!(get_bits(w, 16, 24), get_bits(word, 16, 24));
            assert_eq!(get_bits(w, 24, 32), get_bits(word, 24, 32));
            assert_eq!(get_bits(w, 8, 16), value);
        }
    }
}

#[test]
fn matches_bit_field_crate() {
    let words = [0u32, 0xffff_ffff, 0xdead_beef, 0x0badf00d, 0x8000_0001];
    let ranges = [(0usize, 8usize), (8, 11), (11, 12), (16, 24), (24, 28), (24, 32), (0, 32)];
    for &word in words.iter() {
        for &(lo, hi) in ranges.iter() {
            let reference = word.get_bits(lo..hi);
            assert_eq!(get_bits(word, lo as u32, hi as u32), reference);

            let width = hi - lo;
            let value = if width >= 32 { 0x5a5a_5a5a } else { 0x5a5a_5a5au32 % (1 << width) };
            let mut expected = word;
            expected.set_bits(lo..hi, value);
            assert_eq!(set_bits(word, lo as u32, hi as u32, value), expected);
        }
        for bit in [0usize, 1, 3, 12, 16, 31] {
            assert_eq!(get_bit(word, bit as u32), word.get_bit(bit));
            let mut expected = word;
            expected.set_bit(bit, true);
            assert_eq!(set_bit(word, bit as u32, true), expected);
            let mut expected = word;
            expected.set_bit(bit, false);
            assert_eq!(set_bit(word, bit as u32, false), expected);
        }
    }
}

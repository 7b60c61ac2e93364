//! Value types of the local controller's registers.
//!
//! Each type wraps one raw 32-bit word read from (or to be written to) its
//! register and exposes only the accessors that are valid for that register:
//! read-only fields have no setter. A value is a snapshot of one read; field
//! mutations change only the wrapped word, and the whole word is written back
//! in one access through [`crate::ApicBase`].

use vstd::prelude::*;

use crate::access::RegisterMemory;
use crate::bits::{
    bit_of, bits_of, get_bit, get_bits, lemma_low_mask_values, lemma_set_bit_preserves_bit,
    lemma_set_bit_preserves_bits, lemma_set_bit_then_get_bit, lemma_set_then_get, set_bit,
    set_bits, with_bit, with_bits,
};

verus! {

/// Identification register: read-only.
#[derive(Debug, Copy, Clone)]
pub struct Id(u32);

impl View for Id {
    type V = u32;

    closed spec fn view(&self) -> u32 {
        self.0
    }
}

impl Id {
    /// Wraps a raw word read from the register.
    pub fn from_raw(raw: u32) -> (r: Self)
        ensures
            r@ == raw,
    {
        Id(raw)
    }

    /// The identifier assigned to the CPU core this controller serves
    /// (bits 24..32).
    pub fn id(&self) -> (r: u8)
        ensures
            r as u32 == bits_of(self@, 24, 32),
    {
        proof {
            lemma_low_mask_values();
        }
        let v: u32 = get_bits(self.0, 24, 32);
        v as u8
    }
}

/// Version register: read-only.
#[derive(Debug, Copy, Clone)]
pub struct Version(u32);

impl View for Version {
    type V = u32;

    closed spec fn view(&self) -> u32 {
        self.0
    }
}

impl Version {
    /// Wraps a raw word read from the register.
    pub fn from_raw(raw: u32) -> (r: Self)
        ensures
            r@ == raw,
    {
        Version(raw)
    }

    /// The version number of the controller implementation (bits 0..8).
    pub fn version(&self) -> (r: u8)
        ensures
            r as u32 == bits_of(self@, 0, 8),
    {
        proof {
            lemma_low_mask_values();
        }
        let v: u32 = get_bits(self.0, 0, 8);
        v as u8
    }

    /// The number of local-vector-table entries minus one (bits 16..24).
    pub fn max_lvt_entries(&self) -> (r: u8)
        ensures
            r as u32 == bits_of(self@, 16, 24),
    {
        proof {
            lemma_low_mask_values();
        }
        let v: u32 = get_bits(self.0, 16, 24);
        v as u8
    }

    /// Whether an extended register space is present (bit 31).
    pub fn extended_apic_register_space_present(&self) -> (r: bool)
        ensures
            r == bit_of(self@, 31),
    {
        get_bit(self.0, 31)
    }
}

/// Extended-feature register: read-only capability bits.
#[derive(Debug, Copy, Clone)]
pub struct ExtendedApicFeature(u32);

impl View for ExtendedApicFeature {
    type V = u32;

    closed spec fn view(&self) -> u32 {
        self.0
    }
}

impl ExtendedApicFeature {
    /// Wraps a raw word read from the register.
    pub fn from_raw(raw: u32) -> (r: Self)
        ensures
            r@ == raw,
    {
        ExtendedApicFeature(raw)
    }

    /// The number of extended local-vector-table registers (bits 16..24).
    pub fn extended_lvt_count(&self) -> (r: u8)
        ensures
            r as u32 == bits_of(self@, 16, 24),
    {
        proof {
            lemma_low_mask_values();
        }
        let v: u32 = get_bits(self.0, 16, 24);
        v as u8
    }

    /// Whether the processor supports an 8-bit controller identifier (bit 2).
    pub fn extended_apic_id_capability(&self) -> (r: bool)
        ensures
            r == bit_of(self@, 2),
    {
        get_bit(self.0, 2)
    }

    /// Whether the specific-end-of-interrupt register is present (bit 1).
    pub fn specific_end_of_interrupt_capable(&self) -> (r: bool)
        ensures
            r == bit_of(self@, 1),
    {
        get_bit(self.0, 1)
    }

    /// Whether the interrupt-enable registers are present (bit 0).
    ///
    /// The capability bits of this register mirror the enable bits of the
    /// extended-control register: bit 0 interrupt-enable registers, bit 1
    /// specific end of interrupt, bit 2 extended identifier.
    pub fn interrupt_enable_register_capable(&self) -> (r: bool)
        ensures
            r == bit_of(self@, 0),
    {
        get_bit(self.0, 0)
    }
}

/// Extended-control register: read-write enable bits.
#[derive(Debug, Copy, Clone)]
pub struct ExtendedApicControl(u32);

impl View for ExtendedApicControl {
    type V = u32;

    closed spec fn view(&self) -> u32 {
        self.0
    }
}

impl ExtendedApicControl {
    /// Wraps a raw word read from the register.
    pub fn from_raw(raw: u32) -> (r: Self)
        ensures
            r@ == raw,
    {
        ExtendedApicControl(raw)
    }

    /// The raw word to write back to the register.
    pub fn into_raw(self) -> (r: u32)
        ensures
            r == self@,
    {
        self.0
    }

    /// Whether the 8-bit extended identifier is enabled (bit 2).
    pub fn extended_apic_id_enabled(&self) -> (r: bool)
        ensures
            r == bit_of(self@, 2),
    {
        get_bit(self.0, 2)
    }

    /// Sets whether the 8-bit extended identifier is enabled (bit 2).
    pub fn enable_extended_apic_id(&mut self, enable: bool)
        ensures
            final(self)@ == with_bit(old(self)@, 2, enable),
    {
        self.0 = set_bit(self.0, 2, enable);
    }

    /// Whether specific-end-of-interrupt generation is enabled (bit 1).
    pub fn specific_end_of_interrupt_generation_enabled(&self) -> (r: bool)
        ensures
            r == bit_of(self@, 1),
    {
        get_bit(self.0, 1)
    }

    /// Sets whether specific-end-of-interrupt generation is enabled (bit 1).
    pub fn enable_specific_end_of_interrupt_generation(&mut self, enable: bool)
        ensures
            final(self)@ == with_bit(old(self)@, 1, enable),
    {
        self.0 = set_bit(self.0, 1, enable);
    }

    /// Whether the interrupt-enable registers are enabled (bit 0).
    pub fn interrupt_enable_registers_enabled(&self) -> (r: bool)
        ensures
            r == bit_of(self@, 0),
    {
        get_bit(self.0, 0)
    }

    /// Sets whether the interrupt-enable registers are enabled (bit 0).
    pub fn enable_interrupt_enable_registers(&mut self, enable: bool)
        ensures
            final(self)@ == with_bit(old(self)@, 0, enable),
    {
        self.0 = set_bit(self.0, 0, enable);
    }
}

/// Spurious-interrupt-vector register: read-write.
#[derive(Debug, Copy, Clone)]
pub struct SpuriousInterruptVector(u32);

impl View for SpuriousInterruptVector {
    type V = u32;

    closed spec fn view(&self) -> u32 {
        self.0
    }
}

impl SpuriousInterruptVector {
    /// Wraps a raw word read from the register.
    pub fn from_raw(raw: u32) -> (r: Self)
        ensures
            r@ == raw,
    {
        SpuriousInterruptVector(raw)
    }

    /// The raw word to write back to the register.
    pub fn into_raw(self) -> (r: u32)
        ensures
            r == self@,
    {
        self.0
    }

    /// The vector delivered for spurious interrupts (bits 0..8).
    pub fn vector(&self) -> (r: u8)
        ensures
            r as u32 == bits_of(self@, 0, 8),
    {
        proof {
            lemma_low_mask_values();
        }
        let v: u32 = get_bits(self.0, 0, 8);
        v as u8
    }

    /// Sets the vector delivered for spurious interrupts (bits 0..8).
    pub fn set_vector(&mut self, vector: u8)
        ensures
            final(self)@ == with_bits(old(self)@, 0, 8, vector as u32),
    {
        proof {
            lemma_low_mask_values();
        }
        self.0 = set_bits(self.0, 0, 8, vector as u32);
    }

    /// Whether the controller is software-enabled (bit 8).
    pub fn apic_software_enabled(&self) -> (r: bool)
        ensures
            r == bit_of(self@, 8),
    {
        get_bit(self.0, 8)
    }

    /// Sets whether the controller is software-enabled (bit 8).
    pub fn enable_apic_software(&mut self, enable: bool)
        ensures
            final(self)@ == with_bit(old(self)@, 8, enable),
    {
        self.0 = set_bit(self.0, 8, enable);
    }

    /// Whether focus-core checking is enabled (bit 9).
    pub fn focus_cpu_core_checking(&self) -> (r: bool)
        ensures
            r == bit_of(self@, 9),
    {
        get_bit(self.0, 9)
    }

    /// Sets whether focus-core checking is enabled (bit 9).
    pub fn set_focus_cpu_core_checking(&mut self, value: bool)
        ensures
            final(self)@ == with_bit(old(self)@, 9, value),
    {
        self.0 = set_bit(self.0, 9, value);
    }
}

/// Timer entry of the local vector table: read-write, with one read-only
/// status bit.
#[derive(Debug, Copy, Clone)]
pub struct TimerLocalVectorTableEntry(u32);

impl View for TimerLocalVectorTableEntry {
    type V = u32;

    closed spec fn view(&self) -> u32 {
        self.0
    }
}

impl TimerLocalVectorTableEntry {
    /// Wraps a raw word read from the register.
    pub fn from_raw(raw: u32) -> (r: Self)
        ensures
            r@ == raw,
    {
        TimerLocalVectorTableEntry(raw)
    }

    /// The raw word to write back to the register.
    pub fn into_raw(self) -> (r: u32)
        ensures
            r == self@,
    {
        self.0
    }

    /// The vector delivered on a timer interrupt (bits 0..8).
    pub fn vector(&self) -> (r: u8)
        ensures
            r as u32 == bits_of(self@, 0, 8),
    {
        proof {
            lemma_low_mask_values();
        }
        let v: u32 = get_bits(self.0, 0, 8);
        v as u8
    }

    /// Sets the vector delivered on a timer interrupt (bits 0..8).
    pub fn set_vector(&mut self, vector: u8)
        ensures
            final(self)@ == with_bits(old(self)@, 0, 8, vector as u32),
    {
        proof {
            lemma_low_mask_values();
        }
        self.0 = set_bits(self.0, 0, 8, vector as u32);
    }

    /// Whether delivery of a timer interrupt is pending (bit 12, read-only).
    pub fn delivery_status(&self) -> (r: bool)
        ensures
            r == bit_of(self@, 12),
    {
        get_bit(self.0, 12)
    }

    /// Whether the timer interrupt is masked (bit 16).
    pub fn mask(&self) -> (r: bool)
        ensures
            r == bit_of(self@, 16),
    {
        get_bit(self.0, 16)
    }

    /// Sets whether the timer interrupt is masked (bit 16).
    pub fn set_mask(&mut self, disable: bool)
        ensures
            final(self)@ == with_bit(old(self)@, 16, disable),
    {
        self.0 = set_bit(self.0, 16, disable);
    }

    /// Whether the timer runs periodically rather than one-shot (bit 17).
    pub fn timer_mode(&self) -> (r: bool)
        ensures
            r == bit_of(self@, 17),
    {
        get_bit(self.0, 17)
    }

    /// Sets whether the timer runs periodically rather than one-shot (bit 17).
    pub fn set_timer_mode(&mut self, periodic: bool)
        ensures
            final(self)@ == with_bit(old(self)@, 17, periodic),
    {
        self.0 = set_bit(self.0, 17, periodic);
    }
}

/// Law: a read-modify-write that sets the vector and then the mask of one
/// timer entry loses neither; both fields decode afterwards to the values
/// just written.
pub proof fn lemma_timer_entry_rmw(w: u32, vector: u8, mask: bool)
    ensures
        bits_of(with_bit(with_bits(w, 0, 8, vector as u32), 16, mask), 0, 8) == vector as u32,
        bit_of(with_bit(with_bits(w, 0, 8, vector as u32), 16, mask), 16) == mask,
{
    lemma_low_mask_values();
    lemma_set_then_get(w, 0, 8, vector as u32);
    lemma_set_bit_preserves_bits(with_bits(w, 0, 8, vector as u32), 16, mask, 0, 8);
    lemma_set_bit_then_get_bit(with_bits(w, 0, 8, vector as u32), 16, mask);
}

/// Timer initial-count register: the whole word is the count.
#[derive(Debug, Copy, Clone)]
pub struct TimerInitialCount(u32);

impl View for TimerInitialCount {
    type V = u32;

    closed spec fn view(&self) -> u32 {
        self.0
    }
}

impl TimerInitialCount {
    /// Wraps a raw word read from the register.
    pub fn from_raw(raw: u32) -> (r: Self)
        ensures
            r@ == raw,
    {
        TimerInitialCount(raw)
    }

    /// The raw word to write back to the register.
    pub fn into_raw(self) -> (r: u32)
        ensures
            r == self@,
    {
        self.0
    }

    /// The initial count the timer starts from.
    pub fn get(&self) -> (r: u32)
        ensures
            r == self@,
    {
        self.0
    }

    /// Sets the initial count the timer starts from.
    pub fn set(&mut self, inital_count: u32)
        ensures
            final(self)@ == inital_count,
    {
        self.0 = inital_count
    }
}

/// The eight divisor codes of the timer's divide configuration.
#[derive(Debug, Copy, Clone, PartialEq, Eq)]
pub enum TimerDivideConfigurationValue {
    Divide1,
    Divide2,
    Divide4,
    Divide8,
    Divide16,
    Divide32,
    Divide64,
    Divide128,
}

/// The hardware encoding of a divisor code, as the bit triple
/// `(bit 3, bit 1, bit 0)` of the divide-configuration register.
///
/// The pattern is fixed by the hardware and is not monotonic: all three bits
/// set selects divisor 1, while all clear selects divisor 2.
pub open spec fn spec_divisor_bits(value: TimerDivideConfigurationValue) -> (bool, bool, bool) {
    match value {
        TimerDivideConfigurationValue::Divide2 => (false, false, false),
        TimerDivideConfigurationValue::Divide4 => (false, false, true),
        TimerDivideConfigurationValue::Divide8 => (false, true, false),
        TimerDivideConfigurationValue::Divide16 => (false, true, true),
        TimerDivideConfigurationValue::Divide32 => (true, false, false),
        TimerDivideConfigurationValue::Divide64 => (true, false, true),
        TimerDivideConfigurationValue::Divide128 => (true, true, false),
        TimerDivideConfigurationValue::Divide1 => (true, true, true),
    }
}

/// The divisor code selected by the bit triple `(bit 3, bit 1, bit 0)`.
pub open spec fn spec_divisor_value(b3: bool, b1: bool, b0: bool) -> TimerDivideConfigurationValue {
    match (b3, b1, b0) {
        (false, false, false) => TimerDivideConfigurationValue::Divide2,
        (false, false, true) => TimerDivideConfigurationValue::Divide4,
        (false, true, false) => TimerDivideConfigurationValue::Divide8,
        (false, true, true) => TimerDivideConfigurationValue::Divide16,
        (true, false, false) => TimerDivideConfigurationValue::Divide32,
        (true, false, true) => TimerDivideConfigurationValue::Divide64,
        (true, true, false) => TimerDivideConfigurationValue::Divide128,
        (true, true, true) => TimerDivideConfigurationValue::Divide1,
    }
}

/// Timer divide-configuration register: three non-contiguous control bits
/// (0, 1 and 3) select one of eight divisors.
#[derive(Debug, Copy, Clone)]
pub struct TimerDivideConfiguration(u32);

impl View for TimerDivideConfiguration {
    type V = u32;

    closed spec fn view(&self) -> u32 {
        self.0
    }
}

impl TimerDivideConfiguration {
    /// Wraps a raw word read from the register.
    pub fn from_raw(raw: u32) -> (r: Self)
        ensures
            r@ == raw,
    {
        TimerDivideConfiguration(raw)
    }

    /// The raw word to write back to the register.
    pub fn into_raw(self) -> (r: u32)
        ensures
            r == self@,
    {
        self.0
    }

    /// Decodes the divisor selected by control bits 3, 1 and 0.
    pub fn get(&self) -> (r: TimerDivideConfigurationValue)
        ensures
            r == spec_divisor_value(bit_of(self@, 3), bit_of(self@, 1), bit_of(self@, 0)),
    {
        let bit_0: bool = get_bit(self.0, 0);
        let bit_1: bool = get_bit(self.0, 1);
        let bit_3: bool = get_bit(self.0, 3);
        match (bit_3, bit_1, bit_0) {
            (false, false, false) => TimerDivideConfigurationValue::Divide2,
            (false, false, true) => TimerDivideConfigurationValue::Divide4,
            (false, true, false) => TimerDivideConfigurationValue::Divide8,
            (false, true, true) => TimerDivideConfigurationValue::Divide16,
            (true, false, false) => TimerDivideConfigurationValue::Divide32,
            (true, false, true) => TimerDivideConfigurationValue::Divide64,
            (true, true, false) => TimerDivideConfigurationValue::Divide128,
            (true, true, true) => TimerDivideConfigurationValue::Divide1,
        }
    }

    /// Encodes the divisor into control bits 3, 1 and 0, leaving every other
    /// bit of the word untouched.
    pub fn set(&mut self, value: TimerDivideConfigurationValue)
        ensures
            ({
                let (b3, b1, b0) = spec_divisor_bits(value);
                final(self)@ == with_bit(with_bit(with_bit(old(self)@, 0, b0), 1, b1), 3, b3)
            }),
    {
        let (bit_3, bit_1, bit_0): (bool, bool, bool) = match value {
            TimerDivideConfigurationValue::Divide2 => (false, false, false),
            TimerDivideConfigurationValue::Divide4 => (false, false, true),
            TimerDivideConfigurationValue::Divide8 => (false, true, false),
            TimerDivideConfigurationValue::Divide16 => (false, true, true),
            TimerDivideConfigurationValue::Divide32 => (true, false, false),
            TimerDivideConfigurationValue::Divide64 => (true, false, true),
            TimerDivideConfigurationValue::Divide128 => (true, true, false),
            TimerDivideConfigurationValue::Divide1 => (true, true, true),
        };
        self.0 = set_bit(self.0, 0, bit_0);
        self.0 = set_bit(self.0, 1, bit_1);
        self.0 = set_bit(self.0, 3, bit_3);
    }
}

/// Law: encoding any of the eight divisor codes into any word and decoding
/// the result returns the same code.
pub proof fn lemma_divide_round_trip(w: u32, value: TimerDivideConfigurationValue)
    ensures
        ({
            let (b3, b1, b0) = spec_divisor_bits(value);
            let w2 = with_bit(with_bit(with_bit(w, 0, b0), 1, b1), 3, b3);
            spec_divisor_value(bit_of(w2, 3), bit_of(w2, 1), bit_of(w2, 0)) == value
        }),
{
    let (b3, b1, b0) = spec_divisor_bits(value);
    let w0: u32 = with_bit(w, 0, b0);
    let w1: u32 = with_bit(w0, 1, b1);
    let w2: u32 = with_bit(w1, 3, b3);
    lemma_set_bit_then_get_bit(w, 0, b0);
    lemma_set_bit_preserves_bit(w0, 1, b1, 0);
    lemma_set_bit_preserves_bit(w1, 3, b3, 0);
    lemma_set_bit_then_get_bit(w0, 1, b1);
    lemma_set_bit_preserves_bit(w1, 3, b3, 1);
    lemma_set_bit_then_get_bit(w1, 3, b3);
}

/// End-of-interrupt register: write-only, order-sensitive.
#[derive(Debug)]
pub struct EndOfInterrupt;

impl EndOfInterrupt {
    /// Acknowledges the interrupt in service: performs exactly one write of
    /// the designated value (zero) to the register's fixed byte offset.
    ///
    /// The hardware-backed access primitive must give this write release
    /// ordering, so that every side effect of handling the interrupt is
    /// visible before the controller considers it serviced.
    pub fn signal<M: RegisterMemory>(mem: &mut M)
        ensures
            final(mem).mem() == old(mem).mem().insert(0xb0usize, 0u32),
            final(mem).writes() == old(mem).writes().push((0xb0usize, 0u32)),
    {
        mem.write_word(0xb0, 0);
    }
}

} // verus!

//! Value types of the I/O router's indirectly addressed registers.
//!
//! A redirection-table entry is a 64-bit logical value realized as two
//! adjacent 32-bit words; the type keeps both words together so that an
//! entry is always assembled from, and written back as, the complete pair.

use vstd::prelude::*;

use crate::bits::{
    bit_of, bits_of, get_bit, get_bits, lemma_low_mask_values, set_bit, set_bits, with_bit,
    with_bits,
};

verus! {

/// Version register of the I/O router: read-only.
#[derive(Debug, Copy, Clone)]
pub struct Version(u32);

impl View for Version {
    type V = u32;

    closed spec fn view(&self) -> u32 {
        self.0
    }
}

impl Version {
    /// Wraps a raw word read from the register.
    pub fn from_raw(value: u32) -> (r: Self)
        ensures
            r@ == value,
    {
        Version(value)
    }

    /// The highest redirection-table index the router implements
    /// (bits 16..24).
    pub fn max_redirection_entry(&self) -> (r: u8)
        ensures
            r as u32 == bits_of(self@, 16, 24),
    {
        proof {
            lemma_low_mask_values();
        }
        let v: u32 = get_bits(self.0, 16, 24);
        v as u8
    }

    /// The version number of the router implementation (bits 0..8).
    pub fn apic_version(&self) -> (r: u8)
        ensures
            r as u32 == bits_of(self@, 0, 8),
    {
        proof {
            lemma_low_mask_values();
        }
        let v: u32 = get_bits(self.0, 0, 8);
        v as u8
    }
}

/// Arbitration register of the I/O router.
#[derive(Debug, Copy, Clone)]
pub struct Arbitration(u32);

impl View for Arbitration {
    type V = u32;

    closed spec fn view(&self) -> u32 {
        self.0
    }
}

impl Arbitration {
    /// Wraps a raw word read from the register.
    pub fn from_raw(value: u32) -> (r: Self)
        ensures
            r@ == value,
    {
        Arbitration(value)
    }

    /// The raw word to write back to the register.
    pub fn into_raw(self) -> (r: u32)
        ensures
            r == self@,
    {
        self.0
    }

    /// Builds a value holding the given 4-bit arbitration identifier and
    /// nothing else.
    pub fn new(arbitration_id: u8) -> (r: Self)
        requires
            arbitration_id < 16,
        ensures
            r@ == with_bits(0u32, 24, 28, arbitration_id as u32),
    {
        proof {
            lemma_low_mask_values();
        }
        let value: u32 = set_bits(0, 24, 28, arbitration_id as u32);
        Arbitration(value)
    }

    /// The arbitration identifier (bits 24..28).
    pub fn arbitration_id(&self) -> (r: u8)
        ensures
            r as u32 == bits_of(self@, 24, 28),
    {
        proof {
            lemma_low_mask_values();
        }
        let v: u32 = get_bits(self.0, 24, 28);
        v as u8
    }
}

/// One redirection-table entry: the configuration of one external interrupt
/// line, held as its low and high hardware words.
#[derive(Debug, Copy, Clone)]
pub struct RedirectionTableEntry {
    low: u32,
    high: u32,
}

impl RedirectionTableEntry {
    /// The low hardware word of the entry.
    pub closed spec fn spec_low(self) -> u32 {
        self.low
    }

    /// The high hardware word of the entry.
    pub closed spec fn spec_high(self) -> u32 {
        self.high
    }

    /// The entry assembled from its two hardware words.
    pub closed spec fn spec_from_raw(low: u32, high: u32) -> RedirectionTableEntry {
        RedirectionTableEntry { low, high }
    }

    /// Assembles an entry from its two hardware words.
    pub fn from_raw(low: u32, high: u32) -> (r: Self)
        ensures
            r == RedirectionTableEntry::spec_from_raw(low, high),
            r.spec_low() == low,
            r.spec_high() == high,
    {
        RedirectionTableEntry { low, high }
    }

    /// The two hardware words of the entry, low first.
    pub fn into_raw(self) -> (r: (u32, u32))
        ensures
            r.0 == self.spec_low(),
            r.1 == self.spec_high(),
    {
        (self.low, self.high)
    }

    /// The vector delivered for this line (low word, bits 0..8).
    pub fn vector(&self) -> (r: u8)
        ensures
            r as u32 == bits_of(self.spec_low(), 0, 8),
    {
        proof {
            lemma_low_mask_values();
        }
        let v: u32 = get_bits(self.low, 0, 8);
        v as u8
    }

    /// Sets the vector delivered for this line (low word, bits 0..8).
    pub fn set_vector(&mut self, vector: u8)
        ensures
            final(self).spec_low() == with_bits(old(self).spec_low(), 0, 8, vector as u32),
            final(self).spec_high() == old(self).spec_high(),
    {
        proof {
            lemma_low_mask_values();
        }
        self.low = set_bits(self.low, 0, 8, vector as u32);
    }

    /// The delivery mode of this line (low word, bits 8..11).
    pub fn delivery_mode(&self) -> (r: DeliveryMode)
        ensures
            r.spec_code() as u32 == bits_of(self.spec_low(), 8, 11),
    {
        proof {
            lemma_low_mask_values();
        }
        let v: u32 = get_bits(self.low, 8, 11);
        match DeliveryMode::try_from(v as u8) {
            Result::Ok(mode) => mode,
            Result::Err(_) => unreached(),
        }
    }

    /// Sets the delivery mode of this line (low word, bits 8..11).
    pub fn set_delivery_mode(&mut self, mode: DeliveryMode)
        ensures
            final(self).spec_low() == with_bits(
                old(self).spec_low(),
                8,
                11,
                mode.spec_code() as u32,
            ),
            final(self).spec_high() == old(self).spec_high(),
    {
        proof {
            lemma_low_mask_values();
        }
        let raw: u8 = mode.code();
        self.low = set_bits(self.low, 8, 11, raw as u32);
    }

    /// Whether the destination is a logical rather than a physical
    /// identifier (low word, bit 11).
    pub fn destination_mode_logical(&self) -> (r: bool)
        ensures
            r == bit_of(self.spec_low(), 11),
    {
        get_bit(self.low, 11)
    }

    /// Sets whether the destination is a logical identifier (low word,
    /// bit 11).
    pub fn set_destination_mode_logical(&mut self, logical: bool)
        ensures
            final(self).spec_low() == with_bit(old(self).spec_low(), 11, logical),
            final(self).spec_high() == old(self).spec_high(),
    {
        self.low = set_bit(self.low, 11, logical);
    }

    /// Whether delivery of an interrupt for this line is pending (low word,
    /// bit 12, read-only).
    pub fn delivery_status_send_pending(&self) -> (r: bool)
        ensures
            r == bit_of(self.spec_low(), 12),
    {
        get_bit(self.low, 12)
    }

    /// Whether the line is active-low (low word, bit 13).
    pub fn polarity_low_active(&self) -> (r: bool)
        ensures
            r == bit_of(self.spec_low(), 13),
    {
        get_bit(self.low, 13)
    }

    /// Sets whether the line is active-low (low word, bit 13).
    pub fn set_polarity_low_active(&mut self, low_active: bool)
        ensures
            final(self).spec_low() == with_bit(old(self).spec_low(), 13, low_active),
            final(self).spec_high() == old(self).spec_high(),
    {
        self.low = set_bit(self.low, 13, low_active);
    }

    /// Whether a level-triggered interrupt on this line is being serviced
    /// (low word, bit 14, read-only).
    pub fn remote_irr(&self) -> (r: bool)
        ensures
            r == bit_of(self.spec_low(), 14),
    {
        get_bit(self.low, 14)
    }

    /// Whether the line is level-sensitive rather than edge-sensitive
    /// (low word, bit 15).
    pub fn trigger_mode_level(&self) -> (r: bool)
        ensures
            r == bit_of(self.spec_low(), 15),
    {
        get_bit(self.low, 15)
    }

    /// Sets whether the line is level-sensitive (low word, bit 15).
    pub fn set_trigger_mode_level(&mut self, level_sensitive: bool)
        ensures
            final(self).spec_low() == with_bit(old(self).spec_low(), 15, level_sensitive),
            final(self).spec_high() == old(self).spec_high(),
    {
        self.low = set_bit(self.low, 15, level_sensitive);
    }

    /// Whether the line is masked (low word, bit 16).
    pub fn masked(&self) -> (r: bool)
        ensures
            r == bit_of(self.spec_low(), 16),
    {
        get_bit(self.low, 16)
    }

    /// Sets whether the line is masked (low word, bit 16).
    pub fn set_masked(&mut self, masked: bool)
        ensures
            final(self).spec_low() == with_bit(old(self).spec_low(), 16, masked),
            final(self).spec_high() == old(self).spec_high(),
    {
        self.low = set_bit(self.low, 16, masked);
    }

    /// The identifier of the core that receives this line (high word,
    /// bits 24..32).
    pub fn destination(&self) -> (r: u8)
        ensures
            r as u32 == bits_of(self.spec_high(), 24, 32),
    {
        proof {
            lemma_low_mask_values();
        }
        let v: u32 = get_bits(self.high, 24, 32);
        v as u8
    }

    /// Sets the identifier of the core that receives this line (high word,
    /// bits 24..32).
    pub fn set_destination(&mut self, destination: u8)
        ensures
            final(self).spec_high() == with_bits(old(self).spec_high(), 24, 32, destination as u32),
            final(self).spec_low() == old(self).spec_low(),
    {
        proof {
            lemma_low_mask_values();
        }
        self.high = set_bits(self.high, 24, 32, destination as u32);
    }
}

/// An entry assembled from two words holds exactly those words.
pub proof fn lemma_from_raw_parts(low: u32, high: u32)
    ensures
        RedirectionTableEntry::spec_from_raw(low, high).spec_low() == low,
        RedirectionTableEntry::spec_from_raw(low, high).spec_high() == high,
{
}

/// Law: an entry is nothing but its two hardware words; entries whose words
/// agree are the same entry.
pub proof fn lemma_entry_determined_by_raw(a: RedirectionTableEntry, b: RedirectionTableEntry)
    requires
        a.spec_low() == b.spec_low(),
        a.spec_high() == b.spec_high(),
    ensures
        a == b,
{
}

/// The delivery semantics of an interrupt, bijective with a 3-bit field.
#[derive(Debug, Copy, Clone, Eq, PartialEq)]
pub enum DeliveryMode {
    Fixed,
    LowestPriority,
    SystemManagementInterrupt,
    Reserved1,
    NonMaskableInterrupt,
    Init,
    Reserved2,
    ExtInt,
}

impl DeliveryMode {
    /// The 3-bit hardware code of the mode.
    pub open spec fn spec_code(self) -> u8 {
        match self {
            DeliveryMode::Fixed => 0,
            DeliveryMode::LowestPriority => 1,
            DeliveryMode::SystemManagementInterrupt => 2,
            DeliveryMode::Reserved1 => 3,
            DeliveryMode::NonMaskableInterrupt => 4,
            DeliveryMode::Init => 5,
            DeliveryMode::Reserved2 => 6,
            DeliveryMode::ExtInt => 7,
        }
    }

    /// The 3-bit hardware code of the mode.
    pub fn code(self) -> (r: u8)
        ensures
            r == self.spec_code(),
            r < 8,
    {
        match self {
            DeliveryMode::Fixed => 0,
            DeliveryMode::LowestPriority => 1,
            DeliveryMode::SystemManagementInterrupt => 2,
            DeliveryMode::Reserved1 => 3,
            DeliveryMode::NonMaskableInterrupt => 4,
            DeliveryMode::Init => 5,
            DeliveryMode::Reserved2 => 6,
            DeliveryMode::ExtInt => 7,
        }
    }

    /// Decodes a raw code: every value below 8 names exactly one mode, and
    /// any other value is rejected rather than defaulted.
    pub fn try_from(value: u8) -> (r: Result<DeliveryMode, ()>)
        ensures
            value < 8 ==> (r matches Ok(mode) && mode.spec_code() == value),
            value >= 8 ==> r is Err,
    {
        match value {
            0 => Result::Ok(DeliveryMode::Fixed),
            1 => Result::Ok(DeliveryMode::LowestPriority),
            2 => Result::Ok(DeliveryMode::SystemManagementInterrupt),
            3 => Result::Ok(DeliveryMode::Reserved1),
            4 => Result::Ok(DeliveryMode::NonMaskableInterrupt),
            5 => Result::Ok(DeliveryMode::Init),
            6 => Result::Ok(DeliveryMode::Reserved2),
            7 => Result::Ok(DeliveryMode::ExtInt),
            _ => Result::Err(()),
        }
    }
}

/// Law: the hardware code determines the delivery mode; together with the
/// contract of [`DeliveryMode::try_from`] this makes encoding followed by
/// decoding return the original mode, for all eight modes.
pub proof fn lemma_delivery_mode_code_injective(a: DeliveryMode, b: DeliveryMode)
    requires
        a.spec_code() == b.spec_code(),
    ensures
        a == b,
{
}

} // verus!

//! Typed, bit-accurate access to the memory-mapped control registers of a
//! local interrupt controller and of its companion I/O interrupt router.
//!
//! The crate translates between raw 32-bit words observed at fixed byte
//! offsets and structured views of them (vector numbers, delivery modes,
//! masks, destinations, timer divisors), and sequences the two-step
//! select/window protocol that reaches the I/O router's redirection table.
//! All register access goes through the abstract word-access interfaces of
//! [`access`] and [`io_apic`], so the encoding and the protocol are verified
//! independently of the device behind them.

use vstd::prelude::*;

pub mod access;
pub mod bits;
pub mod io_apic;
pub mod model;
pub mod registers;

use crate::access::RegisterMemory;

verus! {

/// Byte offset of each local-controller register, relative to the base of
/// its 4 KiB register page.
#[derive(Debug, Copy, Clone, PartialEq, Eq)]
pub enum Offset {
    Id,
    Version,
    TaskPriority,
    ArbitrationPriority,
    ProcessorPriority,
    EndOfInterrupt,
    RemoteRead,
    LocalDestination,
    DestinationFormat,
    SpuriousInterruptVector,
    InService,
    TriggerMode,
    InterruptRequest,
    ErrorStatus,
    InterruptCommand,
    TimerLocalVectorTableEntry,
    ThermalLocalVectorTableEntry,
    PerformanceCounterLocalVectorTableEntry,
    LocalInterrupt0VectorTableEntry,
    LocalInterrupt1VectorTableEntry,
    ErrorVectorTableEntry,
    TimerInitialCount,
    TimerCurrentCount,
    TimerDivideConfiguration,
    ExtendedApicFeature,
    ExtendedApicControl,
    SpecificEndOfInterrupt,
    InterruptEnable,
    ExtendedInterruptLocalVectorTable,
}

impl Offset {
    /// The fixed byte offset of the register.
    pub open spec fn spec_byte_offset(self) -> usize {
        match self {
            Offset::Id => 0x20,
            Offset::Version => 0x30,
            Offset::TaskPriority => 0x80,
            Offset::ArbitrationPriority => 0x90,
            Offset::ProcessorPriority => 0xa0,
            Offset::EndOfInterrupt => 0xb0,
            Offset::RemoteRead => 0xc0,
            Offset::LocalDestination => 0xd0,
            Offset::DestinationFormat => 0xe0,
            Offset::SpuriousInterruptVector => 0xf0,
            Offset::InService => 0x100,
            Offset::TriggerMode => 0x180,
            Offset::InterruptRequest => 0x200,
            Offset::ErrorStatus => 0x280,
            Offset::InterruptCommand => 0x300,
            Offset::TimerLocalVectorTableEntry => 0x320,
            Offset::ThermalLocalVectorTableEntry => 0x330,
            Offset::PerformanceCounterLocalVectorTableEntry => 0x340,
            Offset::LocalInterrupt0VectorTableEntry => 0x350,
            Offset::LocalInterrupt1VectorTableEntry => 0x360,
            Offset::ErrorVectorTableEntry => 0x370,
            Offset::TimerInitialCount => 0x380,
            Offset::TimerCurrentCount => 0x390,
            Offset::TimerDivideConfiguration => 0x3e0,
            Offset::ExtendedApicFeature => 0x400,
            Offset::ExtendedApicControl => 0x410,
            Offset::SpecificEndOfInterrupt => 0x420,
            Offset::InterruptEnable => 0x480,
            Offset::ExtendedInterruptLocalVectorTable => 0x500,
        }
    }

    /// The fixed byte offset of the register.
    pub fn byte_offset(self) -> (r: usize)
        ensures
            r == self.spec_byte_offset(),
    {
        match self {
            Offset::Id => 0x20,
            Offset::Version => 0x30,
            Offset::TaskPriority => 0x80,
            Offset::ArbitrationPriority => 0x90,
            Offset::ProcessorPriority => 0xa0,
            Offset::EndOfInterrupt => 0xb0,
            Offset::RemoteRead => 0xc0,
            Offset::LocalDestination => 0xd0,
            Offset::DestinationFormat => 0xe0,
            Offset::SpuriousInterruptVector => 0xf0,
            Offset::InService => 0x100,
            Offset::TriggerMode => 0x180,
            Offset::InterruptRequest => 0x200,
            Offset::ErrorStatus => 0x280,
            Offset::InterruptCommand => 0x300,
            Offset::TimerLocalVectorTableEntry => 0x320,
            Offset::ThermalLocalVectorTableEntry => 0x330,
            Offset::PerformanceCounterLocalVectorTableEntry => 0x340,
            Offset::LocalInterrupt0VectorTableEntry => 0x350,
            Offset::LocalInterrupt1VectorTableEntry => 0x360,
            Offset::ErrorVectorTableEntry => 0x370,
            Offset::TimerInitialCount => 0x380,
            Offset::TimerCurrentCount => 0x390,
            Offset::TimerDivideConfiguration => 0x3e0,
            Offset::ExtendedApicFeature => 0x400,
            Offset::ExtendedApicControl => 0x410,
            Offset::SpecificEndOfInterrupt => 0x420,
            Offset::InterruptEnable => 0x480,
            Offset::ExtendedInterruptLocalVectorTable => 0x500,
        }
    }
}

/// The register file of one local interrupt controller, bound to the word
/// access primitive for its register page.
///
/// Every accessor performs exactly one word access at the register's fixed
/// byte offset, decoding the word read into the register's value type or
/// encoding a value type back into the word written.
pub struct ApicBase<M: RegisterMemory> {
    pub mem: M,
}

impl<M: RegisterMemory> ApicBase<M> {
    /// Binds a register file to the access primitive of its page.
    pub fn new(mem: M) -> (r: Self)
        ensures
            r.mem == mem,
    {
        ApicBase { mem }
    }

    /// Reads the identification register.
    pub fn id(&mut self) -> (r: registers::Id)
        ensures
            r@ == old(self).mem.mem()[Offset::Id.spec_byte_offset()],
            final(self).mem.mem() == old(self).mem.mem(),
            final(self).mem.writes() == old(self).mem.writes(),
    {
        let w: u32 = self.mem.read_word(Offset::Id.byte_offset());
        registers::Id::from_raw(w)
    }

    /// Reads the version register.
    pub fn version(&mut self) -> (r: registers::Version)
        ensures
            r@ == old(self).mem.mem()[Offset::Version.spec_byte_offset()],
            final(self).mem.mem() == old(self).mem.mem(),
            final(self).mem.writes() == old(self).mem.writes(),
    {
        let w: u32 = self.mem.read_word(Offset::Version.byte_offset());
        registers::Version::from_raw(w)
    }

    /// Reads the extended-feature register.
    pub fn extended_apic_feature(&mut self) -> (r: registers::ExtendedApicFeature)
        ensures
            r@ == old(self).mem.mem()[Offset::ExtendedApicFeature.spec_byte_offset()],
            final(self).mem.mem() == old(self).mem.mem(),
            final(self).mem.writes() == old(self).mem.writes(),
    {
        let w: u32 = self.mem.read_word(Offset::ExtendedApicFeature.byte_offset());
        registers::ExtendedApicFeature::from_raw(w)
    }

    /// Reads the extended-control register.
    pub fn extended_apic_control(&mut self) -> (r: registers::ExtendedApicControl)
        ensures
            r@ == old(self).mem.mem()[Offset::ExtendedApicControl.spec_byte_offset()],
            final(self).mem.mem() == old(self).mem.mem(),
            final(self).mem.writes() == old(self).mem.writes(),
    {
        let w: u32 = self.mem.read_word(Offset::ExtendedApicControl.byte_offset());
        registers::ExtendedApicControl::from_raw(w)
    }

    /// Writes the extended-control register back as one whole word.
    pub fn write_extended_apic_control(&mut self, value: registers::ExtendedApicControl)
        ensures
            final(self).mem.mem() == old(self).mem.mem().insert(
                Offset::ExtendedApicControl.spec_byte_offset(),
                value@,
            ),
            final(self).mem.writes() == old(self).mem.writes().push(
                (Offset::ExtendedApicControl.spec_byte_offset(), value@),
            ),
    {
        self.mem.write_word(Offset::ExtendedApicControl.byte_offset(), value.into_raw());
    }

    /// Reads the spurious-interrupt-vector register.
    pub fn spurious_interrupt_vector(&mut self) -> (r: registers::SpuriousInterruptVector)
        ensures
            r@ == old(self).mem.mem()[Offset::SpuriousInterruptVector.spec_byte_offset()],
            final(self).mem.mem() == old(self).mem.mem(),
            final(self).mem.writes() == old(self).mem.writes(),
    {
        let w: u32 = self.mem.read_word(Offset::SpuriousInterruptVector.byte_offset());
        registers::SpuriousInterruptVector::from_raw(w)
    }

    /// Writes the spurious-interrupt-vector register back as one whole word.
    pub fn write_spurious_interrupt_vector(&mut self, value: registers::SpuriousInterruptVector)
        ensures
            final(self).mem.mem() == old(self).mem.mem().insert(
                Offset::SpuriousInterruptVector.spec_byte_offset(),
                value@,
            ),
            final(self).mem.writes() == old(self).mem.writes().push(
                (Offset::SpuriousInterruptVector.spec_byte_offset(), value@),
            ),
    {
        self.mem.write_word(Offset::SpuriousInterruptVector.byte_offset(), value.into_raw());
    }

    /// Reads the timer entry of the local vector table.
    pub fn timer_local_vector_table_entry(&mut self) -> (r: registers::TimerLocalVectorTableEntry)
        ensures
            r@ == old(self).mem.mem()[Offset::TimerLocalVectorTableEntry.spec_byte_offset()],
            final(self).mem.mem() == old(self).mem.mem(),
            final(self).mem.writes() == old(self).mem.writes(),
    {
        let w: u32 = self.mem.read_word(Offset::TimerLocalVectorTableEntry.byte_offset());
        registers::TimerLocalVectorTableEntry::from_raw(w)
    }

    /// Writes the timer entry of the local vector table back as one whole word.
    pub fn write_timer_local_vector_table_entry(
        &mut self,
        value: registers::TimerLocalVectorTableEntry,
    )
        ensures
            final(self).mem.mem() == old(self).mem.mem().insert(
                Offset::TimerLocalVectorTableEntry.spec_byte_offset(),
                value@,
            ),
            final(self).mem.writes() == old(self).mem.writes().push(
                (Offset::TimerLocalVectorTableEntry.spec_byte_offset(), value@),
            ),
    {
        self.mem.write_word(Offset::TimerLocalVectorTableEntry.byte_offset(), value.into_raw());
    }

    /// Reads the timer's initial-count register.
    pub fn timer_initial_count(&mut self) -> (r: registers::TimerInitialCount)
        ensures
            r@ == old(self).mem.mem()[Offset::TimerInitialCount.spec_byte_offset()],
            final(self).mem.mem() == old(self).mem.mem(),
            final(self).mem.writes() == old(self).mem.writes(),
    {
        let w: u32 = self.mem.read_word(Offset::TimerInitialCount.byte_offset());
        registers::TimerInitialCount::from_raw(w)
    }

    /// Writes the timer's initial-count register back as one whole word.
    pub fn write_timer_initial_count(&mut self, value: registers::TimerInitialCount)
        ensures
            final(self).mem.mem() == old(self).mem.mem().insert(
                Offset::TimerInitialCount.spec_byte_offset(),
                value@,
            ),
            final(self).mem.writes() == old(self).mem.writes().push(
                (Offset::TimerInitialCount.spec_byte_offset(), value@),
            ),
    {
        self.mem.write_word(Offset::TimerInitialCount.byte_offset(), value.into_raw());
    }

    /// Reads the timer's divide-configuration register.
    pub fn timer_divide_configuration(&mut self) -> (r: registers::TimerDivideConfiguration)
        ensures
            r@ == old(self).mem.mem()[Offset::TimerDivideConfiguration.spec_byte_offset()],
            final(self).mem.mem() == old(self).mem.mem(),
            final(self).mem.writes() == old(self).mem.writes(),
    {
        let w: u32 = self.mem.read_word(Offset::TimerDivideConfiguration.byte_offset());
        registers::TimerDivideConfiguration::from_raw(w)
    }

    /// Writes the timer's divide-configuration register back as one whole word.
    pub fn write_timer_divide_configuration(&mut self, value: registers::TimerDivideConfiguration)
        ensures
            final(self).mem.mem() == old(self).mem.mem().insert(
                Offset::TimerDivideConfiguration.spec_byte_offset(),
                value@,
            ),
            final(self).mem.writes() == old(self).mem.writes().push(
                (Offset::TimerDivideConfiguration.spec_byte_offset(), value@),
            ),
    {
        self.mem.write_word(Offset::TimerDivideConfiguration.byte_offset(), value.into_raw());
    }

    /// Acknowledges the interrupt in service: performs exactly one write of
    /// the designated value (zero) to the end-of-interrupt register.
    pub fn end_of_interrupt(&mut self)
        ensures
            final(self).mem.mem() == old(self).mem.mem().insert(
                Offset::EndOfInterrupt.spec_byte_offset(),
                0u32,
            ),
            final(self).mem.writes() == old(self).mem.writes().push(
                (Offset::EndOfInterrupt.spec_byte_offset(), 0u32),
            ),
    {
        registers::EndOfInterrupt::signal(&mut self.mem);
    }
}

} // verus!

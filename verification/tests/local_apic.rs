//! Tests of the local register file over the simulated register page.

use apic::model::SimMemory;
use apic::registers::TimerDivideConfigurationValue;
use apic::{ApicBase, Offset};

#[test]
fn fresh_page_reads_zero() {
    let mut apic = ApicBase::new(SimMemory::new());
    assert_eq!(apic.id().id(), 0);
    assert_eq!(apic.version().version(), 0);
    assert_eq!(apic.timer_initial_count().get(), 0);
    assert!(!apic.spurious_interrupt_vector().apic_software_enabled());
    // reads perform no write
    assert_eq!(apic.mem.write_count(), 0);
}

#[test]
fn register_offsets() {
    assert_eq!(Offset::Id.byte_offset(), 0x20);
    assert_eq!(Offset::Version.byte_offset(), 0x30);
    assert_eq!(Offset::EndOfInterrupt.byte_offset(), 0xb0);
    assert_eq!(Offset::SpuriousInterruptVector.byte_offset(), 0xf0);
    assert_eq!(Offset::TimerLocalVectorTableEntry.byte_offset(), 0x320);
    assert_eq!(Offset::TimerInitialCount.byte_offset(), 0x380);
    assert_eq!(Offset::TimerDivideConfiguration.byte_offset(), 0x3e0);
    assert_eq!(Offset::ExtendedApicFeature.byte_offset(), 0x400);
    assert_eq!(Offset::ExtendedApicControl.byte_offset(), 0x410);
    assert_eq!(Offset::TaskPriority.byte_offset(), 0x80);
    assert_eq!(Offset::ArbitrationPriority.byte_offset(), 0x90);
    assert_eq!(Offset::ProcessorPriority.byte_offset(), 0xa0);
    assert_eq!(Offset::RemoteRead.byte_offset(), 0xc0);
    assert_eq!(Offset::LocalDestination.byte_offset(), 0xd0);
    assert_eq!(Offset::DestinationFormat.byte_offset(), 0xe0);
    assert_eq!(Offset::InService.byte_offset(), 0x100);
    assert_eq!(Offset::TriggerMode.byte_offset(), 0x180);
    assert_eq!(Offset::InterruptRequest.byte_offset(), 0x200);
    assert_eq!(Offset::ErrorStatus.byte_offset(), 0x280);
    assert_eq!(Offset::InterruptCommand.byte_offset(), 0x300);
    assert_eq!(Offset::ThermalLocalVectorTableEntry.byte_offset(), 0x330);
    assert_eq!(Offset::PerformanceCounterLocalVectorTableEntry.byte_offset(), 0x340);
    assert_eq!(Offset::LocalInterrupt0VectorTableEntry.byte_offset(), 0x350);
    assert_eq!(Offset::LocalInterrupt1VectorTableEntry.byte_offset(), 0x360);
    assert_eq!(Offset::ErrorVectorTableEntry.byte_offset(), 0x370);
    assert_eq!(Offset::TimerCurrentCount.byte_offset(), 0x390);
    assert_eq!(Offset::SpecificEndOfInterrupt.byte_offset(), 0x420);
    assert_eq!(Offset::InterruptEnable.byte_offset(), 0x480);
    assert_eq!(Offset::ExtendedInterruptLocalVectorTable.byte_offset(), 0x500);
}

#[test]
fn read_modify_write_keeps_both_fields() {
    // two writes to distinct fields of one register, then one read:
    // both must be present
    let mut apic = ApicBase::new(SimMemory::new());
    let mut entry = apic.timer_local_vector_table_entry();
    entry.set_vector(0x31);
    entry.set_mask(true);
    apic.write_timer_local_vector_table_entry(entry);

    let read_back = apic.timer_local_vector_table_entry();
    assert_eq!(read_back.vector(), 0x31);
    assert!(read_back.mask());
}

#[test]
fn spurious_vector_read_modify_write() {
    let mut apic = ApicBase::new(SimMemory::new());
    let mut siv = apic.spurious_interrupt_vector();
    siv.set_vector(0xff);
    siv.enable_apic_software(true);
    apic.write_spurious_interrupt_vector(siv);

    let read_back = apic.spurious_interrupt_vector();
    assert_eq!(read_back.vector(), 0xff);
    assert!(read_back.apic_software_enabled());
    assert!(!read_back.focus_cpu_core_checking());
}

#[test]
fn writes_land_at_the_register_offset() {
    let mut apic = ApicBase::new(SimMemory::new());
    let mut count = apic.timer_initial_count();
    count.set(123_456);
    apic.write_timer_initial_count(count);
    assert_eq!(apic.mem.write_count(), 1);
    assert_eq!(apic.mem.nth_write(0), (0x380, 123_456));
    assert_eq!(apic.timer_initial_count().get(), 123_456);
}

#[test]
fn divide_configuration_through_register_file() {
    let mut apic = ApicBase::new(SimMemory::new());
    let mut config = apic.timer_divide_configuration();
    config.set(TimerDivideConfigurationValue::Divide1);
    apic.write_timer_divide_configuration(config);
    assert_eq!(apic.mem.nth_write(0), (0x3e0, 0b1011));
    assert_eq!(apic.timer_divide_configuration().get(), TimerDivideConfigurationValue::Divide1);
}

#[test]
fn extended_control_through_register_file() {
    let mut apic = ApicBase::new(SimMemory::new());
    let mut control = apic.extended_apic_control();
    control.enable_interrupt_enable_registers(true);
    apic.write_extended_apic_control(control);
    assert!(apic.extended_apic_control().interrupt_enable_registers_enabled());
    assert_eq!(apic.mem.nth_write(0), (0x410, 0b001));
}

#[test]
fn end_of_interrupt_is_exactly_one_write_of_zero() {
    let mut apic = ApicBase::new(SimMemory::new());
    // inspect registers beforehand, as a handler would
    let _ = apic.id();
    let _ = apic.version();
    let _ = apic.timer_local_vector_table_entry();
    assert_eq!(apic.mem.write_count(), 0);

    apic.end_of_interrupt();

    assert_eq!(apic.mem.write_count(), 1);
    assert_eq!(apic.mem.nth_write(0), (0xb0, 0));

    // further inspections add no writes
    let _ = apic.extended_apic_feature();
    assert_eq!(apic.mem.write_count(), 1);
}

//! Tests of the I/O router's indirect interface over the simulated
//! select/window pair.

use apic::io_apic::values::{Arbitration, DeliveryMode, RedirectionTableEntry, Version};
use apic::io_apic::{Index, IoApicBase, Offset, Select, WindowAccess};
use apic::model::SimSelectWindow;

#[test]
fn direct_register_offsets_and_indices() {
    assert_eq!(Offset::Select.byte_offset(), 0x0);
    assert_eq!(Offset::Window.byte_offset(), 0x10);
    assert_eq!(Index::Id.as_u8(), 0x0);
    assert_eq!(Index::Version.as_u8(), 0x1);
    assert_eq!(Index::Arbitration.as_u8(), 0x2);
    assert_eq!(Index::RedirectionTableEntryBase.as_u8(), 0x10);
}

#[test]
fn select_value_keeps_high_bits() {
    let mut select = Select::new(0x12);
    assert_eq!(select.into_raw(), 0x12);
    select.set_index(0x34);
    assert_eq!(select.into_raw(), 0x34);
    // only the low byte is the index
    let mut select = Select::new(0xff);
    select.set_index(0x01);
    assert_eq!(select.into_raw(), 0x01);
}

#[test]
fn version_value_fields() {
    let version = Version::from_raw(0x0017_0011);
    assert_eq!(version.apic_version(), 0x11);
    assert_eq!(version.max_redirection_entry(), 0x17);
}

#[test]
fn arbitration_round_trip() {
    let arbitration = Arbitration::new(5);
    assert_eq!(arbitration.arbitration_id(), 5);
    assert_eq!(arbitration.into_raw(), 5 << 24);

    let mut io = IoApicBase::new(SimSelectWindow::new());
    io.write_arbitration(arbitration);
    assert_eq!(io.read_arbitration().arbitration_id(), 5);
}

#[test]
fn read_id_uses_index_zero() {
    let mut io = IoApicBase::new(SimSelectWindow::new());
    assert_eq!(io.read_id(), 0);
    assert_eq!(io.dev.access_count(), 2);
    assert_eq!(io.dev.nth_access(0), WindowAccess::SelectWrite(0));
    assert_eq!(io.dev.nth_access(1), WindowAccess::WindowRead);
}

#[test]
fn delivery_mode_codes_round_trip() {
    let modes = [
        DeliveryMode::Fixed,
        DeliveryMode::LowestPriority,
        DeliveryMode::SystemManagementInterrupt,
        DeliveryMode::Reserved1,
        DeliveryMode::NonMaskableInterrupt,
        DeliveryMode::Init,
        DeliveryMode::Reserved2,
        DeliveryMode::ExtInt,
    ];
    for (expected_code, &mode) in modes.iter().enumerate() {
        let code = mode.code();
        assert_eq!(code as usize, expected_code);
        assert_eq!(DeliveryMode::try_from(code), Ok(mode));
    }
}

#[test]
fn delivery_mode_rejects_out_of_range_codes() {
    assert_eq!(DeliveryMode::try_from(8), Err(()));
    assert_eq!(DeliveryMode::try_from(0xff), Err(()));
}

#[test]
fn entry_fields_round_trip_and_stay_isolated() {
    let mut entry = RedirectionTableEntry::from_raw(0, 0);
    entry.set_vector(0x42);
    entry.set_delivery_mode(DeliveryMode::LowestPriority);
    entry.set_destination_mode_logical(true);
    entry.set_polarity_low_active(true);
    entry.set_trigger_mode_level(true);
    entry.set_masked(true);
    entry.set_destination(0x07);

    assert_eq!(entry.vector(), 0x42);
    assert_eq!(entry.delivery_mode(), DeliveryMode::LowestPriority);
    assert!(entry.destination_mode_logical());
    assert!(entry.polarity_low_active());
    assert!(entry.trigger_mode_level());
    assert!(entry.masked());
    assert_eq!(entry.destination(), 0x07);
    assert!(!entry.delivery_status_send_pending());
    assert!(!entry.remote_irr());

    // changing one field leaves the others as they were
    entry.set_vector(0x99);
    assert_eq!(entry.vector(), 0x99);
    assert_eq!(entry.delivery_mode(), DeliveryMode::LowestPriority);
    assert!(entry.masked());
    entry.set_masked(false);
    assert!(!entry.masked());
    assert_eq!(entry.vector(), 0x99);
    assert_eq!(entry.destination(), 0x07);

    let (low, high) = entry.into_raw();
    let rebuilt = RedirectionTableEntry::from_raw(low, high);
    assert_eq!(rebuilt.vector(), 0x99);
    assert_eq!(rebuilt.destination(), 0x07);
}

#[test]
fn redirection_entry_split_integrity() {
    // write an entry, read it back through both windows: identical decode
    let mut entry = RedirectionTableEntry::from_raw(0, 0);
    entry.set_vector(0x20);
    entry.set_delivery_mode(DeliveryMode::Fixed);
    entry.set_destination(0x01);
    entry.set_masked(false);

    let mut io = IoApicBase::new(SimSelectWindow::new());
    io.write_redirection_table_entry(5, entry);
    let read_back = io.read_redirection_table_entry(5);

    assert_eq!(read_back.vector(), 0x20);
    assert_eq!(read_back.delivery_mode(), DeliveryMode::Fixed);
    assert_eq!(read_back.destination(), 0x01);
    assert!(!read_back.masked());
    assert_eq!(read_back.into_raw(), entry.into_raw());
}

#[test]
fn redirection_write_commits_low_then_high() {
    let mut entry = RedirectionTableEntry::from_raw(0, 0);
    entry.set_vector(0x20);
    entry.set_destination(0x01);
    let (low, high) = entry.into_raw();

    let mut io = IoApicBase::new(SimSelectWindow::new());
    io.write_redirection_table_entry(1, entry);

    assert_eq!(io.dev.access_count(), 4);
    assert_eq!(io.dev.nth_access(0), WindowAccess::SelectWrite(0x12));
    assert_eq!(io.dev.nth_access(1), WindowAccess::WindowWrite(low));
    assert_eq!(io.dev.nth_access(2), WindowAccess::SelectWrite(0x13));
    assert_eq!(io.dev.nth_access(3), WindowAccess::WindowWrite(high));
}

#[test]
fn redirection_read_selects_each_word() {
    let mut io = IoApicBase::new(SimSelectWindow::new());
    let _ = io.read_redirection_table_entry(0);
    assert_eq!(io.dev.access_count(), 4);
    assert_eq!(io.dev.nth_access(0), WindowAccess::SelectWrite(0x10));
    assert_eq!(io.dev.nth_access(1), WindowAccess::WindowRead);
    assert_eq!(io.dev.nth_access(2), WindowAccess::SelectWrite(0x11));
    assert_eq!(io.dev.nth_access(3), WindowAccess::WindowRead);
}

#[test]
fn entries_of_different_lines_do_not_overlap() {
    let mut first = RedirectionTableEntry::from_raw(0, 0);
    first.set_vector(0x30);
    let mut second = RedirectionTableEntry::from_raw(0, 0);
    second.set_vector(0x40);

    let mut io = IoApicBase::new(SimSelectWindow::new());
    io.write_redirection_table_entry(2, first);
    io.write_redirection_table_entry(3, second);

    assert_eq!(io.read_redirection_table_entry(2).vector(), 0x30);
    assert_eq!(io.read_redirection_table_entry(3).vector(), 0x40);
}

#[test]
fn out_of_range_line_fails_before_any_access() {
    let mut io = IoApicBase::new(SimSelectWindow::new());

    let read = io.try_read_redirection_table_entry(24);
    assert!(read.is_err());
    assert_eq!(io.dev.access_count(), 0);

    let entry = RedirectionTableEntry::from_raw(0, 0);
    let write = io.try_write_redirection_table_entry(24, entry);
    assert!(write.is_err());
    assert_eq!(io.dev.access_count(), 0);

    let far = io.try_read_redirection_table_entry(0xff);
    assert!(far.is_err());
    assert_eq!(io.dev.access_count(), 0);

    // the last valid line still works
    let ok = io.try_read_redirection_table_entry(23);
    assert!(ok.is_ok());
    assert_eq!(io.dev.access_count(), 4);
}

#[test]
fn update_entry_reads_mutates_and_writes_back() {
    let mut entry = RedirectionTableEntry::from_raw(0, 0);
    entry.set_vector(0x21);
    entry.set_destination(0x02);

    let mut io = IoApicBase::new(SimSelectWindow::new());
    io.write_redirection_table_entry(7, entry);

    io.update_redirection_table_entry(7, |mut e| {
        e.set_masked(true);
        e
    });

    let read_back = io.read_redirection_table_entry(7);
    assert!(read_back.masked());
    assert_eq!(read_back.vector(), 0x21);
    assert_eq!(read_back.destination(), 0x02);
}

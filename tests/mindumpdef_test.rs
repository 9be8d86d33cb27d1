use vmsavedstatedump_rs::mindumpdef::{
    DumpFileAttributes, DumpTypes, PhysicalMemoryDescriptor32, PhysicalMemoryDescriptor64,
    PhysicalMemoryRun32, PhysicalMemoryRun64, DUMP_ATTRIBUTE_DECRYPTED_DUMP,
    DUMP_ATTRIBUTE_HIBER_CRASH,
};

#[test]
fn new_attributes_are_clear() {
    let attributes = DumpFileAttributes::new();
    assert_eq!(0, attributes.attributes());
    assert!(!attributes.hiber_crash());
    assert!(!attributes.decrypted_dump());
}

#[test]
fn each_flag_sets_its_own_bit() {
    let mut a = DumpFileAttributes::new();
    a.set_hiber_crash(true);
    assert_eq!(0x1, a.attributes());
    a.set_dump_device_power_off(true);
    assert_eq!(0x3, a.attributes());
    a.set_insufficient_dumpfile_size(true);
    assert_eq!(0x7, a.attributes());
    a.set_kernel_generated_triage_dump(true);
    assert_eq!(0xF, a.attributes());
    a.set_live_dump_generated_dump(true);
    assert_eq!(0x1F, a.attributes());
    a.set_dump_is_generated_offline(true);
    assert_eq!(0x3F, a.attributes());
    a.set_filter_dump_file(true);
    assert_eq!(0x7F, a.attributes());
    a.set_early_boot_crash(true);
    assert_eq!(0xFF, a.attributes());
    a.set_encrypted_dump_data(true);
    assert_eq!(0x1FF, a.attributes());
    a.set_decrypted_dump(true);
    assert_eq!(0x3FF, a.attributes());
    assert!(a.hiber_crash());
    assert!(a.dump_device_power_off());
    assert!(a.insufficient_dumpfile_size());
    assert!(a.kernel_generated_triage_dump());
    assert!(a.live_dump_generated_dump());
    assert!(a.dump_is_generated_offline());
    assert!(a.filter_dump_file());
    assert!(a.early_boot_crash());
    assert!(a.encrypted_dump_data());
    assert!(a.decrypted_dump());
}

#[test]
fn clearing_a_flag_keeps_the_others() {
    let mut a = DumpFileAttributes::new();
    a.set_attributes(0xFFFF_FFFF);
    a.set_early_boot_crash(false);
    assert_eq!(0xFFFF_FF7F, a.attributes());
    assert!(!a.early_boot_crash());
    assert!(a.filter_dump_file());
    a.set_early_boot_crash(true);
    assert_eq!(0xFFFF_FFFF, a.attributes());
}

#[test]
fn setting_a_set_flag_changes_nothing() {
    let mut a = DumpFileAttributes::new();
    a.set_attributes(DUMP_ATTRIBUTE_HIBER_CRASH | DUMP_ATTRIBUTE_DECRYPTED_DUMP);
    a.set_hiber_crash(true);
    assert_eq!(0x201, a.attributes());
    a.set_dump_device_power_off(false);
    assert_eq!(0x201, a.attributes());
}

#[test]
fn flags_read_raw_bits() {
    let mut a = DumpFileAttributes::new();
    a.set_attributes(0x0000_0120);
    assert!(a.dump_is_generated_offline());
    assert!(a.encrypted_dump_data());
    assert!(!a.hiber_crash());
    assert!(!a.decrypted_dump());
}

#[test]
fn dump_type_values() {
    assert_eq!(-1, DumpTypes::Invalid.value());
    assert_eq!(0, DumpTypes::Unknown.value());
    assert_eq!(1, DumpTypes::Full.value());
    assert_eq!(2, DumpTypes::Summary.value());
    assert_eq!(3, DumpTypes::Header.value());
    assert_eq!(4, DumpTypes::Triage.value());
    assert_eq!(5, DumpTypes::BitmapFull.value());
    assert_eq!(6, DumpTypes::BitmapKernel.value());
    assert_eq!(7, DumpTypes::Automatic.value());
}

#[test]
fn memory_descriptors_default_to_zero() {
    let d32 = PhysicalMemoryDescriptor32::default();
    assert_eq!(0, d32.number_of_runs);
    assert_eq!(PhysicalMemoryRun32::default(), d32.run[0]);
    let d64 = PhysicalMemoryDescriptor64::default();
    assert_eq!(0, d64.number_of_pages);
    assert_eq!(
        PhysicalMemoryRun64 {
            base_page: 0,
            page_count: 0
        },
        d64.run[0]
    );
}

#[test]
fn descriptor32_reads_little_endian_words() {
    let mut block = vec![0u8; 700];
    block[..16].copy_from_slice(&[
        1, 0, 0, 0, 0x00, 0xFC, 0, 0, 0x10, 0, 0, 0, 0x00, 0xFC, 0, 0,
    ]);
    let d = PhysicalMemoryDescriptor32::read_from(&block);
    assert_eq!(1, d.number_of_runs);
    assert_eq!(64512, d.number_of_pages);
    assert_eq!(0x10, d.run[0].base_page);
    assert_eq!(64512, d.run[0].page_count);
}

#[test]
fn descriptor32_round_trips_and_keeps_the_rest() {
    let mut block = vec![0xAAu8; 700];
    let d = PhysicalMemoryDescriptor32 {
        number_of_runs: 0x0102_0304,
        number_of_pages: u32::MAX,
        run: [PhysicalMemoryRun32 {
            base_page: 7,
            page_count: 0x8000_0000,
        }],
    };
    d.write_to(&mut block);
    assert_eq!(&[4u8, 3, 2, 1], &block[0..4]);
    assert_eq!(d, PhysicalMemoryDescriptor32::read_from(&block));
    assert!(block[16..].iter().all(|&b| b == 0xAA));
}

#[test]
fn descriptor64_layout_has_padding_after_run_count() {
    let mut block = vec![0xFFu8; 700];
    let d = PhysicalMemoryDescriptor64 {
        number_of_runs: 2,
        number_of_pages: 0x0102_0304_0506_0708,
        run: [PhysicalMemoryRun64 {
            base_page: u64::MAX,
            page_count: 64512,
        }],
    };
    d.write_to(&mut block);
    assert_eq!(&[2u8, 0, 0, 0, 0, 0, 0, 0], &block[0..8]);
    assert_eq!(&[8u8, 7, 6, 5, 4, 3, 2, 1], &block[8..16]);
    assert_eq!(d, PhysicalMemoryDescriptor64::read_from(&block));
    assert!(block[32..].iter().all(|&b| b == 0xFF));
}

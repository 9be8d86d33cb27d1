//! Definitions of the Windows dump file format: dump types, physical memory descriptors
//! and the dump file attribute flags.

use vstd::prelude::*;

verus! {

/// The kinds of dump file. `Invalid` is -1 on the wire and each later kind one more.
#[derive(Debug, Clone, Copy, PartialEq, Eq, Structural)]
pub enum DumpTypes {
    Invalid,
    Unknown,
    Full,
    Summary,
    Header,
    Triage,
    BitmapFull,
    BitmapKernel,
    Automatic,
}

impl DumpTypes {
    /// The wire value of this dump type: -1 for `Invalid`, 0 for `Unknown`, up to 7 for
    /// `Automatic`.
    pub fn value(self) -> (r: i8)
        ensures
            r == self as i8 - 1,
    {
        let position = self as i8;
        position - 1
    }
}

/// A run of consecutive physical pages, 32-bit layout.
#[derive(Debug, Clone, Copy, Default, PartialEq, Eq, Structural)]
pub struct PhysicalMemoryRun32 {
    pub base_page: u32,
    pub page_count: u32,
}

/// The physical memory of a 32-bit dump: its page count and its runs, of which the
/// header has room for the first.
#[derive(Debug, Clone, Copy, Default, PartialEq, Eq)]
pub struct PhysicalMemoryDescriptor32 {
    pub number_of_runs: u32,
    pub number_of_pages: u32,
    pub run: [PhysicalMemoryRun32; 1],
}

/// A run of consecutive physical pages, 64-bit layout.
#[derive(Debug, Clone, Copy, Default, PartialEq, Eq, Structural)]
pub struct PhysicalMemoryRun64 {
    pub base_page: u64,
    pub page_count: u64,
}

/// The physical memory of a 64-bit dump: its page count and its runs, of which the
/// header has room for the first.
#[derive(Debug, Clone, Copy, Default, PartialEq, Eq)]
pub struct PhysicalMemoryDescriptor64 {
    pub number_of_runs: u32,
    pub number_of_pages: u64,
    pub run: [PhysicalMemoryRun64; 1],
}

/// Attribute bit: the dump was taken on a crash during hibernation.
pub const DUMP_ATTRIBUTE_HIBER_CRASH: u32 = 0x0000_0001;

/// Attribute bit: the dump device was powered off.
pub const DUMP_ATTRIBUTE_DUMP_DEVICE_POWER_OFF: u32 = 0x0000_0002;

/// Attribute bit: the dump file was too small to hold the whole dump.
pub const DUMP_ATTRIBUTE_INSUFFICIENT_DUMPFILE_SIZE: u32 = 0x0000_0004;

/// Attribute bit: the kernel generated a triage dump.
pub const DUMP_ATTRIBUTE_KERNEL_GENERATED_TRIAGE_DUMP: u32 = 0x0000_0008;

/// Attribute bit: the dump was generated by a live dump.
pub const DUMP_ATTRIBUTE_LIVE_DUMP_GENERATED_DUMP: u32 = 0x0000_0010;

/// Attribute bit: the dump was generated offline.
pub const DUMP_ATTRIBUTE_DUMP_IS_GENERATED_OFFLINE: u32 = 0x0000_0020;

/// Attribute bit: the dump file was filtered.
pub const DUMP_ATTRIBUTE_FILTER_DUMP_FILE: u32 = 0x0000_0040;

/// Attribute bit: the crash happened early in boot.
pub const DUMP_ATTRIBUTE_EARLY_BOOT_CRASH: u32 = 0x0000_0080;

/// Attribute bit: the dump data (all but the secure header) is encrypted, and the secure header is in use.
pub const DUMP_ATTRIBUTE_ENCRYPTED_DUMP_DATA: u32 = 0x0000_0100;

/// Attribute bit: set by dump decryption software: the dump was encrypted and this one was obtained by decrypting it.
pub const DUMP_ATTRIBUTE_DECRYPTED_DUMP: u32 = 0x0000_0200;

/// The little-endian 32-bit word that starts at `at`.
pub open spec fn le_u32_at(b: Seq<u8>, at: int) -> int {
    b[at] + b[at + 1] * 0x100 + b[at + 2] * 0x1_0000 + b[at + 3] * 0x100_0000
}

/// The little-endian 64-bit word that starts at `at`.
pub open spec fn le_u64_at(b: Seq<u8>, at: int) -> int {
    le_u32_at(b, at) + le_u32_at(b, at + 4) * 0x1_0000_0000
}

fn read_u32_le(b: &[u8], at: usize) -> (r: u32)
    requires
        at + 4 <= b.len(),
    ensures
        r == le_u32_at(b@, at as int),
{
    b[at] as u32 + b[at + 1] as u32 * 0x100 + b[at + 2] as u32 * 0x1_0000 + b[at + 3] as u32
        * 0x100_0000
}

fn read_u64_le(b: &[u8], at: usize) -> (r: u64)
    requires
        at + 8 <= b.len(),
    ensures
        r == le_u64_at(b@, at as int),
{
    read_u32_le(b, at) as u64 + read_u32_le(b, at + 4) as u64 * 0x1_0000_0000
}

/// Writes `v` as a little-endian 32-bit word at `at`; no other byte changes.
fn write_u32_le(b: &mut [u8], at: usize, v: u32)
    requires
        at + 4 <= old(b).len(),
    ensures
        final(b)@.len() == old(b)@.len(),
        le_u32_at(final(b)@, at as int) == v,
        forall|i: int|
            0 <= i < old(b)@.len() && !(at <= i < at + 4) ==> #[trigger] final(b)@[i] == old(b)@[i],
{
    assert(v & 0xff < 0x100 && (v >> 8) & 0xff < 0x100 && (v >> 16) & 0xff < 0x100 && v >> 24
        < 0x100) by (bit_vector);
    assert(v == (v & 0xff) + ((v >> 8) & 0xff) * 0x100 + ((v >> 16) & 0xff) * 0x1_0000 + (v
        >> 24) * 0x100_0000) by (bit_vector);
    let b0 = (v & 0xff) as u8;
    let b1 = ((v >> 8) & 0xff) as u8;
    let b2 = ((v >> 16) & 0xff) as u8;
    let b3 = (v >> 24) as u8;
    b[at] = b0;
    b[at + 1] = b1;
    b[at + 2] = b2;
    b[at + 3] = b3;
}

/// Writes `v` as a little-endian 64-bit word at `at`; no other byte changes.
fn write_u64_le(b: &mut [u8], at: usize, v: u64)
    requires
        at + 8 <= old(b).len(),
    ensures
        final(b)@.len() == old(b)@.len(),
        le_u64_at(final(b)@, at as int) == v,
        forall|i: int|
            0 <= i < old(b)@.len() && !(at <= i < at + 8) ==> #[trigger] final(b)@[i] == old(b)@[i],
{
    assert(v & 0xffff_ffff <= u32::MAX && v >> 32 <= u32::MAX) by (bit_vector);
    assert(v == (v & 0xffff_ffff) + (v >> 32) * 0x1_0000_0000) by (bit_vector);
    let low = (v & 0xffff_ffff) as u32;
    let high = (v >> 32) as u32;
    write_u32_le(b, at, low);
    write_u32_le(b, at + 4, high);
}

/// Bytes that a 32-bit descriptor takes in a dump header: run count, page count, then the
/// first run's base page and page count, each a little-endian 32-bit word.
pub const PHYSICAL_MEMORY_DESCRIPTOR_32_SIZE: usize = 16;

/// Bytes that a 64-bit descriptor takes in a dump header: the run count as a 32-bit word
/// and 4 bytes of padding, then page count, base page and page count of the first run as
/// 64-bit words, all little-endian.
pub const PHYSICAL_MEMORY_DESCRIPTOR_64_SIZE: usize = 32;

impl PhysicalMemoryDescriptor32 {
    /// Whether `b` starts with this descriptor's encoding.
    pub open spec fn is_encoded_in(&self, b: Seq<u8>) -> bool {
        &&& b.len() >= PHYSICAL_MEMORY_DESCRIPTOR_32_SIZE
        &&& le_u32_at(b, 0) == self.number_of_runs
        &&& le_u32_at(b, 4) == self.number_of_pages
        &&& le_u32_at(b, 8) == self.run[0].base_page
        &&& le_u32_at(b, 12) == self.run[0].page_count
    }

    /// The descriptor that a physical-memory block starts with.
    pub fn read_from(block: &[u8]) -> (r: PhysicalMemoryDescriptor32)
        requires
            block@.len() >= PHYSICAL_MEMORY_DESCRIPTOR_32_SIZE,
        ensures
            r.is_encoded_in(block@),
    {
        let run = PhysicalMemoryRun32 {
            base_page: read_u32_le(block, 8),
            page_count: read_u32_le(block, 12),
        };
        PhysicalMemoryDescriptor32 {
            number_of_runs: read_u32_le(block, 0),
            number_of_pages: read_u32_le(block, 4),
            run: [run],
        }
    }

    /// Writes this descriptor at the start of a physical-memory block; the rest of the block
    /// is left as it was.
    pub fn write_to(&self, block: &mut [u8])
        requires
            old(block)@.len() >= PHYSICAL_MEMORY_DESCRIPTOR_32_SIZE,
        ensures
            final(block)@.len() == old(block)@.len(),
            self.is_encoded_in(final(block)@),
            forall|i: int|
                PHYSICAL_MEMORY_DESCRIPTOR_32_SIZE <= i < old(block)@.len()
                    ==> #[trigger] final(block)@[i] == old(block)@[i],
    {
        write_u32_le(block, 0, self.number_of_runs);
        write_u32_le(block, 4, self.number_of_pages);
        write_u32_le(block, 8, self.run[0].base_page);
        write_u32_le(block, 12, self.run[0].page_count);
    }
}

impl PhysicalMemoryDescriptor64 {
    /// Whether `b` starts with this descriptor's encoding.
    pub open spec fn is_encoded_in(&self, b: Seq<u8>) -> bool {
        &&& b.len() >= PHYSICAL_MEMORY_DESCRIPTOR_64_SIZE
        &&& le_u32_at(b, 0) == self.number_of_runs
        &&& le_u64_at(b, 8) == self.number_of_pages
        &&& le_u64_at(b, 16) == self.run[0].base_page
        &&& le_u64_at(b, 24) == self.run[0].page_count
    }

    /// The descriptor that a physical-memory block starts with.
    pub fn read_from(block: &[u8]) -> (r: PhysicalMemoryDescriptor64)
        requires
            block@.len() >= PHYSICAL_MEMORY_DESCRIPTOR_64_SIZE,
        ensures
            r.is_encoded_in(block@),
    {
        let run = PhysicalMemoryRun64 {
            base_page: read_u64_le(block, 16),
            page_count: read_u64_le(block, 24),
        };
        PhysicalMemoryDescriptor64 {
            number_of_runs: read_u32_le(block, 0),
            number_of_pages: read_u64_le(block, 8),
            run: [run],
        }
    }

    /// Writes this descriptor at the start of a physical-memory block, with zero padding;
    /// the rest of the block is left as it was.
    pub fn write_to(&self, block: &mut [u8])
        requires
            old(block)@.len() >= PHYSICAL_MEMORY_DESCRIPTOR_64_SIZE,
        ensures
            final(block)@.len() == old(block)@.len(),
            self.is_encoded_in(final(block)@),
            le_u32_at(final(block)@, 4) == 0,
            forall|i: int|
                PHYSICAL_MEMORY_DESCRIPTOR_64_SIZE <= i < old(block)@.len()
                    ==> #[trigger] final(block)@[i] == old(block)@[i],
    {
        write_u32_le(block, 0, self.number_of_runs);
        write_u32_le(block, 4, 0);
        write_u64_le(block, 8, self.number_of_pages);
        write_u64_le(block, 16, self.run[0].base_page);
        write_u64_le(block, 24, self.run[0].page_count);
    }
}

/// Whether every bit of `mask` is set in `bits`.
pub open spec fn has_flag(bits: u32, mask: u32) -> bool {
    bits & mask == mask
}

fn flag_is_set(bits: u32, mask: u32) -> (r: bool)
    ensures
        r == has_flag(bits, mask),
{
    bits & mask == mask
}

/// `bits` with the bits of `mask` set or cleared; no other bit changes.
fn with_flag(bits: u32, mask: u32, value: bool) -> (r: u32)
    requires
        mask != 0,
    ensures
        has_flag(r, mask) == value,
        r & !mask == bits & !mask,
{
    if value {
        let r = bits | mask;
        assert(has_flag(r, mask)) by (bit_vector)
            requires
                r == bits | mask,
        ;
        assert(r & !mask == bits & !mask) by (bit_vector)
            requires
                r == bits | mask,
        ;
        r
    } else {
        let r = bits & !mask;
        assert(!has_flag(r, mask)) by (bit_vector)
            requires
                r == bits & !mask,
                mask != 0,
        ;
        assert(r & !mask == bits & !mask) by (bit_vector)
            requires
                r == bits & !mask,
        ;
        r
    }
}

/// The attribute flags of a dump file, as a 32-bit word.
#[derive(Debug, Clone, Copy, Default, PartialEq, Eq, Structural)]
pub struct DumpFileAttributes {
    inner: u32,
}

impl View for DumpFileAttributes {
    type V = u32;

    closed spec fn view(&self) -> u32 {
        self.inner
    }
}

impl DumpFileAttributes {
    /// No attribute set.
    pub fn new() -> (r: DumpFileAttributes)
        ensures
            r@ == 0,
    {
        DumpFileAttributes { inner: 0 }
    }

    /// All the attribute bits.
    pub fn attributes(&self) -> (r: u32)
        ensures
            r == self@,
    {
        self.inner
    }

    /// Replaces all the attribute bits.
    pub fn set_attributes(&mut self, value: u32)
        ensures
            final(self)@ == value,
    {
        self.inner = value;
    }

    /// The dump was taken on a crash during hibernation.
    pub fn hiber_crash(&self) -> (r: bool)
        ensures
            r == has_flag(self@, DUMP_ATTRIBUTE_HIBER_CRASH),
    {
        flag_is_set(self.inner, DUMP_ATTRIBUTE_HIBER_CRASH)
    }

    /// Sets or clears the `hiber_crash` flag, leaving the other bits as they were.
    pub fn set_hiber_crash(&mut self, value: bool)
        ensures
            has_flag(final(self)@, DUMP_ATTRIBUTE_HIBER_CRASH) == value,
            final(self)@ & !DUMP_ATTRIBUTE_HIBER_CRASH == old(self)@ & !DUMP_ATTRIBUTE_HIBER_CRASH,
    {
        self.inner = with_flag(self.inner, DUMP_ATTRIBUTE_HIBER_CRASH, value);
    }

    /// The dump device was powered off.
    pub fn dump_device_power_off(&self) -> (r: bool)
        ensures
            r == has_flag(self@, DUMP_ATTRIBUTE_DUMP_DEVICE_POWER_OFF),
    {
        flag_is_set(self.inner, DUMP_ATTRIBUTE_DUMP_DEVICE_POWER_OFF)
    }

    /// Sets or clears the `dump_device_power_off` flag, leaving the other bits as they were.
    pub fn set_dump_device_power_off(&mut self, value: bool)
        ensures
            has_flag(final(self)@, DUMP_ATTRIBUTE_DUMP_DEVICE_POWER_OFF) == value,
            final(self)@ & !DUMP_ATTRIBUTE_DUMP_DEVICE_POWER_OFF == old(self)@ & !DUMP_ATTRIBUTE_DUMP_DEVICE_POWER_OFF,
    {
        self.inner = with_flag(self.inner, DUMP_ATTRIBUTE_DUMP_DEVICE_POWER_OFF, value);
    }

    /// The dump file was too small to hold the whole dump.
    pub fn insufficient_dumpfile_size(&self) -> (r: bool)
        ensures
            r == has_flag(self@, DUMP_ATTRIBUTE_INSUFFICIENT_DUMPFILE_SIZE),
    {
        flag_is_set(self.inner, DUMP_ATTRIBUTE_INSUFFICIENT_DUMPFILE_SIZE)
    }

    /// Sets or clears the `insufficient_dumpfile_size` flag, leaving the other bits as they were.
    pub fn set_insufficient_dumpfile_size(&mut self, value: bool)
        ensures
            has_flag(final(self)@, DUMP_ATTRIBUTE_INSUFFICIENT_DUMPFILE_SIZE) == value,
            final(self)@ & !DUMP_ATTRIBUTE_INSUFFICIENT_DUMPFILE_SIZE == old(self)@ & !DUMP_ATTRIBUTE_INSUFFICIENT_DUMPFILE_SIZE,
    {
        self.inner = with_flag(self.inner, DUMP_ATTRIBUTE_INSUFFICIENT_DUMPFILE_SIZE, value);
    }

    /// The kernel generated a triage dump.
    pub fn kernel_generated_triage_dump(&self) -> (r: bool)
        ensures
            r == has_flag(self@, DUMP_ATTRIBUTE_KERNEL_GENERATED_TRIAGE_DUMP),
    {
        flag_is_set(self.inner, DUMP_ATTRIBUTE_KERNEL_GENERATED_TRIAGE_DUMP)
    }

    /// Sets or clears the `kernel_generated_triage_dump` flag, leaving the other bits as they were.
    pub fn set_kernel_generated_triage_dump(&mut self, value: bool)
        ensures
            has_flag(final(self)@, DUMP_ATTRIBUTE_KERNEL_GENERATED_TRIAGE_DUMP) == value,
            final(self)@ & !DUMP_ATTRIBUTE_KERNEL_GENERATED_TRIAGE_DUMP == old(self)@ & !DUMP_ATTRIBUTE_KERNEL_GENERATED_TRIAGE_DUMP,
    {
        self.inner = with_flag(self.inner, DUMP_ATTRIBUTE_KERNEL_GENERATED_TRIAGE_DUMP, value);
    }

    /// The dump was generated by a live dump.
    pub fn live_dump_generated_dump(&self) -> (r: bool)
        ensures
            r == has_flag(self@, DUMP_ATTRIBUTE_LIVE_DUMP_GENERATED_DUMP),
    {
        flag_is_set(self.inner, DUMP_ATTRIBUTE_LIVE_DUMP_GENERATED_DUMP)
    }

    /// Sets or clears the `live_dump_generated_dump` flag, leaving the other bits as they were.
    pub fn set_live_dump_generated_dump(&mut self, value: bool)
        ensures
            has_flag(final(self)@, DUMP_ATTRIBUTE_LIVE_DUMP_GENERATED_DUMP) == value,
            final(self)@ & !DUMP_ATTRIBUTE_LIVE_DUMP_GENERATED_DUMP == old(self)@ & !DUMP_ATTRIBUTE_LIVE_DUMP_GENERATED_DUMP,
    {
        self.inner = with_flag(self.inner, DUMP_ATTRIBUTE_LIVE_DUMP_GENERATED_DUMP, value);
    }

    /// The dump was generated offline.
    pub fn dump_is_generated_offline(&self) -> (r: bool)
        ensures
            r == has_flag(self@, DUMP_ATTRIBUTE_DUMP_IS_GENERATED_OFFLINE),
    {
        flag_is_set(self.inner, DUMP_ATTRIBUTE_DUMP_IS_GENERATED_OFFLINE)
    }

    /// Sets or clears the `dump_is_generated_offline` flag, leaving the other bits as they were.
    pub fn set_dump_is_generated_offline(&mut self, value: bool)
        ensures
            has_flag(final(self)@, DUMP_ATTRIBUTE_DUMP_IS_GENERATED_OFFLINE) == value,
            final(self)@ & !DUMP_ATTRIBUTE_DUMP_IS_GENERATED_OFFLINE == old(self)@ & !DUMP_ATTRIBUTE_DUMP_IS_GENERATED_OFFLINE,
    {
        self.inner = with_flag(self.inner, DUMP_ATTRIBUTE_DUMP_IS_GENERATED_OFFLINE, value);
    }

    /// The dump file was filtered.
    pub fn filter_dump_file(&self) -> (r: bool)
        ensures
            r == has_flag(self@, DUMP_ATTRIBUTE_FILTER_DUMP_FILE),
    {
        flag_is_set(self.inner, DUMP_ATTRIBUTE_FILTER_DUMP_FILE)
    }

    /// Sets or clears the `filter_dump_file` flag, leaving the other bits as they were.
    pub fn set_filter_dump_file(&mut self, value: bool)
        ensures
            has_flag(final(self)@, DUMP_ATTRIBUTE_FILTER_DUMP_FILE) == value,
            final(self)@ & !DUMP_ATTRIBUTE_FILTER_DUMP_FILE == old(self)@ & !DUMP_ATTRIBUTE_FILTER_DUMP_FILE,
    {
        self.inner = with_flag(self.inner, DUMP_ATTRIBUTE_FILTER_DUMP_FILE, value);
    }

    /// The crash happened early in boot.
    pub fn early_boot_crash(&self) -> (r: bool)
        ensures
            r == has_flag(self@, DUMP_ATTRIBUTE_EARLY_BOOT_CRASH),
    {
        flag_is_set(self.inner, DUMP_ATTRIBUTE_EARLY_BOOT_CRASH)
    }

    /// Sets or clears the `early_boot_crash` flag, leaving the other bits as they were.
    pub fn set_early_boot_crash(&mut self, value: bool)
        ensures
            has_flag(final(self)@, DUMP_ATTRIBUTE_EARLY_BOOT_CRASH) == value,
            final(self)@ & !DUMP_ATTRIBUTE_EARLY_BOOT_CRASH == old(self)@ & !DUMP_ATTRIBUTE_EARLY_BOOT_CRASH,
    {
        self.inner = with_flag(self.inner, DUMP_ATTRIBUTE_EARLY_BOOT_CRASH, value);
    }

    /// The dump data (all but the secure header) is encrypted, and the secure header is in use.
    pub fn encrypted_dump_data(&self) -> (r: bool)
        ensures
            r == has_flag(self@, DUMP_ATTRIBUTE_ENCRYPTED_DUMP_DATA),
    {
        flag_is_set(self.inner, DUMP_ATTRIBUTE_ENCRYPTED_DUMP_DATA)
    }

    /// Sets or clears the `encrypted_dump_data` flag, leaving the other bits as they were.
    pub fn set_encrypted_dump_data(&mut self, value: bool)
        ensures
            has_flag(final(self)@, DUMP_ATTRIBUTE_ENCRYPTED_DUMP_DATA) == value,
            final(self)@ & !DUMP_ATTRIBUTE_ENCRYPTED_DUMP_DATA == old(self)@ & !DUMP_ATTRIBUTE_ENCRYPTED_DUMP_DATA,
    {
        self.inner = with_flag(self.inner, DUMP_ATTRIBUTE_ENCRYPTED_DUMP_DATA, value);
    }

    /// Set by dump decryption software: the dump was encrypted and this one was obtained by decrypting it.
    pub fn decrypted_dump(&self) -> (r: bool)
        ensures
            r == has_flag(self@, DUMP_ATTRIBUTE_DECRYPTED_DUMP),
    {
        flag_is_set(self.inner, DUMP_ATTRIBUTE_DECRYPTED_DUMP)
    }

    /// Sets or clears the `decrypted_dump` flag, leaving the other bits as they were.
    pub fn set_decrypted_dump(&mut self, value: bool)
        ensures
            has_flag(final(self)@, DUMP_ATTRIBUTE_DECRYPTED_DUMP) == value,
            final(self)@ & !DUMP_ATTRIBUTE_DECRYPTED_DUMP == old(self)@ & !DUMP_ATTRIBUTE_DECRYPTED_DUMP,
    {
        self.inner = with_flag(self.inner, DUMP_ATTRIBUTE_DECRYPTED_DUMP, value);
    }
}

} // verus!

//! Definitions shared by the provider's queries: paging modes, architectures, register
//! names and the guest physical memory layout.

use vstd::prelude::*;

use crate::result_code::{result_code_of, ResultCode, S_OK};

verus! {

/// An address in the guest's virtual address space.
pub type GuestVirtualAddress = u64;

/// An address in the guest's physical address space.
pub type GuestPhysicalAddress = u64;

/// The address translation scheme that a virtual processor was using when the state was
/// saved. On the wire each mode is its position in this list.
#[derive(Debug, Clone, Copy, PartialEq, Eq, Hash, Structural)]
pub enum PagingMode {
    Invalid,
    NonPaged,
    Bit32,
    Pae,
    Long,
}

/// Number of paging modes.
pub const PAGING_MODE_COUNT: u32 = 5;

impl PagingMode {
    /// The mode whose wire value is `raw`, if there is one.
    pub fn from_raw(raw: u32) -> (r: Option<PagingMode>)
        ensures
            r is Some <==> raw < PAGING_MODE_COUNT,
            r is Some ==> r->0 as u32 == raw,
    {
        match raw {
            0 => Some(PagingMode::Invalid),
            1 => Some(PagingMode::NonPaged),
            2 => Some(PagingMode::Bit32),
            3 => Some(PagingMode::Pae),
            4 => Some(PagingMode::Long),
            _ => None,
        }
    }
}

/// One run of consecutive guest physical pages that the saved state holds.
#[derive(Debug, Clone, Copy, PartialEq, Eq, Structural)]
pub struct GpaMemoryChunk {
    pub guest_physical_start_page_index: u64,
    pub page_count: u64,
}

/// The instruction set a virtual processor was running when the state was saved. On the
/// wire each architecture is its position in this list.
#[derive(Debug, Clone, Copy, PartialEq, Eq, Hash, Structural)]
pub enum VirtualProcessorArch {
    Unknown,
    X86,
    X64,
}

/// Number of architectures.
pub const ARCHITECTURE_COUNT: u32 = 3;

impl VirtualProcessorArch {
    /// The architecture whose wire value is `raw`, if there is one.
    pub fn from_raw(raw: u32) -> (r: Option<VirtualProcessorArch>)
        ensures
            r is Some <==> raw < ARCHITECTURE_COUNT,
            r is Some ==> r->0 as u32 == raw,
    {
        match raw {
            0 => Some(VirtualProcessorArch::Unknown),
            1 => Some(VirtualProcessorArch::X86),
            2 => Some(VirtualProcessorArch::X64),
            _ => None,
        }
    }

    /// The wire value of this architecture.
    pub fn raw(self) -> (r: u32)
        ensures
            r == self as u32,
            r < ARCHITECTURE_COUNT,
    {
        self as u32
    }
}

/// Registers of an x86 virtual processor; a register's id is its position in this list.
#[derive(Debug, Clone, Copy, PartialEq, Eq, Hash, Structural)]
pub enum RegisterIdx86 {
    // General purpose registers
    Eax,
    Ecx,
    Edx,
    Ebx,
    Esp,
    Ebp,
    Esi,
    Edi,
    Eip,
    EFlags,
    // Floating point registers
    LowXmm0,
    HighXmm0,
    LowXmm1,
    HighXmm1,
    LowXmm2,
    HighXmm2,
    LowXmm3,
    HighXmm3,
    LowXmm4,
    HighXmm4,
    LowXmm5,
    HighXmm5,
    LowXmm6,
    HighXmm6,
    LowXmm7,
    HighXmm7,
    LowXmm8,
    HighXmm8,
    LowXmm9,
    HighXmm9,
    LowXmm10,
    HighXmm10,
    LowXmm11,
    HighXmm11,
    LowXmm12,
    HighXmm12,
    LowXmm13,
    HighXmm13,
    LowXmm14,
    HighXmm14,
    LowXmm15,
    HighXmm15,
    LowXmmControlStatus,
    HighXmmControlStatus,
    LowFpControlStatus,
    HighFpControlStatus,
    // Control registers
    Cr0,
    Cr2,
    Cr3,
    Cr4,
    Cr8,
    Efer,
    // Debug registers
    Dr0,
    Dr1,
    Dr2,
    Dr3,
    Dr6,
    Dr7,
    // Segment registers
    BaseGs,
    BaseFs,
    SegCs,
    SegDs,
    SegEs,
    SegFs,
    SegGs,
    SegSs,
    Tr,
    Ldtr,
    // Table registers
    BaseIdtr,
    LimitIdtr,
    BaseGdtr,
    LimitGdtr,
    // Number of registers
    Count,
}

/// Registers of an x64 virtual processor; a register's id is its position in this list.
#[derive(Debug, Clone, Copy, PartialEq, Eq, Hash, Structural)]
pub enum RegisterIdx64 {
    // General purpose registers
    Rax,
    Rcx,
    Rdx,
    Rbx,
    Rsp,
    Rbp,
    Rsi,
    Rdi,
    R8,
    R9,
    R10,
    R11,
    R12,
    R13,
    R14,
    R15,
    Rip,
    RFlags,
    // Floating point registers
    LowXmm0,
    HighXmm0,
    LowXmm1,
    HighXmm1,
    LowXmm2,
    HighXmm2,
    LowXmm3,
    HighXmm3,
    LowXmm4,
    HighXmm4,
    LowXmm5,
    HighXmm5,
    LowXmm6,
    HighXmm6,
    LowXmm7,
    HighXmm7,
    LowXmm8,
    HighXmm8,
    LowXmm9,
    HighXmm9,
    LowXmm10,
    HighXmm10,
    LowXmm11,
    HighXmm11,
    LowXmm12,
    HighXmm12,
    LowXmm13,
    HighXmm13,
    LowXmm14,
    HighXmm14,
    LowXmm15,
    HighXmm15,
    LowXmmControlStatus,
    HighXmmControlStatus,
    LowFpControlStatus,
    HighFpControlStatus,
    // Control registers
    Cr0,
    Cr2,
    Cr3,
    Cr4,
    Cr8,
    Efer,
    // Debug registers
    Dr0,
    Dr1,
    Dr2,
    Dr3,
    Dr6,
    Dr7,
    // Segment registers
    BaseGs,
    BaseFs,
    SegCs,
    SegDs,
    SegEs,
    SegFs,
    SegGs,
    SegSs,
    Tr,
    Ldtr,
    // Table registers
    BaseIdtr,
    LimitIdtr,
    BaseGdtr,
    LimitGdtr,
    // Number of registers
    Count,
}

/// Names a register in a register query: by raw id, or by its x86 or x64 name.
#[derive(Debug, Clone, Copy, PartialEq, Eq, Structural)]
pub enum RegisterRawId {
    RegisterId(u32),
    X86(RegisterIdx86),
    X64(RegisterIdx64),
}

impl RegisterRawId {
    /// The numeric id that the provider receives for this register.
    pub fn register_id(&self) -> (r: u32)
        ensures
            r == match *self {
                RegisterRawId::RegisterId(id) => id,
                RegisterRawId::X86(reg) => reg as u32,
                RegisterRawId::X64(reg) => reg as u32,
            },
    {
        match *self {
            RegisterRawId::RegisterId(id) => id,
            RegisterRawId::X86(reg) => reg as u32,
            RegisterRawId::X64(reg) => reg as u32,
        }
    }
}

/// A register query and its answer: the architecture and register asked for, and the
/// register's value.
#[derive(Debug, Clone, Copy, PartialEq, Eq, Structural)]
pub struct VirtualProcessorRegister {
    pub architecture: VirtualProcessorArch,
    pub value: u64,
    pub raw_id: RegisterRawId,
}

/// The paging mode that a successful query returned as `raw`; a value outside the known
/// modes is `Unexpected`.
pub fn paging_mode_from_status(hresult: i32, raw: u32) -> (r: Result<PagingMode, ResultCode>)
    ensures
        hresult != S_OK ==> r == Err::<PagingMode, ResultCode>(result_code_of(hresult)),
        hresult == S_OK && raw < PAGING_MODE_COUNT ==> r is Ok && r->Ok_0 as u32 == raw,
        hresult == S_OK && raw >= PAGING_MODE_COUNT ==> r == Err::<PagingMode, ResultCode>(
            ResultCode::Unexpected,
        ),
{
    match crate::result_code::result_from_status(hresult, raw) {
        Ok(raw) => match PagingMode::from_raw(raw) {
            Some(mode) => Ok(mode),
            None => Err(ResultCode::Unexpected),
        },
        Err(error) => Err(error),
    }
}

/// The architecture that a successful query returned as `raw`; a value outside the known
/// architectures is `Unexpected`.
pub fn architecture_from_status(hresult: i32, raw: u32) -> (r: Result<
    VirtualProcessorArch,
    ResultCode,
>)
    ensures
        hresult != S_OK ==> r == Err::<VirtualProcessorArch, ResultCode>(result_code_of(hresult)),
        hresult == S_OK && raw < ARCHITECTURE_COUNT ==> r is Ok && r->Ok_0 as u32 == raw,
        hresult == S_OK && raw >= ARCHITECTURE_COUNT ==> r == Err::<
            VirtualProcessorArch,
            ResultCode,
        >(ResultCode::Unexpected),
{
    match crate::result_code::result_from_status(hresult, raw) {
        Ok(raw) => match VirtualProcessorArch::from_raw(raw) {
            Some(arch) => Ok(arch),
            None => Err(ResultCode::Unexpected),
        },
        Err(error) => Err(error),
    }
}

} // verus!

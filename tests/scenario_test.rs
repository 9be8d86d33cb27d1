use vmsavedstatedump_rs::memory::read_request_size;
use vmsavedstatedump_rs::result_code::{result_from_status, ResultCode, E_FAIL, S_OK};
use vmsavedstatedump_rs::vmsavedstatedumpdefs::{
    architecture_from_status, paging_mode_from_status, PagingMode, RegisterIdx86, RegisterRawId,
    VirtualProcessorArch, VirtualProcessorRegister,
};
use vmsavedstatedump_rs::vp_ids::VirtualProcessorIds;

// A saved state with 4 virtual processors, all x86 in 32-bit paging mode; processor 0 has
// 4 in Ecx and the others 0. The provider's answers are given as raw statuses and values.
#[test]
fn four_x86_processors_in_order() {
    let mut ids = VirtualProcessorIds::from_count(result_from_status(S_OK, 4u32)).unwrap();
    let mut seen = Vec::new();
    while let Some(id) = ids.next_id() {
        assert_eq!(Ok(VirtualProcessorArch::X86), architecture_from_status(S_OK, 1));
        assert_eq!(Ok(PagingMode::Bit32), paging_mode_from_status(S_OK, 2));
        let ecx = RegisterRawId::X86(RegisterIdx86::Ecx);
        assert_eq!(1, ecx.register_id());
        let value = if id == 0 { 4 } else { 0 };
        let register = result_from_status(
            S_OK,
            VirtualProcessorRegister {
                architecture: VirtualProcessorArch::X86,
                value,
                raw_id: ecx,
            },
        )
        .unwrap();
        assert_eq!(if id == 0 { 4 } else { 0 }, register.value);
        seen.push(id);
    }
    assert_eq!(vec![0, 1, 2, 3], seen);
}

#[test]
fn unmapped_translation_fails_while_physical_read_succeeds() {
    let translated: Result<u64, ResultCode> = result_from_status(E_FAIL, 0);
    assert!(translated.is_err());
    // A read of a 12-byte structure asks for 12 bytes and gets them.
    let size = read_request_size(12);
    assert_eq!(12, size);
    assert_eq!(Ok(12u32), result_from_status(S_OK, size));
}

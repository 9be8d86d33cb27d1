use vmsavedstatedump_rs::result_code::{
    hresult_to_result_code, result_from_status, ResultCode, E_FAIL, E_FILE_NOT_FOUND,
    E_INVALIDARG, E_OUTOFMEMORY, E_UNEXPECTED, S_OK,
};

#[test]
fn known_codes_translate_to_their_kinds() {
    assert_eq!(ResultCode::Success, hresult_to_result_code(0));
    assert_eq!(ResultCode::OutOfMemory, hresult_to_result_code(0x8007000Eu32 as i32));
    assert_eq!(ResultCode::FileNotFound, hresult_to_result_code(0x80070002u32 as i32));
    assert_eq!(ResultCode::Fail, hresult_to_result_code(0x80004005u32 as i32));
    assert_eq!(ResultCode::InvalidArgument, hresult_to_result_code(0x80070057u32 as i32));
    assert_eq!(ResultCode::Unexpected, hresult_to_result_code(0x8000FFFFu32 as i32));
}

#[test]
fn named_constants_match_their_hex_values() {
    assert_eq!(S_OK, 0);
    assert_eq!(E_OUTOFMEMORY, 0x8007000Eu32 as i32);
    assert_eq!(E_FILE_NOT_FOUND, 0x80070002u32 as i32);
    assert_eq!(E_FAIL, 0x80004005u32 as i32);
    assert_eq!(E_INVALIDARG, 0x80070057u32 as i32);
    assert_eq!(E_UNEXPECTED, 0x8000FFFFu32 as i32);
}

#[test]
fn unrecognized_codes_keep_their_raw_value() {
    for code in [1, -1, 42, i32::MIN, i32::MAX, 0x80030002u32 as i32, 0x80004001u32 as i32] {
        assert_eq!(ResultCode::WindowsHResult(code), hresult_to_result_code(code));
    }
}

#[test]
fn translation_is_deterministic() {
    for code in [0, E_OUTOFMEMORY, E_FILE_NOT_FOUND, E_FAIL, E_INVALIDARG, E_UNEXPECTED, 7] {
        assert_eq!(hresult_to_result_code(code), hresult_to_result_code(code));
    }
}

#[test]
fn success_status_yields_the_value() {
    assert_eq!(Ok(4u32), result_from_status(S_OK, 4u32));
}

#[test]
fn failure_status_yields_its_kind() {
    assert_eq!(Err(ResultCode::Fail), result_from_status(E_FAIL, 4u32));
    assert_eq!(Err(ResultCode::WindowsHResult(3)), result_from_status(3, ()));
}

#[test]
fn missing_file_status_is_file_not_found() {
    // What a load of a nonexistent path answers, for either form of saved state.
    assert_eq!(
        Err(ResultCode::FileNotFound),
        result_from_status(0x80070002u32 as i32, ())
    );
}

#[test]
fn failed_translation_of_unmapped_address_is_an_error() {
    // A guest without page tables cannot translate a virtual address: the provider fails
    // and the failure comes back as an ordinary error.
    let r: Result<u64, ResultCode> = result_from_status(E_FAIL, 0);
    assert_eq!(Err(ResultCode::Fail), r);
    assert_eq!(Ok(0xC0FFEu64), result_from_status(S_OK, 0xC0FFEu64));
}

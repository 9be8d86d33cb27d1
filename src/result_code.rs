//! Translation of the provider's signed 32-bit status codes into `ResultCode`.

use vstd::prelude::*;

verus! {

/// Status of a successful call.
pub const S_OK: i32 = 0;

/// `E_OUTOFMEMORY` (0x8007000E): not enough memory, or a buffer that is too small.
pub const E_OUTOFMEMORY: i32 = -2147024882;

/// `HRESULT_FROM_WIN32(ERROR_FILE_NOT_FOUND)` (0x80070002).
pub const E_FILE_NOT_FOUND: i32 = -2147024894;

/// `E_FAIL` (0x80004005): unspecified failure.
pub const E_FAIL: i32 = -2147467259;

/// `E_INVALIDARG` (0x80070057): one or more arguments are invalid.
pub const E_INVALIDARG: i32 = -2147024809;

/// `E_UNEXPECTED` (0x8000FFFF): catastrophic failure.
pub const E_UNEXPECTED: i32 = -2147418113;

/// Common result codes that can be returned by the dump provider API.
#[derive(Debug, Clone, Copy, PartialEq, Eq, Structural)]
pub enum ResultCode {
    Success,
    OutOfMemory,
    FileNotFound,
    Fail,
    InvalidArgument,
    Unexpected,
    /// Any other status, with its raw value kept for diagnosis.
    WindowsHResult(i32),
}

/// The kind that a raw status code stands for.
pub open spec fn result_code_of(hresult: i32) -> ResultCode {
    if hresult == S_OK {
        ResultCode::Success
    } else if hresult == E_OUTOFMEMORY {
        ResultCode::OutOfMemory
    } else if hresult == E_FILE_NOT_FOUND {
        ResultCode::FileNotFound
    } else if hresult == E_FAIL {
        ResultCode::Fail
    } else if hresult == E_INVALIDARG {
        ResultCode::InvalidArgument
    } else if hresult == E_UNEXPECTED {
        ResultCode::Unexpected
    } else {
        ResultCode::WindowsHResult(hresult)
    }
}

/// Whether `hresult` is one of the codes that have a kind of their own.
pub open spec fn is_recognized(hresult: i32) -> bool {
    hresult == S_OK || hresult == E_OUTOFMEMORY || hresult == E_FILE_NOT_FOUND || hresult
        == E_FAIL || hresult == E_INVALIDARG || hresult == E_UNEXPECTED
}

/// Translates a raw status code into its `ResultCode`.
pub fn hresult_to_result_code(hresult: i32) -> (r: ResultCode)
    ensures
        r == result_code_of(hresult),
{
    match hresult {
        S_OK => ResultCode::Success,
        E_OUTOFMEMORY => ResultCode::OutOfMemory,
        E_FILE_NOT_FOUND => ResultCode::FileNotFound,
        E_FAIL => ResultCode::Fail,
        E_INVALIDARG => ResultCode::InvalidArgument,
        E_UNEXPECTED => ResultCode::Unexpected,
        other => ResultCode::WindowsHResult(other),
    }
}

/// The outcome of a query that answered `hresult` and produced `value`: the value on
/// success, else the status's kind.
pub open spec fn status_result<T>(hresult: i32, value: T) -> Result<T, ResultCode> {
    if hresult == S_OK {
        Ok(value)
    } else {
        Err(result_code_of(hresult))
    }
}

/// Turns the status of a query and the value it produced into a `Result`.
pub fn result_from_status<T>(hresult: i32, value: T) -> (r: Result<T, ResultCode>)
    ensures
        r == status_result(hresult, value),
{
    match hresult_to_result_code(hresult) {
        ResultCode::Success => Ok(value),
        error => Err(error),
    }
}

/// A code without a kind of its own comes back unchanged inside `WindowsHResult`, and a
/// code with one never lands there.
pub proof fn lemma_unrecognized_code_is_kept(hresult: i32)
    ensures
        !is_recognized(hresult) ==> result_code_of(hresult) == ResultCode::WindowsHResult(
            hresult,
        ),
        is_recognized(hresult) ==> !(result_code_of(hresult) is WindowsHResult),
{
}

/// Translation loses nothing: two codes that give the same kind are the same code.
pub proof fn lemma_translation_is_injective(a: i32, b: i32)
    requires
        result_code_of(a) == result_code_of(b),
    ensures
        a == b,
{
}

/// Only `S_OK` means success, so an error that `result_from_status` returns is never
/// `Success`.
pub proof fn lemma_only_s_ok_is_success(hresult: i32)
    ensures
        result_code_of(hresult) == ResultCode::Success <==> hresult == S_OK,
{
}

} // verus!

//! Saved-state files: how they are stored, how their paths are handed to the provider, and
//! how the provider's answer to a lookup becomes a `VmSavedStateFile`.

use vstd::prelude::*;

use crate::result_code::{result_code_of, result_from_status, ResultCode, S_OK};

verus! {

/// The ways a VM saved state can be stored.
#[derive(Debug, PartialEq, Eq)]
pub enum VmSavedStateFile {
    /// A BIN file and a VSV file, in that order.
    BinVsv(String, String),
    /// A single VMRS file.
    Vmrs(String),
}

/// The UTF-16 code units of a string.
pub uninterp spec fn utf16_units_of(s: Seq<char>) -> Seq<u16>;

/// The string that lossy UTF-16 decoding makes of some code units.
pub uninterp spec fn utf16_lossy_of(units: Seq<u16>) -> Seq<char>;

/// Relies on widestring's `U16CString::from_str`, which encodes the string as UTF-16 and
/// refuses it when a code unit is nul, and on `into_vec_with_nul`, which gives those units
/// followed by one nul. In UTF-16 only the character U+0000 gives a nul unit, so the
/// string is refused exactly when it holds that character.
#[verifier::external_body]
fn utf16_with_nul(s: &str) -> (r: Option<Vec<u16>>)
    ensures
        r is Some <==> !utf16_units_of(s@).contains(0u16),
        r is Some <==> !s@.contains('\0'),
        r is Some ==> r->0@ == utf16_units_of(s@).push(0u16),
{
    match widestring::U16CString::from_str(s) {
        Ok(wide) => Some(wide.into_vec_with_nul()),
        Err(_) => None,
    }
}

/// Relies on widestring's `U16Str::to_string_lossy` (std's `String::from_utf16_lossy`),
/// which decodes the units as UTF-16 and puts a replacement character where they are not
/// valid, dropping none: no units give an empty string, and some units a non-empty one.
#[verifier::external_body]
fn utf16_to_string_lossy(units: &[u16]) -> (r: String)
    ensures
        r@ == utf16_lossy_of(units@),
        units@.len() == 0 ==> r@.len() == 0,
        units@.len() > 0 ==> r@.len() > 0,
{
    widestring::U16Str::from_slice(units).to_string_lossy()
}

/// A string (a path, a VM or snapshot name) as the provider takes it: nul-terminated
/// UTF-16. A string with a nul inside cannot be handed over and is an invalid argument.
pub fn encode_wide_string(s: &str) -> (r: Result<Vec<u16>, ResultCode>)
    ensures
        r is Ok <==> !s@.contains('\0'),
        r is Ok <==> !utf16_units_of(s@).contains(0u16),
        r is Ok ==> r->Ok_0@ == utf16_units_of(s@).push(0u16),
        r is Err ==> r->Err_0 == ResultCode::InvalidArgument,
{
    match utf16_with_nul(s) {
        Some(units) => Ok(units),
        None => Err(ResultCode::InvalidArgument),
    }
}

/// What a lookup that answered `hresult` with the given BIN, VSV and VMRS paths (each empty
/// when absent) yields.
pub open spec fn located(
    hresult: i32,
    bin: Seq<char>,
    vsv: Seq<char>,
    vmrs: Seq<char>,
    r: Result<VmSavedStateFile, ResultCode>,
) -> bool {
    if hresult != S_OK {
        r == Err::<VmSavedStateFile, ResultCode>(result_code_of(hresult))
    } else if vmrs.len() > 0 {
        r matches Ok(VmSavedStateFile::Vmrs(p)) && p@ == vmrs
    } else if bin.len() == 0 || vsv.len() == 0 {
        r == Err::<VmSavedStateFile, ResultCode>(ResultCode::FileNotFound)
    } else {
        r matches Ok(VmSavedStateFile::BinVsv(b, v)) && b@ == bin && v@ == vsv
    }
}

/// Decides the outcome of a lookup from its status and the three paths it returned: a VMRS
/// path wins, else both BIN and VSV paths are needed, else nothing was found.
pub fn saved_state_file_from_paths(hresult: i32, bin: String, vsv: String, vmrs: String) -> (r:
    Result<VmSavedStateFile, ResultCode>)
    ensures
        located(hresult, bin@, vsv@, vmrs@, r),
{
    match result_from_status(hresult, ()) {
        Ok(()) => {
            if !vmrs.as_str().is_empty() {
                Ok(VmSavedStateFile::Vmrs(vmrs))
            } else if bin.as_str().is_empty() || vsv.as_str().is_empty() {
                Err(ResultCode::FileNotFound)
            } else {
                Ok(VmSavedStateFile::BinVsv(bin, vsv))
            }
        },
        Err(error) => Err(error),
    }
}

/// The outcome of a lookup whose paths came back as UTF-16 code units without their nul.
pub fn saved_state_file_from_wide_paths(
    hresult: i32,
    bin: &[u16],
    vsv: &[u16],
    vmrs: &[u16],
) -> (r: Result<VmSavedStateFile, ResultCode>)
    ensures
        located(
            hresult,
            utf16_lossy_of(bin@),
            utf16_lossy_of(vsv@),
            utf16_lossy_of(vmrs@),
            r,
        ),
        hresult == S_OK && vmrs@.len() > 0 ==> r matches Ok(VmSavedStateFile::Vmrs(_)),
        hresult == S_OK && vmrs@.len() == 0 && (bin@.len() == 0 || vsv@.len() == 0) ==> r
            == Err::<VmSavedStateFile, ResultCode>(ResultCode::FileNotFound),
        hresult == S_OK && vmrs@.len() == 0 && bin@.len() > 0 && vsv@.len() > 0 ==> r matches Ok(
            VmSavedStateFile::BinVsv(_, _),
        ),
{
    let bin = utf16_to_string_lossy(bin);
    let vsv = utf16_to_string_lossy(vsv);
    let vmrs = utf16_to_string_lossy(vmrs);
    saved_state_file_from_paths(hresult, bin, vsv, vmrs)
}

} // verus!

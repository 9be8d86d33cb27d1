//! Safe, verified building blocks around a VM saved-state dump provider: result-code
//! translation, saved-state file discovery, virtual processor enumeration and the
//! guest memory queries' protocols.

pub mod result_code;
pub mod vmsavedstatedumpdefs;
pub mod saved_state;
pub mod vp_ids;
pub mod memory;
pub mod mindumpdef;

//! A safe access layer over firmware services: status conversion, optional
//! argument marshaling, the phase-gated system handle, the helper lifecycle
//! and the packet network protocol binding.
use vstd::prelude::*;

pub mod marshal;
pub mod phase;
pub mod snp;
pub mod status;

verus! {

} // verus!

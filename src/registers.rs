//! Access to the CPU's physical counter register.
//!
//! The register exists only on AArch64: built for another architecture, the
//! underlying read ends in `unimplemented!()`.

use vstd::prelude::*;
use aarch64_cpu::registers::CNTPCT_EL0;
use tock_registers::interfaces::Readable;

verus! {

/// Relies on `Readable::get` of `aarch64_cpu::registers::CNTPCT_EL0`: an
/// `mrs` of the 64-bit physical count, with no barrier before it. The value
/// is whatever the hardware counter holds, so nothing is stated of it.
#[verifier::external_body]
pub(crate) fn physical_count() -> u64 {
    CNTPCT_EL0.get()
}

} // verus!

//! What the library asks of the machine it runs on.

use vstd::prelude::*;

verus! {

/// `num_cpus::get`: the number of logical cores that the process may use. It
/// differs from machine to machine and with the process's affinity and
/// control group, so nothing is claimed of the number.
#[verifier::external_body]
pub(crate) fn host_cpus() -> (cpus: usize) {
    num_cpus::get()
}

} // verus!

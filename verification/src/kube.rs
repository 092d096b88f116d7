//! The orchestration-environment probe.

use vstd::prelude::*;

verus! {

/// Relies on std's `Path::exists`: whether the well-known mounted
/// credential path is present.  It reports the machine's state at the
/// moment of the call, so nothing is promised of the outcome; the hostname
/// rule is verified for both answers.
#[verifier::external_body]
pub fn is_under_kubernetes() -> bool {
    std::path::Path::new("/var/run/secrets/kubernetes.io/serviceaccount").exists()
}

} // verus!

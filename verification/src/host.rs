//! Trusted bindings to the host environment.
//!
//! Both results depend on the process environment, so neither contract
//! promises anything of the values; callers state what holds of every
//! outcome.

use vstd::prelude::*;

verus! {

/// Relies on dirs::config_dir: the host's standard per-user
/// configuration directory, when the host defines one.
#[verifier::external_body]
pub(crate) fn config_dir() -> (r: Option<String>) {
    dirs::config_dir().map(|p| p.to_string_lossy().into_owned())
}

/// Relies on dirs::home_dir: the host's home directory, when the host
/// defines one.
#[verifier::external_body]
pub(crate) fn home_dir() -> (r: Option<String>) {
    dirs::home_dir().map(|p| p.to_string_lossy().into_owned())
}

} // verus!

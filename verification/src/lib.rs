//! Hierarchical configuration resolution for a dotfile manager.
//!
//! The crate computes the root configuration file's standard location,
//! resolves the dotfiles root directory and the import paths anchored
//! to it, and merges imported configuration fragments into the root
//! settings with a fixed per-field policy: list fields append in
//! order, map fields prefer the most recently merged fragment. Reading
//! and parsing the files is the caller's work; the caller hands each
//! read's outcome in as a plain value, and the crate decides what it
//! means for the load.

pub mod host;
pub mod paths;
pub mod resolver;
pub mod settings;
pub mod strmap;

use vstd::prelude::*;

verus! {

/// File name of the root configuration file inside the standard
/// user configuration directory.
pub fn bombadil_config_file() -> (r: &'static str)
    ensures
        r@ == spec_bombadil_config_file(),
{
    "bombadil.toml"
}

/// The root configuration file name, as a sequence of characters.
pub open spec fn spec_bombadil_config_file() -> Seq<char> {
    "bombadil.toml"@
}

} // verus!

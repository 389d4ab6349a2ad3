//! Command descriptors, output classification and progress accounting for a
//! wrapper around the nix, git and agenix command-line tools.

use vstd::prelude::*;

pub mod command;
pub mod commands;
pub mod config;
pub mod error;
pub mod number;
pub mod output;
pub mod progress;
pub mod provision;
pub mod text;

verus! {

/// The flake reference of the attribute `arg`, reading submodules where asked.
pub fn wrap(arg: &str, with_submodules: bool) -> (r: String)
    ensures
        with_submodules ==> r@ == ".?submodules=1#"@ + arg@,
        !with_submodules ==> r@ == ".#"@ + arg@,
{
    let prefix = if with_submodules {
        String::from_str(".?submodules=1#")
    } else {
        String::from_str(".#")
    };
    prefix.concat(arg)
}

} // verus!

//! Command descriptions for the command-line front end.

use vstd::prelude::*;

verus! {

/// The environment-check command: it takes no arguments.
#[derive(Debug)]
pub struct CheckEnvCommand {}

impl CheckEnvCommand {
    /// A fresh environment-check command.
    pub fn new() -> (r: CheckEnvCommand) {
        CheckEnvCommand {  }
    }
}

} // verus!

//! Commands that the user interface hands to the worker.

use std::collections::HashMap;
use std::path::PathBuf;
use vstd::prelude::*;

verus! {

/// `std::path::PathBuf`, carried through unopened: the library never looks
/// inside a path, it only hands it on to the host.
#[verifier::external_type_specification]
#[verifier::external_body]
pub struct ExPathBuf(PathBuf);

/// `Clone::clone` of `std::path::PathBuf`: the copy is the same path.
pub assume_specification[ <PathBuf as Clone>::clone ](path: &PathBuf) -> (copy: PathBuf)
    ensures
        copy == *path,
;

/// How many commands can wait for the worker. A command offered to a full
/// queue is refused.
pub const COMMAND_QUEUE_CAPACITY: usize = 100;

/// Commands sent from the user interface to the worker.
#[derive(Debug, Clone)]
pub enum DoraCommand {
    /// Start the dataflow described by the file at `dataflow_path`, with the
    /// given environment variables set for it.
    StartDataflow { dataflow_path: PathBuf, env_vars: HashMap<String, String> },
    /// Stop the dataflow.
    StopDataflow,
    /// Send a prompt into the running dataflow.
    SendPrompt { message: String },
}

impl DoraCommand {
    /// The command that starts the dataflow at `dataflow_path` without any
    /// environment variables of its own.
    pub fn start(dataflow_path: PathBuf) -> (cmd: DoraCommand)
        ensures
            cmd matches DoraCommand::StartDataflow { dataflow_path: p, env_vars: e }
                && p == dataflow_path && e@ == Map::<String, String>::empty(),
    {
        DoraCommand::StartDataflow { dataflow_path, env_vars: HashMap::new() }
    }

    /// The command that sends `message` as a prompt.
    pub fn prompt(message: String) -> (cmd: DoraCommand)
        ensures
            cmd == (DoraCommand::SendPrompt { message }),
    {
        DoraCommand::SendPrompt { message }
    }
}

} // verus!

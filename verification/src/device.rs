//! The system commands that change the state of the device. They are stated
//! here and run by the caller.

use vstd::prelude::*;

verus! {

/// A command line: the program and its arguments.
#[derive(Clone, Debug, PartialEq, Eq)]
pub struct Command {
    pub program: String,
    pub args: Vec<String>,
}

impl Command {
    /// The words of the command line: the program, then the arguments.
    pub open spec fn words(self) -> Seq<Seq<char>> {
        seq![self.program@] + self.args@.map_values(|arg: String| arg@)
    }
}

/// The command that reboots the device immediately.
pub fn reboot() -> (command: Command)
    ensures
        command.words() == seq!["sudo"@, "shutdown"@, "-r"@, "now"@],
{
    let mut args: Vec<String> = Vec::new();
    args.push("shutdown".to_string());
    args.push("-r".to_string());
    args.push("now".to_string());
    let command = Command { program: "sudo".to_string(), args };
    assert(command.words() =~= seq!["sudo"@, "shutdown"@, "-r"@, "now"@]);
    command
}

/// The command that shuts the device down immediately.
pub fn shutdown() -> (command: Command)
    ensures
        command.words() == seq!["sudo"@, "shutdown"@, "now"@],
{
    let mut args: Vec<String> = Vec::new();
    args.push("shutdown".to_string());
    args.push("now".to_string());
    let command = Command { program: "sudo".to_string(), args };
    assert(command.words() =~= seq!["sudo"@, "shutdown"@, "now"@]);
    command
}

} // verus!

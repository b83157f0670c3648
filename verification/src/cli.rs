use vstd::prelude::*;
use vstd::string::*;

use crate::error::Error;
use crate::paths::{make_filepath, public_path_of};
use crate::plan::{command_step_seq, plan_command, Command, Plan};

verus! {

/// The file-name-or-path argument a subcommand carries.
pub open spec fn command_file(c: Command) -> Seq<char> {
    match c {
        Command::Add { file, editor: _, no_password: _ } => file@,
        Command::Remove { file } => file@,
        Command::Show { file } => file@,
        Command::SetPassword { file } => file@,
    }
}

/// The parsed command-line interface: the one subcommand to run.
pub struct Interface {
    /// The subcommand to run.
    pub command: Command,
}

impl Interface {
    /// Lay out this invocation: resolve the subcommand's file argument
    /// to a private key path and pair it with the subcommand's step
    /// sequence.
    ///
    /// `parent_is_dir` reports whether the argument has a parent
    /// component that exists as a directory on disk, and `home` is the
    /// home-directory setting; the caller, who can look at the disk
    /// and the environment, supplies both.
    pub fn plan(&self, parent_is_dir: bool, home: Option<String>) -> (r: Result<Plan, Error>)
        ensures
            r matches Ok(p) ==> {
                &&& p.public_path@ == public_path_of(p.private_path@)
                &&& p.steps@ == command_step_seq(self.command)
            },
            parent_is_dir ==> (r matches Ok(p) && p.private_path@ == command_file(self.command)),
            !parent_is_dir ==> match home {
                Some(h) => r matches Ok(p) && p.private_path@ == h@ + "/.ssh"@ + "/"@
                    + command_file(self.command),
                None => r == Err::<Plan, Error>(Error::ConfigurationError),
            },
    {
        let file: &String = match &self.command {
            Command::Add { file, editor: _, no_password: _ } => file,
            Command::Remove { file } => file,
            Command::Show { file } => file,
            Command::SetPassword { file } => file,
        };
        match make_filepath(file.as_str(), parent_is_dir, home) {
            Ok(resolved) => Ok(plan_command(&self.command, resolved.as_str())),
            Err(e) => Err(e),
        }
    }
}

} // verus!

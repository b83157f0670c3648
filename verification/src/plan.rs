use vstd::prelude::*;
use vstd::string::*;

use crate::paths::{public_key_path, public_path_of};

verus! {

/// One of the four subcommands of the tool.
#[derive(Debug, Clone, PartialEq, Eq)]
pub enum Command {
    /// Create a key pair at the resolved path, edit it, restrict its
    /// permissions, register it with the agent, and, unless
    /// `no_password` is set, run the passphrase-change flow.
    Add { file: String, editor: Option<String>, no_password: bool },
    /// Deregister a key from the agent and delete its pair of files.
    Remove { file: String },
    /// Print the public key derived from a private key file.
    Show { file: String },
    /// Change the passphrase of a key interactively.
    SetPassword { file: String },
}

/// A file a step acts on, named symbolically: the two scratch files an
/// edit session works in, and the two final key files.
#[derive(Debug, Clone, Copy, PartialEq, Eq, Structural)]
pub enum Target {
    /// The scratch file the private key is pasted into.
    PrivateScratch,
    /// The scratch file the public key is pasted into.
    PublicScratch,
    /// The private key file at its final path.
    Private,
    /// The public key file at its final path.
    Public,
}

/// One step of a subcommand's fixed sequence. The runner carries each
/// step out against the real filesystem and the real processes, in
/// plan order, and stops at the first step that fails.
#[derive(Debug, Clone, Copy, PartialEq, Eq, Structural)]
pub enum Step {
    /// Create `target` holding a placeholder comment line.
    CreateWithComment(Target),
    /// Open `target` in the chosen editor and wait for it to exit.
    LaunchEditor(Target),
    /// Move the scratch file `from` into the final file `to`, refusing
    /// to overwrite an existing file.
    PersistNoClobber(Target, Target),
    /// Restrict `target` to owner-only read and write.
    SetOwnerOnly(Target),
    /// Make sure the key agent runs, starting it if need be.
    EnsureAgent,
    /// Register the private key with the agent.
    RegisterKey,
    /// Deregister the private key from the agent.
    DeregisterKey,
    /// Delete `target` from disk.
    DeleteFile(Target),
    /// Derive the public key from the private key file.
    DerivePublicKey,
    /// Write the derived bytes to standard output, unmodified.
    PrintDerived,
    /// Run the interactive passphrase-change flow for the key.
    SetKeyPassword,
}

/// The steps of `add`: provision and edit both scratch files, move
/// them into place without overwriting, restrict both files, then
/// register the key, with the passphrase flow at the end unless it
/// was skipped.
pub open spec fn add_step_seq(no_password: bool) -> Seq<Step> {
    if no_password {
        seq![
            Step::CreateWithComment(Target::PrivateScratch),
            Step::LaunchEditor(Target::PrivateScratch),
            Step::CreateWithComment(Target::PublicScratch),
            Step::LaunchEditor(Target::PublicScratch),
            Step::PersistNoClobber(Target::PrivateScratch, Target::Private),
            Step::PersistNoClobber(Target::PublicScratch, Target::Public),
            Step::SetOwnerOnly(Target::Private),
            Step::SetOwnerOnly(Target::Public),
            Step::EnsureAgent,
            Step::RegisterKey,
        ]
    } else {
        seq![
            Step::CreateWithComment(Target::PrivateScratch),
            Step::LaunchEditor(Target::PrivateScratch),
            Step::CreateWithComment(Target::PublicScratch),
            Step::LaunchEditor(Target::PublicScratch),
            Step::PersistNoClobber(Target::PrivateScratch, Target::Private),
            Step::PersistNoClobber(Target::PublicScratch, Target::Public),
            Step::SetOwnerOnly(Target::Private),
            Step::SetOwnerOnly(Target::Public),
            Step::EnsureAgent,
            Step::RegisterKey,
            Step::SetKeyPassword,
        ]
    }
}

/// The steps of `remove`: deregister, then delete both files.
pub open spec fn remove_step_seq() -> Seq<Step> {
    seq![
        Step::EnsureAgent,
        Step::DeregisterKey,
        Step::DeleteFile(Target::Private),
        Step::DeleteFile(Target::Public),
    ]
}

/// The steps of `show`: derive the public key and print its bytes.
pub open spec fn show_step_seq() -> Seq<Step> {
    seq![Step::EnsureAgent, Step::DerivePublicKey, Step::PrintDerived]
}

/// The steps of `set-password`: the interactive passphrase flow.
pub open spec fn set_password_step_seq() -> Seq<Step> {
    seq![Step::EnsureAgent, Step::SetKeyPassword]
}

/// The fixed step sequence of a subcommand.
pub open spec fn command_step_seq(c: Command) -> Seq<Step> {
    match c {
        Command::Add { file: _, editor: _, no_password } => add_step_seq(no_password),
        Command::Remove { file: _ } => remove_step_seq(),
        Command::Show { file: _ } => show_step_seq(),
        Command::SetPassword { file: _ } => set_password_step_seq(),
    }
}

impl Command {
    /// The fixed sequence of steps this subcommand performs.
    pub fn steps(&self) -> (v: Vec<Step>)
        ensures
            v@ == command_step_seq(*self),
    {
        match self {
            Command::Add { file: _, editor: _, no_password } => {
                let mut v: Vec<Step> = Vec::new();
                v.push(Step::CreateWithComment(Target::PrivateScratch));
                v.push(Step::LaunchEditor(Target::PrivateScratch));
                v.push(Step::CreateWithComment(Target::PublicScratch));
                v.push(Step::LaunchEditor(Target::PublicScratch));
                v.push(Step::PersistNoClobber(Target::PrivateScratch, Target::Private));
                v.push(Step::PersistNoClobber(Target::PublicScratch, Target::Public));
                v.push(Step::SetOwnerOnly(Target::Private));
                v.push(Step::SetOwnerOnly(Target::Public));
                v.push(Step::EnsureAgent);
                v.push(Step::RegisterKey);
                if !*no_password {
                    v.push(Step::SetKeyPassword);
                }
                proof {
                    assert(v@ =~= command_step_seq(*self));
                }
                v
            },
            Command::Remove { file: _ } => {
                let mut v: Vec<Step> = Vec::new();
                v.push(Step::EnsureAgent);
                v.push(Step::DeregisterKey);
                v.push(Step::DeleteFile(Target::Private));
                v.push(Step::DeleteFile(Target::Public));
                proof {
                    assert(v@ =~= command_step_seq(*self));
                }
                v
            },
            Command::Show { file: _ } => {
                let mut v: Vec<Step> = Vec::new();
                v.push(Step::EnsureAgent);
                v.push(Step::DerivePublicKey);
                v.push(Step::PrintDerived);
                proof {
                    assert(v@ =~= command_step_seq(*self));
                }
                v
            },
            Command::SetPassword { file: _ } => {
                let mut v: Vec<Step> = Vec::new();
                v.push(Step::EnsureAgent);
                v.push(Step::SetKeyPassword);
                proof {
                    assert(v@ =~= command_step_seq(*self));
                }
                v
            },
        }
    }
}

/// The full layout of one invocation: the resolved private key path,
/// the public key path that belongs to it, and the steps to run.
pub struct Plan {
    /// The resolved path of the private key file.
    pub private_path: String,
    /// The path of the public key file, next to the private one.
    pub public_path: String,
    /// The steps to run, in order.
    pub steps: Vec<Step>,
}

/// Lay out the run of `cmd` against the resolved private key path.
pub fn plan_command(cmd: &Command, resolved: &str) -> (p: Plan)
    ensures
        p.private_path@ == resolved@,
        p.public_path@ == public_path_of(resolved@),
        p.steps@ == command_step_seq(*cmd),
{
    Plan {
        private_path: resolved.to_owned(),
        public_path: public_key_path(resolved),
        steps: cmd.steps(),
    }
}

/// The run state of one subcommand: which step comes next, and whether
/// a step has failed. This is the `Start → steps → Done / Aborted`
/// machine every subcommand shares: a failed step aborts the run, and
/// no later step is handed out.
pub struct Session {
    steps: Vec<Step>,
    next: usize,
    failed: bool,
}

impl Session {
    /// The planned steps.
    pub closed spec fn spec_steps(&self) -> Seq<Step> {
        self.steps@
    }

    /// How many steps have been handed out.
    pub closed spec fn spec_next(&self) -> int {
        self.next as int
    }

    /// Whether a step has failed.
    pub closed spec fn spec_failed(&self) -> bool {
        self.failed
    }

    /// Internal consistency: never past the end of the plan.
    pub closed spec fn wf(&self) -> bool {
        self.next <= self.steps.len()
    }

    /// A session that will run `steps` in order.
    pub fn new(steps: Vec<Step>) -> (s: Session)
        ensures
            s.wf(),
            s.spec_steps() == steps@,
            s.spec_next() == 0,
            !s.spec_failed(),
    {
        Session { steps, next: 0, failed: false }
    }

    /// The next step to carry out: `None` when the run has aborted or
    /// every step is done; otherwise the first step not yet handed
    /// out, in plan order.
    pub fn next_step(&mut self) -> (r: Option<Step>)
        requires
            old(self).wf(),
        ensures
            final(self).wf(),
            final(self).spec_steps() == old(self).spec_steps(),
            final(self).spec_failed() == old(self).spec_failed(),
            (old(self).spec_failed() || old(self).spec_next() == old(self).spec_steps().len())
                ==> (r is None && *final(self) == *old(self)),
            (!old(self).spec_failed() && old(self).spec_next() < old(self).spec_steps().len())
                ==> {
                &&& r == Some(old(self).spec_steps()[old(self).spec_next()])
                &&& final(self).spec_next() == old(self).spec_next() + 1
            },
    {
        if self.failed || self.next == self.steps.len() {
            None
        } else {
            let s = self.steps[self.next];
            self.next = self.next + 1;
            Some(s)
        }
    }

    /// Record the outcome of the step last handed out: a failure
    /// aborts the rest of the run.
    pub fn record(&mut self, ok: bool)
        requires
            old(self).wf(),
        ensures
            final(self).wf(),
            final(self).spec_steps() == old(self).spec_steps(),
            final(self).spec_next() == old(self).spec_next(),
            final(self).spec_failed() == (old(self).spec_failed() || !ok),
    {
        if !ok {
            self.failed = true;
        }
    }

    /// Whether the run has aborted.
    pub fn aborted(&self) -> (r: bool)
        ensures
            r == self.spec_failed(),
    {
        self.failed
    }

    /// Whether every step ran and none failed.
    pub fn completed(&self) -> (r: bool)
        ensures
            r == (!self.spec_failed() && self.spec_next() == self.spec_steps().len()),
    {
        !self.failed && self.next == self.steps.len()
    }
}

} // verus!

use vstd::prelude::*;

use crate::cmd::clone_strings;
use crate::text::{indent_newlines, indented, trim, trim_spec};

verus! {

/// Everything needed to reproduce an external command that exited
/// non-zero or could not be spawned.
#[derive(Debug)]
pub struct CommandFailed {
    /// The working directory the command ran in.
    pub dir: String,
    /// The program that was run.
    pub command: String,
    /// The arguments the program was given, in order.
    pub args: Vec<String>,
    /// Captured standard error of the command, when there was any.
    pub stderr: Option<String>,
}

/// Mathematical image of a [`CommandFailed`].
pub struct CommandFailedV {
    pub dir: Seq<char>,
    pub command: Seq<char>,
    pub args: Seq<Seq<char>>,
    pub stderr: Option<Seq<char>>,
}

impl View for CommandFailed {
    type V = CommandFailedV;

    open spec fn view(&self) -> CommandFailedV {
        CommandFailedV {
            dir: self.dir@,
            command: self.command@,
            args: self.args.deep_view(),
            stderr: self.stderr.deep_view(),
        }
    }
}

impl DeepView for CommandFailed {
    type V = CommandFailedV;

    open spec fn deep_view(&self) -> CommandFailedV {
        self@
    }
}

impl Clone for CommandFailed {
    /// The copy describes the same failed invocation.
    fn clone(&self) -> (r: Self)
        ensures
            r@ == self@,
    {
        CommandFailed {
            dir: self.dir.clone(),
            command: self.command.clone(),
            args: clone_strings(&self.args),
            stderr: match &self.stderr {
                Some(s) => Some(s.clone()),
                None => None,
            },
        }
    }
}

/// The error type of this crate.
#[derive(Debug)]
pub enum Error {
    /// An external command exited non-zero or could not be spawned.
    CommandFailed(CommandFailed),
    /// A local file-system operation failed; holds its description.
    Io(String),
}

/// Mathematical image of an [`Error`].
pub enum ErrorV {
    CommandFailed(CommandFailedV),
    Io(Seq<char>),
}

impl View for Error {
    type V = ErrorV;

    open spec fn view(&self) -> ErrorV {
        match self {
            Error::CommandFailed(f) => ErrorV::CommandFailed(f@),
            Error::Io(s) => ErrorV::Io(s@),
        }
    }
}

impl DeepView for Error {
    type V = ErrorV;

    open spec fn deep_view(&self) -> ErrorV {
        self@
    }
}

impl Clone for Error {
    /// The copy describes the same error.
    fn clone(&self) -> (r: Self)
        ensures
            r@ == self@,
    {
        match self {
            Error::CommandFailed(f) => Error::CommandFailed(f.clone()),
            Error::Io(s) => Error::Io(s.clone()),
        }
    }
}

/// The arguments of a failed command, each preceded by a space.
pub open spec fn joined_args(args: Seq<Seq<char>>) -> Seq<char>
    decreases args.len(),
{
    if args.len() == 0 {
        Seq::empty()
    } else {
        joined_args(args.drop_last()) + " "@ + args.last()
    }
}

/// The note a captured standard error adds to a failure's message: a
/// colon, then the trimmed text indented by four spaces.
pub open spec fn stderr_note(stderr: Option<Seq<char>>) -> Seq<char> {
    match stderr {
        Some(e) => ":\n    "@ + indented(trim_spec(e)),
        None => Seq::empty(),
    }
}

/// The one-line (plus indented standard error) form a failed command
/// prints as.
pub open spec fn command_failed_message(f: CommandFailedV) -> Seq<char> {
    "command failed: "@ + f.dir + ": "@ + f.command + joined_args(f.args) + stderr_note(f.stderr)
}

/// The printed description of an error.
pub open spec fn error_message(e: ErrorV) -> Seq<char> {
    match e {
        ErrorV::CommandFailed(f) => command_failed_message(f),
        ErrorV::Io(s) => s,
    }
}

impl CommandFailed {
    /// The human-readable description of this failure: the working
    /// directory, the command with its arguments, and the indented
    /// standard error when one was captured.
    pub fn message(&self) -> (r: String)
        ensures
            r@ == command_failed_message(self@),
    {
        let mut r = String::from_str("command failed: ");
        r.append(self.dir.as_str());
        r.append(": ");
        r.append(self.command.as_str());
        let ghost head = "command failed: "@ + self@.dir + ": "@ + self@.command;
        proof {
            assert(r@ =~= head + joined_args(self@.args.subrange(0, 0)));
        }
        let mut i: usize = 0;
        while i < self.args.len()
            invariant
                0 <= i <= self.args@.len(),
                head == "command failed: "@ + self@.dir + ": "@ + self@.command,
                r@ == head + joined_args(self@.args.subrange(0, i as int)),
            decreases self.args@.len() - i,
        {
            r.append(" ");
            r.append(self.args[i].as_str());
            proof {
                let av = self@.args;
                assert(av.subrange(0, i + 1 as int).drop_last() =~= av.subrange(0, i as int));
                assert(av.subrange(0, i + 1 as int).last() == av[i as int]);
                assert(av[i as int] == self.args@[i as int]@);
                assert(r@ =~= head + joined_args(av.subrange(0, i + 1 as int)));
            }
            i = i + 1;
        }
        proof {
            assert(self@.args.subrange(0, self@.args.len() as int) =~= self@.args);
        }
        match &self.stderr {
            Some(e) => {
                r.append(":\n    ");
                let t = trim(e.as_str());
                let ind = indent_newlines(t.as_str());
                r.append(ind.as_str());
                proof {
                    assert(r@ =~= command_failed_message(self@));
                }
            },
            None => {
                proof {
                    assert(r@ =~= command_failed_message(self@));
                }
            },
        }
        r
    }
}

impl Error {
    /// The human-readable description of this error.
    pub fn message(&self) -> (r: String)
        ensures
            r@ == error_message(self@),
    {
        match self {
            Error::CommandFailed(f) => f.message(),
            Error::Io(s) => s.clone(),
        }
    }
}

} // verus!

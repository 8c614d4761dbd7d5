//! Commands handed to the operating system, and what came of them.
//!
//! The library decides which command to run and what its outcome means.
//! Running it is the caller's part.

use crate::error::{failure, outcome_view, ErrorKind, ServiceError};
use vstd::prelude::*;

verus! {

/// A program and its arguments.
#[derive(Debug, PartialEq, Eq)]
pub struct CommandSpec {
    pub program: String,
    pub args: Vec<String>,
}

/// Mathematical form of [`CommandSpec`].
pub struct CommandView {
    pub program: Seq<char>,
    pub args: Seq<Seq<char>>,
}

impl View for CommandSpec {
    type V = CommandView;

    open spec fn view(&self) -> CommandView {
        CommandView { program: self.program@, args: self.args.deep_view() }
    }
}

impl DeepView for CommandSpec {
    type V = CommandView;

    open spec fn deep_view(&self) -> CommandView {
        self@
    }
}

/// The command that runs `program` with `args`.
pub open spec fn command_of(program: Seq<char>, args: Seq<Seq<char>>) -> CommandView {
    CommandView { program, args }
}

/// The command that runs `program` with `args`.
pub fn command(program: &str, args: Vec<&str>) -> (r: CommandSpec)
    ensures
        r@ == command_of(program@, args.deep_view()),
{
    let mut owned: Vec<String> = Vec::new();
    let mut i: usize = 0;
    while i < args.len()
        invariant
            i <= args.len(),
            owned@.len() == i,
            forall|j: int| 0 <= j < i ==> owned@[j]@ == args@[j]@,
        decreases args.len() - i,
    {
        owned.push(args[i].to_owned());
        i = i + 1;
    }
    proof {
        assert(owned.deep_view() =~= args.deep_view());
    }
    CommandSpec { program: program.to_owned(), args: owned }
}

/// What a finished command left behind. The two streams are given as
/// text.
#[derive(Debug, PartialEq, Eq)]
pub struct CommandOutput {
    pub success: bool,
    pub stdout: String,
    pub stderr: String,
}

/// Mathematical form of a command's outcome: the reason why it could not
/// be started, or what it left behind.
pub enum OutcomeView {
    NotStarted(Seq<char>),
    Finished { success: bool, stdout: Seq<char>, stderr: Seq<char> },
}

/// The outcome of a command as the caller reports it.
pub open spec fn outcome_of(outcome: Result<CommandOutput, String>) -> OutcomeView {
    match outcome {
        Ok(o) => OutcomeView::Finished { success: o.success, stdout: o.stdout@, stderr: o.stderr@ },
        Err(reason) => OutcomeView::NotStarted(reason@),
    }
}

/// What a decisive command's outcome means: the given message where it
/// succeeded; otherwise a failure that carries the reason why it could
/// not be started, or its error stream as it is.
pub open spec fn concluded(outcome: OutcomeView, success_message: Seq<char>) -> Result<
    Seq<char>,
    crate::error::ServiceErrorView,
> {
    match outcome {
        OutcomeView::NotStarted(reason) => Err(failure(ErrorKind::PermissionOrTransport, reason)),
        OutcomeView::Finished { success, stdout, stderr } => if success {
            Ok(success_message)
        } else {
            Err(failure(ErrorKind::PermissionOrTransport, stderr))
        },
    }
}

/// Turns the outcome of a decisive command into the operation's result.
pub fn conclude(outcome: Result<CommandOutput, String>, success_message: &str) -> (r: Result<
    String,
    ServiceError,
>)
    ensures
        outcome_view(r) == concluded(outcome_of(outcome), success_message@),
{
    match outcome {
        Err(reason) => Err(ServiceError::new(ErrorKind::PermissionOrTransport, reason)),
        Ok(output) => {
            if output.success {
                Ok(success_message.to_owned())
            } else {
                Err(ServiceError::new(ErrorKind::PermissionOrTransport, output.stderr))
            }
        },
    }
}

} // verus!

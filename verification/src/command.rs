//! Command lines to run and the events that running them, or asking the
//! user, hands back to the installation checks.

use vstd::prelude::*;

verus! {

/// The view of a command line: the program, then its arguments.
pub type CommandView = (Seq<char>, Seq<Seq<char>>);

/// A program to run and the arguments to hand it.
pub struct CommandLine {
    pub program: String,
    pub args: Vec<String>,
}

impl View for CommandLine {
    type V = CommandView;

    open spec fn view(&self) -> CommandView {
        (self.program@, self.args@.map_values(|a: String| a@))
    }
}

impl CommandLine {
    /// A command line for `program` with no arguments yet.
    pub fn new(program: &str) -> (c: CommandLine)
        ensures
            c@ == (program@, Seq::<Seq<char>>::empty()),
    {
        let c = CommandLine { program: program.to_owned(), args: Vec::new() };
        assert(c@.1 =~= Seq::<Seq<char>>::empty());
        c
    }

    /// Adds `arg` after the arguments already there.
    pub fn arg(&mut self, arg: &str)
        ensures
            final(self)@ == (old(self)@.0, old(self)@.1.push(arg@)),
    {
        self.args.push(arg.to_owned());
        assert(self@.1 =~= old(self)@.1.push(arg@));
    }

    /// Adds `arg`, handing over the string itself.
    pub fn arg_string(&mut self, arg: String)
        ensures
            final(self)@ == (old(self)@.0, old(self)@.1.push(arg@)),
    {
        let ghost a = arg@;
        self.args.push(arg);
        assert(self@.1 =~= old(self)@.1.push(a));
    }
}

/// How a command that was asked for went.
#[derive(Clone, Copy, Debug, PartialEq, Eq, Structural)]
pub enum Outcome {
    /// The command could not be started; `not_found` when its program was
    /// not found.
    SpawnFailed { not_found: bool },
    /// The command ran and exited with a failure status.
    Failed,
    /// The command ran and exited with success.
    Succeeded,
}

/// What happened since the last step of an installation check.
#[derive(Clone, Copy, Debug, PartialEq, Eq, Structural)]
pub enum CheckEvent {
    /// The check starts.
    Begin,
    /// The command of the last action has run.
    Ran(Outcome),
    /// The user answered the question of the last action.
    Answered(bool),
}

} // verus!

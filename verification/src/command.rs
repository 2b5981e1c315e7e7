//! The commands that drive a terminal, as plain data.

use vstd::prelude::*;

verus! {

/// One external process to start and wait for: a program and its arguments.
#[derive(Debug, Clone, PartialEq, Eq)]
pub struct Command {
    pub program: String,
    pub args: Vec<String>,
}

/// What a [`Command`] says, without the memory that holds it.
pub struct CommandView {
    pub program: Seq<char>,
    pub args: Seq<Seq<char>>,
}

impl View for Command {
    type V = CommandView;

    open spec fn view(&self) -> CommandView {
        CommandView { program: self.program@, args: self.args.deep_view() }
    }
}

impl DeepView for Command {
    type V = CommandView;

    open spec fn deep_view(&self) -> CommandView {
        self@
    }
}

impl Command {
    /// A command with no arguments yet.
    pub fn new(program: &str) -> (command: Command)
        ensures
            command@ == (CommandView { program: program@, args: Seq::empty() }),
    {
        let command = Command { program: program.to_owned(), args: Vec::new() };
        assert(command.args.deep_view() =~= Seq::<Seq<char>>::empty());
        command
    }

    /// Adds one argument at the end.
    pub fn arg(&mut self, value: &str)
        ensures
            final(self)@ == (CommandView {
                program: old(self)@.program,
                args: old(self)@.args.push(value@),
            }),
    {
        self.args.push(value.to_owned());
        assert(self.args.deep_view() =~= old(self).args.deep_view().push(value@));
    }
}

} // verus!

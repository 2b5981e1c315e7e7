//! Running a session's commands: one at a time, each after the one before
//! it has ended, and none after one that failed.

use crate::command::{Command, CommandView};
use crate::dirspread_error::{DirspreadError, Failure, FailureView};
use vstd::prelude::*;

verus! {

/// The commands of a session that are still to run, the next one first.
#[derive(Debug)]
pub struct Run {
    remaining: Vec<Command>,
}

impl View for Run {
    type V = Seq<CommandView>;

    closed spec fn view(&self) -> Seq<CommandView> {
        self.remaining.deep_view()
    }
}

/// What the caller of a run is to do next.
#[derive(Debug)]
pub enum Step {
    /// Start the command, wait until it has ended, and tell the run how it
    /// ended.
    Spawn(Command, Run),
    /// Every command has run. The session is open.
    Finished,
    /// A command failed. The commands after it are not run, and what the
    /// commands before it opened stays open.
    Aborted(Failure),
}

/// Whether `step` is what follows when `remaining` is still to run: the
/// first of them is handed out and the others are kept, and where nothing
/// remains the run is finished.
pub open spec fn follows(step: Step, remaining: Seq<CommandView>) -> bool {
    if remaining.len() == 0 {
        step is Finished
    } else {
        step matches Step::Spawn(command, run) && command@ == remaining[0] && run@
            == remaining.skip(1)
    }
}

impl Run {
    /// The first step of running `commands` in their order.
    pub fn begin(commands: Vec<Command>) -> (step: Step)
        ensures
            follows(step, commands.deep_view()),
    {
        Run { remaining: commands }.hand_out()
    }

    /// The step after the command that was handed out last has ended as
    /// `last` says: the next command where it succeeded, and the end of the
    /// spread with an `ExternalProcessError` where it gives the reason why
    /// the command could not be started or failed.
    pub fn advance(self, last: Result<(), String>) -> (step: Step)
        ensures
            (match last {
                Ok(_) => follows(step, self@),
                Err(reason) => step matches Step::Aborted(failure) && failure@
                    == FailureView::ExternalProcessError(reason@),
            }),
    {
        match last {
            Ok(()) => self.hand_out(),
            Err(reason) => Step::Aborted(
                Failure::ExternalProcessError(DirspreadError { msg: reason }),
            ),
        }
    }

    /// Hands out the next command, where one is left.
    fn hand_out(self) -> (step: Step)
        ensures
            follows(step, self@),
    {
        let mut remaining = self.remaining;
        if remaining.len() == 0 {
            Step::Finished
        } else {
            let ghost all = remaining.deep_view();
            let command = remaining.remove(0);
            assert(remaining.deep_view() =~= all.skip(1));
            Step::Spawn(command, Run { remaining })
        }
    }
}

} // verus!

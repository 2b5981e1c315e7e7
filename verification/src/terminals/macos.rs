//! The terminal of macOS, driven through `osascript`: each command runs one
//! line of AppleScript, which acts on the window and the tab in front.

use crate::command::{Command, CommandView};
use crate::dirspread::{Directory, DirectoryView};
use crate::terminals::terminal_interface::{TerminalInterface, TerminalScript};
use vstd::prelude::*;

verus! {

/// Brings the terminal to the front.
pub const ACTIVATE: &'static str = "tell application \"Terminal\" to activate";

/// Presses the key that opens a new window.
pub const NEW_WINDOW: &'static str =
    "tell application \"System Events\" to tell process \"Terminal\" to keystroke \"n\" using command down";

/// Presses the key that opens a new tab.
pub const NEW_TAB: &'static str =
    "tell application \"System Events\" to tell process \"Terminal\" to keystroke \"t\" using command down";

/// Presses the key that goes to the next tab: from the last one, the first.
pub const NEXT_TAB: &'static str =
    "tell application \"System Events\" to tell process \"Terminal\" to keystroke (ASCII character 9) using control down";

/// Presses the key that closes the tab in front.
pub const CLOSE_TAB: &'static str =
    "tell application \"System Events\" to tell process \"Terminal\" to keystroke \"w\" using command down";

/// The line that sets the title of the window in front.
pub open spec fn window_title_script(title: Seq<char>) -> Seq<char> {
    "tell application \"Terminal\" to set custom title of front window to \""@ + title + "\""@
}

/// The line that sets the title of the tab in front.
pub open spec fn tab_title_script(title: Seq<char>) -> Seq<char> {
    "tell application \"Terminal\" to set custom title of selected tab of front window to \""@
        + title + "\""@
}

/// The line that runs `text` in the shell of the tab in front.
pub open spec fn do_script(text: Seq<char>) -> Seq<char> {
    "tell application \"Terminal\" to do script \""@ + text
        + "\" in selected tab of front window"@
}

/// `osascript` on one line of script.
pub open spec fn osascript(line: Seq<char>) -> CommandView {
    CommandView { program: "osascript"@, args: seq!["-e"@, line] }
}

/// `osascript` on two lines of script.
pub open spec fn osascript2(first: Seq<char>, second: Seq<char>) -> CommandView {
    CommandView { program: "osascript"@, args: seq!["-e"@, first, "-e"@, second] }
}

/// The command for one line of script.
fn terminal(line: &str) -> (command: Command)
    ensures
        command@ == osascript(line@),
{
    let mut command = Command::new("osascript");
    command.arg("-e");
    command.arg(line);
    assert(command@.args =~= seq!["-e"@, line@]);
    command
}

/// `before`, `text` and `after` in one string.
fn enclose(before: &str, text: &str, after: &str) -> (line: String)
    ensures
        line@ == before@ + text@ + after@,
{
    let mut line = before.to_owned();
    line.append(text);
    line.append(after);
    line
}

/// The command that sets the title of the window in front.
fn set_window_title(title: &str) -> (command: Command)
    ensures
        command@ == osascript(window_title_script(title@)),
{
    let line = enclose(
        "tell application \"Terminal\" to set custom title of front window to \"",
        title,
        "\"",
    );
    terminal(line.as_str())
}

/// The command that sets the title of the tab in front.
fn set_tab_title(title: &str) -> (command: Command)
    ensures
        command@ == osascript(tab_title_script(title@)),
{
    let line = enclose(
        "tell application \"Terminal\" to set custom title of selected tab of front window to \"",
        title,
        "\"",
    );
    terminal(line.as_str())
}

/// The command that runs `text` in the shell of the tab in front.
fn run_in_tab(text: &str) -> (command: Command)
    ensures
        command@ == osascript(do_script(text@)),
{
    let line = enclose(
        "tell application \"Terminal\" to do script \"",
        text,
        "\" in selected tab of front window",
    );
    terminal(line.as_str())
}

/// The macOS terminal.
#[derive(Debug, Clone, Copy, PartialEq, Eq, Structural)]
pub struct Macos {}

impl TerminalScript for Macos {
    open spec fn window(title: Option<Seq<char>>) -> Seq<CommandView> {
        seq![osascript2(ACTIVATE@, NEW_WINDOW@)] + match title {
            Some(title) => seq![osascript(window_title_script(title))],
            None => seq![],
        }
    }

    open spec fn tab(directory: DirectoryView, path: Seq<char>) -> Seq<CommandView> {
        seq![osascript(NEW_TAB@), osascript(do_script("cd "@ + path))] + match directory.disp_name {
            Some(title) => seq![osascript(tab_title_script(title))],
            None => seq![],
        } + match directory.on_open {
            Some(text) => seq![osascript(do_script(text))],
            None => seq![],
        }
    }

    open spec fn closing() -> Seq<CommandView> {
        seq![osascript(NEXT_TAB@), osascript(CLOSE_TAB@)]
    }

    fn window_commands(title: &Option<String>) -> (commands: Vec<Command>) {
        let mut open = Command::new("osascript");
        open.arg("-e");
        open.arg(ACTIVATE);
        open.arg("-e");
        open.arg(NEW_WINDOW);
        assert(open@.args =~= seq!["-e"@, ACTIVATE@, "-e"@, NEW_WINDOW@]);
        let mut commands: Vec<Command> = Vec::new();
        commands.push(open);
        if let Some(title) = title {
            commands.push(set_window_title(title.as_str()));
        }
        assert(commands.deep_view() =~= Self::window(title.deep_view()));
        commands
    }

    fn tab_commands(directory: &Directory, path: &str) -> (commands: Vec<Command>) {
        let mut commands: Vec<Command> = Vec::new();
        commands.push(terminal(NEW_TAB));
        let mut change = "cd ".to_owned();
        change.append(path);
        commands.push(run_in_tab(change.as_str()));
        if let Some(title) = &directory.disp_name {
            commands.push(set_tab_title(title.as_str()));
        }
        if let Some(text) = &directory.on_open {
            commands.push(run_in_tab(text.as_str()));
        }
        assert(commands.deep_view() =~= Self::tab(directory@, path@));
        commands
    }

    fn closing_commands() -> (commands: Vec<Command>) {
        let mut commands: Vec<Command> = Vec::new();
        commands.push(terminal(NEXT_TAB));
        commands.push(terminal(CLOSE_TAB));
        assert(commands.deep_view() =~= Self::closing());
        commands
    }
}

impl TerminalInterface for Macos {
}

} // verus!

//! The kitty emulator, driven through its remote control: `kitty @` and a
//! request.

use crate::command::{Command, CommandView};
use crate::dirspread::{Directory, DirectoryView};
use crate::terminals::terminal_interface::{TerminalInterface, TerminalScript};
use vstd::prelude::*;

verus! {

/// `kitty` with the given arguments.
pub open spec fn kitty(args: Seq<Seq<char>>) -> CommandView {
    CommandView { program: "kitty"@, args }
}

/// The arguments that give `value` under the option `name`, where there is
/// a value: none where there is not.
pub open spec fn option_args(name: Seq<char>, value: Option<Seq<char>>) -> Seq<Seq<char>> {
    match value {
        Some(value) => seq![name, value],
        None => seq![],
    }
}

/// The kitty emulator.
#[derive(Debug, Clone, Copy, PartialEq, Eq, Structural)]
pub struct Kitty {}

impl TerminalScript for Kitty {
    open spec fn window(title: Option<Seq<char>>) -> Seq<CommandView> {
        seq![
            kitty(
                seq!["@"@, "launch"@, "--type"@, "os-window"@] + option_args(
                    "--os-window-title"@,
                    title,
                ),
            ),
        ]
    }

    open spec fn tab(directory: DirectoryView, path: Seq<char>) -> Seq<CommandView> {
        seq![
            kitty(
                seq!["@"@, "launch"@, "--type"@, "tab"@, "--cwd"@, path] + option_args(
                    "--tab-title"@,
                    directory.disp_name,
                ),
            ),
        ] + match directory.on_open {
            Some(text) => seq![kitty(seq!["@"@, "send-text"@, text, "\\r"@])],
            None => seq![],
        }
    }

    open spec fn closing() -> Seq<CommandView> {
        seq![kitty(seq!["@"@, "close-tab"@, "--match"@, "index:0"@])]
    }

    fn window_commands(title: &Option<String>) -> (commands: Vec<Command>) {
        let mut launch = Command::new("kitty");
        launch.arg("@");
        launch.arg("launch");
        launch.arg("--type");
        launch.arg("os-window");
        if let Some(title) = title {
            launch.arg("--os-window-title");
            launch.arg(title.as_str());
        }
        assert(launch@.args =~= seq!["@"@, "launch"@, "--type"@, "os-window"@] + option_args(
            "--os-window-title"@,
            title.deep_view(),
        ));
        let mut commands: Vec<Command> = Vec::new();
        commands.push(launch);
        assert(commands.deep_view() =~= Self::window(title.deep_view()));
        commands
    }

    fn tab_commands(directory: &Directory, path: &str) -> (commands: Vec<Command>) {
        let mut launch = Command::new("kitty");
        launch.arg("@");
        launch.arg("launch");
        launch.arg("--type");
        launch.arg("tab");
        launch.arg("--cwd");
        launch.arg(path);
        if let Some(title) = &directory.disp_name {
            launch.arg("--tab-title");
            launch.arg(title.as_str());
        }
        assert(launch@.args =~= seq!["@"@, "launch"@, "--type"@, "tab"@, "--cwd"@, path@]
            + option_args("--tab-title"@, directory@.disp_name));
        let mut commands: Vec<Command> = Vec::new();
        commands.push(launch);
        if let Some(text) = &directory.on_open {
            let mut send = Command::new("kitty");
            send.arg("@");
            send.arg("send-text");
            send.arg(text.as_str());
            send.arg("\\r");
            assert(send@.args =~= seq!["@"@, "send-text"@, text@, "\\r"@]);
            commands.push(send);
        }
        assert(commands.deep_view() =~= Self::tab(directory@, path@));
        commands
    }

    fn closing_commands() -> (commands: Vec<Command>) {
        let mut close = Command::new("kitty");
        close.arg("@");
        close.arg("close-tab");
        close.arg("--match");
        close.arg("index:0");
        assert(close@.args =~= seq!["@"@, "close-tab"@, "--match"@, "index:0"@]);
        let mut commands: Vec<Command> = Vec::new();
        commands.push(close);
        assert(commands.deep_view() =~= Self::closing());
        commands
    }
}

impl TerminalInterface for Kitty {
}

} // verus!

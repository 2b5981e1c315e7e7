//! What every terminal offers: the commands that open a session in it.

use crate::command::{Command, CommandView};
use crate::dirspread::{Directory, DirectoryView, Dirspread, SessionView};
use vstd::prelude::*;

verus! {

/// The commands of one terminal for each thing that a session does.
pub trait TerminalScript: Sized {
    /// The commands that open a new window, with the title where one is given.
    spec fn window(title: Option<Seq<char>>) -> Seq<CommandView>;

    /// The commands that open a tab on the directory at `path`, label it and
    /// run the directory's startup command, where it has them.
    spec fn tab(directory: DirectoryView, path: Seq<char>) -> Seq<CommandView>;

    /// The commands that close the tab that the new window came with.
    spec fn closing() -> Seq<CommandView>;

    fn window_commands(title: &Option<String>) -> (commands: Vec<Command>)
        ensures
            commands.deep_view() == Self::window(title.deep_view()),
    ;

    fn tab_commands(directory: &Directory, path: &str) -> (commands: Vec<Command>)
        ensures
            commands.deep_view() == Self::tab(directory@, path@),
    ;

    fn closing_commands() -> (commands: Vec<Command>)
        ensures
            commands.deep_view() == Self::closing(),
    ;
}

/// The path that was found for the directory at `index`: `None` where the
/// directory is not there, and where `paths` does not reach as far.
pub open spec fn path_at(paths: Seq<Option<Seq<char>>>, index: int) -> Option<Seq<char>> {
    if 0 <= index < paths.len() {
        paths[index]
    } else {
        None
    }
}

/// The directories of a session; none where the list was never set.
pub open spec fn directories(session: SessionView) -> Seq<DirectoryView> {
    match session.dirs {
        Some(dirs) => dirs,
        None => Seq::empty(),
    }
}

/// The commands for one directory: those of its tab where the directory has
/// a path, none at all where it has not.
pub open spec fn tab_or_nothing<T: TerminalScript>(
    directory: DirectoryView,
    path: Option<Seq<char>>,
) -> Seq<CommandView> {
    match path {
        Some(path) => T::tab(directory, path),
        None => Seq::empty(),
    }
}

/// The commands for all directories, in the order of the directories.
pub open spec fn tabs<T: TerminalScript>(
    dirs: Seq<DirectoryView>,
    paths: Seq<Option<Seq<char>>>,
) -> Seq<CommandView> {
    Seq::new(dirs.len(), |i: int| tab_or_nothing::<T>(dirs[i], path_at(paths, i))).flatten()
}

/// All commands of a session, in the order in which they are to run: the
/// window, then the tabs, then the closing of the tab that the window came
/// with.
pub open spec fn plan<T: TerminalScript>(
    session: SessionView,
    paths: Seq<Option<Seq<char>>>,
) -> Seq<CommandView> {
    T::window(session.win_name) + tabs::<T>(directories(session), paths) + T::closing()
}

/// One more directory adds its own commands behind those of the others.
pub proof fn lemma_tabs_step<T: TerminalScript>(
    dirs: Seq<DirectoryView>,
    paths: Seq<Option<Seq<char>>>,
    count: int,
)
    requires
        0 <= count < dirs.len(),
    ensures
        tabs::<T>(dirs.take(count + 1), paths) == tabs::<T>(dirs.take(count), paths)
            + tab_or_nothing::<T>(dirs[count], path_at(paths, count)),
{
    let before = Seq::new(
        count as nat,
        |i: int| tab_or_nothing::<T>(dirs.take(count)[i], path_at(paths, i)),
    );
    let after = Seq::new(
        (count + 1) as nat,
        |i: int| tab_or_nothing::<T>(dirs.take(count + 1)[i], path_at(paths, i)),
    );
    let added = tab_or_nothing::<T>(dirs[count], path_at(paths, count));
    assert(after =~= before.push(added));
    before.lemma_flatten_push(added);
}

/// Appending one list of commands to another appends what they say.
pub proof fn lemma_commands_appended(all: Vec<Command>, first: Vec<Command>, second: Vec<Command>)
    requires
        all@ == first@ + second@,
    ensures
        all.deep_view() == first.deep_view() + second.deep_view(),
{
    assert(all.deep_view() =~= first.deep_view() + second.deep_view());
}

/// A terminal that a session can be opened in.
pub trait TerminalInterface: TerminalScript {
    /// The commands that open the session, to be run one after the other.
    ///
    /// `paths` holds, for each directory of the session and in their order,
    /// the full path of the directory, or `None` where it is not an existing
    /// directory: such a directory gets no tab. A directory that `paths`
    /// does not reach gets none either.
    fn open_terminals(dirspread: &Dirspread, paths: &Vec<Option<String>>) -> (commands: Vec<
        Command,
    >)
        ensures
            commands.deep_view() == plan::<Self>(dirspread@, paths.deep_view()),
    {
        let mut commands = Self::window_commands(&dirspread.win_name);
        if let Some(dirs) = &dirspread.dirs {
            let mut i: usize = 0;
            while i < dirs.len()
                invariant
                    i <= dirs.len(),
                    commands.deep_view() == Self::window(dirspread@.win_name) + tabs::<Self>(
                        dirs.deep_view().take(i as int),
                        paths.deep_view(),
                    ),
                decreases dirs.len() - i,
            {
                proof {
                    lemma_tabs_step::<Self>(dirs.deep_view(), paths.deep_view(), i as int);
                }
                if i < paths.len() {
                    if let Some(path) = &paths[i] {
                        let ghost before = commands;
                        let mut tab = Self::tab_commands(&dirs[i], path.as_str());
                        let ghost added = tab;
                        commands.append(&mut tab);
                        proof {
                            lemma_commands_appended(commands, before, added);
                        }
                    }
                }
                i += 1;
            }
            assert(dirs.deep_view().take(dirs.len() as int) =~= dirs.deep_view());
        } else {
            assert(tabs::<Self>(Seq::empty(), paths.deep_view()) =~= Seq::empty());
        }
        let ghost before = commands;
        let mut closing = Self::closing_commands();
        let ghost added = closing;
        commands.append(&mut closing);
        proof {
            lemma_commands_appended(commands, before, added);
        }
        commands
    }
}

} // verus!

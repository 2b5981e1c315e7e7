//! The session: a parent directory, and the directories to open in it.

use crate::command::{Command, CommandView};
use crate::dirspread_error::{DirspreadError, Failure, FailureView};
use crate::terminals::kitty::Kitty;
use crate::terminals::macos::Macos;
use crate::terminals::terminal_interface::{plan, TerminalInterface};
use vstd::prelude::*;

verus! {

/// The name of the config file, which lies directly in the parent directory.
pub const CONFIG_FILE_NAME: &'static str = "dsconfig.json";

/// The environment variable that is set in a shell that runs inside kitty.
pub const KITTY_WINDOW_ID: &'static str = "KITTY_WINDOW_ID";

/// A path of the file system. The library carries it and never looks inside.
#[verifier::external_type_specification]
#[verifier::external_body]
pub struct ExPathBuf(std::path::PathBuf);

/// The terminal that a session is opened in.
#[derive(Debug, Clone, Copy, PartialEq, Eq, Structural)]
pub enum Terminal {
    /// The terminal of the operating system, driven by UI automation.
    TERMINAL,
    /// The kitty emulator, driven by its remote control.
    KITTY,
}

/// One directory to open a tab for.
#[derive(Debug, Clone, PartialEq, Eq)]
pub struct Directory {
    /// The label of the tab, where one is wanted.
    pub disp_name: Option<String>,
    /// The directory's name, relative to the parent.
    pub dir_name: String,
    /// A command to run in the tab once it is open.
    pub on_open: Option<String>,
}

/// What a [`Directory`] says.
pub struct DirectoryView {
    pub disp_name: Option<Seq<char>>,
    pub dir_name: Seq<char>,
    pub on_open: Option<Seq<char>>,
}

impl View for Directory {
    type V = DirectoryView;

    open spec fn view(&self) -> DirectoryView {
        DirectoryView {
            disp_name: self.disp_name.deep_view(),
            dir_name: self.dir_name@,
            on_open: self.on_open.deep_view(),
        }
    }
}

impl DeepView for Directory {
    type V = DirectoryView;

    open spec fn deep_view(&self) -> DirectoryView {
        self@
    }
}

/// What a config file holds. Every part of it may be missing.
#[derive(Debug, Clone, PartialEq, Eq)]
pub struct ConfigFile {
    pub win_name: Option<String>,
    pub ignored_dirs: Option<Vec<String>>,
    pub dirs: Option<Vec<Directory>>,
}

/// What a [`ConfigFile`] says.
pub struct ConfigView {
    pub win_name: Option<Seq<char>>,
    pub ignored_dirs: Option<Seq<Seq<char>>>,
    pub dirs: Option<Seq<DirectoryView>>,
}

impl View for ConfigFile {
    type V = ConfigView;

    open spec fn view(&self) -> ConfigView {
        ConfigView {
            win_name: self.win_name.deep_view(),
            ignored_dirs: self.ignored_dirs.deep_view(),
            dirs: self.dirs.deep_view(),
        }
    }
}

/// One entry of the parent directory's listing.
#[derive(Debug, Clone, PartialEq, Eq)]
pub struct Entry {
    /// The entry's file name.
    pub name: String,
    /// Whether the entry is a directory.
    pub is_dir: bool,
}

/// What an [`Entry`] says.
pub struct EntryView {
    pub name: Seq<char>,
    pub is_dir: bool,
}

impl View for Entry {
    type V = EntryView;

    open spec fn view(&self) -> EntryView {
        EntryView { name: self.name@, is_dir: self.is_dir }
    }
}

impl DeepView for Entry {
    type V = EntryView;

    open spec fn deep_view(&self) -> EntryView {
        self@
    }
}

/// One invocation's parent directory, window title and directories.
#[derive(Debug)]
pub struct Dirspread {
    pub win_name: Option<String>,
    pub parent_dir: std::path::PathBuf,
    pub terminal: Terminal,
    pub dirs: Option<Vec<Directory>>,
    pub ignored_dirs: Option<Vec<String>>,
}

/// What a [`Dirspread`] says.
pub struct SessionView {
    pub win_name: Option<Seq<char>>,
    pub parent_dir: std::path::PathBuf,
    pub terminal: Terminal,
    pub dirs: Option<Seq<DirectoryView>>,
    pub ignored_dirs: Option<Seq<Seq<char>>>,
}

impl View for Dirspread {
    type V = SessionView;

    open spec fn view(&self) -> SessionView {
        SessionView {
            win_name: self.win_name.deep_view(),
            parent_dir: self.parent_dir,
            terminal: self.terminal,
            dirs: self.dirs.deep_view(),
            ignored_dirs: self.ignored_dirs.deep_view(),
        }
    }
}

/// Whether `name` is among the names to leave out.
pub open spec fn is_ignored(name: Seq<char>, ignored: Option<Seq<Seq<char>>>) -> bool {
    ignored matches Some(names) && names.contains(name)
}

/// Whether an entry of the listing gets a descriptor: it is a directory, and
/// its name is not to be left out.
pub open spec fn is_listed(entry: EntryView, ignored: Option<Seq<Seq<char>>>) -> bool {
    entry.is_dir && !is_ignored(entry.name, ignored)
}

/// [`is_listed`] as a function of the entry.
pub open spec fn listed(ignored: Option<Seq<Seq<char>>>) -> spec_fn(EntryView) -> bool {
    |entry: EntryView| is_listed(entry, ignored)
}

/// The descriptor of a directory that no config speaks of: its name, no
/// label and no startup command.
pub open spec fn bare(name: Seq<char>) -> DirectoryView {
    DirectoryView { disp_name: None, dir_name: name, on_open: None }
}

/// [`bare`] on the name of an entry.
pub open spec fn bare_entry() -> spec_fn(EntryView) -> DirectoryView {
    |entry: EntryView| bare(entry.name)
}

/// The descriptors made up from a listing: one for each entry that
/// [`is_listed`], in the order of the listing.
pub open spec fn synthesized(
    entries: Seq<EntryView>,
    ignored: Option<Seq<Seq<char>>>,
) -> Seq<DirectoryView> {
    entries.filter(listed(ignored)).map_values(bare_entry())
}

/// One more entry adds its descriptor at the end, where it gets one.
pub proof fn lemma_synthesized_push(
    entries: Seq<EntryView>,
    entry: EntryView,
    ignored: Option<Seq<Seq<char>>>,
)
    ensures
        synthesized(entries.push(entry), ignored) == if is_listed(entry, ignored) {
            synthesized(entries, ignored).push(bare(entry.name))
        } else {
            synthesized(entries, ignored)
        },
{
    entries.lemma_filter_push(entry, listed(ignored));
    if is_listed(entry, ignored) {
        assert(entries.filter(listed(ignored)).push(entry).map_values(bare_entry())
            =~= entries.filter(listed(ignored)).map_values(bare_entry()).push(bare(entry.name)));
    }
}

impl SessionView {
    /// A session on `parent_dir` that has nothing set yet.
    pub open spec fn fresh(parent_dir: std::path::PathBuf, terminal: Terminal) -> SessionView {
        SessionView { win_name: None, parent_dir, terminal, dirs: None, ignored_dirs: None }
    }

    /// The session once it has taken in a config: title, directories and
    /// ignored names are the config's, set or not.
    pub open spec fn with_config(self, config: ConfigView) -> SessionView {
        SessionView {
            win_name: config.win_name,
            dirs: config.dirs,
            ignored_dirs: config.ignored_dirs,
            ..self
        }
    }

    /// The session once it has seen the parent directory's listing: where
    /// it had directories they stand, and the listing and the ignored names
    /// count for nothing; where it had none, they are made up from the
    /// listing.
    pub open spec fn with_listing(self, entries: Seq<EntryView>) -> SessionView {
        if self.dirs is Some {
            self
        } else {
            SessionView { dirs: Some(synthesized(entries, self.ignored_dirs)), ..self }
        }
    }

    /// The commands that open the session in its terminal.
    pub open spec fn commands(self, paths: Seq<Option<Seq<char>>>) -> Seq<CommandView> {
        match self.terminal {
            Terminal::KITTY => plan::<Kitty>(self, paths),
            Terminal::TERMINAL => plan::<Macos>(self, paths),
        }
    }
}

/// Whether `name` is one of `names`.
fn holds(names: &Vec<String>, name: &String) -> (found: bool)
    ensures
        found == names.deep_view().contains(name@),
{
    let mut i: usize = 0;
    while i < names.len()
        invariant
            i <= names.len(),
            forall|j: int| 0 <= j < i ==> names.deep_view()[j] != name@,
        decreases names.len() - i,
    {
        if names[i] == *name {
            assert(names.deep_view()[i as int] == name@);
            return true;
        }
        i += 1;
    }
    false
}

/// Whether `name` is among the names to leave out.
fn ignores(ignored: &Option<Vec<String>>, name: &String) -> (found: bool)
    ensures
        found == is_ignored(name@, ignored.deep_view()),
{
    match ignored {
        None => false,
        Some(names) => holds(names, name),
    }
}

/// The terminal to drive: kitty where the invoking shell runs inside kitty,
/// that is where [`KITTY_WINDOW_ID`] is set in its environment, and the
/// operating system's terminal otherwise.
pub fn get_terminal(inside_kitty: bool) -> (terminal: Terminal)
    ensures
        terminal == (if inside_kitty {
            Terminal::KITTY
        } else {
            Terminal::TERMINAL
        }),
{
    if inside_kitty {
        Terminal::KITTY
    } else {
        Terminal::TERMINAL
    }
}

impl Dirspread {
    /// A session on `parent_dir` with nothing set yet.
    pub fn new(parent_dir: std::path::PathBuf, terminal: Terminal) -> (session: Dirspread)
        ensures
            session@ == SessionView::fresh(parent_dir, terminal),
    {
        Dirspread { win_name: None, parent_dir, terminal, dirs: None, ignored_dirs: None }
    }

    /// Takes in what was found at the place of the config file: `None`
    /// where there is no such file, else what reading it gave.
    ///
    /// Without a file the session stays as it is. With one, see
    /// [`Dirspread::save_config`].
    pub fn set_from_config(
        &mut self,
        found: Option<Result<ConfigFile, String>>,
    ) -> (outcome: Result<(), Failure>)
        ensures
            (match found {
                None => outcome is Ok && final(self)@ == old(self)@,
                Some(Ok(config)) => outcome is Ok && final(self)@ == old(self)@.with_config(
                    config@,
                ),
                Some(Err(reason)) => final(self)@ == old(self)@ && (outcome matches Err(failure)
                    && failure@ == FailureView::ConfigError(reason@)),
            }),
    {
        match found {
            None => Ok(()),
            Some(read) => self.save_config(read),
        }
    }

    /// Takes in what reading the config file gave: the config, or the reason
    /// why the file could not be read or is no valid config.
    ///
    /// A config replaces the title, the directories and the ignored names
    /// of the session, also by nothing. A reason ends the spread with a
    /// `ConfigError` and leaves the session as it is.
    pub fn save_config(&mut self, read: Result<ConfigFile, String>) -> (outcome: Result<(), Failure>)
        ensures
            (match read {
                Ok(config) => outcome is Ok && final(self)@ == old(self)@.with_config(config@),
                Err(reason) => final(self)@ == old(self)@ && (outcome matches Err(failure)
                    && failure@ == FailureView::ConfigError(reason@)),
            }),
    {
        match read {
            Ok(config) => {
                self.dirs = config.dirs;
                self.ignored_dirs = config.ignored_dirs;
                self.win_name = config.win_name;
                Ok(())
            },
            Err(reason) => Err(Failure::ConfigError(DirspreadError { msg: reason })),
        }
    }

    /// Whether the session still lacks its directories, so that the parent
    /// directory has to be listed.
    pub fn needs_listing(&self) -> (needed: bool)
        ensures
            needed == (self@.dirs is None),
    {
        self.dirs.is_none()
    }

    /// Makes up the directories from the parent directory's listing, where
    /// no config gave any.
    ///
    /// `listing` is what listing the parent directory gave: its entries in
    /// the order in which they came, or the reason why it could not be
    /// listed. A session that has directories ignores it. One that has none
    /// gets a descriptor for each entry that is a directory and whose name
    /// is not ignored, or ends with a `DirectoryResolutionError`.
    pub fn get_directories_if_no_config(
        &mut self,
        listing: Result<Vec<Entry>, String>,
    ) -> (outcome: Result<(), Failure>)
        ensures
            (if old(self)@.dirs is Some {
                outcome is Ok && final(self)@ == old(self)@
            } else {
                match listing {
                    Ok(entries) => outcome is Ok && final(self)@ == old(self)@.with_listing(
                        entries.deep_view(),
                    ),
                    Err(reason) => final(self)@ == old(self)@ && (outcome matches Err(failure)
                        && failure@ == FailureView::DirectoryResolutionError(reason@)),
                }
            }),
    {
        if self.dirs.is_some() {
            return Ok(());
        }
        match listing {
            Err(reason) => Err(Failure::DirectoryResolutionError(DirspreadError { msg: reason })),
            Ok(entries) => {
                let mut dirs: Vec<Directory> = Vec::new();
                let mut i: usize = 0;
                assert(entries.deep_view().take(0) =~= Seq::empty());
                assert(dirs.deep_view() =~= Seq::empty());
                while i < entries.len()
                    invariant
                        i <= entries.len(),
                        dirs.deep_view() == synthesized(
                            entries.deep_view().take(i as int),
                            self.ignored_dirs.deep_view(),
                        ),
                    decreases entries.len() - i,
                {
                    let entry = &entries[i];
                    proof {
                        lemma_synthesized_push(
                            entries.deep_view().take(i as int),
                            entry@,
                            self.ignored_dirs.deep_view(),
                        );
                        assert(entries.deep_view().take(i as int).push(entry@)
                            =~= entries.deep_view().take(i as int + 1));
                    }
                    if entry.is_dir && !ignores(&self.ignored_dirs, &entry.name) {
                        let ghost before = dirs.deep_view();
                        dirs.push(
                            Directory {
                                disp_name: None,
                                dir_name: entry.name.clone(),
                                on_open: None,
                            },
                        );
                        assert(dirs.deep_view() =~= before.push(bare(entry@.name)));
                    }
                    i += 1;
                }
                assert(entries.deep_view().take(entries.len() as int) =~= entries.deep_view());
                self.dirs = Some(dirs);
                Ok(())
            },
        }
    }

    /// The full path of a directory to open, where there is one to open:
    /// `path` where it is a directory, and nothing where it is not, so that
    /// the directory gets no tab.
    pub fn get_full_path(path: String, is_dir: bool) -> (full: Option<String>)
        ensures
            full == (if is_dir {
                Some(path)
            } else {
                None
            }),
    {
        if !is_dir {
            return None;
        }
        Some(path)
    }

    /// The commands that open the session in its terminal, to be run one
    /// after the other. For `paths` see [`TerminalInterface::open_terminals`].
    pub fn open_terminals(&self, paths: &Vec<Option<String>>) -> (commands: Vec<Command>)
        ensures
            commands.deep_view() == self@.commands(paths.deep_view()),
    {
        match self.terminal {
            Terminal::KITTY => Kitty::open_terminals(self, paths),
            Terminal::TERMINAL => Macos::open_terminals(self, paths),
        }
    }
}

} // verus!

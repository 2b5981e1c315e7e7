//! What holds of every session, whatever the config and the file system
//! hold.

use crate::command::CommandView;
use crate::dirspread::{
    bare, bare_entry, is_listed, listed, synthesized, ConfigView, EntryView, SessionView,
    Terminal,
};
use crate::terminals::kitty::Kitty;
use crate::terminals::macos::Macos;
use crate::terminals::terminal_interface::{
    directories, path_at, plan, tab_or_nothing, tabs, TerminalScript,
};
use vstd::prelude::*;
use vstd::seq_lib::lemma_flatten_concat;

verus! {

/// Whether an entry of a listing is a directory, as a function of the entry.
pub open spec fn is_directory() -> spec_fn(EntryView) -> bool {
    |entry: EntryView| entry.is_dir
}

/// Two tests that agree on every value keep the same items.
proof fn lemma_filter_agrees<A>(items: Seq<A>, p: spec_fn(A) -> bool, q: spec_fn(A) -> bool)
    requires
        forall|item: A| #[trigger] p(item) == q(item),
    ensures
        items.filter(p) == items.filter(q),
    decreases items.len(),
{
    reveal(Seq::filter);
    if items.len() > 0 {
        lemma_filter_agrees(items.drop_last(), p, q);
    }
}

/// Every made-up descriptor carries the name of an entry that is listed.
proof fn lemma_synthesized_from_listed(
    entries: Seq<EntryView>,
    ignored: Option<Seq<Seq<char>>>,
    index: int,
)
    requires
        0 <= index < synthesized(entries, ignored).len(),
    ensures
        exists|e: EntryView|
            is_listed(e, ignored) && #[trigger] bare(e.name) == synthesized(
                entries,
                ignored,
            )[index],
{
    let kept = entries.filter(listed(ignored));
    entries.lemma_filter_pred(listed(ignored), index);
    assert(is_listed(kept[index], ignored));
    assert(bare(kept[index].name) == synthesized(entries, ignored)[index]);
}

/// Without a config file, the directories of a session are the
/// subdirectories of its parent: one descriptor for each entry of the
/// listing that is a directory, in the order of the listing, with the
/// entry's name and neither label nor startup command.
pub proof fn theorem_no_config_gives_subdirectories(
    parent_dir: std::path::PathBuf,
    terminal: Terminal,
    entries: Seq<EntryView>,
)
    ensures
        SessionView::fresh(parent_dir, terminal).with_listing(entries).dirs == Some(
            entries.filter(is_directory()).map_values(bare_entry()),
        ),
{
    lemma_filter_agrees(entries, listed(None), is_directory());
}

/// Directories that a config gives stand as they are: the listing of the
/// parent directory changes nothing in them, and neither do the names that
/// the config asks to ignore.
pub proof fn theorem_config_directories_stand(
    session: SessionView,
    config: ConfigView,
    entries: Seq<EntryView>,
)
    requires
        config.dirs is Some,
    ensures
        session.with_config(config).with_listing(entries).dirs == config.dirs,
{
}

/// A name that a config asks to ignore, where the config gives no
/// directories itself, is the name of no directory of the session, whether
/// the parent directory holds it or not.
pub proof fn theorem_ignored_name_is_absent(
    session: SessionView,
    config: ConfigView,
    entries: Seq<EntryView>,
    name: Seq<char>,
)
    requires
        config.dirs is None,
        config.ignored_dirs matches Some(names) && names.contains(name),
    ensures
        session.with_config(config).with_listing(entries).dirs matches Some(dirs) && forall|
            i: int,
        |
            0 <= i < dirs.len() ==> (#[trigger] dirs[i]).dir_name != name,
{
    let dirs = synthesized(entries, config.ignored_dirs);
    assert forall|i: int| 0 <= i < dirs.len() implies (#[trigger] dirs[i]).dir_name != name by {
        lemma_synthesized_from_listed(entries, config.ignored_dirs, i);
    }
}

/// A directory that is not there is passed over, and the session is opened
/// as if it had never been named: the commands are those of the session
/// without it.
pub proof fn theorem_missing_directory_is_skipped<T: TerminalScript>(
    session: SessionView,
    paths: Seq<Option<Seq<char>>>,
    index: int,
)
    requires
        0 <= index < directories(session).len(),
        path_at(paths, index) is None,
    ensures
        plan::<T>(session, paths) == plan::<T>(
            SessionView { dirs: Some(directories(session).remove(index)), ..session },
            if index < paths.len() {
                paths.remove(index)
            } else {
                paths
            },
        ),
{
    let dirs = directories(session);
    let fewer = dirs.remove(index);
    let others = if index < paths.len() {
        paths.remove(index)
    } else {
        paths
    };
    let each = Seq::new(dirs.len(), |i: int| tab_or_nothing::<T>(dirs[i], path_at(paths, i)));
    let each_other = Seq::new(
        fewer.len(),
        |i: int| tab_or_nothing::<T>(fewer[i], path_at(others, i)),
    );
    let front = each.take(index);
    let back = each.skip(index + 1);
    let gap: Seq<Seq<CommandView>> = seq![each[index]];
    assert(each[index] =~= Seq::empty());
    assert(each =~= front + gap + back);
    assert(each_other =~= front + back);
    assert(gap.flatten() =~= Seq::<CommandView>::empty()) by {
        gap.lemma_flatten_one_element();
    }
    lemma_flatten_concat(front, gap);
    lemma_flatten_concat(front + gap, back);
    lemma_flatten_concat(front, back);
    assert(tabs::<T>(dirs, paths) =~= tabs::<T>(fewer, others));
}

/// The same of a session in the terminal that it names: a directory that
/// is not there is passed over, whichever terminal the session is opened
/// in.
pub proof fn theorem_session_skips_missing_directory(
    session: SessionView,
    paths: Seq<Option<Seq<char>>>,
    index: int,
)
    requires
        0 <= index < directories(session).len(),
        path_at(paths, index) is None,
    ensures
        session.commands(paths) == (SessionView {
            dirs: Some(directories(session).remove(index)),
            ..session
        }).commands(
            if index < paths.len() {
                paths.remove(index)
            } else {
                paths
            },
        ),
{
    theorem_missing_directory_is_skipped::<Kitty>(session, paths, index);
    theorem_missing_directory_is_skipped::<Macos>(session, paths, index);
}

} // verus!

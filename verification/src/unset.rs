//! Taking overrides away: of one directory, or of every directory that is gone.

use crate::overrides::{
    is_bound, is_stale, probe_views, stale_paths, without, DirectoryProbe, DirectoryProbeView,
    OverrideEntryView, OverrideStore,
};
use crate::text::texts;
use vstd::prelude::*;

verus! {

/// Which overrides a command is to take away.
#[derive(Clone, Debug, PartialEq, Eq, Hash)]
pub enum UnsetTarget {
    /// Those of all directories that the probes found gone.
    Nonexistent(Vec<DirectoryProbe>),
    /// That of the directory the user named, taken as it was written.
    Path(String),
    /// That of the directory the command runs in, since the user named none.
    CurrentDir(String),
}

/// A target as a mathematical value.
pub enum UnsetTargetView {
    Nonexistent(Seq<DirectoryProbeView>),
    Path(Seq<char>),
    CurrentDir(Seq<char>),
}

impl View for UnsetTarget {
    type V = UnsetTargetView;

    open spec fn view(&self) -> UnsetTargetView {
        match *self {
            UnsetTarget::Nonexistent(probes) => UnsetTargetView::Nonexistent(probe_views(probes@)),
            UnsetTarget::Path(path) => UnsetTargetView::Path(path@),
            UnsetTarget::CurrentDir(path) => UnsetTargetView::CurrentDir(path@),
        }
    }
}

/// What the user is told while overrides are taken away. None of it is a
/// failure: to take away what is not there is to have nothing to do.
#[derive(Clone, Debug, PartialEq, Eq, Hash)]
pub enum UnsetNotice {
    /// All bound directories are still there.
    NoNonexistentPaths,
    /// The override of this directory was taken away.
    Removed(String),
    /// This directory had no override.
    NotFound(String),
    /// A directory other than the current one can be named.
    PathHint,
}

/// A notice as a mathematical value.
pub enum UnsetNoticeView {
    NoNonexistentPaths,
    Removed(Seq<char>),
    NotFound(Seq<char>),
    PathHint,
}

impl View for UnsetNotice {
    type V = UnsetNoticeView;

    open spec fn view(&self) -> UnsetNoticeView {
        match *self {
            UnsetNotice::NoNonexistentPaths => UnsetNoticeView::NoNonexistentPaths,
            UnsetNotice::Removed(path) => UnsetNoticeView::Removed(path@),
            UnsetNotice::NotFound(path) => UnsetNoticeView::NotFound(path@),
            UnsetNotice::PathHint => UnsetNoticeView::PathHint,
        }
    }
}

/// What each notice holds.
pub open spec fn notice_views(notices: Seq<UnsetNotice>) -> Seq<UnsetNoticeView> {
    Seq::new(notices.len(), |k: int| notices[k]@)
}

/// What the command line asks for. Asking for the directories that are gone
/// comes before a named path, and a named path before the current directory.
#[derive(Clone, Copy, Debug, PartialEq, Eq, Hash, Structural)]
pub enum UnsetMode {
    Nonexistent,
    Path,
    CurrentDir,
}

/// The mode that the flags of the command line select.
pub fn unset_mode(nonexistent: bool, path_given: bool) -> (mode: UnsetMode)
    ensures
        mode == if nonexistent {
            UnsetMode::Nonexistent
        } else if path_given {
            UnsetMode::Path
        } else {
            UnsetMode::CurrentDir
        },
{
    if nonexistent {
        UnsetMode::Nonexistent
    } else if path_given {
        UnsetMode::Path
    } else {
        UnsetMode::CurrentDir
    }
}

/// The directories whose overrides are to go: the bound ones that are gone, or
/// the one path given, as it was given.
pub open spec fn selected_paths(entries: Seq<OverrideEntryView>, target: UnsetTargetView) -> Seq<
    Seq<char>,
> {
    match target {
        UnsetTargetView::Nonexistent(probes) => stale_paths(entries, probes),
        UnsetTargetView::Path(path) => seq![path],
        UnsetTargetView::CurrentDir(path) => seq![path],
    }
}

/// Whether a missing override earns the hint that a path can be named: only
/// when the user asked neither for a path nor for the directories that are gone.
pub open spec fn hints(target: UnsetTargetView) -> bool {
    target is CurrentDir
}

/// The entries after the overrides of `paths` were taken away, first to last.
pub open spec fn entries_after(entries: Seq<OverrideEntryView>, paths: Seq<Seq<char>>) -> Seq<
    OverrideEntryView,
>
    decreases paths.len(),
{
    if paths.len() == 0 {
        entries
    } else {
        without(entries_after(entries, paths.drop_last()), paths.last())
    }
}

/// What is said of taking away the override of `path` from `entries`.
pub open spec fn notices_for(entries: Seq<OverrideEntryView>, path: Seq<char>, hint: bool) -> Seq<
    UnsetNoticeView,
> {
    if is_bound(entries, path) {
        seq![UnsetNoticeView::Removed(path)]
    } else if hint {
        seq![UnsetNoticeView::NotFound(path), UnsetNoticeView::PathHint]
    } else {
        seq![UnsetNoticeView::NotFound(path)]
    }
}

/// What is said while the overrides of `paths` are taken away, first to last.
pub open spec fn notices_after(entries: Seq<OverrideEntryView>, paths: Seq<Seq<char>>, hint: bool) -> Seq<
    UnsetNoticeView,
>
    decreases paths.len(),
{
    if paths.len() == 0 {
        Seq::empty()
    } else {
        notices_after(entries, paths.drop_last(), hint) + notices_for(
            entries_after(entries, paths.drop_last()),
            paths.last(),
            hint,
        )
    }
}

/// All that is said when the target's overrides are taken away from `entries`.
pub open spec fn unset_report(entries: Seq<OverrideEntryView>, target: UnsetTargetView) -> Seq<
    UnsetNoticeView,
> {
    let paths = selected_paths(entries, target);
    let opening = if target is Nonexistent && paths.len() == 0 {
        seq![UnsetNoticeView::NoNonexistentPaths]
    } else {
        Seq::empty()
    };
    opening + notices_after(entries, paths, hints(target))
}

/// The directories whose overrides the target asks to take away.
pub fn select_paths(store: &OverrideStore, target: &UnsetTarget) -> (paths: Vec<String>)
    ensures
        texts(paths@) == selected_paths(store@, target@),
{
    match target {
        UnsetTarget::Nonexistent(probes) => store.nonexistent_paths(probes),
        UnsetTarget::Path(path) => {
            let mut paths: Vec<String> = Vec::new();
            paths.push(path.clone());
            assert(texts(paths@) =~= seq![path@]);
            paths
        },
        UnsetTarget::CurrentDir(path) => {
            let mut paths: Vec<String> = Vec::new();
            paths.push(path.clone());
            assert(texts(paths@) =~= seq![path@]);
            paths
        },
    }
}

/// Takes away the overrides that the target selects, one after the other, and
/// says of each whether it was there.
pub fn override_remove(store: &mut OverrideStore, target: &UnsetTarget) -> (notices: Vec<UnsetNotice>)
    ensures
        final(store)@ == entries_after(old(store)@, selected_paths(old(store)@, target@)),
        notice_views(notices@) == unset_report(old(store)@, target@),
{
    let ghost before = store@;
    let paths = select_paths(store, target);
    let ghost chosen = texts(paths@);
    let hint = match target {
        UnsetTarget::CurrentDir(_) => true,
        _ => false,
    };
    let mut notices: Vec<UnsetNotice> = Vec::new();
    match target {
        UnsetTarget::Nonexistent(_) => {
            if paths.len() == 0 {
                notices.push(UnsetNotice::NoNonexistentPaths);
            }
        },
        _ => {},
    }
    let ghost opening = notice_views(notices@);
    assert(opening =~= if target@ is Nonexistent && chosen.len() == 0 {
        seq![UnsetNoticeView::NoNonexistentPaths]
    } else {
        Seq::empty()
    });
    let mut i: usize = 0;
    assert(chosen.take(0) =~= Seq::empty());
    assert(notice_views(notices@) =~= opening + notices_after(before, chosen.take(0), hint));
    while i < paths.len()
        invariant
            i <= paths.len(),
            chosen == texts(paths@),
            store@ == entries_after(before, chosen.take(i as int)),
            notice_views(notices@) == opening + notices_after(before, chosen.take(i as int), hint),
        decreases paths.len() - i,
    {
        let ghost now = store@;
        let ghost said = notice_views(notices@);
        let path = &paths[i];
        let existed = store.remove_override(path.as_str());
        if existed {
            notices.push(UnsetNotice::Removed(path.clone()));
            assert(notice_views(notices@) =~= said + seq![UnsetNoticeView::Removed(path@)]);
        } else {
            notices.push(UnsetNotice::NotFound(path.clone()));
            if hint {
                notices.push(UnsetNotice::PathHint);
                assert(notice_views(notices@) =~= said + seq![
                    UnsetNoticeView::NotFound(path@),
                    UnsetNoticeView::PathHint,
                ]);
            } else {
                assert(notice_views(notices@) =~= said + seq![UnsetNoticeView::NotFound(path@)]);
            }
        }
        proof {
            let next = chosen.take(i + 1);
            assert(next.drop_last() =~= chosen.take(i as int));
            assert(next.last() == path@);
            assert(notice_views(notices@) =~= opening + notices_after(before, next, hint));
        }
        i += 1;
    }
    assert(chosen.take(i as int) =~= chosen);
    notices
}

/// Every entry that is left after the overrides of `paths` were taken away was
/// there before, and its directory is none of `paths`.
pub proof fn lemma_entries_after(entries: Seq<OverrideEntryView>, paths: Seq<Seq<char>>)
    ensures
        forall|e: OverrideEntryView| #[trigger]
            entries_after(entries, paths).contains(e) ==> entries.contains(e) && !paths.contains(
                e.path,
            ),
    decreases paths.len(),
{
    if paths.len() > 0 {
        let init = paths.drop_last();
        let last = paths.last();
        let left = entries_after(entries, init);
        let keep = |e: OverrideEntryView| e.path != last;
        lemma_entries_after(entries, init);
        assert forall|e: OverrideEntryView| #[trigger]
            entries_after(entries, paths).contains(e) implies entries.contains(e)
            && !paths.contains(e.path) by {
            let k = choose|k: int| 0 <= k < left.filter(keep).len() && left.filter(keep)[k] == e;
            left.lemma_filter_pred(keep, k);
            left.lemma_filter_contains_rev(keep, e);
            if paths.contains(e.path) {
                let j = choose|j: int| 0 <= j < paths.len() && paths[j] == e.path;
                if j < init.len() {
                    assert(init[j] == e.path);
                }
            }
        }
    }
}

/// Taking away the override of a directory that has none is reported as not
/// found, which is no failure, and leaves the store as it was.
pub proof fn lemma_unset_unbound(entries: Seq<OverrideEntryView>, path: Seq<char>)
    requires
        !is_bound(entries, path),
    ensures
        without(entries, path) == entries,
        entries_after(entries, seq![path]) == entries,
        unset_report(entries, UnsetTargetView::Path(path)) == seq![UnsetNoticeView::NotFound(path)],
        unset_report(entries, UnsetTargetView::CurrentDir(path)) == seq![
            UnsetNoticeView::NotFound(path),
            UnsetNoticeView::PathHint,
        ],
{
    let one = seq![path];
    crate::overrides::lemma_filter_all(entries, |e: OverrideEntryView| e.path != path);
    assert(one.drop_last() =~= Seq::empty());
    reveal_with_fuel(entries_after, 2);
    reveal_with_fuel(notices_after, 2);
    assert(entries_after(entries, one) == entries);
    assert(notices_after(entries, one, false) =~= seq![UnsetNoticeView::NotFound(path)]);
    assert(notices_after(entries, one, true) =~= seq![
        UnsetNoticeView::NotFound(path),
        UnsetNoticeView::PathHint,
    ]);
    assert(unset_report(entries, UnsetTargetView::Path(path)) =~= seq![
        UnsetNoticeView::NotFound(path),
    ]);
    assert(unset_report(entries, UnsetTargetView::CurrentDir(path)) =~= seq![
        UnsetNoticeView::NotFound(path),
        UnsetNoticeView::PathHint,
    ]);
}

/// Pruning the overrides of directories that are gone, twice in a row and with
/// the same probes: the second run finds no such directory, says so, and leaves
/// the store as the first run left it.
pub proof fn lemma_prune_idempotent(entries: Seq<OverrideEntryView>, probes: Seq<DirectoryProbeView>)
    ensures
        ({
            let target = UnsetTargetView::Nonexistent(probes);
            let once = entries_after(entries, selected_paths(entries, target));
            &&& selected_paths(once, target) == Seq::<Seq<char>>::empty()
            &&& entries_after(once, selected_paths(once, target)) == once
            &&& unset_report(once, target) == seq![UnsetNoticeView::NoNonexistentPaths]
        }),
{
    let stale = |e: OverrideEntryView| is_stale(probes, e.path);
    let path = |e: OverrideEntryView| e.path;
    let gone = stale_paths(entries, probes);
    let once = entries_after(entries, gone);
    let again = once.filter(stale);
    lemma_entries_after(entries, gone);
    if again.len() > 0 {
        let e = again[0];
        once.lemma_filter_pred(stale, 0);
        once.lemma_filter_contains_rev(stale, e);
        assert(once.contains(e));
        let k = choose|k: int| 0 <= k < entries.len() && entries[k] == e;
        entries.lemma_filter_contains(stale, k);
        let j = choose|j: int| 0 <= j < entries.filter(stale).len() && entries.filter(stale)[j] == e;
        assert(gone[j] == e.path);
        assert(false);
    }
    assert(stale_paths(once, probes) =~= Seq::empty());
    assert(unset_report(once, UnsetTargetView::Nonexistent(probes)) =~= seq![
        UnsetNoticeView::NoNonexistentPaths,
    ]);
}

} // verus!

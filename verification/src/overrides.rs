//! Directory overrides: which toolchain a directory is bound to, and how
//! bindings are taken away again.

use crate::text::{same_text, texts};
use vstd::prelude::*;

verus! {

/// A directory bound to a toolchain.
#[derive(Clone, Debug, PartialEq, Eq, Hash)]
pub struct OverrideEntry {
    pub path: String,
    pub toolchain: String,
}

/// An override as a mathematical value.
pub struct OverrideEntryView {
    pub path: Seq<char>,
    pub toolchain: Seq<char>,
}

impl View for OverrideEntry {
    type V = OverrideEntryView;

    open spec fn view(&self) -> OverrideEntryView {
        OverrideEntryView { path: self.path@, toolchain: self.toolchain@ }
    }
}

/// What was found where an override points: a directory, or none.
#[derive(Clone, Debug, PartialEq, Eq, Hash)]
pub struct DirectoryProbe {
    pub path: String,
    pub is_dir: bool,
}

/// A probe as a mathematical value.
pub struct DirectoryProbeView {
    pub path: Seq<char>,
    pub is_dir: bool,
}

impl View for DirectoryProbe {
    type V = DirectoryProbeView;

    open spec fn view(&self) -> DirectoryProbeView {
        DirectoryProbeView { path: self.path@, is_dir: self.is_dir }
    }
}

/// The overrides, in the order of the settings. No directory is bound twice.
#[derive(Debug, PartialEq, Eq)]
pub struct OverrideStore {
    entries: Vec<OverrideEntry>,
}

/// What each entry holds.
pub open spec fn entry_views(entries: Seq<OverrideEntry>) -> Seq<OverrideEntryView> {
    Seq::new(entries.len(), |k: int| entries[k]@)
}

/// What each probe holds.
pub open spec fn probe_views(probes: Seq<DirectoryProbe>) -> Seq<DirectoryProbeView> {
    Seq::new(probes.len(), |k: int| probes[k]@)
}

/// No two entries bind the same directory.
pub open spec fn distinct_paths(entries: Seq<OverrideEntryView>) -> bool {
    forall|i: int, j: int|
        0 <= i < j < entries.len() ==> (#[trigger] entries[i]).path != (#[trigger] entries[j]).path
}

/// Where the entry for `path` stands, if there is one: the first place from
/// `from` on.
pub open spec fn position_of(entries: Seq<OverrideEntryView>, path: Seq<char>, from: int) -> Option<
    int,
>
    decreases entries.len() - from,
{
    if from < 0 || from >= entries.len() {
        None
    } else if entries[from].path == path {
        Some(from)
    } else {
        position_of(entries, path, from + 1)
    }
}

/// Whether `path` is bound.
pub open spec fn is_bound(entries: Seq<OverrideEntryView>, path: Seq<char>) -> bool {
    exists|k: int| 0 <= k < entries.len() && (#[trigger] entries[k]).path == path
}

/// The entries but the one for `path`.
pub open spec fn without(entries: Seq<OverrideEntryView>, path: Seq<char>) -> Seq<
    OverrideEntryView,
> {
    entries.filter(|e: OverrideEntryView| e.path != path)
}

/// `position_of` finds the first entry for `path` and misses none.
pub proof fn lemma_position_of(entries: Seq<OverrideEntryView>, path: Seq<char>, from: int)
    requires
        0 <= from,
    ensures
        match position_of(entries, path, from) {
            Some(k) => from <= k < entries.len() && entries[k].path == path && forall|j: int|
                from <= j < k ==> (#[trigger] entries[j]).path != path,
            None => forall|j: int| from <= j < entries.len() ==> (#[trigger] entries[j]).path != path,
        },
    decreases entries.len() - from,
{
    if from < entries.len() && entries[from].path != path {
        lemma_position_of(entries, path, from + 1);
    }
}

/// Filtering that keeps everything changes nothing.
pub proof fn lemma_filter_all<A>(s: Seq<A>, keep: spec_fn(A) -> bool)
    requires
        forall|i: int| 0 <= i < s.len() ==> keep(#[trigger] s[i]),
    ensures
        s.filter(keep) == s,
    decreases s.len(),
{
    reveal(Seq::filter);
    if s.len() > 0 {
        lemma_filter_all(s.drop_last(), keep);
        assert(s.drop_last().push(s.last()) =~= s);
    }
}

/// Filtering that drops one element only takes that element out.
pub proof fn lemma_filter_one<A>(s: Seq<A>, k: int, keep: spec_fn(A) -> bool)
    requires
        0 <= k < s.len(),
        !keep(s[k]),
        forall|i: int| 0 <= i < s.len() && i != k ==> keep(#[trigger] s[i]),
    ensures
        s.filter(keep) == s.remove(k),
    decreases s.len(),
{
    reveal(Seq::filter);
    let init = s.drop_last();
    if k == s.len() - 1 {
        lemma_filter_all(init, keep);
        assert(s.remove(k) =~= init);
    } else {
        lemma_filter_one(init, k, keep);
        assert(init.remove(k).push(s.last()) =~= s.remove(k));
    }
}

impl View for OverrideStore {
    type V = Seq<OverrideEntryView>;

    closed spec fn view(&self) -> Seq<OverrideEntryView> {
        entry_views(self.entries@)
    }
}

impl OverrideStore {
    #[verifier::type_invariant]
    spec fn well_formed(&self) -> bool {
        distinct_paths(entry_views(self.entries@))
    }

    /// The store without any override.
    pub fn new() -> (store: OverrideStore)
        ensures
            store@ == Seq::<OverrideEntryView>::empty(),
    {
        let store = OverrideStore { entries: Vec::new() };
        assert(store@ =~= Seq::empty());
        store
    }

    /// The store that holds `entries`, unless they bind a directory twice.
    pub fn from_entries(entries: Vec<OverrideEntry>) -> (store: Option<OverrideStore>)
        ensures
            match store {
                Some(s) => distinct_paths(entry_views(entries@)) && s@ == entry_views(entries@),
                None => !distinct_paths(entry_views(entries@)),
            },
    {
        let ghost views = entry_views(entries@);
        let mut j: usize = 0;
        while j < entries.len()
            invariant
                j <= entries.len(),
                views == entry_views(entries@),
                distinct_paths(views.take(j as int)),
            decreases entries.len() - j,
        {
            let mut i: usize = 0;
            while i < j
                invariant
                    i <= j < entries.len(),
                    views == entry_views(entries@),
                    forall|k: int| 0 <= k < i ==> (#[trigger] views[k]).path != views[j as int].path,
                decreases j - i,
            {
                if entries[i].path == entries[j].path {
                    assert(views[i as int].path == views[j as int].path);
                    return None;
                }
                i += 1;
            }
            assert(distinct_paths(views.take(j + 1))) by {
                assert forall|a: int, b: int| 0 <= a < b < j + 1 implies (#[trigger] views.take(
                    j + 1,
                )[a]).path != (#[trigger] views.take(j + 1)[b]).path by {
                    if b < j {
                        assert(views.take(j as int)[a].path != views.take(j as int)[b].path);
                    }
                }
            }
            j += 1;
        }
        assert(views.take(j as int) =~= views);
        Some(OverrideStore { entries })
    }

    /// How many directories are bound.
    pub fn len(&self) -> (n: usize)
        ensures
            n == self@.len(),
    {
        self.entries.len()
    }

    /// The overrides, in the order of the settings.
    pub fn entries(&self) -> (entries: &Vec<OverrideEntry>)
        ensures
            entry_views(entries@) == self@,
            distinct_paths(self@),
    {
        proof {
            use_type_invariant(self);
        }
        &self.entries
    }

    /// The toolchain that `path` itself is bound to, if it is bound.
    pub fn toolchain_for(&self, path: &str) -> (found: Option<String>)
        ensures
            match found {
                Some(toolchain) => position_of(self@, path@, 0) matches Some(k) && toolchain@
                    == self@[k].toolchain,
                None => !is_bound(self@, path@),
            },
    {
        let mut i: usize = 0;
        while i < self.entries.len()
            invariant
                i <= self.entries.len(),
                forall|k: int| 0 <= k < i ==> (#[trigger] self@[k]).path != path@,
            decreases self.entries.len() - i,
        {
            if same_text(self.entries[i].path.as_str(), path) {
                proof {
                    lemma_position_of(self@, path@, 0);
                    assert(self@[i as int].path == path@);
                }
                return Some(self.entries[i].toolchain.clone());
            }
            i += 1;
        }
        None
    }

    /// Takes the binding of `path` away. Says whether there was one; if there
    /// was none, nothing changes.
    pub fn remove_override(&mut self, path: &str) -> (existed: bool)
        ensures
            existed == is_bound(old(self)@, path@),
            final(self)@ == without(old(self)@, path@),
            !existed ==> final(self)@ == old(self)@,
    {
        let ghost before = self@;
        let ghost keep = |e: OverrideEntryView| e.path != path@;
        proof {
            use_type_invariant(&*self);
        }
        let mut i: usize = 0;
        while i < self.entries.len()
            invariant
                i <= self.entries.len(),
                self@ == before,
                before == old(self)@,
                keep == |e: OverrideEntryView| e.path != path@,
                distinct_paths(before),
                forall|k: int| 0 <= k < i ==> (#[trigger] before[k]).path != path@,
            decreases self.entries.len() - i,
        {
            if same_text(self.entries[i].path.as_str(), path) {
                assert(before[i as int].path == path@);
                let mut taken: Vec<OverrideEntry> = Vec::new();
                std::mem::swap(&mut self.entries, &mut taken);
                let _ = taken.remove(i);
                assert(entry_views(taken@) =~= before.remove(i as int));
                std::mem::swap(&mut self.entries, &mut taken);
                proof {
                    lemma_filter_one(before, i as int, keep);
                }
                return true;
            }
            i += 1;
        }
        proof {
            lemma_filter_all(before, keep);
        }
        false
    }
}

/// What the probes say of `path`: the first of them, from `from` on, that is
/// about `path`.
pub open spec fn probed(probes: Seq<DirectoryProbeView>, path: Seq<char>, from: int) -> Option<
    bool,
>
    decreases probes.len() - from,
{
    if from < 0 || from >= probes.len() {
        None
    } else if probes[from].path == path {
        Some(probes[from].is_dir)
    } else {
        probed(probes, path, from + 1)
    }
}

/// `path` was probed and no directory was found there. A path that was not
/// probed is not known to be gone.
pub open spec fn is_stale(probes: Seq<DirectoryProbeView>, path: Seq<char>) -> bool {
    probed(probes, path, 0) == Some(false)
}

/// The bound directories that are gone, in the order of the settings.
pub open spec fn stale_paths(entries: Seq<OverrideEntryView>, probes: Seq<DirectoryProbeView>) -> Seq<
    Seq<char>,
> {
    entries.filter(|e: OverrideEntryView| is_stale(probes, e.path)).map_values(
        |e: OverrideEntryView| e.path,
    )
}

/// What the probes say of `path`.
pub fn probe_of(probes: &Vec<DirectoryProbe>, path: &str) -> (found: Option<bool>)
    ensures
        found == probed(probe_views(probes@), path@, 0),
{
    let ghost views = probe_views(probes@);
    let mut i: usize = 0;
    while i < probes.len()
        invariant
            i <= probes.len(),
            views == probe_views(probes@),
            probed(views, path@, 0) == probed(views, path@, i as int),
        decreases probes.len() - i,
    {
        if same_text(probes[i].path.as_str(), path) {
            assert(views[i as int].path == path@);
            return Some(probes[i].is_dir);
        }
        assert(views[i as int].path != path@);
        i += 1;
    }
    None
}

impl OverrideStore {
    /// The bound directories, in the order of the settings.
    pub fn paths(&self) -> (paths: Vec<String>)
        ensures
            texts(paths@) == self@.map_values(|e: OverrideEntryView| e.path),
    {
        let mut paths: Vec<String> = Vec::new();
        let mut i: usize = 0;
        while i < self.entries.len()
            invariant
                i <= self.entries.len(),
                texts(paths@) == self@.take(i as int).map_values(|e: OverrideEntryView| e.path),
            decreases self.entries.len() - i,
        {
            let ghost before = texts(paths@);
            paths.push(self.entries[i].path.clone());
            assert(texts(paths@) =~= before.push(self@[i as int].path));
            assert(texts(paths@) =~= self@.take(i + 1).map_values(|e: OverrideEntryView| e.path));
            i += 1;
        }
        assert(self@.take(i as int) =~= self@);
        paths
    }

    /// The bound directories that the probes found gone, in the order of the
    /// settings.
    pub fn nonexistent_paths(&self, probes: &Vec<DirectoryProbe>) -> (gone: Vec<String>)
        ensures
            texts(gone@) == stale_paths(self@, probe_views(probes@)),
    {
        let ghost views = probe_views(probes@);
        let ghost stale = |e: OverrideEntryView| is_stale(views, e.path);
        let ghost path = |e: OverrideEntryView| e.path;
        let mut gone: Vec<String> = Vec::new();
        let mut i: usize = 0;
        proof {
            reveal(Seq::filter);
            assert(self@.take(0) =~= Seq::empty());
            assert(texts(gone@) =~= self@.take(0).filter(stale).map_values(path));
        }
        while i < self.entries.len()
            invariant
                i <= self.entries.len(),
                views == probe_views(probes@),
                stale == |e: OverrideEntryView| is_stale(views, e.path),
                path == |e: OverrideEntryView| e.path,
                texts(gone@) == self@.take(i as int).filter(stale).map_values(path),
            decreases self.entries.len() - i,
        {
            let entry = &self.entries[i];
            let found = probe_of(probes, entry.path.as_str());
            let is_gone = match found {
                Some(is_dir) => !is_dir,
                None => false,
            };
            proof {
                assert(is_gone == stale(self@[i as int]));
                assert(self@.take(i + 1) =~= self@.take(i as int).push(self@[i as int]));
                self@.take(i as int).lemma_filter_push(self@[i as int], stale);
            }
            if is_gone {
                let ghost before = texts(gone@);
                let ghost kept = self@.take(i as int).filter(stale);
                gone.push(entry.path.clone());
                assert(texts(gone@) =~= before.push(entry.path@));
                assert(kept.push(self@[i as int]).map_values(path) =~= kept.map_values(path).push(
                    entry.path@,
                ));
            }
            i += 1;
        }
        assert(self@.take(i as int) =~= self@);
        gone
    }
}

} // verus!

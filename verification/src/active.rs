//! The active toolchain: the one that an override binds the current directory
//! or one of its ancestors to, or else the default.

use crate::errors::Error;
use crate::overrides::{is_bound, position_of, OverrideEntryView, OverrideStore};
use crate::text::{text_of, texts};
use vstd::prelude::*;

verus! {

/// Why a toolchain other than the default is active: the override of this
/// directory applies.
#[derive(Clone, Debug, PartialEq, Eq, Hash)]
pub struct OverrideReason {
    pub directory: String,
}

/// The toolchain that is active, and the reason if an override made it so.
/// There is a reason exactly when an override supplied the toolchain.
#[derive(Clone, Debug, PartialEq, Eq, Hash)]
pub struct ActiveToolchain {
    pub name: String,
    pub reason: Option<OverrideReason>,
}

/// An active toolchain as a mathematical value.
pub struct ActiveToolchainView {
    pub name: Seq<char>,
    pub reason: Option<Seq<char>>,
}

impl View for ActiveToolchain {
    type V = ActiveToolchainView;

    open spec fn view(&self) -> ActiveToolchainView {
        ActiveToolchainView {
            name: self.name@,
            reason: match self.reason {
                Some(reason) => Some(reason.directory@),
                None => None,
            },
        }
    }
}

/// The first of `dirs`, from `from` on, that is bound.
pub open spec fn first_bound(entries: Seq<OverrideEntryView>, dirs: Seq<Seq<char>>, from: int) -> Option<
    int,
>
    decreases dirs.len() - from,
{
    if from < 0 || from >= dirs.len() {
        None
    } else if is_bound(entries, dirs[from]) {
        Some(from)
    } else {
        first_bound(entries, dirs, from + 1)
    }
}

/// The toolchain that is active in a directory, before the registry is asked
/// for it. `dirs` holds the directory and then its ancestors, nearest first. An
/// override of the nearest bound one of them comes before the default, and is
/// the reason given; without any override the default is active, for no reason;
/// without a default either, no toolchain is.
pub open spec fn active_choice(
    entries: Seq<OverrideEntryView>,
    dirs: Seq<Seq<char>>,
    default_name: Option<Seq<char>>,
) -> Option<ActiveToolchainView> {
    match first_bound(entries, dirs, 0) {
        Some(k) => Some(
            ActiveToolchainView {
                name: entries[position_of(entries, dirs[k], 0).unwrap()].toolchain,
                reason: Some(dirs[k]),
            },
        ),
        None => match default_name {
            Some(name) => Some(ActiveToolchainView { name, reason: None }),
            None => None,
        },
    }
}

/// The first bound directory is bound, and none before it is.
pub proof fn lemma_first_bound(entries: Seq<OverrideEntryView>, dirs: Seq<Seq<char>>, from: int)
    requires
        0 <= from,
    ensures
        match first_bound(entries, dirs, from) {
            Some(k) => from <= k < dirs.len() && is_bound(entries, dirs[k]) && forall|j: int|
                from <= j < k ==> !is_bound(entries, #[trigger] dirs[j]),
            None => forall|j: int| from <= j < dirs.len() ==> !is_bound(entries, #[trigger] dirs[j]),
        },
    decreases dirs.len() - from,
{
    if from < dirs.len() && !is_bound(entries, dirs[from]) {
        lemma_first_bound(entries, dirs, from + 1);
    }
}

/// An override supplies the reason, the default none; and where anything is
/// bound or a default is set, some toolchain is active.
pub proof fn lemma_active_choice(
    entries: Seq<OverrideEntryView>,
    dirs: Seq<Seq<char>>,
    default_name: Option<Seq<char>>,
)
    ensures
        match active_choice(entries, dirs, default_name) {
            Some(active) => match active.reason {
                Some(dir) => dirs.contains(dir) && is_bound(entries, dir),
                None => default_name == Some(active.name) && forall|j: int|
                    0 <= j < dirs.len() ==> !is_bound(entries, #[trigger] dirs[j]),
            },
            None => default_name is None && forall|j: int|
                0 <= j < dirs.len() ==> !is_bound(entries, #[trigger] dirs[j]),
        },
{
    lemma_first_bound(entries, dirs, 0);
}

/// The toolchain that is active in the directory of which `dirs` holds the path
/// and then the paths of its ancestors, nearest first.
pub fn choose_active(store: &OverrideStore, dirs: &Vec<String>, default_name: Option<&str>) -> (chosen:
    Option<ActiveToolchain>)
    ensures
        match chosen {
            Some(active) => active_choice(store@, texts(dirs@), text_of(default_name)) == Some(
                active@,
            ),
            None => active_choice(store@, texts(dirs@), text_of(default_name)) is None,
        },
{
    let ghost paths = texts(dirs@);
    let mut i: usize = 0;
    while i < dirs.len()
        invariant
            i <= dirs.len(),
            paths == texts(dirs@),
            first_bound(store@, paths, 0) == first_bound(store@, paths, i as int),
        decreases dirs.len() - i,
    {
        match store.toolchain_for(dirs[i].as_str()) {
            Some(name) => {
                proof {
                    crate::overrides::lemma_position_of(store@, paths[i as int], 0);
                }
                return Some(
                    ActiveToolchain {
                        name,
                        reason: Some(OverrideReason { directory: dirs[i].clone() }),
                    },
                );
            },
            None => {},
        }
        i += 1;
    }
    match default_name {
        Some(name) => Some(ActiveToolchain { name: name.to_owned(), reason: None }),
        None => None,
    }
}

/// The active toolchain once the registry was asked for the one chosen. A
/// toolchain that the registry does not have is a failure, which is handed on
/// as it came, cause included; the toolchain it has is active under the name the
/// registry gives it, for the reason it was chosen.
pub fn confirm_active(chosen: ActiveToolchain, resolved: Result<String, Error>) -> (confirmed: Result<
    ActiveToolchain,
    Error,
>)
    ensures
        match resolved {
            Ok(name) => confirmed matches Ok(active) && active.name == name && active.reason
                == chosen.reason,
            Err(e) => confirmed == Err::<ActiveToolchain, Error>(e),
        },
{
    match resolved {
        Ok(name) => Ok(ActiveToolchain { name, reason: chosen.reason }),
        Err(e) => Err(e),
    }
}

} // verus!

//! What a command does once it knows the toolchain it was given: decisions that
//! need nothing but plain facts about it.

use crate::errors::{Error, ErrorKindView, ErrorView};
use crate::text::{glue, holds, same_text, texts};
use vstd::prelude::*;

verus! {

/// What a toolchain is wanted for.
#[derive(Clone, Copy, Debug, PartialEq, Eq, Hash, Structural)]
pub enum Purpose {
    /// To be installed or brought up to date.
    Update,
    /// To become the default.
    SetDefault,
    /// To be bound to a directory.
    SetOverride,
}

/// How the toolchain is made ready.
#[derive(Clone, Debug, PartialEq, Eq, Hash)]
pub enum Provision {
    /// Install or update it from the distribution server.
    InstallFromDist,
    /// Install it from the distribution server unless it is installed.
    InstallIfMissing,
    /// It is a custom toolchain and in place: nothing to do.
    UseInstalled,
    /// It is a custom toolchain and not there: the command fails.
    Fail(Error),
}

/// Provision as a mathematical value.
pub enum ProvisionView {
    InstallFromDist,
    InstallIfMissing,
    UseInstalled,
    Fail(ErrorView),
}

impl View for Provision {
    type V = ProvisionView;

    open spec fn view(&self) -> ProvisionView {
        match *self {
            Provision::InstallFromDist => ProvisionView::InstallFromDist,
            Provision::InstallIfMissing => ProvisionView::InstallIfMissing,
            Provision::UseInstalled => ProvisionView::UseInstalled,
            Provision::Fail(e) => ProvisionView::Fail(e@),
        }
    }
}

/// How the toolchain `name` is made ready. One that the distribution server
/// has is installed from there: anew for an update, else only if missing. A
/// custom one must be in place already; one that is not there cannot be
/// updated, because its name is no distributed toolchain's, and cannot be made
/// the default or an override, because it is not installed.
pub open spec fn provision_of(purpose: Purpose, name: Seq<char>, is_custom: bool, exists: bool) -> ProvisionView {
    if !is_custom {
        if purpose == Purpose::Update {
            ProvisionView::InstallFromDist
        } else {
            ProvisionView::InstallIfMissing
        }
    } else if !exists {
        ProvisionView::Fail(
            ErrorView {
                kind: if purpose == Purpose::Update {
                    ErrorKindView::InvalidToolchainName(name)
                } else {
                    ErrorKindView::ToolchainNotInstalled(name)
                },
                cause: None,
            },
        )
    } else {
        ProvisionView::UseInstalled
    }
}

/// How the toolchain `name` is made ready for `purpose`.
pub fn provision(purpose: Purpose, name: &str, is_custom: bool, exists: bool) -> (how: Provision)
    ensures
        how@ == provision_of(purpose, name@, is_custom, exists),
{
    if !is_custom {
        match purpose {
            Purpose::Update => Provision::InstallFromDist,
            _ => Provision::InstallIfMissing,
        }
    } else if !exists {
        match purpose {
            Purpose::Update => Provision::Fail(Error::invalid_toolchain_name(name)),
            _ => Provision::Fail(Error::toolchain_not_installed(name)),
        }
    } else {
        Provision::UseInstalled
    }
}

/// A component of a toolchain, as the registry lists it.
#[derive(Clone, Debug, PartialEq, Eq, Hash)]
pub struct ComponentStatus {
    pub name: String,
    pub target: Option<String>,
    pub installed: bool,
}

/// A component as a mathematical value.
pub struct ComponentStatusView {
    pub name: Seq<char>,
    pub target: Option<Seq<char>>,
    pub installed: bool,
}

impl View for ComponentStatus {
    type V = ComponentStatusView;

    open spec fn view(&self) -> ComponentStatusView {
        ComponentStatusView {
            name: self.name@,
            target: match self.target {
                Some(target) => Some(target@),
                None => None,
            },
            installed: self.installed,
        }
    }
}

/// What each component holds.
pub open spec fn component_views(components: Seq<ComponentStatus>) -> Seq<ComponentStatusView> {
    Seq::new(components.len(), |k: int| components[k]@)
}

/// The component is an installed standard library; there is one for each
/// target that the toolchain can build for.
pub open spec fn is_installed_std(c: ComponentStatusView) -> bool {
    c.name == "rust-std"@ && c.installed
}

/// The targets that a toolchain can build for: those of its installed standard
/// libraries, in the order of the listing.
pub open spec fn installed_targets_of(components: Seq<ComponentStatusView>) -> Seq<Seq<char>> {
    components.filter(|c: ComponentStatusView| is_installed_std(c)).map_values(
        |c: ComponentStatusView| c.target.unwrap(),
    )
}

/// The targets that a toolchain with these components can build for. Every
/// standard library is for a target.
pub fn installed_targets(components: &Vec<ComponentStatus>) -> (targets: Vec<String>)
    requires
        forall|k: int|
            0 <= k < components.len() && is_installed_std(#[trigger] components[k]@)
                ==> components[k].target is Some,
    ensures
        texts(targets@) == installed_targets_of(component_views(components@)),
{
    let ghost all = component_views(components@);
    let ghost wanted = |c: ComponentStatusView| is_installed_std(c);
    let ghost target = |c: ComponentStatusView| c.target.unwrap();
    let mut targets: Vec<String> = Vec::new();
    let mut i: usize = 0;
    proof {
        reveal(Seq::filter);
        assert(all.take(0) =~= Seq::empty());
        assert(texts(targets@) =~= all.take(0).filter(wanted).map_values(target));
    }
    while i < components.len()
        invariant
            i <= components.len(),
            all == component_views(components@),
            wanted == |c: ComponentStatusView| is_installed_std(c),
            target == |c: ComponentStatusView| c.target.unwrap(),
            forall|k: int|
                0 <= k < components.len() && is_installed_std(#[trigger] components[k]@)
                    ==> components[k].target is Some,
            texts(targets@) == all.take(i as int).filter(wanted).map_values(target),
        decreases components.len() - i,
    {
        let c = &components[i];
        let keep = c.installed && same_text(c.name.as_str(), "rust-std");
        proof {
            assert(keep == wanted(all[i as int]));
            assert(all.take(i + 1) =~= all.take(i as int).push(all[i as int]));
            all.take(i as int).lemma_filter_push(all[i as int], wanted);
        }
        if keep {
            let ghost before = texts(targets@);
            let ghost kept = all.take(i as int).filter(wanted);
            match &c.target {
                Some(t) => {
                    targets.push(t.clone());
                    assert(texts(targets@) =~= before.push(t@));
                    assert(kept.push(all[i as int]).map_values(target) =~= kept.map_values(
                        target,
                    ).push(t@));
                },
                None => {
                    assert(false);
                },
            }
        }
        i += 1;
    }
    assert(all.take(i as int) =~= all);
    targets
}

/// The documents that come with a toolchain, each named by the flag that asks
/// for it, in the order in which the flags are looked at.
pub open spec fn doc_topics() -> Seq<Seq<char>> {
    seq![
        "alloc"@,
        "book"@,
        "cargo"@,
        "core"@,
        "edition-guide"@,
        "nomicon"@,
        "proc_macro"@,
        "reference"@,
        "rust-by-example"@,
        "rustc"@,
        "rustdoc"@,
        "std"@,
        "test"@,
        "unstable-book"@,
    ]
}

/// What each name holds.
pub open spec fn name_views(names: Seq<&'static str>) -> Seq<Seq<char>> {
    Seq::new(names.len(), |k: int| names[k]@)
}

/// The documents that come with a toolchain, each named by its flag.
pub fn doc_topic_names() -> (names: Vec<&'static str>)
    ensures
        name_views(names@) == doc_topics(),
{
    let names = vec![
        "alloc",
        "book",
        "cargo",
        "core",
        "edition-guide",
        "nomicon",
        "proc_macro",
        "reference",
        "rust-by-example",
        "rustc",
        "rustdoc",
        "std",
        "test",
        "unstable-book",
    ];
    assert(name_views(names@) =~= doc_topics());
    names
}

/// The first document, from `from` on, whose flag is among `flags`.
pub open spec fn first_topic(flags: Seq<Seq<char>>, from: int) -> Option<Seq<char>>
    decreases doc_topics().len() - from,
{
    if from < 0 || from >= doc_topics().len() {
        None
    } else if flags.contains(doc_topics()[from]) {
        Some(doc_topics()[from])
    } else {
        first_topic(flags, from + 1)
    }
}

/// The page of the documentation to open: the index of the first document
/// whose flag was given, or the index of them all.
pub open spec fn doc_page_of(flags: Seq<Seq<char>>) -> Seq<char> {
    match first_topic(flags, 0) {
        Some(topic) => topic + "/index.html"@,
        None => "index.html"@,
    }
}

/// The page of the documentation to open, its path given from the root of the
/// documentation, for the flags that the user gave.
pub fn doc_page(flags: &Vec<String>) -> (page: String)
    ensures
        page@ == doc_page_of(texts(flags@)),
{
    let names = doc_topic_names();
    let mut i: usize = 0;
    while i < names.len()
        invariant
            i <= names.len(),
            name_views(names@) == doc_topics(),
            first_topic(texts(flags@), 0) == first_topic(texts(flags@), i as int),
        decreases names.len() - i,
    {
        assert(name_views(names@)[i as int] == names[i as int]@);
        if holds(flags, names[i]) {
            let page = glue(names[i], "/index.html", "");
            proof {
                reveal_strlit("");
                assert(page@ =~= names[i as int]@ + "/index.html"@);
            }
            return page;
        }
        i += 1;
    }
    "index.html".to_owned()
}

} // verus!

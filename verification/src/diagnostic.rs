//! What to tell a user who gave a target triple where the name of a toolchain
//! was expected.

use crate::descriptor::{descriptor_of, DescriptorView, ToolchainDescriptor};
use crate::errors::{Error, ErrorKindView, ErrorView};
use crate::text::{same_text, text_of, texts};
use crate::triple::{triple_of, PartialTriple};
use vstd::prelude::*;

verus! {

/// What the user is told besides the warning that a triple was given.
#[derive(Clone, Debug, PartialEq, Eq, Hash)]
pub enum Advice {
    /// No installed toolchain goes with the triple; this is reported as the
    /// failure `NoCandidateToolchains`.
    NoCandidates,
    /// This one toolchain may be meant.
    UseToolchain(String),
    /// One of these toolchains may be meant; they are listed one to a line, in
    /// the order in which the registry gave them.
    UseOneOf(Vec<String>),
    /// The triple leads to the toolchain that is the default already.
    AlreadyDefault,
}

/// Advice as a mathematical value.
pub enum AdviceView {
    NoCandidates,
    UseToolchain(Seq<char>),
    UseOneOf(Seq<Seq<char>>),
    AlreadyDefault,
}

impl View for Advice {
    type V = AdviceView;

    open spec fn view(&self) -> AdviceView {
        match *self {
            Advice::NoCandidates => AdviceView::NoCandidates,
            Advice::UseToolchain(name) => AdviceView::UseToolchain(name@),
            Advice::UseOneOf(names) => AdviceView::UseOneOf(texts(names@)),
            Advice::AlreadyDefault => AdviceView::AlreadyDefault,
        }
    }
}

/// The finding that a triple was given in place of a toolchain's name: what to
/// tell the user, and the failure that the command ends in. Advice is never a
/// resolution: the command fails whatever the advice.
#[derive(Clone, Debug, PartialEq, Eq, Hash)]
pub struct Diagnosis {
    pub advice: Advice,
    pub error: Error,
}

/// How the check of a name ended.
#[derive(Clone, Debug, PartialEq, Eq, Hash)]
pub enum TripleCheck {
    /// The name is no triple: go on and look it up as a toolchain's name.
    NotATriple,
    /// The name is a triple: warn that it is, give the advice, and fail.
    Diagnosed(Diagnosis),
}

/// Whether the installed toolchain `name` is suggested for the query: it is not
/// the default, its name describes a toolchain, and the query accepts the triple
/// in that name.
pub open spec fn is_candidate(
    query: PartialTriple,
    default_name: Option<Seq<char>>,
    name: Seq<char>,
) -> bool {
    &&& default_name != Some(name)
    &&& descriptor_of(name) matches Some(d) && query.admits(d.triple)
}

/// The installed toolchains that are suggested for the query, in the order in
/// which they are installed.
pub open spec fn candidates_of(
    query: PartialTriple,
    installed: Seq<Seq<char>>,
    default_name: Option<Seq<char>>,
) -> Seq<Seq<char>> {
    installed.filter(|name: Seq<char>| is_candidate(query, default_name, name))
}

/// What is said of the candidates: that there are none, the one, or all of them.
pub open spec fn advice_for(candidates: Seq<Seq<char>>) -> AdviceView {
    if candidates.len() == 0 {
        AdviceView::NoCandidates
    } else if candidates.len() == 1 {
        AdviceView::UseToolchain(candidates[0])
    } else {
        AdviceView::UseOneOf(candidates)
    }
}

/// The failure in which every diagnosis ends: the name as it was given is not an
/// installed toolchain.
pub open spec fn not_installed(name: Seq<char>) -> ErrorView {
    ErrorView { kind: ErrorKindView::ToolchainNotInstalled(name), cause: None }
}

/// The installed toolchains to suggest for the triple `query`.
pub fn candidates(query: &PartialTriple, installed: &Vec<String>, default_name: Option<&str>) -> (found:
    Vec<String>)
    ensures
        texts(found@) == candidates_of(*query, texts(installed@), text_of(default_name)),
{
    let ghost names = texts(installed@);
    let ghost wanted = |name: Seq<char>| is_candidate(*query, text_of(default_name), name);
    let mut found: Vec<String> = Vec::new();
    let mut i: usize = 0;
    assert(names.take(0) =~= Seq::empty());
    assert(texts(found@) =~= Seq::empty());
    proof {
        reveal(Seq::filter);
    }
    while i < installed.len()
        invariant
            i <= installed.len(),
            names == texts(installed@),
            wanted == |name: Seq<char>| is_candidate(*query, text_of(default_name), name),
            texts(found@) == names.take(i as int).filter(wanted),
        decreases installed.len() - i,
    {
        let name = &installed[i];
        let is_default = match default_name {
            Some(d) => same_text(name.as_str(), d),
            None => false,
        };
        let mut keep = false;
        if !is_default {
            match ToolchainDescriptor::parse(name.as_str(), false) {
                Some(described) => {
                    keep = query.matches(&described.triple);
                },
                None => {},
            }
        }
        proof {
            assert(keep == wanted(name@));
            assert(names.take(i + 1) =~= names.take(i as int).push(name@));
            names.take(i as int).lemma_filter_push(name@, wanted);
        }
        if keep {
            let ghost before = texts(found@);
            found.push(name.clone());
            assert(texts(found@) =~= before.push(name@));
        }
        i += 1;
    }
    assert(names.take(i as int) =~= names);
    found
}

/// What to say of the candidates.
pub fn advise(mut candidates: Vec<String>) -> (advice: Advice)
    ensures
        advice@ == advice_for(texts(candidates@)),
{
    if candidates.len() == 0 {
        Advice::NoCandidates
    } else if candidates.len() == 1 {
        let ghost all = texts(candidates@);
        let only = candidates.remove(0);
        assert(only@ == all[0]);
        Advice::UseToolchain(only)
    } else {
        Advice::UseOneOf(candidates)
    }
}

/// Checks a name given to a command that installs or updates toolchains. A name
/// that is no triple passes. A triple does not: the user is shown the installed
/// toolchains, the default apart, whose names carry what the triple asks for,
/// and the command fails.
pub fn update_bare_triple_check(
    name: &str,
    installed: &Vec<String>,
    default_name: Option<&str>,
) -> (checked: TripleCheck)
    ensures
        checked is NotATriple <==> triple_of(name@) is None,
        match checked {
            TripleCheck::NotATriple => true,
            TripleCheck::Diagnosed(d) => {
                &&& d.advice@ == advice_for(
                    candidates_of(
                        triple_of(name@).unwrap(),
                        texts(installed@),
                        text_of(default_name),
                    ),
                )
                &&& d.error@ == not_installed(name@)
            },
        },
{
    match PartialTriple::parse(name) {
        None => TripleCheck::NotATriple,
        Some(query) => {
            let found = candidates(&query, installed, default_name);
            TripleCheck::Diagnosed(
                Diagnosis { advice: advise(found), error: Error::toolchain_not_installed(name) },
            )
        },
    }
}

/// How the check of a name given to the command that sets the default goes on.
#[derive(Clone, Debug, PartialEq, Eq, Hash)]
pub enum DefaultTripleCheck {
    /// The name is no triple: go on and look it up as a toolchain's name.
    NotATriple,
    /// The name is a triple, so the warning is due, but there is no default
    /// toolchain whose channel the triple could go with: go on as for a name.
    NoDefault,
    /// The name is a triple. Look up the toolchain of this name, which is the
    /// default's channel with the triple, without creating it, and hand what
    /// comes back to `default_bare_triple_report`.
    Lookup(String),
}

/// The default toolchain's name with its triple replaced by the one that `name`
/// is, where `name` is a triple and the default's name describes a toolchain.
pub open spec fn merged_name(name: Seq<char>, default_name: Option<Seq<char>>) -> Option<
    Seq<char>,
> {
    match (triple_of(name), default_name) {
        (Some(triple), Some(current)) => match descriptor_of(current) {
            Some(d) => Some((DescriptorView { channel: d.channel, triple }).text()),
            None => None,
        },
        _ => None,
    }
}

/// What is said once the merged name was looked up and `resolved` came back.
pub open spec fn default_advice(default_name: Seq<char>, resolved: Seq<char>) -> AdviceView {
    if resolved == default_name {
        AdviceView::AlreadyDefault
    } else {
        AdviceView::UseToolchain(resolved)
    }
}

/// Checks a name given to the command that sets the default toolchain. A name
/// that is no triple passes. For a triple, the toolchain to suggest is the
/// current default's on the platform that the triple names: the default's
/// channel with the triple in place of its own.
pub fn default_bare_triple_check(name: &str, default_name: Option<&str>) -> (checked:
    DefaultTripleCheck)
    ensures
        checked is NotATriple <==> triple_of(name@) is None,
        match checked {
            DefaultTripleCheck::NotATriple => true,
            DefaultTripleCheck::NoDefault => merged_name(name@, text_of(default_name)) is None,
            DefaultTripleCheck::Lookup(merged) => merged_name(name@, text_of(default_name))
                == Some(merged@),
        },
{
    match PartialTriple::parse(name) {
        None => DefaultTripleCheck::NotATriple,
        Some(triple) => {
            let described = match default_name {
                Some(current) => ToolchainDescriptor::parse(current, false),
                None => None,
            };
            match described {
                Some(current) => DefaultTripleCheck::Lookup(current.with_triple(triple).render()),
                None => DefaultTripleCheck::NoDefault,
            }
        },
    }
}

/// Ends the check of a triple given to the command that sets the default, once
/// the registry has answered the lookup of the merged name. A failed lookup is
/// handed on as it is. A toolchain that is the default already earns a warning,
/// any other is suggested, and the command fails either way.
pub fn default_bare_triple_report(
    name: &str,
    default_name: &str,
    resolved: Result<String, Error>,
) -> (reported: Result<Diagnosis, Error>)
    ensures
        match resolved {
            Ok(found) => reported matches Ok(d) && d.advice@ == default_advice(
                default_name@,
                found@,
            ) && d.error@ == not_installed(name@),
            Err(e) => reported == Err::<Diagnosis, Error>(e),
        },
{
    match resolved {
        Ok(found) => {
            let advice = if same_text(found.as_str(), default_name) {
                Advice::AlreadyDefault
            } else {
                Advice::UseToolchain(found)
            };
            Ok(Diagnosis { advice, error: Error::toolchain_not_installed(name) })
        },
        Err(e) => Err(e),
    }
}

/// The name that is looked up for a triple is the default's channel, a dash,
/// and the triple as it was given. It is never the name that was given.
pub proof fn lemma_merged_name(name: Seq<char>, default_name: Seq<char>)
    requires
        merged_name(name, Some(default_name)) is Some,
    ensures
        ({
            let merged = merged_name(name, Some(default_name)).unwrap();
            let channel = descriptor_of(default_name).unwrap().channel;
            &&& channel.len() > 0
            &&& merged == channel + seq!['-'] + name
            &&& merged != name
        }),
{
    crate::descriptor::lemma_descriptor_of(default_name);
    crate::triple::lemma_triple_of(name, triple_of(name).unwrap());
}

/// Looking up the merged name leads either to the default, and then the user is
/// only warned that it does, or to another toolchain, and then that one is
/// suggested. The name that was given is not suggested as long as the registry
/// does not answer with that very name.
pub proof fn lemma_default_advice(name: Seq<char>, default_name: Seq<char>, resolved: Seq<char>)
    requires
        merged_name(name, Some(default_name)) is Some,
        resolved != name,
    ensures
        default_advice(default_name, resolved) == AdviceView::AlreadyDefault <==> resolved
            == default_name,
        resolved != default_name ==> default_advice(default_name, resolved)
            == AdviceView::UseToolchain(resolved),
        default_advice(default_name, resolved) != AdviceView::UseToolchain(name),
{
}

/// A registry that answers with canonical names never answers with the triple
/// that was given: no name is both a toolchain's and a triple.
pub proof fn lemma_canonical_answer(name: Seq<char>, resolved: Seq<char>)
    requires
        triple_of(name) is Some,
        descriptor_of(resolved) is Some,
    ensures
        resolved != name,
{
}

} // verus!

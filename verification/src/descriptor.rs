//! Toolchain descriptors: the channel of a toolchain and the triple that its
//! canonical name ends in.

use crate::text::chars_of;
use crate::triple::{triple_of, PartialTriple};
use vstd::prelude::*;

verus! {

/// What a toolchain's canonical name says: a channel, which this library does
/// not look into, and the target it was built for, as far as the name gives it.
#[derive(Clone, Debug, PartialEq, Eq, Hash)]
pub struct ToolchainDescriptor {
    pub channel: String,
    pub triple: PartialTriple,
}

/// A descriptor as a mathematical value.
pub struct DescriptorView {
    pub channel: Seq<char>,
    pub triple: PartialTriple,
}

impl View for ToolchainDescriptor {
    type V = DescriptorView;

    open spec fn view(&self) -> DescriptorView {
        DescriptorView { channel: self.channel@, triple: self.triple }
    }
}

impl DescriptorView {
    /// The canonical name: the channel, then a dash and the triple if the triple
    /// says anything.
    pub open spec fn text(self) -> Seq<char> {
        if self.triple.is_meaningful() {
            self.channel + seq!['-'] + self.triple.text()
        } else {
            self.channel
        }
    }
}

/// `name` has a dash at `at`, something before it, and a triple after it.
pub open spec fn splits_at(name: Seq<char>, at: int) -> bool {
    0 < at < name.len() && name[at] == '-' && triple_of(name.skip(at + 1)) is Some
}

/// The leftmost place at or after `from` where `name` splits into something and
/// a triple.
pub open spec fn split_point(name: Seq<char>, from: int) -> Option<int>
    decreases name.len() - from,
{
    if from >= name.len() {
        None
    } else if splits_at(name, from) {
        Some(from)
    } else {
        split_point(name, from + 1)
    }
}

/// What `name` says as a toolchain's canonical name. The triple is the longest
/// one that `name` ends in after a dash, and the channel is what stands before
/// that dash; where `name` ends in no triple, all of it is the channel. The
/// channel is never empty: the empty name and a name that is itself a triple
/// describe no toolchain.
pub open spec fn descriptor_of(name: Seq<char>) -> Option<DescriptorView> {
    if name.len() == 0 || triple_of(name) is Some {
        None
    } else {
        match split_point(name, 0) {
            Some(at) => Some(
                DescriptorView {
                    channel: name.take(at),
                    triple: triple_of(name.skip(at + 1)).unwrap(),
                },
            ),
            None => Some(
                DescriptorView { channel: name, triple: PartialTriple { arch: None, os: None, env: None } },
            ),
        }
    }
}

/// What `name` says as a canonical name to a caller who may insist on a triple.
pub open spec fn descriptor_wanted(name: Seq<char>, triple_required: bool) -> Option<
    DescriptorView,
> {
    match descriptor_of(name) {
        Some(d) => if triple_required && !d.triple.is_meaningful() {
            None
        } else {
            Some(d)
        },
        None => None,
    }
}

/// The leftmost split point is a split point, and nothing splits `name` between
/// `from` and it.
pub proof fn lemma_split_point(name: Seq<char>, from: int)
    requires
        0 <= from,
    ensures
        match split_point(name, from) {
            Some(at) => from <= at && splits_at(name, at) && forall|j: int|
                from <= j < at ==> !splits_at(name, j),
            None => forall|j: int| from <= j ==> !splits_at(name, j),
        },
    decreases name.len() - from,
{
    if from < name.len() && !splits_at(name, from) {
        lemma_split_point(name, from + 1);
    }
}

/// A canonical name is never a bare triple, its channel is never empty, writing
/// the descriptor gives the name back, and no triple that the name ends in after
/// a dash and a non-empty channel is longer than the descriptor's.
pub proof fn lemma_descriptor_of(name: Seq<char>)
    ensures
        match descriptor_of(name) {
            Some(d) => {
                &&& triple_of(name) is None
                &&& d.channel.len() > 0
                &&& d.text() == name
                &&& forall|at: int| splits_at(name, at) ==> d.triple.is_meaningful() && d.channel.len() <= at
            },
            None => name.len() == 0 || triple_of(name) is Some,
        },
{
    lemma_split_point(name, 0);
    match descriptor_of(name) {
        Some(d) => {
            match split_point(name, 0) {
                Some(at) => {
                    let rest = name.skip(at + 1);
                    crate::triple::lemma_triple_of(rest, d.triple);
                    assert(d.text() =~= name);
                },
                None => {},
            }
        },
        None => {},
    }
}

impl ToolchainDescriptor {
    /// Reads a toolchain's canonical name. `None` says that `name` describes no
    /// toolchain, or that it ends in no triple although the caller requires one.
    pub fn parse(name: &str, triple_required: bool) -> (found: Option<ToolchainDescriptor>)
        ensures
            match found {
                Some(d) => descriptor_wanted(name@, triple_required) == Some(d@),
                None => descriptor_wanted(name@, triple_required) is None,
            },
    {
        let chars = chars_of(name);
        let n = chars.len();
        if n == 0 || PartialTriple::parse(name).is_some() {
            return None;
        }
        let mut at: usize = 1;
        while at < n
            invariant
                1 <= at,
                n == name@.len(),
                chars@ == name@,
                triple_of(name@) is None,
                split_point(name@, 0) == split_point(name@, at as int),
            decreases n - at,
        {
            if chars[at] == '-' {
                let rest = name.substring_char(at + 1, n);
                assert(rest@ =~= name@.skip(at + 1));
                match PartialTriple::parse(rest) {
                    Some(triple) => {
                        let channel = name.substring_char(0, at).to_owned();
                        assert(channel@ =~= name@.take(at as int));
                        return Some(ToolchainDescriptor { channel, triple });
                    },
                    None => {},
                }
            }
            at += 1;
        }
        if triple_required {
            None
        } else {
            Some(ToolchainDescriptor { channel: name.to_owned(), triple: PartialTriple::unspecified() })
        }
    }

    /// The same channel with another triple.
    pub fn with_triple(&self, triple: PartialTriple) -> (merged: ToolchainDescriptor)
        ensures
            merged@ == (DescriptorView { channel: self@.channel, triple }),
    {
        ToolchainDescriptor { channel: self.channel.clone(), triple }
    }

    /// The canonical name of the toolchain described.
    pub fn render(&self) -> (name: String)
        ensures
            name@ == self@.text(),
    {
        let mut name = self.channel.clone();
        if self.triple.has_component() {
            let triple = self.triple.render();
            name.append("-");
            name.append(triple.as_str());
            proof {
                reveal_strlit("-");
                assert("-"@ =~= seq!['-']);
            }
        }
        name
    }
}

} // verus!

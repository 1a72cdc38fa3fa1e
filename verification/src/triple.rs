//! Partial target triples: an architecture, an operating system and an
//! environment, any of which may be left out.

use crate::text::{
    all_dash_free, dash_free, join, lemma_join_concat, lemma_join_split, lemma_split_join,
    piece_views, pieces_of, split,
};
use crate::vocabulary::{
    lemma_arch_words, lemma_env_words, lemma_os_pieces, lemma_words_apart, Arch, Env, Os,
};
use vstd::prelude::*;

verus! {

/// A target triple of which any component may be missing.
#[derive(Clone, Copy, Debug, PartialEq, Eq, Hash)]
pub struct PartialTriple {
    pub arch: Option<Arch>,
    pub os: Option<Os>,
    pub env: Option<Env>,
}

/// The architecture's word, if there is an architecture.
pub open spec fn arch_words(arch: Option<Arch>) -> Seq<Seq<char>> {
    match arch {
        Some(a) => seq![a.word()],
        None => Seq::empty(),
    }
}

/// The operating system's word, if there is an operating system.
pub open spec fn os_words(os: Option<Os>) -> Seq<Seq<char>> {
    match os {
        Some(o) => seq![o.word()],
        None => Seq::empty(),
    }
}

/// The operating system's pieces, if there is an operating system.
pub open spec fn os_pieces(os: Option<Os>) -> Seq<Seq<char>> {
    match os {
        Some(o) => o.pieces(),
        None => Seq::empty(),
    }
}

/// The environment's word, if there is an environment.
pub open spec fn env_words(env: Option<Env>) -> Seq<Seq<char>> {
    match env {
        Some(e) => seq![e.word()],
        None => Seq::empty(),
    }
}

impl PartialTriple {
    /// At least one component is given. A triple without any says nothing.
    pub open spec fn is_meaningful(self) -> bool {
        self.arch is Some || self.os is Some || self.env is Some
    }

    /// The words of the components that are given: architecture, operating
    /// system, environment.
    pub open spec fn words(self) -> Seq<Seq<char>> {
        arch_words(self.arch) + os_words(self.os) + env_words(self.env)
    }

    /// The triple as it is written: its words with dashes between them.
    pub open spec fn text(self) -> Seq<char> {
        join(self.words())
    }

    /// The dash-free pieces of the triple as it is written.
    pub open spec fn pieces(self) -> Seq<Seq<char>> {
        arch_words(self.arch) + os_pieces(self.os) + env_words(self.env)
    }
}

/// The written triple is its pieces joined by dashes, and cutting it at its
/// dashes gives the pieces back.
pub proof fn lemma_text_pieces(t: PartialTriple)
    ensures
        t.text() == join(t.pieces()),
        all_dash_free(t.pieces()),
        t.is_meaningful() <==> t.pieces().len() >= 1,
        t.is_meaningful() ==> split(t.text()) == t.pieces(),
{
    let a = arch_words(t.arch);
    let e = env_words(t.env);
    let w = os_words(t.os);
    let p = os_pieces(t.os);
    lemma_components(t, t);
    match t.os {
        Some(o) => lemma_os_pieces(o, o),
        None => {},
    }
    assert(join(w) == join(p));
    assert(join(a + w + e) == join(a + p + e)) by {
        if t.os is Some {
            if a.len() > 0 {
                assert(a + w + e =~= a + (w + e));
                assert(a + p + e =~= a + (p + e));
                lemma_join_concat(a, w + e);
                lemma_join_concat(a, p + e);
            } else {
                assert(a + w + e =~= w + e);
                assert(a + p + e =~= p + e);
            }
            if e.len() > 0 {
                lemma_join_concat(w, e);
                lemma_join_concat(p, e);
            } else {
                assert(w + e =~= w);
                assert(p + e =~= p);
            }
        }
    }
    assert forall|k: int| 0 <= k < t.pieces().len() implies dash_free(#[trigger] t.pieces()[k]) by {
        if k < a.len() {
            assert(t.pieces()[k] == a[k]);
        } else if k < a.len() + p.len() {
            assert(t.pieces()[k] == p[k - a.len()]);
        } else {
            assert(t.pieces()[k] == e[k - a.len() - p.len()]);
        }
    }
    if t.is_meaningful() {
        lemma_split_join(t.pieces());
    }
}

/// What the vocabularies say of the components of two triples, taken together.
proof fn lemma_components(t: PartialTriple, u: PartialTriple)
    ensures
        t.arch matches Some(a) ==> a.word().len() > 0 && dash_free(a.word()),
        t.env matches Some(e) ==> e.word().len() > 0 && dash_free(e.word()),
        t.os matches Some(o) ==> 1 <= o.pieces().len() <= 2 && o.pieces()[0].len() > 0,
        t.arch matches Some(a) ==> (u.arch matches Some(b) ==> (a.word() == b.word() ==> a == b)),
        t.env matches Some(e) ==> (u.env matches Some(f) ==> (e.word() == f.word() ==> e == f)),
        t.os matches Some(o) ==> (u.os matches Some(p) ==> (o.pieces() == p.pieces() ==> o == p)),
        t.os matches Some(o) ==> (u.os matches Some(p) ==> (o.pieces()[0] == p.pieces()[0]
            ==> o.pieces().len() == p.pieces().len())),
        t.arch matches Some(a) ==> (u.os matches Some(p) ==> a.word() != p.pieces()[0]),
        t.arch matches Some(a) ==> (u.env matches Some(f) ==> a.word() != f.word()),
        t.os matches Some(o) ==> (u.env matches Some(f) ==> o.pieces()[0] != f.word()),
{
    match t.arch {
        Some(a) => {
            lemma_arch_words(a, a);
            match u.arch {
                Some(b) => lemma_arch_words(a, b),
                None => {},
            }
            match u.os {
                Some(p) => lemma_words_apart(a, p, Env::Gnu),
                None => {},
            }
            match u.env {
                Some(f) => lemma_words_apart(a, Os::Linux, f),
                None => {},
            }
        },
        None => {},
    }
    match t.os {
        Some(o) => {
            lemma_os_pieces(o, o);
            match u.os {
                Some(p) => lemma_os_pieces(o, p),
                None => {},
            }
            match u.env {
                Some(f) => lemma_words_apart(Arch::Arm, o, f),
                None => {},
            }
        },
        None => {},
    }
    match t.env {
        Some(e) => {
            lemma_env_words(e, e);
            match u.env {
                Some(f) => lemma_env_words(e, f),
                None => {},
            }
        },
        None => {},
    }
}

/// Two triples with the same pieces are the same triple.
pub proof fn lemma_pieces_injective(t: PartialTriple, u: PartialTriple)
    requires
        t.pieces() == u.pieces(),
    ensures
        t == u,
{
    let (p, q) = (t.pieces(), u.pieces());
    lemma_components(t, u);
    lemma_components(u, t);
    assert(p.len() > 0 ==> p[0] == q[0]);
    assert(t.arch == u.arch);
    let k = arch_words(t.arch).len() as int;
    let x = os_pieces(t.os) + env_words(t.env);
    let y = os_pieces(u.os) + env_words(u.env);
    assert(x =~= p.skip(k));
    assert(y =~= q.skip(k));
    assert(x.len() == y.len());
    assert(x.len() > 0 ==> x[0] == y[0]);
    assert(x.len() > 1 ==> x[1] == y[1]);
    assert(x.len() > 2 ==> x[2] == y[2]);
    assert(t.os == u.os) by {
        if t.os is Some && u.os is Some {
            assert(os_pieces(t.os).len() == os_pieces(u.os).len());
            assert(os_pieces(t.os) =~= os_pieces(u.os));
        }
    }
    assert(t.env == u.env);
}

/// A triple is known by the way it is written.
pub proof fn lemma_text_injective(t: PartialTriple, u: PartialTriple)
    requires
        t.text() == u.text(),
    ensures
        t == u,
{
    lemma_text_pieces(t);
    lemma_text_pieces(u);
    if t.is_meaningful() && u.is_meaningful() {
        lemma_pieces_injective(t, u);
    } else if t.is_meaningful() || u.is_meaningful() {
        let m = if t.is_meaningful() { t } else { u };
        lemma_split_join(m.pieces());
        assert(split(Seq::<char>::empty()) =~= seq![Seq::<char>::empty()]);
        lemma_components(m, m);
        assert(m.pieces()[0].len() > 0);
    }
}

/// `s` is the way the triple `t` is written, and `t` says something.
pub open spec fn reads_as(s: Seq<char>, t: PartialTriple) -> bool {
    t.is_meaningful() && t.text() == s
}

/// The triple that `s` is the written form of, if it is one: at least one
/// component, every word from the vocabularies, in the order architecture,
/// operating system, environment, and nothing else.
pub open spec fn triple_of(s: Seq<char>) -> Option<PartialTriple> {
    if exists|t: PartialTriple| reads_as(s, t) {
        Some(choose|t: PartialTriple| reads_as(s, t))
    } else {
        None
    }
}

/// `triple_of` finds the one triple that is written as `s`.
pub proof fn lemma_triple_of(s: Seq<char>, t: PartialTriple)
    ensures
        triple_of(s) == Some(t) <==> reads_as(s, t),
{
    if reads_as(s, t) {
        let found = choose|u: PartialTriple| reads_as(s, u);
        lemma_text_injective(found, t);
    }
}

/// The triple made of the pieces, each a word of a vocabulary, if they make one.
fn classify(parts: &Vec<Vec<char>>) -> (found: Option<PartialTriple>)
    ensures
        match found {
            Some(t) => t.is_meaningful() && t.pieces() == piece_views(parts@),
            None => forall|t: PartialTriple|
                t.is_meaningful() ==> t.pieces() != piece_views(parts@),
        },
{
    let n = parts.len();
    let ghost given = piece_views(parts@);
    let mut at: usize = 0;
    let arch = if at < n {
        Arch::from_chars(&parts[at])
    } else {
        None
    };
    if arch.is_some() {
        at += 1;
    }
    let ghost os_at = at as int;
    let mut os = if at < n && n - at >= 2 {
        Os::from_pair(&parts[at], &parts[at + 1])
    } else {
        None
    };
    if os.is_some() {
        at += 2;
    } else {
        os = if at < n {
            Os::from_single(&parts[at])
        } else {
            None
        };
        if os.is_some() {
            at += 1;
        }
    }
    let env = if at < n {
        Env::from_chars(&parts[at])
    } else {
        None
    };
    if env.is_some() {
        at += 1;
    }
    let built = PartialTriple { arch, os, env };
    proof {
        assert(built.pieces() =~= given.take(at as int)) by {
            match os {
                Some(o) => {
                    lemma_os_pieces(o, o);
                    if o.pieces().len() == 2 {
                        assert(o.pieces() =~= seq![given[os_at], given[os_at + 1]]);
                    } else {
                        assert(o.pieces() =~= seq![given[os_at]]);
                    }
                },
                None => {},
            }
        }
    }
    if at == n && at > 0 {
        assert(given.take(at as int) =~= given);
        Some(built)
    } else {
        proof {
            assert forall|t: PartialTriple| t.is_meaningful() implies t.pieces() != given by {
                if t.pieces() == given {
                    lemma_components(t, built);
                    lemma_components(built, t);
                    let p = t.pieces();
                    assert(p.len() > 0 ==> p[0] == given[0]);
                    assert(t.arch == arch);
                    let x = os_pieces(t.os) + env_words(t.env);
                    assert(x =~= p.skip(os_at));
                    assert(x.len() > 0 ==> x[0] == given[os_at]);
                    assert(x.len() > 1 ==> x[1] == given[os_at + 1]);
                    assert(x.len() > 2 ==> x[2] == given[os_at + 2]);
                    match t.os {
                        Some(o) => {
                            if o.pieces().len() == 2 {
                                assert(o.pieces() =~= seq![given[os_at], given[os_at + 1]]);
                            } else {
                                assert(o.pieces() =~= seq![given[os_at]]);
                            }
                        },
                        None => {},
                    }
                    assert(t.os == os);
                    assert(t.env == env);
                    assert(t == built);
                }
            }
        }
        None
    }
}

impl PartialTriple {
    /// The triple without any component.
    pub fn unspecified() -> (t: PartialTriple)
        ensures
            t == (PartialTriple { arch: None, os: None, env: None }),
            !t.is_meaningful(),
    {
        PartialTriple { arch: None, os: None, env: None }
    }

    /// Whether at least one component is given.
    pub fn has_component(&self) -> (given: bool)
        ensures
            given == self.is_meaningful(),
    {
        self.arch.is_some() || self.os.is_some() || self.env.is_some()
    }

    /// What a toolchain's triple must say for the query `self` to accept it: each
    /// component that the query gives, the same; what the query leaves out is not
    /// looked at. A component that the toolchain's triple lacks matches nothing.
    pub open spec fn admits(self, described: PartialTriple) -> bool {
        &&& self.arch is Some ==> described.arch == self.arch
        &&& self.os is Some ==> described.os == self.os
        &&& self.env is Some ==> described.env == self.env
    }

    /// Whether the query `self` accepts a toolchain whose triple is `described`.
    pub fn matches(&self, described: &PartialTriple) -> (accepted: bool)
        ensures
            accepted == self.admits(*described),
    {
        let arch_ok = match (self.arch, described.arch) {
            (Some(wanted), Some(given)) => wanted == given,
            (Some(_), None) => false,
            (None, _) => true,
        };
        let os_ok = match (self.os, described.os) {
            (Some(wanted), Some(given)) => wanted == given,
            (Some(_), None) => false,
            (None, _) => true,
        };
        let env_ok = match (self.env, described.env) {
            (Some(wanted), Some(given)) => wanted == given,
            (Some(_), None) => false,
            (None, _) => true,
        };
        arch_ok && os_ok && env_ok
    }

    /// The triple as it is written. The triple without components is written as
    /// nothing.
    pub fn render(&self) -> (written: String)
        ensures
            written@ == self.text(),
    {
        let mut written = String::new();
        let mut started = false;
        if let Some(a) = self.arch {
            written.append(a.name());
            started = true;
        }
        if let Some(o) = self.os {
            if started {
                written.append("-");
            }
            written.append(o.name());
            started = true;
        }
        if let Some(e) = self.env {
            if started {
                written.append("-");
            }
            written.append(e.name());
        }
        proof {
            reveal_strlit("-");
            reveal_with_fuel(join, 4);
            let w = self.words();
            assert("-"@ =~= seq!['-']);
            if w.len() == 2 {
                assert(w.drop_last() =~= seq![w[0]]);
            }
            if w.len() == 3 {
                assert(w.drop_last() =~= seq![w[0], w[1]]);
                assert(w.drop_last().drop_last() =~= seq![w[0]]);
            }
            assert(written@ =~= join(w));
        }
        written
    }

    /// Reads `name` as a triple. `None` says that `name` is not one: it is empty,
    /// or some part of it is no word of the vocabularies, or its words are out of
    /// order.
    pub fn parse(name: &str) -> (found: Option<PartialTriple>)
        ensures
            found == triple_of(name@),
    {
        let parts = pieces_of(name);
        let found = classify(&parts);
        proof {
            match found {
                Some(t) => {
                    lemma_text_pieces(t);
                    lemma_join_split(name@);
                    lemma_triple_of(name@, t);
                },
                None => {
                    assert forall|t: PartialTriple| !reads_as(name@, t) by {
                        lemma_text_pieces(t);
                    }
                },
            }
        }
        found
    }
}

} // verus!

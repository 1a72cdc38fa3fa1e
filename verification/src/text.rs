//! Character sequences: reading a string's characters and cutting them at dashes.

use vstd::prelude::*;

verus! {

/// No character of `s` is a dash.
pub open spec fn dash_free(s: Seq<char>) -> bool {
    forall|i: int| 0 <= i < s.len() ==> s[i] != '-'
}

/// Every piece is free of dashes.
pub open spec fn all_dash_free(parts: Seq<Seq<char>>) -> bool {
    forall|k: int| 0 <= k < parts.len() ==> dash_free(#[trigger] parts[k])
}

/// The pieces written one after the other with a dash between neighbours.
pub open spec fn join(parts: Seq<Seq<char>>) -> Seq<char>
    decreases parts.len(),
{
    if parts.len() == 0 {
        Seq::empty()
    } else if parts.len() == 1 {
        parts[0]
    } else {
        join(parts.drop_last()) + seq!['-'] + parts.last()
    }
}

/// The pieces that the dashes of `s` separate. A string without a dash is one
/// piece; a leading, trailing or doubled dash gives an empty piece.
pub open spec fn split(s: Seq<char>) -> Seq<Seq<char>>
    decreases s.len(),
{
    if s.len() == 0 {
        seq![Seq::empty()]
    } else {
        let before = split(s.drop_last());
        if s.last() == '-' {
            before.push(Seq::empty())
        } else {
            before.update(before.len() - 1, before.last().push(s.last()))
        }
    }
}

/// Cutting always yields at least one piece, and no piece holds a dash.
pub proof fn lemma_split_shape(s: Seq<char>)
    ensures
        split(s).len() >= 1,
        all_dash_free(split(s)),
    decreases s.len(),
{
    if s.len() > 0 {
        lemma_split_shape(s.drop_last());
    }
}

/// Joining what was cut gives the string back.
pub proof fn lemma_join_split(s: Seq<char>)
    ensures
        join(split(s)) == s,
    decreases s.len(),
{
    if s.len() == 0 {
        assert(join(split(s)) =~= s);
    } else {
        let init = s.drop_last();
        let before = split(init);
        lemma_split_shape(init);
        lemma_join_split(init);
        assert(s =~= init.push(s.last()));
        if s.last() == '-' {
            let after = before.push(Seq::empty());
            assert(after.drop_last() =~= before);
            assert(join(after) =~= join(before) + seq!['-']);
        } else {
            let grown = before.last().push(s.last());
            let after = before.update(before.len() - 1, grown);
            if before.len() == 1 {
                assert(join(after) =~= join(before).push(s.last()));
            } else {
                assert(after.drop_last() =~= before.drop_last());
                assert(join(after) =~= join(before).push(s.last()));
            }
        }
    }
}

/// Cutting a string that ends in a dash-free tail: the tail lengthens the last piece.
proof fn lemma_split_append(s: Seq<char>, tail: Seq<char>)
    requires
        dash_free(tail),
    ensures
        split(s + tail) == split(s).update(split(s).len() - 1, split(s).last() + tail),
        split(s).len() >= 1,
    decreases tail.len(),
{
    lemma_split_shape(s);
    let before = split(s);
    if tail.len() == 0 {
        assert(s + tail =~= s);
        assert(before.last() + tail =~= before.last());
        assert(before.update(before.len() - 1, before.last()) =~= before);
    } else {
        let init = tail.drop_last();
        lemma_split_append(s, init);
        assert((s + tail).drop_last() =~= s + init);
        assert((s + tail).last() == tail.last());
        assert((before.last() + init).push(tail.last()) =~= before.last() + tail);
        assert(split(s + tail) =~= before.update(before.len() - 1, before.last() + tail));
    }
}

/// Cutting what was joined gives the pieces back, when no piece holds a dash.
pub proof fn lemma_split_join(parts: Seq<Seq<char>>)
    requires
        parts.len() >= 1,
        all_dash_free(parts),
    ensures
        split(join(parts)) == parts,
    decreases parts.len(),
{
    let empty = Seq::<char>::empty();
    if parts.len() == 1 {
        lemma_split_append(empty, parts[0]);
        assert(empty + parts[0] =~= parts[0]);
        assert(split(join(parts)) =~= parts);
    } else {
        let init = parts.drop_last();
        assert(all_dash_free(init)) by {
            assert forall|k: int| 0 <= k < init.len() implies dash_free(#[trigger] init[k]) by {
                assert(init[k] == parts[k]);
            }
        }
        lemma_split_join(init);
        let stem = join(init) + seq!['-'];
        assert(stem.drop_last() =~= join(init));
        assert(split(stem) =~= init.push(empty));
        lemma_split_append(stem, parts.last());
        assert(empty + parts.last() =~= parts.last());
        assert(split(join(parts)) =~= parts);
    }
}

/// Joining two runs of pieces: the joined runs with a dash between them.
pub proof fn lemma_join_concat(left: Seq<Seq<char>>, right: Seq<Seq<char>>)
    requires
        left.len() >= 1,
        right.len() >= 1,
    ensures
        join(left + right) == join(left) + seq!['-'] + join(right),
    decreases right.len(),
{
    let all = left + right;
    assert(all.last() == right.last());
    if right.len() == 1 {
        assert(all.drop_last() =~= left);
    } else {
        lemma_join_concat(left, right.drop_last());
        assert(all.drop_last() =~= left + right.drop_last());
        assert(join(all) =~= join(left) + seq!['-'] + join(right));
    }
}

/// The characters of `s`, in order.
pub fn chars_of(s: &str) -> (v: Vec<char>)
    ensures
        v@ == s@,
{
    let mut v: Vec<char> = Vec::new();
    for c in it: s.chars()
        invariant
            v@ == it.seq().take(it.index() as int),
            it.seq() == s@,
    {
        v.push(c);
    }
    v
}

/// Whether `chars` spells exactly `word`.
pub fn spells(chars: &Vec<char>, word: &str) -> (same: bool)
    ensures
        same == (chars@ == word@),
{
    let letters = chars_of(word);
    if letters.len() != chars.len() {
        return false;
    }
    let mut i: usize = 0;
    while i < chars.len()
        invariant
            i <= chars.len(),
            letters.len() == chars.len(),
            letters@ == word@,
            chars@.take(i as int) == word@.take(i as int),
        decreases chars.len() - i,
    {
        if chars[i] != letters[i] {
            return false;
        }
        assert(chars@.take(i + 1) =~= chars@.take(i as int).push(chars@[i as int]));
        assert(word@.take(i + 1) =~= word@.take(i as int).push(word@[i as int]));
        i += 1;
    }
    assert(chars@ =~= chars@.take(i as int));
    assert(word@ =~= word@.take(i as int));
    true
}

/// Whether the two strings hold the same text.
pub fn same_text(a: &str, b: &str) -> (same: bool)
    ensures
        same == (a@ == b@),
{
    let chars = chars_of(a);
    spells(&chars, b)
}

/// The three texts written one after the other.
pub fn glue(a: &str, b: &str, c: &str) -> (all: String)
    ensures
        all@ == a@ + b@ + c@,
{
    let mut all = a.to_owned();
    all.append(b);
    all.append(c);
    all
}

/// What each string holds.
pub open spec fn texts(strings: Seq<String>) -> Seq<Seq<char>> {
    Seq::new(strings.len(), |k: int| strings[k]@)
}

/// What the string holds, if there is one.
pub open spec fn text_of(string: Option<&str>) -> Option<Seq<char>> {
    match string {
        Some(s) => Some(s@),
        None => None,
    }
}

/// Whether one of `list` holds the text of `item`.
pub fn holds(list: &Vec<String>, item: &str) -> (found: bool)
    ensures
        found == texts(list@).contains(item@),
{
    let mut i: usize = 0;
    while i < list.len()
        invariant
            i <= list.len(),
            forall|k: int| 0 <= k < i ==> #[trigger] texts(list@)[k] != item@,
        decreases list.len() - i,
    {
        if same_text(list[i].as_str(), item) {
            assert(texts(list@)[i as int] == item@);
            return true;
        }
        i += 1;
    }
    false
}

/// What each piece holds.
pub open spec fn piece_views(parts: Seq<Vec<char>>) -> Seq<Seq<char>> {
    Seq::new(parts.len(), |k: int| parts[k]@)
}

/// The pieces of `s` between its dashes.
pub fn pieces_of(s: &str) -> (parts: Vec<Vec<char>>)
    ensures
        piece_views(parts@) == split(s@),
{
    let mut done: Vec<Vec<char>> = Vec::new();
    let mut piece: Vec<char> = Vec::new();
    for c in it: s.chars()
        invariant
            it.seq() == s@,
            piece_views(done@).push(piece@) == split(s@.take(it.index() as int)),
    {
        let ghost seen = s@.take(it.index() as int);
        let ghost next = s@.take(it.index() + 1);
        assert(next.drop_last() =~= seen);
        assert(next.last() == c);
        let ghost before = piece_views(done@);
        let ghost last = piece@;
        if c == '-' {
            done.push(piece);
            piece = Vec::new();
            assert(piece_views(done@) =~= before.push(last));
            assert(piece_views(done@).push(piece@) =~= split(next));
        } else {
            piece.push(c);
            assert(piece_views(done@).push(piece@) =~= before.push(last).update(
                done.len() as int,
                last.push(c),
            ));
        }
    }
    assert(s@.take(s@.len() as int) =~= s@);
    let ghost before = piece_views(done@);
    let ghost last = piece@;
    done.push(piece);
    assert(piece_views(done@) =~= before.push(last));
    done
}

} // verus!

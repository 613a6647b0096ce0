//! Text helpers: splitting on a separator character, as `str::split` with a
//! single-character pattern does.

use vstd::prelude::*;

verus! {

/// The pieces of `s` between occurrences of `sep`, from left to right.
/// There is always at least one piece; `sep` never occurs in a piece.
pub open spec fn split_seq(s: Seq<char>, sep: char) -> Seq<Seq<char>>
    decreases s.len(),
{
    if s.len() == 0 {
        seq![Seq::<char>::empty()]
    } else {
        let prev = split_seq(s.drop_last(), sep);
        if s.last() == sep {
            prev.push(Seq::<char>::empty())
        } else {
            prev.update(prev.len() - 1, prev.last().push(s.last()))
        }
    }
}

pub proof fn lemma_split_nonempty(s: Seq<char>, sep: char)
    ensures
        split_seq(s, sep).len() >= 1,
    decreases s.len(),
{
    if s.len() > 0 {
        lemma_split_nonempty(s.drop_last(), sep);
    }
}

/// The views of a vector of strings.
pub open spec fn strings_view(v: Seq<String>) -> Seq<Seq<char>> {
    v.map_values(|s: String| s@)
}

/// Splits `s` at every occurrence of `sep`.
pub fn split_on(s: &str, sep: char) -> (pieces: Vec<String>)
    ensures
        strings_view(pieces@) == split_seq(s@, sep),
{
    let n = s.unicode_len();
    let mut pieces: Vec<String> = Vec::new();
    let mut start: usize = 0;
    let mut i: usize = 0;
    assert(s@.take(0) =~= Seq::<char>::empty());
    assert(strings_view(pieces@) =~= Seq::<Seq<char>>::empty());
    assert(s@.subrange(0, 0) =~= Seq::<char>::empty());
    while i < n
        invariant
            n == s@.len(),
            start <= i <= n,
            split_seq(s@.take(i as int), sep) == strings_view(pieces@).push(
                s@.subrange(start as int, i as int),
            ),
        decreases n - i,
    {
        let c = s.get_char(i);
        proof {
            assert(s@.take(i + 1).drop_last() =~= s@.take(i as int));
            assert(s@.take(i + 1).last() == c);
            lemma_split_nonempty(s@.take(i as int), sep);
        }
        if c == sep {
            let ghost before = pieces@;
            let piece = s.substring_char(start, i).to_owned();
            pieces.push(piece);
            assert(strings_view(pieces@) =~= strings_view(before).push(
                s@.subrange(start as int, i as int),
            ));
            start = i + 1;
            assert(s@.subrange(start as int, i + 1) =~= Seq::<char>::empty());
        } else {
            assert(s@.subrange(start as int, i + 1) =~= s@.subrange(start as int, i as int).push(c));
        }
        i = i + 1;
    }
    let ghost before = pieces@;
    let last = s.substring_char(start, n).to_owned();
    pieces.push(last);
    proof {
        assert(strings_view(pieces@) =~= strings_view(before).push(
            s@.subrange(start as int, n as int),
        ));
        assert(s@.take(n as int) =~= s@);
    }
    pieces
}

} // verus!

verus! {

/// Appending text free of the separator extends the last piece.
pub proof fn lemma_split_append_plain(s: Seq<char>, t: Seq<char>, sep: char)
    requires
        !t.contains(sep),
    ensures
        split_seq(s + t, sep) == split_seq(s, sep).update(
            split_seq(s, sep).len() - 1,
            split_seq(s, sep).last() + t,
        ),
    decreases t.len(),
{
    lemma_split_nonempty(s, sep);
    if t.len() == 0 {
        assert(s + t =~= s);
        assert(split_seq(s, sep).last() + t =~= split_seq(s, sep).last());
        assert(split_seq(s, sep).update(split_seq(s, sep).len() - 1, split_seq(s, sep).last())
            =~= split_seq(s, sep));
    } else {
        let t2 = t.drop_last();
        assert(!t2.contains(sep)) by {
            if t2.contains(sep) {
                let k = choose|k: int| 0 <= k < t2.len() && t2[k] == sep;
                assert(t[k] == sep);
            }
        }
        lemma_split_append_plain(s, t2, sep);
        assert((s + t).drop_last() =~= s + t2);
        assert((s + t).last() == t.last());
        assert(t[t.len() - 1] != sep);
        assert((split_seq(s, sep).last() + t2).push(t.last()) =~= split_seq(s, sep).last() + t);
        assert(split_seq(s + t, sep) =~= split_seq(s, sep).update(
            split_seq(s, sep).len() - 1,
            split_seq(s, sep).last() + t,
        ));
    }
}

/// Appending the separator starts a new, empty piece.
pub proof fn lemma_split_append_sep(s: Seq<char>, sep: char)
    ensures
        split_seq(s.push(sep), sep) == split_seq(s, sep).push(Seq::<char>::empty()),
{
    assert(s.push(sep).drop_last() =~= s);
}

/// Text free of the separator is a single piece.
pub proof fn lemma_split_plain(t: Seq<char>, sep: char)
    requires
        !t.contains(sep),
    ensures
        split_seq(t, sep) == seq![t],
{
    lemma_split_append_plain(Seq::<char>::empty(), t, sep);
    assert(Seq::<char>::empty() + t =~= t);
    assert(seq![Seq::<char>::empty()].update(0, Seq::<char>::empty() + t) =~= seq![t]);
}

/// Splitting `s + [sep] + t`, with `t` free of the separator, adds `t` as a piece.
pub proof fn lemma_split_then_field(s: Seq<char>, t: Seq<char>, sep: char)
    requires
        !t.contains(sep),
    ensures
        split_seq(s + seq![sep] + t, sep) == split_seq(s, sep).push(t),
{
    assert(s + seq![sep] =~= s.push(sep));
    lemma_split_append_sep(s, sep);
    lemma_split_append_plain(s.push(sep), t, sep);
    let p = split_seq(s, sep).push(Seq::<char>::empty());
    assert(Seq::<char>::empty() + t =~= t);
    assert(p.update(p.len() - 1, p.last() + t) =~= split_seq(s, sep).push(t));
}

} // verus!

//! Splitting a line of text into words.
//!
//! A line is cut at every space, carriage return and line feed. What stands
//! between two cuts is a piece; the pieces that are not empty are the words of
//! the line. There is no quoting and no escaping.

use vstd::prelude::*;

verus! {

/// The characters that end a word: space, carriage return and line feed.
pub open spec fn is_separator(c: char) -> bool {
    c == ' ' || c == '\r' || c == '\n'
}

/// No character of `w` is a separator.
pub open spec fn is_clean(w: Seq<char>) -> bool {
    forall|j: int| 0 <= j < w.len() ==> !is_separator(#[trigger] w[j])
}

/// A word is a sequence of characters that is not empty and holds no
/// separator.
pub open spec fn is_word(w: Seq<char>) -> bool {
    w.len() > 0 && is_clean(w)
}

/// Cuts `s` at every element that `sep` accepts. The accepted elements are
/// dropped, and what stands between two of them becomes one piece, which may
/// be empty. A sequence with `n` accepted elements gives `n + 1` pieces, so
/// the empty sequence gives one empty piece.
pub open spec fn split_by<A>(s: Seq<A>, sep: spec_fn(A) -> bool) -> Seq<Seq<A>>
    decreases s.len(),
{
    if s.len() == 0 {
        seq![Seq::<A>::empty()]
    } else {
        let init = split_by(s.drop_last(), sep);
        if sep(s.last()) {
            init.push(Seq::<A>::empty())
        } else {
            init.drop_last().push(init.last().push(s.last()))
        }
    }
}

/// The pieces of a line, empty ones included.
pub open spec fn pieces(line: Seq<char>) -> Seq<Seq<char>> {
    split_by(line, |c: char| is_separator(c))
}

/// The words of a line: its pieces that are not empty, in order.
pub open spec fn tokens_of(line: Seq<char>) -> Seq<Seq<char>> {
    pieces(line).filter(|w: Seq<char>| w.len() > 0)
}

/// Tells whether `c` ends a word.
pub fn separates(c: char) -> (b: bool)
    ensures
        b == is_separator(c),
{
    c == ' ' || c == '\r' || c == '\n'
}

/// The characters of `s`, in order.
pub fn chars_of(s: &str) -> (v: Vec<char>)
    ensures
        v@ == s@,
{
    let mut v: Vec<char> = Vec::new();
    for c in it: s.chars()
        invariant
            v@ == it.seq().take(it.index() as int),
    {
        v.push(c);
    }
    v
}

/// Adds the piece of `line` from `start` up to `end` to `tokens`, unless the
/// piece is empty.
fn keep_piece(tokens: &mut Vec<String>, line: &str, start: usize, end: usize)
    requires
        start <= end <= line@.len(),
    ensures
        final(tokens).deep_view() == if start < end {
            old(tokens).deep_view().push(line@.subrange(start as int, end as int))
        } else {
            old(tokens).deep_view()
        },
{
    if start < end {
        let token = line.substring_char(start, end).to_owned();
        tokens.push(token);
    }
}

/// Splits a line into its words.
pub fn tokenize(line: &str) -> (tokens: Vec<String>)
    ensures
        tokens.deep_view() == tokens_of(line@),
{
    let chars = chars_of(line);
    let n = chars.len();
    let mut tokens: Vec<String> = Vec::new();
    let mut start: usize = 0;
    let mut i: usize = 0;
    let ghost nonempty = |w: Seq<char>| w.len() > 0;
    let ghost sep = |c: char| is_separator(c);
    // The pieces that are complete; the piece from `start` on is still open.
    let ghost done: Seq<Seq<char>> = Seq::empty();
    proof {
        reveal(Seq::filter);
        assert(line@.subrange(0, 0) =~= Seq::<char>::empty());
    }
    while i < n
        invariant
            chars@ == line@,
            n == chars.len(),
            start <= i <= n,
            nonempty == |w: Seq<char>| w.len() > 0,
            sep == |c: char| is_separator(c),
            split_by(line@.take(i as int), sep) == done.push(line@.subrange(start as int, i as int)),
            tokens.deep_view() == done.filter(nonempty),
        decreases n - i,
    {
        let ghost piece = line@.subrange(start as int, i as int);
        proof {
            assert(line@.take(i + 1).drop_last() =~= line@.take(i as int));
        }
        if separates(chars[i]) {
            keep_piece(&mut tokens, line, start, i);
            start = i + 1;
            proof {
                done.lemma_filter_push(piece, nonempty);
                done = done.push(piece);
                assert(line@.subrange(start as int, i + 1) =~= Seq::<char>::empty());
            }
        } else {
            proof {
                assert(piece.push(line@[i as int]) =~= line@.subrange(start as int, i + 1));
            }
        }
        i = i + 1;
    }
    keep_piece(&mut tokens, line, start, n);
    proof {
        assert(line@.take(n as int) =~= line@);
        done.lemma_filter_push(line@.subrange(start as int, n as int), nonempty);
    }
    tokens
}

/// A split always has at least one piece.
pub proof fn lemma_split_len<A>(s: Seq<A>, sep: spec_fn(A) -> bool)
    ensures
        split_by(s, sep).len() >= 1,
    decreases s.len(),
{
    if s.len() > 0 {
        lemma_split_len(s.drop_last(), sep);
    }
}

/// A sequence that holds an element that `sep` accepts splits into two pieces
/// at least.
pub proof fn lemma_split_twice<A>(s: Seq<A>, sep: spec_fn(A) -> bool, at: int)
    requires
        0 <= at < s.len(),
        sep(s[at]),
    ensures
        split_by(s, sep).len() >= 2,
    decreases s.len(),
{
    lemma_split_len(s.drop_last(), sep);
    if at < s.len() - 1 {
        lemma_split_twice(s.drop_last(), sep, at);
    }
}

/// A sequence without an element that `sep` accepts is one piece.
pub proof fn lemma_split_none<A>(s: Seq<A>, sep: spec_fn(A) -> bool)
    requires
        forall|i: int| 0 <= i < s.len() ==> !sep(s[i]),
    ensures
        split_by(s, sep) == seq![s],
    decreases s.len(),
{
    if s.len() > 0 {
        lemma_split_none(s.drop_last(), sep);
    }
    assert(split_by(s, sep) =~~= seq![s]);
}

/// Splitting commutes with cutting at an accepted element: the pieces of
/// `a`, then `x`, then `b` are the pieces of `a` followed by those of `b`.
pub proof fn lemma_split_concat<A>(a: Seq<A>, x: A, b: Seq<A>, sep: spec_fn(A) -> bool)
    requires
        sep(x),
    ensures
        split_by(a.push(x) + b, sep) == split_by(a, sep) + split_by(b, sep),
    decreases b.len(),
{
    let s = a.push(x) + b;
    if b.len() == 0 {
        assert(s.drop_last() =~= a);
    } else {
        lemma_split_concat(a, x, b.drop_last(), sep);
        lemma_split_len(b.drop_last(), sep);
        assert(s.drop_last() =~= a.push(x) + b.drop_last());
    }
}

/// A sequence with exactly one element that `sep` accepts splits into what
/// stands before that element and what stands after it.
pub proof fn lemma_split_once<A>(s: Seq<A>, sep: spec_fn(A) -> bool, at: int)
    requires
        0 <= at < s.len(),
        sep(s[at]),
        forall|i: int| 0 <= i < s.len() && i != at ==> !sep(s[i]),
    ensures
        split_by(s, sep) == seq![s.take(at), s.skip(at + 1)],
{
    lemma_split_none(s.take(at), sep);
    lemma_split_none(s.skip(at + 1), sep);
    lemma_split_concat(s.take(at), s[at], s.skip(at + 1), sep);
    assert(s.take(at).push(s[at]) + s.skip(at + 1) =~= s);
}

/// The first piece of a sequence is empty where the sequence begins with an
/// element that `sep` accepts, and begins with the first element otherwise.
pub proof fn lemma_split_head<A>(s: Seq<A>, sep: spec_fn(A) -> bool)
    requires
        s.len() > 0,
    ensures
        sep(s[0]) ==> split_by(s, sep)[0].len() == 0,
        !sep(s[0]) ==> split_by(s, sep)[0].len() > 0 && split_by(s, sep)[0][0] == s[0],
    decreases s.len(),
{
    lemma_split_len(s.drop_last(), sep);
    if s.len() > 1 {
        lemma_split_head(s.drop_last(), sep);
        if sep(s[0]) {
            lemma_split_twice(s.drop_last(), sep, 0);
        }
    }
}

/// No piece of a line holds a separator.
pub proof fn lemma_pieces_are_clean(line: Seq<char>)
    ensures
        forall|i: int| 0 <= i < pieces(line).len() ==> is_clean(#[trigger] pieces(line)[i]),
    decreases line.len(),
{
    if line.len() > 0 {
        let init = pieces(line.drop_last());
        lemma_pieces_are_clean(line.drop_last());
        lemma_split_len(line.drop_last(), |c: char| is_separator(c));
        assert forall|i: int| 0 <= i < pieces(line).len() implies is_clean(
            #[trigger] pieces(line)[i],
        ) by {
            if i < init.len() - 1 {
                assert(is_clean(init[i]));
            } else {
                assert(is_clean(init.last()));
            }
        }
    }
}

/// Of a single piece, the filter keeps it exactly when it is not empty.
pub proof fn lemma_filter_one(piece: Seq<char>)
    ensures
        seq![piece].filter(|w: Seq<char>| w.len() > 0) == if piece.len() > 0 {
            seq![piece]
        } else {
            Seq::<Seq<char>>::empty()
        },
{
    reveal(Seq::filter);
    Seq::<Seq<char>>::empty().lemma_filter_push(piece, |w: Seq<char>| w.len() > 0);
}

} // verus!

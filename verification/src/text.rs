//! Small operations on strings that the request and response logic shares.

use vstd::prelude::*;
use vstd::std_specs::iter::IteratorSpec;

verus! {

/// Whether two string slices hold the same characters.
pub fn str_eq(a: &str, b: &str) -> (same: bool)
    ensures
        same == (a@ == b@),
{
    let mut left = a.chars();
    let mut right = b.chars();
    let ghost mut seen: int = 0;
    loop
        invariant
            0 <= seen <= a@.len(),
            seen <= b@.len(),
            left.remaining() == a@.subrange(seen, a@.len() as int),
            right.remaining() == b@.subrange(seen, b@.len() as int),
            a@.subrange(0, seen) == b@.subrange(0, seen),
        decreases a@.len() - seen,
    {
        let x = left.next();
        let y = right.next();
        proof {
            broadcast use vstd::string::group_string_axioms;
        }
        match (x, y) {
            (None, None) => {
                proof {
                    assert(a@ =~= a@.subrange(0, seen));
                    assert(b@ =~= b@.subrange(0, seen));
                }
                return true;
            },
            (Some(c), Some(d)) => {
                if c != d {
                    assert(a@[seen] != b@[seen]);
                    return false;
                }
                proof {
                    assert(a@.subrange(0, seen + 1) =~= a@.subrange(0, seen).push(c));
                    assert(b@.subrange(0, seen + 1) =~= b@.subrange(0, seen).push(d));
                    seen = seen + 1;
                }
            },
            _ => {
                assert(a@.len() != b@.len());
                return false;
            },
        }
    }
}

/// The upper-case form of a text, as the standard library computes it from the
/// Unicode case mappings.
pub uninterp spec fn uppercase(s: Seq<char>) -> Seq<char>;

/// Trusted: `str::to_uppercase` of the standard library returns the upper-case
/// equivalent of the slice, a function of its characters alone.
#[verifier::external_body]
pub(crate) fn to_uppercase(s: &str) -> (upper: String)
    ensures
        upper@ == uppercase(s@),
{
    s.to_uppercase()
}

/// Trusted: `String::push` of the standard library appends the given character
/// to the end of the string.
pub assume_specification[ String::push ](s: &mut String, c: char)
    ensures
        final(s)@ == old(s)@.push(c),
;

/// The pieces of `s` between occurrences of `sep`, in order. A text without
/// `sep` is one piece; `n` occurrences give `n + 1` pieces, some of which may
/// be empty.
///
/// It is the one list of pieces without `sep` that `join` puts together to
/// `s`: see `lemma_join_split`, `lemma_split_pieces_free` and
/// `lemma_split_join`.
pub open spec fn split(s: Seq<char>, sep: char) -> Seq<Seq<char>>
    decreases s.len(),
{
    if s.len() == 0 {
        seq![Seq::<char>::empty()]
    } else {
        let before = split(s.drop_last(), sep);
        if s.last() == sep {
            before.push(Seq::<char>::empty())
        } else {
            before.update(before.len() - 1, before.last().push(s.last()))
        }
    }
}

/// `split` never returns an empty list.
pub proof fn lemma_split_nonempty(s: Seq<char>, sep: char)
    ensures
        split(s, sep).len() >= 1,
    decreases s.len(),
{
    if s.len() > 0 {
        lemma_split_nonempty(s.drop_last(), sep);
    }
}

/// Cuts `s` at every `sep`.
pub fn split_text(s: &str, sep: char) -> (pieces: Vec<String>)
    ensures
        pieces.deep_view() == split(s@, sep),
{
    let mut done: Vec<String> = Vec::new();
    let mut current = String::new();
    let mut rest = s.chars();
    let ghost mut seen: int = 0;
    loop
        invariant
            0 <= seen <= s@.len(),
            rest.remaining() == s@.subrange(seen, s@.len() as int),
            done.deep_view().push(current@) == split(s@.subrange(0, seen), sep),
        ensures
            seen == s@.len(),
            done.deep_view().push(current@) == split(s@.subrange(0, seen), sep),
        decreases s@.len() - seen,
    {
        let next = rest.next();
        proof {
            broadcast use vstd::string::group_string_axioms;
        }
        match next {
            None => {
                break;
            },
            Some(c) => {
                proof {
                    assert(s@.subrange(0, seen + 1).drop_last() =~= s@.subrange(0, seen));
                    lemma_split_nonempty(s@.subrange(0, seen), sep);
                }
                if c == sep {
                    done.push(current);
                    current = String::new();
                } else {
                    current.push(c);
                }
                proof {
                    seen = seen + 1;
                }
            },
        }
    }
    done.push(current);
    done
}

/// Adds `item` at the end of `texts`.
pub fn push_text(texts: &mut Vec<String>, item: String)
    ensures
        final(texts).deep_view() == old(texts).deep_view().push(item@),
{
    texts.push(item);
}

/// The pieces in order, with `sep` between each two of them.
pub open spec fn join(pieces: Seq<Seq<char>>, sep: char) -> Seq<char>
    decreases pieces.len(),
{
    if pieces.len() == 0 {
        Seq::<char>::empty()
    } else if pieces.len() == 1 {
        pieces[0]
    } else {
        join(pieces.drop_last(), sep).push(sep) + pieces.last()
    }
}

/// Puts `sep` between the pieces.
pub fn join_text(pieces: &Vec<String>, sep: char) -> (text: String)
    ensures
        text@ == join(pieces.deep_view(), sep),
{
    let mut text = String::new();
    let ghost all = pieces.deep_view();
    for at in 0..pieces.len()
        invariant
            all == pieces.deep_view(),
            text@ == join(all.subrange(0, at as int), sep),
    {
        proof {
            assert(all.subrange(0, at + 1).drop_last() =~= all.subrange(0, at as int));
        }
        if at > 0 {
            text.push(sep);
        }
        text.append(pieces[at].as_str());
    }
    proof {
        assert(all.subrange(0, pieces.len() as int) =~= all);
    }
    text
}

/// Whether `sep` occurs nowhere in `s`.
pub open spec fn free_of(s: Seq<char>, sep: char) -> bool {
    forall|i: int| 0 <= i < s.len() ==> s[i] != sep
}

/// A text without `sep` is a single piece.
pub proof fn lemma_split_one_piece(s: Seq<char>, sep: char)
    requires
        free_of(s, sep),
    ensures
        split(s, sep) == seq![s],
    decreases s.len(),
{
    if s.len() == 0 {
        assert(s =~= Seq::<char>::empty());
    } else {
        lemma_split_one_piece(s.drop_last(), sep);
        assert(s.drop_last().push(s.last()) =~= s);
    }
}

/// Cutting `a`, `sep`, `b` gives the pieces of `a` and then those of `b`.
pub proof fn lemma_split_around(a: Seq<char>, b: Seq<char>, sep: char)
    ensures
        split(a.push(sep) + b, sep) == split(a, sep) + split(b, sep),
    decreases b.len(),
{
    let whole = a.push(sep) + b;
    lemma_split_nonempty(a, sep);
    if b.len() == 0 {
        assert(whole.drop_last() =~= a);
    } else {
        let shorter = b.drop_last();
        lemma_split_around(a, shorter, sep);
        lemma_split_nonempty(shorter, sep);
        assert(whole.drop_last() =~= a.push(sep) + shorter);
    }
}

/// No piece of a cut holds the separator.
pub proof fn lemma_split_pieces_free(s: Seq<char>, sep: char)
    ensures
        forall|i: int| 0 <= i < split(s, sep).len() ==> free_of(#[trigger] split(s, sep)[i], sep),
    decreases s.len(),
{
    if s.len() > 0 {
        lemma_split_pieces_free(s.drop_last(), sep);
        lemma_split_nonempty(s.drop_last(), sep);
    }
}

/// Joining the pieces of a cut gives the text back.
pub proof fn lemma_join_split(s: Seq<char>, sep: char)
    ensures
        join(split(s, sep), sep) == s,
    decreases s.len(),
{
    if s.len() > 0 {
        let shorter = s.drop_last();
        let before = split(shorter, sep);
        lemma_join_split(shorter, sep);
        lemma_split_nonempty(shorter, sep);
        lemma_join_last(before, s.last(), sep);
        if s.last() == sep {
            let after = before.push(Seq::<char>::empty());
            assert(after.drop_last() =~= before);
        }
    }
}

/// A character added to the last piece is added to the joined text.
proof fn lemma_join_last(pieces: Seq<Seq<char>>, c: char, sep: char)
    requires
        pieces.len() >= 1,
    ensures
        join(pieces.update(pieces.len() - 1, pieces.last().push(c)), sep) == join(
            pieces,
            sep,
        ).push(c),
{
    let longer = pieces.update(pieces.len() - 1, pieces.last().push(c));
    if pieces.len() > 1 {
        assert(longer.drop_last() =~= pieces.drop_last());
    }
}

/// Cutting a joined text gives the pieces back, where there is at least one
/// piece and none holds the separator.
pub proof fn lemma_split_join(pieces: Seq<Seq<char>>, sep: char)
    requires
        pieces.len() >= 1,
        forall|i: int| 0 <= i < pieces.len() ==> free_of(#[trigger] pieces[i], sep),
    ensures
        split(join(pieces, sep), sep) == pieces,
    decreases pieces.len(),
{
    if pieces.len() == 1 {
        lemma_split_one_piece(pieces[0], sep);
    } else {
        let before = pieces.drop_last();
        lemma_split_join(before, sep);
        lemma_split_around(join(before, sep), pieces.last(), sep);
        lemma_split_one_piece(pieces.last(), sep);
    }
}

} // verus!

//! Character sequences: searching, splitting and copying.
//!
//! Splitting follows the rule of `str::split` with a string pattern: the
//! occurrences of the pattern are taken from left to right without overlap,
//! and the pieces between them are returned, empty ones included. An empty
//! pattern cuts nowhere: the whole is the one piece.

use vstd::prelude::*;

verus! {

/// `pat` stands in `s` at position `at`.
pub open spec fn occurs_at(s: Seq<char>, pat: Seq<char>, at: int) -> bool {
    0 <= at && at + pat.len() <= s.len() && s.subrange(at, at + pat.len()) == pat
}

/// The position of the leftmost occurrence of `pat` in `s` that starts at
/// `from` or later.
pub open spec fn first_occurrence(s: Seq<char>, pat: Seq<char>, from: int) -> Option<int>
    decreases s.len() + 1 - from,
{
    if from < 0 || from + pat.len() > s.len() {
        None
    } else if occurs_at(s, pat, from) {
        Some(from)
    } else {
        first_occurrence(s, pat, from + 1)
    }
}

/// `pat` occurs somewhere in `s`.
pub open spec fn contains(s: Seq<char>, pat: Seq<char>) -> bool {
    exists|at: int| occurs_at(s, pat, at)
}

/// The pieces of `s` from position `from` on, cut at the occurrences of `pat`.
pub open spec fn split_from(s: Seq<char>, pat: Seq<char>, from: int) -> Seq<Seq<char>>
    decreases s.len() - from,
{
    match first_occurrence(s, pat, from) {
        Some(at) if pat.len() > 0 && from <= at && at + pat.len() <= s.len() => seq![
            s.subrange(from, at),
        ] + split_from(s, pat, at + pat.len()),
        _ => seq![s.subrange(from, s.len() as int)],
    }
}

/// The pieces of `s` between the occurrences of `pat`.
pub open spec fn split(s: Seq<char>, pat: Seq<char>) -> Seq<Seq<char>> {
    split_from(s, pat, 0)
}

/// The piece of `s` before the first occurrence of `pat`; all of `s` if there
/// is none.
pub open spec fn first_piece(s: Seq<char>, pat: Seq<char>) -> Seq<char> {
    split(s, pat).first()
}

/// The piece of `s` after the last occurrence of `pat` that splitting finds;
/// all of `s` if there is none.
pub open spec fn last_piece(s: Seq<char>, pat: Seq<char>) -> Seq<char> {
    split(s, pat).last()
}

/// The pieces put together again, with `pat` between each two of them.
pub open spec fn join(pieces: Seq<Seq<char>>, pat: Seq<char>) -> Seq<char>
    decreases pieces.len(),
{
    if pieces.len() == 0 {
        Seq::empty()
    } else if pieces.len() == 1 {
        pieces[0]
    } else {
        pieces[0] + pat + join(pieces.drop_first(), pat)
    }
}

/// The views of a sequence of character vectors.
pub open spec fn views(parts: Seq<Vec<char>>) -> Seq<Seq<char>> {
    parts.map_values(|p: Vec<char>| p@)
}

/// The views of a sequence of strings.
pub open spec fn texts(strings: Seq<String>) -> Seq<Seq<char>> {
    strings.map_values(|s: String| s@)
}

/// What `first_occurrence` finds is an occurrence, and the leftmost one from
/// `from` on; where it finds none, there is none.
pub proof fn lemma_first_occurrence(s: Seq<char>, pat: Seq<char>, from: int)
    requires
        0 <= from,
    ensures
        match first_occurrence(s, pat, from) {
            Some(at) => from <= at && occurs_at(s, pat, at) && forall|k: int|
                from <= k < at ==> !occurs_at(s, pat, k),
            None => forall|k: int| from <= k ==> !occurs_at(s, pat, k),
        },
    decreases s.len() + 1 - from,
{
    if from + pat.len() <= s.len() && !occurs_at(s, pat, from) {
        lemma_first_occurrence(s, pat, from + 1);
    }
}

/// `contains` agrees with a search from the start.
pub proof fn lemma_contains_iff_found(s: Seq<char>, pat: Seq<char>)
    ensures
        contains(s, pat) <==> first_occurrence(s, pat, 0) is Some,
{
    lemma_first_occurrence(s, pat, 0);
}

/// Splitting always yields at least one piece.
pub proof fn lemma_split_nonempty(s: Seq<char>, pat: Seq<char>, from: int)
    ensures
        split_from(s, pat, from).len() >= 1,
    decreases s.len() - from,
{
    match first_occurrence(s, pat, from) {
        Some(at) if pat.len() > 0 && from <= at && at + pat.len() <= s.len() => {
            lemma_split_nonempty(s, pat, at + pat.len());
        },
        _ => {},
    }
}

/// Splitting loses nothing: the pieces, joined with the pattern between them,
/// are what was split.
pub proof fn lemma_split_joins_back(s: Seq<char>, pat: Seq<char>, from: int)
    requires
        0 <= from <= s.len(),
    ensures
        join(split_from(s, pat, from), pat) == s.subrange(from, s.len() as int),
    decreases s.len() - from,
{
    lemma_first_occurrence(s, pat, from);
    match first_occurrence(s, pat, from) {
        Some(at) if pat.len() > 0 && from <= at && at + pat.len() <= s.len() => {
            let after = at + pat.len();
            lemma_split_joins_back(s, pat, after);
            lemma_split_nonempty(s, pat, after);
            let rest = split_from(s, pat, after);
            let all = seq![s.subrange(from, at)] + rest;
            assert(all.drop_first() =~= rest);
        },
        _ => {},
    }
}

/// No piece holds the pattern: every occurrence that splitting meets is cut
/// out, and none is left inside a piece.
pub proof fn lemma_pieces_hold_no_pattern(s: Seq<char>, pat: Seq<char>, from: int, k: int)
    requires
        0 <= from <= s.len(),
        pat.len() > 0,
        0 <= k < split_from(s, pat, from).len(),
    ensures
        !contains(split_from(s, pat, from)[k], pat),
    decreases s.len() - from,
{
    lemma_first_occurrence(s, pat, from);
    match first_occurrence(s, pat, from) {
        Some(at) if pat.len() > 0 && from <= at && at + pat.len() <= s.len() => {
            let head = s.subrange(from, at);
            if k == 0 {
                assert forall|j: int| !occurs_at(head, pat, j) by {
                    if occurs_at(head, pat, j) {
                        assert(s.subrange(from + j, from + j + pat.len()) =~= head.subrange(
                            j,
                            j + pat.len(),
                        ));
                        assert(occurs_at(s, pat, from + j));
                    }
                }
            } else {
                lemma_pieces_hold_no_pattern(s, pat, at + pat.len(), k - 1);
            }
        },
        _ => {
            let tail = s.subrange(from, s.len() as int);
            assert forall|j: int| !occurs_at(tail, pat, j) by {
                if occurs_at(tail, pat, j) {
                    assert(s.subrange(from + j, from + j + pat.len()) =~= tail.subrange(
                        j,
                        j + pat.len(),
                    ));
                    assert(occurs_at(s, pat, from + j));
                }
            }
        },
    }
}

/// `String::push` of the standard library: the character is appended at the
/// end, and the characters before it stay as they were.
pub assume_specification[ String::push ](s: &mut String, ch: char)
    ensures
        final(s)@ == old(s)@.push(ch),
;

/// The characters of a string, in order.
pub fn chars_of(s: &str) -> (v: Vec<char>)
    ensures
        v@ == s@,
{
    let mut v: Vec<char> = Vec::new();
    for c in it: s.chars()
        invariant
            v@ == it.seq().take(it.index()),
    {
        v.push(c);
    }
    v
}

/// The string made of the characters of `chars`, in order.
pub fn string_of(chars: &Vec<char>) -> (s: String)
    ensures
        s@ == chars@,
{
    let mut s = String::new();
    let mut i: usize = 0;
    while i < chars.len()
        invariant
            i <= chars.len(),
            s@ == chars@.take(i as int),
        decreases chars.len() - i,
    {
        s.push(chars[i]);
        i += 1;
    }
    s
}

/// A copy of the characters of `s` from position `from` up to `to`.
pub fn slice(s: &Vec<char>, from: usize, to: usize) -> (piece: Vec<char>)
    requires
        from <= to <= s.len(),
    ensures
        piece@ == s@.subrange(from as int, to as int),
{
    let mut piece: Vec<char> = Vec::new();
    let mut i: usize = from;
    while i < to
        invariant
            from <= i <= to <= s.len(),
            piece@ == s@.subrange(from as int, i as int),
        decreases to - i,
    {
        piece.push(s[i]);
        i += 1;
    }
    piece
}

/// Whether `pat` stands in `s` at position `at`.
pub fn matches_at(s: &Vec<char>, pat: &Vec<char>, at: usize) -> (found: bool)
    ensures
        found == occurs_at(s@, pat@, at as int),
{
    if at > s.len() || pat.len() > s.len() - at {
        return false;
    }
    let mut k: usize = 0;
    while k < pat.len()
        invariant
            at + pat.len() <= s.len(),
            k <= pat.len(),
            forall|j: int| 0 <= j < k ==> s@[at + j] == pat@[j],
        decreases pat.len() - k,
    {
        if s[at + k] != pat[k] {
            return false;
        }
        k += 1;
    }
    assert(s@.subrange(at as int, at + pat.len()) =~= pat@);
    true
}

/// The position of the leftmost occurrence of `pat` in `s` at or after `from`.
pub fn find(s: &Vec<char>, pat: &Vec<char>, from: usize) -> (found: Option<usize>)
    ensures
        match found {
            Some(at) => first_occurrence(s@, pat@, from as int) == Some(at as int),
            None => first_occurrence(s@, pat@, from as int) is None,
        },
{
    if from > s.len() || pat.len() > s.len() - from {
        return None;
    }
    let mut i: usize = from;
    while pat.len() <= s.len() - i
        invariant
            from <= i <= s.len(),
            first_occurrence(s@, pat@, from as int) == first_occurrence(s@, pat@, i as int),
        decreases s.len() - i,
    {
        if matches_at(s, pat, i) {
            return Some(i);
        }
        assert(i < s.len()) by {
            if i == s.len() {
                assert(s@.subrange(i as int, i as int) =~= pat@);
            }
        }
        i += 1;
    }
    None
}

/// Whether `pat` occurs in `s`.
pub fn has(s: &Vec<char>, pat: &Vec<char>) -> (found: bool)
    ensures
        found == contains(s@, pat@),
{
    proof {
        lemma_contains_iff_found(s@, pat@);
    }
    find(s, pat, 0).is_some()
}

/// The piece of `s` before the first occurrence of `pat`.
pub fn first_piece_of(s: &Vec<char>, pat: &Vec<char>) -> (piece: Vec<char>)
    ensures
        piece@ == first_piece(s@, pat@),
{
    proof {
        lemma_first_occurrence(s@, pat@, 0);
    }
    if pat.len() == 0 {
        return slice(s, 0, s.len());
    }
    match find(s, pat, 0) {
        Some(at) => slice(s, 0, at),
        None => slice(s, 0, s.len()),
    }
}

/// The piece of `s` after the last occurrence of `pat` that splitting finds.
pub fn last_piece_of(s: &Vec<char>, pat: &Vec<char>) -> (piece: Vec<char>)
    ensures
        piece@ == last_piece(s@, pat@),
{
    if pat.len() == 0 {
        return slice(s, 0, s.len());
    }
    let mut start: usize = 0;
    loop
        invariant
            pat.len() > 0,
            start <= s.len(),
            split_from(s@, pat@, start as int).last() == last_piece(s@, pat@),
        decreases s.len() - start,
    {
        proof {
            lemma_first_occurrence(s@, pat@, start as int);
        }
        match find(s, pat, start) {
            Some(at) => {
                proof {
                    lemma_split_nonempty(s@, pat@, at + pat.len());
                }
                start = at + pat.len();
            },
            None => {
                return slice(s, start, s.len());
            },
        }
    }
}

/// The pieces of `s` between the occurrences of `pat`.
pub fn split_on(s: &Vec<char>, pat: &Vec<char>) -> (parts: Vec<Vec<char>>)
    ensures
        views(parts@) == split(s@, pat@),
{
    let mut parts: Vec<Vec<char>> = Vec::new();
    if pat.len() == 0 {
        parts.push(slice(s, 0, s.len()));
        return parts;
    }
    let mut start: usize = 0;
    loop
        invariant
            pat.len() > 0,
            start <= s.len(),
            views(parts@) + split_from(s@, pat@, start as int) == split(s@, pat@),
        decreases s.len() - start,
    {
        proof {
            lemma_first_occurrence(s@, pat@, start as int);
        }
        match find(s, pat, start) {
            Some(at) => {
                parts.push(slice(s, start, at));
                start = at + pat.len();
            },
            None => {
                parts.push(slice(s, start, s.len()));
                return parts;
            },
        }
    }
}

} // verus!

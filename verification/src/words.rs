//! Splitting a text at a separator and joining pieces with one.

use vstd::prelude::*;
use crate::text::char_is_space;
use crate::text::is_space;

verus! {

/// The texts that a sequence of character vectors holds.
pub open spec fn texts(words: Seq<Vec<char>>) -> Seq<Seq<char>> {
    words.map_values(|w: Vec<char>| w@)
}

/// The pieces of `s` between occurrences of `sep`. There is always at least
/// one piece; two separators in a row, or one at either end, give an empty
/// piece.
pub open spec fn split(s: Seq<char>, sep: char) -> Seq<Seq<char>>
    decreases s.len(),
{
    if s.len() == 0 {
        seq![Seq::empty()]
    } else {
        let before = split(s.drop_last(), sep);
        if s.last() == sep {
            before.push(Seq::empty())
        } else {
            before.drop_last().push(before.last().push(s.last()))
        }
    }
}

/// The pieces written one after another with `sep` between neighbours.
pub open spec fn join(parts: Seq<Seq<char>>, sep: char) -> Seq<char>
    decreases parts.len(),
{
    if parts.len() == 0 {
        Seq::empty()
    } else if parts.len() == 1 {
        parts[0]
    } else {
        join(parts.drop_last(), sep).push(sep) + parts.last()
    }
}

/// No piece holds the separator.
pub open spec fn free_of(parts: Seq<Seq<char>>, sep: char) -> bool {
    forall|i: int, j: int|
        0 <= i < parts.len() && 0 <= j < parts[i].len() ==> #[trigger] parts[i][j] != sep
}

/// Splitting never yields an empty list, no piece holds the separator, and
/// joining the pieces with the separator gives the text back.
pub proof fn lemma_split_join(s: Seq<char>, sep: char)
    ensures
        split(s, sep).len() >= 1,
        free_of(split(s, sep), sep),
        join(split(s, sep), sep) == s,
    decreases s.len(),
{
    if s.len() > 0 {
        let before = split(s.drop_last(), sep);
        lemma_split_join(s.drop_last(), sep);
        let now = split(s, sep);
        if s.last() == sep {
            assert(now.drop_last() == before);
        } else {
            let grown = before.last().push(s.last());
            assert(now.drop_last() == before.drop_last());
            if before.len() > 1 {
                assert(join(before, sep) == join(before.drop_last(), sep).push(sep)
                    + before.last());
                assert(join(before.drop_last(), sep).push(sep) + grown == (join(
                    before.drop_last(),
                    sep,
                ).push(sep) + before.last()).push(s.last()));
            }
            assert forall|i: int, j: int|
                0 <= i < now.len() && 0 <= j < now[i].len() implies #[trigger] now[i][j]
                != sep by {}
        }
    }
}

/// The position of the first character at or after `from` that is no white
/// space, or the length of `s` if there is none.
pub open spec fn token_start(s: Seq<char>, from: int) -> int
    decreases s.len() - from,
{
    if 0 <= from < s.len() && is_space(s[from]) {
        token_start(s, from + 1)
    } else {
        from
    }
}

/// The position of the first white space at or after `from`, or the length
/// of `s` if there is none.
pub open spec fn token_end(s: Seq<char>, from: int) -> int
    decreases s.len() - from,
{
    if 0 <= from < s.len() && !is_space(s[from]) {
        token_end(s, from + 1)
    } else {
        from
    }
}

/// The first token of `s`: its first run of characters that are no white
/// space, as long as it goes. Empty where `s` holds white space only.
pub open spec fn first_token(s: Seq<char>) -> Seq<char> {
    s.subrange(token_start(s, 0), token_end(s, token_start(s, 0)))
}

/// Where a token search that begins inside `s` ends.
pub proof fn lemma_token_bounds(s: Seq<char>, from: int)
    requires
        0 <= from <= s.len(),
    ensures
        from <= token_start(s, from) <= s.len(),
        from <= token_end(s, from) <= s.len(),
        forall|i: int| from <= i < token_start(s, from) ==> is_space(#[trigger] s[i]),
        forall|i: int| from <= i < token_end(s, from) ==> !is_space(#[trigger] s[i]),
        token_start(s, from) < s.len() ==> !is_space(s[token_start(s, from)]),
        token_end(s, from) < s.len() ==> is_space(s[token_end(s, from)]),
    decreases s.len() - from,
{
    if from < s.len() {
        lemma_token_bounds(s, from + 1);
    }
}

/// The first token holds no white space, only white space stands before it,
/// and white space or nothing stands behind it; it is empty only where there
/// is nothing but white space.
pub proof fn lemma_first_token(s: Seq<char>)
    ensures
        ({
            let start = token_start(s, 0);
            let end = token_end(s, start);
            &&& 0 <= start <= end <= s.len()
            &&& first_token(s).len() == end - start
            &&& forall|i: int| 0 <= i < start ==> is_space(#[trigger] s[i])
            &&& forall|i: int| 0 <= i < first_token(s).len() ==> !is_space(
                #[trigger] first_token(s)[i],
            )
            &&& end < s.len() ==> is_space(s[end])
            &&& first_token(s).len() == 0 <==> forall|i: int|
                0 <= i < s.len() ==> is_space(#[trigger] s[i])
        }),
{
    let start = token_start(s, 0);
    lemma_token_bounds(s, 0);
    lemma_token_bounds(s, start);
}

/// The first token of the characters of `s` from position `from` up to
/// position `to`.
pub(crate) fn first_word(s: &Vec<char>, from: usize, to: usize) -> (r: Vec<char>)
    requires
        from <= to <= s.len(),
    ensures
        r@ == first_token(s@.subrange(from as int, to as int)),
{
    let ghost part = s@.subrange(from as int, to as int);
    let mut i: usize = from;
    while i < to && char_is_space(s[i])
        invariant
            from <= i <= to <= s.len(),
            part == s@.subrange(from as int, to as int),
            token_start(part, 0) == token_start(part, i - from),
        decreases to - i,
    {
        i += 1;
    }
    let start = i;
    let mut word: Vec<char> = Vec::new();
    while i < to && !char_is_space(s[i])
        invariant
            from <= start <= i <= to <= s.len(),
            part == s@.subrange(from as int, to as int),
            token_end(part, start - from) == token_end(part, i - from),
            word@ == part.subrange(start - from, i - from),
        decreases to - i,
    {
        word.push(s[i]);
        i += 1;
    }
    word
}

/// Appends the characters of `src` to `out`.
pub fn extend_chars(out: &mut Vec<char>, src: &Vec<char>)
    ensures
        final(out)@ == old(out)@ + src@,
{
    let mut i: usize = 0;
    while i < src.len()
        invariant
            i <= src.len(),
            out@ == old(out)@ + src@.take(i as int),
        decreases src.len() - i,
    {
        out.push(src[i]);
        i += 1;
    }
}

/// Splits `s` at every `sep`.
pub fn split_chars(s: &Vec<char>, sep: char) -> (r: Vec<Vec<char>>)
    ensures
        texts(r@) == split(s@, sep),
{
    let mut parts: Vec<Vec<char>> = Vec::new();
    let mut current: Vec<char> = Vec::new();
    let mut i: usize = 0;
    while i < s.len()
        invariant
            i <= s.len(),
            texts(parts@).push(current@) == split(s@.take(i as int), sep),
        decreases s.len() - i,
    {
        let c = s[i];
        proof {
            assert(s@.take(i + 1).drop_last() == s@.take(i as int));
        }
        if c == sep {
            parts.push(current);
            current = Vec::new();
        } else {
            current.push(c);
        }
        i += 1;
    }
    proof {
        assert(s@.take(s@.len() as int) == s@);
    }
    parts.push(current);
    parts
}

/// Joins the pieces with `sep` between neighbours.
pub fn join_chars(parts: &Vec<Vec<char>>, sep: char) -> (r: Vec<char>)
    ensures
        r@ == join(texts(parts@), sep),
{
    let mut out: Vec<char> = Vec::new();
    let mut i: usize = 0;
    while i < parts.len()
        invariant
            i <= parts.len(),
            out@ == join(texts(parts@).take(i as int), sep),
        decreases parts.len() - i,
    {
        proof {
            assert(texts(parts@).take(i + 1).drop_last() == texts(parts@).take(i as int));
        }
        if i > 0 {
            out.push(sep);
        }
        extend_chars(&mut out, &parts[i]);
        i += 1;
    }
    proof {
        assert(texts(parts@).take(parts@.len() as int) == texts(parts@));
    }
    out
}

} // verus!

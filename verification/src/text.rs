//! Character-level helpers on which the page parser is built.

use vstd::prelude::*;

verus! {

/// Whether Unicode gives `c` the property `Uppercase`.
pub uninterp spec fn unicode_uppercase(c: char) -> bool;

/// The lowercase mapping of `c`, character by character.
pub uninterp spec fn unicode_lowercase(c: char) -> Seq<char>;

/// `text` as the standard debug format writes a string: in double quotes,
/// with what cannot stand there as it is written as an escape.
pub uninterp spec fn debug_quoted(text: Seq<char>) -> Seq<char>;

/// Formats `text` with `{:?}`, that is with `<str as Debug>::fmt`; the
/// outcome is trusted to be a function of the characters of `text` alone, and
/// is known to proofs only under the name [`debug_quoted`].
#[verifier::external_body]
pub(crate) fn debug_form(text: &str) -> (r: String)
    ensures
        r@ == debug_quoted(text@),
{
    format!("{:?}", text)
}

/// Calls `char::is_uppercase`; the answer is trusted to be a function of `c`
/// alone and is known to proofs only under the name [`unicode_uppercase`].
#[verifier::external_body]
fn char_is_uppercase(c: char) -> (r: bool)
    ensures
        r == unicode_uppercase(c),
{
    c.is_uppercase()
}

/// Calls `char::to_lowercase` and collects what it yields; the characters are
/// trusted to be a function of `c` alone, named [`unicode_lowercase`].
#[verifier::external_body]
fn char_to_lowercase(c: char) -> (r: Vec<char>)
    ensures
        r@ == unicode_lowercase(c),
{
    c.to_lowercase().collect()
}

/// Collects the characters into a `String` with `String::from_iter`; the
/// string is trusted to hold exactly those characters, in order.
#[verifier::external_body]
pub(crate) fn string_of(chars: &Vec<char>) -> (r: String)
    ensures
        r@ == chars@,
{
    chars.iter().collect()
}

/// The characters of `s`, in order.
pub fn chars_of(s: &str) -> (r: Vec<char>)
    ensures
        r@ == s@,
{
    let mut out: Vec<char> = Vec::new();
    for c in it: s.chars()
        invariant
            it.seq() == s@,
            out@ == it.seq().take(it.index()),
    {
        out.push(c);
    }
    out
}

/// Whether the two texts hold the same characters.
pub fn same_text(a: &str, b: &str) -> (r: bool)
    ensures
        r == (a@ == b@),
{
    let left = String::from_str(a);
    let right = String::from_str(b);
    left == right
}

/// `c` is white space: one of the characters to which Unicode gives the
/// property `White_Space`.
pub open spec fn is_space(c: char) -> bool {
    let code = c as u32;
    ||| 0x09 <= code <= 0x0D
    ||| code == 0x20
    ||| code == 0x85
    ||| code == 0xA0
    ||| code == 0x1680
    ||| 0x2000 <= code <= 0x200A
    ||| code == 0x2028
    ||| code == 0x2029
    ||| code == 0x202F
    ||| code == 0x205F
    ||| code == 0x3000
}

/// Whether `c` is white space.
pub fn char_is_space(c: char) -> (r: bool)
    ensures
        r == is_space(c),
{
    let code = c as u32;
    (0x09 <= code && code <= 0x0D) || code == 0x20 || code == 0x85 || code == 0xA0 || code
        == 0x1680 || (0x2000 <= code && code <= 0x200A) || code == 0x2028 || code == 0x2029
        || code == 0x202F || code == 0x205F || code == 0x3000
}

/// Every character of `word` is uppercase; the empty word counts as uppercase.
pub open spec fn all_uppercase(word: Seq<char>) -> bool {
    forall|i: int| 0 <= i < word.len() ==> unicode_uppercase(#[trigger] word[i])
}

/// The lowercase mappings of the characters of `s`, one after another.
pub open spec fn lowercased(s: Seq<char>) -> Seq<char>
    decreases s.len(),
{
    if s.len() == 0 {
        Seq::empty()
    } else {
        lowercased(s.drop_last()) + unicode_lowercase(s.last())
    }
}

/// `word` with its first character kept and every later one lowercased.
pub open spec fn normalcase(word: Seq<char>) -> Seq<char> {
    if word.len() == 0 {
        word
    } else {
        seq![word[0]] + lowercased(word.skip(1))
    }
}

/// Every character of `s` is its own lowercase mapping.
pub open spec fn is_lowercased(s: Seq<char>) -> bool {
    forall|i: int| 0 <= i < s.len() ==> unicode_lowercase(#[trigger] s[i]) == seq![s[i]]
}

/// The lowercase mapping of `c` is settled: lowercasing it again changes
/// nothing.
pub open spec fn settles(c: char) -> bool {
    is_lowercased(unicode_lowercase(c))
}

/// Lowercasing goes character by character: it distributes over joining.
pub proof fn lemma_lowercased_add(a: Seq<char>, b: Seq<char>)
    ensures
        lowercased(a + b) == lowercased(a) + lowercased(b),
    decreases b.len(),
{
    if b.len() > 0 {
        lemma_lowercased_add(a, b.drop_last());
        assert((a + b).drop_last() == a + b.drop_last());
    }
}

/// A text of characters that are their own lowercase mapping is its own
/// lowercase form.
pub proof fn lemma_lowercased_fixes(s: Seq<char>)
    requires
        is_lowercased(s),
    ensures
        lowercased(s) == s,
    decreases s.len(),
{
    if s.len() > 0 {
        lemma_lowercased_fixes(s.drop_last());
    }
}

/// A word in normal case stays as it is: where every character after the
/// first is its own lowercase mapping, putting the word in normal case
/// changes nothing.
pub proof fn lemma_normalcase_fixes(word: Seq<char>)
    requires
        is_lowercased(word.skip(1)),
    ensures
        normalcase(word) == word,
{
    if word.len() > 0 {
        lemma_lowercased_fixes(word.skip(1));
    }
}

/// Normal case is reached in one step: where the lowercase mappings of the
/// characters after the first are settled, putting the word in normal case a
/// second time changes nothing.
pub proof fn lemma_normalcase_idempotent(word: Seq<char>)
    requires
        forall|i: int| 1 <= i < word.len() ==> settles(#[trigger] word[i]),
    ensures
        normalcase(normalcase(word)) == normalcase(word),
{
    if word.len() > 0 {
        let rest = word.skip(1);
        assert forall|i: int| 0 <= i < rest.len() implies settles(#[trigger] rest[i]) by {}
        lemma_lowercased_settled(rest);
        let once = normalcase(word);
        assert(once.skip(1) == lowercased(rest));
    }
}

/// The lowercase form of a text whose lowercase mappings are settled is its
/// own lowercase form.
pub proof fn lemma_lowercased_settled(s: Seq<char>)
    requires
        forall|i: int| 0 <= i < s.len() ==> settles(#[trigger] s[i]),
    ensures
        lowercased(lowercased(s)) == lowercased(s),
    decreases s.len(),
{
    if s.len() > 0 {
        lemma_lowercased_settled(s.drop_last());
        lemma_lowercased_add(lowercased(s.drop_last()), unicode_lowercase(s.last()));
        lemma_lowercased_fixes(unicode_lowercase(s.last()));
    }
}

/// Whether every character of `word` is uppercase.
pub fn chars_all_uppercase(word: &Vec<char>) -> (r: bool)
    ensures
        r == all_uppercase(word@),
{
    let mut i: usize = 0;
    while i < word.len()
        invariant
            i <= word.len(),
            forall|j: int| 0 <= j < i ==> unicode_uppercase(#[trigger] word@[j]),
        decreases word.len() - i,
    {
        if !char_is_uppercase(word[i]) {
            return false;
        }
        i += 1;
    }
    true
}

/// `word` in normal case: the first character as it is, the rest lowercased.
pub fn chars_normalcase(word: &Vec<char>) -> (r: Vec<char>)
    ensures
        r@ == normalcase(word@),
{
    let mut out: Vec<char> = Vec::new();
    if word.len() == 0 {
        return out;
    }
    out.push(word[0]);
    let mut i: usize = 1;
    while i < word.len()
        invariant
            1 <= i <= word.len(),
            out@ == seq![word@[0]] + lowercased(word@.subrange(1, i as int)),
        decreases word.len() - i,
    {
        let mut lower = char_to_lowercase(word[i]);
        proof {
            assert(word@.subrange(1, i + 1).drop_last() == word@.subrange(1, i as int));
        }
        out.append(&mut lower);
        i += 1;
    }
    out
}

/// The characters of `s`, each replaced by its lowercase mapping.
pub fn chars_lowercased(s: &Vec<char>) -> (r: Vec<char>)
    ensures
        r@ == lowercased(s@),
{
    let mut out: Vec<char> = Vec::new();
    let mut i: usize = 0;
    while i < s.len()
        invariant
            i <= s.len(),
            out@ == lowercased(s@.take(i as int)),
        decreases s.len() - i,
    {
        let mut lower = char_to_lowercase(s[i]);
        proof {
            assert(s@.take(i + 1).drop_last() == s@.take(i as int));
        }
        out.append(&mut lower);
        i += 1;
    }
    proof {
        assert(s@.take(s@.len() as int) == s@);
    }
    out
}

/// Whether every character of `word` is uppercase; true of the empty word.
pub fn is_uppercase(word: &str) -> (r: bool)
    ensures
        r == all_uppercase(word@),
{
    let chars = chars_of(word);
    chars_all_uppercase(&chars)
}

/// `word` with its first character kept and the rest lowercased.
pub fn to_normalcase(word: &str) -> (r: String)
    ensures
        r@ == normalcase(word@),
{
    let chars = chars_of(word);
    let out = chars_normalcase(&chars);
    string_of(&out)
}

} // verus!

//! Splitting a player's full name into family name and given name.
//!
//! The source writes the family name in capitals: `MUSTERMANN Max`. A word
//! counts as part of the family name when all its characters are uppercase,
//! which is reliable for names in ASCII and not beyond. Where spaces stand in
//! a row or at either end, the empty words between them belong to neither
//! name.

use vstd::prelude::*;
use crate::text::all_uppercase;
use crate::text::chars_all_uppercase;
use crate::text::chars_normalcase;
use crate::text::chars_of;
use crate::text::normalcase;
use crate::text::string_of;
use crate::words::join;
use crate::words::join_chars;
use crate::words::split;
use crate::words::split_chars;
use crate::words::texts;

verus! {

/// The words among `words` that are not empty and all uppercase, as they
/// are.
pub open spec fn uppercase_words(words: Seq<Seq<char>>) -> Seq<Seq<char>> {
    words.filter(|w: Seq<char>| w.len() > 0 && all_uppercase(w))
}

/// The uppercase words among `words`, each put in normal case.
pub open spec fn family_words(words: Seq<Seq<char>>) -> Seq<Seq<char>> {
    uppercase_words(words).map_values(|w: Seq<char>| normalcase(w))
}

/// The words among `words` that are not all uppercase, as they are. Such a
/// word is never empty.
pub open spec fn given_words(words: Seq<Seq<char>>) -> Seq<Seq<char>> {
    words.filter(|w: Seq<char>| w.len() > 0 && !all_uppercase(w))
}

/// The family name in `full`: its words that are all uppercase, in normal
/// case, with single spaces between them.
pub open spec fn family_name(full: Seq<char>) -> Seq<char> {
    join(family_words(split(full, ' ')), ' ')
}

/// The given name in `full`: its words that are not all uppercase, with
/// single spaces between them.
pub open spec fn given_name(full: Seq<char>) -> Seq<char> {
    join(given_words(split(full, ' ')), ' ')
}

/// A full name, split.
#[derive(Clone, Debug, PartialEq, Eq)]
pub struct SplitName {
    pub family: String,
    pub given: String,
}

/// Splits the space-separated `full` name into family name and given name.
pub fn split_name(full: &str) -> (r: SplitName)
    ensures
        r.family@ == family_name(full@),
        r.given@ == given_name(full@),
{
    let chars = chars_of(full);
    let mut words = split_chars(&chars, ' ');
    let mut family: Vec<Vec<char>> = Vec::new();
    let mut given: Vec<Vec<char>> = Vec::new();
    let ghost all = texts(words@);
    let total = words.len();
    let mut i: usize = 0;
    while i < total
        invariant
            i <= total,
            total == words.len(),
            forall|j: int| i <= j < total ==> (#[trigger] words@[j])@ == all[j],
            all.len() == total,
            texts(family@) == family_words(all.take(i as int)),
            texts(given@) == given_words(all.take(i as int)),
        decreases total - i,
    {
        proof {
            reveal(Seq::filter);
            assert(all.take(i + 1).drop_last() == all.take(i as int));
        }
        if words[i].len() > 0 {
            if chars_all_uppercase(&words[i]) {
                let normal = chars_normalcase(&words[i]);
                proof {
                    assert(family_words(all.take(i + 1)) == family_words(
                        all.take(i as int),
                    ).push(normal@));
                }
                family.push(normal);
            } else {
                let mut word: Vec<char> = Vec::new();
                core::mem::swap(&mut word, &mut words[i]);
                given.push(word);
            }
        }
        i += 1;
    }
    proof {
        assert(all.take(total as int) == all);
    }
    let family_chars = join_chars(&family, ' ');
    let given_chars = join_chars(&given, ' ');
    SplitName { family: string_of(&family_chars), given: string_of(&given_chars) }
}

} // verus!

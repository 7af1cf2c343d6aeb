//! How default passwords are made: a word, an underscore, and a number.

use crate::error::{DenimError, DenimResult};
use crate::text::{decimal, decimal_text, lines_trimmed, trimmed_lines};
use std::collections::HashMap;
use std::ops::Range;
use vstd::prelude::*;
use vstd::string::*;

verus! {

/// The ranges from which the parts of a default password are drawn: how
/// long the word is, and the number. Each range ends before its `end`.
#[derive(Debug)]
pub struct AuthConfig {
    pub word_len_range: Range<usize>,
    pub numbers_range: Range<usize>,
}

impl Default for AuthConfig {
    /// Words of 5 to 8 letters and numbers of four digits.
    fn default() -> (config: Self)
        ensures
            config.word_len_range.start == 5,
            config.word_len_range.end == 9,
            config.numbers_range.start == 1_000,
            config.numbers_range.end == 10_000,
    {
        AuthConfig {
            word_len_range: Range { start: 5, end: 9 },
            numbers_range: Range { start: 1_000, end: 10_000 },
        }
    }
}

/// `rand::rng` followed by `rand::Rng::random_range` on the range from `low`
/// up to, not including, `high`. Trusted: the number lies in that range.
/// An empty range is left out, for which `random_range` panics.
#[verifier::external_body]
fn random_in(low: usize, high: usize) -> (drawn: usize)
    requires
        low < high,
    ensures
        low <= drawn < high,
{
    rand::Rng::random_range(&mut rand::rng(), low..high)
}

/// How many bytes the text `s` takes.
pub open spec fn byte_len(s: Seq<char>) -> usize {
    vstd::utf8::encode_utf8(s).len() as usize
}

/// Those of `lines`, in their order, that take `len` bytes.
pub open spec fn words_of_len(lines: Seq<Seq<char>>, len: usize) -> Seq<Seq<char>>
    decreases lines.len(),
{
    if lines.len() == 0 {
        Seq::empty()
    } else if byte_len(lines.last()) == len {
        words_of_len(lines.drop_last(), len).push(lines.last())
    } else {
        words_of_len(lines.drop_last(), len)
    }
}

/// What the words of `list` say.
pub open spec fn texts(list: Seq<String>) -> Seq<Seq<char>> {
    Seq::new(list.len(), |i: int| list[i]@)
}

/// The password made of `word` and `number`.
pub open spec fn password_of(word: Seq<char>, number: nat) -> Seq<char> {
    word + seq!['_'] + decimal(number)
}

/// Whether `words` holds, under each length, the words of `lines` of that
/// length in their order, and holds no length without a word.
pub open spec fn holds_by_length(words: Map<usize, Vec<String>>, lines: Seq<Seq<char>>) -> bool {
    &&& forall|len: usize| #[trigger]
        words.contains_key(len) <==> words_of_len(lines, len).len() > 0
    &&& forall|len: usize| #[trigger]
        words.contains_key(len) ==> texts(words[len]@) == words_of_len(lines, len)
}

impl AuthConfig {
    /// The words of a list that holds one word on each line, by their
    /// length in bytes; white space around a word does not belong to it.
    pub fn words(all_words: &str) -> (words: HashMap<usize, Vec<String>>)
        ensures
            holds_by_length(words@, trimmed_lines(all_words@)),
    {
        let lines = lines_trimmed(all_words);
        let ghost all = trimmed_lines(all_words@);
        let mut words: HashMap<usize, Vec<String>> = HashMap::new();
        let mut i: usize = 0;
        assert(all.take(0) =~= Seq::<Seq<char>>::empty());
        while i < lines.len()
            invariant
                i <= lines@.len(),
                lines@.len() == all.len(),
                forall|j: int| 0 <= j < lines@.len() ==> (#[trigger] lines@[j])@ == all[j],
                holds_by_length(words@, all.take(i as int)),
            decreases lines@.len() - i,
        {
            let word = lines[i].clone();
            let len = word.as_str().len();
            let ghost before = words@;
            let ghost taken = all.take(i as int);
            let ghost next = all.take(i + 1);
            let mut list = match words.remove(&len) {
                Some(list) => list,
                None => Vec::new(),
            };
            let ghost old_list = list@;
            list.push(word);
            assert(next.drop_last() =~= taken);
            assert(next.last() == all[i as int]);
            assert(texts(list@) =~= texts(old_list).push(all[i as int]));
            assert(texts(list@) =~= words_of_len(next, len));
            words.insert(len, list);
            assert(words@ =~= before.insert(len, list));
            assert forall|other: usize| #[trigger]
                words@.contains_key(other) <==> words_of_len(next, other).len() > 0 by {
                assert(before.contains_key(other) <==> words_of_len(taken, other).len() > 0);
            }
            assert forall|other: usize| #[trigger]
                words@.contains_key(other) implies texts(words@[other]@) == words_of_len(
                next,
                other,
            ) by {
                if other != len {
                    assert(before.contains_key(other));
                }
            }
            i = i + 1;
        }
        assert(all.take(i as int) =~= all);
        words
    }

    /// Whether a password can be drawn at all: neither range is empty.
    pub open spec fn can_draw(&self) -> bool {
        self.word_len_range.start < self.word_len_range.end && self.numbers_range.start
            < self.numbers_range.end
    }

    /// Whether `words` holds a word under `len`.
    pub open spec fn has_word_of(words: Map<usize, Vec<String>>, len: usize) -> bool {
        words.contains_key(len) && words[len]@.len() > 0
    }

    /// Whether `words` holds a word under some length of the range of word
    /// lengths: without one, no password can be drawn.
    pub open spec fn has_word_in_range(&self, words: Map<usize, Vec<String>>) -> bool {
        exists|len: usize|
            self.word_len_range.start <= len < self.word_len_range.end && #[trigger] Self::has_word_of(
                words,
                len,
            )
    }

    /// Whether `words` holds a word under every length of the range of word
    /// lengths: then a password is drawn whatever length comes up.
    pub open spec fn has_words_of_every_length(&self, words: Map<usize, Vec<String>>) -> bool {
        forall|len: usize|
            self.word_len_range.start <= len < self.word_len_range.end ==> #[trigger] Self::has_word_of(
                words,
                len,
            )
    }

    /// Whether `password` is a default password that this configuration can
    /// draw from `words`.
    pub open spec fn can_give(&self, words: Map<usize, Vec<String>>, password: Seq<char>) -> bool {
        exists|len: usize, at: int, number: nat|
            {
                &&& self.word_len_range.start <= len < self.word_len_range.end
                &&& words.contains_key(len)
                &&& 0 <= at < words[len]@.len()
                &&& self.numbers_range.start <= number < self.numbers_range.end
                &&& password == #[trigger] password_of(words[len]@[at]@, number)
            }
    }

    /// How many words `words` holds under `len`.
    pub fn count_words(words: &HashMap<usize, Vec<String>>, len: usize) -> (count: usize)
        ensures
            count == (if words@.contains_key(len) {
                words@[len]@.len()
            } else {
                0
            }),
    {
        match words.get(&len) {
            Some(list) => list.len(),
            None => 0,
        }
    }

    /// The password that comes of what was drawn: the word that is the
    /// `pick`-th, counted from zero, of those under `word_len`, an
    /// underscore, and `number`. There is none where fewer words stand
    /// under that length.
    pub fn compose(
        words: &HashMap<usize, Vec<String>>,
        word_len: usize,
        pick: usize,
        number: usize,
    ) -> (password: DenimResult<String>)
        ensures
            password is Ok <==> words@.contains_key(word_len) && pick < words@[word_len]@.len(),
            password matches Ok(p) ==> p@ == password_of(
                words@[word_len]@[pick as int]@,
                number as nat,
            ),
            password matches Err(e) ==> e == DenimError::GeneratePassword,
    {
        match words.get(&word_len) {
            Some(list) => {
                if pick < list.len() {
                    proof {
                        reveal_strlit("_");
                    }
                    let mut password = list[pick].clone();
                    password.append("_");
                    let digits = decimal_text(number);
                    password.append(digits.as_str());
                    assert("_"@ =~= seq!['_']);
                    Ok(password)
                } else {
                    Err(DenimError::GeneratePassword)
                }
            },
            None => Err(DenimError::GeneratePassword),
        }
    }

    /// Draws a default password: a word that `words` holds under a length of
    /// the range of word lengths, an underscore, and a number of the range
    /// of numbers. Which length, which word and which number is up to
    /// chance. It fails where a range is empty or no word stands under the
    /// length that was drawn: so it never fails where there is a word under
    /// every length of the range, and always where there is none under any.
    pub fn generate(&self, words: &HashMap<usize, Vec<String>>) -> (password: DenimResult<String>)
        ensures
            self.can_draw() && self.has_words_of_every_length(words@) ==> password is Ok,
            password is Ok ==> self.can_draw() && self.has_word_in_range(words@),
            password matches Err(e) ==> e == DenimError::GeneratePassword,
            password matches Ok(p) ==> self.can_give(words@, p@),
    {
        if self.word_len_range.start >= self.word_len_range.end || self.numbers_range.start
            >= self.numbers_range.end {
            return Err(DenimError::GeneratePassword);
        }
        let word_len = random_in(self.word_len_range.start, self.word_len_range.end);
        let count = Self::count_words(words, word_len);
        if count == 0 {
            assert(!Self::has_word_of(words@, word_len));
            return Err(DenimError::GeneratePassword);
        }
        let pick = random_in(0, count);
        let number = random_in(self.numbers_range.start, self.numbers_range.end);
        let password = Self::compose(words, word_len, pick, number);
        proof {
            assert(Self::has_word_of(words@, word_len));
            assert(password->Ok_0@ == password_of(
                words@[word_len]@[pick as int]@,
                number as nat,
            ));
        }
        password
    }
}

} // verus!

//! Splitting a line of input into words.
//!
//! A word is a longest run of characters that are not whitespace. There is no
//! quoting and no escaping: whitespace always separates.

use vstd::prelude::*;
use vstd::string::StrSliceExecFns;

verus! {

/// Whether `c` separates words: the characters that Unicode marks as
/// `White_Space`.
pub open spec fn is_whitespace(c: char) -> bool {
    let code = c as u32;
    ||| 0x09 <= code <= 0x0D
    ||| code == 0x20
    ||| code == 0x85
    ||| code == 0xA0
    ||| code == 0x1680
    ||| 0x2000 <= code <= 0x200A
    ||| code == 0x2028
    ||| code == 0x2029
    ||| code == 0x202F
    ||| code == 0x205F
    ||| code == 0x3000
}

/// Whether every character of `line` is whitespace; true of the empty line.
pub open spec fn is_blank(line: Seq<char>) -> bool {
    forall|i: int| 0 <= i < line.len() ==> is_whitespace(#[trigger] line[i])
}

/// Whether `word` can stand as one word: it holds at least one character and
/// no whitespace.
pub open spec fn is_word(word: Seq<char>) -> bool {
    &&& word.len() > 0
    &&& forall|i: int| 0 <= i < word.len() ==> !is_whitespace(#[trigger] word[i])
}

/// The length of the word that `text` begins with: the number of characters
/// before the first whitespace, or all of them if there is none.
pub open spec fn word_len(text: Seq<char>) -> nat
    decreases text.len(),
{
    if text.len() == 0 || is_whitespace(text[0]) {
        0
    } else {
        1 + word_len(text.drop_first())
    }
}

/// The words of `line`, from left to right.
pub open spec fn words(line: Seq<char>) -> Seq<Seq<char>>
    decreases line.len(),
    via words_decreases
{
    if line.len() == 0 {
        Seq::empty()
    } else if is_whitespace(line[0]) {
        words(line.drop_first())
    } else {
        let n = word_len(line) as int;
        seq![line.take(n)] + words(line.skip(n))
    }
}

#[via_fn]
proof fn words_decreases(line: Seq<char>) {
    lemma_word_len(line);
}

/// The word that `text` begins with ends where `word_len` says: it is no
/// longer than `text`, holds no whitespace, and is followed by whitespace or
/// by the end of `text`.
pub proof fn lemma_word_len(text: Seq<char>)
    ensures
        word_len(text) <= text.len(),
        forall|i: int| 0 <= i < word_len(text) ==> !is_whitespace(#[trigger] text[i]),
        word_len(text) < text.len() ==> is_whitespace(text[word_len(text) as int]),
        text.len() > 0 && !is_whitespace(text[0]) ==> word_len(text) > 0,
    decreases text.len(),
{
    if text.len() == 0 || is_whitespace(text[0]) {
    } else {
        let rest = text.drop_first();
        lemma_word_len(rest);
        assert forall|i: int| 0 <= i < word_len(text) implies !is_whitespace(
            #[trigger] text[i],
        ) by {
            if i > 0 {
                assert(text[i] == rest[i - 1]);
            }
        }
    }
}

/// A run of `n` characters without whitespace that stops at whitespace, or at
/// the end of `text`, is the word that `text` begins with.
pub proof fn lemma_word_len_is(text: Seq<char>, n: int)
    requires
        0 <= n <= text.len(),
        forall|i: int| 0 <= i < n ==> !is_whitespace(#[trigger] text[i]),
        n < text.len() ==> is_whitespace(text[n]),
    ensures
        word_len(text) == n,
    decreases n,
{
    if n > 0 {
        let rest = text.drop_first();
        assert forall|i: int| 0 <= i < n - 1 implies !is_whitespace(#[trigger] rest[i]) by {
            assert(rest[i] == text[i + 1]);
        }
        lemma_word_len_is(rest, n - 1);
    }
}

/// Every word holds at least one character and no whitespace.
pub proof fn lemma_words_are_solid(line: Seq<char>)
    ensures
        forall|k: int| 0 <= k < words(line).len() ==> is_word(#[trigger] words(line)[k]),
    decreases line.len(),
{
    if line.len() == 0 {
    } else if is_whitespace(line[0]) {
        lemma_words_are_solid(line.drop_first());
        assert(words(line) == words(line.drop_first()));
    } else {
        let n = word_len(line) as int;
        lemma_word_len(line);
        lemma_words_are_solid(line.skip(n));
        let head = line.take(n);
        let tail = words(line.skip(n));
        assert(words(line) == seq![head] + tail);
        assert forall|k: int| 0 <= k < words(line).len() implies is_word(
            #[trigger] words(line)[k],
        ) by {
            if k > 0 {
                assert(words(line)[k] == tail[k - 1]);
            }
        }
    }
}

/// A line has no words exactly when it is blank.
pub proof fn lemma_no_words_iff_blank(line: Seq<char>)
    ensures
        words(line).len() == 0 <==> is_blank(line),
    decreases line.len(),
{
    if line.len() == 0 {
    } else if is_whitespace(line[0]) {
        let rest = line.drop_first();
        lemma_no_words_iff_blank(rest);
        if is_blank(rest) {
            assert forall|i: int| 0 <= i < line.len() implies is_whitespace(
                #[trigger] line[i],
            ) by {
                if i > 0 {
                    assert(line[i] == rest[i - 1]);
                }
            }
        }
        if is_blank(line) {
            assert forall|i: int| 0 <= i < rest.len() implies is_whitespace(
                #[trigger] rest[i],
            ) by {
                assert(rest[i] == line[i + 1]);
            }
        }
    } else {
        assert(words(line).len() > 0);
    }
}

/// Decides [`is_whitespace`] for one character.
pub fn char_is_whitespace(c: char) -> (b: bool)
    ensures
        b == is_whitespace(c),
{
    let code: u32 = c as u32;
    (0x09 <= code && code <= 0x0D) || code == 0x20 || code == 0x85 || code == 0xA0
        || code == 0x1680 || (0x2000 <= code && code <= 0x200A) || code == 0x2028
        || code == 0x2029 || code == 0x202F || code == 0x205F || code == 0x3000
}

/// The words after `from`, once the word `text[from..to]` has been taken off.
proof fn lemma_take_word(text: Seq<char>, from: int, to: int)
    requires
        0 <= from < to <= text.len(),
        forall|i: int| from <= i < to ==> !is_whitespace(#[trigger] text[i]),
        to < text.len() ==> is_whitespace(text[to]),
    ensures
        words(text.skip(from)) == seq![text.subrange(from, to)] + words(text.skip(to)),
{
    let rest = text.skip(from);
    assert forall|i: int| 0 <= i < to - from implies !is_whitespace(#[trigger] rest[i]) by {
        assert(rest[i] == text[from + i]);
    }
    lemma_word_len_is(rest, to - from);
    assert(rest.take(to - from) == text.subrange(from, to));
    assert(rest.skip(to - from) == text.skip(to));
}

/// Whitespace at `at` adds no word.
proof fn lemma_skip_whitespace(text: Seq<char>, at: int)
    requires
        0 <= at < text.len(),
        is_whitespace(text[at]),
    ensures
        words(text.skip(at)) == words(text.skip(at + 1)),
{
    let rest = text.skip(at);
    assert(rest.drop_first() == text.skip(at + 1));
}

/// Splits `line` into its words.
pub fn split_words(line: &str) -> (tokens: Vec<String>)
    ensures
        tokens.deep_view() == words(line@),
{
    let len: usize = line.unicode_len();
    let mut tokens: Vec<String> = Vec::new();
    // Where the word that is being read began, or `at` between words.
    let mut start: usize = 0;
    let mut at: usize = 0;
    assert(line@.skip(0) == line@);
    for c in it: line.chars()
        invariant
            at == it.index(),
            it.seq() == line@,
            len == line@.len(),
            start <= at <= len,
            forall|i: int| start <= i < at ==> !is_whitespace(#[trigger] line@[i]),
            words(line@) == tokens.deep_view() + words(line@.skip(start as int)),
    {
        if char_is_whitespace(c) {
            if start < at {
                let word = line.substring_char(start, at).to_owned();
                proof {
                    lemma_take_word(line@, start as int, at as int);
                }
                tokens.push(word);
            }
            proof {
                lemma_skip_whitespace(line@, at as int);
            }
            start = at + 1;
        }
        at = at + 1;
    }
    if start < at {
        let word = line.substring_char(start, at).to_owned();
        proof {
            lemma_take_word(line@, start as int, at as int);
        }
        tokens.push(word);
    }
    tokens
}

} // verus!

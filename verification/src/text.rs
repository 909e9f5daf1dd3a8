//! Splitting a label value into words.

use vstd::prelude::*;
use vstd::string::*;

verus! {

/// Whether `c` is white space: a character with the Unicode property
/// `White_Space`.
pub open spec fn whitespace(c: char) -> bool {
    let n = c as u32;
    ||| 0x0009 <= n <= 0x000D
    ||| n == 0x0020
    ||| n == 0x0085
    ||| n == 0x00A0
    ||| n == 0x1680
    ||| 0x2000 <= n <= 0x200A
    ||| n == 0x2028
    ||| n == 0x2029
    ||| n == 0x202F
    ||| n == 0x205F
    ||| n == 0x3000
}

/// Whether `s` holds no white space.
pub open spec fn solid(s: Seq<char>) -> bool {
    forall|k: int| 0 <= k < s.len() ==> !whitespace(#[trigger] s[k])
}

/// The length of the longest prefix of `s` that holds no white space.
pub open spec fn word_len(s: Seq<char>) -> nat
    decreases s.len(),
{
    if s.len() == 0 || whitespace(s[0]) {
        0
    } else {
        1 + word_len(s.drop_first())
    }
}

/// The words of `s`, from left to right: its maximal runs of characters
/// that are not white space.
pub open spec fn words(s: Seq<char>) -> Seq<Seq<char>>
    decreases s.len(),
{
    if s.len() == 0 {
        Seq::empty()
    } else if whitespace(s[0]) {
        words(s.drop_first())
    } else {
        proof {
            lemma_word_len_bounds(s);
        }
        seq![s.take(word_len(s) as int)] + words(s.skip(word_len(s) as int))
    }
}

/// A word's length never exceeds what is left of the text, and is not zero
/// where the text starts with a character that is no white space.
pub proof fn lemma_word_len_bounds(s: Seq<char>)
    ensures
        word_len(s) <= s.len(),
        s.len() > 0 && !whitespace(s[0]) ==> word_len(s) >= 1,
    decreases s.len(),
{
    if s.len() > 0 && !whitespace(s[0]) {
        lemma_word_len_bounds(s.drop_first());
    }
}

/// Tells whether `c` is white space.
pub fn is_whitespace(c: char) -> (r: bool)
    ensures
        r == whitespace(c),
{
    let n: u32 = c as u32;
    (0x0009 <= n && n <= 0x000D) || n == 0x0020 || n == 0x0085 || n == 0x00A0 || n == 0x1680 || (
    0x2000 <= n && n <= 0x200A) || n == 0x2028 || n == 0x2029 || n == 0x202F || n == 0x205F || n
        == 0x3000
}

/// The characters of `text`.
fn characters(text: &str) -> (out: Vec<char>)
    ensures
        out@ == text@,
{
    let mut out: Vec<char> = Vec::new();
    for c in it: text.chars()
        invariant
            out@ == it.seq().take(it.index() as int),
            it.seq() == text@,
    {
        out.push(c);
    }
    out
}

/// Splits `text` into its words.
pub fn split_whitespace(text: &str) -> (out: Vec<String>)
    ensures
        out.deep_view() == words(text@),
{
    let chars = characters(text);
    let n = chars.len();
    let mut out: Vec<String> = Vec::new();
    let mut i: usize = 0;
    assert(text@.skip(0) =~= text@);
    while i < n
        invariant
            chars@ == text@,
            n == text@.len(),
            i <= n,
            out.deep_view() + words(text@.skip(i as int)) == words(text@),
        decreases n - i,
    {
        if is_whitespace(chars[i]) {
            proof {
                lemma_words_skip_whitespace(text@, i as int);
            }
            i += 1;
        } else {
            let start = i;
            i += 1;
            while i < n && !is_whitespace(chars[i])
                invariant
                    chars@ == text@,
                    n == text@.len(),
                    start < i <= n,
                    forall|k: int| start <= k < i ==> !whitespace(#[trigger] text@[k]),
                decreases n - i,
            {
                i += 1;
            }
            let word = text.substring_char(start, i).to_owned();
            proof {
                lemma_words_take_run(text@, start as int, i as int);
            }
            out.push(word);
        }
    }
    out
}

/// A text without white space, unless it is empty, is one word: itself.
pub proof fn law_word_is_its_own_split(word: Seq<char>)
    requires
        word.len() > 0,
        solid(word),
    ensures
        words(word) == seq![word],
{
    lemma_words_take_run(word, 0, word.len() as int);
    assert(word.subrange(0, word.len() as int) =~= word);
}

/// White space separates: the words of a text with a white-space character
/// in it are the words before that character and then the words after it.
pub proof fn law_whitespace_separates(before: Seq<char>, c: char, after: Seq<char>)
    requires
        whitespace(c),
    ensures
        words(before + seq![c] + after) == words(before) + words(after),
    decreases before.len(),
{
    let text = before + seq![c] + after;
    if before.len() == 0 {
        assert(text.drop_first() =~= after);
    } else if whitespace(before[0]) {
        assert(text.drop_first() =~= before.drop_first() + seq![c] + after);
        law_whitespace_separates(before.drop_first(), c, after);
    } else {
        let n = word_len(before) as int;
        lemma_word_len_bounds(before);
        assert(text =~= before + (seq![c] + after));
        lemma_word_len_before_whitespace(before, seq![c] + after);
        assert(text.take(n) =~= before.take(n));
        assert(text.skip(n) =~= before.skip(n) + seq![c] + after);
        law_whitespace_separates(before.skip(n), c, after);
    }
}

/// No word is empty and no word holds white space.
pub proof fn law_words_are_solid(text: Seq<char>, i: int)
    requires
        0 <= i < words(text).len(),
    ensures
        words(text)[i].len() > 0,
        solid(words(text)[i]),
    decreases text.len(),
{
    if text.len() > 0 {
        if whitespace(text[0]) {
            law_words_are_solid(text.drop_first(), i);
        } else {
            lemma_word_len_bounds(text);
            lemma_word_len_solid(text);
            if i > 0 {
                law_words_are_solid(text.skip(word_len(text) as int), i - 1);
            }
        }
    }
}

/// Skipping a white-space character changes no word.
proof fn lemma_words_skip_whitespace(s: Seq<char>, i: int)
    requires
        0 <= i < s.len(),
        whitespace(s[i]),
    ensures
        words(s.skip(i)) == words(s.skip(i + 1)),
{
    assert(s.skip(i).drop_first() =~= s.skip(i + 1));
}

/// A run of characters without white space, ended by white space or by the
/// end of the text, is exactly one word.
proof fn lemma_word_len_run(s: Seq<char>, start: int, end: int)
    requires
        0 <= start <= end <= s.len(),
        forall|k: int| start <= k < end ==> !whitespace(#[trigger] s[k]),
        end == s.len() || whitespace(s[end]),
    ensures
        word_len(s.skip(start)) == end - start,
    decreases end - start,
{
    if start < end {
        assert(s.skip(start).drop_first() =~= s.skip(start + 1));
        lemma_word_len_run(s, start + 1, end);
    }
}

/// The words from `start` on are the run up to `end` and the words that
/// follow it.
proof fn lemma_words_take_run(s: Seq<char>, start: int, end: int)
    requires
        0 <= start < end <= s.len(),
        forall|k: int| start <= k < end ==> !whitespace(#[trigger] s[k]),
        end == s.len() || whitespace(s[end]),
    ensures
        words(s.skip(start)) == seq![s.subrange(start, end)] + words(s.skip(end)),
{
    lemma_word_len_run(s, start, end);
    let rest = s.skip(start);
    assert(rest.take(end - start) =~= s.subrange(start, end));
    assert(rest.skip(end - start) =~= s.skip(end));
}

/// The characters before the end of the first word are no white space.
proof fn lemma_word_len_solid(s: Seq<char>)
    ensures
        solid(s.take(word_len(s) as int)),
    decreases s.len(),
{
    lemma_word_len_bounds(s);
    if s.len() > 0 && !whitespace(s[0]) {
        let rest = s.drop_first();
        lemma_word_len_solid(rest);
        lemma_word_len_bounds(rest);
        let word = s.take(word_len(s) as int);
        assert forall|k: int| 0 <= k < word.len() implies !whitespace(#[trigger] word[k]) by {
            if k > 0 {
                assert(word[k] == rest.take(word_len(rest) as int)[k - 1]);
            }
        }
    }
}

/// Where white space follows, what follows does not lengthen the first
/// word.
proof fn lemma_word_len_before_whitespace(a: Seq<char>, rest: Seq<char>)
    requires
        rest.len() > 0,
        whitespace(rest[0]),
    ensures
        word_len(a + rest) == word_len(a),
    decreases a.len(),
{
    if a.len() == 0 {
    } else if !whitespace(a[0]) {
        assert((a + rest).drop_first() =~= a.drop_first() + rest);
        lemma_word_len_before_whitespace(a.drop_first(), rest);
    }
}

} // verus!

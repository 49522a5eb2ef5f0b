//! Small verified helpers on strings, seen as sequences of characters.

use vstd::prelude::*;
use vstd::string::*;
use vstd::std_specs::iter::IteratorSpec;

verus! {

/// The characters of a string, in order.
pub fn to_chars(s: &str) -> (v: Vec<char>)
    ensures
        v@ == s@,
{
    broadcast use vstd::string::group_string_axioms;
    let mut v: Vec<char> = Vec::new();
    let mut it = s.chars();
    loop
        invariant
            it.obeys_prophetic_iter_laws(),
            it.decrease() is Some,
            v@ + it.remaining() == s@,
        ensures
            v@ == s@,
        decreases it.decrease()->0,
    {
        match it.next() {
            Some(c) => {
                v.push(c);
            },
            None => {
                break;
            },
        }
    }
    v
}

/// Whether two strings hold the same characters.
pub fn same_text(a: &str, b: &str) -> (same: bool)
    ensures
        same == (a@ == b@),
{
    let x = to_chars(a);
    let y = to_chars(b);
    if x.len() != y.len() {
        return false;
    }
    let mut i: usize = 0;
    while i < x.len()
        invariant
            x@ == a@,
            y@ == b@,
            x.len() == y.len(),
            i <= x.len(),
            x@.take(i as int) == y@.take(i as int),
        decreases x.len() - i,
    {
        if x[i] != y[i] {
            assert(a@[i as int] != b@[i as int]);
            return false;
        }
        i = i + 1;
        assert(x@.take(i as int) =~= x@.take(i - 1).push(x@[i - 1]));
        assert(y@.take(i as int) =~= y@.take(i - 1).push(y@[i - 1]));
    }
    assert(x@ =~= x@.take(i as int));
    assert(y@ =~= y@.take(i as int));
    true
}

/// Whether a text ends with another.
pub open spec fn has_suffix(text: Seq<char>, suffix: Seq<char>) -> bool {
    text.len() >= suffix.len() && text.subrange(text.len() - suffix.len(), text.len() as int)
        == suffix
}

/// Whether a string ends with another.
pub fn ends_with(text: &str, suffix: &str) -> (yes: bool)
    ensures
        yes == has_suffix(text@, suffix@),
{
    let a = to_chars(text);
    let b = to_chars(suffix);
    if a.len() < b.len() {
        return false;
    }
    let shift: usize = a.len() - b.len();
    let ghost tail = a@.subrange(shift as int, a@.len() as int);
    let mut i: usize = 0;
    while i < b.len()
        invariant
            a@ == text@,
            b@ == suffix@,
            shift + b.len() == a.len(),
            tail == a@.subrange(shift as int, a@.len() as int),
            i <= b.len(),
            tail.take(i as int) == b@.take(i as int),
        decreases b.len() - i,
    {
        if a[shift + i] != b[i] {
            assert(tail[i as int] != b@[i as int]);
            return false;
        }
        i = i + 1;
        assert(tail.take(i as int) =~= tail.take(i - 1).push(tail[i - 1]));
        assert(b@.take(i as int) =~= b@.take(i - 1).push(b@[i - 1]));
    }
    assert(tail =~= tail.take(i as int));
    assert(b@ =~= b@.take(i as int));
    true
}

/// The string without its last `count` characters.
pub fn cut_end(text: &str, count: usize) -> (rest: String)
    requires
        count <= text@.len(),
    ensures
        rest@ == text@.take(text@.len() - count),
{
    let n = text.unicode_len();
    let rest = String::from_str(text.substring_char(0, n - count));
    assert(rest@ =~= text@.take(text@.len() - count));
    rest
}

/// Two strings, one behind the other.
pub fn glue(first: &str, second: &str) -> (both: String)
    ensures
        both@ == first@ + second@,
{
    let mut both = String::from_str(first);
    both.append(second);
    both
}

/// Whether a character is white space: whether it is one of the code points
/// that have the Unicode property `White_Space`. These are the controls from
/// the tabulator to the carriage return, the space, the next-line control,
/// the no-break space, the Ogham space mark, the spaces of fixed width, the
/// line and the paragraph separator, the narrow no-break space, the medium
/// mathematical space and the ideographic space.
pub open spec fn is_space(c: char) -> bool {
    let code = char_code(c);
    ||| 0x09 <= code <= 0x0D
    ||| code == 0x20
    ||| code == 0x85
    ||| code == 0xA0
    ||| code == 0x1680
    ||| 0x2000 <= code <= 0x200A
    ||| code == 0x2028
    ||| code == 0x2029
    ||| code == 0x202F
    ||| code == 0x205F
    ||| code == 0x3000
}

/// The code point of a character.
pub open spec fn char_code(c: char) -> int {
    c as int
}

/// Calls `char::is_whitespace`, which says whether a character has the
/// Unicode property `White_Space`.
#[verifier::external_body]
pub(crate) fn is_whitespace(c: char) -> (yes: bool)
    ensures
        yes == is_space(c),
{
    c.is_whitespace()
}

/// Where the word ends that holds position `i`: the first position from `i`
/// on that holds white space, or the end of the text.
pub open spec fn word_end(text: Seq<char>, i: int) -> int
    decreases text.len() - i,
{
    if i < 0 || i >= text.len() || is_space(text[i]) {
        i
    } else {
        word_end(text, i + 1)
    }
}

/// A word that begins inside the text ends behind its beginning, and inside
/// the text or at its end.
pub proof fn lemma_word_end_advances(text: Seq<char>, i: int)
    requires
        0 <= i < text.len(),
        !is_space(text[i]),
    ensures
        i < word_end(text, i) <= text.len(),
    decreases text.len() - i,
{
    if i + 1 < text.len() && !is_space(text[i + 1]) {
        lemma_word_end_advances(text, i + 1);
    } else {
        assert(word_end(text, i + 1) == i + 1);
    }
}

/// The words of a text from position `i` on: the longest stretches without
/// white space, in order.
pub open spec fn words_from(text: Seq<char>, i: int) -> Seq<Seq<char>>
    decreases text.len() - i,
{
    if i < 0 || i >= text.len() {
        Seq::empty()
    } else if is_space(text[i]) {
        words_from(text, i + 1)
    } else {
        proof {
            lemma_word_end_advances(text, i);
        }
        seq![text.subrange(i, word_end(text, i))] + words_from(text, word_end(text, i))
    }
}

/// The words of a text: the longest stretches without white space, in
/// order. No word is empty.
pub open spec fn words(text: Seq<char>) -> Seq<Seq<char>> {
    words_from(text, 0)
}

/// The texts of a list of strings.
pub open spec fn texts(list: Seq<String>) -> Seq<Seq<char>> {
    Seq::new(list.len(), |i: int| list[i]@)
}

/// Splits a string into its words.
pub fn split_words(text: &str) -> (list: Vec<String>)
    ensures
        texts(list@) == words(text@),
{
    let chars = to_chars(text);
    let n = chars.len();
    let mut list: Vec<String> = Vec::new();
    let mut i: usize = 0;
    assert(texts(list@) =~= Seq::<Seq<char>>::empty());
    while i < n
        invariant
            chars@ == text@,
            n == chars@.len(),
            i <= n,
            texts(list@) + words_from(text@, i as int) == words(text@),
        decreases n - i,
    {
        if is_whitespace(chars[i]) {
            i = i + 1;
        } else {
            let start = i;
            i = i + 1;
            while i < n && !is_whitespace(chars[i])
                invariant
                    chars@ == text@,
                    n == chars@.len(),
                    start < i <= n,
                    word_end(text@, i as int) == word_end(text@, start as int),
                decreases n - i,
            {
                i = i + 1;
            }
            let word = String::from_str(text.substring_char(start, i));
            proof {
                assert(word_end(text@, start as int) == i);
                let before = texts(list@);
                let after = texts(list@.push(word));
                assert(after =~= before + seq![word@]);
                assert(words_from(text@, start as int) == seq![word@] + words_from(
                    text@,
                    i as int,
                ));
                assert(after + words_from(text@, i as int) =~= before + words_from(
                    text@,
                    start as int,
                ));
            }
            list.push(word);
        }
    }
    assert(words_from(text@, n as int) =~= Seq::<Seq<char>>::empty());
    assert(texts(list@) + Seq::<Seq<char>>::empty() =~= texts(list@));
    list
}

} // verus!

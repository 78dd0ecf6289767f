use vstd::prelude::*;
use vstd::utf8::{decode_utf8, valid_utf8};

verus! {

/// Whether `c` has the Unicode `White_Space` property.
pub open spec fn is_white_space(c: char) -> bool {
    let u = c as u32;
    (0x09 <= u && u <= 0x0D) || u == 0x20 || u == 0x85 || u == 0xA0 || u == 0x1680
        || (0x2000 <= u && u <= 0x200A) || u == 0x2028 || u == 0x2029 || u == 0x202F
        || u == 0x205F || u == 0x3000
}

/// Position `i` of `s` is the first character of a maximal run of
/// non-whitespace characters.
pub open spec fn starts_word(s: Seq<char>, i: int) -> bool {
    &&& !is_white_space(s[i])
    &&& (i == 0 || is_white_space(s[i - 1]))
}

/// The number of maximal runs of non-whitespace characters in `s`, counted
/// as the number of positions at which such a run begins.
pub open spec fn word_count(s: Seq<char>) -> nat
    decreases s.len(),
{
    if s.len() == 0 {
        0
    } else {
        word_count(s.drop_last()) + if starts_word(s, s.len() - 1) {
            1nat
        } else {
            0nat
        }
    }
}

/// A word of `a` runs on into `b` when the two are joined: `a` ends and `b`
/// begins with a non-whitespace character.
pub open spec fn joins_words(a: Seq<char>, b: Seq<char>) -> bool {
    &&& a.len() > 0
    &&& b.len() > 0
    &&& !is_white_space(a.last())
    &&& !is_white_space(b[0])
}

/// The words of two texts counted apart add up to those of the two joined,
/// plus one when a word runs across the join.
pub proof fn lemma_words_of_concat(a: Seq<char>, b: Seq<char>)
    ensures
        word_count(a) + word_count(b) == word_count(a + b) + if joins_words(a, b) {
            1nat
        } else {
            0nat
        },
    decreases b.len(),
{
    if b.len() == 0 {
        assert(a + b =~= a);
    } else {
        let rest = b.drop_last();
        lemma_words_of_concat(a, rest);
        assert((a + b).drop_last() =~= a + rest);
        if b.len() == 1 {
            assert(rest.len() == 0);
        }
    }
}

/// The characters that lossy UTF-8 decoding makes of a byte sequence: each
/// invalid sequence becomes U+FFFD.
pub uninterp spec fn lossy_of(b: Seq<u8>) -> Seq<char>;

/// Relies on `String::from_utf8_lossy`: it replaces invalid sequences with
/// U+FFFD and returns valid UTF-8 input unchanged, as its text.
#[verifier::external_body]
pub(crate) fn decode_lossy(b: &[u8]) -> (r: String)
    ensures
        r@ == lossy_of(b@),
        valid_utf8(b@) ==> r@ == decode_utf8(b@),
{
    String::from_utf8_lossy(b).into_owned()
}

/// Relies on `str::chars`: it yields the characters of the string in order.
#[verifier::external_body]
pub(crate) fn chars_of(s: &str) -> (r: Vec<char>)
    ensures
        r@ == s@,
{
    s.chars().collect()
}

/// Relies on `char::is_whitespace`: true exactly for the characters with the
/// Unicode `White_Space` property.
#[verifier::external_body]
pub(crate) fn is_space(c: char) -> (r: bool)
    ensures
        r == is_white_space(c),
{
    c.is_whitespace()
}

/// Relies on `String`'s `FromIterator<&char>`: the characters in order.
#[verifier::external_body]
pub(crate) fn string_of(v: &Vec<char>) -> (r: String)
    ensures
        r@ == v@,
{
    v.iter().collect()
}

/// Counts the maximal runs of non-whitespace characters of `text`.
pub fn count_words(text: &str) -> (r: u64)
    ensures
        r == word_count(text@),
{
    let cs = chars_of(text);
    let n = cs.len();
    let mut count: u64 = 0;
    let mut prev_space = true;
    let mut i: usize = 0;
    while i < n
        invariant
            n == cs@.len(),
            cs@ == text@,
            i <= n,
            count <= i,
            count == word_count(cs@.subrange(0, i as int)),
            prev_space == (i == 0 || is_white_space(cs@[i - 1])),
        decreases n - i,
    {
        let space = is_space(cs[i]);
        let ghost pre = cs@.subrange(0, i as int);
        let ghost next = cs@.subrange(0, i + 1);
        assert(next.drop_last() == pre);
        assert(starts_word(next, i as int) == starts_word(cs@, i as int));
        if !space && prev_space {
            count = count + 1;
        }
        prev_space = space;
        i = i + 1;
    }
    assert(cs@.subrange(0, n as int) == cs@);
    count
}

} // verus!

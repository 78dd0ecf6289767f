use vstd::prelude::*;
use vstd::utf8::{decode_utf8, valid_utf8};
use crate::text::{count_words, decode_lossy, lossy_of, word_count};

verus! {

/// Line, word and byte totals of one input, or a running sum over several.
#[derive(Clone, Copy, Debug, PartialEq, Eq, Structural)]
pub struct Counts {
    pub lines: u64,
    pub words: u64,
    pub bytes: u64,
}

impl Counts {
    /// Adds `other` to `self`, field by field.
    pub fn add(&mut self, other: &Counts)
        requires
            old(self).lines + other.lines <= u64::MAX,
            old(self).words + other.words <= u64::MAX,
            old(self).bytes + other.bytes <= u64::MAX,
        ensures
            final(self).lines == old(self).lines + other.lines,
            final(self).words == old(self).words + other.words,
            final(self).bytes == old(self).bytes + other.bytes,
    {
        self.lines = self.lines + other.lines;
        self.words = self.words + other.words;
        self.bytes = self.bytes + other.bytes;
    }
}

impl Default for Counts {
    fn default() -> (r: Counts)
        ensures
            r.lines == 0,
            r.words == 0,
            r.bytes == 0,
    {
        Counts { lines: 0, words: 0, bytes: 0 }
    }
}

/// The number of line-feed bytes (0x0A) in `b`.
pub open spec fn newline_count(b: Seq<u8>) -> nat {
    b.filter(|x: u8| x == 0x0Au8).len()
}

/// No sequence holds more line feeds than bytes.
pub proof fn lemma_newlines_within_len(b: Seq<u8>)
    ensures
        newline_count(b) <= b.len(),
{
    b.lemma_filter_len(|x: u8| x == 0x0Au8);
}

/// The sum of the line-feed counts of each of `files`.
pub open spec fn total_lines(files: Seq<Seq<u8>>) -> nat
    decreases files.len(),
{
    if files.len() == 0 {
        0
    } else {
        total_lines(files.drop_last()) + newline_count(files.last())
    }
}

/// The sum of the byte counts of each of `files`.
pub open spec fn total_bytes(files: Seq<Seq<u8>>) -> nat
    decreases files.len(),
{
    if files.len() == 0 {
        0
    } else {
        total_bytes(files.drop_last()) + files.last().len()
    }
}

/// Line feeds and bytes of two buffers, counted apart, add up to those of
/// the two written one after the other.
pub proof fn lemma_counts_of_concat(a: Seq<u8>, b: Seq<u8>)
    ensures
        newline_count(a + b) == newline_count(a) + newline_count(b),
        (a + b).len() == a.len() + b.len(),
{
    Seq::filter_distributes_over_add(a, b, |x: u8| x == 0x0Au8);
}

/// Summing the line and byte counts of several files gives the line and
/// byte counts of their contents joined end to end.
pub proof fn lemma_totals_of_concatenation(files: Seq<Seq<u8>>)
    ensures
        total_lines(files) == newline_count(files.flatten()),
        total_bytes(files) == files.flatten().len(),
    decreases files.len(),
{
    files.lemma_flatten_and_flatten_alt_are_equivalent();
    if files.len() > 0 {
        let rest = files.drop_last();
        lemma_totals_of_concatenation(rest);
        rest.lemma_flatten_and_flatten_alt_are_equivalent();
        lemma_counts_of_concat(rest.flatten(), files.last());
    }
}

/// Counts the line feeds, the words and the bytes of `buf`. Words are the
/// maximal runs of non-whitespace characters of its lossy UTF-8 decoding.
pub fn count_buffer(buf: &[u8]) -> (r: Counts)
    ensures
        r.lines == newline_count(buf@),
        r.words == word_count(lossy_of(buf@)),
        r.bytes == buf@.len(),
        r.lines <= r.bytes,
        valid_utf8(buf@) ==> r.words == word_count(decode_utf8(buf@)),
{
    let n = buf.len();
    let mut lines: u64 = 0;
    let mut i: usize = 0;
    while i < n
        invariant
            n == buf@.len(),
            i <= n,
            lines <= i,
            lines == newline_count(buf@.subrange(0, i as int)),
        decreases n - i,
    {
        let ghost pre = buf@.subrange(0, i as int);
        let ghost next = buf@.subrange(0, i + 1);
        assert(next.drop_last() == pre);
        assert(next.last() == buf@[i as int]);
        proof {
            reveal(Seq::filter);
        }
        if buf[i] == 0x0Au8 {
            lines = lines + 1;
        }
        i = i + 1;
    }
    assert(buf@.subrange(0, n as int) == buf@);
    proof {
        lemma_newlines_within_len(buf@);
    }
    let text = decode_lossy(buf);
    let words = count_words(text.as_str());
    Counts { lines, words, bytes: n as u64 }
}

} // verus!

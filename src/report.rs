use vstd::prelude::*;
use crate::counts::Counts;
use crate::text::{chars_of, string_of};

verus! {

/// Which of the three counts an output line shows, always in the order
/// lines, words, bytes.
#[derive(Clone, Copy, Debug, PartialEq, Eq, Structural)]
pub struct Columns {
    pub lines: bool,
    pub words: bool,
    pub bytes: bool,
}

impl Columns {
    /// The columns asked for; all three when none is asked for.
    pub fn from_flags(lines: bool, words: bool, bytes: bool) -> (r: Columns)
        ensures
            !lines && !words && !bytes ==> (r == Columns { lines: true, words: true, bytes: true }),
            lines || words || bytes ==> (r == Columns { lines, words, bytes }),
    {
        if !lines && !words && !bytes {
            Columns { lines: true, words: true, bytes: true }
        } else {
            Columns { lines, words, bytes }
        }
    }
}

/// The minimum width of a numeric column.
pub const FIELD_WIDTH: usize = 8;

/// The decimal digit for `d < 10`.
pub open spec fn digit_char(d: nat) -> char {
    seq!['0', '1', '2', '3', '4', '5', '6', '7', '8', '9'][d as int]
}

/// The decimal representation of `n`, without leading zeros.
pub open spec fn decimal(n: nat) -> Seq<char>
    decreases n,
{
    if n < 10 {
        seq![digit_char(n)]
    } else {
        decimal(n / 10).push(digit_char(n % 10))
    }
}

/// `s` right-aligned in a field of at least `width` characters.
pub open spec fn right_aligned(s: Seq<char>, width: nat) -> Seq<char> {
    if s.len() >= width {
        s
    } else {
        Seq::new((width - s.len()) as nat, |i: int| ' ') + s
    }
}

/// One numeric column.
pub open spec fn field(n: nat) -> Seq<char> {
    right_aligned(decimal(n), FIELD_WIDTH as nat)
}

/// The numeric columns of a line, in the order lines, words, bytes.
pub open spec fn columns_text(c: Counts, cols: Columns) -> Seq<char> {
    (if cols.lines { field(c.lines as nat) } else { Seq::empty() })
        + (if cols.words { field(c.words as nat) } else { Seq::empty() })
        + (if cols.bytes { field(c.bytes as nat) } else { Seq::empty() })
}

/// What follows the numeric columns: a space and the name, or nothing.
pub open spec fn name_suffix(name: Option<&str>) -> Seq<char> {
    match name {
        Some(n) => seq![' '] + n@,
        None => Seq::empty(),
    }
}

fn digit(d: u64) -> (r: char)
    requires
        d < 10,
    ensures
        r == digit_char(d as nat),
{
    if d == 0 {
        '0'
    } else if d == 1 {
        '1'
    } else if d == 2 {
        '2'
    } else if d == 3 {
        '3'
    } else if d == 4 {
        '4'
    } else if d == 5 {
        '5'
    } else if d == 6 {
        '6'
    } else if d == 7 {
        '7'
    } else if d == 8 {
        '8'
    } else {
        '9'
    }
}

fn push_decimal(out: &mut Vec<char>, n: u64)
    ensures
        final(out)@ == old(out)@ + decimal(n as nat),
    decreases n,
{
    if n >= 10 {
        push_decimal(out, n / 10);
    }
    let d = digit(n % 10);
    out.push(d);
    assert(final(out)@ == old(out)@ + decimal(n as nat));
}

fn push_field(out: &mut Vec<char>, n: u64)
    ensures
        final(out)@ == old(out)@ + field(n as nat),
{
    let mut digits: Vec<char> = Vec::new();
    push_decimal(&mut digits, n);
    assert(digits@ == decimal(n as nat));
    let mut k: usize = digits.len();
    let ghost start = k as int;
    assert(out@ == old(out)@ + Seq::new(0, |i: int| ' '));
    while k < FIELD_WIDTH
        invariant
            digits@ == decimal(n as nat),
            start == digits@.len(),
            start <= k,
            k <= FIELD_WIDTH || k == start,
            out@ == old(out)@ + Seq::new((k - start) as nat, |i: int| ' '),
        decreases FIELD_WIDTH - k,
    {
        out.push(' ');
        k = k + 1;
        assert(out@ == old(out)@ + Seq::new((k - start) as nat, |i: int| ' '));
    }
    out.append(&mut digits);
    assert(final(out)@ == old(out)@ + field(n as nat));
}

/// Appends the characters of `s`.
fn push_str(out: &mut Vec<char>, s: &str)
    ensures
        final(out)@ == old(out)@ + s@,
{
    let mut cs = chars_of(s);
    out.append(&mut cs);
}

/// One output line: the chosen columns of `counts`, right-aligned, then a
/// space and `name` when a name is given.
pub fn format_line(counts: &Counts, cols: &Columns, name: Option<&str>) -> (r: String)
    ensures
        r@ == columns_text(*counts, *cols) + name_suffix(name),
{
    let mut out: Vec<char> = Vec::new();
    if cols.lines {
        push_field(&mut out, counts.lines);
    }
    if cols.words {
        push_field(&mut out, counts.words);
    }
    if cols.bytes {
        push_field(&mut out, counts.bytes);
    }
    assert(out@ == columns_text(*counts, *cols));
    match name {
        Some(n) => {
            out.push(' ');
            push_str(&mut out, n);
        },
        None => {},
    }
    string_of(&out)
}

/// The summary line over all inputs: the chosen columns of `total`, then
/// ` total`.
pub fn total_line(total: &Counts, cols: &Columns) -> (r: String)
    ensures
        r@ == columns_text(*total, *cols) + seq![' ', 't', 'o', 't', 'a', 'l'],
{
    proof {
        reveal_strlit("total");
    }
    let r = format_line(total, cols, Some("total"));
    assert(r@ == columns_text(*total, *cols) + seq![' ', 't', 'o', 't', 'a', 'l']);
    r
}

/// Whether `path` names standard input.
pub open spec fn is_stdin_path(path: &str) -> bool {
    path@ == seq!['-']
}

/// The name printed after the columns for input `path` out of `n_inputs`
/// inputs: none for standard input when it is the only input.
pub fn display_name<'a>(path: &'a str, n_inputs: usize) -> (r: Option<&'a str>)
    ensures
        r == (if is_stdin_path(path) && n_inputs == 1 {
            None
        } else {
            Some(path)
        }),
{
    let cs = chars_of(path);
    let stdin = cs.len() == 1 && cs[0] == '-';
    assert(stdin == is_stdin_path(path)) by {
        if cs@.len() == 1 && cs@[0] == '-' {
            assert(cs@ =~= seq!['-']);
        }
    }
    if stdin && n_inputs == 1 {
        None
    } else {
        Some(path)
    }
}

/// The message for an input that could not be read:
/// `<program>: <source>: <reason>`.
pub fn diagnostic(program: &str, source: &str, reason: &str) -> (r: String)
    ensures
        r@ == program@ + seq![':', ' '] + source@ + seq![':', ' '] + reason@,
{
    let mut out: Vec<char> = Vec::new();
    push_str(&mut out, program);
    out.push(':');
    out.push(' ');
    push_str(&mut out, source);
    out.push(':');
    out.push(' ');
    push_str(&mut out, reason);
    assert(out@ =~= program@ + seq![':', ' '] + source@ + seq![':', ' '] + reason@);
    string_of(&out)
}

} // verus!

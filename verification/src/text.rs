//! Text helpers over `String` views.

use vstd::prelude::*;

verus! {

/// Appends one character to a string.
#[verifier::external_body]
pub(crate) fn push_char(s: &mut String, c: char)
    ensures
        final(s)@ == old(s)@.push(c),
{
    s.push(c);
}

/// The characters of a string, in order.
pub fn chars_of(s: &str) -> (out: Vec<char>)
    ensures
        out@ == s@,
{
    let mut out: Vec<char> = Vec::new();
    for c in it: s.chars()
        invariant
            out@ == it.seq().take(it.index() as int),
    {
        out.push(c);
    }
    out
}


/// Whether a character is a line break.
pub open spec fn is_line_break(c: char) -> bool {
    c == '\r' || c == '\n'
}

/// A text without its trailing `\r` and `\n` characters.
pub open spec fn trim_trailing_newlines_spec(s: Seq<char>) -> Seq<char>
    decreases s.len(),
{
    if s.len() > 0 && is_line_break(s.last()) {
        trim_trailing_newlines_spec(s.drop_last())
    } else {
        s
    }
}

/// A string made of the given characters.
pub fn string_of_chars(cs: &Vec<char>, from: usize, to: usize) -> (out: String)
    requires
        from <= to <= cs.len(),
    ensures
        out@ == cs@.subrange(from as int, to as int),
{
    let mut out = String::new();
    let mut i = from;
    while i < to
        invariant
            from <= i <= to <= cs.len(),
            out@ == cs@.subrange(from as int, i as int),
        decreases to - i,
    {
        push_char(&mut out, cs[i]);
        assert(cs@.subrange(from as int, i + 1) =~= cs@.subrange(from as int, i as int).push(cs@[i as int]));
        i = i + 1;
    }
    out
}

proof fn lemma_trim_prefix(s: Seq<char>, end: int)
    requires
        0 <= end <= s.len(),
        forall|j: int| end <= j < s.len() ==> is_line_break(#[trigger] s[j]),
    ensures
        trim_trailing_newlines_spec(s) == trim_trailing_newlines_spec(s.subrange(0, end)),
    decreases s.len() - end,
{
    if end < s.len() {
        assert(s.drop_last() =~= s.subrange(0, s.len() - 1));
        lemma_trim_prefix(s.drop_last(), end);
        assert(s.drop_last().subrange(0, end) =~= s.subrange(0, end));
    } else {
        assert(s.subrange(0, end) =~= s);
    }
}

/// The text without its trailing line breaks.
pub fn trim_trailing_newlines(s: &str) -> (out: String)
    ensures
        out@ == trim_trailing_newlines_spec(s@),
{
    let cs = chars_of(s);
    let mut end = cs.len();
    while end > 0 && (cs[end - 1] == '\r' || cs[end - 1] == '\n')
        invariant
            end <= cs.len(),
            cs@ == s@,
            forall|j: int| end <= j < cs.len() ==> is_line_break(#[trigger] cs@[j]),
        decreases end,
    {
        end = end - 1;
    }
    proof {
        lemma_trim_prefix(cs@, end as int);
        let p = cs@.subrange(0, end as int);
        if p.len() > 0 {
            assert(p.last() == cs@[end - 1]);
        }
    }
    string_of_chars(&cs, 0, end)
}


/// A text without its trailing copies of `c`.
pub open spec fn trim_trailing_spec(s: Seq<char>, c: char) -> Seq<char>
    decreases s.len(),
{
    if s.len() > 0 && s.last() == c {
        trim_trailing_spec(s.drop_last(), c)
    } else {
        s
    }
}

proof fn lemma_trim_trailing_prefix(s: Seq<char>, c: char, end: int)
    requires
        0 <= end <= s.len(),
        forall|j: int| end <= j < s.len() ==> #[trigger] s[j] == c,
    ensures
        trim_trailing_spec(s, c) == trim_trailing_spec(s.subrange(0, end), c),
    decreases s.len() - end,
{
    if end < s.len() {
        lemma_trim_trailing_prefix(s.drop_last(), c, end);
        assert(s.drop_last().subrange(0, end) =~= s.subrange(0, end));
    } else {
        assert(s.subrange(0, end) =~= s);
    }
}

/// The text without its trailing copies of `c`.
pub fn trim_trailing(s: &str, c: char) -> (out: String)
    ensures
        out@ == trim_trailing_spec(s@, c),
{
    let cs = chars_of(s);
    let mut end = cs.len();
    while end > 0 && cs[end - 1] == c
        invariant
            end <= cs.len(),
            cs@ == s@,
            forall|j: int| end <= j < cs.len() ==> #[trigger] cs@[j] == c,
        decreases end,
    {
        end = end - 1;
    }
    proof {
        lemma_trim_trailing_prefix(cs@, c, end as int);
    }
    string_of_chars(&cs, 0, end)
}


/// The decimal digit character for `d < 10`.
pub open spec fn digit_char(d: nat) -> char {
    ((d + 48) as u8) as char
}

/// The decimal notation of a natural number.
pub open spec fn decimal_spec(n: nat) -> Seq<char>
    decreases n,
{
    if n < 10 {
        seq![digit_char(n)]
    } else {
        decimal_spec(n / 10).push(digit_char(n % 10))
    }
}

/// The decimal notation of `n`.
pub fn decimal(n: u64) -> (s: String)
    ensures
        s@ == decimal_spec(n as nat),
    decreases n,
{
    let d: u8 = (n % 10) as u8;
    let c: char = (d + 48u8) as char;
    if n < 10 {
        let mut s = String::new();
        push_char(&mut s, c);
        s
    } else {
        let mut s = decimal(n / 10);
        push_char(&mut s, c);
        s
    }
}

/// The decimal digits of a thousandths fraction `f < 1000`, trailing zeros
/// dropped but at least one digit kept.
pub open spec fn fraction_spec(f: nat) -> Seq<char> {
    let d0 = digit_char(f / 100);
    let d1 = digit_char((f / 10) % 10);
    let d2 = digit_char(f % 10);
    if f % 100 == 0 {
        seq![d0]
    } else if f % 10 == 0 {
        seq![d0, d1]
    } else {
        seq![d0, d1, d2]
    }
}

/// A quantity given in thousandths, as a decimal number with a fractional
/// part: `700` is `0.7`, `1000` is `1.0`.
pub open spec fn milli_text_spec(m: nat) -> Seq<char> {
    decimal_spec(m / 1000) + "."@ + fraction_spec(m % 1000)
}

/// The decimal text of a quantity given in thousandths.
pub fn milli_text(m: u64) -> (s: String)
    ensures
        s@ == milli_text_spec(m as nat),
{
    let mut s = decimal(m / 1000);
    s.append(".");
    let f: u64 = m % 1000;
    let c0: char = (((f / 100) as u8) + 48u8) as char;
    let c1: char = ((((f / 10) % 10) as u8) + 48u8) as char;
    let c2: char = (((f % 10) as u8) + 48u8) as char;
    push_char(&mut s, c0);
    if f % 100 != 0 {
        push_char(&mut s, c1);
        if f % 10 != 0 {
            push_char(&mut s, c2);
        }
    }
    proof {
        reveal_strlit(".");
        assert(s@ =~= milli_text_spec(m as nat));
    }
    s
}

/// Whether `s` begins with `prefix`.
pub fn has_prefix(s: &str, prefix: &str) -> (r: bool)
    ensures
        r == prefix@.is_prefix_of(s@),
{
    let cs = chars_of(s);
    let ps = chars_of(prefix);
    if ps.len() > cs.len() {
        return false;
    }
    let mut i: usize = 0;
    while i < ps.len()
        invariant
            cs@ == s@,
            ps@ == prefix@,
            ps.len() <= cs.len(),
            i <= ps.len(),
            forall|k: int| 0 <= k < i ==> ps@[k] == cs@[k],
        decreases ps.len() - i,
    {
        if ps[i] != cs[i] {
            proof {
                assert(ps@.len() <= cs@.len() ==> cs@.subrange(0, ps@.len() as int)[i as int] != ps@[i as int]);
            }
            return false;
        }
        i = i + 1;
    }
    proof {
        assert(ps@ =~= cs@.subrange(0, ps@.len() as int));
    }
    true
}

} // verus!

//! Reading-time estimate from the count of CJK ideographs.
use vstd::prelude::*;
use crate::text::{chars_of, decimal, decimal_string};

verus! {

/// Ideographs read per minute.
pub const CHARS_PER_MINUTE: usize = 250;

/// Whether `c` lies in CJK Unified Ideographs or in its Extension A.
pub open spec fn is_cjk(c: char) -> bool {
    ('\u{4E00}' <= c && c <= '\u{9FFF}') || ('\u{3400}' <= c && c <= '\u{4DBF}')
}

/// How many characters of `s` are CJK ideographs.
pub open spec fn cjk_count(s: Seq<char>) -> nat
    decreases s.len(),
{
    if s.len() == 0 {
        0
    } else {
        cjk_count(s.drop_last()) + if is_cjk(s.last()) {
            1nat
        } else {
            0nat
        }
    }
}

/// Estimated minutes to read `s`.
pub open spec fn minutes_of(s: Seq<char>) -> nat {
    cjk_count(s) / (CHARS_PER_MINUTE as nat)
}

/// The label shown for an estimate: `<1分钟` for zero, else `N分钟`.
pub open spec fn minutes_label(n: nat) -> Seq<char> {
    if n == 0 {
        "<1分钟"@
    } else {
        decimal(n) + "分钟"@
    }
}

/// The estimate never falls when the count of ideographs grows: a text with
/// at least as many ideographs as another reads at least as long.
pub proof fn lemma_minutes_monotone(a: Seq<char>, b: Seq<char>)
    requires
        cjk_count(a) <= cjk_count(b),
    ensures
        minutes_of(a) <= minutes_of(b),
        minutes_of(a) == cjk_count(a) / 250,
{
    let x = cjk_count(a) as int;
    let y = cjk_count(b) as int;
    assert(x / 250 <= y / 250) by (nonlinear_arith)
        requires
            x <= y,
            0 <= x,
    ;
}

/// Whether `c` is a CJK ideograph (basic block or Extension A).
pub fn is_chinese_character(c: char) -> (r: bool)
    ensures
        r == is_cjk(c),
{
    ('\u{4E00}' <= c && c <= '\u{9FFF}') || ('\u{3400}' <= c && c <= '\u{4DBF}')
}

/// Minutes needed to read `text`: its ideographs divided by 250, rounded down.
pub fn reading_minutes(text: &str) -> (r: usize)
    ensures
        r as nat == minutes_of(text@),
{
    let cs = chars_of(text);
    let mut count: usize = 0;
    let mut i: usize = 0;
    while i < cs.len()
        invariant
            i <= cs@.len(),
            cs@ == text@,
            count as nat == cjk_count(cs@.subrange(0, i as int)),
            count <= i,
        decreases cs@.len() - i,
    {
        proof {
            assert(cs@.subrange(0, i + 1).drop_last() =~= cs@.subrange(0, i as int));
        }
        if is_chinese_character(cs[i]) {
            count += 1;
        }
        i += 1;
    }
    assert(cs@.subrange(0, i as int) =~= cs@);
    count / CHARS_PER_MINUTE
}

/// The label for an estimate of `n` minutes.
pub fn reading_time_label(n: usize) -> (s: String)
    ensures
        s@ == minutes_label(n as nat),
{
    if n == 0 {
        String::from_str("<1分钟")
    } else {
        let mut s = decimal_string(n);
        s.append("分钟");
        s
    }
}

} // verus!

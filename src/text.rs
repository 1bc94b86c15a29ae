//! Character-level text operations: literal substitution, joining and
//! decimal rendering, each stated over `Seq<char>`.
use vstd::prelude::*;
use vstd::std_specs::iter::IteratorSpec;

verus! {

/// `s` with every non-overlapping occurrence of `p`, found left to right,
/// replaced by `r`. An empty pattern leaves `s` as it is.
pub open spec fn replaced(s: Seq<char>, p: Seq<char>, r: Seq<char>) -> Seq<char>
    decreases s.len(),
{
    if p.len() == 0 || s.len() < p.len() {
        s
    } else if s.subrange(0, p.len() as int) == p {
        r + replaced(s.subrange(p.len() as int, s.len() as int), p, r)
    } else {
        seq![s[0]] + replaced(s.subrange(1, s.len() as int), p, r)
    }
}

/// Whether no character of `s` is `c`.
pub open spec fn lacks(s: Seq<char>, c: char) -> bool {
    forall|i: int| 0 <= i < s.len() ==> s[i] != c
}

pub proof fn lemma_lacks_concat(a: Seq<char>, b: Seq<char>, c: char)
    requires
        lacks(a, c),
        lacks(b, c),
    ensures
        lacks(a + b, c),
{
    assert forall|i: int| 0 <= i < (a + b).len() implies (a + b)[i] != c by {
        if i >= a.len() {
            assert((a + b)[i] == b[i - a.len()]);
        }
    }
}

/// Text without the pattern's first character passes through a replacement
/// unchanged.
pub proof fn lemma_replaced_skips_prefix(a: Seq<char>, s: Seq<char>, p: Seq<char>, r: Seq<char>)
    requires
        p.len() > 0,
        lacks(a, p[0]),
    ensures
        replaced(a + s, p, r) == a + replaced(s, p, r),
    decreases a.len(),
{
    if a.len() == 0 {
        assert(a + s =~= s);
    } else {
        let t = a + s;
        let a1 = a.drop_first();
        lemma_replaced_skips_prefix(a1, s, p, r);
        assert(t.subrange(1, t.len() as int) =~= a1 + s);
        if s.len() < p.len() {
            assert(replaced(s, p, r) == s);
        }
        if t.len() >= p.len() {
            assert(t.subrange(0, p.len() as int)[0] != p[0]);
        } else {
            assert(replaced(a1 + s, p, r) == a1 + s);
        }
        assert(t =~= seq![a[0]] + (a1 + s));
        assert(a + replaced(s, p, r) =~= seq![a[0]] + (a1 + replaced(s, p, r)));
    }
}

/// A pattern at the front of the text is replaced.
pub proof fn lemma_replaced_front_match(p: Seq<char>, s: Seq<char>, r: Seq<char>)
    requires
        p.len() > 0,
    ensures
        replaced(p + s, p, r) == r + replaced(s, p, r),
{
    let t = p + s;
    assert(t.subrange(0, p.len() as int) =~= p);
    assert(t.subrange(p.len() as int, t.len() as int) =~= s);
}

/// A token at the front of the text that differs from the pattern at
/// position `i`, and holds the pattern's first character only at its own
/// front, passes through a replacement unchanged.
pub proof fn lemma_replaced_front_other(
    q: Seq<char>,
    s: Seq<char>,
    p: Seq<char>,
    r: Seq<char>,
    i: int,
)
    requires
        p.len() > 0,
        q.len() > 0,
        0 <= i < q.len(),
        i < p.len(),
        q[i] != p[i],
        lacks(q.drop_first(), p[0]),
    ensures
        replaced(q + s, p, r) == q + replaced(s, p, r),
{
    let t = q + s;
    let q1 = q.drop_first();
    lemma_replaced_skips_prefix(q1, s, p, r);
    assert(t.subrange(1, t.len() as int) =~= q1 + s);
    if t.len() >= p.len() {
        assert(t.subrange(0, p.len() as int)[i] != p[i]);
    } else {
        assert(replaced(s, p, r) == s);
        assert(replaced(q1 + s, p, r) == q1 + s);
    }
    assert(t =~= seq![q[0]] + (q1 + s));
    assert(q + replaced(s, p, r) =~= seq![q[0]] + (q1 + replaced(s, p, r)));
}

/// The parts with `sep` between each two neighbours.
pub open spec fn joined(parts: Seq<Seq<char>>, sep: Seq<char>) -> Seq<char>
    decreases parts.len(),
{
    if parts.len() == 0 {
        Seq::empty()
    } else if parts.len() == 1 {
        parts[0]
    } else {
        joined(parts.drop_last(), sep) + sep + parts.last()
    }
}

/// The character of a decimal digit.
pub open spec fn digit_char(d: nat) -> char {
    if d == 0 {
        '0'
    } else if d == 1 {
        '1'
    } else if d == 2 {
        '2'
    } else if d == 3 {
        '3'
    } else if d == 4 {
        '4'
    } else if d == 5 {
        '5'
    } else if d == 6 {
        '6'
    } else if d == 7 {
        '7'
    } else if d == 8 {
        '8'
    } else {
        '9'
    }
}

/// The decimal notation of `n`, without leading zeros.
pub open spec fn decimal(n: nat) -> Seq<char>
    decreases n,
{
    if n < 10 {
        seq![digit_char(n)]
    } else {
        decimal(n / 10) + seq![digit_char(n % 10)]
    }
}

/// The views of a sequence of strings.
pub open spec fn strings_view(v: Seq<String>) -> Seq<Seq<char>> {
    v.map_values(|t: String| t@)
}

/// The characters of `s`, in order.
pub(crate) fn chars_of(s: &str) -> (r: Vec<char>)
    ensures
        r@ == s@,
{
    broadcast use vstd::string::axiom_spec_iter, vstd::string::next_postcondition;

    let mut it = s.chars();
    let mut r: Vec<char> = Vec::new();
    loop
        invariant
            it.obeys_prophetic_iter_laws(),
            r@ + it.remaining() == s@,
            it.decrease() is Some,
        ensures
            r@ == s@,
        decreases it.decrease()->0,
    {
        match it.next() {
            Some(c) => {
                r.push(c);
            },
            None => {
                assert(r@ + it.remaining() =~= r@);
                break ;
            },
        }
    }
    r
}

/// Relies on `String::from_iter` over `char`s: the string of `v`'s characters, in order.
#[verifier::external_body]
pub(crate) fn string_of(v: &Vec<char>) -> (r: String)
    ensures
        r@ == v@,
{
    String::from_iter(v.iter())
}

fn extend_chars(out: &mut Vec<char>, r: &Vec<char>)
    ensures
        final(out)@ == old(out)@ + r@,
{
    let mut j: usize = 0;
    while j < r.len()
        invariant
            j <= r@.len(),
            out@ == old(out)@ + r@.subrange(0, j as int),
        decreases r@.len() - j,
    {
        out.push(r[j]);
        j += 1;
        assert(r@.subrange(0, j as int) =~= r@.subrange(0, j - 1) + seq![r@[j - 1]]);
    }
    assert(r@.subrange(0, j as int) =~= r@);
}

fn matches_at(s: &Vec<char>, i: usize, p: &Vec<char>) -> (b: bool)
    requires
        i + p@.len() <= s@.len(),
    ensures
        b == (s@.subrange(i as int, i + p@.len()) == p@),
{
    let sl = s.len();
    let mut j: usize = 0;
    while j < p.len()
        invariant
            j <= p@.len(),
            sl == s@.len(),
            i + p@.len() <= s@.len(),
            forall|k: int| 0 <= k < j ==> s@[i + k] == p@[k],
        decreases p@.len() - j,
    {
        if s[i + j] != p[j] {
            assert(s@.subrange(i as int, i + p@.len())[j as int] != p@[j as int]);
            return false;
        }
        j += 1;
    }
    assert(s@.subrange(i as int, i + p@.len()) =~= p@);
    true
}

fn replace_chars(s: &Vec<char>, p: &Vec<char>, r: &Vec<char>) -> (out: Vec<char>)
    requires
        p@.len() > 0,
    ensures
        out@ == replaced(s@, p@, r@),
{
    let n = s.len();
    let m = p.len();
    let mut out: Vec<char> = Vec::new();
    let mut i: usize = 0;
    assert(s@.subrange(0, n as int) =~= s@);
    while i < n
        invariant
            i <= n,
            n == s@.len(),
            m == p@.len(),
            m > 0,
            out@ + replaced(s@.subrange(i as int, n as int), p@, r@) == replaced(s@, p@, r@),
        decreases n - i,
    {
        let ghost rest = s@.subrange(i as int, n as int);
        if m <= n - i && matches_at(s, i, p) {
            proof {
                assert(rest.subrange(0, m as int) =~= s@.subrange(i as int, i + m));
                assert(rest.subrange(m as int, rest.len() as int) =~= s@.subrange(
                    i + m,
                    n as int,
                ));
                assert(replaced(rest, p@, r@) == r@ + replaced(
                    s@.subrange(i + m, n as int),
                    p@,
                    r@,
                ));
            }
            extend_chars(&mut out, r);
            i = i + m;
            assert(out@ + replaced(s@.subrange(i as int, n as int), p@, r@) =~= replaced(
                s@,
                p@,
                r@,
            ));
        } else {
            let ghost tail = s@.subrange(i + 1, n as int);
            proof {
                assert(rest.subrange(1, rest.len() as int) =~= tail);
                if rest.len() >= m {
                    assert(rest.subrange(0, m as int) =~= s@.subrange(i as int, i + m));
                } else {
                    assert(replaced(tail, p@, r@) == tail);
                    assert(rest =~= seq![rest[0]] + tail);
                }
                assert(replaced(rest, p@, r@) == seq![s@[i as int]] + replaced(tail, p@, r@));
            }
            out.push(s[i]);
            i += 1;
            assert(out@ + replaced(s@.subrange(i as int, n as int), p@, r@) =~= replaced(
                s@,
                p@,
                r@,
            ));
        }
    }
    assert(out@ =~= out@ + replaced(s@.subrange(n as int, n as int), p@, r@));
    out
}

/// `s` with every occurrence of the non-empty pattern `p` replaced by `r`,
/// matches taken left to right without overlap.
pub fn replace_str(s: &str, p: &str, r: &str) -> (out: String)
    requires
        p@.len() > 0,
    ensures
        out@ == replaced(s@, p@, r@),
{
    let sv = chars_of(s);
    let pv = chars_of(p);
    let rv = chars_of(r);
    let ov = replace_chars(&sv, &pv, &rv);
    string_of(&ov)
}

/// The strings of `parts`, in order, with `sep` between neighbours.
pub fn join_strings(parts: &Vec<String>, sep: &str) -> (out: String)
    ensures
        out@ == joined(strings_view(parts@), sep@),
{
    let ghost pv = strings_view(parts@);
    let sepv = chars_of(sep);
    let mut out: Vec<char> = Vec::new();
    let mut i: usize = 0;
    while i < parts.len()
        invariant
            i <= parts@.len(),
            pv == strings_view(parts@),
            sepv@ == sep@,
            out@ == joined(pv.subrange(0, i as int), sep@),
        decreases parts@.len() - i,
    {
        let part = chars_of(parts[i].as_str());
        if i > 0 {
            extend_chars(&mut out, &sepv);
        }
        extend_chars(&mut out, &part);
        i += 1;
        proof {
            let pre = pv.subrange(0, i as int);
            assert(pre.drop_last() =~= pv.subrange(0, i - 1));
            if i == 1 {
                assert(out@ =~= pre[0]);
            }
        }
    }
    assert(pv.subrange(0, i as int) =~= pv);
    string_of(&out)
}

fn push_decimal(n: usize, out: &mut Vec<char>)
    ensures
        final(out)@ == old(out)@ + decimal(n as nat),
    decreases n,
{
    if n >= 10 {
        push_decimal(n / 10, out);
    }
    let d = n % 10;
    let c = if d == 0 {
        '0'
    } else if d == 1 {
        '1'
    } else if d == 2 {
        '2'
    } else if d == 3 {
        '3'
    } else if d == 4 {
        '4'
    } else if d == 5 {
        '5'
    } else if d == 6 {
        '6'
    } else if d == 7 {
        '7'
    } else if d == 8 {
        '8'
    } else {
        '9'
    };
    out.push(c);
    assert(final(out)@ =~= old(out)@ + decimal(n as nat));
}

/// The decimal notation of `n`.
pub fn decimal_string(n: usize) -> (s: String)
    ensures
        s@ == decimal(n as nat),
{
    let mut out: Vec<char> = Vec::new();
    push_decimal(n, &mut out);
    assert(out@ =~= decimal(n as nat));
    string_of(&out)
}

} // verus!

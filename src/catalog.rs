//! Picking the post sources out of a directory listing.
use vstd::prelude::*;
use crate::posts::{RawPost, SourceType, opt_view};
use crate::text::{chars_of, string_of};

verus! {

/// The position of the last `.` in `f`, or -1 where it has none.
pub open spec fn last_dot(f: Seq<char>) -> int
    decreases f.len(),
{
    if f.len() == 0 {
        -1
    } else if f.last() == '.' {
        f.len() - 1
    } else {
        last_dot(f.drop_last())
    }
}

proof fn lemma_last_dot_bounds(f: Seq<char>)
    ensures
        -1 <= last_dot(f) < f.len(),
        last_dot(f) >= 0 ==> f[last_dot(f)] == '.',
    decreases f.len(),
{
    if f.len() > 0 && f.last() != '.' {
        lemma_last_dot_bounds(f.drop_last());
    }
}

/// The stem of a file name whose extension is `md`, or `None` for any other
/// name. As for paths, a leading dot starts no extension (`.md` has none).
pub open spec fn markdown_stem(f: Seq<char>) -> Option<Seq<char>> {
    let d = last_dot(f);
    if d > 0 && f.subrange(d + 1, f.len() as int) == "md"@ {
        Some(f.subrange(0, d))
    } else {
        None
    }
}

/// The (name, path) of each markdown source among `(file name, path)`
/// entries, in listing order.
pub open spec fn catalog(entries: Seq<(Seq<char>, Seq<char>)>) -> Seq<(Seq<char>, Seq<char>)>
    decreases entries.len(),
{
    if entries.len() == 0 {
        Seq::empty()
    } else {
        let rest = catalog(entries.drop_last());
        match markdown_stem(entries.last().0) {
            Some(stem) => rest.push((stem, entries.last().1)),
            None => rest,
        }
    }
}

pub open spec fn pairs_view(s: Seq<(String, String)>) -> Seq<(Seq<char>, Seq<char>)> {
    s.map_values(|e: (String, String)| (e.0@, e.1@))
}

pub open spec fn records_view(s: Seq<RawPost>) -> Seq<(Seq<char>, Seq<char>)> {
    s.map_values(|p: RawPost| (p.name@, p.path@))
}

/// The stem of `file_name` when its extension is `md`.
pub fn markdown_stem_of(file_name: &str) -> (r: Option<String>)
    ensures
        opt_view(r) == markdown_stem(file_name@),
{
    let cs = chars_of(file_name);
    let n = cs.len();
    let mut i: usize = n;
    assert(cs@.subrange(0, n as int) =~= cs@);
    while i > 0 && cs[i - 1] != '.'
        invariant
            i <= n,
            n == cs@.len(),
            last_dot(cs@.subrange(0, i as int)) == last_dot(cs@),
        decreases i,
    {
        assert(cs@.subrange(0, i as int).drop_last() =~= cs@.subrange(0, i - 1));
        i -= 1;
    }
    proof {
        reveal_strlit("md");
        if i > 0 {
            assert(cs@.subrange(0, i as int).last() == '.');
        } else {
            assert(cs@.subrange(0, 0) =~= Seq::<char>::empty());
        }
    }
    if i > 1 && n - i == 2 && cs[i] == 'm' && cs[i + 1] == 'd' {
        assert(cs@.subrange(i as int, n as int) =~= "md"@);
        let mut stem: Vec<char> = Vec::new();
        let mut j: usize = 0;
        while j < i - 1
            invariant
                j <= i - 1,
                i <= n,
                n == cs@.len(),
                stem@ == cs@.subrange(0, j as int),
            decreases i - 1 - j,
        {
            stem.push(cs[j]);
            j += 1;
            assert(stem@ =~= cs@.subrange(0, j as int));
        }
        Some(string_of(&stem))
    } else {
        proof {
            if i > 1 && cs@.subrange(i as int, n as int) == "md"@ {
                assert(cs@.subrange(i as int, n as int).len() == 2);
                assert(cs@.subrange(i as int, n as int)[0] == cs@[i as int]);
                assert(cs@.subrange(i as int, n as int)[1] == cs@[i + 1]);
            }
        }
        None
    }
}

/// One record per entry whose file name has the `md` extension, in listing
/// order, named by the file stem; every other entry is skipped.
pub fn scan_source_file(entries: &Vec<(String, String)>) -> (r: Vec<RawPost>)
    ensures
        records_view(r@) == catalog(pairs_view(entries@)),
        forall|i: int|
            0 <= i < r@.len() ==> {
                &&& r@[i].name@.len() > 0
                &&& r@[i].source_type == SourceType::Markdown
                &&& r@[i].content is None
                &&& r@[i].tags is None
                &&& r@[i].date is None
                &&& r@[i].reading_time is None
            },
{
    let ghost ev = pairs_view(entries@);
    let mut r: Vec<RawPost> = Vec::new();
    let mut i: usize = 0;
    while i < entries.len()
        invariant
            i <= entries@.len(),
            ev == pairs_view(entries@),
            records_view(r@) == catalog(ev.subrange(0, i as int)),
            forall|k: int|
                0 <= k < r@.len() ==> {
                    &&& r@[k].name@.len() > 0
                    &&& r@[k].source_type == SourceType::Markdown
                    &&& r@[k].content is None
                    &&& r@[k].tags is None
                    &&& r@[k].date is None
                    &&& r@[k].reading_time is None
                },
        decreases entries@.len() - i,
    {
        let ghost pre = ev.subrange(0, i + 1);
        assert(pre.drop_last() =~= ev.subrange(0, i as int));
        match markdown_stem_of(entries[i].0.as_str()) {
            Some(stem) => {
                let ghost old_r = r@;
                proof {
                    reveal_strlit("md");
                    lemma_last_dot_bounds(entries@[i as int].0@);
                    assert(stem@.len() > 0);
                }
                let post = RawPost::new(stem, SourceType::Markdown, entries[i].1.clone());
                r.push(post);
                assert(forall|k: int| 0 <= k < old_r.len() ==> r@[k] == old_r[k]);
                assert(r@[old_r.len() as int] == post);
                assert(records_view(r@) =~= records_view(old_r).push((stem@, ev[i as int].1)));
            },
            None => {},
        }
        i += 1;
    }
    assert(ev.subrange(0, i as int) =~= ev);
    r
}

/// Whether name `a` comes no later than `b`: compared character by
/// character, a prefix first.
pub open spec fn name_le(a: Seq<char>, b: Seq<char>) -> bool
    decreases a.len(),
{
    if a.len() == 0 {
        true
    } else if b.len() == 0 {
        false
    } else if a[0] != b[0] {
        a[0] < b[0]
    } else {
        name_le(a.drop_first(), b.drop_first())
    }
}

/// Whether the entries are ordered by file name.
pub open spec fn sorted_by_name(s: Seq<(String, String)>) -> bool {
    forall|i: int, j: int| 0 <= i < j < s.len() ==> name_le(s[i].0@, s[j].0@)
}

proof fn lemma_name_le_total(a: Seq<char>, b: Seq<char>)
    ensures
        name_le(a, b) || name_le(b, a),
    decreases a.len(),
{
    if a.len() > 0 && b.len() > 0 && a[0] == b[0] {
        lemma_name_le_total(a.drop_first(), b.drop_first());
    }
}

proof fn lemma_name_le_trans(a: Seq<char>, b: Seq<char>, c: Seq<char>)
    requires
        name_le(a, b),
        name_le(b, c),
    ensures
        name_le(a, c),
    decreases a.len(),
{
    if a.len() > 0 && b.len() > 0 && c.len() > 0 && a[0] == b[0] && b[0] == c[0] {
        lemma_name_le_trans(a.drop_first(), b.drop_first(), c.drop_first());
    }
}

fn name_le_exec(a: &str, b: &str) -> (r: bool)
    ensures
        r == name_le(a@, b@),
{
    let av = chars_of(a);
    let bv = chars_of(b);
    let mut i: usize = 0;
    assert(av@.skip(0) =~= av@);
    assert(bv@.skip(0) =~= bv@);
    while i < av.len() && i < bv.len() && av[i] == bv[i]
        invariant
            i <= av@.len(),
            i <= bv@.len(),
            name_le(av@.skip(i as int), bv@.skip(i as int)) == name_le(a@, b@),
            av@ == a@,
            bv@ == b@,
        decreases av@.len() - i,
    {
        assert(av@.skip(i as int).drop_first() =~= av@.skip(i + 1));
        assert(bv@.skip(i as int).drop_first() =~= bv@.skip(i + 1));
        i += 1;
    }
    if i == av.len() {
        true
    } else if i == bv.len() {
        false
    } else {
        av[i] < bv[i]
    }
}

/// The entries ordered by file name: the same entries, each as often, so
/// that a listing in any order gives one result.
pub fn sort_by_name(entries: &Vec<(String, String)>) -> (r: Vec<(String, String)>)
    ensures
        r@.to_multiset() == entries@.to_multiset(),
        sorted_by_name(r@),
{
    let mut out: Vec<(String, String)> = Vec::new();
    let mut i: usize = 0;
    assert(entries@.subrange(0, 0) =~= Seq::<(String, String)>::empty());
    while i < entries.len()
        invariant
            i <= entries@.len(),
            out@.to_multiset() == entries@.subrange(0, i as int).to_multiset(),
            sorted_by_name(out@),
        decreases entries@.len() - i,
    {
        let e = (entries[i].0.clone(), entries[i].1.clone());
        assert(e == entries@[i as int]);
        let mut p: usize = 0;
        while p < out.len() && name_le_exec(out[p].0.as_str(), e.0.as_str())
            invariant
                p <= out@.len(),
                forall|k: int| 0 <= k < p ==> name_le(out@[k].0@, e.0@),
            decreases out@.len() - p,
        {
            p += 1;
        }
        let ghost before = out@;
        let ghost ev = e;
        proof {
            if p < before.len() {
                lemma_name_le_total(before[p as int].0@, e.0@);
            }
        }
        out.insert(p, e);
        proof {
            let s = out@;
            assert forall|a: int, b: int| 0 <= a < b < s.len() implies name_le(
                s[a].0@,
                s[b].0@,
            ) by {
                if b < p {
                } else if b == p {
                } else if a < p {
                    assert(s[b] == before[b - 1]);
                } else if a == p {
                    assert(s[b] == before[b - 1]);
                    if b - 1 > p {
                        lemma_name_le_trans(ev.0@, before[p as int].0@, before[b - 1].0@);
                    }
                } else {
                    assert(s[a] == before[a - 1]);
                    assert(s[b] == before[b - 1]);
                }
            }
            vstd::seq_lib::to_multiset_insert(before, p as int, ev);
            assert(out@.to_multiset() == before.to_multiset().insert(ev));
            assert(entries@.subrange(0, i + 1) =~= entries@.subrange(0, i as int).push(ev));
            vstd::seq_lib::to_multiset_build(entries@.subrange(0, i as int), ev);
        }
        i += 1;
    }
    assert(entries@.subrange(0, i as int) =~= entries@);
    out
}

} // verus!

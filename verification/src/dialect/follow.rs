//! Keyword follow rules: each rule pairs a backward token pattern with the
//! keywords that may come next when the pattern matches the tokens before the
//! cursor.
use vstd::prelude::*;

use crate::lex::{Keyword, TokenKind};

pub use crate::lex::rule::{Cond, Dir};

verus! {

/// A group of rules.
#[derive(Debug)]
pub struct Rules(pub Vec<Rule>);

/// A backward pattern and what may follow it.
#[derive(Debug)]
pub struct Rule(pub Cond, pub Vec<Next>);

/// A suggestion: one keyword, or a sequence of keywords.
#[derive(Debug, Clone, PartialEq, Eq)]
pub enum Next {
    Kw(Keyword),
    KwSeq(Vec<Keyword>),
}

/// The keywords a suggestion stands for.
pub open spec fn next_keywords(n: Next) -> Seq<Keyword> {
    match n {
        Next::Kw(k) => seq![k],
        Next::KwSeq(v) => v@,
    }
}

/// Suggestions compared by what they are: a single keyword, or a sequence.
pub open spec fn next_key(n: Next) -> (bool, Seq<Keyword>) {
    match n {
        Next::Kw(k) => (false, seq![k]),
        Next::KwSeq(v) => (true, v@),
    }
}

/// The tokens without a trailing end-of-input token.
pub open spec fn trim_eof(ts: Seq<TokenKind>) -> Seq<TokenKind> {
    if ts.len() > 0 && ts.last() == TokenKind::Eof {
        ts.drop_last()
    } else {
        ts
    }
}

/// Whether a rule's pattern matches the tokens backward from their end.
pub open spec fn fires(r: Rule, t: Seq<TokenKind>) -> bool {
    r.0.spec_scan_from(t, Dir::Bwd, t.len() as int).0
}

/// The suggestions of the rules `j..` of a group, in order.
pub open spec fn group_nexts(g: Seq<Rule>, t: Seq<TokenKind>, j: int) -> Seq<(bool, Seq<Keyword>)>
    decreases g.len() - j,
{
    if j < 0 || j >= g.len() {
        Seq::empty()
    } else {
        let here = if fires(g[j], t) {
            g[j].1@.map_values(|n: Next| next_key(n))
        } else {
            Seq::empty()
        };
        here + group_nexts(g, t, j + 1)
    }
}

/// The suggestions of the groups `i..`, in order.
pub open spec fn all_nexts(rs: Seq<Rules>, t: Seq<TokenKind>, i: int) -> Seq<(bool, Seq<Keyword>)>
    decreases rs.len() - i,
{
    if i < 0 || i >= rs.len() {
        Seq::empty()
    } else {
        group_nexts(rs[i].0@, t, 0) + all_nexts(rs, t, i + 1)
    }
}

/// The suggestions without repeats: each one the first time it occurs and not
/// among `seen`.
pub open spec fn dedup(s: Seq<(bool, Seq<Keyword>)>, seen: Seq<(bool, Seq<Keyword>)>) -> Seq<
    (bool, Seq<Keyword>),
>
    decreases s.len(),
{
    if s.len() == 0 {
        Seq::empty()
    } else if seen.contains(s[0]) {
        dedup(s.drop_first(), seen)
    } else {
        seq![s[0]] + dedup(s.drop_first(), seen.push(s[0]))
    }
}

/// The keyword sequences that may follow `tokens` according to `rules`.
pub open spec fn spec_resolve_next(rules: Seq<Rules>, tokens: Seq<TokenKind>) -> Seq<Seq<Keyword>> {
    dedup(all_nexts(rules, trim_eof(tokens), 0), Seq::empty()).map_values(
        |k: (bool, Seq<Keyword>)| k.1,
    )
}

fn keywords_eq(a: &Vec<Keyword>, b: &Vec<Keyword>) -> (res: bool)
    ensures
        res == (a@ == b@),
{
    if a.len() != b.len() {
        return false;
    }
    let mut i: usize = 0;
    while i < a.len()
        invariant
            a@.len() == b@.len(),
            i <= a@.len(),
            forall|j: int| 0 <= j < i ==> a@[j] == b@[j],
        decreases a.len() - i,
    {
        if a[i] != b[i] {
            return false;
        }
        i += 1;
    }
    assert(a@ =~= b@);
    true
}

fn next_eq(a: &Next, b: &Next) -> (res: bool)
    ensures
        res == (next_key(*a) == next_key(*b)),
{
    match (a, b) {
        (Next::Kw(x), Next::Kw(y)) => {
            proof {
                if *x != *y {
                    assert(seq![*x][0] != seq![*y][0]);
                }
            }
            *x == *y
        },
        (Next::KwSeq(x), Next::KwSeq(y)) => keywords_eq(x, y),
        _ => false,
    }
}

fn copy_next(n: &Next) -> (res: Next)
    ensures
        next_key(res) == next_key(*n),
{
    match n {
        Next::Kw(k) => Next::Kw(*k),
        Next::KwSeq(_) => Next::KwSeq(next_to_vec(n)),
    }
}

fn next_to_vec(n: &Next) -> (res: Vec<Keyword>)
    ensures
        res@ == next_keywords(*n),
{
    match n {
        Next::Kw(k) => {
            let v = vec![*k];
            assert(v@ =~= seq![*k]);
            v
        },
        Next::KwSeq(v) => {
            let mut out: Vec<Keyword> = Vec::new();
            let mut i: usize = 0;
            while i < v.len()
                invariant
                    i <= v@.len(),
                    out@ == v@.subrange(0, i as int),
                decreases v.len() - i,
            {
                out.push(v[i]);
                i += 1;
                assert(out@ =~= v@.subrange(0, i as int));
            }
            assert(out@ =~= v@);
            out
        },
    }
}

proof fn lemma_dedup_step(
    x: (bool, Seq<Keyword>),
    rest: Seq<(bool, Seq<Keyword>)>,
    seen: Seq<(bool, Seq<Keyword>)>,
)
    ensures
        dedup(seq![x] + rest, seen) == if seen.contains(x) {
            dedup(rest, seen)
        } else {
            seq![x] + dedup(rest, seen.push(x))
        },
{
    let s = seq![x] + rest;
    assert(s[0] == x);
    assert(s.drop_first() =~= rest);
}

/// The keyword sequences that may follow `tokens` (a trailing end-of-input
/// token ignored): the suggestions of every rule whose pattern matches the
/// tokens backward from their end, in rule order, each suggestion once.
pub fn resolve_next(rules: &[Rules], tokens: &[TokenKind]) -> (res: Vec<Vec<Keyword>>)
    ensures
        res@.map_values(|v: Vec<Keyword>| v@) == spec_resolve_next(rules@, tokens@),
{
    let t: &[TokenKind] = if tokens.len() > 0 && tokens[tokens.len() - 1] == TokenKind::Eof {
        &tokens[0..tokens.len() - 1]
    } else {
        tokens
    };
    assert(t@ =~= trim_eof(tokens@));
    let ghost total = all_nexts(rules@, t@, 0);
    let mut out: Vec<Vec<Keyword>> = Vec::new();
    let mut seen: Vec<Next> = Vec::new();
    let mut i: usize = 0;
    proof {
        assert(seen@.map_values(|n: Next| next_key(n)) =~= Seq::<(bool, Seq<Keyword>)>::empty());
        assert(Seq::<(bool, Seq<Keyword>)>::empty() + dedup(total, Seq::empty()) =~= dedup(
            total,
            Seq::empty(),
        ));
    }
    while i < rules.len()
        invariant
            t@ == trim_eof(tokens@),
            total == all_nexts(rules@, t@, 0),
            i <= rules@.len(),
            out@.len() == seen@.len(),
            forall|k: int| 0 <= k < out@.len() ==> (#[trigger] out@[k])@ == next_key(seen@[k]).1,
            dedup(total, Seq::empty()) == seen@.map_values(|n: Next| next_key(n)) + dedup(
                all_nexts(rules@, t@, i as int),
                seen@.map_values(|n: Next| next_key(n)),
            ),
        decreases rules.len() - i,
    {
        let group = &rules[i].0;
        let mut j: usize = 0;
        while j < group.len()
            invariant
                t@ == trim_eof(tokens@),
                total == all_nexts(rules@, t@, 0),
                i < rules@.len(),
                group@ == rules@[i as int].0@,
                j <= group@.len(),
                out@.len() == seen@.len(),
                forall|k: int|
                    0 <= k < out@.len() ==> (#[trigger] out@[k])@ == next_key(seen@[k]).1,
                dedup(total, Seq::empty()) == seen@.map_values(|n: Next| next_key(n)) + dedup(
                    group_nexts(group@, t@, j as int) + all_nexts(rules@, t@, i + 1),
                    seen@.map_values(|n: Next| next_key(n)),
                ),
            decreases group.len() - j,
        {
            let rule = &group[j];
            let ghost rest = group_nexts(group@, t@, j + 1) + all_nexts(rules@, t@, i + 1);
            if rule.0.scan(t, Dir::Bwd).0 {
                let nexts = &rule.1;
                let ghost here = nexts@.map_values(|n: Next| next_key(n));
                assert(group_nexts(group@, t@, j as int) == here + group_nexts(
                    group@,
                    t@,
                    j + 1,
                ));
                assert(here.skip(0) + rest =~= group_nexts(group@, t@, j as int) + all_nexts(
                    rules@,
                    t@,
                    i + 1,
                ));
                let mut k: usize = 0;
                while k < nexts.len()
                    invariant
                        k <= nexts@.len(),
                        here == nexts@.map_values(|n: Next| next_key(n)),
                        out@.len() == seen@.len(),
                        forall|m: int|
                            0 <= m < out@.len() ==> (#[trigger] out@[m])@ == next_key(seen@[m]).1,
                        dedup(total, Seq::empty()) == seen@.map_values(|n: Next| next_key(n))
                            + dedup(
                            here.skip(k as int) + rest,
                            seen@.map_values(|n: Next| next_key(n)),
                        ),
                    decreases nexts.len() - k,
                {
                    let n = &nexts[k];
                    let ghost sv = seen@.map_values(|n: Next| next_key(n));
                    proof {
                        assert(here.skip(k as int) + rest =~= seq![next_key(*n)] + (here.skip(
                            k + 1,
                        ) + rest));
                        lemma_dedup_step(next_key(*n), here.skip(k + 1) + rest, sv);
                    }
                    let mut found = false;
                    let mut m: usize = 0;
                    while m < seen.len()
                        invariant
                            m <= seen@.len(),
                            sv == seen@.map_values(|n: Next| next_key(n)),
                            found == exists|q: int| 0 <= q < m && sv[q] == next_key(*n),
                        decreases seen.len() - m,
                    {
                        assert(sv[m as int] == next_key(seen@[m as int]));
                        if next_eq(&seen[m], n) {
                            found = true;
                        }
                        m += 1;
                    }
                    assert(found == sv.contains(next_key(*n)));
                    if !found {
                        let v = next_to_vec(n);
                        out.push(v);
                        seen.push(copy_next(n));
                        proof {
                            assert(seen@.map_values(|n: Next| next_key(n)) =~= sv.push(
                                next_key(*n),
                            ));
                        }
                    }
                    k += 1;
                }
                assert(here.skip(nexts@.len() as int) =~= Seq::<(bool, Seq<Keyword>)>::empty());
                assert(Seq::<(bool, Seq<Keyword>)>::empty() + rest =~= rest);
            } else {
                assert(group_nexts(group@, t@, j as int) == Seq::<(bool, Seq<Keyword>)>::empty()
                    + group_nexts(group@, t@, j + 1));
                assert(Seq::<(bool, Seq<Keyword>)>::empty() + group_nexts(group@, t@, j + 1)
                    =~= group_nexts(group@, t@, j + 1));
            }
            j += 1;
        }
        assert(group_nexts(group@, t@, j as int) =~= Seq::<(bool, Seq<Keyword>)>::empty());
        assert(Seq::<(bool, Seq<Keyword>)>::empty() + all_nexts(rules@, t@, i + 1) =~= all_nexts(
            rules@,
            t@,
            i + 1,
        ));
        i += 1;
    }
    proof {
        assert(dedup(Seq::empty(), seen@.map_values(|n: Next| next_key(n))) =~= Seq::<
            (bool, Seq<Keyword>),
        >::empty());
        let d = dedup(total, Seq::empty());
        assert(d =~= seen@.map_values(|n: Next| next_key(n)));
        assert(out@.map_values(|v: Vec<Keyword>| v@) =~= d.map_values(
            |k: (bool, Seq<Keyword>)| k.1,
        ));
    }
    out
}


/// What `dedup` keeps is not among `seen`, and nothing in it comes twice.
proof fn lemma_dedup_distinct(s: Seq<(bool, Seq<Keyword>)>, seen: Seq<(bool, Seq<Keyword>)>)
    ensures
        forall|i: int| 0 <= i < dedup(s, seen).len() ==> !seen.contains(#[trigger] dedup(s, seen)[i]),
        forall|i: int, j: int|
            0 <= i < j < dedup(s, seen).len() ==> dedup(s, seen)[i] != dedup(s, seen)[j],
    decreases s.len(),
{
    if s.len() > 0 {
        if seen.contains(s[0]) {
            lemma_dedup_distinct(s.drop_first(), seen);
            assert(dedup(s, seen) == dedup(s.drop_first(), seen));
        } else {
            let rest = dedup(s.drop_first(), seen.push(s[0]));
            lemma_dedup_distinct(s.drop_first(), seen.push(s[0]));
            let d = seq![s[0]] + rest;
            assert(dedup(s, seen) == d);
            assert forall|i: int| 0 <= i < d.len() implies !seen.contains(#[trigger] d[i]) by {
                if i > 0 {
                    assert(d[i] == rest[i - 1]);
                    if seen.contains(d[i]) {
                        let k = choose|k: int| 0 <= k < seen.len() && seen[k] == d[i];
                        assert(seen.push(s[0])[k] == d[i]);
                    }
                }
            }
            assert forall|i: int, j: int| 0 <= i < j < d.len() implies d[i] != d[j] by {
                if i == 0 {
                    assert(d[j] == rest[j - 1]);
                    assert(seen.push(s[0])[seen.len() as int] == s[0]);
                } else {
                    assert(d[i] == rest[i - 1]);
                    assert(d[j] == rest[j - 1]);
                }
            }
        }
    }
}

/// No suggestion is offered twice: the suggestions that follow the tokens,
/// as keywords and whether they form a sequence, are pairwise distinct.
pub proof fn law_resolve_next_distinct(rules: Seq<Rules>, tokens: Seq<TokenKind>)
    ensures
        ({
            let d = dedup(all_nexts(rules, trim_eof(tokens), 0), Seq::empty());
            forall|i: int, j: int| 0 <= i < j < d.len() ==> d[i] != d[j]
        }),
{
    lemma_dedup_distinct(all_nexts(rules, trim_eof(tokens), 0), Seq::empty());
}

} // verus!

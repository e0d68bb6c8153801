//! Bidirectional token pattern matching and scanning.
//!
//! Conditions ([`Cond`]) are pattern matchers that compose to express token
//! patterns. Matching proceeds forward ([`Dir::Fwd`], from the start towards
//! the end of the token sequence) or backward ([`Dir::Bwd`], from the end
//! towards the start). The dialect module uses them for keyword follow rules.
//!
//! Every match runs on a budget of steps (`max(64 * len, 256)`): each
//! condition that is tried costs one step, and a match that runs out of steps
//! fails.
use vstd::prelude::*;

use crate::lex::{Keyword, OpTag, TokenKind};

verus! {

/// A token pattern.
#[derive(Debug)]
pub enum Cond {
    /// Holds at the end in the forward direction, or at the start in the
    /// backward direction. Consumes nothing.
    End,
    /// Consumes the token if it is the given keyword.
    Kw(Keyword),
    /// Consumes the token if it is an operator with the given tag.
    Op(OpTag),
    /// Consumes the token if it is of the given kind.
    Kind(TokenKind),
    /// Consumes the token if it is an operator.
    AnyOp,
    /// Tries each condition and succeeds if any matches, taking the match
    /// that reaches furthest in the direction.
    Any(Vec<Cond>),
    /// Succeeds, consuming one token, when the inner condition fails; fails
    /// when it succeeds.
    Not(Box<Cond>),
    /// Consumes while the inner condition holds and moves. Always succeeds.
    Many(Box<Cond>),
    /// All conditions must match in order (in reverse order backward).
    Sequence(Vec<Cond>),
    /// Stops at (without consuming) the first position where the condition
    /// holds; fails if it never holds.
    Until(Box<Cond>),
    /// Succeeds when the inner condition does, consuming nothing.
    Peek(Box<Cond>),
    /// A balanced group: the opening condition (the closing one backward),
    /// then everything up to the matching closing condition (opening one
    /// backward), counting nested groups.
    Scoped(Box<Cond>, Box<Cond>),
}

/// The direction of a match.
#[derive(Debug, Clone, Copy, PartialEq, Eq, Hash, Structural)]
pub enum Dir {
    Fwd,
    Bwd,
}

impl Dir {
    /// Step the offset one token in the direction, staying within `0..=len`.
    pub open spec fn spec_step(self, o: int, len: int) -> int {
        match self {
            Dir::Fwd => if o + 1 < len { o + 1 } else { len },
            Dir::Bwd => if o <= 0 { 0 } else { o - 1 },
        }
    }

    /// Whether the offset is at the edge the direction moves towards.
    pub open spec fn spec_at_edge(self, o: int, len: int) -> bool {
        match self {
            Dir::Fwd => o >= len,
            Dir::Bwd => o == 0,
        }
    }

    /// The index of the token that a condition at the offset looks at.
    pub open spec fn spec_index(self, o: int) -> int {
        match self {
            Dir::Fwd => o,
            Dir::Bwd => if o <= 0 { 0 } else { o - 1 },
        }
    }

    /// Where a match in the direction starts.
    pub open spec fn spec_start(self, len: int) -> int {
        match self {
            Dir::Fwd => 0,
            Dir::Bwd => len,
        }
    }

    /// How far the offset is from the edge the direction moves towards.
    pub open spec fn dist(self, o: int, len: int) -> int {
        match self {
            Dir::Fwd => len - o,
            Dir::Bwd => o,
        }
    }

    fn step(&self, offset: usize, len: usize) -> (res: usize)
        requires
            len <= usize::MAX,
        ensures
            res == self.spec_step(offset as int, len as int),
    {
        match self {
            Dir::Fwd => if offset < len && offset + 1 < len {
                offset + 1
            } else {
                len
            },
            Dir::Bwd => if offset == 0 {
                0
            } else {
                offset - 1
            },
        }
    }

    fn at_edge(&self, offset: usize, len: usize) -> (res: bool)
        ensures
            res == self.spec_at_edge(offset as int, len as int),
    {
        match self {
            Dir::Fwd => offset >= len,
            Dir::Bwd => offset == 0,
        }
    }

    /// The offset the direction starts from: the start forward, the end
    /// backward.
    fn start(&self, ts: &[TokenKind]) -> (res: usize)
        ensures
            res == self.spec_start(ts@.len() as int),
    {
        match self {
            Dir::Fwd => 0,
            Dir::Bwd => ts.len(),
        }
    }

    fn index(&self, offset: usize) -> (res: usize)
        ensures
            res == self.spec_index(offset as int),
    {
        match self {
            Dir::Fwd => offset,
            Dir::Bwd => if offset == 0 {
                0
            } else {
                offset - 1
            },
        }
    }
}

/// The step budget of a match over `len` tokens: `max(64 * len, 256)`,
/// saturating.
pub open spec fn budget(len: nat) -> nat {
    let f = if len * 64 <= usize::MAX { len * 64 } else { usize::MAX as nat };
    if f < 256 { 256 } else { f }
}

pub open spec fn nat_min(a: nat, b: nat) -> nat {
    if a < b { a } else { b }
}

/// Whether the token at `idx` satisfies a one-token condition.
pub open spec fn token_test(c: Cond, ts: Seq<TokenKind>, idx: int) -> bool {
    0 <= idx < ts.len() && match c {
        Cond::Kw(k) => ts[idx] == TokenKind::Keyword(k),
        Cond::Op(t) => match ts[idx] {
            TokenKind::Operator(op) => op.semantic_tag == t,
            _ => false,
        },
        Cond::Kind(k) => ts[idx] == k,
        Cond::AnyOp => ts[idx] is Operator,
        _ => false,
    }
}

/// Match `c` at offset `o` with `f` steps left: whether it matched, the
/// offset it reached (the unchanged offset on failure, except as the
/// combinators say), and the steps left.
pub open spec fn match_spec(c: Cond, ts: Seq<TokenKind>, o: int, dir: Dir, f: nat) -> (
    bool,
    int,
    nat,
)
    decreases f, 0int, 0int,
{
    if f == 0 {
        (false, o, 0)
    } else {
        let f1 = (f - 1) as nat;
        match c {
            Cond::End => (dir.spec_at_edge(o, ts.len() as int), o, f1),
            Cond::Any(ps) => any_spec(ps@, ts, o, dir, f1, 0, None),
            Cond::Not(inner) => {
                let r = match_spec(*inner, ts, o, dir, f1);
                if r.0 {
                    (false, o, r.2)
                } else {
                    (true, dir.spec_step(o, ts.len() as int), r.2)
                }
            },
            Cond::Many(inner) => many_spec(*inner, ts, o, dir, f1),
            Cond::Sequence(ps) => seq_spec(ps@, ts, o, dir, f1, 0),
            Cond::Until(inner) => until_spec(*inner, ts, o, dir, f1),
            Cond::Peek(inner) => {
                let r = match_spec(*inner, ts, o, dir, f1);
                (r.0, o, r.2)
            },
            Cond::Scoped(open, close) => {
                let (first, second) = match dir {
                    Dir::Fwd => (*open, *close),
                    Dir::Bwd => (*close, *open),
                };
                let r = match_spec(first, ts, o, dir, f1);
                if !r.0 || r.1 == o || r.2 >= f1 {
                    (false, o, r.2)
                } else {
                    scoped_spec(first, second, ts, o, r.1, dir, r.2, 1)
                }
            },
            _ => if token_test(c, ts, dir.spec_index(o)) {
                (true, dir.spec_step(o, ts.len() as int), f1)
            } else {
                (false, o, f1)
            },
        }
    }
}

/// `Any`: try conditions `i..` from offset `o`, keeping the best match so far.
pub open spec fn any_spec(
    ps: Seq<Cond>,
    ts: Seq<TokenKind>,
    o: int,
    dir: Dir,
    f: nat,
    i: int,
    best: Option<int>,
) -> (bool, int, nat)
    decreases f, 1int, ps.len() - i,
{
    if i < 0 || i >= ps.len() {
        match best {
            Some(b) => (true, b, f),
            None => (false, o, f),
        }
    } else {
        let r = match_spec(ps[i], ts, o, dir, f);
        let f2 = nat_min(r.2, f);
        if !r.0 {
            any_spec(ps, ts, o, dir, f2, i + 1, best)
        } else {
            let nb = match best {
                None => r.1,
                Some(b) => match dir {
                    Dir::Fwd => if r.1 >= b { r.1 } else { b },
                    Dir::Bwd => if r.1 <= b { r.1 } else { b },
                },
            };
            any_spec(ps, ts, o, dir, f2, i + 1, Some(nb))
        }
    }
}

/// `Many`: repeat the condition from `o` while it matches and moves.
pub open spec fn many_spec(c: Cond, ts: Seq<TokenKind>, o: int, dir: Dir, f: nat) -> (
    bool,
    int,
    nat,
)
    decreases f, 1int, 0int,
{
    let r = match_spec(c, ts, o, dir, f);
    if !r.0 || r.1 == o {
        (true, o, r.2)
    } else if r.2 < f {
        many_spec(c, ts, r.1, dir, r.2)
    } else {
        (true, r.1, r.2)
    }
}

/// `Seq`: match conditions `i..` in the direction's order from `o`.
pub open spec fn seq_spec(ps: Seq<Cond>, ts: Seq<TokenKind>, o: int, dir: Dir, f: nat, i: int) -> (
    bool,
    int,
    nat,
)
    decreases f, 1int, ps.len() - i,
{
    if i < 0 || i >= ps.len() {
        (true, o, f)
    } else {
        let j = match dir {
            Dir::Fwd => i,
            Dir::Bwd => ps.len() - 1 - i,
        };
        let r = match_spec(ps[j], ts, o, dir, f);
        if !r.0 {
            (false, o, r.2)
        } else {
            seq_spec(ps, ts, r.1, dir, nat_min(r.2, f), i + 1)
        }
    }
}

/// `Until`: move from `o` until the condition holds.
pub open spec fn until_spec(c: Cond, ts: Seq<TokenKind>, o: int, dir: Dir, f: nat) -> (
    bool,
    int,
    nat,
)
    decreases f, 1int, dir.dist(o, ts.len() as int),
{
    let r = match_spec(c, ts, o, dir, f);
    if r.0 {
        (true, o, r.2)
    } else if dir.spec_at_edge(o, ts.len() as int) || o < 0 {
        (false, o, r.2)
    } else {
        let next = dir.spec_step(o, ts.len() as int);
        if next == o {
            (false, o, r.2)
        } else {
            until_spec(c, ts, next, dir, nat_min(r.2, f))
        }
    }
}

/// `Scoped`: inside a group opened from `orig`, `depth` deep, continue at
/// `o`.
pub open spec fn scoped_spec(
    first: Cond,
    second: Cond,
    ts: Seq<TokenKind>,
    orig: int,
    o: int,
    dir: Dir,
    f: nat,
    depth: nat,
) -> (bool, int, nat)
    decreases f, 1int, dir.dist(o, ts.len() as int),
{
    if dir.spec_at_edge(o, ts.len() as int) || o < 0 {
        (false, orig, f)
    } else {
        let r1 = match_spec(first, ts, o, dir, f);
        if r1.0 && r1.1 != o {
            if r1.2 < f {
                scoped_spec(first, second, ts, orig, r1.1, dir, r1.2, depth + 1)
            } else {
                (false, orig, r1.2)
            }
        } else {
            let f1 = nat_min(r1.2, f);
            let r2 = match_spec(second, ts, o, dir, f1);
            if r2.0 && r2.1 != o {
                if depth <= 1 {
                    (true, r2.1, r2.2)
                } else if r2.2 < f {
                    scoped_spec(first, second, ts, orig, r2.1, dir, r2.2, (depth - 1) as nat)
                } else {
                    (false, orig, r2.2)
                }
            } else {
                let next = dir.spec_step(o, ts.len() as int);
                if next == o {
                    (false, orig, nat_min(r2.2, f))
                } else {
                    scoped_spec(first, second, ts, orig, next, dir, nat_min(r2.2, f), depth)
                }
            }
        }
    }
}

/// Whether offset `b` is at `a` or beyond it in the direction.
pub open spec fn dir_le(dir: Dir, a: int, b: int) -> bool {
    match dir {
        Dir::Fwd => a <= b,
        Dir::Bwd => b <= a,
    }
}

/// A condition that looks at one token or the edge: `End`, `Kw`, `Op`,
/// `Kind` or `AnyOp`.
pub open spec fn is_token_cond(c: Cond) -> bool {
    c is End || c is Kw || c is Op || c is Kind || c is AnyOp
}

/// From an offset within the tokens, a match ends within them and not
/// behind its start in its direction, and spends at least one step unless
/// it has none.
pub proof fn lemma_match_dir(c: Cond, ts: Seq<TokenKind>, o: int, dir: Dir, f: nat)
    requires
        0 <= o <= ts.len(),
    ensures
        ({
            let r = match_spec(c, ts, o, dir, f);
            &&& 0 <= r.1 <= ts.len()
            &&& dir_le(dir, o, r.1)
            &&& r.2 <= f
            &&& f > 0 ==> r.2 < f
            &&& f == 0 ==> r == (false, o, 0nat)
        }),
    decreases f, 0int, 0int,
{
    if f > 0 {
        let f1 = (f - 1) as nat;
        match c {
            Cond::Any(ps) => lemma_any_dir(ps@, ts, o, dir, f1, 0, None),
            Cond::Not(inner) => lemma_match_dir(*inner, ts, o, dir, f1),
            Cond::Many(inner) => lemma_many_dir(*inner, ts, o, dir, f1),
            Cond::Sequence(ps) => lemma_seq_dir(ps@, ts, o, dir, f1, 0),
            Cond::Until(inner) => lemma_until_dir(*inner, ts, o, dir, f1),
            Cond::Peek(inner) => lemma_match_dir(*inner, ts, o, dir, f1),
            Cond::Scoped(open, close) => {
                let (first, second) = match dir {
                    Dir::Fwd => (*open, *close),
                    Dir::Bwd => (*close, *open),
                };
                lemma_match_dir(first, ts, o, dir, f1);
                let r = match_spec(first, ts, o, dir, f1);
                if !(!r.0 || r.1 == o || r.2 >= f1) {
                    lemma_scoped_dir(first, second, ts, o, r.1, dir, r.2, 1);
                }
            },
            _ => {},
        }
    }
}

/// [`lemma_match_dir`] for the alternatives of `Any` from `i` on.
pub proof fn lemma_any_dir(
    ps: Seq<Cond>,
    ts: Seq<TokenKind>,
    o: int,
    dir: Dir,
    f: nat,
    i: int,
    best: Option<int>,
)
    requires
        0 <= o <= ts.len(),
        best matches Some(b) ==> 0 <= b <= ts.len() && dir_le(dir, o, b),
    ensures
        ({
            let r = any_spec(ps, ts, o, dir, f, i, best);
            0 <= r.1 <= ts.len() && dir_le(dir, o, r.1) && r.2 <= f
        }),
    decreases f, 1int, ps.len() - i,
{
    if 0 <= i < ps.len() {
        lemma_match_dir(ps[i], ts, o, dir, f);
        let r = match_spec(ps[i], ts, o, dir, f);
        let f2 = nat_min(r.2, f);
        if !r.0 {
            lemma_any_dir(ps, ts, o, dir, f2, i + 1, best);
        } else {
            let nb = match best {
                None => r.1,
                Some(b) => match dir {
                    Dir::Fwd => if r.1 >= b { r.1 } else { b },
                    Dir::Bwd => if r.1 <= b { r.1 } else { b },
                },
            };
            lemma_any_dir(ps, ts, o, dir, f2, i + 1, Some(nb));
        }
    }
}

/// [`lemma_match_dir`] for `Many`.
pub proof fn lemma_many_dir(c: Cond, ts: Seq<TokenKind>, o: int, dir: Dir, f: nat)
    requires
        0 <= o <= ts.len(),
    ensures
        ({
            let r = many_spec(c, ts, o, dir, f);
            0 <= r.1 <= ts.len() && dir_le(dir, o, r.1) && r.2 <= f
        }),
    decreases f, 1int, 0int,
{
    lemma_match_dir(c, ts, o, dir, f);
    let r = match_spec(c, ts, o, dir, f);
    if r.0 && r.1 != o && r.2 < f {
        lemma_many_dir(c, ts, r.1, dir, r.2);
    }
}

/// [`lemma_match_dir`] for the parts of `Sequence` from `i` on.
pub proof fn lemma_seq_dir(ps: Seq<Cond>, ts: Seq<TokenKind>, o: int, dir: Dir, f: nat, i: int)
    requires
        0 <= o <= ts.len(),
    ensures
        ({
            let r = seq_spec(ps, ts, o, dir, f, i);
            0 <= r.1 <= ts.len() && dir_le(dir, o, r.1) && r.2 <= f
        }),
    decreases f, 1int, ps.len() - i,
{
    if 0 <= i < ps.len() {
        let j = match dir {
            Dir::Fwd => i,
            Dir::Bwd => ps.len() - 1 - i,
        };
        lemma_match_dir(ps[j], ts, o, dir, f);
        let r = match_spec(ps[j], ts, o, dir, f);
        if r.0 {
            lemma_seq_dir(ps, ts, r.1, dir, nat_min(r.2, f), i + 1);
        }
    }
}

/// [`lemma_match_dir`] for `Until`.
pub proof fn lemma_until_dir(c: Cond, ts: Seq<TokenKind>, o: int, dir: Dir, f: nat)
    requires
        0 <= o <= ts.len(),
    ensures
        ({
            let r = until_spec(c, ts, o, dir, f);
            0 <= r.1 <= ts.len() && dir_le(dir, o, r.1) && r.2 <= f
        }),
    decreases f, 1int, dir.dist(o, ts.len() as int),
{
    lemma_match_dir(c, ts, o, dir, f);
    let r = match_spec(c, ts, o, dir, f);
    if !r.0 && !(dir.spec_at_edge(o, ts.len() as int) || o < 0) {
        let next = dir.spec_step(o, ts.len() as int);
        if next != o {
            lemma_until_dir(c, ts, next, dir, nat_min(r.2, f));
        }
    }
}

/// [`lemma_match_dir`] for the inside of `Scoped`, opened at `orig`.
pub proof fn lemma_scoped_dir(
    first: Cond,
    second: Cond,
    ts: Seq<TokenKind>,
    orig: int,
    o: int,
    dir: Dir,
    f: nat,
    depth: nat,
)
    requires
        0 <= orig <= ts.len(),
        0 <= o <= ts.len(),
        dir_le(dir, orig, o),
    ensures
        ({
            let r = scoped_spec(first, second, ts, orig, o, dir, f, depth);
            0 <= r.1 <= ts.len() && dir_le(dir, orig, r.1) && r.2 <= f
        }),
    decreases f, 1int, dir.dist(o, ts.len() as int),
{
    if !(dir.spec_at_edge(o, ts.len() as int) || o < 0) {
        lemma_match_dir(first, ts, o, dir, f);
        let r1 = match_spec(first, ts, o, dir, f);
        if r1.0 && r1.1 != o {
            if r1.2 < f {
                lemma_scoped_dir(first, second, ts, orig, r1.1, dir, r1.2, depth + 1);
            }
        } else {
            let f1 = nat_min(r1.2, f);
            lemma_match_dir(second, ts, o, dir, f1);
            let r2 = match_spec(second, ts, o, dir, f1);
            if r2.0 && r2.1 != o {
                if depth > 1 && r2.2 < f {
                    lemma_scoped_dir(first, second, ts, orig, r2.1, dir, r2.2, (depth - 1) as nat);
                }
            } else {
                let next = dir.spec_step(o, ts.len() as int);
                if next != o {
                    lemma_scoped_dir(first, second, ts, orig, next, dir, nat_min(r2.2, f), depth);
                }
            }
        }
    }
}

/// A match from an offset within the tokens never moves against its
/// direction: it ends within the tokens, at the offset or beyond it in the
/// direction.
pub proof fn law_scan_moves_with_direction(c: Cond, ts: Seq<TokenKind>, dir: Dir, offset: int)
    requires
        0 <= offset <= ts.len(),
    ensures
        0 <= c.spec_scan_from(ts, dir, offset).1 <= ts.len(),
        dir_le(dir, offset, c.spec_scan_from(ts, dir, offset).1),
{
    lemma_match_dir(c, ts, offset, dir, budget(ts.len()));
}

/// A match from an offset within the tokens ends within them, never behind
/// its start in its direction, and accounts for its steps: it never spends
/// more than it has, spends at least one when it has any, and with none it
/// fails where it stands. (`Cond::match_inner` gives exactly
/// `match_spec`.)
pub proof fn law_match_steps(c: Cond, ts: Seq<TokenKind>, offset: int, dir: Dir, fuel: nat)
    requires
        0 <= offset <= ts.len(),
    ensures
        ({
            let r = match_spec(c, ts, offset, dir, fuel);
            &&& 0 <= r.1 <= ts.len()
            &&& dir_le(dir, offset, r.1)
            &&& r.2 <= fuel
            &&& fuel > 0 ==> r.2 < fuel
            &&& fuel == 0 ==> r == (false, offset, 0nat)
        }),
{
    lemma_match_dir(c, ts, offset, dir, fuel);
}

/// `Any` over token conditions from `i` on, with `g` steps, enough for each
/// of them: it succeeds when an earlier choice did or an alternative
/// matches, and then gives the furthest offset in the direction among them.
pub proof fn lemma_any_tokens(
    ps: Seq<Cond>,
    ts: Seq<TokenKind>,
    o: int,
    dir: Dir,
    g: nat,
    i: int,
    best: Option<int>,
)
    requires
        0 <= i <= ps.len(),
        g >= ps.len() - i,
        forall|j: int| 0 <= j < ps.len() ==> is_token_cond(#[trigger] ps[j]),
    ensures
        ({
            let r = any_spec(ps, ts, o, dir, g, i, best);
            &&& r.0 <==> (best is Some || exists|j: int| i <= j < ps.len() && (#[trigger] ps[j].spec_scan_from(ts, dir, o)).0)
            &&& forall|j: int| i <= j < ps.len() && (#[trigger] ps[j].spec_scan_from(ts, dir, o)).0 ==> dir_le(
                dir,
                ps[j].spec_scan_from(ts, dir, o).1,
                r.1,
            )
            &&& best matches Some(b) ==> dir_le(dir, b, r.1)
            &&& r.0 ==> (best == Some(r.1) || exists|j: int| i <= j < ps.len() && (#[trigger] ps[j].spec_scan_from(ts, dir, o)).0
                && ps[j].spec_scan_from(ts, dir, o).1 == r.1)
            &&& !r.0 ==> r.1 == o
        }),
    decreases ps.len() - i,
{
    if i < ps.len() {
        let p = ps[i];
        assert(is_token_cond(p));
        let r = match_spec(p, ts, o, dir, g);
        let sc = p.spec_scan_from(ts, dir, o);
        assert(r.0 == sc.0 && r.1 == sc.1 && r.2 == g - 1);
        let f2 = nat_min(r.2, g);
        if !r.0 {
            lemma_any_tokens(ps, ts, o, dir, f2, i + 1, best);
        } else {
            let nb = match best {
                None => r.1,
                Some(b) => match dir {
                    Dir::Fwd => if r.1 >= b { r.1 } else { b },
                    Dir::Bwd => if r.1 <= b { r.1 } else { b },
                },
            };
            lemma_any_tokens(ps, ts, o, dir, f2, i + 1, Some(nb));
        }
    }
}

/// A choice among token conditions succeeds exactly when one of them
/// matches, and then reaches the furthest offset any of them reaches in the
/// direction: the largest forward, the smallest backward.
pub proof fn law_choice_takes_furthest(ps: Vec<Cond>, ts: Seq<TokenKind>, dir: Dir, offset: int)
    requires
        ps@.len() < 255,
        forall|j: int| 0 <= j < ps@.len() ==> is_token_cond(#[trigger] ps@[j]),
    ensures
        ({
            let r = Cond::Any(ps).spec_scan_from(ts, dir, offset);
            &&& r.0 <==> exists|j: int| 0 <= j < ps@.len() && (#[trigger] ps@[j].spec_scan_from(ts, dir, offset)).0
            &&& forall|j: int| 0 <= j < ps@.len() && (#[trigger] ps@[j].spec_scan_from(ts, dir, offset)).0 ==> dir_le(
                dir,
                ps@[j].spec_scan_from(ts, dir, offset).1,
                r.1,
            )
            &&& r.0 ==> exists|j: int| 0 <= j < ps@.len() && (#[trigger] ps@[j].spec_scan_from(ts, dir, offset)).0
                && ps@[j].spec_scan_from(ts, dir, offset).1 == r.1
            &&& !r.0 ==> r.1 == offset
        }),
{
    let f = budget(ts.len());
    lemma_any_tokens(ps@, ts, offset, dir, (f - 1) as nat, 0, None);
}

impl Cond {
    /// The result of matching from `offset` with the full step budget.
    pub open spec fn spec_scan_from(self, ts: Seq<TokenKind>, dir: Dir, offset: int) -> (bool, int) {
        let r = match_spec(self, ts, offset, dir, budget(ts.len()));
        (r.0, r.1)
    }

    fn exec_token_test(&self, ts: &[TokenKind], idx: usize) -> (res: bool)
        ensures
            res == token_test(*self, ts@, idx as int),
    {
        if idx >= ts.len() {
            return false;
        }
        match self {
            Cond::Kw(k) => ts[idx] == TokenKind::Keyword(*k),
            Cond::Op(t) => match ts[idx] {
                TokenKind::Operator(op) => op.semantic_tag == *t,
                _ => false,
            },
            Cond::Kind(k) => ts[idx] == *k,
            Cond::AnyOp => match ts[idx] {
                TokenKind::Operator(_) => true,
                _ => false,
            },
            _ => false,
        }
    }

    fn match_inner(&self, ts: &[TokenKind], offset: usize, dir: Dir, fuel: usize) -> (res: (
        bool,
        usize,
        usize,
    ))
        ensures
            (res.0, res.1 as int, res.2 as nat) == match_spec(
                *self,
                ts@,
                offset as int,
                dir,
                fuel as nat,
            ),
            res.2 <= fuel,
            fuel > 0 ==> res.2 < fuel,
            offset <= ts@.len() ==> res.1 <= ts@.len(),
        decreases fuel, 0int, 0int,
    {
        if fuel == 0 {
            return (false, offset, 0);
        }
        let f1 = fuel - 1;
        let len = ts.len();
        match self {
            Cond::End => (dir.at_edge(offset, len), offset, f1),
            Cond::Any(ps) => {
                let mut best: Option<usize> = None;
                let mut f = f1;
                let mut i: usize = 0;
                while i < ps.len()
                    invariant
                        f <= f1 < fuel,
                        i <= ps@.len(),
                        len == ts@.len(),
                        match_spec(*self, ts@, offset as int, dir, fuel as nat) == any_spec(ps@, ts@, offset as int, dir, f1 as nat, 0, None),
                        any_spec(ps@, ts@, offset as int, dir, f1 as nat, 0, None) == any_spec(
                            ps@,
                            ts@,
                            offset as int,
                            dir,
                            f as nat,
                            i as int,
                            match best {
                                Some(b) => Some(b as int),
                                None => None,
                            },
                        ),
                        offset <= ts@.len() ==> match best {
                            Some(b) => b <= ts@.len(),
                            None => true,
                        },
                    decreases ps.len() - i,
                {
                    let r = ps[i].match_inner(ts, offset, dir, f);
                    f = r.2;
                    if r.0 {
                        best = Some(
                            match best {
                                None => r.1,
                                Some(b) => match dir {
                                    Dir::Fwd => if r.1 >= b {
                                        r.1
                                    } else {
                                        b
                                    },
                                    Dir::Bwd => if r.1 <= b {
                                        r.1
                                    } else {
                                        b
                                    },
                                },
                            },
                        );
                    }
                    i += 1;
                }
                match best {
                    Some(b) => (true, b, f),
                    None => (false, offset, f),
                }
            },
            Cond::Not(inner) => {
                let r = inner.match_inner(ts, offset, dir, f1);
                if r.0 {
                    (false, offset, r.2)
                } else {
                    (true, dir.step(offset, len), r.2)
                }
            },
            Cond::Many(inner) => {
                let mut o = offset;
                let mut f = f1;
                loop
                    invariant
                        f <= f1 < fuel,
                        len == ts@.len(),
                        offset <= ts@.len() ==> o <= ts@.len(),
                        match_spec(*self, ts@, offset as int, dir, fuel as nat) == many_spec(**inner, ts@, offset as int, dir, f1 as nat),
                        many_spec(**inner, ts@, offset as int, dir, f1 as nat) == many_spec(
                            **inner,
                            ts@,
                            o as int,
                            dir,
                            f as nat,
                        ),
                    decreases f,
                {
                    let r = inner.match_inner(ts, o, dir, f);
                    if !r.0 || r.1 == o {
                        return (true, o, r.2);
                    }
                    o = r.1;
                    f = r.2;
                }
            },
            Cond::Sequence(ps) => {
                let mut o = offset;
                let mut f = f1;
                let mut i: usize = 0;
                while i < ps.len()
                    invariant
                        f <= f1 < fuel,
                        i <= ps@.len(),
                        len == ts@.len(),
                        offset <= ts@.len() ==> o <= ts@.len(),
                        match_spec(*self, ts@, offset as int, dir, fuel as nat) == seq_spec(ps@, ts@, offset as int, dir, f1 as nat, 0),
                        seq_spec(ps@, ts@, offset as int, dir, f1 as nat, 0) == seq_spec(
                            ps@,
                            ts@,
                            o as int,
                            dir,
                            f as nat,
                            i as int,
                        ),
                    decreases ps.len() - i,
                {
                    let j = match dir {
                        Dir::Fwd => i,
                        Dir::Bwd => ps.len() - 1 - i,
                    };
                    let r = ps[j].match_inner(ts, o, dir, f);
                    if !r.0 {
                        return (false, o, r.2);
                    }
                    o = r.1;
                    f = r.2;
                    i += 1;
                }
                (true, o, f)
            },
            Cond::Until(inner) => {
                let mut o = offset;
                let mut f = f1;
                loop
                    invariant
                        f <= f1 < fuel,
                        len == ts@.len(),
                        offset <= ts@.len() ==> o <= ts@.len(),
                        match_spec(*self, ts@, offset as int, dir, fuel as nat) == until_spec(**inner, ts@, offset as int, dir, f1 as nat),
                        until_spec(**inner, ts@, offset as int, dir, f1 as nat) == until_spec(
                            **inner,
                            ts@,
                            o as int,
                            dir,
                            f as nat,
                        ),
                    decreases f, dir.dist(o as int, len as int),
                {
                    let r = inner.match_inner(ts, o, dir, f);
                    if r.0 {
                        return (true, o, r.2);
                    }
                    if dir.at_edge(o, len) {
                        return (false, o, r.2);
                    }
                    let next = dir.step(o, len);
                    if next == o {
                        return (false, o, r.2);
                    }
                    o = next;
                    f = r.2;
                }
            },
            Cond::Peek(inner) => {
                let r = inner.match_inner(ts, offset, dir, f1);
                (r.0, offset, r.2)
            },
            Cond::Scoped(open, close) => {
                let (first, second) = match dir {
                    Dir::Fwd => (&**open, &**close),
                    Dir::Bwd => (&**close, &**open),
                };
                let r = first.match_inner(ts, offset, dir, f1);
                if !r.0 || r.1 == offset || r.2 >= f1 {
                    return (false, offset, r.2);
                }
                let mut o = r.1;
                let mut f = r.2;
                let mut depth: usize = 1;
                loop
                    invariant
                        f < f1 < fuel,
                        len == ts@.len(),
                        1 <= depth,
                        depth + f <= fuel,
                        offset <= ts@.len() ==> o <= ts@.len(),
                        match_spec(*self, ts@, offset as int, dir, fuel as nat) == scoped_spec(
                            *first,
                            *second,
                            ts@,
                            offset as int,
                            o as int,
                            dir,
                            f as nat,
                            depth as nat,
                        ),
                    decreases f, dir.dist(o as int, len as int),
                {
                    if dir.at_edge(o, len) {
                        return (false, offset, f);
                    }
                    let r1 = first.match_inner(ts, o, dir, f);
                    if r1.0 && r1.1 != o {
                        if r1.2 < f {
                            o = r1.1;
                            f = r1.2;
                            depth += 1;
                            continue;
                        } else {
                            return (false, offset, r1.2);
                        }
                    }
                    let f2 = if r1.2 < f {
                        r1.2
                    } else {
                        f
                    };
                    let r2 = second.match_inner(ts, o, dir, f2);
                    if r2.0 && r2.1 != o {
                        if depth <= 1 {
                            return (true, r2.1, r2.2);
                        } else if r2.2 < f {
                            o = r2.1;
                            f = r2.2;
                            depth -= 1;
                            continue;
                        } else {
                            return (false, offset, r2.2);
                        }
                    }
                    let f3 = if r2.2 < f {
                        r2.2
                    } else {
                        f
                    };
                    let next = dir.step(o, len);
                    if next == o {
                        return (false, offset, f3);
                    }
                    o = next;
                    f = f3;
                }
            },
            _ => {
                if self.exec_token_test(ts, dir.index(offset)) {
                    (true, dir.step(offset, len), f1)
                } else {
                    (false, offset, f1)
                }
            },
        }
    }

    fn exec_budget(len: usize) -> (res: usize)
        ensures
            res == budget(len as nat),
    {
        let f = if len <= usize::MAX / 64 {
            len * 64
        } else {
            usize::MAX
        };
        if f < 256 {
            256
        } else {
            f
        }
    }

    /// Match from an arbitrary offset: whether the pattern matched, and the
    /// offset it reached (on failure, where it stopped).
    pub fn scan_from(&self, ts: &[TokenKind], dir: Dir, offset: usize) -> (res: (bool, usize))
        ensures
            (res.0, res.1 as int) == self.spec_scan_from(ts@, dir, offset as int),
    {
        let r = self.match_inner(ts, offset, dir, Self::exec_budget(ts.len()));
        (r.0, r.1)
    }

    /// Match from the edge the direction starts at (the start forward, the
    /// end backward).
    pub fn scan(&self, ts: &[TokenKind], dir: Dir) -> (res: (bool, usize))
        ensures
            (res.0, res.1 as int) == self.spec_scan_from(ts@, dir, dir.spec_start(ts@.len() as int)),
    {
        self.scan_from(ts, dir, dir.start(ts))
    }

    /// Try to match from an arbitrary offset; on success, the new offset.
    pub fn match_from(&self, ts: &[TokenKind], dir: Dir, offset: usize) -> (res: Option<usize>)
        ensures
            res == (if self.spec_scan_from(ts@, dir, offset as int).0 {
                Some(self.spec_scan_from(ts@, dir, offset as int).1 as usize)
            } else {
                None::<usize>
            }),
    {
        let r = self.scan_from(ts, dir, offset);
        if r.0 {
            Some(r.1)
        } else {
            None
        }
    }

    /// Whether the pattern matches starting at the edge the direction starts
    /// at.
    pub fn matches(&self, ts: &[TokenKind], dir: Dir) -> (res: bool)
        ensures
            res == self.spec_scan_from(ts@, dir, dir.spec_start(ts@.len() as int)).0,
    {
        self.scan(ts, dir).0
    }

    /// Whether the pattern matches and consumes all tokens in the direction.
    pub fn matches_all(&self, ts: &[TokenKind], dir: Dir) -> (res: bool)
        ensures
            res == ({
                let r = self.spec_scan_from(ts@, dir, dir.spec_start(ts@.len() as int));
                r.0 && dir.spec_at_edge(r.1, ts@.len() as int)
            }),
    {
        let r = self.scan(ts, dir);
        r.0 && dir.at_edge(r.1, ts.len())
    }
}


/// `Many` with `f` steps left always succeeds.
proof fn lemma_many_spec_matches(c: Cond, ts: Seq<TokenKind>, o: int, dir: Dir, f: nat)
    ensures
        many_spec(c, ts, o, dir, f).0,
    decreases f,
{
    let r = match_spec(c, ts, o, dir, f);
    if r.0 && r.1 != o && r.2 < f {
        lemma_many_spec_matches(c, ts, r.1, dir, r.2);
    }
}

/// A one-token test (a keyword, an operator tag or a token kind) matches
/// exactly when the token it faces passes the test, and then moves one token;
/// otherwise it fails where it stands.
pub proof fn law_token_test_moves_one(c: Cond, ts: Seq<TokenKind>, dir: Dir, o: int)
    requires
        c is Kw || c is Op || c is Kind,
    ensures
        c.spec_scan_from(ts, dir, o) == (if token_test(c, ts, dir.spec_index(o)) {
            (true, dir.spec_step(o, ts.len() as int))
        } else {
            (false, o)
        }),
{
}

/// `End` holds at the edge the direction ends at (past the last token
/// forward, before the first one backward) and consumes nothing.
pub proof fn law_end_at_edge(ts: Seq<TokenKind>, dir: Dir, o: int)
    ensures
        Cond::End.spec_scan_from(ts, dir, o) == (dir.spec_at_edge(o, ts.len() as int), o),
{
}

/// `Many` always succeeds, even with zero matches.
pub proof fn law_many_always_matches(c: Cond, ts: Seq<TokenKind>, dir: Dir, o: int)
    ensures
        Cond::Many(Box::new(c)).spec_scan_from(ts, dir, o).0,
{
    lemma_many_spec_matches(c, ts, o, dir, (budget(ts.len()) - 1) as nat);
}

/// `Peek` consumes nothing: whether or not it matches, it ends where it
/// started.
pub proof fn law_peek_consumes_nothing(c: Cond, ts: Seq<TokenKind>, dir: Dir, o: int)
    ensures
        Cond::Peek(Box::new(c)).spec_scan_from(ts, dir, o).1 == o,
{
}

/// `Not` succeeds exactly when its condition fails there, and then consumes
/// one token; where its condition matches it fails without moving.
pub proof fn law_not_consumes_one(c: Cond, ts: Seq<TokenKind>, dir: Dir, o: int)
    ensures
        ({
            let r = Cond::Not(Box::new(c)).spec_scan_from(ts, dir, o);
            let inner = match_spec(c, ts, o, dir, (budget(ts.len()) - 1) as nat);
            &&& r.0 == !inner.0
            &&& r.0 ==> r.1 == dir.spec_step(o, ts.len() as int)
            &&& !r.0 ==> r.1 == o
        }),
{
}

/// `Until` stops at the first place its condition matches without consuming
/// it: where the condition matches at the start, `Until` matches there and
/// does not move.
pub proof fn law_until_stops_at_match(c: Cond, ts: Seq<TokenKind>, dir: Dir, o: int)
    requires
        match_spec(c, ts, o, dir, (budget(ts.len()) - 1) as nat).0,
    ensures
        Cond::Until(Box::new(c)).spec_scan_from(ts, dir, o) == (true, o),
{
    let f = budget(ts.len());
    assert(f > 0);
    let r = until_spec(c, ts, o, dir, (f - 1) as nat);
    assert(r == (true, o, match_spec(c, ts, o, dir, (f - 1) as nat).2));
    assert(match_spec(Cond::Until(Box::new(c)), ts, o, dir, f) == r);
}

/// A sequence of no conditions matches and consumes nothing; a choice among
/// no conditions never matches.
pub proof fn law_empty_sequence_and_choice(v: Vec<Cond>, ts: Seq<TokenKind>, dir: Dir, o: int)
    requires
        v@.len() == 0,
    ensures
        Cond::Sequence(v).spec_scan_from(ts, dir, o) == (true, o),
        Cond::Any(v).spec_scan_from(ts, dir, o) == (false, o),
{
    let f = budget(ts.len());
    assert(f > 0);
    let f1 = (f - 1) as nat;
    assert(seq_spec(v@, ts, o, dir, f1, 0) == (true, o, f1));
    assert(match_spec(Cond::Sequence(v), ts, o, dir, f) == seq_spec(v@, ts, o, dir, f1, 0));
    assert(any_spec(v@, ts, o, dir, f1, 0, None) == (false, o, f1));
    assert(match_spec(Cond::Any(v), ts, o, dir, f) == any_spec(v@, ts, o, dir, f1, 0, None));
}

} // verus!

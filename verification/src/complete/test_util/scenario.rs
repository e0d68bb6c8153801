//! Expectations on a list of completions.
use vstd::prelude::*;

use crate::complete::types::{Completion, CompletionKind};
use crate::text::str_eq;

verus! {

/// A test on one completion.
#[derive(Debug)]
pub enum CompletionMatcher {
    Label(String),
    InsertText(String),
    Kind(CompletionKind),
    AllOf(Vec<CompletionMatcher>),
}

/// Whether the completion passes the matcher.
pub open spec fn matcher_holds(m: CompletionMatcher, c: Completion) -> bool
    decreases m, 0int,
{
    match m {
        CompletionMatcher::Label(l) => l@ == c.label@,
        CompletionMatcher::InsertText(t) => t@ == c.insert_text@,
        CompletionMatcher::Kind(k) => k == c.kind,
        CompletionMatcher::AllOf(v) => all_hold(v@, c),
    }
}

/// Whether the completion passes every matcher of the list.
pub open spec fn all_hold(ms: Seq<CompletionMatcher>, c: Completion) -> bool
    decreases ms, 0int,
{
    if ms.len() == 0 {
        true
    } else {
        matcher_holds(ms[0], c) && all_hold(ms.drop_first(), c)
    }
}

/// A completion passes every matcher of a list exactly when it passes each.
pub proof fn lemma_all_hold(ms: Seq<CompletionMatcher>, c: Completion)
    ensures
        all_hold(ms, c) == forall|j: int| 0 <= j < ms.len() ==> #[trigger] matcher_holds(ms[j], c),
    decreases ms.len(),
{
    if ms.len() > 0 {
        lemma_all_hold(ms.drop_first(), c);
        if all_hold(ms, c) {
            assert forall|j: int| 0 <= j < ms.len() implies #[trigger] matcher_holds(ms[j], c) by {
                if j > 0 {
                    assert(ms[j] == ms.drop_first()[j - 1]);
                }
            }
        }
        if forall|j: int| 0 <= j < ms.len() ==> #[trigger] matcher_holds(ms[j], c) {
            assert(matcher_holds(ms[0], c));
            assert forall|j: int| 0 <= j < ms.drop_first().len() implies #[trigger] matcher_holds(
                ms.drop_first()[j],
                c,
            ) by {
                assert(ms.drop_first()[j] == ms[j + 1]);
            }
        }
    }
}

/// Whether every completion passes the two matchers alike.
pub open spec fn same_matcher(a: CompletionMatcher, b: CompletionMatcher) -> bool {
    forall|c: Completion| #[trigger] matcher_holds(a, c) == matcher_holds(b, c)
}

impl CompletionMatcher {
    /// A copy of the matcher, passed by exactly the completions that pass
    /// this one.
    pub fn duplicate(&self) -> (res: Self)
        ensures
            same_matcher(res, *self),
        decreases self,
    {
        match self {
            CompletionMatcher::Label(label) => CompletionMatcher::Label(label.clone()),
            CompletionMatcher::InsertText(text) => CompletionMatcher::InsertText(text.clone()),
            CompletionMatcher::Kind(kind) => CompletionMatcher::Kind(*kind),
            CompletionMatcher::AllOf(matchers) => {
                let mut out: Vec<CompletionMatcher> = Vec::new();
                let mut i: usize = 0;
                while i < matchers.len()
                    invariant
                        *self == CompletionMatcher::AllOf(*matchers),
                        i <= matchers@.len(),
                        out@.len() == i,
                        forall|j: int| 0 <= j < i ==> same_matcher(#[trigger] out@[j], matchers@[j]),
                    decreases matchers.len() - i,
                {
                    proof {
                        assert(decreases_to!(*self => self->AllOf_0));
                        assert(decreases_to!(self->AllOf_0 => self->AllOf_0@));
                        assert(decreases_to!(self->AllOf_0@ => matchers@[i as int]));
                    }
                    let d = matchers[i].duplicate();
                    out.push(d);
                    i += 1;
                }
                proof {
                    assert forall|c: Completion| #[trigger]
                        matcher_holds(CompletionMatcher::AllOf(out), c) == matcher_holds(*self, c) by {
                        lemma_all_hold(out@, c);
                        lemma_all_hold(matchers@, c);
                        assert forall|j: int| 0 <= j < out@.len() implies #[trigger] matcher_holds(out@[j], c)
                            == matcher_holds(matchers@[j], c) by {
                            assert(same_matcher(out@[j], matchers@[j]));
                        }
                        if all_hold(matchers@, c) {
                            assert forall|j: int| 0 <= j < out@.len() implies #[trigger] matcher_holds(out@[j], c) by {
                                assert(matcher_holds(matchers@[j], c));
                            }
                        }
                        if all_hold(out@, c) {
                            assert forall|j: int| 0 <= j < matchers@.len() implies #[trigger] matcher_holds(matchers@[j], c) by {
                                assert(matcher_holds(out@[j], c));
                            }
                        }
                    }
                }
                CompletionMatcher::AllOf(out)
            },
        }
    }

    /// Whether the completion passes this matcher.
    pub fn matches(&self, completion: &Completion) -> (res: bool)
        ensures
            res == matcher_holds(*self, *completion),
        decreases self,
    {
        match self {
            CompletionMatcher::Label(label) => str_eq(label.as_str(), completion.label.as_str()),
            CompletionMatcher::InsertText(text) => str_eq(text.as_str(), completion.insert_text.as_str()),
            CompletionMatcher::Kind(kind) => *kind == completion.kind,
            CompletionMatcher::AllOf(matchers) => {
                let mut i: usize = 0;
                while i < matchers.len()
                    invariant
                        *self == CompletionMatcher::AllOf(*matchers),
                        i <= matchers@.len(),
                        forall|j: int| 0 <= j < i ==> matcher_holds(#[trigger] matchers@[j], *completion),
                    decreases matchers.len() - i,
                {
                    proof {
                        assert(decreases_to!(*self => self->AllOf_0));
                        assert(decreases_to!(self->AllOf_0 => self->AllOf_0@));
                        assert(decreases_to!(self->AllOf_0@ => matchers@[i as int]));
                    }
                    if !matchers[i].matches(completion) {
                        proof {
                            lemma_all_hold(matchers@, *completion);
                        }
                        return false;
                    }
                    i += 1;
                }
                proof {
                    lemma_all_hold(matchers@, *completion);
                }
                true
            },
        }
    }
}

/// An expectation on a list of completions.
#[derive(Debug)]
pub enum Assert {
    Starts(Vec<CompletionMatcher>),
    Contains(Vec<CompletionMatcher>),
    InOrder(Vec<CompletionMatcher>),
    NoneOf(Vec<CompletionMatcher>),
    Combined(Vec<Assert>),
}

/// Whether some completion passes the matcher.
pub open spec fn some_match(m: CompletionMatcher, cs: Seq<Completion>) -> bool {
    exists|j: int| 0 <= j < cs.len() && #[trigger] matcher_holds(m, cs[j])
}

/// The index of the first completion from `k` on that passes the matcher.
pub open spec fn first_match_from(m: CompletionMatcher, cs: Seq<Completion>, k: int) -> Option<int>
    decreases cs.len() - k,
{
    if k < 0 || k >= cs.len() {
        None
    } else if matcher_holds(m, cs[k]) {
        Some(k)
    } else {
        first_match_from(m, cs, k + 1)
    }
}

/// The index of the first completion that passes the matcher.
pub open spec fn first_match(m: CompletionMatcher, cs: Seq<Completion>) -> Option<int> {
    first_match_from(m, cs, 0)
}

/// The first match from `k` on is a completion that passes the matcher.
pub proof fn lemma_first_match_from(m: CompletionMatcher, cs: Seq<Completion>, k: int)
    ensures
        first_match_from(m, cs, k) matches Some(j) ==> k <= j < cs.len() && matcher_holds(m, cs[j]),
    decreases cs.len() - k,
{
    if 0 <= k < cs.len() && !matcher_holds(m, cs[k]) {
        lemma_first_match_from(m, cs, k + 1);
    }
}

/// Completions that pass matchers in order contain a pass of each: an
/// `InOrder` expectation that holds makes the `Contains` expectation of the
/// same matchers hold.
pub proof fn law_in_order_implies_contains(v: Seq<CompletionMatcher>, cs: Seq<Completion>)
    requires
        in_order_hold(v, cs),
    ensures
        contains_hold(v, cs),
{
    assert forall|i: int| 0 <= i < v.len() implies #[trigger] some_match(v[i], cs) by {
        assert(first_match(v[i], cs) is Some);
        lemma_first_match_from(v[i], cs, 0);
        let j = first_match(v[i], cs)->0;
        assert(matcher_holds(v[i], cs[j]));
    }
}

/// The first completions pass the matchers one for one.
pub open spec fn starts_hold(v: Seq<CompletionMatcher>, cs: Seq<Completion>) -> bool {
    v.len() <= cs.len() && forall|i: int| 0 <= i < v.len() ==> #[trigger] matcher_holds(v[i], cs[i])
}

/// Each matcher is passed by some completion.
pub open spec fn contains_hold(v: Seq<CompletionMatcher>, cs: Seq<Completion>) -> bool {
    forall|i: int| 0 <= i < v.len() ==> #[trigger] some_match(v[i], cs)
}

/// Each matcher is passed by some completion, and the first such
/// completions come in the matchers' order (ties allowed).
pub open spec fn in_order_hold(v: Seq<CompletionMatcher>, cs: Seq<Completion>) -> bool {
    &&& forall|i: int| 0 <= i < v.len() ==> #[trigger] first_match(v[i], cs) is Some
    &&& forall|i: int|
        #![trigger first_match(v[i], cs)]
        0 < i < v.len() ==> first_match(v[i - 1], cs)->0 <= first_match(v[i], cs)->0
}

/// No completion passes any of the matchers.
pub open spec fn none_hold(v: Seq<CompletionMatcher>, cs: Seq<Completion>) -> bool {
    forall|i: int| 0 <= i < v.len() ==> !#[trigger] some_match(v[i], cs)
}

/// Whether the completions meet the expectation.
pub open spec fn assert_holds(a: Assert, cs: Seq<Completion>) -> bool
    decreases a, 0int,
{
    match a {
        Assert::Starts(v) => starts_hold(v@, cs),
        Assert::Contains(v) => contains_hold(v@, cs),
        Assert::InOrder(v) => in_order_hold(v@, cs),
        Assert::NoneOf(v) => none_hold(v@, cs),
        Assert::Combined(v) => all_asserts(v@, cs),
    }
}

/// Whether the completions meet every expectation of the list.
pub open spec fn all_asserts(v: Seq<Assert>, cs: Seq<Completion>) -> bool
    decreases v, 0int,
{
    if v.len() == 0 {
        true
    } else {
        assert_holds(v[0], cs) && all_asserts(v.drop_first(), cs)
    }
}

/// The completions meet every expectation of a list exactly when they meet
/// each.
pub proof fn lemma_all_asserts(v: Seq<Assert>, cs: Seq<Completion>)
    ensures
        all_asserts(v, cs) == forall|j: int| 0 <= j < v.len() ==> #[trigger] assert_holds(v[j], cs),
    decreases v.len(),
{
    if v.len() > 0 {
        lemma_all_asserts(v.drop_first(), cs);
        if all_asserts(v, cs) {
            assert forall|j: int| 0 <= j < v.len() implies #[trigger] assert_holds(v[j], cs) by {
                if j > 0 {
                    assert(v[j] == v.drop_first()[j - 1]);
                }
            }
        }
        if forall|j: int| 0 <= j < v.len() ==> #[trigger] assert_holds(v[j], cs) {
            assert(assert_holds(v[0], cs));
            assert forall|j: int| 0 <= j < v.drop_first().len() implies #[trigger] assert_holds(
                v.drop_first()[j],
                cs,
            ) by {
                assert(v.drop_first()[j] == v[j + 1]);
            }
        }
    }
}

/// The index of the first completion that passes the matcher.
pub(crate) fn position(m: &CompletionMatcher, completions: &[Completion]) -> (res: Option<usize>)
    ensures
        res is None <==> first_match(*m, completions@) is None,
        res matches Some(k) ==> first_match(*m, completions@) == Some(k as int) && k < completions@.len()
            && matcher_holds(*m, completions@[k as int]),
        res is None ==> !some_match(*m, completions@),
{
    let mut k: usize = 0;
    while k < completions.len()
        invariant
            k <= completions@.len(),
            first_match(*m, completions@) == first_match_from(*m, completions@, k as int),
            forall|j: int| 0 <= j < k ==> !#[trigger] matcher_holds(*m, completions@[j]),
        decreases completions.len() - k,
    {
        if m.matches(&completions[k]) {
            return Some(k);
        }
        k += 1;
    }
    None
}

/// Whether some completion passes the matcher.
pub(crate) fn any_matches(m: &CompletionMatcher, completions: &[Completion]) -> (res: bool)
    ensures
        res == some_match(*m, completions@),
{
    let mut k: usize = 0;
    while k < completions.len()
        invariant
            k <= completions@.len(),
            forall|j: int| 0 <= j < k ==> !#[trigger] matcher_holds(*m, completions@[j]),
        decreases completions.len() - k,
    {
        if m.matches(&completions[k]) {
            assert(matcher_holds(*m, completions@[k as int]));
            return true;
        }
        k += 1;
    }
    false
}

fn check_starts(matchers: &Vec<CompletionMatcher>, cs: &[Completion]) -> (res: bool)
    ensures
        res == starts_hold(matchers@, cs@),
{
    let mut i: usize = 0;
    while i < matchers.len()
        invariant
            i <= matchers@.len(),
            i <= cs@.len(),
            forall|j: int| 0 <= j < i ==> #[trigger] matcher_holds(matchers@[j], cs@[j]),
        decreases matchers.len() - i,
    {
        if i >= cs.len() {
            return false;
        }
        if !matchers[i].matches(&cs[i]) {
            return false;
        }
        i += 1;
    }
    true
}

pub(crate) fn check_contains(matchers: &Vec<CompletionMatcher>, cs: &[Completion]) -> (res: bool)
    ensures
        res == contains_hold(matchers@, cs@),
{
    let mut i: usize = 0;
    while i < matchers.len()
        invariant
            i <= matchers@.len(),
            forall|k: int| 0 <= k < i ==> #[trigger] some_match(matchers@[k], cs@),
        decreases matchers.len() - i,
    {
        if !any_matches(&matchers[i], cs) {
            return false;
        }
        i += 1;
    }
    true
}

pub(crate) fn check_in_order(matchers: &Vec<CompletionMatcher>, cs: &[Completion]) -> (res: bool)
    ensures
        res == in_order_hold(matchers@, cs@),
{
    let mut previous: usize = 0;
    let mut i: usize = 0;
    while i < matchers.len()
        invariant
            i <= matchers@.len(),
            forall|k: int| 0 <= k < i ==> #[trigger] first_match(matchers@[k], cs@) is Some,
            forall|k: int|
                #![trigger first_match(matchers@[k], cs@)]
                0 < k < i ==> first_match(matchers@[k - 1], cs@)->0 <= first_match(matchers@[k], cs@)->0,
            i > 0 ==> previous == first_match(matchers@[i - 1], cs@)->0,
        decreases matchers.len() - i,
    {
        let current = match position(&matchers[i], cs) {
            Some(k) => k,
            None => {
                assert(first_match(matchers@[i as int], cs@) is None);
                return false;
            },
        };
        if i > 0 && current < previous {
            assert(first_match(matchers@[i as int], cs@)->0 < first_match(matchers@[i - 1], cs@)->0);
            return false;
        }
        previous = current;
        i += 1;
    }
    true
}

pub(crate) fn check_none(matchers: &Vec<CompletionMatcher>, cs: &[Completion]) -> (res: bool)
    ensures
        res == none_hold(matchers@, cs@),
{
    let mut i: usize = 0;
    while i < matchers.len()
        invariant
            i <= matchers@.len(),
            forall|k: int| 0 <= k < i ==> !#[trigger] some_match(matchers@[k], cs@),
        decreases matchers.len() - i,
    {
        if any_matches(&matchers[i], cs) {
            return false;
        }
        i += 1;
    }
    true
}

impl Assert {
    /// Expect completions that each matcher is passed by.
    pub fn contains(matchers: Vec<CompletionMatcher>) -> (res: Self)
        ensures
            res == Assert::Contains(matchers),
    {
        Assert::Contains(matchers)
    }

    /// Expect the first completions to pass the matchers one for one.
    pub fn starts(matchers: Vec<CompletionMatcher>) -> (res: Self)
        ensures
            res == Assert::Starts(matchers),
    {
        Assert::Starts(matchers)
    }

    /// Expect the matchers to be passed in their order.
    pub fn in_order(matchers: Vec<CompletionMatcher>) -> (res: Self)
        ensures
            res == Assert::InOrder(matchers),
    {
        Assert::InOrder(matchers)
    }

    /// Expect no completion to pass any of the matchers.
    pub fn none_of(matchers: Vec<CompletionMatcher>) -> (res: Self)
        ensures
            res == Assert::NoneOf(matchers),
    {
        Assert::NoneOf(matchers)
    }

    /// Whether the completions meet this expectation.
    pub fn matches(&self, completions: &[Completion]) -> (res: bool)
        ensures
            res == assert_holds(*self, completions@),
        decreases self,
    {
        let cs = completions;
        match self {
            Assert::Starts(matchers) => check_starts(matchers, cs),
            Assert::Contains(matchers) => check_contains(matchers, cs),
            Assert::InOrder(matchers) => check_in_order(matchers, cs),
            Assert::NoneOf(matchers) => check_none(matchers, cs),
            Assert::Combined(assertions) => {
                let mut i: usize = 0;
                while i < assertions.len()
                    invariant
                        *self == Assert::Combined(*assertions),
                        cs@ == completions@,
                        i <= assertions@.len(),
                        forall|j: int| 0 <= j < i ==> #[trigger] assert_holds(assertions@[j], cs@),
                    decreases assertions.len() - i,
                {
                    proof {
                        assert(decreases_to!(*self => self->Combined_0));
                        assert(decreases_to!(self->Combined_0 => self->Combined_0@));
                        assert(decreases_to!(self->Combined_0@ => assertions@[i as int]));
                    }
                    if !assertions[i].matches(cs) {
                        proof {
                            lemma_all_asserts(assertions@, cs@);
                            assert(!assert_holds(assertions@[i as int], cs@));
                            assert(!all_asserts(assertions@, cs@));
                        }
                        return false;
                    }
                    i += 1;
                }
                proof {
                    lemma_all_asserts(assertions@, cs@);
                }
                true
            },
        }
    }
}

} // verus!

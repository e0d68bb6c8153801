//! Expectations on completions that report what failed.
use vstd::prelude::*;

use crate::complete::test_util::scenario::{
    any_matches, contains_hold, first_match, in_order_hold, matcher_holds, none_hold, position,
    same_matcher, some_match,
};
use crate::complete::types::Completion;

pub use crate::complete::test_util::scenario::CompletionMatcher;

verus! {

/// An expectation on a list of completions.
#[derive(Debug)]
pub enum CompletionAssertion {
    Contains(Vec<CompletionMatcher>),
    InOrder(Vec<CompletionMatcher>),
    NoneOf(Vec<CompletionMatcher>),
    Combined(Vec<CompletionAssertion>),
}

/// Why an expectation was not met.
#[derive(Debug)]
pub enum TestFailure {
    MissingExpected(CompletionMatcher),
    UnexpectedCompletion(Completion),
    IncorrectOrder(Completion, Completion),
}

/// Whether the completions meet the expectation: each matcher is passed by
/// some completion (`Contains`); each is, and the first such completions come
/// in the matchers' order (`InOrder`); none is (`NoneOf`); every expectation
/// is met (`Combined`).
pub open spec fn assertion_holds(a: CompletionAssertion, cs: Seq<Completion>) -> bool
    decreases a, 0int,
{
    match a {
        CompletionAssertion::Contains(v) => contains_hold(v@, cs),
        CompletionAssertion::InOrder(v) => in_order_hold(v@, cs),
        CompletionAssertion::NoneOf(v) => none_hold(v@, cs),
        CompletionAssertion::Combined(v) => all_assertions(v@, cs),
    }
}

/// Whether the completions meet every expectation of the list.
pub open spec fn all_assertions(v: Seq<CompletionAssertion>, cs: Seq<Completion>) -> bool
    decreases v, 0int,
{
    if v.len() == 0 {
        true
    } else {
        assertion_holds(v[0], cs) && all_assertions(v.drop_first(), cs)
    }
}

/// The completions meet every expectation of a list exactly when they meet
/// each.
pub proof fn lemma_all_assertions(v: Seq<CompletionAssertion>, cs: Seq<Completion>)
    ensures
        all_assertions(v, cs) == forall|j: int| 0 <= j < v.len() ==> #[trigger] assertion_holds(v[j], cs),
    decreases v.len(),
{
    if v.len() > 0 {
        lemma_all_assertions(v.drop_first(), cs);
        if all_assertions(v, cs) {
            assert forall|j: int| 0 <= j < v.len() implies #[trigger] assertion_holds(v[j], cs) by {
                if j > 0 {
                    assert(v[j] == v.drop_first()[j - 1]);
                }
            }
        }
        if forall|j: int| 0 <= j < v.len() ==> #[trigger] assertion_holds(v[j], cs) {
            assert(assertion_holds(v[0], cs));
            assert forall|j: int| 0 <= j < v.drop_first().len() implies #[trigger] assertion_holds(
                v.drop_first()[j],
                cs,
            ) by {
                assert(v.drop_first()[j] == v[j + 1]);
            }
        }
    }
}

impl TestFailure {
    /// A failure for a matcher that no completion passed.
    pub fn missing_expected(matcher: &CompletionMatcher) -> (res: Self)
        ensures
            res matches TestFailure::MissingExpected(m) && same_matcher(m, *matcher),
    {
        TestFailure::MissingExpected(matcher.duplicate())
    }

    /// A failure for a completion that should not be there.
    pub fn unexpected_completion(completion: &Completion) -> (res: Self)
        ensures
            res == TestFailure::UnexpectedCompletion(*completion),
    {
        TestFailure::UnexpectedCompletion(completion.duplicate())
    }

    /// A failure for two completions in the wrong order.
    fn incorrect_order(before: &Completion, after: &Completion) -> (res: Self)
        ensures
            res == TestFailure::IncorrectOrder(*before, *after),
    {
        TestFailure::IncorrectOrder(before.duplicate(), after.duplicate())
    }
}

impl CompletionAssertion {
    /// Check the completions against this expectation: nothing where they
    /// meet it, else the failure found first.
    pub fn verify(&self, completions: &[Completion]) -> (res: Result<(), TestFailure>)
        ensures
            res is Ok <==> assertion_holds(*self, completions@),
        decreases self,
    {
        match self {
            CompletionAssertion::Contains(matchers) => {
                let mut i: usize = 0;
                while i < matchers.len()
                    invariant
                        *self == CompletionAssertion::Contains(*matchers),
                        i <= matchers@.len(),
                        forall|k: int| 0 <= k < i ==> #[trigger] some_match(matchers@[k], completions@),
                    decreases matchers.len() - i,
                {
                    if !any_matches(&matchers[i], completions) {
                        return Err(TestFailure::missing_expected(&matchers[i]));
                    }
                    i += 1;
                }
                Ok(())
            },
            CompletionAssertion::InOrder(matchers) => {
                let mut previous: usize = 0;
                let mut i: usize = 0;
                while i < matchers.len()
                    invariant
                        *self == CompletionAssertion::InOrder(*matchers),
                        i <= matchers@.len(),
                        forall|k: int| 0 <= k < i ==> #[trigger] first_match(matchers@[k], completions@) is Some,
                        forall|k: int|
                            #![trigger first_match(matchers@[k], completions@)]
                            0 < k < i ==> first_match(matchers@[k - 1], completions@)->0 <= first_match(
                                matchers@[k],
                                completions@,
                            )->0,
                        i > 0 ==> previous == first_match(matchers@[i - 1], completions@)->0,
                        i > 0 ==> previous < completions@.len(),
                    decreases matchers.len() - i,
                {
                    let current = match position(&matchers[i], completions) {
                        Some(k) => k,
                        None => {
                            assert(first_match(matchers@[i as int], completions@) is None);
                            return Err(TestFailure::missing_expected(&matchers[i]));
                        },
                    };
                    if i > 0 && current < previous {
                        assert(first_match(matchers@[i as int], completions@)->0 < first_match(
                            matchers@[i - 1],
                            completions@,
                        )->0);
                        return Err(TestFailure::incorrect_order(&completions[previous], &completions[current]));
                    }
                    previous = current;
                    i += 1;
                }
                Ok(())
            },
            CompletionAssertion::NoneOf(matchers) => {
                let mut i: usize = 0;
                while i < matchers.len()
                    invariant
                        *self == CompletionAssertion::NoneOf(*matchers),
                        i <= matchers@.len(),
                        forall|k: int| 0 <= k < i ==> !#[trigger] some_match(matchers@[k], completions@),
                    decreases matchers.len() - i,
                {
                    if let Some(k) = position(&matchers[i], completions) {
                        assert(matcher_holds(matchers@[i as int], completions@[k as int]));
                        assert(some_match(matchers@[i as int], completions@));
                        return Err(TestFailure::unexpected_completion(&completions[k]));
                    }
                    i += 1;
                }
                Ok(())
            },
            CompletionAssertion::Combined(assertions) => {
                let mut i: usize = 0;
                while i < assertions.len()
                    invariant
                        *self == CompletionAssertion::Combined(*assertions),
                        i <= assertions@.len(),
                        forall|j: int| 0 <= j < i ==> #[trigger] assertion_holds(assertions@[j], completions@),
                    decreases assertions.len() - i,
                {
                    proof {
                        assert(decreases_to!(*self => self->Combined_0));
                        assert(decreases_to!(self->Combined_0 => self->Combined_0@));
                        assert(decreases_to!(self->Combined_0@ => assertions@[i as int]));
                    }
                    match assertions[i].verify(completions) {
                        Ok(()) => {},
                        Err(e) => {
                            proof {
                                lemma_all_assertions(assertions@, completions@);
                                assert(!assertion_holds(assertions@[i as int], completions@));
                            }
                            return Err(e);
                        },
                    }
                    i += 1;
                }
                proof {
                    lemma_all_assertions(assertions@, completions@);
                }
                Ok(())
            },
        }
    }
}

} // verus!

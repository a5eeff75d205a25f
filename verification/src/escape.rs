//! The escape-time search: how many steps an orbit takes before its
//! magnitude exceeds the bound, capped by an iteration budget.
//!
//! The orbit itself is computed by the caller. This module sees it only
//! through the answers to one question per step, "does the magnitude exceed
//! the bound now?", and decides when the search is over and with which count.

use vstd::prelude::*;

verus! {

/// The first step at or after `from` at which the orbit exceeds the bound,
/// or `max_iters` if it does not exceed it before step `max_iters`.
pub open spec fn first_exceeding(exceeded: spec_fn(nat) -> bool, from: nat, max_iters: nat) -> nat
    decreases max_iters - from,
{
    if from >= max_iters {
        max_iters
    } else if exceeded(from) {
        from
    } else {
        first_exceeding(exceeded, from + 1, max_iters)
    }
}

/// The escape count of an orbit under a budget of `max_iters` steps, where
/// `exceeded(i)` says whether the orbit's magnitude exceeds the bound at
/// step `i`.
pub open spec fn escape_count(exceeded: spec_fn(nat) -> bool, max_iters: nat) -> nat {
    first_exceeding(exceeded, 0, max_iters)
}

/// What it means for `count` to be the escape count: it is within the
/// budget, the orbit stays within the bound at every earlier step, and
/// unless the budget is used up the orbit exceeds the bound at `count`.
pub open spec fn is_escape_count(exceeded: spec_fn(nat) -> bool, max_iters: nat, count: nat) -> bool {
    &&& count <= max_iters
    &&& forall|j: nat| j < count ==> !#[trigger] exceeded(j)
    &&& count < max_iters ==> exceeded(count)
}

proof fn lemma_first_exceeding(exceeded: spec_fn(nat) -> bool, from: nat, max_iters: nat)
    requires
        from <= max_iters,
    ensures
        from <= first_exceeding(exceeded, from, max_iters) <= max_iters,
        forall|j: nat| from <= j < first_exceeding(exceeded, from, max_iters) ==> !#[trigger] exceeded(j),
        first_exceeding(exceeded, from, max_iters) < max_iters ==> exceeded(
            first_exceeding(exceeded, from, max_iters),
        ),
    decreases max_iters - from,
{
    if from < max_iters && !exceeded(from) {
        lemma_first_exceeding(exceeded, from + 1, max_iters);
    }
}

/// The escape count is the one number that `is_escape_count` describes.
pub proof fn lemma_escape_count_characterised(
    exceeded: spec_fn(nat) -> bool,
    max_iters: nat,
    count: nat,
)
    ensures
        is_escape_count(exceeded, max_iters, escape_count(exceeded, max_iters)),
        is_escape_count(exceeded, max_iters, count) ==> count == escape_count(exceeded, max_iters),
{
    lemma_first_exceeding(exceeded, 0, max_iters);
    let n = escape_count(exceeded, max_iters);
    if is_escape_count(exceeded, max_iters, count) {
        if count < n {
            assert(!exceeded(count));
        } else if n < count {
            assert(!exceeded(n));
        }
    }
}

/// A larger budget never gives a smaller escape count: an orbit that
/// escaped within the old budget still escapes at the same step.
pub proof fn lemma_escape_count_monotone(
    exceeded: spec_fn(nat) -> bool,
    max_iters: nat,
    larger: nat,
)
    requires
        max_iters <= larger,
    ensures
        escape_count(exceeded, max_iters) <= escape_count(exceeded, larger),
        escape_count(exceeded, max_iters) < max_iters ==> escape_count(exceeded, larger)
            == escape_count(exceeded, max_iters),
{
    let n = escape_count(exceeded, max_iters);
    let m = escape_count(exceeded, larger);
    lemma_escape_count_characterised(exceeded, max_iters, n);
    lemma_escape_count_characterised(exceeded, larger, m);
    if m < n {
        assert(!exceeded(m));
    }
    if n < max_iters && n < m {
        assert(!exceeded(n));
    }
}

/// An orbit that stays within the bound at every step before the budget
/// runs out has the budget itself as its escape count.
pub proof fn lemma_bounded_orbit_uses_budget(exceeded: spec_fn(nat) -> bool, max_iters: nat)
    requires
        forall|j: nat| j < max_iters ==> !#[trigger] exceeded(j),
    ensures
        escape_count(exceeded, max_iters) == max_iters,
{
    lemma_escape_count_characterised(exceeded, max_iters, max_iters);
}

/// An orbit that exceeds the bound at `step` and at no earlier step has
/// `step` as its escape count under every budget of at least `step`.
pub proof fn lemma_escaping_orbit_stops(exceeded: spec_fn(nat) -> bool, max_iters: nat, step: nat)
    requires
        step <= max_iters,
        exceeded(step),
        forall|j: nat| j < step ==> !#[trigger] exceeded(j),
    ensures
        escape_count(exceeded, max_iters) == step,
{
    lemma_escape_count_characterised(exceeded, max_iters, step);
}

/// The state of one escape-time search: the budget and the step that the
/// orbit has reached.
pub struct EscapeSearch {
    max_iters: usize,
    step: usize,
}

/// What a search decides after one magnitude test.
pub enum Verdict {
    /// The search is over, with this escape count.
    Finished(usize),
    /// The orbit must be advanced by one step and tested again.
    Continue(EscapeSearch),
}

impl EscapeSearch {
    /// The iteration budget of the search.
    pub closed spec fn max_iters(self) -> nat {
        self.max_iters as nat
    }

    /// The step whose magnitude test the search waits for.
    pub closed spec fn step(self) -> nat {
        self.step as nat
    }

    #[verifier::type_invariant]
    closed spec fn within_budget(self) -> bool {
        self.step <= self.max_iters
    }

    /// The search agrees with an orbit: the orbit stayed within the bound
    /// at every step that the search has passed.
    pub open spec fn tracks(self, exceeded: spec_fn(nat) -> bool) -> bool {
        &&& self.step() <= self.max_iters()
        &&& forall|j: nat| j < self.step() ==> !#[trigger] exceeded(j)
    }

    /// The verdict that the search gives on the answer of the magnitude
    /// test at its step: finished with the step if the bound is exceeded,
    /// finished with the budget if the budget is used up, and otherwise on
    /// to the next step under the same budget.
    pub open spec fn decides(self, exceeded: bool, verdict: Verdict) -> bool {
        match verdict {
            Verdict::Finished(count) => {
                &&& exceeded || self.step() == self.max_iters()
                &&& count == if exceeded {
                    self.step()
                } else {
                    self.max_iters()
                }
            },
            Verdict::Continue(next) => {
                &&& !exceeded
                &&& self.step() < self.max_iters()
                &&& next.step() == self.step() + 1
                &&& next.max_iters() == self.max_iters()
            },
        }
    }

    /// Starts a search at step 0, where the orbit is at the origin.
    pub fn new(max_iters: usize) -> (search: Self)
        ensures
            search.max_iters() == max_iters,
            search.step() == 0,
    {
        EscapeSearch { max_iters, step: 0 }
    }

    /// Takes the answer of the magnitude test at the current step.
    ///
    /// The search finishes with the current step as soon as the bound is
    /// exceeded, and with the budget when the budget is used up; otherwise
    /// it moves on to the next step.
    pub fn observe(self, exceeded: bool) -> (verdict: Verdict)
        ensures
            self.step() <= self.max_iters(),
            self.decides(exceeded, verdict),
    {
        proof {
            use_type_invariant(&self);
        }
        if exceeded {
            Verdict::Finished(self.step)
        } else if self.step >= self.max_iters {
            Verdict::Finished(self.max_iters)
        } else {
            Verdict::Continue(EscapeSearch { max_iters: self.max_iters, step: self.step + 1 })
        }
    }
}

/// One magnitude test carries a search along its orbit: if the search
/// agrees with the orbit and is given the orbit's answer at its step, a
/// finished search holds the orbit's escape count, and a continuing one
/// agrees with the orbit at the next step.
pub proof fn lemma_observe_follows_orbit(
    search: EscapeSearch,
    exceeded: spec_fn(nat) -> bool,
    verdict: Verdict,
)
    requires
        search.tracks(exceeded),
        search.decides(exceeded(search.step()), verdict),
    ensures
        match verdict {
            Verdict::Finished(count) => count == escape_count(exceeded, search.max_iters()),
            Verdict::Continue(next) => next.tracks(exceeded),
        },
{
    match verdict {
        Verdict::Finished(count) => {
            lemma_escape_count_characterised(exceeded, search.max_iters(), count as nat);
        },
        Verdict::Continue(next) => {
            assert forall|j: nat| j < next.step() implies !#[trigger] exceeded(j) by {
                if j < search.step() {
                } else {
                    assert(j == search.step());
                }
            }
        },
    }
}

} // verus!

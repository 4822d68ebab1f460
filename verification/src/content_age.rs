//! The staleness marker of a layer's content.

use vstd::prelude::*;
use std::cmp::Ordering;
use vstd::std_specs::cmp::PartialOrdSpecImpl;

verus! {

/// A counter that tells one generation of a layer's content from the next.
///
/// It starts at zero and moves forward by one with every invalidation. Two
/// ages are only ever compared: equal means "painted for this content",
/// smaller means "painted for content that has since changed".
#[derive(Clone, Copy, Debug, PartialEq, Eq, Structural)]
pub struct ContentAge {
    age: usize,
}

impl View for ContentAge {
    type V = nat;

    closed spec fn view(&self) -> nat {
        self.age as nat
    }
}

impl ContentAge {
    /// The age of content that has never been invalidated.
    pub fn new() -> (fresh: ContentAge)
        ensures
            fresh@ == 0,
    {
        ContentAge { age: 0 }
    }

    /// Whether the counter can still move forward on this machine.
    pub open spec fn can_advance(&self) -> bool {
        self@ < usize::MAX
    }

    /// Tells whether `next` may be called.
    pub fn has_next(&self) -> (yes: bool)
        ensures
            yes == self.can_advance(),
    {
        self.age < usize::MAX
    }

    /// What one invalidation does to an age: it grows by exactly one.
    pub open spec fn steps_to(&self, after: ContentAge) -> bool {
        after@ == self@ + 1
    }

    /// Whether a tile painted at this age is out of date for content that
    /// is now at `current`.
    pub open spec fn is_stale_at(&self, current: ContentAge) -> bool {
        self@ < current@
    }

    /// Moves to the next generation.
    pub fn next(&mut self)
        requires
            old(self).can_advance(),
        ensures
            old(self).steps_to(*final(self)),
    {
        self.age = self.age + 1;
    }

    /// Two ages are the same value exactly when they count the same number
    /// of invalidations.
    pub proof fn lemma_equal_iff_same_count(a: ContentAge, b: ContentAge)
        ensures
            a == b <==> a@ == b@,
    {
    }

    /// A run of invalidations: `run[0]` is the age at the start and every
    /// later entry is the age left by one more call of `next`. After `n`
    /// calls the age is the first one plus `n`, and no entry is smaller than
    /// an earlier one, so the counter never goes back or starts over.
    pub proof fn lemma_run_of_invalidations(run: Seq<ContentAge>, n: int)
        requires
            0 <= n < run.len(),
            forall|i: int| 0 <= i < run.len() - 1 ==> (#[trigger] run[i]).steps_to(run[i + 1]),
        ensures
            run[n]@ == run[0]@ + n,
            forall|i: int, j: int| 0 <= i <= j <= n ==> run[i]@ <= run[j]@,
        decreases n,
    {
        if n > 0 {
            Self::lemma_run_of_invalidations(run, n - 1);
            assert(run[n - 1].steps_to(run[n]));
            assert forall|i: int, j: int| 0 <= i <= j <= n implies run[i]@ <= run[j]@ by {
                if j == n && i < n {
                    assert(run[i]@ <= run[n - 1]@);
                }
            }
        }
    }
}

impl PartialOrd for ContentAge {
    fn partial_cmp(&self, other: &ContentAge) -> (order: Option<Ordering>) {
        if self.age < other.age {
            Some(Ordering::Less)
        } else if self.age == other.age {
            Some(Ordering::Equal)
        } else {
            Some(Ordering::Greater)
        }
    }
}

impl PartialOrdSpecImpl for ContentAge {
    open spec fn obeys_partial_cmp_spec() -> bool {
        true
    }

    open spec fn partial_cmp_spec(&self, other: &ContentAge) -> Option<Ordering> {
        if self@ < other@ {
            Some(Ordering::Less)
        } else if self@ == other@ {
            Some(Ordering::Equal)
        } else {
            Some(Ordering::Greater)
        }
    }
}

} // verus!

//! The ordered-fallback walk over a route's entries.
use vstd::prelude::*;
use crate::route::{EntryModel, RouteEntry, first_supported, lemma_first_supported, route_model};

verus! {

/// Why one route entry did not give a working path.
#[derive(Clone, Copy, Debug, PartialEq, Eq, Structural)]
pub enum Failure {
    /// The entry names an upstream kind that cannot be relayed through.
    Unsupported,
    /// The target or upstream could not be reached.
    Unreachable,
    /// The upstream answered the nested CONNECT with a non-success status.
    Refused,
}

/// What the walk asks for next.
#[derive(Clone, Copy, Debug, PartialEq, Eq, Structural)]
pub enum Attempt {
    /// Try the entry at this index.
    Try(usize),
    /// Every entry failed, or the route was empty: no route was found.
    Exhausted,
}

/// Walks a route left to right. Every entry before `cursor` has failed, and
/// `failures[i]` records why entry `i` did.
pub struct Fallback {
    route: Vec<RouteEntry>,
    cursor: usize,
    failures: Vec<Failure>,
}

/// The failures recorded for `n` skipped entries of an unsupported kind.
pub open spec fn unsupported_run(n: nat) -> Seq<Failure> {
    Seq::new(n, |_i: int| Failure::Unsupported)
}

impl Fallback {
    pub closed spec fn route(&self) -> Seq<EntryModel> {
        route_model(self.route@)
    }

    pub closed spec fn cursor(&self) -> int {
        self.cursor as int
    }

    pub closed spec fn failures(&self) -> Seq<Failure> {
        self.failures@
    }

    pub open spec fn wf(&self) -> bool {
        &&& self.failures().len() == self.cursor()
        &&& 0 <= self.cursor() <= self.route().len()
        &&& forall|i: int|
            0 <= i < self.cursor() ==> ((self.failures()[i] == Failure::Unsupported)
                <==> !(#[trigger] self.route()[i]).is_supported())
    }

    /// The attempt that `next` makes from a state.
    pub open spec fn next_attempt(&self) -> Attempt {
        let k = first_supported(self.route(), self.cursor());
        if k < self.route().len() {
            Attempt::Try(k as usize)
        } else {
            Attempt::Exhausted
        }
    }

    /// Starts a walk over `route`; nothing has been tried yet.
    pub fn new(route: Vec<RouteEntry>) -> (r: Fallback)
        ensures
            r.wf(),
            r.route() == route_model(route@),
            r.cursor() == 0,
            r.failures() == Seq::<Failure>::empty(),
    {
        Fallback { route, cursor: 0, failures: Vec::new() }
    }

    pub fn len(&self) -> (r: usize)
        ensures
            r == self.route().len(),
    {
        self.route.len()
    }

    /// The entry at `i`.
    pub fn entry(&self, i: usize) -> (r: &RouteEntry)
        requires
            i < self.route().len(),
        ensures
            r@ == self.route()[i as int],
    {
        &self.route[i]
    }

    /// Why each entry tried so far failed, in route order.
    pub fn failures_so_far(&self) -> (r: &Vec<Failure>)
        ensures
            r@ == self.failures(),
    {
        &self.failures
    }

    /// Moves to the next entry that can be tried, recording every entry of an
    /// unsupported kind on the way as failed; reports exhaustion when none is
    /// left. An entry is never tried twice.
    pub fn next(&mut self) -> (r: Attempt)
        requires
            old(self).wf(),
        ensures
            final(self).wf(),
            r == old(self).next_attempt(),
            r matches Attempt::Try(k) ==> k == final(self).cursor() && k < final(self).route().len(),
            r is Exhausted ==> final(self).cursor() == final(self).route().len(),
            final(self).route() == old(self).route(),
            final(self).cursor() == first_supported(old(self).route(), old(self).cursor()),
            final(self).failures() == old(self).failures() + unsupported_run(
                (final(self).cursor() - old(self).cursor()) as nat,
            ),
    {
        proof {
            lemma_first_supported(self.route(), self.cursor());
        }
        let ghost start = self.cursor as int;
        let ghost before = self.failures@;
        while self.cursor < self.route.len() && !self.route[self.cursor].is_supported()
            invariant
                self.wf(),
                self.route() == old(self).route(),
                start == old(self).cursor(),
                before == old(self).failures(),
                start <= self.cursor(),
                first_supported(self.route(), self.cursor()) == first_supported(self.route(), start),
                self.failures() == before + unsupported_run((self.cursor() - start) as nat),
            decreases self.route().len() - self.cursor(),
        {
            proof {
                assert(self.route@[self.cursor as int]@ == self.route()[self.cursor as int]);
            }
            self.failures.push(Failure::Unsupported);
            self.cursor = self.cursor + 1;
            proof {
                assert(self.failures() =~= before + unsupported_run((self.cursor() - start) as nat));
            }
        }
        proof {
            if self.cursor < self.route.len() {
                assert(self.route@[self.cursor as int]@ == self.route()[self.cursor as int]);
            }
        }
        if self.cursor < self.route.len() {
            Attempt::Try(self.cursor)
        } else {
            Attempt::Exhausted
        }
    }

    /// Records that the entry being tried failed, and moves past it.
    pub fn fail(&mut self, why: Failure)
        requires
            old(self).wf(),
            old(self).cursor() < old(self).route().len(),
            old(self).route()[old(self).cursor()].is_supported(),
            why != Failure::Unsupported,
        ensures
            final(self).wf(),
            final(self).route() == old(self).route(),
            final(self).cursor() == old(self).cursor() + 1,
            final(self).failures() == old(self).failures().push(why),
    {
        let n = self.route.len();
        assert(self.cursor < n);
        self.failures.push(why);
        self.cursor = self.cursor + 1;
    }
}

} // verus!

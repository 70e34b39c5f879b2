//! A bounded, phased backoff schedule: a few quick retries first, longer
//! pauses later, a terminal delay repeated up to an overall attempt ceiling.

use vstd::prelude::*;

verus! {

/// The delay served for attempt `i` of a phase list: each phase serves its
/// delay for its attempt count, and attempts beyond every phase get the
/// default delay.
pub open spec fn delay_at(phases: Seq<(usize, u64)>, default_delay: u64, i: int) -> u64
    decreases phases.len(),
{
    if phases.len() == 0 {
        default_delay
    } else if i < phases[0].0 {
        phases[0].1
    } else {
        delay_at(phases.drop_first(), default_delay, i - phases[0].0)
    }
}

/// A lazily-consumed backoff schedule. `phases` are served front to back;
/// after them `default_delay` repeats; `limit` caps the total number of
/// attempts; `taken` counts the attempts already served.
#[derive(Debug)]
pub struct RetryInterval {
    pub phases: Vec<(usize, u64)>,
    pub default_delay: u64,
    pub limit: usize,
    pub taken: usize,
}

impl Clone for RetryInterval {
    /// A clone serves exactly the schedule the original still has.
    fn clone(&self) -> (r: Self)
        ensures
            r.phases@ == self.phases@,
            r.default_delay == self.default_delay,
            r.limit == self.limit,
            r.taken == self.taken,
    {
        let mut phases: Vec<(usize, u64)> = Vec::new();
        let mut i: usize = 0;
        while i < self.phases.len()
            invariant
                i <= self.phases@.len(),
                phases@ == self.phases@.take(i as int),
            decreases self.phases@.len() - i,
        {
            phases.push(self.phases[i]);
            proof {
                assert(self.phases@.take(i + 1 as int) =~= self.phases@.take(i as int).push(
                    self.phases@[i as int],
                ));
            }
            i = i + 1;
        }
        proof {
            assert(self.phases@.take(self.phases@.len() as int) =~= self.phases@);
        }
        RetryInterval {
            phases,
            default_delay: self.default_delay,
            limit: self.limit,
            taken: self.taken,
        }
    }
}

impl RetryInterval {
    /// A fresh schedule with no phases: `limit` attempts, all at
    /// `default_delay` milliseconds until phases are added.
    pub fn new(limit: usize, default_delay: u64) -> (r: Self)
        ensures
            r.phases@ == Seq::<(usize, u64)>::empty(),
            r.default_delay == default_delay,
            r.limit == limit,
            r.taken == 0,
    {
        RetryInterval { phases: Vec::new(), default_delay, limit, taken: 0 }
    }

    /// Appends a phase: `count` further attempts at `delay_ms` each, served
    /// after the phases already added.
    pub fn add_phase(self, count: usize, delay_ms: u64) -> (r: Self)
        ensures
            r.phases@ == self.phases@.push((count, delay_ms)),
            r.default_delay == self.default_delay,
            r.limit == self.limit,
            r.taken == self.taken,
    {
        let mut phases = self.phases;
        phases.push((count, delay_ms));
        RetryInterval {
            phases,
            default_delay: self.default_delay,
            limit: self.limit,
            taken: self.taken,
        }
    }

    /// The overall attempt ceiling; reading it consumes nothing.
    pub fn limit(&self) -> (r: usize)
        ensures
            r == self.limit,
    {
        self.limit
    }

    /// Serves the next delay, or nothing once `limit` attempts were served.
    pub fn next(&mut self) -> (r: Option<u64>)
        ensures
            old(self).taken < old(self).limit ==> r == Some(
                delay_at(old(self).phases@, old(self).default_delay, old(self).taken as int),
            ) && final(self).taken == old(self).taken + 1,
            old(self).taken >= old(self).limit ==> r is None && final(self).taken == old(
                self,
            ).taken,
            final(self).phases@ == old(self).phases@,
            final(self).default_delay == old(self).default_delay,
            final(self).limit == old(self).limit,
    {
        if self.taken >= self.limit {
            return None;
        }
        let mut i: usize = self.taken;
        let mut k: usize = 0;
        proof {
            assert(self.phases@.skip(0) =~= self.phases@);
        }
        while k < self.phases.len()
            invariant
                self.phases@ == old(self).phases@,
                self.default_delay == old(self).default_delay,
                self.limit == old(self).limit,
                self.taken == old(self).taken,
                old(self).taken < old(self).limit,
                k <= self.phases@.len(),
                delay_at(self.phases@.skip(k as int), self.default_delay, i as int) == delay_at(
                    old(self).phases@,
                    old(self).default_delay,
                    old(self).taken as int,
                ),
            decreases self.phases@.len() - k,
        {
            let (count, delay) = self.phases[k];
            proof {
                assert(self.phases@.skip(k as int)[0] == self.phases@[k as int]);
                assert(self.phases@.skip(k as int).drop_first() =~= self.phases@.skip(
                    k + 1 as int,
                ));
            }
            if i < count {
                self.taken = self.taken + 1;
                return Some(delay);
            }
            i = i - count;
            k = k + 1;
        }
        proof {
            assert(self.phases@.skip(self.phases@.len() as int) =~= Seq::<(usize, u64)>::empty());
        }
        self.taken = self.taken + 1;
        Some(self.default_delay)
    }
}

} // verus!

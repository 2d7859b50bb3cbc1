//! A bounded number of attempts with a fixed pause between them.

use vstd::prelude::*;

verus! {

/// The book-keeping of one operation that is tried up to `limit` times.
#[derive(Clone, Copy, Debug)]
pub struct Backoff {
    limit: u8,
    delay_ms: u64,
    failures: u8,
}

impl Backoff {
    /// How many attempts the operation is given.
    pub closed spec fn limit(&self) -> nat {
        self.limit as nat
    }

    /// The pause before an attempt that follows a failed one.
    pub closed spec fn delay_ms(&self) -> u64 {
        self.delay_ms
    }

    /// How many attempts have failed.
    pub closed spec fn failures(&self) -> nat {
        self.failures as nat
    }

    /// An operation that has not failed yet.
    pub fn new(limit: u8, delay_ms: u64) -> (backoff: Backoff)
        ensures
            backoff.limit() == limit,
            backoff.delay_ms() == delay_ms,
            backoff.failures() == 0,
    {
        Backoff { limit, delay_ms, failures: 0 }
    }

    /// Records a failed attempt. `Some` with the pause to keep where
    /// another attempt is due; `None`, and nothing recorded, where the
    /// attempts are used up.
    pub fn failed(&mut self) -> (pause: Option<u64>)
        ensures
            final(self).limit() == old(self).limit(),
            final(self).delay_ms() == old(self).delay_ms(),
            old(self).failures() + 1 < old(self).limit() ==> pause == Some(old(self).delay_ms())
                && final(self).failures() == old(self).failures() + 1,
            old(self).failures() + 1 >= old(self).limit() ==> pause.is_none()
                && final(self).failures() == old(self).failures(),
    {
        if self.limit == 0 || self.failures >= self.limit - 1 {
            None
        } else {
            self.failures = self.failures + 1;
            Some(self.delay_ms)
        }
    }

    /// The number of the attempt that is due or under way, counted from 1.
    pub fn attempt(&self) -> (number: u16)
        ensures
            number == self.failures() + 1,
    {
        let made: u16 = self.failures.into();
        made + 1
    }
}

} // verus!

//! Running totals of single requests.
use vstd::prelude::*;
use crate::network_stats::sat_add;

verus! {

/// Running totals of successful and failed requests.
pub struct Stats {
    requests: u64,
    errors: u64,
}

impl Stats {
    pub closed spec fn requests_spec(&self) -> nat {
        self.requests as nat
    }

    pub closed spec fn errors_spec(&self) -> nat {
        self.errors as nat
    }

    pub fn new() -> (r: Stats)
        ensures
            r.requests_spec() == 0,
            r.errors_spec() == 0,
    {
        Stats { requests: 0, errors: 0 }
    }

    pub fn requests(&self) -> (r: u64)
        ensures
            r == self.requests_spec(),
    {
        self.requests
    }

    pub fn errors(&self) -> (r: u64)
        ensures
            r == self.errors_spec(),
    {
        self.errors
    }

    /// Counts one successful request; the total stops at `u64::MAX`.
    pub fn inc_requests(&mut self)
        ensures
            final(self).requests_spec() == sat_add(old(self).requests_spec(), 1),
            final(self).errors_spec() == old(self).errors_spec(),
    {
        self.requests = self.requests.saturating_add(1);
    }

    /// Counts one failed request; the total stops at `u64::MAX`.
    pub fn inc_errors(&mut self)
        ensures
            final(self).errors_spec() == sat_add(old(self).errors_spec(), 1),
            final(self).requests_spec() == old(self).requests_spec(),
    {
        self.errors = self.errors.saturating_add(1);
    }
}

/// The counters of a `Stats` are `u64` values.
pub proof fn lemma_counters_fit(s: Stats)
    ensures
        s.requests_spec() <= u64::MAX,
        s.errors_spec() <= u64::MAX,
{
}

} // verus!

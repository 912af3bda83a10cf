//! An unbounded list of payloads, appended to one at a time.
use vstd::prelude::*;

verus! {

/// Payloads in the order they were pushed.
pub struct PayloadQueue {
    queue: Vec<Vec<u8>>,
}

impl PayloadQueue {
    pub closed spec fn payloads(&self) -> Seq<Vec<u8>> {
        self.queue@
    }

    pub fn new() -> (r: PayloadQueue)
        ensures
            r.payloads().len() == 0,
    {
        PayloadQueue { queue: Vec::new() }
    }

    /// Appends `payload` at the end.
    pub fn push_payload(&mut self, payload: Vec<u8>)
        ensures
            final(self).payloads() == old(self).payloads().push(payload),
    {
        self.queue.push(payload);
    }

    /// The number of payloads held.
    pub fn queue_len(&self) -> (r: usize)
        ensures
            r == self.payloads().len(),
    {
        self.queue.len()
    }
}

} // verus!

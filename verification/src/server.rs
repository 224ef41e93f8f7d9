//! The acceptor's count of connections.

use vstd::prelude::*;

verus! {

/// The number of a connection; the first one accepted is 1.
pub type ConnId = u64;

/// The numbers given out so far.
#[derive(Debug)]
pub struct ConnIds {
    last: ConnId,
}

impl View for ConnIds {
    type V = u64;

    closed spec fn view(&self) -> u64 {
        self.last
    }
}

impl ConnIds {
    /// No connection accepted yet.
    pub fn new() -> (c: ConnIds)
        ensures
            c@ == 0,
    {
        ConnIds { last: 0 }
    }

    /// The number of connections accepted so far.
    pub fn accepted(&self) -> (r: u64)
        ensures
            r == self@,
    {
        self.last
    }

    /// The number for the next accepted connection: one more than the last.
    /// `None` once the numbers are used up; nothing changes then.
    pub fn next_id(&mut self) -> (id: Option<ConnId>)
        ensures
            old(self)@ < u64::MAX ==> id == Some((old(self)@ + 1) as u64) && final(self)@ == old(
                self,
            )@ + 1,
            old(self)@ == u64::MAX ==> id is None && final(self)@ == old(self)@,
    {
        if self.last == u64::MAX {
            None
        } else {
            self.last = self.last + 1;
            Some(self.last)
        }
    }
}

} // verus!

//! The connection side: the configuration of a run, the plan that spreads its
//! connection slots over threads and time, and the life of one slot.

use vstd::prelude::*;

pub mod host;
pub mod laws;
pub mod slot;
pub mod tcp;

verus! {

/// The request that every connection sends: bytes that nothing here reads.
#[derive(Debug)]
pub struct Message {
    pub body: Vec<u8>,
}

impl Message {
    pub fn new(body: Vec<u8>) -> (message: Message)
        ensures
            message.body == body,
    {
        Message { body }
    }
}

impl Clone for Message {
    /// Every connection task gets the same bytes.
    fn clone(&self) -> (copy: Message)
        ensures
            copy.body@ == self.body@,
    {
        let body = self.body.clone();
        assert(body@ =~= self.body@);
        Message { body }
    }
}

} // verus!

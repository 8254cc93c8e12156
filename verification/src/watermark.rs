use vstd::prelude::*;

verus! {

/// The engine's own failure values.
#[derive(Clone, Copy, Debug, PartialEq, Eq, Structural)]
pub enum EngineError {
    /// An attempt was made to move the watermark backwards or keep it in
    /// place, which correct operation never does.
    InvariantViolation,
}

/// The next block number to include in the next query: the engine's sole
/// persistent cursor.  It never decreases.
pub struct Watermark {
    next: u64,
}

impl Watermark {
    /// The next block number to query.
    pub closed spec fn spec_current(&self) -> u64 {
        self.next
    }

    /// Start the cursor at an explicit block (either a configured start block
    /// or the chain head observed at startup).
    pub fn new(start_block: u64) -> (w: Watermark)
        ensures
            w.spec_current() == start_block,
    {
        Watermark { next: start_block }
    }

    /// Read the cursor.
    pub fn current(&self) -> (b: u64)
        ensures
            b == self.spec_current(),
    {
        self.next
    }

    /// Move the cursor forward.  Refuses anything that is not a strict
    /// advance, leaving the cursor untouched, so the watermark can never
    /// decrease whatever a caller does.
    pub fn advance_to(&mut self, next: u64) -> (r: Result<(), EngineError>)
        ensures
            r is Ok <==> next > old(self).spec_current(),
            r is Ok ==> final(self).spec_current() == next,
            r is Err ==> final(self).spec_current() == old(self).spec_current() && r
                == Err::<(), EngineError>(EngineError::InvariantViolation),
            final(self).spec_current() >= old(self).spec_current(),
    {
        if next > self.next {
            self.next = next;
            Ok(())
        } else {
            Err(EngineError::InvariantViolation)
        }
    }
}

} // verus!

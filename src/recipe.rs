use vstd::prelude::*;
use crate::command::{GrainfatherCommand, command_frame};

verus! {

/// A recipe as the appliance runs it: its steps, each already expressed as the
/// command that carries it out, in the order they are sent.
pub struct Recipe {
    pub steps: Vec<GrainfatherCommand>,
}

impl Recipe {
    /// The wire frames of the recipe: one per step, in step order.
    pub fn to_commands(&self) -> (r: Vec<Vec<u8>>)
        ensures
            r@.len() == self.steps@.len(),
            forall|i: int| 0 <= i < r@.len() ==> #[trigger] r@[i]@ == command_frame(self.steps@[i]),
    {
        let mut out: Vec<Vec<u8>> = Vec::with_capacity(self.steps.len());
        let mut i: usize = 0;
        while i < self.steps.len()
            invariant
                i <= self.steps@.len(),
                out@.len() == i,
                forall|k: int| 0 <= k < i ==> #[trigger] out@[k]@ == command_frame(self.steps@[k]),
            decreases self.steps@.len() - i,
        {
            out.push(self.steps[i].to_vec());
            i = i + 1;
        }
        out
    }
}

} // verus!

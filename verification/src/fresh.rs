use crate::time::Timestamp;
use vstd::prelude::*;

verus! {

/// Fresh identifiers and one reading of the clock, drawn before a step that
/// may need them.
#[derive(Debug)]
pub struct Fresh {
    pub ids: Vec<String>,
    pub now: Timestamp,
}

impl Fresh {
    /// What holds of whatever is drawn: there are `count` identifiers, each
    /// a UUID's 36 characters, and the time is one that chrono can hold.
    /// Which identifiers and which time they are is open.
    pub open spec fn drawn(self, count: int) -> bool {
        &&& self.ids@.len() == count
        &&& forall|i: int| 0 <= i < self.ids@.len() ==> (#[trigger] self.ids@[i])@.len() == 36
        &&& self.now.representable()
    }

    /// As many new identifiers as asked for, and the time.
    pub fn draw(count: usize) -> (r: Fresh)
        ensures
            r.drawn(count as int),
    {
        let mut ids: Vec<String> = Vec::new();
        let mut i: usize = 0;
        while i < count
            invariant
                i <= count,
                ids@.len() == i,
                forall|j: int| 0 <= j < i ==> (#[trigger] ids@[j])@.len() == 36,
            decreases count - i,
        {
            ids.push(crate::new_id());
            i += 1;
        }
        Fresh { ids, now: crate::now() }
    }
}

} // verus!

//! What the state of a simulation is asked to do.

use vstd::prelude::*;

verus! {

/// The state that a simulation keeps between cycles.
pub trait State {
    /// Whether one more cycle can still be counted.
    spec fn can_update(&self) -> bool;

    /// Closes a cycle of the simulation.
    fn update(&mut self)
        requires
            old(self).can_update(),
    ;
}

} // verus!

//! What taking part in the simulation asks of an agent.

use crate::dice::DiceSource;
use crate::player::Player;
use crate::state::State;
use vstd::prelude::*;

verus! {

/// Anything that takes turns in a simulation.
pub trait Agent {
    /// The state of the simulation that the agent acts in.
    type SimState: State;

    /// Whether the agent is in a condition to take a turn.
    spec fn can_step(&self) -> bool;

    /// Takes one turn, throwing `dice` as often as the turn asks.
    fn step<D: DiceSource>(
        &mut self,
        state: &Self::SimState,
        players: Vec<&Player>,
        dice: &mut D,
    )
        requires
            old(self).can_step(),
    ;
}

} // verus!

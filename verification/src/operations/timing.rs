use vstd::prelude::*;

verus! {

/// The running count of processor cycles that bus activity has cost.
pub struct CycleClock {
    pub cycles: u32,
}

impl CycleClock {
    /// A clock at zero.
    pub fn new() -> (clock: CycleClock)
        ensures
            clock.cycles == 0,
    {
        CycleClock { cycles: 0 }
    }

    /// The cycles counted so far.
    pub fn get_cycles(&self) -> (cycles: u32)
        ensures
            cycles == self.cycles,
    {
        self.cycles
    }
}

} // verus!

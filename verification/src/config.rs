//! What is stored about a delegate: its quota and what it has used of it.

use vstd::prelude::*;

verus! {

/// The quota granted to one delegate on one target contract.
#[derive(Clone, Copy, Debug, PartialEq, Eq, Structural)]
pub struct MinterConfig {
    /// The amount that the quota rule compares the consumption of an epoch to.
    pub limit: i128,
    /// The number of ticks in one epoch.
    pub epoch_length: u32,
}

impl MinterConfig {
    /// A quota is usable when its epochs are at least one tick long.
    pub open spec fn wf(self) -> bool {
        self.epoch_length > 0
    }
}

/// What a delegate has consumed within one epoch.
#[derive(Clone, Copy, Debug, PartialEq, Eq, Structural)]
pub struct MinterStats {
    pub consumed_limit: i128,
}

impl MinterStats {
    /// The record of an epoch in which nothing has been minted yet.
    pub open spec fn zero() -> MinterStats {
        MinterStats { consumed_limit: 0 }
    }
}

/// What a stored record says has been consumed: the record itself, and
/// nothing where there is none.
pub open spec fn spec_recorded(stored: Option<MinterStats>) -> MinterStats {
    match stored {
        Some(stats) => stats,
        None => MinterStats::zero(),
    }
}

/// What a stored record says has been consumed: the record itself, and
/// nothing where there is none.
#[verifier::when_used_as_spec(spec_recorded)]
pub fn recorded(stored: Option<MinterStats>) -> (stats: MinterStats)
    ensures
        stats == spec_recorded(stored),
{
    match stored {
        Some(stats) => stats,
        None => MinterStats::default(),
    }
}

impl Default for MinterStats {
    fn default() -> (stats: MinterStats)
        ensures
            stats == MinterStats::zero(),
    {
        MinterStats { consumed_limit: 0 }
    }
}

} // verus!

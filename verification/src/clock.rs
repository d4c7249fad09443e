//! From ticks to epochs.
//!
//! The host counts ticks. An epoch is a run of `epoch_length` ticks; epoch
//! `i` holds the ticks from `i * epoch_length` up to, but not including,
//! `(i + 1) * epoch_length`.

use vstd::prelude::*;
use vstd::arithmetic::div_mod::{lemma_fundamental_div_mod, lemma_div_pos_is_pos, lemma_mod_bound};

verus! {

/// The epoch that `tick` falls in.
pub open spec fn spec_epoch_index(tick: u32, epoch_length: u32) -> int {
    tick as int / epoch_length as int
}

/// The first tick after the epoch that `tick` falls in.
pub open spec fn spec_epoch_end(tick: u32, epoch_length: u32) -> int {
    (spec_epoch_index(tick, epoch_length) + 1) * epoch_length
}

/// The number of ticks from `tick` to the end of its epoch.
pub open spec fn spec_ticks_to_epoch_end(tick: u32, epoch_length: u32) -> int {
    spec_epoch_end(tick, epoch_length) - tick
}

/// Computes the epoch that `tick` falls in.
pub fn epoch_index(tick: u32, epoch_length: u32) -> (epoch: u32)
    requires
        epoch_length > 0,
    ensures
        epoch == spec_epoch_index(tick, epoch_length),
{
    tick / epoch_length
}

/// Computes for how many ticks, counted from `tick`, a record must be kept
/// so that it outlasts the epoch that `tick` falls in.
pub fn ticks_to_epoch_end(tick: u32, epoch_length: u32) -> (ticks: u32)
    requires
        epoch_length > 0,
    ensures
        ticks == spec_ticks_to_epoch_end(tick, epoch_length),
        1 <= ticks <= epoch_length,
{
    proof {
        lemma_fundamental_div_mod(tick as int, epoch_length as int);
        lemma_mod_bound(tick as int, epoch_length as int);
        assert((tick as int / epoch_length as int + 1) * epoch_length
            == epoch_length * (tick as int / epoch_length as int) + epoch_length)
            by (nonlinear_arith);
    }
    epoch_length - tick % epoch_length
}

/// An epoch is the ticks from its start up to its end: `tick` lies between
/// the start and the end of the epoch `spec_epoch_index(tick, epoch_length)`,
/// and the end is at most `epoch_length` ticks away.
pub proof fn lemma_epoch_bounds(tick: u32, epoch_length: u32)
    requires
        epoch_length > 0,
    ensures
        0 <= spec_epoch_index(tick, epoch_length) <= tick,
        spec_epoch_index(tick, epoch_length) * epoch_length <= tick < spec_epoch_end(tick, epoch_length),
        1 <= spec_ticks_to_epoch_end(tick, epoch_length) <= epoch_length,
{
    let d = epoch_length as int;
    let q = tick as int / d;
    lemma_fundamental_div_mod(tick as int, d);
    lemma_mod_bound(tick as int, d);
    lemma_div_pos_is_pos(tick as int, d);
    assert(q * d == d * q) by (nonlinear_arith);
    assert((q + 1) * d == d * q + d) by (nonlinear_arith);
    assert(q <= q * d) by (nonlinear_arith)
        requires
            q >= 0,
            d >= 1,
    ;
}

} // verus!

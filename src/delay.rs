//! Delays counted on the SysTick timer: how a delay splits into reloads.
use crate::clocks::HFCLK_FREQ;
use vstd::prelude::*;

verus! {

/// Largest SysTick reload value (the reload register has 24 bits).
pub const MAX_RVR: u32 = 0x00FF_FFFF;

/// SysTick ticks per microsecond.
pub const TICKS_PER_US: u32 = HFCLK_FREQ / 1_000_000;

/// The reloads that count `total` ticks: full reloads of `MAX_RVR` while more
/// remain, then what is left.
pub open spec fn reloads_for(total: nat) -> Seq<u32>
    decreases total,
{
    if total == 0 {
        Seq::empty()
    } else if total <= MAX_RVR as nat {
        seq![total as u32]
    } else {
        seq![MAX_RVR].add(reloads_for((total - MAX_RVR) as nat))
    }
}

/// The reload values, in order, that make a delay of `us` microseconds.
pub fn reload_chunks(us: u32) -> (r: Vec<u32>)
    requires
        us as nat * TICKS_PER_US as nat <= u32::MAX as nat,
    ensures
        r@ == reloads_for(us as nat * TICKS_PER_US as nat),
{
    let mut total_rvr: u32 = us * TICKS_PER_US;
    let mut reloads: Vec<u32> = Vec::new();
    while total_rvr != 0
        invariant
            reloads@ + reloads_for(total_rvr as nat) == reloads_for(us as nat * TICKS_PER_US as nat),
        decreases total_rvr,
    {
        let current_rvr = if total_rvr <= MAX_RVR {
            total_rvr
        } else {
            MAX_RVR
        };
        let ghost before = reloads@;
        reloads.push(current_rvr);
        total_rvr -= current_rvr;
        proof {
            if total_rvr == 0 {
                assert(reloads_for(0) == Seq::<u32>::empty());
                assert(reloads@ + reloads_for(total_rvr as nat) =~= before + seq![current_rvr]);
            } else {
                assert(reloads@ + reloads_for(total_rvr as nat) =~= before + (seq![MAX_RVR]
                    + reloads_for(total_rvr as nat)));
            }
        }
    }
    assert(reloads@ + reloads_for(0) =~= reloads@);
    reloads
}

} // verus!

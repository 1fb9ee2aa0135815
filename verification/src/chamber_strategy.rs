use crate::address::Address;
use crate::chamber_market::ChamberMarket;
use vstd::prelude::*;

verus! {

/// Internal strategy configuration of a chamber: which farm it targets and
/// how the position is leveraged.
#[derive(Clone, Copy, Debug)]
pub struct ChamberStrategy {
    pub market: ChamberMarket,
    pub farm: Address,
    pub farm_program: Address,
    /// Leverage multiplier applied to deposited value. At least two, so that
    /// `leverage - 1` is usable as the borrow multiplier.
    pub leverage: u64,
    /// True when the base token is the pair's volatile side; used by the
    /// pseudo-delta-neutral borrow split.
    pub is_base_volatile: bool,
}

impl ChamberStrategy {
    /// A strategy is well formed when its leverage was validated at creation.
    pub open spec fn wf(self) -> bool {
        self.leverage >= 2
    }

    pub fn new(
        market: ChamberMarket,
        farm: &Address,
        farm_program: &Address,
        leverage: u64,
        is_base_volatile: bool,
    ) -> (r: ChamberStrategy)
        requires
            leverage >= 2,
        ensures
            r == (ChamberStrategy {
                market,
                farm: *farm,
                farm_program: *farm_program,
                leverage,
                is_base_volatile,
            }),
            r.wf(),
    {
        ChamberStrategy { market, farm: *farm, farm_program: *farm_program, leverage, is_base_volatile }
    }
}

} // verus!

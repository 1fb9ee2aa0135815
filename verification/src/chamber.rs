//! The durable record of one deployed vault instance.

use crate::chamber_config::ChamberConfig;
use crate::chamber_strategy::ChamberStrategy;
use crate::chamber_vault::ChamberVault;
use vstd::prelude::*;

verus! {

/// One pooled leveraged position shared by all depositors of a strategy
/// instance: strategy parameters, token-side data, and addressing config.
#[derive(Clone, Copy, Debug)]
pub struct Chamber {
    pub strategy: ChamberStrategy,
    pub vault: ChamberVault,
    pub config: ChamberConfig,
}

impl Chamber {
    /// Created once; the strategy's leverage was validated then.
    pub open spec fn wf(self) -> bool {
        self.strategy.wf()
    }

    pub fn init(&mut self, strategy: &ChamberStrategy, vault: &ChamberVault, config: &ChamberConfig)
        ensures
            *final(self) == (Chamber { strategy: *strategy, vault: *vault, config: *config }),
    {
        self.strategy = *strategy;
        self.vault = *vault;
        self.config = *config;
    }
}

} // verus!

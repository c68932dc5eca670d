//! The two upgrades on sale and what each one is worth.

use vstd::prelude::*;

verus! {

/// Which statistic an upgrade raises.
#[derive(Clone, Copy, Debug, PartialEq, Eq, Structural)]
pub enum UpgradeType {
    Damage,
    Speed,
}

/// Tenths of damage that one damage upgrade adds (5.0).
pub const DAMAGE_STEP: u64 = 50;

/// Tenths of speed that one speed upgrade adds (0.2).
pub const SPEED_STEP: u64 = 2;

/// The largest value a statistic can hold; upgrades beyond it leave it there.
pub const STAT_CEILING: u64 = 0xffff_ffff_ffff_ffff;

impl UpgradeType {
    /// Tenths that one purchase of this upgrade adds to its statistic.
    pub open spec fn step(self) -> int {
        match self {
            UpgradeType::Damage => DAMAGE_STEP as int,
            UpgradeType::Speed => SPEED_STEP as int,
        }
    }

    /// Tenths that one purchase of this upgrade adds to its statistic.
    pub fn step_tenths(self) -> (r: u64)
        ensures
            r == self.step(),
    {
        match self {
            UpgradeType::Damage => DAMAGE_STEP,
            UpgradeType::Speed => SPEED_STEP,
        }
    }
}

} // verus!

//! The player's coins and statistics.

use vstd::prelude::*;
use crate::upgrade::{UpgradeType, STAT_CEILING};

verus! {

/// What a `PlayerStats` stands for: coins, and damage and speed in tenths.
pub struct StatsModel {
    pub coins: int,
    pub damage: int,
    pub speed: int,
}

/// A statistic raised by `step` tenths, held at the ceiling.
pub open spec fn raised(value: int, step: int) -> int {
    if value + step > STAT_CEILING as int {
        STAT_CEILING as int
    } else {
        value + step
    }
}

impl StatsModel {
    /// Whether `cost` coins can be paid.
    pub open spec fn affords(self, cost: int) -> bool {
        self.coins >= cost
    }

    /// The record after `cost` coins were paid.
    pub open spec fn pay(self, cost: int) -> StatsModel {
        StatsModel { coins: self.coins - cost, ..self }
    }

    /// The record after one upgrade took effect: its statistic is raised by
    /// the upgrade's step, and nothing else changes.
    pub open spec fn upgraded(self, upgrade: UpgradeType) -> StatsModel {
        match upgrade {
            UpgradeType::Damage => StatsModel {
                damage: raised(self.damage, upgrade.step()),
                ..self
            },
            UpgradeType::Speed => StatsModel { speed: raised(self.speed, upgrade.step()), ..self },
        }
    }
}

/// Coins, damage and speed of the player. Damage and speed are in tenths.
#[derive(Clone, Copy, Debug, PartialEq, Eq, Structural)]
pub struct PlayerStats {
    coins: u32,
    damage: u64,
    speed: u64,
}

impl View for PlayerStats {
    type V = StatsModel;

    closed spec fn view(&self) -> StatsModel {
        StatsModel { coins: self.coins as int, damage: self.damage as int, speed: self.speed as int }
    }
}

impl PlayerStats {
    /// Every record lies within the machine's ranges.
    pub proof fn lemma_bounds(self)
        ensures
            0 <= self@.coins <= u32::MAX,
            0 <= self@.damage <= STAT_CEILING,
            0 <= self@.speed <= STAT_CEILING,
    {
    }

    /// A record with the given coins, and damage and speed in tenths.
    pub fn new(coins: u32, damage_tenths: u64, speed_tenths: u64) -> (r: PlayerStats)
        ensures
            r@ == (StatsModel {
                coins: coins as int,
                damage: damage_tenths as int,
                speed: speed_tenths as int,
            }),
    {
        PlayerStats { coins, damage: damage_tenths, speed: speed_tenths }
    }

    pub fn coins(&self) -> (r: u32)
        ensures
            r == self@.coins,
    {
        self.coins
    }

    /// Damage in tenths.
    pub fn damage_tenths(&self) -> (r: u64)
        ensures
            r == self@.damage,
    {
        self.damage
    }

    /// Speed in tenths.
    pub fn speed_tenths(&self) -> (r: u64)
        ensures
            r == self@.speed,
    {
        self.speed
    }

    /// Whether the player holds at least `cost` coins.
    pub fn can_afford(&self, cost: u32) -> (r: bool)
        ensures
            r == self@.affords(cost as int),
    {
        self.coins >= cost
    }

    /// Pays `cost` coins where the player can afford them and says whether it
    /// did; a player who cannot keeps every coin.
    pub fn try_pay(&mut self, cost: u32) -> (paid: bool)
        ensures
            paid == old(self)@.affords(cost as int),
            paid ==> final(self)@ == old(self)@.pay(cost as int),
            !paid ==> *final(self) == *old(self),
    {
        if self.coins >= cost {
            self.coins = self.coins - cost;
            true
        } else {
            false
        }
    }

    /// Applies one upgrade to its statistic.
    pub fn apply_upgrade(&mut self, upgrade: UpgradeType)
        ensures
            final(self)@ == old(self)@.upgraded(upgrade),
    {
        let step: u64 = upgrade.step_tenths();
        match upgrade {
            UpgradeType::Damage => {
                self.damage = self.damage.saturating_add(step);
            },
            UpgradeType::Speed => {
                self.speed = self.speed.saturating_add(step);
            },
        }
    }
}

impl Default for PlayerStats {
    /// The record a new player starts with: 100 coins, damage 10.0, speed 1.0.
    fn default() -> (r: PlayerStats)
        ensures
            r@ == (StatsModel { coins: 100, damage: 100, speed: 10 }),
    {
        PlayerStats { coins: 100, damage: 100, speed: 10 }
    }
}

} // verus!

//! What a shop stands for, and what each phase of a frame does to it.

use vstd::prelude::*;
use crate::button::{coins_after, ButtonModel, ButtonOutcome, InteractionState, Tint};
use crate::labels::{coins_text, damage_text, initial_status_text, speed_text, status_text};
use crate::stats::StatsModel;
use crate::upgrade::UpgradeType;

verus! {

/// A request to apply one upgrade. The input phase queues it once the cost
/// is paid; the update phase applies it.
#[derive(Clone, Copy, Debug, PartialEq, Eq, Structural)]
pub struct PurchaseEvent {
    pub upgrade_type: UpgradeType,
}

/// The phases of a frame, in the order in which they run.
#[derive(Clone, Copy, Debug, PartialEq, Eq, Hash, Structural)]
pub enum ShopSystemSet {
    Input,
    Update,
    Display,
}

/// The states of the game. The shop runs while the game is played.
#[derive(Clone, Copy, Debug, PartialEq, Eq, Hash, Structural)]
pub enum GameState {
    Playing,
}

impl Default for GameState {
    /// A game starts out being played.
    fn default() -> (r: GameState)
        ensures
            r == GameState::Playing,
    {
        GameState::Playing
    }
}

/// The statistics of a new player: 100 coins, damage 10.0, speed 1.0.
pub open spec fn initial_stats() -> StatsModel {
    StatsModel { coins: 100, damage: 100, speed: 10 }
}

/// A button as it is set up: idle, with nothing reported for it yet.
pub open spec fn fresh_button(upgrade_type: UpgradeType, cost: int) -> ButtonModel {
    ButtonModel {
        upgrade_type,
        cost,
        interaction: InteractionState::Untouched,
        seen: InteractionState::Untouched,
        tint: Tint::Idle,
    }
}

/// The texts on screen. A label that was never set up is absent, and a
/// write to an absent label is skipped.
pub struct LabelsModel {
    pub coins: Option<Seq<char>>,
    pub damage: Option<Seq<char>>,
    pub speed: Option<Seq<char>>,
    pub status: Option<Seq<char>>,
}

/// A label after `text` was written to it: an absent label stays absent.
pub open spec fn written(label: Option<Seq<char>>, text: Seq<char>) -> Option<Seq<char>> {
    if label.is_some() {
        Some(text)
    } else {
        label
    }
}

/// A label after an optional write.
pub open spec fn told(label: Option<Seq<char>>, text: Option<Seq<char>>) -> Option<Seq<char>> {
    match text {
        Some(t) => written(label, t),
        None => label,
    }
}

/// The statistics after the queued upgrades took effect, oldest first.
pub open spec fn apply_all(stats: StatsModel, queue: Seq<PurchaseEvent>) -> StatsModel
    decreases queue.len(),
{
    if queue.len() == 0 {
        stats
    } else {
        apply_all(stats, queue.drop_last()).upgraded(queue.last().upgrade_type)
    }
}

/// One frame's input: the interaction reported for each button, by its
/// place in the shop, and whether the primary button was clicked in it.
pub struct FrameInput {
    pub signals: Seq<InteractionState>,
    pub click_edge: bool,
}

/// What a `Shop` stands for.
pub struct ShopModel {
    pub stats: StatsModel,
    pub buttons: Seq<ButtonModel>,
    /// The purchases paid for and not yet applied, oldest first.
    pub queue: Seq<PurchaseEvent>,
    pub labels: LabelsModel,
}

impl ShopModel {
    /// The coins are not negative and every button is well formed.
    pub open spec fn wf(self) -> bool {
        &&& self.stats.coins >= 0
        &&& forall|i: int| 0 <= i < self.buttons.len() ==> (#[trigger] self.buttons[i]).wf()
    }

    /// The shop with the three statistic labels set up, showing the
    /// statistics of a new player.
    pub open spec fn with_stats_display(self) -> ShopModel {
        ShopModel {
            labels: LabelsModel {
                coins: Some(coins_text(initial_stats())),
                damage: Some(damage_text(initial_stats())),
                speed: Some(speed_text(initial_stats())),
                ..self.labels
            },
            ..self
        }
    }

    /// The shop with one more button, behind those already there.
    pub open spec fn with_button(self, upgrade_type: UpgradeType, cost: int) -> ShopModel {
        ShopModel { buttons: self.buttons.push(fresh_button(upgrade_type, cost)), ..self }
    }

    /// The shop with its panel set up: the statistic labels, the damage
    /// button at 50 coins, the speed button at 30, and the status label.
    pub open spec fn set_up(self) -> ShopModel {
        let stocked = self.with_stats_display().with_button(UpgradeType::Damage, 50).with_button(
            UpgradeType::Speed,
            30,
        );
        ShopModel {
            labels: LabelsModel { status: Some(initial_status_text()), ..stocked.labels },
            ..stocked
        }
    }

    /// The shop of a new game.
    pub open spec fn opening() -> ShopModel {
        (ShopModel {
            stats: initial_stats(),
            buttons: Seq::empty(),
            queue: Seq::empty(),
            labels: LabelsModel { coins: None, damage: None, speed: None, status: None },
        }).set_up()
    }

    /// The shop with new interactions reported. A button beyond the end of
    /// `signals` keeps the interaction it had.
    pub open spec fn observe(self, signals: Seq<InteractionState>) -> ShopModel {
        ShopModel {
            buttons: Seq::new(
                self.buttons.len(),
                |i: int|
                    if i < signals.len() {
                        self.buttons[i].observing(signals[i])
                    } else {
                        self.buttons[i]
                    },
            ),
            ..self
        }
    }

    /// What the input phase does with button `i`, given the coins held when
    /// its turn comes.
    pub open spec fn outcome_at(self, i: int, click_edge: bool) -> ButtonOutcome {
        self.buttons[i].outcome(self.stats.coins, click_edge)
    }

    /// The shop after the input phase processed button `i`: the button is
    /// restyled, a purchase is paid for and queued, and the status label
    /// is told the verdict on an attempt.
    pub open spec fn press(self, i: int, click_edge: bool) -> ShopModel {
        let button = self.buttons[i];
        let outcome = self.outcome_at(i, click_edge);
        ShopModel {
            stats: StatsModel {
                coins: coins_after(self.stats.coins, button.cost, outcome),
                ..self.stats
            },
            buttons: self.buttons.update(i, button.processed(outcome)),
            queue: if outcome == ButtonOutcome::Purchased {
                self.queue.push(PurchaseEvent { upgrade_type: button.upgrade_type })
            } else {
                self.queue
            },
            labels: LabelsModel {
                status: told(self.labels.status, status_text(outcome)),
                ..self.labels
            },
        }
    }

    /// The shop after the input phase processed its first `n` buttons, in
    /// their order.
    pub open spec fn input_upto(self, n: nat, click_edge: bool) -> ShopModel
        decreases n,
    {
        if n == 0 {
            self
        } else {
            self.input_upto((n - 1) as nat, click_edge).press(n - 1, click_edge)
        }
    }

    /// The shop after the input phase.
    pub open spec fn input(self, click_edge: bool) -> ShopModel {
        self.input_upto(self.buttons.len(), click_edge)
    }

    /// The shop after the update phase: every queued upgrade took effect,
    /// oldest first, and the queue is empty.
    pub open spec fn update(self) -> ShopModel {
        ShopModel { stats: apply_all(self.stats, self.queue), queue: Seq::empty(), ..self }
    }

    /// The shop after the display phase: each label that is present shows
    /// its statistic.
    pub open spec fn display(self) -> ShopModel {
        ShopModel {
            labels: LabelsModel {
                coins: written(self.labels.coins, coins_text(self.stats)),
                damage: written(self.labels.damage, damage_text(self.stats)),
                speed: written(self.labels.speed, speed_text(self.stats)),
                ..self.labels
            },
            ..self
        }
    }

    /// The shop after one phase.
    pub open spec fn phase(self, set: ShopSystemSet, click_edge: bool) -> ShopModel {
        match set {
            ShopSystemSet::Input => self.input(click_edge),
            ShopSystemSet::Update => self.update(),
            ShopSystemSet::Display => self.display(),
        }
    }

    /// The shop after one frame: input, then update, then display.
    pub open spec fn frame(self, click_edge: bool) -> ShopModel {
        self.input(click_edge).update().display()
    }

    /// The shop after a run of frames, each with its own input.
    pub open spec fn run(self, frames: Seq<FrameInput>) -> ShopModel
        decreases frames.len(),
    {
        if frames.len() == 0 {
            self
        } else {
            let last = frames.last();
            self.run(frames.drop_last()).observe(last.signals).frame(last.click_edge)
        }
    }
}

} // verus!

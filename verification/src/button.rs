//! One shop button: what the pointer does to it, how it is tinted, and what a
//! press on it costs.

use vstd::prelude::*;
use crate::stats::{PlayerStats, StatsModel};
use crate::upgrade::UpgradeType;

verus! {

/// The pointer's relation to a button, as the input layer reports it.
#[derive(Clone, Copy, Debug, PartialEq, Eq, Structural)]
pub enum InteractionState {
    /// The pointer is elsewhere.
    Untouched,
    Hovered,
    Pressed,
}

/// The background a button is drawn with.
#[derive(Clone, Copy, Debug, PartialEq, Eq, Structural)]
pub enum Tint {
    Idle,
    Hover,
    Pressed,
    Purchased,
}

/// What the input phase did with a button.
#[derive(Clone, Copy, Debug, PartialEq, Eq, Structural)]
pub enum ButtonOutcome {
    /// The interaction is the one already seen: the button was left alone.
    Ignored,
    /// The interaction changed and only the tint followed it.
    Restyled,
    /// The press bought the upgrade: its cost was paid.
    Purchased,
    /// The press was declined: the player holds too few coins.
    Declined,
}

/// What a `ShopButton` stands for.
pub struct ButtonModel {
    pub upgrade_type: UpgradeType,
    pub cost: int,
    /// The interaction reported for the current frame.
    pub interaction: InteractionState,
    /// The interaction that the input phase last saw.
    pub seen: InteractionState,
    pub tint: Tint,
}

/// The tint that shows an interaction.
pub open spec fn tint_of(interaction: InteractionState) -> Tint {
    match interaction {
        InteractionState::Untouched => Tint::Idle,
        InteractionState::Hovered => Tint::Hover,
        InteractionState::Pressed => Tint::Pressed,
    }
}

impl ButtonModel {
    /// The tint shows the interaction last seen; a pressed button may show
    /// that it was bought instead.
    pub open spec fn wf(self) -> bool {
        &&& self.cost >= 0
        &&& (self.tint == tint_of(self.seen) || (self.seen == InteractionState::Pressed
            && self.tint == Tint::Purchased))
    }

    /// Whether the interaction differs from the one last seen. Only such a
    /// button is processed.
    pub open spec fn changed(self) -> bool {
        self.interaction != self.seen
    }

    /// What the input phase does with the button when the player holds
    /// `coins`. A purchase is attempted only on a change to `Pressed` in a
    /// frame whose click edge is set.
    pub open spec fn outcome(self, coins: int, click_edge: bool) -> ButtonOutcome {
        if !self.changed() {
            ButtonOutcome::Ignored
        } else if self.interaction == InteractionState::Pressed && click_edge {
            if coins >= self.cost {
                ButtonOutcome::Purchased
            } else {
                ButtonOutcome::Declined
            }
        } else {
            ButtonOutcome::Restyled
        }
    }

    /// The button after the input phase, given what the phase did with it.
    pub open spec fn processed(self, outcome: ButtonOutcome) -> ButtonModel {
        match outcome {
            ButtonOutcome::Ignored => self,
            ButtonOutcome::Purchased => ButtonModel {
                seen: self.interaction,
                tint: Tint::Purchased,
                ..self
            },
            _ => ButtonModel { seen: self.interaction, tint: tint_of(self.interaction), ..self },
        }
    }

    /// The button with a new interaction reported for it.
    pub open spec fn observing(self, interaction: InteractionState) -> ButtonModel {
        ButtonModel { interaction, ..self }
    }
}

/// The coins left once a button with the given cost met the given outcome.
pub open spec fn coins_after(coins: int, cost: int, outcome: ButtonOutcome) -> int {
    if outcome == ButtonOutcome::Purchased {
        coins - cost
    } else {
        coins
    }
}

/// A button that sells one upgrade at a fixed cost.
#[derive(Clone, Copy, Debug, PartialEq, Eq, Structural)]
pub struct ShopButton {
    upgrade_type: UpgradeType,
    cost: u32,
    interaction: InteractionState,
    seen: InteractionState,
    tint: Tint,
}

impl View for ShopButton {
    type V = ButtonModel;

    closed spec fn view(&self) -> ButtonModel {
        ButtonModel {
            upgrade_type: self.upgrade_type,
            cost: self.cost as int,
            interaction: self.interaction,
            seen: self.seen,
            tint: self.tint,
        }
    }
}

impl ShopButton {
    /// The tint always shows what was last seen of the button.
    #[verifier::type_invariant]
    closed spec fn tint_follows(self) -> bool {
        self@.wf()
    }

    /// A button's cost is never negative and fits the coin counter.
    pub proof fn lemma_cost_bounds(self)
        ensures
            0 <= self@.cost <= u32::MAX,
    {
    }

    /// An idle button for the given upgrade.
    pub fn new(upgrade_type: UpgradeType, cost: u32) -> (r: ShopButton)
        ensures
            r@ == (ButtonModel {
                upgrade_type,
                cost: cost as int,
                interaction: InteractionState::Untouched,
                seen: InteractionState::Untouched,
                tint: Tint::Idle,
            }),
            r@.wf(),
    {
        ShopButton {
            upgrade_type,
            cost,
            interaction: InteractionState::Untouched,
            seen: InteractionState::Untouched,
            tint: Tint::Idle,
        }
    }

    pub fn upgrade_type(&self) -> (r: UpgradeType)
        ensures
            r == self@.upgrade_type,
    {
        self.upgrade_type
    }

    pub fn cost(&self) -> (r: u32)
        ensures
            r == self@.cost,
    {
        self.cost
    }

    /// The interaction reported for the current frame.
    pub fn interaction(&self) -> (r: InteractionState)
        ensures
            r == self@.interaction,
    {
        self.interaction
    }

    pub fn tint(&self) -> (r: Tint)
        ensures
            r == self@.tint,
    {
        self.tint
    }

    /// Records the interaction that the input layer reports for this frame.
    pub fn set_interaction(&mut self, interaction: InteractionState)
        ensures
            final(self)@ == old(self)@.observing(interaction),
            final(self)@.wf(),
    {
        proof {
            use_type_invariant(&*self);
        }
        self.interaction = interaction;
    }

    /// Processes the button for one frame. A button whose interaction did
    /// not change is left alone. Otherwise the tint follows the interaction,
    /// and a change to `Pressed` in a frame with a click edge attempts the
    /// purchase: the cost is paid where the player can afford it, and the
    /// attempt is declined where not.
    pub fn handle(&mut self, click_edge: bool, stats: &mut PlayerStats) -> (outcome: ButtonOutcome)
        ensures
            outcome == old(self)@.outcome(old(stats)@.coins, click_edge),
            final(self)@ == old(self)@.processed(outcome),
            final(stats)@ == (StatsModel {
                coins: coins_after(old(stats)@.coins, old(self)@.cost, outcome),
                ..old(stats)@
            }),
            final(self)@.wf(),
    {
        proof {
            use_type_invariant(&*self);
        }
        if self.interaction == self.seen {
            return ButtonOutcome::Ignored;
        }
        let (tint, outcome) = match self.interaction {
            InteractionState::Pressed => {
                if click_edge {
                    if stats.try_pay(self.cost) {
                        (Tint::Purchased, ButtonOutcome::Purchased)
                    } else {
                        (Tint::Pressed, ButtonOutcome::Declined)
                    }
                } else {
                    (Tint::Pressed, ButtonOutcome::Restyled)
                }
            },
            InteractionState::Hovered => (Tint::Hover, ButtonOutcome::Restyled),
            InteractionState::Untouched => (Tint::Idle, ButtonOutcome::Restyled),
        };
        *self = ShopButton { seen: self.interaction, tint, ..*self };
        outcome
    }
}

} // verus!
